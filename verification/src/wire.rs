//! The wire formats, defined over byte sequences.
//!
//! Controller-facing inbound frames carry a command as a JSON object
//! `{"mode": "led"|"beep"|"vibey"|"zappy", "level": int, "duration": int}`
//! with the three members in any order, each exactly once; an unrecognized
//! mode token, a missing, repeated or unknown member, a number out of the
//! field's machine range, or trailing content is a parse failure (fail
//! closed). Device-facing outbound frames carry the command with the mode as
//! its numeric code, `{"mode":2,"level":50,"duration":300}`. Status frames
//! carry `{"statusCode":..,"message":"..","petActionRequired":".."}` with the
//! action member absent (not null) when no action is required.

use vstd::prelude::*;
use vstd::string::StrSliceExecFns;
use vstd::string::StringSliceAdditionalSpecFns;
use vstd::utf8::encode_utf8;
use crate::commands::Command;
use crate::commands::Modes;
use crate::messages::Message;
use crate::messages::MessageView;

verus! {

// ---------------------------------------------------------------------------
// Decimal rendering
// ---------------------------------------------------------------------------
/// The decimal digits of `n`, most significant first.
pub open spec fn spec_decimal_nat(n: nat) -> Seq<u8>
    decreases n,
{
    if n < 10 {
        seq![(48 + n) as u8]
    } else {
        spec_decimal_nat(n / 10).push((48 + n % 10) as u8)
    }
}

/// The decimal rendering of `v`, with a leading minus sign when negative.
pub open spec fn spec_decimal_int(v: int) -> Seq<u8> {
    if v < 0 {
        seq![45u8] + spec_decimal_nat((-v) as nat)
    } else {
        spec_decimal_nat(v as nat)
    }
}

fn push_decimal_u32(out: &mut Vec<u8>, n: u32)
    ensures
        final(out)@ == old(out)@ + spec_decimal_nat(n as nat),
    decreases n,
{
    if n < 10 {
        out.push(48 + n as u8);
        assert(out@ =~= old(out)@ + spec_decimal_nat(n as nat));
    } else {
        push_decimal_u32(out, n / 10);
        out.push(48 + (n % 10) as u8);
        assert(out@ =~= old(out)@ + spec_decimal_nat(n as nat));
    }
}

fn push_decimal_i32(out: &mut Vec<u8>, v: i32)
    requires
        v > i32::MIN,
    ensures
        final(out)@ == old(out)@ + spec_decimal_int(v as int),
{
    if v < 0 {
        out.push(45);
        push_decimal_u32(out, (-v) as u32);
        assert(out@ =~= old(out)@ + spec_decimal_int(v as int));
    } else {
        push_decimal_u32(out, v as u32);
    }
}

/// Appends the UTF-8 bytes of `s`.
fn push_str_bytes(out: &mut Vec<u8>, s: &str)
    ensures
        final(out)@ == old(out)@ + s.spec_bytes(),
{
    let mut bytes = s.as_bytes_vec();
    out.append(&mut bytes);
}

// ---------------------------------------------------------------------------
// Outbound frames
// ---------------------------------------------------------------------------
/// The device wire frame of a command: the mode as its numeric code.
pub open spec fn spec_device_frame(c: Command) -> Seq<u8> {
    "{\"mode\":".spec_bytes() + spec_decimal_int(c.mode.spec_as_num() as int)
        + ",\"level\":".spec_bytes() + spec_decimal_int(c.level as int)
        + ",\"duration\":".spec_bytes() + spec_decimal_int(c.duration as int) + "}".spec_bytes()
}

/// Serializes a command for the device socket.
pub fn encode_device_frame(cmd: &Command) -> (out: Vec<u8>)
    ensures
        out@ == spec_device_frame(*cmd),
{
    let mut out: Vec<u8> = Vec::new();
    push_str_bytes(&mut out, "{\"mode\":");
    push_decimal_i32(&mut out, cmd.mode.as_num() as i32);
    push_str_bytes(&mut out, ",\"level\":");
    push_decimal_i32(&mut out, cmd.level as i32);
    push_str_bytes(&mut out, ",\"duration\":");
    push_decimal_i32(&mut out, cmd.duration as i32);
    push_str_bytes(&mut out, "}");
    assert(out@ =~= spec_device_frame(*cmd));
    out
}

/// The controller wire frame of a status message. The action member is absent
/// altogether when the message requires no action.
pub open spec fn spec_status_frame(v: MessageView) -> Seq<u8> {
    "{\"statusCode\":".spec_bytes() + spec_decimal_int(v.status_code) + ",\"message\":\"".spec_bytes()
        + encode_utf8(v.message) + "\"".spec_bytes() + (match v.pet_action_required {
        Some(a) => ",\"petActionRequired\":\"".spec_bytes() + encode_utf8(a) + "\"".spec_bytes(),
        None => Seq::empty(),
    }) + "}".spec_bytes()
}

/// Serializes a status message for the controller socket.
pub fn encode_status_frame(msg: &Message) -> (out: Vec<u8>)
    ensures
        out@ == spec_status_frame(msg@),
{
    let mut out: Vec<u8> = Vec::new();
    push_str_bytes(&mut out, "{\"statusCode\":");
    push_decimal_i32(&mut out, msg.status_code() as i32);
    push_str_bytes(&mut out, ",\"message\":\"");
    let mut text = msg.message_text().as_str().as_bytes_vec();
    out.append(&mut text);
    push_str_bytes(&mut out, "\"");
    match msg.action_required() {
        Some(action) => {
            push_str_bytes(&mut out, ",\"petActionRequired\":\"");
            let mut act = action.as_str().as_bytes_vec();
            out.append(&mut act);
            push_str_bytes(&mut out, "\"");
        },
        None => {},
    }
    push_str_bytes(&mut out, "}");
    assert(out@ =~= spec_status_frame(msg@));
    out
}

// ---------------------------------------------------------------------------
// Inbound command frames
// ---------------------------------------------------------------------------
/// JSON whitespace.
pub open spec fn is_ws(b: u8) -> bool {
    b == 32 || b == 9 || b == 10 || b == 13
}

/// An ASCII decimal digit.
pub open spec fn is_digit(b: u8) -> bool {
    48 <= b <= 57
}

/// The first position at or after `i` holding no whitespace.
pub open spec fn skip_ws(s: Seq<u8>, i: int) -> int
    decreases s.len() - i,
{
    if 0 <= i < s.len() && is_ws(s[i]) {
        skip_ws(s, i + 1)
    } else {
        i
    }
}

/// The first position at or after `i` holding no digit.
pub open spec fn digit_run_end(s: Seq<u8>, i: int) -> int
    decreases s.len() - i,
{
    if 0 <= i < s.len() && is_digit(s[i]) {
        digit_run_end(s, i + 1)
    } else {
        i
    }
}

/// The value of the digits `s[i..j)`, read in base ten.
pub open spec fn digits_value(s: Seq<u8>, i: int, j: int) -> int
    decreases j - i,
{
    if i < j && 0 <= j - 1 < s.len() {
        digits_value(s, i, j - 1) * 10 + (s[j - 1] - 48)
    } else {
        0
    }
}

proof fn lemma_digits_value_nonneg(s: Seq<u8>, i: int, j: int)
    requires
        0 <= i <= j <= s.len(),
        forall|k: int| i <= k < j ==> is_digit(s[k]),
    ensures
        digits_value(s, i, j) >= 0,
    decreases j - i,
{
    if i < j {
        lemma_digits_value_nonneg(s, i, j - 1);
    }
}

proof fn lemma_digit_run_end_ge(s: Seq<u8>, i: int)
    ensures
        digit_run_end(s, i) >= i,
    decreases s.len() - i,
{
    if 0 <= i < s.len() && is_digit(s[i]) {
        lemma_digit_run_end_ge(s, i + 1);
    }
}

/// A JSON integer starting at `i`, without the sign: a nonempty digit run with
/// no superfluous leading zero. Yields the signed value and the position after
/// the digits.
pub open spec fn parse_uint(s: Seq<u8>, i: int, neg: bool) -> Option<(int, int)> {
    if 0 <= i < s.len() && is_digit(s[i]) {
        let j = digit_run_end(s, i);
        if s[i] == 48 && j > i + 1 {
            None
        } else {
            let v = digits_value(s, i, j);
            Some(((if neg { -v } else { v }), j))
        }
    } else {
        None
    }
}

/// A JSON integer starting at `i`: an optional minus sign, then digits.
pub open spec fn parse_int(s: Seq<u8>, i: int) -> Option<(int, int)> {
    if 0 <= i < s.len() && s[i] == 45 {
        parse_uint(s, i + 1, true)
    } else {
        parse_uint(s, i, false)
    }
}

/// A JSON integer within the closed range `lo..=hi`; a value outside the
/// range is a parse failure.
pub open spec fn parse_int_in(s: Seq<u8>, i: int, lo: int, hi: int) -> Option<(int, int)> {
    match parse_int(s, i) {
        Some((v, j)) => if lo <= v <= hi {
            Some((v, j))
        } else {
            None
        },
        None => None,
    }
}

fn skip_ws_exec(s: &Vec<u8>, i: usize) -> (r: usize)
    requires
        i <= s@.len(),
    ensures
        r as int == skip_ws(s@, i as int),
        i <= r <= s@.len(),
{
    let mut j = i;
    while j < s.len() && (s[j] == 32 || s[j] == 9 || s[j] == 10 || s[j] == 13)
        invariant
            i <= j <= s@.len(),
            skip_ws(s@, i as int) == skip_ws(s@, j as int),
        decreases s@.len() - j,
    {
        j = j + 1;
    }
    j
}

fn parse_int_exec(s: &Vec<u8>, i: usize, lo: i32, hi: i32) -> (r: Option<(i32, usize)>)
    requires
        i <= s@.len(),
        -40000 < (lo as int),
        (lo as int) <= (hi as int),
        (hi as int) < 40000,
    ensures
        r matches Some(vj) ==> parse_int_in(s@, i as int, lo as int, hi as int) == Some(
            (vj.0 as int, vj.1 as int),
        ) && i <= vj.1 <= s@.len(),
        r is None ==> parse_int_in(s@, i as int, lo as int, hi as int) is None,
{
    let mut p = i;
    let mut neg = false;
    if p < s.len() && s[p] == 45 {
        neg = true;
        p = p + 1;
    }
    if !(p < s.len() && 48 <= s[p] && s[p] <= 57) {
        return None;
    }
    let start = p;
    let mut acc: u32 = 0;
    while p < s.len() && 48 <= s[p] && s[p] <= 57
        invariant
            start <= p <= s@.len(),
            forall|k: int| start <= k < p ==> is_digit(s@[k]),
            digit_run_end(s@, start as int) == digit_run_end(s@, p as int),
            digits_value(s@, start as int, p as int) <= 39999 ==> acc == digits_value(
                s@,
                start as int,
                p as int,
            ),
            digits_value(s@, start as int, p as int) > 39999 ==> acc >= 40000,
            acc <= 400000,
        decreases s@.len() - p,
    {
        proof {
            lemma_digits_value_nonneg(s@, start as int, p as int);
        }
        let d = (s[p] - 48) as u32;
        if acc <= 39999 {
            acc = acc * 10 + d;
        }
        p = p + 1;
    }
    proof {
        lemma_digits_value_nonneg(s@, start as int, p as int);
        lemma_digit_run_end_ge(s@, start as int + 1);
    }
    if s[start] == 48 && p > start + 1 {
        return None;
    }
    if acc > 39999 {
        return None;
    }
    let sv: i32 = if neg {
        -(acc as i32)
    } else {
        acc as i32
    };
    if lo <= sv && sv <= hi {
        Some((sv, p))
    } else {
        None
    }
}

/// A mode token starting at `i`: one of the four quoted lowercase names.
/// Yields the mode and the position after the closing quote.
pub open spec fn parse_mode(s: Seq<u8>, i: int) -> Option<(Modes, int)> {
    if i + 2 <= s.len() && 0 <= i && s[i] == 34 {
        if s[i + 1] == 108 {
            // "led"
            if i + 5 <= s.len() && s[i + 2] == 101 && s[i + 3] == 100 && s[i + 4] == 34 {
                Some((Modes::Led, i + 5))
            } else {
                None
            }
        } else if s[i + 1] == 98 {
            // "beep"
            if i + 6 <= s.len() && s[i + 2] == 101 && s[i + 3] == 101 && s[i + 4] == 112 && s[i + 5]
                == 34 {
                Some((Modes::Beep, i + 6))
            } else {
                None
            }
        } else if s[i + 1] == 118 {
            // "vibey"
            if i + 7 <= s.len() && s[i + 2] == 105 && s[i + 3] == 98 && s[i + 4] == 101 && s[i + 5]
                == 121 && s[i + 6] == 34 {
                Some((Modes::Vibey, i + 7))
            } else {
                None
            }
        } else if s[i + 1] == 122 {
            // "zappy"
            if i + 7 <= s.len() && s[i + 2] == 97 && s[i + 3] == 112 && s[i + 4] == 112 && s[i + 5]
                == 121 && s[i + 6] == 34 {
                Some((Modes::Zappy, i + 7))
            } else {
                None
            }
        } else {
            None
        }
    } else {
        None
    }
}

fn parse_mode_exec(s: &Vec<u8>, i: usize) -> (r: Option<(Modes, usize)>)
    requires
        i <= s@.len(),
    ensures
        r matches Some(mj) ==> parse_mode(s@, i as int) == Some((mj.0, mj.1 as int)) && i <= mj.1
            <= s@.len(),
        r is None ==> parse_mode(s@, i as int) is None,
{
    if s.len() - i >= 2 && s[i] == 34 {
        if s[i + 1] == 108 {
            if s.len() - i >= 5 && s[i + 2] == 101 && s[i + 3] == 100 && s[i + 4] == 34 {
                Some((Modes::Led, i + 5))
            } else {
                None
            }
        } else if s[i + 1] == 98 {
            if s.len() - i >= 6 && s[i + 2] == 101 && s[i + 3] == 101 && s[i + 4] == 112 && s[i + 5]
                == 34 {
                Some((Modes::Beep, i + 6))
            } else {
                None
            }
        } else if s[i + 1] == 118 {
            if s.len() - i >= 7 && s[i + 2] == 105 && s[i + 3] == 98 && s[i + 4] == 101 && s[i + 5]
                == 121 && s[i + 6] == 34 {
                Some((Modes::Vibey, i + 7))
            } else {
                None
            }
        } else if s[i + 1] == 122 {
            if s.len() - i >= 7 && s[i + 2] == 97 && s[i + 3] == 112 && s[i + 4] == 112 && s[i + 5]
                == 121 && s[i + 6] == 34 {
                Some((Modes::Zappy, i + 7))
            } else {
                None
            }
        } else {
            None
        }
    } else {
        None
    }
}

/// One parsed object member: which field it sets, with the value already
/// checked against the field's machine range.
#[derive(Clone, Copy, Debug)]
pub enum FieldVal {
    FMode(Modes),
    FLevel(i8),
    FDuration(i16),
}

/// The position after a member's colon: whitespace, `:`, whitespace.
pub open spec fn after_colon(s: Seq<u8>, i: int) -> Option<int> {
    let c = skip_ws(s, i);
    if c < s.len() && s[c] == 58 {
        Some(skip_ws(s, c + 1))
    } else {
        None
    }
}

fn after_colon_exec(s: &Vec<u8>, i: usize) -> (r: Option<usize>)
    requires
        i <= s@.len(),
    ensures
        r matches Some(j) ==> after_colon(s@, i as int) == Some(j as int) && i <= j <= s@.len(),
        r is None ==> after_colon(s@, i as int) is None,
{
    let c = skip_ws_exec(s, i);
    if c < s.len() && s[c] == 58 {
        Some(skip_ws_exec(s, c + 1))
    } else {
        None
    }
}

/// One object member starting at `i`: a quoted key among `mode`, `level` and
/// `duration`, a colon, and a value of the key's type. A `level` outside the
/// range of `i8` or a `duration` outside the range of `i16` is a parse
/// failure, as is any other key.
pub open spec fn parse_member(s: Seq<u8>, i: int) -> Option<(FieldVal, int)> {
    if i + 2 <= s.len() && 0 <= i && s[i] == 34 {
        if s[i + 1] == 109 {
            // "mode"
            if i + 6 <= s.len() && s[i + 2] == 111 && s[i + 3] == 100 && s[i + 4] == 101 && s[i + 5]
                == 34 {
                match after_colon(s, i + 6) {
                    Some(v0) => match parse_mode(s, v0) {
                        Some((m, j)) => Some((FieldVal::FMode(m), j)),
                        None => None,
                    },
                    None => None,
                }
            } else {
                None
            }
        } else if s[i + 1] == 108 {
            // "level"
            if i + 7 <= s.len() && s[i + 2] == 101 && s[i + 3] == 118 && s[i + 4] == 101 && s[i + 5]
                == 108 && s[i + 6] == 34 {
                match after_colon(s, i + 7) {
                    Some(v0) => match parse_int_in(s, v0, -128, 127) {
                        Some((v, j)) => Some((FieldVal::FLevel(v as i8), j)),
                        None => None,
                    },
                    None => None,
                }
            } else {
                None
            }
        } else if s[i + 1] == 100 {
            // "duration"
            if i + 10 <= s.len() && s[i + 2] == 117 && s[i + 3] == 114 && s[i + 4] == 97 && s[i + 5]
                == 116 && s[i + 6] == 105 && s[i + 7] == 111 && s[i + 8] == 110 && s[i + 9] == 34 {
                match after_colon(s, i + 10) {
                    Some(v0) => match parse_int_in(s, v0, -32768, 32767) {
                        Some((v, j)) => Some((FieldVal::FDuration(v as i16), j)),
                        None => None,
                    },
                    None => None,
                }
            } else {
                None
            }
        } else {
            None
        }
    } else {
        None
    }
}

fn parse_member_exec(s: &Vec<u8>, i: usize) -> (r: Option<(FieldVal, usize)>)
    requires
        i <= s@.len(),
    ensures
        r matches Some(fj) ==> parse_member(s@, i as int) == Some((fj.0, fj.1 as int)) && i
            <= fj.1 <= s@.len(),
        r is None ==> parse_member(s@, i as int) is None,
{
    if !(s.len() - i >= 2 && s[i] == 34) {
        return None;
    }
    if s[i + 1] == 109 {
        if !(s.len() - i >= 6 && s[i + 2] == 111 && s[i + 3] == 100 && s[i + 4] == 101 && s[i + 5]
            == 34) {
            return None;
        }
        match after_colon_exec(s, i + 6) {
            Some(v0) => match parse_mode_exec(s, v0) {
                Some((m, j)) => Some((FieldVal::FMode(m), j)),
                None => None,
            },
            None => None,
        }
    } else if s[i + 1] == 108 {
        if !(s.len() - i >= 7 && s[i + 2] == 101 && s[i + 3] == 118 && s[i + 4] == 101 && s[i + 5]
            == 108 && s[i + 6] == 34) {
            return None;
        }
        match after_colon_exec(s, i + 7) {
            Some(v0) => match parse_int_exec(s, v0, -128, 127) {
                Some((v, j)) => Some((FieldVal::FLevel(v as i8), j)),
                None => None,
            },
            None => None,
        }
    } else if s[i + 1] == 100 {
        if !(s.len() - i >= 10 && s[i + 2] == 117 && s[i + 3] == 114 && s[i + 4] == 97 && s[i + 5]
            == 116 && s[i + 6] == 105 && s[i + 7] == 111 && s[i + 8] == 110 && s[i + 9] == 34) {
            return None;
        }
        match after_colon_exec(s, i + 10) {
            Some(v0) => match parse_int_exec(s, v0, -32768, 32767) {
                Some((v, j)) => Some((FieldVal::FDuration(v as i16), j)),
                None => None,
            },
            None => None,
        }
    } else {
        None
    }
}

/// Builds a command from three members covering `mode`, `level` and
/// `duration` each exactly once, in any order; anything else fails.
pub open spec fn assemble(f1: FieldVal, f2: FieldVal, f3: FieldVal) -> Option<Command> {
    match (f1, f2, f3) {
        (FieldVal::FMode(m), FieldVal::FLevel(l), FieldVal::FDuration(d)) => Some(
            Command { mode: m, level: l, duration: d },
        ),
        (FieldVal::FMode(m), FieldVal::FDuration(d), FieldVal::FLevel(l)) => Some(
            Command { mode: m, level: l, duration: d },
        ),
        (FieldVal::FLevel(l), FieldVal::FMode(m), FieldVal::FDuration(d)) => Some(
            Command { mode: m, level: l, duration: d },
        ),
        (FieldVal::FLevel(l), FieldVal::FDuration(d), FieldVal::FMode(m)) => Some(
            Command { mode: m, level: l, duration: d },
        ),
        (FieldVal::FDuration(d), FieldVal::FMode(m), FieldVal::FLevel(l)) => Some(
            Command { mode: m, level: l, duration: d },
        ),
        (FieldVal::FDuration(d), FieldVal::FLevel(l), FieldVal::FMode(m)) => Some(
            Command { mode: m, level: l, duration: d },
        ),
        _ => None,
    }
}

fn assemble_exec(f1: FieldVal, f2: FieldVal, f3: FieldVal) -> (r: Option<Command>)
    ensures
        r == assemble(f1, f2, f3),
{
    match (f1, f2, f3) {
        (FieldVal::FMode(m), FieldVal::FLevel(l), FieldVal::FDuration(d)) => Some(
            Command { mode: m, level: l, duration: d },
        ),
        (FieldVal::FMode(m), FieldVal::FDuration(d), FieldVal::FLevel(l)) => Some(
            Command { mode: m, level: l, duration: d },
        ),
        (FieldVal::FLevel(l), FieldVal::FMode(m), FieldVal::FDuration(d)) => Some(
            Command { mode: m, level: l, duration: d },
        ),
        (FieldVal::FLevel(l), FieldVal::FDuration(d), FieldVal::FMode(m)) => Some(
            Command { mode: m, level: l, duration: d },
        ),
        (FieldVal::FDuration(d), FieldVal::FMode(m), FieldVal::FLevel(l)) => Some(
            Command { mode: m, level: l, duration: d },
        ),
        (FieldVal::FDuration(d), FieldVal::FLevel(l), FieldVal::FMode(m)) => Some(
            Command { mode: m, level: l, duration: d },
        ),
        _ => None,
    }
}

/// A whole inbound command frame: a JSON object of exactly three members
/// covering `mode`, `level` and `duration` once each, in any order, with JSON
/// whitespace allowed around tokens and nothing after the closing brace.
pub open spec fn spec_parse_command(s: Seq<u8>) -> Option<Command> {
    let i0 = skip_ws(s, 0);
    if i0 < s.len() && s[i0] == 123 {
        // opening brace
        match parse_member(s, skip_ws(s, i0 + 1)) {
            Some((f1, p1)) => {
                let c1 = skip_ws(s, p1);
                if c1 < s.len() && s[c1] == 44 {
                    // comma
                    match parse_member(s, skip_ws(s, c1 + 1)) {
                        Some((f2, p2)) => {
                            let c2 = skip_ws(s, p2);
                            if c2 < s.len() && s[c2] == 44 {
                                match parse_member(s, skip_ws(s, c2 + 1)) {
                                    Some((f3, p3)) => {
                                        let c3 = skip_ws(s, p3);
                                        if c3 < s.len() && s[c3] == 125 && skip_ws(s, c3 + 1)
                                            == s.len() {
                                            assemble(f1, f2, f3)
                                        } else {
                                            None
                                        }
                                    },
                                    None => None,
                                }
                            } else {
                                None
                            }
                        },
                        None => None,
                    }
                } else {
                    None
                }
            },
            None => None,
        }
    } else {
        None
    }
}

/// Parses an inbound controller frame into a command; returns the command iff
/// the frame is a well-formed command frame per `spec_parse_command`.
pub fn parse_command(frame: &Vec<u8>) -> (r: Option<Command>)
    ensures
        r == spec_parse_command(frame@),
{
    let i0 = skip_ws_exec(frame, 0);
    if !(i0 < frame.len() && frame[i0] == 123) {
        // no opening brace
        return None;
    }
    let (f1, p1) = match parse_member_exec(frame, skip_ws_exec(frame, i0 + 1)) {
        Some(x) => x,
        None => {
            return None;
        },
    };
    let c1 = skip_ws_exec(frame, p1);
    if !(c1 < frame.len() && frame[c1] == 44) {
        return None;
    }
    let (f2, p2) = match parse_member_exec(frame, skip_ws_exec(frame, c1 + 1)) {
        Some(x) => x,
        None => {
            return None;
        },
    };
    let c2 = skip_ws_exec(frame, p2);
    if !(c2 < frame.len() && frame[c2] == 44) {
        return None;
    }
    let (f3, p3) = match parse_member_exec(frame, skip_ws_exec(frame, c2 + 1)) {
        Some(x) => x,
        None => {
            return None;
        },
    };
    let c3 = skip_ws_exec(frame, p3);
    if !(c3 < frame.len() && frame[c3] == 125) {
        return None;
    }
    if skip_ws_exec(frame, c3 + 1) != frame.len() {
        return None;
    }
    assemble_exec(f1, f2, f3)
}

/// The one device-to-hub frame the reader recognizes: the bare text `ack`.
pub open spec fn ack_frame() -> Seq<u8> {
    seq![97u8, 99u8, 107u8]
}

/// Whether a device text frame is the bare acknowledgement `ack`.
pub fn is_ack_frame(frame: &Vec<u8>) -> (r: bool)
    ensures
        r == (frame@ == ack_frame()),
{
    if frame.len() == 3 && frame[0] == 97 && frame[1] == 99 && frame[2] == 107 {
        proof {
            assert(frame@ =~= ack_frame());
        }
        true
    } else {
        proof {
            assert(ack_frame().len() == 3);
            assert(ack_frame()[0] == 97 && ack_frame()[1] == 99 && ack_frame()[2] == 107);
        }
        false
    }
}

} // verus!
