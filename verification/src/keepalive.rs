//! The device session's keep-alive sub-task: a periodic timer that, on each
//! tick, publishes one `(200, KeepAlive, none)` status and one synthetic
//! low-intensity command, reusing the normal command path so that a silently
//! dead device link surfaces through the writer's existing failure handling.

use vstd::prelude::*;
use crate::commands::Command;
use crate::commands::Modes;
use crate::hub::Hub;
use crate::hub::push_lossy;
use crate::messages::ActionType;
use crate::messages::Message;
use crate::messages::MessageTyp;
use crate::messages::MessageView;
use crate::messages::msg_view;

verus! {

/// The fixed period of the keep-alive timer, in seconds.
pub const KEEP_ALIVE_PERIOD: u64 = 120;

/// The synthetic command every keep-alive tick publishes: fixed mode,
/// mid-range level, short duration.
pub open spec fn spec_keep_alive_command() -> Command {
    Command { mode: Modes::Led, level: 50, duration: 500 }
}

/// The view of the status message every keep-alive tick publishes.
pub open spec fn keep_alive_status_view() -> MessageView {
    msg_view(200, MessageTyp::KeepAlive, ActionType::NoAction)
}

/// The synthetic keep-alive command, for the session loop.
pub fn keep_alive_command() -> (c: Command)
    ensures
        c == spec_keep_alive_command(),
{
    Command { mode: Modes::Led, level: 50, duration: 500 }
}

/// The buffer after `n` bounded-lossy publishes of `c`.
pub open spec fn push_lossy_n(s: Seq<Command>, c: Command, n: nat) -> Seq<Command>
    decreases n,
{
    if n == 0 {
        s
    } else {
        push_lossy(push_lossy_n(s, c, (n - 1) as nat), c)
    }
}

/// The keep-alive timer: how far the session's clock has run, and the ghost
/// record of the instants (measured from the session start) at which it
/// ticked.
pub struct KeepAliveTimer {
    period: u64,
    elapsed: u64,
    ticks: Ghost<Seq<int>>,
}

impl KeepAliveTimer {
    /// The fixed period between ticks.
    pub closed spec fn period(&self) -> u64 {
        self.period
    }

    /// How much time has elapsed since the session started.
    pub closed spec fn elapsed(&self) -> u64 {
        self.elapsed
    }

    /// The instants at which the timer has ticked, in order.
    pub closed spec fn tick_times(&self) -> Seq<int> {
        self.ticks@
    }

    /// Well-formedness: the timer has ticked once per period, exactly at the
    /// multiples of the period.
    pub open spec fn wf(&self) -> bool {
        &&& self.period() > 0
        &&& self.elapsed() == self.tick_times().len() * self.period()
        &&& forall|i: int|
            0 <= i < self.tick_times().len() ==> self.tick_times()[i] == (i + 1) * (
            self.period() as int)
    }

    /// A fresh timer that has not ticked yet.
    pub fn new(period: u64) -> (t: KeepAliveTimer)
        requires
            period > 0,
        ensures
            t.wf(),
            t.period() == period,
            t.elapsed() == 0,
            t.tick_times() == Seq::<int>::empty(),
    {
        KeepAliveTimer { period, elapsed: 0, ticks: Ghost(Seq::empty()) }
    }

    /// One timer tick: one period passes, and exactly one keep-alive status
    /// and one synthetic command are published.
    pub fn tick(&mut self, hub: &mut Hub)
        requires
            old(self).wf(),
            old(self).elapsed() + old(self).period() <= u64::MAX,
            old(hub).wf(),
        ensures
            final(self).wf(),
            final(hub).wf(),
            final(self).period() == old(self).period(),
            final(self).elapsed() == old(self).elapsed() + old(self).period(),
            final(self).tick_times() == old(self).tick_times().push(
                old(self).elapsed() + old(self).period(),
            ),
            final(hub).status_log() == old(hub).status_log().push(keep_alive_status_view()),
            final(hub).status_slot_view() == Some(keep_alive_status_view()),
            final(hub).command_log() == old(hub).command_log().push(spec_keep_alive_command()),
            old(hub).subscriber_count() == 0 ==> final(hub).pending_commands() == old(
                hub,
            ).pending_commands(),
            old(hub).subscriber_count() > 0 ==> final(hub).pending_commands() == push_lossy(
                old(hub).pending_commands(),
                spec_keep_alive_command(),
            ),
            final(hub).subscriber_count() == old(hub).subscriber_count(),
            final(hub).device_ack_slot_view() == old(hub).device_ack_slot_view(),
            final(hub).read_ack_slot_view() == old(hub).read_ack_slot_view(),
    {
        self.elapsed = self.elapsed + self.period;
        proof {
            self.ticks@ = self.ticks@.push(self.elapsed as int);
            let ghost p = self.period as int;
            let ghost n0 = old(self).tick_times().len() as int;
            assert(n0 * p + p == (n0 + 1) * p) by (nonlinear_arith);
        }
        hub.publish_status(Message::new(200, MessageTyp::KeepAlive, ActionType::NoAction));
        hub.publish_command(keep_alive_command());
    }
}

/// Runs the keep-alive for `count` ticks: over that observation window,
/// exactly `count` keep-alive status events and exactly `count` synthetic
/// commands are emitted, evenly spaced, one of each per period.
pub fn run_keep_alive_window(hub: &mut Hub, timer: &mut KeepAliveTimer, count: u32)
    requires
        old(timer).wf(),
        old(timer).elapsed() + count * old(timer).period() <= u64::MAX,
        old(hub).wf(),
    ensures
        final(timer).wf(),
        final(hub).wf(),
        final(timer).period() == old(timer).period(),
        final(timer).elapsed() == old(timer).elapsed() + count * old(timer).period(),
        final(timer).tick_times().len() == old(timer).tick_times().len() + count,
        final(hub).status_log() == old(hub).status_log() + Seq::new(
            count as nat,
            |i: int| keep_alive_status_view(),
        ),
        final(hub).command_log() == old(hub).command_log() + Seq::new(
            count as nat,
            |i: int| spec_keep_alive_command(),
        ),
        old(hub).subscriber_count() == 0 ==> final(hub).pending_commands() == old(
            hub,
        ).pending_commands(),
        old(hub).subscriber_count() > 0 ==> final(hub).pending_commands() == push_lossy_n(
            old(hub).pending_commands(),
            spec_keep_alive_command(),
            count as nat,
        ),
        final(hub).subscriber_count() == old(hub).subscriber_count(),
        final(hub).device_ack_slot_view() == old(hub).device_ack_slot_view(),
        final(hub).read_ack_slot_view() == old(hub).read_ack_slot_view(),
{
    let mut k: u32 = 0;
    while k < count
        invariant
            k <= count,
            timer.wf(),
            hub.wf(),
            timer.period() == old(timer).period(),
            timer.elapsed() == old(timer).elapsed() + k * old(timer).period(),
            old(timer).elapsed() + count * old(timer).period() <= u64::MAX,
            timer.tick_times().len() == old(timer).tick_times().len() + k,
            hub.status_log() == old(hub).status_log() + Seq::new(
                k as nat,
                |i: int| keep_alive_status_view(),
            ),
            hub.command_log() == old(hub).command_log() + Seq::new(
                k as nat,
                |i: int| spec_keep_alive_command(),
            ),
            old(hub).subscriber_count() == 0 ==> hub.pending_commands() == old(
                hub,
            ).pending_commands(),
            old(hub).subscriber_count() > 0 ==> hub.pending_commands() == push_lossy_n(
                old(hub).pending_commands(),
                spec_keep_alive_command(),
                k as nat,
            ),
            hub.subscriber_count() == old(hub).subscriber_count(),
            hub.device_ack_slot_view() == old(hub).device_ack_slot_view(),
            hub.read_ack_slot_view() == old(hub).read_ack_slot_view(),
        decreases count - k,
    {
        proof {
            let ghost p = timer.period() as int;
            let ghost ki = k as int;
            let ghost ct = count as int;
            assert(ki * p + p == (ki + 1) * p && (ki + 1) * p <= ct * p) by (nonlinear_arith)
                requires
                    ki < ct,
                    p > 0,
            ;
        }
        timer.tick(hub);
        k = k + 1;
        proof {
            assert(hub.status_log() =~= old(hub).status_log() + Seq::new(
                k as nat,
                |i: int| keep_alive_status_view(),
            ));
            assert(hub.command_log() =~= old(hub).command_log() + Seq::new(
                k as nat,
                |i: int| spec_keep_alive_command(),
            ));
        }
    }
}

/// Keep-alive cadence: a well-formed timer whose clock stands at three
/// periods has ticked exactly three times, at one, two and three periods from
/// the session start — evenly spaced, one period apart.
pub proof fn lemma_keep_alive_cadence(t: KeepAliveTimer)
    requires
        t.wf(),
        t.elapsed() == 3 * t.period(),
    ensures
        t.tick_times().len() == 3,
        forall|i: int| 0 <= i < 3 ==> t.tick_times()[i] == (i + 1) * (t.period() as int),
        t.tick_times()[1] - t.tick_times()[0] == t.period() as int,
        t.tick_times()[2] - t.tick_times()[1] == t.period() as int,
{
    let n = t.tick_times().len() as int;
    let p = t.period() as int;
    assert(n == 3) by (nonlinear_arith)
        requires
            n * p == 3 * p,
            p > 0,
            n >= 0,
    ;
    assert(2 * p - 1 * p == p && 3 * p - 2 * p == p) by (nonlinear_arith);
}

} // verus!
