//! The hand-off between an updating thread and a listening thread.
//!
//! The updater publishes the values of a fixed schedule one by one into a
//! shared slot, waking the listener after each, and then raises a stop flag.
//! The listener waits for wake-ups until it sees the stop flag, reporting
//! the slot's value after each wake-up. This module holds the decisions
//! of both sides and the text they report; the locking, waking and
//! sleeping stay with the caller.

use vstd::prelude::*;

verus! {

/// Number of values the updater publishes before it stops.
pub const SCHEDULE_LEN: usize = 4;

/// Seconds the updater pauses after each published value.
pub const PAUSE_SECS: u64 = 4;

/// The values the updater publishes, in order.
pub open spec fn schedule() -> Seq<bool> {
    seq![false, true, false, true]
}

/// What the updater does next.
#[derive(PartialEq, Eq, Structural, Clone, Copy, Debug)]
pub enum UpdaterAction {
    /// Store this value in the shared slot and wake the listener.
    Publish(bool),
    /// Raise the stop flag and wake the listener one last time.
    Stop,
}

/// The updater's action when `sent` values have been published so far.
pub open spec fn action_for(sent: nat) -> UpdaterAction {
    if sent < schedule().len() {
        UpdaterAction::Publish(schedule()[sent as int])
    } else {
        UpdaterAction::Stop
    }
}

/// How many values have been published after one more step.
pub open spec fn next_sent(sent: nat) -> nat {
    if sent < schedule().len() {
        sent + 1
    } else {
        sent
    }
}

/// How many values have been published after `k` steps from the start.
pub open spec fn sent_after(k: nat) -> nat
    decreases k,
{
    if k == 0 {
        0
    } else {
        next_sent(sent_after((k - 1) as nat))
    }
}

/// The values published, in order, during the first `k` steps.
pub open spec fn published_in(k: nat) -> Seq<bool>
    decreases k,
{
    if k == 0 {
        seq![]
    } else {
        let earlier = published_in((k - 1) as nat);
        match action_for(sent_after((k - 1) as nat)) {
            UpdaterAction::Publish(v) => earlier.push(v),
            UpdaterAction::Stop => earlier,
        }
    }
}

/// The updater's progress through its schedule.
pub struct Updater {
    sent: usize,
}

impl View for Updater {
    type V = nat;

    /// How many values have been published.
    closed spec fn view(&self) -> nat {
        self.sent as nat
    }
}

impl Updater {
    #[verifier::type_invariant]
    spec fn within_schedule(self) -> bool {
        self.sent <= SCHEDULE_LEN
    }

    /// An updater that has published nothing yet.
    pub fn new() -> (u: Updater)
        ensures
            u@ == 0,
    {
        Updater { sent: 0 }
    }

    /// How many values have been published.
    pub fn sent(&self) -> (n: usize)
        ensures
            n == self@,
    {
        self.sent
    }

    /// Decides the next action and records it: the next scheduled value while
    /// any is left, the stop otherwise.
    pub fn step(&mut self) -> (a: UpdaterAction)
        ensures
            a == action_for(old(self)@),
            final(self)@ == next_sent(old(self)@),
            final(self)@ <= schedule().len(),
    {
        proof {
            use_type_invariant(&*self);
        }
        let values: [bool; 4] = [false, true, false, true];
        assert(values@ =~= schedule());
        if self.sent < SCHEDULE_LEN {
            let v = values[self.sent];
            self.sent = self.sent + 1;
            UpdaterAction::Publish(v)
        } else {
            UpdaterAction::Stop
        }
    }
}

/// What the listener does on checking the stop flag.
#[derive(PartialEq, Eq, Structural, Clone, Copy, Debug)]
pub enum ListenerAction {
    /// Wait for the next wake-up, then report the shared value.
    Wait,
    /// Leave the loop.
    Exit,
}

/// The listener keeps waiting exactly while no stop has been requested.
pub fn listener_action(stop_requested: bool) -> (a: ListenerAction)
    ensures
        a == (if stop_requested { ListenerAction::Exit } else { ListenerAction::Wait }),
{
    if stop_requested {
        ListenerAction::Exit
    } else {
        ListenerAction::Wait
    }
}

/// How a flag reads when reported: `true` or `false`.
pub open spec fn flag_text(value: bool) -> Seq<char> {
    if value {
        seq!['t', 'r', 'u', 'e']
    } else {
        seq!['f', 'a', 'l', 's', 'e']
    }
}

fn push_flag(text: &mut String, value: bool)
    ensures
        final(text)@ == old(text)@ + flag_text(value),
{
    if value {
        proof {
            reveal_strlit("true");
        }
        text.append("true");
    } else {
        proof {
            reveal_strlit("false");
        }
        text.append("false");
    }
}

/// The line the updater reports before publishing `value`.
pub fn update_message(value: bool) -> (m: String)
    ensures
        m@ == "Updatging value to "@ + flag_text(value) + "..."@,
{
    let mut m = String::from_str("Updatging value to ");
    push_flag(&mut m, value);
    m.append("...");
    m
}

/// The line the updater reports once the stop flag is raised.
pub fn stop_message() -> (m: String)
    ensures
        m@ == "STOP has been updated"@,
{
    String::from_str("STOP has been updated")
}

/// The line the listener reports after a wake-up that found `value` in the
/// shared slot.
pub fn received_message(value: bool) -> (m: String)
    ensures
        m@ == "Received value: "@ + flag_text(value),
{
    let mut m = String::from_str("Received value: ");
    push_flag(&mut m, value);
    m
}

/// Running the updater from the start publishes, in order, a prefix of the
/// schedule: all of it once four steps have been taken, and nothing more
/// however many steps follow.
pub proof fn lemma_run_publishes_schedule(k: nat)
    ensures
        sent_after(k) == (if k < schedule().len() { k } else { schedule().len() }),
        published_in(k) == schedule().take(sent_after(k) as int),
    decreases k,
{
    if k > 0 {
        lemma_run_publishes_schedule((k - 1) as nat);
        let s = sent_after((k - 1) as nat);
        if s < schedule().len() {
            assert(schedule().take(s as int).push(schedule()[s as int]) =~= schedule().take(
                (s + 1) as int,
            ));
        }
    }
}

/// Once the updater has stopped, it stays stopped: the next step changes
/// nothing and stops again.
pub proof fn lemma_stop_is_final(sent: nat)
    requires
        action_for(sent) == UpdaterAction::Stop,
    ensures
        next_sent(sent) == sent,
        action_for(next_sent(sent)) == UpdaterAction::Stop,
{
}

} // verus!
