//! Activation state: the one value shared between the command handler and
//! the periodic scheduler, the rule that maps a command text to it, and the
//! lock that serializes access to it.

use vstd::prelude::*;
use vstd::rwlock::RwLock;

verus! {

/// Whether the buzzer should be sounding. Exactly two states; the only
/// transitions are the ones a received command decides.
#[derive(Clone, Copy, Debug, PartialEq, Eq, Structural)]
pub enum ActivationState {
    Silent,
    Sounding,
}

/// The one command text that activates the buzzer.
///
/// The match is on the exact decoded text, with no trailing NUL byte: the
/// receive path never includes one in the decoded slice, so a NUL-suffixed
/// comparison could never match.
pub open spec fn start_command() -> Seq<char> {
    "start"@
}

/// The command rule: the literal text `start` activates the buzzer, any
/// other decodable text silences it. The prior state plays no part.
pub open spec fn activation_for_command(text: Seq<char>) -> ActivationState {
    if text == start_command() {
        ActivationState::Sounding
    } else {
        ActivationState::Silent
    }
}

/// True exactly when the command text is `start`.
pub fn is_start_command(text: &str) -> (r: bool)
    ensures
        r == (text@ == start_command()),
{
    proof {
        reveal_strlit("start");
    }
    if text.unicode_len() != 5 {
        return false;
    }
    let r = text.get_char(0) == 's' && text.get_char(1) == 't' && text.get_char(2) == 'a'
        && text.get_char(3) == 'r' && text.get_char(4) == 't';
    proof {
        if r {
            assert(text@ =~= start_command());
        }
    }
    r
}

/// Decides the new activation state for a decoded command text.
pub fn command_activation(text: &str) -> (r: ActivationState)
    ensures
        r == activation_for_command(text@),
{
    if is_start_command(text) {
        ActivationState::Sounding
    } else {
        ActivationState::Silent
    }
}

/// The completed write that handling a decoded command performs.
pub open spec fn write_of(text: Seq<char>) -> ControlEvent {
    ControlEvent::Write { value: activation_for_command(text) }
}

/// Law: the command rule has no toggle semantics. Receiving `start` twice
/// in a row leaves the state `Sounding`, whatever it was before; any other
/// text sets `Silent` even while `Sounding`.
pub proof fn lemma_start_idempotent(init: ActivationState, text: Seq<char>)
    ensures
        run_events(init, seq![write_of(start_command()), write_of(start_command())])
            == ActivationState::Sounding,
        text != start_command() ==> run_events(ActivationState::Sounding, seq![write_of(text)])
            == ActivationState::Silent,
{
    let twice = seq![write_of(start_command()), write_of(start_command())];
    assert(twice.last() == write_of(start_command()));
    let once = seq![write_of(text)];
    assert(once.last() == write_of(text));
}

/// One completed access to the shared state: a scheduler tick only reads it,
/// a command handler writes the value its command decided.
pub enum ControlEvent {
    Tick,
    Write { value: ActivationState },
}

/// The shared state after a sequence of completed accesses, applied in
/// order. The lock serializes the accesses, so any concurrent history is
/// some such sequence.
pub open spec fn run_events(init: ActivationState, events: Seq<ControlEvent>) -> ActivationState
    decreases events.len(),
{
    if events.len() == 0 {
        init
    } else {
        match events.last() {
            ControlEvent::Tick => run_events(init, events.drop_last()),
            ControlEvent::Write { value } => value,
        }
    }
}

/// The value of the most recent completed write, or the initial value where
/// no write happened.
pub open spec fn last_written(init: ActivationState, events: Seq<ControlEvent>) -> ActivationState
    decreases events.len(),
{
    if events.len() == 0 {
        init
    } else {
        match events.last() {
            ControlEvent::Tick => last_written(init, events.drop_last()),
            ControlEvent::Write { value } => value,
        }
    }
}

/// Law: no lost updates. However many scheduler ticks are interleaved with
/// however many command writes, in any order, the shared state ends as the
/// value of the most recently completed write.
pub proof fn lemma_no_lost_updates(init: ActivationState, events: Seq<ControlEvent>)
    ensures
        run_events(init, events) == last_written(init, events),
    decreases events.len(),
{
    if events.len() > 0 {
        lemma_no_lost_updates(init, events.drop_last());
    }
}

/// The activation state shared across the two execution contexts, protected
/// by a lock. The command handler writes it, the scheduler reads it; each
/// critical section is a single read or a single write and is never held
/// across the blocking playback call.
pub struct SharedActivation {
    lock: RwLock<ActivationState, spec_fn(ActivationState) -> bool>,
}

impl SharedActivation {
    /// True of every properly constructed cell: the lock stores any
    /// activation state.
    pub closed spec fn wf(&self) -> bool {
        forall|s: ActivationState| self.lock.inv(s)
    }

    /// A fresh cell, `Silent`: the buzzer starts quiet.
    pub fn new() -> (r: SharedActivation)
        ensures
            r.wf(),
    {
        let r = SharedActivation {
            lock: RwLock::new(ActivationState::Silent, Ghost(|s: ActivationState| true)),
        };
        proof {
            assert forall|s: ActivationState| r.lock.inv(s) by {}
        }
        r
    }

    /// Writes a decided state under the lock and releases it at once. Which
    /// value a later read returns depends on the interleaving of completed
    /// accesses; `lemma_no_lost_updates` states what holds of every such
    /// interleaving.
    pub fn write(&self, value: ActivationState)
        requires
            self.wf(),
    {
        let (_, handle) = self.lock.acquire_write();
        handle.release_write(value);
    }

    /// Reads the current state under the lock and releases it before
    /// returning, so the writer is never blocked for a note's duration.
    pub fn read(&self) -> ActivationState
        requires
            self.wf(),
    {
        let handle = self.lock.acquire_read();
        let value = *handle.borrow();
        handle.release_read();
        value
    }
}

} // verus!
