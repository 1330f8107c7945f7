//! The handoff by which a second instance passes a command to the running
//! one: write the command to a temporary file, rename it over the command
//! file, then wait for the running instance to take the file away.
//!
//! The file system work is the caller's; this module decides, from what
//! each step reported, what to do next.

use vstd::prelude::*;

verus! {

/// How many times the sender looks whether its command was taken.
pub const POLL_LIMIT: u8 = 12;

/// How long the sender waits before each look, in milliseconds.
pub const POLL_INTERVAL_MS: u64 = 70;

/// The next piece of work for the sender, and what it reports back.
#[derive(Clone, Copy, Debug, PartialEq, Eq, Structural)]
pub enum SendAction {
    /// Create the data directory with its parents; report success.
    CreateDirectory,
    /// Write the command into the temporary file; report success.
    WriteTemporary,
    /// Remove the command file (a failure does not matter), then rename the
    /// temporary file to it; report whether the rename succeeded.
    PublishCommand,
    /// Remove the temporary file; the report is not read.
    RemoveTemporary,
    /// Wait `POLL_INTERVAL_MS`, then report whether the command file is
    /// still there.
    Poll,
    /// Remove the command file; the report is not read.
    RemoveCommandFile,
    /// Stop: whether the running instance took the command.
    Finish(bool),
}

/// Where the sender stands.
#[derive(Clone, Copy, Debug, PartialEq, Eq, Structural)]
pub enum SendPhase {
    Creating,
    Writing,
    Publishing,
    /// `n` looks have been asked for.
    Polling(u8),
    CleaningTemporary,
    CleaningCommandFile,
    Done(bool),
}

/// The phases the sender can be in.
pub open spec fn phase_valid(p: SendPhase) -> bool {
    match p {
        SendPhase::Polling(n) => 1 <= n <= POLL_LIMIT,
        _ => true,
    }
}

/// The action that the sender hands out on entering a phase.
pub open spec fn phase_action(p: SendPhase) -> SendAction {
    match p {
        SendPhase::Creating => SendAction::CreateDirectory,
        SendPhase::Writing => SendAction::WriteTemporary,
        SendPhase::Publishing => SendAction::PublishCommand,
        SendPhase::Polling(_) => SendAction::Poll,
        SendPhase::CleaningTemporary => SendAction::RemoveTemporary,
        SendPhase::CleaningCommandFile => SendAction::RemoveCommandFile,
        SendPhase::Done(b) => SendAction::Finish(b),
    }
}

/// The phase after the current one's work reported `report`.
pub open spec fn next_phase(p: SendPhase, report: bool) -> SendPhase {
    match p {
        SendPhase::Creating => if report { SendPhase::Writing } else { SendPhase::Done(false) },
        SendPhase::Writing => if report { SendPhase::Publishing } else { SendPhase::Done(false) },
        SendPhase::Publishing => if report { SendPhase::Polling(1) } else { SendPhase::CleaningTemporary },
        SendPhase::Polling(n) => if !report {
            SendPhase::Done(true)
        } else if n < POLL_LIMIT {
            SendPhase::Polling((n + 1) as u8)
        } else {
            SendPhase::CleaningCommandFile
        },
        SendPhase::CleaningTemporary => SendPhase::Done(false),
        SendPhase::CleaningCommandFile => SendPhase::Done(false),
        SendPhase::Done(b) => SendPhase::Done(b),
    }
}

/// The sender of one command.
pub struct CommandSender {
    phase: SendPhase,
}

impl View for CommandSender {
    type V = SendPhase;

    closed spec fn view(&self) -> SendPhase {
        self.phase
    }
}

impl CommandSender {
    /// A sender only ever stands in a valid phase.
    #[verifier::type_invariant]
    spec fn well_formed(self) -> bool {
        phase_valid(self.phase)
    }

    /// A sender about to start; its first action is `CreateDirectory`.
    pub fn new() -> (r: (CommandSender, SendAction))
        ensures
            r.0@ == SendPhase::Creating,
            r.1 == SendAction::CreateDirectory,
    {
        (CommandSender { phase: SendPhase::Creating }, SendAction::CreateDirectory)
    }

    /// Where the sender stands.
    pub fn phase(&self) -> (r: SendPhase)
        ensures
            r == self@,
            phase_valid(r),
    {
        proof {
            use_type_invariant(self);
        }
        self.phase
    }

    /// Takes the report of the last action; returns the next one.
    pub fn advance(&mut self, report: bool) -> (r: SendAction)
        ensures
            final(self)@ == next_phase(old(self)@, report),
            phase_valid(final(self)@),
            r == phase_action(final(self)@),
    {
        proof {
            use_type_invariant(&*self);
        }
        let next = match self.phase {
            SendPhase::Creating => if report { SendPhase::Writing } else { SendPhase::Done(false) },
            SendPhase::Writing => if report { SendPhase::Publishing } else { SendPhase::Done(false) },
            SendPhase::Publishing => if report { SendPhase::Polling(1) } else { SendPhase::CleaningTemporary },
            SendPhase::Polling(n) => if !report {
                SendPhase::Done(true)
            } else if n < POLL_LIMIT {
                SendPhase::Polling(n + 1)
            } else {
                SendPhase::CleaningCommandFile
            },
            SendPhase::CleaningTemporary => SendPhase::Done(false),
            SendPhase::CleaningCommandFile => SendPhase::Done(false),
            SendPhase::Done(b) => SendPhase::Done(b),
        };
        self.phase = next;
        match next {
            SendPhase::Creating => SendAction::CreateDirectory,
            SendPhase::Writing => SendAction::WriteTemporary,
            SendPhase::Publishing => SendAction::PublishCommand,
            SendPhase::Polling(_) => SendAction::Poll,
            SendPhase::CleaningTemporary => SendAction::RemoveTemporary,
            SendPhase::CleaningCommandFile => SendAction::RemoveCommandFile,
            SendPhase::Done(b) => SendAction::Finish(b),
        }
    }
}

/// The phase after the reports `reports`, from the start.
pub open spec fn phase_after(reports: Seq<bool>) -> SendPhase
    decreases reports.len(),
{
    if reports.len() == 0 {
        SendPhase::Creating
    } else {
        next_phase(phase_after(reports.drop_last()), reports.last())
    }
}

/// How many more reports a phase needs at most before the sender is done.
pub open spec fn remaining_steps(p: SendPhase) -> nat {
    match p {
        SendPhase::Creating => 16,
        SendPhase::Writing => 15,
        SendPhase::Publishing => 14,
        SendPhase::Polling(n) => (14 - n) as nat,
        SendPhase::CleaningTemporary => 1,
        SendPhase::CleaningCommandFile => 1,
        SendPhase::Done(_) => 0,
    }
}

/// Every phase the sender reaches from the start is valid, and each report
/// brings it a step closer to the end.
pub proof fn lemma_phase_after_progress(reports: Seq<bool>)
    ensures
        phase_valid(phase_after(reports)),
        phase_after(reports) is Done || remaining_steps(phase_after(reports)) + reports.len() <= 16,
    decreases reports.len(),
{
    if reports.len() > 0 {
        lemma_phase_after_progress(reports.drop_last());
    }
}

/// Whatever the file system reports, the sender is done after at most
/// sixteen reports: it looks at most twelve times.
pub proof fn law_handoff_ends(reports: Seq<bool>)
    requires
        reports.len() >= 16,
    ensures
        phase_after(reports) is Done,
{
    lemma_phase_after_progress(reports);
}

/// Once done, the sender stays done with the same outcome.
pub proof fn law_done_is_final(reports: Seq<bool>, more: Seq<bool>)
    requires
        phase_after(reports) is Done,
    ensures
        phase_after(reports + more) == phase_after(reports),
    decreases more.len(),
{
    if more.len() == 0 {
        assert(reports + more =~= reports);
    } else {
        law_done_is_final(reports, more.drop_last());
        assert((reports + more).drop_last() =~= reports + more.drop_last());
    }
}

/// How many looks the sender has asked for after the reports `reports`.
pub open spec fn polls_asked(reports: Seq<bool>) -> nat
    decreases reports.len(),
{
    if reports.len() == 0 {
        0
    } else {
        polls_asked(reports.drop_last()) + (if phase_after(reports) is Polling { 1nat } else { 0nat })
    }
}

proof fn lemma_polls_asked(reports: Seq<bool>)
    ensures
        match phase_after(reports) {
            SendPhase::Polling(n) => polls_asked(reports) == n,
            SendPhase::CleaningCommandFile => polls_asked(reports) == POLL_LIMIT,
            SendPhase::Done(_) => polls_asked(reports) <= POLL_LIMIT,
            _ => polls_asked(reports) == 0,
        },
    decreases reports.len(),
{
    if reports.len() > 0 {
        lemma_polls_asked(reports.drop_last());
        lemma_phase_after_progress(reports.drop_last());
    }
}

/// Whatever the file system reports, the sender looks at most twelve
/// times whether its command was taken.
pub proof fn law_at_most_twelve_looks(reports: Seq<bool>)
    ensures
        polls_asked(reports) <= POLL_LIMIT,
{
    lemma_polls_asked(reports);
    lemma_phase_after_progress(reports);
}

/// The sender reports the command taken only when a look found the command
/// file gone, after the rename succeeded.
pub proof fn law_success_only_when_taken(p: SendPhase, report: bool)
    requires
        !(p is Done),
        next_phase(p, report) == SendPhase::Done(true),
    ensures
        p is Polling,
        !report,
{
}

/// The sender hands out `PublishCommand` only right after the temporary
/// file was written, and writes it only after the directory was created:
/// the command file is only ever replaced by a complete temporary file.
pub proof fn law_publish_only_after_write(p: SendPhase, report: bool)
    ensures
        next_phase(p, report) == SendPhase::Publishing ==> p == SendPhase::Writing && report,
        next_phase(p, report) == SendPhase::Writing ==> p == SendPhase::Creating && report,
{
}

/// The files that one sender and the running instance's listener share,
/// as a model of the handoff: the temporary file, the command file (with
/// whether this sender put it there), what the listener has read and not
/// yet removed, every command file that the listener acted on, and whether
/// a command file of this sender was removed unread (by a listener that
/// had read an earlier file just before the sender replaced it).
pub struct HandoffWorld {
    pub sender: SendPhase,
    pub temporary: Option<Seq<char>>,
    pub command_file: Option<(Seq<char>, bool)>,
    pub read: Option<(Seq<char>, bool)>,
    pub taken: Seq<(Seq<char>, bool)>,
    pub removed_unread: bool,
}

/// One step of the handoff: the sender does its current action, its file
/// system operation succeeding or not as the flag says; or the listener
/// reads the command file (when it is there); or the listener removes the
/// command file, whatever it now holds, and acts on what it had read.
pub enum HandoffEvent {
    Sender(bool),
    ListenerRead,
    ListenerRemove,
}

/// The shared files before the sender starts: an earlier command file may
/// still be there.
pub open spec fn handoff_start(stale: Option<Seq<char>>) -> HandoffWorld {
    HandoffWorld {
        sender: SendPhase::Creating,
        temporary: None,
        command_file: match stale {
            Some(t) => Some((t, false)),
            None => None,
        },
        read: None,
        taken: Seq::empty(),
        removed_unread: false,
    }
}

/// What the sender's current action does to the files, and what it
/// reports. Renaming is one step: no reader ever sees part of a file.
pub open spec fn sender_step(w: HandoffWorld, command: Seq<char>, ok: bool) -> HandoffWorld {
    let (temporary, command_file, report) = match w.sender {
        SendPhase::Creating => (w.temporary, w.command_file, ok),
        SendPhase::Writing => (if ok { Some(command) } else { w.temporary }, w.command_file, ok),
        SendPhase::Publishing => if ok {
            (None, match w.temporary {
                Some(t) => Some((t, true)),
                None => None,
            }, true)
        } else {
            (w.temporary, None, false)
        },
        SendPhase::Polling(_) => (w.temporary, w.command_file, w.command_file is Some),
        SendPhase::CleaningTemporary => (None, w.command_file, ok),
        SendPhase::CleaningCommandFile => (w.temporary, None, ok),
        SendPhase::Done(_) => (w.temporary, w.command_file, ok),
    };
    HandoffWorld { sender: next_phase(w.sender, report), temporary, command_file, ..w }
}

/// The command file is this sender's.
pub open spec fn sender_file_present(w: HandoffWorld) -> bool {
    w.command_file matches Some(f) && f.1
}

/// The listener holds a read of this sender's command file.
pub open spec fn holds_sender_read(w: HandoffWorld) -> bool {
    w.read matches Some(f) && f.1
}

/// One step of the handoff.
pub open spec fn handoff_step(w: HandoffWorld, command: Seq<char>, e: HandoffEvent) -> HandoffWorld {
    match e {
        HandoffEvent::Sender(ok) => sender_step(w, command, ok),
        HandoffEvent::ListenerRead => if w.read is None && w.command_file is Some {
            HandoffWorld { read: w.command_file, ..w }
        } else {
            w
        },
        HandoffEvent::ListenerRemove => match w.read {
            Some(f) => HandoffWorld {
                command_file: None,
                read: None,
                taken: w.taken.push(f),
                removed_unread: w.removed_unread || (sender_file_present(w) && !f.1),
                ..w
            },
            None => w,
        },
    }
}

/// The shared files after the steps `events`.
pub open spec fn handoff_after(command: Seq<char>, stale: Option<Seq<char>>, events: Seq<HandoffEvent>) -> HandoffWorld
    decreases events.len(),
{
    if events.len() == 0 {
        handoff_start(stale)
    } else {
        handoff_step(handoff_after(command, stale, events.drop_last()), command, events.last())
    }
}

/// How many of the files the listener acted on were this sender's.
pub open spec fn taken_from_sender(taken: Seq<(Seq<char>, bool)>) -> nat
    decreases taken.len(),
{
    if taken.len() == 0 {
        0
    } else {
        taken_from_sender(taken.drop_last()) + (if taken.last().1 { 1nat } else { 0nat })
    }
}

/// The text of the command file, empty when there is none.
pub open spec fn command_file_text(w: HandoffWorld) -> Seq<char> {
    match w.command_file {
        Some(f) => f.0,
        None => Seq::empty(),
    }
}

/// The text the listener holds, empty when it holds none.
pub open spec fn read_text(w: HandoffWorld) -> Seq<char> {
    match w.read {
        Some(f) => f.0,
        None => Seq::empty(),
    }
}

/// How many times this sender's command was acted on, is about to be, or
/// was removed unread.
pub open spec fn sender_fates(w: HandoffWorld) -> nat {
    taken_from_sender(w.taken) + (if holds_sender_read(w) { 1nat } else { 0nat }) + (if w.removed_unread {
        1nat
    } else {
        0nat
    })
}

/// What holds of the shared files at every step of a handoff.
pub open spec fn handoff_inv(w: HandoffWorld, command: Seq<char>, stale: Option<Seq<char>>) -> bool {
    let c = taken_from_sender(w.taken);
    &&& phase_valid(w.sender)
    &&& (w.temporary is None || w.temporary == Some(command))
    &&& (sender_file_present(w) ==> command_file_text(w) == command)
    &&& (holds_sender_read(w) ==> read_text(w) == command)
    &&& (forall|i: int| 0 <= i < w.taken.len() && (#[trigger] w.taken[i]).1 ==> w.taken[i].0 == command)
    &&& sender_fates(w) <= 1
    &&& (stale is None ==> (w.command_file is None || sender_file_present(w)) && (w.read is None
        || holds_sender_read(w)) && !w.removed_unread)
    &&& (sender_file_present(w) ==> c == 0 && !w.removed_unread)
    &&& match w.sender {
        SendPhase::Creating => w.temporary is None && !sender_file_present(w) && sender_fates(w) == 0,
        SendPhase::Writing => w.temporary is None && !sender_file_present(w) && sender_fates(w) == 0,
        SendPhase::Publishing => w.temporary == Some(command) && !sender_file_present(w) && sender_fates(w)
            == 0,
        SendPhase::CleaningTemporary => !sender_file_present(w) && sender_fates(w) == 0,
        SendPhase::Polling(_) => w.temporary is None && (w.command_file is None || sender_file_present(w))
            && (w.command_file is None ==> !holds_sender_read(w) && (c == 1 || w.removed_unread)),
        SendPhase::CleaningCommandFile => w.temporary is None && (w.command_file is None
            || sender_file_present(w)) && (w.command_file is None ==> !holds_sender_read(w) && (c == 1
            || w.removed_unread)),
        SendPhase::Done(true) => !sender_file_present(w) && !holds_sender_read(w) && (c == 1 || w.removed_unread),
        SendPhase::Done(false) => !sender_file_present(w),
    }
}

proof fn lemma_taken_push(taken: Seq<(Seq<char>, bool)>, f: (Seq<char>, bool))
    ensures
        taken_from_sender(taken.push(f)) == taken_from_sender(taken) + (if f.1 { 1nat } else { 0nat }),
{
    assert(taken.push(f).drop_last() =~= taken);
}

proof fn lemma_handoff_step_inv(w: HandoffWorld, command: Seq<char>, stale: Option<Seq<char>>, e: HandoffEvent)
    requires
        handoff_inv(w, command, stale),
    ensures
        handoff_inv(handoff_step(w, command, e), command, stale),
{
    match e {
        HandoffEvent::Sender(ok) => {},
        HandoffEvent::ListenerRead => {},
        HandoffEvent::ListenerRemove => {
            if let Some(f) = w.read {
                lemma_taken_push(w.taken, f);
                let w2 = handoff_step(w, command, e);
                assert forall|i: int| 0 <= i < w2.taken.len() && (#[trigger] w2.taken[i]).1 implies w2.taken[i].0
                    == command by {
                    if i < w.taken.len() {
                        assert(w2.taken[i] == w.taken[i]);
                    }
                }
            }
        },
    }
}

/// Every state of a handoff keeps the invariant.
pub proof fn lemma_handoff_inv(command: Seq<char>, stale: Option<Seq<char>>, events: Seq<HandoffEvent>)
    ensures
        handoff_inv(handoff_after(command, stale, events), command, stale),
    decreases events.len(),
{
    if events.len() == 0 {
        assert(taken_from_sender(Seq::<(Seq<char>, bool)>::empty()) == 0);
    } else {
        lemma_handoff_inv(command, stale, events.drop_last());
        lemma_handoff_step_inv(handoff_after(command, stale, events.drop_last()), command, stale, events.last());
    }
}

/// Whatever the timing of sender and listener (which reads the command
/// file, then removes it, in two steps) and whatever fails: the listener
/// acts on the sender's command at most once, and every command file of
/// the sender holds the whole command; a sender that is done leaves no
/// command file of its own behind; a sender that reports the command taken
/// saw it acted on, unless a listener that had read an earlier command
/// file removed the sender's file unread, which can only happen when an
/// earlier command file was there to be read.
pub proof fn law_handoff_delivers_at_most_once(command: Seq<char>, stale: Option<Seq<char>>, events: Seq<HandoffEvent>)
    ensures
        ({
            let w = handoff_after(command, stale, events);
            &&& taken_from_sender(w.taken) <= 1
            &&& forall|i: int| 0 <= i < w.taken.len() && (#[trigger] w.taken[i]).1 ==> w.taken[i].0 == command
            &&& sender_file_present(w) ==> command_file_text(w) == command
            &&& w.sender is Done ==> !sender_file_present(w)
            &&& w.sender == SendPhase::Done(true) ==> taken_from_sender(w.taken) == 1 || w.removed_unread
            &&& w.removed_unread ==> stale is Some
            &&& stale is None && w.sender == SendPhase::Done(true) ==> taken_from_sender(w.taken) == 1
        }),
{
    lemma_handoff_inv(command, stale, events);
}

/// Once the sender is done and the listener holds no read of its command,
/// nothing more happens to the command: no later step has it acted on.
pub proof fn law_no_action_after_sender_done(
    command: Seq<char>,
    stale: Option<Seq<char>>,
    events: Seq<HandoffEvent>,
    more: Seq<HandoffEvent>,
)
    requires
        handoff_after(command, stale, events).sender is Done,
        !holds_sender_read(handoff_after(command, stale, events)),
    ensures
        taken_from_sender(handoff_after(command, stale, events + more).taken) == taken_from_sender(
            handoff_after(command, stale, events).taken,
        ),
        handoff_after(command, stale, events + more).sender == handoff_after(command, stale, events).sender,
        !holds_sender_read(handoff_after(command, stale, events + more)),
    decreases more.len(),
{
    if more.len() == 0 {
        assert(events + more =~= events);
    } else {
        law_no_action_after_sender_done(command, stale, events, more.drop_last());
        assert((events + more).drop_last() =~= events + more.drop_last());
        let w = handoff_after(command, stale, events + more.drop_last());
        lemma_handoff_inv(command, stale, events + more.drop_last());
        if let HandoffEvent::ListenerRemove = more.last() {
            if let Some(f) = w.read {
                lemma_taken_push(w.taken, f);
            }
        }
    }
}

/// When creating the directory, writing the temporary file and renaming
/// it succeed, the command file then holds exactly the command, an earlier
/// command file having been replaced, and the sender starts looking.
pub proof fn law_publication_replaces_earlier_file(command: Seq<char>, stale: Option<Seq<char>>)
    ensures
        ({
            let w = handoff_after(
                command,
                stale,
                seq![HandoffEvent::Sender(true), HandoffEvent::Sender(true), HandoffEvent::Sender(true)],
            );
            &&& w.sender == SendPhase::Polling(1)
            &&& w.command_file == Some((command, true))
            &&& w.temporary is None
        }),
{
    let e = seq![HandoffEvent::Sender(true), HandoffEvent::Sender(true), HandoffEvent::Sender(true)];
    assert(e.drop_last().drop_last().drop_last() =~= Seq::<HandoffEvent>::empty());
    assert(e.drop_last().drop_last().last() == HandoffEvent::Sender(true));
    assert(e.drop_last().last() == HandoffEvent::Sender(true));
    let w0 = handoff_after(command, stale, e.drop_last().drop_last().drop_last());
    assert(w0 == handoff_start(stale));
    let w1 = handoff_after(command, stale, e.drop_last().drop_last());
    assert(w1.sender == SendPhase::Writing);
    let w2 = handoff_after(command, stale, e.drop_last());
    assert(w2.sender == SendPhase::Publishing);
    assert(w2.temporary == Some(command));
}

/// A listener that reads and removes the command file while the sender
/// waits (holding no earlier read) has the command acted on, and the
/// sender's next look reports it taken; with no earlier command file, the
/// command is acted on exactly once.
pub proof fn law_listener_within_wait_delivers(
    command: Seq<char>,
    stale: Option<Seq<char>>,
    events: Seq<HandoffEvent>,
    ok: bool,
)
    requires
        handoff_after(command, stale, events).sender is Polling,
        handoff_after(command, stale, events).read is None,
    ensures
        ({
            let w = handoff_after(
                command,
                stale,
                events.push(HandoffEvent::ListenerRead).push(HandoffEvent::ListenerRemove).push(HandoffEvent::Sender(ok)),
            );
            &&& w.sender == SendPhase::Done(true)
            &&& taken_from_sender(w.taken) == 1 || w.removed_unread
            &&& stale is None ==> taken_from_sender(w.taken) == 1
            &&& w.command_file is None
        }),
{
    let w = handoff_after(command, stale, events);
    lemma_handoff_inv(command, stale, events);
    let e1 = events.push(HandoffEvent::ListenerRead);
    let e2 = e1.push(HandoffEvent::ListenerRemove);
    let e3 = e2.push(HandoffEvent::Sender(ok));
    assert(e1.drop_last() =~= events);
    assert(e2.drop_last() =~= e1);
    assert(e3.drop_last() =~= e2);
    let w1 = handoff_after(command, stale, e1);
    assert(w1 == handoff_step(w, command, HandoffEvent::ListenerRead));
    let w2 = handoff_after(command, stale, e2);
    assert(w2 == handoff_step(w1, command, HandoffEvent::ListenerRemove));
    if let Some(f) = w1.read {
        lemma_taken_push(w1.taken, f);
    }
    assert(w2.command_file is None);
    let w3 = handoff_after(command, stale, e3);
    assert(w3 == handoff_step(w2, command, HandoffEvent::Sender(ok)));
    assert(w3 == sender_step(w2, command, ok));
}

} // verus!
