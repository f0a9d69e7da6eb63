//! The life cycle of one run: preflight, the run itself, teardown.
//!
//! The supervisor decides; its caller acts. The caller performs each
//! [`Action`] and reports what came of it as the next [`Event`], until the
//! action is to exit. The one lasting effect of a run is the address that it
//! may add to the interface, and the supervisor alone keeps track of whether
//! that address is ours to remove.

use vstd::prelude::*;
use crate::address::{added, first_at, present, IpAddr, RecordView};
use crate::address::law_removal_undoes_add;
use crate::watcher::Verdict;

verus! {

/// What the run was asked to do about the address and the watch.
#[derive(Clone, Copy, Debug, PartialEq, Eq, Structural)]
pub struct Terms {
    /// Whether the run adds the address to the interface and removes it
    /// again.
    pub manage_ip: bool,
    /// Whether an address that is already there ends the run before it
    /// starts.
    pub die_if_exists: bool,
    /// Whether an address that was already there is removed at the end all
    /// the same.
    pub remove_preexisting: bool,
    /// Whether a watcher runs beside the announcer.
    pub watch: bool,
}

/// Where the run stands.
#[derive(Clone, Copy, Debug, PartialEq, Eq, Structural)]
pub enum Phase {
    /// Not started.
    Idle,
    /// Preflight: looking the address up.
    Probing,
    /// Preflight: adding the address.
    Adding,
    /// Preflight: opening the link channel and installing the interrupt
    /// handler.
    Opening,
    /// Announcer and watcher are at work.
    Running,
    /// Teardown: looking the address up again.
    Sweeping,
    /// Teardown: removing the address.
    Removing,
    /// Over.
    Done,
}

/// What the caller reports.
#[derive(Clone, Copy, Debug, PartialEq, Eq, Structural)]
pub enum Event {
    /// The caller is ready.
    Start,
    /// The lookup came back: whether the address is on the interface.
    Probed { present: bool },
    /// The address was added.
    Added,
    /// The address was removed.
    Removed,
    /// The address API failed at what was asked of it.
    AddressError,
    /// The link channel is open and interrupts are caught.
    ChannelOpened,
    /// The link channel could not be opened.
    ChannelError,
    /// An interrupt or a request to terminate arrived.
    Interrupted,
    /// The announcer sent as many frames as it was asked to.
    AnnouncerFinished,
    /// The announcer could not send.
    AnnouncerFailed,
    /// The watcher ended the watch in good order.
    WatcherQuit,
    /// The watcher failed: a competitor under the failing policy, or a frame
    /// it could not read.
    WatcherFailed,
}

/// What the caller is to do next.
#[derive(Clone, Copy, Debug, PartialEq, Eq, Structural)]
pub enum Action {
    /// Nothing: the event changes nothing.
    Nothing,
    /// Look the address up on the interface, and report `Probed`.
    Probe,
    /// Add the address to the interface, and report `Added`.
    Add,
    /// Open the link channel, install the interrupt handler, and report
    /// `ChannelOpened`.
    OpenChannel,
    /// Start the announcer, and the watcher if `watcher`.
    Launch { watcher: bool },
    /// Remove the record that the lookup found, and report `Removed`.
    Remove,
    /// Leave with this exit code.
    Exit { code: i32 },
}

/// The supervisor of one run.
#[derive(Clone, Copy, Debug, PartialEq, Eq, Structural)]
pub struct Supervisor {
    pub terms: Terms,
    pub phase: Phase,
    /// Whether teardown has to remove the address.
    pub owns_address: bool,
    /// Whether the run has met a fatal error.
    pub failed: bool,
}

impl Event {
    /// The event that a watcher's verdict amounts to, if it ends the watch.
    pub open spec fn spec_of_verdict(verdict: Verdict) -> Option<Event> {
        match verdict {
            Verdict::Clear => None,
            Verdict::Warn(_) => None,
            Verdict::Quit(_) => Some(Event::WatcherQuit),
            Verdict::Fail(_) => Some(Event::WatcherFailed),
        }
    }

    /// The event that a watcher's verdict amounts to, if it ends the watch.
    pub fn of_verdict(verdict: &Verdict) -> (event: Option<Event>)
        ensures
            event == Self::spec_of_verdict(*verdict),
            event is None <==> verdict.spec_keeps_watching(),
    {
        match verdict {
            Verdict::Clear => None,
            Verdict::Warn(_) => None,
            Verdict::Quit(_) => Some(Event::WatcherQuit),
            Verdict::Fail(_) => Some(Event::WatcherFailed),
        }
    }
}

impl Action {
    /// Whether the action reads or changes the host's addresses.
    pub open spec fn touches_addresses(self) -> bool {
        self is Probe || self is Add || self is Remove
    }

    /// Whether the action changes the host's addresses.
    pub open spec fn changes_addresses(self) -> bool {
        self is Add || self is Remove
    }
}

impl Supervisor {
    /// The supervisor before the run: the address is ours to remove exactly
    /// if the run manages it.
    pub open spec fn spec_new(terms: Terms) -> Supervisor {
        Supervisor { terms, phase: Phase::Idle, owns_address: terms.manage_ip, failed: false }
    }

    /// The exit code that the run has earned so far: 1 after a fatal error,
    /// else 0.
    pub open spec fn spec_exit_code(self) -> i32 {
        if self.failed {
            1
        } else {
            0
        }
    }

    /// Teardown begins: an address that is ours is looked up again, since its
    /// record may not be the one that was added; without one the run is over.
    pub open spec fn spec_teardown(self) -> (Supervisor, Action) {
        if self.owns_address {
            (Supervisor { phase: Phase::Sweeping, ..self }, Action::Probe)
        } else {
            (Supervisor { phase: Phase::Done, ..self }, Action::Exit { code: self.spec_exit_code() })
        }
    }

    /// The run ends here, after a fatal error.
    pub open spec fn spec_fail(self) -> (Supervisor, Action) {
        (Supervisor { failed: true, ..self }).spec_teardown()
    }

    /// The run is over, whatever teardown achieved: its errors do not change
    /// the exit code.
    pub open spec fn spec_finish(self) -> (Supervisor, Action) {
        (Supervisor { phase: Phase::Done, ..self }, Action::Exit { code: self.spec_exit_code() })
    }

    /// The transition: the state after `event`, and what the caller is to do.
    /// An event that the phase does not wait for changes nothing.
    ///
    /// The address becomes ours with the first lookup: where that lookup
    /// fails, nothing is known of the address and nothing was added, so the
    /// run ends without owning it.
    pub open spec fn spec_step(self, event: Event) -> (Supervisor, Action) {
        match (self.phase, event) {
            (Phase::Idle, Event::Start) => if self.terms.manage_ip {
                (Supervisor { phase: Phase::Probing, ..self }, Action::Probe)
            } else {
                (Supervisor { phase: Phase::Opening, ..self }, Action::OpenChannel)
            },
            (Phase::Probing, Event::Probed { present: true }) => if self.terms.die_if_exists {
                (
                    Supervisor { phase: Phase::Done, owns_address: false, failed: true, ..self },
                    Action::Exit { code: 1 },
                )
            } else {
                (
                    Supervisor {
                        phase: Phase::Opening,
                        owns_address: self.terms.remove_preexisting,
                        ..self
                    },
                    Action::OpenChannel,
                )
            },
            (Phase::Probing, Event::Probed { present: false }) => (
                Supervisor { phase: Phase::Adding, ..self },
                Action::Add,
            ),
            (Phase::Probing, Event::AddressError) => (Supervisor {
                owns_address: false,
                ..self
            }).spec_fail(),
            (Phase::Adding, Event::Added) => (
                Supervisor { phase: Phase::Opening, ..self },
                Action::OpenChannel,
            ),
            (Phase::Adding, Event::AddressError) => self.spec_fail(),
            (Phase::Opening, Event::ChannelOpened) => (
                Supervisor { phase: Phase::Running, ..self },
                Action::Launch { watcher: self.terms.watch },
            ),
            (Phase::Opening, Event::ChannelError) => self.spec_fail(),
            (Phase::Running, Event::Interrupted) => self.spec_teardown(),
            (Phase::Running, Event::AnnouncerFinished) => self.spec_teardown(),
            (Phase::Running, Event::AnnouncerFailed) => self.spec_fail(),
            (Phase::Running, Event::WatcherQuit) => if self.terms.watch {
                self.spec_teardown()
            } else {
                (self, Action::Nothing)
            },
            (Phase::Running, Event::WatcherFailed) => if self.terms.watch {
                self.spec_fail()
            } else {
                (self, Action::Nothing)
            },
            (Phase::Sweeping, Event::Probed { present: true }) => (
                Supervisor { phase: Phase::Removing, ..self },
                Action::Remove,
            ),
            (Phase::Sweeping, Event::Probed { present: false }) => self.spec_finish(),
            (Phase::Sweeping, Event::AddressError) => self.spec_finish(),
            (Phase::Removing, Event::Removed) => (Supervisor {
                owns_address: false,
                ..self
            }).spec_finish(),
            (Phase::Removing, Event::AddressError) => self.spec_finish(),
            _ => (self, Action::Nothing),
        }
    }

    /// What the phases imply: only a run that manages the address can own
    /// it, and the address API is at work only for an address that is ours.
    pub open spec fn wf(self) -> bool {
        &&& self.owns_address ==> self.terms.manage_ip
        &&& self.phase is Idle ==> self.owns_address == self.terms.manage_ip && !self.failed
        &&& (self.phase is Probing || self.phase is Adding || self.phase is Sweeping
            || self.phase is Removing) ==> self.owns_address
    }

    /// Whether the run has nothing to do with the host's addresses, now and
    /// from now on: it owns none, and the address API is not at work.
    pub open spec fn quiet(self) -> bool {
        &&& !self.owns_address
        &&& !(self.phase is Probing || self.phase is Adding || self.phase is Sweeping
            || self.phase is Removing)
        &&& self.phase is Idle ==> !self.terms.manage_ip
    }

    /// The state after all of `events`, and the actions that they led to, one
    /// for each event.
    pub open spec fn spec_run(self, events: Seq<Event>) -> (Supervisor, Seq<Action>)
        decreases events.len(),
    {
        if events.len() == 0 {
            (self, Seq::empty())
        } else {
            let (before, actions) = self.spec_run(events.drop_last());
            let (after, action) = before.spec_step(events.last());
            (after, actions.push(action))
        }
    }

    /// The supervisor of a run under `terms`.
    pub fn new(terms: Terms) -> (supervisor: Supervisor)
        ensures
            supervisor == Self::spec_new(terms),
            supervisor.wf(),
    {
        Supervisor { terms, phase: Phase::Idle, owns_address: terms.manage_ip, failed: false }
    }

    /// The exit code that the run has earned so far.
    pub fn exit_code(&self) -> (code: i32)
        ensures
            code == self.spec_exit_code(),
    {
        if self.failed {
            1
        } else {
            0
        }
    }

    /// Whether the run is over.
    pub fn is_done(&self) -> (done: bool)
        ensures
            done == (self.phase is Done),
    {
        match self.phase {
            Phase::Done => true,
            _ => false,
        }
    }

    fn teardown(&mut self) -> (action: Action)
        ensures
            (*final(self), action) == old(self).spec_teardown(),
    {
        if self.owns_address {
            self.phase = Phase::Sweeping;
            Action::Probe
        } else {
            self.phase = Phase::Done;
            Action::Exit { code: self.exit_code() }
        }
    }

    fn fail(&mut self) -> (action: Action)
        ensures
            (*final(self), action) == old(self).spec_fail(),
    {
        self.failed = true;
        self.teardown()
    }

    fn finish(&mut self) -> (action: Action)
        ensures
            (*final(self), action) == old(self).spec_finish(),
    {
        self.phase = Phase::Done;
        Action::Exit { code: self.exit_code() }
    }

    /// Takes `event` in, and says what the caller is to do next.
    pub fn step(&mut self, event: Event) -> (action: Action)
        ensures
            (*final(self), action) == old(self).spec_step(event),
            old(self).wf() ==> final(self).wf(),
            final(self).terms == old(self).terms,
    {
        match (self.phase, event) {
            (Phase::Idle, Event::Start) => {
                if self.terms.manage_ip {
                    self.phase = Phase::Probing;
                    Action::Probe
                } else {
                    self.phase = Phase::Opening;
                    Action::OpenChannel
                }
            },
            (Phase::Probing, Event::Probed { present: true }) => {
                if self.terms.die_if_exists {
                    self.phase = Phase::Done;
                    self.owns_address = false;
                    self.failed = true;
                    Action::Exit { code: 1 }
                } else {
                    self.phase = Phase::Opening;
                    self.owns_address = self.terms.remove_preexisting;
                    Action::OpenChannel
                }
            },
            (Phase::Probing, Event::Probed { present: false }) => {
                self.phase = Phase::Adding;
                Action::Add
            },
            (Phase::Probing, Event::AddressError) => {
                self.owns_address = false;
                self.fail()
            },
            (Phase::Adding, Event::Added) => {
                self.phase = Phase::Opening;
                Action::OpenChannel
            },
            (Phase::Adding, Event::AddressError) => self.fail(),
            (Phase::Opening, Event::ChannelOpened) => {
                self.phase = Phase::Running;
                Action::Launch { watcher: self.terms.watch }
            },
            (Phase::Opening, Event::ChannelError) => self.fail(),
            (Phase::Running, Event::Interrupted) => self.teardown(),
            (Phase::Running, Event::AnnouncerFinished) => self.teardown(),
            (Phase::Running, Event::AnnouncerFailed) => self.fail(),
            (Phase::Running, Event::WatcherQuit) => {
                if self.terms.watch {
                    self.teardown()
                } else {
                    Action::Nothing
                }
            },
            (Phase::Running, Event::WatcherFailed) => {
                if self.terms.watch {
                    self.fail()
                } else {
                    Action::Nothing
                }
            },
            (Phase::Sweeping, Event::Probed { present: true }) => {
                self.phase = Phase::Removing;
                Action::Remove
            },
            (Phase::Sweeping, Event::Probed { present: false }) => self.finish(),
            (Phase::Sweeping, Event::AddressError) => self.finish(),
            (Phase::Removing, Event::Removed) => {
                self.owns_address = false;
                self.finish()
            },
            (Phase::Removing, Event::AddressError) => self.finish(),
            _ => Action::Nothing,
        }
    }
}

/// Each event leads to one action.
pub proof fn lemma_run_length(start: Supervisor, events: Seq<Event>)
    ensures
        start.spec_run(events).1.len() == events.len(),
    decreases events.len(),
{
    if events.len() > 0 {
        lemma_run_length(start, events.drop_last());
    }
}

/// Each action is the step from the state that the events before it led to.
pub proof fn lemma_run_unfolds(start: Supervisor, events: Seq<Event>, i: int)
    requires
        0 <= i < events.len(),
    ensures
        start.spec_run(events).1.len() == events.len(),
        start.spec_run(events).1[i] == start.spec_run(events.take(i)).0.spec_step(events[i]).1,
        start.spec_run(events.take(i + 1)).0 == start.spec_run(events.take(i)).0.spec_step(
            events[i],
        ).0,
    decreases events.len(),
{
    let shorter = events.drop_last();
    lemma_run_length(start, events);
    lemma_run_length(start, shorter);
    if i == events.len() - 1 {
        assert(events.take(i) =~= shorter);
        assert(events.take(i + 1) =~= events);
    } else {
        lemma_run_unfolds(start, shorter, i);
        assert(shorter.take(i) =~= events.take(i));
        assert(shorter.take(i + 1) =~= events.take(i + 1));
    }
}

/// A run in two parts is the run of the first part, then that of the second
/// from where the first ended.
pub proof fn lemma_run_splits(start: Supervisor, first: Seq<Event>, rest: Seq<Event>)
    ensures
        start.spec_run(first + rest).0 == start.spec_run(first).0.spec_run(rest).0,
        start.spec_run(first + rest).1 == start.spec_run(first).1 + start.spec_run(
            first,
        ).0.spec_run(rest).1,
    decreases rest.len(),
{
    let middle = start.spec_run(first).0;
    if rest.len() == 0 {
        assert(first + rest =~= first);
        assert(start.spec_run(first).1 + middle.spec_run(rest).1 =~= start.spec_run(first).1);
    } else {
        lemma_run_splits(start, first, rest.drop_last());
        assert((first + rest).drop_last() =~= first + rest.drop_last());
        assert((first + rest).last() == rest.last());
        let before = middle.spec_run(rest.drop_last());
        let action = before.0.spec_step(rest.last()).1;
        assert(start.spec_run(first + rest).1 =~= start.spec_run(first).1 + before.1.push(action));
    }
}

/// No event changes the terms, and what the phases imply stays true.
pub proof fn lemma_run_keeps_terms(start: Supervisor, events: Seq<Event>)
    ensures
        start.spec_run(events).0.terms == start.terms,
        start.wf() ==> start.spec_run(events).0.wf(),
    decreases events.len(),
{
    if events.len() > 0 {
        lemma_run_keeps_terms(start, events.drop_last());
    }
}

/// When the run is over, nothing more happens: every event leaves the state
/// as it is and asks nothing of the caller.
pub proof fn law_done_is_final(supervisor: Supervisor, events: Seq<Event>)
    requires
        supervisor.phase is Done,
    ensures
        supervisor.spec_run(events).0 == supervisor,
        supervisor.spec_run(events).1 == Seq::new(events.len(), |i: int| Action::Nothing),
    decreases events.len(),
{
    if events.len() > 0 {
        law_done_is_final(supervisor, events.drop_last());
    }
    assert(supervisor.spec_run(events).1 =~= Seq::new(events.len(), |i: int| Action::Nothing));
}

/// A run exits once: the action that tells the caller to exit ends the run,
/// and every later event leads to nothing.
pub proof fn law_exit_is_last(start: Supervisor, events: Seq<Event>, i: int, j: int)
    requires
        0 <= i < j < events.len(),
        start.spec_run(events).1[i] is Exit,
    ensures
        start.spec_run(events.take(i + 1)).0.phase is Done,
        start.spec_run(events).1[j] == Action::Nothing,
{
    lemma_run_unfolds(start, events, i);
    lemma_run_unfolds(start, events, j);
    let ended = start.spec_run(events.take(i + 1)).0;
    assert(ended.phase is Done);
    let between = events.subrange(i + 1, j);
    assert(events.take(j) =~= events.take(i + 1) + between);
    lemma_run_splits(start, events.take(i + 1), between);
    law_done_is_final(ended, between);
}

/// A run that has nothing to do with the host's addresses keeps it so: no
/// event makes it look an address up, add one or remove one.
pub proof fn lemma_quiet_run_stays_quiet(start: Supervisor, events: Seq<Event>)
    requires
        start.quiet(),
    ensures
        start.spec_run(events).0.quiet(),
        start.spec_run(events).1.len() == events.len(),
        forall|i: int|
            0 <= i < events.len() ==> !(#[trigger] start.spec_run(events).1[i]).touches_addresses(),
    decreases events.len(),
{
    if events.len() > 0 {
        lemma_quiet_run_stays_quiet(start, events.drop_last());
        lemma_run_keeps_terms(start, events.drop_last());
    }
}

/// A run that does not manage the address never uses the address API.
pub proof fn law_unmanaged_run_leaves_addresses_alone(terms: Terms, events: Seq<Event>, i: int)
    requires
        !terms.manage_ip,
        0 <= i < events.len(),
    ensures
        !Supervisor::spec_new(terms).spec_run(events).1[i].touches_addresses(),
{
    lemma_quiet_run_stays_quiet(Supervisor::spec_new(terms), events);
}

/// Where the address is already on the interface and the run was told to
/// die of that, the lookup is all that happens: the run exits with code 1,
/// and nothing is added or removed, whatever is reported afterwards.
pub proof fn law_existing_address_aborts(terms: Terms, later: Seq<Event>)
    requires
        terms.manage_ip,
        terms.die_if_exists,
    ensures
        Supervisor::spec_new(terms).spec_run(
            seq![Event::Start, Event::Probed { present: true }] + later,
        ).1 == seq![Action::Probe, Action::Exit { code: 1 }] + Seq::new(
            later.len(),
            |i: int| Action::Nothing,
        ),
{
    let start = Supervisor::spec_new(terms);
    let opening = seq![Event::Start, Event::Probed { present: true }];
    lemma_two_steps(start, Event::Start, Event::Probed { present: true });
    lemma_run_splits(start, opening, later);
    law_done_is_final(start.spec_run(opening).0, later);
}

/// Where the address is already on the interface and the run was not told
/// to take it over, the run goes on without owning it: nothing is added, and
/// nothing is removed at the end, whatever is reported afterwards.
pub proof fn law_foreign_address_is_kept(terms: Terms, later: Seq<Event>, i: int)
    requires
        terms.manage_ip,
        !terms.die_if_exists,
        !terms.remove_preexisting,
        0 <= i < later.len(),
    ensures
        ({
            let run = Supervisor::spec_new(terms).spec_run(
                seq![Event::Start, Event::Probed { present: true }] + later,
            );
            &&& run.1.len() == 2 + later.len()
            &&& run.1[0] == Action::Probe
            &&& run.1[1] == Action::OpenChannel
            &&& !run.1[2 + i].touches_addresses()
            &&& !run.0.owns_address
        }),
{
    let start = Supervisor::spec_new(terms);
    let opening = seq![Event::Start, Event::Probed { present: true }];
    lemma_two_steps(start, Event::Start, Event::Probed { present: true });
    lemma_run_splits(start, opening, later);
    let middle = start.spec_run(opening).0;
    lemma_quiet_run_stays_quiet(middle, later);
    assert(!middle.spec_run(later).1[i].touches_addresses());
}

/// A run of two events is two steps.
pub proof fn lemma_two_steps(start: Supervisor, first: Event, second: Event)
    ensures
        ({
            let (middle, a) = start.spec_step(first);
            let (end, b) = middle.spec_step(second);
            start.spec_run(seq![first, second]) == (end, seq![a, b])
        }),
{
    let events = seq![first, second];
    let one = events.drop_last();
    assert(one =~= seq![first]);
    assert(one.drop_last() =~= Seq::<Event>::empty());
    assert(start.spec_run(one.drop_last()) == (start, Seq::<Action>::empty()));
    let (middle, a) = start.spec_step(first);
    assert(one.last() == first);
    assert(start.spec_run(one).0 == middle);
    assert(start.spec_run(one).1 =~= seq![a]);
    let (end, b) = middle.spec_step(second);
    assert(events.last() == second);
    assert(start.spec_run(events).1 =~= seq![a, b]);
}

/// Where the first lookup fails, the run owns nothing: it exits with code 1
/// at once, and nothing is looked up again, added or removed, whatever is
/// reported afterwards.
pub proof fn law_failed_lookup_owns_nothing(terms: Terms, later: Seq<Event>)
    requires
        terms.manage_ip,
    ensures
        Supervisor::spec_new(terms).spec_run(seq![Event::Start, Event::AddressError] + later).1
            == seq![Action::Probe, Action::Exit { code: 1 }] + Seq::new(
            later.len(),
            |i: int| Action::Nothing,
        ),
{
    let start = Supervisor::spec_new(terms);
    let opening = seq![Event::Start, Event::AddressError];
    lemma_two_steps(start, Event::Start, Event::AddressError);
    lemma_run_splits(start, opening, later);
    law_done_is_final(start.spec_run(opening).0, later);
}

/// A run that was told to die of an address that is there, and to which no
/// lookup reports the address absent, has not started, is at its first
/// lookup, or is over; all it ever asks for is that lookup and the exit with
/// code 1.
pub proof fn lemma_run_before_an_address_that_is_there(terms: Terms, events: Seq<Event>)
    requires
        terms.manage_ip,
        terms.die_if_exists,
        forall|k: int| 0 <= k < events.len() ==> events[k] != (Event::Probed { present: false }),
    ensures
        ({
            let run = Supervisor::spec_new(terms).spec_run(events);
            &&& run.0.terms == terms
            &&& run.0.phase is Idle || run.0.phase is Probing || run.0.phase is Done
            &&& run.1.len() == events.len()
            &&& forall|i: int|
                0 <= i < events.len() ==> (#[trigger] run.1[i]) == Action::Nothing || run.1[i]
                    == Action::Probe || run.1[i] == (Action::Exit { code: 1 })
        }),
    decreases events.len(),
{
    if events.len() > 0 {
        let shorter = events.drop_last();
        assert forall|k: int| 0 <= k < shorter.len() implies shorter[k] != (Event::Probed {
            present: false,
        }) by {
            assert(shorter[k] == events[k]);
        }
        lemma_run_before_an_address_that_is_there(terms, shorter);
        assert(events.last() == events[events.len() - 1]);
    }
}

/// For every run that was told to die of an address that is there: as long
/// as no lookup reports the address absent, nothing is added and nothing is
/// removed, whether the lookups succeed or fail, and an exit is with code 1.
pub proof fn law_address_that_is_there_is_never_changed(terms: Terms, events: Seq<Event>, i: int)
    requires
        terms.manage_ip,
        terms.die_if_exists,
        forall|k: int| 0 <= k < events.len() ==> events[k] != (Event::Probed { present: false }),
        0 <= i < events.len(),
    ensures
        !Supervisor::spec_new(terms).spec_run(events).1[i].changes_addresses(),
        Supervisor::spec_new(terms).spec_run(events).1[i] is Exit ==> Supervisor::spec_new(
            terms,
        ).spec_run(events).1[i] == (Action::Exit { code: 1 }),
{
    lemma_run_before_an_address_that_is_there(terms, events);
}

/// Where the first lookup fails, a foreign address stays: nothing is removed
/// at the end of a run that never learnt whether the address was there.
pub proof fn law_unknown_address_is_kept(terms: Terms, later: Seq<Event>, i: int)
    requires
        terms.manage_ip,
        0 <= i < later.len(),
    ensures
        !Supervisor::spec_new(terms).spec_run(seq![Event::Start, Event::AddressError] + later).1[2
            + i].touches_addresses(),
{
    law_failed_lookup_owns_nothing(terms, later);
}

/// The life of a managed address. Where the address is not on the interface
/// at the start, the run adds it, so that it is there while the announcer is
/// at work; whatever ends the run, teardown looks the address up again,
/// finds the record that was added and removes it, so that it is gone when
/// the run exits; and once the run is over, nothing is removed again.
///
/// `list` is the host's address list before the run. The host is taken to
/// add a record at the end of its list and to remove the record that it is
/// told to.
pub proof fn law_managed_address_comes_and_goes(
    terms: Terms,
    list: Seq<RecordView>,
    if_index: u32,
    ip: IpAddr,
    prefix_len: u8,
    ending: Event,
    again: Event,
)
    requires
        terms.manage_ip,
        !present(list, if_index, ip),
        ending == Event::Interrupted || ending == Event::AnnouncerFinished || ending
            == Event::AnnouncerFailed || (terms.watch && (ending == Event::WatcherQuit || ending
            == Event::WatcherFailed)),
    ensures
        ({
            let idle = Supervisor::spec_new(terms);
            let (probing, a1) = idle.spec_step(Event::Start);
            let (adding, a2) = probing.spec_step(
                Event::Probed { present: present(list, if_index, ip) },
            );
            let during = list.push(added(if_index, ip, prefix_len));
            let (opening, a3) = adding.spec_step(Event::Added);
            let (running, a4) = opening.spec_step(Event::ChannelOpened);
            let (sweeping, a5) = running.spec_step(ending);
            let (removing, a6) = sweeping.spec_step(
                Event::Probed { present: present(during, if_index, ip) },
            );
            let after = during.remove(list.len() as int);
            let (done, a7) = removing.spec_step(Event::Removed);
            &&& a1 == Action::Probe
            &&& a2 == Action::Add
            &&& present(during, if_index, ip)
            &&& a3 == Action::OpenChannel
            &&& a4 == Action::Launch { watcher: terms.watch }
            &&& running.owns_address
            &&& a5 == Action::Probe
            &&& a6 == Action::Remove
            &&& first_at(during, if_index, ip, list.len() as int)
            &&& !present(after, if_index, ip)
            &&& a7 == Action::Exit {
                code: if ending == Event::AnnouncerFailed || ending == Event::WatcherFailed {
                    1i32
                } else {
                    0i32
                },
            }
            &&& !done.owns_address
            &&& done.spec_step(again) == (done, Action::Nothing)
        }),
{
    law_removal_undoes_add(list, if_index, ip, prefix_len);
    let during = list.push(added(if_index, ip, prefix_len));
    assert(present(during, if_index, ip));
}

} // verus!

