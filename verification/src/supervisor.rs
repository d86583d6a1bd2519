//! The Sidecar Supervisor: the state machine that owns the lifecycle of the
//! backend child process. The host spawns the process and feeds every unit of
//! its output in as a [`LineEvent`]; the supervisor parses port
//! announcements into its [`PortRegistry`], tells the host what to log, and
//! decides — exactly once — whether the OS-level kill is to be issued when
//! the application exits.

use vstd::prelude::*;

use crate::event::Diagnostic;
use crate::event::LineEvent;
use crate::parse::all_spaces;
use crate::parse::decimal;
use crate::parse::has_port_prefix;
use crate::parse::has_prefix;
use crate::parse::lemma_well_formed_line_parses;
use crate::parse::parse_port_line;
use crate::parse::port_of_line;
use crate::parse::port_prefix;
use crate::registry::PortRegistry;

verus! {

/// Where the supervisor stands in the backend's lifetime.
#[derive(Clone, Copy, Debug, PartialEq, Eq, Structural)]
pub enum Phase {
    /// Nothing has happened yet.
    Unstarted,
    /// The spawn of the backend is under way. If it fails, the application
    /// aborts: there is no recoverable state without a backend.
    Spawning,
    /// The backend runs and its output is being consumed.
    Running,
    /// The backend's end was observed in its event stream.
    Terminating,
    /// The exit path ran; the child handle has been surrendered.
    Terminated,
}

/// The supervisor's whole state: the lifecycle phase, the port registry, and
/// whether the child-process handle is still held (and so would still need
/// an OS-level kill on exit).
#[derive(Clone, Copy, Debug, PartialEq, Eq)]
pub struct SidecarCore {
    /// The lifecycle phase.
    pub phase: Phase,
    /// The registry holding the discovered port, if any.
    pub registry: PortRegistry,
    /// Whether the child-process handle is held. It is surrendered, at most
    /// once, by [`SidecarCore::take_for_kill`].
    pub child_present: bool,
}

/// The port an event announces: what a standard-output line parses to, and
/// nothing for every other kind of event.
pub open spec fn announced_port(e: LineEvent) -> Option<u16> {
    match e {
        LineEvent::Stdout(l) => port_of_line(l@),
        _ => None,
    }
}

/// The registry value after one line of standard output: the announced port
/// when the line is a well-formed announcement, the old value otherwise.
pub open spec fn port_after_line(port: Option<u16>, line: Seq<u8>) -> Option<u16> {
    match port_of_line(line) {
        Some(p) => Some(p),
        None => port,
    }
}

/// The registry value after one event.
pub open spec fn port_after_event(port: Option<u16>, e: LineEvent) -> Option<u16> {
    match announced_port(e) {
        Some(p) => Some(p),
        None => port,
    }
}

/// The registry value after a whole sequence of events, processed in order.
pub open spec fn port_after_events(port: Option<u16>, es: Seq<LineEvent>) -> Option<u16>
    decreases es.len(),
{
    if es.len() == 0 {
        port
    } else {
        port_after_event(port_after_events(port, es.drop_last()), es.last())
    }
}

/// The phase after one event: observing the backend's end moves a running
/// supervisor to `Terminating`; nothing else in the stream changes the phase.
pub open spec fn phase_after_event(ph: Phase, e: LineEvent) -> Phase {
    if e is Terminated && ph is Running {
        Phase::Terminating
    } else {
        ph
    }
}

/// The phase after a whole sequence of events, processed in order.
pub open spec fn phase_after_events(ph: Phase, es: Seq<LineEvent>) -> Phase
    decreases es.len(),
{
    if es.len() == 0 {
        ph
    } else {
        phase_after_event(phase_after_events(ph, es.drop_last()), es.last())
    }
}

/// What the host is told to log for one event: the discovered port for a
/// well-formed announcement; the line itself for other output; nothing for a
/// malformed announcement, which is dropped silently, or an unknown event.
pub open spec fn diagnostic_of(e: LineEvent) -> Diagnostic {
    match e {
        LineEvent::Stdout(l) => match port_of_line(l@) {
            Some(p) => Diagnostic::PortDiscovered(p),
            None => if has_prefix(l@) {
                Diagnostic::Silent
            } else {
                Diagnostic::BackendLine(l)
            },
        },
        LineEvent::Stderr(l) => Diagnostic::BackendErrorLine(l),
        LineEvent::Error(m) => Diagnostic::CommandError(m),
        LineEvent::Terminated(st) => Diagnostic::TerminatedNotice(st),
        LineEvent::Other => Diagnostic::Silent,
    }
}

/// The kill decision: the stored handle is surrendered, so a second call
/// finds none, and the OS-level kill is asked for exactly when a handle was
/// held. The registry is untouched: no port is fabricated or lost on exit.
pub open spec fn kill_step(s: SidecarCore) -> (bool, SidecarCore) {
    (
        s.child_present,
        (SidecarCore { phase: Phase::Terminated, registry: s.registry, child_present: false }),
    )
}

impl SidecarCore {
    /// Well-formedness: before the spawn has succeeded there is neither a
    /// port nor a child handle, and after the exit path the handle is gone.
    pub open spec fn wf(&self) -> bool {
        &&& ((self.phase is Unstarted || self.phase is Spawning) ==> (self.registry.value
            is None && !self.child_present))
        &&& (self.phase is Terminated ==> !self.child_present)
    }

    /// A fresh supervisor: unstarted, no port, no child handle.
    pub fn new() -> (s: SidecarCore)
        ensures
            s.wf(),
            s.phase is Unstarted,
            s.registry.value is None,
            !s.child_present,
    {
        SidecarCore { phase: Phase::Unstarted, registry: PortRegistry::new(), child_present: false }
    }

    /// Begins the spawn of the backend. Failure of the spawn itself is fatal
    /// to the application and leaves this state machine for good; success is
    /// reported through [`SidecarCore::on_spawned`].
    pub fn start_spawn(&mut self)
        requires
            old(self).wf(),
            old(self).phase is Unstarted,
        ensures
            final(self).wf(),
            final(self).phase is Spawning,
            final(self).registry == old(self).registry,
            !final(self).child_present,
    {
        self.phase = Phase::Spawning;
    }

    /// Records that the spawn succeeded and the child handle is now held.
    pub fn on_spawned(&mut self)
        requires
            old(self).wf(),
            old(self).phase is Spawning,
        ensures
            final(self).wf(),
            final(self).phase is Running,
            final(self).registry == old(self).registry,
            final(self).registry.value is None,
            final(self).child_present,
    {
        self.phase = Phase::Running;
        self.child_present = true;
    }

    /// The query interface: the current port, absent while none has been
    /// announced. A plain read, never blocking, with no side effect.
    pub fn get_port(&self) -> (r: Option<u16>)
        ensures
            r == self.registry.value,
    {
        self.registry.current()
    }

    /// Processes one event of the backend's output stream: a well-formed
    /// `PORT:` line updates the registry (the last announcement wins), every
    /// other line leaves it unchanged, and the returned diagnostic says what
    /// the host should log. Events flow only once the backend runs; they may
    /// still arrive after the exit path ran, and are tolerated there.
    pub fn process_event(&mut self, event: LineEvent) -> (d: Diagnostic)
        requires
            old(self).wf(),
            old(self).phase is Running || old(self).phase is Terminating
                || old(self).phase is Terminated,
        ensures
            final(self).wf(),
            final(self).phase is Running || final(self).phase is Terminating
                || final(self).phase is Terminated,
            final(self).registry.value == port_after_event(old(self).registry.value, event),
            final(self).phase == phase_after_event(old(self).phase, event),
            final(self).child_present == old(self).child_present,
            d == diagnostic_of(event),
    {
        match event {
            LineEvent::Stdout(line) => {
                if has_port_prefix(line.as_slice()) {
                    match parse_port_line(line.as_slice()) {
                        Some(port) => {
                            self.registry.publish(port);
                            Diagnostic::PortDiscovered(port)
                        },
                        None => Diagnostic::Silent,
                    }
                } else {
                    Diagnostic::BackendLine(line)
                }
            },
            LineEvent::Stderr(line) => Diagnostic::BackendErrorLine(line),
            LineEvent::Error(message) => Diagnostic::CommandError(message),
            LineEvent::Terminated(status) => {
                if self.phase == Phase::Running {
                    self.phase = Phase::Terminating;
                }
                Diagnostic::TerminatedNotice(status)
            },
            LineEvent::Other => Diagnostic::Silent,
        }
    }

    /// Processes a batch of events in order, returning one diagnostic per
    /// event. The registry ends as if each event had been processed singly.
    #[verifier::loop_isolation(false)]
    pub fn consume_events(&mut self, events: Vec<LineEvent>) -> (ds: Vec<Diagnostic>)
        requires
            old(self).wf(),
            old(self).phase is Running || old(self).phase is Terminating
                || old(self).phase is Terminated,
        ensures
            final(self).wf(),
            final(self).registry.value == port_after_events(old(self).registry.value, events@),
            final(self).phase == phase_after_events(old(self).phase, events@),
            final(self).child_present == old(self).child_present,
            ds@.len() == events@.len(),
            forall|i: int| 0 <= i < events@.len() ==> ds@[i] == diagnostic_of(events@[i]),
    {
        let ghost all = events@;
        let mut rest = events;
        let mut ds: Vec<Diagnostic> = Vec::new();
        while rest.len() > 0
            invariant
                self.wf(),
                self.phase is Running || self.phase is Terminating || self.phase is Terminated,
                self.child_present == old(self).child_present,
                ds@.len() + rest@.len() == all.len(),
                rest@ == all.subrange(ds@.len() as int, all.len() as int),
                self.registry.value == port_after_events(
                    old(self).registry.value,
                    all.subrange(0, ds@.len() as int),
                ),
                self.phase == phase_after_events(old(self).phase, all.subrange(0, ds@.len() as int)),
                forall|i: int| 0 <= i < ds@.len() ==> ds@[i] == diagnostic_of(all[i]),
            decreases rest@.len(),
        {
            let ghost k = ds@.len() as int;
            let e = rest.remove(0);
            proof {
                assert(e == all[k]);
                assert(rest@ =~= all.subrange(k + 1, all.len() as int));
                assert(all.subrange(0, k + 1).drop_last() =~= all.subrange(0, k));
                assert(all.subrange(0, k + 1).last() == all[k]);
            }
            let d = self.process_event(e);
            ds.push(d);
        }
        proof {
            assert(all.subrange(0, all.len() as int) =~= all);
        }
        ds
    }

    /// The exit path's kill decision. It surrenders the stored child handle:
    /// the first call returns whether a handle was held — and so whether the
    /// host must issue the one OS-level kill — and any later call returns
    /// false and does nothing. Callable in any state, it never panics, and it
    /// leaves the registry exactly as it was.
    pub fn take_for_kill(&mut self) -> (issue_kill: bool)
        ensures
            final(self).wf(),
            (issue_kill, *final(self)) == kill_step(*old(self)),
            issue_kill == old(self).child_present,
            !final(self).child_present,
            final(self).phase is Terminated,
            final(self).registry == old(self).registry,
    {
        let issue_kill = self.child_present;
        self.child_present = false;
        self.phase = Phase::Terminated;
        issue_kill
    }
}

/// Law: processing a well-formed announcement — the prefix `PORT:`, any
/// whitespace, the decimal digits of a 16-bit number, any whitespace —
/// stores exactly that number in the registry, whatever it held before.
pub proof fn lemma_announcement_recorded(port: Option<u16>, p: u16, ws1: Seq<u8>, ws2: Seq<u8>)
    requires
        all_spaces(ws1),
        all_spaces(ws2),
    ensures
        port_after_line(port, port_prefix() + ws1 + decimal(p as nat) + ws2) == Some(p),
{
    lemma_well_formed_line_parses(p, ws1, ws2);
}

/// Law: a standard-output line without the `PORT:` prefix leaves the
/// registry unchanged.
pub proof fn lemma_non_port_line_ignored(port: Option<u16>, line: Seq<u8>)
    requires
        !has_prefix(line),
    ensures
        port_after_line(port, line) == port,
{
}

/// Law: a `PORT:` line that does not parse — a non-numeric remainder, or a
/// number out of 16-bit range — leaves the registry unchanged: malformed
/// input is ignored, not an error.
pub proof fn lemma_malformed_port_line_ignored(port: Option<u16>, line: Seq<u8>)
    requires
        port_of_line(line) is None,
    ensures
        port_after_line(port, line) == port,
{
}

/// Law: no event other than a standard-output line can change the registry.
pub proof fn lemma_only_stdout_updates(port: Option<u16>, e: LineEvent)
    requires
        !(e is Stdout),
    ensures
        port_after_event(port, e) == port,
{
}

/// Law: while no event announces a port, the registry keeps its value; in
/// particular it is still absent before the first `PORT:` line is processed.
pub proof fn lemma_no_announcement_keeps_port(port: Option<u16>, es: Seq<LineEvent>)
    requires
        forall|i: int| 0 <= i < es.len() ==> announced_port(es[i]) is None,
    ensures
        port_after_events(port, es) == port,
    decreases es.len(),
{
    if es.len() > 0 {
        let front = es.drop_last();
        assert forall|i: int| 0 <= i < front.len() implies announced_port(front[i]) is None by {
            assert(front[i] == es[i]);
        }
        lemma_no_announcement_keeps_port(port, front);
        assert(announced_port(es[es.len() - 1]) is None);
        assert(es.last() == es[es.len() - 1]);
    }
}

/// Law: the registry ends at the last successfully parsed announcement: if
/// the event at position `i` announces `p` and no later event announces
/// anything, the registry holds `p` after the whole sequence.
pub proof fn lemma_last_announcement_wins(port: Option<u16>, es: Seq<LineEvent>, i: int, p: u16)
    requires
        0 <= i < es.len(),
        announced_port(es[i]) == Some(p),
        forall|j: int| i < j < es.len() ==> announced_port(es[j]) is None,
    ensures
        port_after_events(port, es) == Some(p),
    decreases es.len(),
{
    if i == es.len() - 1 {
        assert(es.last() == es[i]);
    } else {
        let front = es.drop_last();
        assert(front[i] == es[i]);
        assert forall|j: int| i < j < front.len() implies announced_port(front[j]) is None by {
            assert(front[j] == es[j]);
        }
        lemma_last_announcement_wins(port, front, i, p);
        assert(announced_port(es[es.len() - 1]) is None);
        assert(es.last() == es[es.len() - 1]);
    }
}

/// Law: the kill decision issues the OS-level kill at most once. After one
/// call has surrendered the handle, a second call asks for no kill and
/// changes nothing; and neither call touches the registry.
pub proof fn lemma_kill_at_most_once(s: SidecarCore)
    ensures
        ({
            let (first, s1) = kill_step(s);
            let (second, s2) = kill_step(s1);
            &&& first == s.child_present
            &&& !second
            &&& s2 == s1
            &&& s1.registry == s.registry
        }),
{
}

} // verus!
