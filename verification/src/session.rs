//! One session as a state machine.
//!
//! A session is a timed interval plus its side effects: a notification when
//! the timer completes, journal capture after a work interval, and the pause
//! gate before the next session. The machine decides; a driver outside this
//! crate performs each requested [`Action`] (sleeping, notifying, spawning
//! the editor, touching the filesystem, reading standard input) and feeds the
//! [`Outcome`] back into [`Session::step`].

use vstd::prelude::*;
use crate::clock::{now_local, Timestamp};
use crate::entities::{Config, SessionKind};

verus! {

/// Why journal capture failed.
#[derive(Clone, Copy, Debug, PartialEq, Eq, Structural)]
pub enum CaptureError {
    /// Neither `VISUAL` nor `EDITOR` named an editor.
    MissingEditor,
    /// The scratch file could not be created or its header not written.
    ScratchIoFailure,
    /// The editor could not be run or reported failure.
    EditorFailure,
    /// The edited entry could not be copied into the journal directory.
    ArchiveIoFailure,
}

/// What went wrong inside a session.
#[derive(Clone, Copy, Debug, PartialEq, Eq, Structural)]
pub enum SessionFailure {
    /// The completion notification could not be sent.
    Notification,
    /// Journal capture failed.
    Capture(CaptureError),
}

/// A session failure tagged with the kind of session it happened in.
#[derive(Clone, Copy, Debug, PartialEq, Eq, Structural)]
pub struct SessionError {
    pub kind: SessionKind,
    pub cause: SessionFailure,
}

/// What the driver is asked to do next.
#[derive(Clone, Copy, Debug, PartialEq, Eq)]
pub enum Action {
    /// Run the countdown for this many seconds, displayed for this kind.
    RunTimer { seconds: u64, kind: SessionKind },
    /// Send the best-effort completion notification for this kind.
    Notify { kind: SessionKind },
    /// Resolve the editor command from `VISUAL`, then `EDITOR`.
    ResolveEditor,
    /// Create the scratch file and write the header line for this timestamp.
    CreateScratch { ts: Timestamp },
    /// Run the resolved editor on the scratch file and wait for it.
    RunEditor,
    /// Create the journal directory if needed and copy the scratch file to
    /// the archive filename for this timestamp.
    ArchiveScratch { ts: Timestamp },
    /// Remove the scratch file; failure is non-fatal.
    RemoveScratch,
    /// Block until the user acknowledges with one line of input.
    AwaitEnter,
    /// The session is over with this result; no further work is requested.
    SessionDone { result: Result<(), SessionError> },
}

/// How the last requested action went.
#[derive(Clone, Copy, Debug, PartialEq, Eq, Structural)]
pub enum Outcome {
    Success,
    Failure,
}

/// Where a session stands.
#[derive(Clone, Copy, Debug, PartialEq, Eq, Structural)]
pub enum SessionPhase {
    /// Created; the countdown has not been requested yet.
    Begin,
    /// The countdown is running.
    Timing,
    /// The completion notification is being sent.
    Notifying,
    /// Journal capture: the editor command is being resolved.
    ResolvingEditor,
    /// Journal capture: the scratch file is being created.
    CreatingScratch,
    /// Journal capture: the editor is running.
    Editing,
    /// Journal capture: the entry is being archived.
    Archiving,
    /// Journal capture: the scratch file is being removed.
    Removing,
    /// The pause gate: waiting for the user before finishing.
    Paused,
    /// Terminal: nothing more will be requested.
    Done,
}

/// The state of one session.
#[derive(Clone, Copy, Debug, PartialEq, Eq, Structural)]
pub struct Session {
    /// Which kind of interval this session is.
    pub kind: SessionKind,
    /// The countdown duration, chosen from the configuration by kind.
    pub seconds: u64,
    /// Whether the pause gate is skipped.
    pub auto_start_next: bool,
    pub phase: SessionPhase,
    /// The moment capture began; set when the editor has been resolved.
    pub ts: Option<Timestamp>,
    /// The failure the session ended with, if any.
    pub failure: Option<SessionError>,
}

/// The duration the configuration assigns to a session kind.
pub open spec fn duration_of(kind: SessionKind, config: Config) -> u64 {
    match kind {
        SessionKind::Work => config.work.0,
        SessionKind::ShortBreak => config.short_break.0,
        SessionKind::LongBreak => config.long_break.0,
    }
}

/// A fresh session of the given kind under the given configuration.
pub open spec fn session_init(kind: SessionKind, config: Config) -> Session {
    Session {
        kind,
        seconds: duration_of(kind, config),
        auto_start_next: config.auto_start_next,
        phase: SessionPhase::Begin,
        ts: None,
        failure: None,
    }
}

impl Session {
    /// A session state that can actually arise: the capture timestamp exists
    /// and is a calendar time in the phases that use it, and a recorded
    /// failure means the session is over.
    pub open spec fn wf(self) -> bool {
        &&& (self.ts matches Some(t) ==> t.wf())
        &&& ((self.phase == SessionPhase::CreatingScratch || self.phase == SessionPhase::Editing
            || self.phase == SessionPhase::Archiving) ==> self.ts is Some)
        &&& (self.in_capture() ==> self.kind == SessionKind::Work)
        &&& (self.failure matches Some(e) ==> self.phase == SessionPhase::Done && e.kind
            == self.kind)
    }

    /// Whether the session stands in one of the journal-capture phases.
    pub open spec fn in_capture(self) -> bool {
        ||| self.phase == SessionPhase::ResolvingEditor
        ||| self.phase == SessionPhase::CreatingScratch
        ||| self.phase == SessionPhase::Editing
        ||| self.phase == SessionPhase::Archiving
        ||| self.phase == SessionPhase::Removing
    }

    /// The result a finished session reports.
    pub open spec fn result_of(self) -> Result<(), SessionError> {
        match self.failure {
            Some(e) => Err(e),
            None => Ok(()),
        }
    }
}

/// The pause gate: ask for an acknowledgment unless sessions auto-advance.
pub open spec fn gate_spec(pre: Session) -> (Session, Action) {
    if pre.auto_start_next {
        (
            Session { phase: SessionPhase::Done, ..pre },
            Action::SessionDone { result: Ok(()) },
        )
    } else {
        (Session { phase: SessionPhase::Paused, ..pre }, Action::AwaitEnter)
    }
}

/// Ending the session with a failure, tagged with the session kind.
pub open spec fn fail_spec(pre: Session, cause: SessionFailure) -> (Session, Action) {
    let e = SessionError { kind: pre.kind, cause };
    (
        Session { phase: SessionPhase::Done, failure: Some(e), ..pre },
        Action::SessionDone { result: Err(e) },
    )
}

/// The transition relation of a session. `ts` is the timestamp observed when
/// the machine reads the clock (as the editor resolves); every other
/// transition ignores it.
pub open spec fn step_spec(pre: Session, ev: Outcome, ts: Timestamp) -> (Session, Action) {
    match pre.phase {
        SessionPhase::Begin => (
            Session { phase: SessionPhase::Timing, ..pre },
            Action::RunTimer { seconds: pre.seconds, kind: pre.kind },
        ),
        // The countdown always completes; there is no failing outcome.
        SessionPhase::Timing => (
            Session { phase: SessionPhase::Notifying, ..pre },
            Action::Notify { kind: pre.kind },
        ),
        SessionPhase::Notifying => match ev {
            Outcome::Success => if pre.kind == SessionKind::Work {
                (Session { phase: SessionPhase::ResolvingEditor, ..pre }, Action::ResolveEditor)
            } else {
                gate_spec(pre)
            },
            Outcome::Failure => fail_spec(pre, SessionFailure::Notification),
        },
        SessionPhase::ResolvingEditor => match ev {
            Outcome::Success => (
                Session { phase: SessionPhase::CreatingScratch, ts: Some(ts), ..pre },
                Action::CreateScratch { ts },
            ),
            Outcome::Failure => fail_spec(pre, SessionFailure::Capture(CaptureError::MissingEditor)),
        },
        SessionPhase::CreatingScratch => match ev {
            Outcome::Success => (Session { phase: SessionPhase::Editing, ..pre }, Action::RunEditor),
            Outcome::Failure => fail_spec(
                pre,
                SessionFailure::Capture(CaptureError::ScratchIoFailure),
            ),
        },
        SessionPhase::Editing => match ev {
            Outcome::Success => (
                Session { phase: SessionPhase::Archiving, ..pre },
                Action::ArchiveScratch { ts: pre.ts->Some_0 },
            ),
            // The scratch file is left behind for manual recovery: no removal
            // is requested on this path.
            Outcome::Failure => fail_spec(pre, SessionFailure::Capture(CaptureError::EditorFailure)),
        },
        SessionPhase::Archiving => match ev {
            Outcome::Success => (
                Session { phase: SessionPhase::Removing, ..pre },
                Action::RemoveScratch,
            ),
            Outcome::Failure => fail_spec(
                pre,
                SessionFailure::Capture(CaptureError::ArchiveIoFailure),
            ),
        },
        // Failing to remove the scratch file is non-fatal: the entry is
        // already archived, so either outcome reaches the pause gate.
        SessionPhase::Removing => gate_spec(pre),
        SessionPhase::Paused => (
            Session { phase: SessionPhase::Done, ..pre },
            Action::SessionDone { result: Ok(()) },
        ),
        SessionPhase::Done => (pre, Action::SessionDone { result: pre.result_of() }),
    }
}

/// The timestamp a session holds, if any.
pub open spec fn held_ts(s: Session) -> Timestamp
    recommends
        s.ts is Some,
{
    s.ts->Some_0
}

/// Begins a session: picks the duration for the kind and returns the machine
/// in its initial state.
pub fn start(kind: SessionKind, config: &Config) -> (s: Session)
    ensures
        s == session_init(kind, *config),
        s.wf(),
{
    let seconds: u64 = match kind {
        SessionKind::Work => config.work.0,
        SessionKind::ShortBreak => config.short_break.0,
        SessionKind::LongBreak => config.long_break.0,
    };
    Session {
        kind,
        seconds,
        auto_start_next: config.auto_start_next,
        phase: SessionPhase::Begin,
        ts: None,
        failure: None,
    }
}

impl Session {
    /// Advances the session by one transition: consumes the outcome of the
    /// previously requested action and returns the next one. Reads the clock
    /// exactly when the editor has just been resolved, so the header and the
    /// archive filename share one timestamp.
    pub fn step(&mut self, ev: Outcome) -> (a: Action)
        requires
            old(self).wf(),
        ensures
            final(self).wf(),
            (*final(self), a) == step_spec(*old(self), ev, held_ts(*final(self))),
    {
        match self.phase {
            SessionPhase::Begin => {
                self.phase = SessionPhase::Timing;
                Action::RunTimer { seconds: self.seconds, kind: self.kind }
            },
            SessionPhase::Timing => {
                self.phase = SessionPhase::Notifying;
                Action::Notify { kind: self.kind }
            },
            SessionPhase::Notifying => match ev {
                Outcome::Success => {
                    if self.kind == SessionKind::Work {
                        self.phase = SessionPhase::ResolvingEditor;
                        Action::ResolveEditor
                    } else {
                        self.gate()
                    }
                },
                Outcome::Failure => self.fail(SessionFailure::Notification),
            },
            SessionPhase::ResolvingEditor => match ev {
                Outcome::Success => {
                    let t = now_local();
                    self.ts = Some(t);
                    self.phase = SessionPhase::CreatingScratch;
                    Action::CreateScratch { ts: t }
                },
                Outcome::Failure => self.fail(
                    SessionFailure::Capture(CaptureError::MissingEditor),
                ),
            },
            SessionPhase::CreatingScratch => match ev {
                Outcome::Success => {
                    self.phase = SessionPhase::Editing;
                    Action::RunEditor
                },
                Outcome::Failure => self.fail(
                    SessionFailure::Capture(CaptureError::ScratchIoFailure),
                ),
            },
            SessionPhase::Editing => match ev {
                Outcome::Success => {
                    self.phase = SessionPhase::Archiving;
                    let t = self.ts.unwrap();
                    Action::ArchiveScratch { ts: t }
                },
                Outcome::Failure => self.fail(
                    SessionFailure::Capture(CaptureError::EditorFailure),
                ),
            },
            SessionPhase::Archiving => match ev {
                Outcome::Success => {
                    self.phase = SessionPhase::Removing;
                    Action::RemoveScratch
                },
                Outcome::Failure => self.fail(
                    SessionFailure::Capture(CaptureError::ArchiveIoFailure),
                ),
            },
            SessionPhase::Removing => self.gate(),
            SessionPhase::Paused => {
                self.phase = SessionPhase::Done;
                Action::SessionDone { result: Ok(()) }
            },
            SessionPhase::Done => {
                let result = match self.failure {
                    Some(e) => Err(e),
                    None => Ok(()),
                };
                Action::SessionDone { result }
            },
        }
    }

    /// Applies the pause gate.
    fn gate(&mut self) -> (a: Action)
        ensures
            (*final(self), a) == gate_spec(*old(self)),
    {
        if self.auto_start_next {
            self.phase = SessionPhase::Done;
            Action::SessionDone { result: Ok(()) }
        } else {
            self.phase = SessionPhase::Paused;
            Action::AwaitEnter
        }
    }

    /// Ends the session with a failure tagged with its kind.
    fn fail(&mut self, cause: SessionFailure) -> (a: Action)
        ensures
            (*final(self), a) == fail_spec(*old(self), cause),
    {
        let e = SessionError { kind: self.kind, cause };
        self.phase = SessionPhase::Done;
        self.failure = Some(e);
        Action::SessionDone { result: Err(e) }
    }
}

/// The machine requests the blocking acknowledgment read only when
/// auto-advance is off, and only from the pause gate on a successful path.
pub proof fn lemma_await_enter_only_when_manual(pre: Session, ev: Outcome, ts: Timestamp)
    requires
        pre.wf(),
    ensures
        step_spec(pre, ev, ts).1 == Action::AwaitEnter ==> !pre.auto_start_next,
        step_spec(pre, ev, ts).1 == Action::AwaitEnter ==> pre.failure is None,
{
}

/// When auto-advance is on, a session that succeeded finishes at once and
/// never waits for an acknowledgment.
pub proof fn lemma_auto_advance_never_pauses(pre: Session, ev: Outcome, ts: Timestamp)
    requires
        pre.auto_start_next,
    ensures
        step_spec(pre, ev, ts).1 != Action::AwaitEnter,
        step_spec(pre, ev, ts).0.phase != SessionPhase::Paused,
{
}

/// The scratch file is removed only right after a successful archive, so a
/// successful capture archives the entry before destroying the scratch copy,
/// and a failed capture never destroys it.
pub proof fn lemma_remove_only_after_archive(pre: Session, ev: Outcome, ts: Timestamp)
    ensures
        step_spec(pre, ev, ts).1 == Action::RemoveScratch ==> pre.phase == SessionPhase::Archiving
            && ev == Outcome::Success,
{
}

/// The archive filename and the scratch header share the timestamp observed
/// when capture began: the archive action carries the very timestamp the
/// scratch action carried.
pub proof fn lemma_archive_uses_capture_timestamp(pre: Session, ev: Outcome, ts: Timestamp)
    requires
        pre.wf(),
    ensures
        (step_spec(pre, ev, ts).1 matches Action::ArchiveScratch { ts: t } ==> Some(t) == pre.ts),
        (step_spec(pre, ev, ts).1 matches Action::CreateScratch { ts: t } ==> Some(t)
            == step_spec(pre, ev, ts).0.ts),
{
}

/// Only work sessions capture a journal entry: a break session never
/// requests an editor, a scratch file, an archive copy or a removal.
pub proof fn lemma_capture_only_in_work(pre: Session, ev: Outcome, ts: Timestamp)
    requires
        pre.wf(),
    ensures
        ({
            ||| step_spec(pre, ev, ts).1 == Action::ResolveEditor
            ||| step_spec(pre, ev, ts).1 matches Action::CreateScratch { .. }
            ||| step_spec(pre, ev, ts).1 == Action::RunEditor
            ||| step_spec(pre, ev, ts).1 matches Action::ArchiveScratch { .. }
            ||| step_spec(pre, ev, ts).1 == Action::RemoveScratch
        }) ==> pre.kind == SessionKind::Work,
{
}

/// A finished session stays finished and keeps reporting the same result.
pub proof fn lemma_done_is_terminal(pre: Session, ev: Outcome, ts: Timestamp)
    requires
        pre.phase == SessionPhase::Done,
    ensures
        step_spec(pre, ev, ts).0 == pre,
        step_spec(pre, ev, ts).1 == (Action::SessionDone { result: pre.result_of() }),
{
}

} // verus!
