//! The cycle scheduler: `long_break_interval` work/break pairs run strictly
//! in sequence, a short break after each intermediate work session and a
//! long break after the last, failing fast with the 1-based number of the
//! pair in which a session failed.

use vstd::prelude::*;
use crate::clock::Timestamp;
use crate::entities::{Config, SessionKind};
use crate::session::{
    held_ts, session_init, start, step_spec, Action, Outcome, Session, SessionError, SessionPhase,
};

verus! {

/// A session failure tagged with the 1-based number of the work/break pair
/// it happened in.
#[derive(Clone, Copy, Debug, PartialEq, Eq, Structural)]
pub struct SchedulerError {
    pub session_num: u8,
    pub error: SessionError,
}

/// What the driver is asked to do next at the cycle level.
#[derive(Clone, Copy, Debug, PartialEq, Eq)]
pub enum CycleAction {
    /// Perform this session action and feed the outcome back.
    Run(Action),
    /// Every pair completed; the run is over.
    Finished,
    /// Terminal: a session failed and the run stopped there.
    Failed { error: SchedulerError },
}

/// Whether the run is still going.
#[derive(Clone, Copy, Debug, PartialEq, Eq)]
pub enum CycleState {
    Running,
    Finished,
    Failed(SchedulerError),
}

/// The state of a whole run: the configuration, which pair and half-pair is
/// up, the session currently running, and whether the run has ended.
pub struct Cycle {
    pub config: Config,
    /// The 1-based number of the current work/break pair.
    pub session_num: u8,
    /// False while the pair's work session runs, true during its break.
    pub in_break: bool,
    pub session: Session,
    pub state: CycleState,
}

/// The kind of the `i`-th session (0-based) in a round of `n` pairs: work
/// sessions at even positions, a long break last, short breaks between.
pub open spec fn session_kind_at(i: int, n: int) -> SessionKind {
    if i % 2 == 0 {
        SessionKind::Work
    } else if i == 2 * n - 1 {
        SessionKind::LongBreak
    } else {
        SessionKind::ShortBreak
    }
}

/// The 0-based position in the round of the session a cycle state is in.
pub open spec fn session_index(c: Cycle) -> int {
    2 * (c.session_num - 1) + if c.in_break {
        1int
    } else {
        0int
    }
}

/// A fresh run: the first pair's work session, not yet started.
pub open spec fn cycle_init(config: Config) -> Cycle {
    Cycle {
        config,
        session_num: 1,
        in_break: false,
        session: session_init(SessionKind::Work, config),
        state: CycleState::Running,
    }
}

impl Cycle {
    /// A run state that can actually arise.
    pub open spec fn wf(self) -> bool {
        &&& self.config.valid()
        &&& 1 <= self.session_num <= self.config.long_break_interval
        &&& self.session.wf()
        &&& self.session.kind == session_kind_at(session_index(self), self.config.long_break_interval as int)
        &&& self.session.seconds == crate::session::duration_of(self.session.kind, self.config)
        &&& self.session.auto_start_next == self.config.auto_start_next
    }
}

/// The kind of the session that follows the one just finished, or `None` at
/// the end of the round.
pub open spec fn next_kind(c: Cycle) -> Option<SessionKind> {
    if !c.in_break {
        if c.session_num == c.config.long_break_interval {
            Some(SessionKind::LongBreak)
        } else {
            Some(SessionKind::ShortBreak)
        }
    } else if c.session_num == c.config.long_break_interval {
        None
    } else {
        Some(SessionKind::Work)
    }
}

/// Moving on after a session finished successfully: either the round is
/// over, or the next session begins and its countdown is requested at once.
pub open spec fn advance_spec(pre: Cycle) -> (Cycle, CycleAction) {
    match next_kind(pre) {
        None => (Cycle { state: CycleState::Finished, ..pre }, CycleAction::Finished),
        Some(kind) => {
            let fresh = session_init(kind, pre.config);
            let (s1, a1) = step_spec(fresh, Outcome::Success, held_ts(fresh));
            (
                Cycle {
                    session_num: if pre.in_break {
                        (pre.session_num + 1) as u8
                    } else {
                        pre.session_num
                    },
                    in_break: !pre.in_break,
                    session: s1,
                    ..pre
                },
                CycleAction::Run(a1),
            )
        },
    }
}

/// The transition relation of a run: terminal states absorb every event;
/// otherwise the current session takes the step, a success is followed by
/// the next session or the end of the round, and a failure ends the run
/// tagged with the current pair number.
pub open spec fn cycle_step_spec(pre: Cycle, ev: Outcome, ts: Timestamp) -> (Cycle, CycleAction) {
    match pre.state {
        CycleState::Finished => (pre, CycleAction::Finished),
        CycleState::Failed(e) => (pre, CycleAction::Failed { error: e }),
        CycleState::Running => {
            let (s2, a) = step_spec(pre.session, ev, ts);
            match a {
                Action::SessionDone { result } => match result {
                    Ok(()) => advance_spec(Cycle { session: s2, ..pre }),
                    Err(e) => {
                        let err = SchedulerError { session_num: pre.session_num, error: e };
                        (
                            Cycle { session: s2, state: CycleState::Failed(err), ..pre },
                            CycleAction::Failed { error: err },
                        )
                    },
                },
                _ => (Cycle { session: s2, ..pre }, CycleAction::Run(a)),
            }
        },
    }
}

impl Cycle {
    /// Begins a run under a validated configuration.
    pub fn new(config: Config) -> (c: Cycle)
        requires
            config.valid(),
        ensures
            c == cycle_init(config),
            c.wf(),
    {
        let session = start(SessionKind::Work, &config);
        Cycle { config, session_num: 1, in_break: false, session, state: CycleState::Running }
    }

    /// Advances the run by one transition: the outcome of the previously
    /// requested action goes in, the next request comes out.
    pub fn step(&mut self, ev: Outcome) -> (a: CycleAction)
        requires
            old(self).wf(),
        ensures
            final(self).wf(),
            (*final(self), a) == cycle_step_spec(*old(self), ev, held_ts(final(self).session)),
    {
        match self.state {
            CycleState::Finished => CycleAction::Finished,
            CycleState::Failed(e) => CycleAction::Failed { error: e },
            CycleState::Running => {
                let inner = self.session.step(ev);
                match inner {
                    Action::SessionDone { result } => match result {
                        Ok(()) => self.advance(),
                        Err(e) => {
                            let err = SchedulerError { session_num: self.session_num, error: e };
                            self.state = CycleState::Failed(err);
                            CycleAction::Failed { error: err }
                        },
                    },
                    _ => CycleAction::Run(inner),
                }
            },
        }
    }

    /// Moves on to the next session of the round, or ends the round.
    fn advance(&mut self) -> (a: CycleAction)
        requires
            old(self).wf(),
        ensures
            final(self).wf(),
            (*final(self), a) == advance_spec(*old(self)),
    {
        if !self.in_break {
            let kind = if self.session_num == self.config.long_break_interval {
                SessionKind::LongBreak
            } else {
                SessionKind::ShortBreak
            };
            let mut fresh = start(kind, &self.config);
            let first = fresh.step(Outcome::Success);
            self.session = fresh;
            self.in_break = true;
            CycleAction::Run(first)
        } else if self.session_num == self.config.long_break_interval {
            self.state = CycleState::Finished;
            CycleAction::Finished
        } else {
            let mut fresh = start(SessionKind::Work, &self.config);
            let first = fresh.step(Outcome::Success);
            self.session = fresh;
            self.in_break = false;
            self.session_num = self.session_num + 1;
            CycleAction::Run(first)
        }
    }
}

/// The session order of a round of `n` pairs: `2 * n` sessions, work at the
/// even positions, then a short break, except a long break at the very end.
pub fn session_sequence(n: u8) -> (r: Vec<SessionKind>)
    ensures
        r@.len() == 2 * n,
        forall|i: int| 0 <= i < 2 * n ==> (#[trigger] r@[i]) == session_kind_at(i, n as int),
{
    let total: usize = 2 * (n as usize);
    let mut r: Vec<SessionKind> = Vec::new();
    let mut i: usize = 0;
    while i < total
        invariant
            total == 2 * n,
            i <= total,
            r@.len() == i,
            forall|j: int| 0 <= j < i ==> (#[trigger] r@[j]) == session_kind_at(j, n as int),
        decreases total - i,
    {
        let kind = if i % 2 == 0 {
            SessionKind::Work
        } else if i == total - 1 {
            SessionKind::LongBreak
        } else {
            SessionKind::ShortBreak
        };
        r.push(kind);
        i = i + 1;
    }
    r
}

/// Every countdown a run requests belongs to the session the round's order
/// puts at that position, with the duration the configuration assigns it.
pub proof fn lemma_run_follows_schedule(pre: Cycle, ev: Outcome, ts: Timestamp)
    requires
        pre.wf(),
    ensures
        cycle_step_spec(pre, ev, ts).1 matches CycleAction::Run(Action::RunTimer { seconds, kind })
            ==> {
            let post = cycle_step_spec(pre, ev, ts).0;
            &&& kind == session_kind_at(session_index(post), pre.config.long_break_interval as int)
            &&& kind == post.session.kind
            &&& seconds == crate::session::duration_of(kind, pre.config)
        },
{
}

/// Countdowns walk the round in order: the first one belongs to position 0,
/// every later one to the position right after the previous session's, and
/// the round only finishes after its last session.
pub proof fn lemma_schedule_advances(pre: Cycle, ev: Outcome, ts: Timestamp)
    requires
        pre.wf(),
    ensures
        cycle_step_spec(pre, ev, ts).1 matches CycleAction::Run(Action::RunTimer { .. }) ==> {
            let post = cycle_step_spec(pre, ev, ts).0;
            ||| (pre.session.phase == SessionPhase::Begin && session_index(post) == session_index(
                pre,
            ))
            ||| session_index(post) == session_index(pre) + 1
        },
        cycle_init(pre.config).session.phase == SessionPhase::Begin && session_index(
            cycle_init(pre.config),
        ) == 0,
        cycle_step_spec(pre, ev, ts).1 == CycleAction::Finished && pre.state
            == CycleState::Running ==> session_index(pre) == 2 * pre.config.long_break_interval
            - 1,
{
}

/// The kinds of the countdowns a run requests under a sequence of outcomes,
/// in order of emission. The clock reading does not affect which countdowns
/// are requested, so a single timestamp stands for all of them.
pub open spec fn timers_of(c: Cycle, evs: Seq<Outcome>, ts: Timestamp) -> Seq<SessionKind>
    decreases evs.len(),
{
    if evs.len() == 0 {
        seq![]
    } else {
        let (c1, a) = cycle_step_spec(c, evs[0], ts);
        let rest = timers_of(c1, evs.drop_first(), ts);
        match a {
            CycleAction::Run(Action::RunTimer { kind, .. }) => seq![kind] + rest,
            _ => rest,
        }
    }
}

/// The position in the round of the next countdown a cycle state can
/// request: the current session's own position while its countdown has not
/// been requested yet, the following session's afterwards.
pub open spec fn next_timer_index(c: Cycle) -> int {
    if c.session.phase == SessionPhase::Begin {
        session_index(c)
    } else {
        session_index(c) + 1
    }
}

/// One transition keeps a run well formed (for any calendar-time clock
/// reading).
pub proof fn lemma_cycle_step_preserves_wf(pre: Cycle, ev: Outcome, ts: Timestamp)
    requires
        pre.wf(),
        ts.wf(),
    ensures
        cycle_step_spec(pre, ev, ts).0.wf(),
{
}

/// From any reachable state, the countdowns a run requests walk the round's
/// schedule in order, starting at the state's next position.
pub proof fn lemma_timers_follow_schedule(c: Cycle, evs: Seq<Outcome>, ts: Timestamp)
    requires
        c.wf(),
        ts.wf(),
    ensures
        forall|k: int|
            0 <= k < timers_of(c, evs, ts).len() ==> (#[trigger] timers_of(c, evs, ts)[k])
                == session_kind_at(
                next_timer_index(c) + k,
                c.config.long_break_interval as int,
            ),
    decreases evs.len(),
{
    if evs.len() > 0 {
        let (c1, a) = cycle_step_spec(c, evs[0], ts);
        let rest = timers_of(c1, evs.drop_first(), ts);
        lemma_cycle_step_preserves_wf(c, evs[0], ts);
        lemma_timers_follow_schedule(c1, evs.drop_first(), ts);
        match a {
            CycleAction::Run(Action::RunTimer { kind, .. }) => {
                assert(kind == session_kind_at(
                    next_timer_index(c),
                    c.config.long_break_interval as int,
                ));
                assert(next_timer_index(c1) == next_timer_index(c) + 1);
                assert forall|k: int| 0 <= k < timers_of(c, evs, ts).len() implies (
                #[trigger] timers_of(c, evs, ts)[k]) == session_kind_at(
                    next_timer_index(c) + k,
                    c.config.long_break_interval as int,
                ) by {
                    if k > 0 {
                        assert(timers_of(c, evs, ts)[k] == rest[k - 1]);
                    }
                }
            },
            _ => {
                assert(c1.state == CycleState::Running ==> next_timer_index(c1)
                    == next_timer_index(c));
                assert(c1.config == c.config);
            },
        }
    }
}

/// The session-ordering law of a whole run: whatever the outcomes, the
/// countdowns a fresh run requests follow `session_sequence` from its start,
/// work first, a long break last.
pub proof fn lemma_run_timers_in_schedule_order(config: Config, evs: Seq<Outcome>, ts: Timestamp)
    requires
        config.valid(),
        ts.wf(),
    ensures
        forall|k: int|
            0 <= k < timers_of(cycle_init(config), evs, ts).len() ==> (#[trigger] timers_of(
                cycle_init(config),
                evs,
                ts,
            )[k]) == session_kind_at(k, config.long_break_interval as int),
{
    lemma_timers_follow_schedule(cycle_init(config), evs, ts);
}

/// A failed run is over: the state no longer changes, the same tagged error
/// is reported on every further step, and no session action is ever
/// requested again.
pub proof fn lemma_failure_halts(pre: Cycle, ev: Outcome, ts: Timestamp)
    requires
        pre.state matches CycleState::Failed(..),
    ensures
        cycle_step_spec(pre, ev, ts).0 == pre,
        cycle_step_spec(pre, ev, ts).1 matches CycleAction::Failed { error } ==> pre.state
            == CycleState::Failed(error),
        !(cycle_step_spec(pre, ev, ts).1 matches CycleAction::Run(..)),
{
}

/// A failure is tagged with the pair in which it happened: when a running
/// cycle reports a failure, the tag is the pair number that was running, and
/// the run halts in that failed state.
pub proof fn lemma_failure_is_tagged(pre: Cycle, ev: Outcome, ts: Timestamp)
    requires
        pre.wf(),
        pre.state == CycleState::Running,
    ensures
        cycle_step_spec(pre, ev, ts).1 matches CycleAction::Failed { error } ==> {
            &&& error.session_num == pre.session_num
            &&& error.error.kind == pre.session.kind
            &&& cycle_step_spec(pre, ev, ts).0.state == CycleState::Failed(error)
        },
{
}

} // verus!
