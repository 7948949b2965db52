//! One check: attempts that follow one another until one of them gets an
//! answer or their number is used up.
//!
//! The check is a machine that is told what happened and says what to do
//! next. Whoever drives it sends the requests and does the waiting.

use crate::checker::{
    attempt_model, form_model, form_view, CheckOutcome, CheckOutcomeView, CheckerView, Progress,
    ProgressView, ProxyChecker, Reply,
};
use vstd::prelude::*;

verus! {

/// Where a check stands.
#[derive(Debug, Clone, Copy, PartialEq, Eq, Structural)]
pub enum Phase {
    /// Nothing has been asked for yet.
    Idle,
    /// An attempt is under way: the probe is out.
    Detecting,
    /// An attempt is under way: the login is out.
    LoggingIn,
    /// An attempt has failed and the next one waits for its time.
    Waiting,
    /// An attempt got its answer: the check is over.
    Succeeded,
    /// Every attempt failed: the check is over.
    Exhausted,
}

/// The state of a check.
#[derive(Debug, Clone, Copy, PartialEq, Eq, Structural)]
pub struct Cycle {
    /// Where the check stands.
    pub phase: Phase,
    /// How many attempts have been started.
    pub attempts: usize,
}

/// What a check is told.
pub enum Event {
    /// The check is to begin.
    Start,
    /// A request that the check asked for has come to its end.
    Reply(Reply),
    /// The wait that the check asked for is over.
    Woke,
}

/// What a check asks for.
#[derive(Debug, PartialEq, Eq)]
pub enum Action {
    /// Nothing new: the check was told something that it did not wait for,
    /// and still waits for what it asked for before.
    Pending,
    /// Send the probe to `url`, without following a redirection, and hand
    /// back the reply.
    Get { url: String },
    /// Send `form` to `url` and hand back the reply's status.
    Post { url: String, form: Vec<(String, String)> },
    /// Wait for `secs` seconds and say so.
    Sleep { secs: u64 },
    /// The check is over, with or without an answer.
    Finish { success: bool },
}

/// An [`Action`] as a mathematical value.
pub enum ActionView {
    Pending,
    Get { url: Seq<char> },
    Post { url: Seq<char>, form: Seq<(Seq<char>, Seq<char>)> },
    Sleep { secs: u64 },
    Finish { success: bool },
}

impl View for Action {
    type V = ActionView;

    open spec fn view(&self) -> ActionView {
        match self {
            Action::Pending => ActionView::Pending,
            Action::Get { url } => ActionView::Get { url: url@ },
            Action::Post { url, form } => ActionView::Post { url: url@, form: form_view(*form) },
            Action::Sleep { secs } => ActionView::Sleep { secs: *secs },
            Action::Finish { success } => ActionView::Finish { success: *success },
        }
    }
}

/// Something worth a line in the log.
#[derive(Debug, PartialEq, Eq)]
pub enum Note {
    /// An attempt begins.
    Checking,
    /// The proxy redirected the probe to this address.
    RedirectionFound(String),
    /// An attempt is over.
    Finished(CheckOutcome),
    /// The next attempt follows after this many seconds.
    SleepFor(u64),
}

/// A [`Note`] as a mathematical value.
pub enum NoteView {
    Checking,
    RedirectionFound(Seq<char>),
    Finished(CheckOutcomeView),
    SleepFor(u64),
}

impl View for Note {
    type V = NoteView;

    open spec fn view(&self) -> NoteView {
        match self {
            Note::Checking => NoteView::Checking,
            Note::RedirectionFound(location) => NoteView::RedirectionFound(location@),
            Note::Finished(outcome) => NoteView::Finished(outcome@),
            Note::SleepFor(secs) => NoteView::SleepFor(*secs),
        }
    }
}

/// How loudly a note is logged.
#[derive(Debug, Clone, Copy, PartialEq, Eq, Structural)]
pub enum Level {
    Info,
    Warn,
}

/// The level of a note: a failure and a redirection to nowhere are
/// warnings, all else is information.
pub open spec fn level_model(note: NoteView) -> Level {
    match note {
        NoteView::Finished(CheckOutcomeView::TransportError(_)) => Level::Warn,
        NoteView::Finished(CheckOutcomeView::RedirectedWithoutLocation) => Level::Warn,
        _ => Level::Info,
    }
}

impl Note {
    /// How loudly this note is logged.
    pub fn level(&self) -> (level: Level)
        ensures
            level == level_model(self@),
    {
        match self {
            Note::Finished(CheckOutcome::TransportError(_)) => Level::Warn,
            Note::Finished(CheckOutcome::RedirectedWithoutLocation) => Level::Warn,
            _ => Level::Info,
        }
    }
}

/// The notes of a step as mathematical values.
pub open spec fn notes_view(notes: Vec<Note>) -> Seq<NoteView> {
    notes@.map_values(|note: Note| note@)
}

/// What a check does on being told something.
pub struct Step {
    /// The state after the step.
    pub cycle: Cycle,
    /// What is to be done next.
    pub action: Action,
    /// What is to be logged, in this order.
    pub notes: Vec<Note>,
}

/// A [`Step`] as a mathematical value.
pub struct StepView {
    pub cycle: Cycle,
    pub action: ActionView,
    pub notes: Seq<NoteView>,
}

impl View for Step {
    type V = StepView;

    open spec fn view(&self) -> StepView {
        StepView { cycle: self.cycle, action: self.action@, notes: notes_view(self.notes) }
    }
}

/// The step that leaves everything as it is.
pub open spec fn pending_model(cycle: Cycle) -> StepView {
    StepView { cycle, action: ActionView::Pending, notes: seq![] }
}

/// The step that reports a check that is over.
pub open spec fn over_model(cycle: Cycle, success: bool) -> StepView {
    StepView { cycle, action: ActionView::Finish { success }, notes: seq![] }
}

/// The step that begins the next attempt after `made` of them: the probe
/// goes out if the checker's number of attempts allows one more, and
/// otherwise the check ends without an answer.
pub open spec fn begin_model(cfg: CheckerView, made: usize) -> StepView {
    if made < cfg.error_retry {
        StepView {
            cycle: Cycle { phase: Phase::Detecting, attempts: (made + 1) as usize },
            action: ActionView::Get { url: cfg.detect_url },
            notes: seq![NoteView::Checking],
        }
    } else {
        over_model(Cycle { phase: Phase::Exhausted, attempts: made }, false)
    }
}

/// The step that follows from where the attempt stands. A login that is
/// asked for goes out, with the checker's name and password. A failure is
/// followed by a wait and another attempt while the number of attempts
/// allows it, and ends the check without an answer when it does not. Any
/// other outcome ends the check with an answer.
pub open spec fn progress_model(cfg: CheckerView, cycle: Cycle, progress: ProgressView) -> StepView {
    match progress {
        ProgressView::Login(location) => StepView {
            cycle: Cycle { phase: Phase::LoggingIn, attempts: cycle.attempts },
            action: ActionView::Post { url: location, form: form_model(cfg.login, cfg.pass) },
            notes: seq![NoteView::RedirectionFound(location)],
        },
        ProgressView::Done(CheckOutcomeView::TransportError(failure)) => if cycle.attempts
            < cfg.error_retry {
            StepView {
                cycle: Cycle { phase: Phase::Waiting, attempts: cycle.attempts },
                action: ActionView::Sleep { secs: cfg.error_interval },
                notes: seq![
                    NoteView::Finished(CheckOutcomeView::TransportError(failure)),
                    NoteView::SleepFor(cfg.error_interval),
                ],
            }
        } else {
            StepView {
                cycle: Cycle { phase: Phase::Exhausted, attempts: cycle.attempts },
                action: ActionView::Finish { success: false },
                notes: seq![NoteView::Finished(CheckOutcomeView::TransportError(failure))],
            }
        },
        ProgressView::Done(outcome) => StepView {
            cycle: Cycle { phase: Phase::Succeeded, attempts: cycle.attempts },
            action: ActionView::Finish { success: true },
            notes: seq![NoteView::Finished(outcome)],
        },
    }
}

/// What a check does in state `cycle` on being told `event`.
///
/// Each phase waits for one thing: an idle check for its start, a check
/// whose probe is out for the probe's reply, one whose login is out for the
/// login's reply, and one that waits for the end of the wait. Told anything
/// else, the check stays as it is. A check that is over stays over and says
/// again how it ended.
pub open spec fn step_model(cfg: CheckerView, cycle: Cycle, event: Event) -> StepView {
    match cycle.phase {
        Phase::Idle => match event {
            Event::Start => begin_model(cfg, 0),
            _ => pending_model(cycle),
        },
        Phase::Detecting => match event {
            Event::Reply(Reply::Detect(probe)) => progress_model(
                cfg,
                cycle,
                attempt_model(Reply::Detect(probe)),
            ),
            _ => pending_model(cycle),
        },
        Phase::LoggingIn => match event {
            Event::Reply(Reply::Login(login)) => progress_model(
                cfg,
                cycle,
                attempt_model(Reply::Login(login)),
            ),
            _ => pending_model(cycle),
        },
        Phase::Waiting => match event {
            Event::Woke => begin_model(cfg, cycle.attempts),
            _ => pending_model(cycle),
        },
        Phase::Succeeded => over_model(cycle, true),
        Phase::Exhausted => over_model(cycle, false),
    }
}

impl Cycle {
    /// A check that has not begun.
    pub fn new() -> (cycle: Cycle)
        ensures
            cycle == (Cycle { phase: Phase::Idle, attempts: 0 }),
    {
        Cycle { phase: Phase::Idle, attempts: 0 }
    }

    /// Whether the check is over.
    pub fn is_over(&self) -> (over: bool)
        ensures
            over == (self.phase == Phase::Succeeded || self.phase == Phase::Exhausted),
    {
        match self.phase {
            Phase::Succeeded => true,
            Phase::Exhausted => true,
            _ => false,
        }
    }
}

fn pending(cycle: Cycle) -> (step: Step)
    ensures
        step@ == pending_model(cycle),
{
    let step = Step { cycle, action: Action::Pending, notes: Vec::new() };
    assert(notes_view(step.notes) =~= seq![]);
    step
}

fn over(cycle: Cycle, success: bool) -> (step: Step)
    ensures
        step@ == over_model(cycle, success),
{
    let step = Step { cycle, action: Action::Finish { success }, notes: Vec::new() };
    assert(notes_view(step.notes) =~= seq![]);
    step
}

impl<'a> ProxyChecker<'a> {
    fn begin(&self, made: usize) -> (step: Step)
        ensures
            step@ == begin_model(self@, made),
    {
        if made < self.error_retry() {
            let step = Step {
                cycle: Cycle { phase: Phase::Detecting, attempts: made + 1 },
                action: Action::Get { url: self.detect_url().to_owned() },
                notes: vec![Note::Checking],
            };
            assert(notes_view(step.notes) =~= seq![NoteView::Checking]);
            step
        } else {
            over(Cycle { phase: Phase::Exhausted, attempts: made }, false)
        }
    }

    fn advance(&self, cycle: Cycle, progress: Progress) -> (step: Step)
        ensures
            step@ == progress_model(self@, cycle, progress@),
    {
        match progress {
            Progress::Login(location) => {
                let step = Step {
                    cycle: Cycle { phase: Phase::LoggingIn, attempts: cycle.attempts },
                    action: Action::Post { url: location.clone(), form: self.login_form() },
                    notes: vec![Note::RedirectionFound(location)],
                };
                assert(notes_view(step.notes) =~= seq![NoteView::RedirectionFound(location@)]);
                step
            },
            Progress::Done(CheckOutcome::TransportError(failure)) => {
                let outcome = CheckOutcome::TransportError(failure);
                if cycle.attempts < self.error_retry() {
                    let secs = self.error_interval();
                    let step = Step {
                        cycle: Cycle { phase: Phase::Waiting, attempts: cycle.attempts },
                        action: Action::Sleep { secs },
                        notes: vec![Note::Finished(outcome), Note::SleepFor(secs)],
                    };
                    assert(notes_view(step.notes) =~= seq![
                        NoteView::Finished(outcome@),
                        NoteView::SleepFor(secs),
                    ]);
                    step
                } else {
                    let step = Step {
                        cycle: Cycle { phase: Phase::Exhausted, attempts: cycle.attempts },
                        action: Action::Finish { success: false },
                        notes: vec![Note::Finished(outcome)],
                    };
                    assert(notes_view(step.notes) =~= seq![NoteView::Finished(outcome@)]);
                    step
                }
            },
            Progress::Done(outcome) => {
                let step = Step {
                    cycle: Cycle { phase: Phase::Succeeded, attempts: cycle.attempts },
                    action: Action::Finish { success: true },
                    notes: vec![Note::Finished(outcome)],
                };
                assert(notes_view(step.notes) =~= seq![NoteView::Finished(outcome@)]);
                step
            },
        }
    }

    /// Takes a check one step further: told what happened, it says what is
    /// to be done next, what is to be logged, and where the check then
    /// stands.
    ///
    /// A check begins with its first attempt, if the checker allows any. An
    /// attempt that gets an answer ends the check, whether or not the proxy
    /// let the login through. An attempt that fails is followed by a wait and
    /// another attempt, until as many attempts have been made as the checker
    /// allows; the last failure ends the check at once.
    pub fn check_auth(&self, cycle: Cycle, event: Event) -> (step: Step)
        ensures
            step@ == step_model(self@, cycle, event),
    {
        match cycle.phase {
            Phase::Idle => match event {
                Event::Start => self.begin(0),
                _ => pending(cycle),
            },
            Phase::Detecting => match event {
                Event::Reply(Reply::Detect(probe)) => {
                    let progress = self.ensure_auth(Reply::Detect(probe));
                    self.advance(cycle, progress)
                },
                _ => pending(cycle),
            },
            Phase::LoggingIn => match event {
                Event::Reply(Reply::Login(login)) => {
                    let progress = self.ensure_auth(Reply::Login(login));
                    self.advance(cycle, progress)
                },
                _ => pending(cycle),
            },
            Phase::Waiting => match event {
                Event::Woke => self.begin(cycle.attempts),
                _ => pending(cycle),
            },
            Phase::Succeeded => over(cycle, true),
            Phase::Exhausted => over(cycle, false),
        }
    }
}

/// A step starts at most one attempt, and none beyond the number that the
/// checker allows.
pub proof fn lemma_attempts_stay_within_limit(cfg: CheckerView, cycle: Cycle, event: Event)
    requires
        cycle.attempts <= cfg.error_retry,
    ensures
        step_model(cfg, cycle, event).cycle.attempts <= cfg.error_retry,
        step_model(cfg, cycle, event).action is Get ==> cycle.phase != Phase::Idle ==> step_model(
            cfg,
            cycle,
            event,
        ).cycle.attempts == cycle.attempts + 1,
        !(step_model(cfg, cycle, event).action is Get) ==> cycle.phase != Phase::Idle
            ==> step_model(cfg, cycle, event).cycle.attempts == cycle.attempts,
{
}

/// Whether two checkers have the same settings but, possibly, for the
/// password.
pub open spec fn same_but_password(one: CheckerView, other: CheckerView) -> bool {
    &&& one.detect_url == other.detect_url
    &&& one.login == other.login
    &&& one.error_retry == other.error_retry
    &&& one.error_interval == other.error_interval
}

/// The password shows in nothing that is logged: two checkers that differ
/// in the password alone give, for the same state and event, the same notes
/// and the same next state, and the same action but for the password field
/// of a login form.
pub proof fn lemma_password_stays_out_of_notes(
    one: CheckerView,
    other: CheckerView,
    cycle: Cycle,
    event: Event,
)
    requires
        same_but_password(one, other),
    ensures
        step_model(one, cycle, event).notes == step_model(other, cycle, event).notes,
        step_model(one, cycle, event).cycle == step_model(other, cycle, event).cycle,
        match step_model(one, cycle, event).action {
            ActionView::Post { url, form } => form == form_model(one.login, one.pass) && step_model(
                other,
                cycle,
                event,
            ).action == (ActionView::Post { url, form: form_model(other.login, other.pass) }),
            action => step_model(other, cycle, event).action == action,
        },
{
}

} // verus!
