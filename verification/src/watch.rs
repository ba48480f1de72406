//! The state machine that follows a build to its end.

use crate::build_stream::{
    is_noise, line_reading, read_events, read_line, reading_view, reading_views, readings_of,
    Reading,
};
use crate::environment::{EnvironmentHandle, EnvironmentView};
use crate::lines::lines_of;
use crate::phase::{clone_text, text_of, PhaseEvent, PhaseEventView, PhaseKind};
use vstd::prelude::*;

verus! {

/// What the state machine tells its caller about one event.
#[derive(Debug, PartialEq, Eq)]
pub enum TransitionOutcome {
    /// The build goes on: keep reading.
    Continue,
    /// The environment is ready: stop reading.
    Success(EnvironmentHandle),
    /// The build failed, with the service's message if it gave one: stop
    /// reading.
    Failure(Option<String>),
}

/// The mathematical value of a [`TransitionOutcome`].
pub enum TransitionView {
    Continue,
    Success(EnvironmentView),
    Failure(Option<Seq<char>>),
}

impl View for TransitionOutcome {
    type V = TransitionView;

    open spec fn view(&self) -> TransitionView {
        match *self {
            TransitionOutcome::Continue => TransitionView::Continue,
            TransitionOutcome::Success(environment) => TransitionView::Success(environment@),
            TransitionOutcome::Failure(message) => TransitionView::Failure(text_of(message)),
        }
    }
}

/// How a build ended.
#[derive(Debug, PartialEq, Eq)]
pub enum TerminalOutcome {
    Ready(EnvironmentHandle),
    Failed(Option<String>),
}

/// The mathematical value of a [`TerminalOutcome`].
pub enum TerminalView {
    Ready(EnvironmentView),
    Failed(Option<Seq<char>>),
}

impl View for TerminalOutcome {
    type V = TerminalView;

    open spec fn view(&self) -> TerminalView {
        match *self {
            TerminalOutcome::Ready(environment) => TerminalView::Ready(environment@),
            TerminalOutcome::Failed(message) => TerminalView::Failed(text_of(message)),
        }
    }
}

/// Why a build gave no environment.
#[derive(Debug, PartialEq, Eq)]
pub enum BuildError {
    /// The service reported a failure, with its message if it gave one.
    Failed(Option<String>),
    /// The stream ended before the service reported readiness or failure.
    NotReady,
}

/// The mathematical value of a [`BuildError`].
pub enum BuildErrorView {
    Failed(Option<Seq<char>>),
    NotReady,
}

impl View for BuildError {
    type V = BuildErrorView;

    open spec fn view(&self) -> BuildErrorView {
        match *self {
            BuildError::Failed(message) => BuildErrorView::Failed(text_of(message)),
            BuildError::NotReady => BuildErrorView::NotReady,
        }
    }
}

/// The mathematical value of what a build-watch gives.
pub open spec fn conclusion_view(r: Result<EnvironmentHandle, BuildError>) -> Result<
    EnvironmentView,
    BuildErrorView,
> {
    match r {
        Ok(environment) => Ok(environment@),
        Err(e) => Err(e@),
    }
}

/// The mathematical value of a [`BuildSession`].
pub struct BuildSessionView {
    /// The stage that the last accepted event reported.
    pub current_phase: Option<PhaseKind>,
    /// How the build ended, once it has.
    pub terminal_outcome: Option<TerminalView>,
}

impl BuildSessionView {
    /// The session before any event.
    pub open spec fn initial() -> BuildSessionView {
        BuildSessionView { current_phase: None, terminal_outcome: None }
    }

    /// Whether the stage last reported and the end of the build agree: a
    /// build that ended in readiness or failure last reported just that, and
    /// one that has not ended last reported neither.
    pub open spec fn is_consistent(self) -> bool {
        match self.terminal_outcome {
            Some(TerminalView::Ready(_)) => self.current_phase == Some(PhaseKind::Ready),
            Some(TerminalView::Failed(_)) => self.current_phase == Some(PhaseKind::Failed),
            None => self.current_phase != Some(PhaseKind::Ready) && self.current_phase != Some(
                PhaseKind::Failed,
            ),
        }
    }

    /// The session after an event, and what the caller is told.
    ///
    /// A session that has ended ignores every further event. `Ready` and
    /// `Failed` end it; any other event only records the stage reached.
    pub open spec fn accept(self, event: PhaseEventView) -> (BuildSessionView, TransitionView) {
        if self.terminal_outcome is Some {
            (self, TransitionView::Continue)
        } else {
            match event {
                PhaseEventView::Ready { url, token } => {
                    let environment = EnvironmentView { base_url: url, auth_token: token };
                    (
                        BuildSessionView {
                            current_phase: Some(PhaseKind::Ready),
                            terminal_outcome: Some(TerminalView::Ready(environment)),
                        },
                        TransitionView::Success(environment),
                    )
                },
                PhaseEventView::Failed { message } => (
                    BuildSessionView {
                        current_phase: Some(PhaseKind::Failed),
                        terminal_outcome: Some(TerminalView::Failed(message)),
                    },
                    TransitionView::Failure(message),
                ),
                _ => (
                    BuildSessionView {
                        current_phase: Some(event.kind()),
                        terminal_outcome: None,
                    },
                    TransitionView::Continue,
                ),
            }
        }
    }

    /// The session after a reading: a parse error changes nothing.
    pub open spec fn observe(self, reading: Result<PhaseEventView, Seq<char>>) -> (
        BuildSessionView,
        TransitionView,
    ) {
        match reading {
            Ok(event) => self.accept(event),
            Err(_) => (self, TransitionView::Continue),
        }
    }

    /// The session after a line of the stream: noise changes nothing.
    pub open spec fn accept_line(self, line: Seq<char>) -> (BuildSessionView, TransitionView) {
        match line_reading(line) {
            Some(reading) => self.observe(reading),
            None => (self, TransitionView::Continue),
        }
    }

    /// What the watch gives when the stream ends in this state.
    pub open spec fn conclusion(self) -> Result<EnvironmentView, BuildErrorView> {
        match self.terminal_outcome {
            Some(TerminalView::Ready(environment)) => Ok(environment),
            Some(TerminalView::Failed(message)) => Err(BuildErrorView::Failed(message)),
            None => Err(BuildErrorView::NotReady),
        }
    }
}

/// The progress of one build-watch: the stage last reported and, once the
/// build has ended, how.
#[derive(Debug, PartialEq, Eq)]
pub struct BuildSession {
    current_phase: Option<PhaseKind>,
    terminal_outcome: Option<TerminalOutcome>,
}

impl View for BuildSession {
    type V = BuildSessionView;

    closed spec fn view(&self) -> BuildSessionView {
        BuildSessionView {
            current_phase: self.current_phase,
            terminal_outcome: match self.terminal_outcome {
                Some(outcome) => Some(outcome@),
                None => None,
            },
        }
    }
}

impl BuildSession {
    #[verifier::type_invariant]
    closed spec fn consistent(self) -> bool {
        self@.is_consistent()
    }

    /// A session that has seen no event.
    pub fn new() -> (session: BuildSession)
        ensures
            session@ == BuildSessionView::initial(),
    {
        BuildSession { current_phase: None, terminal_outcome: None }
    }

    /// The stage that the last accepted event reported. It agrees with the
    /// end of the build, as in every session.
    pub fn current_phase(&self) -> (phase: Option<PhaseKind>)
        ensures
            phase == self@.current_phase,
            self@.is_consistent(),
    {
        proof {
            use_type_invariant(self);
        }
        self.current_phase
    }

    /// How the build ended, once it has.
    pub fn terminal_outcome(&self) -> (outcome: Option<&TerminalOutcome>)
        ensures
            match outcome {
                Some(ended) => self@.terminal_outcome == Some(ended@),
                None => self@.terminal_outcome is None,
            },
    {
        self.terminal_outcome.as_ref()
    }

    /// Whether the build has ended, so that reading may stop.
    pub fn is_terminated(&self) -> (ended: bool)
        ensures
            ended == self@.terminal_outcome is Some,
            self@.is_consistent(),
    {
        proof {
            use_type_invariant(self);
        }
        self.terminal_outcome.is_some()
    }

    /// Takes in one event and says whether the build goes on.
    pub fn accept(&mut self, event: PhaseEvent) -> (outcome: TransitionOutcome)
        ensures
            (final(self)@, outcome@) == old(self)@.accept(event@),
    {
        if self.terminal_outcome.is_some() {
            return TransitionOutcome::Continue;
        }
        match event {
            PhaseEvent::Ready { url, token } => {
                let found = EnvironmentHandle::from_event(PhaseEvent::Ready { url, token });
                let environment = found.unwrap();
                *self = BuildSession {
                    current_phase: Some(PhaseKind::Ready),
                    terminal_outcome: Some(TerminalOutcome::Ready(environment.clone())),
                };
                TransitionOutcome::Success(environment)
            },
            PhaseEvent::Failed { message } => {
                *self = BuildSession {
                    current_phase: Some(PhaseKind::Failed),
                    terminal_outcome: Some(TerminalOutcome::Failed(clone_text(&message))),
                };
                TransitionOutcome::Failure(message)
            },
            other => {
                *self = BuildSession { current_phase: Some(other.kind()), terminal_outcome: None };
                TransitionOutcome::Continue
            },
        }
    }

    /// Takes in one reading: an event is accepted, a parse error is passed
    /// over.
    pub fn observe(&mut self, reading: Reading) -> (outcome: TransitionOutcome)
        ensures
            (final(self)@, outcome@) == old(self)@.observe(reading_view(reading)),
    {
        match reading {
            Ok(event) => self.accept(event),
            Err(_) => TransitionOutcome::Continue,
        }
    }

    /// Takes in one line of the stream as it was read.
    pub fn accept_line(&mut self, line: &str) -> (outcome: TransitionOutcome)
        ensures
            (final(self)@, outcome@) == old(self)@.accept_line(line@),
    {
        match read_line(line) {
            Some(reading) => self.observe(reading),
            None => TransitionOutcome::Continue,
        }
    }

    /// What the watch gives once the stream has ended: the environment, the
    /// reported failure, or the finding that the build never ended.
    pub fn conclude(self) -> (result: Result<EnvironmentHandle, BuildError>)
        ensures
            conclusion_view(result) == self@.conclusion(),
    {
        match self.terminal_outcome {
            Some(TerminalOutcome::Ready(environment)) => Ok(environment),
            Some(TerminalOutcome::Failed(message)) => Err(BuildError::Failed(message)),
            None => Err(BuildError::NotReady),
        }
    }
}

/// The session after a run of readings, taken in order.
pub open spec fn session_after(
    start: BuildSessionView,
    readings: Seq<Result<PhaseEventView, Seq<char>>>,
) -> BuildSessionView
    decreases readings.len(),
{
    if readings.len() == 0 {
        start
    } else {
        session_after(start, readings.drop_last()).observe(readings.last()).0
    }
}

/// What the caller is told about the reading at place `at` of a run.
pub open spec fn outcome_at(
    start: BuildSessionView,
    readings: Seq<Result<PhaseEventView, Seq<char>>>,
    at: int,
) -> TransitionView {
    session_after(start, readings.take(at)).observe(readings[at]).1
}

/// Whether a reading holds an event that ends a build.
pub open spec fn ends_build(reading: Result<PhaseEventView, Seq<char>>) -> bool {
    match reading {
        Ok(event) => event.is_terminal(),
        Err(_) => false,
    }
}

/// Follows a build through readings that are all at hand: the environment
/// where the build ended in readiness, else why there is none.
pub fn watch_readings(readings: &Vec<Reading>) -> (result: Result<EnvironmentHandle, BuildError>)
    ensures
        conclusion_view(result) == session_after(
            BuildSessionView::initial(),
            reading_views(readings@),
        ).conclusion(),
{
    let ghost views = reading_views(readings@);
    let mut session = BuildSession::new();
    let mut i: usize = 0;
    assert(views.take(0) =~= Seq::empty());
    while i < readings.len() && !session.is_terminated()
        invariant
            i <= readings.len(),
            views == reading_views(readings@),
            session@ == session_after(BuildSessionView::initial(), views.take(i as int)),
        decreases readings.len() - i,
    {
        assert(views.take(i + 1).drop_last() =~= views.take(i as int));
        assert(views.take(i + 1).last() == reading_view(readings@[i as int]));
        match &readings[i] {
            Ok(event) => {
                session.accept(event.clone());
            },
            Err(_) => {},
        }
        i = i + 1;
    }
    proof {
        assert(views =~= views.take(i as int) + views.skip(i as int));
        lemma_session_after_concat(
            BuildSessionView::initial(),
            views.take(i as int),
            views.skip(i as int),
        );
        if i < readings.len() {
            lemma_ended_session_stays(session@, views.skip(i as int));
        } else {
            assert(views.skip(i as int) =~= Seq::empty());
        }
    }
    session.conclude()
}

/// Follows a build through the text of its stream: the environment where the
/// build ended in readiness, else why there is none.
pub fn watch_body(text: &str) -> (result: Result<EnvironmentHandle, BuildError>)
    ensures
        conclusion_view(result) == session_after(
            BuildSessionView::initial(),
            readings_of(lines_of(text@)),
        ).conclusion(),
{
    let readings = read_events(text);
    watch_readings(&readings)
}

/// Taking in two runs of readings one after the other is taking in the first
/// and then, from where that leads, the second.
pub proof fn lemma_session_after_concat(
    start: BuildSessionView,
    first: Seq<Result<PhaseEventView, Seq<char>>>,
    second: Seq<Result<PhaseEventView, Seq<char>>>,
)
    ensures
        session_after(start, first + second) == session_after(
            session_after(start, first),
            second,
        ),
    decreases second.len(),
{
    if second.len() == 0 {
        assert(first + second =~= first);
    } else {
        assert((first + second).drop_last() =~= first + second.drop_last());
        assert((first + second).last() == second.last());
        lemma_session_after_concat(start, first, second.drop_last());
    }
}

/// A session that has ended stays as it is, whatever is read after.
pub proof fn lemma_ended_session_stays(
    ended: BuildSessionView,
    readings: Seq<Result<PhaseEventView, Seq<char>>>,
)
    requires
        ended.terminal_outcome is Some,
    ensures
        session_after(ended, readings) == ended,
    decreases readings.len(),
{
    if readings.len() > 0 {
        lemma_ended_session_stays(ended, readings.drop_last());
    }
}

/// Every session that can come about is consistent: the first one is, and
/// taking in a reading keeps a session so.
pub proof fn lemma_consistency_is_kept(
    session: BuildSessionView,
    reading: Result<PhaseEventView, Seq<char>>,
)
    requires
        session.is_consistent(),
    ensures
        BuildSessionView::initial().is_consistent(),
        session.observe(reading).0.is_consistent(),
{
}

/// Noise never changes a session, and the caller is told to go on.
pub proof fn lemma_noise_leaves_session(session: BuildSessionView, line: Seq<char>)
    requires
        is_noise(line),
    ensures
        session.accept_line(line) == (session, TransitionView::Continue),
{
}

/// While a session has not ended, an event yields success exactly when it is
/// `Ready`, and the success carries that event's address and credential.
pub proof fn lemma_ready_yields_success(session: BuildSessionView, event: PhaseEventView)
    requires
        session.terminal_outcome is None,
    ensures
        session.accept(event).1 is Success <==> event is Ready,
        event is Ready ==> session.accept(event).1 == TransitionView::Success(
            EnvironmentView { base_url: event->url, auth_token: event->token },
        ),
        session.accept(event).1 is Failure <==> event is Failed,
{
}

/// A session tells of at most one end: once the caller has been told
/// anything but to go on, every later reading of the run is answered with
/// going on.
pub proof fn lemma_one_terminal_outcome(
    start: BuildSessionView,
    readings: Seq<Result<PhaseEventView, Seq<char>>>,
    earlier: int,
    later: int,
)
    requires
        0 <= earlier < later < readings.len(),
        !(outcome_at(start, readings, earlier) is Continue),
    ensures
        outcome_at(start, readings, later) is Continue,
{
    let told = readings.take(earlier + 1);
    assert(told.drop_last() =~= readings.take(earlier));
    assert(told.last() == readings[earlier]);
    let ended = session_after(start, told);
    assert(ended.terminal_outcome is Some);
    let between = readings.subrange(earlier + 1, later);
    assert(readings.take(later) =~= told + between);
    lemma_session_after_concat(start, told, between);
    lemma_ended_session_stays(ended, between);
}

/// A stream that holds neither `Ready` nor `Failed` leaves the watch without
/// an environment: the conclusion is that the build never became ready.
pub proof fn lemma_silent_stream_is_not_ready(readings: Seq<Result<PhaseEventView, Seq<char>>>)
    requires
        forall|i: int| 0 <= i < readings.len() ==> !ends_build(#[trigger] readings[i]),
    ensures
        session_after(BuildSessionView::initial(), readings).terminal_outcome is None,
        session_after(BuildSessionView::initial(), readings).conclusion() == Err::<
            EnvironmentView,
            BuildErrorView,
        >(BuildErrorView::NotReady),
    decreases readings.len(),
{
    if readings.len() > 0 {
        let before = readings.drop_last();
        assert forall|i: int| 0 <= i < before.len() implies !ends_build(#[trigger] before[i]) by {
            assert(before[i] == readings[i]);
        }
        lemma_silent_stream_is_not_ready(before);
        assert(!ends_build(readings[readings.len() - 1]));
    }
}

} // verus!
