//! The coordinator of one execution: from the build stream to the report.
//!
//! The coordinator does no network work. It is told what happened, decides
//! what is to be done next, and names that as an [`Action`]; whoever drives
//! it performs the action and comes back with the next [`Event`].

use crate::build_stream::line_reading;
use crate::environment::{EnvironmentHandle, EnvironmentView};
use crate::launch::{
    assembled_request, authorization_for, kernels_address, launch_body_json, launch_request,
    launch_result, read_launch_response, LaunchError, LaunchErrorView, LaunchRequest,
    LaunchRequestView,
};
use crate::phase::{PhaseEventView, PhaseKind};
use crate::session::{
    channel_address, plain_request, ChannelAddress, ChannelAddressView, ExecuteRequest,
    ExecuteRequestView, ReceiveDisposition, ReceiveDispositionView,
};
use crate::watch::{
    ends_build, BuildError, BuildErrorView, BuildSession, BuildSessionView, TransitionOutcome,
    TransitionView,
};
use vstd::prelude::*;

verus! {

/// Why an execution gave no result.
#[derive(Debug, PartialEq, Eq)]
pub enum ExecutionError {
    /// The build gave no environment.
    Build(BuildError),
    /// No kernel was launched.
    Launch(LaunchError),
    /// The network failed; the text says how.
    Transport(String),
    /// No result arrived before the deadline.
    Timeout,
}

/// The mathematical value of an [`ExecutionError`].
pub enum ExecutionErrorView {
    Build(BuildErrorView),
    Launch(LaunchErrorView),
    Transport(Seq<char>),
    Timeout,
}

impl View for ExecutionError {
    type V = ExecutionErrorView;

    open spec fn view(&self) -> ExecutionErrorView {
        match *self {
            ExecutionError::Build(e) => ExecutionErrorView::Build(e@),
            ExecutionError::Launch(e) => ExecutionErrorView::Launch(e@),
            ExecutionError::Transport(text) => ExecutionErrorView::Transport(text@),
            ExecutionError::Timeout => ExecutionErrorView::Timeout,
        }
    }
}

/// What an error says of itself, in words.
pub open spec fn description_of(e: ExecutionErrorView) -> Seq<char> {
    match e {
        ExecutionErrorView::Build(BuildErrorView::Failed(Some(reason))) => "build failed: "@
            + reason,
        ExecutionErrorView::Build(BuildErrorView::Failed(None)) => "build failed"@,
        ExecutionErrorView::Build(BuildErrorView::NotReady) => {
            "environment did not become ready"@
        },
        ExecutionErrorView::Launch(LaunchErrorView::Unencodable) => {
            "kernel launch request could not be written"@
        },
        ExecutionErrorView::Launch(LaunchErrorView::Rejected { status, body }) => {
            "kernel launch was rejected: "@ + body
        },
        ExecutionErrorView::Launch(LaunchErrorView::Undecodable { body }) => {
            "kernel launch answer could not be read: "@ + body
        },
        ExecutionErrorView::Transport(text) => "transport failed: "@ + text,
        ExecutionErrorView::Timeout => "timed out waiting for the result"@,
    }
}

impl ExecutionError {
    /// What the error says of itself, in words. A rejected launch says the
    /// whole body of the server's answer.
    pub fn describe(&self) -> (text: String)
        ensures
            text@ == description_of(self@),
    {
        match self {
            ExecutionError::Build(BuildError::Failed(Some(reason))) => String::from_str(
                "build failed: ",
            ).concat(reason.as_str()),
            ExecutionError::Build(BuildError::Failed(None)) => String::from_str("build failed"),
            ExecutionError::Build(BuildError::NotReady) => String::from_str(
                "environment did not become ready",
            ),
            ExecutionError::Launch(LaunchError::Unencodable) => String::from_str(
                "kernel launch request could not be written",
            ),
            ExecutionError::Launch(LaunchError::Rejected { status: _, body }) => String::from_str(
                "kernel launch was rejected: ",
            ).concat(body.as_str()),
            ExecutionError::Launch(LaunchError::Undecodable { body }) => String::from_str(
                "kernel launch answer could not be read: ",
            ).concat(body.as_str()),
            ExecutionError::Transport(text) => String::from_str("transport failed: ").concat(
                text.as_str(),
            ),
            ExecutionError::Timeout => String::from_str("timed out waiting for the result"),
        }
    }
}

/// What an execution gives: the text of the result, or why there is none.
pub type Outcome = Result<String, ExecutionError>;

/// The mathematical value of an [`Outcome`].
pub open spec fn outcome_view(outcome: Outcome) -> Result<Seq<char>, ExecutionErrorView> {
    match outcome {
        Ok(text) => Ok(text@),
        Err(e) => Err(e@),
    }
}

/// What happened since the last action.
#[derive(Debug, PartialEq, Eq)]
pub enum Event {
    /// A line of the build stream was read.
    BuildLine(String),
    /// The build stream ended.
    BuildStreamEnded,
    /// The server answered the launch request.
    LaunchResponded { status: u16, body: String },
    /// The channel to the kernel is open.
    ChannelOpened,
    /// The transport took the execution request.
    RequestSent,
    /// The wait for a result ended.
    ReceiveEnded(ReceiveDisposition),
    /// The deadline for the result passed.
    DeadlineElapsed,
    /// The channel is closed.
    ChannelClosed,
    /// The network work that was asked for failed; the text says how.
    TransportFailed(String),
}

impl Clone for Event {
    fn clone(&self) -> (copy: Self)
        ensures
            copy@ == self@,
    {
        match self {
            Event::BuildLine(line) => Event::BuildLine(line.clone()),
            Event::BuildStreamEnded => Event::BuildStreamEnded,
            Event::LaunchResponded { status, body } => Event::LaunchResponded {
                status: *status,
                body: body.clone(),
            },
            Event::ChannelOpened => Event::ChannelOpened,
            Event::RequestSent => Event::RequestSent,
            Event::ReceiveEnded(disposition) => Event::ReceiveEnded(disposition.clone()),
            Event::DeadlineElapsed => Event::DeadlineElapsed,
            Event::ChannelClosed => Event::ChannelClosed,
            Event::TransportFailed(text) => Event::TransportFailed(text.clone()),
        }
    }
}

/// The mathematical value of an [`Event`].
pub enum EventView {
    BuildLine(Seq<char>),
    BuildStreamEnded,
    LaunchResponded { status: u16, body: Seq<char> },
    ChannelOpened,
    RequestSent,
    ReceiveEnded(ReceiveDispositionView),
    DeadlineElapsed,
    ChannelClosed,
    TransportFailed(Seq<char>),
}

impl View for Event {
    type V = EventView;

    open spec fn view(&self) -> EventView {
        match *self {
            Event::BuildLine(line) => EventView::BuildLine(line@),
            Event::BuildStreamEnded => EventView::BuildStreamEnded,
            Event::LaunchResponded { status, body } => EventView::LaunchResponded {
                status,
                body: body@,
            },
            Event::ChannelOpened => EventView::ChannelOpened,
            Event::RequestSent => EventView::RequestSent,
            Event::ReceiveEnded(disposition) => EventView::ReceiveEnded(disposition@),
            Event::DeadlineElapsed => EventView::DeadlineElapsed,
            Event::ChannelClosed => EventView::ChannelClosed,
            Event::TransportFailed(text) => EventView::TransportFailed(text@),
        }
    }
}

/// What is to be done next.
#[derive(Debug, PartialEq, Eq)]
pub enum Action {
    /// Read the next line of the build stream.
    ReadBuildLine,
    /// Send the launch request and come back with the answer.
    PostLaunch(LaunchRequest),
    /// Open the channel to the kernel.
    OpenChannel(ChannelAddress),
    /// Start the wait for a result on the receiving half, and only then send
    /// the request on the sending half.
    StartReceivingAndSend(ExecuteRequest),
    /// Wait for the end of the wait for a result or for the deadline,
    /// whichever comes first.
    AwaitResult { deadline_millis: u64 },
    /// Go on waiting for the deadline.
    AwaitDeadline,
    /// Close the channel.
    CloseChannel,
    /// The execution is over: this is what it gave.
    Report(Outcome),
    /// The event does not belong here: nothing is to be done about it.
    Ignore,
}

/// The mathematical value of an [`Action`].
pub enum ActionView {
    ReadBuildLine,
    PostLaunch(LaunchRequestView),
    OpenChannel(ChannelAddressView),
    StartReceivingAndSend(ExecuteRequestView),
    AwaitResult { deadline_millis: u64 },
    AwaitDeadline,
    CloseChannel,
    Report(Result<Seq<char>, ExecutionErrorView>),
    Ignore,
}

impl View for Action {
    type V = ActionView;

    open spec fn view(&self) -> ActionView {
        match *self {
            Action::ReadBuildLine => ActionView::ReadBuildLine,
            Action::PostLaunch(request) => ActionView::PostLaunch(request@),
            Action::OpenChannel(address) => ActionView::OpenChannel(address@),
            Action::StartReceivingAndSend(request) => ActionView::StartReceivingAndSend(request@),
            Action::AwaitResult { deadline_millis } => ActionView::AwaitResult { deadline_millis },
            Action::AwaitDeadline => ActionView::AwaitDeadline,
            Action::CloseChannel => ActionView::CloseChannel,
            Action::Report(outcome) => ActionView::Report(outcome_view(outcome)),
            Action::Ignore => ActionView::Ignore,
        }
    }
}

/// Where an execution stands, without what it holds there.
#[derive(Clone, Copy, Debug, PartialEq, Eq, Structural)]
pub enum StageKind {
    WatchingBuild,
    Launching,
    Connecting,
    Sending,
    AwaitingResult,
    Closing,
    Finished,
}

/// Where an execution stands.
#[derive(Debug, PartialEq, Eq)]
pub enum Stage {
    /// The build stream is being read.
    WatchingBuild(BuildSession),
    /// The launch request is out; the environment is the one it went to.
    Launching(EnvironmentHandle),
    /// The channel is being opened.
    Connecting,
    /// The channel is open and the request is on its way.
    Sending,
    /// The request is out and its result is awaited.
    AwaitingResult,
    /// The channel is being closed; the outcome is what will be reported.
    Closing(Outcome),
    /// The outcome has been reported.
    Finished,
}

/// The mathematical value of a [`Stage`].
pub enum StageView {
    WatchingBuild(BuildSessionView),
    Launching(EnvironmentView),
    Connecting,
    Sending,
    AwaitingResult,
    Closing(Result<Seq<char>, ExecutionErrorView>),
    Finished,
}

impl StageView {
    /// The stage without what it holds.
    pub open spec fn kind(self) -> StageKind {
        match self {
            StageView::WatchingBuild(_) => StageKind::WatchingBuild,
            StageView::Launching(_) => StageKind::Launching,
            StageView::Connecting => StageKind::Connecting,
            StageView::Sending => StageKind::Sending,
            StageView::AwaitingResult => StageKind::AwaitingResult,
            StageView::Closing(_) => StageKind::Closing,
            StageView::Finished => StageKind::Finished,
        }
    }

    /// Whether the channel to the kernel is open at this stage.
    pub open spec fn channel_open(self) -> bool {
        self is Sending || self is AwaitingResult || self is Closing
    }

    /// How far along the stage is: no step ever leads to a lower number.
    pub open spec fn rank(self) -> nat {
        match self {
            StageView::WatchingBuild(_) => 0,
            StageView::Launching(_) => 1,
            StageView::Connecting => 2,
            StageView::Sending => 3,
            StageView::AwaitingResult => 4,
            StageView::Closing(_) => 5,
            StageView::Finished => 6,
        }
    }
}

impl View for Stage {
    type V = StageView;

    open spec fn view(&self) -> StageView {
        match *self {
            Stage::WatchingBuild(session) => StageView::WatchingBuild(session@),
            Stage::Launching(environment) => StageView::Launching(environment@),
            Stage::Connecting => StageView::Connecting,
            Stage::Sending => StageView::Sending,
            Stage::AwaitingResult => StageView::AwaitingResult,
            Stage::Closing(outcome) => StageView::Closing(outcome_view(outcome)),
            Stage::Finished => StageView::Finished,
        }
    }
}

/// The mathematical value of a [`Coordinator`].
pub struct CoordinatorView {
    /// The code to run.
    pub code: Seq<char>,
    /// The type of kernel to run it in.
    pub kernel_name: Seq<char>,
    /// How long to wait for the result, in milliseconds.
    pub deadline_millis: u64,
    /// Where the execution stands.
    pub stage: StageView,
}

impl CoordinatorView {
    /// The coordinator before any event: it watches a build that has
    /// reported nothing.
    pub open spec fn initial(
        code: Seq<char>,
        kernel_name: Seq<char>,
        deadline_millis: u64,
    ) -> CoordinatorView {
        CoordinatorView {
            code,
            kernel_name,
            deadline_millis,
            stage: StageView::WatchingBuild(BuildSessionView::initial()),
        }
    }

    /// The same execution at another stage.
    pub open spec fn at(self, stage: StageView) -> CoordinatorView {
        CoordinatorView { stage, ..self }
    }

    /// The execution ends here, with no channel open: the outcome is
    /// reported.
    pub open spec fn finish(self, outcome: Result<Seq<char>, ExecutionErrorView>) -> (
        CoordinatorView,
        ActionView,
    ) {
        (self.at(StageView::Finished), ActionView::Report(outcome))
    }

    /// The execution ends here, with the channel open: the channel is closed
    /// first, and the outcome is kept for the report.
    pub open spec fn close_with(self, outcome: Result<Seq<char>, ExecutionErrorView>) -> (
        CoordinatorView,
        ActionView,
    ) {
        (self.at(StageView::Closing(outcome)), ActionView::CloseChannel)
    }

    /// While the build is watched: a line is taken in, and readiness leads
    /// to the launch request; the end of the stream means that the
    /// environment never became ready.
    pub open spec fn while_watching(self, session: BuildSessionView, event: EventView) -> (
        CoordinatorView,
        ActionView,
    ) {
        match event {
            EventView::BuildLine(line) => {
                let (next, outcome) = session.accept_line(line);
                match outcome {
                    TransitionView::Continue => (
                        self.at(StageView::WatchingBuild(next)),
                        ActionView::ReadBuildLine,
                    ),
                    TransitionView::Success(environment) => match assembled_request(
                        environment.base_url,
                        environment.auth_token,
                        launch_body_json(self.kernel_name, None),
                    ) {
                        Ok(request) => (
                            self.at(StageView::Launching(environment)),
                            ActionView::PostLaunch(request),
                        ),
                        Err(e) => self.finish(Err(ExecutionErrorView::Launch(e))),
                    },
                    TransitionView::Failure(reason) => self.finish(
                        Err(ExecutionErrorView::Build(BuildErrorView::Failed(reason))),
                    ),
                }
            },
            EventView::BuildStreamEnded => self.finish(
                Err(ExecutionErrorView::Build(BuildErrorView::NotReady)),
            ),
            EventView::TransportFailed(text) => self.finish(
                Err(ExecutionErrorView::Transport(text)),
            ),
            _ => (self.at(StageView::WatchingBuild(session)), ActionView::Ignore),
        }
    }

    /// While the launch request is out: the answer gives the kernel, whose
    /// channel is opened next, or ends the execution.
    pub open spec fn while_launching(self, environment: EnvironmentView, event: EventView) -> (
        CoordinatorView,
        ActionView,
    ) {
        match event {
            EventView::LaunchResponded { status, body } => match launch_result(status, body) {
                Ok(kernel_id) => (
                    self.at(StageView::Connecting),
                    ActionView::OpenChannel(
                        ChannelAddressView {
                            base_url: environment.base_url,
                            kernel_id,
                            auth_token: environment.auth_token,
                        },
                    ),
                ),
                Err(e) => self.finish(Err(ExecutionErrorView::Launch(e))),
            },
            EventView::TransportFailed(text) => self.finish(
                Err(ExecutionErrorView::Transport(text)),
            ),
            _ => (self.at(StageView::Launching(environment)), ActionView::Ignore),
        }
    }

    /// While the channel is being opened: once it is open, the wait for a
    /// result starts and the one request goes out.
    pub open spec fn while_connecting(self, event: EventView) -> (CoordinatorView, ActionView) {
        match event {
            EventView::ChannelOpened => (
                self.at(StageView::Sending),
                ActionView::StartReceivingAndSend(plain_request(self.code)),
            ),
            EventView::TransportFailed(text) => self.finish(
                Err(ExecutionErrorView::Transport(text)),
            ),
            _ => (self.at(StageView::Connecting), ActionView::Ignore),
        }
    }

    /// While the request is on its way: once it is out, the result is
    /// awaited; a result that is already there ends the execution.
    pub open spec fn while_sending(self, event: EventView) -> (CoordinatorView, ActionView) {
        match event {
            EventView::RequestSent => (
                self.at(StageView::AwaitingResult),
                ActionView::AwaitResult { deadline_millis: self.deadline_millis },
            ),
            EventView::ReceiveEnded(ReceiveDispositionView::Result(text)) => self.close_with(
                Ok(text),
            ),
            EventView::TransportFailed(text) => self.close_with(
                Err(ExecutionErrorView::Transport(text)),
            ),
            _ => (self.at(StageView::Sending), ActionView::Ignore),
        }
    }

    /// While the result is awaited: a result ends the execution in success
    /// and the deadline ends it in a timeout; a wait that ended without a
    /// result leaves the deadline to come.
    pub open spec fn while_awaiting(self, event: EventView) -> (CoordinatorView, ActionView) {
        match event {
            EventView::ReceiveEnded(ReceiveDispositionView::Result(text)) => self.close_with(
                Ok(text),
            ),
            EventView::ReceiveEnded(_) => (self.at(StageView::AwaitingResult), ActionView::AwaitDeadline),
            EventView::DeadlineElapsed => self.close_with(Err(ExecutionErrorView::Timeout)),
            EventView::TransportFailed(text) => self.close_with(
                Err(ExecutionErrorView::Transport(text)),
            ),
            _ => (self.at(StageView::AwaitingResult), ActionView::Ignore),
        }
    }

    /// While the channel is being closed: once it is closed, the outcome
    /// that was kept is reported; a failure to close is reported in its
    /// place.
    pub open spec fn while_closing(
        self,
        outcome: Result<Seq<char>, ExecutionErrorView>,
        event: EventView,
    ) -> (CoordinatorView, ActionView) {
        match event {
            EventView::ChannelClosed => self.finish(outcome),
            EventView::TransportFailed(text) => self.finish(
                Err(ExecutionErrorView::Transport(text)),
            ),
            _ => (self.at(StageView::Closing(outcome)), ActionView::Ignore),
        }
    }

    /// The coordinator after an event, and what is to be done next.
    pub open spec fn step(self, event: EventView) -> (CoordinatorView, ActionView) {
        match self.stage {
            StageView::WatchingBuild(session) => self.while_watching(session, event),
            StageView::Launching(environment) => self.while_launching(environment, event),
            StageView::Connecting => self.while_connecting(event),
            StageView::Sending => self.while_sending(event),
            StageView::AwaitingResult => self.while_awaiting(event),
            StageView::Closing(outcome) => self.while_closing(outcome, event),
            StageView::Finished => (self, ActionView::Ignore),
        }
    }
}

/// The coordinator of one execution.
#[derive(Debug, PartialEq, Eq)]
pub struct Coordinator {
    code: String,
    kernel_name: String,
    deadline_millis: u64,
    stage: Stage,
}

impl View for Coordinator {
    type V = CoordinatorView;

    closed spec fn view(&self) -> CoordinatorView {
        CoordinatorView {
            code: self.code@,
            kernel_name: self.kernel_name@,
            deadline_millis: self.deadline_millis,
            stage: self.stage@,
        }
    }
}

impl Coordinator {
    /// A coordinator for running `code` in a kernel of type `kernel_name`,
    /// with `deadline_millis` milliseconds of patience for the result. Its
    /// driver starts by reading the build stream.
    pub fn new(code: &str, kernel_name: &str, deadline_millis: u64) -> (coordinator: Coordinator)
        ensures
            coordinator@ == CoordinatorView::initial(code@, kernel_name@, deadline_millis),
    {
        Coordinator {
            code: code.to_owned(),
            kernel_name: kernel_name.to_owned(),
            deadline_millis,
            stage: Stage::WatchingBuild(BuildSession::new()),
        }
    }

    /// Where the execution stands, with what it holds there.
    pub fn stage(&self) -> (stage: &Stage)
        ensures
            stage@ == self@.stage,
    {
        &self.stage
    }

    /// Where the execution stands.
    pub fn stage_kind(&self) -> (kind: StageKind)
        ensures
            kind == self@.stage.kind(),
    {
        match &self.stage {
            Stage::WatchingBuild(_) => StageKind::WatchingBuild,
            Stage::Launching(_) => StageKind::Launching,
            Stage::Connecting => StageKind::Connecting,
            Stage::Sending => StageKind::Sending,
            Stage::AwaitingResult => StageKind::AwaitingResult,
            Stage::Closing(_) => StageKind::Closing,
            Stage::Finished => StageKind::Finished,
        }
    }

    /// Whether the channel to the kernel is open.
    pub fn channel_open(&self) -> (open: bool)
        ensures
            open == self@.stage.channel_open(),
    {
        match &self.stage {
            Stage::Sending => true,
            Stage::AwaitingResult => true,
            Stage::Closing(_) => true,
            _ => false,
        }
    }

    /// The stage of the build that was reported last, while the build is
    /// watched.
    pub fn build_phase(&self) -> (phase: Option<PhaseKind>)
        ensures
            phase == match self@.stage {
                StageView::WatchingBuild(session) => session.current_phase,
                _ => None,
            },
    {
        match &self.stage {
            Stage::WatchingBuild(session) => session.current_phase(),
            _ => None,
        }
    }

    fn at(self, stage: Stage) -> (next: Coordinator)
        ensures
            next@ == self@.at(stage@),
    {
        Coordinator {
            code: self.code,
            kernel_name: self.kernel_name,
            deadline_millis: self.deadline_millis,
            stage,
        }
    }

    fn finish(self, outcome: Outcome) -> (next: (Coordinator, Action))
        ensures
            (next.0@, next.1@) == self@.finish(outcome_view(outcome)),
    {
        (self.at(Stage::Finished), Action::Report(outcome))
    }

    fn close_with(self, outcome: Outcome) -> (next: (Coordinator, Action))
        ensures
            (next.0@, next.1@) == self@.close_with(outcome_view(outcome)),
    {
        (self.at(Stage::Closing(outcome)), Action::CloseChannel)
    }

    fn while_watching(self, session: BuildSession, event: Event) -> (next: (Coordinator, Action))
        ensures
            (next.0@, next.1@) == self@.while_watching(session@, event@),
    {
        match event {
            Event::BuildLine(line) => {
                let mut session = session;
                match session.accept_line(line.as_str()) {
                    TransitionOutcome::Continue => (
                        self.at(Stage::WatchingBuild(session)),
                        Action::ReadBuildLine,
                    ),
                    TransitionOutcome::Success(environment) => {
                        match launch_request(&environment, self.kernel_name.as_str()) {
                            Ok(request) => (
                                self.at(Stage::Launching(environment)),
                                Action::PostLaunch(request),
                            ),
                            Err(e) => self.finish(Err(ExecutionError::Launch(e))),
                        }
                    },
                    TransitionOutcome::Failure(reason) => self.finish(
                        Err(ExecutionError::Build(BuildError::Failed(reason))),
                    ),
                }
            },
            Event::BuildStreamEnded => self.finish(Err(ExecutionError::Build(BuildError::NotReady))),
            Event::TransportFailed(text) => self.finish(Err(ExecutionError::Transport(text))),
            _ => (self.at(Stage::WatchingBuild(session)), Action::Ignore),
        }
    }

    fn while_launching(self, environment: EnvironmentHandle, event: Event) -> (next: (
        Coordinator,
        Action,
    ))
        ensures
            (next.0@, next.1@) == self@.while_launching(environment@, event@),
    {
        match event {
            Event::LaunchResponded { status, body } => match read_launch_response(status, body) {
                Ok(kernel) => (
                    self.at(Stage::Connecting),
                    Action::OpenChannel(channel_address(&environment, &kernel)),
                ),
                Err(e) => self.finish(Err(ExecutionError::Launch(e))),
            },
            Event::TransportFailed(text) => self.finish(Err(ExecutionError::Transport(text))),
            _ => (self.at(Stage::Launching(environment)), Action::Ignore),
        }
    }

    fn while_connecting(self, event: Event) -> (next: (Coordinator, Action))
        ensures
            (next.0@, next.1@) == self@.while_connecting(event@),
    {
        match event {
            Event::ChannelOpened => {
                let request = ExecuteRequest::for_code(self.code.as_str());
                (self.at(Stage::Sending), Action::StartReceivingAndSend(request))
            },
            Event::TransportFailed(text) => self.finish(Err(ExecutionError::Transport(text))),
            _ => (self.at(Stage::Connecting), Action::Ignore),
        }
    }

    fn while_sending(self, event: Event) -> (next: (Coordinator, Action))
        ensures
            (next.0@, next.1@) == self@.while_sending(event@),
    {
        match event {
            Event::RequestSent => {
                let deadline_millis = self.deadline_millis;
                (self.at(Stage::AwaitingResult), Action::AwaitResult { deadline_millis })
            },
            Event::ReceiveEnded(ReceiveDisposition::Result(text)) => self.close_with(Ok(text)),
            Event::TransportFailed(text) => self.close_with(Err(ExecutionError::Transport(text))),
            _ => (self.at(Stage::Sending), Action::Ignore),
        }
    }

    fn while_awaiting(self, event: Event) -> (next: (Coordinator, Action))
        ensures
            (next.0@, next.1@) == self@.while_awaiting(event@),
    {
        match event {
            Event::ReceiveEnded(ReceiveDisposition::Result(text)) => self.close_with(Ok(text)),
            Event::ReceiveEnded(_) => (self.at(Stage::AwaitingResult), Action::AwaitDeadline),
            Event::DeadlineElapsed => self.close_with(Err(ExecutionError::Timeout)),
            Event::TransportFailed(text) => self.close_with(Err(ExecutionError::Transport(text))),
            _ => (self.at(Stage::AwaitingResult), Action::Ignore),
        }
    }

    fn while_closing(self, outcome: Outcome, event: Event) -> (next: (Coordinator, Action))
        ensures
            (next.0@, next.1@) == self@.while_closing(outcome_view(outcome), event@),
    {
        match event {
            Event::ChannelClosed => self.finish(outcome),
            Event::TransportFailed(text) => self.finish(Err(ExecutionError::Transport(text))),
            _ => (self.at(Stage::Closing(outcome)), Action::Ignore),
        }
    }

    /// Takes in what happened and says what is to be done next.
    pub fn step(self, event: Event) -> (next: (Coordinator, Action))
        ensures
            (next.0@, next.1@) == self@.step(event@),
    {
        let Coordinator { code, kernel_name, deadline_millis, stage } = self;
        let rest = Coordinator { code, kernel_name, deadline_millis, stage: Stage::Finished };
        match stage {
            Stage::WatchingBuild(session) => rest.while_watching(session, event),
            Stage::Launching(environment) => rest.while_launching(environment, event),
            Stage::Connecting => rest.while_connecting(event),
            Stage::Sending => rest.while_sending(event),
            Stage::AwaitingResult => rest.while_awaiting(event),
            Stage::Closing(outcome) => rest.while_closing(outcome, event),
            Stage::Finished => (rest, Action::Ignore),
        }
    }
}

/// The mathematical values of a sequence of events.
pub open spec fn event_views(events: Seq<Event>) -> Seq<EventView> {
    events.map_values(|event: Event| event@)
}

/// The mathematical values of a sequence of actions.
pub open spec fn action_views(actions: Seq<Action>) -> Seq<ActionView> {
    actions.map_values(|action: Action| action@)
}

/// The coordinator after the first `count` events of a run.
pub open spec fn state_at(start: CoordinatorView, events: Seq<EventView>, count: nat) -> CoordinatorView
    decreases count,
{
    if count == 0 {
        start
    } else {
        state_at(start, events, (count - 1) as nat).step(events[count - 1]).0
    }
}

/// The action that answers the event at place `at` of a run.
pub open spec fn action_at(start: CoordinatorView, events: Seq<EventView>, at: int) -> ActionView {
    state_at(start, events, at as nat).step(events[at]).1
}

/// The actions that answer the events of a run, in order.
pub open spec fn actions_of(start: CoordinatorView, events: Seq<EventView>) -> Seq<ActionView> {
    Seq::new(events.len(), |at: int| action_at(start, events, at))
}

/// The events of reading the given lines from the build stream.
pub open spec fn build_lines(lines: Seq<Seq<char>>) -> Seq<EventView> {
    lines.map_values(|line: Seq<char>| EventView::BuildLine(line))
}

impl Coordinator {
    /// Replays a run of events that are all at hand: the coordinator after
    /// the last of them, and the action that answered each.
    pub fn run(self, events: &Vec<Event>) -> (end: (Coordinator, Vec<Action>))
        ensures
            end.0@ == state_at(self@, event_views(events@), events@.len()),
            action_views(end.1@) == actions_of(self@, event_views(events@)),
    {
        let ghost start = self@;
        let ghost views = event_views(events@);
        let mut coordinator = self;
        let mut actions: Vec<Action> = Vec::new();
        let mut i: usize = 0;
        while i < events.len()
            invariant
                i <= events.len(),
                views == event_views(events@),
                coordinator@ == state_at(start, views, i as nat),
                actions@.len() == i,
                forall|at: int|
                    0 <= at < i ==> (#[trigger] actions@[at])@ == action_at(start, views, at),
            decreases events.len() - i,
        {
            let (next, action) = coordinator.step(events[i].clone());
            coordinator = next;
            actions.push(action);
            i = i + 1;
        }
        assert(action_views(actions@) =~= actions_of(start, views));
        (coordinator, actions)
    }
}

/// No step moves the stage back, and no step changes what is to be run.
pub proof fn lemma_stage_never_moves_back(before: CoordinatorView, event: EventView)
    ensures
        before.step(event).0.stage.rank() >= before.stage.rank(),
        before.step(event).0.code == before.code,
        before.step(event).0.kernel_name == before.kernel_name,
        before.step(event).0.deadline_millis == before.deadline_millis,
{
}

/// An outcome is reported only while no channel is open, and the report
/// ends the execution: with the channel open, the report waits until the
/// channel is closed or has failed to close.
pub proof fn lemma_report_leaves_no_channel(before: CoordinatorView, event: EventView)
    requires
        before.step(event).1 is Report,
    ensures
        before.step(event).0.stage is Finished,
        !(before.stage is Sending),
        !(before.stage is AwaitingResult),
        before.stage is Closing ==> event is ChannelClosed || event is TransportFailed,
{
}

/// An execution ends only by reporting its outcome.
pub proof fn lemma_finishing_reports(before: CoordinatorView, event: EventView)
    requires
        !(before.stage is Finished),
        before.step(event).0.stage is Finished,
    ensures
        before.step(event).1 is Report,
{
}

/// Closing begins with the channel open and with the request to close it.
pub proof fn lemma_closing_begins_with_close(before: CoordinatorView, event: EventView)
    requires
        !(before.stage is Closing),
        before.step(event).0.stage is Closing,
    ensures
        before.stage is Sending || before.stage is AwaitingResult,
        before.step(event).1 is CloseChannel,
{
}

/// The request goes out only when the channel has just been opened, it
/// asks for the coordinator's code and nothing more, and the wait for its
/// result is started with it.
pub proof fn lemma_request_follows_opening(before: CoordinatorView, event: EventView)
    requires
        before.step(event).1 is StartReceivingAndSend,
    ensures
        before.stage is Connecting,
        event is ChannelOpened,
        before.step(event).0.stage is Sending,
        before.step(event).1 == ActionView::StartReceivingAndSend(plain_request(before.code)),
{
}

/// A kernel is asked for only when a line of the build stream has just
/// announced readiness, and the request goes to the announced address with
/// the announced credential.
pub proof fn lemma_launch_follows_readiness(before: CoordinatorView, event: EventView)
    requires
        before.step(event).1 is PostLaunch,
    ensures
        before.stage is WatchingBuild,
        event is BuildLine,
        line_reading(event->BuildLine_0) matches Some(Ok(PhaseEventView::Ready { url, token }))
            && before.step(event).1->PostLaunch_0.url == kernels_address(url) && before.step(
            event,
        ).1->PostLaunch_0.authorization == authorization_for(token) && before.step(event).0.stage
            == StageView::Launching(EnvironmentView { base_url: url, auth_token: token }),
{
}

/// Only the deadline makes a timeout, and only while the result is awaited.
pub proof fn lemma_timeout_comes_from_deadline(before: CoordinatorView, event: EventView)
    requires
        !(before.stage is Closing),
        before.step(event).0.stage == StageView::Closing(Err(ExecutionErrorView::Timeout)),
    ensures
        before.stage is AwaitingResult,
        event is DeadlineElapsed,
{
}

/// A success is never silent: the outcome that closing keeps is a success
/// only where the wait for a result ended with a result, whose text it is.
pub proof fn lemma_success_comes_from_result(
    before: CoordinatorView,
    event: EventView,
    text: Seq<char>,
)
    requires
        !(before.stage is Closing),
        before.step(event).0.stage == StageView::Closing(Ok(text)),
    ensures
        event == EventView::ReceiveEnded(ReceiveDispositionView::Result(text)),
{
}

/// A success is reported only after closing, and it is the success that
/// closing kept.
pub proof fn lemma_reported_success_was_kept(
    before: CoordinatorView,
    event: EventView,
    text: Seq<char>,
)
    requires
        before.step(event).1 == ActionView::Report(Ok(text)),
    ensures
        before.stage == StageView::Closing(Ok(text)),
        event is ChannelClosed,
{
}

/// While the build is watched, the end of the stream ends the execution
/// with the finding that the environment never became ready.
pub proof fn lemma_stream_end_is_not_ready(before: CoordinatorView)
    requires
        before.stage is WatchingBuild,
    ensures
        before.step(EventView::BuildStreamEnded) == before.finish(
            Err(ExecutionErrorView::Build(BuildErrorView::NotReady)),
        ),
{
}

/// The stage after more events of a run is no lower than after fewer.
pub proof fn lemma_rank_grows(
    start: CoordinatorView,
    events: Seq<EventView>,
    fewer: nat,
    more: nat,
)
    requires
        fewer <= more,
    ensures
        state_at(start, events, fewer).stage.rank() <= state_at(start, events, more).stage.rank(),
    decreases more - fewer,
{
    if fewer < more {
        lemma_rank_grows(start, events, fewer, (more - 1) as nat);
        lemma_stage_never_moves_back(
            state_at(start, events, (more - 1) as nat),
            events[more - 1],
        );
    }
}

/// Between a point of a run at which the channel is open and not being
/// closed, and a later point at which it is being closed, an event was
/// answered with the request to close.
pub proof fn lemma_close_was_asked(
    start: CoordinatorView,
    events: Seq<EventView>,
    open_at: nat,
    closing_at: nat,
)
    requires
        open_at <= closing_at <= events.len(),
        state_at(start, events, open_at).stage is Sending || state_at(
            start,
            events,
            open_at,
        ).stage is AwaitingResult,
        state_at(start, events, closing_at).stage is Closing,
    ensures
        exists|at: int|
            open_at <= at < closing_at && (#[trigger] action_at(start, events, at)) is CloseChannel,
    decreases closing_at - open_at,
{
    let before = state_at(start, events, (closing_at - 1) as nat);
    if before.stage is Closing {
        lemma_close_was_asked(start, events, open_at, (closing_at - 1) as nat);
    } else {
        lemma_closing_begins_with_close(before, events[closing_at - 1]);
        assert(action_at(start, events, closing_at - 1) is CloseChannel);
    }
}

/// In every run, a channel that was opened is closed before the outcome is
/// reported: between the action that sends the request and a later report
/// stands the request to close.
pub proof fn lemma_channel_is_closed_before_report(
    start: CoordinatorView,
    events: Seq<EventView>,
    sent_at: int,
    reported_at: int,
)
    requires
        0 <= sent_at < reported_at < events.len(),
        action_at(start, events, sent_at) is StartReceivingAndSend,
        action_at(start, events, reported_at) is Report,
    ensures
        exists|at: int|
            sent_at < at < reported_at && (#[trigger] action_at(start, events, at))
                is CloseChannel,
{
    let opened = state_at(start, events, (sent_at + 1) as nat);
    lemma_request_follows_opening(state_at(start, events, sent_at as nat), events[sent_at]);
    assert(opened.stage is Sending);
    let reporting = state_at(start, events, reported_at as nat);
    lemma_report_leaves_no_channel(reporting, events[reported_at]);
    lemma_rank_grows(start, events, (sent_at + 1) as nat, reported_at as nat);
    assert(reporting.stage is Closing);
    lemma_close_was_asked(start, events, (sent_at + 1) as nat, reported_at as nat);
}

/// In every run, the request goes out at most once.
pub proof fn lemma_request_goes_out_once(
    start: CoordinatorView,
    events: Seq<EventView>,
    first: int,
    second: int,
)
    requires
        0 <= first < second < events.len(),
        action_at(start, events, first) is StartReceivingAndSend,
    ensures
        !(action_at(start, events, second) is StartReceivingAndSend),
{
    lemma_request_follows_opening(state_at(start, events, first as nat), events[first]);
    lemma_rank_grows(start, events, (first + 1) as nat, second as nat);
    if action_at(start, events, second) is StartReceivingAndSend {
        lemma_request_follows_opening(state_at(start, events, second as nat), events[second]);
    }
}

/// In every run, nothing is sent once the channel has been asked to close.
pub proof fn lemma_no_send_after_close(
    start: CoordinatorView,
    events: Seq<EventView>,
    closed_at: int,
    later: int,
)
    requires
        0 <= closed_at < later < events.len(),
        action_at(start, events, closed_at) is CloseChannel,
    ensures
        !(action_at(start, events, later) is StartReceivingAndSend),
{
    assert(state_at(start, events, (closed_at + 1) as nat).stage is Closing);
    lemma_rank_grows(start, events, (closed_at + 1) as nat, later as nat);
    if action_at(start, events, later) is StartReceivingAndSend {
        lemma_request_follows_opening(state_at(start, events, later as nat), events[later]);
    }
}

/// In every run from the start, a build that is still watched has not
/// ended, and its session is consistent.
pub proof fn lemma_watched_build_has_not_ended(
    code: Seq<char>,
    kernel_name: Seq<char>,
    deadline_millis: u64,
    events: Seq<EventView>,
    count: nat,
)
    requires
        count <= events.len(),
    ensures
        state_at(
            CoordinatorView::initial(code, kernel_name, deadline_millis),
            events,
            count,
        ).stage matches StageView::WatchingBuild(session) ==> session.terminal_outcome is None
            && session.is_consistent(),
    decreases count,
{
    if count > 0 {
        lemma_watched_build_has_not_ended(
            code,
            kernel_name,
            deadline_millis,
            events,
            (count - 1) as nat,
        );
    }
}

/// In every run, an outcome is reported at most once.
pub proof fn lemma_one_report(
    start: CoordinatorView,
    events: Seq<EventView>,
    first: int,
    second: int,
)
    requires
        0 <= first < second < events.len(),
        action_at(start, events, first) is Report,
    ensures
        !(action_at(start, events, second) is Report),
{
    lemma_report_leaves_no_channel(state_at(start, events, first as nat), events[first]);
    lemma_rank_grows(start, events, (first + 1) as nat, second as nat);
}

/// A build stream whose lines hold neither `Ready` nor `Failed` leaves the
/// coordinator watching, and the end of the stream then ends the execution
/// with the finding that the environment never became ready.
pub proof fn lemma_silent_build_is_not_ready(
    code: Seq<char>,
    kernel_name: Seq<char>,
    deadline_millis: u64,
    lines: Seq<Seq<char>>,
)
    requires
        forall|i: int|
            0 <= i < lines.len() ==> !(line_reading(#[trigger] lines[i])
                matches Some(reading) && ends_build(reading)),
    ensures
        state_at(
            CoordinatorView::initial(code, kernel_name, deadline_millis),
            build_lines(lines),
            lines.len(),
        ).stage is WatchingBuild,
        state_at(
            CoordinatorView::initial(code, kernel_name, deadline_millis),
            build_lines(lines),
            lines.len(),
        ).step(EventView::BuildStreamEnded).1 == ActionView::Report(
            Err(ExecutionErrorView::Build(BuildErrorView::NotReady)),
        ),
    decreases lines.len(),
{
    let start = CoordinatorView::initial(code, kernel_name, deadline_millis);
    if lines.len() > 0 {
        let before = lines.drop_last();
        assert forall|i: int| 0 <= i < before.len() implies !(line_reading(
            #[trigger] before[i],
        ) matches Some(reading) && ends_build(reading)) by {
            assert(before[i] == lines[i]);
        }
        lemma_silent_build_is_not_ready(code, kernel_name, deadline_millis, before);
        lemma_state_at_prefix(start, build_lines(before), build_lines(lines), before.len());
        let last = lines[lines.len() - 1];
        assert(build_lines(lines)[lines.len() - 1] == EventView::BuildLine(last));
        assert(!(line_reading(last) matches Some(reading)
            && ends_build(reading)));
    }
}

/// Two runs that agree on their first `count` events lead to the same state
/// after them.
pub proof fn lemma_state_at_prefix(
    start: CoordinatorView,
    shorter: Seq<EventView>,
    longer: Seq<EventView>,
    count: nat,
)
    requires
        count <= shorter.len(),
        count <= longer.len(),
        forall|i: int| 0 <= i < count ==> shorter[i] == longer[i],
    ensures
        state_at(start, shorter, count) == state_at(start, longer, count),
    decreases count,
{
    if count > 0 {
        lemma_state_at_prefix(start, shorter, longer, (count - 1) as nat);
    }
}

} // verus!
