//! Messages of a kernel session, and the loop that waits for a result.

use crate::environment::EnvironmentHandle;
use crate::launch::KernelHandle;
use vstd::prelude::*;

verus! {

/// Whether a kernel is at rest or at work.
#[derive(Clone, Copy, Debug, PartialEq, Eq, Structural)]
pub enum ExecutionState {
    Idle,
    Busy,
}

/// One rendering of a result.
#[derive(Debug, PartialEq, Eq)]
pub enum MediaItem {
    /// Plain text.
    Plain(String),
    /// Any other rendering.
    Other,
}

/// The mathematical value of a [`MediaItem`].
pub enum MediaItemView {
    Plain(Seq<char>),
    Other,
}

impl View for MediaItem {
    type V = MediaItemView;

    open spec fn view(&self) -> MediaItemView {
        match *self {
            MediaItem::Plain(text) => MediaItemView::Plain(text@),
            MediaItem::Other => MediaItemView::Other,
        }
    }
}

/// The mathematical values of a sequence of renderings.
pub open spec fn media_views(data: Seq<MediaItem>) -> Seq<MediaItemView> {
    data.map_values(|item: MediaItem| item@)
}

/// The mathematical values of a sequence of pairs of strings.
pub open spec fn pair_views(pairs: Seq<(String, String)>) -> Seq<(Seq<char>, Seq<char>)> {
    pairs.map_values(|pair: (String, String)| (pair.0@, pair.1@))
}

/// A request to run code.
#[derive(Debug, PartialEq, Eq)]
pub struct ExecuteRequest {
    pub code: String,
    pub silent: bool,
    pub store_history: bool,
    pub allow_stdin: bool,
    pub stop_on_error: bool,
    /// Named expressions to evaluate after the code, if any.
    pub user_expressions: Option<Vec<(String, String)>>,
}

/// The mathematical value of an [`ExecuteRequest`].
pub struct ExecuteRequestView {
    pub code: Seq<char>,
    pub silent: bool,
    pub store_history: bool,
    pub allow_stdin: bool,
    pub stop_on_error: bool,
    pub user_expressions: Option<Seq<(Seq<char>, Seq<char>)>>,
}

impl View for ExecuteRequest {
    type V = ExecuteRequestView;

    open spec fn view(&self) -> ExecuteRequestView {
        ExecuteRequestView {
            code: self.code@,
            silent: self.silent,
            store_history: self.store_history,
            allow_stdin: self.allow_stdin,
            stop_on_error: self.stop_on_error,
            user_expressions: match self.user_expressions {
                Some(pairs) => Some(pair_views(pairs@)),
                None => None,
            },
        }
    }
}

/// The request that runs a piece of code once and leaves no trace: nothing
/// is stored in the history, no input is asked for, an error stops nothing
/// further, the run is not silent, and no expression is evaluated after it.
pub open spec fn plain_request(code: Seq<char>) -> ExecuteRequestView {
    ExecuteRequestView {
        code,
        silent: false,
        store_history: false,
        allow_stdin: false,
        stop_on_error: false,
        user_expressions: None,
    }
}

impl ExecuteRequest {
    /// The request that runs a piece of code once and leaves no trace.
    pub fn for_code(code: &str) -> (request: ExecuteRequest)
        ensures
            request@ == plain_request(code@),
    {
        ExecuteRequest {
            code: code.to_owned(),
            silent: false,
            store_history: false,
            allow_stdin: false,
            stop_on_error: false,
            user_expressions: None,
        }
    }
}

/// A message of the session protocol, as far as the wait for a result reads
/// it.
#[derive(Debug, PartialEq, Eq)]
pub enum SessionMessage {
    ExecuteRequest(ExecuteRequest),
    ExecuteResult { data: Vec<MediaItem> },
    Status { execution_state: ExecutionState },
    /// A message of any other kind.
    Other,
}

/// The mathematical value of a [`SessionMessage`].
pub enum SessionMessageView {
    ExecuteRequest(ExecuteRequestView),
    ExecuteResult { data: Seq<MediaItemView> },
    Status { execution_state: ExecutionState },
    Other,
}

impl View for SessionMessage {
    type V = SessionMessageView;

    open spec fn view(&self) -> SessionMessageView {
        match *self {
            SessionMessage::ExecuteRequest(request) => SessionMessageView::ExecuteRequest(request@),
            SessionMessage::ExecuteResult { data } => SessionMessageView::ExecuteResult {
                data: media_views(data@),
            },
            SessionMessage::Status { execution_state } => SessionMessageView::Status {
                execution_state,
            },
            SessionMessage::Other => SessionMessageView::Other,
        }
    }
}

/// What the receiving half of a channel hands over at one read.
#[derive(Debug, PartialEq, Eq)]
pub enum Inbound {
    /// A message arrived.
    Message(SessionMessage),
    /// The read failed; the text says how.
    ReadError(String),
    /// The transport is closed: nothing more will arrive.
    Closed,
}

/// The mathematical value of an [`Inbound`].
pub enum InboundView {
    Message(SessionMessageView),
    ReadError(Seq<char>),
    Closed,
}

impl View for Inbound {
    type V = InboundView;

    open spec fn view(&self) -> InboundView {
        match *self {
            Inbound::Message(message) => InboundView::Message(message@),
            Inbound::ReadError(text) => InboundView::ReadError(text@),
            Inbound::Closed => InboundView::Closed,
        }
    }
}

/// The mathematical values of a sequence of reads.
pub open spec fn inbound_views(reads: Seq<Inbound>) -> Seq<InboundView> {
    reads.map_values(|read: Inbound| read@)
}

/// How the wait for a result ended.
#[derive(Debug, PartialEq, Eq)]
pub enum ReceiveDisposition {
    /// A result arrived; this is its text.
    Result(String),
    /// The transport closed before a result arrived.
    ChannelClosed,
    /// A read failed before a result arrived.
    ReadError(String),
}

/// The mathematical value of a [`ReceiveDisposition`].
pub enum ReceiveDispositionView {
    Result(Seq<char>),
    ChannelClosed,
    ReadError(Seq<char>),
}

impl View for ReceiveDisposition {
    type V = ReceiveDispositionView;

    open spec fn view(&self) -> ReceiveDispositionView {
        match *self {
            ReceiveDisposition::Result(text) => ReceiveDispositionView::Result(text@),
            ReceiveDisposition::ChannelClosed => ReceiveDispositionView::ChannelClosed,
            ReceiveDisposition::ReadError(text) => ReceiveDispositionView::ReadError(text@),
        }
    }
}

impl Clone for ReceiveDisposition {
    fn clone(&self) -> (copy: Self)
        ensures
            copy@ == self@,
    {
        match self {
            ReceiveDisposition::Result(text) => ReceiveDisposition::Result(text.clone()),
            ReceiveDisposition::ChannelClosed => ReceiveDisposition::ChannelClosed,
            ReceiveDisposition::ReadError(text) => ReceiveDisposition::ReadError(text.clone()),
        }
    }
}

/// What the wait does with one read.
#[derive(Debug, PartialEq, Eq)]
pub enum ReceiveStep {
    /// Nothing: read on.
    Continue,
    /// The kernel reported its state: read on.
    Progress(ExecutionState),
    /// The wait is over.
    Done(ReceiveDisposition),
}

/// The mathematical value of a [`ReceiveStep`].
pub enum ReceiveStepView {
    Continue,
    Progress(ExecutionState),
    Done(ReceiveDispositionView),
}

impl View for ReceiveStep {
    type V = ReceiveStepView;

    open spec fn view(&self) -> ReceiveStepView {
        match *self {
            ReceiveStep::Continue => ReceiveStepView::Continue,
            ReceiveStep::Progress(state) => ReceiveStepView::Progress(state),
            ReceiveStep::Done(disposition) => ReceiveStepView::Done(disposition@),
        }
    }
}

/// The text that stands for a result whose first rendering is not plain
/// text, or that has no rendering.
pub open spec fn unknown_media_text() -> Seq<char> {
    "\u{1F937} Unknown media type"@
}

/// The text of a result: its first rendering where that is plain text.
pub open spec fn result_text_of(data: Seq<MediaItemView>) -> Seq<char> {
    if data.len() > 0 && data[0] is Plain {
        data[0]->Plain_0
    } else {
        unknown_media_text()
    }
}

/// What the wait does with one read: a result ends it, and so do a failed
/// read and the closing of the transport; a status report is progress; any
/// other message is passed over.
pub open spec fn step_of(read: InboundView) -> ReceiveStepView {
    match read {
        InboundView::Message(SessionMessageView::ExecuteResult { data }) => ReceiveStepView::Done(
            ReceiveDispositionView::Result(result_text_of(data)),
        ),
        InboundView::Message(SessionMessageView::Status { execution_state }) => {
            ReceiveStepView::Progress(execution_state)
        },
        InboundView::Message(_) => ReceiveStepView::Continue,
        InboundView::ReadError(text) => ReceiveStepView::Done(
            ReceiveDispositionView::ReadError(text),
        ),
        InboundView::Closed => ReceiveStepView::Done(ReceiveDispositionView::ChannelClosed),
    }
}

/// How the wait ends on a run of reads: with what the first read that ends
/// it gives, and with a closed channel where none does.
pub open spec fn disposition_of(reads: Seq<InboundView>) -> ReceiveDispositionView
    decreases reads.len(),
{
    if reads.len() == 0 {
        ReceiveDispositionView::ChannelClosed
    } else {
        match step_of(reads[0]) {
            ReceiveStepView::Done(disposition) => disposition,
            _ => disposition_of(reads.drop_first()),
        }
    }
}

/// The text of a result: its first rendering where that is plain text, else
/// a text that says the rendering is unknown.
pub fn result_text(data: &Vec<MediaItem>) -> (text: String)
    ensures
        text@ == result_text_of(media_views(data@)),
{
    if data.len() > 0 {
        match &data[0] {
            MediaItem::Plain(text) => {
                return text.clone();
            },
            MediaItem::Other => {},
        }
    }
    String::from_str("\u{1F937} Unknown media type")
}

/// What the wait for a result does with one read.
pub fn receive_step(read: &Inbound) -> (step: ReceiveStep)
    ensures
        step@ == step_of(read@),
{
    match read {
        Inbound::Message(SessionMessage::ExecuteResult { data }) => ReceiveStep::Done(
            ReceiveDisposition::Result(result_text(data)),
        ),
        Inbound::Message(SessionMessage::Status { execution_state }) => ReceiveStep::Progress(
            *execution_state,
        ),
        Inbound::Message(_) => ReceiveStep::Continue,
        Inbound::ReadError(text) => ReceiveStep::Done(ReceiveDisposition::ReadError(text.clone())),
        Inbound::Closed => ReceiveStep::Done(ReceiveDisposition::ChannelClosed),
    }
}

/// Runs the wait for a result over reads that are all at hand, and says how
/// it ended.
pub fn receive_all(reads: &Vec<Inbound>) -> (disposition: ReceiveDisposition)
    ensures
        disposition@ == disposition_of(inbound_views(reads@)),
{
    let ghost views = inbound_views(reads@);
    let mut i: usize = 0;
    assert(views.skip(0) =~= views);
    while i < reads.len()
        invariant
            i <= reads.len(),
            views == inbound_views(reads@),
            disposition_of(views) == disposition_of(views.skip(i as int)),
        decreases reads.len() - i,
    {
        assert(views.skip(i as int)[0] == reads@[i as int]@);
        assert(views.skip(i as int).drop_first() =~= views.skip(i + 1));
        match receive_step(&reads[i]) {
            ReceiveStep::Done(disposition) => {
                return disposition;
            },
            _ => {},
        }
        i = i + 1;
    }
    ReceiveDisposition::ChannelClosed
}

/// What is needed to open the channel to a kernel: where the environment
/// is, which kernel is meant, and the credential.
#[derive(Debug, PartialEq, Eq)]
pub struct ChannelAddress {
    pub base_url: String,
    pub kernel_id: String,
    pub auth_token: String,
}

/// The mathematical value of a [`ChannelAddress`].
pub struct ChannelAddressView {
    pub base_url: Seq<char>,
    pub kernel_id: Seq<char>,
    pub auth_token: Seq<char>,
}

impl View for ChannelAddress {
    type V = ChannelAddressView;

    open spec fn view(&self) -> ChannelAddressView {
        ChannelAddressView {
            base_url: self.base_url@,
            kernel_id: self.kernel_id@,
            auth_token: self.auth_token@,
        }
    }
}

/// The address of the channel to a kernel of an environment.
pub fn channel_address(environment: &EnvironmentHandle, kernel: &KernelHandle) -> (address:
    ChannelAddress)
    ensures
        address@ == (ChannelAddressView {
            base_url: environment@.base_url,
            kernel_id: kernel@,
            auth_token: environment@.auth_token,
        }),
{
    ChannelAddress {
        base_url: environment.base_url().to_owned(),
        kernel_id: kernel.kernel_id().to_owned(),
        auth_token: environment.auth_token().to_owned(),
    }
}

/// Whether a read is one that the wait passes over or takes as progress.
pub open spec fn is_passed_over(read: InboundView) -> bool {
    !(step_of(read) is Done)
}

/// The wait on two runs of reads, one after the other, ends as it does on
/// the second alone where every read of the first is passed over.
pub proof fn lemma_passed_over_reads_change_nothing(first: Seq<InboundView>, second: Seq<InboundView>)
    requires
        forall|i: int| 0 <= i < first.len() ==> is_passed_over(#[trigger] first[i]),
    ensures
        disposition_of(first + second) == disposition_of(second),
    decreases first.len(),
{
    if first.len() == 0 {
        assert(first + second =~= second);
    } else {
        assert((first + second)[0] == first[0]);
        assert((first + second).drop_first() =~= first.drop_first() + second);
        assert forall|i: int| 0 <= i < first.drop_first().len() implies is_passed_over(
            #[trigger] first.drop_first()[i],
        ) by {
            assert(first.drop_first()[i] == first[i + 1]);
        }
        lemma_passed_over_reads_change_nothing(first.drop_first(), second);
    }
}

/// The wait ends with a result only where a result message was read, and the
/// result's text is that message's text.
pub proof fn lemma_result_comes_from_a_result_message(reads: Seq<InboundView>)
    requires
        disposition_of(reads) is Result,
    ensures
        exists|i: int|
            0 <= i < reads.len() && (#[trigger] reads[i]) is Message
                && reads[i]->Message_0 is ExecuteResult && disposition_of(reads)
                == ReceiveDispositionView::Result(result_text_of(reads[i]->Message_0->data)),
    decreases reads.len(),
{
    if reads.len() > 0 {
        if step_of(reads[0]) is Done {
            assert(reads[0] is Message && reads[0]->Message_0 is ExecuteResult);
        } else {
            let rest = reads.drop_first();
            lemma_result_comes_from_a_result_message(rest);
            let i = choose|i: int|
                0 <= i < rest.len() && (#[trigger] rest[i]) is Message
                    && rest[i]->Message_0 is ExecuteResult && disposition_of(rest)
                    == ReceiveDispositionView::Result(result_text_of(rest[i]->Message_0->data));
            assert(reads[i + 1] == rest[i]);
        }
    }
}

} // verus!
