//! The store client: what it is asked, what it answers, and the decisions
//! between a command and the calls to the content-addressed store.

use vstd::prelude::*;

verus! {

/// What the store client is asked.
#[derive(Debug, Clone, PartialEq, Eq)]
pub enum IpfsCommand {
    /// Store `data`; `filename` names it for the record only.
    UploadData { filename: String, data: Vec<u8> },
    /// Fetch the archive at `hash` out of its tar wrapping.
    DownloadTar { hash: String },
    /// Fetch the bytes at `hash`.
    DownloadData { hash: String },
}

/// The mathematical content of an [`IpfsCommand`].
pub enum IpfsCommandView {
    UploadData { filename: Seq<char>, data: Seq<u8> },
    DownloadTar { hash: Seq<char> },
    DownloadData { hash: Seq<char> },
}

impl View for IpfsCommand {
    type V = IpfsCommandView;

    open spec fn view(&self) -> IpfsCommandView {
        match *self {
            IpfsCommand::UploadData { filename, data } => IpfsCommandView::UploadData {
                filename: filename@,
                data: data@,
            },
            IpfsCommand::DownloadTar { hash } => IpfsCommandView::DownloadTar { hash: hash@ },
            IpfsCommand::DownloadData { hash } => IpfsCommandView::DownloadData { hash: hash@ },
        }
    }
}

/// What the store client answers.
#[derive(Debug, Clone, PartialEq, Eq)]
pub enum IpfsReply {
    /// The name that the store gave the blob, and its content address.
    Uploaded { name: String, hash: String },
    Downloaded { data: Vec<u8> },
    /// The store could not be reached, or does not have the blob.
    Failed { reason: String },
}

/// The mathematical content of an [`IpfsReply`].
pub enum IpfsReplyView {
    Uploaded { name: Seq<char>, hash: Seq<char> },
    Downloaded { data: Seq<u8> },
    Failed { reason: Seq<char> },
}

impl View for IpfsReply {
    type V = IpfsReplyView;

    open spec fn view(&self) -> IpfsReplyView {
        match *self {
            IpfsReply::Uploaded { name, hash } => IpfsReplyView::Uploaded {
                name: name@,
                hash: hash@,
            },
            IpfsReply::Downloaded { data } => IpfsReplyView::Downloaded { data: data@ },
            IpfsReply::Failed { reason } => IpfsReplyView::Failed { reason: reason@ },
        }
    }
}

/// What the client needs the store to do for it.
#[derive(Debug, Clone, PartialEq, Eq)]
pub enum StoreRequest {
    Add { data: Vec<u8> },
    TarCat { hash: String },
    Cat { hash: String },
}

/// The mathematical content of a [`StoreRequest`].
pub enum StoreRequestView {
    Add { data: Seq<u8> },
    TarCat { hash: Seq<char> },
    Cat { hash: Seq<char> },
}

impl View for StoreRequest {
    type V = StoreRequestView;

    open spec fn view(&self) -> StoreRequestView {
        match *self {
            StoreRequest::Add { data } => StoreRequestView::Add { data: data@ },
            StoreRequest::TarCat { hash } => StoreRequestView::TarCat { hash: hash@ },
            StoreRequest::Cat { hash } => StoreRequestView::Cat { hash: hash@ },
        }
    }
}

/// The contents of a list of chunks.
pub open spec fn chunk_views(chunks: Seq<Vec<u8>>) -> Seq<Seq<u8>> {
    chunks.map_values(|c: Vec<u8>| c@)
}

/// How the store served a request.
#[derive(Debug, Clone, PartialEq, Eq)]
pub enum StoreResult {
    /// The blob is stored under this name and content address.
    Added { name: String, hash: String },
    /// The blob came back in these chunks, in this order.
    Chunks(Vec<Vec<u8>>),
    Failed(String),
}

/// The mathematical content of a [`StoreResult`].
pub enum StoreResultView {
    Added { name: Seq<char>, hash: Seq<char> },
    Chunks(Seq<Seq<u8>>),
    Failed(Seq<char>),
}

impl View for StoreResult {
    type V = StoreResultView;

    open spec fn view(&self) -> StoreResultView {
        match *self {
            StoreResult::Added { name, hash } => StoreResultView::Added {
                name: name@,
                hash: hash@,
            },
            StoreResult::Chunks(chunks) => StoreResultView::Chunks(chunk_views(chunks@)),
            StoreResult::Failed(reason) => StoreResultView::Failed(reason@),
        }
    }
}

/// What the client does with a command.
#[derive(Debug, Clone, PartialEq, Eq)]
pub enum StoreStep {
    /// It asks the store, and answers when the store's result is in.
    Ask(StoreRequest),
    /// It hands the command back untouched: the answer to an earlier
    /// command is still owed.
    Refused(IpfsCommand),
}

/// The mathematical content of a [`StoreStep`].
pub enum StoreStepView {
    Ask(StoreRequestView),
    Refused(IpfsCommandView),
}

impl View for StoreStep {
    type V = StoreStepView;

    open spec fn view(&self) -> StoreStepView {
        match *self {
            StoreStep::Ask(request) => StoreStepView::Ask(request@),
            StoreStep::Refused(command) => StoreStepView::Refused(command@),
        }
    }
}

/// What the store was asked and has not yet answered.
#[derive(Debug, Clone, Copy, PartialEq, Eq, Structural)]
pub enum StoreAsked {
    Nothing,
    Upload,
    Download,
}

/// The reply where the store's result is not one that the request allows.
pub open spec fn bad_result() -> Seq<char> {
    "the store gave an answer that was not asked for"@
}

/// What the client does with `command` while `asked` is outstanding, and
/// what is outstanding afterwards.
pub open spec fn command_step(asked: StoreAsked, command: IpfsCommandView) -> (
    StoreAsked,
    StoreStepView,
) {
    if asked != StoreAsked::Nothing {
        (asked, StoreStepView::Refused(command))
    } else {
        match command {
            IpfsCommandView::UploadData { filename, data } => (
                StoreAsked::Upload,
                StoreStepView::Ask(StoreRequestView::Add { data }),
            ),
            IpfsCommandView::DownloadTar { hash } => (
                StoreAsked::Download,
                StoreStepView::Ask(StoreRequestView::TarCat { hash }),
            ),
            IpfsCommandView::DownloadData { hash } => (
                StoreAsked::Download,
                StoreStepView::Ask(StoreRequestView::Cat { hash }),
            ),
        }
    }
}

/// The reply that is owed when the store's `result` is in: none where
/// nothing was asked. A download is answered with all its chunks put
/// together, in the order in which they came. A failure is reported with
/// the store's reason, and a result that the request does not allow with a
/// reason of the client's own.
pub open spec fn reply_for(asked: StoreAsked, result: StoreResultView) -> Option<IpfsReplyView> {
    match (asked, result) {
        (StoreAsked::Nothing, _) => None,
        (_, StoreResultView::Failed(reason)) => Some(IpfsReplyView::Failed { reason }),
        (StoreAsked::Upload, StoreResultView::Added { name, hash }) => Some(
            IpfsReplyView::Uploaded { name, hash },
        ),
        (StoreAsked::Download, StoreResultView::Chunks(chunks)) => Some(
            IpfsReplyView::Downloaded { data: chunks.flatten() },
        ),
        _ => Some(IpfsReplyView::Failed { reason: bad_result() }),
    }
}

/// Puts the chunks of a download together.
pub fn concat_chunks(chunks: &Vec<Vec<u8>>) -> (data: Vec<u8>)
    ensures
        data@ == chunk_views(chunks@).flatten(),
{
    let mut data: Vec<u8> = Vec::new();
    let mut i: usize = 0;
    assert(chunk_views(chunks@).take(0) == Seq::<Seq<u8>>::empty());
    while i < chunks.len()
        invariant
            i <= chunks.len(),
            data@ == chunk_views(chunks@).take(i as int).flatten(),
        decreases chunks.len() - i,
    {
        proof {
            let before = chunk_views(chunks@).take(i as int);
            before.lemma_flatten_push(chunks@[i as int]@);
            assert(chunk_views(chunks@).take(i + 1) == before.push(chunks@[i as int]@));
        }
        data.extend_from_slice(chunks[i].as_slice());
        i += 1;
    }
    assert(chunk_views(chunks@).take(chunks@.len() as int) == chunk_views(chunks@));
    data
}

/// The store client's side of the connection to the store.
#[derive(Debug, Clone, PartialEq, Eq)]
pub struct IpfsClient {
    pub asked: StoreAsked,
}

impl IpfsClient {
    /// A client that has asked nothing.
    pub fn new() -> (client: IpfsClient)
        ensures
            client.asked == StoreAsked::Nothing,
    {
        IpfsClient { asked: StoreAsked::Nothing }
    }

    /// Takes a command and says what to ask the store.
    pub fn process_command(&mut self, command: IpfsCommand) -> (step: StoreStep)
        ensures
            (final(self).asked, step@) == command_step(old(self).asked, command@),
    {
        match self.asked {
            StoreAsked::Nothing => {},
            _ => {
                return StoreStep::Refused(command);
            },
        }
        match command {
            IpfsCommand::UploadData { filename, data } => {
                self.asked = StoreAsked::Upload;
                StoreStep::Ask(StoreRequest::Add { data })
            },
            IpfsCommand::DownloadTar { hash } => {
                self.asked = StoreAsked::Download;
                StoreStep::Ask(StoreRequest::TarCat { hash })
            },
            IpfsCommand::DownloadData { hash } => {
                self.asked = StoreAsked::Download;
                StoreStep::Ask(StoreRequest::Cat { hash })
            },
        }
    }

    /// Takes the store's result for the request that is outstanding, and
    /// gives the reply that is owed for it. Nothing is outstanding
    /// afterwards.
    pub fn process_result(&mut self, result: StoreResult) -> (reply: Option<IpfsReply>)
        ensures
            final(self).asked == StoreAsked::Nothing,
            match reply {
                Some(r) => reply_for(old(self).asked, result@) == Some(r@),
                None => reply_for(old(self).asked, result@) is None,
            },
    {
        let asked = self.asked;
        self.asked = StoreAsked::Nothing;
        match (asked, result) {
            (StoreAsked::Nothing, _) => None,
            (_, StoreResult::Failed(reason)) => Some(IpfsReply::Failed { reason }),
            (StoreAsked::Upload, StoreResult::Added { name, hash }) => Some(
                IpfsReply::Uploaded { name, hash },
            ),
            (StoreAsked::Download, StoreResult::Chunks(chunks)) => Some(
                IpfsReply::Downloaded { data: concat_chunks(&chunks) },
            ),
            _ => Some(
                IpfsReply::Failed {
                    reason: String::from_str("the store gave an answer that was not asked for"),
                },
            ),
        }
    }
}

} // verus!
