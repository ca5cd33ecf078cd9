//! The chain client: what it is asked, what it answers, and the decisions
//! between a command and the calls to the node that serve it.

use crate::text::{chars_of, string_of};
use vstd::prelude::*;
use vstd::utf8::encode_utf8;

verus! {

/// The address of an account or a program on the chain.
#[derive(Debug, Clone, Copy, PartialEq, Eq)]
pub struct ActorId {
    pub bytes: [u8; 32],
}

impl View for ActorId {
    type V = Seq<u8>;

    open spec fn view(&self) -> Seq<u8> {
        self.bytes@
    }
}

impl ActorId {
    /// The address of all zeros, which stands for nobody.
    pub fn zero() -> (id: ActorId)
        ensures
            id@ == Seq::new(32, |i: int| 0u8),
    {
        let id = ActorId { bytes: [0u8; 32] };
        assert(id@ =~= Seq::new(32, |i: int| 0u8));
        id
    }

    /// The address made of the 32 bytes of `bytes`.
    fn from_bytes(bytes: &Vec<u8>) -> (id: ActorId)
        requires
            bytes.len() == 32,
        ensures
            id@ == bytes@,
    {
        let mut out = [0u8; 32];
        let mut i: usize = 0;
        while i < 32
            invariant
                i <= 32,
                bytes.len() == 32,
                forall|k: int| 0 <= k < i ==> out@[k] == bytes@[k],
            decreases 32 - i,
        {
            out[i] = bytes[i];
            i += 1;
        }
        let id = ActorId { bytes: out };
        assert(id@ =~= bytes@);
        id
    }
}

/// The record on the chain that points at an archive in the store.
#[derive(Debug, Clone, PartialEq, Eq)]
pub struct ArchiveDescription {
    /// The name of the saved game's file.
    pub filename: String,
    /// The name that the store gave the archive.
    pub name: String,
    /// The store's address of the archive.
    pub hash: String,
}

/// The mathematical content of an [`ArchiveDescription`].
pub struct ArchiveDescriptionView {
    pub filename: Seq<char>,
    pub name: Seq<char>,
    pub hash: Seq<char>,
}

impl View for ArchiveDescription {
    type V = ArchiveDescriptionView;

    open spec fn view(&self) -> ArchiveDescriptionView {
        ArchiveDescriptionView { filename: self.filename@, name: self.name@, hash: self.hash@ }
    }
}

/// A saved game as the chain keeps it.
#[derive(Debug, Clone, PartialEq, Eq)]
pub struct GameState {
    pub saver_id: ActorId,
    pub archive: ArchiveDescription,
}

/// The mathematical content of a [`GameState`].
pub struct GameStateView {
    pub saver_id: Seq<u8>,
    pub archive: ArchiveDescriptionView,
}

impl View for GameState {
    type V = GameStateView;

    open spec fn view(&self) -> GameStateView {
        GameStateView { saver_id: self.saver_id@, archive: self.archive@ }
    }
}

/// What the program on the chain is asked to do.
#[derive(Debug, Clone, PartialEq, Eq)]
pub enum Action {
    Save(GameState),
    Load { hash: String },
}

/// The mathematical content of an [`Action`].
pub enum ActionView {
    Save(GameStateView),
    Load { hash: Seq<char> },
}

impl View for Action {
    type V = ActionView;

    open spec fn view(&self) -> ActionView {
        match *self {
            Action::Save(state) => ActionView::Save(state@),
            Action::Load { hash } => ActionView::Load { hash: hash@ },
        }
    }
}

/// What the program on the chain reports of an action.
#[derive(Debug, Clone, Copy, PartialEq, Eq, Structural)]
pub enum Event {
    Saved,
    Loaded,
}

/// Where the node listens.
#[derive(Debug, Clone, PartialEq, Eq)]
pub struct NodeAddress {
    pub url: String,
    pub port: u16,
}

/// The mathematical content of a [`NodeAddress`].
pub struct NodeAddressView {
    pub url: Seq<char>,
    pub port: u16,
}

impl View for NodeAddress {
    type V = NodeAddressView;

    open spec fn view(&self) -> NodeAddressView {
        NodeAddressView { url: self.url@, port: self.port }
    }
}

/// What the chain client is asked.
#[derive(Debug, Clone, PartialEq, Eq)]
pub enum GearCommand {
    ConnectToNode { address: NodeAddress, program_id: String, account_id: String, password: String },
    GetFreeBalance,
    SendAction(Action),
    GetSavedGames,
}

/// The mathematical content of a [`GearCommand`].
pub enum GearCommandView {
    ConnectToNode {
        address: NodeAddressView,
        program_id: Seq<char>,
        account_id: Seq<char>,
        password: Seq<char>,
    },
    GetFreeBalance,
    SendAction(ActionView),
    GetSavedGames,
}

impl View for GearCommand {
    type V = GearCommandView;

    open spec fn view(&self) -> GearCommandView {
        match *self {
            GearCommand::ConnectToNode {
                address,
                program_id,
                account_id,
                password,
            } => GearCommandView::ConnectToNode {
                address: address@,
                program_id: program_id@,
                account_id: account_id@,
                password: password@,
            },
            GearCommand::GetFreeBalance => GearCommandView::GetFreeBalance,
            GearCommand::SendAction(action) => GearCommandView::SendAction(action@),
            GearCommand::GetSavedGames => GearCommandView::GetSavedGames,
        }
    }
}

/// The contents of the saved games that the chain lists, each with its owner.
pub open spec fn saved_views(games: Seq<(ActorId, GameState)>) -> Seq<(Seq<u8>, GameStateView)> {
    games.map_values(|g: (ActorId, GameState)| (g.0@, g.1@))
}

/// What the chain client answers.
#[derive(Debug, Clone, PartialEq, Eq)]
pub enum GearReply {
    Connected,
    NotConnected(String),
    ProgramNotFound { program_id: String },
    Event(Event),
    FreeBalance(u128),
    SavedGames(Vec<(ActorId, GameState)>),
}

/// The mathematical content of a [`GearReply`].
pub enum GearReplyView {
    Connected,
    NotConnected(Seq<char>),
    ProgramNotFound { program_id: Seq<char> },
    Event(Event),
    FreeBalance(u128),
    SavedGames(Seq<(Seq<u8>, GameStateView)>),
}

impl View for GearReply {
    type V = GearReplyView;

    open spec fn view(&self) -> GearReplyView {
        match *self {
            GearReply::Connected => GearReplyView::Connected,
            GearReply::NotConnected(reason) => GearReplyView::NotConnected(reason@),
            GearReply::ProgramNotFound { program_id } => GearReplyView::ProgramNotFound {
                program_id: program_id@,
            },
            GearReply::Event(event) => GearReplyView::Event(event),
            GearReply::FreeBalance(balance) => GearReplyView::FreeBalance(balance),
            GearReply::SavedGames(games) => GearReplyView::SavedGames(saved_views(games@)),
        }
    }
}

/// What the client needs the node to do for it.
#[derive(Debug, Clone, PartialEq, Eq)]
pub enum NodeRequest {
    /// Open a connection with the credentials `suri`, and read the metadata
    /// hash of the program to see that it is there.
    Open { address: NodeAddress, suri: String, program_id: ActorId },
    /// Estimate the gas of the action and submit it as a transaction.
    Submit { program_id: ActorId, action: Action },
    /// Read the free balance of the account.
    ReadBalance,
    /// Read the saved games out of the program's state.
    ReadState { program_id: ActorId },
}

/// The mathematical content of a [`NodeRequest`].
pub enum NodeRequestView {
    Open { address: NodeAddressView, suri: Seq<char>, program_id: Seq<u8> },
    Submit { program_id: Seq<u8>, action: ActionView },
    ReadBalance,
    ReadState { program_id: Seq<u8> },
}

impl View for NodeRequest {
    type V = NodeRequestView;

    open spec fn view(&self) -> NodeRequestView {
        match *self {
            NodeRequest::Open { address, suri, program_id } => NodeRequestView::Open {
                address: address@,
                suri: suri@,
                program_id: program_id@,
            },
            NodeRequest::Submit { program_id, action } => NodeRequestView::Submit {
                program_id: program_id@,
                action: action@,
            },
            NodeRequest::ReadBalance => NodeRequestView::ReadBalance,
            NodeRequest::ReadState { program_id } => NodeRequestView::ReadState {
                program_id: program_id@,
            },
        }
    }
}

/// How the node served a request.
#[derive(Debug, Clone, PartialEq, Eq)]
pub enum NodeResult {
    /// The connection is open and the program is there.
    Opened,
    /// The connection is open, but the program's metadata cannot be read.
    ProgramMissing,
    /// The transaction was submitted.
    Accepted,
    Balance(u128),
    State(Vec<(ActorId, GameState)>),
    /// The node could not be reached, or refused.
    Failed(String),
}

/// The mathematical content of a [`NodeResult`].
pub enum NodeResultView {
    Opened,
    ProgramMissing,
    Accepted,
    Balance(u128),
    State(Seq<(Seq<u8>, GameStateView)>),
    Failed(Seq<char>),
}

impl View for NodeResult {
    type V = NodeResultView;

    open spec fn view(&self) -> NodeResultView {
        match *self {
            NodeResult::Opened => NodeResultView::Opened,
            NodeResult::ProgramMissing => NodeResultView::ProgramMissing,
            NodeResult::Accepted => NodeResultView::Accepted,
            NodeResult::Balance(balance) => NodeResultView::Balance(balance),
            NodeResult::State(games) => NodeResultView::State(saved_views(games@)),
            NodeResult::Failed(reason) => NodeResultView::Failed(reason@),
        }
    }
}

/// What the client does with a command.
#[derive(Debug, Clone, PartialEq, Eq)]
pub enum ChainStep {
    /// It answers at once.
    Reply(GearReply),
    /// It asks the node, and answers when the node's result is in.
    Ask(NodeRequest),
    /// It hands the command back untouched: the answer to an earlier
    /// command is still owed.
    Refused(GearCommand),
}

/// The mathematical content of a [`ChainStep`].
pub enum ChainStepView {
    Reply(GearReplyView),
    Ask(NodeRequestView),
    Refused(GearCommandView),
}

impl View for ChainStep {
    type V = ChainStepView;

    open spec fn view(&self) -> ChainStepView {
        match *self {
            ChainStep::Reply(reply) => ChainStepView::Reply(reply@),
            ChainStep::Ask(request) => ChainStepView::Ask(request@),
            ChainStep::Refused(command) => ChainStepView::Refused(command@),
        }
    }
}

/// What the node was asked and has not yet answered.
#[derive(Debug, Clone, Copy, PartialEq, Eq, Structural)]
pub enum Asked {
    Nothing,
    /// A transaction, which is to report this event.
    Submit(Event),
    Balance,
    SavedGames,
}

/// Where the client stands with the node.
#[derive(Debug, Clone, Copy, PartialEq, Eq)]
pub enum ChainState {
    Disconnected,
    Connecting { program_id: ActorId },
    Connected { program_id: ActorId, asked: Asked },
}

/// The mathematical content of a [`ChainState`].
pub enum ChainStateView {
    Disconnected,
    Connecting { program_id: Seq<u8> },
    Connected { program_id: Seq<u8>, asked: Asked },
}

impl View for ChainState {
    type V = ChainStateView;

    open spec fn view(&self) -> ChainStateView {
        match *self {
            ChainState::Disconnected => ChainStateView::Disconnected,
            ChainState::Connecting { program_id } => ChainStateView::Connecting {
                program_id: program_id@,
            },
            ChainState::Connected { program_id, asked } => ChainStateView::Connected {
                program_id: program_id@,
                asked,
            },
        }
    }
}

impl ChainStateView {
    /// Whether the node owes a result, and the client with it a reply.
    pub open spec fn owes_reply(self) -> bool {
        match self {
            ChainStateView::Disconnected => false,
            ChainStateView::Connecting { .. } => true,
            ChainStateView::Connected { asked, .. } => asked != Asked::Nothing,
        }
    }
}

/// The value of the hexadecimal digit that the byte `c` writes in ASCII.
pub open spec fn hex_digit(c: u8) -> Option<nat> {
    if 48 <= c <= 57 {
        Some((c - 48) as nat)
    } else if 97 <= c <= 102 {
        Some((c - 97 + 10) as nat)
    } else if 65 <= c <= 70 {
        Some((c - 65 + 10) as nat)
    } else {
        None
    }
}

/// Whether `text` is an even number of hexadecimal digits.
pub open spec fn is_hex(text: Seq<u8>) -> bool {
    text.len() % 2 == 0 && forall|i: int| 0 <= i < text.len() ==> hex_digit(#[trigger] text[i])
        is Some
}

/// The bytes that the hexadecimal digits `text` write, two digits a byte,
/// the upper half first.
pub open spec fn hex_bytes(text: Seq<u8>) -> Seq<u8> {
    Seq::new(
        text.len() / 2,
        |i: int| (hex_digit(text[2 * i])->0 * 16 + hex_digit(text[2 * i + 1])->0) as u8,
    )
}

/// The digit, in lower case, that writes the value `v` below 16.
pub open spec fn hex_char(v: nat) -> char {
    if v < 10 {
        (48 + v) as char
    } else {
        (97 + v - 10) as char
    }
}

/// The hexadecimal text of `bytes`: two digits a byte, lower case, the
/// upper half first.
pub open spec fn hex_text(bytes: Seq<u8>) -> Seq<char> {
    Seq::new(
        2 * bytes.len(),
        |i: int|
            if i % 2 == 0 {
                hex_char((bytes[i / 2] / 16) as nat)
            } else {
                hex_char((bytes[i / 2] % 16) as nat)
            },
    )
}

/// `hex::decode`: reads hexadecimal text into bytes. It gives the bytes
/// where the text is an even number of digits of either case, and an error,
/// which is dropped here, on any other text.
#[verifier::external_body]
fn hex_decode(text: &[u8]) -> (r: Option<Vec<u8>>)
    ensures
        match r {
            Some(bytes) => is_hex(text@) && bytes@ == hex_bytes(text@),
            None => !is_hex(text@),
        },
{
    hex::decode(text).ok()
}

/// `hex::encode`: writes bytes as hexadecimal text in lower case.
#[verifier::external_body]
fn hex_encode(bytes: &[u8]) -> (r: String)
    ensures
        r@ == hex_text(bytes@),
{
    hex::encode(bytes)
}

/// The program address that `text` writes: behind its first two characters,
/// which by custom are `0x`, the 64 hexadecimal digits of 32 bytes.
pub open spec fn program_id_of(text: Seq<char>) -> Option<Seq<u8>> {
    let digits = encode_utf8(text.skip(2));
    if text.len() >= 2 && is_hex(digits) && digits.len() == 64 {
        Some(hex_bytes(digits))
    } else {
        None
    }
}

/// Reads a program address.
pub fn parse_program_id(text: &str) -> (r: Option<ActorId>)
    ensures
        match r {
            Some(id) => program_id_of(text@) == Some(id@),
            None => program_id_of(text@) is None,
        },
{
    let chars = chars_of(text);
    if chars.len() < 2 {
        return None;
    }
    let tail = string_of(&chars, 2, chars.len());
    assert(tail@ == text@.skip(2));
    match hex_decode(tail.as_str().as_bytes()) {
        Some(bytes) => if bytes.len() == 32 {
            Some(ActorId::from_bytes(&bytes))
        } else {
            None
        },
        None => None,
    }
}

/// The credentials handed to the node: account and password, a colon between.
pub open spec fn suri_of(account_id: Seq<char>, password: Seq<char>) -> Seq<char> {
    account_id + ":"@ + password
}

/// The reply to a command that needs a connection where there is none.
pub open spec fn no_connection() -> Seq<char> {
    "not connected to the chain node"@
}

/// The reply to a connect command whose program address cannot be read.
pub open spec fn bad_program_id() -> Seq<char> {
    "the program id is not 32 bytes in hexadecimal"@
}

/// The reply where the node's result is not one that the request allows.
pub open spec fn bad_result() -> Seq<char> {
    "the chain node gave an answer that was not asked for"@
}

/// The event that a submitted action is taken to bring about.
pub open spec fn event_of(action: ActionView) -> Event {
    match action {
        ActionView::Save(_) => Event::Saved,
        ActionView::Load { .. } => Event::Loaded,
    }
}

/// What the client does with `command` in `state`, and where that leaves it.
///
/// While a reply is owed, every command is handed back. Otherwise: a
/// connect command is answered at once where the client is connected or the
/// program address cannot be read, and else opens a connection; every other
/// command is answered at once where the client is not connected, and else
/// is passed to the node.
pub open spec fn command_step(state: ChainStateView, command: GearCommandView) -> (
    ChainStateView,
    ChainStepView,
) {
    if state.owes_reply() {
        (state, ChainStepView::Refused(command))
    } else {
        match (state, command) {
            (
                ChainStateView::Disconnected,
                GearCommandView::ConnectToNode { address, program_id, account_id, password },
            ) => match program_id_of(program_id) {
                Some(id) => (
                    ChainStateView::Connecting { program_id: id },
                    ChainStepView::Ask(
                        NodeRequestView::Open {
                            address,
                            suri: suri_of(account_id, password),
                            program_id: id,
                        },
                    ),
                ),
                None => (
                    state,
                    ChainStepView::Reply(GearReplyView::NotConnected(bad_program_id())),
                ),
            },
            (_, GearCommandView::ConnectToNode { .. }) => (
                state,
                ChainStepView::Reply(GearReplyView::Connected),
            ),
            (ChainStateView::Connected { program_id, .. }, GearCommandView::SendAction(action)) => (
                ChainStateView::Connected { program_id, asked: Asked::Submit(event_of(action)) },
                ChainStepView::Ask(NodeRequestView::Submit { program_id, action }),
            ),
            (ChainStateView::Connected { program_id, .. }, GearCommandView::GetFreeBalance) => (
                ChainStateView::Connected { program_id, asked: Asked::Balance },
                ChainStepView::Ask(NodeRequestView::ReadBalance),
            ),
            (ChainStateView::Connected { program_id, .. }, GearCommandView::GetSavedGames) => (
                ChainStateView::Connected { program_id, asked: Asked::SavedGames },
                ChainStepView::Ask(NodeRequestView::ReadState { program_id }),
            ),
            _ => (state, ChainStepView::Reply(GearReplyView::NotConnected(no_connection()))),
        }
    }
}

/// What the client answers when the node's `result` is in, and where that
/// leaves it. Nothing is answered where nothing was asked; a failure then
/// still ends the connection.
///
/// A result that fits the request gives its reply. A failure ends the
/// connection and is reported with the node's reason, and so is any result
/// that the request does not allow, with a reason of the client's own.
pub open spec fn result_step(state: ChainStateView, result: NodeResultView) -> (
    ChainStateView,
    Option<GearReplyView>,
) {
    if !state.owes_reply() {
        match result {
            NodeResultView::Failed(_) => (ChainStateView::Disconnected, None),
            _ => (state, None),
        }
    } else {
        match (state, result) {
            (_, NodeResultView::Failed(reason)) => (
                ChainStateView::Disconnected,
                Some(GearReplyView::NotConnected(reason)),
            ),
            (ChainStateView::Connecting { program_id }, NodeResultView::Opened) => (
                ChainStateView::Connected { program_id, asked: Asked::Nothing },
                Some(GearReplyView::Connected),
            ),
            (ChainStateView::Connecting { program_id }, NodeResultView::ProgramMissing) => (
                ChainStateView::Disconnected,
                Some(GearReplyView::ProgramNotFound { program_id: hex_text(program_id) }),
            ),
            (
                ChainStateView::Connected { program_id, asked: Asked::Submit(event) },
                NodeResultView::Accepted,
            ) => (
                ChainStateView::Connected { program_id, asked: Asked::Nothing },
                Some(GearReplyView::Event(event)),
            ),
            (
                ChainStateView::Connected { program_id, asked: Asked::Balance },
                NodeResultView::Balance(balance),
            ) => (
                ChainStateView::Connected { program_id, asked: Asked::Nothing },
                Some(GearReplyView::FreeBalance(balance)),
            ),
            (
                ChainStateView::Connected { program_id, asked: Asked::SavedGames },
                NodeResultView::State(games),
            ) => (
                ChainStateView::Connected { program_id, asked: Asked::Nothing },
                Some(GearReplyView::SavedGames(games)),
            ),
            _ => (ChainStateView::Disconnected, Some(GearReplyView::NotConnected(bad_result()))),
        }
    }
}

/// The chain client's side of the connection to the node.
#[derive(Debug, Clone, PartialEq, Eq)]
pub struct GearClient {
    pub state: ChainState,
}

impl View for GearClient {
    type V = ChainStateView;

    open spec fn view(&self) -> ChainStateView {
        self.state@
    }
}

fn text(literal: &str) -> (s: String)
    ensures
        s@ == literal@,
{
    String::from_str(literal)
}

fn suri(account_id: &String, password: &String) -> (s: String)
    ensures
        s@ == suri_of(account_id@, password@),
{
    let mut s = String::new();
    s.append(account_id.as_str());
    s.append(":");
    s.append(password.as_str());
    assert(s@ == suri_of(account_id@, password@));
    s
}

impl GearClient {
    /// A client that is not connected.
    pub fn new() -> (client: GearClient)
        ensures
            client@ == ChainStateView::Disconnected,
    {
        GearClient { state: ChainState::Disconnected }
    }

    /// Whether the answer to an earlier command is still owed.
    pub fn owes_reply(&self) -> (b: bool)
        ensures
            b == self@.owes_reply(),
    {
        match self.state {
            ChainState::Disconnected => false,
            ChainState::Connecting { .. } => true,
            ChainState::Connected { asked, .. } => match asked {
                Asked::Nothing => false,
                _ => true,
            },
        }
    }

    /// Takes a command: answers it at once, or says what to ask the node.
    pub fn process_command(&mut self, command: GearCommand) -> (step: ChainStep)
        ensures
            (final(self)@, step@) == command_step(old(self)@, command@),
    {
        if self.owes_reply() {
            return ChainStep::Refused(command);
        }
        match command {
            GearCommand::ConnectToNode { address, program_id, account_id, password } => {
                match self.state {
                    ChainState::Disconnected => match parse_program_id(program_id.as_str()) {
                        Some(id) => {
                            self.state = ChainState::Connecting { program_id: id };
                            ChainStep::Ask(
                                NodeRequest::Open {
                                    address,
                                    suri: suri(&account_id, &password),
                                    program_id: id,
                                },
                            )
                        },
                        None => ChainStep::Reply(
                            GearReply::NotConnected(
                                text("the program id is not 32 bytes in hexadecimal"),
                            ),
                        ),
                    },
                    _ => ChainStep::Reply(GearReply::Connected),
                }
            },
            GearCommand::SendAction(action) => self.process_action(action),
            GearCommand::GetFreeBalance => self.get_free_balance(),
            GearCommand::GetSavedGames => self.get_saved_games(),
        }
    }

    /// Takes an action for the program on the chain.
    fn process_action(&mut self, action: Action) -> (step: ChainStep)
        requires
            !old(self)@.owes_reply(),
        ensures
            (final(self)@, step@) == command_step(
                old(self)@,
                GearCommandView::SendAction(action@),
            ),
    {
        match self.state {
            ChainState::Connected { program_id, .. } => {
                let event = match &action {
                    Action::Save(_) => Event::Saved,
                    Action::Load { .. } => Event::Loaded,
                };
                self.state = ChainState::Connected { program_id, asked: Asked::Submit(event) };
                ChainStep::Ask(NodeRequest::Submit { program_id, action })
            },
            _ => ChainStep::Reply(
                GearReply::NotConnected(text("not connected to the chain node")),
            ),
        }
    }

    /// Takes the question for the account's free balance.
    fn get_free_balance(&mut self) -> (step: ChainStep)
        requires
            !old(self)@.owes_reply(),
        ensures
            (final(self)@, step@) == command_step(old(self)@, GearCommandView::GetFreeBalance),
    {
        match self.state {
            ChainState::Connected { program_id, .. } => {
                self.state = ChainState::Connected { program_id, asked: Asked::Balance };
                ChainStep::Ask(NodeRequest::ReadBalance)
            },
            _ => ChainStep::Reply(
                GearReply::NotConnected(text("not connected to the chain node")),
            ),
        }
    }

    /// Takes the question for the saved games.
    fn get_saved_games(&mut self) -> (step: ChainStep)
        requires
            !old(self)@.owes_reply(),
        ensures
            (final(self)@, step@) == command_step(old(self)@, GearCommandView::GetSavedGames),
    {
        match self.state {
            ChainState::Connected { program_id, .. } => {
                self.state = ChainState::Connected { program_id, asked: Asked::SavedGames };
                ChainStep::Ask(NodeRequest::ReadState { program_id })
            },
            _ => ChainStep::Reply(
                GearReply::NotConnected(text("not connected to the chain node")),
            ),
        }
    }

    /// Takes the node's result for the request that is outstanding, and
    /// gives the reply that is owed for it.
    pub fn process_result(&mut self, result: NodeResult) -> (reply: Option<GearReply>)
        ensures
            final(self)@ == result_step(old(self)@, result@).0,
            match reply {
                Some(r) => result_step(old(self)@, result@).1 == Some(r@),
                None => result_step(old(self)@, result@).1 is None,
            },
    {
        if !self.owes_reply() {
            if let NodeResult::Failed(_) = result {
                self.state = ChainState::Disconnected;
            }
            return None;
        }
        let state = self.state;
        self.state = ChainState::Disconnected;
        match (state, result) {
            (_, NodeResult::Failed(reason)) => Some(GearReply::NotConnected(reason)),
            (ChainState::Connecting { program_id }, NodeResult::Opened) => {
                self.state = ChainState::Connected { program_id, asked: Asked::Nothing };
                Some(GearReply::Connected)
            },
            (ChainState::Connecting { program_id }, NodeResult::ProgramMissing) => Some(
                GearReply::ProgramNotFound { program_id: hex_encode(program_id.bytes.as_slice()) },
            ),
            (
                ChainState::Connected { program_id, asked: Asked::Submit(event) },
                NodeResult::Accepted,
            ) => {
                self.state = ChainState::Connected { program_id, asked: Asked::Nothing };
                Some(GearReply::Event(event))
            },
            (
                ChainState::Connected { program_id, asked: Asked::Balance },
                NodeResult::Balance(balance),
            ) => {
                self.state = ChainState::Connected { program_id, asked: Asked::Nothing };
                Some(GearReply::FreeBalance(balance))
            },
            (
                ChainState::Connected { program_id, asked: Asked::SavedGames },
                NodeResult::State(games),
            ) => {
                self.state = ChainState::Connected { program_id, asked: Asked::Nothing };
                Some(GearReply::SavedGames(games))
            },
            _ => Some(
                GearReply::NotConnected(
                    text("the chain node gave an answer that was not asked for"),
                ),
            ),
        }
    }
}

} // verus!
