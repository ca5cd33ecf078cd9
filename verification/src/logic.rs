//! The orchestrator: what it does with each command and each reply, as a
//! function from its state and the event to its next state and the effects
//! that are to be carried out.

use crate::codec::{SavedGameView, VcmiCommand, VcmiCommandView, VcmiReply, VcmiReplyView};
use crate::codec::{saved_game_views, VcmiSavedGame};
use crate::gear_client::{
    Action, ActionView, ActorId, ArchiveDescription, ArchiveDescriptionView, Event,
    GameState, GameStateView, GearCommand, GearCommandView, GearReply, GearReplyView,
    NodeAddress, NodeAddressView, saved_views,
};
use crate::ipfs_client::{IpfsCommand, IpfsCommandView, IpfsReply, IpfsReplyView};
use crate::lobby::{
    room_views, string_views, LobbyCommand, LobbyCommandView, LobbyReply, LobbyReplyView, Room,
    RoomView, VCMI_VERSION,
};
use crate::text::{decimal_text, push_decimal};
use vstd::prelude::*;

verus! {

/// Who a message is for.
#[derive(Debug, Clone, Copy, PartialEq, Eq, Structural)]
pub enum Recipient {
    GearClient,
    Vcmi,
    Gui,
}

/// The kinds of message that pass through the orchestrator.
#[derive(Debug, Clone, Copy, PartialEq, Eq, Structural)]
pub enum Message {
    VcmiCommand,
    VcmiReply,
    Action,
    Event,
}

/// What the user asks for in the graphical shell.
#[derive(Debug, Clone, PartialEq, Eq)]
pub enum GuiCommand {
    Connect {
        lobby_address: String,
        username: String,
        node_address: String,
        program_id: String,
        password: String,
        account_id: String,
    },
    ConnectToNode { address: String, program_id: String, account_id: String, password: String },
    ExpandLog,
    Cancel,
    NewRoom { room_name: String, password: String, max_players: u8, mods: String },
    JoinRoom { room_name: String, password: String, mods: String },
    Ready { room_name: String },
}

/// The mathematical content of a [`GuiCommand`].
pub enum GuiCommandView {
    Connect {
        lobby_address: Seq<char>,
        username: Seq<char>,
        node_address: Seq<char>,
        program_id: Seq<char>,
        password: Seq<char>,
        account_id: Seq<char>,
    },
    ConnectToNode {
        address: Seq<char>,
        program_id: Seq<char>,
        account_id: Seq<char>,
        password: Seq<char>,
    },
    ExpandLog,
    Cancel,
    NewRoom { room_name: Seq<char>, password: Seq<char>, max_players: u8, mods: Seq<char> },
    JoinRoom { room_name: Seq<char>, password: Seq<char>, mods: Seq<char> },
    Ready { room_name: Seq<char> },
}

impl View for GuiCommand {
    type V = GuiCommandView;

    open spec fn view(&self) -> GuiCommandView {
        match *self {
            GuiCommand::Connect {
                lobby_address,
                username,
                node_address,
                program_id,
                password,
                account_id,
            } => GuiCommandView::Connect {
                lobby_address: lobby_address@,
                username: username@,
                node_address: node_address@,
                program_id: program_id@,
                password: password@,
                account_id: account_id@,
            },
            GuiCommand::ConnectToNode {
                address,
                program_id,
                account_id,
                password,
            } => GuiCommandView::ConnectToNode {
                address: address@,
                program_id: program_id@,
                account_id: account_id@,
                password: password@,
            },
            GuiCommand::ExpandLog => GuiCommandView::ExpandLog,
            GuiCommand::Cancel => GuiCommandView::Cancel,
            GuiCommand::NewRoom {
                room_name,
                password,
                max_players,
                mods,
            } => GuiCommandView::NewRoom {
                room_name: room_name@,
                password: password@,
                max_players,
                mods: mods@,
            },
            GuiCommand::JoinRoom { room_name, password, mods } => GuiCommandView::JoinRoom {
                room_name: room_name@,
                password: password@,
                mods: mods@,
            },
            GuiCommand::Ready { room_name } => GuiCommandView::Ready { room_name: room_name@ },
        }
    }
}

/// A named event for the graphical shell, with what it carries.
#[derive(Debug, Clone, PartialEq, Eq)]
pub enum GuiSignal {
    ShowRooms,
    Created(String),
    AddSessions(Vec<Room>),
    /// Room and user.
    Joined(String, String),
    /// Room and user.
    Kicked(String, String),
    /// Number of users, room and user.
    Status(String, String, String),
    Alert(String),
    /// User and message.
    ChatMessage(String, String),
    AddUsers(Vec<String>),
    UpdateGameMode(u8),
    UpdateBalance(u128),
}

/// The mathematical content of a [`GuiSignal`].
pub enum GuiSignalView {
    ShowRooms,
    Created(Seq<char>),
    AddSessions(Seq<RoomView>),
    Joined(Seq<char>, Seq<char>),
    Kicked(Seq<char>, Seq<char>),
    Status(Seq<char>, Seq<char>, Seq<char>),
    Alert(Seq<char>),
    ChatMessage(Seq<char>, Seq<char>),
    AddUsers(Seq<Seq<char>>),
    UpdateGameMode(u8),
    UpdateBalance(u128),
}

impl View for GuiSignal {
    type V = GuiSignalView;

    open spec fn view(&self) -> GuiSignalView {
        match *self {
            GuiSignal::ShowRooms => GuiSignalView::ShowRooms,
            GuiSignal::Created(room) => GuiSignalView::Created(room@),
            GuiSignal::AddSessions(rooms) => GuiSignalView::AddSessions(room_views(rooms@)),
            GuiSignal::Joined(room, user) => GuiSignalView::Joined(room@, user@),
            GuiSignal::Kicked(room, user) => GuiSignalView::Kicked(room@, user@),
            GuiSignal::Status(count, room, user) => GuiSignalView::Status(count@, room@, user@),
            GuiSignal::Alert(text) => GuiSignalView::Alert(text@),
            GuiSignal::ChatMessage(user, text) => GuiSignalView::ChatMessage(user@, text@),
            GuiSignal::AddUsers(users) => GuiSignalView::AddUsers(string_views(users@)),
            GuiSignal::UpdateGameMode(mode) => GuiSignalView::UpdateGameMode(mode),
            GuiSignal::UpdateBalance(balance) => GuiSignalView::UpdateBalance(balance),
        }
    }
}

impl GuiSignalView {
    /// The name under which the shell listens for the signal.
    pub open spec fn name(self) -> Seq<char> {
        match self {
            GuiSignalView::ShowRooms => "showRooms"@,
            GuiSignalView::Created(_) => "created"@,
            GuiSignalView::AddSessions(_) => "addSessions"@,
            GuiSignalView::Joined(_, _) => "joined"@,
            GuiSignalView::Kicked(_, _) => "kicked"@,
            GuiSignalView::Status(_, _, _) => "status"@,
            GuiSignalView::Alert(_) => "alert"@,
            GuiSignalView::ChatMessage(_, _) => "chatMessage"@,
            GuiSignalView::AddUsers(_) => "addUsers"@,
            GuiSignalView::UpdateGameMode(_) => "updateGameMode"@,
            GuiSignalView::UpdateBalance(_) => "update_balance"@,
        }
    }
}

impl GuiSignal {
    /// The name under which the shell listens for the signal.
    pub fn name(&self) -> (name: &'static str)
        ensures
            name@ == self@.name(),
    {
        match self {
            GuiSignal::ShowRooms => "showRooms",
            GuiSignal::Created(_) => "created",
            GuiSignal::AddSessions(_) => "addSessions",
            GuiSignal::Joined(_, _) => "joined",
            GuiSignal::Kicked(_, _) => "kicked",
            GuiSignal::Status(_, _, _) => "status",
            GuiSignal::Alert(_) => "alert",
            GuiSignal::ChatMessage(_, _) => "chatMessage",
            GuiSignal::AddUsers(_) => "addUsers",
            GuiSignal::UpdateGameMode(_) => "updateGameMode",
            GuiSignal::UpdateBalance(_) => "update_balance",
        }
    }
}

/// What is done to the windows of the shell.
#[derive(Debug, Clone, Copy, PartialEq, Eq, Structural)]
pub enum WindowOp {
    /// Centre the connect dialog, show it and give it the focus.
    ShowConnectDialog,
    /// Hide the connect dialog.
    HideConnectDialog,
    /// Hide the connect dialog and show the log in the top right corner.
    ShowLog,
    /// Widen the log and move it back to the top right corner.
    ExpandLog,
}

/// One thing that the orchestrator wants done.
#[derive(Debug, Clone, PartialEq, Eq)]
pub enum Effect {
    /// Submit a command to the chain client. Its reply is owed.
    Chain(GearCommand),
    /// Submit a command to the store client. Its reply is owed.
    Store(IpfsCommand),
    /// Submit a command to the lobby client.
    Lobby(LobbyCommand),
    /// Send a reply to the game client.
    Game(VcmiReply),
    /// Emit a signal to the graphical shell.
    Gui(GuiSignal),
    Window(WindowOp),
    /// Start the game client with these arguments.
    Spawn(Vec<String>),
    /// Raise the shutdown flag.
    Stop,
}

/// The mathematical content of an [`Effect`].
pub enum EffectView {
    Chain(GearCommandView),
    Store(IpfsCommandView),
    Lobby(LobbyCommandView),
    Game(VcmiReplyView),
    Gui(GuiSignalView),
    Window(WindowOp),
    Spawn(Seq<Seq<char>>),
    Stop,
}

impl View for Effect {
    type V = EffectView;

    open spec fn view(&self) -> EffectView {
        match *self {
            Effect::Chain(command) => EffectView::Chain(command@),
            Effect::Store(command) => EffectView::Store(command@),
            Effect::Lobby(command) => EffectView::Lobby(command@),
            Effect::Game(reply) => EffectView::Game(reply@),
            Effect::Gui(signal) => EffectView::Gui(signal@),
            Effect::Window(op) => EffectView::Window(op),
            Effect::Spawn(args) => EffectView::Spawn(string_views(args@)),
            Effect::Stop => EffectView::Stop,
        }
    }
}

/// The contents of a list of effects.
pub open spec fn effect_views(effects: Seq<Effect>) -> Seq<EffectView> {
    effects.map_values(|e: Effect| e@)
}

/// The operations that the orchestrator carries through several replies.
#[derive(Debug, Clone, Copy, PartialEq, Eq, Structural)]
pub enum Operation {
    Nothing,
    Save,
    Load,
    LoadAll,
    ShowLoadGameDialog,
    ConnectToNode,
}

/// Why the orchestrator did not act on an event.
#[derive(Debug, Clone, Copy, PartialEq, Eq, Structural)]
pub enum LogicError {
    /// A command came while an operation is under way. It was not taken,
    /// and the operation goes on.
    Busy,
    /// A reply came that the operation under way does not allow at this
    /// point. The operation is given up.
    UnexpectedReply { during: Operation },
}

/// What the orchestrator is waiting for.
#[derive(Debug, Clone, PartialEq, Eq)]
pub enum Pending {
    /// Nothing: the next command is welcome.
    Idle,
    /// Save: the store's reply to the upload.
    Uploading { filename: String },
    /// Save: the chain's reply to the save action.
    SavingOnChain,
    /// Save: the chain's reply to the question for the balance.
    ReadingBalance,
    /// Load: the chain's reply to the load action.
    LoadingOnChain,
    /// LoadAll: the chain's list of saved games.
    ListingGames,
    /// LoadAll: the store's reply to the download of the record that
    /// follows those already in `archives`.
    Downloading { games: Vec<(ActorId, GameState)>, archives: Vec<VcmiSavedGame> },
    /// ShowLoadGameDialog: the chain's list of saved games.
    ListingForDialog,
    /// ConnectToNode: the chain's reply to the connect command.
    ConnectingToNode,
}

/// The mathematical content of a [`Pending`].
pub enum PendingView {
    Idle,
    Uploading { filename: Seq<char> },
    SavingOnChain,
    ReadingBalance,
    LoadingOnChain,
    ListingGames,
    Downloading { records: Seq<ArchiveDescriptionView>, archives: Seq<SavedGameView> },
    ListingForDialog,
    ConnectingToNode,
}

/// The records of the saved games that the chain lists.
pub open spec fn records_of(games: Seq<(Seq<u8>, GameStateView)>) -> Seq<ArchiveDescriptionView> {
    games.map_values(|g: (Seq<u8>, GameStateView)| g.1.archive)
}

impl View for Pending {
    type V = PendingView;

    open spec fn view(&self) -> PendingView {
        match *self {
            Pending::Idle => PendingView::Idle,
            Pending::Uploading { filename } => PendingView::Uploading { filename: filename@ },
            Pending::SavingOnChain => PendingView::SavingOnChain,
            Pending::ReadingBalance => PendingView::ReadingBalance,
            Pending::LoadingOnChain => PendingView::LoadingOnChain,
            Pending::ListingGames => PendingView::ListingGames,
            Pending::Downloading { games, archives } => PendingView::Downloading {
                records: records_of(saved_views(games@)),
                archives: saved_game_views(archives@),
            },
            Pending::ListingForDialog => PendingView::ListingForDialog,
            Pending::ConnectingToNode => PendingView::ConnectingToNode,
        }
    }
}

/// The backend whose reply is owed.
#[derive(Debug, Clone, Copy, PartialEq, Eq, Structural)]
pub enum Awaited {
    Nothing,
    Chain,
    Store,
}

impl PendingView {
    /// Whether a download is under way only while records are left to fetch.
    pub open spec fn well_formed(self) -> bool {
        self matches PendingView::Downloading { records, archives } ==> archives.len()
            < records.len()
    }

    /// The backend whose reply is owed.
    pub open spec fn awaited(self) -> Awaited {
        match self {
            PendingView::Idle => Awaited::Nothing,
            PendingView::Uploading { .. } | PendingView::Downloading { .. } => Awaited::Store,
            _ => Awaited::Chain,
        }
    }

    /// The operation under way.
    pub open spec fn operation(self) -> Operation {
        match self {
            PendingView::Idle => Operation::Nothing,
            PendingView::Uploading { .. }
            | PendingView::SavingOnChain
            | PendingView::ReadingBalance => Operation::Save,
            PendingView::LoadingOnChain => Operation::Load,
            PendingView::ListingGames | PendingView::Downloading { .. } => Operation::LoadAll,
            PendingView::ListingForDialog => Operation::ShowLoadGameDialog,
            PendingView::ConnectingToNode => Operation::ConnectToNode,
        }
    }
}

/// Where an event leaves the orchestrator, and what is to be done.
pub struct Outcome {
    pub next: PendingView,
    pub effects: Result<Seq<EffectView>, LogicError>,
}

/// The outcome of an event that is acted on.
pub open spec fn done(next: PendingView, effects: Seq<EffectView>) -> Outcome {
    Outcome { next, effects: Ok(effects) }
}

/// The outcome of a command that comes while an operation is under way.
pub open spec fn busy(pending: PendingView) -> Outcome {
    Outcome { next: pending, effects: Err(LogicError::Busy) }
}

/// The outcome of a reply that the operation under way does not allow.
pub open spec fn unexpected(pending: PendingView) -> Outcome {
    Outcome {
        next: PendingView::Idle,
        effects: Err(LogicError::UnexpectedReply { during: pending.operation() }),
    }
}

/// The port on which the node is reached.
pub const NODE_PORT: u16 = 443;

/// What a command of the game client brings about.
pub open spec fn game_step(pending: PendingView, command: VcmiCommandView) -> Outcome {
    if pending != PendingView::Idle {
        busy(pending)
    } else {
        match command {
            VcmiCommandView::ShowConnectDialog => done(
                PendingView::Idle,
                seq![
                    EffectView::Window(WindowOp::ShowConnectDialog),
                    EffectView::Game(VcmiReplyView::ConnectDialogShowed),
                ],
            ),
            VcmiCommandView::ShowLoadGameDialog => done(
                PendingView::ListingForDialog,
                seq![EffectView::Chain(GearCommandView::GetSavedGames)],
            ),
            VcmiCommandView::Save { filename, archive_bytes } => done(
                PendingView::Uploading { filename },
                seq![
                    EffectView::Store(IpfsCommandView::UploadData { filename, data: archive_bytes }),
                ],
            ),
            VcmiCommandView::Load(name) => done(
                PendingView::LoadingOnChain,
                seq![
                    EffectView::Chain(GearCommandView::SendAction(ActionView::Load { hash: name })),
                ],
            ),
            VcmiCommandView::LoadAll => done(
                PendingView::ListingGames,
                seq![EffectView::Chain(GearCommandView::GetSavedGames)],
            ),
        }
    }
}

/// The save action for an archive that the store has taken.
pub open spec fn save_action(filename: Seq<char>, name: Seq<char>, hash: Seq<char>) -> ActionView {
    ActionView::Save(
        GameStateView {
            saver_id: Seq::new(32, |i: int| 0u8),
            archive: ArchiveDescriptionView { filename, name, hash },
        },
    )
}

/// The download of the record at `index`.
pub open spec fn download_of(records: Seq<ArchiveDescriptionView>, index: int) -> EffectView {
    EffectView::Store(IpfsCommandView::DownloadData { hash: records[index].hash })
}

/// What a reply of the store client brings about.
pub open spec fn store_step(pending: PendingView, reply: IpfsReplyView) -> Outcome {
    match (pending, reply) {
        (PendingView::Uploading { filename }, IpfsReplyView::Uploaded { name, hash }) => done(
            PendingView::SavingOnChain,
            seq![EffectView::Chain(GearCommandView::SendAction(save_action(filename, name, hash)))],
        ),
        (PendingView::Downloading { records, archives }, IpfsReplyView::Downloaded { data }) => {
            let fetched = archives.push(
                SavedGameView { filename: records[archives.len() as int].filename, data },
            );
            if fetched.len() >= records.len() {
                done(
                    PendingView::Idle,
                    seq![EffectView::Game(VcmiReplyView::AllLoaded { archives: fetched })],
                )
            } else {
                done(
                    PendingView::Downloading { records, archives: fetched },
                    seq![download_of(records, fetched.len() as int)],
                )
            }
        },
        (PendingView::Uploading { .. }, IpfsReplyView::Failed { reason })
        | (PendingView::Downloading { .. }, IpfsReplyView::Failed { reason }) => done(
            PendingView::Idle,
            seq![EffectView::Gui(GuiSignalView::Alert(reason))],
        ),
        _ => unexpected(pending),
    }
}

/// What a reply of the chain client brings about.
pub open spec fn chain_step(pending: PendingView, reply: GearReplyView) -> Outcome {
    if pending.awaited() != Awaited::Chain {
        unexpected(pending)
    } else {
        match (pending, reply) {
            (_, GearReplyView::NotConnected(reason)) => done(
                PendingView::Idle,
                seq![EffectView::Gui(GuiSignalView::Alert(reason))],
            ),
            (PendingView::ConnectingToNode, GearReplyView::Connected) => done(
                PendingView::Idle,
                seq![
                    EffectView::Window(WindowOp::ShowLog),
                    EffectView::Game(VcmiReplyView::ConnectDialogShowed),
                ],
            ),
            (PendingView::ConnectingToNode, GearReplyView::ProgramNotFound { program_id }) => done(
                PendingView::Idle,
                seq![EffectView::Gui(GuiSignalView::Alert(program_id))],
            ),
            (PendingView::SavingOnChain, GearReplyView::Event(Event::Saved)) => done(
                PendingView::ReadingBalance,
                seq![
                    EffectView::Game(VcmiReplyView::Saved),
                    EffectView::Chain(GearCommandView::GetFreeBalance),
                ],
            ),
            (PendingView::ReadingBalance, GearReplyView::FreeBalance(balance)) => done(
                PendingView::Idle,
                seq![EffectView::Gui(GuiSignalView::UpdateBalance(balance))],
            ),
            (PendingView::LoadingOnChain, GearReplyView::Event(_)) => done(
                PendingView::Idle,
                Seq::empty(),
            ),
            (PendingView::ListingForDialog, GearReplyView::SavedGames(_)) => done(
                PendingView::Idle,
                seq![EffectView::Game(VcmiReplyView::LoadGameDialogShowed)],
            ),
            (PendingView::ListingGames, GearReplyView::SavedGames(games)) => if games.len() == 0 {
                done(
                    PendingView::Idle,
                    seq![EffectView::Game(VcmiReplyView::AllLoaded { archives: Seq::empty() })],
                )
            } else {
                done(
                    PendingView::Downloading { records: records_of(games), archives: Seq::empty() },
                    seq![download_of(records_of(games), 0)],
                )
            },
            _ => unexpected(pending),
        }
    }
}

/// What a command of the graphical shell brings about.
pub open spec fn gui_step(pending: PendingView, command: GuiCommandView) -> Outcome {
    if pending != PendingView::Idle {
        busy(pending)
    } else {
        match command {
            GuiCommandView::Connect { lobby_address, username, .. } => done(
                PendingView::Idle,
                seq![
                    EffectView::Lobby(LobbyCommandView::Connect(lobby_address)),
                    EffectView::Lobby(LobbyCommandView::Greeting(username, VCMI_VERSION@)),
                ],
            ),
            GuiCommandView::ConnectToNode { address, program_id, account_id, password } => done(
                PendingView::ConnectingToNode,
                seq![
                    EffectView::Chain(
                        GearCommandView::ConnectToNode {
                            address: NodeAddressView { url: address, port: NODE_PORT },
                            program_id,
                            account_id,
                            password,
                        },
                    ),
                ],
            ),
            GuiCommandView::ExpandLog => done(
                PendingView::Idle,
                seq![EffectView::Window(WindowOp::ExpandLog)],
            ),
            GuiCommandView::Cancel => done(
                PendingView::Idle,
                seq![
                    EffectView::Window(WindowOp::HideConnectDialog),
                    EffectView::Game(VcmiReplyView::CanceledDialog),
                    EffectView::Stop,
                ],
            ),
            GuiCommandView::NewRoom { room_name, password, max_players, mods } => done(
                PendingView::Idle,
                seq![
                    EffectView::Lobby(
                        LobbyCommandView::Create(room_name, password, max_players, mods),
                    ),
                ],
            ),
            GuiCommandView::JoinRoom { room_name, password, mods } => done(
                PendingView::Idle,
                seq![EffectView::Lobby(LobbyCommandView::Join(room_name, password, mods))],
            ),
            GuiCommandView::Ready { room_name } => done(
                PendingView::Idle,
                seq![EffectView::Lobby(LobbyCommandView::Ready(room_name))],
            ),
        }
    }
}

/// The arguments with which the game client joins a game.
pub open spec fn join_args(
    address: Seq<char>,
    port: u16,
    game_mode: u8,
    username: Seq<char>,
    connection: Seq<char>,
) -> Seq<Seq<char>> {
    seq![
        "--lobby"@,
        "--lobby-address"@,
        address,
        "--lobby-port"@,
        decimal_text(port as nat),
        "--lobby-username"@,
        username,
        "--lobby-gamemode"@,
        decimal_text(game_mode as nat),
        "--uuid"@,
        connection,
    ]
}

/// The arguments with which the game client hosts a game.
pub open spec fn host_args(server: Seq<char>, players: u8) -> Seq<Seq<char>> {
    seq![
        "--lobby-host"@,
        "--lobby-uuid"@,
        server,
        "--lobby-connections"@,
        decimal_text(players as nat),
    ]
}

/// What a reply of the lobby brings about: a signal to the graphical shell,
/// the start of the game client, or nothing.
pub open spec fn lobby_effects(reply: LobbyReplyView) -> Seq<EffectView> {
    match reply {
        LobbyReplyView::Connected => seq![EffectView::Gui(GuiSignalView::ShowRooms)],
        LobbyReplyView::Created(room) => seq![EffectView::Gui(GuiSignalView::Created(room))],
        LobbyReplyView::Sessions(rooms) => seq![
            EffectView::Gui(GuiSignalView::AddSessions(rooms)),
        ],
        LobbyReplyView::Joined(room, user) => seq![
            EffectView::Gui(GuiSignalView::Joined(room, user)),
        ],
        LobbyReplyView::Kicked(room, user) => seq![
            EffectView::Gui(GuiSignalView::Kicked(room, user)),
        ],
        LobbyReplyView::Start(address, port, game_mode, username, connection) => seq![
            EffectView::Spawn(join_args(address, port, game_mode, username, connection)),
        ],
        LobbyReplyView::Host(server, players) => seq![
            EffectView::Spawn(host_args(server, players)),
        ],
        LobbyReplyView::Status(count, room, user) => seq![
            EffectView::Gui(GuiSignalView::Status(count, room, user)),
        ],
        LobbyReplyView::ServerError(error) => seq![EffectView::Gui(GuiSignalView::Alert(error))],
        LobbyReplyView::Mods | LobbyReplyView::ClientMods | LobbyReplyView::Health => Seq::empty(),
        LobbyReplyView::Chat(user, text) => seq![
            EffectView::Gui(GuiSignalView::ChatMessage(user, text)),
        ],
        LobbyReplyView::Users(users) => seq![EffectView::Gui(GuiSignalView::AddUsers(users))],
        LobbyReplyView::GameMode(mode) => seq![
            EffectView::Gui(GuiSignalView::UpdateGameMode(mode)),
        ],
    }
}

/// What a call hands back, with the state it leaves, by content.
pub open spec fn outcome_of(next: PendingView, result: Result<Vec<Effect>, LogicError>) -> Outcome {
    Outcome {
        next,
        effects: match result {
            Ok(effects) => Ok(effect_views(effects@)),
            Err(e) => Err(e),
        },
    }
}

fn none() -> (effects: Vec<Effect>)
    ensures
        effect_views(effects@) == Seq::<EffectView>::empty(),
{
    let effects: Vec<Effect> = Vec::new();
    assert(effect_views(effects@) == Seq::<EffectView>::empty());
    effects
}

fn one(effect: Effect) -> (effects: Vec<Effect>)
    ensures
        effect_views(effects@) == seq![effect@],
{
    let mut effects: Vec<Effect> = Vec::new();
    effects.push(effect);
    assert(effect_views(effects@) == seq![effect@]);
    effects
}

fn two(first: Effect, second: Effect) -> (effects: Vec<Effect>)
    ensures
        effect_views(effects@) == seq![first@, second@],
{
    let mut effects: Vec<Effect> = Vec::new();
    effects.push(first);
    effects.push(second);
    assert(effect_views(effects@) == seq![first@, second@]);
    effects
}

fn three(first: Effect, second: Effect, third: Effect) -> (effects: Vec<Effect>)
    ensures
        effect_views(effects@) == seq![first@, second@, third@],
{
    let mut effects: Vec<Effect> = Vec::new();
    effects.push(first);
    effects.push(second);
    effects.push(third);
    assert(effect_views(effects@) == seq![first@, second@, third@]);
    effects
}

fn text(literal: &str) -> (s: String)
    ensures
        s@ == literal@,
{
    String::from_str(literal)
}

fn number(n: u64) -> (s: String)
    ensures
        s@ == decimal_text(n as nat),
{
    let mut s = String::new();
    push_decimal(&mut s, n);
    assert(s@ == decimal_text(n as nat));
    s
}

fn download(games: &Vec<(ActorId, GameState)>, index: usize) -> (effect: Effect)
    requires
        index < games.len(),
    ensures
        effect@ == download_of(records_of(saved_views(games@)), index as int),
{
    Effect::Store(IpfsCommand::DownloadData { hash: games[index].1.archive.hash.clone() })
}

/// The arguments with which the game client joins a game.
pub fn start_game(
    address: String,
    port: u16,
    game_mode: u8,
    username: String,
    connection: String,
) -> (args: Vec<String>)
    ensures
        string_views(args@) == join_args(address@, port, game_mode, username@, connection@),
{
    let mut args: Vec<String> = Vec::new();
    args.push(text("--lobby"));
    args.push(text("--lobby-address"));
    args.push(address);
    args.push(text("--lobby-port"));
    args.push(number(port as u64));
    args.push(text("--lobby-username"));
    args.push(username);
    args.push(text("--lobby-gamemode"));
    args.push(number(game_mode as u64));
    args.push(text("--uuid"));
    args.push(connection);
    assert(string_views(args@) == join_args(address@, port, game_mode, username@, connection@));
    args
}

/// The arguments with which the game client hosts a game.
pub fn host_game(server: String, players: u8) -> (args: Vec<String>)
    ensures
        string_views(args@) == host_args(server@, players),
{
    let mut args: Vec<String> = Vec::new();
    args.push(text("--lobby-host"));
    args.push(text("--lobby-uuid"));
    args.push(server);
    args.push(text("--lobby-connections"));
    args.push(number(players as u64));
    assert(string_views(args@) == host_args(server@, players));
    args
}

/// The orchestrator's state.
#[derive(Debug, Clone, PartialEq, Eq)]
pub struct Logic {
    pending: Pending,
}

impl View for Logic {
    type V = PendingView;

    closed spec fn view(&self) -> PendingView {
        self.pending@
    }
}

impl Logic {
    /// An orchestrator with no operation under way.
    pub fn new() -> (logic: Logic)
        ensures
            logic@ == PendingView::Idle,
            logic@.well_formed(),
    {
        Logic { pending: Pending::Idle }
    }

    /// The backend whose reply is owed: the one to wait for. While it is
    /// `Nothing`, commands are welcome.
    pub fn awaited(&self) -> (awaited: Awaited)
        ensures
            awaited == self@.awaited(),
    {
        match &self.pending {
            Pending::Idle => Awaited::Nothing,
            Pending::Uploading { .. } => Awaited::Store,
            Pending::Downloading { .. } => Awaited::Store,
            _ => Awaited::Chain,
        }
    }

    /// The operation under way.
    pub fn operation(&self) -> (operation: Operation)
        ensures
            operation == self@.operation(),
    {
        match &self.pending {
            Pending::Idle => Operation::Nothing,
            Pending::Uploading { .. } => Operation::Save,
            Pending::SavingOnChain => Operation::Save,
            Pending::ReadingBalance => Operation::Save,
            Pending::LoadingOnChain => Operation::Load,
            Pending::ListingGames => Operation::LoadAll,
            Pending::Downloading { .. } => Operation::LoadAll,
            Pending::ListingForDialog => Operation::ShowLoadGameDialog,
            Pending::ConnectingToNode => Operation::ConnectToNode,
        }
    }

    fn is_idle(&self) -> (idle: bool)
        ensures
            idle == (self@ == PendingView::Idle),
    {
        match &self.pending {
            Pending::Idle => true,
            _ => false,
        }
    }

    fn take(&mut self) -> (pending: Pending)
        ensures
            pending@ == old(self)@,
            final(self)@ == PendingView::Idle,
    {
        let mut pending = Pending::Idle;
        core::mem::swap(&mut self.pending, &mut pending);
        pending
    }

    fn connect_to_gear(&mut self) -> (effects: Vec<Effect>)
        requires
            old(self)@ == PendingView::Idle,
        ensures
            done(final(self)@, effect_views(effects@)) == game_step(
                old(self)@,
                VcmiCommandView::ShowConnectDialog,
            ),
    {
        two(
            Effect::Window(WindowOp::ShowConnectDialog),
            Effect::Game(VcmiReply::ConnectDialogShowed),
        )
    }

    fn show_load_game_dialog(&mut self) -> (effects: Vec<Effect>)
        requires
            old(self)@ == PendingView::Idle,
        ensures
            done(final(self)@, effect_views(effects@)) == game_step(
                old(self)@,
                VcmiCommandView::ShowLoadGameDialog,
            ),
    {
        self.pending = Pending::ListingForDialog;
        one(Effect::Chain(GearCommand::GetSavedGames))
    }

    fn save(&mut self, filename: String, archive_bytes: Vec<u8>) -> (effects: Vec<Effect>)
        requires
            old(self)@ == PendingView::Idle,
        ensures
            done(final(self)@, effect_views(effects@)) == game_step(
                old(self)@,
                VcmiCommandView::Save { filename: filename@, archive_bytes: archive_bytes@ },
            ),
    {
        self.pending = Pending::Uploading { filename: filename.clone() };
        one(Effect::Store(IpfsCommand::UploadData { filename, data: archive_bytes }))
    }

    fn load_all(&mut self) -> (effects: Vec<Effect>)
        requires
            old(self)@ == PendingView::Idle,
        ensures
            done(final(self)@, effect_views(effects@)) == game_step(
                old(self)@,
                VcmiCommandView::LoadAll,
            ),
    {
        self.pending = Pending::ListingGames;
        one(Effect::Chain(GearCommand::GetSavedGames))
    }

    fn update_balance(&mut self) -> (effect: Effect)
        ensures
            final(self)@ == PendingView::ReadingBalance,
            effect@ == EffectView::Chain(GearCommandView::GetFreeBalance),
    {
        self.pending = Pending::ReadingBalance;
        Effect::Chain(GearCommand::GetFreeBalance)
    }

    fn connect(
        &mut self,
        address: String,
        program_id: String,
        account_id: String,
        password: String,
    ) -> (effects: Vec<Effect>)
        requires
            old(self)@ == PendingView::Idle,
        ensures
            done(final(self)@, effect_views(effects@)) == gui_step(
                old(self)@,
                GuiCommandView::ConnectToNode {
                    address: address@,
                    program_id: program_id@,
                    account_id: account_id@,
                    password: password@,
                },
            ),
    {
        self.pending = Pending::ConnectingToNode;
        one(
            Effect::Chain(
                GearCommand::ConnectToNode {
                    address: NodeAddress { url: address, port: NODE_PORT },
                    program_id,
                    account_id,
                    password,
                },
            ),
        )
    }

    fn connect_to_lobby(&mut self, address: String, username: String) -> (effects: Vec<Effect>)
        ensures
            final(self)@ == old(self)@,
            effect_views(effects@) == seq![
                EffectView::Lobby(LobbyCommandView::Connect(address@)),
                EffectView::Lobby(LobbyCommandView::Greeting(username@, VCMI_VERSION@)),
            ],
    {
        two(
            Effect::Lobby(LobbyCommand::Connect(address)),
            Effect::Lobby(LobbyCommand::Greeting(username, text(VCMI_VERSION))),
        )
    }

    /// Takes a command of the game client. While an operation is under way
    /// the command is not taken, and the operation is not disturbed.
    pub fn process_vcmi_command(&mut self, command: VcmiCommand) -> (result: Result<
        Vec<Effect>,
        LogicError,
    >)
        requires
            old(self)@.well_formed(),
        ensures
            final(self)@.well_formed(),
            outcome_of(final(self)@, result) == game_step(old(self)@, command@),
    {
        if !self.is_idle() {
            return Err(LogicError::Busy);
        }
        match command {
            VcmiCommand::ShowConnectDialog => Ok(self.connect_to_gear()),
            VcmiCommand::ShowLoadGameDialog => Ok(self.show_load_game_dialog()),
            VcmiCommand::Save { filename, archive_bytes } => Ok(self.save(filename, archive_bytes)),
            VcmiCommand::Load(name) => {
                self.pending = Pending::LoadingOnChain;
                Ok(one(Effect::Chain(GearCommand::SendAction(Action::Load { hash: name }))))
            },
            VcmiCommand::LoadAll => Ok(self.load_all()),
        }
    }

    /// Takes a command of the graphical shell. While an operation is under
    /// way the command is not taken, and the operation is not disturbed.
    pub fn process_gui_command(&mut self, command: GuiCommand) -> (result: Result<
        Vec<Effect>,
        LogicError,
    >)
        requires
            old(self)@.well_formed(),
        ensures
            final(self)@.well_formed(),
            outcome_of(final(self)@, result) == gui_step(old(self)@, command@),
    {
        if !self.is_idle() {
            return Err(LogicError::Busy);
        }
        match command {
            GuiCommand::Connect { lobby_address, username, .. } => Ok(
                self.connect_to_lobby(lobby_address, username),
            ),
            GuiCommand::ConnectToNode { address, program_id, account_id, password } => Ok(
                self.connect(address, program_id, account_id, password),
            ),
            GuiCommand::ExpandLog => Ok(one(Effect::Window(WindowOp::ExpandLog))),
            GuiCommand::Cancel => Ok(
                three(
                    Effect::Window(WindowOp::HideConnectDialog),
                    Effect::Game(VcmiReply::CanceledDialog),
                    Effect::Stop,
                ),
            ),
            GuiCommand::NewRoom { room_name, password, max_players, mods } => Ok(
                one(Effect::Lobby(LobbyCommand::Create(room_name, password, max_players, mods))),
            ),
            GuiCommand::JoinRoom { room_name, password, mods } => Ok(
                one(Effect::Lobby(LobbyCommand::Join(room_name, password, mods))),
            ),
            GuiCommand::Ready { room_name } => Ok(
                one(Effect::Lobby(LobbyCommand::Ready(room_name))),
            ),
        }
    }

    /// Takes a reply of the store client. A reply that the operation under
    /// way does not allow ends the operation with an error.
    pub fn process_ipfs_reply(&mut self, reply: IpfsReply) -> (result: Result<
        Vec<Effect>,
        LogicError,
    >)
        requires
            old(self)@.well_formed(),
        ensures
            final(self)@.well_formed(),
            outcome_of(final(self)@, result) == store_step(old(self)@, reply@),
    {
        let operation = self.operation();
        let pending = self.take();
        match (pending, reply) {
            (Pending::Uploading { filename }, IpfsReply::Uploaded { name, hash }) => {
                self.pending = Pending::SavingOnChain;
                let state = GameState {
                    saver_id: ActorId::zero(),
                    archive: ArchiveDescription { filename, name, hash },
                };
                Ok(one(Effect::Chain(GearCommand::SendAction(Action::Save(state)))))
            },
            (Pending::Downloading { games, archives }, IpfsReply::Downloaded { data }) => {
                let mut archives = archives;
                let ghost records = records_of(saved_views(games@));
                let ghost before = saved_game_views(archives@);
                let at = archives.len();
                assert(records[at as int] == games@[at as int].1@.archive);
                let game = VcmiSavedGame {
                    filename: games[at].1.archive.filename.clone(),
                    data,
                };
                archives.push(game);
                assert(saved_game_views(archives@) == before.push(game@));
                if archives.len() >= games.len() {
                    Ok(one(Effect::Game(VcmiReply::AllLoaded { archives })))
                } else {
                    let next = download(&games, archives.len());
                    self.pending = Pending::Downloading { games, archives };
                    Ok(one(next))
                }
            },
            (Pending::Uploading { .. }, IpfsReply::Failed { reason }) => Ok(
                one(Effect::Gui(GuiSignal::Alert(reason))),
            ),
            (Pending::Downloading { .. }, IpfsReply::Failed { reason }) => Ok(
                one(Effect::Gui(GuiSignal::Alert(reason))),
            ),
            _ => Err(LogicError::UnexpectedReply { during: operation }),
        }
    }

    /// Takes a reply of the chain client. A reply that the operation under
    /// way does not allow ends the operation with an error.
    pub fn process_gear_reply(&mut self, reply: GearReply) -> (result: Result<
        Vec<Effect>,
        LogicError,
    >)
        requires
            old(self)@.well_formed(),
        ensures
            final(self)@.well_formed(),
            outcome_of(final(self)@, result) == chain_step(old(self)@, reply@),
    {
        let operation = self.operation();
        let awaited = self.awaited();
        let pending = self.take();
        match awaited {
            Awaited::Chain => {},
            _ => {
                return Err(LogicError::UnexpectedReply { during: operation });
            },
        }
        match (pending, reply) {
            (_, GearReply::NotConnected(reason)) => Ok(one(Effect::Gui(GuiSignal::Alert(reason)))),
            (Pending::ConnectingToNode, GearReply::Connected) => Ok(
                two(
                    Effect::Window(WindowOp::ShowLog),
                    Effect::Game(VcmiReply::ConnectDialogShowed),
                ),
            ),
            (Pending::ConnectingToNode, GearReply::ProgramNotFound { program_id }) => Ok(
                one(Effect::Gui(GuiSignal::Alert(program_id))),
            ),
            (Pending::SavingOnChain, GearReply::Event(Event::Saved)) => {
                let ask = self.update_balance();
                Ok(two(Effect::Game(VcmiReply::Saved), ask))
            },
            (Pending::ReadingBalance, GearReply::FreeBalance(balance)) => Ok(
                one(Effect::Gui(GuiSignal::UpdateBalance(balance))),
            ),
            (Pending::LoadingOnChain, GearReply::Event(_)) => Ok(none()),
            (Pending::ListingForDialog, GearReply::SavedGames(_)) => Ok(
                one(Effect::Game(VcmiReply::LoadGameDialogShowed)),
            ),
            (Pending::ListingGames, GearReply::SavedGames(games)) => {
                let archives: Vec<VcmiSavedGame> = Vec::new();
                assert(saved_game_views(archives@) == Seq::<SavedGameView>::empty());
                if games.len() == 0 {
                    Ok(one(Effect::Game(VcmiReply::AllLoaded { archives })))
                } else {
                    let first = download(&games, 0);
                    self.pending = Pending::Downloading { games, archives };
                    Ok(one(first))
                }
            },
            _ => Err(LogicError::UnexpectedReply { during: operation }),
        }
    }

    /// Takes a reply of the lobby, whatever operation is under way.
    pub fn process_lobby_reply(&self, reply: LobbyReply) -> (effects: Vec<Effect>)
        ensures
            effect_views(effects@) == lobby_effects(reply@),
    {
        match reply {
            LobbyReply::Connected => one(Effect::Gui(GuiSignal::ShowRooms)),
            LobbyReply::Created(room) => one(Effect::Gui(GuiSignal::Created(room))),
            LobbyReply::Sessions(rooms) => one(Effect::Gui(GuiSignal::AddSessions(rooms))),
            LobbyReply::Joined(room, user) => one(Effect::Gui(GuiSignal::Joined(room, user))),
            LobbyReply::Kicked(room, user) => one(Effect::Gui(GuiSignal::Kicked(room, user))),
            LobbyReply::Start(address, port, game_mode, username, connection) => one(
                Effect::Spawn(start_game(address, port, game_mode, username, connection)),
            ),
            LobbyReply::Host(server, players) => one(Effect::Spawn(host_game(server, players))),
            LobbyReply::Status(count, room, user) => one(
                Effect::Gui(GuiSignal::Status(count, room, user)),
            ),
            LobbyReply::ServerError(error) => one(Effect::Gui(GuiSignal::Alert(error))),
            LobbyReply::Mods => none(),
            LobbyReply::ClientMods => none(),
            LobbyReply::Health => none(),
            LobbyReply::Chat(user, message) => one(
                Effect::Gui(GuiSignal::ChatMessage(user, message)),
            ),
            LobbyReply::Users(users) => one(Effect::Gui(GuiSignal::AddUsers(users))),
            LobbyReply::GameMode(mode) => one(Effect::Gui(GuiSignal::UpdateGameMode(mode))),
        }
    }
}

/// The number of commands that `effects` submit to `backend`.
pub open spec fn requests_to(effects: Seq<EffectView>, backend: Awaited) -> nat
    decreases effects.len(),
{
    if effects.len() == 0 {
        0
    } else {
        let counted: nat = match (effects.last(), backend) {
            (EffectView::Chain(_), Awaited::Chain) => 1,
            (EffectView::Store(_), Awaited::Store) => 1,
            _ => 0,
        };
        requests_to(effects.drop_last(), backend) + counted
    }
}

/// Whether an outcome submits to each backend exactly one command where it
/// leaves that backend's reply owed, and none where it does not.
pub open spec fn one_request_for_each_reply_owed(outcome: Outcome) -> bool {
    match outcome.effects {
        Ok(effects) => {
            &&& requests_to(effects, Awaited::Chain) == if outcome.next.awaited()
                == Awaited::Chain {
                1nat
            } else {
                0nat
            }
            &&& requests_to(effects, Awaited::Store) == if outcome.next.awaited()
                == Awaited::Store {
                1nat
            } else {
                0nat
            }
        },
        Err(_) => true,
    }
}

/// While an operation is under way, a command of the game client or of the
/// graphical shell is refused as `Busy`: it is not acted on, nothing is
/// submitted for it, and the operation under way stays as it was.
pub proof fn lemma_commands_wait_their_turn(
    pending: PendingView,
    game: VcmiCommandView,
    gui: GuiCommandView,
)
    requires
        pending.awaited() != Awaited::Nothing,
    ensures
        game_step(pending, game) == busy(pending),
        gui_step(pending, gui) == busy(pending),
        busy(pending).next == pending,
        busy(pending).effects == Err::<Seq<EffectView>, LogicError>(LogicError::Busy),
{
}

/// A reply is taken only from the backend that owes one: a reply of the
/// chain while none is owed by it, or of the store while none is owed by
/// it, is an error and submits nothing.
pub proof fn lemma_replies_only_when_owed(
    pending: PendingView,
    chain: GearReplyView,
    store: IpfsReplyView,
)
    ensures
        pending.awaited() != Awaited::Chain ==> chain_step(pending, chain).effects is Err,
        pending.awaited() != Awaited::Store ==> store_step(pending, store).effects is Err,
{
}

/// Whatever the event, the orchestrator submits a command to a backend
/// exactly when it then waits for that backend's reply, and one command
/// only; and it stays well formed. With the two laws above, no second
/// command reaches a backend before the reply to the first is consumed.
pub proof fn lemma_one_request_in_flight(
    pending: PendingView,
    game: VcmiCommandView,
    gui: GuiCommandView,
    chain: GearReplyView,
    store: IpfsReplyView,
)
    requires
        pending.well_formed(),
    ensures
        one_request_for_each_reply_owed(game_step(pending, game)),
        one_request_for_each_reply_owed(gui_step(pending, gui)),
        one_request_for_each_reply_owed(chain_step(pending, chain)),
        one_request_for_each_reply_owed(store_step(pending, store)),
        game_step(pending, game).next.well_formed(),
        gui_step(pending, gui).next.well_formed(),
        chain_step(pending, chain).next.well_formed(),
        store_step(pending, store).next.well_formed(),
{
    reveal_with_fuel(requests_to, 4);
}

/// Saving a game runs in this order, whatever the game: the archive goes to
/// the store, once; the store's hash goes to the chain in a save action,
/// once; when the chain reports the save, the game client is told `Saved`,
/// once, and the balance is asked for; the balance goes to the shell and
/// the orchestrator is free again.
pub proof fn lemma_save_runs_in_order(
    filename: Seq<char>,
    archive_bytes: Seq<u8>,
    name: Seq<char>,
    hash: Seq<char>,
    balance: u128,
)
    ensures
        ({
            let taken = game_step(
                PendingView::Idle,
                VcmiCommandView::Save { filename, archive_bytes },
            );
            let stored = store_step(taken.next, IpfsReplyView::Uploaded { name, hash });
            let saved = chain_step(stored.next, GearReplyView::Event(Event::Saved));
            let told = chain_step(saved.next, GearReplyView::FreeBalance(balance));
            &&& taken.effects == Ok::<Seq<EffectView>, LogicError>(
                seq![
                    EffectView::Store(IpfsCommandView::UploadData { filename, data: archive_bytes }),
                ],
            )
            &&& stored.effects == Ok::<Seq<EffectView>, LogicError>(
                seq![
                    EffectView::Chain(
                        GearCommandView::SendAction(save_action(filename, name, hash)),
                    ),
                ],
            )
            &&& saved.effects == Ok::<Seq<EffectView>, LogicError>(
                seq![
                    EffectView::Game(VcmiReplyView::Saved),
                    EffectView::Chain(GearCommandView::GetFreeBalance),
                ],
            )
            &&& told.effects == Ok::<Seq<EffectView>, LogicError>(
                seq![EffectView::Gui(GuiSignalView::UpdateBalance(balance))],
            )
            &&& told.next == PendingView::Idle
        }),
{
}

/// Where the store's replies to a run of downloads leave the orchestrator,
/// and all that it wants done on the way. The run ends at the first reply
/// that is not allowed.
pub open spec fn after_downloads(pending: PendingView, data: Seq<Seq<u8>>) -> (
    PendingView,
    Seq<EffectView>,
)
    decreases data.len(),
{
    if data.len() == 0 {
        (pending, Seq::empty())
    } else {
        let step = store_step(pending, IpfsReplyView::Downloaded { data: data.first() });
        match step.effects {
            Ok(effects) => {
                let rest = after_downloads(step.next, data.drop_first());
                (rest.0, effects + rest.1)
            },
            Err(_) => (step.next, Seq::empty()),
        }
    }
}

/// The saved games made of the file names of `records` from `from` on and
/// of the data fetched for them.
pub open spec fn fetched_games(
    records: Seq<ArchiveDescriptionView>,
    from: int,
    data: Seq<Seq<u8>>,
) -> Seq<SavedGameView> {
    Seq::new(
        data.len(),
        |i: int| SavedGameView { filename: records[from + i].filename, data: data[i] },
    )
}

/// The downloads of the records from `from` on, as many as `count`.
pub open spec fn downloads_from(records: Seq<ArchiveDescriptionView>, from: int, count: nat) -> Seq<
    EffectView,
> {
    Seq::new(count, |k: int| download_of(records, from + k))
}

/// With `archives` fetched and the download of the next record asked for,
/// the replies to it and to all that follow bring one download for each
/// record that is left, and then the one reply with every archive.
proof fn lemma_downloads_run_to_the_end(
    records: Seq<ArchiveDescriptionView>,
    archives: Seq<SavedGameView>,
    data: Seq<Seq<u8>>,
)
    requires
        archives.len() < records.len(),
        data.len() == records.len() - archives.len(),
    ensures
        after_downloads(PendingView::Downloading { records, archives }, data) == (
            PendingView::Idle,
            downloads_from(records, archives.len() as int + 1, (data.len() - 1) as nat) + seq![
                EffectView::Game(
                    VcmiReplyView::AllLoaded {
                        archives: archives + fetched_games(records, archives.len() as int, data),
                    },
                ),
            ],
        ),
    decreases data.len(),
{
    let at = archives.len() as int;
    let pending = PendingView::Downloading { records, archives };
    let grown = archives.push(SavedGameView { filename: records[at].filename, data: data.first() });
    let all = archives + fetched_games(records, at, data);
    let step = store_step(pending, IpfsReplyView::Downloaded { data: data.first() });
    let rest = data.drop_first();
    let end = seq![EffectView::Game(VcmiReplyView::AllLoaded { archives: all })];
    if data.len() == 1 {
        assert(all == grown);
        assert(step == done(PendingView::Idle, end));
        assert(after_downloads(PendingView::Idle, rest) == (
            PendingView::Idle,
            Seq::<EffectView>::empty(),
        ));
        assert(downloads_from(records, at + 1, 0) == Seq::<EffectView>::empty());
        assert(end + Seq::<EffectView>::empty() == end);
        assert(Seq::<EffectView>::empty() + end == end);
    } else {
        let ask = seq![download_of(records, at + 1)];
        assert(step == done(PendingView::Downloading { records, archives: grown }, ask));
        lemma_downloads_run_to_the_end(records, grown, rest);
        assert(grown + fetched_games(records, at + 1, rest) == all);
        assert(ask + (downloads_from(records, at + 2, (rest.len() - 1) as nat) + end)
            == downloads_from(records, at + 1, (data.len() - 1) as nat) + end);
    }
}

/// Loading all games fetches every record before it replies: for the
/// records that the chain lists, the orchestrator asks the store for each
/// of them, once and in order, each after the reply to the one before, and
/// only then tells the game client, once, with as many archives as there are
/// records, each under the file name of its record.
pub proof fn lemma_load_all_fetches_every_record(
    games: Seq<(Seq<u8>, GameStateView)>,
    data: Seq<Seq<u8>>,
)
    requires
        data.len() == games.len(),
    ensures
        ({
            let records = records_of(games);
            let asked = game_step(PendingView::Idle, VcmiCommandView::LoadAll);
            let listed = chain_step(asked.next, GearReplyView::SavedGames(games));
            let fetched = after_downloads(listed.next, data);
            let downloads = listed.effects->Ok_0 + fetched.1;
            &&& asked.effects == Ok::<Seq<EffectView>, LogicError>(
                seq![EffectView::Chain(GearCommandView::GetSavedGames)],
            )
            &&& listed.effects is Ok
            &&& fetched.0 == PendingView::Idle
            &&& downloads == downloads_from(records, 0, records.len()) + seq![
                EffectView::Game(
                    VcmiReplyView::AllLoaded { archives: fetched_games(records, 0, data) },
                ),
            ]
            &&& fetched_games(records, 0, data).len() == games.len()
        }),
{
    let records = records_of(games);
    let end = seq![
        EffectView::Game(VcmiReplyView::AllLoaded { archives: fetched_games(records, 0, data) }),
    ];
    if games.len() == 0 {
        assert(fetched_games(records, 0, data) == Seq::<SavedGameView>::empty());
        assert(downloads_from(records, 0, 0) == Seq::<EffectView>::empty());
        assert(end + Seq::<EffectView>::empty() == end);
        assert(Seq::<EffectView>::empty() + end == end);
    } else {
        let none = Seq::<SavedGameView>::empty();
        lemma_downloads_run_to_the_end(records, none, data);
        assert(none + fetched_games(records, 0, data) == fetched_games(records, 0, data));
        assert(seq![download_of(records, 0)] + (downloads_from(
            records,
            1,
            (data.len() - 1) as nat,
        ) + end) == downloads_from(records, 0, records.len()) + end);
    }
}

} // verus!
