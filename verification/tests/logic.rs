use gear_connector::codec::{VcmiCommand, VcmiReply, VcmiSavedGame};
use gear_connector::gear_client::{
    Action, ActorId, ArchiveDescription, Event, GameState, GearCommand, GearReply, NodeAddress,
};
use gear_connector::ipfs_client::{IpfsCommand, IpfsReply};
use gear_connector::lobby::{LobbyCommand, LobbyReply, Room, VCMI_VERSION};
use gear_connector::logic::{
    host_game, start_game, Awaited, Effect, GuiCommand, GuiSignal, Logic, LogicError, Message,
    Operation, Recipient, WindowOp, NODE_PORT,
};

fn record(filename: &str, hash: &str) -> (ActorId, GameState) {
    (
        ActorId { bytes: [7u8; 32] },
        GameState {
            saver_id: ActorId { bytes: [7u8; 32] },
            archive: ArchiveDescription {
                filename: filename.to_string(),
                name: format!("name of {}", filename),
                hash: hash.to_string(),
            },
        },
    )
}

fn strings(items: &[&str]) -> Vec<String> {
    items.iter().map(|s| s.to_string()).collect()
}

#[test]
fn save_uploads_then_records_then_replies() {
    let mut logic = Logic::new();
    assert_eq!(logic.awaited(), Awaited::Nothing);
    let effects = logic.process_vcmi_command(VcmiCommand::Save {
        filename: "g1".to_string(),
        archive_bytes: vec![1, 2, 3],
    });
    assert_eq!(
        effects,
        Ok(vec![Effect::Store(IpfsCommand::UploadData {
            filename: "g1".to_string(),
            data: vec![1, 2, 3]
        })])
    );
    assert_eq!(logic.awaited(), Awaited::Store);
    assert_eq!(logic.operation(), Operation::Save);

    let effects = logic.process_ipfs_reply(IpfsReply::Uploaded {
        name: "blob".to_string(),
        hash: "QmHash".to_string(),
    });
    assert_eq!(
        effects,
        Ok(vec![Effect::Chain(GearCommand::SendAction(Action::Save(GameState {
            saver_id: ActorId { bytes: [0u8; 32] },
            archive: ArchiveDescription {
                filename: "g1".to_string(),
                name: "blob".to_string(),
                hash: "QmHash".to_string(),
            },
        })))])
    );
    assert_eq!(logic.awaited(), Awaited::Chain);

    let effects = logic.process_gear_reply(GearReply::Event(Event::Saved));
    assert_eq!(
        effects,
        Ok(vec![Effect::Game(VcmiReply::Saved), Effect::Chain(GearCommand::GetFreeBalance)])
    );
    assert_eq!(logic.awaited(), Awaited::Chain);

    let effects = logic.process_gear_reply(GearReply::FreeBalance(42));
    assert_eq!(effects, Ok(vec![Effect::Gui(GuiSignal::UpdateBalance(42))]));
    assert_eq!(logic.awaited(), Awaited::Nothing);
    assert_eq!(logic.operation(), Operation::Nothing);
}

#[test]
fn load_all_downloads_every_record_before_it_replies() {
    let mut logic = Logic::new();
    assert_eq!(
        logic.process_vcmi_command(VcmiCommand::LoadAll),
        Ok(vec![Effect::Chain(GearCommand::GetSavedGames)])
    );
    assert_eq!(logic.operation(), Operation::LoadAll);
    let effects = logic.process_gear_reply(GearReply::SavedGames(vec![
        record("g1", "hash1"),
        record("g2", "hash2"),
    ]));
    assert_eq!(
        effects,
        Ok(vec![Effect::Store(IpfsCommand::DownloadData { hash: "hash1".to_string() })])
    );
    assert_eq!(logic.awaited(), Awaited::Store);
    let effects = logic.process_ipfs_reply(IpfsReply::Downloaded { data: vec![1, 1] });
    assert_eq!(
        effects,
        Ok(vec![Effect::Store(IpfsCommand::DownloadData { hash: "hash2".to_string() })])
    );
    assert_eq!(logic.awaited(), Awaited::Store);
    let effects = logic.process_ipfs_reply(IpfsReply::Downloaded { data: vec![2] });
    assert_eq!(
        effects,
        Ok(vec![Effect::Game(VcmiReply::AllLoaded {
            archives: vec![
                VcmiSavedGame { filename: "g1".to_string(), data: vec![1, 1] },
                VcmiSavedGame { filename: "g2".to_string(), data: vec![2] },
            ]
        })])
    );
    assert_eq!(logic.awaited(), Awaited::Nothing);
}

#[test]
fn load_all_without_records_replies_at_once() {
    let mut logic = Logic::new();
    logic.process_vcmi_command(VcmiCommand::LoadAll).unwrap();
    assert_eq!(
        logic.process_gear_reply(GearReply::SavedGames(vec![])),
        Ok(vec![Effect::Game(VcmiReply::AllLoaded { archives: vec![] })])
    );
    assert_eq!(logic.awaited(), Awaited::Nothing);
}

#[test]
fn a_second_command_waits_while_an_operation_is_under_way() {
    let mut logic = Logic::new();
    logic
        .process_vcmi_command(VcmiCommand::Save { filename: "g1".to_string(), archive_bytes: vec![1] })
        .unwrap();
    assert_eq!(logic.process_vcmi_command(VcmiCommand::LoadAll), Err(LogicError::Busy));
    assert_eq!(logic.process_gui_command(GuiCommand::Cancel), Err(LogicError::Busy));
    assert_eq!(logic.awaited(), Awaited::Store);
    assert_eq!(logic.operation(), Operation::Save);
    let effects = logic.process_ipfs_reply(IpfsReply::Uploaded {
        name: "n".to_string(),
        hash: "h".to_string(),
    });
    assert!(matches!(effects, Ok(ref list) if list.len() == 1));
    assert_eq!(logic.awaited(), Awaited::Chain);
}

#[test]
fn an_unexpected_reply_ends_the_operation_with_an_error() {
    let mut logic = Logic::new();
    logic
        .process_vcmi_command(VcmiCommand::Save { filename: "g1".to_string(), archive_bytes: vec![1] })
        .unwrap();
    assert_eq!(
        logic.process_ipfs_reply(IpfsReply::Downloaded { data: vec![] }),
        Err(LogicError::UnexpectedReply { during: Operation::Save })
    );
    assert_eq!(logic.awaited(), Awaited::Nothing);

    logic.process_vcmi_command(VcmiCommand::LoadAll).unwrap();
    assert_eq!(
        logic.process_gear_reply(GearReply::FreeBalance(1)),
        Err(LogicError::UnexpectedReply { during: Operation::LoadAll })
    );
    assert_eq!(logic.awaited(), Awaited::Nothing);

    assert_eq!(
        logic.process_gear_reply(GearReply::Connected),
        Err(LogicError::UnexpectedReply { during: Operation::Nothing })
    );
    assert_eq!(
        logic.process_ipfs_reply(IpfsReply::Failed { reason: "x".to_string() }),
        Err(LogicError::UnexpectedReply { during: Operation::Nothing })
    );

    logic.process_vcmi_command(VcmiCommand::LoadAll).unwrap();
    assert_eq!(
        logic.process_ipfs_reply(IpfsReply::Downloaded { data: vec![] }),
        Err(LogicError::UnexpectedReply { during: Operation::LoadAll })
    );
    logic
        .process_vcmi_command(VcmiCommand::Save { filename: "g".to_string(), archive_bytes: vec![] })
        .unwrap();
    assert_eq!(
        logic.process_gear_reply(GearReply::Event(Event::Saved)),
        Err(LogicError::UnexpectedReply { during: Operation::Save })
    );
    logic
        .process_vcmi_command(VcmiCommand::Save { filename: "g".to_string(), archive_bytes: vec![] })
        .unwrap();
    logic
        .process_ipfs_reply(IpfsReply::Uploaded { name: "n".to_string(), hash: "h".to_string() })
        .unwrap();
    assert_eq!(
        logic.process_gear_reply(GearReply::Event(Event::Loaded)),
        Err(LogicError::UnexpectedReply { during: Operation::Save })
    );
}

#[test]
fn failures_of_the_backends_become_alerts() {
    let mut logic = Logic::new();
    logic
        .process_vcmi_command(VcmiCommand::Save { filename: "g1".to_string(), archive_bytes: vec![1] })
        .unwrap();
    assert_eq!(
        logic.process_ipfs_reply(IpfsReply::Failed { reason: "store down".to_string() }),
        Ok(vec![Effect::Gui(GuiSignal::Alert("store down".to_string()))])
    );
    assert_eq!(logic.awaited(), Awaited::Nothing);
    logic.process_vcmi_command(VcmiCommand::LoadAll).unwrap();
    assert_eq!(
        logic.process_gear_reply(GearReply::NotConnected("node down".to_string())),
        Ok(vec![Effect::Gui(GuiSignal::Alert("node down".to_string()))])
    );
    assert_eq!(logic.awaited(), Awaited::Nothing);
    logic.process_vcmi_command(VcmiCommand::LoadAll).unwrap();
    logic.process_gear_reply(GearReply::SavedGames(vec![record("g1", "h1")])).unwrap();
    assert_eq!(
        logic.process_ipfs_reply(IpfsReply::Failed { reason: "gone".to_string() }),
        Ok(vec![Effect::Gui(GuiSignal::Alert("gone".to_string()))])
    );
    assert_eq!(logic.awaited(), Awaited::Nothing);
}

#[test]
fn the_dialogs_are_shown() {
    let mut logic = Logic::new();
    assert_eq!(
        logic.process_vcmi_command(VcmiCommand::ShowConnectDialog),
        Ok(vec![
            Effect::Window(WindowOp::ShowConnectDialog),
            Effect::Game(VcmiReply::ConnectDialogShowed)
        ])
    );
    assert_eq!(logic.awaited(), Awaited::Nothing);
    assert_eq!(
        logic.process_vcmi_command(VcmiCommand::ShowLoadGameDialog),
        Ok(vec![Effect::Chain(GearCommand::GetSavedGames)])
    );
    assert_eq!(logic.operation(), Operation::ShowLoadGameDialog);
    assert_eq!(
        logic.process_gear_reply(GearReply::SavedGames(vec![record("g1", "h1")])),
        Ok(vec![Effect::Game(VcmiReply::LoadGameDialogShowed)])
    );
    assert_eq!(logic.awaited(), Awaited::Nothing);
}

#[test]
fn load_sends_the_action_and_consumes_its_reply() {
    let mut logic = Logic::new();
    assert_eq!(
        logic.process_vcmi_command(VcmiCommand::Load("QmHash".to_string())),
        Ok(vec![Effect::Chain(GearCommand::SendAction(Action::Load {
            hash: "QmHash".to_string()
        }))])
    );
    assert_eq!(logic.operation(), Operation::Load);
    assert_eq!(logic.process_gear_reply(GearReply::Event(Event::Loaded)), Ok(vec![]));
    assert_eq!(logic.awaited(), Awaited::Nothing);
}

#[test]
fn the_shell_connects_to_the_lobby() {
    let mut logic = Logic::new();
    let effects = logic.process_gui_command(GuiCommand::Connect {
        lobby_address: "lobby:3031".to_string(),
        username: "ann".to_string(),
        node_address: "wss://node".to_string(),
        program_id: "0x00".to_string(),
        password: "pw".to_string(),
        account_id: "acc".to_string(),
    });
    assert_eq!(
        effects,
        Ok(vec![
            Effect::Lobby(LobbyCommand::Connect("lobby:3031".to_string())),
            Effect::Lobby(LobbyCommand::Greeting("ann".to_string(), VCMI_VERSION.to_string())),
        ])
    );
    assert_eq!(logic.awaited(), Awaited::Nothing);
    assert_eq!(VCMI_VERSION, "VCMI 1.2.1.6f9e76ad3ee0ec77ba9b52c857b8d50e631d1ef6");
}

#[test]
fn the_shell_connects_to_the_node() {
    let mut logic = Logic::new();
    let command = GuiCommand::ConnectToNode {
        address: "wss://node".to_string(),
        program_id: "0xabc".to_string(),
        account_id: "acc".to_string(),
        password: "pw".to_string(),
    };
    assert_eq!(NODE_PORT, 443);
    assert_eq!(
        logic.process_gui_command(command.clone()),
        Ok(vec![Effect::Chain(GearCommand::ConnectToNode {
            address: NodeAddress { url: "wss://node".to_string(), port: 443 },
            program_id: "0xabc".to_string(),
            account_id: "acc".to_string(),
            password: "pw".to_string(),
        })])
    );
    assert_eq!(logic.operation(), Operation::ConnectToNode);
    assert_eq!(
        logic.process_gear_reply(GearReply::Connected),
        Ok(vec![Effect::Window(WindowOp::ShowLog), Effect::Game(VcmiReply::ConnectDialogShowed)])
    );
    assert_eq!(logic.awaited(), Awaited::Nothing);
    logic.process_gui_command(command).unwrap();
    assert_eq!(
        logic.process_gear_reply(GearReply::ProgramNotFound { program_id: "0abc".to_string() }),
        Ok(vec![Effect::Gui(GuiSignal::Alert("0abc".to_string()))])
    );
    assert_eq!(logic.awaited(), Awaited::Nothing);
}

#[test]
fn the_other_commands_of_the_shell() {
    let mut logic = Logic::new();
    assert_eq!(
        logic.process_gui_command(GuiCommand::ExpandLog),
        Ok(vec![Effect::Window(WindowOp::ExpandLog)])
    );
    assert_eq!(
        logic.process_gui_command(GuiCommand::NewRoom {
            room_name: "den".to_string(),
            password: "pw".to_string(),
            max_players: 4,
            mods: "m".to_string(),
        }),
        Ok(vec![Effect::Lobby(LobbyCommand::Create(
            "den".to_string(),
            "pw".to_string(),
            4,
            "m".to_string()
        ))])
    );
    assert_eq!(
        logic.process_gui_command(GuiCommand::JoinRoom {
            room_name: "den".to_string(),
            password: "pw".to_string(),
            mods: "m".to_string(),
        }),
        Ok(vec![Effect::Lobby(LobbyCommand::Join(
            "den".to_string(),
            "pw".to_string(),
            "m".to_string()
        ))])
    );
    assert_eq!(
        logic.process_gui_command(GuiCommand::Ready { room_name: "den".to_string() }),
        Ok(vec![Effect::Lobby(LobbyCommand::Ready("den".to_string()))])
    );
    assert_eq!(
        logic.process_gui_command(GuiCommand::Cancel),
        Ok(vec![
            Effect::Window(WindowOp::HideConnectDialog),
            Effect::Game(VcmiReply::CanceledDialog),
            Effect::Stop
        ])
    );
}

#[test]
fn a_start_reply_starts_the_game_client() {
    let logic = Logic::new();
    let reply = LobbyReply::Start(
        "10.0.0.1".to_string(),
        3030,
        1,
        "ann".to_string(),
        "uuid-1".to_string(),
    );
    assert_eq!(
        logic.process_lobby_reply(reply),
        vec![Effect::Spawn(strings(&[
            "--lobby",
            "--lobby-address",
            "10.0.0.1",
            "--lobby-port",
            "3030",
            "--lobby-username",
            "ann",
            "--lobby-gamemode",
            "1",
            "--uuid",
            "uuid-1",
        ]))]
    );
    assert_eq!(
        start_game("h".to_string(), 65535, 0, "u".to_string(), "c".to_string()),
        strings(&[
            "--lobby",
            "--lobby-address",
            "h",
            "--lobby-port",
            "65535",
            "--lobby-username",
            "u",
            "--lobby-gamemode",
            "0",
            "--uuid",
            "c",
        ])
    );
}

#[test]
fn a_host_reply_starts_the_game_client_as_host() {
    let logic = Logic::new();
    assert_eq!(
        logic.process_lobby_reply(LobbyReply::Host("uuid-2".to_string(), 8)),
        vec![Effect::Spawn(strings(&[
            "--lobby-host",
            "--lobby-uuid",
            "uuid-2",
            "--lobby-connections",
            "8",
        ]))]
    );
    assert_eq!(
        host_game("s".to_string(), 200),
        strings(&["--lobby-host", "--lobby-uuid", "s", "--lobby-connections", "200"])
    );
}

#[test]
fn lobby_replies_become_signals() {
    let logic = Logic::new();
    let signal = |reply: LobbyReply| -> Vec<Effect> { logic.process_lobby_reply(reply) };
    assert_eq!(signal(LobbyReply::Connected), vec![Effect::Gui(GuiSignal::ShowRooms)]);
    assert_eq!(
        signal(LobbyReply::Created("den".to_string())),
        vec![Effect::Gui(GuiSignal::Created("den".to_string()))]
    );
    let rooms = vec![Room { joined: 1, total: 4, protected: true, name: "den".to_string() }];
    assert_eq!(
        signal(LobbyReply::Sessions(rooms.clone())),
        vec![Effect::Gui(GuiSignal::AddSessions(rooms))]
    );
    assert_eq!(
        signal(LobbyReply::Joined("den".to_string(), "ann".to_string())),
        vec![Effect::Gui(GuiSignal::Joined("den".to_string(), "ann".to_string()))]
    );
    assert_eq!(
        signal(LobbyReply::Kicked("den".to_string(), "ann".to_string())),
        vec![Effect::Gui(GuiSignal::Kicked("den".to_string(), "ann".to_string()))]
    );
    assert_eq!(
        signal(LobbyReply::Status("2".to_string(), "den".to_string(), "ann".to_string())),
        vec![Effect::Gui(GuiSignal::Status(
            "2".to_string(),
            "den".to_string(),
            "ann".to_string()
        ))]
    );
    assert_eq!(
        signal(LobbyReply::ServerError("full".to_string())),
        vec![Effect::Gui(GuiSignal::Alert("full".to_string()))]
    );
    assert_eq!(
        signal(LobbyReply::Chat("ann".to_string(), "hi".to_string())),
        vec![Effect::Gui(GuiSignal::ChatMessage("ann".to_string(), "hi".to_string()))]
    );
    assert_eq!(
        signal(LobbyReply::Users(strings(&["ann", "bob"]))),
        vec![Effect::Gui(GuiSignal::AddUsers(strings(&["ann", "bob"])))]
    );
    assert_eq!(signal(LobbyReply::GameMode(2)), vec![Effect::Gui(GuiSignal::UpdateGameMode(2))]);
    assert_eq!(signal(LobbyReply::Mods), vec![]);
    assert_eq!(signal(LobbyReply::ClientMods), vec![]);
    assert_eq!(signal(LobbyReply::Health), vec![]);
}

#[test]
fn signals_have_the_names_the_shell_listens_for() {
    assert_eq!(GuiSignal::ShowRooms.name(), "showRooms");
    assert_eq!(GuiSignal::Created(String::new()).name(), "created");
    assert_eq!(GuiSignal::AddSessions(vec![]).name(), "addSessions");
    assert_eq!(GuiSignal::Joined(String::new(), String::new()).name(), "joined");
    assert_eq!(GuiSignal::Kicked(String::new(), String::new()).name(), "kicked");
    assert_eq!(GuiSignal::Status(String::new(), String::new(), String::new()).name(), "status");
    assert_eq!(GuiSignal::Alert(String::new()).name(), "alert");
    assert_eq!(GuiSignal::ChatMessage(String::new(), String::new()).name(), "chatMessage");
    assert_eq!(GuiSignal::AddUsers(vec![]).name(), "addUsers");
    assert_eq!(GuiSignal::UpdateGameMode(0).name(), "updateGameMode");
    assert_eq!(GuiSignal::UpdateBalance(0).name(), "update_balance");
}

#[test]
fn recipients_and_messages_are_told_apart() {
    assert_ne!(Recipient::GearClient, Recipient::Vcmi);
    assert_ne!(Recipient::Vcmi, Recipient::Gui);
    assert_ne!(Message::VcmiCommand, Message::VcmiReply);
    assert_ne!(Message::Action, Message::Event);
}
