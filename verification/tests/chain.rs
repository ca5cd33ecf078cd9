use gear_connector::gear_client::{
    parse_program_id, Action, ActorId, ArchiveDescription, Asked, ChainState, ChainStep, Event,
    GameState, GearClient, GearCommand, GearReply, NodeAddress, NodeRequest, NodeResult,
};

const PROGRAM: &str = "0x000102030405060708090a0b0c0d0e0f101112131415161718191A1B1C1D1E1F";

fn program_bytes() -> [u8; 32] {
    let mut bytes = [0u8; 32];
    for (i, b) in bytes.iter_mut().enumerate() {
        *b = i as u8;
    }
    bytes
}

fn address() -> NodeAddress {
    NodeAddress { url: "wss://node".to_string(), port: 443 }
}

fn connect_command(program_id: &str) -> GearCommand {
    GearCommand::ConnectToNode {
        address: address(),
        program_id: program_id.to_string(),
        account_id: "//Alice".to_string(),
        password: "secret".to_string(),
    }
}

fn game(hash: &str) -> GameState {
    GameState {
        saver_id: ActorId::zero(),
        archive: ArchiveDescription {
            filename: "g1".to_string(),
            name: "n".to_string(),
            hash: hash.to_string(),
        },
    }
}

fn connected() -> GearClient {
    let mut client = GearClient::new();
    client.process_command(connect_command(PROGRAM));
    assert_eq!(client.process_result(NodeResult::Opened), Some(GearReply::Connected));
    client
}

#[test]
fn a_program_id_is_sixty_four_digits_behind_two_characters() {
    assert_eq!(parse_program_id(PROGRAM), Some(ActorId { bytes: program_bytes() }));
    assert_eq!(
        parse_program_id("0xffffffffffffffffffffffffffffffffffffffffffffffffffffffffffffffff"),
        Some(ActorId { bytes: [255u8; 32] })
    );
    assert_eq!(
        parse_program_id("zzABCDEFabcdef0123456789000000000000000000000000000000000000000000"),
        Some(ActorId {
            bytes: [
                0xab, 0xcd, 0xef, 0xab, 0xcd, 0xef, 0x01, 0x23, 0x45, 0x67, 0x89, 0, 0, 0, 0, 0,
                0, 0, 0, 0, 0, 0, 0, 0, 0, 0, 0, 0, 0, 0, 0, 0
            ]
        })
    );
}

#[test]
fn a_program_id_of_another_shape_is_refused() {
    assert_eq!(parse_program_id(""), None);
    assert_eq!(parse_program_id("0"), None);
    assert_eq!(parse_program_id("0x"), None);
    assert_eq!(parse_program_id("0x00"), None);
    assert_eq!(parse_program_id(&PROGRAM[..65]), None);
    assert_eq!(parse_program_id(&format!("{}00", PROGRAM)), None);
    assert_eq!(parse_program_id(&PROGRAM[2..]), None);
    assert_eq!(
        parse_program_id("0x00010203040506070809000000000000000000000000000000000000000000zz"),
        None
    );
    assert_eq!(
        parse_program_id("0xé0010203040506070809000000000000000000000000000000000000000000"),
        None
    );
}

#[test]
fn the_zero_address_is_all_zeros() {
    assert_eq!(ActorId::zero().bytes, [0u8; 32]);
}

#[test]
fn connecting_asks_the_node_with_the_credentials() {
    let mut client = GearClient::new();
    assert_eq!(client.state, ChainState::Disconnected);
    assert!(!client.owes_reply());
    let step = client.process_command(connect_command(PROGRAM));
    assert_eq!(
        step,
        ChainStep::Ask(NodeRequest::Open {
            address: address(),
            suri: "//Alice:secret".to_string(),
            program_id: ActorId { bytes: program_bytes() },
        })
    );
    assert_eq!(
        client.state,
        ChainState::Connecting { program_id: ActorId { bytes: program_bytes() } }
    );
    assert!(client.owes_reply());
    assert_eq!(client.process_result(NodeResult::Opened), Some(GearReply::Connected));
    assert_eq!(
        client.state,
        ChainState::Connected {
            program_id: ActorId { bytes: program_bytes() },
            asked: Asked::Nothing
        }
    );
    assert!(!client.owes_reply());
}

#[test]
fn a_missing_program_is_named_in_lower_case_hexadecimal() {
    let mut client = GearClient::new();
    client.process_command(connect_command(PROGRAM));
    assert_eq!(
        client.process_result(NodeResult::ProgramMissing),
        Some(GearReply::ProgramNotFound {
            program_id: "000102030405060708090a0b0c0d0e0f101112131415161718191a1b1c1d1e1f"
                .to_string()
        })
    );
    assert_eq!(client.state, ChainState::Disconnected);
}

#[test]
fn a_refused_connection_is_reported_with_its_reason() {
    let mut client = GearClient::new();
    client.process_command(connect_command(PROGRAM));
    assert_eq!(
        client.process_result(NodeResult::Failed("no route".to_string())),
        Some(GearReply::NotConnected("no route".to_string()))
    );
    assert_eq!(client.state, ChainState::Disconnected);
}

#[test]
fn a_bad_program_id_is_answered_at_once() {
    let mut client = GearClient::new();
    assert_eq!(
        client.process_command(connect_command("0x12")),
        ChainStep::Reply(GearReply::NotConnected(
            "the program id is not 32 bytes in hexadecimal".to_string()
        ))
    );
    assert_eq!(client.state, ChainState::Disconnected);
}

#[test]
fn connecting_twice_is_answered_at_once() {
    let mut client = connected();
    assert_eq!(
        client.process_command(connect_command("whatever")),
        ChainStep::Reply(GearReply::Connected)
    );
}

#[test]
fn without_a_connection_every_question_fails_cleanly() {
    let mut client = GearClient::new();
    let reply = ChainStep::Reply(GearReply::NotConnected(
        "not connected to the chain node".to_string(),
    ));
    assert_eq!(client.process_command(GearCommand::GetFreeBalance), reply);
    assert_eq!(client.process_command(GearCommand::GetSavedGames), reply);
    assert_eq!(client.process_command(GearCommand::SendAction(Action::Save(game("h")))), reply);
    assert_eq!(client.state, ChainState::Disconnected);
}

#[test]
fn an_action_is_submitted_and_reports_its_event() {
    let mut client = connected();
    let id = ActorId { bytes: program_bytes() };
    assert_eq!(
        client.process_command(GearCommand::SendAction(Action::Save(game("h")))),
        ChainStep::Ask(NodeRequest::Submit { program_id: id, action: Action::Save(game("h")) })
    );
    assert_eq!(
        client.state,
        ChainState::Connected { program_id: id, asked: Asked::Submit(Event::Saved) }
    );
    assert_eq!(client.process_result(NodeResult::Accepted), Some(GearReply::Event(Event::Saved)));
    let load = Action::Load { hash: "h".to_string() };
    assert_eq!(
        client.process_command(GearCommand::SendAction(load.clone())),
        ChainStep::Ask(NodeRequest::Submit { program_id: id, action: load })
    );
    assert_eq!(client.process_result(NodeResult::Accepted), Some(GearReply::Event(Event::Loaded)));
}

#[test]
fn balance_and_saved_games_are_read() {
    let mut client = connected();
    let id = ActorId { bytes: program_bytes() };
    assert_eq!(client.process_command(GearCommand::GetFreeBalance), ChainStep::Ask(NodeRequest::ReadBalance));
    assert_eq!(
        client.process_result(NodeResult::Balance(1_000_000_000_000)),
        Some(GearReply::FreeBalance(1_000_000_000_000))
    );
    assert_eq!(
        client.process_command(GearCommand::GetSavedGames),
        ChainStep::Ask(NodeRequest::ReadState { program_id: id })
    );
    let games = vec![(ActorId::zero(), game("h1")), (id, game("h2"))];
    assert_eq!(
        client.process_result(NodeResult::State(games.clone())),
        Some(GearReply::SavedGames(games))
    );
    assert!(!client.owes_reply());
}

#[test]
fn a_second_command_is_handed_back_while_a_reply_is_owed() {
    let mut client = connected();
    client.process_command(GearCommand::GetFreeBalance);
    let before = client.state;
    assert_eq!(
        client.process_command(GearCommand::GetSavedGames),
        ChainStep::Refused(GearCommand::GetSavedGames)
    );
    assert_eq!(client.state, before);
    assert_eq!(client.process_result(NodeResult::Balance(5)), Some(GearReply::FreeBalance(5)));
}

#[test]
fn a_failure_ends_the_connection() {
    let mut client = connected();
    client.process_command(GearCommand::GetFreeBalance);
    assert_eq!(
        client.process_result(NodeResult::Failed("reset".to_string())),
        Some(GearReply::NotConnected("reset".to_string()))
    );
    assert_eq!(client.state, ChainState::Disconnected);
    let mut idle = connected();
    assert_eq!(idle.process_result(NodeResult::Failed("reset".to_string())), None);
    assert_eq!(idle.state, ChainState::Disconnected);
}

#[test]
fn an_answer_that_was_not_asked_for_ends_the_connection() {
    let mut client = connected();
    client.process_command(GearCommand::GetFreeBalance);
    assert_eq!(
        client.process_result(NodeResult::Accepted),
        Some(GearReply::NotConnected(
            "the chain node gave an answer that was not asked for".to_string()
        ))
    );
    assert_eq!(client.state, ChainState::Disconnected);
    let mut idle = connected();
    let before = idle.state;
    assert_eq!(idle.process_result(NodeResult::Balance(1)), None);
    assert_eq!(idle.state, before);
}
