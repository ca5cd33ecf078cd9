//! The lobby wire protocol: outbound commands written as bracket-tagged text,
//! inbound replies read from colon-delimited frames.

use crate::text::{
    append_chars, bounded_decimal, capped, chars_of, decimal_text, parse_capped, parse_u32,
    push_decimal, same_text, split, split_on, starts_with, to_string, unsigned_decimal, views,
};
use crate::text::{lemma_first_occurrence, lemma_no_occurrence, occurs_at};
use vstd::prelude::*;
use vstd::utf8::{decode_utf8, encode_utf8, is_ascii_chars_encode_utf8, valid_utf8};

verus! {

/// The protocol version announced in the greeting.
pub const PROTOCOL_VERSION: u8 = 4;

/// The version of the game client that the greeting names.
pub const VCMI_VERSION: &'static str = "VCMI 1.2.1.6f9e76ad3ee0ec77ba9b52c857b8d50e631d1ef6";

/// A request to the lobby server.
#[derive(Debug, Clone, PartialEq, Eq)]
pub enum LobbyCommand {
    Connect(String),
    Greeting(String, String),
    Username(String),
    Message(String),
    Create(String, String, u8, String),
    Join(String, String, String),
    Leave(String),
    Kick(String),
    Ready(String),
    ForceStart(String),
    Here,
    Alive,
    HostMode(u8),
}

/// The mathematical content of a [`LobbyCommand`].
pub enum LobbyCommandView {
    Connect(Seq<char>),
    Greeting(Seq<char>, Seq<char>),
    Username(Seq<char>),
    Message(Seq<char>),
    Create(Seq<char>, Seq<char>, u8, Seq<char>),
    Join(Seq<char>, Seq<char>, Seq<char>),
    Leave(Seq<char>),
    Kick(Seq<char>),
    Ready(Seq<char>),
    ForceStart(Seq<char>),
    Here,
    Alive,
    HostMode(u8),
}

impl View for LobbyCommand {
    type V = LobbyCommandView;

    open spec fn view(&self) -> LobbyCommandView {
        match *self {
            LobbyCommand::Connect(a) => LobbyCommandView::Connect(a@),
            LobbyCommand::Greeting(n, v) => LobbyCommandView::Greeting(n@, v@),
            LobbyCommand::Username(n) => LobbyCommandView::Username(n@),
            LobbyCommand::Message(m) => LobbyCommandView::Message(m@),
            LobbyCommand::Create(r, p, c, m) => LobbyCommandView::Create(r@, p@, c, m@),
            LobbyCommand::Join(r, p, m) => LobbyCommandView::Join(r@, p@, m@),
            LobbyCommand::Leave(r) => LobbyCommandView::Leave(r@),
            LobbyCommand::Kick(n) => LobbyCommandView::Kick(n@),
            LobbyCommand::Ready(r) => LobbyCommandView::Ready(r@),
            LobbyCommand::ForceStart(r) => LobbyCommandView::ForceStart(r@),
            LobbyCommand::Here => LobbyCommandView::Here,
            LobbyCommand::Alive => LobbyCommandView::Alive,
            LobbyCommand::HostMode(m) => LobbyCommandView::HostMode(m),
        }
    }
}

impl LobbyCommandView {
    /// Whether the command travels to the server as text. `Connect` does
    /// not: it opens the connection that the others are written to.
    pub open spec fn has_wire_form(self) -> bool {
        !(self is Connect)
    }

    /// The tagged text of the command.
    pub open spec fn wire_text(self) -> Seq<char> {
        match self {
            LobbyCommandView::Connect(_) => Seq::empty(),
            LobbyCommandView::Greeting(name, version) => "utf8"@ + "<GREETINGS>"@ + name
                + "<VER>"@ + version,
            LobbyCommandView::Username(name) => "<USER>"@ + name,
            LobbyCommandView::Message(message) => "<MSG>"@ + message,
            LobbyCommandView::Create(room, password, count, mods) => "<NEW>"@ + room + "<PSWD>"@
                + password + "<COUNT>"@ + decimal_text(count as nat) + "<MODS>"@ + mods,
            LobbyCommandView::Join(room, password, mods) => "<JOIN>"@ + room + "<PSWD>"@
                + password + "<MODS>"@ + mods,
            LobbyCommandView::Leave(room) => "<LEAVE>"@ + room,
            LobbyCommandView::Kick(name) => "<KICK>"@ + name,
            LobbyCommandView::Ready(room) => "<READY>"@ + room,
            LobbyCommandView::ForceStart(room) => "<FORCESTART>"@ + room,
            LobbyCommandView::Here => "<HERE>"@,
            LobbyCommandView::Alive => "<ALIVE>"@,
            LobbyCommandView::HostMode(mode) => "<HOSTMODE>"@ + decimal_text(mode as nat),
        }
    }

    /// The bytes written to the server: the tagged text in UTF-8. The
    /// greeting opens with the protocol version and the length in bytes of
    /// the encoding's name, which is the first word of its text.
    pub open spec fn wire_bytes(self) -> Seq<u8> {
        match self {
            LobbyCommandView::Greeting(_, _) => seq![
                PROTOCOL_VERSION,
                encode_utf8("utf8"@).len() as u8,
            ] + encode_utf8(self.wire_text()),
            _ => encode_utf8(self.wire_text()),
        }
    }
}

impl LobbyCommand {
    /// Writes the command as the bytes that go to the server.
    pub fn to_bytes(&self) -> (bytes: Vec<u8>)
        requires
            self@.has_wire_form(),
        ensures
            bytes@ == self@.wire_bytes(),
    {
        let mut text = String::new();
        let mut bytes: Vec<u8> = Vec::new();
        match self {
            LobbyCommand::Connect(_) => {},
            LobbyCommand::Greeting(name, version) => {
                let encoding = "utf8";
                proof {
                    reveal_strlit("utf8");
                    is_ascii_chars_encode_utf8(encoding@);
                }
                bytes.push(PROTOCOL_VERSION);
                bytes.push(encoding.len() as u8);
                text.append(encoding);
                text.append("<GREETINGS>");
                text.append(name.as_str());
                text.append("<VER>");
                text.append(version.as_str());
            },
            LobbyCommand::Username(name) => {
                text.append("<USER>");
                text.append(name.as_str());
            },
            LobbyCommand::Message(message) => {
                text.append("<MSG>");
                text.append(message.as_str());
            },
            LobbyCommand::Create(room, password, count, mods) => {
                text.append("<NEW>");
                text.append(room.as_str());
                text.append("<PSWD>");
                text.append(password.as_str());
                text.append("<COUNT>");
                push_decimal(&mut text, *count as u64);
                text.append("<MODS>");
                text.append(mods.as_str());
            },
            LobbyCommand::Join(room, password, mods) => {
                text.append("<JOIN>");
                text.append(room.as_str());
                text.append("<PSWD>");
                text.append(password.as_str());
                text.append("<MODS>");
                text.append(mods.as_str());
            },
            LobbyCommand::Leave(room) => {
                text.append("<LEAVE>");
                text.append(room.as_str());
            },
            LobbyCommand::Kick(name) => {
                text.append("<KICK>");
                text.append(name.as_str());
            },
            LobbyCommand::Ready(room) => {
                text.append("<READY>");
                text.append(room.as_str());
            },
            LobbyCommand::ForceStart(room) => {
                text.append("<FORCESTART>");
                text.append(room.as_str());
            },
            LobbyCommand::Here => {
                text.append("<HERE>");
            },
            LobbyCommand::Alive => {
                text.append("<ALIVE>");
            },
            LobbyCommand::HostMode(mode) => {
                text.append("<HOSTMODE>");
                push_decimal(&mut text, *mode as u64);
            },
        }
        assert(text@ =~= self@.wire_text());
        let body = text.as_str().as_bytes_vec();
        bytes.extend_from_slice(body.as_slice());
        assert(bytes@ =~= self@.wire_bytes());
        bytes
    }
}

/// How a reply frame breaks the protocol.
#[derive(Debug, Clone, Copy, PartialEq, Eq, Structural)]
pub enum ProtocolError {
    /// The frame begins with none of the known reply tags.
    UnknownTag,
    /// The frame ends before all its fields are read.
    MissingField,
    /// A field that should write a number does not, or the number is too large.
    InvalidNumber,
    /// A field that should read `True` or `False` reads something else.
    InvalidFlag,
    /// What the server sent is not text in UTF-8.
    InvalidText,
}

/// A game room, as the server lists it.
#[derive(Debug, Clone, PartialEq, Eq)]
pub struct Room {
    pub joined: u32,
    pub total: u32,
    pub protected: bool,
    pub name: String,
}

/// The mathematical content of a [`Room`].
pub struct RoomView {
    pub joined: u32,
    pub total: u32,
    pub protected: bool,
    pub name: Seq<char>,
}

impl View for Room {
    type V = RoomView;

    open spec fn view(&self) -> RoomView {
        RoomView {
            joined: self.joined,
            total: self.total,
            protected: self.protected,
            name: self.name@,
        }
    }
}

/// What the lobby tells the client.
#[derive(Debug, Clone, PartialEq, Eq)]
pub enum LobbyReply {
    Connected,
    /// The room that was created.
    Created(String),
    Sessions(Vec<Room>),
    /// Room and user.
    Joined(String, String),
    /// Room and user.
    Kicked(String, String),
    /// Address, port, game mode, user name and connection id of a game to join.
    Start(String, u16, u8, String, String),
    /// Server id and number of players of a game to host.
    Host(String, u8),
    /// Number of users, room and user.
    Status(String, String, String),
    ServerError(String),
    Mods,
    ClientMods,
    /// User and message.
    Chat(String, String),
    Users(Vec<String>),
    Health,
    GameMode(u8),
}

/// The mathematical content of a [`LobbyReply`].
pub enum LobbyReplyView {
    Connected,
    Created(Seq<char>),
    Sessions(Seq<RoomView>),
    Joined(Seq<char>, Seq<char>),
    Kicked(Seq<char>, Seq<char>),
    Start(Seq<char>, u16, u8, Seq<char>, Seq<char>),
    Host(Seq<char>, u8),
    Status(Seq<char>, Seq<char>, Seq<char>),
    ServerError(Seq<char>),
    Mods,
    ClientMods,
    Chat(Seq<char>, Seq<char>),
    Users(Seq<Seq<char>>),
    Health,
    GameMode(u8),
}

/// The contents of a list of rooms.
pub open spec fn room_views(rooms: Seq<Room>) -> Seq<RoomView> {
    rooms.map_values(|r: Room| r@)
}

/// The contents of a list of strings.
pub open spec fn string_views(strings: Seq<String>) -> Seq<Seq<char>> {
    strings.map_values(|s: String| s@)
}

impl View for LobbyReply {
    type V = LobbyReplyView;

    open spec fn view(&self) -> LobbyReplyView {
        match *self {
            LobbyReply::Connected => LobbyReplyView::Connected,
            LobbyReply::Created(r) => LobbyReplyView::Created(r@),
            LobbyReply::Sessions(rooms) => LobbyReplyView::Sessions(room_views(rooms@)),
            LobbyReply::Joined(r, u) => LobbyReplyView::Joined(r@, u@),
            LobbyReply::Kicked(r, u) => LobbyReplyView::Kicked(r@, u@),
            LobbyReply::Start(a, p, m, u, c) => LobbyReplyView::Start(a@, p, m, u@, c@),
            LobbyReply::Host(s, n) => LobbyReplyView::Host(s@, n),
            LobbyReply::Status(n, r, u) => LobbyReplyView::Status(n@, r@, u@),
            LobbyReply::ServerError(e) => LobbyReplyView::ServerError(e@),
            LobbyReply::Mods => LobbyReplyView::Mods,
            LobbyReply::ClientMods => LobbyReplyView::ClientMods,
            LobbyReply::Chat(u, m) => LobbyReplyView::Chat(u@, m@),
            LobbyReply::Users(names) => LobbyReplyView::Users(string_views(names@)),
            LobbyReply::Health => LobbyReplyView::Health,
            LobbyReply::GameMode(m) => LobbyReplyView::GameMode(m),
        }
    }
}

/// What a parser hands back, by its content.
pub open spec fn outcome(r: Result<LobbyReply, ProtocolError>) -> Result<
    LobbyReplyView,
    ProtocolError,
> {
    match r {
        Ok(reply) => Ok(reply@),
        Err(e) => Err(e),
    }
}

/// The fields of a frame: its pieces between colons. A frame `:>>TAG:a:b`
/// has the fields ``, `>>TAG`, `a`, `b`, so its payload starts at index 2.
pub open spec fn fields_of(raw: Seq<char>) -> Seq<Seq<char>> {
    split_on(raw, seq![':'])
}

/// The index of the first payload field.
pub open spec fn payload_start() -> int {
    2
}

/// The first index at or after `from` whose field is not empty.
pub open spec fn first_filled(fields: Seq<Seq<char>>, from: int) -> Option<int>
    decreases fields.len() - from,
{
    if from < 0 || from >= fields.len() {
        None
    } else if fields[from].len() > 0 {
        Some(from)
    } else {
        first_filled(fields, from + 1)
    }
}

/// The flag that a field writes.
pub open spec fn flag_of(field: Seq<char>) -> Option<bool> {
    if field == "True"@ {
        Some(true)
    } else if field == "False"@ {
        Some(false)
    } else {
        None
    }
}

/// The room written in the four fields from `base` on: name, players joined,
/// capacity, password flag.
pub open spec fn room_at(fields: Seq<Seq<char>>, base: int) -> Result<RoomView, ProtocolError> {
    if base < 0 || base + 4 > fields.len() {
        Err(ProtocolError::MissingField)
    } else {
        match (
            bounded_decimal(fields[base + 1], u32::MAX as nat),
            bounded_decimal(fields[base + 2], u32::MAX as nat),
            flag_of(fields[base + 3]),
        ) {
            (Some(joined), Some(total), Some(protected)) => Ok(
                RoomView { joined: joined as u32, total: total as u32, protected, name: fields[base] },
            ),
            (Some(_), Some(_), None) => Err(ProtocolError::InvalidFlag),
            _ => Err(ProtocolError::InvalidNumber),
        }
    }
}

/// The first `count` rooms written from `base` on, or what is wrong with
/// the first of them that cannot be read.
pub open spec fn rooms_from(fields: Seq<Seq<char>>, base: int, count: nat) -> Result<
    Seq<RoomView>,
    ProtocolError,
>
    decreases count,
{
    if count == 0 {
        Ok(Seq::empty())
    } else {
        match rooms_from(fields, base, (count - 1) as nat) {
            Err(e) => Err(e),
            Ok(rooms) => match room_at(fields, base + 4 * (count - 1)) {
                Err(e) => Err(e),
                Ok(room) => Ok(rooms.push(room)),
            },
        }
    }
}

/// The reply of a `SESSIONS` frame: a room count, then four fields a room.
/// Empty fields ahead of the count are passed over.
pub open spec fn sessions_reply(raw: Seq<char>) -> Result<LobbyReplyView, ProtocolError> {
    let fields = fields_of(raw);
    match first_filled(fields, payload_start()) {
        None => Err(ProtocolError::MissingField),
        Some(at) => match unsigned_decimal(fields[at]) {
            None => Err(ProtocolError::InvalidNumber),
            Some(count) => match rooms_from(fields, at + 1, count) {
                Err(e) => Err(e),
                Ok(rooms) => Ok(LobbyReplyView::Sessions(rooms)),
            },
        },
    }
}

/// The reply of a `USERS` frame: a user count, then one name a user.
/// Empty fields ahead of the count are passed over.
pub open spec fn users_reply(raw: Seq<char>) -> Result<LobbyReplyView, ProtocolError> {
    let fields = fields_of(raw);
    match first_filled(fields, payload_start()) {
        None => Err(ProtocolError::MissingField),
        Some(at) => match unsigned_decimal(fields[at]) {
            None => Err(ProtocolError::InvalidNumber),
            Some(count) => if at + 1 + count <= fields.len() {
                Ok(LobbyReplyView::Users(fields.subrange(at + 1, at + 1 + count)))
            } else {
                Err(ProtocolError::MissingField)
            },
        },
    }
}

/// The reply of a `CREATED` frame: the room's name.
pub open spec fn created_reply(raw: Seq<char>) -> Result<LobbyReplyView, ProtocolError> {
    let fields = fields_of(raw);
    if fields.len() > 2 {
        Ok(LobbyReplyView::Created(fields[2]))
    } else {
        Err(ProtocolError::MissingField)
    }
}

/// The reply of a `MSG` frame: who speaks, and what they say.
pub open spec fn message_reply(raw: Seq<char>) -> Result<LobbyReplyView, ProtocolError> {
    let fields = fields_of(raw);
    if fields.len() > 3 {
        Ok(LobbyReplyView::Chat(fields[2], fields[3]))
    } else {
        Err(ProtocolError::MissingField)
    }
}

/// The reply of an `ERROR` frame: the server's complaint.
pub open spec fn error_reply(raw: Seq<char>) -> Result<LobbyReplyView, ProtocolError> {
    let fields = fields_of(raw);
    if fields.len() > 2 {
        Ok(LobbyReplyView::ServerError(fields[2]))
    } else {
        Err(ProtocolError::MissingField)
    }
}

/// The reply of a `JOIN` frame: the room, and who joined it.
pub open spec fn join_reply(raw: Seq<char>) -> Result<LobbyReplyView, ProtocolError> {
    let fields = fields_of(raw);
    if fields.len() > 3 {
        Ok(LobbyReplyView::Joined(fields[2], fields[3]))
    } else {
        Err(ProtocolError::MissingField)
    }
}

/// The reply of a `STATUS` frame: number of users, room, user.
pub open spec fn status_reply(raw: Seq<char>) -> Result<LobbyReplyView, ProtocolError> {
    let fields = fields_of(raw);
    if fields.len() > 4 {
        Ok(LobbyReplyView::Status(fields[2], fields[3], fields[4]))
    } else {
        Err(ProtocolError::MissingField)
    }
}

/// The reply that a frame writes, chosen by the tag it begins with.
pub open spec fn reply_of(raw: Seq<char>) -> Result<LobbyReplyView, ProtocolError> {
    if ":>>CREATED:"@.is_prefix_of(raw) {
        created_reply(raw)
    } else if ":>>SESSIONS:"@.is_prefix_of(raw) {
        sessions_reply(raw)
    } else if ":>>USERS:"@.is_prefix_of(raw) {
        users_reply(raw)
    } else if ":>>MSG:"@.is_prefix_of(raw) {
        message_reply(raw)
    } else if ":>>ERROR:"@.is_prefix_of(raw) {
        error_reply(raw)
    } else if ":>>JOIN:"@.is_prefix_of(raw) {
        join_reply(raw)
    } else if ":>>STATUS:"@.is_prefix_of(raw) {
        status_reply(raw)
    } else if ":>>MODS:"@.is_prefix_of(raw) {
        Ok(LobbyReplyView::Mods)
    } else if ":>>MODSOTHER:"@.is_prefix_of(raw) {
        Ok(LobbyReplyView::ClientMods)
    } else {
        Err(ProtocolError::UnknownTag)
    }
}

/// Whether `raw` begins with one of the reply tags.
pub open spec fn has_known_tag(raw: Seq<char>) -> bool {
    ||| ":>>CREATED:"@.is_prefix_of(raw)
    ||| ":>>SESSIONS:"@.is_prefix_of(raw)
    ||| ":>>USERS:"@.is_prefix_of(raw)
    ||| ":>>MSG:"@.is_prefix_of(raw)
    ||| ":>>ERROR:"@.is_prefix_of(raw)
    ||| ":>>JOIN:"@.is_prefix_of(raw)
    ||| ":>>STATUS:"@.is_prefix_of(raw)
    ||| ":>>MODS:"@.is_prefix_of(raw)
    ||| ":>>MODSOTHER:"@.is_prefix_of(raw)
}

/// A frame with a tag that the protocol does not know is a protocol error,
/// whatever else it holds.
pub proof fn lemma_unknown_tag_is_rejected(raw: Seq<char>)
    requires
        !has_known_tag(raw),
    ensures
        reply_of(raw) == Err::<LobbyReplyView, ProtocolError>(ProtocolError::UnknownTag),
{
}

/// Once a room cannot be read, asking for more rooms changes nothing.
proof fn lemma_rooms_error_stays(fields: Seq<Seq<char>>, base: int, k: nat, count: nat)
    requires
        k <= count,
        rooms_from(fields, base, k) is Err,
    ensures
        rooms_from(fields, base, count) == rooms_from(fields, base, k),
    decreases count,
{
    if k < count {
        lemma_rooms_error_stays(fields, base, k, (count - 1) as nat);
    }
}

/// Rooms that can all be read fit in the fields that are there.
proof fn lemma_rooms_fit(fields: Seq<Seq<char>>, base: int, count: nat)
    requires
        rooms_from(fields, base, count) is Ok,
        count > 0,
    ensures
        base + 4 * count <= fields.len(),
{
}

fn fields(raw: &str) -> (r: Vec<Vec<char>>)
    ensures
        views(r@) == fields_of(raw@),
{
    let chars = chars_of(raw);
    let colon: Vec<char> = vec![':'];
    assert(colon@ == seq![':']);
    split(&chars, &colon)
}

fn find_filled(fields: &Vec<Vec<char>>, from: usize) -> (r: Option<usize>)
    ensures
        match r {
            Some(i) => first_filled(views(fields@), from as int) == Some(i as int) && i
                < fields.len(),
            None => first_filled(views(fields@), from as int) is None,
        },
{
    let mut i: usize = from;
    while i < fields.len()
        invariant
            from <= i,
            first_filled(views(fields@), from as int) == first_filled(views(fields@), i as int),
        decreases fields.len() - i,
    {
        assert(views(fields@)[i as int] == fields@[i as int]@);
        if fields[i].len() > 0 {
            return Some(i);
        }
        i += 1;
    }
    None
}

fn read_flag(field: &Vec<char>) -> (r: Option<bool>)
    ensures
        r == flag_of(field@),
{
    let yes = chars_of("True");
    let no = chars_of("False");
    if same_text(field, &yes) {
        Some(true)
    } else if same_text(field, &no) {
        Some(false)
    } else {
        None
    }
}

fn read_room(fields: &Vec<Vec<char>>, base: usize) -> (r: Result<Room, ProtocolError>)
    requires
        base <= fields.len(),
    ensures
        match r {
            Ok(room) => room_at(views(fields@), base as int) == Ok::<RoomView, ProtocolError>(
                room@,
            ),
            Err(e) => room_at(views(fields@), base as int) == Err::<RoomView, ProtocolError>(e),
        },
{
    if fields.len() - base < 4 {
        return Err(ProtocolError::MissingField);
    }
    proof {
        let v = views(fields@);
        assert(v[base as int] == fields@[base as int]@);
        assert(v[base + 1] == fields@[base + 1]@);
        assert(v[base + 2] == fields@[base + 2]@);
        assert(v[base + 3] == fields@[base + 3]@);
    }
    let joined = parse_u32(&fields[base + 1]);
    let total = parse_u32(&fields[base + 2]);
    let protected = read_flag(&fields[base + 3]);
    match (joined, total, protected) {
        (Some(joined), Some(total), Some(protected)) => Ok(
            Room { joined, total, protected, name: to_string(&fields[base]) },
        ),
        (Some(_), Some(_), None) => Err(ProtocolError::InvalidFlag),
        _ => Err(ProtocolError::InvalidNumber),
    }
}

/// Reads the reply of a `SESSIONS` frame.
#[verifier::loop_isolation(false)]
pub fn parse_sessions(sessions: String) -> (r: Result<LobbyReply, ProtocolError>)
    ensures
        outcome(r) == sessions_reply(sessions@),
{
    let fields = fields(sessions.as_str());
    let ghost v = views(fields@);
    let at = match find_filled(&fields, 2) {
        Some(at) => at,
        None => {
            return Err(ProtocolError::MissingField);
        },
    };
    assert(v[at as int] == fields@[at as int]@);
    let count = match parse_capped(&fields[at], fields.len() as u64) {
        Some(n) => n as usize,
        None => {
            return Err(ProtocolError::InvalidNumber);
        },
    };
    let ghost written = unsigned_decimal(v[at as int])->0;
    let mut rooms: Vec<Room> = Vec::new();
    assert(room_views(rooms@) == Seq::<RoomView>::empty());
    let mut base: usize = at + 1;
    let mut i: usize = 0;
    while i < count
        invariant
            v == views(fields@),
            i <= count <= fields.len(),
            count == capped(written, fields.len() as nat),
            base == at + 1 + 4 * i,
            base <= fields.len(),
            rooms_from(v, at + 1, i as nat) == Ok::<Seq<RoomView>, ProtocolError>(
                room_views(rooms@),
            ),
        decreases count - i,
    {
        match read_room(&fields, base) {
            Ok(room) => {
                let ghost before = room_views(rooms@);
                rooms.push(room);
                assert(room_views(rooms@) == before.push(room@));
                base += 4;
                i += 1;
            },
            Err(e) => {
                proof {
                    assert(rooms_from(v, at + 1, (i + 1) as nat) == Err::<
                        Seq<RoomView>,
                        ProtocolError,
                    >(e));
                    lemma_rooms_error_stays(v, at + 1, (i + 1) as nat, written);
                }
                return Err(e);
            },
        }
    }
    proof {
        if count > 0 {
            lemma_rooms_fit(v, at + 1, count as nat);
        }
        assert(count == written);
    }
    Ok(LobbyReply::Sessions(rooms))
}

/// Reads the reply of a `USERS` frame.
pub fn parse_users(users: String) -> (r: Result<LobbyReply, ProtocolError>)
    ensures
        outcome(r) == users_reply(users@),
{
    let fields = fields(users.as_str());
    let ghost v = views(fields@);
    let at = match find_filled(&fields, 2) {
        Some(at) => at,
        None => {
            return Err(ProtocolError::MissingField);
        },
    };
    assert(v[at as int] == fields@[at as int]@);
    let count = match parse_capped(&fields[at], fields.len() as u64) {
        Some(n) => n as usize,
        None => {
            return Err(ProtocolError::InvalidNumber);
        },
    };
    if count > fields.len() - (at + 1) {
        return Err(ProtocolError::MissingField);
    }
    let mut names: Vec<String> = Vec::new();
    let mut i: usize = 0;
    while i < count
        invariant
            v == views(fields@),
            i <= count,
            at + 1 + count <= fields.len(),
            string_views(names@) == v.subrange(at + 1, at + 1 + i),
        decreases count - i,
    {
        let ghost before = string_views(names@);
        assert(v[at + 1 + i] == fields@[at + 1 + i]@);
        names.push(to_string(&fields[at + 1 + i]));
        assert(string_views(names@) == before.push(v[at + 1 + i]));
        i += 1;
    }
    Ok(LobbyReply::Users(names))
}

/// Reads the reply of a `CREATED` frame.
pub fn parse_created(created: String) -> (r: Result<LobbyReply, ProtocolError>)
    ensures
        outcome(r) == created_reply(created@),
{
    let fields = fields(created.as_str());
    if fields.len() <= 2 {
        return Err(ProtocolError::MissingField);
    }
    assert(views(fields@)[2] == fields@[2]@);
    Ok(LobbyReply::Created(to_string(&fields[2])))
}

/// Reads the reply of a `MSG` frame.
pub fn parse_message(message: String) -> (r: Result<LobbyReply, ProtocolError>)
    ensures
        outcome(r) == message_reply(message@),
{
    let fields = fields(message.as_str());
    if fields.len() <= 3 {
        return Err(ProtocolError::MissingField);
    }
    assert(views(fields@)[2] == fields@[2]@);
    assert(views(fields@)[3] == fields@[3]@);
    Ok(LobbyReply::Chat(to_string(&fields[2]), to_string(&fields[3])))
}

/// Reads the reply of an `ERROR` frame.
pub fn parse_error(message: String) -> (r: Result<LobbyReply, ProtocolError>)
    ensures
        outcome(r) == error_reply(message@),
{
    let fields = fields(message.as_str());
    if fields.len() <= 2 {
        return Err(ProtocolError::MissingField);
    }
    assert(views(fields@)[2] == fields@[2]@);
    Ok(LobbyReply::ServerError(to_string(&fields[2])))
}

/// Reads the reply of a `JOIN` frame.
pub fn parse_join(message: String) -> (r: Result<LobbyReply, ProtocolError>)
    ensures
        outcome(r) == join_reply(message@),
{
    let fields = fields(message.as_str());
    if fields.len() <= 3 {
        return Err(ProtocolError::MissingField);
    }
    assert(views(fields@)[2] == fields@[2]@);
    assert(views(fields@)[3] == fields@[3]@);
    Ok(LobbyReply::Joined(to_string(&fields[2]), to_string(&fields[3])))
}

/// Reads the reply of a `STATUS` frame.
pub fn parse_status(message: String) -> (r: Result<LobbyReply, ProtocolError>)
    ensures
        outcome(r) == status_reply(message@),
{
    let fields = fields(message.as_str());
    if fields.len() <= 4 {
        return Err(ProtocolError::MissingField);
    }
    assert(views(fields@)[2] == fields@[2]@);
    assert(views(fields@)[3] == fields@[3]@);
    assert(views(fields@)[4] == fields@[4]@);
    Ok(
        LobbyReply::Status(
            to_string(&fields[2]),
            to_string(&fields[3]),
            to_string(&fields[4]),
        ),
    )
}

/// Reads the reply of a `MODS` frame, which carries nothing that is kept.
pub fn parse_mods(_message: String) -> (r: Result<LobbyReply, ProtocolError>)
    ensures
        outcome(r) == Ok::<LobbyReplyView, ProtocolError>(LobbyReplyView::Mods),
{
    Ok(LobbyReply::Mods)
}

/// Reads the reply of a `MODSOTHER` frame, which carries nothing that is kept.
pub fn parse_modsother(_message: String) -> (r: Result<LobbyReply, ProtocolError>)
    ensures
        outcome(r) == Ok::<LobbyReplyView, ProtocolError>(LobbyReplyView::ClientMods),
{
    Ok(LobbyReply::ClientMods)
}

fn has_tag(raw: &Vec<char>, tag: &str) -> (b: bool)
    ensures
        b == tag@.is_prefix_of(raw@),
{
    let tag_chars = chars_of(tag);
    starts_with(raw, &tag_chars)
}

/// Reads one reply frame, as its tag directs.
pub fn parse_raw_reply(raw: String) -> (r: Result<LobbyReply, ProtocolError>)
    ensures
        outcome(r) == reply_of(raw@),
{
    let chars = chars_of(raw.as_str());
    if has_tag(&chars, ":>>CREATED:") {
        parse_created(raw)
    } else if has_tag(&chars, ":>>SESSIONS:") {
        parse_sessions(raw)
    } else if has_tag(&chars, ":>>USERS:") {
        parse_users(raw)
    } else if has_tag(&chars, ":>>MSG:") {
        parse_message(raw)
    } else if has_tag(&chars, ":>>ERROR:") {
        parse_error(raw)
    } else if has_tag(&chars, ":>>JOIN:") {
        parse_join(raw)
    } else if has_tag(&chars, ":>>STATUS:") {
        parse_status(raw)
    } else if has_tag(&chars, ":>>MODS:") {
        parse_mods(raw)
    } else if has_tag(&chars, ":>>MODSOTHER:") {
        parse_modsother(raw)
    } else {
        Err(ProtocolError::UnknownTag)
    }
}

/// The token that opens every reply frame.
pub open spec fn delimiter() -> Seq<char> {
    ":>>"@
}

/// The reply frames in one read from the server: the text is cut at every
/// delimiter, empty pieces are dropped, and each piece left gets the
/// delimiter back in front.
pub open spec fn frames_of(input: Seq<char>) -> Seq<Seq<char>> {
    split_on(input, delimiter()).filter(|piece: Seq<char>| piece.len() > 0).map_values(
        |piece: Seq<char>| delimiter() + piece,
    )
}

/// Cuts one read from the server into its reply frames.
pub fn split_commands(input: &str) -> (frames: Vec<String>)
    ensures
        string_views(frames@) == frames_of(input@),
{
    let chars = chars_of(input);
    let mark = chars_of(":>>");
    proof {
        reveal_strlit(":>>");
    }
    let pieces = split(&chars, &mark);
    let ghost cut = split_on(input@, delimiter());
    let ghost kept = |piece: Seq<char>| piece.len() > 0;
    let ghost framed = |piece: Seq<char>| delimiter() + piece;
    let mut frames: Vec<String> = Vec::new();
    let mut i: usize = 0;
    assert(cut.take(0).filter(kept).map_values(framed) == string_views(frames@)) by {
        reveal(Seq::filter);
    }
    while i < pieces.len()
        invariant
            i <= pieces.len(),
            mark@ == delimiter(),
            cut == views(pieces@),
            kept == |piece: Seq<char>| piece.len() > 0,
            framed == |piece: Seq<char>| delimiter() + piece,
            string_views(frames@) == cut.take(i as int).filter(kept).map_values(framed),
        decreases pieces.len() - i,
    {
        let ghost before = string_views(frames@);
        assert(cut[i as int] == pieces@[i as int]@);
        proof {
            reveal(Seq::filter);
            assert(cut.take(i + 1).drop_last() == cut.take(i as int));
            assert(cut.take(i + 1).last() == cut[i as int]);
        }
        if pieces[i].len() > 0 {
            let mut frame = String::new();
            append_chars(&mut frame, &mark);
            append_chars(&mut frame, &pieces[i]);
            assert(frame@ == delimiter() + cut[i as int]);
            frames.push(frame);
            assert(string_views(frames@) == before.push(framed(cut[i as int])));
            assert(cut.take(i + 1).filter(kept).map_values(framed) == before.push(
                framed(cut[i as int]),
            ));
        }
        i += 1;
    }
    assert(cut.take(pieces@.len() as int) == cut);
    frames
}

/// The text of the frames with the bodies `bodies`, one after the other.
pub open spec fn joined_frames(bodies: Seq<Seq<char>>) -> Seq<char>
    decreases bodies.len(),
{
    if bodies.len() == 0 {
        Seq::empty()
    } else {
        delimiter() + bodies.first() + joined_frames(bodies.drop_first())
    }
}

/// Whether `body` can stand behind a delimiter as the body of one frame: it
/// is not empty and holds no delimiter itself.
pub open spec fn is_frame_body(body: Seq<char>) -> bool {
    body.len() > 0 && forall|j: int| !occurs_at(body, delimiter(), j)
}

/// In a body followed by frames, the first delimiter is the one that
/// follows the body.
proof fn lemma_body_then_frames(body: Seq<char>, rest: Seq<Seq<char>>)
    requires
        is_frame_body(body),
        forall|k: int| 0 <= k < rest.len() ==> is_frame_body(#[trigger] rest[k]),
    ensures
        split_on(body + joined_frames(rest), delimiter()) == seq![body] + rest,
    decreases rest.len(),
{
    reveal_strlit(":>>");
    let d = delimiter();
    let text = body + joined_frames(rest);
    if rest.len() == 0 {
        assert(text == body);
        lemma_no_occurrence(body, d);
        assert(seq![body] + rest == seq![body]);
    } else {
        let tail = rest.first() + joined_frames(rest.drop_first());
        assert(text == body + d + tail);
        let at = body.len() as int;
        assert(text.subrange(at, at + 3) == d);
        assert forall|j: int| 0 <= j < at implies !occurs_at(text, d, j) by {
            if occurs_at(text, d, j) {
                let found = text.subrange(j, j + 3);
                if j + 3 <= at {
                    assert(body.subrange(j, j + 3) == found);
                    assert(occurs_at(body, d, j));
                } else {
                    // The occurrence would run over the colon that opens
                    // the next frame, where it needs a `>`.
                    assert(text[at] == ':');
                    assert(found[at - j] == text[at]);
                    assert(d[1] == '>' && d[2] == '>');
                }
            }
        }
        lemma_first_occurrence(text, d, at);
        assert(text.take(at) == body);
        assert(text.skip(at + 3) == tail);
        assert forall|k: int| 0 <= k < rest.drop_first().len() implies is_frame_body(
            #[trigger] rest.drop_first()[k],
        ) by {
            assert(rest.drop_first()[k] == rest[k + 1]);
        }
        lemma_body_then_frames(rest.first(), rest.drop_first());
        assert(seq![rest.first()] + rest.drop_first() == rest);
    }
}

/// Whole frames, one after the other, are cut at the delimiter into an
/// empty piece and then their bodies.
proof fn lemma_cut_joined(bodies: Seq<Seq<char>>)
    requires
        forall|k: int| 0 <= k < bodies.len() ==> is_frame_body(#[trigger] bodies[k]),
    ensures
        split_on(joined_frames(bodies), delimiter()) == seq![Seq::<char>::empty()] + bodies,
{
    reveal_strlit(":>>");
    let d = delimiter();
    let text = joined_frames(bodies);
    let none = Seq::<char>::empty();
    if bodies.len() == 0 {
        assert forall|j: int| !occurs_at(text, d, j) by {}
        lemma_no_occurrence(text, d);
        assert(seq![none] + bodies == seq![text]);
    } else {
        let tail = bodies.first() + joined_frames(bodies.drop_first());
        assert(text == d + tail);
        assert(text.subrange(0, 3) == d);
        lemma_first_occurrence(text, d, 0);
        assert(text.take(0) == none);
        assert(text.skip(3) == tail);
        assert forall|k: int| 0 <= k < bodies.drop_first().len() implies is_frame_body(
            #[trigger] bodies.drop_first()[k],
        ) by {
            assert(bodies.drop_first()[k] == bodies[k + 1]);
        }
        lemma_body_then_frames(bodies.first(), bodies.drop_first());
        assert(seq![bodies.first()] + bodies.drop_first() == bodies);
    }
}

/// A read that holds whole frames, one after the other, is cut into exactly
/// those frames, each with its delimiter in front, in the order in which
/// they arrived.
pub proof fn lemma_frames_come_back(bodies: Seq<Seq<char>>)
    requires
        forall|k: int| 0 <= k < bodies.len() ==> is_frame_body(#[trigger] bodies[k]),
    ensures
        frames_of(joined_frames(bodies)) == bodies.map_values(
            |body: Seq<char>| delimiter() + body,
        ),
        frames_of(joined_frames(bodies)).len() == bodies.len(),
{
    let kept = |piece: Seq<char>| piece.len() > 0;
    let none = Seq::<char>::empty();
    lemma_cut_joined(bodies);
    Seq::filter_distributes_over_add(seq![none], bodies, kept);
    assert(seq![none].filter(kept) == Seq::<Seq<char>>::empty()) by {
        reveal(Seq::filter);
        assert(seq![none].drop_last().filter(kept) == Seq::<Seq<char>>::empty());
    }
    lemma_filter_keeps_all(bodies);
    assert(Seq::<Seq<char>>::empty() + bodies == bodies);
}

/// Dropping the empty pieces of a list of frame bodies drops nothing.
proof fn lemma_filter_keeps_all(bodies: Seq<Seq<char>>)
    requires
        forall|k: int| 0 <= k < bodies.len() ==> is_frame_body(#[trigger] bodies[k]),
    ensures
        bodies.filter(|piece: Seq<char>| piece.len() > 0) == bodies,
    decreases bodies.len(),
{
    reveal(Seq::filter);
    if bodies.len() > 0 {
        assert forall|k: int| 0 <= k < bodies.drop_last().len() implies is_frame_body(
            #[trigger] bodies.drop_last()[k],
        ) by {
            assert(bodies.drop_last()[k] == bodies[k]);
        }
        lemma_filter_keeps_all(bodies.drop_last());
        assert(is_frame_body(bodies[bodies.len() - 1]));
        assert(bodies.drop_last().push(bodies.last()) == bodies);
    }
}

/// `String::from_utf8`: reads bytes as text. It gives the text that the
/// bytes encode where they are valid UTF-8, and an error, which is dropped
/// here, where they are not.
#[verifier::external_body]
fn text_of(bytes: Vec<u8>) -> (r: Option<String>)
    ensures
        match r {
            Some(text) => valid_utf8(bytes@) && text@ == decode_utf8(bytes@),
            None => !valid_utf8(bytes@),
        },
{
    String::from_utf8(bytes).ok()
}

/// What each frame of one read from the server says.
pub open spec fn replies_in(text: Seq<char>) -> Seq<Result<LobbyReplyView, ProtocolError>> {
    frames_of(text).map_values(|frame: Seq<char>| reply_of(frame))
}

/// What a list of parsers' results holds.
pub open spec fn outcomes(replies: Seq<Result<LobbyReply, ProtocolError>>) -> Seq<
    Result<LobbyReplyView, ProtocolError>,
> {
    replies.map_values(|r: Result<LobbyReply, ProtocolError>| outcome(r))
}

/// What the lobby client does with a command.
#[derive(Debug, Clone, PartialEq, Eq)]
pub enum LobbyStep {
    /// Open the connection to this address.
    Open(String),
    /// Write these bytes to the server.
    Write(Vec<u8>),
    /// Nothing: there is no connection to write to.
    Skip,
}

/// The mathematical content of a [`LobbyStep`].
pub enum LobbyStepView {
    Open(Seq<char>),
    Write(Seq<u8>),
    Skip,
}

impl View for LobbyStep {
    type V = LobbyStepView;

    open spec fn view(&self) -> LobbyStepView {
        match *self {
            LobbyStep::Open(address) => LobbyStepView::Open(address@),
            LobbyStep::Write(bytes) => LobbyStepView::Write(bytes@),
            LobbyStep::Skip => LobbyStepView::Skip,
        }
    }
}

/// The lobby client's side of the session with the server.
#[derive(Debug, Clone, PartialEq, Eq)]
pub struct LobbyClient {
    /// Whether the connection is open.
    pub connected: bool,
    /// The name given in the first greeting; empty before it.
    pub username: String,
}

/// The mathematical content of a [`LobbyClient`].
pub struct LobbySessionView {
    pub connected: bool,
    pub username: Seq<char>,
}

impl View for LobbyClient {
    type V = LobbySessionView;

    open spec fn view(&self) -> LobbySessionView {
        LobbySessionView { connected: self.connected, username: self.username@ }
    }
}

/// What the client does with `command`: `Connect` opens the connection, and
/// every other command is written to it, if it is open.
pub open spec fn step_for(session: LobbySessionView, command: LobbyCommandView) -> LobbyStepView {
    match command {
        LobbyCommandView::Connect(address) => LobbyStepView::Open(address),
        _ => if session.connected {
            LobbyStepView::Write(command.wire_bytes())
        } else {
            LobbyStepView::Skip
        },
    }
}

/// The user's name after `command`: the first greeting that is written
/// sets it.
pub open spec fn username_after(session: LobbySessionView, command: LobbyCommandView) -> Seq<
    char,
> {
    match command {
        LobbyCommandView::Greeting(name, _) => if session.connected && session.username.len()
            == 0 {
            name
        } else {
            session.username
        },
        _ => session.username,
    }
}

impl LobbyClient {
    /// A client without a connection and without a name.
    pub fn new() -> (client: LobbyClient)
        ensures
            client@ == (LobbySessionView { connected: false, username: Seq::empty() }),
    {
        LobbyClient { connected: false, username: String::new() }
    }

    /// Takes a command and says what to do for it.
    pub fn process_command(&mut self, command: LobbyCommand) -> (step: LobbyStep)
        ensures
            step@ == step_for(old(self)@, command@),
            final(self)@ == (LobbySessionView {
                connected: old(self).connected,
                username: username_after(old(self)@, command@),
            }),
    {
        match command {
            LobbyCommand::Connect(address) => LobbyStep::Open(address),
            command => {
                if !self.connected {
                    return LobbyStep::Skip;
                }
                if let LobbyCommand::Greeting(name, _) = &command {
                    if self.username.as_str().unicode_len() == 0 {
                        self.username = name.clone();
                    }
                }
                LobbyStep::Write(Self::send(&command))
            },
        }
    }

    /// Notes that the connection is open, and gives the reply that says so.
    pub fn connect(&mut self) -> (reply: LobbyReply)
        ensures
            reply@ == LobbyReplyView::Connected,
            final(self)@ == (LobbySessionView { connected: true, username: old(self)@.username }),
    {
        self.connected = true;
        LobbyReply::Connected
    }

    /// Notes that the connection is lost.
    pub fn disconnect(&mut self)
        ensures
            final(self)@ == (LobbySessionView { connected: false, username: old(self)@.username }),
    {
        self.connected = false;
    }

    /// The bytes of the one write that carries `command` to the server.
    pub fn send(command: &LobbyCommand) -> (bytes: Vec<u8>)
        requires
            command@.has_wire_form(),
        ensures
            bytes@ == command@.wire_bytes(),
    {
        command.to_bytes()
    }

    /// Reads what one read from the server holds: every frame in it, each
    /// with the reply that it writes or with what is wrong with it. Bytes
    /// that are no text are refused as a whole.
    pub fn receive(&self, bytes: Vec<u8>) -> (result: Result<
        Vec<Result<LobbyReply, ProtocolError>>,
        ProtocolError,
    >)
        ensures
            match result {
                Ok(replies) => valid_utf8(bytes@) && outcomes(replies@) == replies_in(
                    decode_utf8(bytes@),
                ),
                Err(e) => !valid_utf8(bytes@) && e == ProtocolError::InvalidText,
            },
    {
        let text = match text_of(bytes) {
            Some(text) => text,
            None => {
                return Err(ProtocolError::InvalidText);
            },
        };
        let frames = split_commands(text.as_str());
        let ghost cut = frames_of(text@);
        let mut replies: Vec<Result<LobbyReply, ProtocolError>> = Vec::new();
        let mut i: usize = 0;
        assert(outcomes(replies@) == replies_in(text@).take(0));
        while i < frames.len()
            invariant
                i <= frames.len(),
                cut == frames_of(text@),
                string_views(frames@) == cut,
                outcomes(replies@) == replies_in(text@).take(i as int),
            decreases frames.len() - i,
        {
            let ghost before = outcomes(replies@);
            assert(cut[i as int] == frames@[i as int]@);
            let reply = parse_raw_reply(frames[i].clone());
            replies.push(reply);
            assert(outcomes(replies@) == before.push(outcome(reply)));
            assert(replies_in(text@).take(i + 1) == replies_in(text@).take(i as int).push(
                reply_of(cut[i as int]),
            ));
            i += 1;
        }
        assert(replies_in(text@).take(frames@.len() as int) == replies_in(text@));
        Ok(replies)
    }
}

} // verus!
