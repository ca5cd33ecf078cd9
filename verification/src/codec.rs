//! Length-prefixed framing of serialized commands and replies, and the
//! commands and replies themselves.

use vstd::prelude::*;
use vstd::slice::slice_subrange;
use vstd::slice::slice_to_vec;

verus! {

/// `bytes::BytesMut`, a growable byte buffer that is read from the front.
#[verifier::external_type_specification]
#[verifier::external_body]
pub struct ExBytesMut(bytes::BytesMut);

/// The bytes that a buffer holds, first to last.
pub uninterp spec fn contents(buffer: bytes::BytesMut) -> Seq<u8>;

/// `BytesMut::len`: the number of bytes held.
pub assume_specification[ bytes::BytesMut::len ](buffer: &bytes::BytesMut) -> (n: usize)
    ensures
        n == contents(*buffer).len(),
;

/// `BytesMut::reserve`: makes room for more bytes and leaves those held as
/// they are. It panics where the new capacity is more than memory can
/// address, which the precondition excludes.
pub assume_specification[ bytes::BytesMut::reserve ](buffer: &mut bytes::BytesMut, additional: usize)
    requires
        contents(*old(buffer)).len() + additional <= isize::MAX,
    ensures
        contents(*final(buffer)) == contents(*old(buffer)),
;

/// `BytesMut::extend_from_slice`: appends the bytes of `extend`, after
/// reserving room for them.
pub assume_specification[ bytes::BytesMut::extend_from_slice ](
    buffer: &mut bytes::BytesMut,
    extend: &[u8],
)
    requires
        contents(*old(buffer)).len() + extend@.len() <= isize::MAX,
    ensures
        contents(*final(buffer)) == contents(*old(buffer)) + extend@,
;

/// `Buf::advance` of `BytesMut`: drops the first `cnt` bytes. It panics
/// where fewer are held, which the precondition excludes.
pub assume_specification[ <bytes::BytesMut as bytes::Buf>::advance ](
    buffer: &mut bytes::BytesMut,
    cnt: usize,
)
    requires
        cnt <= contents(*old(buffer)).len(),
    ensures
        contents(*final(buffer)) == contents(*old(buffer)).skip(cnt as int),
;

/// `AsRef<[u8]>::as_ref` of `BytesMut`: the bytes held, as a slice.
pub assume_specification<'a>[ <bytes::BytesMut as core::convert::AsRef<[u8]>>::as_ref ](
    buffer: &'a bytes::BytesMut,
) -> (held: &'a [u8])
    ensures
        held@ == contents(*buffer),
;

/// One saved game: the archive, under the name of its file.
#[derive(Debug, Clone, Hash, PartialEq, Eq, PartialOrd, Ord)]
pub struct VcmiSavedGame {
    pub filename: String,
    pub data: Vec<u8>,
}

/// The mathematical content of a [`VcmiSavedGame`].
pub struct SavedGameView {
    pub filename: Seq<char>,
    pub data: Seq<u8>,
}

impl View for VcmiSavedGame {
    type V = SavedGameView;

    open spec fn view(&self) -> SavedGameView {
        SavedGameView { filename: self.filename@, data: self.data@ }
    }
}

/// The contents of a list of saved games.
pub open spec fn saved_game_views(games: Seq<VcmiSavedGame>) -> Seq<SavedGameView> {
    games.map_values(|g: VcmiSavedGame| g@)
}

/// What the game client asks for.
#[derive(Debug, Clone, PartialEq, Eq)]
pub enum VcmiCommand {
    ShowConnectDialog,
    ShowLoadGameDialog,
    Save { filename: String, archive_bytes: Vec<u8> },
    Load(String),
    LoadAll,
}

/// The mathematical content of a [`VcmiCommand`].
pub enum VcmiCommandView {
    ShowConnectDialog,
    ShowLoadGameDialog,
    Save { filename: Seq<char>, archive_bytes: Seq<u8> },
    Load(Seq<char>),
    LoadAll,
}

impl View for VcmiCommand {
    type V = VcmiCommandView;

    open spec fn view(&self) -> VcmiCommandView {
        match *self {
            VcmiCommand::ShowConnectDialog => VcmiCommandView::ShowConnectDialog,
            VcmiCommand::ShowLoadGameDialog => VcmiCommandView::ShowLoadGameDialog,
            VcmiCommand::Save { filename, archive_bytes } => VcmiCommandView::Save {
                filename: filename@,
                archive_bytes: archive_bytes@,
            },
            VcmiCommand::Load(name) => VcmiCommandView::Load(name@),
            VcmiCommand::LoadAll => VcmiCommandView::LoadAll,
        }
    }
}

/// What the game client is told.
#[derive(Debug, Clone, PartialEq, Eq)]
pub enum VcmiReply {
    ConnectDialogShowed,
    CanceledDialog,
    Connected,
    Saved,
    Loaded { archive_bytes: Vec<u8> },
    AllLoaded { archives: Vec<VcmiSavedGame> },
    LoadGameDialogShowed,
}

/// The mathematical content of a [`VcmiReply`].
pub enum VcmiReplyView {
    ConnectDialogShowed,
    CanceledDialog,
    Connected,
    Saved,
    Loaded { archive_bytes: Seq<u8> },
    AllLoaded { archives: Seq<SavedGameView> },
    LoadGameDialogShowed,
}

impl View for VcmiReply {
    type V = VcmiReplyView;

    open spec fn view(&self) -> VcmiReplyView {
        match *self {
            VcmiReply::ConnectDialogShowed => VcmiReplyView::ConnectDialogShowed,
            VcmiReply::CanceledDialog => VcmiReplyView::CanceledDialog,
            VcmiReply::Connected => VcmiReplyView::Connected,
            VcmiReply::Saved => VcmiReplyView::Saved,
            VcmiReply::Loaded { archive_bytes } => VcmiReplyView::Loaded {
                archive_bytes: archive_bytes@,
            },
            VcmiReply::AllLoaded { archives } => VcmiReplyView::AllLoaded {
                archives: saved_game_views(archives@),
            },
            VcmiReply::LoadGameDialogShowed => VcmiReplyView::LoadGameDialogShowed,
        }
    }
}

/// The number of bytes of the length field that opens every frame.
pub const HEADER_LEN: usize = 4;

/// The longest body that the length field can announce.
pub const MAX_BODY_LEN: usize = 0xffff_ffff;

/// The length field for a body of `len` bytes: four bytes, least
/// significant first.
pub open spec fn length_field(len: nat) -> Seq<u8> {
    seq![
        (len % 256) as u8,
        (len / 0x100 % 256) as u8,
        (len / 0x1_0000 % 256) as u8,
        (len / 0x100_0000 % 256) as u8,
    ]
}

/// The length that the first four bytes of `buffer` announce.
pub open spec fn announced_len(buffer: Seq<u8>) -> nat
    recommends
        buffer.len() >= 4,
{
    (buffer[0] as nat) + 0x100 * (buffer[1] as nat) + 0x1_0000 * (buffer[2] as nat) + 0x100_0000
        * (buffer[3] as nat)
}

/// The frame that carries `body`: its length field, then the body.
pub open spec fn frame_of(body: Seq<u8>) -> Seq<u8> {
    length_field(body.len()) + body
}

/// Whether `buffer` begins with a whole frame.
pub open spec fn holds_frame(buffer: Seq<u8>) -> bool {
    buffer.len() >= 4 && buffer.len() >= 4 + announced_len(buffer)
}

/// The body of the frame that `buffer` begins with, where it holds a whole
/// one.
pub open spec fn first_body(buffer: Seq<u8>) -> Option<Seq<u8>> {
    if holds_frame(buffer) {
        Some(buffer.subrange(4, 4 + announced_len(buffer) as int))
    } else {
        None
    }
}

/// What is left of `buffer` once its first frame is taken out: the bytes
/// behind the frame, or all of it where it holds no whole frame.
pub open spec fn after_first(buffer: Seq<u8>) -> Seq<u8> {
    if holds_frame(buffer) {
        buffer.skip(4 + announced_len(buffer) as int)
    } else {
        buffer
    }
}

/// Why a body cannot be framed.
#[derive(Debug, Clone, Copy, PartialEq, Eq, Structural)]
pub enum FrameError {
    /// The body is longer than the length field can announce.
    BodyTooLong,
    /// The buffer cannot grow by the frame.
    BufferFull,
}

/// Frames serialized commands and replies on a byte stream.
pub struct VcmiCommandCodec;

impl VcmiCommandCodec {
    /// Appends to `dst` the frame that carries `body`, a serialized command
    /// or reply. Nothing is appended where the body cannot be framed.
    pub fn encode(&mut self, body: &[u8], dst: &mut bytes::BytesMut) -> (r: Result<(), FrameError>)
        ensures
            r == if body@.len() > MAX_BODY_LEN {
                Err::<(), FrameError>(FrameError::BodyTooLong)
            } else if contents(*old(dst)).len() + 4 + body@.len() > isize::MAX {
                Err(FrameError::BufferFull)
            } else {
                Ok(())
            },
            contents(*final(dst)) == if r is Ok {
                contents(*old(dst)) + frame_of(body@)
            } else {
                contents(*old(dst))
            },
    {
        let len = body.len();
        if len > MAX_BODY_LEN {
            return Err(FrameError::BodyTooLong);
        }
        let held = dst.len();
        let room: usize = isize::MAX as usize;
        if held > room || len > room - held || room - held - len < HEADER_LEN {
            return Err(FrameError::BufferFull);
        }
        let mut header: Vec<u8> = Vec::new();
        header.push((len % 256) as u8);
        header.push((len / 0x100 % 256) as u8);
        header.push((len / 0x1_0000 % 256) as u8);
        header.push((len / 0x100_0000 % 256) as u8);
        assert(header@ == length_field(len as nat));
        dst.reserve(HEADER_LEN + len);
        dst.extend_from_slice(header.as_slice());
        dst.extend_from_slice(body);
        assert(contents(*dst) == contents(*old(dst)) + frame_of(body@));
        Ok(())
    }

    /// Takes the first frame out of `src`, where it holds a whole one, and
    /// hands back its body. A buffer that holds only part of a frame is left
    /// as it is, to be tried again when more bytes have arrived.
    pub fn decode(&mut self, src: &mut bytes::BytesMut) -> (body: Option<Vec<u8>>)
        ensures
            match body {
                Some(b) => first_body(contents(*old(src))) == Some(b@),
                None => first_body(contents(*old(src))) is None,
            },
            contents(*final(src)) == after_first(contents(*old(src))),
    {
        let held_len = src.len();
        if held_len < HEADER_LEN {
            return None;
        }
        let held: &[u8] = <bytes::BytesMut as AsRef<[u8]>>::as_ref(src);
        let len: u64 = (held[0] as u64) + 0x100 * (held[1] as u64) + 0x1_0000 * (held[2] as u64)
            + 0x100_0000 * (held[3] as u64);
        assert(len == announced_len(contents(*src)));
        if ((held_len - HEADER_LEN) as u64) < len {
            let missing: u64 = len - (held_len - HEADER_LEN) as u64;
            if missing <= (isize::MAX as u64) && held_len <= (isize::MAX as usize)
                - missing as usize {
                src.reserve(missing as usize);
            }
            return None;
        }
        let end: usize = HEADER_LEN + len as usize;
        let body = slice_to_vec(slice_subrange(held, HEADER_LEN, end));
        bytes::Buf::advance(src, end);
        Some(body)
    }
}

/// A frame that is decoded gives back the body that was encoded, and
/// nothing of the frame is left over; bytes behind the frame stay.
pub proof fn lemma_frame_round_trip(body: Seq<u8>, behind: Seq<u8>)
    requires
        body.len() <= MAX_BODY_LEN,
    ensures
        first_body(frame_of(body)) == Some(body),
        after_first(frame_of(body)).len() == 0,
        first_body(frame_of(body) + behind) == Some(body),
        after_first(frame_of(body) + behind) == behind,
{
    let whole = frame_of(body) + behind;
    lemma_length_field(body.len());
    assert(announced_len(whole) == body.len());
    assert(whole.subrange(4, 4 + body.len() as int) == body);
    assert(whole.skip(4 + body.len() as int) == behind);
    assert(frame_of(body) + Seq::<u8>::empty() == frame_of(body));
    lemma_frame_round_trip_alone(body);
}

proof fn lemma_frame_round_trip_alone(body: Seq<u8>)
    requires
        body.len() <= MAX_BODY_LEN,
    ensures
        first_body(frame_of(body)) == Some(body),
        after_first(frame_of(body)).len() == 0,
{
    let whole = frame_of(body);
    lemma_length_field(body.len());
    assert(announced_len(whole) == body.len());
    assert(whole.subrange(4, 4 + body.len() as int) == body);
}

/// The length field announces the length that it was made for.
pub proof fn lemma_length_field(len: nat)
    requires
        len <= MAX_BODY_LEN,
    ensures
        length_field(len).len() == 4,
        announced_len(length_field(len)) == len,
{
}

/// A frame of which only a part has arrived is not decoded and stays in the
/// buffer whole; once the rest has arrived behind it, the buffer decodes as
/// the whole frame does.
pub proof fn lemma_partial_frame_waits(body: Seq<u8>, arrived: int)
    requires
        body.len() <= MAX_BODY_LEN,
        0 <= arrived < frame_of(body).len(),
    ensures
        first_body(frame_of(body).take(arrived)) is None,
        after_first(frame_of(body).take(arrived)) == frame_of(body).take(arrived),
        after_first(frame_of(body).take(arrived)) + frame_of(body).skip(arrived) == frame_of(
            body,
        ),
        first_body(after_first(frame_of(body).take(arrived)) + frame_of(body).skip(arrived))
            == Some(body),
{
    let whole = frame_of(body);
    let part = whole.take(arrived);
    lemma_length_field(body.len());
    lemma_frame_round_trip_alone(body);
    if arrived >= 4 {
        assert(part[0] == whole[0] && part[1] == whole[1] && part[2] == whole[2] && part[3]
            == whole[3]);
        assert(announced_len(part) == body.len());
    }
    assert(part + whole.skip(arrived) == whole);
}

/// Whatever a buffer holds, a buffer without a whole frame is left as it
/// is, so that decoding after more bytes have arrived is decoding all that
/// has arrived.
pub proof fn lemma_decode_resumes(buffer: Seq<u8>, more: Seq<u8>)
    requires
        first_body(buffer) is None,
    ensures
        after_first(buffer) == buffer,
        first_body(after_first(buffer) + more) == first_body(buffer + more),
        after_first(after_first(buffer) + more) == after_first(buffer + more),
{
}

} // verus!
