//! The versioned, length-delimited wire envelope between bridge and worker.
//!
//! A request frame is `[version][correlation id, 8 bytes][command tag]`
//! `[payload length, 4 bytes][payload]`; a response frame carries a status
//! tag in place of the command tag. All multi-byte fields are big-endian.
//! Decoding checks the version, the tag and the exact frame length, and
//! encoding then decoding returns the frame unchanged, so correlation-id
//! matching survives the wire.

use vstd::prelude::*;
use vstd::string::StrSliceExecFns;
use crate::command::Command;

verus! {

/// The envelope version this crate speaks.
pub const WIRE_VERSION: u8 = 1;

/// Byte offset of the tag (command or status) in a frame.
pub const TAG_OFFSET: usize = 9;
/// Byte offset of the payload length field in a frame.
pub const LEN_OFFSET: usize = 10;
/// Byte offset of the payload in a frame: the header size.
pub const HEADER_LEN: usize = 14;
/// Largest payload the 4-byte length field can carry.
pub const MAX_PAYLOAD: usize = 0xFFFF_FFFF;

/// A request envelope: one command invocation on its way to the worker.
#[derive(Debug, Clone, PartialEq, Eq)]
pub struct RequestFrame {
    pub corr_id: u64,
    pub command: Command,
    pub payload: Vec<u8>,
}

/// A response envelope: the worker's outcome for one correlation id.
#[derive(Debug, Clone, PartialEq, Eq)]
pub struct ResponseFrame {
    pub corr_id: u64,
    pub status: WireStatus,
    pub payload: Vec<u8>,
}

/// The worker-reported outcome tag of a response frame.
#[derive(Clone, Copy, Debug, PartialEq, Eq, Structural)]
pub enum WireStatus {
    /// The command succeeded; the payload is its result.
    Success,
    /// The command is not valid in the worker's current state.
    InvalidState,
    /// The worker failed to execute the command; the payload is an opaque
    /// message.
    Failure,
}

/// The big-endian bytes of a correlation id.
pub open spec fn spec_u64_be(x: u64) -> Seq<u8> {
    seq![
        (x >> 56) as u8,
        (x >> 48) as u8,
        (x >> 40) as u8,
        (x >> 32) as u8,
        (x >> 24) as u8,
        (x >> 16) as u8,
        (x >> 8) as u8,
        x as u8,
    ]
}

/// The correlation id held in eight big-endian bytes.
pub open spec fn spec_u64_of_be(s: Seq<u8>) -> u64
    recommends
        s.len() == 8,
{
    ((s[0] as u64) << 56) | ((s[1] as u64) << 48) | ((s[2] as u64) << 40) | ((s[3] as u64) << 32)
        | ((s[4] as u64) << 24) | ((s[5] as u64) << 16) | ((s[6] as u64) << 8) | (s[7] as u64)
}

/// The big-endian bytes of a payload length.
pub open spec fn spec_u32_be(x: u32) -> Seq<u8> {
    seq![(x >> 24) as u8, (x >> 16) as u8, (x >> 8) as u8, x as u8]
}

/// The payload length held in four big-endian bytes.
pub open spec fn spec_u32_of_be(s: Seq<u8>) -> u32
    recommends
        s.len() == 4,
{
    ((s[0] as u32) << 24) | ((s[1] as u32) << 16) | ((s[2] as u32) << 8) | (s[3] as u32)
}

/// Reading back the eight big-endian bytes of a correlation id yields the
/// id: the envelope loses nothing of it.
pub proof fn lemma_u64_be_roundtrip(x: u64)
    ensures
        spec_u64_of_be(spec_u64_be(x)) == x,
{
    let s = spec_u64_be(x);
    assert(s[0] == (x >> 56) as u8 && s[1] == (x >> 48) as u8 && s[2] == (x >> 40) as u8 && s[3]
        == (x >> 32) as u8 && s[4] == (x >> 24) as u8 && s[5] == (x >> 16) as u8 && s[6] == (x >> 8)
        as u8 && s[7] == x as u8);
    assert(((((x >> 56) as u8) as u64) << 56) | ((((x >> 48) as u8) as u64) << 48) | ((((x >> 40)
        as u8) as u64) << 40) | ((((x >> 32) as u8) as u64) << 32) | ((((x >> 24) as u8) as u64)
        << 24) | ((((x >> 16) as u8) as u64) << 16) | ((((x >> 8) as u8) as u64) << 8) | ((x as u8)
        as u64) == x) by (bit_vector);
}

/// Reading back the four big-endian bytes of a payload length yields the
/// length.
pub proof fn lemma_u32_be_roundtrip(x: u32)
    ensures
        spec_u32_of_be(spec_u32_be(x)) == x,
{
    let s = spec_u32_be(x);
    assert(s[0] == (x >> 24) as u8 && s[1] == (x >> 16) as u8 && s[2] == (x >> 8) as u8 && s[3]
        == x as u8);
    assert(((((x >> 24) as u8) as u32) << 24) | ((((x >> 16) as u8) as u32) << 16) | ((((x >> 8)
        as u8) as u32) << 8) | ((x as u8) as u32) == x) by (bit_vector);
}

/// The byte that stands for a command on the wire.
pub open spec fn spec_command_tag(c: Command) -> u8 {
    match c {
        Command::StartRecording => 0u8,
        Command::StopRecording => 1u8,
        Command::GetAudioDevices => 2u8,
        Command::TranscribeAudio => 3u8,
        Command::SummarizeTranscription => 4u8,
    }
}

/// The command a wire byte stands for, if any.
pub open spec fn spec_command_of_tag(t: u8) -> Option<Command> {
    if t == 0u8 {
        Some(Command::StartRecording)
    } else if t == 1u8 {
        Some(Command::StopRecording)
    } else if t == 2u8 {
        Some(Command::GetAudioDevices)
    } else if t == 3u8 {
        Some(Command::TranscribeAudio)
    } else if t == 4u8 {
        Some(Command::SummarizeTranscription)
    } else {
        None
    }
}

/// The byte that stands for a response status on the wire.
pub open spec fn spec_status_tag(st: WireStatus) -> u8 {
    match st {
        WireStatus::Success => 0u8,
        WireStatus::InvalidState => 1u8,
        WireStatus::Failure => 2u8,
    }
}

/// The response status a wire byte stands for, if any.
pub open spec fn spec_status_of_tag(t: u8) -> Option<WireStatus> {
    if t == 0u8 {
        Some(WireStatus::Success)
    } else if t == 1u8 {
        Some(WireStatus::InvalidState)
    } else if t == 2u8 {
        Some(WireStatus::Failure)
    } else {
        None
    }
}

/// The bytes of a frame with the given tag byte: version, correlation id,
/// tag, payload length, payload.
pub open spec fn spec_frame(corr_id: u64, tag: u8, payload: Seq<u8>) -> Seq<u8> {
    seq![WIRE_VERSION] + spec_u64_be(corr_id) + seq![tag] + spec_u32_be(payload.len() as u32)
        + payload
}

/// The bytes of an encoded request frame.
pub open spec fn spec_encode_request(corr_id: u64, c: Command, payload: Seq<u8>) -> Seq<u8> {
    spec_frame(corr_id, spec_command_tag(c), payload)
}

/// The bytes of an encoded response frame.
pub open spec fn spec_encode_response(corr_id: u64, st: WireStatus, payload: Seq<u8>) -> Seq<u8> {
    spec_frame(corr_id, spec_status_tag(st), payload)
}

/// The header fields a well-formed frame of `b` must show: the version,
/// a whole header, and a payload length that matches the frame exactly.
pub open spec fn spec_frame_shape_ok(b: Seq<u8>) -> bool {
    &&& b.len() >= HEADER_LEN
    &&& b.len() <= HEADER_LEN + MAX_PAYLOAD
    &&& b[0] == WIRE_VERSION
    &&& spec_u32_of_be(b.subrange(LEN_OFFSET as int, HEADER_LEN as int)) == b.len() - HEADER_LEN
}

/// What decoding a request frame returns.
pub open spec fn spec_decode_request(b: Seq<u8>) -> Option<(u64, Command, Seq<u8>)> {
    if spec_frame_shape_ok(b) {
        match spec_command_of_tag(b[TAG_OFFSET as int]) {
            Some(c) => Some(
                (spec_u64_of_be(b.subrange(1, TAG_OFFSET as int)), c, b.subrange(
                    HEADER_LEN as int,
                    b.len() as int,
                )),
            ),
            None => None,
        }
    } else {
        None
    }
}

/// What decoding a response frame returns.
pub open spec fn spec_decode_response(b: Seq<u8>) -> Option<(u64, WireStatus, Seq<u8>)> {
    if spec_frame_shape_ok(b) {
        match spec_status_of_tag(b[TAG_OFFSET as int]) {
            Some(st) => Some(
                (spec_u64_of_be(b.subrange(1, TAG_OFFSET as int)), st, b.subrange(
                    HEADER_LEN as int,
                    b.len() as int,
                )),
            ),
            None => None,
        }
    } else {
        None
    }
}

/// Appends the big-endian bytes of a correlation id.
fn push_u64_be(out: &mut Vec<u8>, x: u64)
    ensures
        final(out)@ == old(out)@ + spec_u64_be(x),
{
    out.push(#[verifier::truncate] ((x >> 56) as u8));
    out.push(#[verifier::truncate] ((x >> 48) as u8));
    out.push(#[verifier::truncate] ((x >> 40) as u8));
    out.push(#[verifier::truncate] ((x >> 32) as u8));
    out.push(#[verifier::truncate] ((x >> 24) as u8));
    out.push(#[verifier::truncate] ((x >> 16) as u8));
    out.push(#[verifier::truncate] ((x >> 8) as u8));
    out.push(#[verifier::truncate] (x as u8));
    proof {
        assert(out@ =~= old(out)@ + spec_u64_be(x));
    }
}

/// Appends the big-endian bytes of a payload length.
fn push_u32_be(out: &mut Vec<u8>, x: u32)
    ensures
        final(out)@ == old(out)@ + spec_u32_be(x),
{
    out.push(#[verifier::truncate] ((x >> 24) as u8));
    out.push(#[verifier::truncate] ((x >> 16) as u8));
    out.push(#[verifier::truncate] ((x >> 8) as u8));
    out.push(#[verifier::truncate] (x as u8));
    proof {
        assert(out@ =~= old(out)@ + spec_u32_be(x));
    }
}

/// Appends a copy of `bytes`.
fn push_bytes(out: &mut Vec<u8>, bytes: &Vec<u8>)
    ensures
        final(out)@ == old(out)@ + bytes@,
{
    let n = bytes.len();
    let mut i: usize = 0;
    while i < n
        invariant
            n == bytes@.len(),
            i <= n,
            out@ == old(out)@ + bytes@.subrange(0, i as int),
        decreases n - i,
    {
        out.push(bytes[i]);
        proof {
            assert(out@ =~= old(out)@ + bytes@.subrange(0, i + 1));
        }
        i = i + 1;
    }
    proof {
        assert(bytes@.subrange(0, n as int) =~= bytes@);
    }
}

/// The correlation id held at bytes 1..9 of a frame.
fn read_u64_be(b: &Vec<u8>, off: usize) -> (x: u64)
    requires
        off + 8 <= b@.len(),
    ensures
        x == spec_u64_of_be(b@.subrange(off as int, off as int + 8)),
{
    let n = b.len();
    let x = ((b[off] as u64) << 56) | ((b[off + 1] as u64) << 48) | ((b[off + 2] as u64) << 40) | (
    (b[off + 3] as u64) << 32) | ((b[off + 4] as u64) << 24) | ((b[off + 5] as u64) << 16) | ((b[off
        + 6] as u64) << 8) | (b[off + 7] as u64);
    proof {
        let s = b@.subrange(off as int, off as int + 8);
        assert(s[0] == b@[off as int] && s[1] == b@[off as int + 1] && s[2] == b@[off as int + 2]
            && s[3] == b@[off as int + 3] && s[4] == b@[off as int + 4] && s[5] == b@[off as int + 5]
            && s[6] == b@[off as int + 6] && s[7] == b@[off as int + 7]);
    }
    x
}

/// The payload length held at four bytes of a frame.
fn read_u32_be(b: &Vec<u8>, off: usize) -> (x: u32)
    requires
        off + 4 <= b@.len(),
    ensures
        x == spec_u32_of_be(b@.subrange(off as int, off as int + 4)),
{
    let n = b.len();
    let x = ((b[off] as u32) << 24) | ((b[off + 1] as u32) << 16) | ((b[off + 2] as u32) << 8) | (
    b[off + 3] as u32);
    proof {
        let s = b@.subrange(off as int, off as int + 4);
        assert(s[0] == b@[off as int] && s[1] == b@[off as int + 1] && s[2] == b@[off as int + 2]
            && s[3] == b@[off as int + 3]);
    }
    x
}

/// A copy of `src[from..to]`.
fn copy_range(src: &Vec<u8>, from: usize, to: usize) -> (out: Vec<u8>)
    requires
        from <= to <= src@.len(),
    ensures
        out@ == src@.subrange(from as int, to as int),
{
    let mut out: Vec<u8> = Vec::new();
    let mut i: usize = from;
    while i < to
        invariant
            from <= i <= to <= src@.len(),
            out@ == src@.subrange(from as int, i as int),
        decreases to - i,
    {
        out.push(src[i]);
        proof {
            assert(out@ =~= src@.subrange(from as int, i + 1));
        }
        i = i + 1;
    }
    out
}

/// Encodes a frame with the given tag byte.
fn encode_frame(corr_id: u64, tag: u8, payload: &Vec<u8>) -> (out: Vec<u8>)
    requires
        payload@.len() <= MAX_PAYLOAD,
    ensures
        out@ == spec_frame(corr_id, tag, payload@),
{
    let mut out: Vec<u8> = Vec::new();
    out.push(WIRE_VERSION);
    push_u64_be(&mut out, corr_id);
    out.push(tag);
    push_u32_be(&mut out, payload.len() as u32);
    push_bytes(&mut out, payload);
    proof {
        assert(out@ =~= spec_frame(corr_id, tag, payload@));
    }
    out
}

/// Encodes a request envelope into its wire bytes.
pub fn encode_request(f: &RequestFrame) -> (out: Vec<u8>)
    requires
        f.payload@.len() <= MAX_PAYLOAD,
    ensures
        out@ == spec_encode_request(f.corr_id, f.command, f.payload@),
{
    let tag = match f.command {
        Command::StartRecording => 0u8,
        Command::StopRecording => 1u8,
        Command::GetAudioDevices => 2u8,
        Command::TranscribeAudio => 3u8,
        Command::SummarizeTranscription => 4u8,
    };
    encode_frame(f.corr_id, tag, &f.payload)
}

/// Encodes a response envelope into its wire bytes.
pub fn encode_response(f: &ResponseFrame) -> (out: Vec<u8>)
    requires
        f.payload@.len() <= MAX_PAYLOAD,
    ensures
        out@ == spec_encode_response(f.corr_id, f.status, f.payload@),
{
    let tag = match f.status {
        WireStatus::Success => 0u8,
        WireStatus::InvalidState => 1u8,
        WireStatus::Failure => 2u8,
    };
    encode_frame(f.corr_id, tag, &f.payload)
}

/// Checks the shared frame header; returns the payload length field's
/// value when the frame is well shaped.
fn check_frame_shape(b: &Vec<u8>) -> (r: bool)
    ensures
        r == spec_frame_shape_ok(b@),
{
    let n = b.len();
    if n < HEADER_LEN {
        return false;
    }
    if n - HEADER_LEN > MAX_PAYLOAD {
        return false;
    }
    if b[0] != WIRE_VERSION {
        return false;
    }
    let len_field = read_u32_be(b, LEN_OFFSET);
    (len_field as usize) == n - HEADER_LEN
}

/// Decodes a request frame; returns None when the frame is not a
/// well-formed request envelope.
pub fn decode_request(b: &Vec<u8>) -> (r: Option<RequestFrame>)
    ensures
        match r {
            Some(f) => spec_decode_request(b@) == Some((f.corr_id, f.command, f.payload@)),
            None => spec_decode_request(b@) is None,
        },
{
    if !check_frame_shape(b) {
        return None;
    }
    let tag = b[TAG_OFFSET];
    let command = if tag == 0u8 {
        Command::StartRecording
    } else if tag == 1u8 {
        Command::StopRecording
    } else if tag == 2u8 {
        Command::GetAudioDevices
    } else if tag == 3u8 {
        Command::TranscribeAudio
    } else if tag == 4u8 {
        Command::SummarizeTranscription
    } else {
        return None;
    };
    let corr_id = read_u64_be(b, 1);
    let payload = copy_range(b, HEADER_LEN, b.len());
    Some(RequestFrame { corr_id, command, payload })
}

/// Decodes a response frame; returns None when the frame is not a
/// well-formed response envelope.
pub fn decode_response(b: &Vec<u8>) -> (r: Option<ResponseFrame>)
    ensures
        match r {
            Some(f) => spec_decode_response(b@) == Some((f.corr_id, f.status, f.payload@)),
            None => spec_decode_response(b@) is None,
        },
{
    if !check_frame_shape(b) {
        return None;
    }
    let tag = b[TAG_OFFSET];
    let status = if tag == 0u8 {
        WireStatus::Success
    } else if tag == 1u8 {
        WireStatus::InvalidState
    } else if tag == 2u8 {
        WireStatus::Failure
    } else {
        return None;
    };
    let corr_id = read_u64_be(b, 1);
    let payload = copy_range(b, HEADER_LEN, b.len());
    Some(ResponseFrame { corr_id, status, payload })
}

/// The serialized argument payload of a request: a presence byte and the
/// device index for a recording start, nothing for the argument-less
/// commands, and the UTF-8 bytes of the text or path otherwise.
pub open spec fn spec_args_payload(c: Command, a: crate::command::RawArguments) -> Seq<u8> {
    match c {
        Command::StartRecording => match a.device_index {
            None => seq![0u8],
            Some(i) => seq![1u8] + spec_u64_be(i as u64),
        },
        Command::StopRecording => Seq::<u8>::empty(),
        Command::GetAudioDevices => Seq::<u8>::empty(),
        Command::TranscribeAudio => match a.audio_path {
            Some(p) => vstd::utf8::encode_utf8(p@),
            None => Seq::<u8>::empty(),
        },
        Command::SummarizeTranscription => match a.text {
            Some(t) => vstd::utf8::encode_utf8(t@),
            None => Seq::<u8>::empty(),
        },
    }
}

/// Serializes a command's arguments into its request payload.
pub fn encode_args_payload(c: Command, a: &crate::command::RawArguments) -> (out: Vec<u8>)
    ensures
        out@ == spec_args_payload(c, *a),
{
    match c {
        Command::StartRecording => {
            let mut v: Vec<u8> = Vec::new();
            match &a.device_index {
                None => {
                    v.push(0u8);
                    proof {
                        assert(v@ =~= seq![0u8]);
                    }
                },
                Some(i) => {
                    v.push(1u8);
                    push_u64_be(&mut v, #[verifier::truncate] (*i as u64));
                    proof {
                        assert(v@ =~= seq![1u8] + spec_u64_be(a.device_index->Some_0 as u64));
                    }
                },
            }
            v
        },
        Command::StopRecording => Vec::new(),
        Command::GetAudioDevices => Vec::new(),
        Command::TranscribeAudio => match &a.audio_path {
            Some(p) => p.as_str().as_bytes_vec(),
            None => Vec::new(),
        },
        Command::SummarizeTranscription => match &a.text {
            Some(t) => t.as_str().as_bytes_vec(),
            None => Vec::new(),
        },
    }
}

/// The fields of an encoded frame read back as written: the version and
/// tag bytes, the correlation id, the length field and the payload all
/// sit where decoding looks for them.
proof fn lemma_frame_fields(corr_id: u64, tag: u8, payload: Seq<u8>)
    requires
        payload.len() <= MAX_PAYLOAD,
    ensures
        spec_frame(corr_id, tag, payload).len() == HEADER_LEN + payload.len(),
        spec_frame(corr_id, tag, payload)[0] == WIRE_VERSION,
        spec_frame(corr_id, tag, payload)[TAG_OFFSET as int] == tag,
        spec_frame(corr_id, tag, payload).subrange(1, TAG_OFFSET as int) == spec_u64_be(corr_id),
        spec_frame(corr_id, tag, payload).subrange(LEN_OFFSET as int, HEADER_LEN as int)
            == spec_u32_be(payload.len() as u32),
        spec_frame(corr_id, tag, payload).subrange(
            HEADER_LEN as int,
            spec_frame(corr_id, tag, payload).len() as int,
        ) == payload,
{
    let f = spec_frame(corr_id, tag, payload);
    assert(f.subrange(1, TAG_OFFSET as int) =~= spec_u64_be(corr_id));
    assert(f.subrange(LEN_OFFSET as int, HEADER_LEN as int) =~= spec_u32_be(payload.len() as u32));
    assert(f.subrange(HEADER_LEN as int, f.len() as int) =~= payload);
}

/// Decoding an encoded request returns exactly the encoded fields: the
/// envelope preserves the correlation id, the command and the payload.
pub proof fn lemma_request_roundtrip(corr_id: u64, c: Command, payload: Seq<u8>)
    requires
        payload.len() <= MAX_PAYLOAD,
    ensures
        spec_decode_request(spec_encode_request(corr_id, c, payload)) == Some(
            (corr_id, c, payload),
        ),
{
    let tag = spec_command_tag(c);
    lemma_frame_fields(corr_id, tag, payload);
    lemma_u64_be_roundtrip(corr_id);
    lemma_u32_be_roundtrip(payload.len() as u32);
    assert(spec_command_of_tag(tag) == Some(c));
}

/// Decoding an encoded response returns exactly the encoded fields: the
/// envelope preserves the correlation id, the status and the payload.
pub proof fn lemma_response_roundtrip(corr_id: u64, st: WireStatus, payload: Seq<u8>)
    requires
        payload.len() <= MAX_PAYLOAD,
    ensures
        spec_decode_response(spec_encode_response(corr_id, st, payload)) == Some(
            (corr_id, st, payload),
        ),
{
    let tag = spec_status_tag(st);
    lemma_frame_fields(corr_id, tag, payload);
    lemma_u64_be_roundtrip(corr_id);
    lemma_u32_be_roundtrip(payload.len() as u32);
    assert(spec_status_of_tag(tag) == Some(st));
}

} // verus!
