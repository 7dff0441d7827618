//! Binary replies from agents and fixed-size text buffers from plugins.
use vstd::prelude::*;
use vstd::utf8::{valid_utf8, decode_utf8, encode_utf8};

verus! {

/// The length of the command identifier that heads a binary reply.
pub const COMMAND_ID_LEN: usize = 36;

/// The text that `bytes` encode in UTF-8: `std::str::from_utf8`.
///
/// The contract claims what the standard library documents: the call
/// succeeds exactly on valid UTF-8, and then yields the decoded characters.
#[verifier::external_body]
pub(crate) fn utf8_text(bytes: &[u8]) -> (r: Option<String>)
    ensures
        r is Some <==> valid_utf8(bytes@),
        r matches Some(s) ==> s@ == decode_utf8(bytes@),
{
    match std::str::from_utf8(bytes) {
        Ok(s) => Some(s.to_owned()),
        Err(_) => None,
    }
}

/// The bytes `data[from..to]`.
pub fn bytes_between(data: &[u8], from: usize, to: usize) -> (r: Vec<u8>)
    requires
        from <= to <= data@.len(),
    ensures
        r@ == data@.subrange(from as int, to as int),
{
    let mut r: Vec<u8> = Vec::new();
    let mut i = from;
    while i < to
        invariant
            from <= i <= to,
            to <= data@.len(),
            r@ == data@.subrange(from as int, i as int),
        decreases to - i,
    {
        r.push(data[i]);
        proof {
            assert(r@ =~= data@.subrange(from as int, i + 1));
        }
        i = i + 1;
    }
    r
}

/// A binary reply: the identifier of the command it answers, and its data.
#[derive(Debug, Clone)]
pub struct BinaryReply {
    pub command_id: String,
    pub data: Vec<u8>,
}

/// Splits a binary frame into the command identifier that fills its first
/// 36 bytes and the data that follows; `None` when the frame is shorter or
/// its head is not UTF-8.
pub fn parse_binary_reply(frame: &[u8]) -> (r: Option<BinaryReply>)
    ensures
        r is Some <==> (frame@.len() >= 36 && valid_utf8(frame@.take(36))),
        r matches Some(reply) ==> {
            &&& reply.command_id@ == decode_utf8(frame@.take(36))
            &&& reply.data@ == frame@.skip(36)
        },
{
    if frame.len() < COMMAND_ID_LEN {
        return None;
    }
    let head = bytes_between(frame, 0, COMMAND_ID_LEN);
    assert(head@ =~= frame@.take(36));
    match utf8_text(head.as_slice()) {
        Some(command_id) => {
            let data = bytes_between(frame, COMMAND_ID_LEN, frame.len());
            assert(data@ =~= frame@.skip(36));
            Some(BinaryReply { command_id, data })
        },
        None => None,
    }
}

/// A binary reply made of a command identifier that takes 36 bytes in
/// UTF-8, followed by any data, is read back as that identifier and that
/// data.
pub proof fn law_binary_reply_round_trip(id: Seq<char>, data: Seq<u8>)
    requires
        encode_utf8(id).len() == 36,
    ensures
        ({
            let frame = encode_utf8(id) + data;
            &&& frame.len() >= 36
            &&& valid_utf8(frame.take(36))
            &&& decode_utf8(frame.take(36)) == id
            &&& frame.skip(36) == data
        }),
{
    let frame = encode_utf8(id) + data;
    assert(frame.take(36) =~= encode_utf8(id));
    assert(frame.skip(36) =~= data);
    vstd::utf8::encode_utf8_valid_utf8(id);
    vstd::utf8::encode_utf8_decode_utf8(id);
}

/// The command identifiers the server draws fill exactly the head of a
/// binary reply: a reply that starts with one, followed by any data, is read
/// back as that identifier and that data.
pub proof fn law_command_id_reply_round_trip(id: Seq<char>, data: Seq<u8>)
    requires
        crate::ids::is_uuid_v4_text(id),
    ensures
        ({
            let frame = encode_utf8(id) + data;
            &&& frame.len() >= 36
            &&& valid_utf8(frame.take(36))
            &&& decode_utf8(frame.take(36)) == id
            &&& frame.skip(36) == data
        }),
{
    assert(vstd::utf8::is_ascii_chars(id)) by {
        assert forall|i: int| 0 <= i < id.len() implies '\0' <= #[trigger] id[i] <= '\u{7f}' by {
            if i != 8 && i != 13 && i != 18 && i != 23 {
                assert(crate::ids::is_lower_hex_digit(id[i]));
            }
        }
    }
    vstd::utf8::is_ascii_chars_encode_utf8(id);
    law_binary_reply_round_trip(id, data);
}

/// The bytes of a C character buffer, up to its first NUL (or all of it).
pub open spec fn c_text_bytes(buf: Seq<i8>) -> Seq<u8> {
    let n = if exists|i: int| 0 <= i < buf.len() && buf[i] == 0 {
        choose|i: int| 0 <= i < buf.len() && buf[i] == 0 && forall|j: int| 0 <= j < i ==> buf[j] != 0
    } else {
        buf.len() as int
    };
    buf.take(n).map_values(|c: i8| c as u8)
}

/// The bytes of a C character buffer before its first NUL (all of them
/// where it has none).
pub fn c_text(buf: &[i8]) -> (bytes: Vec<u8>)
    ensures
        bytes@ == c_text_bytes(buf@),
{
    let n = buf.len();
    let mut end: usize = 0;
    while end < n && buf[end] != 0
        invariant
            end <= n,
            n == buf@.len(),
            forall|j: int| 0 <= j < end ==> buf@[j] != 0,
        decreases n - end,
    {
        end = end + 1;
    }
    let mut bytes: Vec<u8> = Vec::new();
    let mut i: usize = 0;
    while i < end
        invariant
            i <= end <= n,
            n == buf@.len(),
            bytes@ == buf@.take(i as int).map_values(|c: i8| c as u8),
        decreases end - i,
    {
        bytes.push(buf[i] as u8);
        proof {
            assert(bytes@ =~= buf@.take(i + 1).map_values(|c: i8| c as u8));
        }
        i = i + 1;
    }
    proof {
        if exists|i: int| 0 <= i < buf@.len() && buf@[i] == 0 {
            let c = choose|i: int| 0 <= i < buf@.len() && buf@[i] == 0 && forall|j: int| 0 <= j < i ==> buf@[j] != 0;
            assert(end < n);
            assert(c == end as int) by {
                if c < end as int {
                    assert(buf@[c] != 0);
                }
                if c > end as int {
                    assert(buf@[end as int] != 0);
                }
            }
        }
        assert(bytes@ =~= c_text_bytes(buf@));
    }
    bytes
}

/// The text of a NUL-terminated C character buffer; the empty string when
/// the bytes before the first NUL are not UTF-8.
pub fn buffer_to_string(buf: &[i8]) -> (s: String)
    ensures
        s@ == (if valid_utf8(c_text_bytes(buf@)) {
            decode_utf8(c_text_bytes(buf@))
        } else {
            Seq::empty()
        }),
{
    let bytes = c_text(buf);
    match utf8_text(bytes.as_slice()) {
        Some(s) => s,
        None => String::new(),
    }
}

/// What `String::from_utf8_lossy` makes of `bytes`: the decoded text, with
/// U+FFFD in place of each invalid sequence.
pub uninterp spec fn lossy_utf8(bytes: Seq<u8>) -> Seq<char>;

/// `String::from_utf8_lossy`, made an owned string: its result is named
/// [`lossy_utf8`] of the bytes, and on valid UTF-8 it is the decoded text,
/// as the standard library documents.  How invalid sequences are replaced is
/// left unsaid.
#[verifier::external_body]
pub(crate) fn utf8_lossy(bytes: &[u8]) -> (r: String)
    ensures
        r@ == lossy_utf8(bytes@),
        valid_utf8(bytes@) ==> r@ == decode_utf8(bytes@),
{
    String::from_utf8_lossy(bytes).into_owned()
}

/// The text of a NUL-terminated C character buffer, invalid UTF-8 replaced
/// as `String::from_utf8_lossy` replaces it.
pub fn buffer_to_string_lossy(buf: &[i8]) -> (s: String)
    ensures
        s@ == lossy_utf8(c_text_bytes(buf@)),
        valid_utf8(c_text_bytes(buf@)) ==> s@ == decode_utf8(c_text_bytes(buf@)),
{
    let bytes = c_text(buf);
    utf8_lossy(bytes.as_slice())
}

} // verus!
