//! The wire format of a [`CompileResponse`].
//!
//! A response travels as a tag of four bytes, then its fields in order. A
//! field is its length in eight bytes, then its content; text is UTF-8.
//! All numbers are little-endian. Content is never inspected, so a binary
//! may hold any byte, zero included.
//!
//! These are the bytes that bincode writes for such an enum with
//! fixed-width integers, so a client may read them with bincode. Reading is
//! stricter here: bytes after the last field are an error.

use crate::response::{CompileResponse, ResponseView};
use crate::text::string_from_utf8;
use vstd::bytes::{
    lemma_auto_spec_u32_to_from_le_bytes, lemma_auto_spec_u64_to_from_le_bytes,
    spec_u32_from_le_bytes, spec_u32_to_le_bytes, spec_u64_from_le_bytes, spec_u64_to_le_bytes,
    u32_from_le_bytes, u32_to_le_bytes, u64_from_le_bytes, u64_to_le_bytes,
};
use vstd::prelude::*;
use vstd::slice::{slice_subrange, slice_to_vec};
use vstd::utf8::{
    decode_utf8, decode_utf8_encode_utf8, encode_utf8, encode_utf8_decode_utf8,
    encode_utf8_valid_utf8, valid_utf8,
};

verus! {

/// The tag of a successful build.
pub const TAG_SUCCESS: u32 = 0;

/// The tag of a rejected program.
pub const TAG_COMPILE_ERROR: u32 = 1;

/// A field on the wire: the length of `content`, then `content`.
pub open spec fn field(content: Seq<u8>) -> Seq<u8> {
    spec_u64_to_le_bytes(content.len() as u64) + content
}

/// The bytes that stand for `r`.
pub open spec fn wire_format(r: ResponseView) -> Seq<u8> {
    match r {
        ResponseView::Success { js, wasm } => spec_u32_to_le_bytes(TAG_SUCCESS) + field(
            encode_utf8(js),
        ) + field(wasm),
        ResponseView::CompileError(text) => spec_u32_to_le_bytes(TAG_COMPILE_ERROR) + field(
            encode_utf8(text),
        ),
    }
}

/// Whether the length of each field of `r` fits its eight bytes. Every
/// response in memory is encodable.
pub open spec fn encodable(r: ResponseView) -> bool {
    match r {
        ResponseView::Success { js, wasm } => encode_utf8(js).len() <= u64::MAX && wasm.len()
            <= u64::MAX,
        ResponseView::CompileError(text) => encode_utf8(text).len() <= u64::MAX,
    }
}

/// Whether `r` is an encodable response that travels as `bytes`.
pub open spec fn travels_as(r: ResponseView, bytes: Seq<u8>) -> bool {
    encodable(r) && wire_format(r) == bytes
}

/// The response that travels as `bytes`, if there is one. There is at most
/// one ([`lemma_wire_format_injective`]).
pub open spec fn decoding(bytes: Seq<u8>) -> Option<ResponseView> {
    if exists|r: ResponseView| travels_as(r, bytes) {
        Some(choose|r: ResponseView| travels_as(r, bytes))
    } else {
        None
    }
}

/// The length that the eight bytes at `at` announce.
spec fn announced(bytes: Seq<u8>, at: int) -> int {
    spec_u64_from_le_bytes(bytes.subrange(at, at + 8)) as int
}

/// Whether a whole field starts at `at`.
spec fn field_at(bytes: Seq<u8>, at: int) -> bool {
    0 <= at && at + 8 <= bytes.len() && at + 8 + announced(bytes, at) <= bytes.len()
}

/// Where the field that starts at `at` ends.
spec fn field_end(bytes: Seq<u8>, at: int) -> int {
    at + 8 + announced(bytes, at)
}

/// The content of the field that starts at `at`.
spec fn field_content(bytes: Seq<u8>, at: int) -> Seq<u8> {
    bytes.subrange(at + 8, field_end(bytes, at))
}

/// The tag that `bytes` start with.
spec fn tag_of(bytes: Seq<u8>) -> u32 {
    spec_u32_from_le_bytes(bytes.subrange(0, 4))
}

/// Whether `bytes` are a tag and then exactly the fields that the tag asks
/// for, the text among them well-formed.
spec fn well_framed(bytes: Seq<u8>) -> bool {
    &&& bytes.len() >= 4
    &&& field_at(bytes, 4)
    &&& valid_utf8(field_content(bytes, 4))
    &&& if tag_of(bytes) == TAG_SUCCESS {
        &&& field_at(bytes, field_end(bytes, 4))
        &&& field_end(bytes, field_end(bytes, 4)) == bytes.len()
    } else {
        &&& tag_of(bytes) == TAG_COMPILE_ERROR
        &&& field_end(bytes, 4) == bytes.len()
    }
}

/// What well-framed bytes hold.
spec fn framed_value(bytes: Seq<u8>) -> ResponseView {
    if tag_of(bytes) == TAG_SUCCESS {
        ResponseView::Success {
            js: decode_utf8(field_content(bytes, 4)),
            wasm: field_content(bytes, field_end(bytes, 4)),
        }
    } else {
        ResponseView::CompileError(decode_utf8(field_content(bytes, 4)))
    }
}

/// A field that was written at `at` is found there again.
proof fn lemma_field_found(bytes: Seq<u8>, at: int, content: Seq<u8>)
    requires
        0 <= at,
        content.len() <= u64::MAX,
        at + 8 + content.len() <= bytes.len(),
        bytes.subrange(at, at + 8 + content.len() as int) == field(content),
    ensures
        field_at(bytes, at),
        field_end(bytes, at) == at + 8 + content.len(),
        field_content(bytes, at) == content,
{
    lemma_auto_spec_u64_to_from_le_bytes();
    let length: int = content.len() as int;
    let whole = bytes.subrange(at, at + 8 + length);
    let head = spec_u64_to_le_bytes(content.len() as u64);
    assert(head.len() == 8);
    assert(bytes.subrange(at, at + 8) =~= whole.subrange(0, 8));
    assert(whole.subrange(0, 8) =~= head);
    assert(announced(bytes, at) == length);
    assert(field_content(bytes, at) =~= whole.subrange(8, 8 + length));
    assert(whole.subrange(8, 8 + length) =~= content);
}

/// A field that is found at `at` reads as the field of its content.
proof fn lemma_field_read(bytes: Seq<u8>, at: int)
    requires
        field_at(bytes, at),
    ensures
        bytes.subrange(at, field_end(bytes, at)) == field(field_content(bytes, at)),
        field_content(bytes, at).len() <= u64::MAX,
{
    lemma_auto_spec_u64_to_from_le_bytes();
    let head = bytes.subrange(at, at + 8);
    let content = field_content(bytes, at);
    assert(head.len() == 8);
    assert(content.len() == announced(bytes, at));
    assert(spec_u64_to_le_bytes(spec_u64_from_le_bytes(head)) == head);
    assert(bytes.subrange(at, field_end(bytes, at)) =~= head + content);
}

/// The wire format of an encodable response is well framed and holds that
/// response.
proof fn lemma_wire_format_framed(r: ResponseView)
    requires
        encodable(r),
    ensures
        well_framed(wire_format(r)),
        framed_value(wire_format(r)) == r,
{
    lemma_auto_spec_u32_to_from_le_bytes();
    lemma_auto_spec_u64_to_from_le_bytes();
    let bytes = wire_format(r);
    match r {
        ResponseView::Success { js, wasm } => {
            let tag = spec_u32_to_le_bytes(TAG_SUCCESS);
            let text = encode_utf8(js);
            assert(tag.len() == 4);
            assert(bytes.subrange(0, 4) =~= tag);
            let second: int = 12 + text.len() as int;
            assert(bytes.subrange(4, second) =~= field(text));
            lemma_field_found(bytes, 4, text);
            assert(bytes.subrange(second, second + 8 + wasm.len() as int) =~= field(wasm));
            lemma_field_found(bytes, second, wasm);
            encode_utf8_valid_utf8(js);
            encode_utf8_decode_utf8(js);
        },
        ResponseView::CompileError(message) => {
            let tag = spec_u32_to_le_bytes(TAG_COMPILE_ERROR);
            let text = encode_utf8(message);
            assert(tag.len() == 4);
            assert(bytes.subrange(0, 4) =~= tag);
            let end: int = 12 + text.len() as int;
            assert(bytes.subrange(4, end) =~= field(text));
            lemma_field_found(bytes, 4, text);
            encode_utf8_valid_utf8(message);
            encode_utf8_decode_utf8(message);
        },
    }
}

/// Well-framed bytes are the wire format of what they hold.
proof fn lemma_framed_is_wire_format(bytes: Seq<u8>)
    requires
        well_framed(bytes),
    ensures
        travels_as(framed_value(bytes), bytes),
{
    lemma_auto_spec_u32_to_from_le_bytes();
    let head = bytes.subrange(0, 4);
    assert(spec_u32_to_le_bytes(spec_u32_from_le_bytes(head)) == head);
    let text = field_content(bytes, 4);
    let first_end = field_end(bytes, 4);
    lemma_field_read(bytes, 4);
    decode_utf8_encode_utf8(text);
    if tag_of(bytes) == TAG_SUCCESS {
        lemma_field_read(bytes, first_end);
        assert(bytes =~= head + bytes.subrange(4, first_end) + bytes.subrange(
            first_end,
            bytes.len() as int,
        ));
    } else {
        assert(bytes =~= head + bytes.subrange(4, first_end));
    }
}

/// Two encodable responses with one wire format are one response.
pub proof fn lemma_wire_format_injective(a: ResponseView, b: ResponseView)
    requires
        encodable(a),
        encodable(b),
        wire_format(a) == wire_format(b),
    ensures
        a == b,
{
    lemma_wire_format_framed(a);
    lemma_wire_format_framed(b);
}

/// `decoding` reads bytes by their frame.
proof fn lemma_decoding_by_frame(bytes: Seq<u8>)
    ensures
        decoding(bytes) == if well_framed(bytes) {
            Some(framed_value(bytes))
        } else {
            None
        },
{
    if well_framed(bytes) {
        lemma_framed_is_wire_format(bytes);
        let r = choose|r: ResponseView| travels_as(r, bytes);
        lemma_wire_format_injective(r, framed_value(bytes));
    } else {
        assert forall|r: ResponseView| !travels_as(r, bytes) by {
            if encodable(r) {
                lemma_wire_format_framed(r);
            }
        }
    }
}

/// Decoding undoes encoding: the wire format of a response is read back as
/// that response, whatever its fields hold.
pub proof fn law_decoding_inverts_encoding(r: ResponseView)
    requires
        encodable(r),
    ensures
        decoding(wire_format(r)) == Some(r),
{
    lemma_wire_format_framed(r);
    lemma_decoding_by_frame(wire_format(r));
}

/// Encoding undoes decoding: bytes that are read as a response are the wire
/// format of that response, and of no other.
pub proof fn law_encoding_inverts_decoding(bytes: Seq<u8>, r: ResponseView)
    requires
        decoding(bytes) == Some(r),
    ensures
        encodable(r),
        wire_format(r) == bytes,
{
}

/// Appends the field of `content` to `out`.
fn put_field(out: &mut Vec<u8>, content: &[u8])
    ensures
        final(out)@ == old(out)@ + field(content@),
        content@.len() <= u64::MAX,
{
    let mut length = u64_to_le_bytes(content.len() as u64);
    let mut copy = slice_to_vec(content);
    out.append(&mut length);
    out.append(&mut copy);
    assert(out@ =~= old(out)@ + field(content@));
}

/// The bytes that stand for `response`.
pub fn encode(response: &CompileResponse) -> (out: Vec<u8>)
    ensures
        out@ == wire_format(response@),
        decoding(out@) == Some(response@),
{
    let out = match response {
        CompileResponse::Success { js, wasm } => {
            let mut out = u32_to_le_bytes(TAG_SUCCESS);
            put_field(&mut out, js.as_str().as_bytes());
            put_field(&mut out, wasm.as_slice());
            out
        },
        CompileResponse::CompileError(text) => {
            let mut out = u32_to_le_bytes(TAG_COMPILE_ERROR);
            put_field(&mut out, text.as_str().as_bytes());
            out
        },
    };
    proof {
        law_decoding_inverts_encoding(response@);
    }
    out
}

/// Reads the field that starts at `at`: its content and where it ends.
/// `None` when the bytes stop before the field does.
fn take_field(bytes: &[u8], at: usize) -> (out: Option<(Vec<u8>, usize)>)
    requires
        at <= bytes@.len(),
    ensures
        out is Some <==> field_at(bytes@, at as int),
        out matches Some((content, end)) ==> content@ == field_content(bytes@, at as int) && end
            == field_end(bytes@, at as int),
{
    let left = bytes.len() - at;
    if left < 8 {
        return None;
    }
    let announced = u64_from_le_bytes(slice_subrange(bytes, at, at + 8));
    if announced > (left - 8) as u64 {
        return None;
    }
    let end = at + 8 + announced as usize;
    let content = slice_to_vec(slice_subrange(bytes, at + 8, end));
    Some((content, end))
}

/// The response that `bytes` stand for. `None` unless `bytes` are exactly
/// the wire format of a response: a known tag, whole fields, well-formed
/// text, and nothing after the last field.
pub fn decode(bytes: &[u8]) -> (out: Option<CompileResponse>)
    ensures
        out is Some <==> decoding(bytes@) is Some,
        out matches Some(response) ==> decoding(bytes@) == Some(response@),
{
    proof {
        lemma_decoding_by_frame(bytes@);
    }
    if bytes.len() < 4 {
        return None;
    }
    let tag = u32_from_le_bytes(slice_subrange(bytes, 0, 4));
    if tag != TAG_SUCCESS && tag != TAG_COMPILE_ERROR {
        return None;
    }
    let (text, text_end) = match take_field(bytes, 4) {
        Some(found) => found,
        None => { return None; },
    };
    if tag == TAG_SUCCESS {
        let (wasm, end) = match take_field(bytes, text_end) {
            Some(found) => found,
            None => { return None; },
        };
        if end != bytes.len() {
            return None;
        }
        match string_from_utf8(text) {
            Some(js) => Some(CompileResponse::Success { js, wasm }),
            None => None,
        }
    } else {
        if text_end != bytes.len() {
            return None;
        }
        match string_from_utf8(text) {
            Some(message) => Some(CompileResponse::CompileError(message)),
            None => None,
        }
    }
}

} // verus!
