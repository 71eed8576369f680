//! Field reader: a cursor over a byte buffer that extracts length-prefixed
//! fields with every bound checked before any index.
//!
//! A field is encoded as one length byte `L` followed by exactly `L` bytes
//! of content, so its encoded size is `1 + L`.

use vstd::prelude::*;

use crate::error::DecodeError;

verus! {

/// Whether a byte sequence is valid UTF-8. The decoder treats every field
/// of this protocol as textual, so each one is held to this predicate.
pub uninterp spec fn is_utf8(bytes: Seq<u8>) -> bool;

/// Relies on core::str::from_utf8: it returns `Ok` exactly when the bytes
/// are valid UTF-8, and its result depends on the bytes alone.
#[verifier::external_body]
fn utf8_check(bytes: &[u8]) -> (r: bool)
    ensures
        r == is_utf8(bytes@),
{
    core::str::from_utf8(bytes).is_ok()
}

/// What reading one length-prefixed field at `offset` yields: the field's
/// content bytes and the offset just past them, or `TruncatedBuffer` when
/// the length byte or the declared content does not fit in the buffer.
pub open spec fn spec_read_field(data: Seq<u8>, offset: int) -> Result<(Seq<u8>, int), DecodeError> {
    if offset + 1 > data.len() {
        Err(DecodeError::TruncatedBuffer)
    } else {
        let l = data[offset] as int;
        if offset + 1 + l > data.len() {
            Err(DecodeError::TruncatedBuffer)
        } else {
            Ok((data.subrange(offset + 1, offset + 1 + l), offset + 1 + l))
        }
    }
}

/// Reads the length-prefixed field at `offset`, returning its content and
/// the offset of the byte after it.
///
/// All bounds are checked before any indexing, so the read never touches a
/// byte at or past `data.len()`; the offset arithmetic is proved free of
/// overflow, so no input reaches `LengthOverflow` here.
pub fn read_field(data: &[u8], offset: usize) -> (r: Result<(Vec<u8>, usize), DecodeError>)
    requires
        offset <= data@.len(),
    ensures
        match r {
            Ok(p) => {
                &&& spec_read_field(data@, offset as int) == Ok::<(Seq<u8>, int), DecodeError>((p.0@, p.1 as int))
                &&& p.1 <= data@.len()
                &&& offset < p.1
            },
            Err(e) => spec_read_field(data@, offset as int) == Err::<(Seq<u8>, int), DecodeError>(e),
        },
{
    if offset >= data.len() {
        return Err(DecodeError::TruncatedBuffer);
    }
    let l = *vstd::slice::slice_index_get(data, offset) as usize;
    let remaining = data.len() - offset - 1;
    if l > remaining {
        return Err(DecodeError::TruncatedBuffer);
    }
    let content = vstd::slice::slice_to_vec(vstd::slice::slice_subrange(data, offset + 1, offset + 1 + l));
    Ok((content, offset + 1 + l))
}

/// Reading a textual field: the field at `offset`, held additionally to
/// UTF-8 validity, which fails with `InvalidEncoding` on malformed bytes.
pub open spec fn spec_read_text(data: Seq<u8>, offset: int) -> Result<(Seq<u8>, int), DecodeError> {
    match spec_read_field(data, offset) {
        Ok(p) => {
            if is_utf8(p.0) {
                Ok(p)
            } else {
                Err(DecodeError::InvalidEncoding)
            }
        },
        Err(e) => Err(e),
    }
}

/// Reads the field at `offset` and checks that its content is valid UTF-8.
pub fn read_text(data: &[u8], offset: usize) -> (r: Result<(Vec<u8>, usize), DecodeError>)
    requires
        offset <= data@.len(),
    ensures
        match r {
            Ok(p) => {
                &&& spec_read_text(data@, offset as int) == Ok::<(Seq<u8>, int), DecodeError>((p.0@, p.1 as int))
                &&& p.1 <= data@.len()
                &&& offset < p.1
            },
            Err(e) => spec_read_text(data@, offset as int) == Err::<(Seq<u8>, int), DecodeError>(e),
        },
{
    match read_field(data, offset) {
        Ok((content, next)) => {
            if utf8_check(content.as_slice()) {
                Ok((content, next))
            } else {
                Err(DecodeError::InvalidEncoding)
            }
        },
        Err(e) => Err(e),
    }
}

} // verus!
