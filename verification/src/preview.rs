//! Classification of a file for the central preview pane: oversized files
//! are refused before reading, text is cut at the size cap on a character
//! boundary, and bytes that are not UTF-8 report binary.

use crate::state::FileBody;
use crate::text::push_str;
use vstd::prelude::*;
use vstd::utf8::decode_utf8;
use vstd::utf8::is_char_boundary;
use vstd::utf8::is_continuation_byte;
use vstd::utf8::valid_utf8;

verus! {

/// Files above this many bytes are not previewed; text above it is cut.
pub const PREVIEW_LIMIT: u64 = 524288;

/// The marker appended to a cut preview.
pub open spec fn cut_marker() -> Seq<char> {
    "\n… (已截断)"@
}

/// The largest character boundary of `bytes` at or below `end`.
pub open spec fn boundary_at_or_below(bytes: Seq<u8>, end: int) -> int
    decreases end,
{
    if end <= 0 {
        0
    } else if is_char_boundary(bytes, end) {
        end
    } else {
        boundary_at_or_below(bytes, end - 1)
    }
}

/// The body shown for the bytes a read returned.
pub open spec fn spec_preview_text(bytes: Seq<u8>) -> Option<Seq<char>> {
    if !valid_utf8(bytes) {
        None
    } else if bytes.len() <= PREVIEW_LIMIT {
        Some(decode_utf8(bytes))
    } else {
        Some(
            decode_utf8(bytes.subrange(0, boundary_at_or_below(bytes, PREVIEW_LIMIT as int)))
                + cut_marker(),
        )
    }
}

/// `String::from_utf8`: the bytes as a string exactly when they are valid
/// UTF-8 (the standard library documents that it fails otherwise and
/// decodes them unchanged when it succeeds).
#[verifier::external_body]
fn string_from_utf8(bytes: Vec<u8>) -> (r: Option<String>)
    ensures
        r is Some <==> valid_utf8(bytes@),
        r matches Some(s) ==> s@ == decode_utf8(bytes@),
{
    String::from_utf8(bytes).ok()
}

/// The largest character boundary at or below the cap, scanning down past
/// continuation bytes.
fn cut_point(bytes: &Vec<u8>) -> (end: usize)
    requires
        valid_utf8(bytes@),
        bytes@.len() > PREVIEW_LIMIT,
    ensures
        end as int == boundary_at_or_below(bytes@, PREVIEW_LIMIT as int),
        is_char_boundary(bytes@, end as int),
        end <= PREVIEW_LIMIT,
{
    let mut end: usize = 524288;
    while end > 0 && is_continuation_byte_exec(bytes[end])
        invariant
            valid_utf8(bytes@),
            end <= PREVIEW_LIMIT,
            bytes@.len() > PREVIEW_LIMIT,
            boundary_at_or_below(bytes@, PREVIEW_LIMIT as int) == boundary_at_or_below(bytes@, end as int),
        decreases end,
    {
        proof {
            vstd::utf8::is_char_boundary_iff_not_is_continuation_byte(bytes@, end as int);
        }
        end = end - 1;
    }
    proof {
        if end > 0 {
            vstd::utf8::is_char_boundary_iff_not_is_continuation_byte(bytes@, end as int);
        }
    }
    end
}

/// Whether `b` has the bit pattern of a UTF-8 continuation byte.
fn is_continuation_byte_exec(b: u8) -> (r: bool)
    ensures
        r == is_continuation_byte(b),
{
    0x80 <= b && b <= 0xbf
}

/// What the size check before the read decides; `None` means read on.
pub fn preview_from_size(size: Result<u64, String>) -> (r: Option<FileBody>)
    ensures
        r == match size {
            Ok(len) => if len > PREVIEW_LIMIT {
                Some(FileBody::TooLarge)
            } else {
                None
            },
            Err(e) => Some(FileBody::Failed(e)),
        },
{
    match size {
        Ok(len) => if len > PREVIEW_LIMIT {
            Some(FileBody::TooLarge)
        } else {
            None
        },
        Err(reason) => Some(FileBody::Failed(reason)),
    }
}

/// The preview body for the outcome of the read: a failed read carries
/// its reason, invalid UTF-8 is binary, text over the cap is cut on a
/// character boundary and marked.
pub fn preview_from_read(read: Result<Vec<u8>, String>) -> (body: FileBody)
    ensures
        match read {
            Err(e) => body == FileBody::Failed(e),
            Ok(bytes) => match spec_preview_text(bytes@) {
                None => body == FileBody::Binary,
                Some(t) => body matches FileBody::Text(s) && s@ == t,
            },
        },
{
    let bytes = match read {
        Err(reason) => {
            return FileBody::Failed(reason);
        },
        Ok(bytes) => bytes,
    };
    if bytes.len() as u64 <= PREVIEW_LIMIT {
        return match string_from_utf8(bytes) {
            None => FileBody::Binary,
            Some(text) => FileBody::Text(text),
        };
    }
    let mut head = bytes.clone();
    proof {
        assert(head@ =~= bytes@);
    }
    match string_from_utf8(bytes) {
        None => FileBody::Binary,
        Some(_) => {
            let end = cut_point(&head);
            let ghost whole = head@;
            head.truncate(end);
            proof {
                vstd::utf8::valid_utf8_split(whole, end as int);
            }
            match string_from_utf8(head) {
                None => FileBody::Binary,
                Some(mut text) => {
                    push_str(&mut text, "\n… (已截断)");
                    FileBody::Text(text)
                },
            }
        },
    }
}

} // verus!
