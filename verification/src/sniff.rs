//! The content type of stored bytes, told from their leading bytes and never
//! from what the client declared.
//!
//! The signatures that tell one type from another are those of the `infer`
//! crate, which is called here and not verified.

use vstd::prelude::*;
use vstd::slice::slice_subrange;

verus! {

/// How many leading bytes of a stored file the content type is told from.
pub const SNIFF_LEN: usize = 8192;

/// The MIME type that `infer` recognises in a buffer, or `None` where it
/// recognises nothing.
pub uninterp spec fn infer_mime(buf: Seq<u8>) -> Option<Seq<char>>;

/// `infer::get`, then `infer::Type::mime_type` on what it found: the MIME
/// type of the first signature that matches `buf`. It is only ever handed a
/// window of at most `SNIFF_LEN` bytes.
#[verifier::external_body]
fn infer_get(buf: &[u8]) -> (mime: Option<String>)
    requires
        buf@.len() <= SNIFF_LEN,
    ensures
        mime.deep_view() == infer_mime(buf@),
{
    infer::get(buf).map(|kind| kind.mime_type().to_string())
}

/// The part of the stored bytes that is looked at: all of them, or the first
/// `SNIFF_LEN` where there are more.
pub open spec fn sniff_window(stored: Seq<u8>) -> Seq<u8> {
    if stored.len() <= SNIFF_LEN {
        stored
    } else {
        stored.subrange(0, SNIFF_LEN as int)
    }
}

/// The content type of stored bytes.
pub open spec fn content_type_of(stored: Seq<u8>) -> Option<Seq<char>> {
    infer_mime(sniff_window(stored))
}

/// Tells the content type of a stored file from its bytes, or from any prefix
/// of them of at least `SNIFF_LEN` bytes.
pub fn sniff_content_type(stored: &[u8]) -> (mime: Option<String>)
    ensures
        mime.deep_view() == content_type_of(stored@),
{
    if stored.len() <= SNIFF_LEN {
        infer_get(stored)
    } else {
        infer_get(slice_subrange(stored, 0, SNIFF_LEN))
    }
}

/// Bytes beyond the window do not change the content type.
pub proof fn lemma_sniff_reads_window_only(stored: Seq<u8>, longer: Seq<u8>)
    requires
        stored.len() >= SNIFF_LEN,
        longer.len() >= stored.len(),
        longer.subrange(0, stored.len() as int) == stored,
    ensures
        content_type_of(longer) == content_type_of(stored),
{
    assert(sniff_window(longer) =~= sniff_window(stored));
}

} // verus!
