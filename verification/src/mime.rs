//! MIME resolution: mapping a MIME type string to the file extension used
//! when a filename has to be derived for an attachment.
//!
//! The table itself lives in the `mime_to_ext` crate, embedded there as
//! static data; this module wraps the lookup and turns the raw extension
//! list into the single dotted extension the classifiers append.

use vstd::prelude::*;

use crate::errors::ClassificationError;

verus! {

/// What `mime_to_ext::mime_to_ext` returns for a MIME type: the list of
/// known extensions (without a leading dot), or `None` for an unknown type.
/// The table is static data compiled into that crate, so the result is a
/// function of the MIME string alone.
pub uninterp spec fn mime_exts(mime: Seq<char>) -> Option<Seq<Seq<char>>>;

/// Relies on `mime_to_ext::mime_to_ext`: extensions for a MIME type, looked
/// up in a static table embedded in that crate.
#[verifier::external_body]
fn mime_ext_lookup(mime: &str) -> (r: Option<Vec<String>>)
    ensures
        r.deep_view() == mime_exts(mime@),
{
    mime_to_ext::mime_to_ext(mime).map(|exts| exts.iter().map(|e| String::from(*e)).collect())
}

/// The dotted extension the pipeline derives for a MIME type: a dot followed
/// by the first extension the table lists, or `None` when the type is
/// unknown or the table lists no extension for it.
pub open spec fn resolved_ext(mime: Seq<char>) -> Option<Seq<char>> {
    match mime_exts(mime) {
        Some(exts) => if exts.len() > 0 {
            Some(seq!['.'] + exts[0])
        } else {
            None
        },
        None => None,
    }
}

/// Resolve a MIME type string to the dotted file extension used when
/// deriving a filename. Fails exactly on the MIME types the table cannot
/// resolve.
pub fn resolve_mime(mime: &str) -> (r: Result<String, ClassificationError>)
    ensures
        r is Ok <==> resolved_ext(mime@) is Some,
        r matches Ok(ext) ==> resolved_ext(mime@) == Some(ext@),
        r matches Err(e) ==> e == ClassificationError::UnknownMimeType,
{
    match mime_ext_lookup(mime) {
        Some(exts) => {
            if exts.len() > 0 {
                let first: &String = &exts[0];
                proof {
                    reveal_strlit(".");
                    assert(exts.deep_view()[0] == exts@[0]@);
                    assert("."@ =~= seq!['.']);
                }
                let dotted = String::from_str(".").concat(first.as_str());
                assert(dotted@ =~= seq!['.'] + exts.deep_view()[0]);
                Ok(dotted)
            } else {
                Err(ClassificationError::UnknownMimeType)
            }
        },
        None => Err(ClassificationError::UnknownMimeType),
    }
}

} // verus!
