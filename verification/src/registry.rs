//! The MIME registry: maps a content-type byte string to an ordered list
//! of candidate file-name extensions. The mapping itself is the
//! compiled-in table of the `conduit_mime_types` crate; this module
//! names its result and proves how the preferred extension is chosen
//! from it: the first entry in registry order, or `bin` when the
//! registry offers none.
use vstd::prelude::*;
use crate::model::ascii;

verus! {

/// The registry's extension list for a content type, in registry order;
/// `None` for types the registry does not know. A fixed mapping: the
/// same content type always yields the same list.
pub uninterp spec fn registry_exts(content_type: Seq<u8>) -> Option<Seq<Seq<u8>>>;

/// Relies on `conduit_mime_types::get_extension`: looks a content type
/// up in the crate's compiled-in table, a function of the queried type
/// alone. Byte strings that are not valid UTF-8 have no entry.
#[verifier::external_body]
fn lookup_extensions(content_type: &[u8]) -> (r: Option<Vec<Vec<u8>>>)
    ensures
        r.deep_view() == registry_exts(content_type@),
{
    core::str::from_utf8(content_type)
        .ok()
        .and_then(conduit_mime_types::get_extension)
        .map(|list| list.iter().map(|ext| ext.as_bytes().to_vec()).collect())
}

/// The extension preferred for `ct`: the first entry of a non-empty
/// registry list, else `bin`.
pub open spec fn preferred_extension(ct: Seq<u8>) -> Seq<u8> {
    match registry_exts(ct) {
        Some(list) => if list.len() > 0 {
            list[0]
        } else {
            ascii("bin"@)
        },
        None => ascii("bin"@),
    }
}

/// A content type the registry does not know resolves to exactly the
/// extension `bin`, and so does one the registry maps to an empty list.
pub proof fn lemma_unknown_type_gets_bin(ct: Seq<u8>)
    requires
        registry_exts(ct) is None || registry_exts(ct) == Some(Seq::<Seq<u8>>::empty()),
    ensures
        preferred_extension(ct) == ascii("bin"@),
{
}

/// Picks the file-name extension for a content type: the first registry
/// entry in registry order, or `bin` when the registry knows none.
pub fn extension_for(content_type: &[u8]) -> (r: Vec<u8>)
    ensures
        r@ == preferred_extension(content_type@),
{
    match lookup_extensions(content_type) {
        Some(mut list) => {
            if list.len() > 0 {
                let first = list.remove(0);
                proof {
                    assert(first@ == registry_exts(content_type@).unwrap()[0]);
                }
                first
            } else {
                proof {
                    reveal_strlit("bin");
                }
                crate::model::lit_bytes("bin")
            }
        },
        None => {
            proof {
                reveal_strlit("bin");
            }
            crate::model::lit_bytes("bin")
        },
    }
}

} // verus!
