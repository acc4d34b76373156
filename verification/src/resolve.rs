//! Name resolution: derives the file name for one message, in strict
//! priority order. A string-valued `fileName` header is returned
//! verbatim (trusted for content, never for path safety — the guard
//! enforces that downstream); otherwise a random basename is synthesized
//! with the registry's extension for the message's content type.
use vstd::prelude::*;
use crate::model::{ascii, bytes_eq, lit_bytes, HeaderEntry, HeaderValue, Properties, DOT};
use crate::randname::{gen_rand_name, is_random_name, RAND_LEN};
use crate::registry::{extension_for, preferred_extension, registry_exts};

verus! {

/// The header key that may carry a file name.
pub open spec fn file_name_key() -> Seq<u8> {
    ascii("fileName"@)
}

/// The file name the header table supplies, if any: the value of the
/// first `fileName` entry, and only when that value is a string; a
/// `fileName` entry of any other kind suppresses the header name.
pub open spec fn spec_header_file_name(entries: Seq<HeaderEntry>) -> Option<Seq<u8>>
    decreases entries.len(),
{
    if entries.len() == 0 {
        None
    } else if entries[0].key@ == file_name_key() {
        match entries[0].value {
            HeaderValue::Str(s) => Some(s@),
            _ => None,
        }
    } else {
        spec_header_file_name(entries.drop_first())
    }
}

/// The content type name resolution uses: the declared one, defaulting
/// to `application/octet-stream` when absent.
pub open spec fn spec_content_type(p: &Properties) -> Seq<u8> {
    match p.content_type {
        Some(ct) => ct@,
        None => ascii("application/octet-stream"@),
    }
}

/// Looks the `fileName` header up, returning its string value verbatim.
pub fn header_file_name(props: &Properties) -> (r: Option<Vec<u8>>)
    ensures
        r matches Some(n) ==> spec_header_file_name(props.headers@) == Some(n@),
        r is None ==> spec_header_file_name(props.headers@) is None,
{
    proof {
        reveal_strlit("fileName");
    }
    let key = lit_bytes("fileName");
    let mut i: usize = 0;
    proof {
        assert(props.headers@.skip(0) =~= props.headers@);
    }
    while i < props.headers.len()
        invariant
            0 <= i <= props.headers@.len(),
            key@ == file_name_key(),
            spec_header_file_name(props.headers@)
                == spec_header_file_name(props.headers@.skip(i as int)),
        decreases props.headers@.len() - i,
    {
        let entry = &props.headers[i];
        proof {
            assert(props.headers@.skip(i as int)[0] == props.headers@[i as int]);
        }
        if bytes_eq(entry.key.as_slice(), key.as_slice()) {
            match &entry.value {
                HeaderValue::Str(s) => {
                    return Some(vstd::slice::slice_to_vec(s.as_slice()));
                },
                _ => {
                    return None;
                },
            }
        }
        proof {
            assert(props.headers@.skip(i as int).drop_first()
                =~= props.headers@.skip(i + 1));
        }
        i = i + 1;
    }
    proof {
        assert(props.headers@.skip(i as int).len() == 0);
    }
    None
}

/// Resolves the file name for one message: the `fileName` header
/// verbatim when it is a string, else a fresh random basename carrying
/// the preferred extension for the message's content type.
pub fn resolve_name(props: &Properties) -> (r: Vec<u8>)
    ensures
        spec_header_file_name(props.headers@) matches Some(n) ==> r@ == n,
        spec_header_file_name(props.headers@) is None ==> is_random_name(
            r@,
            preferred_extension(spec_content_type(props)),
        ),
{
    match header_file_name(props) {
        Some(name) => name,
        None => {
            let ext = match &props.content_type {
                Some(ct) => extension_for(ct.as_slice()),
                None => {
                    proof {
                        reveal_strlit("application/octet-stream");
                    }
                    let default_ct = lit_bytes("application/octet-stream");
                    extension_for(default_ct.as_slice())
                },
            };
            gen_rand_name(ext.as_slice())
        },
    }
}

/// With no `fileName` header and a content type the registry knows
/// with a non-empty extension list, a resolved name carries a dot and
/// the list's first entry — never a later one.
pub proof fn lemma_resolved_extension_is_first(
    p: &Properties,
    name: Seq<u8>,
    exts: Seq<Seq<u8>>,
)
    requires
        spec_header_file_name(p.headers@) is None,
        registry_exts(spec_content_type(p)) == Some(exts),
        exts.len() > 0,
        is_random_name(name, preferred_extension(spec_content_type(p))),
    ensures
        name.len() == RAND_LEN + 1 + exts[0].len(),
        name[RAND_LEN as int] == DOT,
        name.subrange(RAND_LEN + 1, name.len() as int) == exts[0],
{
}

} // verus!
