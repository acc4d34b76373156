//! Sink planning: the per-message orchestration. For each delivered
//! message this decides the single write to perform — one frame on the
//! shared standard output stream, or one guarded file write inside the
//! destination directory — and guarantees that no message, whatever its
//! headers, can cause a write outside that directory. A guard rejection
//! is a per-message error: the caller reports it and the subscription
//! goes on.
use vstd::prelude::*;
use crate::guard::{is_safe_name, no_separator, spec_join, validate};
use crate::model::{Delivery, Destination, Properties, RejectedPath, BACKSLASH, NEWLINE, SLASH};
use crate::randname::{is_alnum_byte, is_random_name, RAND_LEN};
use crate::registry::preferred_extension;
use crate::render::{build_output, spec_build};
use crate::resolve::{resolve_name, spec_content_type, spec_header_file_name};

verus! {

/// The single write the sink must perform for one message.
#[derive(Debug)]
pub enum WritePlan {
    /// One frame for the shared standard output stream: the rendered
    /// output followed by a single newline. The caller must write and
    /// flush it under mutual exclusion, so concurrent frames never
    /// interleave.
    Stdout {
        /// The bytes of the frame.
        frame: Vec<u8>,
    },
    /// One file write: create or overwrite `path` and write `contents`
    /// to it in one call, using only this validated path.
    File {
        /// The validated join of the destination directory and a safe
        /// basename.
        path: Vec<u8>,
        /// The rendered output to persist.
        contents: Vec<u8>,
    },
}

/// Holds when a message is accepted for a directory destination: a
/// string `fileName` header must be a safe basename; with no such
/// header, the synthesized name is accepted exactly when the registry's
/// extension is separator-free.
pub open spec fn accepts(p: &Properties) -> bool {
    match spec_header_file_name(p.headers@) {
        Some(n) => is_safe_name(n),
        None => no_separator(preferred_extension(spec_content_type(p))),
    }
}

/// Holds when `path` is a path this message may be written to inside
/// `dir`: the join of `dir` with the header-supplied name, or with a
/// safe synthesized name carrying the resolved extension.
pub open spec fn planned_path(dir: Seq<u8>, p: &Properties, path: Seq<u8>) -> bool {
    match spec_header_file_name(p.headers@) {
        Some(n) => path == spec_join(dir, n),
        None => exists|n: Seq<u8>|
            is_random_name(n, preferred_extension(spec_content_type(p))) && is_safe_name(n)
                && path == spec_join(dir, n),
    }
}

/// What planning one message for a directory destination guarantees:
/// acceptance is exact; an accepted message yields one file write of
/// the rendered output at a path whose parent is the destination
/// directory itself; a refused message names the unsafe candidate.
pub open spec fn directory_plan_post(
    dir: Seq<u8>,
    info: bool,
    d: &Delivery,
    p: &Properties,
    body: Seq<u8>,
    r: Result<WritePlan, RejectedPath>,
) -> bool {
    &&& (r is Ok <==> accepts(p))
    &&& (r matches Ok(plan) ==> plan matches WritePlan::File { path, contents }
        && contents@ == spec_build(info, d, p, body) && planned_path(dir, p, path@))
    &&& (r matches Err(e) ==> !is_safe_name(e.name@) && (match spec_header_file_name(p.headers@) {
        Some(n) => e.name@ == n,
        None => is_random_name(e.name@, preferred_extension(spec_content_type(p))),
    }))
}

/// A synthesized name is safe exactly when its extension is
/// separator-free: the random characters and the dot can never contain
/// a separator, so only the extension could make the name escape.
pub proof fn lemma_random_name_safety(name: Seq<u8>, ext: Seq<u8>)
    requires
        is_random_name(name, ext),
    ensures
        is_safe_name(name) <==> no_separator(ext),
{
    if no_separator(ext) {
        assert forall|i: int| 0 <= i < name.len() implies name[i] != SLASH && name[i]
            != BACKSLASH by {
            if i < RAND_LEN {
                assert(name.subrange(0, RAND_LEN as int)[i] == name[i]);
                assert(is_alnum_byte(name[i]));
            } else if i > RAND_LEN {
                assert(name.subrange(RAND_LEN + 1, name.len() as int)[i - (RAND_LEN + 1)]
                    == name[i]);
                assert(ext[i - (RAND_LEN + 1)] == name[i]);
            }
        }
    } else {
        let j = choose|j: int|
            0 <= j < ext.len() && (ext[j] == SLASH || ext[j] == BACKSLASH);
        assert(name.subrange(RAND_LEN + 1, name.len() as int)[j] == name[RAND_LEN + 1 + j]);
        assert(name[RAND_LEN + 1 + j] == SLASH || name[RAND_LEN + 1 + j] == BACKSLASH);
    }
}

/// Plans the file write for one message bound for the directory `dir`:
/// renders the output, resolves the name, and has the guard validate
/// the joined path; the caller must write only through the returned
/// path.
pub fn plan_for_directory(
    dir: &[u8],
    info: bool,
    delivery: &Delivery,
    props: &Properties,
    body: Vec<u8>,
) -> (r: Result<WritePlan, RejectedPath>)
    ensures
        directory_plan_post(dir@, info, delivery, props, body@, r),
{
    let contents = build_output(info, delivery, props, body);
    let name = resolve_name(props);
    let ghost name_view = name@;
    proof {
        if spec_header_file_name(props.headers@) is None {
            lemma_random_name_safety(
                name_view,
                preferred_extension(spec_content_type(props)),
            );
        }
    }
    match validate(dir, name) {
        Ok(path) => {
            proof {
                if spec_header_file_name(props.headers@) is None {
                    assert(is_random_name(
                        name_view,
                        preferred_extension(spec_content_type(props)),
                    ) && is_safe_name(name_view) && path@ == spec_join(dir@, name_view));
                }
            }
            Ok(WritePlan::File { path, contents })
        },
        Err(e) => Err(e),
    }
}

/// Plans the single write for one delivered message: a stdout frame —
/// the rendered output plus a single trailing newline — or a guarded
/// file write inside the destination directory.
pub fn plan_message(
    dest: &Destination,
    info: bool,
    delivery: &Delivery,
    props: &Properties,
    body: Vec<u8>,
) -> (r: Result<WritePlan, RejectedPath>)
    ensures
        dest is Stdout ==> (r matches Ok(plan) && plan matches WritePlan::Stdout { frame }
            && frame@ == spec_build(info, delivery, props, body@) + seq![NEWLINE]),
        dest matches Destination::Directory(dir) ==> directory_plan_post(
            dir@,
            info,
            delivery,
            props,
            body@,
            r,
        ),
{
    match dest {
        Destination::Stdout => {
            let mut frame = build_output(info, delivery, props, body);
            let ghost rendered = frame@;
            frame.push(NEWLINE);
            proof {
                assert(frame@ =~= rendered + seq![NEWLINE]);
            }
            Ok(WritePlan::Stdout { frame })
        },
        Destination::Directory(dir) => plan_for_directory(
            dir.as_slice(),
            info,
            delivery,
            props,
            body,
        ),
    }
}

} // verus!
