//! Output building: renders one delivered message into the exact byte
//! sequence to persist. Outside info mode the body passes through
//! unchanged; in info mode a textual metadata prefix comes first, in a
//! fixed order — exchange line, routing-key line, content-type line when
//! a content type is declared — closed by an unambiguous separator line
//! of eight dashes.
use vstd::prelude::*;
use crate::model::{ascii, push_ascii, Delivery, Properties, NEWLINE};

verus! {

/// The metadata prefix prepended in info mode: labelled lines for the
/// exchange, the routing key, and (when declared) the content type,
/// then the separator line.
pub open spec fn spec_info_prefix(d: &Delivery, p: &Properties) -> Seq<u8> {
    ascii("exchange: "@) + d.exchange@ + seq![NEWLINE] + ascii("routing_key: "@)
        + d.routing_key@ + seq![NEWLINE] + (match p.content_type {
        Some(ct) => ascii("content_type: "@) + ct@ + seq![NEWLINE],
        None => Seq::<u8>::empty(),
    }) + ascii("--------"@) + seq![NEWLINE]
}

/// The bytes written for one message: the body alone, or, in info mode,
/// the metadata prefix followed by the body.
pub open spec fn spec_build(info: bool, d: &Delivery, p: &Properties, body: Seq<u8>) -> Seq<u8> {
    if info {
        spec_info_prefix(d, p) + body
    } else {
        body
    }
}

/// Appends a copy of `bytes` to `out`.
fn push_copy(out: &mut Vec<u8>, bytes: &[u8])
    ensures
        final(out)@ == old(out)@ + bytes@,
{
    let mut tail = vstd::slice::slice_to_vec(bytes);
    out.append(&mut tail);
}

/// Renders one delivered message: a pure transform of its metadata and
/// body, with no failure mode. Rendering the same message again yields
/// byte-identical output (see [`lemma_render_deterministic`]).
pub fn build_output(info: bool, delivery: &Delivery, props: &Properties, body: Vec<u8>) -> (r:
    Vec<u8>)
    ensures
        r@ == spec_build(info, delivery, props, body@),
{
    if !info {
        return body;
    }
    proof {
        reveal_strlit("exchange: ");
        reveal_strlit("routing_key: ");
        reveal_strlit("content_type: ");
        reveal_strlit("--------");
    }
    let mut out: Vec<u8> = Vec::new();
    push_ascii(&mut out, "exchange: ");
    push_copy(&mut out, delivery.exchange.as_slice());
    out.push(NEWLINE);
    push_ascii(&mut out, "routing_key: ");
    push_copy(&mut out, delivery.routing_key.as_slice());
    out.push(NEWLINE);
    match &props.content_type {
        Some(ct) => {
            push_ascii(&mut out, "content_type: ");
            push_copy(&mut out, ct.as_slice());
            out.push(NEWLINE);
        },
        None => {},
    }
    push_ascii(&mut out, "--------");
    out.push(NEWLINE);
    proof {
        assert(out@ =~= spec_info_prefix(delivery, props));
    }
    let mut tail = body;
    out.append(&mut tail);
    out
}

/// Rendering is deterministic: two renderings of the same message —
/// same mode, delivery, properties and body — are byte-identical.
pub proof fn lemma_render_deterministic(
    r1: Seq<u8>,
    r2: Seq<u8>,
    info: bool,
    d: &Delivery,
    p: &Properties,
    body: Seq<u8>,
)
    requires
        r1 == spec_build(info, d, p, body),
        r2 == spec_build(info, d, p, body),
    ensures
        r1 == r2,
{
}

} // verus!
