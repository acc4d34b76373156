//! Data model of the sink core. Textual values (exchange names, routing
//! keys, content types, header keys, file names, directory paths) are
//! carried as plain byte strings; the caller converts to and from `String`
//! at the boundary, so the contracts speak of `Seq<u8>` throughout.
use vstd::prelude::*;

verus! {

/// Byte value of `.`.
pub const DOT: u8 = 46;

/// Byte value of `/`, the path separator.
pub const SLASH: u8 = 47;

/// Byte value of `\`, treated as a separator as well so that a candidate
/// name is a plain basename on every platform.
pub const BACKSLASH: u8 = 92;

/// Byte value of a line feed.
pub const NEWLINE: u8 = 10;

/// The byte encoding of an ASCII string: each character as its code.
pub open spec fn ascii(s: Seq<char>) -> Seq<u8> {
    Seq::new(s.len(), |i: int| s[i] as u8)
}

/// Copies the bytes of an ASCII string slice into a fresh vector.
pub fn lit_bytes(s: &str) -> (r: Vec<u8>)
    requires
        s.is_ascii(),
    ensures
        r@ == ascii(s@),
{
    let b = s.as_bytes();
    proof {
        vstd::string::is_ascii_spec_bytes(s);
        assert(b@ =~= ascii(s@));
    }
    vstd::slice::slice_to_vec(b)
}

/// Appends the bytes of an ASCII string slice to `out`.
pub fn push_ascii(out: &mut Vec<u8>, s: &str)
    requires
        s.is_ascii(),
    ensures
        final(out)@ == old(out)@ + ascii(s@),
{
    let mut tail = lit_bytes(s);
    out.append(&mut tail);
}

/// Compares two byte strings for equality.
pub fn bytes_eq(a: &[u8], b: &[u8]) -> (r: bool)
    ensures
        r == (a@ == b@),
{
    if a.len() != b.len() {
        proof {
            assert(a@ != b@) by {
                assert(a@.len() != b@.len());
            }
        }
        return false;
    }
    let mut i: usize = 0;
    while i < a.len()
        invariant
            0 <= i <= a@.len(),
            a@.len() == b@.len(),
            forall|j: int| 0 <= j < i ==> a@[j] == b@[j],
        decreases a@.len() - i,
    {
        if a[i] != b[i] {
            return false;
        }
        i = i + 1;
    }
    proof {
        assert(a@ =~= b@);
    }
    true
}

/// One value of the broker's header table. Only the string variant can
/// supply a file name; every other variant is ignored by name resolution.
#[derive(Debug)]
pub enum HeaderValue {
    /// A textual header value, as bytes.
    Str(Vec<u8>),
    /// An integral header value.
    Int(i64),
    /// A boolean header value.
    Bool(bool),
    /// Any other broker-defined value (nested table, timestamp, ...).
    Other,
}

/// One `key = value` pair of the header table.
#[derive(Debug)]
pub struct HeaderEntry {
    /// The header key, as bytes.
    pub key: Vec<u8>,
    /// The header value.
    pub value: HeaderValue,
}

/// Message metadata, read-only to this core: an optional content type and
/// the header table (absent and empty tables behave identically).
#[derive(Debug)]
pub struct Properties {
    /// The declared content type of the body, if any.
    pub content_type: Option<Vec<u8>>,
    /// The header table, in broker order; a lookup takes the first match.
    pub headers: Vec<HeaderEntry>,
}

/// Routing metadata of one inbound message, owned by the broker client.
#[derive(Debug)]
pub struct Delivery {
    /// The exchange the message arrived on.
    pub exchange: Vec<u8>,
    /// The routing key it was published under.
    pub routing_key: Vec<u8>,
    /// The broker's tag for this delivery.
    pub delivery_tag: u64,
}

/// The configured write target, fixed for the lifetime of a subscription.
#[derive(Debug)]
pub enum Destination {
    /// Write every rendered message to the shared standard output stream.
    Stdout,
    /// Write each rendered message to a file directly inside this
    /// directory, given as path bytes.
    Directory(Vec<u8>),
}

impl Destination {
    /// Chooses the destination from the configured output argument: the
    /// sentinel `-` selects standard output, anything else names a
    /// directory.
    pub fn parse(arg: Vec<u8>) -> (r: Destination)
        ensures
            arg@ == ascii("-"@) ==> r is Stdout,
            arg@ != ascii("-"@) ==> (r matches Destination::Directory(d) && d@ == arg@),
    {
        proof {
            reveal_strlit("-");
        }
        if arg.len() == 1 && arg[0] == 45u8 {
            proof {
                assert(arg@ =~= ascii("-"@));
            }
            Destination::Stdout
        } else {
            proof {
                assert(arg@ != ascii("-"@)) by {
                    if arg@.len() == 1 {
                        assert(arg@[0] != 45u8);
                        assert(ascii("-"@)[0] == 45u8);
                    } else {
                        assert(arg@.len() != ascii("-"@).len());
                    }
                }
            }
            Destination::Directory(arg)
        }
    }
}

/// Why a candidate file name was refused: it would name a path outside
/// the destination directory.
#[derive(Debug)]
pub struct RejectedPath {
    /// The candidate name that was refused.
    pub name: Vec<u8>,
}

} // verus!
