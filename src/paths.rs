use vstd::prelude::*;

verus! {

/// The text that a byte string decodes to as UTF-8, or `None` when it is
/// not valid UTF-8.
pub uninterp spec fn utf8_text(b: Seq<u8>) -> Option<Seq<char>>;

/// Relies on `std::str::from_utf8`: it decodes the bytes when they are valid
/// UTF-8 and refuses them otherwise, depending on the bytes alone.
#[verifier::external_body]
fn decode_utf8(b: &[u8]) -> (r: Option<String>)
    ensures
        match r {
            Some(s) => utf8_text(b@) == Some(s@),
            None => utf8_text(b@) is None,
        },
{
    std::str::from_utf8(b).ok().map(|s| s.to_string())
}

/// The path a directory field of the native activity holds, given the bytes
/// of its C string (without the terminator), or `None` for a null field.
pub open spec fn path_spec(bytes: Option<Seq<u8>>) -> Option<Seq<char>> {
    match bytes {
        None => None,
        Some(b) => if b.len() == 0 { None } else { utf8_text(b) },
    }
}

/// The bytes of an optional C string.
pub open spec fn c_bytes_view(bytes: Option<&[u8]>) -> Option<Seq<u8>> {
    match bytes {
        Some(b) => Some(b@),
        None => None,
    }
}

/// The text of an optional string.
pub open spec fn text_view(s: Option<String>) -> Option<Seq<char>> {
    match s {
        Some(t) => Some(t@),
        None => None,
    }
}

/// Reads a directory path from the bytes of a native C string: nothing for
/// a null or empty string or for one that is not UTF-8, else its text.
pub fn path_from_c_bytes(bytes: Option<&[u8]>) -> (r: Option<String>)
    ensures
        text_view(r) == path_spec(c_bytes_view(bytes)),
{
    match bytes {
        None => None,
        Some(b) => {
            if b.len() == 0 {
                None
            } else {
                decode_utf8(b)
            }
        },
    }
}

} // verus!
