//! Failures met while reading an object back.
use vstd::prelude::*;
use crate::error::{quoted, write_quoted, Log};
use crate::object::codec::{decimal, push_decimal};
use crate::text::{lemma_ascii_text, lossy_text};

verus! {

/// Why a stored object could not be read; each holds the object's address.
pub enum Object {
    /// The declared length differs from the number of payload bytes; holds the declared length.
    Malformed(String, usize),
    /// The frame names a kind that the store does not know; holds the kind, then the address.
    UnknownType(String, String),
    /// The frame has no space, no NUL after it, or no decimal length between them.
    BadHeader(String),
    /// The stored bytes are not a zlib stream.
    BadCompression(String),
    /// No object is stored under the name.
    NotFound(String),
}

/// The decimal digits of `n`, as text.
pub open spec fn decimal_text(n: nat) -> Seq<char> {
    decimal(n).map_values(|b: u8| b as char)
}

/// Writes `n` in decimal.
pub fn decimal_string(n: usize) -> (r: String)
    ensures
        r@ == decimal_text(n as nat),
{
    let mut digits: Vec<u8> = Vec::new();
    push_decimal(n, &mut digits);
    proof {
        let t = decimal_text(n as nat);
        assert(digits@ =~= decimal(n as nat));
        crate::object::codec::lemma_decimal(n as nat);
        assert forall|i: int| 0 <= i < t.len() implies '\0' <= #[trigger] t[i] <= '\u{7f}' by {
            assert(crate::object::codec::is_digit(decimal(n as nat)[i]));
        }
        assert forall|i: int| 0 <= i < t.len() implies digits@[i] == #[trigger] t[i] as u8 by {
            assert(crate::object::codec::is_digit(decimal(n as nat)[i]));
        }
        lemma_ascii_text(t, digits@);
    }
    lossy_text(digits.as_slice())
}

impl Log for Object {
    open spec fn message(&self) -> Seq<char> {
        match self {
            Object::Malformed(sha, len) => quoted(
                "Malformed object "@,
                sha@,
                quoted(": bad length "@, decimal_text(*len as nat), ""@),
            ),
            Object::UnknownType(typ, sha) => quoted(
                "Unknown type "@,
                typ@,
                quoted(" for object "@, sha@, ""@),
            ),
            Object::BadHeader(sha) => quoted("Unreadable header in object "@, sha@, ""@),
            Object::BadCompression(sha) => quoted("Bad compressed data for object "@, sha@, ""@),
            Object::NotFound(name) => quoted("No object "@, name@, ""@),
        }
    }

    fn fmt(&self) -> (r: String) {
        match self {
            Object::Malformed(sha, len) => {
                let tail = write_quoted(": bad length ", decimal_string(*len).as_str(), "");
                write_quoted("Malformed object ", sha.as_str(), tail.as_str())
            },
            Object::UnknownType(typ, sha) => {
                let tail = write_quoted(" for object ", sha.as_str(), "");
                write_quoted("Unknown type ", typ.as_str(), tail.as_str())
            },
            Object::BadHeader(sha) => write_quoted("Unreadable header in object ", sha.as_str(), ""),
            Object::NotFound(name) => write_quoted("No object ", name.as_str(), ""),
            Object::BadCompression(sha) => write_quoted(
                "Bad compressed data for object ",
                sha.as_str(),
                "",
            ),
        }
    }
}

} // verus!
