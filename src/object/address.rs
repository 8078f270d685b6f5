//! Addresses: the lowercase hex SHA-1 digest of a frame, and where an address is stored.
use vstd::prelude::*;
use crate::text::{join, join_one, lemma_ascii_text, lemma_join_push, lossy_text};

verus! {

/// The SHA-1 digest of `data`.
pub uninterp spec fn sha1_of(data: Seq<u8>) -> Seq<u8>;

/// Relies on `sha1::Sha1` through `Digest::digest`: the SHA-1 digest of `data`,
/// which is 20 bytes long (`OutputSize = U20`).
#[verifier::external_body]
fn sha1_digest(data: &[u8]) -> (r: Vec<u8>)
    ensures
        r@ == sha1_of(data@),
        r@.len() == 20,
{
    <sha1::Sha1 as sha1::Digest>::digest(data).to_vec()
}

/// The ASCII code of the lowercase hex digit `d`.
pub open spec fn hex_byte(d: int) -> u8 {
    if d < 10 {
        (48 + d) as u8
    } else {
        (87 + d) as u8
    }
}

/// The `i`-th half byte of `b`, high half first.
pub open spec fn nibble(b: Seq<u8>, i: int) -> int {
    if i % 2 == 0 {
        (b[i / 2] / 16) as int
    } else {
        (b[i / 2] % 16) as int
    }
}

/// `b` written as lowercase hex, two digits a byte.
pub open spec fn hex_text(b: Seq<u8>) -> Seq<char> {
    Seq::new((2 * b.len()) as nat, |i: int| hex_byte(nibble(b, i)) as char)
}

pub open spec fn is_hex_char(c: char) -> bool {
    ('0' <= c <= '9') || ('a' <= c <= 'f')
}

/// A well-formed address: forty lowercase hex digits.
pub open spec fn is_address(s: Seq<char>) -> bool {
    s.len() == 40 && forall|i: int| 0 <= i < s.len() ==> is_hex_char(#[trigger] s[i])
}

/// The address of a frame.
pub open spec fn digest_of(frame: Seq<u8>) -> Seq<char> {
    hex_text(sha1_of(frame))
}

/// Where the object with address `address` is stored under the metadata directory `lit_dir`.
pub open spec fn object_dir(lit_dir: Seq<char>, address: Seq<char>) -> Seq<char> {
    join(lit_dir, seq!["objects"@, address.subrange(0, 2)])
}

pub open spec fn object_path(lit_dir: Seq<char>, address: Seq<char>) -> Seq<char> {
    join(lit_dir, seq!["objects"@, address.subrange(0, 2), address.subrange(2, 40)])
}

fn hex_digit(d: u8) -> (r: u8)
    requires
        d < 16,
    ensures
        r == hex_byte(d as int),
{
    if d < 10 {
        48 + d
    } else {
        87 + d
    }
}

/// Writes `b` as lowercase hex.
pub fn hex(b: &[u8]) -> (r: String)
    requires
        b@.len() <= usize::MAX / 2,
    ensures
        r@ == hex_text(b@),
{
    let mut out: Vec<u8> = Vec::new();
    let mut i: usize = 0;
    while i < b.len()
        invariant
            i <= b@.len() <= usize::MAX / 2,
            out@.len() == 2 * i,
            forall|j: int| 0 <= j < 2 * i ==> out@[j] == hex_byte(nibble(b@, j)),
        decreases b@.len() - i,
    {
        out.push(hex_digit(b[i] / 16));
        out.push(hex_digit(b[i] % 16));
        proof {
            assert(nibble(b@, 2 * i as int) == b@[i as int] / 16);
            assert(nibble(b@, 2 * i + 1) == b@[i as int] % 16);
        }
        i += 1;
    }
    proof {
        let t = hex_text(b@);
        assert forall|j: int| 0 <= j < t.len() implies '\0' <= #[trigger] t[j] <= '\u{7f}' by {
            assert(0 <= nibble(b@, j) < 16);
        }
        assert forall|j: int| 0 <= j < t.len() implies out@[j] == #[trigger] t[j] as u8 by {
            assert(0 <= nibble(b@, j) < 16);
        }
        lemma_ascii_text(t, out@);
    }
    lossy_text(out.as_slice())
}

/// The hex of twenty bytes is a well-formed address.
pub proof fn lemma_hex_address(b: Seq<u8>)
    requires
        b.len() == 20,
    ensures
        is_address(hex_text(b)),
{
    let t = hex_text(b);
    assert forall|i: int| 0 <= i < t.len() implies is_hex_char(#[trigger] t[i]) by {
        assert(0 <= nibble(b, i) < 16);
    }
}

/// The address of the frame `frame`.
pub fn digest(frame: &[u8]) -> (r: String)
    ensures
        r@ == digest_of(frame@),
        is_address(r@),
{
    let d = sha1_digest(frame);
    proof {
        lemma_hex_address(d@);
    }
    hex(d.as_slice())
}

/// Whether `s` is a well-formed address.
pub fn is_address_text(s: &str) -> (r: bool)
    ensures
        r == is_address(s@),
{
    if s.unicode_len() != 40 {
        return false;
    }
    let mut i: usize = 0;
    while i < 40
        invariant
            s@.len() == 40,
            i <= 40,
            forall|j: int| 0 <= j < i ==> is_hex_char(#[trigger] s@[j]),
        decreases 40 - i,
    {
        let c = s.get_char(i);
        if !(('0' <= c && c <= '9') || ('a' <= c && c <= 'f')) {
            return false;
        }
        i += 1;
    }
    true
}

/// The directory and the file that hold the object at `address` under `lit_dir`.
pub fn object_location(lit_dir: &str, address: &str) -> (r: (String, String))
    requires
        is_address(address@),
    ensures
        r.0@ == object_dir(lit_dir@, address@),
        r.1@ == object_path(lit_dir@, address@),
{
    let head = address.substring_char(0, 2);
    let rest = address.substring_char(2, 40);
    let objects = join_one(lit_dir, "objects");
    let dir = join_one(objects.as_str(), head);
    let file = join_one(dir.as_str(), rest);
    proof {
        lemma_join_push(lit_dir@, seq!["objects"@], head@);
        assert(seq!["objects"@].push(head@) =~= seq!["objects"@, address@.subrange(0, 2)]);
        lemma_join_push(lit_dir@, seq!["objects"@, head@], rest@);
        assert(seq!["objects"@, head@].push(rest@) =~= seq![
            "objects"@,
            address@.subrange(0, 2),
            address@.subrange(2, 40),
        ]);
    }
    (dir, file)
}

} // verus!
