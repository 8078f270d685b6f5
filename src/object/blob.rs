//! Blobs: user data, stored byte for byte.
use vstd::prelude::*;
use vstd::utf8::*;
use super::Object;
use crate::text::lossy_text;

verus! {

/// The content of a file put in the store.
pub struct Blob {
    fmt: String,
    data: Vec<u8>,
}

impl Blob {
    #[verifier::type_invariant]
    spec fn inv(&self) -> bool {
        self.fmt@ == "blob"@
    }

    /// A blob holding the bytes of `data`.
    pub fn new(data: String) -> (r: Self)
        ensures
            r.payload() == encode_utf8(data@),
            valid_utf8(r.payload()),
            decode_utf8(r.payload()) == data@,
    {
        proof {
            encode_utf8_valid_utf8(data@);
            encode_utf8_decode_utf8(data@);
        }
        Self::of_bytes(data.as_str().as_bytes_vec())
    }

    /// A blob holding `data`.
    pub fn of_bytes(data: Vec<u8>) -> (r: Self)
        ensures
            r.payload() == data@,
    {
        Blob { fmt: String::from_str("blob"), data }
    }
}

impl Object for Blob {
    open spec fn kind(&self) -> Seq<char> {
        "blob"@
    }

    closed spec fn payload(&self) -> Seq<u8> {
        self.data@
    }

    fn to_string(&self) -> (r: String) {
        lossy_text(self.data.as_slice())
    }

    fn deserialize(data: &[u8]) -> (r: Self) {
        let mut v: Vec<u8> = Vec::new();
        let mut i: usize = 0;
        while i < data.len()
            invariant
                i <= data@.len(),
                v@ == data@.subrange(0, i as int),
            decreases data@.len() - i,
        {
            v.push(data[i]);
            i += 1;
            assert(v@ =~= data@.subrange(0, i as int));
        }
        assert(v@ =~= data@);
        Self::of_bytes(v)
    }

    fn serialize(&self) -> (r: &[u8]) {
        self.data.as_slice()
    }

    fn fmt(&self) -> (r: &String) {
        proof {
            use_type_invariant(self);
        }
        &self.fmt
    }
}

} // verus!
