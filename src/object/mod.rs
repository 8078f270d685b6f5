//! Objects: typed payloads, framed, addressed by digest and stored compressed.
use vstd::prelude::*;
use vstd::utf8::*;
use crate::text::utf8_lossy;

pub mod address;
pub mod blob;
pub mod codec;
pub mod operation;
pub mod zlib;

verus! {

/// An addressable unit of content: a kind and the bytes it holds.
pub trait Object {
    /// The kind, as text.
    spec fn kind(&self) -> Seq<char>;

    /// The bytes that the object holds.
    spec fn payload(&self) -> Seq<u8>;

    /// The payload read as text.
    fn to_string(&self) -> (r: String)
        ensures
            r@ == utf8_lossy(self.payload()),
            valid_utf8(self.payload()) ==> r@ == decode_utf8(self.payload()),
    ;

    /// An object holding `data`.
    fn deserialize(data: &[u8]) -> (r: Self) where Self: Sized
        ensures
            r.payload() == data@,
    ;

    /// The payload, as it goes into the frame.
    fn serialize(&self) -> (r: &[u8])
        ensures
            r@ == self.payload(),
    ;

    /// The kind, as it goes into the frame.
    fn fmt(&self) -> (r: &String)
        ensures
            r@ == self.kind(),
    ;
}

/// The frame of an object of kind `kind` holding `payload`.
pub open spec fn object_frame(kind: Seq<char>, payload: Seq<u8>) -> Seq<u8> {
    codec::frame_of(encode_utf8(kind), payload)
}

/// The address of an object of kind `kind` holding `payload`.
pub open spec fn address_of(kind: Seq<char>, payload: Seq<u8>) -> Seq<char> {
    address::digest_of(object_frame(kind, payload))
}

/// The bytes of the kind "blob" in a frame.
pub open spec fn blob_kind() -> Seq<u8> {
    seq![98u8, 108u8, 111u8, 98u8]
}

/// The kinds of object that the store knows. Each new kind is one more variant here.
pub enum Kind {
    Blob,
}

impl Kind {
    /// The kind that the frame's kind bytes `k` name, if the store knows it.
    pub fn of_bytes(k: &[u8]) -> (r: Option<Kind>)
        ensures
            r matches Some(Kind::Blob) <==> k@ == blob_kind(),
            r is None <==> k@ != blob_kind(),
    {
        if k.len() == 4 && k[0] == 98 && k[1] == 108 && k[2] == 111 && k[3] == 98 {
            assert(k@ =~= blob_kind());
            Some(Kind::Blob)
        } else {
            None
        }
    }
}

/// The text "blob" is the frame's kind bytes of a blob.
pub proof fn lemma_blob_kind()
    ensures
        encode_utf8("blob"@) == blob_kind(),
{
    reveal_strlit("blob");
    crate::text::lemma_ascii_text("blob"@, blob_kind());
    broadcast use encode_utf8_decode_utf8, decode_utf8_encode_utf8;
}

} // verus!
