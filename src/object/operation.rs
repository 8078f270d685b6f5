//! The store's operations: writing an object under its address and reading it back.
use vstd::prelude::*;
use vstd::utf8::*;
use crate::commands::cat_file::CatFile;
use crate::error;
use crate::object::address::{
    digest,
    is_address,
    is_address_text,
    object_dir,
    object_location,
    object_path,
};
use crate::object::blob::Blob;
use crate::object::codec::{
    decode_frame,
    declared_length,
    SPACE,
    frame,
    framed,
    header_ok,
    kind_field,
    lemma_frame_round_trip,
    lemma_resized_frame,
    length_matches,
    payload_field,
};
use crate::object::zlib::{deflate, inflate, inflated, zlib_of};
use crate::object::{address_of, blob_kind, lemma_blob_kind, object_frame, Kind, Object};
use crate::repo::Repo;
use crate::text::{lossy_text, utf8_lossy};

verus! {

/// An object on its way into the store: its address, the directory and the file that
/// hold it, and its frame.
pub struct ObjectWrite {
    pub address: String,
    pub dir: String,
    pub file: String,
    pub frame: Vec<u8>,
}

impl ObjectWrite {
    /// What to write to the object's file, given whether a file `exists` there: nothing
    /// where one does, since the same address stands for the same frame; the compressed
    /// frame otherwise.
    pub fn contents(&self, exists: bool) -> (r: Option<Vec<u8>>)
        ensures
            exists ==> r is None,
            !exists ==> (r matches Some(c) && c@ == zlib_of(self.frame@) && inflated(c@) == Some(
                self.frame@,
            )),
    {
        if exists {
            None
        } else {
            deflate(self.frame.as_slice())
        }
    }
}

/// The address and the frame of `object`.
pub fn encode<O: Object>(object: &O) -> (r: (String, Vec<u8>))
    ensures
        r.0@ == address_of(object.kind(), object.payload()),
        r.1@ == object_frame(object.kind(), object.payload()),
        is_address(r.0@),
{
    let f = frame(object.fmt().as_str().as_bytes(), object.serialize());
    let a = digest(f.as_slice());
    (a, f)
}

/// Frames `object` and computes its address; with a repository, also says where it
/// is to be stored.
pub fn write<O: Object>(object: &O, repo: Option<&Repo>) -> (r: (String, Option<ObjectWrite>))
    ensures
        r.0@ == address_of(object.kind(), object.payload()),
        is_address(r.0@),
        repo is None ==> r.1 is None,
        repo matches Some(rp) ==> (r.1 matches Some(w) && w.address@ == r.0@ && w.dir@
            == object_dir(rp.lit_dir@, r.0@) && w.file@ == object_path(rp.lit_dir@, r.0@)
            && w.frame@ == object_frame(object.kind(), object.payload())),
{
    let (address, f) = encode(object);
    match repo {
        None => (address, None),
        Some(rp) => {
            let (dir, file) = object_location(rp.lit_dir.as_str(), address.as_str());
            let w = ObjectWrite { address: address.clone(), dir, file, frame: f };
            (address, Some(w))
        },
    }
}

/// The file that would hold the object named `sha` in `repo`; none where `sha` is not a
/// well-formed address, since nothing is stored under such a name.
pub fn object_file(repo: &Repo, sha: &str) -> (r: Option<String>)
    ensures
        r is Some <==> is_address(sha@),
        r matches Some(p) ==> p@ == object_path(repo.lit_dir@, sha@),
{
    if is_address_text(sha) {
        let (_dir, file) = object_location(repo.lit_dir.as_str(), sha);
        Some(file)
    } else {
        None
    }
}

/// What decoding `raw`, the frame of the object named `sha`, gives.
pub open spec fn decoded(raw: Seq<u8>, sha: Seq<char>, r: Result<Blob, error::object::Object>) -> bool {
    match r {
        Ok(b) => header_ok(raw) && length_matches(raw) && kind_field(raw) == blob_kind()
            && b.payload() == payload_field(raw),
        Err(error::object::Object::Malformed(a, n)) => header_ok(raw) && !length_matches(raw)
            && a@ == sha && n as nat == declared_length(raw),
        Err(error::object::Object::UnknownType(t, a)) => header_ok(raw) && length_matches(raw)
            && kind_field(raw) != blob_kind() && t@ == utf8_lossy(kind_field(raw)) && (valid_utf8(
            kind_field(raw),
        ) ==> t@ == decode_utf8(kind_field(raw))) && a@ == sha,
        Err(error::object::Object::BadHeader(a)) => !header_ok(raw) && a@ == sha,
        Err(error::object::Object::BadCompression(_)) => false,
        Err(error::object::Object::NotFound(_)) => false,
    }
}

/// Decodes `raw`, the frame of the object named `sha`: checks the declared length, then
/// dispatches on the kind.
pub fn parse_object(raw: &[u8], sha: &str) -> (r: Result<Blob, error::object::Object>)
    ensures
        decoded(raw@, sha@, r),
{
    match decode_frame(raw, sha) {
        Ok((k, p)) => match Kind::of_bytes(k.as_slice()) {
            Some(Kind::Blob) => Ok(Blob::of_bytes(p)),
            None => Err(error::object::Object::UnknownType(lossy_text(k.as_slice()), sha.to_owned())),
        },
        Err(e) => Err(e),
    }
}

/// Reads the object named `sha` back from `stored`, the content of its file where
/// there is one: absent where there is none, else decompressed and decoded.
pub fn read(sha: &str, stored: Option<&[u8]>) -> (r: Result<Option<Blob>, error::object::Object>)
    ensures
        stored is None ==> (r matches Ok(None)),
        stored matches Some(s) ==> (inflated(s@) is None ==> (r matches Err(
            error::object::Object::BadCompression(a),
        ) && a@ == sha@)),
        stored matches Some(s) ==> (inflated(s@) matches Some(raw) ==> ({
            match r {
                Ok(Some(b)) => decoded(raw, sha@, Ok(b)),
                Ok(None) => false,
                Err(e) => decoded(raw, sha@, Err(e)),
            }
        })),
{
    match stored {
        None => Ok(None),
        Some(s) => match inflate(s) {
            None => Err(error::object::Object::BadCompression(sha.to_owned())),
            Some(raw) => match parse_object(raw.as_slice(), sha) {
                Ok(b) => Ok(Some(b)),
                Err(e) => Err(e),
            },
        },
    }
}

/// The content, as text, of the object that `args` names, read back from `stored` as
/// `read` does; an object that is not there fails with `NotFound`.
pub fn cat(args: &CatFile, stored: Option<&[u8]>) -> (r: Result<String, error::object::Object>)
    ensures
        stored is None ==> (r matches Err(error::object::Object::NotFound(a)) && a@
            == args.object@),
        stored matches Some(s) ==> (inflated(s@) is None ==> (r matches Err(
            error::object::Object::BadCompression(a),
        ) && a@ == args.object@)),
        stored matches Some(s) ==> (inflated(s@) matches Some(raw) ==> ({
            match r {
                Ok(t) => header_ok(raw) && length_matches(raw) && kind_field(raw)
                    == blob_kind() && t@ == utf8_lossy(payload_field(raw)) && (valid_utf8(
                    payload_field(raw),
                ) ==> t@ == decode_utf8(payload_field(raw))),
                Err(e) => decoded(raw, args.object@, Err(e)),
            }
        })),
{
    match read(args.object.as_str(), stored) {
        Ok(Some(b)) => Ok(b.to_string()),
        Ok(None) => Err(error::object::Object::NotFound(args.object.clone())),
        Err(e) => Err(e),
    }
}

/// Makes an object of kind `fmt` out of `data`, the content of the file `file`, and
/// writes it as `write` does; a kind that the store does not know fails.
pub fn hash(file: &str, data: &[u8], fmt: &str, repo: Option<&Repo>) -> (r: Result<
    (String, Option<ObjectWrite>),
    error::object::Object,
>)
    ensures
        r is Ok <==> fmt@ == "blob"@,
        r matches Ok((a, w)) ==> a@ == address_of("blob"@, data@) && (repo is None ==> w is None)
            && (repo matches Some(rp) ==> (w matches Some(x) && x.address@ == a@ && x.dir@
            == object_dir(rp.lit_dir@, a@) && x.file@ == object_path(rp.lit_dir@, a@) && x.frame@
            == object_frame("blob"@, data@))),
        r matches Err(e) ==> (e matches error::object::Object::UnknownType(t, f) && t@ == fmt@
            && f@ == file@),
{
    proof {
        lemma_blob_kind();
        encode_utf8_decode_utf8(fmt@);
        encode_utf8_decode_utf8("blob"@);
    }
    match Kind::of_bytes(fmt.as_bytes()) {
        Some(Kind::Blob) => {
            let object = Blob::deserialize(data);
            Ok(write(&object, repo))
        },
        None => Err(error::object::Object::UnknownType(fmt.to_owned(), file.to_owned())),
    }
}

/// The frame of a blob decodes back to a blob holding the same payload.
pub proof fn lemma_blob_round_trip(payload: Seq<u8>, sha: Seq<char>)
    requires
        payload.len() <= usize::MAX,
    ensures
        header_ok(object_frame("blob"@, payload)),
        length_matches(object_frame("blob"@, payload)),
        kind_field(object_frame("blob"@, payload)) == blob_kind(),
        payload_field(object_frame("blob"@, payload)) == payload,
        forall|r: Result<Blob, error::object::Object>|
            decoded(object_frame("blob"@, payload), sha, r) ==> (r matches Ok(b) && b.payload()
                == payload),
{
    lemma_blob_kind();
    lemma_frame_round_trip(blob_kind(), payload);
}

/// A stored frame whose payload was cut short or padded, so that its length is no
/// longer the declared one, decodes to nothing but `Malformed`, with the object's name
/// and the declared length, whatever its kind (a kind being the bytes before the first
/// space, it holds none).
pub proof fn lemma_resized_frame_malformed(
    kind: Seq<u8>,
    payload: Seq<u8>,
    body: Seq<u8>,
    sha: Seq<char>,
)
    requires
        forall|i: int| 0 <= i < kind.len() ==> kind[i] != SPACE,
        payload.len() <= usize::MAX,
        body.len() != payload.len(),
    ensures
        forall|r: Result<Blob, error::object::Object>|
            decoded(framed(kind, payload.len(), body), sha, r) ==> (r matches Err(
                error::object::Object::Malformed(a, n),
            ) && a@ == sha && n == payload.len()),
{
    lemma_resized_frame(kind, payload, body);
}

/// The object files of a store, by path, after an object of kind `kind` holding
/// `payload` has been written under the metadata directory `lit_dir`: unchanged where
/// its file is already there, else with its compressed frame added.
pub open spec fn after_write(
    files: Map<Seq<char>, Seq<u8>>,
    lit_dir: Seq<char>,
    kind: Seq<char>,
    payload: Seq<u8>,
) -> Map<Seq<char>, Seq<u8>> {
    let path = object_path(lit_dir, address_of(kind, payload));
    if files.contains_key(path) {
        files
    } else {
        files.insert(path, zlib_of(object_frame(kind, payload)))
    }
}

/// Writing an object twice gives the same address both times; the second write finds
/// the file that the first one left and changes nothing.
pub proof fn lemma_write_idempotent(
    files: Map<Seq<char>, Seq<u8>>,
    lit_dir: Seq<char>,
    kind: Seq<char>,
    payload: Seq<u8>,
)
    ensures
        after_write(files, lit_dir, kind, payload).contains_key(
            object_path(lit_dir, address_of(kind, payload)),
        ),
        after_write(after_write(files, lit_dir, kind, payload), lit_dir, kind, payload)
            == after_write(files, lit_dir, kind, payload),
{
}

} // verus!
