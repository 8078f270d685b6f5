use lit::commands::cat_file::CatFile;
use lit::commands::init::Init;
use lit::error::object::Object as ObjectError;
use lit::object::address::{digest, hex, is_address_text};
use lit::object::blob::Blob;
use lit::object::codec::{decode_frame, find_byte, frame, parse_decimal};
use lit::object::operation::{cat, encode, hash, object_file, parse_object, read};
use lit::object::{Kind, Object};
use lit::repo::path::Entry;
use lit::repo::Repo;
use std::collections::HashMap;
use std::io::{Read, Write};
use std::path::Path;

const SHA: &str = "9ca6e1d93dfc2343e4e404a6b742220b148649a0";

fn new_repo(path: &str) -> Repo {
    let init = Init { force: false, path: String::from(path) };
    let (repo, _layout) = Repo::create(&init, Entry::Dir, true).ok().unwrap();
    repo
}

fn zlib(data: &[u8]) -> Vec<u8> {
    let mut e = flate2::write::ZlibEncoder::new(Vec::new(), flate2::Compression::default());
    e.write_all(data).unwrap();
    e.finish().unwrap()
}

/// Writes `object` into `files` as the store does: only where its file is not there yet.
fn store(files: &mut HashMap<String, Vec<u8>>, writes: &mut usize, object: &Blob, repo: &Repo) -> String {
    let (address, w) = lit::object::operation::write(object, Some(repo));
    let w = w.unwrap();
    let exists = files.contains_key(&w.file);
    if let Some(bytes) = w.contents(exists) {
        *writes += 1;
        files.insert(w.file.clone(), bytes);
    }
    address
}

#[test]
pub fn test_read_blob() {
    let stored = zlib(&frame(b"blob", &vec![b'a'; 1505]));
    let raw = {
        let mut vec = Vec::new();
        flate2::read::ZlibDecoder::new(stored.as_slice()).read_to_end(&mut vec).unwrap();
        vec
    };

    let x = find_byte(&raw, 0x20u8, 0);
    let fmt = std::str::from_utf8(&raw[0..x]).unwrap();

    let y = find_byte(&raw, 0x00u8, x) - x;
    let size = parse_decimal(&raw, x + 1, x + y).unwrap();

    assert_eq!(x, 4);
    assert_eq!(y, 5);
    assert_eq!(fmt, "blob");
    assert_eq!(size, 1505);
}

#[test]
pub fn test_write_blob() {
    let repo = new_repo(".");

    let object = Blob::new("Ok, this is a blob object".to_string());
    let (sha1, w) = lit::object::operation::write(&object, Some(&repo));

    assert_eq!("9ca6e1d93dfc2343e4e404a6b742220b148649a0", sha1.as_str());
    let w = w.unwrap();
    assert!(Path::new(&w.file).ends_with(".lit/objects/9c/a6e1d93dfc2343e4e404a6b742220b148649a0"));
}

#[test]
pub fn test_cat_file() {
    let repo = new_repo(".");
    let mut files = HashMap::new();
    let mut writes = 0;

    let object = Blob::new("Ok, this is a blob object".to_string());
    let sha1 = store(&mut files, &mut writes, &object, &repo);

    let args = CatFile { typ: "blob".to_string(), object: sha1 };
    let file = args.cat(&repo).unwrap();
    let content = cat(&args, files.get(&file).map(|v| v.as_slice())).ok().unwrap();

    assert_eq!("Ok, this is a blob object".to_string(), content);
}

#[test]
fn frame_is_kind_space_length_nul_payload() {
    assert_eq!(b"blob 5\0hello".to_vec(), frame(b"blob", b"hello"));
    assert_eq!(b"blob 0\0".to_vec(), frame(b"blob", b""));
    let payload = vec![7u8; 1234];
    let f = frame(b"blob", &payload);
    assert_eq!(b"blob 1234\0".to_vec(), f[..10].to_vec());
}

#[test]
fn decoding_a_frame_gives_back_kind_and_payload() {
    for payload in [&b""[..], b"x", b"hello world", b"with \0 nul and space"] {
        let f = frame(b"blob", payload);
        let (k, p) = decode_frame(&f, SHA).ok().unwrap();
        assert_eq!(b"blob".to_vec(), k);
        assert_eq!(payload.to_vec(), p);
        let blob = parse_object(&f, SHA).ok().unwrap();
        assert_eq!(payload, blob.serialize());
        assert_eq!("blob", blob.fmt());
    }
}

#[test]
fn digest_of_a_one_byte_blob_is_fixed() {
    let f = frame(b"blob", b"x");
    assert_eq!("c1b0730e0133447badcfd47fd144e254807b06e1", digest(&f));
    assert_eq!(digest(&f), digest(&frame(b"blob", b"x")));
    assert_ne!(digest(&f), digest(&frame(b"blob", b"y")));
}

#[test]
fn hex_writes_two_lowercase_digits_a_byte() {
    assert_eq!("00ff1a", hex(&[0x00, 0xff, 0x1a]));
    assert_eq!("", hex(&[]));
}

#[test]
fn addresses_are_forty_lowercase_hex_digits() {
    assert!(is_address_text(SHA));
    assert!(!is_address_text("9ca6"));
    assert!(!is_address_text("9CA6E1D93DFC2343E4E404A6B742220B148649A0"));
    assert!(!is_address_text("9ca6e1d93dfc2343e4e404a6b742220b148649ag"));
    let repo = new_repo("/tmp/r");
    assert_eq!(None, object_file(&repo, "9ca6"));
    assert_eq!(
        Some("/tmp/r/.lit/objects/9c/a6e1d93dfc2343e4e404a6b742220b148649a0".to_string()),
        object_file(&repo, SHA)
    );
}

#[test]
fn truncated_or_padded_frames_are_malformed() {
    match parse_object(b"blob 5\0hell", SHA) {
        Err(ObjectError::Malformed(a, n)) => {
            assert_eq!(SHA, a);
            assert_eq!(5, n);
        },
        _ => panic!("a truncated frame is malformed"),
    }
    match parse_object(b"blob 5\0hello!", SHA) {
        Err(ObjectError::Malformed(a, n)) => {
            assert_eq!(SHA, a);
            assert_eq!(5, n);
        },
        _ => panic!("a padded frame is malformed"),
    }
    match parse_object(b"tree 3\0ab", SHA) {
        Err(ObjectError::Malformed(_, n)) => assert_eq!(3, n),
        _ => panic!("a resized frame of any kind is malformed"),
    }
    match read(SHA, Some(&zlib(b"blob 25\0Ok, this is a blob"))) {
        Err(ObjectError::Malformed(_, n)) => assert_eq!(25, n),
        _ => panic!("a truncated stored frame is malformed"),
    }
}

#[test]
fn unknown_kinds_are_refused() {
    match parse_object(b"tr\xffe 1\0x", SHA) {
        Err(ObjectError::UnknownType(t, _)) => assert_eq!("tr\u{fffd}e", t),
        _ => panic!("the kind is not known"),
    }
    match parse_object(b"tree 0\0", SHA) {
        Err(ObjectError::UnknownType(t, a)) => {
            assert_eq!("tree", t);
            assert_eq!(SHA, a);
        },
        _ => panic!("tree is not a known kind"),
    }
    assert!(matches!(Kind::of_bytes(b"blob"), Some(Kind::Blob)));
    assert!(Kind::of_bytes(b"blobs").is_none());
    assert!(Kind::of_bytes(b"").is_none());
}

#[test]
fn unreadable_headers_are_refused() {
    for raw in [&b"blob5\0hello"[..], b"blob 5hello", b"blob x\0hello", b"blob \0", b"", b"blob 99999999999999999999999\0"] {
        match parse_object(raw, SHA) {
            Err(ObjectError::BadHeader(a)) => assert_eq!(SHA, a),
            _ => panic!("the header cannot be read"),
        }
    }
}

#[test]
fn parse_decimal_reads_digits_only() {
    assert_eq!(Some(1505), parse_decimal(b"x1505y", 1, 5));
    assert_eq!(Some(7), parse_decimal(b"007", 0, 3));
    assert_eq!(None, parse_decimal(b"12a", 0, 3));
    assert_eq!(None, parse_decimal(b"12", 1, 1));
    assert_eq!(None, parse_decimal(b"+5", 0, 2));
}

#[test]
fn reading_a_missing_object_is_absent() {
    assert!(matches!(read(SHA, None), Ok(None)));
    let args = CatFile { typ: "blob".to_string(), object: SHA.to_string() };
    match cat(&args, None) {
        Err(ObjectError::NotFound(name)) => assert_eq!(SHA, name),
        _ => panic!("cat fails on a missing object"),
    }
}

#[test]
fn reading_bytes_that_are_not_zlib_fails() {
    match read(SHA, Some(b"not a zlib stream")) {
        Err(ObjectError::BadCompression(a)) => assert_eq!(SHA, a),
        _ => panic!("the bytes are not compressed"),
    }
}

#[test]
fn stored_bytes_are_the_compressed_frame() {
    let repo = new_repo("/tmp/r");
    let object = Blob::new("Ok, this is a blob object".to_string());
    let (_, w) = lit::object::operation::write(&object, Some(&repo));
    let w = w.unwrap();
    let bytes = w.contents(false).unwrap();
    assert_eq!(zlib(b"blob 25\0Ok, this is a blob object"), bytes);
    assert_ne!(w.frame, bytes);
}

#[test]
fn writing_twice_gives_one_address_and_one_file() {
    let repo = new_repo("/tmp/r");
    let mut files = HashMap::new();
    let mut writes = 0;
    let object = Blob::new("Ok, this is a blob object".to_string());
    let first = store(&mut files, &mut writes, &object, &repo);
    let second = store(&mut files, &mut writes, &object, &repo);
    assert_eq!(first, second);
    assert_eq!(1, writes);
    assert_eq!(1, files.len());
    let (_, w) = lit::object::operation::write(&object, Some(&repo));
    assert!(w.unwrap().contents(true).is_none());
}

#[test]
fn writing_without_a_repository_only_hashes() {
    let object = Blob::new("Ok, this is a blob object".to_string());
    let (address, w) = lit::object::operation::write(&object, None);
    assert_eq!(SHA, address);
    assert!(w.is_none());
    let (address, f) = encode(&object);
    assert_eq!(SHA, address);
    assert_eq!(b"blob 25\0Ok, this is a blob object".to_vec(), f);
}

#[test]
fn hash_makes_blobs_only() {
    let (address, w) = hash("notes.txt", b"Ok, this is a blob object", "blob", None).ok().unwrap();
    assert_eq!(SHA, address);
    assert!(w.is_none());
    match hash("notes.txt", b"x", "tree", None) {
        Err(ObjectError::UnknownType(t, f)) => {
            assert_eq!("tree", t);
            assert_eq!("notes.txt", f);
        },
        _ => panic!("tree is not a known kind"),
    }
}

#[test]
fn blob_text_replaces_invalid_utf8() {
    let blob = Blob::deserialize(&[b'o', b'k', 0xff]);
    assert_eq!("ok\u{fffd}", blob.to_string());
    assert_eq!("Ok", Blob::new("Ok".to_string()).to_string());
}

#[test]
fn end_to_end_create_write_read() {
    let init = Init { force: false, path: "/tmp/r".to_string() };
    let (repo, layout) = Repo::create(&init, Entry::Dir, true).ok().unwrap();
    let (config_path, config_text) = &layout.files[2];
    assert_eq!("/tmp/r/.lit/config", config_path);
    let opened = Repo::new("/tmp/r", false, Entry::Dir, Some(config_text.clone())).ok().unwrap();
    assert_eq!(Some("0".to_string()), opened.config_value("core", "repositoryformatversion"));

    let mut files = HashMap::new();
    let mut writes = 0;
    let object = Blob::new("Ok, this is a blob object".to_string());
    let address = store(&mut files, &mut writes, &object, &repo);
    assert_eq!(SHA, address);
    assert!(files.contains_key("/tmp/r/.lit/objects/9c/a6e1d93dfc2343e4e404a6b742220b148649a0"));

    let file = object_file(&repo, &address).unwrap();
    let blob = read(&address, files.get(&file).map(|v| v.as_slice())).ok().unwrap().unwrap();
    assert_eq!(b"Ok, this is a blob object", blob.serialize());
}
