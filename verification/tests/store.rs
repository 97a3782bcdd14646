use fretch::blob::Blob;
use fretch::object::{Accumulator, Object};
use fretch::Engine;
use std::io::Read;

fn inflate(data: &[u8]) -> Vec<u8> {
    let mut decoder = libflate::zlib::Decoder::new(data).unwrap();
    let mut out = Vec::new();
    decoder.read_to_end(&mut out).unwrap();
    out
}

#[test]
fn blob_test_put() {
    let content = b"hello world\n".to_vec();
    let mut hello = Blob::new(&content);
    let plan = hello.put("_fretch_blob_test").unwrap();
    assert_eq!(plan.address, "3b18e512dba79e4c8300dd08aeb37f8e728b8dad");
    assert_eq!(plan.shard_dir, "_fretch_blob_test/3b");
    assert_eq!(
        plan.file_path,
        "_fretch_blob_test/3b/18e512dba79e4c8300dd08aeb37f8e728b8dad"
    );
}

#[test]
fn object_test_put() {
    let mut sink = Accumulator::new().unwrap();
    sink.ingest(b"blob 12\0hello world\n").unwrap();
    let (digest, data) = sink.finish().unwrap();
    assert_eq!(digest, "3b18e512dba79e4c8300dd08aeb37f8e728b8dad");
    assert_eq!(inflate(&data), b"blob 12\0hello world\n");
}

#[test]
fn blob_round_trip() {
    let content = b"hello world\n".to_vec();
    let mut hello = Blob::new(&content);
    let plan = hello.put("objects").unwrap();
    assert_eq!(inflate(&plan.data), b"blob 12\0hello world\n");
}

#[test]
fn store_is_deterministic() {
    let content = b"some payload".to_vec();
    let mut first = Blob::new(&content);
    let mut second = Blob::new(&content);
    let plan1 = first.put("objects").unwrap();
    let plan2 = second.put("objects").unwrap();
    assert_eq!(plan1.address, plan2.address);
    assert_eq!(plan1.shard_dir, plan2.shard_dir);
    assert_eq!(plan1.file_path, plan2.file_path);
    assert_eq!(plan1.data, plan2.data);
}

#[test]
fn storing_twice_keeps_artifact_valid() {
    let content = b"hello world\n".to_vec();
    let mut first = Blob::new(&content);
    let mut second = Blob::new(&content);
    let plan1 = first.put("objects").unwrap();
    // The second store rewrites byte-identical data at the same path, so
    // the artifact still inflates to the canonical serialization.
    let plan2 = second.put("objects").unwrap();
    assert_eq!(plan1.file_path, plan2.file_path);
    assert_eq!(inflate(&plan2.data), b"blob 12\0hello world\n");
}

#[test]
fn empty_blob_address() {
    let content: Vec<u8> = Vec::new();
    let mut empty = Blob::new(&content);
    let plan = empty.put("objects").unwrap();
    // The well-known address of the empty blob: SHA-1 of "blob 0\0".
    assert_eq!(plan.address, "e69de29bb2d1d6434b8b29ae775ad8c2e48c5391");
    assert_eq!(inflate(&plan.data), b"blob 0\0");
}

#[test]
fn multi_digit_length_header() {
    // 305 bytes of payload: the decimal length in the header has several
    // digits and must be exact.
    let content = vec![7u8; 305];
    let mut blob = Blob::new(&content);
    let plan = blob.put("objects").unwrap();
    let mut expected = b"blob 305\0".to_vec();
    expected.extend_from_slice(&content);
    assert_eq!(inflate(&plan.data), expected);
}

#[test]
fn splay_plan_splits_address() {
    let plan = fretch::object::splay_plan(
        "3b18e512dba79e4c8300dd08aeb37f8e728b8dad".to_string(),
        vec![1, 2, 3],
        "objects",
    );
    assert_eq!(plan.address, "3b18e512dba79e4c8300dd08aeb37f8e728b8dad");
    assert_eq!(plan.shard_dir, "objects/3b");
    assert_eq!(
        plan.file_path,
        "objects/3b/18e512dba79e4c8300dd08aeb37f8e728b8dad"
    );
    assert_eq!(plan.data, vec![1, 2, 3]);
}

#[test]
fn test_init() {
    let engine = Engine::new("_fretch_core_test".to_string());
    let plan = engine.init();
    assert_eq!(plan.dirs.len(), 5);
    assert_eq!(plan.dirs[0], "_fretch_core_test");
    assert_eq!(plan.dirs[1], "_fretch_core_test/info");
    assert_eq!(plan.dirs[2], "_fretch_core_test/objects");
    assert_eq!(plan.dirs[3], "_fretch_core_test/refs");
    assert_eq!(plan.dirs[4], "_fretch_core_test/refs/heads");
    assert_eq!(plan.files.len(), 2);
    assert_eq!(plan.files[0].path, "_fretch_core_test/HEAD");
    assert_eq!(plan.files[0].content, "ref: refs/heads/master\n");
    assert_eq!(plan.files[1].path, "_fretch_core_test/config");
    assert_eq!(
        plan.files[1].content,
        "\n[core]\n\trepositoryformatversion = 0\n\tfilemode = true\n\tbare = true\n\tlogallrefupdates = true\n\tignorecase = true\n\tprecomposeunicode = true\n"
    );
}

#[test]
fn test_init_repo() {
    let plan = fretch::initialize::init_repo("_fretch_test");
    assert_eq!(plan.dirs[0], "_fretch_test");
    assert_eq!(plan.dirs.len(), 5);
    assert_eq!(plan.files.len(), 2);
}

#[test]
fn engine_store_uses_objects_dir() {
    let mut engine = Engine::new("/var/repo".to_string());
    let content = b"hello world\n".to_vec();
    let mut hello = Blob::new(&content);
    let plan = engine.store(&mut hello).unwrap();
    assert_eq!(plan.shard_dir, "/var/repo/objects/3b");
    assert_eq!(
        plan.file_path,
        "/var/repo/objects/3b/18e512dba79e4c8300dd08aeb37f8e728b8dad"
    );
}
