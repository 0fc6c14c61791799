use std::io::Read;

use gitrs::errors::RepoError;
use gitrs::paths::AbsPath;
use gitrs::repository::{NodeKind, Repository};

fn path(parts: &[&str]) -> AbsPath {
    AbsPath { parts: parts.iter().map(|s| s.to_string()).collect() }
}

fn segs(parts: &[&str]) -> Vec<String> {
    parts.iter().map(|s| s.to_string()).collect()
}

fn inflate(stream: &[u8]) -> Vec<u8> {
    let mut decoder = flate2::read::ZlibDecoder::new(stream);
    let mut out = Vec::new();
    decoder.read_to_end(&mut out).expect("a valid zlib stream");
    out
}

#[test]
fn upsert_round_trip() {
    let repo = Repository::new(&path(&["w"]));
    let data: Vec<u8> = (0u16..600).map(|i| (i % 251) as u8).collect();
    let plan = repo.upsert_file(&segs(&["objects", "ab"]), &data, NodeKind::Dir).unwrap();
    assert_eq!(plan.target.parts, segs(&["w", ".gitrs", "objects", "ab"]));
    assert!(plan.create_parent.is_none());
    assert_ne!(plan.bytes, data, "the stored bytes are compressed, not the payload");
    assert_eq!(inflate(&plan.bytes), data);
}

#[test]
fn upsert_empty_payload_round_trip() {
    let repo = Repository::new(&path(&["w"]));
    let plan = repo.upsert_file(&segs(&["objects", "empty"]), &Vec::new(), NodeKind::Dir).unwrap();
    assert_eq!(inflate(&plan.bytes), Vec::<u8>::new());
}

#[test]
fn upsert_schedules_missing_parent() {
    let repo = Repository::new(&path(&["w"]));
    let data = b"payload".to_vec();
    let plan = repo.upsert_file(&segs(&["objects", "ab"]), &data, NodeKind::Missing).unwrap();
    let parent = plan.create_parent.expect("the missing parent chain is scheduled");
    assert_eq!(parent.parts, segs(&["w", ".gitrs", "objects"]));
    assert_eq!(plan.target.parts, segs(&["w", ".gitrs", "objects", "ab"]));
    assert_eq!(inflate(&plan.bytes), data);
}

#[test]
fn upsert_rejects_file_in_parent_position() {
    let repo = Repository::new(&path(&["w"]));
    let r = repo.upsert_file(&segs(&["objects", "ab"]), &b"x".to_vec(), NodeKind::File);
    assert_eq!(r.unwrap_err(), RepoError::NotADirectory);
}

#[test]
fn upsert_overwrites_with_second_payload() {
    // Two writes at the same content path: same target file, and since the
    // write truncates, only the second payload is recoverable afterwards.
    let repo = Repository::new(&path(&["w"]));
    let first = b"the first payload".to_vec();
    let second = b"a different, second payload".to_vec();
    let p1 = repo.upsert_file(&segs(&["objects", "ab"]), &first, NodeKind::Dir).unwrap();
    let p2 = repo.upsert_file(&segs(&["objects", "ab"]), &second, NodeKind::Dir).unwrap();
    assert_eq!(p1.target.parts, p2.target.parts);
    assert_eq!(inflate(&p2.bytes), second);
    assert_ne!(inflate(&p1.bytes), inflate(&p2.bytes));
}
