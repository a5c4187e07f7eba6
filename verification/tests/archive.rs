use std::io::Write;

use lapce_java::archive::{plan_extraction, unpack, ArchiveEntry, FsOp};
use lapce_java::failure::Failure;

fn header(kind: tar::EntryType, size: u64) -> tar::Header {
    let mut header = tar::Header::new_gnu();
    header.set_entry_type(kind);
    header.set_size(size);
    header.set_mode(0o644);
    header
}

fn add_dir(builder: &mut tar::Builder<Vec<u8>>, path: &str) {
    let mut h = header(tar::EntryType::Directory, 0);
    builder.append_data(&mut h, path, std::io::empty()).unwrap();
}

fn add_file(builder: &mut tar::Builder<Vec<u8>>, path: &str, data: &[u8]) {
    let mut h = header(tar::EntryType::Regular, data.len() as u64);
    builder.append_data(&mut h, path, data).unwrap();
}

fn add_symlink(builder: &mut tar::Builder<Vec<u8>>, path: &str, target: &str) {
    let mut h = header(tar::EntryType::Symlink, 0);
    builder.append_link(&mut h, path, target).unwrap();
}

fn gzip(bytes: &[u8]) -> Vec<u8> {
    let mut encoder = flate2::write::GzEncoder::new(Vec::new(), flate2::Compression::default());
    encoder.write_all(bytes).unwrap();
    encoder.finish().unwrap()
}

fn dir(path: &str) -> FsOp {
    FsOp::CreateDirAll { path: path.as_bytes().to_vec() }
}

fn file(path: &str, data: &[u8]) -> FsOp {
    FsOp::WriteFile { path: path.as_bytes().to_vec(), data: data.to_vec() }
}

#[test]
fn nested_file_round_trip() {
    let contents: Vec<u8> = (0..=255u8).cycle().take(3000).collect();
    let mut builder = tar::Builder::new(Vec::new());
    add_dir(&mut builder, "top/");
    add_dir(&mut builder, "top/nested/");
    add_file(&mut builder, "top/nested/file.bin", &contents);
    let payload = gzip(&builder.into_inner().unwrap());
    assert_eq!(
        unpack(&payload),
        Ok(vec![dir("top/"), dir("top/nested/"), file("top/nested/file.bin", &contents)])
    );
}

#[test]
fn file_without_directory_entry() {
    let mut builder = tar::Builder::new(Vec::new());
    add_file(&mut builder, "bin/jdtls", b"#!/bin/sh\n");
    let payload = gzip(&builder.into_inner().unwrap());
    assert_eq!(unpack(&payload), Ok(vec![file("bin/jdtls", b"#!/bin/sh\n")]));
}

#[test]
fn symbolic_link_is_skipped() {
    let mut builder = tar::Builder::new(Vec::new());
    add_file(&mut builder, "a.txt", b"a");
    add_symlink(&mut builder, "link", "a.txt");
    add_dir(&mut builder, "d/");
    add_file(&mut builder, "d/empty", b"");
    let payload = gzip(&builder.into_inner().unwrap());
    assert_eq!(unpack(&payload), Ok(vec![file("a.txt", b"a"), dir("d/"), file("d/empty", b"")]));
}

#[test]
fn only_links_give_nothing() {
    let mut builder = tar::Builder::new(Vec::new());
    add_symlink(&mut builder, "one", "two");
    let mut h = header(tar::EntryType::Link, 0);
    builder.append_link(&mut h, "hard", "one").unwrap();
    let payload = gzip(&builder.into_inner().unwrap());
    assert_eq!(unpack(&payload), Ok(vec![]));
}

#[test]
fn empty_archive_gives_nothing() {
    let builder = tar::Builder::new(Vec::new());
    let payload = gzip(&builder.into_inner().unwrap());
    assert_eq!(unpack(&payload), Ok(vec![]));
}

#[test]
fn gzip_of_several_members() {
    let mut builder = tar::Builder::new(Vec::new());
    add_file(&mut builder, "a", b"first");
    add_file(&mut builder, "b", b"second");
    let stream = builder.into_inner().unwrap();
    let (front, back) = stream.split_at(512);
    let mut payload = gzip(front);
    payload.extend_from_slice(&gzip(back));
    assert_eq!(unpack(&payload), Ok(vec![file("a", b"first"), file("b", b"second")]));
}

#[test]
fn payload_that_is_no_gzip() {
    assert_eq!(unpack(b"this is not compressed"), Err(Failure::Archive));
}

#[test]
fn truncated_payload() {
    let mut builder = tar::Builder::new(Vec::new());
    add_file(&mut builder, "a", &[7u8; 4000]);
    let payload = gzip(&builder.into_inner().unwrap());
    assert_eq!(unpack(&payload[..payload.len() / 2]), Err(Failure::Archive));
}

#[test]
fn stream_that_is_no_tar() {
    let payload = gzip(&[0x55u8; 1024]);
    assert_eq!(unpack(&payload), Err(Failure::Archive));
}

#[test]
fn plan_keeps_order_and_bytes() {
    let entries = vec![
        ArchiveEntry { is_dir: true, is_file: false, path: b"d".to_vec(), data: vec![] },
        ArchiveEntry { is_dir: false, is_file: false, path: b"l".to_vec(), data: b"x".to_vec() },
        ArchiveEntry { is_dir: false, is_file: true, path: b"d/f".to_vec(), data: vec![0, 255, 10] },
        ArchiveEntry { is_dir: false, is_file: true, path: b"../up".to_vec(), data: vec![] },
    ];
    assert_eq!(
        plan_extraction(&entries),
        vec![dir("d"), file("d/f", &[0, 255, 10]), file("../up", b"")]
    );
}

#[test]
fn plan_of_nothing() {
    assert_eq!(plan_extraction(&vec![]), vec![]);
}

#[test]
fn directory_data_is_dropped() {
    let entries =
        vec![ArchiveEntry { is_dir: true, is_file: false, path: b"d".to_vec(), data: b"x".to_vec() }];
    assert_eq!(plan_extraction(&entries), vec![dir("d")]);
}
