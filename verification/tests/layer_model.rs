use minibox::RunError;
use minibox::layerfs::FileImage;
use minibox::layerfs::RootFs;
use minibox::layerfs::extract_layer;

fn entry(path: &str, data: &[u8]) -> FileImage {
    FileImage {
        path: String::from(path),
        kind: b'0',
        mode: 0o644,
        link: String::new(),
        data: data.to_vec(),
    }
}

fn gzip_tar_single(path: &str, mode: u32, data: &[u8]) -> Vec<u8> {
    let mut header = tar::Header::new_gnu();
    header.set_size(data.len() as u64);
    header.set_mode(mode);
    header.set_cksum();
    let mut builder = tar::Builder::new(Vec::new());
    builder.append_data(&mut header, path, data).unwrap();
    let tarball = builder.into_inner().unwrap();
    let mut enc = flate2::write::GzEncoder::new(Vec::new(), flate2::Compression::default());
    std::io::Write::write_all(&mut enc, &tarball).unwrap();
    enc.finish().unwrap()
}

#[test]
fn later_layer_wins_at_a_shared_path() {
    let mut fs = RootFs::new();
    fs.apply_layer(vec![entry("x", b"from layer A")]);
    fs.apply_layer(vec![entry("x", b"from layer B")]);
    let found = fs.lookup("x").expect("x must be present");
    assert_eq!(found.data, b"from layer B".to_vec());
}

#[test]
fn later_write_wins_inside_one_layer() {
    let mut fs = RootFs::new();
    fs.apply_layer(vec![entry("x", b"first"), entry("x", b"second")]);
    assert_eq!(fs.lookup("x").unwrap().data, b"second".to_vec());
}

#[test]
fn untouched_paths_keep_their_content() {
    let mut fs = RootFs::new();
    fs.apply_layer(vec![entry("keep", b"kept"), entry("x", b"old")]);
    fs.apply_layer(vec![entry("x", b"new")]);
    assert_eq!(fs.lookup("keep").unwrap().data, b"kept".to_vec());
    assert_eq!(fs.lookup("x").unwrap().data, b"new".to_vec());
}

#[test]
fn lookup_misses_an_absent_path() {
    let fs = RootFs::new();
    assert!(fs.lookup("nowhere").is_none());
}

#[test]
fn single_file_layer_round_trips() {
    let payload: &[u8] = b"#!/bin/sh\necho hello\n";
    let blob = gzip_tar_single("bin/echo", 0o755, payload);
    let mut fs = RootFs::new();
    extract_layer(&blob, &mut fs).expect("a well-formed layer must extract");
    let found = fs.lookup("bin/echo").expect("the file must reappear");
    assert_eq!(found.data, payload.to_vec());
    assert_eq!(found.mode, 0o755);
    assert_eq!(found.path, "bin/echo");
}

#[test]
fn bad_gzip_framing_is_rejected() {
    let mut fs = RootFs::new();
    let r = extract_layer(b"this is not a gzip stream", &mut fs);
    assert_eq!(r, Err(RunError::BadGzip));
    assert!(fs.lookup("bin/echo").is_none());
}

#[test]
fn bad_archive_is_rejected() {
    let garbage = vec![0xABu8; 600];
    let mut enc = flate2::write::GzEncoder::new(Vec::new(), flate2::Compression::default());
    std::io::Write::write_all(&mut enc, &garbage).unwrap();
    let blob = enc.finish().unwrap();
    let mut fs = RootFs::new();
    let r = extract_layer(&blob, &mut fs);
    assert_eq!(r, Err(RunError::BadArchive));
}

#[test]
fn layers_merge_across_extractions() {
    let first = gzip_tar_single("a", 0o644, b"A");
    let second = gzip_tar_single("b", 0o644, b"B");
    let mut fs = RootFs::new();
    extract_layer(&first, &mut fs).unwrap();
    extract_layer(&second, &mut fs).unwrap();
    assert_eq!(fs.lookup("a").unwrap().data, b"A".to_vec());
    assert_eq!(fs.lookup("b").unwrap().data, b"B".to_vec());
}
