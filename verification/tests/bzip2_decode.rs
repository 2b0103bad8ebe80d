use bzip2::read::BzEncoder;
use easy_archive::{File, Fmt};
use std::io::Read;

#[test]
fn tar_bz2_decode() {
    // build a plain TAR with the library, compress it with an independent
    // bzip2 encoder, and decode it through the decode-only adapter
    let files = vec![File {
        path: "notes.txt".to_string(),
        buffer: b"bzip2 path".to_vec(),
        mode: Some(0o640),
        is_dir: false,
        last_modified: Some(1600000000),
    }];
    let tar_bytes = Fmt::Tar.encode(files).unwrap();
    let mut compressed = Vec::new();
    BzEncoder::new(tar_bytes.as_slice(), bzip2::Compression::default())
        .read_to_end(&mut compressed)
        .unwrap();

    let back = Fmt::TarBz.decode(compressed).unwrap();
    assert_eq!(back.len(), 1);
    assert_eq!(back[0].path, "notes.txt");
    assert_eq!(back[0].buffer, b"bzip2 path".to_vec());
    assert_eq!(back[0].mode, Some(0o640));
    assert_eq!(back[0].last_modified, Some(1600000000));
}

#[test]
fn guessed_format_decodes_bz2() {
    let tar_bytes = Fmt::Tar
        .encode(vec![File {
            path: "x".to_string(),
            buffer: b"y".to_vec(),
            mode: None,
            is_dir: false,
            last_modified: None,
        }])
        .unwrap();
    let mut compressed = Vec::new();
    BzEncoder::new(tar_bytes.as_slice(), bzip2::Compression::default())
        .read_to_end(&mut compressed)
        .unwrap();
    let fmt = Fmt::guess("archive.tar.bz2").unwrap();
    let back = fmt.decode(compressed).unwrap();
    assert_eq!(back[0].path, "x");
}
