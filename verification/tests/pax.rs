use easy_archive::{File, Fmt};

#[test]
fn pax_global_header_is_skipped() {
    let files = vec![
        File {
            path: "pax_global_header".to_string(),
            buffer: b"52 comment=metadata".to_vec(),
            mode: None,
            is_dir: false,
            last_modified: None,
        },
        File {
            path: "real.txt".to_string(),
            buffer: b"real content".to_vec(),
            mode: None,
            is_dir: false,
            last_modified: None,
        },
    ];
    let bytes = Fmt::Tar.encode(files).unwrap();
    let back = Fmt::Tar.decode(bytes).unwrap();
    assert_eq!(back.len(), 1);
    assert_eq!(back[0].path, "real.txt");
    assert_eq!(back[0].buffer, b"real content".to_vec());
}

#[test]
fn directory_flag_from_trailing_slash() {
    let files = vec![File {
        path: "dir/".to_string(),
        buffer: vec![],
        mode: Some(0o755),
        is_dir: true,
        last_modified: None,
    }];
    let bytes = Fmt::Tar.encode(files).unwrap();
    let back = Fmt::Tar.decode(bytes).unwrap();
    assert_eq!(back.len(), 1);
    // the raw header path keeps its slash, the flag derives from it, and the
    // cleaned path drops it
    assert!(back[0].is_dir);
    assert_eq!(back[0].path, "dir");
}
