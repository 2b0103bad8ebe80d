use easy_archive::Fmt;

#[test]
fn ty_test_guess() {
    for (name, fmt) in [
        ("a.zip", Fmt::Zip),
        ("a.tar", Fmt::Tar),
        ("a.tar.gz", Fmt::TarGz),
        ("a.tar.xz", Fmt::TarXz),
        ("a.tar.bz2", Fmt::TarBz),
    ] {
        assert!(Fmt::guess(name) == Some(fmt))
    }
}

#[test]
fn types_test_guess() {
    let test_cases = vec![
        ("a.zip", Fmt::Zip),
        ("a.tar", Fmt::Tar),
        ("a.tar.gz", Fmt::TarGz),
        ("a.tar.xz", Fmt::TarXz),
        ("a.tar.bz2", Fmt::TarBz),
    ];

    for (name, fmt) in test_cases {
        assert_eq!(
            Fmt::guess(name),
            Some(fmt),
            "Failed to guess format for {}",
            name
        );
    }
}

#[test]
fn guess_more_suffixes() {
    assert_eq!(Fmt::guess("a.tgz"), Some(Fmt::TarGz));
    assert_eq!(Fmt::guess("a.txz"), Some(Fmt::TarXz));
    assert_eq!(Fmt::guess("a.tbz2"), Some(Fmt::TarBz));
    assert_eq!(Fmt::guess("a.tbz"), Some(Fmt::TarBz));
    assert_eq!(Fmt::guess("a.tzst"), Some(Fmt::TarZstd));
    assert_eq!(Fmt::guess("a.tzstd"), Some(Fmt::TarZstd));
    assert_eq!(Fmt::guess("a.tar.zst"), Some(Fmt::TarZstd));
    assert_eq!(Fmt::guess("a.7z"), Some(Fmt::SevenZip));
}

#[test]
fn guess_unknown_is_none() {
    assert_eq!(Fmt::guess("a.unknown"), None);
    assert_eq!(Fmt::guess(""), None);
    assert_eq!(Fmt::guess("tar"), None);
}

#[test]
fn extensions_tables() {
    assert_eq!(Fmt::Tar.extensions(), vec![".tar"]);
    assert_eq!(Fmt::TarGz.extensions(), vec![".tar.gz", ".tgz"]);
    assert_eq!(Fmt::TarXz.extensions(), vec![".tar.xz", ".txz"]);
    assert_eq!(Fmt::TarBz.extensions(), vec![".tar.bz2", ".tbz2", ".tbz"]);
    assert_eq!(Fmt::TarZstd.extensions(), vec![".tzstd", ".tzst", ".tar.zst"]);
    assert_eq!(Fmt::Zip.extensions(), vec![".zip"]);
    assert_eq!(Fmt::SevenZip.extensions(), vec![".7z"]);
}
