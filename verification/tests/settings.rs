use talon_control::settings::{
    bool_setting, i32_setting, mib_setting, parse_i32, parse_u32, parse_u64, parse_usize,
    positive_i32_setting, postgres_max_connections, rocksdb_compression, sqlite_pool_settings,
    Compression, IntErrorKind, SettingError,
};

#[test]
fn integers_parse_as_str_parse_does() {
    for s in ["0", "42", "+7", "-7", "", "+", "-", "12a", "2147483647", "2147483648", "-2147483648",
        "-2147483649", " 1", "99999999999x", "00012", "٣"] {
        let ours = parse_i32(s);
        let std = s.parse::<i32>();
        match (ours, std) {
            (Ok(a), Ok(b)) => assert_eq!(a, b, "{s}"),
            (Err(a), Err(b)) => assert_eq!(a.message(), b.to_string(), "{s}"),
            (a, b) => panic!("{s}: {a:?} vs {b:?}"),
        }
    }
    for s in ["0", "4294967295", "4294967296", "-1", "+5", "x"] {
        assert_eq!(parse_u32(s).ok(), s.parse::<u32>().ok(), "{s}");
    }
    for s in ["18446744073709551615", "18446744073709551616", "7"] {
        assert_eq!(parse_u64(s).ok(), s.parse::<u64>().ok(), "{s}");
        assert_eq!(parse_usize(s).ok(), s.parse::<usize>().ok(), "{s}");
    }
    assert_eq!(parse_u32("-1"), Err(IntErrorKind::InvalidDigit));
    assert_eq!(parse_i32(""), Err(IntErrorKind::Empty));
    assert_eq!(parse_i32("3000000000"), Err(IntErrorKind::PosOverflow));
    assert_eq!(parse_i32("-3000000000"), Err(IntErrorKind::NegOverflow));
}

#[test]
fn boolean_settings_accept_common_words() {
    assert_eq!(bool_setting("X", None, true).unwrap(), true);
    for word in ["1", "true", " YES ", "On"] {
        assert_eq!(bool_setting("X", Some(word), false).unwrap(), true);
    }
    for word in ["0", "FALSE", "no", " off"] {
        assert_eq!(bool_setting("X", Some(word), true).unwrap(), false);
    }
    let err = bool_setting("TALON_ROCKSDB_DISABLE_WAL", Some("maybe"), false).unwrap_err();
    assert_eq!(err.message(), "TALON_ROCKSDB_DISABLE_WAL must be a boolean, got \"maybe\"");
}

#[test]
fn integer_settings_must_be_positive() {
    assert_eq!(positive_i32_setting("N", None).unwrap(), None);
    assert_eq!(positive_i32_setting("N", Some(" 4 ")).unwrap(), Some(4));
    let err = positive_i32_setting("N", Some("0")).unwrap_err();
    assert!(matches!(err, SettingError::NotPositive { .. }));
    assert_eq!(err.message(), "N must be greater than zero");
    let err = positive_i32_setting("N", Some("four")).unwrap_err();
    assert_eq!(err.message(), "N must be an integer: invalid digit found in string");
    assert_eq!(i32_setting("N", None, 2).unwrap(), 2);
    assert_eq!(i32_setting("N", Some("8"), 2).unwrap(), 8);
}

#[test]
fn mib_settings_are_bytes() {
    assert_eq!(mib_setting("M", None).unwrap(), None);
    assert_eq!(mib_setting("M", Some("64")).unwrap(), Some(64 * 1024 * 1024));
    assert_eq!(
        mib_setting("M", Some("0")).unwrap_err().message(),
        "M must be greater than zero"
    );
    assert_eq!(
        mib_setting("M", Some("x")).unwrap_err().message(),
        "M must be an integer MiB value: invalid digit found in string"
    );
    let huge = (usize::MAX / 1024).to_string();
    assert_eq!(mib_setting("M", Some(&huge)).unwrap_err().message(), "M value is too large");
}

#[test]
fn compression_and_pool_settings() {
    assert_eq!(rocksdb_compression(None).unwrap(), Compression::Lz4);
    assert_eq!(rocksdb_compression(Some(" NONE ")).unwrap(), Compression::Off);
    assert_eq!(rocksdb_compression(Some("off")).unwrap(), Compression::Off);
    assert_eq!(
        rocksdb_compression(Some("zstd")).unwrap_err().message(),
        "TALON_ROCKSDB_COMPRESSION must be 'lz4' or 'none'"
    );
    assert_eq!(sqlite_pool_settings(None, None), (5, 5000));
    assert_eq!(sqlite_pool_settings(Some("8"), Some("250")), (8, 250));
    assert_eq!(sqlite_pool_settings(Some("0"), Some(" 250")), (5, 5000));
    assert_eq!(postgres_max_connections(None), 10);
    assert_eq!(postgres_max_connections(Some("25")), 25);
    assert_eq!(postgres_max_connections(Some("-1")), 10);
}
