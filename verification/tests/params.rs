use lgn_worker::params::{
    checksum_verdict, content_length, parse_checksum_table, digest_eq, expected_checksum, file_url, range_header,
    ChecksumComparison, Download, ParamsError, ResponseAction, Retries, RetryAction,
    DOWNLOAD_BACKOFF_MAX_MILLIS, DOWNLOAD_BACKOFF_MIN_MILLIS, RANGE_NOT_SATISFIABLE,
};

fn digest(data: &[u8]) -> [u8; 32] {
    *blake3::hash(data).as_bytes()
}

#[test]
fn checksum_lookup() {
    let table = vec![
        ("a.bin".to_string(), [1u8; 32]),
        ("b.bin".to_string(), [2u8; 32]),
        ("a.bin".to_string(), [3u8; 32]),
    ];
    assert_eq!(expected_checksum(&table, "a.bin").unwrap(), [1u8; 32]);
    assert_eq!(expected_checksum(&table, "b.bin").unwrap(), [2u8; 32]);
    match expected_checksum(&table, "c.bin") {
        Err(ParamsError::MissingChecksum { file_name }) => assert_eq!(file_name, "c.bin"),
        other => panic!("unexpected {:?}", other),
    }
}

#[test]
fn urls_and_headers() {
    assert_eq!(
        file_url("https://params.example.com/1.1.0", "query_params.bin"),
        "https://params.example.com/1.1.0/query_params.bin"
    );
    assert_eq!(range_header(0), "bytes=0-");
    assert_eq!(range_header(1234), "bytes=1234-");
    assert_eq!(range_header(u64::MAX), "bytes=18446744073709551615-");
}

#[test]
fn content_length_header() {
    assert_eq!(content_length(None).unwrap(), 0);
    assert_eq!(content_length(Some("42")).unwrap(), 42);
    assert_eq!(content_length(Some("+7")).unwrap(), 7);
    assert_eq!(
        content_length(Some("18446744073709551615")).unwrap(),
        u64::MAX
    );
    assert!(matches!(
        content_length(Some("18446744073709551616")),
        Err(ParamsError::InvalidContentLength)
    ));
    assert!(matches!(
        content_length(Some("12a")),
        Err(ParamsError::InvalidContentLength)
    ));
    assert!(matches!(
        content_length(Some("")),
        Err(ParamsError::InvalidContentLength)
    ));
}

#[test]
fn digest_comparison() {
    assert!(digest_eq(&[5u8; 32], &[5u8; 32]));
    let mut b = [5u8; 32];
    b[31] = 6;
    assert!(!digest_eq(&[5u8; 32], &b));
}

#[test]
fn local_content_already_valid() {
    let (d, done) = Download::open(b"hello".to_vec(), digest(b"hello"));
    assert!(done);
    assert_eq!(d.buf, b"hello".to_vec());
    let (_, done) = Download::open(b"hell".to_vec(), digest(b"hello"));
    assert!(!done);
}

#[test]
fn resumed_download_completes() {
    let (mut d, done) = Download::open(b"hel".to_vec(), digest(b"hello world"));
    assert!(!done);
    assert_eq!(d.on_response(206, 8).unwrap(), ResponseAction::ReadBody);
    d.on_chunk(b"lo ");
    d.on_chunk(b"world");
    assert_eq!(d.buf, b"hello world".to_vec());
    assert!(d.finish().is_ok());
    assert_eq!(d.buf, b"hello world".to_vec());
}

#[test]
fn range_not_satisfiable_resizes() {
    let (mut d, _) = Download::open(b"hello world".to_vec(), digest(b"hello"));
    assert_eq!(
        d.on_response(RANGE_NOT_SATISFIABLE, 5).unwrap(),
        ResponseAction::Truncate(5)
    );
    assert_eq!(d.buf, b"hello".to_vec());
    assert!(d.finish().is_ok());

    let (mut d, _) = Download::open(b"ab".to_vec(), [0u8; 32]);
    assert_eq!(
        d.on_response(416, 4).unwrap(),
        ResponseAction::Truncate(4)
    );
    assert_eq!(d.buf, vec![b'a', b'b', 0, 0]);
}

#[test]
fn failed_status_and_mismatch() {
    let (mut d, _) = Download::open(b"abc".to_vec(), digest(b"xyz"));
    match d.on_response(404, 0) {
        Err(ParamsError::RequestFailed { status }) => assert_eq!(status, 404),
        other => panic!("unexpected {:?}", other),
    }
    assert_eq!(d.buf, b"abc".to_vec());
    match d.finish() {
        Err(ParamsError::ChecksumMismatch { found, expected }) => {
            assert_eq!(found, digest(b"abc"));
            assert_eq!(expected, digest(b"xyz"));
        }
        other => panic!("unexpected {:?}", other),
    }
    assert!(d.buf.is_empty());
    assert_eq!(d.expected, digest(b"xyz"));
}

#[test]
fn retry_schedule() {
    let mut r = Retries::new();
    assert_eq!(r.delays.len(), 3);
    assert_eq!(r.attempt, 0);
    assert_eq!(r.delays[2], None);
    for d in &r.delays[0..2] {
        let d = d.unwrap();
        assert!(DOWNLOAD_BACKOFF_MIN_MILLIS <= d && d <= DOWNLOAD_BACKOFF_MAX_MILLIS);
    }
    let first = r.delays[0].unwrap();
    assert_eq!(r.on_failure(), RetryAction::Sleep(first));
    assert_eq!(r.attempt, 1);
    assert!(matches!(r.on_failure(), RetryAction::Sleep(_)));
    assert_eq!(r.attempt, 2);
    assert_eq!(r.on_failure(), RetryAction::GiveUp);
    assert_eq!(r.attempt, 2);
}

#[test]
fn directory_comparison_verdicts() {
    let v = checksum_verdict(ChecksumComparison::NoError);
    assert!(v.delete.is_empty());
    assert_eq!(v.differing_files, None);

    let v = checksum_verdict(ChecksumComparison::FilesDiffer {
        count: 2,
        differing: Some(vec!["a.bin".to_string(), "b.bin".to_string()]),
    });
    assert_eq!(v.delete, vec!["a.bin".to_string(), "b.bin".to_string()]);
    assert_eq!(v.differing_files, Some(2));

    let v = checksum_verdict(ChecksumComparison::FilesDiffer {
        count: 3,
        differing: None,
    });
    assert!(v.delete.is_empty());
    assert_eq!(v.differing_files, Some(3));

    let v = checksum_verdict(ChecksumComparison::OtherError);
    assert!(v.delete.is_empty());
    assert_eq!(v.differing_files, None);
}

#[test]
fn checksum_file_table() {
    let a = digest(b"a");
    let b = digest(b"b");
    let text = format!(
        "{}  {}\nquery_params.bin   {}\r\n\nnot a listing\n  leading.bin {}\nlast.bin\t{}  ",
        "-".repeat(16),
        "-".repeat(64),
        hex::encode(a),
        hex::encode(b),
        hex::encode_upper(b)
    );
    let t = parse_checksum_table(&text);
    assert_eq!(t, vec![("query_params.bin".to_string(), a), ("last.bin".to_string(), b)]);
    let short = format!("x.bin {}", &hex::encode(a)[..63]);
    assert!(parse_checksum_table(&short).is_empty());
    assert!(parse_checksum_table("").is_empty());
}
