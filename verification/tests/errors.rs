use icy_sauce::{SauceError, SauceRecord, SauceRecordBuilder};

#[test]
fn test_empty_sauce() {
    // Test reading data with no SAUCE
    let data = b"Just some data without SAUCE";
    let result = SauceRecord::from_bytes(data).unwrap();
    assert!(result.is_none());
}

#[test]
fn test_malformed_sauce_id() {
    // Test data with wrong SAUCE ID
    let mut data = vec![0u8; 128];
    data[0..5].copy_from_slice(b"WRONG");
    let result = SauceRecord::from_bytes(&data).unwrap();
    assert!(result.is_none());
}

#[test]
fn test_comments_without_valid_id() {
    // Per spec: non fatal, no comment present when the comment tag is corrupted
    let info = SauceRecordBuilder::default()
        .title(b"Test".to_vec())
        .unwrap()
        .add_comment(b"Comment 1".to_vec())
        .unwrap()
        .build();

    let mut data = Vec::new();
    info.write(&mut data).unwrap();

    // Corrupt the comment ID
    let comment_id_pos = data.len() - 128 - 64 - 5;
    data[comment_id_pos..comment_id_pos + 5].copy_from_slice(b"WRONG");

    // Should still parse, just without comments
    let parsed = SauceRecord::from_bytes(&data).unwrap().unwrap();
    assert_eq!(parsed.title(), &b"Test".to_vec());
    assert_eq!(parsed.comments().len(), 0);
}

#[test]
fn test_maximum_comments() {
    // Test with maximum 255 comments
    let mut builder = SauceRecordBuilder::default();

    for i in 0..255 {
        builder = builder
            .add_comment(format!("Comment {}", i).into_bytes())
            .unwrap();
    }

    // Adding 256th comment should fail
    let result = builder.add_comment(b"One too many".to_vec());
    assert!(result.is_err());
}

#[test]
fn test_unsupported_version_error() {
    // A header whose magic is right but whose version is not "00"
    let info = SauceRecordBuilder::default().build();
    let mut data = Vec::new();
    info.write(&mut data).unwrap();
    let version_pos = data.len() - 128 + 5;
    data[version_pos] = b'0';
    data[version_pos + 1] = b'1';
    match SauceRecord::from_bytes(&data) {
        Err(SauceError::UnsupportedSauceVersion(v)) => assert_eq!(v, b"01".to_vec()),
        other => panic!("Expected version error, got {:?}", other),
    }
}

#[test]
fn test_truncated_comment_block_error() {
    // Declared comments but a buffer too short to hold the block
    let info = SauceRecordBuilder::default()
        .add_comment(b"A comment".to_vec())
        .unwrap()
        .build();
    let mut data = Vec::new();
    info.write(&mut data).unwrap();
    // Drop the leading end marker and the comment tag: the header remains
    // intact at the tail but the declared block no longer fits.
    let shortened = data[1 + 5 + 32..].to_vec();
    match SauceRecord::from_bytes(&shortened) {
        Err(SauceError::InvalidCommentBlock) => {}
        other => panic!("Expected comment block error, got {:?}", other),
    }
}

#[test]
fn test_field_length_errors() {
    let r = SauceRecordBuilder::default().title(vec![b'x'; 36]);
    assert!(matches!(r, Err(SauceError::TitleTooLong(36))));
    let r = SauceRecordBuilder::default().author(vec![b'x'; 21]);
    assert!(matches!(r, Err(SauceError::AuthorTooLong(21))));
    let r = SauceRecordBuilder::default().group(vec![b'x'; 21]);
    assert!(matches!(r, Err(SauceError::GroupTooLong(21))));
    let r = SauceRecordBuilder::default().add_comment(vec![b'x'; 65]);
    assert!(matches!(r, Err(SauceError::CommentTooLong(65))));
}
