use icy_sauce::archive::{ArchiveCapabilities, ArchiveFormat};
use icy_sauce::audio::{AudioCapabilities, AudioFormat};
use icy_sauce::bitmap::{BitmapCapabilities, BitmapFormat};
use icy_sauce::{strip_sauce_ex, Capabilities, SauceDataType, SauceDate, SauceError, SauceRecord,
    SauceRecordBuilder, StripMode};

// Full round trip: every descriptive field and the derived capability
// come back, up to the documented trim rules.
#[test]
fn full_record_round_trip() {
    let caps = icy_sauce::CharacterCapabilities::with_font(
        icy_sauce::CharacterFormat::Ansi,
        132,
        60,
        true,
        icy_sauce::LetterSpacing::NinePixel,
        icy_sauce::AspectRatio::LegacyDevice,
        Some(b"IBM VGA50".to_vec()),
    )
    .unwrap();
    let rec = SauceRecordBuilder::default()
        .title(b"A piece".to_vec())
        .unwrap()
        .author(b"Someone".to_vec())
        .unwrap()
        .group(b"A group".to_vec())
        .unwrap()
        .date(SauceDate::new(2024, 1, 15))
        .file_size(4321)
        .data_type(SauceDataType::Character)
        .capabilities(Capabilities::Character(caps))
        .unwrap()
        .add_comment(b"first line".to_vec())
        .unwrap()
        .add_comment(b"second line".to_vec())
        .unwrap()
        .build();

    let mut buf = b"The content".to_vec();
    rec.write(&mut buf).unwrap();
    let parsed = SauceRecord::from_bytes(&buf).unwrap().unwrap();

    assert_eq!(parsed.title(), &b"A piece".to_vec());
    assert_eq!(parsed.author(), &b"Someone".to_vec());
    assert_eq!(parsed.group(), &b"A group".to_vec());
    assert_eq!(parsed.date(), SauceDate::new(2024, 1, 15));
    assert_eq!(parsed.file_size(), 4321);
    assert_eq!(parsed.data_type(), SauceDataType::Character);
    assert_eq!(parsed.comments().len(), 2);
    assert_eq!(parsed.comments()[0], b"first line".to_vec());
    assert_eq!(parsed.comments()[1], b"second line".to_vec());
    match parsed.capabilities() {
        Some(Capabilities::Character(c)) => {
            assert_eq!(c.format, icy_sauce::CharacterFormat::Ansi);
            assert_eq!(c.columns, 132);
            assert_eq!(c.lines, 60);
            assert!(c.ice_colors);
            assert_eq!(c.letter_spacing, icy_sauce::LetterSpacing::NinePixel);
            assert_eq!(c.aspect_ratio, icy_sauce::AspectRatio::LegacyDevice);
            assert_eq!(c.font(), Some(&b"IBM VGA50".to_vec()));
        }
        other => panic!("Expected character capabilities, got {:?}", other),
    }
    assert_eq!(parsed.record_len(), 128 + 5 + 2 * 64);
}

// An unknown discriminator byte survives a decode and re-encode
#[test]
fn undefined_data_type_round_trips() {
    let rec = SauceRecordBuilder::default()
        .data_type(SauceDataType::Undefined(200))
        .build();
    let mut buf = Vec::new();
    rec.write(&mut buf).unwrap();
    let type_pos = buf.len() - 128 + 94;
    assert_eq!(buf[type_pos], 200);
    let parsed = SauceRecord::from_bytes(&buf).unwrap().unwrap();
    assert_eq!(parsed.data_type(), SauceDataType::Undefined(200));
    assert!(parsed.capabilities().is_none());
    let mut buf2 = Vec::new();
    parsed.write(&mut buf2).unwrap();
    assert_eq!(buf2[type_pos], 200);
}

// Exactly 255 comments of exactly 64 bytes are accepted and come back
#[test]
fn max_comments_of_max_length_round_trip() {
    let mut builder = SauceRecordBuilder::default();
    for i in 0..255u32 {
        let mut line = format!("{:03}", i).into_bytes();
        line.resize(63, b'x');
        line.push(b'!'); // 64 bytes, nothing trimmable at the end
        builder = builder.add_comment(line).unwrap();
    }
    let rec = builder.build();
    let mut buf = Vec::new();
    rec.write(&mut buf).unwrap();
    assert_eq!(buf.len(), 1 + 5 + 255 * 64 + 128);
    let parsed = SauceRecord::from_bytes(&buf).unwrap().unwrap();
    assert_eq!(parsed.comments().len(), 255);
    assert_eq!(parsed.comments()[254].len(), 64);
    assert_eq!(parsed.comments()[254][0..3], b"254"[..]);
}

// A single 65-byte comment is rejected with its length
#[test]
fn overlong_comment_rejected() {
    let r = SauceRecordBuilder::default().add_comment(vec![b' '; 65]);
    assert!(matches!(r, Err(SauceError::CommentTooLong(65))));
}

// Audio: only raw sample formats keep a sample rate
#[test]
fn audio_sample_rate_round_trip() {
    let rec = SauceRecordBuilder::default()
        .data_type(SauceDataType::Audio)
        .capabilities(Capabilities::Audio(AudioCapabilities {
            format: AudioFormat::Smp16s,
            sample_rate: 44100,
        }))
        .unwrap()
        .build();
    let mut buf = Vec::new();
    rec.write(&mut buf).unwrap();
    let parsed = SauceRecord::from_bytes(&buf).unwrap().unwrap();
    match parsed.capabilities() {
        Some(Capabilities::Audio(a)) => {
            assert_eq!(a.format, AudioFormat::Smp16s);
            assert_eq!(a.sample_rate, 44100);
        }
        other => panic!("Expected audio capabilities, got {:?}", other),
    }

    // A tracker format drops the rate
    let rec = SauceRecordBuilder::default()
        .data_type(SauceDataType::Audio)
        .capabilities(Capabilities::Audio(AudioCapabilities {
            format: AudioFormat::S3m,
            sample_rate: 44100,
        }))
        .unwrap()
        .build();
    let mut buf = Vec::new();
    rec.write(&mut buf).unwrap();
    let parsed = SauceRecord::from_bytes(&buf).unwrap().unwrap();
    match parsed.capabilities() {
        Some(Capabilities::Audio(a)) => {
            assert_eq!(a.format, AudioFormat::S3m);
            assert_eq!(a.sample_rate, 0);
        }
        other => panic!("Expected audio capabilities, got {:?}", other),
    }
}

// Bitmap dimensions ride in the three numeric fields
#[test]
fn bitmap_round_trip() {
    let rec = SauceRecordBuilder::default()
        .data_type(SauceDataType::Bitmap)
        .capabilities(Capabilities::Bitmap(BitmapCapabilities {
            format: BitmapFormat::Png,
            width: 800,
            height: 600,
            pixel_depth: 24,
        }))
        .unwrap()
        .build();
    let mut buf = Vec::new();
    rec.write(&mut buf).unwrap();
    let parsed = SauceRecord::from_bytes(&buf).unwrap().unwrap();
    match parsed.capabilities() {
        Some(Capabilities::Bitmap(b)) => {
            assert_eq!(b.format, BitmapFormat::Png);
            assert_eq!(b.width, 800);
            assert_eq!(b.height, 600);
            assert_eq!(b.pixel_depth, 24);
            assert!(!b.is_animated());
        }
        other => panic!("Expected bitmap capabilities, got {:?}", other),
    }
}

// Archive formats are identified by the file type byte alone
#[test]
fn archive_round_trip() {
    let rec = SauceRecordBuilder::default()
        .data_type(SauceDataType::Archive)
        .capabilities(Capabilities::Archive(ArchiveCapabilities::new(
            ArchiveFormat::Rar,
        )))
        .unwrap()
        .build();
    let mut buf = Vec::new();
    rec.write(&mut buf).unwrap();
    let parsed = SauceRecord::from_bytes(&buf).unwrap().unwrap();
    match parsed.capabilities() {
        Some(Capabilities::Archive(a)) => {
            assert_eq!(a.format, ArchiveFormat::Rar);
            assert_eq!(a.format.extension(), "rar");
            assert!(a.format.is_compressed());
        }
        other => panic!("Expected archive capabilities, got {:?}", other),
    }
}

// The extended strip reports how much was removed
#[test]
fn strip_ex_reports_counts() {
    let rec = SauceRecordBuilder::default().build();
    let mut data = b"Payload".to_vec();
    rec.write(&mut data).unwrap();
    rec.write(&mut data).unwrap();

    let result = strip_sauce_ex(&data, StripMode::AllStripFinalEof);
    assert_eq!(result.data, b"Payload");
    assert_eq!(result.records_removed, 2);
    assert_eq!(result.eof_bytes_removed, 2);
    assert_eq!(result.bytes_removed(data.len()), 2 * (128 + 1));

    let result = strip_sauce_ex(&data, StripMode::Last);
    assert_eq!(result.records_removed, 1);
    assert_eq!(result.eof_bytes_removed, 0);
    assert_eq!(result.data.len(), data.len() - 128);

    let no_sauce = strip_sauce_ex(b"nothing here", StripMode::All);
    assert_eq!(no_sauce.records_removed, 0);
    assert_eq!(no_sauce.eof_bytes_removed, 0);
}

// The metadata view detaches and rebuilds through a builder
#[test]
fn metadata_view_and_builder() {
    let rec = SauceRecordBuilder::default()
        .title(b"T".to_vec())
        .unwrap()
        .author(b"A".to_vec())
        .unwrap()
        .group(b"G".to_vec())
        .unwrap()
        .add_comment(b"note".to_vec())
        .unwrap()
        .build();
    let meta = rec.metadata();
    assert!(!meta.is_empty());
    assert_eq!(meta.title, b"T".to_vec());
    let rebuilt = meta.to_builder().unwrap().build();
    assert_eq!(rebuilt.title(), &b"T".to_vec());
    assert_eq!(rebuilt.comments().len(), 1);
    assert_eq!(rebuilt.comments()[0], b"note".to_vec());

    let empty = SauceRecordBuilder::default().build().metadata();
    assert!(empty.is_empty());
}

// Asking the wrong category for a header fails with the actual type
#[test]
fn wrong_category_reports_actual_type() {
    let r = icy_sauce::BinaryFormat::from_data_type(SauceDataType::Character);
    assert!(matches!(
        r,
        Err(SauceError::UnsupportedDataType(SauceDataType::Character))
    ));
}
