use icy_sauce::binary::BinaryCapabilities;
use icy_sauce::character::{AspectRatio, CharacterCapabilities, CharacterFormat, LetterSpacing};
use icy_sauce::util::{sauce_pad, sauce_trim, zero_trim};
use icy_sauce::{Capabilities, SauceDataType, SauceDate, SauceRecord, SauceRecordBuilder};

#[test]
fn test_builder() {
    let caps = BinaryCapabilities::xbin(112, 90).unwrap();

    let builder = SauceRecordBuilder::default()
        .title(b"Title".to_vec())
        .unwrap()
        .author(b"Author".to_vec())
        .unwrap()
        .group(b"Group".to_vec())
        .unwrap()
        .date(SauceDate::new(1976, 12, 30))
        .data_type(SauceDataType::XBin)
        .capabilities(Capabilities::Binary(caps))
        .unwrap();

    let mut write_to = Vec::new();
    builder.build().write(&mut write_to).unwrap();
    let info2 = SauceRecord::from_bytes(&write_to).unwrap().unwrap();

    assert_eq!(info2.title(), &b"Title".to_vec());
    assert_eq!(info2.group(), &b"Group".to_vec());
    assert_eq!(info2.author(), &b"Author".to_vec());
    assert_eq!(info2.data_type(), SauceDataType::XBin);
    assert_eq!(info2.date(), SauceDate::new(1976, 12, 30));

    if let Some(Capabilities::Binary(caps)) = info2.capabilities() {
        assert_eq!(caps.columns, 112);
        assert_eq!(caps.lines, 90);
    } else {
        panic!("Expected Binary capabilities");
    }
}

#[test]
fn test_build_comments() {
    let builder = SauceRecordBuilder::default()
        .title(b"Title".to_vec())
        .unwrap()
        .author(b"Author".to_vec())
        .unwrap()
        .group(b"Group".to_vec())
        .unwrap()
        .add_comment(b"This is a comment".to_vec())
        .unwrap()
        .add_comment(b"This is another comment".to_vec())
        .unwrap();

    let mut write_to = Vec::new();
    builder.build().write(&mut write_to).unwrap();
    let info2 = SauceRecord::from_bytes(&write_to).unwrap().unwrap();

    assert_eq!(info2.title(), &b"Title".to_vec());
    assert_eq!(info2.group(), &b"Group".to_vec());
    assert_eq!(info2.author(), &b"Author".to_vec());
    assert_eq!(info2.comments().len(), 2);
    assert_eq!(info2.comments()[0], b"This is a comment".to_vec());
    assert_eq!(info2.comments()[1], b"This is another comment".to_vec());
}

#[test]
fn test_sauce_trim() {
    let data = b"Hello World  ";
    assert_eq!(sauce_trim(data), b"Hello World".to_vec());
    let data = b"Hello World\0\0";
    assert_eq!(sauce_trim(data), b"Hello World".to_vec());

    let data = b"Hello World\t\0";
    assert_eq!(sauce_trim(data), b"Hello World\t".to_vec());
    let data = b"Hello World\n ";
    assert_eq!(sauce_trim(data), b"Hello World\n".to_vec());
    let data = b"    \0   ";
    assert_eq!(sauce_trim(data), b"".to_vec());
}

#[test]
fn test_sauce_pad() {
    let data = b"Hello World".to_vec();
    assert_eq!(sauce_pad(&data, 15), b"Hello World    ");

    let data = b"Hello World".to_vec();
    assert_eq!(sauce_pad(&data, 5), b"Hello");

    let data = Vec::new();
    assert_eq!(sauce_pad(&data, 1), b" ");
}

#[test]
fn test_zero_trim() {
    let data = b"FONT NAME   \0\0\0"; // keep trailing spaces before zeros
    assert_eq!(zero_trim(data), b"FONT NAME   ".to_vec());
    let data = b"ABC";
    assert_eq!(zero_trim(data), b"ABC".to_vec());
    let data = b"ABC\0DEF\0"; // internal zeros preserved
    assert_eq!(zero_trim(data), b"ABC\0DEF".to_vec());
}

#[test]
fn test_letter_spacing_aspect_ratio_roundtrip() {
    // Test all combinations of letter spacing and aspect ratio
    for &letter_spacing in &[
        LetterSpacing::Legacy,
        LetterSpacing::EightPixel,
        LetterSpacing::NinePixel,
    ] {
        for &aspect_ratio in &[
            AspectRatio::Legacy,
            AspectRatio::LegacyDevice,
            AspectRatio::Square,
        ] {
            let caps = CharacterCapabilities::with_font(
                CharacterFormat::Ansi,
                80,
                25,
                false,
                letter_spacing,
                aspect_ratio,
                Some(b"IBM VGA".to_vec()),
            )
            .unwrap();

            let info = SauceRecordBuilder::default()
                .data_type(SauceDataType::Character)
                .capabilities(Capabilities::Character(caps))
                .unwrap()
                .build();

            let mut data = Vec::new();
            info.write(&mut data).unwrap();
            let parsed = SauceRecord::from_bytes(&data).unwrap().unwrap();

            if let Some(Capabilities::Character(parsed_caps)) = parsed.capabilities() {
                assert_eq!(
                    parsed_caps.letter_spacing, letter_spacing,
                    "Letter spacing mismatch for {:?}",
                    letter_spacing
                );
                assert_eq!(
                    parsed_caps.aspect_ratio, aspect_ratio,
                    "Aspect ratio mismatch for {:?}",
                    aspect_ratio
                );
                assert_eq!(parsed_caps.font(), Some(&b"IBM VGA".to_vec()), "Font mismatch");
            } else {
                panic!("Expected Character capabilities");
            }
        }
    }
}
