use gif_header::color::Color;
use gif_header::gif::{Gif, GifError, GifVersion, LogicalScreenDescriptor};

fn header(signature: &[u8], lsd: &[u8], rest: &[u8]) -> Vec<u8> {
    let mut v = signature.to_vec();
    v.extend_from_slice(lsd);
    v.extend_from_slice(rest);
    v
}

#[test]
fn version_87a_and_89a() {
    assert_eq!(Gif::parse_version(b"GIF87a"), Ok(GifVersion::V87a));
    assert_eq!(Gif::parse_version(b"GIF89a"), Ok(GifVersion::V89a));
}

#[test]
fn unsupported_version_carries_text() {
    assert_eq!(
        Gif::parse_version(b"GIF88x"),
        Err(GifError::UnsupportedVersion("88x".to_string()))
    );
    assert_eq!(
        Gif::parse_version(b"GIF90a"),
        Err(GifError::UnsupportedVersion("90a".to_string()))
    );
}

#[test]
fn unsupported_version_with_multibyte_text() {
    // "é" is two bytes of UTF-8, followed by "a".
    let bytes: [u8; 6] = [b'G', b'I', b'F', 0xC3, 0xA9, b'a'];
    assert_eq!(
        Gif::parse_version(&bytes),
        Err(GifError::UnsupportedVersion("éa".to_string()))
    );
}

#[test]
fn version_bytes_not_text_are_invalid() {
    let bytes: [u8; 6] = [b'G', b'I', b'F', 0xFF, b'9', b'a'];
    assert_eq!(Gif::parse_version(&bytes), Err(GifError::InvalidFormat));
}

#[test]
fn bad_signature_is_invalid() {
    assert_eq!(Gif::parse_version(b"XIF89a"), Err(GifError::InvalidFormat));
    assert_eq!(Gif::parse_version(b"gif89a"), Err(GifError::InvalidFormat));
    assert_eq!(Gif::parse_version(b"GIX88x"), Err(GifError::InvalidFormat));
    let bytes: [u8; 6] = [0xFF, 0xFE, 0x00, 0x01, 0x02, 0x03];
    assert_eq!(Gif::parse_version(&bytes), Err(GifError::InvalidFormat));
}

#[test]
fn end_to_end_one_color() {
    let bytes = header(b"GIF89a", &[0x0A, 0, 0x0A, 0, 0x80, 0, 0], &[0xFF, 0x00, 0x00]);
    let gif = Gif::from_bytes(&bytes).unwrap();
    assert_eq!(gif.version, GifVersion::V89a);
    assert_eq!(
        gif.lsd,
        LogicalScreenDescriptor {
            width: 10,
            height: 10,
            has_global_color_table: true,
            color_resolution: 1,
            is_global_color_table_sorted: false,
            background_color_index: Some(0),
            global_color_table_size: 3,
            pixel_aspect_ratio: 0,
        }
    );
    assert_eq!(
        gif.global_color_table,
        Some(vec![Color { red: 255, green: 0, blue: 0 }])
    );
    assert_eq!(gif.header_len(), 16);
}

#[test]
fn end_to_end_unsupported_version() {
    let bytes = header(b"GIF88x", &[0x0A, 0, 0x0A, 0, 0x80, 0, 0], &[0xFF, 0x00, 0x00]);
    assert_eq!(
        Gif::from_bytes(&bytes),
        Err(GifError::UnsupportedVersion("88x".to_string()))
    );
}

#[test]
fn end_to_end_bad_signature() {
    let bytes = header(b"XIF89a", &[0x0A, 0, 0x0A, 0, 0x80, 0, 0], &[0xFF, 0x00, 0x00]);
    assert_eq!(Gif::from_bytes(&bytes), Err(GifError::InvalidFormat));
}

#[test]
fn descriptor_fields() {
    let lsd = Gif::parse_logical_screen_descriptor(&[0x34, 0x12, 0x01, 0x02, 0xFF, 7, 49]).unwrap();
    assert_eq!(lsd.width, 0x1234);
    assert_eq!(lsd.height, 0x0201);
    assert!(lsd.has_global_color_table);
    assert_eq!(lsd.color_resolution, 8);
    assert!(lsd.is_global_color_table_sorted);
    assert_eq!(lsd.background_color_index, Some(7));
    assert_eq!(lsd.global_color_table_size, 192);
    assert_eq!(lsd.pixel_aspect_ratio, 49);
}

#[test]
fn descriptor_color_resolution_range() {
    for bits in 0u8..8 {
        let lsd = Gif::parse_logical_screen_descriptor(&[0, 0, 0, 0, bits << 4, 0, 0]).unwrap();
        assert_eq!(lsd.color_resolution, bits + 1);
        assert!(!lsd.has_global_color_table);
        assert!(!lsd.is_global_color_table_sorted);
    }
}

#[test]
fn descriptor_is_deterministic() {
    let bytes: [u8; 7] = [0xFF, 0xFF, 0x00, 0x80, 0xA5, 3, 17];
    let a = Gif::parse_logical_screen_descriptor(&bytes).unwrap();
    let b = Gif::parse_logical_screen_descriptor(&bytes.clone()).unwrap();
    assert_eq!(a, b);
    assert_eq!(a.width, 0xFFFF);
    assert_eq!(a.height, 0x8000);
    assert_eq!(a.global_color_table_size, 3 * 36);
}

#[test]
fn table_size_round_trip_for_each_size_field() {
    for k in 0u8..8 {
        let lsd = Gif::parse_logical_screen_descriptor(&[0, 0, 0, 0, 0x80 | k, 0, 0]).unwrap();
        let entries = (k as usize + 1) * (k as usize + 1);
        assert_eq!(lsd.global_color_table_size as usize, 3 * entries);
        let table: Vec<u8> = (0..3 * entries).map(|i| i as u8).collect();
        let colors = Gif::parse_global_color_table(&table).unwrap();
        assert_eq!(colors.len(), entries);
        for (i, c) in colors.iter().enumerate() {
            assert_eq!(
                *c,
                Color { red: table[3 * i], green: table[3 * i + 1], blue: table[3 * i + 2] }
            );
        }
    }
}

#[test]
fn no_table_means_no_background_and_no_table_bytes() {
    let bytes = header(b"GIF87a", &[1, 0, 2, 0, 0x7F, 5, 0], &[9, 9, 9, 9]);
    let gif = Gif::from_bytes(&bytes).unwrap();
    assert_eq!(gif.version, GifVersion::V87a);
    assert!(!gif.lsd.has_global_color_table);
    assert_eq!(gif.lsd.background_color_index, None);
    assert_eq!(gif.global_color_table, None);
    assert_eq!(gif.header_len(), 13);
    assert_eq!(Gif::from_bytes(&bytes[..13]), Ok(gif));
}

#[test]
fn ragged_table_is_invalid() {
    assert_eq!(Gif::parse_global_color_table(&vec![1, 2]), Err(GifError::InvalidFormat));
    assert_eq!(Gif::parse_global_color_table(&vec![1, 2, 3, 4]), Err(GifError::InvalidFormat));
    assert_eq!(Gif::parse_global_color_table(&vec![1, 2, 3, 4, 5]), Err(GifError::InvalidFormat));
}

#[test]
fn empty_table_has_no_colors() {
    assert_eq!(Gif::parse_global_color_table(&vec![]), Ok(vec![]));
}

#[test]
fn table_keeps_input_order() {
    let colors = Gif::parse_global_color_table(&vec![1, 2, 3, 4, 5, 6]).unwrap();
    assert_eq!(
        colors,
        vec![Color { red: 1, green: 2, blue: 3 }, Color { red: 4, green: 5, blue: 6 }]
    );
}

#[test]
fn short_input_is_io_error() {
    assert_eq!(Gif::from_bytes(b""), Err(GifError::Io));
    assert_eq!(Gif::from_bytes(b"GIF89"), Err(GifError::Io));
    assert_eq!(Gif::from_bytes(b"GIF89a\x0A\x00"), Err(GifError::Io));
    let bytes = header(b"GIF89a", &[0, 0, 0, 0, 0x81, 0, 0], &[1, 2, 3, 4, 5, 6, 7, 8, 9, 10, 11]);
    assert_eq!(Gif::from_bytes(&bytes), Err(GifError::Io));
}

#[test]
fn bad_signature_wins_over_short_input() {
    assert_eq!(Gif::from_bytes(b"PNG89a"), Err(GifError::InvalidFormat));
}

#[test]
fn trailing_bytes_are_not_read() {
    let table: Vec<u8> = (0..12).collect();
    let bytes = header(b"GIF89a", &[0, 0, 0, 0, 0x81, 2, 0], &table);
    let mut longer = bytes.clone();
    longer.extend_from_slice(&[0x21, 0xF9, 0x04, 0x3B]);
    let gif = Gif::from_bytes(&longer).unwrap();
    assert_eq!(gif.header_len(), 25);
    assert_eq!(gif.lsd.background_color_index, Some(2));
    assert_eq!(gif.global_color_table.as_ref().map(|t| t.len()), Some(4));
    assert_eq!(Gif::from_bytes(&bytes), Ok(gif));
}

#[test]
fn hex_code_packs_channels() {
    assert_eq!(Color { red: 0x12, green: 0x34, blue: 0x56 }.hex_code(), 0x123456);
    assert_eq!(Color { red: 255, green: 255, blue: 255 }.hex_code(), 0xFFFFFF);
    assert_eq!(Color { red: 0, green: 0, blue: 0 }.hex_code(), 0);
    assert_eq!(Color { red: 1, green: 0, blue: 0 }.hex_code(), 0x10000);
}
