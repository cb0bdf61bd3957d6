use epd_stream::container::{
    parse_header, Error, FormatError, HeaderInfo, FRAME_SIZE, HEADER_SIZE,
};

fn header(magic: &[u8; 4], version: u8, width: u32, height: u32) -> Vec<u8> {
    let mut h = Vec::new();
    h.extend_from_slice(magic);
    h.push(version);
    h.extend_from_slice(&width.to_le_bytes());
    h.extend_from_slice(&height.to_le_bytes());
    h
}

#[test]
fn constants_match_the_fixed_panel() {
    assert_eq!(HEADER_SIZE, 13);
    assert_eq!(FRAME_SIZE, 800 * 480 / 2);
    assert_eq!(FRAME_SIZE, 192000);
}

#[test]
fn valid_header_yields_offset_13_and_frame_size() {
    let h = header(b"EPD7", 1, 800, 480);
    assert_eq!(h.len(), 13);
    let info = parse_header(&h).unwrap();
    assert_eq!(
        info,
        HeaderInfo {
            payload_offset: 13,
            payload_len: 192000,
        }
    );
}

#[test]
fn wrong_magic_yields_invalid_magic() {
    let h = header(b"XPD7", 1, 800, 480);
    assert_eq!(
        parse_header(&h),
        Err(Error::Format(FormatError::InvalidMagic))
    );
}

#[test]
fn wrong_version_yields_invalid_version() {
    let h = header(b"EPD7", 2, 800, 480);
    assert_eq!(
        parse_header(&h),
        Err(Error::Format(FormatError::InvalidVersion))
    );
    let h0 = header(b"EPD7", 0, 800, 480);
    assert_eq!(
        parse_header(&h0),
        Err(Error::Format(FormatError::InvalidVersion))
    );
}

#[test]
fn wrong_width_yields_invalid_dimensions() {
    let h = header(b"EPD7", 1, 640, 480);
    assert_eq!(
        parse_header(&h),
        Err(Error::Format(FormatError::InvalidDimensions))
    );
}

#[test]
fn wrong_height_yields_invalid_dimensions() {
    let h = header(b"EPD7", 1, 800, 481);
    assert_eq!(
        parse_header(&h),
        Err(Error::Format(FormatError::InvalidDimensions))
    );
}

#[test]
fn magic_check_comes_before_version_and_dimensions() {
    let h = header(b"ABCD", 9, 1, 1);
    assert_eq!(
        parse_header(&h),
        Err(Error::Format(FormatError::InvalidMagic))
    );
}

#[test]
fn header_may_sit_in_a_longer_buffer() {
    let mut h = header(b"EPD7", 1, 800, 480);
    h.extend_from_slice(&[0xAB; 64]);
    let info = parse_header(&h).unwrap();
    assert_eq!(info.payload_offset, 13);
    assert_eq!(info.payload_len, FRAME_SIZE);
}
