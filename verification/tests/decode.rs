use tiff_decode::parse_directory_entry;
use tiff_decode::parse_header;
use tiff_decode::parse_ifd;
use tiff_decode::parse_tiff;
use tiff_decode::TiffByteOrder;
use tiff_decode::TiffDataType;
use tiff_decode::TiffError;
use tiff_decode::TiffTag;

/// Appends one big-endian 12-byte directory entry.
fn push_entry_be(buf: &mut Vec<u8>, tag: u16, field_type: u16, count: u32, value_offset: u32) {
    buf.extend_from_slice(&tag.to_be_bytes());
    buf.extend_from_slice(&field_type.to_be_bytes());
    buf.extend_from_slice(&count.to_be_bytes());
    buf.extend_from_slice(&value_offset.to_be_bytes());
}

/// A big-endian header followed by one single-entry IFD per element of
/// `next_offsets`: the IFD at index `i` is 18 bytes long, starts at
/// `8 + 18 * i`, holds one ImageWidth entry and points at `next_offsets[i]`.
fn file_with_ifds_be(next_offsets: &[u32]) -> Vec<u8> {
    let mut buf = vec![0x4D, 0x4D, 0x00, 0x2A, 0x00, 0x00, 0x00, 0x08];
    for next in next_offsets {
        buf.extend_from_slice(&1u16.to_be_bytes());
        push_entry_be(&mut buf, 256, 3, 1, 64);
        buf.extend_from_slice(&next.to_be_bytes());
    }
    buf
}

#[test]
fn header_decodes_big_endian() {
    let buf = [0x4D, 0x4D, 0x00, 0x2A, 0x00, 0x00, 0x00, 0x08];
    let (header, consumed) = parse_header(&buf, 0).unwrap();
    assert_eq!(header.byte_order, TiffByteOrder::BigEndian);
    assert_eq!(header.version, 42);
    assert_eq!(header.first_ifd_offset, 8);
    assert_eq!(consumed, 8);
}

#[test]
fn header_decodes_little_endian() {
    let buf = [0x49, 0x49, 0x2A, 0x00, 0x08, 0x00, 0x00, 0x00];
    let (header, consumed) = parse_header(&buf, 0).unwrap();
    assert_eq!(header.byte_order, TiffByteOrder::LittleEndian);
    assert_eq!(header.version, 42);
    assert_eq!(header.first_ifd_offset, 8);
    assert_eq!(consumed, 8);
}

#[test]
fn header_fails_on_seven_bytes() {
    let buf = [0x4D, 0x4D, 0x00, 0x2A, 0x00, 0x00, 0x00];
    assert_eq!(parse_header(&buf, 0), Err(TiffError::TruncatedInput));
}

#[test]
fn header_rejects_bad_marker() {
    let buf = [0x58, 0x58, 0x00, 0x2A, 0x00, 0x00, 0x00, 0x08];
    assert_eq!(parse_header(&buf, 0), Err(TiffError::InvalidByteOrderMarker));
}

#[test]
fn header_rejects_bad_version() {
    let buf = [0x4D, 0x4D, 0x00, 0x2B, 0x00, 0x00, 0x00, 0x08];
    assert_eq!(parse_header(&buf, 0), Err(TiffError::InvalidVersion));
}

#[test]
fn header_decodes_at_cursor() {
    let buf = [0xFF, 0xFF, 0x4D, 0x4D, 0x00, 0x2A, 0x00, 0x00, 0x00, 0x10];
    let (header, end) = parse_header(&buf, 2).unwrap();
    assert_eq!(header.byte_order, TiffByteOrder::BigEndian);
    assert_eq!(header.first_ifd_offset, 16);
    assert_eq!(end, 10);
}

#[test]
fn entry_decodes_big_endian() {
    let buf = [
        0x01, 0x00, 0x00, 0x03, 0x00, 0x00, 0x00, 0x01, 0x00, 0x00, 0x00, 0x40,
    ];
    let (entry, consumed) = parse_directory_entry(&buf, TiffByteOrder::BigEndian, 0).unwrap();
    assert_eq!(entry.tag, TiffTag::ImageWidth);
    assert_eq!(entry.field_type, TiffDataType::Short);
    assert_eq!(entry.count, 1);
    assert_eq!(entry.value_offset, 64);
    assert_eq!(consumed, 12);
}

#[test]
fn entry_decodes_little_endian() {
    let buf = [
        0x00, 0x01, 0x03, 0x00, 0x01, 0x00, 0x00, 0x00, 0x40, 0x00, 0x00, 0x00,
    ];
    let (entry, consumed) = parse_directory_entry(&buf, TiffByteOrder::LittleEndian, 0).unwrap();
    assert_eq!(entry.tag, TiffTag::ImageWidth);
    assert_eq!(entry.field_type, TiffDataType::Short);
    assert_eq!(entry.count, 1);
    assert_eq!(entry.value_offset, 64);
    assert_eq!(consumed, 12);
}

#[test]
fn entry_rejects_unknown_tag() {
    let buf = [
        0x00, 0x00, 0x00, 0x03, 0x00, 0x00, 0x00, 0x01, 0x00, 0x00, 0x00, 0x40,
    ];
    assert_eq!(
        parse_directory_entry(&buf, TiffByteOrder::BigEndian, 0),
        Err(TiffError::UnknownTag)
    );
}

#[test]
fn entry_rejects_unknown_data_type() {
    let buf = [
        0x01, 0x00, 0x00, 0x0D, 0x00, 0x00, 0x00, 0x01, 0x00, 0x00, 0x00, 0x40,
    ];
    assert_eq!(
        parse_directory_entry(&buf, TiffByteOrder::BigEndian, 0),
        Err(TiffError::UnknownDataType)
    );
}

#[test]
fn entry_fails_on_eleven_bytes() {
    let buf = [
        0x01, 0x00, 0x00, 0x03, 0x00, 0x00, 0x00, 0x01, 0x00, 0x00, 0x00,
    ];
    assert_eq!(
        parse_directory_entry(&buf, TiffByteOrder::BigEndian, 0),
        Err(TiffError::TruncatedInput)
    );
}

#[test]
fn ifd_decodes_two_entries() {
    let mut buf = 2u16.to_be_bytes().to_vec();
    push_entry_be(&mut buf, 256, 3, 1, 64);
    push_entry_be(&mut buf, 257, 3, 1, 32);
    buf.extend_from_slice(&0u32.to_be_bytes());
    let (ifd, consumed) = parse_ifd(&buf, TiffByteOrder::BigEndian, 0).unwrap();
    assert_eq!(ifd.num_entries, 2);
    assert_eq!(ifd.directory_entries.len(), 2);
    assert_eq!(ifd.directory_entries[0].tag, TiffTag::ImageWidth);
    assert_eq!(ifd.directory_entries[1].tag, TiffTag::ImageLength);
    assert_eq!(ifd.directory_entries[1].value_offset, 32);
    assert_eq!(ifd.next_ifd_offset, 0);
    assert_eq!(consumed, 30);
}

#[test]
fn ifd_fails_when_one_byte_short() {
    let mut buf = 2u16.to_be_bytes().to_vec();
    push_entry_be(&mut buf, 256, 3, 1, 64);
    push_entry_be(&mut buf, 257, 3, 1, 32);
    buf.extend_from_slice(&0u32.to_be_bytes());
    buf.pop();
    assert_eq!(
        parse_ifd(&buf, TiffByteOrder::BigEndian, 0),
        Err(TiffError::TruncatedInput)
    );
}

#[test]
fn ifd_fails_when_entry_region_truncated() {
    let mut buf = 2u16.to_be_bytes().to_vec();
    push_entry_be(&mut buf, 256, 3, 1, 64);
    assert_eq!(
        parse_ifd(&buf, TiffByteOrder::BigEndian, 0),
        Err(TiffError::TruncatedInput)
    );
}

#[test]
fn ifd_decodes_with_zero_entries() {
    let mut buf = 0u16.to_be_bytes().to_vec();
    buf.extend_from_slice(&0u32.to_be_bytes());
    let (ifd, consumed) = parse_ifd(&buf, TiffByteOrder::BigEndian, 0).unwrap();
    assert_eq!(ifd.num_entries, 0);
    assert!(ifd.directory_entries.is_empty());
    assert_eq!(consumed, 6);
}

#[test]
fn ifd_propagates_unknown_tag() {
    let mut buf = 1u16.to_be_bytes().to_vec();
    push_entry_be(&mut buf, 3, 3, 1, 64);
    buf.extend_from_slice(&0u32.to_be_bytes());
    assert_eq!(
        parse_ifd(&buf, TiffByteOrder::BigEndian, 0),
        Err(TiffError::UnknownTag)
    );
}

#[test]
fn tiff_decodes_header_without_ifds() {
    let buf = [0x4D, 0x4D, 0x00, 0x2A, 0x00, 0x00, 0x00, 0x00];
    let file = parse_tiff(&buf).unwrap();
    assert_eq!(file.header.byte_order, TiffByteOrder::BigEndian);
    assert_eq!(file.header.first_ifd_offset, 0);
    assert!(file.ifds.is_empty());
}

#[test]
fn tiff_decodes_one_ifd() {
    let buf = file_with_ifds_be(&[0]);
    let file = parse_tiff(&buf).unwrap();
    assert_eq!(file.ifds.len(), 1);
    assert_eq!(file.ifds[0].num_entries, 1);
    assert_eq!(file.ifds[0].directory_entries[0].tag, TiffTag::ImageWidth);
    assert_eq!(file.ifds[0].next_ifd_offset, 0);
}

#[test]
fn tiff_follows_two_ifd_chain() {
    let buf = file_with_ifds_be(&[26, 0]);
    let file = parse_tiff(&buf).unwrap();
    assert_eq!(file.ifds.len(), 2);
    assert_eq!(file.ifds[0].next_ifd_offset, 26);
    assert_eq!(file.ifds[1].next_ifd_offset, 0);
}

#[test]
fn tiff_rejects_ifd_cycle() {
    let buf = file_with_ifds_be(&[26, 8]);
    assert_eq!(parse_tiff(&buf), Err(TiffError::IfdCycleDetected));
}

#[test]
fn tiff_rejects_self_cycle() {
    let buf = file_with_ifds_be(&[8]);
    assert_eq!(parse_tiff(&buf), Err(TiffError::IfdCycleDetected));
}

#[test]
fn tiff_rejects_out_of_bounds_ifd_offset() {
    let buf = [0x4D, 0x4D, 0x00, 0x2A, 0x00, 0x00, 0x01, 0x00];
    assert_eq!(parse_tiff(&buf), Err(TiffError::TruncatedInput));
}

#[test]
fn decoding_twice_gives_equal_results() {
    let buf = file_with_ifds_be(&[26, 0]);
    let first = parse_tiff(&buf).unwrap();
    let second = parse_tiff(&buf).unwrap();
    assert_eq!(first.header, second.header);
    assert_eq!(first.ifds, second.ifds);
}
