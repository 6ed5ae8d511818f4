use vlan_tagging::big_endian::{read_u16_from, write_u16_to};
use vlan_tagging::errors::{max_check_u16, max_check_u8};
use vlan_tagging::{
    ByteReader, DoubleVlanHeader, ErrorField, EtherType, IoError, ReadError, SingleVlanHeader,
    ValueError, WriteError,
};

fn tag(pcp: u8, dei: bool, vid: u16, ether_type: u16) -> SingleVlanHeader {
    SingleVlanHeader {
        priority_code_point: pcp,
        drop_eligible_indicator: dei,
        vlan_identifier: vid,
        ether_type,
    }
}

#[test]
fn single_write_gives_the_documented_bytes() {
    let header = tag(2, true, 1234, 0x0800);
    let mut buffer = Vec::new();
    assert_eq!(header.write(&mut buffer), Ok(()));
    assert_eq!(buffer, vec![0x54, 0xD2, 0x08, 0x00]);

    let mut reader = ByteReader::new(&buffer);
    assert_eq!(SingleVlanHeader::read(&mut reader), Ok(header));
    assert_eq!(reader.position(), 4);
}

#[test]
fn single_write_appends_to_what_is_there() {
    let mut buffer = vec![0xAA, 0xBB];
    assert_eq!(tag(7, false, 0xfff, 0x86dd).write(&mut buffer), Ok(()));
    assert_eq!(buffer, vec![0xAA, 0xBB, 0xEF, 0xFF, 0x86, 0xDD]);
}

#[test]
fn single_write_of_all_zero_and_all_one_fields() {
    let mut buffer = Vec::new();
    tag(0, false, 0, 0).write(&mut buffer).unwrap();
    assert_eq!(buffer, vec![0, 0, 0, 0]);

    let mut buffer = Vec::new();
    tag(7, true, 4095, 0xffff).write(&mut buffer).unwrap();
    assert_eq!(buffer, vec![0xff, 0xff, 0xff, 0xff]);

    let mut buffer = Vec::new();
    tag(0, true, 0, 0).write(&mut buffer).unwrap();
    assert_eq!(buffer, vec![0x10, 0, 0, 0]);

    let mut buffer = Vec::new();
    tag(1, false, 0, 0).write(&mut buffer).unwrap();
    assert_eq!(buffer, vec![0x20, 0, 0, 0]);

    let mut buffer = Vec::new();
    tag(0, false, 0x0102, 0x0304).write(&mut buffer).unwrap();
    assert_eq!(buffer, vec![0x01, 0x02, 0x03, 0x04]);
}

#[test]
fn single_read_takes_each_field_from_its_bits() {
    let bytes = [0b1011_0110u8, 0x7c, 0x12, 0x34];
    let mut reader = ByteReader::new(&bytes);
    let header = SingleVlanHeader::read(&mut reader).unwrap();
    assert_eq!(header.priority_code_point, 0b101);
    assert!(header.drop_eligible_indicator);
    assert_eq!(header.vlan_identifier, 0x67c);
    assert_eq!(header.ether_type, 0x1234);

    let bytes = [0b0100_1111u8, 0x00, 0xff, 0x01];
    let mut reader = ByteReader::new(&bytes);
    let header = SingleVlanHeader::read(&mut reader).unwrap();
    assert_eq!(header, tag(2, false, 0xf00, 0xff01));
}

#[test]
fn single_round_trip_over_every_tag_control_value() {
    for pcp in 0..=7u8 {
        for dei in [false, true] {
            for vid in 0..=4095u16 {
                let ether_type: u16 = vid.wrapping_mul(16).wrapping_add(pcp as u16);
                let header = tag(pcp, dei, vid, ether_type);
                let mut buffer = Vec::new();
                assert_eq!(header.write(&mut buffer), Ok(()));
                assert_eq!(buffer.len(), 4);
                let mut reader = ByteReader::new(&buffer);
                assert_eq!(SingleVlanHeader::read(&mut reader), Ok(header));
                assert_eq!(reader.position(), 4);
            }
        }
    }
}

#[test]
fn single_read_then_write_gives_the_bytes_back() {
    for first in 0..=255u8 {
        for second in [0u8, 1, 0x7f, 0x80, 0xff] {
            let bytes = [first, second, second.wrapping_add(3), first];
            let mut reader = ByteReader::new(&bytes);
            let header = SingleVlanHeader::read(&mut reader).unwrap();
            assert!(header.priority_code_point <= 7);
            assert!(header.vlan_identifier <= 4095);
            let mut buffer = Vec::new();
            header.write(&mut buffer).unwrap();
            assert_eq!(buffer, bytes);
        }
    }
}

#[test]
fn single_write_validation_boundary() {
    let mut buffer = Vec::new();
    assert_eq!(tag(7, false, 1, 2).write(&mut buffer), Ok(()));
    assert_eq!(buffer.len(), 4);

    let mut buffer = Vec::new();
    assert_eq!(
        tag(8, false, 1, 2).write(&mut buffer),
        Err(WriteError::ValueError(ValueError::U8TooLarge {
            value: 8,
            max: 7,
            field: ErrorField::VlanTagPriorityCodePoint
        }))
    );
    assert!(buffer.is_empty());

    let mut buffer = Vec::new();
    assert_eq!(tag(0, true, 4095, 2).write(&mut buffer), Ok(()));
    assert_eq!(buffer.len(), 4);

    let mut buffer = Vec::new();
    assert_eq!(
        tag(0, true, 4096, 2).write(&mut buffer),
        Err(WriteError::ValueError(ValueError::U16TooLarge {
            value: 4096,
            max: 4095,
            field: ErrorField::VlanTagVlanId
        }))
    );
    assert!(buffer.is_empty());
}

#[test]
fn single_write_reports_the_priority_code_point_first() {
    let mut buffer = vec![9u8];
    assert_eq!(
        tag(255, true, 0xffff, 2).write(&mut buffer),
        Err(WriteError::ValueError(ValueError::U8TooLarge {
            value: 255,
            max: 7,
            field: ErrorField::VlanTagPriorityCodePoint
        }))
    );
    assert_eq!(buffer, vec![9u8]);
}

#[test]
fn single_read_of_a_short_source() {
    let bytes = [0x54u8, 0xD2, 0x08, 0x00];
    let consumed_after_failure = [0usize, 0, 2, 2];
    for len in 0..4 {
        let mut reader = ByteReader::new(&bytes[..len]);
        assert_eq!(
            SingleVlanHeader::read(&mut reader),
            Err(IoError::UnexpectedEof)
        );
        assert_eq!(reader.position(), consumed_after_failure[len]);
    }
}

#[test]
fn single_read_leaves_what_follows_the_header() {
    let bytes = [0x54u8, 0xD2, 0x08, 0x00, 0x20, 0x01, 0x86, 0xdd, 0x99];
    let mut reader = ByteReader::new(&bytes);
    assert_eq!(
        SingleVlanHeader::read(&mut reader),
        Ok(tag(2, true, 1234, 0x0800))
    );
    assert_eq!(reader.position(), 4);
    assert_eq!(
        SingleVlanHeader::read(&mut reader),
        Ok(tag(1, false, 1, 0x86dd))
    );
    assert_eq!(reader.position(), 8);
    assert_eq!(
        SingleVlanHeader::read(&mut reader),
        Err(IoError::UnexpectedEof)
    );
    assert_eq!(reader.position(), 8);
}

#[test]
fn default_header_is_all_zero() {
    assert_eq!(SingleVlanHeader::default(), tag(0, false, 0, 0));
}

#[test]
fn serialized_sizes() {
    assert_eq!(SingleVlanHeader::SERIALIZED_SIZE, 4);
    assert_eq!(DoubleVlanHeader::SERIALIZED_SIZE, 8);
}

#[test]
fn double_write_gives_outer_then_inner() {
    let header = DoubleVlanHeader {
        outer: tag(0, false, 0x321, 0x8100),
        inner: tag(1, false, 0x456, 0x0800),
    };
    let mut buffer = Vec::new();
    assert_eq!(header.write(&mut buffer), Ok(()));
    assert_eq!(buffer, vec![0x03, 0x21, 0x81, 0x00, 0x24, 0x56, 0x08, 0x00]);

    let mut reader = ByteReader::new(&buffer);
    assert_eq!(DoubleVlanHeader::read(&mut reader), Ok(header));
    assert_eq!(reader.position(), 8);
}

#[test]
fn double_round_trip_over_many_values() {
    for pcp in 0..=7u8 {
        for vid in [0u16, 1, 255, 256, 0x800, 4095] {
            for dei in [false, true] {
                let header = DoubleVlanHeader {
                    outer: tag(pcp, dei, vid, EtherType::VlanTaggedFrame.value()),
                    inner: tag(7 - pcp, !dei, 4095 - vid, vid.wrapping_mul(13)),
                };
                let mut buffer = Vec::new();
                assert_eq!(header.write(&mut buffer), Ok(()));
                assert_eq!(buffer.len(), 8);
                buffer.push(0x42);
                let mut reader = ByteReader::new(&buffer);
                assert_eq!(DoubleVlanHeader::read(&mut reader), Ok(header));
                assert_eq!(reader.position(), 8);
            }
        }
    }
}

#[test]
fn double_read_stops_after_an_unexpected_outer_tag() {
    let bytes = [0x03u8, 0x21, 0x88, 0xA8, 0x24, 0x56, 0x08, 0x00];
    let mut reader = ByteReader::new(&bytes);
    assert_eq!(
        DoubleVlanHeader::read(&mut reader),
        Err(ReadError::VlanDoubleTaggingUnexpectedOuterTpid(0x88A8))
    );
    assert_eq!(reader.position(), 4);
    // the inner tag is still there to be read
    assert_eq!(
        SingleVlanHeader::read(&mut reader),
        Ok(tag(1, false, 0x456, 0x0800))
    );
}

#[test]
fn double_read_reports_the_outer_tag_before_a_missing_inner_tag() {
    let bytes = [0x03u8, 0x21, 0x00, 0x01];
    let mut reader = ByteReader::new(&bytes);
    assert_eq!(
        DoubleVlanHeader::read(&mut reader),
        Err(ReadError::VlanDoubleTaggingUnexpectedOuterTpid(1))
    );
    assert_eq!(reader.position(), 4);
}

#[test]
fn double_read_of_a_short_source() {
    let bytes = [0x03u8, 0x21, 0x81, 0x00, 0x24, 0x56, 0x08, 0x00];
    let consumed_after_failure = [0usize, 0, 2, 2, 4, 4, 6, 6];
    for len in 0..8 {
        let mut reader = ByteReader::new(&bytes[..len]);
        assert_eq!(
            DoubleVlanHeader::read(&mut reader),
            Err(ReadError::IoError(IoError::UnexpectedEof))
        );
        assert_eq!(reader.position(), consumed_after_failure[len]);
    }
}

#[test]
fn double_read_does_not_check_the_inner_ether_type() {
    let bytes = [0x03u8, 0x21, 0x81, 0x00, 0x24, 0x56, 0x00, 0x01];
    let mut reader = ByteReader::new(&bytes);
    let header = DoubleVlanHeader::read(&mut reader).unwrap();
    assert_eq!(header.inner.ether_type, 1);
}

#[test]
fn double_write_with_an_invalid_outer_tag_writes_nothing() {
    let header = DoubleVlanHeader {
        outer: tag(8, false, 0x321, 0x8100),
        inner: tag(1, false, 0x456, 0x0800),
    };
    let mut buffer = vec![1u8, 2];
    assert_eq!(
        header.write(&mut buffer),
        Err(WriteError::ValueError(ValueError::U8TooLarge {
            value: 8,
            max: 7,
            field: ErrorField::VlanTagPriorityCodePoint
        }))
    );
    assert_eq!(buffer, vec![1u8, 2]);
}

#[test]
fn double_write_with_an_invalid_inner_tag_has_written_the_outer_tag() {
    let header = DoubleVlanHeader {
        outer: tag(0, false, 0x321, 0x8100),
        inner: tag(1, false, 0x1456, 0x0800),
    };
    let mut buffer = Vec::new();
    assert_eq!(
        header.write(&mut buffer),
        Err(WriteError::ValueError(ValueError::U16TooLarge {
            value: 0x1456,
            max: 0xfff,
            field: ErrorField::VlanTagVlanId
        }))
    );
    assert_eq!(buffer, vec![0x03, 0x21, 0x81, 0x00]);
}

#[test]
fn double_write_does_not_check_the_outer_ether_type() {
    let header = DoubleVlanHeader {
        outer: tag(0, false, 0x321, 0x0800),
        inner: tag(1, false, 0x456, 0x0800),
    };
    let mut buffer = Vec::new();
    assert_eq!(header.write(&mut buffer), Ok(()));
    assert_eq!(buffer.len(), 8);
}

#[test]
fn check_outer_accepts_the_tagged_frame_identifier_only() {
    assert_eq!(
        DoubleVlanHeader::check_outer(&tag(0, false, 0, 0x8100)),
        Ok(())
    );
    assert_eq!(
        DoubleVlanHeader::check_outer(&tag(0, false, 0, 0x8101)),
        Err(ReadError::VlanDoubleTaggingUnexpectedOuterTpid(0x8101))
    );
    assert_eq!(
        DoubleVlanHeader::check_outer(&tag(0, false, 0, 0x9100)),
        Err(ReadError::VlanDoubleTaggingUnexpectedOuterTpid(0x9100))
    );
}

#[test]
fn ether_type_values() {
    assert_eq!(EtherType::Ipv4.value(), 0x0800);
    assert_eq!(EtherType::Ipv6.value(), 0x86dd);
    assert_eq!(EtherType::Arp.value(), 0x0806);
    assert_eq!(EtherType::WakeOnLan.value(), 0x0842);
    assert_eq!(EtherType::VlanTaggedFrame.value(), 0x8100);
    assert_eq!(EtherType::ProviderBridging.value(), 0x88A8);
    assert_eq!(EtherType::VlanDoubleTaggedFrame.value(), 0x9100);
}

#[test]
fn max_checks_accept_up_to_the_maximum() {
    let field = ErrorField::VlanTagVlanId;
    assert_eq!(max_check_u8(0, 0, field), Ok(()));
    assert_eq!(max_check_u8(7, 7, field), Ok(()));
    assert_eq!(
        max_check_u8(8, 7, field),
        Err(ValueError::U8TooLarge {
            value: 8,
            max: 7,
            field
        })
    );
    assert_eq!(max_check_u16(0xfff, 0xfff, field), Ok(()));
    assert_eq!(
        max_check_u16(0x1000, 0xfff, field),
        Err(ValueError::U16TooLarge {
            value: 0x1000,
            max: 0xfff,
            field
        })
    );
}

#[test]
fn reader_hands_out_bytes_in_order() {
    let bytes = [1u8, 2, 3, 4, 5];
    let mut reader = ByteReader::new(&bytes);
    assert_eq!(reader.position(), 0);

    let mut two = [0u8; 2];
    assert_eq!(reader.read_exact(&mut two), Ok(()));
    assert_eq!(two, [1, 2]);
    assert_eq!(reader.position(), 2);

    let mut none: [u8; 0] = [];
    assert_eq!(reader.read_exact(&mut none), Ok(()));
    assert_eq!(reader.position(), 2);

    let mut four = [9u8; 4];
    assert_eq!(reader.read_exact(&mut four), Err(IoError::UnexpectedEof));
    assert_eq!(four, [9u8; 4]);
    assert_eq!(reader.position(), 2);

    let mut three = [0u8; 3];
    assert_eq!(reader.read_exact(&mut three), Ok(()));
    assert_eq!(three, [3, 4, 5]);
    assert_eq!(reader.position(), 5);

    let mut one = [0u8; 1];
    assert_eq!(reader.read_exact(&mut one), Err(IoError::UnexpectedEof));
    assert_eq!(reader.position(), 5);
}

#[test]
fn big_endian_numbers_from_a_reader() {
    let bytes = [0x02u8, 0x05, 0x03, 0x00, 0xff];
    let mut reader = ByteReader::new(&bytes);
    assert_eq!(read_u16_from(&mut reader), Ok(517));
    assert_eq!(read_u16_from(&mut reader), Ok(768));
    assert_eq!(read_u16_from(&mut reader), Err(IoError::UnexpectedEof));
    assert_eq!(reader.position(), 4);
}

#[test]
fn big_endian_numbers_to_a_writer() {
    let mut buffer = Vec::new();
    write_u16_to(&mut buffer, 517);
    write_u16_to(&mut buffer, 768);
    write_u16_to(&mut buffer, 0xfffe);
    assert_eq!(buffer, vec![0x02, 0x05, 0x03, 0x00, 0xff, 0xfe]);
}
