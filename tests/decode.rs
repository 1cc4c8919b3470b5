use garminfit::base::{BaseType, Endian, Value};
use garminfit::bits::{bit_range, is_bit_not_set, is_bit_set};
use garminfit::crc::crc;
use garminfit::error::Error;
use garminfit::field::{Rational, Scale};
use garminfit::file::File;
use garminfit::messages::{FileId, Message, Record as RecordMesg};
use garminfit::record::{Architecture, Header, Message as Content};

/// A FIT file around `records`, with header and trailing CRCs filled in.
fn fit_file(header_size: u8, records: &[u8]) -> Vec<u8> {
    let mut b = vec![header_size, 0x10, 0x66, 0x14];
    b.extend_from_slice(&(records.len() as u32).to_le_bytes());
    b.extend_from_slice(b".FIT");
    if header_size == 14 {
        let c = crc(&b);
        b.extend_from_slice(&c.to_le_bytes());
    }
    b.extend_from_slice(records);
    let c = crc(&b);
    b.extend_from_slice(&c.to_le_bytes());
    b
}

fn file_id_records() -> Vec<u8> {
    let mut r = vec![
        0x40, 0x00, 0x00, 0x00, 0x00, 0x07, // definition, slot 0, little-endian, mesg 0, 7 fields
        0x00, 0x01, 0x00, // type: enum
        0x01, 0x02, 0x84, // manufacturer: uint16
        0x02, 0x02, 0x84, // product: uint16
        0x03, 0x04, 0x8C, // serial number: uint32z
        0x04, 0x04, 0x86, // time created: uint32
        0x05, 0x02, 0x84, // number: uint16
        0x08, 0x08, 0x07, // product name: string
    ];
    r.extend_from_slice(&[0x00, 0x04, 0x01, 0x00, 0xDC, 0x05]);
    r.extend_from_slice(&[0x39, 0x30, 0x00, 0x00, 0x00, 0x10, 0x00, 0x00, 0x07, 0x00]);
    r.extend_from_slice(b"Edge\0\0\0\0");
    r
}

fn data_of(c: &Content) -> &Vec<Message> {
    match c {
        Content::Data(d) => &d.0,
        Content::CompressedTimestamp(d) => &d.0,
        Content::Definition(_) => panic!("not a data record"),
    }
}

fn raw_u16(m: &Message) -> u16 {
    match m {
        Message::Record(RecordMesg::Altitude(f)) => match f.raw_value {
            Value::Uint16(v) => v,
            _ => panic!("not a uint16"),
        },
        _ => panic!("not an altitude"),
    }
}

#[test]
fn crc_of_check_string() {
    assert_eq!(crc(b"123456789"), 0xBB3D);
    assert_eq!(crc(b""), 0);
}

#[test]
fn bit_helpers() {
    assert!(is_bit_set(0x80, 7));
    assert!(is_bit_not_set(0x7F, 7));
    assert_eq!(bit_range(0xA3, 5, 6), 1);
    assert_eq!(bit_range(0xA3, 0, 4), 3);
    assert_eq!(bit_range(0xFF, 0, 7), 0xFF);
}

#[test]
fn header_bits() {
    assert_eq!(Header::decode(0x40), Header::Definition { local_mesg_num: 0, has_dev_fields: false });
    assert_eq!(Header::decode(0x65), Header::Definition { local_mesg_num: 5, has_dev_fields: true });
    assert_eq!(Header::decode(0x03), Header::Data { local_mesg_num: 3 });
    assert_eq!(Header::decode(0x0F).local_mesg_num(), 15);
}

#[test]
fn compressed_timestamp_header() {
    let h = Header::decode(0xA3);
    assert_eq!(h, Header::CompressedTimestamp { local_mesg_num: 1, time_offset: 3 });
    assert_eq!(h.local_mesg_num(), 1);
}

#[test]
fn minimal_file_id() {
    let bytes = fit_file(12, &file_id_records());
    let f = File::decode(&bytes).unwrap();
    assert_eq!(f.header.header_size, 12);
    assert_eq!(f.header.protocol_version, 0x10);
    assert_eq!(f.header.profile_version, 0x1466);
    assert_eq!(f.header.data_size, 51);
    assert_eq!(f.records.len(), 2);
    assert!(matches!(f.records[0].content, Content::Definition(_)));
    let ms = data_of(&f.records[1].content);
    assert_eq!(ms.len(), 7);
    assert!(matches!(&ms[0], Message::FileId(FileId::Type(x)) if matches!(x.raw_value, Value::Enum(4))));
    assert!(matches!(&ms[1], Message::FileId(FileId::Manufacturer(x)) if matches!(x.raw_value, Value::Uint16(1))));
    assert!(matches!(&ms[2], Message::FileId(FileId::Product(x)) if matches!(x.raw_value, Value::Uint16(1500))));
    assert!(matches!(&ms[3], Message::FileId(FileId::SerialNumber(x)) if matches!(x.raw_value, Value::Uint32z(12345))));
    assert!(matches!(&ms[4], Message::FileId(FileId::TimeCreated(x)) if matches!(x.raw_value, Value::Uint32(0x1000))));
    assert!(matches!(&ms[5], Message::FileId(FileId::Number(x)) if matches!(x.raw_value, Value::Uint16(7))));
    match &ms[6] {
        Message::FileId(FileId::ProductName(x)) => match &x.raw_value {
            Value::Utf8String(s) => assert_eq!(s, "Edge"),
            _ => panic!("not a string"),
        },
        _ => panic!("not a product name"),
    }
}

#[test]
fn fourteen_byte_header_accepted() {
    let bytes = fit_file(14, &file_id_records());
    let f = File::decode(&bytes).unwrap();
    assert_eq!(f.header.header_size, 14);
    assert!(f.header.crc.is_some());
    assert_eq!(f.records.len(), 2);
    let mut zero_crc = bytes.clone();
    zero_crc[12] = 0;
    zero_crc[13] = 0;
    let n = zero_crc.len();
    let c = crc(&zero_crc[..n - 2]);
    zero_crc[n - 2..].copy_from_slice(&c.to_le_bytes());
    assert!(File::decode(&zero_crc).is_ok());
}

#[test]
fn bad_header_crc() {
    let mut bytes = fit_file(14, &file_id_records());
    bytes[12] ^= 0x01;
    assert!(matches!(File::decode(&bytes), Err(Error::BadCrc { .. })));
}

#[test]
fn record_altitude_scaling() {
    let m = Message::decode(&[0xC4, 0x09], 20, 2, Endian::Little).unwrap();
    match m {
        Message::Record(RecordMesg::Altitude(f)) => {
            assert!(matches!(f.raw_value, Value::Uint16(2500)));
            assert_eq!(f.scale, Some(Scale { num: 5, den: 1 }));
            assert_eq!(f.offset, Some(500));
            assert_eq!(f.units, Some("m"));
            let v = f.value().unwrap();
            assert_eq!(v, Rational { num: 0, den: 5 });
            assert_eq!(v.num as f64 / v.den as f64, 0.0);
        },
        _ => panic!("not an altitude"),
    }
}

#[test]
fn value_formula_examples() {
    // speed: uint16, scale 1000, m/s
    let m = Message::decode(&[0x88, 0x13], 20, 6, Endian::Little).unwrap();
    match m {
        Message::Record(RecordMesg::Speed(f)) => assert_eq!(f.value(), Some(Rational { num: 5000, den: 1000 })),
        _ => panic!("not a speed"),
    }
    // grade: sint16, scale 100, read big-endian
    let m = Message::decode(&[0xFF, 0x38], 20, 9, Endian::Big).unwrap();
    match m {
        Message::Record(RecordMesg::Grade(f)) => {
            assert!(matches!(f.raw_value, Value::Sint16(-200)));
            assert_eq!(f.value(), Some(Rational { num: -200, den: 100 }));
        },
        _ => panic!("not a grade"),
    }
    // a string has no numeric reading
    let m = Message::decode(b"abc", 0, 8, Endian::Little).unwrap();
    match m {
        Message::FileId(FileId::ProductName(f)) => assert_eq!(f.value(), None),
        _ => panic!("not a product name"),
    }
}

#[test]
fn invalid_heart_rate_sentinel() {
    let m = Message::decode(&[0xFF], 20, 3, Endian::Little).unwrap();
    match m {
        Message::Record(RecordMesg::HeartRate(f)) => {
            assert!(matches!(f.raw_value, Value::Uint8(0xFF)));
            assert!(!f.is_valid());
        },
        _ => panic!("not a heart rate"),
    }
    let m = Message::decode(&[0x8C], 20, 3, Endian::Little).unwrap();
    match m {
        Message::Record(RecordMesg::HeartRate(f)) => assert!(f.is_valid()),
        _ => panic!("not a heart rate"),
    }
}

#[test]
fn endian_swap_between_slots() {
    let records = [
        0x40, 0x00, 0x00, 0x14, 0x00, 0x01, 0x02, 0x02, 0x84, // slot 0, little-endian, mesg 20
        0x41, 0x00, 0x01, 0x00, 0x14, 0x01, 0x02, 0x02, 0x84, // slot 1, big-endian, mesg 20
        0x00, 0xC4, 0x09, // data on slot 0
        0x01, 0x09, 0xC4, // data on slot 1
    ];
    let f = File::decode(&fit_file(12, &records)).unwrap();
    assert_eq!(f.records.len(), 4);
    match &f.records[1].content {
        Content::Definition(d) => {
            assert_eq!(d.arch, Architecture::BigEndian);
            assert_eq!(d.global_mesg_num, 20);
        },
        _ => panic!("not a definition"),
    }
    assert_eq!(raw_u16(&data_of(&f.records[2].content)[0]), 2500);
    assert_eq!(raw_u16(&data_of(&f.records[3].content)[0]), 2500);
}

#[test]
fn developer_fields_kept_raw() {
    let records = [
        0x60, 0x00, 0x00, 0x14, 0x00, 0x01, 0x03, 0x01, 0x02, // slot 0 with developer fields, mesg 20, heart rate
        0x01, 0x07, 0x02, 0x00, // one developer field: number 7, two bytes, developer data index 0
        0x00, 0x96, 0xAB, 0xCD,
    ];
    let f = File::decode(&fit_file(12, &records)).unwrap();
    match &f.records[0].content {
        Content::Definition(d) => assert_eq!(d.devfield_defs.as_ref().map(|v| v.len()), Some(1)),
        _ => panic!("not a definition"),
    }
    let ms = data_of(&f.records[1].content);
    assert_eq!(ms.len(), 2);
    assert!(matches!(&ms[0], Message::Record(RecordMesg::HeartRate(x)) if matches!(x.raw_value, Value::Uint8(150))));
    match &ms[1] {
        Message::UnknownDeveloperField { data, mesg_num, developer_data_index, field_def_num } => {
            assert_eq!(data, &vec![0xAB, 0xCD]);
            assert_eq!(*mesg_num, 20);
            assert_eq!(*developer_data_index, 0);
            assert_eq!(*field_def_num, 7);
        },
        _ => panic!("not a developer field"),
    }
}

#[test]
fn compressed_timestamp_record() {
    let records = [
        0x41, 0x00, 0x00, 0x14, 0x00, 0x01, 0x03, 0x01, 0x02, // slot 1, mesg 20, heart rate
        0xA3, 0x78, // compressed timestamp on slot 1, offset 3 s
    ];
    let f = File::decode(&fit_file(12, &records)).unwrap();
    assert_eq!(f.records.len(), 2);
    assert_eq!(f.records[1].header, Header::CompressedTimestamp { local_mesg_num: 1, time_offset: 3 });
    match &f.records[1].content {
        Content::CompressedTimestamp(d) => {
            assert_eq!(d.0.len(), 1);
            assert!(matches!(&d.0[0], Message::Record(RecordMesg::HeartRate(x)) if matches!(x.raw_value, Value::Uint8(120))));
        },
        _ => panic!("not a compressed-timestamp record"),
    }
}

#[test]
fn unknown_message_number() {
    let m = Message::decode(&[1, 2, 3], 9999, 5, Endian::Little).unwrap();
    match m {
        Message::Unknown { data, mesg_num, field_def_num } => {
            assert_eq!(data, vec![1, 2, 3]);
            assert_eq!(mesg_num, 9999);
            assert_eq!(field_def_num, 5);
        },
        _ => panic!("not unknown"),
    }
}

#[test]
fn unknown_field_number() {
    let m = Message::decode(&[1, 2], 20, 200, Endian::Little).unwrap();
    match m {
        Message::Record(RecordMesg::Unknown { data, field_def_num }) => {
            assert_eq!(data, vec![1, 2]);
            assert_eq!(field_def_num, 200);
        },
        _ => panic!("not an unknown record field"),
    }
}

#[test]
fn unknown_architecture() {
    let records = [0x40, 0x00, 0x02, 0x14, 0x00, 0x00];
    assert_eq!(File::decode(&fit_file(12, &records)).unwrap_err(), Error::UnknownArchitecture(2));
    assert_eq!(Architecture::try_from(1), Ok(Architecture::BigEndian));
    assert_eq!(Architecture::try_from(7), Err(Error::UnknownArchitecture(7)));
}

#[test]
fn missing_definition() {
    let records = [0x03, 0x00];
    assert_eq!(File::decode(&fit_file(12, &records)).unwrap_err(), Error::MissingDefinition(3));
    let records = [0xC0, 0x00];
    assert_eq!(File::decode(&fit_file(12, &records)).unwrap_err(), Error::MissingDefinition(2));
}

#[test]
fn redefinition_replaces_slot() {
    let records = [
        0x40, 0x00, 0x00, 0x14, 0x00, 0x01, 0x03, 0x01, 0x02, // slot 0: heart rate
        0x40, 0x00, 0x00, 0x14, 0x00, 0x01, 0x02, 0x02, 0x84, // slot 0 again: altitude
        0x00, 0xC4, 0x09,
    ];
    let f = File::decode(&fit_file(12, &records)).unwrap();
    assert_eq!(raw_u16(&data_of(&f.records[2].content)[0]), 2500);
}

#[test]
fn bad_signature_and_sizes() {
    let mut bytes = fit_file(12, &file_id_records());
    bytes[9] = b'X';
    assert_eq!(File::decode(&bytes).unwrap_err(), Error::BadSignature);
    let mut bytes = fit_file(12, &file_id_records());
    bytes[0] = 13;
    assert_eq!(File::decode(&bytes).unwrap_err(), Error::BadHeaderSize(13));
    assert_eq!(File::decode(&[12, 0x10]).unwrap_err(), Error::UnexpectedEof);
}

#[test]
fn truncated_and_overrunning_data() {
    let bytes = fit_file(12, &file_id_records());
    assert_eq!(File::decode(&bytes[..bytes.len() - 1]).unwrap_err(), Error::UnexpectedEof);
    // a data size one byte short leaves the last field run unfinished
    let mut records = file_id_records();
    records.pop();
    let mut bytes = fit_file(12, &records);
    let n = bytes.len();
    bytes.insert(n - 2, 0);
    assert_eq!(File::decode(&bytes).unwrap_err(), Error::UnexpectedEof);
}

#[test]
fn bad_trailing_crc() {
    let mut bytes = fit_file(12, &file_id_records());
    let n = bytes.len();
    let expected = u16::from_le_bytes([bytes[n - 2], bytes[n - 1]]) ^ 0x5555;
    bytes[n - 2..].copy_from_slice(&expected.to_le_bytes());
    let actual = crc(&bytes[..n - 2]);
    assert_eq!(File::decode(&bytes).unwrap_err(), Error::BadCrc { expected, actual });
}

#[test]
fn decoding_twice_gives_same_records() {
    let bytes = fit_file(14, &file_id_records());
    let a = File::decode(&bytes).unwrap();
    let b = File::decode(&bytes).unwrap();
    assert_eq!(format!("{:?}", a), format!("{:?}", b));
}

#[test]
fn string_errors_and_trimming() {
    assert_eq!(Message::decode(&[0xFF, 0xFE], 0, 8, Endian::Little).unwrap_err(), Error::InvalidEncoding);
    let m = Message::decode("Fénix\0x".as_bytes(), 0, 8, Endian::Little).unwrap();
    match m {
        Message::FileId(FileId::ProductName(f)) => match &f.raw_value {
            Value::Utf8String(s) => assert_eq!(s, "Fénix"),
            _ => panic!("not a string"),
        },
        _ => panic!("not a product name"),
    }
}

#[test]
fn field_too_short() {
    assert_eq!(
        Message::decode(&[1], 20, 2, Endian::Little).unwrap_err(),
        Error::FieldTooShort { size: 1, width: 2 }
    );
}

#[test]
fn base_values_and_sentinels() {
    let v = garminfit::base::decode_value(BaseType::Uint32, &[1, 2, 3, 4], Endian::Big).unwrap();
    assert!(matches!(v, Value::Uint32(0x01020304)));
    let v = garminfit::base::decode_value(BaseType::Uint32, &[1, 2, 3, 4], Endian::Little).unwrap();
    assert!(matches!(v, Value::Uint32(0x04030201)));
    let v = garminfit::base::decode_value(BaseType::Sint64, &[0xFF; 8], Endian::Little).unwrap();
    assert!(matches!(v, Value::Sint64(-1)));
    let v = garminfit::base::decode_value(BaseType::Uint64, &[0, 0, 0, 0, 0, 0, 0, 1], Endian::Big).unwrap();
    assert!(matches!(v, Value::Uint64(1)));
    let v = garminfit::base::decode_value(BaseType::Float32, &1.5f32.to_le_bytes(), Endian::Little).unwrap();
    match v {
        Value::Float32(bits) => assert_eq!(f32::from_bits(bits), 1.5),
        _ => panic!("not a float"),
    }
    assert!(!Value::Float32(f32::NAN.to_bits()).is_valid());
    assert!(Value::Float64(2.0f64.to_bits()).is_valid());
    assert!(!Value::Uint8z(0).is_valid());
    assert!(!Value::Sint8(0x7F).is_valid());
    assert!(!Value::Bytes(vec![0xFF, 0xFF]).is_valid());
    assert!(Value::Bytes(vec![0xFF, 0x00]).is_valid());
    assert!(!Value::Utf8String(String::new()).is_valid());
    let v = garminfit::base::decode_value(BaseType::Uint16, &[0x34, 0x12, 0x99], Endian::Little).unwrap();
    assert!(matches!(v, Value::Uint16(0x1234)));
}
