use tibrv::errors::ErrorKind;
use tibrv::field::{
    tibrv_encode_opaque, tibrv_encode_port, tibrv_try_decode_opaque, tibrv_try_decode_port,
    Builder, DateTime, Decodable, DecodedField, Encodable, F32Bits, F64Bits, FieldData,
    Ipv4Address, MsgField,
};

fn check_u8_array(vals: [u8; 4], size: u32) {
    let array: Vec<u8> = vec![vals[0], vals[1], vals[2], vals[3]];
    let fld = array.tibrv_encode(Some("Array"), None);
    assert_eq!(size, fld.size);
    assert_eq!(4, fld.count);
    match fld.try_decode::<DecodedField>().unwrap() {
        DecodedField::U8Array(slice) => {
            assert_eq!(4, slice.len());
            assert_eq!(vals.to_vec(), slice);
        },
        _ => panic!("Field did not decode as expected"),
    }
}

fn check_i8_array(vals: [i8; 4], size: u32) {
    let array: Vec<i8> = vec![vals[0], vals[1], vals[2], vals[3]];
    let fld = array.tibrv_encode(Some("Array"), None);
    assert_eq!(size, fld.size);
    assert_eq!(4, fld.count);
    match fld.try_decode::<DecodedField>().unwrap() {
        DecodedField::I8Array(slice) => {
            assert_eq!(4, slice.len());
            assert_eq!(vals.to_vec(), slice);
        },
        _ => panic!("Field did not decode as expected"),
    }
}

fn check_u16_array(vals: [u16; 4], size: u32) {
    let array: Vec<u16> = vec![vals[0], vals[1], vals[2], vals[3]];
    let fld = array.tibrv_encode(Some("Array"), None);
    assert_eq!(size, fld.size);
    assert_eq!(4, fld.count);
    match fld.try_decode::<DecodedField>().unwrap() {
        DecodedField::U16Array(slice) => {
            assert_eq!(4, slice.len());
            assert_eq!(vals.to_vec(), slice);
        },
        _ => panic!("Field did not decode as expected"),
    }
}

fn check_i16_array(vals: [i16; 4], size: u32) {
    let array: Vec<i16> = vec![vals[0], vals[1], vals[2], vals[3]];
    let fld = array.tibrv_encode(Some("Array"), None);
    assert_eq!(size, fld.size);
    assert_eq!(4, fld.count);
    match fld.try_decode::<DecodedField>().unwrap() {
        DecodedField::I16Array(slice) => {
            assert_eq!(4, slice.len());
            assert_eq!(vals.to_vec(), slice);
        },
        _ => panic!("Field did not decode as expected"),
    }
}

fn check_u32_array(vals: [u32; 4], size: u32) {
    let array: Vec<u32> = vec![vals[0], vals[1], vals[2], vals[3]];
    let fld = array.tibrv_encode(Some("Array"), None);
    assert_eq!(size, fld.size);
    assert_eq!(4, fld.count);
    match fld.try_decode::<DecodedField>().unwrap() {
        DecodedField::U32Array(slice) => {
            assert_eq!(4, slice.len());
            assert_eq!(vals.to_vec(), slice);
        },
        _ => panic!("Field did not decode as expected"),
    }
}

fn check_i32_array(vals: [i32; 4], size: u32) {
    let array: Vec<i32> = vec![vals[0], vals[1], vals[2], vals[3]];
    let fld = array.tibrv_encode(Some("Array"), None);
    assert_eq!(size, fld.size);
    assert_eq!(4, fld.count);
    match fld.try_decode::<DecodedField>().unwrap() {
        DecodedField::I32Array(slice) => {
            assert_eq!(4, slice.len());
            assert_eq!(vals.to_vec(), slice);
        },
        _ => panic!("Field did not decode as expected"),
    }
}

fn check_u64_array(vals: [u64; 4], size: u32) {
    let array: Vec<u64> = vec![vals[0], vals[1], vals[2], vals[3]];
    let fld = array.tibrv_encode(Some("Array"), None);
    assert_eq!(size, fld.size);
    assert_eq!(4, fld.count);
    match fld.try_decode::<DecodedField>().unwrap() {
        DecodedField::U64Array(slice) => {
            assert_eq!(4, slice.len());
            assert_eq!(vals.to_vec(), slice);
        },
        _ => panic!("Field did not decode as expected"),
    }
}

fn check_i64_array(vals: [i64; 4], size: u32) {
    let array: Vec<i64> = vec![vals[0], vals[1], vals[2], vals[3]];
    let fld = array.tibrv_encode(Some("Array"), None);
    assert_eq!(size, fld.size);
    assert_eq!(4, fld.count);
    match fld.try_decode::<DecodedField>().unwrap() {
        DecodedField::I64Array(slice) => {
            assert_eq!(4, slice.len());
            assert_eq!(vals.to_vec(), slice);
        },
        _ => panic!("Field did not decode as expected"),
    }
}

fn check_f32_array(vals: [f32; 4], size: u32) {
    let array: Vec<F32Bits> = vals.iter().map(|v| F32Bits(v.to_bits())).collect();
    let fld = array.tibrv_encode(Some("Array"), None);
    assert_eq!(size, fld.size);
    assert_eq!(4, fld.count);
    match fld.try_decode::<DecodedField>().unwrap() {
        DecodedField::F32Array(slice) => {
            assert_eq!(4, slice.len());
            for i in 0..4 {
                assert_eq!(vals[i], f32::from_bits(slice[i].0));
            }
        },
        _ => panic!("Field did not decode as expected"),
    }
}

fn check_f64_array(vals: [f64; 4], size: u32) {
    let array: Vec<F64Bits> = vals.iter().map(|v| F64Bits(v.to_bits())).collect();
    let fld = array.tibrv_encode(Some("Array"), None);
    assert_eq!(size, fld.size);
    assert_eq!(4, fld.count);
    match fld.try_decode::<DecodedField>().unwrap() {
        DecodedField::F64Array(slice) => {
            assert_eq!(4, slice.len());
            for i in 0..4 {
                assert_eq!(vals[i], f64::from_bits(slice[i].0));
            }
        },
        _ => panic!("Field did not decode as expected"),
    }
}

#[test]
fn decode_field_arrays() {
    check_u8_array([1u8, 2, 3, 4], 1);
    check_i8_array([-5i8, -6, -7, -8], 1);
    check_u16_array([1u16, 2, 3, 4], 2);
    check_i16_array([-5i16, -6, -7, -8], 2);
    check_u32_array([1u32, 2, 3, 4], 4);
    check_i32_array([-5i32, -6, -7, -8], 4);
    check_u64_array([1u64, 2, 3, 4], 8);
    check_i64_array([-5i64, -6, -7, -8], 8);
    // Floating point
    check_f32_array([1f32, -2f32, 3f32, -4f32], 4);
    check_f64_array([1f64, -2f64, 3f64, -4f64], 8);
}

#[test]
fn field_fixed_width_encode_size() {
    let name = "Fixed Width Scalar";
    let unsigned8: u8 = 0;
    let unsigned16: u16 = 0;
    let unsigned32: u32 = 0;
    let unsigned64: u64 = 0;
    assert_eq!(unsigned8.tibrv_encode(Some(name), Some(0)).size, 1);
    assert_eq!(unsigned16.tibrv_encode(Some(name), Some(0)).size, 2);
    assert_eq!(unsigned32.tibrv_encode(Some(name), Some(0)).size, 4);
    assert_eq!(unsigned64.tibrv_encode(Some(name), Some(0)).size, 8);
}

#[test]
fn fields_fixed_width_encode_size() {
    let name = "Fixed Width Scalar";
    let unsigned8: u8 = 0;
    let unsigned16: u16 = 0;
    let unsigned32: u32 = 0;
    let unsigned64: u64 = 0;
    assert_eq!(unsigned8.tibrv_encode(Some(name), Some(0)).size, 1);
    assert_eq!(unsigned16.tibrv_encode(Some(name), Some(0)).size, 2);
    assert_eq!(unsigned32.tibrv_encode(Some(name), Some(0)).size, 4);
    assert_eq!(unsigned64.tibrv_encode(Some(name), Some(0)).size, 8);
}

#[test]
fn field_primitive_roundtrip() {
    let name = "Primitive Roundtrip";
    let unsigned8: u8 = 0;
    let unsigned16: u16 = 0;
    let unsigned32: u32 = 0;
    let unsigned64: u64 = 0;
    let tib_u8 = unsigned8.tibrv_encode(Some(name), Some(0));
    let tib_u16 = unsigned16.tibrv_encode(Some(name), Some(0));
    let tib_u32 = unsigned32.tibrv_encode(Some(name), Some(0));
    let tib_u64 = unsigned64.tibrv_encode(Some(name), Some(0));
    assert_eq!(unsigned8, u8::tibrv_try_decode(&tib_u8).unwrap());
    assert_eq!(unsigned16, u16::tibrv_try_decode(&tib_u16).unwrap());
    assert_eq!(unsigned32, u32::tibrv_try_decode(&tib_u32).unwrap());
    assert_eq!(unsigned64, u64::tibrv_try_decode(&tib_u64).unwrap());
}

#[test]
fn fields_primitive_roundtrip() {
    let name = "Primitive Roundtrip";
    let unsigned8: u8 = 0;
    let unsigned16: u16 = 0;
    let unsigned32: u32 = 0;
    let unsigned64: u64 = 0;
    let tib_u8 = unsigned8.tibrv_encode(Some(name), Some(0));
    let tib_u16 = unsigned16.tibrv_encode(Some(name), Some(0));
    let tib_u32 = unsigned32.tibrv_encode(Some(name), Some(0));
    let tib_u64 = unsigned64.tibrv_encode(Some(name), Some(0));
    assert_eq!(unsigned8, u8::tibrv_try_decode(&tib_u8).unwrap());
    assert_eq!(unsigned16, u16::tibrv_try_decode(&tib_u16).unwrap());
    assert_eq!(unsigned32, u32::tibrv_try_decode(&tib_u32).unwrap());
    assert_eq!(unsigned64, u64::tibrv_try_decode(&tib_u64).unwrap());
}

#[test]
fn field_test_datetime_encode() {
    let dt = DateTime::from_civil(1970, 1, 1, 1, 0, 0, 0).unwrap();
    let fld = dt.tibrv_encode(Some("DateTime"), Some(0));
    match fld.data {
        FieldData::DateTime(v) => assert_eq!(3600, v.sec),
        _ => panic!("Field did not encode as expected"),
    }
}

#[test]
fn fields_test_datetime_encode() {
    let dt = DateTime::from_civil(1970, 1, 1, 1, 0, 0, 0).unwrap();
    let fld = dt.tibrv_encode(Some("DateTime"), Some(0));
    match fld.data {
        FieldData::DateTime(v) => assert_eq!(3600, v.sec),
        _ => panic!("Field did not encode as expected"),
    }
}

#[test]
fn field_test_datetime_roundtrip() {
    let dt = DateTime::from_civil(2017, 1, 1, 0, 0, 0, 0).unwrap();
    let tibdate = dt.tibrv_encode(Some("Date"), None);
    assert_eq!(dt, DateTime::tibrv_try_decode(&tibdate).unwrap());
}

#[test]
fn fields_test_datetime_roundtrip() {
    let dt = DateTime::from_civil(2017, 1, 1, 0, 0, 0, 0).unwrap();
    let tibdate = dt.tibrv_encode(Some("Date"), None);
    assert_eq!(dt, DateTime::tibrv_try_decode(&tibdate).unwrap());
}

#[test]
fn field_test_ipaddr_encode() {
    let addr = Ipv4Address::new(127, 0, 0, 1);
    let tibaddr = addr.tibrv_encode(Some("IP Address"), None);
    assert_eq!(addr, Ipv4Address::tibrv_try_decode(&tibaddr).unwrap());
}

#[test]
fn fields_test_ipaddr_encode() {
    let addr = Ipv4Address::new(127, 0, 0, 1);
    let tibaddr = addr.tibrv_encode(Some("IP Address"), None);
    assert_eq!(addr, Ipv4Address::tibrv_try_decode(&tibaddr).unwrap());
}

#[test]
fn field_test_ipport_encode() {
    let port: u16 = 1;
    let tibport = tibrv_encode_port(port, Some("Port"), None);
    match tibport.data {
        FieldData::IpPort(raw) => assert_eq!(256, raw),
        _ => panic!("Field did not encode as expected"),
    }
    assert_eq!(port, tibrv_try_decode_port(&tibport).unwrap());
}

#[test]
fn fields_test_ipport_encode() {
    let port: u16 = 1;
    let tibport = tibrv_encode_port(port, Some("Port"), None);
    match tibport.data {
        FieldData::IpPort(raw) => assert_eq!(256, raw),
        _ => panic!("Field did not encode as expected"),
    }
    assert_eq!(port, tibrv_try_decode_port(&tibport).unwrap());
}

#[test]
fn field_u8_array() {
    let array: Vec<u8> = vec![1, 2, 3, 4];
    let msg = array.tibrv_encode(Some("Array"), None);
    assert_eq!(1, msg.size);
    assert_eq!(4, msg.count);

    let slice = Vec::<u8>::tibrv_try_decode(&msg).unwrap();
    assert_eq!(1, slice[0]);
    assert_eq!(2, slice[1]);
    assert_eq!(3, slice[2]);
    assert_eq!(4, slice[3]);
}

#[test]
fn fields_u8_array() {
    let array: Vec<u8> = vec![1, 2, 3, 4];
    let msg = array.tibrv_encode(Some("Array"), None);
    assert_eq!(1, msg.size);
    assert_eq!(4, msg.count);

    let slice = Vec::<u8>::tibrv_try_decode(&msg).unwrap();
    assert_eq!(1, slice[0]);
    assert_eq!(2, slice[1]);
    assert_eq!(3, slice[2]);
    assert_eq!(4, slice[3]);
}

#[test]
fn string_conversion() {
    let name = "Name";
    let sample_string = "Hello world!";
    let other = sample_string.to_string();
    let tib_string = other.tibrv_encode(Some(name), None);

    assert_eq!(sample_string.len() + 1, tib_string.size as usize);
    let decoded = String::tibrv_try_decode(&tib_string).unwrap();
    assert_eq!(sample_string, decoded);
}

#[test]
fn builder() {
    let data: Vec<u64> = vec![1, 2, 3, 4, 5];
    let field = Builder::new(&data).with_name("Name").with_id(4).encode();
    assert_eq!(8, field.size);
    assert_eq!(5, field.count);
}

#[test]
fn scalar_roundtrips_exact() {
    let fld = 250u8.tibrv_encode(Some("v"), None);
    assert_eq!(250u8, u8::tibrv_try_decode(&fld).unwrap());
    let fld = (-120i8).tibrv_encode(Some("v"), None);
    assert_eq!(-120i8, i8::tibrv_try_decode(&fld).unwrap());
    let fld = u16::MAX.tibrv_encode(Some("v"), None);
    assert_eq!(u16::MAX, u16::tibrv_try_decode(&fld).unwrap());
    let fld = i16::MIN.tibrv_encode(Some("v"), None);
    assert_eq!(i16::MIN, i16::tibrv_try_decode(&fld).unwrap());
    let fld = u32::MAX.tibrv_encode(Some("v"), None);
    assert_eq!(u32::MAX, u32::tibrv_try_decode(&fld).unwrap());
    let fld = i32::MIN.tibrv_encode(Some("v"), None);
    assert_eq!(i32::MIN, i32::tibrv_try_decode(&fld).unwrap());
    let fld = u64::MAX.tibrv_encode(Some("v"), None);
    assert_eq!(u64::MAX, u64::tibrv_try_decode(&fld).unwrap());
    let fld = i64::MIN.tibrv_encode(Some("v"), None);
    assert_eq!(i64::MIN, i64::tibrv_try_decode(&fld).unwrap());
    let fld = true.tibrv_encode(Some("v"), None);
    assert_eq!(true, bool::tibrv_try_decode(&fld).unwrap());
    let fld = false.tibrv_encode(Some("v"), None);
    assert_eq!(false, bool::tibrv_try_decode(&fld).unwrap());
}

#[test]
fn float_roundtrips_exact() {
    let v = F32Bits(1.5f32.to_bits());
    let fld = v.tibrv_encode(Some("v"), None);
    let back = F32Bits::tibrv_try_decode(&fld).unwrap();
    assert_eq!(1.5f32, f32::from_bits(back.0));

    let v = F64Bits((-0.125f64).to_bits());
    let fld = v.tibrv_encode(Some("v"), None);
    let back = F64Bits::tibrv_try_decode(&fld).unwrap();
    assert_eq!(-0.125f64, f64::from_bits(back.0));
}

#[test]
fn datetime_roundtrip_nanoseconds() {
    let dt = DateTime::new(1234567890, 987654321);
    let fld = dt.tibrv_encode(Some("when"), None);
    let back = DateTime::tibrv_try_decode(&fld).unwrap();
    assert_eq!(dt, back);
    assert_eq!(987654321, back.nsec);
}

#[test]
fn opaque_roundtrip() {
    let bytes: Vec<u8> = vec![0, 255, 1, 128];
    let fld = tibrv_encode_opaque(&bytes, Some("blob"), None);
    assert_eq!(4, fld.size);
    assert_eq!(1, fld.count);
    assert_eq!(bytes, tibrv_try_decode_opaque(&fld).unwrap());
}

#[test]
fn mismatched_decode_fails() {
    let fld = 7u64.tibrv_encode(Some("u64"), Some(0));
    let r = u32::tibrv_try_decode(&fld);
    assert_eq!(ErrorKind::FieldTypeError, r.unwrap_err().kind());

    let r = String::tibrv_try_decode(&fld);
    assert_eq!(ErrorKind::FieldTypeError, r.unwrap_err().kind());

    let r = Vec::<u64>::tibrv_try_decode(&fld);
    assert_eq!(ErrorKind::FieldTypeError, r.unwrap_err().kind());

    let arr: Vec<u16> = vec![1, 2];
    let fld = arr.tibrv_encode(Some("arr"), None);
    let r = Vec::<u32>::tibrv_try_decode(&fld);
    assert_eq!(ErrorKind::FieldTypeError, r.unwrap_err().kind());
}

#[test]
fn scalar_decode_rejects_vector() {
    let fld = MsgField {
        name: Some("many".to_string()),
        id: 0,
        size: 8,
        count: 3,
        data: FieldData::U64(7),
    };
    let r = u64::tibrv_try_decode(&fld);
    assert_eq!(ErrorKind::NonVectorFieldError, r.unwrap_err().kind());
    let r = tibrv_try_decode_port(&fld);
    assert_eq!(ErrorKind::NonVectorFieldError, r.unwrap_err().kind());
    match fld.try_decode::<DecodedField>() {
        Err(e) => assert_eq!(ErrorKind::NonVectorFieldError, e.kind()),
        Ok(_) => panic!("vector field must not decode through a scalar decoder"),
    }
}

#[test]
fn port_uses_network_byte_order() {
    let fld = tibrv_encode_port(0x1234, Some("Port"), None);
    match fld.data {
        FieldData::IpPort(raw) => assert_eq!(0x3412, raw),
        _ => panic!("Field did not encode as expected"),
    }
    assert_eq!(0x1234, tibrv_try_decode_port(&fld).unwrap());
}
