use tibrv::errors::{ErrorKind, Status};
use tibrv::field::{Builder, Decodable, Encodable, FieldData, MsgField};
use tibrv::message::{BorrowedMsg, Msg};

#[test]
fn create_msg() {
    let msg = Msg::new();
    assert!(msg.is_ok());
}

#[test]
fn iterate_fields() {
    let data = "A string".to_string();
    let mut field = Builder::new(&data).with_name("StringField").encode();

    let slice: Vec<u16> = vec![1, 2, 3, 4];
    let mut field2 = Builder::new(&slice).with_name("Uint16 field").with_id(2).encode();

    let mut msg = Msg::new().unwrap();
    msg.add_field(&mut field).unwrap();
    msg.add_field(&mut field2).unwrap();

    let mut names = vec![];
    let mut iter = msg.iter();
    while let Some(f) = iter.next() {
        names.push(f.unwrap().inner.name.clone().unwrap());
    }

    assert_eq!(2, names.len());
    assert_eq!(&names[..], &["StringField", "Uint16 field"]);
}

#[test]
fn fields_by_index() {
    let data = "A string".to_string();
    let mut field = Builder::new(&data).with_name("StringField").encode();

    let slice: Vec<u16> = vec![1, 2, 3, 4];
    let mut field2 = Builder::new(&slice).with_name("Uint16 field").with_id(2).encode();

    let mut msg = Msg::new().unwrap();
    assert!(msg.add_field(&mut field).is_ok());
    assert!(msg.add_field(&mut field2).is_ok());

    assert_eq!(2, msg.num_fields().unwrap());

    {
        let string_field = msg.get_field_by_index(0);
        assert!(string_field.is_ok());
        let string_field = string_field.unwrap();
        assert!(string_field.inner.name.is_some());
        assert_eq!(string_field.inner.name.as_ref().unwrap(), "StringField");
    }

    {
        let uint16_field = msg.get_field_by_index(1);
        assert!(uint16_field.is_ok());
        let uint16_field = uint16_field.unwrap();
        assert!(uint16_field.inner.name.is_some());
        assert_eq!(uint16_field.inner.name.as_ref().unwrap(), "Uint16 field");
    }

    assert!(msg.get_field_by_index(2).is_err());
}

#[test]
fn field_iter() {
    let data = "A string".to_string();
    let mut field = Builder::new(&data).with_name("StringField").encode();

    let slice: Vec<u16> = vec![1, 2, 3, 4];
    let mut field2 = Builder::new(&slice).with_name("Uint16 field").with_id(2).encode();

    let mut msg = Msg::new().unwrap();
    assert!(msg.add_field(&mut field).is_ok());
    assert!(msg.add_field(&mut field2).is_ok());

    assert_eq!(2, msg.num_fields().unwrap());

    let mut names: Vec<String> = vec![];
    let mut iter = msg.iter();
    while let Some(f) = iter.next() {
        names.push(f.unwrap().inner.name.as_ref().unwrap().clone());
    }
    assert_eq!(names, vec!["StringField", "Uint16 field"]);
}

#[test]
fn add_remove_fields() {
    let data = "A string".to_string();
    let mut field = Builder::new(&data).with_name("StringField").encode();

    let slice: Vec<u16> = vec![1, 2, 3, 4];
    let mut field2 = Builder::new(&slice).with_name("Uint16 field").with_id(2).encode();

    let mut msg = Msg::new().unwrap();
    assert!(msg.add_field(&mut field).is_ok());
    assert!(msg.add_field(&mut field2).is_ok());

    assert_eq!(2, msg.num_fields().unwrap());

    assert!(msg.remove_field_by_id(2).is_ok());
    assert_eq!(1, msg.num_fields().unwrap());

    assert!(msg.remove_field_by_name("StringField").is_ok());
    assert_eq!(0, msg.num_fields().unwrap());
}

#[test]
fn copy_msg() {
    let mut msg = Msg::new().unwrap();
    let slice: Vec<u16> = vec![1, 2, 3, 4];
    let mut field = Builder::new(&slice).with_name("Uint16 field").with_id(2).encode();
    let _ = msg.add_field(&mut field);
    let copy = msg.try_clone().unwrap();
    assert_eq!(34, msg.byte_size().unwrap()); // Both Msgs are populated
    assert_eq!(34, copy.byte_size().unwrap());
}

#[test]
fn roundtrip_slice_msg() {
    let mut msg = Msg::new().unwrap();
    let slice: Vec<u16> = vec![5, 4, 3, 2, 1];
    let mut field = Builder::new(&slice).with_name("slice").encode();
    let _ = msg.add_field(&mut field);
    let extracted = msg.get_field_by_name("slice").unwrap();

    let decoded = Vec::<u16>::tibrv_try_decode(&extracted.inner).unwrap();
    assert_eq!(5, decoded[0]);
}

#[test]
fn roundtrip_string_msg() {
    let mut msg = Msg::new().unwrap();
    let data = "Hello world!".to_string();
    let mut field = Builder::new(&data).with_name("string").encode();
    let _ = msg.add_field(&mut field).unwrap();
    let extracted = msg.get_field_by_name("string").unwrap();
    let decoded = String::tibrv_try_decode(&extracted.inner).unwrap();
    assert_eq!(decoded, data);
}

#[test]
fn empty_size() {
    let msg = Msg::new().unwrap();
    assert_eq!(8, msg.byte_size().unwrap());
}

#[test]
fn field_count_tracks_adds_and_removes() {
    let mut msg = Msg::new().unwrap();
    assert_eq!(0, msg.num_fields().unwrap());

    let mut f1 = Builder::new(&1u32).with_name("one").encode();
    let mut f2 = Builder::new(&2u32).with_name("two").encode();
    let mut f3 = Builder::new(&3u32).with_name("three").encode();
    msg.add_field(&mut f1).unwrap();
    msg.add_field(&mut f2).unwrap();
    msg.add_field(&mut f3).unwrap();
    assert_eq!(3, msg.num_fields().unwrap());

    msg.remove_field_by_name("two").unwrap();
    assert_eq!(2, msg.num_fields().unwrap());
}

#[test]
fn byte_size_strictly_increases() {
    let mut msg = Msg::new().unwrap();
    let baseline = msg.byte_size().unwrap();
    assert_eq!(8, baseline);

    let mut small = Builder::new(&0u8).with_name("a").encode();
    msg.add_field(&mut small).unwrap();
    let after_one = msg.byte_size().unwrap();
    assert!(after_one > baseline);

    let payload: Vec<u8> = vec![9; 10];
    let mut big = Builder::new(&payload).with_name("b").encode();
    msg.add_field(&mut big).unwrap();
    let after_two = msg.byte_size().unwrap();
    assert!(after_two > after_one);
}

#[test]
fn exact_field_costs() {
    // baseline 8, field cost = 5 + name + NUL + element bytes
    let mut msg = Msg::new().unwrap();
    let mut f = Builder::new(&7u32).with_name("abc").encode();
    msg.add_field(&mut f).unwrap();
    assert_eq!(8 + 5 + 4 + 4, msg.byte_size().unwrap());
}

#[test]
fn get_field_by_name_and_id() {
    let mut msg = Msg::new().unwrap();
    let mut f1 = Builder::new(&41u64).with_name("alpha").encode();
    let mut f2 = Builder::new(&42u64).with_name("beta").with_id(7).encode();
    msg.add_field(&mut f1).unwrap();
    msg.add_field(&mut f2).unwrap();

    let by_name = msg.get_field_by_name("alpha").unwrap();
    assert_eq!(41, u64::tibrv_try_decode(&by_name.inner).unwrap());

    let by_id = msg.get_field_by_id(7).unwrap();
    assert_eq!(42, u64::tibrv_try_decode(&by_id.inner).unwrap());

    let missing = msg.get_field_by_name("gamma");
    assert_eq!(
        ErrorKind::UnknownError(Status::NotFound),
        missing.unwrap_err().kind()
    );
}

#[test]
fn nul_in_name_is_rejected() {
    let msg = Msg::new().unwrap();
    let r = msg.get_field_by_name("bad\0name");
    assert_eq!(ErrorKind::StrContentError, r.unwrap_err().kind());
}

#[test]
fn oversized_field_is_rejected() {
    let mut msg = Msg::new().unwrap();
    let mut huge = MsgField {
        name: Some("huge".to_string()),
        id: 0,
        size: u32::MAX,
        count: u32::MAX,
        data: FieldData::U64(0),
    };
    let r = msg.add_field(&mut huge);
    assert_eq!(
        ErrorKind::UnknownError(Status::NoMemory),
        r.unwrap_err().kind()
    );
    assert_eq!(0, msg.num_fields().unwrap());
}

#[test]
fn send_subject_validation() {
    let mut msg = Msg::new().unwrap();
    assert!(msg.set_send_subject("TEST.SUBJECT").is_ok());
    assert_eq!(
        "TEST.SUBJECT",
        msg.get_send_subject().unwrap().unwrap()
    );

    let r = msg.set_send_subject("BAD\0SUBJECT");
    assert_eq!(ErrorKind::StrContentError, r.unwrap_err().kind());

    let r = msg.set_send_subject("WILD.*");
    assert_eq!(
        ErrorKind::UnknownError(Status::InvalidSubject),
        r.unwrap_err().kind()
    );

    let r = msg.set_send_subject("");
    assert_eq!(
        ErrorKind::UnknownError(Status::InvalidSubject),
        r.unwrap_err().kind()
    );
}

#[test]
fn reply_subject_roundtrip() {
    let mut msg = Msg::new().unwrap();
    assert_eq!(None, msg.get_reply_subject().unwrap());
    msg.set_reply_subject("REPLY.HERE").unwrap();
    assert_eq!("REPLY.HERE", msg.get_reply_subject().unwrap().unwrap());
}

#[test]
fn nested_message_roundtrip() {
    let mut inner = Msg::new().unwrap();
    let data = "Hello world!".to_string();
    let mut field = Builder::new(&data).with_name("string").encode();
    inner.add_field(&mut field).unwrap();

    let mut outer = Msg::new().unwrap();
    let mut msg_field = Builder::new(&inner).with_name("nested").encode();
    outer.add_field(&mut msg_field).unwrap();

    let extracted = outer.get_field_by_name("nested").unwrap();
    let borrowed = BorrowedMsg::tibrv_try_decode(&extracted.inner).unwrap();
    let owned = borrowed.to_owned().unwrap();
    let inner_field = owned.get_field_by_index(0).unwrap();
    let decoded = String::tibrv_try_decode(&inner_field.inner).unwrap();
    assert_eq!("Hello world!", decoded);
}

#[test]
fn greeting_end_to_end() {
    let data = "hello".to_string();
    let mut field = Builder::new(&data).with_name("greeting").encode();
    let mut msg = Msg::new().unwrap();
    msg.add_field(&mut field).unwrap();

    let extracted = msg.get_field_by_name("greeting").unwrap();
    let decoded = String::tibrv_try_decode(&extracted.inner).unwrap();
    assert_eq!("hello", decoded);
    assert_eq!(1, msg.num_fields().unwrap());

    msg.remove_field_by_name("greeting").unwrap();
    assert_eq!(0, msg.num_fields().unwrap());
}
