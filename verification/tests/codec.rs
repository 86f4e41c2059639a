use nvim_oxi::convert::{
    decode_mapping, decode_seq, encode_mapping, encode_seq, FloatBits, FromObject, ToObject,
};
use nvim_oxi::error::{ConversionError, ParseError};
use nvim_oxi::handles::{Buffer, LuaRef};
use nvim_oxi::object::{Object, ObjectKind, ObjectTag, Ownership};
use nvim_oxi::range::CommandRange;

#[test]
fn round_trip_bool() {
    let o = true.to_obj();
    assert!(matches!(o.kind, ObjectKind::Boolean(true)));
    assert_eq!(bool::from_obj(&o), Ok(true));
    let o = false.to_obj();
    assert_eq!(bool::from_obj(&o), Ok(false));
}

#[test]
fn round_trip_i64() {
    for x in [0i64, -1, i64::MIN, i64::MAX, 42] {
        let o = x.to_obj();
        assert_eq!(i64::from_obj(&o), Ok(x));
    }
}

#[test]
fn round_trip_i32() {
    for x in [0i32, -1, i32::MIN, i32::MAX] {
        let o = x.to_obj();
        assert_eq!(i32::from_obj(&o), Ok(x));
    }
}

#[test]
fn narrowing_decode_fails_out_of_range() {
    // A wide integer no i32 produced: rejected, not truncated.
    let wide = Object::integer(1i64 << 40);
    assert_eq!(i32::from_obj(&wide), Err(ConversionError::OutOfRange { value: 1i64 << 40 }));
    let neg = Object::integer(-1);
    assert_eq!(u32::from_obj(&neg), Err(ConversionError::OutOfRange { value: -1 }));
}

#[test]
fn round_trip_u32() {
    for x in [0u32, 7, u32::MAX] {
        let o = x.to_obj();
        assert_eq!(u32::from_obj(&o), Ok(x));
    }
}

#[test]
fn round_trip_float_bits() {
    let x = FloatBits { bits: 2.5f64.to_bits() };
    let o = x.to_obj();
    assert!(matches!(o.kind, ObjectKind::Float(_)));
    let y = FloatBits::from_obj(&o).unwrap();
    assert_eq!(f64::from_bits(y.bits), 2.5);
}

#[test]
fn round_trip_text() {
    let x: Vec<u8> = b"hello".to_vec();
    let o = x.to_obj();
    let y = Vec::<u8>::from_obj(&o).unwrap();
    assert_eq!(y, x);
}

#[test]
fn round_trip_handles() {
    let b = Buffer(3);
    assert_eq!(Buffer::from_obj(&b.to_obj()), Ok(Buffer(3)));
    let f = LuaRef(-7);
    assert_eq!(LuaRef::from_obj(&f.to_obj()), Ok(LuaRef(-7)));
    let wide = Object::handle(1i64 << 40);
    assert_eq!(Buffer::from_obj(&wide), Err(ConversionError::OutOfRange { value: 1i64 << 40 }));
}

#[test]
fn option_encodes_absence_as_nil() {
    let none: Option<bool> = None;
    let o = none.to_obj();
    assert!(matches!(o.kind, ObjectKind::Nil));
    assert_eq!(Option::<bool>::from_obj(&o), Ok(None));
    let some = Some(true).to_obj();
    assert_eq!(Option::<bool>::from_obj(&some), Ok(Some(true)));
}

#[test]
fn wrong_tag_errors_name_both_tags() {
    let o = Object::text(b"x".to_vec());
    assert_eq!(
        bool::from_obj(&o),
        Err(ConversionError::WrongTag { expected: ObjectTag::Boolean, actual: ObjectTag::Text })
    );
    assert_eq!(
        i64::from_obj(&Object::nil()),
        Err(ConversionError::WrongTag { expected: ObjectTag::Integer, actual: ObjectTag::Nil })
    );
}

#[test]
fn sequence_round_trip() {
    let xs: Vec<i64> = vec![1, 2, 3];
    let o = encode_seq(&xs);
    assert!(matches!(o.mode, Ownership::Owned));
    let ys: Vec<i64> = decode_seq(&o).unwrap();
    assert_eq!(ys, xs);
}

#[test]
fn sequence_decode_reports_first_bad_child() {
    let children = vec![Object::integer(1), Object::boolean(true), Object::text(b"x".to_vec())];
    let o = Object::sequence(children);
    assert_eq!(
        decode_seq::<i64>(&o),
        Err(ConversionError::WrongTag { expected: ObjectTag::Integer, actual: ObjectTag::Boolean })
    );
    assert_eq!(
        decode_seq::<i64>(&Object::nil()),
        Err(ConversionError::WrongTag { expected: ObjectTag::Sequence, actual: ObjectTag::Nil })
    );
}

#[test]
fn mapping_encode_keeps_insertion_order() {
    let pairs: Vec<(Vec<u8>, i64)> = vec![(b"a".to_vec(), 1), (b"b".to_vec(), 2)];
    let o = encode_mapping(&pairs);
    let ps = o.mapping_pairs().unwrap();
    assert_eq!(ps.len(), 2);
    match (&ps[0].0.kind, &ps[1].0.kind) {
        (ObjectKind::Text(a), ObjectKind::Text(b)) => {
            assert_eq!(a, b"a");
            assert_eq!(b, b"b");
        },
        _ => panic!("keys must be text"),
    }
    assert!(matches!(ps[0].1.kind, ObjectKind::Integer(1)));
    assert!(matches!(ps[1].1.kind, ObjectKind::Integer(2)));
}

#[test]
fn mapping_round_trip_and_errors() {
    let pairs: Vec<(Vec<u8>, i64)> = vec![(b"a".to_vec(), 1), (b"b".to_vec(), 2)];
    let o = encode_mapping(&pairs);
    let back: Vec<(Vec<u8>, i64)> = decode_mapping(&o).unwrap();
    assert_eq!(back, pairs);
    assert_eq!(
        decode_mapping::<Vec<u8>, i64>(&Object::nil()),
        Err(ConversionError::WrongTag { expected: ObjectTag::Mapping, actual: ObjectTag::Nil })
    );
    let bad = Object::mapping(vec![(Object::boolean(true), Object::integer(1))]);
    assert_eq!(
        decode_mapping::<Vec<u8>, i64>(&bad),
        Err(ConversionError::WrongTag { expected: ObjectTag::Text, actual: ObjectTag::Boolean })
    );
}

#[test]
fn parse_accepts_the_three_forms() {
    assert_eq!(CommandRange::parse("."), Ok(CommandRange::CurrentLine));
    assert_eq!(CommandRange::parse("%"), Ok(CommandRange::WholeFile));
    assert_eq!(CommandRange::parse("42"), Ok(CommandRange::Count(42)));
    assert_eq!(CommandRange::parse("0"), Ok(CommandRange::Count(0)));
    assert_eq!(CommandRange::parse("4294967295"), Ok(CommandRange::Count(u32::MAX)));
}

#[test]
fn parse_rejects_everything_else() {
    assert_eq!(CommandRange::parse("abc"), Err(ParseError {}));
    assert_eq!(CommandRange::parse(""), Err(ParseError {}));
    assert_eq!(CommandRange::parse("4a"), Err(ParseError {}));
    assert_eq!(CommandRange::parse("-1"), Err(ParseError {}));
    assert_eq!(CommandRange::parse("4294967296"), Err(ParseError {}));
    assert_eq!(ParseError::accepted_forms(), "\".\", \"%\" or an integer");
}

#[test]
fn emit_is_not_the_parsers_inverse() {
    // The current position emits the boolean true, not its parse token ".".
    let o = CommandRange::CurrentLine.to_obj();
    assert!(matches!(o.kind, ObjectKind::Boolean(true)));
    let o = CommandRange::WholeFile.to_obj();
    match &o.kind {
        ObjectKind::Text(bs) => assert_eq!(bs, b"%"),
        _ => panic!("whole extent must emit text"),
    }
    let o = CommandRange::Count(7).to_obj();
    match &o.kind {
        ObjectKind::Text(bs) => assert_eq!(bs, b"7"),
        _ => panic!("a count must emit text"),
    }
    let o = CommandRange::Count(1234567890).to_obj();
    match &o.kind {
        ObjectKind::Text(bs) => assert_eq!(bs, b"1234567890"),
        _ => panic!("a count must emit text"),
    }
}
