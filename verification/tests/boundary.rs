use nvim_oxi::channel::{finish_direct, finish_flatten, ErrorSlot};
use nvim_oxi::convert::{echo_chunks, FromObject};
use nvim_oxi::error::{CallError, ConversionError, ErrorCategory};
use nvim_oxi::handles::LuaRef;
use nvim_oxi::keymap::{KeyDict_keymap, SetKeymapOpts};
use nvim_oxi::object::{Object, ObjectKind, ObjectTag, Ownership};
use nvim_oxi::registry::CallbackRegistry;

#[test]
fn populated_slot_wins_over_any_raw_value() {
    // An arbitrary raw value in a call whose error slot is populated:
    // the result must be the host's error and the raw value ignored.
    let mut slot = ErrorSlot::new();
    slot.set(ErrorCategory::Validation, b"bad argument".to_vec());
    let raw = Object::integer(42);
    match finish_direct(slot.clone(), raw) {
        Err(CallError::Host(h)) => {
            assert_eq!(h.category, ErrorCategory::Validation);
            assert_eq!(h.message, b"bad argument".to_vec());
        },
        _ => panic!("a populated slot must yield the host's error"),
    }
    match finish_flatten::<i64>(slot, Object::integer(42)) {
        Err(CallError::Host(h)) => assert_eq!(h.category, ErrorCategory::Validation),
        _ => panic!("a populated slot must win over a decodable raw value"),
    }
}

#[test]
fn empty_slot_passes_the_raw_value_through() {
    let slot = ErrorSlot::new();
    match finish_direct(slot.clone(), Object::integer(7)) {
        Ok(o) => assert!(matches!(o.kind, ObjectKind::Integer(7))),
        _ => panic!("an empty slot must yield the raw value"),
    }
    assert_eq!(finish_flatten::<i64>(slot, Object::integer(7)), Ok(7));
}

#[test]
fn flattening_surfaces_the_decode_error() {
    let slot = ErrorSlot::new();
    match finish_flatten::<i64>(slot, Object::boolean(true)) {
        Err(CallError::Conversion(e)) => assert_eq!(
            e,
            ConversionError::WrongTag {
                expected: ObjectTag::Integer,
                actual: ObjectTag::Boolean,
            }
        ),
        _ => panic!("a failing decode must surface as a conversion error"),
    }
}

#[test]
fn untouched_builder_lowers_every_field_to_nil() {
    let opts = SetKeymapOpts::builder().build();
    let kd = KeyDict_keymap::from_opts(&opts);
    for field in [
        &kd.callback,
        &kd.desc,
        &kd.expr,
        &kd.noremap,
        &kd.nowait,
        &kd.script,
        &kd.silent,
        &kd.unique,
    ] {
        assert!(matches!(field.kind, ObjectKind::Nil));
    }
    assert_eq!(Option::<bool>::from_obj(&kd.expr), Ok(None));
    assert_eq!(Option::<LuaRef>::from_obj(&kd.callback), Ok(None));
    assert_eq!(Option::<Vec<u8>>::from_obj(&kd.desc), Ok(None));
}

#[test]
fn builder_setters_chain_and_lower() {
    let opts = SetKeymapOpts::builder()
        .callback(LuaRef(9))
        .desc(b"save".to_vec())
        .expr(false)
        .silent(true)
        .build();
    let kd = KeyDict_keymap::from_opts(&opts);
    assert!(matches!(kd.callback.kind, ObjectKind::Handle(9)));
    match &kd.desc.kind {
        ObjectKind::Text(bs) => assert_eq!(bs, b"save"),
        _ => panic!("a set description must lower to text"),
    }
    assert!(matches!(kd.expr.kind, ObjectKind::Boolean(false)));
    assert!(matches!(kd.silent.kind, ObjectKind::Boolean(true)));
    assert!(matches!(kd.noremap.kind, ObjectKind::Nil));
}

#[test]
fn defaulted_opts_equal_untouched_builder() {
    let d = SetKeymapOpts::default();
    assert!(d.callback.is_none() && d.desc.is_none() && d.expr.is_none());
    assert!(d.noremap.is_none() && d.nowait.is_none() && d.script.is_none());
    assert!(d.silent.is_none() && d.unique.is_none());
}

#[test]
fn releasing_a_parent_releases_each_owned_child_exactly_once() {
    let c1 = Object::integer(5).with_id(1);
    let c2 = Object::text(b"x".to_vec()).with_id(2);
    let parent = Object::sequence(vec![c1, c2]).with_id(10);
    let log = parent.release();
    assert_eq!(log, vec![1, 2, 10]);
    for id in [1u64, 2, 10] {
        assert_eq!(log.iter().filter(|&&y| y == id).count(), 1);
    }
}

#[test]
fn releasing_skips_borrowed_children() {
    let c1 = Object::integer(5).with_id(1);
    let c2 = Object::text(b"x".to_vec()).with_id(2).into_borrowed();
    let parent = Object::sequence(vec![c1, c2]).with_id(10);
    assert_eq!(parent.release(), vec![1, 10]);
}

#[test]
fn releasing_a_borrowed_view_is_a_no_op() {
    let parent = Object::sequence(vec![Object::integer(1).with_id(1)]).with_id(10);
    let view = parent.into_borrowed();
    assert_eq!(view.release(), Vec::<u64>::new());
}

#[test]
fn releasing_a_mapping_releases_keys_and_values() {
    let pairs = vec![(Object::text(b"k".to_vec()).with_id(1), Object::integer(2).with_id(2))];
    let m = Object::mapping(pairs).with_id(3);
    assert_eq!(m.release(), vec![1, 2, 3]);
}

#[test]
fn mapping_keeps_insertion_order_and_first_match_wins() {
    let a = Object::text(b"a".to_vec());
    let b = Object::text(b"b".to_vec());
    let m = Object::mapping(vec![
        (a, Object::integer(1)),
        (b, Object::integer(2)),
        (Object::text(b"a".to_vec()), Object::integer(3)),
    ]);
    let ps = m.mapping_pairs().unwrap();
    match (&ps[0].0.kind, &ps[1].0.kind) {
        (ObjectKind::Text(x), ObjectKind::Text(y)) => {
            assert_eq!(x, b"a");
            assert_eq!(y, b"b");
        },
        _ => panic!("keys must be text in insertion order"),
    }
    // Duplicate key: lookup returns the first match.
    let hit = m.mapping_get(&Object::text(b"a".to_vec())).unwrap();
    assert!(matches!(hit.kind, ObjectKind::Integer(1)));
    assert!(m.mapping_get(&Object::text(b"z".to_vec())).is_none());
}

#[test]
fn value_eq_ignores_mode_and_identity() {
    let a = Object::sequence(vec![Object::integer(1), Object::text(b"x".to_vec())]).with_id(7);
    let b = Object::sequence(vec![Object::integer(1), Object::text(b"x".to_vec())])
        .into_borrowed();
    assert!(a.value_eq(&b));
    let c = Object::sequence(vec![Object::integer(2), Object::text(b"x".to_vec())]);
    assert!(!a.value_eq(&c));
    assert!(!a.value_eq(&Object::nil()));
}

#[test]
fn callback_transfer_invoking_never_double_releases() {
    let mut reg = CallbackRegistry::new();
    let opts = {
        let f = reg.register();
        SetKeymapOpts::builder().callback(f).build()
    };
    let kd = KeyDict_keymap::from_opts(&opts);
    // The handle threads through the lowered record.
    let f = match kd.callback.kind {
        ObjectKind::Handle(h) => LuaRef(h as i32),
        _ => panic!("the callback must lower to a handle"),
    };
    // The host invokes it the expected number of times: no release happens.
    for _ in 0..3 {
        assert!(reg.invoke(f));
    }
    assert!(!reg.slots[0].released);
    assert_eq!(reg.slots[0].invokes, 3);
    // Exactly one release is owed and a second one fails and changes nothing.
    assert!(reg.release(f));
    assert!(reg.slots[0].released);
    assert!(!reg.release(f));
    assert!(!reg.invoke(f));
    assert_eq!(reg.slots[0].invokes, 3);
}

#[test]
fn echo_chunks_lower_to_pairs() {
    let chunks: Vec<(Vec<u8>, Option<Vec<u8>>)> =
        vec![(b"hello".to_vec(), None), (b"world".to_vec(), Some(b"Comment".to_vec()))];
    let o = echo_chunks(&chunks);
    assert!(matches!(o.mode, Ownership::Owned));
    let cs = o.sequence_children().unwrap();
    assert_eq!(cs.len(), 2);
    let first = cs[0].sequence_children().unwrap();
    match &first[0].kind {
        ObjectKind::Text(bs) => assert_eq!(bs, b"hello"),
        _ => panic!("chunk text must lower to text"),
    }
    assert!(matches!(first[1].kind, ObjectKind::Nil));
    let second = cs[1].sequence_children().unwrap();
    match &second[1].kind {
        ObjectKind::Text(bs) => assert_eq!(bs, b"Comment"),
        _ => panic!("a set highlight group must lower to text"),
    }
}
