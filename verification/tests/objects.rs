use runtime::klass::{OtField, OtKlass};
use runtime::klass_repo::SharedKlassRepo;
use runtime::object::{ObjFault, OtObj, INT_ARRAY_KLASSID};
use runtime::value::JvmValue;

const X: OtField = OtField { symbol: 10 };
const Y: OtField = OtField { symbol: 20 };
const Z: OtField = OtField { symbol: 30 };

/// A repository with class 7, whose instances hold `X` and then `Y`.
fn point_repo() -> SharedKlassRepo {
    let mut repo = SharedKlassRepo::of();
    repo.add_klass(OtKlass { id: 7, i_fields: vec![X, Y] });
    repo
}

fn point(obj_id: usize) -> OtObj {
    OtObj::obj_of(7, obj_id, vec![JvmValue::Int { val: 1 }, JvmValue::Int { val: 2 }])
}

#[test]
fn new_object_carries_its_header() {
    let obj = OtObj::obj_of(7, 41, vec![JvmValue::Boolean { val: true }]);
    assert_eq!(obj.get_id(), 41);
    assert_eq!(obj.get_klassid(), 7);
    assert_eq!(obj.get_mark(), 0);
    assert!(!obj.is_null());
    match obj {
        OtObj::vm_obj { fields, .. } => assert_eq!(fields, vec![JvmValue::Boolean { val: true }]),
        _ => panic!("a plain object was asked for"),
    }
}

#[test]
fn new_object_takes_any_ids() {
    let obj = OtObj::obj_of(usize::MAX, usize::MAX, Vec::new());
    assert_eq!(obj.get_id(), usize::MAX);
    assert_eq!(obj.get_klassid(), usize::MAX);
    assert_eq!(obj.get_mark(), 0);
    assert!(!obj.is_null());
}

#[test]
fn null_object_is_null() {
    let null = OtObj::get_null();
    assert!(null.is_null());
    assert_eq!(null.get_id(), 0);
    assert_eq!(null.get_mark(), 0);
    assert_eq!(null.get_klassid(), 0);
    match null {
        OtObj::vm_obj { fields, .. } => assert!(fields.is_empty()),
        _ => panic!("the null object is a plain object"),
    }
}

#[test]
fn objects_of_a_class_are_not_null() {
    assert!(!OtObj::obj_of(1, 0, Vec::new()).is_null());
    assert!(!OtObj::obj_of(7, 3, vec![JvmValue::ObjRef { val: 0 }]).is_null());
    assert!(!OtObj::int_arr_of(0, 0).is_null());
    assert!(!OtObj::int_arr_of(5, 9).is_null());
}

#[test]
fn null_test_reads_mark_and_class_only() {
    // An object of class zero with a clear mark passes the null test, whatever its id.
    assert!(OtObj::obj_of(0, 99, vec![JvmValue::Int { val: 1 }]).is_null());
    let marked = OtObj::vm_obj { id: 0, mark: 1, klassid: 0, fields: Vec::new() };
    assert!(!marked.is_null());
    let array = OtObj::vm_arr_long { id: 4, mark: 0, klassid: 0, length: 0, elements: Vec::new() };
    assert!(array.is_null());
}

#[test]
fn int_array_has_its_length_and_zeroes() {
    let arr = OtObj::int_arr_of(5, 12);
    assert_eq!(arr.length(), 5);
    assert_eq!(arr.try_length(), Ok(5));
    assert_eq!(arr.get_id(), 12);
    assert_eq!(arr.get_mark(), 0);
    assert_eq!(arr.get_klassid(), 2);
    assert_eq!(INT_ARRAY_KLASSID, 2);
    match arr {
        OtObj::vm_arr_int { length, elements, .. } => {
            assert_eq!(length, 5);
            assert_eq!(elements, vec![0, 0, 0, 0, 0]);
        },
        _ => panic!("an array of integers was asked for"),
    }
}

#[test]
fn int_array_of_one_and_of_many() {
    match OtObj::int_arr_of(1, 0) {
        OtObj::vm_arr_int { length, elements, .. } => {
            assert_eq!(length, 1);
            assert_eq!(elements, vec![0]);
        },
        _ => panic!("an array of integers was asked for"),
    }
    let big = OtObj::int_arr_of(1000, 1);
    assert_eq!(big.length(), 1000);
    match big {
        OtObj::vm_arr_int { elements, .. } => {
            assert_eq!(elements.len(), 1000);
            assert!(elements.iter().all(|e| *e == 0));
        },
        _ => panic!("an array of integers was asked for"),
    }
}

#[test]
fn empty_int_array() {
    let arr = OtObj::int_arr_of(0, 3);
    assert_eq!(arr.length(), 0);
    match arr {
        OtObj::vm_arr_int { elements, .. } => assert!(elements.is_empty()),
        _ => panic!("an array of integers was asked for"),
    }
}

#[test]
fn long_array_gives_its_length() {
    let arr = OtObj::vm_arr_long { id: 8, mark: 0, klassid: 3, length: 2, elements: vec![5, -6] };
    assert_eq!(arr.length(), 2);
    assert_eq!(arr.try_length(), Ok(2));
}

#[test]
fn put_then_get_round_trip() {
    let repo = point_repo();
    let values = [
        JvmValue::Boolean { val: true },
        JvmValue::Byte { val: -128 },
        JvmValue::Short { val: 32767 },
        JvmValue::Int { val: i32::MIN },
        JvmValue::Long { val: i64::MAX },
        JvmValue::Float { bits: 1.5f32.to_bits() },
        JvmValue::Double { bits: f64::NAN.to_bits() },
        JvmValue::Char { val: 'j' },
        JvmValue::ObjRef { val: 17 },
    ];
    for v in values {
        let mut obj = point(1);
        obj.put_field(&repo, Y, v);
        assert_eq!(obj.get_value(&repo, Y), v);
        assert_eq!(obj.try_put_field(&repo, X, v), Ok(()));
        assert_eq!(obj.try_get_value(&repo, X), Ok(v));
    }
}

#[test]
fn put_overwrites_one_slot_only() {
    let repo = point_repo();
    let mut obj = point(1);
    obj.put_field(&repo, X, JvmValue::Long { val: 40 });
    assert_eq!(obj.get_value(&repo, X), JvmValue::Long { val: 40 });
    assert_eq!(obj.get_value(&repo, Y), JvmValue::Int { val: 2 });
    obj.put_field(&repo, X, JvmValue::Long { val: 41 });
    assert_eq!(obj.get_value(&repo, X), JvmValue::Long { val: 41 });
    match obj {
        OtObj::vm_obj { fields, .. } => {
            assert_eq!(fields, vec![JvmValue::Long { val: 41 }, JvmValue::Int { val: 2 }])
        },
        _ => panic!("a plain object was asked for"),
    }
}

#[test]
fn get_value_is_repeatable() {
    let repo = point_repo();
    let obj = point(1);
    let first = obj.get_value(&repo, X);
    let second = obj.get_value(&repo, X);
    let third = obj.try_get_value(&repo, X);
    assert_eq!(first, JvmValue::Int { val: 1 });
    assert_eq!(second, first);
    assert_eq!(third, Ok(first));
}

#[test]
fn field_slot_follows_the_layout() {
    let repo = point_repo();
    let obj = point(1);
    assert_eq!(obj.field_slot(&repo, X), Ok(0));
    assert_eq!(obj.field_slot(&repo, Y), Ok(1));
    assert_eq!(obj.field_slot(&repo, Z), Err(ObjFault::OffsetOutOfRange));
}

#[test]
fn layout_is_looked_up_at_every_access() {
    let mut repo = point_repo();
    let mut obj = point(1);
    obj.put_field(&repo, X, JvmValue::Int { val: 5 });
    // The class is recorded anew with its two fields the other way round.
    repo.add_klass(OtKlass { id: 7, i_fields: vec![Y, X] });
    assert_eq!(obj.get_value(&repo, Y), JvmValue::Int { val: 5 });
    assert_eq!(obj.get_value(&repo, X), JvmValue::Int { val: 2 });
}

#[test]
fn length_of_plain_object_is_a_fault() {
    assert_eq!(point(1).try_length(), Err(ObjFault::InvalidLengthQuery));
    assert_eq!(OtObj::get_null().try_length(), Err(ObjFault::InvalidLengthQuery));
}

#[test]
fn missing_class_is_a_fault() {
    let repo = point_repo();
    let mut stranger = OtObj::obj_of(8, 2, vec![JvmValue::Int { val: 1 }]);
    assert_eq!(stranger.try_get_value(&repo, X), Err(ObjFault::MissingClassMetadata));
    assert_eq!(
        stranger.try_put_field(&repo, X, JvmValue::Int { val: 9 }),
        Err(ObjFault::MissingClassMetadata)
    );
    assert_eq!(stranger.field_slot(&repo, X), Err(ObjFault::MissingClassMetadata));
    match stranger {
        OtObj::vm_obj { id, mark, klassid, fields } => {
            assert_eq!((id, mark, klassid), (2, 0, 8));
            assert_eq!(fields, vec![JvmValue::Int { val: 1 }]);
        },
        _ => panic!("a plain object was asked for"),
    }
    let empty = SharedKlassRepo::of();
    assert_eq!(point(1).try_get_value(&empty, X), Err(ObjFault::MissingClassMetadata));
    assert_eq!(OtObj::get_null().try_get_value(&repo, X), Err(ObjFault::MissingClassMetadata));
}

#[test]
fn field_of_an_array_is_a_fault() {
    let repo = point_repo();
    let mut ints = OtObj::int_arr_of(3, 1);
    assert_eq!(ints.try_get_value(&repo, X), Err(ObjFault::WrongVariant));
    assert_eq!(ints.try_put_field(&repo, X, JvmValue::Int { val: 1 }), Err(ObjFault::WrongVariant));
    match ints {
        OtObj::vm_arr_int { elements, .. } => assert_eq!(elements, vec![0, 0, 0]),
        _ => panic!("an array of integers was asked for"),
    }
    // An array faults as an array even where its class id names a class.
    let longs = OtObj::vm_arr_long { id: 1, mark: 0, klassid: 7, length: 1, elements: vec![0] };
    assert_eq!(longs.try_get_value(&repo, X), Err(ObjFault::WrongVariant));
}

#[test]
fn slot_beyond_the_fields_is_a_fault() {
    let repo = point_repo();
    // An object of class 7 that was made with one field too few.
    let mut short = OtObj::obj_of(7, 1, vec![JvmValue::Int { val: 1 }]);
    assert_eq!(short.try_get_value(&repo, X), Ok(JvmValue::Int { val: 1 }));
    assert_eq!(short.try_get_value(&repo, Y), Err(ObjFault::OffsetOutOfRange));
    assert_eq!(
        short.try_put_field(&repo, Y, JvmValue::Int { val: 3 }),
        Err(ObjFault::OffsetOutOfRange)
    );
    assert_eq!(short.try_get_value(&repo, X), Ok(JvmValue::Int { val: 1 }));
    // A field that the class does not declare.
    assert_eq!(point(1).try_get_value(&repo, Z), Err(ObjFault::OffsetOutOfRange));
    // An object without fields.
    let bare = OtObj::obj_of(7, 1, Vec::new());
    assert_eq!(bare.try_get_value(&repo, X), Err(ObjFault::OffsetOutOfRange));
}

#[test]
fn header_reads_the_same_on_every_shape() {
    let shapes = [
        OtObj::vm_obj { id: 1, mark: 2, klassid: 3, fields: vec![JvmValue::Int { val: 0 }] },
        OtObj::vm_arr_int { id: 1, mark: 2, klassid: 3, length: 1, elements: vec![7] },
        OtObj::vm_arr_long { id: 1, mark: 2, klassid: 3, length: 1, elements: vec![7] },
    ];
    for obj in shapes.iter() {
        assert_eq!(obj.get_id(), 1);
        assert_eq!(obj.get_mark(), 2);
        assert_eq!(obj.get_klassid(), 3);
        assert!(!obj.is_null());
        assert_eq!(obj.get_id(), 1);
    }
}

#[test]
fn header_survives_a_put() {
    let repo = point_repo();
    let mut obj = OtObj::vm_obj {
        id: 21,
        mark: 0xdead_beef,
        klassid: 7,
        fields: vec![JvmValue::Int { val: 0 }, JvmValue::Int { val: 0 }],
    };
    obj.put_field(&repo, X, JvmValue::Long { val: -1 });
    obj.put_field(&repo, Y, JvmValue::Char { val: 'q' });
    assert_eq!(obj.get_id(), 21);
    assert_eq!(obj.get_mark(), 0xdead_beef);
    assert_eq!(obj.get_klassid(), 7);
    assert!(!obj.is_null());
}

#[test]
fn summary_names_mark_and_class() {
    assert_eq!(OtObj::obj_of(7, 1, Vec::new()).to_string(), "MarK: 0 ; Klass: 7");
    assert_eq!(OtObj::get_null().to_string(), "MarK: 0 ; Klass: 0");
    assert_eq!(OtObj::int_arr_of(3, 1).to_string(), "MarK: 0 ; Klass: 2");
    let marked = OtObj::vm_arr_long { id: 5, mark: u64::MAX, klassid: 1234567890, length: 0, elements: Vec::new() };
    assert_eq!(marked.to_string(), "MarK: 18446744073709551615 ; Klass: 1234567890");
    let marked = OtObj::vm_obj { id: 5, mark: 10, klassid: 109, fields: Vec::new() };
    assert_eq!(marked.to_string(), format!("MarK: {} ; Klass: {}", 10, 109));
}

#[test]
fn clone_is_a_copy_of_its_own() {
    let repo = point_repo();
    let original = point(1);
    let mut copy = original.clone();
    copy.put_field(&repo, X, JvmValue::Int { val: 100 });
    assert_eq!(original.get_value(&repo, X), JvmValue::Int { val: 1 });
    assert_eq!(copy.get_value(&repo, X), JvmValue::Int { val: 100 });
    assert_eq!(copy.get_id(), original.get_id());
}
