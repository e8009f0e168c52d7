//! What holds of heap objects across their operations.

use vstd::prelude::*;
use crate::klass::{lemma_slot_of, slot_of, OtField};
use crate::klass_repo::SharedKlassRepo;
use crate::object::{ObjFault, ObjView, OtObj, INT_ARRAY_KLASSID};
use crate::value::JvmValue;

verus! {

/// A new plain object carries the id and the class id that it was made with
/// and a clear mark word, and it is not null unless its class id is zero.
pub proof fn lemma_new_object_header(klass_id: usize, obj_id: usize, fields: Seq<JvmValue>)
    ensures
        ObjView::plain(klass_id, obj_id, fields).id == obj_id,
        ObjView::plain(klass_id, obj_id, fields).klassid == klass_id,
        ObjView::plain(klass_id, obj_id, fields).mark == 0,
        ObjView::plain(klass_id, obj_id, fields).fields() == fields,
        klass_id != 0 ==> !ObjView::plain(klass_id, obj_id, fields).is_null(),
{
}

/// The null object is null. No plain object of a class other than zero is,
/// and no array of integers.
pub proof fn lemma_null_test(klass_id: usize, obj_id: usize, fields: Seq<JvmValue>, size: i32)
    ensures
        ObjView::null().is_null(),
        klass_id != 0 ==> !ObjView::plain(klass_id, obj_id, fields).is_null(),
        !ObjView::int_array(size, obj_id).is_null(),
{
}

/// A new array of integers has the length that it was made with, holds that
/// many elements, and every one of them is zero.
pub proof fn lemma_int_array_is_zeroed(size: i32, obj_id: usize)
    requires
        0 <= size,
    ensures
        ObjView::int_array(size, obj_id).length_query() == Ok::<i32, ObjFault>(size),
        ObjView::int_array(size, obj_id).wf(),
        ObjView::int_array(size, obj_id).id == obj_id,
        ObjView::int_array(size, obj_id).mark == 0,
        ObjView::int_array(size, obj_id).klassid == INT_ARRAY_KLASSID,
        ObjView::int_array(size, obj_id).payload->Ints_elements.len() == size,
        forall|i: int| 0 <= i < size ==> ObjView::int_array(size, obj_id).payload->Ints_elements[i] == 0,
{
}

/// A slot that a field resolves to is a slot of the object: it indexes the
/// fields, and it is the slot that the class of the object gives the field.
pub proof fn lemma_slot_in_range(obj: ObjView, repo: Map<usize, Seq<OtField>>, f: OtField)
    ensures
        obj.field_slot(repo, f) matches Ok(slot) ==> {
            &&& 0 <= slot < obj.fields().len()
            &&& repo.contains_key(obj.klassid)
            &&& slot == slot_of(repo[obj.klassid], f)
        },
{
    if obj.field_slot(repo, f) is Ok {
        lemma_slot_of(repo[obj.klassid], f, slot_of(repo[obj.klassid], f));
    }
}

/// Round trip: a field that was put reads back as the value that was put.
pub proof fn lemma_put_then_get(obj: ObjView, repo: Map<usize, Seq<OtField>>, f: OtField, val: JvmValue)
    requires
        obj.field_slot(repo, f) is Ok,
    ensures
        obj.put_field(repo, f, val).field_slot(repo, f) == obj.field_slot(repo, f),
        obj.put_field(repo, f, val).get_value(repo, f) == val,
{
    lemma_slot_in_range(obj, repo, f);
}

/// A put changes one slot: a field that resolves to another slot reads as
/// before, and no field gains or loses its slot.
pub proof fn lemma_put_keeps_other_fields(
    obj: ObjView,
    repo: Map<usize, Seq<OtField>>,
    f: OtField,
    val: JvmValue,
    g: OtField,
)
    requires
        obj.field_slot(repo, f) is Ok,
    ensures
        obj.put_field(repo, f, val).field_slot(repo, g) == obj.field_slot(repo, g),
        obj.field_slot(repo, g) is Ok && obj.field_slot(repo, g) != obj.field_slot(repo, f)
            ==> obj.put_field(repo, f, val).get_value(repo, g) == obj.get_value(repo, g),
{
    lemma_slot_in_range(obj, repo, f);
    lemma_slot_in_range(obj, repo, g);
}

/// A put leaves the header as it was: id, mark word and class id, and with
/// them the answer of the null test.
pub proof fn lemma_put_keeps_header(obj: ObjView, repo: Map<usize, Seq<OtField>>, f: OtField, val: JvmValue)
    requires
        obj.field_slot(repo, f) is Ok,
    ensures
        obj.put_field(repo, f, val).id == obj.id,
        obj.put_field(repo, f, val).mark == obj.mark,
        obj.put_field(repo, f, val).klassid == obj.klassid,
        obj.put_field(repo, f, val).is_null() == obj.is_null(),
        obj.put_field(repo, f, val).fields().len() == obj.fields().len(),
{
    lemma_slot_in_range(obj, repo, f);
}

/// Reading is repeatable: whatever two reads of one field of one object
/// return, under one repository, is the same value.
pub proof fn lemma_get_value_is_repeatable(
    obj: OtObj,
    repo: SharedKlassRepo,
    f: OtField,
    first: JvmValue,
    second: JvmValue,
)
    requires
        obj@.field_slot(repo@, f) is Ok,
        call_ensures(OtObj::get_value, (&obj, &repo, f), first),
        call_ensures(OtObj::get_value, (&obj, &repo, f), second),
    ensures
        first == second,
{
}

/// The faults of an access, each with the receivers on which it comes: a
/// field of an array is `WrongVariant`; a field of a plain object whose class
/// id the repository does not hold is `MissingClassMetadata`; a field that
/// resolves to no slot of the object is `OffsetOutOfRange`; every other field
/// access reaches its slot. The length of a plain object is
/// `InvalidLengthQuery`, and every array has a length.
pub proof fn lemma_faults(obj: ObjView, repo: Map<usize, Seq<OtField>>, f: OtField)
    ensures
        obj.field_slot(repo, f) == Err::<int, ObjFault>(ObjFault::WrongVariant) <==> obj.is_array(),
        obj.field_slot(repo, f) == Err::<int, ObjFault>(ObjFault::MissingClassMetadata) <==> !obj.is_array()
            && !repo.contains_key(obj.klassid),
        obj.field_slot(repo, f) == Err::<int, ObjFault>(ObjFault::OffsetOutOfRange) <==> !obj.is_array()
            && repo.contains_key(obj.klassid) && slot_of(repo[obj.klassid], f) >= obj.fields().len(),
        obj.field_slot(repo, f) is Ok <==> !obj.is_array() && repo.contains_key(obj.klassid) && slot_of(
            repo[obj.klassid],
            f,
        ) < obj.fields().len(),
        obj.field_slot(repo, f) != Err::<int, ObjFault>(ObjFault::InvalidLengthQuery),
        obj.length_query() == Err::<i32, ObjFault>(ObjFault::InvalidLengthQuery) <==> !obj.is_array(),
        obj.length_query() is Ok <==> obj.is_array(),
{
}

/// An object that has the fields of its class reaches every field that the
/// class declares and no other, and a put leaves it such an object.
pub proof fn lemma_fitting_object(obj: ObjView, repo: Map<usize, Seq<OtField>>, f: OtField, val: JvmValue)
    requires
        obj.fits(repo),
    ensures
        obj.field_slot(repo, f) is Ok <==> repo[obj.klassid].contains(f),
        !repo[obj.klassid].contains(f) ==> obj.field_slot(repo, f) == Err::<int, ObjFault>(
            ObjFault::OffsetOutOfRange,
        ),
        obj.field_slot(repo, f) is Ok ==> obj.put_field(repo, f, val).fits(repo),
{
    lemma_slot_of(repo[obj.klassid], f, slot_of(repo[obj.klassid], f));
}

} // verus!
