//! Heap objects: their shape, their construction and the access to their
//! fields.

use vstd::prelude::*;
use vstd::string::StringExecFns;
use crate::decimal::{append_decimal, decimal};
use crate::klass::{slot_of, OtField};
use crate::klass_repo::SharedKlassRepo;
use crate::value::JvmValue;

verus! {

/// The class id that every array of 32-bit integers carries.
pub const INT_ARRAY_KLASSID: usize = 2;

/// A value on the managed heap. The three shapes share a header: the id of
/// the allocation, the collector's mark word and the id of the class.
#[allow(non_camel_case_types)]
#[allow(inconsistent_fields)]
#[derive(Clone, Debug)]
pub enum OtObj {
    vm_obj { id: usize, mark: u64, klassid: usize, fields: Vec<JvmValue> },
    vm_arr_int { id: usize, mark: u64, klassid: usize, length: i32, elements: Vec<i32> },
    vm_arr_long { id: usize, mark: u64, klassid: usize, length: i32, elements: Vec<i64> },
}

/// Why an access to a heap object cannot be carried out.
#[derive(Clone, Copy, Debug, PartialEq, Eq, Structural)]
pub enum ObjFault {
    /// A field was asked of an array.
    WrongVariant,
    /// The object's class id names no class of the repository.
    MissingClassMetadata,
    /// The field resolves to a slot that the object does not have.
    OffsetOutOfRange,
    /// The length was asked of a plain object.
    InvalidLengthQuery,
}

/// What an object holds behind its header.
#[allow(inconsistent_fields)]
pub enum Payload {
    Fields(Seq<JvmValue>),
    Ints { length: i32, elements: Seq<i32> },
    Longs { length: i32, elements: Seq<i64> },
}

/// The mathematical model of a heap object.
pub struct ObjView {
    pub id: usize,
    pub mark: u64,
    pub klassid: usize,
    pub payload: Payload,
}

impl ObjView {
    /// A plain instance of class `klass_id`, fresh from the allocator.
    pub open spec fn plain(klass_id: usize, obj_id: usize, fields: Seq<JvmValue>) -> ObjView {
        ObjView { id: obj_id, mark: 0, klassid: klass_id, payload: Payload::Fields(fields) }
    }

    /// An array of `size` 32-bit integers, all zero.
    pub open spec fn int_array(size: i32, obj_id: usize) -> ObjView {
        ObjView {
            id: obj_id,
            mark: 0,
            klassid: INT_ARRAY_KLASSID,
            payload: Payload::Ints { length: size, elements: Seq::new(size as nat, |i: int| 0i32) },
        }
    }

    /// The canonical null object.
    pub open spec fn null() -> ObjView {
        ObjView::plain(0, 0, Seq::empty())
    }

    /// The null test: a clear mark word and no class.
    pub open spec fn is_null(self) -> bool {
        self.mark == 0 && self.klassid == 0
    }

    /// Whether this is one of the two arrays, and no plain object.
    pub open spec fn is_array(self) -> bool {
        !(self.payload is Fields)
    }

    /// An array holds exactly as many elements as its length says.
    pub open spec fn wf(self) -> bool {
        match self.payload {
            Payload::Fields(_) => true,
            Payload::Ints { length, elements } => 0 <= length && elements.len() == length,
            Payload::Longs { length, elements } => 0 <= length && elements.len() == length,
        }
    }

    /// Whether this is a plain object with one field for each that its class
    /// declares in `repo`.
    pub open spec fn fits(self, repo: Map<usize, Seq<OtField>>) -> bool {
        &&& self.payload is Fields
        &&& repo.contains_key(self.klassid)
        &&& self.fields().len() == repo[self.klassid].len()
    }

    /// The length of an array, or the fault that the question meets.
    pub open spec fn length_query(self) -> Result<i32, ObjFault> {
        match self.payload {
            Payload::Fields(_) => Err(ObjFault::InvalidLengthQuery),
            Payload::Ints { length, .. } => Ok(length),
            Payload::Longs { length, .. } => Ok(length),
        }
    }

    /// The slot of this object that `f` names under the layouts of `repo`, or
    /// the fault that the access meets.
    pub open spec fn field_slot(self, repo: Map<usize, Seq<OtField>>, f: OtField) -> Result<int, ObjFault> {
        match self.payload {
            Payload::Fields(fields) => {
                if !repo.contains_key(self.klassid) {
                    Err(ObjFault::MissingClassMetadata)
                } else if slot_of(repo[self.klassid], f) < fields.len() {
                    Ok(slot_of(repo[self.klassid], f))
                } else {
                    Err(ObjFault::OffsetOutOfRange)
                }
            },
            _ => Err(ObjFault::WrongVariant),
        }
    }

    /// The fields of a plain object.
    pub open spec fn fields(self) -> Seq<JvmValue>
        recommends
            self.payload is Fields,
    {
        self.payload->Fields_0
    }

    /// This object with `val` in slot `slot`, and nothing else changed.
    pub open spec fn with_field(self, slot: int, val: JvmValue) -> ObjView
        recommends
            self.payload is Fields,
            0 <= slot < self.fields().len(),
    {
        ObjView { payload: Payload::Fields(self.fields().update(slot, val)), ..self }
    }

    /// This object after `val` was put into the field that `f` names.
    pub open spec fn put_field(self, repo: Map<usize, Seq<OtField>>, f: OtField, val: JvmValue) -> ObjView
        recommends
            self.field_slot(repo, f) is Ok,
    {
        self.with_field(self.field_slot(repo, f)->Ok_0, val)
    }

    /// What the field that `f` names holds.
    pub open spec fn get_value(self, repo: Map<usize, Seq<OtField>>, f: OtField) -> JvmValue
        recommends
            self.field_slot(repo, f) is Ok,
    {
        self.fields()[self.field_slot(repo, f)->Ok_0]
    }

    /// The one-line summary of an object: its mark word and its class id.
    pub open spec fn summary(self) -> Seq<char> {
        "MarK: "@ + decimal(self.mark as nat) + " ; Klass: "@ + decimal(self.klassid as nat)
    }
}

impl View for OtObj {
    type V = ObjView;

    open spec fn view(&self) -> ObjView {
        match *self {
            OtObj::vm_obj { id, mark, klassid, fields } => ObjView {
                id,
                mark,
                klassid,
                payload: Payload::Fields(fields@),
            },
            OtObj::vm_arr_int { id, mark, klassid, length, elements } => ObjView {
                id,
                mark,
                klassid,
                payload: Payload::Ints { length, elements: elements@ },
            },
            OtObj::vm_arr_long { id, mark, klassid, length, elements } => ObjView {
                id,
                mark,
                klassid,
                payload: Payload::Longs { length, elements: elements@ },
            },
        }
    }
}

impl OtObj {
    /// A plain instance of class `klass_id` with the given fields, taken as
    /// they are.
    pub fn obj_of(klass_id: usize, obj_id: usize, fields: Vec<JvmValue>) -> (obj: OtObj)
        ensures
            obj@ == ObjView::plain(klass_id, obj_id, fields@),
            obj@.wf(),
    {
        OtObj::vm_obj { id: obj_id, mark: 0u64, klassid: klass_id, fields: fields }
    }

    /// An array of `size` 32-bit integers, all zero. There is no array of a
    /// negative size.
    pub fn int_arr_of(size: i32, obj_id: usize) -> (obj: OtObj)
        requires
            0 <= size,
        ensures
            obj@ == ObjView::int_array(size, obj_id),
            obj@.wf(),
    {
        let sz = size as usize;
        let mut elts: Vec<i32> = Vec::with_capacity(sz);
        elts.resize(sz, 0);
        assert(elts@ =~= Seq::new(size as nat, |i: int| 0i32));
        OtObj::vm_arr_int {
            id: obj_id,
            mark: 0u64,
            klassid: INT_ARRAY_KLASSID,
            length: size,
            elements: elts,
        }
    }

    /// The slot of this object that `f` names, or the fault that an access
    /// to that field meets.
    pub fn field_slot(&self, repo: &SharedKlassRepo, f: OtField) -> (resolved: Result<usize, ObjFault>)
        ensures
            match self@.field_slot(repo@, f) {
                Ok(slot) => resolved matches Ok(s) && s == slot,
                Err(fault) => resolved == Err::<usize, ObjFault>(fault),
            },
    {
        match self {
            OtObj::vm_obj { id: _, mark: _, klassid, fields } => {
                match repo.lookup_klass(*klassid) {
                    Some(klass) => {
                        let offset = klass.get_field_offset(&f);
                        if offset < fields.len() {
                            Ok(offset)
                        } else {
                            Err(ObjFault::OffsetOutOfRange)
                        }
                    },
                    None => Err(ObjFault::MissingClassMetadata),
                }
            },
            _ => Err(ObjFault::WrongVariant),
        }
    }

    /// Overwrites the field that `f` names with `val`, for a receiver that has
    /// that field: `field_slot` tells. The class of the object is looked up in
    /// `repo` at every call.
    pub fn put_field(&mut self, repo: &SharedKlassRepo, f: OtField, val: JvmValue)
        requires
            old(self)@.field_slot(repo@, f) is Ok,
        ensures
            final(self)@ == old(self)@.put_field(repo@, f, val),
    {
        match self {
            OtObj::vm_obj { id: _, mark: _, klassid, fields } => {
                match repo.lookup_klass(*klassid) {
                    Some(klass) => {
                        let offset = klass.get_field_offset(&f);
                        fields[offset] = val;
                    },
                    None => unreached(),
                }
            },
            _ => unreached(),
        }
    }

    /// A copy of what the field that `f` names holds, for a receiver that has
    /// that field: `field_slot` tells.
    pub fn get_value(&self, repo: &SharedKlassRepo, f: OtField) -> (val: JvmValue)
        requires
            self@.field_slot(repo@, f) is Ok,
        ensures
            val == self@.get_value(repo@, f),
    {
        match self {
            OtObj::vm_obj { id: _, mark: _, klassid, fields } => {
                match repo.lookup_klass(*klassid) {
                    Some(klass) => {
                        let offset = klass.get_field_offset(&f);
                        fields[offset]
                    },
                    None => unreached(),
                }
            },
            _ => unreached(),
        }
    }

    /// `put_field` for any receiver: the fault in place of the write where the
    /// field cannot be reached, and the object then left as it was.
    pub fn try_put_field(&mut self, repo: &SharedKlassRepo, f: OtField, val: JvmValue) -> (done: Result<(), ObjFault>)
        ensures
            match old(self)@.field_slot(repo@, f) {
                Ok(_) => done is Ok && final(self)@ == old(self)@.put_field(repo@, f, val),
                Err(fault) => done == Err::<(), ObjFault>(fault) && *final(self) == *old(self),
            },
    {
        match self.field_slot(repo, f) {
            Ok(_) => {
                self.put_field(repo, f, val);
                Ok(())
            },
            Err(fault) => Err(fault),
        }
    }

    /// `get_value` for any receiver: the fault in place of the value where the
    /// field cannot be reached.
    pub fn try_get_value(&self, repo: &SharedKlassRepo, f: OtField) -> (got: Result<JvmValue, ObjFault>)
        ensures
            match self@.field_slot(repo@, f) {
                Ok(_) => got == Ok::<JvmValue, ObjFault>(self@.get_value(repo@, f)),
                Err(fault) => got == Err::<JvmValue, ObjFault>(fault),
            },
    {
        match self.field_slot(repo, f) {
            Ok(_) => Ok(self.get_value(repo, f)),
            Err(fault) => Err(fault),
        }
    }

    /// The canonical null object.
    pub fn get_null() -> (obj: OtObj)
        ensures
            obj@ == ObjView::null(),
            obj@.wf(),
    {
        OtObj::vm_obj { id: 0, mark: 0u64, klassid: 0, fields: Vec::new() }
    }

    /// Whether this is the null object.
    pub fn is_null(&self) -> (null: bool)
        ensures
            null == self@.is_null(),
    {
        if self.get_mark() == 0u64 && self.get_klassid() == 0 {
            true
        } else {
            false
        }
    }

    /// The id of the allocation.
    pub fn get_id(&self) -> (id: usize)
        ensures
            id == self@.id,
    {
        match *self {
            OtObj::vm_obj { id: i, mark: _, klassid: _, fields: _ } => i,
            OtObj::vm_arr_int { id: i, mark: _, klassid: _, length: _, elements: _ } => i,
            OtObj::vm_arr_long { id: i, mark: _, klassid: _, length: _, elements: _ } => i,
        }
    }

    /// The collector's mark word.
    pub fn get_mark(&self) -> (mark: u64)
        ensures
            mark == self@.mark,
    {
        match *self {
            OtObj::vm_obj { id: _, mark: m, klassid: _, fields: _ } => m,
            OtObj::vm_arr_int { id: _, mark: m, klassid: _, length: _, elements: _ } => m,
            OtObj::vm_arr_long { id: _, mark: m, klassid: _, length: _, elements: _ } => m,
        }
    }

    /// The id of the class that the object was made from.
    pub fn get_klassid(&self) -> (klassid: usize)
        ensures
            klassid == self@.klassid,
    {
        match *self {
            OtObj::vm_obj { id: _, mark: _, klassid: k, fields: _ } => k,
            OtObj::vm_arr_int { id: _, mark: _, klassid: k, length: _, elements: _ } => k,
            OtObj::vm_arr_long { id: _, mark: _, klassid: k, length: _, elements: _ } => k,
        }
    }

    /// The length of an array. A plain object has none.
    pub fn length(&self) -> (len: i32)
        requires
            self@.is_array(),
        ensures
            self@.length_query() == Ok::<i32, ObjFault>(len),
    {
        match *self {
            OtObj::vm_obj { id: _, mark: _, klassid: _, fields: _ } => unreached(),
            OtObj::vm_arr_int { id: _, mark: _, klassid: _, length: l, elements: _ } => l,
            OtObj::vm_arr_long { id: _, mark: _, klassid: _, length: l, elements: _ } => l,
        }
    }

    /// `length` for any receiver: a plain object gives `InvalidLengthQuery`.
    pub fn try_length(&self) -> (len: Result<i32, ObjFault>)
        ensures
            len == self@.length_query(),
    {
        match self {
            OtObj::vm_obj { .. } => Err(ObjFault::InvalidLengthQuery),
            _ => Ok(self.length()),
        }
    }

    /// The one-line summary of this object, for diagnostics.
    pub fn to_string(&self) -> (text: String)
        ensures
            text@ == self@.summary(),
    {
        let mut text = String::new();
        text.append("MarK: ");
        append_decimal(&mut text, self.get_mark());
        text.append(" ; Klass: ");
        append_decimal(&mut text, self.get_klassid() as u64);
        text
    }
}

} // verus!
