//! Class descriptors: the field layout that an instance of a class follows.

use vstd::prelude::*;

verus! {

/// A field symbol: the interned name of an instance field. Two symbols name
/// the same field exactly when they are equal.
#[derive(Clone, Copy, Debug, PartialEq, Eq, Structural)]
pub struct OtField {
    pub symbol: u32,
}

/// The descriptor of a class: its id and its instance fields in slot order.
#[derive(Clone, Debug)]
pub struct OtKlass {
    pub id: usize,
    pub i_fields: Vec<OtField>,
}

/// The slot that `f` resolves to in `layout`: the first position that holds
/// `f`. A symbol that the layout does not hold resolves to the layout's
/// length, which is a slot of no instance.
pub open spec fn slot_of(layout: Seq<OtField>, f: OtField) -> int {
    match layout.index_of_first(f) {
        Some(slot) => slot,
        None => layout.len() as int,
    }
}

/// What tells `slot_of` from every other position: it lies within the layout
/// or at its end, no slot before it holds `f`, and where it lies within the
/// layout it holds `f`. It lies within the layout exactly when the layout
/// holds `f`.
pub proof fn lemma_slot_of(layout: Seq<OtField>, f: OtField, slot: int)
    ensures
        slot == slot_of(layout, f) <==> {
            &&& 0 <= slot <= layout.len()
            &&& slot < layout.len() ==> layout[slot] == f
            &&& forall|j: int| 0 <= j < slot ==> layout[j] != f
        },
        slot_of(layout, f) < layout.len() <==> layout.contains(f),
{
    layout.index_of_first_ensures(f);
}

impl View for OtKlass {
    type V = Seq<OtField>;

    /// The layout: the declared instance fields, slot by slot.
    open spec fn view(&self) -> Seq<OtField> {
        self.i_fields@
    }
}

impl OtKlass {
    /// Resolves a field symbol to its storage offset in an instance.
    pub fn get_field_offset(&self, f: &OtField) -> (offset: usize)
        ensures
            offset == slot_of(self@, *f),
    {
        let mut i: usize = 0;
        while i < self.i_fields.len()
            invariant
                i <= self.i_fields.len(),
                forall|j: int| 0 <= j < i ==> self.i_fields@[j] != *f,
            decreases self.i_fields.len() - i,
        {
            if self.i_fields[i] == *f {
                proof {
                    lemma_slot_of(self@, *f, i as int);
                }
                return i;
            }
            i += 1;
        }
        proof {
            lemma_slot_of(self@, *f, i as int);
        }
        i
    }
}

} // verus!
