//! A value that holds a pointer to one of its own fields.
//!
//! The pointer is kept as what it refers to rather than as an address:
//! nothing at all, the value's own `data`, or the place `data` occupied
//! before the value was moved. Rust does not keep a value in place: every
//! move, the return from the function that built it included, may put it
//! somewhere else while the pointer keeps the old place. So once a value
//! has left the function that aimed its pointer, the pointer is stale, and
//! a read through it is refused.

use vstd::prelude::*;

verus! {

/// What the self pointer of a [`SelfReferential`] refers to.
#[derive(PartialEq, Eq, Structural, Clone, Copy, Debug)]
pub enum SelfPointer {
    /// The null pointer a value starts out with.
    Null,
    /// The `data` field of the value that holds the pointer, at the place
    /// the value occupies while the pointer is taken.
    OwnData,
    /// The place `data` occupied before the value was moved away from it.
    Stale,
}

/// A string together with a pointer meant to refer to that string.
pub struct SelfReferential {
    data: String,
    self_pointer: SelfPointer,
}

impl View for SelfReferential {
    type V = (Seq<char>, SelfPointer);

    closed spec fn view(&self) -> (Seq<char>, SelfPointer) {
        (self.data@, self.self_pointer)
    }
}

/// The state of a value after it is moved: the data goes along, and a
/// non-null pointer is left referring to the old place.
pub open spec fn after_move(v: (Seq<char>, SelfPointer)) -> (Seq<char>, SelfPointer) {
    (v.0, if v.1 == SelfPointer::Null { SelfPointer::Null } else { SelfPointer::Stale })
}

/// The state of a value handed back by [`SelfReferential::new`]: its pointer
/// was aimed at its own `data`, and the return then moved the value.
pub open spec fn built(data: Seq<char>) -> (Seq<char>, SelfPointer) {
    after_move((data, SelfPointer::OwnData))
}

/// What a read through the pointer gives: the data while the pointer refers
/// to it, nothing otherwise.
pub open spec fn read_through(v: (Seq<char>, SelfPointer)) -> Option<Seq<char>> {
    if v.1 == SelfPointer::OwnData {
        Some(v.0)
    } else {
        None
    }
}

impl SelfReferential {
    /// Builds the value with a null pointer, aims the pointer at its own
    /// `data`, and hands the value back; handing it back is a move, so the
    /// pointer the caller gets refers to the place `data` had inside `new`.
    pub fn new(data: String) -> (sr: SelfReferential)
        ensures
            sr@ == built(data@),
    {
        let mut sr = SelfReferential { data, self_pointer: SelfPointer::Null };
        sr.self_pointer = SelfPointer::OwnData;
        sr.moved()
    }

    /// The value after a move: the data and the pointer are carried along
    /// unchanged, so a pointer that referred to the old place of `data` no
    /// longer refers to this value's `data`.
    fn moved(self) -> (sr: SelfReferential)
        ensures
            sr@ == after_move(self@),
    {
        let self_pointer = match self.self_pointer {
            SelfPointer::Null => SelfPointer::Null,
            _ => SelfPointer::Stale,
        };
        SelfReferential { data: self.data, self_pointer }
    }

    /// The string the value holds.
    pub fn data(&self) -> (d: &String)
        ensures
            d@ == self@.0,
    {
        &self.data
    }

    /// What the self pointer refers to.
    pub fn self_pointer(&self) -> (p: SelfPointer)
        ensures
            p == self@.1,
    {
        self.self_pointer
    }

    /// Reads the string through the self pointer. The read is answered only
    /// while the pointer refers to this value's own `data`; a null or stale
    /// pointer gives `None`.
    pub fn pointee(&self) -> (r: Option<&String>)
        ensures
            r is Some <==> read_through(self@) is Some,
            r is Some ==> r.unwrap()@ == read_through(self@).unwrap(),
    {
        match self.self_pointer {
            SelfPointer::OwnData => Some(&self.data),
            _ => None,
        }
    }
}

/// A value handed back by `new` holds the data it was built with and a
/// pointer that is not null but no longer refers to that data, so a read
/// through it is refused.
pub proof fn lemma_built_value_has_stale_pointer(data: Seq<char>)
    ensures
        built(data).0 == data,
        built(data).1 == SelfPointer::Stale,
        read_through(built(data)) is None,
{
}

/// Once a value has been moved, a read through its pointer is refused,
/// whatever state the value was in before.
pub proof fn lemma_move_leaves_pointer_dangling(v: (Seq<char>, SelfPointer))
    ensures
        read_through(after_move(v)) is None,
        after_move(v).1 != SelfPointer::OwnData,
{
}

/// A move carries the data along unchanged.
pub proof fn lemma_move_keeps_data(v: (Seq<char>, SelfPointer))
    ensures
        after_move(v).0 == v.0,
{
}

/// Moving again changes nothing more: a stale pointer stays stale, so a
/// value handed back by `new` is in the same state however often it is
/// moved afterwards.
pub proof fn lemma_move_twice_is_move_once(v: (Seq<char>, SelfPointer))
    ensures
        after_move(after_move(v)) == after_move(v),
        after_move(built(v.0)) == built(v.0),
{
}

} // verus!
