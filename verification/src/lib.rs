//! A late-initialized cell: a container that receives its value through a
//! single write and is read-only ever after.
//!
//! A [`LateInit`] starts empty, is filled exactly once by [`LateInit::init`],
//! and from then on acts as a transparent proxy for the contained value: it
//! can be dereferenced, borrowed, compared against other values, cloned and
//! rendered as text. Initializing a cell twice and reading a cell before its
//! one write are programming errors, so every accessor that could run into
//! them carries a precondition that rules the misuse out; no runtime check
//! and no recoverable error value is ever needed. The two rendering
//! operations are the deliberate exception: they are meant for diagnostics
//! of partially set-up state, so on an empty cell they degrade to a fixed
//! placeholder token instead of demanding initialization.

use vstd::prelude::*;

verus! {

use core::cmp::Ordering;
use vstd::std_specs::cmp::{PartialEqSpec, PartialOrdSpec};
use vstd::string::to_string_from_display_ensures;

/// The placeholder token that both rendering operations produce for a cell
/// that has not been initialized yet.
pub open spec fn placeholder_text() -> Seq<char> {
    "<UNINITIALIZED>"@
}

/// A write-once cell. Empty at construction, it holds a value of `T` from its
/// single initialization onwards and never mutates or replaces that value.
pub struct LateInit<T> {
    slot: Option<T>,
}

impl<T> View for LateInit<T> {
    type V = Option<T>;

    closed spec fn view(&self) -> Option<T> {
        self.slot
    }
}

impl<T> LateInit<T> {
    /// True once the cell has received its value.
    pub open spec fn is_init(&self) -> bool {
        self@ is Some
    }

    /// The value the cell was initialized with.
    pub open spec fn value(&self) -> T
        recommends
            self.is_init(),
    {
        self@->Some_0
    }

    /// Create a new, empty cell.
    pub fn new() -> (cell: Self)
        ensures
            cell@ == None::<T>,
            !cell.is_init(),
    {
        LateInit { slot: None }
    }

    /// Assign the cell its value. The cell must not have been initialized
    /// before; afterwards it holds `value` for the rest of its lifetime.
    pub fn init(&mut self, value: T)
        requires
            !old(self).is_init(),
        ensures
            final(self)@ == Some(value),
            final(self).is_init(),
            final(self).value() == value,
    {
        self.slot = Some(value);
    }

    /// Borrow the slot itself, occupied or not.
    pub fn option(&self) -> (slot: &Option<T>)
        ensures
            *slot == self@,
    {
        &self.slot
    }

    /// Borrow the contained value.
    pub fn data(&self) -> (r: &T)
        requires
            self.is_init(),
        ensures
            *r == self.value(),
    {
        match &self.slot {
            Some(x) => x,
            None => unreached(),
        }
    }

    /// Dereference to the contained value, so the cell can stand in wherever
    /// a borrow of the payload is expected.
    pub fn deref(&self) -> (r: &T)
        requires
            self.is_init(),
        ensures
            *r == self.value(),
    {
        self.data()
    }

    /// Borrow the contained value as a plain reference.
    pub fn as_ref(&self) -> (r: &T)
        requires
            self.is_init(),
        ensures
            *r == self.value(),
    {
        self.data()
    }
}

impl<T: Clone> LateInit<T> {
    /// Clone the contained value into an independently owned copy. This is an
    /// inherent operation rather than a `Clone` implementation on the cell:
    /// the cell supports no assignment over an existing value, which a full
    /// duplication contract would imply.
    pub fn clone(&self) -> (copy: T)
        requires
            self.is_init(),
        ensures
            cloned(self.value(), copy),
    {
        self.data().clone()
    }
}

impl<T> LateInit<T> {
    /// Compare the contained value against `other` for equality.
    pub fn eq<W>(&self, other: &W) -> (r: bool) where T: PartialEq<W>
        requires
            self.is_init(),
        ensures
            <T as PartialEqSpec<W>>::obeys_eq_spec() ==> r == self.value().eq_spec(other),
    {
        self.data().eq(other)
    }

    /// Compare the contained value against `other` for inequality.
    pub fn ne<W>(&self, other: &W) -> (r: bool) where T: PartialEq<W>
        requires
            self.is_init(),
        ensures
            <T as PartialEqSpec<W>>::obeys_eq_spec() ==> r == !self.value().eq_spec(other),
    {
        self.data().ne(other)
    }
}

impl<T> LateInit<T> {
    /// Order the contained value against `other`.
    pub fn partial_cmp<W>(&self, other: &W) -> (r: Option<Ordering>) where T: PartialOrd<W>
        requires
            self.is_init(),
        ensures
            <T as PartialOrdSpec<W>>::obeys_partial_cmp_spec() ==> r == self.value().partial_cmp_spec(other),
    {
        self.data().partial_cmp(other)
    }

    /// True when the contained value orders strictly below `other`.
    pub fn lt<W>(&self, other: &W) -> (r: bool) where T: PartialOrd<W>
        requires
            self.is_init(),
        ensures
            <T as PartialOrdSpec<W>>::obeys_partial_cmp_spec() ==> (r <==> self.value().partial_cmp_spec(
                other,
            ) == Some(Ordering::Less)),
    {
        self.data().lt(other)
    }

    /// True when the contained value orders at or below `other`.
    pub fn le<W>(&self, other: &W) -> (r: bool) where T: PartialOrd<W>
        requires
            self.is_init(),
        ensures
            <T as PartialOrdSpec<W>>::obeys_partial_cmp_spec() ==> (r <==> self.value().partial_cmp_spec(
                other,
            ) matches Some(Ordering::Less | Ordering::Equal)),
    {
        self.data().le(other)
    }

    /// True when the contained value orders strictly above `other`.
    pub fn gt<W>(&self, other: &W) -> (r: bool) where T: PartialOrd<W>
        requires
            self.is_init(),
        ensures
            <T as PartialOrdSpec<W>>::obeys_partial_cmp_spec() ==> (r <==> self.value().partial_cmp_spec(
                other,
            ) == Some(Ordering::Greater)),
    {
        self.data().gt(other)
    }

    /// True when the contained value orders at or above `other`.
    pub fn ge<W>(&self, other: &W) -> (r: bool) where T: PartialOrd<W>
        requires
            self.is_init(),
        ensures
            <T as PartialOrdSpec<W>>::obeys_partial_cmp_spec() ==> (r <==> self.value().partial_cmp_spec(
                other,
            ) matches Some(Ordering::Greater | Ordering::Equal)),
    {
        self.data().ge(other)
    }
}

/// Relies on `format!` with the `{:?}` formatter: renders a value through its
/// `core::fmt::Debug` implementation.
#[verifier::external_body]
fn debug_render<T: core::fmt::Debug>(value: &T) -> String {
    format!("{:?}", value)
}

impl<T: core::fmt::Debug> LateInit<T> {
    /// Render the cell for debugging. An initialized cell delegates to the
    /// payload's debug rendering; an empty cell yields the fixed placeholder
    /// token instead of failing, so that diagnostics stay safe before setup
    /// completes.
    pub fn debug_string(&self) -> (r: String)
        ensures
            !self.is_init() ==> r@ == placeholder_text(),
    {
        match &self.slot {
            Some(x) => debug_render(x),
            None => "<UNINITIALIZED>".to_owned(),
        }
    }
}

impl<T: core::fmt::Display> LateInit<T> {
    /// Render the cell for humans. An initialized cell delegates to the
    /// payload's display rendering; an empty cell yields the fixed
    /// placeholder token instead of failing.
    pub fn display_string(&self) -> (r: String)
        ensures
            !self.is_init() ==> r@ == placeholder_text(),
            self.is_init() ==> to_string_from_display_ensures::<T>(&self.value(), r),
    {
        match &self.slot {
            Some(x) => x.to_string(),
            None => "<UNINITIALIZED>".to_owned(),
        }
    }
}

/// Law: single write. A cell whose slot was filled with `value` — which its
/// one permitted `init` is the only way to bring about — observes exactly
/// that value through every read accessor, since each of them returns
/// `value()`.
pub proof fn lemma_single_write<T>(cell: &LateInit<T>, value: T)
    requires
        cell@ == Some(value),
    ensures
        cell.is_init(),
        cell.value() == value,
{
}

/// Law: idempotent reads. The read accessors of an initialized cell all
/// return `value()`, so any two reads, in any order and however often
/// repeated, observe equal results: nothing mutates the cell after its one
/// write.
pub proof fn lemma_reads_idempotent<T>(cell: &LateInit<T>, first: &T, second: &T)
    requires
        cell.is_init(),
        *first == cell.value(),
        *second == cell.value(),
    ensures
        *first == *second,
{
}

} // verus!
