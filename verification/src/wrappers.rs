//! Generic holder types: a single-value container, a heterogeneous pair, a
//! borrowing wrapper, and owning wrappers around the standard smart
//! pointers.

use vstd::prelude::*;
use std::rc::Rc;
use std::sync::Arc;

verus! {

/// A type whose values can be duplicated explicitly.
pub trait Cloneable {
    fn clone_obj(&self) -> Self where Self: Sized;
}

/// A type with a byte representation it can be rebuilt from.
pub trait Serializable {
    fn serialize(&self) -> Vec<u8>;

    fn deserialize(data: &[u8]) -> Result<Self, String> where Self: Sized;
}

/// A container that owns a single value of any type.
pub struct Container<T> {
    value: T,
}

impl<T> Container<T> {
    /// The contained value.
    pub closed spec fn spec_value(&self) -> T {
        self.value
    }

    /// A container holding `value`.
    pub fn new(value: T) -> (r: Container<T>)
        ensures
            r.spec_value() == value,
    {
        Container { value }
    }

    /// Borrows the contained value.
    pub fn get(&self) -> (r: &T)
        ensures
            *r == self.spec_value(),
    {
        &self.value
    }

    /// Replaces the contained value.
    pub fn set(&mut self, value: T)
        ensures
            final(self).spec_value() == value,
    {
        self.value = value;
    }

    /// Consumes the container and moves the value out.
    pub fn into_inner(self) -> (r: T)
        ensures
            r == self.spec_value(),
    {
        self.value
    }
}

impl<T: Clone> Container<T> {
    /// Clones the contained value without consuming the container.
    pub fn clone_value(&self) -> (r: T)
        ensures
            vstd::pervasive::cloned(self.spec_value(), r),
    {
        self.value.clone()
    }
}

/// A container holding `value`.
pub fn make_container<T>(value: T) -> (r: Container<T>)
    ensures
        r.spec_value() == value,
{
    Container::new(value)
}

/// An ordered pair of two values of possibly different types.
pub struct Pair<T, U> {
    first: T,
    second: U,
}

impl<T, U> Pair<T, U> {
    /// The first component.
    pub closed spec fn spec_first(&self) -> T {
        self.first
    }

    /// The second component.
    pub closed spec fn spec_second(&self) -> U {
        self.second
    }

    /// The pair `(first, second)`.
    pub fn new(first: T, second: U) -> (r: Pair<T, U>)
        ensures
            r.spec_first() == first,
            r.spec_second() == second,
    {
        Pair { first, second }
    }

    /// Borrows the first component.
    pub fn get_first(&self) -> (r: &T)
        ensures
            *r == self.spec_first(),
    {
        &self.first
    }

    /// Borrows the second component.
    pub fn get_second(&self) -> (r: &U)
        ensures
            *r == self.spec_second(),
    {
        &self.second
    }

    /// Consumes the pair and returns it with the components exchanged.
    pub fn swap(self) -> (r: Pair<U, T>)
        ensures
            r.spec_first() == self.spec_second(),
            r.spec_second() == self.spec_first(),
    {
        Pair { first: self.second, second: self.first }
    }
}

/// A wrapper around a borrowed value.
pub struct Wrapper<'a, T> {
    data: &'a T,
}

impl<'a, T> Wrapper<'a, T> {
    /// The borrowed value.
    pub closed spec fn spec_data(&self) -> T {
        *self.data
    }

    /// A wrapper borrowing `data`.
    pub fn new(data: &'a T) -> (r: Wrapper<'a, T>)
        ensures
            r.spec_data() == *data,
    {
        Wrapper { data }
    }

    /// The borrowed value.
    pub fn get(&self) -> (r: &T)
        ensures
            *r == self.spec_data(),
    {
        self.data
    }
}

/// An owning wrapper that keeps its value on the heap.
pub struct SmartBox<T> {
    inner: Box<T>,
}

impl<T> SmartBox<T> {
    /// The boxed value.
    pub closed spec fn spec_value(&self) -> T {
        *self.inner
    }

    /// Moves `value` to the heap.
    pub fn new(value: T) -> (r: SmartBox<T>)
        ensures
            r.spec_value() == value,
    {
        SmartBox { inner: Box::new(value) }
    }

    /// Borrows the boxed value.
    pub fn get(&self) -> (r: &T)
        ensures
            *r == self.spec_value(),
    {
        &self.inner
    }

    /// Borrows the boxed value mutably; writes through the borrow are
    /// writes to the boxed value.
    pub fn get_mut(&mut self) -> (r: &mut T)
        ensures
            *r == old(self).spec_value(),
            final(self).spec_value() == *final(r),
    {
        &mut self.inner
    }
}

/// A wrapper around a reference-counted shared value.
pub struct RefCounted<T> {
    inner: Rc<T>,
}

/// Relies on std's `<Rc<T> as Clone>::clone`: the clone shares the same
/// allocation as the original, so it holds the same value.
#[verifier::external_body]
fn rc_clone<T>(rc: &Rc<T>) -> (r: Rc<T>)
    ensures
        r == *rc,
{
    Rc::clone(rc)
}

impl<T> RefCounted<T> {
    /// The shared value.
    pub closed spec fn spec_value(&self) -> T {
        *self.inner
    }

    /// A freshly allocated shared value.
    pub fn new(value: T) -> (r: RefCounted<T>)
        ensures
            r.spec_value() == value,
    {
        RefCounted { inner: Rc::new(value) }
    }

    /// A new handle to the same shared value.
    pub fn clone_rc(&self) -> (r: RefCounted<T>)
        ensures
            r.spec_value() == self.spec_value(),
    {
        RefCounted { inner: rc_clone(&self.inner) }
    }

    /// Borrows the shared value.
    pub fn get(&self) -> (r: &T)
        ensures
            *r == self.spec_value(),
    {
        &self.inner
    }
}

/// A wrapper around an atomically reference-counted shared value, fit for
/// handing across threads.
pub struct ThreadSafe<T> {
    inner: Arc<T>,
}

/// Relies on std's `<Arc<T> as Clone>::clone`: the clone shares the same
/// allocation as the original, so it holds the same value.
#[verifier::external_body]
fn arc_clone<T>(arc: &Arc<T>) -> (r: Arc<T>)
    ensures
        r == *arc,
{
    Arc::clone(arc)
}

impl<T> ThreadSafe<T> {
    /// The shared value.
    pub closed spec fn spec_value(&self) -> T {
        *self.inner
    }

    /// A freshly allocated shared value.
    pub fn new(value: T) -> (r: ThreadSafe<T>)
        ensures
            r.spec_value() == value,
    {
        ThreadSafe { inner: Arc::new(value) }
    }

    /// A new handle to the same shared value.
    pub fn clone_arc(&self) -> (r: ThreadSafe<T>)
        ensures
            r.spec_value() == self.spec_value(),
    {
        ThreadSafe { inner: arc_clone(&self.inner) }
    }

    /// Borrows the shared value.
    pub fn get(&self) -> (r: &T)
        ensures
            *r == self.spec_value(),
    {
        &self.inner
    }
}

} // verus!
