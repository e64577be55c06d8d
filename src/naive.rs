use std::rc;
use vstd::prelude::*;

use crate::interface::{self, Sign, VarSize};

verus! {

/// A header beside a shared, immutable, reference-counted item buffer.
pub struct Rc<H, T> {
    header: H,
    items: rc::Rc<[T]>,
}

/// Relies on std's `From<Vec<T>> for Rc<[T]>`: the new shared slice holds
/// the vector's items, in order.
#[verifier::external_body]
fn shared_slice<T>(v: Vec<T>) -> (r: rc::Rc<[T]>)
    ensures
        (*r)@ == v@,
{
    rc::Rc::from(v)
}

impl<H, T> interface::VarSize for Rc<H, T> {
    type Header = H;
    type Item = T;

    closed spec fn header_view(&self) -> H {
        self.header
    }

    closed spec fn items_view(&self) -> Seq<T> {
        (*self.items)@
    }

    /// Never refuses: every header and item vector gives a value.
    fn new(header: H, s: Vec<T>) -> (r: Option<Self>)
        ensures
            r is Some,
            r.unwrap().header_view() == header,
            r.unwrap().items_view() == s@,
            s@.len() == 0 ==> r.unwrap().items_view().len() == 0,
    {
        Some(Rc { header, items: shared_slice(s) })
    }

    /// A plain borrow of the header.
    fn header(&self) -> (r: &H) {
        &self.header
    }

    /// A plain borrow of the shared item buffer.
    fn items(&self) -> (r: &[T]) {
        &*self.items
    }
}

impl<H: Copy, T> Clone for Rc<H, T> {
    /// Shares the item buffer with `self` (one more reference to it) and
    /// copies the header; the items are not copied.
    fn clone(&self) -> (r: Self)
        ensures
            r.header_view() == self.header_view(),
            r.items_view() == self.items_view(),
    {
        Rc { header: self.header, items: self.items.clone() }
    }
}

pub type String = Rc<(), u16>;

pub type BigInt = Rc<Sign, u64>;

pub type Object = Rc<(), (String, Any)>;

pub type Array = Rc<(), Any>;

pub type Function = Rc<u32, u8>;

/// A dynamically typed value: exactly one of the five kinds.
pub enum Any {
    String(String),
    BigInt(BigInt),
    Array(Array),
    Object(Object),
    Function(Function),
}

impl interface::String for String {

}

impl interface::BigInt for BigInt {

}

impl interface::Object for Object {
    type Any = Any;
}

impl interface::Array for Array {
    type Any = Any;
}

impl interface::Function for Function {

}

impl interface::Any for Any {
    type String = String;
    type Object = Object;
    type Array = Array;
    type BitInt = BigInt;
    type Function = Function;
}

} // verus!
