use vstd::prelude::*;

verus! {

/// The sign of a big integer: `Positive` stands for +1, `Negative` for -1.
#[derive(Clone, Copy, Debug, PartialEq, Eq, Structural)]
pub enum Sign {
    Positive,
    Negative,
}

/// A value made of one header and a fixed, ordered sequence of items,
/// both set once at construction and never changed afterwards.
pub trait VarSize: Sized {
    type Header;
    type Item;

    /// The header this value was built with.
    spec fn header_view(&self) -> Self::Header;

    /// The items this value was built with, in order.
    spec fn items_view(&self) -> Seq<Self::Item>;

    /// Builds a value from a header and its items. A backend may refuse
    /// (`None`); a value it does return holds exactly `h` and `c`, in order.
    fn new(h: Self::Header, c: Vec<Self::Item>) -> (r: Option<Self>)
        ensures
            r matches Some(v) ==> v.header_view() == h && v.items_view() == c@,
    ;

    /// The header, exactly as it was given to `new`.
    fn header(&self) -> (r: &Self::Header)
        ensures
            *r == self.header_view(),
    ;

    /// All items, contiguous and in the order they were given to `new`.
    fn items(&self) -> (r: &[Self::Item])
        ensures
            r@ == self.items_view(),
    ;
}

/// Text: no header, UTF-16 code units as items.
pub trait String: VarSize<Header = (), Item = u16> {

}

/// Sign-magnitude integer: the sign as header, digits of radix 2^64 as items.
pub trait BigInt: VarSize<Header = Sign, Item = u64> {

}

/// Ordered association list from strings to dynamic values.
pub trait Object: VarSize<Header = (), Item = (<Self::Any as Any>::String, Self::Any)> {
    type Any: Any<Object = Self>;
}

/// Ordered sequence of dynamic values.
pub trait Array: VarSize<Header = (), Item = Self::Any> {
    type Any: Any<Array = Self>;
}

/// Bytecode body with one 32-bit metadata word as header.
pub trait Function: VarSize<Header = u32, Item = u8> {

}

/// One family of the five kinds of value, so that objects and arrays can
/// hold each other through the same dynamic value type. The object and
/// array kinds are bound to the family from their own side
/// (`Object::Any` and `Array::Any`), which keeps the trait graph acyclic.
pub trait Any {
    type String: String;
    type Object;
    type Array;
    type BitInt: BigInt;
    type Function: Function;
}

} // verus!
