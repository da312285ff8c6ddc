use vstd::prelude::*;

verus! {

/// Something that can report a small value of itself.
pub trait Bar {
    /// The value, as the contracts see it.
    spec fn value_spec(&self) -> u8;

    /// The value this thing reports.
    fn value(&self) -> (r: u8)
        ensures
            r == self.value_spec(),
    ;
}

/// Holds any one `Bar` and passes its value on.
pub struct Foo<B: Bar> {
    pub bar: B,
}

impl<B: Bar> Foo<B> {
    /// Wraps the given `Bar`.
    pub fn new(bar: B) -> (r: Foo<B>)
        ensures
            r.bar == bar,
    {
        Foo { bar }
    }

    /// The value of the wrapped `Bar`.
    pub fn use_bar(&self) -> (r: u8)
        ensures
            r == self.bar.value_spec(),
    {
        self.bar.value()
    }
}

/// A stool at the bar; it is worth six.
pub struct Barstool {}

impl Bar for Barstool {
    open spec fn value_spec(&self) -> u8 {
        6
    }

    fn value(&self) -> (r: u8) {
        6
    }
}

/// A tab at the bar; it is worth four.
pub struct Bartab {}

impl Bar for Bartab {
    open spec fn value_spec(&self) -> u8 {
        4
    }

    fn value(&self) -> (r: u8) {
        4
    }
}

} // verus!
