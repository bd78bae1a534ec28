//! Sinks that repetition collects matched values into.
use vstd::prelude::*;

verus! {

/// A sink for the values that a repeated rule matches.
///
/// `contents` is what the sink holds, `with_item` what it holds after one more
/// item is put in, and `size_of` what `len` reports for given contents.
pub trait Collection<Item>: Sized {
    type Contents;

    spec fn contents(&self) -> Self::Contents;

    spec fn with_item(m: Self::Contents, item: Item) -> Self::Contents;

    spec fn size_of(m: Self::Contents) -> nat;

    fn put(&mut self, item: Item)
        ensures
            (*final(self)).contents() == Self::with_item((*old(self)).contents(), item),
    ;

    fn len(&self) -> (n: usize)
        ensures
            n == Self::size_of(self.contents()),
    ;

    fn is_empty(&self) -> (b: bool)
        ensures
            b == (Self::size_of(self.contents()) == 0),
    {
        self.len() == 0
    }
}

/// A sink that only counts what it is given, up to `usize::MAX`.
#[derive(Debug, Clone, Copy, PartialEq, Eq)]
pub struct Counter(pub usize);

/// Relies on String::push: the char is appended at the end of the string.
#[verifier::external_body]
pub(crate) fn push_char(s: &mut String, c: char)
    ensures
        final(s)@ == old(s)@.push(c),
{
    s.push(c)
}

impl<Item> Collection<Item> for () {
    type Contents = ();

    open spec fn contents(&self) -> () {
        ()
    }

    open spec fn with_item(m: (), item: Item) -> () {
        ()
    }

    open spec fn size_of(m: ()) -> nat {
        0
    }

    fn put(&mut self, item: Item) {
    }

    fn len(&self) -> (n: usize) {
        0
    }
}

impl<Item> Collection<Item> for Counter {
    type Contents = nat;

    open spec fn contents(&self) -> nat {
        self.0 as nat
    }

    open spec fn with_item(m: nat, item: Item) -> nat {
        if m < usize::MAX {
            m + 1
        } else {
            m
        }
    }

    open spec fn size_of(m: nat) -> nat {
        m
    }

    fn put(&mut self, item: Item) {
        if self.0 < usize::MAX {
            self.0 = self.0 + 1;
        }
    }

    fn len(&self) -> (n: usize) {
        self.0
    }
}

impl Collection<char> for String {
    type Contents = Seq<char>;

    open spec fn contents(&self) -> Seq<char> {
        self@
    }

    open spec fn with_item(m: Seq<char>, item: char) -> Seq<char> {
        m.push(item)
    }

    /// The length in bytes of the UTF-8 encoding, as `str::len` reports it.
    open spec fn size_of(m: Seq<char>) -> nat {
        (vstd::utf8::encode_utf8(m).len() as usize) as nat
    }

    fn put(&mut self, item: char) {
        push_char(self, item)
    }

    fn len(&self) -> (n: usize) {
        let s = self.as_str();
        assert(s@ == self@);
        s.len()
    }
}

impl<Item> Collection<Item> for Vec<Item> {
    type Contents = Seq<Item>;

    open spec fn contents(&self) -> Seq<Item> {
        self@
    }

    open spec fn with_item(m: Seq<Item>, item: Item) -> Seq<Item> {
        m.push(item)
    }

    open spec fn size_of(m: Seq<Item>) -> nat {
        m.len()
    }

    fn put(&mut self, item: Item) {
        self.push(item)
    }

    fn len(&self) -> (n: usize) {
        self.len()
    }
}

impl<Item, C: Collection<Item>> Collection<Item> for Box<C> {
    type Contents = C::Contents;

    open spec fn contents(&self) -> C::Contents {
        (**self).contents()
    }

    open spec fn with_item(m: C::Contents, item: Item) -> C::Contents {
        C::with_item(m, item)
    }

    open spec fn size_of(m: C::Contents) -> nat {
        C::size_of(m)
    }

    fn put(&mut self, item: Item) {
        (**self).put(item)
    }

    fn is_empty(&self) -> (b: bool) {
        (**self).is_empty()
    }

    fn len(&self) -> (n: usize) {
        (**self).len()
    }
}

impl<'a, Item, C: Collection<Item>> Collection<Item> for &'a mut C {
    type Contents = C::Contents;

    open spec fn contents(&self) -> C::Contents {
        (**self).contents()
    }

    open spec fn with_item(m: C::Contents, item: Item) -> C::Contents {
        C::with_item(m, item)
    }

    open spec fn size_of(m: C::Contents) -> nat {
        C::size_of(m)
    }

    fn put(&mut self, item: Item) {
        (**self).put(item)
    }

    fn is_empty(&self) -> (b: bool) {
        (**self).is_empty()
    }

    fn len(&self) -> (n: usize) {
        (**self).len()
    }
}

} // verus!
