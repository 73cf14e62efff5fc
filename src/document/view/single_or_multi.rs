//! Single or multiple values view.
//!
//! A repeatable property holds either one bare node or an array of nodes. Both
//! read here as one sequence: an array stands for its elements, any other node
//! for itself alone.
use vstd::prelude::*;

use core::marker::PhantomData;

use crate::document::view::{converted, Result, TryFromJsonValue};
use crate::document::JsonValue;

verus! {

/// The items that a node stands for: the elements of an array, or the node
/// itself.
pub open spec fn single_or_multi_items(value: JsonValue) -> Seq<JsonValue> {
    match value {
        JsonValue::Array(a) => a@,
        _ => seq![value],
    }
}

/// The order in which taking items one by one from the front yields them.
pub open spec fn front_order<A>(s: Seq<A>) -> Seq<A>
    decreases s.len(),
{
    if s.len() == 0 {
        Seq::empty()
    } else {
        seq![s.first()] + front_order(s.drop_first())
    }
}

/// The order in which taking items one by one from the back yields them.
pub open spec fn back_order<A>(s: Seq<A>) -> Seq<A>
    decreases s.len(),
{
    if s.len() == 0 {
        Seq::empty()
    } else {
        seq![s.last()] + back_order(s.drop_last())
    }
}

proof fn lemma_front_order<A>(s: Seq<A>)
    ensures
        front_order(s) == s,
    decreases s.len(),
{
    if s.len() > 0 {
        lemma_front_order(s.drop_first());
        assert(seq![s.first()] + s.drop_first() =~= s);
    }
}

proof fn lemma_back_order<A>(s: Seq<A>)
    ensures
        back_order(s) == s.reverse(),
    decreases s.len(),
{
    if s.len() > 0 {
        lemma_back_order(s.drop_last());
        assert(seq![s.last()] + s.drop_last().reverse() =~= s.reverse());
    }
}

/// Normalizing a node: a bare node stands for a one-item sequence holding that
/// node, an array of length n for its n elements in order (none for an empty
/// array); taking the items from the front yields that sequence, and taking
/// them from the back yields the same items reversed.
pub proof fn lemma_single_or_multi_order(value: JsonValue)
    ensures
        !(value is Array) ==> single_or_multi_items(value) == seq![value],
        value matches JsonValue::Array(a) ==> single_or_multi_items(value) == a@,
        front_order(single_or_multi_items(value)) == single_or_multi_items(value),
        front_order(single_or_multi_items(value)) == back_order(
            single_or_multi_items(value),
        ).reverse(),
{
    let s = single_or_multi_items(value);
    lemma_front_order(s);
    lemma_back_order(s);
    assert(s.reverse().reverse() =~= s);
}

/// A view to a single value or multi values.
#[derive(Debug, Clone, Copy, PartialEq)]
pub enum SingleOrMultiJsonView<'a> {
    /// Single value.
    Single(&'a JsonValue),
    /// Multi values.
    Multi(&'a [JsonValue]),
}

impl<'a> SingleOrMultiJsonView<'a> {
    /// The items, in order.
    pub open spec fn items(self) -> Seq<JsonValue> {
        match self {
            SingleOrMultiJsonView::Single(v) => seq![*v],
            SingleOrMultiJsonView::Multi(s) => s@,
        }
    }

    /// Creates a view from a reference to an object.
    pub fn new(object: &'a JsonValue) -> (r: Self)
        ensures
            r.items() == single_or_multi_items(*object),
            r is Multi <==> object is Array,
    {
        match object {
            JsonValue::Array(arr) => SingleOrMultiJsonView::Multi(arr.as_slice()),
            obj => SingleOrMultiJsonView::Single(obj),
        }
    }

    /// Returns the number of items.
    pub fn len(&self) -> (r: usize)
        ensures
            r == self.items().len(),
    {
        match self {
            SingleOrMultiJsonView::Single(_) => 1,
            SingleOrMultiJsonView::Multi(s) => s.len(),
        }
    }

    /// Returns the item at position `i`.
    fn item(&self, i: usize) -> (r: &'a JsonValue)
        requires
            i < self.items().len(),
        ensures
            *r == self.items()[i as int],
    {
        match self {
            SingleOrMultiJsonView::Single(v) => v,
            SingleOrMultiJsonView::Multi(s) => &s[i],
        }
    }

    /// Creates an iterator over the values.
    pub fn iter(&self) -> (r: SingleOrMultiJsonViewIter<'a>)
        ensures
            r.remaining() == self.items(),
    {
        let r = SingleOrMultiJsonViewIter { view: *self, front: 0, back: self.len() };
        assert(r.remaining() =~= self.items());
        r
    }
}

/// `SingleOrMultiJsonView` iterator, from either end.
#[derive(Debug, Clone, Copy)]
pub struct SingleOrMultiJsonViewIter<'a> {
    view: SingleOrMultiJsonView<'a>,
    front: usize,
    back: usize,
}

impl<'a> SingleOrMultiJsonViewIter<'a> {
    #[verifier::type_invariant]
    closed spec fn in_bounds(self) -> bool {
        self.front <= self.back <= self.view.items().len()
    }

    /// The items not yet yielded, in order.
    pub closed spec fn remaining(self) -> Seq<JsonValue> {
        self.view.items().subrange(self.front as int, self.back as int)
    }

    /// Yields the first item not yet yielded.
    pub fn next(&mut self) -> (r: Option<&'a JsonValue>)
        ensures
            old(self).remaining().len() == 0 ==> r is None && final(self).remaining()
                == old(self).remaining(),
            old(self).remaining().len() > 0 ==> {
                &&& r matches Some(v) && *v == old(self).remaining().first()
                &&& final(self).remaining() == old(self).remaining().drop_first()
            },
    {
        proof {
            use_type_invariant(&*self);
        }
        if self.front == self.back {
            return None;
        }
        let v = self.view.item(self.front);
        self.front = self.front + 1;
        assert(self.remaining() =~= old(self).remaining().drop_first());
        Some(v)
    }

    /// Yields the last item not yet yielded.
    pub fn next_back(&mut self) -> (r: Option<&'a JsonValue>)
        ensures
            old(self).remaining().len() == 0 ==> r is None && final(self).remaining()
                == old(self).remaining(),
            old(self).remaining().len() > 0 ==> {
                &&& r matches Some(v) && *v == old(self).remaining().last()
                &&& final(self).remaining() == old(self).remaining().drop_last()
            },
    {
        proof {
            use_type_invariant(&*self);
        }
        if self.front == self.back {
            return None;
        }
        self.back = self.back - 1;
        let v = self.view.item(self.back);
        assert(self.remaining() =~= old(self).remaining().drop_last());
        Some(v)
    }

    /// Returns the number of items not yet yielded.
    pub fn len(&self) -> (r: usize)
        ensures
            r == self.remaining().len(),
    {
        proof {
            use_type_invariant(self);
        }
        self.back - self.front
    }

    /// Returns the exact number of items not yet yielded, as a lower and an
    /// upper bound.
    pub fn size_hint(&self) -> (r: (usize, Option<usize>))
        ensures
            r.0 == self.remaining().len(),
            r.1 == Some(self.remaining().len() as usize),
    {
        let n = self.len();
        (n, Some(n))
    }

    /// Consumes the iterator and returns the number of items not yet yielded.
    pub fn count(self) -> (r: usize)
        ensures
            r == self.remaining().len(),
    {
        self.len()
    }

    /// Consumes the iterator and returns the last item not yet yielded.
    pub fn last(self) -> (r: Option<&'a JsonValue>)
        ensures
            self.remaining().len() == 0 ==> r is None,
            self.remaining().len() > 0 ==> (r matches Some(v) && *v == self.remaining().last()),
    {
        let mut it = self;
        it.next_back()
    }

    /// Skips `n` items and yields the one after them. Where fewer than `n + 1`
    /// items are left, yields none and leaves none.
    pub fn nth(&mut self, n: usize) -> (r: Option<&'a JsonValue>)
        ensures
            n < old(self).remaining().len() ==> {
                &&& r matches Some(v) && *v == old(self).remaining()[n as int]
                &&& final(self).remaining() == old(self).remaining().skip(n + 1)
            },
            n >= old(self).remaining().len() ==> r is None && final(self).remaining().len() == 0,
    {
        proof {
            use_type_invariant(&*self);
        }
        if n >= self.back - self.front {
            self.front = self.back;
            assert(self.remaining().len() == 0);
            return None;
        }
        let v = self.view.item(self.front + n);
        self.front = self.front + n + 1;
        assert(self.remaining() =~= old(self).remaining().skip(n + 1));
        Some(v)
    }
}

/// A view to a single object or multiple objects, each read as a `T`.
#[derive(Debug, PartialEq)]
pub struct SingleOrMultiView<'a, T> {
    /// Target object.
    object: SingleOrMultiJsonView<'a>,
    /// Target view type.
    _phantom: PhantomData<T>,
}

impl<'a, T> Clone for SingleOrMultiView<'a, T> {
    fn clone(&self) -> (r: Self)
        ensures
            r == *self,
    {
        Self { object: self.object, _phantom: PhantomData }
    }
}

impl<'a, T> Copy for SingleOrMultiView<'a, T> {

}

impl<'a, T> View for SingleOrMultiView<'a, T> {
    type V = SingleOrMultiJsonView<'a>;

    closed spec fn view(&self) -> SingleOrMultiJsonView<'a> {
        self.object
    }
}

impl<'a, T> SingleOrMultiView<'a, T> where T: TryFromJsonValue<'a> {
    /// Creates an iterator over the values, each read as a `T`.
    pub fn iter(&self) -> (r: SingleOrMultiViewIter<'a, T>)
        ensures
            r.remaining() == self@.items(),
    {
        SingleOrMultiViewIter { iter: self.object.iter(), _t: PhantomData }
    }
}

impl<'a, T> TryFromJsonValue<'a> for SingleOrMultiView<'a, T> where T: TryFromJsonValue<'a> {
    open spec fn accepts(value: JsonValue) -> bool {
        true
    }

    open spec fn reads(self, value: JsonValue) -> bool {
        &&& self@.items() == single_or_multi_items(value)
        &&& (self@ is Multi <==> value is Array)
    }

    fn validate_json_value(value: &JsonValue) -> (r: Result<()>) {
        Ok(())
    }

    fn try_from_json_value(value: &'a JsonValue) -> (r: Result<Self>) {
        match Self::validate_json_value(value) {
            Err(e) => Err(e),
            Ok(()) => Ok(Self { object: SingleOrMultiJsonView::new(value), _phantom: PhantomData }),
        }
    }
}

/// `SingleOrMultiView` iterator: each item is read as a `T` when it is
/// reached, and an item that does not convert gives its error without ending
/// the iteration.
#[derive(Debug)]
pub struct SingleOrMultiViewIter<'a, T> {
    /// Iterator.
    iter: SingleOrMultiJsonViewIter<'a>,
    /// A view type to be returned.
    _t: PhantomData<T>,
}

impl<'a, T> SingleOrMultiViewIter<'a, T> where T: TryFromJsonValue<'a> {
    /// The nodes not yet read, in order.
    pub closed spec fn remaining(self) -> Seq<JsonValue> {
        self.iter.remaining()
    }

    /// Reads the first node not yet read.
    pub fn next(&mut self) -> (r: Option<Result<T>>)
        ensures
            old(self).remaining().len() == 0 ==> r is None && final(self).remaining()
                == old(self).remaining(),
            old(self).remaining().len() > 0 ==> {
                &&& r matches Some(x) && converted(old(self).remaining().first(), x)
                &&& final(self).remaining() == old(self).remaining().drop_first()
            },
    {
        match self.iter.next() {
            Some(v) => Some(T::try_from_json_value(v)),
            None => None,
        }
    }

    /// Reads the last node not yet read.
    pub fn next_back(&mut self) -> (r: Option<Result<T>>)
        ensures
            old(self).remaining().len() == 0 ==> r is None && final(self).remaining()
                == old(self).remaining(),
            old(self).remaining().len() > 0 ==> {
                &&& r matches Some(x) && converted(old(self).remaining().last(), x)
                &&& final(self).remaining() == old(self).remaining().drop_last()
            },
    {
        match self.iter.next_back() {
            Some(v) => Some(T::try_from_json_value(v)),
            None => None,
        }
    }

    /// Returns the number of nodes not yet read.
    pub fn len(&self) -> (r: usize)
        ensures
            r == self.remaining().len(),
    {
        self.iter.len()
    }

    /// Returns the exact number of nodes not yet read, as a lower and an upper
    /// bound.
    pub fn size_hint(&self) -> (r: (usize, Option<usize>))
        ensures
            r.0 == self.remaining().len(),
            r.1 == Some(self.remaining().len() as usize),
    {
        self.iter.size_hint()
    }

    /// Consumes the iterator and returns the number of nodes not yet read.
    pub fn count(self) -> (r: usize)
        ensures
            r == self.remaining().len(),
    {
        self.iter.count()
    }

    /// Consumes the iterator and reads the last node not yet read.
    pub fn last(self) -> (r: Option<Result<T>>)
        ensures
            self.remaining().len() == 0 ==> r is None,
            self.remaining().len() > 0 ==> (r matches Some(x) && converted(
                self.remaining().last(),
                x,
            )),
    {
        match self.iter.last() {
            Some(v) => Some(T::try_from_json_value(v)),
            None => None,
        }
    }

    /// Skips `n` nodes and reads the one after them. Where fewer than `n + 1`
    /// nodes are left, reads none and leaves none.
    pub fn nth(&mut self, n: usize) -> (r: Option<Result<T>>)
        ensures
            n < old(self).remaining().len() ==> {
                &&& r matches Some(x) && converted(old(self).remaining()[n as int], x)
                &&& final(self).remaining() == old(self).remaining().skip(n + 1)
            },
            n >= old(self).remaining().len() ==> r is None && final(self).remaining().len() == 0,
    {
        match self.iter.nth(n) {
            Some(v) => Some(T::try_from_json_value(v)),
            None => None,
        }
    }
}

} // verus!
