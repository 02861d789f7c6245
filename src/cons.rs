//! Cons cells and the traversals over chains of them.
use vstd::prelude::*;

use crate::value::Value;

verus! {

/// A Lisp cons cell: a `car` and a `cdr` held together in one allocation.
///
/// A chain of cells linked through their `cdr` fields forms a list; the
/// `cdr` of the last cell is the list's terminator. A list ending in
/// `Value::Null` is proper, one ending in any other value is dotted.
#[derive(Debug)]
pub struct Cons {
    pub(crate) inner: Box<(Value, Value)>,
}

impl Cons {
    /// The value in the `car` field.
    pub open(crate) spec fn car_spec(&self) -> Value {
        self.inner.0
    }

    /// The value in the `cdr` field.
    pub open(crate) spec fn cdr_spec(&self) -> Value {
        self.inner.1
    }

    /// The cell holding `car` and `cdr`.
    pub closed spec fn cell(car: Value, cdr: Value) -> Cons {
        Cons { inner: Box::new((car, cdr)) }
    }

    /// The cells of the chain that starts at this cell, in order.
    pub open spec fn cells(self) -> Seq<Cons>
        decreases self,
    {
        match self.cdr_spec() {
            Value::Cons(next) => seq![self] + next.cells(),
            _ => seq![self],
        }
    }

    /// What consuming the chain yields: each `car`, with `None` for every
    /// cell but the last and `Some` terminator for the last.
    pub open spec fn steps(self) -> Seq<(Value, Option<Value>)>
        decreases self,
    {
        match self.cdr_spec() {
            Value::Cons(next) => seq![(self.car_spec(), None)] + next.steps(),
            last => seq![(self.car_spec(), Some(last))],
        }
    }

    /// The `car` values of the chain that starts at this cell, in order.
    pub open spec fn items(self) -> Seq<Value>
        decreases self,
    {
        match self.cdr_spec() {
            Value::Cons(next) => seq![self.car_spec()] + next.items(),
            _ => seq![self.car_spec()],
        }
    }

    /// The value that ends the chain: the `cdr` of its last cell.
    pub open spec fn terminator(self) -> Value
        decreases self,
    {
        match self.cdr_spec() {
            Value::Cons(next) => next.terminator(),
            last => last,
        }
    }

    /// Constructs a new cons cell from two values.
    pub fn new(car: Value, cdr: Value) -> (r: Cons)
        ensures
            r == Cons::cell(car, cdr),
            r.car_spec() == car,
            r.cdr_spec() == cdr,
    {
        Cons { inner: Box::new((car, cdr)) }
    }

    /// Returns a reference to the value in the `car` field.
    pub fn car(&self) -> (r: &Value)
        ensures
            *r == self.car_spec(),
    {
        &self.inner.0
    }

    /// Returns a mutable reference to the value in the `car` field.
    pub fn car_mut(&mut self) -> (r: &mut Value)
        ensures
            *r == old(self).car_spec(),
            final(self).car_spec() == *final(r),
            final(self).cdr_spec() == old(self).cdr_spec(),
    {
        &mut self.inner.0
    }

    /// Sets the `car` field.
    pub fn set_car(&mut self, car: Value)
        ensures
            final(self).car_spec() == car,
            final(self).cdr_spec() == old(self).cdr_spec(),
    {
        self.inner.0 = car;
    }

    /// Returns a reference to the value in the `cdr` field.
    pub fn cdr(&self) -> (r: &Value)
        ensures
            *r == self.cdr_spec(),
    {
        &self.inner.1
    }

    /// Returns a mutable reference to the value in the `cdr` field.
    pub fn cdr_mut(&mut self) -> (r: &mut Value)
        ensures
            *r == old(self).cdr_spec(),
            final(self).cdr_spec() == *final(r),
            final(self).car_spec() == old(self).car_spec(),
    {
        &mut self.inner.1
    }

    /// Sets the `cdr` field.
    pub fn set_cdr(&mut self, cdr: Value)
        ensures
            final(self).cdr_spec() == cdr,
            final(self).car_spec() == old(self).car_spec(),
    {
        self.inner.1 = cdr;
    }

    /// Returns references to the values in the `car` and `cdr` fields.
    pub fn as_pair(&self) -> (r: (&Value, &Value))
        ensures
            *r.0 == self.car_spec(),
            *r.1 == self.cdr_spec(),
    {
        (&self.inner.0, &self.inner.1)
    }

    /// Converts the cell into its two values without cloning.
    pub fn into_pair(self) -> (r: (Value, Value))
        ensures
            r == (self.car_spec(), self.cdr_spec()),
    {
        let pair = *self.inner;
        pair
    }

    /// Obtains an iterator over references to the cells of this list.
    pub fn iter<'a>(&'a self) -> (r: Iter<'a>)
        ensures
            r.remaining() == self.cells(),
    {
        Iter { cursor: Some(self) }
    }

    /// Obtains an iterator that consumes the list, yielding each `car`
    /// together with the terminator on the last cell.
    pub fn into_iter(self) -> (r: IntoIter)
        ensures
            r.remaining() == self.steps(),
    {
        IntoIter { cursor: Some(self) }
    }

    /// Converts the list into its elements and its terminator, without
    /// cloning. For a proper list the terminator is `Value::Null`.
    pub fn into_vec(self) -> (r: (Vec<Value>, Value))
        ensures
            r.0@ == self.items(),
            r.1 == self.terminator(),
    {
        let ghost whole = self;
        proof {
            lemma_chain_shape(whole);
        }
        let ghost n = whole.items().len();
        let mut vec: Vec<Value> = Vec::new();
        let mut iter = self.into_iter();
        loop
            invariant
                whole == self,
                n == whole.items().len(),
                n == whole.steps().len(),
                vec@.len() < n,
                iter.remaining() == whole.steps().skip(vec@.len() as int),
                vec@ == whole.items().take(vec@.len() as int),
            decreases n - vec@.len(),
        {
            let ghost k = vec@.len() as int;
            proof {
                lemma_chain_shape(whole);
            }
            match iter.next() {
                Some((item, rest)) => {
                    assert(whole.steps()[k] == (item, rest));
                    vec.push(item);
                    assert(vec@ =~= whole.items().take(k + 1));
                    match rest {
                        Some(last) => {
                            assert(vec@ =~= whole.items());
                            return (vec, last);
                        },
                        None => {},
                    }
                },
                None => {
                    return vstd::pervasive::unreached();
                },
            }
        }
    }

    /// Collects clones of the list's elements and of its terminator.
    /// For a proper list the terminator is `Value::Null`.
    pub fn to_vec(&self) -> (r: (Vec<Value>, Value))
        ensures
            r.0@ == self.items(),
            r.1 == self.terminator(),
    {
        proof {
            lemma_chain_shape(*self);
        }
        let ghost n = self.items().len();
        let mut vec: Vec<Value> = Vec::new();
        let mut iter = self.iter();
        loop
            invariant
                n == self.items().len(),
                n == self.cells().len(),
                vec@.len() < n,
                iter.remaining() == self.cells().skip(vec@.len() as int),
                vec@ == self.items().take(vec@.len() as int),
            decreases n - vec@.len(),
        {
            let ghost k = vec@.len() as int;
            proof {
                lemma_chain_shape(*self);
            }
            match iter.next() {
                Some(pair) => {
                    assert(self.cells()[k] == *pair);
                    vec.push(pair.car().clone());
                    assert(vec@ =~= self.items().take(k + 1));
                    if !pair.cdr().is_cons() {
                        assert(vec@ =~= self.items());
                        return (vec, pair.cdr().clone());
                    }
                },
                None => {
                    return vstd::pervasive::unreached();
                },
            }
        }
    }

    /// Collects references to the list's elements and to its terminator.
    /// For a proper list the terminator is `Value::Null`.
    pub fn to_ref_vec<'a>(&'a self) -> (r: (Vec<&'a Value>, &'a Value))
        ensures
            r.0@.len() == self.items().len(),
            forall|i: int| 0 <= i < r.0@.len() ==> *r.0@[i] == self.items()[i],
            *r.1 == self.terminator(),
    {
        proof {
            lemma_chain_shape(*self);
        }
        let ghost n = self.items().len();
        let mut vec: Vec<&'a Value> = Vec::new();
        let mut iter = self.iter();
        loop
            invariant
                n == self.items().len(),
                n == self.cells().len(),
                vec@.len() < n,
                iter.remaining() == self.cells().skip(vec@.len() as int),
                forall|i: int| 0 <= i < vec@.len() ==> *vec@[i] == self.items()[i],
            decreases n - vec@.len(),
        {
            let ghost k = vec@.len() as int;
            proof {
                lemma_chain_shape(*self);
            }
            match iter.next() {
                Some(pair) => {
                    assert(self.cells()[k] == *pair);
                    vec.push(pair.car());
                    if !pair.cdr().is_cons() {
                        return (vec, pair.cdr());
                    }
                },
                None => {
                    return vstd::pervasive::unreached();
                },
            }
        }
    }

    /// Compares two cells: equal exactly when their `car` values are equal
    /// and their `cdr` values are equal.
    pub fn equals(&self, other: &Cons) -> (r: bool)
        ensures
            r == (*self == *other),
        decreases self,
    {
        proof {
            lemma_eq_structural(*self, *other);
        }
        self.inner.0.equals(&other.inner.0) && self.inner.1.equals(&other.inner.1)
    }

    /// A copy of the cell, equal to it.
    pub(crate) fn deep_copy(&self) -> (r: Cons)
        ensures
            r == *self,
        decreases self,
    {
        let car = self.inner.0.deep_copy();
        let cdr = self.inner.1.deep_copy();
        Cons { inner: Box::new((car, cdr)) }
    }
}

impl PartialEq for Cons {
    fn eq(&self, other: &Cons) -> (r: bool) {
        self.equals(other)
    }
}

impl vstd::std_specs::cmp::PartialEqSpecImpl for Cons {
    open spec fn obeys_eq_spec() -> bool {
        true
    }

    open spec fn eq_spec(&self, other: &Cons) -> bool {
        *self == *other
    }
}

impl Clone for Cons {
    fn clone(&self) -> (r: Cons)
        ensures
            r == *self,
    {
        self.deep_copy()
    }
}

/// An iterator over references to the cells of a list.
///
/// This is returned by [`Cons::iter`].
pub struct Iter<'a> {
    cursor: Option<&'a Cons>,
}

impl<'a> Iter<'a> {
    /// The cells that are still to be yielded, in order.
    pub closed spec fn remaining(&self) -> Seq<Cons> {
        match self.cursor {
            Some(cell) => cell.cells(),
            None => seq![],
        }
    }

    /// Yields the next cell, if any.
    pub fn next(&mut self) -> (r: Option<&'a Cons>)
        ensures
            old(self).remaining().len() == 0 ==> r is None && final(self).remaining()
                == old(self).remaining(),
            old(self).remaining().len() > 0 ==> r is Some && *r->Some_0 == old(
                self,
            ).remaining()[0] && final(self).remaining() == old(self).remaining().drop_first(),
    {
        match self.cursor {
            Some(pair) => {
                match pair.cdr() {
                    Value::Cons(next) => self.cursor = Some(next),
                    _ => self.cursor = None,
                }
                assert(old(self).remaining().drop_first() =~= self.remaining());
                Some(pair)
            },
            None => None,
        }
    }
}

/// An iterator consuming a list.
///
/// This is returned by [`Cons::into_iter`]. Each step yields a cell's `car`
/// with `None`, except the last, which yields it with `Some` terminator.
pub struct IntoIter {
    cursor: Option<Cons>,
}

impl IntoIter {
    /// The items that are still to be yielded, in order.
    pub closed spec fn remaining(&self) -> Seq<(Value, Option<Value>)> {
        match self.cursor {
            Some(cell) => cell.steps(),
            None => seq![],
        }
    }

    /// Yields the next item, if any.
    pub fn next(&mut self) -> (r: Option<(Value, Option<Value>)>)
        ensures
            old(self).remaining().len() == 0 ==> r is None && final(self).remaining()
                == old(self).remaining(),
            old(self).remaining().len() > 0 ==> r == Some(old(self).remaining()[0])
                && final(self).remaining() == old(self).remaining().drop_first(),
    {
        match self.cursor.take() {
            Some(cell) => {
                let (car, cdr) = cell.into_pair();
                match cdr {
                    Value::Cons(next) => {
                        self.cursor = Some(next);
                        assert(old(self).remaining().drop_first() =~= self.remaining());
                        Some((car, None))
                    },
                    _ => {
                        self.cursor = None;
                        assert(old(self).remaining().drop_first() =~= self.remaining());
                        Some((car, Some(cdr)))
                    },
                }
            },
            None => None,
        }
    }
}

/// The chain whose `car` values are `vs`, in order, and whose last `cdr`
/// is `t`: the cell nesting that `Cons::new(v1, Cons::new(v2, .. t))` builds.
pub open spec fn chain_of(vs: Seq<Value>, t: Value) -> Cons
    recommends
        vs.len() > 0,
    decreases vs.len(),
{
    if vs.len() <= 1 {
        Cons::cell(vs[0], t)
    } else {
        Cons::cell(vs[0], Value::Cons(chain_of(vs.drop_first(), t)))
    }
}

/// A chain built from elements `vs` and a terminator `t` that is not a cell
/// reads back as exactly `vs` and `t`; `into_vec`, `to_vec` and `to_ref_vec`
/// therefore all return `(vs, t)` for it.
pub proof fn lemma_chain_of_round_trip(vs: Seq<Value>, t: Value)
    requires
        vs.len() > 0,
        !(t is Cons),
    ensures
        chain_of(vs, t).items() == vs,
        chain_of(vs, t).terminator() == t,
    decreases vs.len(),
{
    if vs.len() > 1 {
        lemma_chain_of_round_trip(vs.drop_first(), t);
        assert(chain_of(vs, t).items() =~= seq![vs[0]] + vs.drop_first());
    } else {
        assert(chain_of(vs, t).items() =~= vs);
    }
}

/// Constructing a cell from a head and a tail and then splitting it with
/// `into_pair` gives back exactly that head and that tail.
pub proof fn lemma_new_then_into_pair(head: Value, tail: Value)
    ensures
        (Cons::cell(head, tail).car_spec(), Cons::cell(head, tail).cdr_spec()) == (head, tail),
{
}

/// Two cells are equal exactly when their `car` values are equal and their
/// `cdr` values are equal.
pub proof fn lemma_eq_structural(a: Cons, b: Cons)
    ensures
        (a == b) <==> (a.car_spec() == b.car_spec() && a.cdr_spec() == b.cdr_spec()),
{
}

/// The shape of a chain of `n` cells. Its cells, its items and what
/// consuming it yields line up index by index. The borrowing traversal
/// (`iter`) yields exactly `n` cells, and the `cdr` of the `k`-th is a cell
/// exactly when `k < n - 1`. The owning traversal (`into_iter`) yields
/// exactly `n` items; all but the last carry `None`, and the last carries
/// `Some` of the chain's terminator, which is not a cell.
pub proof fn lemma_chain_shape(c: Cons)
    ensures
        c.items().len() > 0,
        c.cells().len() == c.items().len(),
        c.steps().len() == c.items().len(),
        forall|k: int|
            0 <= k < c.items().len() ==> #[trigger] c.cells()[k].car_spec() == c.items()[k],
        forall|k: int| 0 <= k < c.items().len() ==> #[trigger] c.steps()[k].0 == c.items()[k],
        forall|k: int|
            0 <= k < c.items().len() ==> (#[trigger] c.cells()[k].cdr_spec() is Cons <==> k
                < c.items().len() - 1),
        forall|k: int|
            0 <= k < c.items().len() ==> (#[trigger] c.steps()[k].1 is None <==> k < c.items().len()
                - 1),
        c.cells()[c.items().len() - 1].cdr_spec() == c.terminator(),
        c.steps()[c.items().len() - 1].1 == Some(c.terminator()),
        !(c.terminator() is Cons),
    decreases c,
{
    match c.cdr_spec() {
        Value::Cons(next) => {
            lemma_chain_shape(next);
            assert forall|k: int| 1 <= k < c.items().len() implies c.cells()[k] == next.cells()[k - 1]
                && c.items()[k] == next.items()[k - 1] && c.steps()[k] == next.steps()[k - 1] by {}
        },
        _ => {},
    }
}

} // verus!
