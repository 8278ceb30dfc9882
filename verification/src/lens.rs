//! Lenses: scoped access from a data value to one of its sub-values.
//!
//! A lens names a place inside a [`Data`] tree. Reading projects the
//! sub-value out; writing replaces it and rebuilds the surrounding tree.
//! An access that misses (an index past the end of a list, or a step into a
//! value of the wrong shape) degrades to a configured default instead of
//! failing, so every lens operation is total. Lenses compose by chaining,
//! and chaining obeys the nesting and associativity laws stated at the
//! bottom of this module.

use vstd::prelude::*;

use crate::data::{Data, DataList};

verus! {

/// A place inside a [`Data`] value.
#[derive(Debug)]
pub enum Lens {
    /// The value itself.
    This,
    /// Element `k` of a list value; a miss reads the empty value and
    /// leaves the parent unchanged on writes.
    Field(usize),
    /// Element `k` of a list value with a configured default: a miss reads
    /// the default and discards writes, keeping the access total.
    Slice(usize, Box<Data>),
    /// The composition: the second lens applied inside the first.
    Chain(Box<Lens>, Box<Lens>),
}

impl DataList {
    /// The `k`-th element of the list, if it has one.
    pub open spec fn nth(self, k: nat) -> Option<Data>
        decreases self,
    {
        match self {
            DataList::Nil => None,
            DataList::Cons(d, tail) => if k == 0 {
                Some(d)
            } else {
                tail.nth((k - 1) as nat)
            },
        }
    }

    /// The list with its `k`-th element replaced, if it has one.
    pub open spec fn set_nth(self, k: nat, v: Data) -> DataList
        decreases self,
    {
        match self {
            DataList::Nil => DataList::Nil,
            DataList::Cons(d, tail) => if k == 0 {
                DataList::Cons(v, tail)
            } else {
                DataList::Cons(d, Box::new(tail.set_nth((k - 1) as nat, v)))
            },
        }
    }
}

impl Lens {
    /// The sub-value this lens projects out of `d`.
    pub open spec fn read(self, d: Data) -> Data
        decreases self,
    {
        match self {
            Lens::This => d,
            Lens::Field(k) => match d {
                Data::List(items) => match items.nth(k as nat) {
                    Some(v) => v,
                    None => Data::Unit,
                },
                _ => Data::Unit,
            },
            Lens::Slice(k, def) => match d {
                Data::List(items) => match items.nth(k as nat) {
                    Some(v) => v,
                    None => *def,
                },
                _ => *def,
            },
            Lens::Chain(first, second) => second.read(first.read(d)),
        }
    }

    /// `d` with the projected sub-value replaced by `v`; a miss leaves `d`
    /// unchanged.
    pub open spec fn write(self, d: Data, v: Data) -> Data
        decreases self,
    {
        match self {
            Lens::This => v,
            Lens::Field(k) => match d {
                Data::List(items) => if items.nth(k as nat) is Some {
                    Data::List(Box::new(items.set_nth(k as nat, v)))
                } else {
                    d
                },
                _ => d,
            },
            Lens::Slice(k, def) => match d {
                Data::List(items) => if items.nth(k as nat) is Some {
                    Data::List(Box::new(items.set_nth(k as nat, v)))
                } else {
                    d
                },
                _ => d,
            },
            Lens::Chain(first, second) => first.write(d, second.write(first.read(d), v)),
        }
    }

    /// The lens reaching `other` inside `self`.
    pub fn chain(self, other: Lens) -> (r: Lens)
        ensures
            r == Lens::Chain(Box::new(self), Box::new(other)),
    {
        Lens::Chain(Box::new(self), Box::new(other))
    }

    /// A deep copy, equal to the original.
    pub fn duplicate(&self) -> (r: Lens)
        ensures
            r == *self,
        decreases *self,
    {
        match self {
            Lens::This => Lens::This,
            Lens::Field(k) => Lens::Field(*k),
            Lens::Slice(k, def) => Lens::Slice(*k, Box::new(def.duplicate())),
            Lens::Chain(first, second) => Lens::Chain(
                Box::new(first.duplicate()),
                Box::new(second.duplicate()),
            ),
        }
    }

    /// Reads the projected sub-value out of `d`.
    pub fn get(&self, d: &Data) -> (r: Data)
        ensures
            r == self.read(*d),
        decreases *self,
    {
        match self {
            Lens::This => d.duplicate(),
            Lens::Field(k) => match d {
                Data::List(items) => match nth_clone(items, *k) {
                    Some(v) => v,
                    None => Data::Unit,
                },
                _ => Data::Unit,
            },
            Lens::Slice(k, def) => match d {
                Data::List(items) => match nth_clone(items, *k) {
                    Some(v) => v,
                    None => def.duplicate(),
                },
                _ => def.duplicate(),
            },
            Lens::Chain(first, second) => {
                let mid = first.get(d);
                second.get(&mid)
            },
        }
    }

    /// Replaces the projected sub-value of `d` by `v`.
    pub fn put(&self, d: &mut Data, v: Data)
        ensures
            *final(d) == self.write(*old(d), v),
        decreases *self,
    {
        match self {
            Lens::This => {
                *d = v;
            },
            Lens::Field(k) => match d {
                Data::List(items) => {
                    put_nth(items, *k, v);
                },
                _ => {},
            },
            Lens::Slice(k, _) => match d {
                Data::List(items) => {
                    put_nth(items, *k, v);
                },
                _ => {},
            },
            Lens::Chain(first, second) => {
                let mut mid = first.get(d);
                second.put(&mut mid, v);
                first.put(d, mid);
            },
        }
    }
}

fn nth_clone(l: &DataList, k: usize) -> (r: Option<Data>)
    ensures
        r == l.nth(k as nat),
    decreases *l,
{
    match l {
        DataList::Nil => None,
        DataList::Cons(d, tail) => if k == 0 {
            Some(d.duplicate())
        } else {
            nth_clone(tail, k - 1)
        },
    }
}

fn put_nth(l: &mut DataList, k: usize, v: Data)
    ensures
        old(l).nth(k as nat) is Some ==> *final(l) == old(l).set_nth(k as nat, v),
        old(l).nth(k as nat) is None ==> *final(l) == *old(l),
    decreases *old(l),
{
    match l {
        DataList::Nil => {},
        DataList::Cons(d, tail) => if k == 0 {
            *d = v;
        } else {
            put_nth(tail, k - 1, v);
        },
    }
}

/// The lens law for reading through a composition: reading through a chain
/// is reading through the first lens, then through the second inside it.
pub proof fn lemma_chain_read(l1: Lens, l2: Lens, d: Data)
    ensures
        Lens::Chain(Box::new(l1), Box::new(l2)).read(d) == l2.read(l1.read(d)),
{
}

/// The lens law for writing through a composition: writing through a chain
/// writes through the second lens inside the first lens's projection, then
/// writes the changed projection back through the first.
pub proof fn lemma_chain_write(l1: Lens, l2: Lens, d: Data, v: Data)
    ensures
        Lens::Chain(Box::new(l1), Box::new(l2)).write(d, v) == l1.write(
            d,
            l2.write(l1.read(d), v),
        ),
{
}

/// Chaining is associative: reading and writing agree between the two ways
/// of bracketing a three-lens chain, on every value.
pub proof fn lemma_chain_assoc(a: Lens, b: Lens, c: Lens, d: Data, v: Data)
    ensures
        Lens::Chain(Box::new(Lens::Chain(Box::new(a), Box::new(b))), Box::new(c)).read(d)
            == Lens::Chain(Box::new(a), Box::new(Lens::Chain(Box::new(b), Box::new(c)))).read(d),
        Lens::Chain(Box::new(Lens::Chain(Box::new(a), Box::new(b))), Box::new(c)).write(d, v)
            == Lens::Chain(Box::new(a), Box::new(Lens::Chain(Box::new(b), Box::new(c)))).write(
            d,
            v,
        ),
{
    let ab = Lens::Chain(Box::new(a), Box::new(b));
    let bc = Lens::Chain(Box::new(b), Box::new(c));
    assert(Lens::Chain(Box::new(ab), Box::new(c)).read(d) == c.read(ab.read(d)));
    assert(ab.read(d) == b.read(a.read(d)));
    assert(Lens::Chain(Box::new(a), Box::new(bc)).read(d) == bc.read(a.read(d)));
    assert(bc.read(a.read(d)) == c.read(b.read(a.read(d))));
    let u = a.read(d);
    let w = b.read(u);
    assert(Lens::Chain(Box::new(ab), Box::new(c)).write(d, v) == ab.write(d, c.write(w, v)));
    assert(ab.write(d, c.write(w, v)) == a.write(d, b.write(u, c.write(w, v))));
    assert(Lens::Chain(Box::new(a), Box::new(bc)).write(d, v) == a.write(d, bc.write(u, v)));
    assert(bc.write(u, v) == b.write(u, c.write(w, v)));
}

} // verus!
