//! The closed application-data model.
//!
//! Widgets read and write application state through values of one closed
//! type: a small tree of booleans, fixed-point integers, texts and lists.
//! The representation is fully structural, so spec-level equality of two
//! values is decided by an executable comparison and deep copies are proved
//! equal to their source.

use vstd::prelude::*;

verus! {

/// A text as a list of characters, in order.
#[derive(Debug)]
pub enum Chars {
    Nil,
    Cons(char, Box<Chars>),
}

/// One application-data value.
#[derive(Debug)]
pub enum Data {
    /// The empty value, also the fallback of a failed lens access.
    Unit,
    Bool(bool),
    /// A fixed-point integer in milli-units.
    Int(i64),
    Text(Chars),
    List(Box<DataList>),
}

/// The elements of a list value, in order.
#[derive(Debug)]
pub enum DataList {
    Nil,
    Cons(Data, Box<DataList>),
}

impl Chars {
    /// The character sequence this list holds.
    pub open spec fn seq(self) -> Seq<char>
        decreases self,
    {
        match self {
            Chars::Nil => Seq::empty(),
            Chars::Cons(c, tail) => seq![c] + tail.seq(),
        }
    }

    pub fn new() -> (r: Chars)
        ensures
            r == Chars::Nil,
    {
        Chars::Nil
    }

    /// A deep copy, equal to the original.
    pub fn duplicate(&self) -> (r: Chars)
        ensures
            r == *self,
        decreases *self,
    {
        match self {
            Chars::Nil => Chars::Nil,
            Chars::Cons(c, tail) => Chars::Cons(*c, Box::new(tail.duplicate())),
        }
    }

    /// Whether two texts hold the same characters.
    pub fn eq_chars(&self, other: &Chars) -> (r: bool)
        ensures
            r == (*self == *other),
        decreases *self,
    {
        match (self, other) {
            (Chars::Nil, Chars::Nil) => true,
            (Chars::Cons(a, ta), Chars::Cons(b, tb)) => {
                proof {
                    if *self == *other {
                        assert(*a == *b && **ta == **tb);
                    }
                }
                *a == *b && ta.eq_chars(tb)
            },
            _ => false,
        }
    }

    /// The text with `c` appended at its end.
    pub open spec fn pushed(self, c: char) -> Chars
        decreases self,
    {
        match self {
            Chars::Nil => Chars::Cons(c, Box::new(Chars::Nil)),
            Chars::Cons(h, tail) => Chars::Cons(h, Box::new(tail.pushed(c))),
        }
    }

    /// The text with its last character removed; the empty text stays empty.
    pub open spec fn popped(self) -> Chars
        decreases self,
    {
        match self {
            Chars::Nil => Chars::Nil,
            Chars::Cons(h, tail) => match *tail {
                Chars::Nil => Chars::Nil,
                _ => Chars::Cons(h, Box::new(tail.popped())),
            },
        }
    }

    /// Appends `c` at the end of the text.
    pub fn push_back(&mut self, c: char)
        ensures
            *final(self) == old(self).pushed(c),
            final(self).seq() == old(self).seq().push(c),
        decreases *old(self),
    {
        proof {
            lemma_pushed_seq(*self, c);
        }
        match self {
            Chars::Nil => {
                *self = Chars::Cons(c, Box::new(Chars::Nil));
            },
            Chars::Cons(_, tail) => {
                tail.push_back(c);
            },
        }
    }

    /// Removes the last character; an empty text is left as it is.
    pub fn pop_back(&mut self)
        ensures
            *final(self) == old(self).popped(),
            old(self).seq().len() > 0 ==> final(self).seq() == old(self).seq().drop_last(),
        decreases *old(self),
    {
        proof {
            lemma_popped_seq(*self);
        }
        match self {
            Chars::Nil => {},
            Chars::Cons(_, tail) => {
                match &**tail {
                    Chars::Nil => {
                        *self = Chars::Nil;
                    },
                    _ => {
                        tail.pop_back();
                    },
                }
            },
        }
    }

    /// The number of characters, pressed into `usize` if it would not fit.
    pub fn len_sat(&self) -> (r: usize)
        ensures
            r as int == if self.seq().len() <= usize::MAX {
                self.seq().len() as int
            } else {
                usize::MAX as int
            },
        decreases *self,
    {
        match self {
            Chars::Nil => 0,
            Chars::Cons(_, tail) => {
                let n: usize = tail.len_sat();
                if n < usize::MAX {
                    n + 1
                } else {
                    n
                }
            },
        }
    }

    /// The characters as a vector, for callers outside the tree.
    pub fn to_vec(&self) -> (r: Vec<char>)
        ensures
            r@ == self.seq(),
        decreases *self,
    {
        let mut out: Vec<char> = Vec::new();
        self.append_to(&mut out);
        out
    }

    fn append_to(&self, out: &mut Vec<char>)
        ensures
            final(out)@ == old(out)@ + self.seq(),
        decreases *self,
    {
        match self {
            Chars::Nil => {
                assert(final(out)@ =~= old(out)@ + self.seq());
            },
            Chars::Cons(c, tail) => {
                out.push(*c);
                tail.append_to(out);
                assert(final(out)@ =~= old(out)@ + self.seq());
            },
        }
    }
}

/// Appending a character extends the character sequence by that character.
pub proof fn lemma_pushed_seq(t: Chars, c: char)
    ensures
        t.pushed(c).seq() == t.seq().push(c),
    decreases t,
{
    match t {
        Chars::Nil => {
            assert(t.pushed(c).seq() =~= t.seq().push(c));
        },
        Chars::Cons(h, tail) => {
            lemma_pushed_seq(*tail, c);
            assert(t.pushed(c).seq() =~= t.seq().push(c));
        },
    }
}

/// Removing the last character drops the last entry of the character
/// sequence; the empty text is unchanged.
pub proof fn lemma_popped_seq(t: Chars)
    ensures
        t.seq().len() == 0 ==> t.popped() == t,
        t.seq().len() > 0 ==> t.popped().seq() == t.seq().drop_last(),
    decreases t,
{
    match t {
        Chars::Nil => {},
        Chars::Cons(h, tail) => {
            lemma_popped_seq(*tail);
            match *tail {
                Chars::Nil => {
                    assert(t.popped().seq() =~= t.seq().drop_last());
                },
                _ => {
                    assert(t.popped().seq() =~= t.seq().drop_last());
                },
            }
        },
    }
}

impl DataList {
    /// The element sequence this list holds.
    pub open spec fn items(self) -> Seq<Data>
        decreases self,
    {
        match self {
            DataList::Nil => Seq::empty(),
            DataList::Cons(d, tail) => seq![d] + tail.items(),
        }
    }
}

impl Data {
    /// A deep copy, equal to the original.
    pub fn duplicate(&self) -> (r: Data)
        ensures
            r == *self,
        decreases *self,
    {
        match self {
            Data::Unit => Data::Unit,
            Data::Bool(b) => Data::Bool(*b),
            Data::Int(i) => Data::Int(*i),
            Data::Text(t) => Data::Text(t.duplicate()),
            Data::List(l) => Data::List(Box::new(duplicate_list(l))),
        }
    }

    /// Whether two values are equal, deeply.
    pub fn eq_val(&self, other: &Data) -> (r: bool)
        ensures
            r == (*self == *other),
        decreases *self,
    {
        match (self, other) {
            (Data::Unit, Data::Unit) => true,
            (Data::Bool(a), Data::Bool(b)) => a == b,
            (Data::Int(a), Data::Int(b)) => a == b,
            (Data::Text(a), Data::Text(b)) => a.eq_chars(b),
            (Data::List(a), Data::List(b)) => eq_list(a, b),
            _ => false,
        }
    }
}

fn duplicate_list(l: &DataList) -> (r: DataList)
    ensures
        r == *l,
    decreases *l,
{
    match l {
        DataList::Nil => DataList::Nil,
        DataList::Cons(d, tail) => DataList::Cons(d.duplicate(), Box::new(duplicate_list(tail))),
    }
}

fn eq_list(a: &DataList, b: &DataList) -> (r: bool)
    ensures
        r == (*a == *b),
    decreases *a,
{
    match (a, b) {
        (DataList::Nil, DataList::Nil) => true,
        (DataList::Cons(x, ta), DataList::Cons(y, tb)) => {
            proof {
                if *a == *b {
                    assert(*x == *y && **ta == **tb);
                }
            }
            x.eq_val(y) && eq_list(ta, tb)
        },
        _ => false,
    }
}

} // verus!
