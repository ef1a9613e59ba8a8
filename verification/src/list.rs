//! A cons-cell sequence used for every repeated field of the syntax tree and
//! of compiled values. Structural equality on these lists is ordinary
//! mathematical equality in specifications, which keeps the contracts of the
//! engine free of view indirections.

use vstd::prelude::*;

verus! {

/// Deep copy with a proved contract: the copy equals the original.
pub trait DeepClone: Sized {
    fn deep_clone(&self) -> (r: Self)
        ensures
            r == *self;
}

#[derive(Debug, PartialEq, Eq)]
pub enum List<T> {
    Nil,
    Cons(Box<T>, Box<List<T>>),
}

impl<T> List<T> {
    /// The sequence of elements held by the list, front first.
    pub open spec fn seq(&self) -> Seq<T>
        decreases self,
    {
        match self {
            List::Nil => Seq::empty(),
            List::Cons(h, t) => seq![**h] + t.seq(),
        }
    }

    /// True when the list holds no element.
    pub fn is_empty(&self) -> (r: bool)
        ensures
            r == (self.seq().len() == 0),
    {
        match self {
            List::Nil => true,
            List::Cons(_, _) => false,
        }
    }
}

/// Lists with the same element sequence are the same list.
pub proof fn lemma_list_eq_from_seq<T>(a: List<T>, b: List<T>)
    requires
        a.seq() =~= b.seq(),
    ensures
        a == b,
    decreases a,
{
    match (a, b) {
        (List::Nil, List::Nil) => {},
        (List::Cons(x, xs), List::Cons(y, ys)) => {
            assert(a.seq()[0] == *x);
            assert(b.seq()[0] == *y);
            assert(a.seq().drop_first() =~= xs.seq());
            assert(b.seq().drop_first() =~= ys.seq());
            lemma_list_eq_from_seq(*xs, *ys);
        },
        (List::Nil, List::Cons(y, ys)) => {
            assert(b.seq().len() >= 1);
        },
        (List::Cons(x, xs), List::Nil) => {
            assert(a.seq().len() >= 1);
        },
    }
}

impl DeepClone for String {
    fn deep_clone(&self) -> (r: Self)
        ensures
            r == *self,
    {
        self.clone()
    }
}

} // verus!
