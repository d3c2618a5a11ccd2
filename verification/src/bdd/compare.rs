//! The structural order of diagrams, given an order of their atoms.

use crate::atom::{Order, TotalOrder};
use crate::bdd::Bdd;
use vstd::prelude::*;

verus! {

/// The order that a type brings, as a function of two values.
pub open spec fn atom_order<T: TotalOrder>() -> spec_fn(T, T) -> Order {
    |x: T, y: T| x.order(&y)
}

impl<'a, T> Bdd<'a, T> {
    /// Where `self` stands relative to `other` when atoms compare by `f`:
    /// a decision node comes before `Bot`, `Bot` before `Top`, and two
    /// decision nodes compare by atom, then `pos`, then `lu`, then `neg`.
    pub open spec fn order_by(self, f: spec_fn(T, T) -> Order, other: Self) -> Order
        decreases self,
    {
        match (self, other) {
            (
                Bdd::Atom { atom: a1, pos: c1, lu: u1, neg: d1 },
                Bdd::Atom { atom: a2, pos: c2, lu: u2, neg: d2 },
            ) => f(*a1, *a2).lex(
                c1.order_by(f, *c2).lex(u1.order_by(f, *u2).lex(d1.order_by(f, *d2))),
            ),
            (Bdd::Atom { .. }, _) => Order::Less,
            (_, Bdd::Atom { .. }) => Order::Greater,
            (Bdd::Bot, Bdd::Top) => Order::Less,
            (Bdd::Top, Bdd::Bot) => Order::Greater,
            _ => Order::Equal,
        }
    }

    /// An atom that a diagram mentions is structurally smaller than the
    /// diagram.
    pub proof fn mentioned_is_smaller(self, x: T)
        requires
            self.mentions(x),
        ensures
            decreases_to!(self => x),
        decreases self,
    {
        match self {
            Bdd::Atom { atom, pos, lu, neg } => {
                if pos.mentions(x) {
                    pos.mentioned_is_smaller(x);
                }
                if lu.mentions(x) {
                    lu.mentioned_is_smaller(x);
                }
                if neg.mentions(x) {
                    neg.mentioned_is_smaller(x);
                }
            },
            _ => {},
        }
    }

    /// The order depends on `f` only at the atoms of `self`.
    pub proof fn order_by_agree(
        self,
        f: spec_fn(T, T) -> Order,
        g: spec_fn(T, T) -> Order,
        other: Self,
    )
        requires
            forall|x: T, y: T| self.mentions(x) ==> #[trigger] f(x, y) == g(x, y),
        ensures
            self.order_by(f, other) == self.order_by(g, other),
        decreases self,
    {
        match (self, other) {
            (
                Bdd::Atom { atom: a1, pos: c1, lu: u1, neg: d1 },
                Bdd::Atom { atom: a2, pos: c2, lu: u2, neg: d2 },
            ) => {
                assert(f(*a1, *a2) == g(*a1, *a2));
                c1.order_by_agree(f, g, *c2);
                u1.order_by_agree(f, g, *u2);
                d1.order_by_agree(f, g, *d2);
            },
            _ => {},
        }
    }

    /// If `f` answers `Equal` exactly on equal atoms, the order answers
    /// `Equal` exactly on equal diagrams.
    pub proof fn order_by_equal(self, f: spec_fn(T, T) -> Order, other: Self)
        requires
            forall|x: T, y: T| self.mentions(x) ==> ((#[trigger] f(x, y) is Equal) <==> x == y),
        ensures
            (self.order_by(f, other) is Equal) <==> self == other,
        decreases self,
    {
        match (self, other) {
            (
                Bdd::Atom { atom: a1, pos: c1, lu: u1, neg: d1 },
                Bdd::Atom { atom: a2, pos: c2, lu: u2, neg: d2 },
            ) => {
                assert((f(*a1, *a2) is Equal) <==> *a1 == *a2);
                c1.order_by_equal(f, *c2);
                u1.order_by_equal(f, *u2);
                d1.order_by_equal(f, *d2);
            },
            _ => {},
        }
    }

    /// If exchanging the operands flips `f`, it flips the order.
    pub proof fn order_by_flip(self, f: spec_fn(T, T) -> Order, other: Self)
        requires
            forall|x: T, y: T| self.mentions(x) ==> f(y, x) == (#[trigger] f(x, y)).flip(),
        ensures
            other.order_by(f, self) == self.order_by(f, other).flip(),
        decreases self,
    {
        match (self, other) {
            (
                Bdd::Atom { atom: a1, pos: c1, lu: u1, neg: d1 },
                Bdd::Atom { atom: a2, pos: c2, lu: u2, neg: d2 },
            ) => {
                assert(f(*a2, *a1) == f(*a1, *a2).flip());
                c1.order_by_flip(f, *c2);
                u1.order_by_flip(f, *u2);
                d1.order_by_flip(f, *d2);
            },
            _ => {},
        }
    }

    /// If `Less` under `f` is transitive, `Less` under the order is.
    pub proof fn order_by_chain(self, f: spec_fn(T, T) -> Order, mid: Self, other: Self)
        requires
            self.order_by(f, mid) is Less,
            mid.order_by(f, other) is Less,
            forall|x: T, y: T, z: T|
                self.mentions(x) && (#[trigger] f(x, y) is Less) && (#[trigger] f(y, z) is Less)
                    ==> f(x, z) is Less,
            forall|x: T, y: T|
                self.mentions(x) || mid.mentions(x) ==> ((#[trigger] f(x, y) is Equal) <==> x
                    == y),
        ensures
            self.order_by(f, other) is Less,
        decreases self,
    {
        match (self, mid, other) {
            (
                Bdd::Atom { atom: a1, pos: c1, lu: u1, neg: d1 },
                Bdd::Atom { atom: a2, pos: c2, lu: u2, neg: d2 },
                Bdd::Atom { atom: a3, pos: c3, lu: u3, neg: d3 },
            ) => {
                assert((f(*a1, *a2) is Equal) <==> *a1 == *a2);
                assert((f(*a2, *a3) is Equal) <==> *a2 == *a3);
                c1.order_by_equal(f, *c2);
                c2.order_by_equal(f, *c3);
                u1.order_by_equal(f, *u2);
                u2.order_by_equal(f, *u3);
                if c1.order_by(f, *c2) is Less && c2.order_by(f, *c3) is Less {
                    c1.order_by_chain(f, *c2, *c3);
                }
                if u1.order_by(f, *u2) is Less && u2.order_by(f, *u3) is Less {
                    u1.order_by_chain(f, *u2, *u3);
                }
                if d1.order_by(f, *d2) is Less && d2.order_by(f, *d3) is Less {
                    d1.order_by_chain(f, *d2, *d3);
                }
            },
            _ => {},
        }
    }

    /// Compares two diagrams structurally, atoms by `f`. The result is the
    /// order by any `g` that `f` computes on the atoms of `self`.
    pub(crate) fn compare_by<F: Fn(&T, &T) -> Order>(
        &self,
        f: &F,
        other: &Self,
        Ghost(g): Ghost<spec_fn(T, T) -> Order>,
    ) -> (o: Order)
        requires
            forall|x: &T, y: &T| self.mentions(*x) ==> #[trigger] f.requires((x, y)),
            forall|x: &T, y: &T, o: Order|
                self.mentions(*x) && #[trigger] f.ensures((x, y), o) ==> o == g(*x, *y),
        ensures
            o == self.order_by(g, *other),
        decreases self,
    {
        match (self, other) {
            (
                Bdd::Atom { atom: a1, pos: c1, lu: u1, neg: d1 },
                Bdd::Atom { atom: a2, pos: c2, lu: u2, neg: d2 },
            ) => match f(*a1, *a2) {
                Order::Less => Order::Less,
                Order::Greater => Order::Greater,
                Order::Equal => match c1.compare_by(f, c2, Ghost(g)) {
                    Order::Less => Order::Less,
                    Order::Greater => Order::Greater,
                    Order::Equal => match u1.compare_by(f, u2, Ghost(g)) {
                        Order::Less => Order::Less,
                        Order::Greater => Order::Greater,
                        Order::Equal => d1.compare_by(f, d2, Ghost(g)),
                    },
                },
            },
            (Bdd::Atom { .. }, _) => Order::Less,
            (_, Bdd::Atom { .. }) => Order::Greater,
            (Bdd::Bot, Bdd::Top) => Order::Less,
            (Bdd::Top, Bdd::Bot) => Order::Greater,
            _ => Order::Equal,
        }
    }
}

impl<'a, T: TotalOrder> Bdd<'a, T> {
    /// The structural order of diagrams whose atoms bring their own order.
    pub open spec fn order(self, other: Self) -> Order {
        self.order_by(atom_order::<T>(), other)
    }

    /// The order answers `Equal` exactly on equal diagrams.
    pub proof fn order_equal(self, other: Self)
        ensures
            (self.order(other) is Equal) <==> self == other,
    {
        assert forall|x: T, y: T| ((#[trigger] atom_order::<T>()(x, y) is Equal) <==> x == y) by {
            T::order_equal(&x, &y);
        }
        self.order_by_equal(atom_order::<T>(), other);
    }

    /// Exchanging two diagrams flips their order.
    pub proof fn order_flip(self, other: Self)
        ensures
            other.order(self) == self.order(other).flip(),
    {
        assert forall|x: T, y: T|
            atom_order::<T>()(y, x) == (#[trigger] atom_order::<T>()(x, y)).flip() by {
            T::order_flip(&x, &y);
        }
        self.order_by_flip(atom_order::<T>(), other);
    }

    /// `Less` is transitive on diagrams.
    pub proof fn order_chain(self, mid: Self, other: Self)
        requires
            self.order(mid) is Less,
            mid.order(other) is Less,
        ensures
            self.order(other) is Less,
    {
        let f = atom_order::<T>();
        assert forall|x: T, y: T| ((#[trigger] f(x, y) is Equal) <==> x == y) by {
            T::order_equal(&x, &y);
        }
        assert forall|x: T, y: T, z: T|
            (#[trigger] f(x, y) is Less) && (#[trigger] f(y, z) is Less) implies
            f(x, z) is Less by {
            T::order_chain(&x, &y, &z);
        }
        self.order_by_chain(f, mid, other);
    }

    /// Compares two diagrams structurally.
    pub fn compare(&self, other: &Self) -> (o: Order)
        ensures
            o == self.order(*other),
    {
        let f = |x: &T, y: &T| -> (o: Order)
            ensures
                o == x.order(y),
            { x.compare(y) };
        self.compare_by(&f, other, Ghost(atom_order::<T>()))
    }
}

} // verus!
