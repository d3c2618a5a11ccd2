//! The algebra of diagrams: what union, intersection, difference and
//! complement satisfy on every input, and on which inputs the remaining
//! Boolean laws hold.

use crate::atom::{Order, TotalOrder, TyAtom};
use crate::bdd::Bdd;
use vstd::prelude::*;

verus! {

impl<'a, T> Bdd<'a, T> {
    /// No decision node carries a lazy union.
    pub open spec fn lazy_free(self) -> bool
        decreases self,
    {
        match self {
            Bdd::Atom { atom, pos, lu, neg } => *lu == Bdd::<T>::Bot && pos.lazy_free()
                && neg.lazy_free(),
            _ => true,
        }
    }

    /// No decision node carries a lazy union, and none decides an atom on
    /// which its two branches agree.
    pub open spec fn reduced(self) -> bool
        decreases self,
    {
        match self {
            Bdd::Atom { atom, pos, lu, neg } => *lu == Bdd::<T>::Bot && pos != neg
                && pos.reduced() && neg.reduced(),
            _ => true,
        }
    }

    /// Complementing twice gives the diagram back.
    pub proof fn complement_involutive(self)
        ensures
            self.complement().complement() == self,
        decreases self,
    {
        match self {
            Bdd::Atom { atom, pos, lu, neg } => {
                pos.complement_involutive();
                neg.complement_involutive();
            },
            _ => {},
        }
    }

    /// Mapping with the identity changes nothing.
    pub proof fn map_identity(self, id: spec_fn(T) -> T)
        requires
            forall|x: T| #[trigger] id(x) == x,
        ensures
            self.map(id) == self,
        decreases self,
    {
        match self {
            Bdd::Atom { atom, pos, lu, neg } => {
                pos.map_identity(id);
                lu.map_identity(id);
                neg.map_identity(id);
            },
            _ => {},
        }
    }

    /// Mapping with `f` and then with `g` is mapping with their composition.
    pub proof fn map_composition<U, V>(
        self,
        f: spec_fn(T) -> U,
        g: spec_fn(U) -> V,
        both: spec_fn(T) -> V,
    )
        requires
            forall|x: T| #[trigger] both(x) == g(f(x)),
        ensures
            self.map(f).map(g) == self.map(both),
        decreases self,
    {
        match self {
            Bdd::Atom { atom, pos, lu, neg } => {
                pos.map_composition(f, g, both);
                lu.map_composition(f, g, both);
                neg.map_composition(f, g, both);
            },
            _ => {},
        }
    }

    /// When `f` can only return `g` of its argument, a diagram mapped by `f`
    /// is the diagram mapped with `g`.
    pub proof fn mapped_by_is_map<U, F: Fn(&'a T) -> &'a U>(
        self,
        f: &F,
        out: Bdd<'a, U>,
        g: spec_fn(T) -> U,
    )
        requires
            self.mapped_by(f, out),
            forall|a: &'a T, r: &'a U|
                self.mentions(*a) && #[trigger] f.ensures((a,), r) ==> *r == g(*a),
        ensures
            out == self.map(g),
        decreases self,
    {
        match (self, out) {
            (
                Bdd::Atom { atom: a1, pos: c1, lu: u1, neg: d1 },
                Bdd::Atom { atom: a2, pos: c2, lu: u2, neg: d2 },
            ) => {
                c1.mapped_by_is_map(f, *c2, g);
                u1.mapped_by_is_map(f, *u2, g);
                d1.mapped_by_is_map(f, *d2, g);
            },
            _ => {},
        }
    }
}

impl<'a, T: TyAtom> Bdd<'a, T> {
    /// Every atom of the diagram is greater than `floor`.
    pub open spec fn above(self, floor: T) -> bool
        decreases self,
    {
        match self {
            Bdd::Atom { atom, pos, lu, neg } => floor.order(atom) is Less && pos.above(floor)
                && lu.above(floor) && neg.above(floor),
            _ => true,
        }
    }

    /// Along every path from the root the atoms strictly increase.
    pub open spec fn ordered(self) -> bool
        decreases self,
    {
        match self {
            Bdd::Atom { atom, pos, lu, neg } => pos.above(*atom) && lu.above(*atom)
                && neg.above(*atom) && pos.ordered() && lu.ordered() && neg.ordered(),
            _ => true,
        }
    }

    /// The pairs on which complement turns a union into an intersection:
    /// one of the two is a leaf, or both decide the same atom without a lazy
    /// union, their branches are such pairs again, and the two unions of
    /// their branches differ.
    pub open spec fn join_aligned(self, other: Self) -> bool
        decreases self,
    {
        match (self, other) {
            (
                Bdd::Atom { atom: a1, pos: c1, lu: u1, neg: d1 },
                Bdd::Atom { atom: a2, pos: c2, lu: u2, neg: d2 },
            ) => a1 == a2 && *u1 == Bdd::<T>::Bot && *u2 == Bdd::<T>::Bot && c1.join_aligned(*c2)
                && d1.join_aligned(*d2) && c1.join(*c2) != d1.join(*d2),
            _ => true,
        }
    }

    /// The pairs on which complement turns an intersection into a union:
    /// as `join_aligned`, with the two intersections of the branches
    /// differing.
    pub open spec fn meet_aligned(self, other: Self) -> bool
        decreases self,
    {
        match (self, other) {
            (
                Bdd::Atom { atom: a1, pos: c1, lu: u1, neg: d1 },
                Bdd::Atom { atom: a2, pos: c2, lu: u2, neg: d2 },
            ) => a1 == a2 && *u1 == Bdd::<T>::Bot && *u2 == Bdd::<T>::Bot && c1.meet_aligned(*c2)
                && d1.meet_aligned(*d2) && c1.meet(*c2) != d1.meet(*d2),
            _ => true,
        }
    }

    /// Union is idempotent.
    pub proof fn join_idempotent(self)
        ensures
            self.join(self) == self,
        decreases self,
    {
        match self {
            Bdd::Atom { atom, pos, lu, neg } => {
                T::order_equal(atom, atom);
                pos.join_idempotent();
                lu.join_idempotent();
                neg.join_idempotent();
            },
            _ => {},
        }
    }

    /// Intersection is idempotent on reduced diagrams.
    pub proof fn meet_idempotent(self)
        requires
            self.reduced(),
        ensures
            self.meet(self) == self,
        decreases self,
    {
        match self {
            Bdd::Atom { atom, pos, lu, neg } => {
                T::order_equal(atom, atom);
                pos.join_bottom();
                neg.join_bottom();
                pos.meet_idempotent();
                neg.meet_idempotent();
            },
            _ => {},
        }
    }

    /// `Bot` is the identity of union, on either side.
    pub proof fn join_bottom(self)
        ensures
            self.join(Bdd::Bot) == self,
            Bdd::<T>::Bot.join(self) == self,
    {
    }

    /// `Top` is the identity of intersection, on either side.
    pub proof fn meet_top(self)
        ensures
            self.meet(Bdd::Top) == self,
            Bdd::<T>::Top.meet(self) == self,
    {
    }

    /// `Top` absorbs every union.
    pub proof fn join_top(self)
        ensures
            self.join(Bdd::Top) == Bdd::<T>::Top,
            Bdd::<T>::Top.join(self) == Bdd::<T>::Top,
    {
    }

    /// `Bot` absorbs every intersection.
    pub proof fn meet_bottom(self)
        ensures
            self.meet(Bdd::Bot) == Bdd::<T>::Bot,
            Bdd::<T>::Bot.meet(self) == Bdd::<T>::Bot,
    {
    }

    /// Union does not depend on the order of its operands.
    pub proof fn join_commutative(self, other: Self)
        ensures
            self.join(other) == other.join(self),
        decreases self, other,
    {
        match (self, other) {
            (
                Bdd::Atom { atom: a1, pos: c1, lu: u1, neg: d1 },
                Bdd::Atom { atom: a2, pos: c2, lu: u2, neg: d2 },
            ) => {
                T::order_flip(a1, a2);
                T::order_equal(a1, a2);
                match a1.order(a2) {
                    Order::Equal => {
                        c1.join_commutative(*c2);
                        u1.join_commutative(*u2);
                        d1.join_commutative(*d2);
                    },
                    Order::Less => {
                        u1.join_commutative(other);
                    },
                    Order::Greater => {
                        self.join_commutative(*u2);
                    },
                }
            },
            _ => {},
        }
    }

    /// Intersection does not depend on the order of its operands.
    pub proof fn meet_commutative(self, other: Self)
        ensures
            self.meet(other) == other.meet(self),
        decreases self.size() + other.size(),
    {
        match (self, other) {
            (
                Bdd::Atom { atom: a1, pos: c1, lu: u1, neg: d1 },
                Bdd::Atom { atom: a2, pos: c2, lu: u2, neg: d2 },
            ) => {
                T::order_flip(a1, a2);
                T::order_equal(a1, a2);
                Self::join_size(*c1, *u1);
                Self::join_size(*d1, *u1);
                Self::join_size(*c2, *u2);
                Self::join_size(*d2, *u2);
                match a1.order(a2) {
                    Order::Equal => {
                        c1.join(*u1).meet_commutative(c2.join(*u2));
                        d1.join(*u1).meet_commutative(d2.join(*u2));
                    },
                    Order::Less => {
                        c1.join(*u1).meet_commutative(other);
                        d1.join(*u1).meet_commutative(other);
                    },
                    Order::Greater => {
                        self.meet_commutative(c2.join(*u2));
                        self.meet_commutative(d2.join(*u2));
                    },
                }
            },
            _ => {},
        }
    }

    /// De Morgan, first half: the complement of a union is the intersection
    /// of the complements, on aligned pairs.
    pub proof fn complement_of_join(self, other: Self)
        requires
            self.join_aligned(other),
        ensures
            self.join(other).complement() == self.complement().meet(other.complement()),
        decreases self,
    {
        match (self, other) {
            (
                Bdd::Atom { atom: a1, pos: c1, lu: u1, neg: d1 },
                Bdd::Atom { atom: a2, pos: c2, lu: u2, neg: d2 },
            ) => {
                T::order_equal(a1, a2);
                c1.complement_of_join(*c2);
                d1.complement_of_join(*d2);
                c1.complement().join_bottom();
                c2.complement().join_bottom();
                d1.complement().join_bottom();
                d2.complement().join_bottom();
                c1.join(*c2).complement_involutive();
                d1.join(*d2).complement_involutive();
            },
            (Bdd::Atom { .. }, _) => {
                self.complement().meet_top();
            },
            (_, Bdd::Atom { .. }) => {
                other.complement().meet_top();
            },
            _ => {},
        }
    }

    /// De Morgan, second half: the complement of an intersection is the
    /// union of the complements, on aligned pairs.
    pub proof fn complement_of_meet(self, other: Self)
        requires
            self.meet_aligned(other),
        ensures
            self.meet(other).complement() == self.complement().join(other.complement()),
        decreases self,
    {
        match (self, other) {
            (
                Bdd::Atom { atom: a1, pos: c1, lu: u1, neg: d1 },
                Bdd::Atom { atom: a2, pos: c2, lu: u2, neg: d2 },
            ) => {
                T::order_equal(a1, a2);
                c1.complement_of_meet(*c2);
                d1.complement_of_meet(*d2);
                c1.join_bottom();
                c2.join_bottom();
                d1.join_bottom();
                d2.join_bottom();
            },
            _ => {},
        }
    }

    /// `Top` minus a diagram is its complement.
    pub proof fn top_minus(self)
        ensures
            Bdd::<T>::Top.minus(self) == self.complement(),
        decreases self,
    {
        match self {
            Bdd::Atom { atom, pos, lu, neg } => {
                pos.top_minus();
                neg.top_minus();
            },
            _ => {},
        }
    }

    /// A reduced diagram has no lazy union.
    pub proof fn reduced_lazy_free(self)
        requires
            self.reduced(),
        ensures
            self.lazy_free(),
        decreases self,
    {
        match self {
            Bdd::Atom { atom, pos, lu, neg } => {
                pos.reduced_lazy_free();
                neg.reduced_lazy_free();
            },
            _ => {},
        }
    }

    /// The diagram of a single atom is reduced.
    pub proof fn single_reduced(atom: T)
        ensures
            Self::single(atom).reduced(),
    {
        assert(Bdd::<T>::Top.reduced() && Bdd::<T>::Bot.reduced());
    }

    /// Complement keeps a diagram reduced.
    pub proof fn complement_reduced(self)
        requires
            self.reduced(),
        ensures
            self.complement().reduced(),
        decreases self,
    {
        match self {
            Bdd::Atom { atom, pos, lu, neg } => {
                pos.complement_reduced();
                neg.complement_reduced();
                pos.complement_involutive();
                neg.complement_involutive();
            },
            _ => {},
        }
    }

    /// Intersection keeps diagrams reduced.
    pub proof fn meet_reduced(self, other: Self)
        requires
            self.reduced(),
            other.reduced(),
        ensures
            self.meet(other).reduced(),
        decreases self.size() + other.size(),
    {
        match (self, other) {
            (
                Bdd::Atom { atom: a1, pos: c1, lu: u1, neg: d1 },
                Bdd::Atom { atom: a2, pos: c2, lu: u2, neg: d2 },
            ) => {
                c1.join_bottom();
                d1.join_bottom();
                c2.join_bottom();
                d2.join_bottom();
                assert(Bdd::<T>::Bot.reduced());
                match a1.order(a2) {
                    Order::Equal => {
                        c1.meet_reduced(*c2);
                        d1.meet_reduced(*d2);
                        c1.meet(*c2).join_bottom();
                    },
                    Order::Less => {
                        c1.meet_reduced(other);
                        d1.meet_reduced(other);
                        c1.meet(other).join_bottom();
                    },
                    Order::Greater => {
                        self.meet_reduced(*c2);
                        self.meet_reduced(*d2);
                        self.meet(*c2).join_bottom();
                    },
                }
            },
            _ => {},
        }
    }

    /// Difference keeps diagrams reduced.
    pub proof fn minus_reduced(self, other: Self)
        requires
            self.reduced(),
            other.reduced(),
        ensures
            self.minus(other).reduced(),
        decreases self.size() + other.size(),
    {
        match (self, other) {
            (Bdd::Top, Bdd::Atom { atom, pos, lu, neg }) => {
                self.minus_reduced(*pos);
                self.minus_reduced(*neg);
                pos.top_minus();
                neg.top_minus();
                pos.complement_involutive();
                neg.complement_involutive();
            },
            (
                Bdd::Atom { atom: a1, pos: c1, lu: u1, neg: d1 },
                Bdd::Atom { atom: a2, pos: c2, lu: u2, neg: d2 },
            ) => {
                c1.join_bottom();
                d1.join_bottom();
                c2.join_bottom();
                d2.join_bottom();
                assert(Bdd::<T>::Bot.reduced());
                match a1.order(a2) {
                    Order::Equal => {
                        c1.minus_reduced(*c2);
                        d1.minus_reduced(*d2);
                        c1.minus(*c2).join_bottom();
                    },
                    Order::Less => {
                        c1.minus_reduced(other);
                        d1.minus_reduced(other);
                        c1.minus(other).join_bottom();
                    },
                    Order::Greater => {
                        self.minus_reduced(*c2);
                        self.minus_reduced(*d2);
                        self.minus(*c2).join_bottom();
                    },
                }
            },
            _ => {},
        }
    }

    /// The difference law: taking `other` away is intersecting with its
    /// complement, when `self` is a leaf or `other` has no lazy union.
    pub proof fn minus_is_meet_complement(self, other: Self)
        requires
            self is Top || self is Bot || other.lazy_free(),
        ensures
            self.minus(other) == self.meet(other.complement()),
        decreases self.size() + other.size(),
    {
        match (self, other) {
            (Bdd::Top, _) => {
                other.top_minus();
                other.complement().meet_top();
            },
            (
                Bdd::Atom { atom: a1, pos: c1, lu: u1, neg: d1 },
                Bdd::Atom { atom: a2, pos: c2, lu: u2, neg: d2 },
            ) => {
                Self::join_size(*c1, *u1);
                Self::join_size(*d1, *u1);
                c2.join_bottom();
                d2.join_bottom();
                c2.complement().join_bottom();
                d2.complement().join_bottom();
                match a1.order(a2) {
                    Order::Equal => {
                        c1.join(*u1).minus_is_meet_complement(*c2);
                        d1.join(*u1).minus_is_meet_complement(*d2);
                    },
                    Order::Less => {
                        c1.join(*u1).minus_is_meet_complement(other);
                        d1.join(*u1).minus_is_meet_complement(other);
                    },
                    Order::Greater => {
                        self.minus_is_meet_complement(*c2);
                        self.minus_is_meet_complement(*d2);
                    },
                }
            },
            _ => {},
        }
    }

    /// The boundary cases of difference.
    pub proof fn minus_boundary(self)
        ensures
            self.minus(Bdd::Top) == Bdd::<T>::Bot,
            self.minus(Bdd::Bot) == self,
            Bdd::<T>::Bot.minus(self) == Bdd::<T>::Bot,
            Bdd::<T>::Top.minus(Bdd::Top) == Bdd::<T>::Bot,
    {
    }
}

} // verus!
