//! The reach of the conditional laws: on ordered diagrams they hold on no
//! other inputs than those their conditions name.

use crate::atom::{Order, TotalOrder, TyAtom};
use crate::bdd::Bdd;
use vstd::prelude::*;

verus! {

impl<'a, T: TyAtom> Bdd<'a, T> {
    /// A union is `Bot` only if both operands are.
    pub proof fn join_is_bottom(self, other: Self)
        requires
            self.join(other) == Bdd::<T>::Bot,
        ensures
            self == Bdd::<T>::Bot,
            other == Bdd::<T>::Bot,
    {
    }

    /// A diagram above an atom does not decide that atom at its root.
    pub proof fn above_excludes_root(self, floor: T)
        requires
            self.above(floor),
        ensures
            !(self matches Bdd::Atom { atom, .. } && *atom == floor),
    {
        T::order_equal(&floor, &floor);
    }

    /// Diagrams with equal complements are equal.
    pub proof fn complement_injective(self, other: Self)
        requires
            self.complement() == other.complement(),
        ensures
            self == other,
    {
        self.complement_involutive();
        other.complement_involutive();
    }

    /// On ordered diagrams intersection is idempotent only on reduced ones.
    pub proof fn meet_idempotent_only_reduced(self)
        requires
            self.ordered(),
            self.meet(self) == self,
        ensures
            self.reduced(),
        decreases self,
    {
        match self {
            Bdd::Atom { atom, pos, lu, neg } => {
                T::order_equal(atom, atom);
                let p = pos.join(*lu).meet(pos.join(*lu));
                let n = neg.join(*lu).meet(neg.join(*lu));
                pos.join_above(*lu, *atom);
                neg.join_above(*lu, *atom);
                pos.join(*lu).meet_above(pos.join(*lu), *atom);
                neg.join(*lu).meet_above(neg.join(*lu), *atom);
                if p == n {
                    p.join_bottom();
                    p.above_excludes_root(*atom);
                } else {
                    pos.join_bottom();
                    neg.join_bottom();
                    pos.meet_idempotent_only_reduced();
                    neg.meet_idempotent_only_reduced();
                }
            },
            _ => {},
        }
    }

    /// On ordered diagrams the first half of De Morgan holds only on aligned
    /// pairs.
    pub proof fn complement_of_join_only_aligned(self, other: Self)
        requires
            self.ordered(),
            other.ordered(),
            self.join(other).complement() == self.complement().meet(other.complement()),
        ensures
            self.join_aligned(other),
        decreases self,
    {
        match (self, other) {
            (
                Bdd::Atom { atom: a1, pos: c1, lu: u1, neg: d1 },
                Bdd::Atom { atom: a2, pos: c2, lu: u2, neg: d2 },
            ) => {
                T::order_flip(a1, a2);
                T::order_equal(a1, a2);
                let na = self.complement();
                let nb = other.complement();
                self.complement_ordered();
                other.complement_ordered();
                c1.complement_above(*a1);
                d1.complement_above(*a1);
                c2.complement_above(*a2);
                d2.complement_above(*a2);
                c1.complement().join_above(*u1, *a1);
                d1.complement().join_above(*u1, *a1);
                c2.complement().join_above(*u2, *a2);
                d2.complement().join_above(*u2, *a2);
                match a1.order(a2) {
                    Order::Equal => {
                        let p = c1.complement().join(*u1).meet(c2.complement().join(*u2));
                        let n = d1.complement().join(*u1).meet(d2.complement().join(*u2));
                        c1.complement().join(*u1).meet_above(c2.complement().join(*u2), *a1);
                        d1.complement().join(*u1).meet_above(d2.complement().join(*u2), *a1);
                        if p == n {
                            p.join_bottom();
                            p.above_excludes_root(*a1);
                        } else {
                            u1.join_is_bottom(*u2);
                            c1.complement().join_bottom();
                            c2.complement().join_bottom();
                            d1.complement().join_bottom();
                            d2.complement().join_bottom();
                            c1.complement_of_join_only_aligned(*c2);
                            d1.complement_of_join_only_aligned(*d2);
                        }
                    },
                    Order::Less => {
                        let p = c1.complement().join(*u1).meet(nb);
                        let n = d1.complement().join(*u1).meet(nb);
                        nb.ordered_above(*a1);
                        c1.complement().join(*u1).meet_above(nb, *a1);
                        d1.complement().join(*u1).meet_above(nb, *a1);
                        if p == n {
                            p.join_bottom();
                            p.above_excludes_root(*a1);
                        } else {
                            u1.join_is_bottom(other);
                        }
                    },
                    Order::Greater => {
                        let p = na.meet(c2.complement().join(*u2));
                        let n = na.meet(d2.complement().join(*u2));
                        na.ordered_above(*a2);
                        na.meet_above(c2.complement().join(*u2), *a2);
                        na.meet_above(d2.complement().join(*u2), *a2);
                        if p == n {
                            p.join_bottom();
                            p.above_excludes_root(*a2);
                        } else {
                            self.join_is_bottom(*u2);
                        }
                    },
                }
            },
            _ => {},
        }
    }

    /// On ordered diagrams the second half of De Morgan holds only on
    /// aligned pairs.
    pub proof fn complement_of_meet_only_aligned(self, other: Self)
        requires
            self.ordered(),
            other.ordered(),
            self.meet(other).complement() == self.complement().join(other.complement()),
        ensures
            self.meet_aligned(other),
        decreases self,
    {
        match (self, other) {
            (
                Bdd::Atom { atom: a1, pos: c1, lu: u1, neg: d1 },
                Bdd::Atom { atom: a2, pos: c2, lu: u2, neg: d2 },
            ) => {
                T::order_flip(a1, a2);
                T::order_equal(a1, a2);
                let na = self.complement();
                let nb = other.complement();
                c1.join_above(*u1, *a1);
                d1.join_above(*u1, *a1);
                c2.join_above(*u2, *a2);
                d2.join_above(*u2, *a2);
                match a1.order(a2) {
                    Order::Equal => {
                        let p = c1.join(*u1).meet(c2.join(*u2));
                        let n = d1.join(*u1).meet(d2.join(*u2));
                        c1.join(*u1).meet_above(c2.join(*u2), *a1);
                        if p == n {
                            p.join_bottom();
                            p.complement_above(*a1);
                            p.complement().above_excludes_root(*a1);
                        } else {
                            u1.join_is_bottom(*u2);
                            c1.join_bottom();
                            c2.join_bottom();
                            d1.join_bottom();
                            d2.join_bottom();
                            c1.complement_of_meet_only_aligned(*c2);
                            d1.complement_of_meet_only_aligned(*d2);
                        }
                    },
                    Order::Less => {
                        let p = c1.join(*u1).meet(other);
                        let n = d1.join(*u1).meet(other);
                        other.ordered_above(*a1);
                        c1.join(*u1).meet_above(other, *a1);
                        if p == n {
                            p.join_bottom();
                            p.complement_above(*a1);
                            p.complement().above_excludes_root(*a1);
                        } else {
                            u1.join_is_bottom(nb);
                        }
                    },
                    Order::Greater => {
                        let p = self.meet(c2.join(*u2));
                        let n = self.meet(d2.join(*u2));
                        self.ordered_above(*a2);
                        self.meet_above(c2.join(*u2), *a2);
                        if p == n {
                            p.join_bottom();
                            p.complement_above(*a2);
                            p.complement().above_excludes_root(*a2);
                        } else {
                            na.join_is_bottom(*u2);
                        }
                    },
                }
            },
            _ => {},
        }
    }
}

} // verus!
