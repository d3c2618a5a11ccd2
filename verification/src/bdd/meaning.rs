//! What a diagram means: the set of worlds in which it holds, a world being
//! a choice of the atoms that hold.

use crate::atom::{Order, TotalOrder, TyAtom};
use crate::bdd::Bdd;
use vstd::prelude::*;

verus! {

impl<'a, T> Bdd<'a, T> {
    /// Whether the diagram holds in `world`: a decision node holds where its
    /// atom and `pos` hold, where `lu` holds, and where its atom does not
    /// hold and `neg` does.
    pub open spec fn holds(self, world: spec_fn(T) -> bool) -> bool
        decreases self,
    {
        match self {
            Bdd::Atom { atom, pos, lu, neg } => (world(*atom) && pos.holds(world)) || lu.holds(
                world,
            ) || (!world(*atom) && neg.holds(world)),
            Bdd::Bot => false,
            Bdd::Top => true,
        }
    }

    /// The diagram of one atom holds exactly where the atom does.
    pub proof fn single_holds(atom: T, world: spec_fn(T) -> bool)
        ensures
            Self::single(atom).holds(world) == world(atom),
    {
        assert(Bdd::<T>::Top.holds(world));
        assert(!Bdd::<T>::Bot.holds(world));
    }

    /// Without lazy unions, the complement holds exactly where the diagram
    /// does not.
    pub proof fn complement_holds(self, world: spec_fn(T) -> bool)
        requires
            self.lazy_free(),
        ensures
            self.complement().holds(world) == !self.holds(world),
        decreases self,
    {
        match self {
            Bdd::Atom { atom, pos, lu, neg } => {
                pos.complement_holds(world);
                neg.complement_holds(world);
                assert(!Bdd::<T>::Bot.holds(world));
            },
            _ => {},
        }
    }
}

impl<'a, T: TyAtom> Bdd<'a, T> {
    /// A union holds exactly where one of its operands does.
    pub proof fn join_holds(self, other: Self, world: spec_fn(T) -> bool)
        ensures
            self.join(other).holds(world) == (self.holds(world) || other.holds(world)),
        decreases self, other,
    {
        match (self, other) {
            (
                Bdd::Atom { atom: a1, pos: c1, lu: u1, neg: d1 },
                Bdd::Atom { atom: a2, pos: c2, lu: u2, neg: d2 },
            ) => {
                T::order_equal(a1, a2);
                match a1.order(a2) {
                    Order::Equal => {
                        c1.join_holds(*c2, world);
                        u1.join_holds(*u2, world);
                        d1.join_holds(*d2, world);
                    },
                    Order::Less => {
                        u1.join_holds(other, world);
                    },
                    Order::Greater => {
                        self.join_holds(*u2, world);
                    },
                }
            },
            _ => {},
        }
    }

    /// Collapsing a node does not change where it holds.
    pub proof fn collapse_holds(self, world: spec_fn(T) -> bool)
        ensures
            self.collapse().holds(world) == self.holds(world),
    {
        match self {
            Bdd::Atom { atom, pos, lu, neg } => {
                pos.join_holds(*lu, world);
                assert(Bdd::<T>::Top.holds(world));
            },
            _ => {},
        }
    }

    /// An intersection holds exactly where both of its operands do.
    pub proof fn meet_holds(self, other: Self, world: spec_fn(T) -> bool)
        ensures
            self.meet(other).holds(world) == (self.holds(world) && other.holds(world)),
        decreases self.size() + other.size(),
    {
        match (self, other) {
            (
                Bdd::Atom { atom: a1, pos: c1, lu: u1, neg: d1 },
                Bdd::Atom { atom: a2, pos: c2, lu: u2, neg: d2 },
            ) => {
                T::order_equal(a1, a2);
                Self::join_size(*c1, *u1);
                Self::join_size(*d1, *u1);
                Self::join_size(*c2, *u2);
                Self::join_size(*d2, *u2);
                c1.join_holds(*u1, world);
                d1.join_holds(*u1, world);
                c2.join_holds(*u2, world);
                d2.join_holds(*u2, world);
                assert(!Bdd::<T>::Bot.holds(world));
                let node = match a1.order(a2) {
                    Order::Equal => {
                        c1.join(*u1).meet_holds(c2.join(*u2), world);
                        d1.join(*u1).meet_holds(d2.join(*u2), world);
                        Bdd::Atom {
                            atom: a1,
                            pos: &c1.join(*u1).meet(c2.join(*u2)),
                            lu: &Bdd::Bot,
                            neg: &d1.join(*u1).meet(d2.join(*u2)),
                        }
                    },
                    Order::Less => {
                        c1.join(*u1).meet_holds(other, world);
                        d1.join(*u1).meet_holds(other, world);
                        Bdd::Atom {
                            atom: a1,
                            pos: &c1.join(*u1).meet(other),
                            lu: &Bdd::Bot,
                            neg: &d1.join(*u1).meet(other),
                        }
                    },
                    Order::Greater => {
                        self.meet_holds(c2.join(*u2), world);
                        self.meet_holds(d2.join(*u2), world);
                        Bdd::Atom {
                            atom: a2,
                            pos: &self.meet(c2.join(*u2)),
                            lu: &Bdd::Bot,
                            neg: &self.meet(d2.join(*u2)),
                        }
                    },
                };
                node.collapse_holds(world);
            },
            _ => {},
        }
    }

    /// Taking away a diagram without lazy unions leaves what holds where
    /// `self` does and `other` does not.
    pub proof fn minus_holds(self, other: Self, world: spec_fn(T) -> bool)
        requires
            other.lazy_free(),
        ensures
            self.minus(other).holds(world) == (self.holds(world) && !other.holds(world)),
        decreases self.size() + other.size(),
    {
        match (self, other) {
            (Bdd::Top, Bdd::Atom { atom, pos, lu, neg }) => {
                self.minus_holds(*pos, world);
                self.minus_holds(*neg, world);
                assert(!Bdd::<T>::Bot.holds(world));
            },
            (
                Bdd::Atom { atom: a1, pos: c1, lu: u1, neg: d1 },
                Bdd::Atom { atom: a2, pos: c2, lu: u2, neg: d2 },
            ) => {
                T::order_equal(a1, a2);
                Self::join_size(*c1, *u1);
                Self::join_size(*d1, *u1);
                c1.join_holds(*u1, world);
                d1.join_holds(*u1, world);
                c2.join_bottom();
                d2.join_bottom();
                assert(!Bdd::<T>::Bot.holds(world));
                let node = match a1.order(a2) {
                    Order::Equal => {
                        c1.join(*u1).minus_holds(*c2, world);
                        d1.join(*u1).minus_holds(*d2, world);
                        Bdd::Atom {
                            atom: a1,
                            pos: &c1.join(*u1).minus(*c2),
                            lu: &Bdd::Bot,
                            neg: &d1.join(*u1).minus(*d2),
                        }
                    },
                    Order::Less => {
                        c1.join(*u1).minus_holds(other, world);
                        d1.join(*u1).minus_holds(other, world);
                        Bdd::Atom {
                            atom: a1,
                            pos: &c1.join(*u1).minus(other),
                            lu: &Bdd::Bot,
                            neg: &d1.join(*u1).minus(other),
                        }
                    },
                    Order::Greater => {
                        self.minus_holds(*c2, world);
                        self.minus_holds(*d2, world);
                        Bdd::Atom {
                            atom: a2,
                            pos: &self.minus(*c2),
                            lu: &Bdd::Bot,
                            neg: &self.minus(*d2),
                        }
                    },
                };
                node.collapse_holds(world);
            },
            _ => {},
        }
    }
}

} // verus!
