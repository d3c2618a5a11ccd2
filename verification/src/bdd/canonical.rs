//! Canonical order: the atoms of a diagram increase along every path, and
//! every operation of the engine keeps it so.

use crate::atom::{Order, TotalOrder, TyAtom};
use crate::bdd::Bdd;
use vstd::prelude::*;

verus! {

impl<'a, T: TyAtom> Bdd<'a, T> {
    /// A diagram above `hi` is above everything below `hi`.
    pub proof fn above_lower(self, lo: T, hi: T)
        requires
            self.above(hi),
            lo.order(&hi) is Less,
        ensures
            self.above(lo),
        decreases self,
    {
        match self {
            Bdd::Atom { atom, pos, lu, neg } => {
                T::order_chain(&lo, &hi, atom);
                pos.above_lower(lo, hi);
                lu.above_lower(lo, hi);
                neg.above_lower(lo, hi);
            },
            _ => {},
        }
    }

    /// An ordered decision node is above whatever is below its atom.
    pub proof fn ordered_above(self, floor: T)
        requires
            self.ordered(),
            self matches Bdd::Atom { atom, .. } && floor.order(atom) is Less,
        ensures
            self.above(floor),
    {
        match self {
            Bdd::Atom { atom, pos, lu, neg } => {
                pos.above_lower(floor, *atom);
                lu.above_lower(floor, *atom);
                neg.above_lower(floor, *atom);
            },
            _ => {},
        }
    }

    /// The diagram of a single atom is ordered.
    pub proof fn single_ordered(atom: T)
        ensures
            Self::single(atom).ordered(),
    {
        assert(Bdd::<T>::Top.ordered() && Bdd::<T>::Top.above(atom));
        assert(Bdd::<T>::Bot.ordered() && Bdd::<T>::Bot.above(atom));
    }

    /// Complement keeps a diagram above `floor`.
    pub proof fn complement_above(self, floor: T)
        requires
            self.above(floor),
        ensures
            self.complement().above(floor),
        decreases self,
    {
        match self {
            Bdd::Atom { atom, pos, lu, neg } => {
                pos.complement_above(floor);
                neg.complement_above(floor);
            },
            _ => {},
        }
    }

    /// Complement keeps a diagram ordered.
    pub proof fn complement_ordered(self)
        requires
            self.ordered(),
        ensures
            self.complement().ordered(),
        decreases self,
    {
        match self {
            Bdd::Atom { atom, pos, lu, neg } => {
                pos.complement_above(*atom);
                neg.complement_above(*atom);
                pos.complement_ordered();
                neg.complement_ordered();
            },
            _ => {},
        }
    }

    /// A union of diagrams above `floor` is above `floor`.
    pub proof fn join_above(self, other: Self, floor: T)
        requires
            self.above(floor),
            other.above(floor),
        ensures
            self.join(other).above(floor),
        decreases self, other,
    {
        match (self, other) {
            (
                Bdd::Atom { atom: a1, pos: c1, lu: u1, neg: d1 },
                Bdd::Atom { atom: a2, pos: c2, lu: u2, neg: d2 },
            ) => {
                match a1.order(a2) {
                    Order::Equal => {
                        c1.join_above(*c2, floor);
                        u1.join_above(*u2, floor);
                        d1.join_above(*d2, floor);
                    },
                    Order::Less => {
                        u1.join_above(other, floor);
                    },
                    Order::Greater => {
                        self.join_above(*u2, floor);
                    },
                }
            },
            _ => {},
        }
    }

    /// Union keeps diagrams ordered.
    pub proof fn join_ordered(self, other: Self)
        requires
            self.ordered(),
            other.ordered(),
        ensures
            self.join(other).ordered(),
        decreases self, other,
    {
        match (self, other) {
            (
                Bdd::Atom { atom: a1, pos: c1, lu: u1, neg: d1 },
                Bdd::Atom { atom: a2, pos: c2, lu: u2, neg: d2 },
            ) => {
                T::order_flip(a1, a2);
                T::order_equal(a1, a2);
                match a1.order(a2) {
                    Order::Equal => {
                        c1.join_above(*c2, *a1);
                        u1.join_above(*u2, *a1);
                        d1.join_above(*d2, *a1);
                        c1.join_ordered(*c2);
                        u1.join_ordered(*u2);
                        d1.join_ordered(*d2);
                    },
                    Order::Less => {
                        other.ordered_above(*a1);
                        u1.join_above(other, *a1);
                        u1.join_ordered(other);
                    },
                    Order::Greater => {
                        self.ordered_above(*a2);
                        self.join_above(*u2, *a2);
                        self.join_ordered(*u2);
                    },
                }
            },
            _ => {},
        }
    }

    /// Collapsing keeps a node above `floor`.
    pub proof fn collapse_above(self, floor: T)
        requires
            self.above(floor),
        ensures
            self.collapse().above(floor),
    {
        match self {
            Bdd::Atom { atom, pos, lu, neg } => {
                pos.join_above(*lu, floor);
            },
            _ => {},
        }
    }

    /// Collapsing keeps a node ordered.
    pub proof fn collapse_ordered(self)
        requires
            self.ordered(),
        ensures
            self.collapse().ordered(),
    {
        match self {
            Bdd::Atom { atom, pos, lu, neg } => {
                pos.join_ordered(*lu);
            },
            _ => {},
        }
    }

    /// An intersection of diagrams above `floor` is above `floor`.
    pub proof fn meet_above(self, other: Self, floor: T)
        requires
            self.above(floor),
            other.above(floor),
        ensures
            self.meet(other).above(floor),
        decreases self.size() + other.size(),
    {
        match (self, other) {
            (
                Bdd::Atom { atom: a1, pos: c1, lu: u1, neg: d1 },
                Bdd::Atom { atom: a2, pos: c2, lu: u2, neg: d2 },
            ) => {
                Self::join_size(*c1, *u1);
                Self::join_size(*d1, *u1);
                Self::join_size(*c2, *u2);
                Self::join_size(*d2, *u2);
                c1.join_above(*u1, floor);
                d1.join_above(*u1, floor);
                c2.join_above(*u2, floor);
                d2.join_above(*u2, floor);
                let node = match a1.order(a2) {
                    Order::Equal => {
                        c1.join(*u1).meet_above(c2.join(*u2), floor);
                        d1.join(*u1).meet_above(d2.join(*u2), floor);
                        Bdd::Atom {
                            atom: a1,
                            pos: &c1.join(*u1).meet(c2.join(*u2)),
                            lu: &Bdd::Bot,
                            neg: &d1.join(*u1).meet(d2.join(*u2)),
                        }
                    },
                    Order::Less => {
                        c1.join(*u1).meet_above(other, floor);
                        d1.join(*u1).meet_above(other, floor);
                        Bdd::Atom {
                            atom: a1,
                            pos: &c1.join(*u1).meet(other),
                            lu: &Bdd::Bot,
                            neg: &d1.join(*u1).meet(other),
                        }
                    },
                    Order::Greater => {
                        self.meet_above(c2.join(*u2), floor);
                        self.meet_above(d2.join(*u2), floor);
                        Bdd::Atom {
                            atom: a2,
                            pos: &self.meet(c2.join(*u2)),
                            lu: &Bdd::Bot,
                            neg: &self.meet(d2.join(*u2)),
                        }
                    },
                };
                assert(Bdd::<T>::Bot.above(floor));
                node.collapse_above(floor);
            },
            _ => {},
        }
    }

    /// Intersection keeps diagrams ordered.
    pub proof fn meet_ordered(self, other: Self)
        requires
            self.ordered(),
            other.ordered(),
        ensures
            self.meet(other).ordered(),
        decreases self.size() + other.size(),
    {
        match (self, other) {
            (
                Bdd::Atom { atom: a1, pos: c1, lu: u1, neg: d1 },
                Bdd::Atom { atom: a2, pos: c2, lu: u2, neg: d2 },
            ) => {
                T::order_flip(a1, a2);
                T::order_equal(a1, a2);
                Self::join_size(*c1, *u1);
                Self::join_size(*d1, *u1);
                Self::join_size(*c2, *u2);
                Self::join_size(*d2, *u2);
                c1.join_ordered(*u1);
                d1.join_ordered(*u1);
                c2.join_ordered(*u2);
                d2.join_ordered(*u2);
                c1.join_above(*u1, *a1);
                d1.join_above(*u1, *a1);
                c2.join_above(*u2, *a2);
                d2.join_above(*u2, *a2);
                let node = match a1.order(a2) {
                    Order::Equal => {
                        c1.join(*u1).meet_above(c2.join(*u2), *a1);
                        d1.join(*u1).meet_above(d2.join(*u2), *a1);
                        c1.join(*u1).meet_ordered(c2.join(*u2));
                        d1.join(*u1).meet_ordered(d2.join(*u2));
                        Bdd::Atom {
                            atom: a1,
                            pos: &c1.join(*u1).meet(c2.join(*u2)),
                            lu: &Bdd::Bot,
                            neg: &d1.join(*u1).meet(d2.join(*u2)),
                        }
                    },
                    Order::Less => {
                        other.ordered_above(*a1);
                        c1.join(*u1).meet_above(other, *a1);
                        d1.join(*u1).meet_above(other, *a1);
                        c1.join(*u1).meet_ordered(other);
                        d1.join(*u1).meet_ordered(other);
                        Bdd::Atom {
                            atom: a1,
                            pos: &c1.join(*u1).meet(other),
                            lu: &Bdd::Bot,
                            neg: &d1.join(*u1).meet(other),
                        }
                    },
                    Order::Greater => {
                        self.ordered_above(*a2);
                        self.meet_above(c2.join(*u2), *a2);
                        self.meet_above(d2.join(*u2), *a2);
                        self.meet_ordered(c2.join(*u2));
                        self.meet_ordered(d2.join(*u2));
                        Bdd::Atom {
                            atom: a2,
                            pos: &self.meet(c2.join(*u2)),
                            lu: &Bdd::Bot,
                            neg: &self.meet(d2.join(*u2)),
                        }
                    },
                };
                assert(Bdd::<T>::Bot.ordered()
                    && Bdd::<T>::Bot.above(*a1)
                    && Bdd::<T>::Bot.above(*a2));
                node.collapse_ordered();
            },
            _ => {},
        }
    }

    /// A difference of diagrams above `floor` is above `floor`.
    pub proof fn minus_above(self, other: Self, floor: T)
        requires
            self.above(floor),
            other.above(floor),
        ensures
            self.minus(other).above(floor),
        decreases self.size() + other.size(),
    {
        match (self, other) {
            (Bdd::Top, Bdd::Atom { atom, pos, lu, neg }) => {
                self.minus_above(*pos, floor);
                self.minus_above(*neg, floor);
            },
            (
                Bdd::Atom { atom: a1, pos: c1, lu: u1, neg: d1 },
                Bdd::Atom { atom: a2, pos: c2, lu: u2, neg: d2 },
            ) => {
                Self::join_size(*c1, *u1);
                Self::join_size(*d1, *u1);
                Self::join_size(*c2, *u2);
                Self::join_size(*d2, *u2);
                c1.join_above(*u1, floor);
                d1.join_above(*u1, floor);
                c2.join_above(*u2, floor);
                d2.join_above(*u2, floor);
                let node = match a1.order(a2) {
                    Order::Equal => {
                        c1.join(*u1).minus_above(c2.join(*u2), floor);
                        d1.join(*u1).minus_above(d2.join(*u2), floor);
                        Bdd::Atom {
                            atom: a1,
                            pos: &c1.join(*u1).minus(c2.join(*u2)),
                            lu: &Bdd::Bot,
                            neg: &d1.join(*u1).minus(d2.join(*u2)),
                        }
                    },
                    Order::Less => {
                        c1.join(*u1).minus_above(other, floor);
                        d1.join(*u1).minus_above(other, floor);
                        Bdd::Atom {
                            atom: a1,
                            pos: &c1.join(*u1).minus(other),
                            lu: &Bdd::Bot,
                            neg: &d1.join(*u1).minus(other),
                        }
                    },
                    Order::Greater => {
                        self.minus_above(c2.join(*u2), floor);
                        self.minus_above(d2.join(*u2), floor);
                        Bdd::Atom {
                            atom: a2,
                            pos: &self.minus(c2.join(*u2)),
                            lu: &Bdd::Bot,
                            neg: &self.minus(d2.join(*u2)),
                        }
                    },
                };
                assert(Bdd::<T>::Bot.above(floor));
                node.collapse_above(floor);
            },
            _ => {},
        }
    }

    /// Difference keeps diagrams ordered.
    pub proof fn minus_ordered(self, other: Self)
        requires
            self.ordered(),
            other.ordered(),
        ensures
            self.minus(other).ordered(),
        decreases self.size() + other.size(),
    {
        match (self, other) {
            (Bdd::Top, Bdd::Atom { atom, pos, lu, neg }) => {
                self.minus_above(*pos, *atom);
                self.minus_above(*neg, *atom);
                self.minus_ordered(*pos);
                self.minus_ordered(*neg);
            },
            (
                Bdd::Atom { atom: a1, pos: c1, lu: u1, neg: d1 },
                Bdd::Atom { atom: a2, pos: c2, lu: u2, neg: d2 },
            ) => {
                T::order_flip(a1, a2);
                T::order_equal(a1, a2);
                Self::join_size(*c1, *u1);
                Self::join_size(*d1, *u1);
                Self::join_size(*c2, *u2);
                Self::join_size(*d2, *u2);
                c1.join_ordered(*u1);
                d1.join_ordered(*u1);
                c2.join_ordered(*u2);
                d2.join_ordered(*u2);
                c1.join_above(*u1, *a1);
                d1.join_above(*u1, *a1);
                c2.join_above(*u2, *a2);
                d2.join_above(*u2, *a2);
                let node = match a1.order(a2) {
                    Order::Equal => {
                        c1.join(*u1).minus_above(c2.join(*u2), *a1);
                        d1.join(*u1).minus_above(d2.join(*u2), *a1);
                        c1.join(*u1).minus_ordered(c2.join(*u2));
                        d1.join(*u1).minus_ordered(d2.join(*u2));
                        Bdd::Atom {
                            atom: a1,
                            pos: &c1.join(*u1).minus(c2.join(*u2)),
                            lu: &Bdd::Bot,
                            neg: &d1.join(*u1).minus(d2.join(*u2)),
                        }
                    },
                    Order::Less => {
                        other.ordered_above(*a1);
                        c1.join(*u1).minus_above(other, *a1);
                        d1.join(*u1).minus_above(other, *a1);
                        c1.join(*u1).minus_ordered(other);
                        d1.join(*u1).minus_ordered(other);
                        Bdd::Atom {
                            atom: a1,
                            pos: &c1.join(*u1).minus(other),
                            lu: &Bdd::Bot,
                            neg: &d1.join(*u1).minus(other),
                        }
                    },
                    Order::Greater => {
                        self.ordered_above(*a2);
                        self.minus_above(c2.join(*u2), *a2);
                        self.minus_above(d2.join(*u2), *a2);
                        self.minus_ordered(c2.join(*u2));
                        self.minus_ordered(d2.join(*u2));
                        Bdd::Atom {
                            atom: a2,
                            pos: &self.minus(c2.join(*u2)),
                            lu: &Bdd::Bot,
                            neg: &self.minus(d2.join(*u2)),
                        }
                    },
                };
                assert(Bdd::<T>::Bot.ordered()
                    && Bdd::<T>::Bot.above(*a1)
                    && Bdd::<T>::Bot.above(*a2));
                node.collapse_ordered();
            },
            _ => {},
        }
    }

    /// Mapping the atoms with a function that keeps their order keeps a
    /// diagram above the image of `floor`.
    pub proof fn map_above<U: TyAtom>(self, f: spec_fn(T) -> U, floor: T)
        requires
            self.above(floor),
            forall|x: T, y: T| x.order(&y) is Less ==> (#[trigger] f(x).order(&f(y))) is Less,
        ensures
            self.map(f).above(f(floor)),
        decreases self,
    {
        match self {
            Bdd::Atom { atom, pos, lu, neg } => {
                pos.map_above(f, floor);
                lu.map_above(f, floor);
                neg.map_above(f, floor);
            },
            _ => {},
        }
    }

    /// Mapping the atoms with a function that keeps their order keeps a
    /// diagram ordered.
    pub proof fn map_ordered<U: TyAtom>(self, f: spec_fn(T) -> U)
        requires
            self.ordered(),
            forall|x: T, y: T| x.order(&y) is Less ==> (#[trigger] f(x).order(&f(y))) is Less,
        ensures
            self.map(f).ordered(),
        decreases self,
    {
        match self {
            Bdd::Atom { atom, pos, lu, neg } => {
                pos.map_above(f, *atom);
                lu.map_above(f, *atom);
                neg.map_above(f, *atom);
                pos.map_ordered(f);
                lu.map_ordered(f);
                neg.map_ordered(f);
            },
            _ => {},
        }
    }

    /// The union of three atoms in increasing order is one chain: each atom
    /// sits in the lazy union of the one before it, and the chain is ordered.
    pub proof fn join_of_increasing_atoms(x: T, y: T, z: T)
        requires
            x.order(&y) is Less,
            y.order(&z) is Less,
        ensures
            Self::single(x).join(Self::single(y).join(Self::single(z))) == (Bdd::Atom {
                atom: &x,
                pos: &Bdd::Top,
                lu: &Bdd::Atom {
                    atom: &y,
                    pos: &Bdd::Top,
                    lu: &Self::single(z),
                    neg: &Bdd::Bot,
                },
                neg: &Bdd::Bot,
            }),
            Self::single(x).join(Self::single(y).join(Self::single(z))).ordered(),
    {
        T::order_chain(&x, &y, &z);
        let tail = Self::single(y).join(Self::single(z));
        assert(Bdd::<T>::Bot.join(Self::single(z)) == Self::single(z));
        assert(tail == (Bdd::Atom {
            atom: &y,
            pos: &Bdd::Top,
            lu: &Self::single(z),
            neg: &Bdd::Bot,
        }));
        assert(Bdd::<T>::Bot.join(tail) == tail);
        Self::single_ordered(x);
        Self::single_ordered(y);
        Self::single_ordered(z);
        Self::single(y).join_ordered(Self::single(z));
        Self::single(x).join_ordered(Self::single(y).join(Self::single(z)));
    }
}

} // verus!
