//! The diagram engine: a persistent ternary decision tree over an atom type.

pub mod aggregate;
pub mod arrow;
pub mod canonical;
pub mod compare;
pub mod exact;
pub mod laws;
pub mod meaning;
pub mod product;
pub mod record;
pub mod refr;

use crate::arena::place;
use crate::atom::{Order, TotalOrder, TyAtom};
use bumpalo::Bump;
use vstd::prelude::*;

verus! {

/// A decision diagram over atoms of type `T`.
///
/// `Atom` is a decision node: `pos` holds when the atom does, `neg` when it
/// does not, and `lu` is a union that is held beside both and has not yet
/// been resolved against the atom.
#[derive(Debug, PartialEq, Eq)]
pub enum Bdd<'a, T> {
    Atom { atom: &'a T, pos: &'a Bdd<'a, T>, lu: &'a Bdd<'a, T>, neg: &'a Bdd<'a, T> },
    Bot,
    Top,
}

impl<'a, T> Bdd<'a, T> {
    /// The number of decision nodes, counted along every path.
    pub open spec fn size(self) -> nat
        decreases self,
    {
        match self {
            Bdd::Atom { atom, pos, lu, neg } => 1 + pos.size() + lu.size() + neg.size(),
            _ => 0,
        }
    }

    /// The diagram that decides `atom` alone.
    pub open spec fn single(atom: T) -> Self {
        Bdd::Atom { atom: &atom, pos: &Bdd::Top, lu: &Bdd::Bot, neg: &Bdd::Bot }
    }

    /// Complement: the leaves are exchanged and every decision node keeps its
    /// atom and its lazy union while both resolved branches are complemented.
    pub open spec fn complement(self) -> Self
        decreases self,
    {
        match self {
            Bdd::Atom { atom, pos, lu, neg } => Bdd::Atom {
                atom,
                pos: &pos.complement(),
                lu,
                neg: &neg.complement(),
            },
            Bdd::Bot => Bdd::Top,
            Bdd::Top => Bdd::Bot,
        }
    }

    /// The diagram of the same shape whose atoms are the images under `f`.
    pub open spec fn map<U>(self, f: spec_fn(T) -> U) -> Bdd<'a, U>
        decreases self,
    {
        match self {
            Bdd::Atom { atom, pos, lu, neg } => Bdd::Atom {
                atom: &f(*atom),
                pos: &pos.map(f),
                lu: &lu.map(f),
                neg: &neg.map(f),
            },
            Bdd::Bot => Bdd::Bot,
            Bdd::Top => Bdd::Top,
        }
    }

    /// Whether `atom` labels a decision node of the diagram.
    pub open spec fn mentions(self, atom: T) -> bool
        decreases self,
    {
        match self {
            Bdd::Atom { atom: a, pos, lu, neg } => *a == atom || pos.mentions(atom)
                || lu.mentions(atom) || neg.mentions(atom),
            _ => false,
        }
    }

    /// `out` has the shape of `self`, and each of its atoms is a value that
    /// `f` may return for the atom in the same place.
    pub open spec fn mapped_by<U, F: Fn(&'a T) -> &'a U>(self, f: &F, out: Bdd<'a, U>) -> bool
        decreases self,
    {
        match (self, out) {
            (
                Bdd::Atom { atom: a1, pos: c1, lu: u1, neg: d1 },
                Bdd::Atom { atom: a2, pos: c2, lu: u2, neg: d2 },
            ) => f.ensures((a1,), a2) && c1.mapped_by(f, *c2) && u1.mapped_by(f, *u2)
                && d1.mapped_by(f, *d2),
            (Bdd::Bot, Bdd::Bot) => true,
            (Bdd::Top, Bdd::Top) => true,
            _ => false,
        }
    }

    /// Rebuilds the diagram with every atom replaced by what `f` returns
    /// for it.
    pub fn map_atoms<T2, F: Fn(&'a T) -> &'a T2>(arena: &'a Bump, bdd: &'a Self, f: &F) -> (r:
        &'a Bdd<'a, T2>)
        requires
            forall|a: &'a T| bdd.mentions(*a) ==> #[trigger] f.requires((a,)),
        ensures
            bdd.mapped_by(f, *r),
        decreases bdd,
    {
        match bdd {
            Bdd::Atom { atom, pos, lu, neg } => {
                let atom = f(*atom);
                let pos = Self::map_atoms(arena, pos, f);
                let lu = Self::map_atoms(arena, lu, f);
                let neg = Self::map_atoms(arena, neg, f);
                place(arena, Bdd::Atom { atom, pos, lu, neg })
            },
            Bdd::Bot => place(arena, Bdd::Bot),
            Bdd::Top => place(arena, Bdd::Top),
        }
    }

    /// A `Top` leaf in the arena.
    pub fn top(arena: &'a Bump) -> (r: &'a Self)
        ensures
            *r == Bdd::<T>::Top,
    {
        place(arena, Bdd::Top)
    }

    /// A `Bot` leaf in the arena.
    pub fn bot(arena: &'a Bump) -> (r: &'a Self)
        ensures
            *r == Bdd::<T>::Bot,
    {
        place(arena, Bdd::Bot)
    }
}

impl<'a, T: TyAtom> Bdd<'a, T> {
    /// Union. Equal atoms merge branch by branch; otherwise the smaller atom
    /// stays on top and the other diagram is folded into its lazy union.
    pub open spec fn join(self, other: Self) -> Self
        decreases self, other,
    {
        match (self, other) {
            (Bdd::Top, _) => Bdd::Top,
            (_, Bdd::Top) => Bdd::Top,
            (Bdd::Bot, _) => other,
            (_, Bdd::Bot) => self,
            (
                Bdd::Atom { atom: a1, pos: c1, lu: u1, neg: d1 },
                Bdd::Atom { atom: a2, pos: c2, lu: u2, neg: d2 },
            ) => match a1.order(a2) {
                Order::Equal => Bdd::Atom {
                    atom: a1,
                    pos: &c1.join(*c2),
                    lu: &u1.join(*u2),
                    neg: &d1.join(*d2),
                },
                Order::Less => Bdd::Atom { atom: a1, pos: c1, lu: &u1.join(other), neg: d1 },
                Order::Greater => Bdd::Atom { atom: a2, pos: c2, lu: &self.join(*u2), neg: d2 },
            },
        }
    }

    /// What a freshly built node of an intersection or a difference becomes:
    /// a node whose two resolved branches agree is the union of that branch
    /// with the lazy union, and a node whose lazy union is `Top` is `Top`.
    pub open spec fn collapse(self) -> Self {
        match self {
            Bdd::Atom { atom, pos, lu, neg } => if pos == neg {
                pos.join(*lu)
            } else if *lu == Bdd::<T>::Top {
                Bdd::Top
            } else {
                self
            },
            _ => self,
        }
    }

    /// Intersection.
    pub open spec fn meet(self, other: Self) -> Self
        decreases self.size() + other.size(),
    {
        match (self, other) {
            (Bdd::Bot, _) => Bdd::Bot,
            (_, Bdd::Bot) => Bdd::Bot,
            (Bdd::Top, _) => other,
            (_, Bdd::Top) => self,
            (
                Bdd::Atom { atom: a1, pos: c1, lu: u1, neg: d1 },
                Bdd::Atom { atom: a2, pos: c2, lu: u2, neg: d2 },
            ) => {
                proof {
                    Self::join_size(*c1, *u1);
                    Self::join_size(*d1, *u1);
                    Self::join_size(*c2, *u2);
                    Self::join_size(*d2, *u2);
                }
                match a1.order(a2) {
                    Order::Equal => (Bdd::Atom {
                        atom: a1,
                        pos: &c1.join(*u1).meet(c2.join(*u2)),
                        lu: &Bdd::Bot,
                        neg: &d1.join(*u1).meet(d2.join(*u2)),
                    }).collapse(),
                    Order::Less => (Bdd::Atom {
                        atom: a1,
                        pos: &c1.join(*u1).meet(other),
                        lu: &Bdd::Bot,
                        neg: &d1.join(*u1).meet(other),
                    }).collapse(),
                    Order::Greater => (Bdd::Atom {
                        atom: a2,
                        pos: &self.meet(c2.join(*u2)),
                        lu: &Bdd::Bot,
                        neg: &self.meet(d2.join(*u2)),
                    }).collapse(),
                }
            },
        }
    }

    /// A union has at most as many decision nodes as its operands together.
    pub proof fn join_size(a: Self, b: Self)
        ensures
            a.join(b).size() <= a.size() + b.size(),
        decreases a, b,
    {
        match (a, b) {
            (
                Bdd::Atom { atom: a1, pos: c1, lu: u1, neg: d1 },
                Bdd::Atom { atom: a2, pos: c2, lu: u2, neg: d2 },
            ) => {
                match a1.order(a2) {
                    Order::Equal => {
                        Self::join_size(*c1, *c2);
                        Self::join_size(*u1, *u2);
                        Self::join_size(*d1, *d2);
                    },
                    Order::Less => {
                        Self::join_size(*u1, b);
                    },
                    Order::Greater => {
                        Self::join_size(a, *u2);
                    },
                }
            },
            _ => {},
        }
    }
}

impl<'a, T: TyAtom> Bdd<'a, T> {
    /// Difference. `Top` minus a decision node complements the node in
    /// place; two decision nodes combine as in an intersection.
    pub open spec fn minus(self, other: Self) -> Self
        decreases self.size() + other.size(),
    {
        match (self, other) {
            (_, Bdd::Top) => Bdd::Bot,
            (Bdd::Bot, _) => Bdd::Bot,
            (_, Bdd::Bot) => self,
            (Bdd::Top, Bdd::Atom { atom, pos, lu, neg }) => Bdd::Atom {
                atom,
                pos: &self.minus(*pos),
                lu,
                neg: &self.minus(*neg),
            },
            (
                Bdd::Atom { atom: a1, pos: c1, lu: u1, neg: d1 },
                Bdd::Atom { atom: a2, pos: c2, lu: u2, neg: d2 },
            ) => {
                proof {
                    Self::join_size(*c1, *u1);
                    Self::join_size(*d1, *u1);
                    Self::join_size(*c2, *u2);
                    Self::join_size(*d2, *u2);
                }
                match a1.order(a2) {
                    Order::Equal => (Bdd::Atom {
                        atom: a1,
                        pos: &c1.join(*u1).minus(c2.join(*u2)),
                        lu: &Bdd::Bot,
                        neg: &d1.join(*u1).minus(d2.join(*u2)),
                    }).collapse(),
                    Order::Less => (Bdd::Atom {
                        atom: a1,
                        pos: &c1.join(*u1).minus(other),
                        lu: &Bdd::Bot,
                        neg: &d1.join(*u1).minus(other),
                    }).collapse(),
                    Order::Greater => (Bdd::Atom {
                        atom: a2,
                        pos: &self.minus(c2.join(*u2)),
                        lu: &Bdd::Bot,
                        neg: &self.minus(d2.join(*u2)),
                    }).collapse(),
                }
            },
        }
    }

    /// The union of all members, folded from the left; `Bot` when there is
    /// none.
    pub open spec fn join_all(members: Seq<&'a Self>) -> Self
        decreases members.len(),
    {
        if members.len() == 0 {
            Bdd::Bot
        } else {
            Self::join_all(members.drop_last()).join(*members.last())
        }
    }

    /// The intersection of all members, folded from the left; `Top` when
    /// there is none.
    pub open spec fn meet_all(members: Seq<&'a Self>) -> Self
        decreases members.len(),
    {
        if members.len() == 0 {
            Bdd::Top
        } else {
            Self::meet_all(members.drop_last()).meet(*members.last())
        }
    }

    /// The diagram that decides `atom` alone.
    pub fn atom(arena: &'a Bump, atom: &'a T) -> (r: &'a Self)
        ensures
            *r == Self::single(*atom),
            r.ordered(),
            r.reduced(),
    {
        proof {
            Self::single_ordered(*atom);
            Self::single_reduced(*atom);
        }
        let pos = Self::top(arena);
        let lu = Self::bot(arena);
        let neg = Self::bot(arena);
        place(arena, Bdd::Atom { atom, pos, lu, neg })
    }

    /// The complement of `bdd`.
    pub fn not(arena: &'a Bump, bdd: &'a Self) -> (r: &'a Self)
        ensures
            *r == bdd.complement(),
            bdd.ordered() ==> r.ordered(),
            bdd.reduced() ==> r.reduced(),
        decreases bdd,
    {
        proof {
            if bdd.ordered() {
                bdd.complement_ordered();
            }
            if bdd.reduced() {
                bdd.complement_reduced();
            }
        }
        match bdd {
            Bdd::Atom { atom, pos, lu, neg } => {
                let pos = Self::not(arena, pos);
                let neg = Self::not(arena, neg);
                place(arena, Bdd::Atom { atom: *atom, pos, lu: *lu, neg })
            },
            Bdd::Bot => Self::top(arena),
            Bdd::Top => Self::bot(arena),
        }
    }

    /// Whether two diagrams are the same tree over the same atoms.
    pub fn same(&self, other: &Self) -> (r: bool)
        ensures
            r == (*self == *other),
        decreases self,
    {
        match (self, other) {
            (Bdd::Bot, Bdd::Bot) => true,
            (Bdd::Top, Bdd::Top) => true,
            (
                Bdd::Atom { atom: a1, pos: c1, lu: u1, neg: d1 },
                Bdd::Atom { atom: a2, pos: c2, lu: u2, neg: d2 },
            ) => {
                proof {
                    T::order_equal(a1, a2);
                }
                match a1.compare(a2) {
                    Order::Equal => c1.same(c2) && u1.same(u2) && d1.same(d2),
                    _ => false,
                }
            },
            _ => false,
        }
    }

    /// The union of `b1` and `b2`.
    pub fn union(arena: &'a Bump, b1: &'a Self, b2: &'a Self) -> (r: &'a Self)
        ensures
            *r == b1.join(*b2),
            b1.ordered() && b2.ordered() ==> r.ordered(),
        decreases b1, b2,
    {
        proof {
            if b1.ordered() && b2.ordered() {
                b1.join_ordered(*b2);
            }
        }
        match (b1, b2) {
            (Bdd::Top, _) => b1,
            (_, Bdd::Top) => b2,
            (Bdd::Bot, _) => b2,
            (_, Bdd::Bot) => b1,
            (
                Bdd::Atom { atom: a1, pos: c1, lu: u1, neg: d1 },
                Bdd::Atom { atom: a2, pos: c2, lu: u2, neg: d2 },
            ) => match a1.compare(a2) {
                Order::Equal => {
                    let pos = Self::union(arena, c1, c2);
                    let lu = Self::union(arena, u1, u2);
                    let neg = Self::union(arena, d1, d2);
                    place(arena, Bdd::Atom { atom: *a1, pos, lu, neg })
                },
                Order::Less => {
                    let lu = Self::union(arena, u1, b2);
                    place(arena, Bdd::Atom { atom: *a1, pos: *c1, lu, neg: *d1 })
                },
                Order::Greater => {
                    let lu = Self::union(arena, b1, u2);
                    place(arena, Bdd::Atom { atom: *a2, pos: *c2, lu, neg: *d2 })
                },
            },
        }
    }

    /// Collapses a node whose branches agree or whose lazy union is `Top`.
    pub fn simplify_lazy_unions(arena: &'a Bump, bdd: &'a Self) -> (r: &'a Self)
        ensures
            *r == bdd.collapse(),
            bdd.ordered() ==> r.ordered(),
    {
        proof {
            if bdd.ordered() {
                bdd.collapse_ordered();
            }
        }
        match bdd {
            Bdd::Atom { atom, pos, lu, neg } => {
                if pos.same(neg) {
                    Self::union(arena, pos, lu)
                } else {
                    match lu {
                        Bdd::Top => lu,
                        _ => bdd,
                    }
                }
            },
            _ => bdd,
        }
    }

    /// The intersection of `b1` and `b2`.
    pub fn inter(arena: &'a Bump, b1: &'a Self, b2: &'a Self) -> (r: &'a Self)
        ensures
            *r == b1.meet(*b2),
            b1.ordered() && b2.ordered() ==> r.ordered(),
            b1.reduced() && b2.reduced() ==> r.reduced(),
        decreases b1.size() + b2.size(),
    {
        proof {
            if b1.ordered() && b2.ordered() {
                b1.meet_ordered(*b2);
            }
            if b1.reduced() && b2.reduced() {
                b1.meet_reduced(*b2);
            }
        }
        match (b1, b2) {
            (Bdd::Bot, _) => b1,
            (_, Bdd::Bot) => b2,
            (Bdd::Top, _) => b2,
            (_, Bdd::Top) => b1,
            (
                Bdd::Atom { atom: a1, pos: c1, lu: u1, neg: d1 },
                Bdd::Atom { atom: a2, pos: c2, lu: u2, neg: d2 },
            ) => {
                proof {
                    Self::join_size(**c1, **u1);
                    Self::join_size(**d1, **u1);
                    Self::join_size(**c2, **u2);
                    Self::join_size(**d2, **u2);
                }
                let lu = Self::bot(arena);
                let node = match a1.compare(a2) {
                    Order::Equal => {
                        let pos = Self::inter(
                            arena,
                            Self::union(arena, c1, u1),
                            Self::union(arena, c2, u2),
                        );
                        let neg = Self::inter(
                            arena,
                            Self::union(arena, d1, u1),
                            Self::union(arena, d2, u2),
                        );
                        place(arena, Bdd::Atom { atom: *a1, pos, lu, neg })
                    },
                    Order::Less => {
                        let pos = Self::inter(arena, Self::union(arena, c1, u1), b2);
                        let neg = Self::inter(arena, Self::union(arena, d1, u1), b2);
                        place(arena, Bdd::Atom { atom: *a1, pos, lu, neg })
                    },
                    Order::Greater => {
                        let pos = Self::inter(arena, b1, Self::union(arena, c2, u2));
                        let neg = Self::inter(arena, b1, Self::union(arena, d2, u2));
                        place(arena, Bdd::Atom { atom: *a2, pos, lu, neg })
                    },
                };
                Self::simplify_lazy_unions(arena, node)
            },
        }
    }

    /// What is left of `b1` when `b2` is taken away.
    pub fn diff(arena: &'a Bump, b1: &'a Self, b2: &'a Self) -> (r: &'a Self)
        ensures
            *r == b1.minus(*b2),
            b1.ordered() && b2.ordered() ==> r.ordered(),
            b1.reduced() && b2.reduced() ==> r.reduced(),
        decreases b1.size() + b2.size(),
    {
        proof {
            if b1.ordered() && b2.ordered() {
                b1.minus_ordered(*b2);
            }
            if b1.reduced() && b2.reduced() {
                b1.minus_reduced(*b2);
            }
        }
        match (b1, b2) {
            (_, Bdd::Top) => Self::bot(arena),
            (Bdd::Bot, _) => b1,
            (_, Bdd::Bot) => b1,
            (Bdd::Top, Bdd::Atom { atom, pos, lu, neg }) => {
                let pos = Self::diff(arena, b1, pos);
                let neg = Self::diff(arena, b1, neg);
                place(arena, Bdd::Atom { atom: *atom, pos, lu: *lu, neg })
            },
            (
                Bdd::Atom { atom: a1, pos: c1, lu: u1, neg: d1 },
                Bdd::Atom { atom: a2, pos: c2, lu: u2, neg: d2 },
            ) => {
                proof {
                    Self::join_size(**c1, **u1);
                    Self::join_size(**d1, **u1);
                    Self::join_size(**c2, **u2);
                    Self::join_size(**d2, **u2);
                }
                let lu = Self::bot(arena);
                let node = match a1.compare(a2) {
                    Order::Equal => {
                        let pos = Self::diff(
                            arena,
                            Self::union(arena, c1, u1),
                            Self::union(arena, c2, u2),
                        );
                        let neg = Self::diff(
                            arena,
                            Self::union(arena, d1, u1),
                            Self::union(arena, d2, u2),
                        );
                        place(arena, Bdd::Atom { atom: *a1, pos, lu, neg })
                    },
                    Order::Less => {
                        let pos = Self::diff(arena, Self::union(arena, c1, u1), b2);
                        let neg = Self::diff(arena, Self::union(arena, d1, u1), b2);
                        place(arena, Bdd::Atom { atom: *a1, pos, lu, neg })
                    },
                    Order::Greater => {
                        let pos = Self::diff(arena, b1, Self::union(arena, c2, u2));
                        let neg = Self::diff(arena, b1, Self::union(arena, d2, u2));
                        place(arena, Bdd::Atom { atom: *a2, pos, lu, neg })
                    },
                };
                Self::simplify_lazy_unions(arena, node)
            },
        }
    }
}

} // verus!
