//! The capability every decision variable must bring: a total order that
//! agrees with equality.

use vstd::prelude::*;

verus! {

/// Where one value stands relative to another under a total order.
#[derive(Clone, Copy, Debug, PartialEq, Eq)]
pub enum Order {
    Less,
    Equal,
    Greater,
}

impl Order {
    /// The outcome of the same comparison with its operands exchanged.
    pub open spec fn flip(self) -> Order {
        match self {
            Order::Less => Order::Greater,
            Order::Equal => Order::Equal,
            Order::Greater => Order::Less,
        }
    }

    /// Lexicographic combination: `self` decides unless it is `Equal`.
    pub open spec fn lex(self, next: Order) -> Order {
        if self is Equal {
            next
        } else {
            self
        }
    }
}

/// A strict total order whose `Equal` coincides with equality of values.
///
/// The three laws make `order` a total order: it answers `Equal` exactly on
/// equal values, exchanging the operands flips the answer, and `Less` is
/// transitive. `compare` is the executable form of `order`.
pub trait TotalOrder: Sized + core::fmt::Debug {
    /// Where `self` stands relative to `other`.
    spec fn order(&self, other: &Self) -> Order;

    /// `Equal` is equality.
    proof fn order_equal(a: &Self, b: &Self)
        ensures
            (a.order(b) is Equal) <==> a == b,
    ;

    /// Exchanging the operands flips the answer.
    proof fn order_flip(a: &Self, b: &Self)
        ensures
            b.order(a) == a.order(b).flip(),
    ;

    /// `Less` is transitive.
    proof fn order_chain(a: &Self, b: &Self, c: &Self)
        requires
            a.order(b) is Less,
            b.order(c) is Less,
        ensures
            a.order(c) is Less,
    ;

    /// Computes `order`.
    fn compare(&self, other: &Self) -> (o: Order)
        ensures
            o == self.order(other),
    ;
}

/// A value that may label a decision node of a diagram.
pub trait TyAtom: TotalOrder {

}

impl TotalOrder for u64 {
    open spec fn order(&self, other: &Self) -> Order {
        if *self < *other {
            Order::Less
        } else if *self == *other {
            Order::Equal
        } else {
            Order::Greater
        }
    }

    proof fn order_equal(a: &Self, b: &Self) {
    }

    proof fn order_flip(a: &Self, b: &Self) {
    }

    proof fn order_chain(a: &Self, b: &Self, c: &Self) {
    }

    fn compare(&self, other: &Self) -> (o: Order) {
        if *self < *other {
            Order::Less
        } else if *self == *other {
            Order::Equal
        } else {
            Order::Greater
        }
    }
}

impl TyAtom for u64 {

}

} // verus!
