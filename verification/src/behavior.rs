use vstd::prelude::*;

verus! {

/// What a one-argument computation from `A` to `B` does, as far as a caller can
/// tell: on which arguments it may be invoked, and which results an invocation
/// may hand back.
#[verifier::ext_equal]
#[verifier::reject_recursive_types(A)]
#[verifier::reject_recursive_types(B)]
pub struct Behavior<A, B> {
    /// The arguments on which the computation may be invoked.
    pub domain: spec_fn(A) -> bool,
    /// The pairs of an argument and a result that an invocation may produce.
    pub outcome: spec_fn(A, B) -> bool,
}

impl<A, B> Behavior<A, B> {
    /// The computation may be invoked on `x`.
    pub open spec fn accepts(self, x: A) -> bool {
        (self.domain)(x)
    }

    /// Invoked on `x`, the computation may return `y`.
    pub open spec fn yields(self, x: A, y: B) -> bool {
        (self.outcome)(x, y)
    }

    /// The computation may be invoked on `x`, and whatever it returns is `y`.
    pub open spec fn gives(self, x: A, y: B) -> bool {
        self.accepts(x) && forall|r: B| #[trigger] self.yields(x, r) ==> r == y
    }

    /// The computation may be invoked on every argument.
    pub open spec fn total(self) -> bool {
        forall|x: A| #[trigger] self.accepts(x)
    }

    /// The behaviour of an executable function value: its precondition and its
    /// postcondition.
    pub open spec fn of<F: Fn(A) -> B>(f: F) -> Self {
        Behavior {
            domain: |x: A| call_requires(f, (x,)),
            outcome: |x: A, y: B| call_ensures(f, (x,), y),
        }
    }

    /// Sequential application: `self` first, `next` on what `self` returned.
    ///
    /// The sequence may be invoked on `x` when `self` may and `next` may be
    /// invoked on everything `self` can return for `x`.
    pub open spec fn compose<C>(self, next: Behavior<B, C>) -> Behavior<A, C> {
        Behavior {
            domain: |x: A|
                self.accepts(x) && forall|y: B| #[trigger] self.yields(x, y) ==> next.accepts(y),
            outcome: |x: A, z: C| exists|y: B| #[trigger] self.yields(x, y) && next.yields(y, z),
        }
    }
}

impl<A> Behavior<A, A> {
    /// The behaviour that accepts every argument and returns it unchanged.
    pub open spec fn identity() -> Self {
        Behavior { domain: |x: A| true, outcome: |x: A, y: A| y == x }
    }
}

} // verus!
