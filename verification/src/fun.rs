use crate::behavior::Behavior;
use vstd::prelude::*;

verus! {

/// A computation that a wrapper can own without naming its concrete type.
trait Step<A, B> {
    spec fn behavior(&self) -> Behavior<A, B>;

    fn apply(&self, x: A) -> (y: B)
        requires
            self.behavior().accepts(x),
        ensures
            self.behavior().yields(x, y),
    ;
}

/// A function value taken as it is.
struct Plain<F> {
    f: F,
}

impl<A, B, F: Fn(A) -> B> Step<A, B> for Plain<F> {
    spec fn behavior(&self) -> Behavior<A, B> {
        Behavior::of(self.f)
    }

    fn apply(&self, x: A) -> (y: B) {
        (self.f)(x)
    }
}

/// Hands its argument back.
struct Same;

impl<A> Step<A, A> for Same {
    spec fn behavior(&self) -> Behavior<A, A> {
        Behavior::identity()
    }

    fn apply(&self, x: A) -> (y: A) {
        x
    }
}

/// Two wrappers in sequence.
#[verifier::reject_recursive_types(A)]
#[verifier::reject_recursive_types(B)]
#[verifier::reject_recursive_types(C)]
struct Chain<A, B, C> {
    first: Fun<A, B>,
    second: Fun<B, C>,
}

impl<A, B, C> Step<A, C> for Chain<A, B, C> {
    spec fn behavior(&self) -> Behavior<A, C> {
        self.first@.compose(self.second@)
    }

    fn apply(&self, x: A) -> (z: C) {
        let y = self.first.0.apply(x);
        self.second.0.apply(y)
    }
}

/// An owned, type-erased computation from `A` to `B` that is used once: invoking
/// it or composing it takes it by value, and it can be neither copied nor cloned.
///
/// Its view is the [`Behavior`] of the computation it owns, which never changes.
#[verifier::reject_recursive_types(A)]
#[verifier::reject_recursive_types(B)]
pub struct Fun<A, B>(Box<dyn Step<A, B>>);

impl<A, B> View for Fun<A, B> {
    type V = Behavior<A, B>;

    closed spec fn view(&self) -> Behavior<A, B> {
        self.0.behavior()
    }
}

impl<A, B> Fun<A, B> {
    /// Wraps a function value. The wrapper behaves exactly as `f` does.
    pub fn new<F>(f: F) -> (r: Self) where F: 'static + Fn(A) -> B
        ensures
            r@ == Behavior::<A, B>::of(f),
    {
        Fun(Box::new(Plain { f }))
    }

    /// Invokes the wrapped computation on `arg` and returns what it returned.
    ///
    /// The computation's own precondition is the caller's concern: a computation
    /// that has none accepts every argument.
    pub fn call(self, arg: A) -> (r: B)
        requires
            self@.accepts(arg),
        ensures
            self@.yields(arg, r),
    {
        self.0.apply(arg)
    }

    /// Builds the wrapper that applies `self` and hands the result to `g`.
    ///
    /// Nothing is demanded of either computation here, so neither can run before
    /// the new wrapper is invoked.
    pub fn and_then<C>(self, g: Fun<B, C>) -> (r: Fun<A, C>) where A: 'static, B: 'static, C: 'static
        ensures
            r@ == self@.compose(g@),
    {
        Fun(Box::new(Chain { first: self, second: g }))
    }
}

/// The wrapper that returns its argument unchanged: the neutral element of
/// [`Fun::and_then`].
pub fn id<A>() -> (r: Fun<A, A>)
    ensures
        r@ == Behavior::<A, A>::identity(),
{
    Fun(Box::new(Same))
}

} // verus!
