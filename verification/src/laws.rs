use crate::behavior::Behavior;
use vstd::prelude::*;

verus! {

// `Fun::and_then` returns a wrapper whose view is `compose` of its operands' views,
// and `id` one whose view is `identity()`: what is proved here of behaviours holds
// of the wrappers built by those functions.

/// Composing with the identity, on either side, changes nothing: the composed
/// behaviour accepts the same arguments as `f` and returns the same results.
pub proof fn identity_is_neutral<A, B>(f: Behavior<A, B>)
    ensures
        Behavior::<A, A>::identity().compose(f) == f,
        f.compose(Behavior::<B, B>::identity()) == f,
{
    let left = Behavior::<A, A>::identity().compose(f);
    let right = f.compose(Behavior::<B, B>::identity());
    assert forall|x: A| #[trigger] (left.domain)(x) == (f.domain)(x) by {
        assert(Behavior::<A, A>::identity().yields(x, x));
    }
    assert forall|x: A, z: B| #[trigger] (left.outcome)(x, z) == (f.outcome)(x, z) by {
        assert(Behavior::<A, A>::identity().yields(x, x));
    }
    assert forall|x: A, z: B| #[trigger] (right.outcome)(x, z) == (f.outcome)(x, z) by {
        let i = Behavior::<B, B>::identity();
        if f.yields(x, z) {
            assert(i.yields(z, z));
        }
        if right.yields(x, z) {
            let y = choose|y: B| #[trigger] f.yields(x, y) && i.yields(y, z);
            assert(y == z);
        }
    }
    assert(left =~= f);
    assert(right =~= f);
}

/// Composition is associative: grouping three behaviours to the left or to the
/// right gives the same behaviour.
pub proof fn composition_is_associative<A, B, C, D>(
    f: Behavior<A, B>,
    g: Behavior<B, C>,
    h: Behavior<C, D>,
)
    ensures
        f.compose(g).compose(h) == f.compose(g.compose(h)),
{
    let fg = f.compose(g);
    let gh = g.compose(h);
    let left = fg.compose(h);
    let right = f.compose(gh);
    assert forall|x: A| #[trigger] (left.domain)(x) == (right.domain)(x) by {
        if left.accepts(x) {
            assert forall|y: B| f.yields(x, y) implies gh.accepts(y) by {
                assert forall|z: C| g.yields(y, z) implies h.accepts(z) by {
                    assert(fg.yields(x, z));
                }
            }
        }
        if right.accepts(x) {
            assert forall|y: B| f.yields(x, y) implies g.accepts(y) by {
                assert(gh.accepts(y));
            }
            assert forall|z: C| fg.yields(x, z) implies h.accepts(z) by {
                let y = choose|y: B| f.yields(x, y) && g.yields(y, z);
                assert(gh.accepts(y));
            }
        }
    }
    assert forall|x: A, w: D| #[trigger] (left.outcome)(x, w) == (right.outcome)(x, w) by {
        if left.yields(x, w) {
            let z = choose|z: C| fg.yields(x, z) && h.yields(z, w);
            let y = choose|y: B| f.yields(x, y) && g.yields(y, z);
            assert(gh.yields(y, w));
        }
        if right.yields(x, w) {
            let y = choose|y: B| f.yields(x, y) && gh.yields(y, w);
            let z = choose|z: C| g.yields(y, z) && h.yields(z, w);
            assert(fg.yields(x, z));
        }
    }
    assert(left =~= right);
}

/// A composition applies its parts in sequence. It may be invoked on `x` when
/// `f` may and `g` may be invoked on whatever `f` returns for `x`; it can return
/// `z` exactly when `g` can return `z` for something that `f` can return for
/// `x`. In particular, where `f` returns `y` for `x` and `g` returns `z` for `y`,
/// the composition returns `z` for `x`.
pub proof fn composition_applies_in_sequence<A, B, C>(
    f: Behavior<A, B>,
    g: Behavior<B, C>,
    x: A,
    y: B,
    z: C,
)
    ensures
        f.compose(g).accepts(x) <==> (f.accepts(x) && forall|m: B|
            f.yields(x, m) ==> g.accepts(m)),
        f.compose(g).yields(x, z) <==> (exists|m: B| f.yields(x, m) && g.yields(m, z)),
        f.gives(x, y) && g.gives(y, z) ==> f.compose(g).gives(x, z),
{
}

/// The identity may be invoked on every argument and returns it.
pub proof fn identity_returns_its_argument<A>(x: A)
    ensures
        Behavior::<A, A>::identity().total(),
        Behavior::<A, A>::identity().gives(x, x),
{
}

} // verus!
