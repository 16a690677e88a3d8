//! The environment-aware container and its core operations.
//!
//! A `CoMonad<T, V>` pairs a value with the environment it is computed in,
//! so ambient context is threaded explicitly instead of read from shared
//! mutable state. The operations never mutate a container in place: each
//! one builds a new container, and the environment rides along unchanged.

use vstd::prelude::*;

verus! {

/// A value of type `T` paired with an environment of type `V`.
#[derive(Debug)]
pub struct CoMonad<T: Clone, V: Clone> {
    pub value: T,
    pub env: V,
}

impl<T: Clone, V: Clone> Clone for CoMonad<T, V> {
    /// Clones both fields; each field of the result is a possible clone of
    /// the corresponding field of the input.
    fn clone(&self) -> (r: Self)
        ensures
            cloned(self.value, r.value),
            cloned(self.env, r.env),
    {
        CoMonad { value: self.value.clone(), env: self.env.clone() }
    }
}

/// The value a container holds, with its environment discarded.
pub open spec fn spec_extract<T: Clone, V: Clone>(c: CoMonad<T, V>) -> T {
    c.value
}

/// The container whose value is `f` of the input's value and whose
/// environment is the input's, unchanged.
pub open spec fn spec_fmap<T: Clone, V: Clone, O: Clone>(
    c: CoMonad<T, V>,
    f: spec_fn(T) -> O,
) -> CoMonad<O, V> {
    CoMonad { value: f(c.value), env: c.env }
}

/// The container that holds the whole input container as its value, under
/// the same environment: context replication.
pub open spec fn spec_duplicate<T: Clone, V: Clone>(c: CoMonad<T, V>) -> CoMonad<
    CoMonad<T, V>,
    V,
> {
    CoMonad { value: c, env: c.env }
}

/// Mapping `f` over the duplicated container: `f` sees the full container
/// (value and environment) and its result becomes the new value, with the
/// environment preserved.
pub open spec fn spec_extend<T: Clone, V: Clone, O: Clone>(
    c: CoMonad<T, V>,
    f: spec_fn(CoMonad<T, V>) -> O,
) -> CoMonad<O, V> {
    spec_fmap(spec_duplicate(c), f)
}

/// Returns a copy of the container's value.
pub fn extract<T: Clone, V: Clone>(input: &CoMonad<T, V>) -> (r: T)
    ensures
        cloned(input.value, r),
{
    input.value.clone()
}

/// Applies `func` to the value and keeps the environment unchanged.
pub fn fmap<T: Clone, V: Clone, O: Clone, F: Fn(T) -> O>(input: CoMonad<T, V>, func: F) -> (r:
    CoMonad<O, V>)
    requires
        call_requires(func, (input.value,)),
    ensures
        call_ensures(func, (input.value,), r.value),
        r.env == input.env,
{
    let CoMonad { value, env } = input;
    CoMonad { value: func(value), env }
}

/// Wraps the whole input container as the new value; the outer environment
/// is a clone of the input's.
pub fn duplicate<T: Clone, V: Clone>(input: CoMonad<T, V>) -> (r: CoMonad<CoMonad<T, V>, V>)
    ensures
        r.value == input,
        cloned(input.env, r.env),
{
    let env = input.env.clone();
    CoMonad { value: input, env }
}

/// Hands the full container to `func` and wraps the result back under a
/// clone of the input's environment: `fmap` over `duplicate`.
pub fn extend<T: Clone, V: Clone, O: Clone, F: Fn(CoMonad<T, V>) -> O>(
    input: CoMonad<T, V>,
    func: F,
) -> (r: CoMonad<O, V>)
    requires
        call_requires(func, (input,)),
    ensures
        call_ensures(func, (input,), r.value),
        cloned(input.env, r.env),
{
    fmap(duplicate(input), func)
}

impl<T: Clone, V: Clone> CoMonad<T, V> {
    /// Returns a copy of the container's value.
    pub fn extract(&self) -> (r: T)
        ensures
            cloned(self.value, r),
    {
        self.value.clone()
    }

    /// Applies `func` to a copy of the value and keeps a copy of the
    /// environment. `func` must accept any clone of the value.
    pub fn fmap<O: Clone, F: Fn(T) -> O>(&self, func: F) -> (r: CoMonad<O, V>)
        requires
            forall|t: T| cloned(self.value, t) ==> #[trigger] call_requires(func, (t,)),
        ensures
            exists|t: T| cloned(self.value, t) && #[trigger] call_ensures(func, (t,), r.value),
            cloned(self.env, r.env),
    {
        let t = self.extract();
        let ghost t0 = t;
        let r = CoMonad { value: func(t), env: self.env.clone() };
        proof {
            assert(cloned(self.value, t0) && call_ensures(func, (t0,), r.value));
        }
        r
    }

    /// Wraps a clone of the whole container as the new value, under a copy
    /// of the environment.
    pub fn duplicate(&self) -> (r: CoMonad<CoMonad<T, V>, V>)
        ensures
            cloned(self.value, r.value.value),
            cloned(self.env, r.value.env),
            cloned(self.env, r.env),
    {
        CoMonad { value: self.clone(), env: self.env.clone() }
    }

    /// Hands a clone of the full container to `func` — which may re-extract
    /// the value or inspect the environment — and wraps its result under a
    /// copy of the environment. `func` must accept any clone of the
    /// container.
    pub fn extend<O: Clone, F: Fn(CoMonad<T, V>) -> O>(&self, func: F) -> (r: CoMonad<O, V>)
        requires
            forall|d: CoMonad<T, V>|
                cloned(self.value, d.value) && cloned(self.env, d.env)
                    ==> #[trigger] call_requires(func, (d,)),
        ensures
            exists|d: CoMonad<T, V>|
                cloned(self.value, d.value) && cloned(self.env, d.env) && #[trigger] call_ensures(
                    func,
                    (d,),
                    r.value,
                ),
            cloned(self.env, r.env),
    {
        let d = self.clone();
        let ghost d0 = d;
        let env = self.env.clone();
        let r = CoMonad { value: func(d), env };
        proof {
            assert(cloned(self.value, d0.value) && cloned(self.env, d0.env) && call_ensures(
                func,
                (d0,),
                r.value,
            ));
        }
        r
    }
}

/// Functor identity: mapping the identity function over a container yields
/// a container with the same value and the same environment.
pub proof fn lemma_fmap_identity<T: Clone, V: Clone>(c: CoMonad<T, V>)
    ensures
        spec_fmap(c, |x: T| x) == c,
{
}

/// Functor composition: mapping `f` and then `g` is mapping their
/// composition.
pub proof fn lemma_fmap_compose<T: Clone, V: Clone, O: Clone, P: Clone>(
    c: CoMonad<T, V>,
    f: spec_fn(T) -> O,
    g: spec_fn(O) -> P,
)
    ensures
        spec_fmap(spec_fmap(c, f), g) == spec_fmap(c, |x: T| g(f(x))),
{
}

/// Comonad right identity: extending a container with `spec_extract`
/// rebuilds the container, value and environment alike.
pub proof fn lemma_extend_extract<T: Clone, V: Clone>(c: CoMonad<T, V>)
    ensures
        spec_extend(c, |d: CoMonad<T, V>| spec_extract(d)) == c,
{
}

/// Comonad left identity: extracting from an extended container evaluates
/// `f` on the original container, exactly once.
pub proof fn lemma_extract_extend<T: Clone, V: Clone, O: Clone>(
    c: CoMonad<T, V>,
    f: spec_fn(CoMonad<T, V>) -> O,
)
    ensures
        spec_extract(spec_extend(c, f)) == f(c),
{
}

/// Comonad associativity: extending twice equals one extension with the
/// inner extension folded into the function.
pub proof fn lemma_extend_assoc<T: Clone, V: Clone, O: Clone, P: Clone>(
    c: CoMonad<T, V>,
    f: spec_fn(CoMonad<T, V>) -> O,
    g: spec_fn(CoMonad<O, V>) -> P,
)
    ensures
        spec_extend(spec_extend(c, f), g) == spec_extend(
            c,
            |d: CoMonad<T, V>| g(spec_extend(d, f)),
        ),
{
}

} // verus!
