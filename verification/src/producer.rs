//! Producers of renderable values: a fresh renderer per call, obtained
//! from a closure, a copy or a clone, so the same content can be
//! rendered repeatedly.

use core::marker::PhantomData;

use vstd::prelude::*;

use crate::render::Renderable;

verus! {

/// A source of renderable values: each call to `display` hands out a
/// fresh renderer.
pub trait DisplayProducer {
    /// The renderer handed out.
    type DisplayAdapter: Renderable;

    /// The producer's invariant: what must hold for `display` to be
    /// callable.
    spec fn wf(&self) -> bool;

    /// Produces a fresh renderer.
    fn display(&self) -> Self::DisplayAdapter
        requires
            self.wf(),
    ;
}

impl<T: Renderable, F: Fn() -> T> DisplayProducer for F {
    type DisplayAdapter = T;

    open spec fn wf(&self) -> bool {
        call_requires(*self, ())
    }

    fn display(&self) -> (r: T)
        ensures
            call_ensures(*self, (), r),
    {
        self()
    }
}

/// Produces renderers by calling a stored closure.
pub struct FnProducer<F, T>(F, PhantomData<T>);

impl<F: Fn() -> T, T: Renderable> FnProducer<F, T> {
    /// The stored closure.
    pub closed spec fn func(&self) -> F {
        self.0
    }

    /// Wraps the given closure.
    pub fn new(f: F) -> (p: Self)
        requires
            call_requires(f, ()),
        ensures
            p.wf(),
            p.func() == f,
    {
        Self(f, PhantomData)
    }
}

impl<F: Fn() -> T, T: Renderable> DisplayProducer for FnProducer<F, T> {
    type DisplayAdapter = T;

    open spec fn wf(&self) -> bool {
        call_requires(self.func(), ())
    }

    fn display(&self) -> (r: T)
        ensures
            call_ensures(self.func(), (), r),
    {
        (self.0)()
    }
}

/// Produces renderers by copying a stored value.
pub struct CopyProducer<T>(T);

impl<T: Copy + Renderable> CopyProducer<T> {
    /// The stored value.
    pub closed spec fn item(&self) -> T {
        self.0
    }

    /// Wraps the given value.
    pub fn new(t: T) -> (p: Self)
        requires
            t.wf(),
        ensures
            p.wf(),
            p.item() == t,
    {
        Self(t)
    }
}

impl<T: Copy + Renderable> DisplayProducer for CopyProducer<T> {
    type DisplayAdapter = T;

    open spec fn wf(&self) -> bool {
        self.item().wf()
    }

    fn display(&self) -> (r: T)
        ensures
            r == self.item(),
    {
        self.0
    }
}

/// Produces renderers by cloning a stored value.
pub struct CloneProducer<T>(T);

impl<T: Clone + Renderable> CloneProducer<T> {
    /// The stored value.
    pub closed spec fn item(&self) -> T {
        self.0
    }

    /// Wraps the given value.
    pub fn new(t: T) -> (p: Self)
        requires
            t.wf(),
        ensures
            p.wf(),
            p.item() == t,
    {
        Self(t)
    }
}

impl<T: Clone + Renderable> DisplayProducer for CloneProducer<T> {
    type DisplayAdapter = T;

    open spec fn wf(&self) -> bool {
        self.item().wf()
    }

    fn display(&self) -> (r: T) {
        self.0.clone()
    }
}

} // verus!
