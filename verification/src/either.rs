//! A renderable value of one of two types.

use vstd::prelude::*;

use crate::render::Renderable;
use crate::sink::RenderError;
use crate::sink::Sink;

verus! {

/// An enum that represents values of two different types; it renders as
/// whichever value it holds.
#[derive(Debug)]
pub enum Either<L, R> {
    /// The left value.
    Left(L),
    /// The right value.
    Right(R),
}

impl<L, R> Either<L, R> {
    /// Creates a new `Either` with a left value.
    pub fn new_left(a: L) -> (e: Self)
        ensures
            e == Either::<L, R>::Left(a),
    {
        Either::Left(a)
    }

    /// Creates a new `Either` with a right value.
    pub fn new_right(b: R) -> (e: Self)
        ensures
            e == Either::<L, R>::Right(b),
    {
        Either::Right(b)
    }
}

impl<L: Renderable, R: Renderable> Renderable for Either<L, R> {
    open spec fn wf(&self) -> bool {
        match self {
            Either::Left(left) => left.wf(),
            Either::Right(right) => right.wf(),
        }
    }

    open spec fn text(&self) -> Seq<char> {
        match self {
            Either::Left(left) => left.text(),
            Either::Right(right) => right.text(),
        }
    }

    proof fn text_bounded(&self) {
        match self {
            Either::Left(left) => left.text_bounded(),
            Either::Right(right) => right.text_bounded(),
        }
    }

    fn render(&self, sink: &mut Sink) -> (r: Result<(), RenderError>) {
        match self {
            Either::Left(left) => left.render(sink),
            Either::Right(right) => right.render(sink),
        }
    }
}

} // verus!
