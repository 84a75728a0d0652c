//! The sketcher abstraction: an algorithm that runs to completion and
//! yields a canvas, reporting progress through a caller-supplied callback.
//!
//! The callback is invoked before each outer iteration with the work done
//! so far and the total; callers may update a display from it. The strong
//! contracts live on each sketcher's own `run`: the trait promises only
//! that running keeps the sketcher ready.

use crate::canvas::copy_canvas;
use crate::celestial::CelestialSketcher;
use crate::halftone::HalftoneSketcher;
use crate::omni::OmniCanvas;
use crate::preslav::PreslavSketcher;
use crate::shape::{shape_like, Shape};
use crate::wave::WaveSketcher;
use vstd::prelude::*;

verus! {

/// An algorithm producing a canvas, with cooperative progress reporting.
pub trait Sketcher<F: Fn(usize, usize)>: Sized {
    /// Whether the sketcher can run.
    spec fn ready(&self) -> bool;

    /// The shapes the sketcher's canvas holds.
    spec fn produced(&self) -> Seq<Shape>;

    /// Runs to completion and yields the sketcher's own canvas, shape for
    /// shape; `before_iter` is called before outer iterations with the
    /// progress so far and the total.
    fn run(&mut self, before_iter: &F) -> (out: OmniCanvas)
        requires
            old(self).ready(),
            forall|i: usize, n: usize| before_iter.requires((i, n)),
        ensures
            final(self).ready(),
            (out matches OmniCanvas::Vector { inner } && inner@.len()
                == final(self).produced().len() && (forall|i: int|
                0 <= i < inner@.len() ==> shape_like(
                    #[trigger] inner@[i],
                    final(self).produced()[i],
                ))),
    ;

    /// Runs to completion and consumes the sketcher; the output is the
    /// vector canvas the run drew.
    fn run_and_dispose(self, before_iter: &F) -> (out: OmniCanvas)
        requires
            self.ready(),
            forall|i: usize, n: usize| before_iter.requires((i, n)),
        ensures
            out matches OmniCanvas::Vector { inner },
    ;
}

impl<F: Fn(usize, usize)> Sketcher<F> for CelestialSketcher {
    open spec fn ready(&self) -> bool {
        self.wf()
    }

    open spec fn produced(&self) -> Seq<Shape> {
        self.canvas@
    }

    fn run(&mut self, before_iter: &F) -> (out: OmniCanvas) {
        let total: usize = self.steps;
        let mut k: usize = 0;
        while k < total
            invariant
                k <= total,
                total == self.steps,
                self.wf(),
                forall|i: usize, n: usize| before_iter.requires((i, n)),
            decreases total - k,
        {
            before_iter(k, total);
            self.step();
            k = k + 1;
        }
        self.render();
        OmniCanvas::Vector { inner: copy_canvas(&self.canvas) }
    }

    fn run_and_dispose(self, before_iter: &F) -> (out: OmniCanvas) {
        let mut me = self;
        let c: OmniCanvas = Sketcher::<F>::run(&mut me, before_iter);
        c
    }
}

impl<F: Fn(usize, usize)> Sketcher<F> for PreslavSketcher {
    open spec fn ready(&self) -> bool {
        self.wf()
    }

    open spec fn produced(&self) -> Seq<Shape> {
        self.canvas@
    }

    fn run(&mut self, before_iter: &F) -> (out: OmniCanvas) {
        let total: usize = self.settings.shapes;
        let mut k: usize = 0;
        while k < total
            invariant
                k <= total,
                total == self.settings.shapes,
                self.wf(),
                forall|i: usize, n: usize| before_iter.requires((i, n)),
            decreases total - k,
        {
            before_iter(k, total);
            self.draw_shape();
            k = k + 1;
        }
        OmniCanvas::Vector { inner: copy_canvas(&self.canvas) }
    }

    fn run_and_dispose(self, before_iter: &F) -> (out: OmniCanvas) {
        let mut me = self;
        let c: OmniCanvas = Sketcher::<F>::run(&mut me, before_iter);
        c
    }
}

impl<F: Fn(usize, usize)> Sketcher<F> for HalftoneSketcher {
    open spec fn ready(&self) -> bool {
        self.wf()
    }

    open spec fn produced(&self) -> Seq<Shape> {
        self.canvas@
    }

    fn run(&mut self, before_iter: &F) -> (out: OmniCanvas) {
        self.run_with_progress(before_iter);
        OmniCanvas::Vector { inner: copy_canvas(&self.canvas) }
    }

    fn run_and_dispose(self, before_iter: &F) -> (out: OmniCanvas) {
        let mut me = self;
        let c: OmniCanvas = Sketcher::<F>::run(&mut me, before_iter);
        c
    }
}

impl<F: Fn(usize, usize)> Sketcher<F> for WaveSketcher {
    open spec fn ready(&self) -> bool {
        self.wf()
    }

    open spec fn produced(&self) -> Seq<Shape> {
        self.canvas@
    }

    fn run(&mut self, before_iter: &F) -> (out: OmniCanvas) {
        self.run_with_progress(before_iter);
        OmniCanvas::Vector { inner: copy_canvas(&self.canvas) }
    }

    fn run_and_dispose(self, before_iter: &F) -> (out: OmniCanvas) {
        let mut me = self;
        let c: OmniCanvas = Sketcher::<F>::run(&mut me, before_iter);
        c
    }
}

} // verus!
