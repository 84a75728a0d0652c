//! The renderer abstraction.
//!
//! A renderer is configured once, consumes shapes one at a time in drawing
//! order, and is finalized exactly once: finalizing takes the renderer by
//! value, so no shape can be rendered afterwards. Its contract pins the
//! output down as a function of the configuration and of the shapes seen,
//! which makes rendering deterministic for every backend.

use crate::canvas::VectorCanvas;
use crate::shape::Shape;
use vstd::prelude::*;

verus! {

/// A backend that turns a stream of shapes into an output value.
pub trait Renderer: Sized {
    /// What finalizing yields: a string for SVG, a pixel grid for raster.
    type Output: View;

    /// The renderer's internal consistency; constructors establish it and
    /// `render` preserves it.
    spec fn wf(&self) -> bool;

    /// The shapes consumed so far, in order.
    spec fn seen(&self) -> Seq<Shape>;

    /// The output the renderer would produce after consuming exactly
    /// `shapes`; a function of the configuration alone, never of `seen`.
    spec fn output_model(&self, shapes: Seq<Shape>) -> <Self::Output as View>::V;

    /// Consumes one shape.
    fn render(&mut self, shape: &Shape)
        requires
            old(self).wf(),
        ensures
            final(self).wf(),
            final(self).seen() == old(self).seen().push(*shape),
            forall|s: Seq<Shape>|
                #[trigger] final(self).output_model(s) == old(self).output_model(s);

    /// Produces the output; consuming `self` makes finalization terminal.
    fn finalize(self) -> (out: Self::Output)
        requires
            self.wf(),
        ensures
            out@ == self.output_model(self.seen()),
    ;
}

impl VectorCanvas {
    /// Feeds every shape of the canvas, in drawing order, to the renderer
    /// and finalizes it. The canvas is not changed and can be rendered
    /// again, to this backend or another.
    pub fn render<R: Renderer>(&self, r: R) -> (out: R::Output)
        requires
            r.wf(),
        ensures
            out@ == r.output_model(r.seen() + self@),
    {
        let ghost r0 = r;
        let mut cur = r;
        let mut i: usize = 0;
        let n: usize = self.len();
        while i < n
            invariant
                i <= n,
                n == self@.len(),
                cur.wf(),
                cur.seen() == r0.seen() + self@.take(i as int),
                forall|s: Seq<Shape>|
                    #[trigger] cur.output_model(s) == r0.output_model(s),
            decreases n - i,
        {
            cur.render(self.get(i));
            proof {
                assert(r0.seen() + self@.take(i as int + 1) =~= (r0.seen() + self@.take(
                    i as int,
                )).push(self@[i as int]));
            }
            i = i + 1;
        }
        proof {
            assert(self@.take(n as int) =~= self@);
        }
        cur.finalize()
    }
}

} // verus!
