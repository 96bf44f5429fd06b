//! Bookkeeping of an adaptive base optimizer's reduced state: the shared
//! time step used for bias correction, and the shape of each slot's moment
//! accumulators, which are allocated on the first update once the shapes
//! are known.
use vstd::prelude::*;
use crate::error::GaLoreError;
use crate::shape::{Shape, copy_shapes, find_mismatch, first_mismatch, lemma_no_mismatch};

verus! {

/// The time step and accumulator shapes of a base optimizer.
pub struct MomentClock {
    t: usize,
    shapes: Vec<Shape>,
}

/// What one update does: the time step `t` to use for bias correction, and
/// whether the accumulators are to be allocated, zeroed, before use.
#[derive(Clone, Copy, Debug, PartialEq, Eq, Structural)]
pub struct MomentStep {
    pub t: usize,
    pub allocate: bool,
}

/// The abstract state of a `MomentClock`.
pub struct MomentView {
    pub t: nat,
    pub shapes: Seq<Shape>,
}

impl MomentView {
    /// Accumulators exist once an update has succeeded.
    pub open spec fn allocated(self) -> bool {
        self.t > 0
    }

    pub open spec fn wf(self) -> bool {
        !self.allocated() ==> self.shapes.len() == 0
    }

    /// The error, if any, of an update on reduced gradients of `shapes`.
    pub open spec fn tick_error(self, shapes: Seq<Shape>) -> Option<GaLoreError> {
        if self.allocated() && shapes.len() != self.shapes.len() {
            Some(
                GaLoreError::SlotCountMismatch {
                    expected: self.shapes.len() as usize,
                    found: shapes.len() as usize,
                },
            )
        } else if self.allocated() && first_mismatch(shapes, self.shapes, 0) < shapes.len() {
            Some(GaLoreError::ShapeMismatch { slot: first_mismatch(shapes, self.shapes, 0) as usize })
        } else {
            None
        }
    }
}

impl View for MomentClock {
    type V = MomentView;

    closed spec fn view(&self) -> MomentView {
        MomentView { t: self.t as nat, shapes: self.shapes@ }
    }
}

impl MomentClock {
    /// A clock at time step 0 with no accumulators.
    pub fn new() -> (r: MomentClock)
        ensures
            r@.wf(),
            r@.t == 0,
            r@.shapes.len() == 0,
    {
        MomentClock { t: 0, shapes: Vec::new() }
    }

    /// The number of successful updates so far.
    pub fn t(&self) -> (r: usize)
        ensures
            r == self@.t,
    {
        self.t
    }

    /// The accumulator shape of each slot, empty before the first update.
    pub fn shapes(&self) -> (r: &Vec<Shape>)
        ensures
            r@ == self@.shapes,
    {
        &self.shapes
    }

    /// Starts an update on reduced gradients of `shapes`: advances the time
    /// step by one and says whether the accumulators must be allocated
    /// (on the first update only, with the given shapes). Later updates
    /// must bring the same shapes; on an error nothing changes.
    pub fn tick(&mut self, shapes: &Vec<Shape>) -> (r: Result<MomentStep, GaLoreError>)
        requires
            old(self)@.wf(),
            old(self)@.t < usize::MAX,
        ensures
            final(self)@.wf(),
            old(self)@.tick_error(shapes@) matches Some(e) ==> (r == Err::<MomentStep, GaLoreError>(e)
                && final(self)@ == old(self)@),
            old(self)@.tick_error(shapes@) is None ==> (r == Ok::<MomentStep, GaLoreError>(
                MomentStep { t: (old(self)@.t + 1) as usize, allocate: !old(self)@.allocated() },
            ) && final(self)@ == MomentView { t: old(self)@.t + 1, shapes: shapes@ }),
    {
        let allocate = self.t == 0;
        if !allocate {
            if shapes.len() != self.shapes.len() {
                return Err(
                    GaLoreError::SlotCountMismatch { expected: self.shapes.len(), found: shapes.len() },
                );
            }
            let i = find_mismatch(shapes, &self.shapes);
            if i < shapes.len() {
                return Err(GaLoreError::ShapeMismatch { slot: i });
            }
            proof {
                lemma_no_mismatch(shapes@, self.shapes@, 0);
                assert(shapes@ =~= self.shapes@);
            }
        } else {
            self.shapes = copy_shapes(shapes);
        }
        self.t = self.t + 1;
        Ok(MomentStep { t: self.t, allocate })
    }
}

} // verus!
