//! The subspace projector's bookkeeping: per slot, the tensor shape and a
//! pair of basis matrices, the truncation rank, the step counter and the
//! refresh schedule.
//!
//! The bases are held as values of the type parameter `B`: this module never
//! looks inside them. It decides, on each gradient projection, whether the
//! bases are kept, adopted from a fresh decomposition, or replaced by a blend
//! of old and fresh, and it checks every tensor shape against its slot.
use vstd::prelude::*;
use crate::cadence::{is_refresh_due, refresh_due, refreshes_on_call};
use crate::error::GaLoreError;
use crate::shape::{
    Shape,
    copy_shapes,
    find_mismatch,
    find_rank_violation,
    first_mismatch,
    first_rank_violation,
    lemma_mismatch_bounded,
    lemma_mismatch_self,
    lemma_no_mismatch,
    lemma_no_rank_violation,
    lemma_rank_violation_bounded,
    make_square_shapes,
    square_shapes,
};

verus! {

/// The two bases of one slot: `row` is `rows x rank` (left singular
/// directions), `col` is `cols x rank` (right singular directions).
pub struct SlotBases<B> {
    pub row: B,
    pub col: B,
}

/// What the next gradient projection does with the bases.
#[derive(Clone, Copy, Debug, PartialEq, Eq, Structural)]
pub enum BasisAction {
    /// No refresh: the current bases are used unchanged.
    Keep,
    /// First refresh: the truncated decomposition is taken as it is.
    Adopt,
    /// Later refresh: the new bases are `d * old + (1 - d) * fresh`.
    Blend,
}

/// Projector state: rank, refresh interval, step counter, and per slot a
/// shape and a pair of bases.
pub struct GaLoreProjection<B> {
    rank: usize,
    update_freq: usize,
    step: usize,
    shapes: Vec<Shape>,
    bases: Vec<SlotBases<B>>,
}

/// The abstract state of a projector.
pub struct ProjectionView<B> {
    pub rank: nat,
    pub update_freq: nat,
    pub step: nat,
    pub shapes: Seq<Shape>,
    pub bases: Seq<SlotBases<B>>,
}

impl<B> ProjectionView<B> {
    /// Bases exist once a gradient projection has succeeded.
    pub open spec fn established(self) -> bool {
        self.step > 0
    }

    pub open spec fn wf(self) -> bool {
        &&& self.rank > 0
        &&& self.update_freq > 0
        &&& self.shapes.len() == self.bases.len()
        &&& !self.established() ==> self.shapes.len() == 0
        &&& forall|i: int| 0 <= i < self.shapes.len() ==> #[trigger] self.shapes[i].admits_rank(self.rank)
    }

    /// Whether the next gradient projection recomputes the bases.
    pub open spec fn refresh_next(self) -> bool {
        refresh_due(self.step + 1, self.update_freq, self.established())
    }

    pub open spec fn next_action(self) -> BasisAction {
        if !self.refresh_next() {
            BasisAction::Keep
        } else if self.established() {
            BasisAction::Blend
        } else {
            BasisAction::Adopt
        }
    }

    /// The error, if any, that gradients of `shapes` meet: on the first call
    /// a slot whose shape does not admit the rank, later a slot count or a
    /// shape that differs from the established slots.
    pub open spec fn shape_error(self, shapes: Seq<Shape>) -> Option<GaLoreError> {
        if self.established() && shapes.len() != self.shapes.len() {
            Some(
                GaLoreError::SlotCountMismatch {
                    expected: self.shapes.len() as usize,
                    found: shapes.len() as usize,
                },
            )
        } else if self.established() && first_mismatch(shapes, self.shapes, 0) < shapes.len() {
            Some(GaLoreError::ShapeMismatch { slot: first_mismatch(shapes, self.shapes, 0) as usize })
        } else if !self.established() && first_rank_violation(shapes, self.rank, 0) < shapes.len() {
            Some(
                GaLoreError::RankExceedsShape {
                    slot: first_rank_violation(shapes, self.rank, 0) as usize,
                },
            )
        } else {
            None
        }
    }

    /// The error, if any, of a gradient projection on tensors of `shapes`
    /// with `supplied` fresh bases (`None`: none supplied). Fresh bases, one
    /// pair per slot, must be supplied exactly when a refresh is due.
    pub open spec fn gradient_error(self, shapes: Seq<Shape>, supplied: Option<nat>) -> Option<
        GaLoreError,
    > {
        if self.shape_error(shapes) is Some {
            self.shape_error(shapes)
        } else if self.refresh_next() != (supplied == Some(shapes.len())) || (!self.refresh_next()
            && supplied.is_some()) {
            Some(GaLoreError::BasesMismatch)
        } else {
            None
        }
    }

    /// The state after a successful gradient projection on tensors of
    /// `shapes`, with `fresh` holding the new bases when a refresh is due.
    pub open spec fn after_gradient(self, shapes: Seq<Shape>, fresh: Seq<SlotBases<B>>) -> Self {
        ProjectionView {
            rank: self.rank,
            update_freq: self.update_freq,
            step: self.step + 1,
            shapes: shapes,
            bases: if self.refresh_next() {
                fresh
            } else {
                self.bases
            },
        }
    }

    /// What back-projecting reduced tensors of `shapes` gives: the full
    /// shapes of the slots, or the error.
    pub open spec fn update_outcome(self, shapes: Seq<Shape>) -> Result<Seq<Shape>, GaLoreError> {
        let square = square_shapes(self.rank, shapes.len());
        if !self.established() {
            Err(GaLoreError::NoBases)
        } else if shapes.len() != self.shapes.len() {
            Err(
                GaLoreError::SlotCountMismatch {
                    expected: self.shapes.len() as usize,
                    found: shapes.len() as usize,
                },
            )
        } else if first_mismatch(shapes, square, 0) < shapes.len() {
            Err(GaLoreError::ShapeMismatch { slot: first_mismatch(shapes, square, 0) as usize })
        } else {
            Ok(self.shapes)
        }
    }
}

/// The number of fresh bases supplied, if any.
pub open spec fn supplied_len<B>(fresh: Option<Vec<SlotBases<B>>>) -> Option<nat> {
    match fresh {
        Some(v) => Some(v@.len()),
        None => None,
    }
}

/// The fresh bases supplied, empty if none.
pub open spec fn supplied_seq<B>(fresh: Option<Vec<SlotBases<B>>>) -> Seq<SlotBases<B>> {
    match fresh {
        Some(v) => v@,
        None => Seq::empty(),
    }
}

impl<B> View for GaLoreProjection<B> {
    type V = ProjectionView<B>;

    closed spec fn view(&self) -> ProjectionView<B> {
        ProjectionView {
            rank: self.rank as nat,
            update_freq: self.update_freq as nat,
            step: self.step as nat,
            shapes: self.shapes@,
            bases: self.bases@,
        }
    }
}

impl<B> GaLoreProjection<B> {
    /// Creates a projector with truncation `rank` that recomputes its bases
    /// every `update_freq` steps. Both must be positive.
    pub fn new(rank: usize, update_freq: usize) -> (r: Result<Self, GaLoreError>)
        ensures
            rank == 0 ==> r == Err::<Self, GaLoreError>(GaLoreError::ZeroRank),
            rank > 0 && update_freq == 0 ==> r == Err::<Self, GaLoreError>(
                GaLoreError::ZeroInterval,
            ),
            rank > 0 && update_freq > 0 ==> (r matches Ok(p) && p@.wf() && p@.rank == rank
                && p@.update_freq == update_freq && p@.step == 0 && p@.shapes.len() == 0),
    {
        if rank == 0 {
            return Err(GaLoreError::ZeroRank);
        }
        if update_freq == 0 {
            return Err(GaLoreError::ZeroInterval);
        }
        Ok(GaLoreProjection { rank, update_freq, step: 0, shapes: Vec::new(), bases: Vec::new() })
    }

    pub fn rank(&self) -> (r: usize)
        ensures
            r == self@.rank,
    {
        self.rank
    }

    pub fn update_freq(&self) -> (r: usize)
        ensures
            r == self@.update_freq,
    {
        self.update_freq
    }

    /// The number of successful gradient projections so far.
    pub fn step(&self) -> (r: usize)
        ensures
            r == self@.step,
    {
        self.step
    }

    /// The shape of each established slot, in slot order.
    pub fn shapes(&self) -> (r: &Vec<Shape>)
        ensures
            r@ == self@.shapes,
    {
        &self.shapes
    }

    /// The current bases of each slot, in slot order.
    pub fn bases(&self) -> (r: &Vec<SlotBases<B>>)
        ensures
            r@ == self@.bases,
    {
        &self.bases
    }

    /// What the next gradient projection will do with the bases.
    pub fn next_action(&self) -> (r: BasisAction)
        requires
            self@.wf(),
            self@.step < usize::MAX,
        ensures
            r == self@.next_action(),
    {
        if !is_refresh_due(self.step as u64 + 1, self.update_freq as u64, self.step > 0) {
            BasisAction::Keep
        } else if self.step > 0 {
            BasisAction::Blend
        } else {
            BasisAction::Adopt
        }
    }

    /// Checks the shapes of a step's gradients against the slots, as the
    /// next gradient projection will; nothing changes.
    pub fn check_gradients(&self, shapes: &Vec<Shape>) -> (r: Result<(), GaLoreError>)
        requires
            self@.wf(),
        ensures
            self@.shape_error(shapes@) matches Some(e) ==> r == Err::<(), GaLoreError>(e),
            self@.shape_error(shapes@) is None ==> r is Ok,
    {
        if self.step > 0 {
            if shapes.len() != self.shapes.len() {
                return Err(
                    GaLoreError::SlotCountMismatch { expected: self.shapes.len(), found: shapes.len() },
                );
            }
            let i = find_mismatch(shapes, &self.shapes);
            if i < shapes.len() {
                return Err(GaLoreError::ShapeMismatch { slot: i });
            }
        } else {
            let i = find_rank_violation(shapes, self.rank);
            if i < shapes.len() {
                return Err(GaLoreError::RankExceedsShape { slot: i });
            }
        }
        Ok(())
    }

    /// Starts a training step: advances the step counter, installs `fresh`
    /// as the bases when a refresh is due (see `next_action`), and returns
    /// the shape of each reduced tensor, `rank x rank`.
    ///
    /// `shapes` are the shapes of the gradients, one per slot. On the first
    /// call they establish the slots, each of which must admit the rank; later
    /// they must equal the established shapes. `fresh` holds one pair of bases
    /// per slot exactly when a refresh is due. On any error nothing changes.
    pub fn project_gradient(&mut self, shapes: &Vec<Shape>, fresh: Option<Vec<SlotBases<B>>>) -> (r:
        Result<Vec<Shape>, GaLoreError>)
        requires
            old(self)@.wf(),
            old(self)@.step < usize::MAX,
        ensures
            final(self)@.wf(),
            old(self)@.gradient_error(shapes@, supplied_len(fresh)) matches Some(e) ==> (r == Err::<
                Vec<Shape>,
                GaLoreError,
            >(e) && final(self)@ == old(self)@),
            old(self)@.gradient_error(shapes@, supplied_len(fresh)) is None ==> (r matches Ok(red)
                && red@ == square_shapes(old(self)@.rank, shapes@.len()) && final(self)@ == old(
                self,
            )@.after_gradient(shapes@, supplied_seq(fresh))),
    {
        let established = self.step > 0;
        let checked = self.check_gradients(shapes);
        if let Err(e) = checked {
            return Err(e);
        }
        proof {
            if established {
                lemma_mismatch_bounded(shapes@, self.shapes@, 0);
                lemma_no_mismatch(shapes@, self.shapes@, 0);
                assert(shapes@ =~= self.shapes@);
            } else {
                lemma_rank_violation_bounded(shapes@, self.rank as nat, 0);
                lemma_no_rank_violation(shapes@, self.rank as nat, 0);
            }
        }
        let due = is_refresh_due(self.step as u64 + 1, self.update_freq as u64, established);
        match fresh {
            Some(v) => {
                if !due || v.len() != shapes.len() {
                    return Err(GaLoreError::BasesMismatch);
                }
                self.bases = v;
            },
            None => {
                if due {
                    return Err(GaLoreError::BasesMismatch);
                }
            },
        }
        if !established {
            self.shapes = copy_shapes(shapes);
        }
        self.step = self.step + 1;
        Ok(make_square_shapes(self.rank, shapes.len()))
    }

    /// Checks reduced updates of `shapes` for back-projection and returns
    /// the full shape of each slot. The reduced tensors must be `rank x rank`,
    /// one per slot, and bases must exist.
    pub fn project_update(&self, shapes: &Vec<Shape>) -> (r: Result<Vec<Shape>, GaLoreError>)
        requires
            self@.wf(),
        ensures
            self@.update_outcome(shapes@) matches Err(e) ==> r == Err::<Vec<Shape>, GaLoreError>(e),
            self@.update_outcome(shapes@) matches Ok(full) ==> (r matches Ok(v) && v@ == full),
    {
        if self.step == 0 {
            return Err(GaLoreError::NoBases);
        }
        if shapes.len() != self.shapes.len() {
            return Err(
                GaLoreError::SlotCountMismatch { expected: self.shapes.len(), found: shapes.len() },
            );
        }
        let square = make_square_shapes(self.rank, shapes.len());
        let i = find_mismatch(shapes, &square);
        if i < shapes.len() {
            return Err(GaLoreError::ShapeMismatch { slot: i });
        }
        Ok(copy_shapes(&self.shapes))
    }
}

/// Projecting gradients and back-projecting the reduced tensors that come
/// out gives tensors of exactly the gradients' shapes.
pub proof fn lemma_round_trip_shapes<B>(
    p: ProjectionView<B>,
    shapes: Seq<Shape>,
    fresh: Option<Vec<SlotBases<B>>>,
)
    requires
        p.wf(),
        p.gradient_error(shapes, supplied_len(fresh)) is None,
    ensures
        p.after_gradient(shapes, supplied_seq(fresh)).update_outcome(
            square_shapes(p.rank, shapes.len()),
        ) == Ok::<Seq<Shape>, GaLoreError>(shapes),
{
    lemma_mismatch_self(square_shapes(p.rank, shapes.len()), 0);
}

/// On the first gradient projection the bases are adopted from the
/// decomposition as they are: no blending with earlier bases takes place,
/// whatever the interval.
pub proof fn lemma_first_call_adopts<B>(
    p: ProjectionView<B>,
    shapes: Seq<Shape>,
    fresh: Option<Vec<SlotBases<B>>>,
)
    requires
        p.wf(),
        p.step == 0,
    ensures
        p.next_action() == BasisAction::Adopt,
        p.gradient_error(shapes, supplied_len(fresh)) is None ==> p.after_gradient(
            shapes,
            supplied_seq(fresh),
        ).bases == supplied_seq(fresh),
{
}

/// A projector refreshes on call number `step + 1` exactly as the schedule
/// of a run prescribes, and between refreshes its bases stay exactly as
/// they were.
pub proof fn lemma_projector_cadence<B>(
    p: ProjectionView<B>,
    shapes: Seq<Shape>,
    fresh: Option<Vec<SlotBases<B>>>,
)
    requires
        p.wf(),
    ensures
        p.refresh_next() == refreshes_on_call(p.step + 1, p.update_freq),
        !p.refresh_next() ==> p.after_gradient(shapes, supplied_seq(fresh)).bases == p.bases,
{
}

} // verus!
