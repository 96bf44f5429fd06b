use vstd::prelude::*;

verus! {

/// The dimensions of a 2-D tensor: `rows` by `cols`.
#[derive(Clone, Copy, Debug, PartialEq, Eq, Structural)]
pub struct Shape {
    pub rows: usize,
    pub cols: usize,
}

impl Shape {
    /// Whether a truncation to `rank` is possible: `rank <= min(rows, cols)`.
    pub open spec fn admits_rank(self, rank: nat) -> bool {
        rank <= self.rows && rank <= self.cols
    }

    pub fn new(rows: usize, cols: usize) -> (r: Shape)
        ensures
            r.rows == rows,
            r.cols == cols,
    {
        Shape { rows, cols }
    }

    /// Tests whether a truncation to `rank` is possible for this shape.
    pub fn fits_rank(&self, rank: usize) -> (r: bool)
        ensures
            r == self.admits_rank(rank as nat),
    {
        rank <= self.rows && rank <= self.cols
    }
}

} // verus!

verus! {

/// The index of the first slot at or after `i` whose shape does not admit
/// `rank`, or `shapes.len()` if there is none.
pub open spec fn first_rank_violation(shapes: Seq<Shape>, rank: nat, i: int) -> int
    decreases shapes.len() - i,
{
    if i < 0 || i >= shapes.len() {
        shapes.len() as int
    } else if !shapes[i].admits_rank(rank) {
        i
    } else {
        first_rank_violation(shapes, rank, i + 1)
    }
}

/// The index of the first slot at or after `i` where `got` differs from
/// `want`, or `got.len()` if there is none. Both have the same length.
pub open spec fn first_mismatch(got: Seq<Shape>, want: Seq<Shape>, i: int) -> int
    decreases got.len() - i,
{
    if i < 0 || i >= got.len() {
        got.len() as int
    } else if got[i] != want[i] {
        i
    } else {
        first_mismatch(got, want, i + 1)
    }
}

/// `n` copies of the square shape `rank` by `rank`.
pub open spec fn square_shapes(rank: nat, n: nat) -> Seq<Shape> {
    Seq::new(n, |i: int| Shape { rows: rank as usize, cols: rank as usize })
}

/// Finds the first slot whose shape does not admit `rank`.
pub fn find_rank_violation(shapes: &Vec<Shape>, rank: usize) -> (r: usize)
    ensures
        r <= shapes.len(),
        r as int == first_rank_violation(shapes@, rank as nat, 0),
{
    let mut i: usize = 0;
    while i < shapes.len()
        invariant
            i <= shapes.len(),
            first_rank_violation(shapes@, rank as nat, 0) == first_rank_violation(
                shapes@,
                rank as nat,
                i as int,
            ),
        decreases shapes.len() - i,
    {
        if !shapes[i].fits_rank(rank) {
            return i;
        }
        i = i + 1;
    }
    i
}

/// Finds the first slot where `got` differs from `want`.
pub fn find_mismatch(got: &Vec<Shape>, want: &Vec<Shape>) -> (r: usize)
    requires
        got.len() == want.len(),
    ensures
        r <= got.len(),
        r as int == first_mismatch(got@, want@, 0),
{
    let mut i: usize = 0;
    while i < got.len()
        invariant
            i <= got.len(),
            got.len() == want.len(),
            first_mismatch(got@, want@, 0) == first_mismatch(got@, want@, i as int),
        decreases got.len() - i,
    {
        if got[i] != want[i] {
            return i;
        }
        i = i + 1;
    }
    i
}

/// Builds `n` copies of the square shape `rank` by `rank`.
pub fn make_square_shapes(rank: usize, n: usize) -> (r: Vec<Shape>)
    ensures
        r@ == square_shapes(rank as nat, n as nat),
{
    let mut r: Vec<Shape> = Vec::new();
    let mut i: usize = 0;
    while i < n
        invariant
            i <= n,
            r@ == square_shapes(rank as nat, i as nat),
        decreases n - i,
    {
        r.push(Shape { rows: rank, cols: rank });
        i = i + 1;
        assert(r@ =~= square_shapes(rank as nat, i as nat));
    }
    r
}

/// The first rank violation lies within the sequence, or is its length.
pub proof fn lemma_rank_violation_bounded(shapes: Seq<Shape>, rank: nat, i: int)
    requires
        0 <= i,
    ensures
        first_rank_violation(shapes, rank, i) <= shapes.len(),
    decreases shapes.len() - i,
{
    if i < shapes.len() {
        lemma_rank_violation_bounded(shapes, rank, i + 1);
    }
}

/// The first mismatch lies within the sequence, or is its length.
pub proof fn lemma_mismatch_bounded(got: Seq<Shape>, want: Seq<Shape>, i: int)
    requires
        0 <= i,
    ensures
        first_mismatch(got, want, i) <= got.len(),
    decreases got.len() - i,
{
    if i < got.len() {
        lemma_mismatch_bounded(got, want, i + 1);
    }
}

/// Past a slot with no rank violation from `i` on, every shape admits `rank`.
pub proof fn lemma_no_rank_violation(shapes: Seq<Shape>, rank: nat, i: int)
    requires
        0 <= i <= shapes.len(),
        first_rank_violation(shapes, rank, i) == shapes.len(),
    ensures
        forall|j: int| i <= j < shapes.len() ==> #[trigger] shapes[j].admits_rank(rank),
    decreases shapes.len() - i,
{
    if i < shapes.len() {
        lemma_no_rank_violation(shapes, rank, i + 1);
    }
}

/// With no mismatch from `i` on, the two sequences agree from `i` on.
pub proof fn lemma_no_mismatch(got: Seq<Shape>, want: Seq<Shape>, i: int)
    requires
        0 <= i <= got.len(),
        got.len() == want.len(),
        first_mismatch(got, want, i) == got.len(),
    ensures
        forall|j: int| i <= j < got.len() ==> #[trigger] got[j] == want[j],
    decreases got.len() - i,
{
    if i < got.len() {
        lemma_no_mismatch(got, want, i + 1);
    }
}

/// A sequence has no mismatch against itself.
pub proof fn lemma_mismatch_self(s: Seq<Shape>, i: int)
    requires
        0 <= i <= s.len(),
    ensures
        first_mismatch(s, s, i) == s.len(),
    decreases s.len() - i,
{
    if i < s.len() {
        lemma_mismatch_self(s, i + 1);
    }
}

/// Copies a list of shapes.
pub fn copy_shapes(v: &Vec<Shape>) -> (r: Vec<Shape>)
    ensures
        r@ == v@,
{
    let mut r: Vec<Shape> = Vec::new();
    let mut i: usize = 0;
    while i < v.len()
        invariant
            i <= v.len(),
            r@ == v@.subrange(0, i as int),
        decreases v.len() - i,
    {
        r.push(v[i]);
        i = i + 1;
        assert(r@ =~= v@.subrange(0, i as int));
    }
    assert(r@ =~= v@);
    r
}

} // verus!
