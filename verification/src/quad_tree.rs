use vstd::prelude::*;

verus! {

/// Why a quadtree, or a height map over one, refuses a request.
#[derive(Debug, Clone, Copy, PartialEq, Eq)]
pub enum QuadTreeError {
    /// A tree was asked for with no level at all.
    NoLevels,
    /// A tree was asked for with more levels than can be stored or walked.
    TooManyLevels,
    /// A cell was named that its level does not hold.
    IndexOutOfRange,
}

/// The side of level `depth`, in cells: two to the power of `depth`.
pub open spec fn level_side(depth: nat) -> nat
    decreases depth,
{
    if depth == 0 {
        1
    } else {
        2 * level_side((depth - 1) as nat)
    }
}

/// The number of cells of level `depth`: four to the power of `depth`.
pub open spec fn level_cells(depth: nat) -> nat {
    level_side(depth) * level_side(depth)
}

/// Where level `depth` starts in the storage: the number of cells of all the
/// levels above it.
pub open spec fn level_offset(depth: nat) -> nat
    decreases depth,
{
    if depth == 0 {
        0
    } else {
        level_offset((depth - 1) as nat) + level_cells((depth - 1) as nat)
    }
}

/// Where cell `(x, y)` of level `depth` lies in the storage: levels one after
/// the other from the root down, each level row by row.
pub open spec fn cell_index(depth: nat, x: nat, y: nat) -> nat {
    level_offset(depth) + y * level_side(depth) + x
}

/// Level `depth` of a tree of `num_levels` levels holds a cell `(x, y)`.
pub open spec fn cell_in_range(num_levels: nat, depth: nat, x: nat, y: nat) -> bool {
    depth < num_levels && x < level_side(depth) && y < level_side(depth)
}

/// Every level has a cell.
pub proof fn lemma_level_side_positive(depth: nat)
    ensures
        level_side(depth) > 0,
    decreases depth,
{
    if depth > 0 {
        lemma_level_side_positive((depth - 1) as nat);
    }
}

/// Each level has four times the cells of the level above it.
pub proof fn lemma_level_cells_step(depth: nat)
    ensures
        level_cells(depth + 1) == 4 * level_cells(depth),
        level_side(depth + 1) == 2 * level_side(depth),
{
    let s = level_side(depth) as int;
    assert((2 * s) * (2 * s) == 4 * (s * s)) by (nonlinear_arith);
}

/// A deeper level starts no earlier in the storage.
pub proof fn lemma_level_offset_monotonic(a: nat, b: nat)
    requires
        a <= b,
    ensures
        level_offset(a) <= level_offset(b),
    decreases b,
{
    if a < b {
        lemma_level_offset_monotonic(a, (b - 1) as nat);
    }
}

/// The cells of a level lie between the level's start and the start of the
/// next.
pub proof fn lemma_cell_index_bounds(depth: nat, x: nat, y: nat)
    requires
        x < level_side(depth),
        y < level_side(depth),
    ensures
        level_offset(depth) <= cell_index(depth, x, y) < level_offset(depth + 1),
{
    let s = level_side(depth) as int;
    assert(y * s + x < s * s) by (nonlinear_arith)
        requires
            0 <= x < s,
            0 <= y < s,
    ;
}

/// Two cells of a tree share a place in the storage only where they are the
/// same cell.
pub proof fn lemma_cell_index_injective(d1: nat, x1: nat, y1: nat, d2: nat, x2: nat, y2: nat)
    requires
        x1 < level_side(d1),
        y1 < level_side(d1),
        x2 < level_side(d2),
        y2 < level_side(d2),
        cell_index(d1, x1, y1) == cell_index(d2, x2, y2),
    ensures
        d1 == d2,
        x1 == x2,
        y1 == y2,
{
    lemma_cell_index_bounds(d1, x1, y1);
    lemma_cell_index_bounds(d2, x2, y2);
    if d1 < d2 {
        lemma_level_offset_monotonic(d1 + 1, d2);
    } else if d2 < d1 {
        lemma_level_offset_monotonic(d2 + 1, d1);
    } else {
        let s = level_side(d1) as int;
        assert(y1 == y2 && x1 == x2) by (nonlinear_arith)
            requires
                0 <= x1 < s,
                0 <= x2 < s,
                0 <= y1,
                0 <= y2,
                y1 * s + x1 == y2 * s + x2,
        ;
    }
}

/// A complete quadtree of values: level `depth` is a square grid of side
/// `level_side(depth)`, level 0 the root. All levels lie in one flat storage,
/// which is the tree's view.
pub struct QuadTree<T> {
    memory: Vec<T>,
    depth_locations: Vec<usize>,
    depth_sides: Vec<usize>,
}

impl<T> View for QuadTree<T> {
    type V = Seq<T>;

    /// The storage: cell `(x, y)` of level `depth` at `cell_index(depth, x, y)`.
    closed spec fn view(&self) -> Seq<T> {
        self.memory@
    }
}

impl<T> QuadTree<T> {
    /// The number of levels.
    pub closed spec fn num_levels(&self) -> nat {
        self.depth_locations@.len()
    }

    /// The tree has a level, its storage holds exactly its levels' cells, and
    /// it knows where each level starts.
    pub closed spec fn wf(&self) -> bool {
        &&& self.depth_locations@.len() >= 1
        &&& self.depth_sides@.len() == self.depth_locations@.len()
        &&& self.memory@.len() == level_offset(self.depth_locations@.len())
        &&& level_offset(self.depth_locations@.len()) <= usize::MAX
        &&& forall|d: int|
            0 <= d < self.depth_locations@.len() ==> #[trigger] self.depth_locations@[d]
                == level_offset(d as nat)
        &&& forall|d: int|
            0 <= d < self.depth_sides@.len() ==> #[trigger] self.depth_sides@[d] == level_side(
                d as nat,
            )
    }

    /// The value of cell `(x, y)` of level `depth`.
    pub open spec fn value(&self, depth: nat, x: nat, y: nat) -> T {
        self@[cell_index(depth, x, y) as int]
    }

    /// The tree holds a cell `(x, y)` at level `depth`.
    pub open spec fn in_range(&self, depth: nat, x: nat, y: nat) -> bool {
        cell_in_range(self.num_levels(), depth, x, y)
    }

    /// What a well-formed tree's storage measures, and that it fits.
    pub proof fn lemma_storage(&self)
        requires
            self.wf(),
        ensures
            self.num_levels() >= 1,
            self@.len() == level_offset(self.num_levels()),
            self@.len() <= usize::MAX,
    {
    }

    /// A tree of `num_levels` levels with `default_value` in every cell.
    ///
    /// It refuses a tree of no levels, and one whose cells are more than a
    /// `usize` can count.
    pub fn new(num_levels: usize, default_value: T) -> (r: Result<QuadTree<T>, QuadTreeError>) where
        T: Copy,

        ensures
            num_levels == 0 ==> r == Err::<QuadTree<T>, QuadTreeError>(QuadTreeError::NoLevels),
            num_levels > 0 && level_offset(num_levels as nat) > usize::MAX ==> r == Err::<
                QuadTree<T>,
                QuadTreeError,
            >(QuadTreeError::TooManyLevels),
            num_levels > 0 && level_offset(num_levels as nat) <= usize::MAX ==> {
                &&& r matches Ok(tree)
                &&& tree.wf()
                &&& tree.num_levels() == num_levels
                &&& tree@ == Seq::new(level_offset(num_levels as nat), |i: int| default_value)
            },
    {
        if num_levels == 0 {
            return Err(QuadTreeError::NoLevels);
        }
        let mut depth_locations: Vec<usize> = Vec::new();
        let mut depth_sides: Vec<usize> = Vec::new();
        let mut location: usize = 0;
        let mut side: usize = 1;
        let mut i: usize = 0;
        while i < num_levels
            invariant
                i <= num_levels,
                depth_locations@.len() == i,
                depth_sides@.len() == i,
                location == level_offset(i as nat),
                i < num_levels ==> side == level_side(i as nat),
                forall|d: int|
                    0 <= d < i ==> #[trigger] depth_locations@[d] == level_offset(d as nat),
                forall|d: int| 0 <= d < i ==> #[trigger] depth_sides@[d] == level_side(d as nat),
            decreases num_levels - i,
        {
            proof {
                lemma_level_offset_monotonic((i + 1) as nat, num_levels as nat);
                lemma_level_side_positive(i as nat);
            }
            let cells = match side.checked_mul(side) {
                Some(c) => c,
                None => {
                    return Err(QuadTreeError::TooManyLevels);
                },
            };
            depth_locations.push(location);
            depth_sides.push(side);
            location = match location.checked_add(cells) {
                Some(l) => l,
                None => {
                    return Err(QuadTreeError::TooManyLevels);
                },
            };
            i = i + 1;
            if i < num_levels {
                proof {
                    lemma_level_cells_step((i - 1) as nat);
                    lemma_level_offset_monotonic((i + 1) as nat, num_levels as nat);
                    assert(level_cells(i as nat) <= level_offset((i + 1) as nat));
                    assert(2 * side <= 4 * (side * side)) by (nonlinear_arith)
                        requires
                            side >= 1,
                    ;
                }
                side = match side.checked_mul(2) {
                    Some(s) => s,
                    None => {
                        return Err(QuadTreeError::TooManyLevels);
                    },
                };
            }
        }
        let mut memory: Vec<T> = Vec::with_capacity(location);
        let mut k: usize = 0;
        while k < location
            invariant
                k <= location,
                memory@ == Seq::new(k as nat, |i: int| default_value),
            decreases location - k,
        {
            memory.push(default_value);
            k = k + 1;
            assert(memory@ =~= Seq::new(k as nat, |i: int| default_value));
        }
        Ok(QuadTree { memory, depth_locations, depth_sides })
    }

    /// The number of levels.
    pub fn level_count(&self) -> (r: usize)
        requires
            self.wf(),
        ensures
            r == self.num_levels(),
            r >= 1,
    {
        self.depth_locations.len()
    }

    /// The side of level `depth`, in cells, or `None` for a level that the
    /// tree does not have.
    pub fn side(&self, depth: usize) -> (r: Option<usize>)
        requires
            self.wf(),
        ensures
            depth < self.num_levels() ==> r == Some(level_side(depth as nat) as usize)
                && level_side(depth as nat) <= usize::MAX,
            depth >= self.num_levels() ==> r.is_none(),
    {
        if depth < self.depth_sides.len() {
            let side = self.depth_sides[depth];
            proof {
                assert(side == self.depth_sides@[depth as int]);
            }
            Some(side)
        } else {
            None
        }
    }

    /// Where cell `(x, y)` of level `depth` lies, for a cell the tree holds.
    fn locate(&self, depth: usize, x: usize, y: usize) -> (r: Option<usize>)
        requires
            self.wf(),
        ensures
            self.in_range(depth as nat, x as nat, y as nat) ==> r == Some(
                cell_index(depth as nat, x as nat, y as nat) as usize,
            ) && cell_index(depth as nat, x as nat, y as nat) < self@.len(),
            !self.in_range(depth as nat, x as nat, y as nat) ==> r.is_none(),
    {
        if depth >= self.depth_locations.len() {
            return None;
        }
        let side = self.depth_sides[depth];
        if x >= side || y >= side {
            return None;
        }
        let start = self.depth_locations[depth];
        proof {
            assert(side == self.depth_sides@[depth as int]);
            assert(start == self.depth_locations@[depth as int]);
            lemma_cell_index_bounds(depth as nat, x as nat, y as nat);
            lemma_level_offset_monotonic((depth + 1) as nat, self.num_levels());
            assert(y * side >= 0) by (nonlinear_arith)
                requires
                    y >= 0,
                    side >= 0,
            ;
        }
        Some(start + y * side + x)
    }

    /// Reads cell `(x, y)` of level `depth`, or refuses a cell that the tree
    /// does not hold.
    pub fn get_value(&self, depth: usize, x: usize, y: usize) -> (r: Result<&T, QuadTreeError>)
        requires
            self.wf(),
        ensures
            self.in_range(depth as nat, x as nat, y as nat) ==> r == Ok::<&T, QuadTreeError>(
                &self.value(depth as nat, x as nat, y as nat),
            ),
            !self.in_range(depth as nat, x as nat, y as nat) ==> r == Err::<&T, QuadTreeError>(
                QuadTreeError::IndexOutOfRange,
            ),
    {
        match self.locate(depth, x, y) {
            Some(location) => Ok(&self.memory[location]),
            None => Err(QuadTreeError::IndexOutOfRange),
        }
    }

    /// Writes cell `(x, y)` of level `depth` and nothing else, or refuses a
    /// cell that the tree does not hold and leaves the tree as it was.
    pub fn set_value(&mut self, depth: usize, x: usize, y: usize, value: T) -> (r: Result<
        (),
        QuadTreeError,
    >)
        requires
            old(self).wf(),
        ensures
            final(self).wf(),
            final(self).num_levels() == old(self).num_levels(),
            old(self).in_range(depth as nat, x as nat, y as nat) ==> r == Ok::<(), QuadTreeError>(
                (),
            ) && final(self)@ == old(self)@.update(
                cell_index(depth as nat, x as nat, y as nat) as int,
                value,
            ),
            !old(self).in_range(depth as nat, x as nat, y as nat) ==> r == Err::<
                (),
                QuadTreeError,
            >(QuadTreeError::IndexOutOfRange) && final(self)@ == old(self)@,
    {
        match self.locate(depth, x, y) {
            Some(location) => {
                self.memory[location] = value;
                Ok(())
            },
            None => Err(QuadTreeError::IndexOutOfRange),
        }
    }
}

} // verus!
