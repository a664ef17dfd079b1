use crate::max::{spec_max, total_max, Max};
use crate::quad_tree::{
    cell_in_range, cell_index, lemma_cell_index_bounds, lemma_cell_index_injective, lemma_level_offset_monotonic, level_offset, level_side, QuadTree, QuadTreeError,
};
use crate::scalar::less;
use crate::zero::Zero;
use vstd::pervasive::unreached;
use vstd::prelude::*;

pub mod descent;
pub mod march;

verus! {

/// The most levels a height map can have: the side of its finest level
/// must be an `i32`.
pub const MAX_LEVELS: usize = 31;

/// A colour map can be asked for the colour of every height, and gives each
/// height one colour.
pub open spec fn total_color_map<T, C: Fn(T) -> [u8; 4]>(map: Option<C>) -> bool {
    map matches Some(c) ==> {
        &&& forall|h: T| call_requires(c, (h,))
        &&& forall|h: T, a: [u8; 4], b: [u8; 4]|
            call_ensures(c, (h,), a) && call_ensures(c, (h,), b) ==> a == b
    }
}

/// The colour that a colour map gives a height; `None` without a map.
pub open spec fn spec_color<T, C: Fn(T) -> [u8; 4]>(map: Option<C>, height: T) -> Option<[u8; 4]> {
    match map {
        Some(c) => Some(choose|a: [u8; 4]| call_ensures(c, (height,), a)),
        None => None,
    }
}

/// The greatest of the four cells below cell `(x, y)` of level `depth`: the
/// greater of the pair in the upper row and the pair in the lower row, the
/// lower row taken from right to left.
pub open spec fn max_of_children<T: Max>(cells: Seq<T>, depth: nat, x: nat, y: nat) -> T {
    spec_max(
        spec_max(
            cells[cell_index(depth + 1, 2 * x, 2 * y) as int],
            cells[cell_index(depth + 1, 2 * x + 1, 2 * y) as int],
        ),
        spec_max(
            cells[cell_index(depth + 1, 2 * x + 1, 2 * y + 1) as int],
            cells[cell_index(depth + 1, 2 * x, 2 * y + 1) as int],
        ),
    )
}

/// Cell `(x, y)` of level `depth` holds the greatest of the four cells below
/// it.
pub open spec fn bounds_children<T: Max>(cells: Seq<T>, depth: nat, x: nat, y: nat) -> bool {
    cells[cell_index(depth, x, y) as int] == max_of_children(cells, depth, x, y)
}

/// From level `from` down, every cell above the finest level holds the
/// greatest of the four cells below it.
pub open spec fn is_pyramid_from<T: Max>(cells: Seq<T>, num_levels: nat, from: nat) -> bool {
    forall|depth: nat, x: nat, y: nat|
        from <= depth && depth + 1 < num_levels && x < level_side(depth) && y < level_side(depth)
            ==> #[trigger] bounds_children(
            cells,
            depth,
            x,
            y,
        )
}

/// Every cell above the finest level holds the greatest of the four cells
/// below it: each level bounds all that lies beneath.
pub open spec fn is_pyramid<T: Max>(cells: Seq<T>, num_levels: nat) -> bool {
    is_pyramid_from(cells, num_levels, 0)
}

/// The coordinate, at level `depth`, of the cell above the cell of
/// coordinate `at` of level `below`: `at` halved once for each level
/// between.
pub open spec fn ancestor_coordinate(depth: nat, below: nat, at: nat) -> nat
    decreases below,
{
    if below <= depth {
        at
    } else {
        ancestor_coordinate(depth, (below - 1) as nat, at / 2)
    }
}

/// On the values that the storage holds, the maximum is the greater of its
/// two operands: no value is less than itself, the maximum of two values is
/// one of the two and less than neither, and not being less passes along a
/// chain. Nothing is asked of values that the storage does not hold.
pub open spec fn max_picks_the_greater<T: Max + PartialOrd>(cells: Seq<T>) -> bool {
    &&& forall|i: int| 0 <= i < cells.len() ==> !less(#[trigger] cells[i], cells[i])
    &&& forall|i: int, j: int|
        0 <= i < cells.len() && 0 <= j < cells.len() ==> {
            let m = #[trigger] spec_max(cells[i], cells[j]);
            &&& m == cells[i] || m == cells[j]
            &&& !less(m, cells[i])
            &&& !less(m, cells[j])
        }
    &&& forall|i: int, j: int, k: int|
        #![trigger less(cells[i], cells[j]), less(cells[j], cells[k])]
        0 <= i < cells.len() && 0 <= j < cells.len() && 0 <= k < cells.len() && !less(
            cells[i],
            cells[j],
        ) && !less(cells[j], cells[k]) ==> !less(cells[i], cells[k])
}

/// The cell above is found by halving once more.
proof fn lemma_ancestor_step(depth: nat, below: nat, at: nat)
    requires
        depth < below,
    ensures
        ancestor_coordinate(depth, below, at) == ancestor_coordinate(depth + 1, below, at) / 2,
    decreases below,
{
    if below > depth + 1 {
        lemma_ancestor_step(depth, (below - 1) as nat, at / 2);
    } else {
        assert(ancestor_coordinate(depth, depth, at / 2) == at / 2);
        assert(ancestor_coordinate(depth + 1, below, at) == at);
    }
}

/// In a pyramid no cell is less than any cell beneath it: what a level
/// holds for a cell is an upper bound of all the heights that the cell
/// covers. This is what lets a traversal leave out all below a node whose
/// bound is hidden.
pub proof fn law_ancestors_bound_descendants<T: Max + PartialOrd>(
    cells: Seq<T>,
    num_levels: nat,
    depth: nat,
    below: nat,
    x: nat,
    y: nat,
)
    requires
        is_pyramid(cells, num_levels),
        cells.len() == level_offset(num_levels),
        max_picks_the_greater(cells),
        depth <= below < num_levels,
        x < level_side(below),
        y < level_side(below),
    ensures
        ancestor_coordinate(depth, below, x) < level_side(depth),
        ancestor_coordinate(depth, below, y) < level_side(depth),
        !less(
            cells[cell_index(
                depth,
                ancestor_coordinate(depth, below, x),
                ancestor_coordinate(depth, below, y),
            ) as int],
            cells[cell_index(below, x, y) as int],
        ),
    decreases below,
{
    lemma_cell_stored(num_levels, below, x, y);
    if below > depth {
        let up = (below - 1) as nat;
        let (px, py) = (x / 2, y / 2);
        law_ancestors_bound_descendants(cells, num_levels, depth, up, px, py);
        lemma_cell_stored(num_levels, up, px, py);
        lemma_cell_stored(num_levels, below, 2 * px, 2 * py);
        lemma_cell_stored(num_levels, below, 2 * px + 1, 2 * py);
        lemma_cell_stored(num_levels, below, 2 * px + 1, 2 * py + 1);
        lemma_cell_stored(num_levels, below, 2 * px, 2 * py + 1);
        lemma_cell_stored(
            num_levels,
            depth,
            ancestor_coordinate(depth, below, x),
            ancestor_coordinate(depth, below, y),
        );
        let top = cell_index(
            depth,
            ancestor_coordinate(depth, below, x),
            ancestor_coordinate(depth, below, y),
        ) as int;
        let parent = cell_index(up, px, py) as int;
        let child = cell_index(below, x, y) as int;
        let i1 = cell_index(below, 2 * px, 2 * py) as int;
        let i2 = cell_index(below, 2 * px + 1, 2 * py) as int;
        let i3 = cell_index(below, 2 * px + 1, 2 * py + 1) as int;
        let i4 = cell_index(below, 2 * px, 2 * py + 1) as int;
        assert(bounds_children(cells, up, px, py));
        // the greater of each row is a cell of the row, and the parent is the
        // greater of those two
        let upper = if spec_max(cells[i1], cells[i2]) == cells[i1] {
            i1
        } else {
            i2
        };
        let lower = if spec_max(cells[i3], cells[i4]) == cells[i3] {
            i3
        } else {
            i4
        };
        assert(cells[parent] == spec_max(cells[upper], cells[lower]));
        let row = if y == 2 * py {
            upper
        } else {
            lower
        };
        assert(!less(cells[parent], cells[row]));
        assert(!less(cells[row], cells[child]));
        assert(!less(cells[parent], cells[child]));
    }
}

/// In a pyramid every cell holds the height of a finest cell beneath it:
/// the bound that a level keeps for a cell is attained. The law gives the
/// column and the row of such a finest cell.
pub proof fn law_bound_is_attained<T: Max + PartialOrd>(
    cells: Seq<T>,
    num_levels: nat,
    depth: nat,
    x: nat,
    y: nat,
) -> (at: (nat, nat))
    requires
        is_pyramid(cells, num_levels),
        cells.len() == level_offset(num_levels),
        max_picks_the_greater(cells),
        cell_in_range(num_levels, depth, x, y),
    ensures
        at.0 < level_side((num_levels - 1) as nat),
        at.1 < level_side((num_levels - 1) as nat),
        ancestor_coordinate(depth, (num_levels - 1) as nat, at.0) == x,
        ancestor_coordinate(depth, (num_levels - 1) as nat, at.1) == y,
        cells[cell_index((num_levels - 1) as nat, at.0, at.1) as int] == cells[cell_index(
            depth,
            x,
            y,
        ) as int],
    decreases num_levels - depth,
{
    if depth + 1 == num_levels {
        (x, y)
    } else {
        let below = depth + 1;
        lemma_cell_stored(num_levels, below, 2 * x, 2 * y);
        lemma_cell_stored(num_levels, below, 2 * x + 1, 2 * y);
        lemma_cell_stored(num_levels, below, 2 * x + 1, 2 * y + 1);
        lemma_cell_stored(num_levels, below, 2 * x, 2 * y + 1);
        let i1 = cell_index(below, 2 * x, 2 * y) as int;
        let i2 = cell_index(below, 2 * x + 1, 2 * y) as int;
        let i3 = cell_index(below, 2 * x + 1, 2 * y + 1) as int;
        let i4 = cell_index(below, 2 * x, 2 * y + 1) as int;
        assert(bounds_children(cells, depth, x, y));
        let upper = if spec_max(cells[i1], cells[i2]) == cells[i1] {
            i1
        } else {
            i2
        };
        let lower = if spec_max(cells[i3], cells[i4]) == cells[i3] {
            i3
        } else {
            i4
        };
        let parent = spec_max(cells[upper], cells[lower]);
        let (cx, cy): (nat, nat) = if parent == cells[upper] {
            if upper == i1 {
                (2 * x, 2 * y)
            } else {
                (2 * x + 1, 2 * y)
            }
        } else {
            if lower == i3 {
                (2 * x + 1, 2 * y + 1)
            } else {
                (2 * x, 2 * y + 1)
            }
        };
        let at = law_bound_is_attained(cells, num_levels, below, cx, cy);
        lemma_ancestor_step(depth, (num_levels - 1) as nat, at.0);
        lemma_ancestor_step(depth, (num_levels - 1) as nat, at.1);
        at
    }
}

/// The two storages agree on every cell of level `depth`.
pub open spec fn same_level<T>(a: Seq<T>, b: Seq<T>, depth: nat) -> bool {
    forall|x: nat, y: nat|
        x < level_side(depth) && y < level_side(depth) ==> a[#[trigger] cell_index(depth, x, y) as int]
            == b[cell_index(depth, x, y) as int]
}

/// `sampler` has given the height of every cell of level `finest`, of side
/// `size`, that comes before cell `(x, y)` row by row.
pub open spec fn sampled_before<T, F: Fn(usize, usize) -> T>(
    cells: Seq<T>,
    sampler: F,
    finest: nat,
    size: nat,
    x: nat,
    y: nat,
) -> bool {
    forall|cx: usize, cy: usize|
        cx < size && (cy < y || (cy == y && cx < x)) ==> call_ensures(
            sampler,
            (cx, cy),
            cells[#[trigger] cell_index(finest, cx as nat, cy as nat) as int],
        )
}

/// A cell of the level below lies at twice the coordinates, or one more.
proof fn lemma_children_in_range(depth: nat, x: nat, y: nat)
    requires
        x < level_side(depth),
        y < level_side(depth),
    ensures
        2 * x + 1 < level_side(depth + 1),
        2 * y + 1 < level_side(depth + 1),
{
}

/// Writing one cell leaves every other cell as it was.
proof fn lemma_update_frame<T>(
    cells: Seq<T>,
    d0: nat,
    x0: nat,
    y0: nat,
    value: T,
    d: nat,
    x: nat,
    y: nat,
)
    requires
        x0 < level_side(d0),
        y0 < level_side(d0),
        x < level_side(d),
        y < level_side(d),
        cell_index(d0, x0, y0) < cells.len(),
        cell_index(d, x, y) < cells.len(),
        d != d0 || x != x0 || y != y0,
    ensures
        cells.update(cell_index(d0, x0, y0) as int, value)[cell_index(d, x, y) as int]
            == cells[cell_index(d, x, y) as int],
{
    if cell_index(d0, x0, y0) == cell_index(d, x, y) {
        lemma_cell_index_injective(d0, x0, y0, d, x, y);
    }
}

/// A cell that a tree of `num_levels` levels holds has its place in the
/// storage.
proof fn lemma_cell_stored(num_levels: nat, depth: nat, x: nat, y: nat)
    requires
        cell_in_range(num_levels, depth, x, y),
    ensures
        cell_index(depth, x, y) < level_offset(num_levels),
{
    lemma_cell_index_bounds(depth, x, y);
    lemma_level_offset_monotonic(depth + 1, num_levels);
}

/// A field of terrain heights over a square grid, with a pyramid of upper
/// bounds above it.
///
/// The finest level holds the heights, one for each cell of a grid of side
/// `level_side(levels - 1)`. Each cell measures `block_size` on the ground,
/// and the grid is centred on the origin. Each level above it is meant to
/// hold, cell by cell, the greatest of the four cells below: `new` and
/// `rebuild` make it so, `write` does not keep it so.
pub struct HeightMap<T, C> {
    num_levels: usize,
    quad_tree: QuadTree<T>,
    color_gradient_op: Option<C>,
    block_size: T,
}

impl<T, C> View for HeightMap<T, C> {
    type V = Seq<T>;

    /// The storage of all levels: cell `(x, y)` of level `depth` at
    /// `cell_index(depth, x, y)`.
    closed spec fn view(&self) -> Seq<T> {
        self.quad_tree@
    }
}

impl<T: Copy, C: Fn(T) -> [u8; 4]> HeightMap<T, C> {
    /// The number of levels.
    pub closed spec fn levels(&self) -> nat {
        self.num_levels as nat
    }

    /// The length of a cell's edge on the ground.
    pub closed spec fn block_size(&self) -> T {
        self.block_size
    }

    /// The colour map, if the height map has one.
    pub closed spec fn color_map(&self) -> Option<C> {
        self.color_gradient_op
    }

    /// The height map has between one and `MAX_LEVELS` levels, its storage
    /// holds exactly their cells, and its colour map, if it has one, is total.
    pub closed spec fn wf(&self) -> bool {
        &&& self.quad_tree.wf()
        &&& self.quad_tree.num_levels() == self.num_levels
        &&& 1 <= self.num_levels <= MAX_LEVELS
        &&& total_color_map(self.color_gradient_op)
    }

    /// The value of cell `(x, y)` of level `level`.
    pub open spec fn height(&self, level: nat, x: nat, y: nat) -> T {
        self@[cell_index(level, x, y) as int]
    }

    /// The height map holds a cell `(x, y)` at level `level`.
    pub open spec fn in_range(&self, level: nat, x: nat, y: nat) -> bool {
        cell_in_range(self.levels(), level, x, y)
    }

    /// What well-formedness says to the outside.
    pub proof fn lemma_wf(&self)
        requires
            self.wf(),
        ensures
            1 <= self.levels() <= MAX_LEVELS,
            self@.len() == level_offset(self.levels()),
            total_color_map(self.color_map()),
    {
        self.quad_tree.lemma_storage();
    }

    /// A cell that has been written reads as what was written, and every
    /// other cell reads as before: `after` stands for the height map that
    /// `write` leaves of `self`.
    pub proof fn law_read_after_write(
        &self,
        after: &HeightMap<T, C>,
        level: nat,
        x: nat,
        y: nat,
        val: T,
    )
        requires
            self.wf(),
            self.in_range(level, x, y),
            after.levels() == self.levels(),
            after@ == self@.update(cell_index(level, x, y) as int, val),
        ensures
            after.height(level, x, y) == val,
            forall|l: nat, cx: nat, cy: nat|
                self.in_range(l, cx, cy) && (l != level || cx != x || cy != y) ==> after@[#[trigger] cell_index(
                    l,
                    cx,
                    cy,
                ) as int] == self.height(l, cx, cy),
    {
        self.lemma_wf();
        lemma_cell_stored(self.levels(), level, x, y);
        assert forall|l: nat, cx: nat, cy: nat|
            self.in_range(l, cx, cy) && (l != level || cx != x || cy != y) implies after@[#[trigger] cell_index(
            l,
            cx,
            cy,
        ) as int] == self.height(l, cx, cy) by {
            lemma_cell_stored(self.levels(), l, cx, cy);
            lemma_update_frame(self@, level, x, y, val, l, cx, cy);
        }
    }

    /// Builds a height map of `num_levels` levels: asks `sampler` for the
    /// height of each cell of the finest level, and derives the levels above
    /// from it.
    ///
    /// It refuses a map of no levels, and one of more than `MAX_LEVELS`
    /// levels or of more cells than a `usize` can count.
    pub fn new<F: Fn(usize, usize) -> T>(
        num_levels: usize,
        block_size: T,
        color_gradient_op: Option<C>,
        sampler: F,
    ) -> (r: Result<HeightMap<T, C>, QuadTreeError>) where T: Zero + Max
        requires
            total_max::<T>(),
            total_color_map(color_gradient_op),
            forall|x: usize, y: usize|
                0 < num_levels <= MAX_LEVELS && x < level_side((num_levels - 1) as nat) && y
                    < level_side((num_levels - 1) as nat) ==> call_requires(sampler, (x, y)),
        ensures
            num_levels == 0 ==> r == Err::<HeightMap<T, C>, QuadTreeError>(QuadTreeError::NoLevels),
            num_levels > MAX_LEVELS || (num_levels > 0 && level_offset(num_levels as nat)
                > usize::MAX) ==> r == Err::<HeightMap<T, C>, QuadTreeError>(
                QuadTreeError::TooManyLevels,
            ),
            0 < num_levels <= MAX_LEVELS && level_offset(num_levels as nat) <= usize::MAX ==> {
                &&& r matches Ok(map)
                &&& map.wf()
                &&& map.levels() == num_levels
                &&& map.block_size() == block_size
                &&& map.color_map() == color_gradient_op
                &&& is_pyramid(map@, map.levels())
                &&& forall|x: usize, y: usize|
                    x < level_side((num_levels - 1) as nat) && y < level_side(
                        (num_levels - 1) as nat,
                    ) ==> call_ensures(
                        sampler,
                        (x, y),
                        #[trigger] map.height((num_levels - 1) as nat, x as nat, y as nat),
                    )
            },
    {
        if num_levels == 0 {
            return Err(QuadTreeError::NoLevels);
        }
        if num_levels > MAX_LEVELS {
            return Err(QuadTreeError::TooManyLevels);
        }
        let quad_tree = match QuadTree::new(num_levels, T::zero()) {
            Ok(tree) => tree,
            Err(e) => {
                return Err(e);
            },
        };
        let mut r = HeightMap { num_levels, quad_tree, color_gradient_op, block_size };
        r.init_data(&sampler);
        Ok(r)
    }

    /// The side of level `level`, in cells.
    pub(crate) fn side(&self, level: usize) -> (r: usize)
        requires
            self.wf(),
            level < self.levels(),
        ensures
            r == level_side(level as nat),
    {
        match self.quad_tree.side(level) {
            Some(side) => side,
            None => unreached(),
        }
    }

    /// The value of a cell that the map holds.
    pub(crate) fn cell(&self, level: usize, x: usize, y: usize) -> (r: T)
        requires
            self.wf(),
            self.in_range(level as nat, x as nat, y as nat),
        ensures
            r == self.height(level as nat, x as nat, y as nat),
    {
        match self.quad_tree.get_value(level, x, y) {
            Ok(value) => *value,
            Err(_) => unreached(),
        }
    }

    /// Writes a cell that the map holds.
    fn put(&mut self, level: usize, x: usize, y: usize, value: T)
        requires
            old(self).wf(),
            old(self).in_range(level as nat, x as nat, y as nat),
        ensures
            final(self).wf(),
            final(self).levels() == old(self).levels(),
            final(self).block_size() == old(self).block_size(),
            final(self).color_map() == old(self).color_map(),
            final(self)@ == old(self)@.update(
                cell_index(level as nat, x as nat, y as nat) as int,
                value,
            ),
    {
        let _ = self.quad_tree.set_value(level, x, y, value);
    }

    /// Fills the finest level from `sampler`, one call for each cell, and
    /// derives the levels above.
    fn init_data<F: Fn(usize, usize) -> T>(&mut self, sampler: &F) where T: Max
        requires
            old(self).wf(),
            total_max::<T>(),
            forall|x: usize, y: usize|
                x < level_side((old(self).levels() - 1) as nat) && y < level_side(
                    (old(self).levels() - 1) as nat,
                ) ==> call_requires(*sampler, (x, y)),
        ensures
            final(self).wf(),
            final(self).levels() == old(self).levels(),
            final(self).block_size() == old(self).block_size(),
            final(self).color_map() == old(self).color_map(),
            is_pyramid(final(self)@, final(self).levels()),
            forall|x: usize, y: usize|
                x < level_side((old(self).levels() - 1) as nat) && y < level_side(
                    (old(self).levels() - 1) as nat,
                ) ==> call_ensures(
                    *sampler,
                    (x, y),
                    #[trigger] final(self).height(
                        (old(self).levels() - 1) as nat,
                        x as nat,
                        y as nat,
                    ),
                ),
    {
        let finest = self.num_levels - 1;
        let size = self.side(finest);
        let ghost levels = self.levels();
        let mut y: usize = 0;
        while y < size
            invariant
                self.wf(),
                self.levels() == levels,
                levels == old(self).levels(),
                finest == levels - 1,
                size == level_side(finest as nat),
                y <= size,
                self.block_size() == old(self).block_size(),
                self.color_map() == old(self).color_map(),
                forall|x: usize, y: usize|
                    x < size && y < size ==> call_requires(*sampler, (x, y)),
                sampled_before(self@, *sampler, finest as nat, size as nat, 0, y as nat),
            decreases size - y,
        {
            let mut x: usize = 0;
            while x < size
                invariant
                    self.wf(),
                    self.levels() == levels,
                    levels == old(self).levels(),
                    finest == levels - 1,
                    size == level_side(finest as nat),
                    y < size,
                    x <= size,
                    self.block_size() == old(self).block_size(),
                    self.color_map() == old(self).color_map(),
                    forall|x: usize, y: usize|
                        x < size && y < size ==> call_requires(*sampler, (x, y)),
                    sampled_before(self@, *sampler, finest as nat, size as nat, x as nat, y as nat),
                decreases size - x,
            {
                let h = sampler(x, y);
                let ghost before = self@;
                proof {
                    self.lemma_wf();
                }
                self.put(finest, x, y, h);
                proof {
                    lemma_cell_stored(levels, finest as nat, x as nat, y as nat);
                    assert forall|cx: usize, cy: usize|
                        cx < size && (cy < y || (cy == y && cx < x + 1)) implies call_ensures(
                        *sampler,
                        (cx, cy),
                        self@[#[trigger] cell_index(finest as nat, cx as nat, cy as nat) as int],
                    ) by {
                        lemma_cell_stored(levels, finest as nat, cx as nat, cy as nat);
                        if cx != x || cy != y {
                            lemma_update_frame(
                                before,
                                finest as nat,
                                x as nat,
                                y as nat,
                                h,
                                finest as nat,
                                cx as nat,
                                cy as nat,
                            );
                        }
                    }
                }
                x = x + 1;
            }
            y = y + 1;
        }
        let ghost sampled = self@;
        self.rebuild();
        proof {
            assert forall|x: usize, y: usize|
                x < level_side((old(self).levels() - 1) as nat) && y < level_side(
                    (old(self).levels() - 1) as nat,
                ) implies call_ensures(
                *sampler,
                (x, y),
                #[trigger] self.height((old(self).levels() - 1) as nat, x as nat, y as nat),
            ) by {
                let i = cell_index(finest as nat, x as nat, y as nat);
                assert(self@[i as int] == sampled[i as int]);
            }
        }
    }

    /// Derives every level above the finest from the level below it, from
    /// the finest level up, and leaves the finest level as it is.
    pub fn rebuild(&mut self) where T: Max
        requires
            old(self).wf(),
            total_max::<T>(),
        ensures
            final(self).wf(),
            final(self).levels() == old(self).levels(),
            final(self).block_size() == old(self).block_size(),
            final(self).color_map() == old(self).color_map(),
            same_level(final(self)@, old(self)@, (old(self).levels() - 1) as nat),
            is_pyramid(final(self)@, final(self).levels()),
    {
        let ghost levels = self.levels();
        let ghost finest = (levels - 1) as nat;
        let mut lvl: usize = self.num_levels - 1;
        while lvl > 0
            invariant
                self.wf(),
                self.levels() == levels,
                levels == old(self).levels(),
                finest == levels - 1,
                lvl < levels,
                total_max::<T>(),
                self.block_size() == old(self).block_size(),
                self.color_map() == old(self).color_map(),
                same_level(self@, old(self)@, finest),
                is_pyramid_from(self@, levels, lvl as nat),
            decreases lvl,
        {
            let below = self.side(lvl);
            lvl = lvl - 1;
            let size = self.side(lvl);
            let mut y: usize = 0;
            while y < size
                invariant
                    self.wf(),
                    self.levels() == levels,
                    levels == old(self).levels(),
                    finest == levels - 1,
                    lvl + 1 < levels,
                    size == level_side(lvl as nat),
                    below == level_side((lvl + 1) as nat),
                    y <= size,
                    total_max::<T>(),
                    self.block_size() == old(self).block_size(),
                    self.color_map() == old(self).color_map(),
                    same_level(self@, old(self)@, finest),
                    is_pyramid_from(self@, levels, (lvl + 1) as nat),
                    forall|cx: nat, cy: nat|
                        cx < size && cy < y ==> #[trigger] bounds_children(
                            self@,
                            lvl as nat,
                            cx,
                            cy,
                        ),
                decreases size - y,
            {
                let mut x: usize = 0;
                while x < size
                    invariant
                        self.wf(),
                        self.levels() == levels,
                        levels == old(self).levels(),
                        finest == levels - 1,
                        lvl + 1 < levels,
                        size == level_side(lvl as nat),
                        below == level_side((lvl + 1) as nat),
                        y < size,
                        x <= size,
                        total_max::<T>(),
                        self.block_size() == old(self).block_size(),
                        self.color_map() == old(self).color_map(),
                        same_level(self@, old(self)@, finest),
                        is_pyramid_from(self@, levels, (lvl + 1) as nat),
                        forall|cx: nat, cy: nat|
                            cx < size && (cy < y || (cy == y && cx < x)) ==> #[trigger] bounds_children(
                                self@,
                                lvl as nat,
                                cx,
                                cy,
                            ),
                    decreases size - x,
                {
                    proof {
                        lemma_children_in_range(lvl as nat, x as nat, y as nat);
                    }
                    let lvl2 = lvl + 1;
                    let xx = 2 * x;
                    let yy = 2 * y;
                    let h1 = self.cell(lvl2, xx, yy);
                    let h2 = self.cell(lvl2, xx + 1, yy);
                    let h3 = self.cell(lvl2, xx + 1, yy + 1);
                    let h4 = self.cell(lvl2, xx, yy + 1);
                    let h = h1.max(h2).max(h3.max(h4));
                    let ghost before = self@;
                    proof {
                        self.lemma_wf();
                        assert(h == max_of_children(before, lvl as nat, x as nat, y as nat));
                    }
                    self.put(lvl, x, y, h);
                    proof {
                        let after = self@;
                        lemma_cell_stored(levels, lvl as nat, x as nat, y as nat);
                        assert forall|d: nat, cx: nat, cy: nat|
                            cell_in_range(levels, d, cx, cy) && (d != lvl || cx != x || cy != y)
                            implies after[cell_index(d, cx, cy) as int] == before[cell_index(
                            d,
                            cx,
                            cy,
                        ) as int] by {
                            lemma_cell_stored(levels, d, cx, cy);
                            lemma_update_frame(
                                before,
                                lvl as nat,
                                x as nat,
                                y as nat,
                                h,
                                d,
                                cx,
                                cy,
                            );
                        }
                        assert forall|d: nat, cx: nat, cy: nat|
                            d + 1 < levels && cx < level_side(d) && cy < level_side(d) && (d != lvl
                                || cx != x || cy != y) && bounds_children(before, d, cx, cy) && d
                                >= lvl implies bounds_children(after, d, cx, cy) by {
                            lemma_children_in_range(d, cx, cy);
                            assert(cell_in_range(levels, d, cx, cy));
                            assert(cell_in_range(levels, d + 1, 2 * cx, 2 * cy));
                            assert(cell_in_range(levels, d + 1, 2 * cx + 1, 2 * cy));
                            assert(cell_in_range(levels, d + 1, 2 * cx + 1, 2 * cy + 1));
                            assert(cell_in_range(levels, d + 1, 2 * cx, 2 * cy + 1));
                        }
                        assert(bounds_children(after, lvl as nat, x as nat, y as nat)) by {
                            assert(cell_in_range(levels, (lvl + 1) as nat, (2 * x) as nat, (2 * y) as nat));
                            assert(cell_in_range(levels, (lvl + 1) as nat, (2 * x + 1) as nat, (2 * y) as nat));
                            assert(cell_in_range(levels, (lvl + 1) as nat, (2 * x + 1) as nat, (2 * y + 1) as nat));
                            assert(cell_in_range(levels, (lvl + 1) as nat, (2 * x) as nat, (2 * y + 1) as nat));
                        }
                        assert forall|cx: nat, cy: nat|
                            cx < level_side(finest) && cy < level_side(finest) implies after[#[trigger] cell_index(
                            finest,
                            cx,
                            cy,
                        ) as int] == old(self)@[cell_index(finest, cx, cy) as int] by {
                            assert(cell_in_range(levels, finest, cx, cy));
                            lemma_cell_stored(levels, finest, cx, cy);
                        }
                    }
                    x = x + 1;
                }
                y = y + 1;
            }
        }
    }

    /// Writes cell `(x, y)` of level `level` and nothing else, or refuses a
    /// cell that the map does not hold and leaves the map as it was. The
    /// levels above are not brought up to date: that takes `rebuild`.
    pub fn write(&mut self, level: usize, x: usize, y: usize, val: T) -> (r: Result<
        (),
        QuadTreeError,
    >)
        requires
            old(self).wf(),
        ensures
            final(self).wf(),
            final(self).levels() == old(self).levels(),
            final(self).block_size() == old(self).block_size(),
            final(self).color_map() == old(self).color_map(),
            old(self).in_range(level as nat, x as nat, y as nat) ==> r == Ok::<(), QuadTreeError>(
                (),
            ) && final(self)@ == old(self)@.update(
                cell_index(level as nat, x as nat, y as nat) as int,
                val,
            ),
            !old(self).in_range(level as nat, x as nat, y as nat) ==> r == Err::<
                (),
                QuadTreeError,
            >(QuadTreeError::IndexOutOfRange) && final(self)@ == old(self)@,
    {
        self.quad_tree.set_value(level, x, y, val)
    }

    /// Reads cell `(x, y)` of level `level`, or refuses a cell that the map
    /// does not hold.
    pub fn read(&self, level: usize, x: usize, y: usize) -> (r: Result<T, QuadTreeError>)
        requires
            self.wf(),
        ensures
            self.in_range(level as nat, x as nat, y as nat) ==> r == Ok::<T, QuadTreeError>(
                self.height(level as nat, x as nat, y as nat),
            ),
            !self.in_range(level as nat, x as nat, y as nat) ==> r == Err::<T, QuadTreeError>(
                QuadTreeError::IndexOutOfRange,
            ),
    {
        match self.quad_tree.get_value(level, x, y) {
            Ok(value) => Ok(*value),
            Err(e) => Err(e),
        }
    }
}

} // verus!
