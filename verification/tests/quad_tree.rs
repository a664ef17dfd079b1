use height_map_test::{QuadTree, QuadTreeError};

fn tree(levels: usize, fill: i32) -> QuadTree<i32> {
    match QuadTree::new(levels, fill) {
        Ok(tree) => tree,
        Err(e) => panic!("no tree of {} levels: {:?}", levels, e),
    }
}

#[test]
fn a_tree_of_no_levels_is_refused() {
    assert!(matches!(QuadTree::new(0, 0i32), Err(QuadTreeError::NoLevels)));
}

#[test]
fn a_tree_of_too_many_levels_is_refused() {
    assert!(matches!(QuadTree::new(33, 0u8), Err(QuadTreeError::TooManyLevels)));
    assert!(matches!(QuadTree::new(usize::MAX, 0u8), Err(QuadTreeError::TooManyLevels)));
}

#[test]
fn a_new_tree_holds_the_default_in_every_cell() {
    let t = tree(3, 7);
    for depth in 0..3usize {
        let side = 1usize << depth;
        for y in 0..side {
            for x in 0..side {
                assert_eq!(t.get_value(depth, x, y), Ok(&7));
            }
        }
    }
}

#[test]
fn a_tree_knows_its_levels_and_their_sides() {
    let t = tree(4, 0);
    assert_eq!(t.level_count(), 4);
    assert_eq!(t.side(0), Some(1));
    assert_eq!(t.side(1), Some(2));
    assert_eq!(t.side(3), Some(8));
    assert_eq!(t.side(4), None);
}

#[test]
fn a_tree_of_one_level_is_its_root() {
    let mut t = tree(1, 5);
    assert_eq!(t.get_value(0, 0, 0), Ok(&5));
    assert_eq!(t.set_value(0, 0, 0, 6), Ok(()));
    assert_eq!(t.get_value(0, 0, 0), Ok(&6));
    assert_eq!(t.get_value(1, 0, 0), Err(QuadTreeError::IndexOutOfRange));
    assert_eq!(t.get_value(0, 1, 0), Err(QuadTreeError::IndexOutOfRange));
}

#[test]
fn a_written_cell_reads_back() {
    let mut t = tree(3, 0);
    assert_eq!(t.set_value(2, 3, 1, 42), Ok(()));
    assert_eq!(t.get_value(2, 3, 1), Ok(&42));
}

#[test]
fn a_write_touches_no_other_cell() {
    let mut t = tree(3, 0);
    assert_eq!(t.set_value(1, 1, 0, 9), Ok(()));
    for depth in 0..3usize {
        let side = 1usize << depth;
        for y in 0..side {
            for x in 0..side {
                let expected = if (depth, x, y) == (1, 1, 0) { 9 } else { 0 };
                assert_eq!(t.get_value(depth, x, y), Ok(&expected));
            }
        }
    }
}

#[test]
fn every_cell_has_a_place_of_its_own() {
    let mut t = tree(3, 0);
    let mut next = 1;
    for depth in 0..3usize {
        let side = 1usize << depth;
        for y in 0..side {
            for x in 0..side {
                assert_eq!(t.set_value(depth, x, y, next), Ok(()));
                next += 1;
            }
        }
    }
    let mut expected = 1;
    for depth in 0..3usize {
        let side = 1usize << depth;
        for y in 0..side {
            for x in 0..side {
                assert_eq!(t.get_value(depth, x, y), Ok(&expected));
                expected += 1;
            }
        }
    }
    assert_eq!(expected, 22);
}

#[test]
fn a_level_that_the_tree_lacks_is_out_of_range() {
    let mut t = tree(3, 0);
    assert_eq!(t.get_value(3, 0, 0), Err(QuadTreeError::IndexOutOfRange));
    assert_eq!(t.set_value(3, 0, 0, 1), Err(QuadTreeError::IndexOutOfRange));
    assert_eq!(t.get_value(usize::MAX, 0, 0), Err(QuadTreeError::IndexOutOfRange));
}

#[test]
fn a_column_or_row_beyond_the_side_is_out_of_range() {
    let mut t = tree(3, 0);
    assert_eq!(t.get_value(1, 2, 0), Err(QuadTreeError::IndexOutOfRange));
    assert_eq!(t.get_value(1, 0, 2), Err(QuadTreeError::IndexOutOfRange));
    assert_eq!(t.get_value(2, 4, 3), Err(QuadTreeError::IndexOutOfRange));
    assert_eq!(t.set_value(0, 1, 0, 1), Err(QuadTreeError::IndexOutOfRange));
    assert_eq!(t.get_value(2, usize::MAX, usize::MAX), Err(QuadTreeError::IndexOutOfRange));
}

#[test]
fn a_column_beyond_the_side_does_not_reach_into_the_next_row() {
    let mut t = tree(2, 0);
    assert_eq!(t.set_value(1, 1, 1, 8), Ok(()));
    assert_eq!(t.get_value(1, 3, 0), Err(QuadTreeError::IndexOutOfRange));
    assert_eq!(t.set_value(1, 3, 0, 5), Err(QuadTreeError::IndexOutOfRange));
    assert_eq!(t.get_value(1, 1, 1), Ok(&8));
}

#[test]
fn a_refused_write_leaves_the_tree_as_it_was() {
    let mut t = tree(2, 3);
    assert_eq!(t.set_value(5, 0, 0, 1), Err(QuadTreeError::IndexOutOfRange));
    for (depth, x, y) in [(0, 0, 0), (1, 0, 0), (1, 1, 0), (1, 0, 1), (1, 1, 1)] {
        assert_eq!(t.get_value(depth, x, y), Ok(&3));
    }
}
