use height_map_test::{HeightMap, Max, Min, One, QuadTreeError, Zero, MAX_LEVELS};
use std::cell::Cell;
use std::ops::{Add, Div, Mul, Neg, Sub};

/// Double precision behind the library's scalar interface.
#[derive(Clone, Copy, Debug, PartialEq, PartialOrd)]
struct Real(f64);

impl Add for Real {
    type Output = Real;
    fn add(self, rhs: Real) -> Real {
        Real(self.0 + rhs.0)
    }
}

impl Sub for Real {
    type Output = Real;
    fn sub(self, rhs: Real) -> Real {
        Real(self.0 - rhs.0)
    }
}

impl Mul for Real {
    type Output = Real;
    fn mul(self, rhs: Real) -> Real {
        Real(self.0 * rhs.0)
    }
}

impl Div for Real {
    type Output = Real;
    fn div(self, rhs: Real) -> Real {
        Real(self.0 / rhs.0)
    }
}

impl Neg for Real {
    type Output = Real;
    fn neg(self) -> Real {
        Real(-self.0)
    }
}

impl Zero for Real {
    fn zero() -> Real {
        Real(0.0)
    }
}

impl One for Real {
    fn one() -> Real {
        Real(1.0)
    }
}

impl Min for Real {
    fn min(self, b: Real) -> Real {
        Real(self.0.min(b.0))
    }
}

impl Max for Real {
    fn max(self, b: Real) -> Real {
        Real(self.0.max(b.0))
    }
}

type Plain = HeightMap<Real, fn(Real) -> [u8; 4]>;

fn table(x: usize, y: usize) -> Real {
    Real(((x * 7 + y * 13) % 10) as f64)
}

fn build(levels: usize, sampler: fn(usize, usize) -> Real) -> Plain {
    match HeightMap::new(levels, Real(40.0), None, sampler) {
        Ok(map) => map,
        Err(e) => panic!("no height map of {} levels: {:?}", levels, e),
    }
}

fn height(map: &Plain, level: usize, x: usize, y: usize) -> f64 {
    match map.read(level, x, y) {
        Ok(h) => h.0,
        Err(e) => panic!("no cell ({}, {}) at level {}: {:?}", x, y, level, e),
    }
}

fn assert_pyramid(map: &Plain, levels: usize) {
    for level in 0..levels - 1 {
        let side = 1usize << level;
        for y in 0..side {
            for x in 0..side {
                let below = [
                    height(map, level + 1, 2 * x, 2 * y),
                    height(map, level + 1, 2 * x + 1, 2 * y),
                    height(map, level + 1, 2 * x + 1, 2 * y + 1),
                    height(map, level + 1, 2 * x, 2 * y + 1),
                ];
                let greatest = below.iter().fold(f64::NEG_INFINITY, |a, b| a.max(*b));
                assert_eq!(height(map, level, x, y), greatest);
            }
        }
    }
}

#[test]
fn a_height_map_of_no_levels_is_refused() {
    let r: Result<Plain, QuadTreeError> = HeightMap::new(0, Real(40.0), None, table);
    assert!(matches!(r, Err(QuadTreeError::NoLevels)));
}

#[test]
fn a_height_map_of_no_levels_asks_for_no_height() {
    let calls = Cell::new(0usize);
    let r: Result<HeightMap<Real, fn(Real) -> [u8; 4]>, QuadTreeError> =
        HeightMap::new(0, Real(40.0), None, |_x: usize, _y: usize| {
            calls.set(calls.get() + 1);
            Real(0.0)
        });
    assert!(matches!(r, Err(QuadTreeError::NoLevels)));
    assert_eq!(calls.get(), 0);
}

#[test]
fn a_height_map_of_too_many_levels_is_refused() {
    assert_eq!(MAX_LEVELS, 31);
    let r: Result<Plain, QuadTreeError> = HeightMap::new(32, Real(40.0), None, table);
    assert!(matches!(r, Err(QuadTreeError::TooManyLevels)));
    let r: Result<Plain, QuadTreeError> = HeightMap::new(usize::MAX, Real(40.0), None, table);
    assert!(matches!(r, Err(QuadTreeError::TooManyLevels)));
}

#[test]
fn the_finest_level_holds_the_sampled_heights() {
    let map = build(3, table);
    for y in 0..4 {
        for x in 0..4 {
            assert_eq!(map.read(2, x, y), Ok(table(x, y)));
        }
    }
}

#[test]
fn the_sampler_is_asked_once_for_each_finest_cell() {
    let calls = Cell::new(0usize);
    let seen = Cell::new(0u32);
    let r: Result<HeightMap<Real, fn(Real) -> [u8; 4]>, QuadTreeError> =
        HeightMap::new(3, Real(40.0), None, |x: usize, y: usize| {
            calls.set(calls.get() + 1);
            seen.set(seen.get() | (1 << (y * 4 + x)));
            Real(1.0)
        });
    assert!(r.is_ok());
    assert_eq!(calls.get(), 16);
    assert_eq!(seen.get(), 0xFFFF);
}

#[test]
fn every_cell_above_the_finest_holds_the_greatest_of_its_four_children() {
    let map = build(4, table);
    assert_pyramid(&map, 4);
}

#[test]
fn the_levels_above_a_small_table() {
    // finest level, row by row:  0 7 4 1 / 3 0 7 4 / 6 3 0 7 / 9 6 3 0
    let map = build(3, table);
    assert_eq!(height(&map, 1, 0, 0), 7.0);
    assert_eq!(height(&map, 1, 1, 0), 7.0);
    assert_eq!(height(&map, 1, 0, 1), 9.0);
    assert_eq!(height(&map, 1, 1, 1), 7.0);
    assert_eq!(height(&map, 0, 0, 0), 9.0);
}

#[test]
fn the_root_bounds_negative_heights_too() {
    let map = build(3, |x, y| Real(-1.0 - (x + 4 * y) as f64));
    assert_eq!(height(&map, 0, 0, 0), -1.0);
    assert_eq!(height(&map, 1, 1, 1), -11.0);
}

#[test]
fn a_height_map_of_one_level_is_a_single_cell() {
    let map = build(1, |_, _| Real(5.0));
    assert_eq!(map.read(0, 0, 0), Ok(Real(5.0)));
    assert_eq!(map.read(1, 0, 0), Err(QuadTreeError::IndexOutOfRange));
}

#[test]
fn a_written_height_reads_back() {
    let mut map = build(3, table);
    assert_eq!(map.write(2, 1, 3, Real(123.5)), Ok(()));
    assert_eq!(map.read(2, 1, 3), Ok(Real(123.5)));
}

#[test]
fn a_written_height_touches_no_other_cell() {
    let mut map = build(3, table);
    let before = build(3, table);
    assert_eq!(map.write(2, 2, 1, Real(-4.0)), Ok(()));
    for level in 0..3usize {
        let side = 1usize << level;
        for y in 0..side {
            for x in 0..side {
                if (level, x, y) != (2, 2, 1) {
                    assert_eq!(map.read(level, x, y), before.read(level, x, y));
                }
            }
        }
    }
}

#[test]
fn a_write_leaves_the_levels_above_out_of_date_until_rebuild() {
    let mut map = build(3, table);
    assert_eq!(map.write(2, 0, 0, Real(50.0)), Ok(()));
    assert_eq!(height(&map, 1, 0, 0), 7.0);
    assert_eq!(height(&map, 0, 0, 0), 9.0);
    map.rebuild();
    assert_eq!(height(&map, 2, 0, 0), 50.0);
    assert_eq!(height(&map, 1, 0, 0), 50.0);
    assert_eq!(height(&map, 0, 0, 0), 50.0);
    assert_pyramid(&map, 3);
}

#[test]
fn rebuild_derives_every_level_from_the_finest_alone() {
    let mut map = build(3, table);
    assert_eq!(map.write(0, 0, 0, Real(1000.0)), Ok(()));
    assert_eq!(map.write(1, 1, 0, Real(-1000.0)), Ok(()));
    map.rebuild();
    assert_eq!(height(&map, 0, 0, 0), 9.0);
    assert_eq!(height(&map, 1, 1, 0), 7.0);
    for y in 0..4 {
        for x in 0..4 {
            assert_eq!(map.read(2, x, y), Ok(table(x, y)));
        }
    }
}

#[test]
fn a_height_that_the_map_lacks_is_out_of_range() {
    let mut map = build(3, table);
    assert_eq!(map.read(3, 0, 0), Err(QuadTreeError::IndexOutOfRange));
    assert_eq!(map.read(2, 4, 0), Err(QuadTreeError::IndexOutOfRange));
    assert_eq!(map.read(2, 0, 4), Err(QuadTreeError::IndexOutOfRange));
    assert_eq!(map.read(1, 3, 0), Err(QuadTreeError::IndexOutOfRange));
    assert_eq!(map.write(2, 4, 4, Real(1.0)), Err(QuadTreeError::IndexOutOfRange));
    assert_eq!(map.write(0, 0, 1, Real(1.0)), Err(QuadTreeError::IndexOutOfRange));
    assert_pyramid(&map, 3);
}

#[test]
fn every_cell_holds_the_greatest_height_beneath_it() {
    let levels = 4;
    let map = build(levels, table);
    for level in 0..levels {
        let span = 1usize << (levels - 1 - level);
        let side = 1usize << level;
        for y in 0..side {
            for x in 0..side {
                let mut greatest = f64::NEG_INFINITY;
                for fy in y * span..(y + 1) * span {
                    for fx in x * span..(x + 1) * span {
                        greatest = greatest.max(table(fx, fy).0);
                    }
                }
                assert_eq!(height(&map, level, x, y), greatest);
            }
        }
    }
    assert_eq!(height(&map, 0, 0, 0), 9.0);
}
