//! The terrain model: which cells can be stood on, how high they lie, and
//! which moves between neighbouring cells are legal.

use vstd::prelude::*;
use vstd::arithmetic::div_mod::lemma_fundamental_div_mod_converse;
use crate::fixed::{clamp_i32, saturate, Fixed};
use crate::text::same_text;
use crate::vector2d::Vector2D;
use crate::vector2di::Vector2Di;

verus! {

/// Whether a cell is part of a staircase, and which way the stair rises.
#[derive(Debug, Copy, Clone, PartialEq, Eq, Structural)]
pub enum StepType {
    /// Not part of a staircase.
    NoStep,
    /// Rises eastward.
    Left,
    /// Falls eastward.
    Right,
}

/// The step type that a map source names: `left`, `right`, or anything else
/// for a cell that is no step.
pub open spec fn step_type_named(name: Seq<char>) -> StepType {
    if name == "left"@ {
        StepType::Left
    } else if name == "right"@ {
        StepType::Right
    } else {
        StepType::NoStep
    }
}

/// Reads a step type from the name that a map source gives it.
pub fn get_step_type(step_type: &str) -> (r: StepType)
    ensures
        r == step_type_named(step_type@),
{
    if same_text(step_type, "left") {
        StepType::Left
    } else if same_text(step_type, "right") {
        StepType::Right
    } else {
        StepType::NoStep
    }
}

/// One cell of the terrain.
#[derive(Debug, Copy, Clone, PartialEq, Eq, Structural)]
pub struct LogicCell {
    pub walkable: bool,
    pub height: i32,
    pub step_type: StepType,
}

/// A row-major grid of optional cells. An absent cell cannot be walked on
/// and lies at height 0.
#[derive(Debug)]
pub struct LogicMap {
    map_data: Vec<Option<LogicCell>>,
    width: usize,
    height: usize,
    cell_size: Fixed,
}

/// Floor division by a positive number.
pub fn floor_div(a: i32, c: i32) -> (q: i32)
    requires
        c > 0,
    ensures
        q == (a as int) / (c as int),
{
    if a >= 0 {
        a / c
    } else {
        let m: i64 = -(a as i64);
        let d: i64 = c as i64;
        let n: i64 = m + d - 1;
        let q: i64 = n / d;
        let r: i64 = n % d;
        proof {
            assert(n == d * q + r) by (nonlinear_arith)
                requires
                    q == n / d,
                    r == n % d,
                    d > 0,
            ;
            assert(0 <= q <= n) by (nonlinear_arith)
                requires
                    q == n / d,
                    n >= 0,
                    d > 0,
            ;
            assert(a as int == (-q) * d + (d - 1 - r)) by (nonlinear_arith)
                requires
                    n == d * q + r,
                    n == -a + d - 1,
            ;
            assert(q <= m) by (nonlinear_arith)
                requires
                    n == d * q + r,
                    n == m + d - 1,
                    0 <= r,
                    d >= 1,
                    m >= 1,
                    q >= 0,
            ;
            lemma_fundamental_div_mod_converse(a as int, d as int, -q as int, (d - 1 - r) as int);
        }
        (-q) as i32
    }
}

impl LogicMap {
    /// The number of columns.
    pub closed spec fn spec_width(&self) -> nat {
        self.width as nat
    }

    /// The number of rows.
    pub closed spec fn spec_height(&self) -> nat {
        self.height as nat
    }

    /// The side of a cell in world units.
    pub closed spec fn spec_cell_size(&self) -> Fixed {
        self.cell_size
    }

    /// The cells, row by row.
    pub closed spec fn cells(&self) -> Seq<Option<LogicCell>> {
        self.map_data@
    }

    /// The invariant of the type: one entry per cell, and a positive cell
    /// size. The constructors establish it and every method keeps it.
    pub open spec fn valid(&self) -> bool {
        &&& self.cells().len() == self.spec_width() * self.spec_height()
        &&& self.spec_cell_size().raw > 0
    }

    /// Whether `(i, j)` lies on the grid.
    pub open spec fn in_bounds(&self, i: int, j: int) -> bool {
        0 <= i < self.spec_width() && 0 <= j < self.spec_height()
    }

    /// The cell at column `i`, row `j`; absent outside the grid.
    pub open spec fn cell_at(&self, i: int, j: int) -> Option<LogicCell> {
        if self.in_bounds(i, j) {
            self.cells()[j * self.spec_width() + i]
        } else {
            None
        }
    }

    pub open spec fn spec_is_walkable(&self, i: int, j: int) -> bool {
        match self.cell_at(i, j) {
            Some(cell) => cell.walkable,
            None => false,
        }
    }

    /// The height of cell `(i, j)`; 0 where there is no cell.
    pub open spec fn level(&self, i: int, j: int) -> int {
        match self.cell_at(i, j) {
            Some(cell) => cell.height as int,
            None => 0,
        }
    }

    pub open spec fn spec_step_type(&self, c: Vector2Di) -> StepType {
        match self.cell_at(c.x as int, c.y as int) {
            Some(cell) => cell.step_type,
            None => StepType::NoStep,
        }
    }

    /// Whether a character may move from cell `from` to cell `to`: `to` must
    /// be walkable, and either both cells are steps or they lie at the same
    /// height.
    pub open spec fn spec_is_walkable_from(&self, from: Vector2Di, to: Vector2Di) -> bool {
        &&& self.spec_is_walkable(to.x as int, to.y as int)
        &&& {
            ||| (self.spec_step_type(from) != StepType::NoStep && self.spec_step_type(to)
                != StepType::NoStep)
            ||| self.level(from.x as int, from.y as int) == self.level(to.x as int, to.y as int)
        }
    }

    /// The cell that holds the world position `p`.
    pub open spec fn spec_cell_of(&self, p: Vector2D) -> Vector2Di {
        Vector2Di {
            x: ((p.x.raw as int) / (self.spec_cell_size().raw as int)) as i32,
            y: ((p.y.raw as int) / (self.spec_cell_size().raw as int)) as i32,
        }
    }

    /// The world position of the centre of cell `c`, saturated.
    pub open spec fn spec_center_of(&self, c: Vector2Di) -> Vector2D {
        let size = self.spec_cell_size().raw as int;
        Vector2D {
            x: Fixed { raw: clamp_i32(c.x * size + size / 2) },
            y: Fixed { raw: clamp_i32(c.y * size + size / 2) },
        }
    }

    /// A map of `width * height` absent cells with the default cell size of
    /// 64 units.
    pub fn new(width: usize, height: usize) -> (r: Self)
        requires
            width * height <= usize::MAX,
        ensures
            r.valid(),
            r.spec_width() == width,
            r.spec_height() == height,
            r.spec_cell_size().raw == 64_000,
            r.cells() == Seq::new((width * height) as nat, |k: int| None::<LogicCell>),
    {
        let n: usize = width * height;
        let mut data: Vec<Option<LogicCell>> = Vec::new();
        while data.len() < n
            invariant
                data@.len() <= n,
                forall|k: int| 0 <= k < data@.len() ==> data@[k] == None::<LogicCell>,
            decreases n - data@.len(),
        {
            data.push(None);
        }
        assert(data@ =~= Seq::new(n as nat, |k: int| None::<LogicCell>));
        LogicMap { map_data: data, width, height, cell_size: Fixed { raw: 64_000 } }
    }

    /// Builds a map from stored parts. Returns `None` unless there is
    /// exactly one entry per cell and the cell size is positive.
    pub fn from_parts(
        cells: Vec<Option<LogicCell>>,
        width: usize,
        height: usize,
        cell_size: Fixed,
    ) -> (r: Option<Self>)
        ensures
            r is Some <==> (cells@.len() == width * height && cell_size.raw > 0),
            r is Some ==> {
                &&& r->0.valid()
                &&& r->0.cells() == cells@
                &&& r->0.spec_width() == width
                &&& r->0.spec_height() == height
                &&& r->0.spec_cell_size() == cell_size
            },
    {
        let len: usize = cells.len();
        if cell_size.raw <= 0 {
            return None;
        }
        match width.checked_mul(height) {
            Some(n) => {
                if n == len {
                    Some(LogicMap { map_data: cells, width, height, cell_size })
                } else {
                    None
                }
            },
            None => None,
        }
    }

    /// The number of columns.
    pub fn width(&self) -> (r: usize)
        ensures
            r == self.spec_width(),
    {
        self.width
    }

    /// The number of rows.
    pub fn height(&self) -> (r: usize)
        ensures
            r == self.spec_height(),
    {
        self.height
    }

    /// The side of a cell in world units.
    pub fn cell_size(&self) -> (r: Fixed)
        requires
            self.valid(),
        ensures
            r == self.spec_cell_size(),
            r.raw > 0,
    {
        self.cell_size
    }

    /// The stored cell with index `k`, row by row.
    pub fn cell(&self, k: usize) -> (r: Option<LogicCell>)
        requires
            k < self.cells().len(),
        ensures
            r == self.cells()[k as int],
    {
        self.map_data[k]
    }

    /// Changes the size of the grid. The stored cells keep their index: the
    /// sequence is cut or padded with absent cells at its end.
    pub fn set_size(&mut self, width: usize, height: usize)
        requires
            old(self).valid(),
            width * height <= usize::MAX,
        ensures
            final(self).valid(),
            final(self).spec_width() == width,
            final(self).spec_height() == height,
            final(self).spec_cell_size() == old(self).spec_cell_size(),
            final(self).cells().len() == width * height,
            forall|k: int|
                0 <= k < width * height ==> final(self).cells()[k] == if k < old(self).cells().len() {
                    old(self).cells()[k]
                } else {
                    None
                },
    {
        let n: usize = width * height;
        let mut data: Vec<Option<LogicCell>> = Vec::new();
        while data.len() < n
            invariant
                data@.len() <= n,
                forall|k: int|
                    0 <= k < data@.len() ==> data@[k] == if k < self.map_data@.len() {
                        self.map_data@[k]
                    } else {
                        None
                    },
            decreases n - data@.len(),
        {
            let k: usize = data.len();
            if k < self.map_data.len() {
                data.push(self.map_data[k]);
            } else {
                data.push(None);
            }
        }
        self.map_data = data;
        self.width = width;
        self.height = height;
    }

    /// The number of stored cells.
    pub fn get_data_len(&self) -> (r: usize)
        ensures
            r == self.cells().len(),
    {
        self.map_data.len()
    }

    /// The index at which `set_cell(i, j, ..)` writes.
    pub open spec fn slot(&self, i: int, j: int) -> int {
        j * self.spec_width() + i
    }

    /// Stores `cell` at index `j * width + i`. Does nothing when that index
    /// lies beyond the stored cells.
    pub fn set_cell(&mut self, i: usize, j: usize, cell: Option<LogicCell>)
        ensures
            old(self).valid() ==> final(self).valid(),
            final(self).spec_width() == old(self).spec_width(),
            final(self).spec_height() == old(self).spec_height(),
            final(self).spec_cell_size() == old(self).spec_cell_size(),
            final(self).cells() == if old(self).slot(i as int, j as int) < old(self).cells().len() {
                old(self).cells().update(old(self).slot(i as int, j as int), cell)
            } else {
                old(self).cells()
            },
    {
        let len: usize = self.map_data.len();
        let offset: Option<usize> = match j.checked_mul(self.width) {
            Some(row) => row.checked_add(i),
            None => None,
        };
        match offset {
            Some(k) => {
                if k < len {
                    self.map_data.set(k, cell);
                }
            },
            None => {},
        }
    }

    fn get_data_offset(&self, i: i32, j: i32) -> (r: Option<usize>)
        requires
            self.valid(),
        ensures
            r is Some <==> self.in_bounds(i as int, j as int),
            r is Some ==> r->0 == j * self.spec_width() + i && r->0 < self.cells().len(),
    {
        let len: usize = self.map_data.len();
        if i < 0 || j < 0 {
            return None;
        }
        let iu: usize = i as usize;
        let ju: usize = j as usize;
        if iu >= self.width || ju >= self.height {
            return None;
        }
        assert(ju * self.width + iu < self.width * self.height) by (nonlinear_arith)
            requires
                iu < self.width,
                ju < self.height,
        ;
        Some(ju * self.width + iu)
    }

    /// Whether cell `(i, j)` exists and may be stood on.
    pub fn is_walkable(&self, i: i32, j: i32) -> (r: bool)
        requires
            self.valid(),
        ensures
            r == self.spec_is_walkable(i as int, j as int),
    {
        match self.get_data_offset(i, j) {
            Some(offset) => match self.map_data[offset] {
                Some(cell) => cell.walkable,
                None => false,
            },
            None => false,
        }
    }

    /// The height of cell `(i, j)`, or 0 where there is none.
    pub fn get_cell_level(&self, i: i32, j: i32) -> (r: i32)
        requires
            self.valid(),
        ensures
            r == self.level(i as int, j as int),
    {
        match self.get_data_offset(i, j) {
            Some(offset) => match self.map_data[offset] {
                Some(cell) => cell.height,
                None => 0,
            },
            None => 0,
        }
    }

    /// The step type of the cell at `coordinate`, `NoStep` where there is no
    /// cell.
    pub fn get_step_type(&self, coordinate: Vector2Di) -> (r: StepType)
        requires
            self.valid(),
        ensures
            r == self.spec_step_type(coordinate),
    {
        match self.get_data_offset(coordinate.x, coordinate.y) {
            Some(offset) => match self.map_data[offset] {
                Some(cell) => cell.step_type,
                None => StepType::NoStep,
            },
            None => StepType::NoStep,
        }
    }

    /// The height of `cell2` above `cell1`.
    pub fn cmp_levels(&self, cell1: Vector2Di, cell2: Vector2Di) -> (r: i32)
        requires
            self.valid(),
            i32::MIN <= level_delta(self, cell1, cell2) <= i32::MAX,
        ensures
            r == level_delta(self, cell1, cell2),
    {
        self.get_cell_level(cell2.x, cell2.y) - self.get_cell_level(cell1.x, cell1.y)
    }

    /// Whether a character may move from `from_position` to `to_position`.
    pub fn is_walkable_from(&self, from_position: Vector2Di, to_position: Vector2Di) -> (r: bool)
        requires
            self.valid(),
        ensures
            r == self.spec_is_walkable_from(from_position, to_position),
    {
        if !self.is_walkable(to_position.x, to_position.y) {
            return false;
        }
        if self.get_step_type(from_position) != StepType::NoStep && self.get_step_type(to_position)
            != StepType::NoStep {
            return true;
        }
        self.get_cell_level(from_position.x, from_position.y) == self.get_cell_level(
            to_position.x,
            to_position.y,
        )
    }

    /// The grid cell that holds the world position `position`: each
    /// coordinate divided by the cell size and rounded down.
    pub fn get_cell_position(&self, position: Vector2D) -> (r: Vector2Di)
        requires
            self.valid(),
        ensures
            r == self.spec_cell_of(position),
    {
        Vector2Di {
            x: floor_div(position.x.raw, self.cell_size.raw),
            y: floor_div(position.y.raw, self.cell_size.raw),
        }
    }

    /// The world position of the centre of `cell`.
    pub fn get_screen_position(&self, cell: Vector2Di) -> (r: Vector2D)
        requires
            self.valid(),
        ensures
            r == self.spec_center_of(cell),
    {
        let size: i128 = self.cell_size.raw as i128;
        let half: i128 = size / 2;
        assert(-0x4000_0000_0000_0000 <= cell.x * size <= 0x4000_0000_0000_0000) by (nonlinear_arith)
            requires
                -0x8000_0000 <= cell.x <= 0x8000_0000,
                0 <= size <= 0x8000_0000,
        ;
        assert(-0x4000_0000_0000_0000 <= cell.y * size <= 0x4000_0000_0000_0000) by (nonlinear_arith)
            requires
                -0x8000_0000 <= cell.y <= 0x8000_0000,
                0 <= size <= 0x8000_0000,
        ;
        Vector2D {
            x: Fixed { raw: saturate(cell.x as i128 * size + half) },
            y: Fixed { raw: saturate(cell.y as i128 * size + half) },
        }
    }
}

/// The height of `cell2` above `cell1`, as a mathematical integer.
pub open spec fn level_delta(map: &LogicMap, cell1: Vector2Di, cell2: Vector2Di) -> int {
    map.level(cell2.x as int, cell2.y as int) - map.level(cell1.x as int, cell1.y as int)
}

/// Between two step cells the height does not matter: the move is legal as
/// soon as the destination is walkable. Where one of the two cells is no step
/// and the heights differ, the move is illegal, though both cells be
/// walkable.
pub proof fn lemma_staircase_rule(map: &LogicMap, from: Vector2Di, to: Vector2Di)
    requires
        map.valid(),
    ensures
        map.spec_step_type(from) != StepType::NoStep && map.spec_step_type(to) != StepType::NoStep
            && map.spec_is_walkable(to.x as int, to.y as int) ==> map.spec_is_walkable_from(
            from,
            to,
        ),
        (map.spec_step_type(from) == StepType::NoStep || map.spec_step_type(to)
            == StepType::NoStep) && level_delta(map, from, to) != 0
            ==> !map.spec_is_walkable_from(from, to),
{
}

} // verus!
