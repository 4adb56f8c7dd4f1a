//! Where each cell of the terminal grid stands.
//!
//! Every position is computed from the endpoint and the time slot alone,
//! so a cell can be redrawn without regard to what was drawn before.
//! Coordinates are one-based. A block of rows is headed by the endpoint
//! names and set off by a blank row.

use vstd::prelude::*;

verus! {

/// The shape of the grid.
#[derive(Clone, Copy, Debug, PartialEq, Eq, Structural)]
pub struct Grid {
    /// The width of the column of row labels.
    pub header_width: usize,
    /// The width of an endpoint's column.
    pub column_width: usize,
    /// The number of rows under one header.
    pub rows_per_block: usize,
}

/// How many rows lie between two row labels.
pub const ROW_LABEL_INTERVAL: usize = 12;

impl Grid {
    /// Whether a block holds at least one row.
    pub open spec fn wf(&self) -> bool {
        self.rows_per_block > 0
    }

    /// The first screen column of endpoint `endpoint_index`.
    pub open spec fn column_at(&self, endpoint_index: usize) -> int {
        self.header_width + endpoint_index * (self.column_width + 1) + 1
    }

    /// The screen row of time slot `slot`.
    pub open spec fn row_at(&self, slot: usize) -> int {
        slot + (slot as int / self.rows_per_block as int) * 2 + 3
    }

    /// The screen row of the header of the block that `slot` belongs to.
    pub open spec fn header_row_at(&self, slot: usize) -> int {
        (slot as int / self.rows_per_block as int) * (self.rows_per_block + 2) + 2
    }

    /// A grid with ten characters of row label, twelve per endpoint and
    /// sixty rows to a block.
    pub fn standard() -> (grid: Grid)
        ensures
            grid == (Grid { header_width: 10, column_width: 12, rows_per_block: 60 }),
            grid.wf(),
    {
        Grid { header_width: 10, column_width: 12, rows_per_block: 60 }
    }

    /// The first screen column of an endpoint's cells, if the screen's
    /// coordinates reach that far.
    pub fn column_of(&self, endpoint_index: usize) -> (column: Option<u16>)
        ensures
            column == if self.column_at(endpoint_index) <= u16::MAX {
                Some(self.column_at(endpoint_index) as u16)
            } else {
                None
            },
    {
        let limit: usize = 65535;
        if self.header_width >= limit || endpoint_index > limit || self.column_width >= limit {
            proof {
                let i = endpoint_index as int;
                let w = self.column_width as int;
                assert(i * (w + 1) >= 0) by (nonlinear_arith)
                    requires
                        i >= 0,
                        w >= 0,
                ;
                if endpoint_index > limit {
                    assert(i * (w + 1) >= i) by (nonlinear_arith)
                        requires
                            i >= 0,
                            w >= 0,
                    ;
                } else if self.column_width >= limit && endpoint_index > 0 {
                    assert(i * (w + 1) >= w + 1) by (nonlinear_arith)
                        requires
                            i >= 1,
                            w >= 0,
                    ;
                }
            }
            if self.header_width < limit && endpoint_index == 0 {
                return Some((self.header_width + 1) as u16);
            }
            return None;
        }
        assert(endpoint_index as u64 * (self.column_width as u64 + 1) <= 65535 * 65535)
            by (nonlinear_arith)
            requires
                endpoint_index <= 65535,
                self.column_width < 65535,
        ;
        let x: u64 = self.header_width as u64 + endpoint_index as u64 * (self.column_width as u64
            + 1) + 1;
        if x <= 65535 {
            Some(x as u16)
        } else {
            None
        }
    }

    /// The screen row of a time slot, if the screen's coordinates reach
    /// that far.
    pub fn row_of(&self, slot: usize) -> (row: Option<u16>)
        requires
            self.wf(),
        ensures
            row == if self.row_at(slot) <= u16::MAX {
                Some(self.row_at(slot) as u16)
            } else {
                None
            },
    {
        if slot > 65535 {
            proof {
                let s = slot as int;
                let r = self.rows_per_block as int;
                assert(s / r >= 0) by (nonlinear_arith)
                    requires
                        s >= 0,
                        r > 0,
                ;
            }
            return None;
        }
        let block: u64 = (slot / self.rows_per_block) as u64;
        let y: u64 = slot as u64 + block * 2 + 3;
        if y <= 65535 {
            Some(y as u16)
        } else {
            None
        }
    }

    /// The screen row of the header above a time slot, if the screen's
    /// coordinates reach that far.
    pub fn header_row_of(&self, slot: usize) -> (row: Option<u16>)
        requires
            self.wf(),
        ensures
            row == if self.header_row_at(slot) <= u16::MAX {
                Some(self.header_row_at(slot) as u16)
            } else {
                None
            },
    {
        let block = slot / self.rows_per_block;
        assert(slot as int % self.rows_per_block as int <= slot) by (nonlinear_arith)
            requires
                slot >= 0,
                self.rows_per_block > 0,
        ;
        let first = slot - slot % self.rows_per_block;
        proof {
            let s = slot as int;
            let r = self.rows_per_block as int;
            assert((s / r) * r == s - s % r && s / r >= 0 && (s / r) * (r + 2) == (s / r) * r + (s
                / r) * 2) by (nonlinear_arith)
                requires
                    s >= 0,
                    r > 0,
            ;
            assert(s / r <= s) by (nonlinear_arith)
                requires
                    s >= 0,
                    r > 0,
            ;
        }
        if first > 65535 || block > 65535 {
            return None;
        }
        let y: u64 = first as u64 + block as u64 * 2 + 2;
        if y <= 65535 {
            Some(y as u16)
        } else {
            None
        }
    }

    /// Whether the header is drawn before the row of `slot`: at the first
    /// row of every block.
    pub fn header_due(&self, slot: usize) -> (due: bool)
        requires
            self.wf(),
        ensures
            due == (slot as int % self.rows_per_block as int == 0),
    {
        slot % self.rows_per_block == 0
    }

    /// Whether the row of `slot` carries a label: every twelfth row does.
    pub fn row_label_due(&self, slot: usize) -> (due: bool)
        ensures
            due == (slot as int % 12 == 0),
    {
        slot % ROW_LABEL_INTERVAL == 0
    }
}

/// Columns do not overlap: the cells of an endpoint end before those of
/// the next endpoint begin.
pub proof fn lemma_columns_disjoint(grid: Grid, i: usize, j: usize)
    requires
        i < j,
    ensures
        grid.column_at(i) + grid.column_width < grid.column_at(j),
        grid.column_at(i) > grid.header_width,
{
    let w = grid.column_width as int;
    assert(i * (w + 1) + (w + 1) <= j * (w + 1)) by (nonlinear_arith)
        requires
            i < j,
            w >= 0,
    ;
    assert(i * (w + 1) >= 0) by (nonlinear_arith)
        requires
            i >= 0,
            w >= 0,
    ;
}

/// Rows do not collide: a later slot lies on a lower row, and no slot
/// shares its row with a header.
pub proof fn lemma_rows_distinct(grid: Grid, s: usize, t: usize)
    requires
        grid.wf(),
        s < t,
    ensures
        grid.row_at(s) < grid.row_at(t),
        grid.header_row_at(s) < grid.row_at(s),
        grid.header_row_at(t) != grid.row_at(s),
{
    let r = grid.rows_per_block as int;
    let a = s as int;
    let b = t as int;
    assert(a / r <= b / r && a / r >= 0) by (nonlinear_arith)
        requires
            0 <= a < b,
            r > 0,
    ;
    assert((a / r) * (r + 2) == (a / r) * r + (a / r) * 2 && (a / r) * r <= a) by (nonlinear_arith)
        requires
            0 <= a,
            r > 0,
    ;
    assert((b / r) * (r + 2) == (b / r) * r + (b / r) * 2) by (nonlinear_arith);
    if a / r < b / r {
        assert((b / r) * r >= (a / r) * r + r) by (nonlinear_arith)
            requires
                a / r < b / r,
                r > 0,
        ;
        assert(a < (a / r) * r + r) by (nonlinear_arith)
            requires
                0 <= a,
                r > 0,
        ;
    }
}

} // verus!
