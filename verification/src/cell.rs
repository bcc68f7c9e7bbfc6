//! The state of one cell and the rule that takes it to the next generation.

use vstd::prelude::*;

verus! {

/// One cell of the grid.
#[derive(Clone, Copy, Debug, PartialEq, Eq, Structural)]
pub enum Cell {
    Dead,
    Alive,
}

impl Cell {
    /// What the cell adds to a count of live cells: 1 when alive, 0 when dead.
    pub open spec fn weight(self) -> int {
        match self {
            Cell::Dead => 0,
            Cell::Alive => 1,
        }
    }

    /// The cell's state in the next generation, given how many of its
    /// neighbours are alive now. A live cell survives on exactly two or three
    /// live neighbours and dies on fewer or more; a dead cell comes alive on
    /// exactly three and stays dead otherwise.
    pub open spec fn evolved(self, live_neighbors: int) -> Cell {
        match self {
            Cell::Alive => if live_neighbors == 2 || live_neighbors == 3 {
                Cell::Alive
            } else {
                Cell::Dead
            },
            Cell::Dead => if live_neighbors == 3 {
                Cell::Alive
            } else {
                Cell::Dead
            },
        }
    }

    /// The symbol that stands for the cell in a rendered grid.
    pub open spec fn glyph(self) -> char {
        match self {
            Cell::Dead => '\u{25FB}',
            Cell::Alive => '\u{25FC}',
        }
    }

    /// The cell as a number: 0 for dead, 1 for alive.
    pub fn as_u8(self) -> (n: u8)
        ensures
            n == self.weight(),
    {
        match self {
            Cell::Dead => 0,
            Cell::Alive => 1,
        }
    }

    /// The cell's glyph as a string of one character.
    pub fn symbol(self) -> (symbol: &'static str)
        ensures
            symbol@ == seq![self.glyph()],
    {
        proof {
            reveal_strlit("\u{25FB}");
            reveal_strlit("\u{25FC}");
        }
        if self == Cell::Dead {
            "\u{25FB}"
        } else {
            "\u{25FC}"
        }
    }

    /// Applies the rule of life to one cell with `live_neighbors` live
    /// neighbours.
    pub fn next_state(self, live_neighbors: u8) -> (next: Cell)
        ensures
            next == self.evolved(live_neighbors as int),
    {
        match (self, live_neighbors) {
            (Cell::Alive, x) if x < 2 => Cell::Dead,
            (Cell::Alive, x) if x == 2 || x == 3 => Cell::Alive,
            (Cell::Alive, x) if x > 3 => Cell::Dead,
            (Cell::Dead, x) if x == 3 => Cell::Alive,
            (otherwise, _) => otherwise,
        }
    }
}

} // verus!
