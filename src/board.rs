use vstd::prelude::*;

verus! {

/// A column of the board, `a` to `h`.
#[derive(Debug, Clone, Copy, PartialEq, Eq, Hash, Structural)]
pub enum File {
    A,
    B,
    C,
    D,
    E,
    F,
    G,
    H,
}

/// A row of the board, `1` to `8`.
#[derive(Debug, Clone, Copy, PartialEq, Eq, Hash, Structural)]
pub enum Rank {
    R1,
    R2,
    R3,
    R4,
    R5,
    R6,
    R7,
    R8,
}

/// One of the 64 cells of the board.
#[derive(Debug, Clone, Copy, PartialEq, Eq, Hash, Structural)]
pub struct Square(pub File, pub Rank);

/// The type of a chess piece.
#[derive(Debug, Clone, Copy, PartialEq, Eq, Hash, Structural)]
pub enum Kind {
    Bishop,
    King,
    Knight,
    Pawn,
    Queen,
    Rook,
}

/// A piece of some kind standing on a square.
#[derive(Debug, Clone, Copy, PartialEq, Eq, Hash, Structural)]
pub struct Piece {
    pub kind: Kind,
    pub square: Square,
}

impl File {
    /// Column number, 0 for `a` up to 7 for `h`.
    pub open spec fn spec_index(self) -> int {
        match self {
            File::A => 0,
            File::B => 1,
            File::C => 2,
            File::D => 3,
            File::E => 4,
            File::F => 5,
            File::G => 6,
            File::H => 7,
        }
    }

    /// The file with column number `i`.
    pub open spec fn spec_from_index(i: int) -> File {
        if i == 0 {
            File::A
        } else if i == 1 {
            File::B
        } else if i == 2 {
            File::C
        } else if i == 3 {
            File::D
        } else if i == 4 {
            File::E
        } else if i == 5 {
            File::F
        } else if i == 6 {
            File::G
        } else {
            File::H
        }
    }

    /// The letter that names the file in notation.
    pub open spec fn spec_letter(self) -> char {
        match self {
            File::A => 'a',
            File::B => 'b',
            File::C => 'c',
            File::D => 'd',
            File::E => 'e',
            File::F => 'f',
            File::G => 'g',
            File::H => 'h',
        }
    }

    pub fn index(self) -> (r: u8)
        ensures
            r as int == self.spec_index(),
            r < 8,
    {
        match self {
            File::A => 0,
            File::B => 1,
            File::C => 2,
            File::D => 3,
            File::E => 4,
            File::F => 5,
            File::G => 6,
            File::H => 7,
        }
    }

    pub fn from_index(i: u8) -> (r: File)
        requires
            i < 8,
        ensures
            r == File::spec_from_index(i as int),
            r.spec_index() == i as int,
    {
        match i {
            0 => File::A,
            1 => File::B,
            2 => File::C,
            3 => File::D,
            4 => File::E,
            5 => File::F,
            6 => File::G,
            _ => File::H,
        }
    }

    pub fn letter(self) -> (r: char)
        ensures
            r == self.spec_letter(),
    {
        match self {
            File::A => 'a',
            File::B => 'b',
            File::C => 'c',
            File::D => 'd',
            File::E => 'e',
            File::F => 'f',
            File::G => 'g',
            File::H => 'h',
        }
    }
}

impl Rank {
    /// Row number, 0 for `1` up to 7 for `8`.
    pub open spec fn spec_index(self) -> int {
        match self {
            Rank::R1 => 0,
            Rank::R2 => 1,
            Rank::R3 => 2,
            Rank::R4 => 3,
            Rank::R5 => 4,
            Rank::R6 => 5,
            Rank::R7 => 6,
            Rank::R8 => 7,
        }
    }

    /// The rank with row number `i`.
    pub open spec fn spec_from_index(i: int) -> Rank {
        if i == 0 {
            Rank::R1
        } else if i == 1 {
            Rank::R2
        } else if i == 2 {
            Rank::R3
        } else if i == 3 {
            Rank::R4
        } else if i == 4 {
            Rank::R5
        } else if i == 5 {
            Rank::R6
        } else if i == 6 {
            Rank::R7
        } else {
            Rank::R8
        }
    }

    /// The digit that names the rank in notation.
    pub open spec fn spec_digit(self) -> char {
        match self {
            Rank::R1 => '1',
            Rank::R2 => '2',
            Rank::R3 => '3',
            Rank::R4 => '4',
            Rank::R5 => '5',
            Rank::R6 => '6',
            Rank::R7 => '7',
            Rank::R8 => '8',
        }
    }

    pub fn index(self) -> (r: u8)
        ensures
            r as int == self.spec_index(),
            r < 8,
    {
        match self {
            Rank::R1 => 0,
            Rank::R2 => 1,
            Rank::R3 => 2,
            Rank::R4 => 3,
            Rank::R5 => 4,
            Rank::R6 => 5,
            Rank::R7 => 6,
            Rank::R8 => 7,
        }
    }

    pub fn from_index(i: u8) -> (r: Rank)
        requires
            i < 8,
        ensures
            r == Rank::spec_from_index(i as int),
            r.spec_index() == i as int,
    {
        match i {
            0 => Rank::R1,
            1 => Rank::R2,
            2 => Rank::R3,
            3 => Rank::R4,
            4 => Rank::R5,
            5 => Rank::R6,
            6 => Rank::R7,
            _ => Rank::R8,
        }
    }

    pub fn digit(self) -> (r: char)
        ensures
            r == self.spec_digit(),
    {
        match self {
            Rank::R1 => '1',
            Rank::R2 => '2',
            Rank::R3 => '3',
            Rank::R4 => '4',
            Rank::R5 => '5',
            Rank::R6 => '6',
            Rank::R7 => '7',
            Rank::R8 => '8',
        }
    }
}

impl Square {
    /// The two characters that name the square, file letter then rank digit.
    pub open spec fn spec_code(self) -> Seq<char> {
        seq![self.0.spec_letter(), self.1.spec_digit()]
    }

    /// Position of the square when the board is read rank by rank from `a1`.
    pub open spec fn spec_index(self) -> int {
        self.1.spec_index() * 8 + self.0.spec_index()
    }

    /// Renders the square in notation, e.g. `e4`.
    pub fn code(&self) -> (r: Vec<char>)
        ensures
            r@ == self.spec_code(),
    {
        let mut r: Vec<char> = Vec::new();
        r.push(self.0.letter());
        r.push(self.1.digit());
        r
    }
}

} // verus!
