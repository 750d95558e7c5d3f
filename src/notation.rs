use vstd::prelude::*;

use crate::board::{File, Kind, Piece, Rank, Square};

verus! {

broadcast use {vstd::string::axiom_spec_iter, vstd::string::next_postcondition};

/// Why a notation code was rejected.
#[derive(Debug, Clone, Copy, PartialEq, Eq, Hash, Structural)]
pub enum ParseError {
    /// The file character is missing or outside `a`-`h`.
    InvalidFile,
    /// The rank part is missing or is not a single digit `1`-`8`.
    InvalidRank,
}

/// The file named by letter `c`, if any.
pub open spec fn file_of_letter(c: char) -> Option<File> {
    if c == 'a' {
        Some(File::A)
    } else if c == 'b' {
        Some(File::B)
    } else if c == 'c' {
        Some(File::C)
    } else if c == 'd' {
        Some(File::D)
    } else if c == 'e' {
        Some(File::E)
    } else if c == 'f' {
        Some(File::F)
    } else if c == 'g' {
        Some(File::G)
    } else if c == 'h' {
        Some(File::H)
    } else {
        None
    }
}

/// The rank named by digit `c`, if any.
pub open spec fn rank_of_digit(c: char) -> Option<Rank> {
    if c == '1' {
        Some(Rank::R1)
    } else if c == '2' {
        Some(Rank::R2)
    } else if c == '3' {
        Some(Rank::R3)
    } else if c == '4' {
        Some(Rank::R4)
    } else if c == '5' {
        Some(Rank::R5)
    } else if c == '6' {
        Some(Rank::R6)
    } else if c == '7' {
        Some(Rank::R7)
    } else if c == '8' {
        Some(Rank::R8)
    } else {
        None
    }
}

/// The kind named by a leading letter of a piece code; pawns have none.
pub open spec fn kind_of_letter(c: char) -> Option<Kind> {
    if c == 'R' {
        Some(Kind::Rook)
    } else if c == 'Q' {
        Some(Kind::Queen)
    } else if c == 'K' {
        Some(Kind::King)
    } else if c == 'B' {
        Some(Kind::Bishop)
    } else if c == 'N' {
        Some(Kind::Knight)
    } else {
        None
    }
}

/// A square code is a file letter followed by a rank digit and nothing
/// more. The file is checked first: a code without a valid first character
/// is an invalid file; otherwise whatever follows must be one rank digit.
pub open spec fn spec_parse_square(s: Seq<char>) -> Result<Square, ParseError> {
    if s.len() == 0 || file_of_letter(s[0]) is None {
        Err(ParseError::InvalidFile)
    } else if s.len() != 2 || rank_of_digit(s[1]) is None {
        Err(ParseError::InvalidRank)
    } else {
        Ok(Square(file_of_letter(s[0])->Some_0, rank_of_digit(s[1])->Some_0))
    }
}

/// A piece code is an optional kind letter (`R`, `Q`, `K`, `B`, `N`)
/// followed by a square code; without a kind letter the piece is a pawn.
pub open spec fn spec_parse_piece(s: Seq<char>) -> Result<Piece, ParseError> {
    let (kind, rest) = if s.len() > 0 && kind_of_letter(s[0]) is Some {
        (kind_of_letter(s[0])->Some_0, s.drop_first())
    } else {
        (Kind::Pawn, s)
    };
    match spec_parse_square(rest) {
        Ok(square) => Ok(Piece { kind, square }),
        Err(e) => Err(e),
    }
}

/// Decodes a file letter.
pub fn parse_file(c: char) -> (r: Result<File, ParseError>)
    ensures
        r == match file_of_letter(c) {
            Some(f) => Ok(f),
            None => Err(ParseError::InvalidFile),
        },
{
    match c {
        'a' => Ok(File::A),
        'b' => Ok(File::B),
        'c' => Ok(File::C),
        'd' => Ok(File::D),
        'e' => Ok(File::E),
        'f' => Ok(File::F),
        'g' => Ok(File::G),
        'h' => Ok(File::H),
        _ => Err(ParseError::InvalidFile),
    }
}

/// Decodes a rank digit.
pub fn parse_rank(c: char) -> (r: Result<Rank, ParseError>)
    ensures
        r == match rank_of_digit(c) {
            Some(k) => Ok(k),
            None => Err(ParseError::InvalidRank),
        },
{
    match c {
        '1' => Ok(Rank::R1),
        '2' => Ok(Rank::R2),
        '3' => Ok(Rank::R3),
        '4' => Ok(Rank::R4),
        '5' => Ok(Rank::R5),
        '6' => Ok(Rank::R6),
        '7' => Ok(Rank::R7),
        '8' => Ok(Rank::R8),
        _ => Err(ParseError::InvalidRank),
    }
}

/// Decodes the leading kind letter of a piece code, if it is one.
pub fn parse_kind(c: char) -> (r: Option<Kind>)
    ensures
        r == kind_of_letter(c),
{
    match c {
        'R' => Some(Kind::Rook),
        'Q' => Some(Kind::Queen),
        'K' => Some(Kind::King),
        'B' => Some(Kind::Bishop),
        'N' => Some(Kind::Knight),
        _ => None,
    }
}

fn code_chars(code: &str) -> (r: Vec<char>)
    ensures
        r@ == code@,
{
    let mut it = code.chars();
    let mut r: Vec<char> = Vec::new();
    loop
        invariant
            r@ + vstd::std_specs::iter::IteratorSpec::remaining(&it) == code@,
        decreases code@.len() - r@.len(),
    {
        let ghost before = vstd::std_specs::iter::IteratorSpec::remaining(&it);
        match it.next() {
            Some(c) => {
                r.push(c);
                assert(r@ + vstd::std_specs::iter::IteratorSpec::remaining(&it) =~= code@) by {
                    assert(before =~= seq![c] + vstd::std_specs::iter::IteratorSpec::remaining(&it));
                }
            },
            None => {
                assert(r@ =~= code@);
                return r;
            },
        }
    }
}

/// Parses the square code held in `s` from index `start` on.
fn parse_square_at(s: &Vec<char>, start: usize) -> (r: Result<Square, ParseError>)
    requires
        start <= s@.len(),
    ensures
        r == spec_parse_square(s@.skip(start as int)),
{
    if start >= s.len() {
        return Err(ParseError::InvalidFile);
    }
    let file = match parse_file(s[start]) {
        Ok(f) => f,
        Err(e) => return Err(e),
    };
    if s.len() - start != 2 {
        return Err(ParseError::InvalidRank);
    }
    let rank = match parse_rank(s[start + 1]) {
        Ok(k) => k,
        Err(e) => return Err(e),
    };
    Ok(Square(file, rank))
}

/// Parses a square code such as `e2`.
pub fn parse_square(code: &str) -> (r: Result<Square, ParseError>)
    ensures
        r == spec_parse_square(code@),
{
    let s = code_chars(code);
    assert(s@.skip(0) =~= s@);
    parse_square_at(&s, 0)
}

/// Parses a piece code such as `Ra1` (a rook on `a1`) or `e2` (a pawn on
/// `e2`).
pub fn parse_piece(code: &str) -> (r: Result<Piece, ParseError>)
    ensures
        r == spec_parse_piece(code@),
{
    let s = code_chars(code);
    let (kind, start) = if s.len() > 0 {
        match parse_kind(s[0]) {
            Some(k) => (k, 1),
            None => (Kind::Pawn, 0),
        }
    } else {
        (Kind::Pawn, 0)
    };
    assert(s@.skip(0) =~= s@);
    assert(s@.len() > 0 ==> s@.skip(1) =~= s@.drop_first());
    match parse_square_at(&s, start) {
        Ok(square) => Ok(Piece { kind, square }),
        Err(e) => Err(e),
    }
}

/// Every well-formed square code parses, and rendering the square gives the
/// code back.
pub proof fn lemma_square_code_round_trip(s: Seq<char>)
    requires
        s.len() == 2,
        'a' <= s[0] <= 'h',
        '1' <= s[1] <= '8',
    ensures
        spec_parse_square(s) is Ok,
        spec_parse_square(s)->Ok_0.spec_code() == s,
{
    assert(spec_parse_square(s)->Ok_0.spec_code() =~= s);
}

/// Rendering a square and parsing the result gives the same square.
pub proof fn lemma_square_render_round_trip(sq: Square)
    ensures
        spec_parse_square(sq.spec_code()) == Ok::<Square, ParseError>(sq),
{
}

/// A code whose first character is no file letter is an invalid file; one
/// with a valid file letter and no valid rank digit after it is an invalid
/// rank.
pub proof fn lemma_square_rejection(s: Seq<char>)
    ensures
        (s.len() == 0 || !('a' <= s[0] <= 'h')) ==> spec_parse_square(s) == Err::<
            Square,
            ParseError,
        >(ParseError::InvalidFile),
        (s.len() > 0 && 'a' <= s[0] <= 'h' && (s.len() != 2 || !('1' <= s[1] <= '8')))
            ==> spec_parse_square(s) == Err::<Square, ParseError>(ParseError::InvalidRank),
{
}

} // verus!
