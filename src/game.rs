use vstd::prelude::*;

use crate::board::{File, Kind, Piece, Rank, Square};
use crate::notation::{parse_piece, spec_parse_piece, ParseError};

verus! {

/// The pieces of both sides; the colour of a piece is the list that holds it.
#[derive(Debug)]
pub struct Game {
    pub black_pieces: Vec<Piece>,
    pub white_pieces: Vec<Piece>,
}

/// The kind of the piece that starts on column `i` of a back rank.
pub open spec fn back_rank_kind(i: int) -> Kind {
    if i == 0 || i == 7 {
        Kind::Rook
    } else if i == 1 || i == 6 {
        Kind::Knight
    } else if i == 2 || i == 5 {
        Kind::Bishop
    } else if i == 3 {
        Kind::Queen
    } else {
        Kind::King
    }
}

/// One side of the starting position: the back rank from `a` to `h`, then
/// the pawns from `a` to `h`.
pub open spec fn start_side(back: Rank, pawns: Rank) -> Seq<Piece> {
    Seq::new(
        16,
        |i: int|
            if i < 8 {
                Piece { kind: back_rank_kind(i), square: Square(File::spec_from_index(i), back) }
            } else {
                Piece { kind: Kind::Pawn, square: Square(File::spec_from_index(i - 8), pawns) }
            },
    )
}

/// The codes of `codes` all parse, and `pieces` holds what they give, in
/// order.
pub open spec fn parsed_as(codes: Seq<&str>, pieces: Seq<Piece>) -> bool {
    &&& pieces.len() == codes.len()
    &&& forall|i: int|
        0 <= i < codes.len() ==> spec_parse_piece(#[trigger] codes[i]@) == Ok::<
            Piece,
            ParseError,
        >(pieces[i])
}

/// `e` is the error of the first code of `codes` that does not parse.
pub open spec fn first_error(codes: Seq<&str>, e: ParseError) -> bool {
    exists|i: int|
        0 <= i < codes.len() && spec_parse_piece(#[trigger] codes[i]@) == Err::<Piece, ParseError>(
            e,
        ) && forall|j: int| 0 <= j < i ==> spec_parse_piece(#[trigger] codes[j]@) is Ok
}

/// Parses each piece code in turn, keeping their order; the first code
/// that does not parse decides the error.
pub fn parse_pieces(codes: &Vec<&str>) -> (r: Result<Vec<Piece>, ParseError>)
    ensures
        r is Ok <==> forall|i: int| 0 <= i < codes@.len() ==> spec_parse_piece(#[trigger] codes@[i]@) is Ok,
        r matches Ok(v) ==> parsed_as(codes@, v@),
        r matches Err(e) ==> first_error(codes@, e),
{
    let mut v: Vec<Piece> = Vec::new();
    let mut i: usize = 0;
    while i < codes.len()
        invariant
            0 <= i <= codes@.len(),
            v@.len() == i,
            forall|j: int| 0 <= j < i ==> spec_parse_piece(#[trigger] codes@[j]@) == Ok::<
                Piece,
                ParseError,
            >(v@[j]),
        decreases codes@.len() - i,
    {
        match parse_piece(codes[i]) {
            Ok(p) => v.push(p),
            Err(e) => {
                assert(spec_parse_piece(codes@[i as int]@) == Err::<Piece, ParseError>(e));
                return Err(e);
            },
        }
        i = i + 1;
    }
    Ok(v)
}

impl Game {
    /// Every piece of both sides together, black first.
    pub open spec fn all_pieces(self) -> Seq<Piece> {
        self.black_pieces@ + self.white_pieces@
    }

    /// No square holds two pieces, over both sides together.
    pub open spec fn wf(self) -> bool {
        forall|i: int, j: int|
            0 <= i < self.all_pieces().len() && 0 <= j < self.all_pieces().len() && i != j
                ==> #[trigger] self.all_pieces()[i].square != #[trigger] self.all_pieces()[j].square
    }

    /// Builds a game from the piece codes of each side, in order. Codes are
    /// not checked against each other: two pieces on one square are the
    /// caller's concern.
    pub fn from_codes(black: &Vec<&str>, white: &Vec<&str>) -> (r: Result<Game, ParseError>)
        ensures
            r is Ok <==> (forall|i: int|
                0 <= i < black@.len() ==> spec_parse_piece(#[trigger] black@[i]@) is Ok) && (
            forall|i: int| 0 <= i < white@.len() ==> spec_parse_piece(#[trigger] white@[i]@) is Ok),
            r matches Ok(g) ==> parsed_as(black@, g.black_pieces@) && parsed_as(
                white@,
                g.white_pieces@,
            ),
            r matches Err(e) ==> first_error(black@, e) || ((forall|i: int|
                0 <= i < black@.len() ==> spec_parse_piece(#[trigger] black@[i]@) is Ok)
                && first_error(white@, e)),
    {
        let black_pieces = match parse_pieces(black) {
            Ok(v) => v,
            Err(e) => return Err(e),
        };
        let white_pieces = match parse_pieces(white) {
            Ok(v) => v,
            Err(e) => return Err(e),
        };
        Ok(Game { black_pieces, white_pieces })
    }
}

proof fn lemma_start_squares_distinct(g: Game)
    requires
        g.black_pieces@ == start_side(Rank::R8, Rank::R7),
        g.white_pieces@ == start_side(Rank::R1, Rank::R2),
    ensures
        g.wf(),
{
    let all = g.all_pieces();
    assert forall|i: int| 0 <= i < all.len() implies #[trigger] all[i].square.spec_index() == (
    if i < 8 {
        56 + i
    } else if i < 16 {
        48 + i - 8
    } else if i < 24 {
        i - 16
    } else {
        8 + i - 24
    }) by {}
    assert forall|i: int, j: int|
        0 <= i < all.len() && 0 <= j < all.len() && i != j implies #[trigger] all[i].square
        != #[trigger] all[j].square by {
        assert(all[i].square.spec_index() != all[j].square.spec_index());
    }
}

/// The standard starting position: each side has its back rank (rook,
/// knight, bishop, queen, king, bishop, knight, rook from `a` to `h`) and
/// eight pawns in front of it; white on ranks 1 and 2, black on 8 and 7.
/// Built by parsing the piece codes of each side.
pub fn new_game() -> (g: Game)
    ensures
        g.black_pieces@ == start_side(Rank::R8, Rank::R7),
        g.white_pieces@ == start_side(Rank::R1, Rank::R2),
        g.wf(),
{
    let black: Vec<&str> = vec![
        "Ra8", "Nb8", "Bc8", "Qd8", "Ke8", "Bf8", "Ng8", "Rh8",
        "a7", "b7", "c7", "d7", "e7", "f7", "g7", "h7",
    ];
    let white: Vec<&str> = vec![
        "Ra1", "Nb1", "Bc1", "Qd1", "Ke1", "Bf1", "Ng1", "Rh1",
        "a2", "b2", "c2", "d2", "e2", "f2", "g2", "h2",
    ];
    proof {
        reveal_strlit("Ra8");
        reveal_strlit("Nb8");
        reveal_strlit("Bc8");
        reveal_strlit("Qd8");
        reveal_strlit("Ke8");
        reveal_strlit("Bf8");
        reveal_strlit("Ng8");
        reveal_strlit("Rh8");
        reveal_strlit("a7");
        reveal_strlit("b7");
        reveal_strlit("c7");
        reveal_strlit("d7");
        reveal_strlit("e7");
        reveal_strlit("f7");
        reveal_strlit("g7");
        reveal_strlit("h7");
        reveal_strlit("Ra1");
        reveal_strlit("Nb1");
        reveal_strlit("Bc1");
        reveal_strlit("Qd1");
        reveal_strlit("Ke1");
        reveal_strlit("Bf1");
        reveal_strlit("Ng1");
        reveal_strlit("Rh1");
        reveal_strlit("a2");
        reveal_strlit("b2");
        reveal_strlit("c2");
        reveal_strlit("d2");
        reveal_strlit("e2");
        reveal_strlit("f2");
        reveal_strlit("g2");
        reveal_strlit("h2");
    }
    assert(forall|i: int| 0 <= i < 16 ==> spec_parse_piece(#[trigger] black@[i]@) == Ok::<Piece, ParseError>(start_side(Rank::R8, Rank::R7)[i]));
    assert(forall|i: int| 0 <= i < 16 ==> spec_parse_piece(#[trigger] white@[i]@) == Ok::<Piece, ParseError>(start_side(Rank::R1, Rank::R2)[i]));
    match Game::from_codes(&black, &white) {
        Ok(g) => {
            assert forall|i: int| 0 <= i < 16 implies g.black_pieces@[i] == start_side(
                Rank::R8,
                Rank::R7,
            )[i] by {
                assert(spec_parse_piece(black@[i]@) == Ok::<Piece, ParseError>(g.black_pieces@[i]));
            }
            assert forall|i: int| 0 <= i < 16 implies g.white_pieces@[i] == start_side(
                Rank::R1,
                Rank::R2,
            )[i] by {
                assert(spec_parse_piece(white@[i]@) == Ok::<Piece, ParseError>(g.white_pieces@[i]));
            }
            assert(g.black_pieces@ =~= start_side(Rank::R8, Rank::R7));
            assert(g.white_pieces@ =~= start_side(Rank::R1, Rank::R2));
            proof {
                lemma_start_squares_distinct(g);
            }
            g
        },
        Err(_) => {
            assert(false);
            Game { black_pieces: Vec::new(), white_pieces: Vec::new() }
        },
    }
}

} // verus!
