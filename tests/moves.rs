use std::collections::HashSet;

use paiche::{get_moves, parse_piece, parse_square, File, Kind, Piece, Rank, Square};

fn squares(codes: &[&str]) -> HashSet<Square> {
    codes.iter().map(|c| parse_square(c).unwrap()).collect()
}

fn moves_of(code: &str) -> HashSet<Square> {
    get_moves(parse_piece(code).unwrap()).into_iter().collect()
}

#[test]
fn it_returns_moves_for_rooks() {
    let moves_from_a1 = squares(&[
        "a2", "a3", "a4", "a5", "a6", "a7", "a8", "b1", "c1", "d1", "e1", "f1", "g1", "h1",
    ]);
    assert_eq!(moves_from_a1, moves_of("Ra1"));
    let moves_from_e4 = squares(&[
        "e1", "e2", "e3", "e5", "e6", "e7", "e8", "a4", "b4", "c4", "d4", "f4", "g4", "h4",
    ]);
    assert_eq!(moves_from_e4, moves_of("Re4"));
}

#[test]
fn moves_ignore_the_kind_of_piece() {
    assert_eq!(moves_of("e4"), moves_of("Re4"));
    assert_eq!(moves_of("Ne4"), moves_of("Qe4"));
    assert_eq!(moves_of("Kh8"), moves_of("Bh8"));
}

#[test]
fn every_square_has_fourteen_distinct_targets() {
    for f in 0u8..8 {
        for r in 0u8..8 {
            let sq = Square(File::from_index(f), Rank::from_index(r));
            let moves = get_moves(Piece { kind: Kind::Rook, square: sq });
            assert_eq!(moves.len(), 14);
            let set: HashSet<Square> = moves.iter().copied().collect();
            assert_eq!(set.len(), 14);
            assert!(!set.contains(&sq));
            for t in &moves {
                assert!(t.0 == sq.0 || t.1 == sq.1);
            }
        }
    }
}

#[test]
fn moves_come_in_board_order() {
    let moves = get_moves(parse_piece("Rh8").unwrap());
    let codes: Vec<String> = moves.iter().map(|s| s.code().into_iter().collect()).collect();
    assert_eq!(
        codes,
        vec!["h1", "h2", "h3", "h4", "h5", "h6", "h7", "a8", "b8", "c8", "d8", "e8", "f8", "g8"]
    );
}

#[test]
fn reachability_is_symmetric() {
    let all: Vec<Square> = (0u8..64)
        .map(|i| Square(File::from_index(i % 8), Rank::from_index(i / 8)))
        .collect();
    for s in &all {
        let from_s: HashSet<Square> =
            get_moves(Piece { kind: Kind::Pawn, square: *s }).into_iter().collect();
        for t in &all {
            let from_t: HashSet<Square> =
                get_moves(Piece { kind: Kind::Pawn, square: *t }).into_iter().collect();
            assert_eq!(from_s.contains(t), from_t.contains(s));
        }
    }
}
