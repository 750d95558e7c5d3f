use std::collections::HashSet;

use paiche::{new_game, parse_square, Game, Kind, ParseError, Piece, Square};

fn kings(pieces: &[Piece]) -> Vec<Square> {
    pieces.iter().filter(|p| p.kind == Kind::King).map(|p| p.square).collect()
}

#[test]
fn starting_game_has_sixteen_pieces_a_side() {
    let game = new_game();
    assert_eq!(game.black_pieces.len(), 16);
    assert_eq!(game.white_pieces.len(), 16);
}

#[test]
fn starting_game_has_one_king_a_side() {
    let game = new_game();
    assert_eq!(kings(&game.black_pieces), vec![parse_square("e8").unwrap()]);
    assert_eq!(kings(&game.white_pieces), vec![parse_square("e1").unwrap()]);
}

#[test]
fn starting_game_has_no_shared_squares() {
    let game = new_game();
    let squares: HashSet<Square> = game
        .black_pieces
        .iter()
        .chain(game.white_pieces.iter())
        .map(|p| p.square)
        .collect();
    assert_eq!(squares.len(), 32);
}

#[test]
fn starting_game_keeps_code_order() {
    let game = new_game();
    let kinds: Vec<Kind> = game.white_pieces.iter().take(8).map(|p| p.kind).collect();
    assert_eq!(
        kinds,
        vec![
            Kind::Rook,
            Kind::Knight,
            Kind::Bishop,
            Kind::Queen,
            Kind::King,
            Kind::Bishop,
            Kind::Knight,
            Kind::Rook
        ]
    );
    assert_eq!(game.white_pieces[8].square, parse_square("a2").unwrap());
    assert_eq!(game.black_pieces[15].square, parse_square("h7").unwrap());
    assert!(game.white_pieces[8..].iter().all(|p| p.kind == Kind::Pawn));
}

#[test]
fn game_from_codes_reports_first_error() {
    let ok = Game::from_codes(&vec!["Ke8"], &vec!["Ke1", "a2"]).unwrap();
    assert_eq!(ok.black_pieces.len(), 1);
    assert_eq!(ok.white_pieces.len(), 2);
    let bad = Game::from_codes(&vec!["Ke8", "z7", "a9"], &vec!["Ke1"]);
    assert_eq!(bad.unwrap_err(), ParseError::InvalidFile);
    let bad = Game::from_codes(&vec!["Ke8"], &vec!["Ke9", "z1"]);
    assert_eq!(bad.unwrap_err(), ParseError::InvalidRank);
}
