use paiche::{parse_piece, parse_square, File, Kind, ParseError, Piece, Rank, Square};

#[test]
fn square_codes_round_trip() {
    for f in "abcdefgh".chars() {
        for r in "12345678".chars() {
            let code: String = [f, r].iter().collect();
            let sq = parse_square(&code).unwrap();
            assert_eq!(sq.code(), vec![f, r]);
            assert_eq!(sq.0.letter(), f);
            assert_eq!(sq.1.digit(), r);
        }
    }
}

#[test]
fn square_codes_parse_to_their_square() {
    assert_eq!(parse_square("a1"), Ok(Square(File::A, Rank::R1)));
    assert_eq!(parse_square("e4"), Ok(Square(File::E, Rank::R4)));
    assert_eq!(parse_square("h8"), Ok(Square(File::H, Rank::R8)));
}

#[test]
fn bad_file_is_rejected() {
    assert_eq!(parse_square("i1"), Err(ParseError::InvalidFile));
    assert_eq!(parse_square(""), Err(ParseError::InvalidFile));
    assert_eq!(parse_square("A1"), Err(ParseError::InvalidFile));
    assert_eq!(parse_square("é1"), Err(ParseError::InvalidFile));
}

#[test]
fn bad_rank_is_rejected() {
    assert_eq!(parse_square("a9"), Err(ParseError::InvalidRank));
    assert_eq!(parse_square("a0"), Err(ParseError::InvalidRank));
    assert_eq!(parse_square("a"), Err(ParseError::InvalidRank));
    assert_eq!(parse_square("a10"), Err(ParseError::InvalidRank));
}

#[test]
fn piece_codes_parse() {
    let cases = [
        ("Ra1", Kind::Rook, File::A, Rank::R1),
        ("Nb8", Kind::Knight, File::B, Rank::R8),
        ("Bc1", Kind::Bishop, File::C, Rank::R1),
        ("Qd8", Kind::Queen, File::D, Rank::R8),
        ("Ke1", Kind::King, File::E, Rank::R1),
        ("e2", Kind::Pawn, File::E, Rank::R2),
        ("h7", Kind::Pawn, File::H, Rank::R7),
    ];
    for (code, kind, file, rank) in cases {
        assert_eq!(parse_piece(code), Ok(Piece { kind, square: Square(file, rank) }));
    }
}

#[test]
fn bad_piece_codes_are_rejected() {
    assert_eq!(parse_piece("Ri1"), Err(ParseError::InvalidFile));
    assert_eq!(parse_piece("Xa1"), Err(ParseError::InvalidFile));
    assert_eq!(parse_piece("R"), Err(ParseError::InvalidFile));
    assert_eq!(parse_piece(""), Err(ParseError::InvalidFile));
    assert_eq!(parse_piece("Ka9"), Err(ParseError::InvalidRank));
    assert_eq!(parse_piece("e"), Err(ParseError::InvalidRank));
}

#[test]
fn indices_match_letters() {
    for i in 0u8..8 {
        assert_eq!(File::from_index(i).index(), i);
        assert_eq!(Rank::from_index(i).index(), i);
    }
    assert_eq!(File::from_index(4).letter(), 'e');
    assert_eq!(Rank::from_index(3).digit(), '4');
}
