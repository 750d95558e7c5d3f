use vstd::prelude::*;

use crate::board::{File, Piece, Rank, Square};

verus! {

/// Straight-line reachability: `to` is another square on the same file or
/// on the same rank as `from`.
pub open spec fn reachable(from: Square, to: Square) -> bool {
    from != to && (from.0 == to.0 || from.1 == to.1)
}

/// The squares that a piece standing on `from` may move to under the
/// straight-line rule, whatever its kind.
pub open spec fn legal_targets(from: Square) -> Set<Square> {
    Set::new(|to: Square| reachable(from, to))
}

/// How many of the squares of board index below `k` are reachable from a
/// square on row `own_rank` and column `own_file`: a whole row gives one
/// square, or seven when it is the own row.
pub open spec fn reachable_below(own_file: int, own_rank: int, k: int) -> int {
    let rows = k / 8;
    let cols = k % 8;
    let full = if own_rank < rows { rows + 6 } else { rows };
    let part = if rows == own_rank {
        if own_file < cols { cols - 1 } else { cols }
    } else {
        if own_file < cols { 1 } else { 0 }
    };
    full + part
}

/// Lists the squares that `piece` can reach by moving along its file or its
/// rank: every square of the board but its own that shares either with it.
/// The kind of the piece is not consulted. The squares come in board order,
/// rank by rank from `a1`, each once; there are always fourteen of them.
pub fn get_moves(piece: Piece) -> (r: Vec<Square>)
    ensures
        forall|t: Square| #[trigger] r@.contains(t) <==> reachable(piece.square, t),
        r@.to_set() == legal_targets(piece.square),
        r@.no_duplicates(),
        r@.len() == 14,
        !r@.contains(piece.square),
        forall|i: int, j: int|
            0 <= i < j < r@.len() ==> #[trigger] r@[i].spec_index() < #[trigger] r@[j].spec_index(),
{
    let from = piece.square;
    let ghost of = from.0.spec_index();
    let ghost orank = from.1.spec_index();
    let mut r: Vec<Square> = Vec::new();
    let mut ri: u8 = 0;
    while ri < 8
        invariant
            0 <= ri <= 8,
            from == piece.square,
            of == from.0.spec_index(),
            orank == from.1.spec_index(),
            r@.len() == reachable_below(of, orank, ri * 8),
            forall|i: int| 0 <= i < r@.len() ==> #[trigger] reachable(from, r@[i]),
            forall|i: int| 0 <= i < r@.len() ==> #[trigger] r@[i].spec_index() < ri * 8,
            forall|i: int, j: int|
                0 <= i < j < r@.len() ==> #[trigger] r@[i].spec_index() < #[trigger] r@[j].spec_index(),
            forall|t: Square|
                t.spec_index() < ri * 8 && reachable(from, t) ==> #[trigger] r@.contains(t),
        decreases 8 - ri,
    {
        let rank = Rank::from_index(ri);
        let mut fi: u8 = 0;
        while fi < 8
            invariant
                0 <= ri < 8,
                0 <= fi <= 8,
                rank.spec_index() == ri,
                from == piece.square,
                of == from.0.spec_index(),
                orank == from.1.spec_index(),
                r@.len() == reachable_below(of, orank, ri * 8 + fi),
                forall|i: int| 0 <= i < r@.len() ==> #[trigger] reachable(from, r@[i]),
                forall|i: int|
                    0 <= i < r@.len() ==> #[trigger] r@[i].spec_index() < ri * 8 + fi,
                forall|i: int, j: int|
                    0 <= i < j < r@.len() ==> #[trigger] r@[i].spec_index() < #[trigger] r@[j].spec_index(),
                forall|t: Square|
                    t.spec_index() < ri * 8 + fi && reachable(from, t)
                        ==> #[trigger] r@.contains(t),
            decreases 8 - fi,
        {
            let file = File::from_index(fi);
            let s = Square(file, rank);
            let ghost old_r = r@;
            assert(s.spec_index() == ri * 8 + fi);
            if s != from && (s.0 == from.0 || s.1 == from.1) {
                r.push(s);
                assert(r@[r@.len() - 1] == s);
                assert forall|t: Square|
                    t.spec_index() < ri * 8 + fi + 1 && reachable(from, t) implies
                    #[trigger] r@.contains(t) by {
                    if t.spec_index() < ri * 8 + fi {
                        assert(old_r.contains(t));
                        let k = choose|k: int| 0 <= k < old_r.len() && old_r[k] == t;
                        assert(r@[k] == t);
                    } else {
                        assert(t == s);
                    }
                }
            } else {
                assert forall|t: Square|
                    t.spec_index() < ri * 8 + fi + 1 && reachable(from, t) implies
                    #[trigger] r@.contains(t) by {
                    if t.spec_index() == ri * 8 + fi {
                        assert(t == s);
                    }
                }
            }
            assert(reachable_below(of, orank, ri * 8 + fi + 1) == r@.len()) by {
                assert((ri * 8 + fi) / 8 == ri as int);
                assert((ri * 8 + fi) % 8 == fi as int);
                if fi < 7 {
                    assert((ri * 8 + fi + 1) / 8 == ri as int);
                    assert((ri * 8 + fi + 1) % 8 == fi + 1);
                } else {
                    assert((ri * 8 + fi + 1) / 8 == ri + 1);
                    assert((ri * 8 + fi + 1) % 8 == 0);
                }
            }
            fi = fi + 1;
        }
        ri = ri + 1;
    }
    assert(r@.len() == 14) by {
        assert(64int / 8 == 8);
        assert(64int % 8 == 0);
    }
    assert forall|t: Square| #[trigger] r@.contains(t) <==> reachable(from, t) by {
        if r@.contains(t) {
            let k = choose|k: int| 0 <= k < r@.len() && r@[k] == t;
            assert(reachable(from, r@[k]));
        }
    }
    assert(r@.to_set() =~= legal_targets(from));
    assert forall|i: int, j: int| 0 <= i < r@.len() && 0 <= j < r@.len() && i != j implies
        r@[i] != r@[j] by {
        if i < j {
            assert(r@[i].spec_index() < r@[j].spec_index());
        } else {
            assert(r@[j].spec_index() < r@[i].spec_index());
        }
    }
    r
}

/// Straight-line reachability is symmetric: a piece on `t` is among the
/// targets of a piece on `s` exactly when a piece on `s` is among the
/// targets of a piece on `t`.
pub proof fn lemma_moves_symmetric(s: Square, t: Square)
    ensures
        legal_targets(s).contains(t) <==> legal_targets(t).contains(s),
{
}

} // verus!
