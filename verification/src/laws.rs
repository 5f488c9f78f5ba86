//! Laws relating sequences of moves to the board model.
//!
//! [`crate::chess::Chess::perform_move`] pins each call down to
//! [`board_after`] and [`move_outcome`]; the proof functions here state what
//! follows for whole sequences of calls: turn alternation, idempotence of
//! rejection, and the relocation effect of an accepted move.

use vstd::prelude::*;

use crate::chess::BoardState;
use crate::chess::board_after;
use crate::chess::flip;
use crate::chess::is_move_token;
use crate::chess::move_from;
use crate::chess::move_outcome;
use crate::chess::move_to;

verus! {

/// The board reached from `b` after offering every token of `moves` in order.
pub open spec fn run_moves(b: BoardState, moves: Seq<Seq<char>>) -> BoardState
    decreases moves.len(),
{
    if moves.len() == 0 {
        b
    } else {
        run_moves(board_after(b, moves[0]), moves.drop_first())
    }
}

/// How many tokens of `moves` are accepted when offered in order from `b`.
pub open spec fn accepted_count(b: BoardState, moves: Seq<Seq<char>>) -> nat
    decreases moves.len(),
{
    if moves.len() == 0 {
        0
    } else {
        (if move_outcome(b, moves[0]) is Ok {
            1nat
        } else {
            0nat
        }) + accepted_count(board_after(b, moves[0]), moves.drop_first())
    }
}

/// Turn alternation: over any sequence of tokens, the color to move depends
/// only on how many were accepted — it flips once per accepted move and never
/// on a rejected one, so it strictly alternates over the accepted moves.
pub proof fn lemma_turn_alternation(b: BoardState, moves: Seq<Seq<char>>)
    ensures
        run_moves(b, moves).to_move == (if accepted_count(b, moves) % 2 == 0 {
            b.to_move
        } else {
            flip(b.to_move)
        }),
    decreases moves.len(),
{
    if moves.len() > 0 {
        let b1 = board_after(b, moves[0]);
        lemma_turn_alternation(b1, moves.drop_first());
    }
}

/// A rejected move is a true no-op: the board is unchanged, so offering the
/// same token again is rejected with the same error.
pub proof fn lemma_rejection_idempotent(b: BoardState, s: Seq<char>)
    requires
        move_outcome(b, s) is Err,
    ensures
        board_after(b, s) == b,
        move_outcome(board_after(b, s), s) == move_outcome(b, s),
{
}

/// An accepted move relocates exactly one piece: afterwards the source square
/// is empty, the destination holds the piece formerly at the source, and
/// every other square is untouched. In particular the source and destination
/// differ, and every square still holds at most one piece (the board stays a
/// 64-entry mapping).
pub proof fn lemma_move_relocates(b: BoardState, s: Seq<char>)
    requires
        b.squares.len() == 64,
        move_outcome(b, s) is Ok,
    ensures
        is_move_token(s),
        0 <= move_from(s) < 64,
        0 <= move_to(s) < 64,
        move_from(s) != move_to(s),
        board_after(b, s).squares.len() == 64,
        board_after(b, s).squares[move_from(s)] is None,
        board_after(b, s).squares[move_to(s)] == b.squares[move_from(s)],
        forall|i: int|
            0 <= i < 64 && i != move_from(s) && i != move_to(s)
                ==> board_after(b, s).squares[i] == b.squares[i],
{
}

/// A board keeps all 64 squares addressable over any sequence of tokens.
pub proof fn lemma_run_preserves_board_size(b: BoardState, moves: Seq<Seq<char>>)
    requires
        b.squares.len() == 64,
    ensures
        run_moves(b, moves).squares.len() == 64,
    decreases moves.len(),
{
    if moves.len() > 0 {
        lemma_run_preserves_board_size(board_after(b, moves[0]), moves.drop_first());
    }
}

} // verus!
