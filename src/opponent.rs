use vstd::prelude::*;
use rand::seq::SliceRandom;
use crate::piece::{Piece, Side, Square};
use crate::board::{Board, Move, MoveError};
use crate::controller::{Game, PieceId, PieceMoveEvent, TurnChangedEvent};

verus! {

/// Why the computer made no move.
#[derive(Clone, Copy, Debug, PartialEq, Eq, Structural)]
pub enum OpponentError {
    /// No piece of the computer's side has anywhere to go.
    NoLegalMoves,
    /// The engine refused the move chosen; nothing changed.
    Refused,
    /// The move was made, and the repetition it makes ends the game.
    GameOver(PieceMoveEvent),
}

/// Relies on rand's `SliceRandom::shuffle` with the thread's generator: the
/// squares come back in some order, each as often as before.
#[verifier::external_body]
fn shuffle_squares(v: &mut Vec<Square>)
    ensures
        final(v)@.to_multiset() == old(v)@.to_multiset(),
{
    v.shuffle(&mut rand::thread_rng());
}

impl Board {
    /// A move of a piece of `side` to one of its destinations, without promotion.
    pub open spec fn candidate_move(&self, side: Side, m: Move) -> bool {
        &&& m.from.valid()
        &&& m.to.valid()
        &&& !m.promote
        &&& self.piece_on(m.from) matches Some(p)
        &&& p.side == side
        &&& self.destinations(m.from, p).contains(m.to.index_of())
    }

    /// No piece on `sq` has anywhere to go.
    pub open spec fn stuck_at(&self, sq: Square) -> bool {
        match self.piece_on(sq) {
            Some(p) => self.destinations(sq, p).is_empty(),
            None => true,
        }
    }

    /// Some piece of `side` has somewhere to go.
    pub open spec fn has_move_for(&self, side: Side) -> bool {
        exists|m: Move| self.candidate_move(side, m)
    }
}

/// The first square of `order`, by position, whose piece has somewhere to go, with
/// that piece and its destinations; `None` where there is no such square.
pub fn first_movable(board: &Board, order: &Vec<Square>) -> (r: Option<(PieceId, Vec<Square>)>)
    requires
        forall|i: int| 0 <= i < order@.len() ==> (#[trigger] order@[i]).valid(),
    ensures
        match r {
            Some((pid, dests)) => exists|k: int|
                {
                    &&& 0 <= k < order@.len()
                    &&& order@[k] == pid.square
                    &&& board.piece_on(pid.square) == Some(pid.piece)
                    &&& dests@.len() > 0
                    &&& dests@.no_duplicates()
                    &&& (forall|i: int| 0 <= i < dests@.len() ==> (#[trigger] dests@[i]).valid())
                    &&& (forall|t: Square|
                        t.valid() ==> (dests@.contains(t) <==> board.destinations(
                            pid.square,
                            pid.piece,
                        ).contains(t.index_of())))
                    &&& forall|j: int|
                        0 <= j < k ==> #[trigger] board.stuck_at(order@[j])
                },
            None => forall|j: int|
                0 <= j < order@.len() ==> #[trigger] board.stuck_at(order@[j]),
        },
{
    let mut i: usize = 0;
    while i < order.len()
        invariant
            0 <= i <= order@.len(),
            forall|j: int| 0 <= j < order@.len() ==> (#[trigger] order@[j]).valid(),
            forall|j: int|
                0 <= j < i ==> #[trigger] board.stuck_at(order@[j]),
        decreases order@.len() - i,
    {
        let sq = order[i];
        if let Some(p) = board.piece_at(sq) {
            let dests = board.legal_destinations(sq, p);
            if dests.len() > 0 {
                return Some((PieceId::new(p, sq), dests));
            }
            proof {
                if !board.destinations(sq, p).is_empty() {
                    let x = board.destinations(sq, p).choose();
                    assert(0 <= x < 81);
                    let t = Square::at_index(x);
                    assert(t.valid());
                    assert(t.index_of() == x);
                    assert(dests@.contains(t));
                }
            }
        }
        i = i + 1;
    }
    None
}

/// A shuffle keeps what a sequence holds and how long it is.
proof fn lemma_shuffled_same_squares(a: Seq<Square>, b: Seq<Square>)
    requires
        a.to_multiset() == b.to_multiset(),
    ensures
        a.len() == b.len(),
        forall|t: Square| a.contains(t) <==> b.contains(t),
{
    a.to_multiset_ensures();
    b.to_multiset_ensures();
    assert forall|t: Square| a.contains(t) <==> b.contains(t) by {
        assert(a.to_multiset().count(t) == b.to_multiset().count(t));
        assert(a.contains(t) <==> a.to_multiset().count(t) > 0);
        assert(b.contains(t) <==> b.to_multiset().count(t) > 0);
    }
}

/// The computer's choice for `side`: the pieces of `side` in a random order, the
/// first of them that has somewhere to go, and a random one of its destinations,
/// without promotion. `None` exactly where no piece of `side` can move.
pub fn choose_move(board: &Board, side: Side) -> (r: Option<Move>)
    ensures
        r is None <==> !board.has_move_for(side),
        r matches Some(m) ==> board.candidate_move(side, m),
{
    let mut order = board.pieces_of(side);
    let ghost listed = order@;
    shuffle_squares(&mut order);
    proof {
        lemma_shuffled_same_squares(listed, order@);
        assert forall|i: int| 0 <= i < order@.len() implies (#[trigger] order@[i]).valid() by {
            assert(listed.contains(order@[i]));
        }
    }
    match first_movable(board, &order) {
        None => {
            proof {
                if board.has_move_for(side) {
                    let m = choose|m: Move| board.candidate_move(side, m);
                    assert(listed.contains(m.from));
                    assert(order@.contains(m.from));
                    let j = choose|j: int| 0 <= j < order@.len() && order@[j] == m.from;
                    assert(board.stuck_at(order@[j]));
                }
            }
            None
        },
        Some((pid, dests)) => {
            let mut d = dests;
            let ghost found = d@;
            shuffle_squares(&mut d);
            proof {
                lemma_shuffled_same_squares(found, d@);
                assert(found.contains(d@[0]));
            }
            let to = d[0];
            let m = Move { from: pid.square, to, promote: false };
            proof {
                assert(order@.contains(pid.square));
                assert(listed.contains(pid.square));
                assert(board.candidate_move(side, m));
            }
            Some(m)
        },
    }
}

/// A move that the computer may choose for the side to move passes the engine's
/// checks on the piece, the turn and the destination.
pub proof fn lemma_candidate_move_is_playable(b: Board, m: Move)
    requires
        b.candidate_move(b.turn(), m),
    ensures
        b.playable(m),
{
}

impl Game {
    /// The move that an event reports, without promotion.
    pub open spec fn move_of(ev: PieceMoveEvent) -> Move {
        Move { from: ev.piece_id.square, to: ev.to, promote: false }
    }

    /// `new` and `res` are what the computer's move for `side` made of `self`:
    /// the hand and the move targets stay; `NoLegalMoves` comes exactly when no
    /// piece of `side` can move, and changes nothing; otherwise one of `side`'s
    /// candidate moves went to the engine. `Refused` comes exactly when the engine
    /// refused it, and changes nothing; a move made is reported with its piece, by
    /// `GameOver` where its repetition ends the game.
    pub open spec fn computer_moved(
        &self,
        new: &Game,
        side: Side,
        res: Result<PieceMoveEvent, OpponentError>,
    ) -> bool {
        &&& new.hand == self.hand
        &&& new.targets@ == self.targets@
        &&& (res == Err::<PieceMoveEvent, OpponentError>(OpponentError::NoLegalMoves))
            == !self.board.has_move_for(side)
        &&& res == Err::<PieceMoveEvent, OpponentError>(OpponentError::NoLegalMoves)
            ==> new.board == self.board
        &&& res == Err::<PieceMoveEvent, OpponentError>(OpponentError::Refused) ==> {
            &&& new.board == self.board
            &&& exists|m: Move| self.board.candidate_move(side, m) && !self.board.accepts(m)
        }
        &&& match res {
            Ok(ev) => self.computer_made(new, side, ev),
            Err(OpponentError::GameOver(ev)) => self.computer_made(new, side, ev),
            _ => true,
        }
    }

    /// The computer's move `ev` for `side` was one of its candidate moves, the
    /// engine accepted it, and it was made.
    pub open spec fn computer_made(&self, new: &Game, side: Side, ev: PieceMoveEvent) -> bool {
        &&& self.board.candidate_move(side, Self::move_of(ev))
        &&& self.board.piece_on(ev.piece_id.square) == Some(ev.piece_id.piece)
        &&& self.board.accepts(Self::move_of(ev))
        &&& self.board.made_move(&new.board, Self::move_of(ev))
    }

    /// The computer plays a move for `side`, as `choose_move` picks it.
    pub fn computer_move(&mut self, side: Side) -> (r: Result<PieceMoveEvent, OpponentError>)
        requires
            old(self).wf(),
        ensures
            final(self).wf(),
            old(self).computer_moved(final(self), side, r),
    {
        match choose_move(&self.board, side) {
            None => Err(OpponentError::NoLegalMoves),
            Some(m) => {
                let p = self.board.piece_at(m.from).unwrap();
                let ev = PieceMoveEvent { piece_id: PieceId::new(p, m.from), to: m.to };
                match self.board.apply_move(m) {
                    Ok(()) => Ok(ev),
                    Err(MoveError::Repetition) => Err(OpponentError::GameOver(ev)),
                    Err(MoveError::Illegal) => Err(OpponentError::Refused),
                }
            },
        }
    }

    /// On the start of a turn: the computer moves when the turn is its own, and
    /// nothing happens otherwise.
    pub fn on_turn_changed(&mut self, ev: TurnChangedEvent, computer: Side) -> (r: Option<
        Result<PieceMoveEvent, OpponentError>,
    >)
        requires
            old(self).wf(),
        ensures
            final(self).wf(),
            r is None <==> ev.0 != computer,
            r is None ==> {
                &&& final(self).board == old(self).board
                &&& final(self).hand == old(self).hand
                &&& final(self).targets@ == old(self).targets@
            },
            r matches Some(res) ==> old(self).computer_moved(final(self), computer, res),
    {
        if ev.0 == computer {
            Some(self.computer_move(computer))
        } else {
            None
        }
    }
}

} // verus!
