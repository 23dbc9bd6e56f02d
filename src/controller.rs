use vstd::prelude::*;
use crate::piece::{Piece, Side, Square};
use crate::board::{Board, Move, MoveError};

verus! {

/// A piece together with the square it stands on.
#[derive(Clone, Copy, Debug, PartialEq, Eq, Structural)]
pub struct PieceId {
    pub piece: Piece,
    pub square: Square,
}

impl PieceId {
    pub fn new(piece: Piece, square: Square) -> (r: PieceId)
        ensures
            r == (PieceId { piece, square }),
    {
        PieceId { piece, square }
    }
}

/// The piece that the player has picked up and is about to place, if any.
#[derive(Clone, Copy, Debug, PartialEq, Eq, Structural)]
pub struct Hand(pub Option<PieceId>);

impl Default for Hand {
    fn default() -> (r: Hand)
        ensures
            r == Hand(None),
    {
        Hand(None)
    }
}

/// A piece went from `piece_id.square` to `to`.
#[derive(Clone, Copy, Debug, PartialEq, Eq, Structural)]
pub struct PieceMoveEvent {
    pub piece_id: PieceId,
    pub to: Square,
}

impl PieceMoveEvent {
    pub fn to(&self) -> (r: Square)
        ensures
            r == self.to,
    {
        self.to
    }

    pub fn from(&self) -> (r: Square)
        ensures
            r == self.piece_id.square,
    {
        self.piece_id.square
    }
}

/// A player gets to start their turn.
#[derive(Clone, Copy, Debug, PartialEq, Eq, Structural)]
pub struct TurnChangedEvent(pub Side);

/// A cell of the board as the player sees it.
#[derive(Clone, Copy, Debug, PartialEq, Eq, Structural)]
pub struct BoardSquare(pub Square);

/// How a cell is to be drawn.
#[derive(Clone, Copy, Debug, PartialEq, Eq, Structural)]
pub enum CellShade {
    Base,
    Hover,
    MoveTarget,
}

/// What decides the colour of a cell.
#[derive(Clone, Copy, Debug, PartialEq, Eq, Structural)]
pub struct CellHighlighter {
    /// The mouse is over the cell.
    pub is_hovered: bool,
    /// The selected piece may move to the cell.
    pub is_move_target: bool,
}

impl Default for CellHighlighter {
    fn default() -> (r: CellHighlighter)
        ensures
            r == (CellHighlighter { is_hovered: false, is_move_target: false }),
    {
        CellHighlighter { is_hovered: false, is_move_target: false }
    }
}

impl CellHighlighter {
    /// A move target shows as such, hovered or not; else a hovered cell shows
    /// as hovered.
    pub fn shade(&self) -> (r: CellShade)
        ensures
            r == (if self.is_move_target {
                CellShade::MoveTarget
            } else if self.is_hovered {
                CellShade::Hover
            } else {
                CellShade::Base
            }),
    {
        if self.is_move_target {
            CellShade::MoveTarget
        } else if self.is_hovered {
            CellShade::Hover
        } else {
            CellShade::Base
        }
    }
}

/// What a click led to: the move made, if any, and the turn that began, if any.
#[derive(Clone, Copy, Debug, PartialEq, Eq, Structural)]
pub struct ClickOutcome {
    pub moved: Option<PieceMoveEvent>,
    pub turn_changed: Option<TurnChangedEvent>,
    /// Why the engine refused or ended the game on the move tried, if it did.
    pub error: Option<MoveError>,
}

/// The selection and turn controller: the board, the piece in hand and the
/// squares to which it may move.
pub struct Game {
    pub board: Board,
    pub hand: Hand,
    pub targets: Vec<Square>,
}

pub fn contains_square(v: &Vec<Square>, sq: Square) -> (r: bool)
    ensures
        r == v@.contains(sq),
{
    let mut i: usize = 0;
    while i < v.len()
        invariant
            0 <= i <= v@.len(),
            forall|j: int| 0 <= j < i ==> v@[j] != sq,
        decreases v@.len() - i,
    {
        if v[i] == sq {
            return true;
        }
        i = i + 1;
    }
    false
}

impl Game {
    /// Nothing in hand leaves no move targets, and a piece in hand stands on a
    /// square of the board.
    pub open spec fn wf(&self) -> bool {
        &&& self.hand.0 is None ==> self.targets@.len() == 0
        &&& self.hand.0 matches Some(pid) ==> pid.square.valid()
        &&& forall|i: int| 0 <= i < self.targets@.len() ==> (#[trigger] self.targets@[i]).valid()
    }

    /// What a click on `sq` picks up: the piece on it, if it belongs to the side
    /// to move.
    pub open spec fn selection_for(&self, sq: Square) -> Option<PieceId> {
        match self.board.piece_on(sq) {
            Some(p) => if p.side == self.board.turn() {
                Some(PieceId { piece: p, square: sq })
            } else {
                None
            },
            None => None,
        }
    }

    /// `new` is `self` after a selection attempt on `sq`: the board is kept, the
    /// hand holds what the click picks up, and the move targets are that piece's
    /// destinations, each once, or none.
    pub open spec fn reselected(&self, new: &Game, sq: Square) -> bool {
        &&& new.board == self.board
        &&& new.hand == Hand(self.selection_for(sq))
        &&& new.targets@.no_duplicates()
        &&& match self.selection_for(sq) {
            Some(pid) => forall|t: Square|
                t.valid() ==> (new.targets@.contains(t) <==> self.board.destinations(
                    sq,
                    pid.piece,
                ).contains(t.index_of())),
            None => new.targets@.len() == 0,
        }
    }

    /// The move that a click on `sq` tries: the piece in hand to `sq`, with no
    /// promotion, when `sq` is one of the move targets.
    pub open spec fn move_for(&self, sq: Square) -> Option<Move> {
        match self.hand.0 {
            Some(pid) => if self.targets@.contains(sq) {
                Some(Move { from: pid.square, to: sq, promote: false })
            } else {
                None
            },
            None => None,
        }
    }

    pub fn new(board: Board) -> (r: Game)
        ensures
            r.board == board,
            r.hand == Hand(None),
            r.targets@.len() == 0,
            r.wf(),
    {
        Game { board, hand: Hand(None), targets: Vec::new() }
    }

    /// Picks up the piece on `sq` if it belongs to the side to move, and makes its
    /// destinations the move targets; otherwise the hand is emptied.
    pub fn select(&mut self, sq: Square)
        requires
            sq.valid(),
        ensures
            final(self).wf(),
            old(self).reselected(final(self), sq),
    {
        self.hand = Hand(None);
        self.targets = Vec::new();
        if let Some(piece) = self.board.piece_at(sq) {
            if piece.side == self.board.side_to_move() {
                self.targets = self.board.legal_destinations(sq, piece);
                self.hand = Hand(Some(PieceId::new(piece, sq)));
            }
        }
    }

    /// Handles a click on `sq`. With a piece in hand and `sq` among its move
    /// targets, the piece is moved there; a move that the engine makes empties the
    /// hand and the targets and is reported, and unless it ended the game by
    /// repetition the turn of the other side begins. A move that the engine
    /// refuses leaves everything as it was. Any other click is a new selection
    /// attempt on `sq`.
    pub fn on_click(&mut self, sq: Square) -> (r: ClickOutcome)
        requires
            sq.valid(),
            old(self).wf(),
        ensures
            final(self).wf(),
            match old(self).move_for(sq) {
                Some(m) => ((r.error == Some(MoveError::Illegal)) == !old(self).board.accepts(m)) && if r.error
                    == Some(MoveError::Illegal) {
                    &&& final(self).board == old(self).board
                    &&& final(self).hand == old(self).hand
                    &&& final(self).targets@ == old(self).targets@
                    &&& r.moved is None
                    &&& r.turn_changed is None
                } else {
                    &&& old(self).board.playable(m)
                    &&& final(self).board.cells() == old(self).board.cells_after(m)
                    &&& final(self).board.turn() == old(self).board.turn().opponent()
                    &&& final(self).hand == Hand(None)
                    &&& final(self).targets@.len() == 0
                    &&& r.moved == Some(
                        PieceMoveEvent { piece_id: old(self).hand.0.unwrap(), to: sq },
                    )
                    &&& r.turn_changed == if r.error is None {
                        Some(TurnChangedEvent(final(self).board.turn()))
                    } else {
                        None
                    }
                },
                None => {
                    &&& old(self).reselected(final(self), sq)
                    &&& r == (ClickOutcome { moved: None, turn_changed: None, error: None })
                },
            },
    {
        if let Some(pid) = self.hand.0 {
            if contains_square(&self.targets, sq) {
                let m = Move { from: pid.square, to: sq, promote: false };
                match self.board.apply_move(m) {
                    Ok(()) => {
                        self.hand = Hand(None);
                        self.targets = Vec::new();
                        let side = self.board.side_to_move();
                        return ClickOutcome {
                            moved: Some(PieceMoveEvent { piece_id: pid, to: sq }),
                            turn_changed: Some(TurnChangedEvent(side)),
                            error: None,
                        };
                    },
                    Err(MoveError::Repetition) => {
                        self.hand = Hand(None);
                        self.targets = Vec::new();
                        return ClickOutcome {
                            moved: Some(PieceMoveEvent { piece_id: pid, to: sq }),
                            turn_changed: None,
                            error: Some(MoveError::Repetition),
                        };
                    },
                    Err(MoveError::Illegal) => {
                        return ClickOutcome {
                            moved: None,
                            turn_changed: None,
                            error: Some(MoveError::Illegal),
                        };
                    },
                }
            }
        }
        self.select(sq);
        ClickOutcome { moved: None, turn_changed: None, error: None }
    }
}

/// A selection attempt on an empty square, with nothing in hand, changes
/// nothing: a click there tries no move, and the board, the empty hand and the
/// absence of move targets all stay.
pub proof fn lemma_click_on_empty_square(g: Game, h: Game, sq: Square)
    requires
        g.wf(),
        g.hand.0 is None,
        g.board.piece_on(sq) is None,
        g.reselected(&h, sq),
    ensures
        g.move_for(sq) is None,
        h.board == g.board,
        h.hand == g.hand,
        h.targets@ == g.targets@,
{
    assert(h.targets@ =~= g.targets@);
}

/// Trying to pick up a piece of the side not to move is refused: the hand ends
/// empty, no square is a move target, and the board stays.
pub proof fn lemma_select_refuses_other_side(g: Game, h: Game, sq: Square)
    requires
        g.board.piece_on(sq) matches Some(p) && p.side != g.board.turn(),
        g.reselected(&h, sq),
    ensures
        h.hand == Hand(None),
        h.targets@.len() == 0,
        h.board == g.board,
{
}

} // verus!
