use vstd::prelude::*;
use vstd::string::StringSliceAdditionalSpecFns;
use crate::sfen::{sfen_fits, sfen_within_limits};
use crate::piece::{
    Piece, PieceKind, Side, Square, piece_of_engine, side_of_engine, engine_kind_of, kind_of_engine,
    engine_side_of, side_from_engine, piece_from_engine, kind_to_engine, side_to_engine,
};

verus! {

#[verifier::external_type_specification]
#[verifier::external_body]
pub struct ExPosition(shogi::Position);

/// What a position holds on its board: for each occupied square number, its piece.
pub uninterp spec fn cells_of(p: shogi::Position) -> Map<int, Piece>;

/// The side that a position has to move next.
pub uninterp spec fn turn_of(p: shogi::Position) -> Side;

/// The square numbers that the engine's candidate generation gives for a piece
/// standing on a square of a position.
pub uninterp spec fn candidates_of(p: shogi::Position, sq: int, piece: Piece) -> Set<int>;

/// The engine's verdict on a move on the board from square number `from` to `to`:
/// whether it makes the move rather than refuse it.
pub uninterp spec fn accepts_of(p: shogi::Position, from: int, to: int, promote: bool) -> bool;

/// How many pieces of a kind a side holds in hand (0 for a kind that is never
/// held: the king and the promoted kinds).
pub uninterp spec fn hand_count_of(p: shogi::Position, kind: PieceKind, side: Side) -> int;

/// Whether the engine reads an SFEN text into a fresh position.
pub uninterp spec fn sfen_readable(s: Seq<char>) -> bool;

/// A position as `Position::new` makes it: no piece on the board, none in hand.
pub open spec fn fresh(p: shogi::Position) -> bool {
    &&& forall|i: int| !cells_of(p).contains_key(i)
    &&& forall|k: PieceKind, s: Side| hand_count_of(p, k, s) == 0
}

/// Every hand counter of the side to move can take one more piece.
pub open spec fn hands_have_room(p: shogi::Position) -> bool {
    forall|k: PieceKind| hand_count_of(p, k, turn_of(p)) < 255
}

/// The usual starting position of shogi in SFEN notation, Black to move.
pub const STARTING_SFEN: &'static str = "lnsgkgsnl/1r5b1/ppppppppp/9/9/9/PPPPPPPPP/1B5R1/LNSGKGSNL b - 1";

/// Width of one square in world units.
pub const BOARD_SCALE: i32 = 32;

/// Why the engine refused a move.
#[derive(Clone, Copy, Debug, PartialEq, Eq, Structural)]
pub enum MoveError {
    /// The move breaks a rule, or the engine's move number or a hand counter of
    /// the side to move is at its limit; the position is left as it was.
    Illegal,
    /// The move was made, and it repeats an earlier position for the fourth time
    /// (a draw, or a loss by perpetual check): the game is over.
    Repetition,
}

/// A starting position that could not be set up.
#[derive(Clone, Copy, Debug, PartialEq, Eq, Structural)]
pub enum SfenError {
    /// The engine could not read it.
    Malformed,
    /// It holds more than ASCII, counts of pieces in hand over `MAX_HAND_COUNT`,
    /// or a move number too close to the engine's limit.
    OutOfRange,
}

/// A move of a piece on the board from one square to another, with or without
/// promotion.
#[derive(Clone, Copy, Debug, PartialEq, Eq, Structural)]
pub struct Move {
    pub from: Square,
    pub to: Square,
    pub promote: bool,
}

/// The kind that a piece of the given kind turns into when it promotes, if any.
pub open spec fn promoted_kind(k: PieceKind) -> Option<PieceKind> {
    match k {
        PieceKind::Rook => Some(PieceKind::ProRook),
        PieceKind::Bishop => Some(PieceKind::ProBishop),
        PieceKind::Silver => Some(PieceKind::ProSilver),
        PieceKind::Knight => Some(PieceKind::ProKnight),
        PieceKind::Lance => Some(PieceKind::ProLance),
        PieceKind::Pawn => Some(PieceKind::ProPawn),
        _ => None,
    }
}

/// The piece that lands on the destination square.
pub open spec fn placed_piece(p: Piece, promote: bool) -> Piece {
    if promote {
        Piece { kind: promoted_kind(p.kind).unwrap(), side: p.side }
    } else {
        p
    }
}

/// Relies on shogi's `Factory::init`, which fills the engine's process-wide attack
/// tables; candidate generation reads them. `Board::from_sfen` calls it before it
/// makes a position, and a `Board` keeps its position private, so every position
/// that this library reads was made after the tables were filled.
#[verifier::external_body]
fn init_tables() {
    shogi::bitboard::Factory::init();
}

/// Relies on shogi's `Position::new`: an empty board, empty hands, Black to move.
#[verifier::external_body]
fn empty_position() -> (r: shogi::Position)
    ensures
        turn_of(r) == Side::Black,
        fresh(r),
{
    shogi::Position::new()
}

/// The move number of a position.
pub uninterp spec fn ply_of(p: shogi::Position) -> int;

/// Relies on shogi's `Position::set_sfen`, which reads a position in SFEN notation.
/// On a fresh position whether it succeeds depends on the text alone. Its counters
/// of pieces in hand (`u8`) and of moves (`u16`) would overflow on texts that
/// `sfen_fits` leaves out; on a position that is not fresh, the board grid could
/// keep pieces that a short row does not overwrite.
#[verifier::external_body]
fn load_sfen(pos: &mut shogi::Position, sfen: &str) -> (r: bool)
    requires
        fresh(*old(pos)),
        sfen_fits(sfen.spec_bytes()),
    ensures
        r == sfen_readable(sfen@),
{
    pos.set_sfen(sfen).is_ok()
}

/// Relies on shogi's `Position::piece_at`: the piece on a square, if any.
#[verifier::external_body]
fn engine_piece_at(pos: &shogi::Position, sq: u8) -> (r: Option<(shogi::PieceType, shogi::Color)>)
    requires
        sq < 81,
    ensures
        match r {
            None => !cells_of(*pos).contains_key(sq as int),
            Some(e) => cells_of(*pos).contains_key(sq as int) && cells_of(*pos)[sq as int]
                == piece_of_engine(e),
        },
{
    pos.piece_at(shogi::Square::from_index(sq).unwrap()).map(|p| (p.piece_type, p.color))
}

/// Relies on shogi's `Position::ply`: the move number.
#[verifier::external_body]
fn engine_ply(pos: &shogi::Position) -> (r: u16)
    ensures
        r as int == ply_of(*pos),
{
    pos.ply()
}

/// Relies on shogi's `Position::hand`: the count of a piece in hand.
#[verifier::external_body]
fn engine_hand_count(pos: &shogi::Position, kind: shogi::PieceType, color: shogi::Color) -> (r: u8)
    ensures
        r as int == hand_count_of(*pos, kind_of_engine(kind), side_of_engine(color)),
{
    pos.hand(shogi::Piece { piece_type: kind, color })
}

/// Relies on shogi's `Position::player_bb`: the squares that hold a piece of a
/// color, each once, as square numbers. The engine keeps this bitboard in step
/// with its board grid on every position that `load_sfen` and `engine_make_move`
/// produce from a fresh one.
#[verifier::external_body]
fn engine_player_squares(pos: &shogi::Position, color: shogi::Color) -> (r: Vec<u8>)
    ensures
        r@.no_duplicates(),
        forall|i: int| 0 <= i < r@.len() ==> r@[i] < 81,
        r@.map_values(|v: u8| v as int).to_set() == Set::new(
            |x: int| cells_of(*pos).contains_key(x) && cells_of(*pos)[x].side == side_of_engine(color),
        ),
{
    pos.player_bb(color).clone().map(|s| s.index() as u8).collect()
}

/// Relies on shogi's `Position::side_to_move`.
#[verifier::external_body]
fn engine_side_to_move(pos: &shogi::Position) -> (r: shogi::Color)
    ensures
        side_of_engine(r) == turn_of(*pos),
{
    pos.side_to_move()
}

/// Relies on shogi's `Position::move_candidates`: the squares to which a piece on a
/// square can move, each once, as square numbers; none holds a piece of the
/// mover's own color (the engine masks them out with its color bitboard, which
/// it keeps in step with its board grid, see `engine_player_squares`).
#[verifier::external_body]
fn engine_candidates(
    pos: &shogi::Position,
    sq: u8,
    kind: shogi::PieceType,
    color: shogi::Color,
) -> (r: Vec<u8>)
    requires
        sq < 81,
    ensures
        r@.no_duplicates(),
        forall|i: int| 0 <= i < r@.len() ==> r@[i] < 81,
        forall|i: int|
            0 <= i < r@.len() ==> !cells_of(*pos).contains_key(#[trigger] r@[i] as int) || cells_of(
                *pos,
            )[r@[i] as int].side != side_of_engine(color),
        r@.map_values(|v: u8| v as int).to_set() == candidates_of(
            *pos,
            sq as int,
            piece_of_engine((kind, color)),
        ),
{
    let piece = shogi::Piece { piece_type: kind, color };
    pos.move_candidates(shogi::Square::from_index(sq).unwrap(), piece).map(|s| s.index() as u8).collect()
}

/// Relies on shogi's `Position::make_move` for a move on the board. It refuses a
/// move unless the side to move has a piece on `from` whose candidates hold `to`,
/// and then leaves the position as it was; a move that it makes takes the piece
/// off `from` and puts it, promoted where asked, on `to` in place of what stood
/// there (never a piece of its own side, so `to` is not `from`), and passes the turn.
/// A move made adds one to the move number, and a capture adds one to a hand
/// counter of the side to move; neither may overflow. Whether the engine makes the
/// move is its verdict `accepts_of`. It reports a repetition only after making the
/// move.
#[verifier::external_body]
fn engine_make_move(pos: &mut shogi::Position, from: u8, to: u8, promote: bool) -> (r: Result<
    (),
    MoveError,
>)
    requires
        from < 81,
        to < 81,
        ply_of(*old(pos)) < 65535,
        hands_have_room(*old(pos)),
    ensures
        (r == Err::<(), MoveError>(MoveError::Illegal)) == !accepts_of(
            *old(pos),
            from as int,
            to as int,
            promote,
        ),
        r != Err::<(), MoveError>(MoveError::Illegal) ==> {
            &&& cells_of(*old(pos)).contains_key(from as int)
            &&& cells_of(*old(pos))[from as int].side == turn_of(*old(pos))
            &&& candidates_of(*old(pos), from as int, cells_of(*old(pos))[from as int]).contains(
                to as int,
            )
            &&& (promote ==> promoted_kind(cells_of(*old(pos))[from as int].kind) is Some)
            &&& !cells_of(*final(pos)).contains_key(from as int)
            &&& cells_of(*final(pos)) == cells_of(*old(pos)).remove(from as int).insert(
                to as int,
                placed_piece(cells_of(*old(pos))[from as int], promote),
            )
            &&& turn_of(*final(pos)) == turn_of(*old(pos)).opponent()
        },
        r == Err::<(), MoveError>(MoveError::Illegal) ==> *final(pos) == *old(pos),
{
    let from = shogi::Square::from_index(from).unwrap();
    let to = shogi::Square::from_index(to).unwrap();
    match pos.make_move(shogi::Move::Normal { from, to, promote }) {
        Ok(()) => Ok(()),
        Err(shogi::MoveError::Repetition)
        | Err(shogi::MoveError::PerpetualCheckWin)
        | Err(shogi::MoveError::PerpetualCheckLose) => Err(MoveError::Repetition),
        Err(_) => Err(MoveError::Illegal),
    }
}

/// The squares with the given numbers, in the same order.
fn squares_of(codes: &Vec<u8>) -> (r: Vec<Square>)
    requires
        codes@.no_duplicates(),
        forall|j: int| 0 <= j < codes@.len() ==> codes@[j] < 81,
    ensures
        r@.no_duplicates(),
        forall|i: int| 0 <= i < r@.len() ==> (#[trigger] r@[i]).valid(),
        forall|t: Square|
            t.valid() ==> (r@.contains(t) <==> codes@.map_values(|v: u8| v as int).to_set().contains(
                t.index_of(),
            )),
{
    let mut r: Vec<Square> = Vec::new();
    let mut i: usize = 0;
    while i < codes.len()
        invariant
            0 <= i <= codes@.len(),
            codes@.no_duplicates(),
            forall|j: int| 0 <= j < codes@.len() ==> codes@[j] < 81,
            r@.len() == i,
            forall|j: int| 0 <= j < i ==> r@[j] == Square::at_index(codes@[j] as int),
            forall|j: int| 0 <= j < i ==> (#[trigger] r@[j]).valid(),
        decreases codes@.len() - i,
    {
        r.push(Square::from_index(codes[i]));
        i = i + 1;
    }
    proof {
        let m = codes@.map_values(|v: u8| v as int);
        assert forall|a: int, b: int| 0 <= a < r@.len() && 0 <= b < r@.len() && a != b
            implies r@[a] != r@[b] by {
            if r@[a] == r@[b] {
                crate::piece::lemma_at_index_injective(codes@[a] as int, codes@[b] as int);
            }
        }
        assert forall|t: Square| t.valid() implies (r@.contains(t) <==> m.to_set().contains(
            t.index_of(),
        )) by {
            crate::piece::lemma_index_round_trip(t);
            if r@.contains(t) {
                let j = choose|j: int| 0 <= j < r@.len() && r@[j] == t;
                crate::piece::lemma_at_index_injective(codes@[j] as int, t.index_of());
                assert(m[j] == t.index_of());
            }
            if m.to_set().contains(t.index_of()) {
                assert(m.contains(t.index_of()));
                let j = choose|j: int| 0 <= j < m.len() && m[j] == t.index_of();
                assert(r@[j] == t);
            }
        }
    }
    r
}

/// The game state: a shogi position kept by the engine.
pub struct Board {
    state: shogi::Position,
}

impl Board {
    /// The pieces on the board, by square number.
    pub closed spec fn cells(&self) -> Map<int, Piece> {
        cells_of(self.state)
    }

    pub closed spec fn turn(&self) -> Side {
        turn_of(self.state)
    }

    /// The piece on a square, if any.
    pub open spec fn piece_on(&self, sq: Square) -> Option<Piece> {
        if self.cells().contains_key(sq.index_of()) {
            Some(self.cells()[sq.index_of()])
        } else {
            None
        }
    }

    /// The square numbers to which `piece` may move from `sq`.
    pub closed spec fn destinations(&self, sq: Square, piece: Piece) -> Set<int> {
        candidates_of(self.state, sq.index_of(), piece)
    }

    /// A move that the side to move may try: one of its pieces stands on `from`,
    /// `to` is among that piece's destinations, and the piece can promote if asked to.
    pub open spec fn playable(&self, m: Move) -> bool {
        &&& self.piece_on(m.from) matches Some(p)
        &&& p.side == self.turn()
        &&& self.destinations(m.from, p).contains(m.to.index_of())
        &&& (m.promote ==> promoted_kind(p.kind) is Some)
    }

    /// The pieces after `m`: `from` emptied, the moving piece (promoted where asked)
    /// on `to`, in place of any piece that stood there.
    pub open spec fn cells_after(&self, m: Move) -> Map<int, Piece> {
        self.cells().remove(m.from.index_of()).insert(
            m.to.index_of(),
            placed_piece(self.cells()[m.from.index_of()], m.promote),
        )
    }

    /// Whether `apply_move` makes `m`: the engine's verdict, where the move number
    /// and the hand counters of the side to move have room to grow.
    pub closed spec fn accepts(&self, m: Move) -> bool {
        &&& ply_of(self.state) < 65535
        &&& hands_have_room(self.state)
        &&& accepts_of(self.state, m.from.index_of(), m.to.index_of(), m.promote)
    }

    /// `after` is this board with `m` made on it.
    pub open spec fn made_move(&self, after: &Board, m: Move) -> bool {
        &&& self.playable(m)
        &&& after.cells() == self.cells_after(m)
        &&& !after.cells().contains_key(m.from.index_of())
        &&& after.turn() == self.turn().opponent()
    }

    /// A board set up from a position in SFEN notation. A text outside the
    /// engine's counters is refused before the engine sees it; one that the engine
    /// cannot read is refused as malformed.
    pub fn from_sfen(sfen: &str) -> (r: Result<Board, SfenError>)
        ensures
            (r == Err::<Board, SfenError>(SfenError::OutOfRange)) == !sfen_fits(sfen.spec_bytes()),
            r is Ok == (sfen_fits(sfen.spec_bytes()) && sfen_readable(sfen@)),
    {
        if !sfen_within_limits(sfen) {
            return Err(SfenError::OutOfRange);
        }
        init_tables();
        let mut state = empty_position();
        if load_sfen(&mut state, sfen) {
            Ok(Board { state })
        } else {
            Err(SfenError::Malformed)
        }
    }

    pub fn piece_at(&self, sq: Square) -> (r: Option<Piece>)
        requires
            sq.valid(),
        ensures
            r == self.piece_on(sq),
    {
        match engine_piece_at(&self.state, sq.index()) {
            Some(e) => Some(piece_from_engine(e)),
            None => None,
        }
    }

    pub fn side_to_move(&self) -> (r: Side)
        ensures
            r == self.turn(),
    {
        side_from_engine(engine_side_to_move(&self.state))
    }

    /// The squares to which `piece` may move from `sq`, each once.
    pub fn legal_destinations(&self, sq: Square, piece: Piece) -> (r: Vec<Square>)
        requires
            sq.valid(),
        ensures
            r@.no_duplicates(),
            forall|i: int| 0 <= i < r@.len() ==> (#[trigger] r@[i]).valid(),
            forall|x: int| #[trigger] self.destinations(sq, piece).contains(x) ==> 0 <= x < 81,
            forall|x: int|
                #[trigger] self.destinations(sq, piece).contains(x) && self.cells().contains_key(x)
                    ==> self.cells()[x].side != piece.side,
            forall|t: Square|
                t.valid() ==> (r@.contains(t) <==> self.destinations(sq, piece).contains(
                    t.index_of(),
                )),
    {
        let codes = engine_candidates(
            &self.state,
            sq.index(),
            kind_to_engine(piece.kind),
            side_to_engine(piece.side),
        );
        proof {
            crate::piece::lemma_engine_piece_round_trip(piece);
            let cands = self.destinations(sq, piece);
            let m = codes@.map_values(|v: u8| v as int);
            assert forall|x: int| #[trigger] cands.contains(x) implies 0 <= x < 81 by {
                assert(m.contains(x));
            }
            assert forall|x: int|
                #[trigger] cands.contains(x) && self.cells().contains_key(x) implies self.cells()[x].side
                != piece.side by {
                assert(m.contains(x));
                let j = choose|j: int| 0 <= j < m.len() && m[j] == x;
                assert(codes@[j] as int == x);
            }
        }
        squares_of(&codes)
    }

    /// The squares that hold a piece of `side`, each once.
    pub fn pieces_of(&self, side: Side) -> (r: Vec<Square>)
        ensures
            r@.no_duplicates(),
            forall|i: int| 0 <= i < r@.len() ==> (#[trigger] r@[i]).valid(),
            forall|t: Square|
                t.valid() ==> (r@.contains(t) <==> (self.piece_on(t) matches Some(p) && p.side
                    == side)),
    {
        let codes = engine_player_squares(&self.state, side_to_engine(side));
        let r = squares_of(&codes);
        proof {
            assert forall|t: Square|
                t.valid() implies (r@.contains(t) <==> (self.piece_on(t) matches Some(p) && p.side
                == side)) by {
                assert(side_of_engine(engine_side_of(side)) == side);
            }
        }
        r
    }

    /// Makes the move `m` on the board. The turn is not checked here against the
    /// caller; the engine refuses a piece of the side not to move.
    pub fn apply_move(&mut self, m: Move) -> (r: Result<(), MoveError>)
        requires
            m.from.valid(),
            m.to.valid(),
        ensures
            (r == Err::<(), MoveError>(MoveError::Illegal)) == !old(self).accepts(m),
            r != Err::<(), MoveError>(MoveError::Illegal) ==> old(self).made_move(final(self), m),
            r == Err::<(), MoveError>(MoveError::Illegal) ==> *final(self) == *old(self),
    {
        if engine_ply(&self.state) == 65535 || !self.hands_have_room() {
            return Err(MoveError::Illegal);
        }
        engine_make_move(&mut self.state, m.from.index(), m.to.index(), m.promote)
    }

    /// Whether every hand counter of the side to move can take one more piece.
    fn hands_have_room(&self) -> (r: bool)
        ensures
            r == hands_have_room(self.state),
    {
        let c = engine_side_to_move(&self.state);
        let room = engine_hand_count(&self.state, shogi::PieceType::King, c) < 255
            && engine_hand_count(&self.state, shogi::PieceType::Rook, c) < 255
            && engine_hand_count(&self.state, shogi::PieceType::Bishop, c) < 255
            && engine_hand_count(&self.state, shogi::PieceType::Gold, c) < 255
            && engine_hand_count(&self.state, shogi::PieceType::Silver, c) < 255
            && engine_hand_count(&self.state, shogi::PieceType::Knight, c) < 255
            && engine_hand_count(&self.state, shogi::PieceType::Lance, c) < 255
            && engine_hand_count(&self.state, shogi::PieceType::Pawn, c) < 255
            && engine_hand_count(&self.state, shogi::PieceType::ProRook, c) < 255
            && engine_hand_count(&self.state, shogi::PieceType::ProBishop, c) < 255
            && engine_hand_count(&self.state, shogi::PieceType::ProSilver, c) < 255
            && engine_hand_count(&self.state, shogi::PieceType::ProKnight, c) < 255
            && engine_hand_count(&self.state, shogi::PieceType::ProLance, c) < 255
            && engine_hand_count(&self.state, shogi::PieceType::ProPawn, c) < 255;
        proof {
            if room {
                assert forall|k: PieceKind| hand_count_of(self.state, k, turn_of(self.state)) < 255 by {
                    match k {
                        PieceKind::King => {},
                        PieceKind::Rook => {},
                        PieceKind::Bishop => {},
                        PieceKind::Gold => {},
                        PieceKind::Silver => {},
                        PieceKind::Knight => {},
                        PieceKind::Lance => {},
                        PieceKind::Pawn => {},
                        PieceKind::ProRook => {},
                        PieceKind::ProBishop => {},
                        PieceKind::ProSilver => {},
                        PieceKind::ProKnight => {},
                        PieceKind::ProLance => {},
                        PieceKind::ProPawn => {},
                    }
                }
            }
        }
        room
    }

    /// Where the centre of a square stands in the world: the board is centred on
    /// the origin, and file 8, rank 8 is the corner of lowest coordinates.
    pub fn cell_transform(&self, sq: &Square) -> (r: (i32, i32))
        requires
            sq.valid(),
        ensures
            r.0 == (8 - sq.file) * BOARD_SCALE - BOARD_SCALE * 9 / 2 + BOARD_SCALE / 2,
            r.1 == (8 - sq.rank) * BOARD_SCALE - BOARD_SCALE * 9 / 2 + BOARD_SCALE / 2,
    {
        let cell_size: i32 = BOARD_SCALE / 2;
        let x: i32 = (8 - sq.file as i32) * BOARD_SCALE - BOARD_SCALE * 9 / 2 + cell_size;
        let y: i32 = (8 - sq.rank as i32) * BOARD_SCALE - BOARD_SCALE * 9 / 2 + cell_size;
        (x, y)
    }
}

/// A move that the engine makes empties its origin square, puts the moving piece
/// (promoted where asked) on its destination in place of any piece taken there,
/// leaves every other square as it was, and passes the turn to the other side.
pub proof fn lemma_move_result(before: Board, after: Board, m: Move)
    requires
        m.from.valid(),
        m.to.valid(),
        before.made_move(&after, m),
    ensures
        after.piece_on(m.from) is None,
        before.piece_on(m.from) matches Some(p) && after.piece_on(m.to) == Some(
            placed_piece(p, m.promote),
        ),
        forall|sq: Square|
            sq.valid() && sq != m.from && sq != m.to ==> after.piece_on(sq) == before.piece_on(sq),
        after.turn() == before.turn().opponent(),
        after.turn() != before.turn(),
{
    assert forall|sq: Square|
        sq.valid() && sq != m.from && sq != m.to implies after.piece_on(sq) == before.piece_on(
            sq,
        ) by {
        crate::piece::lemma_index_round_trip(sq);
        crate::piece::lemma_index_round_trip(m.from);
        crate::piece::lemma_index_round_trip(m.to);
    }
}

} // verus!
