use vstd::prelude::*;

verus! {

#[verifier::external_type_specification]
pub struct ExEngineColor(shogi::Color);

#[verifier::external_type_specification]
pub struct ExEnginePieceType(shogi::PieceType);

/// One of the two players. Black moves first.
#[derive(Clone, Copy, Debug, PartialEq, Eq, Structural)]
pub enum Side {
    Black,
    White,
}

impl Side {
    /// The other player.
    pub open spec fn opponent(self) -> Side {
        match self {
            Side::Black => Side::White,
            Side::White => Side::Black,
        }
    }

    pub fn flip(self) -> (r: Side)
        ensures
            r == self.opponent(),
    {
        match self {
            Side::Black => Side::White,
            Side::White => Side::Black,
        }
    }
}

pub open spec fn side_of_engine(c: shogi::Color) -> Side {
    match c {
        shogi::Color::Black => Side::Black,
        shogi::Color::White => Side::White,
    }
}

pub fn side_from_engine(c: shogi::Color) -> (r: Side)
    ensures
        r == side_of_engine(c),
{
    match c {
        shogi::Color::Black => Side::Black,
        shogi::Color::White => Side::White,
    }
}

/// The fourteen kinds of shogi pieces: eight base kinds and six promoted ones.
#[derive(Clone, Copy, Debug, PartialEq, Eq, Structural)]
pub enum PieceKind {
    King,
    Rook,
    Bishop,
    Gold,
    Silver,
    Knight,
    Lance,
    Pawn,
    ProRook,
    ProBishop,
    ProSilver,
    ProKnight,
    ProLance,
    ProPawn,
}

/// The engine's kind for each kind of this library.
pub open spec fn engine_kind_of(k: PieceKind) -> shogi::PieceType {
    match k {
        PieceKind::King => shogi::PieceType::King,
        PieceKind::Rook => shogi::PieceType::Rook,
        PieceKind::Bishop => shogi::PieceType::Bishop,
        PieceKind::Gold => shogi::PieceType::Gold,
        PieceKind::Silver => shogi::PieceType::Silver,
        PieceKind::Knight => shogi::PieceType::Knight,
        PieceKind::Lance => shogi::PieceType::Lance,
        PieceKind::Pawn => shogi::PieceType::Pawn,
        PieceKind::ProRook => shogi::PieceType::ProRook,
        PieceKind::ProBishop => shogi::PieceType::ProBishop,
        PieceKind::ProSilver => shogi::PieceType::ProSilver,
        PieceKind::ProKnight => shogi::PieceType::ProKnight,
        PieceKind::ProLance => shogi::PieceType::ProLance,
        PieceKind::ProPawn => shogi::PieceType::ProPawn,
    }
}

pub open spec fn kind_of_engine(t: shogi::PieceType) -> PieceKind {
    match t {
        shogi::PieceType::King => PieceKind::King,
        shogi::PieceType::Rook => PieceKind::Rook,
        shogi::PieceType::Bishop => PieceKind::Bishop,
        shogi::PieceType::Gold => PieceKind::Gold,
        shogi::PieceType::Silver => PieceKind::Silver,
        shogi::PieceType::Knight => PieceKind::Knight,
        shogi::PieceType::Lance => PieceKind::Lance,
        shogi::PieceType::Pawn => PieceKind::Pawn,
        shogi::PieceType::ProRook => PieceKind::ProRook,
        shogi::PieceType::ProBishop => PieceKind::ProBishop,
        shogi::PieceType::ProSilver => PieceKind::ProSilver,
        shogi::PieceType::ProKnight => PieceKind::ProKnight,
        shogi::PieceType::ProLance => PieceKind::ProLance,
        shogi::PieceType::ProPawn => PieceKind::ProPawn,
    }
}

pub fn kind_to_engine(k: PieceKind) -> (r: shogi::PieceType)
    ensures
        r == engine_kind_of(k),
        kind_of_engine(r) == k,
{
    match k {
        PieceKind::King => shogi::PieceType::King,
        PieceKind::Rook => shogi::PieceType::Rook,
        PieceKind::Bishop => shogi::PieceType::Bishop,
        PieceKind::Gold => shogi::PieceType::Gold,
        PieceKind::Silver => shogi::PieceType::Silver,
        PieceKind::Knight => shogi::PieceType::Knight,
        PieceKind::Lance => shogi::PieceType::Lance,
        PieceKind::Pawn => shogi::PieceType::Pawn,
        PieceKind::ProRook => shogi::PieceType::ProRook,
        PieceKind::ProBishop => shogi::PieceType::ProBishop,
        PieceKind::ProSilver => shogi::PieceType::ProSilver,
        PieceKind::ProKnight => shogi::PieceType::ProKnight,
        PieceKind::ProLance => shogi::PieceType::ProLance,
        PieceKind::ProPawn => shogi::PieceType::ProPawn,
    }
}

pub fn kind_from_engine(t: shogi::PieceType) -> (r: PieceKind)
    ensures
        r == kind_of_engine(t),
        engine_kind_of(r) == t,
{
    match t {
        shogi::PieceType::King => PieceKind::King,
        shogi::PieceType::Rook => PieceKind::Rook,
        shogi::PieceType::Bishop => PieceKind::Bishop,
        shogi::PieceType::Gold => PieceKind::Gold,
        shogi::PieceType::Silver => PieceKind::Silver,
        shogi::PieceType::Knight => PieceKind::Knight,
        shogi::PieceType::Lance => PieceKind::Lance,
        shogi::PieceType::Pawn => PieceKind::Pawn,
        shogi::PieceType::ProRook => PieceKind::ProRook,
        shogi::PieceType::ProBishop => PieceKind::ProBishop,
        shogi::PieceType::ProSilver => PieceKind::ProSilver,
        shogi::PieceType::ProKnight => PieceKind::ProKnight,
        shogi::PieceType::ProLance => PieceKind::ProLance,
        shogi::PieceType::ProPawn => PieceKind::ProPawn,
    }
}

pub open spec fn engine_side_of(s: Side) -> shogi::Color {
    match s {
        Side::Black => shogi::Color::Black,
        Side::White => shogi::Color::White,
    }
}

pub fn side_to_engine(s: Side) -> (r: shogi::Color)
    ensures
        r == engine_side_of(s),
        side_of_engine(r) == s,
{
    match s {
        Side::Black => shogi::Color::Black,
        Side::White => shogi::Color::White,
    }
}

/// A piece on the board: its kind and the side that owns it.
#[derive(Clone, Copy, Debug, PartialEq, Eq, Structural)]
pub struct Piece {
    pub kind: PieceKind,
    pub side: Side,
}

/// The piece that the engine describes by its kind and its color.
pub open spec fn piece_of_engine(p: (shogi::PieceType, shogi::Color)) -> Piece {
    Piece { kind: kind_of_engine(p.0), side: side_of_engine(p.1) }
}

pub fn piece_from_engine(p: (shogi::PieceType, shogi::Color)) -> (r: Piece)
    ensures
        r == piece_of_engine(p),
{
    Piece { kind: kind_from_engine(p.0), side: side_from_engine(p.1) }
}

/// A square of the 9x9 board. `file` and `rank` count from 0; a valid square
/// has both below 9.
#[derive(Clone, Copy, Debug, PartialEq, Eq, Structural)]
pub struct Square {
    pub file: u8,
    pub rank: u8,
}

impl Square {
    pub open spec fn valid(self) -> bool {
        self.file < 9 && self.rank < 9
    }

    /// The square's number, `9 * file + rank`, in `0..81`.
    pub open spec fn index_of(self) -> int {
        9 * self.file + self.rank
    }

    /// The square with the given number.
    pub open spec fn at_index(i: int) -> Square {
        Square { file: (i / 9) as u8, rank: (i % 9) as u8 }
    }

    /// The square at the given file and rank, or `None` where either is 9 or more.
    pub fn new(file: u8, rank: u8) -> (r: Option<Square>)
        ensures
            r == (if file < 9 && rank < 9 {
                Some(Square { file, rank })
            } else {
                None
            }),
    {
        if file < 9 && rank < 9 {
            Some(Square { file, rank })
        } else {
            None
        }
    }

    pub fn index(self) -> (r: u8)
        requires
            self.valid(),
        ensures
            r as int == self.index_of(),
            r < 81,
    {
        9 * self.file + self.rank
    }

    pub fn from_index(i: u8) -> (r: Square)
        requires
            i < 81,
        ensures
            r == Square::at_index(i as int),
            r.valid(),
            r.index_of() == i,
    {
        Square { file: i / 9, rank: i % 9 }
    }
}

pub proof fn lemma_index_round_trip(s: Square)
    requires
        s.valid(),
    ensures
        Square::at_index(s.index_of()) == s,
        0 <= s.index_of() < 81,
{
}

pub proof fn lemma_at_index_injective(a: int, b: int)
    requires
        0 <= a < 81,
        0 <= b < 81,
        Square::at_index(a) == Square::at_index(b),
    ensures
        a == b,
{
}

pub proof fn lemma_engine_piece_round_trip(p: Piece)
    ensures
        piece_of_engine((engine_kind_of(p.kind), engine_side_of(p.side))) == p,
{
}

} // verus!
