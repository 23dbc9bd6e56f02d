use vstd::prelude::*;
use vstd::string::StringExecFns;
use crate::piece::{Piece, PieceKind, Side};

verus! {

/// The two letters that name a kind of piece in the sprite set.
pub open spec fn kind_letters(k: PieceKind) -> Seq<char> {
    match k {
        PieceKind::King => seq!['O', 'U'],
        PieceKind::Rook => seq!['H', 'I'],
        PieceKind::Bishop => seq!['K', 'A'],
        PieceKind::Gold => seq!['K', 'I'],
        PieceKind::Silver => seq!['G', 'I'],
        PieceKind::Knight => seq!['K', 'E'],
        PieceKind::Lance => seq!['K', 'Y'],
        PieceKind::Pawn => seq!['F', 'U'],
        PieceKind::ProRook => seq!['R', 'Y'],
        PieceKind::ProBishop => seq!['U', 'M'],
        PieceKind::ProSilver => seq!['N', 'G'],
        PieceKind::ProKnight => seq!['N', 'K'],
        PieceKind::ProLance => seq!['N', 'Y'],
        PieceKind::ProPawn => seq!['T', 'O'],
    }
}

/// The digit that names a side in the sprite set: 0 for Black, 1 for White.
pub open spec fn side_digit(s: Side) -> Seq<char> {
    match s {
        Side::Black => seq!['0'],
        Side::White => seq!['1'],
    }
}

/// The file name of a piece's sprite: side digit, kind letters, then `.svg`.
pub open spec fn sprite_name(p: Piece) -> Seq<char> {
    side_digit(p.side) + kind_letters(p.kind) + seq!['.', 's', 'v', 'g']
}

pub fn kind_code(k: PieceKind) -> (r: &'static str)
    ensures
        r@ == kind_letters(k),
{
    match k {
        PieceKind::King => {
            proof {
                reveal_strlit("OU");
            }
            "OU"
        },
        PieceKind::Rook => {
            proof {
                reveal_strlit("HI");
            }
            "HI"
        },
        PieceKind::Bishop => {
            proof {
                reveal_strlit("KA");
            }
            "KA"
        },
        PieceKind::Gold => {
            proof {
                reveal_strlit("KI");
            }
            "KI"
        },
        PieceKind::Silver => {
            proof {
                reveal_strlit("GI");
            }
            "GI"
        },
        PieceKind::Knight => {
            proof {
                reveal_strlit("KE");
            }
            "KE"
        },
        PieceKind::Lance => {
            proof {
                reveal_strlit("KY");
            }
            "KY"
        },
        PieceKind::Pawn => {
            proof {
                reveal_strlit("FU");
            }
            "FU"
        },
        PieceKind::ProRook => {
            proof {
                reveal_strlit("RY");
            }
            "RY"
        },
        PieceKind::ProBishop => {
            proof {
                reveal_strlit("UM");
            }
            "UM"
        },
        PieceKind::ProSilver => {
            proof {
                reveal_strlit("NG");
            }
            "NG"
        },
        PieceKind::ProKnight => {
            proof {
                reveal_strlit("NK");
            }
            "NK"
        },
        PieceKind::ProLance => {
            proof {
                reveal_strlit("NY");
            }
            "NY"
        },
        PieceKind::ProPawn => {
            proof {
                reveal_strlit("TO");
            }
            "TO"
        },
    }
}

pub fn side_code(s: Side) -> (r: &'static str)
    ensures
        r@ == side_digit(s),
{
    match s {
        Side::Black => {
            proof {
                reveal_strlit("0");
            }
            "0"
        },
        Side::White => {
            proof {
                reveal_strlit("1");
            }
            "1"
        },
    }
}

/// The sprite file to draw for a piece.
pub fn piece_to_sprite(piece: &Piece) -> (r: String)
    ensures
        r@ == sprite_name(*piece),
{
    let mut name = String::from_str(side_code(piece.side));
    name.append(kind_code(piece.kind));
    proof {
        reveal_strlit(".svg");
    }
    name.append(".svg");
    name
}

} // verus!
