use vstd::prelude::*;
use vstd::string::StringSliceAdditionalSpecFns;

verus! {

/// Largest count of one piece in hand that a starting position may give.
pub const MAX_HAND_COUNT: u32 = 50;

/// Largest move number that the engine keeps.
pub const MAX_PLY: u32 = 65535;

/// What a left-to-right scan of an SFEN text has seen so far.
pub struct ScanState {
    /// How many whitespace-separated fields have begun.
    pub field: nat,
    /// The last byte was whitespace, or nothing has been read yet.
    pub in_space: bool,
    /// The value of the run of digits that ends here, inside the hand field.
    pub hand_run: nat,
    /// The value of the run of digits that ends here, inside the move-number field.
    pub ply_run: nat,
    /// Some run of digits in the hand field went over `MAX_HAND_COUNT`, or a byte
    /// outside ASCII was read.
    pub over: bool,
    /// The largest move number read so far.
    pub ply: nat,
}

/// The bytes that `char::is_whitespace` accepts among ASCII.
pub open spec fn is_space(b: u8) -> bool {
    b == 9 || b == 10 || b == 11 || b == 12 || b == 13 || b == 32
}

pub open spec fn is_digit(b: u8) -> bool {
    48 <= b <= 57
}

pub open spec fn scan_start() -> ScanState {
    ScanState { field: 0, in_space: true, hand_run: 0, ply_run: 0, over: false, ply: 0 }
}

/// One byte of the scan. Fields are counted from 1: the board, the side to move,
/// the pieces in hand, the move number, then the moves.
pub open spec fn scan_step(st: ScanState, b: u8) -> ScanState {
    if b >= 128 {
        ScanState { over: true, hand_run: 0, ply_run: 0, ..st }
    } else if is_space(b) {
        ScanState { in_space: true, hand_run: 0, ply_run: 0, ..st }
    } else {
        let field = if st.in_space { st.field + 1 } else { st.field };
        let d = (b - 48) as nat;
        let hand_run = if field == 3 && is_digit(b) { st.hand_run * 10 + d } else { 0 };
        let ply_run = if field == 4 && is_digit(b) { st.ply_run * 10 + d } else { 0 };
        ScanState {
            field,
            in_space: false,
            hand_run,
            ply_run,
            over: st.over || hand_run > MAX_HAND_COUNT,
            ply: if ply_run > st.ply { ply_run } else { st.ply },
        }
    }
}

pub open spec fn scan(bytes: Seq<u8>) -> ScanState
    decreases bytes.len(),
{
    if bytes.len() == 0 {
        scan_start()
    } else {
        scan_step(scan(bytes.drop_last()), bytes.last())
    }
}

/// An SFEN text within the engine's counters: ASCII only, each count of pieces
/// in hand at most `MAX_HAND_COUNT`, and the move number plus the text's length
/// (a bound on the moves that follow it) at most `MAX_PLY`.
pub open spec fn sfen_fits(bytes: Seq<u8>) -> bool {
    !scan(bytes).over && scan(bytes).ply + bytes.len() <= MAX_PLY
}

/// Decides `sfen_fits` on the text's bytes.
pub fn sfen_within_limits(sfen: &str) -> (r: bool)
    ensures
        r == sfen_fits(sfen.spec_bytes()),
{
    let bytes = sfen.as_bytes();
    let n = bytes.len();
    if n > MAX_PLY as usize {
        return false;
    }
    let mut field: usize = 0;
    let mut in_space = true;
    let mut hand_run: u32 = 0;
    let mut ply_run: u32 = 0;
    let mut ply: u32 = 0;
    let mut i: usize = 0;
    while i < n
        invariant
            n == bytes@.len(),
            bytes@ == sfen.spec_bytes(),
            n <= MAX_PLY,
            0 <= i <= n,
            field <= i,
            hand_run <= MAX_HAND_COUNT,
            ply_run <= MAX_PLY,
            ply <= MAX_PLY,
            scan(bytes@.take(i as int)) == (ScanState {
                field: field as nat,
                in_space,
                hand_run: hand_run as nat,
                ply_run: ply_run as nat,
                over: false,
                ply: ply as nat,
            }),
        decreases n - i,
    {
        let b = bytes[i];
        proof {
            assert(bytes@.take(i + 1).drop_last() == bytes@.take(i as int));
            assert(bytes@.take(i + 1).last() == b);
        }
        if b >= 128 {
            proof {
                assert(scan(bytes@.take(i + 1)).over);
                lemma_over_stays(bytes@, i as int + 1);
            }
            return false;
        }
        if b == 9 || b == 10 || b == 11 || b == 12 || b == 13 || b == 32 {
            in_space = true;
            hand_run = 0;
            ply_run = 0;
        } else {
            if in_space {
                field = field + 1;
            }
            in_space = false;
            let digit = 48 <= b && b <= 57;
            if field == 3 && digit {
                let next: u32 = hand_run * 10 + (b - 48) as u32;
                if next > MAX_HAND_COUNT {
                    proof {
                        assert(scan(bytes@.take(i + 1)).hand_run == next);
                        assert(scan(bytes@.take(i + 1)).over);
                        lemma_over_stays(bytes@, i as int + 1);
                    }
                    return false;
                }
                hand_run = next;
            } else {
                hand_run = 0;
            }
            if field == 4 && digit {
                let next: u32 = ply_run * 10 + (b - 48) as u32;
                if next > MAX_PLY {
                    proof {
                        lemma_ply_grows(bytes@, i as int + 1);
                    }
                    return false;
                }
                ply_run = next;
            } else {
                ply_run = 0;
            }
            if ply_run > ply {
                ply = ply_run;
            }
        }
        i = i + 1;
    }
    proof {
        assert(bytes@.take(n as int) == bytes@);
    }
    ply as usize + n <= MAX_PLY as usize
}

/// Once the scan has gone over, it stays over.
proof fn lemma_over_stays(bytes: Seq<u8>, k: int)
    requires
        0 <= k <= bytes.len(),
        scan(bytes.take(k)).over,
    ensures
        scan(bytes).over,
    decreases bytes.len() - k,
{
    if k < bytes.len() {
        assert(bytes.take(k + 1).drop_last() == bytes.take(k));
        lemma_over_stays(bytes, k + 1);
    } else {
        assert(bytes.take(k) == bytes);
    }
}

/// The largest move number only grows as the scan goes on.
proof fn lemma_ply_grows(bytes: Seq<u8>, k: int)
    requires
        0 <= k <= bytes.len(),
        scan(bytes.take(k)).ply > MAX_PLY,
    ensures
        scan(bytes).ply > MAX_PLY,
    decreases bytes.len() - k,
{
    if k < bytes.len() {
        assert(bytes.take(k + 1).drop_last() == bytes.take(k));
        lemma_ply_grows(bytes, k + 1);
    } else {
        assert(bytes.take(k) == bytes);
    }
}

} // verus!
