//! ProgressTracker: counters for network transfer and checkout progress.
//!
//! One tracker is owned by a single running clone or pull operation; the
//! transport's transfer callback and the checkout callback both update it,
//! and each transfer update yields a report from which one overwritable
//! status line is rendered. The transition into the delta-resolution phase
//! asks for exactly one newline before its first line.

use vstd::prelude::*;

use crate::bytes::{
    append_bytes, dec_digits, format_usize, pad_bytes_left, pad_left, B_COLON, B_COMMA, B_CR,
    B_LF, B_LOW_A, B_LOW_B, B_LOW_C, B_LOW_D, B_LOW_E, B_LOW_G, B_LOW_H, B_LOW_I, B_LOW_J,
    B_LOW_K, B_LOW_L, B_LOW_N, B_LOW_O, B_LOW_S, B_LOW_T, B_LOW_V, B_LOW_X, B_LPAREN, B_PERCENT,
    B_RPAREN, B_SLASH, B_SPACE, B_UP_R,
};

verus! {

/// The percentage of `cur` out of `total`, clamped to the range 0 to 100;
/// a zero total yields 0 rather than a fault.
pub open spec fn percent_of(cur: int, total: int) -> int {
    if total <= 0 || cur <= 0 {
        0
    } else if cur >= total {
        100
    } else {
        cur * 100 / total
    }
}

/// A reported percentage never leaves the range 0 to 100, whatever the
/// counts; in particular a total of zero yields 0.
pub proof fn lemma_percent_bounds(cur: int, total: int)
    ensures
        0 <= percent_of(cur, total) <= 100,
{
    if total <= 0 || cur <= 0 {
    } else if cur >= total {
    } else {
        assert(0 <= cur * 100 / total < 100) by (nonlinear_arith)
            requires
                0 < cur < total,
        ;
    }
}

/// Computes the clamped percentage on machine integers.
pub fn percent(cur: usize, total: usize) -> (r: usize)
    ensures
        r == percent_of(cur as int, total as int),
        0 <= r <= 100,
{
    proof {
        lemma_percent_bounds(cur as int, total as int);
    }
    if total == 0 || cur == 0 {
        0
    } else if cur >= total {
        100
    } else {
        let c = cur as u128;
        let t = total as u128;
        let q = (c * 100) / t;
        assert(q == percent_of(cur as int, total as int));
        q as usize
    }
}

/// The phase a transfer report belongs to: objects still arriving, or all
/// objects received and deltas being resolved.
#[derive(Debug, PartialEq, Eq, Structural)]
pub enum TransferPhase {
    Receiving,
    ResolvingDeltas,
}

/// The phase of a transfer event: delta resolution begins exactly when the
/// received objects reach the total.
pub open spec fn transfer_phase_of(received: int, total: int) -> TransferPhase {
    if received == total {
        TransferPhase::ResolvingDeltas
    } else {
        TransferPhase::Receiving
    }
}

/// Everything one rendered status line needs, computed from one transfer
/// event and the checkout counters current at that moment.
pub struct TransferReport {
    pub phase: TransferPhase,
    /// A receiving-phase line is still open and must be closed by one
    /// newline before this report's line is rendered.
    pub emit_newline_first: bool,
    pub network_percent: usize,
    pub index_percent: usize,
    pub checkout_percent: usize,
    pub transferred_kbytes: usize,
    pub received_objects: usize,
    pub total_objects: usize,
    pub indexed_objects: usize,
    pub indexed_deltas: usize,
    pub total_deltas: usize,
}

/// Progress state of one running operation: the path being checked out,
/// the checkout counters, and whether a receiving-phase status line has
/// been rendered and left open.
pub struct ProgressTracker {
    pub working_path: Vec<u8>,
    pub line_open: bool,
    pub total_units: usize,
    pub completed_units: usize,
}

impl ProgressTracker {
    /// A fresh tracker: no line open, no checkout progress, working at the
    /// operation's target path.
    pub fn new(working_path: Vec<u8>) -> (t: ProgressTracker)
        ensures
            t.working_path@ == working_path@,
            !t.line_open,
            t.total_units == 0,
            t.completed_units == 0,
    {
        ProgressTracker { working_path, line_open: false, total_units: 0, completed_units: 0 }
    }

    /// Takes one transfer event and yields the report for its status line.
    /// All percentages are clamped to the range 0 to 100 — a transfer whose
    /// object total is zero reports 0% — and exactly the transition into
    /// the delta-resolution phase closes an open receiving line with one
    /// newline.
    pub fn report_transfer(
        &mut self,
        received_objects: usize,
        total_objects: usize,
        indexed_objects: usize,
        indexed_deltas: usize,
        total_deltas: usize,
        received_bytes: usize,
    ) -> (r: TransferReport)
        ensures
            r.phase == transfer_phase_of(received_objects as int, total_objects as int),
            r.emit_newline_first == (old(self).line_open && received_objects == total_objects),
            r.network_percent == percent_of(received_objects as int, total_objects as int),
            r.index_percent == percent_of(indexed_objects as int, total_objects as int),
            r.checkout_percent == percent_of(
                old(self).completed_units as int,
                old(self).total_units as int,
            ),
            0 <= r.network_percent <= 100,
            0 <= r.index_percent <= 100,
            0 <= r.checkout_percent <= 100,
            r.transferred_kbytes == received_bytes as int / 1024,
            r.received_objects == received_objects,
            r.total_objects == total_objects,
            r.indexed_objects == indexed_objects,
            r.indexed_deltas == indexed_deltas,
            r.total_deltas == total_deltas,
            final(self).line_open == (received_objects != total_objects),
            final(self).working_path == old(self).working_path,
            final(self).total_units == old(self).total_units,
            final(self).completed_units == old(self).completed_units,
    {
        let entering_deltas = received_objects == total_objects;
        let emit_newline_first = self.line_open && entering_deltas;
        let report = TransferReport {
            phase: if entering_deltas {
                TransferPhase::ResolvingDeltas
            } else {
                TransferPhase::Receiving
            },
            emit_newline_first,
            network_percent: percent(received_objects, total_objects),
            index_percent: percent(indexed_objects, total_objects),
            checkout_percent: percent(self.completed_units, self.total_units),
            transferred_kbytes: received_bytes / 1024,
            received_objects,
            total_objects,
            indexed_objects,
            indexed_deltas,
            total_deltas,
        };
        self.line_open = !entering_deltas;
        report
    }

    /// Takes one checkout event: the path being written (none stands for an
    /// empty path) and the checkout counters.
    pub fn report_checkout(&mut self, path: Option<Vec<u8>>, completed: usize, total: usize)
        ensures
            final(self).working_path@ == (match path {
                Some(p) => p@,
                None => Seq::<u8>::empty(),
            }),
            final(self).completed_units == completed,
            final(self).total_units == total,
            final(self).line_open == old(self).line_open,
    {
        self.working_path = match path {
            Some(p) => p,
            None => Vec::new(),
        };
        self.completed_units = completed;
        self.total_units = total;
    }
}


// ---------------------------------------------------------------------------
// The rendered status line.
// ---------------------------------------------------------------------------

/// The bytes of `Receiving objects: `.
pub open spec fn lbl_receiving() -> Seq<u8> {
    seq![
        B_UP_R, B_LOW_E, B_LOW_C, B_LOW_E, B_LOW_I, B_LOW_V, B_LOW_I, B_LOW_N, B_LOW_G, B_SPACE,
        B_LOW_O, B_LOW_B, B_LOW_J, B_LOW_E, B_LOW_C, B_LOW_T, B_LOW_S, B_COLON, B_SPACE,
    ]
}

/// The bytes of `Resolving deltas: `.
pub open spec fn lbl_deltas() -> Seq<u8> {
    seq![
        B_UP_R, B_LOW_E, B_LOW_S, B_LOW_O, B_LOW_L, B_LOW_V, B_LOW_I, B_LOW_N, B_LOW_G, B_SPACE,
        B_LOW_D, B_LOW_E, B_LOW_L, B_LOW_T, B_LOW_A, B_LOW_S, B_COLON, B_SPACE,
    ]
}

/// The bytes of `% (`.
pub open spec fn lbl_pct_open() -> Seq<u8> {
    seq![B_PERCENT, B_SPACE, B_LPAREN]
}

/// The bytes of ` kb, `.
pub open spec fn lbl_kb() -> Seq<u8> {
    seq![B_SPACE, B_LOW_K, B_LOW_B, B_COMMA, B_SPACE]
}

/// The bytes of `) / idx `.
pub open spec fn lbl_idx() -> Seq<u8> {
    seq![B_RPAREN, B_SPACE, B_SLASH, B_SPACE, B_LOW_I, B_LOW_D, B_LOW_X, B_SPACE]
}

/// The bytes of `) / chk `.
pub open spec fn lbl_chk() -> Seq<u8> {
    seq![B_RPAREN, B_SPACE, B_SLASH, B_SPACE, B_LOW_C, B_LOW_H, B_LOW_K, B_SPACE]
}

/// The bytes of `) `.
pub open spec fn lbl_close() -> Seq<u8> {
    seq![B_RPAREN, B_SPACE]
}

/// The receiving-phase line: network, index and checkout percentages with
/// their counts, and the path being written, each count left-padded to a
/// fixed width so successive lines overwrite each other cleanly.
pub open spec fn receiving_line_of(
    r: TransferReport,
    path: Seq<u8>,
    completed: nat,
    total: nat,
) -> Seq<u8> {
    lbl_receiving() + pad_left(dec_digits(r.network_percent as nat), 3) + lbl_pct_open()
        + pad_left(dec_digits(r.transferred_kbytes as nat), 4) + lbl_kb() + pad_left(
        dec_digits(r.received_objects as nat),
        5,
    ) + seq![B_SLASH] + pad_left(dec_digits(r.total_objects as nat), 5) + lbl_idx() + pad_left(
        dec_digits(r.index_percent as nat),
        3,
    ) + lbl_pct_open() + pad_left(dec_digits(r.indexed_objects as nat), 5) + seq![B_SLASH]
        + pad_left(dec_digits(r.total_objects as nat), 5) + lbl_chk() + pad_left(
        dec_digits(r.checkout_percent as nat),
        3,
    ) + lbl_pct_open() + pad_left(dec_digits(completed), 4) + seq![B_SLASH] + pad_left(
        dec_digits(total),
        4,
    ) + lbl_close() + path
}

/// The delta-resolution line: resolved deltas out of their total.
pub open spec fn deltas_line_of(r: TransferReport) -> Seq<u8> {
    lbl_deltas() + dec_digits(r.indexed_deltas as nat) + seq![B_SLASH] + dec_digits(
        r.total_deltas as nat,
    )
}

/// One rendered status line: a newline first exactly when the report
/// closes an open receiving line, then the phase's line, terminated by a
/// carriage return (and no newline) so that the next line overwrites it.
pub open spec fn status_line_of(
    r: TransferReport,
    path: Seq<u8>,
    completed: nat,
    total: nat,
) -> Seq<u8> {
    (if r.emit_newline_first {
        seq![B_LF]
    } else {
        Seq::<u8>::empty()
    }) + (if r.phase is ResolvingDeltas {
        deltas_line_of(r)
    } else {
        receiving_line_of(r, path, completed, total)
    }) + seq![B_CR]
}

/// Appends one count, left-padded to width `w`.
fn push_count(out: &mut Vec<u8>, n: usize, w: usize)
    ensures
        final(out)@ == old(out)@ + pad_left(dec_digits(n as nat), w as nat),
{
    let digits = format_usize(n);
    let padded = pad_bytes_left(digits, w);
    append_bytes(out, padded.as_slice());
}

impl ProgressTracker {
    /// Builds the receiving-phase line for one report.
    #[verifier::rlimit(60)]
    fn receiving_line(&self, report: &TransferReport) -> (r: Vec<u8>)
        ensures
            r@ == receiving_line_of(
                *report,
                self.working_path@,
                self.completed_units as nat,
                self.total_units as nat,
            ),
    {
        let mut out: Vec<u8> = Vec::new();
        let lbl: [u8; 19] = [
            B_UP_R, B_LOW_E, B_LOW_C, B_LOW_E, B_LOW_I, B_LOW_V, B_LOW_I, B_LOW_N, B_LOW_G,
            B_SPACE, B_LOW_O, B_LOW_B, B_LOW_J, B_LOW_E, B_LOW_C, B_LOW_T, B_LOW_S, B_COLON,
            B_SPACE,
        ];
        let pct_open: [u8; 3] = [B_PERCENT, B_SPACE, B_LPAREN];
        let kb: [u8; 5] = [B_SPACE, B_LOW_K, B_LOW_B, B_COMMA, B_SPACE];
        let idx: [u8; 8] = [
            B_RPAREN, B_SPACE, B_SLASH, B_SPACE, B_LOW_I, B_LOW_D, B_LOW_X, B_SPACE,
        ];
        let chk: [u8; 8] = [
            B_RPAREN, B_SPACE, B_SLASH, B_SPACE, B_LOW_C, B_LOW_H, B_LOW_K, B_SPACE,
        ];
        let close: [u8; 2] = [B_RPAREN, B_SPACE];
        proof {
            assert(lbl@ =~= lbl_receiving());
            assert(pct_open@ =~= lbl_pct_open());
            assert(kb@ =~= lbl_kb());
            assert(idx@ =~= lbl_idx());
            assert(chk@ =~= lbl_chk());
            assert(close@ =~= lbl_close());
        }
        append_bytes(&mut out, &lbl);
        push_count(&mut out, report.network_percent, 3);
        append_bytes(&mut out, &pct_open);
        push_count(&mut out, report.transferred_kbytes, 4);
        append_bytes(&mut out, &kb);
        push_count(&mut out, report.received_objects, 5);
        out.push(B_SLASH);
        push_count(&mut out, report.total_objects, 5);
        append_bytes(&mut out, &idx);
        push_count(&mut out, report.index_percent, 3);
        append_bytes(&mut out, &pct_open);
        push_count(&mut out, report.indexed_objects, 5);
        out.push(B_SLASH);
        push_count(&mut out, report.total_objects, 5);
        append_bytes(&mut out, &chk);
        push_count(&mut out, report.checkout_percent, 3);
        append_bytes(&mut out, &pct_open);
        push_count(&mut out, self.completed_units, 4);
        out.push(B_SLASH);
        push_count(&mut out, self.total_units, 4);
        append_bytes(&mut out, &close);
        append_bytes(&mut out, self.working_path.as_slice());
        proof {
            assert(out@ =~= receiving_line_of(
                *report,
                self.working_path@,
                self.completed_units as nat,
                self.total_units as nat,
            ));
        }
        out
    }

    /// Builds the delta-resolution line for one report.
    fn deltas_line(report: &TransferReport) -> (r: Vec<u8>)
        ensures
            r@ == deltas_line_of(*report),
    {
        let mut out: Vec<u8> = Vec::new();
        let lbl: [u8; 18] = [
            B_UP_R, B_LOW_E, B_LOW_S, B_LOW_O, B_LOW_L, B_LOW_V, B_LOW_I, B_LOW_N, B_LOW_G,
            B_SPACE, B_LOW_D, B_LOW_E, B_LOW_L, B_LOW_T, B_LOW_A, B_LOW_S, B_COLON, B_SPACE,
        ];
        append_bytes(&mut out, &lbl);
        proof {
            assert(lbl@ =~= lbl_deltas());
        }
        let resolved = format_usize(report.indexed_deltas);
        append_bytes(&mut out, resolved.as_slice());
        out.push(B_SLASH);
        let total_deltas = format_usize(report.total_deltas);
        append_bytes(&mut out, total_deltas.as_slice());
        proof {
            assert(out@ =~= deltas_line_of(*report));
        }
        out
    }

    /// Renders the overwritable status line for one transfer report, with
    /// the checkout counters current at that moment.
    pub fn status_line(&self, report: &TransferReport) -> (r: Vec<u8>)
        ensures
            r@ == status_line_of(
                *report,
                self.working_path@,
                self.completed_units as nat,
                self.total_units as nat,
            ),
    {
        let mut out: Vec<u8> = Vec::new();
        if report.emit_newline_first {
            out.push(B_LF);
        }
        let ghost nl = out@;
        let body = match report.phase {
            TransferPhase::ResolvingDeltas => Self::deltas_line(report),
            TransferPhase::Receiving => self.receiving_line(report),
        };
        append_bytes(&mut out, body.as_slice());
        out.push(B_CR);
        proof {
            assert(out@ =~= status_line_of(
                *report,
                self.working_path@,
                self.completed_units as nat,
                self.total_units as nat,
            ));
        }
        out
    }
}


/// The bytes of `total objects: `.
pub open spec fn lbl_total_objects() -> Seq<u8> {
    seq![
        B_LOW_T, B_LOW_O, B_LOW_T, B_LOW_A, B_LOW_L, B_SPACE, B_LOW_O, B_LOW_B, B_LOW_J, B_LOW_E,
        B_LOW_C, B_LOW_T, B_LOW_S, B_COLON, B_SPACE,
    ]
}

/// The overwritable line a pull's fetch renders for one transfer event:
/// `total objects: <n> `, carriage-return-terminated.
pub open spec fn fetch_line_of(total_objects: nat) -> Seq<u8> {
    lbl_total_objects() + dec_digits(total_objects) + seq![B_SPACE, B_CR]
}

/// Renders the fetch progress line of a pull.
pub fn fetch_progress_line(total_objects: usize) -> (r: Vec<u8>)
    ensures
        r@ == fetch_line_of(total_objects as nat),
{
    let lbl: [u8; 15] = [
        B_LOW_T, B_LOW_O, B_LOW_T, B_LOW_A, B_LOW_L, B_SPACE, B_LOW_O, B_LOW_B, B_LOW_J, B_LOW_E,
        B_LOW_C, B_LOW_T, B_LOW_S, B_COLON, B_SPACE,
    ];
    let mut out: Vec<u8> = Vec::new();
    append_bytes(&mut out, &lbl);
    proof {
        assert(lbl@ =~= lbl_total_objects());
    }
    let count = format_usize(total_objects);
    append_bytes(&mut out, count.as_slice());
    out.push(B_SPACE);
    out.push(B_CR);
    proof {
        assert(out@ =~= fetch_line_of(total_objects as nat));
    }
    out
}

} // verus!
