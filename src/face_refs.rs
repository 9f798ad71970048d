//! A scan of the raw text that admits only face references the parser
//! resolves without arithmetic overflow.
//!
//! In a line that may be a face or line element (its first word is `f`, `l`,
//! or starts beyond ASCII), each texture-coordinate or normal index (a
//! number after a `/`) must have at most nine digits, and a negative
//! (relative) one may reach back no further than the `vt` or `vn` lines
//! before it. Where a word holds a byte beyond ASCII, which may be a
//! separator, no relative index is admitted after it.

use vstd::prelude::*;

verus! {

/// Where the scan stands in the current line.
#[derive(Clone, Copy)]
pub enum LineMode {
    /// Before the first word.
    Start,
    /// The first word so far is `v`.
    V,
    /// The first word so far is `vt`.
    Vt,
    /// The first word so far is `vn`.
    Vn,
    /// A line that holds no face reference.
    Skip,
    /// A line whose references are checked.
    Checked,
}

#[derive(Clone, Copy)]
pub struct RefScan {
    /// No reference has failed so far.
    pub ok: bool,
    /// Complete `vt` lines so far.
    pub vt_lines: u64,
    /// Complete `vn` lines so far.
    pub vn_lines: u64,
    pub mode: LineMode,
    /// Slashes in the current word, up to three.
    pub slashes: u8,
    /// The current word holds a byte beyond ASCII.
    pub dirty: bool,
    /// Reading the number after a slash.
    pub in_number: bool,
    /// A sign may still come.
    pub sign_open: bool,
    pub negative: bool,
    pub digits: u8,
    pub magnitude: u64,
    /// The largest magnitude a negative number may have here.
    pub allowed: u64,
}

/// Whitespace within a line.
pub open spec fn inline_space(c: u8) -> bool {
    c == 32 || (9 <= c <= 13 && c != 10)
}

pub open spec fn scan_start() -> RefScan {
    RefScan {
        ok: true,
        vt_lines: 0,
        vn_lines: 0,
        mode: LineMode::Start,
        slashes: 0,
        dirty: false,
        in_number: false,
        sign_open: false,
        negative: false,
        digits: 0,
        magnitude: 0,
        allowed: 0,
    }
}

pub open spec fn word_reset(st: RefScan) -> RefScan {
    RefScan { slashes: 0, dirty: false, in_number: false, ..st }
}

pub open spec fn saturating_inc(n: u64) -> u64 {
    if n < u64::MAX {
        (n + 1) as u64
    } else {
        n
    }
}

/// One byte of a checked line.
pub open spec fn checked_step(st: RefScan, c: u8) -> RefScan {
    if inline_space(c) {
        word_reset(st)
    } else if c == 47 {
        let slashes: u8 = if st.slashes < 3 {
            (st.slashes + 1) as u8
        } else {
            3
        };
        let allowed: u64 = if st.dirty {
            0
        } else if slashes == 1 {
            st.vt_lines
        } else if slashes == 2 {
            st.vn_lines
        } else {
            u64::MAX
        };
        RefScan {
            slashes,
            in_number: true,
            sign_open: true,
            negative: false,
            digits: 0,
            magnitude: 0,
            allowed,
            ..st
        }
    } else if st.in_number && st.sign_open && (c == 43 || c == 45) {
        RefScan { sign_open: false, negative: c == 45, ..st }
    } else if st.in_number && 48 <= c <= 57 {
        if st.digits >= 9 || st.magnitude >= 100_000_000 {
            RefScan { ok: false, sign_open: false, ..st }
        } else {
            let magnitude = (st.magnitude * 10 + (c - 48)) as u64;
            RefScan {
                ok: st.ok && !(st.negative && magnitude > st.allowed),
                sign_open: false,
                digits: (st.digits + 1) as u8,
                magnitude,
                ..st
            }
        }
    } else {
        RefScan { in_number: false, dirty: st.dirty || c >= 128, ..st }
    }
}

/// One byte of the text.
pub open spec fn scan_step(st: RefScan, c: u8) -> RefScan {
    if c == 10 {
        RefScan { mode: LineMode::Start, ..word_reset(st) }
    } else {
        match st.mode {
            LineMode::Start => if inline_space(c) {
                st
            } else if c == 118 {
                RefScan { mode: LineMode::V, ..st }
            } else if c == 102 || c == 108 || c >= 128 {
                checked_step(RefScan { mode: LineMode::Checked, ..word_reset(st) }, c)
            } else {
                RefScan { mode: LineMode::Skip, ..st }
            },
            LineMode::V => if c == 116 {
                RefScan { mode: LineMode::Vt, ..st }
            } else if c == 110 {
                RefScan { mode: LineMode::Vn, ..st }
            } else {
                RefScan { mode: LineMode::Skip, ..st }
            },
            LineMode::Vt => if inline_space(c) {
                RefScan { mode: LineMode::Skip, vt_lines: saturating_inc(st.vt_lines), ..st }
            } else {
                RefScan { mode: LineMode::Skip, ..st }
            },
            LineMode::Vn => if inline_space(c) {
                RefScan { mode: LineMode::Skip, vn_lines: saturating_inc(st.vn_lines), ..st }
            } else {
                RefScan { mode: LineMode::Skip, ..st }
            },
            LineMode::Skip => st,
            LineMode::Checked => checked_step(st, c),
        }
    }
}

/// The scan after reading all of `b`.
pub open spec fn scan(b: Seq<u8>) -> RefScan
    decreases b.len(),
{
    if b.len() == 0 {
        scan_start()
    } else {
        scan_step(scan(b.drop_last()), b.last())
    }
}

/// Every texture-coordinate and normal reference of the text is admitted.
pub open spec fn face_refs_in_range(b: Seq<u8>) -> bool {
    scan(b).ok
}

fn inline_space_exec(c: u8) -> (r: bool)
    ensures
        r == inline_space(c),
{
    c == 32 || (9 <= c && c <= 13 && c != 10)
}

fn word_reset_exec(st: RefScan) -> (r: RefScan)
    ensures
        r == word_reset(st),
{
    RefScan { slashes: 0, dirty: false, in_number: false, ..st }
}

fn saturating_inc_exec(n: u64) -> (r: u64)
    ensures
        r == saturating_inc(n),
{
    if n < u64::MAX {
        n + 1
    } else {
        n
    }
}

fn checked_step_exec(st: RefScan, c: u8) -> (r: RefScan)
    ensures
        r == checked_step(st, c),
{
    if inline_space_exec(c) {
        word_reset_exec(st)
    } else if c == 47 {
        let slashes: u8 = if st.slashes < 3 {
            st.slashes + 1
        } else {
            3
        };
        let allowed: u64 = if st.dirty {
            0
        } else if slashes == 1 {
            st.vt_lines
        } else if slashes == 2 {
            st.vn_lines
        } else {
            u64::MAX
        };
        RefScan {
            slashes,
            in_number: true,
            sign_open: true,
            negative: false,
            digits: 0,
            magnitude: 0,
            allowed,
            ..st
        }
    } else if st.in_number && st.sign_open && (c == 43 || c == 45) {
        RefScan { sign_open: false, negative: c == 45, ..st }
    } else if st.in_number && 48 <= c && c <= 57 {
        if st.digits >= 9 || st.magnitude >= 100_000_000 {
            RefScan { ok: false, sign_open: false, ..st }
        } else {
            let magnitude: u64 = st.magnitude * 10 + (c - 48) as u64;
            RefScan {
                ok: st.ok && !(st.negative && magnitude > st.allowed),
                sign_open: false,
                digits: st.digits + 1,
                magnitude,
                ..st
            }
        }
    } else {
        RefScan { in_number: false, dirty: st.dirty || c >= 128, ..st }
    }
}

fn scan_step_exec(st: RefScan, c: u8) -> (r: RefScan)
    ensures
        r == scan_step(st, c),
{
    if c == 10 {
        let w = word_reset_exec(st);
        RefScan { mode: LineMode::Start, ..w }
    } else {
        match st.mode {
            LineMode::Start => if inline_space_exec(c) {
                st
            } else if c == 118 {
                RefScan { mode: LineMode::V, ..st }
            } else if c == 102 || c == 108 || c >= 128 {
                let w = word_reset_exec(st);
                checked_step_exec(RefScan { mode: LineMode::Checked, ..w }, c)
            } else {
                RefScan { mode: LineMode::Skip, ..st }
            },
            LineMode::V => if c == 116 {
                RefScan { mode: LineMode::Vt, ..st }
            } else if c == 110 {
                RefScan { mode: LineMode::Vn, ..st }
            } else {
                RefScan { mode: LineMode::Skip, ..st }
            },
            LineMode::Vt => if inline_space_exec(c) {
                let n = saturating_inc_exec(st.vt_lines);
                RefScan { mode: LineMode::Skip, vt_lines: n, ..st }
            } else {
                RefScan { mode: LineMode::Skip, ..st }
            },
            LineMode::Vn => if inline_space_exec(c) {
                let n = saturating_inc_exec(st.vn_lines);
                RefScan { mode: LineMode::Skip, vn_lines: n, ..st }
            } else {
                RefScan { mode: LineMode::Skip, ..st }
            },
            LineMode::Skip => st,
            LineMode::Checked => checked_step_exec(st, c),
        }
    }
}

/// Tells whether every texture-coordinate and normal reference of the text
/// is admitted.
pub fn face_refs_checked(bytes: &[u8]) -> (r: bool)
    ensures
        r == face_refs_in_range(bytes@),
{
    let mut st = RefScan {
        ok: true,
        vt_lines: 0,
        vn_lines: 0,
        mode: LineMode::Start,
        slashes: 0,
        dirty: false,
        in_number: false,
        sign_open: false,
        negative: false,
        digits: 0,
        magnitude: 0,
        allowed: 0,
    };
    let mut i: usize = 0;
    while i < bytes.len()
        invariant
            i <= bytes.len(),
            st == scan(bytes@.subrange(0, i as int)),
        decreases bytes.len() - i,
    {
        proof {
            assert(bytes@.subrange(0, i + 1).drop_last() =~= bytes@.subrange(0, i as int));
        }
        st = scan_step_exec(st, bytes[i]);
        i = i + 1;
    }
    assert(bytes@.subrange(0, i as int) =~= bytes@);
    st.ok
}

} // verus!
