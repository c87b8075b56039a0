//! The sector table of the HSV-to-RGB conversion that colours materials.
//!
//! For a colour with value `v`, saturation `s` and hue sector `i` (the integer part
//! of `6 * hue`) with fraction `f`, the conversion forms `p = v(1-s)`,
//! `q = v(1-fs)` and `t = v(1-(1-f)s)` and hands each of the red, green and blue
//! channels one of `v`, `p`, `q`, `t`, chosen by the sector alone. This module is
//! that choice.

use vstd::prelude::*;

verus! {

/// Which of the conversion's four quantities a colour channel takes.
#[derive(Clone, Copy, Debug, PartialEq, Eq, Structural)]
pub enum HsvTerm {
    /// the value `v`
    Value,
    /// `v(1-s)`
    P,
    /// `v(1-fs)`
    Q,
    /// `v(1-(1-f)s)`
    T,
}

/// `sector % 6` as Rust computes it on integers: the remainder has the sign of
/// `sector`.
pub open spec fn sector_remainder(sector: int) -> int {
    if sector >= 0 {
        sector % 6
    } else {
        -((-sector) % 6)
    }
}

/// The terms taken by (red, green, blue) for a sector remainder; every remainder
/// other than 0 to 4 (5 and the negative ones) falls to the last row.
pub open spec fn sector_terms(rem: int) -> (HsvTerm, HsvTerm, HsvTerm) {
    if rem == 0 {
        (HsvTerm::Value, HsvTerm::T, HsvTerm::P)
    } else if rem == 1 {
        (HsvTerm::Q, HsvTerm::Value, HsvTerm::P)
    } else if rem == 2 {
        (HsvTerm::P, HsvTerm::Value, HsvTerm::T)
    } else if rem == 3 {
        (HsvTerm::P, HsvTerm::Q, HsvTerm::Value)
    } else if rem == 4 {
        (HsvTerm::T, HsvTerm::P, HsvTerm::Value)
    } else {
        (HsvTerm::Value, HsvTerm::P, HsvTerm::Q)
    }
}

/// The terms that the red, green and blue channels take in hue sector `sector`.
pub fn hue_sector_terms(sector: i32) -> (terms: (HsvTerm, HsvTerm, HsvTerm))
    ensures
        terms == sector_terms(sector_remainder(sector as int)),
        sector >= 0 && sector % 6 == 0 ==> terms == (HsvTerm::Value, HsvTerm::T, HsvTerm::P),
        sector >= 0 && sector % 6 == 1 ==> terms == (HsvTerm::Q, HsvTerm::Value, HsvTerm::P),
        sector >= 0 && sector % 6 == 2 ==> terms == (HsvTerm::P, HsvTerm::Value, HsvTerm::T),
        sector >= 0 && sector % 6 == 3 ==> terms == (HsvTerm::P, HsvTerm::Q, HsvTerm::Value),
        sector >= 0 && sector % 6 == 4 ==> terms == (HsvTerm::T, HsvTerm::P, HsvTerm::Value),
        sector >= 0 && sector % 6 == 5 ==> terms == (HsvTerm::Value, HsvTerm::P, HsvTerm::Q),
        sector < 0 && (-(sector as int)) % 6 == 0 ==> terms == (HsvTerm::Value, HsvTerm::T, HsvTerm::P),
        sector < 0 && (-(sector as int)) % 6 != 0 ==> terms == (HsvTerm::Value, HsvTerm::P, HsvTerm::Q),
{
    let wide = sector as i64;
    let magnitude: u64 = if wide >= 0 {
        wide as u64
    } else {
        (-wide) as u64
    };
    let rem = magnitude % 6;
    if wide < 0 && rem != 0 {
        (HsvTerm::Value, HsvTerm::P, HsvTerm::Q)
    } else if rem == 0 {
        (HsvTerm::Value, HsvTerm::T, HsvTerm::P)
    } else if rem == 1 {
        (HsvTerm::Q, HsvTerm::Value, HsvTerm::P)
    } else if rem == 2 {
        (HsvTerm::P, HsvTerm::Value, HsvTerm::T)
    } else if rem == 3 {
        (HsvTerm::P, HsvTerm::Q, HsvTerm::Value)
    } else if rem == 4 {
        (HsvTerm::T, HsvTerm::P, HsvTerm::Value)
    } else {
        (HsvTerm::Value, HsvTerm::P, HsvTerm::Q)
    }
}

/// How many of the three channels take `term`.
pub open spec fn term_count(terms: (HsvTerm, HsvTerm, HsvTerm), term: HsvTerm) -> int {
    (if terms.0 == term { 1int } else { 0int }) + (if terms.1 == term { 1int } else { 0int }) + (
    if terms.2 == term {
        1int
    } else {
        0int
    })
}

/// In every sector exactly one channel takes the value `v` (the brightest
/// channel) and exactly one takes `p` (the darkest), and the three channels take
/// three different terms.
pub proof fn lemma_sector_terms_distinct(sector: int)
    ensures
        term_count(sector_terms(sector_remainder(sector)), HsvTerm::Value) == 1,
        term_count(sector_terms(sector_remainder(sector)), HsvTerm::P) == 1,
        sector_terms(sector_remainder(sector)).0 != sector_terms(sector_remainder(sector)).1,
        sector_terms(sector_remainder(sector)).1 != sector_terms(sector_remainder(sector)).2,
        sector_terms(sector_remainder(sector)).0 != sector_terms(sector_remainder(sector)).2,
{
}

/// The colour of a sector's terms at the end of the sector (fraction 1), where
/// `t` has risen to `v` and `q` has fallen to `p`.
pub open spec fn at_sector_end(term: HsvTerm) -> HsvTerm {
    match term {
        HsvTerm::T => HsvTerm::Value,
        HsvTerm::Q => HsvTerm::P,
        other => other,
    }
}

/// The colour of a sector's terms at the start of the sector (fraction 0), where
/// `t` equals `p` and `q` equals `v`.
pub open spec fn at_sector_start(term: HsvTerm) -> HsvTerm {
    match term {
        HsvTerm::T => HsvTerm::P,
        HsvTerm::Q => HsvTerm::Value,
        other => other,
    }
}

/// The hue wheel is continuous: for every sector from 0 to 5, each channel ends
/// the sector on the same quantity as it starts the next one, sector 5 leading
/// back to sector 0.
pub proof fn lemma_hue_wheel_continuous(k: int)
    requires
        0 <= k < 6,
    ensures
        at_sector_end(sector_terms(sector_remainder(k)).0) == at_sector_start(
            sector_terms(sector_remainder((k + 1) % 6)).0,
        ),
        at_sector_end(sector_terms(sector_remainder(k)).1) == at_sector_start(
            sector_terms(sector_remainder((k + 1) % 6)).1,
        ),
        at_sector_end(sector_terms(sector_remainder(k)).2) == at_sector_start(
            sector_terms(sector_remainder((k + 1) % 6)).2,
        ),
{
}

/// Where the brightest channel is: red in sectors 0 and 5, green in 1 and 2,
/// blue in 3 and 4; the darkest is blue in 0 and 1, red in 2 and 3, green in 4
/// and 5.
pub proof fn lemma_brightest_and_darkest_channels(k: int)
    requires
        0 <= k < 6,
    ensures
        (sector_terms(sector_remainder(k)).0 == HsvTerm::Value) <==> (k == 0 || k == 5),
        (sector_terms(sector_remainder(k)).1 == HsvTerm::Value) <==> (k == 1 || k == 2),
        (sector_terms(sector_remainder(k)).2 == HsvTerm::Value) <==> (k == 3 || k == 4),
        (sector_terms(sector_remainder(k)).2 == HsvTerm::P) <==> (k == 0 || k == 1),
        (sector_terms(sector_remainder(k)).0 == HsvTerm::P) <==> (k == 2 || k == 3),
        (sector_terms(sector_remainder(k)).1 == HsvTerm::P) <==> (k == 4 || k == 5),
{
}

/// The table repeats every six sectors for non-negative sectors.
pub proof fn lemma_sector_terms_periodic(sector: int)
    requires
        sector >= 0,
    ensures
        sector_terms(sector_remainder(sector + 6)) == sector_terms(sector_remainder(sector)),
{
    assert((sector + 6) % 6 == sector % 6);
}

} // verus!
