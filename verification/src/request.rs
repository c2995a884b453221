//! Normalization of raw sampling-request parameters: defaulting,
//! clamping and mode decoding, plus the decision which data source a
//! request goes to first.

use vstd::prelude::*;

use crate::modes::{ValenceStyle, ViewMode};
use crate::physics::AngularBasis;
use crate::text::str_eq;

verus! {

pub open spec fn defaulted_u32(v: Option<u32>, d: u32) -> u32 {
    match v {
        Some(x) => x,
        None => d,
    }
}

pub open spec fn defaulted_i32(v: Option<i32>, d: i32) -> i32 {
    match v {
        Some(x) => x,
        None => d,
    }
}

pub open spec fn defaulted_usize(v: Option<usize>, d: usize) -> usize {
    match v {
        Some(x) => x,
        None => d,
    }
}

pub open spec fn defaulted_bool(v: Option<bool>, d: bool) -> bool {
    match v {
        Some(x) => x,
        None => d,
    }
}

pub open spec fn clamp_u32(x: u32, lo: u32, hi: u32) -> u32 {
    if x < lo {
        lo
    } else if x > hi {
        hi
    } else {
        x
    }
}

pub open spec fn clamp_usize(x: usize, lo: usize, hi: usize) -> usize {
    if x < lo {
        lo
    } else if x > hi {
        hi
    } else {
        x
    }
}

/// `value` is exactly the keyword `kw`.
pub open spec fn is_exact(value: Option<&str>, kw: &str) -> bool {
    match value {
        Some(s) => s@ == kw@,
        None => false,
    }
}

/// The integer and mode parameters of a sampling request, after
/// defaulting and clamping. Distances, mixing weights and times are
/// floating-point and handled by the sampler around this core.
#[derive(Debug, Clone, Copy, PartialEq, Eq, Structural)]
pub struct SampleRequest {
    pub n: u32,
    pub l: u32,
    pub m: i32,
    pub n2: u32,
    pub l2: u32,
    pub m2: i32,
    pub z: u32,
    pub count: usize,
    pub mode: ViewMode,
    pub valence_style: ValenceStyle,
    pub basis: AngularBasis,
    pub want_super_psi: bool,
    pub want_phase: bool,
    pub want_intensity: bool,
    pub bubble: bool,
}

impl SampleRequest {
    /// Requests for a single orbital or a superposition of hydrogen
    /// (z = 1) bypass the tabulated multi-electron data and go straight
    /// to the exact hydrogenic model.
    pub open spec fn spec_use_tabulated(self) -> bool {
        !(self.z == 1 && (self.mode == ViewMode::Orbital || self.mode == ViewMode::Superposition))
    }

    /// Whether the request is served from tabulated element data first.
    pub fn use_tabulated(&self) -> (r: bool)
        ensures
            r == self.spec_use_tabulated(),
    {
        !(self.z == 1 && (matches!(self.mode, ViewMode::Orbital) || matches!(
            self.mode,
            ViewMode::Superposition,
        )))
    }

    /// Requests beyond hydrogen for one orbital may fall back to a
    /// second source of tabulated radial functions when the first
    /// dataset has nothing usable.
    pub open spec fn spec_pslibrary_fallback(self) -> bool {
        self.mode == ViewMode::Orbital && self.z != 1
    }

    /// Whether the single-orbital fallback data source applies.
    pub fn pslibrary_fallback(&self) -> (r: bool)
        ensures
            r == self.spec_pslibrary_fallback(),
    {
        matches!(self.mode, ViewMode::Orbital) && self.z != 1
    }

    /// Default and clamp the raw request parameters: n at least 1 and 2
    /// when absent, z clamped to the periodic table, the sample count
    /// clamped to [1000, 500000], second-orbital numbers falling back to
    /// the first, and mode selectors decoded from their query values.
    /// Amplitude output is kept only for animated superpositions.
    pub fn normalize(
        n: Option<u32>,
        l: Option<u32>,
        m: Option<i32>,
        n2: Option<u32>,
        l2: Option<u32>,
        m2: Option<i32>,
        z: Option<u32>,
        count: Option<usize>,
        mode: Option<&str>,
        valence_style: Option<&str>,
        basis: Option<&str>,
        color_mode: Option<&str>,
        animated: Option<bool>,
        bubble: Option<bool>,
    ) -> (r: SampleRequest)
        ensures
            r.n == clamp_u32(defaulted_u32(n, 2), 1, u32::MAX),
            r.l == defaulted_u32(l, 1),
            r.m == defaulted_i32(m, 0),
            r.n2 == defaulted_u32(n2, r.n),
            r.l2 == defaulted_u32(l2, r.l),
            r.m2 == defaulted_i32(m2, 0),
            r.z == clamp_u32(defaulted_u32(z, 1), 1, 118),
            r.count == clamp_usize(defaulted_usize(count, 50000), 1000, 500000),
            r.mode == ViewMode::spec_from_query(mode),
            r.valence_style == ValenceStyle::spec_from_query(valence_style),
            r.basis == AngularBasis::spec_from_query(basis),
            r.want_super_psi == (defaulted_bool(animated, false) && r.mode
                == ViewMode::Superposition),
            r.want_phase == is_exact(color_mode, "phase"),
            r.want_intensity == is_exact(color_mode, "intensity"),
            r.bubble == defaulted_bool(bubble, false),
    {
        let n_val = match n {
            Some(x) => if x < 1 {
                1
            } else {
                x
            },
            None => 2,
        };
        let l_val = match l {
            Some(x) => x,
            None => 1,
        };
        let z_raw = match z {
            Some(x) => x,
            None => 1,
        };
        let z_val = if z_raw < 1 {
            1
        } else if z_raw > 118 {
            118
        } else {
            z_raw
        };
        let count_raw = match count {
            Some(x) => x,
            None => 50000,
        };
        let count_val = if count_raw < 1000 {
            1000
        } else if count_raw > 500000 {
            500000
        } else {
            count_raw
        };
        let mode_val = ViewMode::from_query(mode);
        let want_phase = match color_mode {
            Some(s) => str_eq(s, "phase"),
            None => false,
        };
        let want_intensity = match color_mode {
            Some(s) => str_eq(s, "intensity"),
            None => false,
        };
        let animated_val = match animated {
            Some(b) => b,
            None => false,
        };
        SampleRequest {
            n: n_val,
            l: l_val,
            m: match m {
                Some(x) => x,
                None => 0,
            },
            n2: match n2 {
                Some(x) => x,
                None => n_val,
            },
            l2: match l2 {
                Some(x) => x,
                None => l_val,
            },
            m2: match m2 {
                Some(x) => x,
                None => 0,
            },
            z: z_val,
            count: count_val,
            mode: mode_val,
            valence_style: ValenceStyle::from_query(valence_style),
            basis: AngularBasis::from_query(basis),
            want_super_psi: animated_val && matches!(mode_val, ViewMode::Superposition),
            want_phase,
            want_intensity,
            bubble: match bubble {
                Some(b) => b,
                None => false,
            },
        }
    }
}

} // verus!
