//! Enumerated mode switches of the sampling engine and their decoding
//! from query-string selectors.

use vstd::prelude::*;

use crate::text::{eq_ignore_ascii_case, matches_keyword};

verus! {

/// Which density a request asks for.
#[derive(Debug, Clone, Copy, PartialEq, Eq, Structural)]
pub enum ViewMode {
    Total,
    Valence,
    Orbital,
    Superposition,
}

impl ViewMode {
    pub open spec fn spec_from_query(value: Option<&str>) -> ViewMode {
        match value {
            None => ViewMode::Total,
            Some(s) => if matches_keyword(s@, "valence"@) {
                ViewMode::Valence
            } else if matches_keyword(s@, "orbital"@) {
                ViewMode::Orbital
            } else if matches_keyword(s@, "superposition"@) {
                ViewMode::Superposition
            } else {
                ViewMode::Total
            },
        }
    }

    /// Decode the `mode` query selector; unrecognized values fall back
    /// to the total density.
    pub fn from_query(value: Option<&str>) -> (r: Self)
        ensures
            r == Self::spec_from_query(value),
    {
        match value {
            None => ViewMode::Total,
            Some(s) => if eq_ignore_ascii_case(s, "valence") {
                ViewMode::Valence
            } else if eq_ignore_ascii_case(s, "orbital") {
                ViewMode::Orbital
            } else if eq_ignore_ascii_case(s, "superposition") {
                ViewMode::Superposition
            } else {
                ViewMode::Total
            },
        }
    }

    pub open spec fn spec_str(self) -> Seq<char> {
        match self {
            ViewMode::Total => "total"@,
            ViewMode::Valence => "valence"@,
            ViewMode::Orbital => "orbital"@,
            ViewMode::Superposition => "superposition"@,
        }
    }

    /// The canonical lowercase name of the mode, as reported back to
    /// the caller.
    pub fn as_str(self) -> (r: &'static str)
        ensures
            r@ == self.spec_str(),
    {
        match self {
            ViewMode::Total => "total",
            ViewMode::Valence => "valence",
            ViewMode::Orbital => "orbital",
            ViewMode::Superposition => "superposition",
        }
    }
}

/// How a valence-density request is rendered: spherically averaged, or
/// as m = 0 orbital lobes.
#[derive(Debug, Clone, Copy, PartialEq, Eq, Structural)]
pub enum ValenceStyle {
    Spherical,
    Orbitals,
}

impl ValenceStyle {
    pub open spec fn spec_from_query(value: Option<&str>) -> ValenceStyle {
        match value {
            None => ValenceStyle::Spherical,
            Some(s) => if matches_keyword(s@, "orbitals"@) {
                ValenceStyle::Orbitals
            } else {
                ValenceStyle::Spherical
            },
        }
    }

    /// Decode the `valence_style` query selector; anything but
    /// "orbitals" means the spherically averaged density.
    pub fn from_query(value: Option<&str>) -> (r: Self)
        ensures
            r == Self::spec_from_query(value),
    {
        match value {
            None => ValenceStyle::Spherical,
            Some(s) => if eq_ignore_ascii_case(s, "orbitals") {
                ValenceStyle::Orbitals
            } else {
                ValenceStyle::Spherical
            },
        }
    }
}

/// Convention of a tabulated radial function: `R` stores the radial
/// wavefunction R(r) (sampling weight r^2 R^2); `Chi` stores the reduced
/// function chi(r) = r * R(r) (sampling weight chi^2, and chi must be
/// divided by r to recover R at a point).
#[derive(Debug, Clone, Copy, PartialEq, Eq, Structural)]
pub enum RadialKind {
    R,
    Chi,
}

} // verus!
