use quantum_orbitals::elements::{l_to_letter, parse_principal_n, symbol_for_z};
use quantum_orbitals::modes::{RadialKind, ValenceStyle, ViewMode};
use quantum_orbitals::physics::{
    clamp_magnetic, energy_gap_ratio, factorial, factorial_double, AngularBasis, QuantumNumbers,
};
use quantum_orbitals::request::SampleRequest;
use quantum_orbitals::selection::{attempt_budget, partition_sample_counts, select_orbital, select_orbital_pair};

#[test]
fn test_quantum_numbers() {
    assert!(QuantumNumbers::new(1, 0, 0).is_some());
    assert!(QuantumNumbers::new(2, 1, -1).is_some());
    assert!(QuantumNumbers::new(2, 1, 0).is_some());
    assert!(QuantumNumbers::new(2, 1, 1).is_some());

    assert!(QuantumNumbers::new(0, 0, 0).is_none());
    assert!(QuantumNumbers::new(2, 2, 0).is_none());
    assert!(QuantumNumbers::new(2, 1, 2).is_none());
}

#[test]
fn test_factorial() {
    assert_eq!(factorial(0), 1);
    assert_eq!(factorial(1), 1);
    assert_eq!(factorial(5), 120);
}

#[test]
fn quantum_numbers_keep_their_fields() {
    let qn = QuantumNumbers::new(3, 2, -2).unwrap();
    assert_eq!(qn.n, 3);
    assert_eq!(qn.l, 2);
    assert_eq!(qn.m_l, -2);
}

#[test]
fn factorial_largest_in_u64() {
    assert_eq!(factorial(20), 2_432_902_008_176_640_000);
}

#[test]
fn factorial_double_values() {
    assert_eq!(factorial_double(0), 1);
    assert_eq!(factorial_double(1), 1);
    assert_eq!(factorial_double(2), 2);
    assert_eq!(factorial_double(5), 15);
    assert_eq!(factorial_double(6), 48);
    assert_eq!(factorial_double(7), 105);
    assert_eq!(factorial_double(33), 6_332_659_870_762_850_625);
}

#[test]
fn angular_basis_from_query() {
    assert_eq!(AngularBasis::from_query(None), AngularBasis::Complex);
    assert_eq!(AngularBasis::from_query(Some("real")), AngularBasis::Real);
    assert_eq!(AngularBasis::from_query(Some("REAL")), AngularBasis::Real);
    assert_eq!(AngularBasis::from_query(Some("Real")), AngularBasis::Real);
    assert_eq!(AngularBasis::from_query(Some("complex")), AngularBasis::Complex);
    assert_eq!(AngularBasis::from_query(Some("anything")), AngularBasis::Complex);
    assert_eq!(AngularBasis::from_query(Some("realx")), AngularBasis::Complex);
}

#[test]
fn view_mode_from_query() {
    assert_eq!(ViewMode::from_query(None), ViewMode::Total);
    assert_eq!(ViewMode::from_query(Some("total")), ViewMode::Total);
    assert_eq!(ViewMode::from_query(Some("valence")), ViewMode::Valence);
    assert_eq!(ViewMode::from_query(Some("Orbital")), ViewMode::Orbital);
    assert_eq!(ViewMode::from_query(Some("SUPERPOSITION")), ViewMode::Superposition);
    assert_eq!(ViewMode::from_query(Some("bogus")), ViewMode::Total);
}

#[test]
fn view_mode_round_trip() {
    let modes = [ViewMode::Total, ViewMode::Valence, ViewMode::Orbital, ViewMode::Superposition];
    for mode in modes {
        assert_eq!(ViewMode::from_query(Some(mode.as_str())), mode);
    }
}

#[test]
fn valence_style_from_query() {
    assert_eq!(ValenceStyle::from_query(None), ValenceStyle::Spherical);
    assert_eq!(ValenceStyle::from_query(Some("orbitals")), ValenceStyle::Orbitals);
    assert_eq!(ValenceStyle::from_query(Some("ORBITALS")), ValenceStyle::Orbitals);
    assert_eq!(ValenceStyle::from_query(Some("spherical")), ValenceStyle::Spherical);
    assert_eq!(ValenceStyle::from_query(Some("other")), ValenceStyle::Spherical);
}

#[test]
fn element_symbols() {
    assert_eq!(symbol_for_z(1), Some("H"));
    assert_eq!(symbol_for_z(2), Some("He"));
    assert_eq!(symbol_for_z(26), Some("Fe"));
    assert_eq!(symbol_for_z(118), Some("Og"));
    assert_eq!(symbol_for_z(0), None);
    assert_eq!(symbol_for_z(119), None);
}

#[test]
fn l_letters() {
    assert_eq!(l_to_letter(0), "s");
    assert_eq!(l_to_letter(1), "p");
    assert_eq!(l_to_letter(2), "d");
    assert_eq!(l_to_letter(3), "f");
    assert_eq!(l_to_letter(4), "g");
    assert_eq!(l_to_letter(5), "h");
    assert_eq!(l_to_letter(6), "i");
    assert_eq!(l_to_letter(7), "?");
}

#[test]
fn principal_n_from_labels() {
    assert_eq!(parse_principal_n("3S"), 3);
    assert_eq!(parse_principal_n("10d"), 10);
    assert_eq!(parse_principal_n("2"), 2);
    assert_eq!(parse_principal_n(""), 0);
    assert_eq!(parse_principal_n("xy"), 0);
    assert_eq!(parse_principal_n("4294967295s"), u32::MAX);
    assert_eq!(parse_principal_n("4294967296s"), 0);
    assert_eq!(parse_principal_n("99999999999p"), 0);
}

#[test]
fn energy_gap_between_levels() {
    // E_2 - E_1 = -1/8 - (-1/2) = 3/8 = 0.375 atomic units
    assert_eq!(energy_gap_ratio(1, 2), (3, 8));
    assert_eq!(energy_gap_ratio(2, 1), (-3, 8));
    let (num, den) = energy_gap_ratio(1, 2);
    assert_eq!(num as f32 / den as f32, 0.375);
    assert_eq!(energy_gap_ratio(2, 3), (5, 72));
}

#[test]
fn equal_levels_have_zero_energy_gap() {
    for n in [1u32, 2, 3, 7, 46340] {
        let (num, den) = energy_gap_ratio(n, n);
        assert_eq!(num, 0);
        assert!(den > 0);
    }
}

#[test]
fn clamp_magnetic_into_range() {
    assert_eq!(clamp_magnetic(0, 0), 0);
    assert_eq!(clamp_magnetic(5, 1), 1);
    assert_eq!(clamp_magnetic(-7, 2), -2);
    assert_eq!(clamp_magnetic(1, 3), 1);
}

#[test]
fn select_orbital_prefers_exact_match() {
    let labels: Vec<(u32, u32)> = vec![(1, 0), (2, 0), (2, 1)];
    assert_eq!(select_orbital(&labels, 2, 1), Some((2, true)));
    assert_eq!(select_orbital(&labels, 1, 0), Some((0, true)));
}

#[test]
fn select_orbital_falls_back_to_same_l() {
    let labels: Vec<(u32, u32)> = vec![(1, 0), (2, 0), (2, 1)];
    assert_eq!(select_orbital(&labels, 3, 1), Some((2, false)));
    assert_eq!(select_orbital(&labels, 5, 0), Some((0, false)));
}

#[test]
fn select_orbital_falls_back_to_first() {
    let labels: Vec<(u32, u32)> = vec![(1, 0), (2, 0), (2, 1)];
    assert_eq!(select_orbital(&labels, 3, 2), Some((0, false)));
    let empty: Vec<(u32, u32)> = Vec::new();
    assert_eq!(select_orbital(&empty, 1, 0), None);
}

#[test]
fn select_orbital_pair_distinct() {
    let labels: Vec<(u32, u32)> = vec![(1, 0), (2, 0), (2, 1)];
    assert_eq!(select_orbital_pair(&labels, 1, 0, 2, 0), Some((0, true, 1, true)));
    // Second request resolves to the same orbital as the first: the
    // first differing orbital of the list stands in.
    assert_eq!(select_orbital_pair(&labels, 1, 0, 1, 0), Some((0, true, 1, false)));
    // Only one distinct label in the whole list: no pair.
    let same: Vec<(u32, u32)> = vec![(1, 0), (1, 0)];
    assert_eq!(select_orbital_pair(&same, 1, 0, 2, 1), None);
    let empty: Vec<(u32, u32)> = Vec::new();
    assert_eq!(select_orbital_pair(&empty, 1, 0, 2, 0), None);
}

#[test]
fn partition_counts_total_equals_request() {
    let proposed: Vec<usize> = vec![2, 2, 2];
    assert_eq!(partition_sample_counts(&proposed, 10), vec![2, 2, 6]);

    let proposed: Vec<usize> = vec![7, 7];
    assert_eq!(partition_sample_counts(&proposed, 10), vec![7, 3]);

    let proposed: Vec<usize> = vec![12, 1];
    assert_eq!(partition_sample_counts(&proposed, 10), vec![10, 0]);

    let proposed: Vec<usize> = vec![4];
    assert_eq!(partition_sample_counts(&proposed, 9), vec![9]);

    let proposed: Vec<usize> = Vec::new();
    assert_eq!(partition_sample_counts(&proposed, 9), Vec::<usize>::new());
}

#[test]
fn attempt_budget_saturates_and_floors() {
    assert_eq!(attempt_budget(5000, 100, 0), 500_000);
    assert_eq!(attempt_budget(1, 300, 1000), 1000);
    assert_eq!(attempt_budget(usize::MAX, 2, 0), usize::MAX);
}

#[test]
fn request_normalization_defaults() {
    let r = SampleRequest::normalize(
        None, None, None, None, None, None, None, None, None, None, None, None, None, None,
    );
    assert_eq!(r.n, 2);
    assert_eq!(r.l, 1);
    assert_eq!(r.m, 0);
    assert_eq!(r.n2, 2);
    assert_eq!(r.l2, 1);
    assert_eq!(r.m2, 0);
    assert_eq!(r.z, 1);
    assert_eq!(r.count, 50_000);
    assert_eq!(r.mode, ViewMode::Total);
    assert_eq!(r.valence_style, ValenceStyle::Spherical);
    assert_eq!(r.basis, AngularBasis::Complex);
    assert!(!r.want_super_psi);
    assert!(!r.want_phase);
    assert!(!r.want_intensity);
    assert!(!r.bubble);
    assert!(r.use_tabulated());
}

#[test]
fn request_normalization_clamps() {
    let r = SampleRequest::normalize(
        Some(0),
        Some(0),
        Some(3),
        None,
        None,
        None,
        Some(500),
        Some(2),
        Some("superposition"),
        Some("orbitals"),
        Some("real"),
        Some("phase"),
        Some(true),
        Some(true),
    );
    assert_eq!(r.n, 1);
    assert_eq!(r.l, 0);
    assert_eq!(r.m, 3);
    assert_eq!(r.n2, 1);
    assert_eq!(r.l2, 0);
    assert_eq!(r.z, 118);
    assert_eq!(r.count, 1000);
    assert_eq!(r.mode, ViewMode::Superposition);
    assert_eq!(r.valence_style, ValenceStyle::Orbitals);
    assert_eq!(r.basis, AngularBasis::Real);
    assert!(r.want_super_psi);
    assert!(r.want_phase);
    assert!(!r.want_intensity);
    assert!(r.bubble);
}

#[test]
fn hydrogen_orbital_requests_skip_tabulated_data() {
    let orbital = SampleRequest::normalize(
        None, None, None, None, None, None, Some(1), None, Some("orbital"), None, None, None,
        None, None,
    );
    assert!(!orbital.use_tabulated());
    let heavier = SampleRequest::normalize(
        None, None, None, None, None, None, Some(6), None, Some("orbital"), None, None, None,
        None, None,
    );
    assert!(heavier.use_tabulated());
    assert!(heavier.pslibrary_fallback());
    assert!(!orbital.pslibrary_fallback());
    let total = SampleRequest::normalize(
        None, None, None, None, None, None, Some(1), None, Some("total"), None, None, None, None,
        None,
    );
    assert!(total.use_tabulated());
}

#[test]
fn color_mode_is_exact_match() {
    let r = SampleRequest::normalize(
        None, None, None, None, None, None, None, None, None, None, None, Some("PHASE"), None,
        None,
    );
    assert!(!r.want_phase);
    let r2 = SampleRequest::normalize(
        None, None, None, None, None, None, None, None, None, None, None, Some("intensity"),
        None, None,
    );
    assert!(r2.want_intensity);
    assert!(!r2.want_phase);
}

#[test]
fn radial_kind_is_copyable() {
    let k = RadialKind::Chi;
    let k2 = k;
    assert_eq!(k, k2);
    assert_ne!(RadialKind::R, RadialKind::Chi);
}
