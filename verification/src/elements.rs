//! Periodic-table lookups and parsing of orbital labels from tabulated
//! element datasets.

use vstd::prelude::*;
use vstd::string::StrSliceExecFns;

verus! {

/// Chemical symbol of element `z` (1-based atomic number), as a
/// character sequence; None outside the periodic table.
pub open spec fn spec_symbol(z: u32) -> Option<Seq<char>> {
    match z {
        1 => Some("H"@),
        2 => Some("He"@),
        3 => Some("Li"@),
        4 => Some("Be"@),
        5 => Some("B"@),
        6 => Some("C"@),
        7 => Some("N"@),
        8 => Some("O"@),
        9 => Some("F"@),
        10 => Some("Ne"@),
        11 => Some("Na"@),
        12 => Some("Mg"@),
        13 => Some("Al"@),
        14 => Some("Si"@),
        15 => Some("P"@),
        16 => Some("S"@),
        17 => Some("Cl"@),
        18 => Some("Ar"@),
        19 => Some("K"@),
        20 => Some("Ca"@),
        21 => Some("Sc"@),
        22 => Some("Ti"@),
        23 => Some("V"@),
        24 => Some("Cr"@),
        25 => Some("Mn"@),
        26 => Some("Fe"@),
        27 => Some("Co"@),
        28 => Some("Ni"@),
        29 => Some("Cu"@),
        30 => Some("Zn"@),
        31 => Some("Ga"@),
        32 => Some("Ge"@),
        33 => Some("As"@),
        34 => Some("Se"@),
        35 => Some("Br"@),
        36 => Some("Kr"@),
        37 => Some("Rb"@),
        38 => Some("Sr"@),
        39 => Some("Y"@),
        40 => Some("Zr"@),
        41 => Some("Nb"@),
        42 => Some("Mo"@),
        43 => Some("Tc"@),
        44 => Some("Ru"@),
        45 => Some("Rh"@),
        46 => Some("Pd"@),
        47 => Some("Ag"@),
        48 => Some("Cd"@),
        49 => Some("In"@),
        50 => Some("Sn"@),
        51 => Some("Sb"@),
        52 => Some("Te"@),
        53 => Some("I"@),
        54 => Some("Xe"@),
        55 => Some("Cs"@),
        56 => Some("Ba"@),
        57 => Some("La"@),
        58 => Some("Ce"@),
        59 => Some("Pr"@),
        60 => Some("Nd"@),
        61 => Some("Pm"@),
        62 => Some("Sm"@),
        63 => Some("Eu"@),
        64 => Some("Gd"@),
        65 => Some("Tb"@),
        66 => Some("Dy"@),
        67 => Some("Ho"@),
        68 => Some("Er"@),
        69 => Some("Tm"@),
        70 => Some("Yb"@),
        71 => Some("Lu"@),
        72 => Some("Hf"@),
        73 => Some("Ta"@),
        74 => Some("W"@),
        75 => Some("Re"@),
        76 => Some("Os"@),
        77 => Some("Ir"@),
        78 => Some("Pt"@),
        79 => Some("Au"@),
        80 => Some("Hg"@),
        81 => Some("Tl"@),
        82 => Some("Pb"@),
        83 => Some("Bi"@),
        84 => Some("Po"@),
        85 => Some("At"@),
        86 => Some("Rn"@),
        87 => Some("Fr"@),
        88 => Some("Ra"@),
        89 => Some("Ac"@),
        90 => Some("Th"@),
        91 => Some("Pa"@),
        92 => Some("U"@),
        93 => Some("Np"@),
        94 => Some("Pu"@),
        95 => Some("Am"@),
        96 => Some("Cm"@),
        97 => Some("Bk"@),
        98 => Some("Cf"@),
        99 => Some("Es"@),
        100 => Some("Fm"@),
        101 => Some("Md"@),
        102 => Some("No"@),
        103 => Some("Lr"@),
        104 => Some("Rf"@),
        105 => Some("Db"@),
        106 => Some("Sg"@),
        107 => Some("Bh"@),
        108 => Some("Hs"@),
        109 => Some("Mt"@),
        110 => Some("Ds"@),
        111 => Some("Rg"@),
        112 => Some("Cn"@),
        113 => Some("Nh"@),
        114 => Some("Fl"@),
        115 => Some("Mc"@),
        116 => Some("Lv"@),
        117 => Some("Ts"@),
        118 => Some("Og"@),
        _ => None,
    }
}

/// Chemical symbol of the element with atomic number `z`, for
/// 1 <= z <= 118.
pub fn symbol_for_z(z: u32) -> (r: Option<&'static str>)
    ensures
        r is Some <==> 1 <= z <= 118,
        r matches Some(s) ==> spec_symbol(z) == Some(s@),
{
    match z {
        1 => Some("H"),
        2 => Some("He"),
        3 => Some("Li"),
        4 => Some("Be"),
        5 => Some("B"),
        6 => Some("C"),
        7 => Some("N"),
        8 => Some("O"),
        9 => Some("F"),
        10 => Some("Ne"),
        11 => Some("Na"),
        12 => Some("Mg"),
        13 => Some("Al"),
        14 => Some("Si"),
        15 => Some("P"),
        16 => Some("S"),
        17 => Some("Cl"),
        18 => Some("Ar"),
        19 => Some("K"),
        20 => Some("Ca"),
        21 => Some("Sc"),
        22 => Some("Ti"),
        23 => Some("V"),
        24 => Some("Cr"),
        25 => Some("Mn"),
        26 => Some("Fe"),
        27 => Some("Co"),
        28 => Some("Ni"),
        29 => Some("Cu"),
        30 => Some("Zn"),
        31 => Some("Ga"),
        32 => Some("Ge"),
        33 => Some("As"),
        34 => Some("Se"),
        35 => Some("Br"),
        36 => Some("Kr"),
        37 => Some("Rb"),
        38 => Some("Sr"),
        39 => Some("Y"),
        40 => Some("Zr"),
        41 => Some("Nb"),
        42 => Some("Mo"),
        43 => Some("Tc"),
        44 => Some("Ru"),
        45 => Some("Rh"),
        46 => Some("Pd"),
        47 => Some("Ag"),
        48 => Some("Cd"),
        49 => Some("In"),
        50 => Some("Sn"),
        51 => Some("Sb"),
        52 => Some("Te"),
        53 => Some("I"),
        54 => Some("Xe"),
        55 => Some("Cs"),
        56 => Some("Ba"),
        57 => Some("La"),
        58 => Some("Ce"),
        59 => Some("Pr"),
        60 => Some("Nd"),
        61 => Some("Pm"),
        62 => Some("Sm"),
        63 => Some("Eu"),
        64 => Some("Gd"),
        65 => Some("Tb"),
        66 => Some("Dy"),
        67 => Some("Ho"),
        68 => Some("Er"),
        69 => Some("Tm"),
        70 => Some("Yb"),
        71 => Some("Lu"),
        72 => Some("Hf"),
        73 => Some("Ta"),
        74 => Some("W"),
        75 => Some("Re"),
        76 => Some("Os"),
        77 => Some("Ir"),
        78 => Some("Pt"),
        79 => Some("Au"),
        80 => Some("Hg"),
        81 => Some("Tl"),
        82 => Some("Pb"),
        83 => Some("Bi"),
        84 => Some("Po"),
        85 => Some("At"),
        86 => Some("Rn"),
        87 => Some("Fr"),
        88 => Some("Ra"),
        89 => Some("Ac"),
        90 => Some("Th"),
        91 => Some("Pa"),
        92 => Some("U"),
        93 => Some("Np"),
        94 => Some("Pu"),
        95 => Some("Am"),
        96 => Some("Cm"),
        97 => Some("Bk"),
        98 => Some("Cf"),
        99 => Some("Es"),
        100 => Some("Fm"),
        101 => Some("Md"),
        102 => Some("No"),
        103 => Some("Lr"),
        104 => Some("Rf"),
        105 => Some("Db"),
        106 => Some("Sg"),
        107 => Some("Bh"),
        108 => Some("Hs"),
        109 => Some("Mt"),
        110 => Some("Ds"),
        111 => Some("Rg"),
        112 => Some("Cn"),
        113 => Some("Nh"),
        114 => Some("Fl"),
        115 => Some("Mc"),
        116 => Some("Lv"),
        117 => Some("Ts"),
        118 => Some("Og"),
        _ => None,
    }
}

/// Spectroscopic letter of the azimuthal quantum number `l`
/// (s, p, d, f, g, h, i), with "?" beyond the tabulated range.
pub open spec fn spec_l_letter(l: u32) -> Seq<char> {
    match l {
        0 => "s"@,
        1 => "p"@,
        2 => "d"@,
        3 => "f"@,
        4 => "g"@,
        5 => "h"@,
        6 => "i"@,
        _ => "?"@,
    }
}

/// Spectroscopic letter used in orbital labels such as "2p".
pub fn l_to_letter(l: u32) -> (r: &'static str)
    ensures
        r@ == spec_l_letter(l),
{
    match l {
        0 => "s",
        1 => "p",
        2 => "d",
        3 => "f",
        4 => "g",
        5 => "h",
        6 => "i",
        _ => "?",
    }
}

/// `c` is an ASCII decimal digit.
pub open spec fn is_ascii_digit_char(c: char) -> bool {
    48 <= c as u32 <= 57
}

/// Length of the leading run of ASCII digits in `s`.
pub open spec fn digit_prefix_len(s: Seq<char>) -> int
    decreases s.len(),
{
    if s.len() > 0 && is_ascii_digit_char(s[0]) {
        1 + digit_prefix_len(s.drop_first())
    } else {
        0
    }
}

/// Numeric value of a digit string read left to right.
pub open spec fn digits_value(s: Seq<char>) -> int
    decreases s.len(),
{
    if s.len() == 0 {
        0
    } else {
        digits_value(s.drop_last()) * 10 + (s.last() as u32 - 48)
    }
}

proof fn lemma_digit_prefix_len(s: Seq<char>)
    ensures
        0 <= digit_prefix_len(s) <= s.len(),
        forall|j: int| 0 <= j < digit_prefix_len(s) ==> is_ascii_digit_char(s[j]),
        digit_prefix_len(s) < s.len() ==> !is_ascii_digit_char(s[digit_prefix_len(s)]),
    decreases s.len(),
{
    if s.len() > 0 && is_ascii_digit_char(s[0]) {
        lemma_digit_prefix_len(s.drop_first());
        let k = digit_prefix_len(s);
        assert forall|j: int| 0 <= j < k implies is_ascii_digit_char(s[j]) by {
            if j > 0 {
                assert(s.drop_first()[j - 1] == s[j]);
            }
        }
        if k < s.len() {
            assert(s.drop_first()[k - 1] == s[k]);
        }
    }
}

proof fn lemma_digit_prefix_len_unique(s: Seq<char>, k: int)
    requires
        0 <= k <= s.len(),
        forall|j: int| 0 <= j < k ==> is_ascii_digit_char(s[j]),
        k < s.len() ==> !is_ascii_digit_char(s[k]),
    ensures
        digit_prefix_len(s) == k,
    decreases s.len(),
{
    if k == 0 {
        if s.len() > 0 {
            assert(!is_ascii_digit_char(s[0]));
        }
    } else {
        assert(is_ascii_digit_char(s[0]));
        assert forall|j: int| 0 <= j < k - 1 implies is_ascii_digit_char(s.drop_first()[j]) by {
            assert(s.drop_first()[j] == s[j + 1]);
        }
        if k - 1 < s.drop_first().len() {
            assert(s.drop_first()[k - 1] == s[k]);
        }
        lemma_digit_prefix_len_unique(s.drop_first(), k - 1);
    }
}

proof fn lemma_digits_value_step(s: Seq<char>, i: int)
    requires
        0 <= i < s.len(),
    ensures
        digits_value(s.take(i + 1)) == digits_value(s.take(i)) * 10 + (s[i] as u32 - 48),
{
    assert(s.take(i + 1).drop_last() =~= s.take(i));
    assert(s.take(i + 1).last() == s[i]);
}

/// Principal quantum number read from the front of an orbital label
/// such as "3S": the value of its leading digits, or 0 when the label
/// has none or they overflow a u32.
pub fn parse_principal_n(label: &str) -> (r: u32)
    ensures
        ({
            let k = digit_prefix_len(label@);
            let v = digits_value(label@.take(k));
            r == if k == 0 || v > u32::MAX {
                0
            } else {
                v
            }
        }),
{
    let len = label.unicode_len();
    let mut i: usize = 0;
    let mut val: u32 = 0;
    let mut overflow = false;
    let mut stop = false;
    while !stop && i < len
        invariant
            i <= len,
            len == label@.len(),
            forall|j: int| 0 <= j < i ==> is_ascii_digit_char(label@[j]),
            !overflow ==> val == digits_value(label@.take(i as int)),
            overflow ==> digits_value(label@.take(i as int)) > u32::MAX,
            stop ==> i < len && !is_ascii_digit_char(label@[i as int]),
        decreases 2 * (len - i) + (if stop { 0int } else { 1int }),
    {
        let c = label.get_char(i);
        let code = c as u32;
        if code < 48 || code > 57 {
            stop = true;
        } else {
            let d = code - 48;
            proof {
                lemma_digits_value_step(label@, i as int);
            }
            if overflow {
                // the prefix value already exceeds u32; keep scanning digits
            } else if val > (u32::MAX - d) / 10 {
                overflow = true;
            } else {
                val = val * 10 + d;
            }
            i = i + 1;
        }
    }
    proof {
        lemma_digit_prefix_len_unique(label@, i as int);
    }
    if overflow {
        0
    } else {
        val
    }
}

} // verus!
