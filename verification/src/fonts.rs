//! The monospace font list: which installed font family names are offered
//! to the editor. The enumeration of installed families is performed by the
//! surrounding application; this module keeps the likely-monospace ones,
//! without duplicates, in lexicographic order.

use vstd::prelude::*;
use vstd::seq_lib::group_seq_properties;
use crate::text::{
    contains_seq, contains_sub, lemma_lex_total, lemma_lex_trans, lex_le, lower_of, str_eq,
    str_lex_le, to_lowercase_str,
};

verus! {

/// Whether a lowercased family name reads as a likely monospace font.
#[verifier::opaque]
pub open spec fn is_mono_name(l: Seq<char>) -> bool {
    ||| contains_seq(l, "mono"@)
    ||| contains_seq(l, "code"@)
    ||| contains_seq(l, "consol"@)
    ||| contains_seq(l, "courier"@)
    ||| contains_seq(l, "fixed"@)
    ||| contains_seq(l, "terminal"@)
    ||| contains_seq(l, "menlo"@)
    ||| contains_seq(l, "source code"@)
    ||| contains_seq(l, "fira"@)
    ||| contains_seq(l, "hack"@)
    ||| contains_seq(l, "inconsolata"@)
    ||| contains_seq(l, "iosevka"@)
    ||| contains_seq(l, "jetbrains"@)
    ||| contains_seq(l, "cascadia"@)
    ||| contains_seq(l, "sf mono"@)
    ||| contains_seq(l, "ubuntu mono"@)
    ||| contains_seq(l, "roboto mono"@)
    ||| contains_seq(l, "droid sans mono"@)
    ||| contains_seq(l, "liberation mono"@)
    ||| contains_seq(l, "dejavu sans mono"@)
    ||| contains_seq(l, "noto mono"@)
    ||| contains_seq(l, "anonymous"@)
    ||| contains_seq(l, "ibm plex mono"@)
    ||| contains_seq(l, "victor mono"@)
    ||| contains_seq(l, "space mono"@)
    ||| contains_seq(l, "overpass mono"@)
}

/// Whether the lowercased family name reads as a likely monospace font.
fn name_matches(lower: &str) -> (r: bool)
    ensures
        r == is_mono_name(lower@),
{
    proof {
        reveal(is_mono_name);
    }
    ||| contains_sub(lower, "mono")
    ||| contains_sub(lower, "code")
    ||| contains_sub(lower, "consol")
    ||| contains_sub(lower, "courier")
    ||| contains_sub(lower, "fixed")
    ||| contains_sub(lower, "terminal")
    ||| contains_sub(lower, "menlo")
    ||| contains_sub(lower, "source code")
    ||| contains_sub(lower, "fira")
    ||| contains_sub(lower, "hack")
    ||| contains_sub(lower, "inconsolata")
    ||| contains_sub(lower, "iosevka")
    ||| contains_sub(lower, "jetbrains")
    ||| contains_sub(lower, "cascadia")
    ||| contains_sub(lower, "sf mono")
    ||| contains_sub(lower, "ubuntu mono")
    ||| contains_sub(lower, "roboto mono")
    ||| contains_sub(lower, "droid sans mono")
    ||| contains_sub(lower, "liberation mono")
    ||| contains_sub(lower, "dejavu sans mono")
    ||| contains_sub(lower, "noto mono")
    ||| contains_sub(lower, "anonymous")
    ||| contains_sub(lower, "ibm plex mono")
    ||| contains_sub(lower, "victor mono")
    ||| contains_sub(lower, "space mono")
    ||| contains_sub(lower, "overpass mono")
}

/// Whether some element of `v` has exactly this text.
fn vec_contains_str(v: &Vec<String>, s: &str) -> (r: bool)
    ensures
        r == exists|i: int| 0 <= i < v@.len() && (#[trigger] v@[i]@) == s@,
{
    let n = v.len();
    let mut i: usize = 0;
    while i < n
        invariant
            n == v@.len(),
            i <= n,
            forall|j: int| 0 <= j < i ==> (#[trigger] v@[j]@) != s@,
        decreases n - i,
    {
        if str_eq(v[i].as_str(), s) {
            return true;
        }
        i += 1;
    }
    false
}

/// Keeps the family names that read as likely monospace fonts: each result
/// is one of the given families, every matching family appears, no name
/// appears twice, and the list is in lexicographic order.
#[verifier::rlimit(50)]
pub fn filter_monospace_fonts(families: &Vec<String>) -> (r: Vec<String>)
    ensures
        forall|a: int|
            0 <= a < r@.len() ==> is_mono_name(lower_of(#[trigger] r@[a]@)) && exists|j: int|
                0 <= j < families@.len() && (#[trigger] families@[j]@) == r@[a]@,
        forall|j: int|
            0 <= j < families@.len() && is_mono_name(lower_of(#[trigger] families@[j]@))
                ==> exists|a: int| 0 <= a < r@.len() && (#[trigger] r@[a]@) == families@[j]@,
        forall|a: int, b: int| 0 <= a < b < r@.len() ==> (#[trigger] r@[a]@) != (
        #[trigger] r@[b]@),
        forall|a: int, b: int| 0 <= a < b < r@.len() ==> lex_le(
            #[trigger] r@[a]@,
            #[trigger] r@[b]@,
        ),
{
    broadcast use group_seq_properties;

    let n = families.len();
    let mut out: Vec<String> = Vec::new();
    let mut i: usize = 0;
    while i < n
        invariant
            n == families@.len(),
            i <= n,
            forall|a: int|
                0 <= a < out@.len() ==> is_mono_name(lower_of(#[trigger] out@[a]@)) && exists|
                j: int|
                    0 <= j < i && (#[trigger] families@[j]@) == out@[a]@,
            forall|j: int|
                0 <= j < i && is_mono_name(lower_of(#[trigger] families@[j]@)) ==> exists|a: int|
                    0 <= a < out@.len() && (#[trigger] out@[a]@) == families@[j]@,
            forall|a: int, b: int| 0 <= a < b < out@.len() ==> (#[trigger] out@[a]@) != (
            #[trigger] out@[b]@),
            forall|a: int, b: int| 0 <= a < b < out@.len() ==> lex_le(
                #[trigger] out@[a]@,
                #[trigger] out@[b]@,
            ),
        decreases n - i,
    {
        let family: &String = &families[i];
        let lower = to_lowercase_str(family.as_str());
        if name_matches(lower.as_str()) && !vec_contains_str(&out, family.as_str()) {
            let ghost before = out@;
            let x = family.clone();
            // Find the insertion position keeping the list ordered.
            let mut pos: usize = 0;
            while pos < out.len() && !str_lex_le(x.as_str(), out[pos].as_str())
                invariant
                    pos <= out@.len(),
                    x@ == families@[i as int]@,
                    forall|k: int| 0 <= k < pos ==> !lex_le(x@, #[trigger] out@[k]@),
                decreases out@.len() - pos,
            {
                pos += 1;
            }
            proof {
                before.insert_ensures(pos as int, x);
                assert forall|k: int| 0 <= k < pos implies lex_le(#[trigger] before[k]@, x@) by {
                    lemma_lex_total(x@, before[k]@);
                }
            }
            out.insert(pos, x);
            proof {
                let cur = out@;
                assert forall|a: int, b: int| 0 <= a < b < cur.len() implies lex_le(
                    #[trigger] cur[a]@,
                    #[trigger] cur[b]@,
                ) by {
                    if b < pos {
                    } else if a < pos && b == pos {
                    } else if a == pos && b > pos {
                        if pos < before.len() {
                            assert(lex_le(x@, before[pos as int]@));
                            if b - 1 > pos {
                                assert(lex_le(before[pos as int]@, before[b - 1]@));
                                lemma_lex_trans(x@, before[pos as int]@, before[b - 1]@);
                            }
                        }
                        assert(cur[b] == before[b - 1]);
                    } else if a < pos && b > pos {
                        assert(cur[a] == before[a] && cur[b] == before[b - 1]);
                    } else {
                        assert(cur[a] == before[a - 1] && cur[b] == before[b - 1]);
                    }
                }
                assert forall|a: int, b: int| 0 <= a < b < cur.len() implies (
                #[trigger] cur[a]@) != (#[trigger] cur[b]@) by {
                    let a0 = if a < pos { a } else { a - 1 };
                    let b0 = if b <= pos { b } else { b - 1 };
                    if a == pos {
                        assert(cur[b] == before[b - 1]);
                    } else if b == pos {
                        assert(cur[a] == before[a]);
                    } else {
                        assert(cur[a] == before[a0] && cur[b] == before[b0]);
                    }
                }
                assert forall|a: int| 0 <= a < cur.len() implies is_mono_name(
                    lower_of(#[trigger] cur[a]@),
                ) && exists|j: int| 0 <= j < i + 1 && (#[trigger] families@[j]@) == cur[a]@ by {
                    if a == pos {
                        assert(cur[a]@ == families@[i as int]@);
                        assert(lower@ == lower_of(families@[i as int]@));
                    } else {
                        let a0 = if a < pos { a } else { a - 1 };
                        assert(cur[a] == before[a0]);
                        let j = choose|j: int|
                            0 <= j < i && (#[trigger] families@[j]@) == before[a0]@;
                        assert(families@[j]@ == cur[a]@);
                    }
                }
                assert forall|j: int|
                    0 <= j < i + 1 && is_mono_name(
                        lower_of(#[trigger] families@[j]@),
                    ) implies exists|a: int| 0 <= a < cur.len() && (#[trigger] cur[a]@)
                    == families@[j]@ by {
                    if j == i {
                        assert(cur[pos as int]@ == families@[j]@);
                    } else {
                        let a = choose|a: int|
                            0 <= a < before.len() && (#[trigger] before[a]@) == families@[j]@;
                        let a1 = if a < pos {
                            a
                        } else {
                            a + 1
                        };
                        assert(cur[a1]@ == families@[j]@);
                    }
                }
            }
        } else {
            proof {
                if is_mono_name(lower_of(families@[i as int]@)) {
                    assert(lower@ == lower_of(families@[i as int]@));
                    let a = choose|a: int|
                        0 <= a < out@.len() && (#[trigger] out@[a]@) == families@[i as int]@;
                    assert(out@[a]@ == families@[i as int]@);
                }
            }
        }
        i += 1;
    }
    out
}

} // verus!
