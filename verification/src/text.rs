//! String utilities used by the provider-matching logic.
//!
//! Keys and extensions are compared character-wise; the suffix test here is
//! the default matching rule for providers.

use vstd::prelude::*;
use vstd::std_specs::iter::IteratorSpec;

verus! {

/// `suffix` is a suffix of `s`.
pub open spec fn is_suffix_of(suffix: Seq<char>, s: Seq<char>) -> bool {
    suffix.len() <= s.len() && s.subrange(s.len() - suffix.len(), s.len() as int) == suffix
}

/// Collect the characters of a string slice into a vector.
pub fn chars_vec(s: &str) -> (v: Vec<char>)
    ensures
        v@ == s@,
{
    broadcast use vstd::string::axiom_spec_iter, vstd::string::next_postcondition;

    let mut it = s.chars();
    let mut v: Vec<char> = Vec::new();
    loop
        invariant
            IteratorSpec::decrease(&it) is Some,
            v@ + IteratorSpec::remaining(&it) == s@,
        decreases IteratorSpec::decrease(&it)->0,
    {
        match it.next() {
            Some(c) => {
                v.push(c);
            },
            None => {
                proof {
                    assert(v@ =~= s@);
                }
                return v;
            },
        }
    }
}

/// Character-wise string equality.
pub fn str_eq(a: &str, b: &str) -> (r: bool)
    ensures
        r == (a@ == b@),
{
    let av = chars_vec(a);
    let bv = chars_vec(b);
    if av.len() != bv.len() {
        return false;
    }
    let mut i: usize = 0;
    while i < av.len()
        invariant
            0 <= i <= av.len(),
            av@ == a@,
            bv@ == b@,
            av@.len() == bv@.len(),
            forall|j: int| 0 <= j < i ==> a@[j] == b@[j],
        decreases av.len() - i,
    {
        if av[i] != bv[i] {
            return false;
        }
        i += 1;
    }
    proof {
        assert(a@ =~= b@);
    }
    true
}

/// Whether `s` ends with `suffix`, character-wise.
pub fn str_ends_with(s: &str, suffix: &str) -> (r: bool)
    ensures
        r == is_suffix_of(suffix@, s@),
{
    let sv = chars_vec(s);
    let xv = chars_vec(suffix);
    if xv.len() > sv.len() {
        return false;
    }
    let off = sv.len() - xv.len();
    let ghost goff = off as int;
    let mut i: usize = 0;
    while i < xv.len()
        invariant
            0 <= i <= xv.len(),
            sv@ == s@,
            xv@ == suffix@,
            xv@.len() <= sv@.len(),
            sv@.len() <= usize::MAX,
            goff == sv@.len() - xv@.len(),
            off == goff,
            forall|j: int| 0 <= j < i ==> s@[goff + j] == suffix@[j],
        decreases xv.len() - i,
    {
        proof {
            assert(goff + i < sv@.len());
        }
        if sv[off + i] != xv[i] {
            proof {
                let tail = s@.subrange(s@.len() - suffix@.len(), s@.len() as int);
                assert(tail[i as int] == s@[goff + i]);
            }
            return false;
        }
        i += 1;
    }
    proof {
        assert(s@.subrange(s@.len() - suffix@.len(), s@.len() as int) =~= suffix@);
    }
    true
}

/// The default matching rule: the key ends with one of the extensions.
/// An empty extension list supports nothing.
pub open spec fn default_supports(extensions: Seq<Seq<char>>, key: Seq<char>) -> bool {
    exists|i: int| 0 <= i < extensions.len() && is_suffix_of(extensions[i], key)
}

/// Whether `key` ends with any entry of `extensions`; the first qualifying
/// entry short-circuits.
pub fn extension_match(extensions: &Vec<String>, key: &str) -> (r: bool)
    ensures
        r == default_supports(extensions.deep_view(), key@),
{
    let mut i: usize = 0;
    while i < extensions.len()
        invariant
            0 <= i <= extensions@.len(),
            forall|j: int| 0 <= j < i ==> !is_suffix_of(extensions.deep_view()[j], key@),
        decreases extensions@.len() - i,
    {
        if str_ends_with(key, extensions[i].as_str()) {
            proof {
                assert(extensions.deep_view()[i as int] == extensions@[i as int]@);
            }
            return true;
        }
        i += 1;
    }
    false
}

} // verus!
