//! Operating-system strings (command line arguments, path components) as their code
//! units, so that they pass through unchanged whatever they hold.

use vstd::prelude::*;

verus! {

/// The code units of a string of ASCII characters, one per character.
pub open spec fn os_units(s: Seq<char>) -> Seq<u16> {
    s.map_values(|c: char| c as u16)
}

/// The views of a sequence of operating-system strings.
pub open spec fn units_view(v: Seq<Vec<u16>>) -> Seq<Seq<u16>> {
    v.map_values(|u: Vec<u16>| u@)
}

/// The code units of `s`, one per character; used for ASCII names.
pub fn os_string(s: &str) -> (r: Vec<u16>)
    ensures
        r@ == os_units(s@),
{
    let n = s.unicode_len();
    let mut r: Vec<u16> = Vec::new();
    let mut i: usize = 0;
    while i < n
        invariant
            n == s@.len(),
            i <= n,
            r@ == os_units(s@.take(i as int)),
        decreases n - i,
    {
        let c = s.get_char(i);
        r.push(c as u16);
        assert(s@.take(i + 1) =~= s@.take(i as int).push(c));
        assert(os_units(s@.take(i + 1)) =~= os_units(s@.take(i as int)).push(c as u16));
        i = i + 1;
    }
    assert(s@.take(n as int) =~= s@);
    r
}

/// A copy of an operating-system string.
pub fn copy_units(u: &Vec<u16>) -> (r: Vec<u16>)
    ensures
        r@ == u@,
{
    let mut r: Vec<u16> = Vec::new();
    let mut i: usize = 0;
    while i < u.len()
        invariant
            i <= u@.len(),
            r@ == u@.take(i as int),
        decreases u@.len() - i,
    {
        r.push(u[i]);
        assert(u@.take(i + 1) =~= u@.take(i as int).push(u@[i as int]));
        i = i + 1;
    }
    assert(u@.take(u@.len() as int) =~= u@);
    r
}

} // verus!
