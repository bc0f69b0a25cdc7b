//! Target-framework classification.
//!
//! SDK installation is only attempted for current-generation framework
//! identifiers; legacy desktop-framework identifiers cannot be installed by
//! the SDK install tool. The classification is a name-prefix rule.

use vstd::prelude::*;
use vstd::string::*;

verus! {

/// `p` is a prefix of `s`.
pub open spec fn is_prefix_of(p: Seq<char>, s: Seq<char>) -> bool {
    p.len() <= s.len() && s.subrange(0, p.len() as int) == p
}

/// Executable prefix test.
pub fn has_prefix(s: &str, p: &str) -> (r: bool)
    ensures
        r == is_prefix_of(p@, s@),
{
    let slen = s.unicode_len();
    let plen = p.unicode_len();
    if plen > slen {
        return false;
    }
    let mut i: usize = 0;
    while i < plen
        invariant
            i <= plen,
            plen <= slen,
            slen == s@.len(),
            plen == p@.len(),
            forall|j: int| 0 <= j < i ==> s@[j] == p@[j],
        decreases plen - i,
    {
        let cs = s.get_char(i);
        let cp = p.get_char(i);
        if cs as u32 != cp as u32 {
            proof {
                assert(s@[i as int] != p@[i as int]);
                assert(s@.subrange(0, p@.len() as int)[i as int] == s@[i as int]);
            }
            return false;
        }
        proof {
            assert(cs == cp);
        }
        i = i + 1;
    }
    proof {
        assert(s@.subrange(0, p@.len() as int) =~= p@);
    }
    true
}

/// A framework identifier names a current-generation runtime: the
/// cross-platform prefixes outright, or the bare `net` prefix provided it
/// is not one of the legacy desktop generations.
pub open spec fn modern_framework(s: Seq<char>) -> bool {
    ||| is_prefix_of("netcoreapp"@, s)
    ||| is_prefix_of("netstandard"@, s)
    ||| (is_prefix_of("net"@, s) && !is_prefix_of("net4"@, s) && !is_prefix_of("net3"@, s)
        && !is_prefix_of("net2"@, s) && !is_prefix_of("net1"@, s))
}

/// Executable classification of a framework identifier.
pub fn is_modern_framework(tfm: &str) -> (r: bool)
    ensures
        r == modern_framework(tfm@),
{
    has_prefix(tfm, "netcoreapp") || has_prefix(tfm, "netstandard") || (has_prefix(tfm, "net")
        && !has_prefix(tfm, "net4") && !has_prefix(tfm, "net3") && !has_prefix(tfm, "net2")
        && !has_prefix(tfm, "net1"))
}

} // verus!
