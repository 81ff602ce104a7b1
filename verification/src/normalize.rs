//! Field normalization applied while mapping backend documents into public
//! summaries: stripping the organization prefix from supplier labels and
//! deriving each document's self link.

use vstd::prelude::*;

verus! {

/// The label prefix that backend documents put in front of a supplier name.
pub open spec fn org_prefix() -> Seq<char> {
    "Organization: "@
}

/// Supplier text with every leading organization prefix removed; text that
/// does not begin with the prefix is left as it is.
pub open spec fn stripped_supplier(s: Seq<char>) -> Seq<char>
    decreases s.len(),
{
    if s.len() >= 14 && s.subrange(0, 14) == org_prefix() {
        stripped_supplier(s.subrange(14, s.len() as int))
    } else {
        s
    }
}

/// True when the fourteen characters of `s` from `start` spell the
/// organization prefix.
fn has_org_prefix_at(s: &str, start: usize) -> (r: bool)
    requires
        start as int + 14 <= s@.len(),
        s@.len() <= usize::MAX as int,
    ensures
        r <==> s@.subrange(start as int, start as int + 14) == org_prefix(),
{
    let p = "Organization: ";
    proof {
        reveal_strlit("Organization: ");
    }
    let mut i: usize = 0;
    while i < 14
        invariant
            i <= 14,
            start as int + 14 <= s@.len(),
            s@.len() <= usize::MAX as int,
            p@ == org_prefix(),
            p@.len() == 14,
            forall|j: int| 0 <= j < i ==> s@[start + j] == org_prefix()[j],
        decreases 14 - i,
    {
        let c = s.get_char(start + i);
        let pc = p.get_char(i);
        if c != pc {
            proof {
                assert(s@.subrange(start as int, start as int + 14)[i as int]
                    == s@[start as int + i as int]);
            }
            return false;
        }
        i += 1;
    }
    proof {
        assert(s@.subrange(start as int, start as int + 14) =~= org_prefix());
    }
    true
}

/// Returns the supplier label with every leading `"Organization: "`
/// removed; a label without the prefix comes back unchanged.
pub fn normalize_supplier(s: &str) -> (r: String)
    ensures
        r@ == stripped_supplier(s@),
{
    let n = s.unicode_len();
    proof {
        assert(s@.subrange(0, n as int) =~= s@);
    }
    let mut start: usize = 0;
    let mut done: bool = false;
    while !done
        invariant
            start <= n,
            n == s@.len(),
            stripped_supplier(s@.subrange(start as int, n as int)) == stripped_supplier(s@),
            done ==> stripped_supplier(s@.subrange(start as int, n as int))
                == s@.subrange(start as int, n as int),
        decreases n - start + (if done { 0int } else { 1int }),
    {
        proof {
            reveal_strlit("Organization: ");
        }
        if n - start >= 14 {
            if has_org_prefix_at(s, start) {
                proof {
                    let sub = s@.subrange(start as int, n as int);
                    assert(sub.subrange(0, 14)
                        =~= s@.subrange(start as int, start as int + 14));
                    assert(sub.subrange(14, sub.len() as int)
                        =~= s@.subrange(start as int + 14, n as int));
                    assert(stripped_supplier(sub)
                        == stripped_supplier(s@.subrange(start as int + 14, n as int)));
                }
                start = start + 14;
            } else {
                proof {
                    let sub = s@.subrange(start as int, n as int);
                    assert(sub.subrange(0, 14)
                        =~= s@.subrange(start as int, start as int + 14));
                    assert(stripped_supplier(sub) == sub);
                }
                done = true;
            }
        } else {
            proof {
                let sub = s@.subrange(start as int, n as int);
                assert(stripped_supplier(sub) == sub);
            }
            done = true;
        }
    }
    let tail = s.substring_char(start, n);
    String::from_str(tail)
}

/// A supplier label that does not begin with the organization prefix is
/// left unchanged by normalization.
pub proof fn lemma_supplier_without_prefix_unchanged(s: Seq<char>)
    requires
        s.len() < org_prefix().len() || s.subrange(0, org_prefix().len() as int) != org_prefix(),
    ensures
        stripped_supplier(s) == s,
{
    reveal_strlit("Organization: ");
}

/// Normalization removes a leading organization prefix: the prefix in
/// front of any text strips to whatever that text itself strips to.
pub proof fn lemma_supplier_prefix_stripped(rest: Seq<char>)
    ensures
        stripped_supplier(org_prefix() + rest) == stripped_supplier(rest),
{
    reveal_strlit("Organization: ");
    let s = org_prefix() + rest;
    assert(s.subrange(0, 14) =~= org_prefix());
    assert(s.subrange(14, s.len() as int) =~= rest);
}

/// The path under which the document with the given id is retrievable.
pub open spec fn self_link(id: Seq<char>) -> Seq<char> {
    "/api/v1/sbom?id="@ + id
}

/// Builds `/api/v1/sbom?id=<id>` for the given document id.
pub fn build_self_link(id: &str) -> (r: String)
    ensures
        r@ == self_link(id@),
{
    let base = String::from_str("/api/v1/sbom?id=");
    base.concat(id)
}

} // verus!
