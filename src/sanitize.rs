//! File-name sanitisation of titles.
use vstd::prelude::*;

verus! {

/// What `char::is_alphanumeric` returns for a character.
pub uninterp spec fn alphanumeric(c: char) -> bool;

/// Relies on `char::is_alphanumeric`: Unicode Alphabetic or Numeric.
#[verifier::external_body]
fn is_alphanumeric(c: char) -> (r: bool)
    ensures
        r == alphanumeric(c),
{
    c.is_alphanumeric()
}

/// A character that a sanitised name keeps.
pub open spec fn is_word_char(c: char) -> bool {
    c != '_' && alphanumeric(c)
}

/// Left-to-right scan of `s`: the output so far, and whether separators
/// were seen since the last kept character.
pub open spec fn scan(s: Seq<char>) -> (Seq<char>, bool)
    decreases s.len(),
{
    if s.len() == 0 {
        (Seq::empty(), false)
    } else {
        let (o, pending) = scan(s.drop_last());
        let c = s.last();
        if is_word_char(c) {
            let o2 = if pending && o.len() > 0 {
                o.push('_')
            } else {
                o
            };
            (o2.push(c), false)
        } else {
            (o, true)
        }
    }
}

/// The sanitised form of `s`: its runs of alphanumeric characters joined
/// by single underscores.
pub open spec fn sanitized(s: Seq<char>) -> Seq<char> {
    scan(s).0
}

/// Only kept characters and underscores, no leading underscore and no two
/// underscores in a row.
pub open spec fn is_clean_prefix(t: Seq<char>) -> bool {
    &&& forall|i: int| 0 <= i < t.len() ==> is_word_char(#[trigger] t[i]) || t[i] == '_'
    &&& t.len() > 0 ==> t[0] != '_'
    &&& forall|i: int| 0 <= i < t.len() - 1 ==> !(#[trigger] t[i] == '_' && t[i + 1] == '_')
}

/// A valid sanitised name: a clean prefix that does not end in an underscore.
pub open spec fn is_clean(t: Seq<char>) -> bool {
    is_clean_prefix(t) && (t.len() > 0 ==> t.last() != '_')
}

proof fn lemma_scan_clean(s: Seq<char>)
    ensures
        is_clean(scan(s).0),
    decreases s.len(),
{
    if s.len() > 0 {
        lemma_scan_clean(s.drop_last());
        let (o, pending) = scan(s.drop_last());
        let c = s.last();
        if is_word_char(c) {
            let o2 = if pending && o.len() > 0 {
                o.push('_')
            } else {
                o
            };
            let o3 = o2.push(c);
            assert forall|i: int| 0 <= i < o3.len() implies is_word_char(#[trigger] o3[i]) || o3[i]
                == '_' by {
                if i < o.len() {
                    assert(o3[i] == o[i]);
                }
            }
            assert forall|i: int| 0 <= i < o3.len() - 1 implies !(#[trigger] o3[i] == '_' && o3[i
                + 1] == '_') by {
                if i + 1 < o.len() {
                    assert(o3[i] == o[i] && o3[i + 1] == o[i + 1]);
                } else if i + 1 == o.len() {
                    assert(o3[i] == o.last());
                }
            }
            if o.len() > 0 {
                assert(o3[0] == o[0]);
            }
        }
    }
}

proof fn lemma_scan_of_clean_prefix(t: Seq<char>)
    requires
        is_clean_prefix(t),
    ensures
        scan(t) == (if t.len() > 0 && t.last() == '_' {
            (t.drop_last(), true)
        } else {
            (t, false)
        }),
    decreases t.len(),
{
    if t.len() > 0 {
        let u = t.drop_last();
        assert(is_clean_prefix(u)) by {
            assert forall|i: int| 0 <= i < u.len() implies is_word_char(#[trigger] u[i]) || u[i]
                == '_' by {
                assert(u[i] == t[i]);
            }
            assert forall|i: int| 0 <= i < u.len() - 1 implies !(#[trigger] u[i] == '_' && u[i + 1]
                == '_') by {
                assert(u[i] == t[i] && u[i + 1] == t[i + 1]);
            }
            if u.len() > 0 {
                assert(u[0] == t[0]);
            }
        }
        lemma_scan_of_clean_prefix(u);
        let c = t.last();
        assert(is_word_char(t[t.len() - 1]) || t[t.len() - 1] == '_');
        if is_word_char(c) {
            if u.len() > 0 && u.last() == '_' {
                assert(u.len() >= 2);
                assert(u.drop_last().push('_') =~= u);
            }
            assert(u.push(c) =~= t);
        } else {
            assert(c == '_');
            assert(u.len() > 0);
            assert(!(t[t.len() - 2] == '_' && t[t.len() - 1] == '_'));
            assert(u.last() != '_');
        }
    }
}

/// Sanitising is idempotent.
pub proof fn lemma_sanitize_idempotent(s: Seq<char>)
    ensures
        sanitized(sanitized(s)) == sanitized(s),
        is_clean(sanitized(s)),
{
    lemma_scan_clean(s);
    lemma_scan_of_clean_prefix(sanitized(s));
}

/// Replaces every run of characters other than alphanumerics with one
/// underscore, and drops underscores at either end.
pub fn sanitize_filename(s: &str) -> (r: String)
    ensures
        r@ == sanitized(s@),
        is_clean(r@),
{
    let n = s.unicode_len();
    let mut out = String::new();
    let mut pending = false;
    let mut i: usize = 0;
    while i < n
        invariant
            n == s@.len(),
            i <= n,
            (out@, pending) == scan(s@.subrange(0, i as int)),
        decreases n - i,
    {
        let c = s.get_char(i);
        proof {
            let pre = s@.subrange(0, i + 1);
            assert(pre.drop_last() =~= s@.subrange(0, i as int));
            assert(pre.last() == c);
        }
        if c != '_' && is_alphanumeric(c) {
            if pending && out.unicode_len() > 0 {
                proof {
                    reveal_strlit("_");
                }
                out.append("_");
            }
            out.append(s.substring_char(i, i + 1));
            proof {
                assert(s@.subrange(i as int, i + 1) =~= seq![c]);
            }
            pending = false;
        } else {
            pending = true;
        }
        i = i + 1;
    }
    proof {
        assert(s@.subrange(0, n as int) =~= s@);
        lemma_scan_clean(s@);
    }
    out
}

} // verus!
