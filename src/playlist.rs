//! Resolution of the master and variant playlists.
use vstd::prelude::*;
use crate::error::AcqError;
use crate::text::{has_prefix, has_suffix, starts_with, ends_with};

verus! {

/// What `str::trim` returns for a text.
pub uninterp spec fn trimmed(s: Seq<char>) -> Seq<char>;

/// Relies on `str::trim`: the text without leading and trailing whitespace.
#[verifier::external_body]
pub(crate) fn trim(s: &str) -> (r: &str)
    ensures
        r@ == trimmed(s@),
{
    s.trim()
}

/// What joining `reference` onto the URL `base` gives, when both parse.
pub uninterp spec fn joined_url(base: Seq<char>, reference: Seq<char>) -> Option<Seq<char>>;

/// Whether a text parses as an absolute URL.
pub uninterp spec fn parses_as_url(s: Seq<char>) -> bool;

/// Relies on `url::Url::parse` and `Url::join`: resolves `reference`
/// against `base`, serialised by `Url::to_string`; `None` when either fails.
#[verifier::external_body]
fn join_url(base: &str, reference: &str) -> (r: Option<String>)
    ensures
        r.is_some() == joined_url(base@, reference@).is_some(),
        r matches Some(u) ==> joined_url(base@, reference@) == Some(u@),
{
    url::Url::parse(base).and_then(|b| b.join(reference)).map(|u| u.to_string()).ok()
}

/// Relies on `url::Url::parse`: whether the text is a valid absolute URL.
#[verifier::external_body]
fn url_parses(s: &str) -> (r: bool)
    ensures
        r == parses_as_url(s@),
{
    url::Url::parse(s).is_ok()
}

/// The suffix of a line that names a nested playlist.
pub open spec fn nested_suffix() -> Seq<char> {
    "/playlist.m3u8"@
}

/// The suffix of a line that names a segment.
pub open spec fn segment_suffix() -> Seq<char> {
    ".ts"@
}

/// Left-to-right split of `s` at `'\n'`: the finished lines and the line
/// being read.
pub open spec fn split(s: Seq<char>) -> (Seq<Seq<char>>, Seq<char>)
    decreases s.len(),
{
    if s.len() == 0 {
        (Seq::empty(), Seq::empty())
    } else {
        let (done, cur) = split(s.drop_last());
        if s.last() == '\n' {
            (done.push(cur), Seq::empty())
        } else {
            (done, cur.push(s.last()))
        }
    }
}

/// The lines of `s`, the last one possibly empty.
pub open spec fn lines(s: Seq<char>) -> Seq<Seq<char>> {
    split(s).0.push(split(s).1)
}

/// Where a playlist entry points: itself when absolute, else joined onto `base`.
pub open spec fn resolve_entry(base: Seq<char>, t: Seq<char>) -> Option<Seq<char>> {
    if starts_with(t, "http"@) {
        Some(t)
    } else {
        joined_url(base, t)
    }
}

/// The resolved entries of the lines whose trimmed text ends in `suffix`, in
/// order; `None` when one of them cannot be resolved.
pub open spec fn entries(ls: Seq<Seq<char>>, base: Seq<char>, suffix: Seq<char>) -> Option<
    Seq<Seq<char>>,
>
    decreases ls.len(),
{
    if ls.len() == 0 {
        Some(Seq::empty())
    } else {
        match entries(ls.drop_last(), base, suffix) {
            None => None,
            Some(acc) => {
                let t = trimmed(ls.last());
                if ends_with(t, suffix) {
                    match resolve_entry(base, t) {
                        Some(u) => Some(acc.push(u)),
                        None => None,
                    }
                } else {
                    Some(acc)
                }
            },
        }
    }
}

pub open spec fn views(v: Seq<String>) -> Seq<Seq<char>> {
    v.map_values(|u: String| u@)
}

/// Resolves one trimmed entry.
fn resolve_line(base: &str, t: &str) -> (r: Option<String>)
    ensures
        match r {
            Some(u) => resolve_entry(base@, t@) == Some(u@),
            None => resolve_entry(base@, t@) is None,
        },
{
    if has_prefix(t, "http") {
        Some(String::from_str(t))
    } else {
        join_url(base, t)
    }
}

/// Handles one line: resolves it onto `out` when it names an entry.
fn take_line(base: &str, line: &str, suffix: &str, out: &mut Vec<String>) -> (ok: bool)
    ensures
        ok ==> ({
            let t = trimmed(line@);
            if ends_with(t, suffix@) {
                resolve_entry(base@, t) matches Some(u) && views(final(out)@) == views(old(out)@).push(u)
            } else {
                final(out)@ == old(out)@
            }
        }),
        !ok ==> ends_with(trimmed(line@), suffix@) && resolve_entry(base@, trimmed(line@)) is None,
{
    let t = trim(line);
    if has_suffix(t, suffix) {
        match resolve_line(base, t) {
            Some(u) => {
                let ghost u_view = u@;
                out.push(u);
                assert(views(out@) =~= views(old(out)@).push(u_view));
                true
            },
            None => false,
        }
    } else {
        true
    }
}

/// The lines of `s`, split at `'\n'`.
pub fn lines_of(s: &str) -> (r: Vec<String>)
    ensures
        views(r@) == lines(s@),
{
    let n = s.unicode_len();
    let mut out: Vec<String> = Vec::new();
    let mut start: usize = 0;
    let mut i: usize = 0;
    while i < n
        invariant
            n == s@.len(),
            start <= i <= n,
            split(s@.subrange(0, i as int)).1 == s@.subrange(start as int, i as int),
            split(s@.subrange(0, i as int)).0 == views(out@),
        decreases n - i,
    {
        let c = s.get_char(i);
        proof {
            let pre = s@.subrange(0, i + 1);
            assert(pre.drop_last() =~= s@.subrange(0, i as int));
            assert(pre.last() == c);
        }
        if c == '\n' {
            let line = s.substring_char(start, i).to_string();
            let ghost before = out@;
            out.push(line);
            assert(views(out@) =~= views(before).push(s@.subrange(start as int, i as int)));
            start = i + 1;
        } else {
            assert(s@.subrange(start as int, i + 1) =~= s@.subrange(start as int, i as int).push(c));
        }
        i = i + 1;
    }
    assert(s@.subrange(0, n as int) =~= s@);
    let ghost before = out@;
    out.push(s.substring_char(start, n).to_string());
    assert(views(out@) =~= views(before).push(s@.subrange(start as int, n as int)));
    out
}

/// The entries of a playlist body: the lines ending in `suffix` after
/// trimming, resolved against `base`, in order of appearance.
pub fn playlist_entries(base: &str, body: &str, suffix: &str) -> (r: Option<Vec<String>>)
    ensures
        match r {
            Some(v) => entries(lines(body@), base@, suffix@) == Some(views(v@)),
            None => entries(lines(body@), base@, suffix@) is None,
        },
{
    let ls = lines_of(body);
    let mut out: Vec<String> = Vec::new();
    let mut i: usize = 0;
    while i < ls.len()
        invariant
            i <= ls@.len(),
            views(ls@) == lines(body@),
            entries(views(ls@).subrange(0, i as int), base@, suffix@) == Some(views(out@)),
        decreases ls@.len() - i,
    {
        let ok = take_line(base, ls[i].as_str(), suffix, &mut out);
        proof {
            let pre = views(ls@).subrange(0, i + 1);
            assert(pre.drop_last() =~= views(ls@).subrange(0, i as int));
            assert(pre.last() == ls@[i as int]@);
        }
        if !ok {
            proof {
                lemma_entries_none_extends(views(ls@), base@, suffix@, i + 1);
                assert(views(ls@).subrange(0, ls@.len() as int) =~= views(ls@));
            }
            return None;
        }
        i = i + 1;
    }
    assert(views(ls@).subrange(0, ls@.len() as int) =~= views(ls@));
    Some(out)
}

/// Entries keep the order of the lines: the entries of two blocks of lines,
/// one after the other, are the entries of the first block followed by
/// those of the second, and fail when either block fails.
pub proof fn lemma_entries_keep_order(
    a: Seq<Seq<char>>,
    b: Seq<Seq<char>>,
    base: Seq<char>,
    suffix: Seq<char>,
)
    ensures
        entries(a + b, base, suffix) == (match (entries(a, base, suffix), entries(b, base, suffix)) {
            (Some(x), Some(y)) => Some(x + y),
            _ => None,
        }),
    decreases b.len(),
{
    if b.len() == 0 {
        assert(a + b =~= a);
        if let Some(x) = entries(a, base, suffix) {
            assert(x + Seq::<Seq<char>>::empty() =~= x);
        }
    } else {
        let b0 = b.drop_last();
        lemma_entries_keep_order(a, b0, base, suffix);
        assert((a + b).drop_last() =~= a + b0);
        assert((a + b).last() == b.last());
        if let (Some(x), Some(y0)) = (entries(a, base, suffix), entries(b0, base, suffix)) {
            let t = trimmed(b.last());
            if ends_with(t, suffix) {
                if let Some(u) = resolve_entry(base, t) {
                    assert((x + y0).push(u) =~= x + y0.push(u));
                }
            }
        }
    }
}

/// Once an entry fails to resolve, the whole list fails.
proof fn lemma_entries_none_extends(ls: Seq<Seq<char>>, base: Seq<char>, suffix: Seq<char>, i: int)
    requires
        0 <= i <= ls.len(),
        entries(ls.subrange(0, i), base, suffix) is None,
    ensures
        entries(ls, base, suffix) is None,
    decreases ls.len() - i,
{
    if i < ls.len() {
        let pre = ls.subrange(0, i + 1);
        assert(pre.drop_last() =~= ls.subrange(0, i));
        lemma_entries_none_extends(ls, base, suffix, i + 1);
    } else {
        assert(ls.subrange(0, i) =~= ls);
    }
}

/// The variant to fetch: the first nested playlist, else the master itself.
pub open spec fn variant_of(master_url: Seq<char>, nested: Seq<Seq<char>>) -> Seq<char> {
    if nested.len() > 0 {
        nested[0]
    } else {
        master_url
    }
}

/// Picks the variant playlist from the master playlist's body: the first
/// line ending in `/playlist.m3u8`, resolved against the master URL, or the
/// master URL when there is none; `PlaylistFetchFailed` when a nested entry
/// cannot be resolved.
pub fn select_variant(master_url: &str, master_body: &str) -> (r: Result<String, AcqError>)
    ensures
        match entries(lines(master_body@), master_url@, nested_suffix()) {
            Some(nested) => r matches Ok(u) && u@ == variant_of(master_url@, nested),
            None => r == Err::<String, AcqError>(AcqError::PlaylistFetchFailed),
        },
{
    match playlist_entries(master_url, master_body, "/playlist.m3u8") {
        Some(v) => {
            if v.len() > 0 {
                Ok(v[0].clone())
            } else {
                Ok(String::from_str(master_url))
            }
        },
        None => Err(AcqError::PlaylistFetchFailed),
    }
}

/// The segment URLs of a variant playlist, in playback order:
/// `EmptyPlaylist` when the body holds only whitespace,
/// `PlaylistFetchFailed` when the variant URL or a segment entry cannot be
/// resolved.
pub fn segment_urls(variant_url: &str, body: &str) -> (r: Result<Vec<String>, AcqError>)
    ensures
        trimmed(body@).len() == 0 ==> r == Err::<Vec<String>, AcqError>(AcqError::EmptyPlaylist),
        trimmed(body@).len() > 0 && !parses_as_url(variant_url@) ==> r == Err::<
            Vec<String>,
            AcqError,
        >(AcqError::PlaylistFetchFailed),
        trimmed(body@).len() > 0 && parses_as_url(variant_url@) ==> match entries(
            lines(body@),
            variant_url@,
            segment_suffix(),
        ) {
            Some(segs) => r matches Ok(v) && views(v@) == segs,
            None => r == Err::<Vec<String>, AcqError>(AcqError::PlaylistFetchFailed),
        },
{
    if trim(body).unicode_len() == 0 {
        return Err(AcqError::EmptyPlaylist);
    }
    if !url_parses(variant_url) {
        return Err(AcqError::PlaylistFetchFailed);
    }
    match playlist_entries(variant_url, body, ".ts") {
        Some(v) => Ok(v),
        None => Err(AcqError::PlaylistFetchFailed),
    }
}

} // verus!
