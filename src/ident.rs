//! Extraction of the numeric video identifier from a source page URL.
use vstd::prelude::*;
use crate::error::AcqError;

verus! {

/// The path marker that precedes the identifier.
pub open spec fn marker() -> Seq<char> {
    seq!['/', 'v', 'i', 'd', 'e', 'o', '/']
}

pub open spec fn is_digit(c: char) -> bool {
    '0' <= c && c <= '9'
}

/// The marker starts at `i` and a digit follows it.
pub open spec fn marker_at(s: Seq<char>, i: int) -> bool {
    0 <= i && i + 8 <= s.len() && s.subrange(i, i + 7) == marker() && is_digit(s[i + 7])
}

/// The end of the run of digits that starts at `j`.
pub open spec fn digits_end(s: Seq<char>, j: int) -> int
    decreases s.len() - j,
{
    if 0 <= j < s.len() && is_digit(s[j]) {
        digits_end(s, j + 1)
    } else {
        j
    }
}

proof fn lemma_digits_end(s: Seq<char>, j: int)
    requires
        0 <= j <= s.len(),
    ensures
        j <= digits_end(s, j) <= s.len(),
        forall|k: int| j <= k < digits_end(s, j) ==> is_digit(s[k]),
        digits_end(s, j) < s.len() ==> !is_digit(s[digits_end(s, j)]),
    decreases s.len() - j,
{
    if j < s.len() && is_digit(s[j]) {
        lemma_digits_end(s, j + 1);
    }
}

/// The identifier of a URL: the digits after the first marker that digits follow.
pub open spec fn video_id_of(s: Seq<char>, id: Seq<char>) -> bool {
    exists|i: int|
        marker_at(s, i) && (forall|k: int| 0 <= k < i ==> !marker_at(s, k)) && id == s.subrange(
            i + 7,
            digits_end(s, i + 7),
        )
}

fn is_digit_char(c: char) -> (r: bool)
    ensures
        r == is_digit(c),
{
    '0' <= c && c <= '9'
}

fn marker_at_exec(s: &str, n: usize, i: usize) -> (r: bool)
    requires
        n == s@.len(),
    ensures
        r == marker_at(s@, i as int),
{
    if i >= n || n - i < 8 {
        return false;
    }
    let r = s.get_char(i) == '/' && s.get_char(i + 1) == 'v' && s.get_char(i + 2) == 'i'
        && s.get_char(i + 3) == 'd' && s.get_char(i + 4) == 'e' && s.get_char(i + 5) == 'o'
        && s.get_char(i + 6) == '/' && is_digit_char(s.get_char(i + 7));
    proof {
        let sub = s@.subrange(i as int, i + 7);
        if r {
            assert(sub =~= marker());
        } else if sub == marker() {
            assert(sub[0] == '/' && sub[1] == 'v' && sub[2] == 'i' && sub[3] == 'd');
            assert(sub[4] == 'e' && sub[5] == 'o' && sub[6] == '/');
        }
    }
    r
}

/// Extracts the run of digits that follows the first `/video/` marker
/// followed by a digit; `MalformedUrl` when the URL has no such marker.
pub fn extract_video_id(url: &str) -> (r: Result<String, AcqError>)
    ensures
        match r {
            Ok(id) => video_id_of(url@, id@),
            Err(e) => e == AcqError::MalformedUrl && forall|i: int| !marker_at(url@, i),
        },
{
    let n = url.unicode_len();
    let mut i: usize = 0;
    while i < n
        invariant
            n == url@.len(),
            i <= n,
            forall|k: int| 0 <= k < i ==> !marker_at(url@, k),
        decreases n - i,
    {
        if marker_at_exec(url, n, i) {
            let start = i + 7;
            let mut j: usize = start;
            while j < n && is_digit_char(url.get_char(j))
                invariant
                    n == url@.len(),
                    start <= j <= n,
                    marker_at(url@, i as int),
                    digits_end(url@, start as int) == digits_end(url@, j as int),
                decreases n - j,
            {
                j = j + 1;
            }
            proof {
                lemma_digits_end(url@, start as int);
            }
            let id = url.substring_char(start, j);
            let r = id.to_string();
            assert(video_id_of(url@, r@));
            return Ok(r);
        }
        i = i + 1;
    }
    assert forall|k: int| !marker_at(url@, k) by {
        if 0 <= k < i {
        }
    }
    Err(AcqError::MalformedUrl)
}

} // verus!
