//! The batch workflow: the list of source URLs and the per-item decisions.
use vstd::prelude::*;
use crate::job::{JobState, Phase};
use crate::playlist::{lines, lines_of, trim, trimmed, views};

verus! {

/// A line without the `'\r'` that ends it, if any.
pub open spec fn without_cr(l: Seq<char>) -> Seq<char> {
    if l.len() > 0 && l.last() == '\r' {
        l.drop_last()
    } else {
        l
    }
}

/// The lines that hold more than whitespace, in order, each without a
/// closing `'\r'`.
pub open spec fn listed(ls: Seq<Seq<char>>) -> Seq<Seq<char>>
    decreases ls.len(),
{
    if ls.len() == 0 {
        Seq::empty()
    } else {
        let l = without_cr(ls.last());
        if trimmed(l).len() > 0 {
            listed(ls.drop_last()).push(l)
        } else {
            listed(ls.drop_last())
        }
    }
}

fn strip_cr(l: &str) -> (r: String)
    ensures
        r@ == without_cr(l@),
{
    let n = l.unicode_len();
    if n > 0 && l.get_char(n - 1) == '\r' {
        l.substring_char(0, n - 1).to_string()
    } else {
        l.to_string()
    }
}

/// The source URLs of a batch list: its non-blank lines, in order.
pub fn batch_urls(text: &str) -> (r: Vec<String>)
    ensures
        views(r@) == listed(lines(text@)),
{
    let ls = lines_of(text);
    let mut out: Vec<String> = Vec::new();
    let mut i: usize = 0;
    while i < ls.len()
        invariant
            i <= ls@.len(),
            views(ls@) == lines(text@),
            listed(views(ls@).subrange(0, i as int)) == views(out@),
        decreases ls@.len() - i,
    {
        let l = strip_cr(ls[i].as_str());
        proof {
            let pre = views(ls@).subrange(0, i + 1);
            assert(pre.drop_last() =~= views(ls@).subrange(0, i as int));
            assert(pre.last() == ls@[i as int]@);
        }
        if trim(l.as_str()).unicode_len() > 0 {
            let ghost before = out@;
            let ghost lv = l@;
            out.push(l);
            assert(views(out@) =~= views(before).push(lv));
        }
        i = i + 1;
    }
    assert(views(ls@).subrange(0, ls@.len() as int) =~= views(ls@));
    out
}

/// The batch-item boundary: an item that the batch abort flag reaches
/// before it starts is marked aborted and skipped; any other item starts.
pub fn begin_item(job: &mut JobState, batch_aborted: bool) -> (started: bool)
    requires
        old(job).wf(),
        old(job).phase == Phase::Created,
    ensures
        old(job).advances(final(job)),
        started == !batch_aborted,
        batch_aborted ==> final(job).phase == Phase::Aborted && final(job).progress.is_complete()
            && final(job).status@ == "Aborted by user."@,
        !batch_aborted ==> final(job).phase == Phase::ResolvingMetadata && final(job).status@
            == "Starting..."@,
{
    if batch_aborted {
        job.skip_aborted();
        false
    } else {
        job.start();
        true
    }
}

/// Every job of a batch has reported that it finished.
pub fn all_finished(jobs: &Vec<JobState>) -> (r: bool)
    requires
        forall|k: int| 0 <= k < jobs@.len() ==> (#[trigger] jobs@[k]).wf(),
    ensures
        r == forall|k: int| 0 <= k < jobs@.len() ==> (#[trigger] jobs@[k]).progress.is_complete(),
{
    let mut i: usize = 0;
    while i < jobs.len()
        invariant
            i <= jobs@.len(),
            forall|k: int| 0 <= k < jobs@.len() ==> (#[trigger] jobs@[k]).wf(),
            forall|k: int| 0 <= k < i ==> (#[trigger] jobs@[k]).progress.is_complete(),
        decreases jobs@.len() - i,
    {
        if !jobs[i].is_finished() {
            return false;
        }
        i = i + 1;
    }
    true
}

} // verus!
