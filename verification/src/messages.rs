use vstd::prelude::*;

use hearth_interconnect::messages::Message;

verus! {

/// A message on the bus, as the wire format has it.
#[verifier::external_type_specification]
#[verifier::external_body]
pub struct ExMessage(Message);

/// Why a payload is not a message.
#[verifier::external_type_specification]
#[verifier::external_body]
pub struct ExJsonError(serde_json::Error);

/// A request from outside to play something in a guild: the scheduler turns it
/// into a `Job` for one of the workers.
#[derive(Debug)]
pub struct JobRequest {
    pub request_id: String,
    pub guild_id: String,
}

pub struct JobRequestView {
    pub request_id: Seq<char>,
    pub guild_id: Seq<char>,
}

impl View for JobRequest {
    type V = JobRequestView;

    open spec fn view(&self) -> JobRequestView {
        JobRequestView { request_id: self.request_id@, guild_id: self.guild_id@ }
    }
}

/// A job handed to one worker.
#[derive(Debug)]
pub struct Job {
    pub job_id: String,
    pub worker_id: String,
    pub request_id: String,
    pub guild_id: String,
}

pub struct JobView {
    pub job_id: Seq<char>,
    pub worker_id: Seq<char>,
    pub request_id: Seq<char>,
    pub guild_id: Seq<char>,
}

impl View for Job {
    type V = JobView;

    open spec fn view(&self) -> JobView {
        JobView {
            job_id: self.job_id@,
            worker_id: self.worker_id@,
            request_id: self.request_id@,
            guild_id: self.guild_id@,
        }
    }
}

/// An error that is reported back over the message bus.
#[derive(Debug)]
pub struct ErrorReport {
    pub error: String,
    pub request_id: String,
    pub job_id: String,
    pub guild_id: String,
}

pub struct ErrorReportView {
    pub error: Seq<char>,
    pub request_id: Seq<char>,
    pub job_id: Seq<char>,
    pub guild_id: Seq<char>,
}

impl View for ErrorReport {
    type V = ErrorReportView;

    open spec fn view(&self) -> ErrorReportView {
        ErrorReportView {
            error: self.error@,
            request_id: self.request_id@,
            job_id: self.job_id@,
            guild_id: self.guild_id@,
        }
    }
}

/// Playback metadata of a job, sent back to the requester.
#[derive(Debug)]
pub struct Metadata {
    pub duration: Option<u64>,
    pub position: Option<u64>,
    pub sample_rate: Option<u32>,
    pub job_id: String,
    pub guild_id: String,
}

pub struct MetadataView {
    pub duration: Option<u64>,
    pub position: Option<u64>,
    pub sample_rate: Option<u32>,
    pub job_id: Seq<char>,
    pub guild_id: Seq<char>,
}

impl View for Metadata {
    type V = MetadataView;

    open spec fn view(&self) -> MetadataView {
        MetadataView {
            duration: self.duration,
            position: self.position,
            sample_rate: self.sample_rate,
            job_id: self.job_id@,
            guild_id: self.guild_id@,
        }
    }
}

/// The views of a list of strings.
pub open spec fn string_views(s: Seq<String>) -> Seq<Seq<char>> {
    s.map_values(|w: String| w@)
}

/// Adding a value that is not in a list keeps the list free of duplicates.
pub proof fn lemma_push_distinct<A>(s: Seq<A>, x: A)
    requires
        s.no_duplicates(),
        !s.contains(x),
    ensures
        s.push(x).no_duplicates(),
{
    let r = s.push(x);
    assert forall|i: int, j: int| 0 <= i < r.len() && 0 <= j < r.len() && i != j implies r[i] != r[j] by {
        if i == s.len() as int {
            assert(r[j] == s[j]);
        } else if j == s.len() as int {
            assert(r[i] == s[i]);
        }
    }
}

/// Keeps the entries other than `x`.
pub open spec fn other_than(x: Seq<char>) -> spec_fn(Seq<char>) -> bool {
    |w: Seq<char>| w != x
}

/// Dropping every entry equal to `w` keeps exactly the other entries, and
/// keeps them distinct.
pub proof fn lemma_filter_other_than(s: Seq<Seq<char>>, w: Seq<char>)
    requires
        s.no_duplicates(),
    ensures
        s.filter(other_than(w)).no_duplicates(),
        forall|x: Seq<char>| #[trigger]
            s.filter(other_than(w)).contains(x) <==> (s.contains(x) && x != w),
    decreases s.len(),
{
    reveal(Seq::filter);
    let f = other_than(w);
    if s.len() == 0 {
        assert(s.filter(f) =~= s);
    } else {
        let init = s.drop_last();
        assert(init.no_duplicates()) by {
            assert forall|i: int, j: int|
                0 <= i < init.len() && 0 <= j < init.len() && i != j implies init[i] != init[j] by {
                assert(init[i] == s[i] && init[j] == s[j]);
            }
        }
        lemma_filter_other_than(init, w);
        assert(!init.contains(s.last())) by {
            if init.contains(s.last()) {
                let k = choose|k: int| 0 <= k < init.len() && init[k] == s.last();
                assert(s[k] == s[s.len() - 1]);
            }
        }
        assert forall|x: Seq<char>| s.contains(x) <==> (init.contains(x) || x == s.last()) by {
            if s.contains(x) {
                let k = choose|k: int| 0 <= k < s.len() && s[k] == x;
                if k < s.len() - 1 {
                    assert(init[k] == x);
                }
            }
            if init.contains(x) {
                let k = choose|k: int| 0 <= k < init.len() && init[k] == x;
                assert(s[k] == x);
            }
            if x == s.last() {
                assert(s[s.len() - 1] == x);
            }
        }
        let sub = init.filter(f);
        if f(s.last()) {
            let r = sub.push(s.last());
            assert(s.filter(f) == r);
            assert forall|x: Seq<char>| r.contains(x) <==> (sub.contains(x) || x == s.last()) by {
                if r.contains(x) {
                    let k = choose|k: int| 0 <= k < r.len() && r[k] == x;
                    if k < sub.len() {
                        assert(sub[k] == x);
                    }
                }
                if sub.contains(x) {
                    let k = choose|k: int| 0 <= k < sub.len() && sub[k] == x;
                    assert(r[k] == x);
                }
                if x == s.last() {
                    assert(r[r.len() - 1] == x);
                }
            }
            assert forall|i: int, j: int|
                0 <= i < r.len() && 0 <= j < r.len() && i != j implies r[i] != r[j] by {
                if i == sub.len() as int {
                    assert(!sub.contains(s.last()));
                    assert(r[j] == sub[j]);
                } else if j == sub.len() as int {
                    assert(!sub.contains(s.last()));
                    assert(r[i] == sub[i]);
                }
            }
        } else {
            assert(s.filter(f) == sub);
        }
    }
}

/// The entries of a list other than `x`, in order.
pub fn remove_all(list: &Vec<String>, x: &String) -> (r: Vec<String>)
    ensures
        string_views(r@) == string_views(list@).filter(other_than(x@)),
{
    let ghost all = string_views(list@);
    let ghost keep = other_than(x@);
    let n = list.len();
    let mut kept: Vec<String> = Vec::new();
    let mut i: usize = 0;
    proof {
        reveal(Seq::filter);
        assert(all.take(0) =~= Seq::<Seq<char>>::empty());
        assert(string_views(kept@) =~= all.take(0).filter(keep));
    }
    while i < n
        invariant
            n == list@.len(),
            all == string_views(list@),
            keep == other_than(x@),
            0 <= i <= n,
            string_views(kept@) == all.take(i as int).filter(keep),
        decreases n - i,
    {
        let ghost prev = string_views(kept@);
        proof {
            reveal(Seq::filter);
            assert(all.take(i + 1).drop_last() =~= all.take(i as int));
            assert(all.take(i + 1).last() == all[i as int]);
        }
        if list[i] != *x {
            kept.push(list[i].clone());
            proof {
                assert(string_views(kept@) =~= prev.push(all[i as int]));
            }
        }
        i = i + 1;
    }
    proof {
        assert(all.take(n as int) =~= all);
    }
    kept
}

/// The view of an optional string.
pub open spec fn opt_view(s: Option<String>) -> Option<Seq<char>> {
    match s {
        Some(s) => Some(s@),
        None => None,
    }
}

} // verus!
