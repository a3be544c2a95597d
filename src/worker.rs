use vstd::prelude::*;

use crate::protocol::{continuation_request, scroll_body, scroll_url, texts, Page, Request};

verus! {

/// Where a slice's export stands.
#[derive(PartialEq, Eq, Structural, Clone, Copy, Debug)]
pub enum Status {
    Starting,
    Running,
    Finished,
    Failed,
}

/// What a slice's progress row shows.
#[derive(PartialEq, Eq, Structural, Clone, Copy, Debug)]
pub struct Progress {
    /// The slice's total number of matches, as its first page reported it.
    pub total: u64,
    /// How many documents have been handed on so far.
    pub position: u64,
    pub status: Status,
}

/// What the worker does after a page arrived: hand `batch`, where there is
/// one, to the writer, then send `next`, or stop where there is none.
#[derive(Debug)]
pub struct Step {
    pub batch: Option<Vec<String>>,
    pub next: Option<Request>,
}

/// The decisions of one slice's scroll loop. The caller performs the
/// requests and hands each outcome back.
pub struct ScrollWorker {
    pub host: String,
    pub ttl: String,
    pub progress: Progress,
    /// How many batches were handed on (saturating).
    pub sent: u64,
}

pub open spec fn sat_add(a: u64, b: nat) -> u64 {
    if a + b > u64::MAX { u64::MAX } else { (a + b) as u64 }
}

impl ScrollWorker {
    /// The worker's invariant: nothing is handed on before the first page,
    /// and a running or finished worker has handed on at least one batch.
    pub open spec fn wf(&self) -> bool {
        &&& self.progress.status is Starting ==> self.sent == 0 && self.progress.position == 0
        &&& self.progress.status is Running ==> self.sent >= 1
        &&& self.progress.status is Finished ==> self.sent >= 1
    }

    /// Whether the worker still expects a page.
    pub open spec fn active(&self) -> bool {
        self.progress.status is Starting || self.progress.status is Running
    }

    pub fn new(host: String, ttl: String) -> (r: ScrollWorker)
        ensures
            r.wf(),
            r.host == host,
            r.ttl == ttl,
            r.progress == (Progress { total: 0, position: 0, status: Status::Starting }),
            r.sent == 0,
    {
        ScrollWorker { host, ttl, progress: Progress { total: 0, position: 0, status: Status::Starting }, sent: 0 }
    }

    /// A page arrived. A page with documents is handed on and asks for the
    /// next page with its cursor. An empty page ends the slice; it is handed
    /// on only when it is the first page, so that every slice hands on at
    /// least one batch. The first page's total is the slice's total.
    pub fn on_page(&mut self, page: Page) -> (r: Step)
        requires
            old(self).wf(),
            old(self).active(),
        ensures
            final(self).wf(),
            final(self).host == old(self).host,
            final(self).ttl == old(self).ttl,
            r.batch is Some <==> (page.docs@.len() > 0 || old(self).progress.status is Starting),
            r.batch matches Some(b) ==> texts(b@) == page.docs_view(),
            old(self).progress.status is Starting ==> final(self).progress.total == page.total,
            old(self).progress.status is Running ==> final(self).progress.total == old(self).progress.total,
            final(self).progress.position == sat_add(old(self).progress.position, page.docs@.len()),
            r.batch is Some ==> final(self).sent == sat_add(old(self).sent, 1),
            r.batch is None ==> final(self).sent == old(self).sent,
            final(self).sent >= 1,
            page.docs@.len() == 0 ==> r.next is None && final(self).progress.status is Finished,
            page.docs@.len() > 0 ==> final(self).progress.status is Running && (r.next matches Some(q)
                && q.url@ == scroll_url(old(self).host@)
                && q.params@.len() == 0
                && q.body@ == scroll_body(old(self).ttl@, page.cursor@)),
    {
        let n = page.docs.len() as u64;
        let first = self.progress.status == Status::Starting;
        let pos = self.progress.position;
        self.progress.position = if u64::MAX - pos < n { u64::MAX } else { pos + n };
        if first {
            self.progress.total = page.total;
        }
        if n == 0 && !first {
            self.progress.status = Status::Finished;
            return Step { batch: None, next: None };
        }
        self.sent = if self.sent == u64::MAX { u64::MAX } else { self.sent + 1 };
        if n == 0 {
            self.progress.status = Status::Finished;
            Step { batch: Some(page.docs), next: None }
        } else {
            self.progress.status = Status::Running;
            let q = continuation_request(self.host.as_str(), self.ttl.as_str(), page.cursor.as_str());
            Step { batch: Some(page.docs), next: Some(q) }
        }
    }

    /// A request failed: the slice is aborted and hands on nothing more.
    pub fn on_failure(&mut self)
        requires
            old(self).wf(),
        ensures
            final(self).wf(),
            final(self).progress.status is Failed,
            final(self).progress.total == old(self).progress.total,
            final(self).progress.position == old(self).progress.position,
            final(self).sent == old(self).sent,
            final(self).host == old(self).host,
            final(self).ttl == old(self).ttl,
    {
        self.progress.status = Status::Failed;
    }
}

/// A worker that finished has handed on at least one batch, possibly empty.
pub proof fn lemma_finished_worker_sent_a_batch(w: ScrollWorker)
    requires
        w.wf(),
        w.progress.status is Finished,
    ensures
        w.sent >= 1,
{
}

} // verus!
