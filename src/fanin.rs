use vstd::prelude::*;
use vstd::string::*;

use crate::protocol::texts;
use crate::worker::ScrollWorker;

verus! {

/// The text the writer emits for `docs`: each document followed by a line
/// terminator.
pub open spec fn lines(docs: Seq<Seq<char>>) -> Seq<char>
    decreases docs.len(),
{
    if docs.len() == 0 {
        Seq::empty()
    } else {
        lines(docs.drop_last()) + docs.last() + "\n"@
    }
}

/// All documents of `batches`, batch after batch.
pub open spec fn all_docs(batches: Seq<Seq<Seq<char>>>) -> Seq<Seq<char>>
    decreases batches.len(),
{
    if batches.len() == 0 {
        Seq::empty()
    } else {
        all_docs(batches.drop_last()) + batches.last()
    }
}

/// The number of documents in `batches`.
pub open spec fn total_docs(batches: Seq<Seq<Seq<char>>>) -> nat
    decreases batches.len(),
{
    if batches.len() == 0 {
        0
    } else {
        total_docs(batches.drop_last()) + batches.last().len()
    }
}

/// What the writer emits for `batches`, in the order they arrived.
pub open spec fn output(batches: Seq<Seq<Seq<char>>>) -> Seq<char>
    decreases batches.len(),
{
    if batches.len() == 0 {
        Seq::empty()
    } else {
        output(batches.drop_last()) + lines(batches.last())
    }
}

/// The lines of a batch: each document followed by `\n`.
pub fn render_batch(batch: &Vec<String>) -> (r: String)
    ensures
        r@ == lines(texts(batch@)),
{
    let mut r = String::new();
    let mut i: usize = 0;
    while i < batch.len()
        invariant
            i <= batch@.len(),
            r@ == lines(texts(batch@.subrange(0, i as int))),
        decreases batch@.len() - i,
    {
        proof {
            let s = texts(batch@.subrange(0, i as int + 1));
            assert(s.drop_last() =~= texts(batch@.subrange(0, i as int)));
        }
        r.append(batch[i].as_str());
        r.append("\n");
        i = i + 1;
    }
    assert(batch@.subrange(0, batch@.len() as int) =~= batch@);
    r
}

proof fn lemma_lines_concat(a: Seq<Seq<char>>, b: Seq<Seq<char>>)
    ensures
        lines(a + b) == lines(a) + lines(b),
    decreases b.len(),
{
    if b.len() == 0 {
        assert(a + b =~= a);
        assert(lines(b) =~= Seq::<char>::empty());
        assert(lines(a) + lines(b) =~= lines(a));
    } else {
        lemma_lines_concat(a, b.drop_last());
        assert((a + b).drop_last() =~= a + b.drop_last());
        assert((a + b).last() == b.last());
        assert(lines(a + b) =~= lines(a) + lines(b));
    }
}

/// The writer emits every document it receives, as one line each, in
/// arrival order, and so as many documents as the batches hold altogether.
pub proof fn lemma_output_holds_every_document(batches: Seq<Seq<Seq<char>>>)
    ensures
        output(batches) == lines(all_docs(batches)),
        all_docs(batches).len() == total_docs(batches),
    decreases batches.len(),
{
    if batches.len() > 0 {
        lemma_output_holds_every_document(batches.drop_last());
        lemma_lines_concat(all_docs(batches.drop_last()), batches.last());
    }
}

/// Counts down the producers of the fan-in channel; the channel may close
/// only once every producer has finished.
pub struct Countdown {
    pub producers: u64,
    pub finished: u64,
}

impl Countdown {
    pub open spec fn wf(&self) -> bool {
        self.finished <= self.producers
    }

    pub open spec fn is_closed(&self) -> bool {
        self.finished == self.producers
    }

    pub fn new(producers: u64) -> (r: Countdown)
        ensures
            r.wf(),
            r.producers == producers,
            r.finished == 0,
    {
        Countdown { producers, finished: 0 }
    }

    /// One producer has finished.
    pub fn finish_one(&mut self)
        requires
            old(self).wf(),
            old(self).finished < old(self).producers,
        ensures
            final(self).wf(),
            final(self).producers == old(self).producers,
            final(self).finished == old(self).finished + 1,
    {
        self.finished = self.finished + 1;
    }

    /// Whether the channel may close: every producer has finished.
    pub fn closed(&self) -> (r: bool)
        requires
            self.wf(),
        ensures
            r == self.is_closed(),
    {
        self.finished == self.producers
    }
}

/// The countdown reads as closed when, and only when, it has counted every
/// producer as finished; while it has counted fewer it reads as open.
pub proof fn lemma_close_waits_for_every_producer(c: Countdown)
    requires
        c.wf(),
    ensures
        c.is_closed() <==> c.finished == c.producers,
        c.finished < c.producers ==> !c.is_closed(),
{
}

/// How many of `workers` have finished their slice.
pub open spec fn finished_count(workers: Seq<ScrollWorker>) -> nat
    decreases workers.len(),
{
    if workers.len() == 0 {
        0
    } else {
        finished_count(workers.drop_last()) + if workers.last().progress.status is Finished { 1nat } else { 0nat }
    }
}

proof fn lemma_all_finished(workers: Seq<ScrollWorker>)
    ensures
        finished_count(workers) <= workers.len(),
        finished_count(workers) == workers.len() ==> forall|i: int|
            0 <= i < workers.len() ==> (#[trigger] workers[i]).progress.status is Finished,
    decreases workers.len(),
{
    if workers.len() > 0 {
        let init = workers.drop_last();
        lemma_all_finished(init);
        if finished_count(workers) == workers.len() {
            assert forall|i: int| 0 <= i < workers.len() implies (#[trigger] workers[i]).progress.status is Finished by {
                if i < workers.len() - 1 {
                    assert(init[i] == workers[i]);
                }
            }
        }
    }
}

/// The channel does not close before every worker has handed on at least
/// one batch: when the countdown over `workers` counts only workers that
/// finished, its closing means that each of them sent a batch.
pub proof fn lemma_close_follows_a_batch_from_each(workers: Seq<ScrollWorker>, c: Countdown)
    requires
        c.wf(),
        c.producers == workers.len(),
        c.finished <= finished_count(workers),
        forall|i: int| 0 <= i < workers.len() ==> (#[trigger] workers[i]).wf(),
    ensures
        c.is_closed() ==> forall|i: int| 0 <= i < workers.len() ==> (#[trigger] workers[i]).sent >= 1,
{
    lemma_all_finished(workers);
}

} // verus!
