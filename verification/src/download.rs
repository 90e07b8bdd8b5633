//! The download writer, as a decision machine: the caller streams
//! chunk events in and performs the returned file actions; the machine
//! guarantees that the final path is renamed onto only when every
//! chunk arrived.

use vstd::prelude::*;

verus! {

/// One observed event of the chunked write loop.
pub enum ChunkEvent {
    /// A chunk of the given length was read and written.
    Chunk(usize),
    /// A read or a write failed.
    Failure,
}

/// True iff some event of the trace is a failure.
pub open spec fn events_failed(events: Seq<ChunkEvent>) -> bool {
    exists|i: int| 0 <= i < events.len() && ((#[trigger] events[i]) matches ChunkEvent::Failure)
}

/// The bytes written by the chunk events of the trace.
pub open spec fn events_bytes(events: Seq<ChunkEvent>) -> nat
    decreases events.len(),
{
    if events.len() == 0 {
        0
    } else {
        events_bytes(events.drop_last()) + match events.last() {
            ChunkEvent::Chunk(n) => n as nat,
            ChunkEvent::Failure => 0nat,
        }
    }
}

/// The state of one download's write loop.
pub struct DownloadWriter {
    bytes: usize,
    failed: bool,
    events: Ghost<Seq<ChunkEvent>>,
}

/// What to do with the temp file when the write loop is over.
pub enum FinishAction {
    /// Rename the temp file onto the final path; the argument is the
    /// byte count of the download.
    Publish(usize),
    /// Delete the temp file; the final path is left untouched.
    Discard,
}

impl DownloadWriter {
    /// The events observed so far.
    pub closed spec fn events_view(&self) -> Seq<ChunkEvent> {
        self.events@
    }

    /// The writer's fields follow its trace.
    pub closed spec fn wf(&self) -> bool {
        self.failed == events_failed(self.events@) && self.bytes == events_bytes(self.events@)
    }

    /// Whether a failure was observed.
    pub closed spec fn spec_failed(&self) -> bool {
        self.failed
    }

    /// The bytes written so far.
    pub closed spec fn spec_bytes(&self) -> nat {
        self.bytes as nat
    }

    /// Starts the write loop for one download.
    pub fn begin_download() -> (w: DownloadWriter)
        ensures
            w.wf(),
            w.events_view() == Seq::<ChunkEvent>::empty(),
    {
        DownloadWriter { bytes: 0, failed: false, events: Ghost(Seq::empty()) }
    }

    /// Records one chunk read and written.
    pub fn on_chunk(&mut self, len: usize)
        requires
            old(self).wf(),
            old(self).spec_bytes() + len <= usize::MAX,
        ensures
            final(self).wf(),
            final(self).events_view() == old(self).events_view().push(ChunkEvent::Chunk(len)),
            final(self).spec_failed() == old(self).spec_failed(),
            final(self).spec_bytes() == old(self).spec_bytes() + len,
    {
        proof {
            let ev = self.events@.push(ChunkEvent::Chunk(len));
            assert(ev.drop_last() =~= self.events@);
            assert(events_failed(ev) == events_failed(self.events@)) by {
                if events_failed(self.events@) {
                    let j = choose|j: int|
                        0 <= j < self.events@.len() && ((#[trigger] self.events@[j])
                            matches ChunkEvent::Failure);
                    assert(ev[j] matches ChunkEvent::Failure);
                }
                if events_failed(ev) {
                    let j = choose|j: int|
                        0 <= j < ev.len() && ((#[trigger] ev[j]) matches ChunkEvent::Failure);
                    assert(j < self.events@.len());
                    assert(self.events@[j] matches ChunkEvent::Failure);
                }
            }
        }
        self.bytes = self.bytes + len;
        proof {
            self.events@ = self.events@.push(ChunkEvent::Chunk(len));
        }
    }

    /// Records a failed chunk read or write.
    pub fn on_failure(&mut self)
        requires
            old(self).wf(),
        ensures
            final(self).wf(),
            final(self).events_view() == old(self).events_view().push(ChunkEvent::Failure),
            final(self).spec_failed(),
            final(self).spec_bytes() == old(self).spec_bytes(),
    {
        proof {
            let ev = self.events@.push(ChunkEvent::Failure);
            assert(ev.drop_last() =~= self.events@);
            assert(ev[ev.len() - 1] matches ChunkEvent::Failure);
            assert(events_failed(ev));
        }
        self.failed = true;
        proof {
            self.events@ = self.events@.push(ChunkEvent::Failure);
        }
    }

    /// Ends the write loop: the temp file is renamed onto the final
    /// path iff no failure was observed, else it is deleted.
    pub fn finish(&self) -> (r: FinishAction)
        requires
            self.wf(),
        ensures
            match r {
                FinishAction::Publish(b) => !events_failed(self.events_view()) && b == events_bytes(
                    self.events_view(),
                ),
                FinishAction::Discard => events_failed(self.events_view()),
            },
    {
        if self.failed {
            FinishAction::Discard
        } else {
            FinishAction::Publish(self.bytes)
        }
    }
}

/// Law (atomic write): a write loop that saw a failure anywhere never
/// publishes. With `finish`, which discards exactly when the trace
/// holds a failure, the final path is renamed onto only after every
/// chunk arrived: it holds either the complete prior download or the
/// complete new one, never a partial file.
pub proof fn lemma_failed_write_never_publishes(events: Seq<ChunkEvent>, i: int)
    requires
        0 <= i < events.len(),
        events[i] matches ChunkEvent::Failure,
    ensures
        events_failed(events),
{
}

/// The sibling temp path for a download: the target path with a fixed
/// suffix, so that the stream never collides with a previously
/// completed download of the same name.
pub fn temp_file_path(path: &str) -> (r: String)
    ensures
        r@ == path@ + ".mirrorurl"@,
{
    path.to_owned().concat(".mirrorurl")
}

} // verus!
