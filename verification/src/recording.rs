//! The recording log: an append-only, delta-timestamped store of raw
//! messages. Each entry carries the time elapsed since the previous entry
//! (or since the log was created), in nanoseconds, so exact playback
//! pacing can be reconstructed without absolute timestamps.

use vstd::prelude::*;

verus! {

/// A delta-encoded log of raw messages: each entry is the gap, in
/// nanoseconds, since the entry before it, and the raw bytes that
/// arrived. Entries stand in strict arrival order. The log is append-only
/// while a capture session is active and is handed off unchanged when the
/// session stops.
#[derive(Clone, Debug, PartialEq)]
pub struct Recording {
    pub recording: Vec<(u64, Vec<u8>)>,
}

impl View for Recording {
    type V = Seq<(u64, Seq<u8>)>;

    open spec fn view(&self) -> Seq<(u64, Seq<u8>)> {
        self.recording@.map_values(|e: (u64, Vec<u8>)| (e.0, e.1@))
    }
}

impl Recording {
    /// An empty log.
    pub fn new() -> (r: Self)
        ensures
            r@ == Seq::<(u64, Seq<u8>)>::empty(),
    {
        let r = Self { recording: Vec::new() };
        proof {
            assert(r@ =~= Seq::<(u64, Seq<u8>)>::empty());
        }
        r
    }

    /// A log made of the given entries, in the given order.
    pub fn from(recording: Vec<(u64, Vec<u8>)>) -> (r: Self)
        ensures
            r@ == recording@.map_values(|e: (u64, Vec<u8>)| (e.0, e.1@)),
    {
        Self { recording }
    }

    /// Append one entry: the gap since the previous entry and the raw
    /// bytes. Every earlier entry is kept, unchanged and in order.
    pub fn push(&mut self, chunk: (u64, Vec<u8>))
        ensures
            final(self)@ == old(self)@.push((chunk.0, chunk.1@)),
    {
        let ghost entry = (chunk.0, chunk.1@);
        self.recording.push(chunk);
        proof {
            assert(self@ =~= old(self)@.push(entry));
        }
    }

    /// How many entries the log holds.
    pub fn len(&self) -> (r: usize)
        ensures
            r == self@.len(),
    {
        self.recording.len()
    }
}

} // verus!
