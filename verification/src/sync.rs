//! The live-sync engine's decision core: which connectivity messages to
//! emit when the event stream opens or closes, and which resources to
//! refetch when a new content-hash triple arrives.
//!
//! The engine never performs I/O itself.  The surrounding task opens the
//! stream, feeds bytes and observed triples in, and carries the returned
//! fetch plans out; every decision between those edges is made — and
//! verified — here.

use vstd::prelude::*;

use crate::model::{ActivityEntry, Board, Config, PollHashes, Resource, VersionInfo};

verus! {

/// A message from the sync engine to the UI loop.
#[derive(Debug)]
pub enum PollMessage {
    /// Everything fetched by a full sync, sent once it succeeds.
    InitialData {
        version: VersionInfo,
        board: Board,
        config: Config,
        prompts: Vec<Resource>,
        documents: Vec<Resource>,
        activity: Vec<ActivityEntry>,
    },
    /// A new hash triple was absorbed after a round of selective refetches.
    HashesChanged(PollHashes),
    BoardUpdated(Board),
    PromptsUpdated(Vec<Resource>),
    DocumentsUpdated(Vec<Resource>),
    ActivityUpdated(Vec<ActivityEntry>),
    ConnectionLost,
    ConnectionRestored,
    Error(String),
}

/// What one meaningful hash triple asks the surrounding task to do: refetch
/// the categories whose fingerprint differs, then always refetch the
/// activity feed and announce the new triple.  No plan at all is produced
/// when nothing differs.
#[derive(Debug)]
pub struct FetchPlan {
    pub board: bool,
    pub prompts: bool,
    pub documents: bool,
    pub hashes: PollHashes,
}

/// The two triples carry the same three fingerprints.
pub open spec fn triple_same(a: PollHashes, b: PollHashes) -> bool {
    &&& a.board@ == b.board@
    &&& a.prompts@ == b.prompts@
    &&& a.documents@ == b.documents@
}

/// The plan demanded by a newly observed triple `h` given the previously
/// seen one: `None` before any triple was seen, or when nothing differs;
/// otherwise exactly the differing categories.
pub open spec fn observe_result(last: Option<PollHashes>, h: PollHashes) -> Option<FetchPlan> {
    match last {
        None => None,
        Some(prev) => {
            let cb = prev.board@ != h.board@;
            let cp = prev.prompts@ != h.prompts@;
            let cd = prev.documents@ != h.documents@;
            if cb || cp || cd {
                Some(FetchPlan { board: cb, prompts: cp, documents: cd, hashes: h })
            } else {
                None
            }
        }
    }
}

/// One observation step: the triple becomes the last-seen one and demands
/// `observe_result`'s plan.
pub open spec fn observe_step(last: Option<PollHashes>, h: PollHashes) -> (Option<PollHashes>, Option<
    FetchPlan,
>) {
    (Some(h), observe_result(last, h))
}

/// A successful stream open: the engine is connected afterwards, and a
/// restore (with full resync) is announced exactly when it was not
/// connected before.
pub open spec fn open_step(connected: bool) -> (bool, bool) {
    (true, !connected)
}

/// A stream end or a failure to open: the engine is disconnected
/// afterwards, and a loss is announced exactly when it was connected
/// before.
pub open spec fn close_step(connected: bool) -> (bool, bool) {
    (false, connected)
}

/// The sync engine's own state: connectivity as last reported, the
/// last-seen hash triple of the current stream, and the byte buffer of the
/// stream's unfinished block.
pub struct SyncEngine {
    pub connected: bool,
    pub last_hashes: Option<PollHashes>,
    pub buf: Vec<u8>,
}

impl SyncEngine {
    /// A fresh engine, created right after the first full sync was
    /// attempted; it counts as connected so that the first stream open
    /// announces nothing.
    pub fn new() -> (r: Self)
        ensures
            r.connected,
            r.last_hashes is None,
            r.buf@.len() == 0,
    {
        SyncEngine { connected: true, last_hashes: None, buf: Vec::new() }
    }

    /// The stream opened.  Returns whether the connection was just
    /// restored, in which case the caller must announce it and run a full
    /// resync.  The per-stream state (last triple, buffer) starts over.
    pub fn on_stream_open(&mut self) -> (restored: bool)
        ensures
            (final(self).connected, restored) == open_step(old(self).connected),
            final(self).last_hashes is None,
            final(self).buf@.len() == 0,
    {
        let restored = !self.connected;
        self.connected = true;
        self.last_hashes = None;
        self.buf = Vec::new();
        restored
    }

    /// The stream ended or could not be opened.  Returns whether the loss
    /// must be announced: exactly once per loss, not once per failed
    /// retry.
    pub fn on_stream_closed(&mut self) -> (lost: bool)
        ensures
            (final(self).connected, lost) == close_step(old(self).connected),
            final(self).last_hashes == old(self).last_hashes,
            final(self).buf == old(self).buf,
    {
        let lost = self.connected;
        self.connected = false;
        lost
    }

    /// A meaningful hash triple arrived.  It becomes the last-seen triple;
    /// the returned plan names exactly the categories whose fingerprint
    /// differs from the previous triple, or nothing when none does (or
    /// when this is the stream's first triple).
    pub fn observe_triple(&mut self, h: PollHashes) -> (plan: Option<FetchPlan>)
        ensures
            final(self).connected == old(self).connected,
            final(self).buf == old(self).buf,
            final(self).last_hashes == Some(h),
            plan == observe_result(old(self).last_hashes, h),
            (final(self).last_hashes, plan) == observe_step(old(self).last_hashes, h),
    {
        let plan = match &self.last_hashes {
            None => None,
            Some(prev) => {
                let cb = !(prev.board == h.board);
                let cp = !(prev.prompts == h.prompts);
                let cd = !(prev.documents == h.documents);
                if cb || cp || cd {
                    Some(FetchPlan { board: cb, prompts: cp, documents: cd, hashes: h.duplicate() })
                } else {
                    None
                }
            }
        };
        self.last_hashes = Some(h);
        plan
    }
}

/// Observing the same triple twice in a row is idempotent: once the first
/// observation is absorbed, the second demands no refetch and announces no
/// change at all.
pub proof fn lemma_identical_triple_idempotent(
    last: Option<PollHashes>,
    h1: PollHashes,
    h2: PollHashes,
)
    requires
        triple_same(h1, h2),
    ensures
        ({
            let (l1, p1) = observe_step(last, h1);
            let (l2, p2) = observe_step(l1, h2);
            p2 is None
        }),
{
}

/// Losing the stream announces exactly one loss however many reconnect
/// attempts fail, and the first successful reopen announces exactly one
/// restore (which the caller follows with a full resync).  The first open
/// of an already-connected engine announces nothing.
pub proof fn lemma_one_loss_one_restore()
    ensures
        ({
            let c0 = true;
            let (c1, restored_first) = open_step(c0);
            let (c2, lost_first) = close_step(c1);
            let (c3, lost_again) = close_step(c2);
            let (c4, restored) = open_step(c3);
            &&& !restored_first
            &&& lost_first
            &&& !lost_again
            &&& restored
            &&& c4
        }),
{
}

} // verus!
