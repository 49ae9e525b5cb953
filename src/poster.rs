//! The poster worker: appends messages whose ids count up from zero, one per
//! attempt, whether or not the attempt succeeded.

use crate::listener::Message;
use crate::text::{decimal_text, lemma_decimal_text_injective, render_u64};
use vstd::prelude::*;

verus! {

/// The body of an append: `{stream, id, message: {id, timestamp}}`.
pub struct CreateMessageBody {
    pub stream: String,
    pub id: String,
    pub message: Message,
}

/// The private state of one poster.
pub struct Poster {
    /// The stream it appends to.
    pub stream: String,
    /// The id of its next message.
    pub version: u64,
}

/// A poster's state as mathematical values.
pub struct PosterView {
    pub stream: Seq<char>,
    pub version: nat,
}

impl View for Poster {
    type V = PosterView;

    open spec fn view(&self) -> PosterView {
        PosterView { stream: self.stream@, version: self.version as nat }
    }
}

/// The state after one append attempt.
pub open spec fn after_append(v: PosterView) -> PosterView {
    PosterView { version: v.version + 1, ..v }
}

/// The state after `k` append attempts.
pub open spec fn after_appends(v: PosterView, k: nat) -> PosterView
    decreases k,
{
    if k == 0 {
        v
    } else {
        after_append(after_appends(v, (k - 1) as nat))
    }
}

impl Poster {
    /// A poster on `stream` that has made no attempt yet.
    pub fn new(stream: String) -> (r: Poster)
        ensures
            r@.stream == stream@,
            r@.version == 0,
    {
        Poster { stream, version: 0 }
    }

    /// The body of the next append, stamped `now_ms`: the current version
    /// as both ids, and the stamp, all as decimal text.
    pub fn append_body(&self, now_ms: u64) -> (r: CreateMessageBody)
        ensures
            r.stream@ == self.stream@,
            r.id@ == decimal_text(self.version as nat),
            r.message.id@ == decimal_text(self.version as nat),
            r.message.timestamp@ == decimal_text(now_ms as nat),
    {
        CreateMessageBody {
            stream: self.stream.clone(),
            id: render_u64(self.version),
            message: Message { id: render_u64(self.version), timestamp: render_u64(now_ms) },
        }
    }

    /// Counts an append attempt, failed or not.
    pub fn advance(&mut self)
        requires
            old(self).version < u64::MAX,
        ensures
            final(self)@ == after_append(old(self)@),
    {
        self.version = self.version + 1;
    }
}

/// After `k` attempts a poster's version has grown by exactly `k`, and its
/// stream is unchanged; a fresh poster's version is then `k`.
pub proof fn lemma_version_counts_attempts(v: PosterView, k: nat)
    ensures
        after_appends(v, k).version == v.version + k,
        after_appends(v, k).stream == v.stream,
    decreases k,
{
    if k > 0 {
        lemma_version_counts_attempts(v, (k - 1) as nat);
    }
}

/// No two attempts of one poster carry the same version, nor the same id.
pub proof fn lemma_versions_never_repeat(v: PosterView, i: nat, j: nat)
    requires
        i < j,
    ensures
        after_appends(v, i).version != after_appends(v, j).version,
        decimal_text(after_appends(v, i).version) != decimal_text(after_appends(v, j).version),
{
    lemma_version_counts_attempts(v, i);
    lemma_version_counts_attempts(v, j);
    lemma_decimal_text_injective(after_appends(v, i).version, after_appends(v, j).version);
}

} // verus!
