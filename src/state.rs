use vstd::prelude::*;
use crate::error::{ProxyError, UpstreamField};
use crate::height::reported_height;
use crate::text::text_eq;

verus! {

/// The one piece of mutable state that every request handler shares.
///
/// `pending_anchor_block` and `pending_seed` form one unit of pending work:
/// both are present or both are absent, which the type invariant `wf` keeps
/// for every value at every instant. A new template replaces the pending work;
/// a submission consumes it.
pub struct MiningState<B> {
    /// Anchor tip height seen on the latest template fetch or height query.
    last_known_height: Option<u64>,
    /// Anchor height at which a block was last submitted successfully.
    last_submitted_height: Option<u64>,
    pending_anchor_block: Option<B>,
    pending_seed: Option<String>,
}

/// What the submission coordinator asks the caller to do next.
pub enum SubmitStep<B> {
    /// The request carried no block blob: reply with an invalid-params error.
    InvalidParams,
    /// Attach the miner's blob, with the seed, to the anchor block and submit it.
    Submit(Submission<B>),
}

/// A unit of pending work taken out for one submission, with the miner's blob.
pub struct Submission<B> {
    pub anchor_block: B,
    pub seed: String,
    pub miner_blob: String,
}

/// Whether the upstream node reported `status` "OK" for a submission.
pub open spec fn upstream_accepted(status: Option<&str>) -> bool {
    status.is_some() && status.unwrap()@ == "OK"@
}

/// Whether the upstream node's submission status is "OK".
pub fn status_is_ok(status: Option<&str>) -> (r: bool)
    ensures
        r == upstream_accepted(status),
{
    match status {
        Some(s) => text_eq(s, "OK"),
        None => false,
    }
}

impl<B> MiningState<B> {
    /// The two pending fields are paired.
    #[verifier::type_invariant]
    pub closed spec fn wf(&self) -> bool {
        self.pending_anchor_block.is_some() == self.pending_seed.is_some()
    }

    /// The anchor tip height last observed.
    pub closed spec fn known_height(&self) -> Option<u64> {
        self.last_known_height
    }

    /// The anchor height of the last successful submission.
    pub closed spec fn submitted_height(&self) -> Option<u64> {
        self.last_submitted_height
    }

    /// The pending work, as one value.
    pub closed spec fn pending_work(&self) -> Option<(B, Seq<char>)> {
        if self.pending_anchor_block.is_some() && self.pending_seed.is_some() {
            Some((self.pending_anchor_block.unwrap(), self.pending_seed.unwrap()@))
        } else {
            None
        }
    }

    /// An empty state, as at start-up.
    pub fn new() -> (r: Self)
        ensures
            r.wf(),
            r.known_height().is_none(),
            r.submitted_height().is_none(),
            r.pending_work().is_none(),
    {
        MiningState {
            last_known_height: None,
            last_submitted_height: None,
            pending_anchor_block: None,
            pending_seed: None,
        }
    }

    /// The anchor tip height last observed.
    pub fn last_known_height(&self) -> (r: Option<u64>)
        ensures
            r == self.known_height(),
    {
        self.last_known_height
    }

    /// The anchor height of the last successful submission.
    pub fn last_submitted_height(&self) -> (r: Option<u64>)
        ensures
            r == self.submitted_height(),
    {
        self.last_submitted_height
    }

    /// Whether a unit of pending work is held.
    pub fn has_pending_work(&self) -> (r: bool)
        ensures
            r == self.pending_work().is_some(),
    {
        proof {
            use_type_invariant(&*self);
        }
        self.pending_anchor_block.is_some()
    }

    /// Removes the pending work and hands it out: it is single-use.
    fn take_pending_work(&mut self) -> (r: Option<(B, String)>)
        ensures
            final(self).wf(),
            final(self).pending_work().is_none(),
            match r {
                Some(w) => old(self).pending_work() == Some((w.0, w.1@)),
                None => old(self).pending_work().is_none(),
            },
            final(self).known_height() == old(self).known_height(),
            final(self).submitted_height() == old(self).submitted_height(),
    {
        proof {
            use_type_invariant(&*self);
        }
        let mut prev = MiningState {
            last_known_height: self.last_known_height,
            last_submitted_height: self.last_submitted_height,
            pending_anchor_block: None,
            pending_seed: None,
        };
        core::mem::swap(self, &mut prev);
        proof {
            use_type_invariant(&prev);
        }
        let MiningState { pending_anchor_block, pending_seed, .. } = prev;
        match (pending_anchor_block, pending_seed) {
            (Some(b), Some(s)) => Some((b, s)),
            _ => None,
        }
    }

    /// The state after a template reply: the tip height is recorded and the
    /// work replaces any earlier pending work (see `template_reply_effect`;
    /// the fields are private, so the body stays closed).
    pub closed spec fn with_template(self, tip_height: u64, anchor_block: B, seed: String) -> Self {
        MiningState {
            last_known_height: Some(tip_height),
            last_submitted_height: self.last_submitted_height,
            pending_anchor_block: Some(anchor_block),
            pending_seed: Some(seed),
        }
    }

    /// Rewrites the height of a get-height reply and records the anchor tip.
    pub fn intercept_height(&mut self, upstream_height: u64, tip_height: u64) -> (r: u64)
        ensures
            final(self).wf(),
            r == reported_height(
                old(self).known_height(),
                old(self).submitted_height(),
                tip_height,
                upstream_height,
            ),
            final(self).known_height() == Some(tip_height),
            final(self).submitted_height() == old(self).submitted_height(),
            final(self).pending_work() == old(self).pending_work(),
    {
        proof {
            use_type_invariant(&*self);
        }
        let mut reported = upstream_height;
        if let Some(known) = self.last_known_height {
            if tip_height != known {
                reported = known;
            } else if let Some(submitted) = self.last_submitted_height {
                if submitted >= known {
                    reported = known;
                }
            }
        }
        self.last_known_height = Some(tip_height);
        reported
    }

    /// Takes a new block template: with the upstream seed hash present, the
    /// anchor block and seed become the pending work, replacing any earlier
    /// one, and the anchor tip height is recorded. Without a seed hash the
    /// reply is malformed and the state is left as it was.
    pub fn accept_template(&mut self, tip_height: u64, anchor_block: B, seed_hash: Option<String>) -> (r:
        Result<(), ProxyError>)
        ensures
            final(self).wf(),
            match seed_hash {
                Some(seed) => r is Ok && *final(self) == old(self).with_template(tip_height, anchor_block, seed)
                    && final(self).pending_work() == Some((anchor_block, seed@)) && final(self).known_height() == Some(
                    tip_height,
                ) && final(self).submitted_height() == old(self).submitted_height(),
                None => r == Err::<(), ProxyError>(ProxyError::MalformedUpstreamResponse(UpstreamField::SeedHash))
                    && *final(self) == *old(self),
            },
    {
        proof {
            use_type_invariant(&*self);
        }
        match seed_hash {
            Some(seed) => {
                *self = MiningState {
                    last_known_height: Some(tip_height),
                    last_submitted_height: self.last_submitted_height,
                    pending_anchor_block: Some(anchor_block),
                    pending_seed: Some(seed),
                };
                Ok(())
            },
            None => Err(ProxyError::MalformedUpstreamResponse(UpstreamField::SeedHash)),
        }
    }

    /// First half of a submission. Pending work is single-use: whatever the
    /// outcome, none is left afterwards.
    ///
    /// In order: a status other than "OK" from the upstream node is a
    /// rejection, and the anchor node is not to be contacted; a missing block
    /// blob asks for an invalid-params reply; without pending work there is
    /// nothing to submit; else the pending work is handed out with the blob.
    pub fn begin_submission(&mut self, upstream_status: Option<&str>, miner_blob: Option<String>) -> (r:
        Result<SubmitStep<B>, ProxyError>)
        ensures
            final(self).wf(),
            final(self).pending_work().is_none(),
            final(self).known_height() == old(self).known_height(),
            final(self).submitted_height() == old(self).submitted_height(),
            !upstream_accepted(upstream_status) ==> r == Err::<SubmitStep<B>, ProxyError>(
                ProxyError::UpstreamRejected,
            ),
            upstream_accepted(upstream_status) && miner_blob.is_none() ==> r matches Ok(SubmitStep::InvalidParams),
            upstream_accepted(upstream_status) && miner_blob.is_some() && old(self).pending_work().is_none()
                ==> r == Err::<SubmitStep<B>, ProxyError>(ProxyError::NoPendingWork),
            upstream_accepted(upstream_status) && miner_blob.is_some() && old(self).pending_work().is_some()
                ==> (r matches Ok(SubmitStep::Submit(sub)) && old(self).pending_work() == Some(
                (sub.anchor_block, sub.seed@),
            ) && sub.miner_blob@ == miner_blob.unwrap()@),
    {
        proof {
            use_type_invariant(&*self);
        }
        let work = self.take_pending_work();
        if !status_is_ok(upstream_status) {
            return Err(ProxyError::UpstreamRejected);
        }
        match miner_blob {
            None => Ok(SubmitStep::InvalidParams),
            Some(blob) => match work {
                None => Err(ProxyError::NoPendingWork),
                Some((anchor_block, seed)) => Ok(SubmitStep::Submit(Submission { anchor_block, seed, miner_blob: blob })),
            },
        }
    }

    /// Second half of a submission: when the anchor node accepted the block,
    /// the known height becomes the last submitted height.
    pub fn finish_submission(&mut self, anchor_accepted: bool)
        ensures
            final(self).wf(),
            final(self).submitted_height() == if anchor_accepted {
                old(self).known_height()
            } else {
                old(self).submitted_height()
            },
            final(self).known_height() == old(self).known_height(),
            final(self).pending_work() == old(self).pending_work(),
    {
        proof {
            use_type_invariant(&*self);
        }
        if anchor_accepted {
            self.last_submitted_height = self.last_known_height;
        }
    }
}

/// What a template reply does to the state, in the terms callers see: the
/// anchor block and seed become the pending work, the tip height becomes the
/// known height, and the submitted height stays.
pub proof fn template_reply_effect<B>(s: MiningState<B>, tip_height: u64, anchor_block: B, seed: String)
    ensures
        s.with_template(tip_height, anchor_block, seed).wf(),
        s.with_template(tip_height, anchor_block, seed).pending_work() == Some((anchor_block, seed@)),
        s.with_template(tip_height, anchor_block, seed).known_height() == Some(tip_height),
        s.with_template(tip_height, anchor_block, seed).submitted_height() == s.submitted_height(),
{
}

/// The state after a run of template replies, each a tip height, an anchor
/// block and the upstream seed hash, if the upstream reply held one.
pub open spec fn after_templates<B>(s: MiningState<B>, replies: Seq<(u64, B, Option<String>)>) -> MiningState<B>
    decreases replies.len(),
{
    if replies.len() == 0 {
        s
    } else {
        let prev = after_templates(s, replies.drop_last());
        let last = replies.last();
        match last.2 {
            Some(seed) => prev.with_template(last.0, last.1, seed),
            None => prev,
        }
    }
}

/// However many template replies arrive, the state holds either no pending
/// work or exactly one paired unit of it; a reply with a seed hash makes its
/// own anchor block and seed the pending work.
pub proof fn template_replies_keep_work_paired<B>(s: MiningState<B>, replies: Seq<(u64, B, Option<String>)>)
    requires
        s.wf(),
    ensures
        after_templates(s, replies).wf(),
        replies.len() > 0 && replies.last().2.is_some() ==> after_templates(s, replies).pending_work()
            == Some((replies.last().1, replies.last().2.unwrap()@)),
    decreases replies.len(),
{
    if replies.len() > 0 {
        template_replies_keep_work_paired(s, replies.drop_last());
    }
}

} // verus!
