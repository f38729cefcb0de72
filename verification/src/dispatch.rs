//! Dispatch: the decisions of the fan-out. After the route is known and
//! every fetch has finished, the failed fetches are dropped one by one, a
//! message that has neither text nor surviving attachments is withheld, and
//! everything else is sent to each endpoint of the route in order, one
//! outcome recorded per endpoint, failures included.

use vstd::prelude::*;

use crate::errors::SendOutcome;
use crate::routes::WebhookData;
use crate::types::Attachment;
use crate::types::FetchState;
use crate::types::OutboundFile;
use crate::types::UnifiedMessage;

verus! {

/// Every fetch of the list has finished, one way or the other.
pub open spec fn all_fetches_done(s: Seq<Attachment>) -> bool {
    forall|i: int| 0 <= i < s.len() ==> (#[trigger] s[i]).file_data.is_done()
}

/// The files that survive the fan-in join: one per resolved fetch, in the
/// attachment order, each carrying the attachment's filename and the
/// fetched bytes. Failed fetches contribute nothing.
pub open spec fn ready_files(s: Seq<Attachment>) -> Seq<OutboundFile>
    decreases s.len(),
{
    if s.len() == 0 {
        Seq::empty()
    } else {
        let rest = ready_files(s.drop_last());
        match s.last().file_data {
            FetchState::Resolved(b) => rest.push(
                (OutboundFile { file_name: s.last().file_name, bytes: b }),
            ),
            _ => rest,
        }
    }
}

/// Law: when every fetch failed, nothing survives the join.
pub proof fn lemma_all_failed_nothing_ready(s: Seq<Attachment>)
    requires
        forall|i: int| 0 <= i < s.len() ==> (#[trigger] s[i]).file_data is Failed,
    ensures
        ready_files(s).len() == 0,
    decreases s.len(),
{
    if s.len() > 0 {
        lemma_all_failed_nothing_ready(s.drop_last());
    }
}

/// Join the finished fetches of an assembled message: the text verbatim,
/// and the files of the resolved fetches in order. Each failed fetch is
/// dropped by itself and never aborts the rest.
pub fn collect_ready(message: UnifiedMessage) -> (r: (Option<String>, Vec<OutboundFile>))
    requires
        all_fetches_done(message.attachments@),
    ensures
        r.0 == message.message_text,
        r.1@ == ready_files(message.attachments@),
{
    broadcast use vstd::seq_lib::group_seq_properties;

    let UnifiedMessage { mut attachments, message_text } = message;
    let ghost orig = attachments@;
    let mut files: Vec<OutboundFile> = Vec::new();

    while attachments.len() > 0
        invariant
            all_fetches_done(orig),
            attachments@.len() <= orig.len(),
            attachments@ == orig.skip(orig.len() - attachments@.len()),
            files@ == ready_files(orig.take(orig.len() - attachments@.len())),
        decreases attachments@.len(),
    {
        let ghost k = orig.len() - attachments@.len();
        proof {
            broadcast use vstd::seq_lib::group_seq_properties;

            assert(0 <= k < orig.len());
            assert(attachments@[0] == orig[k as int]);
        }
        let attachment = attachments.remove(0);
        proof {
            broadcast use vstd::seq_lib::group_seq_properties;

            assert(attachments@ =~= orig.skip(k as int + 1));
            assert(orig.take(k as int + 1).drop_last() =~= orig.take(k as int));
            assert(orig.take(k as int + 1).last() == orig[k as int]);
        }
        match attachment.to_discord_attachment() {
            Ok(file) => {
                files.push(file);
            },
            Err(_) => {},
        }
    }
    proof {
        assert(orig.take(orig.len() as int) =~= orig);
    }
    (message_text, files)
}

/// Whether the joined message is worth sending at all: it still has text,
/// or at least one surviving file. An empty message is withheld and no
/// endpoint is called.
pub fn should_dispatch(message_text: &Option<String>, files: &Vec<OutboundFile>) -> (r: bool)
    ensures
        r == (message_text is Some || files@.len() > 0),
{
    message_text.is_some() || files.len() > 0
}

/// One fan-out in progress: the endpoints of the route, the one payload
/// every endpoint receives, how many endpoints have been attempted, and the
/// outcome recorded for each. The payload never changes between endpoints.
pub struct DispatchRun {
    /// The endpoints of the route, attempted in this order.
    pub webhooks: Vec<WebhookData>,
    /// Text of the payload, the same for every endpoint.
    pub message_text: Option<String>,
    /// Files of the payload, the same for every endpoint.
    pub files: Vec<OutboundFile>,
    /// How many endpoints have been attempted so far.
    pub next_index: usize,
    /// The recorded outcome of every attempt so far, in endpoint order.
    pub outcomes: Vec<SendOutcome>,
}

impl DispatchRun {
    /// One outcome is recorded per attempted endpoint, and no endpoint past
    /// the route is ever attempted.
    pub open spec fn wf(self) -> bool {
        self.next_index == self.outcomes@.len() && self.next_index <= self.webhooks@.len()
    }

    /// The endpoints not yet attempted, in order.
    pub open spec fn remaining(self) -> Seq<WebhookData> {
        self.webhooks@.skip(self.next_index as int)
    }

    /// How recording one outcome moves the fan-out along: the route and the
    /// payload stay as they are, the attempt count grows by one, and the
    /// outcome is recorded — whatever the outcome was.
    pub open spec fn step_ok(pre: DispatchRun, outcome: SendOutcome, post: DispatchRun) -> bool {
        &&& post.webhooks == pre.webhooks
        &&& post.message_text == pre.message_text
        &&& post.files == pre.files
        &&& post.next_index == pre.next_index + 1
        &&& post.outcomes@ == pre.outcomes@.push(outcome)
    }

    /// Start a fan-out: no endpoint attempted yet.
    pub fn new(
        webhooks: Vec<WebhookData>,
        message_text: Option<String>,
        files: Vec<OutboundFile>,
    ) -> (r: Self)
        ensures
            r.wf(),
            r.webhooks == webhooks,
            r.message_text == message_text,
            r.files == files,
            r.next_index == 0,
            r.outcomes@.len() == 0,
    {
        DispatchRun { webhooks, message_text, files, next_index: 0, outcomes: Vec::new() }
    }

    /// The endpoint to attempt next, or nothing when every endpoint of the
    /// route has been attempted. Every attempt carries the run's one
    /// payload.
    pub fn current_target(&self) -> (r: Option<&WebhookData>)
        ensures
            self.next_index < self.webhooks@.len() ==> (r matches Some(w) && *w
                == self.webhooks@[self.next_index as int]),
            self.next_index >= self.webhooks@.len() ==> r is None,
    {
        if self.next_index < self.webhooks.len() {
            Some(&self.webhooks[self.next_index])
        } else {
            None
        }
    }

    /// Record the outcome of the attempt on the current endpoint and move
    /// to the next one. A failure moves the fan-out along exactly as a
    /// success does: no outcome stops the remaining endpoints.
    pub fn record_outcome(&mut self, outcome: SendOutcome)
        requires
            old(self).wf(),
            old(self).next_index < old(self).webhooks@.len(),
        ensures
            Self::step_ok(*old(self), outcome, *final(self)),
            final(self).wf(),
    {
        let route_len: usize = self.webhooks.len();
        assert(self.next_index < route_len);
        self.outcomes.push(outcome);
        self.next_index = self.next_index + 1;
    }

    /// Whether every endpoint of the route has been attempted.
    pub fn is_complete(&self) -> (r: bool)
        ensures
            r == (self.next_index == self.webhooks@.len()),
    {
        self.next_index == self.webhooks.len()
    }
}

/// Law: a finished fan-out over a route of K endpoints has recorded exactly
/// K outcomes — one attempt per endpoint, whatever each outcome was.
pub proof fn lemma_fanout_attempts_all(run: DispatchRun)
    requires
        run.wf(),
        run.next_index == run.webhooks@.len(),
    ensures
        run.outcomes@.len() == run.webhooks@.len(),
{
}

/// Law: a failure on one endpoint does not short-circuit the fan-out.
/// Stepping the run with any two outcomes — one may be a failure, one a
/// success — leaves the same endpoints remaining and the same payload.
pub proof fn lemma_failure_no_short_circuit(
    pre: DispatchRun,
    o1: SendOutcome,
    o2: SendOutcome,
    p1: DispatchRun,
    p2: DispatchRun,
)
    requires
        DispatchRun::step_ok(pre, o1, p1),
        DispatchRun::step_ok(pre, o2, p2),
    ensures
        p1.next_index == p2.next_index,
        p1.remaining() == p2.remaining(),
        p1.webhooks == p2.webhooks,
        p1.message_text == p2.message_text,
        p1.files == p2.files,
{
}

/// Law: a message whose text is absent and whose every fetch failed is
/// withheld: nothing survives the join, so no endpoint is called.
pub proof fn lemma_empty_message_withheld(message: UnifiedMessage)
    requires
        message.message_text is None,
        forall|i: int|
            0 <= i < message.attachments@.len() ==> (#[trigger] message.attachments@[i]).file_data
                is Failed,
    ensures
        !(message.message_text is Some || ready_files(message.attachments@).len() > 0),
{
    lemma_all_failed_nothing_ready(message.attachments@);
}

/// Decide one dispatch, after the route is known and every fetch has
/// finished: drop the failed fetches, withhold a message left with neither
/// text nor files, and otherwise start the fan-out over the route's
/// endpoints with the one surviving payload.
pub fn prepare_dispatch(webhooks: Vec<WebhookData>, message: UnifiedMessage) -> (r: Option<
    DispatchRun,
>)
    requires
        all_fetches_done(message.attachments@),
    ensures
        r is Some <==> (message.message_text is Some || ready_files(message.attachments@).len()
            > 0),
        r matches Some(run) ==> run.wf() && run.next_index == 0 && run.outcomes@.len() == 0
            && run.webhooks == webhooks && run.message_text == message.message_text && run.files@
            == ready_files(message.attachments@),
{
    let ghost atts = message.attachments@;
    let (message_text, files) = collect_ready(message);
    if should_dispatch(&message_text, &files) {
        Some(DispatchRun::new(webhooks, message_text, files))
    } else {
        None
    }
}

} // verus!
