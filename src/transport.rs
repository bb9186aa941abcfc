use vstd::prelude::*;
use crate::error::{ErrorClass, ObservabilityError};
use crate::text::{same_text, starts_with, starts_with_text};

verus! {

/// How many times a submission is retried after the collector rejected the
/// credential.
pub const MAX_RETRIES: u32 = 2;

/// What came back from one HTTP submission.
pub struct HttpReply {
    /// The request was made and a response read; when false, `body` holds
    /// the reason it could not be made.
    pub completed: bool,
    /// The response's status code, as text (such as "200").
    pub status: String,
    pub body: String,
}

/// A status code that starts with "20" means the record was accepted.
pub open spec fn is_success_status(s: Seq<char>) -> bool {
    starts_with(s, "20"@)
}

/// A status code of exactly "401" or "403" means the credential was refused.
pub open spec fn is_auth_status(s: Seq<char>) -> bool {
    s == "401"@ || s == "403"@
}

pub open spec fn accepted(r: HttpReply) -> bool {
    r.completed && is_success_status(r.status@)
}

pub open spec fn auth_refused(r: HttpReply) -> bool {
    r.completed && is_auth_status(r.status@)
}

/// The message of the error that ends a submission on reply `r`.
pub open spec fn failure_text(operation: Seq<char>, r: HttpReply) -> Seq<char> {
    if r.completed {
        operation + " API call failed with status "@ + r.status@ + ": "@ + r.body@
    } else {
        operation + " request could not be sent: "@ + r.body@
    }
}

pub fn is_success_status_text(s: &str) -> (r: bool)
    ensures
        r == is_success_status(s@),
{
    starts_with_text(s, "20")
}

pub fn is_auth_status_text(s: &str) -> (r: bool)
    ensures
        r == is_auth_status(s@),
{
    same_text(s, "401") || same_text(s, "403")
}

/// Position `i` holds the last line break of `s`.
pub open spec fn is_last_newline(s: Seq<char>, i: int) -> bool {
    0 <= i < s.len() && s[i] == '\n' && forall|j: int| i < j < s.len() ==> s[j] != '\n'
}

/// The reply read from a transfer tool run that printed the response body,
/// a line break and the status code. A run that failed made no request; its
/// error text becomes the body.
pub fn reply_from_output(succeeded: bool, stdout: &str, stderr: &str) -> (r: HttpReply)
    ensures
        r.completed == succeeded,
        !succeeded ==> r.body@ == stderr@ && r.status@.len() == 0,
        succeeded ==> forall|i: int|
            is_last_newline(stdout@, i) ==> r.body@ == stdout@.subrange(0, i) && r.status@
                == stdout@.subrange(i + 1, stdout@.len() as int),
        succeeded && (forall|j: int| 0 <= j < stdout@.len() ==> stdout@[j] != '\n') ==> r.status@
            == stdout@ && r.body@.len() == 0,
{
    if !succeeded {
        return HttpReply {
            completed: false,
            status: String::new(),
            body: String::from_str(stderr),
        };
    }
    let n = stdout.unicode_len();
    let mut k: usize = n;
    while k > 0
        invariant
            succeeded,
            n == stdout@.len(),
            k <= n,
            forall|j: int| k <= j < n ==> stdout@[j] != '\n',
        decreases k,
    {
        if stdout.get_char(k - 1) == '\n' {
            let i = k - 1;
            let body = String::from_str(stdout.substring_char(0, i));
            let status = String::from_str(stdout.substring_char(k, n));
            proof {
                assert forall|i2: int| is_last_newline(stdout@, i2) implies i2 == i by {
                    if i2 < i {
                        assert(stdout@[i as int] == '\n');
                    }
                }
            }
            return HttpReply { completed: true, status, body };
        }
        k = k - 1;
    }
    proof {
        assert forall|i2: int| !is_last_newline(stdout@, i2) by {}
        assert(stdout@.subrange(0, n as int) =~= stdout@);
    }
    HttpReply { completed: true, status: String::from_str(stdout), body: String::new() }
}

/// What the submitter does after a reply.
pub enum SubmitStep {
    /// The record was accepted: stop with success.
    Delivered,
    /// The credential was refused: refresh it and submit again.
    RefreshAndRetry,
    /// Stop with this error.
    Failed(ObservabilityError),
}

/// The retry state of one submission.
pub struct SubmitAttempt {
    /// Retries made so far.
    pub retries: u32,
}

impl SubmitAttempt {
    pub open spec fn wf(&self) -> bool {
        self.retries <= MAX_RETRIES
    }

    pub fn new() -> (r: SubmitAttempt)
        ensures
            r.wf(),
            r.retries == 0,
    {
        SubmitAttempt { retries: 0 }
    }

    /// Decides what follows `reply`: success on a 2xx status; on 401 or 403,
    /// while retries are left, one more retry after a credential refresh;
    /// otherwise an `ApiError` that names the operation, the status and the
    /// body.
    pub fn on_reply(&mut self, operation: &str, reply: &HttpReply) -> (r: SubmitStep)
        requires
            old(self).wf(),
        ensures
            final(self).wf(),
            accepted(*reply) ==> r is Delivered && final(self).retries == old(self).retries,
            !accepted(*reply) && auth_refused(*reply) && old(self).retries < MAX_RETRIES ==> r is RefreshAndRetry
                && final(self).retries == old(self).retries + 1,
            !accepted(*reply) && !(auth_refused(*reply) && old(self).retries < MAX_RETRIES) ==> (
            match r {
                SubmitStep::Failed(e) => e@ == (ErrorClass::Api, failure_text(operation@, *reply)),
                _ => false,
            }) && final(self).retries == old(self).retries,
    {
        if reply.completed && is_success_status_text(reply.status.as_str()) {
            return SubmitStep::Delivered;
        }
        if reply.completed && is_auth_status_text(reply.status.as_str()) && self.retries < MAX_RETRIES {
            self.retries = self.retries + 1;
            return SubmitStep::RefreshAndRetry;
        }
        let message = if reply.completed {
            String::from_str(operation).concat(" API call failed with status ").concat(
                reply.status.as_str(),
            ).concat(": ").concat(reply.body.as_str())
        } else {
            String::from_str(operation).concat(" request could not be sent: ").concat(
                reply.body.as_str(),
            )
        };
        SubmitStep::Failed(ObservabilityError::ApiError(message))
    }
}

/// The end of a submission that starts with `retries` retries made and then
/// reads `replies` in turn: whether the record was delivered, and how many
/// credential refreshes were made on the way.
pub open spec fn submit_run(retries: nat, replies: Seq<HttpReply>) -> (bool, nat)
    decreases replies.len(),
{
    if replies.len() == 0 {
        (false, 0)
    } else if accepted(replies[0]) {
        (true, 0)
    } else if auth_refused(replies[0]) && retries < MAX_RETRIES {
        let rest = submit_run(retries + 1, replies.drop_first());
        (rest.0, rest.1 + 1)
    } else {
        (false, 0)
    }
}

/// A submission never refreshes the credential more than `MAX_RETRIES`
/// times in all.
pub proof fn lemma_refreshes_bounded(retries: nat, replies: Seq<HttpReply>)
    requires
        retries <= MAX_RETRIES,
    ensures
        submit_run(retries, replies).1 + retries <= MAX_RETRIES,
    decreases replies.len(),
{
    if replies.len() > 0 && !accepted(replies[0]) && auth_refused(replies[0]) && retries
        < MAX_RETRIES {
        lemma_refreshes_bounded(retries + 1, replies.drop_first());
    }
}

/// A submission refused once with 401 and accepted after one refresh
/// succeeds, having refreshed the credential exactly once.
pub proof fn lemma_one_refresh_then_delivered(replies: Seq<HttpReply>)
    requires
        replies.len() >= 2,
        replies[0].completed,
        replies[0].status@ == "401"@,
        accepted(replies[1]),
    ensures
        submit_run(0, replies) == (true, 1nat),
{
    reveal_strlit("401");
    reveal_strlit("20");
    assert(!is_success_status(replies[0].status@)) by {
        assert(replies[0].status@.subrange(0, 2) != "20"@) by {
            assert(replies[0].status@.subrange(0, 2)[0] == '4');
        }
    }
    assert(replies.drop_first()[0] == replies[1]);
    assert(submit_run(1, replies.drop_first()) == (true, 0nat));
    assert(auth_refused(replies[0]));
}

/// A submission whose credential is refused on every attempt fails after
/// exactly `MAX_RETRIES` refreshes.
pub proof fn lemma_persistent_refusal_fails(replies: Seq<HttpReply>)
    requires
        replies.len() >= MAX_RETRIES + 1,
        forall|i: int| 0 <= i <= MAX_RETRIES ==> auth_refused(#[trigger] replies[i]),
    ensures
        submit_run(0, replies) == (false, MAX_RETRIES as nat),
{
    reveal_strlit("401");
    reveal_strlit("403");
    reveal_strlit("20");
    assert forall|i: int| 0 <= i <= MAX_RETRIES implies !accepted(#[trigger] replies[i]) by {
        assert(auth_refused(replies[i]));
        let s = replies[i].status@;
        assert(s.subrange(0, 2)[0] == '4');
    }
    let r1 = replies.drop_first();
    let r2 = r1.drop_first();
    assert(r1[0] == replies[1]);
    assert(r2[0] == replies[2]);
    assert(!accepted(replies[0]));
    assert(!accepted(replies[1]));
    assert(!accepted(replies[2]));
    assert(submit_run(2, r2) == (false, 0nat));
    assert(submit_run(1, r1) == (false, 1nat));
}

} // verus!
