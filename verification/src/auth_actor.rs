//! GitHub device-flow sign-in: the decisions of the sign-in task, and the
//! cancellation flag it shares with the modal's Cancel button.
//!
//! The task alternates outside work (create the OAuth client, request a
//! device code, poll for the token, save it to the Keychain, fetch the
//! login) with decisions. `sign_in_step` makes each decision: from the stage
//! and the outcome of the work just done, it gives the next stage, the next
//! work and the event to send to the UI. Token material never enters it.

use vstd::prelude::*;
use vstd::string::*;
use std::sync::Arc;
use std::sync::atomic::AtomicBool;

verus! {

/// Where a sign-in stands.
#[derive(Debug, Clone, Copy, PartialEq, Eq, Structural)]
pub enum SignInStage {
    /// Creating the OAuth client.
    Starting,
    RequestingCode,
    /// The code is shown; waiting for the user to approve it.
    Polling,
    SavingTokens,
    FetchingLogin,
    /// A final event was sent; nothing more happens.
    Finished,
}

/// Outside work the task performs next.
#[derive(Debug, Clone, Copy, PartialEq, Eq, Structural)]
pub enum SignInWork {
    RequestDeviceCode,
    PollForToken,
    /// Save the access token (and the refresh token, if any, whose failure
    /// is ignored) to the Keychain.
    SaveTokens,
    FetchLogin,
}

/// What the work just done came to.
pub enum SignInOutcome {
    ClientReady,
    ClientFailed { error: String },
    CodeIssued { user_code: String, verification_uri: String, expires_in_secs: u64, interval_secs: u64 },
    CodeFailed { error: String },
    /// A poll tick found the cancellation flag set.
    CancelSeen,
    /// The token arrived; the task keeps it.
    TokenIssued,
    PollExpired,
    PollCancelled,
    PollFailed { error: String },
    AccessSaved,
    AccessSaveFailed { error: String },
    LoginFetched { login: String },
    LoginFailed,
}

/// An event for the UI.
pub enum SignInEvent {
    DisplayCode { user_code: String, verification_uri: String, expires_in_secs: u64, interval_secs: u64 },
    Failed { reason: String },
    Completed { user_login: String },
}

/// An event as plain values.
pub enum SignInEventView {
    DisplayCode { user_code: Seq<char>, verification_uri: Seq<char>, expires_in_secs: u64, interval_secs: u64 },
    Failed { reason: Seq<char> },
    Completed { user_login: Seq<char> },
}

impl View for SignInEvent {
    type V = SignInEventView;

    open spec fn view(&self) -> SignInEventView {
        match self {
            SignInEvent::DisplayCode { user_code, verification_uri, expires_in_secs, interval_secs } =>
                SignInEventView::DisplayCode {
                    user_code: user_code@,
                    verification_uri: verification_uri@,
                    expires_in_secs: *expires_in_secs,
                    interval_secs: *interval_secs,
                },
            SignInEvent::Failed { reason } => SignInEventView::Failed { reason: reason@ },
            SignInEvent::Completed { user_login } => SignInEventView::Completed { user_login: user_login@ },
        }
    }
}

/// A final event.
pub open spec fn failed(reason: Seq<char>) -> (SignInStage, Option<SignInWork>, Option<SignInEventView>) {
    (SignInStage::Finished, None, Some(SignInEventView::Failed { reason }))
}

/// The decision for `outcome` at `stage`: the next stage, the next work and
/// the event to send. An outcome that does not belong to the stage changes
/// nothing.
///
/// Starting: a client requests the device code; a failure ends with
/// `init: {error}`. RequestingCode: a code is shown and polled for; a failure
/// ends with `device_code: {error}`. Polling: a seen cancel or a cancelled
/// poll ends with `cancelled`, expiry with `expired`, another failure with
/// `oauth: {error}`; a token is saved. SavingTokens: a failed save ends with
/// `keychain: {error}`; a saved token fetches the login. FetchingLogin: ends
/// with the login, or `unknown` when it could not be fetched.
pub open spec fn sign_in_step_spec(stage: SignInStage, outcome: SignInOutcome)
    -> (SignInStage, Option<SignInWork>, Option<SignInEventView>)
{
    let unchanged = (stage, None, None);
    match stage {
        SignInStage::Starting => match outcome {
            SignInOutcome::ClientReady => (SignInStage::RequestingCode, Some(SignInWork::RequestDeviceCode), None),
            SignInOutcome::ClientFailed { error } => failed("init: "@ + error@),
            _ => unchanged,
        },
        SignInStage::RequestingCode => match outcome {
            SignInOutcome::CodeIssued { user_code, verification_uri, expires_in_secs, interval_secs } => (
                SignInStage::Polling,
                Some(SignInWork::PollForToken),
                Some(SignInEventView::DisplayCode {
                    user_code: user_code@,
                    verification_uri: verification_uri@,
                    expires_in_secs,
                    interval_secs,
                }),
            ),
            SignInOutcome::CodeFailed { error } => failed("device_code: "@ + error@),
            _ => unchanged,
        },
        SignInStage::Polling => match outcome {
            SignInOutcome::CancelSeen => failed("cancelled"@),
            SignInOutcome::PollCancelled => failed("cancelled"@),
            SignInOutcome::PollExpired => failed("expired"@),
            SignInOutcome::PollFailed { error } => failed("oauth: "@ + error@),
            SignInOutcome::TokenIssued => (SignInStage::SavingTokens, Some(SignInWork::SaveTokens), None),
            _ => unchanged,
        },
        SignInStage::SavingTokens => match outcome {
            SignInOutcome::AccessSaved => (SignInStage::FetchingLogin, Some(SignInWork::FetchLogin), None),
            SignInOutcome::AccessSaveFailed { error } => failed("keychain: "@ + error@),
            _ => unchanged,
        },
        SignInStage::FetchingLogin => match outcome {
            SignInOutcome::LoginFetched { login } =>
                (SignInStage::Finished, None, Some(SignInEventView::Completed { user_login: login@ })),
            SignInOutcome::LoginFailed =>
                (SignInStage::Finished, None, Some(SignInEventView::Completed { user_login: "unknown"@ })),
            _ => unchanged,
        },
        SignInStage::Finished => unchanged,
    }
}

/// An optional event as plain values.
pub open spec fn event_view(e: Option<SignInEvent>) -> Option<SignInEventView> {
    match e {
        Some(ev) => Some(ev@),
        None => None,
    }
}

fn prefixed(prefix: &str, error: &str) -> (s: String)
    ensures
        s@ == prefix@ + error@,
{
    let mut s = String::from_str(prefix);
    s.append(error);
    s
}

fn fail(reason: String) -> (r: (SignInStage, Option<SignInWork>, Option<SignInEvent>))
    ensures
        r.0 == SignInStage::Finished,
        r.1 is None,
        event_view(r.2) == Some(SignInEventView::Failed { reason: reason@ }),
{
    (SignInStage::Finished, None, Some(SignInEvent::Failed { reason }))
}

/// Decides the next stage, work and UI event after `outcome` at `stage`.
pub fn sign_in_step(stage: SignInStage, outcome: SignInOutcome)
    -> (r: (SignInStage, Option<SignInWork>, Option<SignInEvent>))
    ensures
        (r.0, r.1, event_view(r.2)) == sign_in_step_spec(stage, outcome),
{
    proof {
        reveal_strlit("cancelled");
        reveal_strlit("expired");
        reveal_strlit("unknown");
    }
    match stage {
        SignInStage::Starting => match outcome {
            SignInOutcome::ClientReady => (SignInStage::RequestingCode, Some(SignInWork::RequestDeviceCode), None),
            SignInOutcome::ClientFailed { error } => fail(prefixed("init: ", error.as_str())),
            _ => (stage, None, None),
        },
        SignInStage::RequestingCode => match outcome {
            SignInOutcome::CodeIssued { user_code, verification_uri, expires_in_secs, interval_secs } => (
                SignInStage::Polling,
                Some(SignInWork::PollForToken),
                Some(SignInEvent::DisplayCode { user_code, verification_uri, expires_in_secs, interval_secs }),
            ),
            SignInOutcome::CodeFailed { error } => fail(prefixed("device_code: ", error.as_str())),
            _ => (stage, None, None),
        },
        SignInStage::Polling => match outcome {
            SignInOutcome::CancelSeen => fail(String::from_str("cancelled")),
            SignInOutcome::PollCancelled => fail(String::from_str("cancelled")),
            SignInOutcome::PollExpired => fail(String::from_str("expired")),
            SignInOutcome::PollFailed { error } => fail(prefixed("oauth: ", error.as_str())),
            SignInOutcome::TokenIssued => (SignInStage::SavingTokens, Some(SignInWork::SaveTokens), None),
            _ => (stage, None, None),
        },
        SignInStage::SavingTokens => match outcome {
            SignInOutcome::AccessSaved => (SignInStage::FetchingLogin, Some(SignInWork::FetchLogin), None),
            SignInOutcome::AccessSaveFailed { error } => fail(prefixed("keychain: ", error.as_str())),
            _ => (stage, None, None),
        },
        SignInStage::FetchingLogin => match outcome {
            SignInOutcome::LoginFetched { login } =>
                (SignInStage::Finished, None, Some(SignInEvent::Completed { user_login: login })),
            SignInOutcome::LoginFailed =>
                (SignInStage::Finished, None, Some(SignInEvent::Completed { user_login: String::from_str("unknown") })),
            _ => (stage, None, None),
        },
        SignInStage::Finished => (stage, None, None),
    }
}

/// The stage reached and the events sent, in order, after `outcomes` from
/// a fresh sign-in.
pub open spec fn sign_in_run(outcomes: Seq<SignInOutcome>) -> (SignInStage, Seq<SignInEventView>)
    decreases outcomes.len(),
{
    if outcomes.len() == 0 {
        (SignInStage::Starting, Seq::empty())
    } else {
        let prev = sign_in_run(outcomes.drop_last());
        let r = sign_in_step_spec(prev.0, outcomes.last());
        (r.0, match r.2 {
            Some(e) => prev.1.push(e),
            None => prev.1,
        })
    }
}

/// How many of `evs` satisfy `p`.
pub open spec fn count_where(evs: Seq<SignInEventView>, p: spec_fn(SignInEventView) -> bool) -> nat
    decreases evs.len(),
{
    if evs.len() == 0 {
        0
    } else {
        count_where(evs.drop_last(), p) + (if p(evs.last()) { 1nat } else { 0nat })
    }
}

pub open spec fn is_final_event(e: SignInEventView) -> bool {
    e is Failed || e is Completed
}

pub open spec fn is_code_event(e: SignInEventView) -> bool {
    e is DisplayCode
}

pub open spec fn is_completed_event(e: SignInEventView) -> bool {
    e is Completed
}

/// Some step among the first `n` outcomes saved the access token: it was
/// taken in stage `SavingTokens` and its outcome was `AccessSaved`.
pub open spec fn access_saved_within(outcomes: Seq<SignInOutcome>, n: int) -> bool {
    exists|k: int| 0 <= k < n && #[trigger] sign_in_run(outcomes.take(k)).0 == SignInStage::SavingTokens
        && outcomes[k] is AccessSaved
}

/// Whatever the outside work comes to, a sign-in sends exactly one final
/// event (a failure or a completion), and only once it is finished; it shows
/// at most one device code, none before the code is requested; and it
/// reports completion only after the access token was saved.
pub proof fn lemma_sign_in_run(outcomes: Seq<SignInOutcome>)
    ensures
        count_where(sign_in_run(outcomes).1, |e: SignInEventView| is_final_event(e))
            == (if sign_in_run(outcomes).0 == SignInStage::Finished { 1nat } else { 0nat }),
        count_where(sign_in_run(outcomes).1, |e: SignInEventView| is_code_event(e)) <= 1,
        (sign_in_run(outcomes).0 == SignInStage::Starting || sign_in_run(outcomes).0 == SignInStage::RequestingCode)
            ==> count_where(sign_in_run(outcomes).1, |e: SignInEventView| is_code_event(e)) == 0,
        count_where(sign_in_run(outcomes).1, |e: SignInEventView| is_completed_event(e)) > 0
            ==> access_saved_within(outcomes, outcomes.len() as int),
        sign_in_run(outcomes).0 == SignInStage::FetchingLogin ==> access_saved_within(outcomes, outcomes.len() as int),
    decreases outcomes.len(),
{
    let fin = |e: SignInEventView| is_final_event(e);
    let code = |e: SignInEventView| is_code_event(e);
    let done = |e: SignInEventView| is_completed_event(e);
    if outcomes.len() > 0 {
        let n = outcomes.len() - 1;
        let prev_o = outcomes.drop_last();
        lemma_sign_in_run(prev_o);
        let prev = sign_in_run(prev_o);
        let r = sign_in_step_spec(prev.0, outcomes.last());
        let cur = sign_in_run(outcomes);
        if let Some(e) = r.2 {
            assert(cur.1.drop_last() =~= prev.1);
        }
        assert(outcomes.take(n) =~= prev_o);
        if prev.0 == SignInStage::SavingTokens && outcomes.last() is AccessSaved {
            assert(sign_in_run(outcomes.take(n)).0 == SignInStage::SavingTokens);
            assert(access_saved_within(outcomes, outcomes.len() as int));
        } else if access_saved_within(prev_o, n) {
            let k = choose|k: int| 0 <= k < n && #[trigger] sign_in_run(prev_o.take(k)).0 == SignInStage::SavingTokens
                && prev_o[k] is AccessSaved;
            assert(prev_o.take(k) =~= outcomes.take(k));
            assert(sign_in_run(outcomes.take(k)).0 == SignInStage::SavingTokens);
            assert(access_saved_within(outcomes, outcomes.len() as int));
        }
    }
}

/// A cheaply clonable, thread-shared "cancelled" flag.
#[derive(Clone)]
pub struct AuthCancellation {
    flag: Arc<AtomicBool>,
}

impl AuthCancellation {
    /// A fresh, un-cancelled flag.
    pub fn new() -> (c: Self) {
        AuthCancellation { flag: Arc::new(AtomicBool::new(false)) }
    }

    /// Sets the flag, for this handle and every clone of it.
    pub fn cancel(&self) {
        self.flag.store(true, std::sync::atomic::Ordering::SeqCst);
    }

    /// Reads the flag. Any clone may set it from another thread at any
    /// time, so what a read returns is not tied to this handle's own calls.
    pub fn is_cancelled(&self) -> bool {
        self.flag.load(std::sync::atomic::Ordering::SeqCst)
    }
}

} // verus!
