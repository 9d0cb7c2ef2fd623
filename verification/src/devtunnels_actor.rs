//! UI-facing record of a Dev Tunnel: no token-bearing fields.

use vstd::prelude::*;
use vstd::string::*;

verus! {

/// UI-facing view of a tunnel record.
#[derive(Debug)]
pub struct TunnelView {
    pub tunnel_id: String,
    pub display_name: String,
    pub host: String,
    /// Seconds since the tunnel was last updated, clamped to `>= 0`; `None`
    /// when the service did not report it.
    pub last_seen_secs_ago: Option<u64>,
}

impl Clone for TunnelView {
    fn clone(&self) -> (r: Self)
        ensures
            r == *self,
    {
        TunnelView {
            tunnel_id: self.tunnel_id.clone(),
            display_name: self.display_name.clone(),
            host: self.host.clone(),
            last_seen_secs_ago: self.last_seen_secs_ago,
        }
    }
}

/// Age reported for a tunnel whose last update was `age_secs` ago: negative
/// ages (clock skew) read as zero.
pub open spec fn clamped_age(age_secs: Option<i64>) -> Option<u64> {
    match age_secs {
        Some(a) => Some(if a < 0 { 0u64 } else { a as u64 }),
        None => None,
    }
}

impl TunnelView {
    /// Builds the view of a tunnel record from its parts: the host is the
    /// first endpoint's host id (empty when the record has no endpoint), and
    /// the age is clamped at zero.
    pub fn from_record_parts(
        tunnel_id: String,
        display_name: String,
        endpoint_hosts: &Vec<String>,
        age_secs: Option<i64>,
    ) -> (v: Self)
        ensures
            v.tunnel_id == tunnel_id,
            v.display_name == display_name,
            v.host@ == (if endpoint_hosts@.len() > 0 { endpoint_hosts@[0]@ } else { Seq::<char>::empty() }),
            v.last_seen_secs_ago == clamped_age(age_secs),
    {
        let host = if endpoint_hosts.len() > 0 {
            endpoint_hosts[0].clone()
        } else {
            String::new()
        };
        let last_seen_secs_ago = match age_secs {
            Some(a) => Some(if a < 0 { 0u64 } else { a as u64 }),
            None => None,
        };
        TunnelView { tunnel_id, display_name, host, last_seen_secs_ago }
    }
}

/// Reason given when a picked tunnel is gone from a fresh listing.
pub const TUNNEL_NOT_FOUND_REASON: &'static str = "tunnel not found (renamed or deleted)";

/// Where a picker load (listing the user's tunnels) is.
#[derive(Debug, Clone, Copy, PartialEq, Eq, Structural)]
pub enum LoadStage {
    Start,
    /// Reading the stored Microsoft token; `refreshed` once it was renewed.
    ReadingToken { refreshed: bool },
    /// Listing tunnels with the token.
    Listing { refreshed: bool },
    /// Renewing the token after the service refused it.
    Refreshing,
    Finished,
}

/// What the outside work of a load reported.
#[derive(Debug, Clone, PartialEq, Eq)]
pub enum LoadEvent {
    Begin,
    TokenMissing,
    TokenFound,
    Listed,
    ListUnauthorized,
    ListFailed(String),
    Refreshed,
    RefreshFailed,
}

/// What the load must do next.
#[derive(Debug, Clone, PartialEq, Eq)]
pub enum LoadAction {
    ReadToken,
    ListTunnels,
    RefreshToken,
    ReportLoaded,
    ReportAuthRequired,
    ReportFailed(String),
    Nothing,
}

/// The load protocol: read the token (none means sign-in is needed), list
/// the tunnels; when the service answers "unauthorized", renew the token once
/// and try again; a second refusal, or a failed renewal, asks for sign-in;
/// any other error is reported as a load failure. Events that do not fit
/// the stage are ignored.
pub open spec fn load_step_spec(stage: LoadStage, event: LoadEvent) -> (LoadStage, LoadAction) {
    match (stage, event) {
        (LoadStage::Start, LoadEvent::Begin) => (LoadStage::ReadingToken { refreshed: false }, LoadAction::ReadToken),
        (LoadStage::ReadingToken { refreshed: _ }, LoadEvent::TokenMissing) => (LoadStage::Finished, LoadAction::ReportAuthRequired),
        (LoadStage::ReadingToken { refreshed }, LoadEvent::TokenFound) => (LoadStage::Listing { refreshed }, LoadAction::ListTunnels),
        (LoadStage::Listing { refreshed: _ }, LoadEvent::Listed) => (LoadStage::Finished, LoadAction::ReportLoaded),
        (LoadStage::Listing { refreshed: _ }, LoadEvent::ListFailed(msg)) => (LoadStage::Finished, LoadAction::ReportFailed(msg)),
        (LoadStage::Listing { refreshed }, LoadEvent::ListUnauthorized) => if refreshed {
            (LoadStage::Finished, LoadAction::ReportAuthRequired)
        } else {
            (LoadStage::Refreshing, LoadAction::RefreshToken)
        },
        (LoadStage::Refreshing, LoadEvent::Refreshed) => (LoadStage::ReadingToken { refreshed: true }, LoadAction::ReadToken),
        (LoadStage::Refreshing, LoadEvent::RefreshFailed) => (LoadStage::Finished, LoadAction::ReportAuthRequired),
        (st, _) => (st, LoadAction::Nothing),
    }
}

/// The next stage and action of a picker load for `event`.
pub fn load_step(stage: LoadStage, event: LoadEvent) -> (r: (LoadStage, LoadAction))
    ensures
        r == load_step_spec(stage, event),
{
    match (stage, event) {
        (LoadStage::Start, LoadEvent::Begin) => (LoadStage::ReadingToken { refreshed: false }, LoadAction::ReadToken),
        (LoadStage::ReadingToken { refreshed: _ }, LoadEvent::TokenMissing) => (LoadStage::Finished, LoadAction::ReportAuthRequired),
        (LoadStage::ReadingToken { refreshed }, LoadEvent::TokenFound) => (LoadStage::Listing { refreshed }, LoadAction::ListTunnels),
        (LoadStage::Listing { refreshed: _ }, LoadEvent::Listed) => (LoadStage::Finished, LoadAction::ReportLoaded),
        (LoadStage::Listing { refreshed: _ }, LoadEvent::ListFailed(msg)) => (LoadStage::Finished, LoadAction::ReportFailed(msg)),
        (LoadStage::Listing { refreshed }, LoadEvent::ListUnauthorized) => if refreshed {
            (LoadStage::Finished, LoadAction::ReportAuthRequired)
        } else {
            (LoadStage::Refreshing, LoadAction::RefreshToken)
        },
        (LoadStage::Refreshing, LoadEvent::Refreshed) => (LoadStage::ReadingToken { refreshed: true }, LoadAction::ReadToken),
        (LoadStage::Refreshing, LoadEvent::RefreshFailed) => (LoadStage::Finished, LoadAction::ReportAuthRequired),
        (st, _) => (st, LoadAction::Nothing),
    }
}

/// A load has renewed its token already (or is over).
pub open spec fn past_refresh(stage: LoadStage) -> bool {
    match stage {
        LoadStage::ReadingToken { refreshed } => refreshed,
        LoadStage::Listing { refreshed } => refreshed,
        LoadStage::Finished => true,
        _ => false,
    }
}

/// The token is renewed at most once per load: a renewal is only asked for
/// from a first listing, and once a load is past its renewal it never asks
/// again and stays past it.
pub proof fn lemma_token_refreshed_at_most_once(stage: LoadStage, event: LoadEvent)
    ensures
        load_step_spec(stage, event).1 == LoadAction::RefreshToken ==> stage == (LoadStage::Listing { refreshed: false }),
        stage == LoadStage::Refreshing ==> past_refresh(load_step_spec(stage, event).0)
            || load_step_spec(stage, event).0 == LoadStage::Refreshing,
        past_refresh(stage) ==> past_refresh(load_step_spec(stage, event).0)
            && load_step_spec(stage, event).1 != LoadAction::RefreshToken,
{
}

/// Every report ends the load, and a finished load does nothing more.
pub proof fn lemma_reports_finish_the_load(stage: LoadStage, event: LoadEvent)
    ensures
        ({
            let a = load_step_spec(stage, event).1;
            a == LoadAction::ReportLoaded || a == LoadAction::ReportAuthRequired || a is ReportFailed
        }) ==> load_step_spec(stage, event).0 == LoadStage::Finished,
        stage == LoadStage::Finished ==> load_step_spec(stage, event) == (LoadStage::Finished, LoadAction::Nothing),
{
}

/// Where opening a pane on a picked tunnel is.
#[derive(Debug, Clone, Copy, PartialEq, Eq, Structural)]
pub enum ConnectStage {
    Start,
    /// Looking for a stored sign-in.
    Authorizing,
    /// Listing tunnels to find the picked one again.
    Listing,
    /// Opening the relay connection to the tunnel's agent.
    Connecting,
    /// Opening a tab on the connection.
    OpeningTab,
    Finished,
}

/// What the outside work of a connect reported.
#[derive(Debug, Clone, PartialEq, Eq)]
pub enum ConnectEvent {
    Begin,
    NoAuth,
    AuthReady,
    /// The listing came back; `found` when the picked tunnel is in it.
    Listed { found: bool },
    ListFailed(String),
    Connected,
    ConnectFailed(String),
    TabOpened,
    TabFailed(String),
}

/// What the connect must do next.
#[derive(Debug, Clone, PartialEq, Eq)]
pub enum ConnectAction {
    ReportStarted,
    ListTunnels,
    Connect,
    OpenTab,
    ReportAuthRequired,
    /// Report failure with `TUNNEL_NOT_FOUND_REASON`.
    ReportNotFound,
    ReportFailed(String),
    ReportPaneReady,
    Nothing,
}

/// The connect protocol: report the start, then find a sign-in (none asks
/// for one), list the tunnels and find the picked one (gone: not found),
/// connect to it and open a tab on the connection; any failure is reported
/// with its message. Events that do not fit the stage are ignored.
pub open spec fn connect_step_spec(stage: ConnectStage, event: ConnectEvent) -> (ConnectStage, ConnectAction) {
    match (stage, event) {
        (ConnectStage::Start, ConnectEvent::Begin) => (ConnectStage::Authorizing, ConnectAction::ReportStarted),
        (ConnectStage::Authorizing, ConnectEvent::NoAuth) => (ConnectStage::Finished, ConnectAction::ReportAuthRequired),
        (ConnectStage::Authorizing, ConnectEvent::AuthReady) => (ConnectStage::Listing, ConnectAction::ListTunnels),
        (ConnectStage::Listing, ConnectEvent::Listed { found }) => if found {
            (ConnectStage::Connecting, ConnectAction::Connect)
        } else {
            (ConnectStage::Finished, ConnectAction::ReportNotFound)
        },
        (ConnectStage::Listing, ConnectEvent::ListFailed(msg)) => (ConnectStage::Finished, ConnectAction::ReportFailed(msg)),
        (ConnectStage::Connecting, ConnectEvent::Connected) => (ConnectStage::OpeningTab, ConnectAction::OpenTab),
        (ConnectStage::Connecting, ConnectEvent::ConnectFailed(msg)) => (ConnectStage::Finished, ConnectAction::ReportFailed(msg)),
        (ConnectStage::OpeningTab, ConnectEvent::TabOpened) => (ConnectStage::Finished, ConnectAction::ReportPaneReady),
        (ConnectStage::OpeningTab, ConnectEvent::TabFailed(msg)) => (ConnectStage::Finished, ConnectAction::ReportFailed(msg)),
        (st, _) => (st, ConnectAction::Nothing),
    }
}

/// The next stage and action of a connect for `event`.
pub fn connect_step(stage: ConnectStage, event: ConnectEvent) -> (r: (ConnectStage, ConnectAction))
    ensures
        r == connect_step_spec(stage, event),
{
    match (stage, event) {
        (ConnectStage::Start, ConnectEvent::Begin) => (ConnectStage::Authorizing, ConnectAction::ReportStarted),
        (ConnectStage::Authorizing, ConnectEvent::NoAuth) => (ConnectStage::Finished, ConnectAction::ReportAuthRequired),
        (ConnectStage::Authorizing, ConnectEvent::AuthReady) => (ConnectStage::Listing, ConnectAction::ListTunnels),
        (ConnectStage::Listing, ConnectEvent::Listed { found }) => if found {
            (ConnectStage::Connecting, ConnectAction::Connect)
        } else {
            (ConnectStage::Finished, ConnectAction::ReportNotFound)
        },
        (ConnectStage::Listing, ConnectEvent::ListFailed(msg)) => (ConnectStage::Finished, ConnectAction::ReportFailed(msg)),
        (ConnectStage::Connecting, ConnectEvent::Connected) => (ConnectStage::OpeningTab, ConnectAction::OpenTab),
        (ConnectStage::Connecting, ConnectEvent::ConnectFailed(msg)) => (ConnectStage::Finished, ConnectAction::ReportFailed(msg)),
        (ConnectStage::OpeningTab, ConnectEvent::TabOpened) => (ConnectStage::Finished, ConnectAction::ReportPaneReady),
        (ConnectStage::OpeningTab, ConnectEvent::TabFailed(msg)) => (ConnectStage::Finished, ConnectAction::ReportFailed(msg)),
        (st, _) => (st, ConnectAction::Nothing),
    }
}

/// A report that ends a connect: sign-in needed, failure, or the pane.
pub open spec fn is_final_report(a: ConnectAction) -> bool {
    a == ConnectAction::ReportAuthRequired || a == ConnectAction::ReportNotFound || a is ReportFailed
        || a == ConnectAction::ReportPaneReady
}

/// The stage reached and the actions taken (leaving out `Nothing`), in
/// order, after `events` from a fresh connect.
pub open spec fn connect_run(events: Seq<ConnectEvent>) -> (ConnectStage, Seq<ConnectAction>)
    decreases events.len(),
{
    if events.len() == 0 {
        (ConnectStage::Start, Seq::empty())
    } else {
        let prev = connect_run(events.drop_last());
        let r = connect_step_spec(prev.0, events.last());
        (r.0, if r.1 == ConnectAction::Nothing { prev.1 } else { prev.1.push(r.1) })
    }
}

/// How many of `actions` are final reports.
pub open spec fn final_reports(actions: Seq<ConnectAction>) -> nat
    decreases actions.len(),
{
    if actions.len() == 0 {
        0
    } else {
        final_reports(actions.drop_last()) + (if is_final_report(actions.last()) { 1nat } else { 0nat })
    }
}

/// Whatever the outside work reports, a connect first reports that it
/// started, and sends exactly one final report (sign-in needed, failure or
/// the new pane), once it is finished and never before.
pub proof fn lemma_connect_reports(events: Seq<ConnectEvent>)
    ensures
        connect_run(events).1.len() > 0 ==> connect_run(events).1[0] == ConnectAction::ReportStarted,
        connect_run(events).0 != ConnectStage::Start ==> connect_run(events).1.len() > 0,
        connect_run(events).0 == ConnectStage::Start ==> connect_run(events).1.len() == 0,
        final_reports(connect_run(events).1) == (if connect_run(events).0 == ConnectStage::Finished { 1nat } else { 0nat }),
    decreases events.len(),
{
    if events.len() > 0 {
        lemma_connect_reports(events.drop_last());
        let prev = connect_run(events.drop_last());
        let r = connect_step_spec(prev.0, events.last());
        if r.1 != ConnectAction::Nothing {
            assert(prev.1.push(r.1).drop_last() =~= prev.1);
        }
    }
}

} // verus!
