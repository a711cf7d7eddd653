//! The authenticated request-dispatch layer.
//!
//! A request is handled as a small session: `start` gates the route behind
//! the bearer-token check, validates and coerces path parameters, and either
//! finishes with a reply or asks for one remote call together with the state
//! to resume from; `resume` consumes the outcome of a performed call and
//! either finishes or asks for the next call. The caller that owns the
//! transport performs the calls; every decision in between is made here.

use vstd::prelude::*;

use crate::replies::{
    balance_body, block_json_body, block_missing_body, block_not_found_body, gas_price_body,
    greeting_body, invalid_address_body, invalid_block_number_body, invalid_tx_hash_body,
    latest_block_missing_body, mismatch_body, network_info_body, nonce_body, remote_error_body,
    synced_body, syncing_body, timeout_body, token_error_body, transport_error_body, tx_count_body,
    tx_json_body, tx_not_found_body, unauthorized_body, HttpReply, HttpReplyView,
};
use crate::replies;
use crate::params::{all_digits, check_address, check_tx_hash, dec_val, parse_u64_dec,
    valid_address, valid_tx_hash};
use crate::rpc::{RpcCall, RpcCallView, RpcError, RpcEvent, RpcEventView, SyncOutcome};
use crate::token::{issue, jwt_of, verify, verify_model, AuthError};
use vstd::string::*;

verus! {

/// One endpoint of the HTTP surface, with its raw path parameter where it
/// has one. Parameters are coerced and validated by `start`.
#[derive(Debug, Clone)]
pub enum Route {
    Index,
    Login,
    GasPrice,
    LatestBlock,
    BlockByNumber(String),
    TransactionDetails(String),
    Balance(String),
    NetworkInfo,
    SyncStatus,
    TransactionCountInBlock(String),
    AccountNonce(String),
}

pub ghost enum RouteView {
    Index,
    Login,
    GasPrice,
    LatestBlock,
    BlockByNumber(Seq<char>),
    TransactionDetails(Seq<char>),
    Balance(Seq<char>),
    NetworkInfo,
    SyncStatus,
    TransactionCountInBlock(Seq<char>),
    AccountNonce(Seq<char>),
}

impl View for Route {
    type V = RouteView;

    open spec fn view(&self) -> RouteView {
        match self {
            Route::Index => RouteView::Index,
            Route::Login => RouteView::Login,
            Route::GasPrice => RouteView::GasPrice,
            Route::LatestBlock => RouteView::LatestBlock,
            Route::BlockByNumber(s) => RouteView::BlockByNumber(s@),
            Route::TransactionDetails(s) => RouteView::TransactionDetails(s@),
            Route::Balance(s) => RouteView::Balance(s@),
            Route::NetworkInfo => RouteView::NetworkInfo,
            Route::SyncStatus => RouteView::SyncStatus,
            Route::TransactionCountInBlock(s) => RouteView::TransactionCountInBlock(s@),
            Route::AccountNonce(s) => RouteView::AccountNonce(s@),
        }
    }
}

/// The claims and lifetime that the login route places in the tokens it
/// issues; configuration, not per-request state.
#[derive(Debug, Clone)]
pub struct LoginConfig {
    pub subject: String,
    pub organization: String,
    /// Seconds from issuance to expiry.
    pub ttl: u64,
}

impl View for LoginConfig {
    type V = (Seq<char>, Seq<char>, u64);

    open spec fn view(&self) -> Self::V {
        (self.subject@, self.organization@, self.ttl)
    }
}

/// Where a session stands while one remote call is in flight: enough to
/// finish the request once the call's outcome arrives.
#[derive(Debug, Clone)]
pub enum Pending {
    GasPrice,
    /// Awaiting the current block number; the block itself is fetched next.
    LatestNumber,
    /// Awaiting the block fetched for the latest-block request.
    LatestBlock,
    BlockByNumber(u64),
    TransactionDetails,
    /// Holds the (validated) address, quoted back in the reply body.
    Balance(String),
    /// Awaiting the network version; the peer count is fetched next.
    NetworkVersion,
    /// Holds the network version; awaiting the peer count.
    NetworkPeers(String),
    SyncStatus,
    TransactionCountInBlock(u64),
    AccountNonce,
}

pub ghost enum PendingView {
    GasPrice,
    LatestNumber,
    LatestBlock,
    BlockByNumber(u64),
    TransactionDetails,
    Balance(Seq<char>),
    NetworkVersion,
    NetworkPeers(Seq<char>),
    SyncStatus,
    TransactionCountInBlock(u64),
    AccountNonce,
}

impl View for Pending {
    type V = PendingView;

    open spec fn view(&self) -> PendingView {
        match self {
            Pending::GasPrice => PendingView::GasPrice,
            Pending::LatestNumber => PendingView::LatestNumber,
            Pending::LatestBlock => PendingView::LatestBlock,
            Pending::BlockByNumber(n) => PendingView::BlockByNumber(*n),
            Pending::TransactionDetails => PendingView::TransactionDetails,
            Pending::Balance(a) => PendingView::Balance(a@),
            Pending::NetworkVersion => PendingView::NetworkVersion,
            Pending::NetworkPeers(v) => PendingView::NetworkPeers(v@),
            Pending::SyncStatus => PendingView::SyncStatus,
            Pending::TransactionCountInBlock(n) => PendingView::TransactionCountInBlock(*n),
            Pending::AccountNonce => PendingView::AccountNonce,
        }
    }
}

/// What the dispatcher decided: the request is finished, or one remote call
/// is needed and the session resumes from the paired state.
#[derive(Debug)]
pub enum Step {
    Respond(HttpReply),
    Call(RpcCall, Pending),
}

pub ghost enum StepView {
    Respond(HttpReplyView),
    Call(RpcCallView, PendingView),
}

impl View for Step {
    type V = StepView;

    open spec fn view(&self) -> StepView {
        match self {
            Step::Respond(r) => StepView::Respond(r@),
            Step::Call(c, p) => StepView::Call(c@, p@),
        }
    }
}

pub open spec fn respond(status: u16, body: Seq<char>) -> StepView {
    StepView::Respond(HttpReplyView { status, body })
}

/// The uniform translation of a remote failure into a reply.
pub open spec fn rpc_fail(e: RpcError) -> StepView {
    match e {
        RpcError::Unreachable => respond(500, transport_error_body()),
        RpcError::Remote => respond(500, remote_error_body()),
        RpcError::Timeout => respond(504, timeout_body()),
    }
}

/// Every route is protected except the health probe and login.
pub open spec fn protected(r: RouteView) -> bool {
    !(r is Index || r is Login)
}

pub open spec fn header_view(h: Option<&str>) -> Option<Seq<char>> {
    match h {
        Option::Some(s) => Option::Some(s@),
        Option::None => Option::None,
    }
}

/// The bearer scheme prefix, character by character.
pub open spec fn has_bearer(h: Seq<char>) -> bool {
    &&& h.len() >= 7
    &&& h[0] == 'B'
    &&& h[1] == 'e'
    &&& h[2] == 'a'
    &&& h[3] == 'r'
    &&& h[4] == 'e'
    &&& h[5] == 'r'
    &&& h[6] == ' '
}

/// The credential that follows the bearer prefix.
pub open spec fn bearer_of(h: Seq<char>) -> Seq<char> {
    h.subrange(7, h.len() as int)
}

/// Whether a request carrying this header passes the token check at `now`:
/// the header must be present, use the bearer scheme, and carry a token that
/// verifies under `secret`.
pub open spec fn auth_model(header: Option<Seq<char>>, now: u64, secret: Seq<char>) -> bool {
    match header {
        Option::None => false,
        Option::Some(h) => has_bearer(h) && verify_model(bearer_of(h), now, secret) is Ok,
    }
}

/// Splits the bearer credential out of an `Authorization` header value.
fn bearer_token(h: &str) -> (r: Option<&str>)
    ensures
        r is Some <==> has_bearer(h@),
        r matches Some(t) ==> t@ == bearer_of(h@),
{
    let n = h.unicode_len();
    if n < 7 {
        return None;
    }
    if h.get_char(0) != 'B' || h.get_char(1) != 'e' || h.get_char(2) != 'a' || h.get_char(3)
        != 'r' || h.get_char(4) != 'e' || h.get_char(5) != 'r' || h.get_char(6) != ' ' {
        return None;
    }
    Some(h.substring_char(7, n))
}

/// The middleware decision: does this header authorize the request at `now`?
/// Fails closed on a missing or non-bearer header, before any token check.
pub fn authorize(header: Option<&str>, now: u64, secret: &str) -> (ok: bool)
    ensures
        ok == auth_model(header_view(header), now, secret@),
{
    match header {
        None => false,
        Some(h) => match bearer_token(h) {
            None => false,
            Some(t) => match verify(t, now, secret) {
                Ok(_) => true,
                Err(_) => false,
            },
        },
    }
}

/// What an authorized request to each route does first: a validation
/// failure finishes with 400 before any call; otherwise the route's first
/// remote call is emitted. (The two unprotected routes never reach this.)
pub open spec fn route_action(route: RouteView) -> StepView {
    match route {
        RouteView::Index => respond(500, mismatch_body()),
        RouteView::Login => respond(500, mismatch_body()),
        RouteView::GasPrice => StepView::Call(RpcCallView::GasPrice, PendingView::GasPrice),
        RouteView::LatestBlock => StepView::Call(
            RpcCallView::BlockNumber,
            PendingView::LatestNumber,
        ),
        RouteView::BlockByNumber(s) => if all_digits(s) && dec_val(s) <= u64::MAX {
            StepView::Call(
                RpcCallView::BlockByNumber(dec_val(s) as u64),
                PendingView::BlockByNumber(dec_val(s) as u64),
            )
        } else {
            respond(400, invalid_block_number_body())
        },
        RouteView::TransactionDetails(h) => if valid_tx_hash(h) {
            StepView::Call(RpcCallView::TransactionByHash(h), PendingView::TransactionDetails)
        } else {
            respond(400, invalid_tx_hash_body())
        },
        RouteView::Balance(a) => if valid_address(a) {
            StepView::Call(RpcCallView::Balance(a), PendingView::Balance(a))
        } else {
            respond(400, invalid_address_body())
        },
        RouteView::NetworkInfo => StepView::Call(
            RpcCallView::NetVersion,
            PendingView::NetworkVersion,
        ),
        RouteView::SyncStatus => StepView::Call(RpcCallView::Syncing, PendingView::SyncStatus),
        RouteView::TransactionCountInBlock(s) => if all_digits(s) && dec_val(s) <= u64::MAX {
            StepView::Call(
                RpcCallView::BlockByNumber(dec_val(s) as u64),
                PendingView::TransactionCountInBlock(dec_val(s) as u64),
            )
        } else {
            respond(400, invalid_block_number_body())
        },
        RouteView::AccountNonce(a) => if valid_address(a) {
            StepView::Call(RpcCallView::TransactionCount(a), PendingView::AccountNonce)
        } else {
            respond(400, invalid_address_body())
        },
    }
}

fn protected_step(route: Route) -> (s: Step)
    ensures
        s@ == route_action(route@),
{
    match route {
        Route::Index => Step::Respond(replies::mismatch_reply()),
        Route::Login => Step::Respond(replies::mismatch_reply()),
        Route::GasPrice => Step::Call(RpcCall::GasPrice, Pending::GasPrice),
        Route::LatestBlock => Step::Call(RpcCall::BlockNumber, Pending::LatestNumber),
        Route::BlockByNumber(s) => match parse_u64_dec(s.as_str()) {
            Some(n) => Step::Call(RpcCall::BlockByNumber(n), Pending::BlockByNumber(n)),
            None => Step::Respond(replies::invalid_block_number_reply()),
        },
        Route::TransactionDetails(h) => if check_tx_hash(h.as_str()) {
            Step::Call(RpcCall::TransactionByHash(h), Pending::TransactionDetails)
        } else {
            Step::Respond(replies::invalid_tx_hash_reply())
        },
        Route::Balance(a) => if check_address(a.as_str()) {
            let pending = Pending::Balance(a.clone());
            Step::Call(RpcCall::Balance(a), pending)
        } else {
            Step::Respond(replies::invalid_address_reply())
        },
        Route::NetworkInfo => Step::Call(RpcCall::NetVersion, Pending::NetworkVersion),
        Route::SyncStatus => Step::Call(RpcCall::Syncing, Pending::SyncStatus),
        Route::TransactionCountInBlock(s) => match parse_u64_dec(s.as_str()) {
            Some(n) => Step::Call(RpcCall::BlockByNumber(n), Pending::TransactionCountInBlock(n)),
            None => Step::Respond(replies::invalid_block_number_reply()),
        },
        Route::AccountNonce(a) => if check_address(a.as_str()) {
            Step::Call(RpcCall::TransactionCount(a), Pending::AccountNonce)
        } else {
            Step::Respond(replies::invalid_address_reply())
        },
    }
}

/// Begins a request: gates protected routes behind the token check, then
/// validates parameters and decides the first action.
///
/// Laws stated below, in order: an absent or failing credential on a
/// protected route finishes with the uniform 401 before anything else; an
/// authorized request acts exactly as `route_action` says, so a malformed
/// address, transaction hash, or block number finishes with 400; a remote
/// call is only ever emitted for an authorized request to a protected route;
/// and a login reply carries a signed token for the configured claims, good
/// until its expiry — the 500 reply remains only for a configured lifetime
/// whose expiry would not fit the clock's range.
pub fn start(route: Route, header: Option<&str>, now: u64, secret: &str, login: &LoginConfig) -> (s:
    Step)
    ensures
        route@ is Index ==> s@ == respond(200, greeting_body()),
        protected(route@) && !auth_model(header_view(header), now, secret@) ==> s@ == respond(
            401,
            unauthorized_body(),
        ),
        protected(route@) && auth_model(header_view(header), now, secret@) ==> s@ == route_action(
            route@,
        ),
        s@ matches StepView::Call(c, p) ==> protected(route@) && auth_model(
            header_view(header),
            now,
            secret@,
        ),
        (route@ matches RouteView::Balance(a) && !valid_address(a) && auth_model(
            header_view(header),
            now,
            secret@,
        )) ==> s@ == respond(400, invalid_address_body()),
        (route@ matches RouteView::AccountNonce(a) && !valid_address(a) && auth_model(
            header_view(header),
            now,
            secret@,
        )) ==> s@ == respond(400, invalid_address_body()),
        (route@ matches RouteView::TransactionDetails(h) && !valid_tx_hash(h) && auth_model(
            header_view(header),
            now,
            secret@,
        )) ==> s@ == respond(400, invalid_tx_hash_body()),
        route@ is Login && now + login@.2 > u64::MAX ==> s@ == respond(500, token_error_body()),
        route@ is Login && now + login@.2 <= u64::MAX ==> (s@ matches StepView::Respond(rep)
            && rep.status == 200 && rep.body == jwt_of(
            login@.0,
            login@.1,
            (now + login@.2) as u64,
            secret@,
        ) && forall|later: u64|
            later <= now + login@.2 ==> #[trigger] verify_model(rep.body, later, secret@)
                == Result::<(Seq<char>, Seq<char>, u64), AuthError>::Ok(
                (login@.0, login@.1, (now + login@.2) as u64),
            )),
{
    match route {
        Route::Index => Step::Respond(replies::greeting_reply()),
        Route::Login => {
            if now > u64::MAX - login.ttl {
                Step::Respond(replies::token_error_reply())
            } else {
                match issue(
                    login.subject.as_str(),
                    login.organization.as_str(),
                    login.ttl,
                    now,
                    secret,
                ) {
                    Ok(t) => Step::Respond(HttpReply { status: 200, body: t }),
                    Err(_) => Step::Respond(replies::token_error_reply()),
                }
            }
        },
        other => {
            if !authorize(header, now, secret) {
                Step::Respond(replies::unauthorized_reply())
            } else {
                protected_step(other)
            }
        },
    }
}

/// What `resume` decides for each session state and call outcome. A remote
/// failure maps uniformly through `rpc_fail`; an outcome whose shape does
/// not belong to the awaited call finishes with the 500 mismatch reply.
pub open spec fn resume_model(p: PendingView, e: RpcEventView) -> StepView {
    match (p, e) {
        (PendingView::GasPrice, RpcEventView::Uint(r)) => match r {
            Result::Ok(n) => respond(200, gas_price_body(n)),
            Result::Err(err) => rpc_fail(err),
        },
        (PendingView::LatestNumber, RpcEventView::BlockNum(r)) => match r {
            Result::Ok(n) => StepView::Call(
                RpcCallView::BlockByNumber(n),
                PendingView::LatestBlock,
            ),
            Result::Err(err) => rpc_fail(err),
        },
        (PendingView::LatestBlock, RpcEventView::Block(r)) => match r {
            Result::Ok(Option::Some(b)) => respond(200, block_json_body(b)),
            Result::Ok(Option::None) => respond(500, latest_block_missing_body()),
            Result::Err(err) => rpc_fail(err),
        },
        (PendingView::BlockByNumber(_), RpcEventView::Block(r)) => match r {
            Result::Ok(Option::Some(b)) => respond(200, block_json_body(b)),
            Result::Ok(Option::None) => respond(404, block_not_found_body()),
            Result::Err(err) => rpc_fail(err),
        },
        (PendingView::TransactionDetails, RpcEventView::Tx(r)) => match r {
            Result::Ok(Option::Some(t)) => respond(200, tx_json_body(t)),
            Result::Ok(Option::None) => respond(404, tx_not_found_body()),
            Result::Err(err) => rpc_fail(err),
        },
        (PendingView::Balance(a), RpcEventView::Uint(r)) => match r {
            Result::Ok(n) => respond(200, balance_body(a, n)),
            Result::Err(err) => rpc_fail(err),
        },
        (PendingView::NetworkVersion, RpcEventView::Text(r)) => match r {
            Result::Ok(v) => StepView::Call(RpcCallView::PeerCount, PendingView::NetworkPeers(v)),
            Result::Err(err) => rpc_fail(err),
        },
        (PendingView::NetworkPeers(v), RpcEventView::Uint(r)) => match r {
            Result::Ok(n) => respond(200, network_info_body(v, n)),
            Result::Err(err) => rpc_fail(err),
        },
        (PendingView::SyncStatus, RpcEventView::Sync(r)) => match r {
            Result::Ok(
                SyncOutcome::Syncing { starting_block, current_block, highest_block },
            ) => respond(200, syncing_body(starting_block, current_block, highest_block)),
            Result::Ok(SyncOutcome::NotSyncing) => respond(200, synced_body()),
            Result::Err(err) => rpc_fail(err),
        },
        (PendingView::TransactionCountInBlock(n), RpcEventView::Block(r)) => match r {
            Result::Ok(Option::Some(b)) => respond(200, tx_count_body(n, b.transactions.len())),
            Result::Ok(Option::None) => respond(404, block_missing_body(n)),
            Result::Err(err) => rpc_fail(err),
        },
        (PendingView::AccountNonce, RpcEventView::Uint(r)) => match r {
            Result::Ok(n) => respond(200, nonce_body(n)),
            Result::Err(err) => rpc_fail(err),
        },
        _ => respond(500, mismatch_body()),
    }
}

/// Resumes a session with the outcome of the call it was waiting for.
///
/// Laws stated below, after the exact model: a block lookup that reports
/// absence finishes with 404, never 500; and a sync-state request never
/// fails for a domain outcome — any successfully reported state, syncing or
/// not, finishes with 200.
pub fn resume(pending: Pending, event: RpcEvent) -> (s: Step)
    ensures
        s@ == resume_model(pending@, event@),
        pending@ matches PendingView::BlockByNumber(n) && event@ == RpcEventView::Block(
            Result::Ok(Option::None),
        ) ==> s@ == respond(404, block_not_found_body()),
        (pending@ is SyncStatus && event@ matches RpcEventView::Sync(Result::Ok(o))) ==> (
        s@ matches StepView::Respond(rep) && rep.status == 200),
{
    match (pending, event) {
        (Pending::GasPrice, RpcEvent::Uint(r)) => match r {
            Ok(n) => Step::Respond(replies::gas_price_reply(n)),
            Err(err) => Step::Respond(replies::rpc_error_reply(err)),
        },
        (Pending::LatestNumber, RpcEvent::BlockNum(r)) => match r {
            Ok(n) => Step::Call(RpcCall::BlockByNumber(n), Pending::LatestBlock),
            Err(err) => Step::Respond(replies::rpc_error_reply(err)),
        },
        (Pending::LatestBlock, RpcEvent::Block(r)) => match r {
            Ok(Some(b)) => Step::Respond(replies::block_json_reply(&b)),
            Ok(None) => Step::Respond(replies::latest_block_missing_reply()),
            Err(err) => Step::Respond(replies::rpc_error_reply(err)),
        },
        (Pending::BlockByNumber(_), RpcEvent::Block(r)) => match r {
            Ok(Some(b)) => Step::Respond(replies::block_json_reply(&b)),
            Ok(None) => Step::Respond(replies::block_not_found_reply()),
            Err(err) => Step::Respond(replies::rpc_error_reply(err)),
        },
        (Pending::TransactionDetails, RpcEvent::Tx(r)) => match r {
            Ok(Some(t)) => Step::Respond(replies::tx_json_reply(&t)),
            Ok(None) => Step::Respond(replies::tx_not_found_reply()),
            Err(err) => Step::Respond(replies::rpc_error_reply(err)),
        },
        (Pending::Balance(a), RpcEvent::Uint(r)) => match r {
            Ok(n) => Step::Respond(replies::balance_reply(a.as_str(), n)),
            Err(err) => Step::Respond(replies::rpc_error_reply(err)),
        },
        (Pending::NetworkVersion, RpcEvent::Text(r)) => match r {
            Ok(v) => Step::Call(RpcCall::PeerCount, Pending::NetworkPeers(v)),
            Err(err) => Step::Respond(replies::rpc_error_reply(err)),
        },
        (Pending::NetworkPeers(v), RpcEvent::Uint(r)) => match r {
            Ok(n) => Step::Respond(replies::network_info_reply(v.as_str(), n)),
            Err(err) => Step::Respond(replies::rpc_error_reply(err)),
        },
        (Pending::SyncStatus, RpcEvent::Sync(r)) => match r {
            Ok(SyncOutcome::Syncing { starting_block, current_block, highest_block }) => {
                Step::Respond(
                    replies::syncing_reply(starting_block, current_block, highest_block),
                )
            },
            Ok(SyncOutcome::NotSyncing) => Step::Respond(replies::synced_reply()),
            Err(err) => Step::Respond(replies::rpc_error_reply(err)),
        },
        (Pending::TransactionCountInBlock(n), RpcEvent::Block(r)) => match r {
            Ok(Some(b)) => Step::Respond(replies::tx_count_reply(n, b.transaction_count())),
            Ok(None) => Step::Respond(replies::block_missing_reply(n)),
            Err(err) => Step::Respond(replies::rpc_error_reply(err)),
        },
        (Pending::AccountNonce, RpcEvent::Uint(r)) => match r {
            Ok(n) => Step::Respond(replies::nonce_reply(n)),
            Err(err) => Step::Respond(replies::rpc_error_reply(err)),
        },
        _ => Step::Respond(replies::mismatch_reply()),
    }
}

} // verus!
