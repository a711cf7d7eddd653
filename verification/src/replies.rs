//! Construction of HTTP replies. Every reply a handler can produce is built
//! here, and each builder's contract pins the exact status and body text, so
//! that adding a route never re-derives error mapping or formatting.

use vstd::prelude::*;
use vstd::string::*;

use crate::numeric::{dec_of, u128_to_dec, u64_to_dec};
use crate::rpc::{BlockSummaryView, TransactionSummaryView};

verus! {

/// A finished HTTP response: a status code and a text body.
#[derive(Debug, Clone, PartialEq, Eq)]
pub struct HttpReply {
    pub status: u16,
    pub body: String,
}

pub ghost struct HttpReplyView {
    pub status: u16,
    pub body: Seq<char>,
}

impl View for HttpReply {
    type V = HttpReplyView;

    open spec fn view(&self) -> HttpReplyView {
        HttpReplyView { status: self.status, body: self.body@ }
    }
}

/// The fixed greeting returned by the health probe.
pub open spec fn greeting_body() -> Seq<char> {
    "Hello, world!"@
}

/// The generic body of every authentication failure; it never reveals which
/// failure kind occurred.
pub open spec fn unauthorized_body() -> Seq<char> {
    "Invalid token"@
}

pub open spec fn token_error_body() -> Seq<char> {
    "Error generating token"@
}

pub open spec fn transport_error_body() -> Seq<char> {
    "Error creating transport"@
}

pub open spec fn remote_error_body() -> Seq<char> {
    "Error calling the node"@
}

pub open spec fn timeout_body() -> Seq<char> {
    "Node call timed out"@
}

pub open spec fn invalid_block_number_body() -> Seq<char> {
    "Invalid block number"@
}

pub open spec fn invalid_address_body() -> Seq<char> {
    "Invalid address format"@
}

pub open spec fn invalid_tx_hash_body() -> Seq<char> {
    "Invalid transaction hash"@
}

/// The body of the reply to a call outcome whose shape does not belong to
/// the call that was awaited.
pub open spec fn mismatch_body() -> Seq<char> {
    "Unexpected adapter response"@
}

pub open spec fn block_not_found_body() -> Seq<char> {
    "Block not found"@
}

pub open spec fn tx_not_found_body() -> Seq<char> {
    "Transaction not found."@
}

pub open spec fn latest_block_missing_body() -> Seq<char> {
    "Could not get block."@
}

pub open spec fn block_missing_body(n: u64) -> Seq<char> {
    "Could not find block "@ + dec_of(n as nat) + "."@
}

pub open spec fn gas_price_body(n: u128) -> Seq<char> {
    "Gas Price: "@ + dec_of(n as nat)
}

pub open spec fn balance_body(address: Seq<char>, n: u128) -> Seq<char> {
    "Balance of address "@ + address + ": "@ + dec_of(n as nat)
}

pub open spec fn nonce_body(n: u128) -> Seq<char> {
    "Nonce: "@ + dec_of(n as nat)
}

pub open spec fn network_info_body(version: Seq<char>, peers: u128) -> Seq<char> {
    "Network version: "@ + version + "\nNumber of peers connected: "@ + dec_of(peers as nat)
}

pub open spec fn tx_count_body(block: u64, count: nat) -> Seq<char> {
    "Number of transactions in block "@ + dec_of(block as nat) + ": "@ + dec_of(count)
}

pub open spec fn syncing_body(starting: u64, current: u64, highest: u64) -> Seq<char> {
    "The node is synchronizing.\nSynchronization status: starting block "@ + dec_of(
        starting as nat,
    ) + ", current block "@ + dec_of(current as nat) + ", highest block "@ + dec_of(highest as nat)
}

pub open spec fn synced_body() -> Seq<char> {
    "The node is fully synchronized."@
}

/// The structured rendering of a block.
pub open spec fn block_json_body(b: BlockSummaryView) -> Seq<char> {
    "{\"number\":"@ + dec_of(b.number as nat) + ",\"hash\":\""@ + b.hash + "\",\"parentHash\":\""@
        + b.parent_hash + "\",\"gasUsed\":"@ + dec_of(b.gas_used as nat)
        + ",\"transactionCount\":"@ + dec_of(b.transactions.len()) + "}"@
}

/// The structured rendering of a transaction; absent fields render as null.
pub open spec fn tx_json_body(t: TransactionSummaryView) -> Seq<char> {
    "{\"hash\":\""@ + t.hash + "\",\"from\":\""@ + t.sender + "\",\"to\":"@ + (match t.recipient {
        Option::Some(r) => "\""@ + r + "\""@,
        Option::None => "null"@,
    }) + ",\"value\":"@ + dec_of(t.value as nat) + ",\"blockNumber\":"@ + (match t.block_number {
        Option::Some(n) => dec_of(n as nat),
        Option::None => "null"@,
    }) + "}"@
}

/// A reply with a fixed body.
fn fixed(status: u16, text: &str) -> (r: HttpReply)
    ensures
        r@.status == status,
        r@.body == text@,
{
    HttpReply { status, body: String::from_str(text) }
}

pub fn greeting_reply() -> (r: HttpReply)
    ensures
        r@.status == 200 && r@.body == greeting_body(),
{
    fixed(200, "Hello, world!")
}

pub fn unauthorized_reply() -> (r: HttpReply)
    ensures
        r@.status == 401 && r@.body == unauthorized_body(),
{
    fixed(401, "Invalid token")
}

pub fn token_error_reply() -> (r: HttpReply)
    ensures
        r@.status == 500 && r@.body == token_error_body(),
{
    fixed(500, "Error generating token")
}

/// Maps each remote failure kind to its reply: transport and node-side
/// failures are 500, a missed deadline is 504.
pub fn rpc_error_reply(e: crate::rpc::RpcError) -> (r: HttpReply)
    ensures
        e == crate::rpc::RpcError::Unreachable ==> r@.status == 500 && r@.body
            == transport_error_body(),
        e == crate::rpc::RpcError::Remote ==> r@.status == 500 && r@.body == remote_error_body(),
        e == crate::rpc::RpcError::Timeout ==> r@.status == 504 && r@.body == timeout_body(),
{
    match e {
        crate::rpc::RpcError::Unreachable => fixed(500, "Error creating transport"),
        crate::rpc::RpcError::Remote => fixed(500, "Error calling the node"),
        crate::rpc::RpcError::Timeout => fixed(504, "Node call timed out"),
    }
}

pub fn invalid_block_number_reply() -> (r: HttpReply)
    ensures
        r@.status == 400 && r@.body == invalid_block_number_body(),
{
    fixed(400, "Invalid block number")
}

pub fn invalid_address_reply() -> (r: HttpReply)
    ensures
        r@.status == 400 && r@.body == invalid_address_body(),
{
    fixed(400, "Invalid address format")
}

pub fn invalid_tx_hash_reply() -> (r: HttpReply)
    ensures
        r@.status == 400 && r@.body == invalid_tx_hash_body(),
{
    fixed(400, "Invalid transaction hash")
}

pub fn mismatch_reply() -> (r: HttpReply)
    ensures
        r@.status == 500 && r@.body == mismatch_body(),
{
    fixed(500, "Unexpected adapter response")
}

pub fn block_not_found_reply() -> (r: HttpReply)
    ensures
        r@.status == 404 && r@.body == block_not_found_body(),
{
    fixed(404, "Block not found")
}

pub fn tx_not_found_reply() -> (r: HttpReply)
    ensures
        r@.status == 404 && r@.body == tx_not_found_body(),
{
    fixed(404, "Transaction not found.")
}

pub fn latest_block_missing_reply() -> (r: HttpReply)
    ensures
        r@.status == 500 && r@.body == latest_block_missing_body(),
{
    fixed(500, "Could not get block.")
}

pub fn block_missing_reply(n: u64) -> (r: HttpReply)
    ensures
        r@.status == 404 && r@.body == block_missing_body(n),
{
    let mut body = String::from_str("Could not find block ");
    body.append(u64_to_dec(n).as_str());
    body.append(".");
    proof {
        assert(body@ =~= block_missing_body(n));
    }
    HttpReply { status: 404, body }
}

pub fn gas_price_reply(n: u128) -> (r: HttpReply)
    ensures
        r@.status == 200 && r@.body == gas_price_body(n),
{
    let mut body = String::from_str("Gas Price: ");
    body.append(u128_to_dec(n).as_str());
    HttpReply { status: 200, body }
}

pub fn balance_reply(address: &str, n: u128) -> (r: HttpReply)
    ensures
        r@.status == 200 && r@.body == balance_body(address@, n),
{
    let mut body = String::from_str("Balance of address ");
    body.append(address);
    body.append(": ");
    body.append(u128_to_dec(n).as_str());
    proof {
        assert(body@ =~= balance_body(address@, n));
    }
    HttpReply { status: 200, body }
}

pub fn nonce_reply(n: u128) -> (r: HttpReply)
    ensures
        r@.status == 200 && r@.body == nonce_body(n),
{
    let mut body = String::from_str("Nonce: ");
    body.append(u128_to_dec(n).as_str());
    HttpReply { status: 200, body }
}

pub fn network_info_reply(version: &str, peers: u128) -> (r: HttpReply)
    ensures
        r@.status == 200 && r@.body == network_info_body(version@, peers),
{
    let mut body = String::from_str("Network version: ");
    body.append(version);
    body.append("\nNumber of peers connected: ");
    body.append(u128_to_dec(peers).as_str());
    proof {
        assert(body@ =~= network_info_body(version@, peers));
    }
    HttpReply { status: 200, body }
}

pub fn tx_count_reply(block: u64, count: usize) -> (r: HttpReply)
    ensures
        r@.status == 200 && r@.body == tx_count_body(block, count as nat),
{
    let mut body = String::from_str("Number of transactions in block ");
    body.append(u64_to_dec(block).as_str());
    body.append(": ");
    body.append(u128_to_dec(count as u128).as_str());
    proof {
        assert(body@ =~= tx_count_body(block, count as nat));
    }
    HttpReply { status: 200, body }
}

pub fn syncing_reply(starting: u64, current: u64, highest: u64) -> (r: HttpReply)
    ensures
        r@.status == 200 && r@.body == syncing_body(starting, current, highest),
{
    let mut body = String::from_str("The node is synchronizing.\nSynchronization status: starting block ");
    body.append(u64_to_dec(starting).as_str());
    body.append(", current block ");
    body.append(u64_to_dec(current).as_str());
    body.append(", highest block ");
    body.append(u64_to_dec(highest).as_str());
    proof {
        assert(body@ =~= syncing_body(starting, current, highest));
    }
    HttpReply { status: 200, body }
}

pub fn synced_reply() -> (r: HttpReply)
    ensures
        r@.status == 200 && r@.body == synced_body(),
{
    fixed(200, "The node is fully synchronized.")
}

pub fn block_json_reply(b: &crate::rpc::BlockSummary) -> (r: HttpReply)
    ensures
        r@.status == 200 && r@.body == block_json_body(b@),
{
    let mut body = String::from_str("{\"number\":");
    body.append(u64_to_dec(b.number).as_str());
    body.append(",\"hash\":\"");
    body.append(b.hash.as_str());
    body.append("\",\"parentHash\":\"");
    body.append(b.parent_hash.as_str());
    body.append("\",\"gasUsed\":");
    body.append(u128_to_dec(b.gas_used).as_str());
    body.append(",\"transactionCount\":");
    body.append(u128_to_dec(b.transaction_count() as u128).as_str());
    body.append("}");
    proof {
        assert(body@ =~= block_json_body(b@));
    }
    HttpReply { status: 200, body }
}

pub fn tx_json_reply(t: &crate::rpc::TransactionSummary) -> (r: HttpReply)
    ensures
        r@.status == 200 && r@.body == tx_json_body(t@),
{
    let mut body = String::from_str("{\"hash\":\"");
    body.append(t.hash.as_str());
    body.append("\",\"from\":\"");
    body.append(t.sender.as_str());
    body.append("\",\"to\":");
    match t.recipient {
        Option::Some(ref r) => {
            body.append("\"");
            body.append(r.as_str());
            body.append("\"");
        },
        Option::None => {
            body.append("null");
        },
    }
    body.append(",\"value\":");
    body.append(u128_to_dec(t.value).as_str());
    body.append(",\"blockNumber\":");
    match t.block_number {
        Option::Some(n) => {
            body.append(u64_to_dec(n).as_str());
        },
        Option::None => {
            body.append("null");
        },
    }
    body.append("}");
    proof {
        assert(body@ =~= tx_json_body(t@));
    }
    HttpReply { status: 200, body }
}

} // verus!
