use rpc_gateway::dispatch::{start, resume, LoginConfig, Pending, Route, Step};
use rpc_gateway::rpc::{BlockSummary, RpcCall, RpcError, RpcEvent, SyncOutcome, TransactionSummary};

const SECRET: &str = "my_secret_key";
const NOW: u64 = 1_000_000;

fn login_config() -> LoginConfig {
    LoginConfig {
        subject: "b@b.com".to_string(),
        organization: "ACME".to_string(),
        ttl: 3600,
    }
}

fn fresh_token() -> String {
    match start(Route::Login, None, NOW, SECRET, &login_config()) {
        Step::Respond(rep) => {
            assert_eq!(rep.status, 200);
            rep.body
        }
        Step::Call(..) => panic!("login never calls the node"),
    }
}

fn bearer(token: &str) -> String {
    format!("Bearer {}", token)
}

#[test]
fn index_needs_no_token() {
    match start(Route::Index, None, NOW, SECRET, &login_config()) {
        Step::Respond(rep) => {
            assert_eq!(rep.status, 200);
            assert_eq!(rep.body, "Hello, world!");
        }
        Step::Call(..) => panic!("the health probe never calls the node"),
    }
}

#[test]
fn missing_header_is_401_and_no_call_is_made() {
    let routes = vec![
        Route::GasPrice,
        Route::LatestBlock,
        Route::BlockByNumber("7".to_string()),
        Route::TransactionDetails(format!("0x{}", "ab".repeat(32))),
        Route::Balance(format!("0x{}", "ab".repeat(20))),
        Route::NetworkInfo,
        Route::SyncStatus,
        Route::TransactionCountInBlock("7".to_string()),
        Route::AccountNonce(format!("0x{}", "ab".repeat(20))),
    ];
    for route in routes {
        match start(route, None, NOW, SECRET, &login_config()) {
            Step::Respond(rep) => {
                assert_eq!(rep.status, 401);
                assert_eq!(rep.body, "Invalid token");
            }
            Step::Call(..) => panic!("an unauthenticated request must not reach the adapter"),
        }
    }
}

#[test]
fn bad_scheme_or_bad_token_is_401() {
    let token = fresh_token();
    // Missing scheme prefix.
    match start(Route::GasPrice, Some(&token), NOW, SECRET, &login_config()) {
        Step::Respond(rep) => assert_eq!(rep.status, 401),
        Step::Call(..) => panic!("no call without the bearer scheme"),
    }
    // Garbage credential.
    match start(
        Route::GasPrice,
        Some("Bearer garbage"),
        NOW,
        SECRET,
        &login_config(),
    ) {
        Step::Respond(rep) => {
            assert_eq!(rep.status, 401);
            assert_eq!(rep.body, "Invalid token");
        }
        Step::Call(..) => panic!("no call with a malformed token"),
    }
}

#[test]
fn issued_token_authorizes_gas_price_request() {
    let header = bearer(&fresh_token());
    match start(Route::GasPrice, Some(&header), NOW, SECRET, &login_config()) {
        Step::Call(RpcCall::GasPrice, Pending::GasPrice) => {}
        _ => panic!("an authorized gas-price request asks for the gas price"),
    }
}

#[test]
fn expired_login_token_is_401() {
    let header = bearer(&fresh_token());
    let later = NOW + 3601;
    match start(Route::GasPrice, Some(&header), later, SECRET, &login_config()) {
        Step::Respond(rep) => assert_eq!(rep.status, 401),
        Step::Call(..) => panic!("an expired token must not reach the adapter"),
    }
}

#[test]
fn malformed_address_is_400_and_no_call_is_made() {
    let header = bearer(&fresh_token());
    for bad in ["abc", "0x123", "0xzz", &format!("0x{}", "g".repeat(40))] {
        match start(
            Route::Balance(bad.to_string()),
            Some(&header),
            NOW,
            SECRET,
            &login_config(),
        ) {
            Step::Respond(rep) => {
                assert_eq!(rep.status, 400);
                assert_eq!(rep.body, "Invalid address format");
            }
            Step::Call(..) => panic!("a malformed address must not reach the adapter"),
        }
        match start(
            Route::AccountNonce(bad.to_string()),
            Some(&header),
            NOW,
            SECRET,
            &login_config(),
        ) {
            Step::Respond(rep) => assert_eq!(rep.status, 400),
            Step::Call(..) => panic!("a malformed address must not reach the adapter"),
        }
    }
}

#[test]
fn malformed_hash_is_400_and_no_call_is_made() {
    let header = bearer(&fresh_token());
    // A 40-digit value is an address, not a transaction hash.
    for bad in ["", "0x12", &format!("0x{}", "ab".repeat(20))] {
        match start(
            Route::TransactionDetails(bad.to_string()),
            Some(&header),
            NOW,
            SECRET,
            &login_config(),
        ) {
            Step::Respond(rep) => {
                assert_eq!(rep.status, 400);
                assert_eq!(rep.body, "Invalid transaction hash");
            }
            Step::Call(..) => panic!("a malformed hash must not reach the adapter"),
        }
    }
}

#[test]
fn malformed_block_number_is_400() {
    let header = bearer(&fresh_token());
    for bad in ["", "abc", "-1", "18446744073709551616"] {
        match start(
            Route::BlockByNumber(bad.to_string()),
            Some(&header),
            NOW,
            SECRET,
            &login_config(),
        ) {
            Step::Respond(rep) => {
                assert_eq!(rep.status, 400);
                assert_eq!(rep.body, "Invalid block number");
            }
            Step::Call(..) => panic!("a malformed block number must not reach the adapter"),
        }
    }
}

#[test]
fn unprefixed_address_and_hash_are_served() {
    let header = bearer(&fresh_token());
    let address = "ab".repeat(20);
    match start(
        Route::Balance(address.clone()),
        Some(&header),
        NOW,
        SECRET,
        &login_config(),
    ) {
        Step::Call(RpcCall::Balance(a), Pending::Balance(b)) => {
            assert_eq!(a, address);
            assert_eq!(b, address);
        }
        _ => panic!("an unprefixed address is served"),
    }
    let hash = "cd".repeat(32);
    match start(
        Route::TransactionDetails(hash.clone()),
        Some(&header),
        NOW,
        SECRET,
        &login_config(),
    ) {
        Step::Call(RpcCall::TransactionByHash(h), Pending::TransactionDetails) => {
            assert_eq!(h, hash);
        }
        _ => panic!("an unprefixed hash is served"),
    }
}

#[test]
fn block_number_with_leading_zeros_is_accepted() {
    let header = bearer(&fresh_token());
    match start(
        Route::BlockByNumber("007".to_string()),
        Some(&header),
        NOW,
        SECRET,
        &login_config(),
    ) {
        Step::Call(RpcCall::BlockByNumber(7), Pending::BlockByNumber(7)) => {}
        _ => panic!("leading zeros are accepted"),
    }
}

fn block_fixture() -> BlockSummary {
    BlockSummary {
        number: 12,
        hash: "0xaa".to_string(),
        parent_hash: "0xbb".to_string(),
        gas_used: 21000,
        transactions: vec!["0x01".to_string(), "0x02".to_string()],
    }
}

#[test]
fn absent_block_is_404_never_500() {
    match resume(Pending::BlockByNumber(7), RpcEvent::Block(Ok(None))) {
        Step::Respond(rep) => {
            assert_eq!(rep.status, 404);
            assert_eq!(rep.body, "Block not found");
        }
        Step::Call(..) => panic!("an absent block finishes the request"),
    }
}

#[test]
fn present_block_renders_as_json() {
    match resume(Pending::BlockByNumber(12), RpcEvent::Block(Ok(Some(block_fixture())))) {
        Step::Respond(rep) => {
            assert_eq!(rep.status, 200);
            assert_eq!(
                rep.body,
                "{\"number\":12,\"hash\":\"0xaa\",\"parentHash\":\"0xbb\",\
                 \"gasUsed\":21000,\"transactionCount\":2}"
            );
        }
        Step::Call(..) => panic!("a found block finishes the request"),
    }
}

#[test]
fn block_transport_failure_is_500() {
    match resume(Pending::BlockByNumber(7), RpcEvent::Block(Err(RpcError::Unreachable))) {
        Step::Respond(rep) => {
            assert_eq!(rep.status, 500);
            assert_eq!(rep.body, "Error creating transport");
        }
        Step::Call(..) => panic!("a failed call finishes the request"),
    }
    match resume(Pending::BlockByNumber(7), RpcEvent::Block(Err(RpcError::Remote))) {
        Step::Respond(rep) => {
            assert_eq!(rep.status, 500);
            assert_eq!(rep.body, "Error calling the node");
        }
        Step::Call(..) => panic!("a failed call finishes the request"),
    }
}

#[test]
fn missed_deadline_is_504() {
    match resume(Pending::GasPrice, RpcEvent::Uint(Err(RpcError::Timeout))) {
        Step::Respond(rep) => {
            assert_eq!(rep.status, 504);
            assert_eq!(rep.body, "Node call timed out");
        }
        Step::Call(..) => panic!("a timed-out call finishes the request"),
    }
}

#[test]
fn gas_price_formats_the_quantity() {
    match resume(Pending::GasPrice, RpcEvent::Uint(Ok(12_345_678_901))) {
        Step::Respond(rep) => {
            assert_eq!(rep.status, 200);
            assert_eq!(rep.body, "Gas Price: 12345678901");
        }
        Step::Call(..) => panic!("a delivered gas price finishes the request"),
    }
}

#[test]
fn latest_block_chains_two_calls() {
    match resume(Pending::LatestNumber, RpcEvent::BlockNum(Ok(42))) {
        Step::Call(RpcCall::BlockByNumber(42), Pending::LatestBlock) => {}
        _ => panic!("the latest-block request fetches the block it resolved"),
    }
    match resume(Pending::LatestBlock, RpcEvent::Block(Ok(None))) {
        Step::Respond(rep) => {
            assert_eq!(rep.status, 500);
            assert_eq!(rep.body, "Could not get block.");
        }
        Step::Call(..) => panic!("an absent latest block finishes the request"),
    }
}

#[test]
fn sync_status_is_200_for_both_domain_outcomes() {
    match resume(
        Pending::SyncStatus,
        RpcEvent::Sync(Ok(SyncOutcome::Syncing {
            starting_block: 1,
            current_block: 5,
            highest_block: 9,
        })),
    ) {
        Step::Respond(rep) => {
            assert_eq!(rep.status, 200);
            assert_eq!(
                rep.body,
                "The node is synchronizing.\nSynchronization status: \
                 starting block 1, current block 5, highest block 9"
            );
        }
        Step::Call(..) => panic!("a reported sync state finishes the request"),
    }
    match resume(Pending::SyncStatus, RpcEvent::Sync(Ok(SyncOutcome::NotSyncing))) {
        Step::Respond(rep) => {
            assert_eq!(rep.status, 200);
            assert_eq!(rep.body, "The node is fully synchronized.");
        }
        Step::Call(..) => panic!("a reported sync state finishes the request"),
    }
    // Only a transport or node-side failure yields 500.
    match resume(Pending::SyncStatus, RpcEvent::Sync(Err(RpcError::Unreachable))) {
        Step::Respond(rep) => assert_eq!(rep.status, 500),
        Step::Call(..) => panic!("a failed call finishes the request"),
    }
}

#[test]
fn network_info_combines_version_and_peer_count() {
    let step = resume(Pending::NetworkVersion, RpcEvent::Text(Ok("11".to_string())));
    let pending = match step {
        Step::Call(RpcCall::PeerCount, p) => p,
        _ => panic!("after the version, the peer count is fetched"),
    };
    match resume(pending, RpcEvent::Uint(Ok(3))) {
        Step::Respond(rep) => {
            assert_eq!(rep.status, 200);
            assert_eq!(rep.body, "Network version: 11\nNumber of peers connected: 3");
        }
        Step::Call(..) => panic!("the peer count finishes the request"),
    }
}

#[test]
fn network_info_fails_whole_if_either_call_fails() {
    match resume(Pending::NetworkVersion, RpcEvent::Text(Err(RpcError::Remote))) {
        Step::Respond(rep) => assert_eq!(rep.status, 500),
        Step::Call(..) => panic!("a failed version lookup finishes the request"),
    }
    match resume(
        Pending::NetworkPeers("11".to_string()),
        RpcEvent::Uint(Err(RpcError::Remote)),
    ) {
        Step::Respond(rep) => assert_eq!(rep.status, 500),
        Step::Call(..) => panic!("a failed peer-count lookup finishes the request"),
    }
}

#[test]
fn balance_body_is_exact() {
    let address = format!("0xabc{}", "0".repeat(37));
    let header = bearer(&fresh_token());
    let pending = match start(
        Route::Balance(address.clone()),
        Some(&header),
        NOW,
        SECRET,
        &login_config(),
    ) {
        Step::Call(RpcCall::Balance(a), p) => {
            assert_eq!(a, address);
            p
        }
        _ => panic!("a valid address reaches the adapter"),
    };
    match resume(pending, RpcEvent::Uint(Ok(1000))) {
        Step::Respond(rep) => {
            assert_eq!(rep.status, 200);
            assert_eq!(rep.body, format!("Balance of address {}: 1000", address));
        }
        Step::Call(..) => panic!("a delivered balance finishes the request"),
    }
}

#[test]
fn transaction_details_render_as_json() {
    let tx = TransactionSummary {
        hash: "0xdead".to_string(),
        sender: "0x01".to_string(),
        recipient: None,
        value: 5,
        block_number: Some(3),
    };
    match resume(Pending::TransactionDetails, RpcEvent::Tx(Ok(Some(tx)))) {
        Step::Respond(rep) => {
            assert_eq!(rep.status, 200);
            assert_eq!(
                rep.body,
                "{\"hash\":\"0xdead\",\"from\":\"0x01\",\"to\":null,\
                 \"value\":5,\"blockNumber\":3}"
            );
        }
        Step::Call(..) => panic!("a found transaction finishes the request"),
    }
    match resume(Pending::TransactionDetails, RpcEvent::Tx(Ok(None))) {
        Step::Respond(rep) => {
            assert_eq!(rep.status, 404);
            assert_eq!(rep.body, "Transaction not found.");
        }
        Step::Call(..) => panic!("an absent transaction finishes the request"),
    }
}

#[test]
fn transaction_count_uses_block_lookup() {
    match resume(
        Pending::TransactionCountInBlock(12),
        RpcEvent::Block(Ok(Some(block_fixture()))),
    ) {
        Step::Respond(rep) => {
            assert_eq!(rep.status, 200);
            assert_eq!(rep.body, "Number of transactions in block 12: 2");
        }
        Step::Call(..) => panic!("a found block finishes the request"),
    }
    match resume(Pending::TransactionCountInBlock(12), RpcEvent::Block(Ok(None))) {
        Step::Respond(rep) => {
            assert_eq!(rep.status, 404);
            assert_eq!(rep.body, "Could not find block 12.");
        }
        Step::Call(..) => panic!("an absent block finishes the request"),
    }
}

#[test]
fn account_nonce_formats_the_quantity() {
    match resume(Pending::AccountNonce, RpcEvent::Uint(Ok(0))) {
        Step::Respond(rep) => {
            assert_eq!(rep.status, 200);
            assert_eq!(rep.body, "Nonce: 0");
        }
        Step::Call(..) => panic!("a delivered nonce finishes the request"),
    }
}

#[test]
fn mismatched_outcome_is_500() {
    match resume(Pending::GasPrice, RpcEvent::Sync(Ok(SyncOutcome::NotSyncing))) {
        Step::Respond(rep) => {
            assert_eq!(rep.status, 500);
            assert_eq!(rep.body, "Unexpected adapter response");
        }
        Step::Call(..) => panic!("a mismatched outcome finishes the request"),
    }
}
