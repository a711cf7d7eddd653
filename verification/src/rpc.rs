//! The data model of the remote-procedure adapter: the calls a handler can
//! ask for, the normalized values a call can produce, and the uniform failure
//! kinds. The calls themselves are performed outside the library; handlers
//! are verified against every value the adapter can hand back.

use vstd::prelude::*;

verus! {

/// Why a remote call failed: the transport to the node could not be set up,
/// the call itself failed on the node's side, or the call did not finish
/// within its deadline.
#[derive(Debug, Clone, Copy, PartialEq, Eq, Structural)]
pub enum RpcError {
    Unreachable,
    Remote,
    Timeout,
}

/// The adapter's normalized representation of a block.
#[derive(Debug, Clone)]
pub struct BlockSummary {
    pub number: u64,
    pub hash: String,
    pub parent_hash: String,
    pub gas_used: u128,
    /// The hashes of the block's transactions.
    pub transactions: Vec<String>,
}

pub ghost struct BlockSummaryView {
    pub number: u64,
    pub hash: Seq<char>,
    pub parent_hash: Seq<char>,
    pub gas_used: u128,
    pub transactions: Seq<Seq<char>>,
}

impl View for BlockSummary {
    type V = BlockSummaryView;

    open spec fn view(&self) -> BlockSummaryView {
        BlockSummaryView {
            number: self.number,
            hash: self.hash@,
            parent_hash: self.parent_hash@,
            gas_used: self.gas_used,
            transactions: self.transactions.deep_view(),
        }
    }
}

impl BlockSummary {
    /// How many transactions the block holds.
    pub fn transaction_count(&self) -> (n: usize)
        ensures
            n == self@.transactions.len(),
    {
        self.transactions.len()
    }
}

/// The adapter's normalized representation of a transaction.
#[derive(Debug, Clone)]
pub struct TransactionSummary {
    pub hash: String,
    pub sender: String,
    pub recipient: Option<String>,
    pub value: u128,
    pub block_number: Option<u64>,
}

pub ghost struct TransactionSummaryView {
    pub hash: Seq<char>,
    pub sender: Seq<char>,
    pub recipient: Option<Seq<char>>,
    pub value: u128,
    pub block_number: Option<u64>,
}

impl View for TransactionSummary {
    type V = TransactionSummaryView;

    open spec fn view(&self) -> TransactionSummaryView {
        TransactionSummaryView {
            hash: self.hash@,
            sender: self.sender@,
            recipient: match self.recipient {
                Option::Some(ref r) => Option::Some(r@),
                Option::None => Option::None,
            },
            value: self.value,
            block_number: self.block_number,
        }
    }
}

/// The node's synchronization state. "Not syncing" is a valid terminal state,
/// never a failure.
#[derive(Debug, Clone, Copy, PartialEq, Eq, Structural)]
pub enum SyncOutcome {
    Syncing { starting_block: u64, current_block: u64, highest_block: u64 },
    NotSyncing,
}

/// One remote operation the dispatcher can ask the adapter to perform.
/// Address and hash arguments have been validated before a call is emitted.
#[derive(Debug, Clone)]
pub enum RpcCall {
    GasPrice,
    BlockNumber,
    BlockByNumber(u64),
    TransactionByHash(String),
    Balance(String),
    TransactionCount(String),
    NetVersion,
    PeerCount,
    Syncing,
}

pub ghost enum RpcCallView {
    GasPrice,
    BlockNumber,
    BlockByNumber(u64),
    TransactionByHash(Seq<char>),
    Balance(Seq<char>),
    TransactionCount(Seq<char>),
    NetVersion,
    PeerCount,
    Syncing,
}

impl View for RpcCall {
    type V = RpcCallView;

    open spec fn view(&self) -> RpcCallView {
        match self {
            RpcCall::GasPrice => RpcCallView::GasPrice,
            RpcCall::BlockNumber => RpcCallView::BlockNumber,
            RpcCall::BlockByNumber(n) => RpcCallView::BlockByNumber(*n),
            RpcCall::TransactionByHash(h) => RpcCallView::TransactionByHash(h@),
            RpcCall::Balance(a) => RpcCallView::Balance(a@),
            RpcCall::TransactionCount(a) => RpcCallView::TransactionCount(a@),
            RpcCall::NetVersion => RpcCallView::NetVersion,
            RpcCall::PeerCount => RpcCallView::PeerCount,
            RpcCall::Syncing => RpcCallView::Syncing,
        }
    }
}

/// What a performed call produced, as handed back by the adapter: one
/// variant per result shape.
#[derive(Debug)]
pub enum RpcEvent {
    /// An unsigned quantity: gas price, balance, nonce, or peer count.
    Uint(Result<u128, RpcError>),
    /// The current block number.
    BlockNum(Result<u64, RpcError>),
    /// A block lookup; `None` means the block does not exist.
    Block(Result<Option<BlockSummary>, RpcError>),
    /// A transaction lookup; `None` means the transaction does not exist.
    Tx(Result<Option<TransactionSummary>, RpcError>),
    /// A text value: the network version.
    Text(Result<String, RpcError>),
    /// The synchronization state.
    Sync(Result<SyncOutcome, RpcError>),
}

pub ghost enum RpcEventView {
    Uint(Result<u128, RpcError>),
    BlockNum(Result<u64, RpcError>),
    Block(Result<Option<BlockSummaryView>, RpcError>),
    Tx(Result<Option<TransactionSummaryView>, RpcError>),
    Text(Result<Seq<char>, RpcError>),
    Sync(Result<SyncOutcome, RpcError>),
}

impl View for RpcEvent {
    type V = RpcEventView;

    open spec fn view(&self) -> RpcEventView {
        match self {
            RpcEvent::Uint(r) => RpcEventView::Uint(*r),
            RpcEvent::BlockNum(r) => RpcEventView::BlockNum(*r),
            RpcEvent::Block(r) => RpcEventView::Block(
                match r {
                    Result::Ok(Option::Some(b)) => Result::Ok(Option::Some(b@)),
                    Result::Ok(Option::None) => Result::Ok(Option::None),
                    Result::Err(e) => Result::Err(*e),
                },
            ),
            RpcEvent::Tx(r) => RpcEventView::Tx(
                match r {
                    Result::Ok(Option::Some(t)) => Result::Ok(Option::Some(t@)),
                    Result::Ok(Option::None) => Result::Ok(Option::None),
                    Result::Err(e) => Result::Err(*e),
                },
            ),
            RpcEvent::Text(r) => RpcEventView::Text(
                match r {
                    Result::Ok(s) => Result::Ok(s@),
                    Result::Err(e) => Result::Err(*e),
                },
            ),
            RpcEvent::Sync(r) => RpcEventView::Sync(*r),
        }
    }
}

} // verus!
