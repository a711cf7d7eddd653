//! An authenticated gateway core: bearer-token issuance and verification,
//! request dispatch from routes to remote-procedure calls, parameter
//! validation, and translation of call outcomes into HTTP replies.

pub mod dispatch;
pub mod numeric;
pub mod params;
pub mod replies;
pub mod rpc;
pub mod token;
