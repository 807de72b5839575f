//! Flow logic of a token-mining front end: signing a transaction through a
//! wallet bridge, claiming a mined balance, and importing a keypair.

pub mod amount;
pub mod async_result;
pub mod claim;
pub mod import_key;
pub mod invocation;
pub mod keys;
pub mod wallet;
