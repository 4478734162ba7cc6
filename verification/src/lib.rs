//! The verified logic of the ckBTC minter's calls to the management
//! canister (error classification, call costs, paging through UTXOs, the
//! DER encoding of ECDSA signatures) and the SNS init payload types.
pub mod call_error;
pub mod der;
pub mod management;
pub mod sns_init;
