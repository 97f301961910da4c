use vstd::prelude::*;

pub mod account;
pub mod client;
pub mod config;
pub mod constants;
pub mod duration;
pub mod genesis;
pub mod init;
pub mod json;
pub mod keys;
pub mod load;
pub mod shard;
pub mod signer;
pub mod snapshot;
pub mod testnet;
pub mod text;
pub mod urls;

verus! {

} // verus!
