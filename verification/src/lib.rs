//! Verified core of the YRAL web pages: input validation for uploads and
//! token creation, the pump-and-dump game rules, feed queue management,
//! wallet and transaction helpers.
use vstd::prelude::*;

pub mod text;
pub mod number;
pub mod principal;
pub mod upload;
pub mod pumpdump;
pub mod feed;
pub mod wallet;
pub mod token_txn;
pub mod token_create;
pub mod token_form;
pub mod token_claim;
pub mod links;
pub mod create_form;
pub mod token_view;
pub mod airdrop;

verus! {

} // verus!
