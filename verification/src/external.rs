//! Descriptions of the outbound calls this contract issues.
//!
//! The contract never performs a transfer or a cross-contract call itself:
//! each operation returns one of these plain values and the host schedules
//! the call it describes. Every field of a call, including its attached
//! native-currency value and gas budget, is therefore pinned down here.

use vstd::prelude::*;

verus! {

use crate::AccountId;
use crate::SnipeId;
use crate::TokenId;

/// Gas budget for the outbound marketplace purchase call.
pub const GAS_FOR_BUY_TOKEN: u64 = 200_000_000_000_000;

/// Gas budget reserved for the chained resolution callback.
pub const GAS_FOR_RESOLVE_BUY: u64 = 30_000_000_000_000;

/// Gas budget for forwarding the purchased token to the depositor.
pub const GAS_FOR_NFT_TRANSFER: u64 = 30_000_000_000_000;

/// An instruction to transfer an amount of native currency to an account.
#[derive(Debug)]
pub struct Transfer {
    pub receiver_id: AccountId,
    pub amount: u128,
}

/// The purchase call shaped for one marketplace protocol.
///
/// Paras takes the target and an explicit optional currency and price;
/// Mintbase takes only the target, the price being implied entirely by the
/// attached value. Both attach the price as native-currency value.
#[derive(Debug)]
pub enum MarketplaceCall {
    ParasBuy {
        marketplace_contract_id: AccountId,
        nft_contract_id: AccountId,
        token_id: TokenId,
        ft_token_id: Option<AccountId>,
        price: Option<u128>,
        attached_deposit: u128,
        gas: u64,
    },
    MintbaseBuy {
        marketplace_contract_id: AccountId,
        nft_contract_id: AccountId,
        token_id: TokenId,
        attached_deposit: u128,
        gas: u64,
    },
}

/// The continuation payload of a dispatched purchase: the callback the host
/// must invoke on this contract once the marketplace call concludes.
#[derive(Debug)]
pub struct ResolveCallback {
    pub receiver_id: AccountId,
    pub marketplace_contract_id: AccountId,
    pub snipe_id: SnipeId,
    pub price: u128,
    pub token_id: TokenId,
    pub gas: u64,
}

/// A dispatched purchase: the outbound marketplace call and the resolution
/// callback chained behind it.
#[derive(Debug)]
pub struct PurchaseDispatch {
    pub call: MarketplaceCall,
    pub callback: ResolveCallback,
}

/// An instruction to forward the purchased token to the depositor, with the
/// one-unit authorization deposit attached.
#[derive(Debug)]
pub struct NftTransferCall {
    pub nft_contract_id: AccountId,
    pub receiver_id: AccountId,
    pub token_id: TokenId,
    pub approval_id: Option<u64>,
    pub memo: Option<String>,
    pub attached_deposit: u128,
    pub gas: u64,
}

} // verus!
