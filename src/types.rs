use vstd::prelude::*;
use crate::account::AccountId;

verus! {

/// Why a marketplace operation was refused.
#[derive(Clone, Copy, Debug, PartialEq, Eq)]
pub enum MarketplaceError {
    /// The caller is not the marketplace administrator.
    NotAdministrator,
    TokenDoesNotExist,
    TokenAlreadyExists,
    TokenAlreadyOnSale,
    NotTheOwner,
    MinimumBidNotMet,
    IneligibleBidDuration,
    IneligibleBuyPrice,
    TokenNotForSale,
    AuctionExpired,
    AuctionOngoing,
    NoValidBids,
    NotAuthorized,
    TokenNotForDirectSale,
    TokenOnlyForDirectSale,
    IncorrectBuyPrice,
    TransferToBidderFailed,
    TransferToOwnerFailed,
    TransferToContractFailed,
    MarketplaceFeeTransferFailed,
    RoyaltiesTransferFailed,
    ContractHashNotSet,
    TokenInstantiationFailed,
    MinimumBidAlreadyMet,
    CollectionAlreadyExists,
    CollectionNotRegisteredToMarketplace,
    /// A call arrived while another was under way.
    ReentrantCall,
    /// The marketplace fee and the royalty together exceed the sale price.
    FeesExceedPrice,
}

/// The sale or auction state of one token.
#[derive(Clone, Copy, Debug, PartialEq, Eq)]
pub struct AuctionItem {
    pub owner: AccountId,
    pub buy_price: u128,
    pub seller: Option<AccountId>,
    pub highest_bid: u128,
    pub highest_bidder: Option<AccountId>,
    pub min_bid: u128,
    pub next_min_bid: u128,
    pub bid_end_time: u64,
    pub on_sale: bool,
    pub direct: bool,
}

/// The neutral record of a token held by `owner`: not listed, no bids.
pub open spec fn neutral_item(owner: AccountId) -> AuctionItem {
    AuctionItem {
        owner,
        buy_price: 0,
        seller: None,
        highest_bid: 0,
        highest_bidder: None,
        min_bid: 0,
        next_min_bid: 0,
        bid_end_time: 0,
        on_sale: false,
        direct: false,
    }
}

/// An item that is not listed carries no seller, bid or price.
pub open spec fn neutral_when_idle(item: AuctionItem) -> bool {
    !item.on_sale ==> {
        &&& item.seller is None
        &&& item.highest_bid == 0
        &&& item.highest_bidder is None
        &&& item.buy_price == 0
    }
}

/// An auction's next minimum bid never falls below its opening minimum.
pub open spec fn auction_floor_kept(item: AuctionItem) -> bool {
    (item.on_sale && !item.direct) ==> item.next_min_bid >= item.min_bid
}

/// The invariant every stored item keeps.
pub open spec fn item_wf(item: AuctionItem) -> bool {
    neutral_when_idle(item) && auction_floor_kept(item)
}

impl AuctionItem {
    /// The neutral record of a token held by `owner`.
    pub fn neutral(owner: AccountId) -> (r: AuctionItem)
        ensures
            r == neutral_item(owner),
    {
        AuctionItem {
            owner,
            buy_price: 0,
            seller: None,
            highest_bid: 0,
            highest_bidder: None,
            min_bid: 0,
            next_min_bid: 0,
            bid_end_time: 0,
            on_sale: false,
            direct: false,
        }
    }
}

/// A registered collection and its sale terms.
#[derive(Clone, Debug, PartialEq, Eq)]
pub struct Collection {
    pub name: String,
    pub symbol: String,
    pub ipfs: String,
    pub creator: Option<AccountId>,
    /// Royalty rate, in parts per ten thousand.
    pub royalty: u16,
}

} // verus!
