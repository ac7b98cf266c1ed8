use marketplace::{
    next_minimum_bid, portion_of, sales_breakdown, settlement_result, AccountId, AuctionItem,
    BidPlan, CodeHash, MarketplaceContract, MarketplaceError, SalesBreakdown,
};

fn account(b: u8) -> AccountId {
    AccountId([b; 32])
}

fn admin() -> AccountId {
    account(0x7)
}

fn fee_recipient() -> AccountId {
    AccountId([0x1; 32])
}

fn contract_address() -> AccountId {
    AccountId([0x2; 32])
}

fn market_address() -> AccountId {
    account(0x9)
}

fn seller() -> AccountId {
    account(0xA)
}

fn bidder_a() -> AccountId {
    account(0xB)
}

fn bidder_b() -> AccountId {
    account(0xC)
}

fn init_contract() -> MarketplaceContract {
    MarketplaceContract::new(fee_recipient(), admin())
}

fn with_collection() -> MarketplaceContract {
    let mut m = init_contract();
    m.add_collection(
        admin(),
        contract_address(),
        contract_address(),
        String::from("Test Collection"),
        String::from("TST"),
        String::from("https://ipfs.io/aaa"),
        150,
    )
    .unwrap();
    m
}

fn with_item() -> MarketplaceContract {
    let mut m = with_collection();
    m.create_market_item(seller(), contract_address(), 3).unwrap();
    m
}

fn with_auction(m: &mut MarketplaceContract, price: u128, min_bid: u128) {
    m.create_auction(seller(), contract_address(), 3, price, min_bid, 100, 0, true).unwrap();
}

fn item(m: &MarketplaceContract) -> AuctionItem {
    m.get_item(contract_address(), 3).unwrap()
}

#[test]
fn lib_new_works() {
    let marketplace = init_contract();
    assert_eq!(marketplace.get_marketplace_fee(), 100);
    assert_eq!(marketplace.get_fee_recipient(), fee_recipient());
}

#[test]
fn set_marketplacefees_works() {
    let mut marketplace = init_contract();
    assert_eq!(marketplace.get_marketplace_fee(), 100);
    assert!(marketplace.set_marketplace_fee(admin(), 200).is_ok());
    assert_eq!(marketplace.get_marketplace_fee(), 200);
}

#[test]
fn add_collection_works() {
    let mut marketplace = init_contract();
    assert_eq!(marketplace.get_collection_count(), 0);
    let name = String::from("Test Collection");
    let symbol = String::from("TST");
    let hash = String::from("https://ipfs.io/aaa");
    let royalty: u16 = 150;
    assert!(marketplace
        .add_collection(admin(), contract_address(), contract_address(), name, symbol, hash, royalty)
        .is_ok());
    assert_eq!(marketplace.get_collection_count(), 1);
}

#[test]
fn create_market_item_works() {
    let mut marketplace = with_collection();
    assert!(marketplace.create_market_item(admin(), contract_address(), 3).is_ok());
    assert_eq!(marketplace.get_all_market_items(), vec![(contract_address(), 3)]);
}

#[test]
fn create_get_multiple_market_item_works() {
    let mut marketplace = with_collection();
    assert!(marketplace.create_market_item(admin(), contract_address(), 3).is_ok());
    assert!(marketplace.create_market_item(admin(), contract_address(), 4).is_ok());
    assert_eq!(
        marketplace.get_all_market_items(),
        vec![(contract_address(), 3), (contract_address(), 4)]
    );
}

#[test]
fn set_get_contract_hash_works() {
    let mut marketplace = init_contract();
    let hash = CodeHash([1; 32]);
    assert!(marketplace.set_contract_hash(admin(), hash).is_ok());
    assert_eq!(marketplace.get_contract_hash(), hash);
}

#[test]
fn settings_are_for_the_administrator_only() {
    let mut m = init_contract();
    assert_eq!(m.set_marketplace_fee(seller(), 5), Err(MarketplaceError::NotAdministrator));
    assert_eq!(m.set_bid_increment(seller(), 5), Err(MarketplaceError::NotAdministrator));
    assert_eq!(m.set_contract_hash(seller(), CodeHash([1; 32])), Err(MarketplaceError::NotAdministrator));
    assert_eq!(m.get_marketplace_fee(), 100);
    assert_eq!(m.get_bid_increment(), 0);
    assert_eq!(m.get_contract_hash(), CodeHash([0; 32]));
}

#[test]
fn collection_registration_rules() {
    let mut m = init_contract();
    let refused = m.add_collection(
        seller(),
        contract_address(),
        bidder_a(),
        String::from("C"),
        String::from("C"),
        String::from("u"),
        10,
    );
    assert_eq!(refused, Err(MarketplaceError::NotTheOwner));
    assert!(m
        .add_collection(seller(), contract_address(), seller(), String::from("C"), String::from("S"), String::from("u"), 10)
        .is_ok());
    let c = m.get_collection(contract_address()).unwrap();
    assert_eq!(c.name, "C");
    assert_eq!(c.symbol, "S");
    assert_eq!(c.creator, Some(seller()));
    assert_eq!(c.royalty, 10);
    let again = m.add_collection(admin(), contract_address(), seller(), String::new(), String::new(), String::new(), 0);
    assert_eq!(again, Err(MarketplaceError::CollectionAlreadyExists));
    assert_eq!(m.get_collection_count(), 1);
    assert!(m.get_collection(bidder_a()).is_none());
}

#[test]
fn market_item_needs_registered_collection() {
    let mut m = init_contract();
    assert_eq!(
        m.create_market_item(seller(), contract_address(), 3),
        Err(MarketplaceError::CollectionNotRegisteredToMarketplace)
    );
    assert_eq!(m.get_item_count(), 0);
}

#[test]
fn second_creation_is_refused_and_keeps_the_item() {
    let mut m = with_item();
    let first = item(&m);
    assert_eq!(m.create_market_item(bidder_a(), contract_address(), 3), Err(MarketplaceError::TokenAlreadyExists));
    assert_eq!(item(&m), first);
    assert_eq!(item(&m).owner, seller());
    assert_eq!(m.get_item_count(), 1);
}

#[test]
fn new_item_is_neutral() {
    let m = with_item();
    let i = item(&m);
    assert!(!i.on_sale);
    assert_eq!(i.seller, None);
    assert_eq!(i.highest_bid, 0);
    assert_eq!(i.highest_bidder, None);
    assert_eq!(i.buy_price, 0);
}

#[test]
fn listing_refusals() {
    let mut m = with_item();
    assert_eq!(m.create_direct_sale(seller(), contract_address(), 9, 10, true), Err(MarketplaceError::TokenDoesNotExist));
    assert_eq!(m.create_direct_sale(bidder_a(), contract_address(), 3, 10, true), Err(MarketplaceError::NotTheOwner));
    assert_eq!(m.create_direct_sale(seller(), contract_address(), 3, 0, true), Err(MarketplaceError::IneligibleBuyPrice));
    assert_eq!(
        m.create_auction(seller(), contract_address(), 3, 10, 1, 0, 0, true),
        Err(MarketplaceError::IneligibleBidDuration)
    );
    assert_eq!(
        m.create_direct_sale(seller(), contract_address(), 3, 10, false),
        Err(MarketplaceError::TransferToContractFailed)
    );
    assert!(!item(&m).on_sale);
    assert_eq!(m.check_listing(seller(), contract_address(), 3, 10), Ok(()));
    m.create_direct_sale(seller(), contract_address(), 3, 10, true).unwrap();
    assert_eq!(m.create_direct_sale(seller(), contract_address(), 3, 10, true), Err(MarketplaceError::TokenAlreadyOnSale));
    assert_eq!(
        m.create_auction(seller(), contract_address(), 3, 10, 1, 5, 0, true),
        Err(MarketplaceError::TokenAlreadyOnSale)
    );
}

#[test]
fn direct_sale_splits_proceeds_and_moves_token() {
    let mut m = with_item();
    m.create_direct_sale(seller(), contract_address(), 3, 1000, true).unwrap();
    let listed = item(&m);
    assert!(listed.on_sale && listed.direct);
    assert_eq!(listed.buy_price, 1000);
    assert_eq!(listed.seller, Some(seller()));

    let plan = m.plan_direct_purchase(bidder_a(), 1000, contract_address(), 3, Some(market_address())).unwrap();
    assert_eq!(plan.market_fees, 10);
    assert_eq!(plan.royalties, 15);
    assert_eq!(plan.seller_share, 975);
    assert_eq!(plan.buyer, bidder_a());
    assert_eq!(plan.seller, seller());
    assert_eq!(plan.fee_recipient, fee_recipient());
    assert_eq!(plan.creator, admin());
    assert_eq!(plan.seller_share + plan.royalties + plan.market_fees, 1000);

    assert_eq!(settlement_result(true, true, true, true), Ok(()));
    m.set_auction_end(contract_address(), 3, Some(bidder_a())).unwrap();
    let after = item(&m);
    assert_eq!(after.owner, bidder_a());
    assert!(!after.on_sale);
    assert_eq!(after.seller, None);
    assert_eq!(after.buy_price, 0);
}

#[test]
fn direct_purchase_refusals() {
    let mut m = with_item();
    assert_eq!(
        m.plan_direct_purchase(bidder_a(), 10, contract_address(), 3, Some(market_address())),
        Err(MarketplaceError::TokenNotForSale)
    );
    m.create_direct_sale(seller(), contract_address(), 3, 1000, true).unwrap();
    assert_eq!(
        m.plan_direct_purchase(bidder_a(), 999, contract_address(), 3, Some(market_address())),
        Err(MarketplaceError::IneligibleBuyPrice)
    );
    assert_eq!(
        m.plan_direct_purchase(bidder_a(), 1000, contract_address(), 3, None),
        Err(MarketplaceError::TokenDoesNotExist)
    );
    assert_eq!(
        m.plan_direct_purchase(bidder_a(), 1000, contract_address(), 3, Some(bidder_a())),
        Err(MarketplaceError::NotAuthorized)
    );
    assert_eq!(
        m.plan_direct_purchase(bidder_a(), 1000, contract_address(), 4, Some(market_address())),
        Err(MarketplaceError::TokenDoesNotExist)
    );
    let mut a = with_item();
    with_auction(&mut a, 1000, 10);
    assert_eq!(
        a.plan_direct_purchase(bidder_a(), 1000, contract_address(), 3, Some(market_address())),
        Err(MarketplaceError::TokenNotForDirectSale)
    );
}

#[test]
fn fees_beyond_the_price_are_refused() {
    let mut m = with_item();
    m.set_marketplace_fee(admin(), 9900).unwrap();
    m.create_direct_sale(seller(), contract_address(), 3, 1000, true).unwrap();
    assert_eq!(
        m.plan_direct_purchase(bidder_a(), 1000, contract_address(), 3, Some(market_address())),
        Err(MarketplaceError::FeesExceedPrice)
    );
}

#[test]
fn settlement_failures_in_order() {
    assert_eq!(settlement_result(false, false, false, false), Err(MarketplaceError::TransferToContractFailed));
    assert_eq!(settlement_result(true, false, false, false), Err(MarketplaceError::TransferToOwnerFailed));
    assert_eq!(settlement_result(true, true, false, false), Err(MarketplaceError::MarketplaceFeeTransferFailed));
    assert_eq!(settlement_result(true, true, true, false), Err(MarketplaceError::RoyaltiesTransferFailed));
}

#[test]
fn bids_raise_the_minimum_and_refund_the_outbid() {
    let mut m = with_item();
    m.set_bid_increment(admin(), 1000).unwrap();
    with_auction(&mut m, 10_000, 100);
    assert_eq!(item(&m).next_min_bid, 100);
    assert_eq!(item(&m).bid_end_time, 100);

    let plan_a = m.plan_bid(bidder_a(), 100, 10, contract_address(), 3, Some(market_address())).unwrap();
    assert_eq!(plan_a, BidPlan { refund: None, sale: None });
    m.record_bid(bidder_a(), 100, 10, contract_address(), 3, false).unwrap();
    assert_eq!(item(&m).next_min_bid, 110);
    assert_eq!(item(&m).highest_bidder, Some(bidder_a()));

    let plan_b = m.plan_bid(bidder_b(), 150, 20, contract_address(), 3, Some(market_address())).unwrap();
    assert_eq!(plan_b.refund, Some((bidder_a(), 100)));
    assert_eq!(plan_b.sale, None);
    m.record_bid(bidder_b(), 150, 20, contract_address(), 3, true).unwrap();
    assert_eq!(item(&m).next_min_bid, 165);
    assert_eq!(item(&m).highest_bid, 150);
    assert_eq!(item(&m).highest_bidder, Some(bidder_b()));
}

#[test]
fn minimum_bid_never_falls() {
    let mut m = with_item();
    m.set_bid_increment(admin(), 500).unwrap();
    with_auction(&mut m, 1_000_000, 50);
    let mut last = item(&m).next_min_bid;
    let bids = [50u128, 53, 56, 100, 105];
    for (n, b) in bids.iter().enumerate() {
        let who = if n % 2 == 0 { bidder_a() } else { bidder_b() };
        m.record_bid(who, *b, 1, contract_address(), 3, true).unwrap();
        let next = item(&m).next_min_bid;
        assert!(next >= last);
        last = next;
    }
    assert_eq!(last, 110);
    assert_eq!(
        m.plan_bid(bidder_a(), 109, 1, contract_address(), 3, Some(market_address())),
        Err(MarketplaceError::MinimumBidNotMet)
    );
}

#[test]
fn unrefunded_bid_is_not_recorded() {
    let mut m = with_item();
    with_auction(&mut m, 10_000, 100);
    m.record_bid(bidder_a(), 100, 1, contract_address(), 3, false).unwrap();
    let before = item(&m);
    assert_eq!(
        m.record_bid(bidder_b(), 200, 2, contract_address(), 3, false),
        Err(MarketplaceError::TransferToBidderFailed)
    );
    assert_eq!(item(&m), before);
}

#[test]
fn buy_now_bid_plans_the_sale() {
    let mut m = with_item();
    with_auction(&mut m, 500, 100);
    m.record_bid(bidder_a(), 120, 1, contract_address(), 3, false).unwrap();
    let plan = m.plan_bid(bidder_b(), 600, 2, contract_address(), 3, Some(market_address())).unwrap();
    assert_eq!(plan.refund, Some((bidder_a(), 120)));
    let sale = plan.sale.unwrap();
    assert_eq!(sale.price, 600);
    assert_eq!(sale.buyer, bidder_b());
    assert_eq!(sale.market_fees, 6);
    assert_eq!(sale.royalties, 9);
    assert_eq!(sale.seller_share, 585);
    m.record_bid(bidder_b(), 600, 2, contract_address(), 3, true).unwrap();
    m.set_auction_end(contract_address(), 3, Some(bidder_b())).unwrap();
    let after = item(&m);
    assert_eq!(after, AuctionItem::neutral(bidder_b()));
}

#[test]
fn bidding_ends_and_settlement_starts_at_end_time() {
    let mut m = with_item();
    with_auction(&mut m, 10_000, 100);
    assert_eq!(
        m.plan_bid(bidder_a(), 200, 100, contract_address(), 3, Some(market_address())),
        Err(MarketplaceError::AuctionExpired)
    );
    assert_eq!(
        m.record_bid(bidder_a(), 200, 150, contract_address(), 3, true),
        Err(MarketplaceError::AuctionExpired)
    );
    m.record_bid(bidder_a(), 200, 99, contract_address(), 3, true).unwrap();
    assert_eq!(
        m.plan_auction_settlement(99, contract_address(), 3, Some(market_address())),
        Err(MarketplaceError::AuctionOngoing)
    );
    let plan = m.plan_auction_settlement(100, contract_address(), 3, Some(market_address())).unwrap();
    assert_eq!(plan.buyer, bidder_a());
    assert_eq!(plan.price, 200);
    assert_eq!(plan.seller, seller());
    assert_eq!(plan.market_fees, 2);
    assert_eq!(plan.royalties, 3);
    assert_eq!(plan.seller_share, 195);
}

#[test]
fn settlement_refusals() {
    let mut m = with_item();
    assert_eq!(
        m.plan_auction_settlement(5, contract_address(), 3, Some(market_address())),
        Err(MarketplaceError::TokenOnlyForDirectSale)
    );
    with_auction(&mut m, 10_000, 100);
    assert_eq!(
        m.plan_auction_settlement(100, contract_address(), 3, Some(market_address())),
        Err(MarketplaceError::NoValidBids)
    );
    let mut d = with_item();
    d.create_direct_sale(seller(), contract_address(), 3, 10, true).unwrap();
    assert_eq!(
        d.plan_auction_settlement(100, contract_address(), 3, Some(market_address())),
        Err(MarketplaceError::TokenOnlyForDirectSale)
    );
    assert_eq!(
        d.plan_bid(bidder_a(), 10, 0, contract_address(), 3, Some(market_address())),
        Err(MarketplaceError::AuctionExpired)
    );
    let idle = with_item();
    assert_eq!(
        idle.plan_bid(bidder_a(), 10, 0, contract_address(), 3, Some(market_address())),
        Err(MarketplaceError::TokenNotForSale)
    );
}

#[test]
fn auction_with_bids_cannot_be_withdrawn() {
    let mut m = with_item();
    with_auction(&mut m, 10_000, 100);
    m.record_bid(bidder_a(), 100, 1, contract_address(), 3, false).unwrap();
    assert_eq!(
        m.withdraw_auction(seller(), contract_address(), 3, true, Some(seller())),
        Err(MarketplaceError::MinimumBidAlreadyMet)
    );
    assert!(item(&m).on_sale);
}

#[test]
fn withdrawal_rules() {
    let mut m = with_item();
    assert_eq!(m.check_withdrawal(seller(), contract_address(), 3), Err(MarketplaceError::NotTheOwner));
    with_auction(&mut m, 10_000, 100);
    assert_eq!(m.check_withdrawal(bidder_a(), contract_address(), 3), Err(MarketplaceError::NotTheOwner));
    assert_eq!(
        m.withdraw_auction(seller(), contract_address(), 3, false, None),
        Err(MarketplaceError::TransferToOwnerFailed)
    );
    assert!(item(&m).on_sale);
    m.withdraw_auction(seller(), contract_address(), 3, true, Some(seller())).unwrap();
    assert_eq!(item(&m), AuctionItem::neutral(seller()));

    m.create_direct_sale(seller(), contract_address(), 3, 10, true).unwrap();
    assert_eq!(m.check_withdrawal(seller(), contract_address(), 3), Ok(()));
    m.withdraw_auction(seller(), contract_address(), 3, true, Some(seller())).unwrap();
    assert!(!item(&m).on_sale);
    assert_eq!(m.set_auction_end(contract_address(), 3, None), Err(MarketplaceError::TokenDoesNotExist));
}

#[test]
fn proceeds_are_conserved() {
    assert_eq!(
        sales_breakdown(999, 100, 150),
        Some(SalesBreakdown { seller_share: 976, royalties: 14, market_fees: 9 })
    );
    assert_eq!(
        sales_breakdown(1000, 100, 150),
        Some(SalesBreakdown { seller_share: 975, royalties: 15, market_fees: 10 })
    );
    assert_eq!(sales_breakdown(0, 100, 150), Some(SalesBreakdown { seller_share: 0, royalties: 0, market_fees: 0 }));
    assert_eq!(sales_breakdown(100, 6000, 5000), None);
    let b = sales_breakdown(u128::MAX, 10000, 0).unwrap();
    assert_eq!(b.market_fees, u128::MAX);
    assert_eq!(b.seller_share, 0);
}

#[test]
fn portions_and_bid_steps() {
    assert_eq!(portion_of(1000, 150), Some(15));
    assert_eq!(portion_of(12345, 1), Some(1));
    assert_eq!(portion_of(u128::MAX, 10000), Some(u128::MAX));
    assert_eq!(portion_of(u128::MAX, 20000), None);
    assert_eq!(next_minimum_bid(100, 1000), 110);
    assert_eq!(next_minimum_bid(150, 1000), 165);
    assert_eq!(next_minimum_bid(9, 1000), 9);
    assert_eq!(next_minimum_bid(u128::MAX, 1), u128::MAX);
}

#[test]
fn deployment_needs_a_template() {
    let mut m = init_contract();
    assert_eq!(m.prepare_collection_deployment(account(7)), Err(MarketplaceError::ContractHashNotSet));
    assert_eq!(
        m.create_collection(account(7), Some(contract_address()), String::from("N"), String::from("S"), String::from("u"), 5),
        Err(MarketplaceError::ContractHashNotSet)
    );
    m.set_contract_hash(admin(), CodeHash([3; 32])).unwrap();
    assert_eq!(
        m.create_collection(account(7), None, String::from("N"), String::from("S"), String::from("u"), 5),
        Err(MarketplaceError::TokenInstantiationFailed)
    );
    assert_eq!(
        m.create_collection(account(7), Some(contract_address()), String::from("N"), String::from("S"), String::from("u"), 5),
        Ok(contract_address())
    );
    assert_eq!(m.get_collection_count(), 1);
    assert_eq!(m.get_collection(contract_address()).unwrap().creator, Some(account(7)));
    assert_eq!(
        m.create_collection(account(7), Some(contract_address()), String::new(), String::new(), String::new(), 5),
        Err(MarketplaceError::CollectionAlreadyExists)
    );
}

#[test]
fn deployment_salt_is_the_blake2_digest_prefix() {
    let mut m = init_contract();
    m.set_contract_hash(admin(), CodeHash([3; 32])).unwrap();
    let plan = m.prepare_collection_deployment(account(1)).unwrap();
    assert_eq!(plan.code_hash, CodeHash([3; 32]));
    assert_eq!(plan.salt, [225, 103, 107, 252]);
    let plan7 = m.prepare_collection_deployment(account(7)).unwrap();
    assert_eq!(plan7.salt, [218, 80, 218, 33]);
    m.create_collection(account(7), Some(contract_address()), String::new(), String::new(), String::new(), 0).unwrap();
    let next = m.prepare_collection_deployment(account(7)).unwrap();
    assert_eq!(next.salt, [4, 152, 237, 3]);
    assert_eq!(m.plan_collection_deployment([9; 32]).unwrap().salt, [9, 9, 9, 9]);
}

#[test]
fn call_guard_refuses_reentry() {
    let mut m = with_item();
    assert_eq!(m.enter_call(), Ok(()));
    assert_eq!(m.enter_call(), Err(MarketplaceError::ReentrantCall));
    m.leave_call();
    assert_eq!(m.enter_call(), Ok(()));
    m.leave_call();
    assert_eq!(item(&m), AuctionItem::neutral(seller()));
}

#[test]
fn auction_check_matches_listing_rules() {
    let m = with_item();
    assert_eq!(m.check_auction(seller(), contract_address(), 3, 10, 5), Ok(()));
    assert_eq!(m.check_auction(seller(), contract_address(), 3, 10, 0), Err(MarketplaceError::IneligibleBidDuration));
    assert_eq!(m.check_auction(bidder_a(), contract_address(), 3, 10, 5), Err(MarketplaceError::NotTheOwner));
    assert_eq!(m.check_auction(seller(), contract_address(), 3, 0, 5), Err(MarketplaceError::IneligibleBuyPrice));
}
