use vstd::prelude::*;
use crate::account::{AccountId, CodeHash, same_account, is_unset_hash, unset};
use crate::rates::{breakdown_of, fees_fit, next_minimum_bid, sales_breakdown, capped, raised_bid, lemma_proceeds_conserved};
use crate::table::{keys_unique, table_map, lookup, lemma_table_at, lemma_table_update, lemma_table_push};
use crate::salt::{blake2_digest_of, salt_digest};
use crate::types::{AuctionItem, Collection, MarketplaceError, neutral_item, item_wf, neutral_when_idle};

verus! {

/// Marketplace fee charged by a new marketplace, in parts per ten thousand.
pub const DEFAULT_FEE: u16 = 100;

/// The key of a market item: its collection and its token id.
pub type ItemKey = (AccountId, u64);

/// The whole state of one marketplace: its settings, the collection
/// registry and the market items.
pub struct MarketplaceContract {
    admin: AccountId,
    fee: u16,
    fee_recipient: AccountId,
    bid_increment: u16,
    contract_hash: CodeHash,
    collection_count: u64,
    item_count: u64,
    collections: Vec<(AccountId, Collection)>,
    items: Vec<(ItemKey, AuctionItem)>,
    in_progress: bool,
}

/// `x + 1`, or `x` where it is the largest count.
pub open spec fn next_count(x: u64) -> u64 {
    if x == u64::MAX {
        x
    } else {
        (x + 1) as u64
    }
}

fn count_after(x: u64) -> (r: u64)
    ensures
        r == next_count(x),
{
    x.saturating_add(1)
}

impl MarketplaceContract {
    /// The administrator, who alone changes the settings.
    pub closed spec fn admin_spec(&self) -> AccountId {
        self.admin
    }

    /// Marketplace fee rate, in parts per ten thousand.
    pub closed spec fn fee_rate(&self) -> u16 {
        self.fee
    }

    /// Who receives the marketplace fee.
    pub closed spec fn fee_recipient_spec(&self) -> AccountId {
        self.fee_recipient
    }

    /// Rate by which each bid raises the next minimum bid, in parts per ten
    /// thousand of that bid.
    pub closed spec fn bid_increment_rate(&self) -> u16 {
        self.bid_increment
    }

    /// Code hash of the collection template used by the factory.
    pub closed spec fn contract_hash_spec(&self) -> CodeHash {
        self.contract_hash
    }

    pub closed spec fn collection_count_spec(&self) -> u64 {
        self.collection_count
    }

    pub closed spec fn item_count_spec(&self) -> u64 {
        self.item_count
    }

    /// Whether a call is under way, between `enter_call` and `leave_call`.
    pub closed spec fn call_in_progress(&self) -> bool {
        self.in_progress
    }

    /// The collection registry.
    pub closed spec fn collections_view(&self) -> Map<AccountId, Collection> {
        table_map(self.collections@)
    }

    /// The market items, by collection and token id.
    pub closed spec fn items_view(&self) -> Map<ItemKey, AuctionItem> {
        table_map(self.items@)
    }

    /// The keys of all market items, in order of creation.
    pub closed spec fn listed_keys(&self) -> Seq<ItemKey> {
        self.items@.map_values(|e: (ItemKey, AuctionItem)| e.0)
    }

    /// The state invariant: each key once; each item neutral when idle and
    /// with its auction floor kept; each item of a registered collection; each
    /// collection with a creator.
    pub closed spec fn wf(&self) -> bool {
        &&& keys_unique(self.collections@)
        &&& keys_unique(self.items@)
        &&& forall|k: ItemKey| #[trigger] self.items_view().contains_key(k) ==> {
            &&& item_wf(self.items_view()[k])
            &&& self.collections_view().contains_key(k.0)
        }
        &&& forall|a: AccountId| #[trigger] self.collections_view().contains_key(a)
            ==> self.collections_view()[a].creator is Some
    }

    /// The settings other than the counters, and the call guard, are those of
    /// `other`.
    pub open spec fn same_settings(&self, other: &Self) -> bool {
        &&& self.same_settings_but_guard(other)
        &&& self.call_in_progress() == other.call_in_progress()
    }

    /// The settings other than the counters and the call guard are those of
    /// `other`.
    pub open spec fn same_settings_but_guard(&self, other: &Self) -> bool {
        &&& self.admin_spec() == other.admin_spec()
        &&& self.fee_rate() == other.fee_rate()
        &&& self.fee_recipient_spec() == other.fee_recipient_spec()
        &&& self.bid_increment_rate() == other.bid_increment_rate()
        &&& self.contract_hash_spec() == other.contract_hash_spec()
    }

    /// The registry, the items and the counters are those of `other`.
    pub open spec fn same_contents_but_guard(&self, other: &Self) -> bool {
        &&& self.collections_view() == other.collections_view()
        &&& self.collection_count_spec() == other.collection_count_spec()
        &&& self.item_count_spec() == other.item_count_spec()
        &&& self.listed_keys() == other.listed_keys()
        &&& self.items_view() == other.items_view()
    }

    /// The registry, the items, the counters and the call guard are those of
    /// `other`.
    pub open spec fn same_contents(&self, other: &Self) -> bool {
        &&& self.same_contents_but_guard(other)
        &&& self.call_in_progress() == other.call_in_progress()
    }

    /// `self` is `other` with the item at `k` replaced by `item`.
    pub open spec fn with_item(&self, other: &Self, k: ItemKey, item: AuctionItem) -> bool {
        &&& self.same_settings(other)
        &&& self.collections_view() == other.collections_view()
        &&& self.collection_count_spec() == other.collection_count_spec()
        &&& self.item_count_spec() == other.item_count_spec()
        &&& self.listed_keys() == other.listed_keys()
        &&& self.items_view() == other.items_view().insert(k, item)
    }

    /// A new marketplace administered by `caller`, with the default fee, no
    /// bid increment, no template, and nothing registered.
    pub fn new(market_fee_recipient: AccountId, caller: AccountId) -> (r: Self)
        ensures
            r.wf(),
            r.admin_spec() == caller,
            r.fee_rate() == DEFAULT_FEE,
            r.fee_recipient_spec() == market_fee_recipient,
            r.bid_increment_rate() == 0,
            unset(r.contract_hash_spec()),
            r.collection_count_spec() == 0,
            r.item_count_spec() == 0,
            r.collections_view() == Map::<AccountId, Collection>::empty(),
            r.items_view() == Map::<ItemKey, AuctionItem>::empty(),
            r.listed_keys() == Seq::<ItemKey>::empty(),
            !r.call_in_progress(),
    {
        let r = MarketplaceContract {
            admin: caller,
            fee: DEFAULT_FEE,
            fee_recipient: market_fee_recipient,
            bid_increment: 0,
            contract_hash: CodeHash([0u8; 32]),
            collection_count: 0,
            item_count: 0,
            collections: Vec::new(),
            items: Vec::new(),
            in_progress: false,
        };
        assert(r.collections_view() =~= Map::<AccountId, Collection>::empty());
        assert(r.items_view() =~= Map::<ItemKey, AuctionItem>::empty());
        assert(r.listed_keys() =~= Seq::<ItemKey>::empty());
        r
    }

    /// Marks a call as under way; refused while another one is, so that no
    /// call re-enters the marketplace while its transfers are in flight.
    pub fn enter_call(&mut self) -> (r: Result<(), MarketplaceError>)
        requires
            old(self).wf(),
        ensures
            final(self).wf(),
            r == if old(self).call_in_progress() {
                Err(MarketplaceError::ReentrantCall)
            } else {
                Ok(())
            },
            final(self).call_in_progress(),
            final(self).same_contents_but_guard(old(self)),
            final(self).same_settings_but_guard(old(self)),
    {
        if self.in_progress {
            return Err(MarketplaceError::ReentrantCall);
        }
        let ghost pre = *self;
        self.in_progress = true;
        assert(self.items_view() == pre.items_view());
        assert(self.collections_view() == pre.collections_view());
        Ok(())
    }

    /// Marks the call under way as finished, whatever its outcome.
    pub fn leave_call(&mut self)
        requires
            old(self).wf(),
        ensures
            final(self).wf(),
            !final(self).call_in_progress(),
            final(self).same_contents_but_guard(old(self)),
            final(self).same_settings_but_guard(old(self)),
    {
        let ghost pre = *self;
        self.in_progress = false;
        assert(self.items_view() == pre.items_view());
        assert(self.collections_view() == pre.collections_view());
    }

    pub fn get_admin(&self) -> (r: AccountId)
        ensures
            r == self.admin_spec(),
    {
        self.admin
    }

    pub fn get_marketplace_fee(&self) -> (r: u16)
        ensures
            r == self.fee_rate(),
    {
        self.fee
    }

    pub fn get_fee_recipient(&self) -> (r: AccountId)
        ensures
            r == self.fee_recipient_spec(),
    {
        self.fee_recipient
    }

    pub fn get_bid_increment(&self) -> (r: u16)
        ensures
            r == self.bid_increment_rate(),
    {
        self.bid_increment
    }

    pub fn get_contract_hash(&self) -> (r: CodeHash)
        ensures
            r == self.contract_hash_spec(),
    {
        self.contract_hash
    }

    pub fn get_collection_count(&self) -> (r: u64)
        ensures
            r == self.collection_count_spec(),
    {
        self.collection_count
    }

    pub fn get_item_count(&self) -> (r: u64)
        ensures
            r == self.item_count_spec(),
    {
        self.item_count
    }

    /// Sets the marketplace fee rate; only the administrator may.
    pub fn set_marketplace_fee(&mut self, caller: AccountId, fee: u16) -> (r: Result<(), MarketplaceError>)
        requires
            old(self).wf(),
        ensures
            final(self).wf(),
            r is Err <==> caller != old(self).admin_spec(),
            r is Err ==> r == Err::<(), MarketplaceError>(MarketplaceError::NotAdministrator)
                && *final(self) == *old(self),
            r is Ok ==> {
                &&& final(self).same_contents(old(self))
                &&& final(self).fee_rate() == fee
                &&& final(self).admin_spec() == old(self).admin_spec()
                &&& final(self).fee_recipient_spec() == old(self).fee_recipient_spec()
                &&& final(self).bid_increment_rate() == old(self).bid_increment_rate()
                &&& final(self).contract_hash_spec() == old(self).contract_hash_spec()
            },
    {
        if !same_account(&caller, &self.admin) {
            return Err(MarketplaceError::NotAdministrator);
        }
        let ghost pre = *self;
        self.fee = fee;
        assert(self.items_view() == pre.items_view());
        assert(self.collections_view() == pre.collections_view());
        Ok(())
    }

    /// Sets the rate by which each bid raises the next minimum bid; only the
    /// administrator may.
    pub fn set_bid_increment(&mut self, caller: AccountId, rate: u16) -> (r: Result<(), MarketplaceError>)
        requires
            old(self).wf(),
        ensures
            final(self).wf(),
            r is Err <==> caller != old(self).admin_spec(),
            r is Err ==> r == Err::<(), MarketplaceError>(MarketplaceError::NotAdministrator)
                && *final(self) == *old(self),
            r is Ok ==> {
                &&& final(self).same_contents(old(self))
                &&& final(self).bid_increment_rate() == rate
                &&& final(self).admin_spec() == old(self).admin_spec()
                &&& final(self).fee_rate() == old(self).fee_rate()
                &&& final(self).fee_recipient_spec() == old(self).fee_recipient_spec()
                &&& final(self).contract_hash_spec() == old(self).contract_hash_spec()
            },
    {
        if !same_account(&caller, &self.admin) {
            return Err(MarketplaceError::NotAdministrator);
        }
        let ghost pre = *self;
        self.bid_increment = rate;
        assert(self.items_view() == pre.items_view());
        assert(self.collections_view() == pre.collections_view());
        Ok(())
    }

    /// Sets the code hash of the collection template; only the administrator
    /// may.
    pub fn set_contract_hash(&mut self, caller: AccountId, contract_hash: CodeHash) -> (r: Result<(), MarketplaceError>)
        requires
            old(self).wf(),
        ensures
            final(self).wf(),
            r is Err <==> caller != old(self).admin_spec(),
            r is Err ==> r == Err::<(), MarketplaceError>(MarketplaceError::NotAdministrator)
                && *final(self) == *old(self),
            r is Ok ==> {
                &&& final(self).same_contents(old(self))
                &&& final(self).contract_hash_spec() == contract_hash
                &&& final(self).admin_spec() == old(self).admin_spec()
                &&& final(self).fee_rate() == old(self).fee_rate()
                &&& final(self).fee_recipient_spec() == old(self).fee_recipient_spec()
                &&& final(self).bid_increment_rate() == old(self).bid_increment_rate()
            },
    {
        if !same_account(&caller, &self.admin) {
            return Err(MarketplaceError::NotAdministrator);
        }
        let ghost pre = *self;
        self.contract_hash = contract_hash;
        assert(self.items_view() == pre.items_view());
        assert(self.collections_view() == pre.collections_view());
        Ok(())
    }

    fn find_collection(&self, address: &AccountId) -> (r: Option<usize>)
        requires
            keys_unique(self.collections@),
        ensures
            match r {
                Some(i) => i < self.collections@.len() && self.collections@[i as int].0 == *address,
                None => !self.collections_view().contains_key(*address),
            },
    {
        let mut i: usize = 0;
        while i < self.collections.len()
            invariant
                0 <= i <= self.collections@.len(),
                forall|j: int| 0 <= j < i ==> self.collections@[j].0 != *address,
            decreases self.collections@.len() - i,
        {
            if same_account(&self.collections[i].0, address) {
                return Some(i);
            }
            i += 1;
        }
        None
    }

    fn find_item(&self, address: &AccountId, token_id: u64) -> (r: Option<usize>)
        requires
            keys_unique(self.items@),
        ensures
            match r {
                Some(i) => i < self.items@.len() && self.items@[i as int].0 == (*address, token_id),
                None => !self.items_view().contains_key((*address, token_id)),
            },
    {
        let mut i: usize = 0;
        while i < self.items.len()
            invariant
                0 <= i <= self.items@.len(),
                forall|j: int| 0 <= j < i ==> self.items@[j].0 != (*address, token_id),
            decreases self.items@.len() - i,
        {
            let key = &self.items[i].0;
            if same_account(&key.0, address) && key.1 == token_id {
                return Some(i);
            }
            i += 1;
        }
        None
    }

    /// The registered collection at `address`, if any.
    pub fn get_collection(&self, address: AccountId) -> (r: Option<Collection>)
        requires
            self.wf(),
        ensures
            r == lookup(self.collections_view(), address),
    {
        match self.find_collection(&address) {
            Some(i) => {
                proof {
                    lemma_table_at(self.collections@, i as int);
                }
                let c = &self.collections[i].1;
                Some(Collection {
                    name: c.name.clone(),
                    symbol: c.symbol.clone(),
                    ipfs: c.ipfs.clone(),
                    creator: c.creator,
                    royalty: c.royalty,
                })
            },
            None => None,
        }
    }

    /// The market item of token `token_id` of collection `address`, if any.
    pub fn get_item(&self, address: AccountId, token_id: u64) -> (r: Option<AuctionItem>)
        requires
            self.wf(),
        ensures
            r == lookup(self.items_view(), (address, token_id)),
    {
        match self.find_item(&address, token_id) {
            Some(i) => {
                proof {
                    lemma_table_at(self.items@, i as int);
                }
                Some(self.items[i].1)
            },
            None => None,
        }
    }

    /// The keys of all market items, in order of creation.
    pub fn get_all_market_items(&self) -> (r: Vec<ItemKey>)
        ensures
            r@ == self.listed_keys(),
    {
        let mut r: Vec<ItemKey> = Vec::new();
        let mut i: usize = 0;
        while i < self.items.len()
            invariant
                0 <= i <= self.items@.len(),
                r@ == self.items@.subrange(0, i as int).map_values(|e: (ItemKey, AuctionItem)| e.0),
            decreases self.items@.len() - i,
        {
            r.push(self.items[i].0);
            i += 1;
            assert(r@ =~= self.items@.subrange(0, i as int).map_values(|e: (ItemKey, AuctionItem)| e.0));
        }
        assert(self.items@.subrange(0, i as int) =~= self.items@);
        r
    }

    /// The refusal, if any, of registering `address` by `caller`, where
    /// `collection_owner` is the owner that the collection contract reports.
    pub open spec fn add_collection_refusal(
        &self,
        caller: AccountId,
        address: AccountId,
        collection_owner: AccountId,
    ) -> Option<MarketplaceError> {
        if caller != self.admin_spec() && caller != collection_owner {
            Some(MarketplaceError::NotTheOwner)
        } else if self.collections_view().contains_key(address) {
            Some(MarketplaceError::CollectionAlreadyExists)
        } else {
            None
        }
    }

    fn insert_collection(&mut self, address: AccountId, record: Collection)
        requires
            old(self).wf(),
            !old(self).collections_view().contains_key(address),
            record.creator is Some,
        ensures
            final(self).wf(),
            final(self).same_settings(old(self)),
            final(self).collections_view() == old(self).collections_view().insert(address, record),
            final(self).collection_count_spec() == next_count(old(self).collection_count_spec()),
            final(self).item_count_spec() == old(self).item_count_spec(),
            final(self).items_view() == old(self).items_view(),
            final(self).listed_keys() == old(self).listed_keys(),
    {
        proof {
            lemma_table_push(self.collections@, address, record);
        }
        let ghost pre = *self;
        self.collections.push((address, record));
        self.collection_count = count_after(self.collection_count);
        assert(self.items_view() == pre.items_view());
        assert forall|k: ItemKey| #[trigger] self.items_view().contains_key(k) implies self.collections_view().contains_key(k.0) by {
            assert(pre.items_view().contains_key(k));
        }
        assert forall|a: AccountId| #[trigger] self.collections_view().contains_key(a)
            implies self.collections_view()[a].creator is Some by {
            if a != address {
                assert(pre.collections_view().contains_key(a));
            }
        }
    }

    /// Registers the existing collection contract at `address`. The caller
    /// must be the administrator or `collection_owner`, the owner that the
    /// collection contract reports; the caller is recorded as its creator.
    pub fn add_collection(
        &mut self,
        caller: AccountId,
        address: AccountId,
        collection_owner: AccountId,
        name: String,
        symbol: String,
        ipfs: String,
        royalty: u16,
    ) -> (r: Result<(), MarketplaceError>)
        requires
            old(self).wf(),
        ensures
            final(self).wf(),
            r == match old(self).add_collection_refusal(caller, address, collection_owner) {
                Some(e) => Err(e),
                None => Ok(()),
            },
            r is Err ==> *final(self) == *old(self),
            r is Ok ==> {
                &&& final(self).same_settings(old(self))
                &&& final(self).collections_view() == old(self).collections_view().insert(
                    address,
                    Collection { name, symbol, ipfs, creator: Some(caller), royalty },
                )
                &&& final(self).collection_count_spec() == next_count(old(self).collection_count_spec())
                &&& final(self).item_count_spec() == old(self).item_count_spec()
                &&& final(self).items_view() == old(self).items_view()
                &&& final(self).listed_keys() == old(self).listed_keys()
            },
    {
        if !same_account(&caller, &self.admin) && !same_account(&caller, &collection_owner) {
            return Err(MarketplaceError::NotTheOwner);
        }
        if self.find_collection(&address).is_some() {
            return Err(MarketplaceError::CollectionAlreadyExists);
        }
        self.insert_collection(address, Collection { name, symbol, ipfs, creator: Some(caller), royalty });
        Ok(())
    }

    /// Derives the deployment of a new collection contract from `digest`,
    /// the digest of the deployer and the next collection count: the template's
    /// code hash and the digest's first four bytes as salt.
    pub fn plan_collection_deployment(&self, digest: [u8; 32]) -> (r: Result<DeploymentPlan, MarketplaceError>)
        ensures
            r is Err <==> unset(self.contract_hash_spec()),
            r is Err ==> r == Err::<DeploymentPlan, MarketplaceError>(MarketplaceError::ContractHashNotSet),
            r is Ok ==> r->Ok_0.code_hash == self.contract_hash_spec() && r->Ok_0.salt@ == digest@.subrange(0, 4),
    {
        if is_unset_hash(&self.contract_hash) {
            return Err(MarketplaceError::ContractHashNotSet);
        }
        let salt: [u8; 4] = [digest[0], digest[1], digest[2], digest[3]];
        assert(salt@ =~= digest@.subrange(0, 4));
        Ok(DeploymentPlan { code_hash: self.contract_hash, salt })
    }

    /// Plans the deployment of a new collection contract by `caller`, salted
    /// with the Blake2x256 digest of `caller` and the next collection count, so
    /// that no two deployments collide.
    pub fn prepare_collection_deployment(&self, caller: AccountId) -> (r: Result<DeploymentPlan, MarketplaceError>)
        ensures
            r is Err <==> unset(self.contract_hash_spec()),
            r is Err ==> r == Err::<DeploymentPlan, MarketplaceError>(MarketplaceError::ContractHashNotSet),
            r is Ok ==> r->Ok_0.code_hash == self.contract_hash_spec() && r->Ok_0.salt@ == blake2_digest_of(
                caller.0@,
                next_count(self.collection_count_spec()),
            ).subrange(0, 4),
    {
        let digest = salt_digest(&caller.0, count_after(self.collection_count));
        self.plan_collection_deployment(digest)
    }

    /// The refusal, if any, of registering a collection deployed from the
    /// template, where `deployed` is the new contract's address, if the
    /// deployment succeeded.
    pub open spec fn create_collection_refusal(&self, deployed: Option<AccountId>) -> Option<MarketplaceError> {
        if unset(self.contract_hash_spec()) {
            Some(MarketplaceError::ContractHashNotSet)
        } else {
            match deployed {
                None => Some(MarketplaceError::TokenInstantiationFailed),
                Some(a) => if self.collections_view().contains_key(a) {
                    Some(MarketplaceError::CollectionAlreadyExists)
                } else {
                    None
                },
            }
        }
    }

    /// Registers the collection contract that `caller` deployed from the
    /// template, at the address `deployed` (`None` where the deployment
    /// failed), with `caller` as its creator, and returns that address.
    pub fn create_collection(
        &mut self,
        caller: AccountId,
        deployed: Option<AccountId>,
        name: String,
        symbol: String,
        ipfs: String,
        royalty: u16,
    ) -> (r: Result<AccountId, MarketplaceError>)
        requires
            old(self).wf(),
        ensures
            final(self).wf(),
            r == match old(self).create_collection_refusal(deployed) {
                Some(e) => Err(e),
                None => Ok(deployed->Some_0),
            },
            r is Err ==> *final(self) == *old(self),
            r is Ok ==> {
                &&& final(self).same_settings(old(self))
                &&& final(self).collections_view() == old(self).collections_view().insert(
                    deployed->Some_0,
                    Collection { name, symbol, ipfs, creator: Some(caller), royalty },
                )
                &&& final(self).collection_count_spec() == next_count(old(self).collection_count_spec())
                &&& final(self).item_count_spec() == old(self).item_count_spec()
                &&& final(self).items_view() == old(self).items_view()
                &&& final(self).listed_keys() == old(self).listed_keys()
            },
    {
        if is_unset_hash(&self.contract_hash) {
            return Err(MarketplaceError::ContractHashNotSet);
        }
        let address = match deployed {
            Some(a) => a,
            None => return Err(MarketplaceError::TokenInstantiationFailed),
        };
        if self.find_collection(&address).is_some() {
            return Err(MarketplaceError::CollectionAlreadyExists);
        }
        self.insert_collection(address, Collection { name, symbol, ipfs, creator: Some(caller), royalty });
        Ok(address)
    }

    /// The refusal, if any, of creating the market item `k` by `caller`.
    pub open spec fn market_item_refusal(&self, k: ItemKey) -> Option<MarketplaceError> {
        if !self.collections_view().contains_key(k.0) {
            Some(MarketplaceError::CollectionNotRegisteredToMarketplace)
        } else if self.items_view().contains_key(k) {
            Some(MarketplaceError::TokenAlreadyExists)
        } else {
            None
        }
    }

    /// Creates the neutral market item of token `token_id` of the registered
    /// collection `address`, owned by `caller`; an item is created once.
    pub fn create_market_item(&mut self, caller: AccountId, address: AccountId, token_id: u64) -> (r: Result<(), MarketplaceError>)
        requires
            old(self).wf(),
        ensures
            final(self).wf(),
            r == match old(self).market_item_refusal((address, token_id)) {
                Some(e) => Err(e),
                None => Ok(()),
            },
            r is Err ==> *final(self) == *old(self),
            r is Ok ==> {
                &&& final(self).same_settings(old(self))
                &&& final(self).collections_view() == old(self).collections_view()
                &&& final(self).collection_count_spec() == old(self).collection_count_spec()
                &&& final(self).item_count_spec() == next_count(old(self).item_count_spec())
                &&& final(self).items_view() == old(self).items_view().insert((address, token_id), neutral_item(caller))
                &&& final(self).listed_keys() == old(self).listed_keys().push((address, token_id))
            },
    {
        if self.find_collection(&address).is_none() {
            return Err(MarketplaceError::CollectionNotRegisteredToMarketplace);
        }
        if self.find_item(&address, token_id).is_some() {
            return Err(MarketplaceError::TokenAlreadyExists);
        }
        let item = AuctionItem::neutral(caller);
        proof {
            lemma_table_push(self.items@, (address, token_id), item);
        }
        let ghost before = self.items@;
        self.items.push(((address, token_id), item));
        self.item_count = count_after(self.item_count);
        assert(self.items@.map_values(|e: (ItemKey, AuctionItem)| e.0) =~= before.map_values(
            |e: (ItemKey, AuctionItem)| e.0,
        ).push((address, token_id)));
        Ok(())
    }

    /// Replaces the item at position `i`, keeping its key.
    fn replace_item(&mut self, i: usize, item: AuctionItem)
        requires
            old(self).wf(),
            i < old(self).items@.len(),
            item_wf(item),
        ensures
            final(self).wf(),
            final(self).with_item(old(self), old(self).items@[i as int].0, item),
    {
        let ghost pre = *self;
        let key = self.items[i].0;
        proof {
            lemma_table_update(self.items@, i as int, item);
            lemma_table_at(self.items@, i as int);
        }
        self.items.set(i, (key, item));
        assert(self.listed_keys() =~= pre.listed_keys());
        assert forall|k: ItemKey| #[trigger] self.items_view().contains_key(k) implies {
            &&& item_wf(self.items_view()[k])
            &&& self.collections_view().contains_key(k.0)
        } by {
            assert(pre.items_view().contains_key(k));
        }
    }

    /// The refusal, if any, of listing item `k` by `caller` at `price`.
    pub open spec fn listing_refusal(&self, caller: AccountId, k: ItemKey, price: u128) -> Option<MarketplaceError> {
        if !self.items_view().contains_key(k) {
            Some(MarketplaceError::TokenDoesNotExist)
        } else if self.items_view()[k].owner != caller {
            Some(MarketplaceError::NotTheOwner)
        } else if self.items_view()[k].on_sale {
            Some(MarketplaceError::TokenAlreadyOnSale)
        } else if price == 0 {
            Some(MarketplaceError::IneligibleBuyPrice)
        } else {
            None
        }
    }

    /// The refusal, if any, of opening an auction of item `k` by `caller`.
    pub open spec fn auction_refusal(&self, caller: AccountId, k: ItemKey, price: u128, duration: u64) -> Option<MarketplaceError> {
        match self.listing_refusal(caller, k, price) {
            Some(e) => Some(e),
            None => if duration == 0 {
                Some(MarketplaceError::IneligibleBidDuration)
            } else {
                None
            },
        }
    }

    /// Checks a listing of item `(address, token_id)` by `caller` at `price`,
    /// before the token is moved into the marketplace's custody.
    pub fn check_listing(&self, caller: AccountId, address: AccountId, token_id: u64, price: u128) -> (r: Result<(), MarketplaceError>)
        requires
            self.wf(),
        ensures
            r == match self.listing_refusal(caller, (address, token_id), price) {
                Some(e) => Err(e),
                None => Ok(()),
            },
    {
        match self.locate_listing(caller, address, token_id, price) {
            Ok(_) => Ok(()),
            Err(e) => Err(e),
        }
    }

    /// Checks an auction of item `(address, token_id)` by `caller`, before
    /// the token is moved into the marketplace's custody.
    pub fn check_auction(
        &self,
        caller: AccountId,
        address: AccountId,
        token_id: u64,
        price: u128,
        duration: u64,
    ) -> (r: Result<(), MarketplaceError>)
        requires
            self.wf(),
        ensures
            r == match self.auction_refusal(caller, (address, token_id), price, duration) {
                Some(e) => Err(e),
                None => Ok(()),
            },
    {
        match self.locate_listing(caller, address, token_id, price) {
            Ok(_) => if duration == 0 {
                Err(MarketplaceError::IneligibleBidDuration)
            } else {
                Ok(())
            },
            Err(e) => Err(e),
        }
    }

    fn locate_listing(&self, caller: AccountId, address: AccountId, token_id: u64, price: u128) -> (r: Result<usize, MarketplaceError>)
        requires
            self.wf(),
        ensures
            match self.listing_refusal(caller, (address, token_id), price) {
                Some(e) => r == Err::<usize, MarketplaceError>(e),
                None => r is Ok,
            },
            r matches Ok(i) ==> i < self.items@.len() && self.items@[i as int].0 == (address, token_id),
    {
        match self.find_item(&address, token_id) {
            None => Err(MarketplaceError::TokenDoesNotExist),
            Some(i) => {
                proof {
                    lemma_table_at(self.items@, i as int);
                }
                let item = &self.items[i].1;
                if !same_account(&item.owner, &caller) {
                    Err(MarketplaceError::NotTheOwner)
                } else if item.on_sale {
                    Err(MarketplaceError::TokenAlreadyOnSale)
                } else if price == 0 {
                    Err(MarketplaceError::IneligibleBuyPrice)
                } else {
                    Ok(i)
                }
            },
        }
    }

    /// Lists item `(address, token_id)` for direct sale at `price`.
    /// `custody_taken` tells whether the token collection moved the token into
    /// the marketplace's custody; only then does the item change.
    pub fn create_direct_sale(
        &mut self,
        caller: AccountId,
        address: AccountId,
        token_id: u64,
        price: u128,
        custody_taken: bool,
    ) -> (r: Result<(), MarketplaceError>)
        requires
            old(self).wf(),
        ensures
            final(self).wf(),
            r == match old(self).listing_refusal(caller, (address, token_id), price) {
                Some(e) => Err(e),
                None => if custody_taken {
                    Ok(())
                } else {
                    Err(MarketplaceError::TransferToContractFailed)
                },
            },
            r is Err ==> *final(self) == *old(self),
            r is Ok ==> final(self).with_item(
                old(self),
                (address, token_id),
                AuctionItem {
                    buy_price: price,
                    seller: Some(caller),
                    on_sale: true,
                    direct: true,
                    ..old(self).items_view()[(address, token_id)]
                },
            ),
    {
        let i = match self.locate_listing(caller, address, token_id, price) {
            Ok(i) => i,
            Err(e) => return Err(e),
        };
        if !custody_taken {
            return Err(MarketplaceError::TransferToContractFailed);
        }
        proof {
            lemma_table_at(self.items@, i as int);
        }
        let item = AuctionItem { buy_price: price, seller: Some(caller), on_sale: true, direct: true, ..self.items[i].1 };
        self.replace_item(i, item);
        Ok(())
    }

    /// Opens an auction of item `(address, token_id)` with buy-now price
    /// `price`, opening minimum `min_bid`, ending `duration` after `now` (at
    /// the latest time there is, where the sum exceeds it).
    /// `custody_taken` tells whether the token collection moved the token into
    /// the marketplace's custody; only then does the item change.
    pub fn create_auction(
        &mut self,
        caller: AccountId,
        address: AccountId,
        token_id: u64,
        price: u128,
        min_bid: u128,
        duration: u64,
        now: u64,
        custody_taken: bool,
    ) -> (r: Result<(), MarketplaceError>)
        requires
            old(self).wf(),
        ensures
            final(self).wf(),
            r == match old(self).auction_refusal(caller, (address, token_id), price, duration) {
                Some(e) => Err(e),
                None => if custody_taken {
                    Ok(())
                } else {
                    Err(MarketplaceError::TransferToContractFailed)
                },
            },
            r is Err ==> *final(self) == *old(self),
            r is Ok ==> final(self).with_item(
                old(self),
                (address, token_id),
                AuctionItem {
                    buy_price: price,
                    seller: Some(caller),
                    on_sale: true,
                    direct: false,
                    min_bid,
                    next_min_bid: min_bid,
                    bid_end_time: if now + duration > u64::MAX { u64::MAX } else { (now + duration) as u64 },
                    ..old(self).items_view()[(address, token_id)]
                },
            ),
    {
        let i = match self.locate_listing(caller, address, token_id, price) {
            Ok(i) => i,
            Err(e) => return Err(e),
        };
        if duration == 0 {
            return Err(MarketplaceError::IneligibleBidDuration);
        }
        if !custody_taken {
            return Err(MarketplaceError::TransferToContractFailed);
        }
        proof {
            lemma_table_at(self.items@, i as int);
        }
        let item = AuctionItem {
            buy_price: price,
            seller: Some(caller),
            on_sale: true,
            direct: false,
            min_bid,
            next_min_bid: min_bid,
            bid_end_time: now.saturating_add(duration),
            ..self.items[i].1
        };
        self.replace_item(i, item);
        Ok(())
    }

    /// Returns item `(address, token_id)` to the neutral state, held by
    /// `token_owner`, the owner that the token collection reports after the
    /// sale or withdrawal.
    pub fn set_auction_end(&mut self, address: AccountId, token_id: u64, token_owner: Option<AccountId>) -> (r: Result<(), MarketplaceError>)
        requires
            old(self).wf(),
        ensures
            final(self).wf(),
            r == if !old(self).items_view().contains_key((address, token_id)) || token_owner is None {
                Err(MarketplaceError::TokenDoesNotExist)
            } else {
                Ok(())
            },
            r is Err ==> *final(self) == *old(self),
            r is Ok ==> final(self).with_item(old(self), (address, token_id), neutral_item(token_owner->Some_0)),
    {
        let i = match self.find_item(&address, token_id) {
            Some(i) => i,
            None => return Err(MarketplaceError::TokenDoesNotExist),
        };
        let owner = match token_owner {
            Some(o) => o,
            None => return Err(MarketplaceError::TokenDoesNotExist),
        };
        proof {
            lemma_table_at(self.items@, i as int);
        }
        self.replace_item(i, AuctionItem::neutral(owner));
        Ok(())
    }

    /// The refusal, if any, of withdrawing item `k` by `caller`.
    pub open spec fn withdrawal_refusal(&self, caller: AccountId, k: ItemKey) -> Option<MarketplaceError> {
        if !self.items_view().contains_key(k) {
            Some(MarketplaceError::TokenDoesNotExist)
        } else if self.items_view()[k].seller != Some(caller) {
            Some(MarketplaceError::NotTheOwner)
        } else if !self.items_view()[k].on_sale {
            Some(MarketplaceError::TokenNotForSale)
        } else if !self.items_view()[k].direct && self.items_view()[k].highest_bidder is Some {
            Some(MarketplaceError::MinimumBidAlreadyMet)
        } else {
            None
        }
    }

    /// Checks a withdrawal of item `(address, token_id)` by `caller`, before
    /// the token is handed back.
    pub fn check_withdrawal(&self, caller: AccountId, address: AccountId, token_id: u64) -> (r: Result<(), MarketplaceError>)
        requires
            self.wf(),
        ensures
            r == match self.withdrawal_refusal(caller, (address, token_id)) {
                Some(e) => Err(e),
                None => Ok(()),
            },
    {
        match self.find_item(&address, token_id) {
            None => Err(MarketplaceError::TokenDoesNotExist),
            Some(i) => {
                proof {
                    lemma_table_at(self.items@, i as int);
                }
                let item = &self.items[i].1;
                let seller_is_caller = match item.seller {
                    Some(s) => same_account(&s, &caller),
                    None => false,
                };
                if !seller_is_caller {
                    Err(MarketplaceError::NotTheOwner)
                } else if !item.on_sale {
                    Err(MarketplaceError::TokenNotForSale)
                } else if !item.direct && item.highest_bidder.is_some() {
                    Err(MarketplaceError::MinimumBidAlreadyMet)
                } else {
                    Ok(())
                }
            },
        }
    }

    /// Withdraws item `(address, token_id)` from sale or auction.
    /// `custody_returned` tells whether the token collection handed the token
    /// back to the caller, and `token_owner` is the owner it then reports.
    pub fn withdraw_auction(
        &mut self,
        caller: AccountId,
        address: AccountId,
        token_id: u64,
        custody_returned: bool,
        token_owner: Option<AccountId>,
    ) -> (r: Result<(), MarketplaceError>)
        requires
            old(self).wf(),
        ensures
            final(self).wf(),
            r == match old(self).withdrawal_refusal(caller, (address, token_id)) {
                Some(e) => Err(e),
                None => if !custody_returned {
                    Err(MarketplaceError::TransferToOwnerFailed)
                } else if token_owner is None {
                    Err(MarketplaceError::TokenDoesNotExist)
                } else {
                    Ok(())
                },
            },
            r is Err ==> *final(self) == *old(self),
            r is Ok ==> final(self).with_item(old(self), (address, token_id), neutral_item(token_owner->Some_0)),
    {
        match self.check_withdrawal(caller, address, token_id) {
            Ok(()) => {},
            Err(e) => return Err(e),
        }
        if !custody_returned {
            return Err(MarketplaceError::TransferToOwnerFailed);
        }
        self.set_auction_end(address, token_id, token_owner)
    }

    /// The payouts of a sale of item `k` to `buyer` at `price`: the seller's
    /// share to the item's owner of record, the fee to the fee recipient, the
    /// royalty to the collection's creator.
    pub open spec fn sale_plan_of(&self, k: ItemKey, buyer: AccountId, price: u128) -> SalePlan {
        let collection = self.collections_view()[k.0];
        let b = breakdown_of(price as int, self.fee_rate() as int, collection.royalty as int);
        SalePlan {
            buyer,
            price,
            seller: self.items_view()[k].owner,
            seller_share: b.seller_share,
            fee_recipient: self.fee_recipient_spec(),
            market_fees: b.market_fees,
            creator: collection.creator->Some_0,
            royalties: b.royalties,
        }
    }

    /// The refusal, if any, of selling item `k` to `buyer` at `price`, where
    /// `recorded_owner` is the token's owner as the token collection reports it.
    pub open spec fn settlement_refusal(
        &self,
        k: ItemKey,
        buyer: AccountId,
        price: u128,
        recorded_owner: Option<AccountId>,
    ) -> Option<MarketplaceError> {
        match recorded_owner {
            None => Some(MarketplaceError::TokenDoesNotExist),
            Some(o) => if o == buyer {
                Some(MarketplaceError::NotAuthorized)
            } else if !fees_fit(price as int, self.fee_rate() as int, self.collections_view()[k.0].royalty as int) {
                Some(MarketplaceError::FeesExceedPrice)
            } else {
                None
            },
        }
    }

    fn plan_sale(&self, i: usize, buyer: AccountId, price: u128, recorded_owner: Option<AccountId>) -> (r: Result<SalePlan, MarketplaceError>)
        requires
            self.wf(),
            i < self.items@.len(),
        ensures
            r == match self.settlement_refusal(self.items@[i as int].0, buyer, price, recorded_owner) {
                Some(e) => Err(e),
                None => Ok(self.sale_plan_of(self.items@[i as int].0, buyer, price)),
            },
    {
        proof {
            lemma_table_at(self.items@, i as int);
        }
        let key = self.items[i].0;
        match recorded_owner {
            None => return Err(MarketplaceError::TokenDoesNotExist),
            Some(o) => if same_account(&o, &buyer) {
                return Err(MarketplaceError::NotAuthorized);
            },
        }
        let j = match self.find_collection(&key.0) {
            Some(j) => j,
            None => return Err(MarketplaceError::CollectionNotRegisteredToMarketplace),
        };
        proof {
            lemma_table_at(self.collections@, j as int);
        }
        let collection = &self.collections[j].1;
        let creator = match collection.creator {
            Some(c) => c,
            None => return Err(MarketplaceError::CollectionNotRegisteredToMarketplace),
        };
        match sales_breakdown(price, self.fee, collection.royalty) {
            None => Err(MarketplaceError::FeesExceedPrice),
            Some(b) => Ok(SalePlan {
                buyer,
                price,
                seller: self.items[i].1.owner,
                seller_share: b.seller_share,
                fee_recipient: self.fee_recipient,
                market_fees: b.market_fees,
                creator,
                royalties: b.royalties,
            }),
        }
    }

    /// The refusal, if any, of buying item `k` outright by `caller`, who pays
    /// `value`, before the sale itself is checked.
    pub open spec fn purchase_refusal(&self, k: ItemKey, value: u128) -> Option<MarketplaceError> {
        if !self.items_view().contains_key(k) {
            Some(MarketplaceError::TokenDoesNotExist)
        } else if !self.items_view()[k].on_sale {
            Some(MarketplaceError::TokenNotForSale)
        } else if !self.items_view()[k].direct {
            Some(MarketplaceError::TokenNotForDirectSale)
        } else if value != self.items_view()[k].buy_price {
            Some(MarketplaceError::IneligibleBuyPrice)
        } else {
            None
        }
    }

    /// Plans the purchase of item `(address, token_id)` listed for direct
    /// sale, by `caller` paying `value`; `recorded_owner` is the token's owner
    /// as the token collection reports it. Once the plan's transfers are done,
    /// `set_auction_end` returns the item to the neutral state.
    pub fn plan_direct_purchase(
        &self,
        caller: AccountId,
        value: u128,
        address: AccountId,
        token_id: u64,
        recorded_owner: Option<AccountId>,
    ) -> (r: Result<SalePlan, MarketplaceError>)
        requires
            self.wf(),
        ensures
            r == match self.purchase_refusal((address, token_id), value) {
                Some(e) => Err(e),
                None => match self.settlement_refusal((address, token_id), caller, value, recorded_owner) {
                    Some(e) => Err(e),
                    None => Ok(self.sale_plan_of((address, token_id), caller, value)),
                },
            },
    {
        let i = match self.find_item(&address, token_id) {
            Some(i) => i,
            None => return Err(MarketplaceError::TokenDoesNotExist),
        };
        proof {
            lemma_table_at(self.items@, i as int);
        }
        let item = &self.items[i].1;
        if !item.on_sale {
            return Err(MarketplaceError::TokenNotForSale);
        }
        if !item.direct {
            return Err(MarketplaceError::TokenNotForDirectSale);
        }
        if value != item.buy_price {
            return Err(MarketplaceError::IneligibleBuyPrice);
        }
        self.plan_sale(i, caller, value, recorded_owner)
    }

    /// The refusal, if any, of a bid of `value` on item `k` at time `now`.
    pub open spec fn bid_refusal(&self, k: ItemKey, value: u128, now: u64) -> Option<MarketplaceError> {
        if !self.items_view().contains_key(k) {
            Some(MarketplaceError::TokenDoesNotExist)
        } else if !self.items_view()[k].on_sale {
            Some(MarketplaceError::TokenNotForSale)
        } else if now >= self.items_view()[k].bid_end_time {
            Some(MarketplaceError::AuctionExpired)
        } else if value < self.items_view()[k].next_min_bid {
            Some(MarketplaceError::MinimumBidNotMet)
        } else {
            None
        }
    }

    /// Plans a bid of `value` by `caller` on item `(address, token_id)` at
    /// time `now`: the refund owed to the bidder it outbids, and, where the
    /// bid reaches the buy-now price, the sale; `recorded_owner` is the
    /// token's owner as the token collection reports it. After the refund,
    /// `record_bid` records the bid; after a sale, `set_auction_end` follows.
    pub fn plan_bid(
        &self,
        caller: AccountId,
        value: u128,
        now: u64,
        address: AccountId,
        token_id: u64,
        recorded_owner: Option<AccountId>,
    ) -> (r: Result<BidPlan, MarketplaceError>)
        requires
            self.wf(),
        ensures
            r == match self.bid_refusal((address, token_id), value, now) {
                Some(e) => Err(e),
                None => {
                    let item = self.items_view()[(address, token_id)];
                    if value >= item.buy_price {
                        match self.settlement_refusal((address, token_id), caller, value, recorded_owner) {
                            Some(e) => Err(e),
                            None => Ok(BidPlan {
                                refund: escrow_of(item),
                                sale: Some(self.sale_plan_of((address, token_id), caller, value)),
                            }),
                        }
                    } else {
                        Ok(BidPlan { refund: escrow_of(item), sale: None })
                    }
                },
            },
    {
        let i = match self.find_item(&address, token_id) {
            Some(i) => i,
            None => return Err(MarketplaceError::TokenDoesNotExist),
        };
        proof {
            lemma_table_at(self.items@, i as int);
        }
        let item = &self.items[i].1;
        if !item.on_sale {
            return Err(MarketplaceError::TokenNotForSale);
        }
        if now >= item.bid_end_time {
            return Err(MarketplaceError::AuctionExpired);
        }
        if value < item.next_min_bid {
            return Err(MarketplaceError::MinimumBidNotMet);
        }
        let refund = match item.highest_bidder {
            Some(b) => Some((b, item.highest_bid)),
            None => None,
        };
        if value >= item.buy_price {
            match self.plan_sale(i, caller, value, recorded_owner) {
                Ok(sale) => Ok(BidPlan { refund, sale: Some(sale) }),
                Err(e) => Err(e),
            }
        } else {
            Ok(BidPlan { refund, sale: None })
        }
    }

    /// Records a bid of `value` by `caller` on item `(address, token_id)` at
    /// time `now` as the highest, and raises the next minimum bid from it.
    /// `refund_made` tells whether the bidder it outbids was refunded; where
    /// one was owed and was not, nothing changes.
    pub fn record_bid(
        &mut self,
        caller: AccountId,
        value: u128,
        now: u64,
        address: AccountId,
        token_id: u64,
        refund_made: bool,
    ) -> (r: Result<(), MarketplaceError>)
        requires
            old(self).wf(),
        ensures
            final(self).wf(),
            r == match old(self).bid_refusal((address, token_id), value, now) {
                Some(e) => Err(e),
                None => if escrow_of(old(self).items_view()[(address, token_id)]) is Some && !refund_made {
                    Err(MarketplaceError::TransferToBidderFailed)
                } else {
                    Ok(())
                },
            },
            r is Err ==> *final(self) == *old(self),
            r is Ok ==> {
                let item = old(self).items_view()[(address, token_id)];
                &&& final(self).with_item(
                    old(self),
                    (address, token_id),
                    AuctionItem {
                        highest_bid: value,
                        highest_bidder: Some(caller),
                        next_min_bid: capped(raised_bid(value as int, old(self).bid_increment_rate() as int)) as u128,
                        ..item
                    },
                )
                &&& final(self).items_view()[(address, token_id)].next_min_bid >= item.next_min_bid
            },
    {
        let i = match self.find_item(&address, token_id) {
            Some(i) => i,
            None => return Err(MarketplaceError::TokenDoesNotExist),
        };
        proof {
            lemma_table_at(self.items@, i as int);
        }
        let item = self.items[i].1;
        if !item.on_sale {
            return Err(MarketplaceError::TokenNotForSale);
        }
        if now >= item.bid_end_time {
            return Err(MarketplaceError::AuctionExpired);
        }
        if value < item.next_min_bid {
            return Err(MarketplaceError::MinimumBidNotMet);
        }
        if item.highest_bidder.is_some() && !refund_made {
            return Err(MarketplaceError::TransferToBidderFailed);
        }
        let next = next_minimum_bid(value, self.bid_increment);
        let updated = AuctionItem { highest_bid: value, highest_bidder: Some(caller), next_min_bid: next, ..item };
        self.replace_item(i, updated);
        Ok(())
    }

    /// The refusal, if any, of settling the auction of item `k` at time
    /// `now`, where `recorded_owner` is the token's owner as the token
    /// collection reports it.
    pub open spec fn auction_settlement_refusal(
        &self,
        k: ItemKey,
        now: u64,
        recorded_owner: Option<AccountId>,
    ) -> Option<MarketplaceError> {
        if !self.items_view().contains_key(k) {
            Some(MarketplaceError::TokenDoesNotExist)
        } else if !self.items_view()[k].on_sale || self.items_view()[k].direct {
            Some(MarketplaceError::TokenOnlyForDirectSale)
        } else if now < self.items_view()[k].bid_end_time {
            Some(MarketplaceError::AuctionOngoing)
        } else if self.items_view()[k].highest_bidder is None {
            Some(MarketplaceError::NoValidBids)
        } else {
            let item = self.items_view()[k];
            self.settlement_refusal(k, item.highest_bidder->Some_0, item.highest_bid, recorded_owner)
        }
    }

    /// Plans the settlement of the ended auction of item `(address,
    /// token_id)` at time `now`: the token goes to the highest bidder, whose
    /// escrowed bid is divided. Once the plan's transfers are done,
    /// `set_auction_end` returns the item to the neutral state.
    pub fn plan_auction_settlement(
        &self,
        now: u64,
        address: AccountId,
        token_id: u64,
        recorded_owner: Option<AccountId>,
    ) -> (r: Result<SalePlan, MarketplaceError>)
        requires
            self.wf(),
        ensures
            r == match self.auction_settlement_refusal((address, token_id), now, recorded_owner) {
                Some(e) => Err(e),
                None => {
                    let item = self.items_view()[(address, token_id)];
                    Ok(self.sale_plan_of((address, token_id), item.highest_bidder->Some_0, item.highest_bid))
                },
            },
    {
        let i = match self.find_item(&address, token_id) {
            Some(i) => i,
            None => return Err(MarketplaceError::TokenDoesNotExist),
        };
        proof {
            lemma_table_at(self.items@, i as int);
        }
        let item = &self.items[i].1;
        if !item.on_sale || item.direct {
            return Err(MarketplaceError::TokenOnlyForDirectSale);
        }
        if now < item.bid_end_time {
            return Err(MarketplaceError::AuctionOngoing);
        }
        let bidder = match item.highest_bidder {
            Some(b) => b,
            None => return Err(MarketplaceError::NoValidBids),
        };
        self.plan_sale(i, bidder, item.highest_bid, recorded_owner)
    }
}

/// Every item that is not listed has no seller, no bid, no bidder and no price.
pub proof fn lemma_idle_items_are_neutral(m: MarketplaceContract, k: ItemKey)
    requires
        m.wf(),
        m.items_view().contains_key(k),
    ensures
        neutral_when_idle(m.items_view()[k]),
{
}

/// A market item is created once: once a creation of `k` has succeeded, a
/// second creation of `k` is refused with `TokenAlreadyExists`, and so leaves
/// the marketplace as it was.
pub proof fn lemma_second_creation_refused(first: MarketplaceContract, after: MarketplaceContract, caller: AccountId, k: ItemKey)
    requires
        first.wf(),
        first.market_item_refusal(k) is None,
        after.collections_view() == first.collections_view(),
        after.items_view() == first.items_view().insert(k, neutral_item(caller)),
    ensures
        after.market_item_refusal(k) == Some(MarketplaceError::TokenAlreadyExists),
{
}

/// Each accepted bid that stays below the buy-now price leaves the next
/// minimum bid at least where it was: it is raised from the new bid, which
/// met the old minimum.
pub proof fn lemma_minimum_bid_never_falls(previous_minimum: u128, bid: u128, increment_rate: u16)
    requires
        bid >= previous_minimum,
    ensures
        capped(raised_bid(bid as int, increment_rate as int)) >= previous_minimum,
{
    assert(raised_bid(bid as int, increment_rate as int) >= bid) by (nonlinear_arith)
        requires
            bid >= 0,
            increment_rate >= 0,
    ;
}

/// Every planned sale divides its price exactly: the seller's share, the
/// royalty and the marketplace fee add up to the price.
pub proof fn lemma_sale_plan_conserves_price(m: MarketplaceContract, k: ItemKey, buyer: AccountId, price: u128, recorded_owner: Option<AccountId>)
    requires
        m.wf(),
        m.items_view().contains_key(k),
        m.settlement_refusal(k, buyer, price, recorded_owner) is None,
    ensures
        ({
            let plan = m.sale_plan_of(k, buyer, price);
            &&& plan.seller_share + plan.royalties + plan.market_fees == price
            &&& plan.price == price
        }),
{
    lemma_proceeds_conserved(price, m.fee_rate(), m.collections_view()[k.0].royalty);
}

/// How to deploy a new collection contract: from the template with this code
/// hash, under this salt.
#[derive(Clone, Copy, Debug, PartialEq, Eq)]
pub struct DeploymentPlan {
    pub code_hash: CodeHash,
    pub salt: [u8; 4],
}

/// The bidder whose funds an item holds in escrow, and how much.
pub open spec fn escrow_of(item: AuctionItem) -> Option<(AccountId, u128)> {
    match item.highest_bidder {
        Some(b) => Some((b, item.highest_bid)),
        None => None,
    }
}

/// The transfers that settle one sale: the token to `buyer`, then the
/// seller's share, the marketplace fee and the royalty, in that order.
#[derive(Clone, Copy, Debug, PartialEq, Eq)]
pub struct SalePlan {
    pub buyer: AccountId,
    pub price: u128,
    pub seller: AccountId,
    pub seller_share: u128,
    pub fee_recipient: AccountId,
    pub market_fees: u128,
    pub creator: AccountId,
    pub royalties: u128,
}

/// What an accepted bid sets in motion: the refund of the bidder it outbids,
/// if any, and the sale, where it reaches the buy-now price.
#[derive(Clone, Copy, Debug, PartialEq, Eq)]
pub struct BidPlan {
    pub refund: Option<(AccountId, u128)>,
    pub sale: Option<SalePlan>,
}

/// The outcome of a sale's transfers, in the order they are made: the first
/// that failed decides the error.
pub fn settlement_result(token_moved: bool, seller_paid: bool, fee_paid: bool, royalty_paid: bool) -> (r: Result<(), MarketplaceError>)
    ensures
        r == if !token_moved {
            Err(MarketplaceError::TransferToContractFailed)
        } else if !seller_paid {
            Err(MarketplaceError::TransferToOwnerFailed)
        } else if !fee_paid {
            Err(MarketplaceError::MarketplaceFeeTransferFailed)
        } else if !royalty_paid {
            Err(MarketplaceError::RoyaltiesTransferFailed)
        } else {
            Ok(())
        },
{
    if !token_moved {
        Err(MarketplaceError::TransferToContractFailed)
    } else if !seller_paid {
        Err(MarketplaceError::TransferToOwnerFailed)
    } else if !fee_paid {
        Err(MarketplaceError::MarketplaceFeeTransferFailed)
    } else if !royalty_paid {
        Err(MarketplaceError::RoyaltiesTransferFailed)
    } else {
        Ok(())
    }
}

} // verus!
