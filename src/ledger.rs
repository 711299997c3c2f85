//! The asset ledger: records, owners, listing prices and the id counter,
//! with the five operations that change them.

use vstd::prelude::*;
use crate::balances::{AccountData, BalanceError, Balances, held, released, total_of};
use crate::genome::{mix_genomes, mixed_genome, random_genome, random_value};

verus! {

/// Identifier of an asset.
pub type KittyIndex = u32;

/// An asset: its 16-byte genome, fixed at creation.
#[derive(Clone, Copy, Debug, PartialEq, Eq)]
pub struct Kitty(pub [u8; 16]);

/// Why an operation was refused. A refused operation changes nothing.
#[derive(Clone, Copy, Debug, PartialEq, Eq, Structural)]
pub enum Error {
    /// The id counter is at its largest value.
    CounterOverflow,
    /// The free balance does not cover the deposit (and price).
    InsufficientFunds,
    /// No asset has this id.
    UnknownAsset,
    /// The caller does not own the asset.
    NotOwner,
    /// An asset cannot be transferred to its own owner.
    SelfTransferNotAllowed,
    /// An asset cannot be bred with itself.
    IdenticalParents,
    /// The caller already owns the asset.
    AlreadyOwned,
    /// The asset has no price.
    NotListedForSale,
    /// The payment to the seller was refused by the balance rules.
    TransferFailed,
}

/// What a successful operation records.
#[derive(Clone, Copy, Debug, PartialEq, Eq, Structural)]
pub enum Event {
    /// `Created(owner, id)`, by create and breed.
    Created(u64, KittyIndex),
    /// `Transferred(from, to, id)`.
    Transferred(u64, u64, KittyIndex),
    /// `Listed(owner, id, price)`; no price withdraws the asset from sale.
    Listed(u64, KittyIndex, Option<u128>),
    /// `SaleCompleted(buyer, id, price)`.
    SaleCompleted(u64, KittyIndex, u128),
}

/// The ledger state. Ids are handed out from 1 upwards; the asset with id
/// `k` is held at position `k - 1` of the three parallel vectors.
pub struct Pallet {
    kitties: Vec<Kitty>,
    owners: Vec<u64>,
    prices: Vec<Option<u128>>,
    count: Option<KittyIndex>,
    balances: Balances,
    reserve_unit: u128,
    events: Vec<Event>,
}

impl Pallet {
    /// Records, owners and prices line up, and the counter is one past the
    /// last id handed out (or unset while there is none).
    pub closed spec fn wf(self) -> bool {
        let n = self.kitties@.len();
        &&& self.owners@.len() == n
        &&& self.prices@.len() == n
        &&& n + 1 <= u32::MAX
        &&& if n == 0 { self.count is None } else { self.count == Some((n + 1) as u32) }
        &&& self.balances.wf()
    }

    /// The genome of asset `id`, if it exists.
    pub closed spec fn genome_of(self, id: KittyIndex) -> Option<Seq<u8>> {
        if 1 <= id <= self.kitties@.len() {
            Some(self.kitties@[id - 1].0@)
        } else {
            None
        }
    }

    /// The owner of asset `id`, if it has one.
    pub closed spec fn owner_of(self, id: KittyIndex) -> Option<u64> {
        if 1 <= id <= self.owners@.len() {
            Some(self.owners@[id - 1])
        } else {
            None
        }
    }

    /// The listing price of asset `id`, if it is for sale.
    pub closed spec fn price_of(self, id: KittyIndex) -> Option<u128> {
        if 1 <= id <= self.prices@.len() {
            self.prices@[id - 1]
        } else {
            None
        }
    }

    /// The id counter as stored: unset until the first asset is made.
    pub closed spec fn counter(self) -> Option<KittyIndex> {
        self.count
    }

    /// The balances that deposits and payments move.
    pub closed spec fn funds(self) -> Balances {
        self.balances
    }

    /// The deposit reserved for each asset held.
    pub closed spec fn unit(self) -> u128 {
        self.reserve_unit
    }

    /// The events recorded so far, oldest first.
    pub closed spec fn event_log(self) -> Seq<Event> {
        self.events@
    }

    /// The id that the next created or bred asset gets.
    pub open spec fn next_id(self) -> KittyIndex {
        match self.counter() {
            None => 1,
            Some(c) => c,
        }
    }

    /// The records are those of `s`.
    pub open spec fn same_records(self, s: Self) -> bool {
        &&& self.counter() == s.counter()
        &&& self.unit() == s.unit()
        &&& forall|k: KittyIndex| #[trigger] self.genome_of(k) == s.genome_of(k)
    }

    /// `t` is `s` with a new asset of genome `g` owned by `who`, under the
    /// next id, paid for by a deposit from `who`.
    pub open spec fn kitty_added(s: Self, t: Self, who: u64, g: Seq<u8>) -> bool {
        let id = s.next_id();
        &&& s.genome_of(id) is None
        &&& t.genome_of(id) == Some(g)
        &&& t.owner_of(id) == Some(who)
        &&& t.price_of(id) is None
        &&& t.counter() == Some((id + 1) as KittyIndex)
        &&& t.unit() == s.unit()
        &&& forall|k: KittyIndex| k != id ==> {
            &&& #[trigger] t.genome_of(k) == s.genome_of(k)
            &&& t.owner_of(k) == s.owner_of(k)
            &&& t.price_of(k) == s.price_of(k)
        }
        &&& t.funds().account(who) == held(s.funds().account(who), s.unit())
        &&& t.funds().same_except(s.funds(), who, who)
        &&& t.event_log() == s.event_log().push(Event::Created(who, id))
    }

    /// What `create` does from `s`: refused when the counter is exhausted,
    /// then when `who` cannot pay the deposit; otherwise a new asset with
    /// the drawn genome.
    pub open spec fn create_outcome(
        s: Self,
        t: Self,
        who: u64,
        seed: Seq<u8>,
        index: Option<u32>,
        r: Result<(), Error>,
    ) -> bool {
        if s.counter() == Some(u32::MAX) {
            r == Err::<(), Error>(Error::CounterOverflow) && t == s
        } else if s.funds().account(who).free < s.unit() {
            r == Err::<(), Error>(Error::InsufficientFunds) && t == s
        } else {
            r is Ok && Self::kitty_added(s, t, who, random_genome(seed, who, index))
        }
    }

    /// What `breed` does from `s`: refused for equal parents, then for a
    /// missing parent, an exhausted counter or a missing deposit; otherwise
    /// a new asset whose genome mixes the parents' under a drawn selector.
    pub open spec fn breed_outcome(
        s: Self,
        t: Self,
        who: u64,
        a: KittyIndex,
        b: KittyIndex,
        seed: Seq<u8>,
        index: Option<u32>,
        r: Result<(), Error>,
    ) -> bool {
        if a == b {
            r == Err::<(), Error>(Error::IdenticalParents) && t == s
        } else if s.genome_of(a) is None || s.genome_of(b) is None {
            r == Err::<(), Error>(Error::UnknownAsset) && t == s
        } else if s.counter() == Some(u32::MAX) {
            r == Err::<(), Error>(Error::CounterOverflow) && t == s
        } else if s.funds().account(who).free < s.unit() {
            r == Err::<(), Error>(Error::InsufficientFunds) && t == s
        } else {
            let g = mixed_genome(
                random_genome(seed, who, index),
                s.genome_of(a).unwrap(),
                s.genome_of(b).unwrap(),
            );
            r is Ok && Self::kitty_added(s, t, who, g)
        }
    }

    /// What `transfer` does from `s`: refused for an unknown asset, a caller
    /// that does not own it, a transfer to oneself, or a receiver that cannot
    /// pay the deposit; otherwise the receiver owns it and the deposit moves.
    /// A listing price stays as it was.
    pub open spec fn transfer_outcome(
        s: Self,
        t: Self,
        who: u64,
        to: u64,
        id: KittyIndex,
        r: Result<(), Error>,
    ) -> bool {
        if s.owner_of(id) is None {
            r == Err::<(), Error>(Error::UnknownAsset) && t == s
        } else if s.owner_of(id) != Some(who) {
            r == Err::<(), Error>(Error::NotOwner) && t == s
        } else if to == who {
            r == Err::<(), Error>(Error::SelfTransferNotAllowed) && t == s
        } else if s.funds().account(to).free < s.unit() {
            r == Err::<(), Error>(Error::InsufficientFunds) && t == s
        } else {
            &&& r is Ok
            &&& t.same_records(s)
            &&& t.owner_of(id) == Some(to)
            &&& forall|k: KittyIndex| k != id ==> #[trigger] t.owner_of(k) == s.owner_of(k)
            &&& forall|k: KittyIndex| #[trigger] t.price_of(k) == s.price_of(k)
            &&& t.funds().account(to) == held(s.funds().account(to), s.unit())
            &&& t.funds().account(who) == released(s.funds().account(who), s.unit())
            &&& t.funds().same_except(s.funds(), who, to)
            &&& t.event_log() == s.event_log().push(Event::Transferred(who, to, id))
        }
    }

    /// What `sale` does from `s`: refused unless `who` owns the asset;
    /// otherwise its price becomes `price`.
    pub open spec fn sale_outcome(
        s: Self,
        t: Self,
        who: u64,
        id: KittyIndex,
        price: Option<u128>,
        r: Result<(), Error>,
    ) -> bool {
        if s.owner_of(id) != Some(who) {
            r == Err::<(), Error>(Error::NotOwner) && t == s
        } else {
            &&& r is Ok
            &&& t.same_records(s)
            &&& forall|k: KittyIndex| #[trigger] t.owner_of(k) == s.owner_of(k)
            &&& t.price_of(id) == price
            &&& forall|k: KittyIndex| k != id ==> #[trigger] t.price_of(k) == s.price_of(k)
            &&& t.funds().same_as(s.funds())
            &&& t.event_log() == s.event_log().push(Event::Listed(who, id, price))
        }
    }

    /// Whether paying `price` is refused once the buyer holds the deposit
    /// (`buyer`) and the seller's deposit is freed (`seller`).
    pub open spec fn payment_refused(
        buyer: AccountData,
        seller: AccountData,
        price: u128,
        min_balance: u128,
    ) -> bool {
        ||| buyer.free < price
        ||| buyer.free - price < min_balance
        ||| total_of(seller) + price > u128::MAX
        ||| seller.free + price < min_balance
    }

    /// What `buy` does from `s`: refused when `who` already owns the asset,
    /// when it is unknown, not for sale, when `who` cannot cover deposit and
    /// price, or when the payment is refused; otherwise `who` owns it, the
    /// deposit moves from seller to buyer, the price goes to the seller and
    /// the listing is cleared.
    pub open spec fn buy_outcome(
        s: Self,
        t: Self,
        who: u64,
        id: KittyIndex,
        r: Result<(), Error>,
    ) -> bool {
        if s.owner_of(id) == Some(who) {
            r == Err::<(), Error>(Error::AlreadyOwned) && t == s
        } else if s.owner_of(id) is None {
            r == Err::<(), Error>(Error::UnknownAsset) && t == s
        } else if s.price_of(id) is None {
            r == Err::<(), Error>(Error::NotListedForSale) && t == s
        } else {
            let seller = s.owner_of(id).unwrap();
            let price = s.price_of(id).unwrap();
            let unit = s.unit();
            let b = s.funds().account(who);
            let mid_buyer = held(b, unit);
            let mid_seller = released(s.funds().account(seller), unit);
            if b.free < unit + price {
                r == Err::<(), Error>(Error::InsufficientFunds) && t == s
            } else if Self::payment_refused(mid_buyer, mid_seller, price, s.funds().min_balance_spec()) {
                r == Err::<(), Error>(Error::TransferFailed) && t == s
            } else {
                &&& r is Ok
                &&& t.same_records(s)
                &&& t.owner_of(id) == Some(who)
                &&& forall|k: KittyIndex| k != id ==> #[trigger] t.owner_of(k) == s.owner_of(k)
                &&& t.price_of(id) is None
                &&& forall|k: KittyIndex| k != id ==> #[trigger] t.price_of(k) == s.price_of(k)
                &&& t.funds().account(who) == (AccountData {
                    free: (mid_buyer.free - price) as u128,
                    reserved: mid_buyer.reserved,
                })
                &&& t.funds().account(seller) == (AccountData {
                    free: (mid_seller.free + price) as u128,
                    reserved: mid_seller.reserved,
                })
                &&& t.funds().same_except(s.funds(), who, seller)
                &&& t.event_log() == s.event_log().push(Event::SaleCompleted(who, id, price))
            }
        }
    }

    /// An empty ledger over `balances`, reserving `reserve_unit` per asset.
    pub fn new(balances: Balances, reserve_unit: u128) -> (r: Self)
        requires
            balances.wf(),
        ensures
            r.wf(),
            r.counter() is None,
            forall|k: KittyIndex| #[trigger] r.genome_of(k) is None,
            forall|k: KittyIndex| #[trigger] r.owner_of(k) is None,
            forall|k: KittyIndex| #[trigger] r.price_of(k) is None,
            r.funds() == balances,
            r.unit() == reserve_unit,
            r.event_log() == Seq::<Event>::empty(),
    {
        Pallet {
            kitties: Vec::new(),
            owners: Vec::new(),
            prices: Vec::new(),
            count: None,
            balances,
            reserve_unit,
            events: Vec::new(),
        }
    }

    /// The id for the next asset, or `CounterOverflow` where the counter is
    /// at its largest value.
    fn get_kitty_id(&self) -> (r: Result<KittyIndex, Error>)
        requires
            self.wf(),
        ensures
            self.counter() == Some(u32::MAX) ==> r == Err::<KittyIndex, Error>(Error::CounterOverflow),
            self.counter() != Some(u32::MAX) ==> r == Ok::<KittyIndex, Error>(self.next_id()),
    {
        match self.count {
            Some(id) => {
                if id == u32::MAX {
                    Err(Error::CounterOverflow)
                } else {
                    Ok(id)
                }
            },
            None => Ok(1),
        }
    }

    /// Stores a new asset under the next id, owned by `owner` and unlisted,
    /// and advances the counter.
    fn insert_kitty(&mut self, owner: u64, kitty_id: KittyIndex, dna: [u8; 16])
        requires
            old(self).wf(),
            old(self).counter() != Some(u32::MAX),
            kitty_id == old(self).next_id(),
        ensures
            final(self).wf(),
            final(self).genome_of(kitty_id) == Some(dna@),
            final(self).owner_of(kitty_id) == Some(owner),
            final(self).price_of(kitty_id) is None,
            final(self).counter() == Some((kitty_id + 1) as KittyIndex),
            forall|k: KittyIndex| k != kitty_id ==> {
                &&& #[trigger] final(self).genome_of(k) == old(self).genome_of(k)
                &&& final(self).owner_of(k) == old(self).owner_of(k)
                &&& final(self).price_of(k) == old(self).price_of(k)
            },
            final(self).balances == old(self).balances,
            final(self).reserve_unit == old(self).reserve_unit,
            final(self).events == old(self).events,
    {
        self.kitties.push(Kitty(dna));
        self.owners.push(owner);
        self.prices.push(None);
        self.count = Some(kitty_id + 1);
    }

    /// Stores a new asset for `who`, whose deposit is already held, and
    /// records its creation.
    fn add_kitty(&mut self, who: u64, kitty_id: KittyIndex, dna: [u8; 16])
        requires
            old(self).wf(),
            old(self).counter() != Some(u32::MAX),
            kitty_id == old(self).next_id(),
        ensures
            final(self).wf(),
            final(self).genome_of(kitty_id) == Some(dna@),
            final(self).owner_of(kitty_id) == Some(who),
            final(self).price_of(kitty_id) is None,
            final(self).counter() == Some((kitty_id + 1) as KittyIndex),
            forall|k: KittyIndex| k != kitty_id ==> {
                &&& #[trigger] final(self).genome_of(k) == old(self).genome_of(k)
                &&& final(self).owner_of(k) == old(self).owner_of(k)
                &&& final(self).price_of(k) == old(self).price_of(k)
            },
            final(self).balances == old(self).balances,
            final(self).reserve_unit == old(self).reserve_unit,
            final(self).events@ == old(self).events@.push(Event::Created(who, kitty_id)),
    {
        let ghost s0 = *self;
        self.insert_kitty(who, kitty_id, dna);
        let ghost s1 = *self;
        self.events.push(Event::Created(who, kitty_id));
        assert forall|k: KittyIndex| k != kitty_id implies {
            &&& #[trigger] self.genome_of(k) == s0.genome_of(k)
            &&& self.owner_of(k) == s0.owner_of(k)
            &&& self.price_of(k) == s0.price_of(k)
        } by {
            assert(s1.genome_of(k) == s0.genome_of(k));
        }
    }

    /// Creates an asset for `who`, with a genome drawn from the host's
    /// randomness `seed` and the index of this call in its transaction,
    /// against a deposit from `who`.
    pub fn create(&mut self, who: u64, seed: &[u8; 32], call_index: Option<u32>) -> (r: Result<(), Error>)
        requires
            old(self).wf(),
        ensures
            final(self).wf(),
            Self::create_outcome(*old(self), *final(self), who, seed@, call_index, r),
    {
        let kitty_id = match self.get_kitty_id() {
            Ok(id) => id,
            Err(e) => return Err(e),
        };
        let dna = random_value(seed, who, call_index);
        let reserved = self.balances.reserve(who, self.reserve_unit);
        if reserved.is_err() {
            return Err(Error::InsufficientFunds);
        }
        self.add_kitty(who, kitty_id, dna);
        Ok(())
    }

    /// Breeds a new asset for `who` from the distinct existing assets
    /// `kitty_id_1` and `kitty_id_2`: each bit of its genome comes from the
    /// first parent where a drawn selector has it set, else from the second.
    /// Anyone may breed any two assets; the deposit comes from `who`.
    pub fn breed(
        &mut self,
        who: u64,
        kitty_id_1: KittyIndex,
        kitty_id_2: KittyIndex,
        seed: &[u8; 32],
        call_index: Option<u32>,
    ) -> (r: Result<(), Error>)
        requires
            old(self).wf(),
        ensures
            final(self).wf(),
            Self::breed_outcome(*old(self), *final(self), who, kitty_id_1, kitty_id_2, seed@, call_index, r),
    {
        if kitty_id_1 == kitty_id_2 {
            return Err(Error::IdenticalParents);
        }
        let kitty1 = match self.kitties(kitty_id_1) {
            Some(k) => k,
            None => return Err(Error::UnknownAsset),
        };
        let kitty2 = match self.kitties(kitty_id_2) {
            Some(k) => k,
            None => return Err(Error::UnknownAsset),
        };
        let kitty_id = match self.get_kitty_id() {
            Ok(id) => id,
            Err(e) => return Err(e),
        };
        let selector = random_value(seed, who, call_index);
        let new_dna = mix_genomes(&selector, &kitty1.0, &kitty2.0);
        let reserved = self.balances.reserve(who, self.reserve_unit);
        if reserved.is_err() {
            return Err(Error::InsufficientFunds);
        }
        self.add_kitty(who, kitty_id, new_dna);
        Ok(())
    }

    /// The asset with id `kitty_id`, if it exists.
    pub fn kitties(&self, kitty_id: KittyIndex) -> (r: Option<Kitty>)
        requires
            self.wf(),
        ensures
            match r {
                Some(k) => self.genome_of(kitty_id) == Some(k.0@),
                None => self.genome_of(kitty_id) is None,
            },
    {
        if kitty_id >= 1 && (kitty_id as usize) <= self.kitties.len() {
            Some(self.kitties[kitty_id as usize - 1])
        } else {
            None
        }
    }
    /// The owner of asset `kitty_id`, if it exists.
    pub fn owner(&self, kitty_id: KittyIndex) -> (r: Option<u64>)
        requires
            self.wf(),
        ensures
            r == self.owner_of(kitty_id),
    {
        if kitty_id >= 1 && (kitty_id as usize) <= self.owners.len() {
            Some(self.owners[kitty_id as usize - 1])
        } else {
            None
        }
    }

    /// The listing price of asset `kitty_id`, if it is for sale.
    pub fn kitty_prices(&self, kitty_id: KittyIndex) -> (r: Option<u128>)
        requires
            self.wf(),
        ensures
            r == self.price_of(kitty_id),
    {
        if kitty_id >= 1 && (kitty_id as usize) <= self.prices.len() {
            self.prices[kitty_id as usize - 1]
        } else {
            None
        }
    }

    /// The id counter: unset until the first asset is made, then one past
    /// the last id handed out.
    pub fn kitties_count(&self) -> (r: Option<KittyIndex>)
        ensures
            r == self.counter(),
    {
        self.count
    }

    /// The balances that deposits and payments move.
    pub fn balances(&self) -> (r: &Balances)
        ensures
            *r == self.funds(),
    {
        &self.balances
    }

    /// The deposit reserved for each asset held.
    pub fn reserve_unit(&self) -> (r: u128)
        ensures
            r == self.unit(),
    {
        self.reserve_unit
    }

    /// The events recorded so far, oldest first.
    pub fn events(&self) -> (r: &Vec<Event>)
        ensures
            r@ == self.event_log(),
    {
        &self.events
    }

    /// Transfers asset `kitty_id` from its owner `who` to `new_owner`, who
    /// takes over the deposit. A listing price is left as it was.
    pub fn transfer(&mut self, who: u64, new_owner: u64, kitty_id: KittyIndex) -> (r: Result<(), Error>)
        requires
            old(self).wf(),
        ensures
            final(self).wf(),
            Self::transfer_outcome(*old(self), *final(self), who, new_owner, kitty_id, r),
    {
        let current = self.owner(kitty_id);
        if current.is_none() {
            return Err(Error::UnknownAsset);
        }
        if current != Some(who) {
            return Err(Error::NotOwner);
        }
        if new_owner == who {
            return Err(Error::SelfTransferNotAllowed);
        }
        let ghost s0 = *self;
        let reserved = self.balances.reserve(new_owner, self.reserve_unit);
        if reserved.is_err() {
            return Err(Error::InsufficientFunds);
        }
        self.balances.unreserve(who, self.reserve_unit);
        self.owners.set(kitty_id as usize - 1, new_owner);
        self.events.push(Event::Transferred(who, new_owner, kitty_id));
        assert forall|k: KittyIndex| #[trigger] self.genome_of(k) == s0.genome_of(k) by {}
        assert forall|k: KittyIndex| #[trigger] self.price_of(k) == s0.price_of(k) by {}
        Ok(())
    }

    /// Sets, replaces or (with `None`) clears the price of asset `kitty_id`,
    /// which `who` must own.
    pub fn sale(&mut self, who: u64, kitty_id: KittyIndex, new_price: Option<u128>) -> (r: Result<(), Error>)
        requires
            old(self).wf(),
        ensures
            final(self).wf(),
            Self::sale_outcome(*old(self), *final(self), who, kitty_id, new_price, r),
    {
        if self.owner(kitty_id) != Some(who) {
            return Err(Error::NotOwner);
        }
        let ghost s0 = *self;
        self.prices.set(kitty_id as usize - 1, new_price);
        self.events.push(Event::Listed(who, kitty_id, new_price));
        assert forall|k: KittyIndex| #[trigger] self.genome_of(k) == s0.genome_of(k) by {}
        assert forall|k: KittyIndex| #[trigger] self.owner_of(k) == s0.owner_of(k) by {}
        Ok(())
    }

    /// Buys the listed asset `kitty_id` for `who` at its price: `who` takes
    /// over the deposit, pays the price to the seller, and the listing is
    /// cleared. Either all of it happens or nothing does.
    pub fn buy(&mut self, who: u64, kitty_id: KittyIndex) -> (r: Result<(), Error>)
        requires
            old(self).wf(),
        ensures
            final(self).wf(),
            Self::buy_outcome(*old(self), *final(self), who, kitty_id, r),
    {
        let current = self.owner(kitty_id);
        if current == Some(who) {
            return Err(Error::AlreadyOwned);
        }
        let seller = match current {
            Some(o) => o,
            None => return Err(Error::UnknownAsset),
        };
        let price = match self.kitty_prices(kitty_id) {
            Some(p) => p,
            None => return Err(Error::NotListedForSale),
        };
        let unit = self.reserve_unit;
        if price > u128::MAX - unit || self.balances.free_balance(who) < unit + price {
            return Err(Error::InsufficientFunds);
        }
        let ghost b = self.balances.account(who);
        proof {
            self.balances.lemma_total_fits(who);
        }
        let mut staged = self.balances.snapshot();
        let reserved = staged.reserve(who, unit + price);
        if reserved.is_err() {
            return Err(Error::InsufficientFunds);
        }
        staged.unreserve(seller, unit);
        let ghost h = staged.account(who);
        assert(h == held(b, (unit + price) as u128));
        staged.unreserve(who, price);
        assert(staged.account(who) == held(self.balances.account(who), unit));
        let paid = staged.transfer(who, seller, price);
        if paid.is_err() {
            return Err(Error::TransferFailed);
        }
        let ghost s0 = *self;
        self.balances = staged;
        self.prices.set(kitty_id as usize - 1, None);
        self.owners.set(kitty_id as usize - 1, who);
        self.events.push(Event::SaleCompleted(who, kitty_id, price));
        assert forall|k: KittyIndex| #[trigger] self.genome_of(k) == s0.genome_of(k) by {}
        Ok(())
    }
}


/// Successive successful creations hand out strictly increasing ids, each
/// held by no asset before, and the earlier asset stays where it was.
pub proof fn created_ids_increase(
    s0: Pallet,
    s1: Pallet,
    s2: Pallet,
    who1: u64,
    who2: u64,
    seed1: Seq<u8>,
    seed2: Seq<u8>,
    index1: Option<u32>,
    index2: Option<u32>,
)
    requires
        s0.wf(),
        s1.wf(),
        Pallet::create_outcome(s0, s1, who1, seed1, index1, Ok(())),
        Pallet::create_outcome(s1, s2, who2, seed2, index2, Ok(())),
    ensures
        s0.next_id() < s1.next_id(),
        s0.genome_of(s0.next_id()) is None,
        s1.genome_of(s1.next_id()) is None,
        s2.genome_of(s0.next_id()) == s1.genome_of(s0.next_id()),
        s2.owner_of(s0.next_id()) == Some(who1),
        s2.owner_of(s1.next_id()) == Some(who2),
{
    assert(s1.next_id() == s0.next_id() + 1);
}

/// Every asset has exactly one owner, and only assets have owners.
pub proof fn every_asset_has_one_owner(s: Pallet)
    requires
        s.wf(),
    ensures
        forall|id: KittyIndex| (#[trigger] s.genome_of(id) is Some) <==> (s.owner_of(id) is Some),
{
}

/// Breeding an asset with itself is refused with `IdenticalParents` and
/// changes nothing.
pub proof fn identical_parents_refused(
    s: Pallet,
    t: Pallet,
    who: u64,
    id: KittyIndex,
    seed: Seq<u8>,
    index: Option<u32>,
    r: Result<(), Error>,
)
    requires
        Pallet::breed_outcome(s, t, who, id, id, seed, index, r),
    ensures
        r == Err::<(), Error>(Error::IdenticalParents),
        t == s,
{
}

/// Buying an asset with no price is refused and changes nothing; where the
/// asset has an owner other than the caller, the refusal is
/// `NotListedForSale`.
pub proof fn unlisted_purchase_refused(
    s: Pallet,
    t: Pallet,
    who: u64,
    id: KittyIndex,
    r: Result<(), Error>,
)
    requires
        s.price_of(id) is None,
        Pallet::buy_outcome(s, t, who, id, r),
    ensures
        r is Err,
        t == s,
        s.owner_of(id) is Some && s.owner_of(id) != Some(who) ==> r == Err::<(), Error>(Error::NotListedForSale),
{
}

/// A transfer to oneself is refused and changes nothing; where the caller
/// owns the asset, the refusal is `SelfTransferNotAllowed`.
pub proof fn self_transfer_refused(
    s: Pallet,
    t: Pallet,
    who: u64,
    id: KittyIndex,
    r: Result<(), Error>,
)
    requires
        Pallet::transfer_outcome(s, t, who, who, id, r),
    ensures
        r is Err,
        t == s,
        s.owner_of(id) == Some(who) ==> r == Err::<(), Error>(Error::SelfTransferNotAllowed),
{
}

/// Listing an asset at `price` and then selling it to another account
/// leaves the buyer owning it with no listing; the seller's total balance
/// grows by the price and the buyer's shrinks by it, the buyer now holding
/// the deposit that the seller got back.
pub proof fn listing_then_purchase(
    s0: Pallet,
    s1: Pallet,
    s2: Pallet,
    seller: u64,
    buyer: u64,
    id: KittyIndex,
    price: u128,
    r: Result<(), Error>,
)
    requires
        s0.wf(),
        seller != buyer,
        Pallet::sale_outcome(s0, s1, seller, id, Some(price), Ok(())),
        Pallet::buy_outcome(s1, s2, buyer, id, r),
        r is Ok,
    ensures
        s2.owner_of(id) == Some(buyer),
        s2.price_of(id) is None,
        total_of(s2.funds().account(seller)) == total_of(s0.funds().account(seller)) + price,
        total_of(s2.funds().account(buyer)) == total_of(s0.funds().account(buyer)) - price,
        s2.funds().account(buyer).free == s0.funds().account(buyer).free - price - s0.unit(),
        s2.funds().account(buyer).reserved == s0.funds().account(buyer).reserved + s0.unit(),
        s2.event_log() == s0.event_log().push(Event::Listed(seller, id, Some(price))).push(
            Event::SaleCompleted(buyer, id, price),
        ),
{
    s0.funds().lemma_total_fits(seller);
    s0.funds().lemma_total_fits(buyer);
    assert(s1.funds().account(seller) == s0.funds().account(seller));
    assert(s1.funds().account(buyer) == s0.funds().account(buyer));
}

} // verus!
