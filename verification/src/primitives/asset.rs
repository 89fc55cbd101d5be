//! The assets that transactions move: fungible tokens, and items that carry
//! the hash of the transaction that created them.

use crate::primitives::transaction::OutPoint;
use vstd::prelude::*;

verus! {

/// An amount of tokens.
#[derive(Clone, Copy, Debug, Default, PartialEq, Eq, Structural, PartialOrd, Ord, Hash)]
pub struct TokenAmount(pub u64);

/// An amount of items of one kind.
#[derive(Debug, Default, PartialEq, Eq)]
pub struct ItemAsset {
    pub amount: u64,
    pub genesis_hash: Option<String>,
    pub metadata: Option<String>,
}

/// An asset: tokens or items.
#[derive(Debug, PartialEq, Eq)]
pub enum Asset {
    Token(TokenAmount),
    Item(ItemAsset),
}

/// What an `ItemAsset` holds, with text by its characters.
pub struct ItemView {
    pub amount: u64,
    pub genesis_hash: Option<Seq<char>>,
    pub metadata: Option<Seq<char>>,
}

/// What an `Asset` holds.
pub enum AssetView {
    Token(u64),
    Item(ItemView),
}

/// The characters of an optional text.
pub open spec fn text_of(text: Option<String>) -> Option<Seq<char>> {
    match text {
        Some(t) => Some(t@),
        None => None,
    }
}

/// A copy of an optional text.
pub fn copy_text(text: &Option<String>) -> (copy: Option<String>)
    ensures
        copy == *text,
{
    match text {
        Some(t) => Some(t.clone()),
        None => None,
    }
}

impl View for ItemAsset {
    type V = ItemView;

    open spec fn view(&self) -> ItemView {
        ItemView {
            amount: self.amount,
            genesis_hash: text_of(self.genesis_hash),
            metadata: text_of(self.metadata),
        }
    }
}

impl View for Asset {
    type V = AssetView;

    open spec fn view(&self) -> AssetView {
        match self {
            Asset::Token(amount) => AssetView::Token(amount.0),
            Asset::Item(item) => AssetView::Item(item@),
        }
    }
}

impl Clone for ItemAsset {
    fn clone(&self) -> (copy: Self)
        ensures
            copy == *self,
    {
        ItemAsset {
            amount: self.amount,
            genesis_hash: copy_text(&self.genesis_hash),
            metadata: copy_text(&self.metadata),
        }
    }
}

impl Clone for Asset {
    fn clone(&self) -> (copy: Self)
        ensures
            copy == *self,
    {
        match self {
            Asset::Token(amount) => Asset::Token(*amount),
            Asset::Item(item) => Asset::Item(item.clone()),
        }
    }
}

impl Default for Asset {
    fn default() -> (asset: Self)
        ensures
            asset@ == AssetView::Token(0),
    {
        Asset::Token(TokenAmount(0))
    }
}

impl ItemAsset {
    /// An amount of items with the genesis hash and metadata given.
    pub fn new(amount: u64, genesis_hash: Option<String>, metadata: Option<String>) -> (item: Self)
        ensures
            item.amount == amount,
            item.genesis_hash == genesis_hash,
            item.metadata == metadata,
    {
        ItemAsset { amount, genesis_hash, metadata }
    }
}

impl AssetView {
    /// The asset as it is spent from the output that `t_hash` names: an item
    /// without a genesis hash gets the hash of the transaction that holds it.
    pub open spec fn with_fixed_hash(self, t_hash: Seq<char>) -> AssetView {
        match self {
            AssetView::Item(item) => if item.genesis_hash is None {
                AssetView::Item(ItemView { genesis_hash: Some(t_hash), ..item })
            } else {
                self
            },
            _ => self,
        }
    }

    /// Whether the asset may leave a transaction that spends: an item then
    /// has a genesis hash and carries no metadata.
    pub open spec fn may_be_spent_to(self) -> bool {
        match self {
            AssetView::Item(item) => item.genesis_hash is Some && item.metadata is None,
            _ => true,
        }
    }
}

impl Asset {
    /// Tokens of the amount given.
    pub fn token_u64(amount: u64) -> (asset: Self)
        ensures
            asset@ == AssetView::Token(amount),
    {
        Asset::Token(TokenAmount(amount))
    }

    /// Items of the amount, genesis hash and metadata given.
    pub fn item(amount: u64, genesis_hash: Option<String>, metadata: Option<String>) -> (asset:
        Self)
        ensures
            asset == Asset::Item(ItemAsset { amount, genesis_hash, metadata }),
    {
        Asset::Item(ItemAsset::new(amount, genesis_hash, metadata))
    }

    /// Whether the asset is tokens.
    pub fn is_token(&self) -> (yes: bool)
        ensures
            yes == (self@ is Token),
    {
        match self {
            Asset::Token(_) => true,
            _ => false,
        }
    }

    /// Whether the asset is items.
    pub fn is_item(&self) -> (yes: bool)
        ensures
            yes == (self@ is Item),
    {
        match self {
            Asset::Item(_) => true,
            _ => false,
        }
    }

    /// The genesis hash of items that have one.
    pub fn get_genesis_hash(&self) -> (hash: Option<&String>)
        ensures
            match self@ {
                AssetView::Item(item) => match item.genesis_hash {
                    Some(h) => hash is Some && hash->0@ == h,
                    None => hash is None,
                },
                AssetView::Token(_) => hash is None,
            },
    {
        match self {
            Asset::Item(item) => match &item.genesis_hash {
                Some(h) => Some(h),
                None => None,
            },
            _ => None,
        }
    }

    /// The metadata of items that carry some.
    pub fn get_metadata(&self) -> (metadata: Option<&String>)
        ensures
            match self@ {
                AssetView::Item(item) => match item.metadata {
                    Some(m) => metadata is Some && metadata->0@ == m,
                    None => metadata is None,
                },
                AssetView::Token(_) => metadata is None,
            },
    {
        match self {
            Asset::Item(item) => match &item.metadata {
                Some(m) => Some(m),
                None => None,
            },
            _ => None,
        }
    }

    /// The asset as it is spent from the output that `out_point` names.
    pub fn with_fixed_hash(self, out_point: &OutPoint) -> (asset: Self)
        ensures
            asset@ == self@.with_fixed_hash(out_point.t_hash@),
    {
        match self {
            Asset::Item(item) => {
                if item.genesis_hash.is_none() {
                    Asset::Item(
                        ItemAsset {
                            amount: item.amount,
                            genesis_hash: Some(out_point.t_hash.clone()),
                            metadata: item.metadata,
                        },
                    )
                } else {
                    Asset::Item(item)
                }
            },
            Asset::Token(amount) => Asset::Token(amount),
        }
    }
}

/// The sums of the assets of some inputs or outputs: the tokens, and the
/// items under each genesis hash.
pub struct AssetValuesView {
    pub tokens: u64,
    pub items: Map<Seq<char>, u64>,
}

impl AssetValuesView {
    /// Nothing at all.
    pub open spec fn zero() -> AssetValuesView {
        AssetValuesView { tokens: 0, items: Map::empty() }
    }

    /// The amount of items held under `hash`.
    pub open spec fn items_under(self, hash: Seq<char>) -> u64 {
        if self.items.contains_key(hash) {
            self.items[hash]
        } else {
            0
        }
    }

    /// The sums with `asset` added. There are none where a sum would not fit
    /// in 64 bits, or where `asset` is an item without a genesis hash.
    pub open spec fn plus(self, asset: AssetView) -> Option<AssetValuesView> {
        match asset {
            AssetView::Token(amount) => if self.tokens + amount <= u64::MAX {
                Some(AssetValuesView { tokens: (self.tokens + amount) as u64, ..self })
            } else {
                None
            },
            AssetView::Item(item) => match item.genesis_hash {
                Some(hash) => if self.items_under(hash) + item.amount <= u64::MAX {
                    Some(
                        AssetValuesView {
                            items: self.items.insert(
                                hash,
                                (self.items_under(hash) + item.amount) as u64,
                            ),
                            ..self
                        },
                    )
                } else {
                    None
                },
                None => None,
            },
        }
    }

    /// The sums of `assets`, added in their order onto `self`.
    pub open spec fn plus_all(self, assets: Seq<AssetView>) -> Option<AssetValuesView>
        decreases assets.len(),
    {
        if assets.len() == 0 {
            Some(self)
        } else {
            match self.plus_all(assets.drop_last()) {
                Some(sums) => sums.plus(assets.last()),
                None => None,
            }
        }
    }
}

/// The amount of items held under one genesis hash.
#[derive(Debug, PartialEq, Eq)]
pub struct ItemEntry {
    hash: String,
    amount: u64,
}

impl Clone for ItemEntry {
    fn clone(&self) -> (copy: Self)
        ensures
            copy == *self,
    {
        ItemEntry { hash: self.hash.clone(), amount: self.amount }
    }
}

/// An accumulator of assets: the tokens in one counter, the items in one
/// counter for each genesis hash.
#[derive(Debug)]
pub struct AssetValues {
    tokens: TokenAmount,
    items: Vec<ItemEntry>,
}

impl Clone for AssetValues {
    fn clone(&self) -> (copy: Self)
        ensures
            copy@ == self@,
            copy.wf() == self.wf(),
    {
        let items = self.items.clone();
        assert(items@ =~= self.items@);
        AssetValues { tokens: self.tokens, items }
    }
}

/// The map from genesis hashes to amounts that `entries` stand for.
pub closed spec fn entries_map(entries: Seq<ItemEntry>) -> Map<Seq<char>, u64>
    decreases entries.len(),
{
    if entries.len() == 0 {
        Map::empty()
    } else {
        entries_map(entries.drop_last()).insert(entries.last().hash@, entries.last().amount)
    }
}

/// Whether no genesis hash occurs twice in `entries`.
pub closed spec fn distinct_hashes(entries: Seq<ItemEntry>) -> bool {
    forall|i: int, j: int|
        0 <= i < j < entries.len() ==> (#[trigger] entries[i]).hash@ != (
        #[trigger] entries[j]).hash@
}

/// The map holds just the hashes of the entries.
proof fn lemma_entries_map_keys(entries: Seq<ItemEntry>, hash: Seq<char>)
    ensures
        entries_map(entries).contains_key(hash) <==> exists|i: int|
            0 <= i < entries.len() && (#[trigger] entries[i]).hash@ == hash,
    decreases entries.len(),
{
    if entries.len() > 0 {
        let rest = entries.drop_last();
        lemma_entries_map_keys(rest, hash);
        if entries_map(entries).contains_key(hash) {
            if entries.last().hash@ == hash {
                assert(entries[entries.len() - 1].hash@ == hash);
            } else {
                let i = choose|i: int| 0 <= i < rest.len() && (#[trigger] rest[i]).hash@ == hash;
                assert(entries[i].hash@ == hash);
            }
        }
        if exists|i: int| 0 <= i < entries.len() && (#[trigger] entries[i]).hash@ == hash {
            let i = choose|i: int| 0 <= i < entries.len() && (#[trigger] entries[i]).hash@ == hash;
            if i < entries.len() - 1 {
                assert(rest[i].hash@ == hash);
            }
        }
    }
}

/// Where no hash occurs twice, the map gives each entry's hash its amount.
proof fn lemma_entries_map_value(entries: Seq<ItemEntry>, i: int)
    requires
        distinct_hashes(entries),
        0 <= i < entries.len(),
    ensures
        entries_map(entries).contains_key(entries[i].hash@),
        entries_map(entries)[entries[i].hash@] == entries[i].amount,
    decreases entries.len(),
{
    let rest = entries.drop_last();
    if i < entries.len() - 1 {
        assert(distinct_hashes(rest)) by {
            assert forall|a: int, b: int| 0 <= a < b < rest.len() implies (#[trigger] rest[a]).hash@
                != (#[trigger] rest[b]).hash@ by {
                assert(entries[a].hash@ != entries[b].hash@);
            }
        }
        lemma_entries_map_value(rest, i);
        assert(entries[i].hash@ != entries[entries.len() - 1].hash@);
        assert(rest[i] == entries[i]);
    }
}

impl View for AssetValues {
    type V = AssetValuesView;

    closed spec fn view(&self) -> AssetValuesView {
        AssetValuesView { tokens: self.tokens.0, items: entries_map(self.items@) }
    }
}

impl Default for AssetValues {
    fn default() -> (sums: Self)
        ensures
            sums.wf(),
            sums@ == AssetValuesView::zero(),
    {
        AssetValues { tokens: TokenAmount(0), items: Vec::new() }
    }
}

impl AssetValues {
    /// The invariant of the accumulator: each genesis hash has one counter.
    pub closed spec fn wf(&self) -> bool {
        distinct_hashes(self.items@)
    }

    /// The index of the counter of `hash`, if there is one.
    fn find(&self, hash: &String) -> (index: Option<usize>)
        ensures
            match index {
                Some(i) => i < self.items@.len() && self.items@[i as int].hash@ == hash@,
                None => forall|i: int|
                    0 <= i < self.items@.len() ==> (#[trigger] self.items@[i]).hash@ != hash@,
            },
    {
        let mut i: usize = 0;
        while i < self.items.len()
            invariant
                i <= self.items@.len(),
                forall|j: int| 0 <= j < i ==> (#[trigger] self.items@[j]).hash@ != hash@,
            decreases self.items@.len() - i,
        {
            if self.items[i].hash == *hash {
                return Some(i);
            }
            i += 1;
        }
        None
    }

    /// The tokens counted so far.
    pub fn tokens(&self) -> (amount: TokenAmount)
        ensures
            amount.0 == self@.tokens,
    {
        self.tokens
    }

    /// The items counted so far under `hash`.
    pub fn items_under(&self, hash: &String) -> (amount: u64)
        requires
            self.wf(),
        ensures
            amount == self@.items_under(hash@),
    {
        match self.find(hash) {
            Some(i) => {
                proof {
                    lemma_entries_map_value(self.items@, i as int);
                }
                self.items[i].amount
            },
            None => {
                proof {
                    lemma_entries_map_keys(self.items@, hash@);
                }
                0
            },
        }
    }

    /// Adds `rhs` to the sums. Fails, and changes nothing, where a sum would
    /// not fit in 64 bits and where `rhs` is an item without a genesis hash.
    pub fn update_add(&mut self, rhs: &Asset) -> (ok: bool)
        requires
            old(self).wf(),
        ensures
            final(self).wf(),
            match old(self)@.plus(rhs@) {
                Some(sums) => ok && final(self)@ == sums,
                None => !ok && final(self)@ == old(self)@,
            },
    {
        match rhs {
            Asset::Token(amount) => match self.tokens.0.checked_add(amount.0) {
                Some(sum) => {
                    self.tokens = TokenAmount(sum);
                    true
                },
                None => false,
            },
            Asset::Item(item) => match &item.genesis_hash {
                Some(hash) => match self.find(hash) {
                    Some(i) => {
                        proof {
                            lemma_entries_map_value(self.items@, i as int);
                        }
                        match self.items[i].amount.checked_add(item.amount) {
                            Some(sum) => {
                                let ghost before = self.items@;
                                self.items.set(i, ItemEntry { hash: hash.clone(), amount: sum });
                                proof {
                                    lemma_entries_map_update(before, i as int, self.items@[i as int]);
                                }
                                true
                            },
                            None => false,
                        }
                    },
                    None => {
                        proof {
                            lemma_entries_map_keys(self.items@, hash@);
                        }
                        self.items.push(ItemEntry { hash: hash.clone(), amount: item.amount });
                        proof {
                            let after = self.items@;
                            assert(after.drop_last() =~= old(self).items@);
                            assert forall|a: int, b: int| 0 <= a < b < after.len() implies (
                            #[trigger] after[a]).hash@ != (#[trigger] after[b]).hash@ by {
                                if b < after.len() - 1 {
                                    assert(old(self).items@[a].hash@ != old(self).items@[b].hash@);
                                } else {
                                    assert(old(self).items@[a].hash@ != hash@);
                                }
                            }
                        }
                        true
                    },
                },
                None => false,
            },
        }
    }

    /// Whether `rhs` holds the same sums: the same tokens, and the same
    /// amount of items under the same genesis hashes.
    pub fn is_equal(&self, rhs: &AssetValues) -> (same: bool)
        requires
            self.wf(),
            rhs.wf(),
        ensures
            same == (self@ == rhs@),
    {
        if self.tokens.0 != rhs.tokens.0 {
            return false;
        }
        if !self.covered_by(rhs) {
            return false;
        }
        if !rhs.covered_by(self) {
            return false;
        }
        assert(self@.items =~= rhs@.items);
        true
    }

    /// Whether every counter of `self` is in `rhs` with the same amount.
    fn covered_by(&self, rhs: &AssetValues) -> (covered: bool)
        requires
            self.wf(),
            rhs.wf(),
        ensures
            covered == forall|hash: Seq<char>| #[trigger]
                self@.items.contains_key(hash) ==> rhs@.items.contains_key(hash)
                    && rhs@.items[hash] == self@.items[hash],
    {
        let mut i: usize = 0;
        while i < self.items.len()
            invariant
                i <= self.items@.len(),
                self.wf(),
                rhs.wf(),
                forall|j: int|
                    0 <= j < i ==> rhs@.items.contains_key((#[trigger] self.items@[j]).hash@)
                        && rhs@.items[self.items@[j].hash@] == self.items@[j].amount,
            decreases self.items@.len() - i,
        {
            proof {
                lemma_entries_map_value(self.items@, i as int);
            }
            let hash = &self.items[i].hash;
            match rhs.find(hash) {
                Some(k) => {
                    proof {
                        lemma_entries_map_value(rhs.items@, k as int);
                    }
                    if rhs.items[k].amount != self.items[i].amount {
                        assert(self@.items.contains_key(hash@));
                        return false;
                    }
                },
                None => {
                    proof {
                        lemma_entries_map_keys(rhs.items@, hash@);
                        assert(self@.items.contains_key(hash@));
                    }
                    return false;
                },
            }
            i += 1;
        }
        proof {
            assert forall|hash: Seq<char>| #[trigger]
                self@.items.contains_key(hash) implies rhs@.items.contains_key(hash)
                && rhs@.items[hash] == self@.items[hash] by {
                lemma_entries_map_keys(self.items@, hash);
                let j = choose|j: int|
                    0 <= j < self.items@.len() && (#[trigger] self.items@[j]).hash@ == hash;
                lemma_entries_map_value(self.items@, j);
            }
        }
        true
    }
}

/// Replacing the amount of one entry replaces the amount under its hash.
proof fn lemma_entries_map_update(entries: Seq<ItemEntry>, i: int, entry: ItemEntry)
    requires
        distinct_hashes(entries),
        0 <= i < entries.len(),
        entry.hash@ == entries[i].hash@,
    ensures
        distinct_hashes(entries.update(i, entry)),
        entries_map(entries.update(i, entry)) == entries_map(entries).insert(
            entry.hash@,
            entry.amount,
        ),
{
    let after = entries.update(i, entry);
    assert forall|a: int, b: int| 0 <= a < b < after.len() implies (#[trigger] after[a]).hash@ != (
    #[trigger] after[b]).hash@ by {
        assert(entries[a].hash@ != entries[b].hash@);
    }
    let wanted = entries_map(entries).insert(entry.hash@, entry.amount);
    assert forall|hash: Seq<char>| entries_map(after).contains_key(hash) <==> wanted.contains_key(
        hash,
    ) by {
        lemma_entries_map_keys(after, hash);
        lemma_entries_map_keys(entries, hash);
        if entries_map(after).contains_key(hash) {
            let j = choose|j: int| 0 <= j < after.len() && (#[trigger] after[j]).hash@ == hash;
            assert(entries[j].hash@ == hash);
        }
        if wanted.contains_key(hash) {
            if hash == entry.hash@ {
                assert(after[i].hash@ == hash);
            } else {
                let j = choose|j: int| 0 <= j < entries.len() && (#[trigger] entries[j]).hash@ == hash;
                assert(after[j].hash@ == hash);
            }
        }
    }
    assert forall|hash: Seq<char>| entries_map(after).contains_key(hash) implies entries_map(
        after,
    )[hash] == wanted[hash] by {
        lemma_entries_map_keys(after, hash);
        let j = choose|j: int| 0 <= j < after.len() && (#[trigger] after[j]).hash@ == hash;
        lemma_entries_map_value(after, j);
        if j != i {
            lemma_entries_map_value(entries, j);
            assert(entries[j].hash@ != entries[i].hash@);
        }
    }
    assert(entries_map(after) =~= wanted);
}

} // verus!
