//! The registry's data: configuration, alias records, the two indexes, and
//! the invariant that keeps them mutually consistent.

use vstd::prelude::*;

use crate::store::KvStore;

verus! {

/// An account identifier in human-readable form.
#[derive(Debug)]
pub struct HumanAddr(pub String);

impl View for HumanAddr {
    type V = Seq<char>;

    open spec fn view(&self) -> Seq<char> {
        self.0@
    }
}

impl DeepView for HumanAddr {
    type V = Seq<char>;

    open spec fn deep_view(&self) -> Seq<char> {
        self@
    }
}

impl Clone for HumanAddr {
    fn clone(&self) -> (r: Self)
        ensures
            r == *self,
    {
        HumanAddr(self.0.clone())
    }
}

impl PartialEq for HumanAddr {
    fn eq(&self, other: &Self) -> (r: bool) {
        self.0 == other.0
    }
}

impl vstd::std_specs::cmp::PartialEqSpecImpl for HumanAddr {
    open spec fn obeys_eq_spec() -> bool {
        true
    }

    open spec fn eq_spec(&self, other: &Self) -> bool {
        self@ == other@
    }
}

/// The view of a contract reference: address and code hash.
pub struct SecretContractV {
    pub address: Seq<char>,
    pub contract_hash: Seq<char>,
}

/// A reference to an external contract: its address and its code hash.
#[derive(Debug)]
pub struct SecretContract {
    pub address: HumanAddr,
    pub contract_hash: String,
}

impl View for SecretContract {
    type V = SecretContractV;

    open spec fn view(&self) -> SecretContractV {
        SecretContractV { address: self.address@, contract_hash: self.contract_hash@ }
    }
}

impl DeepView for SecretContract {
    type V = SecretContractV;

    open spec fn deep_view(&self) -> SecretContractV {
        self@
    }
}

impl Clone for SecretContract {
    fn clone(&self) -> (r: Self)
        ensures
            r == *self,
    {
        SecretContract { address: self.address.clone(), contract_hash: self.contract_hash.clone() }
    }
}

impl PartialEq for SecretContract {
    fn eq(&self, other: &Self) -> (r: bool) {
        self.address == other.address && self.contract_hash == other.contract_hash
    }
}

impl vstd::std_specs::cmp::PartialEqSpecImpl for SecretContract {
    open spec fn obeys_eq_spec() -> bool {
        true
    }

    open spec fn eq_spec(&self, other: &Self) -> bool {
        self@ == other@
    }
}

/// The view of an alias record.
pub struct AliasV {
    pub human_address: Seq<char>,
    pub avatar_url: Option<Seq<char>>,
}

/// One alias record: the owner, and an optional avatar URL.
#[derive(Debug)]
pub struct Alias {
    pub human_address: HumanAddr,
    pub avatar_url: Option<String>,
}

impl View for Alias {
    type V = AliasV;

    open spec fn view(&self) -> AliasV {
        AliasV { human_address: self.human_address@, avatar_url: self.avatar_url.deep_view() }
    }
}

impl Clone for Alias {
    fn clone(&self) -> (r: Self)
        ensures
            r == *self,
    {
        Alias {
            human_address: self.human_address.clone(),
            avatar_url: match &self.avatar_url {
                Some(u) => Some(u.clone()),
                None => None,
            },
        }
    }
}

/// The view of the configuration.
pub struct ConfigV {
    pub max_alias_byte_length: u16,
    pub buttcoin: Option<SecretContractV>,
    pub buttcoin_distributor: Option<SecretContractV>,
}

/// Immutable configuration, set once at initialization: the byte-length cap
/// on normalized aliases, and, when creation is payment-gated, the token
/// contract and the destination its proceeds are forwarded to.
#[derive(Debug)]
pub struct Config {
    pub max_alias_byte_length: u16,
    pub buttcoin: Option<SecretContract>,
    pub buttcoin_distributor: Option<SecretContract>,
}

impl View for Config {
    type V = ConfigV;

    open spec fn view(&self) -> ConfigV {
        ConfigV {
            max_alias_byte_length: self.max_alias_byte_length,
            buttcoin: self.buttcoin.deep_view(),
            buttcoin_distributor: self.buttcoin_distributor.deep_view(),
        }
    }
}

impl Clone for Config {
    fn clone(&self) -> (r: Self)
        ensures
            r == *self,
    {
        Config {
            max_alias_byte_length: self.max_alias_byte_length,
            buttcoin: match &self.buttcoin {
                Some(c) => Some(c.clone()),
                None => None,
            },
            buttcoin_distributor: match &self.buttcoin_distributor {
                Some(c) => Some(c.clone()),
                None => None,
            },
        }
    }
}

/// The primary index: normalized alias -> alias record.
#[derive(Debug)]
pub struct AliasesStorage {
    store: KvStore<Alias>,
}

impl View for AliasesStorage {
    type V = Map<Seq<char>, AliasV>;

    closed spec fn view(&self) -> Map<Seq<char>, AliasV> {
        self.store@
    }
}

impl AliasesStorage {
    pub closed spec fn wf(&self) -> bool {
        self.store.wf()
    }

    /// An empty index.
    pub fn new() -> (r: Self)
        ensures
            r.wf(),
            r@ == Map::<Seq<char>, AliasV>::empty(),
    {
        AliasesStorage { store: KvStore::new() }
    }

    /// Lookup by normalized key; absence is not an error at this layer.
    pub fn get_alias(&self, key: &String) -> (r: Option<Alias>)
        requires
            self.wf(),
        ensures
            r is Some <==> self@.contains_key(key@),
            r matches Some(a) ==> a@ == self@[key@],
    {
        match self.store.get(key) {
            Some(a) => Some(a.clone()),
            None => None,
        }
    }

    /// Unconditional upsert; the engine checks non-existence first where
    /// uniqueness is required.
    pub fn set_alias(&mut self, key: &String, value: Alias)
        requires
            old(self).wf(),
        ensures
            final(self).wf(),
            final(self)@ == old(self)@.insert(key@, value@),
    {
        self.store.insert(key, value);
    }

    /// Unconditional delete; the engine checks existence and ownership first.
    pub fn remove_alias(&mut self, key: &String)
        requires
            old(self).wf(),
        ensures
            final(self).wf(),
            final(self)@ == old(self)@.remove(key@),
    {
        self.store.remove(key);
    }
}

/// The reverse index: owner address -> normalized alias. It enforces at most
/// one alias per owner.
#[derive(Debug)]
pub struct AddressesAliasesStorage {
    store: KvStore<String>,
}

impl View for AddressesAliasesStorage {
    type V = Map<Seq<char>, Seq<char>>;

    closed spec fn view(&self) -> Map<Seq<char>, Seq<char>> {
        self.store@
    }
}

impl AddressesAliasesStorage {
    pub closed spec fn wf(&self) -> bool {
        self.store.wf()
    }

    /// An empty index.
    pub fn new() -> (r: Self)
        ensures
            r.wf(),
            r@ == Map::<Seq<char>, Seq<char>>::empty(),
    {
        AddressesAliasesStorage { store: KvStore::new() }
    }

    /// Lookup of the owner's alias; absence is not an error at this layer.
    pub fn get_alias(&self, key: &String) -> (r: Option<String>)
        requires
            self.wf(),
        ensures
            r is Some <==> self@.contains_key(key@),
            r matches Some(a) ==> a@ == self@[key@],
    {
        match self.store.get(key) {
            Some(a) => Some(a.clone()),
            None => None,
        }
    }

    /// Unconditional upsert.
    pub fn set_alias(&mut self, key: &String, value: &String)
        requires
            old(self).wf(),
        ensures
            final(self).wf(),
            final(self)@ == old(self)@.insert(key@, value@),
    {
        self.store.insert(key, value.clone());
    }

    /// Unconditional delete.
    pub fn remove_alias(&mut self, key: &String)
        requires
            old(self).wf(),
        ensures
            final(self).wf(),
            final(self)@ == old(self)@.remove(key@),
    {
        self.store.remove(key);
    }
}

/// A read-only borrow of the primary index.
pub struct AliasesReadonlyStorage<'a> {
    storage: &'a AliasesStorage,
}

impl<'a> AliasesReadonlyStorage<'a> {
    /// Borrows the index for reading.
    pub fn from_storage(storage: &'a AliasesStorage) -> (r: Self)
        ensures
            r.storage() == storage,
    {
        Self { storage }
    }

    /// The borrowed index.
    pub closed spec fn storage(&self) -> &'a AliasesStorage {
        self.storage
    }

    /// Lookup by normalized key; absence is not an error at this layer.
    pub fn get_alias(&self, key: &String) -> (r: Option<Alias>)
        requires
            self.storage().wf(),
        ensures
            r is Some <==> self.storage()@.contains_key(key@),
            r matches Some(a) ==> a@ == self.storage()@[key@],
    {
        self.storage.get_alias(key)
    }
}

/// A read-only borrow of the reverse index.
pub struct AddressesAliasesReadonlyStorage<'a> {
    storage: &'a AddressesAliasesStorage,
}

impl<'a> AddressesAliasesReadonlyStorage<'a> {
    /// Borrows the index for reading.
    pub fn from_storage(storage: &'a AddressesAliasesStorage) -> (r: Self)
        ensures
            r.storage() == storage,
    {
        Self { storage }
    }

    /// The borrowed index.
    pub closed spec fn storage(&self) -> &'a AddressesAliasesStorage {
        self.storage
    }

    /// Lookup of the owner's alias; absence is not an error at this layer.
    pub fn get_alias(&self, key: &String) -> (r: Option<String>)
        requires
            self.storage().wf(),
        ensures
            r is Some <==> self.storage()@.contains_key(key@),
            r matches Some(a) ==> a@ == self.storage()@[key@],
    {
        self.storage.get_alias(key)
    }
}

/// The view of the whole registry.
pub struct RegistryV {
    pub config: ConfigV,
    pub aliases: Map<Seq<char>, AliasV>,
    pub addresses_aliases: Map<Seq<char>, Seq<char>>,
}

/// The two indexes are mutual inverses: every record's owner points back at
/// the record's key, and every back-reference points at a record it owns.
/// In particular no owner holds two aliases.
pub open spec fn inverse_indexes(
    aliases: Map<Seq<char>, AliasV>,
    owners: Map<Seq<char>, Seq<char>>,
) -> bool {
    &&& forall|k: Seq<char>| #[trigger]
        aliases.contains_key(k) ==> owners.contains_key(aliases[k].human_address)
            && owners[aliases[k].human_address] == k
    &&& forall|o: Seq<char>| #[trigger]
        owners.contains_key(o) ==> aliases.contains_key(owners[o])
            && aliases[owners[o]].human_address == o
}

impl RegistryV {
    /// The state invariant of a registry view.
    pub open spec fn inv(&self) -> bool {
        inverse_indexes(self.aliases, self.addresses_aliases)
    }
}

/// The whole registry: configuration and both indexes.
#[derive(Debug)]
pub struct Registry {
    pub config: Config,
    pub aliases: AliasesStorage,
    pub addresses_aliases: AddressesAliasesStorage,
}

impl View for Registry {
    type V = RegistryV;

    open spec fn view(&self) -> RegistryV {
        RegistryV {
            config: self.config@,
            aliases: self.aliases@,
            addresses_aliases: self.addresses_aliases@,
        }
    }
}

impl Registry {
    /// Both indexes are well-formed and mutually consistent.
    pub open spec fn wf(&self) -> bool {
        &&& self.aliases.wf()
        &&& self.addresses_aliases.wf()
        &&& self@.inv()
    }
}

/// Creating a record under a fresh key for an owner with no alias keeps the
/// two indexes mutual inverses.
pub proof fn lemma_create_preserves_inverse(
    aliases: Map<Seq<char>, AliasV>,
    owners: Map<Seq<char>, Seq<char>>,
    key: Seq<char>,
    record: AliasV,
)
    requires
        inverse_indexes(aliases, owners),
        !aliases.contains_key(key),
        !owners.contains_key(record.human_address),
    ensures
        inverse_indexes(
            aliases.insert(key, record),
            owners.insert(record.human_address, key),
        ),
{
    let aliases2 = aliases.insert(key, record);
    let owners2 = owners.insert(record.human_address, key);
    assert forall|k: Seq<char>| #[trigger]
        aliases2.contains_key(k) implies owners2.contains_key(aliases2[k].human_address)
        && owners2[aliases2[k].human_address] == k by {
        if k != key {
            assert(aliases.contains_key(k));
            assert(aliases[k].human_address != record.human_address);
        }
    }
    assert forall|o: Seq<char>| #[trigger]
        owners2.contains_key(o) implies aliases2.contains_key(owners2[o])
        && aliases2[owners2[o]].human_address == o by {
        if o != record.human_address {
            assert(owners.contains_key(o));
            assert(owners[o] != key);
        }
    }
}

/// Removing a record together with its owner's back-reference keeps the two
/// indexes mutual inverses.
pub proof fn lemma_destroy_preserves_inverse(
    aliases: Map<Seq<char>, AliasV>,
    owners: Map<Seq<char>, Seq<char>>,
    key: Seq<char>,
)
    requires
        inverse_indexes(aliases, owners),
        aliases.contains_key(key),
    ensures
        inverse_indexes(
            aliases.remove(key),
            owners.remove(aliases[key].human_address),
        ),
{
    let owner = aliases[key].human_address;
    let aliases2 = aliases.remove(key);
    let owners2 = owners.remove(owner);
    assert forall|k: Seq<char>| #[trigger]
        aliases2.contains_key(k) implies owners2.contains_key(aliases2[k].human_address)
        && owners2[aliases2[k].human_address] == k by {
        assert(aliases.contains_key(k));
        if aliases[k].human_address == owner {
            assert(owners[owner] == k);
            assert(owners[owner] == key);
        }
    }
    assert forall|o: Seq<char>| #[trigger]
        owners2.contains_key(o) implies aliases2.contains_key(owners2[o])
        && aliases2[owners2[o]].human_address == o by {
        assert(owners.contains_key(o));
        if owners[o] == key {
            assert(aliases[key].human_address == o);
        }
    }
}

} // verus!
