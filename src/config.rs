//! The two configuration slots of the factory, read and written through the
//! running contract's instance storage.
use vstd::prelude::*;
use soroban_sdk::{Address, BytesN};
use crate::host::{
    contract_running, is_symbol_name, store_get_address, store_get_hash, store_set_address,
    store_set_hash, stored_addresses, stored_hashes, stored_names, InstanceStore,
};

verus! {

/// The configuration slots; exactly these exist.
#[derive(Clone, Copy, Debug, PartialEq, Eq, Structural)]
pub enum ConfigKey {
    /// The settlement token that the factory accepts.
    Token,
    /// The bytecode template that new fungible-token contracts are made from.
    FungibleWasm,
}

impl ConfigKey {
    /// The name of the symbol under which this slot is kept. The template
    /// slot keeps the spelling `FundgibleWasm`, under which deployed
    /// factories already hold it.
    pub open spec fn spec_name(self) -> Seq<char> {
        match self {
            ConfigKey::Token => seq!['T', 'o', 'k', 'e', 'n'],
            ConfigKey::FungibleWasm => seq![
                'F', 'u', 'n', 'd', 'g', 'i', 'b', 'l', 'e', 'W', 'a', 's', 'm',
            ],
        }
    }

    /// The name of the symbol under which this slot is kept; the slot's key
    /// in storage is a vector of that one symbol, as for a unit variant of a
    /// contract key enum.
    pub fn name(self) -> (r: &'static str)
        ensures
            r@ == self.spec_name(),
            is_symbol_name(r@),
    {
        match self {
            ConfigKey::Token => {
                proof {
                    reveal_strlit("Token");
                }
                "Token"
            },
            ConfigKey::FungibleWasm => {
                proof {
                    reveal_strlit("FundgibleWasm");
                }
                "FundgibleWasm"
            },
        }
    }
}

/// Why a configuration read failed.
#[derive(Clone, Copy, Debug, PartialEq, Eq, Structural)]
pub enum ConfigError {
    /// The slot has never been written.
    NotInitialized,
}

/// The token slot, where present, holds an address.
pub open spec fn token_slot_typed(s: InstanceStore) -> bool {
    stored_names(s).contains(ConfigKey::Token.spec_name()) ==> stored_addresses(s).contains_key(
        ConfigKey::Token.spec_name(),
    )
}

/// The template slot, where present, holds a 32-byte array.
pub open spec fn template_slot_typed(s: InstanceStore) -> bool {
    stored_names(s).contains(ConfigKey::FungibleWasm.spec_name())
        ==> stored_hashes(s).contains_key(ConfigKey::FungibleWasm.spec_name())
}

/// The token that the store holds, if it was written.
pub open spec fn stored_token(s: InstanceStore) -> Option<Address> {
    if stored_names(s).contains(ConfigKey::Token.spec_name()) {
        Some(stored_addresses(s)[ConfigKey::Token.spec_name()])
    } else {
        None
    }
}

/// The template hash that the store holds, if it was written.
pub open spec fn stored_template(s: InstanceStore) -> Option<BytesN<32>> {
    if stored_names(s).contains(ConfigKey::FungibleWasm.spec_name()) {
        Some(stored_hashes(s)[ConfigKey::FungibleWasm.spec_name()])
    } else {
        None
    }
}

/// What a read of a slot that holds `v` returns.
pub open spec fn read_outcome<T>(v: Option<T>) -> Result<T, ConfigError> {
    match v {
        Some(x) => Ok(x),
        None => Err(ConfigError::NotInitialized),
    }
}

/// What `get_token` returns on `s`.
pub open spec fn token_read(s: InstanceStore) -> Result<Address, ConfigError> {
    read_outcome(stored_token(s))
}

/// What `get_fungible_template` returns on `s`.
pub open spec fn template_read(s: InstanceStore) -> Result<BytesN<32>, ConfigError> {
    read_outcome(stored_template(s))
}

/// `after` is `before` with the token slot set to `v` and no other key
/// touched.
pub open spec fn token_written(before: InstanceStore, after: InstanceStore, v: Address) -> bool {
    let k = ConfigKey::Token.spec_name();
    &&& contract_running(after)
    &&& stored_names(after) == stored_names(before).insert(k)
    &&& stored_addresses(after) == stored_addresses(before).insert(k, v)
    &&& stored_hashes(after) == stored_hashes(before).remove(k)
}

/// `after` is `before` with the template slot set to `h` and no other key
/// touched.
pub open spec fn template_written(
    before: InstanceStore,
    after: InstanceStore,
    h: BytesN<32>,
) -> bool {
    let k = ConfigKey::FungibleWasm.spec_name();
    &&& contract_running(after)
    &&& stored_names(after) == stored_names(before).insert(k)
    &&& stored_addresses(after) == stored_addresses(before).remove(k)
    &&& stored_hashes(after) == stored_hashes(before).insert(k, h)
}

/// Turns what a slot holds into the result of reading it: absence is an
/// error, never a default.
pub fn require_initialized<T>(v: Option<T>) -> (r: Result<T, ConfigError>)
    ensures
        r == read_outcome(v),
{
    match v {
        Some(x) => Ok(x),
        None => Err(ConfigError::NotInitialized),
    }
}

/// Records `token` as the settlement token, replacing any earlier one.
pub fn set_token(store: &mut InstanceStore, token: &Address)
    requires
        contract_running(*old(store)),
    ensures
        token_written(*old(store), *final(store), *token),
{
    store_set_address(store, ConfigKey::Token.name(), token);
}

/// The settlement token, or `NotInitialized` if it was never set.
pub fn get_token(store: &InstanceStore) -> (r: Result<Address, ConfigError>)
    requires
        contract_running(*store),
        token_slot_typed(*store),
    ensures
        r == token_read(*store),
        r is Err <==> stored_token(*store) is None,
{
    require_initialized(store_get_address(store, ConfigKey::Token.name()))
}

/// Records `hash` as the template for new fungible-token contracts,
/// replacing any earlier one.
pub fn set_fungible_template(store: &mut InstanceStore, hash: &BytesN<32>)
    requires
        contract_running(*old(store)),
    ensures
        template_written(*old(store), *final(store), *hash),
{
    store_set_hash(store, ConfigKey::FungibleWasm.name(), hash);
}

/// The fungible-token template, or `NotInitialized` if it was never set.
pub fn get_fungible_template(store: &InstanceStore) -> (r: Result<BytesN<32>, ConfigError>)
    requires
        contract_running(*store),
        template_slot_typed(*store),
    ensures
        r == template_read(*store),
        r is Err <==> stored_template(*store) is None,
{
    require_initialized(store_get_hash(store, ConfigKey::FungibleWasm.name()))
}

} // verus!
