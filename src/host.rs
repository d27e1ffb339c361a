//! The soroban host values that the configuration carries, and the instance
//! storage of the running contract that holds them.
//!
//! Storage is reached through an [`InstanceStore`], which is modelled by what
//! it holds under keys made of one symbol, the layout in which a unit variant
//! of a contract key enum is stored: the set of names present, and, among
//! their entries, those whose value is an address and those whose value is a
//! 32-byte array. The host's metering, which may abort any call that exceeds
//! the budget, is not modelled.
use vstd::prelude::*;
use soroban_sdk::{Address, BytesN, Env, Symbol, Vec};

verus! {

/// The soroban environment: a handle on the shared host.
#[verifier::external_type_specification]
#[verifier::external_body]
pub struct ExEnv(soroban_sdk::Env);

/// An account or contract address, opaque to this library.
#[verifier::external_type_specification]
#[verifier::external_body]
pub struct ExAddress(soroban_sdk::Address);

/// A fixed-length byte array held by the host.
#[verifier::external_type_specification]
#[verifier::external_body]
pub struct ExBytesN<const N: usize>(soroban_sdk::BytesN<N>);

/// The instance storage of the running contract, seen through one handle.
///
/// Every copy of an `Env` shares one host, so what this store holds can be
/// changed through any of them. The contracts of this module rest on the
/// store being used as follows: it is opened in a contract invocation and
/// used only during that invocation, and while it is open no other handle
/// writes a key that is read or written through it. Under that use, what
/// a read returns is what was last written through the store.
pub struct InstanceStore {
    env: Env,
}

impl InstanceStore {
    /// Opens the instance storage of the contract that runs in `env`.
    pub fn open(env: Env) -> (r: InstanceStore) {
        InstanceStore { env }
    }
}

/// A character that a symbol may hold.
pub open spec fn is_symbol_char(c: char) -> bool {
    ('a' <= c && c <= 'z') || ('A' <= c && c <= 'Z') || ('0' <= c && c <= '9') || c == '_'
}

/// A name that `Symbol::new` accepts: at most 32 symbol characters.
pub open spec fn is_symbol_name(n: Seq<char>) -> bool {
    &&& n.len() <= 32
    &&& forall|i: int| 0 <= i < n.len() ==> is_symbol_char(#[trigger] n[i])
}

/// Whether `s` was opened in a contract invocation that is still running,
/// so that it has an instance storage to read and write.
pub uninterp spec fn contract_running(s: InstanceStore) -> bool;

/// The names whose one-symbol key is present in the store, whatever value
/// each holds.
pub uninterp spec fn stored_names(s: InstanceStore) -> Set<Seq<char>>;

/// The entries of the store under one-symbol keys whose value is an address.
pub uninterp spec fn stored_addresses(s: InstanceStore) -> Map<Seq<char>, Address>;

/// The entries of the store under one-symbol keys whose value is a 32-byte
/// array.
pub uninterp spec fn stored_hashes(s: InstanceStore) -> Map<Seq<char>, BytesN<32>>;

/// Relies on soroban_sdk's `Instance::set`: it puts `v` under the key made
/// of the symbol `name`, replacing what was there, and changes no other
/// entry. It panics when no contract is running; `Symbol::new` panics on a
/// name that is not a symbol.
#[verifier::external_body]
pub(crate) fn store_set_address(s: &mut InstanceStore, name: &str, v: &Address)
    requires
        contract_running(*old(s)),
        is_symbol_name(name@),
    ensures
        contract_running(*final(s)),
        stored_names(*final(s)) == stored_names(*old(s)).insert(name@),
        stored_addresses(*final(s)) == stored_addresses(*old(s)).insert(name@, *v),
        stored_hashes(*final(s)) == stored_hashes(*old(s)).remove(name@),
{
    let key = Vec::from_array(&s.env, [Symbol::new(&s.env, name)]);
    s.env.storage().instance().set(&key, v)
}

/// Relies on soroban_sdk's `Instance::set`, as `store_set_address` does,
/// for a 32-byte array.
#[verifier::external_body]
pub(crate) fn store_set_hash(s: &mut InstanceStore, name: &str, v: &BytesN<32>)
    requires
        contract_running(*old(s)),
        is_symbol_name(name@),
    ensures
        contract_running(*final(s)),
        stored_names(*final(s)) == stored_names(*old(s)).insert(name@),
        stored_addresses(*final(s)) == stored_addresses(*old(s)).remove(name@),
        stored_hashes(*final(s)) == stored_hashes(*old(s)).insert(name@, *v),
{
    let key = Vec::from_array(&s.env, [Symbol::new(&s.env, name)]);
    s.env.storage().instance().set(&key, v)
}

/// Relies on soroban_sdk's `Instance::get`: `None` where the store has no
/// key made of the symbol `name`, else the value stored there, converted
/// back to an address. It panics when no contract is running, when the
/// value is not an address, and, in `Symbol::new`, on a name that is not a
/// symbol.
#[verifier::external_body]
pub(crate) fn store_get_address(s: &InstanceStore, name: &str) -> (r: Option<Address>)
    requires
        contract_running(*s),
        is_symbol_name(name@),
        stored_names(*s).contains(name@) ==> stored_addresses(*s).contains_key(name@),
    ensures
        r == (if stored_names(*s).contains(name@) {
            Some(stored_addresses(*s)[name@])
        } else {
            None
        }),
{
    let key = Vec::from_array(&s.env, [Symbol::new(&s.env, name)]);
    s.env.storage().instance().get(&key)
}

/// Relies on soroban_sdk's `Instance::get`, as `store_get_address` does,
/// for a 32-byte array.
#[verifier::external_body]
pub(crate) fn store_get_hash(s: &InstanceStore, name: &str) -> (r: Option<BytesN<32>>)
    requires
        contract_running(*s),
        is_symbol_name(name@),
        stored_names(*s).contains(name@) ==> stored_hashes(*s).contains_key(name@),
    ensures
        r == (if stored_names(*s).contains(name@) {
            Some(stored_hashes(*s)[name@])
        } else {
            None
        }),
{
    let key = Vec::from_array(&s.env, [Symbol::new(&s.env, name)]);
    s.env.storage().instance().get(&key)
}

} // verus!
