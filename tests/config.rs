use factory_config::config::{
    get_fungible_template, get_token, require_initialized, set_fungible_template, set_token,
    ConfigError, ConfigKey,
};
use factory_config::host::InstanceStore;
use soroban_sdk::testutils::{Address as _, ContractFunctionSet, EnvTestConfig};
use soroban_sdk::{Address, BytesN, Env, Symbol, Val};

/// A contract with no functions: it only gives the tests an instance storage.
struct Bare;

impl ContractFunctionSet for Bare {
    fn call(&self, _func: &str, _env: Env, _args: &[Val]) -> Option<Val> {
        None
    }
}

fn new_contract() -> (Env, Address) {
    let env = Env::new_with_config(EnvTestConfig {
        capture_snapshot_at_drop: false,
    });
    let id = env.register(Bare, ());
    (env, id)
}

fn in_contract<T>(env: &Env, id: &Address, f: impl FnOnce(&mut InstanceStore) -> T) -> T {
    env.as_contract(id, || {
        let mut store = InstanceStore::open(env.clone());
        f(&mut store)
    })
}

fn hash(env: &Env, b: u8) -> BytesN<32> {
    BytesN::from_array(env, &[b; 32])
}

#[test]
fn fresh_instance_token_not_initialized() {
    let (env, id) = new_contract();
    let r = in_contract(&env, &id, |e| get_token(e));
    assert_eq!(r, Err(ConfigError::NotInitialized));
}

#[test]
fn fresh_instance_template_not_initialized() {
    let (env, id) = new_contract();
    let r = in_contract(&env, &id, |e| get_fungible_template(e));
    assert_eq!(r, Err(ConfigError::NotInitialized));
}

#[test]
fn token_read_after_write() {
    let (env, id) = new_contract();
    let x = Address::generate(&env);
    let r = in_contract(&env, &id, |e| {
        set_token(e, &x);
        get_token(e)
    });
    assert_eq!(r, Ok(x));
}

#[test]
fn token_read_in_later_invocation() {
    let (env, id) = new_contract();
    let x = Address::generate(&env);
    in_contract(&env, &id, |e| set_token(e, &x));
    let r = in_contract(&env, &id, |e| get_token(e));
    assert_eq!(r, Ok(x));
}

#[test]
fn template_set_token_still_unset() {
    let (env, id) = new_contract();
    let y = hash(&env, 7);
    let (t, k) = in_contract(&env, &id, |e| {
        set_fungible_template(e, &y);
        (get_fungible_template(e), get_token(e))
    });
    assert_eq!(t, Ok(y));
    assert_eq!(k, Err(ConfigError::NotInitialized));
}

#[test]
fn second_token_write_wins() {
    let (env, id) = new_contract();
    let x = Address::generate(&env);
    let z = Address::generate(&env);
    assert_ne!(x, z);
    let r = in_contract(&env, &id, |e| {
        set_token(e, &x);
        set_token(e, &z);
        get_token(e)
    });
    assert_eq!(r, Ok(z));
}

#[test]
fn second_template_write_wins() {
    let (env, id) = new_contract();
    let a = hash(&env, 1);
    let b = hash(&env, 2);
    let r = in_contract(&env, &id, |e| {
        set_fungible_template(e, &a);
        set_fungible_template(e, &b);
        get_fungible_template(e)
    });
    assert_eq!(r, Ok(hash(&env, 2)));
}

#[test]
fn token_write_keeps_template() {
    let (env, id) = new_contract();
    let y = hash(&env, 9);
    let x = Address::generate(&env);
    let r = in_contract(&env, &id, |e| {
        set_fungible_template(e, &y);
        set_token(e, &x);
        set_token(e, &x);
        get_fungible_template(e)
    });
    assert_eq!(r, Ok(hash(&env, 9)));
}

#[test]
fn template_write_keeps_token() {
    let (env, id) = new_contract();
    let x = Address::generate(&env);
    let (k, t) = in_contract(&env, &id, |e| {
        set_token(e, &x);
        set_fungible_template(e, &hash(&env, 3));
        set_fungible_template(e, &hash(&env, 4));
        (get_token(e), get_fungible_template(e))
    });
    assert_eq!(k, Ok(x));
    assert_eq!(t, Ok(hash(&env, 4)));
}

#[test]
fn slot_names() {
    assert_eq!(ConfigKey::Token.name(), "Token");
    assert_eq!(ConfigKey::FungibleWasm.name(), "FundgibleWasm");
}

#[test]
fn token_kept_under_variant_key() {
    let (env, id) = new_contract();
    let x = Address::generate(&env);
    let r: Option<Address> = in_contract(&env, &id, |e| {
        set_token(e, &x);
        env.storage().instance().get(&(Symbol::new(&env, "Token"),))
    });
    assert_eq!(r, Some(x));
}

#[test]
fn template_read_from_variant_key() {
    let (env, id) = new_contract();
    let y = hash(&env, 5);
    env.as_contract(&id, || {
        env.storage().instance().set(&(Symbol::new(&env, "FundgibleWasm"),), &y);
    });
    let r = in_contract(&env, &id, |e| get_fungible_template(e));
    assert_eq!(r, Ok(hash(&env, 5)));
}

#[test]
fn absence_is_an_error() {
    assert_eq!(require_initialized(Some(5u32)), Ok(5));
    assert_eq!(require_initialized::<u32>(None), Err(ConfigError::NotInitialized));
}
