use ciphernode_core::{
    generate_and_save_key, resolve, sample_secret_key, FailingCapability, FnCapability, KeySink,
    KeyedStore, RandomnessSource, SecretKeyMaterial, STORAGE_KEY,
};
use std::cell::RefCell;

#[test]
fn test_generate_key() {
    let mut rng = RandomnessSource::from_seed(42);
    let params = resolve(1000).unwrap();
    let mut expected_rng = RandomnessSource::from_seed(42);
    let expected_sk_share = sample_secret_key(&params, &mut expected_rng);

    let mut results = KeySink::new();

    generate_and_save_key(&params, &mut results, &mut rng).unwrap();

    assert!(results.len() == 1);
    assert!(results.get(0).equals(&expected_sk_share));
}

#[test]
fn reproducible_sampling() {
    let params = resolve(1000).unwrap();
    let mut first_source = RandomnessSource::from_seed(7);
    let mut second_source = RandomnessSource::from_seed(7);
    let first = sample_secret_key(&params, &mut first_source);
    let second = sample_secret_key(&params, &mut second_source);
    assert!(first.equals(&second));
}

#[test]
fn different_seeds_give_different_keys() {
    let params = resolve(1000).unwrap();
    let mut first_source = RandomnessSource::from_seed(1);
    let mut second_source = RandomnessSource::from_seed(2);
    let first = sample_secret_key(&params, &mut first_source);
    let second = sample_secret_key(&params, &mut second_source);
    assert!(!first.equals(&second));
}

#[test]
fn different_parameters_give_different_keys() {
    let small = resolve(500).unwrap();
    let large = resolve(5000).unwrap();
    let mut first_source = RandomnessSource::from_seed(3);
    let mut second_source = RandomnessSource::from_seed(3);
    let first = sample_secret_key(&small, &mut first_source);
    let second = sample_secret_key(&large, &mut second_source);
    assert!(!first.equals(&second));
}

#[test]
fn sampling_consumes_the_source() {
    let params = resolve(1000).unwrap();
    let mut source = RandomnessSource::from_seed(11);
    let first = sample_secret_key(&params, &mut source);
    let second = sample_secret_key(&params, &mut source);
    assert!(!first.equals(&second));
}

#[test]
fn generate_persists_exactly_once_into_keyed_store() {
    let params = resolve(1000).unwrap();
    let mut source = RandomnessSource::from_seed(9);
    let mut expected_source = RandomnessSource::from_seed(9);
    let expected = sample_secret_key(&params, &mut expected_source);

    let mut store = KeyedStore::new();
    generate_and_save_key(&params, &mut store, &mut source).unwrap();

    let stored = store.get(&String::from(STORAGE_KEY)).unwrap();
    assert!(stored.equals(&expected));
    assert!(store.get(&String::from("another_key")).is_none());
}

#[test]
fn keyed_store_set_then_get() {
    let params = resolve(1000).unwrap();
    let mut source = RandomnessSource::from_seed(13);
    let first = sample_secret_key(&params, &mut source);
    let second = sample_secret_key(&params, &mut source);
    let mut check_source = RandomnessSource::from_seed(13);
    let first_again = sample_secret_key(&params, &mut check_source);
    let second_again = sample_secret_key(&params, &mut check_source);

    let mut store = KeyedStore::new();
    store.set(String::from("alpha"), first).unwrap();
    store.set(String::from("beta"), second).unwrap();

    assert!(store.get(&String::from("alpha")).unwrap().equals(&first_again));
    assert!(store.get(&String::from("beta")).unwrap().equals(&second_again));
    assert!(store.get(&String::from("gamma")).is_none());

    let third_again = sample_secret_key(&params, &mut check_source);
    let third = sample_secret_key(&params, &mut source);
    store.set(String::from("alpha"), third).unwrap();
    assert!(store.get(&String::from("alpha")).unwrap().equals(&third_again));
}

#[test]
fn fn_capability_invoked_exactly_once() {
    let params = resolve(1000).unwrap();
    let mut source = RandomnessSource::from_seed(21);
    let mut expected_source = RandomnessSource::from_seed(21);
    let expected = sample_secret_key(&params, &mut expected_source);

    let taken: RefCell<Vec<SecretKeyMaterial>> = RefCell::new(Vec::new());
    let mut capability = FnCapability::new(|sk: SecretKeyMaterial| {
        taken.borrow_mut().push(sk);
        Ok(())
    });
    generate_and_save_key(&params, &mut capability, &mut source).unwrap();

    assert_eq!(taken.borrow().len(), 1);
    assert!(taken.borrow()[0].equals(&expected));
}

#[test]
fn error_propagation_no_retry() {
    let params = resolve(1000).unwrap();
    let mut source = RandomnessSource::from_seed(5);

    let attempts: RefCell<usize> = RefCell::new(0);
    let mut capability = FnCapability::new(|_sk: SecretKeyMaterial| {
        *attempts.borrow_mut() += 1;
        Err(ciphernode_core::PersistError::new(String::from("backend unavailable")))
    });
    let outcome = generate_and_save_key(&params, &mut capability, &mut source);

    assert!(outcome.is_err());
    assert_eq!(outcome.unwrap_err().message().as_str(), "backend unavailable");
    assert_eq!(*attempts.borrow(), 1);
}

#[test]
fn failing_capability_reports_its_reason() {
    let params = resolve(1000).unwrap();
    let mut source = RandomnessSource::from_seed(5);
    let mut capability = FailingCapability::new(String::from("disk full"));
    let outcome = generate_and_save_key(&params, &mut capability, &mut source);
    assert!(outcome.is_err());
    assert_eq!(outcome.unwrap_err().message().as_str(), "disk full");
}

#[test]
fn capability_shapes_are_equivalent() {
    let params = resolve(1000).unwrap();

    let mut sink_source = RandomnessSource::from_seed(77);
    let mut sink = KeySink::new();
    generate_and_save_key(&params, &mut sink, &mut sink_source).unwrap();

    let mut store_source = RandomnessSource::from_seed(77);
    let mut store = KeyedStore::new();
    generate_and_save_key(&params, &mut store, &mut store_source).unwrap();

    let taken: RefCell<Vec<SecretKeyMaterial>> = RefCell::new(Vec::new());
    let mut fn_source = RandomnessSource::from_seed(77);
    let mut fn_shape = FnCapability::new(|sk: SecretKeyMaterial| {
        taken.borrow_mut().push(sk);
        Ok(())
    });
    generate_and_save_key(&params, &mut fn_shape, &mut fn_source).unwrap();

    let from_sink = sink.get(0);
    let from_store = store.get(&String::from(STORAGE_KEY)).unwrap();
    let held = taken.borrow();
    let from_fn = &held[0];

    assert!(from_sink.equals(from_store));
    assert!(from_store.equals(from_fn));
}
