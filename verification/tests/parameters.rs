use ciphernode_core::resolve;

#[test]
fn resolve_band_examples() {
    assert_eq!(resolve(500).unwrap().plaintext_modulus(), 1009);
    assert_eq!(resolve(5000).unwrap().plaintext_modulus(), 10007);
    assert_eq!(resolve(950000).unwrap().plaintext_modulus(), 1032193);
}

#[test]
fn resolve_band_boundaries() {
    assert_eq!(resolve(1).unwrap().plaintext_modulus(), 1009);
    assert_eq!(resolve(999).unwrap().plaintext_modulus(), 1009);
    assert_eq!(resolve(1000).unwrap().plaintext_modulus(), 10007);
    assert_eq!(resolve(9999).unwrap().plaintext_modulus(), 10007);
    assert_eq!(resolve(10000).unwrap().plaintext_modulus(), 100003);
    assert_eq!(resolve(99999).unwrap().plaintext_modulus(), 100003);
    assert_eq!(resolve(100000).unwrap().plaintext_modulus(), 200003);
    assert_eq!(resolve(200000).unwrap().plaintext_modulus(), 300007);
    assert_eq!(resolve(300000).unwrap().plaintext_modulus(), 400009);
    assert_eq!(resolve(400000).unwrap().plaintext_modulus(), 500009);
    assert_eq!(resolve(500000).unwrap().plaintext_modulus(), 600011);
    assert_eq!(resolve(600000).unwrap().plaintext_modulus(), 700001);
    assert_eq!(resolve(700000).unwrap().plaintext_modulus(), 800011);
    assert_eq!(resolve(800000).unwrap().plaintext_modulus(), 900001);
    assert_eq!(resolve(899999).unwrap().plaintext_modulus(), 900001);
    assert_eq!(resolve(900000).unwrap().plaintext_modulus(), 1032193);
}

#[test]
fn resolve_is_deterministic() {
    let first = resolve(12345).unwrap();
    let second = resolve(12345).unwrap();
    assert_eq!(first.degree(), second.degree());
    assert_eq!(first.plaintext_modulus(), second.plaintext_modulus());
    assert_eq!(first.moduli(), second.moduli());
}

#[test]
fn resolve_fixed_shape() {
    let params = resolve(1000).unwrap();
    assert_eq!(params.degree(), 2048);
    assert_eq!(params.moduli(), &vec![0x3FFFFFFF000001u64]);
}

#[test]
fn resolve_catch_all_covers_the_largest_size() {
    assert_eq!(resolve(usize::MAX).unwrap().plaintext_modulus(), 1032193);
}
