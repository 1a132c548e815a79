use greener_admin::credentials::{derive_hash, hash_password, HASH_LEN, ITERATIONS, SALT_LEN};

fn hex(bytes: &[u8]) -> String {
    let mut text = String::new();
    for byte in bytes {
        text.push_str(&format!("{:02x}", byte));
    }
    text
}

#[test]
fn parameters_are_fixed() {
    assert_eq!(SALT_LEN, 32);
    assert_eq!(HASH_LEN, 32);
    assert_eq!(ITERATIONS, 100_000);
}

#[test]
fn derive_hash_matches_reference_vector() {
    let hash = derive_hash("password", b"salt");
    assert_eq!(hex(&hash), "0394a2ede332c9a13eb82e9b24631604c31df978b4e2f0fbd2c549944f9d79a5");
}

#[test]
fn derive_hash_with_a_full_length_salt() {
    let salt: Vec<u8> = (0u8..32).collect();
    let hash = derive_hash("correct horse battery staple", &salt);
    assert_eq!(hex(&hash), "ef8970894e11c302383e9d31b220979179c2e8964100f3a99a52cdc7ce6f9f77");
}

#[test]
fn derive_hash_of_empty_password_and_salt() {
    let hash = derive_hash("", b"");
    assert_eq!(hex(&hash), "64a868d4b23af696d3734d0b814d04cdd1ac280128e97653a05f32b49c13a29a");
}

#[test]
fn derive_hash_takes_the_utf8_bytes_of_the_password() {
    let hash = derive_hash("p\u{e4}ssw\u{f6}rd", &[0u8; 32]);
    assert_eq!(hex(&hash), "d7fa5319034abd3a9dbef3630992ee95b24cf1dcd271d4507900aef5f190611c");
}

#[test]
fn derive_hash_depends_on_password_and_salt() {
    let base = derive_hash("password", b"salt");
    assert_ne!(base, derive_hash("passwore", b"salt"));
    assert_ne!(base, derive_hash("password", b"salu"));
    assert_ne!(base.as_slice(), b"password".as_slice());
    assert_ne!(base.as_slice(), b"salt".as_slice());
}

#[test]
fn hash_password_returns_salt_and_hash_of_fixed_length() {
    let (salt, hash) = hash_password("hunter2");
    assert_eq!(salt.len(), 32);
    assert_eq!(hash.len(), 32);
}

#[test]
fn hash_password_draws_a_fresh_salt_each_time() {
    let (first_salt, first_hash) = hash_password("hunter2");
    let (second_salt, second_hash) = hash_password("hunter2");
    assert_ne!(first_salt, second_salt);
    assert_ne!(first_hash, second_hash);
    assert_ne!(first_salt, vec![0u8; 32]);
}

#[test]
fn rederiving_with_the_stored_salt_reproduces_the_hash() {
    let (salt, hash) = hash_password("correct horse battery staple");
    assert_eq!(derive_hash("correct horse battery staple", &salt), hash);
    assert_eq!(derive_hash("correct horse battery staple", &salt), hash);
    assert_ne!(derive_hash("incorrect horse battery staple", &salt), hash);
}

#[test]
fn hash_password_never_returns_the_plaintext() {
    let password = "0123456789abcdef0123456789abcdef";
    let (salt, hash) = hash_password(password);
    assert_ne!(salt.as_slice(), password.as_bytes());
    assert_ne!(hash.as_slice(), password.as_bytes());
}
