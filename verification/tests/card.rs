use mifare_access::card::{
    build_trailer, factory_access_bits, factory_key, trailer_key_a, CardIdentity,
};

#[test]
fn an_identity_has_four_or_seven_bytes() {
    assert_eq!(
        CardIdentity::new(&[0xDE, 0xAD, 0xBE, 0xEF]),
        Some(CardIdentity::Single([0xDE, 0xAD, 0xBE, 0xEF]))
    );
    assert_eq!(
        CardIdentity::new(&[1, 2, 3, 4, 5, 6, 7]),
        Some(CardIdentity::Double([1, 2, 3, 4, 5, 6, 7]))
    );
}

#[test]
fn other_lengths_give_no_identity() {
    assert_eq!(CardIdentity::new(&[]), None);
    assert_eq!(CardIdentity::new(&[1, 2, 3]), None);
    assert_eq!(CardIdentity::new(&[1, 2, 3, 4, 5]), None);
    assert_eq!(CardIdentity::new(&[1, 2, 3, 4, 5, 6]), None);
    assert_eq!(CardIdentity::new(&[1, 2, 3, 4, 5, 6, 7, 8]), None);
    assert_eq!(CardIdentity::new(&[0; 10]), None);
}

#[test]
fn an_identity_gives_its_bytes_back() {
    let single = CardIdentity::new(&[0x13, 0x37, 0x73, 0x31]).unwrap();
    assert_eq!(single.as_bytes(), &[0x13, 0x37, 0x73, 0x31]);
    let double = CardIdentity::new(&[7, 6, 5, 4, 3, 2, 1]).unwrap();
    assert_eq!(double.as_bytes(), &[7, 6, 5, 4, 3, 2, 1]);
}

#[test]
fn identities_are_the_same_by_their_bytes() {
    let a = CardIdentity::Single([1, 2, 3, 4]);
    let b = CardIdentity::Single([1, 2, 3, 4]);
    let c = CardIdentity::Single([1, 2, 3, 5]);
    let d = CardIdentity::Double([1, 2, 3, 4, 0, 0, 0]);
    assert!(a.same_card(&b));
    assert!(!a.same_card(&c));
    assert!(!a.same_card(&d));
    assert!(!d.same_card(&a));
    assert!(d.same_card(&d));
    assert!(!CardIdentity::Single([9, 2, 3, 4]).same_card(&a));
}

#[test]
fn the_factory_key_is_six_bytes_ff() {
    assert_eq!(factory_key(), [0xFF; 6]);
}

#[test]
fn the_factory_access_bits() {
    assert_eq!(factory_access_bits(), [0xFF, 0x07, 0x80, 0x69]);
}

#[test]
fn a_trailer_is_key_a_access_bits_key_b() {
    let key_a = [0x52, 0x75, 0x73, 0x74, 0x65, 0x64];
    let key_b = [0x46, 0x65, 0x72, 0x72, 0x69, 0x73];
    let trailer = build_trailer(&key_a, &factory_access_bits(), &key_b);
    assert_eq!(
        trailer,
        [
            0x52, 0x75, 0x73, 0x74, 0x65, 0x64, 0xFF, 0x07, 0x80, 0x69, 0x46, 0x65, 0x72, 0x72,
            0x69, 0x73,
        ]
    );
}

#[test]
fn a_trailer_starts_with_key_a() {
    let trailer = [
        0x52, 0x75, 0x73, 0x74, 0x65, 0x64, 0xFF, 0x07, 0x80, 0x69, 0x46, 0x65, 0x72, 0x72, 0x69,
        0x73,
    ];
    assert_eq!(trailer_key_a(&trailer), [0x52, 0x75, 0x73, 0x74, 0x65, 0x64]);
    let built = build_trailer(&[1, 2, 3, 4, 5, 6], &[7, 8, 9, 10], &[11, 12, 13, 14, 15, 16]);
    assert_eq!(trailer_key_a(&built), [1, 2, 3, 4, 5, 6]);
}
