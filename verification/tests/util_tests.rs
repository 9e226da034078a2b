use lattice::util::{generate_session_id, id_char, id_from_picks, str_seed_hash, uuid, uuid_5};

fn is_id(s: &str) -> bool {
    s.chars().all(|c| c.is_ascii_lowercase() || c.is_ascii_digit())
}

#[test]
fn identifiers_have_length_and_alphabet() {
    for n in [0usize, 1, 5, 32] {
        let id = uuid(n);
        assert_eq!(id.chars().count(), n);
        assert!(is_id(&id));
    }
    let s = generate_session_id();
    assert_eq!(s.len(), 5);
    assert!(is_id(&s));
    assert_eq!(uuid_5().len(), 5);
}

#[test]
fn picks_spell_identifiers() {
    assert_eq!(id_char(true, 0), 'a');
    assert_eq!(id_char(true, 25), 'z');
    assert_eq!(id_char(false, 7), '7');
    let picks = vec![(true, 11), (false, 0), (true, 2)];
    assert_eq!(id_from_picks(&picks), "l0c");
}

#[test]
fn seed_hash_is_polynomial() {
    assert_eq!(str_seed_hash(""), 0);
    assert_eq!(str_seed_hash("a"), 97);
    assert_eq!(str_seed_hash("abc"), (97 * 31 + 98) * 31 + 99);
    // wraps modulo 2^32
    let long = "zzzzzzzzzzzzzzzz";
    let mut h: u32 = 0;
    for b in long.bytes() {
        h = h.wrapping_mul(31).wrapping_add(b as u32);
    }
    assert_eq!(str_seed_hash(long), h);
    assert_eq!(str_seed_hash("abc") as f32, 96354.0);
}
