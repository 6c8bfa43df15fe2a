use screenshare_agent::session_id::{
    generate_session_id, is_session_char, is_valid_session_id, session_id_from_draws,
    SESSION_ALPHABET_LEN, SESSION_ID_LEN,
};

#[test]
fn generated_ids_are_eight_characters_of_the_alphabet() {
    for _ in 0..200 {
        let id = generate_session_id();
        assert_eq!(id.chars().count(), 8);
        assert!(id.chars().all(|c| c.is_ascii_uppercase() || c.is_ascii_digit()));
        assert!(is_valid_session_id(&id));
    }
}

#[test]
fn generated_ids_differ_from_call_to_call() {
    let mut seen = std::collections::HashSet::new();
    for _ in 0..50 {
        seen.insert(generate_session_id());
    }
    assert!(seen.len() > 1);
}

#[test]
fn alphabet_constants() {
    assert_eq!(SESSION_ID_LEN, 8);
    assert_eq!(SESSION_ALPHABET_LEN, 36);
}

#[test]
fn draws_pick_characters_by_place() {
    let id = session_id_from_draws(&vec![0, 1, 25, 26, 35, 7, 4, 30]).unwrap();
    assert_eq!(id, "ABZ09HE4");
    assert_eq!(session_id_from_draws(&vec![0; 8]).unwrap(), "AAAAAAAA");
    assert_eq!(session_id_from_draws(&vec![35; 8]).unwrap(), "99999999");
}

#[test]
fn draws_out_of_range_or_of_wrong_length_give_no_id() {
    assert_eq!(session_id_from_draws(&vec![0, 1, 2, 3, 4, 5, 6, 36]), None);
    assert_eq!(session_id_from_draws(&vec![36, 1, 2, 3, 4, 5, 6, 7]), None);
    assert_eq!(session_id_from_draws(&vec![0; 7]), None);
    assert_eq!(session_id_from_draws(&vec![0; 9]), None);
    assert_eq!(session_id_from_draws(&vec![]), None);
}

#[test]
fn session_characters() {
    for c in "ABCDEFGHIJKLMNOPQRSTUVWXYZ0123456789".chars() {
        assert!(is_session_char(c));
    }
    for c in ['a', 'z', '-', ' ', '_', '@', '[', '/', ':', 'é'] {
        assert!(!is_session_char(c));
    }
}

#[test]
fn session_id_validation() {
    assert!(is_valid_session_id("ABCD1234"));
    assert!(is_valid_session_id("00000000"));
    assert!(!is_valid_session_id(""));
    assert!(!is_valid_session_id("ABCD123"));
    assert!(!is_valid_session_id("ABCD12345"));
    assert!(!is_valid_session_id("abcd1234"));
    assert!(!is_valid_session_id("ABCD-234"));
    assert!(!is_valid_session_id("ABCD123é"));
}
