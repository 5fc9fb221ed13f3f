use zero2prod::domain::subscriber_email::{
    check_domain, check_local_part, chars_of, find_at_sign, is_well_formed,
};
use zero2prod::domain::SubscriberEmail;

#[test]
fn a_well_formed_address_is_accepted() {
    let email = SubscriberEmail::parse("ursula_le_guin@gmail.com".to_string()).unwrap();
    assert_eq!(email.as_ref(), "ursula_le_guin@gmail.com");
}

#[test]
fn an_address_without_at_sign_is_rejected() {
    assert!(SubscriberEmail::parse("ursuladomain.com".to_string()).is_err());
}

#[test]
fn an_address_without_local_part_is_rejected() {
    assert!(SubscriberEmail::parse("@domain.com".to_string()).is_err());
}

#[test]
fn an_address_without_domain_is_rejected() {
    assert!(SubscriberEmail::parse("ursula@".to_string()).is_err());
}

#[test]
fn an_empty_address_is_rejected() {
    assert!(SubscriberEmail::parse("".to_string()).is_err());
}

#[test]
fn a_rejected_address_is_named_in_the_message() {
    let error = match SubscriberEmail::parse("ursula@".to_string()) {
        Ok(_) => panic!("an address without domain was accepted"),
        Err(message) => message,
    };
    assert_eq!(error, "ursula@ is not a valid subscriber email.");
}

#[test]
fn a_domain_needs_two_labels() {
    assert!(!is_well_formed("ursula@localhost"));
    assert!(is_well_formed("ursula@local.host"));
    assert!(is_well_formed("ursula@mail.example.co.uk"));
}

#[test]
fn dots_must_separate_atoms_and_labels() {
    for address in [
        ".ursula@gmail.com",
        "ursula.@gmail.com",
        "ursula..leguin@gmail.com",
        "ursula@.gmail.com",
        "ursula@gmail.com.",
        "ursula@gmail..com",
    ] {
        assert!(!is_well_formed(address), "{}", address);
    }
    assert!(is_well_formed("ursula.le.guin@gmail.com"));
}

#[test]
fn labels_begin_and_end_with_a_letter_or_digit() {
    assert!(is_well_formed("u@my-mail.example.com"));
    assert!(is_well_formed("u@a--b.c0m"));
    assert!(!is_well_formed("u@-mail.example.com"));
    assert!(!is_well_formed("u@mail-.example.com"));
    assert!(!is_well_formed("u@mail.example.com-"));
    assert!(!is_well_formed("u@mail.-example.com"));
}

#[test]
fn only_one_at_sign_is_allowed() {
    assert!(!is_well_formed("a@b@example.com"));
    assert!(!is_well_formed("a@example.com@"));
}

#[test]
fn characters_outside_the_grammar_are_rejected() {
    for address in [
        "ursula le guin@gmail.com",
        "ursula@gmail com",
        "ursula@gm_ail.com",
        "urs(ula@gmail.com",
        "urs\"ula@gmail.com",
        "ursula@gmäil.com",
        "ürsula@gmail.com",
    ] {
        assert!(!is_well_formed(address), "{}", address);
    }
}

#[test]
fn the_special_characters_of_atoms_are_accepted() {
    assert!(is_well_formed("a!#$%&'*+-/=?^_`{|}~z@example.com"));
    assert!(is_well_formed("UPPER.lower.0123456789@EXAMPLE.COM"));
}

#[test]
fn the_parts_are_checked_by_position() {
    let characters = chars_of("ab.c@d-e.fg");
    assert_eq!(characters.len(), 11);
    assert_eq!(find_at_sign(&characters), Some(4));
    assert!(check_local_part(&characters, 4));
    assert!(check_domain(&characters, 5));
    assert!(!check_local_part(&characters, 3));
    assert!(!check_local_part(&characters, 0));
    assert!(!check_domain(&characters, 4));
    assert!(!check_domain(&characters, 9));
    assert!(!check_domain(&characters, 11));
    assert_eq!(find_at_sign(&chars_of("abc")), None);
}

#[test]
fn addresses_are_compared_character_for_character() {
    let a = SubscriberEmail::parse("ursula@gmail.com".to_string()).unwrap();
    let b = SubscriberEmail::parse("ursula@gmail.com".to_string()).unwrap();
    let c = SubscriberEmail::parse("Ursula@gmail.com".to_string()).unwrap();
    assert!(a.same_as(&b));
    assert!(!a.same_as(&c));
    assert!(a.same_as(&a.clone()));
}
