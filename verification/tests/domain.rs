use vocab_service::domain::translate::Translation;
use vocab_service::domain::user::User;
use vocab_service::domain::word_pair::{
    CreateWordPair, WordPair, WordPairDomain, WordPairDomainError,
};
use vocab_service::identity::fresh_id;
use vocab_service::text::{normalize_language, normalize_text};
use vocab_service::types::{has_random_uuid_shape, NaiveTimestamp, Timestamp};

fn sample_user(updated_at: Timestamp) -> User {
    User::build(
        0x0123_4567_89ab_4def_8123_4567_89ab_cdef,
        "alice01".to_string(),
        "alice".to_string(),
        "$argon2id$stored".to_string(),
        Timestamp::new(1_700_000_000, 250),
        updated_at,
    )
}

#[test]
fn translation_holds_its_texts_as_given() {
    let translation = Translation::new("hallo", "Hello", "DE", "en");
    assert_eq!(translation.target_text, "hallo");
    assert_eq!(translation.source_text, "Hello");
    assert_eq!(translation.target_language, "DE");
    assert_eq!(translation.source_language, "en");
}

#[test]
fn title_case_capitalises_each_word() {
    assert_eq!(normalize_text("alice"), "Alice");
    assert_eq!(normalize_text("alice cooper"), "Alice Cooper");
    assert_eq!(normalize_text("ALICE"), "Alice");
    assert_eq!(normalize_text("Me"), "Me");
    assert_eq!(normalize_text("guten_morgen"), "Guten Morgen");
    assert_eq!(normalize_text("XMLHttpRequest"), "Xml Http Request");
    assert_eq!(normalize_text(""), "");
}

#[test]
fn lower_case_lowers_language_codes() {
    assert_eq!(normalize_language("DE"), "de");
    assert_eq!(normalize_language("en"), "en");
    assert_eq!(normalize_language("Pt-BR"), "pt-br");
    assert_eq!(normalize_language(""), "");
}

#[test]
fn normalisation_is_stable_on_names_and_codes() {
    for raw in ["alice", "alice cooper", "HELLO world", "hallo", "Guten Morgen", "x"] {
        let once = normalize_text(raw);
        assert_eq!(normalize_text(&once), once);
    }
    for raw in ["DE", "en", "Pt-BR", "ZH"] {
        let once = normalize_language(raw);
        assert_eq!(normalize_language(&once), once);
    }
}

#[test]
fn title_case_of_sharp_s_changes_when_applied_again() {
    let once = normalize_text("ß");
    assert_eq!(once, "SS");
    assert_eq!(normalize_text(&once), "Ss");
}

#[test]
fn built_user_has_title_case_name() {
    let at = Timestamp::new(1_700_000_000, 5);
    let user = User::build(
        7,
        "alice01".to_string(),
        "alice".to_string(),
        "hash".to_string(),
        at,
        at,
    );
    assert_eq!(user.id, 7);
    assert_eq!(user.key, "alice01");
    assert_eq!(user.name, "Alice");
    assert_eq!(user.hashed_password, "hash");
    assert_eq!(user.created_at, at);
    assert_eq!(user.updated_at, at);
}

#[test]
fn new_user_takes_the_stamps_it_is_given() {
    let created = Timestamp::new(10, 1);
    let updated = Timestamp::new(20, 2);
    let user = User::new(
        "bob".to_string(),
        "bob marley".to_string(),
        "h".to_string(),
        Some(created),
        Some(updated),
    );
    assert_eq!(user.created_at, created);
    assert_eq!(user.updated_at, updated);
    assert_eq!(user.name, "Bob Marley");
    assert_eq!(user.key, "bob");
    assert_ne!(user.id, 0);
    assert!(has_random_uuid_shape(user.id));
}

#[test]
fn new_user_reads_the_clock_for_absent_stamps() {
    let user = User::new("bob".to_string(), "bob".to_string(), "h".to_string(), None, None);
    assert!(user.created_at.check_valid());
    assert!(user.updated_at.check_valid());
    assert!(user.created_at.seconds > 1_600_000_000);
    assert!(!user.updated_at.is_before(&user.created_at));
}

#[test]
fn new_simple_user_is_fresh_and_normalised() {
    let first = User::new_simple("alice01".to_string(), "alice".to_string(), "h".to_string());
    let second = User::new_simple("alice01".to_string(), "alice".to_string(), "h".to_string());
    assert_eq!(first.name, "Alice");
    assert_eq!(first.key, "alice01");
    assert_eq!(first.hashed_password, "h");
    assert_ne!(first.id, 0);
    assert_ne!(second.id, 0);
    assert_ne!(first.id, second.id);
    assert!(has_random_uuid_shape(first.id));
}

#[test]
fn fresh_ids_are_version_four_uuids() {
    let id = fresh_id();
    assert_eq!((id >> 76) & 0xf, 4);
    assert_eq!((id >> 62) & 0x3, 2);
    assert!(has_random_uuid_shape(id));
    assert!(!has_random_uuid_shape(0));
    assert!(!has_random_uuid_shape(u128::MAX));
    assert!(has_random_uuid_shape(0x0000_0000_0000_4000_8000_0000_0000_0000));
}

#[test]
fn update_of_key_alone_leaves_the_name() {
    let stored = Timestamp::new(1_700_000_000, 250);
    let mut user = sample_user(stored);
    let at = Timestamp::new(1_700_000_001, 0);
    user.apply_update(Some("alice02".to_string()), None, at);
    assert_eq!(user.key, "alice02");
    assert_eq!(user.name, "Alice");
    assert_eq!(user.hashed_password, "$argon2id$stored");
    assert_eq!(user.id, 0x0123_4567_89ab_4def_8123_4567_89ab_cdef);
    assert_eq!(user.created_at, Timestamp::new(1_700_000_000, 250));
    assert_eq!(user.updated_at, at);
    assert!(stored.is_before(&user.updated_at));
}

#[test]
fn update_of_name_puts_it_in_title_case() {
    let mut user = sample_user(Timestamp::new(5, 0));
    user.apply_update(None, Some("alice COOPER".to_string()), Timestamp::new(6, 0));
    assert_eq!(user.key, "alice01");
    assert_eq!(user.name, "Alice Cooper");
    assert_eq!(user.updated_at, Timestamp::new(6, 0));
}

#[test]
fn update_without_fields_only_moves_the_stamp() {
    let mut user = sample_user(Timestamp::new(5, 0));
    user.apply_update(None, None, Timestamp::new(5, 1));
    assert_eq!(user.key, "alice01");
    assert_eq!(user.name, "Alice");
    assert_eq!(user.updated_at, Timestamp::new(5, 1));
}

#[test]
fn update_stamps_with_the_clock() {
    let stored = Timestamp::new(1_000, 0);
    let mut user = sample_user(stored);
    let updated = user.update(Some("k2".to_string()), Some("bob".to_string()));
    assert_eq!(updated.key, "k2");
    assert_eq!(updated.name, "Bob");
    assert!(stored.is_before(&updated.updated_at));
    assert_eq!(user.key, "k2");
    assert_eq!(user.created_at, Timestamp::new(1_700_000_000, 250));
}

#[test]
fn built_word_pair_is_normalised() {
    let at = Timestamp::new(1_700_000_000, 0);
    let pair = WordPair::build(1, 2, "hallo", "hello", "DE", "EN", at);
    assert_eq!(pair.target_text, "Hallo");
    assert_eq!(pair.source_text, "Hello");
    assert_eq!(pair.target_language, "de");
    assert_eq!(pair.source_language, "en");
    assert_eq!(pair.user_id, 2);
    assert_eq!(pair.id, 1);
    assert_eq!(pair.created_at, at);
}

#[test]
fn new_word_pair_is_fresh_and_owned() {
    let owner = 0xabcdu128;
    let first = WordPair::new(&owner, "hallo", "hello", "DE", "EN");
    let second = WordPair::new(&owner, "hallo", "hello", "DE", "EN");
    assert_eq!(first.user_id, owner);
    assert_eq!(first.target_text, "Hallo");
    assert_eq!(first.target_language, "de");
    assert_ne!(first.id, 0);
    assert_ne!(first.id, second.id);
    assert!(has_random_uuid_shape(first.id));
    assert!(first.created_at.check_valid());
}

#[test]
fn word_pair_domain_is_normalised() {
    let fields = CreateWordPair {
        target_text: "guten tag".to_string(),
        source_text: "good day".to_string(),
        target_language: "DE".to_string(),
        source_language: "En".to_string(),
    };
    let pair = WordPairDomain::build(3, 4, &fields);
    assert_eq!(pair.id, 3);
    assert_eq!(pair.user_id, 4);
    assert_eq!(pair.target_text, "Guten Tag");
    assert_eq!(pair.source_text, "Good Day");
    assert_eq!(pair.target_language, "de");
    assert_eq!(pair.source_language, "en");

    let made = WordPairDomain::new(&9, "hallo", "hello", "DE", "EN");
    assert_eq!(made.user_id, 9);
    assert_eq!(made.target_text, "Hallo");
    assert_eq!(made.source_language, "en");
}

#[test]
fn word_pair_domain_from_a_request_never_fails() {
    let fields = CreateWordPair {
        target_text: "hallo".to_string(),
        source_text: "hello".to_string(),
        target_language: "DE".to_string(),
        source_language: "EN".to_string(),
    };
    let made: Result<WordPairDomain, WordPairDomainError> = WordPairDomain::try_from(12, fields);
    let pair = made.unwrap();
    assert_eq!(pair.user_id, 12);
    assert_eq!(pair.target_text, "Hallo");
    assert_eq!(pair.target_language, "de");
}

#[test]
fn timestamps_order_by_seconds_then_nanoseconds() {
    let a = Timestamp::new(5, 999_999_999);
    let b = Timestamp::new(6, 0);
    let c = Timestamp::new(6, 1);
    assert!(a.is_before(&b));
    assert!(b.is_before(&c));
    assert!(!b.is_before(&a));
    assert!(!b.is_before(&b));
    assert!(Timestamp::new(-1, 0).is_before(&Timestamp::new(0, 0)));
    assert!(a.check_valid());
    assert!(!Timestamp::new(0, 1_000_000_000).check_valid());
    let naive = NaiveTimestamp::new(7, 8);
    assert_eq!(naive.seconds, 7);
    assert_eq!(naive.nanosecond, 8);
}
