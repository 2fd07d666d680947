use std::sync::Mutex;

use vocab_service::api::handlers::{
    add_word_pair_by_user_id, add_word_pair_by_user_key, create_user, delete_user_by_id,
    delete_word_pair_by_id, get_user_by_id, get_user_by_key, get_word_pair_by_id,
    get_word_pairs_by_user_id, get_word_pairs_by_user_key, translate, update_user_by_id,
};
use vocab_service::api::translate::TranslateDTO;
use vocab_service::api::user::{CreateUserDTO, UpdateUserDTO};
use vocab_service::api::word_pair::CreateWordPairDTO;
use vocab_service::domain::user::User;
use vocab_service::domain::word_pair::WordPair;
use vocab_service::identity::fresh_id;
use vocab_service::password::{Argon2Crypto, CryptoError};
use vocab_service::services::translate_service::{
    translation_outcome, TranslateService, TranslateServiceError,
};
use vocab_service::services::user_service::{
    creation_outcome, deletion_outcome as user_deletion_outcome, lookup_outcome, update_outcome,
    UserService, UserServiceError,
};
use vocab_service::services::word_pair_service::{WordPairService, WordPairServiceError};
use vocab_service::storage::entities::{UserEntity, WordPairEntity};
use vocab_service::storage::failure::StoreFailure;
use vocab_service::storage::rows::{deletion_outcome, word_pairs_of_rows};
use vocab_service::traits::crypto::ICrypto;
use vocab_service::traits::repository::{
    IUserRepository, IWordPairRepository, Repository, RepositoryError,
};
use vocab_service::traits::translator::{ITranslator, TranslatorFailure};
use vocab_service::types::{Timestamp, ID};

fn missing_row() -> RepositoryError {
    RepositoryError::classify(StoreFailure {
        row_not_found: true,
        sqlstate: None,
        message: "no rows returned by a query that expected to return at least one row"
            .to_string(),
    })
}

fn duplicate_key() -> RepositoryError {
    RepositoryError::classify(StoreFailure {
        row_not_found: false,
        sqlstate: Some("23505".to_string()),
        message: "duplicate key value violates unique constraint \"users_key_key\"".to_string(),
    })
}

fn broken_pipe() -> RepositoryError {
    RepositoryError::classify(StoreFailure {
        row_not_found: false,
        sqlstate: None,
        message: "error communicating with database: broken pipe".to_string(),
    })
}

/// A store of users in memory, with the uniqueness of `key` enforced.
struct MemoryUsers {
    rows: Mutex<Vec<UserEntity>>,
}

impl Repository for MemoryUsers {
    type Pool = ();
    type Item = User;
    type Entity = UserEntity;
    type Error = RepositoryError;

    fn new(_db: ()) -> Self {
        Self { rows: Mutex::new(Vec::new()) }
    }

    fn insert(&self, item: &User) -> Result<User, RepositoryError> {
        let entity = UserEntity::from(item);
        let mut rows = self.rows.lock().unwrap();
        if rows.iter().any(|row| row.key == entity.key || row.id == entity.id) {
            return Err(duplicate_key());
        }
        rows.push(entity.clone());
        Ok(User::from(&entity))
    }

    fn select_by_id(&self, id: &ID) -> Result<User, RepositoryError> {
        let rows = self.rows.lock().unwrap();
        match rows.iter().find(|row| row.id == *id) {
            Some(row) => Ok(User::from(row)),
            None => Err(missing_row()),
        }
    }

    fn delete_by_id(&self, id: &ID) -> Result<(), RepositoryError> {
        let mut rows = self.rows.lock().unwrap();
        let before = rows.len();
        rows.retain(|row| row.id != *id);
        deletion_outcome((before - rows.len()) as u64)
    }
}

impl IUserRepository for MemoryUsers {
    fn select_by_key(&self, key: &str) -> Result<User, RepositoryError> {
        let rows = self.rows.lock().unwrap();
        match rows.iter().find(|row| row.key == key) {
            Some(row) => Ok(User::from(row)),
            None => Err(missing_row()),
        }
    }

    fn update_by_id(&self, updated_user: &User) -> Result<User, RepositoryError> {
        let entity = UserEntity::from(updated_user);
        let mut rows = self.rows.lock().unwrap();
        if rows.iter().any(|row| row.key == entity.key && row.id != entity.id) {
            return Err(duplicate_key());
        }
        match rows.iter_mut().find(|row| row.id == entity.id) {
            Some(row) => {
                *row = entity.clone();
                Ok(User::from(&entity))
            }
            None => Err(missing_row()),
        }
    }
}

/// A store of word pairs in memory.
struct MemoryWordPairs {
    rows: Mutex<Vec<WordPairEntity>>,
}

impl Repository for MemoryWordPairs {
    type Pool = ();
    type Item = WordPair;
    type Entity = WordPairEntity;
    type Error = RepositoryError;

    fn new(_db: ()) -> Self {
        Self { rows: Mutex::new(Vec::new()) }
    }

    fn insert(&self, item: &WordPair) -> Result<WordPair, RepositoryError> {
        let entity = WordPairEntity::from(item);
        self.rows.lock().unwrap().push(entity.clone());
        Ok(WordPair::from(&entity))
    }

    fn select_by_id(&self, id: &ID) -> Result<WordPair, RepositoryError> {
        let rows = self.rows.lock().unwrap();
        match rows.iter().find(|row| row.id == *id) {
            Some(row) => Ok(WordPair::from(row)),
            None => Err(missing_row()),
        }
    }

    fn delete_by_id(&self, id: &ID) -> Result<(), RepositoryError> {
        let mut rows = self.rows.lock().unwrap();
        let before = rows.len();
        rows.retain(|row| row.id != *id);
        deletion_outcome((before - rows.len()) as u64)
    }
}

impl IWordPairRepository for MemoryWordPairs {
    fn select_by_user_id(&self, user_id: &ID) -> Result<Vec<WordPair>, RepositoryError> {
        let rows = self.rows.lock().unwrap();
        let owned: Vec<WordPairEntity> =
            rows.iter().filter(|row| row.user_id == *user_id).cloned().collect();
        Ok(word_pairs_of_rows(&owned))
    }
}

/// A store that fails every call in the same way.
struct BrokenStore {
    conflict: bool,
}

impl BrokenStore {
    fn failure(&self) -> RepositoryError {
        if self.conflict {
            duplicate_key()
        } else {
            broken_pipe()
        }
    }
}

impl Repository for BrokenStore {
    type Pool = bool;
    type Item = WordPair;
    type Entity = WordPairEntity;
    type Error = RepositoryError;

    fn new(conflict: bool) -> Self {
        Self { conflict }
    }

    fn insert(&self, _item: &WordPair) -> Result<WordPair, RepositoryError> {
        Err(self.failure())
    }

    fn select_by_id(&self, _id: &ID) -> Result<WordPair, RepositoryError> {
        Err(self.failure())
    }

    fn delete_by_id(&self, _id: &ID) -> Result<(), RepositoryError> {
        Err(self.failure())
    }
}

impl IWordPairRepository for BrokenStore {
    fn select_by_user_id(&self, _user_id: &ID) -> Result<Vec<WordPair>, RepositoryError> {
        Err(self.failure())
    }
}

/// A store of users that answers every call with success and holds nothing.
struct TestUserRepository {
    _db: i32,
}

impl Repository for TestUserRepository {
    type Pool = i32;
    type Item = User;
    type Entity = UserEntity;
    type Error = RepositoryError;

    fn new(db: i32) -> Self {
        Self { _db: db }
    }

    fn insert(&self, item: &User) -> Result<User, RepositoryError> {
        Ok(item.clone())
    }

    fn select_by_id(&self, id: &ID) -> Result<User, RepositoryError> {
        Ok(User {
            id: *id,
            key: "faksfjas".to_string(),
            name: "Mdafasdfd".to_string(),
            hashed_password: "JJalksf".to_string(),
            created_at: Timestamp::new(1_700_000_000, 0),
            updated_at: Timestamp::new(1_700_000_000, 0),
        })
    }

    fn delete_by_id(&self, _id: &ID) -> Result<(), RepositoryError> {
        Ok(())
    }
}

impl IUserRepository for TestUserRepository {
    fn select_by_key(&self, key: &str) -> Result<User, RepositoryError> {
        Ok(User {
            id: fresh_id(),
            key: key.to_string(),
            name: "Mdafasdfd".to_string(),
            hashed_password: "JJalksf".to_string(),
            created_at: Timestamp::new(1_700_000_000, 0),
            updated_at: Timestamp::new(1_700_000_000, 0),
        })
    }

    fn update_by_id(&self, updated_params: &User) -> Result<User, RepositoryError> {
        Ok(updated_params.clone())
    }
}

/// A store of word pairs that answers every call with success.
struct TestWordPairRepository {
    _db: i32,
}

impl Repository for TestWordPairRepository {
    type Pool = i32;
    type Item = WordPair;
    type Entity = WordPairEntity;
    type Error = RepositoryError;

    fn new(db: i32) -> Self {
        Self { _db: db }
    }

    fn insert(&self, item: &WordPair) -> Result<WordPair, RepositoryError> {
        Ok(item.clone())
    }

    fn select_by_id(&self, id: &ID) -> Result<WordPair, RepositoryError> {
        Ok(WordPair {
            id: *id,
            user_id: fresh_id(),
            target_text: "Hallo".to_string(),
            source_text: "Hello".to_string(),
            target_language: "de".to_string(),
            source_language: "en".to_string(),
            created_at: Timestamp::new(1_700_000_000, 0),
        })
    }

    fn delete_by_id(&self, _id: &ID) -> Result<(), RepositoryError> {
        Ok(())
    }
}

impl IWordPairRepository for TestWordPairRepository {
    fn select_by_user_id(&self, user_id: &ID) -> Result<Vec<WordPair>, RepositoryError> {
        Ok(vec![WordPair {
            id: fresh_id(),
            user_id: *user_id,
            target_text: "Hallo".to_string(),
            source_text: "Hello".to_string(),
            target_language: "de".to_string(),
            source_language: "en".to_string(),
            created_at: Timestamp::new(1_700_000_000, 0),
        }])
    }
}

/// An adapter that answers from a fixed table.
struct TableTranslator;

impl ITranslator for TableTranslator {
    type Item = String;
    type Error = TranslatorFailure;

    fn translate_text(
        &self,
        source_text: &str,
        source_language: &str,
        target_language: &str,
    ) -> Result<String, TranslatorFailure> {
        match (source_text, source_language, target_language) {
            ("Hello", "en", "de") => Ok("Hallo".to_string()),
            (_, _, "xx") => Err(TranslatorFailure::UnsupportedLanguage("xx".to_string())),
            _ => Err(TranslatorFailure::Failed("Timeout error: timed out".to_string())),
        }
    }
}

fn alice() -> CreateUserDTO {
    CreateUserDTO {
        key: "alice01".to_string(),
        name: "alice".to_string(),
        password: "secretpw".to_string(),
    }
}

fn hallo() -> CreateWordPairDTO {
    CreateWordPairDTO {
        target_text: "hallo".to_string(),
        source_text: "hello".to_string(),
        target_language: "DE".to_string(),
        source_language: "EN".to_string(),
    }
}

#[test]
fn user_service_test_create() {
    let repo = TestUserRepository { _db: 12345 };

    let user_service = UserService::new(repo);

    let test_user = CreateUserDTO {
        key: "fsdfsf".to_string(),
        name: "Me".to_string(),
        password: "hefkajdf".to_string(),
    };

    let res = user_service.create(&test_user).unwrap();

    assert_eq!(res.name, test_user.name);
    assert_eq!(res.key, test_user.key);
    assert_ne!(res.hashed_password, test_user.password);
}

#[test]
fn word_pair_service_test_create() {
    let repo = TestWordPairRepository { _db: 12345 };

    let word_pair_service = WordPairService::new(repo);

    let test_user_id = fresh_id();
    let test_params = CreateWordPairDTO {
        target_text: "Hallo".to_string(),
        source_text: "Hello".to_string(),
        target_language: "de".to_string(),
        source_language: "en".to_string(),
    };

    let res = word_pair_service.create(&test_user_id, &test_params).unwrap();

    assert_eq!(res.user_id, test_user_id);
}

#[test]
fn test_format() {
    let repo = TestWordPairRepository { _db: 12345 };

    let word_pair_service = WordPairService::new(repo);

    let test_user_id = fresh_id();
    let test_params = CreateWordPairDTO {
        target_text: "Hallo".to_string(),
        source_text: "Hello".to_string(),
        target_language: "de".to_string(),
        source_language: "en".to_string(),
    };

    let res = word_pair_service.create(&test_user_id, &test_params).unwrap();

    assert_eq!(res.source_text, "Hello");
    assert_eq!(res.target_text, "Hallo".to_string());
}

#[test]
fn test_get_by_user_id() {
    let repo = TestWordPairRepository { _db: 12345 };

    let word_pair_service = WordPairService::new(repo);

    let test_user_id = fresh_id();

    let res = word_pair_service.get_by_user_id(&test_user_id).unwrap();

    let val = vec![WordPair {
        id: fresh_id(),
        user_id: test_user_id,
        target_text: "Hallo".to_string(),
        source_text: "Hello".to_string(),
        target_language: "de".to_string(),
        source_language: "en".to_string(),
        created_at: Timestamp::new(1_700_000_000, 0),
    }];

    assert_eq!(res[0].user_id, val[0].user_id);
}

#[test]
fn created_user_is_normalised_and_hashed() {
    let service = UserService::new(MemoryUsers::new(()));
    let user = service.create(&alice()).unwrap();
    assert_eq!(user.name, "Alice");
    assert_eq!(user.key, "alice01");
    assert_ne!(user.hashed_password, "secretpw");
    assert_ne!(user.id, 0);
    assert!(Argon2Crypto.verify("secretpw", &user.hashed_password).is_ok());
    assert!(user.created_at.check_valid());
    assert!(user.created_at.seconds > 1_600_000_000);
}

#[test]
fn created_users_have_distinct_identifiers() {
    let service = UserService::new(MemoryUsers::new(()));
    let first = service.create(&alice()).unwrap();
    let mut other = alice();
    other.key = "alice02".to_string();
    let second = service.create(&other).unwrap();
    assert_ne!(first.id, 0);
    assert_ne!(second.id, 0);
    assert_ne!(first.id, second.id);
}

#[test]
fn second_create_with_one_key_is_a_conflict() {
    let service = UserService::new(MemoryUsers::new(()));
    assert!(service.create(&alice()).is_ok());
    let mut again = alice();
    again.name = "another alice".to_string();
    let second = service.create(&again);
    assert!(matches!(second, Err(UserServiceError::KeyAlreadyExists(key)) if key == "alice01"));
}

#[test]
fn users_are_found_by_id_and_by_key() {
    let service = UserService::new(MemoryUsers::new(()));
    let created = service.create(&alice()).unwrap();
    let by_id = service.get_by_id(&created.id).unwrap();
    assert_eq!(by_id.key, "alice01");
    assert_eq!(by_id.name, "Alice");
    assert_eq!(by_id.hashed_password, created.hashed_password);
    let by_key = service.get_by_key("alice01").unwrap();
    assert_eq!(by_key.id, created.id);
}

#[test]
fn unknown_user_is_not_found() {
    let service = UserService::new(MemoryUsers::new(()));
    assert!(matches!(service.get_by_id(&42), Err(UserServiceError::NotFound(_))));
    assert!(matches!(service.get_by_key("nobody"), Err(UserServiceError::NotFound(_))));
    assert!(matches!(service.delete_by_id(&42), Err(UserServiceError::NotFound(_))));
    let request = UpdateUserDTO { key: Some("k".to_string()), name: None };
    assert!(matches!(service.update_by_id(&42, &request), Err(UserServiceError::NotFound(_))));
}

#[test]
fn update_of_key_changes_only_the_key() {
    let service = UserService::new(MemoryUsers::new(()));
    let created = service.create(&alice()).unwrap();
    let request = UpdateUserDTO { key: Some("alice02".to_string()), name: None };
    let updated = service.update_by_id(&created.id, &request).unwrap();
    assert_eq!(updated.id, created.id);
    assert_eq!(updated.key, "alice02");
    assert_eq!(updated.name, "Alice");
    assert_eq!(updated.hashed_password, created.hashed_password);
    assert_eq!(updated.created_at, created.created_at);
    assert!(!updated.updated_at.is_before(&created.updated_at));
    let stored = service.get_by_key("alice02").unwrap();
    assert_eq!(stored.id, created.id);
    assert!(matches!(service.get_by_key("alice01"), Err(UserServiceError::NotFound(_))));
}

#[test]
fn update_of_name_is_normalised() {
    let service = UserService::new(MemoryUsers::new(()));
    let created = service.create(&alice()).unwrap();
    let request = UpdateUserDTO { key: None, name: Some("alice cooper".to_string()) };
    let updated = service.update_by_id(&created.id, &request).unwrap();
    assert_eq!(updated.key, "alice01");
    assert_eq!(updated.name, "Alice Cooper");
}

#[test]
fn update_to_a_taken_key_is_a_conflict() {
    let service = UserService::new(MemoryUsers::new(()));
    let first = service.create(&alice()).unwrap();
    let mut other = alice();
    other.key = "bob01".to_string();
    service.create(&other).unwrap();
    let request = UpdateUserDTO { key: Some("bob01".to_string()), name: None };
    let updated = service.update_by_id(&first.id, &request);
    assert!(matches!(updated, Err(UserServiceError::KeyAlreadyExists(key)) if key == "bob01"));
    assert_eq!(service.get_by_id(&first.id).unwrap().key, "alice01");
}

#[test]
fn second_delete_of_a_user_is_not_found() {
    let service = UserService::new(MemoryUsers::new(()));
    let created = service.create(&alice()).unwrap();
    assert!(service.delete_by_id(&created.id).is_ok());
    assert!(matches!(service.delete_by_id(&created.id), Err(UserServiceError::NotFound(_))));
    assert!(matches!(service.get_by_id(&created.id), Err(UserServiceError::NotFound(_))));
}

#[test]
fn created_word_pair_is_normalised_and_owned() {
    let service = WordPairService::new(MemoryWordPairs::new(()));
    let owner = fresh_id();
    let pair = service.create(&owner, &hallo()).unwrap();
    assert_eq!(pair.target_text, "Hallo");
    assert_eq!(pair.source_text, "Hello");
    assert_eq!(pair.target_language, "de");
    assert_eq!(pair.source_language, "en");
    assert_eq!(pair.user_id, owner);
    assert_ne!(pair.id, 0);
    let found = service.get_by_id(&pair.id).unwrap();
    assert_eq!(found.target_text, "Hallo");
    assert_eq!(found.user_id, owner);
}

#[test]
fn user_without_word_pairs_has_an_empty_listing() {
    let service = WordPairService::new(MemoryWordPairs::new(()));
    let owner = fresh_id();
    let other = fresh_id();
    service.create(&other, &hallo()).unwrap();
    let listed = service.get_by_user_id(&owner).unwrap();
    assert!(listed.is_empty());
}

#[test]
fn listing_holds_the_pairs_of_the_owner_only() {
    let service = WordPairService::new(MemoryWordPairs::new(()));
    let owner = fresh_id();
    let other = fresh_id();
    let first = service.create(&owner, &hallo()).unwrap();
    service.create(&other, &hallo()).unwrap();
    let second = service.create(&owner, &hallo()).unwrap();
    let listed = service.get_by_user_id(&owner).unwrap();
    assert_eq!(listed.len(), 2);
    assert_eq!(listed[0].id, first.id);
    assert_eq!(listed[1].id, second.id);
}

#[test]
fn second_delete_of_a_word_pair_is_not_found() {
    let service = WordPairService::new(MemoryWordPairs::new(()));
    let pair = service.create(&fresh_id(), &hallo()).unwrap();
    assert!(service.delete_by_id(&pair.id).is_ok());
    assert!(matches!(service.delete_by_id(&pair.id), Err(WordPairServiceError::NotFound(_))));
    assert!(matches!(service.get_by_id(&pair.id), Err(WordPairServiceError::NotFound(_))));
}

#[test]
fn every_store_failure_of_a_word_pair_insert_is_database() {
    let failing = WordPairService::new(BrokenStore::new(false));
    let created = failing.create(&1, &hallo());
    assert!(matches!(
        created,
        Err(WordPairServiceError::Database(message))
            if message == "error communicating with database: broken pipe"
    ));
    let conflicting = WordPairService::new(BrokenStore::new(true));
    assert!(matches!(conflicting.create(&1, &hallo()), Err(WordPairServiceError::Database(_))));
    assert!(matches!(conflicting.get_by_id(&1), Err(WordPairServiceError::Database(_))));
    assert!(matches!(failing.delete_by_id(&1), Err(WordPairServiceError::Database(_))));
    assert!(matches!(failing.get_by_user_id(&1), Err(WordPairServiceError::Database(_))));
}

#[test]
fn translation_keeps_the_request_beside_the_answer() {
    let service = TranslateService::new(TableTranslator);
    let translation = service.translate_text("Hello", "de", "en").unwrap();
    assert_eq!(translation.target_text, "Hallo");
    assert_eq!(translation.source_text, "Hello");
    assert_eq!(translation.target_language, "de");
    assert_eq!(translation.source_language, "en");
}

#[test]
fn unknown_language_is_surfaced() {
    let service = TranslateService::new(TableTranslator);
    let refused = service.translate_text("Hello", "xx", "en");
    assert!(matches!(refused, Err(TranslateServiceError::NotFoundLanguage(code)) if code == "xx"));
}

#[test]
fn adapter_failure_is_a_translator_error() {
    let service = TranslateService::new(TableTranslator);
    let failed = service.translate_text("Bonjour", "de", "fr");
    assert!(matches!(
        failed,
        Err(TranslateServiceError::TranslatorError(message))
            if message == "Timeout error: timed out"
    ));
    let direct = translation_outcome(
        Err(TranslatorFailure::Failed("down".to_string())),
        "a",
        "b",
        "c",
    );
    assert!(matches!(direct, Err(TranslateServiceError::TranslatorError(m)) if m == "down"));
}

#[test]
fn user_failures_are_classified_by_operation() {
    assert!(matches!(
        creation_outcome(Err(duplicate_key()), "alice01"),
        Err(UserServiceError::KeyAlreadyExists(key)) if key == "alice01"
    ));
    assert!(matches!(
        creation_outcome(Err(missing_row()), "alice01"),
        Err(UserServiceError::Database(_))
    ));
    assert!(matches!(
        creation_outcome(Err(broken_pipe()), "alice01"),
        Err(UserServiceError::Database(message))
            if message == "error communicating with database: broken pipe"
    ));
    assert!(matches!(lookup_outcome(Err(missing_row())), Err(UserServiceError::NotFound(_))));
    assert!(matches!(lookup_outcome(Err(duplicate_key())), Err(UserServiceError::Database(_))));
    assert!(matches!(lookup_outcome(Err(broken_pipe())), Err(UserServiceError::Database(_))));
    assert!(matches!(
        user_deletion_outcome(Err(missing_row())),
        Err(UserServiceError::NotFound(_))
    ));
    assert!(user_deletion_outcome(Ok(())).is_ok());
    assert!(matches!(
        update_outcome(Err(duplicate_key()), "bob"),
        Err(UserServiceError::KeyAlreadyExists(key)) if key == "bob"
    ));
    assert!(matches!(
        update_outcome(Err(missing_row()), "bob"),
        Err(UserServiceError::NotFound(_))
    ));
    assert!(matches!(
        update_outcome(Err(broken_pipe()), "bob"),
        Err(UserServiceError::Database(_))
    ));
}

#[test]
fn failures_are_reported_under_their_texts() {
    assert_eq!(
        UserServiceError::KeyAlreadyExists("alice01".to_string()).message(),
        "User with this key already exists: alice01"
    );
    assert_eq!(UserServiceError::InvalidKey("a".to_string()).message(), "Invalid user key: a");
    assert_eq!(
        UserServiceError::InvalidPassword("short".to_string()).message(),
        "Password is too easy: short"
    );
    assert_eq!(UserServiceError::NotFound("gone".to_string()).message(), "User not found: `gone`");
    assert_eq!(UserServiceError::Database("down".to_string()).message(), "Database error: `down`");
    assert_eq!(
        UserServiceError::Crypto("oom".to_string()).message(),
        "Crypto driver error: `oom`"
    );
    assert_eq!(UserServiceError::Unknown.message(), "Unknown error");
    assert_eq!(
        WordPairServiceError::WordPairAlreadyExists("hallo".to_string()).message(),
        "This word pair already exists: hallo"
    );
    assert_eq!(
        WordPairServiceError::NotFound("gone".to_string()).message(),
        "Word pair not found: `gone`"
    );
    assert_eq!(
        WordPairServiceError::Database("down".to_string()).message(),
        "Database error: `down`"
    );
    assert_eq!(WordPairServiceError::Unknown.message(), "Unknown error");
    assert_eq!(
        TranslateServiceError::NotFoundLanguage("xx".to_string()).message(),
        "Language not found: `xx`"
    );
    assert_eq!(
        TranslateServiceError::TranslatorError("down".to_string()).message(),
        "Translation failed: `down`"
    );
    assert_eq!(TranslateServiceError::Unknown.message(), "Unknown error");
}

#[test]
fn crypto_failure_is_classified() {
    let failure = UserServiceError::from_crypto(CryptoError::HashingFailed("out of memory".to_string()));
    assert!(matches!(failure, UserServiceError::Crypto(reason) if reason == "out of memory"));
}

#[test]
fn handler_rejects_a_request_out_of_bounds_before_the_store() {
    let users = UserService::new(MemoryUsers::new(()));
    let mut request = alice();
    request.key = "al".to_string();
    let rejected = create_user(&users, &request).unwrap_err();
    assert_eq!((rejected.status, rejected.message), (422, "Key is invalid"));
    let mut request = alice();
    request.name = "a".to_string();
    let rejected = create_user(&users, &request).unwrap_err();
    assert_eq!((rejected.status, rejected.message), (422, "Name is invalid"));
    assert!(matches!(users.get_by_key("al"), Err(UserServiceError::NotFound(_))));
    assert!(matches!(users.get_by_key("alice01"), Err(UserServiceError::NotFound(_))));
}

#[test]
fn handler_creates_and_shows_a_user() {
    let users = UserService::new(MemoryUsers::new(()));
    let shown = create_user(&users, &alice()).unwrap();
    assert_eq!(shown.key, "alice01");
    assert_eq!(shown.name, "Alice");
    assert_ne!(shown.id, 0);
    let again = create_user(&users, &alice()).unwrap_err();
    assert_eq!((again.status, again.message), (422, "Key already exists"));
    let by_id = get_user_by_id(&users, &shown.id).unwrap();
    assert_eq!(by_id.key, "alice01");
    let by_key = get_user_by_key(&users, "alice01").unwrap();
    assert_eq!(by_key.id, shown.id);
    let missing = get_user_by_key(&users, "nobody").unwrap_err();
    assert_eq!((missing.status, missing.message), (404, "User not found"));
}

#[test]
fn handler_updates_and_deletes_a_user() {
    let users = UserService::new(MemoryUsers::new(()));
    let shown = create_user(&users, &alice()).unwrap();
    let short = UpdateUserDTO { key: Some("a".to_string()), name: None };
    let rejected = update_user_by_id(&users, &shown.id, &short).unwrap_err();
    assert_eq!((rejected.status, rejected.message), (422, "Key is invalid"));
    let request = UpdateUserDTO { key: Some("alice02".to_string()), name: None };
    let updated = update_user_by_id(&users, &shown.id, &request).unwrap();
    assert_eq!(updated.key, "alice02");
    assert_eq!(updated.name, "Alice");
    let unknown = update_user_by_id(&users, &1, &request).unwrap_err();
    assert_eq!((unknown.status, unknown.message), (404, "User not found"));
    assert!(delete_user_by_id(&users, &shown.id).is_ok());
    let gone = delete_user_by_id(&users, &shown.id).unwrap_err();
    assert_eq!((gone.status, gone.message), (404, "User not found"));
}

#[test]
fn handler_adds_and_lists_word_pairs() {
    let users = UserService::new(MemoryUsers::new(()));
    let pairs = WordPairService::new(MemoryWordPairs::new(()));
    let owner = create_user(&users, &alice()).unwrap();

    let listed = get_word_pairs_by_user_key(&users, &pairs, "alice01").unwrap();
    assert!(listed.is_empty());

    let first = add_word_pair_by_user_id(&pairs, &owner.id, &hallo()).unwrap();
    assert_eq!(first.target_text, "Hallo");
    assert_eq!(first.target_language, "de");
    assert_eq!(first.user_id, owner.id);
    let second = add_word_pair_by_user_key(&users, &pairs, "alice01", &hallo()).unwrap();
    assert_eq!(second.user_id, owner.id);
    assert_ne!(second.id, first.id);

    let listed = get_word_pairs_by_user_id(&pairs, &owner.id).unwrap();
    assert_eq!(listed.len(), 2);
    assert_eq!(listed[0].id, first.id);
    assert_eq!(listed[1].id, second.id);
    let by_key = get_word_pairs_by_user_key(&users, &pairs, "alice01").unwrap();
    assert_eq!(by_key.len(), 2);

    let nobody = add_word_pair_by_user_key(&users, &pairs, "nobody", &hallo()).unwrap_err();
    assert_eq!((nobody.status, nobody.message), (404, "User not found"));
    let nobody = get_word_pairs_by_user_key(&users, &pairs, "nobody").unwrap_err();
    assert_eq!((nobody.status, nobody.message), (404, "User not found"));

    let mut long_code = hallo();
    long_code.target_language = "german".to_string();
    let rejected = add_word_pair_by_user_id(&pairs, &owner.id, &long_code).unwrap_err();
    assert_eq!((rejected.status, rejected.message), (422, "Target language is invalid"));

    let found = get_word_pair_by_id(&pairs, &first.id).unwrap();
    assert_eq!(found.source_text, "Hello");
    assert!(delete_word_pair_by_id(&pairs, &first.id).is_ok());
    let gone = delete_word_pair_by_id(&pairs, &first.id).unwrap_err();
    assert_eq!((gone.status, gone.message), (404, "Word pair not found"));
    let gone = get_word_pair_by_id(&pairs, &first.id).unwrap_err();
    assert_eq!((gone.status, gone.message), (404, "Word pair not found"));
}

#[test]
fn handler_reports_store_failures_as_internal() {
    let broken = WordPairService::new(BrokenStore::new(false));
    let failed = add_word_pair_by_user_id(&broken, &1, &hallo()).unwrap_err();
    assert_eq!((failed.status, failed.message), (500, "Internal server error"));
    let failed = get_word_pairs_by_user_id(&broken, &1).unwrap_err();
    assert_eq!((failed.status, failed.message), (500, "Internal server error"));
}

#[test]
fn handler_translates() {
    let service = TranslateService::new(TableTranslator);
    let request = TranslateDTO {
        source_text: "Hello".to_string(),
        target_language: "de".to_string(),
        source_language: "en".to_string(),
    };
    let shown = translate(&service, &request).unwrap();
    assert_eq!(shown.target_text, "Hallo");
    assert_eq!(shown.source_text, "Hello");
    assert_eq!(shown.target_language, "de");
    assert_eq!(shown.source_language, "en");
    let unknown = TranslateDTO {
        source_text: "Hello".to_string(),
        target_language: "xx".to_string(),
        source_language: "en".to_string(),
    };
    let rejected = translate(&service, &unknown).unwrap_err();
    assert_eq!((rejected.status, rejected.message), (400, "Language not found"));
    let failing = TranslateDTO {
        source_text: "Bonjour".to_string(),
        target_language: "de".to_string(),
        source_language: "fr".to_string(),
    };
    let rejected = translate(&service, &failing).unwrap_err();
    assert_eq!((rejected.status, rejected.message), (500, "Translation failed"));
}
