//! The operations that the transport layer offers, from the request object
//! to the response object or the rejection. Each checks the bounds of its
//! request where it has any, asks a service, and reports the outcome under
//! the status that the table of the operation assigns to it.

use vstd::prelude::*;
use crate::api::responses::{
    Rejection,
    RejectionView,
    invalid_field_rejection,
    translation_rejection,
    user_creation_rejection,
    user_lookup_rejection,
    user_update_rejection,
    word_pair_creation_rejection,
    word_pair_lookup_rejection,
};
use crate::api::translate::{TranslateDTO, TranslatedDTO};
use crate::api::user::{CreateUserDTO, UpdateUserDTO, UserDTO};
use crate::api::validation::InvalidField;
use crate::api::word_pair::{CreateWordPairDTO, WordPairDTO, word_pairs_shown};
use crate::domain::translate::Translation;
use crate::domain::user::User;
use crate::domain::word_pair::WordPair;
use crate::services::translate_service::{
    TranslateService,
    TranslateServiceError,
    TranslateServiceErrorView,
};
use crate::services::user_service::{UserService, UserServiceError, UserServiceErrorView};
use crate::services::word_pair_service::{
    WordPairService,
    WordPairServiceError,
    WordPairServiceErrorView,
};
use crate::storage::entities::{UserEntity, WordPairEntity};
use crate::traits::repository::{
    IUserRepository,
    IWordPairRepository,
    Repository,
    RepositoryError,
};
use crate::traits::translator::{ITranslator, TranslatorFailure};
use crate::types::ID;

verus! {

/// Whether `answer` rejects a request for the field `field` being out of
/// its bounds.
pub open spec fn rejects_field<T>(answer: Result<T, Rejection>, field: InvalidField) -> bool {
    answer matches Err(rejection) && rejection@ == RejectionView::of_invalid_field(field)
}

/// Whether `answer` is what the outcome of an operation on one user comes
/// to under the table `table`: the user as the transport layer shows it,
/// or the rejection that the table assigns to the failure.
pub open spec fn user_answer_resolves(
    outcome: Result<User, UserServiceError>,
    table: spec_fn(UserServiceErrorView) -> RejectionView,
    answer: Result<UserDTO, Rejection>,
) -> bool {
    match outcome {
        Ok(user) => answer == Ok::<UserDTO, Rejection>(UserDTO::of_user(user)),
        Err(error) => answer matches Err(rejection) && rejection@ == table(error@),
    }
}

/// Whether `answer` is what the outcome of an operation on one word pair
/// comes to under the table `table`: the word pair as the transport layer
/// shows it, or the rejection that the table assigns to the failure.
pub open spec fn word_pair_answer_resolves(
    outcome: Result<WordPair, WordPairServiceError>,
    table: spec_fn(WordPairServiceErrorView) -> RejectionView,
    answer: Result<WordPairDTO, Rejection>,
) -> bool {
    match outcome {
        Ok(pair) => answer == Ok::<WordPairDTO, Rejection>(WordPairDTO::of_word_pair(pair)),
        Err(error) => answer matches Err(rejection) && rejection@ == table(error@),
    }
}

/// Whether `shown` shows the word pairs `pairs`, one for one and in their
/// order.
pub open spec fn shows(pairs: Seq<WordPair>, shown: Seq<WordPairDTO>) -> bool {
    &&& shown.len() == pairs.len()
    &&& forall|i: int|
        0 <= i < pairs.len() ==> #[trigger] shown[i] == WordPairDTO::of_word_pair(pairs[i])
}

/// Whether `answer` is what the outcome of a listing of word pairs comes
/// to: the word pairs as the transport layer shows them, or the rejection
/// of a failed lookup.
pub open spec fn listing_answer_resolves(
    outcome: Result<Vec<WordPair>, WordPairServiceError>,
    answer: Result<Vec<WordPairDTO>, Rejection>,
) -> bool {
    match outcome {
        Ok(pairs) => answer matches Ok(shown) && shows(pairs@, shown@),
        Err(error) => answer matches Err(rejection) && rejection@
            == RejectionView::of_word_pair_lookup(error@),
    }
}

/// Whether `answer` is what the outcome of a deletion of a user comes to.
pub open spec fn user_deletion_answer_resolves(
    outcome: Result<(), UserServiceError>,
    answer: Result<(), Rejection>,
) -> bool {
    match outcome {
        Ok(_) => answer is Ok,
        Err(error) => answer matches Err(rejection) && rejection@
            == RejectionView::of_user_lookup(error@),
    }
}

/// Whether `answer` is what the outcome of a deletion of a word pair comes
/// to.
pub open spec fn word_pair_deletion_answer_resolves(
    outcome: Result<(), WordPairServiceError>,
    answer: Result<(), Rejection>,
) -> bool {
    match outcome {
        Ok(_) => answer is Ok,
        Err(error) => answer matches Err(rejection) && rejection@
            == RejectionView::of_word_pair_lookup(error@),
    }
}

/// Whether `answer` is what the outcome of a translation comes to: the
/// translation as the transport layer shows it, or the rejection of the
/// failure.
pub open spec fn translation_answer_resolves(
    outcome: Result<Translation, TranslateServiceError>,
    answer: Result<TranslatedDTO, Rejection>,
) -> bool {
    match outcome {
        Ok(translation) => answer == Ok::<TranslatedDTO, Rejection>(
            TranslatedDTO::shown(translation),
        ),
        Err(error) => answer matches Err(rejection) && rejection@
            == RejectionView::of_translation(error@),
    }
}

/// Translates the text of a request. The answer is what the translation
/// service made of the text, the target language and the source language of
/// the request, as the transport layer shows or rejects it.
pub fn translate<Translator>(
    translate_service: &TranslateService<Translator>,
    dto: &TranslateDTO,
) -> (answer: Result<TranslatedDTO, Rejection>) where
    Translator: ITranslator<Item = String, Error = TranslatorFailure>,

    ensures
        exists|
            source_text: &str,
            target_language: &str,
            source_language: &str,
            outcome: Result<Translation, TranslateServiceError>,
        |
            {
                &&& source_text@ == dto.source_text@
                &&& target_language@ == dto.target_language@
                &&& source_language@ == dto.source_language@
                &&& #[trigger] call_ensures(
                    TranslateService::<Translator>::translate_text,
                    (translate_service, source_text, target_language, source_language),
                    outcome,
                )
                &&& translation_answer_resolves(outcome, answer)
            },
{
    let outcome = translate_service.translate_text(
        dto.source_text.as_str(),
        dto.target_language.as_str(),
        dto.source_language.as_str(),
    );
    match outcome {
        Ok(translation) => Ok(TranslatedDTO::of_translation(translation)),
        Err(error) => Err(translation_rejection(&error)),
    }
}

/// Creates a user from a request. A request with a field out of its
/// bounds is rejected for the first such field and the service is not
/// asked. Otherwise the answer is what the user service made of the
/// request, as the transport layer shows or rejects it.
pub fn create_user<Repo>(
    user_service: &UserService<Repo>,
    dto: &CreateUserDTO,
) -> (answer: Result<UserDTO, Rejection>) where
    Repo: Repository<Item = User, Entity = UserEntity, Error = RepositoryError>,

    ensures
        match dto.first_invalid() {
            Some(field) => rejects_field(answer, field),
            None => exists|outcome: Result<User, UserServiceError>|
                {
                    &&& #[trigger] call_ensures(
                        UserService::<Repo>::create,
                        (user_service, dto),
                        outcome,
                    )
                    &&& user_answer_resolves(
                        outcome,
                        |error: UserServiceErrorView| RejectionView::of_user_creation(error),
                        answer,
                    )
                },
        },
{
    if let Err(field) = dto.validate() {
        return Err(invalid_field_rejection(field));
    }
    match user_service.create(dto) {
        Ok(user) => Ok(UserDTO::from(user)),
        Err(error) => Err(user_creation_rejection(&error)),
    }
}

/// Looks a user up by its identifier. The answer is what the user service
/// found, as the transport layer shows or rejects it.
pub fn get_user_by_id<Repo>(
    user_service: &UserService<Repo>,
    id: &ID,
) -> (answer: Result<UserDTO, Rejection>) where
    Repo: Repository<Item = User, Entity = UserEntity, Error = RepositoryError>,

    ensures
        exists|outcome: Result<User, UserServiceError>|
            {
                &&& #[trigger] call_ensures(
                    UserService::<Repo>::get_by_id,
                    (user_service, id),
                    outcome,
                )
                &&& user_answer_resolves(
                    outcome,
                    |error: UserServiceErrorView| RejectionView::of_user_lookup(error),
                    answer,
                )
            },
{
    match user_service.get_by_id(id) {
        Ok(user) => Ok(UserDTO::from(user)),
        Err(error) => Err(user_lookup_rejection(&error)),
    }
}

/// Looks a user up by its key. The answer is what the user service found,
/// as the transport layer shows or rejects it.
pub fn get_user_by_key<Repo>(
    user_service: &UserService<Repo>,
    key: &str,
) -> (answer: Result<UserDTO, Rejection>) where
    Repo: IUserRepository<Error = RepositoryError>,

    ensures
        exists|outcome: Result<User, UserServiceError>|
            {
                &&& #[trigger] call_ensures(
                    UserService::<Repo>::get_by_key,
                    (user_service, key),
                    outcome,
                )
                &&& user_answer_resolves(
                    outcome,
                    |error: UserServiceErrorView| RejectionView::of_user_lookup(error),
                    answer,
                )
            },
{
    match user_service.get_by_key(key) {
        Ok(user) => Ok(UserDTO::from(user)),
        Err(error) => Err(user_lookup_rejection(&error)),
    }
}

/// Updates a user from a request. A request with a field that is present
/// and out of its bounds is rejected for the first such field and the
/// service is not asked. Otherwise the answer is what the user service made
/// of the request, as the transport layer shows or rejects it.
pub fn update_user_by_id<Repo>(
    user_service: &UserService<Repo>,
    id: &ID,
    dto: &UpdateUserDTO,
) -> (answer: Result<UserDTO, Rejection>) where
    Repo: IUserRepository<Error = RepositoryError>,

    ensures
        match dto.first_invalid() {
            Some(field) => rejects_field(answer, field),
            None => exists|outcome: Result<User, UserServiceError>|
                {
                    &&& #[trigger] call_ensures(
                        UserService::<Repo>::update_by_id,
                        (user_service, id, dto),
                        outcome,
                    )
                    &&& user_answer_resolves(
                        outcome,
                        |error: UserServiceErrorView| RejectionView::of_user_update(error),
                        answer,
                    )
                },
        },
{
    if let Err(field) = dto.validate() {
        return Err(invalid_field_rejection(field));
    }
    match user_service.update_by_id(id, dto) {
        Ok(user) => Ok(UserDTO::from(user)),
        Err(error) => Err(user_update_rejection(&error)),
    }
}

/// Deletes a user. The answer is what the user service made of the
/// deletion, as the transport layer reports it.
pub fn delete_user_by_id<Repo>(
    user_service: &UserService<Repo>,
    id: &ID,
) -> (answer: Result<(), Rejection>) where
    Repo: Repository<Item = User, Entity = UserEntity, Error = RepositoryError>,

    ensures
        exists|outcome: Result<(), UserServiceError>|
            {
                &&& #[trigger] call_ensures(
                    UserService::<Repo>::delete_by_id,
                    (user_service, id),
                    outcome,
                )
                &&& user_deletion_answer_resolves(outcome, answer)
            },
{
    match user_service.delete_by_id(id) {
        Ok(_) => Ok(()),
        Err(error) => Err(user_lookup_rejection(&error)),
    }
}

/// Whether `answer` is an answer to the creation of a word pair of the
/// user `user_id` from the request `dto`: where the request has a field out
/// of its bounds, the rejection for the first such field; otherwise what
/// the word pair service made of the request, as the transport layer shows
/// or rejects it.
pub open spec fn answers_word_pair_creation<Repo>(
    word_pair_service: &WordPairService<Repo>,
    user_id: ID,
    dto: &CreateWordPairDTO,
    answer: Result<WordPairDTO, Rejection>,
) -> bool where
    Repo: Repository<Item = WordPair, Entity = WordPairEntity, Error = RepositoryError>,
 {
    match dto.first_invalid() {
        Some(field) => rejects_field(answer, field),
        None => exists|outcome: Result<WordPair, WordPairServiceError>|
            {
                &&& #[trigger] call_ensures(
                    WordPairService::<Repo>::create,
                    (word_pair_service, &user_id, dto),
                    outcome,
                )
                &&& word_pair_answer_resolves(
                    outcome,
                    |error: WordPairServiceErrorView| RejectionView::of_word_pair_creation(error),
                    answer,
                )
            },
    }
}

/// Whether `answer` is an answer to the listing of the word pairs of the
/// user `user_id`: what the word pair service listed, as the transport
/// layer shows or rejects it.
pub open spec fn answers_word_pair_listing<Repo>(
    word_pair_service: &WordPairService<Repo>,
    user_id: ID,
    answer: Result<Vec<WordPairDTO>, Rejection>,
) -> bool where Repo: IWordPairRepository<Error = RepositoryError> {
    exists|outcome: Result<Vec<WordPair>, WordPairServiceError>|
        {
            &&& #[trigger] call_ensures(
                WordPairService::<Repo>::get_by_user_id,
                (word_pair_service, &user_id),
                outcome,
            )
            &&& listing_answer_resolves(outcome, answer)
        }
}

/// Creates a word pair of the user `user_id` from a request. A request
/// with a field out of its bounds is rejected for the first such field and
/// the service is not asked.
pub fn add_word_pair_by_user_id<Repo>(
    word_pair_service: &WordPairService<Repo>,
    user_id: &ID,
    dto: &CreateWordPairDTO,
) -> (answer: Result<WordPairDTO, Rejection>) where
    Repo: Repository<Item = WordPair, Entity = WordPairEntity, Error = RepositoryError>,

    ensures
        answers_word_pair_creation(word_pair_service, *user_id, dto, answer),
{
    if let Err(field) = dto.validate() {
        return Err(invalid_field_rejection(field));
    }
    match word_pair_service.create(user_id, dto) {
        Ok(pair) => Ok(WordPairDTO::from(pair)),
        Err(error) => Err(word_pair_creation_rejection(&error)),
    }
}

/// Creates a word pair of the user stored under `key` from a request.
/// The user is looked up first: where the lookup fails, its failure is
/// rejected as a lookup's and no word pair is made. Otherwise the answer is
/// that of the creation of a word pair of the user that was found.
pub fn add_word_pair_by_user_key<UserRepo, PairRepo>(
    user_service: &UserService<UserRepo>,
    word_pair_service: &WordPairService<PairRepo>,
    key: &str,
    dto: &CreateWordPairDTO,
) -> (answer: Result<WordPairDTO, Rejection>) where
    UserRepo: IUserRepository<Error = RepositoryError>,
    PairRepo: Repository<Item = WordPair, Entity = WordPairEntity, Error = RepositoryError>,

    ensures
        exists|found: Result<User, UserServiceError>|
            {
                &&& #[trigger] call_ensures(
                    UserService::<UserRepo>::get_by_key,
                    (user_service, key),
                    found,
                )
                &&& match found {
                    Err(error) => answer matches Err(rejection) && rejection@
                        == RejectionView::of_user_lookup(error@),
                    Ok(user) => answers_word_pair_creation(word_pair_service, user.id, dto, answer),
                }
            },
{
    let user = match user_service.get_by_key(key) {
        Ok(user) => user,
        Err(error) => {
            return Err(user_lookup_rejection(&error));
        },
    };
    add_word_pair_by_user_id(word_pair_service, &user.id, dto)
}

/// Lists the word pairs of the user `user_id`. A user without word pairs
/// has an empty listing.
pub fn get_word_pairs_by_user_id<Repo>(
    word_pair_service: &WordPairService<Repo>,
    user_id: &ID,
) -> (answer: Result<Vec<WordPairDTO>, Rejection>) where
    Repo: IWordPairRepository<Error = RepositoryError>,

    ensures
        answers_word_pair_listing(word_pair_service, *user_id, answer),
{
    match word_pair_service.get_by_user_id(user_id) {
        Ok(pairs) => Ok(word_pairs_shown(pairs)),
        Err(error) => Err(word_pair_lookup_rejection(&error)),
    }
}

/// Lists the word pairs of the user stored under `key`. The user is
/// looked up first: where the lookup fails, its failure is rejected as a
/// lookup's. Otherwise the answer is that of the listing of the word pairs
/// of the user that was found.
pub fn get_word_pairs_by_user_key<UserRepo, PairRepo>(
    user_service: &UserService<UserRepo>,
    word_pair_service: &WordPairService<PairRepo>,
    key: &str,
) -> (answer: Result<Vec<WordPairDTO>, Rejection>) where
    UserRepo: IUserRepository<Error = RepositoryError>,
    PairRepo: IWordPairRepository<Error = RepositoryError>,

    ensures
        exists|found: Result<User, UserServiceError>|
            {
                &&& #[trigger] call_ensures(
                    UserService::<UserRepo>::get_by_key,
                    (user_service, key),
                    found,
                )
                &&& match found {
                    Err(error) => answer matches Err(rejection) && rejection@
                        == RejectionView::of_user_lookup(error@),
                    Ok(user) => answers_word_pair_listing(word_pair_service, user.id, answer),
                }
            },
{
    let user = match user_service.get_by_key(key) {
        Ok(user) => user,
        Err(error) => {
            return Err(user_lookup_rejection(&error));
        },
    };
    get_word_pairs_by_user_id(word_pair_service, &user.id)
}

/// Looks a word pair up by its identifier. The answer is what the word
/// pair service found, as the transport layer shows or rejects it.
pub fn get_word_pair_by_id<Repo>(
    word_pair_service: &WordPairService<Repo>,
    id: &ID,
) -> (answer: Result<WordPairDTO, Rejection>) where
    Repo: Repository<Item = WordPair, Entity = WordPairEntity, Error = RepositoryError>,

    ensures
        exists|outcome: Result<WordPair, WordPairServiceError>|
            {
                &&& #[trigger] call_ensures(
                    WordPairService::<Repo>::get_by_id,
                    (word_pair_service, id),
                    outcome,
                )
                &&& word_pair_answer_resolves(
                    outcome,
                    |error: WordPairServiceErrorView| RejectionView::of_word_pair_lookup(error),
                    answer,
                )
            },
{
    match word_pair_service.get_by_id(id) {
        Ok(pair) => Ok(WordPairDTO::from(pair)),
        Err(error) => Err(word_pair_lookup_rejection(&error)),
    }
}

/// Deletes a word pair. The answer is what the word pair service made of
/// the deletion, as the transport layer reports it.
pub fn delete_word_pair_by_id<Repo>(
    word_pair_service: &WordPairService<Repo>,
    id: &ID,
) -> (answer: Result<(), Rejection>) where
    Repo: Repository<Item = WordPair, Entity = WordPairEntity, Error = RepositoryError>,

    ensures
        exists|outcome: Result<(), WordPairServiceError>|
            {
                &&& #[trigger] call_ensures(
                    WordPairService::<Repo>::delete_by_id,
                    (word_pair_service, id),
                    outcome,
                )
                &&& word_pair_deletion_answer_resolves(outcome, answer)
            },
{
    match word_pair_service.delete_by_id(id) {
        Ok(_) => Ok(()),
        Err(error) => Err(word_pair_lookup_rejection(&error)),
    }
}

} // verus!
