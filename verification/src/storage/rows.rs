//! What a repository makes of the rows and counts that the store hands
//! back.

use vstd::prelude::*;
use vstd::string::*;
use crate::domain::word_pair::WordPair;
use crate::storage::entities::WordPairEntity;
use crate::traits::repository::{RepositoryError, RepositoryErrorView};

verus! {

/// The message of a deletion that matched no row.
pub const NO_ROW_DELETED: &'static str = "no row matched the identifier to delete";

/// The outcome of a deletion that removed `rows_affected` rows: success
/// where a row was removed, `NotFound` where none matched. So a second
/// deletion of one identifier fails.
pub fn deletion_outcome(rows_affected: u64) -> (outcome: Result<(), RepositoryError>)
    ensures
        rows_affected > 0 ==> outcome is Ok,
        rows_affected == 0 ==> (outcome matches Err(error) && error@
            == RepositoryErrorView::NotFound(NO_ROW_DELETED@)),
{
    if rows_affected > 0 {
        Ok(())
    } else {
        Err(RepositoryError::NotFound(String::from_str(NO_ROW_DELETED)))
    }
}

/// The word pairs that a sequence of rows stands for, in the order of the
/// rows. No rows give no word pairs, which is no failure.
pub fn word_pairs_of_rows(rows: &Vec<WordPairEntity>) -> (pairs: Vec<WordPair>)
    ensures
        pairs@.len() == rows@.len(),
        forall|i: int| 0 <= i < rows@.len() ==> (#[trigger] pairs@[i])@ == rows@[i]@.to_domain(),
{
    let mut pairs: Vec<WordPair> = Vec::new();
    let mut index: usize = 0;
    while index < rows.len()
        invariant
            index <= rows@.len(),
            pairs@.len() == index,
            forall|i: int| 0 <= i < index ==> (#[trigger] pairs@[i])@ == rows@[i]@.to_domain(),
        decreases rows@.len() - index,
    {
        pairs.push(WordPair::from(&rows[index]));
        index = index + 1;
    }
    pairs
}

} // verus!
