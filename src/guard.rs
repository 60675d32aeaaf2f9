use vstd::prelude::*;
use crate::error::{AppError, AppErrorView};
use crate::models::ProfileRecord;

verus! {

/// Most records of one category a user may hold.
pub const RECORD_LIMIT: i64 = 50;

/// The categories of records that belong to a user.
#[derive(Debug, Clone, Copy, PartialEq, Eq, Structural)]
pub enum Category {
    Certification,
    Education,
    Experience,
    ContactInformation,
}

impl Category {
    /// The message of a refused creation past the limit.
    pub open spec fn limit_text(self) -> Seq<char> {
        match self {
            Category::Certification => "Certification limit reached"@,
            Category::Education => "Education limit reached"@,
            Category::Experience => "Experiences limit reached"@,
            Category::ContactInformation => "Contact information limit reached"@,
        }
    }

    /// The message of a record that is missing or not the caller's.
    pub open spec fn not_found_text(self) -> Seq<char> {
        match self {
            Category::Certification => "Certification not found"@,
            Category::Education => "Education not found"@,
            Category::Experience => "Experience not found"@,
            Category::ContactInformation => "Contact information not found"@,
        }
    }

    /// The message of a refused creation past the limit.
    pub fn limit_message(&self) -> (r: String)
        ensures
            r@ == self.limit_text(),
    {
        match self {
            Category::Certification => "Certification limit reached".to_string(),
            Category::Education => "Education limit reached".to_string(),
            Category::Experience => "Experiences limit reached".to_string(),
            Category::ContactInformation => "Contact information limit reached".to_string(),
        }
    }

    /// The message of a record that is missing or not the caller's.
    pub fn not_found_message(&self) -> (r: String)
        ensures
            r@ == self.not_found_text(),
    {
        match self {
            Category::Certification => "Certification not found".to_string(),
            Category::Education => "Education not found".to_string(),
            Category::Experience => "Experience not found".to_string(),
            Category::ContactInformation => "Contact information not found".to_string(),
        }
    }
}

/// The outcome of the limit check for a user who holds `count` records.
pub open spec fn limit_outcome(count: int, category: Category) -> Result<(), AppErrorView> {
    if count >= RECORD_LIMIT {
        Err(AppErrorView::DataConflict(category.limit_text()))
    } else {
        Ok(())
    }
}

/// Refuses a new record once the user holds `RECORD_LIMIT` of its category.
pub fn check_record_limit(count: i64, category: Category) -> (r: Result<(), AppError>)
    ensures
        crate::error::outcome(r) == limit_outcome(count as int, category),
{
    if count >= RECORD_LIMIT {
        Err(AppError::DataConflict { error: category.limit_message() })
    } else {
        Ok(())
    }
}

/// In every category, a user who already holds `RECORD_LIMIT` records is
/// refused the next one as a conflict, and one record fewer still leaves room.
pub proof fn lemma_limit_blocks_next_record(category: Category)
    ensures
        limit_outcome(RECORD_LIMIT as int, category) == Err::<(), AppErrorView>(
            AppErrorView::DataConflict(category.limit_text()),
        ),
        limit_outcome(RECORD_LIMIT - 1, category) is Ok,
{
}

/// The outcome of an existence check that matched `matching` rows.
pub open spec fn found_outcome(matching: int, category: Category) -> Result<(), AppErrorView> {
    if matching > 0 {
        Ok(())
    } else {
        Err(AppErrorView::NotFound(category.not_found_text()))
    }
}

/// Lets a mutation through only when the existence count matched a row.
///
/// For an owner's update or delete, `matching` counts the rows with both the
/// record's id and the caller's id, so a record of another user is reported
/// exactly as a missing one. For an administrator, it counts the rows with
/// the record's id alone.
pub fn check_record_found(matching: i64, category: Category) -> (r: Result<(), AppError>)
    ensures
        crate::error::outcome(r) == found_outcome(matching as int, category),
{
    if matching > 0 {
        Ok(())
    } else {
        Err(AppError::NotFound { error: category.not_found_message() })
    }
}

/// The rows of `table` with id `record_id` that belong to `user_id`: what the
/// ownership count query answers.
pub open spec fn owned_count<R: ProfileRecord>(table: Seq<R>, record_id: i32, user_id: i32) -> nat
    decreases table.len(),
{
    if table.len() == 0 {
        0
    } else {
        owned_count(table.drop_last(), record_id, user_id) + if table.last().id_spec() == record_id
            && table.last().owner_spec() == user_id {
            1nat
        } else {
            0nat
        }
    }
}

/// A record that is missing, or that belongs to another user, is refused as
/// not found: whenever no row with id `record_id` belongs to `requester`, the
/// ownership check over `table` fails with `NotFound`, in every category.
pub proof fn lemma_foreign_record_not_found<R: ProfileRecord>(
    table: Seq<R>,
    record_id: i32,
    requester: i32,
    category: Category,
)
    requires
        forall|i: int|
            0 <= i < table.len() && #[trigger] table[i].id_spec() == record_id ==> table[i].owner_spec()
                != requester,
    ensures
        owned_count(table, record_id, requester) == 0,
        found_outcome(owned_count(table, record_id, requester) as int, category) == Err::<
            (),
            AppErrorView,
        >(AppErrorView::NotFound(category.not_found_text())),
    decreases table.len(),
{
    if table.len() > 0 {
        let rest = table.drop_last();
        assert forall|i: int|
            0 <= i < rest.len() && #[trigger] rest[i].id_spec() == record_id implies rest[i].owner_spec()
                != requester by {
            assert(rest[i] == table[i]);
        }
        lemma_foreign_record_not_found(rest, record_id, requester, category);
        assert(table.last() == table[table.len() - 1]);
    }
}

} // verus!
