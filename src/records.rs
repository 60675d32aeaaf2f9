use vstd::prelude::*;
use crate::error::{AppError, AppErrorView, outcome};
use crate::guard::{
    RECORD_LIMIT, Category, check_record_found, check_record_limit, found_outcome,
    lemma_foreign_record_not_found, limit_outcome, owned_count,
};
use crate::models::{ContactInformationModel, PublicProfileModel};
use crate::payloads::{
    AddContactInformationPayload, AddExperiencePayload, ProfileUpdatePayload,
    UpdateContactInformationPayload, UpdateExperiencePayload,
};
use crate::text::text_equals;
use crate::validation::{
    experience_type_allowed, normalize_pronouns, normalized_pronouns, parse_contact_type,
    validate_contact_type, validate_experience_type,
};

verus! {

/// Whether `rows` hold an entry of `user_id` with this kind and value.
pub open spec fn contact_listed(
    rows: Seq<ContactInformationModel>,
    user_id: i32,
    contact_type: Seq<char>,
    value: Seq<char>,
) -> bool {
    exists|i: int|
        0 <= i < rows.len() && #[trigger] rows[i].user_id == user_id && rows[i].type_field@
            == contact_type && rows[i].value@ == value
}

/// Looks for an entry of `user_id` in `rows` with the payload's kind and value.
pub fn get_existing_contact_information(
    rows: &Vec<ContactInformationModel>,
    user_id: i32,
    data: &AddContactInformationPayload,
) -> (r: bool)
    ensures
        r == contact_listed(rows@, user_id, data.contact_type@, data.value@),
{
    let mut i: usize = 0;
    while i < rows.len()
        invariant
            i <= rows@.len(),
            forall|j: int|
                0 <= j < i ==> !(#[trigger] rows@[j].user_id == user_id && rows@[j].type_field@
                    == data.contact_type@ && rows@[j].value@ == data.value@),
        decreases rows@.len() - i,
    {
        let row = &rows[i];
        if row.user_id == user_id && text_equals(row.type_field.as_str(), data.contact_type.as_str())
            && text_equals(row.value.as_str(), data.value.as_str()) {
            return true;
        }
        i = i + 1;
    }
    false
}

/// The outcome of adding a contact entry for `user_id`, who holds `count`
/// entries, `rows` among them: the limit first, then the kind, then
/// uniqueness of kind and value.
pub open spec fn new_contact_outcome(
    user_id: i32,
    count: int,
    rows: Seq<ContactInformationModel>,
    payload: AddContactInformationPayload,
) -> Result<(), AppErrorView> {
    if limit_outcome(count, Category::ContactInformation) is Err {
        limit_outcome(count, Category::ContactInformation)
    } else if parse_contact_type(payload.contact_type@) is None {
        Err(AppErrorView::BadRequest(Some("Invalid contact type"@)))
    } else if contact_listed(rows, user_id, payload.contact_type@, payload.value@) {
        Err(AppErrorView::DataConflict("Contact information already exists"@))
    } else {
        Ok(())
    }
}

/// Decides whether a contact entry may be added.
pub fn check_new_contact_information(
    user_id: i32,
    count: i64,
    rows: &Vec<ContactInformationModel>,
    payload: &AddContactInformationPayload,
) -> (r: Result<(), AppError>)
    ensures
        outcome(r) == new_contact_outcome(user_id, count as int, rows@, *payload),
{
    check_record_limit(count, Category::ContactInformation)?;
    validate_contact_type(payload.contact_type.as_str())?;
    if get_existing_contact_information(rows, user_id, payload) {
        return Err(AppError::DataConflict { error: "Contact information already exists".to_string() });
    }
    Ok(())
}

/// Adding a contact entry whose kind and value the user already lists is a
/// conflict; the same kind with a value not yet listed is accepted while the
/// user is under the limit.
pub proof fn lemma_contact_uniqueness(
    user_id: i32,
    count: int,
    rows: Seq<ContactInformationModel>,
    payload: AddContactInformationPayload,
)
    requires
        parse_contact_type(payload.contact_type@) is Some,
    ensures
        contact_listed(rows, user_id, payload.contact_type@, payload.value@) ==> new_contact_outcome(
            user_id,
            count,
            rows,
            payload,
        ) matches Err(AppErrorView::DataConflict(_)),
        !contact_listed(rows, user_id, payload.contact_type@, payload.value@) && count < RECORD_LIMIT
            ==> new_contact_outcome(user_id, count, rows, payload) is Ok,
{
}

/// The outcome of updating a contact entry that the ownership count matched
/// `matching` times.
pub open spec fn contact_update_outcome(matching: int, payload: UpdateContactInformationPayload) -> Result<
    (),
    AppErrorView,
> {
    if found_outcome(matching, Category::ContactInformation) is Err {
        found_outcome(matching, Category::ContactInformation)
    } else if parse_contact_type(payload.contact_type@) is None {
        Err(AppErrorView::BadRequest(Some("Invalid contact type"@)))
    } else {
        Ok(())
    }
}

/// An update of a contact entry that is missing or belongs to another user
/// is refused as not found, whatever the payload: the ownership count over
/// `table` is zero.
pub proof fn lemma_foreign_contact_update_not_found(
    table: Seq<ContactInformationModel>,
    record_id: i32,
    requester: i32,
    payload: UpdateContactInformationPayload,
)
    requires
        forall|i: int|
            0 <= i < table.len() && #[trigger] table[i].id == record_id ==> table[i].user_id
                != requester,
    ensures
        contact_update_outcome(owned_count(table, record_id, requester) as int, payload) == Err::<
            (),
            AppErrorView,
        >(AppErrorView::NotFound(Category::ContactInformation.not_found_text())),
{
    lemma_foreign_record_not_found(table, record_id, requester, Category::ContactInformation);
}

/// Decides whether a contact entry may be updated: it must be the caller's,
/// and the new kind must be known.
pub fn check_contact_information_update(matching: i64, payload: &UpdateContactInformationPayload) -> (r:
    Result<(), AppError>)
    ensures
        outcome(r) == contact_update_outcome(matching as int, *payload),
{
    check_record_found(matching, Category::ContactInformation)?;
    validate_contact_type(payload.contact_type.as_str())?;
    Ok(())
}

/// The outcome of a checked experience payload, after the limit or ownership
/// step has gone through.
pub open spec fn experience_type_outcome(exp_type: Option<String>) -> Result<(), AppErrorView> {
    if experience_type_allowed(exp_type) {
        Ok(())
    } else {
        Err(AppErrorView::BadRequest(Some("Invalid experience type"@)))
    }
}

/// Decides whether an experience may be added by a user who holds `count`.
pub fn check_new_experience(count: i64, payload: &AddExperiencePayload) -> (r: Result<(), AppError>)
    ensures
        outcome(r) == if limit_outcome(count as int, Category::Experience) is Err {
            limit_outcome(count as int, Category::Experience)
        } else {
            experience_type_outcome(payload.exp_type)
        },
{
    check_record_limit(count, Category::Experience)?;
    validate_experience_type(&payload.exp_type)?;
    Ok(())
}

/// Decides whether an experience may be updated: it must be the caller's, and
/// its new kind acceptable.
pub fn check_experience_update(matching: i64, payload: &UpdateExperiencePayload) -> (r: Result<
    (),
    AppError,
>)
    ensures
        outcome(r) == if found_outcome(matching as int, Category::Experience) is Err {
            found_outcome(matching as int, Category::Experience)
        } else {
            experience_type_outcome(payload.exp_type)
        },
{
    check_record_found(matching, Category::Experience)?;
    validate_experience_type(&payload.exp_type)?;
    Ok(())
}

/// Personal fields as they are stored: the payload with its pronouns
/// normalized, everything else kept.
pub open spec fn stored_profile(payload: PublicProfileModel, stored: PublicProfileModel) -> bool {
    &&& stored.first_name == payload.first_name
    &&& stored.last_name == payload.last_name
    &&& stored.headline == payload.headline
    &&& stored.country == payload.country
    &&& stored.city == payload.city
    &&& stored.bio == payload.bio
    &&& payload.pronouns is None <==> stored.pronouns is None
    &&& payload.pronouns matches Some(p) ==> (stored.pronouns matches Some(q) && q@
        == normalized_pronouns(p@))
}

/// Prepares a profile update for storage by normalizing its pronouns.
pub fn normalize_profile(payload: PublicProfileModel) -> (r: PublicProfileModel)
    ensures
        stored_profile(payload, r),
{
    PublicProfileModel {
        first_name: payload.first_name,
        last_name: payload.last_name,
        pronouns: normalize_pronouns(payload.pronouns),
        headline: payload.headline,
        country: payload.country,
        city: payload.city,
        bio: payload.bio,
    }
}

impl ProfileUpdatePayload {
    /// The profile fields of the update, as they are stored.
    pub fn into_profile(self) -> (r: PublicProfileModel)
        ensures
            stored_profile(
                PublicProfileModel {
                    first_name: self.first_name,
                    last_name: self.last_name,
                    pronouns: self.pronouns,
                    headline: self.headline,
                    country: self.country,
                    city: self.city,
                    bio: self.bio,
                },
                r,
            ),
    {
        normalize_profile(
            PublicProfileModel {
                first_name: self.first_name,
                last_name: self.last_name,
                pronouns: self.pronouns,
                headline: self.headline,
                country: self.country,
                city: self.city,
                bio: self.bio,
            },
        )
    }
}

} // verus!
