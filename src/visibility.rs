use vstd::prelude::*;
use crate::models::{
    CertificationModel, ContactInformationModel, EducationModel, ExperienceModel, ProfileModel,
    OwnerProfileResponse, ProfileRecord, PublicProfileResponse, UserModel,
};

verus! {

/// How many certifications, education entries and experiences the aggregate
/// profile page previews.
pub const PREVIEW_LIMIT: usize = 3;

/// How many contact entries the aggregate profile page previews.
pub const CONTACT_PREVIEW_LIMIT: usize = 4;

/// Which shape of a profile's records a viewer gets.
#[derive(Debug, Clone, Copy, PartialEq, Eq, Structural)]
pub enum Projection {
    /// The owner: records with their ids, all of them.
    Owner,
    /// Anyone else, logged in or not: records without ids.
    Public,
}

/// The owner projection goes to a logged-in viewer whose id is the owner's id,
/// and to nobody else.
pub open spec fn projection_for(viewer: Option<UserModel>, owner: UserModel) -> Projection {
    match viewer {
        Some(v) => if v.id == owner.id {
            Projection::Owner
        } else {
            Projection::Public
        },
        None => Projection::Public,
    }
}

/// Decides the projection of `owner`'s records for `viewer`.
pub fn resolve_projection(viewer: &Option<UserModel>, owner: &UserModel) -> (r: Projection)
    ensures
        r == projection_for(*viewer, *owner),
{
    match viewer {
        Some(v) => if v.id == owner.id {
            Projection::Owner
        } else {
            Projection::Public
        },
        None => Projection::Public,
    }
}

/// The number of rows kept under an optional cap.
pub open spec fn capped_len(n: nat, limit: Option<usize>) -> nat {
    match limit {
        Some(k) => if (k as nat) < n {
            k as nat
        } else {
            n
        },
        None => n,
    }
}

/// The public shape of the first rows, at most `limit` of them.
pub open spec fn public_rows<R: ProfileRecord>(rows: Seq<R>, limit: Option<usize>) -> Seq<R::Public> {
    Seq::new(capped_len(rows.len(), limit), |i: int| rows[i].public_spec())
}

/// The owner's shape of every row.
pub open spec fn owned_rows<R: ProfileRecord>(rows: Seq<R>) -> Seq<R::Owned> {
    Seq::new(rows.len(), |i: int| rows[i].owned_spec())
}

/// Projects rows to their public shape, keeping their order and at most
/// `limit` of them (all of them without a limit).
pub fn public_records<R: ProfileRecord>(rows: &Vec<R>, limit: Option<usize>) -> (r: Vec<R::Public>)
    ensures
        r@ == public_rows(rows@, limit),
{
    let n: usize = match limit {
        Some(k) => if k < rows.len() {
            k
        } else {
            rows.len()
        },
        None => rows.len(),
    };
    let mut out: Vec<R::Public> = Vec::new();
    let mut i: usize = 0;
    while i < n
        invariant
            n == capped_len(rows@.len(), limit),
            n <= rows@.len(),
            i <= n,
            out@.len() == i,
            forall|j: int| 0 <= j < i ==> out@[j] == rows@[j].public_spec(),
        decreases n - i,
    {
        out.push(rows[i].to_public());
        i = i + 1;
    }
    assert(out@ =~= public_rows(rows@, limit));
    out
}

/// Projects every row to its owner's shape, keeping their order.
pub fn owned_records<R: ProfileRecord>(rows: &Vec<R>) -> (r: Vec<R::Owned>)
    ensures
        r@ == owned_rows(rows@),
{
    let mut out: Vec<R::Owned> = Vec::new();
    let mut i: usize = 0;
    while i < rows.len()
        invariant
            i <= rows@.len(),
            out@.len() == i,
            forall|j: int| 0 <= j < i ==> out@[j] == rows@[j].owned_spec(),
        decreases rows@.len() - i,
    {
        out.push(rows[i].to_owned_view());
        i = i + 1;
    }
    assert(out@ =~= owned_rows(rows@));
    out
}

/// One category of a profile's records, in the shape chosen for the viewer.
#[derive(Debug, Clone)]
pub enum Listing<P, O> {
    Owner(Vec<O>),
    Public(Vec<P>),
}

/// What the dedicated per-category endpoint shows: every row, in the owner's
/// shape for the owner and in the public shape for anyone else.
pub open spec fn listing_matches<R: ProfileRecord>(
    l: Listing<R::Public, R::Owned>,
    p: Projection,
    rows: Seq<R>,
) -> bool {
    match p {
        Projection::Owner => l matches Listing::Owner(v) && v@ == owned_rows(rows),
        Projection::Public => l matches Listing::Public(v) && v@ == public_rows(rows, None),
    }
}

/// Lists `rows`, the records of `owner` newest first, for `viewer`. No cap
/// applies here: this is the full list of the category.
pub fn records_for_viewer<R: ProfileRecord>(
    viewer: &Option<UserModel>,
    owner: &UserModel,
    rows: &Vec<R>,
) -> (r: Listing<R::Public, R::Owned>)
    ensures
        listing_matches(r, projection_for(*viewer, *owner), rows@),
{
    match resolve_projection(viewer, owner) {
        Projection::Owner => Listing::Owner(owned_records(rows)),
        Projection::Public => Listing::Public(public_records(rows, None)),
    }
}

/// On the aggregate page every category is cut to its preview limit, exactly
/// that many rows when more exist, and keeps the newest rows in order; the
/// dedicated endpoint shows a viewer other than the owner every row.
pub proof fn lemma_preview_caps<R: ProfileRecord>(
    rows: Seq<R>,
    viewer: Option<UserModel>,
    owner: UserModel,
    limit: usize,
)
    requires
        projection_for(viewer, owner) == Projection::Public,
    ensures
        rows.len() >= limit ==> public_rows(rows, Some(limit)).len() == limit,
        rows.len() < limit ==> public_rows(rows, Some(limit)).len() == rows.len(),
        public_rows(rows, Some(limit)) == public_rows(rows, None).take(
            public_rows(rows, Some(limit)).len() as int,
        ),
        forall|l: Listing<R::Public, R::Owned>|
            #[trigger] listing_matches(l, projection_for(viewer, owner), rows) ==> (l matches Listing::Public(
                v,
            ) && v@ == public_rows(rows, None) && v@.len() == rows.len()),
{
    assert(public_rows(rows, Some(limit)) =~= public_rows(rows, None).take(
        public_rows(rows, Some(limit)).len() as int,
    ));
}

/// Builds the public aggregate profile page from the profile row and each category's
/// rows (newest first): every category is shown in its public shape, capped
/// at its preview limit.
pub fn public_profile_response(
    profile: &ProfileModel,
    certifications: &Vec<CertificationModel>,
    educations: &Vec<EducationModel>,
    experiences: &Vec<ExperienceModel>,
    contact_information: &Vec<ContactInformationModel>,
) -> (r: PublicProfileResponse)
    ensures
        r.profile == profile.public_spec(),
        r.certification@ == public_rows(certifications@, Some(PREVIEW_LIMIT)),
        r.education@ == public_rows(educations@, Some(PREVIEW_LIMIT)),
        r.experience@ == public_rows(experiences@, Some(PREVIEW_LIMIT)),
        r.contact_information@ == public_rows(contact_information@, Some(CONTACT_PREVIEW_LIMIT)),
{
    PublicProfileResponse {
        profile: profile.to_public(),
        certification: public_records(certifications, Some(PREVIEW_LIMIT)),
        education: public_records(educations, Some(PREVIEW_LIMIT)),
        experience: public_records(experiences, Some(PREVIEW_LIMIT)),
        contact_information: public_records(contact_information, Some(CONTACT_PREVIEW_LIMIT)),
    }
}

/// The aggregate profile page in the shape chosen for the viewer.
#[derive(Debug, Clone)]
pub enum ProfilePage {
    Owner(OwnerProfileResponse),
    Public(PublicProfileResponse),
}

/// Builds the aggregate profile page of `owner` for `viewer`: the owner sees
/// every record with its id; anyone else sees the capped public preview.
pub fn profile_page(
    viewer: &Option<UserModel>,
    owner: &UserModel,
    profile: &ProfileModel,
    certifications: &Vec<CertificationModel>,
    educations: &Vec<EducationModel>,
    experiences: &Vec<ExperienceModel>,
    contact_information: &Vec<ContactInformationModel>,
) -> (r: ProfilePage)
    ensures
        projection_for(*viewer, *owner) == Projection::Owner ==> (r matches ProfilePage::Owner(p) && {
            &&& p.profile == profile.public_spec()
            &&& p.certification@ == owned_rows(certifications@)
            &&& p.education@ == owned_rows(educations@)
            &&& p.experience@ == owned_rows(experiences@)
            &&& p.contact_information@ == owned_rows(contact_information@)
        }),
        projection_for(*viewer, *owner) == Projection::Public ==> (r matches ProfilePage::Public(p)
            && {
            &&& p.profile == profile.public_spec()
            &&& p.certification@ == public_rows(certifications@, Some(PREVIEW_LIMIT))
            &&& p.education@ == public_rows(educations@, Some(PREVIEW_LIMIT))
            &&& p.experience@ == public_rows(experiences@, Some(PREVIEW_LIMIT))
            &&& p.contact_information@ == public_rows(
                contact_information@,
                Some(CONTACT_PREVIEW_LIMIT),
            )
        }),
{
    match resolve_projection(viewer, owner) {
        Projection::Owner => ProfilePage::Owner(
            OwnerProfileResponse {
                profile: profile.to_public(),
                certification: owned_records(certifications),
                education: owned_records(educations),
                experience: owned_records(experiences),
                contact_information: owned_records(contact_information),
            },
        ),
        Projection::Public => ProfilePage::Public(
            public_profile_response(
                profile,
                certifications,
                educations,
                experiences,
                contact_information,
            ),
        ),
    }
}

} // verus!
