use vstd::prelude::*;
use crate::error::copy_text;

verus! {

/// A stored account. `password` holds the bcrypt hash, never the password.
#[derive(Debug, Clone)]
pub struct UserModel {
    pub id: i32,
    pub username: String,
    pub email: String,
    pub password: String,
    pub role: String,
    pub created_at: String,
}

/// An account as it may be shown to its owner: without the password hash.
#[derive(Debug, Clone)]
pub struct PublicAuthUserModel {
    pub id: i32,
    pub username: String,
    pub email: String,
    pub created_at: String,
}

/// The logged-in user's own account: the role is shown to administrators
/// only.
#[derive(Debug, Clone)]
pub struct AuthUserModel {
    pub id: i32,
    pub username: String,
    pub email: String,
    pub role: Option<String>,
    pub created_at: String,
}

impl UserModel {
    /// The account as its logged-in owner sees it.
    pub open spec fn own_view(&self) -> AuthUserModel {
        AuthUserModel {
            id: self.id,
            username: self.username,
            email: self.email,
            role: if self.role@ == crate::auth::admin_role() {
                Some(self.role)
            } else {
                None
            },
            created_at: self.created_at,
        }
    }

    /// Strips the password hash, and the role unless it is `admin`.
    pub fn to_auth_view(&self) -> (r: AuthUserModel)
        ensures
            r == self.own_view(),
    {
        let role = if crate::text::text_equals(self.role.as_str(), "admin") {
            Some(self.role.clone())
        } else {
            None
        };
        AuthUserModel {
            id: self.id,
            username: self.username.clone(),
            email: self.email.clone(),
            role,
            created_at: self.created_at.clone(),
        }
    }

    /// The account without its password hash and role.
    pub open spec fn sanitized(&self) -> PublicAuthUserModel {
        PublicAuthUserModel {
            id: self.id,
            username: self.username,
            email: self.email,
            created_at: self.created_at,
        }
    }

    /// Strips the password hash and the role from the account.
    pub fn to_public(&self) -> (r: PublicAuthUserModel)
        ensures
            r == self.sanitized(),
    {
        PublicAuthUserModel {
            id: self.id,
            username: self.username.clone(),
            email: self.email.clone(),
            created_at: self.created_at.clone(),
        }
    }
}

/// A stored profile row, one per user.
#[derive(Debug, Clone)]
pub struct ProfileModel {
    pub user_id: i32,
    pub first_name: Option<String>,
    pub last_name: Option<String>,
    pub pronouns: Option<String>,
    pub headline: Option<String>,
    pub country: Option<String>,
    pub city: Option<String>,
    pub bio: Option<String>,
    pub created_at: String,
}

/// The personal fields of a profile, as anyone may see them.
#[derive(Debug, Clone)]
pub struct PublicProfileModel {
    pub first_name: Option<String>,
    pub last_name: Option<String>,
    pub pronouns: Option<String>,
    pub headline: Option<String>,
    pub country: Option<String>,
    pub city: Option<String>,
    pub bio: Option<String>,
}

impl ProfileModel {
    /// The personal fields of the profile.
    pub open spec fn public_spec(&self) -> PublicProfileModel {
        PublicProfileModel {
            first_name: self.first_name,
            last_name: self.last_name,
            pronouns: self.pronouns,
            headline: self.headline,
            country: self.country,
            city: self.city,
            bio: self.bio,
        }
    }

    /// Drops the owner id and the timestamp of the profile.
    pub fn to_public(&self) -> (r: PublicProfileModel)
        ensures
            r == self.public_spec(),
    {
        PublicProfileModel {
            first_name: copy_text(&self.first_name),
            last_name: copy_text(&self.last_name),
            pronouns: copy_text(&self.pronouns),
            headline: copy_text(&self.headline),
            country: copy_text(&self.country),
            city: copy_text(&self.city),
            bio: copy_text(&self.bio),
        }
    }
}

/// A record that belongs to one user and is shown in two shapes: to its owner,
/// with its id, and to everyone else, without it.
pub trait ProfileRecord: Sized {
    type Public;
    type Owned;

    /// The id of the record.
    spec fn id_spec(&self) -> i32;

    /// The id of the user the record belongs to.
    spec fn owner_spec(&self) -> i32;

    /// The record as anyone may see it.
    spec fn public_spec(&self) -> Self::Public;

    /// The record as its owner sees it.
    spec fn owned_spec(&self) -> Self::Owned;

    /// The id of the user the record belongs to.
    fn owner(&self) -> (r: i32)
        ensures
            r == self.owner_spec(),
    ;

    /// The record without its id and owner.
    fn to_public(&self) -> (r: Self::Public)
        ensures
            r == self.public_spec(),
    ;

    /// The record with its id, without its owner.
    fn to_owned_view(&self) -> (r: Self::Owned)
        ensures
            r == self.owned_spec(),
    ;
}

/// A stored certification.
#[derive(Debug, Clone)]
pub struct CertificationModel {
    pub id: i32,
    pub user_id: i32,
    pub name: String,
    pub organization: String,
    pub issue_date: Option<String>,
    pub expiration_date: Option<String>,
    pub credential_id: Option<String>,
    pub credential_url: Option<String>,
    pub created_at: String,
}

/// A certification as anyone may see it.
#[derive(Debug, Clone)]
pub struct PublicCertificationModel {
    pub name: String,
    pub organization: String,
    pub issue_date: Option<String>,
    pub expiration_date: Option<String>,
    pub credential_id: Option<String>,
    pub credential_url: Option<String>,
}

/// A certification as its owner sees it.
#[derive(Debug, Clone)]
pub struct AuthCertificationModel {
    pub id: i32,
    pub name: String,
    pub organization: String,
    pub issue_date: Option<String>,
    pub expiration_date: Option<String>,
    pub credential_id: Option<String>,
    pub credential_url: Option<String>,
}

impl ProfileRecord for CertificationModel {
    type Public = PublicCertificationModel;
    type Owned = AuthCertificationModel;

    open spec fn id_spec(&self) -> i32 {
        self.id
    }

    open spec fn owner_spec(&self) -> i32 {
        self.user_id
    }

    open spec fn public_spec(&self) -> PublicCertificationModel {
        PublicCertificationModel {
            name: self.name,
            organization: self.organization,
            issue_date: self.issue_date,
            expiration_date: self.expiration_date,
            credential_id: self.credential_id,
            credential_url: self.credential_url,
        }
    }

    open spec fn owned_spec(&self) -> AuthCertificationModel {
        AuthCertificationModel {
            id: self.id,
            name: self.name,
            organization: self.organization,
            issue_date: self.issue_date,
            expiration_date: self.expiration_date,
            credential_id: self.credential_id,
            credential_url: self.credential_url,
        }
    }

    fn owner(&self) -> (r: i32) {
        self.user_id
    }

    fn to_public(&self) -> (r: PublicCertificationModel) {
        PublicCertificationModel {
            name: self.name.clone(),
            organization: self.organization.clone(),
            issue_date: copy_text(&self.issue_date),
            expiration_date: copy_text(&self.expiration_date),
            credential_id: copy_text(&self.credential_id),
            credential_url: copy_text(&self.credential_url),
        }
    }

    fn to_owned_view(&self) -> (r: AuthCertificationModel) {
        AuthCertificationModel {
            id: self.id,
            name: self.name.clone(),
            organization: self.organization.clone(),
            issue_date: copy_text(&self.issue_date),
            expiration_date: copy_text(&self.expiration_date),
            credential_id: copy_text(&self.credential_id),
            credential_url: copy_text(&self.credential_url),
        }
    }
}

/// A stored education entry.
#[derive(Debug, Clone)]
pub struct EducationModel {
    pub id: i32,
    pub user_id: i32,
    pub school: String,
    pub degree: Option<String>,
    pub field: Option<String>,
    pub start_date: Option<String>,
    pub end_date: Option<String>,
    pub created_at: String,
}

/// An education entry as anyone may see it.
#[derive(Debug, Clone)]
pub struct PublicEducationModel {
    pub school: String,
    pub degree: Option<String>,
    pub field: Option<String>,
    pub start_date: Option<String>,
    pub end_date: Option<String>,
}

/// An education entry as its owner sees it.
#[derive(Debug, Clone)]
pub struct AuthEducationModel {
    pub id: i32,
    pub school: String,
    pub degree: Option<String>,
    pub field: Option<String>,
    pub start_date: Option<String>,
    pub end_date: Option<String>,
}

impl ProfileRecord for EducationModel {
    type Public = PublicEducationModel;
    type Owned = AuthEducationModel;

    open spec fn id_spec(&self) -> i32 {
        self.id
    }

    open spec fn owner_spec(&self) -> i32 {
        self.user_id
    }

    open spec fn public_spec(&self) -> PublicEducationModel {
        PublicEducationModel {
            school: self.school,
            degree: self.degree,
            field: self.field,
            start_date: self.start_date,
            end_date: self.end_date,
        }
    }

    open spec fn owned_spec(&self) -> AuthEducationModel {
        AuthEducationModel {
            id: self.id,
            school: self.school,
            degree: self.degree,
            field: self.field,
            start_date: self.start_date,
            end_date: self.end_date,
        }
    }

    fn owner(&self) -> (r: i32) {
        self.user_id
    }

    fn to_public(&self) -> (r: PublicEducationModel) {
        PublicEducationModel {
            school: self.school.clone(),
            degree: copy_text(&self.degree),
            field: copy_text(&self.field),
            start_date: copy_text(&self.start_date),
            end_date: copy_text(&self.end_date),
        }
    }

    fn to_owned_view(&self) -> (r: AuthEducationModel) {
        AuthEducationModel {
            id: self.id,
            school: self.school.clone(),
            degree: copy_text(&self.degree),
            field: copy_text(&self.field),
            start_date: copy_text(&self.start_date),
            end_date: copy_text(&self.end_date),
        }
    }
}

/// A stored work experience.
#[derive(Debug, Clone)]
pub struct ExperienceModel {
    pub id: i32,
    pub user_id: i32,
    pub company: String,
    pub title: String,
    pub start_date: Option<String>,
    pub end_date: Option<String>,
    pub exp_type: Option<String>,
    pub description: Option<String>,
    pub created_at: String,
}

/// A work experience as anyone may see it.
#[derive(Debug, Clone)]
pub struct PublicExperienceModel {
    pub company: String,
    pub title: String,
    pub start_date: Option<String>,
    pub end_date: Option<String>,
    pub exp_type: Option<String>,
    pub description: Option<String>,
}

/// A work experience as its owner sees it.
#[derive(Debug, Clone)]
pub struct AuthExperienceModel {
    pub id: i32,
    pub company: String,
    pub title: String,
    pub start_date: Option<String>,
    pub end_date: Option<String>,
    pub exp_type: Option<String>,
    pub description: Option<String>,
}

impl ProfileRecord for ExperienceModel {
    type Public = PublicExperienceModel;
    type Owned = AuthExperienceModel;

    open spec fn id_spec(&self) -> i32 {
        self.id
    }

    open spec fn owner_spec(&self) -> i32 {
        self.user_id
    }

    open spec fn public_spec(&self) -> PublicExperienceModel {
        PublicExperienceModel {
            company: self.company,
            title: self.title,
            start_date: self.start_date,
            end_date: self.end_date,
            exp_type: self.exp_type,
            description: self.description,
        }
    }

    open spec fn owned_spec(&self) -> AuthExperienceModel {
        AuthExperienceModel {
            id: self.id,
            company: self.company,
            title: self.title,
            start_date: self.start_date,
            end_date: self.end_date,
            exp_type: self.exp_type,
            description: self.description,
        }
    }

    fn owner(&self) -> (r: i32) {
        self.user_id
    }

    fn to_public(&self) -> (r: PublicExperienceModel) {
        PublicExperienceModel {
            company: self.company.clone(),
            title: self.title.clone(),
            start_date: copy_text(&self.start_date),
            end_date: copy_text(&self.end_date),
            exp_type: copy_text(&self.exp_type),
            description: copy_text(&self.description),
        }
    }

    fn to_owned_view(&self) -> (r: AuthExperienceModel) {
        AuthExperienceModel {
            id: self.id,
            company: self.company.clone(),
            title: self.title.clone(),
            start_date: copy_text(&self.start_date),
            end_date: copy_text(&self.end_date),
            exp_type: copy_text(&self.exp_type),
            description: copy_text(&self.description),
        }
    }
}

/// A stored contact entry: a kind (`type_field`) and a value.
#[derive(Debug, Clone)]
pub struct ContactInformationModel {
    pub id: i32,
    pub user_id: i32,
    pub type_field: String,
    pub value: String,
    pub created_at: String,
}

/// A contact entry as anyone may see it.
#[derive(Debug, Clone)]
pub struct PublicContactInformationModel {
    pub type_field: String,
    pub value: String,
}

/// A contact entry as its owner sees it.
#[derive(Debug, Clone)]
pub struct AuthContactInformationModel {
    pub id: i32,
    pub type_field: String,
    pub value: String,
}

impl ProfileRecord for ContactInformationModel {
    type Public = PublicContactInformationModel;
    type Owned = AuthContactInformationModel;

    open spec fn id_spec(&self) -> i32 {
        self.id
    }

    open spec fn owner_spec(&self) -> i32 {
        self.user_id
    }

    open spec fn public_spec(&self) -> PublicContactInformationModel {
        PublicContactInformationModel { type_field: self.type_field, value: self.value }
    }

    open spec fn owned_spec(&self) -> AuthContactInformationModel {
        AuthContactInformationModel { id: self.id, type_field: self.type_field, value: self.value }
    }

    fn owner(&self) -> (r: i32) {
        self.user_id
    }

    fn to_public(&self) -> (r: PublicContactInformationModel) {
        PublicContactInformationModel {
            type_field: self.type_field.clone(),
            value: self.value.clone(),
        }
    }

    fn to_owned_view(&self) -> (r: AuthContactInformationModel) {
        AuthContactInformationModel {
            id: self.id,
            type_field: self.type_field.clone(),
            value: self.value.clone(),
        }
    }
}

/// The aggregate public profile page: the personal fields and a preview of
/// each category of records.
#[derive(Debug, Clone)]
pub struct PublicProfileResponse {
    pub profile: PublicProfileModel,
    pub certification: Vec<PublicCertificationModel>,
    pub education: Vec<PublicEducationModel>,
    pub experience: Vec<PublicExperienceModel>,
    pub contact_information: Vec<PublicContactInformationModel>,
}

/// The aggregate profile page as its owner sees it: every record, with ids.
#[derive(Debug, Clone)]
pub struct OwnerProfileResponse {
    pub profile: PublicProfileModel,
    pub certification: Vec<AuthCertificationModel>,
    pub education: Vec<AuthEducationModel>,
    pub experience: Vec<AuthExperienceModel>,
    pub contact_information: Vec<AuthContactInformationModel>,
}

} // verus!
