use vstd::prelude::*;
use crate::error::AppError;
use crate::text::text_equals;

verus! {

/// The kinds of contact entry a profile may list.
#[derive(Debug, Clone, Copy, PartialEq, Eq, Structural)]
pub enum ContactType {
    Email,
    Phone,
    Website,
    LinkedIn,
    GitHub,
    Twitter,
    Facebook,
    Instagram,
}

/// The contact kind that a text names, if any.
pub open spec fn parse_contact_type(s: Seq<char>) -> Option<ContactType> {
    if s == "email"@ {
        Some(ContactType::Email)
    } else if s == "phone"@ {
        Some(ContactType::Phone)
    } else if s == "website"@ {
        Some(ContactType::Website)
    } else if s == "linkedin"@ {
        Some(ContactType::LinkedIn)
    } else if s == "github"@ {
        Some(ContactType::GitHub)
    } else if s == "twitter"@ {
        Some(ContactType::Twitter)
    } else if s == "facebook"@ {
        Some(ContactType::Facebook)
    } else if s == "instagram"@ {
        Some(ContactType::Instagram)
    } else {
        None
    }
}

impl ContactType {
    /// Reads a contact kind from its lower-case name.
    pub fn from_str(contact_type: &str) -> (r: Option<ContactType>)
        ensures
            r == parse_contact_type(contact_type@),
    {
        if text_equals(contact_type, "email") {
            Some(ContactType::Email)
        } else if text_equals(contact_type, "phone") {
            Some(ContactType::Phone)
        } else if text_equals(contact_type, "website") {
            Some(ContactType::Website)
        } else if text_equals(contact_type, "linkedin") {
            Some(ContactType::LinkedIn)
        } else if text_equals(contact_type, "github") {
            Some(ContactType::GitHub)
        } else if text_equals(contact_type, "twitter") {
            Some(ContactType::Twitter)
        } else if text_equals(contact_type, "facebook") {
            Some(ContactType::Facebook)
        } else if text_equals(contact_type, "instagram") {
            Some(ContactType::Instagram)
        } else {
            None
        }
    }
}

/// The kinds of work experience a profile may list.
#[derive(Debug, Clone, Copy, PartialEq, Eq, Structural)]
pub enum ExperienceType {
    FullTime,
    PartTime,
    SelfEmployed,
    Freelance,
    Contract,
    Internship,
    Volunteering,
    Seasonal,
    Apprenticeship,
    Other,
}

/// The experience kind that a text names, if any.
pub open spec fn parse_experience_type(s: Seq<char>) -> Option<ExperienceType> {
    if s == "Full Time"@ {
        Some(ExperienceType::FullTime)
    } else if s == "Part Time"@ {
        Some(ExperienceType::PartTime)
    } else if s == "Self Employed"@ {
        Some(ExperienceType::SelfEmployed)
    } else if s == "Freelance"@ {
        Some(ExperienceType::Freelance)
    } else if s == "Contract"@ {
        Some(ExperienceType::Contract)
    } else if s == "Internship"@ {
        Some(ExperienceType::Internship)
    } else if s == "Volunteering"@ {
        Some(ExperienceType::Volunteering)
    } else if s == "Seasonal"@ {
        Some(ExperienceType::Seasonal)
    } else if s == "Apprenticeship"@ {
        Some(ExperienceType::Apprenticeship)
    } else if s == "Other"@ {
        Some(ExperienceType::Other)
    } else {
        None
    }
}

impl ExperienceType {
    /// Reads an experience kind from its display name.
    pub fn from_str(s: &str) -> (r: Option<ExperienceType>)
        ensures
            r == parse_experience_type(s@),
    {
        if text_equals(s, "Full Time") {
            Some(ExperienceType::FullTime)
        } else if text_equals(s, "Part Time") {
            Some(ExperienceType::PartTime)
        } else if text_equals(s, "Self Employed") {
            Some(ExperienceType::SelfEmployed)
        } else if text_equals(s, "Freelance") {
            Some(ExperienceType::Freelance)
        } else if text_equals(s, "Contract") {
            Some(ExperienceType::Contract)
        } else if text_equals(s, "Internship") {
            Some(ExperienceType::Internship)
        } else if text_equals(s, "Volunteering") {
            Some(ExperienceType::Volunteering)
        } else if text_equals(s, "Seasonal") {
            Some(ExperienceType::Seasonal)
        } else if text_equals(s, "Apprenticeship") {
            Some(ExperienceType::Apprenticeship)
        } else if text_equals(s, "Other") {
            Some(ExperienceType::Other)
        } else {
            None
        }
    }
}

/// An experience kind is acceptable when it is absent, empty, or one of the
/// known kinds.
pub open spec fn experience_type_allowed(exp_type: Option<String>) -> bool {
    match exp_type {
        Some(t) => t@.len() == 0 || parse_experience_type(t@) is Some,
        None => true,
    }
}

/// Checks the optional experience kind of a payload; an empty text counts as
/// no kind.
pub fn validate_experience_type(experience_type: &Option<String>) -> (r: Result<bool, AppError>)
    ensures
        experience_type_allowed(*experience_type) ==> r == Ok::<bool, AppError>(true),
        !experience_type_allowed(*experience_type) ==> (r matches Err(e)
            && e@ == crate::error::AppErrorView::BadRequest(Some("Invalid experience type"@))),
{
    if let Some(exp_type) = experience_type {
        if exp_type.as_str().unicode_len() == 0 {
            return Ok(true);
        }
        if ExperienceType::from_str(exp_type.as_str()).is_none() {
            return Err(AppError::BadRequest { error: Some("Invalid experience type".to_string()) });
        }
    }
    Ok(true)
}

/// Checks the kind of a contact entry.
pub fn validate_contact_type(contact_type: &str) -> (r: Result<ContactType, AppError>)
    ensures
        parse_contact_type(contact_type@) matches Some(t) ==> r == Ok::<ContactType, AppError>(t),
        parse_contact_type(contact_type@) is None ==> (r matches Err(e)
            && e@ == crate::error::AppErrorView::BadRequest(Some("Invalid contact type"@))),
{
    match ContactType::from_str(contact_type) {
        Some(t) => Ok(t),
        None => Err(AppError::BadRequest { error: Some("Invalid contact type".to_string()) }),
    }
}

/// The stored form of a pronoun entry: the three short forms are expanded,
/// anything else is kept as it is.
pub open spec fn normalized_pronouns(s: Seq<char>) -> Seq<char> {
    if s == "he"@ {
        "he/him"@
    } else if s == "she"@ {
        "she/her"@
    } else if s == "they"@ {
        "they/them"@
    } else {
        s
    }
}

/// Expands a short pronoun entry to its full form.
pub fn normalize_pronouns(pronouns: Option<String>) -> (r: Option<String>)
    ensures
        pronouns is None <==> r is None,
        pronouns matches Some(p) ==> (r matches Some(q) && q@ == normalized_pronouns(p@)),
{
    match pronouns {
        Some(p) => {
            if text_equals(p.as_str(), "he") {
                Some("he/him".to_string())
            } else if text_equals(p.as_str(), "she") {
                Some("she/her".to_string())
            } else if text_equals(p.as_str(), "they") {
                Some("they/them".to_string())
            } else {
                Some(p)
            }
        },
        None => None,
    }
}

} // verus!
