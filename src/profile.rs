use vstd::prelude::*;
use crate::models::clone_opt;

verus! {

/// The profile columns that an update may set: the allow-list. No other
/// name can reach the store.
#[derive(Debug, Clone, Copy, PartialEq, Eq, Structural)]
pub enum ProfileField {
    Username,
    Email,
    Telephone,
    Salutation,
    FirstName,
    MiddleName,
    LastName,
    Gender,
    AddressLine1,
    AddressLine2,
    City,
    State,
    Country,
    DateOfBirth,
    Configuration,
}

/// The storage column of a field.
pub open spec fn column_of(f: ProfileField) -> Seq<char> {
    match f {
        ProfileField::Username => "username"@,
        ProfileField::Email => "email"@,
        ProfileField::Telephone => "telephone"@,
        ProfileField::Salutation => "salutation"@,
        ProfileField::FirstName => "first_name"@,
        ProfileField::MiddleName => "middle_name"@,
        ProfileField::LastName => "last_name"@,
        ProfileField::Gender => "gender"@,
        ProfileField::AddressLine1 => "address_line_1"@,
        ProfileField::AddressLine2 => "address_line_2"@,
        ProfileField::City => "city"@,
        ProfileField::State => "state"@,
        ProfileField::Country => "country"@,
        ProfileField::DateOfBirth => "date_of_birth"@,
        ProfileField::Configuration => "configuration"@,
    }
}

impl ProfileField {
    /// The storage column of this field.
    pub fn column(&self) -> (r: &'static str)
        ensures
            r@ == column_of(*self),
    {
        match self {
            ProfileField::Username => "username",
            ProfileField::Email => "email",
            ProfileField::Telephone => "telephone",
            ProfileField::Salutation => "salutation",
            ProfileField::FirstName => "first_name",
            ProfileField::MiddleName => "middle_name",
            ProfileField::LastName => "last_name",
            ProfileField::Gender => "gender",
            ProfileField::AddressLine1 => "address_line_1",
            ProfileField::AddressLine2 => "address_line_2",
            ProfileField::City => "city",
            ProfileField::State => "state",
            ProfileField::Country => "country",
            ProfileField::DateOfBirth => "date_of_birth",
            ProfileField::Configuration => "configuration",
        }
    }
}

/// A partial profile update: each field that is present replaces the stored one.
#[derive(Debug, Clone, Default)]
pub struct UpdateProfilePayload {
    pub username: Option<String>,
    pub email: Option<String>,
    pub telephone: Option<String>,
    pub salutation: Option<String>,
    pub first_name: Option<String>,
    pub middle_name: Option<String>,
    pub last_name: Option<String>,
    pub gender: Option<String>,
    pub address_line_1: Option<String>,
    pub address_line_2: Option<String>,
    pub city: Option<String>,
    pub state: Option<String>,
    pub country: Option<String>,
    /// `YYYY-MM-DD`.
    pub date_of_birth: Option<String>,
    /// Free-form configuration, as JSON text.
    pub configuration: Option<String>,
}

/// The pair that a present field contributes to an update.
pub open spec fn pair_of(f: ProfileField, v: Option<String>) -> Seq<(ProfileField, String)> {
    match v {
        Some(s) => seq![(f, s)],
        None => Seq::empty(),
    }
}

/// The (field, value) pairs of an update, one per present field, in column order.
pub open spec fn update_pairs(p: UpdateProfilePayload) -> Seq<(ProfileField, String)> {
    pair_of(ProfileField::Username, p.username) + pair_of(ProfileField::Email, p.email)
        + pair_of(ProfileField::Telephone, p.telephone) + pair_of(ProfileField::Salutation, p.salutation)
        + pair_of(ProfileField::FirstName, p.first_name) + pair_of(ProfileField::MiddleName, p.middle_name)
        + pair_of(ProfileField::LastName, p.last_name) + pair_of(ProfileField::Gender, p.gender)
        + pair_of(ProfileField::AddressLine1, p.address_line_1) + pair_of(ProfileField::AddressLine2, p.address_line_2)
        + pair_of(ProfileField::City, p.city) + pair_of(ProfileField::State, p.state)
        + pair_of(ProfileField::Country, p.country) + pair_of(ProfileField::DateOfBirth, p.date_of_birth)
        + pair_of(ProfileField::Configuration, p.configuration)
}

fn push_pair(out: &mut Vec<(ProfileField, String)>, f: ProfileField, v: &Option<String>)
    ensures
        final(out)@ == old(out)@ + pair_of(f, *v),
{
    match v {
        Some(s) => {
            out.push((f, s.clone()));
        },
        None => {},
    }
    assert(final(out)@ =~= old(out)@ + pair_of(f, *v));
}

impl UpdateProfilePayload {
    /// The update as an explicit list of (field, value) pairs over the
    /// allow-listed columns, one per present field, in column order.
    pub fn to_pairs(&self) -> (r: Vec<(ProfileField, String)>)
        ensures
            r@ == update_pairs(*self),
    {
        let mut out: Vec<(ProfileField, String)> = Vec::new();
        push_pair(&mut out, ProfileField::Username, &self.username);
        push_pair(&mut out, ProfileField::Email, &self.email);
        push_pair(&mut out, ProfileField::Telephone, &self.telephone);
        push_pair(&mut out, ProfileField::Salutation, &self.salutation);
        push_pair(&mut out, ProfileField::FirstName, &self.first_name);
        push_pair(&mut out, ProfileField::MiddleName, &self.middle_name);
        push_pair(&mut out, ProfileField::LastName, &self.last_name);
        push_pair(&mut out, ProfileField::Gender, &self.gender);
        push_pair(&mut out, ProfileField::AddressLine1, &self.address_line_1);
        push_pair(&mut out, ProfileField::AddressLine2, &self.address_line_2);
        push_pair(&mut out, ProfileField::City, &self.city);
        push_pair(&mut out, ProfileField::State, &self.state);
        push_pair(&mut out, ProfileField::Country, &self.country);
        push_pair(&mut out, ProfileField::DateOfBirth, &self.date_of_birth);
        push_pair(&mut out, ProfileField::Configuration, &self.configuration);
        assert(out@ =~= update_pairs(*self));
        out
    }
}

/// Whether an update sets no field at all.
pub open spec fn update_is_empty(p: UpdateProfilePayload) -> bool {
    update_pairs(p).len() == 0
}

/// A stored optional field after an update: the new value where one is given.
pub open spec fn merged(stored: Option<String>, given: Option<String>) -> Option<String> {
    if given is Some { given } else { stored }
}

/// The stored field after an update.
pub fn merge(stored: &Option<String>, given: &Option<String>) -> (r: Option<String>)
    ensures
        r == merged(*stored, *given),
{
    match given {
        Some(_) => clone_opt(given),
        None => clone_opt(stored),
    }
}

} // verus!
