use chrono::Datelike;
use vstd::prelude::*;

verus! {

/// A calendar date as year, month (1 to 12) and day (1 to 31).
#[derive(Debug, Clone, Copy, PartialEq, Eq, Structural)]
pub struct BirthDate {
    pub year: i32,
    pub month: u32,
    pub day: u32,
}

/// The date that chrono's `NaiveDate::parse_from_str` reads from `s` in the
/// `%Y-%m-%d` form, as (year, month, day): a function of the text.
pub uninterp spec fn calendar_date_of(s: Seq<char>) -> Option<(i32, u32, u32)>;

/// Relies on chrono's `NaiveDate::parse_from_str` with `%Y-%m-%d` and on
/// `Datelike`: only valid calendar dates parse, so the month lies in 1..=12
/// and the day in 1..=31.
#[verifier::external_body]
fn chrono_parse_ymd(s: &str) -> (r: Option<(i32, u32, u32)>)
    ensures
        r == calendar_date_of(s@),
        r matches Some(t) ==> 1 <= t.1 <= 12 && 1 <= t.2 <= 31,
{
    chrono::NaiveDate::parse_from_str(s, "%Y-%m-%d").ok().map(|d| (d.year(), d.month(), d.day()))
}

impl BirthDate {
    /// Reads a `YYYY-MM-DD` date.
    pub fn parse(s: &str) -> (r: Option<BirthDate>)
        ensures
            match calendar_date_of(s@) {
                Some(t) => r == Some(BirthDate { year: t.0, month: t.1, day: t.2 }),
                None => r is None,
            },
            r matches Some(d) ==> 1 <= d.month <= 12 && 1 <= d.day <= 31,
    {
        match chrono_parse_ymd(s) {
            Some((year, month, day)) => Some(BirthDate { year, month, day }),
            None => None,
        }
    }
}

/// A copy of an optional string.
pub fn clone_opt(o: &Option<String>) -> (r: Option<String>)
    ensures
        r == *o,
{
    match o {
        Some(s) => Some(s.clone()),
        None => None,
    }
}

/// The profile fields kept beside an account.
#[derive(Debug, Clone, PartialEq, Eq)]
pub struct ProfileDetails {
    pub telephone: Option<String>,
    pub salutation: Option<String>,
    pub first_name: Option<String>,
    pub middle_name: Option<String>,
    pub last_name: Option<String>,
    pub gender: Option<String>,
    pub address_line_1: Option<String>,
    pub address_line_2: Option<String>,
    pub city: Option<String>,
    pub state: Option<String>,
    pub country: Option<String>,
    pub date_of_birth: BirthDate,
    /// Free-form configuration, as JSON text.
    pub configuration: Option<String>,
}

impl ProfileDetails {
    /// A copy of these details.
    pub fn duplicate(&self) -> (r: ProfileDetails)
        ensures
            r == *self,
    {
        ProfileDetails {
            telephone: clone_opt(&self.telephone),
            salutation: clone_opt(&self.salutation),
            first_name: clone_opt(&self.first_name),
            middle_name: clone_opt(&self.middle_name),
            last_name: clone_opt(&self.last_name),
            gender: clone_opt(&self.gender),
            address_line_1: clone_opt(&self.address_line_1),
            address_line_2: clone_opt(&self.address_line_2),
            city: clone_opt(&self.city),
            state: clone_opt(&self.state),
            country: clone_opt(&self.country),
            date_of_birth: self.date_of_birth,
            configuration: clone_opt(&self.configuration),
        }
    }
}

/// What a sign-up submits.
#[derive(Debug, Clone)]
pub struct SignUpPayload {
    pub username: String,
    pub email: Option<String>,
    pub password: String,
    pub telephone: Option<String>,
    pub salutation: Option<String>,
    pub first_name: Option<String>,
    pub middle_name: Option<String>,
    pub last_name: Option<String>,
    pub gender: Option<String>,
    pub address_line_1: Option<String>,
    pub address_line_2: Option<String>,
    pub city: Option<String>,
    pub state: Option<String>,
    pub country: Option<String>,
    /// `YYYY-MM-DD`.
    pub date_of_birth: String,
    /// Free-form configuration, as JSON text.
    pub configuration: Option<String>,
}

impl SignUpPayload {
    /// A payload with the three required fields and no optional ones.
    pub fn new(username: String, password: String, date_of_birth: String) -> (r: SignUpPayload)
        ensures
            r.username == username,
            r.password == password,
            r.date_of_birth == date_of_birth,
            r.email is None,
            r.configuration is None,
    {
        SignUpPayload {
            username,
            email: None,
            password,
            telephone: None,
            salutation: None,
            first_name: None,
            middle_name: None,
            last_name: None,
            gender: None,
            address_line_1: None,
            address_line_2: None,
            city: None,
            state: None,
            country: None,
            date_of_birth,
            configuration: None,
        }
    }

    /// The profile part of the payload, with its date read as `date_of_birth`.
    pub open spec fn details_spec(&self, date_of_birth: BirthDate) -> ProfileDetails {
        ProfileDetails {
            telephone: self.telephone,
            salutation: self.salutation,
            first_name: self.first_name,
            middle_name: self.middle_name,
            last_name: self.last_name,
            gender: self.gender,
            address_line_1: self.address_line_1,
            address_line_2: self.address_line_2,
            city: self.city,
            state: self.state,
            country: self.country,
            date_of_birth,
            configuration: self.configuration,
        }
    }

    /// The profile part of the payload, with the date already read.
    pub fn details(&self, date_of_birth: BirthDate) -> (r: ProfileDetails)
        ensures
            r == self.details_spec(date_of_birth),
    {
        ProfileDetails {
            telephone: clone_opt(&self.telephone),
            salutation: clone_opt(&self.salutation),
            first_name: clone_opt(&self.first_name),
            middle_name: clone_opt(&self.middle_name),
            last_name: clone_opt(&self.last_name),
            gender: clone_opt(&self.gender),
            address_line_1: clone_opt(&self.address_line_1),
            address_line_2: clone_opt(&self.address_line_2),
            city: clone_opt(&self.city),
            state: clone_opt(&self.state),
            country: clone_opt(&self.country),
            date_of_birth,
            configuration: clone_opt(&self.configuration),
        }
    }
}

/// What a sign-in submits.
#[derive(Debug, Clone)]
pub struct SignInPayload {
    pub username: String,
    pub password: String,
}

/// An account's public profile: identity and profile fields, never the hash.
#[derive(Debug, Clone, PartialEq, Eq)]
pub struct UserProfile {
    pub id: String,
    pub username: String,
    pub email: Option<String>,
    pub details: ProfileDetails,
}

/// Counts shown on the dashboard.
#[derive(Debug, Clone)]
pub struct DashboardStats {
    pub roles: Vec<String>,
    pub users: i32,
    pub orders: i32,
    pub invoices: i32,
}

/// A user's display settings.
#[derive(Debug, Clone)]
pub struct SettingsResponse {
    pub theme: String,
    pub language: String,
    pub notifications: bool,
}

/// One row of the user-to-role assignment.
#[derive(Debug, Clone)]
pub struct UserRole {
    pub user_id: String,
    pub role_slug: String,
}

/// A named permission group.
#[derive(Debug, Clone)]
pub struct Role {
    pub id: i32,
    pub slug: String,
    pub name: String,
    pub description: Option<String>,
    pub created_at: u64,
    pub updated_at: u64,
}

/// The public part of a role.
#[derive(Debug, Clone)]
pub struct RoleDetails {
    pub slug: String,
    pub name: String,
    pub description: Option<String>,
}

/// An account with the roles assigned to it.
#[derive(Debug, Clone)]
pub struct UserWithRoles {
    pub id: String,
    pub username: String,
    pub email: Option<String>,
    pub roles: Vec<RoleDetails>,
}

} // verus!
