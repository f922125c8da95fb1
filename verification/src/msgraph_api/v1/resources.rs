//! The resources of version 1.0 as typed values.

use vstd::prelude::*;

verus! {

/// The profile of a user.
#[allow(non_snake_case)]
#[derive(Debug, Clone)]
pub struct UserProfile {
    pub businessPhones: Vec<String>,
    pub displayName: String,
    pub givenName: String,
    pub jobTitle: String,
    pub mail: String,
    pub mobilePhone: Option<String>,
    pub officeLocation: String,
    pub preferredLanguage: Option<String>,
    pub surname: String,
    pub userPrincipalName: String,
    pub id: String,
}

} // verus!
