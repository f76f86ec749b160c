//! The user-facing bits the submission views need: a user's role and the
//! slimmed-down user record embedded in submission responses.

use vstd::prelude::*;

use crate::error::Error;

verus! {

/// A user's role.
#[derive(Debug, Clone, Copy, PartialEq, Eq, Structural)]
pub enum Role {
    Admin,
    Student,
    Teacher,
}

/// The role a numeric role identifier stands for in listing queries:
/// `0` admin, `1` teacher, `2` student; everything else is rejected.
pub open spec fn spec_role_from_id(value: int) -> Result<Role, Error> {
    if value == 0 {
        Ok(Role::Admin)
    } else if value == 1 {
        Ok(Role::Teacher)
    } else if value == 2 {
        Ok(Role::Student)
    } else {
        Err(Error::InvalidRoleCode)
    }
}

/// The role a numeric role identifier stands for in listing queries.
pub fn role_from_id(value: i32) -> (r: Result<Role, Error>)
    ensures
        r == spec_role_from_id(value as int),
{
    match value {
        0 => Ok(Role::Admin),
        1 => Ok(Role::Teacher),
        2 => Ok(Role::Student),
        _ => Err(Error::InvalidRoleCode),
    }
}

/// The filters of a user listing.
#[derive(Debug)]
pub struct ListUserParams {
    pub role: Option<i32>,
    pub course: Option<String>,
}

/// The role filter a user listing asks for: no filter where no role
/// identifier is given, the identified role where it is known, and a
/// rejection where it is not.
pub fn role_filter_from_params(params: &ListUserParams) -> (r: Result<Option<Role>, Error>)
    ensures
        params.role is None ==> r == Ok::<Option<Role>, Error>(None),
        params.role is Some ==> r == (match spec_role_from_id(params.role->0 as int) {
            Ok(role) => Ok(Some(role)),
            Err(e) => Err::<Option<Role>, Error>(e),
        }),
{
    match params.role {
        None => Ok(None),
        Some(id) => match role_from_id(id) {
            Ok(role) => Ok(Some(role)),
            Err(e) => Err(e),
        },
    }
}

/// The user record embedded in submission responses.
#[derive(Debug)]
pub struct UserInfoResponse {
    pub username: String,
    pub role: i32,
}

impl Clone for UserInfoResponse {
    fn clone(&self) -> (res: Self)
        ensures
            res == *self,
    {
        UserInfoResponse { username: self.username.clone(), role: self.role }
    }
}

} // verus!
