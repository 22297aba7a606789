use vstd::prelude::*;

verus! {

/// A row of the user table: the identifier is assigned by storage.
#[derive(Debug, Clone, PartialEq, Eq)]
pub struct User {
    pub id: i32,
    pub name: String,
    pub email: String,
}

/// The fields a caller supplies when creating or updating a user.
#[derive(Debug, Clone, PartialEq, Eq)]
pub struct NewUser {
    pub name: String,
    pub email: String,
}

impl User {
    /// The record handed back after an insert. The identifier is a
    /// placeholder (zero): the insert does not report the one that storage
    /// assigned.
    pub fn created_from(new_user: NewUser) -> (r: User)
        ensures
            r.id == 0,
            r.name@ == new_user.name@,
            r.email@ == new_user.email@,
    {
        User { id: 0, name: new_user.name, email: new_user.email }
    }
}

} // verus!
