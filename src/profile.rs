use vstd::prelude::*;

verus! {

/// The profile a user fills in before entering a room.
///
/// The text fields are free-form and unvalidated; `created_at` holds the
/// time of the save in milliseconds since the epoch.
#[derive(Debug)]
pub struct User {
    pub name: String,
    pub email: String,
    pub phone: String,
    pub created_at: u64,
}

impl User {
    /// Makes a profile out of its four fields.
    pub fn new(name: String, email: String, phone: String, created_at: u64) -> (r: User)
        ensures
            r.name@ == name@,
            r.email@ == email@,
            r.phone@ == phone@,
            r.created_at == created_at,
    {
        User { name, email, phone, created_at }
    }

    /// A field-by-field copy.
    pub fn duplicate(&self) -> (r: User)
        ensures
            r == *self,
    {
        User {
            name: self.name.clone(),
            email: self.email.clone(),
            phone: self.phone.clone(),
            created_at: self.created_at,
        }
    }
}

impl Clone for User {
    fn clone(&self) -> (r: User)
        ensures
            r == *self,
    {
        self.duplicate()
    }
}

impl PartialEq for User {
    fn eq(&self, other: &User) -> (r: bool) {
        self.name == other.name && self.email == other.email && self.phone == other.phone
            && self.created_at == other.created_at
    }
}

impl vstd::std_specs::cmp::PartialEqSpecImpl for User {
    open spec fn obeys_eq_spec() -> bool {
        true
    }

    open spec fn eq_spec(&self, other: &User) -> bool {
        &&& self.name@ == other.name@
        &&& self.email@ == other.email@
        &&& self.phone@ == other.phone@
        &&& self.created_at == other.created_at
    }
}

impl Eq for User {
}

} // verus!
