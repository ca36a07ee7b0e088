//! The generic "object" record and its create/update request shapes, with
//! verified validation. Timestamps are whole Unix seconds.
use crate::clock::{clock_in_range, now_seconds};
use crate::text::{contains_char, is_blank, spec_contains_char, spec_is_blank};
use vstd::prelude::*;

verus! {

pub struct Object {
    pub id: i32,
    pub name: String,
    pub email: String,
    pub age: Option<i32>,
    pub created_at: i64,
    pub updated_at: i64,
}

pub struct CreateObjectRequest {
    pub name: String,
    pub email: String,
    pub age: Option<i32>,
}

pub struct UpdateObjectRequest {
    pub name: Option<String>,
    pub email: Option<String>,
    pub age: Option<i32>,
}

pub struct ObjectQuery {
    pub limit: Option<usize>,
    pub offset: Option<usize>,
    pub name: Option<String>,
}

impl Object {
    /// A fresh record: both timestamps are one reading of the clock.
    pub fn new(id: i32, name: String, email: String, age: Option<i32>) -> (r: Object)
        ensures
            r.id == id,
            r.name@ == name@,
            r.email@ == email@,
            r.age == age,
            r.created_at == r.updated_at,
            clock_in_range(r.created_at as int),
    {
        let now: i64 = now_seconds();
        Object { id, name, email, age, created_at: now, updated_at: now }
    }
}

/// The first rule the create request breaks: a non-blank name, an email
/// carrying an `@`, and an age (when given) of at most 150.
pub open spec fn spec_create_object_error(r: CreateObjectRequest) -> Option<Seq<char>> {
    if spec_is_blank(r.name@) {
        Some("Name cannot be empty"@)
    } else if !spec_contains_char(r.email@, '@') {
        Some("Invalid email format"@)
    } else {
        match r.age {
            Some(a) => if a > 150 {
                Some("Age must be realistic"@)
            } else {
                None
            },
            None => None,
        }
    }
}

impl CreateObjectRequest {
    pub fn validate(&self) -> (r: Result<(), String>)
        ensures
            match r {
                Ok(_) => spec_create_object_error(*self) is None,
                Err(m) => spec_create_object_error(*self) matches Some(s) && m@ == s,
            },
    {
        if is_blank(self.name.as_str()) {
            return Err(String::from_str("Name cannot be empty"));
        }
        if !contains_char(self.email.as_str(), '@') {
            return Err(String::from_str("Invalid email format"));
        }
        if let Some(a) = self.age {
            if a > 150 {
                return Err(String::from_str("Age must be realistic"));
            }
        }
        Ok(())
    }
}

/// The first rule the update request breaks; absent fields break none.
pub open spec fn spec_update_object_error(r: UpdateObjectRequest) -> Option<Seq<char>> {
    if (match r.name {
        Some(n) => spec_is_blank(n@),
        None => false,
    }) {
        Some("Name cannot be empty"@)
    } else if (match r.email {
        Some(m) => !spec_contains_char(m@, '@'),
        None => false,
    }) {
        Some("Invalid email format"@)
    } else {
        match r.age {
            Some(a) => if a > 150 {
                Some("Age must be realistic"@)
            } else {
                None
            },
            None => None,
        }
    }
}

impl UpdateObjectRequest {
    pub fn validate(&self) -> (r: Result<(), String>)
        ensures
            match r {
                Ok(_) => spec_update_object_error(*self) is None,
                Err(m) => spec_update_object_error(*self) matches Some(s) && m@ == s,
            },
    {
        if let Some(n) = &self.name {
            if is_blank(n.as_str()) {
                return Err(String::from_str("Name cannot be empty"));
            }
        }
        if let Some(m) = &self.email {
            if !contains_char(m.as_str(), '@') {
                return Err(String::from_str("Invalid email format"));
            }
        }
        if let Some(a) = self.age {
            if a > 150 {
                return Err(String::from_str("Age must be realistic"));
            }
        }
        Ok(())
    }
}

} // verus!
