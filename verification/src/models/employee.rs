//! Employee records and the request shape that creates them in bulk, with
//! verified validation: the first rule an entry breaks names the error.
use crate::text::{contains_char, is_blank, spec_contains_char, spec_is_blank};
use vstd::prelude::*;

verus! {

pub struct Employee {
    pub id: i32,
    pub external_id: String,
    pub first_name: String,
    pub last_name: String,
    pub store_id: Option<i32>,
    pub email: Option<String>,
}

pub struct EmployeeQuery {
    pub limit: Option<usize>,
    pub offset: Option<usize>,
    pub store_id: Option<i32>,
    pub first_name: Option<String>,
    pub last_name: Option<String>,
    pub email: Option<String>,
    pub external_id: Option<String>,
}

pub struct CreateEmployee {
    pub external_id: String,
    pub first_name: String,
    pub last_name: String,
    pub store_id: Option<i32>,
    pub email: Option<String>,
}

pub struct CreateEmployeesRequest {
    pub employees: Vec<CreateEmployee>,
}

/// The first rule a single entry breaks, with its error message; nothing
/// when the entry is well-formed. The rules, in order: a non-blank external
/// id, a non-blank first name, a non-blank last name, and an email (when one
/// is given) that carries an `@`.
pub open spec fn spec_employee_error(e: CreateEmployee) -> Option<Seq<char>> {
    if spec_is_blank(e.external_id@) {
        Some("External ID cannot be empty"@)
    } else if spec_is_blank(e.first_name@) {
        Some("First name cannot be empty"@)
    } else if spec_is_blank(e.last_name@) {
        Some("Last name cannot be empty"@)
    } else {
        match e.email {
            Some(m) => if !spec_contains_char(m@, '@') {
                Some("Invalid email format: "@ + m@)
            } else {
                None
            },
            None => None,
        }
    }
}

/// The error of the first entry that breaks a rule, scanning front to back.
pub open spec fn spec_employees_error(es: Seq<CreateEmployee>) -> Option<Seq<char>>
    decreases es.len(),
{
    if es.len() == 0 {
        None
    } else {
        match spec_employee_error(es[0]) {
            Some(m) => Some(m),
            None => spec_employees_error(es.drop_first()),
        }
    }
}

fn validate_employee(e: &CreateEmployee) -> (r: Result<(), String>)
    ensures
        match r {
            Ok(_) => spec_employee_error(*e) is None,
            Err(m) => spec_employee_error(*e) matches Some(s) && m@ == s,
        },
{
    if is_blank(e.external_id.as_str()) {
        return Err(String::from_str("External ID cannot be empty"));
    }
    if is_blank(e.first_name.as_str()) {
        return Err(String::from_str("First name cannot be empty"));
    }
    if is_blank(e.last_name.as_str()) {
        return Err(String::from_str("Last name cannot be empty"));
    }
    if let Some(m) = &e.email {
        if !contains_char(m.as_str(), '@') {
            return Err(String::from_str("Invalid email format: ").concat(m.as_str()));
        }
    }
    Ok(())
}

impl CreateEmployeesRequest {
    /// An empty list is rejected outright; otherwise the first entry that
    /// breaks a rule decides the error, and a request with no such entry
    /// passes.
    pub fn validate(&self) -> (r: Result<(), String>)
        ensures
            self.employees@.len() == 0 ==> (r matches Err(m) && m@
                == "Employee list cannot be empty"@),
            self.employees@.len() > 0 ==> match spec_employees_error(self.employees@) {
                None => r is Ok,
                Some(s) => r matches Err(m) && m@ == s,
            },
    {
        if self.employees.len() == 0 {
            return Err(String::from_str("Employee list cannot be empty"));
        }
        let n: usize = self.employees.len();
        let mut i: usize = 0;
        proof {
            assert(self.employees@.skip(0) =~= self.employees@);
        }
        while i < n
            invariant
                0 <= i <= n,
                n == self.employees@.len(),
                spec_employees_error(self.employees@) == spec_employees_error(
                    self.employees@.skip(i as int),
                ),
                forall|j: int| 0 <= j < i ==> spec_employee_error(#[trigger] self.employees@[j]) is None,
            decreases n - i,
        {
            let e = &self.employees[i];
            match validate_employee(e) {
                Ok(_) => {
                    proof {
                        assert(self.employees@.skip(i as int).drop_first() =~= self.employees@.skip(
                            i as int + 1,
                        ));
                    }
                },
                Err(m) => {
                    return Err(m);
                },
            }
            i = i + 1;
        }
        proof {
            assert(self.employees@.skip(n as int).len() == 0);
        }
        Ok(())
    }
}

} // verus!
