//! The change-email operation with its collaborators hardwired: the
//! domain object itself loads the user and the company from fixed
//! stubs, decides, and pushes the results out. The stubs answer with
//! fixed placeholder data, so the whole flow is a function of its
//! arguments.

use vstd::prelude::*;

use crate::strutil::{first_at_segment, segment_before_at, str_eq};

verus! {

pub struct User {
    pub user_id: i64,
    pub email: String,
    pub user_type: UserType,
}

#[derive(PartialEq, Eq, Structural, Clone, Copy, Debug)]
pub enum UserType {
    Cusotmer,
    Employee,
}

pub struct Company {
    pub domain_name: String,
    pub number_of_employees: i64,
}

/// A stand-in for real persistence: answers with fixed placeholder
/// data and swallows writes.
pub struct Database;

impl Database {
    pub fn get_user_by_id(user_id: i64) -> (u: User)
        ensures
            u.user_id == user_id,
            u.email@ == "todo"@,
            u.user_type == UserType::Cusotmer,
    {
        User {
            user_id,
            email: String::from_str("todo"),
            user_type: UserType::Cusotmer,
        }
    }

    pub fn get_company() -> (c: Company)
        ensures
            c.domain_name@ == "todo"@,
            c.number_of_employees == 1000,
    {
        Company { domain_name: String::from_str("todo"), number_of_employees: 1000 }
    }

    pub fn save_company(number_of_employee: i64) {
    }

    pub fn save_user(user: &User) {
    }
}

/// A stand-in for a real message bus: swallows every message.
pub struct MessageBus;

impl MessageBus {
    pub fn send_email_changed_message(user_id: i64, new_email: &str) {
    }
}

/// The classification the hardwired flow applies: the part of the
/// address before its first `@` is held against the company domain.
pub open spec fn classify(company_domain: Seq<char>, email: Seq<char>) -> UserType {
    if segment_before_at(email) == company_domain {
        UserType::Employee
    } else {
        UserType::Cusotmer
    }
}

impl User {
    /// Reloads the user from the stub store, then changes the email:
    /// an address equal to the stored one leaves the user as loaded;
    /// any other address is taken over, and the user is reclassified
    /// against the stub company's domain.
    pub fn change_email(&mut self, user_id: i64, new_email: &str)
        ensures
            final(self).user_id == user_id,
            "todo"@ == new_email@ ==> final(self).email@ == "todo"@ && final(self).user_type
                == UserType::Cusotmer,
            "todo"@ != new_email@ ==> final(self).email@ == new_email@ && final(self).user_type
                == classify("todo"@, new_email@),
    {
        let user = Database::get_user_by_id(user_id);
        self.user_id = user_id;
        self.email = user.email;
        self.user_type = user.user_type;

        if str_eq(self.email.as_str(), new_email) {
            return ;
        }

        let company = Database::get_company();

        let email_domain = first_at_segment(new_email);
        let is_email_corporate = str_eq(email_domain.as_str(), company.domain_name.as_str());
        let new_type = if is_email_corporate {
            UserType::Employee
        } else {
            UserType::Cusotmer
        };

        if self.user_type != new_type {
            let delta: i64 = if new_type == UserType::Employee {
                1
            } else {
                -1
            };
            let new_number = company.number_of_employees + delta;
            Database::save_company(new_number);
        }

        self.email = String::from_str(new_email);
        self.user_type = new_type;

        Database::save_user(self);
        MessageBus::send_email_changed_message(self.user_id, self.email.as_str());
    }
}

} // verus!
