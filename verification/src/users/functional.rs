//! The change-email operation as a pure function: the domain object
//! receives the company data as plain arguments and hands the new
//! employee count back to the caller, which alone talks to the
//! collaborators.

use vstd::prelude::*;

use crate::strutil::{first_at_segment, segment_before_at, str_eq};

verus! {

pub struct User {
    pub user_id: i64,
    pub email: String,
    pub user_type: UserType,
}

#[derive(PartialEq, Eq, Structural, Clone, Copy, Debug)]
pub enum UserType {
    Cusotmer,
    Employee,
}

pub struct Company {
    pub domain_name: String,
    pub number_of_employees: i64,
}

/// The classification this flow applies: the part of the address
/// before its first `@` is held against the company domain.
pub open spec fn classify(company_domain: Seq<char>, email: Seq<char>) -> UserType {
    if segment_before_at(email) == company_domain {
        UserType::Employee
    } else {
        UserType::Cusotmer
    }
}

impl User {
    /// Changes the email as a pure decision: an address equal to the
    /// current one changes nothing and returns the count unchanged;
    /// any other address is taken over, the user is reclassified
    /// against the given domain, and the returned count moves by one
    /// exactly when the classification changed.
    pub fn change_email(&mut self, new_email: &str, domain: &str, number_of_employees: i64) -> (r:
        i64)
        requires
            old(self).email@ != new_email@ && classify(domain@, new_email@) != old(
                self,
            ).user_type ==> i64::MIN < number_of_employees < i64::MAX,
        ensures
            final(self).user_id == old(self).user_id,
            old(self).email@ == new_email@ ==> *final(self) == *old(self) && r
                == number_of_employees,
            old(self).email@ != new_email@ ==> {
                &&& final(self).email@ == new_email@
                &&& final(self).user_type == classify(domain@, new_email@)
                &&& r == if classify(domain@, new_email@) != old(self).user_type {
                    if classify(domain@, new_email@) == UserType::Employee {
                        number_of_employees + 1
                    } else {
                        number_of_employees - 1
                    }
                } else {
                    number_of_employees as int
                }
            },
    {
        if str_eq(self.email.as_str(), new_email) {
            return number_of_employees;
        }

        let email_domain = first_at_segment(new_email);
        let is_email_corporate = str_eq(email_domain.as_str(), domain);
        let new_type = if is_email_corporate {
            UserType::Employee
        } else {
            UserType::Cusotmer
        };

        let mut new_number = number_of_employees;
        if self.user_type != new_type {
            let delta: i64 = if new_type == UserType::Employee {
                1
            } else {
                -1
            };
            new_number = number_of_employees + delta;
        }

        self.email = String::from_str(new_email);
        self.user_type = new_type;

        new_number
    }
}

/// What the orchestrator needs of persistence.
pub trait Database {
    fn get_user_by_id(&self, user_id: i64) -> User;

    fn get_company(&self) -> Company;

    fn save_company(&self, number_of_employee: i64);

    fn save_user(&self, user: &User);
}

/// What the orchestrator needs of messaging.
pub trait MessageBus {
    fn send_email_changed_message(&self, user_id: i64, new_email: &str);
}

/// The orchestrator: loads, lets the pure decision run, saves, and
/// announces the change.
pub struct UserController<D: Database, M: MessageBus> {
    pub database: D,
    pub message_bus: M,
}

impl<D: Database, M: MessageBus> UserController<D, M> {
    /// Loads the user and the company, applies the pure change, and
    /// pushes the results out. A company whose employee count stands
    /// at either end of the machine range is left untouched, where a
    /// count move could not be represented.
    pub fn change_email(&self, user_id: i64, new_email: &str) {
        let mut user = self.database.get_user_by_id(user_id);
        let company = self.database.get_company();

        if !str_eq(user.email.as_str(), new_email) {
            let segment = first_at_segment(new_email);
            let corporate = str_eq(segment.as_str(), company.domain_name.as_str());
            let new_type = if corporate {
                UserType::Employee
            } else {
                UserType::Cusotmer
            };
            if new_type != user.user_type && (company.number_of_employees == i64::MIN
                || company.number_of_employees == i64::MAX) {
                return ;
            }
        }

        let new_number_of_employees = user.change_email(
            new_email,
            company.domain_name.as_str(),
            company.number_of_employees,
        );

        self.database.save_company(new_number_of_employees);
        self.database.save_user(&user);
        self.message_bus.send_email_changed_message(user_id, new_email);
    }
}

} // verus!
