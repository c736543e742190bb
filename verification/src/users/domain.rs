//! The change-email operation as a domain model: the company is a
//! proper object that classifies addresses against its domain and
//! keeps its own employee count, and the user mutates it directly.

use vstd::prelude::*;

use crate::strutil::{contains_char, second_at_segment, segment_after_at, str_eq};

verus! {

pub struct User {
    pub user_id: i64,
    pub email: String,
    pub user_type: UserType,
}

#[derive(PartialEq, Eq, Structural, Clone, Copy, Debug)]
pub enum UserType {
    Cusotmer,
    Employee,
}

pub struct Company {
    pub domain_name: String,
    pub number_of_employees: i64,
}

/// The classification the domain model applies: the part of the
/// address after its first `@` is held against the company domain.
pub open spec fn classify(company_domain: Seq<char>, email: Seq<char>) -> UserType {
    if segment_after_at(email) == company_domain {
        UserType::Employee
    } else {
        UserType::Cusotmer
    }
}

impl Company {
    /// Moves the employee count by `delta`; the count never drops
    /// below zero.
    pub fn change_number_of_employees(&mut self, delta: i64)
        requires
            old(self).number_of_employees + delta >= 0,
            old(self).number_of_employees + delta <= i64::MAX,
        ensures
            final(self).domain_name == old(self).domain_name,
            final(self).number_of_employees == old(self).number_of_employees + delta,
    {
        self.number_of_employees = self.number_of_employees + delta;
    }

    /// Whether the address belongs to the company: its domain part
    /// equals the company's domain name. The address must hold an `@`.
    pub fn is_email_corporate(&self, email: &str) -> (r: bool)
        requires
            contains_char(email@, '@'),
        ensures
            r == (segment_after_at(email@) == self.domain_name@),
    {
        let email_domain = match second_at_segment(email) {
            Some(d) => d,
            None => {
                proof {
                    assert(false);
                }
                String::new()
            },
        };
        str_eq(email_domain.as_str(), self.domain_name.as_str())
    }
}

impl User {
    /// Changes the email: an address equal to the current one changes
    /// nothing; any other address is taken over, the user is
    /// reclassified against the company, and the company's employee
    /// count moves by one exactly when the classification changed.
    pub fn change_email(&mut self, new_email: &str, company: &mut Company)
        requires
            old(self).email@ != new_email@ ==> contains_char(new_email@, '@'),
            old(self).email@ != new_email@ && classify(old(company).domain_name@, new_email@)
                != old(self).user_type ==> {
                &&& classify(old(company).domain_name@, new_email@) == UserType::Employee
                    ==> -1 <= old(company).number_of_employees < i64::MAX
                &&& classify(old(company).domain_name@, new_email@) == UserType::Cusotmer
                    ==> old(company).number_of_employees >= 1
            },
        ensures
            final(self).user_id == old(self).user_id,
            final(company).domain_name == old(company).domain_name,
            old(self).email@ == new_email@ ==> *final(self) == *old(self) && *final(company)
                == *old(company),
            old(self).email@ != new_email@ ==> {
                &&& final(self).email@ == new_email@
                &&& final(self).user_type == classify(old(company).domain_name@, new_email@)
                &&& final(company).number_of_employees == if classify(
                    old(company).domain_name@,
                    new_email@,
                ) != old(self).user_type {
                    if classify(old(company).domain_name@, new_email@) == UserType::Employee {
                        old(company).number_of_employees + 1
                    } else {
                        old(company).number_of_employees - 1
                    }
                } else {
                    old(company).number_of_employees as int
                }
            },
    {
        if str_eq(self.email.as_str(), new_email) {
            return ;
        }

        let new_type = if company.is_email_corporate(new_email) {
            UserType::Employee
        } else {
            UserType::Cusotmer
        };

        if self.user_type != new_type {
            let delta: i64 = if new_type == UserType::Employee {
                1
            } else {
                -1
            };
            company.change_number_of_employees(delta);
        }

        self.email = String::from_str(new_email);
        self.user_type = new_type;
    }
}

/// What the orchestrator needs of persistence.
pub trait Database {
    fn get_user_by_id(&self, user_id: i64) -> User;

    fn get_company(&self) -> Company;

    fn save_company(&self, company: &Company);

    fn save_user(&self, user: &User);
}

/// What the orchestrator needs of messaging.
pub trait MessageBus {
    fn send_email_changed_message(&self, user_id: i64, new_email: &str);
}

/// The orchestrator: loads, lets the domain model run, saves, and
/// announces the change.
pub struct UserController<D: Database, M: MessageBus> {
    pub database: D,
    pub message_bus: M,
}

impl<D: Database, M: MessageBus> UserController<D, M> {
    /// Loads the user and the company and applies the change. A
    /// request the domain model cannot honour — an address without an
    /// `@`, or a count move the stored company cannot absorb — is
    /// dropped without touching the collaborators.
    pub fn change_email(&self, user_id: i64, new_email: &str) {
        let mut user = self.database.get_user_by_id(user_id);
        let mut company = self.database.get_company();

        if !str_eq(user.email.as_str(), new_email) {
            let domain = match crate::strutil::second_at_segment(new_email) {
                Some(d) => d,
                None => return ,
            };
            let corporate = str_eq(domain.as_str(), company.domain_name.as_str());
            let new_type = if corporate {
                UserType::Employee
            } else {
                UserType::Cusotmer
            };
            if new_type != user.user_type {
                if new_type == UserType::Employee && (company.number_of_employees == i64::MAX
                    || company.number_of_employees < -1) {
                    return ;
                }
                if new_type == UserType::Cusotmer && company.number_of_employees < 1 {
                    return ;
                }
            }
        }

        user.change_email(new_email, &mut company);

        self.database.save_company(&company);
        self.database.save_user(&user);
        self.message_bus.send_email_changed_message(user_id, new_email);
    }
}

} // verus!
