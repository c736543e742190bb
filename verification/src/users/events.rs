//! The change-email operation against persisted users: lookups can
//! fail or come back empty, the guard is a plain predicate, and the
//! orchestrator reports every refusal as an error value instead of a
//! success.

use vstd::prelude::*;

use crate::strutil::{contains_char, second_at_segment, segment_after_at, str_eq};

verus! {

#[derive(Debug)]
pub struct User {
    pub user_id: i64,
    pub email: String,
    pub email_confirmed: bool,
    pub email_changed_events: Vec<EmailChangeEvent>,
    pub user_type: UserType,
}

#[derive(Debug)]
pub struct EmailChangeEvent {
    pub user_id: i64,
    pub new_email: String,
}

impl PartialEq for EmailChangeEvent {
    fn eq(&self, other: &EmailChangeEvent) -> (r: bool) {
        self.user_id == other.user_id && self.new_email == other.new_email
    }
}

impl vstd::std_specs::cmp::PartialEqSpecImpl for EmailChangeEvent {
    open spec fn obeys_eq_spec() -> bool {
        true
    }

    open spec fn eq_spec(&self, other: &EmailChangeEvent) -> bool {
        self.user_id == other.user_id && self.new_email@ == other.new_email@
    }
}

#[derive(PartialEq, Eq, Structural, Clone, Copy, Debug)]
pub enum UserType {
    Cusotmer,
    Employee,
}

impl UserType {
    /// The stored name of the classification.
    pub fn to_string(&self) -> (r: String)
        ensures
            r@ == if *self is Cusotmer {
                "CUSTOMER"@
            } else {
                "EMPLOYEE"@
            },
    {
        match self {
            UserType::Cusotmer => String::from_str("CUSTOMER"),
            UserType::Employee => String::from_str("EMPLOYEE"),
        }
    }
}

impl From<String> for UserType {
    /// The classification a stored name denotes; every name but the
    /// customer's reads as an employee.
    fn from(v: String) -> Self {
        proof {
            reveal_strlit("CUSTOMER");
        }
        if str_eq(v.as_str(), "CUSTOMER") {
            UserType::Cusotmer
        } else {
            UserType::Employee
        }
    }
}

impl vstd::std_specs::convert::FromSpecImpl<String> for UserType {
    open spec fn obeys_from_spec() -> bool {
        true
    }

    open spec fn from_spec(v: String) -> UserType {
        if v@ == "CUSTOMER"@ {
            UserType::Cusotmer
        } else {
            UserType::Employee
        }
    }
}

pub struct Company {
    pub id: i64,
    pub domain_name: String,
    pub number_of_employees: i64,
}

/// The classification applied here: the part of the address after its
/// first `@` is held against the company domain.
pub open spec fn classify(company_domain: Seq<char>, email: Seq<char>) -> UserType {
    if segment_after_at(email) == company_domain {
        UserType::Employee
    } else {
        UserType::Cusotmer
    }
}

impl Company {
    /// Moves the employee count by `delta`; the count never drops
    /// below zero.
    pub fn change_number_of_employees(&mut self, delta: i64)
        requires
            old(self).number_of_employees + delta >= 0,
            old(self).number_of_employees + delta <= i64::MAX,
        ensures
            final(self).id == old(self).id,
            final(self).domain_name == old(self).domain_name,
            final(self).number_of_employees == old(self).number_of_employees + delta,
    {
        self.number_of_employees = self.number_of_employees + delta;
    }

    /// Whether the address belongs to the company: its domain part
    /// equals the company's domain name. The address must hold an `@`.
    pub fn is_email_corporate(&self, email: &str) -> (r: bool)
        requires
            contains_char(email@, '@'),
        ensures
            r == (segment_after_at(email@) == self.domain_name@),
    {
        let email_domain = match second_at_segment(email) {
            Some(d) => d,
            None => {
                proof {
                    assert(false);
                }
                String::new()
            },
        };
        str_eq(email_domain.as_str(), self.domain_name.as_str())
    }
}

impl User {
    /// The guard for the change: only a user with a confirmed email
    /// may change it.
    pub fn can_change_email(&self) -> (r: bool)
        ensures
            r == self.email_confirmed,
    {
        self.email_confirmed
    }

    /// Changes the email: an address equal to the current one changes
    /// nothing; any other address is taken over, the user is
    /// reclassified against the company, and the company's employee
    /// count moves by one exactly when the classification changed.
    /// The recorded events are left as they were loaded.
    pub fn change_email(&mut self, new_email: &str, company: &mut Company)
        requires
            old(self).email@ != new_email@ ==> contains_char(new_email@, '@'),
            old(self).email@ != new_email@ && classify(old(company).domain_name@, new_email@)
                != old(self).user_type ==> {
                &&& classify(old(company).domain_name@, new_email@) == UserType::Employee
                    ==> -1 <= old(company).number_of_employees < i64::MAX
                &&& classify(old(company).domain_name@, new_email@) == UserType::Cusotmer
                    ==> old(company).number_of_employees >= 1
            },
        ensures
            final(self).user_id == old(self).user_id,
            final(self).email_confirmed == old(self).email_confirmed,
            final(self).email_changed_events@ == old(self).email_changed_events@,
            final(company).id == old(company).id,
            final(company).domain_name == old(company).domain_name,
            old(self).email@ == new_email@ ==> *final(self) == *old(self) && *final(company)
                == *old(company),
            old(self).email@ != new_email@ ==> {
                &&& final(self).email@ == new_email@
                &&& final(self).user_type == classify(old(company).domain_name@, new_email@)
                &&& final(company).number_of_employees == if classify(
                    old(company).domain_name@,
                    new_email@,
                ) != old(self).user_type {
                    if classify(old(company).domain_name@, new_email@) == UserType::Employee {
                        old(company).number_of_employees + 1
                    } else {
                        old(company).number_of_employees - 1
                    }
                } else {
                    old(company).number_of_employees as int
                }
            },
    {
        if str_eq(self.email.as_str(), new_email) {
            return ;
        }

        let new_type = if company.is_email_corporate(new_email) {
            UserType::Employee
        } else {
            UserType::Cusotmer
        };

        if self.user_type != new_type {
            let delta: i64 = if new_type == UserType::Employee {
                1
            } else {
                -1
            };
            company.change_number_of_employees(delta);
        }

        self.email = String::from_str(new_email);
        self.user_type = new_type;
    }
}

/// A persistence failure, with a description.
#[derive(Debug)]
pub struct DbError {
    pub message: String,
}

/// Why a change-email request was refused.
#[derive(Debug)]
pub enum ChangeEmailError {
    /// No user is stored under the requested identifier.
    UserNotFound,
    /// The user's current email is not yet confirmed.
    EmailNotConfirmed,
    /// No company is stored.
    CompanyNotFound,
    /// The requested address holds no `@`.
    InvalidEmail,
    /// The stored employee count cannot absorb the reclassification.
    EmployeeCountOutOfRange,
    /// Persistence itself failed.
    Database(DbError),
}

/// What the orchestrator needs of persistence; every lookup may fail,
/// and may come back empty.
pub trait Database {
    fn get_user_by_id(&self, user_id: i64) -> Result<Option<User>, DbError>;

    fn get_company(&self) -> Result<Option<Company>, DbError>;

    fn save_company(&self, company: &Company);

    fn save_user(&self, user: &User) -> Result<(), DbError>;
}

/// What the orchestrator needs of messaging.
pub trait MessageBus {
    fn send_email_changed_message(&self, user_id: i64, new_email: &str);
}

/// The orchestrator: loads, guards, applies, saves, and announces the
/// recorded events; every refusal is reported as an error value.
pub struct UserController<D: Database, M: MessageBus> {
    pub database: D,
    pub message_bus: M,
}

impl<D: Database, M: MessageBus> UserController<D, M> {
    pub fn new(database: D, message_bus: M) -> (r: UserController<D, M>)
        ensures
            r.database == database,
            r.message_bus == message_bus,
    {
        UserController { database, message_bus }
    }

    /// Loads the user and the company, guards, applies the change,
    /// saves, and announces the recorded events. Each refusal names
    /// its reason; a request the domain model cannot honour — an
    /// address without an `@`, or a count move the stored company
    /// cannot absorb — leaves the collaborators untouched.
    pub fn change_email(&self, user_id: i64, new_email: &str) -> Result<(), ChangeEmailError> {
        let mut user = match self.database.get_user_by_id(user_id) {
            Ok(result) => match result {
                Some(user) => user,
                None => return Err(ChangeEmailError::UserNotFound),
            },
            Err(e) => return Err(ChangeEmailError::Database(e)),
        };

        if !user.can_change_email() {
            return Err(ChangeEmailError::EmailNotConfirmed);
        }

        let mut company = match self.database.get_company() {
            Ok(result) => match result {
                Some(company) => company,
                None => return Err(ChangeEmailError::CompanyNotFound),
            },
            Err(e) => return Err(ChangeEmailError::Database(e)),
        };

        if !str_eq(user.email.as_str(), new_email) {
            let domain = match second_at_segment(new_email) {
                Some(d) => d,
                None => return Err(ChangeEmailError::InvalidEmail),
            };
            let corporate = str_eq(domain.as_str(), company.domain_name.as_str());
            let new_type = if corporate {
                UserType::Employee
            } else {
                UserType::Cusotmer
            };
            if new_type != user.user_type {
                if new_type == UserType::Employee && (company.number_of_employees == i64::MAX
                    || company.number_of_employees < -1) {
                    return Err(ChangeEmailError::EmployeeCountOutOfRange);
                }
                if new_type == UserType::Cusotmer && company.number_of_employees < 1 {
                    return Err(ChangeEmailError::EmployeeCountOutOfRange);
                }
            }
        }

        user.change_email(new_email, &mut company);

        self.database.save_company(&company);
        if let Err(e) = self.database.save_user(&user) {
            return Err(ChangeEmailError::Database(e));
        }
        let mut i: usize = 0;
        while i < user.email_changed_events.len()
            decreases user.email_changed_events@.len() - i,
        {
            let ev = &user.email_changed_events[i];
            self.message_bus.send_email_changed_message(ev.user_id, ev.new_email.as_str());
            i = i + 1;
        }

        Ok(())
    }
}

} // verus!
