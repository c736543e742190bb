//! The change-email operation guarded by an explicit can-execute
//! check, with the performed changes collected as events on the user
//! and announced afterwards.

use vstd::prelude::*;

use crate::strutil::{contains_char, second_at_segment, segment_after_at, str_eq};

verus! {

pub struct User {
    pub user_id: i64,
    pub email: String,
    pub email_confirmed: bool,
    pub email_changed_events: Vec<EmailChangeEvent>,
    pub user_type: UserType,
}

#[derive(Debug)]
pub struct EmailChangeEvent {
    pub user_id: i64,
    pub new_email: String,
}

impl PartialEq for EmailChangeEvent {
    fn eq(&self, other: &EmailChangeEvent) -> (r: bool) {
        self.user_id == other.user_id && self.new_email == other.new_email
    }
}

impl vstd::std_specs::cmp::PartialEqSpecImpl for EmailChangeEvent {
    open spec fn obeys_eq_spec() -> bool {
        true
    }

    open spec fn eq_spec(&self, other: &EmailChangeEvent) -> bool {
        self.user_id == other.user_id && self.new_email@ == other.new_email@
    }
}

#[derive(PartialEq, Eq, Structural, Clone, Copy, Debug)]
pub enum UserType {
    Cusotmer,
    Employee,
}

pub struct Company {
    pub domain_name: String,
    pub number_of_employees: i64,
}

/// The classification applied here: the part of the address after its
/// first `@` is held against the company domain.
pub open spec fn classify(company_domain: Seq<char>, email: Seq<char>) -> UserType {
    if segment_after_at(email) == company_domain {
        UserType::Employee
    } else {
        UserType::Cusotmer
    }
}

impl Company {
    /// Moves the employee count by `delta`; the count never drops
    /// below zero.
    pub fn change_number_of_employees(&mut self, delta: i64)
        requires
            old(self).number_of_employees + delta >= 0,
            old(self).number_of_employees + delta <= i64::MAX,
        ensures
            final(self).domain_name == old(self).domain_name,
            final(self).number_of_employees == old(self).number_of_employees + delta,
    {
        self.number_of_employees = self.number_of_employees + delta;
    }

    /// Whether the address belongs to the company: its domain part
    /// equals the company's domain name. The address must hold an `@`.
    pub fn is_email_corporate(&self, email: &str) -> (r: bool)
        requires
            contains_char(email@, '@'),
        ensures
            r == (segment_after_at(email@) == self.domain_name@),
    {
        let email_domain = match second_at_segment(email) {
            Some(d) => d,
            None => {
                proof {
                    assert(false);
                }
                String::new()
            },
        };
        str_eq(email_domain.as_str(), self.domain_name.as_str())
    }
}

impl User {
    /// The guard for the change: a user whose email is not yet
    /// confirmed cannot change it, and the reason says so.
    pub fn can_change_email(&self) -> (r: Option<&str>)
        ensures
            r is Some <==> !self.email_confirmed,
            r matches Some(reason) ==> reason@ == "Email is not yet confirmed"@,
    {
        if self.email_confirmed {
            None
        } else {
            Some("Email is not yet confirmed")
        }
    }

    /// Changes the email of a confirmed user: an address equal to the
    /// current one changes nothing; any other address is taken over,
    /// the user is reclassified against the company, the company's
    /// employee count moves by one exactly when the classification
    /// changed, and the change is recorded as one event.
    pub fn change_email(&mut self, new_email: &str, company: &mut Company)
        requires
            old(self).email_confirmed,
            old(self).email@ != new_email@ ==> contains_char(new_email@, '@'),
            old(self).email@ != new_email@ && classify(old(company).domain_name@, new_email@)
                != old(self).user_type ==> {
                &&& classify(old(company).domain_name@, new_email@) == UserType::Employee
                    ==> -1 <= old(company).number_of_employees < i64::MAX
                &&& classify(old(company).domain_name@, new_email@) == UserType::Cusotmer
                    ==> old(company).number_of_employees >= 1
            },
        ensures
            final(self).user_id == old(self).user_id,
            final(self).email_confirmed == old(self).email_confirmed,
            final(company).domain_name == old(company).domain_name,
            old(self).email@ == new_email@ ==> *final(self) == *old(self) && *final(company)
                == *old(company),
            old(self).email@ != new_email@ ==> {
                &&& final(self).email@ == new_email@
                &&& final(self).user_type == classify(old(company).domain_name@, new_email@)
                &&& final(self).email_changed_events@.len() == old(
                    self,
                ).email_changed_events@.len() + 1
                &&& forall|j: int|
                    0 <= j < old(self).email_changed_events@.len()
                        ==> final(self).email_changed_events@[j] == old(
                        self,
                    ).email_changed_events@[j]
                &&& final(self).email_changed_events@.last().user_id == old(self).user_id
                &&& final(self).email_changed_events@.last().new_email@ == new_email@
                &&& final(company).number_of_employees == if classify(
                    old(company).domain_name@,
                    new_email@,
                ) != old(self).user_type {
                    if classify(old(company).domain_name@, new_email@) == UserType::Employee {
                        old(company).number_of_employees + 1
                    } else {
                        old(company).number_of_employees - 1
                    }
                } else {
                    old(company).number_of_employees as int
                }
            },
    {
        if str_eq(self.email.as_str(), new_email) {
            return ;
        }

        let new_type = if company.is_email_corporate(new_email) {
            UserType::Employee
        } else {
            UserType::Cusotmer
        };

        if self.user_type != new_type {
            let delta: i64 = if new_type == UserType::Employee {
                1
            } else {
                -1
            };
            company.change_number_of_employees(delta);
        }

        self.email = String::from_str(new_email);
        self.user_type = new_type;
        self.email_changed_events.push(EmailChangeEvent {
            user_id: self.user_id,
            new_email: String::from_str(new_email),
        });
    }
}

/// What the orchestrator needs of persistence.
pub trait Database {
    fn get_user_by_id(&self, user_id: i64) -> User;

    fn get_company(&self) -> Company;

    fn save_company(&self, company: &Company);

    fn save_user(&self, user: &User);
}

/// What the orchestrator needs of messaging.
pub trait MessageBus {
    fn send_email_changed_message(&self, user_id: i64, new_email: &str);
}

/// The orchestrator: asks the guard first, applies the change, saves,
/// and announces every recorded event.
pub struct UserController<D: Database, M: MessageBus> {
    pub database: D,
    pub message_bus: M,
}

impl<D: Database, M: MessageBus> UserController<D, M> {
    /// Loads the user, refuses with the guard's reason if the change
    /// is not allowed, otherwise applies it, saves, announces the
    /// recorded events and reports success. A request the domain
    /// model cannot honour — an address without an `@`, or a count
    /// move the stored company cannot absorb — is refused with a
    /// reason and leaves the collaborators untouched.
    pub fn change_email(&self, user_id: i64, new_email: &str) -> String {
        let mut user = self.database.get_user_by_id(user_id);
        if let Some(error) = user.can_change_email() {
            return String::from_str(error);
        }

        let mut company = self.database.get_company();

        if !str_eq(user.email.as_str(), new_email) {
            let domain = match second_at_segment(new_email) {
                Some(d) => d,
                None => return String::from_str("Email is invalid"),
            };
            let corporate = str_eq(domain.as_str(), company.domain_name.as_str());
            let new_type = if corporate {
                UserType::Employee
            } else {
                UserType::Cusotmer
            };
            if new_type != user.user_type {
                if new_type == UserType::Employee && (company.number_of_employees == i64::MAX
                    || company.number_of_employees < -1) {
                    return String::from_str("Number of employees must be greater than zero");
                }
                if new_type == UserType::Cusotmer && company.number_of_employees < 1 {
                    return String::from_str("Number of employees must be greater than zero");
                }
            }
        }

        user.change_email(new_email, &mut company);

        self.database.save_company(&company);
        self.database.save_user(&user);
        let mut i: usize = 0;
        while i < user.email_changed_events.len()
            decreases user.email_changed_events@.len() - i,
        {
            let ev = &user.email_changed_events[i];
            self.message_bus.send_email_changed_message(ev.user_id, ev.new_email.as_str());
            i = i + 1;
        }

        String::from_str("OK")
    }
}

} // verus!
