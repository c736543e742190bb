//! The change-email operation with explicit domain events: the domain
//! model records what happened, and a dispatcher routes each event to
//! the message bus or to the domain logger afterwards. The bus keeps
//! a mathematical log of everything sent, so what reaches it is part
//! of each contract.

use vstd::prelude::*;

use crate::strutil::{
    contains_char, i64_to_string, int_str, second_at_segment, segment_after_at, str_eq,
};

verus! {

#[derive(Debug)]
pub struct User {
    pub user_id: i64,
    pub email: String,
    pub email_confirmed: bool,
    pub domain_events: Vec<DomainEvent>,
    pub user_type: UserType,
}

#[derive(PartialEq, Eq, Structural, Clone, Copy, Debug)]
pub enum UserType {
    Cusotmer,
    Employee,
}

impl UserType {
    /// The stored name of the classification.
    pub fn to_string(&self) -> (r: String)
        ensures
            r@ == if *self is Cusotmer {
                "CUSTOMER"@
            } else {
                "EMPLOYEE"@
            },
    {
        match self {
            UserType::Cusotmer => String::from_str("CUSTOMER"),
            UserType::Employee => String::from_str("EMPLOYEE"),
        }
    }
}

impl From<String> for UserType {
    /// The classification a stored name denotes; every name but the
    /// customer's reads as an employee.
    fn from(v: String) -> Self {
        proof {
            reveal_strlit("CUSTOMER");
        }
        if str_eq(v.as_str(), "CUSTOMER") {
            UserType::Cusotmer
        } else {
            UserType::Employee
        }
    }
}

impl vstd::std_specs::convert::FromSpecImpl<String> for UserType {
    open spec fn obeys_from_spec() -> bool {
        true
    }

    open spec fn from_spec(v: String) -> UserType {
        if v@ == "CUSTOMER"@ {
            UserType::Cusotmer
        } else {
            UserType::Employee
        }
    }
}

/// What the domain model records about one change.
#[derive(Debug)]
pub enum DomainEvent {
    EmailChangeEvent { user_id: i64, new_email: String },
    UserTypeChangeEvent { user_id: i64, old_type: UserType, new_type: UserType },
}

pub struct Company {
    pub id: i64,
    pub domain_name: String,
    pub number_of_employees: i64,
}

/// The classification applied here: the part of the address after its
/// first `@` is held against the company domain.
pub open spec fn classify(company_domain: Seq<char>, email: Seq<char>) -> UserType {
    if segment_after_at(email) == company_domain {
        UserType::Employee
    } else {
        UserType::Cusotmer
    }
}

impl Company {
    /// Moves the employee count by `delta`; the count never drops
    /// below zero.
    pub fn change_number_of_employees(&mut self, delta: i64)
        requires
            old(self).number_of_employees + delta >= 0,
            old(self).number_of_employees + delta <= i64::MAX,
        ensures
            final(self).id == old(self).id,
            final(self).domain_name == old(self).domain_name,
            final(self).number_of_employees == old(self).number_of_employees + delta,
    {
        self.number_of_employees = self.number_of_employees + delta;
    }

    /// Whether the address belongs to the company: its domain part
    /// equals the company's domain name. The address must hold an `@`.
    pub fn is_email_corporate(&self, email: &str) -> (r: bool)
        requires
            contains_char(email@, '@'),
        ensures
            r == (segment_after_at(email@) == self.domain_name@),
    {
        let email_domain = match second_at_segment(email) {
            Some(d) => d,
            None => {
                proof {
                    assert(false);
                }
                String::new()
            },
        };
        str_eq(email_domain.as_str(), self.domain_name.as_str())
    }
}

impl User {
    /// The guard for the change: only a user with a confirmed email
    /// may change it.
    pub fn can_change_email(&self) -> (r: bool)
        ensures
            r == self.email_confirmed,
    {
        self.email_confirmed
    }

    /// Changes the email: an address equal to the current one changes
    /// nothing; any other address is taken over and the user is
    /// reclassified against the company. A changed classification
    /// moves the company's employee count by one and records a
    /// type-change event; every applied change records an email-change
    /// event last.
    pub fn change_email(&mut self, new_email: &str, company: &mut Company)
        requires
            old(self).email@ != new_email@ ==> contains_char(new_email@, '@'),
            old(self).email@ != new_email@ && classify(old(company).domain_name@, new_email@)
                != old(self).user_type ==> {
                &&& classify(old(company).domain_name@, new_email@) == UserType::Employee
                    ==> -1 <= old(company).number_of_employees < i64::MAX
                &&& classify(old(company).domain_name@, new_email@) == UserType::Cusotmer
                    ==> old(company).number_of_employees >= 1
            },
        ensures
            final(self).user_id == old(self).user_id,
            final(self).email_confirmed == old(self).email_confirmed,
            final(company).id == old(company).id,
            final(company).domain_name == old(company).domain_name,
            old(self).email@ == new_email@ ==> *final(self) == *old(self) && *final(company)
                == *old(company),
            old(self).email@ != new_email@ ==> {
                &&& final(self).email@ == new_email@
                &&& final(self).user_type == classify(old(company).domain_name@, new_email@)
                &&& final(self).domain_events@.len() == old(self).domain_events@.len() + (
                if classify(old(company).domain_name@, new_email@) != old(self).user_type {
                    2int
                } else {
                    1int
                })
                &&& forall|j: int|
                    0 <= j < old(self).domain_events@.len() ==> final(self).domain_events@[j]
                        == old(self).domain_events@[j]
                &&& final(self).domain_events@.last() matches DomainEvent::EmailChangeEvent {
                    user_id,
                    new_email: recorded,
                } && user_id == old(self).user_id && recorded@ == new_email@
                &&& classify(old(company).domain_name@, new_email@) != old(self).user_type
                    ==> (final(self).domain_events@[old(self).domain_events@.len() as int]
                    matches DomainEvent::UserTypeChangeEvent {
                    user_id,
                    old_type,
                    new_type,
                } && user_id == old(self).user_id && old_type == old(self).user_type && new_type
                    == classify(old(company).domain_name@, new_email@))
                &&& final(company).number_of_employees == if classify(
                    old(company).domain_name@,
                    new_email@,
                ) != old(self).user_type {
                    if classify(old(company).domain_name@, new_email@) == UserType::Employee {
                        old(company).number_of_employees + 1
                    } else {
                        old(company).number_of_employees - 1
                    }
                } else {
                    old(company).number_of_employees as int
                }
            },
    {
        if str_eq(self.email.as_str(), new_email) {
            return ;
        }

        let new_type = if company.is_email_corporate(new_email) {
            UserType::Employee
        } else {
            UserType::Cusotmer
        };

        if self.user_type != new_type {
            let delta: i64 = if new_type == UserType::Employee {
                1
            } else {
                -1
            };
            company.change_number_of_employees(delta);
            self.domain_events.push(DomainEvent::UserTypeChangeEvent {
                user_id: self.user_id,
                old_type: self.user_type,
                new_type,
            });
        }

        self.email = String::from_str(new_email);
        self.user_type = new_type;

        self.domain_events.push(DomainEvent::EmailChangeEvent {
            user_id: self.user_id,
            new_email: String::from_str(new_email),
        });
    }
}

/// The exact wire form of an email-change announcement.
pub open spec fn email_changed_message(user_id: int, new_email: Seq<char>) -> Seq<char> {
    "Type: USER EMAIL CHANGED; Id: "@ + int_str(user_id) + "; NewEmail: "@ + new_email
}

/// The raw transport the message bus writes to. The trait carries a
/// mathematical log of everything sent, in order.
pub trait Bus {
    /// Every message sent so far, oldest first.
    spec fn sent(&self) -> Seq<Seq<char>>;

    fn send(&mut self, message: &str)
        ensures
            final(self).sent() == old(self).sent().push(message@),
    ;
}

/// The typed face of the bus: formats each announcement.
pub struct MessageBus<B: Bus> {
    pub bus: B,
}

impl<B: Bus> MessageBus<B> {
    pub fn new(bus: B) -> (r: MessageBus<B>)
        ensures
            r.bus == bus,
    {
        MessageBus { bus }
    }

    /// Announces one email change on the bus, in the exact wire form.
    pub fn send_email_changed_message(&mut self, user_id: i64, new_email: &str)
        ensures
            final(self).bus.sent() == old(self).bus.sent().push(
                email_changed_message(user_id as int, new_email@),
            ),
    {
        proof {
            reveal_strlit("Type: USER EMAIL CHANGED; Id: ");
            reveal_strlit("; NewEmail: ");
        }
        let mut message = String::from_str("Type: USER EMAIL CHANGED; Id: ");
        message.append(i64_to_string(user_id).as_str());
        message.append("; NewEmail: ");
        message.append(new_email);
        proof {
            assert(message@ =~= email_changed_message(user_id as int, new_email@));
        }
        self.bus.send(message.as_str());
    }
}

/// What the dispatcher needs of diagnostics.
pub trait DomainLogger {
    fn user_type_has_changed(&self, user_id: i64, old_type: UserType, new_type: UserType);
}

/// The announcements a run of events causes on the bus: one wire
/// message per email-change event, in order; type changes go to the
/// logger and put nothing on the bus.
pub open spec fn messages_of(events: Seq<DomainEvent>) -> Seq<Seq<char>>
    decreases events.len(),
{
    if events.len() == 0 {
        Seq::<Seq<char>>::empty()
    } else {
        messages_of(events.drop_last()) + (match events.last() {
            DomainEvent::EmailChangeEvent { user_id, new_email } => seq![
                email_changed_message(user_id as int, new_email@),
            ],
            DomainEvent::UserTypeChangeEvent { .. } => Seq::<Seq<char>>::empty(),
        })
    }
}

/// Routes each recorded event to the collaborator it concerns.
pub struct EventDispatcher<B: Bus, L: DomainLogger> {
    pub message_bus: MessageBus<B>,
    pub domain_logger: L,
}

impl<B: Bus, L: DomainLogger> EventDispatcher<B, L> {
    pub fn new(message_bus: MessageBus<B>, domain_logger: L) -> (r: EventDispatcher<B, L>)
        ensures
            r.message_bus == message_bus,
            r.domain_logger == domain_logger,
    {
        EventDispatcher { message_bus, domain_logger }
    }

    /// Routes every event, in order: afterwards the bus has seen
    /// exactly the announcements the events call for.
    pub fn dispatch(&mut self, events: &[DomainEvent])
        ensures
            final(self).message_bus.bus.sent() == old(self).message_bus.bus.sent()
                + messages_of(events@),
    {
        let ghost initial = self.message_bus.bus.sent();
        let mut i: usize = 0;
        proof {
            assert(initial + messages_of(events@.subrange(0, 0)) =~= initial);
        }
        while i < events.len()
            invariant
                i <= events@.len(),
                self.message_bus.bus.sent() == initial + messages_of(
                    events@.subrange(0, i as int),
                ),
                initial == old(self).message_bus.bus.sent(),
            decreases events@.len() - i,
        {
            let ev = vstd::slice::slice_index_get(events, i);
            self._dispatch(ev);
            proof {
                assert(events@.subrange(0, i + 1).drop_last() =~= events@.subrange(0, i as int));
                assert(events@.subrange(0, i + 1).last() == events@[i as int]);
                assert(self.message_bus.bus.sent() =~= initial + messages_of(
                    events@.subrange(0, i + 1),
                ));
            }
            i = i + 1;
        }
        proof {
            assert(events@.subrange(0, events@.len() as int) =~= events@);
        }
    }

    /// Routes one event: an email change goes to the bus in the exact
    /// wire form, a type change goes to the logger.
    pub fn _dispatch(&mut self, event: &DomainEvent)
        ensures
            event matches DomainEvent::EmailChangeEvent { user_id, new_email }
                ==> final(self).message_bus.bus.sent() == old(self).message_bus.bus.sent().push(
                email_changed_message(user_id as int, new_email@),
            ),
            event is UserTypeChangeEvent ==> final(self).message_bus.bus.sent() == old(
                self,
            ).message_bus.bus.sent(),
    {
        match event {
            DomainEvent::EmailChangeEvent { user_id, new_email } => {
                self.message_bus.send_email_changed_message(*user_id, new_email.as_str());
            },
            DomainEvent::UserTypeChangeEvent { user_id, old_type, new_type } => {
                self.domain_logger.user_type_has_changed(*user_id, *old_type, *new_type);
            },
        }
    }
}

/// A persistence failure, with a description.
#[derive(Debug)]
pub struct DbError {
    pub message: String,
}

/// Why a change-email request was refused.
#[derive(Debug)]
pub enum ChangeEmailError {
    /// No user is stored under the requested identifier.
    UserNotFound,
    /// The user's current email is not yet confirmed.
    EmailNotConfirmed,
    /// No company is stored.
    CompanyNotFound,
    /// The requested address holds no `@`.
    InvalidEmail,
    /// The stored employee count cannot absorb the reclassification.
    EmployeeCountOutOfRange,
    /// Persistence itself failed.
    Database(DbError),
}

/// What the orchestrator needs of persistence; every lookup may fail,
/// and may come back empty.
pub trait Database {
    fn get_user_by_id(&self, user_id: i64) -> Result<Option<User>, DbError>;

    fn get_company(&self) -> Result<Option<Company>, DbError>;

    fn save_company(&self, company: &Company);

    fn save_user(&self, user: &User) -> Result<(), DbError>;
}

/// The orchestrator: loads, guards, applies, saves, and hands the
/// recorded events to the dispatcher.
pub struct UserController<D: Database, L: DomainLogger, B: Bus> {
    pub database: D,
    pub event_dispatcher: EventDispatcher<B, L>,
}

impl<D: Database, L: DomainLogger, B: Bus> UserController<D, L, B> {
    pub fn new(database: D, event_dispatcher: EventDispatcher<B, L>) -> (r: UserController<
        D,
        L,
        B,
    >)
        ensures
            r.database == database,
            r.event_dispatcher == event_dispatcher,
    {
        UserController { database, event_dispatcher }
    }

    /// Loads the user and the company, guards, applies the change,
    /// saves, and dispatches the recorded events. Each refusal names
    /// its reason; a request the domain model cannot honour — an
    /// address without an `@`, or a count move the stored company
    /// cannot absorb — leaves the collaborators untouched.
    pub fn change_email(&mut self, user_id: i64, new_email: &str) -> Result<(), ChangeEmailError> {
        let mut user = match self.database.get_user_by_id(user_id) {
            Ok(result) => match result {
                Some(user) => user,
                None => return Err(ChangeEmailError::UserNotFound),
            },
            Err(e) => return Err(ChangeEmailError::Database(e)),
        };

        if !user.can_change_email() {
            return Err(ChangeEmailError::EmailNotConfirmed);
        }

        let mut company = match self.database.get_company() {
            Ok(result) => match result {
                Some(company) => company,
                None => return Err(ChangeEmailError::CompanyNotFound),
            },
            Err(e) => return Err(ChangeEmailError::Database(e)),
        };

        if !str_eq(user.email.as_str(), new_email) {
            let domain = match second_at_segment(new_email) {
                Some(d) => d,
                None => return Err(ChangeEmailError::InvalidEmail),
            };
            let corporate = str_eq(domain.as_str(), company.domain_name.as_str());
            let new_type = if corporate {
                UserType::Employee
            } else {
                UserType::Cusotmer
            };
            if new_type != user.user_type {
                if new_type == UserType::Employee && (company.number_of_employees == i64::MAX
                    || company.number_of_employees < -1) {
                    return Err(ChangeEmailError::EmployeeCountOutOfRange);
                }
                if new_type == UserType::Cusotmer && company.number_of_employees < 1 {
                    return Err(ChangeEmailError::EmployeeCountOutOfRange);
                }
            }
        }

        user.change_email(new_email, &mut company);

        self.database.save_company(&company);
        if let Err(e) = self.database.save_user(&user) {
            return Err(ChangeEmailError::Database(e));
        }

        self.event_dispatcher.dispatch(user.domain_events.as_slice());

        Ok(())
    }
}

/// A test double for the bus: remembers every message it was handed.
pub struct BusSpy {
    pub sent_messages: Vec<String>,
}

impl BusSpy {
    /// A spy that has seen nothing yet.
    pub fn new() -> (r: BusSpy)
        ensures
            r.sent_messages@.len() == 0,
    {
        BusSpy { sent_messages: Vec::new() }
    }

    /// Passes the spy through when exactly `number` messages were
    /// sent, for chained checks.
    pub fn should_send_number_of_messages(&self, number: usize) -> (r: &BusSpy)
        requires
            number == self.sent_messages@.len(),
        ensures
            r == self,
    {
        self
    }

    /// Passes the spy through when the email-change announcement for
    /// the given user and address was sent, for chained checks.
    pub fn with_email_changed_message(&self, user_id: i64, new_email: &str) -> (r: &BusSpy)
        requires
            self.sent_messages.deep_view().contains(
                email_changed_message(user_id as int, new_email@),
            ),
        ensures
            r == self,
    {
        self
    }
}

impl Bus for BusSpy {
    open spec fn sent(&self) -> Seq<Seq<char>> {
        self.sent_messages.deep_view()
    }

    fn send(&mut self, message: &str) {
        self.sent_messages.push(String::from_str(message));
        proof {
            assert(self.sent_messages.deep_view() =~= old(self).sent_messages.deep_view().push(
                message@,
            ));
        }
    }
}

} // verus!
