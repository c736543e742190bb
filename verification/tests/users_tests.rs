use testable_design::users::coupled;
use testable_design::users::dispatch;
use testable_design::users::domain;
use testable_design::users::events;
use testable_design::users::functional;
use testable_design::users::guarded;

#[test]
fn changing_email_from_non_corporate_to_corporate() {
    let mut company = domain::Company {
        domain_name: "mycorp.com".to_owned(),
        number_of_employees: 1,
    };
    let mut sut = domain::User {
        email: "user@example.com".to_owned(),
        user_id: 1,
        user_type: domain::UserType::Cusotmer,
    };

    sut.change_email("new@mycorp.com", &mut company);

    assert_eq!(2, company.number_of_employees);
    assert_eq!("new@mycorp.com", sut.email);
    assert_eq!(domain::UserType::Employee, sut.user_type);
}

#[test]
fn sample_03_changing_email_from_corporate_to_non_corporate() {}

#[test]
fn changing_email_without_changing_user_type() {}

#[test]
fn changing_email_to_same_one() {}

#[test]
fn sample_04_can_execute_changing_email_from_corporate_to_non_corporate() {
    let mut company = guarded::Company {
        domain_name: "mycorp.com".to_owned(),
        number_of_employees: 1,
    };
    let mut sut = guarded::User {
        email: "user@mycorp.com".to_owned(),
        email_confirmed: true,
        email_changed_events: vec![],
        user_id: 1,
        user_type: guarded::UserType::Employee,
    };

    sut.change_email("new@example.com", &mut company);

    assert_eq!(company.number_of_employees, 0);
    assert_eq!(sut.email, "new@example.com");
    assert_eq!(sut.user_type, guarded::UserType::Cusotmer);
    assert_eq!(
        sut.email_changed_events.first().unwrap(),
        &guarded::EmailChangeEvent {
            user_id: 1,
            new_email: "new@example.com".to_owned()
        }
    );
}

#[test]
fn an_unconfirmed_user_cannot_change_email() {
    let sut = guarded::User {
        email: "user@mycorp.com".to_owned(),
        email_confirmed: false,
        email_changed_events: vec![],
        user_id: 1,
        user_type: guarded::UserType::Employee,
    };

    assert_eq!(Some("Email is not yet confirmed"), sut.can_change_email());
}

#[test]
fn the_coupled_flow_reclassifies_against_the_stub_domain() {
    let mut sut = coupled::User {
        user_id: 0,
        email: String::new(),
        user_type: coupled::UserType::Employee,
    };

    sut.change_email(7, "someone@example.com");

    assert_eq!(7, sut.user_id);
    assert_eq!("someone@example.com", sut.email);
    assert_eq!(coupled::UserType::Cusotmer, sut.user_type);
}

#[test]
fn the_functional_change_returns_the_moved_count() {
    let mut sut = functional::User {
        user_id: 1,
        email: "user@example.com".to_owned(),
        user_type: functional::UserType::Cusotmer,
    };

    let count = sut.change_email("mycorp.com@rest", "mycorp.com", 10);

    assert_eq!(11, count);
    assert_eq!(functional::UserType::Employee, sut.user_type);
    assert_eq!("mycorp.com@rest", sut.email);
}

#[test]
fn the_functional_change_with_same_email_changes_nothing() {
    let mut sut = functional::User {
        user_id: 1,
        email: "user@example.com".to_owned(),
        user_type: functional::UserType::Cusotmer,
    };

    let count = sut.change_email("user@example.com", "mycorp.com", 10);

    assert_eq!(10, count);
    assert_eq!(functional::UserType::Cusotmer, sut.user_type);
    assert_eq!("user@example.com", sut.email);
}

#[test]
fn a_stored_name_reads_back_as_its_user_type() {
    assert_eq!(events::UserType::Cusotmer, events::UserType::from("CUSTOMER".to_owned()));
    assert_eq!(events::UserType::Employee, events::UserType::from("EMPLOYEE".to_owned()));
    assert_eq!(events::UserType::Employee, events::UserType::from("anything".to_owned()));
    assert_eq!("CUSTOMER", events::UserType::Cusotmer.to_string());
    assert_eq!("EMPLOYEE", events::UserType::Employee.to_string());
}

struct FakeDatabase {
    user: Option<events::User>,
    company: Option<events::Company>,
    fail_user_lookup: bool,
}

fn fake_user(email: &str, confirmed: bool, user_type: events::UserType) -> events::User {
    events::User {
        user_id: 1,
        email: email.to_owned(),
        email_confirmed: confirmed,
        email_changed_events: vec![],
        user_type,
    }
}

fn fake_company(domain: &str, employees: i64) -> events::Company {
    events::Company { id: 1, domain_name: domain.to_owned(), number_of_employees: employees }
}

impl events::Database for FakeDatabase {
    fn get_user_by_id(&self, _user_id: i64) -> Result<Option<events::User>, events::DbError> {
        if self.fail_user_lookup {
            return Err(events::DbError { message: "lookup failed".to_owned() });
        }
        Ok(self.user.as_ref().map(|u| events::User {
            user_id: u.user_id,
            email: u.email.clone(),
            email_confirmed: u.email_confirmed,
            email_changed_events: vec![],
            user_type: u.user_type,
        }))
    }

    fn get_company(&self) -> Result<Option<events::Company>, events::DbError> {
        Ok(self.company.as_ref().map(|c| events::Company {
            id: c.id,
            domain_name: c.domain_name.clone(),
            number_of_employees: c.number_of_employees,
        }))
    }

    fn save_company(&self, _company: &events::Company) {}

    fn save_user(&self, _user: &events::User) -> Result<(), events::DbError> {
        Ok(())
    }
}

struct SilentBus;

impl events::MessageBus for SilentBus {
    fn send_email_changed_message(&self, _user_id: i64, _new_email: &str) {}
}

#[test]
fn the_persisted_controller_reports_each_refusal() {
    let ok = events::UserController::new(
        FakeDatabase {
            user: Some(fake_user("user@mycorp.com", true, events::UserType::Employee)),
            company: Some(fake_company("mycorp.com", 1)),
            fail_user_lookup: false,
        },
        SilentBus,
    );
    assert!(ok.change_email(1, "new@example.com").is_ok());

    let missing_user = events::UserController::new(
        FakeDatabase { user: None, company: None, fail_user_lookup: false },
        SilentBus,
    );
    assert!(matches!(
        missing_user.change_email(1, "new@example.com"),
        Err(events::ChangeEmailError::UserNotFound)
    ));

    let unconfirmed = events::UserController::new(
        FakeDatabase {
            user: Some(fake_user("user@mycorp.com", false, events::UserType::Employee)),
            company: Some(fake_company("mycorp.com", 1)),
            fail_user_lookup: false,
        },
        SilentBus,
    );
    assert!(matches!(
        unconfirmed.change_email(1, "new@example.com"),
        Err(events::ChangeEmailError::EmailNotConfirmed)
    ));

    let missing_company = events::UserController::new(
        FakeDatabase {
            user: Some(fake_user("user@mycorp.com", true, events::UserType::Employee)),
            company: None,
            fail_user_lookup: false,
        },
        SilentBus,
    );
    assert!(matches!(
        missing_company.change_email(1, "new@example.com"),
        Err(events::ChangeEmailError::CompanyNotFound)
    ));

    let no_at_sign = events::UserController::new(
        FakeDatabase {
            user: Some(fake_user("user@mycorp.com", true, events::UserType::Employee)),
            company: Some(fake_company("mycorp.com", 1)),
            fail_user_lookup: false,
        },
        SilentBus,
    );
    assert!(matches!(
        no_at_sign.change_email(1, "not-an-address"),
        Err(events::ChangeEmailError::InvalidEmail)
    ));

    let empty_company = events::UserController::new(
        FakeDatabase {
            user: Some(fake_user("user@mycorp.com", true, events::UserType::Employee)),
            company: Some(fake_company("mycorp.com", 0)),
            fail_user_lookup: false,
        },
        SilentBus,
    );
    assert!(matches!(
        empty_company.change_email(1, "new@example.com"),
        Err(events::ChangeEmailError::EmployeeCountOutOfRange)
    ));

    let broken_lookup = events::UserController::new(
        FakeDatabase { user: None, company: None, fail_user_lookup: true },
        SilentBus,
    );
    assert!(matches!(
        broken_lookup.change_email(1, "new@example.com"),
        Err(events::ChangeEmailError::Database(_))
    ));
}

struct QuietLogger;

impl dispatch::DomainLogger for QuietLogger {
    fn user_type_has_changed(
        &self,
        _user_id: i64,
        _old_type: dispatch::UserType,
        _new_type: dispatch::UserType,
    ) {
    }
}

#[test]
fn dispatched_events_reach_the_bus_in_wire_form() {
    let message_bus = dispatch::MessageBus::new(dispatch::BusSpy::new());
    let mut dispatcher = dispatch::EventDispatcher::new(message_bus, QuietLogger);

    let events = vec![
        dispatch::DomainEvent::UserTypeChangeEvent {
            user_id: 1,
            old_type: dispatch::UserType::Employee,
            new_type: dispatch::UserType::Cusotmer,
        },
        dispatch::DomainEvent::EmailChangeEvent {
            user_id: 1,
            new_email: "new@example.com".to_owned(),
        },
    ];
    dispatcher.dispatch(events.as_slice());

    let spy = &dispatcher.message_bus.bus;
    assert_eq!(1, spy.sent_messages.len());
    assert_eq!(
        "Type: USER EMAIL CHANGED; Id: 1; NewEmail: new@example.com",
        spy.sent_messages[0]
    );
    spy.should_send_number_of_messages(1)
        .with_email_changed_message(1, "new@example.com");
}

struct FakeEventDatabase {
    user: Option<dispatch::User>,
    company: Option<dispatch::Company>,
}

impl dispatch::Database for FakeEventDatabase {
    fn get_user_by_id(
        &self,
        _user_id: i64,
    ) -> Result<Option<dispatch::User>, dispatch::DbError> {
        Ok(self.user.as_ref().map(|u| dispatch::User {
            user_id: u.user_id,
            email: u.email.clone(),
            email_confirmed: u.email_confirmed,
            domain_events: vec![],
            user_type: u.user_type,
        }))
    }

    fn get_company(&self) -> Result<Option<dispatch::Company>, dispatch::DbError> {
        Ok(self.company.as_ref().map(|c| dispatch::Company {
            id: c.id,
            domain_name: c.domain_name.clone(),
            number_of_employees: c.number_of_employees,
        }))
    }

    fn save_company(&self, _company: &dispatch::Company) {}

    fn save_user(&self, _user: &dispatch::User) -> Result<(), dispatch::DbError> {
        Ok(())
    }
}

#[test]
fn the_event_controller_announces_the_change_on_the_bus() {
    let database = FakeEventDatabase {
        user: Some(dispatch::User {
            user_id: 1,
            email: "user@mycorp.com".to_owned(),
            email_confirmed: true,
            domain_events: vec![],
            user_type: dispatch::UserType::Employee,
        }),
        company: Some(dispatch::Company {
            id: 1,
            domain_name: "mycorp.com".to_owned(),
            number_of_employees: 2,
        }),
    };
    let dispatcher = dispatch::EventDispatcher::new(
        dispatch::MessageBus::new(dispatch::BusSpy::new()),
        QuietLogger,
    );
    let mut sut = dispatch::UserController::new(database, dispatcher);

    let result = sut.change_email(1, "new@example.com");

    assert!(result.is_ok());
    let spy = &sut.event_dispatcher.message_bus.bus;
    assert_eq!(1, spy.sent_messages.len());
    assert_eq!(
        "Type: USER EMAIL CHANGED; Id: 1; NewEmail: new@example.com",
        spy.sent_messages[0]
    );
}

#[test]
fn the_event_controller_refuses_a_missing_user() {
    let dispatcher = dispatch::EventDispatcher::new(
        dispatch::MessageBus::new(dispatch::BusSpy::new()),
        QuietLogger,
    );
    let mut sut = dispatch::UserController::new(
        FakeEventDatabase { user: None, company: None },
        dispatcher,
    );

    assert!(matches!(
        sut.change_email(1, "new@example.com"),
        Err(dispatch::ChangeEmailError::UserNotFound)
    ));
}

#[test]
fn a_changed_classification_records_both_events() {
    let mut company = dispatch::Company {
        id: 1,
        domain_name: "mycorp.com".to_owned(),
        number_of_employees: 2,
    };
    let mut sut = dispatch::User {
        user_id: 1,
        email: "user@mycorp.com".to_owned(),
        email_confirmed: true,
        domain_events: vec![],
        user_type: dispatch::UserType::Employee,
    };

    sut.change_email("new@example.com", &mut company);

    assert_eq!(1, company.number_of_employees);
    assert_eq!(2, sut.domain_events.len());
    assert!(matches!(
        sut.domain_events[0],
        dispatch::DomainEvent::UserTypeChangeEvent {
            user_id: 1,
            old_type: dispatch::UserType::Employee,
            new_type: dispatch::UserType::Cusotmer,
        }
    ));
    assert!(matches!(
        &sut.domain_events[1],
        dispatch::DomainEvent::EmailChangeEvent { user_id: 1, new_email } if new_email == "new@example.com"
    ));
}
