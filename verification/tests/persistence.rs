use testable_design::audit::{AuditManager, FileUpdate};
use testable_design::persist::{ApplicationService, AuditError, Persister};
use testable_design::storage::{InMemoryStorage, Storage, StorageError};
use testable_design::timestamp::Timestamp;

fn service_over(storage: InMemoryStorage, capacity: usize) -> ApplicationService<InMemoryStorage> {
    ApplicationService {
        audit_manager: AuditManager { max_entries_per_file: capacity },
        persister: Persister {},
        storage,
    }
}

#[test]
fn reading_a_directory_twice_returns_equal_sequences() {
    let mut storage = InMemoryStorage::new();
    storage.add_entry("audit_1.txt".to_owned(), "a\nb".to_owned());
    storage.add_entry("audit_2.txt".to_owned(), "c".to_owned());
    let persister = Persister {};

    let first = persister.read_directory(&storage).unwrap();
    let second = persister.read_directory(&storage).unwrap();

    assert_eq!(first.len(), second.len());
    for (one, two) in first.iter().zip(second.iter()) {
        assert_eq!(one.file_name, two.file_name);
        assert_eq!(one.lines, two.lines);
    }
}

#[test]
fn an_applied_update_reads_back_as_its_lines() {
    let mut storage = InMemoryStorage::new();
    storage.add_entry("audit_1.txt".to_owned(), "old".to_owned());
    let persister = Persister {};

    let update = FileUpdate {
        path: "audit_1.txt".to_owned(),
        content: "first\nsecond".to_owned(),
    };
    persister.apply_update(&mut storage, &update).unwrap();

    let files = persister.read_directory(&storage).unwrap();
    assert_eq!(1, files.len());
    assert_eq!("audit_1.txt", files[0].file_name);
    assert_eq!(vec!["first".to_owned(), "second".to_owned()], files[0].lines);
}

#[test]
fn a_write_creates_the_file_when_it_is_absent() {
    let mut storage = InMemoryStorage::new();

    storage.write_text("audit_1.txt", "hello").unwrap();

    assert_eq!(Ok("hello".to_owned()), storage.read_text("audit_1.txt").map_err(|_| ()));
    assert_eq!(vec!["audit_1.txt".to_owned()], storage.list_directory().unwrap());
}

#[test]
fn a_write_fully_replaces_existing_content() {
    let mut storage = InMemoryStorage::new();
    storage.write_text("audit_1.txt", "old content that is longer").unwrap();

    storage.write_text("audit_1.txt", "new").unwrap();

    assert_eq!(Ok("new".to_owned()), storage.read_text("audit_1.txt").map_err(|_| ()));
    assert_eq!(1, storage.list_directory().unwrap().len());
}

#[test]
fn reading_a_missing_file_fails() {
    let storage = InMemoryStorage::new();

    assert!(storage.read_text("audit_1.txt").is_err());
}

#[test]
fn the_service_appends_and_rotates_across_calls() {
    let mut service = service_over(InMemoryStorage::new(), 2);
    let when = Timestamp::new(2019, 4, 6, 16, 30, 0);

    service.add_record("Peter", &when).unwrap();
    service.add_record("Jane", &when).unwrap();
    service.add_record("Jack", &when).unwrap();

    let persister = Persister {};
    let files = persister.read_directory(&service.storage).unwrap();
    assert_eq!(2, files.len());
    assert_eq!("audit_1.txt", files[0].file_name);
    assert_eq!(
        vec![
            "Peter; 2019-04-06 16:30:00 UTC".to_owned(),
            "Jane; 2019-04-06 16:30:00 UTC".to_owned(),
        ],
        files[0].lines
    );
    assert_eq!("audit_2.txt", files[1].file_name);
    assert_eq!(vec!["Jack; 2019-04-06 16:30:00 UTC".to_owned()], files[1].lines);
}

struct FailingStorage {
    fail_listing: bool,
    fail_reading: bool,
}

impl Storage for FailingStorage {
    // The ghost file model is never evaluated at run time.
    fn files(&self) -> vstd::prelude::Seq<(vstd::prelude::Seq<char>, vstd::prelude::Seq<char>)> {
        unreachable!()
    }

    fn list_directory(&self) -> Result<Vec<String>, StorageError> {
        if self.fail_listing {
            Err(StorageError { message: "listing failed".to_owned() })
        } else {
            Ok(vec!["audit_1.txt".to_owned()])
        }
    }

    fn read_text(&self, _file_name: &str) -> Result<String, StorageError> {
        if self.fail_reading {
            Err(StorageError { message: "reading failed".to_owned() })
        } else {
            Ok(String::new())
        }
    }

    fn write_text(&mut self, _file_name: &str, _content: &str) -> Result<(), StorageError> {
        Err(StorageError { message: "writing failed".to_owned() })
    }
}

#[test]
fn each_storage_failure_surfaces_as_its_own_error() {
    let persister = Persister {};

    let listing = persister.read_directory(&FailingStorage { fail_listing: true, fail_reading: false });
    assert!(matches!(listing, Err(AuditError::DirectoryReadError(_))));

    let reading = persister.read_directory(&FailingStorage { fail_listing: false, fail_reading: true });
    assert!(matches!(reading, Err(AuditError::FileReadError(_))));

    let mut failing = FailingStorage { fail_listing: false, fail_reading: false };
    let update = FileUpdate { path: "audit_1.txt".to_owned(), content: "x".to_owned() };
    let writing = persister.apply_update(&mut failing, &update);
    assert!(matches!(writing, Err(AuditError::FileWriteError(_))));
}
