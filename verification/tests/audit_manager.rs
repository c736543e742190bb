use chrono::{DateTime, Datelike, Timelike, Utc};

use testable_design::audit::{AuditManager, FileContent};
use testable_design::strutil::{i64_to_string, usize_to_string};
use testable_design::timestamp::Timestamp;

fn timestamp_of(instant: &str) -> Timestamp {
    let parsed = instant.parse::<DateTime<Utc>>().unwrap();
    Timestamp::new(
        parsed.year() as u32,
        parsed.month(),
        parsed.day(),
        parsed.hour(),
        parsed.minute(),
        parsed.second(),
    )
}

#[test]
fn a_new_file_is_created_when_the_current_file_overflows() {
    let sut = AuditManager { max_entries_per_file: 3 };
    let files = vec![
        FileContent { file_name: "audit_1.txt".to_owned(), lines: vec![] },
        FileContent {
            file_name: "audit_2.txt".to_owned(),
            lines: vec![
                "Peter; 2019-04-06T16:30:00".to_owned(),
                "Jane; 2019-04-06T16:40:00".to_owned(),
                "Jack; 2019-04-06T17:00:00".to_owned(),
            ],
        },
    ];
    let update = sut.add_record(files, "Alice", &timestamp_of("2014-11-28T12:00:09Z"));

    assert_eq!("audit_3.txt", update.path);
    assert_eq!("Alice; 2014-11-28 12:00:09 UTC", update.content);
}

#[test]
fn an_empty_directory_gets_the_first_file() {
    let sut = AuditManager { max_entries_per_file: 3 };

    let update = sut.add_record(vec![], "Alice", &timestamp_of("2014-11-28T12:00:09Z"));

    assert_eq!("audit_1.txt", update.path);
    assert_eq!("Alice; 2014-11-28 12:00:09 UTC", update.content);
}

#[test]
fn a_record_is_appended_while_the_current_file_has_room() {
    let sut = AuditManager { max_entries_per_file: 3 };
    let files = vec![FileContent { file_name: "audit_1.txt".to_owned(), lines: vec![] }];

    let update = sut.add_record(files, "Bob", &Timestamp::new(2019, 4, 6, 16, 30, 0));

    assert_eq!("audit_1.txt", update.path);
    assert_eq!("Bob; 2019-04-06 16:30:00 UTC", update.content);
}

#[test]
fn appending_joins_the_existing_lines_with_the_new_record() {
    let sut = AuditManager { max_entries_per_file: 3 };
    let files = vec![FileContent {
        file_name: "audit_1.txt".to_owned(),
        lines: vec!["Peter; 2019-04-06 16:30:00 UTC".to_owned()],
    }];

    let update = sut.add_record(files, "Jane", &Timestamp::new(2019, 4, 6, 16, 40, 0));

    assert_eq!("audit_1.txt", update.path);
    assert_eq!(
        "Peter; 2019-04-06 16:30:00 UTC\nJane; 2019-04-06 16:40:00 UTC",
        update.content
    );
}

#[test]
fn the_rotation_index_comes_from_the_file_count_not_the_suffixes() {
    let sut = AuditManager { max_entries_per_file: 1 };
    let files = vec![
        FileContent { file_name: "audit_7.txt".to_owned(), lines: vec!["a".to_owned()] },
        FileContent { file_name: "audit_9.txt".to_owned(), lines: vec!["b".to_owned()] },
    ];

    let update = sut.add_record(files, "Alice", &Timestamp::new(2014, 11, 28, 12, 0, 9));

    assert_eq!("audit_3.txt", update.path);
    assert_eq!("Alice; 2014-11-28 12:00:09 UTC", update.content);
}

#[test]
fn timestamps_render_zero_padded() {
    assert_eq!("0001-02-03 04:05:06 UTC", Timestamp::new(1, 2, 3, 4, 5, 6).render());
    assert_eq!("2014-11-28 12:00:09 UTC", Timestamp::new(2014, 11, 28, 12, 0, 9).render());
}

#[test]
fn decimal_rendering_is_exact() {
    assert_eq!("0", usize_to_string(0));
    assert_eq!("10", usize_to_string(10));
    assert_eq!("90210", usize_to_string(90210));
    assert_eq!("-45", i64_to_string(-45));
    assert_eq!("9223372036854775807", i64_to_string(i64::MAX));
    assert_eq!("-9223372036854775808", i64_to_string(i64::MIN));
}
