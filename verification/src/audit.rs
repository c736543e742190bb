//! The pure decision core of the rotating audit log: given the current
//! files of the log directory and one new visitor record, decide the
//! single file write to perform. Appends to the newest file while it
//! has spare capacity, and rotates to a fresh file once the capacity
//! threshold is reached.

use vstd::prelude::*;

use crate::strutil::{dec_str, join_with, lemma_dec_str_injective, usize_to_string, join_lines};
use crate::timestamp::{Timestamp, timestamp_str};

verus! {

/// One log file already loaded into memory: its name and its records,
/// one line per record, in write order.
pub struct FileContent {
    pub file_name: String,
    pub lines: Vec<String>,
}

/// The mathematical value of a loaded log file.
pub ghost struct FileContentView {
    pub file_name: Seq<char>,
    pub lines: Seq<Seq<char>>,
}

impl View for FileContent {
    type V = FileContentView;

    open spec fn view(&self) -> FileContentView {
        FileContentView { file_name: self.file_name@, lines: self.lines.deep_view() }
    }
}

impl DeepView for FileContent {
    type V = FileContentView;

    open spec fn deep_view(&self) -> FileContentView {
        self.view()
    }
}

/// The single write the decision logic wants performed: the target file
/// name and its full new body.
pub struct FileUpdate {
    pub path: String,
    pub content: String,
}

/// The mathematical value of a decided write.
pub ghost struct FileUpdateView {
    pub path: Seq<char>,
    pub content: Seq<char>,
}

impl View for FileUpdate {
    type V = FileUpdateView;

    open spec fn view(&self) -> FileUpdateView {
        FileUpdateView { path: self.path@, content: self.content@ }
    }
}

/// The name of the `n`-th log file.
pub open spec fn audit_file_name(n: nat) -> Seq<char> {
    "audit_"@ + dec_str(n) + ".txt"@
}

/// One audit record as a line: the visitor's name, the separator, and
/// the canonical rendering of the time of the visit.
pub open spec fn record_line(visitor: Seq<char>, ts: Timestamp) -> Seq<char> {
    visitor + "; "@ + timestamp_str(ts)
}

/// The decision: on an empty directory, create the first file holding
/// the new record alone; while the newest file is below the capacity
/// threshold, overwrite it with its lines plus the new record; at
/// capacity, create a fresh file, numbered one past the count of files
/// present, holding the new record alone.
pub open spec fn add_record_spec(
    max_entries_per_file: int,
    files: Seq<FileContentView>,
    visitor: Seq<char>,
    ts: Timestamp,
) -> FileUpdateView {
    let rec = record_line(visitor, ts);
    if files.len() == 0 {
        FileUpdateView { path: audit_file_name(1), content: rec }
    } else {
        let current = files.last();
        if current.lines.len() < max_entries_per_file {
            FileUpdateView {
                path: current.file_name,
                content: join_with(current.lines.push(rec), '\n'),
            }
        } else {
            FileUpdateView {
                path: audit_file_name((files.len() + 1) as nat),
                content: rec,
            }
        }
    }
}

/// The pure decision component: holds the capacity threshold and no
/// I/O capability.
pub struct AuditManager {
    pub max_entries_per_file: usize,
}

impl AuditManager {
    /// Decides the single write for one new visitor record, as
    /// `add_record_spec` describes. Total: no error conditions and no
    /// side effect beyond the returned update.
    pub fn add_record(&self, files: Vec<FileContent>, visitor_name: &str, time_of_visit:
        &Timestamp) -> (r: FileUpdate)
        requires
            files@.len() < usize::MAX,
        ensures
            r@ == add_record_spec(
                self.max_entries_per_file as int,
                files.deep_view(),
                visitor_name@,
                *time_of_visit,
            ),
    {
        let ghost files_v = files.deep_view();
        let mut record = String::from_str(visitor_name);
        proof {
            reveal_strlit("; ");
        }
        record.append("; ");
        record.append(time_of_visit.render().as_str());
        proof {
            assert(record@ =~= record_line(visitor_name@, *time_of_visit));
        }

        let n = files.len();
        if n == 0 {
            proof {
                lemma_audit_file_name_first();
            }
            return FileUpdate { path: String::from_str("audit_1.txt"), content: record };
        }

        let mut files = files;
        let current = files.pop().unwrap();
        proof {
            assert(current@ == files_v.last());
        }
        if current.lines.len() < self.max_entries_per_file {
            let mut lines = current.lines;
            lines.push(record);
            let content = join_lines(&lines);
            proof {
                assert(lines.deep_view() =~= files_v.last().lines.push(
                    record_line(visitor_name@, *time_of_visit),
                ));
            }
            FileUpdate { path: current.file_name, content }
        } else {
            let mut path = String::from_str("audit_");
            path.append(usize_to_string(n + 1).as_str());
            proof {
                reveal_strlit(".txt");
            }
            path.append(".txt");
            proof {
                assert(path@ =~= audit_file_name((files_v.len() + 1) as nat));
            }
            FileUpdate { path, content: record }
        }
    }
}

/// The first file's name is the literal `audit_1.txt`.
pub proof fn lemma_audit_file_name_first()
    ensures
        audit_file_name(1) == "audit_1.txt"@,
{
    reveal_strlit("audit_");
    reveal_strlit(".txt");
    reveal_strlit("audit_1.txt");
    assert(dec_str(1) =~= seq!['1']);
    assert(audit_file_name(1) =~= "audit_1.txt"@);
}

/// Distinct file numbers give distinct file names.
pub proof fn lemma_audit_file_name_injective(a: nat, b: nat)
    requires
        a != b,
    ensures
        audit_file_name(a) != audit_file_name(b),
{
    reveal_strlit("audit_");
    reveal_strlit(".txt");
    lemma_dec_str_injective(a, b);
    if audit_file_name(a) == audit_file_name(b) {
        let da = dec_str(a);
        let db = dec_str(b);
        assert(audit_file_name(a).len() == 6 + da.len() + 4);
        assert(audit_file_name(b).len() == 6 + db.len() + 4);
        assert(da =~= audit_file_name(a).subrange(6, 6 + da.len() as int));
        assert(db =~= audit_file_name(b).subrange(6, 6 + db.len() as int));
        assert(false);
    }
}

/// The files of a directory in normal operation: the `i`-th file bears
/// the `i`-th audit file name, with numbering starting at one.
pub open spec fn sequentially_named(files: Seq<FileContentView>) -> bool {
    forall|i: int|
        0 <= i < files.len() ==> files[i].file_name == audit_file_name((i + 1) as nat)
}

/// While the current file holds fewer records than the capacity
/// threshold, the decision appends: the update targets the current
/// file under its unchanged name, and its content is the current lines
/// with the new record appended.
pub proof fn lemma_below_capacity_appends(
    max_entries_per_file: int,
    files: Seq<FileContentView>,
    visitor: Seq<char>,
    ts: Timestamp,
)
    requires
        max_entries_per_file > 0,
        files.len() > 0,
        files.last().lines.len() < max_entries_per_file,
    ensures
        add_record_spec(max_entries_per_file, files, visitor, ts).path
            == files.last().file_name,
        add_record_spec(max_entries_per_file, files, visitor, ts).content == join_with(
            files.last().lines.push(record_line(visitor, ts)),
            '\n',
        ),
{
}

/// Once the current file has reached the capacity threshold, the
/// decision rotates: in a sequentially named directory the produced
/// path is a file name not yet present, and the content is the new
/// record alone.
pub proof fn lemma_at_capacity_rotates(
    max_entries_per_file: int,
    files: Seq<FileContentView>,
    visitor: Seq<char>,
    ts: Timestamp,
)
    requires
        max_entries_per_file > 0,
        files.len() > 0,
        files.last().lines.len() >= max_entries_per_file,
        sequentially_named(files),
    ensures
        add_record_spec(max_entries_per_file, files, visitor, ts).content == record_line(
            visitor,
            ts,
        ),
        forall|i: int|
            0 <= i < files.len() ==> files[i].file_name != add_record_spec(
                max_entries_per_file,
                files,
                visitor,
                ts,
            ).path,
{
    let u = add_record_spec(max_entries_per_file, files, visitor, ts);
    assert forall|i: int| 0 <= i < files.len() implies files[i].file_name != u.path by {
        lemma_audit_file_name_injective((i + 1) as nat, (files.len() + 1) as nat);
    }
}

/// The rotation index is the count of files present plus one, whatever
/// numeric suffixes the present names carry.
pub proof fn lemma_rotation_index_is_count(
    max_entries_per_file: int,
    files: Seq<FileContentView>,
    visitor: Seq<char>,
    ts: Timestamp,
)
    requires
        files.len() > 0,
        files.last().lines.len() >= max_entries_per_file,
    ensures
        add_record_spec(max_entries_per_file, files, visitor, ts).path == audit_file_name(
            (files.len() + 1) as nat,
        ),
{
}

/// On an empty directory the decision always creates the first file,
/// holding the new record alone.
pub proof fn lemma_empty_directory_creates_first_file(
    max_entries_per_file: int,
    visitor: Seq<char>,
    ts: Timestamp,
)
    ensures
        add_record_spec(max_entries_per_file, Seq::empty(), visitor, ts) == (FileUpdateView {
            path: "audit_1.txt"@,
            content: record_line(visitor, ts),
        }),
{
    lemma_audit_file_name_first();
}

} // verus!
