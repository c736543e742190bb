//! The bridge between the decision core's logical view and storage,
//! and the service that composes the two: read the whole directory,
//! decide the single update, apply it. The apply step is the only
//! mutation; every failure leaves storage unchanged.

use vstd::prelude::*;

use crate::audit::{
    add_record_spec, AuditManager, FileContent, FileContentView, FileUpdate, FileUpdateView,
};
use crate::storage::{
    lemma_lookup_at, lemma_store_preserves_unique_names, lookup, store, unique_names, Storage,
    StorageError,
};
use crate::strutil::{
    contains_char, join_with, lemma_join_then_split, split_lines, split_lines_exec,
};
use crate::timestamp::Timestamp;

verus! {

/// The failures storage can surface, by the operation that failed.
/// None is retried or suppressed; each carries the storage
/// collaborator's own error.
#[derive(Debug)]
pub enum AuditError {
    DirectoryReadError(StorageError),
    FileReadError(StorageError),
    FileWriteError(StorageError),
}

/// The in-memory representation of a whole directory: each stored file
/// under its name, its body split into lines.
pub open spec fn read_dir_spec(files: Seq<(Seq<char>, Seq<char>)>) -> Seq<FileContentView> {
    files.map_values(
        |f: (Seq<char>, Seq<char>)| FileContentView { file_name: f.0, lines: split_lines(f.1) },
    )
}

/// The I/O component: reads the directory into the representation the
/// decision core consumes, and applies one decided update back.
pub struct Persister {}

impl Persister {
    /// Reads every file of the directory, in storage order. On success
    /// the result is exactly `read_dir_spec` of the stored files; on
    /// failure the error says whether listing or reading failed.
    pub fn read_directory<S: Storage>(&self, storage: &S) -> (r: Result<
        Vec<FileContent>,
        AuditError,
    >)
        requires
            unique_names(storage.files()),
        ensures
            r matches Ok(v) ==> v.deep_view() == read_dir_spec(storage.files()),
            r matches Err(e) ==> (e is DirectoryReadError || e is FileReadError),
    {
        let names = match storage.list_directory() {
            Ok(names) => names,
            Err(e) => return Err(AuditError::DirectoryReadError(e)),
        };
        let mut out: Vec<FileContent> = Vec::new();
        let mut i: usize = 0;
        while i < names.len()
            invariant
                i <= names@.len(),
                unique_names(storage.files()),
                names@.len() == storage.files().len(),
                forall|j: int| 0 <= j < names@.len() ==> names@[j]@ == storage.files()[j].0,
                out@.len() == i,
                forall|j: int| 0 <= j < i ==> out@[j]@ == read_dir_spec(storage.files())[j],
            decreases names@.len() - i,
        {
            let content = match storage.read_text(names[i].as_str()) {
                Ok(content) => content,
                Err(e) => return Err(AuditError::FileReadError(e)),
            };
            proof {
                lemma_lookup_at(storage.files(), names@[i as int]@, i as int);
                assert(content@ == storage.files()[i as int].1);
            }
            let lines = split_lines_exec(content.as_str());
            let file_name = names[i].clone();
            out.push(FileContent { file_name, lines });
            i = i + 1;
        }
        proof {
            assert(out.deep_view() =~= read_dir_spec(storage.files()));
        }
        Ok(out)
    }

    /// Applies one decided update: the named file's content is fully
    /// replaced, the file created if absent. On failure the stored
    /// files are unchanged.
    pub fn apply_update<S: Storage>(&self, storage: &mut S, update: &FileUpdate) -> (r: Result<
        (),
        AuditError,
    >)
        ensures
            r is Ok ==> final(storage).files() == store(
                old(storage).files(),
                update.path@,
                update.content@,
            ),
            r matches Err(e) ==> e is FileWriteError && final(storage).files() == old(
                storage,
            ).files(),
    {
        match storage.write_text(update.path.as_str(), update.content.as_str()) {
            Ok(()) => Ok(()),
            Err(e) => Err(AuditError::FileWriteError(e)),
        }
    }
}

/// The orchestrator: owns the pure decision core, the persister and
/// the storage collaborator.
pub struct ApplicationService<S: Storage> {
    pub audit_manager: AuditManager,
    pub persister: Persister,
    pub storage: S,
}

impl<S: Storage> ApplicationService<S> {
    /// Records one visit: reads the directory, lets the decision core
    /// choose the single write, and applies it. On success storage
    /// holds exactly that one update; on failure storage is unchanged.
    pub fn add_record(&mut self, visitor_name: &str, time_of_visit: &Timestamp) -> (r: Result<
        (),
        AuditError,
    >)
        requires
            unique_names(old(self).storage.files()),
            old(self).storage.files().len() < usize::MAX,
        ensures
            final(self).audit_manager == old(self).audit_manager,
            r is Ok ==> ({
                let update = add_record_spec(
                    old(self).audit_manager.max_entries_per_file as int,
                    read_dir_spec(old(self).storage.files()),
                    visitor_name@,
                    *time_of_visit,
                );
                final(self).storage.files() == store(
                    old(self).storage.files(),
                    update.path,
                    update.content,
                )
            }),
            unique_names(final(self).storage.files()),
            r is Err ==> final(self).storage.files() == old(self).storage.files(),
    {
        let files = match self.persister.read_directory(&self.storage) {
            Ok(files) => files,
            Err(e) => return Err(e),
        };
        proof {
            assert(files.deep_view().len() == files@.len());
            assert(read_dir_spec(self.storage.files()).len() == self.storage.files().len());
        }
        let update = self.audit_manager.add_record(files, visitor_name, time_of_visit);
        proof {
            lemma_store_preserves_unique_names(
                self.storage.files(),
                update.path@,
                update.content@,
            );
        }
        match self.persister.apply_update(&mut self.storage, &update) {
            Ok(()) => Ok(()),
            Err(e) => Err(e),
        }
    }
}

/// Reading is a pure function of the stored files: two successful
/// reads with no intervening write return equal sequences.
pub proof fn lemma_read_directory_idempotent(
    files: Seq<(Seq<char>, Seq<char>)>,
    first: Seq<FileContentView>,
    second: Seq<FileContentView>,
)
    requires
        first == read_dir_spec(files),
        second == read_dir_spec(files),
    ensures
        first == second,
{
}

/// `store` places the written pair somewhere in the directory.
proof fn lemma_store_has_entry(
    files: Seq<(Seq<char>, Seq<char>)>,
    name: Seq<char>,
    content: Seq<char>,
)
    ensures
        exists|i: int|
            0 <= i < store(files, name, content).len() && store(files, name, content)[i] == (
            name,
            content,
            ),
    decreases files.len(),
{
    if files.len() == 0 {
        assert(store(files, name, content)[0] == (name, content));
    } else if files[0].0 == name {
        assert(store(files, name, content)[0] == (name, content));
    } else {
        lemma_store_has_entry(files.drop_first(), name, content);
        let inner = store(files.drop_first(), name, content);
        let i = choose|i: int| 0 <= i < inner.len() && inner[i] == (name, content);
        assert(store(files, name, content)[i + 1] == (name, content));
    }
}

/// A file body written as newline-joined, newline-free lines reads
/// back as exactly those lines.
pub proof fn lemma_joined_lines_read_back(lines: Seq<Seq<char>>)
    requires
        lines.len() >= 1,
        forall|i: int| 0 <= i < lines.len() ==> !contains_char(#[trigger] lines[i], '\n'),
        join_with(lines, '\n').len() > 0,
    ensures
        split_lines(join_with(lines, '\n')) == lines,
{
    lemma_join_then_split(lines, '\n');
}

/// Round trip: after an update is applied, re-reading the directory
/// yields, under the update's path, a file whose lines are the
/// update's content split at newlines.
pub proof fn lemma_apply_then_read_round_trip(
    files: Seq<(Seq<char>, Seq<char>)>,
    update: FileUpdateView,
)
    ensures
        exists|i: int|
            0 <= i < read_dir_spec(store(files, update.path, update.content)).len()
                && read_dir_spec(store(files, update.path, update.content))[i]
                == (FileContentView { file_name: update.path, lines: split_lines(update.content) }),
{
    let stored = store(files, update.path, update.content);
    lemma_store_has_entry(files, update.path, update.content);
    let i = choose|i: int| 0 <= i < stored.len() && stored[i] == (update.path, update.content);
    assert(read_dir_spec(stored)[i] == (FileContentView {
        file_name: update.path,
        lines: split_lines(update.content),
    }));
}

} // verus!
