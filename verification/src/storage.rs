//! The narrow storage capability the audit log consumes: list the
//! files of one directory, read one file's text, write one file's text
//! with create-or-truncate semantics. The stored state is modelled as
//! a sequence of name-content pairs in storage order; an in-memory
//! implementation proves the contract and serves as a test double.

use vstd::prelude::*;

use crate::strutil::str_eq;

verus! {

/// An error from the storage collaborator, with a description.
#[derive(Debug)]
pub struct StorageError {
    pub message: String,
}

/// The content of the first file bearing `name`, if one is present.
pub open spec fn lookup(files: Seq<(Seq<char>, Seq<char>)>, name: Seq<char>) -> Option<Seq<char>>
    decreases files.len(),
{
    if files.len() == 0 {
        None
    } else if files[0].0 == name {
        Some(files[0].1)
    } else {
        lookup(files.drop_first(), name)
    }
}

/// Create-or-replace: the first file bearing `name` has its content
/// replaced in place; if none is present, the file is appended.
pub open spec fn store(
    files: Seq<(Seq<char>, Seq<char>)>,
    name: Seq<char>,
    content: Seq<char>,
) -> Seq<(Seq<char>, Seq<char>)>
    decreases files.len(),
{
    if files.len() == 0 {
        seq![(name, content)]
    } else if files[0].0 == name {
        seq![(name, content)] + files.drop_first()
    } else {
        seq![files[0]] + store(files.drop_first(), name, content)
    }
}

/// No two files of one directory bear the same name.
pub open spec fn unique_names(files: Seq<(Seq<char>, Seq<char>)>) -> bool {
    forall|i: int, j: int| 0 <= i < j < files.len() ==> files[i].0 != files[j].0
}

/// A first match at index `i` is what `lookup` returns.
pub proof fn lemma_lookup_at(files: Seq<(Seq<char>, Seq<char>)>, name: Seq<char>, i: int)
    requires
        0 <= i < files.len(),
        files[i].0 == name,
        forall|j: int| 0 <= j < i ==> files[j].0 != name,
    ensures
        lookup(files, name) == Some(files[i].1),
    decreases i,
{
    if i > 0 {
        lemma_lookup_at(files.drop_first(), name, i - 1);
    }
}

/// With no match at all, `lookup` returns nothing.
pub proof fn lemma_lookup_absent(files: Seq<(Seq<char>, Seq<char>)>, name: Seq<char>)
    requires
        forall|j: int| 0 <= j < files.len() ==> files[j].0 != name,
    ensures
        lookup(files, name) is None,
    decreases files.len(),
{
    if files.len() > 0 {
        lemma_lookup_absent(files.drop_first(), name);
    }
}

/// Replacing at a first match at index `i` is what `store` does.
pub proof fn lemma_store_at(
    files: Seq<(Seq<char>, Seq<char>)>,
    name: Seq<char>,
    content: Seq<char>,
    i: int,
)
    requires
        0 <= i < files.len(),
        files[i].0 == name,
        forall|j: int| 0 <= j < i ==> files[j].0 != name,
    ensures
        store(files, name, content) == files.update(i, (name, content)),
    decreases i,
{
    if i == 0 {
        assert(store(files, name, content) =~= files.update(0, (name, content)));
    } else {
        lemma_store_at(files.drop_first(), name, content, i - 1);
        assert(store(files, name, content) =~= files.update(i, (name, content)));
    }
}

/// Every name in a stored directory is the written name or one that
/// was already present.
proof fn lemma_store_name_membership(
    files: Seq<(Seq<char>, Seq<char>)>,
    name: Seq<char>,
    content: Seq<char>,
)
    ensures
        forall|k: int|
            0 <= k < store(files, name, content).len() ==> store(files, name, content)[k].0
                == name || (exists|j: int|
                0 <= j < files.len() && files[j].0 == store(files, name, content)[k].0),
    decreases files.len(),
{
    let stored = store(files, name, content);
    if files.len() == 0 {
    } else if files[0].0 == name {
        assert forall|k: int| 0 <= k < stored.len() implies stored[k].0 == name || (exists|j: int|
            0 <= j < files.len() && files[j].0 == stored[k].0) by {
            if k > 0 {
                assert(files[k].0 == stored[k].0);
            }
        }
    } else {
        lemma_store_name_membership(files.drop_first(), name, content);
        let inner = store(files.drop_first(), name, content);
        assert forall|k: int| 0 <= k < stored.len() implies stored[k].0 == name || (exists|j: int|
            0 <= j < files.len() && files[j].0 == stored[k].0) by {
            if k == 0 {
                assert(files[0].0 == stored[0].0);
            } else {
                assert(stored[k] == inner[k - 1]);
                if inner[k - 1].0 != name {
                    let j = choose|j: int|
                        0 <= j < files.drop_first().len() && files.drop_first()[j].0 == inner[k
                            - 1].0;
                    assert(files[j + 1].0 == stored[k].0);
                }
            }
        }
    }
}

/// Writing one file keeps the directory's names unique.
pub proof fn lemma_store_preserves_unique_names(
    files: Seq<(Seq<char>, Seq<char>)>,
    name: Seq<char>,
    content: Seq<char>,
)
    requires
        unique_names(files),
    ensures
        unique_names(store(files, name, content)),
    decreases files.len(),
{
    let stored = store(files, name, content);
    if files.len() == 0 {
    } else if files[0].0 == name {
        assert forall|i: int, j: int| 0 <= i < j < stored.len() implies stored[i].0 != stored[
            j].0 by {
            if i == 0 {
                assert(stored[j].0 == files[j].0);
                assert(files[0].0 != files[j].0);
            } else {
                assert(stored[i].0 == files[i].0 && stored[j].0 == files[j].0);
            }
        }
    } else {
        lemma_store_preserves_unique_names(files.drop_first(), name, content);
        lemma_store_name_membership(files.drop_first(), name, content);
        let inner = store(files.drop_first(), name, content);
        assert forall|i: int, j: int| 0 <= i < j < stored.len() implies stored[i].0 != stored[
            j].0 by {
            if i == 0 {
                assert(stored[j] == inner[j - 1]);
                if inner[j - 1].0 == files[0].0 {
                    assert(inner[j - 1].0 != name);
                    let k = choose|k: int|
                        0 <= k < files.drop_first().len() && files.drop_first()[k].0 == inner[j
                            - 1].0;
                    assert(files[k + 1].0 == files[0].0);
                    assert(false);
                }
            } else {
                assert(stored[i] == inner[i - 1] && stored[j] == inner[j - 1]);
            }
        }
    }
}

/// With no match at all, `store` appends the new file.
pub proof fn lemma_store_absent(
    files: Seq<(Seq<char>, Seq<char>)>,
    name: Seq<char>,
    content: Seq<char>,
)
    requires
        forall|j: int| 0 <= j < files.len() ==> files[j].0 != name,
    ensures
        store(files, name, content) == files.push((name, content)),
    decreases files.len(),
{
    if files.len() == 0 {
        assert(store(files, name, content) =~= files.push((name, content)));
    } else {
        lemma_store_absent(files.drop_first(), name, content);
        assert(store(files, name, content) =~= files.push((name, content)));
    }
}

/// The storage collaborator: one directory of files. Nothing is
/// promised of failures beyond what each method states; which calls
/// fail is the implementation's affair.
pub trait Storage {
    /// The files present, as name-content pairs in storage order.
    spec fn files(&self) -> Seq<(Seq<char>, Seq<char>)>;

    /// Lists the names of the files present, in storage order.
    fn list_directory(&self) -> (r: Result<Vec<String>, StorageError>)
        ensures
            r matches Ok(names) ==> names@.len() == self.files().len() && (forall|j: int|
                0 <= j < names@.len() ==> names@[j]@ == self.files()[j].0),
    ;

    /// Reads the full text of the named file.
    fn read_text(&self, file_name: &str) -> (r: Result<String, StorageError>)
        ensures
            r matches Ok(content) ==> lookup(self.files(), file_name@) == Some(content@),
    ;

    /// Writes the full text of the named file: created if absent, its
    /// content fully replaced if present. On failure the stored files
    /// are unchanged.
    fn write_text(&mut self, file_name: &str, content: &str) -> (r: Result<(), StorageError>)
        ensures
            r is Ok ==> final(self).files() == store(
                old(self).files(),
                file_name@,
                content@,
            ),
            r is Err ==> final(self).files() == old(self).files(),
    ;
}

/// In-memory storage: the files of one directory held as name-content
/// pairs in creation order. It proves the `Storage` contract and
/// stands in for real storage in tests.
pub struct InMemoryStorage {
    pub entries: Vec<(String, String)>,
}

impl InMemoryStorage {
    /// An empty directory.
    pub fn new() -> (r: InMemoryStorage)
        ensures
            r.files() == Seq::<(Seq<char>, Seq<char>)>::empty(),
    {
        let r = InMemoryStorage { entries: Vec::new() };
        proof {
            assert(r.files() =~= Seq::<(Seq<char>, Seq<char>)>::empty());
        }
        r
    }

    /// Adds a file at the end of the directory, whatever is present.
    pub fn add_entry(&mut self, file_name: String, content: String)
        ensures
            final(self).files() == old(self).files().push((file_name@, content@)),
    {
        let ghost before = self.files();
        self.entries.push((file_name, content));
        proof {
            assert(self.files() =~= before.push((file_name@, content@)));
        }
    }
}

impl Storage for InMemoryStorage {
    open spec fn files(&self) -> Seq<(Seq<char>, Seq<char>)> {
        self.entries@.map_values(|p: (String, String)| (p.0@, p.1@))
    }

    fn list_directory(&self) -> (r: Result<Vec<String>, StorageError>)
        ensures
            r is Ok,
    {
        let mut names: Vec<String> = Vec::new();
        let mut i: usize = 0;
        while i < self.entries.len()
            invariant
                i <= self.entries@.len(),
                names@.len() == i,
                forall|j: int| 0 <= j < i ==> names@[j]@ == self.entries@[j].0@,
            decreases self.entries@.len() - i,
        {
            names.push(self.entries[i].0.clone());
            i = i + 1;
        }
        Ok(names)
    }

    fn read_text(&self, file_name: &str) -> (r: Result<String, StorageError>)
        ensures
            r is Ok <==> lookup(self.files(), file_name@) is Some,
    {
        let mut i: usize = 0;
        while i < self.entries.len()
            invariant
                i <= self.entries@.len(),
                forall|j: int| 0 <= j < i ==> self.files()[j].0 != file_name@,
            decreases self.entries@.len() - i,
        {
            if str_eq(self.entries[i].0.as_str(), file_name) {
                proof {
                    lemma_lookup_at(self.files(), file_name@, i as int);
                }
                return Ok(self.entries[i].1.clone());
            }
            i = i + 1;
        }
        proof {
            lemma_lookup_absent(self.files(), file_name@);
            reveal_strlit("no such file");
        }
        Err(StorageError { message: String::from_str("no such file") })
    }

    fn write_text(&mut self, file_name: &str, content: &str) -> (r: Result<(), StorageError>)
        ensures
            r is Ok,
    {
        let ghost before = self.files();
        let mut i: usize = 0;
        while i < self.entries.len()
            invariant
                i <= self.entries@.len(),
                before == old(self).files(),
                self == old(self),
                forall|j: int| 0 <= j < i ==> self.files()[j].0 != file_name@,
            decreases self.entries@.len() - i,
        {
            if str_eq(self.entries[i].0.as_str(), file_name) {
                let ghost before_entries = self.entries@;
                let new_entry = (String::from_str(file_name), String::from_str(content));
                self.entries.remove(i);
                self.entries.insert(i, new_entry);
                proof {
                    lemma_store_at(before, file_name@, content@, i as int);
                    assert(self.entries@ =~= before_entries.update(i as int, new_entry));
                    assert(self.files() =~= before.update(i as int, (file_name@, content@)));
                }
                return Ok(());
            }
            i = i + 1;
        }
        self.entries.push((String::from_str(file_name), String::from_str(content)));
        proof {
            lemma_store_absent(before, file_name@, content@);
            assert(self.files() =~= before.push((file_name@, content@)));
        }
        Ok(())
    }
}

} // verus!
