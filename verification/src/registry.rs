//! The table of shared files, keyed by identifier.
//!
//! A registry is built once, from the paths that the user named, and only read
//! afterwards.

use crate::digest::{file_id, file_id_of};
use vstd::prelude::*;

verus! {

/// What the caller learned about one path that is to be shared.
#[derive(Debug, PartialEq, Eq)]
pub struct FileStat {
    pub path: String,
    /// The size in bytes from the file's metadata, `None` where the metadata
    /// could not be read.
    pub size: Option<u64>,
}

/// One shared file.
#[derive(Debug, PartialEq, Eq)]
pub struct FileEntry {
    pub id: String,
    pub path: String,
    pub size: u64,
}

/// A [`FileEntry`] as contracts see it.
pub struct FileEntryView {
    pub id: Seq<char>,
    pub path: Seq<char>,
    pub size: u64,
}

impl View for FileEntry {
    type V = FileEntryView;

    open spec fn view(&self) -> FileEntryView {
        FileEntryView { id: self.id@, path: self.path@, size: self.size }
    }
}

/// The metadata of `path` could not be read.
#[derive(Debug, PartialEq, Eq)]
pub struct IoError {
    pub path: String,
}

/// The entry that a file at `path` with `size` bytes gets.
pub open spec fn entry_of(path: Seq<char>, size: u64) -> FileEntryView {
    FileEntryView { id: file_id_of(path), path, size }
}

/// Whether every file's metadata was read.
pub open spec fn all_readable(files: Seq<FileStat>) -> bool {
    forall|i: int| 0 <= i < files.len() ==> (#[trigger] files[i]).size is Some
}

/// Whether `files[i]` is the first file whose metadata was not read.
pub open spec fn first_unreadable(files: Seq<FileStat>, i: int) -> bool {
    &&& 0 <= i < files.len()
    &&& files[i].size is None
    &&& all_readable(files.take(i))
}

/// Whether some entry of `entries` has the identifier `id`.
pub open spec fn holds(entries: Seq<FileEntryView>, id: Seq<char>) -> bool {
    exists|i: int| 0 <= i < entries.len() && (#[trigger] entries[i]).id == id
}

/// The place of an entry with the identifier `id`, where `entries` holds one.
pub open spec fn slot(entries: Seq<FileEntryView>, id: Seq<char>) -> int {
    choose|i: int| 0 <= i < entries.len() && (#[trigger] entries[i]).id == id
}

/// Whether no identifier occurs twice in `entries`.
pub open spec fn distinct(entries: Seq<FileEntryView>) -> bool {
    forall|i: int, j: int|
        0 <= i < j < entries.len() ==> (#[trigger] entries[i]).id != (#[trigger] entries[j]).id
}

/// Whether `entries` can be the contents of a registry: no identifier occurs
/// twice, and each is the identifier of its entry's path.
pub open spec fn well_formed(entries: Seq<FileEntryView>) -> bool {
    &&& distinct(entries)
    &&& forall|i: int|
        0 <= i < entries.len() ==> (#[trigger] entries[i]).id == file_id_of(entries[i].path)
}

/// `entries` with `e` put in: in the place of the entry that has its
/// identifier, or at the end where there is none.
pub open spec fn upsert(entries: Seq<FileEntryView>, e: FileEntryView) -> Seq<FileEntryView> {
    if holds(entries, e.id) {
        entries.update(slot(entries, e.id), e)
    } else {
        entries.push(e)
    }
}

/// The entries of the registry made from `files`, in the order in which their
/// identifiers first came.
pub open spec fn listed(files: Seq<FileStat>) -> Seq<FileEntryView>
    decreases files.len(),
{
    if files.len() == 0 {
        Seq::empty()
    } else {
        upsert(
            listed(files.drop_last()),
            entry_of(files.last().path@, files.last().size.unwrap()),
        )
    }
}

/// The table that `entries` stand for.
pub open spec fn table_of(entries: Seq<FileEntryView>) -> Map<Seq<char>, FileEntryView> {
    Map::new(|id: Seq<char>| holds(entries, id), |id: Seq<char>| entries[slot(entries, id)])
}

/// The table made from `files`: each file is entered under its identifier, a
/// later file taking the place of an earlier one with the same identifier.
pub open spec fn registered(files: Seq<FileStat>) -> Map<Seq<char>, FileEntryView>
    decreases files.len(),
{
    if files.len() == 0 {
        Map::empty()
    } else {
        registered(files.drop_last()).insert(
            file_id_of(files.last().path@),
            entry_of(files.last().path@, files.last().size.unwrap()),
        )
    }
}

/// Putting an entry into a sequence without repeated identifiers leaves it
/// without repeated identifiers, and enters it in the table.
pub proof fn lemma_upsert(entries: Seq<FileEntryView>, e: FileEntryView)
    requires
        distinct(entries),
    ensures
        distinct(upsert(entries, e)),
        table_of(upsert(entries, e)) == table_of(entries).insert(e.id, e),
        holds(entries, e.id) ==> upsert(entries, e).len() == entries.len(),
        !holds(entries, e.id) ==> upsert(entries, e).len() == entries.len() + 1,
{
    let after = upsert(entries, e);
    let at = if holds(entries, e.id) {
        slot(entries, e.id)
    } else {
        entries.len() as int
    };
    assert(after[at] == e);
    assert forall|i: int| 0 <= i < after.len() && i != at implies #[trigger] after[i]
        == entries[i] && entries[i].id != e.id by {}
    assert forall|id: Seq<char>| holds(after, id) <==> (id == e.id || holds(entries, id)) by {
        if id != e.id && holds(entries, id) {
            assert(after[slot(entries, id)].id == id);
        }
    }
}

/// The listed entries are well formed and stand for the registered table.
pub proof fn lemma_listed(files: Seq<FileStat>)
    ensures
        well_formed(listed(files)),
        table_of(listed(files)) == registered(files),
        listed(files).len() <= files.len(),
    decreases files.len(),
{
    if files.len() > 0 {
        let before = listed(files.drop_last());
        let e = entry_of(files.last().path@, files.last().size.unwrap());
        lemma_listed(files.drop_last());
        lemma_upsert(before, e);
    }
}

/// A table without repeated identifiers has as many keys as entries.
pub proof fn lemma_table_len(entries: Seq<FileEntryView>)
    requires
        distinct(entries),
    ensures
        table_of(entries).dom().finite(),
        table_of(entries).dom().len() == entries.len(),
    decreases entries.len(),
{
    if entries.len() == 0 {
        assert(table_of(entries).dom() =~= Set::<Seq<char>>::empty());
    } else {
        let rest = entries.drop_last();
        let e = entries.last();
        assert(distinct(rest));
        lemma_table_len(rest);
        assert(upsert(rest, e) == entries);
        lemma_upsert(rest, e);
    }
}

/// Where no two of the files get the same identifier, each has an entry of
/// its own in the registry, with the size that was read for it.
pub proof fn lemma_one_entry_per_path(files: Seq<FileStat>)
    requires
        all_readable(files),
        forall|i: int, j: int|
            0 <= i < j < files.len() ==> file_id_of(#[trigger] files[i].path@) != file_id_of(
                #[trigger] files[j].path@,
            ),
    ensures
        listed(files).len() == files.len(),
        registered(files).dom().finite(),
        registered(files).dom().len() == files.len(),
        forall|i: int|
            0 <= i < files.len() ==> listed(files)[i] == entry_of(
                (#[trigger] files[i]).path@,
                files[i].size.unwrap(),
            ),
        forall|i: int|
            0 <= i < files.len() ==> registered(files).contains_key(file_id_of(files[i].path@))
                && registered(files)[file_id_of((#[trigger] files[i]).path@)] == entry_of(
                files[i].path@,
                files[i].size.unwrap(),
            ),
    decreases files.len(),
{
    lemma_listed(files);
    if files.len() > 0 {
        let rest = files.drop_last();
        let last = files.last();
        let e = entry_of(last.path@, last.size.unwrap());
        assert(all_readable(rest));
        lemma_one_entry_per_path(rest);
        if holds(listed(rest), e.id) {
            let i = slot(listed(rest), e.id);
            assert(listed(rest)[i] == entry_of(rest[i].path@, rest[i].size.unwrap()));
        }
        assert(listed(files) == listed(rest).push(e));
        assert forall|i: int| 0 <= i < files.len() implies listed(files)[i] == entry_of(
            (#[trigger] files[i]).path@,
            files[i].size.unwrap(),
        ) by {
            if i < rest.len() {
                assert(rest[i] == files[i]);
            }
        }
    }
    lemma_table_len(listed(files));
}

/// The entries of `files` as contracts see them.
pub open spec fn views(files: Seq<FileEntry>) -> Seq<FileEntryView> {
    files.map_values(|e: FileEntry| e@)
}

/// Puts the file at `path` into `entries`, as [`upsert`] says.
fn insert(entries: &mut Vec<FileEntry>, path: String, size: u64)
    requires
        distinct(views(old(entries)@)),
    ensures
        distinct(views(final(entries)@)),
        views(final(entries)@) == upsert(views(old(entries)@), entry_of(path@, size)),
{
    let id = file_id(path.as_str());
    let ghost before = views(entries@);
    let ghost e = entry_of(path@, size);
    proof {
        lemma_upsert(before, e);
    }
    let mut i: usize = 0;
    while i < entries.len()
        invariant
            i <= entries.len(),
            views(entries@) == before,
            entries@ == old(entries)@,
            distinct(before),
            e == entry_of(path@, size),
            id@ == e.id,
            forall|j: int| 0 <= j < i ==> (#[trigger] before[j]).id != e.id,
        decreases entries.len() - i,
    {
        if entries[i].id == id {
            assert(before[i as int].id == e.id);
            entries.set(i, FileEntry { id, path, size });
            assert(views(entries@) =~= before.update(i as int, e));
            return ;
        }
        i = i + 1;
    }
    entries.push(FileEntry { id, path, size });
    assert(views(entries@) =~= before.push(e));
}

/// The shared files of one session. No identifier occurs twice in it.
#[derive(Debug)]
pub struct FileRegistry {
    entries: Vec<FileEntry>,
}

impl View for FileRegistry {
    type V = Map<Seq<char>, FileEntryView>;

    /// The table from identifier to entry.
    open spec fn view(&self) -> Map<Seq<char>, FileEntryView> {
        table_of(self.entries())
    }
}

impl FileRegistry {
    /// The entries in the order in which they are listed.
    pub closed spec fn entries(&self) -> Seq<FileEntryView> {
        views(self.entries@)
    }

    #[verifier::type_invariant]
    spec fn inv(&self) -> bool {
        distinct(self.entries())
    }

    /// Builds the registry of `files`, or names the first path whose metadata
    /// was not read.
    pub fn register(files: &[FileStat]) -> (result: Result<FileRegistry, IoError>)
        ensures
            match result {
                Ok(registry) => {
                    &&& all_readable(files@)
                    &&& registry.entries() == listed(files@)
                    &&& registry@ == registered(files@)
                },
                Err(e) => exists|i: int| first_unreadable(files@, i) && e.path@ == files@[i].path@,
            },
    {
        let mut entries: Vec<FileEntry> = Vec::new();
        let mut i: usize = 0;
        while i < files.len()
            invariant
                i <= files.len(),
                distinct(views(entries@)),
                views(entries@) == listed(files@.take(i as int)),
                all_readable(files@.take(i as int)),
            decreases files.len() - i,
        {
            let ghost next = files@.take(i + 1);
            assert(next.drop_last() == files@.take(i as int));
            match files[i].size {
                None => {
                    assert(first_unreadable(files@, i as int));
                    return Err(IoError { path: files[i].path.clone() });
                },
                Some(size) => {
                    insert(&mut entries, files[i].path.clone(), size);
                },
            }
            i = i + 1;
        }
        assert(files@.take(i as int) == files@);
        proof {
            lemma_listed(files@);
        }
        Ok(FileRegistry { entries })
    }

    /// The number of entries, which is the number of identifiers.
    pub fn len(&self) -> (n: usize)
        ensures
            n == self.entries().len(),
            self@.dom().finite(),
            n == self@.dom().len(),
    {
        proof {
            use_type_invariant(self);
            lemma_table_len(self.entries());
        }
        self.entries.len()
    }

    /// The entry at place `i` of the listing.
    pub fn at(&self, i: usize) -> (entry: &FileEntry)
        requires
            i < self.entries().len(),
        ensures
            entry@ == self.entries()[i as int],
            self@.contains_key(entry@.id),
            self@[entry@.id] == entry@,
    {
        proof {
            use_type_invariant(self);
            assert(holds(self.entries(), self.entries()[i as int].id));
        }
        &self.entries[i]
    }

    /// Looks `id` up.
    pub fn get(&self, id: &str) -> (found: Option<&FileEntry>)
        ensures
            match found {
                Some(entry) => self@.contains_key(id@) && entry@ == self@[id@],
                None => !self@.contains_key(id@),
            },
    {
        proof {
            use_type_invariant(self);
        }
        let key = id.to_owned();
        let mut i: usize = 0;
        while i < self.entries.len()
            invariant
                i <= self.entries.len(),
                key@ == id@,
                distinct(self.entries()),
                forall|j: int| 0 <= j < i ==> (#[trigger] self.entries()[j]).id != id@,
            decreases self.entries.len() - i,
        {
            if self.entries[i].id == key {
                assert(self.entries()[i as int].id == id@);
                return Some(&self.entries[i]);
            }
            i = i + 1;
        }
        None
    }
}

impl Clone for FileRegistry {
    /// A registry with the same entries in the same order.
    fn clone(&self) -> (copy: FileRegistry)
        ensures
            copy.entries() == self.entries(),
    {
        proof {
            use_type_invariant(self);
        }
        let mut entries: Vec<FileEntry> = Vec::new();
        let mut i: usize = 0;
        while i < self.entries.len()
            invariant
                i <= self.entries.len(),
                entries@.len() == i,
                forall|k: int| 0 <= k < i ==> (#[trigger] entries@[k])@ == self.entries@[k]@,
            decreases self.entries.len() - i,
        {
            let entry = &self.entries[i];
            entries.push(
                FileEntry { id: entry.id.clone(), path: entry.path.clone(), size: entry.size },
            );
            i = i + 1;
        }
        assert(views(entries@) =~= views(self.entries@));
        FileRegistry { entries }
    }
}

} // verus!
