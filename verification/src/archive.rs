//! The index of the archive that holds the dataset: which bytes of the
//! archive buffer belong to which file.

use vstd::prelude::*;
use vstd::slice::slice_subrange;
use crate::error::SessionError;

verus! {

/// Where the bytes of one file lie in the archive buffer.
#[derive(Clone, Copy, PartialEq, Eq, Debug, Structural)]
pub struct FileEntry {
    pub offset: u64,
    pub length: u64,
}

/// One member of an archive, as the archive lists it.
pub struct ArchiveEntry {
    pub name: String,
    pub offset: u64,
    pub length: u64,
}

impl View for ArchiveEntry {
    type V = (Seq<char>, u64, u64);

    open spec fn view(&self) -> (Seq<char>, u64, u64) {
        (self.name@, self.offset, self.length)
    }
}

/// The members of a listing, each by its view.
pub open spec fn listing_view(listing: Seq<ArchiveEntry>) -> Seq<(Seq<char>, u64, u64)> {
    listing.map_values(|entry: ArchiveEntry| entry@)
}

/// What the `tar` crate lists for an archive held in memory: for each member,
/// in archive order, its path, the offset of its data and the size that its
/// header declares; `None` where the archive cannot be listed.
pub uninterp spec fn tar_listing(buffer: Seq<u8>) -> Option<Seq<(Seq<char>, u64, u64)>>;

/// Lists an archive with `tar::Archive::entries`, reading each member's
/// `path`, `raw_file_position` and `header().entry_size()`.
///
/// Trusted: the result is what [`tar_listing`] names. It is `None` as soon
/// as the crate reports an error on the archive, on a member, on its path or
/// on its size, and where a path is not valid UTF-8.
#[verifier::external_body]
fn list_archive(buffer: &[u8]) -> (listing: Option<Vec<ArchiveEntry>>)
    ensures
        match listing {
            Some(members) => tar_listing(buffer@) == Some(listing_view(members@)),
            None => tar_listing(buffer@) is None,
        },
{
    let mut archive = tar::Archive::new(buffer);
    let mut members = Vec::new();
    for file in archive.entries().ok()? {
        let file = file.ok()?;
        let name = file.path().ok()?.to_str()?.to_owned();
        let length = file.header().entry_size().ok()?;
        members.push(ArchiveEntry { name, offset: file.raw_file_position(), length });
    }
    Some(members)
}

/// A map after the members of a listing were inserted one after the other:
/// of two members with the same name the later one stays.
pub open spec fn insert_all(
    entries: Map<Seq<char>, FileEntry>,
    listing: Seq<(Seq<char>, u64, u64)>,
) -> Map<Seq<char>, FileEntry>
    decreases listing.len(),
{
    if listing.len() == 0 {
        entries
    } else {
        let last = listing.last();
        insert_all(entries, listing.drop_last()).insert(
            last.0,
            FileEntry { offset: last.1, length: last.2 },
        )
    }
}

/// A map from file names to their place in the archive buffer.
pub struct EntriesMap {
    names: Vec<String>,
    files: Vec<FileEntry>,
}

/// Whether `names[i]` is `name`.
pub open spec fn named(names: Seq<String>, i: int, name: Seq<char>) -> bool {
    0 <= i < names.len() && names[i]@ == name
}

impl View for EntriesMap {
    type V = Map<Seq<char>, FileEntry>;

    closed spec fn view(&self) -> Map<Seq<char>, FileEntry> {
        Map::new(
            |name: Seq<char>| exists|i: int| named(self.names@, i, name),
            |name: Seq<char>| self.files@[choose|i: int| named(self.names@, i, name)],
        )
    }
}

impl EntriesMap {
    /// The invariant of the map: one place per name.
    pub closed spec fn wf(&self) -> bool {
        &&& self.names.len() == self.files.len()
        &&& forall|i: int, j: int|
            0 <= i < j < self.names.len() ==> (#[trigger] self.names[i])@ != (#[trigger] self.names[j])@
    }

    /// The empty map.
    pub fn new() -> (entries: EntriesMap)
        ensures
            entries.wf(),
            entries@ == Map::<Seq<char>, FileEntry>::empty(),
    {
        let entries = EntriesMap { names: Vec::new(), files: Vec::new() };
        assert(entries@ =~= Map::<Seq<char>, FileEntry>::empty());
        entries
    }

    /// The position of `name` among the names, if it is there.
    fn position(&self, name: &String) -> (found: Option<usize>)
        requires
            self.wf(),
        ensures
            match found {
                Some(i) => named(self.names@, i as int, name@),
                None => forall|i: int| !named(self.names@, i, name@),
            },
    {
        let mut i: usize = 0;
        while i < self.names.len()
            invariant
                0 <= i <= self.names.len(),
                forall|j: int| 0 <= j < i ==> !named(self.names@, j, name@),
            decreases self.names.len() - i,
        {
            if self.names[i] == *name {
                return Some(i);
            }
            i = i + 1;
        }
        None
    }

    /// Records where `name` lies, replacing what was recorded for it before.
    pub fn insert(&mut self, name: String, file: FileEntry)
        requires
            old(self).wf(),
        ensures
            final(self).wf(),
            final(self)@ == old(self)@.insert(name@, file),
    {
        let ghost before = *self;
        match self.position(&name) {
            Some(i) => {
                self.files[i] = file;
                proof {
                    assert forall|other: Seq<char>| #[trigger] self@.contains_key(other) implies self@[other]
                        == before@.insert(name@, file)[other] by {
                        let j = choose|j: int| named(self.names@, j, other);
                        assert(named(before.names@, j, other));
                        let k = choose|k: int| named(before.names@, k, other);
                        assert(j == k);
                    }
                    assert forall|other: Seq<char>| before@.insert(name@, file).contains_key(other) implies
                        #[trigger] self@.contains_key(other) by {
                        if other == name@ {
                            assert(named(self.names@, i as int, other));
                        } else {
                            let k = choose|k: int| named(before.names@, k, other);
                            assert(named(self.names@, k, other));
                        }
                    }
                    assert(self@ =~= before@.insert(name@, file));
                }
            },
            None => {
                let ghost key = name@;
                self.names.push(name);
                self.files.push(file);
                proof {
                    let last = before.names.len() as int;
                    assert(named(self.names@, last, key));
                    assert forall|i: int, j: int| 0 <= i < j < self.names.len() implies (#[trigger] self.names[i])@
                        != (#[trigger] self.names[j])@ by {
                        if j == last {
                            assert(!named(before.names@, i, key));
                        } else {
                            assert(before.names[i]@ != before.names[j]@);
                        }
                    }
                    assert forall|other: Seq<char>| #[trigger] self@.contains_key(other) implies self@[other]
                        == before@.insert(key, file)[other] && before@.insert(key, file).contains_key(other) by {
                        let j = choose|j: int| named(self.names@, j, other);
                        if j < last {
                            assert(named(before.names@, j, other));
                            let k = choose|k: int| named(before.names@, k, other);
                            assert(j == k);
                        }
                    }
                    assert forall|other: Seq<char>| before@.insert(key, file).contains_key(other) implies
                        #[trigger] self@.contains_key(other) by {
                        if other != key {
                            let k = choose|k: int| named(before.names@, k, other);
                            assert(named(self.names@, k, other));
                        }
                    }
                    assert(self@ =~= before@.insert(key, file));
                }
            },
        }
    }

    /// Where `name` lies, if it was recorded.
    pub fn get(&self, name: &str) -> (file: Option<FileEntry>)
        requires
            self.wf(),
        ensures
            file == if self@.contains_key(name@) {
                Some(self@[name@])
            } else {
                None::<FileEntry>
            },
    {
        let key = name.to_owned();
        match self.position(&key) {
            Some(i) => {
                proof {
                    let k = choose|k: int| named(self.names@, k, name@);
                    assert(k == i);
                }
                Some(self.files[i])
            },
            None => None,
        }
    }

    /// Inserts the members of a listing one after the other.
    pub fn insert_listing(&mut self, listing: &Vec<ArchiveEntry>)
        requires
            old(self).wf(),
        ensures
            final(self).wf(),
            final(self)@ == insert_all(old(self)@, listing_view(listing@)),
    {
        let ghost all = listing_view(listing@);
        let mut i: usize = 0;
        while i < listing.len()
            invariant
                self.wf(),
                0 <= i <= listing.len(),
                all == listing_view(listing@),
                self@ == insert_all(old(self)@, all.take(i as int)),
            decreases listing.len() - i,
        {
            let member = &listing[i];
            proof {
                assert(all.take(i + 1).drop_last() =~= all.take(i as int));
                assert(all.take(i + 1).last() == member@);
            }
            self.insert(member.name.clone(), FileEntry { offset: member.offset, length: member.length });
            i = i + 1;
        }
        assert(all.take(all.len() as int) =~= all);
    }
}

/// The bytes of the file `name`: the range of `file` that `entries` records
/// for it. The entry is missing where no place is recorded for `name` and
/// where the recorded place does not lie inside `file`.
pub open spec fn buffer_of(name: Seq<char>, file: Seq<u8>, entries: Map<Seq<char>, FileEntry>) -> Option<
    Seq<u8>,
> {
    if entries.contains_key(name) && entries[name].offset + entries[name].length <= file.len() {
        Some(file.subrange(entries[name].offset as int, entries[name].offset + entries[name].length))
    } else {
        None
    }
}

/// The bytes of one file of the archive.
pub fn get_buffer<'a>(name: &str, file: &'a [u8], entries: &EntriesMap) -> (result: Result<
    &'a [u8],
    SessionError,
>)
    requires
        entries.wf(),
    ensures
        match buffer_of(name@, file@, entries@) {
            Some(bytes) => result is Ok && result->Ok_0@ == bytes,
            None => result == Err::<&[u8], SessionError>(SessionError::ArchiveEntryMissing),
        },
{
    match entries.get(name) {
        Some(entry) => {
            let len = file.len() as u64;
            if entry.offset <= len && entry.length <= len - entry.offset {
                let start = entry.offset as usize;
                let end = (entry.offset + entry.length) as usize;
                Ok(slice_subrange(file, start, end))
            } else {
                Err(SessionError::ArchiveEntryMissing)
            }
        },
        None => Err(SessionError::ArchiveEntryMissing),
    }
}

/// Lists the archive in `buffer` and inserts its members into `entries`.
/// Nothing is inserted where the archive cannot be listed.
pub fn index_archive(buffer: &[u8], entries: &mut EntriesMap) -> (result: Result<(), SessionError>)
    requires
        old(entries).wf(),
    ensures
        final(entries).wf(),
        match tar_listing(buffer@) {
            Some(listing) => result == Ok::<(), SessionError>(()) && final(entries)@ == insert_all(
                old(entries)@,
                listing,
            ),
            None => result == Err::<(), SessionError>(SessionError::MalformedArchive) && final(entries)@
                == old(entries)@,
        },
{
    match list_archive(buffer) {
        Some(listing) => {
            entries.insert_listing(&listing);
            Ok(())
        },
        None => Err(SessionError::MalformedArchive),
    }
}

} // verus!
