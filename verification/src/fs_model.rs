//! Filesystem model.
//!
//! The only durable side effects of the installer are files written and
//! directories created inside the installation target. This module models
//! that state explicitly: a value of [`FsModel`] holds a finite collection
//! of files, each a path with its byte contents, and a finite collection of
//! directory names. Contracts speak of the model through its mathematical
//! views: a `Map` from paths to contents and a `Set` of directory names.

use vstd::prelude::*;

verus! {

/// A model filesystem: files with their contents, and directories.
pub struct FsModel {
    files: Vec<(String, Vec<u8>)>,
    dirs: Vec<String>,
}

impl FsModel {
    /// The map described by a list of file entries; a later entry for the
    /// same path wins.
    spec fn map_of(entries: Seq<(String, Vec<u8>)>) -> Map<Seq<char>, Seq<u8>>
        decreases entries.len(),
    {
        if entries.len() == 0 {
            Map::empty()
        } else {
            Self::map_of(entries.drop_last()).insert(
                entries.last().0@,
                entries.last().1@,
            )
        }
    }

    /// The set described by a list of directory names.
    spec fn set_of(names: Seq<String>) -> Set<Seq<char>>
        decreases names.len(),
    {
        if names.len() == 0 {
            Set::empty()
        } else {
            Self::set_of(names.drop_last()).insert(names.last()@)
        }
    }

    /// No two file entries share a path.
    spec fn unique_file_paths(entries: Seq<(String, Vec<u8>)>) -> bool {
        forall|i: int, j: int| 0 <= i < j < entries.len() ==> entries[i].0@ != entries[j].0@
    }

    /// No two directory entries share a name.
    spec fn unique_dir_names(names: Seq<String>) -> bool {
        forall|i: int, j: int| 0 <= i < j < names.len() ==> names[i]@ != names[j]@
    }

    /// Well-formed: no two file entries share a path and no two directory
    /// entries share a name, as in a real directory tree.
    pub closed spec fn wf(self) -> bool {
        Self::unique_file_paths(self.files@) && Self::unique_dir_names(self.dirs@)
    }

    /// The files of the model, as a map from path to contents.
    pub closed spec fn files_map(self) -> Map<Seq<char>, Seq<u8>> {
        Self::map_of(self.files@)
    }

    /// The directories of the model, as a set of names.
    pub closed spec fn dir_set(self) -> Set<Seq<char>> {
        Self::set_of(self.dirs@)
    }

    /// A path is in the domain of `map_of` exactly when some entry holds it.
    proof fn lemma_map_of_dom(entries: Seq<(String, Vec<u8>)>, q: Seq<char>)
        ensures
            Self::map_of(entries).dom().contains(q) <==> exists|i: int|
                0 <= i < entries.len() && entries[i].0@ == q,
        decreases entries.len(),
    {
        if entries.len() > 0 {
            Self::lemma_map_of_dom(entries.drop_last(), q);
            if entries.last().0@ == q {
                assert(entries[entries.len() - 1].0@ == q);
            } else if Self::map_of(entries).dom().contains(q) {
                let i = choose|i: int|
                    0 <= i < entries.drop_last().len() && entries.drop_last()[i].0@ == q;
                assert(entries[i].0@ == q);
            } else if exists|i: int| 0 <= i < entries.len() && entries[i].0@ == q {
                let i = choose|i: int| 0 <= i < entries.len() && entries[i].0@ == q;
                assert(i < entries.len() - 1);
                assert(entries.drop_last()[i].0@ == q);
            }
        }
    }

    /// With unique paths, `map_of` sends each entry's path to its contents.
    proof fn lemma_map_of_entry(entries: Seq<(String, Vec<u8>)>, k: int)
        requires
            Self::unique_file_paths(entries),
            0 <= k < entries.len(),
        ensures
            Self::map_of(entries).dom().contains(entries[k].0@),
            Self::map_of(entries)[entries[k].0@] == entries[k].1@,
        decreases entries.len(),
    {
        Self::lemma_map_of_dom(entries, entries[k].0@);
        if k < entries.len() - 1 {
            assert(entries[k].0@ != entries.last().0@);
            assert(entries.drop_last()[k] == entries[k]);
            Self::lemma_map_of_entry(entries.drop_last(), k);
        }
    }

    /// Replacing the entry at `i` by one with the same path turns `map_of`
    /// into an insert for that path.
    proof fn lemma_map_of_update(entries: Seq<(String, Vec<u8>)>, i: int, e: (String, Vec<u8>))
        requires
            Self::unique_file_paths(entries),
            0 <= i < entries.len(),
            e.0@ == entries[i].0@,
        ensures
            Self::map_of(entries.update(i, e)) == Self::map_of(entries).insert(e.0@, e.1@),
        decreases entries.len(),
    {
        let updated = entries.update(i, e);
        if i == entries.len() - 1 {
            assert(updated.drop_last() =~= entries.drop_last());
            assert(updated.last() == e);
            assert(Self::map_of(updated) =~= Self::map_of(entries).insert(e.0@, e.1@));
        } else {
            assert(updated.drop_last() =~= entries.drop_last().update(i, e));
            assert(updated.last() == entries.last());
            assert(entries.drop_last()[i] == entries[i]);
            Self::lemma_map_of_update(entries.drop_last(), i, e);
            assert(e.0@ != entries.last().0@);
            assert(Self::map_of(updated) =~= Self::map_of(entries).insert(e.0@, e.1@));
        }
    }

    /// A name is in `set_of` exactly when some entry holds it.
    proof fn lemma_set_of_contains(names: Seq<String>, q: Seq<char>)
        ensures
            Self::set_of(names).contains(q) <==> exists|i: int|
                0 <= i < names.len() && names[i]@ == q,
        decreases names.len(),
    {
        if names.len() > 0 {
            Self::lemma_set_of_contains(names.drop_last(), q);
            if names.last()@ == q {
                assert(names[names.len() - 1]@ == q);
            } else if Self::set_of(names).contains(q) {
                let i = choose|i: int|
                    0 <= i < names.drop_last().len() && names.drop_last()[i]@ == q;
                assert(names[i]@ == q);
            } else if exists|i: int| 0 <= i < names.len() && names[i]@ == q {
                let i = choose|i: int| 0 <= i < names.len() && names[i]@ == q;
                assert(i < names.len() - 1);
                assert(names.drop_last()[i]@ == q);
            }
        }
    }

    /// With unique paths, the domain of `map_of` is finite and has one
    /// element per entry.
    proof fn lemma_map_of_len(entries: Seq<(String, Vec<u8>)>)
        requires
            Self::unique_file_paths(entries),
        ensures
            Self::map_of(entries).dom().finite(),
            Self::map_of(entries).dom().len() == entries.len(),
        decreases entries.len(),
    {
        if entries.len() > 0 {
            Self::lemma_map_of_len(entries.drop_last());
            Self::lemma_map_of_dom(entries.drop_last(), entries.last().0@);
            assert forall|i: int|
                0 <= i < entries.drop_last().len() implies entries.drop_last()[i].0@
                != entries.last().0@ by {
                assert(entries[i].0@ != entries[entries.len() - 1].0@);
            }
            assert(!Self::map_of(entries.drop_last()).dom().contains(entries.last().0@));
        }
    }

    /// With unique names, `set_of` is finite and has one element per entry.
    proof fn lemma_set_of_len(names: Seq<String>)
        requires
            Self::unique_dir_names(names),
        ensures
            Self::set_of(names).finite(),
            Self::set_of(names).len() == names.len(),
        decreases names.len(),
    {
        if names.len() > 0 {
            Self::lemma_set_of_len(names.drop_last());
            Self::lemma_set_of_contains(names.drop_last(), names.last()@);
            assert forall|i: int|
                0 <= i < names.drop_last().len() implies names.drop_last()[i]@
                != names.last()@ by {
                assert(names[i]@ != names[names.len() - 1]@);
            }
            assert(!Self::set_of(names.drop_last()).contains(names.last()@));
        }
    }

    /// An empty model: no files, no directories.
    pub fn new() -> (r: FsModel)
        ensures
            r.wf(),
            r.files_map() == Map::<Seq<char>, Seq<u8>>::empty(),
            r.dir_set() == Set::<Seq<char>>::empty(),
    {
        FsModel { files: Vec::new(), dirs: Vec::new() }
    }

    /// The index of the file entry for `path`, if one exists.
    fn find_file_index(&self, path: &String) -> (r: Option<usize>)
        ensures
            match r {
                Some(i) => i < self.files@.len() && self.files@[i as int].0@ == path@,
                None => forall|i: int| 0 <= i < self.files@.len() ==> self.files@[i].0@ != path@,
            },
    {
        let n = self.files.len();
        let mut i: usize = 0;
        while i < n
            invariant
                n == self.files@.len(),
                i <= n,
                forall|j: int| 0 <= j < i ==> self.files@[j].0@ != path@,
            decreases n - i,
        {
            if self.files[i].0 == *path {
                return Some(i);
            }
            i += 1;
        }
        None
    }

    /// Write `contents` to `path`, creating the file or truncating an
    /// existing one: every other file and every directory is untouched.
    pub fn write_file(&mut self, path: &String, contents: &Vec<u8>)
        requires
            old(self).wf(),
        ensures
            final(self).wf(),
            final(self).files_map() == old(self).files_map().insert(path@, contents@),
            final(self).dir_set() == old(self).dir_set(),
    {
        let found = self.find_file_index(path);
        match found {
            Some(i) => {
                let entry = (path.clone(), contents.clone());
                proof {
                    Self::lemma_map_of_update(self.files@, i as int, entry);
                }
                self.files.set(i, entry);
                proof {
                    assert forall|a: int, b: int|
                        0 <= a < b < self.files@.len() implies self.files@[a].0@
                        != self.files@[b].0@ by {
                        assert(old(self).files@[a].0@ != old(self).files@[b].0@);
                    }
                }
            },
            None => {
                self.files.push((path.clone(), contents.clone()));
                proof {
                    assert(self.files@.drop_last() =~= old(self).files@);
                    assert forall|a: int, b: int|
                        0 <= a < b < self.files@.len() implies self.files@[a].0@
                        != self.files@[b].0@ by {
                        if b < self.files@.len() - 1 {
                            assert(old(self).files@[a].0@ != old(self).files@[b].0@);
                        } else {
                            assert(old(self).files@[a].0@ != path@);
                        }
                    }
                }
            },
        }
    }

    /// Look up the contents of the file at `path`, if present.
    pub fn read_file(&self, path: &String) -> (r: Option<Vec<u8>>)
        requires
            self.wf(),
        ensures
            match r {
                Some(c) => self.files_map().dom().contains(path@) && c@ == self.files_map()[path@],
                None => !self.files_map().dom().contains(path@),
            },
    {
        match self.find_file_index(path) {
            Some(i) => {
                proof {
                    Self::lemma_map_of_entry(self.files@, i as int);
                }
                Some(self.files[i].1.clone())
            },
            None => {
                proof {
                    Self::lemma_map_of_dom(self.files@, path@);
                }
                None
            },
        }
    }

    /// Create the directory `path` if it is absent: files and every other
    /// directory are untouched.
    pub fn create_dir(&mut self, path: &String)
        requires
            old(self).wf(),
        ensures
            final(self).wf(),
            final(self).files_map() == old(self).files_map(),
            final(self).dir_set() == old(self).dir_set().insert(path@),
    {
        let n = self.dirs.len();
        let mut i: usize = 0;
        while i < n
            invariant
                self == old(self),
                old(self).wf(),
                n == self.dirs@.len(),
                i <= n,
                forall|j: int| 0 <= j < i ==> self.dirs@[j]@ != path@,
            decreases n - i,
        {
            if self.dirs[i] == *path {
                proof {
                    Self::lemma_set_of_contains(self.dirs@, path@);
                    assert(self.dir_set().contains(path@));
                    assert(self.dir_set() =~= old(self).dir_set().insert(path@));
                }
                return;
            }
            i += 1;
        }
        self.dirs.push(path.clone());
        proof {
            assert(self.dirs@.drop_last() =~= old(self).dirs@);
            assert forall|a: int, b: int|
                0 <= a < b < self.dirs@.len() implies self.dirs@[a]@ != self.dirs@[b]@ by {
                if b < self.dirs@.len() - 1 {
                    assert(old(self).dirs@[a]@ != old(self).dirs@[b]@);
                } else {
                    assert(old(self).dirs@[a]@ != path@);
                }
            }
        }
    }

    /// Whether the model holds a directory named `path`.
    pub fn has_dir(&self, path: &String) -> (r: bool)
        ensures
            r == self.dir_set().contains(path@),
    {
        let n = self.dirs.len();
        let mut i: usize = 0;
        while i < n
            invariant
                n == self.dirs@.len(),
                i <= n,
                forall|j: int| 0 <= j < i ==> self.dirs@[j]@ != path@,
            decreases n - i,
        {
            if self.dirs[i] == *path {
                proof {
                    Self::lemma_set_of_contains(self.dirs@, path@);
                }
                return true;
            }
            i += 1;
        }
        proof {
            Self::lemma_set_of_contains(self.dirs@, path@);
        }
        false
    }

    /// The number of files in the model.
    pub fn file_count(&self) -> (r: usize)
        requires
            self.wf(),
        ensures
            r as nat == self.files_map().dom().len(),
            self.files_map().dom().finite(),
    {
        proof {
            Self::lemma_map_of_len(self.files@);
        }
        self.files.len()
    }

    /// The number of directories in the model.
    pub fn dir_count(&self) -> (r: usize)
        requires
            self.wf(),
        ensures
            r as nat == self.dir_set().len(),
            self.dir_set().finite(),
    {
        proof {
            Self::lemma_set_of_len(self.dirs@);
        }
        self.dirs.len()
    }
}

} // verus!
