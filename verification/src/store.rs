//! The storage medium that backs the cells.
//!
//! [`FileStore`] is the interface the persistence layer consumes: a flat
//! space of directories, each holding named files. Every operation is
//! specified against two views, the map from (directory, file name) to file
//! contents and the set of existing directories. [`MemStore`] is the
//! in-memory medium: it implements the interface with verified code, serves
//! as the reference model of what a medium must do, and can be switched
//! read-only to exercise the failure paths of the persistence layer.

use vstd::prelude::*;
use vstd::string::StringExecFns;

use crate::error::PackError;
use crate::error::PackResult;

verus! {

/// A storage medium: directories that hold named files.
///
/// Operations that change the medium relate its views before and after the
/// call; fallible operations may fail (a real medium can fail any write or
/// read), but then must report an error and leave the views unchanged. While
/// the medium is reliable, operations are owed to succeed, so callers can
/// promise what a chain of reads and writes delivers.
pub trait FileStore: Sized {
    /// The files the medium holds: (directory, file name) to contents.
    spec fn files(&self) -> Map<(Seq<char>, Seq<char>), Seq<char>>;

    /// The directories the medium holds.
    spec fn dirs(&self) -> Set<Seq<char>>;

    /// Whether the medium is in a state where it carries operations out:
    /// reliable, reads of present files and writes into present directories
    /// succeed; not reliable, every write fails. [`MemStore`] is reliable
    /// exactly while writes are not protected; a medium that can always try
    /// may declare itself always reliable.
    spec fn reliable(&self) -> bool;

    /// Whether a directory exists.
    fn dir_exists(&self, dir: &String) -> (r: bool)
        ensures
            r == self.dirs().contains(dir@),
    ;

    /// Ensure a directory exists, creating it if absent.
    fn create_dir_all(&mut self, dir: &String) -> (r: PackResult<()>)
        ensures
            r is Ok ==> final(self).dirs() == old(self).dirs().insert(dir@) && final(self).files()
                == old(self).files(),
            r is Err ==> final(self).dirs() == old(self).dirs() && final(self).files() == old(
                self,
            ).files(),
            r matches Err(e) ==> e is IOError,
            final(self).reliable() == old(self).reliable(),
            old(self).reliable() ==> r is Ok,
    ;

    /// Whether a file exists.
    fn file_exists(&self, dir: &String, name: &String) -> (r: bool)
        ensures
            r == self.files().contains_key((dir@, name@)),
    ;

    /// Overwrite a file in full, creating it if absent.
    fn write_file(&mut self, dir: &String, name: &String, content: &String) -> (r: PackResult<()>)
        ensures
            r is Ok ==> final(self).files() == old(self).files().insert(
                (dir@, name@),
                content@,
            ) && final(self).dirs() == old(self).dirs(),
            r is Err ==> final(self).dirs() == old(self).dirs() && final(self).files() == old(
                self,
            ).files(),
            r matches Err(e) ==> e is IOError,
            final(self).reliable() == old(self).reliable(),
            old(self).reliable() && old(self).dirs().contains(dir@) ==> r is Ok,
            !old(self).reliable() ==> r is Err,
    ;

    /// Read a file in full. Reading an absent file fails; reading a present
    /// file on a reliable medium succeeds.
    fn read_file(&self, dir: &String, name: &String) -> (r: PackResult<String>)
        ensures
            r matches Ok(c) ==> self.files().contains_key((dir@, name@)) && c@ == self.files()[
                (dir@, name@)
            ],
            r matches Err(e) ==> e is IOError,
            self.reliable() && self.files().contains_key((dir@, name@)) ==> r is Ok,
    ;

    /// List the names of the files a directory holds, each exactly once, in
    /// no promised order.
    fn list_files(&self, dir: &String) -> (r: Vec<String>)
        ensures
            forall|i: int|
                0 <= i < r@.len() ==> self.files().contains_key((dir@, #[trigger] r@[i]@)),
            forall|n: Seq<char>|
                #[trigger] self.files().contains_key((dir@, n)) ==> exists|i: int|
                    0 <= i < r@.len() && r@[i]@ == n,
            forall|i: int, j: int| 0 <= i < j < r@.len() ==> r@[i]@ != r@[j]@,
    ;
}

/// One file of a [`MemStore`].
struct MemFile {
    dir: String,
    name: String,
    content: String,
}

/// The (directory, file name) key under which a file is held.
spec fn key_of(f: MemFile) -> (Seq<char>, Seq<char>) {
    (f.dir@, f.name@)
}

/// No two files share a key.
spec fn unique_keys(s: Seq<MemFile>) -> bool {
    forall|i: int, j: int| 0 <= i < j < s.len() ==> key_of(s[i]) != key_of(s[j])
}

/// Whether some file in `s` is held under key `k`.
spec fn has_key(s: Seq<MemFile>, k: (Seq<char>, Seq<char>)) -> bool {
    exists|i: int| 0 <= i < s.len() && key_of(s[i]) == k
}

/// The index of the file held under key `k`.
spec fn index_of_key(s: Seq<MemFile>, k: (Seq<char>, Seq<char>)) -> int {
    choose|i: int| 0 <= i < s.len() && key_of(s[i]) == k
}

/// The file map that a sequence of files stands for.
spec fn files_view(s: Seq<MemFile>) -> Map<(Seq<char>, Seq<char>), Seq<char>> {
    Map::new(|k: (Seq<char>, Seq<char>)| has_key(s, k), |k| s[index_of_key(s, k)].content@)
}

/// Whether directory `d` occurs in `s`.
spec fn has_dir(s: Seq<String>, d: Seq<char>) -> bool {
    exists|i: int| 0 <= i < s.len() && s[i]@ == d
}

/// The directory set that a sequence of directory names stands for.
spec fn dirs_view(s: Seq<String>) -> Set<Seq<char>> {
    Set::new(|d: Seq<char>| has_dir(s, d))
}

/// Under unique keys, the file holding key `k` at position `i` is the one
/// `index_of_key` picks.
proof fn lemma_index_of_key(s: Seq<MemFile>, i: int)
    requires
        unique_keys(s),
        0 <= i < s.len(),
    ensures
        index_of_key(s, key_of(s[i])) == i,
{
    let k = key_of(s[i]);
    assert(has_key(s, k));
    let j = index_of_key(s, k);
    if j != i {
        assert(key_of(s[j]) == k);
        assert(false);
    }
}

/// Replacing the file at position `i` by one with the same key updates the
/// file map at that key alone.
proof fn lemma_view_after_update(s: Seq<MemFile>, i: int, f: MemFile)
    requires
        unique_keys(s),
        0 <= i < s.len(),
        key_of(f) == key_of(s[i]),
    ensures
        unique_keys(s.update(i, f)),
        files_view(s.update(i, f)) == files_view(s).insert(key_of(f), f.content@),
{
    let s2 = s.update(i, f);
    let k = key_of(f);
    assert forall|m: int| 0 <= m < s2.len() implies key_of(s2[m]) == key_of(s[m]) by {}
    assert(unique_keys(s2));
    assert forall|k2: (Seq<char>, Seq<char>)| has_key(s2, k2) == has_key(s, k2) by {
        if has_key(s2, k2) {
            let m = choose|m: int| 0 <= m < s2.len() && key_of(s2[m]) == k2;
            assert(key_of(s[m]) == k2);
        }
        if has_key(s, k2) {
            let m = choose|m: int| 0 <= m < s.len() && key_of(s[m]) == k2;
            assert(key_of(s2[m]) == k2);
        }
    }
    assert forall|k2: (Seq<char>, Seq<char>)| #[trigger]
        files_view(s2).contains_key(k2) implies files_view(s2)[k2] == files_view(s).insert(
        k,
        f.content@,
    )[k2] by {
        let m = index_of_key(s2, k2);
        assert(0 <= m < s2.len() && key_of(s2[m]) == k2);
        lemma_index_of_key(s2, m);
        if k2 == k {
            lemma_index_of_key(s2, i);
            assert(m == i);
        } else {
            assert(m != i);
            lemma_index_of_key(s, m);
        }
    }
    assert(files_view(s2) =~= files_view(s).insert(k, f.content@));
}

/// Appending a file under a fresh key adds that key to the file map and
/// changes nothing else.
proof fn lemma_view_after_push(s: Seq<MemFile>, f: MemFile)
    requires
        unique_keys(s),
        !has_key(s, key_of(f)),
    ensures
        unique_keys(s.push(f)),
        files_view(s.push(f)) == files_view(s).insert(key_of(f), f.content@),
{
    let s2 = s.push(f);
    let k = key_of(f);
    assert forall|i: int, j: int| 0 <= i < j < s2.len() implies key_of(s2[i]) != key_of(s2[j]) by {
        if j == s.len() {
            assert(key_of(s2[i]) == key_of(s[i]));
            if key_of(s[i]) == k {
                assert(has_key(s, k));
            }
        }
    }
    assert forall|k2: (Seq<char>, Seq<char>)| #[trigger]
        has_key(s2, k2) == (k2 == k || has_key(s, k2)) by {
        if has_key(s2, k2) {
            let m = choose|m: int| 0 <= m < s2.len() && key_of(s2[m]) == k2;
            if m < s.len() {
                assert(key_of(s[m]) == k2);
            }
        }
        if k2 == k {
            assert(key_of(s2[s.len() as int]) == k2);
            assert(has_key(s2, k2));
        }
        if has_key(s, k2) {
            let m = choose|m: int| 0 <= m < s.len() && key_of(s[m]) == k2;
            assert(key_of(s2[m]) == k2);
        }
    }
    assert forall|k2: (Seq<char>, Seq<char>)| #[trigger]
        files_view(s2).contains_key(k2) implies files_view(s2)[k2] == files_view(s).insert(
        k,
        f.content@,
    )[k2] by {
        if k2 == k {
            lemma_index_of_key(s2, s.len() as int);
        } else {
            let m = index_of_key(s2, k2);
            assert(0 <= m < s2.len() && key_of(s2[m]) == k2);
            assert(m < s.len());
            lemma_index_of_key(s2, m);
            lemma_index_of_key(s, m);
        }
    }
    assert(files_view(s2) =~= files_view(s).insert(k, f.content@));
}

/// The in-memory storage medium: the reference implementation of
/// [`FileStore`], and the medium of choice for tests. It can be switched
/// read-only, so that the failure paths of the persistence layer can be
/// exercised at will.
pub struct MemStore {
    dirs: Vec<String>,
    files: Vec<MemFile>,
    write_protected: bool,
}

impl MemStore {
    #[verifier::type_invariant]
    spec fn inv(&self) -> bool {
        unique_keys(self.files@)
    }

    /// A fresh, empty medium that accepts writes.
    pub fn new() -> (r: MemStore)
        ensures
            r.files() == Map::<(Seq<char>, Seq<char>), Seq<char>>::empty(),
            r.dirs() == Set::<Seq<char>>::empty(),
            r.reliable(),
    {
        let r = MemStore { dirs: Vec::new(), files: Vec::new(), write_protected: false };
        proof {
            assert(r.files() =~= Map::<(Seq<char>, Seq<char>), Seq<char>>::empty());
            assert(r.dirs() =~= Set::<Seq<char>>::empty());
        }
        r
    }

    /// Switch refusal of writes on or off. Protected, the medium is not
    /// reliable: it fails every write and keeps its contents; the views
    /// never change, and reads keep working.
    pub fn set_write_protect(&mut self, protect: bool)
        ensures
            final(self).files() == old(self).files(),
            final(self).dirs() == old(self).dirs(),
            final(self).reliable() == !protect,
    {
        proof {
            use_type_invariant(&*self);
        }
        self.write_protected = protect;
    }

    /// The position of the file held under (`dir`, `name`), if any.
    fn find_file(&self, dir: &String, name: &String) -> (r: Option<usize>)
        ensures
            r matches Some(i) ==> i < self.files@.len() && key_of(self.files@[i as int]) == (
                dir@,
                name@,
            ),
            r is None ==> !has_key(self.files@, (dir@, name@)),
    {
        let mut i: usize = 0;
        while i < self.files.len()
            invariant
                i <= self.files@.len(),
                forall|j: int| 0 <= j < i ==> key_of(self.files@[j]) != (dir@, name@),
            decreases self.files@.len() - i,
        {
            if self.files[i].dir == *dir && self.files[i].name == *name {
                return Some(i);
            }
            i = i + 1;
        }
        None
    }
}

impl FileStore for MemStore {
    closed spec fn files(&self) -> Map<(Seq<char>, Seq<char>), Seq<char>> {
        files_view(self.files@)
    }

    closed spec fn dirs(&self) -> Set<Seq<char>> {
        dirs_view(self.dirs@)
    }

    closed spec fn reliable(&self) -> bool {
        !self.write_protected
    }

    fn dir_exists(&self, dir: &String) -> (r: bool) {
        let mut i: usize = 0;
        while i < self.dirs.len()
            invariant
                i <= self.dirs@.len(),
                forall|j: int| 0 <= j < i ==> self.dirs@[j]@ != dir@,
            decreases self.dirs@.len() - i,
        {
            if self.dirs[i] == *dir {
                return true;
            }
            i = i + 1;
        }
        false
    }

    fn create_dir_all(&mut self, dir: &String) -> (r: PackResult<()>) {
        proof {
            use_type_invariant(&*self);
        }
        if self.dir_exists(dir) {
            proof {
                assert(dirs_view(self.dirs@).insert(dir@) =~= dirs_view(self.dirs@));
            }
            return Ok(());
        }
        let ghost s1 = self.dirs@;
        let mut dirs: Vec<String> = Vec::new();
        core::mem::swap(&mut dirs, &mut self.dirs);
        dirs.push(dir.clone());
        core::mem::swap(&mut dirs, &mut self.dirs);
        proof {
            assert forall|d2: Seq<char>| has_dir(self.dirs@, d2) == (d2 == dir@ || has_dir(
                s1,
                d2,
            )) by {
                if has_dir(self.dirs@, d2) {
                    let m = choose|m: int| 0 <= m < self.dirs@.len() && self.dirs@[m]@ == d2;
                    if m < s1.len() {
                        assert(has_dir(s1, d2));
                    }
                }
                if d2 == dir@ {
                    assert(self.dirs@[s1.len() as int]@ == d2);
                }
                if has_dir(s1, d2) {
                    let m = choose|m: int| 0 <= m < s1.len() && s1[m]@ == d2;
                    assert(self.dirs@[m]@ == d2);
                }
            }
            assert(dirs_view(self.dirs@) =~= dirs_view(s1).insert(dir@));
        }
        Ok(())
    }

    fn file_exists(&self, dir: &String, name: &String) -> (r: bool) {
        proof {
            use_type_invariant(&*self);
        }
        match self.find_file(dir, name) {
            Some(i) => {
                proof {
                    assert(has_key(self.files@, (dir@, name@)));
                }
                true
            },
            None => false,
        }
    }

    fn write_file(&mut self, dir: &String, name: &String, content: &String) -> (r: PackResult<()>) {
        proof {
            use_type_invariant(&*self);
        }
        if self.write_protected {
            return Err(PackError::IOError(String::from_str("storage medium is write protected")));
        }
        if !self.dir_exists(dir) {
            return Err(PackError::IOError(String::from_str("directory does not exist")));
        }
        let found = self.find_file(dir, name);
        let entry = MemFile { dir: dir.clone(), name: name.clone(), content: content.clone() };
        let mut files: Vec<MemFile> = Vec::new();
        core::mem::swap(&mut files, &mut self.files);
        let ghost s1 = files@;
        match found {
            Some(i) => {
                proof {
                    lemma_view_after_update(s1, i as int, entry);
                }
                files[i] = entry;
            },
            None => {
                proof {
                    lemma_view_after_push(s1, entry);
                }
                files.push(entry);
            },
        }
        core::mem::swap(&mut files, &mut self.files);
        Ok(())
    }

    fn read_file(&self, dir: &String, name: &String) -> (r: PackResult<String>) {
        proof {
            use_type_invariant(&*self);
        }
        match self.find_file(dir, name) {
            Some(i) => {
                proof {
                    lemma_index_of_key(self.files@, i as int);
                }
                Ok(self.files[i].content.clone())
            },
            None => Err(PackError::IOError(String::from_str("file does not exist"))),
        }
    }

    fn list_files(&self, dir: &String) -> (r: Vec<String>) {
        proof {
            use_type_invariant(&*self);
        }
        let mut names: Vec<String> = Vec::new();
        let mut i: usize = 0;
        while i < self.files.len()
            invariant
                unique_keys(self.files@),
                i <= self.files@.len(),
                forall|m: int|
                    0 <= m < names@.len() ==> exists|j: int|
                        0 <= j < i && key_of(self.files@[j]) == (dir@, #[trigger] names@[m]@),
                forall|j: int|
                    0 <= j < i && (#[trigger] self.files@[j].dir@) == dir@ ==> exists|m: int|
                        0 <= m < names@.len() && names@[m]@ == self.files@[j].name@,
                forall|m: int, n: int| 0 <= m < n < names@.len() ==> names@[m]@ != names@[n]@,
            decreases self.files@.len() - i,
        {
            if self.files[i].dir == *dir {
                proof {
                    assert forall|m: int| 0 <= m < names@.len() implies names@[m]@
                        != self.files@[i as int].name@ by {
                        let j = choose|j: int|
                            0 <= j < i && key_of(self.files@[j]) == (dir@, names@[m]@);
                        if names@[m]@ == self.files@[i as int].name@ {
                            assert(key_of(self.files@[j]) == key_of(self.files@[i as int]));
                        }
                    }
                }
                let ghost old_names = names@;
                names.push(self.files[i].name.clone());
                proof {
                    assert forall|m: int|
                        0 <= m < names@.len() implies exists|j: int|
                        0 <= j < i + 1 && key_of(self.files@[j]) == (
                        dir@,
                        #[trigger] names@[m]@,
                    ) by {
                        if m < old_names.len() {
                            let j = choose|j: int|
                                0 <= j < i && key_of(self.files@[j]) == (dir@, old_names[m]@);
                            assert(names@[m]@ == old_names[m]@);
                            assert(key_of(self.files@[j]) == (dir@, names@[m]@));
                        } else {
                            assert(key_of(self.files@[i as int]) == (dir@, names@[m]@));
                        }
                    }
                    assert forall|j: int|
                        0 <= j < i + 1 && (#[trigger] self.files@[j].dir@) == dir@ implies exists|
                        m: int,
                    |
                        0 <= m < names@.len() && names@[m]@ == self.files@[j].name@ by {
                        if j < i {
                            let m = choose|m: int|
                                0 <= m < old_names.len() && old_names[m]@
                                    == self.files@[j].name@;
                            assert(names@[m]@ == self.files@[j].name@);
                        } else {
                            assert(names@[old_names.len() as int]@
                                == self.files@[i as int].name@);
                        }
                    }
                }
            } else {
                proof {
                    assert forall|j: int|
                        0 <= j < i + 1 && (#[trigger] self.files@[j].dir@) == dir@ implies exists|
                        m: int,
                    |
                        0 <= m < names@.len() && names@[m]@ == self.files@[j].name@ by {
                        assert(j < i);
                    }
                }
            }
            i = i + 1;
        }
        proof {
            assert forall|m: int|
                0 <= m < names@.len() implies self.files().contains_key(
                (dir@, #[trigger] names@[m]@),
            ) by {
                let j = choose|j: int|
                    0 <= j < self.files@.len() && key_of(self.files@[j]) == (dir@, names@[m]@);
                assert(has_key(self.files@, (dir@, names@[m]@)));
            }
            assert forall|n: Seq<char>| #[trigger]
                self.files().contains_key((dir@, n)) implies exists|m: int|
                0 <= m < names@.len() && names@[m]@ == n by {
                let j = index_of_key(self.files@, (dir@, n));
                assert(0 <= j < self.files@.len() && key_of(self.files@[j]) == (dir@, n));
                assert(self.files@[j].dir@ == dir@);
            }
        }
        names
    }
}

} // verus!
