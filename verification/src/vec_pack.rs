//! The id-indexed collection of record cells backed by one directory.
//!
//! A [`VecPack`] owns an ordered sequence of [`Pack`] cells, one per record,
//! all backed by files of one directory, each file named after its record's
//! identifier. Ids are unique within a collection; insertion preserves
//! order; lookup goes by id. The collection is rebuilt from a directory
//! listing when opened.

use vstd::prelude::*;
use vstd::string::StringExecFns;

use crate::error::PackError;
use crate::error::PackResult;
use crate::member::VecPackMember;
use crate::pack::Pack;
use crate::store::FileStore;

verus! {

/// The id-indexed collection: an ordered sequence of cells, all backed by
/// one directory.
pub struct VecPack<T: VecPackMember> {
    data: Vec<Pack<T>>,
    path: String,
}

/// The position of the entry whose record carries `id`.
pub open spec fn index_of_id<T: VecPackMember>(s: Seq<Pack<T>>, id: Seq<char>) -> int {
    choose|i: int| 0 <= i < s.len() && T::id_of(s[i].value()@) == id
}

/// A backing file's name is made from its record's id alone, so two records'
/// file names collide only when their ids do.
pub proof fn lemma_name_from_id_injective(a: Seq<char>, b: Seq<char>)
    requires
        a + ".yml"@ == b + ".yml"@,
    ensures
        a == b,
{
    let c = ".yml"@;
    assert((a + c).len() == a.len() + c.len());
    assert((b + c).len() == b.len() + c.len());
    assert(a.len() == b.len());
    assert forall|i: int| 0 <= i < a.len() implies a[i] == b[i] by {
        assert((a + c)[i] == a[i]);
        assert((b + c)[i] == b[i]);
    }
    assert(a =~= b);
}

impl<T: VecPackMember> VecPack<T> {
    /// The cells the collection holds, in insertion order.
    pub closed spec fn entries(&self) -> Seq<Pack<T>> {
        self.data@
    }

    /// The directory backing the collection.
    pub closed spec fn path_spec(&self) -> Seq<char> {
        self.path@
    }

    /// The collection's invariant: ids are unique, and every cell's backing
    /// file lies in the collection's directory under the name made from its
    /// record's id.
    pub open spec fn wf(&self) -> bool {
        &&& forall|i: int, j: int|
            0 <= i < j < self.entries().len() ==> (#[trigger] T::id_of(self.entries()[i].value()@))
                != (#[trigger] T::id_of(self.entries()[j].value()@))
        &&& forall|i: int|
            0 <= i < self.entries().len() ==> (#[trigger] self.entries()[i].dir_spec())
                == self.path_spec() && self.entries()[i].name_spec()
                == T::id_of(self.entries()[i].value()@) + ".yml"@
    }

    /// Whether some record of the collection carries `id`.
    pub open spec fn has_id(&self, id: Seq<char>) -> bool {
        exists|i: int|
            0 <= i < self.entries().len() && (#[trigger] T::id_of(self.entries()[i].value()@)) == id
    }

    /// The collection's resting-state coupling to a medium: every cell's
    /// backing file is there and decodes to the record the cell holds.
    pub open spec fn consistent_with(&self, files: Map<(Seq<char>, Seq<char>), Seq<char>>) -> bool {
        forall|i: int|
            0 <= i < self.entries().len() ==> (#[trigger] self.entries()[i]).consistent_with(files)
    }

    /// An empty collection over directory `path`, creating the directory if
    /// absent.
    pub fn new<M: FileStore>(store: &mut M, path: String) -> (r: PackResult<VecPack<T>>)
        ensures
            final(store).files() == old(store).files(),
            r matches Ok(v) ==> {
                &&& v.path_spec() == path@
                &&& v.entries().len() == 0
                &&& v.wf()
                &&& final(store).dirs() == old(store).dirs().insert(path@)
            },
            r is Err ==> final(store).dirs() == old(store).dirs(),
            r matches Err(e) ==> e is IOError,
            final(store).reliable() == old(store).reliable(),
            old(store).reliable() ==> r is Ok,
    {
        if !store.dir_exists(&path) {
            match store.create_dir_all(&path) {
                Ok(_) => {},
                Err(e) => {
                    return Err(e);
                },
            }
        } else {
            proof {
                assert(old(store).dirs().insert(path@) =~= old(store).dirs());
            }
        }
        Ok(VecPack { data: Vec::new(), path })
    }

    /// The position of the cell whose record carries `id`, if any.
    fn position_of(&self, id: &String) -> (r: Option<usize>)
        ensures
            r matches Some(i) ==> 0 <= i < self.entries().len() && T::id_of(
                (#[trigger] self.entries()[i as int]).value()@,
            ) == id@,
            r is None ==> !self.has_id(id@),
    {
        let mut i: usize = 0;
        while i < self.data.len()
            invariant
                i <= self.entries().len(),
                self.entries().len() == self.data@.len(),
                forall|j: int| 0 <= j < i ==> (#[trigger] T::id_of(self.entries()[j].value()@)) != id@,
            decreases self.entries().len() - i,
        {
            let gid = self.data[i].as_ref().get_id();
            proof {
                assert(self.entries()[i as int] == self.data@[i as int]);
            }
            if gid == *id {
                return Some(i);
            }
            i = i + 1;
        }
        None
    }

    /// Whether `id` is free: no record of the collection carries it.
    pub fn check_id_available(&self, id: &String) -> (r: bool)
        ensures
            r == !self.has_id(id@),
    {
        match self.position_of(id) {
            Some(_) => false,
            None => true,
        }
    }

    /// Insert a record: reject a taken id with `IDTaken` and no side effect
    /// at all; otherwise persist the record to the file named from its id in
    /// the collection's directory, and append its cell.
    pub fn insert<M: FileStore>(&mut self, store: &mut M, item: T) -> (r: PackResult<()>)
        requires
            old(self).wf(),
        ensures
            final(self).wf(),
            final(self).path_spec() == old(self).path_spec(),
            final(store).dirs() == old(store).dirs(),
            final(store).reliable() == old(store).reliable(),
            old(self).has_id(T::id_of(item@)) ==> (r matches Err(e) && e is IDTaken),
            (r matches Err(e) && e is IDTaken) ==> old(self).has_id(T::id_of(item@)),
            r is Ok ==> !old(self).has_id(T::id_of(item@)),
            r is Ok ==> {
                &&& final(self).entries().len() == old(self).entries().len() + 1
                &&& forall|i: int|
                    0 <= i < old(self).entries().len() ==> final(self).entries()[i] == old(
                        self,
                    ).entries()[i]
                &&& final(self).entries().last().value() == item
                &&& final(self).entries().last().dir_spec() == old(self).path_spec()
                &&& final(self).entries().last().name_spec() == T::id_of(item@) + ".yml"@
                &&& final(self).entries().last().consistent_with(final(store).files())
                &&& exists|s: Seq<char>|
                    T::decoded(s) == Some(item@) && final(store).files() == old(
                        store,
                    ).files().insert((old(self).path_spec(), T::id_of(item@) + ".yml"@), s)
            },
            r is Ok && old(self).consistent_with(old(store).files())
                ==> final(self).consistent_with(final(store).files()),
            r is Err ==> final(self).entries() == old(self).entries() && final(store).files()
                == old(store).files(),
            r matches Err(e) ==> e is IDTaken || e is SerializeError || e is IOError,
            old(store).reliable() && old(store).dirs().contains(old(self).path_spec()) && !old(
                self,
            ).has_id(T::id_of(item@)) && T::encodable(item@) ==> r is Ok,
            !old(store).reliable() ==> r is Err,
    {
        let id = item.get_id();
        if !self.check_id_available(&id) {
            return Err(PackError::IDTaken);
        }
        let name = id.concat(".yml");
        let p = Pack::from_parts(item, self.path.clone(), name);
        match p.save(store) {
            Ok(_) => {
                self.data.push(p);
                proof {
                    if old(self).consistent_with(old(store).files()) {
                        assert forall|i: int|
                            0 <= i < self.entries().len() implies (#[trigger] self.entries()[
                            i
                        ]).consistent_with(store.files()) by {
                            if i < old(self).entries().len() {
                                let e = old(self).entries()[i];
                                assert(e.consistent_with(old(store).files()));
                                if e.name_spec() == T::id_of(item@) + ".yml"@ {
                                    lemma_name_from_id_injective(
                                        T::id_of(e.value()@),
                                        T::id_of(item@),
                                    );
                                    assert(old(self).has_id(T::id_of(item@)));
                                }
                            }
                        }
                    }
                }
                Ok(())
            },
            Err(e) => Err(e),
        }
    }

    /// Adopt an already loaded cell: reject a taken id with `IDTaken`, and a
    /// cell whose backing file is not the collection's file for its record's
    /// id with `InternalError`; otherwise append the cell. Nothing is
    /// persisted: the cell keeps the backing file it came with.
    pub fn insert_pack(&mut self, item: Pack<T>) -> (r: PackResult<()>)
        requires
            old(self).wf(),
        ensures
            final(self).wf(),
            final(self).path_spec() == old(self).path_spec(),
            r is Ok <==> {
                &&& !old(self).has_id(T::id_of(item.value()@))
                &&& item.dir_spec() == old(self).path_spec()
                &&& item.name_spec() == T::id_of(item.value()@) + ".yml"@
            },
            r is Ok ==> final(self).entries() == old(self).entries().push(item),
            r is Err ==> final(self).entries() == old(self).entries(),
            old(self).has_id(T::id_of(item.value()@)) ==> (r matches Err(e) && e is IDTaken),
            (r matches Err(e) && e is IDTaken) ==> old(self).has_id(T::id_of(item.value()@)),
            (r matches Err(e) && e is InternalError) ==> !old(self).has_id(T::id_of(item.value()@))
                && !(item.dir_spec() == old(self).path_spec() && item.name_spec()
                == T::id_of(item.value()@) + ".yml"@),
            r matches Err(e) ==> e is IDTaken || e is InternalError,
    {
        let id = item.as_ref().get_id();
        if !self.check_id_available(&id) {
            return Err(PackError::IDTaken);
        }
        let name = id.concat(".yml");
        if !(*item.get_dir() == self.path) || !(*item.get_name() == name) {
            return Err(
                PackError::InternalError(
                    String::from_str("cell does not belong to this collection"),
                ),
            );
        }
        self.data.push(item);
        Ok(())
    }

    /// Look a cell up by id: the cell of the record carrying `id`, or
    /// `ObjectNotFound` when no record carries it.
    pub fn find_id(&self, id: &String) -> (r: PackResult<&Pack<T>>)
        requires
            self.wf(),
        ensures
            r is Ok <==> self.has_id(id@),
            r matches Ok(p) ==> exists|i: int|
                0 <= i < self.entries().len() && *p == (#[trigger] self.entries()[i])
                    && T::id_of(p.value()@) == id@,
            r matches Err(e) ==> e is ObjectNotFound,
    {
        match self.position_of(id) {
            Some(i) => {
                proof {
                    assert(self.entries()[i as int] == self.data@[i as int]);
                }
                Ok(&self.data[i])
            },
            None => Err(PackError::ObjectNotFound),
        }
    }

    /// Look a cell up by id for mutation: an exclusive reference to the cell
    /// of the record carrying `id`, or `ObjectNotFound` when no record
    /// carries it.
    pub fn find_id_mut(&mut self, id: &String) -> (r: PackResult<&mut Pack<T>>)
        requires
            old(self).wf(),
        ensures
            r is Ok <==> old(self).has_id(id@),
            r is Err ==> *final(self) == *old(self),
            r matches Err(e) ==> e is ObjectNotFound,
            r matches Ok(p) ==> {
                &&& 0 <= index_of_id(old(self).entries(), id@) < old(self).entries().len()
                &&& *p == old(self).entries()[index_of_id(old(self).entries(), id@)]
                &&& T::id_of(p.value()@) == id@
                &&& final(self).path_spec() == old(self).path_spec()
                &&& final(self).entries() == old(self).entries().update(
                    index_of_id(old(self).entries(), id@),
                    *final(p),
                )
            },
    {
        match self.position_of(id) {
            Some(i) => {
                proof {
                    let k = index_of_id(self.entries(), id@);
                    assert(0 <= k < self.entries().len() && T::id_of(
                        self.entries()[k].value()@,
                    ) == id@);
                    if k != i {
                        assert(false);
                    }
                    assert(self.entries()[i as int] == self.data@[i as int]);
                }
                Ok(&mut self.data[i])
            },
            None => Err(PackError::ObjectNotFound),
        }
    }

    /// The underlying sequence of cells, read-only.
    pub fn as_vec(&self) -> (r: &Vec<Pack<T>>)
        ensures
            r@ == self.entries(),
    {
        &self.data
    }

    /// The underlying sequence of cells, exclusive. Mutation through it must
    /// keep the collection's invariant for the collection to stay usable.
    pub fn as_vec_mut(&mut self) -> (r: &mut Vec<Pack<T>>)
        ensures
            r@ == old(self).entries(),
            final(self).entries() == final(r)@,
            final(self).path_spec() == old(self).path_spec(),
    {
        &mut self.data
    }

    /// The directory backing the collection.
    pub fn get_path(&self) -> (r: &String)
        ensures
            r@ == self.path_spec(),
    {
        &self.path
    }
}

impl<T: VecPackMember> VecPack<T> {
    /// Walk the collection with exclusive access to one cell at a time: the
    /// returned iterator yields every cell exactly once, in order, and a
    /// cell can only be reached once the previously yielded one has been
    /// released.
    pub fn iter_mut(&mut self) -> (it: VecPackIterMut<'_, T>)
        ensures
            it.remaining() == old(self).entries(),
            final(self).path_spec() == old(self).path_spec(),
            final(self).entries() == (*final(it.data))@,
    {
        VecPackIterMut { data: self.data.as_mut_slice() }
    }
}

/// A mutable walk over a [`VecPack`]'s cells: at each step it splits the
/// first unvisited cell off the remaining suffix, so that no two yielded
/// references can be live at once and every cell is yielded exactly once.
pub struct VecPackIterMut<'a, T: VecPackMember> {
    /// The exclusive borrow of the cells not yet yielded.
    pub data: &'a mut [Pack<T>],
}

impl<'a, T: VecPackMember> VecPackIterMut<'a, T> {
    /// The cells not yet yielded, in the order they will be yielded.
    pub open spec fn remaining(&self) -> Seq<Pack<T>> {
        (*self.data)@
    }

    /// Yield the first cell not yet yielded, or nothing once every cell has
    /// been yielded.
    pub fn next(&mut self) -> (r: Option<&'a mut Pack<T>>)
        ensures
            r is Some <==> old(self).remaining().len() > 0,
            old(self).remaining().len() == 0 ==> final(self).remaining() == old(self).remaining()
                && (*final(final(self).data))@ == (*final(old(self).data))@,
            old(self).remaining().len() > 0 ==> (r matches Some(p) && {
                &&& *p == old(self).remaining()[0]
                &&& final(self).remaining() == old(self).remaining().skip(1)
                &&& (*final(old(self).data))@ == seq![*final(p)] + (*final(final(self).data))@
            }),
    {
        let mut taken: &'a mut [Pack<T>] = &mut [];
        core::mem::swap(&mut self.data, &mut taken);
        if taken.len() == 0 {
            core::mem::swap(&mut self.data, &mut taken);
            None
        } else {
            let (head, tail) = taken.split_at_mut(1);
            self.data = tail;
            head.first_mut()
        }
    }
}

impl<T: VecPackMember> VecPack<T> {
    /// Load one cell per listed file name of `path` into a fresh collection.
    /// Every listed file must decode, and must be named after the id of the
    /// record it holds; the first offender aborts the load.
    fn load_entries<M: FileStore>(store: &M, path: &String, names: &Vec<String>) -> (r: PackResult<
        VecPack<T>,
    >)
        requires
            forall|i: int|
                0 <= i < names@.len() ==> store.files().contains_key(
                    (path@, #[trigger] names@[i]@),
                ),
            forall|i: int, j: int| 0 <= i < j < names@.len() ==> names@[i]@ != names@[j]@,
        ensures
            r matches Ok(v) ==> {
                &&& v.path_spec() == path@
                &&& v.wf()
                &&& v.consistent_with(store.files())
                &&& v.entries().len() == names@.len()
                &&& forall|i: int|
                    0 <= i < names@.len() ==> (#[trigger] v.entries()[i].name_spec())
                        == names@[i]@
            },
            r matches Err(e) ==> e is IOError || e is DeserializeError || e is InternalError,
            (r matches Err(e) && e is DeserializeError) ==> exists|n: Seq<char>|
                store.files().contains_key((path@, n)) && T::decoded(
                    store.files()[(path@, n)],
                ) is None,
            (r matches Err(e) && e is InternalError) ==> exists|n: Seq<char>|
                store.files().contains_key((path@, n)) && (T::decoded(
                    store.files()[(path@, n)],
                ) matches Some(v) && T::id_of(v) + ".yml"@ != n),
            (store.reliable() && forall|i: int|
                0 <= i < names@.len() ==> (T::decoded(
                    store.files()[(path@, #[trigger] names@[i]@)],
                ) matches Some(v) && T::id_of(v) + ".yml"@ == names@[i]@)) ==> r is Ok,
    {
        let mut result: VecPack<T> = VecPack { data: Vec::new(), path: path.clone() };
        let mut k: usize = 0;
        while k < names.len()
            invariant
                k <= names@.len(),
                result.path_spec() == path@,
                result.wf(),
                result.consistent_with(store.files()),
                result.entries().len() == k,
                forall|i: int|
                    0 <= i < k ==> (#[trigger] result.entries()[i].name_spec()) == names@[i]@,
                forall|i: int|
                    0 <= i < names@.len() ==> store.files().contains_key(
                        (path@, #[trigger] names@[i]@),
                    ),
                forall|i: int, j: int| 0 <= i < j < names@.len() ==> names@[i]@ != names@[j]@,
            decreases names@.len() - k,
        {
            let name = names[k].clone();
            let p = match Pack::<T>::load_from_path(store, path.clone(), name) {
                Ok(p) => p,
                Err(e) => {
                    proof {
                        if store.reliable() && (forall|i: int|
                            0 <= i < names@.len() ==> (T::decoded(
                                store.files()[(path@, #[trigger] names@[i]@)],
                            ) matches Some(v) && T::id_of(v) + ".yml"@ == names@[i]@)) {
                            assert(T::decoded(store.files()[(path@, names@[k as int]@)]) is Some);
                            assert(false);
                        }
                        if e is DeserializeError {
                            assert(store.files().contains_key((path@, names@[k as int]@))
                                && T::decoded(store.files()[(path@, names@[k as int]@)]) is None);
                        }
                    }
                    return Err(e);
                },
            };
            let id = p.as_ref().get_id();
            let expected = id.concat(".yml");
            if !(expected == names[k]) {
                proof {
                    let n = names@[k as int]@;
                    assert(T::decoded(store.files()[(path@, n)]) matches Some(v) && T::id_of(v)
                        + ".yml"@ != n);
                }
                return Err(
                    PackError::InternalError(
                        String::from_str("file is not named after the id of its record"),
                    ),
                );
            }
            proof {
                assert forall|i: int|
                    0 <= i < result.entries().len() implies T::id_of(
                    (#[trigger] result.entries()[i]).value()@,
                ) != id@ by {
                    if T::id_of(result.entries()[i].value()@) == id@ {
                        assert(result.entries()[i].name_spec() == names@[i]@);
                        assert(result.entries()[i].name_spec() == id@ + ".yml"@);
                        assert(names@[i]@ == names@[k as int]@);
                        assert(false);
                    }
                }
                assert(!result.has_id(id@));
            }
            match result.insert_pack(p) {
                Ok(_) => {},
                Err(e) => {
                    return Err(e);
                },
            }
            k = k + 1;
        }
        Ok(result)
    }

    /// Open the collection backed by directory `path`, creating the
    /// directory if absent and loading one cell per file it holds. A file
    /// that cannot be read or decoded, or whose name is not made from the id
    /// of the record it holds, aborts the load: no partial collection is
    /// returned.
    pub fn load_or_init<M: FileStore>(store: &mut M, path: String) -> (r: PackResult<VecPack<T>>)
        ensures
            final(store).files() == old(store).files(),
            final(store).dirs() == old(store).dirs() || final(store).dirs() == old(
                store,
            ).dirs().insert(path@),
            r matches Ok(v) ==> {
                &&& v.path_spec() == path@
                &&& v.wf()
                &&& final(store).dirs().contains(path@)
                &&& v.consistent_with(final(store).files())
                &&& forall|n: Seq<char>|
                    #[trigger] final(store).files().contains_key((path@, n)) ==> exists|i: int|
                        0 <= i < v.entries().len() && v.entries()[i].name_spec() == n
            },
            final(store).reliable() == old(store).reliable(),
            r matches Err(e) ==> e is IOError || e is DeserializeError || e is InternalError,
            (r matches Err(e) && e is DeserializeError) ==> exists|n: Seq<char>|
                old(store).files().contains_key((path@, n)) && T::decoded(
                    old(store).files()[(path@, n)],
                ) is None,
            (r matches Err(e) && e is InternalError) ==> exists|n: Seq<char>|
                old(store).files().contains_key((path@, n)) && (T::decoded(
                    old(store).files()[(path@, n)],
                ) matches Some(v) && T::id_of(v) + ".yml"@ != n),
            (old(store).reliable() && forall|n: Seq<char>|
                #[trigger] old(store).files().contains_key((path@, n)) ==> (T::decoded(
                    old(store).files()[(path@, n)],
                ) matches Some(v) && T::id_of(v) + ".yml"@ == n)) ==> r is Ok,
    {
        if !store.dir_exists(&path) {
            match store.create_dir_all(&path) {
                Ok(_) => {},
                Err(e) => {
                    return Err(e);
                },
            }
        }
        let names = store.list_files(&path);
        let r = Self::load_entries(&*store, &path, &names);
        proof {
            if store.reliable() && (forall|n: Seq<char>|
                #[trigger] store.files().contains_key((path@, n)) ==> (T::decoded(
                    store.files()[(path@, n)],
                ) matches Some(v) && T::id_of(v) + ".yml"@ == n)) {
                assert forall|i: int| 0 <= i < names@.len() implies (T::decoded(
                    store.files()[(path@, #[trigger] names@[i]@)],
                ) matches Some(v) && T::id_of(v) + ".yml"@ == names@[i]@) by {
                    assert(store.files().contains_key((path@, names@[i]@)));
                }
            }
            if r is Ok {
                let v = r->Ok_0;
                assert forall|n: Seq<char>| #[trigger]
                    store.files().contains_key((path@, n)) implies exists|i: int|
                    0 <= i < v.entries().len() && v.entries()[i].name_spec() == n by {
                    let i = choose|i: int| 0 <= i < names@.len() && names@[i]@ == n;
                    assert(v.entries()[i].name_spec() == names@[i]@);
                }
            }
        }
        r
    }
}

} // verus!
