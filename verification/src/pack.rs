//! The record cell: one record coupled to one backing file.
//!
//! A [`Pack`] owns a record and the place of its backing file on a storage
//! medium. Whenever no mutation is in flight, the backing file decodes to a
//! value equal to the one held in memory; [`Pack::consistent_with`] states
//! that coupling, the constructors establish it and [`Pack::update`]
//! preserves it, rolling the cell back when persisting fails.

use vstd::prelude::*;
use vstd::string::StringExecFns;

use crate::error::PackError;
use crate::error::PackResult;
use crate::member::PackMember;
use crate::store::FileStore;

verus! {

/// A record cell: one record plus the (directory, file name) place of its
/// backing file on a storage medium.
pub struct Pack<T: PackMember> {
    data: T,
    dir: String,
    name: String,
}

/// Encode `data` and overwrite the file at (`dir`, `name`) with it in full.
/// Shared by every path that persists a record.
fn save_data_object<T: PackMember, M: FileStore>(
    store: &mut M,
    dir: &String,
    name: &String,
    data: &T,
) -> (r: PackResult<()>)
    ensures
        final(store).dirs() == old(store).dirs(),
        final(store).reliable() == old(store).reliable(),
        r is Ok ==> exists|s: Seq<char>|
            T::decoded(s) == Some((*data)@) && final(store).files() == old(store).files().insert(
                (dir@, name@),
                s,
            ),
        r is Err ==> final(store).files() == old(store).files(),
        r matches Err(e) ==> e is SerializeError || e is IOError,
        old(store).reliable() && old(store).dirs().contains(dir@) && T::encodable((*data)@)
            ==> r is Ok,
        !old(store).reliable() ==> r is Err,
{
    match data.encode() {
        Ok(content) => {
            match store.write_file(dir, name, &content) {
                Ok(_) => {
                    proof {
                        let s = content@;
                        assert(T::decoded(s) == Some((*data)@) && final(store).files() == old(
                            store,
                        ).files().insert((dir@, name@), s));
                    }
                    Ok(())
                },
                Err(e) => Err(e),
            }
        },
        Err(e) => Err(e),
    }
}

impl<T: PackMember> Pack<T> {
    /// The record this cell holds.
    pub closed spec fn value(&self) -> T {
        self.data
    }

    /// The directory of this cell's backing file.
    pub closed spec fn dir_spec(&self) -> Seq<char> {
        self.dir@
    }

    /// The name of this cell's backing file within its directory.
    pub closed spec fn name_spec(&self) -> Seq<char> {
        self.name@
    }

    /// The cell's resting-state coupling to a medium: the backing file is
    /// there and decodes to exactly the record held in memory.
    pub open spec fn consistent_with(&self, files: Map<(Seq<char>, Seq<char>), Seq<char>>) -> bool {
        &&& files.contains_key((self.dir_spec(), self.name_spec()))
        &&& T::decoded(files[(self.dir_spec(), self.name_spec())]) == Some(self.value()@)
    }

    /// A cell over (`dir`, `name`) holding `value`, not yet persisted.
    pub(crate) fn from_parts(value: T, dir: String, name: String) -> (r: Pack<T>)
        ensures
            r.value() == value,
            r.dir_spec() == dir@,
            r.name_spec() == name@,
    {
        Pack { data: value, dir, name }
    }

    /// The directory of this cell's backing file.
    pub fn get_dir(&self) -> (r: &String)
        ensures
            r@ == self.dir_spec(),
    {
        &self.dir
    }

    /// The name of this cell's backing file within its directory.
    pub fn get_name(&self) -> (r: &String)
        ensures
            r@ == self.name_spec(),
    {
        &self.name
    }

    /// Read the record.
    pub fn as_ref(&self) -> (r: &T)
        ensures
            *r == self.value(),
    {
        &self.data
    }

    /// Apply a read-only function to the record and return its result.
    pub fn get<R, F: Fn(&T) -> R>(&self, f: F) -> (r: R)
        requires
            call_requires(f, (&self.value(),)),
        ensures
            call_ensures(f, (&self.value(),), r),
    {
        f(&self.data)
    }

    /// Apply a read-only function to the record and return its result.
    pub fn map<R, F: Fn(&T) -> R>(&self, f: F) -> (r: R)
        requires
            call_requires(f, (&self.value(),)),
        ensures
            call_ensures(f, (&self.value(),), r),
    {
        f(&self.data)
    }

    /// Persist the record: overwrite the backing file in full with the
    /// record's encoding.
    pub fn save<M: FileStore>(&self, store: &mut M) -> (r: PackResult<()>)
        ensures
            final(store).dirs() == old(store).dirs(),
            final(store).reliable() == old(store).reliable(),
            r is Ok ==> exists|s: Seq<char>|
                T::decoded(s) == Some(self.value()@) && final(store).files() == old(
                    store,
                ).files().insert((self.dir_spec(), self.name_spec()), s),
            r is Ok ==> self.consistent_with(final(store).files()),
            r is Err ==> final(store).files() == old(store).files(),
            r matches Err(e) ==> e is SerializeError || e is IOError,
            old(store).reliable() && old(store).dirs().contains(self.dir_spec()) && T::encodable(
                self.value()@,
            ) ==> r is Ok,
            !old(store).reliable() ==> r is Err,
    {
        save_data_object(store, &self.dir, &self.name, &self.data)
    }

    /// Update the record and persist the result, atomically with respect to
    /// the in-memory value: on success the mutation is fully visible and on
    /// the medium; on failure the cell and the medium are exactly as before
    /// the call, and the error is reported.
    pub fn update<M: FileStore, R, F: FnOnce(&T) -> (T, R)>(
        &mut self,
        store: &mut M,
        f: F,
    ) -> (r: PackResult<R>)
        requires
            call_requires(f, (&old(self).value(),)),
        ensures
            final(self).dir_spec() == old(self).dir_spec(),
            final(self).name_spec() == old(self).name_spec(),
            final(store).dirs() == old(store).dirs(),
            final(store).reliable() == old(store).reliable(),
            r matches Ok(ret) ==> call_ensures(
                f,
                (&old(self).value(),),
                (final(self).value(), ret),
            ),
            r is Ok ==> final(self).consistent_with(final(store).files()),
            r is Ok ==> exists|s: Seq<char>|
                T::decoded(s) == Some(final(self).value()@) && final(store).files() == old(
                    store,
                ).files().insert((old(self).dir_spec(), old(self).name_spec()), s),
            r is Err ==> *final(self) == *old(self) && final(store).files() == old(store).files(),
            r matches Err(e) ==> e is SerializeError || e is IOError,
            (old(store).reliable() && old(store).dirs().contains(old(self).dir_spec()) && forall|
                out: (T, R),
            |
                call_ensures(f, (&old(self).value(),), out) ==> T::encodable(out.0@)) ==> r is Ok,
            !old(store).reliable() ==> r is Err,
    {
        let (new_data, ret) = f(&self.data);
        match save_data_object(store, &self.dir, &self.name, &new_data) {
            Ok(_) => {
                self.data = new_data;
                Ok(ret)
            },
            Err(e) => Err(e),
        }
    }

    /// Scoped mutable access to the record: an exclusive guard through which
    /// the record can be read and replaced. The cell cannot be touched while
    /// the guard lives; release the guard through [`PackGuard::release`] to
    /// persist what it holds — a dropped guard persists nothing. `update` is
    /// the safety-preferred path: it rolls back on a failed persist, the
    /// guard does not.
    pub fn as_mut(&mut self) -> (g: PackGuard<'_, T>)
        ensures
            g.value() == old(self).value(),
            g.dir_spec() == old(self).dir_spec(),
            g.name_spec() == old(self).name_spec(),
            *final(self) == *final(g.pack),
    {
        PackGuard { pack: self }
    }
}


/// An exclusive guard over one cell's record, handed out by
/// [`Pack::as_mut`]. Releasing it persists the record it holds and reports
/// how persisting went; a released guard leaves the cell holding exactly
/// what the guard last held.
///
/// Releasing is deliberately explicit and fallible, not automatic on scope
/// end: persisting can fail, and an effect run when a scope ends could not
/// report that failure to the caller, only swallow it. The trade-off is
/// that a guard dropped without [`PackGuard::release`] persists nothing:
/// the cell then holds the guard's record in memory while the backing file
/// keeps its old content, until the next persisting operation.
pub struct PackGuard<'a, T: PackMember> {
    /// The exclusive borrow of the guarded cell.
    pub pack: &'a mut Pack<T>,
}

impl<'a, T: PackMember> PackGuard<'a, T> {
    /// The record the guard holds now.
    pub closed spec fn value(&self) -> T {
        (*self.pack).data
    }

    /// The directory of the guarded cell's backing file.
    pub closed spec fn dir_spec(&self) -> Seq<char> {
        (*self.pack).dir@
    }

    /// The name of the guarded cell's backing file.
    pub closed spec fn name_spec(&self) -> Seq<char> {
        (*self.pack).name@
    }

    /// Read the record the guard holds.
    pub fn get_ref(&self) -> (r: &T)
        ensures
            *r == self.value(),
    {
        &self.pack.data
    }

    /// Replace the record the guard holds. The cell sees the replacement;
    /// nothing is persisted until the guard is released.
    pub fn set(&mut self, v: T)
        ensures
            final(self).value() == v,
            final(self).dir_spec() == old(self).dir_spec(),
            final(self).name_spec() == old(self).name_spec(),
            *final(final(self).pack) == *final(old(self).pack),
    {
        self.pack.data = v;
    }

    /// End the scoped access: persist the record the guard holds and report
    /// the outcome. The cell keeps that record either way; on a failed
    /// persist the backing file is unchanged and the error is handed back,
    /// so the caller decides the policy for it.
    pub fn release<M: FileStore>(self, store: &mut M) -> (r: PackResult<()>)
        ensures
            (*final(self.pack)).value() == self.value(),
            (*final(self.pack)).dir_spec() == self.dir_spec(),
            (*final(self.pack)).name_spec() == self.name_spec(),
            final(store).dirs() == old(store).dirs(),
            final(store).reliable() == old(store).reliable(),
            r is Ok ==> exists|s: Seq<char>|
                T::decoded(s) == Some(self.value()@) && final(store).files() == old(
                    store,
                ).files().insert((self.dir_spec(), self.name_spec()), s),
            r is Err ==> final(store).files() == old(store).files(),
            r matches Err(e) ==> e is SerializeError || e is IOError,
            old(store).reliable() && old(store).dirs().contains(self.dir_spec()) && T::encodable(
                self.value()@,
            ) ==> r is Ok,
            !old(store).reliable() ==> r is Err,
    {
        save_data_object(store, &self.pack.dir, &self.pack.name, &self.pack.data)
    }
}

impl<T: PackMember> Pack<T> {
    /// A fresh cell holding the member type's fresh record, not yet
    /// persisted.
    fn new(dir: String, name: String) -> (r: Pack<T>)
        ensures
            r.dir_spec() == dir@,
            r.name_spec() == name@,
            r.value()@ == T::default_view(),
    {
        Pack { data: T::default_record(), dir, name }
    }

    /// Load a cell from the file at (`dir`, `name`): read it and decode it.
    /// Fails if the file cannot be read, or is there but does not decode.
    pub fn load_from_path<M: FileStore>(store: &M, dir: String, name: String) -> (r: PackResult<
        Pack<T>,
    >)
        ensures
            r matches Ok(p) ==> {
                &&& p.dir_spec() == dir@
                &&& p.name_spec() == name@
                &&& store.files().contains_key((dir@, name@))
                &&& Some(p.value()@) == T::decoded(store.files()[(dir@, name@)])
                &&& p.consistent_with(store.files())
            },
            !store.files().contains_key((dir@, name@)) ==> (r matches Err(e) && e is IOError),
            r matches Err(e) ==> e is IOError || e is DeserializeError,
            (r matches Err(e) && e is DeserializeError) ==> store.files().contains_key(
                (dir@, name@),
            ) && T::decoded(store.files()[(dir@, name@)]) is None,
            store.reliable() && store.files().contains_key((dir@, name@)) && T::decoded(
                store.files()[(dir@, name@)],
            ) is Some ==> r is Ok,
            store.reliable() && store.files().contains_key((dir@, name@)) && T::decoded(
                store.files()[(dir@, name@)],
            ) is None ==> (r matches Err(e) && e is DeserializeError),
    {
        match store.read_file(&dir, &name) {
            Ok(content) => match T::decode(content.as_str()) {
                Ok(data) => Ok(Pack { data, dir, name }),
                Err(e) => Err(e),
            },
            Err(e) => Err(e),
        }
    }

    /// Load a cell as [`Pack::load_from_path`] does, but give a
    /// caller-supplied schema-upgrade hook first refusal on a text that does
    /// not decode: when the hook recovers a record out of the text, the
    /// record is persisted in the current shape and the cell is returned;
    /// when the hook refuses too, the decode failure is surfaced.
    pub fn load_from_path_with_upgrade<M: FileStore, F: FnOnce(String) -> PackResult<T>>(
        store: &mut M,
        dir: String,
        name: String,
        try_upgrade: F,
    ) -> (r: PackResult<Pack<T>>)
        requires
            forall|c: String| #[trigger] call_requires(try_upgrade, (c,)),
        ensures
            r matches Ok(p) ==> {
                &&& p.dir_spec() == dir@
                &&& p.name_spec() == name@
                &&& old(store).files().contains_key((dir@, name@))
                &&& p.consistent_with(final(store).files())
                &&& (T::decoded(old(store).files()[(dir@, name@)]) is Some ==> Some(p.value()@)
                    == T::decoded(old(store).files()[(dir@, name@)]) && final(store).files()
                    == old(store).files())
                &&& (T::decoded(old(store).files()[(dir@, name@)]) is None ==> exists|c: String|
                    c@ == old(store).files()[(dir@, name@)] && call_ensures(
                        try_upgrade,
                        (c,),
                        Ok(p.value()),
                    ))
            },
            final(store).dirs() == old(store).dirs(),
            final(store).reliable() == old(store).reliable(),
            final(store).files() == old(store).files() || (exists|s: Seq<char>|
                T::decoded(s) is Some && final(store).files() == old(store).files().insert(
                    (dir@, name@),
                    s,
                )),
            !old(store).files().contains_key((dir@, name@)) ==> (r matches Err(e) && e is IOError),
            r matches Err(e) ==> e is IOError || e is DeserializeError || e is SerializeError,
            (r matches Err(e) && e is DeserializeError) ==> old(store).files().contains_key(
                (dir@, name@),
            ) && T::decoded(old(store).files()[(dir@, name@)]) is None,
            old(store).reliable() && old(store).files().contains_key((dir@, name@)) && T::decoded(
                old(store).files()[(dir@, name@)],
            ) is Some ==> r is Ok,
    {
        let content = match store.read_file(&dir, &name) {
            Ok(c) => c,
            Err(e) => {
                return Err(e);
            },
        };
        match T::decode(content.as_str()) {
            Ok(data) => Ok(Pack { data, dir, name }),
            Err(decode_err) => match try_upgrade(content) {
                Ok(data) => {
                    let p = Pack { data, dir, name };
                    match p.save(store) {
                        Ok(_) => Ok(p),
                        Err(e) => Err(e),
                    }
                },
                Err(_) => Err(decode_err),
            },
        }
    }

    /// Load the cell backed by `<dir>/<file_id>.yml`, initializing it first
    /// when absent: the directory is created if missing, and a missing file
    /// is written with the type's default record before loading.
    pub fn load_or_init<M: FileStore>(store: &mut M, dir: String, file_id: &String) -> (r:
        PackResult<Pack<T>>)
        ensures
            r matches Ok(p) ==> {
                &&& p.dir_spec() == dir@
                &&& p.name_spec() == file_id@ + ".yml"@
                &&& final(store).dirs().contains(dir@)
                &&& p.consistent_with(final(store).files())
                &&& (old(store).files().contains_key((dir@, file_id@ + ".yml"@))
                    ==> final(store).files() == old(store).files() && Some(p.value()@)
                    == T::decoded(old(store).files()[(dir@, file_id@ + ".yml"@)]))
                &&& (!old(store).files().contains_key((dir@, file_id@ + ".yml"@)) ==> p.value()@
                    == T::default_view())
            },
            final(store).files() == old(store).files() || (exists|s: Seq<char>|
                T::decoded(s) is Some && final(store).files() == old(store).files().insert(
                    (dir@, file_id@ + ".yml"@),
                    s,
                )),
            final(store).dirs() == old(store).dirs() || final(store).dirs()
                == old(store).dirs().insert(dir@),
            final(store).reliable() == old(store).reliable(),
            r matches Err(e) ==> e is IOError || e is SerializeError || e is DeserializeError,
            (r matches Err(e) && e is DeserializeError) ==> old(store).files().contains_key(
                (dir@, file_id@ + ".yml"@),
            ) && T::decoded(old(store).files()[(dir@, file_id@ + ".yml"@)]) is None,
            old(store).reliable() && (old(store).files().contains_key((dir@, file_id@ + ".yml"@))
                ==> T::decoded(old(store).files()[(dir@, file_id@ + ".yml"@)]) is Some) && (!old(
                store,
            ).files().contains_key((dir@, file_id@ + ".yml"@)) ==> T::encodable(T::default_view()))
                ==> r is Ok,
    {
        if !store.dir_exists(&dir) {
            match store.create_dir_all(&dir) {
                Ok(_) => {},
                Err(e) => {
                    return Err(e);
                },
            }
        }
        let name = file_id.clone().concat(".yml");
        if !store.file_exists(&dir, &name) {
            let fresh: Pack<T> = Pack::new(dir.clone(), name.clone());
            match fresh.save(store) {
                Ok(_) => {},
                Err(e) => {
                    return Err(e);
                },
            }
        }
        Pack::load_from_path(store, dir, name)
    }
}

/// Round-trip persistence: the backing file determines the record. Two cells
/// at rest over the same file of the same medium hold equal records under
/// the codec's equality; in particular, a cell loaded back from a persisted
/// cell's file holds the record that was persisted.
pub proof fn lemma_round_trip<T: PackMember>(
    files: Map<(Seq<char>, Seq<char>), Seq<char>>,
    a: Pack<T>,
    b: Pack<T>,
)
    requires
        a.consistent_with(files),
        b.consistent_with(files),
        a.dir_spec() == b.dir_spec(),
        a.name_spec() == b.name_spec(),
    ensures
        a.value()@ == b.value()@,
{
}

} // verus!
