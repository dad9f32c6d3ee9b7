use storaget::FileStore;
use storaget::MemStore;
use storaget::Pack;
use storaget::PackError;
use storaget::PackGuard;
use storaget::PackResult;

fn set_and_release(pack: &mut Pack<i32>, store: &mut MemStore, v: i32) {
    let mut guard: PackGuard<i32> = pack.as_mut();
    guard.set(v);
    guard.release(store).unwrap();
}

#[test]
fn test_load_or_init() {
    let mut store = MemStore::new();
    let meaning_of_life: PackResult<Pack<i32>> = Pack::load_or_init(
        &mut store,
        String::from("data/pack_test"),
        &String::from("meaning_of_life"),
    );
    assert_eq!(meaning_of_life.is_ok(), true);
}

#[test]
fn test_update() {
    let mut store = MemStore::new();
    let mut meaning_of_life: Pack<i32> = Pack::load_or_init(
        &mut store,
        String::from("data/pack_test"),
        &String::from("meaning_of_life_update"),
    )
    .unwrap();
    set_and_release(&mut meaning_of_life, &mut store, 17);
    let _ = meaning_of_life.update(&mut store, |_v: &i32| (42, ()));
    assert_eq!(*meaning_of_life.as_ref(), 42);
}

#[test]
fn test_as_mut() {
    let mut store = MemStore::new();
    let mut meaning_of_life: Pack<i32> = Pack::load_or_init(
        &mut store,
        String::from("data/pack_test"),
        &String::from("meaning_of_life_as_mut"),
    )
    .unwrap();
    set_and_release(&mut meaning_of_life, &mut store, 17);
    assert_eq!(*meaning_of_life.as_ref(), 17);
    set_and_release(&mut meaning_of_life, &mut store, 42);
    assert_eq!(*meaning_of_life.as_ref(), 42);
}

#[test]
fn test_as_deref() {
    let mut store = MemStore::new();
    let meaning_of_life: Pack<i32> = Pack::load_or_init(
        &mut store,
        String::from("data/pack_test"),
        &String::from("meaning_of_life_deref"),
    )
    .unwrap();
    let mut meaning_of_life = meaning_of_life;
    set_and_release(&mut meaning_of_life, &mut store, 42);
    // Manually drop the cell, then load it again from the same medium and
    // read the stored value back.
    drop(meaning_of_life);
    let meaning_of_life: Pack<i32> = Pack::load_or_init(
        &mut store,
        String::from("data/pack_test"),
        &String::from("meaning_of_life_deref"),
    )
    .unwrap();
    assert_eq!(*meaning_of_life.as_ref(), 42);
}

#[test]
fn test_update_rollback_on_failed_persist() {
    let mut store = MemStore::new();
    let mut pack: Pack<i32> = Pack::load_or_init(
        &mut store,
        String::from("data/pack_test"),
        &String::from("rollback"),
    )
    .unwrap();
    let _ = pack.update(&mut store, |_v: &i32| (7, ()));
    assert_eq!(*pack.as_ref(), 7);
    store.set_write_protect(true);
    let r = pack.update(&mut store, |_v: &i32| (99, ()));
    assert!(matches!(r, Err(PackError::IOError(_))));
    // The record's value after the failed call equals its value before.
    assert_eq!(*pack.as_ref(), 7);
    store.set_write_protect(false);
    // The backing file was left untouched as well.
    drop(pack);
    let pack: Pack<i32> = Pack::load_or_init(
        &mut store,
        String::from("data/pack_test"),
        &String::from("rollback"),
    )
    .unwrap();
    assert_eq!(*pack.as_ref(), 7);
}

#[test]
fn test_save_then_load_round_trip() {
    let mut store = MemStore::new();
    let mut pack: Pack<i32> = Pack::load_or_init(
        &mut store,
        String::from("data/pack_test"),
        &String::from("round_trip"),
    )
    .unwrap();
    let _ = pack.update(&mut store, |_v: &i32| (-12345, ()));
    let loaded: Pack<i32> = Pack::load_from_path(
        &store,
        String::from("data/pack_test"),
        String::from("round_trip.yml"),
    )
    .unwrap();
    assert_eq!(*loaded.as_ref(), -12345);
}

#[test]
fn test_load_missing_file_fails() {
    let store = MemStore::new();
    let r: PackResult<Pack<i32>> = Pack::load_from_path(
        &store,
        String::from("data/pack_test"),
        String::from("absent.yml"),
    );
    assert!(matches!(r, Err(PackError::IOError(_))));
}

#[test]
fn test_load_undecodable_file_fails() {
    let mut store = MemStore::new();
    store.create_dir_all(&String::from("d")).unwrap();
    store
        .write_file(&String::from("d"), &String::from("bad.yml"), &String::from("[not an int"))
        .unwrap();
    let r: PackResult<Pack<i32>> =
        Pack::load_from_path(&store, String::from("d"), String::from("bad.yml"));
    assert!(matches!(r, Err(PackError::DeserializeError(_))));
}

#[test]
fn test_upgrade_hook_first_refusal() {
    let mut store = MemStore::new();
    let dir = String::from("d");
    store.create_dir_all(&dir).unwrap();
    store
        .write_file(&dir, &String::from("n.yml"), &String::from("legacy:7"))
        .unwrap();
    // The stored text is not a document of the current shape; the upgrade
    // hook gets first refusal and recovers the number out of it.
    let p: Pack<i32> = Pack::load_from_path_with_upgrade(
        &mut store,
        String::from("d"),
        String::from("n.yml"),
        |c: String| match c.strip_prefix("legacy:").and_then(|t| t.parse::<i32>().ok()) {
            Some(n) => Ok(n),
            None => Err(PackError::DeserializeError(String::from("not a legacy record"))),
        },
    )
    .unwrap();
    assert_eq!(*p.as_ref(), 7);
    // The record was rewritten in the current shape: a plain load now works.
    let p2: Pack<i32> =
        Pack::load_from_path(&store, String::from("d"), String::from("n.yml")).unwrap();
    assert_eq!(*p2.as_ref(), 7);
    // When the hook refuses too, the decode failure is surfaced.
    store
        .write_file(&dir, &String::from("bad.yml"), &String::from("[nope"))
        .unwrap();
    let r: PackResult<Pack<i32>> = Pack::load_from_path_with_upgrade(
        &mut store,
        String::from("d"),
        String::from("bad.yml"),
        |_c: String| Err(PackError::DeserializeError(String::from("refused"))),
    );
    assert!(matches!(r, Err(PackError::DeserializeError(_))));
}
