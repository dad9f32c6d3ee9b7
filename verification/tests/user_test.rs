use storaget::FileStore;
use storaget::MemStore;
use storaget::PackError;
use storaget::PackMember;
use storaget::PackResult;
use storaget::User;
use storaget::VecPack;
use storaget::VecPackMember;

fn rename(users: &mut VecPack<User>, store: &mut MemStore, id: &str, name: &str) {
    let new_name = String::from(name);
    users
        .find_id_mut(&String::from(id))
        .unwrap()
        .update(store, move |u: &User| {
            let mut renamed = u.clone();
            renamed.set_name(new_name.as_str());
            (renamed, ())
        })
        .unwrap();
}

#[test]
fn test_end_to_end_reopen() {
    let mut store = MemStore::new();
    let dir = "data/users";

    let mut users: VecPack<User> =
        VecPack::load_or_init(&mut store, String::from(dir)).unwrap();
    users.insert(&mut store, User::new("1", "Kriszti", 28)).unwrap();
    users.insert(&mut store, User::new("2", "Peti", 31)).unwrap();
    users.insert(&mut store, User::new("3", "Gabi", 27)).unwrap();
    drop(users);

    let mut users: VecPack<User> =
        VecPack::load_or_init(&mut store, String::from(dir)).unwrap();
    assert_eq!(
        users.find_id(&String::from("2")).unwrap().as_ref().get_name(),
        "Peti"
    );
    rename(&mut users, &mut store, "3", "Gabi!");
    drop(users);

    let users: VecPack<User> =
        VecPack::load_or_init(&mut store, String::from(dir)).unwrap();
    assert_eq!(
        users.find_id(&String::from("3")).unwrap().as_ref().get_name(),
        "Gabi!"
    );
}

#[test]
fn test_insert_duplicate_id_fails() {
    let mut store = MemStore::new();
    let mut users: VecPack<User> =
        VecPack::load_or_init(&mut store, String::from("data/dup")).unwrap();
    users.insert(&mut store, User::new("a", "First", 1)).unwrap();
    let r = users.insert(&mut store, User::new("a", "Second", 2));
    assert!(matches!(r, Err(PackError::IDTaken)));
    // The failed insert left the entry count unchanged, and the record kept
    // its original name.
    assert_eq!(users.as_vec().len(), 1);
    assert_eq!(
        users.find_id(&String::from("a")).unwrap().as_ref().get_name(),
        "First"
    );
}

#[test]
fn test_find_missing_id() {
    let mut store = MemStore::new();
    let mut users: VecPack<User> =
        VecPack::load_or_init(&mut store, String::from("data/missing")).unwrap();
    users.insert(&mut store, User::new("a", "One", 1)).unwrap();
    let r = users.find_id(&String::from("b"));
    assert!(matches!(r, Err(PackError::ObjectNotFound)));
    let r = users.find_id_mut(&String::from("b"));
    assert!(matches!(r, Err(PackError::ObjectNotFound)));
}

#[test]
fn test_member_codec_round_trip() {
    let n: i32 = 42;
    let text = n.encode().unwrap();
    let back: i32 = PackMember::decode(text.as_str()).unwrap();
    assert_eq!(back, 42);

    let u = User::new("id7", "Someone", 77);
    let text = u.encode().unwrap();
    let back: User = PackMember::decode(text.as_str()).unwrap();
    assert_eq!(back.get_id(), "id7");
    assert_eq!(back.get_name(), "Someone");
    assert_eq!(back.get_age(), 77);
}

#[test]
fn test_iteration_visits_each_once() {
    let mut store = MemStore::new();
    let mut users: VecPack<User> =
        VecPack::load_or_init(&mut store, String::from("data/iter")).unwrap();
    users.insert(&mut store, User::new("1", "One", 1)).unwrap();
    users.insert(&mut store, User::new("2", "Two", 2)).unwrap();
    users.insert(&mut store, User::new("3", "Three", 3)).unwrap();

    let mut seen: Vec<String> = Vec::new();
    let mut it = users.iter_mut();
    while let Some(cell) = it.next() {
        seen.push(cell.as_ref().get_id());
    }
    assert_eq!(seen, vec!["1".to_string(), "2".to_string(), "3".to_string()]);
    assert!(it.next().is_none());
}

#[test]
fn test_user_accessors() {
    let mut u = User::new("u1", "Anna", 20);
    assert_eq!(u.get_id(), "u1");
    assert_eq!(u.get_name(), "Anna");
    assert_eq!(u.get_age(), 20);
    u.set_name("Bea");
    assert_eq!(u.get_name(), "Bea");
    assert_eq!(u.get_id(), "u1");
    let d = User::default();
    assert_eq!(d.get_id(), "");
    assert_eq!(d.get_name(), "");
    assert_eq!(d.get_age(), 0);
}

#[test]
fn test_misnamed_file_aborts_load() {
    let mut store = MemStore::new();
    let dir = String::from("data/misnamed");
    store.create_dir_all(&dir).unwrap();
    let text = User::new("y", "Name", 1).encode().unwrap();
    store.write_file(&dir, &String::from("x.yml"), &text).unwrap();
    let r: PackResult<VecPack<User>> = VecPack::load_or_init(&mut store, dir);
    assert!(matches!(r, Err(PackError::InternalError(_))));
}

#[test]
fn test_undecodable_file_aborts_load() {
    let mut store = MemStore::new();
    let dir = String::from("data/undecodable");
    store.create_dir_all(&dir).unwrap();
    store
        .write_file(&dir, &String::from("z.yml"), &String::from("]["))
        .unwrap();
    let r: PackResult<VecPack<User>> = VecPack::load_or_init(&mut store, dir);
    assert!(matches!(r, Err(PackError::DeserializeError(_))));
}

#[test]
fn test_error_messages() {
    assert_eq!(
        PackError::InternalError("x".into()).message(),
        "Internal error: x"
    );
    assert_eq!(
        PackError::SerializeError("x".into()).message(),
        "Pack serialization error: x"
    );
    assert_eq!(
        PackError::DeserializeError("x".into()).message(),
        "Pack deserialization error: x"
    );
    assert_eq!(PackError::IOError("x".into()).message(), "Pack IO error: x");
    assert_eq!(PackError::PathNotFound.message(), "Path not found");
    assert_eq!(
        PackError::ObjectNotFound.message(),
        "Storage object not found in storage."
    );
    assert_eq!(PackError::IDTaken.message(), "VecPack ID already taken");
}
