use storaget::Car;
use storaget::FileStore;
use storaget::MemStore;
use storaget::Pack;
use storaget::PackResult;
use storaget::VecPack;
use storaget::VecPackMember;

#[test]
fn test_get_and_map_closures() {
    let mut store = MemStore::new();
    let mut pack: Pack<i32> = Pack::load_or_init(
        &mut store,
        String::from("data/api"),
        &String::from("closures"),
    )
    .unwrap();
    let _ = pack.update(&mut store, |_v: &i32| (21, ()));
    assert_eq!(pack.get(|v: &i32| *v * 2), 42);
    assert_eq!(pack.map(|v: &i32| *v + 1), 22);
    assert_eq!(*pack.as_ref(), 21);
}

#[test]
fn test_get_path_and_names() {
    let mut store = MemStore::new();
    let pack: Pack<i32> = Pack::load_or_init(
        &mut store,
        String::from("data/api"),
        &String::from("paths"),
    )
    .unwrap();
    assert_eq!(pack.get_dir(), "data/api");
    assert_eq!(pack.get_name(), "paths.yml");
    let cars: VecPack<Car> =
        VecPack::load_or_init(&mut store, String::from("data/cars")).unwrap();
    assert_eq!(cars.get_path(), "data/cars");
}

#[test]
fn test_check_id_available() {
    let mut store = MemStore::new();
    let mut cars: VecPack<Car> =
        VecPack::load_or_init(&mut store, String::from("data/avail")).unwrap();
    assert!(cars.check_id_available(&String::from("5")));
    cars.insert(&mut store, Car::new(5, "CarFive".to_string(), 90)).unwrap();
    assert!(!cars.check_id_available(&String::from("5")));
    assert!(cars.check_id_available(&String::from("6")));
}

#[test]
fn test_as_vec_mut_access() {
    let mut store = MemStore::new();
    let mut cars: VecPack<Car> =
        VecPack::load_or_init(&mut store, String::from("data/vecmut")).unwrap();
    cars.insert(&mut store, Car::new(9, "CarNine".to_string(), 900)).unwrap();
    let cells = cars.as_vec_mut();
    assert_eq!(cells.len(), 1);
    assert_eq!(cells[0].as_ref().get_id(), "9");
    assert_eq!(cars.as_vec()[0].as_ref().hp, 900);
}

#[test]
fn test_new_collection_over_existing_directory() {
    let mut store = MemStore::new();
    let mut cars: VecPack<Car> =
        VecPack::load_or_init(&mut store, String::from("data/fresh")).unwrap();
    cars.insert(&mut store, Car::new(1, "CarOne".to_string(), 10)).unwrap();
    drop(cars);
    // `new` makes an empty collection and leaves the directory's files as
    // they are; reopening with `load_or_init` sees them again.
    let empty: VecPack<Car> = VecPack::new(&mut store, String::from("data/fresh")).unwrap();
    assert_eq!(empty.as_vec().len(), 0);
    drop(empty);
    let reopened: VecPack<Car> =
        VecPack::load_or_init(&mut store, String::from("data/fresh")).unwrap();
    assert_eq!(reopened.as_vec().len(), 1);
    assert_eq!(reopened.find_id(&String::from("1")).unwrap().as_ref().hp, 10);
}

#[test]
fn test_store_views() {
    let mut store = MemStore::new();
    let dir = String::from("d");
    assert!(!store.dir_exists(&dir));
    store.create_dir_all(&dir).unwrap();
    assert!(store.dir_exists(&dir));
    assert!(!store.file_exists(&dir, &String::from("a")));
    store.write_file(&dir, &String::from("a"), &String::from("one")).unwrap();
    assert!(store.file_exists(&dir, &String::from("a")));
    assert_eq!(store.read_file(&dir, &String::from("a")).unwrap(), "one");
    store.write_file(&dir, &String::from("a"), &String::from("two")).unwrap();
    assert_eq!(store.read_file(&dir, &String::from("a")).unwrap(), "two");
    store.write_file(&dir, &String::from("b"), &String::from("three")).unwrap();
    let mut names = store.list_files(&dir);
    names.sort();
    assert_eq!(names, vec![String::from("a"), String::from("b")]);
    // A write into a directory that was never created fails.
    let r: PackResult<()> =
        store.write_file(&String::from("nowhere"), &String::from("x"), &String::from("y"));
    assert!(r.is_err());
}

#[test]
fn test_load_or_init_starts_at_default() {
    let mut store = MemStore::new();
    let pack: Pack<i32> = Pack::load_or_init(
        &mut store,
        String::from("data/api"),
        &String::from("fresh"),
    )
    .unwrap();
    assert_eq!(*pack.as_ref(), 0);
}

#[test]
fn test_numeric_id_rendering() {
    let car = Car::new(407, "CarBig".to_string(), 120);
    assert_eq!(car.get_id(), "407");
    let zero = Car::new(0, "CarZero".to_string(), 1);
    assert_eq!(zero.get_id(), "0");
}
