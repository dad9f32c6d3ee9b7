use storaget::Car;
use storaget::MemStore;
use storaget::PackResult;
use storaget::VecPack;
use storaget::VecPackMember;

fn create_dummy_vecpack(store: &mut MemStore, path: &str) -> VecPack<Car> {
    let mut meaning_of_life: VecPack<Car> =
        VecPack::load_or_init(store, String::from(path)).unwrap();
    // On a reopened directory the records are already there; freshly insert
    // only what is missing.
    for car in [
        Car::new(1, "CarSmall".to_string(), 150),
        Car::new(2, "CarBig".to_string(), 650),
        Car::new(3, "CarMedium".to_string(), 250),
    ] {
        if meaning_of_life.check_id_available(&car.get_id()) {
            meaning_of_life.insert(store, car).unwrap();
        }
    }
    meaning_of_life
}

#[test]
fn test_vecpack_load_or_init() {
    let mut store = MemStore::new();
    let meaning_of_life: PackResult<VecPack<Car>> =
        VecPack::load_or_init(&mut store, String::from("data/vecpack_test_load_or_init"));
    assert_eq!(meaning_of_life.is_ok(), true);
    assert_eq!(meaning_of_life.unwrap().as_vec().len(), 0);
}

#[test]
fn test_vecpack_insert() {
    let mut store = MemStore::new();
    let mut meaning_of_life: VecPack<Car> =
        VecPack::load_or_init(&mut store, String::from("data/vecpack_test_insert")).unwrap();
    meaning_of_life
        .insert(&mut store, Car::new(1, "CarSmall".to_string(), 150))
        .unwrap();
    meaning_of_life
        .insert(&mut store, Car::new(2, "CarBig".to_string(), 650))
        .unwrap();
    meaning_of_life
        .insert(&mut store, Car::new(3, "CarMedium".to_string(), 250))
        .unwrap();

    assert_eq!(meaning_of_life.as_vec().len(), 3);
}

#[test]
fn test_vecpack_as_mut() {
    let mut store = MemStore::new();
    let mut cars = create_dummy_vecpack(&mut store, "data/vecpack_test_as_mut");
    let mut it = cars.iter_mut();
    while let Some(cell) = it.next() {
        let mut car = cell.as_ref().clone();
        car.hp = 1;
        let mut guard = cell.as_mut();
        guard.set(car);
        guard.release(&mut store).unwrap();
    }
    drop(cars);
    let cars = create_dummy_vecpack(&mut store, "data/vecpack_test_as_mut");
    assert_eq!(cars.as_vec()[0].as_ref().hp, 1);
}

#[test]
fn test_vecpack_find_id() {
    let mut store = MemStore::new();
    let cars = create_dummy_vecpack(&mut store, "data/vecpack_test_find_id");
    drop(cars);
    let cars = create_dummy_vecpack(&mut store, "data/vecpack_test_find_id");
    assert_eq!(cars.find_id(&String::from("3")).is_ok(), true);
    assert_eq!(cars.find_id(&String::from("1")).unwrap().as_ref().hp, 150);
    assert_eq!(cars.find_id(&String::from("2")).unwrap().as_ref().hp, 650);
    assert_eq!(cars.find_id(&String::from("3")).unwrap().as_ref().hp, 250);
}

#[test]
fn test_vecpack_find_id_mut() {
    let mut store = MemStore::new();
    let mut cars = create_dummy_vecpack(&mut store, "data/vecpack_test_find_id_mut");
    cars.find_id_mut(&String::from("1"))
        .unwrap()
        .update(&mut store, |c: &Car| (Car { hp: 1, ..c.clone() }, ()))
        .unwrap();
    cars.find_id_mut(&String::from("2"))
        .unwrap()
        .update(&mut store, |c: &Car| (Car { hp: 11, ..c.clone() }, ()))
        .unwrap();
    cars.find_id_mut(&String::from("3"))
        .unwrap()
        .update(&mut store, |c: &Car| (Car { hp: 111, ..c.clone() }, ()))
        .unwrap();

    drop(cars);
    let cars = create_dummy_vecpack(&mut store, "data/vecpack_test_find_id_mut");

    assert_eq!(cars.find_id(&String::from("1")).unwrap().as_ref().hp, 1);
    assert_eq!(cars.find_id(&String::from("2")).unwrap().as_ref().hp, 11);
    assert_eq!(cars.find_id(&String::from("3")).unwrap().as_ref().hp, 111);
}
