use omnigate::grid::{CreateGridItem, GridStore, UpdateGridItem};
use omnigate::rest;

fn req(name: &str, x: i32, y: i32) -> CreateGridItem {
    CreateGridItem { name: name.to_string(), description: format!("{} item", name), x, y }
}

fn no_change() -> UpdateGridItem {
    UpdateGridItem { name: None, description: None, x: None, y: None }
}

#[test]
fn creates_number_from_one_without_gaps() {
    let mut store = GridStore::new();
    for k in 1..=20u64 {
        let it = store.create(req(&format!("n{}", k), 0, 0)).unwrap();
        assert_eq!(it.id, k);
    }
    let ids: Vec<u64> = store.list().iter().map(|it| it.id).collect();
    assert_eq!(ids, (1..=20).collect::<Vec<u64>>());
}

#[test]
fn create_takes_max_plus_one_after_deletes() {
    let mut store = GridStore::new();
    for _ in 0..3 {
        store.create(req("a", 0, 0)).unwrap();
    }
    assert!(store.delete(2));
    assert_eq!(store.create(req("b", 0, 0)).unwrap().id, 4);
    assert!(store.delete(4));
    assert!(store.delete(3));
    assert_eq!(store.create(req("c", 0, 0)).unwrap().id, 2);
    let mut empty = GridStore::new();
    assert_eq!(empty.create(req("d", 0, 0)).unwrap().id, 1);
}

#[test]
fn create_keeps_fields() {
    let mut store = GridStore::new();
    let it = store.create(req("A", -5, 7)).unwrap();
    assert_eq!(it.name, "A");
    assert_eq!(it.description, "A item");
    assert_eq!((it.x, it.y), (-5, 7));
    let got = store.get(1).unwrap();
    assert_eq!(got.name, "A");
    assert_eq!(got.description, "A item");
    assert_eq!((got.x, got.y), (-5, 7));
}

#[test]
fn update_missing_id_changes_nothing() {
    let mut store = GridStore::new();
    store.create(req("A", 1, 2)).unwrap();
    let upd = UpdateGridItem { name: Some("Z".to_string()), description: None, x: Some(9), y: None };
    assert!(store.update(42, upd).is_none());
    let it = store.get(1).unwrap();
    assert_eq!(it.name, "A");
    assert_eq!((it.x, it.y), (1, 2));
    assert_eq!(store.len(), 1);
}

#[test]
fn empty_update_keeps_every_field() {
    let mut store = GridStore::new();
    store.create(req("A", 1, 2)).unwrap();
    let it = store.update(1, no_change()).unwrap();
    assert_eq!(it.id, 1);
    assert_eq!(it.name, "A");
    assert_eq!(it.description, "A item");
    assert_eq!((it.x, it.y), (1, 2));
}

#[test]
fn partial_update_changes_only_given_fields() {
    let mut store = GridStore::new();
    store.create(req("A", 1, 2)).unwrap();
    store.create(req("B", 3, 4)).unwrap();
    let upd = UpdateGridItem { name: None, description: Some("new".to_string()), x: None, y: Some(-8) };
    let it = store.update(2, upd).unwrap();
    assert_eq!(it.name, "B");
    assert_eq!(it.description, "new");
    assert_eq!((it.x, it.y), (3, -8));
    let first = store.get(1).unwrap();
    assert_eq!(first.description, "A item");
}

#[test]
fn delete_twice_reports_once() {
    let mut store = GridStore::new();
    store.create(req("A", 1, 2)).unwrap();
    store.create(req("B", 1, 2)).unwrap();
    assert!(store.delete(1));
    assert!(!store.delete(1));
    assert!(store.get(1).is_none());
    assert_eq!(store.len(), 1);
    assert!(!GridStore::new().delete(1));
}

#[test]
fn rest_round_trip() {
    let mut store = GridStore::new();
    let payload = CreateGridItem { name: "A".to_string(), description: "d".to_string(), x: 1, y: 2 };
    let (status, body) = rest::create(&mut store, payload);
    assert_eq!(status, 201);
    assert!(body.success);
    assert_eq!(body.message, "Successfully created grid item");
    let data = body.data.unwrap();
    assert_eq!(data.id, 1);
    assert_eq!(data.name, "A");
    assert_eq!(data.description, "d");
    assert_eq!((data.x, data.y), (1, 2));

    let got = rest::get_by_id(&store, 1);
    assert!(got.success);
    let d = got.data.unwrap();
    assert_eq!((d.id, d.name.as_str(), d.description.as_str(), d.x, d.y), (1, "A", "d", 1, 2));

    let del = rest::delete_by_id(&mut store, 1);
    assert!(del.success);
    assert_eq!(del.data, Some(()));
    assert_eq!(del.message, "Successfully deleted grid item");

    let after = rest::get_by_id(&store, 1);
    assert!(!after.success);
    assert!(after.data.is_none());
    assert_eq!(after.message, "Specified grid item not found");
}

#[test]
fn rest_list_and_update() {
    let mut store = GridStore::new();
    let empty = rest::list(&store);
    assert!(empty.success);
    assert_eq!(empty.data.unwrap().len(), 0);
    rest::create(&mut store, req("A", 1, 1));
    rest::create(&mut store, req("B", 2, 2));
    let all = rest::list(&store);
    assert_eq!(all.message, "获取网格项列表成功");
    let names: Vec<String> = all.data.unwrap().into_iter().map(|r| r.name).collect();
    assert_eq!(names, vec!["A".to_string(), "B".to_string()]);

    let upd = UpdateGridItem { name: Some("C".to_string()), description: None, x: None, y: None };
    let (status, body) = rest::update(&mut store, 2, upd);
    assert_eq!(status, 200);
    assert_eq!(body.message, "Successfully updated grid item");
    assert_eq!(body.data.unwrap().name, "C");

    let (status, body) = rest::update(&mut store, 9, no_change());
    assert_eq!(status, 404);
    assert!(!body.success);
    assert_eq!(body.message, "Specified grid item not found");

    let del = rest::delete_by_id(&mut store, 9);
    assert!(!del.success);
    assert!(del.data.is_none());
}

#[test]
fn health_is_stamped() {
    let h = rest::health_check(1_700_000_000);
    assert_eq!(h.status, "healthy");
    assert_eq!(h.message, "Server is running normally");
    assert_eq!(h.timestamp, 1_700_000_000);
}
