use vehicle_manager::repo::InMemoryVehicleRepo;
use vehicle_manager::vehicle::Vehicle;

fn vehicle(manufacturer: &str, model: &str, year: &str) -> Vehicle {
    Vehicle {
        id: None,
        manufacturer: manufacturer.to_string(),
        model: model.to_string(),
        year: year.to_string(),
    }
}

#[test]
fn create_then_fetch_round_trip() {
    let mut repo = InMemoryVehicleRepo::new();
    let vid = repo.post_vehicle(vehicle("Toyota", "Corolla", "2021")).unwrap();
    let fetched = repo.get_vehicle(&vid.id).unwrap();
    assert_eq!(fetched.id, Some(vid.id.clone()));
    assert_eq!(fetched.manufacturer, "Toyota");
    assert_eq!(fetched.model, "Corolla");
    assert_eq!(fetched.year, "2021");
}

#[test]
fn generated_id_is_hyphenated_uuid_text() {
    let mut repo = InMemoryVehicleRepo::new();
    let vid = repo.post_vehicle(vehicle("Toyota", "Corolla", "2021")).unwrap();
    assert_eq!(vid.id.len(), 36);
    assert_eq!(vid.id.chars().filter(|c| *c == '-').count(), 4);
}

#[test]
fn client_supplied_id_is_discarded() {
    let mut repo = InMemoryVehicleRepo::new();
    let mut v = vehicle("Toyota", "Corolla", "2021");
    v.id = Some("client-chosen".to_string());
    let vid = repo.post_vehicle(v).unwrap();
    assert_ne!(vid.id, "client-chosen");
    assert!(repo.get_vehicle(&"client-chosen".to_string()).is_none());
    assert_eq!(repo.get_vehicle(&vid.id).unwrap().id, Some(vid.id.clone()));
}

#[test]
fn identical_payloads_get_distinct_ids() {
    let mut repo = InMemoryVehicleRepo::new();
    let first = repo.post_vehicle(vehicle("Toyota", "Corolla", "2021")).unwrap();
    let second = repo.post_vehicle(vehicle("Toyota", "Corolla", "2021")).unwrap();
    assert_ne!(first.id, second.id);
    assert!(repo.get_vehicle(&first.id).is_some());
    assert!(repo.get_vehicle(&second.id).is_some());
    assert_eq!(repo.get_vehicles().len(), 2);
}

#[test]
fn absent_id_returns_none() {
    let mut repo = InMemoryVehicleRepo::new();
    repo.post_vehicle(vehicle("Toyota", "Corolla", "2021")).unwrap();
    let never_created = uuid::Uuid::new_v4().to_string();
    assert!(repo.get_vehicle(&never_created).is_none());
}

#[test]
fn absent_id_on_empty_repository_returns_none() {
    let repo = InMemoryVehicleRepo::new();
    assert!(repo.get_vehicle(&"anything".to_string()).is_none());
}

#[test]
fn snapshot_mutation_leaves_repository_untouched() {
    let mut repo = InMemoryVehicleRepo::new();
    let vid = repo.post_vehicle(vehicle("Toyota", "Corolla", "2021")).unwrap();
    let mut snapshot = repo.get_vehicles();
    snapshot[0].manufacturer = "Changed".to_string();
    snapshot.clear();
    let again = repo.get_vehicles();
    assert_eq!(again.len(), 1);
    assert_eq!(again[0].manufacturer, "Toyota");
    assert_eq!(repo.get_vehicle(&vid.id).unwrap().manufacturer, "Toyota");
}

#[test]
fn many_creates_each_independently_retrievable() {
    let mut repo = InMemoryVehicleRepo::new();
    let mut ids: Vec<(String, String)> = Vec::new();
    for i in 0..20 {
        let model = format!("Model{i:02}");
        let vid = repo.post_vehicle(vehicle("Toyota", model.as_str(), "2021")).unwrap();
        ids.push((vid.id, model));
    }
    assert_eq!(repo.get_vehicles().len(), 20);
    for (id, model) in &ids {
        let fetched = repo.get_vehicle(id).unwrap();
        assert_eq!(fetched.model, *model);
        assert_eq!(fetched.id, Some(id.clone()));
    }
}

#[test]
fn default_repository_is_empty() {
    let repo = InMemoryVehicleRepo::default();
    assert!(repo.get_vehicles().is_empty());
}
