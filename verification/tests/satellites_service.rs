use planets_federation::graphql::{
    Date, LifeExists, Query, QueryError, Representation, Satellite, SatelliteEntity,
    resolve_satellite_fields,
};
use planets_federation::guard::{Role, RoleGuard};

fn entity(
    id: i32,
    planet_id: i32,
    name: &str,
    life_exists: &str,
    date: Option<Date>,
) -> SatelliteEntity {
    SatelliteEntity {
        id,
        planet_id,
        name: name.to_string(),
        life_exists: life_exists.to_string(),
        first_spacecraft_landing_date: date,
    }
}

fn fixture() -> Vec<SatelliteEntity> {
    vec![
        entity(
            1,
            1,
            "Moon",
            "OpenQuestion",
            Some(Date { year: 1959, month: 9, day: 13 }),
        ),
        entity(2, 2, "Phobos", "NoData", None),
        entity(3, 1, "Luna City Relay", "Yes", None),
    ]
}

#[test]
fn satellites_maps_all_rows_in_storage_order() {
    let rows = fixture();
    let sats = Query.satellites(&rows).unwrap();
    assert_eq!(sats.len(), 3);
    assert_eq!(sats[0].id, "1");
    assert_eq!(sats[0].name, "Moon");
    assert_eq!(sats[0].life_exists, LifeExists::OpenQuestion);
    assert_eq!(
        sats[0].first_spacecraft_landing_date,
        Some(Date { year: 1959, month: 9, day: 13 })
    );
    assert_eq!(sats[1].id, "2");
    assert_eq!(sats[1].life_exists, LifeExists::NoData);
    assert_eq!(sats[2].id, "3");
    assert_eq!(sats[2].life_exists, LifeExists::Yes);
}

#[test]
fn satellites_fails_loudly_on_unknown_stored_text() {
    let mut rows = fixture();
    rows.push(entity(4, 1, "Mystery", "Maybe", None));
    match Query.satellites(&rows) {
        Err(QueryError::UnknownLifeExists(t)) => assert_eq!(t, "Maybe"),
        _ => panic!("an unrecognized stored text must fail with the text echoed"),
    }
}

#[test]
fn satellite_missing_id_is_null_not_error() {
    let rows = fixture();
    let found = Query.satellite(&rows, "999".to_string()).unwrap();
    assert!(found.is_none());
}

#[test]
fn satellite_malformed_id_is_fatal_parse_error() {
    let rows = fixture();
    match Query.satellite(&rows, "not-a-number".to_string()) {
        Err(QueryError::IdParse(t)) => assert_eq!(t, "not-a-number"),
        _ => panic!("a malformed id must be a fatal parse error"),
    }
}

#[test]
fn satellite_found_by_id() {
    let rows = fixture();
    let found = Query.satellite(&rows, "2".to_string()).unwrap().unwrap();
    assert_eq!(found.id, "2");
    assert_eq!(found.name, "Phobos");
    assert_eq!(found.life_exists, LifeExists::NoData);
    assert_eq!(found.first_spacecraft_landing_date, None);
}

#[test]
fn entity_resolution_preserves_order() {
    let reps = vec![
        Representation { id: "1".to_string() },
        Representation { id: "2".to_string() },
    ];
    let stubs = Query.resolve_entities(&reps);
    assert_eq!(stubs.len(), 2);
    assert_eq!(stubs[0].id, "1");
    assert_eq!(stubs[1].id, "2");
}

#[test]
fn stub_resolves_satellites_by_foreign_key_in_storage_order() {
    let rows = fixture();
    let stub = Query.get_planet_by_id("1".to_string());
    let sats = stub.satellites(&rows).unwrap();
    assert_eq!(sats.len(), 2);
    assert_eq!(sats[0].name, "Moon");
    assert_eq!(sats[1].name, "Luna City Relay");
}

#[test]
fn stub_with_no_satellites_resolves_to_empty_list() {
    let rows = fixture();
    let stub = Query.get_planet_by_id("42".to_string());
    let sats = stub.satellites(&rows).unwrap();
    assert!(sats.is_empty());
}

#[test]
fn stub_with_malformed_id_is_fatal_parse_error() {
    let rows = fixture();
    let stub = Query.get_planet_by_id("abc".to_string());
    match stub.satellites(&rows) {
        Err(QueryError::IdParse(t)) => assert_eq!(t, "abc"),
        _ => panic!("a malformed stub id must be a fatal parse error"),
    }
}

#[test]
fn stub_construction_keeps_the_key() {
    let stub = Query.get_planet_by_id("7".to_string());
    assert_eq!(stub.id(), "7");
}

#[test]
fn empty_store_resolves_to_empty_list() {
    let rows: Vec<SatelliteEntity> = Vec::new();
    let sats = Query.satellites(&rows).unwrap();
    assert!(sats.is_empty());
    assert!(Query.satellite(&rows, "1".to_string()).unwrap().is_none());
}

#[test]
fn entity_resolution_of_no_representations_is_empty() {
    let stubs = Query.resolve_entities(&Vec::new());
    assert!(stubs.is_empty());
}

#[test]
fn life_exists_text_table_round_trips() {
    for l in [LifeExists::Yes, LifeExists::OpenQuestion, LifeExists::NoData] {
        let text = l.as_text();
        assert_eq!(LifeExists::from_text(&text), Some(l));
    }
    assert_eq!(LifeExists::from_text("BadValue"), None);
    assert_eq!(LifeExists::from_text(""), None);
}

#[test]
fn guard_admits_admin_only() {
    let guard = RoleGuard::new(Role::Admin);
    assert!(guard.check(Some(Role::Admin)).is_ok());
    let denied = guard.check(Some(Role::User)).unwrap_err();
    assert_eq!(denied.message, "Forbidden");
    let missing = guard.check(None).unwrap_err();
    assert_eq!(missing.message, "Forbidden");
}

#[test]
fn guarded_field_admin_reads_value() {
    let sat = Satellite {
        id: "1".to_string(),
        name: "Moon".to_string(),
        life_exists: LifeExists::OpenQuestion,
        first_spacecraft_landing_date: Some(Date { year: 1959, month: 9, day: 13 }),
    };
    let response = resolve_satellite_fields(&sat, Some(Role::Admin));
    assert_eq!(response.life_exists, Ok(LifeExists::OpenQuestion));
    assert_eq!(response.id, "1");
    assert_eq!(response.name, "Moon");
    assert_eq!(
        response.first_spacecraft_landing_date,
        Some(Date { year: 1959, month: 9, day: 13 })
    );
}

#[test]
fn guarded_field_denied_but_siblings_resolve() {
    let sat = Satellite {
        id: "1".to_string(),
        name: "Moon".to_string(),
        life_exists: LifeExists::OpenQuestion,
        first_spacecraft_landing_date: None,
    };
    for ctx in [None, Some(Role::User)] {
        let response = resolve_satellite_fields(&sat, ctx);
        match &response.life_exists {
            Err(e) => assert_eq!(e.message, "Forbidden"),
            Ok(_) => panic!("a missing or non-admin role must be denied"),
        }
        assert_eq!(response.id, "1");
        assert_eq!(response.name, "Moon");
        assert_eq!(response.first_spacecraft_landing_date, None);
    }
}
