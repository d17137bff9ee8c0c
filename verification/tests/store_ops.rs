use nidavellir::db::{ProvideError, StoreFailure};
use nidavellir::error::Error;
use nidavellir::model::{
    create_environment, create_index, delete_environment, list_environments,
    EnvironmentIdBody, EnvironmentRequestBody, IndexRequestBody, IndexStatus,
};
use nidavellir::store::MemStore;

fn env_request(name: &str) -> EnvironmentRequestBody {
    EnvironmentRequestBody { name: name.to_string() }
}

fn index_request(environment: u128, index_type: &str) -> IndexRequestBody {
    IndexRequestBody {
        environment,
        index_type: index_type.to_string(),
        data_source: "cosmogony".to_string(),
        regions: vec!["fr".to_string(), "de".to_string()],
    }
}

#[test]
fn create_environment_records_the_allocated_port() {
    let mut store = MemStore::new();
    let body = create_environment(&mut store, env_request("dev1"), 9002).unwrap();
    let env = body.env.unwrap();
    assert_eq!(env.name, "dev1");
    assert_eq!(env.port, 9002);
    assert_eq!(env.indexes.len(), 0);
    assert_eq!(store.environments.len(), 1);
}

#[test]
fn creating_the_same_name_twice_yields_unique_violation() {
    let mut store = MemStore::new();
    create_environment(&mut store, env_request("dev1"), 9002).unwrap();
    let second = create_environment(&mut store, env_request("dev1"), 9003);
    match second {
        Err(Error::UniqueViolation { details }) => {
            assert_eq!(details, "Key (name)=(dev1) already exists.");
        }
        other => panic!("expected a unique violation, got {:?}", other.is_ok()),
    }
    assert_eq!(store.environments.len(), 1);
    assert_eq!(store.environments[0].port, 9002);
}

#[test]
fn create_index_on_unknown_environment_violates_the_model() {
    let mut store = MemStore::new();
    let outcome = create_index(&mut store, index_request(42, "poi"));
    match outcome {
        Err(Error::ModelViolation { details }) => {
            assert_eq!(
                details,
                "insert or update violates foreign key constraint (environment)"
            );
        }
        other => panic!("expected a model violation, got {:?}", other.is_ok()),
    }
    assert_eq!(store.environments.len(), 0);
}

#[test]
fn new_indexes_start_not_available_and_keep_their_data() {
    let mut store = MemStore::new();
    let env = create_environment(&mut store, env_request("dev1"), 9002)
        .unwrap()
        .env
        .unwrap();
    let body = create_index(&mut store, index_request(env.id, "addresses")).unwrap();
    let index = body.index.unwrap();
    assert_eq!(index.index_type, "addresses");
    assert_eq!(index.data_source, "cosmogony");
    assert_eq!(index.regions, vec!["fr".to_string(), "de".to_string()]);
    assert_eq!(index.status, IndexStatus::NotAvailable);
}

#[test]
fn listing_keeps_creation_order_and_counts_environments() {
    let mut store = MemStore::new();
    let a = create_environment(&mut store, env_request("dev1"), 9002)
        .unwrap()
        .env
        .unwrap();
    let b = create_environment(&mut store, env_request("dev2"), 9003)
        .unwrap()
        .env
        .unwrap();
    let first = create_index(&mut store, index_request(a.id, "addresses"))
        .unwrap()
        .index
        .unwrap();
    let second = create_index(&mut store, index_request(a.id, "streets"))
        .unwrap()
        .index
        .unwrap();
    let listing = list_environments(&store).unwrap();
    assert_eq!(listing.envs_count, 2);
    assert_eq!(listing.envs.len(), 2);
    assert_eq!(listing.envs[0].name, "dev1");
    assert_eq!(listing.envs[1].name, "dev2");
    let indexes = &listing.envs[0].indexes;
    assert_eq!(indexes.len(), 2);
    assert_eq!(indexes[0].id, first.id);
    assert_eq!(indexes[0].index_type, "addresses");
    assert_eq!(indexes[1].id, second.id);
    assert_eq!(indexes[1].index_type, "streets");
    assert_eq!(listing.envs[1].indexes.len(), 0);
}

#[test]
fn deleting_returns_the_row_and_unknown_ids_are_not_found() {
    let mut store = MemStore::new();
    let env = create_environment(&mut store, env_request("dev1"), 9002)
        .unwrap()
        .env
        .unwrap();
    let deleted = delete_environment(&mut store, EnvironmentIdBody { id: env.id })
        .unwrap()
        .env
        .unwrap();
    assert_eq!(deleted.id, env.id);
    assert_eq!(deleted.name, "dev1");
    assert_eq!(store.environments.len(), 0);
    let again = delete_environment(&mut store, EnvironmentIdBody { id: env.id });
    assert!(matches!(again, Err(Error::NotFound)));
}

#[test]
fn reading_by_id_returns_the_row_without_indexes() {
    let mut store = MemStore::new();
    let env = create_environment(&mut store, env_request("dev1"), 9002)
        .unwrap()
        .env
        .unwrap();
    create_index(&mut store, index_request(env.id, "addresses")).unwrap();
    let row = store.get_environment_by_id(env.id).unwrap();
    assert_eq!(row.id, env.id);
    assert_eq!(row.name, "dev1");
    assert_eq!(row.indexes.len(), 0);
    assert!(matches!(
        store.get_environment_by_id(9999),
        Err(ProvideError::NotFound)
    ));
}

#[test]
fn store_failures_map_onto_the_provider_taxonomy() {
    assert_eq!(
        ProvideError::from_failure(StoreFailure::RowNotFound),
        ProvideError::NotFound
    );
    let unique = ProvideError::from_failure(StoreFailure::Database {
        code: Some("23505".to_string()),
        message: "duplicate key value".to_string(),
        details: Some("Key (name)=(dev1) already exists.".to_string()),
    });
    assert_eq!(
        unique,
        ProvideError::UniqueViolation {
            details: "Key (name)=(dev1) already exists.".to_string()
        }
    );
    let fk = ProvideError::from_failure(StoreFailure::Database {
        code: Some("23503".to_string()),
        message: "violates foreign key constraint".to_string(),
        details: None,
    });
    assert_eq!(
        fk,
        ProvideError::ModelViolation { details: "violates foreign key constraint".to_string() }
    );
    let odd = ProvideError::from_failure(StoreFailure::Database {
        code: Some("42P01".to_string()),
        message: "relation does not exist".to_string(),
        details: None,
    });
    assert_eq!(
        odd,
        ProvideError::UnHandledError { source: "relation does not exist".to_string() }
    );
    let uncoded = ProvideError::from_failure(StoreFailure::Database {
        code: None,
        message: "broken".to_string(),
        details: None,
    });
    assert_eq!(uncoded, ProvideError::UnHandledError { source: "broken".to_string() });
    let other = ProvideError::from_failure(StoreFailure::Other {
        description: "connection reset".to_string(),
    });
    assert_eq!(other, ProvideError::UnHandledError { source: "connection reset".to_string() });
}

#[test]
fn error_messages_read_as_documented() {
    assert_eq!(Error::NotFound.message(), "Entity does not exist");
    assert_eq!(
        Error::UniqueViolation { details: "d".to_string() }.message(),
        "Operation violates uniqueness constraint: d"
    );
    assert_eq!(
        Error::ModelViolation { details: "m".to_string() }.message(),
        "Operation violates model: m"
    );
    assert_eq!(
        Error::UnhandledError { source: "s".to_string() }.message(),
        "UnHandled Error: s"
    );
    assert_eq!(
        Error::EngineError { msg: "down".to_string() }.message(),
        "Engine error: down"
    );
    assert_eq!(Error::NetworkIdMissing.message(), "Could not get network id");
    assert_eq!(
        Error::PortRangeExhausted.message(),
        "No available port in the scan window"
    );
    assert_eq!(
        Error::NoBaselineNetwork.message(),
        "No baseline network to allocate a subnet from"
    );
    assert_eq!(
        Error::ConfigError { msg: "bad".to_string() }.message(),
        "Configuration error: bad"
    );
    assert_eq!(Error::IOError { msg: "io".to_string() }.message(), "IO error: io");
}
