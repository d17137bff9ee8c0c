use nidavellir::client::get_graphql_create_index;
use nidavellir::db;
use nidavellir::docker::{format_container, format_image, format_network, registry_http_addr};
use nidavellir::model::{default_status, IndexRequestBody, IndexStatus};
use nidavellir::text::{i32_string, u128_string, u32_string};
use nidavellir::utils::get_service_url;

#[test]
fn names_are_formatted_as_the_engine_expects() {
    assert_eq!(format_image("localhost:5000", "mimir", "1.2"), "localhost:5000/mimir:1.2");
    assert_eq!(format_container("api", "dev1"), "dev1_api");
    assert_eq!(format_network("dev1"), "dev1_default");
}

#[test]
fn registry_defaults_when_nothing_is_configured() {
    assert_eq!(registry_http_addr(None), "localhost:5000");
    assert_eq!(registry_http_addr(Some("registry:443".to_string())), "registry:443");
}

#[test]
fn decimal_rendering_is_exact() {
    assert_eq!(u32_string(0), "0");
    assert_eq!(u32_string(9002), "9002");
    assert_eq!(u32_string(4294967295), "4294967295");
    assert_eq!(
        u128_string(340282366920938463463374607431768211455),
        "340282366920938463463374607431768211455"
    );
    assert_eq!(i32_string(-2147483648), "-2147483648");
    assert_eq!(i32_string(17), "17");
}

#[test]
fn service_urls_point_at_the_environment() {
    assert_eq!(get_service_url(9002), "http://localhost:9002/mimir/graphql");
    assert_eq!(get_service_url(-5), "http://localhost:-5/mimir/graphql");
}

#[test]
fn the_index_creation_query_carries_the_first_region() {
    let request = IndexRequestBody {
        environment: 7,
        index_type: "addresses".to_string(),
        data_source: "bano".to_string(),
        regions: vec!["fr".to_string(), "de".to_string()],
    };
    let body = get_graphql_create_index(&request);
    let expected = r#"{ "query":  "mutation createIndex($index: IndexRequestBody!) { createIndex(index: $index) { index { indexId } } }" , "variables": { "index": { "indexType": "addresses", "dataSource": "bano", "region": "fr" } } }"#;
    assert_eq!(body, expected);
}

#[test]
fn statuses_start_not_available_and_convert_both_ways() {
    assert_eq!(default_status(), IndexStatus::NotAvailable);
    assert_eq!(
        IndexStatus::from_db(db::IndexStatus::ProcessingError),
        IndexStatus::ProcessingError
    );
    assert_eq!(IndexStatus::Available.to_db(), db::IndexStatus::Available);
    assert_eq!(
        IndexStatus::from_db(IndexStatus::Indexed.to_db()),
        IndexStatus::Indexed
    );
}
