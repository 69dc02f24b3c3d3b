use price_feed::amount::Amount;
use price_feed::fetcher::{snapshot_at, Fetched};
use price_feed::provider::{DexScreenerResponse, Pair, Quote};
use price_feed::server::{
    get_prices, health_check, health_reply, prices_reply, AppError, AppState, Body, Endpoints,
    ErrorResponse, HealthStatus, Reply, SharedFile, BIND_ADDRESS, HEALTH_PATH, PRICES_FILE,
    PRICES_PATH,
};
use price_feed::snapshot::PriceSnapshot;

fn sample() -> PriceSnapshot {
    PriceSnapshot {
        chain_type: "sui".to_string(),
        price_usd: Amount::from_bits(0.56789f64.to_bits()),
        price_native: Amount::from_bits(0.001234f64.to_bits()),
        market_cap: Amount::from_bits(1234567.89f64.to_bits()),
        fdv: Amount::from_bits(9876543.21f64.to_bits()),
        last_updated: "2024-01-01T00:00:00+00:00".to_string(),
    }
}

#[test]
fn health_payload_is_fixed() {
    let expected = HealthStatus {
        status: "ok".to_string(),
        message: "API is running".to_string(),
        endpoints: Endpoints { health: "/".to_string(), prices: "/prices".to_string() },
    };
    assert_eq!(health_check(), expected);
    assert_eq!(health_check(), health_check());
    assert_eq!(health_reply(), Reply { status: 200, body: Body::Health(expected) });
}

#[test]
fn missing_file_is_404_file_not_found() {
    let reply = prices_reply(SharedFile::Unreadable("No such file or directory".to_string()));
    assert_eq!(reply.status, 404);
    assert_eq!(
        reply.body,
        Body::Error(ErrorResponse {
            error: "FILE_NOT_FOUND".to_string(),
            message: "Price data not available yet. Worker might not have run. Details: No such file or directory"
                .to_string(),
        })
    );
}

#[test]
fn broken_file_is_500_parse_error() {
    let reply = prices_reply(SharedFile::Invalid("expected value at line 1 column 1".to_string()));
    assert_eq!(reply.status, 500);
    assert_eq!(
        reply.body,
        Body::Error(ErrorResponse {
            error: "PARSE_ERROR".to_string(),
            message: "Failed to parse price data. Details: expected value at line 1 column 1"
                .to_string(),
        })
    );
}

#[test]
fn error_answers() {
    let not_found = AppError::FileNotFound("x".to_string()).into_response();
    assert_eq!(not_found.status, 404);
    assert_eq!(not_found.body.error, "FILE_NOT_FOUND");
    assert_eq!(
        not_found.body.message,
        "Price data not available yet. Worker might not have run. Details: x"
    );
    let parse = AppError::ParseError("".to_string()).into_response();
    assert_eq!(parse.status, 500);
    assert_eq!(parse.body.error, "PARSE_ERROR");
    assert_eq!(parse.body.message, "Failed to parse price data. Details: ");
}

#[test]
fn get_prices_maps_each_reading() {
    assert_eq!(
        get_prices(SharedFile::Unreadable("a".to_string())),
        Err(AppError::FileNotFound("a".to_string()))
    );
    assert_eq!(
        get_prices(SharedFile::Invalid("b".to_string())),
        Err(AppError::ParseError("b".to_string()))
    );
    assert_eq!(get_prices(SharedFile::Snapshot(sample())), Ok(sample()));
}

#[test]
fn snapshot_is_served_field_for_field() {
    let reply = prices_reply(SharedFile::Snapshot(sample()));
    assert_eq!(reply, Reply { status: 200, body: Body::Prices(sample()) });
}

#[test]
fn repeated_requests_get_the_same_answer() {
    let first = prices_reply(SharedFile::Snapshot(sample()));
    let second = prices_reply(SharedFile::Snapshot(sample()));
    assert_eq!(first, second);
    let first = prices_reply(SharedFile::Unreadable("gone".to_string()));
    let second = prices_reply(SharedFile::Unreadable("gone".to_string()));
    assert_eq!(first, second);
}

#[test]
fn what_the_fetcher_saves_is_what_the_server_serves() {
    let pair = Pair {
        chain_id: "sui".to_string(),
        price_native: Quote::Numeric(Amount::from_bits(0.001234f64.to_bits())),
        price_usd: Quote::Numeric(Amount::from_bits(0.567890f64.to_bits())),
        market_cap: Some(Amount::from_bits(1234567.89f64.to_bits())),
        fdv: Some(Amount::from_bits(9876543.21f64.to_bits())),
    };
    let fetched = Fetched::Answered {
        status: 200,
        response: DexScreenerResponse { schema_version: "1.0.0".to_string(), pairs: vec![pair] },
    };
    let saved = snapshot_at(&fetched, "2024-01-01T00:00:00+00:00".to_string()).unwrap();
    assert_eq!(saved, sample());
    let reply = prices_reply(SharedFile::Snapshot(saved.clone()));
    assert_eq!(reply.status, 200);
    assert_eq!(reply.body, Body::Prices(saved));
}

#[test]
fn server_setup() {
    assert_eq!(AppState::standard().prices_file_path, "../worker/prices.json");
    assert_eq!(PRICES_FILE, "../worker/prices.json");
    assert_eq!(BIND_ADDRESS, "0.0.0.0:3000");
    assert_eq!(HEALTH_PATH, "/");
    assert_eq!(PRICES_PATH, "/prices");
}

#[test]
fn snapshot_survives_the_shared_file() {
    let saved = sample();
    let mut object = serde_json::Map::new();
    object.insert("chain_type".to_string(), serde_json::Value::from(saved.chain_type.clone()));
    object.insert(
        "price_usd".to_string(),
        serde_json::Value::from(f64::from_bits(saved.price_usd.to_bits())),
    );
    object.insert(
        "price_native".to_string(),
        serde_json::Value::from(f64::from_bits(saved.price_native.to_bits())),
    );
    object.insert(
        "market_cap".to_string(),
        serde_json::Value::from(f64::from_bits(saved.market_cap.to_bits())),
    );
    object.insert("fdv".to_string(), serde_json::Value::from(f64::from_bits(saved.fdv.to_bits())));
    object
        .insert("last_updated".to_string(), serde_json::Value::from(saved.last_updated.clone()));
    let text = serde_json::to_string_pretty(&serde_json::Value::Object(object)).unwrap();
    assert!(text.contains("\"chain_type\": \"sui\""));
    assert!(text.contains("0.56789"));

    let read: serde_json::Value = serde_json::from_str(&text).unwrap();
    let number = |key: &str| Amount::from_bits(read[key].as_f64().unwrap().to_bits());
    let loaded = PriceSnapshot {
        chain_type: read["chain_type"].as_str().unwrap().to_string(),
        price_usd: number("price_usd"),
        price_native: number("price_native"),
        market_cap: number("market_cap"),
        fdv: number("fdv"),
        last_updated: read["last_updated"].as_str().unwrap().to_string(),
    };
    let reply = prices_reply(SharedFile::Snapshot(loaded));
    assert_eq!(reply, Reply { status: 200, body: Body::Prices(saved) });
}
