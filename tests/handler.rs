use guid_writer::handler::{
    handle, handle_with_id, health_check, route_of, AfterObject, Failure, Route, Start,
};
use guid_writer::identifier::Identifier;

fn counting_bytes() -> [u8; 16] {
    let mut b = [0u8; 16];
    for (i, x) in b.iter_mut().enumerate() {
        *x = i as u8;
    }
    b
}

const COUNTING_TEXT: &str = "00010203-0405-0607-0809-0a0b0c0d0e0f";

fn start_write(bucket: &str, table: &str) -> guid_writer::handler::PendingObject {
    match handle_with_id(Route::Default, bucket, table, Identifier::from_bytes(counting_bytes())) {
        Start::WriteObject(p) => p,
        Start::Respond(r) => panic!("unexpected answer {:?}", r),
    }
}

#[test]
fn route_health_path() {
    assert_eq!(route_of(&Some("/health".to_string())), Route::Health);
}

#[test]
fn route_root_and_others_default() {
    assert_eq!(route_of(&Some("/".to_string())), Route::Default);
    assert_eq!(route_of(&Some("/healthz".to_string())), Route::Default);
    assert_eq!(route_of(&Some("".to_string())), Route::Default);
    assert_eq!(route_of(&None), Route::Default);
}

#[test]
fn health_check_fixed_answer() {
    let r = health_check();
    assert_eq!(r.status_code, 200);
    assert_eq!(r.body, "{\"status\":\"healthy\"}");
}

#[test]
fn failure_messages_and_responses() {
    assert_eq!(Failure::ConfigMissing.message(), "Missing environment variables");
    let r = Failure::ConfigMissing.response();
    assert_eq!(r.status_code, 500);
    assert_eq!(r.body, "{\"error\":\"Missing environment variables\"}");
    let r = Failure::ObjectStoreWriteFailed.response();
    assert_eq!(r.status_code, 500);
    assert_eq!(r.body, "{\"error\":\"Failed to put object in S3\"}");
    let r = Failure::TableWriteFailed.response();
    assert_eq!(r.status_code, 500);
    assert_eq!(r.body, "{\"error\":\"Failed to put item in DynamoDB\"}");
}

#[test]
fn health_route_ignores_configuration() {
    for (bucket, table) in [("", ""), ("b", ""), ("", "t"), ("b", "t")] {
        match handle(Route::Health, bucket, table) {
            Start::Respond(r) => {
                assert_eq!(r.status_code, 200);
                assert_eq!(r.body, "{\"status\":\"healthy\"}");
            }
            Start::WriteObject(_) => panic!("the health route wrote"),
        }
    }
}

#[test]
fn missing_configuration_writes_nothing() {
    for (bucket, table) in [("", ""), ("b", ""), ("", "t")] {
        match handle(Route::Default, bucket, table) {
            Start::Respond(r) => {
                assert_eq!(r.status_code, 500);
                assert_eq!(r.body, "{\"error\":\"Missing environment variables\"}");
            }
            Start::WriteObject(_) => panic!("wrote without configuration"),
        }
    }
}

#[test]
fn identifier_text_is_hyphenated_lower_hex() {
    assert_eq!(Identifier::from_bytes(counting_bytes()).text(), COUNTING_TEXT);
    assert_eq!(
        Identifier::from_bytes([0xffu8; 16]).text(),
        "ffffffff-ffff-ffff-ffff-ffffffffffff"
    );
}

#[test]
fn random_identifiers_are_version_four_and_distinct() {
    let a = Identifier::new_random();
    let b = Identifier::new_random();
    assert_eq!(a.bytes[6] >> 4, 4);
    assert_eq!(a.bytes[8] >> 6, 2);
    let ta = a.text();
    assert_eq!(ta.len(), 36);
    assert_eq!(ta.as_bytes()[14], b'4');
    assert_ne!(ta, b.text());
}

#[test]
fn object_write_carries_identifier() {
    let p = start_write("bucket", "table");
    let w = p.request();
    assert_eq!(w.bucket, "bucket");
    assert_eq!(w.key, format!("{}.txt", COUNTING_TEXT));
    assert_eq!(w.body, COUNTING_TEXT.as_bytes().to_vec());
}

#[test]
fn both_writes_succeed_round_trip() {
    let p = start_write("bucket", "table");
    let key = p.request().key.clone();
    let item = match p.object_written(true) {
        AfterObject::WriteItem(item) => item,
        AfterObject::Respond(r) => panic!("unexpected answer {:?}", r),
    };
    assert_eq!(item.request().table, "table");
    assert_eq!(item.request().id, COUNTING_TEXT);
    assert_eq!(key, format!("{}.txt", item.request().id));
    let r = item.item_written(true);
    assert_eq!(r.status_code, 200);
    assert_eq!(r.body, format!("{{\"id\":\"{}\"}}", COUNTING_TEXT));
}

#[test]
fn object_failure_stops_before_table() {
    let p = start_write("bucket", "table");
    match p.object_written(false) {
        AfterObject::Respond(r) => {
            assert_eq!(r.status_code, 500);
            assert_eq!(r.body, "{\"error\":\"Failed to put object in S3\"}");
        }
        AfterObject::WriteItem(_) => panic!("table write after a failed object write"),
    }
}

#[test]
fn table_failure_answers_table_error() {
    let p = start_write("bucket", "table");
    let item = match p.object_written(true) {
        AfterObject::WriteItem(item) => item,
        AfterObject::Respond(r) => panic!("unexpected answer {:?}", r),
    };
    let r = item.item_written(false);
    assert_eq!(r.status_code, 500);
    assert_eq!(r.body, "{\"error\":\"Failed to put item in DynamoDB\"}");
}

#[test]
fn handle_draws_fresh_identifiers() {
    let a = match handle(Route::Default, "bucket", "table") {
        Start::WriteObject(p) => p.request().key.clone(),
        Start::Respond(r) => panic!("unexpected answer {:?}", r),
    };
    let b = match handle(Route::Default, "bucket", "table") {
        Start::WriteObject(p) => p.request().key.clone(),
        Start::Respond(r) => panic!("unexpected answer {:?}", r),
    };
    assert_eq!(a.len(), 40);
    assert!(a.ends_with(".txt"));
    assert_ne!(a, b);
}
