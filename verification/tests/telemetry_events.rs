use proxy_core::events::{build_event, daily_active_data, daily_summary, merge_fields, put_field, EventFacts};
use proxy_core::json::{field, is_well_formed, render, text, Json, JsonField};
use proxy_core::platform::Platform;
use proxy_core::telemetry::{
    get_device_id_file_path, get_or_generate_device_id, init_axiom_client, read_device_id,
    track_connection_attempt, track_daily_active, track_feature_usage, update_proxy_mode,
    update_uptime, DeviceIdSource, Telemetry, TelemetryConfig,
};
use proxy_core::uptime::{get_elapsed_time, AppState};

fn started() -> Telemetry {
    let mut ctx = Telemetry::new(0);
    let config = TelemetryConfig { api_token: "t".to_string(), dataset: "d".to_string(), org_id: None };
    init_axiom_client(&mut ctx, config, 0).unwrap();
    ctx
}

fn facts(user: Option<&str>, ip: Option<&str>) -> EventFacts {
    EventFacts {
        time: "2024-05-01T00:00:00+00:00".to_string(),
        event_type: "app_start".to_string(),
        app_version: "0.5.2".to_string(),
        platform: Platform::Linux,
        device_id: "dev".to_string(),
        client_ip: ip.map(|s| s.to_string()),
        user_id: user.map(|s| s.to_string()),
    }
}

#[test]
fn no_event_before_telemetry_is_started() {
    let ctx = Telemetry::new(0);
    assert!(build_event(&ctx, &facts(None, None), vec![]).is_none());
}

#[test]
fn plain_event() {
    let event = build_event(&started(), &facts(None, None), vec![]).unwrap();
    assert_eq!(
        render(&event).unwrap(),
        "{\n  \"_time\": \"2024-05-01T00:00:00+00:00\",\n  \"event_type\": \"app_start\",\n  \"source\": \"rust\",\n  \"app_version\": \"0.5.2\",\n  \"os\": \"linux\",\n  \"device_id\": \"dev\"\n}"
    );
}

#[test]
fn event_reports_users_by_digest() {
    let event = build_event(&started(), &facts(Some("abc"), Some("1.2.3.4")), vec![]).unwrap();
    let doc: serde_json::Value = serde_json::from_str(&render(&event).unwrap()).unwrap();
    assert_eq!(
        doc["user_id_hash"],
        "ba7816bf8f01cfea414140de5dae2223b00361a396177a9cb410ff61f20015ad"
    );
    assert_eq!(doc["client_ip"], "1.2.3.4");
    assert!(doc.get("user_id").is_none());
}

#[test]
fn event_carries_usage_that_tells_something() {
    let mut ctx = started();
    update_uptime(&mut ctx, 120, 1);
    update_proxy_mode(&mut ctx, "pac", 2);
    track_feature_usage(&mut ctx, "pac", 3);
    track_connection_attempt(&mut ctx, false, 4);
    let extra = vec![field("event_type", text("override")), field("extra", Json::Bool(true))];
    let event = build_event(&ctx, &facts(None, None), extra).unwrap();
    let doc: serde_json::Value = serde_json::from_str(&render(&event).unwrap()).unwrap();
    assert_eq!(doc["uptime_seconds"], 120);
    assert_eq!(doc["proxy_mode"], "pac");
    assert_eq!(doc["features_used"][0], "pac");
    assert_eq!(doc["connection_attempts"], 1);
    assert!(doc.get("connection_successes").is_none());
    assert_eq!(doc["event_type"], "override");
    assert_eq!(doc["extra"], true);
    let keys: Vec<&String> = doc.as_object().unwrap().keys().collect();
    assert_eq!(keys[1], "event_type");
    assert_eq!(*keys.last().unwrap(), "extra");
}

#[test]
fn fields_are_put_in_place_or_at_the_end() {
    let mut fields: Vec<JsonField> = vec![field("a", text("1")), field("b", text("2"))];
    put_field(&mut fields, field("a", text("3")));
    put_field(&mut fields, field("c", text("4")));
    let names: Vec<&str> = fields.iter().map(|f| f.name.as_str()).collect();
    assert_eq!(names, vec!["a", "b", "c"]);
    merge_fields(&mut fields, vec![field("c", text("5")), field("d", text("6")), field("c", text("7"))]);
    let object = Json::Object(fields);
    assert_eq!(
        render(&object).unwrap(),
        "{\n  \"a\": \"3\",\n  \"b\": \"2\",\n  \"c\": \"7\",\n  \"d\": \"6\"\n}"
    );
}

#[test]
fn values_with_repeated_names_are_not_printed() {
    let twice = Json::Object(vec![field("a", Json::Null), field("a", Json::Int(1))]);
    assert!(!is_well_formed(&twice));
    assert_eq!(render(&twice), None);
    let nested = Json::Array(vec![Json::Int(1), twice]);
    assert!(!is_well_formed(&nested));
    let fine = Json::Array(vec![
        Json::Object(vec![field("a", Json::Null), field("b", Json::Int(-7))]),
        Json::Object(vec![field("a", Json::Bool(false))]),
    ]);
    assert!(is_well_formed(&fine));
    assert_eq!(
        render(&fine).unwrap(),
        "[\n  {\n    \"a\": null,\n    \"b\": -7\n  },\n  {\n    \"a\": false\n  }\n]"
    );
}

#[test]
fn daily_summary_data() {
    let mut ctx = started();
    track_daily_active(&mut ctx, "2024-05-01");
    track_connection_attempt(&mut ctx, true, 1);
    let summary = Json::Object(daily_summary(&ctx, "2024-05-01"));
    assert_eq!(
        render(&summary).unwrap(),
        "{\n  \"uptime_seconds\": 0,\n  \"proxy_mode\": null,\n  \"features_used\": [],\n  \"connection_attempts\": 1,\n  \"connection_successes\": 1,\n  \"is_daily_active\": true,\n  \"date\": \"2024-05-01\"\n}"
    );
    let next_day = Json::Object(daily_summary(&ctx, "2024-05-02"));
    assert!(render(&next_day).unwrap().contains("\"is_daily_active\": false"));
    let active = Json::Object(daily_active_data("2024-05-01"));
    assert_eq!(
        render(&active).unwrap(),
        "{\n  \"date\": \"2024-05-01\",\n  \"is_daily_active\": true\n}"
    );
}

#[test]
fn device_identifier() {
    let id = "018f3c2e-7b1a-7c3d-9e4f-0123456789ab";
    assert_eq!(read_device_id(&format!("  {}\n", id)), Some(id.to_string()));
    assert_eq!(read_device_id(""), None);
    assert_eq!(read_device_id("   \n"), None);
    assert_eq!(read_device_id("not-a-uuid"), None);

    let mut ctx = Telemetry::new(0);
    let (chosen, source) = get_or_generate_device_id(&mut ctx, Some("garbage"), id);
    assert_eq!((chosen.as_str(), source), (id, DeviceIdSource::Fresh));
    let (again, source) = get_or_generate_device_id(&mut ctx, None, "another");
    assert_eq!((again.as_str(), source), (id, DeviceIdSource::Cache));

    let mut ctx = Telemetry::new(0);
    let stored = "6ba7b810-9dad-11d1-80b4-00c04fd430c8\n";
    let (chosen, source) = get_or_generate_device_id(&mut ctx, Some(stored), id);
    assert_eq!((chosen.as_str(), source), ("6ba7b810-9dad-11d1-80b4-00c04fd430c8", DeviceIdSource::File));
    assert_eq!(ctx.device_id, Some("6ba7b810-9dad-11d1-80b4-00c04fd430c8".to_string()));

    let mut ctx = Telemetry::new(0);
    let (chosen, source) = get_or_generate_device_id(&mut ctx, None, id);
    assert_eq!((chosen.as_str(), source), (id, DeviceIdSource::Fresh));
}

#[test]
fn device_identifier_file_place() {
    assert_eq!(
        get_device_id_file_path(Platform::MacOs, Some("/Users/me"), None),
        Some(vec![
            "/Users/me".to_string(),
            "Library".to_string(),
            "Application Support".to_string(),
            "v2rayx.shaonhuang".to_string(),
            "device_id.txt".to_string()
        ])
    );
    assert_eq!(
        get_device_id_file_path(Platform::Linux, Some("/home/me"), Some("app")),
        Some(vec!["/home/me".to_string(), ".config".to_string(), "app".to_string(), "device_id.txt".to_string()])
    );
    assert_eq!(
        get_device_id_file_path(Platform::Windows, Some("C:\\Users\\me\\AppData"), Some("app")),
        Some(vec!["C:\\Users\\me\\AppData".to_string(), "app".to_string(), "device_id.txt".to_string()])
    );
    assert_eq!(get_device_id_file_path(Platform::Linux, None, Some("app")), None);
    assert_eq!(get_device_id_file_path(Platform::Other, Some("/x"), None), None);
}

#[test]
fn elapsed_time() {
    let state = AppState::new(1_000);
    assert_eq!(get_elapsed_time(&state, 1_000), "0");
    assert_eq!(get_elapsed_time(&state, 4_605), "3605");
    assert_eq!(get_elapsed_time(&state, 990), "-10");
    let early = AppState::new(i64::MIN);
    assert_eq!(get_elapsed_time(&early, i64::MAX), "18446744073709551615");
    let late = AppState::new(i64::MAX);
    assert_eq!(get_elapsed_time(&late, i64::MIN), "-18446744073709551615");
}
