use pterodactyl_api::allocations::Allocation;
use pterodactyl_api::envelope::{empty_response, list_response, object_response};
use pterodactyl_api::error::Error;
use pterodactyl_api::json::Json;
use pterodactyl_api::locations::Location;
use pterodactyl_api::nodes::Node;
use pterodactyl_api::rate::{next_rate_limits, parse_header_number, rate_limits_from_headers, RateLimits};
use pterodactyl_api::users::User;

fn obj(members: Vec<(&str, Json)>) -> Json {
    Json::Object(members.into_iter().map(|(k, v)| (k.to_string(), v)).collect())
}

fn text(s: &str) -> Json {
    Json::Str(s.to_string())
}

fn location_attributes(id: i128, short: &str) -> Json {
    obj(vec![
        ("id", Json::Int(id)),
        ("short", text(short)),
        ("long", text("United States")),
        ("created_at", text("2023-01-01T00:00:00+00:00")),
        ("updated_at", text("2023-01-01T00:00:00+00:00")),
    ])
}

fn envelope(attributes: Json) -> Json {
    obj(vec![("object", text("location")), ("attributes", attributes)])
}

fn list_of(items: Vec<Json>) -> Json {
    obj(vec![
        ("object", text("list")),
        ("data", Json::Array(items)),
        ("meta", obj(vec![])),
    ])
}

fn panel_body() -> Json {
    obj(vec![(
        "errors",
        Json::Array(vec![obj(vec![
            ("code", text("NotFoundHttpException")),
            ("status", text("404")),
            ("detail", text("The requested resource could not be found on the server.")),
        ])]),
    )])
}

#[test]
fn get_location_scenario() {
    let body = Some(envelope(location_attributes(5, "us")));
    let r = object_response::<Location>(200, &body);
    let loc = r.expect("a location");
    assert_eq!(loc.id, 5);
    assert_eq!(loc.short, "us");
    assert_eq!(loc.long, "United States");
    assert_eq!(loc.created_at.year, 2023);
    assert_eq!(loc.created_at.month, 1);
    assert_eq!(loc.created_at.day, 1);
    assert_eq!(loc.updated_at.offset_seconds, 0);
}

#[test]
fn timestamp_fields_are_parsed() {
    let mut attrs = location_attributes(1, "de");
    if let Json::Object(ms) = &mut attrs {
        ms[3].1 = text("2024-02-29T13:45:07.25+02:00");
    }
    let loc = object_response::<Location>(200, &Some(envelope(attrs))).expect("a location");
    let t = loc.created_at;
    assert_eq!((t.year, t.month, t.day, t.hour, t.minute, t.second), (2024, 2, 29, 13, 45, 7));
    assert_eq!(t.nanosecond, 250_000_000);
    assert_eq!(t.offset_seconds, 7200);
}

#[test]
fn bad_timestamp_is_decode_error() {
    let mut attrs = location_attributes(1, "de");
    if let Json::Object(ms) = &mut attrs {
        ms[4].1 = text("yesterday");
    }
    let r = object_response::<Location>(200, &Some(envelope(attrs)));
    assert!(matches!(r, Err(Error::Decode)));
}

#[test]
fn delete_with_empty_body_succeeds() {
    assert!(matches!(empty_response(204, &None), Ok(())));
}

#[test]
fn list_keeps_order() {
    let body = Some(list_of(vec![
        envelope(location_attributes(3, "a")),
        envelope(location_attributes(1, "b")),
        envelope(location_attributes(2, "c")),
    ]));
    let locs = list_response::<Location>(200, &body).expect("locations");
    let ids: Vec<u32> = locs.iter().map(|l| l.id).collect();
    assert_eq!(ids, vec![3, 1, 2]);
    assert_eq!(locs[2].short, "c");
}

#[test]
fn empty_list_is_empty() {
    let locs = list_response::<Location>(200, &Some(list_of(vec![]))).expect("no locations");
    assert!(locs.is_empty());
}

#[test]
fn one_bad_item_fails_the_list() {
    let body = Some(list_of(vec![
        envelope(location_attributes(3, "a")),
        envelope(obj(vec![("id", text("x"))])),
    ]));
    assert!(matches!(list_response::<Location>(200, &body), Err(Error::Decode)));
}

#[test]
fn not_found_with_panel_body_is_panel_error() {
    let r = object_response::<Location>(404, &Some(panel_body()));
    match r {
        Err(Error::Panel(es)) => {
            assert_eq!(es.len(), 1);
            assert_eq!(es[0].code, "NotFoundHttpException");
            assert_eq!(es[0].status, "404");
        },
        other => panic!("unexpected {:?}", other),
    }
}

#[test]
fn not_found_with_other_body_is_http_error() {
    let r = object_response::<Location>(404, &Some(obj(vec![("message", text("gone"))])));
    assert!(matches!(r, Err(Error::Http(404))));
    let r = empty_response(404, &None);
    assert!(matches!(r, Err(Error::Http(404))));
}

#[test]
fn server_error_on_list_is_http_error() {
    let r = list_response::<User>(500, &Some(text("oops")));
    assert!(matches!(r, Err(Error::Http(500))));
}

#[test]
fn wrong_field_type_is_decode_error() {
    let attrs = obj(vec![
        ("id", text("5")),
        ("short", text("us")),
        ("long", text("United States")),
        ("created_at", text("2023-01-01T00:00:00+00:00")),
        ("updated_at", text("2023-01-01T00:00:00+00:00")),
    ]);
    let r = object_response::<Location>(200, &Some(envelope(attrs)));
    assert!(matches!(r, Err(Error::Decode)));
}

#[test]
fn unparsable_success_body_is_decode_error() {
    assert!(matches!(object_response::<Location>(200, &None), Err(Error::Decode)));
    assert!(matches!(list_response::<Location>(200, &Some(text("x"))), Err(Error::Decode)));
}

#[test]
fn id_out_of_range_is_decode_error() {
    let body = Some(envelope(location_attributes(4_294_967_296, "us")));
    assert!(matches!(object_response::<Location>(200, &body), Err(Error::Decode)));
    let body = Some(envelope(location_attributes(-1, "us")));
    assert!(matches!(object_response::<Location>(200, &body), Err(Error::Decode)));
}

#[test]
fn user_decodes_two_factor_and_uuid() {
    let attrs = obj(vec![
        ("id", Json::Int(1)),
        ("external_id", text("ext")),
        ("uuid", text("c4022c6c-9bf1-4a23-bff9-519cceb38335")),
        ("username", text("codeco")),
        ("email", text("codeco@file.properties")),
        ("first_name", text("Rihan")),
        ("last_name", text("Arfan")),
        ("language", text("en")),
        ("root_admin", Json::Bool(true)),
        ("2fa", Json::Bool(false)),
        ("created_at", text("2018-03-18T15:15:17+00:00")),
        ("updated_at", text("2018-10-16T21:51:21+00:00")),
    ]);
    let u = object_response::<User>(201, &Some(envelope(attrs))).expect("a user");
    assert_eq!(u.uuid, 0xc4022c6c_9bf1_4a23_bff9_519cceb38335u128);
    assert!(u.root_admin);
    assert!(!u.two_factor_enabled);
    assert_eq!(u.created_at.hour, 15);
}

#[test]
fn bad_uuid_is_decode_error() {
    let attrs = obj(vec![
        ("id", Json::Int(1)),
        ("external_id", text("ext")),
        ("uuid", text("not-a-uuid")),
        ("username", text("u")),
        ("email", text("e")),
        ("first_name", text("f")),
        ("last_name", text("l")),
        ("language", text("en")),
        ("root_admin", Json::Bool(true)),
        ("2fa", Json::Bool(false)),
        ("created_at", text("2018-03-18T15:15:17+00:00")),
        ("updated_at", text("2018-10-16T21:51:21+00:00")),
    ]);
    assert!(matches!(object_response::<User>(200, &Some(envelope(attrs))), Err(Error::Decode)));
}

#[test]
fn node_reads_disk_and_signed_overallocation() {
    let attrs = obj(vec![
        ("id", Json::Int(1)),
        ("uuid", text("1046d1d1-b8ef-4771-82b1-2b5946d33397")),
        ("public", Json::Bool(true)),
        ("name", text("Test")),
        ("description", text("Test")),
        ("location_id", Json::Int(1)),
        ("fqdn", text("pterodactyl.file.properties")),
        ("scheme", text("https")),
        ("behind_proxy", Json::Bool(false)),
        ("maintenance_mode", Json::Bool(false)),
        ("memory", Json::Int(2048)),
        ("memory_overallocate", Json::Int(-1)),
        ("disk", Json::Int(5000)),
        ("disk_overallocate", Json::Int(0)),
        ("upload_size", Json::Int(100)),
        ("daemon_listen", Json::Int(8080)),
        ("daemon_sftp", Json::Int(2022)),
        ("daemon_base", text("/srv/daemon-data")),
        ("created_at", text("2019-12-22T04:44:51+00:00")),
        ("updated_at", text("2019-12-22T04:44:51+00:00")),
    ]);
    let n = object_response::<Node>(200, &Some(envelope(attrs))).expect("a node");
    assert_eq!(n.disksize, 5000);
    assert_eq!(n.memory_overallocate, -1);
    assert_eq!(n.daemon_base, "/srv/daemon-data");
}

#[test]
fn allocation_optional_fields() {
    let a1 = obj(vec![
        ("id", Json::Int(1)),
        ("ip", text("45.86.168.218")),
        ("alias", Json::Null),
        ("port", Json::Int(25565)),
        ("assigned", Json::Bool(true)),
    ]);
    let a2 = obj(vec![
        ("id", Json::Int(2)),
        ("ip", text("45.86.168.218")),
        ("alias", text("mc")),
        ("port", Json::Int(25566)),
        ("notes", text("spare")),
        ("assigned", Json::Bool(false)),
    ]);
    let body = Some(list_of(vec![envelope(a1), envelope(a2)]));
    let v: Vec<Allocation> = list_response::<Allocation>(200, &body).expect("allocations");
    assert_eq!(v[0].alias, None);
    assert_eq!(v[0].notes, None);
    assert_eq!(v[1].alias.as_deref(), Some("mc"));
    assert_eq!(v[1].notes.as_deref(), Some("spare"));
    assert_eq!(v[1].port, 25566);
}

#[test]
fn mistyped_optional_field_is_decode_error() {
    let a = obj(vec![
        ("id", Json::Int(1)),
        ("ip", text("1.2.3.4")),
        ("alias", Json::Int(3)),
        ("port", Json::Int(1)),
        ("assigned", Json::Bool(true)),
    ]);
    assert!(matches!(object_response::<Allocation>(200, &Some(envelope(a))), Err(Error::Decode)));
}

#[test]
fn header_numbers() {
    assert_eq!(parse_header_number(b"240"), Some(240));
    assert_eq!(parse_header_number(b"0"), Some(0));
    assert_eq!(parse_header_number(b"4294967295"), Some(u32::MAX));
    assert_eq!(parse_header_number(b"4294967296"), None);
    assert_eq!(parse_header_number(b"12a"), None);
    assert_eq!(parse_header_number(b""), None);
}

#[test]
fn snapshot_replaced_only_by_complete_headers() {
    let prior = Some(RateLimits { limit: 240, remaining: 10 });
    let now = next_rate_limits(prior, Some(b"240"), Some(b"9"));
    assert_eq!(now, Some(RateLimits { limit: 240, remaining: 9 }));
    assert_eq!(next_rate_limits(prior, None, Some(b"9")), prior);
    assert_eq!(next_rate_limits(prior, Some(b"x"), Some(b"9")), prior);
    assert_eq!(rate_limits_from_headers(Some(b"60"), Some(b"60")), Some(RateLimits { limit: 60, remaining: 60 }));
}
