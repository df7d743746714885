use pterodactyl_api::application::{Application, ApplicationBuilder, Method, Request};

fn app() -> Application {
    ApplicationBuilder::new("https://panel.example.com", "SECRET-REDACTED").build()
}

fn body_text(r: &Request) -> String {
    String::from_utf8(r.body.clone().expect("a body")).unwrap()
}

fn header<'a>(r: &'a Request, name: &str) -> Option<&'a str> {
    r.headers.iter().find(|(k, _)| k == name).map(|(_, v)| v.as_str())
}

#[test]
fn base_url_gets_suffix_without_slash() {
    let a = ApplicationBuilder::new("https://panel.example.com", "k").build();
    assert_eq!(a.url(), "https://panel.example.com/api/application/");
}

#[test]
fn base_url_gets_suffix_with_slash() {
    let a = ApplicationBuilder::new("https://panel.example.com/", "k").build();
    assert_eq!(a.url(), "https://panel.example.com/api/application/");
}

#[test]
fn get_location_path() {
    let r = app().get_location(5);
    assert_eq!(r.method, Method::Get);
    assert_eq!(r.url, "https://panel.example.com/api/application/locations/5");
    assert!(r.body.is_none());
}

#[test]
fn delete_user_is_a_delete_without_body() {
    let r = app().delete_user(9);
    assert_eq!(r.method, Method::Delete);
    assert_eq!(r.url, "https://panel.example.com/api/application/users/9");
    assert!(r.body.is_none());
    assert_eq!(header(&r, "Content-Type"), None);
}

#[test]
fn create_allocations_sends_ip_and_ports() {
    let r = app().create_allocations(
        3,
        "10.0.0.5".to_string(),
        vec!["25565".to_string(), "25566".to_string()],
    );
    assert_eq!(r.method, Method::Post);
    assert_eq!(r.url, "https://panel.example.com/api/application/nodes/3/allocations");
    assert_eq!(body_text(&r), r#"{"ip":"10.0.0.5","ports":["25565","25566"]}"#);
    assert_eq!(header(&r, "Content-Type"), Some("application/json"));
}

#[test]
fn headers_carry_the_key() {
    let r = app().list_users();
    assert_eq!(header(&r, "Authorization"), Some("Bearer SECRET-REDACTED"));
    assert_eq!(header(&r, "Accept"), Some("application/json"));
    assert_eq!(r.headers.len(), 2);
}

#[test]
fn delete_allocation_path() {
    let r = app().delete_allocation(12, 4077);
    assert_eq!(r.method, Method::Delete);
    assert_eq!(r.url, "https://panel.example.com/api/application/nodes/12/allocations/4077");
}

#[test]
fn largest_id_in_path() {
    let r = app().get_node(u32::MAX);
    assert_eq!(r.url, "https://panel.example.com/api/application/nodes/4294967295");
    let r = app().get_node(0);
    assert_eq!(r.url, "https://panel.example.com/api/application/nodes/0");
}

#[test]
fn external_user_path_is_verbatim() {
    let r = app().get_user_external("ext-42".to_string());
    assert_eq!(r.url, "https://panel.example.com/api/application/users/ext-42");
}

#[test]
fn add_location_body() {
    let r = app().add_location("us".to_string(), "United States".to_string());
    assert_eq!(r.method, Method::Post);
    assert_eq!(r.url, "https://panel.example.com/api/application/locations");
    assert_eq!(body_text(&r), r#"{"short":"us","long":"United States"}"#);
}

#[test]
fn update_location_escapes_text() {
    let r = app().update_location(2, "a\"b".to_string(), "line\nnext\\\u{1}é".to_string());
    assert_eq!(r.method, Method::Patch);
    assert_eq!(r.url, "https://panel.example.com/api/application/locations/2");
    assert_eq!(body_text(&r), "{\"short\":\"a\\\"b\",\"long\":\"line\\nnext\\\\\\u0001é\"}");
}

#[test]
fn add_user_body() {
    let r = app().add_user(
        "a@b.c".to_string(),
        "ab".to_string(),
        "A".to_string(),
        "B".to_string(),
    );
    assert_eq!(
        body_text(&r),
        r#"{"email":"a@b.c","username":"ab","first_name":"A","last_name":"B"}"#
    );
}

#[test]
fn update_user_body() {
    let r = app().update_user(
        7,
        "a@b.c".to_string(),
        "ab".to_string(),
        "A".to_string(),
        "B".to_string(),
        "en".to_string(),
        "pw".to_string(),
    );
    assert_eq!(r.method, Method::Patch);
    assert_eq!(r.url, "https://panel.example.com/api/application/users/7");
    assert_eq!(
        body_text(&r),
        r#"{"email":"a@b.c","username":"ab","first_name":"A","last_name":"B","language":"en","password":"pw"}"#
    );
}

#[test]
fn create_node_body() {
    let r = app().create_node(
        "n1".to_string(),
        1,
        "node.example.com".to_string(),
        "https".to_string(),
        1024,
        0,
        2048,
        10,
        100,
        2022,
        8080,
    );
    assert_eq!(r.method, Method::Post);
    assert_eq!(r.url, "https://panel.example.com/api/application/nodes");
    assert_eq!(
        body_text(&r),
        r#"{"name":"n1","location_id":1,"fqdn":"node.example.com","scheme":"https","memory":1024,"memory_overallocate":0,"disk":2048,"disk_overallocate":10,"upload_size":100,"daemon_sftp":2022,"daemon_listen":8080}"#
    );
}

#[test]
fn update_node_body() {
    let r = app().update_node(
        4,
        "n1".to_string(),
        "d".to_string(),
        1,
        "node.example.com".to_string(),
        "http".to_string(),
        true,
        false,
        1,
        2,
        3,
        4,
        5,
        6,
        7,
    );
    assert_eq!(r.method, Method::Patch);
    assert_eq!(r.url, "https://panel.example.com/api/application/nodes/4");
    assert_eq!(
        body_text(&r),
        r#"{"name":"n1","description":"d","location_id":1,"fqdn":"node.example.com","scheme":"http","behind_proxy":true,"maintenance_mode":false,"memory":1,"memory_overallocate":2,"disk":3,"disk_overallocate":4,"upload_size":5,"daemon_sftp":6,"daemon_listen":7}"#
    );
}

#[test]
fn empty_port_list_body() {
    let r = app().create_allocations(1, "::1".to_string(), vec![]);
    assert_eq!(body_text(&r), r#"{"ip":"::1","ports":[]}"#);
}

#[test]
fn list_paths() {
    let a = app();
    assert_eq!(a.list_locations().url, "https://panel.example.com/api/application/locations");
    assert_eq!(a.list_nodes().url, "https://panel.example.com/api/application/nodes");
    assert_eq!(a.list_allocations(8).url, "https://panel.example.com/api/application/nodes/8/allocations");
    assert_eq!(a.delete_location(3).method, Method::Delete);
    assert_eq!(a.delete_node(3).url, "https://panel.example.com/api/application/nodes/3");
    assert_eq!(a.get_user(11).url, "https://panel.example.com/api/application/users/11");
}
