use bitfab::cli::{p2p_port, Commands};
use bitfab::http_core::Server;
use bitfab::http_routes::{configure, task_submitted, HttpRoute, INDEX_PAGE_PATH};
use bitfab::net::{localhost, Ip};
use bitfab::router::{route_key, Methods, Router};
use bitfab::text::{push_decimal, to_decimal_string};

#[test]
fn decimal_strings() {
    assert_eq!(to_decimal_string(0), "0");
    assert_eq!(to_decimal_string(7), "7");
    assert_eq!(to_decimal_string(10), "10");
    assert_eq!(to_decimal_string(1234567890), "1234567890");
    assert_eq!(to_decimal_string(u64::MAX), "18446744073709551615");
}

#[test]
fn push_decimal_appends() {
    let mut s = String::from("id=");
    push_decimal(&mut s, 305);
    assert_eq!(s, "id=305");
}

#[test]
fn method_names() {
    assert_eq!(Methods::GET.to_string(), "GET");
    assert_eq!(Methods::POST.to_string(), "POST");
}

#[test]
fn route_keys_join_method_and_path() {
    assert_eq!(route_key("GET", "/task"), "GET/task");
    assert_eq!(route_key("POST", "/"), "POST/");
    assert_eq!(route_key("", ""), "");
}

#[test]
fn router_lookup_and_replacement() {
    let mut r: Router<u8> = Router::new();
    assert_eq!(r.handler_for(&String::from("GET/")), None);
    r.add_handler(String::from("GET/"), 1);
    r.add_handler(String::from("GET/a"), 2);
    assert_eq!(r.handler_for(&String::from("GET/")), Some(1));
    assert_eq!(r.handler_for(&String::from("GET/a")), Some(2));
    r.add_handler(String::from("GET/"), 3);
    assert_eq!(r.handler_for(&String::from("GET/")), Some(3));
    assert_eq!(r.handler_for(&String::from("GET/a")), Some(2));
    assert_eq!(r.handler_for(&String::from("POST/")), None);
}

#[test]
fn configured_routes() {
    let mut r = Router::new();
    configure(&mut r);
    assert_eq!(r.handler_for(&String::from("GET/")), Some(HttpRoute::Index));
    assert_eq!(r.handler_for(&String::from("GET/task")), Some(HttpRoute::Task));
    assert_eq!(r.handler_for(&String::from("POST/")), None);
    assert_eq!(r.handler_for(&String::from("GET/tasks")), None);
    assert_eq!(INDEX_PAGE_PATH, "./static/hello.html");
}

#[test]
fn task_submission_answer() {
    assert_eq!(task_submitted(12), "Task submitted with ID 12");
    assert_eq!(task_submitted(0), "Task submitted with ID 0");
    assert_eq!(task_submitted(u32::MAX), "Task submitted with ID 4294967295");
}

#[test]
fn http_server_address() {
    let s = Server::new(Ip::V4(0, 0, 0, 0), 3000);
    assert_eq!(s.address, Ip::V4(0, 0, 0, 0));
    assert_eq!(s.port, 3000);
    assert_eq!(localhost(), Ip::V4(127, 0, 0, 1));
}

#[test]
fn p2p_port_is_next_port() {
    assert_eq!(p2p_port(3000), 3001);
    assert_eq!(p2p_port(0), 1);
    assert_eq!(p2p_port(65534), 65535);
    let c = Commands::Start { address: String::from("127.0.0.1"), port: 3000 };
    assert_eq!(c, Commands::Start { address: String::from("127.0.0.1"), port: 3000 });
}
