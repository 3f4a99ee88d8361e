use evosim::beast::BeastKind;
use evosim::server::{compact_json, frame_response, route_request, world_answer, ContentType, Page, Route, Status};
use evosim::simulation::{plant_due, plant_spawn_roll, simulation_over};

fn padded(s: &str) -> Vec<u8> {
    let mut b = vec![0u8; 1024];
    b[..s.len()].copy_from_slice(s.as_bytes());
    b
}

#[test]
fn requests_are_routed_by_their_first_line() {
    let r = route_request(&padded("GET / HTTP/1.1\r\nHost: x\r\n\r\n"));
    assert_eq!(r, Route { status: Status::Found, page: Page::Index, content_type: ContentType::Html });
    let r = route_request(&padded("GET /index.js HTTP/1.1\r\n"));
    assert_eq!(r.page, Page::Script);
    assert_eq!(r.content_type, ContentType::Html);
    let r = route_request(&padded("GET /calc-new-state HTTP/1.1\r\n"));
    assert_eq!(r.page, Page::World);
    assert_eq!(r.content_type, ContentType::Json);
    assert_eq!(r.page.file_name(), "world.json");
    let r = route_request(&padded("GET /graph HTTP/1.1\r\n"));
    assert_eq!(r.page, Page::Index);
    let r = route_request(&padded("update world \r\n"));
    assert_eq!(r.page, Page::Index);
    let r = route_request(&padded("GET /nothing HTTP/1.1\r\n"));
    assert_eq!(r, Route { status: Status::NotFound, page: Page::Missing, content_type: ContentType::Html });
    assert_eq!(r.status.text(), "HTTP/1.1 404 NOT FOUND");
    assert_eq!(r.page.file_name(), "404.html");
    assert_eq!(route_request(b"GET / HTTP/1.1").status, Status::NotFound);
    assert_eq!(route_request(b"").status, Status::NotFound);
}

#[test]
fn responses_carry_length_and_type() {
    let r = Route { status: Status::Found, page: Page::Index, content_type: ContentType::Html };
    let resp = frame_response(&r, b"<html></html>");
    assert_eq!(
        String::from_utf8(resp).unwrap(),
        "HTTP/1.1 200 OK \r\nContent-Length: 13\r\nContent-Type: text/html\r\n\r\n<html></html>"
    );
    let r = Route { status: Status::NotFound, page: Page::Missing, content_type: ContentType::Html };
    let resp = frame_response(&r, b"");
    assert_eq!(
        String::from_utf8(resp).unwrap(),
        "HTTP/1.1 404 NOT FOUND \r\nContent-Length: 0\r\nContent-Type: text/html\r\n\r\n"
    );
    let body = vec![b'x'; 1234];
    let resp = frame_response(&r, &body);
    let text = String::from_utf8(resp).unwrap();
    assert!(text.contains("Content-Length: 1234\r\n"));
    assert!(text.ends_with(&"x".repeat(1234)));
}

#[test]
fn an_iteration_ends_without_herbivores() {
    let kinds = vec![BeastKind::Plant, BeastKind::Plant];
    assert!(!simulation_over(&kinds, 25));
    assert!(simulation_over(&kinds, 26));
    assert!(simulation_over(&vec![], 100));
    let kinds = vec![BeastKind::Plant, BeastKind::Herbivore];
    assert!(!simulation_over(&kinds, 100));
    let kinds = vec![BeastKind::Carnivore];
    assert!(simulation_over(&kinds, 30));
}

#[test]
fn plants_grow_on_low_rolls() {
    assert!(plant_due(1));
    assert!(plant_due(3));
    assert!(!plant_due(4));
    for _ in 0..500 {
        let r = plant_spawn_roll();
        assert!((1..100).contains(&r));
    }
}

#[test]
fn world_json_is_sent_compact() {
    assert_eq!(compact_json("{ \"entries\" : [ 1, 2 ] }").as_deref(), Some("{\"entries\":[1,2]}"));
    assert_eq!(compact_json("{ \"b\": 1, \"a\": 2 }").as_deref(), Some("{\"a\":2,\"b\":1}"));
    assert_eq!(compact_json("{ \"entries\": [1, 2"), None);
    assert_eq!(compact_json(""), None);
}

#[test]
fn a_broken_world_file_falls_back_to_the_spare() {
    let spare = "{ \"entries\": [] }";
    assert_eq!(world_answer("{\"x\": 1.5}", spare).as_deref(), Some("{\"x\":1.5}"));
    assert_eq!(world_answer("{\"x\": ", spare).as_deref(), Some("{\"entries\":[]}"));
    assert_eq!(world_answer("{\"x\": ", "also broken"), None);
    assert_eq!(world_answer("{\"x\": ", ""), None);
}
