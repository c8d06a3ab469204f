use tupm::resolver::{resolve_with_bodies, Resolution};

fn one_source() -> Vec<String> {
    vec![String::from("http://s1/m.json")]
}

fn two_sources() -> Vec<String> {
    vec![String::from("http://s1/m.json"), String::from("http://s2/m.json")]
}

#[test]
fn single_source_with_match_resolves() {
    let mut res = Resolution::new(one_source(), String::from("foo"));
    assert_eq!(res.pending_source(), "http://s1/m.json");
    let hit = res.offer(Some(String::from("{\"foo\": \"http://x/foo.bin\"}")));
    assert_eq!(hit, Some(String::from("http://x/foo.bin")));
}

#[test]
fn unparsable_first_source_falls_through_to_second() {
    let mut res = Resolution::new(two_sources(), String::from("bar"));
    let first = res.offer(Some(String::from("this is not json")));
    assert_eq!(first, None);
    assert!(!res.exhausted());
    assert_eq!(res.pending_source(), "http://s2/m.json");
    let second = res.offer(Some(String::from("{\"bar\":\"http://y/bar\"}")));
    assert_eq!(second, Some(String::from("http://y/bar")));
}

#[test]
fn first_matching_source_wins() {
    let bodies = vec![
        Some(String::from("{\"pkg\": \"http://first/pkg\"}")),
        Some(String::from("{\"pkg\": \"http://second/pkg\"}")),
    ];
    let r = resolve_with_bodies(two_sources(), &String::from("pkg"), &bodies);
    assert_eq!(r, Some(String::from("http://first/pkg")));
}

#[test]
fn reachable_sources_without_key_resolve_to_not_found() {
    let bodies = vec![
        Some(String::from("{}")),
        Some(String::from("{\"other\": \"http://z/other\"}")),
    ];
    let r = resolve_with_bodies(two_sources(), &String::from("pkg"), &bodies);
    assert_eq!(r, None);
}

#[test]
fn unreachable_sources_resolve_to_not_found() {
    let bodies = vec![None, None];
    let r = resolve_with_bodies(two_sources(), &String::from("pkg"), &bodies);
    assert_eq!(r, None);
}

#[test]
fn non_string_value_is_no_match() {
    let mut res = Resolution::new(one_source(), String::from("foo"));
    let hit = res.offer(Some(String::from("{\"foo\": 5}")));
    assert_eq!(hit, None);
    assert!(res.exhausted());
}

#[test]
fn non_object_body_is_no_match() {
    let mut res = Resolution::new(one_source(), String::from("foo"));
    let hit = res.offer(Some(String::from("[1, 2, 3]")));
    assert_eq!(hit, None);
}

#[test]
fn transport_failure_is_no_match() {
    let mut res = Resolution::new(one_source(), String::from("foo"));
    let hit = res.offer(None);
    assert_eq!(hit, None);
    assert!(res.exhausted());
}

#[test]
fn key_with_other_value_elsewhere_is_found_where_it_is() {
    let bodies = vec![
        Some(String::from("{\"unrelated\": \"http://a/b\"}")),
        Some(String::from("{\"pkg\": \"http://right/pkg\"}")),
    ];
    let r = resolve_with_bodies(two_sources(), &String::from("pkg"), &bodies);
    assert_eq!(r, Some(String::from("http://right/pkg")));
}
