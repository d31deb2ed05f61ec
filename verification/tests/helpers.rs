use reqwest::header::HeaderMap;
use superposition_service::environment::{get_from_env_or_default, get_pod_info};
use superposition_service::error::{
    generate_snowflake_id, AppError, ErrorBody, HttpError, ToActixErr,
};
use superposition_service::headers::{body_to_send, construct_request_headers, HEADERS_FULL, MAX_HEADERS};
use superposition_service::json::{Json, JsonMap};
use superposition_service::list_param::deserialize_stringified_list;
use superposition_service::tags::parse_config_tags;
use superposition_service::text::{
    concat3, i64_to_string, join_strings, same_text, split_char, u64_to_string,
};
use superposition_service::time::{one_day_before, parse_rfc2822, Timestamp};

fn strings(parts: &[&str]) -> Vec<String> {
    parts.iter().map(|p| p.to_string()).collect()
}

#[test]
fn split_matches_std() {
    for text in ["", ",", "a", "a,b", ",a,,b,", "x,é,ß"] {
        let expected: Vec<String> = text.split(',').map(str::to_string).collect();
        assert_eq!(split_char(text, ','), expected);
    }
}

#[test]
fn join_and_split_undo_each_other() {
    for text in ["", "-", "a-b", "-a--b-"] {
        assert_eq!(join_strings(&split_char(text, '-'), "-"), text);
    }
    let parts = strings(&["one", "", "three"]);
    assert_eq!(split_char(&join_strings(&parts, ";"), ';'), parts);
    assert_eq!(join_strings(&Vec::new(), ", "), "");
}

#[test]
fn numerals_match_std() {
    for n in [0u64, 9, 10, 100, 1234567890, u64::MAX] {
        assert_eq!(u64_to_string(n), n.to_string());
    }
    for n in [0i64, -1, 42, -100, i64::MAX, i64::MIN] {
        assert_eq!(i64_to_string(n), n.to_string());
    }
}

#[test]
fn small_text_helpers() {
    assert_eq!(concat3("a", "", "bc"), "abc");
    assert!(same_text("var", "var"));
    assert!(!same_text("var", "Var"));
}

#[test]
fn loaded_value_wins_over_default() {
    assert_eq!(get_from_env_or_default(Some(7), 3), 7);
    assert_eq!(get_from_env_or_default(None, 3), 3);
}

#[test]
fn pod_info_of_host_name() {
    let (pod, deployment) = get_pod_info("service-a-6d4cf56db6-x2x9q");
    assert_eq!(pod, "x2x9q");
    assert_eq!(deployment, "a");
    assert_eq!(get_pod_info("d-r-p"), ("p".to_string(), "d".to_string()));
    assert_eq!(get_pod_info("--"), (String::new(), String::new()));
}

#[test]
fn errors_become_internal_server_errors() {
    let fine: Result<i32, String> = Ok(5);
    assert_eq!(fine.map_err_to_internal_server("no".to_string()), Ok(5));
    let broken: Result<i32, String> = Err("cause".to_string());
    assert_eq!(
        broken.map_err_to_internal_server("no".to_string()),
        Err(HttpError {
            status: 500,
            body: ErrorBody::Text("no".to_string())
        })
    );
}

#[test]
fn error_answers() {
    assert_eq!(HttpError::bad_request("a").status, 400);
    assert_eq!(HttpError::not_found("b").status, 404);
    assert_eq!(
        HttpError::internal(""),
        HttpError {
            status: 500,
            body: ErrorBody::Text(String::new())
        }
    );
    let mut members = JsonMap::new();
    members.push("message".to_string(), Json::Str("oops".to_string()));
    assert_eq!(
        HttpError::internal_message("oops".to_string()),
        HttpError {
            status: 500,
            body: ErrorBody::Json(Json::Object(members))
        }
    );
}

#[test]
fn snowflake_id_or_lock_error() {
    assert_eq!(generate_snowflake_id(Ok(-12)), Ok(-12));
    assert_eq!(
        generate_snowflake_id(Err("poisoned lock".to_string())),
        Err(AppError::UnexpectedError(
            "snowflake_id generation failed poisoned lock".to_string()
        ))
    );
}

#[test]
fn stringified_list_is_read_part_by_part() {
    let read = |s: &str| s.parse::<i32>().map_err(|_| s.to_string());
    assert_eq!(deserialize_stringified_list("1,-2,30", read), Ok(vec![1, -2, 30]));
    assert_eq!(deserialize_stringified_list("7", read), Ok(vec![7]));
}

#[test]
fn stringified_list_stops_at_first_bad_part() {
    let read = |s: &str| s.parse::<i32>().map_err(|_| s.to_string());
    assert_eq!(deserialize_stringified_list("1,x,y", read), Err("x".to_string()));
    assert_eq!(deserialize_stringified_list("", read), Err(String::new()));
}

#[test]
fn headers_keep_values_in_order() {
    let map = construct_request_headers(&[
        ("X-Tenant", "one"),
        ("accept", "text/plain"),
        ("x-tenant", "two"),
    ])
    .unwrap();
    let values: Vec<&[u8]> = map.get_all("X-TENANT").iter().map(|v| v.as_bytes()).collect();
    assert_eq!(values, vec![b"one".as_slice(), b"two".as_slice()]);
    assert_eq!(map.get("Accept").unwrap().as_bytes(), b"text/plain");
    assert_eq!(map.keys_len(), 2);
}

#[test]
fn headers_get_room_at_once() {
    let same: Vec<(&str, &str)> = (0..1000).map(|_| ("name", "v")).collect();
    let mut reserved: HeaderMap = HeaderMap::new();
    reserved.reserve(1000);
    assert_eq!(construct_request_headers(&same).unwrap().capacity(), reserved.capacity());
}

#[test]
fn headers_may_be_empty_and_values_non_ascii() {
    assert_eq!(construct_request_headers(&[]).unwrap().len(), 0);
    let map = construct_request_headers(&[("k", "é")]).unwrap();
    assert_eq!(map.get("k").unwrap().as_bytes(), "é".as_bytes());
}

#[test]
fn header_names_of_one_character() {
    let allowed = "!\"#$%&'*+-.^_`|~";
    for code in 0u32..300 {
        let c = char::from_u32(code).unwrap();
        let name = c.to_string();
        let expected = c.is_ascii_alphanumeric() || allowed.contains(c);
        assert_eq!(construct_request_headers(&[(&name, "v")]).is_ok(), expected);
        let long = format!("{}{}", "a".repeat(80), c);
        assert_eq!(construct_request_headers(&[(&long, "v")]).is_ok(), expected);
    }
}

#[test]
fn header_name_lengths() {
    for (length, fine) in [(0, false), (64, true), (65, true), (65535, true), (65536, false)] {
        let name = "a".repeat(length);
        assert_eq!(construct_request_headers(&[(&name, "")]).is_ok(), fine);
    }
}

#[test]
fn header_values_of_one_character() {
    for code in 0u32..300 {
        let c = char::from_u32(code).unwrap();
        let expected = c == '\t' || (code >= 32 && code != 127);
        assert_eq!(construct_request_headers(&[("k", &c.to_string())]).is_ok(), expected);
    }
}

#[test]
fn one_bad_header_refuses_all() {
    assert_eq!(
        construct_request_headers(&[("good", "v"), ("bad name", "v")]).unwrap_err(),
        "failed to parse headers"
    );
    assert_eq!(
        construct_request_headers(&[("good", "a\nb")]).unwrap_err(),
        "failed to parse headers"
    );
}

#[test]
fn many_headers_fit() {
    let names: Vec<String> = (0..6553).map(|i| format!("name-{i}")).collect();
    let entries: Vec<(&str, &str)> = names.iter().map(|n| (n.as_str(), "v")).collect();
    assert_eq!(construct_request_headers(&entries).unwrap().len(), 6553);
    let names: Vec<String> = (0..20000).map(|i| format!("name-{i}")).collect();
    let entries: Vec<(&str, &str)> = names.iter().map(|n| (n.as_str(), "v")).collect();
    let map = construct_request_headers(&entries).unwrap();
    assert_eq!(map.len(), 20000);
    assert_eq!(map.get("name-19999").unwrap().as_bytes(), b"v");
    let same: Vec<(&str, &str)> = (0..20000).map(|_| ("name", "v")).collect();
    assert_eq!(construct_request_headers(&same).unwrap().len(), 20000);
}

#[test]
fn too_many_headers_are_refused() {
    let names: Vec<String> = (0..40000).map(|i| format!("name-{i}")).collect();
    let mut entries: Vec<(&str, &str)> = names.iter().map(|n| (n.as_str(), "v")).collect();
    assert_eq!(construct_request_headers(&entries).unwrap_err(), HEADERS_FULL);
    assert_eq!(construct_request_headers(&entries[..24577]).unwrap_err(), HEADERS_FULL);
    let mut same: Vec<(&str, &str)> = (0..MAX_HEADERS).map(|_| ("name", "v")).collect();
    assert_eq!(construct_request_headers(&same).unwrap().len(), MAX_HEADERS);
    same.push(("name", "v"));
    assert_eq!(construct_request_headers(&same).unwrap_err(), HEADERS_FULL);
    entries.push(("bad name", "v"));
    assert_eq!(construct_request_headers(&entries).unwrap_err(), "failed to parse headers");
}

#[test]
fn bodies_of_requests() {
    assert_eq!(body_to_send("GET", Some(1)), None);
    assert_eq!(body_to_send("DELETE", Some(1)), None);
    assert_eq!(body_to_send("POST", Some(1)), Some(1));
    assert_eq!(body_to_send("PUT", None::<i32>), None);
    assert_eq!(body_to_send("get", Some(1)), Some(1));
}

#[test]
fn tags_are_read() {
    assert_eq!(parse_config_tags(None), Ok(None));
    assert_eq!(
        parse_config_tags(Some("v1,Release_2-b".to_string())),
        Ok(Some(strings(&["v1", "Release_2-b"])))
    );
    let long = "a".repeat(64);
    assert_eq!(parse_config_tags(Some(long.clone())), Ok(Some(vec![long])));
}

#[test]
fn bad_tags_are_refused() {
    let too_long = "a".repeat(65);
    for list in ["", "a,", ",a", "a b", "a\n", "é", "a,b.c", too_long.as_str()] {
        assert_eq!(
            parse_config_tags(Some(list.to_string())),
            Err(AppError::BadArgument("Invalid config_tags value".to_string()))
        );
    }
}

#[test]
fn tags_of_one_character() {
    for code in 0u32..300 {
        let c = char::from_u32(code).unwrap();
        let expected = c.is_ascii_alphanumeric() || c == '_' || c == '-';
        // A comma separates two empty tags.
        assert_eq!(parse_config_tags(Some(c.to_string())).is_ok(), expected);
    }
}

#[test]
fn tags_survive_writing_and_reading() {
    let tags = strings(&["a", "b-1", "C_2"]);
    assert_eq!(parse_config_tags(Some(join_strings(&tags, ","))), Ok(Some(tags)));
}

#[test]
fn rfc2822_times() {
    assert_eq!(
        parse_rfc2822("Thu, 01 Jan 1970 00:00:01 +0000"),
        Some(Timestamp { secs: 1, nanos: 0 })
    );
    assert_eq!(
        parse_rfc2822("Wed, 18 Feb 2015 23:16:09 +0200"),
        Some(Timestamp { secs: 1424294169, nanos: 0 })
    );
    assert_eq!(parse_rfc2822("2015-02-18T23:16:09Z"), None);
}

#[test]
fn times_are_ordered() {
    let t = |secs: i64, nanos: u32| Timestamp { secs, nanos };
    assert!(t(1, 9).is_before(&t(2, 0)));
    assert!(t(1, 8).is_before(&t(1, 9)));
    assert!(!t(1, 9).is_before(&t(1, 9)));
    assert!(!t(2, 0).is_before(&t(1, 9)));
}

#[test]
fn a_day_earlier() {
    assert_eq!(
        one_day_before(Timestamp { secs: 86400, nanos: 5 }),
        Timestamp { secs: 0, nanos: 5 }
    );
    assert_eq!(
        one_day_before(Timestamp { secs: 8210266876799, nanos: 999_999_999 }),
        Timestamp { secs: 8210266790399, nanos: 999_999_999 }
    );
    assert_eq!(
        one_day_before(Timestamp { secs: -8334601142400, nanos: 0 }),
        Timestamp { secs: -8334601228800, nanos: 0 }
    );
}
