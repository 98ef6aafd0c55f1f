use lib_web::middleware::mw_cookies::set_cookie_header_values;
use lib_web::utils::cookie::{Expiry, SameSitePolicy, WebCookie, EXPIRY_MIN_NANOS};
use lib_web::utils::cookies::Cookies;

fn cookie(name: &str, value: &str) -> WebCookie {
    WebCookie::new(name, value)
}

#[test]
fn fresh_jar_reads_request_cookies() {
    let jar = Cookies::from_request_cookies(vec![
        cookie("a", "1"),
        cookie("b", "2"),
        cookie("a", "3"),
    ]);
    assert_eq!(jar.get("a").map(|c| c.value), Some("3".to_string()));
    assert_eq!(jar.get("b").map(|c| c.value), Some("2".to_string()));
    assert!(jar.get("c").is_none());
    assert!(jar.delta().is_empty());
}

#[test]
fn read_after_add() {
    let mut jar = Cookies::from_request_cookies(vec![cookie("a", "1")]);
    jar.add(cookie("a", "2"));
    jar.add(cookie("b", "x"));
    assert_eq!(jar.get("a").map(|c| c.value), Some("2".to_string()));
    assert_eq!(jar.get("b").map(|c| c.value), Some("x".to_string()));
    let mut names: Vec<String> = jar.delta().into_iter().map(|c| c.name).collect();
    names.sort();
    assert_eq!(names, vec!["a".to_string(), "b".to_string()]);
}

#[test]
fn remove_of_request_cookie_records_removal() {
    let mut jar = Cookies::from_request_cookies(vec![cookie("auth-token", "tok")]);
    jar.remove(WebCookie::named("auth-token"));
    assert!(jar.get("auth-token").is_none());
    let delta = jar.delta();
    assert_eq!(delta.len(), 1);
    let removal = &delta[0];
    assert_eq!(removal.name, "auth-token");
    assert_eq!(removal.value, "");
    assert_eq!(removal.max_age, Some(0));
    match removal.expires {
        Some(Expiry::At(n)) => {
            // The removal cookie expires a year before the time of the removal.
            let now = time::OffsetDateTime::now_utc().unix_timestamp_nanos();
            let day: i128 = 86_400 * 1_000_000_000;
            assert!(n <= now - 364 * day);
            assert!(n >= now - 366 * day);
        }
        _ => panic!("the removal cookie should expire at a past instant"),
    }
}

#[test]
fn remove_of_added_cookie_leaves_no_change() {
    let mut jar = Cookies::new();
    jar.add(cookie("a", "1"));
    jar.remove(WebCookie::named("a"));
    assert!(jar.get("a").is_none());
    assert!(jar.delta().is_empty());
}

#[test]
fn set_cookie_header_values_encode_changes() {
    let mut jar = Cookies::new();
    let mut c = cookie("auth-token", "abc");
    c.set_http_only(true);
    c.set_path("/");
    jar.add(c);
    let values = set_cookie_header_values(&jar).expect("valid header values");
    assert_eq!(values.len(), 1);
    assert_eq!(values[0].to_str().unwrap(), "auth-token=abc; HttpOnly; Path=/");
}

#[test]
fn set_cookie_header_values_one_per_changed_name() {
    let mut jar = Cookies::from_request_cookies(vec![cookie("old", "1")]);
    jar.add(cookie("a", "1"));
    jar.add(cookie("a", "2"));
    jar.add(cookie("b", "x y"));
    jar.remove(WebCookie::named("old"));
    jar.add(cookie("c", "3"));
    jar.remove(WebCookie::named("c"));
    let mut values: Vec<String> = set_cookie_header_values(&jar)
        .unwrap()
        .iter()
        .map(|v| v.to_str().unwrap().to_string())
        .collect();
    values.sort();
    assert_eq!(values.len(), 3);
    assert_eq!(values[0], "a=2");
    assert_eq!(values[1], "b=x%20y");
    assert!(values[2].starts_with("old=; Max-Age=0; Expires="));
}

#[test]
fn set_cookie_header_values_reject_control_chars() {
    let mut jar = Cookies::new();
    let mut c = cookie("a", "1");
    c.set_path("/\u{1}");
    jar.add(c);
    assert!(set_cookie_header_values(&jar).is_err());
}

#[test]
fn attributes_round_trip_through_the_jar() {
    let mut jar = Cookies::new();
    let mut c = cookie("pref", "dark");
    c.set_path("/app");
    c.domain = Some("example.com".to_string());
    c.secure = Some(true);
    c.same_site = Some(SameSitePolicy::Lax);
    c.max_age = Some(3600);
    c.expires = Some(Expiry::At(1_700_000_000_000_000_000));
    jar.add(c);
    let got = jar.get("pref").unwrap();
    assert_eq!(got.path.as_deref(), Some("/app"));
    assert_eq!(got.domain.as_deref(), Some("example.com"));
    assert_eq!(got.secure, Some(true));
    assert_eq!(got.same_site, Some(SameSitePolicy::Lax));
    assert_eq!(got.max_age, Some(3600));
    assert_eq!(got.expires, Some(Expiry::At(1_700_000_000_000_000_000)));
}

#[test]
fn earliest_expiry_is_kept() {
    let mut jar = Cookies::new();
    let mut c = cookie("old", "1");
    c.expires = Some(Expiry::At(EXPIRY_MIN_NANOS));
    jar.add(c);
    assert_eq!(jar.get("old").unwrap().expires, Some(Expiry::At(EXPIRY_MIN_NANOS)));
}
