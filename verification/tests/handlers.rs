use shortage::auth::User;
use shortage::handlers::{
    could_not_parse, edit, list, parse_date, redirect, redirect_at, register, remove, short_of,
    DeleteInfo, RegistrationInfo,
};
use shortage::registry::Registry;
use shortage::templates::{
    internal_server_error, not_found, BaseTemplate, RegisteredTemplate, Response,
};
use shortage::time::Timestamp;
use shortage::url::ShortenedUrl;

fn user(id: u32) -> User {
    User::new(id, format!("user{id}"), format!("token{id}"))
}

fn form(target: &str, name: Option<&str>) -> RegistrationInfo {
    RegistrationInfo {
        target: target.to_string(),
        name: name.map(|n| n.to_string()),
        expiration: None,
        max_uses: None,
    }
}

fn url(owner: u32, target: &str) -> ShortenedUrl {
    ShortenedUrl { owner, target: target.to_string(), uses: 0, expiration: None, max_uses: None }
}

fn redirect_to(target: &str) -> Response<'static> {
    Response::Redirect { to: target.to_string() }
}

fn registered(host: &str, short: &str) -> Response<'static> {
    Response::Registered(RegisteredTemplate { host: host.to_string(), short: short.to_string() })
}

#[test]
fn the_two_error_pages() {
    assert_eq!(
        not_found(),
        Response::Page { status: 404, page: BaseTemplate { content: "404 Not Found" } }
    );
    assert_eq!(
        internal_server_error(),
        Response::Page { status: 500, page: BaseTemplate { content: "500 Internal Server Error" } }
    );
}

#[test]
fn parse_date_without_a_field_means_no_expiration() {
    assert_eq!(parse_date(None), Ok(None));
}

#[test]
fn parse_date_reads_a_date_to_the_minute_as_utc() {
    assert_eq!(
        parse_date(Some("2024-01-01T00:00".to_string())),
        Ok(Some(Timestamp { secs: 1_704_067_200, nanos: 0 }))
    );
    assert_eq!(
        parse_date(Some("2030-01-31T18:30".to_string())),
        Ok(Some(Timestamp { secs: 1_896_114_600, nanos: 0 }))
    );
    assert_eq!(
        parse_date(Some("1969-12-31T23:59".to_string())),
        Ok(Some(Timestamp { secs: -60, nanos: 0 }))
    );
}

#[test]
fn parse_date_answers_422_with_the_reason() {
    assert_eq!(
        parse_date(Some("garbage".to_string())),
        Err(Response::Text {
            status: 422,
            body: "Could not parse expiration: premature end of input".to_string(),
        })
    );
    assert_eq!(
        parse_date(Some("2024-13-01T00:00".to_string())),
        Err(Response::Text {
            status: 422,
            body: "Could not parse expiration: input is out of range".to_string(),
        })
    );
    assert_eq!(
        parse_date(Some("2024-01-01T00:00:00".to_string())),
        Err(Response::Text {
            status: 422,
            body: "Could not parse expiration: input contains invalid characters".to_string(),
        })
    );
    assert_eq!(
        parse_date(Some(String::new())),
        Err(Response::Text {
            status: 422,
            body: "Could not parse expiration: premature end of input".to_string(),
        })
    );
}

#[test]
fn could_not_parse_puts_the_reason_after_the_words() {
    assert_eq!(
        could_not_parse("because"),
        Response::Text { status: 422, body: "Could not parse expiration: because".to_string() }
    );
    assert_eq!(
        could_not_parse(""),
        Response::Text { status: 422, body: "Could not parse expiration: ".to_string() }
    );
}

#[test]
fn register_with_a_name_then_follow_it() {
    let mut registry = Registry::new();
    let response = register(
        &mut registry,
        Some(&user(1)),
        "sho.rt".to_string(),
        form("https://example.com/a?b=c#d", Some("abc")),
    );
    assert_eq!(response, registered("sho.rt", "abc"));
    assert_eq!(registry.get("abc"), Some(&url(1, "https://example.com/a?b=c#d")));
    assert_eq!(redirect(&mut registry, "/abc"), redirect_to("https://example.com/a?b=c#d"));
    assert_eq!(registry.get("abc").map(|u| u.uses), Some(1));
}

#[test]
fn register_keeps_the_limits_of_the_form() {
    let mut registry = Registry::new();
    let response = register(
        &mut registry,
        Some(&user(5)),
        "sho.rt".to_string(),
        RegistrationInfo {
            target: "https://example.com/".to_string(),
            name: Some("abc".to_string()),
            expiration: Some("2030-01-31T18:30".to_string()),
            max_uses: Some(12),
        },
    );
    assert_eq!(response, registered("sho.rt", "abc"));
    assert_eq!(
        registry.get("abc"),
        Some(&ShortenedUrl {
            owner: 5,
            target: "https://example.com/".to_string(),
            uses: 0,
            expiration: Some(Timestamp { secs: 1_896_114_600, nanos: 0 }),
            max_uses: Some(12),
        })
    );
}

#[test]
fn register_with_a_taken_name_overwrites() {
    let mut registry = Registry::new();
    registry.insert("abc".to_string(), ShortenedUrl { uses: 3, ..url(1, "https://example.com/") });
    let response = register(
        &mut registry,
        Some(&user(2)),
        "h".to_string(),
        form("https://example.org/", Some("abc")),
    );
    assert_eq!(response, registered("h", "abc"));
    assert_eq!(registry.len(), 1);
    assert_eq!(registry.get("abc"), Some(&url(2, "https://example.org/")));
}

#[test]
fn register_without_a_user_is_an_internal_error() {
    let mut registry = Registry::new();
    let response =
        register(&mut registry, None, "h".to_string(), form("https://example.org/", Some("abc")));
    assert_eq!(response, internal_server_error());
    assert_eq!(registry.len(), 0);
}

#[test]
fn register_with_a_bad_expiration_changes_nothing() {
    let mut registry = Registry::new();
    let response = register(
        &mut registry,
        Some(&user(1)),
        "h".to_string(),
        RegistrationInfo {
            target: "https://example.com/".to_string(),
            name: Some("abc".to_string()),
            expiration: Some("2024-01-01T00:00:00".to_string()),
            max_uses: None,
        },
    );
    assert_eq!(
        response,
        Response::Text {
            status: 422,
            body: "Could not parse expiration: input contains invalid characters".to_string(),
        }
    );
    assert_eq!(registry.len(), 0);
}

#[test]
fn register_without_a_name_draws_eight_letters_or_digits() {
    let mut registry = Registry::new();
    let response = register(
        &mut registry,
        Some(&user(1)),
        "sho.rt".to_string(),
        form("https://example.com/", None),
    );
    let Response::Registered(page) = response else {
        panic!("expected a registration, got {response:?}");
    };
    assert_eq!(page.host, "sho.rt");
    assert_eq!(page.short.chars().count(), 8);
    assert!(page.short.chars().all(|c| c.is_ascii_alphanumeric()));
    assert_eq!(registry.len(), 1);
    assert_eq!(registry.get(&page.short), Some(&url(1, "https://example.com/")));
}

#[test]
fn register_without_a_name_never_overwrites() {
    let mut registry = Registry::new();
    registry.insert("aaaaaaaa".to_string(), url(9, "https://example.com/a"));
    registry.insert("Zz09Zz09".to_string(), ShortenedUrl { uses: 4, ..url(9, "https://example.com/z") });
    registry.insert("named".to_string(), url(9, "https://example.com/n"));
    let mut drawn: Vec<String> = Vec::new();
    for round in 0..200 {
        let before = registry.len();
        let response = register(
            &mut registry,
            Some(&user(1)),
            "h".to_string(),
            form(&format!("https://example.org/{round}"), None),
        );
        match response {
            Response::Registered(page) => {
                assert!(!drawn.contains(&page.short));
                assert_eq!(registry.len(), before + 1);
                assert_eq!(
                    registry.get(&page.short),
                    Some(&url(1, &format!("https://example.org/{round}")))
                );
                drawn.push(page.short);
            }
            other => {
                assert_eq!(other, internal_server_error());
                assert_eq!(registry.len(), before);
            }
        }
        assert_eq!(registry.get("aaaaaaaa"), Some(&url(9, "https://example.com/a")));
        assert_eq!(
            registry.get("Zz09Zz09"),
            Some(&ShortenedUrl { uses: 4, ..url(9, "https://example.com/z") })
        );
        assert_eq!(registry.get("named"), Some(&url(9, "https://example.com/n")));
    }
    assert!(!drawn.is_empty());
}

#[test]
fn edit_by_the_owner() {
    let mut registry = Registry::new();
    registry.insert("abc".to_string(), ShortenedUrl { uses: 2, ..url(1, "https://example.com/") });
    let response = edit(
        &mut registry,
        Some(&user(1)),
        RegistrationInfo {
            target: "https://example.org/".to_string(),
            name: Some("abc".to_string()),
            expiration: Some("2024-01-01T00:00".to_string()),
            max_uses: Some(7),
        },
    );
    assert_eq!(
        response,
        Response::Page { status: 200, page: BaseTemplate { content: "Sucessfully edited!" } }
    );
    assert_eq!(
        registry.get("abc"),
        Some(&ShortenedUrl {
            owner: 1,
            target: "https://example.org/".to_string(),
            uses: 2,
            expiration: Some(Timestamp { secs: 1_704_067_200, nanos: 0 }),
            max_uses: Some(7),
        })
    );
}

#[test]
fn edit_by_another_user_looks_like_an_unknown_name() {
    let mut registry = Registry::new();
    registry.insert("abc".to_string(), url(1, "https://example.com/"));
    let foreign = edit(&mut registry, Some(&user(2)), form("https://evil.example/", Some("abc")));
    let missing = edit(&mut registry, Some(&user(2)), form("https://evil.example/", Some("nope")));
    assert_eq!(foreign, not_found());
    assert_eq!(foreign, missing);
    assert_eq!(registry.len(), 1);
    assert_eq!(registry.get("abc"), Some(&url(1, "https://example.com/")));
}

#[test]
fn edit_needs_a_name() {
    let mut registry = Registry::new();
    registry.insert("abc".to_string(), url(1, "https://example.com/"));
    let response = edit(&mut registry, Some(&user(1)), form("https://example.org/", None));
    assert_eq!(
        response,
        Response::Text { status: 422, body: "field `name` is required".to_string() }
    );
    assert_eq!(registry.get("abc"), Some(&url(1, "https://example.com/")));
}

#[test]
fn edit_asks_for_the_name_before_it_reads_the_date() {
    let mut registry = Registry::new();
    let response = edit(
        &mut registry,
        Some(&user(1)),
        RegistrationInfo {
            target: "https://example.org/".to_string(),
            name: None,
            expiration: Some("garbage".to_string()),
            max_uses: None,
        },
    );
    assert_eq!(
        response,
        Response::Text { status: 422, body: "field `name` is required".to_string() }
    );
}

#[test]
fn edit_with_a_bad_expiration_changes_nothing() {
    let mut registry = Registry::new();
    registry.insert("abc".to_string(), url(1, "https://example.com/"));
    let response = edit(
        &mut registry,
        Some(&user(1)),
        RegistrationInfo {
            target: "https://example.org/".to_string(),
            name: Some("abc".to_string()),
            expiration: Some("2024-02-30T10:00".to_string()),
            max_uses: None,
        },
    );
    assert_eq!(
        response,
        Response::Text {
            status: 422,
            body: "Could not parse expiration: input is out of range".to_string(),
        }
    );
    assert_eq!(registry.get("abc"), Some(&url(1, "https://example.com/")));
}

#[test]
fn edit_without_a_user_is_an_internal_error() {
    let mut registry = Registry::new();
    registry.insert("abc".to_string(), url(1, "https://example.com/"));
    let response = edit(&mut registry, None, form("https://example.org/", Some("abc")));
    assert_eq!(response, internal_server_error());
    assert_eq!(registry.get("abc"), Some(&url(1, "https://example.com/")));
}

#[test]
fn remove_by_the_owner() {
    let mut registry = Registry::new();
    registry.insert("abc".to_string(), url(1, "https://example.com/"));
    let response = remove(&mut registry, Some(&user(1)), DeleteInfo { name: "abc".to_string() });
    assert_eq!(
        response,
        Response::Page { status: 200, page: BaseTemplate { content: "Sucessfully removed!" } }
    );
    assert_eq!(registry.len(), 0);
    assert_eq!(redirect(&mut registry, "/abc"), not_found());
}

#[test]
fn remove_by_another_user_looks_like_an_unknown_name() {
    let mut registry = Registry::new();
    registry.insert("abc".to_string(), url(1, "https://example.com/"));
    let foreign = remove(&mut registry, Some(&user(2)), DeleteInfo { name: "abc".to_string() });
    let missing = remove(&mut registry, Some(&user(2)), DeleteInfo { name: "nope".to_string() });
    assert_eq!(foreign, not_found());
    assert_eq!(foreign, missing);
    assert_eq!(registry.get("abc"), Some(&url(1, "https://example.com/")));
}

#[test]
fn remove_without_a_user_is_an_internal_error() {
    let mut registry = Registry::new();
    registry.insert("abc".to_string(), url(1, "https://example.com/"));
    let response = remove(&mut registry, None, DeleteInfo { name: "abc".to_string() });
    assert_eq!(response, internal_server_error());
    assert_eq!(registry.len(), 1);
}

#[test]
fn list_gives_the_records_of_the_user() {
    let mut registry = Registry::new();
    registry.insert("a".to_string(), url(1, "one"));
    registry.insert("b".to_string(), url(2, "two"));
    assert_eq!(list(&registry, &user(1)), vec![url(1, "one")]);
    assert_eq!(list(&registry, &user(2)), vec![url(2, "two")]);
    assert!(list(&registry, &user(3)).is_empty());
}

#[test]
fn short_of_drops_the_slash() {
    assert_eq!(short_of("/abc"), "abc");
    assert_eq!(short_of("/"), "");
    assert_eq!(short_of(""), "");
    assert_eq!(short_of("/a/b"), "a/b");
    assert_eq!(short_of("/\u{e9}t\u{e9}"), "\u{e9}t\u{e9}");
}

#[test]
fn redirect_of_an_unknown_name_is_not_found() {
    let mut registry = Registry::new();
    assert_eq!(redirect(&mut registry, "/abc"), not_found());
    registry.insert("abc".to_string(), url(1, "https://example.com/"));
    assert_eq!(redirect(&mut registry, "/abd"), not_found());
    assert_eq!(redirect(&mut registry, "/"), not_found());
    assert_eq!(redirect(&mut registry, "abc"), not_found());
    assert_eq!(registry.get("abc").map(|u| u.uses), Some(0));
}

#[test]
fn redirect_with_a_limit_of_one_use() {
    let mut registry = Registry::new();
    let response = register(
        &mut registry,
        Some(&user(1)),
        "h".to_string(),
        RegistrationInfo {
            target: "https://example.com/".to_string(),
            name: Some("abc".to_string()),
            expiration: None,
            max_uses: Some(1),
        },
    );
    assert_eq!(response, registered("h", "abc"));
    assert_eq!(redirect(&mut registry, "/abc"), redirect_to("https://example.com/"));
    assert_eq!(registry.get("abc").map(|u| u.uses), Some(1));
    assert_eq!(redirect(&mut registry, "/abc"), not_found());
    assert!(!registry.contains_key("abc"));
    assert_eq!(redirect(&mut registry, "/abc"), not_found());
}

#[test]
fn redirect_of_a_record_that_expired_a_second_ago() {
    let mut registry = Registry::new();
    let now = Timestamp { secs: 1_704_067_200, nanos: 0 };
    registry.insert(
        "abc".to_string(),
        ShortenedUrl {
            expiration: Some(Timestamp { secs: 1_704_067_199, nanos: 0 }),
            ..url(1, "https://example.com/")
        },
    );
    assert_eq!(redirect_at(&mut registry, "/abc", now), not_found());
    assert!(!registry.contains_key("abc"));
    assert_eq!(redirect_at(&mut registry, "/abc", now), not_found());
}

#[test]
fn redirect_reads_the_clock() {
    let mut registry = Registry::new();
    let response = register(
        &mut registry,
        Some(&user(1)),
        "h".to_string(),
        RegistrationInfo {
            target: "https://example.com/old".to_string(),
            name: Some("old".to_string()),
            expiration: Some("2001-01-01T00:00".to_string()),
            max_uses: None,
        },
    );
    assert_eq!(response, registered("h", "old"));
    let response = register(
        &mut registry,
        Some(&user(1)),
        "h".to_string(),
        RegistrationInfo {
            target: "https://example.com/new".to_string(),
            name: Some("new".to_string()),
            expiration: Some("9000-01-01T00:00".to_string()),
            max_uses: None,
        },
    );
    assert_eq!(response, registered("h", "new"));
    assert_eq!(redirect(&mut registry, "/old"), not_found());
    assert!(!registry.contains_key("old"));
    assert_eq!(redirect(&mut registry, "/new"), redirect_to("https://example.com/new"));
    assert_eq!(registry.get("new").map(|u| u.uses), Some(1));
}
