use media_relay::body::{resolve, resolve_body};
use media_relay::catalog::MediaKind;
use media_relay::envelope::{extract_image_url_from_json, video_url_from_json};
use media_relay::error::FetchError;
use media_relay::json::{parse_json, JsonField, JsonNumber, JsonValue};
use media_relay::resolve::{
    choose_redirect_target, resolve_head, resolve_redirect_location, Resolution, ResponseHead,
};

fn head(status: u16, url: &str, location: Option<&str>, content_type: Option<&str>) -> ResponseHead {
    ResponseHead {
        status,
        url: url.to_string(),
        location: location.map(|s| s.to_string()),
        content_type: content_type.map(|s| s.to_string()),
    }
}

fn resolved(resolution: Resolution) -> Option<String> {
    match resolution {
        Resolution::Resolved(url) => Some(url),
        _ => None,
    }
}

#[test]
fn video_envelope_with_code_200_yields_data() {
    let h = head(200, "https://api.example/v", None, Some("application/json"));
    let r = resolve_body(MediaKind::Video, "https://api.example/v", &h, r#"{"code":200,"data":"https://x/a.mp4"}"#);
    assert_eq!(r, Ok("https://x/a.mp4".to_string()));
}

#[test]
fn video_envelope_with_other_code_is_upstream_error() {
    let h = head(200, "https://api.example/v", None, Some("application/json"));
    let r = resolve_body(MediaKind::Video, "https://api.example/v", &h, r#"{"code":500,"msg":"busy","data":""}"#);
    assert_eq!(r, Err(FetchError::UpstreamError));
}

#[test]
fn video_envelope_with_other_code_is_upstream_error_whatever_else_it_holds() {
    let h = head(200, "https://api.example/v", None, None);
    for body in [
        r#"{"code":500}"#,
        r#"{"code":500,"msg":"fail"}"#,
        r#"{"code":0,"data":5}"#,
        r#"{"code":-1,"data":"u","msg":7}"#,
        r#"{"code":201,"data":"https://x/a.mp4"}"#,
        r#"{"code":18446744073709551615,"data":"u"}"#,
    ] {
        let r = resolve_body(MediaKind::Video, "https://api.example/v", &h, body);
        assert_eq!(r, Err(FetchError::UpstreamError), "{}", body);
    }
}

#[test]
fn video_envelope_without_code_or_data_is_malformed() {
    let h = head(200, "https://api.example/v", None, None);
    for body in [
        r#"{"data":"u"}"#,
        r#"{"code":"200","data":"u"}"#,
        r#"{"code":200.5,"data":"u"}"#,
        r#"{"code":200}"#,
        r#"{"code":200,"data":5}"#,
        r#"{"code":200,"data":null}"#,
        "{not json",
    ] {
        let r = resolve_body(MediaKind::Video, "https://api.example/v", &h, body);
        assert_eq!(r, Err(FetchError::MalformedBody), "{}", body);
    }
}

#[test]
fn video_envelope_ignores_other_members() {
    let h = head(200, "https://api.example/v", None, None);
    let r = resolve_body(MediaKind::Video, "https://api.example/v", &h, r#"{"code":200,"msg":null,"data":"u","extra":[1,2]}"#);
    assert_eq!(r, Ok("u".to_string()));
    let r = resolve_body(MediaKind::Video, "https://api.example/v", &h, r#"{"code":200,"data":"u","msg":5}"#);
    assert_eq!(r, Ok("u".to_string()));
}

#[test]
fn image_body_with_nested_url_is_found() {
    let h = head(200, "https://api.example/i", None, Some("application/json"));
    let r = resolve_body(MediaKind::Image, "https://api.example/i", &h, r#"{"data":{"url":"https://y/b.jpg"}}"#);
    assert_eq!(r, Ok("https://y/b.jpg".to_string()));
}

#[test]
fn image_body_prefers_direct_keys_in_order() {
    let v = parse_json(r#"{"pic":"p","url":"u","imgurl":"i"}"#).unwrap();
    assert_eq!(extract_image_url_from_json(&v), Some("i".to_string()));
    let v = parse_json(r#"{"pic":"p","data":"d"}"#).unwrap();
    assert_eq!(extract_image_url_from_json(&v), Some("d".to_string()));
    let v = parse_json(r#"{"data":{"pic":"p","image":"im"}}"#).unwrap();
    assert_eq!(extract_image_url_from_json(&v), Some("im".to_string()));
    let v = parse_json(r#""https://bare/x.png""#).unwrap();
    assert_eq!(extract_image_url_from_json(&v), Some("https://bare/x.png".to_string()));
}

#[test]
fn image_body_without_url_fails() {
    let h = head(200, "https://api.example/i", None, None);
    let r = resolve_body(MediaKind::Image, "https://api.example/i", &h, r#"  {"data":{"other":"x"},"url":5}  "#);
    assert_eq!(r, Err(FetchError::NoUrlInResponse));
}

#[test]
fn image_plain_text_address_is_taken_trimmed() {
    let h = head(200, "https://api.example/i", None, Some("text/plain"));
    let r = resolve_body(MediaKind::Image, "https://api.example/i", &h, "  https://y/c.png\n");
    assert_eq!(r, Ok("https://y/c.png".to_string()));
    let r = resolve_body(MediaKind::Video, "https://api.example/i", &h, "https://y/c.mp4");
    assert_eq!(r, Err(FetchError::UnknownResponseFormat(200)));
}

#[test]
fn changed_address_is_the_result_when_body_tells_nothing() {
    let h = head(200, "https://cdn.example/final", None, Some("text/html"));
    let r = resolve_body(MediaKind::Video, "https://api.example/v", &h, "<html></html>");
    assert_eq!(r, Ok("https://cdn.example/final".to_string()));
}

#[test]
fn unknown_format_carries_the_status() {
    let h = head(404, "https://api.example/v", None, Some("text/html"));
    let r = resolve_body(MediaKind::Video, "https://api.example/v", &h, "<html></html>");
    assert_eq!(r, Err(FetchError::UnknownResponseFormat(404)));
}

#[test]
fn redirect_with_absolute_location() {
    let h = head(302, "https://api.example/v", Some("https://cdn.example/a.mp4"), None);
    assert_eq!(resolved(resolve_head(MediaKind::Video, &h)), Some("https://cdn.example/a.mp4".to_string()));
}

#[test]
fn redirect_with_relative_location() {
    let h = head(301, "https://api.example/dir/v.php", Some(" ../media/a.mp4 "), None);
    assert_eq!(resolved(resolve_head(MediaKind::Video, &h)), Some("https://api.example/media/a.mp4".to_string()));
}

#[test]
fn redirect_without_location_fails() {
    let h = head(302, "https://api.example/v", None, Some("video/mp4"));
    assert!(matches!(resolve_head(MediaKind::Video, &h), Resolution::Failed(FetchError::MissingRedirectTarget)));
    let h = head(302, "https://api.example/v", Some("   "), None);
    assert!(matches!(resolve_head(MediaKind::Video, &h), Resolution::Failed(FetchError::MissingRedirectTarget)));
}

#[test]
fn redirect_location_that_cannot_be_resolved_has_no_target() {
    assert_eq!(resolve_redirect_location("not a base", "relative/path"), None);
    assert_eq!(resolve_redirect_location("https://a.example/x/y", "http://"), None);
    assert_eq!(resolve_redirect_location("https://a.example/x/y", "z"), Some("https://a.example/x/z".to_string()));
    assert_eq!(resolve_redirect_location("https://a.example/x/y", " https://b.example/q "), Some("https://b.example/q".to_string()));
    assert_eq!(resolve_redirect_location("https://a.example/x/y", ""), None);
    assert_eq!(choose_redirect_target("z", None), None);
    assert_eq!(choose_redirect_target("", Some("https://a.example/".to_string())), None);
    assert_eq!(choose_redirect_target("z", Some("https://a.example/z".to_string())), Some("https://a.example/z".to_string()));
}

#[test]
fn redirect_that_cannot_be_resolved_fails() {
    let h = head(302, "https://api.example/v", Some("http://"), None);
    assert!(matches!(resolve_head(MediaKind::Video, &h), Resolution::Failed(FetchError::MissingRedirectTarget)));
    let h = head(302, "no address", Some("/a.mp4"), None);
    assert!(matches!(resolve_head(MediaKind::Video, &h), Resolution::Failed(FetchError::MissingRedirectTarget)));
}

#[test]
fn media_content_type_makes_the_address_the_result() {
    let h = head(200, "https://api.example/v", None, Some("Video/MP4"));
    assert_eq!(resolved(resolve_head(MediaKind::Video, &h)), Some("https://api.example/v".to_string()));
    let h = head(200, "https://api.example/v", None, Some("application/octet-stream; x"));
    assert_eq!(resolved(resolve_head(MediaKind::Image, &h)), Some("https://api.example/v".to_string()));
    let h = head(200, "https://api.example/v", None, Some("image/png"));
    assert!(matches!(resolve_head(MediaKind::Video, &h), Resolution::NeedsBody));
    assert_eq!(resolved(resolve_head(MediaKind::Image, &h)), Some("https://api.example/v".to_string()));
}

#[test]
fn media_extension_in_path_makes_the_address_the_result() {
    let h = head(200, "https://cdn.example/a/b.mp4?t=1", None, Some("text/plain"));
    assert_eq!(resolved(resolve_head(MediaKind::Video, &h)), Some("https://cdn.example/a/b.mp4?t=1".to_string()));
    let h = head(200, "https://cdn.example/play?file=b.mp4", None, Some("text/plain"));
    assert!(matches!(resolve_head(MediaKind::Video, &h), Resolution::NeedsBody));
    let h = head(200, "https://cdn.example/a/b.webp", None, None);
    assert_eq!(resolved(resolve_head(MediaKind::Image, &h)), Some("https://cdn.example/a/b.webp".to_string()));
    assert!(matches!(resolve_head(MediaKind::Video, &h), Resolution::NeedsBody));
}

#[test]
fn resolve_takes_head_before_body() {
    let h = head(200, "https://cdn.example/a.mp4", None, None);
    let r = resolve(MediaKind::Video, "https://api.example/v", &h, r#"{"code":500,"data":"x"}"#);
    assert_eq!(r, Ok("https://cdn.example/a.mp4".to_string()));
    let h = head(200, "https://api.example/v", None, None);
    let r = resolve(MediaKind::Video, "https://api.example/v", &h, r#"{"code":200,"data":"https://x/a.mp4"}"#);
    assert_eq!(r, Ok("https://x/a.mp4".to_string()));
}

#[test]
fn video_url_from_hand_built_value() {
    let int = |n: i64| JsonValue::Number(JsonNumber { signed: Some(n), unsigned: if n >= 0 { Some(n as u64) } else { None } });
    let v = JsonValue::Object(vec![
        JsonField { key: "code".to_string(), value: int(200) },
        JsonField { key: "data".to_string(), value: JsonValue::Text("u".to_string()) },
    ]);
    assert_eq!(video_url_from_json(&v), Ok("u".to_string()));
    let v = JsonValue::Array(vec![]);
    assert_eq!(video_url_from_json(&v), Err(FetchError::MalformedBody));
    let v = JsonValue::Object(vec![
        JsonField { key: "code".to_string(), value: int(4294967496) },
        JsonField { key: "data".to_string(), value: JsonValue::Text("u".to_string()) },
    ]);
    assert_eq!(video_url_from_json(&v), Err(FetchError::UpstreamError));
    let v = JsonValue::Object(vec![
        JsonField { key: "code".to_string(), value: JsonValue::Number(JsonNumber { signed: None, unsigned: None }) },
        JsonField { key: "data".to_string(), value: JsonValue::Text("u".to_string()) },
    ]);
    assert_eq!(video_url_from_json(&v), Err(FetchError::MalformedBody));
    let v = JsonValue::Object(vec![
        JsonField { key: "code".to_string(), value: JsonValue::Number(JsonNumber { signed: None, unsigned: Some(200) }) },
        JsonField { key: "data".to_string(), value: JsonValue::Text("u".to_string()) },
    ]);
    assert_eq!(video_url_from_json(&v), Ok("u".to_string()));
}

#[test]
fn parse_json_keeps_integers_and_drops_other_numbers() {
    match parse_json(r#"{"a":1,"b":1.5,"c":18446744073709551615,"d":-7}"#) {
        Some(v) => {
            assert!(matches!(v.get("a"), Some(JsonValue::Number(JsonNumber { signed: Some(1), unsigned: Some(1) }))));
            assert!(matches!(v.get("b"), Some(JsonValue::Number(JsonNumber { signed: None, unsigned: None }))));
            assert!(matches!(v.get("c"), Some(JsonValue::Number(JsonNumber { signed: None, unsigned: Some(18446744073709551615) }))));
            assert!(matches!(v.get("d"), Some(JsonValue::Number(JsonNumber { signed: Some(-7), unsigned: None }))));
            assert!(v.get("e").is_none());
        }
        None => panic!("valid JSON did not parse"),
    }
    assert!(parse_json("{").is_none());
}

#[test]
fn redirect_targets_agree_with_the_url_crate() {
    let bases = ["https://a.example/x/y?q=1", "http://a.example:81/", "https://a.example/dir/", "not a base", "mailto:a@b.example"];
    let locations = ["z", "/abs/p.mp4", "../up", "//other.example/p", "https://b.example/q#f", "?only=query", "http://", "a b", "  spaced  ", ""];
    for base in bases {
        for location in locations {
            let expected = match url::Url::parse(base) {
                Ok(parsed) if !location.trim().is_empty() => parsed.join(location.trim()).ok().map(|u| u.to_string()),
                _ => None,
            };
            assert_eq!(resolve_redirect_location(base, location), expected, "{} + {}", base, location);
        }
    }
}

#[test]
fn media_extension_is_looked_for_in_the_path_that_the_url_crate_gives() {
    for address in ["https://c.example/a.mp4", "https://c.example/a?x=.mp4", "https://c.example/a#.mp4", "https://c.mp4.example/a", "https://c.example/%2Emp4", "https://c.example/a.MP4", "c.example/a.mp4"] {
        let h = head(200, address, None, None);
        let expected = url::Url::parse(address).map(|u| u.path().contains(".mp4")).unwrap_or(false);
        assert_eq!(resolved(resolve_head(MediaKind::Video, &h)).is_some(), expected, "{}", address);
    }
}
