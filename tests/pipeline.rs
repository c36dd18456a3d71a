use default_backend::assets::{candidates, resolve, AssetStore};
use default_backend::classify::{
    classify, parse_format, parse_status_code, protocol_label, Format, HttpVersion, InboundHeaders,
};
use default_backend::decimal::{parse_u16_decimal, push_decimal};
use default_backend::env::{is_truthy, Env};
use default_backend::render::{env_directive, is_plain_template_text, render, Config};
use default_backend::respond::{compose, debug_echo, respond};

fn no_headers() -> InboundHeaders {
    InboundHeaders {
        code: None,
        format: None,
        ingress_name: None,
        namespace: None,
        original_uri: None,
        request_id: None,
        service_name: None,
        service_port: None,
    }
}

fn request(code: Option<&str>, format: Option<&str>) -> InboundHeaders {
    let mut h = no_headers();
    h.code = code.map(|c| c.as_bytes().to_vec());
    h.format = format.map(|f| f.as_bytes().to_vec());
    h
}

fn store_of(files: &[(&str, &str)]) -> AssetStore {
    let mut s = AssetStore::new();
    for (name, text) in files {
        s.insert(name.to_string(), text.to_string());
    }
    s
}

fn config_of(entries: &[(&str, &str)]) -> Config {
    let mut c = Config::new();
    for (k, v) in entries {
        c.insert(k.to_string(), v.to_string());
    }
    c
}

#[test]
fn parses_plain_and_signed_numbers() {
    assert_eq!(parse_u16_decimal(b"503"), Some(503));
    assert_eq!(parse_u16_decimal(b"+200"), Some(200));
    assert_eq!(parse_u16_decimal(b"0404"), Some(404));
    assert_eq!(parse_u16_decimal(b"65535"), Some(65535));
}

#[test]
fn rejects_malformed_numbers() {
    assert_eq!(parse_u16_decimal(b""), None);
    assert_eq!(parse_u16_decimal(b"+"), None);
    assert_eq!(parse_u16_decimal(b"-5"), None);
    assert_eq!(parse_u16_decimal(b"5o3"), None);
    assert_eq!(parse_u16_decimal(b" 503"), None);
    assert_eq!(parse_u16_decimal(b"65536"), None);
    assert_eq!(parse_u16_decimal(b"99999999"), None);
}

#[test]
fn writes_decimal_text() {
    let mut s = String::from("code ");
    push_decimal(&mut s, 0);
    assert_eq!(s, "code 0");
    let mut t = String::new();
    push_decimal(&mut t, 65535);
    assert_eq!(t, "65535");
}

#[test]
fn status_code_falls_back_to_not_found() {
    assert_eq!(parse_status_code(Some(&b"503".to_vec())), 503);
    assert_eq!(parse_status_code(Some(&b"999".to_vec())), 999);
    assert_eq!(parse_status_code(Some(&b"100".to_vec())), 100);
    assert_eq!(parse_status_code(None), 404);
    assert_eq!(parse_status_code(Some(&b"teapot".to_vec())), 404);
    assert_eq!(parse_status_code(Some(&b"99".to_vec())), 404);
    assert_eq!(parse_status_code(Some(&b"1000".to_vec())), 404);
    assert_eq!(parse_status_code(Some(&b"70000".to_vec())), 404);
}

#[test]
fn only_exact_json_media_type_selects_json() {
    assert_eq!(parse_format(Some(&b"application/json".to_vec())), Format::Json);
    assert_eq!(parse_format(Some(&b"Application/JSON".to_vec())), Format::Html);
    assert_eq!(parse_format(Some(&b"application/json; charset=utf-8".to_vec())), Format::Html);
    assert_eq!(parse_format(Some(&b"*/*".to_vec())), Format::Html);
    assert_eq!(parse_format(None), Format::Html);
}

#[test]
fn formats_name_extension_and_media_type() {
    assert_eq!(Format::Html.extension(), "html");
    assert_eq!(Format::Json.extension(), "json");
    assert_eq!(Format::Html.content_type(), "text/html");
    assert_eq!(Format::Json.content_type(), "application/json");
}

#[test]
fn protocol_labels() {
    assert_eq!(protocol_label(HttpVersion::Http09), "HTTP/0.9");
    assert_eq!(protocol_label(HttpVersion::Http10), "HTTP/1.0");
    assert_eq!(protocol_label(HttpVersion::Http11), "HTTP/1.1");
    assert_eq!(protocol_label(HttpVersion::Http2), "HTTP/2.0");
    assert_eq!(protocol_label(HttpVersion::Http3), "HTTP/3.0");
    assert_eq!(protocol_label(HttpVersion::Other), "Unknown");
}

#[test]
fn classify_reads_code_and_format() {
    let ctx = classify(HttpVersion::Http11, request(Some("503"), Some("application/json")));
    assert_eq!(ctx.status_code, 503);
    assert_eq!(ctx.format, Format::Json);
    assert_eq!(ctx.protocol, HttpVersion::Http11);
    let ctx = classify(HttpVersion::Http2, no_headers());
    assert_eq!(ctx.status_code, 404);
    assert_eq!(ctx.format, Format::Html);
}

#[test]
fn candidate_names_in_cascade_order() {
    assert_eq!(
        candidates(404, Format::Html),
        vec!["404.html", "40x.html", "4xx.html", "index.html", "index.html"]
    );
    assert_eq!(
        candidates(503, Format::Json),
        vec!["503.json", "50x.json", "5xx.json", "index.json", "index.html"]
    );
}

#[test]
fn store_keeps_the_first_artifact_of_a_name() {
    let s = store_of(&[("a.html", "one"), ("a.html", "two")]);
    assert_eq!(s.get(&"a.html".to_string()), Some("one".to_string()));
    assert_eq!(s.get(&"b.html".to_string()), None);
}

#[test]
fn cascade_prefers_the_most_specific_artifact() {
    let all = store_of(&[
        ("index.html", "i"),
        ("index.json", "ij"),
        ("5xx.json", "c"),
        ("50x.json", "d"),
        ("503.json", "e"),
    ]);
    let a = resolve(&all, 503, Format::Json);
    assert_eq!((a.format, a.body), (Format::Json, Some("e".to_string())));
    let a = resolve(&all, 504, Format::Json);
    assert_eq!((a.format, a.body), (Format::Json, Some("d".to_string())));
    let a = resolve(&all, 510, Format::Json);
    assert_eq!((a.format, a.body), (Format::Json, Some("c".to_string())));
    let a = resolve(&all, 404, Format::Json);
    assert_eq!((a.format, a.body), (Format::Json, Some("ij".to_string())));
    let a = resolve(&all, 404, Format::Html);
    assert_eq!((a.format, a.body), (Format::Html, Some("i".to_string())));
}

#[test]
fn json_request_falls_back_to_index_html_as_html() {
    let s = store_of(&[("index.html", "page")]);
    let a = resolve(&s, 500, Format::Json);
    assert_eq!(a.format, Format::Html);
    assert_eq!(a.body, Some("page".to_string()));
}

#[test]
fn nothing_found_gives_html_without_body() {
    let a = resolve(&AssetStore::new(), 500, Format::Json);
    assert_eq!(a.format, Format::Html);
    assert_eq!(a.body, None);
}

#[test]
fn env_directive_looks_up_one_entry() {
    let c = config_of(&[("FOO", "bar"), ("EMPTY", "")]);
    assert_eq!(env_directive(&c, Some(&"FOO".to_string())), "bar");
    assert_eq!(env_directive(&c, Some(&"MISSING".to_string())), "");
    assert_eq!(env_directive(&c, Some(&"EMPTY".to_string())), "");
}

#[test]
fn env_directive_dumps_all_entries() {
    let c = config_of(&[("A", "1"), ("B", "x=y")]);
    assert_eq!(env_directive(&c, None), "A=1\nB=x=y\n");
    assert_eq!(env_directive(&Config::new(), None), "");
}

#[test]
fn render_inlines_env_values() {
    let c = config_of(&[("NAME", "world")]);
    let t = "hello {{env \"NAME\"}}!".to_string();
    assert_eq!(render(&t, &c), Some("hello world!".to_string()));
    let t = "[{{env \"UNSET\"}}]".to_string();
    assert_eq!(render(&t, &c), Some("[]".to_string()));
}

#[test]
fn render_dumps_env_without_argument() {
    let c = config_of(&[("A", "1"), ("B", "2")]);
    let t = "{{env}}".to_string();
    let out = render(&t, &c).unwrap();
    let mut lines: Vec<&str> = out.lines().collect();
    lines.sort();
    assert_eq!(lines, vec!["A=1", "B=2"]);
}

#[test]
fn render_leaves_plain_text_alone() {
    let c = Config::new();
    assert_eq!(render(&"plain page".to_string(), &c), Some("plain page".to_string()));
}

#[test]
fn render_fails_on_malformed_template() {
    let c = Config::new();
    assert_eq!(render(&"{{#if}}".to_string(), &c), None);
    assert_eq!(render(&"{{env".to_string(), &c), None);
}

#[test]
fn debug_mode_spellings() {
    for on in ["1", "ok", "okay", "on", "true", "yep", "yes", "TRUE", "Yes", "On"] {
        assert!(Env::is_debug_mode(Some(on.to_string())), "{}", on);
    }
    for off in ["0", "false", "no", "off", "", " yes", "enabled"] {
        assert!(!Env::is_debug_mode(Some(off.to_string())), "{}", off);
    }
    assert!(!Env::is_debug_mode(None));
}

#[test]
fn truthy_needs_lower_case() {
    assert!(is_truthy(&"yes".to_string()));
    assert!(!is_truthy(&"YES".to_string()));
}

#[test]
fn settings_defaults_and_overrides() {
    assert_eq!(Env::parse_asset_path(None), "assets");
    assert_eq!(Env::parse_asset_path(Some("/www".to_string())), "/www");
    assert_eq!(Env::parse_metric_namespace(None), "default_backend");
    assert_eq!(Env::parse_metric_subsystem(None), "http");
    assert_eq!(Env::parse_metric_subsystem(Some("x".to_string())), "x");
    assert_eq!(Env::parse_service_address(None, None), "127.0.0.1:3000");
    assert_eq!(Env::parse_metric_address(None, None), "127.0.0.1:9402");
    assert_eq!(
        Env::parse_service_address(Some("0.0.0.0".to_string()), Some("8080".to_string())),
        "0.0.0.0:8080"
    );
}

#[test]
fn debug_echo_when_enabled_and_present() {
    let mut h = no_headers();
    h.request_id = Some(b"abc123".to_vec());
    let echo = debug_echo(true, &h);
    assert_eq!(echo, vec![("X-Request-Id".to_string(), b"abc123".to_vec())]);
}

#[test]
fn debug_echo_keeps_every_present_header() {
    let h = InboundHeaders {
        code: Some(b"503".to_vec()),
        format: Some(b"application/json".to_vec()),
        ingress_name: Some(b"ing".to_vec()),
        namespace: Some(b"ns".to_vec()),
        original_uri: Some(b"/a?b".to_vec()),
        request_id: Some(b"id".to_vec()),
        service_name: Some(b"svc".to_vec()),
        service_port: Some(b"80".to_vec()),
    };
    let names: Vec<String> = debug_echo(true, &h).into_iter().map(|(n, _)| n).collect();
    assert_eq!(
        names,
        vec![
            "X-Code",
            "X-Format",
            "X-Original-URI",
            "X-Namespace",
            "X-Ingress-Name",
            "X-Service-Name",
            "X-Service-Port",
            "X-Request-Id"
        ]
    );
    assert!(debug_echo(false, &h).is_empty());
}

#[test]
fn exact_artifact_is_served_in_requested_format() {
    let store = store_of(&[("418.json", "{\"teapot\":true}"), ("index.html", "i")]);
    let ctx = classify(HttpVersion::Http11, request(Some("418"), Some("application/json")));
    let r = respond(&ctx, false, &store, &Config::new());
    assert_eq!(r.status, 418);
    assert_eq!(r.format, Format::Json);
    assert_eq!(r.body, Some("{\"teapot\":true}".to_string()));
}

#[test]
fn century_html_only_downgrades_json_request() {
    let store = store_of(&[("4xx.html", "family")]);
    let ctx = classify(HttpVersion::Http11, request(Some("404"), Some("application/json")));
    let r = respond(&ctx, false, &store, &Config::new());
    assert_eq!(r.format, Format::Html);
    assert_eq!(r.format.content_type(), "text/html");
}

#[test]
fn empty_root_gives_empty_not_found() {
    for (code, format) in [(Some("500"), None), (Some("200"), Some("application/json")), (None, None)] {
        let ctx = classify(HttpVersion::Http11, request(code, format));
        let r = respond(&ctx, true, &AssetStore::new(), &Config::new());
        assert_eq!(r.status, 404);
        assert_eq!(r.body, None);
    }
}

#[test]
fn debug_disabled_echoes_nothing() {
    let mut h = request(Some("500"), None);
    h.request_id = Some(b"abc123".to_vec());
    let store = store_of(&[("index.html", "i")]);
    let ctx = classify(HttpVersion::Http11, h.clone());
    assert!(respond(&ctx, false, &store, &Config::new()).headers.is_empty());
    let ctx = classify(HttpVersion::Http11, h);
    let r = respond(&ctx, true, &store, &Config::new());
    assert!(r.headers.contains(&("X-Request-Id".to_string(), b"abc123".to_vec())));
    assert!(r.headers.contains(&("X-Code".to_string(), b"500".to_vec())));
}

#[test]
fn service_unavailable_json_from_century_page() {
    let store = store_of(&[("5xx.json", "{\"error\":\"{{env \"REGION\"}}\"}")]);
    let config = config_of(&[("REGION", "eu")]);
    let ctx = classify(HttpVersion::Http11, request(Some("503"), Some("application/json")));
    let r = respond(&ctx, false, &store, &config);
    assert_eq!(r.status, 503);
    assert_eq!(r.format.content_type(), "application/json");
    assert_eq!(r.body, Some("{\"error\":\"eu\"}".to_string()));
}

#[test]
fn missing_code_serves_index_as_not_found() {
    let store = store_of(&[("index.html", "<h1>gone</h1>")]);
    let ctx = classify(HttpVersion::Http11, no_headers());
    let r = respond(&ctx, false, &store, &Config::new());
    assert_eq!(r.status, 404);
    assert_eq!(r.format.content_type(), "text/html");
    assert_eq!(r.body, Some("<h1>gone</h1>".to_string()));
}

#[test]
fn render_failure_degrades_to_empty_not_found() {
    let store = store_of(&[("500.html", "{{#each}}")]);
    let ctx = classify(HttpVersion::Http11, request(Some("500"), None));
    let r = respond(&ctx, false, &store, &Config::new());
    assert_eq!(r.status, 404);
    assert_eq!(r.body, None);
}

#[test]
fn compose_uses_code_only_with_a_body() {
    let ctx = classify(HttpVersion::Http11, request(Some("502"), None));
    let r = compose(&ctx, false, Format::Html, Some("x".to_string()));
    assert_eq!(r.status, 502);
    let r = compose(&ctx, false, Format::Html, None);
    assert_eq!(r.status, 404);
    assert_eq!(r.body, None);
}

#[test]
fn plain_templates_are_accepted() {
    assert!(is_plain_template_text(""));
    assert!(is_plain_template_text("no tags at all {} [] ()"));
    assert!(is_plain_template_text("{\"error\":\"{{env \"REGION\"}}\"} (see [docs])"));
    assert!(is_plain_template_text("{{ env \"A\" }} and {{env}} and {{~env~}}"));
    assert!(is_plain_template_text("{{env \"a\"}}}"));
}

#[test]
fn partials_decorators_and_nesting_are_refused() {
    for t in [
        "{{#*inline \"a\"}}{{> a}}{{/inline}}{{> a}}",
        "{{> a}}",
        "{{~ > a}}",
        "{{ # > a}}",
        "{{*inline \"a\"}}",
        "{{#if x}}y{{/if}}",
        "{{env (env \"A\")}}",
        "{{env \"}}\" (x)}}",
        "{{lookup [a] 0}}",
        "{{{raw}}}",
        "{{env 'A'}}",
    ] {
        assert!(!is_plain_template_text(t), "{}", t);
    }
}

#[test]
fn self_including_partial_renders_to_nothing() {
    let t = "{{#*inline \"a\"}}{{> a}}{{/inline}}{{> a}}".to_string();
    assert_eq!(render(&t, &Config::new()), None);
    let store = store_of(&[("500.html", t.as_str())]);
    let ctx = classify(HttpVersion::Http11, request(Some("500"), None));
    let r = respond(&ctx, false, &store, &Config::new());
    assert_eq!(r.status, 404);
    assert_eq!(r.body, None);
}
