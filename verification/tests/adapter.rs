use tide_tera::{build_context, template_extension, TideTeraExt};

fn engine_with(template_name: &str, content: &str) -> tera::Tera {
    let mut tera = tera::Tera::default();
    tera.add_raw_template(template_name, content).unwrap();
    tera
}

fn pairs(items: &[(&str, &str)]) -> Vec<(String, String)> {
    items.iter().map(|(k, v)| (k.to_string(), v.to_string())).collect()
}

#[test]
fn context() {
    let context = build_context(&pairs(&[("key", "value")]));
    assert_eq!(context.into_json()["key"], "value");

    let context = build_context(&pairs(&[("key1", "value1"), ("key2", "value2")]));
    assert_eq!(context.into_json()["key2"], "value2");
}

#[test]
fn test_body() {
    let tera = engine_with("good_template.html", "hello {{ name }}!\n");
    let body = tera
        .render_body("good_template.html", &build_context(&pairs(&[("name", "tide")])))
        .unwrap();

    assert_eq!(body.mime(), &tide::http::mime::HTML);

    let body_string = async_std::task::block_on(body.into_string()).unwrap();
    assert_eq!(body_string, "hello tide!\n");
}

#[test]
fn response() {
    let tera = engine_with("good_template.html", "hello {{ name }}!\n");
    let mut response = tera
        .render_response("good_template.html", &build_context(&pairs(&[("name", "tide")])))
        .unwrap();

    assert_eq!(response.content_type(), Some(tide::http::mime::HTML));

    let body_string = async_std::task::block_on(response.take_body().into_string()).unwrap();
    assert_eq!(body_string, "hello tide!\n");
}

#[test]
fn unknown_content_type() {
    let tera = engine_with("unknown_extension.tide", "hello {{ name }}!\n");
    let body = tera
        .render_body("unknown_extension.tide", &build_context(&pairs(&[("name", "tide")])))
        .unwrap();

    assert_eq!(body.mime(), &tide::http::mime::PLAIN);
}

#[test]
fn no_extension() {
    let tera = engine_with("no_extension", "hello {{ name }}!\n");
    let body = tera
        .render_body("no_extension", &build_context(&pairs(&[("name", "tide")])))
        .unwrap();

    assert_eq!(body.mime(), &tide::http::mime::PLAIN);
}

#[test]
fn bad_template() {
    let tera = engine_with("good_template.html", "hello {{ name }}!\n");
    let result = tera.render_body("good_template.html", &build_context(&pairs(&[("framework", "tide")])));

    assert!(result.is_err());
}

#[test]
fn bad_template_response() {
    let tera = engine_with("good_template.html", "hello {{ name }}!\n");
    let result = tera.render_response("good_template.html", &build_context(&pairs(&[("framework", "tide")])));

    assert!(result.is_err());
}

#[test]
fn response_status_is_200() {
    let tera = engine_with("page.html", "ok");
    let response = tera.render_response("page.html", &build_context(&pairs(&[]))).unwrap();

    assert_eq!(u16::from(response.status()), 200);
}

#[test]
fn last_value_wins_for_duplicate_key() {
    let context = build_context(&pairs(&[("key", "first"), ("key", "second")]));
    assert_eq!(context.into_json()["key"], "second");
}

#[test]
fn empty_context() {
    let context = build_context(&pairs(&[]));
    assert!(context.into_json().as_object().unwrap().is_empty());
}

#[test]
fn context_matches_one_by_one_insertion() {
    let built = build_context(&pairs(&[("a", "1"), ("b", "2")]));
    let mut by_hand = tera::Context::new();
    by_hand.insert("a", "1");
    by_hand.insert("b", "2");
    assert_eq!(built, by_hand);
}

#[test]
fn extension_of_plain_name() {
    assert_eq!(template_extension("no_extension"), None);
}

#[test]
fn extension_of_nested_name() {
    assert_eq!(template_extension("pages/section/page.html"), Some("html"));
}

#[test]
fn extension_after_last_dot_only() {
    assert_eq!(template_extension("archive.tar.gz"), Some("gz"));
}

#[test]
fn extension_does_not_cross_segments() {
    assert_eq!(template_extension("pages.d/readme"), None);
}

#[test]
fn extension_of_trailing_dot_is_empty() {
    assert_eq!(template_extension("strange."), Some(""));
}

#[test]
fn extension_of_empty_name() {
    assert_eq!(template_extension(""), None);
}

#[test]
fn mime_for_each_known_extension() {
    let table = [
        ("html", "text/html"),
        ("js", "application/javascript"),
        ("mjs", "application/javascript"),
        ("jsonp", "application/javascript"),
        ("json", "application/json"),
        ("css", "text/css"),
        ("svg", "image/svg+xml"),
        ("xml", "application/xml"),
    ];
    for (ext, essence) in table {
        let name = format!("page.{}", ext);
        let tera = engine_with(&name, "x");
        let body = tera.render_body(&name, &build_context(&pairs(&[]))).unwrap();
        assert_eq!(body.mime().essence(), essence);
    }
}

#[test]
fn rendered_text_reaches_the_body() {
    let tera = engine_with("letter.txt", "dear {{ name }}, hello");
    let body = tera
        .render_body("letter.txt", &build_context(&pairs(&[("name", "reader")])))
        .unwrap();

    assert_eq!(body.mime(), &tide::http::mime::PLAIN);
    let body_string = async_std::task::block_on(body.into_string()).unwrap();
    assert_eq!(body_string, "dear reader, hello");
}

#[test]
fn missing_template_is_an_error() {
    let tera = tera::Tera::default();
    let result = tera.render_body("absent.html", &build_context(&pairs(&[])));
    assert!(result.is_err());
}
