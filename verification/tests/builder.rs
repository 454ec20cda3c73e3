use html_index::Builder;

const PREFIX: &str = "<!DOCTYPE html><html lang=\"en-US\"><head><meta charset=\"utf-8\"><meta name=\"viewport\" content=\"width=device-width, initial-scale=1.0\">";

fn doc(head_rest: &str, body: &str) -> String {
    format!("{}{}</head>{}</html>", PREFIX, head_rest, body)
}

#[test]
fn should_work() {
    let res = Builder::new()
        .raw_body("<body>hello world</body>")
        .script("/bundle.js")
        .style("/bundle.css")
        .build();

    let expected = doc(
        &format!(
            "<script src=\"/bundle.js\" defer></script><script>{}</script><link rel=\"preload\" as=\"style\" href=\"/bundle.css\" onload=\"this.rel='stylesheet'\" onerror=\"this.rel='stylesheet'\">",
            css_rel_preload::CSS_REL_PRELOAD
        ),
        "<body>hello world</body>",
    );
    assert_eq!(res, expected);
}

#[test]
fn empty_config_renders_boilerplate_only() {
    let res = Builder::new().build();
    assert_eq!(res, doc("", ""));
}

#[test]
fn free_function_new_equals_builder_new() {
    assert_eq!(html_index::new().build(), Builder::new().build());
}

#[test]
fn lang_overwrites_default() {
    let res = Builder::new().lang("de-DE").build();
    assert_eq!(
        res,
        "<!DOCTYPE html><html lang=\"de-DE\"><head><meta charset=\"utf-8\"><meta name=\"viewport\" content=\"width=device-width, initial-scale=1.0\"></head></html>"
    );
}

#[test]
fn title_and_description_in_order() {
    let res = Builder::new().title("Hi").description("desc").build();
    assert_eq!(
        res,
        doc(
            "<title>Hi</title><meta name=\"description\" content=\"desc\">",
            ""
        )
    );
}

#[test]
fn theme_color_renders_meta_tag() {
    let res = Builder::new().theme_color("#fff123").build();
    assert_eq!(res, doc("<meta name=\"theme-color\" content=\"#fff123\">", ""));
}

#[test]
fn favicon_renders_icon_link() {
    let res = Builder::new().favicon("/favicon.ico").build();
    assert_eq!(
        res,
        doc(
            "<link rel=\"icon\" type=\"image/x-icon\" href=\"/favicon.ico\">",
            ""
        )
    );
}

#[test]
fn manifest_renders_manifest_link() {
    let res = Builder::new().manifest("/site.webmanifest").build();
    assert_eq!(res, doc("<link rel=\"manifest\" href=\"/site.webmanifest\">", ""));
}

#[test]
fn font_renders_preload_link() {
    let res = Builder::new().font("/font.woff2").build();
    assert_eq!(
        res,
        doc(
            "<link rel=\"preload\" as=\"font\" crossorigin href=\"/font.woff2\">",
            ""
        )
    );
}

#[test]
fn script_renders_deferred_tag() {
    let res = Builder::new().script("/a.js").build();
    assert_eq!(res, doc("<script src=\"/a.js\" defer></script>", ""));
}

#[test]
fn lazy_script_renders_prefetch_link() {
    let res = Builder::new().lazy_script("/a.js").build();
    assert_eq!(res, doc("<link rel=\"prefetch\" href=\"/a.js\">", ""));
}

#[test]
fn blocking_script_renders_plain_tag() {
    let res = Builder::new().blocking_script("/a.js").build();
    assert_eq!(res, doc("<script src=\"/a.js\"></script>", ""));
}

#[test]
fn inline_script_wraps_literal_text() {
    let res = Builder::new().inline_script("alert(1)").build();
    assert_eq!(res, doc("<script>alert(1)</script>", ""));
}

#[test]
fn inline_style_wraps_literal_text() {
    let res = Builder::new().inline_style("body{margin:0}").build();
    assert_eq!(res, doc("<style>body{margin:0}</style>", ""));
}

#[test]
fn blocking_style_renders_stylesheet_link() {
    let res = Builder::new().blocking_style("/a.css").build();
    assert_eq!(res, doc("<link rel=\"stylesheet\" href=\"/a.css\">", ""));
}

#[test]
fn style_injects_polyfill_script() {
    let res = Builder::new().style("/a.css").build();
    let expected = doc(
        &format!(
            "<script>{}</script><link rel=\"preload\" as=\"style\" href=\"/a.css\" onload=\"this.rel='stylesheet'\" onerror=\"this.rel='stylesheet'\">",
            css_rel_preload::CSS_REL_PRELOAD
        ),
        "",
    );
    assert_eq!(res, expected);
}

#[test]
fn style_twice_injects_polyfill_once() {
    let res = Builder::new().style("/a.css").style("/b.css").build();
    let polyfill = format!("<script>{}</script>", css_rel_preload::CSS_REL_PRELOAD);
    assert_eq!(res.matches(&polyfill).count(), 1);
    let expected = doc(
        &format!(
            "{}<link rel=\"preload\" as=\"style\" href=\"/a.css\" onload=\"this.rel='stylesheet'\" onerror=\"this.rel='stylesheet'\"><link rel=\"preload\" as=\"style\" href=\"/b.css\" onload=\"this.rel='stylesheet'\" onerror=\"this.rel='stylesheet'\">",
            polyfill
        ),
        "",
    );
    assert_eq!(res, expected);
}

#[test]
fn scripts_keep_call_order_with_polyfill_at_first_style_call() {
    let res = Builder::new()
        .script("/first.js")
        .style("/mid.css")
        .lazy_script("/last.js")
        .build();
    let expected = doc(
        &format!(
            "<script src=\"/first.js\" defer></script><script>{}</script><link rel=\"prefetch\" href=\"/last.js\"><link rel=\"preload\" as=\"style\" href=\"/mid.css\" onload=\"this.rel='stylesheet'\" onerror=\"this.rel='stylesheet'\">",
            css_rel_preload::CSS_REL_PRELOAD
        ),
        "",
    );
    assert_eq!(res, expected);
}

#[test]
fn sequences_render_in_fixed_slot_order() {
    let res = Builder::new()
        .font("/f.woff2")
        .blocking_style("/s.css")
        .blocking_script("/j.js")
        .build();
    assert_eq!(
        res,
        doc(
            "<script src=\"/j.js\"></script><link rel=\"stylesheet\" href=\"/s.css\"><link rel=\"preload\" as=\"font\" crossorigin href=\"/f.woff2\">",
            ""
        )
    );
}

#[test]
fn singleton_setters_keep_last_value_only() {
    let res = Builder::new().title("A").title("B").build();
    assert_eq!(res, doc("<title>B</title>", ""));
    assert!(!res.contains("<title>A</title>"));
}

#[test]
fn unset_optional_fields_leave_no_tags() {
    let res = Builder::new().build();
    assert!(!res.contains("<title>"));
    assert!(!res.contains("name=\"description\""));
    assert!(!res.contains("name=\"theme-color\""));
    assert!(!res.contains("rel=\"icon\""));
    assert!(!res.contains("rel=\"manifest\""));
    assert!(!res.contains("<body>"));
}

#[test]
fn every_output_starts_with_doctype_and_single_boilerplate_metas() {
    let outputs = vec![
        Builder::new().build(),
        Builder::new().title("t").raw_body("<body>x</body>").build(),
        Builder::new().style("/a.css").font("/f.woff2").build(),
    ];
    for res in outputs {
        assert!(res.starts_with("<!DOCTYPE html>"));
        assert_eq!(res.matches("<meta charset=\"utf-8\">").count(), 1);
        assert_eq!(res.matches("<meta name=\"viewport\"").count(), 1);
    }
}

#[test]
fn raw_body_is_interpolated_verbatim() {
    let res = Builder::new().raw_body("<body>a & <b>\"c\"</b></body>").build();
    assert_eq!(res, doc("", "<body>a & <b>\"c\"</b></body>"));
}

#[test]
fn title_and_description_precede_scripts() {
    let res = Builder::new()
        .script("/a.js")
        .title("Hi")
        .description("desc")
        .build();
    assert_eq!(
        res,
        doc(
            "<title>Hi</title><meta name=\"description\" content=\"desc\"><script src=\"/a.js\" defer></script>",
            ""
        )
    );
}

#[test]
fn empty_strings_interpolate_verbatim() {
    let res = Builder::new().title("").lang("").build();
    assert_eq!(
        res,
        "<!DOCTYPE html><html lang=\"\"><head><meta charset=\"utf-8\"><meta name=\"viewport\" content=\"width=device-width, initial-scale=1.0\"><title></title></head></html>"
    );
}
