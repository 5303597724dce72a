use populatrs::template::{
    strip_html_function, truncate_function, word_limit_function, TemplateContext, TemplateError,
    TemplateRenderer,
};
use populatrs::template::trim_text;

fn context(title: &str, description: &str, url: &str) -> TemplateContext {
    TemplateContext {
        title: title.to_string(),
        description: description.to_string(),
        url: url.to_string(),
    }
}

#[test]
fn test_template_rendering() {
    let renderer = TemplateRenderer::new();
    let context = TemplateContext {
        title: "Test Title".to_string(),
        description: "Test Description".to_string(),
        url: "https://example.com".to_string(),
    };

    let template = "{{ title }}: {{ description }}";
    let result = renderer.render(template, &context).unwrap();
    assert_eq!(result, "Test Title: Test Description");
}

#[test]
fn test_truncate_function() {
    let renderer = TemplateRenderer::new();
    let context = TemplateContext {
        title: "Very Long Title That Should Be Truncated".to_string(),
        description: "Description".to_string(),
        url: "https://example.com".to_string(),
    };

    let template = "{{ title | truncate(20) }}";
    let result = renderer.render(template, &context).unwrap();
    assert!(result.len() <= 24); // 20 + "..." = 23, but accounting for word boundaries
    assert!(result.contains("..."));
}

#[test]
fn render_cuts_before_the_last_space() {
    let renderer = TemplateRenderer::new();
    let c = context("Very Long Title That Should Be Truncated", "d", "u");
    // The first twenty characters are "Very Long Title That": cut before the last space.
    assert_eq!(renderer.render("{{ title | truncate(20) }}", &c).unwrap(), "Very Long Title...");
}

#[test]
fn render_trims_the_result() {
    let renderer = TemplateRenderer::new();
    let c = context("T", "D", "U");
    assert_eq!(renderer.render("  \n {{ title }} - {{ url }} \n\t", &c).unwrap(), "T - U");
    assert_eq!(renderer.render("   ", &c).unwrap(), "");
}

#[test]
fn render_refuses_a_malformed_template() {
    let renderer = TemplateRenderer::new();
    let c = context("T", "D", "U");
    assert!(matches!(renderer.render("{{ title", &c), Err(TemplateError::Parse(_))));
}

#[test]
fn render_reports_a_failing_template() {
    let renderer = TemplateRenderer::new();
    let c = context("T", "D", "U");
    assert!(matches!(
        renderer.render("{{ title | no_such_filter }}", &c),
        Err(TemplateError::Parse(_)) | Err(TemplateError::Render(_))
    ));
}

#[test]
fn render_uses_the_other_filters() {
    let renderer = TemplateRenderer::new();
    let c = context("one two three four", "<p>Hello</p><b>bold</b>", "U");
    assert_eq!(renderer.render("{{ title | word_limit(2) }}", &c).unwrap(), "one two...");
    assert_eq!(renderer.render("{{ description | strip_html(0) }}", &c).unwrap(), "Hello\nbold");
}

#[test]
fn truncate_leaves_short_text_alone() {
    assert_eq!(truncate_function(Some("short"), Some(20)), "short");
    assert_eq!(truncate_function(Some("exactly ten"), Some(11)), "exactly ten");
    assert_eq!(truncate_function(None, Some(5)), "");
    assert_eq!(truncate_function(Some("anything at all"), Some(-1)), "anything at all");
}

#[test]
fn truncate_cuts_words_whole() {
    assert_eq!(truncate_function(Some("hello world again"), Some(8)), "hello...");
    // the kept part ends in a space: the space goes
    assert_eq!(truncate_function(Some("hello world again"), Some(6)), "hello...");
    // no space in the kept part
    assert_eq!(truncate_function(Some("helloworld"), Some(4)), "hell...");
    assert_eq!(truncate_function(Some("abc"), Some(0)), "...");
}

#[test]
fn truncate_defaults_to_a_hundred() {
    let long = "a".repeat(150);
    let cut = truncate_function(Some(&long), None);
    assert_eq!(cut, format!("{}...", "a".repeat(100)));
}

#[test]
fn truncate_counts_bytes_then_characters() {
    // four characters, eight bytes: longer than six bytes, so it is cut to six characters,
    // which is all of it, and gets the ellipsis
    assert_eq!(truncate_function(Some("éééé"), Some(6)), "éééé...");
    assert_eq!(truncate_function(Some("éééé"), Some(8)), "éééé");
}

#[test]
fn word_limit_keeps_the_first_words() {
    assert_eq!(word_limit_function(Some("one two three"), Some(2)), "one two...");
    assert_eq!(word_limit_function(Some("  one \t two\nthree  "), Some(2)), "one two...");
    assert_eq!(word_limit_function(Some("one two"), Some(2)), "one two");
    assert_eq!(word_limit_function(Some("  one  two  "), Some(5)), "  one  two  ");
    assert_eq!(word_limit_function(Some("one two"), Some(0)), "...");
    assert_eq!(word_limit_function(None, Some(3)), "");
    assert_eq!(word_limit_function(Some("one two"), Some(-4)), "one two");
}

#[test]
fn word_limit_defaults_to_ten() {
    let text = "1 2 3 4 5 6 7 8 9 10 11 12";
    assert_eq!(word_limit_function(Some(text), None), "1 2 3 4 5 6 7 8 9 10...");
}

#[test]
fn strip_html_makes_plain_text() {
    assert_eq!(strip_html_function(Some("<p>Hello</p>")), "Hello");
    assert_eq!(strip_html_function(Some("a<br>b<br/>c<br />d")), "a\nb\nc\nd");
    assert_eq!(strip_html_function(Some("<div class=\"x\">Hi <b>there</b></div>")), "Hi there");
    assert_eq!(strip_html_function(Some("  line one  \r\n\r\n   line two ")), "line one\nline two");
    assert_eq!(strip_html_function(None), "");
}

#[test]
fn strip_html_keeps_an_open_angle() {
    assert_eq!(strip_html_function(Some("1 < 2")), "1 < 2");
    assert_eq!(strip_html_function(Some("<i>a</i> < b")), "a < b");
    assert_eq!(strip_html_function(Some("a > b <x> c")), "a > b  c");
}

#[test]
fn default_templates_by_kind() {
    assert_eq!(TemplateRenderer::get_default_template("x"), "{{ title | truncate(240) }}\n\n{{ url }}");
    assert_eq!(
        TemplateRenderer::get_default_template("telegram"),
        "**{{ title }}**\n\n{{ description | truncate(480) }}\n\n🔗 [Leer más]({{ url }})"
    );
    assert_eq!(
        TemplateRenderer::get_default_template("mastodon"),
        "{{ title }}\n\n{{ description | truncate(400) }}\n\n{{ url }}"
    );
    assert_eq!(
        TemplateRenderer::get_default_template("linkedin"),
        "{{ title }}\n\n{{ description | truncate(700) }}\n\nLeer más: {{ url }}"
    );
    assert_eq!(
        TemplateRenderer::get_default_template("matrix"),
        "<h3>{{ title }}</h3><p>{{ description | truncate(500) }}</p><p><a href=\"{{ url }}\">Leer más</a></p>"
    );
    assert_eq!(TemplateRenderer::get_default_template("bluesky"), "{{ title | truncate(250) }}\n\n{{ url }}");
    assert_eq!(
        TemplateRenderer::get_default_template("threads"),
        "{{ title }}\n\n{{ description | truncate(450) }}\n\n{{ url }}"
    );
    assert_eq!(
        TemplateRenderer::get_default_template("discord"),
        "**{{ title }}**\n\n{{ description | truncate(400) }}\n\n🔗 {{ url }}"
    );
    assert_eq!(
        TemplateRenderer::get_default_template("openobserve"),
        "Feed: {{ title }}\nDescription: {{ description }}\nURL: {{ url }}"
    );
    assert_eq!(
        TemplateRenderer::get_default_template("something else"),
        "{{ title }}\n\n{{ description }}\n\n{{ url }}"
    );
}

#[test]
fn default_templates_render() {
    let renderer = TemplateRenderer::default();
    let c = context("Title", "Body", "https://e.x");
    let template = TemplateRenderer::get_default_template("mastodon");
    assert_eq!(renderer.render(&template, &c).unwrap(), "Title\n\nBody\n\nhttps://e.x");
}

#[test]
fn texts_are_trimmed() {
    assert_eq!(trim_text("  a b \t\n"), "a b");
    assert_eq!(trim_text("a"), "a");
    assert_eq!(trim_text(" \u{a0}\u{2003}x\u{3000}"), "x");
    assert_eq!(trim_text("   "), "");
    assert_eq!(trim_text(""), "");
}

#[test]
fn a_filter_without_its_argument_fails_the_rendering() {
    let renderer = TemplateRenderer::new();
    let c = context("one two three", "D", "U");
    assert!(matches!(renderer.render("{{ title | word_limit }}", &c), Err(TemplateError::Render(_))));
}
