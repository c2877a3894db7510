use comichost::globals::Globals;
use comichost::template::parse;
use comichost::template::get_replacement;
use comichost::template::TemplateError;

const JS_HTML: &str = "<script src=\"/js/compiled/require.js\"></script><script src=\"/js/config.js\"></script>";
const CSS_HTML: &str = "<link rel=\"stylesheet\" type=\"text/css\" href=\"/css/compiled/dev.css\" /><link rel=\"stylesheet\" type=\"text/css\" href=\"/css/style.css\" /><link rel=\"stylesheet\" type=\"text/css\" href=\"/css/comics.css\" />";

#[test]
fn plain_text_passes_through() {
    let g = Globals::new();
    assert_eq!(parse("hello world", &g).unwrap(), "hello world");
}

#[test]
fn single_braces_pass_through() {
    let g = Globals::new();
    assert_eq!(parse("a{b}c", &g).unwrap(), "a{b}c");
}

#[test]
fn token_is_replaced() {
    let g = Globals::new().with("name", "World".to_string());
    assert_eq!(parse("Hello {{name}}!", &g).unwrap(), "Hello World!");
}

#[test]
fn whitespace_inside_a_token_is_dropped() {
    let g = Globals::new().with("name", "World".to_string());
    assert_eq!(parse("Hello {{ name }}!", &g).unwrap(), "Hello World!");
}

#[test]
fn css_token_expands_to_the_stylesheet_links() {
    let g = Globals::new();
    assert_eq!(parse("{{css}}", &g).unwrap(), CSS_HTML);
}

#[test]
fn js_token_expands_to_the_script_links() {
    let g = Globals::new();
    assert_eq!(parse("{{js}}", &g).unwrap(), JS_HTML);
}

#[test]
fn two_tokens_in_one_template() {
    let g = Globals::new().with("a", "1".to_string()).with("b", "2".to_string());
    assert_eq!(parse("x{{a}}y{{b}}z", &g).unwrap(), "x1y2z");
}

#[test]
fn unknown_key_is_refused() {
    let g = Globals::new();
    assert_eq!(parse("{{missing}}", &g), Err(TemplateError::UnknownKey));
}

#[test]
fn unclosed_token_is_refused() {
    let g = Globals::new().with("x", "1".to_string());
    assert_eq!(parse("{{x", &g), Err(TemplateError::UnclosedToken));
}

#[test]
fn lone_closing_brace_in_a_token_is_refused() {
    let g = Globals::new().with("x", "1".to_string());
    assert_eq!(parse("{{x}y}}", &g), Err(TemplateError::BadTokenEnd));
}

#[test]
fn token_end_at_input_end_flushes_the_pending_brace() {
    // The engine emits plain text one character late; input ending right
    // after a token's first `}` flushes that pending brace.
    let g = Globals::new().with("x", "1".to_string());
    assert_eq!(parse("{{x}", &g).unwrap(), "}");
}

#[test]
fn replacement_lookup_prefers_reserved_names() {
    let g = Globals::new().with("css", "shadowed".to_string());
    assert_eq!(get_replacement("css", &g).unwrap(), CSS_HTML);
    assert_eq!(get_replacement("js", &g).unwrap(), JS_HTML);
    assert_eq!(get_replacement("absent", &g), None);
}

#[test]
fn empty_template_renders_empty() {
    let g = Globals::new();
    assert_eq!(parse("", &g).unwrap(), "");
}
