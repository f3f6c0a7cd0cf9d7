use codex_translate::splitter::{extract_first_bold, extract_reasoning_body, split};

#[test]
fn split_title_and_body() {
    let (title, body) = split("**Thinking**\nHello");
    assert_eq!(title.as_deref(), Some("Thinking"));
    assert_eq!(body.as_deref(), Some("Hello"));
}

#[test]
fn split_without_bold() {
    assert_eq!(split("no bold here"), (None, None));
}

#[test]
fn split_title_only() {
    let (title, body) = split("**Empty**");
    assert_eq!(title.as_deref(), Some("Empty"));
    assert_eq!(body, None);
}

#[test]
fn title_is_trimmed() {
    assert_eq!(extract_first_bold("intro **  Plan  ** rest").as_deref(), Some("Plan"));
}

#[test]
fn empty_first_pair_gives_no_title() {
    assert_eq!(extract_first_bold("**   ** then **Real**"), None);
    assert_eq!(extract_reasoning_body("**   ** then").as_deref(), Some("then"));
}

#[test]
fn unterminated_delimiter() {
    assert_eq!(extract_first_bold("**open but never closed"), None);
    assert_eq!(extract_reasoning_body("**open but never closed"), None);
}

#[test]
fn first_match_wins_without_nesting() {
    assert_eq!(extract_first_bold("**a **b** c**").as_deref(), Some("a"));
    assert_eq!(extract_reasoning_body("**a **b** c**").as_deref(), Some("b** c**"));
}

#[test]
fn body_is_left_trimmed_and_surrounding_space_ignored() {
    assert_eq!(extract_reasoning_body("  \n**T**   \n  body text \n").as_deref(), Some("body text"));
    assert_eq!(extract_reasoning_body("**T**   \n  "), None);
}

#[test]
fn non_ascii_text() {
    let (title, body) = split("**思考中**\n内容");
    assert_eq!(title.as_deref(), Some("思考中"));
    assert_eq!(body.as_deref(), Some("内容"));
}
