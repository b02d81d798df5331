use postgate::slug::{generate, normalize};

#[test]
fn title_hello_world_becomes_hello_world() {
    assert_eq!(generate("Hello, World!", None, Some(20)), "hello-world");
}

#[test]
fn long_title_is_cut_without_trailing_separator() {
    let s = generate("The quick brown fox jumps over", None, Some(20));
    assert_eq!(s, "the-quick-brown-fox");
    assert!(s.len() <= 20);
}

#[test]
fn unbounded_title_is_not_cut() {
    assert_eq!(generate("The quick brown fox jumps over", None, None), "the-quick-brown-fox-jumps-over");
}

#[test]
fn explicit_slug_is_normalized_and_not_cut() {
    assert_eq!(generate("ignored title", Some("My Custom  Slug!"), Some(5)), "my-custom-slug");
}

#[test]
fn empty_title_gives_empty_slug() {
    assert_eq!(generate("", None, Some(20)), "");
    assert_eq!(generate("?!", None, Some(20)), "");
}

#[test]
fn generated_slug_is_stable_under_normalization() {
    for title in ["Hello, World!", "  --Rust & Verus--  ", "The quick brown fox jumps over", "a"] {
        let out = generate(title, None, Some(20));
        assert_eq!(generate(&out, None, Some(20)), out);
        assert_eq!(generate("other", Some(&out), Some(3)), out);
        assert_eq!(normalize(&out), out);
    }
}

#[test]
fn username_is_normalized() {
    assert_eq!(normalize("Jane Doe"), "jane-doe");
}
