use ztl::slugs::slugify;

#[test]
fn slug_lowers_and_hyphenates() {
    assert_eq!(slugify("Panda Bamboo"), "panda-bamboo");
    assert_eq!(slugify("My Test String!!!1!1"), "my-test-string-1-1");
    assert_eq!(slugify("test\nit   now!"), "test-it-now");
    assert_eq!(slugify("user@example.com"), "user-example-com");
}

#[test]
fn slug_has_no_hyphen_at_either_end() {
    assert_eq!(slugify("  --test_-_cool"), "test-cool");
    assert_eq!(slugify("cool--"), "cool");
    assert_eq!(slugify("-"), "");
}

#[test]
fn slug_of_nothing_is_empty() {
    assert_eq!(slugify(""), "");
    assert_eq!(slugify("?!"), "");
}

#[test]
fn slug_transliterates_other_scripts() {
    assert_eq!(slugify("Æúű--cool?"), "aeuu-cool");
    assert_eq!(slugify("Zettel für später"), "zettel-fur-spater");
}

#[test]
fn slug_of_a_slug_is_itself() {
    for slug in ["panda", "panda-bamboo", "a-1-b", "0", ""] {
        assert_eq!(slugify(slug), slug);
    }
}

#[test]
fn slugify_is_idempotent() {
    for name in [
        "Panda Bamboo",
        "  --test_-_cool",
        "Æúű--cool?",
        "You & Me",
        "tabs\tand\nlines",
        "UPPER lower 123",
        "北京",
        "---",
        "",
    ] {
        let once = slugify(name);
        assert_eq!(slugify(&once), once);
    }
}
