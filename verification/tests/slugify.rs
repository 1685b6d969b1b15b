use realworld_axum_sqlx::http::articles::slugify;

#[test]
fn articles_test_slugify() {
    assert_eq!(
        slugify("Segfaults and You: When Raw Pointers Go Wrong"),
        "segfaults-and-you-when-raw-pointers-go-wrong"
    );

    assert_eq!(
        slugify("Why are DB Admins Always Shouting?"),
        "why-are-db-admins-always-shouting"
    );

    assert_eq!(
        slugify("Converting to Rust from C: It's as Easy as 1, 2, 3!"),
        "converting-to-rust-from-c-its-as-easy-as-1-2-3"
    )
}

#[test]
fn mod_test_slugify() {
    assert_eq!(
        slugify("Segfaults and You: When Raw Pointers Go Wrong"),
        "segfaults-and-you-when-raw-pointers-go-wrong"
    );

    assert_eq!(
        slugify("Why are DB Admins Always Shouting?"),
        "why-are-db-admins-always-shouting"
    );

    assert_eq!(
        slugify("Converting to Rust from C: It's as Easy as 1, 2, 3!"),
        "converting-to-rust-from-c-its-as-easy-as-1-2-3"
    )
}

#[test]
fn slug_of_the_doc_example() {
    assert_eq!(slugify("Doctests are the Bee's Knees"), "doctests-are-the-bees-knees");
}

#[test]
fn slug_edge_cases() {
    assert_eq!(slugify(""), "");
    assert_eq!(slugify("   "), "");
    assert_eq!(slugify("?!"), "");
    assert_eq!(slugify("a"), "a");
    assert_eq!(slugify("  Hello   World  "), "hello-world");
    assert_eq!(slugify("--a--b--"), "a-b");
    assert_eq!(slugify("ABC xyz 019"), "abc-xyz-019");
    assert_eq!(slugify("under_score"), "under-score");
}

#[test]
fn slug_keeps_quoted_words_together() {
    assert_eq!(slugify("don't \"stop\""), "dont-stop");
    assert_eq!(slugify("'"), "");
    assert_eq!(slugify("a ' b"), "a--b");
    assert_eq!(slugify("' a"), "-a");
    assert_eq!(slugify("a \"\""), "a-");
}

#[test]
fn slug_beyond_ascii() {
    // Letters beyond ASCII are word chars, and are not put in lower case.
    assert_eq!(slugify("Caf\u{e9} \u{c9}t\u{e9}"), "caf\u{e9}-\u{c9}t\u{e9}");
    assert_eq!(slugify("\u{4e2d}\u{6587} title"), "\u{4e2d}\u{6587}-title");
    assert_eq!(slugify("a\u{2014}b"), "a-b");
    assert_eq!(slugify("\u{1f600}"), "");
    assert_eq!(slugify("x\u{b2}"), "x\u{b2}");
}

#[test]
fn slug_agrees_with_the_iterator_chain() {
    let chained = |string: &str| -> String {
        let quotes: &[char] = &['\'', '"'];
        string
            .split(|c: char| !(quotes.contains(&c) || c.is_alphanumeric()))
            .filter(|s| !s.is_empty())
            .map(|s| {
                let mut s = s.replace(quotes, "");
                s.make_ascii_lowercase();
                s
            })
            .collect::<Vec<String>>()
            .join("-")
    };
    for title in [
        "",
        "'",
        "a ' b",
        "Segfaults and You: When Raw Pointers Go Wrong",
        "It's \"quoted\" -- twice!",
        "\u{c9}cole \u{d1}and\u{fa} 42",
        "tab\tand\nnewline",
        "\u{7f}\u{80}x\u{aa}y",
        "MiXeD cAsE 123 \u{391}\u{3b2}",
    ] {
        assert_eq!(slugify(title), chained(title), "{:?}", title);
    }
    for code in 0u32..0x3000 {
        if let Some(c) = char::from_u32(code) {
            let title = format!("a{}b", c);
            assert_eq!(slugify(&title), chained(&title), "{:?}", title);
        }
    }
}
