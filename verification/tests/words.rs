use goose_providers::words::split_words;

fn std_words(text: &str) -> Vec<String> {
    text.split_whitespace().map(|word| word.to_string()).collect()
}

#[test]
fn split_words_of_nothing() {
    assert!(split_words("").is_empty());
    assert!(split_words(" ").is_empty());
    assert!(split_words(" \t\r\n ").is_empty());
}

#[test]
fn split_words_of_one_word() {
    assert_eq!(split_words("python3"), vec!["python3"]);
    assert_eq!(split_words("  python3"), vec!["python3"]);
    assert_eq!(split_words("python3  "), vec!["python3"]);
    assert_eq!(split_words("\tpython3\n"), vec!["python3"]);
    assert_eq!(split_words("x"), vec!["x"]);
}

#[test]
fn split_words_of_a_command_line() {
    assert_eq!(
        split_words("./venv/bin/python ./wrapper.py"),
        vec!["./venv/bin/python", "./wrapper.py"]
    );
    assert_eq!(
        split_words("  /usr/bin/env\t python3 \n  run.py  --flag "),
        vec!["/usr/bin/env", "python3", "run.py", "--flag"]
    );
}

#[test]
fn split_words_keeps_what_is_no_white_space() {
    assert_eq!(split_words("a,b;c"), vec!["a,b;c"]);
    assert_eq!(split_words("\"two words\""), vec!["\"two", "words\""]);
    assert_eq!(split_words("naïve café"), vec!["naïve", "café"]);
    assert_eq!(split_words("鍵 ключ"), vec!["鍵", "ключ"]);
}

#[test]
fn split_words_knows_white_space_beyond_ascii() {
    assert_eq!(split_words("a\u{a0}b"), vec!["a", "b"]);
    assert_eq!(split_words("a\u{2003}b\u{3000}c"), vec!["a", "b", "c"]);
    assert_eq!(split_words("a\u{200b}b"), vec!["a\u{200b}b"]);
}

#[test]
fn split_words_agrees_with_the_standard_library() {
    let texts = [
        "",
        " ",
        "a",
        " a",
        "a ",
        " a ",
        "a b",
        "a  b",
        "  a \t b\nc\r\nd  ",
        "./venv/bin/python ./wrapper.py",
        "one\u{a0}two\u{2028}three\u{85}four",
        "\u{1680}x\u{2000}y\u{205f}z\u{202f}",
        "tab\tseparated\tvalues",
        "\u{b}vertical\u{c}feed",
        "emoji 🙂 and ünïcödé",
        "trailing\n",
        "\n\n\n",
    ];
    for text in texts {
        assert_eq!(split_words(text), std_words(text), "for {:?}", text);
    }
}

#[test]
fn split_words_separates_at_the_white_space_of_ascii_only() {
    for code in 0_u8..128 {
        let c = code as char;
        let blank = code == 32 || (9..=13).contains(&code);
        assert_eq!(c.is_whitespace(), blank, "for {:?}", c);
        let text = format!("a{}b", c);
        if blank {
            assert_eq!(split_words(&text), vec!["a", "b"], "for {:?}", c);
        } else {
            assert_eq!(split_words(&text), vec![text.clone()], "for {:?}", c);
        }
    }
}
