use kerbridge_client::macos::wrap::{chunks, columns, wrap, WRAP_COLUMNS};

/// The line that provoked this: a failure sentence with the URL that produced it,
/// which unbroken set the width of the whole menu.
#[test]
fn a_failure_sentence_is_broken_to_the_budget() {
    let long = "Network: kerbridge.example.site didn't answer. (fetching broker /config: \
                GET https://kerbridge.example.site/config: timeout: global)";
    let wrapped = wrap(long);
    assert!(wrapped.contains('\n'));
    for line in wrapped.lines() {
        assert!(columns(line) <= WRAP_COLUMNS, "{line:?}");
    }
    // Nothing but the breaks changed.
    assert_eq!(
        wrapped.split_whitespace().collect::<Vec<_>>(),
        long.split_whitespace().collect::<Vec<_>>()
    );
}

#[test]
fn a_line_inside_the_budget_is_left_alone() {
    let short = "Can't reach kerbridge.example.site";
    assert_eq!(wrap(short), short);
}

/// A URL long enough to overflow a line on its own has no space to break at, and
/// neither does any of the CJK tables -- so the split has to be able to land mid-word
/// or those stay exactly as wide as they were.
#[test]
fn a_word_that_cannot_fit_is_split_anyway() {
    let url = format!("https://{}.example.site/config", "a".repeat(120));
    for line in wrap(&url).lines() {
        assert!(columns(line) <= WRAP_COLUMNS, "{line:?}");
    }

    // Two columns each and not one space between them: counting characters would leave
    // this twice as wide as the budget.
    let ja = "この Mac は共有にアクセスできません".repeat(6);
    let wrapped = wrap(&ja);
    assert!(wrapped.contains('\n'));
    for line in wrapped.lines() {
        assert!(columns(line) <= WRAP_COLUMNS, "{line:?}");
    }
}

#[test]
fn a_split_word_loses_nothing() {
    let word = "x".repeat(120);
    assert_eq!(chunks(&word), [&word[..56], &word[56..112], &word[112..]]);
    let wide = "共".repeat(30);
    assert_eq!(chunks(&wide).len(), 2);
    assert_eq!(chunks(&wide).concat(), wide);
    let solid = |s: &str| s.chars().filter(|c| !c.is_whitespace()).collect::<String>();
    let text = format!("  {word} and\t{wide}\n after ");
    assert_eq!(solid(&wrap(&text)), solid(&text));
}

#[test]
fn white_space_alone_wraps_to_nothing() {
    assert_eq!(wrap(""), "");
    assert_eq!(wrap(" \n\t "), "");
    assert_eq!(wrap("  a  b  "), "a b");
}

#[test]
fn a_character_is_one_column_or_two() {
    assert_eq!(columns("a"), 1);
    assert_eq!(columns("é"), 1);
    assert_eq!(columns("한"), 2);
    assert_eq!(columns("Ａ"), 2);
    assert_eq!(columns("\u{20000}"), 2);
}

#[test]
fn wrapping_twice_is_wrapping_once() {
    let long = "a".repeat(130);
    let text = format!("short words stand around {long} and  stay whole, {}", "日本語".repeat(30));
    let once = wrap(&text);
    assert_eq!(wrap(&once), once);
    let words: Vec<&str> = once.split_whitespace().collect();
    for word in text.split_whitespace().filter(|w| columns(w) <= WRAP_COLUMNS) {
        assert!(words.contains(&word), "{word}");
    }
    let lines: Vec<&str> = once.split('\n').collect();
    assert!(lines.len() > 3);
    for l in &lines {
        assert!(columns(l) <= WRAP_COLUMNS && l.trim() == *l && !l.is_empty(), "{l:?}");
    }
    // No break is needless.
    for pair in lines.windows(2) {
        let first = pair[1].split_whitespace().next().unwrap();
        assert!(columns(pair[0]) + 1 + columns(first) > WRAP_COLUMNS, "{pair:?}");
    }
}
