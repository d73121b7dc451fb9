use rssify::release::find_release_date;

#[test]
fn finds_the_announced_date() {
    let text = "Some words. (Alternatively, this item will become freely available on June 12, 2025)";
    assert_eq!(find_release_date(text), Some("June 12, 2025".to_string()));
}

#[test]
fn white_space_between_the_words_may_be_anything() {
    let text = "(Alternatively, this item will become freely\n   \u{a0}available on May 1, 2024)";
    assert_eq!(find_release_date(text), Some("May 1, 2024".to_string()));
    let text = "(Alternatively, this item will become freelyavailable on May 1, 2024)";
    assert_eq!(find_release_date(text), Some("May 1, 2024".to_string()));
}

#[test]
fn the_first_sentence_wins() {
    let text = "(Alternatively, this item will become freely available on March 3, 2023) and \
                (Alternatively, this item will become freely available on April 4, 2024)";
    assert_eq!(find_release_date(text), Some("March 3, 2023".to_string()));
}

#[test]
fn a_later_sentence_is_found_when_an_earlier_one_is_malformed() {
    let text = "(Alternatively, this item will become freely available on march 3, 2023) \
                (Alternatively, this item will become freely available on April 4, 2024)";
    assert_eq!(find_release_date(text), Some("April 4, 2024".to_string()));
}

#[test]
fn malformed_dates_are_not_found() {
    for text in [
        "(Alternatively, this item will become freely available on June 123, 2025)",
        "(Alternatively, this item will become freely available on June 12, 20255)",
        "(Alternatively, this item will become freely available on June 12, 202)",
        "(Alternatively, this item will become freely available on J 12, 2025)",
        "(Alternatively, this item will become freely available on June 12 2025)",
        "(Alternatively, this item will become freely available on June 12, 2025",
        "(alternatively, this item will become freely available on June 12, 2025)",
        "",
    ] {
        assert_eq!(find_release_date(text), None, "{text:?}");
    }
}

#[test]
fn any_capitalised_word_is_a_month() {
    let text = "(Alternatively, this item will become freely available on Smarch 40, 1999)";
    assert_eq!(find_release_date(text), Some("Smarch 40, 1999".to_string()));
}

#[test]
fn agrees_with_the_regular_expression() {
    let re = regex::Regex::new(
        r#"(?m)\(Alternatively, this item will become freely\s*available on ([A-Z][a-z]+ [0-9]{1,2}, [0-9]{4})\)"#,
    )
    .unwrap();
    let prefix = "(Alternatively, this item will become freely";
    let dates = [
        "June 12, 2025", "May 1, 2024", "June 123, 2025", "June 12, 20255", "J 12, 2025", "Ju ne 12, 2025",
        "June 1a, 2025", "June , 2025", "Éte 12, 2025", "June 12,2025", "JUNE 12, 2025",
    ];
    let spaces = ["", " ", "\n\t ", "\u{2003}", "\u{200b}", "x "];
    let endings = [")", "", "))", ") and more"];
    for date in dates {
        for space in spaces {
            for ending in endings {
                for lead in ["", "text ", "(Alternatively, "] {
                    let text = format!("{lead}{prefix}{space}available on {date}{ending}");
                    let expected = re.captures(&text).and_then(|c| c.get(1)).map(|m| m.as_str().to_string());
                    assert_eq!(find_release_date(&text), expected, "{text:?}");
                }
            }
        }
    }
}
