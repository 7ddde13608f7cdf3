use jlpt_checker::detect::{
    classify, contains_keyword, digest_changed, message_for, Classification,
};

fn digest(text: &str) -> String {
    String::from(text)
}

#[test]
fn first_run_is_classified_as_changed() {
    let found = classify(&digest("aa"), &None, "nothing to see", "2026");
    assert_eq!(found, Classification::ContentChanged);
    assert!(digest_changed(&digest("aa"), &None));
}

#[test]
fn same_digest_is_classified_as_unchanged() {
    let found = classify(&digest("aa"), &Some(digest("aa")), "nothing to see", "2026");
    assert_eq!(found, Classification::Unchanged);
    assert!(!digest_changed(&digest("aa"), &Some(digest("aa"))));
}

#[test]
fn different_digest_is_classified_as_changed() {
    let found = classify(&digest("aa"), &Some(digest("ab")), "nothing to see", "2026");
    assert_eq!(found, Classification::ContentChanged);
    assert!(digest_changed(&digest("aa"), &Some(digest("ab"))));
}

#[test]
fn keyword_wins_over_an_unchanged_digest() {
    let found = classify(&digest("aa"), &Some(digest("aa")), "JLPT 2026 dates", "2026");
    assert_eq!(found, Classification::KeywordFound);
}

#[test]
fn keyword_wins_over_a_changed_digest() {
    let found = classify(&digest("aa"), &Some(digest("ab")), "JLPT 2026 dates", "2026");
    assert_eq!(found, Classification::KeywordFound);
    let found = classify(&digest("aa"), &None, "JLPT 2026 dates", "2026");
    assert_eq!(found, Classification::KeywordFound);
}

#[test]
fn keyword_is_found_anywhere_in_the_content() {
    assert!(contains_keyword("2026 at the start", "2026"));
    assert!(contains_keyword("in the 2026 middle", "2026"));
    assert!(contains_keyword("at the end 2026", "2026"));
    assert!(contains_keyword("2026", "2026"));
}

#[test]
fn keyword_is_not_found_where_it_is_not() {
    assert!(!contains_keyword("", "2026"));
    assert!(!contains_keyword("202", "2026"));
    assert!(!contains_keyword("2025 and 2027 and 20 26", "2026"));
}

#[test]
fn keyword_match_is_case_sensitive() {
    assert!(contains_keyword("Exam dates announced", "Exam"));
    assert!(!contains_keyword("exam dates announced", "Exam"));
}

#[test]
fn empty_keyword_is_found_everywhere() {
    assert!(contains_keyword("abc", ""));
    assert!(contains_keyword("", ""));
}

#[test]
fn keyword_with_non_ascii_characters() {
    assert!(contains_keyword("日本語能力試験", "能力"));
    assert!(!contains_keyword("日本語能力試験", "力能"));
}

#[test]
fn message_for_each_classification() {
    assert_eq!(
        message_for(Classification::KeywordFound),
        "JLPT 2026 dates may have been announced! Check https://www.ucd.ie/japan/exams/"
    );
    assert_eq!(
        message_for(Classification::ContentChanged),
        "UCD JLPT page has been updated. Check https://www.ucd.ie/japan/exams/"
    );
    assert_eq!(
        message_for(Classification::Unchanged),
        "JLPT check complete - no changes detected."
    );
}
