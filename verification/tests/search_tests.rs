use gospel_search::{Gospel, SearchError, SearchParams};

fn one_verse_blob(volume_slug: &str, book_slug: &str, reference: &str, text: &str) -> String {
    format!(
        r#"{{"lds_slug": "{}", "books": [{{"lds_slug": "{}", "chapters": [{{"chapter": 1, "verses": [
            {{"verse": 1, "reference": "{}", "text": "{}"}}
        ]}}]}}]}}"#,
        volume_slug, book_slug, reference, text
    )
}

fn dc_blob(text: &str) -> String {
    format!(
        r#"{{"lds_slug": "dc", "sections": [{{"section": 1, "verses": [
            {{"verse": 1, "reference": "D&C 1:1", "text": "{}"}}
        ]}}]}}"#,
        text
    )
}

/// One distinct passage per volume, so a result betrays which volume it
/// came from.
fn corpus() -> Gospel {
    Gospel::new(
        one_verse_blob("bofm", "1-ne", "1 Nephi 1:1", "alpha faith"),
        dc_blob("delta faith"),
        one_verse_blob("nt", "matt", "Matthew 1:1", "gamma faith"),
        one_verse_blob("ot", "gen", "Genesis 1:1", "beta faith"),
        one_verse_blob("pgp", "moses", "Moses 1:1", "epsilon faith"),
    )
}

#[test]
fn empty_query_yields_no_results() {
    let g = corpus();
    let all = SearchParams::new();
    assert_eq!(g.search("", &all).unwrap().len(), 0);
    let mut none = SearchParams::new();
    none.bom = false;
    none.ot = false;
    none.nt = false;
    none.dc = false;
    none.pogp = false;
    assert_eq!(g.search("", &none).unwrap().len(), 0);
    let mut word_case = SearchParams::new();
    word_case.word = true;
    word_case.case = true;
    assert_eq!(g.search("", &word_case).unwrap().len(), 0);
}

#[test]
fn case_insensitive_search_matches_any_casing() {
    let g = Gospel::new(
        one_verse_blob("bofm", "1-ne", "1 Nephi 1:1", "And God spake"),
        "".to_string(),
        "".to_string(),
        "".to_string(),
        "".to_string(),
    );
    let p = SearchParams::new();
    assert_eq!(g.search("god", &p).unwrap().len(), 1);
    assert_eq!(g.search("GOD", &p).unwrap().len(), 1);
    assert_eq!(g.search("God", &p).unwrap().len(), 1);
}

#[test]
fn case_sensitive_search_requires_exact_casing() {
    let g = Gospel::new(
        one_verse_blob("bofm", "1-ne", "1 Nephi 1:1", "And God spake"),
        "".to_string(),
        "".to_string(),
        "".to_string(),
        "".to_string(),
    );
    let mut p = SearchParams::new();
    p.case = true;
    assert_eq!(g.search("god", &p).unwrap().len(), 0);
    assert_eq!(g.search("God", &p).unwrap().len(), 1);
}

#[test]
fn word_mode_respects_word_boundaries() {
    let g = Gospel::new(
        one_verse_blob("bofm", "1-ne", "1 Nephi 1:1", "they kept singing"),
        dc_blob("and they repented of their Sin."),
        "".to_string(),
        "".to_string(),
        "".to_string(),
    );
    let mut p = SearchParams::new();
    p.word = true;
    let results = g.search("sin", &p).unwrap();
    // "singing" must not match; "Sin." must (punctuation sits at a word
    // boundary, and matching is case-insensitive by default).
    assert_eq!(results.len(), 1);
    assert!(results[0].contains("D&amp;C 1:1") || results[0].contains("D&C 1:1"));
    // Substring mode matches both.
    let p = SearchParams::new();
    assert_eq!(g.search("sin", &p).unwrap().len(), 2);
}

#[test]
fn all_flags_false_yields_nothing() {
    let g = corpus();
    let mut p = SearchParams::new();
    p.bom = false;
    p.ot = false;
    p.nt = false;
    p.dc = false;
    p.pogp = false;
    assert_eq!(g.search("faith", &p).unwrap().len(), 0);
}

#[test]
fn single_flag_restricts_to_that_volume() {
    let g = corpus();
    let base = {
        let mut p = SearchParams::new();
        p.bom = false;
        p.ot = false;
        p.nt = false;
        p.dc = false;
        p.pogp = false;
        p
    };
    let mut p = base.copy();
    p.bom = true;
    let r = g.search("faith", &p).unwrap();
    assert_eq!(r.len(), 1);
    assert!(r[0].contains("alpha"));
    let mut p = base.copy();
    p.ot = true;
    let r = g.search("faith", &p).unwrap();
    assert_eq!(r.len(), 1);
    assert!(r[0].contains("beta"));
    let mut p = base.copy();
    p.nt = true;
    let r = g.search("faith", &p).unwrap();
    assert_eq!(r.len(), 1);
    assert!(r[0].contains("gamma"));
    let mut p = base.copy();
    p.dc = true;
    let r = g.search("faith", &p).unwrap();
    assert_eq!(r.len(), 1);
    assert!(r[0].contains("delta"));
    let mut p = base.copy();
    p.pogp = true;
    let r = g.search("faith", &p).unwrap();
    assert_eq!(r.len(), 1);
    assert!(r[0].contains("epsilon"));
}

#[test]
fn results_come_in_the_fixed_volume_order() {
    let g = corpus();
    let r = g.search("faith", &SearchParams::new()).unwrap();
    assert_eq!(r.len(), 5);
    assert!(r[0].contains("alpha"));
    assert!(r[1].contains("beta"));
    assert!(r[2].contains("gamma"));
    assert!(r[3].contains("delta"));
    assert!(r[4].contains("epsilon"));
}

#[test]
fn two_occurrences_give_one_result_with_two_highlights() {
    let g = Gospel::new(
        one_verse_blob("bofm", "1-ne", "1 Nephi 1:1", "pray always, and pray again"),
        "".to_string(),
        "".to_string(),
        "".to_string(),
        "".to_string(),
    );
    let r = g.search("pray", &SearchParams::new()).unwrap();
    assert_eq!(r.len(), 1);
    let spans = r[0].matches("<span style=\"color: red;\">").count();
    assert_eq!(spans, 2);
    assert!(r[0].contains("<span style=\"color: red;\">pray</span> always, and <span style=\"color: red;\">pray</span> again"));
}

#[test]
fn example_search_formats_link_anchor_and_highlight() {
    let g = Gospel::new(
        "".to_string(),
        "".to_string(),
        "".to_string(),
        one_verse_blob(
            "ot",
            "gen",
            "Genesis 1:1",
            "In the beginning God created the heaven and the earth.",
        ),
        "".to_string(),
    );
    let r = g.search("god", &SearchParams::new()).unwrap();
    assert_eq!(r.len(), 1);
    assert_eq!(
        r[0],
        "<b><a href=\"https://www.churchofjesuschrist.org/study/scriptures/ot/gen/1?id=p1#p1\" \
         target=\"_blank\" rel=\"noopener noreferrer\">Genesis 1:1</a></b> - In the beginning \
         <span style=\"color: red;\">God</span> created the heaven and the earth."
    );
}

#[test]
fn invalid_pattern_is_an_error_not_an_empty_result() {
    let g = corpus();
    let r = g.search("(", &SearchParams::new());
    assert_eq!(r, Err(SearchError::InvalidPattern));
    let r = g.search("[a-", &SearchParams::new());
    assert!(matches!(r, Err(SearchError::InvalidPattern)));
}

#[test]
fn pattern_metacharacters_pass_through_unescaped() {
    let g = Gospel::new(
        one_verse_blob("bofm", "1-ne", "1 Nephi 1:1", "a big record"),
        "".to_string(),
        "".to_string(),
        "".to_string(),
        "".to_string(),
    );
    // The dot is handed to the pattern engine as-is and matches any character.
    let r = g.search("b.g", &SearchParams::new()).unwrap();
    assert_eq!(r.len(), 1);
}

#[test]
fn default_params_include_everything_insensitive_substring() {
    let p = SearchParams::new();
    assert!(p.bom && p.ot && p.nt && p.dc && p.pogp);
    assert!(!p.word);
    assert!(!p.case);
    let d = SearchParams::default();
    assert!(d.bom && d.ot && d.nt && d.dc && d.pogp);
    assert!(!d.word);
    assert!(!d.case);
}

#[test]
fn copied_params_share_no_state() {
    let mut a = SearchParams::new();
    let mut b = a.copy();
    assert_eq!(a.bom, b.bom);
    assert_eq!(a.word, b.word);
    b.bom = false;
    b.word = true;
    assert!(a.bom);
    assert!(!a.word);
    a.case = true;
    assert!(!b.case);
}

#[test]
fn word_and_case_modes_combine() {
    let g = Gospel::new(
        one_verse_blob("bofm", "1-ne", "1 Nephi 1:1", "sinful ways"),
        dc_blob("their Sin. And more"),
        "".to_string(),
        "".to_string(),
        "".to_string(),
    );
    let mut p = SearchParams::new();
    p.word = true;
    p.case = true;
    // "Sin" as a whole case-sensitive word: "sinful" fails both tests,
    // "Sin." passes both.
    let r = g.search("Sin", &p).unwrap();
    assert_eq!(r.len(), 1);
    assert!(r[0].contains("Sin"));
    // The same query without word mode still skips "sinful" (casing).
    let mut p = SearchParams::new();
    p.case = true;
    assert_eq!(g.search("Sin", &p).unwrap().len(), 1);
    // And without case mode it matches both passages.
    let mut p = SearchParams::new();
    p.word = true;
    assert_eq!(g.search("sin", &p).unwrap().len(), 1);
    p.word = false;
    assert_eq!(g.search("sin", &p).unwrap().len(), 2);
}
