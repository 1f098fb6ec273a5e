use gospel_search::{load_volume_chapters, load_volume_sections, Gospel};

fn chapter_blob() -> String {
    r#"{
        "lds_slug": "bofm",
        "books": [
            {
                "lds_slug": "1-ne",
                "chapters": [
                    {
                        "chapter": 1,
                        "verses": [
                            {"verse": 1, "reference": "1 Nephi 1:1", "text": "I, Nephi, having been born of goodly parents"},
                            {"verse": 2, "reference": "1 Nephi 1:2", "text": "Yea, I make a record in the language of my father"}
                        ]
                    },
                    {
                        "chapter": 2,
                        "verses": [
                            {"verse": 1, "reference": "1 Nephi 2:1", "text": "For behold, it came to pass"}
                        ]
                    }
                ]
            },
            {
                "lds_slug": "2-ne",
                "chapters": [
                    {
                        "chapter": 31,
                        "verses": [
                            {"verse": 20, "reference": "2 Nephi 31:20", "text": "Wherefore, ye must press forward"}
                        ]
                    }
                ]
            }
        ]
    }"#
    .to_string()
}

fn section_blob() -> String {
    r#"{
        "lds_slug": "dc",
        "sections": [
            {
                "section": 4,
                "verses": [
                    {"verse": 1, "reference": "D&C 4:1", "text": "Now behold, a marvelous work is about to come forth"},
                    {"verse": 2, "reference": "D&C 4:2", "text": "Therefore, O ye that embark in the service of God"}
                ]
            },
            {
                "section": 76,
                "verses": [
                    {"verse": 22, "reference": "D&C 76:22", "text": "And now, after the many testimonies"}
                ]
            }
        ]
    }"#
    .to_string()
}

#[test]
fn chapter_volume_has_one_passage_per_verse_in_order() {
    let vol = load_volume_chapters(&chapter_blob());
    assert_eq!(vol.len(), 4);
    assert_eq!(vol[0].reference, "1 Nephi 1:1");
    assert_eq!(vol[0].text, "I, Nephi, having been born of goodly parents");
    assert_eq!(vol[1].reference, "1 Nephi 1:2");
    assert_eq!(vol[2].reference, "1 Nephi 2:1");
    assert_eq!(vol[3].reference, "2 Nephi 31:20");
}

#[test]
fn chapter_volume_links_follow_the_template() {
    let vol = load_volume_chapters(&chapter_blob());
    assert_eq!(
        vol[0].link,
        "https://www.churchofjesuschrist.org/study/scriptures/bofm/1-ne/1?id=p1#p1"
    );
    assert_eq!(
        vol[1].link,
        "https://www.churchofjesuschrist.org/study/scriptures/bofm/1-ne/1?id=p2#p2"
    );
    assert_eq!(
        vol[2].link,
        "https://www.churchofjesuschrist.org/study/scriptures/bofm/1-ne/2?id=p1#p1"
    );
    assert_eq!(
        vol[3].link,
        "https://www.churchofjesuschrist.org/study/scriptures/bofm/2-ne/31?id=p20#p20"
    );
}

#[test]
fn section_volume_has_one_passage_per_verse_in_order() {
    let vol = load_volume_sections(&section_blob());
    assert_eq!(vol.len(), 3);
    assert_eq!(vol[0].reference, "D&C 4:1");
    assert_eq!(vol[1].reference, "D&C 4:2");
    assert_eq!(vol[2].reference, "D&C 76:22");
}

#[test]
fn section_volume_links_follow_the_template() {
    let vol = load_volume_sections(&section_blob());
    assert_eq!(
        vol[0].link,
        "https://www.churchofjesuschrist.org/study/scriptures/dc/4?id=p1#p1"
    );
    assert_eq!(
        vol[2].link,
        "https://www.churchofjesuschrist.org/study/scriptures/dc/76?id=p22#p22"
    );
}

#[test]
fn unparsable_text_yields_empty_volume() {
    assert_eq!(load_volume_chapters("this is not json").len(), 0);
    assert_eq!(load_volume_sections("{{{").len(), 0);
}

#[test]
fn missing_field_yields_empty_volume() {
    // No "lds_slug" at the top level.
    let blob = r#"{"books": []}"#;
    assert_eq!(load_volume_chapters(blob).len(), 0);
    // A verse without its "text".
    let blob = r#"{
        "lds_slug": "ot",
        "books": [{"lds_slug": "gen", "chapters": [{"chapter": 1, "verses": [
            {"verse": 1, "reference": "Genesis 1:1"}
        ]}]}]
    }"#;
    assert_eq!(load_volume_chapters(blob).len(), 0);
}

#[test]
fn wrongly_typed_field_yields_empty_volume() {
    // "chapter" holds a string instead of a number.
    let blob = r#"{
        "lds_slug": "ot",
        "books": [{"lds_slug": "gen", "chapters": [{"chapter": "one", "verses": []}]}]
    }"#;
    assert_eq!(load_volume_chapters(blob).len(), 0);
    // "sections" holds an object instead of an array.
    let blob = r#"{"lds_slug": "dc", "sections": {}}"#;
    assert_eq!(load_volume_sections(blob).len(), 0);
}

#[test]
fn out_of_range_verse_number_yields_empty_volume() {
    let blob = r#"{
        "lds_slug": "ot",
        "books": [{"lds_slug": "gen", "chapters": [{"chapter": 1, "verses": [
            {"verse": 300, "reference": "Genesis 1:300", "text": "whatever"}
        ]}]}]
    }"#;
    assert_eq!(load_volume_chapters(blob).len(), 0);
    let blob = r#"{
        "lds_slug": "ot",
        "books": [{"lds_slug": "gen", "chapters": [{"chapter": 1, "verses": [
            {"verse": 1.5, "reference": "Genesis 1:1", "text": "whatever"}
        ]}]}]
    }"#;
    assert_eq!(load_volume_chapters(blob).len(), 0);
}

#[test]
fn deep_malformation_discards_the_whole_volume() {
    // The first verse is fine; the last one is broken. Nothing is kept.
    let blob = r#"{
        "lds_slug": "ot",
        "books": [{"lds_slug": "gen", "chapters": [{"chapter": 1, "verses": [
            {"verse": 1, "reference": "Genesis 1:1", "text": "In the beginning"},
            {"verse": 2, "reference": "Genesis 1:2", "text": 7}
        ]}]}]
    }"#;
    assert_eq!(load_volume_chapters(blob).len(), 0);
}

#[test]
fn empty_books_list_is_well_formed_and_empty() {
    let blob = r#"{"lds_slug": "ot", "books": []}"#;
    assert_eq!(load_volume_chapters(blob).len(), 0);
    let blob = r#"{"lds_slug": "dc", "sections": []}"#;
    assert_eq!(load_volume_sections(blob).len(), 0);
}

#[test]
fn one_malformed_blob_leaves_the_other_volumes_standing() {
    let g = Gospel::new(
        chapter_blob(),
        "broken".to_string(),
        chapter_blob(),
        chapter_blob(),
        chapter_blob(),
    );
    assert_eq!(g.bom.len(), 4);
    assert_eq!(g.dc.len(), 0);
    assert_eq!(g.nt.len(), 4);
    assert_eq!(g.ot.len(), 4);
    assert_eq!(g.pogp.len(), 4);
}

#[test]
fn construction_wires_each_blob_to_its_volume() {
    let g = Gospel::new(
        chapter_blob(),
        section_blob(),
        chapter_blob(),
        chapter_blob(),
        chapter_blob(),
    );
    assert_eq!(g.dc.len(), 3);
    assert_eq!(g.dc[0].reference, "D&C 4:1");
    assert_eq!(g.bom[0].reference, "1 Nephi 1:1");
}
