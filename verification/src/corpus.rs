//! The corpus loader: turns one raw JSON volume blob into the ordered list of
//! searchable passages, with the citation and the reference-site link of each.
//!
//! A malformed blob yields an empty volume; the loaders never fail outward.

use vstd::prelude::*;
use vstd::string::StringExecFns;

use crate::jsonval::{
    json_as_array, json_as_str, json_as_u64, json_get, json_model, json_text_model, obj_arr,
    obj_num, obj_str, plain_key, Json,
};
use crate::numeral::{dec_of, u8_to_string};

verus! {

/// One searchable passage: a verse body, its human-readable citation, and a
/// link to the passage on the reference website.
pub struct Scripture {
    pub text: String,
    pub reference: String,
    pub link: String,
}

/// The mathematical content of a `Scripture`.
pub struct ScriptureView {
    pub text: Seq<char>,
    pub reference: Seq<char>,
    pub link: Seq<char>,
}

impl View for Scripture {
    type V = ScriptureView;

    open spec fn view(&self) -> ScriptureView {
        ScriptureView { text: self.text@, reference: self.reference@, link: self.link@ }
    }
}

/// The contents of a sequence of passages.
pub open spec fn seq_view(s: Seq<Scripture>) -> Seq<ScriptureView> {
    s.map_values(|x: Scripture| x@)
}

/// The deep link of a passage in a chapter-structured volume.
pub open spec fn spec_chapter_link(vol: Seq<char>, book: Seq<char>, chapter: u8, verse: u8) -> Seq<
    char,
> {
    "https://www.churchofjesuschrist.org/study/scriptures/"@ + vol + "/"@ + book + "/"@ + dec_of(
        chapter as int,
    ) + "?id=p"@ + dec_of(verse as int) + "#p"@ + dec_of(verse as int)
}

/// The deep link of a passage in the section-structured volume.
pub open spec fn spec_section_link(vol: Seq<char>, section: u8, verse: u8) -> Seq<char> {
    "https://www.churchofjesuschrist.org/study/scriptures/"@ + vol + "/"@ + dec_of(section as int)
        + "?id=p"@ + dec_of(verse as int) + "#p"@ + dec_of(verse as int)
}

fn chapter_link(vol: &str, book: &str, chapter: u8, verse: u8) -> (r: String)
    ensures
        r@ == spec_chapter_link(vol@, book@, chapter, verse),
{
    let mut s = String::from_str("https://www.churchofjesuschrist.org/study/scriptures/");
    s.append(vol);
    s.append("/");
    s.append(book);
    s.append("/");
    let c = u8_to_string(chapter);
    let v = u8_to_string(verse);
    s.append(c.as_str());
    s.append("?id=p");
    s.append(v.as_str());
    s.append("#p");
    s.append(v.as_str());
    proof {
        assert(s@ =~= spec_chapter_link(vol@, book@, chapter, verse));
    }
    s
}

fn section_link(vol: &str, section: u8, verse: u8) -> (r: String)
    ensures
        r@ == spec_section_link(vol@, section, verse),
{
    let mut s = String::from_str("https://www.churchofjesuschrist.org/study/scriptures/");
    s.append(vol);
    s.append("/");
    let c = u8_to_string(section);
    let v = u8_to_string(verse);
    s.append(c.as_str());
    s.append("?id=p");
    s.append(v.as_str());
    s.append("#p");
    s.append(v.as_str());
    proof {
        assert(s@ =~= spec_section_link(vol@, section, verse));
    }
    s
}

/// The fields of one well-formed verse object: its number, citation and text.
pub open spec fn spec_verse(j: Json) -> Option<(u8, Seq<char>, Seq<char>)> {
    match (obj_num(j, "verse"@), obj_str(j, "reference"@), obj_str(j, "text"@)) {
        (Some(v), Some(rf), Some(tx)) => if v <= 255 {
            Some(((v as u8), rf, tx))
        } else {
            None
        },
        _ => None,
    }
}

/// Concatenation behind an `Option`: a failure on the right poisons the whole.
pub open spec fn opt_cat(a: Seq<ScriptureView>, o: Option<Seq<ScriptureView>>) -> Option<
    Seq<ScriptureView>,
> {
    match o {
        Some(b) => Some(a + b),
        None => None,
    }
}

/// The passages of one verse list inside a chapter, in document order.
pub open spec fn spec_chapter_verses(
    vol: Seq<char>,
    book: Seq<char>,
    chapter: u8,
    vs: Seq<Json>,
) -> Option<Seq<ScriptureView>>
    decreases vs.len(),
{
    if vs.len() == 0 {
        Some(Seq::empty())
    } else {
        match spec_verse(vs[0]) {
            Some(f) => opt_cat(
                seq![
                    ScriptureView {
                        text: f.2,
                        reference: f.1,
                        link: spec_chapter_link(vol, book, chapter, f.0),
                    },
                ],
                spec_chapter_verses(vol, book, chapter, vs.drop_first()),
            ),
            None => None,
        }
    }
}

/// The passages of one chapter object.
pub open spec fn spec_chapter(vol: Seq<char>, book: Seq<char>, j: Json) -> Option<
    Seq<ScriptureView>,
> {
    match (obj_num(j, "chapter"@), obj_arr(j, "verses"@)) {
        (Some(c), Some(vs)) => if c <= 255 {
            spec_chapter_verses(vol, book, c as u8, vs)
        } else {
            None
        },
        _ => None,
    }
}

/// The passages of a chapter list, in document order.
pub open spec fn spec_chapters(vol: Seq<char>, book: Seq<char>, cs: Seq<Json>) -> Option<
    Seq<ScriptureView>,
>
    decreases cs.len(),
{
    if cs.len() == 0 {
        Some(Seq::empty())
    } else {
        match spec_chapter(vol, book, cs[0]) {
            Some(a) => opt_cat(a, spec_chapters(vol, book, cs.drop_first())),
            None => None,
        }
    }
}

/// The passages of one book object.
pub open spec fn spec_book(vol: Seq<char>, j: Json) -> Option<Seq<ScriptureView>> {
    match (obj_str(j, "lds_slug"@), obj_arr(j, "chapters"@)) {
        (Some(book), Some(cs)) => spec_chapters(vol, book, cs),
        _ => None,
    }
}

/// The passages of a book list, in document order.
pub open spec fn spec_books(vol: Seq<char>, bs: Seq<Json>) -> Option<Seq<ScriptureView>>
    decreases bs.len(),
{
    if bs.len() == 0 {
        Some(Seq::empty())
    } else {
        match spec_book(vol, bs[0]) {
            Some(a) => opt_cat(a, spec_books(vol, bs.drop_first())),
            None => None,
        }
    }
}

/// The passages of a whole chapter-structured volume document.
pub open spec fn spec_chapter_volume(j: Json) -> Option<Seq<ScriptureView>> {
    match (obj_str(j, "lds_slug"@), obj_arr(j, "books"@)) {
        (Some(vol), Some(bs)) => spec_books(vol, bs),
        _ => None,
    }
}

/// The passages of one verse list inside a section, in document order.
pub open spec fn spec_section_verses(vol: Seq<char>, section: u8, vs: Seq<Json>) -> Option<
    Seq<ScriptureView>,
>
    decreases vs.len(),
{
    if vs.len() == 0 {
        Some(Seq::empty())
    } else {
        match spec_verse(vs[0]) {
            Some(f) => opt_cat(
                seq![
                    ScriptureView {
                        text: f.2,
                        reference: f.1,
                        link: spec_section_link(vol, section, f.0),
                    },
                ],
                spec_section_verses(vol, section, vs.drop_first()),
            ),
            None => None,
        }
    }
}

/// The passages of one section object.
pub open spec fn spec_section(vol: Seq<char>, j: Json) -> Option<Seq<ScriptureView>> {
    match (obj_num(j, "section"@), obj_arr(j, "verses"@)) {
        (Some(c), Some(vs)) => if c <= 255 {
            spec_section_verses(vol, c as u8, vs)
        } else {
            None
        },
        _ => None,
    }
}

/// The passages of a section list, in document order.
pub open spec fn spec_sections(vol: Seq<char>, ss: Seq<Json>) -> Option<Seq<ScriptureView>>
    decreases ss.len(),
{
    if ss.len() == 0 {
        Some(Seq::empty())
    } else {
        match spec_section(vol, ss[0]) {
            Some(a) => opt_cat(a, spec_sections(vol, ss.drop_first())),
            None => None,
        }
    }
}

/// The passages of a whole section-structured volume document.
pub open spec fn spec_section_volume(j: Json) -> Option<Seq<ScriptureView>> {
    match (obj_str(j, "lds_slug"@), obj_arr(j, "sections"@)) {
        (Some(vol), Some(ss)) => spec_sections(vol, ss),
        _ => None,
    }
}

/// What loading a chapter-structured blob yields: the volume's passages where
/// the text is valid JSON of the expected shape, and nothing otherwise.
pub open spec fn loaded_chapter_volume(s: Seq<char>) -> Seq<ScriptureView> {
    match json_text_model(s) {
        Some(j) => match spec_chapter_volume(j) {
            Some(ps) => ps,
            None => Seq::empty(),
        },
        None => Seq::empty(),
    }
}

/// What loading a section-structured blob yields.
pub open spec fn loaded_section_volume(s: Seq<char>) -> Seq<ScriptureView> {
    match json_text_model(s) {
        Some(j) => match spec_section_volume(j) {
            Some(ps) => ps,
            None => Seq::empty(),
        },
        None => Seq::empty(),
    }
}

proof fn keys_are_plain()
    ensures
        plain_key("lds_slug"@),
        plain_key("books"@),
        plain_key("chapters"@),
        plain_key("chapter"@),
        plain_key("sections"@),
        plain_key("section"@),
        plain_key("verses"@),
        plain_key("verse"@),
        plain_key("reference"@),
        plain_key("text"@),
{
    reveal_strlit("lds_slug");
    reveal_strlit("books");
    reveal_strlit("chapters");
    reveal_strlit("chapter");
    reveal_strlit("sections");
    reveal_strlit("section");
    reveal_strlit("verses");
    reveal_strlit("verse");
    reveal_strlit("reference");
    reveal_strlit("text");
}

/// Reads a string-valued field out of a JSON object value.
fn read_str_field<'a>(j: &'a serde_json::Value, key: &str) -> (r: Option<&'a str>)
    requires
        plain_key(key@),
    ensures
        match obj_str(json_model(*j), key@) {
            Some(s) => r matches Some(x) && x@ == s,
            None => r is None,
        },
{
    match json_get(j, key) {
        Some(x) => json_as_str(x),
        None => None,
    }
}

/// Reads an array-valued field out of a JSON object value.
fn read_arr_field<'a>(j: &'a serde_json::Value, key: &str) -> (r: Option<
    &'a Vec<serde_json::Value>,
>)
    requires
        plain_key(key@),
    ensures
        match obj_arr(json_model(*j), key@) {
            Some(sq) => r matches Some(a) && a@.map_values(
                |x: serde_json::Value| json_model(x),
            ) == sq,
            None => r is None,
        },
{
    match json_get(j, key) {
        Some(x) => json_as_array(x),
        None => None,
    }
}

/// Reads a numeric field out of a JSON object value.
fn read_num_field(j: &serde_json::Value, key: &str) -> (r: Option<u64>)
    requires
        plain_key(key@),
    ensures
        match obj_num(json_model(*j), key@) {
            Some(n) => r == Some(n),
            None => r is None,
        },
{
    match json_get(j, key) {
        Some(x) => json_as_u64(x),
        None => None,
    }
}

struct VerseFields {
    verse: u8,
    reference: String,
    text: String,
}

/// Reads the three fields of one verse object, failing on any malformation.
fn read_verse(j: &serde_json::Value) -> (r: Option<VerseFields>)
    ensures
        match spec_verse(json_model(*j)) {
            Some(f) => r matches Some(x) && x.verse == f.0 && x.reference@ == f.1 && x.text@
                == f.2,
            None => r is None,
        },
{
    proof {
        keys_are_plain();
    }
    let vnum = match read_num_field(j, "verse") {
        Some(n) => n,
        None => {
            return None;
        },
    };
    if vnum > 255 {
        return None;
    }
    let rf = match read_str_field(j, "reference") {
        Some(s) => s,
        None => {
            return None;
        },
    };
    let tx = match read_str_field(j, "text") {
        Some(s) => s,
        None => {
            return None;
        },
    };
    Some(VerseFields { verse: vnum as u8, reference: rf.to_owned(), text: tx.to_owned() })
}

/// The model sequence of a vector of JSON values.
pub open spec fn models(vs: Seq<serde_json::Value>) -> Seq<Json> {
    vs.map_values(|x: serde_json::Value| json_model(x))
}

/// Loads every verse of one chapter, in document order.
fn load_chapter_verses(vol: &str, book: &str, chapter: u8, vs: &Vec<serde_json::Value>) -> (r:
    Option<Vec<Scripture>>)
    ensures
        match r {
            Some(out) => spec_chapter_verses(vol@, book@, chapter, models(vs@)) == Some(
                seq_view(out@),
            ),
            None => spec_chapter_verses(vol@, book@, chapter, models(vs@)) is None,
        },
{
    let ghost vm = models(vs@);
    let mut out: Vec<Scripture> = Vec::new();
    let mut i: usize = 0;
    proof {
        assert(seq_view(out@) =~= Seq::<ScriptureView>::empty());
        assert(vm.skip(0) =~= vm);
        let whole = spec_chapter_verses(vol@, book@, chapter, vm);
        if whole is Some {
            assert(Seq::<ScriptureView>::empty() + whole->Some_0 =~= whole->Some_0);
        }
    }
    while i < vs.len()
        invariant
            0 <= i <= vs.len(),
            vm == models(vs@),
            spec_chapter_verses(vol@, book@, chapter, vm) == opt_cat(
                seq_view(out@),
                spec_chapter_verses(vol@, book@, chapter, vm.skip(i as int)),
            ),
        decreases vs.len() - i,
    {
        let ghost rest = vm.skip(i as int);
        proof {
            assert(rest[0] == vm[i as int]);
            assert(rest.drop_first() =~= vm.skip(i as int + 1));
        }
        match read_verse(&vs[i]) {
            None => {
                return None;
            },
            Some(f) => {
                let link = chapter_link(vol, book, chapter, f.verse);
                let ghost prev = seq_view(out@);
                out.push(Scripture { text: f.text, reference: f.reference, link });
                proof {
                    let fv = spec_verse(vm[i as int])->Some_0;
                    assert(seq_view(out@) =~= prev + seq![
                        ScriptureView {
                            text: fv.2,
                            reference: fv.1,
                            link: spec_chapter_link(vol@, book@, chapter, fv.0),
                        },
                    ]);
                    let tail = spec_chapter_verses(vol@, book@, chapter, rest.drop_first());
                    if tail is Some {
                        let b = tail->Some_0;
                        assert(prev + (seq![
                            ScriptureView {
                                text: fv.2,
                                reference: fv.1,
                                link: spec_chapter_link(vol@, book@, chapter, fv.0),
                            },
                        ] + b) =~= seq_view(out@) + b);
                    }
                }
                i = i + 1;
            },
        }
    }
    proof {
        assert(vm.skip(vs@.len() as int) =~= Seq::<Json>::empty());
        assert(seq_view(out@) + Seq::<ScriptureView>::empty() =~= seq_view(out@));
    }
    Some(out)
}

/// Loads every verse of one section, in document order.
fn load_section_verses(vol: &str, section: u8, vs: &Vec<serde_json::Value>) -> (r: Option<
    Vec<Scripture>,
>)
    ensures
        match r {
            Some(out) => spec_section_verses(vol@, section, models(vs@)) == Some(seq_view(out@)),
            None => spec_section_verses(vol@, section, models(vs@)) is None,
        },
{
    let ghost vm = models(vs@);
    let mut out: Vec<Scripture> = Vec::new();
    let mut i: usize = 0;
    proof {
        assert(seq_view(out@) =~= Seq::<ScriptureView>::empty());
        assert(vm.skip(0) =~= vm);
        let whole = spec_section_verses(vol@, section, vm);
        if whole is Some {
            assert(Seq::<ScriptureView>::empty() + whole->Some_0 =~= whole->Some_0);
        }
    }
    while i < vs.len()
        invariant
            0 <= i <= vs.len(),
            vm == models(vs@),
            spec_section_verses(vol@, section, vm) == opt_cat(
                seq_view(out@),
                spec_section_verses(vol@, section, vm.skip(i as int)),
            ),
        decreases vs.len() - i,
    {
        let ghost rest = vm.skip(i as int);
        proof {
            assert(rest[0] == vm[i as int]);
            assert(rest.drop_first() =~= vm.skip(i as int + 1));
        }
        match read_verse(&vs[i]) {
            None => {
                return None;
            },
            Some(f) => {
                let link = section_link(vol, section, f.verse);
                let ghost prev = seq_view(out@);
                out.push(Scripture { text: f.text, reference: f.reference, link });
                proof {
                    let fv = spec_verse(vm[i as int])->Some_0;
                    assert(seq_view(out@) =~= prev + seq![
                        ScriptureView {
                            text: fv.2,
                            reference: fv.1,
                            link: spec_section_link(vol@, section, fv.0),
                        },
                    ]);
                    let tail = spec_section_verses(vol@, section, rest.drop_first());
                    if tail is Some {
                        let b = tail->Some_0;
                        assert(prev + (seq![
                            ScriptureView {
                                text: fv.2,
                                reference: fv.1,
                                link: spec_section_link(vol@, section, fv.0),
                            },
                        ] + b) =~= seq_view(out@) + b);
                    }
                }
                i = i + 1;
            },
        }
    }
    proof {
        assert(vm.skip(vs@.len() as int) =~= Seq::<Json>::empty());
        assert(seq_view(out@) + Seq::<ScriptureView>::empty() =~= seq_view(out@));
    }
    Some(out)
}

/// Loads one chapter object: its number and all its verses.
fn load_chapter(vol: &str, book: &str, j: &serde_json::Value) -> (r: Option<Vec<Scripture>>)
    ensures
        match r {
            Some(out) => spec_chapter(vol@, book@, json_model(*j)) == Some(seq_view(out@)),
            None => spec_chapter(vol@, book@, json_model(*j)) is None,
        },
{
    proof {
        keys_are_plain();
    }
    let c = match read_num_field(j, "chapter") {
        Some(n) => n,
        None => {
            return None;
        },
    };
    if c > 255 {
        return None;
    }
    let vs = match read_arr_field(j, "verses") {
        Some(a) => a,
        None => {
            return None;
        },
    };
    load_chapter_verses(vol, book, c as u8, vs)
}

/// Loads every chapter of one book, in document order.
fn load_chapters(vol: &str, book: &str, cs: &Vec<serde_json::Value>) -> (r: Option<Vec<Scripture>>)
    ensures
        match r {
            Some(out) => spec_chapters(vol@, book@, models(cs@)) == Some(seq_view(out@)),
            None => spec_chapters(vol@, book@, models(cs@)) is None,
        },
{
    let ghost cm = models(cs@);
    let mut out: Vec<Scripture> = Vec::new();
    let mut i: usize = 0;
    proof {
        assert(seq_view(out@) =~= Seq::<ScriptureView>::empty());
        assert(cm.skip(0) =~= cm);
        let whole = spec_chapters(vol@, book@, cm);
        if whole is Some {
            assert(Seq::<ScriptureView>::empty() + whole->Some_0 =~= whole->Some_0);
        }
    }
    while i < cs.len()
        invariant
            0 <= i <= cs.len(),
            cm == models(cs@),
            spec_chapters(vol@, book@, cm) == opt_cat(
                seq_view(out@),
                spec_chapters(vol@, book@, cm.skip(i as int)),
            ),
        decreases cs.len() - i,
    {
        let ghost rest = cm.skip(i as int);
        proof {
            assert(rest[0] == cm[i as int]);
            assert(rest.drop_first() =~= cm.skip(i as int + 1));
        }
        match load_chapter(vol, book, &cs[i]) {
            None => {
                return None;
            },
            Some(mut part) => {
                let ghost prev = seq_view(out@);
                let ghost a = seq_view(part@);
                out.append(&mut part);
                proof {
                    assert(seq_view(out@) =~= prev + a);
                    let tail = spec_chapters(vol@, book@, rest.drop_first());
                    if tail is Some {
                        let b = tail->Some_0;
                        assert(prev + (a + b) =~= seq_view(out@) + b);
                    }
                }
                i = i + 1;
            },
        }
    }
    proof {
        assert(cm.skip(cs@.len() as int) =~= Seq::<Json>::empty());
        assert(seq_view(out@) + Seq::<ScriptureView>::empty() =~= seq_view(out@));
    }
    Some(out)
}

/// Loads one book object: its slug and all its chapters.
fn load_book(vol: &str, j: &serde_json::Value) -> (r: Option<Vec<Scripture>>)
    ensures
        match r {
            Some(out) => spec_book(vol@, json_model(*j)) == Some(seq_view(out@)),
            None => spec_book(vol@, json_model(*j)) is None,
        },
{
    proof {
        keys_are_plain();
    }
    let book = match read_str_field(j, "lds_slug") {
        Some(s) => s,
        None => {
            return None;
        },
    };
    let cs = match read_arr_field(j, "chapters") {
        Some(a) => a,
        None => {
            return None;
        },
    };
    load_chapters(vol, book, cs)
}

/// Loads every book of a chapter-structured volume, in document order.
fn load_books(vol: &str, bs: &Vec<serde_json::Value>) -> (r: Option<Vec<Scripture>>)
    ensures
        match r {
            Some(out) => spec_books(vol@, models(bs@)) == Some(seq_view(out@)),
            None => spec_books(vol@, models(bs@)) is None,
        },
{
    let ghost bm = models(bs@);
    let mut out: Vec<Scripture> = Vec::new();
    let mut i: usize = 0;
    proof {
        assert(seq_view(out@) =~= Seq::<ScriptureView>::empty());
        assert(bm.skip(0) =~= bm);
        let whole = spec_books(vol@, bm);
        if whole is Some {
            assert(Seq::<ScriptureView>::empty() + whole->Some_0 =~= whole->Some_0);
        }
    }
    while i < bs.len()
        invariant
            0 <= i <= bs.len(),
            bm == models(bs@),
            spec_books(vol@, bm) == opt_cat(
                seq_view(out@),
                spec_books(vol@, bm.skip(i as int)),
            ),
        decreases bs.len() - i,
    {
        let ghost rest = bm.skip(i as int);
        proof {
            assert(rest[0] == bm[i as int]);
            assert(rest.drop_first() =~= bm.skip(i as int + 1));
        }
        match load_book(vol, &bs[i]) {
            None => {
                return None;
            },
            Some(mut part) => {
                let ghost prev = seq_view(out@);
                let ghost a = seq_view(part@);
                out.append(&mut part);
                proof {
                    assert(seq_view(out@) =~= prev + a);
                    let tail = spec_books(vol@, rest.drop_first());
                    if tail is Some {
                        let b = tail->Some_0;
                        assert(prev + (a + b) =~= seq_view(out@) + b);
                    }
                }
                i = i + 1;
            },
        }
    }
    proof {
        assert(bm.skip(bs@.len() as int) =~= Seq::<Json>::empty());
        assert(seq_view(out@) + Seq::<ScriptureView>::empty() =~= seq_view(out@));
    }
    Some(out)
}

/// Loads one section object: its number and all its verses.
fn load_section(vol: &str, j: &serde_json::Value) -> (r: Option<Vec<Scripture>>)
    ensures
        match r {
            Some(out) => spec_section(vol@, json_model(*j)) == Some(seq_view(out@)),
            None => spec_section(vol@, json_model(*j)) is None,
        },
{
    proof {
        keys_are_plain();
    }
    let c = match read_num_field(j, "section") {
        Some(n) => n,
        None => {
            return None;
        },
    };
    if c > 255 {
        return None;
    }
    let vs = match read_arr_field(j, "verses") {
        Some(a) => a,
        None => {
            return None;
        },
    };
    load_section_verses(vol, c as u8, vs)
}

/// Loads every section of the section-structured volume, in document order.
fn load_sections(vol: &str, ss: &Vec<serde_json::Value>) -> (r: Option<Vec<Scripture>>)
    ensures
        match r {
            Some(out) => spec_sections(vol@, models(ss@)) == Some(seq_view(out@)),
            None => spec_sections(vol@, models(ss@)) is None,
        },
{
    let ghost sm = models(ss@);
    let mut out: Vec<Scripture> = Vec::new();
    let mut i: usize = 0;
    proof {
        assert(seq_view(out@) =~= Seq::<ScriptureView>::empty());
        assert(sm.skip(0) =~= sm);
        let whole = spec_sections(vol@, sm);
        if whole is Some {
            assert(Seq::<ScriptureView>::empty() + whole->Some_0 =~= whole->Some_0);
        }
    }
    while i < ss.len()
        invariant
            0 <= i <= ss.len(),
            sm == models(ss@),
            spec_sections(vol@, sm) == opt_cat(
                seq_view(out@),
                spec_sections(vol@, sm.skip(i as int)),
            ),
        decreases ss.len() - i,
    {
        let ghost rest = sm.skip(i as int);
        proof {
            assert(rest[0] == sm[i as int]);
            assert(rest.drop_first() =~= sm.skip(i as int + 1));
        }
        match load_section(vol, &ss[i]) {
            None => {
                return None;
            },
            Some(mut part) => {
                let ghost prev = seq_view(out@);
                let ghost a = seq_view(part@);
                out.append(&mut part);
                proof {
                    assert(seq_view(out@) =~= prev + a);
                    let tail = spec_sections(vol@, rest.drop_first());
                    if tail is Some {
                        let b = tail->Some_0;
                        assert(prev + (a + b) =~= seq_view(out@) + b);
                    }
                }
                i = i + 1;
            },
        }
    }
    proof {
        assert(sm.skip(ss@.len() as int) =~= Seq::<Json>::empty());
        assert(seq_view(out@) + Seq::<ScriptureView>::empty() =~= seq_view(out@));
    }
    Some(out)
}

/// Parses a chapter-structured volume blob. A malformed blob yields an empty
/// volume; a well-formed one yields one passage per verse, in document order,
/// each with its citation and its chapter-addressed link.
pub fn load_volume_chapters(json: &str) -> (r: Vec<Scripture>)
    ensures
        seq_view(r@) == loaded_chapter_volume(json@),
{
    proof {
        keys_are_plain();
        assert(seq_view(Seq::<Scripture>::empty()) =~= Seq::<ScriptureView>::empty());
    }
    let v = match crate::jsonval::parse_json(json) {
        Some(v) => v,
        None => {
            return Vec::new();
        },
    };
    let vol = match read_str_field(&v, "lds_slug") {
        Some(s) => s,
        None => {
            return Vec::new();
        },
    };
    let bs = match read_arr_field(&v, "books") {
        Some(a) => a,
        None => {
            return Vec::new();
        },
    };
    match load_books(vol, bs) {
        Some(out) => out,
        None => Vec::new(),
    }
}

/// Parses the section-structured volume blob. A malformed blob yields an
/// empty volume; a well-formed one yields one passage per verse, in document
/// order, each with its citation and its section-addressed link.
pub fn load_volume_sections(json: &str) -> (r: Vec<Scripture>)
    ensures
        seq_view(r@) == loaded_section_volume(json@),
{
    proof {
        keys_are_plain();
        assert(seq_view(Seq::<Scripture>::empty()) =~= Seq::<ScriptureView>::empty());
    }
    let v = match crate::jsonval::parse_json(json) {
        Some(v) => v,
        None => {
            return Vec::new();
        },
    };
    let vol = match read_str_field(&v, "lds_slug") {
        Some(s) => s,
        None => {
            return Vec::new();
        },
    };
    let ss = match read_arr_field(&v, "sections") {
        Some(a) => a,
        None => {
            return Vec::new();
        },
    };
    match load_sections(vol, ss) {
        Some(out) => out,
        None => Vec::new(),
    }
}

/// A malformed blob loads as an empty volume: where the text is not valid
/// JSON, or the document does not have the expected volume shape, the loaded
/// passage sequence is empty rather than partial.
pub proof fn lemma_malformed_blob_empty(s: Seq<char>)
    ensures
        json_text_model(s) is None ==> loaded_chapter_volume(s) == Seq::<ScriptureView>::empty()
            && loaded_section_volume(s) == Seq::<ScriptureView>::empty(),
        json_text_model(s) matches Some(j) && spec_chapter_volume(j) is None
            ==> loaded_chapter_volume(s) == Seq::<ScriptureView>::empty(),
        json_text_model(s) matches Some(j) && spec_section_volume(j) is None
            ==> loaded_section_volume(s) == Seq::<ScriptureView>::empty(),
{
}

} // verus!
