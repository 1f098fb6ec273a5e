//! The search engine: holds the five-volume corpus and answers free-text
//! queries with formatted, link-annotated, highlighted result strings.

use vstd::prelude::*;
use vstd::string::StringExecFns;

use crate::corpus::{
    load_volume_chapters, load_volume_sections, loaded_chapter_volume, loaded_section_volume,
    seq_view, Scripture, ScriptureView,
};
use crate::rx::{
    pattern_matches, pattern_ok, pattern_replace_all, regex_is_match, regex_new, regex_pattern,
    regex_replace_all,
};

verus! {

/// The matching modes and per-volume inclusion flags of one search:
/// one flag per volume, whole-word matching, and case sensitivity.
#[derive(Clone)]
pub struct SearchParams {
    pub bom: bool,
    pub ot: bool,
    pub nt: bool,
    pub dc: bool,
    pub pogp: bool,
    pub word: bool,
    pub case: bool,
}

impl SearchParams {
    /// Default parameters: all five volumes included, substring matching,
    /// case-insensitive.
    pub fn new() -> (r: SearchParams)
        ensures
            r.bom && r.ot && r.nt && r.dc && r.pogp,
            !r.word,
            !r.case,
    {
        SearchParams {
            bom: true,
            ot: true,
            nt: true,
            dc: true,
            pogp: true,
            word: false,
            case: false,
        }
    }

    /// A plain value copy; the copy and the source share no state.
    pub fn copy(&self) -> (r: SearchParams)
        ensures
            r == *self,
    {
        SearchParams {
            bom: self.bom,
            ot: self.ot,
            nt: self.nt,
            dc: self.dc,
            pogp: self.pogp,
            word: self.word,
            case: self.case,
        }
    }
}

impl Default for SearchParams {
    /// The canonical default, equal to `SearchParams::new()`.
    fn default() -> (r: SearchParams)
        ensures
            r.bom && r.ot && r.nt && r.dc && r.pogp,
            !r.word,
            !r.case,
    {
        SearchParams::new()
    }
}

/// A search fails only when the query text cannot be compiled as a pattern
/// under the active mode; this failure is distinct from an empty result.
#[derive(Clone, Copy, Debug, PartialEq, Eq)]
pub enum SearchError {
    InvalidPattern,
}

/// The contents of the five volumes.
pub struct GospelView {
    pub bom: Seq<ScriptureView>,
    pub ot: Seq<ScriptureView>,
    pub nt: Seq<ScriptureView>,
    pub dc: Seq<ScriptureView>,
    pub pogp: Seq<ScriptureView>,
}

/// The five-volume corpus, constructed once and read-only thereafter.
pub struct Gospel {
    pub bom: Vec<Scripture>,
    pub ot: Vec<Scripture>,
    pub nt: Vec<Scripture>,
    pub dc: Vec<Scripture>,
    pub pogp: Vec<Scripture>,
}

impl View for Gospel {
    type V = GospelView;

    open spec fn view(&self) -> GospelView {
        GospelView {
            bom: seq_view(self.bom@),
            ot: seq_view(self.ot@),
            nt: seq_view(self.nt@),
            dc: seq_view(self.dc@),
            pogp: seq_view(self.pogp@),
        }
    }
}

/// The pattern text compiled for a query: the query text taken literally
/// (metacharacters and all), grouped, with the case-insensitivity tag unless
/// case-sensitive matching was asked for, and word boundaries on both sides
/// in word mode.
pub open spec fn spec_pattern(query: Seq<char>, case_sensitive: bool, word: bool) -> Seq<char> {
    let tag: Seq<char> = if case_sensitive {
        Seq::empty()
    } else {
        "(?i)"@
    };
    if word {
        "("@ + tag + "\\b"@ + query + "\\b"@ + ")"@
    } else {
        "("@ + tag + query + ")"@
    }
}

fn build_pattern(query: &str, case_sensitive: bool, word: bool) -> (r: String)
    ensures
        r@ == spec_pattern(query@, case_sensitive, word),
{
    let mut s = String::from_str("(");
    if !case_sensitive {
        s.append("(?i)");
    }
    if word {
        s.append("\\b");
    }
    s.append(query);
    if word {
        s.append("\\b");
    }
    s.append(")");
    proof {
        assert(s@ =~= spec_pattern(query@, case_sensitive, word));
    }
    s
}

/// The highlight marker: each matched occurrence, here the whole match group,
/// is wrapped in a red inline span.
pub open spec fn spec_highlight_rep() -> Seq<char> {
    "<span style=\"color: red;\">$1</span>"@
}

/// One formatted result: a bold link to the passage, opening in a new
/// browsing context, with the citation as anchor text, then the passage text
/// with every non-overlapping match occurrence wrapped in the highlight
/// marker.
pub open spec fn spec_result_line(p: Seq<char>, s: ScriptureView) -> Seq<char> {
    "<b><a href=\""@ + s.link + "\" target=\"_blank\" rel=\"noopener noreferrer\">"@ + s.reference
        + "</a></b> - "@ + pattern_replace_all(p, s.text, spec_highlight_rep())
}

/// The results of one volume: exactly one line per passage whose text the
/// pattern matches, in passage order.
pub open spec fn spec_volume_results(p: Seq<char>, vol: Seq<ScriptureView>) -> Seq<Seq<char>>
    decreases vol.len(),
{
    if vol.len() == 0 {
        Seq::empty()
    } else {
        (if pattern_matches(p, vol[0].text) {
            seq![spec_result_line(p, vol[0])]
        } else {
            Seq::<Seq<char>>::empty()
        }) + spec_volume_results(p, vol.drop_first())
    }
}

/// The results of a whole search: the included volumes' results, in the fixed
/// volume order.
pub open spec fn spec_search_results(g: GospelView, params: SearchParams, p: Seq<char>) -> Seq<
    Seq<char>,
> {
    (if params.bom {
        spec_volume_results(p, g.bom)
    } else {
        Seq::<Seq<char>>::empty()
    }) + (if params.ot {
        spec_volume_results(p, g.ot)
    } else {
        Seq::<Seq<char>>::empty()
    }) + (if params.nt {
        spec_volume_results(p, g.nt)
    } else {
        Seq::<Seq<char>>::empty()
    }) + (if params.dc {
        spec_volume_results(p, g.dc)
    } else {
        Seq::<Seq<char>>::empty()
    }) + (if params.pogp {
        spec_volume_results(p, g.pogp)
    } else {
        Seq::<Seq<char>>::empty()
    })
}

/// The contents of a list of result strings.
pub open spec fn strs_view(s: Seq<String>) -> Seq<Seq<char>> {
    s.map_values(|x: String| x@)
}

fn format_result(s: &Scripture, tagged: String) -> (r: String)
    ensures
        r@ == "<b><a href=\""@ + s.link@ + "\" target=\"_blank\" rel=\"noopener noreferrer\">"@
            + s.reference@ + "</a></b> - "@ + tagged@,
{
    let mut line = String::from_str("<b><a href=\"");
    line.append(s.link.as_str());
    line.append("\" target=\"_blank\" rel=\"noopener noreferrer\">");
    line.append(s.reference.as_str());
    line.append("</a></b> - ");
    line.append(tagged.as_str());
    proof {
        assert(line@ =~= "<b><a href=\""@ + s.link@
            + "\" target=\"_blank\" rel=\"noopener noreferrer\">"@ + s.reference@ + "</a></b> - "@
            + tagged@);
    }
    line
}

/// Scans one volume in passage order, appending one formatted line for each
/// passage the pattern matches.
fn search_volume(re: &regex::Regex, volume: &Vec<Scripture>, results: &mut Vec<String>)
    ensures
        strs_view(final (results)@) == strs_view(old(results)@) + spec_volume_results(
            regex_pattern(*re),
            seq_view(volume@),
        ),
{
    let ghost p = regex_pattern(*re);
    let ghost sv = seq_view(volume@);
    let mut i: usize = 0;
    proof {
        assert(sv.skip(0) =~= sv);
    }
    while i < volume.len()
        invariant
            0 <= i <= volume.len(),
            sv == seq_view(volume@),
            p == regex_pattern(*re),
            strs_view(old(results)@) + spec_volume_results(p, sv) =~= strs_view(results@)
                + spec_volume_results(p, sv.skip(i as int)),
        decreases volume.len() - i,
    {
        let ghost rest = sv.skip(i as int);
        proof {
            assert(rest[0] == sv[i as int]);
            assert(rest.drop_first() =~= sv.skip(i as int + 1));
        }
        let scripture = &volume[i];
        proof {
            assert(*scripture == volume@[i as int]);
            assert(sv[i as int] == volume@[i as int]@);
            assert(scripture.text@ == sv[i as int].text);
        }
        let stext = scripture.text.as_str();
        proof {
            assert(stext@ == sv[i as int].text);
        }
        if regex_is_match(re, stext) {
            let tagged = regex_replace_all(
                re,
                stext,
                "<span style=\"color: red;\">$1</span>",
            );
            proof {
                reveal_strlit("<span style=\"color: red;\">$1</span>");
                assert("<span style=\"color: red;\">$1</span>"@ == spec_highlight_rep());
                assert(tagged@ == pattern_replace_all(p, sv[i as int].text, spec_highlight_rep()));
            }
            let ghost prev = strs_view(results@);
            let line = format_result(scripture, tagged);
            proof {
                assert(line@ =~= spec_result_line(p, sv[i as int]));
            }
            results.push(line);
            proof {
                assert(strs_view(results@) =~= prev + seq![spec_result_line(p, sv[i as int])]);
                assert(prev + (seq![spec_result_line(p, sv[i as int])] + spec_volume_results(
                    p,
                    rest.drop_first(),
                )) =~= strs_view(results@) + spec_volume_results(p, rest.drop_first()));
            }
        } else {
            proof {
                assert(Seq::<Seq<char>>::empty() + spec_volume_results(p, rest.drop_first())
                    =~= spec_volume_results(p, rest.drop_first()));
            }
        }
        i = i + 1;
    }
    proof {
        assert(sv.skip(volume@.len() as int) =~= Seq::<ScriptureView>::empty());
        assert(strs_view(results@) + Seq::<Seq<char>>::empty() =~= strs_view(results@));
        assert(strs_view(old(results)@) + spec_volume_results(p, sv) =~= strs_view(results@));
    }
}

impl Gospel {
    /// Builds the corpus from the five raw volume blobs, loading each volume
    /// independently; a malformed blob yields an empty volume and never
    /// disturbs the other four.
    pub fn new(
        bom_json: String,
        dc_json: String,
        nt_json: String,
        ot_json: String,
        pogp_json: String,
    ) -> (r: Self)
        ensures
            r@.bom == loaded_chapter_volume(bom_json@),
            r@.ot == loaded_chapter_volume(ot_json@),
            r@.nt == loaded_chapter_volume(nt_json@),
            r@.dc == loaded_section_volume(dc_json@),
            r@.pogp == loaded_chapter_volume(pogp_json@),
    {
        let bom = load_volume_chapters(bom_json.as_str());
        let ot = load_volume_chapters(ot_json.as_str());
        let nt = load_volume_chapters(nt_json.as_str());
        let dc = load_volume_sections(dc_json.as_str());
        let pogp = load_volume_chapters(pogp_json.as_str());
        Gospel { bom, ot, nt, dc, pogp }
    }

    /// Searches the included volumes for the query text.
    ///
    /// An empty query yields no results. Otherwise the query is compiled into
    /// one pattern; if the pattern text is invalid, the search fails with
    /// `SearchError::InvalidPattern` rather than reporting zero matches. On
    /// success, the result holds one formatted line per matching passage, in
    /// the fixed volume order and in passage order within each volume.
    pub fn search(&self, text: &str, params: &SearchParams) -> (r: Result<
        Vec<String>,
        SearchError,
    >)
        ensures
            text@.len() == 0 ==> (r matches Ok(v) && v@.len() == 0),
            text@.len() != 0 ==> {
                let p = spec_pattern(text@, params.case, params.word);
                &&& (r is Ok <==> pattern_ok(p))
                &&& (r matches Ok(v) ==> strs_view(v@) == spec_search_results(self@, *params, p))
                &&& (r is Err ==> r == Err::<Vec<String>, SearchError>(SearchError::InvalidPattern))
            },
    {
        if text.is_empty() {
            return Ok(Vec::new());
        }
        let pattern = build_pattern(text, params.case, params.word);
        let re = match regex_new(pattern.as_str()) {
            Some(re) => re,
            None => {
                return Err(SearchError::InvalidPattern);
            },
        };
        let ghost p = spec_pattern(text@, params.case, params.word);
        let mut results: Vec<String> = Vec::new();
        proof {
            assert(strs_view(results@) =~= Seq::<Seq<char>>::empty());
        }
        let ghost e = Seq::<Seq<char>>::empty();
        let ghost r_bom = if params.bom { spec_volume_results(p, self@.bom) } else { e };
        let ghost r_ot = if params.ot { spec_volume_results(p, self@.ot) } else { e };
        let ghost r_nt = if params.nt { spec_volume_results(p, self@.nt) } else { e };
        let ghost r_dc = if params.dc { spec_volume_results(p, self@.dc) } else { e };
        let ghost r_pogp = if params.pogp { spec_volume_results(p, self@.pogp) } else { e };
        if params.bom {
            search_volume(&re, &self.bom, &mut results);
        }
        proof {
            assert(strs_view(results@) =~= r_bom);
        }
        if params.ot {
            search_volume(&re, &self.ot, &mut results);
        }
        proof {
            assert(strs_view(results@) =~= r_bom + r_ot);
        }
        if params.nt {
            search_volume(&re, &self.nt, &mut results);
        }
        proof {
            assert(strs_view(results@) =~= r_bom + r_ot + r_nt);
        }
        if params.dc {
            search_volume(&re, &self.dc, &mut results);
        }
        proof {
            assert(strs_view(results@) =~= r_bom + r_ot + r_nt + r_dc);
        }
        if params.pogp {
            search_volume(&re, &self.pogp, &mut results);
        }
        proof {
            assert(strs_view(results@) =~= r_bom + r_ot + r_nt + r_dc + r_pogp);
            assert(strs_view(results@) == spec_search_results(self@, *params, p));
        }
        Ok(results)
    }
}

/// The volume inclusion flags are honored independently: with all five flags
/// off a search yields nothing, whatever the query; with exactly one flag on
/// it yields exactly that volume's results, in that volume's passage order.
pub proof fn lemma_volume_flags(g: GospelView, params: SearchParams, p: Seq<char>)
    ensures
        !params.bom && !params.ot && !params.nt && !params.dc && !params.pogp
            ==> spec_search_results(g, params, p) == Seq::<Seq<char>>::empty(),
        params.bom && !params.ot && !params.nt && !params.dc && !params.pogp
            ==> spec_search_results(g, params, p) == spec_volume_results(p, g.bom),
        !params.bom && params.ot && !params.nt && !params.dc && !params.pogp
            ==> spec_search_results(g, params, p) == spec_volume_results(p, g.ot),
        !params.bom && !params.ot && params.nt && !params.dc && !params.pogp
            ==> spec_search_results(g, params, p) == spec_volume_results(p, g.nt),
        !params.bom && !params.ot && !params.nt && params.dc && !params.pogp
            ==> spec_search_results(g, params, p) == spec_volume_results(p, g.dc),
        !params.bom && !params.ot && !params.nt && !params.dc && params.pogp
            ==> spec_search_results(g, params, p) == spec_volume_results(p, g.pogp),
{
    let e = Seq::<Seq<char>>::empty();
    assert(e + e + e + e + e =~= e);
    assert(spec_volume_results(p, g.bom) + e + e + e + e =~= spec_volume_results(p, g.bom));
    assert(e + spec_volume_results(p, g.ot) + e + e + e =~= spec_volume_results(p, g.ot));
    assert(e + e + spec_volume_results(p, g.nt) + e + e =~= spec_volume_results(p, g.nt));
    assert(e + e + e + spec_volume_results(p, g.dc) + e =~= spec_volume_results(p, g.dc));
    assert(e + e + e + e + spec_volume_results(p, g.pogp) =~= spec_volume_results(p, g.pogp));
}

/// A volume's results are exactly its matching passages, in passage order,
/// each contributing one formatted line: a passage that matches, however many
/// occurrences of the query its text holds, yields exactly one result string.
pub proof fn lemma_one_line_per_matching_passage(p: Seq<char>, vol: Seq<ScriptureView>)
    ensures
        spec_volume_results(p, vol) == vol.filter(|s: ScriptureView| pattern_matches(p, s.text))
            .map_values(|s: ScriptureView| spec_result_line(p, s)),
    decreases vol.len(),
{
    let pred = |s: ScriptureView| pattern_matches(p, s.text);
    let f = |s: ScriptureView| spec_result_line(p, s);
    reveal_with_fuel(Seq::filter, 2);
    if vol.len() == 0 {
        assert(vol.filter(pred) =~= Seq::<ScriptureView>::empty());
        assert(vol.filter(pred).map_values(f) =~= Seq::<Seq<char>>::empty());
    } else {
        let head = seq![vol[0]];
        let rest = vol.drop_first();
        lemma_one_line_per_matching_passage(p, rest);
        assert(vol =~= head + rest);
        Seq::filter_distributes_over_add(head, rest, pred);
        assert(head.drop_last() =~= Seq::<ScriptureView>::empty());
        assert(head.filter(pred) == if pred(vol[0]) { head } else { Seq::<ScriptureView>::empty() });
        assert((head.filter(pred) + rest.filter(pred)).map_values(f) =~= head.filter(pred).map_values(
            f,
        ) + rest.filter(pred).map_values(f));
        if pred(vol[0]) {
            assert(head.filter(pred).map_values(f) =~= seq![spec_result_line(p, vol[0])]);
        } else {
            assert(head.filter(pred).map_values(f) =~= Seq::<Seq<char>>::empty());
        }
        assert(spec_volume_results(p, vol) == vol.filter(pred).map_values(f));
    }
}

} // verus!
