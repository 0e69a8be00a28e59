//! The stats aggregator: category filtering, the total count metric,
//! the fixed battery of keyword metrics, and the word-cloud source
//! text, accumulated per year into the [`Stats`] report.

use std::collections::HashMap;
use vstd::prelude::*;
use vstd::string::*;
use crate::keyword::{filter_by_keywords, filter_matching};
use crate::models::{Session, SessionView, display_title, session_views};
use crate::text::{
    contains_sub, decimal_of, join_space, join_with_space, str_contains, string_views,
    u32_to_decimal,
};

verus! {

broadcast use vstd::std_specs::hash::group_hash_axioms;

/// One computed metric: a human-readable label, a numeric result
/// (a count), a free-text explanation, the year it applies to, and the
/// display titles of the matching sessions.
pub struct StatsItem {
    pub name: String,
    pub value: usize,
    pub description: String,
    pub year: u32,
    pub titles: Vec<String>,
}

/// Mathematical view of a [`StatsItem`].
#[verifier::ext_equal]
pub struct StatsItemView {
    pub name: Seq<char>,
    pub value: int,
    pub description: Seq<char>,
    pub year: u32,
    pub titles: Seq<Seq<char>>,
}

impl View for StatsItem {
    type V = StatsItemView;

    open spec fn view(&self) -> StatsItemView {
        StatsItemView {
            name: self.name@,
            value: self.value as int,
            description: self.description@,
            year: self.year,
            titles: string_views(self.titles@),
        }
    }
}

/// The views of a list of stats items.
pub open spec fn item_views(items: Seq<StatsItem>) -> Seq<StatsItemView> {
    items.map_values(|it: StatsItem| it@)
}

/// The aggregate report: one list of metrics per analyzed year.
pub struct Stats {
    pub items: HashMap<u32, Vec<StatsItem>>,
}

/// A session belongs to an analyzed category when its id contains one
/// of the fixed markers: general, organized, poster, keynote, student
/// or planning sessions.
pub open spec fn passes_category(s: SessionView) -> bool {
    ||| contains_sub(s.id, "GS"@)
    ||| contains_sub(s.id, "-OS-"@)
    ||| contains_sub(s.id, "-Win-"@)
    ||| contains_sub(s.id, "-PS-"@)
    ||| contains_sub(s.id, "-SS-"@)
    ||| contains_sub(s.id, "-KS-"@)
}

/// The subsequence of sessions that pass the category filter, in their
/// original relative order.
pub open spec fn category_filter(ss: Seq<SessionView>) -> Seq<SessionView> {
    ss.filter(|s: SessionView| passes_category(s))
}

/// The query keywords of the AI metric.
pub open spec fn ai_keywords() -> Seq<Seq<char>> {
    seq!["AI"@, "人工知能"@, "Artificial Intelligence"@]
}

/// The query keywords of the AI agent metric.
pub open spec fn ai_agent_keywords() -> Seq<Seq<char>> {
    seq!["AIエージェント"@, "AI Agent"@]
}

/// The query keywords of the deep learning metric.
pub open spec fn deep_learning_keywords() -> Seq<Seq<char>> {
    seq!["深層学習"@, "ディープラーニング"@, "Deep Learning"@]
}

/// The total count metric: the number of category-filtered sessions,
/// with no titles attached.
pub open spec fn total_item(year: u32, filtered: Seq<SessionView>) -> StatsItemView {
    StatsItemView {
        name: "Total Sessions"@,
        value: filtered.len() as int,
        description: "Total number of sessions"@,
        year: year,
        titles: Seq::empty(),
    }
}

/// A keyword metric: the number of filtered sessions matching `kws`,
/// with the display titles of the matches in filtered-list order.
pub open spec fn keyword_item(
    name: Seq<char>,
    description: Seq<char>,
    year: u32,
    filtered: Seq<SessionView>,
    kws: Seq<Seq<char>>,
) -> StatsItemView {
    StatsItemView {
        name: name,
        value: filter_matching(filtered, kws).len() as int,
        description: description,
        year: year,
        titles: filter_matching(filtered, kws).map_values(|s: SessionView| display_title(s)),
    }
}

/// The full battery of metrics emitted for one year, in emission
/// order: the total count, then the AI, AI agent and deep learning
/// keyword metrics.
pub open spec fn analysis_items(year: u32, filtered: Seq<SessionView>) -> Seq<StatsItemView> {
    seq![
        total_item(year, filtered),
        keyword_item(
            "AI Sessions"@,
            "Number of sessions that contains the keywords 'AI', '人工知能', or 'Artificial Intelligence'"@,
            year,
            filtered,
            ai_keywords(),
        ),
        keyword_item(
            "AI Agent Sessions"@,
            "Number of sessions that contains the keywords 'AIエージェント' or 'AI Agent'"@,
            year,
            filtered,
            ai_agent_keywords(),
        ),
        keyword_item(
            "Deep Learning Sessions"@,
            "Number of sessions that contains the keywords '深層学習', 'ディープラーニング', or 'Deep Learning'"@,
            year,
            filtered,
            deep_learning_keywords(),
        ),
    ]
}

/// The text blob handed to the tokenization collaborator: all filtered
/// abstracts joined with spaces, a space, then all filtered titles
/// joined with spaces.
pub open spec fn wordcloud_source(filtered: Seq<SessionView>) -> Seq<char> {
    join_space(filtered.map_values(|s: SessionView| s.abstract_text)) + " "@ + join_space(
        filtered.map_values(|s: SessionView| s.title),
    )
}

/// Decides whether one session passes the category filter.
pub fn session_passes_category(s: &Session) -> (r: bool)
    ensures
        r == passes_category(s@),
{
    str_contains(s.id.as_str(), "GS") || str_contains(s.id.as_str(), "-OS-") || str_contains(
        s.id.as_str(),
        "-Win-",
    ) || str_contains(s.id.as_str(), "-PS-") || str_contains(s.id.as_str(), "-SS-")
        || str_contains(s.id.as_str(), "-KS-")
}

/// Retains only the sessions that pass the category filter, in their
/// original relative order.
pub fn filter_by_category(sessions: &Vec<Session>) -> (r: Vec<Session>)
    ensures
        session_views(r@) == category_filter(session_views(sessions@)),
{
    let ghost all = session_views(sessions@);
    let ghost pred = |s: SessionView| passes_category(s);
    let mut r: Vec<Session> = Vec::new();
    let mut i: usize = 0;
    proof {
        reveal(Seq::filter);
        assert(all.take(0) =~= Seq::<SessionView>::empty());
        assert(session_views(r@) =~= all.take(0).filter(pred));
    }
    while i < sessions.len()
        invariant
            i <= sessions@.len(),
            all == session_views(sessions@),
            pred == (|s: SessionView| passes_category(s)),
            session_views(r@) == all.take(i as int).filter(pred),
        decreases sessions@.len() - i,
    {
        let ghost old_r = r@;
        if session_passes_category(&sessions[i]) {
            r.push(sessions[i].clone());
            proof {
                assert(session_views(r@) =~= session_views(old_r).push(all[i as int]));
            }
        }
        proof {
            reveal(Seq::filter);
            assert(all.take(i + 1 as int).drop_last() =~= all.take(i as int));
            assert(all.take(i + 1 as int).last() == all[i as int]);
            assert(session_views(r@) =~= all.take(i + 1 as int).filter(pred));
        }
        i = i + 1;
    }
    proof {
        assert(all.take(sessions@.len() as int) =~= all);
    }
    r
}

/// The abstract texts of the sessions, in order.
fn abstracts_of(sessions: &Vec<Session>) -> (r: Vec<String>)
    ensures
        string_views(r@) == session_views(sessions@).map_values(|s: SessionView| s.abstract_text),
{
    let mut r: Vec<String> = Vec::new();
    let mut i: usize = 0;
    while i < sessions.len()
        invariant
            i <= sessions@.len(),
            r@.len() == i,
            forall|k: int| 0 <= k < i ==> r@[k]@ == session_views(sessions@)[k].abstract_text,
        decreases sessions@.len() - i,
    {
        r.push(sessions[i].abstract_text.clone());
        i = i + 1;
    }
    proof {
        assert(string_views(r@) =~= session_views(sessions@).map_values(
            |s: SessionView| s.abstract_text,
        ));
    }
    r
}

/// The titles of the sessions, in order.
fn titles_of(sessions: &Vec<Session>) -> (r: Vec<String>)
    ensures
        string_views(r@) == session_views(sessions@).map_values(|s: SessionView| s.title),
{
    let mut r: Vec<String> = Vec::new();
    let mut i: usize = 0;
    while i < sessions.len()
        invariant
            i <= sessions@.len(),
            r@.len() == i,
            forall|k: int| 0 <= k < i ==> r@[k]@ == session_views(sessions@)[k].title,
        decreases sessions@.len() - i,
    {
        r.push(sessions[i].title.clone());
        i = i + 1;
    }
    proof {
        assert(string_views(r@) =~= session_views(sessions@).map_values(
            |s: SessionView| s.title,
        ));
    }
    r
}

/// The display titles of the sessions, in order.
fn display_titles_of(sessions: &Vec<Session>) -> (r: Vec<String>)
    ensures
        string_views(r@) == session_views(sessions@).map_values(|s: SessionView| display_title(s)),
{
    let mut r: Vec<String> = Vec::new();
    let mut i: usize = 0;
    while i < sessions.len()
        invariant
            i <= sessions@.len(),
            r@.len() == i,
            forall|k: int|
                0 <= k < i ==> r@[k]@ == display_title(session_views(sessions@)[k]),
        decreases sessions@.len() - i,
    {
        r.push(sessions[i].title_with_id());
        i = i + 1;
    }
    proof {
        assert(string_views(r@) =~= session_views(sessions@).map_values(
            |s: SessionView| display_title(s),
        ));
    }
    r
}

/// Builds the word-cloud source text for the filtered sessions:
/// abstracts joined with spaces, a space, then titles joined with
/// spaces.
fn wordcloud_source_of(filtered: &Vec<Session>) -> (r: String)
    ensures
        r@ == wordcloud_source(session_views(filtered@)),
{
    let abstracts = abstracts_of(filtered);
    let titles = titles_of(filtered);
    let mut r = join_with_space(&abstracts);
    r.append(" ");
    let joined_titles = join_with_space(&titles);
    r.append(joined_titles.as_str());
    r
}

/// Appends one keyword metric for `keywords` over the already
/// category-filtered `sessions` to `items`.
fn keyword_analysis(
    items: &mut Vec<StatsItem>,
    sessions: &Vec<Session>,
    keywords: &Vec<String>,
    name: &str,
    description: &str,
    year: u32,
)
    ensures
        item_views(final(items)@) == item_views(old(items)@).push(
            keyword_item(name@, description@, year, session_views(sessions@), string_views(
                keywords@,
            )),
        ),
{
    let matched = filter_by_keywords(sessions, keywords);
    let titles = display_titles_of(&matched);
    let item = StatsItem {
        name: String::from_str(name),
        value: matched.len(),
        description: String::from_str(description),
        year: year,
        titles: titles,
    };
    proof {
        assert(item@ =~= keyword_item(name@, description@, year, session_views(sessions@),
            string_views(keywords@)));
    }
    let ghost old_items = items@;
    items.push(item);
    proof {
        assert(item_views(items@) =~= item_views(old_items).push(item@));
    }
}

/// Builds the three-string keyword list of the AI metric.
fn make_ai_keywords() -> (r: Vec<String>)
    ensures
        string_views(r@) == ai_keywords(),
{
    let mut r: Vec<String> = Vec::new();
    r.push(String::from_str("AI"));
    r.push(String::from_str("人工知能"));
    r.push(String::from_str("Artificial Intelligence"));
    proof {
        assert(string_views(r@) =~= ai_keywords());
    }
    r
}

/// Builds the two-string keyword list of the AI agent metric.
fn make_ai_agent_keywords() -> (r: Vec<String>)
    ensures
        string_views(r@) == ai_agent_keywords(),
{
    let mut r: Vec<String> = Vec::new();
    r.push(String::from_str("AIエージェント"));
    r.push(String::from_str("AI Agent"));
    proof {
        assert(string_views(r@) =~= ai_agent_keywords());
    }
    r
}

/// Builds the three-string keyword list of the deep learning metric.
fn make_deep_learning_keywords() -> (r: Vec<String>)
    ensures
        string_views(r@) == deep_learning_keywords(),
{
    let mut r: Vec<String> = Vec::new();
    r.push(String::from_str("深層学習"));
    r.push(String::from_str("ディープラーニング"));
    r.push(String::from_str("Deep Learning"));
    proof {
        assert(string_views(r@) =~= deep_learning_keywords());
    }
    r
}

impl Stats {
    /// An empty report: no year analyzed yet.
    pub fn new() -> (r: Stats)
        ensures
            r.items@ == Map::<u32, Vec<StatsItem>>::empty(),
    {
        Stats { items: HashMap::new() }
    }

    /// Runs the single-pass analysis pipeline for one year: filters
    /// the sessions by category, records the total count and the three
    /// fixed keyword metrics under the year key (replacing any earlier
    /// entry for that year), and returns the word-cloud source text of
    /// the filtered sessions, to be handed to the tokenization
    /// collaborator.
    pub fn analyze(&mut self, year: u32, sessions: Vec<Session>) -> (text: String)
        ensures
            final(self).items@.contains_key(year),
            final(self).items@ == old(self).items@.insert(year, final(self).items@[year]),
            item_views(final(self).items@[year]@) == analysis_items(
                year,
                category_filter(session_views(sessions@)),
            ),
            text@ == wordcloud_source(category_filter(session_views(sessions@))),
    {
        let filtered = filter_by_category(&sessions);
        let ghost fview = category_filter(session_views(sessions@));
        let mut items: Vec<StatsItem> = Vec::new();
        let total = StatsItem {
            name: String::from_str("Total Sessions"),
            value: filtered.len(),
            description: String::from_str("Total number of sessions"),
            year: year,
            titles: Vec::new(),
        };
        proof {
            assert(total@ =~= total_item(year, fview));
        }
        items.push(total);
        let text = wordcloud_source_of(&filtered);
        let ai_kws = make_ai_keywords();
        keyword_analysis(
            &mut items,
            &filtered,
            &ai_kws,
            "AI Sessions",
            "Number of sessions that contains the keywords 'AI', '人工知能', or 'Artificial Intelligence'",
            year,
        );
        let agent_kws = make_ai_agent_keywords();
        keyword_analysis(
            &mut items,
            &filtered,
            &agent_kws,
            "AI Agent Sessions",
            "Number of sessions that contains the keywords 'AIエージェント' or 'AI Agent'",
            year,
        );
        let dl_kws = make_deep_learning_keywords();
        keyword_analysis(
            &mut items,
            &filtered,
            &dl_kws,
            "Deep Learning Sessions",
            "Number of sessions that contains the keywords '深層学習', 'ディープラーニング', or 'Deep Learning'",
            year,
        );
        proof {
            assert(item_views(items@) =~= analysis_items(year, fview));
        }
        self.items.insert(year, items);
        text
    }
}

/// The name of the word-cloud output file for one year.
pub open spec fn wordcloud_file_name_spec(year: u32) -> Seq<char> {
    "wordcloud_input_text_"@ + decimal_of(year as int) + ".txt"@
}

/// The name of the stats report file for one year.
pub open spec fn stats_file_name_spec(year: u32) -> Seq<char> {
    "jsai_"@ + decimal_of(year as int) + "_stats.json"@
}

/// Builds the word-cloud output file name,
/// `wordcloud_input_text_{year}.txt`.
pub fn wordcloud_file_name(year: u32) -> (r: String)
    ensures
        r@ == wordcloud_file_name_spec(year),
{
    let mut r = String::from_str("wordcloud_input_text_");
    let y = u32_to_decimal(year);
    r.append(y.as_str());
    r.append(".txt");
    proof {
        assert(r@ =~= wordcloud_file_name_spec(year));
    }
    r
}

/// Builds the stats report file name, `jsai_{year}_stats.json`.
pub fn stats_file_name(year: u32) -> (r: String)
    ensures
        r@ == stats_file_name_spec(year),
{
    let mut r = String::from_str("jsai_");
    let y = u32_to_decimal(year);
    r.append(y.as_str());
    r.append("_stats.json");
    proof {
        assert(r@ =~= stats_file_name_spec(year));
    }
    r
}

} // verus!
