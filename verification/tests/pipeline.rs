use jsai_crawler::keyword::{count_by_keywords, filter_by_keywords, matches_session};
use jsai_crawler::mecab::{generate_wordcloud_input, MeCabToken};
use jsai_crawler::models::{Author, Section, Session};
use jsai_crawler::stats::{
    filter_by_category, session_passes_category, stats_file_name, wordcloud_file_name, Stats,
};
use jsai_crawler::text::u32_to_decimal;

fn make_section(id: &str) -> Section {
    Section {
        id: id.to_string(),
        title: "Track".to_string(),
        url: "https://example.org/section".to_string(),
        time: "Day 1".to_string(),
    }
}

fn make_session(id: &str, title: &str, abstract_text: &str, keywords: &[&str]) -> Session {
    Session {
        id: id.to_string(),
        title: title.to_string(),
        url: "https://example.org/session".to_string(),
        time: "10:00".to_string(),
        abstract_text: abstract_text.to_string(),
        authors: vec![Author {
            name: "Alice Example".to_string(),
            affiliation: "Example University".to_string(),
        }],
        keywords: keywords.iter().map(|k| k.to_string()).collect(),
        section: make_section(id),
    }
}

fn make_token(surface: &str, pos1: &str) -> MeCabToken {
    MeCabToken {
        surface: surface.to_string(),
        pos1: pos1.to_string(),
        pos2: String::new(),
        feature: String::new(),
    }
}

fn keyword_vec(keywords: &[&str]) -> Vec<String> {
    keywords.iter().map(|k| k.to_string()).collect()
}

#[test]
fn category_filter_exactness() {
    let sessions = vec![
        make_session("2021GS001", "General", "", &[]),
        make_session("2021-XX-001", "Unknown", "", &[]),
        make_session("2021-OS-002", "Organized", "", &[]),
    ];
    let filtered = filter_by_category(&sessions);
    assert_eq!(filtered.len(), 2);
    assert_eq!(filtered[0].id, "2021GS001");
    assert_eq!(filtered[1].id, "2021-OS-002");
    assert!(session_passes_category(&sessions[0]));
    assert!(!session_passes_category(&sessions[1]));
    assert!(session_passes_category(&sessions[2]));
}

#[test]
fn all_category_markers_pass() {
    for id in [
        "2025GS001",
        "2025-OS-001",
        "2025-Win-001",
        "2025-PS-001",
        "2025-SS-001",
        "2025-KS-001",
    ] {
        let s = make_session(id, "t", "", &[]);
        assert!(session_passes_category(&s), "{id} should pass");
    }
    let s = make_session("2025-ZZ-001", "t", "", &[]);
    assert!(!session_passes_category(&s));
}

#[test]
fn keyword_list_match() {
    let s = make_session("2021GS001", "A talk", "Nothing here", &["AI", "Robotics"]);
    let q = keyword_vec(&["AI"]);
    assert!(matches_session(&s, &q));
}

#[test]
fn title_substring_match() {
    let s = make_session("2021GS001", "Advances in AI", "Nothing here", &[]);
    let q = keyword_vec(&["AI"]);
    assert!(matches_session(&s, &q));
}

#[test]
fn abstract_substring_match() {
    let s = make_session("2021GS001", "A talk", "We study AI methods", &[]);
    let q = keyword_vec(&["AI"]);
    assert!(matches_session(&s, &q));
}

#[test]
fn no_match_excluded() {
    let s = make_session("2021GS001", "A talk", "Nothing here", &["Robotics"]);
    let q = keyword_vec(&["AI"]);
    assert!(!matches_session(&s, &q));
    let filtered = filter_by_keywords(&vec![s], &q);
    assert!(filtered.is_empty());
}

#[test]
fn substring_match_is_case_sensitive() {
    let s = make_session("2021GS001", "advances in ai", "", &[]);
    let q = keyword_vec(&["AI"]);
    assert!(!matches_session(&s, &q));
}

#[test]
fn filter_idempotent_concrete() {
    let sessions = vec![
        make_session("2021GS001", "Advances in AI", "", &[]),
        make_session("2021GS002", "Plain talk", "", &["AI"]),
        make_session("2021GS003", "Nothing", "", &[]),
    ];
    let q = keyword_vec(&["AI"]);
    let once = filter_by_keywords(&sessions, &q);
    let twice = filter_by_keywords(&once, &q);
    assert_eq!(once.len(), 2);
    assert_eq!(twice.len(), once.len());
    for (a, b) in once.iter().zip(twice.iter()) {
        assert_eq!(a.id, b.id);
        assert_eq!(a.title, b.title);
    }
}

#[test]
fn no_duplicate_for_double_match() {
    // Matches both via the keyword list and via the title substring.
    let s = make_session("2021GS001", "Advances in AI", "AI everywhere", &["AI"]);
    let q = keyword_vec(&["AI"]);
    let filtered = filter_by_keywords(&vec![s], &q);
    assert_eq!(filtered.len(), 1);
    assert_eq!(filtered[0].id, "2021GS001");
}

#[test]
fn filter_keeps_original_order() {
    let sessions = vec![
        make_session("2021GS003", "AI three", "", &[]),
        make_session("2021GS001", "AI one", "", &[]),
        make_session("2021GS002", "no match", "", &[]),
        make_session("2021GS004", "AI four", "", &[]),
    ];
    let q = keyword_vec(&["AI"]);
    let filtered = filter_by_keywords(&sessions, &q);
    let ids: Vec<&str> = filtered.iter().map(|s| s.id.as_str()).collect();
    assert_eq!(ids, vec!["2021GS003", "2021GS001", "2021GS004"]);
}

#[test]
fn count_by_keywords_counts() {
    let sessions = vec![
        make_session("2021GS001", "Advances in AI", "", &[]),
        make_session("2021GS002", "Plain talk", "", &["Robotics"]),
        make_session("2021GS003", "Deep stuff", "uses 人工知能 daily", &[]),
    ];
    let q = keyword_vec(&["AI", "人工知能", "Artificial Intelligence"]);
    assert_eq!(count_by_keywords(&sessions, &q), 2);
}

#[test]
fn total_sessions_ten() {
    let mut sessions = Vec::new();
    for i in 0..10 {
        sessions.push(make_session(&format!("2024GS{i:03}"), "Talk", "", &[]));
    }
    let mut stats = Stats::new();
    stats.analyze(2024, sessions);
    let items = stats.items.get(&2024).expect("year entry");
    assert_eq!(items[0].name, "Total Sessions");
    assert_eq!(items[0].value, 10);
    assert!(items[0].titles.is_empty());
    assert_eq!(items[0].year, 2024);
}

#[test]
fn ai_agent_end_to_end() {
    let session = make_session("2025GS001", "Planning talk", "", &["AI Agent"]);
    let mut stats = Stats::new();
    stats.analyze(2025, vec![session]);
    let items = stats.items.get(&2025).expect("year entry");
    let item = items
        .iter()
        .find(|it| it.name == "AI Agent Sessions")
        .expect("AI Agent Sessions item");
    assert_eq!(item.value, 1);
    assert_eq!(item.titles, vec!["[2025GS001] Planning talk".to_string()]);
}

#[test]
fn analyze_emits_four_items_in_order() {
    let mut stats = Stats::new();
    stats.analyze(2023, vec![make_session("2023GS001", "Talk", "", &[])]);
    let items = stats.items.get(&2023).expect("year entry");
    let names: Vec<&str> = items.iter().map(|it| it.name.as_str()).collect();
    assert_eq!(
        names,
        vec![
            "Total Sessions",
            "AI Sessions",
            "AI Agent Sessions",
            "Deep Learning Sessions",
        ]
    );
}

#[test]
fn analyze_excludes_unmatched_categories_everywhere() {
    // The session matches the AI keywords but fails the category
    // filter, so no metric may see it.
    let session = make_session("2024-XX-001", "Advances in AI", "AI text", &["AI"]);
    let mut stats = Stats::new();
    let text = stats.analyze(2024, vec![session]);
    let items = stats.items.get(&2024).expect("year entry");
    assert_eq!(items[0].value, 0);
    assert_eq!(items[1].value, 0);
    assert_eq!(text, " ");
}

#[test]
fn analyze_two_years_accumulate() {
    let mut stats = Stats::new();
    stats.analyze(2024, vec![make_session("2024GS001", "Talk", "", &[])]);
    stats.analyze(2025, vec![]);
    assert!(stats.items.contains_key(&2024));
    assert!(stats.items.contains_key(&2025));
    assert_eq!(stats.items.get(&2024).unwrap()[0].value, 1);
    assert_eq!(stats.items.get(&2025).unwrap()[0].value, 0);
}

#[test]
fn wordcloud_source_format() {
    let sessions = vec![
        make_session("2024GS001", "Title one", "Abstract one", &[]),
        make_session("2024GS002", "Title two", "Abstract two", &[]),
    ];
    let mut stats = Stats::new();
    let text = stats.analyze(2024, sessions);
    assert_eq!(text, "Abstract one Abstract two Title one Title two");
}

#[test]
fn chat_gpt_replacement() {
    let tokens = vec![make_token("Chat", "名詞"), make_token("GPT", "名詞")];
    let out = generate_wordcloud_input(&tokens, &Vec::new());
    assert_eq!(out, "ChatGPT");
}

#[test]
fn replacement_order_ai_agent() {
    let tokens = vec![make_token("AI", "名詞"), make_token("Agent", "名詞")];
    let out = generate_wordcloud_input(&tokens, &Vec::new());
    assert_eq!(out, "AIエージェント");
}

#[test]
fn replacement_deep_learning() {
    let tokens = vec![
        make_token("Deep", "名詞"),
        make_token("Learning", "名詞"),
        make_token("ディープラーニング", "名詞"),
    ];
    let out = generate_wordcloud_input(&tokens, &Vec::new());
    assert_eq!(out, "深層学習 深層学習");
}

#[test]
fn wordcloud_drops_non_nouns() {
    let tokens = vec![
        make_token("走る", "動詞"),
        make_token("研究", "名詞"),
        make_token("きれい", "形容詞"),
    ];
    let out = generate_wordcloud_input(&tokens, &Vec::new());
    assert_eq!(out, "研究");
}

#[test]
fn wordcloud_drops_digits_and_stopwords() {
    let stopwords = vec!["こと".to_string()];
    let tokens = vec![
        make_token("7", "名詞"),
        make_token("42", "名詞"),
        make_token("こと", "名詞"),
        make_token("モデル", "名詞"),
    ];
    let out = generate_wordcloud_input(&tokens, &stopwords);
    assert_eq!(out, "モデル");
}

#[test]
fn wordcloud_empty_tokens_empty_text() {
    let out = generate_wordcloud_input(&Vec::new(), &Vec::new());
    assert_eq!(out, "");
}

#[test]
fn title_with_id_format() {
    let s = make_session("2021GS001", "Hello world", "", &[]);
    assert_eq!(s.title_with_id(), "[2021GS001] Hello world");
}

#[test]
fn stats_new_is_empty() {
    let stats = Stats::new();
    assert!(stats.items.is_empty());
}

#[test]
fn output_file_names() {
    assert_eq!(wordcloud_file_name(2025), "wordcloud_input_text_2025.txt");
    assert_eq!(stats_file_name(2021), "jsai_2021_stats.json");
    assert_eq!(wordcloud_file_name(0), "wordcloud_input_text_0.txt");
}

#[test]
fn decimal_rendering() {
    assert_eq!(u32_to_decimal(0), "0");
    assert_eq!(u32_to_decimal(7), "7");
    assert_eq!(u32_to_decimal(10), "10");
    assert_eq!(u32_to_decimal(2024), "2024");
    assert_eq!(u32_to_decimal(u32::MAX), "4294967295");
}
