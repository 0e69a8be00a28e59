use jsai_crawler::jsai2021::{Author2021, JsonData2021, Section2021, Session2021};
use jsai_crawler::jsai2022::{Author2022, Section2022, Session2022};
use jsai_crawler::jsai2023::{Author2023, Section2023, Session2023};
use jsai_crawler::jsai2024::{Section2024, Session2024};
use jsai_crawler::jsai2025::{Author2025, Section2025, Session2025};

#[test]
fn adapter_2021_preserves_all_fields() {
    let raw = Session2021 {
        id: "2021GS001".to_string(),
        title: "A study".to_string(),
        url: "https://example.org/a".to_string(),
        time: "10:00".to_string(),
        abstract_text: "Long abstract".to_string(),
        authors: vec![Author2021 {
            name: "Alice".to_string(),
            affiliation: "Univ".to_string(),
        }],
        keywords: vec!["AI".to_string(), "AI".to_string()],
        section: Section2021 {
            id: "S1".to_string(),
            title: "Track".to_string(),
            url: "https://example.org/s".to_string(),
            time: "Day 1".to_string(),
        },
    };
    let canon = raw.to_canonical();
    assert_eq!(canon.id, raw.id);
    assert_eq!(canon.title, raw.title);
    assert_eq!(canon.url, raw.url);
    assert_eq!(canon.time, raw.time);
    assert_eq!(canon.abstract_text, raw.abstract_text);
    assert_eq!(canon.authors.len(), 1);
    assert_eq!(canon.authors[0].name, raw.authors[0].name);
    assert_eq!(canon.authors[0].affiliation, raw.authors[0].affiliation);
    assert_eq!(canon.keywords, raw.keywords);
    assert_eq!(canon.section.id, raw.section.id);
    assert_eq!(canon.section.title, raw.section.title);
    assert_eq!(canon.section.url, raw.section.url);
    assert_eq!(canon.section.time, raw.section.time);
}

#[test]
fn adapter_2022_preserves_all_fields() {
    let raw = Session2022 {
        id: "2022-OS-001".to_string(),
        title: "B study".to_string(),
        url: "u".to_string(),
        time: "t".to_string(),
        abstract_text: "abs".to_string(),
        authors: vec![Author2022 {
            name: "Bob".to_string(),
            affiliation: "Lab".to_string(),
        }],
        keywords: vec![],
        section: Section2022 {
            id: "S2".to_string(),
            title: "T".to_string(),
            url: "su".to_string(),
            time: "st".to_string(),
        },
    };
    let canon = raw.to_canonical();
    assert_eq!(canon.id, raw.id);
    assert_eq!(canon.title, raw.title);
    assert_eq!(canon.abstract_text, raw.abstract_text);
    assert_eq!(canon.authors[0].name, raw.authors[0].name);
    assert_eq!(canon.section.id, raw.section.id);
}

#[test]
fn adapter_2023_preserves_all_fields() {
    let raw = Session2023 {
        id: "2023-PS-001".to_string(),
        title: "C study".to_string(),
        url: "u".to_string(),
        time: "t".to_string(),
        abstract_text: "abs".to_string(),
        authors: vec![Author2023 {
            name: "Carol".to_string(),
            affiliation: "Inst".to_string(),
        }],
        keywords: vec!["k".to_string()],
        section: Section2023 {
            id: "S3".to_string(),
            title: "T".to_string(),
            url: "su".to_string(),
            time: "st".to_string(),
        },
    };
    let canon = raw.to_canonical();
    assert_eq!(canon.id, raw.id);
    assert_eq!(canon.keywords, raw.keywords);
    assert_eq!(canon.authors[0].affiliation, raw.authors[0].affiliation);
    assert_eq!(canon.section.time, raw.section.time);
}

#[test]
fn adapter_2024_preserves_all_fields() {
    let raw = Session2024 {
        id: "2024-SS-001".to_string(),
        title: "D study".to_string(),
        url: "u".to_string(),
        time: "t".to_string(),
        abstract_text: "abs".to_string(),
        authors: vec![],
        keywords: vec!["x".to_string(), "y".to_string()],
        section: Section2024 {
            id: "S4".to_string(),
            title: "T".to_string(),
            url: "su".to_string(),
            time: "st".to_string(),
        },
    };
    let canon = raw.to_canonical();
    assert_eq!(canon.id, raw.id);
    assert_eq!(canon.title, raw.title);
    assert_eq!(canon.keywords, raw.keywords);
    assert!(canon.authors.is_empty());
}

#[test]
fn adapter_2025_preserves_all_fields() {
    let raw = Session2025 {
        id: "2025-KS-001".to_string(),
        title: "E study".to_string(),
        url: "u".to_string(),
        time: "t".to_string(),
        abstract_text: "abs".to_string(),
        authors: vec![Author2025 {
            name: "Eve".to_string(),
            affiliation: "Org".to_string(),
        }],
        keywords: vec![],
        section: Section2025 {
            id: "S5".to_string(),
            title: "T".to_string(),
            url: "su".to_string(),
            time: "st".to_string(),
        },
    };
    let canon = raw.to_canonical();
    assert_eq!(canon.id, raw.id);
    assert_eq!(canon.abstract_text, raw.abstract_text);
    assert_eq!(canon.authors[0].name, raw.authors[0].name);
    assert_eq!(canon.section.url, raw.section.url);
}

#[test]
fn raw_title_with_id_format() {
    let raw = Session2021 {
        id: "2021GS001".to_string(),
        title: "Hello".to_string(),
        url: String::new(),
        time: String::new(),
        abstract_text: String::new(),
        authors: vec![],
        keywords: vec![],
        section: Section2021 {
            id: String::new(),
            title: String::new(),
            url: String::new(),
            time: String::new(),
        },
    };
    assert_eq!(raw.title_with_id(), "[2021GS001] Hello");
}

#[test]
fn json_data_to_sessions_keeps_order() {
    let section = Section2021 {
        id: "S1".to_string(),
        title: "T".to_string(),
        url: "u".to_string(),
        time: "t".to_string(),
    };
    let mk = |id: &str| Session2021 {
        id: id.to_string(),
        title: "x".to_string(),
        url: String::new(),
        time: String::new(),
        abstract_text: String::new(),
        authors: vec![],
        keywords: vec![],
        section: Section2021 {
            id: section.id.clone(),
            title: section.title.clone(),
            url: section.url.clone(),
            time: section.time.clone(),
        },
    };
    let sessions = vec![mk("2021GS001"), mk("2021GS002"), mk("2021GS003")];
    let data = JsonData2021 { sections: vec![section], sessions };
    let sessions = data.to_sessions();
    let ids: Vec<&str> = sessions.iter().map(|s| s.id.as_str()).collect();
    assert_eq!(ids, vec!["2021GS001", "2021GS002", "2021GS003"]);
}
