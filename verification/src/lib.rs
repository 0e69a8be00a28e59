//! Cross-year conference-session normalization and keyword analysis.
//!
//! Session listings scraped from yearly conference portals arrive in
//! per-year raw record shapes; this crate converges them into one
//! canonical schema and computes keyword-based statistics and the
//! word-cloud input text over the collected corpus. Scraping, the
//! morphological tokenizer and file I/O are external collaborators:
//! they live outside this crate, which only states and proves what is
//! computed from the values they hand in.

pub mod jsai2021;
pub mod jsai2022;
pub mod jsai2023;
pub mod jsai2024;
pub mod jsai2025;
pub mod keyword;
pub mod mecab;
pub mod models;
pub mod stats;
pub mod text;
