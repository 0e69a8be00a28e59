//! Year adapter for the 2025 snapshot: the raw record shapes extracted
//! from that year's portal pages, and their pure, total,
//! structure-preserving conversion into the canonical schema. The
//! conversion is a relabeling, not a validation: it cannot fail, and
//! it preserves every field exactly, which the shared canonical view
//! type makes a single `==` in the contracts.

use vstd::prelude::*;
use crate::models::{
    Author, AuthorView, Section, SectionView, Session, SessionView, author_views,
    session_views,
};
use crate::text::string_views;

verus! {

/// Raw section record of the 2025 snapshot.
pub struct Section2025 {
    pub id: String,
    pub title: String,
    pub url: String,
    pub time: String,
}

/// Raw author record of the 2025 snapshot.
pub struct Author2025 {
    pub name: String,
    pub affiliation: String,
}

/// Raw session record of the 2025 snapshot.
pub struct Session2025 {
    pub id: String,
    pub title: String,
    pub url: String,
    pub time: String,
    pub abstract_text: String,
    pub authors: Vec<Author2025>,
    pub keywords: Vec<String>,
    pub section: Section2025,
}

/// Shape of a persisted 2025 data file: the section list and the
/// session list, each session embedding its own section.
pub struct JsonData2025 {
    pub sections: Vec<Section2025>,
    pub sessions: Vec<Session2025>,
}

impl View for Section2025 {
    type V = SectionView;

    open spec fn view(&self) -> SectionView {
        SectionView { id: self.id@, title: self.title@, url: self.url@, time: self.time@ }
    }
}

impl View for Author2025 {
    type V = AuthorView;

    open spec fn view(&self) -> AuthorView {
        AuthorView { name: self.name@, affiliation: self.affiliation@ }
    }
}

/// The views of a list of raw 2025 authors.
pub open spec fn author_views_2025(authors: Seq<Author2025>) -> Seq<AuthorView> {
    authors.map_values(|a: Author2025| a@)
}

impl View for Session2025 {
    type V = SessionView;

    open spec fn view(&self) -> SessionView {
        SessionView {
            id: self.id@,
            title: self.title@,
            url: self.url@,
            time: self.time@,
            abstract_text: self.abstract_text@,
            authors: author_views_2025(self.authors@),
            keywords: string_views(self.keywords@),
            section: self.section@,
        }
    }
}

/// The views of a list of raw 2025 sessions.
pub open spec fn session_views_2025(sessions: Seq<Session2025>) -> Seq<SessionView> {
    sessions.map_values(|s: Session2025| s@)
}

impl Section2025 {
    /// Converts this raw section to canonical form, preserving every
    /// field.
    pub fn to_canonical(&self) -> (r: Section)
        ensures
            r@ == self@,
    {
        Section {
            id: self.id.clone(),
            title: self.title.clone(),
            url: self.url.clone(),
            time: self.time.clone(),
        }
    }
}

impl Author2025 {
    /// Converts this raw author to canonical form, preserving every
    /// field.
    pub fn to_canonical(&self) -> (r: Author)
        ensures
            r@ == self@,
    {
        Author { name: self.name.clone(), affiliation: self.affiliation.clone() }
    }
}

/// Converts a raw 2025 author list to canonical form, preserving
/// order and every field.
fn convert_authors(authors: &Vec<Author2025>) -> (r: Vec<Author>)
    ensures
        author_views(r@) == author_views_2025(authors@),
{
    let mut r: Vec<Author> = Vec::new();
    let mut i: usize = 0;
    while i < authors.len()
        invariant
            i <= authors@.len(),
            r@.len() == i,
            forall|k: int| 0 <= k < i ==> r@[k]@ == authors@[k]@,
        decreases authors@.len() - i,
    {
        r.push(authors[i].to_canonical());
        i = i + 1;
    }
    proof {
        assert(author_views(r@) =~= author_views_2025(authors@));
    }
    r
}

impl Session2025 {
    /// Converts this raw session to canonical form: a pure, total,
    /// structure-preserving relabeling of every field, authors and
    /// section converted recursively.
    pub fn to_canonical(&self) -> (r: Session)
        ensures
            r@ == self@,
    {
        let r = Session {
            id: self.id.clone(),
            title: self.title.clone(),
            url: self.url.clone(),
            time: self.time.clone(),
            abstract_text: self.abstract_text.clone(),
            authors: convert_authors(&self.authors),
            keywords: crate::models::clone_strings(&self.keywords),
            section: self.section.to_canonical(),
        };
        proof {
            assert(r@ =~= self@);
        }
        r
    }

}

impl JsonData2025 {
    /// The sessions of this year file, each converted to canonical
    /// form, in file order.
    pub fn to_sessions(&self) -> (r: Vec<Session>)
        ensures
            session_views(r@) == session_views_2025(self.sessions@),
    {
        let mut r: Vec<Session> = Vec::new();
        let mut i: usize = 0;
        while i < self.sessions.len()
            invariant
                i <= self.sessions@.len(),
                r@.len() == i,
                forall|k: int| 0 <= k < i ==> r@[k]@ == self.sessions@[k]@,
            decreases self.sessions@.len() - i,
        {
            r.push(self.sessions[i].to_canonical());
            i = i + 1;
        }
        proof {
            assert(session_views(r@) =~= session_views_2025(self.sessions@));
        }
        r
    }
}

/// A 2025 adapter output whose view equals the raw record's view
/// agrees with the raw record on every field: nothing is dropped,
/// renamed or reinterpreted by the conversion.
pub proof fn lemma_adapter_preserves_fields_2025(raw: Session2025, canon: Session)
    requires
        canon@ == raw@,
    ensures
        canon.id@ == raw.id@,
        canon.title@ == raw.title@,
        canon.url@ == raw.url@,
        canon.time@ == raw.time@,
        canon.abstract_text@ == raw.abstract_text@,
        author_views(canon.authors@) == author_views_2025(raw.authors@),
        string_views(canon.keywords@) == string_views(raw.keywords@),
        canon.section@ == raw.section@,
{
}

} // verus!
