//! The canonical, year-independent record schema: `Section`, `Author`
//! and `Session`, with their mathematical views. Every year adapter
//! converges into these types.

use vstd::prelude::*;
use vstd::string::*;
use crate::text::string_views;

verus! {

/// Mathematical view of a [`Section`]: the four fields as character
/// sequences.
#[verifier::ext_equal]
pub struct SectionView {
    pub id: Seq<char>,
    pub title: Seq<char>,
    pub url: Seq<char>,
    pub time: Seq<char>,
}

/// Mathematical view of an [`Author`].
#[verifier::ext_equal]
pub struct AuthorView {
    pub name: Seq<char>,
    pub affiliation: Seq<char>,
}

/// Mathematical view of a [`Session`].
#[verifier::ext_equal]
pub struct SessionView {
    pub id: Seq<char>,
    pub title: Seq<char>,
    pub url: Seq<char>,
    pub time: Seq<char>,
    pub abstract_text: Seq<char>,
    pub authors: Seq<AuthorView>,
    pub keywords: Seq<Seq<char>>,
    pub section: SectionView,
}

/// A conference time-slot grouping. `id` is the source-assigned code.
pub struct Section {
    pub id: String,
    pub title: String,
    pub url: String,
    pub time: String,
}

/// An author attached to a session, in presentation order.
pub struct Author {
    pub name: String,
    pub affiliation: String,
}

/// The unit of analysis: one conference presentation record. It owns a
/// copy of its parent `Section` and its ordered list of `Author`s; the
/// keyword list is set-like (order irrelevant, duplicates tolerated).
pub struct Session {
    pub id: String,
    pub title: String,
    pub url: String,
    pub time: String,
    pub abstract_text: String,
    pub authors: Vec<Author>,
    pub keywords: Vec<String>,
    pub section: Section,
}

impl View for Section {
    type V = SectionView;

    open spec fn view(&self) -> SectionView {
        SectionView { id: self.id@, title: self.title@, url: self.url@, time: self.time@ }
    }
}

impl View for Author {
    type V = AuthorView;

    open spec fn view(&self) -> AuthorView {
        AuthorView { name: self.name@, affiliation: self.affiliation@ }
    }
}

/// The views of a list of authors.
pub open spec fn author_views(authors: Seq<Author>) -> Seq<AuthorView> {
    authors.map_values(|a: Author| a@)
}

impl View for Session {
    type V = SessionView;

    open spec fn view(&self) -> SessionView {
        SessionView {
            id: self.id@,
            title: self.title@,
            url: self.url@,
            time: self.time@,
            abstract_text: self.abstract_text@,
            authors: author_views(self.authors@),
            keywords: string_views(self.keywords@),
            section: self.section@,
        }
    }
}

/// The views of a list of sessions.
pub open spec fn session_views(sessions: Seq<Session>) -> Seq<SessionView> {
    sessions.map_values(|s: Session| s@)
}

impl Clone for Section {
    fn clone(&self) -> (res: Self)
        ensures
            res@ == self@,
    {
        Section {
            id: self.id.clone(),
            title: self.title.clone(),
            url: self.url.clone(),
            time: self.time.clone(),
        }
    }
}

impl Clone for Author {
    fn clone(&self) -> (res: Self)
        ensures
            res@ == self@,
    {
        Author { name: self.name.clone(), affiliation: self.affiliation.clone() }
    }
}

/// Clones a list of authors, preserving its view.
fn clone_authors(authors: &Vec<Author>) -> (res: Vec<Author>)
    ensures
        author_views(res@) == author_views(authors@),
{
    let mut res: Vec<Author> = Vec::new();
    let mut i: usize = 0;
    while i < authors.len()
        invariant
            i <= authors@.len(),
            res@.len() == i,
            forall|k: int| 0 <= k < i ==> res@[k]@ == authors@[k]@,
        decreases authors@.len() - i,
    {
        res.push(authors[i].clone());
        i = i + 1;
    }
    proof {
        assert(author_views(res@) =~= author_views(authors@));
    }
    res
}

/// Clones a list of strings, preserving its view.
pub fn clone_strings(strings: &Vec<String>) -> (res: Vec<String>)
    ensures
        string_views(res@) == string_views(strings@),
{
    let mut res: Vec<String> = Vec::new();
    let mut i: usize = 0;
    while i < strings.len()
        invariant
            i <= strings@.len(),
            res@.len() == i,
            forall|k: int| 0 <= k < i ==> res@[k]@ == strings@[k]@,
        decreases strings@.len() - i,
    {
        res.push(strings[i].clone());
        i = i + 1;
    }
    proof {
        assert(string_views(res@) =~= string_views(strings@));
    }
    res
}

impl Clone for Session {
    fn clone(&self) -> (res: Self)
        ensures
            res@ == self@,
    {
        let res = Session {
            id: self.id.clone(),
            title: self.title.clone(),
            url: self.url.clone(),
            time: self.time.clone(),
            abstract_text: self.abstract_text.clone(),
            authors: clone_authors(&self.authors),
            keywords: clone_strings(&self.keywords),
            section: self.section.clone(),
        };
        proof {
            assert(res@ =~= self@);
        }
        res
    }
}

/// The display title of a session: `"[{id}] {title}"`.
pub open spec fn display_title(s: SessionView) -> Seq<char> {
    "["@ + s.id + "] "@ + s.title
}

impl Session {
    /// Formats this session for display as `"[{id}] {title}"`.
    pub fn title_with_id(&self) -> (r: String)
        ensures
            r@ == display_title(self@),
    {
        let mut r = String::new();
        r.append("[");
        r.append(self.id.as_str());
        r.append("] ");
        r.append(self.title.as_str());
        proof {
            assert(r@ =~= display_title(self@));
        }
        r
    }
}

} // verus!
