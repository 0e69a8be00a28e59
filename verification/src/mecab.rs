//! Word-cloud input text generation over part-of-speech-tagged
//! morphological tokens. The tokenizer itself is an external
//! collaborator: it hands in `MeCabToken` values, and everything from
//! there on — noun filtering, digit and stopword dropping, joining,
//! and the fixed literal replacement table — is verified here.

use vstd::prelude::*;
use crate::text::{
    chars_of, contains_sub, join_space, join_with_space, replace_chars, replace_seq, str_contains,
    string_of, string_views, strings_contain,
};

verus! {

/// One morphological token: its surface form and part-of-speech tags.
pub struct MeCabToken {
    pub surface: String,
    pub pos1: String,
    pub pos2: String,
    pub feature: String,
}

/// Mathematical view of a [`MeCabToken`].
#[verifier::ext_equal]
pub struct TokenView {
    pub surface: Seq<char>,
    pub pos1: Seq<char>,
    pub pos2: Seq<char>,
    pub feature: Seq<char>,
}

impl View for MeCabToken {
    type V = TokenView;

    open spec fn view(&self) -> TokenView {
        TokenView {
            surface: self.surface@,
            pos1: self.pos1@,
            pos2: self.pos2@,
            feature: self.feature@,
        }
    }
}

/// The views of a list of tokens.
pub open spec fn token_views(ts: Seq<MeCabToken>) -> Seq<TokenView> {
    ts.map_values(|t: MeCabToken| t@)
}

/// A non-empty run of decimal digit characters.
pub open spec fn all_digits(s: Seq<char>) -> bool {
    s.len() > 0 && forall|i: int| 0 <= i < s.len() ==> '0' <= #[trigger] s[i] <= '9'
}

/// A token survives into the word-cloud text when its primary
/// part-of-speech tag marks a noun, its surface is not a pure-digit
/// run, and its surface is not a stopword.
pub open spec fn kept(t: TokenView, stops: Seq<Seq<char>>) -> bool {
    contains_sub(t.pos1, "名詞"@) && !all_digits(t.surface) && !stops.contains(t.surface)
}

/// The surfaces of the surviving tokens, in order.
pub open spec fn kept_surfaces(tokens: Seq<TokenView>, stops: Seq<Seq<char>>) -> Seq<Seq<char>> {
    tokens.filter(|t: TokenView| kept(t, stops)).map_values(|t: TokenView| t.surface)
}

/// The fixed literal replacement table, applied in this exact order to
/// the space-joined token text: it re-merges multi-word terms that
/// tokenization split apart.
pub open spec fn apply_replacements(s: Seq<char>) -> Seq<char> {
    let s1 = replace_seq(s, "AI Agent"@, "AIエージェント"@);
    let s2 = replace_seq(s1, "AI エージェント"@, "AIエージェント"@);
    let s3 = replace_seq(s2, "AI ガバナンス"@, "AIガバナンス"@);
    let s4 = replace_seq(s3, "AI アラインメント"@, "AIアラインメント"@);
    let s5 = replace_seq(s4, "Deep Learning"@, "深層学習"@);
    let s6 = replace_seq(s5, "ディープラーニング"@, "深層学習"@);
    let s7 = replace_seq(s6, "生成 AI"@, "生成AI"@);
    let s8 = replace_seq(s7, "自動 抽出"@, "自動抽出"@);
    let s9 = replace_seq(s8, "自動 作成"@, "自動作成"@);
    let s10 = replace_seq(s9, "自動 運転"@, "自動運転"@);
    let s11 = replace_seq(s10, "自動 採点"@, "自動採点"@);
    let s12 = replace_seq(s11, "自動 生成"@, "自動生成"@);
    replace_seq(s12, "Chat GPT"@, "ChatGPT"@)
}

/// The word-cloud input text for a token stream: surviving surfaces
/// joined with single spaces, then run through the replacement table.
pub open spec fn wordcloud_text(tokens: Seq<TokenView>, stops: Seq<Seq<char>>) -> Seq<char> {
    apply_replacements(join_space(kept_surfaces(tokens, stops)))
}

/// Whether every character of `s` is a decimal digit (and `s` is
/// non-empty).
fn is_all_digits(s: &String) -> (r: bool)
    ensures
        r == all_digits(s@),
{
    let v = chars_of(s.as_str());
    if v.len() == 0 {
        return false;
    }
    let mut i: usize = 0;
    while i < v.len()
        invariant
            v@ == s@,
            v@.len() > 0,
            i <= v@.len(),
            forall|k: int| 0 <= k < i ==> '0' <= #[trigger] v@[k] <= '9',
        decreases v@.len() - i,
    {
        let c = v[i];
        if c < '0' || c > '9' {
            return false;
        }
        i = i + 1;
    }
    true
}

/// Decides whether one token survives into the word-cloud text.
fn is_kept(t: &MeCabToken, stopwords: &Vec<String>) -> (r: bool)
    ensures
        r == kept(t@, string_views(stopwords@)),
{
    if !str_contains(t.pos1.as_str(), "名詞") {
        return false;
    }
    if is_all_digits(&t.surface) {
        return false;
    }
    if strings_contain(stopwords, &t.surface) {
        return false;
    }
    true
}

/// Replaces every occurrence of the literal `from` by `to`.
fn replace_lit(v: &Vec<char>, from: &str, to: &str) -> (r: Vec<char>)
    requires
        from@.len() > 0,
    ensures
        r@ == replace_seq(v@, from@, to@),
{
    let f = chars_of(from);
    let t = chars_of(to);
    replace_chars(v, &f, &t)
}

/// Runs the fixed replacement table over `v`, in table order.
fn run_replacements(v: &Vec<char>) -> (r: Vec<char>)
    ensures
        r@ == apply_replacements(v@),
{
    proof {
        reveal_strlit("AI Agent");
        reveal_strlit("AI エージェント");
        reveal_strlit("AI ガバナンス");
        reveal_strlit("AI アラインメント");
        reveal_strlit("Deep Learning");
        reveal_strlit("ディープラーニング");
        reveal_strlit("生成 AI");
        reveal_strlit("自動 抽出");
        reveal_strlit("自動 作成");
        reveal_strlit("自動 運転");
        reveal_strlit("自動 採点");
        reveal_strlit("自動 生成");
        reveal_strlit("Chat GPT");
    }
    let r = replace_lit(v, "AI Agent", "AIエージェント");
    let r = replace_lit(&r, "AI エージェント", "AIエージェント");
    let r = replace_lit(&r, "AI ガバナンス", "AIガバナンス");
    let r = replace_lit(&r, "AI アラインメント", "AIアラインメント");
    let r = replace_lit(&r, "Deep Learning", "深層学習");
    let r = replace_lit(&r, "ディープラーニング", "深層学習");
    let r = replace_lit(&r, "生成 AI", "生成AI");
    let r = replace_lit(&r, "自動 抽出", "自動抽出");
    let r = replace_lit(&r, "自動 作成", "自動作成");
    let r = replace_lit(&r, "自動 運転", "自動運転");
    let r = replace_lit(&r, "自動 採点", "自動採点");
    let r = replace_lit(&r, "自動 生成", "自動生成");
    let r = replace_lit(&r, "Chat GPT", "ChatGPT");
    r
}

/// Builds the word-cloud input text from a tagged token stream and the
/// collaborator-provided stopword list: noun surfaces only, pure-digit
/// and stopword surfaces dropped, joined with single spaces, then the
/// fixed replacement table applied.
pub fn generate_wordcloud_input(tokens: &Vec<MeCabToken>, stopwords: &Vec<String>) -> (r: String)
    ensures
        r@ == wordcloud_text(token_views(tokens@), string_views(stopwords@)),
{
    let ghost stops = string_views(stopwords@);
    let ghost tv = token_views(tokens@);
    let ghost pred = |t: TokenView| kept(t, stops);
    let mut surfaces: Vec<String> = Vec::new();
    let mut i: usize = 0;
    proof {
        reveal(Seq::filter);
        assert(tv.take(0) =~= Seq::<TokenView>::empty());
        assert(string_views(surfaces@) =~= tv.take(0).filter(pred).map_values(
            |t: TokenView| t.surface,
        ));
    }
    while i < tokens.len()
        invariant
            i <= tokens@.len(),
            tv == token_views(tokens@),
            stops == string_views(stopwords@),
            pred == (|t: TokenView| kept(t, stops)),
            string_views(surfaces@) == tv.take(i as int).filter(pred).map_values(
                |t: TokenView| t.surface,
            ),
        decreases tokens@.len() - i,
    {
        let ghost old_surfaces = surfaces@;
        if is_kept(&tokens[i], stopwords) {
            surfaces.push(tokens[i].surface.clone());
            proof {
                assert(string_views(surfaces@) =~= string_views(old_surfaces).push(
                    tv[i as int].surface,
                ));
            }
        }
        proof {
            reveal(Seq::filter);
            assert(tv.take(i + 1 as int).drop_last() =~= tv.take(i as int));
            assert(tv.take(i + 1 as int).last() == tv[i as int]);
            assert(string_views(surfaces@) =~= tv.take(i + 1 as int).filter(pred).map_values(
                |t: TokenView| t.surface,
            ));
        }
        i = i + 1;
    }
    proof {
        assert(tv.take(tokens@.len() as int) =~= tv);
    }
    let joined = join_with_space(&surfaces);
    let v = chars_of(joined.as_str());
    let replaced = run_replacements(&v);
    string_of(&replaced)
}

} // verus!
