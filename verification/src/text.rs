//! Character-level text operations: conversions between `String` /
//! `&str` and `Vec<char>`, substring containment, literal replacement
//! and space-joining, each proved against a direct mathematical
//! statement over `Seq<char>`.

use vstd::prelude::*;
use vstd::string::*;

verus! {

/// The views of a list of strings, as a sequence of character sequences.
pub open spec fn string_views(ss: Seq<String>) -> Seq<Seq<char>> {
    ss.map_values(|s: String| s@)
}

/// `needle` occurs contiguously somewhere inside `hay`.
pub open spec fn contains_sub(hay: Seq<char>, needle: Seq<char>) -> bool {
    exists|i: int|
        0 <= i && i + needle.len() <= hay.len() && #[trigger] hay.subrange(
            i,
            i + needle.len() as int,
        ) == needle
}

/// The characters of `s`, in order.
pub fn chars_of(s: &str) -> (r: Vec<char>)
    ensures
        r@ == s@,
{
    let n: usize = s.unicode_len();
    let mut r: Vec<char> = Vec::new();
    let mut i: usize = 0;
    while i < n
        invariant
            n == s@.len(),
            i <= n,
            r@ == s@.take(i as int),
        decreases n - i,
    {
        let c = s.get_char(i);
        r.push(c);
        proof {
            assert(r@ =~= s@.take(i + 1 as int));
        }
        i = i + 1;
    }
    proof {
        assert(r@ =~= s@);
    }
    r
}

/// Relies on `String::push`: appends the given character to the end of
/// the string.
#[verifier::external_body]
fn push_char(s: &mut String, c: char)
    ensures
        final(s)@ == old(s)@.push(c),
{
    s.push(c);
}

/// The string holding exactly the characters of `v`, in order.
pub fn string_of(v: &Vec<char>) -> (r: String)
    ensures
        r@ == v@,
{
    let mut r = String::new();
    let mut i: usize = 0;
    while i < v.len()
        invariant
            i <= v@.len(),
            r@ == v@.take(i as int),
        decreases v@.len() - i,
    {
        push_char(&mut r, v[i]);
        proof {
            assert(r@ =~= v@.take(i + 1 as int));
        }
        i = i + 1;
    }
    proof {
        assert(r@ =~= v@);
    }
    r
}

/// Whether the window of `hay` starting at `at` equals `needle`.
fn window_matches(hay: &Vec<char>, needle: &Vec<char>, at: usize) -> (r: bool)
    requires
        at + needle@.len() <= hay@.len(),
    ensures
        r == (hay@.subrange(at as int, at as int + needle@.len() as int) == needle@),
{
    let hlen: usize = hay.len();
    let mut j: usize = 0;
    while j < needle.len()
        invariant
            at + needle@.len() <= hay@.len(),
            hlen == hay@.len(),
            j <= needle@.len(),
            forall|k: int| 0 <= k < j ==> hay@[at + k] == needle@[k],
        decreases needle@.len() - j,
    {
        if hay[at + j] != needle[j] {
            proof {
                let w = hay@.subrange(at as int, at as int + needle@.len() as int);
                assert(w[j as int] == hay@[at + j]);
            }
            return false;
        }
        j = j + 1;
    }
    proof {
        assert(hay@.subrange(at as int, at as int + needle@.len() as int) =~= needle@);
    }
    true
}

/// Whether `needle` occurs as a contiguous run of characters in `hay`.
pub fn contains_chars(hay: &Vec<char>, needle: &Vec<char>) -> (r: bool)
    ensures
        r == contains_sub(hay@, needle@),
{
    if needle.len() == 0 {
        proof {
            assert(hay@.subrange(0, 0 + needle@.len() as int) =~= needle@);
        }
        return true;
    }
    if needle.len() > hay.len() {
        return false;
    }
    let bound: usize = hay.len() - needle.len();
    let mut i: usize = 0;
    while i <= bound
        invariant
            0 < needle@.len() <= hay@.len(),
            hay@.len() <= usize::MAX,
            bound == hay@.len() - needle@.len(),
            i <= bound + 1,
            forall|k: int|
                0 <= k < i ==> #[trigger] hay@.subrange(k, k + needle@.len() as int) != needle@,
        decreases bound + 1 - i,
    {
        if window_matches(hay, needle, i) {
            return true;
        }
        i = i + 1;
    }
    false
}

/// `needle` occurs as a substring of `hay`.
pub fn str_contains(hay: &str, needle: &str) -> (r: bool)
    ensures
        r == contains_sub(hay@, needle@),
{
    let h = chars_of(hay);
    let n = chars_of(needle);
    contains_chars(&h, &n)
}

/// Whether `x` equals one of the strings in `list`.
pub fn strings_contain(list: &Vec<String>, x: &String) -> (r: bool)
    ensures
        r == string_views(list@).contains(x@),
{
    let mut i: usize = 0;
    while i < list.len()
        invariant
            i <= list@.len(),
            forall|k: int| 0 <= k < i ==> string_views(list@)[k] != x@,
        decreases list@.len() - i,
    {
        if list[i].eq(x) {
            proof {
                assert(string_views(list@)[i as int] == x@);
            }
            return true;
        }
        i = i + 1;
    }
    false
}

/// The result of replacing, left to right, every non-overlapping
/// occurrence of `from` in `s` by `to`. An empty `from` leaves `s`
/// unchanged.
pub open spec fn replace_seq(s: Seq<char>, from: Seq<char>, to: Seq<char>) -> Seq<char>
    decreases s.len(),
{
    if from.len() == 0 || s.len() < from.len() {
        s
    } else if s.subrange(0, from.len() as int) == from {
        to + replace_seq(s.skip(from.len() as int), from, to)
    } else {
        seq![s[0]] + replace_seq(s.skip(1), from, to)
    }
}

proof fn lemma_replace_step_match(s: Seq<char>, from: Seq<char>, to: Seq<char>, i: int)
    requires
        0 < from.len(),
        0 <= i,
        i + from.len() <= s.len(),
        s.subrange(i, i + from.len() as int) == from,
    ensures
        replace_seq(s.skip(i), from, to) == to + replace_seq(s.skip(i + from.len()), from, to),
{
    let rest = s.skip(i);
    assert(rest.subrange(0, from.len() as int) =~= s.subrange(i, i + from.len() as int));
    assert(rest.skip(from.len() as int) =~= s.skip(i + from.len()));
}

proof fn lemma_replace_step_char(s: Seq<char>, from: Seq<char>, to: Seq<char>, i: int)
    requires
        0 < from.len(),
        0 <= i < s.len(),
        i + from.len() <= s.len() ==> s.subrange(i, i + from.len() as int) != from,
    ensures
        replace_seq(s.skip(i), from, to) == seq![s[i]] + replace_seq(s.skip(i + 1), from, to),
{
    let rest = s.skip(i);
    assert(rest[0] == s[i]);
    assert(rest.skip(1) =~= s.skip(i + 1));
    if rest.len() < from.len() {
        assert(replace_seq(rest, from, to) == rest);
        assert(replace_seq(s.skip(i + 1), from, to) == s.skip(i + 1));
        assert(rest =~= seq![s[i]] + s.skip(i + 1));
    } else {
        assert(rest.subrange(0, from.len() as int) =~= s.subrange(i, i + from.len() as int));
    }
}

/// Appends all characters of `src` to `r`.
fn extend_chars(r: &mut Vec<char>, src: &Vec<char>)
    ensures
        final(r)@ == old(r)@ + src@,
{
    let mut i: usize = 0;
    while i < src.len()
        invariant
            i <= src@.len(),
            r@ == old(r)@ + src@.take(i as int),
        decreases src@.len() - i,
    {
        r.push(src[i]);
        proof {
            assert(old(r)@ + src@.take(i + 1 as int) =~= (old(r)@ + src@.take(i as int)).push(
                src@[i as int],
            ));
        }
        i = i + 1;
    }
    proof {
        assert(old(r)@ + src@.take(src@.len() as int) =~= old(r)@ + src@);
    }
}

/// Replaces, left to right, every non-overlapping occurrence of `from`
/// in `s` by `to`.
pub fn replace_chars(s: &Vec<char>, from: &Vec<char>, to: &Vec<char>) -> (r: Vec<char>)
    requires
        from@.len() > 0,
    ensures
        r@ == replace_seq(s@, from@, to@),
{
    let n: usize = s.len();
    let flen: usize = from.len();
    let mut r: Vec<char> = Vec::new();
    let mut i: usize = 0;
    proof {
        assert(s@.skip(0) =~= s@);
        assert(r@ + replace_seq(s@, from@, to@) =~= replace_seq(s@, from@, to@));
    }
    while i < n
        invariant
            0 < flen == from@.len(),
            n == s@.len(),
            i <= n,
            replace_seq(s@, from@, to@) == r@ + replace_seq(s@.skip(i as int), from@, to@),
        decreases n - i,
    {
        if flen <= n - i && window_matches(s, from, i) {
            extend_chars(&mut r, to);
            proof {
                lemma_replace_step_match(s@, from@, to@, i as int);
                assert((r@ + replace_seq(s@.skip(i + flen), from@, to@)) =~= replace_seq(
                    s@,
                    from@,
                    to@,
                ));
            }
            i = i + flen;
        } else {
            r.push(s[i]);
            proof {
                lemma_replace_step_char(s@, from@, to@, i as int);
                assert((r@ + replace_seq(s@.skip(i + 1 as int), from@, to@)) =~= replace_seq(
                    s@,
                    from@,
                    to@,
                ));
            }
            i = i + 1;
        }
    }
    proof {
        assert(s@.skip(n as int) =~= Seq::<char>::empty());
        assert(replace_seq(Seq::<char>::empty(), from@, to@) == Seq::<char>::empty());
        assert(r@ + Seq::<char>::empty() =~= r@);
    }
    r
}

/// The parts joined with a single space between consecutive parts.
pub open spec fn join_space(parts: Seq<Seq<char>>) -> Seq<char>
    decreases parts.len(),
{
    if parts.len() == 0 {
        Seq::empty()
    } else if parts.len() == 1 {
        parts[0]
    } else {
        join_space(parts.drop_last()) + seq![' '] + parts.last()
    }
}

/// Joins the strings of `parts` with a single space between
/// consecutive entries.
pub fn join_with_space(parts: &Vec<String>) -> (r: String)
    ensures
        r@ == join_space(string_views(parts@)),
{
    let mut r = String::new();
    let mut i: usize = 0;
    proof {
        assert(string_views(parts@).take(0) =~= Seq::<Seq<char>>::empty());
    }
    while i < parts.len()
        invariant
            i <= parts@.len(),
            r@ == join_space(string_views(parts@).take(i as int)),
        decreases parts@.len() - i,
    {
        if i > 0 {
            r.append(" ");
        }
        r.append(parts[i].as_str());
        proof {
            let views = string_views(parts@);
            assert(views.take(i + 1 as int).drop_last() =~= views.take(i as int));
            assert(views.take(i + 1 as int).last() == parts@[i as int]@);
            if i == 0 {
                assert(join_space(views.take(0)) =~= Seq::<char>::empty());
                assert(r@ =~= views.take(1)[0]);
            } else {
                reveal_strlit(" ");
                assert(" "@ =~= seq![' ']);
            }
        }
        i = i + 1;
    }
    proof {
        assert(string_views(parts@).take(parts@.len() as int) =~= string_views(parts@));
    }
    r
}


/// The character for one decimal digit value.
pub open spec fn digit_char(d: int) -> char {
    if d == 0 {
        '0'
    } else if d == 1 {
        '1'
    } else if d == 2 {
        '2'
    } else if d == 3 {
        '3'
    } else if d == 4 {
        '4'
    } else if d == 5 {
        '5'
    } else if d == 6 {
        '6'
    } else if d == 7 {
        '7'
    } else if d == 8 {
        '8'
    } else {
        '9'
    }
}

/// The usual decimal rendering of a non-negative integer: no sign, no
/// leading zeros (except for zero itself).
pub open spec fn decimal_of(n: int) -> Seq<char>
    decreases n,
{
    if n < 10 {
        seq![digit_char(n)]
    } else {
        decimal_of(n / 10).push(digit_char(n % 10))
    }
}

/// The character for one decimal digit.
fn digit_char_of(d: u32) -> (r: char)
    requires
        d < 10,
    ensures
        r == digit_char(d as int),
{
    match d {
        0 => '0',
        1 => '1',
        2 => '2',
        3 => '3',
        4 => '4',
        5 => '5',
        6 => '6',
        7 => '7',
        8 => '8',
        _ => '9',
    }
}

/// Renders `n` in decimal.
pub fn u32_to_decimal(n: u32) -> (r: String)
    ensures
        r@ == decimal_of(n as int),
{
    if n == 0 {
        let zero: Vec<char> = vec!['0'];
        proof {
            assert(decimal_of(0) =~= seq!['0']);
        }
        return string_of(&zero);
    }
    let mut digits: Vec<char> = Vec::new();
    let mut m: u32 = n;
    while m > 0
        invariant
            if m > 0 {
                decimal_of(n as int) == decimal_of(m as int) + digits@.reverse()
            } else {
                decimal_of(n as int) == digits@.reverse()
            },
        decreases m,
    {
        let ghost old_digits = digits@;
        let ghost old_m = m as int;
        let d = m % 10;
        digits.push(digit_char_of(d));
        m = m / 10;
        proof {
            assert(digits@.reverse() =~= seq![digit_char(old_m % 10)] + old_digits.reverse());
            if old_m >= 10 {
                assert(decimal_of(old_m) == decimal_of(old_m / 10).push(digit_char(old_m % 10)));
                assert(decimal_of(old_m / 10) + digits@.reverse() =~= decimal_of(old_m)
                    + old_digits.reverse());
            } else {
                assert(decimal_of(old_m) =~= seq![digit_char(old_m)]);
                assert(digits@.reverse() =~= decimal_of(old_m) + old_digits.reverse());
            }
        }
    }
    let mut r: Vec<char> = Vec::new();
    let mut i: usize = digits.len();
    while i > 0
        invariant
            i <= digits@.len(),
            r@ == digits@.reverse().take((digits@.len() - i) as int),
        decreases i,
    {
        i = i - 1;
        r.push(digits[i]);
        proof {
            assert(r@ =~= digits@.reverse().take((digits@.len() - i) as int));
        }
    }
    proof {
        assert(digits@.reverse().take(digits@.len() as int) =~= digits@.reverse());
    }
    string_of(&r)
}

} // verus!
