//! The HTML report: a page with totals and one table row per repository.

use vstd::prelude::*;
use vstd::utf8::encode_utf8;
use crate::api::GitHubRepository;
use crate::template::{
    BADGE_CLOSE, BADGE_MIDDLE, BADGE_OPEN, PAGE_AFTER_COUNT, PAGE_AFTER_DATE, PAGE_AFTER_FORKS,
    PAGE_AFTER_HEADING, PAGE_AFTER_LANGUAGES, PAGE_AFTER_REPOSITORIES, PAGE_AFTER_STARS,
    PAGE_AFTER_TITLE, PAGE_CLOSE, PAGE_OPEN, ROW_AFTER_DESCRIPTION, ROW_AFTER_FORKS,
    ROW_AFTER_LANGUAGE, ROW_AFTER_NAME, ROW_AFTER_RANK, ROW_AFTER_STARS, ROW_AFTER_URL, ROW_CLOSE,
    ROW_OPEN,
};
use crate::text::{
    chars_of, decimal, opt_text, parse_usize_range, parse_usize_spec, push_char, push_range,
    u64_to_decimal, u64_to_padded_decimal, zero_padded,
};

verus! {

// ---------------------------------------------------------------------------
// Escaping

/// How one character is written into HTML text.
pub open spec fn escape_char(c: char) -> Seq<char> {
    if c == '&' {
        seq!['&', 'a', 'm', 'p', ';']
    } else if c == '<' {
        seq!['&', 'l', 't', ';']
    } else if c == '>' {
        seq!['&', 'g', 't', ';']
    } else if c == '"' {
        seq!['&', 'q', 'u', 'o', 't', ';']
    } else if c == '\'' {
        seq!['&', '#', '3', '9', ';']
    } else {
        seq![c]
    }
}

/// Text with each `&`, `<`, `>`, `"` and `'` replaced by its character reference.
pub open spec fn escape_spec(s: Seq<char>) -> Seq<char>
    decreases s.len(),
{
    if s.len() == 0 {
        Seq::empty()
    } else {
        escape_spec(s.drop_last()) + escape_char(s.last())
    }
}

fn push_escaped(out: &mut String, c: char)
    ensures
        final(out)@ == old(out)@ + escape_char(c),
{
    let ghost start = out@;
    if c == '&' {
        push_char(out, '&');
        push_char(out, 'a');
        push_char(out, 'm');
        push_char(out, 'p');
        push_char(out, ';');
    } else if c == '<' {
        push_char(out, '&');
        push_char(out, 'l');
        push_char(out, 't');
        push_char(out, ';');
    } else if c == '>' {
        push_char(out, '&');
        push_char(out, 'g');
        push_char(out, 't');
        push_char(out, ';');
    } else if c == '"' {
        push_char(out, '&');
        push_char(out, 'q');
        push_char(out, 'u');
        push_char(out, 'o');
        push_char(out, 't');
        push_char(out, ';');
    } else if c == '\'' {
        push_char(out, '&');
        push_char(out, '#');
        push_char(out, '3');
        push_char(out, '9');
        push_char(out, ';');
    } else {
        push_char(out, c);
    }
    assert(out@ =~= start + escape_char(c));
}

/// Escapes text for use inside HTML.
pub fn escape_html(s: &str) -> (r: String)
    ensures
        r@ == escape_spec(s@),
{
    let v = chars_of(s);
    let mut out = String::new();
    let mut i: usize = 0;
    while i < v.len()
        invariant
            v@ == s@,
            i <= v.len(),
            out@ == escape_spec(v@.take(i as int)),
        decreases v.len() - i,
    {
        push_escaped(&mut out, v[i]);
        assert(v@.take(i + 1).drop_last() =~= v@.take(i as int));
        i = i + 1;
    }
    assert(v@.take(v.len() as int) =~= v@);
    out
}

/// Whether a character has a meaning in HTML markup.
pub open spec fn is_markup_char(c: char) -> bool {
    c == '<' || c == '>' || c == '"' || c == '\''
}

/// Escaped text holds no `<`, `>`, `"` or `'`.
pub proof fn lemma_escaped_has_no_markup(s: Seq<char>)
    ensures
        forall|i: int| 0 <= i < escape_spec(s).len() ==> !is_markup_char(#[trigger] escape_spec(s)[i]),
    decreases s.len(),
{
    if s.len() > 0 {
        lemma_escaped_has_no_markup(s.drop_last());
        let a = escape_spec(s.drop_last());
        let b = escape_char(s.last());
        assert forall|i: int| 0 <= i < escape_spec(s).len() implies !is_markup_char(
            #[trigger] escape_spec(s)[i],
        ) by {
            if i < a.len() {
                assert(escape_spec(s)[i] == a[i]);
            } else {
                assert(escape_spec(s)[i] == b[i - a.len()]);
            }
        }
    }
}

/// Text without `&`, `<`, `>`, `"` and `'` is left as it is.
pub proof fn lemma_escape_plain_text(s: Seq<char>)
    requires
        forall|i: int| 0 <= i < s.len() ==> !is_markup_char(#[trigger] s[i]) && s[i] != '&',
    ensures
        escape_spec(s) == s,
    decreases s.len(),
{
    if s.len() > 0 {
        assert forall|i: int| 0 <= i < s.drop_last().len() implies !is_markup_char(
            #[trigger] s.drop_last()[i],
        ) && s.drop_last()[i] != '&' by {
            assert(s.drop_last()[i] == s[i]);
        }
        lemma_escape_plain_text(s.drop_last());
        assert(s.last() == s[s.len() - 1]);
        assert(s.drop_last().push(s.last()) =~= s);
    }
}

/// Reads HTML text back: each of the five character references that
/// `escape_char` writes, taken from the left, becomes its character again.
pub open spec fn unescape_spec(t: Seq<char>) -> Seq<char>
    decreases t.len(),
{
    if t.len() == 0 {
        Seq::empty()
    } else if t.len() >= 5 && t.take(5) == escape_char('&') {
        seq!['&'] + unescape_spec(t.skip(5))
    } else if t.len() >= 4 && t.take(4) == escape_char('<') {
        seq!['<'] + unescape_spec(t.skip(4))
    } else if t.len() >= 4 && t.take(4) == escape_char('>') {
        seq!['>'] + unescape_spec(t.skip(4))
    } else if t.len() >= 6 && t.take(6) == escape_char('"') {
        seq!['"'] + unescape_spec(t.skip(6))
    } else if t.len() >= 5 && t.take(5) == escape_char('\'') {
        seq!['\''] + unescape_spec(t.skip(5))
    } else {
        seq![t[0]] + unescape_spec(t.skip(1))
    }
}

/// Whether one of the five character references starts at position `i`.
pub open spec fn reference_at(t: Seq<char>, i: int) -> bool {
    ||| i + 5 <= t.len() && t.subrange(i, i + 5) == escape_char('&')
    ||| i + 4 <= t.len() && t.subrange(i, i + 4) == escape_char('<')
    ||| i + 4 <= t.len() && t.subrange(i, i + 4) == escape_char('>')
    ||| i + 6 <= t.len() && t.subrange(i, i + 6) == escape_char('"')
    ||| i + 5 <= t.len() && t.subrange(i, i + 5) == escape_char('\'')
}

proof fn lemma_escape_front(s: Seq<char>)
    requires
        s.len() > 0,
    ensures
        escape_spec(s) == escape_char(s[0]) + escape_spec(s.drop_first()),
    decreases s.len(),
{
    if s.len() == 1 {
        assert(s.drop_last() =~= Seq::<char>::empty());
        assert(s.drop_first() =~= Seq::<char>::empty());
        assert(escape_spec(s) =~= escape_char(s[0]) + escape_spec(s.drop_first()));
    } else {
        lemma_escape_front(s.drop_last());
        assert(s.drop_last()[0] == s[0]);
        assert(s.drop_last().drop_first() =~= s.drop_first().drop_last());
        assert(s.drop_first().last() == s.last());
        assert(escape_spec(s) =~= escape_char(s[0]) + escape_spec(s.drop_first()));
    }
}

/// Reading escaped text back gives the text: `unescape_spec` undoes `escape_html`.
pub proof fn lemma_unescape_escape(s: Seq<char>)
    ensures
        unescape_spec(escape_spec(s)) == s,
    decreases s.len(),
{
    if s.len() == 0 {
        assert(escape_spec(s) =~= Seq::<char>::empty());
    } else {
        lemma_escape_front(s);
        lemma_unescape_escape(s.drop_first());
        let c = s[0];
        let e = escape_char(c);
        let rest = escape_spec(s.drop_first());
        let t = e + rest;
        assert(t.skip(e.len() as int) =~= rest);
        assert(t[0] == e[0]);
        if c != '&' && c != '<' && c != '>' && c != '"' && c != '\'' {
            assert(t[0] == c);
            if t.len() >= 4 {
                assert(t.take(4)[0] == c);
            }
            if t.len() >= 5 {
                assert(t.take(5)[0] == c);
            }
            if t.len() >= 6 {
                assert(t.take(6)[0] == c);
            }
            assert(unescape_spec(t) == seq![c] + unescape_spec(t.skip(1)));
        } else if c == '&' {
            assert(t.take(5) =~= e);
        } else if c == '<' {
            assert(t.take(4) =~= e);
            if t.len() >= 5 {
                assert(t.take(5)[1] == 'l');
            }
        } else if c == '>' {
            assert(t.take(4) =~= e);
            if t.len() >= 5 {
                assert(t.take(5)[1] == 'g');
            }
            if t.len() >= 4 {
                assert(t.take(4)[1] == 'g');
            }
        } else if c == '"' {
            assert(t.take(6) =~= e);
            if t.len() >= 5 {
                assert(t.take(5)[1] == 'q');
            }
            if t.len() >= 4 {
                assert(t.take(4)[1] == 'q');
            }
        } else {
            assert(t.take(5) =~= e);
            if t.len() >= 5 {
                assert(t.take(5)[1] == '#');
            }
            if t.len() >= 4 {
                assert(t.take(4)[1] == '#');
            }
            if t.len() >= 6 {
                assert(t.take(6)[1] == '#');
            }
        }
        assert(seq![c] + s.drop_first() =~= s);
    }
}

/// What `str::replace(pat, rep)` gives: each occurrence of `pat`, found from
/// the left without overlap, replaced by `rep`.
pub open spec fn replace_all(t: Seq<char>, pat: Seq<char>, rep: Seq<char>) -> Seq<char>
    decreases t.len(),
{
    if t.len() == 0 {
        Seq::empty()
    } else if pat.len() > 0 && t.len() >= pat.len() && t.take(pat.len() as int) == pat {
        rep + replace_all(t.skip(pat.len() as int), pat, rep)
    } else {
        seq![t[0]] + replace_all(t.skip(1), pat, rep)
    }
}

/// Reads HTML text back by replacing `&lt;`, `&gt;`, `&quot;` and `&#39;` by
/// their characters, one after another, and `&amp;` by `&` last.
pub open spec fn unescape_by_replacing(t: Seq<char>) -> Seq<char> {
    let t1 = replace_all(t, escape_char('<'), seq!['<']);
    let t2 = replace_all(t1, escape_char('>'), seq!['>']);
    let t3 = replace_all(t2, escape_char('"'), seq!['"']);
    let t4 = replace_all(t3, escape_char('\''), seq!['\'']);
    replace_all(t4, escape_char('&'), seq!['&'])
}

/// The character that the replacement with index `k` (0 to 4) reads back.
spec fn replaced_char(k: nat) -> char {
    if k == 0 { '<' } else if k == 1 { '>' } else if k == 2 { '"' } else if k == 3 { '\'' } else { '&' }
}

/// Whether a character has been read back after the first `k` replacements.
spec fn read_back(k: nat, c: char) -> bool {
    ||| (k >= 1 && c == '<')
    ||| (k >= 2 && c == '>')
    ||| (k >= 3 && c == '"')
    ||| (k >= 4 && c == '\'')
    ||| (k >= 5 && c == '&')
}

/// How a character stands after the first `k` replacements.
spec fn stage_piece(k: nat, c: char) -> Seq<char> {
    if read_back(k, c) { seq![c] } else { escape_char(c) }
}

/// Escaped text after the first `k` replacements.
spec fn stage(k: nat, s: Seq<char>) -> Seq<char>
    decreases s.len(),
{
    if s.len() == 0 {
        Seq::empty()
    } else {
        stage_piece(k, s[0]) + stage(k, s.drop_first())
    }
}

proof fn lemma_stage_start(s: Seq<char>)
    ensures
        stage(0, s) == escape_spec(s),
    decreases s.len(),
{
    if s.len() == 0 {
        assert(escape_spec(s) =~= Seq::<char>::empty());
    } else {
        lemma_stage_start(s.drop_first());
        lemma_escape_front(s);
    }
}

proof fn lemma_stage_end(s: Seq<char>)
    ensures
        stage(5, s) == s,
    decreases s.len(),
{
    if s.len() > 0 {
        lemma_stage_end(s.drop_first());
        assert(seq![s[0]] + s.drop_first() =~= s);
    }
}

/// Replacing a pattern that starts with `&` passes over text without `&`.
proof fn lemma_replace_skips(u: Seq<char>, v: Seq<char>, pat: Seq<char>, rep: Seq<char>)
    requires
        pat.len() > 0,
        pat[0] == '&',
        !u.contains('&'),
    ensures
        replace_all(u + v, pat, rep) == u + replace_all(v, pat, rep),
    decreases u.len(),
{
    if u.len() > 0 {
        let t = u + v;
        assert(t[0] == u[0]);
        assert(u[0] != '&');
        if t.len() >= pat.len() {
            assert(t.take(pat.len() as int)[0] != pat[0]);
        }
        assert(t.skip(1) =~= u.drop_first() + v);
        assert(!u.drop_first().contains('&')) by {
            if u.drop_first().contains('&') {
                let i = choose|i: int| 0 <= i < u.drop_first().len() && u.drop_first()[i] == '&';
                assert(u[i + 1] == '&');
            }
        }
        lemma_replace_skips(u.drop_first(), v, pat, rep);
        assert(seq![u[0]] + (u.drop_first() + replace_all(v, pat, rep)) =~= u + replace_all(v, pat, rep));
    } else {
        assert(u + v =~= v);
        assert(u + replace_all(v, pat, rep) =~= replace_all(v, pat, rep));
    }
}

/// One replacement step reads back one more character and leaves the others.
proof fn lemma_stage_step(k: nat, s: Seq<char>)
    requires
        k < 5,
    ensures
        replace_all(stage(k, s), escape_char(replaced_char(k)), seq![replaced_char(k)]) == stage(
            k + 1,
            s,
        ),
    decreases s.len(),
{
    let pat = escape_char(replaced_char(k));
    let rep = seq![replaced_char(k)];
    if s.len() == 0 {
    } else {
        lemma_stage_step(k, s.drop_first());
        let c = s[0];
        let piece = stage_piece(k, c);
        let rest = stage(k, s.drop_first());
        let t = piece + rest;
        assert(pat[0] == '&');
        assert(pat.len() >= 4);
        if c == replaced_char(k) {
            assert(piece == pat);
            assert(t.take(pat.len() as int) =~= pat);
            assert(t.skip(pat.len() as int) =~= rest);
            assert(stage_piece(k + 1, c) == rep);
        } else {
            assert(stage_piece(k + 1, c) == piece);
            if piece[0] != '&' {
                assert(!piece.contains('&')) by {
                    if piece.contains('&') {
                        let i = choose|i: int| 0 <= i < piece.len() && piece[i] == '&';
                    }
                }
                lemma_replace_skips(piece, rest, pat, rep);
            } else {
                // an escaped character that this step does not read back:
                // it differs from the pattern in its second character
                assert(piece.len() >= 4);
                assert(piece[1] != pat[1]);
                if t.len() >= pat.len() {
                    assert(t.take(pat.len() as int)[1] == piece[1]);
                }
                let tail = piece.drop_first();
                assert(!tail.contains('&')) by {
                    if tail.contains('&') {
                        let i = choose|i: int| 0 <= i < tail.len() && tail[i] == '&';
                        assert(piece[i + 1] == '&');
                    }
                }
                assert(t.skip(1) =~= tail + rest);
                lemma_replace_skips(tail, rest, pat, rep);
                assert(seq![piece[0]] + (tail + replace_all(rest, pat, rep)) =~= piece + replace_all(
                    rest,
                    pat,
                    rep,
                ));
            }
        }
    }
}

/// Reading escaped text back by string replacement, `&amp;` last, gives the text.
pub proof fn lemma_unescape_by_replacing(s: Seq<char>)
    ensures
        unescape_by_replacing(escape_spec(s)) == s,
{
    lemma_stage_start(s);
    lemma_stage_step(0, s);
    lemma_stage_step(1, s);
    lemma_stage_step(2, s);
    lemma_stage_step(3, s);
    lemma_stage_step(4, s);
    lemma_stage_end(s);
}

/// Every `&` of escaped text begins one of the five character references.
pub proof fn lemma_escaped_ampersands(s: Seq<char>)
    ensures
        forall|i: int| 0 <= i < escape_spec(s).len() && #[trigger] escape_spec(s)[i] == '&'
            ==> reference_at(escape_spec(s), i),
    decreases s.len(),
{
    if s.len() > 0 {
        lemma_escaped_ampersands(s.drop_last());
        let a = escape_spec(s.drop_last());
        let b = escape_char(s.last());
        let t = escape_spec(s);
        assert(t == a + b);
        assert forall|i: int| 0 <= i < t.len() && #[trigger] t[i] == '&' implies reference_at(t, i) by {
            if i < a.len() {
                assert(t[i] == a[i]);
                assert(reference_at(a, i));
                if i + 4 <= a.len() {
                    assert(t.subrange(i, i + 4) =~= a.subrange(i, i + 4));
                }
                if i + 5 <= a.len() {
                    assert(t.subrange(i, i + 5) =~= a.subrange(i, i + 5));
                }
                if i + 6 <= a.len() {
                    assert(t.subrange(i, i + 6) =~= a.subrange(i, i + 6));
                }
            } else {
                let k = i - a.len();
                assert(t[i] == b[k]);
                assert(k == 0);
                assert(t.subrange(i, i + b.len()) =~= b);
            }
        }
    }
}

// ---------------------------------------------------------------------------
// Numbers

/// Writes a count in decimal, without separators.
pub fn format_number(n: u64) -> (r: String)
    ensures
        r@ == decimal(n as nat),
{
    u64_to_decimal(n)
}

/// A written count holds no `,`.
pub proof fn lemma_format_number_has_no_comma(n: nat)
    ensures
        !decimal(n).contains(','),
    decreases n,
{
    if n >= 10 {
        lemma_format_number_has_no_comma(n / 10);
        if decimal(n).contains(',') {
            let i = choose|i: int| 0 <= i < decimal(n).len() && decimal(n)[i] == ',';
            if i < decimal(n).len() - 1 {
                assert(decimal(n / 10)[i] == ',');
            }
        }
    }
}

/// The magnitude a star count is shown in.
#[derive(Debug, Clone, Copy, PartialEq, Eq, Structural)]
pub enum StarScale {
    /// A million or more: shown in millions with one decimal, such as `1.5M`.
    Millions,
    /// A thousand or more, below a million: shown in thousands with one decimal, such as `2.3K`.
    Thousands,
    /// Below a thousand: shown as it is.
    Units,
}

/// The magnitude of a star count.
pub open spec fn star_scale_spec(n: u64) -> StarScale {
    if n >= 1_000_000 {
        StarScale::Millions
    } else if n >= 1_000 {
        StarScale::Thousands
    } else {
        StarScale::Units
    }
}

/// The magnitude a star count is shown in.
pub fn star_scale(n: u64) -> (r: StarScale)
    ensures
        r == star_scale_spec(n),
{
    if n >= 1_000_000 {
        StarScale::Millions
    } else if n >= 1_000 {
        StarScale::Thousands
    } else {
        StarScale::Units
    }
}

// ---------------------------------------------------------------------------
// Totals

/// The stars of all repositories.
pub open spec fn stars_sum(repos: Seq<GitHubRepository>) -> nat
    decreases repos.len(),
{
    if repos.len() == 0 {
        0
    } else {
        stars_sum(repos.drop_last()) + repos.last().stargazers_count as nat
    }
}

/// The forks of all repositories.
pub open spec fn forks_sum(repos: Seq<GitHubRepository>) -> nat
    decreases repos.len(),
{
    if repos.len() == 0 {
        0
    } else {
        forks_sum(repos.drop_last()) + repos.last().forks_count as nat
    }
}

proof fn lemma_sums_prefix(repos: Seq<GitHubRepository>, k: int)
    requires
        0 <= k <= repos.len(),
    ensures
        stars_sum(repos.take(k)) <= stars_sum(repos),
        forks_sum(repos.take(k)) <= forks_sum(repos),
    decreases repos.len() - k,
{
    if k < repos.len() {
        lemma_sums_prefix(repos, k + 1);
        assert(repos.take(k + 1).drop_last() =~= repos.take(k));
    } else {
        assert(repos.take(k) =~= repos);
    }
}

/// Totals add up over joined lists: the stars (and forks) of two lists of
/// repositories together are the stars (and forks) of each, summed.
pub proof fn lemma_totals_additive(a: Seq<GitHubRepository>, b: Seq<GitHubRepository>)
    ensures
        stars_sum(a + b) == stars_sum(a) + stars_sum(b),
        forks_sum(a + b) == forks_sum(a) + forks_sum(b),
    decreases b.len(),
{
    if b.len() == 0 {
        assert(a + b =~= a);
    } else {
        lemma_totals_additive(a, b.drop_last());
        assert((a + b).drop_last() =~= a + b.drop_last());
        assert((a + b).last() == b.last());
    }
}

/// The stars of all repositories.
pub fn total_stars(repos: &[GitHubRepository]) -> (r: u64)
    requires
        stars_sum(repos@) <= u64::MAX,
    ensures
        r == stars_sum(repos@),
{
    let mut acc: u64 = 0;
    let mut i: usize = 0;
    while i < repos.len()
        invariant
            i <= repos@.len(),
            stars_sum(repos@) <= u64::MAX,
            acc == stars_sum(repos@.take(i as int)),
        decreases repos@.len() - i,
    {
        assert(repos@.take(i + 1).drop_last() =~= repos@.take(i as int));
        proof {
            lemma_sums_prefix(repos@, i + 1);
        }
        acc = acc + repos[i].stargazers_count;
        i = i + 1;
    }
    assert(repos@.take(repos@.len() as int) =~= repos@);
    acc
}

/// The forks of all repositories.
pub fn total_forks(repos: &[GitHubRepository]) -> (r: u64)
    requires
        forks_sum(repos@) <= u64::MAX,
    ensures
        r == forks_sum(repos@),
{
    let mut acc: u64 = 0;
    let mut i: usize = 0;
    while i < repos.len()
        invariant
            i <= repos@.len(),
            forks_sum(repos@) <= u64::MAX,
            acc == forks_sum(repos@.take(i as int)),
        decreases repos@.len() - i,
    {
        assert(repos@.take(i + 1).drop_last() =~= repos@.take(i as int));
        proof {
            lemma_sums_prefix(repos@, i + 1);
        }
        acc = acc + repos[i].forks_count;
        i = i + 1;
    }
    assert(repos@.take(repos@.len() as int) =~= repos@);
    acc
}

/// The languages named by the repositories, each once.
pub open spec fn language_set(repos: Seq<GitHubRepository>) -> Set<Seq<char>>
    decreases repos.len(),
{
    if repos.len() == 0 {
        Set::empty()
    } else {
        let rest = language_set(repos.drop_last());
        match opt_text(repos.last().language) {
            Some(l) => rest.insert(l),
            None => rest,
        }
    }
}

/// The language set holds exactly the languages the repositories name: each
/// repository's language is in it, and each member is some repository's language.
pub proof fn lemma_language_set_members(repos: Seq<GitHubRepository>)
    ensures
        forall|i: int| 0 <= i < repos.len() && (#[trigger] repos[i]).language is Some
            ==> language_set(repos).contains(repos[i].language->0@),
        forall|l: Seq<char>| #[trigger] language_set(repos).contains(l) ==> exists|i: int|
            0 <= i < repos.len() && repos[i].language is Some && repos[i].language->0@ == l,
    decreases repos.len(),
{
    if repos.len() > 0 {
        let init = repos.drop_last();
        lemma_language_set_members(init);
        assert forall|i: int| 0 <= i < repos.len() && (#[trigger] repos[i]).language is Some
            implies language_set(repos).contains(repos[i].language->0@) by {
            if i < repos.len() - 1 {
                assert(init[i] == repos[i]);
            }
        }
        assert forall|l: Seq<char>| #[trigger] language_set(repos).contains(l) implies exists|i: int|
            0 <= i < repos.len() && repos[i].language is Some && repos[i].language->0@ == l by {
            if language_set(init).contains(l) {
                let j = choose|j: int| 0 <= j < init.len() && init[j].language is Some
                    && init[j].language->0@ == l;
                assert(repos[j] == init[j]);
            } else {
                assert(repos[repos.len() - 1] == repos.last());
            }
        }
    }
}

/// The number of distinct languages among the repositories.
pub fn unique_languages(repos: &[GitHubRepository]) -> (r: usize)
    ensures
        r == language_set(repos@).len(),
{
    let mut seen: Vec<String> = Vec::new();
    let mut i: usize = 0;
    while i < repos.len()
        invariant
            i <= repos@.len(),
            seen@.map_values(|s: String| s@).no_duplicates(),
            seen@.map_values(|s: String| s@).to_set() == language_set(repos@.take(i as int)),
        decreases repos@.len() - i,
    {
        let ghost before = seen@.map_values(|s: String| s@);
        assert(repos@.take(i + 1).drop_last() =~= repos@.take(i as int));
        assert(repos@.take(i + 1).last() == repos@[i as int]);
        match &repos[i].language {
            Some(l) => {
                let mut found = false;
                let mut j: usize = 0;
                while j < seen.len()
                    invariant
                        j <= seen.len(),
                        before == seen@.map_values(|s: String| s@),
                        found <==> exists|k: int| 0 <= k < j && before[k] == l@,
                    decreases seen.len() - j,
                {
                    assert(before[j as int] == seen@[j as int]@);
                    if seen[j] == *l {
                        found = true;
                    }
                    j = j + 1;
                }
                if !found {
                    seen.push(l.clone());
                    let ghost after = seen@.map_values(|s: String| s@);
                    assert(after =~= before.push(l@));
                    assert forall|a: int, b: int| 0 <= a < b < after.len() implies after[a] != after[b] by {
                        if b == after.len() - 1 {
                            assert(before[a] != l@);
                        }
                    }
                    proof {
                        before.lemma_push_to_set_commute(l@);
                    }
                } else {
                    assert(before.to_set().contains(l@)) by {
                        let k = choose|k: int| 0 <= k < j && before[k] == l@;
                        assert(before.contains(l@));
                    }
                    assert(before.to_set().insert(l@) =~= before.to_set());
                }
            },
            None => {},
        }
        i = i + 1;
    }
    assert(repos@.take(repos@.len() as int) =~= repos@);
    proof {
        seen@.map_values(|s: String| s@).unique_seq_to_set();
    }
    seen.len()
}

/// There are no more distinct languages than repositories.
pub proof fn lemma_languages_at_most_repositories(repos: Seq<GitHubRepository>)
    ensures
        language_set(repos).finite(),
        language_set(repos).len() <= repos.len(),
    decreases repos.len(),
{
    if repos.len() > 0 {
        lemma_languages_at_most_repositories(repos.drop_last());
    }
}

// ---------------------------------------------------------------------------
// Dates

/// The pieces of text between the `-` characters, as `str::split('-')` gives them.
pub open spec fn split_dash(s: Seq<char>) -> Seq<Seq<char>>
    decreases s.len(),
{
    if s.len() == 0 {
        seq![Seq::empty()]
    } else {
        let p = split_dash(s.drop_last());
        if s.last() == '-' {
            p.push(Seq::empty())
        } else {
            p.update(p.len() - 1, p.last().push(s.last()))
        }
    }
}

/// The characters of each piece.
pub open spec fn pieces_text(v: Seq<Vec<char>>) -> Seq<Seq<char>> {
    v.map_values(|p: Vec<char>| p@)
}

fn split_on_dash(v: &Vec<char>) -> (r: Vec<Vec<char>>)
    ensures
        pieces_text(r@) == split_dash(v@),
{
    let mut done: Vec<Vec<char>> = Vec::new();
    let mut cur: Vec<char> = Vec::new();
    let mut i: usize = 0;
    assert(v@.take(0) =~= Seq::<char>::empty());
    assert(pieces_text(done@).push(cur@) =~= split_dash(v@.take(0)));
    while i < v.len()
        invariant
            i <= v.len(),
            pieces_text(done@).push(cur@) == split_dash(v@.take(i as int)),
        decreases v.len() - i,
    {
        let ghost prev = split_dash(v@.take(i as int));
        assert(v@.take(i + 1).drop_last() =~= v@.take(i as int));
        assert(v@.take(i + 1).last() == v@[i as int]);
        if v[i] == '-' {
            let finished = cur;
            done.push(finished);
            cur = Vec::new();
            assert(pieces_text(done@).push(cur@) =~= prev.push(Seq::empty()));
        } else {
            cur.push(v[i]);
            assert(pieces_text(done@).push(cur@) =~= prev.update(prev.len() - 1, prev.last().push(v@[i as int])));
        }
        i = i + 1;
    }
    done.push(cur);
    assert(v@.take(v.len() as int) =~= v@);
    assert(pieces_text(done@) =~= split_dash(v@));
    done
}

/// The abbreviated name of the month with index `i` (0 for January), or `???`.
pub open spec fn month_name(i: int) -> Seq<char> {
    if i == 0 { "Jan"@ }
    else if i == 1 { "Feb"@ }
    else if i == 2 { "Mar"@ }
    else if i == 3 { "Apr"@ }
    else if i == 4 { "May"@ }
    else if i == 5 { "Jun"@ }
    else if i == 6 { "Jul"@ }
    else if i == 7 { "Aug"@ }
    else if i == 8 { "Sep"@ }
    else if i == 9 { "Oct"@ }
    else if i == 10 { "Nov"@ }
    else if i == 11 { "Dec"@ }
    else { "???"@ }
}

fn month_abbrev(i: usize) -> (r: &'static str)
    ensures
        r@ == month_name(i as int),
{
    if i == 0 { "Jan" }
    else if i == 1 { "Feb" }
    else if i == 2 { "Mar" }
    else if i == 3 { "Apr" }
    else if i == 4 { "May" }
    else if i == 5 { "Jun" }
    else if i == 6 { "Jul" }
    else if i == 7 { "Aug" }
    else if i == 8 { "Sep" }
    else if i == 9 { "Oct" }
    else if i == 10 { "Nov" }
    else if i == 11 { "Dec" }
    else { "???" }
}

/// Whether a character takes one byte in UTF-8.
pub open spec fn is_one_byte(c: char) -> bool {
    (c as u32) < 0x80
}

/// Whether a character takes two bytes in UTF-8.
pub open spec fn is_two_bytes(c: char) -> bool {
    0x80 <= (c as u32) && (c as u32) < 0x800
}

/// Whether the first two bytes of the text end on a character boundary, so
/// that they can be sliced off.
pub open spec fn has_two_byte_prefix(p: Seq<char>) -> bool {
    p.len() >= 1 && ((is_one_byte(p[0]) && p.len() >= 2 && is_one_byte(p[1])) || is_two_bytes(p[0]))
}

/// The characters of the first two bytes of the text.
pub open spec fn two_byte_prefix(p: Seq<char>) -> Seq<char> {
    if is_one_byte(p[0]) { p.take(2) } else { p.take(1) }
}

/// Whether the date text is long enough (ten bytes) and has at least two `-`
/// to be read as year, month and day.
pub open spec fn looks_like_date(s: Seq<char>) -> bool {
    encode_utf8(s).len() >= 10 && split_dash(s).len() >= 3
}

/// The month index of the month text: one less than its number, or 0 (January)
/// when it is not a number.
pub open spec fn month_index(p: Seq<char>) -> int {
    match parse_usize_spec(p) {
        Some(m) => m - 1,
        None => 0,
    }
}

/// The dates that can be written: a text read as a date has a month that is not
/// `0`, and a day part whose first two bytes can be sliced off.
pub open spec fn date_defined(s: Seq<char>) -> bool {
    looks_like_date(s) ==> {
        let parts = split_dash(s);
        &&& parse_usize_spec(parts[1]) != Some(0usize)
        &&& has_two_byte_prefix(parts[2])
    }
}

/// A date such as `2024-01-15T10:30:00Z` written as `Jan 15, 2024`; text that is
/// too short or has fewer than two `-` is kept as it is.
pub open spec fn format_date_spec(s: Seq<char>) -> Seq<char> {
    if looks_like_date(s) {
        let parts = split_dash(s);
        month_name(month_index(parts[1])) + seq![' '] + two_byte_prefix(parts[2]) + seq![',', ' ']
            + parts[0]
    } else {
        s
    }
}

/// Whether `format_date` can write the text, that is, whether it is one of the
/// dates it does not reject.
pub fn can_format_date(iso: &str) -> (r: bool)
    ensures
        r == date_defined(iso@),
{
    let v = chars_of(iso);
    if iso.as_bytes().len() >= 10 {
        let parts = split_on_dash(&v);
        if parts.len() >= 3 {
            let ghost ps = split_dash(iso@);
            assert(parts[1]@ == ps[1]);
            assert(parts[2]@ == ps[2]);
            assert(parts[1]@.subrange(0, parts[1].len() as int) =~= parts[1]@);
            let month_ok = match parse_usize_range(&parts[1], 0, parts[1].len()) {
                Some(m) => m != 0,
                None => true,
            };
            let day = &parts[2];
            let day_ok = day.len() >= 1 && (((day[0] as u32) < 0x80 && day.len() >= 2
                && (day[1] as u32) < 0x80) || (0x80 <= (day[0] as u32) && (day[0] as u32)
                < 0x800));
            return month_ok && day_ok;
        }
        assert(pieces_text(parts@).len() == parts@.len());
    }
    true
}

/// Writes an ISO date as month, day and year.
pub fn format_date(iso: &str) -> (r: String)
    requires
        date_defined(iso@),
    ensures
        r@ == format_date_spec(iso@),
{
    let v = chars_of(iso);
    if iso.as_bytes().len() >= 10 {
        let parts = split_on_dash(&v);
        if parts.len() >= 3 {
            let ghost ps = split_dash(iso@);
            assert(parts[1]@ == ps[1]);
            assert(parts[2]@ == ps[2]);
            assert(parts[0]@ == ps[0]);
            assert(parts[1]@.subrange(0, parts[1].len() as int) =~= parts[1]@);
            let month_idx: usize = match parse_usize_range(&parts[1], 0, parts[1].len()) {
                Some(m) => m - 1,
                None => 0,
            };
            let mut out = month_abbrev(month_idx).to_owned();
            push_char(&mut out, ' ');
            let day = &parts[2];
            if (day[0] as u32) < 0x80 {
                push_char(&mut out, day[0]);
                push_char(&mut out, day[1]);
                assert(day@.take(2) =~= seq![day@[0], day@[1]]);
            } else {
                push_char(&mut out, day[0]);
                assert(day@.take(1) =~= seq![day@[0]]);
            }
            push_char(&mut out, ',');
            push_char(&mut out, ' ');
            push_range(&mut out, &parts[0], 0, parts[0].len());
            assert(parts[0]@.subrange(0, parts[0].len() as int) =~= parts[0]@);
            assert(out@ =~= format_date_spec(iso@));
            return out;
        }
        assert(pieces_text(parts@).len() == parts@.len());
        assert(!looks_like_date(iso@));
    } else {
        assert(encode_utf8(iso@).len() < 10);
        assert(!looks_like_date(iso@));
    }
    iso.to_owned()
}

/// The date an instant is written as: the year counted in 365-day years since
/// 1970, the month in 30-day months, and the day within it.
pub open spec fn calendar_fields(secs: u64) -> (nat, nat, nat) {
    let days = secs as nat / 86400;
    let yday = days % 365;
    ((1970 + days / 365) as nat, yday / 30 + 1, yday % 30 + 1)
}

/// The date of an instant written as `YYYY-MM-DD`, zero-padded.
pub open spec fn calendar_date(secs: u64) -> Seq<char> {
    let (y, m, d) = calendar_fields(secs);
    zero_padded(decimal(y), 4) + seq!['-'] + zero_padded(decimal(m), 2) + seq!['-']
        + zero_padded(decimal(d), 2)
}

/// The months of a written date run from 1 to 13, and its days from 1 to 30.
pub proof fn lemma_calendar_ranges(secs: u64)
    ensures
        1 <= calendar_fields(secs).1 <= 13,
        1 <= calendar_fields(secs).2 <= 30,
        calendar_fields(secs).0 >= 1970,
{
}

/// Writes the date of the instant `secs` seconds after the Unix epoch.
pub fn date_from_secs(secs: u64) -> (r: String)
    ensures
        r@ == calendar_date(secs),
{
    let days = secs / 86400;
    let year = 1970 + days / 365;
    let yday = days % 365;
    let month = yday / 30 + 1;
    let day = yday % 30 + 1;
    let mut out = u64_to_padded_decimal(year, 4);
    push_char(&mut out, '-');
    let m = u64_to_padded_decimal(month, 2);
    out.append(m.as_str());
    push_char(&mut out, '-');
    let d = u64_to_padded_decimal(day, 2);
    out.append(d.as_str());
    assert(out@ =~= calendar_date(secs));
    out
}

/// The system clock's instants (`std::time::SystemTime`), carried through opaquely.
#[verifier::external_type_specification]
#[verifier::external_body]
pub struct ExSystemTime(std::time::SystemTime);

/// Reads the system clock (`SystemTime::now`). Nothing is claimed of the instant.
#[verifier::external_body]
fn system_now() -> std::time::SystemTime {
    std::time::SystemTime::now()
}

/// The time from the Unix epoch to `t` (`SystemTime::duration_since`), or
/// `None` when `t` lies before the epoch. Nothing is claimed of the duration.
#[verifier::external_body]
fn since_unix_epoch(t: &std::time::SystemTime) -> Option<std::time::Duration> {
    t.duration_since(std::time::UNIX_EPOCH).ok()
}

/// The whole seconds of a duration (`Duration::as_secs`). Nothing is claimed
/// of the number.
#[verifier::external_body]
fn whole_seconds(d: &std::time::Duration) -> u64 {
    d.as_secs()
}

/// Seconds since the Unix epoch by the system clock; 0 when the clock is set
/// before the epoch.
fn unix_now_secs() -> u64 {
    let t = system_now();
    match since_unix_epoch(&t) {
        Some(d) => whole_seconds(&d),
        None => 0,
    }
}

/// Today's date by the system clock, as `date_from_secs` writes it.
pub fn now() -> (r: String)
    ensures
        exists|secs: u64| r@ == calendar_date(secs),
{
    let secs = unix_now_secs();
    date_from_secs(secs)
}

// ---------------------------------------------------------------------------
// The report

/// What `str::to_lowercase` gives for a text (the Unicode lowercase mapping).
pub uninterp spec fn unicode_lowercase(s: Seq<char>) -> Seq<char>;

/// The text in lowercase, by `str::to_lowercase`.
///
/// Claimed: the result is a function of the text alone, named
/// `unicode_lowercase`; nothing more is said of the mapping.
#[verifier::external_body]
fn to_lowercase(s: &str) -> (r: String)
    ensures
        r@ == unicode_lowercase(s@),
{
    s.to_lowercase()
}

/// The badge of a repository's language, or nothing when it has none.
pub open spec fn language_badge(lang: Option<Seq<char>>) -> Seq<char> {
    match lang {
        Some(l) => BADGE_OPEN@ + unicode_lowercase(l) + BADGE_MIDDLE@ + l + BADGE_CLOSE@,
        None => Seq::empty(),
    }
}

/// The escaped description of a repository, or nothing when it has none.
pub open spec fn description_cell(d: Option<Seq<char>>) -> Seq<char> {
    match d {
        Some(t) => escape_spec(t),
        None => Seq::empty(),
    }
}

/// The table row of the repository at `rank` (counted from 1), with its star label.
pub open spec fn row_spec(rank: nat, repo: GitHubRepository, stars: Seq<char>) -> Seq<char> {
    ROW_OPEN@ + decimal(rank) + ROW_AFTER_RANK@ + repo.html_url@ + ROW_AFTER_URL@
        + repo.full_name@ + ROW_AFTER_NAME@ + language_badge(opt_text(repo.language))
        + ROW_AFTER_LANGUAGE@ + description_cell(opt_text(repo.description))
        + ROW_AFTER_DESCRIPTION@ + stars + ROW_AFTER_STARS@ + decimal(repo.forks_count as nat)
        + ROW_AFTER_FORKS@ + format_date_spec(repo.updated_at@) + ROW_CLOSE@
}

/// The rows of all repositories, ranked in order, each with its star label.
pub open spec fn rows_spec(repos: Seq<GitHubRepository>, stars: Seq<Seq<char>>) -> Seq<char>
    decreases repos.len(),
{
    if repos.len() == 0 {
        Seq::empty()
    } else {
        rows_spec(repos.drop_last(), stars) + row_spec(
            repos.len() as nat,
            repos.last(),
            stars[repos.len() - 1],
        )
    }
}

/// The repositories a report can be made of: the totals fit in 64 bits and
/// every update date can be written.
pub open spec fn report_defined(repos: Seq<GitHubRepository>) -> bool {
    &&& stars_sum(repos) <= u64::MAX
    &&& forks_sum(repos) <= u64::MAX
    &&& forall|i: int| 0 <= i < repos.len() ==> date_defined(#[trigger] repos[i].updated_at@)
}

/// The whole page: title, counts, generation date, totals, then the rows.
pub open spec fn page_spec(
    repos: Seq<GitHubRepository>,
    title: Seq<char>,
    generated: Seq<char>,
    stars: Seq<Seq<char>>,
) -> Seq<char> {
    PAGE_OPEN@ + title + PAGE_AFTER_TITLE@ + title + PAGE_AFTER_HEADING@ + decimal(repos.len())
        + PAGE_AFTER_COUNT@ + generated + PAGE_AFTER_DATE@ + decimal(stars_sum(repos))
        + PAGE_AFTER_STARS@ + decimal(forks_sum(repos)) + PAGE_AFTER_FORKS@ + decimal(
        language_set(repos).len(),
    ) + PAGE_AFTER_LANGUAGES@ + decimal(repos.len()) + PAGE_AFTER_REPOSITORIES@ + rows_spec(
        repos,
        stars,
    ) + PAGE_CLOSE@
}

/// The characters of each label.
pub open spec fn labels_text(v: Seq<String>) -> Seq<Seq<char>> {
    v.map_values(|s: String| s@)
}

/// Whether a report can be made of the repositories: the totals fit in 64 bits
/// and every update date can be written.
pub fn can_render(repos: &[GitHubRepository]) -> (r: bool)
    ensures
        r == report_defined(repos@),
{
    let mut stars: u64 = 0;
    let mut forks: u64 = 0;
    let mut stars_fit = true;
    let mut forks_fit = true;
    let mut i: usize = 0;
    while i < repos.len()
        invariant
            i <= repos@.len(),
            stars_fit ==> stars == stars_sum(repos@.take(i as int)),
            !stars_fit ==> stars_sum(repos@.take(i as int)) > u64::MAX,
            forks_fit ==> forks == forks_sum(repos@.take(i as int)),
            !forks_fit ==> forks_sum(repos@.take(i as int)) > u64::MAX,
            forall|j: int| 0 <= j < i ==> date_defined(#[trigger] repos@[j].updated_at@),
        decreases repos@.len() - i,
    {
        assert(repos@.take(i + 1).drop_last() =~= repos@.take(i as int));
        assert(repos@.take(i + 1).last() == repos@[i as int]);
        if stars_fit {
            match stars.checked_add(repos[i].stargazers_count) {
                Some(t) => { stars = t; },
                None => { stars_fit = false; },
            }
        }
        if forks_fit {
            match forks.checked_add(repos[i].forks_count) {
                Some(t) => { forks = t; },
                None => { forks_fit = false; },
            }
        }
        if !can_format_date(repos[i].updated_at.as_str()) {
            return false;
        }
        i = i + 1;
    }
    assert(repos@.take(repos@.len() as int) =~= repos@);
    stars_fit && forks_fit
}

/// Writes the table row of one repository.
pub fn render_row(rank: usize, repo: &GitHubRepository, stars: &str) -> (r: String)
    requires
        date_defined(repo.updated_at@),
    ensures
        r@ == row_spec(rank as nat, *repo, stars@),
{
    let mut out = ROW_OPEN.to_owned();
    let rank_text = u64_to_decimal(rank as u64);
    out.append(rank_text.as_str());
    out.append(ROW_AFTER_RANK);
    out.append(repo.html_url.as_str());
    out.append(ROW_AFTER_URL);
    out.append(repo.full_name.as_str());
    out.append(ROW_AFTER_NAME);
    let ghost before_badge = out@;
    match &repo.language {
        Some(l) => {
            out.append(BADGE_OPEN);
            let lower = to_lowercase(l.as_str());
            out.append(lower.as_str());
            out.append(BADGE_MIDDLE);
            out.append(l.as_str());
            out.append(BADGE_CLOSE);
        },
        None => {},
    }
    assert(out@ =~= before_badge + language_badge(opt_text(repo.language)));
    out.append(ROW_AFTER_LANGUAGE);
    let ghost before_description = out@;
    match &repo.description {
        Some(d) => {
            let escaped = escape_html(d.as_str());
            out.append(escaped.as_str());
        },
        None => {},
    }
    assert(out@ =~= before_description + description_cell(opt_text(repo.description)));
    out.append(ROW_AFTER_DESCRIPTION);
    out.append(stars);
    out.append(ROW_AFTER_STARS);
    let forks = format_number(repo.forks_count);
    out.append(forks.as_str());
    out.append(ROW_AFTER_FORKS);
    let updated = format_date(repo.updated_at.as_str());
    out.append(updated.as_str());
    out.append(ROW_CLOSE);
    assert(out@ =~= row_spec(rank as nat, *repo, stars@));
    out
}

/// Writes the report page for the repositories, titled `title`, generated on
/// `generated`, with the star label of each repository (`stars[i]` for `repos[i]`).
pub fn render_html(
    repos: &[GitHubRepository],
    title: &str,
    generated: &str,
    stars: &[String],
) -> (r: String)
    requires
        stars@.len() == repos@.len(),
        report_defined(repos@),
    ensures
        r@ == page_spec(repos@, title@, generated@, labels_text(stars@)),
{
    let ghost labels = labels_text(stars@);
    let mut rows = String::new();
    let mut i: usize = 0;
    while i < repos.len()
        invariant
            i <= repos@.len(),
            stars@.len() == repos@.len(),
            labels == labels_text(stars@),
            report_defined(repos@),
            rows@ == rows_spec(repos@.take(i as int), labels),
        decreases repos@.len() - i,
    {
        assert(date_defined(repos@[i as int].updated_at@));
        let row = render_row(i + 1, &repos[i], stars[i].as_str());
        rows.append(row.as_str());
        assert(repos@.take(i + 1).drop_last() =~= repos@.take(i as int));
        assert(repos@.take(i + 1).last() == repos@[i as int]);
        assert(labels[i as int] == stars@[i as int]@);
        i = i + 1;
    }
    assert(repos@.take(repos@.len() as int) =~= repos@);
    let total_s = total_stars(repos);
    let total_f = total_forks(repos);
    let langs = unique_languages(repos);
    let count = u64_to_decimal(repos.len() as u64);
    let mut out = PAGE_OPEN.to_owned();
    out.append(title);
    out.append(PAGE_AFTER_TITLE);
    out.append(title);
    out.append(PAGE_AFTER_HEADING);
    out.append(count.as_str());
    out.append(PAGE_AFTER_COUNT);
    out.append(generated);
    out.append(PAGE_AFTER_DATE);
    let ts = u64_to_decimal(total_s);
    out.append(ts.as_str());
    out.append(PAGE_AFTER_STARS);
    let tf = u64_to_decimal(total_f);
    out.append(tf.as_str());
    out.append(PAGE_AFTER_FORKS);
    let tl = u64_to_decimal(langs as u64);
    out.append(tl.as_str());
    out.append(PAGE_AFTER_LANGUAGES);
    out.append(count.as_str());
    out.append(PAGE_AFTER_REPOSITORIES);
    out.append(rows.as_str());
    out.append(PAGE_CLOSE);
    assert(out@ =~= page_spec(repos@, title@, generated@, labels));
    out
}

/// Writes the report page, generated today by the system clock.
pub fn generate_html(repos: &[GitHubRepository], title: &str, stars: &[String]) -> (r: String)
    requires
        stars@.len() == repos@.len(),
        report_defined(repos@),
    ensures
        exists|secs: u64| r@ == page_spec(repos@, title@, calendar_date(secs), labels_text(stars@)),
{
    let today = now();
    let r = render_html(repos, title, today.as_str(), stars);
    r
}

} // verus!
