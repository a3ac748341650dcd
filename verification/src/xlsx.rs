//! The data handed to the spreadsheet generator: a CSV text with every text
//! column in quotes.

use vstd::prelude::*;
use crate::api::GitHubRepository;
use crate::csv::text_or_empty;
use crate::text::{chars_of, decimal, push_char, u64_to_decimal};

verus! {

/// The first line of the data: the column names.
pub const XLSX_DATA_HEADER: &'static str = "full_name,html_url,description,stargazers_count,forks_count,language,updated_at\n";

/// Opens a quoted column at the start of a line.
pub const OPEN_QUOTE: &'static str = "\"";

/// Closes a quoted column and opens the next quoted one.
pub const BETWEEN_QUOTED: &'static str = "\",\"";

/// Closes a quoted column before a count.
pub const QUOTED_THEN_COUNT: &'static str = "\",";

/// Separates two counts.
pub const BETWEEN_COUNTS: &'static str = ",";

/// Follows a count and opens a quoted column.
pub const COUNT_THEN_QUOTED: &'static str = ",\"";

/// Closes the last quoted column and the line.
pub const CLOSE_LINE: &'static str = "\"\n";

/// Text with every `"` turned into `'`.
pub open spec fn quotes_to_apostrophes(s: Seq<char>) -> Seq<char> {
    s.map_values(|c: char| if c == '"' { '\'' } else { c })
}

/// A description on one line: line feeds become spaces and `"` becomes `'`.
pub open spec fn one_line_description(s: Seq<char>) -> Seq<char> {
    s.map_values(|c: char| if c == '\n' { ' ' } else if c == '"' { '\'' } else { c })
}

/// The data line of a repository: full name, address, description, stars,
/// forks, language and update time; all but the counts in quotes.
pub open spec fn xlsx_line(repo: GitHubRepository) -> Seq<char> {
    OPEN_QUOTE@ + quotes_to_apostrophes(repo.full_name@) + BETWEEN_QUOTED@ + repo.html_url@
        + BETWEEN_QUOTED@ + one_line_description(text_or_empty(repo.description))
        + QUOTED_THEN_COUNT@ + decimal(repo.stargazers_count as nat) + BETWEEN_COUNTS@ + decimal(
        repo.forks_count as nat,
    ) + COUNT_THEN_QUOTED@ + text_or_empty(repo.language) + BETWEEN_QUOTED@ + repo.updated_at@
        + CLOSE_LINE@
}

/// The data lines of the repositories, in order.
pub open spec fn xlsx_lines(repos: Seq<GitHubRepository>) -> Seq<char>
    decreases repos.len(),
{
    if repos.len() == 0 {
        Seq::empty()
    } else {
        xlsx_lines(repos.drop_last()) + xlsx_line(repos.last())
    }
}

/// The whole data text: the column names, then one line per repository.
pub open spec fn xlsx_data(repos: Seq<GitHubRepository>) -> Seq<char> {
    XLSX_DATA_HEADER@ + xlsx_lines(repos)
}

/// Appends text, turning each `"` into `'` and, when `one_line` is set, each
/// line feed into a space.
fn push_cleaned(out: &mut String, s: &str, one_line: bool)
    ensures
        final(out)@ == old(out)@ + (if one_line {
            one_line_description(s@)
        } else {
            quotes_to_apostrophes(s@)
        }),
{
    let v = chars_of(s);
    let ghost target = if one_line {
        one_line_description(s@)
    } else {
        quotes_to_apostrophes(s@)
    };
    let ghost start = out@;
    let mut i: usize = 0;
    while i < v.len()
        invariant
            v@ == s@,
            i <= v.len(),
            target == (if one_line { one_line_description(s@) } else { quotes_to_apostrophes(s@) }),
            out@ == start + target.take(i as int),
        decreases v.len() - i,
    {
        let c = v[i];
        let d = if one_line && c == '\n' {
            ' '
        } else if c == '"' {
            '\''
        } else {
            c
        };
        push_char(out, d);
        assert(target[i as int] == d);
        assert(target.take(i + 1) =~= target.take(i as int).push(d));
        i = i + 1;
    }
    assert(target.take(v.len() as int) =~= target);
}

/// Appends the data line of one repository.
fn push_xlsx_line(out: &mut String, repo: &GitHubRepository)
    ensures
        final(out)@ == old(out)@ + xlsx_line(*repo),
{
    let ghost start = out@;
    out.append(OPEN_QUOTE);
    push_cleaned(out, repo.full_name.as_str(), false);
    out.append(BETWEEN_QUOTED);
    out.append(repo.html_url.as_str());
    out.append(BETWEEN_QUOTED);
    match &repo.description {
        Some(d) => push_cleaned(out, d.as_str(), true),
        None => {
            assert(one_line_description(Seq::<char>::empty()) =~= Seq::<char>::empty());
        },
    }
    out.append(QUOTED_THEN_COUNT);
    let stars = u64_to_decimal(repo.stargazers_count);
    out.append(stars.as_str());
    out.append(BETWEEN_COUNTS);
    let forks = u64_to_decimal(repo.forks_count);
    out.append(forks.as_str());
    out.append(COUNT_THEN_QUOTED);
    match &repo.language {
        Some(l) => out.append(l.as_str()),
        None => {},
    }
    out.append(BETWEEN_QUOTED);
    out.append(repo.updated_at.as_str());
    out.append(CLOSE_LINE);
    assert(out@ =~= start + xlsx_line(*repo));
}

/// The data text the spreadsheet generator reads.
pub fn xlsx_data_csv(repos: &[GitHubRepository]) -> (r: String)
    ensures
        r@ == xlsx_data(repos@),
{
    let mut out = XLSX_DATA_HEADER.to_owned();
    let mut i: usize = 0;
    while i < repos.len()
        invariant
            i <= repos@.len(),
            out@ == XLSX_DATA_HEADER@ + xlsx_lines(repos@.take(i as int)),
        decreases repos@.len() - i,
    {
        push_xlsx_line(&mut out, &repos[i]);
        assert(repos@.take(i + 1).drop_last() =~= repos@.take(i as int));
        assert(repos@.take(i + 1).last() == repos@[i as int]);
        i = i + 1;
    }
    assert(repos@.take(repos@.len() as int) =~= repos@);
    out
}

/// A cleaned description never spans lines, and no cleaned text holds a `"`
/// that could end its quoted column early.
pub proof fn lemma_cleaned_text(s: Seq<char>)
    ensures
        !one_line_description(s).contains('\n'),
        !one_line_description(s).contains('"'),
        !quotes_to_apostrophes(s).contains('"'),
{
    if one_line_description(s).contains('\n') {
        let i = choose|i: int| 0 <= i < one_line_description(s).len() && one_line_description(s)[i] == '\n';
        assert(one_line_description(s)[i] != '\n');
    }
    if one_line_description(s).contains('"') {
        let i = choose|i: int| 0 <= i < one_line_description(s).len() && one_line_description(s)[i] == '"';
        assert(one_line_description(s)[i] != '"');
    }
    if quotes_to_apostrophes(s).contains('"') {
        let i = choose|i: int| 0 <= i < quotes_to_apostrophes(s).len() && quotes_to_apostrophes(s)[i] == '"';
        assert(quotes_to_apostrophes(s)[i] != '"');
    }
}

/// The data of no repositories is the header line alone, and adding a
/// repository at the end adds its own line (quoted full name, address,
/// one-line description, stars, forks, language, update time) at the end,
/// whatever the repository is: every repository gets exactly one line, in order.
pub proof fn lemma_xlsx_data_line_per_repository(repos: Seq<GitHubRepository>, repo: GitHubRepository)
    ensures
        xlsx_data(Seq::empty()) == XLSX_DATA_HEADER@,
        xlsx_data(repos.push(repo)) == xlsx_data(repos) + (OPEN_QUOTE@ + quotes_to_apostrophes(
            repo.full_name@,
        ) + BETWEEN_QUOTED@ + repo.html_url@ + BETWEEN_QUOTED@ + one_line_description(
            text_or_empty(repo.description),
        ) + QUOTED_THEN_COUNT@ + decimal(repo.stargazers_count as nat) + BETWEEN_COUNTS@
            + decimal(repo.forks_count as nat) + COUNT_THEN_QUOTED@ + text_or_empty(repo.language)
            + BETWEEN_QUOTED@ + repo.updated_at@ + CLOSE_LINE@),
{
    assert(XLSX_DATA_HEADER@ + Seq::<char>::empty() =~= XLSX_DATA_HEADER@);
    assert(repos.push(repo).drop_last() =~= repos);
    assert(repos.push(repo).last() == repo);
    assert(xlsx_data(repos.push(repo)) =~= xlsx_data(repos) + xlsx_line(repo));
}

} // verus!
