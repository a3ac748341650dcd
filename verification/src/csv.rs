//! The CSV report: one header row, then one row per repository.

use vstd::prelude::*;
use vstd::utf8::encode_utf8;
use crate::api::GitHubRepository;
use crate::text::{decimal, u64_to_decimal};

verus! {

/// The columns of a repository row.
#[derive(Debug, Clone)]
pub struct RepositoryRecord {
    pub url: String,
    pub name: String,
    pub description: String,
    pub stars: u64,
    pub forks: u64,
    pub last_updated: String,
    pub language: String,
}

/// The text of an optional string, empty when there is none.
pub open spec fn text_or_empty(o: Option<String>) -> Seq<char> {
    match o {
        Some(s) => s@,
        None => Seq::empty(),
    }
}

/// The fields of a record, in column order, numbers in decimal.
pub open spec fn record_fields(r: RepositoryRecord) -> Seq<Seq<char>> {
    seq![
        r.url@,
        r.name@,
        r.description@,
        decimal(r.stars as nat),
        decimal(r.forks as nat),
        r.last_updated@,
        r.language@,
    ]
}

/// The fields of the row of a repository: its address, full name, description,
/// stars, forks, last update and language; a missing description or language
/// is an empty field.
pub open spec fn repository_fields(repo: GitHubRepository) -> Seq<Seq<char>> {
    seq![
        repo.html_url@,
        repo.full_name@,
        text_or_empty(repo.description),
        decimal(repo.stargazers_count as nat),
        decimal(repo.forks_count as nat),
        repo.updated_at@,
        text_or_empty(repo.language),
    ]
}

/// The column names, which are also the names of the record's fields.
pub open spec fn header_fields() -> Seq<Seq<char>> {
    seq!["url"@, "name"@, "description"@, "stars"@, "forks"@, "last_updated"@, "language"@]
}

/// Whether a field must be quoted: it holds a comma, a quote or a line break.
pub open spec fn csv_needs_quotes(f: Seq<char>) -> bool {
    f.contains(',') || f.contains('"') || f.contains('\r') || f.contains('\n')
}

/// A field with each quote doubled.
pub open spec fn csv_double_quotes(f: Seq<char>) -> Seq<char>
    decreases f.len(),
{
    if f.len() == 0 {
        Seq::empty()
    } else {
        csv_double_quotes(f.drop_last()) + if f.last() == '"' {
            seq!['"', '"']
        } else {
            seq![f.last()]
        }
    }
}

/// A field as written: in quotes, with quotes doubled, when it needs quotes;
/// as it is otherwise.
pub open spec fn csv_field(f: Seq<char>) -> Seq<char> {
    if csv_needs_quotes(f) {
        seq!['"'] + csv_double_quotes(f) + seq!['"']
    } else {
        f
    }
}

/// Fields written one after another, separated by commas.
pub open spec fn csv_joined(fields: Seq<Seq<char>>) -> Seq<char>
    decreases fields.len(),
{
    if fields.len() == 0 {
        Seq::empty()
    } else if fields.len() == 1 {
        csv_field(fields[0])
    } else {
        csv_joined(fields.drop_last()) + seq![','] + csv_field(fields.last())
    }
}

/// A record as written: its fields, then a line feed; a record that would be
/// empty (no field, or one empty field) is written as `""`.
pub open spec fn csv_record(fields: Seq<Seq<char>>) -> Seq<char> {
    if fields.len() == 0 || (fields.len() == 1 && fields[0].len() == 0) {
        seq!['"', '"', '\n']
    } else {
        csv_joined(fields).push('\n')
    }
}

/// The rows of the repositories, one after another.
pub open spec fn csv_rows(repos: Seq<GitHubRepository>) -> Seq<u8>
    decreases repos.len(),
{
    if repos.len() == 0 {
        Seq::empty()
    } else {
        csv_rows(repos.drop_last()) + encode_utf8(csv_record(repository_fields(repos.last())))
    }
}

/// The report: the header row; when there are repositories, the header row
/// again, as the writer emits one before the first record it serializes; then
/// one row per repository.
pub open spec fn csv_document(repos: Seq<GitHubRepository>) -> Seq<u8> {
    let header = encode_utf8(csv_record(header_fields()));
    header + (if repos.len() > 0 { header } else { Seq::empty() }) + csv_rows(repos)
}

/// The characters of each string.
pub open spec fn texts(v: Seq<String>) -> Seq<Seq<char>> {
    v.map_values(|f: String| f@)
}

/// Writes one record with a fresh `csv::Writer` over a byte vector
/// (`Writer::from_writer`, `write_record`, `into_inner`).
///
/// Claimed: the bytes are the UTF-8 encoding of the record as the writer's
/// default configuration writes it (comma delimiter, `"` quotes doubled inside
/// quoted fields, quotes only where a field holds a comma, a quote or a line
/// break, `\n` terminator, `""` for an empty record). The writer cannot fail
/// here: a vector accepts every write, and the field count of a first record
/// is never checked against anything.
#[verifier::external_body]
fn csv_record_bytes(fields: &Vec<String>) -> (r: Option<Vec<u8>>)
    ensures
        r.is_some(),
        r.unwrap()@ == encode_utf8(csv_record(texts(fields@))),
{
    let mut w = ::csv::Writer::from_writer(Vec::new());
    if w.write_record(fields).is_err() {
        return None;
    }
    w.into_inner().ok()
}

impl From<GitHubRepository> for RepositoryRecord {
    /// The record of a repository; a missing description or language becomes empty.
    fn from(repo: GitHubRepository) -> (r: Self)
        ensures
            record_fields(r) == repository_fields(repo),
            r.stars == repo.stargazers_count,
            r.forks == repo.forks_count,
    {
        let description = match repo.description {
            Some(d) => d,
            None => String::new(),
        };
        let language = match repo.language {
            Some(l) => l,
            None => String::new(),
        };
        let r = RepositoryRecord {
            url: repo.html_url,
            name: repo.full_name,
            description,
            stars: repo.stargazers_count,
            forks: repo.forks_count,
            last_updated: repo.updated_at,
            language,
        };
        assert(record_fields(r) =~= repository_fields(repo));
        r
    }
}

/// What `From` gives is stated field by field in the `ensures` of `from`, not
/// as one record value: an empty description or language is a `String` that a
/// spec function cannot write down, so `from_spec` only names a record with
/// those fields and `obeys_from_spec` does not claim that `from` returns it.
impl vstd::std_specs::convert::FromSpecImpl<GitHubRepository> for RepositoryRecord {
    open spec fn obeys_from_spec() -> bool {
        false
    }

    open spec fn from_spec(v: GitHubRepository) -> RepositoryRecord {
        choose|r: RepositoryRecord| record_fields(r) == repository_fields(v)
            && r.stars == v.stargazers_count && r.forks == v.forks_count
    }
}

impl RepositoryRecord {
    /// The record of a borrowed repository.
    pub fn from_ref(repo: &GitHubRepository) -> (r: Self)
        ensures
            record_fields(r) == repository_fields(*repo),
            r.stars == repo.stargazers_count,
            r.forks == repo.forks_count,
    {
        let description = match &repo.description {
            Some(d) => d.clone(),
            None => String::new(),
        };
        let language = match &repo.language {
            Some(l) => l.clone(),
            None => String::new(),
        };
        let r = RepositoryRecord {
            url: repo.html_url.clone(),
            name: repo.full_name.clone(),
            description,
            stars: repo.stargazers_count,
            forks: repo.forks_count,
            last_updated: repo.updated_at.clone(),
            language,
        };
        assert(record_fields(r) =~= repository_fields(*repo));
        r
    }

    /// The fields of the record, in column order, numbers in decimal.
    pub fn fields(&self) -> (r: Vec<String>)
        ensures
            texts(r@) == record_fields(*self),
    {
        let mut v: Vec<String> = Vec::new();
        v.push(self.url.clone());
        v.push(self.name.clone());
        v.push(self.description.clone());
        v.push(u64_to_decimal(self.stars));
        v.push(u64_to_decimal(self.forks));
        v.push(self.last_updated.clone());
        v.push(self.language.clone());
        assert(texts(v@) =~= record_fields(*self));
        v
    }
}

/// The column names of the report.
pub fn header_row() -> (r: Vec<String>)
    ensures
        texts(r@) == header_fields(),
{
    let mut v: Vec<String> = Vec::new();
    v.push("url".to_owned());
    v.push("name".to_owned());
    v.push("description".to_owned());
    v.push("stars".to_owned());
    v.push("forks".to_owned());
    v.push("last_updated".to_owned());
    v.push("language".to_owned());
    assert(texts(v@) =~= header_fields());
    v
}

/// Appends the rows of the repositories, one per repository, in order.
pub fn append_rows(out: &mut Vec<u8>, repos: &[GitHubRepository])
    ensures
        final(out)@ == old(out)@ + csv_rows(repos@),
{
    let ghost head = out@;
    let mut i: usize = 0;
    while i < repos.len()
        invariant
            i <= repos@.len(),
            out@ == head + csv_rows(repos@.take(i as int)),
        decreases repos@.len() - i,
    {
        let record = RepositoryRecord::from_ref(&repos[i]);
        let fields = record.fields();
        let mut row = csv_record_bytes(&fields).unwrap();
        out.append(&mut row);
        assert(repos@.take(i + 1).drop_last() =~= repos@.take(i as int));
        i = i + 1;
    }
    assert(repos@.take(repos@.len() as int) =~= repos@);
}

/// The header row of the report, as bytes.
pub fn header_bytes() -> (r: Vec<u8>)
    ensures
        r@ == encode_utf8(csv_record(header_fields())),
{
    let header = header_row();
    csv_record_bytes(&header).unwrap()
}

/// The CSV report of the repositories, as bytes.
///
/// The header row comes twice when there are repositories, on purpose: the
/// report is what a `csv::Writer` gives when the header is written as a record
/// and the repositories are then serialized, and the writer puts the record
/// type's field names in a header row before the first serialized record.
pub fn render_csv(repos: &[GitHubRepository]) -> (r: Vec<u8>)
    ensures
        r@ == csv_document(repos@),
{
    let mut out = header_bytes();
    if repos.len() > 0 {
        let mut again = header_bytes();
        out.append(&mut again);
    }
    append_rows(&mut out, repos);
    out
}

/// Rows of joined lists are the rows of each list, joined.
pub proof fn lemma_csv_rows_concat(a: Seq<GitHubRepository>, b: Seq<GitHubRepository>)
    ensures
        csv_rows(a + b) == csv_rows(a) + csv_rows(b),
    decreases b.len(),
{
    if b.len() == 0 {
        assert(a + b =~= a);
        assert(csv_rows(a) + csv_rows(b) =~= csv_rows(a));
    } else {
        lemma_csv_rows_concat(a, b.drop_last());
        assert((a + b).drop_last() =~= a + b.drop_last());
        assert((a + b).last() == b.last());
    }
}

/// Appending repositories to a non-empty list appends their rows to its report,
/// and the report of one repository is the header twice, then its row.
pub proof fn lemma_csv_document_appends(a: Seq<GitHubRepository>, b: Seq<GitHubRepository>)
    requires
        a.len() > 0,
    ensures
        csv_document(a + b) == csv_document(a) + csv_rows(b),
{
    lemma_csv_rows_concat(a, b);
}

} // verus!
