//! The choices of the command line: sort, output formats, and the search they make.

use vstd::prelude::*;
use crate::api::{min_usize, SearchQuery, SearchQueryView, MAX_PER_PAGE};
use crate::text::{decimal, u64_to_decimal};

verus! {

/// The field results are sorted by.
#[derive(Debug, Clone, Copy, PartialEq, Eq, Structural)]
pub enum SortField {
    Stars,
    Forks,
    Updated,
}

/// The order results are sorted in.
#[derive(Debug, Clone, Copy, PartialEq, Eq, Structural)]
pub enum SortOrder {
    Asc,
    Desc,
}

/// The reports to write.
#[derive(Debug, Clone, Copy, PartialEq, Eq, Structural)]
pub enum OutputFormat {
    Csv,
    Html,
    Xlsx,
    Both,
}

/// The name of a sort field, as the search endpoint takes it.
pub open spec fn sort_field_name(f: SortField) -> Seq<char> {
    match f {
        SortField::Stars => "stars"@,
        SortField::Forks => "forks"@,
        SortField::Updated => "updated"@,
    }
}

/// The name of a sort order, as the search endpoint takes it.
pub open spec fn sort_order_name(o: SortOrder) -> Seq<char> {
    match o {
        SortOrder::Asc => "asc"@,
        SortOrder::Desc => "desc"@,
    }
}

impl SortField {
    /// The name the search endpoint takes.
    pub fn as_str(&self) -> (r: &'static str)
        ensures
            r@ == sort_field_name(*self),
    {
        match self {
            SortField::Stars => "stars",
            SortField::Forks => "forks",
            SortField::Updated => "updated",
        }
    }
}

impl SortOrder {
    /// The name the search endpoint takes.
    pub fn as_str(&self) -> (r: &'static str)
        ensures
            r@ == sort_order_name(*self),
    {
        match self {
            SortOrder::Asc => "asc",
            SortOrder::Desc => "desc",
        }
    }
}

/// Where the CSV report goes.
#[derive(Debug, Clone, Copy, PartialEq, Eq, Structural)]
pub enum CsvTarget {
    /// No CSV report.
    Skip,
    /// The file given for it.
    File,
    /// Standard output.
    Stdout,
}

/// Where the HTML report goes.
#[derive(Debug, Clone, Copy, PartialEq, Eq, Structural)]
pub enum HtmlTarget {
    /// No HTML report.
    Skip,
    /// The file given for it.
    File,
    /// The CSV file's path with the extension `html`.
    BesideCsv,
    /// Standard output.
    Stdout,
}

/// Where the spreadsheet report goes.
#[derive(Debug, Clone, Copy, PartialEq, Eq, Structural)]
pub enum XlsxTarget {
    /// No spreadsheet.
    Skip,
    /// The file given for it.
    File,
    /// The CSV file's path with the extension `xlsx`.
    BesideCsv,
}

/// The reports a search writes, and where.
#[derive(Debug, Clone, Copy, PartialEq, Eq, Structural)]
pub struct OutputPlan {
    pub csv: CsvTarget,
    pub html: HtmlTarget,
    pub xlsx: XlsxTarget,
}

/// The format in effect: an HTML path given alone (without a CSV or spreadsheet
/// path) means HTML only, and a spreadsheet path given alone means a
/// spreadsheet only.
pub open spec fn effective_format(
    format: OutputFormat,
    csv_path: bool,
    html_path: bool,
    xlsx_path: bool,
) -> OutputFormat {
    if html_path && !csv_path && !xlsx_path {
        OutputFormat::Html
    } else if xlsx_path && !csv_path && !html_path {
        OutputFormat::Xlsx
    } else {
        format
    }
}

/// Where each report goes, for the format and the paths given: CSV for `csv`
/// and `both`, to its file or standard output; HTML for `html` and `both`, to
/// its file, beside the CSV file, or standard output; a spreadsheet for `xlsx`
/// and `both`, to its file or beside the CSV file, and not at all when there is
/// no file to write it to.
pub open spec fn plan_spec(format: OutputFormat, csv_path: bool, html_path: bool, xlsx_path: bool) -> OutputPlan {
    let f = effective_format(format, csv_path, html_path, xlsx_path);
    OutputPlan {
        csv: match f {
            OutputFormat::Csv | OutputFormat::Both => if csv_path {
                CsvTarget::File
            } else {
                CsvTarget::Stdout
            },
            _ => CsvTarget::Skip,
        },
        html: match f {
            OutputFormat::Html | OutputFormat::Both => if html_path {
                HtmlTarget::File
            } else if csv_path {
                HtmlTarget::BesideCsv
            } else {
                HtmlTarget::Stdout
            },
            _ => HtmlTarget::Skip,
        },
        xlsx: match f {
            OutputFormat::Xlsx | OutputFormat::Both => if xlsx_path {
                XlsxTarget::File
            } else if csv_path {
                XlsxTarget::BesideCsv
            } else {
                XlsxTarget::Skip
            },
            _ => XlsxTarget::Skip,
        },
    }
}

/// Decides which reports a search writes, and where, from the format asked for
/// and whether a CSV path, an HTML path and a spreadsheet path were given.
pub fn plan_outputs(format: OutputFormat, csv_path: bool, html_path: bool, xlsx_path: bool) -> (r: OutputPlan)
    ensures
        r == plan_spec(format, csv_path, html_path, xlsx_path),
{
    let f = if html_path && !csv_path && !xlsx_path {
        OutputFormat::Html
    } else if xlsx_path && !csv_path && !html_path {
        OutputFormat::Xlsx
    } else {
        format
    };
    let csv = match f {
        OutputFormat::Csv | OutputFormat::Both => if csv_path {
            CsvTarget::File
        } else {
            CsvTarget::Stdout
        },
        _ => CsvTarget::Skip,
    };
    let html = match f {
        OutputFormat::Html | OutputFormat::Both => if html_path {
            HtmlTarget::File
        } else if csv_path {
            HtmlTarget::BesideCsv
        } else {
            HtmlTarget::Stdout
        },
        _ => HtmlTarget::Skip,
    };
    let xlsx = match f {
        OutputFormat::Xlsx | OutputFormat::Both => if xlsx_path {
            XlsxTarget::File
        } else if csv_path {
            XlsxTarget::BesideCsv
        } else {
            XlsxTarget::Skip
        },
        _ => XlsxTarget::Skip,
    };
    OutputPlan { csv, html, xlsx }
}

/// An HTML path given alone means an HTML report to that file and nothing
/// else, and a spreadsheet path given alone a spreadsheet to that file and
/// nothing else, whatever format was asked for; `both` with a CSV path writes
/// all three reports; a report goes to a given file only when its path was
/// given; and every plan writes some report, unless a spreadsheet alone is
/// asked for with no file to write it to. A report that is written goes to its
/// own given path whenever one was given; only without one does it go beside
/// the CSV file or to standard output.
pub proof fn lemma_plan_outputs(format: OutputFormat, csv_path: bool, html_path: bool, xlsx_path: bool)
    ensures
        html_path && !csv_path && !xlsx_path ==> plan_spec(format, csv_path, html_path, xlsx_path)
            == (OutputPlan { csv: CsvTarget::Skip, html: HtmlTarget::File, xlsx: XlsxTarget::Skip }),
        xlsx_path && !csv_path && !html_path ==> plan_spec(format, csv_path, html_path, xlsx_path)
            == (OutputPlan { csv: CsvTarget::Skip, html: HtmlTarget::Skip, xlsx: XlsxTarget::File }),
        format == OutputFormat::Both && csv_path ==> {
            let p = plan_spec(format, csv_path, html_path, xlsx_path);
            p.csv == CsvTarget::File && p.html != HtmlTarget::Skip && p.xlsx != XlsxTarget::Skip
        },
        plan_spec(format, csv_path, html_path, xlsx_path).csv == CsvTarget::File ==> csv_path,
        plan_spec(format, csv_path, html_path, xlsx_path).html == HtmlTarget::File ==> html_path,
        plan_spec(format, csv_path, html_path, xlsx_path).xlsx == XlsxTarget::File ==> xlsx_path,
        plan_spec(format, csv_path, html_path, xlsx_path).csv != CsvTarget::Skip && csv_path
            ==> plan_spec(format, csv_path, html_path, xlsx_path).csv == CsvTarget::File,
        plan_spec(format, csv_path, html_path, xlsx_path).html != HtmlTarget::Skip && html_path
            ==> plan_spec(format, csv_path, html_path, xlsx_path).html == HtmlTarget::File,
        plan_spec(format, csv_path, html_path, xlsx_path).xlsx != XlsxTarget::Skip && xlsx_path
            ==> plan_spec(format, csv_path, html_path, xlsx_path).xlsx == XlsxTarget::File,
        plan_spec(format, csv_path, html_path, xlsx_path).html == HtmlTarget::BesideCsv
            ==> csv_path && !html_path,
        plan_spec(format, csv_path, html_path, xlsx_path).xlsx == XlsxTarget::BesideCsv
            ==> csv_path && !xlsx_path,
        plan_spec(format, csv_path, html_path, xlsx_path).html == HtmlTarget::Stdout
            ==> !csv_path && !html_path,
        plan_spec(format, csv_path, html_path, xlsx_path).csv == CsvTarget::Stdout ==> !csv_path,
        !(format == OutputFormat::Xlsx && !csv_path && !html_path && !xlsx_path) ==> {
            let p = plan_spec(format, csv_path, html_path, xlsx_path);
            p.csv != CsvTarget::Skip || p.html != HtmlTarget::Skip || p.xlsx != XlsxTarget::Skip
        },
{
}

/// Whether a search that found `count` repositories writes any report: only
/// when it found some.
pub fn writes_reports(count: usize) -> (r: bool)
    ensures
        r == (count > 0),
{
    count > 0
}

/// What a search says about what it found.
pub fn found_message(count: usize) -> (r: String)
    ensures
        r@ == (if count == 0 {
            "No repositories found."@
        } else {
            "Found "@ + decimal(count as nat) + " repositories:"@
        }),
{
    if count == 0 {
        "No repositories found.".to_owned()
    } else {
        let mut r = "Found ".to_owned();
        let n = u64_to_decimal(count as u64);
        r.append(n.as_str());
        r.append(" repositories:");
        r
    }
}

/// The first line a search prints: the query.
pub fn search_banner(query: &str) -> (r: String)
    ensures
        r@ == "Searching GitHub for: "@ + query@,
{
    let mut r = "Searching GitHub for: ".to_owned();
    r.append(query);
    r
}

/// The second line a search prints: the limit and the sort.
pub fn limit_banner(limit: usize, sort: &str, order: &str) -> (r: String)
    ensures
        r@ == "Limit: "@ + decimal(limit as nat) + ", Sort: "@ + sort@ + " ("@ + order@ + ")"@,
{
    let mut r = "Limit: ".to_owned();
    let n = u64_to_decimal(limit as u64);
    r.append(n.as_str());
    r.append(", Sort: ");
    r.append(sort);
    r.append(" (");
    r.append(order);
    r.append(")");
    r
}

/// The most results a command collects, as its `--limit` option documents.
pub const MAX_RESULTS: usize = 100;

/// How many results a command collects for the `--limit` it was given: the
/// limit, but never more than `MAX_RESULTS`.
pub fn result_limit(limit: usize) -> (r: usize)
    ensures
        r == min_usize(limit, MAX_RESULTS),
        r <= MAX_RESULTS,
{
    if limit <= MAX_RESULTS { limit } else { MAX_RESULTS }
}

/// The search a command makes: the first page, pages of `limit` results (at
/// most the largest page size), sorted by `sort` in `order`.
pub fn search_query_for(query: &str, limit: usize, sort: &str, order: &str) -> (r: SearchQuery)
    ensures
        r@ == (SearchQueryView {
            query: query@,
            page: 1,
            per_page: min_usize(limit, MAX_PER_PAGE),
            sort: Some(sort@),
            order: Some(order@),
        }),
{
    let per_page = if limit <= MAX_PER_PAGE { limit } else { MAX_PER_PAGE };
    SearchQuery::new(query).with_pagination(1, per_page).with_sort(sort, order)
}

} // verus!
