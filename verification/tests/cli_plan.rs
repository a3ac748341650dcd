use github_recon::cli::{
    found_message, limit_banner, plan_outputs, result_limit, search_banner, search_query_for,
    writes_reports, CsvTarget, HtmlTarget, OutputFormat, SortField, SortOrder, XlsxTarget,
};

#[test]
fn sort_names() {
    assert_eq!(SortField::Stars.as_str(), "stars");
    assert_eq!(SortField::Forks.as_str(), "forks");
    assert_eq!(SortField::Updated.as_str(), "updated");
    assert_eq!(SortOrder::Asc.as_str(), "asc");
    assert_eq!(SortOrder::Desc.as_str(), "desc");
}

#[test]
fn html_path_alone_means_html_only() {
    for f in [OutputFormat::Csv, OutputFormat::Html, OutputFormat::Xlsx, OutputFormat::Both] {
        let p = plan_outputs(f, false, true, false);
        assert_eq!(p.csv, CsvTarget::Skip);
        assert_eq!(p.html, HtmlTarget::File);
        assert_eq!(p.xlsx, XlsxTarget::Skip);
    }
}

#[test]
fn both_with_csv_path_derives_html_path() {
    let p = plan_outputs(OutputFormat::Both, true, false, false);
    assert_eq!(p.csv, CsvTarget::File);
    assert_eq!(p.html, HtmlTarget::BesideCsv);
    assert_eq!(p.xlsx, XlsxTarget::BesideCsv);
}

#[test]
fn both_without_paths_prints_both() {
    let p = plan_outputs(OutputFormat::Both, false, false, false);
    assert_eq!(p.csv, CsvTarget::Stdout);
    assert_eq!(p.html, HtmlTarget::Stdout);
    assert_eq!(p.xlsx, XlsxTarget::Skip);
}

#[test]
fn csv_format_writes_no_html() {
    let p = plan_outputs(OutputFormat::Csv, true, true, true);
    assert_eq!(p.csv, CsvTarget::File);
    assert_eq!(p.html, HtmlTarget::Skip);
    assert_eq!(p.xlsx, XlsxTarget::Skip);
    let p = plan_outputs(OutputFormat::Html, true, false, false);
    assert_eq!(p.csv, CsvTarget::Skip);
    assert_eq!(p.html, HtmlTarget::BesideCsv);
    assert_eq!(p.xlsx, XlsxTarget::Skip);
}

#[test]
fn command_search_query() {
    let q = search_query_for("rust", 250, "forks", "asc");
    assert_eq!(q.query, "rust");
    assert_eq!(q.page, 1);
    assert_eq!(q.per_page, 100);
    assert_eq!(q.sort.as_deref(), Some("forks"));
    assert_eq!(q.order.as_deref(), Some("asc"));
    assert_eq!(search_query_for("rust", 20, "stars", "desc").per_page, 20);
}

#[test]
fn command_results_capped() {
    assert_eq!(result_limit(50), 50);
    assert_eq!(result_limit(100), 100);
    assert_eq!(result_limit(250), 100);
    assert_eq!(result_limit(0), 0);
}

#[test]
fn xlsx_plans() {
    let p = plan_outputs(OutputFormat::Xlsx, true, false, false);
    assert_eq!((p.csv, p.html, p.xlsx), (CsvTarget::Skip, HtmlTarget::Skip, XlsxTarget::BesideCsv));
    for f in [OutputFormat::Csv, OutputFormat::Html, OutputFormat::Xlsx, OutputFormat::Both] {
        let p = plan_outputs(f, false, false, true);
        assert_eq!((p.csv, p.html, p.xlsx), (CsvTarget::Skip, HtmlTarget::Skip, XlsxTarget::File));
    }
    let p = plan_outputs(OutputFormat::Both, true, false, true);
    assert_eq!((p.csv, p.html, p.xlsx), (CsvTarget::File, HtmlTarget::BesideCsv, XlsxTarget::File));
    let p = plan_outputs(OutputFormat::Xlsx, false, false, false);
    assert_eq!((p.csv, p.html, p.xlsx), (CsvTarget::Skip, HtmlTarget::Skip, XlsxTarget::Skip));
}

#[test]
fn search_messages() {
    assert!(!writes_reports(0));
    assert!(writes_reports(3));
    assert_eq!(found_message(0), "No repositories found.");
    assert_eq!(found_message(12), "Found 12 repositories:");
    assert_eq!(search_banner("rust web"), "Searching GitHub for: rust web");
    assert_eq!(limit_banner(50, "stars", "desc"), "Limit: 50, Sort: stars (desc)");
}
