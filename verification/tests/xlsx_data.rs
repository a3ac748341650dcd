use github_recon::api::GitHubRepository;
use github_recon::xlsx::xlsx_data_csv;

fn repo(full_name: &str, description: Option<&str>, language: Option<&str>) -> GitHubRepository {
    GitHubRepository {
        id: 9,
        name: "n".to_string(),
        full_name: full_name.to_string(),
        description: description.map(|s| s.to_string()),
        html_url: format!("https://github.com/{}", full_name),
        stargazers_count: 1234,
        forks_count: 56,
        language: language.map(|s| s.to_string()),
        updated_at: "2024-02-29T12:00:00Z".to_string(),
        fork: true,
    }
}

/// The data text as the spreadsheet step lays it out line by line.
fn expected(repos: &[GitHubRepository]) -> String {
    let mut csv_content = String::from("full_name,html_url,description,stargazers_count,forks_count,language,updated_at\n");
    for repo in repos {
        let desc = repo.description.as_deref().unwrap_or("").replace('\n', " ").replace('"', "'");
        csv_content.push_str(&format!(
            "\"{}\",\"{}\",\"{}\",{},{},\"{}\",\"{}\"\n",
            repo.full_name.replace('"', "'"),
            repo.html_url,
            desc,
            repo.stargazers_count,
            repo.forks_count,
            repo.language.as_deref().unwrap_or(""),
            repo.updated_at
        ));
    }
    csv_content
}

#[test]
fn xlsx_data_of_no_repositories() {
    assert_eq!(
        xlsx_data_csv(&[]),
        "full_name,html_url,description,stargazers_count,forks_count,language,updated_at\n"
    );
}

#[test]
fn xlsx_data_lines() {
    let repos = vec![
        repo("a/b", Some("multi\nline \"quoted\" text"), Some("Rust")),
        repo("q\"x/y", None, None),
    ];
    let out = xlsx_data_csv(&repos);
    assert_eq!(out, expected(&repos));
    assert!(out.ends_with(
        "\"q'x/y\",\"https://github.com/q\"x/y\",\"\",1234,56,\"\",\"2024-02-29T12:00:00Z\"\n"
    ));
    assert!(out.contains("\"multi line 'quoted' text\""));
}
