use whoah::git::{fetch_repo_refs, FetchStage};
use whoah::git::{api_method, curl_failure, curl_url, gh_failure, ApiMethod};
use whoah::git::{
    api_paths, commits_path, extract_string_field, find_json_string, no_provider_error,
    parse_commit_list, parse_owner_repo, parse_ref_list, provider_for, repo_refs_from, GitHubProvider,
    GitProvider, RefCache,
};

#[test]
fn owner_and_repo_are_read() {
    assert_eq!(parse_owner_repo("https://github.com/oxidecomputer/omicron.git"), Some(("oxidecomputer".to_string(), "omicron".to_string())));
    assert_eq!(parse_owner_repo("https://github.com/oxidecomputer/omicron"), Some(("oxidecomputer".to_string(), "omicron".to_string())));
    assert_eq!(parse_owner_repo("https://github.com/oxidecomputer/"), None);
    assert_eq!(parse_owner_repo("https://gitlab.com/a/b"), None);
    assert_eq!(parse_owner_repo("https://github.com/a/b/c"), Some(("a".to_string(), "b/c".to_string())));
}

#[test]
fn providers() {
    assert!(provider_for("https://github.com/a/b").is_some());
    assert!(provider_for("https://example.com/a/b").is_none());
    assert!(GitHubProvider.supports("git@github.com:a/b"));
    assert_eq!(no_provider_error("x"), "No git provider supports URL: x");
    let (repo, branches, tags) = api_paths("o", "r");
    assert_eq!(repo, "repos/o/r");
    assert_eq!(branches, "repos/o/r/branches?per_page=30&sort=updated");
    assert_eq!(tags, "repos/o/r/tags?per_page=30");
    assert_eq!(commits_path("o", "r", "main"), "repos/o/r/commits?per_page=10&sha=main");
}

#[test]
fn json_strings_are_found() {
    let json: Vec<char> = r#"{"name": "main", "commit": {"sha": "abc"}}"#.chars().collect();
    let mut pos = 0usize;
    assert_eq!(find_json_string(&json, &mut pos, "\"name\""), Some("main".to_string()));
    let after = pos;
    assert_eq!(find_json_string(&json, &mut pos, "\"sha\""), Some("abc".to_string()));
    assert!(pos > after);
    let keep = pos;
    assert_eq!(find_json_string(&json, &mut pos, "\"name\""), None);
    assert_eq!(pos, keep);
    assert_eq!(extract_string_field(r#"{"default_branch":"dev"}"#, "default_branch"), Some("dev".to_string()));
}

#[test]
fn ref_and_commit_lists() {
    let branches = r#"[{"name":"main","commit":{"sha":"111"}},{"name":"","commit":{"sha":"222"}},{"name":"dev","commit":{"sha":"333"}}]"#;
    let refs = parse_ref_list(branches);
    assert_eq!(refs.len(), 2);
    assert_eq!(refs[0].name, "main");
    assert_eq!(refs[0].sha, "111");
    assert_eq!(refs[1].name, "dev");
    assert_eq!(refs[1].sha, "333");
    let commits = parse_commit_list(r#"[{"sha":"aaa","commit":{"message":"Fix it\nmore"}},{"sha":"bbb","commit":{"message":"Second"}}]"#);
    assert_eq!(commits.len(), 2);
    assert_eq!(commits[0].sha, "aaa");
    assert_eq!(commits[0].message, "Fix it\\nmore");
    assert_eq!(commits[1].message, "Second");
    assert!(parse_ref_list("").is_empty());
}

#[test]
fn refs_and_cache() {
    let refs = repo_refs_from(Err("offline".into()), Ok(r#"[{"name":"main","sha":"1"}]"#.into()), Err("x".into()), Ok("[]".into()), 1_000);
    assert_eq!(refs.default_branch, "main");
    assert_eq!(refs.branches.len(), 1);
    assert!(refs.tags.is_empty());
    let mut cache = RefCache::new();
    cache.insert("u".to_string(), refs);
    assert!(cache.get("u", 1_000 + 299_999).is_some());
    assert!(cache.get("u", 1_000 + 300_000).is_none());
    assert!(cache.get("v", 1_000).is_none());
    let refs2 = repo_refs_from(Ok(r#"{"default_branch":"trunk"}"#.into()), Err("".into()), Err("".into()), Err("".into()), 5_000);
    cache.insert("u".to_string(), refs2);
    assert_eq!(cache.entries.len(), 1);
    assert_eq!(cache.get("u", 5_000).unwrap().default_branch, "trunk");
}

#[test]
fn fetch_runs_its_queries_in_order() {
    let mut f = fetch_repo_refs("https://github.com/oxidecomputer/omicron.git").unwrap();
    assert_eq!(f.query().as_deref(), Some("repos/oxidecomputer/omicron"));
    f.answer(Ok("{\"default_branch\": \"trunk\"}".to_string()));
    assert_eq!(f.query().as_deref(), Some("repos/oxidecomputer/omicron/branches?per_page=30&sort=updated"));
    f.answer(Ok("[{\"name\": \"main\", \"commit\": {\"sha\": \"abc\"}}]".to_string()));
    assert_eq!(f.query().as_deref(), Some("repos/oxidecomputer/omicron/tags?per_page=30"));
    f.answer(Err("rate limited".to_string()));
    assert_eq!(f.query().as_deref(), Some("repos/oxidecomputer/omicron/commits?per_page=10&sha=trunk"));
    f.answer(Ok("[{\"sha\": \"def\", \"commit\": {\"message\": \"fix\\nmore\"}}]".to_string()));
    assert_eq!(f.stage, FetchStage::Done);
    assert!(f.query().is_none());
    let refs = f.finish(42);
    assert_eq!(refs.default_branch, "trunk");
    assert_eq!(refs.branches.len(), 1);
    assert!(refs.tags.is_empty());
    assert_eq!(refs.commits[0].sha, "def");
    assert_eq!(refs.fetched_at, 42);
}

#[test]
fn fetch_refusals_and_methods() {
    match fetch_repo_refs("https://gitlab.com/a/b") {
        Err(e) => assert_eq!(e, "No git provider supports URL: https://gitlab.com/a/b"),
        Ok(_) => panic!("expected a refusal"),
    }
    match fetch_repo_refs("git@github.com:a/b.git") {
        Err(e) => assert_eq!(e, "Cannot parse GitHub owner/repo from: git@github.com:a/b.git"),
        Ok(_) => panic!("expected a refusal"),
    }
    assert_eq!(api_method(true, false), Ok(ApiMethod::Gh));
    assert_eq!(api_method(false, true), Ok(ApiMethod::Curl));
    assert!(api_method(false, false).is_err());
    assert_eq!(curl_url("repos/a/b"), "https://api.github.com/repos/a/b");
    assert_eq!(gh_failure("repos/a/b", "404"), "gh api repos/a/b failed: 404");
    assert_eq!(curl_failure("u"), "curl u failed (HTTP error or rate limited)");
}
