//! Git references for the ref picker: which provider serves a repository,
//! reading the provider's JSON answers, and a short-lived cache.
//!
//! Running `gh` or `curl` is the caller's; their answers are read here.
use vstd::prelude::*;
use vstd::slice::slice_subrange;
use crate::text::{contains, contains_str, find_char_from, find_str_from, lines, lines_exec, push_str, splitn_char, splitn_char_exec, string_from, string_of, strip_prefix, strip_suffix, to_chars};

verus! {

broadcast use vstd::slice::group_slice_axioms;

/// A branch or tag and the commit it points to.
pub struct RefEntry {
    pub name: String,
    pub sha: String,
}

/// A commit and the first line of its message.
pub struct CommitEntry {
    pub sha: String,
    pub message: String,
}

/// What a repository offers to build from; fetched at a time in
/// milliseconds.
pub struct RepoRefs {
    pub default_branch: String,
    pub branches: Vec<RefEntry>,
    pub tags: Vec<RefEntry>,
    pub commits: Vec<CommitEntry>,
    pub fetched_at: u64,
}

/// A hosting service that can list a repository's references.
pub trait GitProvider {
    /// Whether the service hosts the repository at the URL.
    fn supports(&self, repo_url: &str) -> bool;
}

/// GitHub.
pub struct GitHubProvider;

impl GitProvider for GitHubProvider {
    /// GitHub serves URLs on `github.com`.
    fn supports(&self, repo_url: &str) -> bool {
        let v = to_chars(repo_url);
        contains_str(v.as_slice(), "github.com")
    }
}

/// Whether GitHub serves a repository URL.
pub open spec fn spec_github_supports(url: Seq<char>) -> bool {
    contains(url, "github.com"@)
}

impl GitHubProvider {
    /// Whether GitHub serves the repository URL.
    pub fn serves(&self, repo_url: &str) -> (r: bool)
        ensures
            r == spec_github_supports(repo_url@),
    {
        let v = to_chars(repo_url);
        contains_str(v.as_slice(), "github.com")
    }
}

/// The provider for a repository URL: GitHub when it serves it.
pub fn provider_for(repo_url: &str) -> (r: Option<GitHubProvider>)
    ensures
        r is Some == spec_github_supports(repo_url@),
{
    let github = GitHubProvider;
    if github.serves(repo_url) {
        Some(github)
    } else {
        None
    }
}

/// The error when no provider serves a URL.
pub fn no_provider_error(repo_url: &str) -> (r: String)
    ensures
        r@ == "No git provider supports URL: "@ + repo_url@,
{
    let mut s = string_from("No git provider supports URL: ");
    push_str(&mut s, repo_url);
    s
}

/// Owner and repository of a GitHub URL
/// (`https://github.com/<owner>/<repo>[.git]`), both non-empty.
pub open spec fn spec_owner_repo(url: Seq<char>) -> Option<(Seq<char>, Seq<char>)> {
    match strip_prefix(url, "https://github.com/"@) {
        None => None,
        Some(path) => {
            let p = match strip_suffix(path, ".git"@) {
                Some(q) => q,
                None => path,
            };
            let parts = splitn_char(p, '/', 2);
            if parts.len() < 2 || parts[0].len() == 0 || parts[1].len() == 0 {
                None
            } else {
                Some((parts[0], parts[1]))
            }
        },
    }
}

/// Parse owner and repository from a GitHub URL.
pub fn parse_owner_repo(url: &str) -> (r: Option<(String, String)>)
    ensures
        match r {
            Some((o, n)) => spec_owner_repo(url@) == Some((o@, n@)),
            None => spec_owner_repo(url@) is None,
        },
{
    let v = to_chars(url);
    let path = match crate::text::strip_prefix_str(v.as_slice(), "https://github.com/") {
        Some(p) => p,
        None => return None,
    };
    let p = match crate::text::strip_suffix_str(path, ".git") {
        Some(q) => q,
        None => path,
    };
    let parts = splitn_char_exec(p, '/', 2);
    if parts.len() < 2 || parts[0].len() == 0 || parts[1].len() == 0 {
        None
    } else {
        Some((string_of(parts[0]), string_of(parts[1])))
    }
}

/// The API paths queried for a repository: the repository, its branches,
/// its tags and the latest commits of a branch.
pub fn api_paths(owner: &str, repo: &str) -> (r: (String, String, String))
    ensures
        r.0@ == "repos/"@ + owner@ + "/"@ + repo@,
        r.1@ == "repos/"@ + owner@ + "/"@ + repo@ + "/branches?per_page=30&sort=updated"@,
        r.2@ == "repos/"@ + owner@ + "/"@ + repo@ + "/tags?per_page=30"@,
{
    let mut base = string_from("repos/");
    push_str(&mut base, owner);
    push_str(&mut base, "/");
    push_str(&mut base, repo);
    let mut b = base.clone();
    push_str(&mut b, "/branches?per_page=30&sort=updated");
    let mut t = base.clone();
    push_str(&mut t, "/tags?per_page=30");
    (base, b, t)
}

/// The API path of the latest commits of a branch.
pub fn commits_path(owner: &str, repo: &str, branch: &str) -> (r: String)
    ensures
        r@ == "repos/"@ + owner@ + "/"@ + repo@ + "/commits?per_page=10&sha="@ + branch@,
{
    let mut s = string_from("repos/");
    push_str(&mut s, owner);
    push_str(&mut s, "/");
    push_str(&mut s, repo);
    push_str(&mut s, "/commits?per_page=10&sha=");
    push_str(&mut s, branch);
    s
}

/// The string value after `key` from `pos` on: the text between the next
/// two double quotes after the key, and the position after the closing
/// one.
pub open spec fn spec_find_json_string(json: Seq<char>, pos: int, key: Seq<char>) -> Option<(Seq<char>, int)> {
    match find_str_from(json, key, pos) {
        None => None,
        Some(i) => match find_char_from(json, '"', i + key.len()) {
            None => None,
            Some(q) => match find_char_from(json, '"', q + 1) {
                None => None,
                Some(e) => Some((json.subrange(q + 1, e), e + 1)),
            },
        },
    }
}

/// A value found after a position ends after it.
pub proof fn lemma_find_json_string(json: Seq<char>, pos: int, key: Seq<char>)
    requires
        0 <= pos,
    ensures
        spec_find_json_string(json, pos, key) matches Some((v, p)) ==> pos < p <= json.len(),
{
    crate::text::lemma_find_str_from(json, key, pos);
    if let Some(i) = find_str_from(json, key, pos) {
        crate::text::lemma_find_char_from(json, '"', i + key.len());
        if let Some(q) = find_char_from(json, '"', i + key.len()) {
            crate::text::lemma_find_char_from(json, '"', q + 1);
        }
    }
}

/// Find the string value after a key, from `*pos`; on success `*pos`
/// moves past it.
pub fn find_json_string(json: &[char], pos: &mut usize, key: &str) -> (r: Option<String>)
    requires
        *old(pos) <= json@.len(),
    ensures
        match spec_find_json_string(json@, *old(pos) as int, key@) {
            Some((v, p)) => r matches Some(s) && s@ == v && *final(pos) == p,
            None => r is None && *final(pos) == *old(pos),
        },
{
    let n = json.len();
    let kv = to_chars(key);
    proof {
        crate::text::lemma_find_str_from(json@, key@, *pos as int);
    }
    let i = match crate::text::find_str_exec(json, kv.as_slice(), *pos) {
        Some(i) => i,
        None => return None,
    };
    assert(kv@ == key@);
    assert(i + kv@.len() <= n);
    let after = i + kv.len();
    proof {
        crate::text::lemma_find_char_from(json@, '"', after as int);
    }
    let q = match crate::text::find_char_exec(json, '"', after) {
        Some(q) => q,
        None => return None,
    };
    proof {
        crate::text::lemma_find_char_from(json@, '"', q + 1);
    }
    assert(q < n);
    let e = match crate::text::find_char_exec(json, '"', q + 1) {
        Some(e) => e,
        None => return None,
    };
    *pos = e + 1;
    Some(string_of(slice_subrange(json, q + 1, e)))
}

/// The value of a field anywhere in a JSON text (its first occurrence).
pub open spec fn spec_string_field(json: Seq<char>, field: Seq<char>) -> Option<Seq<char>> {
    match spec_find_json_string(json, 0, seq!['"'] + field + seq!['"']) {
        Some((v, _)) => Some(v),
        None => None,
    }
}

/// Extract a string field from a JSON text.
pub fn extract_string_field(json: &str, field: &str) -> (r: Option<String>)
    ensures
        crate::text::opt_view(r) == spec_string_field(json@, field@),
{
    let v = to_chars(json);
    let mut key = string_from("\"");
    push_str(&mut key, field);
    push_str(&mut key, "\"");
    proof {
        reveal_strlit("\"");
    }
    assert(key@ =~= seq!['"'] + field@ + seq!['"']);
    let mut pos: usize = 0;
    find_json_string(v.as_slice(), &mut pos, key.as_str())
}

/// The (name, sha) pairs of a JSON list of references, from `pos` on:
/// each `"name"` with the next `"sha"` (empty when none), references
/// without a name skipped.
pub open spec fn ref_entries(json: Seq<char>, pos: int) -> Seq<(Seq<char>, Seq<char>)>
    decreases json.len() - pos,
{
    if pos < 0 || pos >= json.len() {
        seq![]
    } else {
        match spec_find_json_string(json, pos, "\"name\""@) {
            None => seq![],
            Some((name, p1)) => {
                proof {
                    lemma_find_json_string(json, pos, "\"name\""@);
                    lemma_find_json_string(json, p1, "\"sha\""@);
                }
                let (sha, p2) = match spec_find_json_string(json, p1, "\"sha\""@) {
                    Some((s, p)) => (s, p),
                    None => (Seq::<char>::empty(), p1),
                };
                let rest = ref_entries(json, p2);
                if name.len() > 0 {
                    seq![(name, sha)] + rest
                } else {
                    rest
                }
            },
        }
    }
}

/// The views of reference entries.
pub open spec fn refs_view(v: Seq<RefEntry>) -> Seq<(Seq<char>, Seq<char>)> {
    v.map_values(|e: RefEntry| (e.name@, e.sha@))
}

/// Parse a JSON list of branches or tags.
pub fn parse_ref_list(json: &str) -> (r: Vec<RefEntry>)
    ensures
        refs_view(r@) == ref_entries(json@, 0),
{
    let v = to_chars(json);
    let s = v.as_slice();
    let mut refs: Vec<RefEntry> = Vec::new();
    let mut pos: usize = 0;
    while pos < s.len()
        invariant
            pos <= s@.len(),
            s@ == json@,
            refs_view(refs@) + ref_entries(json@, pos as int) == ref_entries(json@, 0),
        decreases s@.len() - pos,
    {
        let ghost p0 = pos as int;
        proof {
            lemma_find_json_string(json@, p0, "\"name\""@);
        }
        match find_json_string(s, &mut pos, "\"name\"") {
            Some(name) => {
                let ghost p1 = pos as int;
                proof {
                    lemma_find_json_string(json@, p1, "\"sha\""@);
                }
                let sha = match find_json_string(s, &mut pos, "\"sha\"") {
                    Some(x) => x,
                    None => String::new(),
                };
                let ghost before = refs@;
                if to_chars(name.as_str()).len() > 0 {
                    refs.push(RefEntry { name, sha });
                    assert(refs_view(refs@) =~= refs_view(before).push((name@, sha@)));
                } else {
                    assert(name@.len() == 0);
                }
                assert(refs_view(refs@) + ref_entries(json@, pos as int) =~= ref_entries(json@, 0));
            },
            None => {
                assert(ref_entries(json@, p0) =~= Seq::<(Seq<char>, Seq<char>)>::empty());
                assert(refs_view(refs@) =~= ref_entries(json@, 0));
                return refs;
            },
        }
    }
    assert(ref_entries(json@, pos as int) =~= Seq::<(Seq<char>, Seq<char>)>::empty());
    assert(refs_view(refs@) =~= ref_entries(json@, 0));
    refs
}

/// The first line of a text, or nothing.
pub open spec fn first_line(s: Seq<char>) -> Seq<char> {
    if lines(s).len() > 0 {
        lines(s)[0]
    } else {
        seq![]
    }
}

/// The (sha, first line of message) pairs of a JSON list of commits, from
/// `pos` on: each `"sha"` with the next `"message"`, commits without a sha
/// skipped.
pub open spec fn commit_entries(json: Seq<char>, pos: int) -> Seq<(Seq<char>, Seq<char>)>
    decreases json.len() - pos,
{
    if pos < 0 || pos >= json.len() {
        seq![]
    } else {
        match spec_find_json_string(json, pos, "\"sha\""@) {
            None => seq![],
            Some((sha, p1)) => {
                proof {
                    lemma_find_json_string(json, pos, "\"sha\""@);
                    lemma_find_json_string(json, p1, "\"message\""@);
                }
                let (msg, p2) = match spec_find_json_string(json, p1, "\"message\""@) {
                    Some((m, p)) => (m, p),
                    None => (Seq::<char>::empty(), p1),
                };
                let rest = commit_entries(json, p2);
                if sha.len() > 0 {
                    seq![(sha, first_line(msg))] + rest
                } else {
                    rest
                }
            },
        }
    }
}

/// The views of commit entries.
pub open spec fn commits_view(v: Seq<CommitEntry>) -> Seq<(Seq<char>, Seq<char>)> {
    v.map_values(|e: CommitEntry| (e.sha@, e.message@))
}

fn first_line_exec(s: &str) -> (r: String)
    ensures
        r@ == first_line(s@),
{
    let v = to_chars(s);
    let ls = lines_exec(v.as_slice());
    if ls.len() > 0 {
        string_of(ls[0])
    } else {
        String::new()
    }
}

/// Parse a JSON list of commits.
pub fn parse_commit_list(json: &str) -> (r: Vec<CommitEntry>)
    ensures
        commits_view(r@) == commit_entries(json@, 0),
{
    let v = to_chars(json);
    let s = v.as_slice();
    let mut commits: Vec<CommitEntry> = Vec::new();
    let mut pos: usize = 0;
    while pos < s.len()
        invariant
            pos <= s@.len(),
            s@ == json@,
            commits_view(commits@) + commit_entries(json@, pos as int) == commit_entries(json@, 0),
        decreases s@.len() - pos,
    {
        let ghost p0 = pos as int;
        proof {
            lemma_find_json_string(json@, p0, "\"sha\""@);
        }
        match find_json_string(s, &mut pos, "\"sha\"") {
            Some(sha) => {
                let ghost p1 = pos as int;
                proof {
                    lemma_find_json_string(json@, p1, "\"message\""@);
                }
                let message = match find_json_string(s, &mut pos, "\"message\"") {
                    Some(x) => x,
                    None => String::new(),
                };
                let line = first_line_exec(message.as_str());
                let ghost before = commits@;
                if to_chars(sha.as_str()).len() > 0 {
                    commits.push(CommitEntry { sha, message: line });
                    assert(commits_view(commits@) =~= commits_view(before).push((sha@, first_line(message@))));
                }
                assert(commits_view(commits@) + commit_entries(json@, pos as int) =~= commit_entries(json@, 0));
            },
            None => {
                assert(commit_entries(json@, p0) =~= Seq::<(Seq<char>, Seq<char>)>::empty());
                assert(commits_view(commits@) =~= commit_entries(json@, 0));
                return commits;
            },
        }
    }
    assert(commit_entries(json@, pos as int) =~= Seq::<(Seq<char>, Seq<char>)>::empty());
    assert(commits_view(commits@) =~= commit_entries(json@, 0));
    commits
}

/// The references of a repository from the provider's answers (each the
/// JSON text or an error): the default branch from the repository answer
/// (`main` when it cannot be read), lists empty when their query failed.
pub fn repo_refs_from(
    repo: Result<String, String>,
    branches: Result<String, String>,
    tags: Result<String, String>,
    commits: Result<String, String>,
    now: u64,
) -> (r: RepoRefs)
    ensures
        r.default_branch@ == match repo {
            Ok(j) => match spec_string_field(j@, "default_branch"@) {
                Some(b) => b,
                None => "main"@,
            },
            Err(_) => "main"@,
        },
        refs_view(r.branches@) == match branches {
            Ok(j) => ref_entries(j@, 0),
            Err(_) => Seq::empty(),
        },
        refs_view(r.tags@) == match tags {
            Ok(j) => ref_entries(j@, 0),
            Err(_) => Seq::empty(),
        },
        commits_view(r.commits@) == match commits {
            Ok(j) => commit_entries(j@, 0),
            Err(_) => Seq::empty(),
        },
        r.fetched_at == now,
{
    let default_branch = match &repo {
        Ok(j) => match extract_string_field(j.as_str(), "default_branch") {
            Some(b) => b,
            None => string_from("main"),
        },
        Err(_) => string_from("main"),
    };
    let b = match &branches {
        Ok(j) => parse_ref_list(j.as_str()),
        Err(_) => {
            let v: Vec<RefEntry> = Vec::new();
            assert(refs_view(v@) =~= Seq::<(Seq<char>, Seq<char>)>::empty());
            v
        },
    };
    let t = match &tags {
        Ok(j) => parse_ref_list(j.as_str()),
        Err(_) => {
            let v: Vec<RefEntry> = Vec::new();
            assert(refs_view(v@) =~= Seq::<(Seq<char>, Seq<char>)>::empty());
            v
        },
    };
    let c = match &commits {
        Ok(j) => parse_commit_list(j.as_str()),
        Err(_) => {
            let v: Vec<CommitEntry> = Vec::new();
            assert(commits_view(v@) =~= Seq::<(Seq<char>, Seq<char>)>::empty());
            v
        },
    };
    RepoRefs { default_branch, branches: b, tags: t, commits: c, fetched_at: now }
}

/// Which query a fetch of references makes next.
#[derive(Debug, Clone, Copy, PartialEq, Eq, Structural)]
pub enum FetchStage {
    /// The repository, for its default branch.
    Repository,
    Branches,
    Tags,
    /// The latest commits of the default branch.
    Commits,
    Done,
}

/// A fetch of a repository's references under way: the caller runs each
/// query that [`RefFetch::query`] names and hands the answer (JSON text or
/// error) to [`RefFetch::answer`] until the fetch is done.
pub struct RefFetch {
    pub owner: String,
    pub repo: String,
    pub stage: FetchStage,
    pub default_branch: String,
    pub branches: Vec<RefEntry>,
    pub tags: Vec<RefEntry>,
    pub commits: Vec<CommitEntry>,
}

/// Start fetching the references of a repository: refused when no provider
/// serves the URL or its owner and name cannot be read.
pub fn fetch_repo_refs(repo_url: &str) -> (r: Result<RefFetch, String>)
    ensures
        !spec_github_supports(repo_url@) ==> (r matches Err(e) && e@ == "No git provider supports URL: "@
            + repo_url@),
        spec_github_supports(repo_url@) && spec_owner_repo(repo_url@) is None ==> (r matches Err(e)
            && e@ == "Cannot parse GitHub owner/repo from: "@ + repo_url@),
        spec_github_supports(repo_url@) && spec_owner_repo(repo_url@) is Some ==> (
        r matches Ok(f) && Some((f.owner@, f.repo@)) == spec_owner_repo(repo_url@) && f.stage
            == FetchStage::Repository && f.branches@.len() == 0 && f.tags@.len() == 0
            && f.commits@.len() == 0),
{
    if provider_for(repo_url).is_none() {
        return Err(no_provider_error(repo_url));
    }
    match parse_owner_repo(repo_url) {
        Some((owner, repo)) => Ok(
            RefFetch {
                owner,
                repo,
                stage: FetchStage::Repository,
                default_branch: string_from("main"),
                branches: Vec::new(),
                tags: Vec::new(),
                commits: Vec::new(),
            },
        ),
        None => {
            let mut e = string_from("Cannot parse GitHub owner/repo from: ");
            push_str(&mut e, repo_url);
            Err(e)
        },
    }
}

impl RefFetch {
    /// The API query to make now, none when done.
    pub fn query(&self) -> (r: Option<String>)
        ensures
            match self.stage {
                FetchStage::Repository => r matches Some(q) && q@ == "repos/"@ + self.owner@ + "/"@
                    + self.repo@,
                FetchStage::Branches => r matches Some(q) && q@ == "repos/"@ + self.owner@ + "/"@
                    + self.repo@ + "/branches?per_page=30&sort=updated"@,
                FetchStage::Tags => r matches Some(q) && q@ == "repos/"@ + self.owner@ + "/"@
                    + self.repo@ + "/tags?per_page=30"@,
                FetchStage::Commits => r matches Some(q) && q@ == "repos/"@ + self.owner@ + "/"@
                    + self.repo@ + "/commits?per_page=10&sha="@ + self.default_branch@,
                FetchStage::Done => r is None,
            },
    {
        let (base, b, t) = api_paths(self.owner.as_str(), self.repo.as_str());
        match self.stage {
            FetchStage::Repository => Some(base),
            FetchStage::Branches => Some(b),
            FetchStage::Tags => Some(t),
            FetchStage::Commits => Some(
                commits_path(self.owner.as_str(), self.repo.as_str(), self.default_branch.as_str()),
            ),
            FetchStage::Done => None,
        }
    }

    /// Take the answer to the current query and move to the next: the
    /// default branch is read from the repository (`main` when it cannot
    /// be), lists stay empty when their query failed.
    pub fn answer(&mut self, a: Result<String, String>)
        requires
            old(self).stage != FetchStage::Done,
        ensures
            final(self).owner@ == old(self).owner@,
            final(self).repo@ == old(self).repo@,
            final(self).stage == match old(self).stage {
                FetchStage::Repository => FetchStage::Branches,
                FetchStage::Branches => FetchStage::Tags,
                FetchStage::Tags => FetchStage::Commits,
                _ => FetchStage::Done,
            },
            old(self).stage == FetchStage::Repository ==> final(self).default_branch@ == match a {
                Ok(j) => match spec_string_field(j@, "default_branch"@) {
                    Some(b) => b,
                    None => "main"@,
                },
                Err(_) => "main"@,
            },
            old(self).stage != FetchStage::Repository ==> final(self).default_branch@
                == old(self).default_branch@,
            refs_view(final(self).branches@) == if old(self).stage == FetchStage::Branches {
                match a {
                    Ok(j) => ref_entries(j@, 0),
                    Err(_) => Seq::empty(),
                }
            } else {
                refs_view(old(self).branches@)
            },
            refs_view(final(self).tags@) == if old(self).stage == FetchStage::Tags {
                match a {
                    Ok(j) => ref_entries(j@, 0),
                    Err(_) => Seq::empty(),
                }
            } else {
                refs_view(old(self).tags@)
            },
            commits_view(final(self).commits@) == if old(self).stage == FetchStage::Commits {
                match a {
                    Ok(j) => commit_entries(j@, 0),
                    Err(_) => Seq::empty(),
                }
            } else {
                commits_view(old(self).commits@)
            },
    {
        match self.stage {
            FetchStage::Repository => {
                self.default_branch = match &a {
                    Ok(j) => match extract_string_field(j.as_str(), "default_branch") {
                        Some(b) => b,
                        None => string_from("main"),
                    },
                    Err(_) => string_from("main"),
                };
                self.stage = FetchStage::Branches;
            },
            FetchStage::Branches => {
                self.branches = match &a {
                    Ok(j) => parse_ref_list(j.as_str()),
                    Err(_) => {
                        let v: Vec<RefEntry> = Vec::new();
                        assert(refs_view(v@) =~= Seq::<(Seq<char>, Seq<char>)>::empty());
                        v
                    },
                };
                self.stage = FetchStage::Tags;
            },
            FetchStage::Tags => {
                self.tags = match &a {
                    Ok(j) => parse_ref_list(j.as_str()),
                    Err(_) => {
                        let v: Vec<RefEntry> = Vec::new();
                        assert(refs_view(v@) =~= Seq::<(Seq<char>, Seq<char>)>::empty());
                        v
                    },
                };
                self.stage = FetchStage::Commits;
            },
            _ => {
                self.commits = match &a {
                    Ok(j) => parse_commit_list(j.as_str()),
                    Err(_) => {
                        let v: Vec<CommitEntry> = Vec::new();
                        assert(commits_view(v@) =~= Seq::<(Seq<char>, Seq<char>)>::empty());
                        v
                    },
                };
                self.stage = FetchStage::Done;
            },
        }
    }

    /// The references fetched, stamped with the time in milliseconds.
    pub fn finish(self, now: u64) -> (r: RepoRefs)
        requires
            self.stage == FetchStage::Done,
        ensures
            r.default_branch@ == self.default_branch@,
            refs_view(r.branches@) == refs_view(self.branches@),
            refs_view(r.tags@) == refs_view(self.tags@),
            commits_view(r.commits@) == commits_view(self.commits@),
            r.fetched_at == now,
    {
        RepoRefs {
            default_branch: self.default_branch,
            branches: self.branches,
            tags: self.tags,
            commits: self.commits,
            fetched_at: now,
        }
    }
}

/// How the API is reached.
#[derive(Debug, Clone, Copy, PartialEq, Eq, Structural)]
pub enum ApiMethod {
    /// The GitHub CLI, authenticated.
    Gh,
    /// Plain `curl`, unauthenticated and rate limited.
    Curl,
}

/// Pick the API method: `gh` when installed, else `curl`, else neither.
pub fn api_method(has_gh: bool, has_curl: bool) -> (r: Result<ApiMethod, &'static str>)
    ensures
        has_gh ==> r == Ok::<ApiMethod, &'static str>(ApiMethod::Gh),
        !has_gh && has_curl ==> r == Ok::<ApiMethod, &'static str>(ApiMethod::Curl),
        !has_gh && !has_curl ==> (r matches Err(e) && e@
            == "Neither gh CLI nor curl found. Install gh from https://cli.github.com/"@),
{
    if has_gh {
        Ok(ApiMethod::Gh)
    } else if has_curl {
        Ok(ApiMethod::Curl)
    } else {
        Err("Neither gh CLI nor curl found. Install gh from https://cli.github.com/")
    }
}

/// The URL `curl` fetches for an API query.
pub fn curl_url(endpoint: &str) -> (r: String)
    ensures
        r@ == "https://api.github.com/"@ + endpoint@,
{
    let mut s = string_from("https://api.github.com/");
    push_str(&mut s, endpoint);
    s
}

/// The error when `gh api` fails.
pub fn gh_failure(endpoint: &str, stderr: &str) -> (r: String)
    ensures
        r@ == "gh api "@ + endpoint@ + " failed: "@ + stderr@,
{
    let mut s = string_from("gh api ");
    push_str(&mut s, endpoint);
    push_str(&mut s, " failed: ");
    push_str(&mut s, stderr);
    s
}

/// The error when `curl` fails.
pub fn curl_failure(url: &str) -> (r: String)
    ensures
        r@ == "curl "@ + url@ + " failed (HTTP error or rate limited)"@,
{
    let mut s = string_from("curl ");
    push_str(&mut s, url);
    push_str(&mut s, " failed (HTTP error or rate limited)");
    s
}

/// How long fetched references stay fresh, in milliseconds.
pub const REF_TTL_MS: u64 = 300000;

/// Fetched references by repository URL, each URL once.
pub struct RefCache {
    pub entries: Vec<(String, RepoRefs)>,
}

/// The index of a URL in the cache.
pub open spec fn url_index(es: Seq<(String, RepoRefs)>, url: Seq<char>, i: int) -> Option<int>
    decreases es.len() - i,
{
    if i < 0 || i >= es.len() {
        None
    } else if es[i].0@ == url {
        Some(i)
    } else {
        url_index(es, url, i + 1)
    }
}

/// The references fetched at `fetched` are still fresh at `now`: less
/// than five minutes old, whole seconds counted.
pub open spec fn fresh(fetched: u64, now: u64) -> bool {
    (if now >= fetched {
        (now - fetched) as nat
    } else {
        0nat
    }) / 1000 < 300
}

impl RefCache {
    /// An empty cache.
    pub fn new() -> (r: RefCache)
        ensures
            r.entries@.len() == 0,
    {
        RefCache { entries: Vec::new() }
    }

    fn index_of(&self, url: &str) -> (r: Option<usize>)
        ensures
            match r {
                Some(k) => url_index(self.entries@, url@, 0) == Some(k as int) && k < self.entries@.len(),
                None => url_index(self.entries@, url@, 0) is None,
            },
    {
        let uv = to_chars(url);
        let mut i: usize = 0;
        while i < self.entries.len()
            invariant
                i <= self.entries@.len(),
                uv@ == url@,
                url_index(self.entries@, url@, i as int) == url_index(self.entries@, url@, 0),
            decreases self.entries@.len() - i,
        {
            let k = to_chars(self.entries[i].0.as_str());
            if crate::text::chars_eq(k.as_slice(), uv.as_slice()) {
                return Some(i);
            }
            i = i + 1;
        }
        None
    }

    /// The references of a repository at `now`, if fetched and fresh.
    pub fn get(&self, repo_url: &str, now: u64) -> (r: Option<&RepoRefs>)
        ensures
            match url_index(self.entries@, repo_url@, 0) {
                Some(k) => if fresh(self.entries@[k].1.fetched_at, now) {
                    r matches Some(x) && *x == self.entries@[k].1
                } else {
                    r is None
                },
                None => r is None,
            },
    {
        match self.index_of(repo_url) {
            Some(k) => {
                let e = &self.entries[k].1;
                let age = if now >= e.fetched_at {
                    now - e.fetched_at
                } else {
                    0
                };
                if age / 1000 < 300 {
                    Some(e)
                } else {
                    None
                }
            },
            None => None,
        }
    }

    /// Store the references of a repository, replacing earlier ones.
    pub fn insert(&mut self, repo_url: String, refs: RepoRefs)
        ensures
            match url_index(old(self).entries@, repo_url@, 0) {
                Some(k) => final(self).entries@.len() == old(self).entries@.len() && final(self).entries@[k].0@
                    == repo_url@ && final(self).entries@[k].1 == refs && forall|j: int|
                    0 <= j < old(self).entries@.len() && j != k ==> final(self).entries@[j]
                    == old(self).entries@[j],
                None => final(self).entries@ == old(self).entries@.push((repo_url, refs)),
            },
    {
        match self.index_of(repo_url.as_str()) {
            Some(k) => {
                self.entries.set(k, (repo_url, refs));
            },
            None => {
                self.entries.push((repo_url, refs));
            },
        }
    }
}

/// A stored reference list is what a later lookup at a fresh time gives.
pub proof fn law_cache_read_after_write(
    before: Seq<(String, RepoRefs)>,
    after: Seq<(String, RepoRefs)>,
    url: String,
    refs: RepoRefs,
    now: u64,
)
    requires
        match url_index(before, url@, 0) {
            Some(k) => after.len() == before.len() && after[k].0@ == url@ && after[k].1 == refs
                && forall|j: int| 0 <= j < before.len() && j != k ==> after[j] == before[j],
            None => after == before.push((url, refs)),
        },
    ensures
        url_index(after, url@, 0) matches Some(k) && after[k].1 == refs,
{
    lemma_url_index(before, url@, 0);
    match url_index(before, url@, 0) {
        Some(k) => {
            lemma_url_index_same_prefix(before, after, url@, 0, k);
        },
        None => {
            lemma_url_index_push(before, url, refs, 0);
        },
    }
}

proof fn lemma_url_index(es: Seq<(String, RepoRefs)>, url: Seq<char>, i: int)
    requires
        0 <= i,
    ensures
        match url_index(es, url, i) {
            Some(k) => i <= k < es.len() && es[k].0@ == url && forall|j: int| i <= j < k ==> (#[trigger] es[j]).0@ != url,
            None => forall|j: int| i <= j < es.len() ==> (#[trigger] es[j]).0@ != url,
        },
    decreases es.len() - i,
{
    if i < es.len() && es[i].0@ != url {
        lemma_url_index(es, url, i + 1);
    }
}

proof fn lemma_url_index_same_prefix(before: Seq<(String, RepoRefs)>, after: Seq<(String, RepoRefs)>, url: Seq<char>, i: int, k: int)
    requires
        0 <= i <= k < before.len(),
        after.len() == before.len(),
        after[k].0@ == url,
        forall|j: int| i <= j < k ==> (#[trigger] before[j]).0@ != url,
        forall|j: int| 0 <= j < before.len() && j != k ==> after[j] == before[j],
    ensures
        url_index(after, url, i) == Some(k),
    decreases k - i,
{
    if i < k {
        assert(after[i] == before[i]);
        lemma_url_index_same_prefix(before, after, url, i + 1, k);
    }
}

proof fn lemma_url_index_push(es: Seq<(String, RepoRefs)>, url: String, refs: RepoRefs, i: int)
    requires
        0 <= i <= es.len(),
        forall|j: int| i <= j < es.len() ==> (#[trigger] es[j]).0@ != url@,
    ensures
        url_index(es.push((url, refs)), url@, i) == Some(es.len() as int),
    decreases es.len() - i,
{
    if i < es.len() {
        assert(es.push((url, refs))[i] == es[i]);
        lemma_url_index_push(es, url, refs, i + 1);
    }
}

} // verus!
