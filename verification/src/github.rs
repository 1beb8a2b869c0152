//! The GitHub-style provider: one list of organizations, then for each
//! organization a listing of repositories whose pages are chained by the
//! `Link` response header.

pub use crate::provider::HttpProblem;
use crate::provider::{
    clone_urls, opt_text, CloneUrl, FileProvider, GitUrlProvider, HttpProvider, Pages, PagesView,
    Paging, PagingView, Problem, Reply,
};
use regex::Regex;
use vstd::prelude::*;
use vstd::string::*;

verus! {

/// A repository as the API lists it.
#[derive(Debug)]
pub struct GithubRepo {
    pub name: String,
    pub full_name: String,
    pub description: Option<String>,
    /// The address to clone the repository from, over SSH.
    pub ssh_url: String,
}

/// An organization as the API lists it.
#[derive(Debug)]
pub struct Organization {
    /// Where the repositories of the organization are listed.
    pub repos_url: String,
}

/// The URL of the repository listing of one organization.
#[derive(Debug)]
pub struct OrganizationRepoUrl(pub String);

/// A GitHub-style host: the token to authenticate with, the URL that lists
/// the user's organizations, and the display symbol.
pub struct Github {
    pub token: String,
    pub orgs_url: String,
    pub symbol: Option<String>,
}

/// The path, below a host's base URL, that lists the user's organizations.
pub const USER_ORGS_PATH: &'static str = "/api/v3/user/orgs";

/// The pattern that finds the URL marked `rel="next"` in a `Link` header:
/// group 1 is the URL, which starts with `http` and ends in digits just
/// before the closing angle bracket.
pub const NEXT_LINK_PATTERN: &'static str = r#"(?i)(http\S*\d+)>;\s+(rel="next")"#;

/// The text that capture group 1 takes in the leftmost match of the regular
/// expression `pattern` in `haystack`, as the `regex` crate matches; `None`
/// where `pattern` is no regular expression, where nothing matches, or where
/// group 1 has no part in the match.
pub uninterp spec fn first_group(pattern: Seq<char>, haystack: Seq<char>) -> Option<Seq<char>>;

/// Compiles `pattern` with `regex::Regex::new`, searches `haystack` with
/// `Regex::captures` and reads group 1 with `Captures::get`. The contract
/// only names the outcome: it is `first_group` of the two texts.
#[verifier::external_body]
fn capture_first_group(pattern: &str, haystack: &str) -> (found: Option<String>)
    ensures
        opt_text(found) == first_group(pattern@, haystack@),
{
    match Regex::new(pattern) {
        Ok(re) => match re.captures(haystack) {
            Some(caps) => match caps.get(1) {
                Some(m) => Some(m.as_str().to_string()),
                None => None,
            },
            None => None,
        },
        Err(_) => None,
    }
}

/// The URL of the next page that a `Link` header names, if it names one.
pub open spec fn next_link_of(link: Option<Seq<char>>) -> Option<Seq<char>> {
    match link {
        Some(value) => first_group(NEXT_LINK_PATTERN@, value),
        None => None,
    }
}

/// The clone URLs of `repos`: the SSH address of each, with `symbol`.
pub open spec fn ssh_clone_urls(repos: Seq<GithubRepo>, symbol: Seq<char>) -> Seq<
    (Seq<char>, Seq<char>),
> {
    repos.map_values(|r: GithubRepo| (r.ssh_url@, symbol))
}

/// The repository listings of `orgs`, in the same order.
pub open spec fn listing_urls(orgs: Seq<Organization>) -> Seq<Seq<char>> {
    orgs.map_values(|o: Organization| o.repos_url@)
}

/// The texts of a sequence of listing URLs.
pub open spec fn listing_texts(urls: Seq<OrganizationRepoUrl>) -> Seq<Seq<char>> {
    urls.map_values(|u: OrganizationRepoUrl| u.0@)
}

/// A repository listing after the reply to the GET of its `request_url`: a
/// problem gives the listing up and names that URL; a page adds its
/// repositories, and the listing goes on where the `Link` header names a
/// next page.
pub open spec fn repo_paging(pages: PagesView<GithubRepo>, reply: Reply<Vec<GithubRepo>>)
    -> PagingView<GithubRepo> {
    match reply.problem(pages.request_url) {
        Some(problem) => PagingView::Failed(problem),
        None => crate::provider::turned(pages, reply.content()@, next_link_of(reply.link_text())),
    }
}

/// Whether a reply ends a repository listing: it is a problem, or a page
/// whose `Link` header names no next page.
pub open spec fn ends_listing(reply: Reply<Vec<GithubRepo>>) -> bool {
    reply.problem(Seq::empty()) is Some || next_link_of(reply.link_text()) is None
}

/// The fetch is waiting for the list of organizations.
pub struct OrgStage {
    /// The URL to get.
    pub url: String,
    /// The symbol that every clone URL will carry.
    pub symbol: String,
}

/// The fetch is waiting for a page of one organization's repositories.
pub struct RepoStage {
    /// The symbol that every clone URL will carry.
    pub symbol: String,
    /// The listings of the organizations that come after this one.
    pub pending: Vec<OrganizationRepoUrl>,
    /// The listing under way; its `request_url` is the URL to get.
    pub pages: Pages<GithubRepo>,
    /// The clone URLs of the organizations before this one.
    pub urls: Vec<CloneUrl>,
}

/// A fetch of all clone URLs, between two requests. The first two variants
/// ask for a GET and say how to decode the body; the last two are final.
pub enum GithubFetch {
    /// Get `url` and decode a list of organizations.
    Organizations(OrgStage),
    /// Get `pages.request_url` and decode a list of repositories.
    Repos(RepoStage),
    /// All organizations are read: the clone URLs, by organization in the
    /// order of the API and by page within each.
    Done(Vec<CloneUrl>),
    /// The fetch is given up.
    Failed(HttpProblem),
}

/// A `RepoStage` over character sequences.
pub struct RepoStageView {
    pub symbol: Seq<char>,
    pub pending: Seq<Seq<char>>,
    pub pages: PagesView<GithubRepo>,
    pub urls: Seq<(Seq<char>, Seq<char>)>,
}

/// A `GithubFetch` over character sequences.
pub enum GithubFetchView {
    Organizations { url: Seq<char>, symbol: Seq<char> },
    Repos(RepoStageView),
    Done(Seq<(Seq<char>, Seq<char>)>),
    Failed(Problem),
}

impl View for RepoStage {
    type V = RepoStageView;

    open spec fn view(&self) -> RepoStageView {
        RepoStageView {
            symbol: self.symbol@,
            pending: listing_texts(self.pending@),
            pages: self.pages@,
            urls: clone_urls(self.urls@),
        }
    }
}

impl View for GithubFetch {
    type V = GithubFetchView;

    open spec fn view(&self) -> GithubFetchView {
        match self {
            GithubFetch::Organizations(stage) => GithubFetchView::Organizations {
                url: stage.url@,
                symbol: stage.symbol@,
            },
            GithubFetch::Repos(stage) => GithubFetchView::Repos(stage@),
            GithubFetch::Done(urls) => GithubFetchView::Done(clone_urls(urls@)),
            GithubFetch::Failed(problem) => GithubFetchView::Failed(problem@),
        }
    }
}

/// The fetch turns to the next listing among `pending`, or is done where
/// none is left.
pub open spec fn next_listing(
    symbol: Seq<char>,
    pending: Seq<Seq<char>>,
    urls: Seq<(Seq<char>, Seq<char>)>,
) -> GithubFetchView {
    if pending.len() == 0 {
        GithubFetchView::Done(urls)
    } else {
        GithubFetchView::Repos(
            RepoStageView {
                symbol,
                pending: pending.drop_first(),
                pages: crate::provider::first_page(pending[0]),
                urls,
            },
        )
    }
}

/// The fetch after the reply to the GET of the organization list: a problem
/// ends it and names `url`; else it turns to the first organization.
pub open spec fn after_organizations(
    url: Seq<char>,
    symbol: Seq<char>,
    reply: Reply<Vec<Organization>>,
) -> GithubFetchView {
    match reply.problem(url) {
        Some(problem) => GithubFetchView::Failed(problem),
        None => next_listing(symbol, listing_urls(reply.content()@), Seq::empty()),
    }
}

/// The fetch after the reply to the GET of a page of repositories: a
/// problem ends it; a page with a next link stays with the organization;
/// the last page hands the organization's clone URLs over, behind those
/// gathered before, and turns to the next organization.
pub open spec fn after_repos(stage: RepoStageView, reply: Reply<Vec<GithubRepo>>)
    -> GithubFetchView {
    match repo_paging(stage.pages, reply) {
        PagingView::Failed(problem) => GithubFetchView::Failed(problem),
        PagingView::More(pages) => GithubFetchView::Repos(
            RepoStageView { pages, ..stage },
        ),
        PagingView::Done(repos) => next_listing(
            stage.symbol,
            stage.pending,
            stage.urls + ssh_clone_urls(repos, stage.symbol),
        ),
    }
}

/// Puts the clone URL of each of `repos` behind `urls`.
fn push_clone_urls(urls: &mut Vec<CloneUrl>, repos: &Vec<GithubRepo>, symbol: &String)
    ensures
        clone_urls(final(urls)@) == clone_urls(old(urls)@) + ssh_clone_urls(repos@, symbol@),
{
    let ghost before = clone_urls(urls@);
    let mut i: usize = 0;
    while i < repos.len()
        invariant
            i <= repos.len(),
            clone_urls(urls@) == before + ssh_clone_urls(repos@.subrange(0, i as int), symbol@),
        decreases repos.len() - i,
    {
        let ghost done = clone_urls(urls@);
        let url = CloneUrl(repos[i].ssh_url.clone(), symbol.clone());
        urls.push(url);
        proof {
            assert(ssh_clone_urls(repos@.subrange(0, i + 1), symbol@) =~= ssh_clone_urls(
                repos@.subrange(0, i as int),
                symbol@,
            ).push(url@));
            assert(done.push(url@) =~= before + ssh_clone_urls(
                repos@.subrange(0, i + 1),
                symbol@,
            ));
        }
        i = i + 1;
    }
}

/// Turns to the first listing among `pending`, or finishes with `urls`.
fn begin_next_listing(symbol: String, pending: Vec<OrganizationRepoUrl>, urls: Vec<CloneUrl>) -> (r:
    GithubFetch)
    ensures
        r@ == next_listing(symbol@, listing_texts(pending@), clone_urls(urls@)),
{
    let mut pending = pending;
    if pending.len() == 0 {
        GithubFetch::Done(urls)
    } else {
        let ghost all = pending@;
        let first = pending.remove(0);
        let pages = Pages::begin(first.0.as_str());
        proof {
            assert(listing_texts(pending@) =~= listing_texts(all).drop_first());
        }
        GithubFetch::Repos(RepoStage { symbol, pending, pages, urls })
    }
}

impl Github {
    /// A host with its token, the URL of its organization list and its
    /// symbol.
    pub fn new(token: String, orgs_url: String, symbol: Option<String>) -> (github: Github)
        ensures
            github.token == token,
            github.orgs_url == orgs_url,
            github.symbol == symbol,
    {
        Github { token, orgs_url, symbol }
    }

    /// Begins a fetch of all clone URLs, each to carry `symbol`: the first
    /// thing to get is the list of organizations at `orgs_url`.
    pub fn fetch_clone_urls(&self, symbol: &str) -> (fetch: GithubFetch)
        ensures
            fetch@ == (GithubFetchView::Organizations { url: self.orgs_url@, symbol: symbol@ }),
    {
        GithubFetch::Organizations(
            OrgStage { url: self.orgs_url.clone(), symbol: String::from_str(symbol) },
        )
    }

    /// The organizations in the reply to the one, unpaginated GET of `url`,
    /// or the problem that the reply amounts to.
    pub fn get_all_organizations(url: &str, reply: Reply<Vec<Organization>>) -> (r: Result<
        Vec<Organization>,
        HttpProblem,
    >)
        ensures
            match r {
                Ok(orgs) => reply.problem(url@) is None && orgs == reply.content(),
                Err(e) => reply.problem(url@) == Some(e@),
            },
    {
        match reply.into_page(url) {
            Ok(page) => Ok(page.body),
            Err(e) => Err(e),
        }
    }

    /// Takes the reply to the GET of `pages.request_url` into a repository
    /// listing: see `repo_paging`.
    pub fn get_all_repos(pages: Pages<GithubRepo>, reply: Reply<Vec<GithubRepo>>) -> (r: Paging<
        GithubRepo,
    >)
        ensures
            r@ == repo_paging(pages@, reply),
    {
        match reply.into_page(pages.request_url.as_str()) {
            Ok(page) => {
                let next = match &page.link {
                    Some(value) => Self::next_link(Some(value.as_str())),
                    None => Self::next_link(None),
                };
                pages.turn(page.body, next)
            },
            Err(e) => Paging::Failed(e),
        }
    }

    /// The URL of the next page that the `Link` header value names, if
    /// there is a value and it names one.
    pub fn next_link(link: Option<&str>) -> (next: Option<String>)
        ensures
            opt_text(next) == next_link_of(
                match link {
                    Some(value) => Some(value@),
                    None => None,
                },
            ),
    {
        match link {
            Some(value) => capture_first_group(NEXT_LINK_PATTERN, value),
            None => None,
        }
    }
}

impl OrgStage {
    /// Takes the reply to the GET of the organization list: see
    /// `after_organizations`.
    pub fn receive(self, reply: Reply<Vec<Organization>>) -> (fetch: GithubFetch)
        ensures
            fetch@ == after_organizations(self.url@, self.symbol@, reply),
    {
        match Github::get_all_organizations(self.url.as_str(), reply) {
            Ok(orgs) => {
                let mut pending: Vec<OrganizationRepoUrl> = Vec::new();
                let mut i: usize = 0;
                while i < orgs.len()
                    invariant
                        i <= orgs.len(),
                        listing_texts(pending@) == listing_urls(orgs@.subrange(0, i as int)),
                    decreases orgs.len() - i,
                {
                    let url = OrganizationRepoUrl(orgs[i].repos_url.clone());
                    pending.push(url);
                    assert(listing_urls(orgs@.subrange(0, i + 1)) =~= listing_urls(
                        orgs@.subrange(0, i as int),
                    ).push(url.0@));
                    i = i + 1;
                }
                assert(orgs@.subrange(0, orgs.len() as int) =~= orgs@);
                let urls: Vec<CloneUrl> = Vec::new();
                assert(clone_urls(urls@) =~= Seq::empty());
                begin_next_listing(self.symbol, pending, urls)
            },
            Err(e) => GithubFetch::Failed(e),
        }
    }
}

impl RepoStage {
    /// Takes the reply to the GET of a page of repositories: see
    /// `after_repos`.
    pub fn receive(self, reply: Reply<Vec<GithubRepo>>) -> (fetch: GithubFetch)
        ensures
            fetch@ == after_repos(self@, reply),
    {
        let RepoStage { symbol, pending, pages, urls } = self;
        match Github::get_all_repos(pages, reply) {
            Paging::Failed(e) => GithubFetch::Failed(e),
            Paging::More(pages) => GithubFetch::Repos(RepoStage { symbol, pending, pages, urls }),
            Paging::Done(repos) => {
                let mut urls = urls;
                push_clone_urls(&mut urls, &repos, &symbol);
                begin_next_listing(symbol, pending, urls)
            },
        }
    }
}

impl FileProvider for Github {
    open spec fn name_text(&self) -> Seq<char> {
        "github"@
    }

    fn name(&self) -> (name: &str) {
        "github"
    }
}

impl HttpProvider for Github {
    type Fetch = GithubFetch;

    open spec fn begins(&self, symbol: Seq<char>, fetch: GithubFetch) -> bool {
        fetch@ == (GithubFetchView::Organizations { url: self.orgs_url@, symbol })
    }

    fn request_from_remote(&self, symbol: &str) -> (fetch: GithubFetch) {
        self.fetch_clone_urls(symbol)
    }
}

impl GitUrlProvider for Github {
    open spec fn symbol_text(&self) -> Seq<char> {
        match self.symbol {
            Some(s) => s@,
            None => Seq::empty(),
        }
    }

    fn symbol(&self) -> (symbol: String) {
        match &self.symbol {
            Some(s) => s.clone(),
            None => String::new(),
        }
    }
}

/// What a repository listing has come to after `replies` are taken in
/// order, for as long as the listing asks for more.
pub open spec fn repo_listing(pages: PagesView<GithubRepo>, replies: Seq<Reply<Vec<GithubRepo>>>)
    -> PagingView<GithubRepo> {
    crate::provider::paged(
        |p: PagesView<GithubRepo>, r: Reply<Vec<GithubRepo>>| repo_paging(p, r),
        pages,
        replies,
    )
}

/// A repository listing asks for nothing more once a reply ends it: if any
/// of `replies` is a problem or a page without a next link, then after the
/// replies are taken in order the listing is done or given up.
pub proof fn lemma_repo_listing_stops(
    pages: PagesView<GithubRepo>,
    replies: Seq<Reply<Vec<GithubRepo>>>,
    k: int,
)
    requires
        0 <= k < replies.len(),
        ends_listing(replies[k]),
    ensures
        !(repo_listing(pages, replies) is More),
{
    let step = |p: PagesView<GithubRepo>, r: Reply<Vec<GithubRepo>>| repo_paging(p, r);
    let last = |r: Reply<Vec<GithubRepo>>| ends_listing(r);
    assert forall|p: PagesView<GithubRepo>, r: Reply<Vec<GithubRepo>>| #[trigger]
        last(r) implies !(#[trigger] step(p, r) is More) by {}
    crate::provider::lemma_paging_stops(step, last, pages, replies, k);
}

} // verus!
