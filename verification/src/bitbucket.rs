//! The Bitbucket-style provider: a paginated list of projects, then for each
//! project a paginated list of repositories. A page says whether it is the
//! last and where the next one starts.

use crate::provider::{
    clone_urls, first_page, turned, CloneUrl, FileProvider, GitUrlProvider, HttpProblem,
    HttpProvider, KloniError, Pages, PagesView, Paging, PagingView, Problem, Reply,
};
use crate::text::{decimal, push_decimal, same_text, texts};
use vstd::prelude::*;
use vstd::string::*;

verus! {

/// One page of the project list.
#[derive(Debug)]
pub struct ProjectList {
    pub size: i32,
    pub values: Vec<Project>,
    pub is_last_page: bool,
    pub next_page_start: Option<i32>,
}

/// A project as the API lists it.
#[derive(Debug)]
pub struct Project {
    pub id: i32,
    /// The key that names the project in URLs.
    pub key: String,
    pub name: String,
    pub links: LinkList,
}

/// One page of a project's repository list.
#[derive(Debug)]
pub struct RepoList {
    pub size: i32,
    pub values: Vec<Repo>,
    pub is_last_page: bool,
    pub next_page_start: Option<i32>,
}

/// A repository as the API lists it.
#[derive(Debug)]
pub struct Repo {
    pub id: i32,
    pub name: String,
    pub links: LinkList,
}

/// The links of a project or repository, by kind. Either kind may be absent.
#[derive(Debug)]
pub struct LinkList {
    /// Where to clone from, one link for each protocol.
    pub clone: Option<Vec<Link>>,
    /// Where the item itself is shown.
    pub slf: Option<Vec<Link>>,
}

/// One link: its target, and its name where it has one.
#[derive(Debug)]
pub struct Link {
    pub href: String,
    pub name: Option<String>,
}

/// A Bitbucket-style host: the token to authenticate with, the URL that
/// lists the projects, and the display symbol.
pub struct Bitbucket {
    pub token: String,
    pub projects_url: String,
    pub symbol: Option<String>,
}

/// The path, below a host's base URL, that lists the projects.
pub const USER_PROJECTS_PATH: &'static str = "/rest/api/1.0/projects";

/// The URL of the page of the listing at `base` that starts at item
/// `start`: `base` with the one query parameter `start`.
pub open spec fn page_url(base: Seq<char>, start: int) -> Seq<char> {
    base + "?start="@ + decimal(start)
}

/// The URL to get after a page, if any: none after the last page; else the
/// page that starts where this one says the next starts, counted from the
/// listing's base URL; else, where the page does not say, the same URL
/// again.
pub open spec fn next_request(
    base_url: Seq<char>,
    request_url: Seq<char>,
    is_last_page: bool,
    next_page_start: Option<i32>,
) -> Option<Seq<char>> {
    if is_last_page {
        None
    } else {
        match next_page_start {
            Some(start) => Some(page_url(base_url, start as int)),
            None => Some(request_url),
        }
    }
}

/// The project listing after the reply to the GET of its `request_url`: a
/// problem gives the listing up and names that URL; a page adds its
/// projects, and the listing goes on unless the page is the last.
pub open spec fn project_paging(pages: PagesView<Project>, reply: Reply<ProjectList>)
    -> PagingView<Project> {
    match reply.problem(pages.request_url) {
        Some(problem) => PagingView::Failed(problem),
        None => turned(
            pages,
            reply.content().values@,
            next_request(
                pages.base_url,
                pages.request_url,
                reply.content().is_last_page,
                reply.content().next_page_start,
            ),
        ),
    }
}

/// A repository listing after the reply to the GET of its `request_url`,
/// in the same way.
pub open spec fn repo_paging(pages: PagesView<Repo>, reply: Reply<RepoList>) -> PagingView<
    Repo,
> {
    match reply.problem(pages.request_url) {
        Some(problem) => PagingView::Failed(problem),
        None => turned(
            pages,
            reply.content().values@,
            next_request(
                pages.base_url,
                pages.request_url,
                reply.content().is_last_page,
                reply.content().next_page_start,
            ),
        ),
    }
}

/// Whether a reply ends the project listing: it is a problem, or the last
/// page.
pub open spec fn ends_projects(reply: Reply<ProjectList>) -> bool {
    reply.problem(Seq::empty()) is Some || reply.content().is_last_page
}

/// Whether a reply ends a repository listing: it is a problem, or the last
/// page.
pub open spec fn ends_repos(reply: Reply<RepoList>) -> bool {
    reply.problem(Seq::empty()) is Some || reply.content().is_last_page
}

/// Whether a link is the one for SSH: its name is `ssh`.
pub open spec fn is_ssh(link: Link) -> bool {
    link.name matches Some(name) && name@ == "ssh"@
}

/// The target of the first link for SSH among `links`, if there is one.
pub open spec fn first_ssh(links: Seq<Link>) -> Option<Seq<char>>
    decreases links.len(),
{
    if links.len() == 0 {
        None
    } else if is_ssh(links[0]) {
        Some(links[0].href@)
    } else {
        first_ssh(links.drop_first())
    }
}

/// The address to clone a repository from over SSH, where its links give
/// one.
pub open spec fn ssh_address(repo: Repo) -> Option<Seq<char>> {
    match repo.links.clone {
        Some(links) => first_ssh(links@),
        None => None,
    }
}

/// The clone URLs of `repos`, in the same order: one for each repository
/// that has an SSH address, none for the others.
pub open spec fn repo_clone_urls(repos: Seq<Repo>, symbol: Seq<char>) -> Seq<
    (Seq<char>, Seq<char>),
>
    decreases repos.len(),
{
    if repos.len() == 0 {
        Seq::empty()
    } else {
        repo_clone_urls(repos.drop_last(), symbol) + match ssh_address(repos.last()) {
            Some(address) => seq![(address, symbol)],
            None => Seq::empty(),
        }
    }
}

/// The keys of `projects`, in the same order.
pub open spec fn project_keys(projects: Seq<Project>) -> Seq<Seq<char>> {
    projects.map_values(|p: Project| p.key@)
}

/// The URL that lists the repositories of the project `key`: the project
/// list's URL, the key as one more path segment, and `repos` as another.
pub open spec fn repos_url(projects_url: Seq<char>, key: Seq<char>) -> Seq<char> {
    projects_url + "/"@ + key + "/repos"@
}

/// The fetch is waiting for a page of the project list.
pub struct ProjectStage {
    /// The symbol that every clone URL will carry.
    pub symbol: String,
    /// The listing under way; its `request_url` is the URL to get and its
    /// `base_url` is the URL of the project list.
    pub pages: Pages<Project>,
}

/// The fetch is waiting for a page of one project's repositories.
pub struct RepoStage {
    /// The symbol that every clone URL will carry.
    pub symbol: String,
    /// The URL of the project list.
    pub projects_url: String,
    /// The keys of the projects that come after this one.
    pub pending: Vec<String>,
    /// The listing under way; its `request_url` is the URL to get.
    pub pages: Pages<Repo>,
    /// The clone URLs of the projects before this one.
    pub urls: Vec<CloneUrl>,
}

/// A fetch of all clone URLs, between two requests. The first two variants
/// ask for a GET and say how to decode the body; the last two are final.
pub enum BitbucketFetch {
    /// Get `pages.request_url` and decode a page of projects.
    Projects(ProjectStage),
    /// Get `pages.request_url` and decode a page of repositories.
    Repos(RepoStage),
    /// All projects are read: the clone URLs, by project in the order of
    /// the API and by page within each.
    Done(Vec<CloneUrl>),
    /// The fetch is given up.
    Failed(HttpProblem),
}

/// A `ProjectStage` over character sequences.
pub struct ProjectStageView {
    pub symbol: Seq<char>,
    pub pages: PagesView<Project>,
}

/// A `RepoStage` over character sequences.
pub struct RepoStageView {
    pub symbol: Seq<char>,
    pub projects_url: Seq<char>,
    pub pending: Seq<Seq<char>>,
    pub pages: PagesView<Repo>,
    pub urls: Seq<(Seq<char>, Seq<char>)>,
}

/// A `BitbucketFetch` over character sequences.
pub enum BitbucketFetchView {
    Projects(ProjectStageView),
    Repos(RepoStageView),
    Done(Seq<(Seq<char>, Seq<char>)>),
    Failed(Problem),
}

impl View for ProjectStage {
    type V = ProjectStageView;

    open spec fn view(&self) -> ProjectStageView {
        ProjectStageView { symbol: self.symbol@, pages: self.pages@ }
    }
}

impl View for RepoStage {
    type V = RepoStageView;

    open spec fn view(&self) -> RepoStageView {
        RepoStageView {
            symbol: self.symbol@,
            projects_url: self.projects_url@,
            pending: texts(self.pending@),
            pages: self.pages@,
            urls: clone_urls(self.urls@),
        }
    }
}

impl View for BitbucketFetch {
    type V = BitbucketFetchView;

    open spec fn view(&self) -> BitbucketFetchView {
        match self {
            BitbucketFetch::Projects(stage) => BitbucketFetchView::Projects(stage@),
            BitbucketFetch::Repos(stage) => BitbucketFetchView::Repos(stage@),
            BitbucketFetch::Done(urls) => BitbucketFetchView::Done(clone_urls(urls@)),
            BitbucketFetch::Failed(problem) => BitbucketFetchView::Failed(problem@),
        }
    }
}

/// The fetch turns to the first project among `pending`, or is done where
/// none is left.
pub open spec fn next_project(
    symbol: Seq<char>,
    projects_url: Seq<char>,
    pending: Seq<Seq<char>>,
    urls: Seq<(Seq<char>, Seq<char>)>,
) -> BitbucketFetchView {
    if pending.len() == 0 {
        BitbucketFetchView::Done(urls)
    } else {
        BitbucketFetchView::Repos(
            RepoStageView {
                symbol,
                projects_url,
                pending: pending.drop_first(),
                pages: first_page(repos_url(projects_url, pending[0])),
                urls,
            },
        )
    }
}

/// The fetch after the reply to the GET of a page of projects: a problem
/// ends it; a page that is not the last stays with the project list; the
/// last page turns to the repositories of the first project.
pub open spec fn after_projects(stage: ProjectStageView, reply: Reply<ProjectList>)
    -> BitbucketFetchView {
    match project_paging(stage.pages, reply) {
        PagingView::Failed(problem) => BitbucketFetchView::Failed(problem),
        PagingView::More(pages) => BitbucketFetchView::Projects(
            ProjectStageView { pages, ..stage },
        ),
        PagingView::Done(projects) => next_project(
            stage.symbol,
            stage.pages.base_url,
            project_keys(projects),
            Seq::empty(),
        ),
    }
}

/// The fetch after the reply to the GET of a page of repositories: a
/// problem ends it; a page that is not the last stays with the project; the
/// last page hands the project's clone URLs over, behind those gathered
/// before, and turns to the next project.
pub open spec fn after_repos(stage: RepoStageView, reply: Reply<RepoList>) -> BitbucketFetchView {
    match repo_paging(stage.pages, reply) {
        PagingView::Failed(problem) => BitbucketFetchView::Failed(problem),
        PagingView::More(pages) => BitbucketFetchView::Repos(RepoStageView { pages, ..stage }),
        PagingView::Done(repos) => next_project(
            stage.symbol,
            stage.projects_url,
            stage.pending,
            stage.urls + repo_clone_urls(repos, stage.symbol),
        ),
    }
}

/// The URL to get after a page, if any: see `next_request`.
fn next_request_url(
    base_url: &String,
    request_url: &String,
    is_last_page: bool,
    next_page_start: Option<i32>,
) -> (next: Option<String>)
    ensures
        crate::provider::opt_text(next) == next_request(
            base_url@,
            request_url@,
            is_last_page,
            next_page_start,
        ),
{
    if is_last_page {
        None
    } else {
        match next_page_start {
            Some(start) => Some(Bitbucket::page_url(base_url.as_str(), start)),
            None => Some(request_url.clone()),
        }
    }
}

/// Puts the clone URL of each of `repos` that has an SSH address behind
/// `urls`.
fn push_clone_urls(urls: &mut Vec<CloneUrl>, repos: &Vec<Repo>, symbol: &String)
    ensures
        clone_urls(final(urls)@) == clone_urls(old(urls)@) + repo_clone_urls(repos@, symbol@),
{
    let ghost before = clone_urls(urls@);
    let mut i: usize = 0;
    while i < repos.len()
        invariant
            i <= repos.len(),
            clone_urls(urls@) == before + repo_clone_urls(repos@.subrange(0, i as int), symbol@),
        decreases repos.len() - i,
    {
        let ghost done = clone_urls(urls@);
        let ghost upto = repos@.subrange(0, i + 1);
        assert(upto.drop_last() =~= repos@.subrange(0, i as int));
        match repos[i].ssh_clone_url() {
            Ok(Some(address)) => {
                let url = CloneUrl(address, symbol.clone());
                urls.push(url);
                assert(done.push(url@) =~= before + repo_clone_urls(upto, symbol@));
            },
            // A repository without an SSH address is left out.
            _ => {},
        }
        i = i + 1;
    }
    assert(repos@.subrange(0, repos.len() as int) =~= repos@);
}

/// Turns to the first project among `pending`, or finishes with `urls`.
fn begin_next_project(
    symbol: String,
    projects_url: String,
    pending: Vec<String>,
    urls: Vec<CloneUrl>,
) -> (r: BitbucketFetch)
    ensures
        r@ == next_project(symbol@, projects_url@, texts(pending@), clone_urls(urls@)),
{
    let mut pending = pending;
    if pending.len() == 0 {
        BitbucketFetch::Done(urls)
    } else {
        let ghost all = pending@;
        let key = pending.remove(0);
        let listing = Bitbucket::repos_url(projects_url.as_str(), key.as_str());
        let pages = Pages::begin(listing.as_str());
        proof {
            assert(texts(pending@) =~= texts(all).drop_first());
        }
        BitbucketFetch::Repos(RepoStage { symbol, projects_url, pending, pages, urls })
    }
}

impl Link {
    /// Whether this is the link for SSH.
    pub fn is_ssh(&self) -> (r: bool)
        ensures
            r == is_ssh(*self),
    {
        match &self.name {
            Some(name) => same_text(name.as_str(), "ssh"),
            None => false,
        }
    }
}

impl Repo {
    /// The address to clone this repository from over SSH. A repository
    /// without a collection of clone links has none, which is no error; one
    /// with a collection that holds no SSH link is reported by its id.
    pub fn ssh_clone_url(&self) -> (r: Result<Option<String>, KloniError>)
        ensures
            match r {
                Ok(found) => crate::provider::opt_text(found) == ssh_address(*self) && (
                found is None ==> self.links.clone is None),
                Err(e) => self.links.clone is Some && ssh_address(*self) is None && e
                    == KloniError::MissingCloneLink(self.id),
            },
    {
        match &self.links.clone {
            Some(links) => {
                let mut i: usize = 0;
                assert(links@.subrange(0, links.len() as int) =~= links@);
                while i < links.len()
                    invariant
                        i <= links.len(),
                        self.links.clone == Some(*links),
                        first_ssh(links@) == first_ssh(links@.subrange(i as int, links.len() as int)),
                    decreases links.len() - i,
                {
                    let ghost rest = links@.subrange(i as int, links.len() as int);
                    assert(rest.drop_first() =~= links@.subrange(i + 1, links.len() as int));
                    if links[i].is_ssh() {
                        let address = links[i].href.clone();
                        return Ok(Some(address));
                    }
                    i = i + 1;
                }
                Err(KloniError::MissingCloneLink(self.id))
            },
            None => Ok(None),
        }
    }
}

impl Bitbucket {
    /// A host with its token, the URL of its project list and its symbol.
    pub fn new(token: String, projects_url: String, symbol: Option<String>) -> (bitbucket: Bitbucket)
        ensures
            bitbucket.token == token,
            bitbucket.projects_url == projects_url,
            bitbucket.symbol == symbol,
    {
        Bitbucket { token, projects_url, symbol }
    }

    /// The URL of the page of the listing at `base` that starts at item
    /// `start`. It is made from the listing's own URL each time, so that no
    /// earlier `start` stays in it.
    pub fn page_url(base: &str, start: i32) -> (url: String)
        ensures
            url@ == page_url(base@, start as int),
    {
        let mut url = String::from_str(base);
        url.append("?start=");
        push_decimal(&mut url, start);
        url
    }

    /// The URL that lists the repositories of the project `key`.
    pub fn repos_url(projects_url: &str, key: &str) -> (url: String)
        ensures
            url@ == repos_url(projects_url@, key@),
    {
        let mut url = String::from_str(projects_url);
        url.append("/");
        url.append(key);
        url.append("/repos");
        url
    }

    /// Begins a fetch of all clone URLs, each to carry `symbol`: the first
    /// thing to get is the first page of the project list.
    pub fn fetch_clone_urls(&self, symbol: &str) -> (fetch: BitbucketFetch)
        ensures
            fetch@ == BitbucketFetchView::Projects(
                ProjectStageView { symbol: symbol@, pages: first_page(self.projects_url@) },
            ),
    {
        BitbucketFetch::Projects(
            ProjectStage {
                symbol: String::from_str(symbol),
                pages: Pages::begin(self.projects_url.as_str()),
            },
        )
    }

    /// Takes the reply to the GET of `pages.request_url` into the project
    /// listing: see `project_paging`.
    pub fn get_all_projects(pages: Pages<Project>, reply: Reply<ProjectList>) -> (r: Paging<
        Project,
    >)
        ensures
            r@ == project_paging(pages@, reply),
    {
        match reply.into_page(pages.request_url.as_str()) {
            Ok(page) => {
                let next = next_request_url(
                    &pages.base_url,
                    &pages.request_url,
                    page.body.is_last_page,
                    page.body.next_page_start,
                );
                pages.turn(page.body.values, next)
            },
            Err(e) => Paging::Failed(e),
        }
    }

    /// Takes the reply to the GET of `pages.request_url` into a repository
    /// listing: see `repo_paging`.
    pub fn get_all_repos(pages: Pages<Repo>, reply: Reply<RepoList>) -> (r: Paging<Repo>)
        ensures
            r@ == repo_paging(pages@, reply),
    {
        match reply.into_page(pages.request_url.as_str()) {
            Ok(page) => {
                let next = next_request_url(
                    &pages.base_url,
                    &pages.request_url,
                    page.body.is_last_page,
                    page.body.next_page_start,
                );
                pages.turn(page.body.values, next)
            },
            Err(e) => Paging::Failed(e),
        }
    }
}

impl ProjectStage {
    /// Takes the reply to the GET of a page of projects: see
    /// `after_projects`.
    pub fn receive(self, reply: Reply<ProjectList>) -> (fetch: BitbucketFetch)
        ensures
            fetch@ == after_projects(self@, reply),
    {
        let ProjectStage { symbol, pages } = self;
        let projects_url = pages.base_url.clone();
        match Bitbucket::get_all_projects(pages, reply) {
            Paging::Failed(e) => BitbucketFetch::Failed(e),
            Paging::More(pages) => BitbucketFetch::Projects(ProjectStage { symbol, pages }),
            Paging::Done(projects) => {
                let mut pending: Vec<String> = Vec::new();
                let mut i: usize = 0;
                while i < projects.len()
                    invariant
                        i <= projects.len(),
                        texts(pending@) == project_keys(projects@.subrange(0, i as int)),
                    decreases projects.len() - i,
                {
                    let key = projects[i].key.clone();
                    pending.push(key);
                    assert(project_keys(projects@.subrange(0, i + 1)) =~= project_keys(
                        projects@.subrange(0, i as int),
                    ).push(key@));
                    i = i + 1;
                }
                assert(projects@.subrange(0, projects.len() as int) =~= projects@);
                let urls: Vec<CloneUrl> = Vec::new();
                assert(clone_urls(urls@) =~= Seq::empty());
                begin_next_project(symbol, projects_url, pending, urls)
            },
        }
    }
}

impl RepoStage {
    /// Takes the reply to the GET of a page of repositories: see
    /// `after_repos`.
    pub fn receive(self, reply: Reply<RepoList>) -> (fetch: BitbucketFetch)
        ensures
            fetch@ == after_repos(self@, reply),
    {
        let RepoStage { symbol, projects_url, pending, pages, urls } = self;
        match Bitbucket::get_all_repos(pages, reply) {
            Paging::Failed(e) => BitbucketFetch::Failed(e),
            Paging::More(pages) => BitbucketFetch::Repos(
                RepoStage { symbol, projects_url, pending, pages, urls },
            ),
            Paging::Done(repos) => {
                let mut urls = urls;
                push_clone_urls(&mut urls, &repos, &symbol);
                begin_next_project(symbol, projects_url, pending, urls)
            },
        }
    }
}

impl FileProvider for Bitbucket {
    open spec fn name_text(&self) -> Seq<char> {
        "bitbucket"@
    }

    fn name(&self) -> (name: &str) {
        "bitbucket"
    }
}

impl HttpProvider for Bitbucket {
    type Fetch = BitbucketFetch;

    open spec fn begins(&self, symbol: Seq<char>, fetch: BitbucketFetch) -> bool {
        fetch@ == BitbucketFetchView::Projects(
            ProjectStageView { symbol, pages: first_page(self.projects_url@) },
        )
    }

    fn request_from_remote(&self, symbol: &str) -> (fetch: BitbucketFetch) {
        self.fetch_clone_urls(symbol)
    }
}

impl GitUrlProvider for Bitbucket {
    open spec fn symbol_text(&self) -> Seq<char> {
        match self.symbol {
            Some(s) => s@,
            None => Seq::empty(),
        }
    }

    fn symbol(&self) -> (symbol: String) {
        match &self.symbol {
            Some(s) => s.clone(),
            None => String::new(),
        }
    }
}

/// What the project listing has come to after `replies` are taken in
/// order, for as long as the listing asks for more.
pub open spec fn project_listing(pages: PagesView<Project>, replies: Seq<Reply<ProjectList>>)
    -> PagingView<Project> {
    crate::provider::paged(
        |p: PagesView<Project>, r: Reply<ProjectList>| project_paging(p, r),
        pages,
        replies,
    )
}

/// What a repository listing has come to after `replies` are taken in
/// order, for as long as the listing asks for more.
pub open spec fn repo_listing(pages: PagesView<Repo>, replies: Seq<Reply<RepoList>>)
    -> PagingView<Repo> {
    crate::provider::paged(
        |p: PagesView<Repo>, r: Reply<RepoList>| repo_paging(p, r),
        pages,
        replies,
    )
}

/// The project listing asks for nothing more once a reply ends it: if any
/// of `replies` is a problem or a last page, then after the replies are
/// taken in order the listing is done or given up.
pub proof fn lemma_project_listing_stops(
    pages: PagesView<Project>,
    replies: Seq<Reply<ProjectList>>,
    k: int,
)
    requires
        0 <= k < replies.len(),
        ends_projects(replies[k]),
    ensures
        !(project_listing(pages, replies) is More),
{
    let step = |p: PagesView<Project>, r: Reply<ProjectList>| project_paging(p, r);
    let last = |r: Reply<ProjectList>| ends_projects(r);
    assert forall|p: PagesView<Project>, r: Reply<ProjectList>| #[trigger]
        last(r) implies !(#[trigger] step(p, r) is More) by {}
    crate::provider::lemma_paging_stops(step, last, pages, replies, k);
}

/// A repository listing asks for nothing more once a reply ends it, in the
/// same way.
pub proof fn lemma_repo_listing_stops(
    pages: PagesView<Repo>,
    replies: Seq<Reply<RepoList>>,
    k: int,
)
    requires
        0 <= k < replies.len(),
        ends_repos(replies[k]),
    ensures
        !(repo_listing(pages, replies) is More),
{
    let step = |p: PagesView<Repo>, r: Reply<RepoList>| repo_paging(p, r);
    let last = |r: Reply<RepoList>| ends_repos(r);
    assert forall|p: PagesView<Repo>, r: Reply<RepoList>| #[trigger] last(r) implies !(
    #[trigger] step(p, r) is More) by {}
    crate::provider::lemma_paging_stops(step, last, pages, replies, k);
}

/// The page cursor is always put on the listing's own URL. After a page of
/// the listing at `url` that says the next page starts at `a`, the URL to
/// get is `url` with `start=a`; after a page from there that says `b`, it
/// is `url` with `start=b`, and `start=a` is gone.
pub proof fn lemma_cursor_on_base_url(
    url: Seq<char>,
    first: Reply<ProjectList>,
    second: Reply<ProjectList>,
    a: i32,
    b: i32,
)
    requires
        first.problem(Seq::empty()) is None,
        !first.content().is_last_page,
        first.content().next_page_start == Some(a),
        second.problem(Seq::empty()) is None,
        !second.content().is_last_page,
        second.content().next_page_start == Some(b),
    ensures
        project_paging(first_page(url), first) is More,
        project_paging(first_page(url), first)->More_0.base_url == url,
        project_paging(first_page(url), first)->More_0.request_url == url + "?start="@ + decimal(
            a as int,
        ),
        project_paging(project_paging(first_page(url), first)->More_0, second) is More,
        project_paging(project_paging(first_page(url), first)->More_0, second)->More_0.request_url
            == url + "?start="@ + decimal(b as int),
{
}

/// The page cursor of a repository listing is put on the listing's own URL
/// in the same way.
pub proof fn lemma_repo_cursor_on_base_url(
    url: Seq<char>,
    first: Reply<RepoList>,
    second: Reply<RepoList>,
    a: i32,
    b: i32,
)
    requires
        first.problem(Seq::empty()) is None,
        !first.content().is_last_page,
        first.content().next_page_start == Some(a),
        second.problem(Seq::empty()) is None,
        !second.content().is_last_page,
        second.content().next_page_start == Some(b),
    ensures
        repo_paging(first_page(url), first) is More,
        repo_paging(first_page(url), first)->More_0.base_url == url,
        repo_paging(first_page(url), first)->More_0.request_url == url + "?start="@ + decimal(
            a as int,
        ),
        repo_paging(repo_paging(first_page(url), first)->More_0, second) is More,
        repo_paging(repo_paging(first_page(url), first)->More_0, second)->More_0.request_url
            == url + "?start="@ + decimal(b as int),
{
}

} // verus!
