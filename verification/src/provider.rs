//! What every provider shares: clone URLs, the error kinds, what one HTTP GET
//! brought back, and the bookkeeping of a paginated listing.
//!
//! The library performs no I/O. Whoever drives it sends the request that a
//! state names and hands the reply back; each function here and in the
//! provider modules decides what follows from that reply.

use crate::text::{
    decimal, join_lines, joinable, lemma_join_push, lemma_lines_of_join, lines, push_decimal,
    split_lines,
};
use vstd::prelude::*;
use vstd::string::*;

verus! {

/// A git remote address (field 0) and the display symbol of the provider it
/// came from (field 1, empty where none is configured).
#[derive(Debug, PartialEq, Eq)]
pub struct CloneUrl(pub String, pub String);

impl View for CloneUrl {
    type V = (Seq<char>, Seq<char>);

    open spec fn view(&self) -> (Seq<char>, Seq<char>) {
        (self.0@, self.1@)
    }
}

impl CloneUrl {
    /// A clone URL is valid when its address is not empty.
    pub open spec fn valid(&self) -> bool {
        self.0@.len() > 0
    }
}

/// The views of a sequence of clone URLs, in the same order.
pub open spec fn clone_urls(items: Seq<CloneUrl>) -> Seq<(Seq<char>, Seq<char>)> {
    items.map_values(|u: CloneUrl| u@)
}

/// Each address paired with the same symbol.
pub open spec fn with_symbol(urls: Seq<Seq<char>>, symbol: Seq<char>) -> Seq<
    (Seq<char>, Seq<char>),
> {
    urls.map_values(|u: Seq<char>| (u, symbol))
}

/// The addresses of a sequence of clone URLs.
pub open spec fn addresses(items: Seq<CloneUrl>) -> Seq<Seq<char>> {
    items.map_values(|u: CloneUrl| u.0@)
}

/// The text of an optional string.
pub open spec fn opt_text(o: Option<String>) -> Option<Seq<char>> {
    match o {
        Some(s) => Some(s@),
        None => None,
    }
}

/// Why a request to a provider's API came to nothing.
#[derive(Debug, PartialEq, Eq)]
pub enum HttpProblem {
    /// No request could be built from this URL.
    InvalidUrl(String),
    /// The request to this URL failed in transport, or was answered with a
    /// status outside 200..=299; the second field says which.
    RequestFailed(String, String),
    /// The body of the response from this URL did not have the expected
    /// shape; the second field is the decoder's message.
    DeserializationFailed(String, String),
}

/// An `HttpProblem` with its texts as character sequences.
pub enum Problem {
    InvalidUrl(Seq<char>),
    RequestFailed(Seq<char>, Seq<char>),
    DeserializationFailed(Seq<char>, Seq<char>),
}

impl View for HttpProblem {
    type V = Problem;

    open spec fn view(&self) -> Problem {
        match self {
            HttpProblem::InvalidUrl(url) => Problem::InvalidUrl(url@),
            HttpProblem::RequestFailed(url, detail) => Problem::RequestFailed(url@, detail@),
            HttpProblem::DeserializationFailed(url, detail) => Problem::DeserializationFailed(
                url@,
                detail@,
            ),
        }
    }
}

impl Problem {
    /// The one-line message shown to the user.
    pub open spec fn message(self) -> Seq<char> {
        match self {
            Problem::InvalidUrl(url) => "Invalid url '"@ + url + "'"@,
            Problem::RequestFailed(url, detail) => "HTTP request to '"@ + url + "' failed: "@
                + detail,
            Problem::DeserializationFailed(url, detail) => "Can't deserialize response from '"@
                + url + "': "@ + detail,
        }
    }
}

impl HttpProblem {
    /// The one-line message shown to the user: it names the URL and the
    /// cause.
    pub fn message(&self) -> (text: String)
        ensures
            text@ == self@.message(),
    {
        match self {
            HttpProblem::InvalidUrl(url) => {
                let mut text = String::from_str("Invalid url '");
                text.append(url.as_str());
                text.append("'");
                text
            },
            HttpProblem::RequestFailed(url, detail) => {
                let mut text = String::from_str("HTTP request to '");
                text.append(url.as_str());
                text.append("' failed: ");
                text.append(detail.as_str());
                text
            },
            HttpProblem::DeserializationFailed(url, detail) => {
                let mut text = String::from_str("Can't deserialize response from '");
                text.append(url.as_str());
                text.append("': ");
                text.append(detail.as_str());
                text
            },
        }
    }
}

/// Why a run or a part of it came to nothing.
#[derive(Debug, PartialEq, Eq)]
pub enum KloniError {
    /// The configuration names an unknown kind of provider, or no provider
    /// at all.
    InvalidConfiguration,
    /// The cache file of the provider of this name could not be opened or
    /// created.
    CacheUnavailable(String),
    /// The repository of this id has a collection of links and none of
    /// them is for SSH. Such a repository is left out; the fetch goes on.
    MissingCloneLink(i32),
    /// A request to the provider's API failed.
    Http(HttpProblem),
}

/// A `KloniError` with its texts as character sequences.
pub enum Failure {
    InvalidConfiguration,
    CacheUnavailable(Seq<char>),
    MissingCloneLink(i32),
    Http(Problem),
}

impl View for KloniError {
    type V = Failure;

    open spec fn view(&self) -> Failure {
        match self {
            KloniError::InvalidConfiguration => Failure::InvalidConfiguration,
            KloniError::CacheUnavailable(name) => Failure::CacheUnavailable(name@),
            KloniError::MissingCloneLink(id) => Failure::MissingCloneLink(*id),
            KloniError::Http(problem) => Failure::Http(problem@),
        }
    }
}

impl Failure {
    /// The one-line message shown to the user.
    pub open spec fn message(self) -> Seq<char> {
        match self {
            Failure::InvalidConfiguration =>
                "Configured context is invalid. Allowed contexts are 'github' or 'bitbucket'"@,
            Failure::CacheUnavailable(name) => "Cache file for '"@ + name
                + "' is missing. This is unexpected behaviour."@,
            Failure::MissingCloneLink(id) => "Repository "@ + decimal(id as int)
                + " has no clone link for ssh"@,
            Failure::Http(problem) => problem.message(),
        }
    }
}

impl KloniError {
    /// The one-line message shown to the user.
    pub fn message(&self) -> (text: String)
        ensures
            text@ == self@.message(),
    {
        match self {
            KloniError::InvalidConfiguration => String::from_str(
                "Configured context is invalid. Allowed contexts are 'github' or 'bitbucket'",
            ),
            KloniError::CacheUnavailable(name) => {
                let mut text = String::from_str("Cache file for '");
                text.append(name.as_str());
                text.append("' is missing. This is unexpected behaviour.");
                text
            },
            KloniError::MissingCloneLink(id) => {
                let mut text = String::from_str("Repository ");
                push_decimal(&mut text, *id);
                text.append(" has no clone link for ssh");
                text
            },
            KloniError::Http(problem) => problem.message(),
        }
    }
}

/// What one GET brought back, as far as the library's decisions read it.
/// `T` is the decoded body.
#[derive(Debug)]
pub enum Reply<T> {
    /// No request could be built from the URL.
    InvalidUrl,
    /// The request was sent and no response came; the field is the
    /// transport's message.
    Unreachable(String),
    /// A response came.
    Answer {
        /// The status code.
        status: u16,
        /// The status as it is shown in messages: code and reason.
        status_line: String,
        /// The value of the `Link` header, where the response has one that
        /// is text.
        link: Option<String>,
        /// The decoded body, or the decoder's message.
        body: Result<T, String>,
    },
}

/// Whether a status code says that the request succeeded.
pub open spec fn is_success(status: u16) -> bool {
    200 <= status < 300
}

impl<T> Reply<T> {
    /// The problem that this reply to a GET of `url` amounts to, if any: an
    /// unusable URL, a failed transport, a status outside 200..=299, or,
    /// with a good status, a body that did not decode.
    pub open spec fn problem(self, url: Seq<char>) -> Option<Problem> {
        match self {
            Reply::InvalidUrl => Some(Problem::InvalidUrl(url)),
            Reply::Unreachable(detail) => Some(Problem::RequestFailed(url, detail@)),
            Reply::Answer { status, status_line, link, body } => if !is_success(status) {
                Some(Problem::RequestFailed(url, "status: "@ + status_line@))
            } else {
                match body {
                    Ok(_) => None,
                    Err(detail) => Some(Problem::DeserializationFailed(url, detail@)),
                }
            },
        }
    }

    /// The decoded body of a reply that is no problem.
    pub open spec fn content(self) -> T {
        self->body->Ok_0
    }

    /// The `Link` header of a reply, if it is a response that has one.
    pub open spec fn link_text(self) -> Option<Seq<char>> {
        match self {
            Reply::Answer { link, .. } => opt_text(link),
            _ => None,
        }
    }

    /// Sorts a reply to a GET of `url` into the page it carries or the
    /// problem it amounts to. The problem names `url`.
    pub fn into_page(self, url: &str) -> (r: Result<Page<T>, HttpProblem>)
        ensures
            match r {
                Ok(page) => self.problem(url@) is None && page.body == self.content()
                    && opt_text(page.link) == self.link_text(),
                Err(e) => self.problem(url@) == Some(e@),
            },
    {
        match self {
            Reply::InvalidUrl => Err(HttpProblem::InvalidUrl(String::from_str(url))),
            Reply::Unreachable(detail) => Err(
                HttpProblem::RequestFailed(String::from_str(url), detail),
            ),
            Reply::Answer { status, status_line, link, body } => {
                if status < 200 || status >= 300 {
                    let mut detail = String::from_str("status: ");
                    detail.append(status_line.as_str());
                    Err(HttpProblem::RequestFailed(String::from_str(url), detail))
                } else {
                    match body {
                        Ok(content) => Ok(Page { link, body: content }),
                        Err(detail) => Err(
                            HttpProblem::DeserializationFailed(String::from_str(url), detail),
                        ),
                    }
                }
            },
        }
    }
}

/// A successful response: its `Link` header and its decoded body.
pub struct Page<T> {
    pub link: Option<String>,
    pub body: T,
}

/// A paginated listing under way.
pub struct Pages<T> {
    /// The URL of the listing, without any page cursor.
    pub base_url: String,
    /// The URL of the page to get now.
    pub request_url: String,
    /// The items of the pages read so far, in page order.
    pub items: Vec<T>,
}

/// A `Pages` with its texts as character sequences.
pub struct PagesView<T> {
    pub base_url: Seq<char>,
    pub request_url: Seq<char>,
    pub items: Seq<T>,
}

impl<T> View for Pages<T> {
    type V = PagesView<T>;

    open spec fn view(&self) -> PagesView<T> {
        PagesView { base_url: self.base_url@, request_url: self.request_url@, items: self.items@ }
    }
}

/// Where a listing stands after a reply.
pub enum Paging<T> {
    /// Another page is to be had: get `request_url` of the listing inside.
    More(Pages<T>),
    /// That was the last page; these are the items of all pages.
    Done(Vec<T>),
    /// The listing is given up.
    Failed(HttpProblem),
}

/// A `Paging` with its texts as character sequences.
pub enum PagingView<T> {
    More(PagesView<T>),
    Done(Seq<T>),
    Failed(Problem),
}

impl<T> View for Paging<T> {
    type V = PagingView<T>;

    open spec fn view(&self) -> PagingView<T> {
        match self {
            Paging::More(pages) => PagingView::More(pages@),
            Paging::Done(items) => PagingView::Done(items@),
            Paging::Failed(problem) => PagingView::Failed(problem@),
        }
    }
}

/// The first page of the listing at `url`, with nothing read yet.
pub open spec fn first_page<T>(url: Seq<char>) -> PagesView<T> {
    PagesView { base_url: url, request_url: url, items: Seq::empty() }
}

/// A listing after a page with `items` on it: where the page names a next
/// URL the listing goes on there, else it is done. Either way the items come
/// behind those read before.
pub open spec fn turned<T>(pages: PagesView<T>, items: Seq<T>, next: Option<Seq<char>>)
    -> PagingView<T> {
    match next {
        Some(url) => PagingView::More(
            PagesView { base_url: pages.base_url, request_url: url, items: pages.items + items },
        ),
        None => PagingView::Done(pages.items + items),
    }
}

impl<T> Pages<T> {
    /// Begins the listing at `url`.
    pub fn begin(url: &str) -> (pages: Pages<T>)
        ensures
            pages@ == first_page::<T>(url@),
    {
        Pages { base_url: String::from_str(url), request_url: String::from_str(url), items: Vec::new() }
    }

    /// Takes in the items of one page and moves to the next page, if the
    /// page named one.
    pub fn turn(self, items: Vec<T>, next: Option<String>) -> (r: Paging<T>)
        ensures
            r@ == turned(self@, items@, opt_text(next)),
    {
        let mut all = self.items;
        let mut items = items;
        all.append(&mut items);
        match next {
            Some(url) => Paging::More(
                Pages { base_url: self.base_url, request_url: url, items: all },
            ),
            None => Paging::Done(all),
        }
    }
}

/// What a listing has come to after the replies are taken in order, each
/// by `step`, for as long as the listing asks for more.
pub open spec fn paged<T, R>(
    step: spec_fn(PagesView<T>, R) -> PagingView<T>,
    pages: PagesView<T>,
    replies: Seq<R>,
) -> PagingView<T>
    decreases replies.len(),
{
    if replies.len() == 0 {
        PagingView::More(pages)
    } else {
        match step(pages, replies[0]) {
            PagingView::More(next) => paged(step, next, replies.drop_first()),
            other => other,
        }
    }
}

/// A listing stops at the first reply that ends it: where any reply among
/// `replies` is one after which `step` never asks for more, the listing
/// asks for nothing after them.
pub proof fn lemma_paging_stops<T, R>(
    step: spec_fn(PagesView<T>, R) -> PagingView<T>,
    last: spec_fn(R) -> bool,
    pages: PagesView<T>,
    replies: Seq<R>,
    k: int,
)
    requires
        forall|p: PagesView<T>, r: R| #[trigger] last(r) ==> !(#[trigger] step(p, r) is More),
        0 <= k < replies.len(),
        last(replies[k]),
    ensures
        !(paged(step, pages, replies) is More),
    decreases replies.len(),
{
    if k > 0 {
        match step(pages, replies[0]) {
            PagingView::More(next) => {
                lemma_paging_stops(step, last, next, replies.drop_first(), k - 1);
            },
            _ => {},
        }
    }
}

/// What the driver found of a provider's cache file.
#[derive(Debug)]
pub enum CacheFile {
    /// The file could be neither opened nor created.
    Unavailable,
    /// The file is open.
    Opened {
        /// Its length in bytes, where the file system told it.
        size: Option<u64>,
        /// Its content.
        content: String,
    },
}

/// Whether a cache file counts as empty: its length is known and is zero.
/// A file whose length could not be read counts as filled.
pub open spec fn is_empty_file(size: Option<u64>) -> bool {
    size == Some(0u64)
}

/// What a provider does about its clone URLs once its cache file is seen.
/// `F` is the provider's fetch.
pub enum Collect<F> {
    /// Nothing: the provider fails.
    Failed(KloniError),
    /// The cache holds the clone URLs; no request is made.
    Cached(Vec<CloneUrl>),
    /// The cache is empty: run this fetch, once.
    Fetch(F),
}

/// What follows a fetch that has ended.
pub enum Fetched {
    /// Write `content` to the cache file, once, then hand out `urls`.
    Store { content: String, urls: Vec<CloneUrl> },
    /// Write nothing: the provider fails.
    Abort(KloniError),
}

/// Where a provider's clone URLs come from, over character sequences.
pub enum Plan {
    /// Nowhere: the provider fails.
    Fail(Failure),
    /// From the cache: these are the clone URLs, and no request is made.
    Use(Seq<(Seq<char>, Seq<char>)>),
    /// From one fetch.
    Fetch,
}

/// What follows a fetch that has ended, over character sequences.
pub enum Ending {
    /// `content` is written to the cache file and `urls` are handed out.
    Store { content: Seq<char>, urls: Seq<(Seq<char>, Seq<char>)> },
    /// Nothing is written: the provider fails.
    Abort(Failure),
}

/// The cache policy. A provider whose cache file could not be opened
/// fails, by its name. An empty file asks for a fetch. A filled file is
/// trusted as it is, however old: each of its lines is a clone URL, and
/// carries the provider's symbol of today.
pub open spec fn cache_plan(name: Seq<char>, symbol: Seq<char>, cache: CacheFile) -> Plan {
    match cache {
        CacheFile::Unavailable => Plan::Fail(Failure::CacheUnavailable(name)),
        CacheFile::Opened { size, content } => if is_empty_file(size) {
            Plan::Fetch
        } else {
            Plan::Use(with_symbol(lines(content@), symbol))
        },
    }
}

/// What follows a fetch: clone URLs are written to the cache file, their
/// addresses joined by line feeds, and handed out; a problem fails the
/// provider and leaves the file as it was.
pub open spec fn fetch_ending(outcome: Result<Vec<CloneUrl>, HttpProblem>) -> Ending {
    match outcome {
        Ok(urls) => Ending::Store {
            content: join_lines(addresses(urls@)),
            urls: clone_urls(urls@),
        },
        Err(problem) => Ending::Abort(Failure::Http(problem@)),
    }
}

impl<F> Collect<F> {
    /// The plan that this is, without the fetch itself.
    pub open spec fn plan(self) -> Plan {
        match self {
            Collect::Failed(e) => Plan::Fail(e@),
            Collect::Cached(urls) => Plan::Use(clone_urls(urls@)),
            Collect::Fetch(_) => Plan::Fetch,
        }
    }
}

impl View for Fetched {
    type V = Ending;

    open spec fn view(&self) -> Ending {
        match self {
            Fetched::Store { content, urls } => Ending::Store {
                content: content@,
                urls: clone_urls(urls@),
            },
            Fetched::Abort(e) => Ending::Abort(e@),
        }
    }
}

/// The clone URLs that a cache file's content holds: one for each line, with
/// `symbol`.
pub fn cached_urls(content: &str, symbol: &str) -> (urls: Vec<CloneUrl>)
    ensures
        clone_urls(urls@) == with_symbol(lines(content@), symbol@),
{
    let found = split_lines(content);
    let mut urls: Vec<CloneUrl> = Vec::new();
    let mut i: usize = 0;
    while i < found.len()
        invariant
            i <= found.len(),
            urls.len() == i,
            forall|j: int| 0 <= j < i ==> (#[trigger] urls@[j])@ == (found@[j]@, symbol@),
        decreases found.len() - i,
    {
        urls.push(CloneUrl(found[i].clone(), String::from_str(symbol)));
        i = i + 1;
    }
    assert(clone_urls(urls@) =~= with_symbol(crate::text::texts(found@), symbol@));
    urls
}

/// The content of the cache file for `urls`: their addresses, one on each
/// line, joined by line feeds. The symbols are not written.
pub fn cache_content(urls: &Vec<CloneUrl>) -> (content: String)
    ensures
        content@ == join_lines(addresses(urls@)),
{
    let mut content = String::new();
    let mut i: usize = 0;
    while i < urls.len()
        invariant
            i <= urls.len(),
            content@ == join_lines(addresses(urls@.subrange(0, i as int))),
        decreases urls.len() - i,
    {
        let ghost before = addresses(urls@.subrange(0, i as int));
        if i > 0 {
            content.append("\n");
        }
        content.append(urls[i].0.as_str());
        proof {
            reveal_strlit("\n");
            lemma_join_push(before, urls@[i as int].0@);
            assert(addresses(urls@.subrange(0, i + 1)) =~= before.push(urls@[i as int].0@));
        }
        i = i + 1;
    }
    assert(urls@.subrange(0, urls.len() as int) =~= urls@);
    content
}

/// A provider that has a name, under which its cache file is kept.
pub trait FileProvider {
    /// The provider's name.
    spec fn name_text(&self) -> Seq<char>;

    /// The provider's name.
    fn name(&self) -> (name: &str)
        ensures
            name@ == self.name_text(),
    ;

    /// The clone URLs that the cache file's content holds: one for each
    /// line, with `symbol`.
    fn load_from_file(&self, content: &str, symbol: &str) -> (urls: Vec<CloneUrl>)
        ensures
            clone_urls(urls@) == with_symbol(lines(content@), symbol@),
    {
        cached_urls(content, symbol)
    }

    /// The content to write to the cache file for `clone_urls`: the
    /// addresses joined by line feeds, without the symbols.
    fn update_file(&self, clone_urls: &Vec<CloneUrl>) -> (content: String)
        ensures
            content@ == join_lines(addresses(clone_urls@)),
    {
        cache_content(clone_urls)
    }
}

/// A provider whose clone URLs can be fetched from its API.
pub trait HttpProvider {
    /// A fetch under way: what to get next, or how it ended.
    type Fetch;

    /// Whether `fetch` is the start of a fetch from this provider whose
    /// clone URLs will carry `symbol`.
    spec fn begins(&self, symbol: Seq<char>, fetch: Self::Fetch) -> bool;

    /// Begins a fetch whose clone URLs will carry `symbol`.
    fn request_from_remote(&self, symbol: &str) -> (fetch: Self::Fetch)
        ensures
            self.begins(symbol@, fetch),
    ;
}

/// A provider of clone URLs: it fetches them once and keeps them in its
/// cache file from then on.
pub trait GitUrlProvider: FileProvider + HttpProvider {
    /// The provider's display symbol, empty where none is configured.
    spec fn symbol_text(&self) -> Seq<char>;

    /// The provider's display symbol, empty where none is configured.
    fn symbol(&self) -> (symbol: String)
        ensures
            symbol@ == self.symbol_text(),
    ;

    /// Decides, from the state of the cache file, where the clone URLs come
    /// from: see `cache_plan`. Where that is a fetch, the fetch is begun
    /// with the provider's symbol.
    fn collect_clone_urls(&self, cache: CacheFile) -> (plan: Collect<Self::Fetch>)
        ensures
            plan.plan() == cache_plan(self.name_text(), self.symbol_text(), cache),
            plan matches Collect::Fetch(fetch) ==> self.begins(self.symbol_text(), fetch),
    {
        match cache {
            CacheFile::Unavailable => Collect::Failed(
                KloniError::CacheUnavailable(String::from_str(self.name())),
            ),
            CacheFile::Opened { size, content } => {
                let symbol = self.symbol();
                if crate::files::file_is_empty(size) {
                    Collect::Fetch(self.request_from_remote(symbol.as_str()))
                } else {
                    Collect::Cached(self.load_from_file(content.as_str(), symbol.as_str()))
                }
            },
        }
    }

    /// Decides what follows a fetch that has ended: see `fetch_ending`.
    fn store_fetched(&self, outcome: Result<Vec<CloneUrl>, HttpProblem>) -> (next: Fetched)
        ensures
            next@ == fetch_ending(outcome),
    {
        match outcome {
            Ok(urls) => {
                let content = self.update_file(&urls);
                Fetched::Store { content, urls }
            },
            Err(problem) => Fetched::Abort(KloniError::Http(problem)),
        }
    }
}

/// What is written to the cache comes back from it. Clone URLs that all
/// carry `symbol`, written as `cache_content` writes them and read as
/// `cached_urls` reads them with the same symbol, are the same clone URLs
/// in the same order. This holds where the addresses can be told apart in
/// the file: none holds a line feed, none but the last ends in a carriage
/// return, and the last is not empty.
pub proof fn lemma_cache_round_trip(urls: Seq<CloneUrl>, symbol: Seq<char>)
    requires
        joinable(addresses(urls)),
        forall|i: int| 0 <= i < urls.len() ==> (#[trigger] urls[i]).1@ == symbol,
    ensures
        with_symbol(lines(join_lines(addresses(urls))), symbol) == clone_urls(urls),
{
    lemma_lines_of_join(addresses(urls));
}

/// Valid clone URLs whose addresses hold neither a line feed nor a carriage
/// return can be told apart in a cache file.
pub proof fn lemma_valid_urls_joinable(urls: Seq<CloneUrl>)
    requires
        forall|i: int| 0 <= i < urls.len() ==> (#[trigger] urls[i]).valid(),
        forall|i: int|
            0 <= i < urls.len() ==> !(#[trigger] urls[i]).0@.contains('\n') && !urls[i].0@.contains(
                '\r',
            ),
    ensures
        joinable(addresses(urls)),
{
    let items = addresses(urls);
    assert forall|i: int| 0 <= i < items.len() implies items[i] == (#[trigger] urls[i]).0@ by {}
    assert forall|i: int| 0 <= i < items.len() - 1 implies crate::text::without_cr(
        #[trigger] items[i],
    ) == items[i] by {
        // An address that ended in a carriage return would hold one.
        assert(!urls[i].0@.contains('\r'));
    }
}

/// An empty cache is filled by one fetch and one write, and trusted from
/// then on. A provider that finds its cache file empty plans one fetch. A
/// fetch that ends with clone URLs is followed by one write, of their
/// addresses. A provider that then finds the file as the write left it
/// plans no fetch: it uses the clone URLs of the file, and they are the
/// fetched ones in the same order. This holds where the fetched clone URLs
/// carry the provider's symbol and their addresses can be told apart in the
/// file.
pub proof fn lemma_empty_cache_filled_once(
    name: Seq<char>,
    symbol: Seq<char>,
    empty: CacheFile,
    fetched: Vec<CloneUrl>,
    filled: CacheFile,
)
    requires
        empty is Opened,
        is_empty_file(empty->size),
        joinable(addresses(fetched@)),
        forall|i: int| 0 <= i < fetched@.len() ==> (#[trigger] fetched@[i]).1@ == symbol,
        filled is Opened,
        !is_empty_file(filled->size),
        filled->content@ == join_lines(addresses(fetched@)),
    ensures
        cache_plan(name, symbol, empty) == Plan::Fetch,
        fetch_ending(Ok(fetched)) == (Ending::Store {
            content: filled->content@,
            urls: clone_urls(fetched@),
        }),
        cache_plan(name, symbol, filled) == Plan::Use(clone_urls(fetched@)),
{
    lemma_cache_round_trip(fetched@, symbol);
}


} // verus!
