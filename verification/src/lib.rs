//! Collects the git clone URLs that a user can reach on GitHub-style and
//! Bitbucket-style hosts, keeps them in one cache file for each host, and
//! prepares them for a selector.
//!
//! The library decides and computes; it performs no I/O. A driver sends the
//! requests and reads and writes the files that the library's states name.

pub mod bitbucket;
pub mod files;
pub mod github;
pub mod provider;
pub mod text;

use crate::bitbucket::{Bitbucket, BitbucketFetch, USER_PROJECTS_PATH};
use crate::files::config::{Config, Type};
use crate::github::{Github, GithubFetch, USER_ORGS_PATH};
use crate::provider::{
    cache_plan, clone_urls, fetch_ending, CacheFile, CloneUrl, Collect, Failure, Fetched,
    FileProvider, GitUrlProvider, HttpProblem, HttpProvider, KloniError,
};
use crate::text::{
    after_last, chars_of, ends_with, find_from, first_at, join_lines, last_at, lemma_first_at,
    lemma_first_at_is, lemma_join_push, lemma_last_at,
};
use vstd::prelude::*;
use vstd::string::*;

verus! {

/// A configured host, of one of the kinds that the library knows.
pub enum Host {
    Github(Github),
    Bitbucket(Bitbucket),
}

/// A fetch under way on a host of either kind.
pub enum HostFetch {
    Github(GithubFetch),
    Bitbucket(BitbucketFetch),
}

impl Host {
    /// The name of the host's kind, under which its cache file is kept.
    pub open spec fn name_text(&self) -> Seq<char> {
        match self {
            Host::Github(github) => github.name_text(),
            Host::Bitbucket(bitbucket) => bitbucket.name_text(),
        }
    }

    /// The host's display symbol, empty where none is configured.
    pub open spec fn symbol_text(&self) -> Seq<char> {
        match self {
            Host::Github(github) => github.symbol_text(),
            Host::Bitbucket(bitbucket) => bitbucket.symbol_text(),
        }
    }

    /// Whether `fetch` is the start of a fetch from this host whose clone
    /// URLs will carry the host's symbol.
    pub open spec fn begins(&self, fetch: HostFetch) -> bool {
        match (self, fetch) {
            (Host::Github(github), HostFetch::Github(f)) => github.begins(github.symbol_text(), f),
            (Host::Bitbucket(bitbucket), HostFetch::Bitbucket(f)) => bitbucket.begins(
                bitbucket.symbol_text(),
                f,
            ),
            _ => false,
        }
    }

    /// The name of the host's kind, under which its cache file is kept.
    pub fn name(&self) -> (name: &str)
        ensures
            name@ == self.name_text(),
    {
        match self {
            Host::Github(github) => github.name(),
            Host::Bitbucket(bitbucket) => bitbucket.name(),
        }
    }

    /// The host's display symbol, empty where none is configured.
    pub fn symbol(&self) -> (symbol: String)
        ensures
            symbol@ == self.symbol_text(),
    {
        match self {
            Host::Github(github) => github.symbol(),
            Host::Bitbucket(bitbucket) => bitbucket.symbol(),
        }
    }

    /// Decides, from the state of the cache file, where the host's clone
    /// URLs come from, by the cache policy. Where that is a fetch, the fetch
    /// is begun with the host's symbol.
    pub fn collect_clone_urls(&self, cache: CacheFile) -> (plan: Collect<HostFetch>)
        ensures
            plan.plan() == cache_plan(self.name_text(), self.symbol_text(), cache),
            plan matches Collect::Fetch(fetch) ==> self.begins(fetch),
    {
        match self {
            Host::Github(github) => match github.collect_clone_urls(cache) {
                Collect::Failed(e) => Collect::Failed(e),
                Collect::Cached(urls) => Collect::Cached(urls),
                Collect::Fetch(fetch) => Collect::Fetch(HostFetch::Github(fetch)),
            },
            Host::Bitbucket(bitbucket) => match bitbucket.collect_clone_urls(cache) {
                Collect::Failed(e) => Collect::Failed(e),
                Collect::Cached(urls) => Collect::Cached(urls),
                Collect::Fetch(fetch) => Collect::Fetch(HostFetch::Bitbucket(fetch)),
            },
        }
    }

    /// Decides what follows a fetch that has ended: clone URLs are written
    /// to the cache file and handed out; a problem is passed on, and nothing
    /// is written.
    pub fn store_fetched(&self, outcome: Result<Vec<CloneUrl>, HttpProblem>) -> (next: Fetched)
        ensures
            next@ == fetch_ending(outcome),
    {
        match self {
            Host::Github(github) => github.store_fetched(outcome),
            Host::Bitbucket(bitbucket) => bitbucket.store_fetched(outcome),
        }
    }
}

/// The text of an optional string, empty where there is none.
pub open spec fn text_or_empty(o: Option<String>) -> Seq<char> {
    match o {
        Some(s) => s@,
        None => Seq::empty(),
    }
}

/// Whether `host` is what the configuration entry `entry` asks for: a host
/// of the entry's kind, with the entry's token and symbol, whose first URL
/// is the entry's base URL followed by the path of that kind's API.
pub open spec fn host_of(host: Host, entry: crate::files::config::Provider) -> bool {
    match entry.provider {
        Type::github => host matches Host::Github(github) && github.token@ == entry.token@
            && github.orgs_url@ == entry.base_url@ + USER_ORGS_PATH@ && github.symbol_text()
            == text_or_empty(entry.symbol),
        Type::bitbucket => host matches Host::Bitbucket(bitbucket) && bitbucket.token@
            == entry.token@ && bitbucket.projects_url@ == entry.base_url@ + USER_PROJECTS_PATH@
            && bitbucket.symbol_text() == text_or_empty(entry.symbol),
    }
}

/// A copy of an optional string.
fn copy_of(o: &Option<String>) -> (r: Option<String>)
    ensures
        r is Some == o is Some,
        text_or_empty(r) == text_or_empty(*o),
{
    match o {
        Some(s) => Some(s.clone()),
        None => None,
    }
}

/// The hosts that a configuration asks for, in the configuration's order.
/// A configuration without providers is invalid.
pub fn clone_url_provider_by_config(config: &Config) -> (r: Result<Vec<Host>, KloniError>)
    ensures
        match r {
            Ok(hosts) => config.valid() && hosts@.len() == config.providers@.len() && forall|
                i: int,
            |
                0 <= i < hosts@.len() ==> host_of(#[trigger] hosts@[i], config.providers@[i]),
            Err(e) => !config.valid() && e@ == Failure::InvalidConfiguration,
        },
{
    match Config::validate_config(config) {
        Err(e) => Err(e),
        Ok(_) => {
            let mut hosts: Vec<Host> = Vec::new();
            let mut i: usize = 0;
            while i < config.providers.len()
                invariant
                    i <= config.providers.len(),
                    hosts@.len() == i,
                    forall|j: int|
                        0 <= j < i ==> host_of(#[trigger] hosts@[j], config.providers@[j]),
                decreases config.providers.len() - i,
            {
                let entry = &config.providers[i];
                let mut url = entry.base_url.clone();
                let host = match entry.provider {
                    Type::github => {
                        url.append(USER_ORGS_PATH);
                        Host::Github(Github::new(entry.token.clone(), url, copy_of(&entry.symbol)))
                    },
                    Type::bitbucket => {
                        url.append(USER_PROJECTS_PATH);
                        Host::Bitbucket(
                            Bitbucket::new(entry.token.clone(), url, copy_of(&entry.symbol)),
                        )
                    },
                };
                hosts.push(host);
                i = i + 1;
            }
            Ok(hosts)
        },
    }
}

/// The clone URLs of a run so far, with what one more host gave: its clone
/// URLs come behind those of the hosts before it; its failure is the
/// failure of the whole run, and nothing gathered before is kept.
pub open spec fn gathered(
    urls: Seq<(Seq<char>, Seq<char>)>,
    outcome: Result<Vec<CloneUrl>, KloniError>,
) -> Result<Seq<(Seq<char>, Seq<char>)>, Failure> {
    match outcome {
        Ok(more) => Ok(urls + clone_urls(more@)),
        Err(e) => Err(e@),
    }
}

/// Takes what one more host gave into the clone URLs of a run: see
/// `gathered`.
pub fn gather(urls: Vec<CloneUrl>, outcome: Result<Vec<CloneUrl>, KloniError>) -> (r: Result<
    Vec<CloneUrl>,
    KloniError,
>)
    ensures
        match r {
            Ok(all) => gathered(clone_urls(urls@), outcome) == Ok::<
                Seq<(Seq<char>, Seq<char>)>,
                Failure,
            >(clone_urls(all@)),
            Err(e) => gathered(clone_urls(urls@), outcome) == Err::<
                Seq<(Seq<char>, Seq<char>)>,
                Failure,
            >(e@),
        },
{
    match outcome {
        Ok(more) => {
            let mut all = urls;
            let mut more = more;
            let ghost second = more@;
            all.append(&mut more);
            assert(clone_urls(all@) =~= clone_urls(urls@) + clone_urls(second));
            Ok(all)
        },
        Err(e) => Err(e),
    }
}

/// The clone URLs of a whole run, from what each host gave, in the order in
/// which the hosts were asked.
pub open spec fn gathered_all(outcomes: Seq<Result<Vec<CloneUrl>, KloniError>>) -> Result<
    Seq<(Seq<char>, Seq<char>)>,
    Failure,
>
    decreases outcomes.len(),
{
    if outcomes.len() == 0 {
        Ok(Seq::empty())
    } else {
        match gathered_all(outcomes.drop_last()) {
            Ok(urls) => gathered(urls, outcomes.last()),
            Err(e) => Err(e),
        }
    }
}

/// A run in which no host fails has clone URLs.
pub proof fn lemma_run_without_failure(outcomes: Seq<Result<Vec<CloneUrl>, KloniError>>)
    requires
        forall|j: int| 0 <= j < outcomes.len() ==> outcomes[j] is Ok,
    ensures
        gathered_all(outcomes) is Ok,
    decreases outcomes.len(),
{
    if outcomes.len() > 0 {
        lemma_run_without_failure(outcomes.drop_last());
    }
}

/// A run fails as the first host that fails: whatever the hosts before it
/// gave is dropped, and whatever the hosts after it would give is not
/// looked at.
pub proof fn lemma_first_failure_ends_run(
    outcomes: Seq<Result<Vec<CloneUrl>, KloniError>>,
    k: int,
)
    requires
        0 <= k < outcomes.len(),
        outcomes[k] is Err,
        forall|j: int| 0 <= j < k ==> outcomes[j] is Ok,
    ensures
        gathered_all(outcomes) == Err::<Seq<(Seq<char>, Seq<char>)>, Failure>(
            outcomes[k]->Err_0@,
        ),
    decreases outcomes.len(),
{
    let before = outcomes.drop_last();
    if k == outcomes.len() - 1 {
        lemma_run_without_failure(before);
    } else {
        lemma_first_failure_ends_run(before, k);
    }
}

/// The entry that the selector shows for a clone URL: the symbol, a bar
/// between two spaces, and the address; or the address alone where the
/// symbol is empty.
pub open spec fn selector_entry(url: (Seq<char>, Seq<char>)) -> Seq<char> {
    if url.1.len() > 0 {
        url.1 + " | "@ + url.0
    } else {
        url.0
    }
}

/// The selector's entries for a sequence of clone URLs.
pub open spec fn selector_entries(urls: Seq<CloneUrl>) -> Seq<Seq<char>> {
    urls.map_values(|u: CloneUrl| selector_entry(u@))
}

/// The text that the selector reads: one entry for each clone URL, joined
/// by line feeds.
pub fn selector_lines(clone_urls: &Vec<CloneUrl>) -> (text: String)
    ensures
        text@ == join_lines(selector_entries(clone_urls@)),
{
    let mut text = String::new();
    let mut i: usize = 0;
    while i < clone_urls.len()
        invariant
            i <= clone_urls.len(),
            text@ == join_lines(selector_entries(clone_urls@.subrange(0, i as int))),
        decreases clone_urls.len() - i,
    {
        let ghost before = selector_entries(clone_urls@.subrange(0, i as int));
        if i > 0 {
            text.append("\n");
        }
        let url = &clone_urls[i];
        if !url.1.as_str().is_empty() {
            text.append(url.1.as_str());
            text.append(" | ");
        }
        text.append(url.0.as_str());
        proof {
            reveal_strlit("\n");
            let entry = selector_entry(url@);
            lemma_join_push(before, entry);
            assert(selector_entries(clone_urls@.subrange(0, i + 1)) =~= before.push(entry));
        }
        i = i + 1;
    }
    assert(clone_urls@.subrange(0, clone_urls.len() as int) =~= clone_urls@);
    text
}

/// The part of an address behind its last slash, or all of it where it has
/// none.
pub open spec fn last_segment(url: Seq<char>) -> Seq<char> {
    url.subrange(last_at(url, '/') + 1, url.len() as int)
}

/// The name of the folder that a clone of `url` goes into: the last segment
/// of the address without its ending `.git`.
pub open spec fn folder_name(url: Seq<char>) -> Seq<char> {
    last_segment(url).subrange(0, last_segment(url).len() - 4)
}

/// The name of the folder that a clone of `url` goes into. The address must
/// end in `.git` behind its last slash.
pub fn folder_name_for_url(url: &str) -> (name: &str)
    requires
        ends_with(last_segment(url@), ".git"@),
    ensures
        name@ == folder_name(url@),
{
    let chars = chars_of(url);
    let start = after_last(&chars, '/');
    let n = chars.len();
    proof {
        reveal_strlit(".git");
        lemma_last_at(url@, '/');
    }
    let name = url.substring_char(start, n - 4);
    name
}

/// Whether a selector entry starts with a symbol: it holds a bar.
pub open spec fn has_symbol_prefix(entry: Seq<char>) -> bool {
    first_at(entry, '|') < entry.len()
}

/// Whether the symbol can be cut off a selector entry: where the entry
/// holds a bar, one more character follows the first bar and that character
/// takes one byte.
pub open spec fn symbol_prefix_cuts(entry: Seq<char>) -> bool {
    has_symbol_prefix(entry) ==> first_at(entry, '|') + 1 < entry.len() && (entry[first_at(
        entry,
        '|',
    ) + 1] as u32) < 128
}

/// A selector entry without its symbol: what stands behind the first bar
/// and the character after it, or the whole entry where it holds no bar.
pub open spec fn without_symbol_prefix(entry: Seq<char>) -> Seq<char> {
    if has_symbol_prefix(entry) {
        entry.subrange(first_at(entry, '|') + 2, entry.len() as int)
    } else {
        entry
    }
}

/// Cuts the symbol off a selector entry: see `without_symbol_prefix`.
pub fn remove_symbol_prefix(url: &str) -> (address: &str)
    requires
        symbol_prefix_cuts(url@),
    ensures
        address@ == without_symbol_prefix(url@),
{
    let chars = chars_of(url);
    let n = chars.len();
    let bar = find_from(&chars, 0, '|');
    assert(chars@.subrange(0, n as int) =~= chars@);
    if bar < n {
        url.substring_char(bar + 2, n)
    } else {
        url
    }
}

/// The selector's entry for a clone URL gives the address back when its
/// symbol is cut off, as long as the bar can be told: the symbol holds no
/// bar, and an address without a symbol holds none either.
pub proof fn lemma_entry_gives_address(url: (Seq<char>, Seq<char>))
    requires
        !url.1.contains('|'),
        url.1.len() == 0 ==> !url.0.contains('|'),
    ensures
        symbol_prefix_cuts(selector_entry(url)),
        without_symbol_prefix(selector_entry(url)) == url.0,
{
    let entry = selector_entry(url);
    if url.1.len() > 0 {
        reveal_strlit(" | ");
        // The first bar of the entry is the one between the two spaces.
        let at: int = url.1.len() as int + 1;
        assert forall|j: int| 0 <= j < at implies entry[j] != '|' by {
            if j < url.1.len() {
                assert(entry[j] == url.1[j]);
            }
        }
        lemma_first_at_is(entry, '|', at);
    } else {
        lemma_first_at(entry, '|');
    }
}

} // verus!
