use kloni::bitbucket::{
    Bitbucket, BitbucketFetch, Link, LinkList, Project, ProjectList, Repo, RepoList,
    USER_PROJECTS_PATH,
};
use kloni::provider::{CloneUrl, HttpProblem, KloniError, Pages, Paging, Reply};

fn answer<T>(body: T) -> Reply<T> {
    Reply::Answer {
        status: 200,
        status_line: "200 OK".to_string(),
        link: None,
        body: Ok(body),
    }
}

fn link(href: &str, name: Option<&str>) -> Link {
    Link {
        href: href.to_string(),
        name: name.map(|n| n.to_string()),
    }
}

fn project(id: i32, key: &str) -> Project {
    Project {
        id,
        key: key.to_string(),
        name: key.to_lowercase(),
        links: LinkList {
            clone: None,
            slf: Some(vec![link("http://host/projects", None)]),
        },
    }
}

fn repo(id: i32, name: &str, clone: Option<Vec<Link>>) -> Repo {
    Repo {
        id,
        name: name.to_string(),
        links: LinkList { clone, slf: None },
    }
}

fn projects(values: Vec<Project>, is_last_page: bool, next_page_start: Option<i32>) -> Reply<ProjectList> {
    answer(ProjectList {
        size: values.len() as i32,
        values,
        is_last_page,
        next_page_start,
    })
}

fn repos(values: Vec<Repo>, is_last_page: bool, next_page_start: Option<i32>) -> Reply<RepoList> {
    answer(RepoList {
        size: values.len() as i32,
        values,
        is_last_page,
        next_page_start,
    })
}

fn request(fetch: &BitbucketFetch) -> String {
    match fetch {
        BitbucketFetch::Projects(stage) => format!("projects {}", stage.pages.request_url),
        BitbucketFetch::Repos(stage) => format!("repos {}", stage.pages.request_url),
        BitbucketFetch::Done(urls) => format!("done {:?}", urls),
        BitbucketFetch::Failed(problem) => format!("failed {:?}", problem),
    }
}

fn on_projects(fetch: BitbucketFetch, reply: Reply<ProjectList>) -> BitbucketFetch {
    match fetch {
        BitbucketFetch::Projects(stage) => stage.receive(reply),
        other => panic!("no request for projects: {}", request(&other)),
    }
}

fn on_repos(fetch: BitbucketFetch, reply: Reply<RepoList>) -> BitbucketFetch {
    match fetch {
        BitbucketFetch::Repos(stage) => stage.receive(reply),
        other => panic!("no request for repositories: {}", request(&other)),
    }
}

fn url(address: &str, symbol: &str) -> CloneUrl {
    CloneUrl(address.to_string(), symbol.to_string())
}

#[test]
fn projects_path_is_the_documented_one() {
    assert_eq!("/rest/api/1.0/projects", USER_PROJECTS_PATH);
}

#[test]
fn page_url_carries_the_start_in_decimal() {
    assert_eq!("http://host/projects?start=25", Bitbucket::page_url("http://host/projects", 25));
    assert_eq!("http://host/projects?start=0", Bitbucket::page_url("http://host/projects", 0));
    assert_eq!("u?start=9", Bitbucket::page_url("u", 9));
    assert_eq!("u?start=10", Bitbucket::page_url("u", 10));
    assert_eq!("u?start=1000", Bitbucket::page_url("u", 1000));
    assert_eq!("u?start=2147483647", Bitbucket::page_url("u", i32::MAX));
    assert_eq!("u?start=-7", Bitbucket::page_url("u", -7));
    assert_eq!("u?start=-2147483648", Bitbucket::page_url("u", i32::MIN));
}

#[test]
fn repos_url_appends_key_and_repos() {
    assert_eq!(
        "http://host/rest/api/1.0/projects/KEY/repos",
        Bitbucket::repos_url("http://host/rest/api/1.0/projects", "KEY")
    );
}

#[test]
fn second_request_starts_where_the_first_page_says() {
    let pages: Pages<Project> = Pages::begin("http://host/projects");
    assert_eq!("http://host/projects", pages.request_url);
    let pages = match Bitbucket::get_all_projects(pages, projects(vec![project(1, "A")], false, Some(25))) {
        Paging::More(pages) => pages,
        _ => panic!("the listing should go on"),
    };
    assert_eq!("http://host/projects?start=25", pages.request_url);
    assert_eq!("http://host/projects", pages.base_url);
}

#[test]
fn cursor_is_put_on_the_listing_url_each_time() {
    let pages: Pages<Repo> = Pages::begin("http://host/projects/A/repos");
    let pages = match Bitbucket::get_all_repos(pages, repos(Vec::new(), false, Some(25))) {
        Paging::More(pages) => pages,
        _ => panic!("the listing should go on"),
    };
    assert_eq!("http://host/projects/A/repos?start=25", pages.request_url);
    let pages = match Bitbucket::get_all_repos(pages, repos(Vec::new(), false, Some(50))) {
        Paging::More(pages) => pages,
        _ => panic!("the listing should go on"),
    };
    assert_eq!("http://host/projects/A/repos?start=50", pages.request_url);
}

#[test]
fn page_without_next_start_asks_for_the_same_url_again() {
    let pages: Pages<Project> = Pages::begin("http://host/projects");
    let pages = match Bitbucket::get_all_projects(pages, projects(Vec::new(), false, Some(5))) {
        Paging::More(pages) => pages,
        _ => panic!("the listing should go on"),
    };
    let pages = match Bitbucket::get_all_projects(pages, projects(Vec::new(), false, None)) {
        Paging::More(pages) => pages,
        _ => panic!("the listing should go on"),
    };
    assert_eq!("http://host/projects?start=5", pages.request_url);
}

#[test]
fn last_page_ends_the_listing_whatever_it_says_of_a_next_start() {
    let pages: Pages<Project> = Pages::begin("http://host/projects");
    let pages = match Bitbucket::get_all_projects(pages, projects(vec![project(1, "A")], false, Some(1))) {
        Paging::More(pages) => pages,
        _ => panic!("the listing should go on"),
    };
    match Bitbucket::get_all_projects(pages, projects(vec![project(2, "B")], true, Some(2))) {
        Paging::Done(all) => {
            assert_eq!(2, all.len());
            assert_eq!("A", all[0].key);
            assert_eq!("B", all[1].key);
        }
        _ => panic!("the listing should be done"),
    }
}

#[test]
fn failing_page_is_named_by_the_url_that_was_requested() {
    let pages: Pages<Repo> = Pages::begin("http://host/projects/A/repos");
    let pages = match Bitbucket::get_all_repos(pages, repos(Vec::new(), false, Some(25))) {
        Paging::More(pages) => pages,
        _ => panic!("the listing should go on"),
    };
    let broken: Reply<RepoList> = Reply::Answer {
        status: 200,
        status_line: "200 OK".to_string(),
        link: None,
        body: Err("Json Error: EOF while parsing an object at line 1 column 1".to_string()),
    };
    match Bitbucket::get_all_repos(pages, broken) {
        Paging::Failed(problem) => assert_eq!(
            "Can't deserialize response from 'http://host/projects/A/repos?start=25': Json Error: EOF while parsing an object at line 1 column 1",
            problem.message()
        ),
        _ => panic!("the listing should fail"),
    }
}

#[test]
fn ssh_link_is_the_first_one_named_ssh() {
    let found = repo(
        7,
        "r",
        Some(vec![
            link("https://host/scm/a/r.git", Some("http")),
            link("ssh://git@host/a/r.git", Some("ssh")),
            link("ssh://git@other/a/r.git", Some("ssh")),
        ]),
    );
    assert_eq!(Ok(Some("ssh://git@host/a/r.git".to_string())), found.ssh_clone_url());
    assert!(link("x", Some("ssh")).is_ssh());
    assert!(!link("x", Some("SSH")).is_ssh());
    assert!(!link("x", Some("ssh ")).is_ssh());
    assert!(!link("x", None).is_ssh());
}

#[test]
fn repo_without_ssh_link_is_reported_by_its_id() {
    let none = repo(42, "r", Some(vec![link("https://host/scm/a/r.git", Some("http")), link("x", None)]));
    assert_eq!(Err(KloniError::MissingCloneLink(42)), none.ssh_clone_url());
    let empty = repo(43, "r", Some(Vec::new()));
    assert_eq!(Err(KloniError::MissingCloneLink(43)), empty.ssh_clone_url());
}

#[test]
fn repo_without_clone_links_has_no_address() {
    assert_eq!(Ok(None), repo(1, "r", None).ssh_clone_url());
}

#[test]
fn repo_without_ssh_link_is_skipped_and_the_others_are_returned() {
    let bitbucket = Bitbucket::new("s3cr3t".to_string(), "http://host/rest/api/1.0/projects".to_string(), Some("BB".to_string()));
    let fetch = bitbucket.fetch_clone_urls("BB");
    assert_eq!("projects http://host/rest/api/1.0/projects", request(&fetch));
    let fetch = on_projects(fetch, projects(vec![project(1, "FOO")], true, None));
    assert_eq!("repos http://host/rest/api/1.0/projects/FOO/repos", request(&fetch));
    let fetch = on_repos(
        fetch,
        repos(
            vec![
                repo(1, "one", Some(vec![link("ssh://git@host/foo/one.git", Some("ssh"))])),
                repo(2, "two", Some(vec![link("https://host/scm/foo/two.git", Some("http"))])),
                repo(3, "three", None),
                repo(4, "four", Some(vec![link("https://host/scm/foo/four.git", Some("http")), link("ssh://git@host/foo/four.git", Some("ssh"))])),
            ],
            true,
            None,
        ),
    );
    match fetch {
        BitbucketFetch::Done(urls) => assert_eq!(
            vec![url("ssh://git@host/foo/one.git", "BB"), url("ssh://git@host/foo/four.git", "BB")],
            urls
        ),
        other => panic!("not done: {}", request(&other)),
    }
}

#[test]
fn projects_and_their_repositories_are_read_page_by_page() {
    let bitbucket = Bitbucket::new("t".to_string(), "http://host/projects".to_string(), None);
    let fetch = bitbucket.fetch_clone_urls("");
    let fetch = on_projects(fetch, projects(vec![project(1, "A")], false, Some(1)));
    assert_eq!("projects http://host/projects?start=1", request(&fetch));
    let fetch = on_projects(fetch, projects(vec![project(2, "B")], true, None));
    assert_eq!("repos http://host/projects/A/repos", request(&fetch));
    let fetch = on_repos(fetch, repos(vec![repo(1, "a1", Some(vec![link("ssh://a1", Some("ssh"))]))], false, Some(1)));
    assert_eq!("repos http://host/projects/A/repos?start=1", request(&fetch));
    let fetch = on_repos(fetch, repos(vec![repo(2, "a2", Some(vec![link("ssh://a2", Some("ssh"))]))], true, None));
    assert_eq!("repos http://host/projects/B/repos", request(&fetch));
    let fetch = on_repos(fetch, repos(vec![repo(3, "b1", Some(vec![link("ssh://b1", Some("ssh"))]))], true, None));
    match fetch {
        BitbucketFetch::Done(urls) => assert_eq!(
            vec![url("ssh://a1", ""), url("ssh://a2", ""), url("ssh://b1", "")],
            urls
        ),
        other => panic!("not done: {}", request(&other)),
    }
}

#[test]
fn no_projects_means_no_clone_urls() {
    let bitbucket = Bitbucket::new("t".to_string(), "http://host/projects".to_string(), None);
    let fetch = on_projects(bitbucket.fetch_clone_urls(""), projects(Vec::new(), true, None));
    assert!(matches!(fetch, BitbucketFetch::Done(urls) if urls.is_empty()));
}

#[test]
fn failed_project_request_ends_the_fetch() {
    let bitbucket = Bitbucket::new("t".to_string(), "http://host/projects".to_string(), None);
    let reply: Reply<ProjectList> = Reply::Answer {
        status: 401,
        status_line: "401 Unauthorized".to_string(),
        link: None,
        body: Err(String::new()),
    };
    match on_projects(bitbucket.fetch_clone_urls(""), reply) {
        BitbucketFetch::Failed(problem) => assert_eq!(
            HttpProblem::RequestFailed("http://host/projects".to_string(), "status: 401 Unauthorized".to_string()),
            problem
        ),
        other => panic!("not failed: {}", request(&other)),
    }
}

#[test]
fn failed_repository_request_ends_the_fetch() {
    let bitbucket = Bitbucket::new("t".to_string(), "http://host/projects".to_string(), None);
    let fetch = on_projects(bitbucket.fetch_clone_urls(""), projects(vec![project(1, "A"), project(2, "B")], true, None));
    match on_repos(fetch, Reply::Unreachable("timed out".to_string())) {
        BitbucketFetch::Failed(problem) => assert_eq!(
            HttpProblem::RequestFailed("http://host/projects/A/repos".to_string(), "timed out".to_string()),
            problem
        ),
        other => panic!("not failed: {}", request(&other)),
    }
}
