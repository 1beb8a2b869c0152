use kloni::github::{Github, GithubFetch, GithubRepo, Organization, NEXT_LINK_PATTERN};
use kloni::provider::{CloneUrl, HttpProblem, Pages, Paging, Reply};

fn page<T>(link: Option<&str>, body: T) -> Reply<T> {
    Reply::Answer {
        status: 200,
        status_line: "200 OK".to_string(),
        link: link.map(|l| l.to_string()),
        body: Ok(body),
    }
}

fn undecodable<T>(detail: &str) -> Reply<T> {
    Reply::Answer {
        status: 200,
        status_line: "200 OK".to_string(),
        link: None,
        body: Err(detail.to_string()),
    }
}

fn repo(name: &str, full_name: &str, description: &str, ssh_url: &str) -> GithubRepo {
    GithubRepo {
        name: name.to_string(),
        full_name: full_name.to_string(),
        description: Some(description.to_string()),
        ssh_url: ssh_url.to_string(),
    }
}

fn organization_url(fetch: &GithubFetch) -> String {
    match fetch {
        GithubFetch::Organizations(stage) => stage.url.clone(),
        other => panic!("no request for organizations: {}", describe(other)),
    }
}

fn repos_url(fetch: &GithubFetch) -> String {
    match fetch {
        GithubFetch::Repos(stage) => stage.pages.request_url.clone(),
        other => panic!("no request for repositories: {}", describe(other)),
    }
}

fn describe(fetch: &GithubFetch) -> String {
    match fetch {
        GithubFetch::Organizations(stage) => format!("organizations at {}", stage.url),
        GithubFetch::Repos(stage) => format!("repositories at {}", stage.pages.request_url),
        GithubFetch::Done(urls) => format!("done with {:?}", urls),
        GithubFetch::Failed(problem) => format!("failed with {:?}", problem),
    }
}

fn on_organizations(fetch: GithubFetch, reply: Reply<Vec<Organization>>) -> GithubFetch {
    match fetch {
        GithubFetch::Organizations(stage) => stage.receive(reply),
        other => panic!("no request for organizations: {}", describe(&other)),
    }
}

fn on_repos(fetch: GithubFetch, reply: Reply<Vec<GithubRepo>>) -> GithubFetch {
    match fetch {
        GithubFetch::Repos(stage) => stage.receive(reply),
        other => panic!("no request for repositories: {}", describe(&other)),
    }
}

fn result(fetch: GithubFetch) -> Result<Vec<CloneUrl>, HttpProblem> {
    match fetch {
        GithubFetch::Done(urls) => Ok(urls),
        GithubFetch::Failed(problem) => Err(problem),
        other => panic!("not finished: {}", describe(&other)),
    }
}

#[test]
pub fn should_successfully_extract_next_link_from_header() {
    let valid_link_header_value = r#"<https://acme.company.com/api/v3/organizations/12729/repos?per_page=20&page=2>; rel="next", <https://acme.company.com/api/v3/organizations/12729/repos?per_page=20&page=4>; rel="last""#;

    let result = Github::next_link(Some(valid_link_header_value));

    assert_eq!(
        result,
        Some(
            "https://acme.company.com/api/v3/organizations/12729/repos?per_page=20&page=2"
                .to_owned()
        )
    );
}

#[test]
pub fn should_extract_nothing_if_link_header_is_missing() {
    let result = Github::next_link(None);

    assert_eq!(result, None);
}

#[test]
pub fn should_extract_nothing_if_regex_wont_match() {
    let invalid_link_header_value = r#"(?i)<htions/12729/repos?per_page=20&page=4>; rel="last""#;

    let result = Github::next_link(Some(invalid_link_header_value));

    assert_eq!(result, None);
}

#[test]
pub fn should_fetch_all_cloneable_ssh_urls() {
    let address = "127.0.0.1:5000";

    let user_orgs_path = "/api/v3/user/orgs";
    let user_orgs_url = format!("http://{address}{user_orgs_path}");

    let foo_org_repos_path = "/api/v3/orgs/FOO_ORG/repos";
    let foo_org_repos_url = format!("http://{address}{foo_org_repos_path}");

    let foo_org_next_link_path = "/api/v3/organizations/12345/repos";
    let foo_org_next_link_url = format!("http://{address}{foo_org_next_link_path}");

    let next_link = format!("<{foo_org_next_link_url}?per_page=20&page=2>; rel=\"next\", <{foo_org_next_link_url}?per_page=20&page=2>; rel=\"last\"");

    let github = Github::new("s3cr3t".to_string(), user_orgs_url.clone(), None);
    let fetch = github.fetch_clone_urls("");

    assert_eq!(organization_url(&fetch), user_orgs_url);
    let fetch = on_organizations(
        fetch,
        page(
            None,
            vec![Organization {
                repos_url: foo_org_repos_url.clone(),
            }],
        ),
    );

    assert_eq!(repos_url(&fetch), foo_org_repos_url);
    let fetch = on_repos(
        fetch,
        page(
            Some(&next_link),
            vec![repo(
                "fanzy-project",
                "FOO_ORG/fanzy-project",
                "A fanzy project",
                "git@localhost:FOO_ORG/fanzy-project.git",
            )],
        ),
    );

    assert_eq!(
        repos_url(&fetch),
        format!("{foo_org_next_link_url}?per_page=20&page=2")
    );
    let fetch = on_repos(
        fetch,
        page(
            None,
            vec![repo(
                "fanzy-project-2",
                "FOO_ORG/fanzy-project-2",
                "A second fanzy project",
                "git@localhost:FOO_ORG/fanzy-project-2.git",
            )],
        ),
    );

    let cloneable_urls = result(fetch).unwrap();

    assert_eq!(&cloneable_urls.len(), &2);
    assert_eq!(
        cloneable_urls.get(0),
        Some(&CloneUrl(
            "git@localhost:FOO_ORG/fanzy-project.git".to_string(),
            "".to_string()
        ))
    );
    assert_eq!(
        cloneable_urls.get(1),
        Some(&CloneUrl(
            "git@localhost:FOO_ORG/fanzy-project-2.git".to_string(),
            "".to_string()
        ))
    );
}

#[test]
fn should_fail_when_org_repos_json_response_is_not_parsable() {
    let address = "127.0.0.1:5000";

    let user_orgs_path = "/api/v3/user/orgs";
    let user_orgs_url = format!("http://{address}{user_orgs_path}");

    let foo_org_repos_path = "/api/v3/orgs/FOO_ORG/repos";
    let foo_org_repos_url = format!("http://{address}{foo_org_repos_path}");

    let github = Github::new("s3cr3t".to_string(), user_orgs_url, None);
    let fetch = github.fetch_clone_urls("");
    let fetch = on_organizations(
        fetch,
        page(
            None,
            vec![Organization {
                repos_url: foo_org_repos_url.clone(),
            }],
        ),
    );
    assert_eq!(repos_url(&fetch), foo_org_repos_url);
    let fetch = on_repos(
        fetch,
        undecodable("Json Error: invalid type: map, expected a sequence at line 1 column 1"),
    );
    let result = result(fetch);

    assert!(result.is_err());

    let expected_error_message = format!("Can't deserialize response from '{foo_org_repos_url}': Json Error: invalid type: map, expected a sequence at line 1 column 1");
    assert_eq!(
        format!("{}", result.unwrap_err().message()),
        expected_error_message
    );
}

#[test]
fn should_fail_when_user_orgs_json_response_is_not_parsable() {
    let address = "127.0.0.1:5000";

    let user_orgs_path = "/api/v3/user/orgs";
    let user_orgs_url = format!("http://{address}{user_orgs_path}");

    let github = Github::new("s3cr3t".to_string(), user_orgs_url.clone(), None);
    let fetch = github.fetch_clone_urls("");
    let fetch = on_organizations(
        fetch,
        undecodable("Json Error: expected ident at line 1 column 2"),
    );
    // The fetch is over: it asks for no repository listing.
    assert!(matches!(fetch, GithubFetch::Failed(_)));
    let result = result(fetch);

    assert!(result.is_err());

    let expected_error_message = format!(
        "Can't deserialize response from '{}': Json Error: expected ident at line 1 column 2",
        user_orgs_url
    );
    assert_eq!(
        format!("{}", result.unwrap_err().message()),
        expected_error_message
    );
}

#[test]
fn should_fail_when_url_is_invalid() {
    let github = Github::new("s3cr3t".to_string(), "bonkers".to_string(), None);
    let fetch = github.fetch_clone_urls("");
    assert_eq!(organization_url(&fetch), "bonkers");
    let result = result(on_organizations(fetch, Reply::InvalidUrl));

    assert!(result.is_err());

    assert_eq!(
        format!("{}", result.unwrap_err().message()),
        "Invalid url 'bonkers'"
    );
}

#[test]
fn next_link_is_found_whatever_the_case_of_rel() {
    assert_eq!(
        Github::next_link(Some(r#"<HTTP://host/repos?page=3>;  REL="NEXT""#)),
        Some("HTTP://host/repos?page=3".to_string())
    );
}

#[test]
fn next_link_needs_digits_before_the_bracket() {
    assert_eq!(
        Github::next_link(Some(r#"<https://host/repos?page=two>; rel="next""#)),
        None
    );
    assert_eq!(
        Github::next_link(Some(r#"<https://host/repos?page=2>; rel="prev""#)),
        None
    );
    assert_eq!(Github::next_link(Some("")), None);
}

#[test]
fn next_link_pattern_is_the_documented_one() {
    assert_eq!(NEXT_LINK_PATTERN, r#"(?i)(http\S*\d+)>;\s+(rel="next")"#);
}

#[test]
fn organizations_come_from_one_unpaginated_reply() {
    let orgs = Github::get_all_organizations(
        "http://host/api/v3/user/orgs",
        page(
            Some(r#"<http://host/api/v3/user/orgs?page=2>; rel="next""#),
            vec![
                Organization {
                    repos_url: "http://host/a".to_string(),
                },
                Organization {
                    repos_url: "http://host/b".to_string(),
                },
            ],
        ),
    )
    .unwrap();
    assert_eq!(2, orgs.len());
    assert_eq!("http://host/a", orgs[0].repos_url);
    assert_eq!("http://host/b", orgs[1].repos_url);
}

#[test]
fn failed_request_names_url_and_status() {
    let reply: Reply<Vec<Organization>> = Reply::Answer {
        status: 404,
        status_line: "404 Not Found".to_string(),
        link: None,
        body: Err("ignored".to_string()),
    };
    let problem = Github::get_all_organizations("http://host/orgs", reply).unwrap_err();
    assert_eq!(
        HttpProblem::RequestFailed(
            "http://host/orgs".to_string(),
            "status: 404 Not Found".to_string()
        ),
        problem
    );
    assert_eq!(
        "HTTP request to 'http://host/orgs' failed: status: 404 Not Found",
        problem.message()
    );
}

#[test]
fn status_just_outside_success_is_a_failure() {
    for (status, good) in [(199u16, false), (200, true), (299, true), (300, false)] {
        let reply: Reply<Vec<Organization>> = Reply::Answer {
            status,
            status_line: status.to_string(),
            link: None,
            body: Ok(Vec::new()),
        };
        assert_eq!(
            good,
            Github::get_all_organizations("http://host/orgs", reply).is_ok()
        );
    }
}

#[test]
fn transport_failure_names_url_and_detail() {
    let problem = Github::get_all_organizations(
        "http://host/orgs",
        Reply::Unreachable("connection refused".to_string()),
    )
    .unwrap_err();
    assert_eq!(
        HttpProblem::RequestFailed(
            "http://host/orgs".to_string(),
            "connection refused".to_string()
        ),
        problem
    );
}

#[test]
fn failing_page_is_named_by_its_own_url() {
    let pages: Pages<GithubRepo> = Pages::begin("http://host/orgs/A/repos");
    let next = r#"<http://host/organizations/1/repos?page=2>; rel="next""#;
    let pages = match Github::get_all_repos(pages, page(Some(next), vec![repo("a", "A/a", "", "git@host:A/a.git")])) {
        Paging::More(pages) => pages,
        _ => panic!("the listing should go on"),
    };
    assert_eq!("http://host/organizations/1/repos?page=2", pages.request_url);
    assert_eq!("http://host/orgs/A/repos", pages.base_url);
    match Github::get_all_repos(pages, undecodable("Json Error: broken")) {
        Paging::Failed(problem) => assert_eq!(
            HttpProblem::DeserializationFailed(
                "http://host/organizations/1/repos?page=2".to_string(),
                "Json Error: broken".to_string()
            ),
            problem
        ),
        _ => panic!("the listing should fail"),
    }
}

#[test]
fn listing_ends_at_the_page_without_next_link() {
    let pages: Pages<GithubRepo> = Pages::begin("http://host/orgs/A/repos");
    let last = r#"<http://host/organizations/1/repos?page=1>; rel="prev""#;
    match Github::get_all_repos(pages, page(Some(last), vec![repo("a", "A/a", "", "git@host:A/a.git")])) {
        Paging::Done(repos) => {
            assert_eq!(1, repos.len());
            assert_eq!("git@host:A/a.git", repos[0].ssh_url);
        }
        _ => panic!("the listing should be done"),
    }
}

#[test]
fn turning_a_page_keeps_what_was_read() {
    let pages: Pages<u8> = Pages::begin("http://host/list");
    let pages = match pages.turn(vec![1, 2], Some("http://host/list?page=2".to_string())) {
        Paging::More(pages) => pages,
        _ => panic!("the listing should go on"),
    };
    assert_eq!("http://host/list", pages.base_url);
    assert_eq!("http://host/list?page=2", pages.request_url);
    assert_eq!(vec![1, 2], pages.items);
    match pages.turn(vec![3], None) {
        Paging::Done(items) => assert_eq!(vec![1, 2, 3], items),
        _ => panic!("the listing should be done"),
    }
}

#[test]
fn organizations_are_read_in_order_and_each_to_its_end() {
    let github = Github::new("t".to_string(), "http://host/orgs".to_string(), Some("GH".to_string()));
    let fetch = github.fetch_clone_urls("GH");
    let fetch = on_organizations(
        fetch,
        page(
            None,
            vec![
                Organization { repos_url: "http://host/a".to_string() },
                Organization { repos_url: "http://host/b".to_string() },
            ],
        ),
    );
    assert_eq!("http://host/a", repos_url(&fetch));
    let next = r#"<http://host/a?page=2>; rel="next""#;
    let fetch = on_repos(fetch, page(Some(next), vec![repo("1", "a/1", "", "git@a:1.git")]));
    assert_eq!("http://host/a?page=2", repos_url(&fetch));
    let fetch = on_repos(fetch, page(None, vec![repo("2", "a/2", "", "git@a:2.git")]));
    assert_eq!("http://host/b", repos_url(&fetch));
    let fetch = on_repos(fetch, page(None, vec![repo("3", "b/3", "", "git@b:3.git")]));
    let urls = result(fetch).unwrap();
    assert_eq!(
        vec![
            CloneUrl("git@a:1.git".to_string(), "GH".to_string()),
            CloneUrl("git@a:2.git".to_string(), "GH".to_string()),
            CloneUrl("git@b:3.git".to_string(), "GH".to_string()),
        ],
        urls
    );
}

#[test]
fn no_organizations_means_no_clone_urls() {
    let github = Github::new("t".to_string(), "http://host/orgs".to_string(), None);
    let fetch = on_organizations(github.fetch_clone_urls(""), page(None, Vec::new()));
    assert_eq!(Ok(Vec::new()), result(fetch));
}
