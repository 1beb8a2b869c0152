use kloni::provider::CloneUrl;
use kloni::{folder_name_for_url, gather, remove_symbol_prefix, selector_lines};
use kloni::provider::{HttpProblem, KloniError};

fn url(address: &str, symbol: &str) -> CloneUrl {
    CloneUrl(address.to_string(), symbol.to_string())
}

#[test]
pub fn should_successfully_remove_symbol_from_url() {
    assert_eq!(
        "git@git.acmecorp.com:organization/example.git",
        remove_symbol_prefix("\u{f3}\u{b0}\u{160}\u{a4} | git@git.acmecorp.com:organization/example.git")
    );

    assert_eq!(
        "git@git.acmecorp.com:organization/example.git",
        remove_symbol_prefix("  foo bar   | git@git.acmecorp.com:organization/example.git")
    );

    assert_eq!(
        "git@git.acmecorp.com:organization/example.git",
        remove_symbol_prefix("git@git.acmecorp.com:organization/example.git")
    )
}

#[test]
fn symbol_prefix_ends_two_characters_behind_the_first_bar() {
    assert_eq!("b|c", remove_symbol_prefix("a| b|c"));
    assert_eq!("", remove_symbol_prefix("GH|x"));
}

#[test]
fn folder_name_is_the_last_segment_without_its_ending() {
    assert_eq!(
        "example",
        folder_name_for_url("git@git.acmecorp.com:organization/example.git")
    );
    assert_eq!(
        "fanzy-project",
        folder_name_for_url("https://host/scm/team/fanzy-project.git")
    );
    assert_eq!("plain", folder_name_for_url("plain.git"));
    assert_eq!("", folder_name_for_url("host/.git"));
}

#[test]
fn selector_shows_symbol_bar_and_address() {
    let urls = vec![
        url("git@a:one.git", "GH"),
        url("git@b:two.git", ""),
        url("git@c:three.git", "BB"),
    ];
    assert_eq!(
        "GH | git@a:one.git\ngit@b:two.git\nBB | git@c:three.git",
        selector_lines(&urls)
    );
    assert_eq!("", selector_lines(&Vec::new()));
    assert_eq!("GH | x", selector_lines(&vec![url("x", "GH")]));
}

#[test]
fn selector_entry_gives_the_address_back() {
    let urls = vec![url("git@a:one.git", "GH"), url("git@b:two.git", "")];
    let text = selector_lines(&urls);
    let entries: Vec<&str> = text.split('\n').collect();
    assert_eq!(2, entries.len());
    assert_eq!("git@a:one.git", remove_symbol_prefix(entries[0]));
    assert_eq!("git@b:two.git", remove_symbol_prefix(entries[1]));
}

#[test]
fn gather_keeps_the_order_of_the_hosts() {
    let first = gather(Vec::new(), Ok(vec![url("a", "GH"), url("b", "GH")])).unwrap();
    let both = gather(first, Ok(vec![url("c", "BB")])).unwrap();
    assert_eq!(vec![url("a", "GH"), url("b", "GH"), url("c", "BB")], both);
}

#[test]
fn gather_gives_up_everything_on_a_failure() {
    let first = gather(Vec::new(), Ok(vec![url("a", "GH")])).unwrap();
    let failed = gather(
        first,
        Err(KloniError::Http(HttpProblem::InvalidUrl("bonkers".to_string()))),
    );
    assert_eq!(
        Err(KloniError::Http(HttpProblem::InvalidUrl("bonkers".to_string()))),
        failed
    );
}
