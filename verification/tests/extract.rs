use tailcall_launchpad::actions::github_service_deploy;
use tailcall_launchpad::actions::github_service_status;
use tailcall_launchpad::services::github_auth_service::extract_access_token;
use tailcall_launchpad::text::parse_digits;

#[test]
fn deploy_url_is_extracted() {
    let out = "Updating (alice.-.app.-.main)\n\nOutputs:\n  url: \"https://example.com\"\n\nResources:\n";
    assert_eq!(
        github_service_deploy::extract_output_url(out),
        Some("https://example.com".to_string())
    );
}

#[test]
fn deploy_url_requires_quotes_and_scheme() {
    assert_eq!(
        github_service_deploy::extract_output_url("Outputs:\n  url: https://example.com"),
        None
    );
    assert_eq!(
        github_service_deploy::extract_output_url("Outputs:\n  url: \"ftp://example.com\""),
        None
    );
    assert_eq!(github_service_deploy::extract_output_url("no outputs"), None);
}

#[test]
fn status_url_is_extracted() {
    let out = "Current stack outputs (1):\n    OUTPUT          VALUE\n    url             https://abc.example.dev\n";
    assert_eq!(
        github_service_status::extract_output_url(out),
        Some("https://abc.example.dev".to_string())
    );
}

#[test]
fn status_url_absent() {
    assert_eq!(github_service_status::extract_output_url("OUTPUT VALUE"), None);
}

#[test]
fn resource_count_is_extracted() {
    assert_eq!(
        github_service_status::extract_num_of_resources("Current stack resources (14):"),
        Some("14".to_string())
    );
    assert_eq!(
        github_service_status::extract_num_of_resources("Current stack resources (0):"),
        Some("0".to_string())
    );
    assert_eq!(
        github_service_status::extract_num_of_resources("Current stack resources ():"),
        None
    );
    assert_eq!(
        github_service_status::extract_num_of_resources("no resources here"),
        None
    );
}

#[test]
fn updated_at_is_extracted() {
    let out = "Stack alice.-.app.-.main\n    Last updated: 2 days ago (2023-10-01 12:34:56.789000 +0000 UTC)\nCurrent stack resources (14):";
    assert_eq!(
        github_service_status::extract_updated_at(out),
        Some("2023-10-01 12:34:56.789000 +0000 UTC".to_string())
    );
}

#[test]
fn updated_at_skips_plain_parentheses() {
    let out = "Current stack resources (14):\n(2023-10-01 12:34:56.7 +0000 UTC)";
    assert_eq!(
        github_service_status::extract_updated_at(out),
        Some("2023-10-01 12:34:56.7 +0000 UTC".to_string())
    );
    assert_eq!(
        github_service_status::extract_updated_at("Current stack resources (14)"),
        None
    );
}

#[test]
fn extraction_tries_later_anchor_occurrences() {
    // The first occurrence of each leading literal fails the rest of the
    // pattern; a later one matches, as it would for the original report
    // grammar.
    let out = "Outputs:\n  api: 1\nOutputs:\n  url: \"https://x.example\"\n";
    assert_eq!(
        github_service_deploy::extract_output_url(out),
        Some("https://x.example".to_string())
    );
    let out = "Current stack resources (none) Current stack resources (5):";
    assert_eq!(
        github_service_status::extract_num_of_resources(out),
        Some("5".to_string())
    );
    let out = "OUTPUT only\nOUTPUT   VALUE\nurl   https://y.example\n";
    assert_eq!(
        github_service_status::extract_output_url(out),
        Some("https://y.example".to_string())
    );
    assert_eq!(
        extract_access_token("access_token=&access_token=tok9"),
        Some("tok9".to_string())
    );
}

#[test]
fn access_token_is_extracted() {
    assert_eq!(
        extract_access_token("access_token=gho_Abc123xyz&scope=&token_type=bearer"),
        Some("gho_Abc123xyz".to_string())
    );
    assert_eq!(extract_access_token("error=bad_code"), None);
    assert_eq!(extract_access_token("access_token=&scope="), None);
}

#[test]
fn digit_parsing_detects_overflow() {
    assert_eq!(parse_digits("0"), Some(0));
    assert_eq!(parse_digits("0014"), Some(14));
    assert_eq!(parse_digits("2147483647"), Some(2147483647));
    assert_eq!(parse_digits("2147483648"), None);
    assert_eq!(parse_digits("99999999999"), None);
}
