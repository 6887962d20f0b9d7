use tailcall_launchpad::services::github_auth_service::bearer_from_header;
use tailcall_launchpad::services::github_auth_service::token_request_body;
use tailcall_launchpad::services::github_auth_service::user_from_auth_info;
use tailcall_launchpad::services::github_auth_service::AuthInfoJson;
use tailcall_launchpad::services::github_auth_service::GithubAuthService;
use tailcall_launchpad::services::github_auth_service::UserInfoJson;

#[test]
fn login_url_carries_client_id_and_state() {
    let service = GithubAuthService::new("my-client", "SECRET-REDACTED");
    assert_eq!(
        service.login_url("xyz"),
        "https://github.com/login/oauth/authorize?client_id=my-client&state=xyz"
    );
}

#[test]
fn token_exchange_url_carries_all_parameters() {
    let service = GithubAuthService::new("id1", "sec1");
    assert_eq!(
        service.access_token_url("code9"),
        "https://github.com/login/oauth/access_token?client_id=id1&client_secret=sec1&code=code9"
    );
}

#[test]
fn user_info_url_names_the_application() {
    let service = GithubAuthService::new("id1", "sec1");
    assert_eq!(
        service.user_info_url(),
        "https://api.github.com/applications/id1/token"
    );
}

#[test]
fn token_request_body_is_json() {
    assert_eq!(
        token_request_body("tok"),
        "{\"access_token\":\"tok\"}"
    );
}

#[test]
fn bearer_is_the_part_after_the_last_space() {
    assert_eq!(bearer_from_header("Bearer abc"), "abc");
    assert_eq!(bearer_from_header("abc"), "abc");
    assert_eq!(bearer_from_header("a b c"), "c");
    assert_eq!(bearer_from_header("Bearer "), "");
    assert_eq!(bearer_from_header(""), "");
}

#[test]
fn user_info_comes_from_the_nested_record() {
    let json = AuthInfoJson {
        id: 7,
        user: UserInfoJson {
            id: 42,
            login: "alice".to_string(),
        },
    };
    let user = user_from_auth_info(json);
    assert_eq!(user.id, 42);
    assert_eq!(user.username, "alice");
}
