use tailcall_launchpad::proto::GithubRequest;

fn request(username: &str, repository: &str, branch: &str) -> GithubRequest {
    GithubRequest {
        username: username.to_string(),
        repository: repository.to_string(),
        branch: branch.to_string(),
    }
}

#[test]
fn identifier_joins_with_delimiter() {
    let req = request("alice", "app", "main");
    assert_eq!(req.get_identifier(), "alice.-.app.-.main");
}

#[test]
fn identifier_is_deterministic() {
    let a = request("alice", "app", "main");
    let b = request("alice", "app", "main");
    assert_eq!(a.get_identifier(), b.get_identifier());
}

#[test]
fn identifier_distinguishes_non_colliding_keys() {
    let ids = [
        request("alice", "app", "main").get_identifier(),
        request("alice", "app", "dev").get_identifier(),
        request("alice", "api", "main").get_identifier(),
        request("bob", "app", "main").get_identifier(),
        request("alice-app", "x", "main").get_identifier(),
        request("alice", "app-x", "main").get_identifier(),
    ];
    for i in 0..ids.len() {
        for j in 0..ids.len() {
            if i != j {
                assert_ne!(ids[i], ids[j]);
            }
        }
    }
}
