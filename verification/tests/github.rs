use nextui_updater::github::{
    choose_asset, fetch_latest_release, fetch_tag, refused, release_url, tags_url, Asset, Commit,
    Release, Reply, Tag,
};

fn asset(name: &str) -> Asset {
    Asset { name: name.to_string(), url: format!("https://example.org/{name}") }
}

fn release(tag_name: &str) -> Release {
    Release { tag_name: tag_name.to_string(), assets: vec![asset("a.zip"), asset("b.zip")] }
}

fn tag(name: &str, sha: &str) -> Tag {
    Tag { name: name.to_string(), commit: Commit { sha: sha.to_string() } }
}

#[test]
fn addresses_of_the_api() {
    assert_eq!(
        release_url("LoveRetro/NextUI"),
        "https://api.github.com/repos/LoveRetro/NextUI/releases/latest"
    );
    assert_eq!(tags_url("LoveRetro/NextUI"), "https://api.github.com/repos/LoveRetro/NextUI/tags");
}

#[test]
fn takes_the_body_of_a_successful_answer() {
    for status in [200, 204, 299] {
        let reply = Reply::Answered { status, body: Ok(release("v1")) };
        let got = fetch_latest_release(reply).unwrap();
        assert_eq!(got.tag_name, "v1");
        assert_eq!(got.assets.len(), 2);
        assert_eq!(got.assets[1].url, "https://example.org/b.zip");
    }
}

#[test]
fn refuses_other_answers_with_their_status() {
    let cases = [
        (404, "GitHub API request failed: 404 Not Found"),
        (403, "GitHub API request failed: 403 Forbidden"),
        (199, "GitHub API request failed: 199 <unknown status code>"),
        (300, "GitHub API request failed: 300 Multiple Choices"),
        (999, "GitHub API request failed: 999 <unknown status code>"),
        (100, "GitHub API request failed: 100 Continue"),
    ];
    for (status, message) in cases {
        let reply = Reply::Answered { status, body: Ok(release("v1")) };
        assert_eq!(fetch_latest_release(reply).unwrap_err(), message);
        let undecoded: Reply<Release> =
            Reply::Answered { status, body: Err("no JSON".to_string()) };
        assert_eq!(fetch_latest_release(undecoded).unwrap_err(), message);
    }
    assert_eq!(refused("418 I'm a teapot"), "GitHub API request failed: 418 I'm a teapot");
}

#[test]
fn hands_on_what_went_wrong_before_or_after_the_status() {
    assert_eq!(
        fetch_latest_release(Reply::Unsent("no route to host".to_string())).unwrap_err(),
        "no route to host"
    );
    assert_eq!(
        fetch_latest_release(Reply::Answered { status: 200, body: Err("no JSON".to_string()) })
            .unwrap_err(),
        "no JSON"
    );
    assert_eq!(fetch_tag(Reply::Unsent("timeout".to_string()), "v1").unwrap_err(), "timeout");
}

#[test]
fn finds_the_first_tag_of_a_name() {
    let tags = vec![tag("v1", "aaa"), tag("v2", "bbb"), tag("v2", "ccc")];
    let found = fetch_tag(Reply::Answered { status: 200, body: Ok(tags) }, "v2").unwrap();
    assert_eq!(found.name, "v2");
    assert_eq!(found.commit.sha, "bbb");
}

#[test]
fn misses_a_tag_that_is_not_there() {
    let tags = vec![tag("v1", "aaa"), tag("v10", "bbb")];
    let reply = Reply::Answered { status: 200, body: Ok(tags) };
    assert_eq!(fetch_tag(reply, "v").unwrap_err(), "Tag not found");
    let none = Reply::Answered { status: 200, body: Ok(Vec::new()) };
    assert_eq!(fetch_tag(none, "v1").unwrap_err(), "Tag not found");
}

#[test]
fn chooses_the_asset_by_its_keyword() {
    let assets =
        vec![asset("readme.txt"), asset("NextUI-base.zip"), asset("NextUI-all.zip"), asset("all")];
    assert_eq!(choose_asset(&assets, true).unwrap().name, "NextUI-all.zip");
    assert_eq!(choose_asset(&assets, false).unwrap().name, "NextUI-base.zip");
    assert_eq!(
        choose_asset(&assets, false).unwrap().url,
        "https://example.org/NextUI-base.zip"
    );
}

#[test]
fn falls_back_on_the_first_asset() {
    let assets = vec![asset("one.zip"), asset("two.zip")];
    assert_eq!(choose_asset(&assets, true).unwrap().name, "one.zip");
    assert_eq!(choose_asset(&assets, false).unwrap().name, "one.zip");
    assert!(choose_asset(&Vec::new(), true).is_none());
}

#[test]
fn clones_keep_everything() {
    let copy = release("v3").clone();
    assert_eq!(copy.tag_name, "v3");
    assert_eq!(copy.assets[0].name, "a.zip");
    let copy = tag("v3", "abc").clone();
    assert_eq!(copy.name, "v3");
    assert_eq!(copy.commit.sha, "abc");
}
