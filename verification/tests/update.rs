use seris::types::SerisError;
use seris::update::{asset_name, plan_update, temp_update_file_name, update_error, GitHubRelease, ReleaseAsset, UpdatePlan};

fn release(tag: &str, names: &[&str]) -> GitHubRelease {
    GitHubRelease {
        tag_name: tag.to_string(),
        assets: names
            .iter()
            .map(|name| ReleaseAsset {
                name: name.to_string(),
                browser_download_url: format!("https://example.com/{name}"),
            })
            .collect(),
    }
}

#[test]
fn build_temp_update_path_uses_process_id() {
    let name = temp_update_file_name(4242, "v1.2.3");

    assert!(name.contains(".seris-update-"));
    assert!(name.contains("v1.2.3"));
    assert_eq!(name, ".seris-update-4242-v1.2.3");
}

#[test]
fn up_to_date_release_needs_nothing() {
    let r = release("v1.2.3", &[]);
    assert!(matches!(plan_update(&r, "1.2.3"), Ok(UpdatePlan::UpToDate)));
    let r = release("vv1.2.3", &[]);
    assert!(matches!(plan_update(&r, "1.2.3"), Ok(UpdatePlan::UpToDate)));
}

#[test]
fn newer_release_installs_its_binary() {
    let r = release(
        "v9.9.9",
        &[
            "seris-v9.9.9-x86_64-unknown-linux-gnu.tar.gz",
            "seris-v9.9.9-x86_64-unknown-linux-gnu",
            "seris-v9.9.9-x86_64-unknown-linux-gnu",
        ],
    );
    assert!(matches!(plan_update(&r, "1.0.0"), Ok(UpdatePlan::Install(1))));
    assert_eq!(asset_name("v9.9.9"), "seris-v9.9.9-x86_64-unknown-linux-gnu");
}

#[test]
fn release_without_binary_is_an_error() {
    let r = release("v9.9.9", &["install.sh"]);
    match plan_update(&r, "1.0.0") {
        Err(SerisError::Update { message }) => assert_eq!(
            message,
            "release v9.9.9 does not include asset seris-v9.9.9-x86_64-unknown-linux-gnu"
        ),
        _ => panic!("expected a missing asset error"),
    }
    match update_error("boom".to_string()) {
        SerisError::Update { message } => assert_eq!(message, "boom"),
        _ => panic!("expected an update error"),
    }
}
