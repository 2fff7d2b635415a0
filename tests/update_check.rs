use bystep_launcher::state::{UpdateResult, CURRENT_VERSION, INSTALLER_NAME};
use bystep_launcher::update_check::{decide_update, trim_version_prefix, ReleaseAsset};

fn asset(name: &str, url: Option<&str>) -> ReleaseAsset {
    ReleaseAsset { name: name.to_string(), url: url.map(|u| u.to_string()) }
}

#[test]
fn tag_prefix_removed() {
    assert_eq!(trim_version_prefix("v1.2.0"), "1.2.0");
    assert_eq!(trim_version_prefix("vv2"), "2");
    assert_eq!(trim_version_prefix("v"), "");
    assert_eq!(trim_version_prefix("1.0"), "1.0");
}

#[test]
fn newer_release_with_installer() {
    let assets = vec![asset("notes.txt", Some("n")), asset(INSTALLER_NAME, None), asset(INSTALLER_NAME, Some("https://dl"))];
    match decide_update("v1.2.0", &assets, CURRENT_VERSION, INSTALLER_NAME) {
        UpdateResult::UpdateAvailable(v, u) => {
            assert_eq!(v, "1.2.0");
            assert_eq!(u, "https://dl");
        }
        other => panic!("unexpected {:?}", other),
    }
}

#[test]
fn no_update_cases() {
    let assets = vec![asset(INSTALLER_NAME, Some("https://dl"))];
    assert!(matches!(decide_update("v1.1.0", &assets, CURRENT_VERSION, INSTALLER_NAME), UpdateResult::NoUpdate));
    assert!(matches!(decide_update("", &assets, CURRENT_VERSION, INSTALLER_NAME), UpdateResult::NoUpdate));
    assert!(matches!(decide_update("v2", &vec![], CURRENT_VERSION, INSTALLER_NAME), UpdateResult::NoUpdate));
}

#[test]
fn release_document_is_read() {
    let doc = r#"{"tag_name":"v1.3.0","assets":[{"name":"other.zip","browser_download_url":"o"},{"name":"ByStep-Launcher-Setup.exe","browser_download_url":"https://dl/setup.exe"}]}"#;
    match bystep_launcher::update_check::update_from_release(doc, CURRENT_VERSION, INSTALLER_NAME) {
        UpdateResult::UpdateAvailable(v, u) => {
            assert_eq!(v, "1.3.0");
            assert_eq!(u, "https://dl/setup.exe");
        }
        other => panic!("unexpected {:?}", other),
    }
    let same = r#"{"tag_name":"v1.1.0","assets":[]}"#;
    assert!(matches!(
        bystep_launcher::update_check::update_from_release(same, CURRENT_VERSION, INSTALLER_NAME),
        UpdateResult::NoUpdate
    ));
    assert!(matches!(
        bystep_launcher::update_check::update_from_release("{not json", CURRENT_VERSION, INSTALLER_NAME),
        UpdateResult::NoUpdate
    ));
}
