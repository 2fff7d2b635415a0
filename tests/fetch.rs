use bystep_launcher::fetch::{
    asset_candidates, asset_index_candidate, client_candidate, fabric_candidates, find_version_url,
    library_candidates, plan_downloads, DownloadTask, FabricLibrary,
};
use bystep_launcher::maven::maven_name_to_path;
use bystep_launcher::types::{
    Artifact, AssetIndex, AssetIndexInfo, AssetObject, DownloadInfo, Downloads, Library,
    LibraryDownloads, OsRule, Rule, VersionEntry, VersionInfo, VersionManifest,
};

fn task(url: &str, path: &str) -> DownloadTask {
    DownloadTask { url: url.to_string(), path: path.to_string() }
}

fn artifact_lib(path: &str, rules: Option<Vec<Rule>>) -> Library {
    Library {
        downloads: Some(LibraryDownloads {
            artifact: Some(Artifact {
                path: path.to_string(),
                url: format!("https://libs/{}", path),
                sha1: String::new(),
                size: 1,
            }),
        }),
        name: "g:a:1".to_string(),
        rules,
    }
}

fn info(libraries: Vec<Library>) -> VersionInfo {
    VersionInfo {
        id: "1.21.1".to_string(),
        asset_index: AssetIndexInfo { id: "17".to_string(), url: "https://idx".to_string(), sha1: String::new() },
        downloads: Downloads { client: DownloadInfo { url: "https://client".to_string(), sha1: String::new(), size: 3 } },
        libraries,
        main_class: "Main".to_string(),
    }
}

#[test]
fn second_fetch_downloads_nothing() {
    let cands = vec![task("u1", "a/x.jar"), task("u2", "b/y.jar"), task("u3", "a/x.jar")];
    let first = plan_downloads(&cands, &vec![false, true, false]);
    assert_eq!(first.len(), 1);
    assert_eq!((first[0].url.as_str(), first[0].path.as_str()), ("u1", "a/x.jar"));
    let present: Vec<bool> = cands.iter().map(|c| first.iter().any(|f| f.path == c.path) || c.path == "b/y.jar").collect();
    assert!(plan_downloads(&cands, &present).is_empty());
}

#[test]
fn nothing_to_fetch_when_all_present() {
    let cands = vec![task("u1", "p1"), task("u2", "p2")];
    assert!(plan_downloads(&cands, &vec![true, true]).is_empty());
    assert!(plan_downloads(&vec![], &vec![]).is_empty());
}

#[test]
fn library_candidates_follow_rules() {
    let v = info(vec![
        artifact_lib("a/a.jar", None),
        artifact_lib("b/b.jar", Some(vec![Rule { action: "allow".to_string(), os: Some(OsRule { name: "osx".to_string() }) }])),
        Library { downloads: None, name: "n".to_string(), rules: None },
    ]);
    let c = library_candidates(&v, "windows");
    assert_eq!(c.len(), 1);
    assert_eq!(c[0].path, "libraries/a/a.jar");
    assert_eq!(c[0].url, "https://libs/a/a.jar");
}

#[test]
fn asset_objects_are_content_addressed() {
    let idx = AssetIndex {
        objects: vec![
            ("icons/a.png".to_string(), AssetObject { hash: "ab12cd".to_string() }),
            ("bad".to_string(), AssetObject { hash: "a".to_string() }),
        ],
    };
    let c = asset_candidates(&idx);
    assert_eq!(c.len(), 1);
    assert_eq!(c[0].path, "assets/objects/ab/ab12cd");
    assert_eq!(c[0].url, "https://resources.download.minecraft.net/ab/ab12cd");
}

#[test]
fn maven_coordinates() {
    assert_eq!(maven_name_to_path("net.fabricmc:fabric-loader:0.18.1"), "net/fabricmc/fabric-loader/0.18.1/fabric-loader-0.18.1.jar");
    assert_eq!(maven_name_to_path("org.ow2.asm:asm:9.7:sources"), "org/ow2/asm/asm/9.7/asm-9.7.jar");
    assert_eq!(maven_name_to_path("only:two"), "only:two");
    assert_eq!(maven_name_to_path("plain"), "plain");
}

#[test]
fn fabric_libraries_resolve_against_repository() {
    let libs = vec![FabricLibrary { name: "net.fabricmc:intermediary:1.21.1".to_string(), url: "https://maven.fabricmc.net/".to_string() }];
    let c = fabric_candidates(&libs);
    assert_eq!(c[0].url, "https://maven.fabricmc.net/net/fabricmc/intermediary/1.21.1/intermediary-1.21.1.jar");
    assert_eq!(c[0].path, "libraries/net/fabricmc/intermediary/1.21.1/intermediary-1.21.1.jar");
}

#[test]
fn client_and_index_targets() {
    let v = info(vec![]);
    let c = client_candidate(&v, "1.21.1");
    assert_eq!((c.url.as_str(), c.path.as_str()), ("https://client", "versions/1.21.1/1.21.1.jar"));
    let i = asset_index_candidate(&v);
    assert_eq!((i.url.as_str(), i.path.as_str()), ("https://idx", "assets/indexes/17.json"));
}

#[test]
fn manifest_lookup() {
    let m = VersionManifest {
        versions: vec![
            VersionEntry { id: "1.21".to_string(), url: "u0".to_string() },
            VersionEntry { id: "1.21.1".to_string(), url: "u1".to_string() },
            VersionEntry { id: "1.21.1".to_string(), url: "u2".to_string() },
        ],
    };
    assert_eq!(find_version_url(&m, "1.21.1"), Some("u1".to_string()));
    assert_eq!(find_version_url(&m, "9.9"), None);
}

#[test]
fn fabric_profile_libraries_are_read() {
    let profile = r#"{"id":"fabric-loader-0.18.1-1.21.1","libraries":[{"name":"a.b:c:1","url":"https://m/"},{"name":"x:y:2"},{"url":"https://n/"},{"name":"d:e:3","url":"https://o/"}]}"#;
    let libs = bystep_launcher::fetch::fabric_libraries(profile);
    let pairs: Vec<(&str, &str)> = libs.iter().map(|l| (l.name.as_str(), l.url.as_str())).collect();
    assert_eq!(pairs, vec![("a.b:c:1", "https://m/"), ("d:e:3", "https://o/")]);
    assert!(bystep_launcher::fetch::fabric_libraries("{}").is_empty());
    assert!(bystep_launcher::fetch::fabric_libraries(r#"{"libraries":{"name":"a:b:c"}}"#).is_empty());
    assert!(bystep_launcher::fetch::fabric_libraries("[").is_empty());
}
