use bystep_launcher::launch::{asset_index_id, build_launch_command, LaunchEnvironment, LaunchError};
use bystep_launcher::server_list::read_server_list;
use bystep_launcher::version::GameVersion;

fn env(java: bool, json: Option<&str>) -> LaunchEnvironment {
    LaunchEnvironment {
        java_present: java,
        library_jars: vec!["G/libraries/a.jar".to_string(), "G/libraries/b.jar".to_string()],
        version_json: json.map(|s| s.to_string()),
    }
}

#[test]
fn missing_java_is_fatal() {
    let r = build_launch_command("G", "Steve", 4, None, GameVersion::Fabric1_20_1, &env(false, None));
    assert_eq!(r.unwrap_err(), LaunchError::JavaNotFound(17));
}

#[test]
fn launch_arguments_in_order() {
    let json = r#"{"assetIndex":{"id":"17","url":"u"}}"#;
    let c = build_launch_command("G", "Steve", 6, Some("host:25566"), GameVersion::Fabric1_21_1, &env(true, Some(json))).unwrap();
    assert_eq!(c.program, "G/runtime/java-21/bin/java.exe");
    assert_eq!(c.natives_dir, "G/natives");
    let expected: Vec<&str> = vec![
        "-Xmx6G", "-Xms2G", "-XX:+UseG1GC", "-XX:+ParallelRefProcEnabled", "-XX:MaxGCPauseMillis=200",
        "-Djava.library.path=G/natives", "-Dminecraft.launcher.brand=ByStep", "-Dminecraft.launcher.version=1.1.1",
        "-cp", "G/libraries/a.jar;G/libraries/b.jar;G/versions/1.21.1/1.21.1.jar",
        "net.fabricmc.loader.impl.launch.knot.KnotClient",
        "--username", "Steve", "--version", "fabric-loader-0.18.1-1.21.1", "--gameDir", "G",
        "--assetsDir", "G/assets", "--assetIndex", "17", "--uuid", "27ec4fc7-aeb3-b218-6b0f-aad531d70dc8",
        "--accessToken", "0", "--userType", "legacy", "--server", "host", "--port", "25566",
    ];
    assert_eq!(c.args, expected);
    let entry = read_server_list(c.servers_dat.as_ref().unwrap()).unwrap();
    assert_eq!(entry.ip, "host:25566");
}

#[test]
fn small_heap_and_no_server() {
    let c = build_launch_command("G", "A", 1, Some(""), GameVersion::Fabric1_20_1, &env(true, None)).unwrap();
    assert_eq!(c.args[0], "-Xmx1G");
    assert_eq!(c.args[1], "-Xms1G");
    assert!(!c.args.iter().any(|a| a == "--server"));
    assert!(c.servers_dat.is_none());
    let i = c.args.iter().position(|a| a == "--assetIndex").unwrap();
    assert_eq!(c.args[i + 1], "1.20.1");
}

#[test]
fn server_without_port() {
    let c = build_launch_command("G", "A", 4, Some("example.org"), GameVersion::Fabric1_21_1, &env(true, None)).unwrap();
    let n = c.args.len();
    assert_eq!(&c.args[n - 2..], &["--server".to_string(), "example.org".to_string()]);
    assert_eq!(read_server_list(c.servers_dat.as_ref().unwrap()).unwrap().ip, "example.org:25565");
}

#[test]
fn asset_index_fallbacks() {
    assert_eq!(asset_index_id(&None, "1.21.1"), "1.21.1");
    assert_eq!(asset_index_id(&Some("{broken".to_string()), "1.21.1"), "1.21.1");
    assert_eq!(asset_index_id(&Some("{}".to_string()), "1.21.1"), "1.21.1");
    assert_eq!(asset_index_id(&Some(r#"{"assetIndex":{"id":5}}"#.to_string()), "1.21.1"), "1.21.1");
    assert_eq!(asset_index_id(&Some(r#"{"assetIndex":{"id":"19"}}"#.to_string()), "1.21.1"), "19");
    assert_eq!(asset_index_id(&Some(r#"{"assetIndex":"19"}"#.to_string()), "1.21.1"), "1.21.1");
}

#[test]
fn unparseable_metadata_falls_back_to_release() {
    let c = build_launch_command("G", "A", 4, None, GameVersion::Fabric1_21_1, &env(true, Some("{oops"))).unwrap();
    let i = c.args.iter().position(|a| a == "--assetIndex").unwrap();
    assert_eq!(c.args[i + 1], "1.21.1");
}
