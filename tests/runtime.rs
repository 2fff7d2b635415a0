use bystep_launcher::launch::LaunchError;
use bystep_launcher::layout::{catalog_url, fabric_profile_url, install_markers, java_executable_path};
use bystep_launcher::runtime::{
    find_java, get_versioned_game_directory, iris_properties, is_extracted_runtime, java_runtime_url,
};
use bystep_launcher::version::{GameVersion, ShaderQuality};

#[test]
fn extracted_runtime_names() {
    assert!(is_extracted_runtime("jdk-21.0.5+11-jre", 21));
    assert!(is_extracted_runtime("JDK-21.0.5+11", 21));
    assert!(is_extracted_runtime("OpenJDK21U-jre", 21));
    assert!(!is_extracted_runtime("jdk-17.0.1", 21));
    assert!(!is_extracted_runtime("java21.zip", 21));
}

#[test]
fn java_locations() {
    assert_eq!(java_executable_path(17), "runtime/java-17/bin/java.exe");
    assert_eq!(find_java("G", GameVersion::Fabric1_21_1, true), Ok("G/runtime/java-21/bin/java.exe".to_string()));
    assert_eq!(find_java("G", GameVersion::Fabric1_20_1, false), Err(LaunchError::JavaNotFound(17)));
    assert_eq!(
        java_runtime_url(21),
        Some("https://github.com/adoptium/temurin21-binaries/releases/download/jdk-21.0.5%2B11/OpenJDK21U-jre_x64_windows_hotspot_21.0.5_11.zip")
    );
    assert!(java_runtime_url(17).is_none());
}

#[test]
fn directories_and_endpoints() {
    assert_eq!(get_versioned_game_directory("D", GameVersion::Fabric1_20_1), "D/1.20.1-fabric");
    assert_eq!(fabric_profile_url("1.21.1", "0.18.1"), "https://meta.fabricmc.net/v2/versions/loader/1.21.1/0.18.1/profile/json");
    assert_eq!(catalog_url(GameVersion::Fabric1_21_1, "/shaderpacks"), "https://api.github.com/repos/PRISSET/mods/contents/1.21.1-fabric/shaderpacks");
    assert_eq!(
        install_markers(GameVersion::Fabric1_21_1),
        vec!["versions/fabric-loader-0.18.1-1.21.1/fabric-loader-0.18.1-1.21.1.json".to_string(), "versions/1.21.1/1.21.1.jar".to_string()]
    );
}

#[test]
fn shader_settings_file() {
    assert_eq!(iris_properties(ShaderQuality::Off), "shaderPack=\nenableShaders=false\n");
    assert_eq!(iris_properties(ShaderQuality::High), "shaderPack=ComplementaryUnbound_r5.6.1.zip\nenableShaders=true\n");
}
