use bystep_launcher::version::{GameVersion, ShaderQuality};

#[test]
fn version_descriptors() {
    assert_eq!(GameVersion::Fabric1_20_1.minecraft_version(), "1.20.1");
    assert_eq!(GameVersion::Fabric1_21_1.minecraft_version(), "1.21.1");
    assert_eq!(GameVersion::Fabric1_20_1.fabric_loader_version(), "0.16.10");
    assert_eq!(GameVersion::Fabric1_21_1.fabric_loader_version(), "0.18.1");
    assert_eq!(GameVersion::Fabric1_20_1.java_version(), 17);
    assert_eq!(GameVersion::Fabric1_21_1.java_version(), 21);
    assert_eq!(GameVersion::Fabric1_20_1.mods_folder(), "1.20.1-fabric");
    assert_eq!(GameVersion::Fabric1_21_1.display_name(), "1.21.1 Fabric");
    assert_eq!(GameVersion::all(), vec![GameVersion::Fabric1_20_1, GameVersion::Fabric1_21_1]);
    assert_eq!(GameVersion::default(), GameVersion::Fabric1_21_1);
}

#[test]
fn shader_presets() {
    assert_eq!(ShaderQuality::High.display_name(), "Высокие");
    assert_eq!(ShaderQuality::High.display_name_for_version(GameVersion::Fabric1_21_1), "Вкл");
    assert_eq!(ShaderQuality::Low.display_name_for_version(GameVersion::Fabric1_21_1), "Низкие");
    assert_eq!(ShaderQuality::High.display_name_for_version(GameVersion::Fabric1_20_1), "Высокие");
    assert_eq!(ShaderQuality::all().len(), 3);
    assert_eq!(ShaderQuality::for_version(GameVersion::Fabric1_21_1), vec![ShaderQuality::Off, ShaderQuality::High]);
    assert_eq!(ShaderQuality::for_version(GameVersion::Fabric1_20_1), ShaderQuality::all());
    assert_eq!(ShaderQuality::default(), ShaderQuality::High);
}
