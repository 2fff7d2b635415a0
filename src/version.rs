//! Compiled-in descriptors of the selectable game versions.

use vstd::prelude::*;

verus! {

/// A selectable game version: a pinned game release plus its mod loader.
#[derive(Debug, Clone, Copy, PartialEq, Eq, Structural, Default)]
pub enum GameVersion {
    Fabric1_20_1,
    #[default]
    Fabric1_21_1,
}

/// Shader presets offered to the player.
#[derive(Debug, Clone, Copy, PartialEq, Eq, Structural, Default)]
pub enum ShaderQuality {
    Off,
    Low,
    #[default]
    High,
}

pub open spec fn spec_minecraft_version(v: GameVersion) -> Seq<char> {
    match v {
        GameVersion::Fabric1_20_1 => "1.20.1"@,
        GameVersion::Fabric1_21_1 => "1.21.1"@,
    }
}

pub open spec fn spec_display_name(v: GameVersion) -> Seq<char> {
    match v {
        GameVersion::Fabric1_20_1 => "1.20.1 Fabric"@,
        GameVersion::Fabric1_21_1 => "1.21.1 Fabric"@,
    }
}

pub open spec fn spec_mods_folder(v: GameVersion) -> Seq<char> {
    match v {
        GameVersion::Fabric1_20_1 => "1.20.1-fabric"@,
        GameVersion::Fabric1_21_1 => "1.21.1-fabric"@,
    }
}

pub open spec fn spec_fabric_loader_version(v: GameVersion) -> Seq<char> {
    match v {
        GameVersion::Fabric1_20_1 => "0.16.10"@,
        GameVersion::Fabric1_21_1 => "0.18.1"@,
    }
}

pub open spec fn spec_java_version(v: GameVersion) -> u8 {
    match v {
        GameVersion::Fabric1_20_1 => 17,
        GameVersion::Fabric1_21_1 => 21,
    }
}

pub open spec fn spec_shader_name(q: ShaderQuality) -> Seq<char> {
    match q {
        ShaderQuality::Off => "Выкл"@,
        ShaderQuality::Low => "Низкие"@,
        ShaderQuality::High => "Высокие"@,
    }
}

pub open spec fn spec_shader_name_for_version(q: ShaderQuality, v: GameVersion) -> Seq<char> {
    match (v, q) {
        (GameVersion::Fabric1_21_1, ShaderQuality::High) => "Вкл"@,
        _ => spec_shader_name(q),
    }
}

pub open spec fn spec_qualities_for(v: GameVersion) -> Seq<ShaderQuality> {
    match v {
        GameVersion::Fabric1_20_1 => seq![ShaderQuality::Off, ShaderQuality::Low, ShaderQuality::High],
        GameVersion::Fabric1_21_1 => seq![ShaderQuality::Off, ShaderQuality::High],
    }
}

impl GameVersion {
    /// The game release string of this version.
    pub fn minecraft_version(&self) -> (r: &'static str)
        ensures
            r@ == spec_minecraft_version(*self),
    {
        match self {
            GameVersion::Fabric1_20_1 => "1.20.1",
            GameVersion::Fabric1_21_1 => "1.21.1",
        }
    }

    /// The label shown for this version.
    pub fn display_name(&self) -> (r: &'static str)
        ensures
            r@ == spec_display_name(*self),
    {
        match self {
            GameVersion::Fabric1_20_1 => "1.20.1 Fabric",
            GameVersion::Fabric1_21_1 => "1.21.1 Fabric",
        }
    }

    /// The install subdirectory of this version, so that versions can coexist.
    pub fn mods_folder(&self) -> (r: &'static str)
        ensures
            r@ == spec_mods_folder(*self),
    {
        match self {
            GameVersion::Fabric1_20_1 => "1.20.1-fabric",
            GameVersion::Fabric1_21_1 => "1.21.1-fabric",
        }
    }

    /// The pinned mod-loader version.
    pub fn fabric_loader_version(&self) -> (r: &'static str)
        ensures
            r@ == spec_fabric_loader_version(*self),
    {
        match self {
            GameVersion::Fabric1_20_1 => "0.16.10",
            GameVersion::Fabric1_21_1 => "0.18.1",
        }
    }

    /// The Java major version the game needs.
    pub fn java_version(&self) -> (r: u8)
        ensures
            r == spec_java_version(*self),
    {
        match self {
            GameVersion::Fabric1_20_1 => 17,
            GameVersion::Fabric1_21_1 => 21,
        }
    }

    /// Every selectable version, oldest first.
    pub fn all() -> (r: Vec<GameVersion>)
        ensures
            r@ == seq![GameVersion::Fabric1_20_1, GameVersion::Fabric1_21_1],
    {
        vec![GameVersion::Fabric1_20_1, GameVersion::Fabric1_21_1]
    }
}

impl ShaderQuality {
    /// The label of this preset.
    pub fn display_name(&self) -> (r: &'static str)
        ensures
            r@ == spec_shader_name(*self),
    {
        match self {
            ShaderQuality::Off => "Выкл",
            ShaderQuality::Low => "Низкие",
            ShaderQuality::High => "Высокие",
        }
    }

    /// The label of this preset as offered for `version`: the newer version
    /// has a plain on/off switch.
    pub fn display_name_for_version(&self, version: GameVersion) -> (r: &'static str)
        ensures
            r@ == spec_shader_name_for_version(*self, version),
    {
        match version {
            GameVersion::Fabric1_21_1 => match self {
                ShaderQuality::Off => "Выкл",
                ShaderQuality::High => "Вкл",
                ShaderQuality::Low => "Низкие",
            },
            _ => self.display_name(),
        }
    }

    /// Every preset.
    pub fn all() -> (r: Vec<ShaderQuality>)
        ensures
            r@ == seq![ShaderQuality::Off, ShaderQuality::Low, ShaderQuality::High],
    {
        vec![ShaderQuality::Off, ShaderQuality::Low, ShaderQuality::High]
    }

    /// The presets offered for `version`.
    pub fn for_version(version: GameVersion) -> (r: Vec<ShaderQuality>)
        ensures
            r@ == spec_qualities_for(version),
    {
        match version {
            GameVersion::Fabric1_20_1 => vec![ShaderQuality::Off, ShaderQuality::Low, ShaderQuality::High],
            GameVersion::Fabric1_21_1 => vec![ShaderQuality::Off, ShaderQuality::High],
        }
    }
}

} // verus!
