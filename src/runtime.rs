//! The Java runtime a version needs, and the game's directories and
//! configuration files.

use vstd::prelude::*;
use crate::launch::LaunchError;
use crate::layout::{java_executable_path, spec_java_executable_path};
use crate::text::{decimal, has_at, path_join, push_decimal, push_str, starts_with};
use crate::version::{spec_java_version, spec_mods_folder, GameVersion, ShaderQuality};

verus! {

/// The lower-case form of a text.
pub uninterp spec fn lowercase_of(s: Seq<char>) -> Seq<char>;

/// Relies on `str::to_lowercase`: the lower-case form, which depends on the
/// characters alone.
#[verifier::external_body]
fn lowercase(s: &str) -> (r: String)
    ensures
        r@ == lowercase_of(s@),
{
    s.to_lowercase()
}

/// Whether a lower-case directory name is an extracted runtime of `major`:
/// `jdk-<major>...` or `openjdk...`.
pub open spec fn runtime_dir_match(lower: Seq<char>, major: u8) -> bool {
    has_at(lower, 0, "jdk-"@ + decimal(major as nat)) || has_at(lower, 0, "openjdk"@)
}

/// Whether an already lower-cased directory name is an extracted runtime.
pub fn is_runtime_dir_name(lower: &str, major: u8) -> (r: bool)
    ensures
        r == runtime_dir_match(lower@, major),
{
    let mut prefix = String::new();
    push_str(&mut prefix, "jdk-");
    push_decimal(&mut prefix, major as u64);
    starts_with(lower, prefix.as_str()) || starts_with(lower, "openjdk")
}

/// Whether a directory found after extracting the runtime archive is the
/// runtime, whatever the case of its name.
pub fn is_extracted_runtime(name: &str, major: u8) -> (r: bool)
    ensures
        r == runtime_dir_match(lowercase_of(name@), major),
{
    let lower = lowercase(name);
    is_runtime_dir_name(lower.as_str(), major)
}

/// The Java 21 runtime archive: Temurin 21.0.5+11, JRE for 64-bit Windows.
pub open spec fn java21_runtime_url() -> Seq<char> {
    "https://github.com/adoptium/temurin21-binaries/releases/download/jdk-21.0.5%2B11/OpenJDK21U-jre_x64_windows_hotspot_21.0.5_11.zip"@
}

/// Where the runtime archive for a Java major version is downloaded from,
/// for the versions the launcher knows.
pub fn java_runtime_url(major: u8) -> (r: Option<&'static str>)
    ensures
        r.is_some() == (major == 21),
        r matches Some(u) ==> u@ == java21_runtime_url(),
{
    if major == 21 {
        Some(
            "https://github.com/adoptium/temurin21-binaries/releases/download/jdk-21.0.5%2B11/OpenJDK21U-jre_x64_windows_hotspot_21.0.5_11.zip",
        )
    } else {
        None
    }
}

/// The Java executable of `version` under `game_dir`, when it is present.
pub fn find_java(game_dir: &str, version: GameVersion, java_present: bool) -> (r: Result<
    String,
    LaunchError,
>)
    ensures
        r is Ok <==> java_present,
        r matches Ok(p) ==> p@ == path_join(game_dir@, spec_java_executable_path(spec_java_version(version))),
        r matches Err(e) ==> e == LaunchError::JavaNotFound(spec_java_version(version)),
{
    let major = version.java_version();
    if !java_present {
        return Err(LaunchError::JavaNotFound(major));
    }
    let mut p = String::new();
    push_str(&mut p, game_dir);
    push_str(&mut p, "/");
    push_str(&mut p, java_executable_path(major).as_str());
    Ok(p)
}

/// The directory of one version under the launcher's data directory.
pub fn get_versioned_game_directory(base_dir: &str, version: GameVersion) -> (r: String)
    ensures
        r@ == path_join(base_dir@, spec_mods_folder(version)),
{
    let mut p = String::new();
    push_str(&mut p, base_dir);
    push_str(&mut p, "/");
    push_str(&mut p, version.mods_folder());
    p
}

/// The shader pack that the launcher ships.
pub open spec fn shader_pack() -> Seq<char> {
    "ComplementaryUnbound_r5.6.1.zip"@
}

/// The shader settings file for a preset: no pack and shaders off, or the
/// shipped pack and shaders on.
pub open spec fn iris_text(q: ShaderQuality) -> Seq<char> {
    if q == ShaderQuality::Off {
        "shaderPack=\nenableShaders=false\n"@
    } else {
        "shaderPack="@ + shader_pack() + "\nenableShaders=true\n"@
    }
}

/// The contents of the shader settings file for `quality`.
pub fn iris_properties(quality: ShaderQuality) -> (r: String)
    ensures
        r@ == iris_text(quality),
{
    let mut s = String::new();
    match quality {
        ShaderQuality::Off => {
            push_str(&mut s, "shaderPack=\nenableShaders=false\n");
        },
        _ => {
            push_str(&mut s, "shaderPack=");
            push_str(&mut s, "ComplementaryUnbound_r5.6.1.zip");
            push_str(&mut s, "\nenableShaders=true\n");
        },
    }
    assert(s@ =~= iris_text(quality));
    s
}

/// The game options written into a fresh game directory: Russian language,
/// auto-jump off and the launcher's graphics defaults.
pub const DEFAULT_OPTIONS: &'static str = "version:3465\nautoJump:false\noperatorItemsTab:false\nautoSuggestions:true\nchatColors:true\nchatLinks:true\nchatLinksPrompt:true\nenableVsync:true\nentityShadows:true\nforceUnicodeFont:false\ndiscrete_mouse_scroll:false\ninvertYMouse:false\nrealmsNotifications:true\nreducedDebugInfo:false\nshowSubtitles:false\ndirectionalAudio:false\ntouchscreen:false\nfullscreen:false\nbobView:true\ntoggleCrouch:false\ntoggleSprint:false\ndarkMojangStudiosBackground:false\nhideLightningFlashes:false\nmouseSensitivity:0.5\nfov:0.0\nscreenEffectScale:1.0\nfovEffectScale:1.0\ndarknessEffectScale:1.0\nglintSpeed:0.5\nglintStrength:0.75\ndamageTiltStrength:1.0\nhighContrast:false\ngamma:0.5\nrenderDistance:12\nsimulationDistance:12\nentityDistanceScaling:1.0\nguiScale:0\nparticles:0\nmaxFps:120\ngraphicsMode:1\nao:true\nprioritizeChunkUpdates:0\nbiomeBlendRadius:2\nrenderClouds:\"true\"\nresourcePacks:[]\nincompatibleResourcePacks:[]\nlastServer:\nlang:ru_ru\nsoundDevice:\nchatVisibility:0\nchatOpacity:1.0\nchatLineSpacing:0.0\ntextBackgroundOpacity:0.5\nbackgroundForChatOnly:true\nhideServerAddress:false\nadvancedItemTooltips:false\npauseOnLostFocus:true\noverrideWidth:0\noverrideHeight:0\nchatHeightFocused:1.0\nchatDelay:0.0\nchatHeightUnfocused:0.4375\nchatScale:1.0\nchatWidth:1.0\nnotificationDisplayTime:1.0\nmipmapLevels:4\nuseNativeTransport:true\nmainHand:\"right\"\nattackIndicator:1\nnarrator:0\ntutorialStep:none\nmouseWheelSensitivity:1.0\nrawMouseInput:true\nglDebugVerbosity:1\nskipMultiplayerWarning:true\nskipRealms32bitWarning:false\nhideMatchedNames:true\njoinedFirstServer:true\nhideBundleTutorial:false\nsyncChunkWrites:true\nshowAutosaveIndicator:true\nallowServerListing:true\nonlyShowSecureChat:false\npanoramaScrollSpeed:1.0\ntelemetryOptInExtra:false\nonboardAccessibility:false\n";

} // verus!
