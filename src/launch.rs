//! The Java command line that starts the game.

use vstd::prelude::*;
use vstd::string::*;
use crate::json::{json_str_at, json_text_parses, opt_text, pointer_str};
use crate::layout::{client_jar_path, fabric_version_id, java_executable_path, spec_client_jar_path,
    spec_fabric_version_id, spec_java_executable_path, version_json_path};
use crate::server_list::{create_servers_dat, fits_u16, host_of, listed_address, port_of,
    server_label, server_list_file, split_server_address};
use crate::text::{decimal, join, join_strings, path_join, push_decimal, push_str};
use crate::uuid::{generate_offline_uuid, offline_uuid};
use crate::version::{spec_fabric_loader_version, spec_java_version, spec_minecraft_version, GameVersion};

verus! {

/// What the launcher found on disk before starting the game.
#[derive(Debug, Clone)]
pub struct LaunchEnvironment {
    /// Whether the version's Java executable exists.
    pub java_present: bool,
    /// Every jar found under the libraries directory.
    pub library_jars: Vec<String>,
    /// The saved metadata of the release, when it could be read.
    pub version_json: Option<String>,
}

/// A process to start, and the files to prepare before starting it.
#[derive(Debug, Clone)]
pub struct LaunchCommand {
    pub program: String,
    pub args: Vec<String>,
    /// The directory for native libraries, to create before the start.
    pub natives_dir: String,
    /// The server-list file to write, when a server is to be joined.
    pub servers_dat: Option<Vec<u8>>,
}

/// Why the game cannot be started.
#[derive(Debug, Clone, Copy, PartialEq, Eq, Structural)]
pub enum LaunchError {
    /// The Java runtime of this major version is not installed.
    JavaNotFound(u8),
}

pub open spec fn min_u32(a: u32, b: u32) -> u32 {
    if a < b { a } else { b }
}

/// Heap flags, the garbage collector policy and launcher properties.
pub open spec fn jvm_args(game_dir: Seq<char>, ram_gb: u32) -> Seq<Seq<char>> {
    seq![
        "-Xmx"@ + decimal(ram_gb as nat) + "G"@,
        "-Xms"@ + decimal(min_u32(ram_gb, 2) as nat) + "G"@,
        "-XX:+UseG1GC"@,
        "-XX:+ParallelRefProcEnabled"@,
        "-XX:MaxGCPauseMillis=200"@,
        "-Djava.library.path="@ + path_join(game_dir, "natives"@),
        "-Dminecraft.launcher.brand=ByStep"@,
        "-Dminecraft.launcher.version=1.1.1"@,
    ]
}

/// The library jars followed by the client jar, separated by semicolons.
pub open spec fn classpath(game_dir: Seq<char>, jars: Seq<Seq<char>>, v: GameVersion) -> Seq<char> {
    join(jars.push(path_join(game_dir, spec_client_jar_path(spec_minecraft_version(v)))), ";"@)
}

/// The entry point and the identity and session arguments.
pub open spec fn game_args(
    game_dir: Seq<char>,
    nickname: Seq<char>,
    v: GameVersion,
    asset_index: Seq<char>,
    uuid: Seq<char>,
) -> Seq<Seq<char>> {
    seq![
        "net.fabricmc.loader.impl.launch.knot.KnotClient"@,
        "--username"@,
        nickname,
        "--version"@,
        spec_fabric_version_id(spec_fabric_loader_version(v), spec_minecraft_version(v)),
        "--gameDir"@,
        game_dir,
        "--assetsDir"@,
        path_join(game_dir, "assets"@),
        "--assetIndex"@,
        asset_index,
        "--uuid"@,
        uuid,
        "--accessToken"@,
        "0"@,
        "--userType"@,
        "legacy"@,
    ]
}

/// The server to join, when one is given: its host and, if present, its port.
pub open spec fn server_args(server: Option<Seq<char>>) -> Seq<Seq<char>> {
    match server {
        Some(s) => if s.len() == 0 {
            Seq::empty()
        } else {
            seq!["--server"@, host_of(s)] + match port_of(s) {
                Some(p) => seq!["--port"@, p],
                None => Seq::empty(),
            }
        },
        None => Seq::empty(),
    }
}

/// The whole argument list.
pub open spec fn launch_args(
    game_dir: Seq<char>,
    nickname: Seq<char>,
    ram_gb: u32,
    server: Option<Seq<char>>,
    v: GameVersion,
    jars: Seq<Seq<char>>,
    asset_index: Seq<char>,
    uuid: Seq<char>,
) -> Seq<Seq<char>> {
    jvm_args(game_dir, ram_gb) + seq!["-cp"@, classpath(game_dir, jars, v)] + game_args(
        game_dir,
        nickname,
        v,
        asset_index,
        uuid,
    ) + server_args(server)
}

pub open spec fn views(v: Seq<String>) -> Seq<Seq<char>> {
    v.map_values(|s: String| s@)
}

pub open spec fn opt_view(s: Option<&str>) -> Option<Seq<char>> {
    match s {
        Some(t) => Some(t@),
        None => None,
    }
}

fn text(s: &str) -> (r: String)
    ensures
        r@ == s@,
{
    let mut r = String::new();
    push_str(&mut r, s);
    r
}

fn joined(a: &str, b: &str) -> (r: String)
    ensures
        r@ == path_join(a@, b@),
{
    let mut r = String::new();
    push_str(&mut r, a);
    push_str(&mut r, "/");
    push_str(&mut r, b);
    r
}

fn heap_flag(prefix: &str, n: u32) -> (r: String)
    ensures
        r@ == prefix@ + decimal(n as nat) + "G"@,
{
    let mut r = String::new();
    push_str(&mut r, prefix);
    push_decimal(&mut r, n as u64);
    push_str(&mut r, "G");
    r
}

/// The arguments of the game's Java process.
pub fn launch_arguments(
    game_dir: &str,
    nickname: &str,
    ram_gb: u32,
    server_address: Option<&str>,
    version: GameVersion,
    library_jars: &Vec<String>,
    asset_index: &str,
    uuid: &str,
) -> (r: Vec<String>)
    ensures
        views(r@) == launch_args(
            game_dir@,
            nickname@,
            ram_gb,
            opt_view(server_address),
            version,
            views(library_jars@),
            asset_index@,
            uuid@,
        ),
{
    let mc = version.minecraft_version();
    let mut args: Vec<String> = Vec::new();
    args.push(heap_flag("-Xmx", ram_gb));
    args.push(heap_flag("-Xms", if ram_gb < 2 { ram_gb } else { 2 }));
    args.push(text("-XX:+UseG1GC"));
    args.push(text("-XX:+ParallelRefProcEnabled"));
    args.push(text("-XX:MaxGCPauseMillis=200"));
    let mut lib_path = text("-Djava.library.path=");
    let natives = joined(game_dir, "natives");
    push_str(&mut lib_path, natives.as_str());
    args.push(lib_path);
    args.push(text("-Dminecraft.launcher.brand=ByStep"));
    args.push(text("-Dminecraft.launcher.version=1.1.1"));
    let ghost jvm = args@;
    assert(views(jvm) =~= jvm_args(game_dir@, ram_gb));

    let mut cp_parts: Vec<String> = library_jars.clone();
    let client = client_jar_path(mc);
    cp_parts.push(joined(game_dir, client.as_str()));
    assert(views(cp_parts@) =~= views(library_jars@).push(
        path_join(game_dir@, spec_client_jar_path(spec_minecraft_version(version))),
    ));
    args.push(text("-cp"));
    args.push(join_strings(&cp_parts, ";"));
    let ghost with_cp = args@;

    args.push(text("net.fabricmc.loader.impl.launch.knot.KnotClient"));
    args.push(text("--username"));
    args.push(text(nickname));
    args.push(text("--version"));
    args.push(fabric_version_id(version.fabric_loader_version(), mc));
    args.push(text("--gameDir"));
    args.push(text(game_dir));
    args.push(text("--assetsDir"));
    args.push(joined(game_dir, "assets"));
    args.push(text("--assetIndex"));
    args.push(text(asset_index));
    args.push(text("--uuid"));
    args.push(text(uuid));
    args.push(text("--accessToken"));
    args.push(text("0"));
    args.push(text("--userType"));
    args.push(text("legacy"));
    let ghost with_game = args@;
    assert(views(with_game) =~= views(with_cp) + game_args(
        game_dir@,
        nickname@,
        version,
        asset_index@,
        uuid@,
    ));

    if let Some(server) = server_address {
        if server.unicode_len() > 0 {
            let (host, port) = split_server_address(server);
            args.push(text("--server"));
            args.push(host);
            if let Some(p) = port {
                args.push(text("--port"));
                args.push(p);
            }
        }
    }
    assert(views(args@) =~= views(with_game) + server_args(opt_view(server_address)));
    assert(views(args@) =~= launch_args(
        game_dir@,
        nickname@,
        ram_gb,
        opt_view(server_address),
        version,
        views(library_jars@),
        asset_index@,
        uuid@,
    ));
    args
}

/// The asset index to announce at launch: the string `assetIndex.id` of the
/// saved release metadata, or the release string when the metadata is
/// missing, does not parse or has no such string.
pub open spec fn asset_index_of(version_json: Option<Seq<char>>, mc: Seq<char>) -> Seq<char> {
    match version_json {
        Some(t) => match json_str_at(t, "/assetIndex/id"@) {
            Some(id) => id,
            None => mc,
        },
        None => mc,
    }
}

/// Reads the asset index to announce from the saved release metadata.
pub fn asset_index_id(version_json: &Option<String>, mc: &str) -> (r: String)
    ensures
        r@ == asset_index_of(opt_text(*version_json), mc@),
        (version_json matches Some(t) ==> !json_text_parses(t@)) ==> r@ == mc@,
{
    match version_json {
        None => text(mc),
        Some(t) => match pointer_str(t.as_str(), "/assetIndex/id") {
            Some(id) => id,
            None => text(mc),
        },
    }
}

/// Assembles the game's Java process for `version`: heap of `ram_gb`
/// gigabytes (at most two to start with), the classpath of every library jar
/// and the client jar, the player's identity, and the server to join. When a
/// server is given, the server-list file that pins it comes along.
pub fn build_launch_command(
    game_dir: &str,
    nickname: &str,
    ram_gb: u32,
    server_address: Option<&str>,
    version: GameVersion,
    env: &LaunchEnvironment,
) -> (r: Result<LaunchCommand, LaunchError>)
    ensures
        r is Err <==> !env.java_present,
        r matches Err(e) ==> e == LaunchError::JavaNotFound(spec_java_version(version)),
        r matches Ok(c) ==> {
            &&& c.program@ == path_join(game_dir@, spec_java_executable_path(spec_java_version(version)))
            &&& c.natives_dir@ == path_join(game_dir@, "natives"@)
            &&& views(c.args@) == launch_args(
                game_dir@,
                nickname@,
                ram_gb,
                opt_view(server_address),
                version,
                views(env.library_jars@),
                asset_index_of(opt_text(env.version_json), spec_minecraft_version(version)),
                offline_uuid(nickname@),
            )
            &&& match server_address {
                Some(s) if s@.len() > 0 => {
                    &&& c.servers_dat.is_some() == fits_u16(listed_address(s@))
                    &&& c.servers_dat matches Some(b) ==> b@ == server_list_file(
                        vstd::utf8::encode_utf8(server_label()),
                        vstd::utf8::encode_utf8(listed_address(s@)),
                        0,
                    )
                },
                _ => c.servers_dat is None,
            }
        },
{
    let major = version.java_version();
    if !env.java_present {
        return Err(LaunchError::JavaNotFound(major));
    }
    let mc = version.minecraft_version();
    let program = joined(game_dir, java_executable_path(major).as_str());
    let natives_dir = joined(game_dir, "natives");
    let asset_index = asset_index_id(&env.version_json, mc);
    let uuid = generate_offline_uuid(nickname);
    let args = launch_arguments(
        game_dir,
        nickname,
        ram_gb,
        server_address,
        version,
        &env.library_jars,
        asset_index.as_str(),
        uuid.as_str(),
    );
    let servers_dat = match server_address {
        Some(s) => if s.unicode_len() > 0 {
            create_servers_dat(s)
        } else {
            None
        },
        None => None,
    };
    Ok(LaunchCommand { program, args, natives_dir, servers_dat })
}

} // verus!
