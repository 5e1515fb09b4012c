//! The game: its update pipeline, integrity check, manifests and launch
//! arguments.
pub mod downloader;
pub mod minecraft_json;
pub mod validate;

use vstd::prelude::*;
use crate::minecraft::minecraft_json::{argument_texts, classpath, string_views, MinecraftJson};
use crate::text::{signed_decimal, signed_decimal_string};

verus! {

/// The base game version.
pub const MINECRAFT_VERSION: &'static str = "1.16.5";

/// The modded version that is launched.
pub const MINECRAFT_FORGE: &'static str = "1.16.5-forge-36.2.34";

/// The installation directory's name under the user's data directory.
pub const WORKING_DIR: &'static str = ".funnycraft";

/// Options of the Java virtual machine.
#[derive(Debug, Clone, PartialEq, Eq)]
pub struct JvmOptions {
    pub native_path: String,
    pub launcher_name: String,
    pub launcher_version: String,
    pub libs: String,
}

impl Default for JvmOptions {
    fn default() -> (r: Self)
        ensures
            r.native_path@ == Seq::<char>::empty(),
            r.launcher_name@ == "RuLauncher"@,
            r.launcher_version@ == "OBT"@,
            r.libs@ == Seq::<char>::empty(),
    {
        JvmOptions {
            native_path: String::new(),
            launcher_name: String::from_str("RuLauncher"),
            launcher_version: String::from_str("OBT"),
            libs: String::new(),
        }
    }
}

impl JvmOptions {
    /// The arguments these options stand for, in order.
    pub open spec fn arg_texts(self) -> Seq<Seq<char>> {
        seq![
            "-Djava.library.path="@ + self.native_path@,
            "-Dminecraft.launcher.brand="@ + self.launcher_name@,
            "-Dminecraft.launcher.version="@ + self.launcher_version@,
            "-cp"@,
            self.libs@,
        ]
    }

    /// The JVM arguments: library path, launcher brand and version, then the
    /// class path.
    pub fn to_args(&self) -> (r: Vec<String>)
        ensures
            string_views(r@) == self.arg_texts(),
    {
        let r = vec![
            String::from_str("-Djava.library.path=").concat(self.native_path.as_str()),
            String::from_str("-Dminecraft.launcher.brand=").concat(self.launcher_name.as_str()),
            String::from_str("-Dminecraft.launcher.version=").concat(self.launcher_version.as_str()),
            String::from_str("-cp"),
            self.libs.clone(),
        ];
        assert(string_views(r@) =~= self.arg_texts());
        r
    }
}

/// Options of the game itself.
#[derive(Debug, Clone, PartialEq, Eq)]
pub struct GameOptions {
    pub username: String,
    pub version: String,
    pub game_dir: String,
    pub assets_dir: String,
    pub assets_index: String,
    pub uuid: String,
    pub access_token: String,
    pub user_type: String,
    pub version_type: String,
    pub server: String,
    pub port: String,
}

impl Default for GameOptions {
    fn default() -> (r: Self)
        ensures
            r.username@ == "MUTS04"@,
            r.version@ == MINECRAFT_FORGE@,
            r.game_dir@ == Seq::<char>::empty(),
            r.assets_dir@ == Seq::<char>::empty(),
            r.assets_index@ == Seq::<char>::empty(),
            r.uuid@ == "TmlsbA=="@,
            r.access_token@ == "dummy_token"@,
            r.user_type@ == "OFFLINE"@,
            r.version_type@ == "release"@,
            r.server@ == "localhost"@,
            r.port@ == "25565"@,
    {
        GameOptions {
            username: String::from_str("MUTS04"),
            version: String::from_str(MINECRAFT_FORGE),
            game_dir: String::new(),
            assets_dir: String::new(),
            assets_index: String::new(),
            uuid: String::from_str("TmlsbA=="),
            access_token: String::from_str("dummy_token"),
            user_type: String::from_str("OFFLINE"),
            version_type: String::from_str("release"),
            server: String::from_str("localhost"),
            port: String::from_str("25565"),
        }
    }
}

impl GameOptions {
    /// The arguments these options stand for, in order.
    pub open spec fn arg_texts(self) -> Seq<Seq<char>> {
        seq![
            "--username"@,
            self.username@,
            "--version"@,
            self.version@,
            "--gameDir"@,
            self.game_dir@,
            "--assetsDir"@,
            self.assets_dir@,
            "--assetIndex"@,
            self.assets_index@,
            "--uuid"@,
            self.uuid@,
            "--accessToken"@,
            self.access_token@,
            "--userType"@,
            self.user_type@,
            "--versionType"@,
            self.version_type@,
            "--server"@,
            self.server@,
            "--port"@,
            self.port@,
        ]
    }

    /// The game arguments, each option's flag followed by its value.
    pub fn to_args(&self) -> (r: Vec<String>)
        ensures
            string_views(r@) == self.arg_texts(),
    {
        let r = vec![
            String::from_str("--username"),
            self.username.clone(),
            String::from_str("--version"),
            self.version.clone(),
            String::from_str("--gameDir"),
            self.game_dir.clone(),
            String::from_str("--assetsDir"),
            self.assets_dir.clone(),
            String::from_str("--assetIndex"),
            self.assets_index.clone(),
            String::from_str("--uuid"),
            self.uuid.clone(),
            String::from_str("--accessToken"),
            self.access_token.clone(),
            String::from_str("--userType"),
            self.user_type.clone(),
            String::from_str("--versionType"),
            self.version_type.clone(),
            String::from_str("--server"),
            self.server.clone(),
            String::from_str("--port"),
            self.port.clone(),
        ];
        assert(string_views(r@) =~= self.arg_texts());
        r
    }
}

/// Where the installation's parts lie, as path texts. `libraries_dir` ends
/// with a separator, so that an artifact's relative path can follow it.
#[derive(Debug, Clone, PartialEq, Eq)]
pub struct GamePaths {
    pub native_dir: String,
    pub libraries_dir: String,
    pub game_jar: String,
    pub game_dir: String,
    pub assets_dir: String,
}

/// Message when the base manifest has no asset index.
pub open spec fn broken_manifest_text() -> Seq<char> {
    "Minecraft launch config file broken. Check your client."@
}

/// Everything needed to launch the game.
#[derive(Debug, Clone, PartialEq, Eq)]
pub struct Minecraft {
    pub forge_data: MinecraftJson,
    pub jvm_options: JvmOptions,
    pub game_options: GameOptions,
}

impl Minecraft {
    /// Composes the launch description from the modded manifest, the base
    /// manifest and the installation paths. The class path holds the modded
    /// manifest's libraries, then the base manifest's, then the game jar.
    /// The base manifest must name an asset index.
    pub fn new(forge_data: MinecraftJson, mc_data: &MinecraftJson, paths: &GamePaths) -> (r: Result<Self, String>)
        ensures
            mc_data.asset_index is None ==> r is Err && r->Err_0@ == broken_manifest_text(),
            mc_data.asset_index is Some ==> r is Ok,
            r is Ok ==> ({
                let m = r.unwrap();
                &&& m.forge_data == forge_data
                &&& m.jvm_options.native_path@ == paths.native_dir@
                &&& m.jvm_options.launcher_name@ == "RuLauncher"@
                &&& m.jvm_options.launcher_version@ == signed_decimal(
                    mc_data.minimum_launcher_version.unwrap_or(0) as int,
                )
                &&& m.jvm_options.libs@ == classpath(paths.libraries_dir@, forge_data.libraries@)
                    + classpath(paths.libraries_dir@, mc_data.libraries@) + paths.game_jar@
                &&& m.game_options.username@ == "MUTS04"@
                &&& m.game_options.version@ == MINECRAFT_FORGE@
                &&& m.game_options.game_dir@ == paths.game_dir@
                &&& m.game_options.assets_dir@ == paths.assets_dir@
                &&& m.game_options.assets_index@ == mc_data.asset_index.unwrap().id@
                &&& m.game_options.uuid@ == "TmlsbA=="@
                &&& m.game_options.access_token@ == "dummy_token"@
                &&& m.game_options.user_type@ == "OFFLINE"@
                &&& m.game_options.version_type@ == "release"@
                &&& m.game_options.server@ == "localhost"@
                &&& m.game_options.port@ == "25565"@
            }),
    {
        let assets_index = match &mc_data.asset_index {
            None => return Err(String::from_str("Minecraft launch config file broken. Check your client.")),
            Some(index) => index.id.clone(),
        };
        let mut jvm_options = JvmOptions::default();
        jvm_options.native_path = paths.native_dir.clone();
        jvm_options.launcher_version = signed_decimal_string(mc_data.minimum_launcher_version.unwrap_or(0));
        let libs = forge_data.libs_to_args(paths.libraries_dir.as_str())
            .concat(mc_data.libs_to_args(paths.libraries_dir.as_str()).as_str())
            .concat(paths.game_jar.as_str());
        jvm_options.libs = libs;
        let mut game_options = GameOptions::default();
        game_options.game_dir = paths.game_dir.clone();
        game_options.assets_dir = paths.assets_dir.clone();
        game_options.assets_index = assets_index;
        Ok(Minecraft { forge_data, jvm_options, game_options })
    }

    /// The spec of the launch arguments, when the modded manifest's argument
    /// lists are plain text.
    pub open spec fn launch_arg_texts(self) -> Option<Seq<Seq<char>>> {
        let jvm = argument_texts(self.forge_data.arguments.jvm);
        let game = argument_texts(self.forge_data.arguments.game);
        if jvm is Some && game is Some {
            Some(
                jvm.unwrap() + self.jvm_options.arg_texts() + seq![self.forge_data.main_class@]
                    + game.unwrap() + self.game_options.arg_texts(),
            )
        } else {
            None
        }
    }

    /// The game process's arguments, in order: the modded manifest's JVM
    /// arguments, the JVM options with the class path, the main class, the
    /// modded manifest's game arguments, then the game options. `None` when
    /// an argument list of the manifest is not plain text.
    pub fn launch_args(&self) -> (r: Option<Vec<String>>)
        ensures
            r is Some <==> self.launch_arg_texts() is Some,
            r is Some ==> string_views(r.unwrap()@) == self.launch_arg_texts().unwrap(),
    {
        let jvm = match self.forge_data.jvm_args_to_arg() {
            None => return None,
            Some(v) => v,
        };
        let game = match self.forge_data.game_args_to_arg() {
            None => return None,
            Some(v) => v,
        };
        let mut args = jvm;
        let mut jvm_options = self.jvm_options.to_args();
        let ghost a1 = args@;
        args.append(&mut jvm_options);
        let ghost a2 = args@;
        let main_class = self.forge_data.main_class.clone();
        args.push(main_class);
        let ghost a3 = args@;
        let mut game_args = game;
        let ghost g = game_args@;
        args.append(&mut game_args);
        let ghost a4 = args@;
        let mut game_options = self.game_options.to_args();
        let ghost o = game_options@;
        args.append(&mut game_options);
        proof {
            assert(string_views(a2) =~= string_views(a1) + self.jvm_options.arg_texts());
            assert(string_views(a3) =~= string_views(a2) + seq![self.forge_data.main_class@]);
            assert(string_views(a4) =~= string_views(a3) + string_views(g));
            assert(string_views(args@) =~= string_views(a4) + string_views(o));
        }
        Some(args)
    }
}

} // verus!
