use funnylauncher::minecraft::minecraft_json::{Argument, Arguments, AssetIndex, Library, MinecraftJson};
use funnylauncher::minecraft::{GameOptions, GamePaths, JvmOptions, Minecraft, MINECRAFT_FORGE};

#[test]
fn libs_to_args_test() {
    let mut mr = MinecraftJson::default();

    let mut d1 = Library::default();
    d1.downloads.artifact.path =
        "net/minecraftforge/forge/1.16.5-36.2.34/forge-1.16.5-36.2.34.jar".to_string();
    let mut d2 = Library::default();
    d2.downloads.artifact.path = "org/ow2/asm/asm/9.1/asm-9.1.jar".to_string();

    mr.libraries = vec![d1, d2];

    assert_eq!(mr.libs_to_args("~/"), "~/net/minecraftforge/forge/1.16.5-36.2.34/forge-1.16.5-36.2.34.jar;~/org/ow2/asm/asm/9.1/asm-9.1.jar;");
}

#[test]
fn libs_to_args_of_no_libraries_is_empty() {
    let mr = MinecraftJson::default();
    assert_eq!(mr.libs_to_args("/lib/"), "");
}

fn plain(items: &[&str]) -> Option<Vec<Argument>> {
    Some(items.iter().map(|s| Argument::Plain(s.to_string())).collect())
}

#[test]
fn jvm_args_to_arg_test() {
    let mut mr = MinecraftJson::default();
    mr.arguments = Arguments {
        game: plain(&["--launchTarget", "fmlclient"]),
        jvm: plain(&["-Dforge.logging.console.level=info"]),
    };
    assert_eq!(mr.jvm_args_to_arg(), Some(vec!["-Dforge.logging.console.level=info".to_string()]));
    assert_eq!(
        mr.game_args_to_arg(),
        Some(vec!["--launchTarget".to_string(), "fmlclient".to_string()])
    );
}

#[test]
fn argument_lists_with_conditional_entries_are_refused() {
    let mut mr = MinecraftJson::default();
    mr.arguments.jvm = Some(vec![Argument::Plain("-Xmx2G".to_string()), Argument::Conditional]);
    assert_eq!(mr.jvm_args_to_arg(), None);
    assert_eq!(mr.game_args_to_arg(), None);
}

#[test]
fn jvm_options_to_args() {
    let mut o = JvmOptions::default();
    o.native_path = "/n".to_string();
    o.libs = "a;b;c.jar".to_string();
    assert_eq!(
        o.to_args(),
        vec![
            "-Djava.library.path=/n",
            "-Dminecraft.launcher.brand=RuLauncher",
            "-Dminecraft.launcher.version=OBT",
            "-cp",
            "a;b;c.jar",
        ]
    );
}

#[test]
fn game_options_to_args() {
    let o = GameOptions::default();
    let args = o.to_args();
    assert_eq!(args.len(), 22);
    assert_eq!(args[0], "--username");
    assert_eq!(args[1], "MUTS04");
    assert_eq!(args[3], MINECRAFT_FORGE);
    assert_eq!(args[20], "--port");
    assert_eq!(args[21], "25565");
}

fn paths() -> GamePaths {
    GamePaths {
        native_dir: "/g/versions/1.16.5/natives".to_string(),
        libraries_dir: "/g/libraries/".to_string(),
        game_jar: "/g/versions/1.16.5/1.16.5.jar".to_string(),
        game_dir: "/g".to_string(),
        assets_dir: "/g/assets".to_string(),
    }
}

fn manifests() -> (MinecraftJson, MinecraftJson) {
    let mut forge = MinecraftJson::default();
    let mut l = Library::default();
    l.downloads.artifact.path = "forge.jar".to_string();
    forge.libraries = vec![l];
    forge.main_class = "cpw.mods.modlauncher.Launcher".to_string();
    forge.arguments = Arguments { game: plain(&["--fml"]), jvm: plain(&["-Dx=1"]) };
    let mut mc = MinecraftJson::default();
    let mut l = Library::default();
    l.downloads.artifact.path = "base.jar".to_string();
    mc.libraries = vec![l];
    mc.minimum_launcher_version = Some(21);
    mc.asset_index = Some(AssetIndex { id: "1.16".to_string(), ..AssetIndex::default() });
    (forge, mc)
}

#[test]
fn minecraft_composes_class_path_in_order() {
    let (forge, mc) = manifests();
    let m = Minecraft::new(forge, &mc, &paths()).unwrap();
    assert_eq!(
        m.jvm_options.libs,
        "/g/libraries/forge.jar;/g/libraries/base.jar;/g/versions/1.16.5/1.16.5.jar"
    );
    assert_eq!(m.jvm_options.launcher_version, "21");
    assert_eq!(m.game_options.assets_index, "1.16");
    assert_eq!(m.game_options.game_dir, "/g");
}

#[test]
fn minecraft_without_launcher_version_uses_zero() {
    let (forge, mut mc) = manifests();
    mc.minimum_launcher_version = None;
    let m = Minecraft::new(forge, &mc, &paths()).unwrap();
    assert_eq!(m.jvm_options.launcher_version, "0");
    let (forge, mut mc) = manifests();
    mc.minimum_launcher_version = Some(-7);
    let m = Minecraft::new(forge, &mc, &paths()).unwrap();
    assert_eq!(m.jvm_options.launcher_version, "-7");
}

#[test]
fn minecraft_without_asset_index_is_refused() {
    let (forge, mut mc) = manifests();
    mc.asset_index = None;
    assert_eq!(
        Minecraft::new(forge, &mc, &paths()).unwrap_err(),
        "Minecraft launch config file broken. Check your client."
    );
}

#[test]
fn launch_args_order() {
    let (forge, mc) = manifests();
    let m = Minecraft::new(forge, &mc, &paths()).unwrap();
    let args = m.launch_args().unwrap();
    assert_eq!(args[0], "-Dx=1");
    assert_eq!(args[1], "-Djava.library.path=/g/versions/1.16.5/natives");
    assert_eq!(args[4], "-cp");
    assert_eq!(args[5], m.jvm_options.libs);
    assert_eq!(args[6], "cpw.mods.modlauncher.Launcher");
    assert_eq!(args[7], "--fml");
    assert_eq!(args[8], "--username");
    assert_eq!(args.len(), 1 + 5 + 1 + 1 + 22);
}

#[test]
fn launch_args_refused_without_argument_lists() {
    let (mut forge, mc) = manifests();
    forge.arguments.game = None;
    let m = Minecraft::new(forge, &mc, &paths()).unwrap();
    assert_eq!(m.launch_args(), None);
}
