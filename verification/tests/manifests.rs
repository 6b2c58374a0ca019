use yetalauncher::download::{Download, DownloadStep, Downloader, FileProbe, Retry, AttemptOutcome};
use yetalauncher::fabric::{FabricLibrary, FabricVersionManifest};
use yetalauncher::forge::{ForgeLibrary, ForgeVersionManifest, LegacyForgeLibrary};
use yetalauncher::libraries::{all_rules_apply, ExtractAction};
use yetalauncher::manifests::LoaderManifests;
use yetalauncher::mc_structs::{
    Action, AssetIndexFile, AssetObject, MCArgRule, MCArguments, MCAssetIndex, MCDownload,
    MCDownloads, MCExtractRule, MCGameArg, MCJvmArg, MCLibrary, MCLibraryDownloads,
    MCLibraryDownloadsArtifacts, MCLibraryDownloadsClassifiers, MCLogging, MCLoggingClient,
    MCLoggingFile, MCRule, MCRuleOs, MCValue, MCVersionDetails, MCVersionList, MCVersionManifest,
};
use yetalauncher::notifier::{NotificationState, Notifier};
use yetalauncher::platform::{Arch, Os, Platform};
use yetalauncher::utils::{download_file_checked, stale_given_digest};

const LINUX: Platform = Platform { os: Os::Linux, arch: Arch::X86_64 };
const WINDOWS: Platform = Platform { os: Os::Windows, arch: Arch::X86_64 };
const MAC: Platform = Platform { os: Os::MacOs, arch: Arch::Other };

fn s(text: &str) -> String {
    text.to_string()
}

fn file(path: &str, url: &str, sha1: Option<&str>) -> MCLibraryDownloadsArtifacts {
    MCLibraryDownloadsArtifacts { path: s(path), url: s(url), sha1: sha1.map(String::from), size: Some(10) }
}

fn library(name: &str) -> MCLibrary {
    MCLibrary::new_simple(s(name), format!("https://x/{name}.jar"), format!("{name}.jar"), Some(10), Some(s("abc")))
}

fn os_rule(action: Action, name: Option<&str>, arch: Option<&str>) -> MCRule {
    MCRule { action, os: Some(MCRuleOs { name: name.map(String::from), arch: arch.map(String::from) }) }
}

fn manifest(libraries: Vec<MCLibrary>, arguments: Option<MCArguments>) -> MCVersionManifest {
    MCVersionManifest {
        arguments,
        minecraft_arguments: None,
        asset_index: MCAssetIndex { id: s("12"), sha1: s("idx"), size: 1, total_size: 2, url: s("https://x/12.json") },
        downloads: MCDownloads { client: MCDownload { sha1: s("cl"), size: 3, url: s("https://x/client.jar") } },
        id: s("1.20.1"),
        libraries,
        logging: None,
        main_class: s("net.minecraft.client.main.Main"),
        typ: s("release"),
    }
}

fn names(libraries: &[MCLibrary]) -> Vec<&str> {
    libraries.iter().map(|l| l.name.as_str()).collect()
}

#[test]
fn rule_without_platform_always_applies() {
    assert!(MCRule { action: Action::Allow, os: None }.applies(LINUX));
    assert!(MCRule { action: Action::Disallow, os: None }.applies(LINUX));
}

#[test]
fn allow_rule_applies_on_its_platform_only() {
    let rule = os_rule(Action::Allow, Some("osx"), None);
    assert!(rule.applies(MAC));
    assert!(!rule.applies(LINUX));
    assert!(!rule.applies(WINDOWS));
    assert!(os_rule(Action::Allow, Some("linux"), None).applies(LINUX));
    assert!(os_rule(Action::Allow, Some("windows"), None).applies(WINDOWS));
    assert!(!os_rule(Action::Allow, Some("solaris"), None).applies(LINUX));
}

#[test]
fn disallow_rule_applies_off_its_platform() {
    let rule = os_rule(Action::Disallow, Some("osx"), None);
    assert!(!rule.applies(MAC));
    assert!(rule.applies(LINUX));
}

#[test]
fn architecture_is_matched_too() {
    let rule = os_rule(Action::Allow, None, Some("x86"));
    assert!(rule.applies(Platform { os: Os::Linux, arch: Arch::X86 }));
    assert!(!rule.applies(LINUX));
    assert!(os_rule(Action::Allow, Some("linux"), Some("x86_64")).applies(LINUX));
    assert!(!os_rule(Action::Allow, Some("windows"), Some("x86_64")).applies(LINUX));
    assert!(!os_rule(Action::Allow, None, Some("arm64")).applies(LINUX));
}

#[test]
fn all_rules_have_to_apply() {
    let rules = vec![MCRule { action: Action::Allow, os: None }, os_rule(Action::Disallow, Some("osx"), None)];
    assert!(all_rules_apply(&rules, LINUX));
    assert!(!all_rules_apply(&rules, MAC));
    assert!(all_rules_apply(&Vec::new(), MAC));
}

fn native_library() -> MCLibrary {
    MCLibrary {
        downloads: MCLibraryDownloads {
            artifact: Some(file("org/lwjgl/lwjgl.jar", "https://x/lwjgl.jar", Some("a1"))),
            classifiers: Some(MCLibraryDownloadsClassifiers {
                natives_linux: Some(file("org/lwjgl/lwjgl-natives-linux.jar", "https://x/l.jar", None)),
                natives_osx: Some(file("org/lwjgl/lwjgl-natives-osx.jar", "https://x/o.jar", None)),
                natives_windows: None,
            }),
        },
        name: s("org.lwjgl:lwjgl:2.9.4"),
        rules: Some(vec![os_rule(Action::Disallow, Some("windows"), None)]),
        extract: Some(MCExtractRule { exclude: vec![s("META-INF/")] }),
    }
}

#[test]
fn exactly_one_native_is_selected() {
    let lib = native_library();
    assert_eq!(lib.get_native(Os::Linux).map(|n| n.path.as_str()), Some("org/lwjgl/lwjgl-natives-linux.jar"));
    assert_eq!(lib.get_native(Os::MacOs).map(|n| n.path.as_str()), Some("org/lwjgl/lwjgl-natives-osx.jar"));
    assert_eq!(lib.get_native(Os::Other).map(|n| n.path.as_str()), Some("org/lwjgl/lwjgl-natives-linux.jar"));
    assert!(lib.get_native(Os::Windows).is_none());
    assert!(library("a").get_native(Os::Linux).is_none());
}

#[test]
fn library_files_are_artifact_then_native() {
    let lib = native_library();
    let files: Vec<&str> = lib.get_lib_downloads(Os::Linux).iter().map(|f| f.path.as_str()).collect();
    assert_eq!(files, vec!["org/lwjgl/lwjgl.jar", "org/lwjgl/lwjgl-natives-linux.jar"]);
    assert_eq!(lib.get_lib_downloads(Os::Windows).len(), 1);
    assert_eq!(
        lib.get_paths("/data/libraries", Os::MacOs),
        vec!["/data/libraries/org/lwjgl/lwjgl.jar", "/data/libraries/org/lwjgl/lwjgl-natives-osx.jar"]
    );
}

#[test]
fn library_downloads_carry_digest_but_no_size() {
    let downloads = native_library().get_downloads("/data/libraries", Os::Linux);
    assert_eq!(downloads.len(), 2);
    assert_eq!(downloads[0].path, "/data/libraries/org/lwjgl/lwjgl.jar");
    assert_eq!(downloads[0].url, "https://x/lwjgl.jar");
    assert_eq!(downloads[0].sha1.as_deref(), Some("a1"));
    assert_eq!(downloads[0].size, None);
    assert_eq!(downloads[1].sha1, None);
}

#[test]
fn natives_archive_needs_rule_native_and_platform() {
    let lib = native_library();
    assert_eq!(lib.extract_natives("/l", Os::Linux).as_deref(), Some("/l/org/lwjgl/lwjgl-natives-linux.jar"));
    assert_eq!(lib.extract_natives("/l", Os::Windows), None);
    assert_eq!(lib.natives_archive("/l", LINUX).as_deref(), Some("/l/org/lwjgl/lwjgl-natives-linux.jar"));
    assert_eq!(lib.natives_archive("/l", WINDOWS), None);
    assert_eq!(library("a").extract_natives("/l", Os::Linux), None);
    let mut no_rule = native_library();
    no_rule.extract = None;
    assert_eq!(no_rule.extract_natives("/l", Os::Linux), None);
}

#[test]
fn archive_entries_are_skipped_written_or_created() {
    let rule = MCExtractRule { exclude: vec![s("META-INF/"), s(".sha1")] };
    assert_eq!(rule.entry_action("liblwjgl.so", true, false, false), ExtractAction::WriteFile);
    assert_eq!(rule.entry_action("dir/", true, false, true), ExtractAction::CreateDir);
    assert_eq!(rule.entry_action("META-INF/MANIFEST.MF", true, false, false), ExtractAction::Skip);
    assert_eq!(rule.entry_action("liblwjgl.so.sha1", true, false, false), ExtractAction::Skip);
    assert_eq!(rule.entry_action("liblwjgl.so", true, true, false), ExtractAction::Skip);
    assert_eq!(rule.entry_action("../evil", false, false, false), ExtractAction::Skip);
    assert!(rule.excludes("META-INF/"));
    assert!(!rule.excludes("META-IN"));
}

#[test]
fn version_is_looked_up_by_id() {
    let entry = |id: &str, url: &str| MCVersionDetails { id: s(id), typ: s("release"), url: s(url), release_time: 5 };
    let list = || MCVersionList { versions: vec![entry("1.19", "u1"), entry("1.20.1", "u2"), entry("1.20.1", "u3")] };
    let found = MCVersionDetails::from_id("1.20.1", list()).unwrap();
    assert_eq!(found.url, "u2");
    assert!(MCVersionDetails::from_id("1.21", list()).is_none());
    assert!(MCVersionDetails::from_id("1.19", MCVersionList { versions: Vec::new() }).is_none());
    let simple = entry("1.19", "u1").to_simple();
    assert_eq!((simple.id.as_str(), simple.typ.as_str(), simple.release_time), ("1.19", "release", 5));
}

fn arguments() -> MCArguments {
    MCArguments {
        game: vec![
            MCGameArg::GameArg(s("--username")),
            MCGameArg::GameArg(s("${auth_player_name}")),
            MCGameArg::GameRule(MCArgRule {
                rules: vec![MCRule { action: Action::Allow, os: None }],
                value: MCValue::String(s("--demo")),
            }),
            MCGameArg::GameRule(MCArgRule {
                rules: vec![os_rule(Action::Allow, Some("osx"), None)],
                value: MCValue::StringList(vec![s("--mac"), s("yes")]),
            }),
        ],
        jvm: vec![
            MCJvmArg::JvmRule(MCArgRule {
                rules: vec![os_rule(Action::Allow, Some("windows"), None)],
                value: MCValue::String(s("-XX:HeapDumpPath=x")),
            }),
            MCJvmArg::JvmArg(s("-Dfoo=bar")),
        ],
    }
}

#[test]
fn game_arguments_follow_the_rules() {
    let m = manifest(Vec::new(), Some(arguments()));
    assert_eq!(m.get_game_args(LINUX), vec!["--username", "${auth_player_name}", "--demo"]);
    assert_eq!(m.get_game_args(MAC), vec!["--username", "${auth_player_name}", "--demo", "--mac", "yes"]);
}

#[test]
fn legacy_argument_string_is_split_into_words() {
    let mut m = manifest(Vec::new(), None);
    assert!(!m.has_arguments());
    m.minecraft_arguments = Some(s("--username ${auth_player_name}  --version ${version_name}"));
    assert!(m.has_arguments());
    assert_eq!(m.get_game_args(LINUX), vec!["--username", "${auth_player_name}", "--version", "${version_name}"]);
}

#[test]
fn jvm_arguments_get_class_path_and_natives_flags() {
    let m = manifest(Vec::new(), Some(arguments()));
    assert_eq!(
        m.get_jvm_args(LINUX, "/data/log4j_configs"),
        vec!["-Dfoo=bar", "-cp", "${classpath}", "-Djava.library.path=${natives_directory}"]
    );
    assert_eq!(
        m.get_jvm_args(WINDOWS, "/d"),
        vec!["-XX:HeapDumpPath=x", "-Dfoo=bar", "-cp", "${classpath}", "-Djava.library.path=${natives_directory}"]
    );
    let none = manifest(Vec::new(), None);
    assert_eq!(none.get_jvm_args(LINUX, "/d"), vec!["-cp", "${classpath}", "-Djava.library.path=${natives_directory}"]);
}

#[test]
fn jvm_flags_that_are_present_are_not_added_again() {
    let mut args = arguments();
    args.jvm = vec![
        MCJvmArg::JvmArg(s("-Djava.library.path=${natives_directory}")),
        MCJvmArg::JvmArg(s("-cp")),
        MCJvmArg::JvmArg(s("${classpath}")),
    ];
    let m = manifest(Vec::new(), Some(args));
    assert_eq!(m.get_jvm_args(LINUX, "/d"), vec!["-Djava.library.path=${natives_directory}", "-cp", "${classpath}"]);
}

#[test]
fn logging_argument_names_the_configuration_file() {
    let mut m = manifest(Vec::new(), None);
    m.logging = Some(MCLogging {
        client: MCLoggingClient {
            argument: s("-Dlog4j.configurationFile=${path}"),
            file: MCLoggingFile { id: s("client-1.12.xml"), sha1: s("lg"), size: 1, url: s("https://x/log.xml") },
        },
    });
    let args = m.get_jvm_args(LINUX, "/data/log4j_configs");
    assert_eq!(args.last().unwrap(), "-Dlog4j.configurationFile=/data/log4j_configs/client-1.12.xml");
    let (argument, file) = m.get_log4j_config("/data/log4j_configs").unwrap();
    assert_eq!(argument, "-Dlog4j.configurationFile=${path}");
    assert_eq!(file.path, "/data/log4j_configs/client-1.12.xml");
    assert_eq!(file.url, "https://x/log.xml");
    assert_eq!(file.checksum.as_deref(), Some("lg"));
    assert!(manifest(Vec::new(), None).get_log4j_config("/d").is_none());
}

#[test]
fn class_path_lists_applicable_libraries_then_client_jar() {
    let m = manifest(vec![library("a"), native_library(), library("b")], None);
    assert_eq!(
        m.get_classpath(LINUX, "/l", "/c"),
        "/l/a.jar:/l/org/lwjgl/lwjgl.jar:/l/org/lwjgl/lwjgl-natives-linux.jar:/l/b.jar:/c/1.20.1.jar"
    );
    assert_eq!(m.get_classpath(WINDOWS, "/l", "/c"), "/l/a.jar;/l/b.jar;/c/1.20.1.jar");
    assert_eq!(manifest(Vec::new(), None).get_classpath(LINUX, "/l", "/c"), "/c/1.20.1.jar");
    let downloads: Vec<String> = m.classpath_downloads(WINDOWS, "/l").into_iter().map(|d| d.path).collect();
    assert_eq!(downloads, vec!["/l/a.jar", "/l/b.jar"]);
    assert_eq!(m.classpath_downloads(LINUX, "/l").len(), 4);
    assert_eq!(m.get_main_class(), "net.minecraft.client.main.Main");
}

#[test]
fn client_jar_and_asset_index_are_checked_files() {
    let m = manifest(Vec::new(), None);
    let jar = m.get_client_jar("/data/client_jars");
    assert_eq!(jar.path, "/data/client_jars/1.20.1.jar");
    assert_eq!(jar.url, "https://x/client.jar");
    assert_eq!(jar.checksum.as_deref(), Some("cl"));
    let index = m.get_client_assets("/data/assets");
    assert_eq!(index.path, "/data/assets/indexes/12.json");
    assert_eq!(index.url, "https://x/12.json");
    assert_eq!(index.checksum.as_deref(), Some("idx"));
}

#[test]
fn assets_are_stored_under_their_hash_prefix() {
    let index = AssetIndexFile {
        objects: vec![
            AssetObject { hash: s("bdf48ef6b5d0d23bbb02e17d04865216179f510a"), size: 3665 },
            AssetObject { hash: s("ab"), size: 1 },
        ],
    };
    assert!(index.hashes_valid());
    let downloads = index.asset_downloads("/data/assets");
    assert_eq!(downloads[0].path, "/data/assets/objects/bd/bdf48ef6b5d0d23bbb02e17d04865216179f510a");
    assert_eq!(downloads[0].url, "https://resources.download.minecraft.net/bd/bdf48ef6b5d0d23bbb02e17d04865216179f510a");
    assert_eq!(downloads[0].size, Some(3665));
    assert_eq!(downloads[0].sha1, None);
    assert_eq!(downloads[1].path, "/data/assets/objects/ab/ab");
    assert!(!AssetIndexFile { objects: vec![AssetObject { hash: s("a"), size: 1 }] }.hashes_valid());
}

#[test]
fn checked_file_is_fetched_when_absent_or_different() {
    let sha = "a9993e364706816aba3e25717850c26c9cd0d89d";
    assert!(download_file_checked(Some(sha), false, None));
    assert!(!download_file_checked(Some(sha), true, Some(b"abc")));
    assert!(download_file_checked(Some(sha), true, Some(b"abcd")));
    assert!(download_file_checked(Some(sha), true, None));
    assert!(!download_file_checked(None, true, None));
    assert!(download_file_checked(None, false, Some(b"abc")));
    assert!(!stale_given_digest(Some("x"), true, Some("x")));
    assert!(stale_given_digest(Some("x"), true, Some("y")));
}

fn fabric_manifest() -> FabricVersionManifest {
    FabricVersionManifest {
        arguments: MCArguments { game: vec![MCGameArg::GameArg(s("--fabric"))], jvm: vec![MCJvmArg::JvmArg(s("-DFabricMcEmu= net.minecraft.client.main.Main "))] },
        id: s("fabric-loader-0.15.0-1.20.1"),
        libraries: vec![
            FabricLibrary { name: s("net.fabricmc:fabric-loader:0.15.0"), url: s("https://maven.fabricmc.net/"), sha1: Some(s("f1")), size: Some(7) },
            FabricLibrary { name: s("org.ow2.asm:asm:9.6"), url: s("https://maven.fabricmc.net/"), sha1: None, size: None },
        ],
        main_class: s("net.fabricmc.loader.impl.launch.knot.KnotClient"),
        inherits_from: s("1.20.1"),
        release_time: s("r"),
        time: s("t"),
        typ: s("release"),
    }
}

fn forge_manifest() -> ForgeVersionManifest {
    ForgeVersionManifest {
        arguments: Some(MCArguments { game: vec![MCGameArg::GameArg(s("--launchTarget"))], jvm: Vec::new() }),
        minecraft_arguments: None,
        id: s("1.20.1-forge-47.2.0"),
        libraries: vec![
            ForgeLibrary::Vanilla(library("cpw.mods:securejarhandler:2.1.10")),
            ForgeLibrary::Forge(LegacyForgeLibrary { name: s("org.scala-lang:scala-library:2.10.2"), url: None, serverreq: None, clientreq: Some(true) }),
        ],
        main_class: s("cpw.mods.bootstraplauncher.BootstrapLauncher"),
        inherits_from: s("1.20.1"),
        release_time: s("r"),
        time: s("t"),
        typ: s("release"),
    }
}

#[test]
fn fabric_libraries_come_after_base_libraries() {
    let mut m = manifest(vec![library("base1"), library("base2")], Some(arguments()));
    let fabric = fabric_manifest();
    assert!(fabric.libraries_valid());
    m.merge_with(LoaderManifests::Fabric(fabric));
    assert_eq!(names(&m.libraries), vec!["base1", "base2", "net.fabricmc:fabric-loader:0.15.0", "org.ow2.asm:asm:9.6"]);
    assert_eq!(m.id, "fabric-loader-0.15.0-1.20.1");
    assert_eq!(m.main_class, "net.fabricmc.loader.impl.launch.knot.KnotClient");
    assert_eq!(m.typ, "release");
    let args = m.arguments.as_ref().unwrap();
    assert_eq!(args.game.len(), 5);
    assert!(matches!(&args.game[4], MCGameArg::GameArg(a) if a == "--fabric"));
    assert_eq!(args.jvm.len(), 3);
    let artifact = m.libraries[2].downloads.artifact.as_ref().unwrap();
    assert_eq!(artifact.path, "net/fabricmc/fabric-loader/0.15.0/fabric-loader-0.15.0.jar");
    assert_eq!(artifact.url, "https://maven.fabricmc.net/net/fabricmc/fabric-loader/0.15.0/fabric-loader-0.15.0.jar");
    assert_eq!(artifact.sha1.as_deref(), Some("f1"));
    assert_eq!(artifact.size, None);
}

#[test]
fn forge_libraries_come_before_base_libraries() {
    let mut m = manifest(vec![library("base1"), library("base2")], Some(arguments()));
    let forge = forge_manifest();
    assert!(forge.libraries_valid());
    m.merge_with(LoaderManifests::Forge(forge));
    assert_eq!(
        names(&m.libraries),
        vec!["cpw.mods:securejarhandler:2.1.10", "org.scala-lang:scala-library:2.10.2", "base1", "base2"]
    );
    assert_eq!(m.id, "1.20.1-forge-47.2.0");
    assert_eq!(m.main_class, "cpw.mods.bootstraplauncher.BootstrapLauncher");
    assert_eq!(m.arguments.as_ref().unwrap().game.len(), 5);
    assert_eq!(m.minecraft_arguments, None);
    let legacy = m.libraries[1].downloads.artifact.as_ref().unwrap();
    assert_eq!(legacy.url, "https://libraries.minecraft.net/org/scala-lang/scala-library/2.10.2/scala-library-2.10.2.jar");
    assert_eq!(legacy.path, "org/scala-lang/scala-library/2.10.2/scala-library-2.10.2.jar");
}

#[test]
fn forge_argument_string_replaces_the_base_one() {
    let mut m = manifest(Vec::new(), None);
    m.minecraft_arguments = Some(s("--old"));
    let mut forge = forge_manifest();
    forge.arguments = None;
    forge.minecraft_arguments = Some(s("--username ${auth_player_name} --tweakClass fml"));
    forge.libraries = Vec::new();
    m.merge_with(LoaderManifests::Forge(forge));
    assert_eq!(m.minecraft_arguments.as_deref(), Some("--username ${auth_player_name} --tweakClass fml"));
    assert!(m.arguments.is_none());
    assert!(m.libraries.is_empty());
}

#[test]
fn loader_arguments_are_dropped_without_structured_base_arguments() {
    let mut m = manifest(Vec::new(), None);
    m.minecraft_arguments = Some(s("--old"));
    m.merge_with(LoaderManifests::Fabric(fabric_manifest()));
    assert!(m.arguments.is_none());
    assert_eq!(m.minecraft_arguments.as_deref(), Some("--old"));
    assert_eq!(m.libraries.len(), 2);
}

#[test]
fn empty_forge_url_is_backfilled_with_universal_jar() {
    let mut lib = library("net.minecraftforge:forge:1.12.2-14.23.5.2860");
    lib.downloads.artifact.as_mut().unwrap().url = String::new();
    let vanilla = ForgeLibrary::Vanilla(lib).to_vanilla();
    assert_eq!(
        vanilla.downloads.artifact.as_ref().unwrap().url,
        "https://maven.minecraftforge.net/net/minecraftforge/forge/1.12.2-14.23.5.2860/forge-1.12.2-14.23.5.2860-universal.jar"
    );
    let mut other = library("org.example:lib:1.0");
    other.downloads.artifact.as_mut().unwrap().url = String::new();
    assert_eq!(ForgeLibrary::Vanilla(other).to_vanilla().downloads.artifact.unwrap().url, "");
    let kept = ForgeLibrary::Vanilla(library("net.minecraftforge:forge:1.0")).to_vanilla();
    assert_eq!(kept.downloads.artifact.unwrap().url, "https://x/net.minecraftforge:forge:1.0.jar");
}

#[test]
fn legacy_forge_library_uses_its_own_repository() {
    let lib = ForgeLibrary::Forge(LegacyForgeLibrary {
        name: s("com.typesafe.akka:akka-actor_2.11:2.3.3"),
        url: Some(s("https://maven.minecraftforge.net/")),
        serverreq: Some(true),
        clientreq: Some(true),
    });
    assert!(lib.is_valid());
    let vanilla = lib.to_vanilla();
    let artifact = vanilla.downloads.artifact.unwrap();
    assert_eq!(artifact.url, "https://maven.minecraftforge.net/com/typesafe/akka/akka-actor_2.11/2.3.3/akka-actor_2.11-2.3.3.jar");
    assert_eq!(artifact.sha1, None);
    assert_eq!(artifact.size, None);
    assert!(vanilla.rules.is_none() && vanilla.extract.is_none());
}

#[test]
fn libraries_without_coordinates_are_invalid() {
    let bad = ForgeLibrary::Forge(LegacyForgeLibrary { name: s("nocolons"), url: None, serverreq: None, clientreq: None });
    assert!(!bad.is_valid());
    let mut forge = forge_manifest();
    forge.libraries.push(bad);
    assert!(!forge.libraries_valid());
    let mut fabric = fabric_manifest();
    fabric.libraries.push(FabricLibrary { name: s("a:b"), url: s("u"), sha1: None, size: None });
    assert!(!fabric.libraries_valid());
    assert!(ForgeLibrary::Vanilla(library("anything goes")).is_valid());
}

#[test]
fn loader_manifest_addresses_and_paths() {
    assert_eq!(
        FabricVersionManifest::url("1.20.1", "0.15.0"),
        "https://meta.fabricmc.net/v2/versions/loader/1.20.1/0.15.0/profile/json"
    );
    assert_eq!(
        ForgeVersionManifest::get_path("/data", "1.20.1", "47.2.0"),
        "/data/forge_cache/forge-1.20.1-47.2.0/version.json"
    );
}

#[test]
fn one_missing_library_is_downloaded_and_reported() {
    let lib = MCLibrary::new_simple(s("x:a:1"), s("https://x/a.jar"), s("x/a/1/a-1.jar"), Some(10), Some(s("abc")));
    let m = manifest(vec![lib], None);
    let mut downloader = Downloader::new(Notifier { id: 3, progress: None }, 8);
    for download in m.classpath_downloads(LINUX, "/data/libraries") {
        downloader.add(download);
    }
    let (mut job, started) = downloader.download_all(true, "Minecraft libraries");
    assert_eq!(started.inner.text, "Downloading Minecraft libraries...");
    assert_eq!((started.inner.progress, started.inner.max_progress), (0, 1));
    let queued: Vec<&Download> = job.batches.iter().flatten().collect();
    assert_eq!(queued.len(), 1);
    assert_eq!(queued[0].path, "/data/libraries/x/a/1/a-1.jar");
    assert_eq!(queued[0].url, "https://x/a.jar");

    let artifact = queued[0].clone();
    let mut retry = Retry::new();
    let mut increments = 0;
    let first = artifact.should_download_given(FileProbe::Missing, None);
    assert!(matches!(retry.on_check(first), DownloadStep::Attempt));
    assert!(retry.on_attempt(AttemptOutcome::Stored).is_ok());
    let second = artifact.should_download_given(FileProbe::Found { is_file: true, len: 10 }, Some("abc"));
    assert!(matches!(retry.on_check(second), DownloadStep::Finished));
    assert!(!job.is_complete());
    let progress = job.unit_done();
    increments += 1;
    assert_eq!((progress.inner.progress, progress.inner.max_progress), (1, 1));
    assert!(job.is_complete());
    assert_eq!(increments, 1);
    let done = job.finish();
    assert_eq!(done.inner.text, "Finished downloading 1 Minecraft libraries");
    assert_eq!(done.inner.status, NotificationState::Success);
    assert_eq!((done.inner.progress, done.inner.max_progress), (0, 0));
}
