//! What is read off a version manifest: the entry of a version in the
//! index, the argument lists that count on a platform, and the merge with
//! a loader's manifest.

use vstd::prelude::*;
use crate::fabric::{
    fabric_libraries_valid, fabric_to_vanilla, FabricLibrary, FabricLibraryView,
    FabricVersionManifest,
};
use crate::forge::{
    forge_libraries_valid, forge_to_vanilla, ForgeLibrary, ForgeLibraryView,
    ForgeVersionManifest,
};
use crate::download::{Download, DownloadView};
use crate::libraries::{
    all_rules_apply, artifact_download, lib_downloads, library_applies, rules_apply,
};
use crate::mc_structs::{
    ArtifactView, AssetIndexFile, LibraryView, MCArgRule, MCArguments, MCGameArg, MCJvmArg, MCLibrary, MCSimpleVersion, MCValue,
    MCVersionDetails, MCVersionList, MCVersionManifest,
};
use crate::platform::{classpath_separator_char, Platform};
use crate::text::{
    any_contains, any_has_substring, append_texts, chars_of, concat2, join, join_with, push_all,
    push_str, push_text, slice_chars, string_of, replace_all, split_whitespace,
    split_words, str_eq, str_replace,
};
use crate::utils::{get_classpath_separator, join_path, path_join, CheckedFile};

verus! {

/// The manifest of a loader.
#[derive(Debug)]
pub enum LoaderManifests {
    Fabric(FabricVersionManifest),
    Forge(ForgeVersionManifest),
}

/// `i` is the position of the first entry of the index whose id is `id`.
pub open spec fn is_first_with_id(versions: Seq<MCVersionDetails>, id: Seq<char>, i: int) -> bool {
    &&& 0 <= i < versions.len()
    &&& versions[i].id@ == id
    &&& forall|j: int| 0 <= j < i ==> (#[trigger] versions[j]).id@ != id
}

/// No entry of the index has the id `id`.
pub open spec fn has_no_id(versions: Seq<MCVersionDetails>, id: Seq<char>) -> bool {
    forall|j: int| 0 <= j < versions.len() ==> (#[trigger] versions[j]).id@ != id
}

impl MCVersionDetails {
    /// Looks a version identifier up in the index: gives the first entry
    /// with that id, and nothing where the index holds none.
    pub fn from_id(version_id: &str, version_list: MCVersionList) -> (found: Option<Self>)
        ensures
            match found {
                Some(details) => exists|i: int|
                    is_first_with_id(version_list.versions@, version_id@, i)
                        && version_list.versions@[i] == details,
                None => has_no_id(version_list.versions@, version_id@),
            },
    {
        let mut versions = version_list.versions;
        let mut i: usize = 0;
        while i < versions.len()
            invariant
                i <= versions.len(),
                versions@ == version_list.versions@,
                forall|j: int| 0 <= j < i ==> (#[trigger] versions@[j]).id@ != version_id@,
            decreases versions.len() - i,
        {
            if str_eq(versions[i].id.as_str(), version_id) {
                let details = versions.remove(i);
                assert(is_first_with_id(version_list.versions@, version_id@, i as int));
                return Some(details);
            }
            i += 1;
        }
        None
    }

    /// Drops the address of the manifest.
    pub fn to_simple(self) -> (simple: MCSimpleVersion)
        ensures
            simple == (MCSimpleVersion {
                id: self.id,
                typ: self.typ,
                release_time: self.release_time,
            }),
    {
        MCSimpleVersion { id: self.id, typ: self.typ, release_time: self.release_time }
    }
}

/// The strings of an argument value.
pub open spec fn value_strings(value: MCValue) -> Seq<Seq<char>> {
    match value {
        MCValue::String(string) => seq![string@],
        MCValue::StringList(list) => list.deep_view(),
    }
}

/// The strings that a conditional argument gives on `platform`: those of
/// its value where all of its rules apply, none otherwise.
pub open spec fn rule_strings(rule: MCArgRule, platform: Platform) -> Seq<Seq<char>> {
    if rules_apply(rule.rules.deep_view(), platform) {
        value_strings(rule.value)
    } else {
        Seq::empty()
    }
}

/// The strings that one entry of the game argument list gives.
pub open spec fn game_arg_strings(arg: MCGameArg, platform: Platform) -> Seq<Seq<char>> {
    match arg {
        MCGameArg::GameArg(string) => seq![string@],
        MCGameArg::GameRule(rule) => rule_strings(rule, platform),
    }
}

/// The strings that one entry of the JVM argument list gives.
pub open spec fn jvm_arg_strings(arg: MCJvmArg, platform: Platform) -> Seq<Seq<char>> {
    match arg {
        MCJvmArg::JvmArg(string) => seq![string@],
        MCJvmArg::JvmRule(rule) => rule_strings(rule, platform),
    }
}

/// The strings of a game argument list, entry after entry.
pub open spec fn game_strings(args: Seq<MCGameArg>, platform: Platform) -> Seq<Seq<char>> {
    args.map_values(|arg: MCGameArg| game_arg_strings(arg, platform)).flatten()
}

/// The strings of a JVM argument list, entry after entry.
pub open spec fn jvm_strings(args: Seq<MCJvmArg>, platform: Platform) -> Seq<Seq<char>> {
    args.map_values(|arg: MCJvmArg| jvm_arg_strings(arg, platform)).flatten()
}

/// The game arguments of a manifest: those of its structured list, or, for
/// a manifest without one, the words of its argument string.
pub open spec fn game_args_of(manifest: MCVersionManifest, platform: Platform) -> Seq<Seq<char>> {
    match manifest.arguments {
        Some(args) => game_strings(args.game@, platform),
        None => match manifest.minecraft_arguments {
            Some(string) => split_words(string@),
            None => Seq::empty(),
        },
    }
}

/// `args`, followed by a class path flag with its placeholder where no
/// argument holds `-cp`.
pub open spec fn with_classpath_flag(args: Seq<Seq<char>>) -> Seq<Seq<char>> {
    if any_has_substring(args, "-cp"@) {
        args
    } else {
        args.push("-cp"@).push("${classpath}"@)
    }
}

/// `args`, followed by the flag for the directory of native libraries
/// where no argument holds `java.library.path`.
pub open spec fn with_natives_flag(args: Seq<Seq<char>>) -> Seq<Seq<char>> {
    if any_has_substring(args, "java.library.path"@) {
        args
    } else {
        args.push("-Djava.library.path=${natives_directory}"@)
    }
}

/// `args`, followed by the argument of the logging configuration, if the
/// manifest has one, with the path of its file below `log4j_dir` filled in.
pub open spec fn with_logging_flag(
    args: Seq<Seq<char>>,
    manifest: MCVersionManifest,
    log4j_dir: Seq<char>,
) -> Seq<Seq<char>> {
    match manifest.logging {
        Some(logging) => args.push(
            replace_all(
                logging.client.argument@,
                "${path}"@,
                join_path(log4j_dir, logging.client.file.id@),
            ),
        ),
        None => args,
    }
}

/// The JVM arguments of a manifest, before placeholders are substituted.
pub open spec fn jvm_args_of(
    manifest: MCVersionManifest,
    platform: Platform,
    log4j_dir: Seq<char>,
) -> Seq<Seq<char>> {
    let listed = match manifest.arguments {
        Some(args) => jvm_strings(args.jvm@, platform),
        None => Seq::empty(),
    };
    with_logging_flag(with_natives_flag(with_classpath_flag(listed)), manifest, log4j_dir)
}

fn push_rule_strings(out: &mut Vec<String>, rule: &MCArgRule, platform: Platform)
    ensures
        final(out).deep_view() == old(out).deep_view() + rule_strings(*rule, platform),
{
    if all_rules_apply(&rule.rules, platform) {
        match &rule.value {
            MCValue::String(string) => {
                push_text(out, string.clone());
                assert(old(out).deep_view().push(string@) == old(out).deep_view() + seq![string@]);
            },
            MCValue::StringList(list) => {
                append_texts(out, list);
            },
        }
    } else {
        assert(old(out).deep_view() + Seq::<Seq<char>>::empty() == old(out).deep_view());
    }
}

fn collect_game_strings(args: &Vec<MCGameArg>, platform: Platform) -> (out: Vec<String>)
    ensures
        out.deep_view() == game_strings(args@, platform),
{
    let mut out: Vec<String> = Vec::new();
    let mut i: usize = 0;
    let ghost f = |arg: MCGameArg| game_arg_strings(arg, platform);
    assert(args@.take(0).map_values(f) =~= Seq::<Seq<Seq<char>>>::empty());
    assert(out.deep_view() =~= Seq::<Seq<char>>::empty());
    while i < args.len()
        invariant
            i <= args.len(),
            f == |arg: MCGameArg| game_arg_strings(arg, platform),
            out.deep_view() == args@.take(i as int).map_values(f).flatten(),
        decreases args.len() - i,
    {
        proof {
            assert(args@.take(i + 1).map_values(f) == args@.take(i as int).map_values(f).push(
                f(args@[i as int]),
            ));
            args@.take(i as int).map_values(f).lemma_flatten_push(f(args@[i as int]));
        }
        match &args[i] {
            MCGameArg::GameArg(string) => {
                let ghost before = out.deep_view();
                push_text(&mut out, string.clone());
                assert(before.push(string@) == before + seq![string@]);
            },
            MCGameArg::GameRule(rule) => {
                push_rule_strings(&mut out, rule, platform);
            },
        }
        i += 1;
    }
    assert(args@.take(args.len() as int) == args@);
    out
}

fn collect_jvm_strings(args: &Vec<MCJvmArg>, platform: Platform) -> (out: Vec<String>)
    ensures
        out.deep_view() == jvm_strings(args@, platform),
{
    let mut out: Vec<String> = Vec::new();
    let mut i: usize = 0;
    let ghost f = |arg: MCJvmArg| jvm_arg_strings(arg, platform);
    assert(args@.take(0).map_values(f) =~= Seq::<Seq<Seq<char>>>::empty());
    assert(out.deep_view() =~= Seq::<Seq<char>>::empty());
    while i < args.len()
        invariant
            i <= args.len(),
            f == |arg: MCJvmArg| jvm_arg_strings(arg, platform),
            out.deep_view() == args@.take(i as int).map_values(f).flatten(),
        decreases args.len() - i,
    {
        proof {
            assert(args@.take(i + 1).map_values(f) == args@.take(i as int).map_values(f).push(
                f(args@[i as int]),
            ));
            args@.take(i as int).map_values(f).lemma_flatten_push(f(args@[i as int]));
        }
        match &args[i] {
            MCJvmArg::JvmArg(string) => {
                let ghost before = out.deep_view();
                push_text(&mut out, string.clone());
                assert(before.push(string@) == before + seq![string@]);
            },
            MCJvmArg::JvmRule(rule) => {
                push_rule_strings(&mut out, rule, platform);
            },
        }
        i += 1;
    }
    assert(args@.take(args.len() as int) == args@);
    out
}

impl MCVersionManifest {
    /// Tells whether the manifest has arguments in one of the two forms.
    pub fn has_arguments(&self) -> (has: bool)
        ensures
            has == (self.arguments is Some || self.minecraft_arguments is Some),
    {
        self.arguments.is_some() || self.minecraft_arguments.is_some()
    }

    /// The game arguments that count on `platform`, before placeholders
    /// are substituted.
    pub fn get_game_args(&self, platform: Platform) -> (args: Vec<String>)
        requires
            self.arguments is Some || self.minecraft_arguments is Some,
        ensures
            args.deep_view() == game_args_of(*self, platform),
    {
        match &self.arguments {
            Some(args) => collect_game_strings(&args.game, platform),
            None => match &self.minecraft_arguments {
                Some(string) => split_whitespace(string.as_str()),
                None => Vec::new(),
            },
        }
    }

    /// The JVM arguments that count on `platform`, before placeholders are
    /// substituted: those of the manifest, then a class path flag and a
    /// flag for the native libraries where the manifest has none, then the
    /// argument of its logging configuration.
    pub fn get_jvm_args(&self, platform: Platform, log4j_dir: &str) -> (args: Vec<String>)
        ensures
            args.deep_view() == jvm_args_of(*self, platform, log4j_dir@),
    {
        let mut args: Vec<String> = match &self.arguments {
            Some(arguments) => collect_jvm_strings(&arguments.jvm, platform),
            None => {
                let empty: Vec<String> = Vec::new();
                assert(empty.deep_view() =~= Seq::<Seq<char>>::empty());
                empty
            },
        };
        if !any_contains(&args, "-cp") {
            push_text(&mut args, "-cp".to_owned());
            push_text(&mut args, "${classpath}".to_owned());
        }
        if !any_contains(&args, "java.library.path") {
            push_text(&mut args, "-Djava.library.path=${natives_directory}".to_owned());
        }
        match &self.logging {
            Some(logging) => {
                let path = path_join(log4j_dir, logging.client.file.id.as_str());
                push_text(
                    &mut args,
                    str_replace(logging.client.argument.as_str(), "${path}", path.as_str()),
                );
            },
            None => {},
        }
        args
    }

    /// The entry point of the runtime.
    pub fn get_main_class(&self) -> (main_class: String)
        ensures
            main_class == self.main_class,
    {
        self.main_class.clone()
    }
}


/// Every library of the loader can be converted to the common shape.
pub open spec fn loader_valid(loader: LoaderManifests) -> bool {
    match loader {
        LoaderManifests::Fabric(fabric) => fabric_libraries_valid(fabric.libraries.deep_view()),
        LoaderManifests::Forge(forge) => forge_libraries_valid(forge.libraries.deep_view()),
    }
}

/// Tells whether every library of the loader can be converted to the
/// common shape, as [`MCVersionManifest::merge_with`] asks.
pub fn loader_is_valid(loader: &LoaderManifests) -> (valid: bool)
    ensures
        valid == loader_valid(*loader),
{
    match loader {
        LoaderManifests::Fabric(fabric) => fabric.libraries_valid(),
        LoaderManifests::Forge(forge) => forge.libraries_valid(),
    }
}

/// `after` is `before` with `game` and `jvm` put behind its two lists;
/// where there are no structured arguments, there are none afterwards.
pub open spec fn arguments_extended(
    before: Option<MCArguments>,
    game: Seq<MCGameArg>,
    jvm: Seq<MCJvmArg>,
    after: Option<MCArguments>,
) -> bool {
    match before {
        Some(args) => after is Some && after->0.game@ == args.game@ + game && after->0.jvm@
            == args.jvm@ + jvm,
        None => after is None,
    }
}

/// `merged` is `base` merged with `loader`: the loader gives the identity,
/// its arguments follow the base's, and its libraries, in the common shape,
/// stand behind the base's for Fabric and before them for Forge.
pub open spec fn is_merge_of(
    base: MCVersionManifest,
    loader: LoaderManifests,
    merged: MCVersionManifest,
) -> bool {
    &&& merged.asset_index == base.asset_index
    &&& merged.downloads == base.downloads
    &&& merged.logging == base.logging
    &&& merged.typ == base.typ
    &&& match loader {
        LoaderManifests::Fabric(fabric) => {
            &&& merged.id == fabric.id
            &&& merged.main_class == fabric.main_class
            &&& arguments_extended(
                base.arguments,
                fabric.arguments.game@,
                fabric.arguments.jvm@,
                merged.arguments,
            )
            &&& merged.minecraft_arguments == base.minecraft_arguments
            &&& merged.libraries.deep_view() == base.libraries.deep_view()
                + fabric.libraries.deep_view().map_values(
                |library: FabricLibraryView| fabric_to_vanilla(library),
            )
        },
        LoaderManifests::Forge(forge) => {
            &&& merged.id == forge.id
            &&& merged.main_class == forge.main_class
            &&& match forge.arguments {
                Some(args) => arguments_extended(
                    base.arguments,
                    args.game@,
                    args.jvm@,
                    merged.arguments,
                ),
                None => merged.arguments == base.arguments,
            }
            &&& merged.minecraft_arguments == match forge.minecraft_arguments {
                Some(string) => Some(string),
                None => base.minecraft_arguments,
            }
            &&& merged.libraries.deep_view() == forge.libraries.deep_view().map_values(
                |library: ForgeLibraryView| forge_to_vanilla(library),
            ) + base.libraries.deep_view()
        },
    }
}

fn fabric_libraries_to_vanilla(libraries: Vec<FabricLibrary>) -> (out: Vec<MCLibrary>)
    requires
        fabric_libraries_valid(libraries.deep_view()),
    ensures
        out.deep_view() == libraries.deep_view().map_values(
            |library: FabricLibraryView| fabric_to_vanilla(library),
        ),
{
    let mut out: Vec<MCLibrary> = Vec::new();
    let ghost target = libraries.deep_view().map_values(
        |library: FabricLibraryView| fabric_to_vanilla(library),
    );
    for library in it: libraries.into_iter()
        invariant
            it.seq() == libraries@,
            fabric_libraries_valid(libraries.deep_view()),
            target == libraries.deep_view().map_values(
                |library: FabricLibraryView| fabric_to_vanilla(library),
            ),
            out.len() == it.index(),
            out.deep_view() == target.take(it.index()),
    {
        let ghost i = it.index();
        let ghost before = out;
        assert(libraries.deep_view()[i] == library.deep_view());
        let converted = library.to_vanilla();
        out.push(converted);
        assert forall|k: int| 0 <= k < i + 1 implies out.deep_view()[k] == target[k] by {
            if k < i {
                assert(out@[k] == before@[k]);
                assert(before.deep_view()[k] == before@[k].deep_view());
            }
        }
        assert(out.deep_view() =~= target.take(i + 1));
    }
    assert(target.take(libraries@.len() as int) == target);
    out
}

fn forge_libraries_to_vanilla(libraries: Vec<ForgeLibrary>) -> (out: Vec<MCLibrary>)
    requires
        forge_libraries_valid(libraries.deep_view()),
    ensures
        out.deep_view() == libraries.deep_view().map_values(
            |library: ForgeLibraryView| forge_to_vanilla(library),
        ),
{
    let mut out: Vec<MCLibrary> = Vec::new();
    let ghost target = libraries.deep_view().map_values(
        |library: ForgeLibraryView| forge_to_vanilla(library),
    );
    for library in it: libraries.into_iter()
        invariant
            it.seq() == libraries@,
            forge_libraries_valid(libraries.deep_view()),
            target == libraries.deep_view().map_values(
                |library: ForgeLibraryView| forge_to_vanilla(library),
            ),
            out.len() == it.index(),
            out.deep_view() == target.take(it.index()),
    {
        let ghost i = it.index();
        let ghost before = out;
        assert(libraries.deep_view()[i] == library.deep_view());
        let converted = library.to_vanilla();
        out.push(converted);
        assert forall|k: int| 0 <= k < i + 1 implies out.deep_view()[k] == target[k] by {
            if k < i {
                assert(out@[k] == before@[k]);
                assert(before.deep_view()[k] == before@[k].deep_view());
            }
        }
        assert(out.deep_view() =~= target.take(i + 1));
    }
    assert(target.take(libraries@.len() as int) == target);
    out
}

fn extend_arguments(
    arguments: &mut Option<MCArguments>,
    game: Vec<MCGameArg>,
    jvm: Vec<MCJvmArg>,
)
    ensures
        arguments_extended(*old(arguments), game@, jvm@, *final(arguments)),
{
    let mut game = game;
    let mut jvm = jvm;
    match arguments.take() {
        Some(args) => {
            let mut args = args;
            args.game.append(&mut game);
            args.jvm.append(&mut jvm);
            *arguments = Some(args);
        },
        None => {},
    }
}

impl MCVersionManifest {
    /// Merges the manifest of a loader into this one. The loader gives the
    /// id and the entry point; its arguments are put behind those of the
    /// base; its libraries are converted to the common shape and put behind
    /// the base's for Fabric, before them for Forge; an argument string of
    /// a Forge manifest replaces the base's.
    pub fn merge_with(&mut self, other: LoaderManifests)
        requires
            loader_valid(other),
        ensures
            is_merge_of(*old(self), other, *final(self)),
    {
        match other {
            LoaderManifests::Fabric(fabric) => {
                let FabricVersionManifest {
                    arguments,
                    id,
                    libraries,
                    main_class,
                    inherits_from: _,
                    release_time: _,
                    time: _,
                    typ: _,
                } = fabric;
                self.id = id;
                self.main_class = main_class;
                extend_arguments(&mut self.arguments, arguments.game, arguments.jvm);
                let mut converted = fabric_libraries_to_vanilla(libraries);
                let ghost added = converted.deep_view();
                self.libraries.append(&mut converted);
                assert(self.libraries.deep_view() =~= old(self).libraries.deep_view() + added);
            },
            LoaderManifests::Forge(forge) => {
                let ForgeVersionManifest {
                    arguments,
                    minecraft_arguments,
                    id,
                    libraries,
                    main_class,
                    inherits_from: _,
                    release_time: _,
                    time: _,
                    typ: _,
                } = forge;
                self.id = id;
                self.main_class = main_class;
                match arguments {
                    Some(args) => {
                        extend_arguments(&mut self.arguments, args.game, args.jvm);
                    },
                    None => {},
                }
                match minecraft_arguments {
                    Some(string) => {
                        self.minecraft_arguments = Some(string);
                    },
                    None => {},
                }
                let mut merged = forge_libraries_to_vanilla(libraries);
                let ghost added = merged.deep_view();
                merged.append(&mut self.libraries);
                assert(merged.deep_view() =~= added + old(self).libraries.deep_view());
                self.libraries = merged;
            },
        }
    }
}


/// Where the files of the libraries that count on `platform` are stored,
/// library after library.
pub open spec fn library_paths(
    libraries: Seq<LibraryView>,
    platform: Platform,
    library_dir: Seq<char>,
) -> Seq<Seq<char>>
    decreases libraries.len(),
{
    if libraries.len() == 0 {
        Seq::empty()
    } else {
        library_paths(libraries.drop_last(), platform, library_dir) + if library_applies(
            libraries.last(),
            platform,
        ) {
            lib_downloads(libraries.last(), platform.os).map_values(
                |file: ArtifactView| join_path(library_dir, file.path),
            )
        } else {
            Seq::empty()
        }
    }
}

/// The downloads that bring the libraries that count on `platform` into
/// the store, library after library.
pub open spec fn library_downloads(
    libraries: Seq<LibraryView>,
    platform: Platform,
    library_dir: Seq<char>,
) -> Seq<DownloadView>
    decreases libraries.len(),
{
    if libraries.len() == 0 {
        Seq::empty()
    } else {
        library_downloads(libraries.drop_last(), platform, library_dir) + if library_applies(
            libraries.last(),
            platform,
        ) {
            lib_downloads(libraries.last(), platform.os).map_values(
                |file: ArtifactView| artifact_download(library_dir, file),
            )
        } else {
            Seq::empty()
        }
    }
}

/// Where the client jar of the version `id` is kept.
pub open spec fn client_jar_path(client_jar_dir: Seq<char>, id: Seq<char>) -> Seq<char> {
    join_path(client_jar_dir, id + ".jar"@)
}

/// The class path of a manifest: the files of its libraries that count on
/// `platform`, in the order of the manifest, then the client jar, joined by
/// the platform's separator.
pub open spec fn classpath_of(
    manifest: MCVersionManifest,
    platform: Platform,
    library_dir: Seq<char>,
    client_jar_dir: Seq<char>,
) -> Seq<char> {
    join_with(
        library_paths(manifest.libraries.deep_view(), platform, library_dir).push(
            client_jar_path(client_jar_dir, manifest.id@),
        ),
        seq![classpath_separator_char(platform.os)],
    )
}

/// The download of one asset: stored and fetched under the first two
/// characters of its hash and the hash itself, and checked by its size.
pub open spec fn asset_download(assets_dir: Seq<char>, hash: Seq<char>, size: u32) -> DownloadView {
    DownloadView {
        sha1: None,
        size: Some(size),
        path: join_path(join_path(join_path(assets_dir, "objects"@), hash.take(2)), hash),
        url: "https://resources.download.minecraft.net/"@ + hash.take(2) + seq!['/'] + hash,
    }
}

/// Every hash of the index has the two characters that its place in the
/// store is named by.
pub open spec fn asset_hashes_valid(index: AssetIndexFile) -> bool {
    forall|i: int| 0 <= i < index.objects@.len() ==> (#[trigger] index.objects@[i]).hash@.len() >= 2
}

impl AssetIndexFile {
    /// Tells whether every object can be placed in the store.
    pub fn hashes_valid(&self) -> (valid: bool)
        ensures
            valid == asset_hashes_valid(*self),
    {
        let mut i: usize = 0;
        while i < self.objects.len()
            invariant
                i <= self.objects.len(),
                forall|k: int| 0 <= k < i ==> (#[trigger] self.objects@[k]).hash@.len() >= 2,
            decreases self.objects.len() - i,
        {
            if self.objects[i].hash.as_str().unicode_len() < 2 {
                return false;
            }
            i += 1;
        }
        true
    }

    /// The downloads that bring the objects of the index into the store
    /// below `assets_dir`, in the order of the index.
    pub fn asset_downloads(&self, assets_dir: &str) -> (downloads: Vec<Download>)
        requires
            asset_hashes_valid(*self),
        ensures
            downloads.len() == self.objects.len(),
            forall|i: int|
                0 <= i < self.objects.len() ==> (#[trigger] downloads[i]).deep_view()
                    == asset_download(assets_dir@, self.objects[i].hash@, self.objects[i].size),
    {
        let objects_dir = path_join(assets_dir, "objects");
        let mut downloads: Vec<Download> = Vec::new();
        let mut i: usize = 0;
        while i < self.objects.len()
            invariant
                i <= self.objects.len(),
                asset_hashes_valid(*self),
                objects_dir@ == join_path(assets_dir@, "objects"@),
                downloads.len() == i,
                forall|k: int|
                    0 <= k < i ==> (#[trigger] downloads[k]).deep_view() == asset_download(
                        assets_dir@,
                        self.objects[k].hash@,
                        self.objects[k].size,
                    ),
            decreases self.objects.len() - i,
        {
            let object = &self.objects[i];
            assert(object.hash@.len() >= 2);
            let hash = chars_of(object.hash.as_str());
            let prefix = slice_chars(hash.as_slice(), 0, 2);
            let prefix_text = string_of(prefix.as_slice());
            let mut url: Vec<char> = Vec::new();
            push_str(&mut url, "https://resources.download.minecraft.net/");
            push_all(&mut url, prefix.as_slice());
            url.push('/');
            push_all(&mut url, hash.as_slice());
            assert(Seq::<char>::empty() + "https://resources.download.minecraft.net/"@
                == "https://resources.download.minecraft.net/"@);
            let prefix_dir = path_join(objects_dir.as_str(), prefix_text.as_str());
            let path = path_join(prefix_dir.as_str(), object.hash.as_str());
            let download = Download {
                sha1: None,
                size: Some(object.size),
                path,
                url: string_of(url.as_slice()),
            };
            proof {
                assert(object.hash@.subrange(0, 2) == object.hash@.take(2));
                assert(download.url@ =~= "https://resources.download.minecraft.net/"@
                    + object.hash@.take(2) + seq!['/'] + object.hash@);
                assert(download.deep_view() == asset_download(
                    assets_dir@,
                    object.hash@,
                    object.size,
                ));
            }
            downloads.push(download);
            i += 1;
        }
        downloads
    }
}

impl MCVersionManifest {
    /// The downloads that bring every library that counts on `platform`
    /// into the store below `library_dir`.
    pub fn classpath_downloads(&self, platform: Platform, library_dir: &str) -> (downloads: Vec<
        Download,
    >)
        ensures
            downloads.deep_view() == library_downloads(
                self.libraries.deep_view(),
                platform,
                library_dir@,
            ),
    {
        let mut downloads: Vec<Download> = Vec::new();
        let mut i: usize = 0;
        let ghost libraries = self.libraries.deep_view();
        assert(downloads.deep_view() =~= Seq::<DownloadView>::empty());
        assert(libraries.take(0) =~= Seq::<LibraryView>::empty());
        while i < self.libraries.len()
            invariant
                i <= self.libraries.len(),
                libraries == self.libraries.deep_view(),
                downloads.deep_view() == library_downloads(
                    libraries.take(i as int),
                    platform,
                    library_dir@,
                ),
            decreases self.libraries.len() - i,
        {
            proof {
                assert(libraries.take(i + 1).drop_last() == libraries.take(i as int));
                assert(libraries.take(i + 1).last() == self.libraries[i as int].deep_view());
            }
            let ghost before = downloads.deep_view();
            if self.libraries[i].applies(platform) {
                let mut files = self.libraries[i].get_downloads(library_dir, platform.os);
                let ghost added = files.deep_view();
                downloads.append(&mut files);
                assert(downloads.deep_view() =~= before + added);
            } else {
                assert(before + Seq::<DownloadView>::empty() == before);
            }
            i += 1;
        }
        assert(libraries.take(self.libraries.len() as int) == libraries);
        downloads
    }

    /// The class path of the runtime on `platform`.
    pub fn get_classpath(&self, platform: Platform, library_dir: &str, client_jar_dir: &str) -> (classpath:
        String)
        ensures
            classpath@ == classpath_of(*self, platform, library_dir@, client_jar_dir@),
    {
        let mut entries: Vec<String> = Vec::new();
        let mut i: usize = 0;
        let ghost libraries = self.libraries.deep_view();
        assert(entries.deep_view() =~= Seq::<Seq<char>>::empty());
        assert(libraries.take(0) =~= Seq::<LibraryView>::empty());
        while i < self.libraries.len()
            invariant
                i <= self.libraries.len(),
                libraries == self.libraries.deep_view(),
                entries.deep_view() == library_paths(
                    libraries.take(i as int),
                    platform,
                    library_dir@,
                ),
            decreases self.libraries.len() - i,
        {
            proof {
                assert(libraries.take(i + 1).drop_last() == libraries.take(i as int));
                assert(libraries.take(i + 1).last() == self.libraries[i as int].deep_view());
            }
            let ghost before = entries.deep_view();
            if self.libraries[i].applies(platform) {
                let mut paths = self.libraries[i].get_paths(library_dir, platform.os);
                let ghost added = paths.deep_view();
                entries.append(&mut paths);
                assert(entries.deep_view() =~= before + added);
            } else {
                assert(before + Seq::<Seq<char>>::empty() == before);
            }
            i += 1;
        }
        assert(libraries.take(self.libraries.len() as int) == libraries);
        let jar = self.get_client_jar(client_jar_dir);
        push_text(&mut entries, jar.path);
        let separator = get_classpath_separator(platform.os);
        join(&entries, separator.as_str())
    }

    /// The client jar of the version: where it is kept below
    /// `client_jar_dir`, where it comes from, and its digest.
    pub fn get_client_jar(&self, client_jar_dir: &str) -> (jar: CheckedFile)
        ensures
            jar.path@ == client_jar_path(client_jar_dir@, self.id@),
            jar.url == self.downloads.client.url,
            jar.checksum == Some(self.downloads.client.sha1),
    {
        let name = concat2(self.id.as_str(), ".jar");
        CheckedFile {
            path: path_join(client_jar_dir, name.as_str()),
            url: self.downloads.client.url.clone(),
            checksum: Some(self.downloads.client.sha1.clone()),
        }
    }

    /// The logging configuration of the version, if it has one: the
    /// argument that names it, and its file below `log4j_dir`.
    pub fn get_log4j_config(&self, log4j_dir: &str) -> (config: Option<(String, CheckedFile)>)
        ensures
            match config {
                Some((argument, file)) => self.logging is Some && argument
                    == self.logging->0.client.argument && file.path@ == join_path(
                    log4j_dir@,
                    self.logging->0.client.file.id@,
                ) && file.url == self.logging->0.client.file.url && file.checksum == Some(
                    self.logging->0.client.file.sha1,
                ),
                None => self.logging is None,
            },
    {
        match &self.logging {
            Some(logging) => Some(
                (
                    logging.client.argument.clone(),
                    CheckedFile {
                        path: path_join(log4j_dir, logging.client.file.id.as_str()),
                        url: logging.client.file.url.clone(),
                        checksum: Some(logging.client.file.sha1.clone()),
                    },
                ),
            ),
            None => None,
        }
    }

    /// The asset index of the version: where it is kept below
    /// `assets_dir`, where it comes from, and its digest.
    pub fn get_client_assets(&self, assets_dir: &str) -> (index: CheckedFile)
        ensures
            index.path@ == join_path(
                join_path(assets_dir@, "indexes"@),
                self.asset_index.id@ + ".json"@,
            ),
            index.url == self.asset_index.url,
            index.checksum == Some(self.asset_index.sha1),
    {
        let dir = path_join(assets_dir, "indexes");
        let name = concat2(self.asset_index.id.as_str(), ".json");
        CheckedFile {
            path: path_join(dir.as_str(), name.as_str()),
            url: self.asset_index.url.clone(),
            checksum: Some(self.asset_index.sha1.clone()),
        }
    }
}

} // verus!
