//! The Forge loader: its manifest, the two shapes of its libraries, and
//! how they become libraries of the common shape.

use vstd::prelude::*;
use crate::consts::{FORGE_MAVEN_URL, MINECRAFT_LIBRARY_URL};
use crate::fabric::simple_library;
use crate::mc_structs::{
    ArtifactView, LibraryDownloadsView, LibraryView, MCArguments, MCLibrary,
    MCLibraryDownloadsArtifacts,
};
use crate::text::{
    chars_of, concat2, concat3, has_substring, push_all, push_str, str_contains, string_of,
};
use crate::utils::{
    forge_pair_name, get_installer_extracts_dir, is_maven_coordinate, is_maven_identifier,
    join_path, maven_identifier_to_path, maven_path, path_join,
};

verus! {

/// The manifest that a Forge installer carries.
#[derive(Debug)]
pub struct ForgeVersionManifest {
    pub arguments: Option<MCArguments>,
    pub minecraft_arguments: Option<String>,
    pub id: String,
    pub libraries: Vec<ForgeLibrary>,
    pub main_class: String,
    pub inherits_from: String,
    pub release_time: String,
    pub time: String,
    pub typ: String,
}

/// A library of a Forge manifest: in the common shape, or in the shape of
/// the installers of the first generation.
#[derive(Debug)]
pub enum ForgeLibrary {
    Vanilla(MCLibrary),
    Forge(LegacyForgeLibrary),
}

/// A library as the installers of the first generation name it.
#[derive(Debug)]
pub struct LegacyForgeLibrary {
    pub name: String,
    pub url: Option<String>,
    pub serverreq: Option<bool>,
    pub clientreq: Option<bool>,
}

/// A [`LegacyForgeLibrary`] by its contents.
pub struct LegacyForgeLibraryView {
    pub name: Seq<char>,
    pub url: Option<Seq<char>>,
    pub serverreq: Option<bool>,
    pub clientreq: Option<bool>,
}

/// A [`ForgeLibrary`] by its contents.
pub enum ForgeLibraryView {
    Vanilla(LibraryView),
    Forge(LegacyForgeLibraryView),
}

impl DeepView for LegacyForgeLibrary {
    type V = LegacyForgeLibraryView;

    open spec fn deep_view(&self) -> LegacyForgeLibraryView {
        LegacyForgeLibraryView {
            name: self.name@,
            url: self.url.deep_view(),
            serverreq: self.serverreq,
            clientreq: self.clientreq,
        }
    }
}

impl DeepView for ForgeLibrary {
    type V = ForgeLibraryView;

    open spec fn deep_view(&self) -> ForgeLibraryView {
        match self {
            ForgeLibrary::Vanilla(library) => ForgeLibraryView::Vanilla(library.deep_view()),
            ForgeLibrary::Forge(library) => ForgeLibraryView::Forge(library.deep_view()),
        }
    }
}

/// The library has an artifact without an address and its coordinate names
/// the loader's own group.
pub open spec fn lacks_forge_url(library: LibraryView) -> bool {
    match library.downloads.artifact {
        Some(artifact) => artifact.url.len() == 0 && has_substring(
            library.name,
            "minecraftforge"@,
        ),
        None => false,
    }
}

/// `path` without its last four characters, the extension `.jar`.
pub open spec fn without_jar_suffix(path: Seq<char>) -> Seq<char> {
    if path.len() >= 4 {
        path.take(path.len() - 4)
    } else {
        Seq::empty()
    }
}

/// The address of the universal jar of a coordinate on the loader's own
/// repository.
pub open spec fn universal_url(name: Seq<char>) -> Seq<char> {
    FORGE_MAVEN_URL@ + without_jar_suffix(maven_path(name)) + "-universal.jar"@
}

/// The library with the address of its artifact filled in where it lacks
/// one that the loader hosts.
pub open spec fn with_forge_url(library: LibraryView) -> LibraryView {
    if lacks_forge_url(library) {
        LibraryView {
            downloads: LibraryDownloadsView {
                artifact: Some(
                    ArtifactView {
                        url: universal_url(library.name),
                        ..library.downloads.artifact->0
                    },
                ),
                ..library.downloads
            },
            ..library
        }
    } else {
        library
    }
}

/// A library of the first generation in the common shape: fetched from
/// its own repository, or from the runtime's library repository where it
/// names none.
pub open spec fn legacy_to_vanilla(library: LegacyForgeLibraryView) -> LibraryView {
    let path = maven_path(library.name);
    let url = match library.url {
        Some(repository) => repository + path,
        None => MINECRAFT_LIBRARY_URL@ + seq!['/'] + path,
    };
    simple_library(library.name, url, path, None, None)
}

/// A Forge library in the common shape.
pub open spec fn forge_to_vanilla(library: ForgeLibraryView) -> LibraryView {
    match library {
        ForgeLibraryView::Vanilla(library) => with_forge_url(library),
        ForgeLibraryView::Forge(library) => legacy_to_vanilla(library),
    }
}

/// The coordinate of the library is one wherever its path is needed.
pub open spec fn forge_library_valid(library: ForgeLibraryView) -> bool {
    match library {
        ForgeLibraryView::Vanilla(library) => lacks_forge_url(library) ==> is_maven_identifier(
            library.name,
        ),
        ForgeLibraryView::Forge(library) => is_maven_identifier(library.name),
    }
}

/// Every library of the list is valid.
pub open spec fn forge_libraries_valid(libraries: Seq<ForgeLibraryView>) -> bool {
    forall|i: int| 0 <= i < libraries.len() ==> forge_library_valid(#[trigger] libraries[i])
}

/// Tells whether the library lacks an address that the loader hosts.
pub fn needs_forge_url(library: &MCLibrary) -> (lacks: bool)
    ensures
        lacks == lacks_forge_url(library.deep_view()),
{
    match &library.downloads.artifact {
        Some(artifact) => artifact.url.as_str().unicode_len() == 0 && str_contains(
            library.name.as_str(),
            "minecraftforge",
        ),
        None => false,
    }
}

/// Builds the address of the universal jar of a coordinate.
pub fn forge_universal_url(name: &str) -> (url: String)
    requires
        is_maven_identifier(name@),
    ensures
        url@ == universal_url(name@),
{
    let maven_name = maven_identifier_to_path(name);
    let path = chars_of(maven_name.as_str());
    let keep: usize = if path.len() >= 4 {
        path.len() - 4
    } else {
        0
    };
    let mut out: Vec<char> = Vec::new();
    push_str(&mut out, FORGE_MAVEN_URL);
    let stem = crate::text::slice_chars(path.as_slice(), 0, keep);
    push_all(&mut out, stem.as_slice());
    push_str(&mut out, "-universal.jar");
    assert(Seq::<char>::empty() + FORGE_MAVEN_URL@ == FORGE_MAVEN_URL@);
    string_of(out.as_slice())
}

/// Fills in the address of the library's artifact where it lacks one that
/// the loader hosts.
pub fn fill_forge_url(library: MCLibrary) -> (filled: MCLibrary)
    requires
        lacks_forge_url(library.deep_view()) ==> is_maven_identifier(library.name@),
    ensures
        filled.deep_view() == with_forge_url(library.deep_view()),
{
    if needs_forge_url(&library) {
        let url = forge_universal_url(library.name.as_str());
        let MCLibrary { downloads, name, rules, extract } = library;
        let crate::mc_structs::MCLibraryDownloads { artifact, classifiers } = downloads;
        let artifact = match artifact {
            Some(a) => Some(
                MCLibraryDownloadsArtifacts { path: a.path, url, sha1: a.sha1, size: a.size },
            ),
            None => None,
        };
        MCLibrary {
            downloads: crate::mc_structs::MCLibraryDownloads { artifact, classifiers },
            name,
            rules,
            extract,
        }
    } else {
        library
    }
}

impl ForgeVersionManifest {
    /// Where the manifest of a pair of versions is cached.
    pub fn get_path(data_dir: &str, mc_ver: &str, forge_ver: &str) -> (path: String)
        ensures
            path@ == join_path(
                join_path(join_path(data_dir@, "forge_cache"@), forge_pair_name(mc_ver@, forge_ver@)),
                "version.json"@,
            ),
    {
        let dir = get_installer_extracts_dir(data_dir, mc_ver, forge_ver);
        path_join(dir.as_str(), "version.json")
    }

    /// Tells whether every library can be converted to the common shape.
    pub fn libraries_valid(&self) -> (valid: bool)
        ensures
            valid == forge_libraries_valid(self.libraries.deep_view()),
    {
        let mut i: usize = 0;
        while i < self.libraries.len()
            invariant
                i <= self.libraries.len(),
                forall|k: int|
                    0 <= k < i ==> forge_library_valid(#[trigger] self.libraries.deep_view()[k]),
            decreases self.libraries.len() - i,
        {
            assert(self.libraries.deep_view()[i as int] == self.libraries[i as int].deep_view());
            if !self.libraries[i].is_valid() {
                return false;
            }
            i += 1;
        }
        true
    }
}

impl ForgeLibrary {
    /// Tells whether the library can be converted to the common shape.
    pub fn is_valid(&self) -> (valid: bool)
        ensures
            valid == forge_library_valid(self.deep_view()),
    {
        match self {
            ForgeLibrary::Vanilla(library) => !needs_forge_url(library) || is_maven_coordinate(
                library.name.as_str(),
            ),
            ForgeLibrary::Forge(library) => is_maven_coordinate(library.name.as_str()),
        }
    }

    /// Converts the library to the common shape.
    pub fn to_vanilla(self) -> (library: MCLibrary)
        requires
            forge_library_valid(self.deep_view()),
        ensures
            library.deep_view() == forge_to_vanilla(self.deep_view()),
    {
        match self {
            ForgeLibrary::Vanilla(library) => fill_forge_url(library),
            ForgeLibrary::Forge(library) => {
                let path = maven_identifier_to_path(library.name.as_str());
                let url = match &library.url {
                    Some(repository) => concat2(repository.as_str(), path.as_str()),
                    None => concat3(MINECRAFT_LIBRARY_URL, "/", path.as_str()),
                };
                proof {
                    reveal_strlit("/");
                    assert("/"@ =~= seq!['/']);
                }
                MCLibrary::new_simple(library.name, url, path, None, None)
            },
        }
    }
}

} // verus!
