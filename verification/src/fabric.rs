//! The Fabric loader: its manifest and how its libraries become libraries
//! of the common shape.

use vstd::prelude::*;
use crate::mc_structs::{
    ArtifactView, LibraryDownloadsView, LibraryView, MCArguments, MCLibrary,
};
use crate::text::concat2;
use crate::utils::{is_maven_identifier, maven_identifier_to_path, maven_path};

verus! {

/// The manifest that the Fabric metadata service gives for a pair of
/// runtime and loader version.
#[derive(Debug)]
pub struct FabricVersionManifest {
    pub arguments: MCArguments,
    pub id: String,
    pub libraries: Vec<FabricLibrary>,
    pub main_class: String,
    pub inherits_from: String,
    pub release_time: String,
    pub time: String,
    pub typ: String,
}

/// A library as Fabric names it: a coordinate and the repository it is in.
#[derive(Debug)]
pub struct FabricLibrary {
    pub name: String,
    pub url: String,
    pub sha1: Option<String>,
    pub size: Option<u32>,
}

/// A [`FabricLibrary`] by its contents.
pub struct FabricLibraryView {
    pub name: Seq<char>,
    pub url: Seq<char>,
    pub sha1: Option<Seq<char>>,
    pub size: Option<u32>,
}

impl DeepView for FabricLibrary {
    type V = FabricLibraryView;

    open spec fn deep_view(&self) -> FabricLibraryView {
        FabricLibraryView {
            name: self.name@,
            url: self.url@,
            sha1: self.sha1.deep_view(),
            size: self.size,
        }
    }
}

/// A library with the one artifact described by the given parts.
pub open spec fn simple_library(
    name: Seq<char>,
    url: Seq<char>,
    path: Seq<char>,
    size: Option<u32>,
    sha1: Option<Seq<char>>,
) -> LibraryView {
    LibraryView {
        downloads: LibraryDownloadsView {
            artifact: Some(ArtifactView { path, url, sha1, size }),
            classifiers: None,
        },
        name,
        rules: None,
        extract: None,
    }
}

/// A Fabric library in the common shape: stored at the path of its
/// coordinate and fetched from that path below its repository. Its size is
/// not carried over.
pub open spec fn fabric_to_vanilla(library: FabricLibraryView) -> LibraryView {
    simple_library(
        library.name,
        library.url + maven_path(library.name),
        maven_path(library.name),
        None,
        library.sha1,
    )
}

/// The address of the Fabric manifest for a pair of versions.
pub open spec fn fabric_manifest_url(mc_ver: Seq<char>, loader_ver: Seq<char>) -> Seq<char> {
    "https://meta.fabricmc.net/v2/versions/loader/"@ + mc_ver + "/"@ + loader_ver
        + "/profile/json"@
}

impl FabricVersionManifest {
    /// The address at which the metadata service keeps the manifest for a
    /// pair of versions.
    pub fn url(mc_ver: &str, fabric_loader_ver: &str) -> (url: String)
        ensures
            url@ == fabric_manifest_url(mc_ver@, fabric_loader_ver@),
    {
        let head = concat2("https://meta.fabricmc.net/v2/versions/loader/", mc_ver);
        let mid = concat2(head.as_str(), "/");
        let most = concat2(mid.as_str(), fabric_loader_ver);
        concat2(most.as_str(), "/profile/json")
    }

    /// Tells whether every library is named by a maven coordinate.
    pub fn libraries_valid(&self) -> (valid: bool)
        ensures
            valid == fabric_libraries_valid(self.libraries.deep_view()),
    {
        let mut i: usize = 0;
        while i < self.libraries.len()
            invariant
                i <= self.libraries.len(),
                forall|k: int|
                    0 <= k < i ==> is_maven_identifier(
                        (#[trigger] self.libraries.deep_view()[k]).name,
                    ),
            decreases self.libraries.len() - i,
        {
            assert(self.libraries.deep_view()[i as int] == self.libraries[i as int].deep_view());
            if !crate::utils::is_maven_coordinate(self.libraries[i].name.as_str()) {
                return false;
            }
            i += 1;
        }
        true
    }
}

/// Every library of the list is named by a maven coordinate.
pub open spec fn fabric_libraries_valid(libraries: Seq<FabricLibraryView>) -> bool {
    forall|i: int| 0 <= i < libraries.len() ==> is_maven_identifier((#[trigger] libraries[i]).name)
}

impl FabricLibrary {
    /// Converts the library to the common shape.
    pub fn to_vanilla(self) -> (library: MCLibrary)
        requires
            is_maven_identifier(self.name@),
        ensures
            library.deep_view() == fabric_to_vanilla(self.deep_view()),
    {
        let path = maven_identifier_to_path(self.name.as_str());
        let url = concat2(self.url.as_str(), path.as_str());
        MCLibrary::new_simple(self.name, url, path, None, self.sha1)
    }
}

} // verus!
