//! The documents that describe a runtime version: the version index, the
//! version manifest with its arguments and libraries, and the asset index.

use vstd::prelude::*;

verus! {

/// One entry of the version index.
#[derive(Debug)]
pub struct MCVersionDetails {
    pub id: String,
    pub typ: String,
    pub url: String,
    /// Seconds since the Unix epoch.
    pub release_time: i64,
}

/// The version index.
#[derive(Debug)]
pub struct MCVersionList {
    pub versions: Vec<MCVersionDetails>,
}

/// An index entry without its manifest's address.
#[derive(Debug)]
pub struct MCSimpleVersion {
    pub id: String,
    pub typ: String,
    pub release_time: i64,
}

/// Whether a rule admits or refuses what it matches.
#[derive(Debug, Clone, Copy, PartialEq, Eq, Structural)]
pub enum Action {
    Allow,
    Disallow,
}

/// The platform that a rule speaks of.
#[derive(Debug)]
pub struct MCRuleOs {
    pub name: Option<String>,
    pub arch: Option<String>,
}

/// A platform rule.
#[derive(Debug)]
pub struct MCRule {
    pub action: Action,
    pub os: Option<MCRuleOs>,
}

/// The value of a conditional argument.
#[derive(Debug)]
pub enum MCValue {
    String(String),
    StringList(Vec<String>),
}

/// An argument that counts only where all of its rules apply.
#[derive(Debug)]
pub struct MCArgRule {
    pub rules: Vec<MCRule>,
    pub value: MCValue,
}

/// An entry of the JVM argument list.
#[derive(Debug)]
pub enum MCJvmArg {
    JvmArg(String),
    JvmRule(MCArgRule),
}

/// An entry of the game argument list.
#[derive(Debug)]
pub enum MCGameArg {
    GameArg(String),
    GameRule(MCArgRule),
}

/// The structured argument lists of a manifest.
#[derive(Debug)]
pub struct MCArguments {
    pub game: Vec<MCGameArg>,
    pub jvm: Vec<MCJvmArg>,
}

/// Where a library file comes from and where it is stored below the
/// library directory.
#[derive(Debug)]
pub struct MCLibraryDownloadsArtifacts {
    pub path: String,
    pub url: String,
    pub sha1: Option<String>,
    pub size: Option<u32>,
}

/// The native variants of a library, by operating system.
#[derive(Debug)]
pub struct MCLibraryDownloadsClassifiers {
    pub natives_linux: Option<MCLibraryDownloadsArtifacts>,
    pub natives_osx: Option<MCLibraryDownloadsArtifacts>,
    pub natives_windows: Option<MCLibraryDownloadsArtifacts>,
}

/// The files of a library.
#[derive(Debug)]
pub struct MCLibraryDownloads {
    pub artifact: Option<MCLibraryDownloadsArtifacts>,
    pub classifiers: Option<MCLibraryDownloadsClassifiers>,
}

/// Which entries of a native archive are not unpacked.
#[derive(Debug)]
pub struct MCExtractRule {
    pub exclude: Vec<String>,
}

/// A library of a manifest.
#[derive(Debug)]
pub struct MCLibrary {
    pub downloads: MCLibraryDownloads,
    pub name: String,
    pub rules: Option<Vec<MCRule>>,
    pub extract: Option<MCExtractRule>,
}

/// A file with its digest and address.
#[derive(Debug)]
pub struct MCDownload {
    pub sha1: String,
    pub size: u32,
    pub url: String,
}

/// The downloads of a version itself.
#[derive(Debug)]
pub struct MCDownloads {
    pub client: MCDownload,
}

/// The asset index of a version.
#[derive(Debug)]
pub struct MCAssetIndex {
    pub id: String,
    pub sha1: String,
    pub size: u32,
    pub total_size: u32,
    pub url: String,
}

/// The file of a logging configuration.
#[derive(Debug)]
pub struct MCLoggingFile {
    pub id: String,
    pub sha1: String,
    pub size: u32,
    pub url: String,
}

/// The logging configuration of the client.
#[derive(Debug)]
pub struct MCLoggingClient {
    pub argument: String,
    pub file: MCLoggingFile,
}

/// The logging section of a manifest.
#[derive(Debug)]
pub struct MCLogging {
    pub client: MCLoggingClient,
}

/// The manifest of one runtime version.
#[derive(Debug)]
pub struct MCVersionManifest {
    pub arguments: Option<MCArguments>,
    pub minecraft_arguments: Option<String>,
    pub asset_index: MCAssetIndex,
    pub downloads: MCDownloads,
    pub id: String,
    pub libraries: Vec<MCLibrary>,
    pub logging: Option<MCLogging>,
    pub main_class: String,
    pub typ: String,
}

/// One object of an asset index file.
#[derive(Debug)]
pub struct AssetObject {
    pub hash: String,
    pub size: u32,
}

/// The objects of an asset index file.
#[derive(Debug)]
pub struct AssetIndexFile {
    pub objects: Vec<AssetObject>,
}

/// An [`MCRuleOs`] by its contents.
pub struct MCRuleOsView {
    pub name: Option<Seq<char>>,
    pub arch: Option<Seq<char>>,
}

/// An [`MCRule`] by its contents.
pub struct MCRuleView {
    pub action: Action,
    pub os: Option<MCRuleOsView>,
}

/// An [`MCLibraryDownloadsArtifacts`] by its contents.
pub struct ArtifactView {
    pub path: Seq<char>,
    pub url: Seq<char>,
    pub sha1: Option<Seq<char>>,
    pub size: Option<u32>,
}

/// An [`MCLibraryDownloadsClassifiers`] by its contents.
pub struct ClassifiersView {
    pub natives_linux: Option<ArtifactView>,
    pub natives_osx: Option<ArtifactView>,
    pub natives_windows: Option<ArtifactView>,
}

/// An [`MCLibraryDownloads`] by its contents.
pub struct LibraryDownloadsView {
    pub artifact: Option<ArtifactView>,
    pub classifiers: Option<ClassifiersView>,
}

/// An [`MCLibrary`] by its contents.
pub struct LibraryView {
    pub downloads: LibraryDownloadsView,
    pub name: Seq<char>,
    pub rules: Option<Seq<MCRuleView>>,
    pub extract: Option<Seq<Seq<char>>>,
}

impl DeepView for MCRuleOs {
    type V = MCRuleOsView;

    open spec fn deep_view(&self) -> MCRuleOsView {
        MCRuleOsView { name: self.name.deep_view(), arch: self.arch.deep_view() }
    }
}

impl DeepView for MCRule {
    type V = MCRuleView;

    open spec fn deep_view(&self) -> MCRuleView {
        MCRuleView { action: self.action, os: self.os.deep_view() }
    }
}

impl DeepView for MCLibraryDownloadsArtifacts {
    type V = ArtifactView;

    open spec fn deep_view(&self) -> ArtifactView {
        ArtifactView {
            path: self.path@,
            url: self.url@,
            sha1: self.sha1.deep_view(),
            size: self.size,
        }
    }
}

impl DeepView for MCLibraryDownloadsClassifiers {
    type V = ClassifiersView;

    open spec fn deep_view(&self) -> ClassifiersView {
        ClassifiersView {
            natives_linux: self.natives_linux.deep_view(),
            natives_osx: self.natives_osx.deep_view(),
            natives_windows: self.natives_windows.deep_view(),
        }
    }
}

impl DeepView for MCLibraryDownloads {
    type V = LibraryDownloadsView;

    open spec fn deep_view(&self) -> LibraryDownloadsView {
        LibraryDownloadsView {
            artifact: self.artifact.deep_view(),
            classifiers: self.classifiers.deep_view(),
        }
    }
}

impl DeepView for MCExtractRule {
    type V = Seq<Seq<char>>;

    open spec fn deep_view(&self) -> Seq<Seq<char>> {
        self.exclude.deep_view()
    }
}

impl DeepView for MCLibrary {
    type V = LibraryView;

    open spec fn deep_view(&self) -> LibraryView {
        LibraryView {
            downloads: self.downloads.deep_view(),
            name: self.name@,
            rules: self.rules.deep_view(),
            extract: self.extract.deep_view(),
        }
    }
}

} // verus!
