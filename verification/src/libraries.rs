//! Libraries of a manifest: which of them count on a platform, which files
//! they bring, and where those are stored.

use vstd::prelude::*;
use crate::download::{Download, DownloadView};
use crate::mc_structs::{
    Action, ArtifactView, LibraryView, MCExtractRule, MCLibrary, MCLibraryDownloads,
    MCLibraryDownloadsArtifacts, MCRule, MCRuleView,
};
use crate::platform::{Arch, Os, Platform};
use crate::text::{has_substring, str_contains, str_eq};
use crate::utils::{join_path, path_join};

verus! {

/// The architecture that a rule names is the platform's; no name matches
/// every architecture, an unknown name none.
pub open spec fn arch_matches(arch: Option<Seq<char>>, platform: Arch) -> bool {
    match arch {
        None => true,
        Some(name) => (name == "x86"@ && platform == Arch::X86) || (name == "x86_64"@ && platform
            == Arch::X86_64),
    }
}

/// The operating system that a rule names is the platform's; no name
/// matches every system, an unknown name none.
pub open spec fn os_matches(os: Option<Seq<char>>, platform: Os) -> bool {
    match os {
        None => true,
        Some(name) => (name == "linux"@ && platform == Os::Linux) || (name == "osx"@ && platform
            == Os::MacOs) || (name == "windows"@ && platform == Os::Windows),
    }
}

/// Whether a rule lets its subject count on `platform`: a rule without a
/// platform always does; an allowing rule does where its platform matches, a
/// refusing rule where it does not.
pub open spec fn rule_applies(rule: MCRuleView, platform: Platform) -> bool {
    match rule.os {
        None => true,
        Some(os) => {
            let matches = arch_matches(os.arch, platform.arch) && os_matches(os.name, platform.os);
            match rule.action {
                Action::Allow => matches,
                Action::Disallow => !matches,
            }
        },
    }
}

/// Every rule of the list applies.
pub open spec fn rules_apply(rules: Seq<MCRuleView>, platform: Platform) -> bool {
    forall|i: int| 0 <= i < rules.len() ==> rule_applies(#[trigger] rules[i], platform)
}

/// A library counts on `platform` where it has no rules or all of them apply.
pub open spec fn library_applies(library: LibraryView, platform: Platform) -> bool {
    match library.rules {
        Some(rules) => rules_apply(rules, platform),
        None => true,
    }
}

impl MCRule {
    /// Tells whether the rule lets its subject count on `platform`.
    pub fn applies(&self, platform: Platform) -> (applies: bool)
        ensures
            applies == rule_applies(self.deep_view(), platform),
    {
        match &self.os {
            None => true,
            Some(os_rule) => {
                let arch_ok = match &os_rule.arch {
                    None => true,
                    Some(arch) => (str_eq(arch.as_str(), "x86") && platform.arch == Arch::X86) || (
                    str_eq(arch.as_str(), "x86_64") && platform.arch == Arch::X86_64),
                };
                let os_ok = match &os_rule.name {
                    None => true,
                    Some(os) => (str_eq(os.as_str(), "linux") && platform.os == Os::Linux) || (
                    str_eq(os.as_str(), "osx") && platform.os == Os::MacOs) || (str_eq(
                        os.as_str(),
                        "windows",
                    ) && platform.os == Os::Windows),
                };
                match self.action {
                    Action::Allow => arch_ok && os_ok,
                    Action::Disallow => !(arch_ok && os_ok),
                }
            },
        }
    }
}

/// Tells whether every rule of `rules` applies on `platform`.
pub fn all_rules_apply(rules: &Vec<MCRule>, platform: Platform) -> (all: bool)
    ensures
        all == rules_apply(rules.deep_view(), platform),
{
    let mut i: usize = 0;
    while i < rules.len()
        invariant
            i <= rules.len(),
            forall|k: int| 0 <= k < i ==> rule_applies(#[trigger] rules.deep_view()[k], platform),
        decreases rules.len() - i,
    {
        if !rules[i].applies(platform) {
            assert(rules.deep_view()[i as int] == rules[i as int].deep_view());
            return false;
        }
        assert(rules.deep_view()[i as int] == rules[i as int].deep_view());
        i += 1;
    }
    true
}

/// The one native variant of a library that `os` uses, if it has one.
pub open spec fn native_of(library: LibraryView, os: Os) -> Option<ArtifactView> {
    match library.downloads.classifiers {
        None => None,
        Some(classifiers) => match os {
            Os::Windows => classifiers.natives_windows,
            Os::MacOs => classifiers.natives_osx,
            _ => classifiers.natives_linux,
        },
    }
}

/// The files of a library on `os`: its artifact, then its native variant.
pub open spec fn lib_downloads(library: LibraryView, os: Os) -> Seq<ArtifactView> {
    let artifact = match library.downloads.artifact {
        Some(artifact) => seq![artifact],
        None => Seq::empty(),
    };
    let native = match native_of(library, os) {
        Some(native) => seq![native],
        None => Seq::empty(),
    };
    artifact + native
}

/// The download of a library file into the store at `library_dir`. The
/// size is not checked.
pub open spec fn artifact_download(library_dir: Seq<char>, artifact: ArtifactView) -> DownloadView {
    DownloadView {
        sha1: artifact.sha1,
        size: None,
        path: join_path(library_dir, artifact.path),
        url: artifact.url,
    }
}

/// A native archive entry is left out where one of the exclusions stands
/// in its name.
pub open spec fn is_excluded(exclude: Seq<Seq<char>>, name: Seq<char>) -> bool {
    exists|i: int| 0 <= i < exclude.len() && has_substring(name, #[trigger] exclude[i])
}

/// What is done with one entry of a native archive.
#[derive(Debug, Clone, Copy, PartialEq, Eq, Structural)]
pub enum ExtractAction {
    /// Leave the entry alone.
    Skip,
    /// Create the directory that the entry stands for.
    CreateDir,
    /// Write the entry's contents to its file.
    WriteFile,
}

/// An entry is skipped where its name leaves the target directory, where
/// it is excluded, and where its target exists already; else it is
/// unpacked as what it is.
pub open spec fn entry_action(
    exclude: Seq<Seq<char>>,
    name: Seq<char>,
    enclosed: bool,
    exists: bool,
    is_dir: bool,
) -> ExtractAction {
    if !enclosed || is_excluded(exclude, name) || exists {
        ExtractAction::Skip
    } else if is_dir {
        ExtractAction::CreateDir
    } else {
        ExtractAction::WriteFile
    }
}

impl MCExtractRule {
    /// Tells whether an entry named `name` is excluded.
    pub fn excludes(&self, name: &str) -> (excluded: bool)
        ensures
            excluded == is_excluded(self.deep_view(), name@),
    {
        let mut i: usize = 0;
        while i < self.exclude.len()
            invariant
                i <= self.exclude.len(),
                forall|k: int|
                    0 <= k < i ==> !has_substring(name@, #[trigger] self.exclude.deep_view()[k]),
            decreases self.exclude.len() - i,
        {
            assert(self.exclude.deep_view()[i as int] == self.exclude[i as int]@);
            if str_contains(name, self.exclude[i].as_str()) {
                return true;
            }
            i += 1;
        }
        false
    }

    /// Decides what is done with one entry of a native archive. `enclosed`
    /// says whether the entry's name stays inside the target directory,
    /// `exists` whether its target is there already.
    pub fn entry_action(&self, name: &str, enclosed: bool, exists: bool, is_dir: bool) -> (action:
        ExtractAction)
        ensures
            action == entry_action(self.deep_view(), name@, enclosed, exists, is_dir),
    {
        if !enclosed || self.excludes(name) || exists {
            ExtractAction::Skip
        } else if is_dir {
            ExtractAction::CreateDir
        } else {
            ExtractAction::WriteFile
        }
    }
}

impl MCLibrary {
    /// A library with one artifact and nothing else.
    pub fn new_simple(
        name: String,
        url: String,
        path: String,
        size: Option<u32>,
        sha1: Option<String>,
    ) -> (library: Self)
        ensures
            library == (MCLibrary {
                downloads: MCLibraryDownloads {
                    artifact: Some(MCLibraryDownloadsArtifacts { path, url, sha1, size }),
                    classifiers: None,
                },
                name,
                rules: None,
                extract: None,
            }),
    {
        MCLibrary {
            downloads: MCLibraryDownloads {
                artifact: Some(MCLibraryDownloadsArtifacts { path, url, sha1, size }),
                classifiers: None,
            },
            name,
            rules: None,
            extract: None,
        }
    }

    /// Tells whether the library counts on `platform`.
    pub fn applies(&self, platform: Platform) -> (applies: bool)
        ensures
            applies == library_applies(self.deep_view(), platform),
    {
        match &self.rules {
            Some(rules) => all_rules_apply(rules, platform),
            None => true,
        }
    }

    /// The native variant that `os` uses: exactly one is selected, never more.
    pub fn get_native(&self, os: Os) -> (native: Option<&MCLibraryDownloadsArtifacts>)
        ensures
            native.deep_view() == native_of(self.deep_view(), os),
    {
        match &self.downloads.classifiers {
            Some(classifiers) => match os {
                Os::Windows => classifiers.natives_windows.as_ref(),
                Os::MacOs => classifiers.natives_osx.as_ref(),
                _ => classifiers.natives_linux.as_ref(),
            },
            None => None,
        }
    }

    /// The files of the library on `os`: its artifact, then its native variant.
    pub fn get_lib_downloads(&self, os: Os) -> (files: Vec<&MCLibraryDownloadsArtifacts>)
        ensures
            files.deep_view() == lib_downloads(self.deep_view(), os),
    {
        let mut files: Vec<&MCLibraryDownloadsArtifacts> = Vec::new();
        if let Some(artifact) = &self.downloads.artifact {
            files.push(artifact);
        }
        if let Some(native) = self.get_native(os) {
            files.push(native);
        }
        assert(files.deep_view() =~= lib_downloads(self.deep_view(), os));
        files
    }

    /// Where the files of the library are stored below `library_dir`.
    pub fn get_paths(&self, library_dir: &str, os: Os) -> (paths: Vec<String>)
        ensures
            paths.deep_view() == lib_downloads(self.deep_view(), os).map_values(
                |file: ArtifactView| join_path(library_dir@, file.path),
            ),
    {
        let files = self.get_lib_downloads(os);
        let mut paths: Vec<String> = Vec::new();
        let mut i: usize = 0;
        while i < files.len()
            invariant
                i <= files.len(),
                files.deep_view() == lib_downloads(self.deep_view(), os),
                files.len() == files.deep_view().len(),
                paths.len() == i,
                paths.deep_view() == lib_downloads(self.deep_view(), os).map_values(
                    |file: ArtifactView| join_path(library_dir@, file.path),
                ).take(i as int),
            decreases files.len() - i,
        {
            assert(files.deep_view()[i as int] == files[i as int].deep_view());
            let path = path_join(library_dir, files[i].path.as_str());
            let ghost before = paths;
            paths.push(path);
            assert forall|k: int| 0 <= k < i + 1 implies paths.deep_view()[k]
                == lib_downloads(self.deep_view(), os).map_values(
                |file: ArtifactView| join_path(library_dir@, file.path),
            )[k] by {
                if k < i {
                    assert(paths@[k] == before@[k]);
                    assert(before.deep_view()[k] == before@[k].deep_view());
                }
            }
            assert(paths.deep_view() =~= lib_downloads(self.deep_view(), os).map_values(
                |file: ArtifactView| join_path(library_dir@, file.path),
            ).take(i + 1));
            i += 1;
        }
        assert(paths.deep_view() =~= lib_downloads(self.deep_view(), os).map_values(
            |file: ArtifactView| join_path(library_dir@, file.path),
        ));
        paths
    }

    /// The downloads that bring the files of the library into the store.
    pub fn get_downloads(&self, library_dir: &str, os: Os) -> (downloads: Vec<Download>)
        ensures
            downloads.deep_view() == lib_downloads(self.deep_view(), os).map_values(
                |file: ArtifactView| artifact_download(library_dir@, file),
            ),
    {
        let files = self.get_lib_downloads(os);
        let mut downloads: Vec<Download> = Vec::new();
        let mut i: usize = 0;
        while i < files.len()
            invariant
                i <= files.len(),
                files.deep_view() == lib_downloads(self.deep_view(), os),
                files.len() == files.deep_view().len(),
                downloads.len() == i,
                downloads.deep_view() == lib_downloads(self.deep_view(), os).map_values(
                    |file: ArtifactView| artifact_download(library_dir@, file),
                ).take(i as int),
            decreases files.len() - i,
        {
            assert(files.deep_view()[i as int] == files[i as int].deep_view());
            let file = files[i];
            let sha1 = match &file.sha1 {
                Some(s) => Some(s.clone()),
                None => None,
            };
            let download = Download::new(
                path_join(library_dir, file.path.as_str()),
                file.url.as_str(),
                sha1,
                None,
            );
            let ghost before = downloads;
            downloads.push(download);
            assert forall|k: int| 0 <= k < i + 1 implies downloads.deep_view()[k]
                == lib_downloads(self.deep_view(), os).map_values(
                |file: ArtifactView| artifact_download(library_dir@, file),
            )[k] by {
                if k < i {
                    assert(downloads@[k] == before@[k]);
                    assert(before.deep_view()[k] == before@[k].deep_view());
                }
            }
            assert(downloads.deep_view() =~= lib_downloads(self.deep_view(), os).map_values(
                |file: ArtifactView| artifact_download(library_dir@, file),
            ).take(i + 1));
            i += 1;
        }
        assert(downloads.deep_view() =~= lib_downloads(self.deep_view(), os).map_values(
            |file: ArtifactView| artifact_download(library_dir@, file),
        ));
        downloads
    }

    /// The archive to unpack for a launch on `platform`, if the library
    /// counts there and has one.
    pub fn natives_archive(&self, library_dir: &str, platform: Platform) -> (archive: Option<String>)
        ensures
            archive.deep_view() == if library_applies(self.deep_view(), platform) {
                match (self.deep_view().extract, native_of(self.deep_view(), platform.os)) {
                    (Some(_), Some(native)) => Some(join_path(library_dir@, native.path)),
                    _ => None,
                }
            } else {
                None
            },
    {
        if self.applies(platform) {
            self.extract_natives(library_dir, platform.os)
        } else {
            None
        }
    }

    /// The archive whose entries are to be unpacked into the natives
    /// directory: the native variant of a library that has an extraction rule.
    pub fn extract_natives(&self, library_dir: &str, os: Os) -> (archive: Option<String>)
        ensures
            archive.deep_view() == match (self.deep_view().extract, native_of(self.deep_view(), os)) {
                (Some(_), Some(native)) => Some(join_path(library_dir@, native.path)),
                _ => None,
            },
    {
        if self.extract.is_none() {
            return None;
        }
        match self.get_native(os) {
            Some(native) => Some(path_join(library_dir, native.path.as_str())),
            None => None,
        }
    }
}

} // verus!
