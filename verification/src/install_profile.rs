//! The install profile that a Forge installer carries: for the modern
//! generation a table of values, processing steps and libraries, for the
//! first generation one file to copy.

use vstd::prelude::*;
use crate::download::{Download, DownloadView};
use crate::forge::{fill_forge_url, lacks_forge_url, needs_forge_url, with_forge_url};
use crate::installer::{ForgeProcessor, Side};
use crate::libraries::{artifact_download, lib_downloads};
use crate::mc_structs::{ArtifactView, LibraryView, MCLibrary};
use crate::platform::Os;
use crate::text::{chars_of, slice_chars, str_eq, string_of, is_wrapped, unwrapped, wrapped_in};
use crate::utils::{
    forge_pair_name, get_installer_extracts_dir, get_library_dir, is_maven_coordinate,
    is_maven_identifier, join_path, maven_identifier_to_path, maven_path, path_join,
};

verus! {

/// The two values of one entry of the profile's table.
#[derive(Debug)]
pub struct ForgeMappings {
    pub client: String,
    pub server: String,
}

/// One entry of the profile's table.
#[derive(Debug)]
pub struct ForgeDataEntry {
    pub key: String,
    pub value: ForgeMappings,
}

/// The install profile of the modern generation.
#[derive(Debug)]
pub struct ModernInstallProfile {
    pub spec: Option<u16>,
    pub version: String,
    pub minecraft: String,
    pub server_jar_path: Option<String>,
    /// The table of values, searched from the front.
    pub data: Vec<ForgeDataEntry>,
    pub processors: Vec<ForgeProcessor>,
    pub libraries: Vec<MCLibrary>,
}

/// The install profile of the first generation: one file of the installer
/// that is copied into the library store.
#[derive(Debug)]
pub struct LegacyInstallProfile {
    pub version: String,
    pub minecraft: String,
    pub path: String,
    pub file_path: String,
}

/// The install profile of either generation.
#[derive(Debug)]
pub enum ForgeInstallProfile {
    Modern(ModernInstallProfile),
    Legacy(LegacyInstallProfile),
}

/// The value of `mappings` for `side`, as written.
pub open spec fn mapping_text(mappings: ForgeMappings, side: Side) -> Seq<char> {
    match side {
        Side::Client => mappings.client@,
        Side::Server => mappings.server@,
    }
}

/// The value of `mappings` for `side`: one written in square brackets is a
/// maven coordinate and stands for the path of its file in the library
/// store; it is absent where what the brackets hold is no coordinate.
pub open spec fn mapping_value(mappings: ForgeMappings, side: Side, library_dir: Seq<char>) -> Option<
    Seq<char>,
> {
    let text = mapping_text(mappings, side);
    if is_wrapped(text, '[', ']') {
        if is_maven_identifier(unwrapped(text)) {
            Some(join_path(library_dir, maven_path(unwrapped(text))))
        } else {
            None
        }
    } else {
        Some(text)
    }
}

/// The first entry of the table with the key `key`.
pub open spec fn lookup(data: Seq<ForgeDataEntry>, key: Seq<char>) -> Option<ForgeMappings>
    decreases data.len(),
{
    if data.len() == 0 {
        None
    } else if data[0].key@ == key {
        Some(data[0].value)
    } else {
        lookup(data.skip(1), key)
    }
}

impl ForgeMappings {
    /// The value for `side`, with a coordinate in square brackets resolved
    /// to its path below `library_dir`; `None` where the brackets hold no
    /// coordinate.
    pub fn get_value(&self, side: &Side, library_dir: &str) -> (value: Option<String>)
        ensures
            value.deep_view() == mapping_value(*self, *side, library_dir@),
    {
        let text = match side {
            Side::Client => &self.client,
            Side::Server => &self.server,
        };
        let chars = chars_of(text.as_str());
        if wrapped_in(chars.as_slice(), '[', ']') {
            let inner = slice_chars(chars.as_slice(), 1, chars.len() - 1);
            let identifier = string_of(inner.as_slice());
            if is_maven_coordinate(identifier.as_str()) {
                let path = maven_identifier_to_path(identifier.as_str());
                Some(path_join(library_dir, path.as_str()))
            } else {
                None
            }
        } else {
            Some(text.clone())
        }
    }
}

impl ForgeInstallProfile {
    /// Where the install profile of a pair of versions is cached.
    pub fn get_path(data_dir: &str, mc_ver: &str, forge_ver: &str) -> (path: String)
        ensures
            path@ == join_path(
                join_path(join_path(data_dir@, "forge_cache"@), forge_pair_name(mc_ver@, forge_ver@)),
                "install_profile.json"@,
            ),
    {
        let dir = get_installer_extracts_dir(data_dir, mc_ver, forge_ver);
        path_join(dir.as_str(), "install_profile.json")
    }
}

/// The downloads that bring every file of the libraries into the store,
/// library after library, whatever platform their rules name.
pub open spec fn staged_downloads(libraries: Seq<LibraryView>, os: Os, library_dir: Seq<char>) -> Seq<
    DownloadView,
>
    decreases libraries.len(),
{
    if libraries.len() == 0 {
        Seq::empty()
    } else {
        staged_downloads(libraries.drop_last(), os, library_dir) + lib_downloads(
            libraries.last(),
            os,
        ).map_values(|file: ArtifactView| artifact_download(library_dir, file))
    }
}

/// Every library that lacks an address that the loader hosts is named by a
/// maven coordinate.
pub open spec fn profile_libraries_valid(libraries: Seq<LibraryView>) -> bool {
    forall|i: int|
        0 <= i < libraries.len() ==> (lacks_forge_url(#[trigger] libraries[i])
            ==> is_maven_identifier(libraries[i].name))
}

impl ModernInstallProfile {
    /// Looks `key` up in the table.
    pub fn find_data(&self, key: &str) -> (found: Option<&ForgeMappings>)
        ensures
            match found {
                Some(mappings) => lookup(self.data@, key@) == Some(*mappings),
                None => lookup(self.data@, key@) is None,
            },
    {
        let mut i: usize = 0;
        assert(self.data@.skip(0) == self.data@);
        while i < self.data.len()
            invariant
                i <= self.data.len(),
                lookup(self.data@, key@) == lookup(self.data@.skip(i as int), key@),
            decreases self.data.len() - i,
        {
            if str_eq(self.data[i].key.as_str(), key) {
                return Some(&self.data[i].value);
            }
            assert(self.data@.skip(i as int).skip(1) == self.data@.skip(i + 1));
            i += 1;
        }
        None
    }

    /// Tells whether the libraries can be staged.
    pub fn libraries_valid(&self) -> (valid: bool)
        ensures
            valid == profile_libraries_valid(self.libraries.deep_view()),
    {
        let mut i: usize = 0;
        while i < self.libraries.len()
            invariant
                i <= self.libraries.len(),
                forall|k: int|
                    0 <= k < i ==> (lacks_forge_url(#[trigger] self.libraries.deep_view()[k])
                        ==> is_maven_identifier(self.libraries.deep_view()[k].name)),
            decreases self.libraries.len() - i,
        {
            assert(self.libraries.deep_view()[i as int] == self.libraries[i as int].deep_view());
            if needs_forge_url(&self.libraries[i]) && !is_maven_coordinate(
                self.libraries[i].name.as_str(),
            ) {
                return false;
            }
            i += 1;
        }
        true
    }

    /// Prepares the staging of the profile's libraries: fills in the
    /// address of each artifact that lacks one that the loader hosts, and
    /// gives the downloads that bring every file into the store.
    pub fn download_libraries(&mut self, data_dir: &str, os: Os) -> (downloads: Vec<Download>)
        requires
            profile_libraries_valid(old(self).libraries.deep_view()),
        ensures
            final(self).libraries.deep_view() == old(self).libraries.deep_view().map_values(
                |library: LibraryView| with_forge_url(library),
            ),
            downloads.deep_view() == staged_downloads(
                final(self).libraries.deep_view(),
                os,
                join_path(data_dir@, "libraries"@),
            ),
            final(self).spec == old(self).spec,
            final(self).version == old(self).version,
            final(self).minecraft == old(self).minecraft,
            final(self).server_jar_path == old(self).server_jar_path,
            final(self).data == old(self).data,
            final(self).processors == old(self).processors,
    {
        let library_dir = get_library_dir(data_dir);
        let mut libraries: Vec<MCLibrary> = Vec::new();
        std::mem::swap(&mut libraries, &mut self.libraries);
        let ghost given = libraries.deep_view();
        let ghost target = given.map_values(|library: LibraryView| with_forge_url(library));
        let mut filled: Vec<MCLibrary> = Vec::new();
        let mut downloads: Vec<Download> = Vec::new();
        assert(downloads.deep_view() =~= Seq::<DownloadView>::empty());
        assert(target.take(0) =~= Seq::<LibraryView>::empty());
        for library in it: libraries.into_iter()
            invariant
                it.seq() == libraries@,
                given == libraries.deep_view(),
                profile_libraries_valid(given),
                target == given.map_values(|library: LibraryView| with_forge_url(library)),
                library_dir@ == join_path(data_dir@, "libraries"@),
                filled.len() == it.index(),
                filled.deep_view() == target.take(it.index()),
                downloads.deep_view() == staged_downloads(
                    target.take(it.index()),
                    os,
                    library_dir@,
                ),
        {
            let ghost i = it.index();
            let ghost before = filled;
            let ghost had = downloads.deep_view();
            assert(given[i] == library.deep_view());
            let library = fill_forge_url(library);
            let mut files = library.get_downloads(library_dir.as_str(), os);
            let ghost added = files.deep_view();
            downloads.append(&mut files);
            filled.push(library);
            proof {
                assert forall|k: int| 0 <= k < i + 1 implies filled.deep_view()[k] == target[k] by {
                    if k < i {
                        assert(filled@[k] == before@[k]);
                        assert(before.deep_view()[k] == before@[k].deep_view());
                    }
                }
                assert(filled.deep_view() =~= target.take(i + 1));
                assert(target.take(i + 1).drop_last() == target.take(i));
                assert(downloads.deep_view() =~= had + added);
            }
        }
        assert(target.take(libraries@.len() as int) == target);
        self.libraries = filled;
        downloads
    }
}

/// The file of a first-generation installer goes where its coordinate
/// says, if it is one.
pub open spec fn legacy_target(profile: LegacyInstallProfile, library_dir: Seq<char>) -> Option<
    Seq<char>,
> {
    if is_maven_identifier(profile.path@) {
        Some(join_path(library_dir, maven_path(profile.path@)))
    } else {
        None
    }
}

impl LegacyInstallProfile {
    /// Tells whether the installer's file `name` is the one to copy.
    pub fn wants_file(&self, name: &str) -> (wanted: bool)
        ensures
            wanted == (name@ == self.file_path@),
    {
        str_eq(name, self.file_path.as_str())
    }

    /// Where the installer's file is copied to, byte for byte: the path of
    /// the profile's coordinate below the library directory. `None` where
    /// the profile names no coordinate.
    pub fn copy_libraries(&self, data_dir: &str) -> (target: Option<String>)
        ensures
            target.deep_view() == legacy_target(*self, join_path(data_dir@, "libraries"@)),
    {
        if is_maven_coordinate(self.path.as_str()) {
            let library_dir = get_library_dir(data_dir);
            let path = maven_identifier_to_path(self.path.as_str());
            Some(path_join(library_dir.as_str(), path.as_str()))
        } else {
            None
        }
    }
}

} // verus!
