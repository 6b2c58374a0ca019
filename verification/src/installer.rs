//! Running a Forge installer without its interface: the steps of the
//! installation, the processors of the modern generation and the
//! substitution of their argument templates.

use vstd::prelude::*;
use crate::download::{clamp_u32, Download, DownloadErr, DownloadView, Retry};
use crate::install_profile::{lookup, mapping_value, ModernInstallProfile};
use crate::notifier::{event_of, InternalNotif, NotificationState, Notifier};
use crate::manifests::client_jar_path;
use crate::platform::{classpath_separator_char, Os};
use crate::text::{
    append_texts, chars_of, concat2, concat3, find, first_occurrence, has_substring, is_wrapped, join, join_with,
    push_str, push_text, slice_chars, str_contains, str_eq, string_of, unwrapped, wrapped_in,
};
use crate::utils::{
    forge_pair_name, get_classpath_separator, get_client_jar_dir, get_installer_extracts_dir,
    get_jar_main_class, get_library_dir, is_maven_coordinate, is_maven_identifier, join_path,
    main_class_of, maven_identifier_to_path, maven_path, path_join,
};

verus! {

/// The half of an installation that is prepared.
#[derive(Debug, Clone, Copy, PartialEq, Eq, Structural)]
pub enum Side {
    Server,
    Client,
}

/// One processing step of a modern install profile.
#[derive(Debug)]
pub struct ForgeProcessor {
    pub sides: Option<Vec<Side>>,
    pub jar: String,
    pub classpath: Vec<String>,
    pub args: Vec<String>,
}


/// Why an argument template could not be resolved.
#[derive(Debug, Clone, Copy, PartialEq, Eq, Structural)]
pub enum ArgFault {
    /// The key in braces is not in the profile's table.
    MissingData,
    /// What the square brackets hold is no maven coordinate.
    BadCoordinate,
    /// The file of the coordinate is not in the library store.
    MissingFile,
    /// The profile's version does not name a pair of versions.
    BadProfileVersion,
}

/// Why an installation was given up.
#[derive(Debug)]
pub enum InstallErr {
    /// An argument of a processor could not be resolved; the argument is
    /// given as the profile writes it.
    Template(ArgFault, String),
    /// An entry of a processor's class path is no maven coordinate.
    ClasspathEntry(String),
    /// The manifest of a processor's jar names no main class.
    NoMainClass(String),
    /// The processor with this jar ended with this exit code.
    ProcessorFailed(String, Option<i32>),
}

/// The name of a side in argument templates.
pub open spec fn side_name(side: Side) -> Seq<char> {
    match side {
        Side::Client => "client"@,
        Side::Server => "server"@,
    }
}

/// The first substitution of an argument template: a key in braces is
/// looked up, `SIDE` and `MINECRAFT_JAR` being answered without the table; a
/// coordinate in square brackets becomes the path of its file, which has to
/// be among `existing`; anything else stands for itself.
pub open spec fn substitute(
    arg: Seq<char>,
    profile: ModernInstallProfile,
    side: Side,
    data_dir: Seq<char>,
    existing: Seq<Seq<char>>,
) -> Result<Seq<char>, ArgFault> {
    let library_dir = join_path(data_dir, "libraries"@);
    if is_wrapped(arg, '{', '}') {
        let key = unwrapped(arg);
        if key == "SIDE"@ {
            Ok(side_name(side))
        } else if key == "MINECRAFT_JAR"@ {
            Ok(client_jar_path(join_path(data_dir, "client_jars"@), profile.minecraft@))
        } else {
            match lookup(profile.data@, key) {
                Some(mappings) => match mapping_value(mappings, side, library_dir) {
                    Some(value) => Ok(value),
                    None => Err(ArgFault::BadCoordinate),
                },
                None => Err(ArgFault::MissingData),
            }
        }
    } else if is_wrapped(arg, '[', ']') {
        if !is_maven_identifier(unwrapped(arg)) {
            Err(ArgFault::BadCoordinate)
        } else if existing.contains(join_path(library_dir, maven_path(unwrapped(arg)))) {
            Ok(join_path(library_dir, maven_path(unwrapped(arg))))
        } else {
            Err(ArgFault::MissingFile)
        }
    } else {
        Ok(arg)
    }
}

/// The private extraction directory that a profile's version
/// `<runtime>-forge-<loader>` names.
pub open spec fn profile_extracts_dir(version: Seq<char>, data_dir: Seq<char>) -> Option<Seq<char>> {
    match first_occurrence(version, "-forge-"@) {
        Some(i) => Some(
            join_path(
                join_path(data_dir, "forge_cache"@),
                forge_pair_name(version.take(i), version.skip(i + "-forge-"@.len())),
            ),
        ),
        None => None,
    }
}

/// The second substitution: a value that begins with `/` and does not hold
/// the data directory is taken relative to the installation's private
/// extraction directory.
pub open spec fn relocate(value: Seq<char>, version: Seq<char>, data_dir: Seq<char>) -> Result<
    Seq<char>,
    ArgFault,
> {
    if value.len() > 0 && value[0] == '/' && !has_substring(value, data_dir) {
        match profile_extracts_dir(version, data_dir) {
            Some(dir) => Ok(join_path(dir, value.skip(1))),
            None => Err(ArgFault::BadProfileVersion),
        }
    } else {
        Ok(value)
    }
}

/// An argument template with both substitutions applied.
pub open spec fn resolve(
    arg: Seq<char>,
    profile: ModernInstallProfile,
    side: Side,
    data_dir: Seq<char>,
    existing: Seq<Seq<char>>,
) -> Result<Seq<char>, ArgFault> {
    match substitute(arg, profile, side, data_dir, existing) {
        Ok(value) => relocate(value, profile.version@, data_dir),
        Err(fault) => Err(fault),
    }
}

/// `result` is `expected` up to the contents of the string.
pub open spec fn text_result_is(result: Result<String, ArgFault>, expected: Result<
    Seq<char>,
    ArgFault,
>) -> bool {
    match result {
        Ok(value) => expected == Ok::<Seq<char>, ArgFault>(value@),
        Err(fault) => expected == Err::<Seq<char>, ArgFault>(fault),
    }
}

/// Tells whether `path` is one of `existing`.
pub fn is_listed(existing: &Vec<String>, path: &str) -> (listed: bool)
    ensures
        listed == existing.deep_view().contains(path@),
{
    let mut i: usize = 0;
    while i < existing.len()
        invariant
            i <= existing.len(),
            forall|k: int| 0 <= k < i ==> existing.deep_view()[k] != path@,
        decreases existing.len() - i,
    {
        assert(existing.deep_view()[i as int] == existing[i as int]@);
        if str_eq(existing[i].as_str(), path) {
            return true;
        }
        i += 1;
    }
    false
}

/// Applies the first substitution to an argument template.
pub fn substitute_arg(
    arg: &str,
    profile: &ModernInstallProfile,
    side: &Side,
    data_dir: &str,
    existing: &Vec<String>,
) -> (result: Result<String, ArgFault>)
    ensures
        text_result_is(result, substitute(arg@, *profile, *side, data_dir@, existing.deep_view())),
{
    let chars = chars_of(arg);
    let library_dir = get_library_dir(data_dir);
    if wrapped_in(chars.as_slice(), '{', '}') {
        let inner = slice_chars(chars.as_slice(), 1, chars.len() - 1);
        let key = string_of(inner.as_slice());
        if str_eq(key.as_str(), "SIDE") {
            match side {
                Side::Client => Ok("client".to_owned()),
                Side::Server => Ok("server".to_owned()),
            }
        } else if str_eq(key.as_str(), "MINECRAFT_JAR") {
            let dir = get_client_jar_dir(data_dir);
            let name = concat2(profile.minecraft.as_str(), ".jar");
            Ok(path_join(dir.as_str(), name.as_str()))
        } else {
            match profile.find_data(key.as_str()) {
                Some(mappings) => match mappings.get_value(side, library_dir.as_str()) {
                    Some(value) => Ok(value),
                    None => Err(ArgFault::BadCoordinate),
                },
                None => Err(ArgFault::MissingData),
            }
        }
    } else if wrapped_in(chars.as_slice(), '[', ']') {
        let inner = slice_chars(chars.as_slice(), 1, chars.len() - 1);
        let identifier = string_of(inner.as_slice());
        if !is_maven_coordinate(identifier.as_str()) {
            Err(ArgFault::BadCoordinate)
        } else {
            let relative = maven_identifier_to_path(identifier.as_str());
            let path = path_join(library_dir.as_str(), relative.as_str());
            if is_listed(existing, path.as_str()) {
                Ok(path)
            } else {
                Err(ArgFault::MissingFile)
            }
        }
    } else {
        Ok(arg.to_owned())
    }
}

/// Applies the second substitution to a value.
pub fn relocate_arg(value: String, version: &str, data_dir: &str) -> (result: Result<
    String,
    ArgFault,
>)
    ensures
        text_result_is(result, relocate(value@, version@, data_dir@)),
{
    let chars = chars_of(value.as_str());
    if chars.len() > 0 && chars[0] == '/' && !str_contains(value.as_str(), data_dir) {
        let version_chars = chars_of(version);
        let marker = chars_of("-forge-");
        let version_len: usize = version_chars.len();
        match find(version_chars.as_slice(), marker.as_slice()) {
            Some(i) => {
                assert(crate::text::occurs_at(version_chars@, marker@, i as int));
                let mc_ver = slice_chars(version_chars.as_slice(), 0, i);
                let forge_ver = slice_chars(
                    version_chars.as_slice(),
                    i + marker.len(),
                    version_len,
                );
                let mc_text = string_of(mc_ver.as_slice());
                let forge_text = string_of(forge_ver.as_slice());
                let dir = get_installer_extracts_dir(
                    data_dir,
                    mc_text.as_str(),
                    forge_text.as_str(),
                );
                let rest = slice_chars(chars.as_slice(), 1, chars.len());
                let rest_text = string_of(rest.as_slice());
                Ok(path_join(dir.as_str(), rest_text.as_str()))
            },
            None => Err(ArgFault::BadProfileVersion),
        }
    } else {
        Ok(value)
    }
}

/// The paths below `library_dir` of the coordinates that `args` name in
/// square brackets, in the order of the arguments.
pub open spec fn bracket_paths(args: Seq<Seq<char>>, library_dir: Seq<char>) -> Seq<Seq<char>>
    decreases args.len(),
{
    if args.len() == 0 {
        Seq::empty()
    } else if is_wrapped(args.last(), '[', ']') && is_maven_identifier(unwrapped(args.last())) {
        bracket_paths(args.drop_last(), library_dir).push(
            join_path(library_dir, maven_path(unwrapped(args.last()))),
        )
    } else {
        bracket_paths(args.drop_last(), library_dir)
    }
}

/// The paths below `library_dir` of a list of coordinates.
pub open spec fn coordinate_paths(coordinates: Seq<Seq<char>>, library_dir: Seq<char>) -> Seq<
    Seq<char>,
> {
    coordinates.map_values(|id: Seq<char>| join_path(library_dir, maven_path(id)))
}

/// The processor runs for `side`: it is not restricted, or `side` is among
/// its sides.
pub open spec fn runs_for(sides: Option<Vec<Side>>, side: Side) -> bool {
    match sides {
        Some(list) => list@.contains(side),
        None => true,
    }
}

/// `index` is the first argument that does not resolve, and `fault` is why.
pub open spec fn is_first_fault(
    args: Seq<Seq<char>>,
    profile: ModernInstallProfile,
    side: Side,
    data_dir: Seq<char>,
    existing: Seq<Seq<char>>,
    index: int,
    fault: ArgFault,
) -> bool {
    &&& 0 <= index < args.len()
    &&& resolve(args[index], profile, side, data_dir, existing) == Err::<Seq<char>, ArgFault>(
        fault,
    )
    &&& forall|j: int|
        0 <= j < index ==> resolve(#[trigger] args[j], profile, side, data_dir, existing) is Ok
}

impl ForgeProcessor {
    /// Tells whether the processor runs for `side`.
    pub fn should_run(&self, side: &Side) -> (runs: bool)
        ensures
            runs == runs_for(self.sides, *side),
    {
        match &self.sides {
            None => true,
            Some(sides) => {
                let mut i: usize = 0;
                while i < sides.len()
                    invariant
                        i <= sides.len(),
                        self.sides == Some(*sides),
                        forall|k: int| 0 <= k < i ==> sides@[k] != *side,
                    decreases sides.len() - i,
                {
                    if sides[i] == *side {
                        assert(sides@[i as int] == *side);
                        return true;
                    }
                    i += 1;
                }
                false
            },
        }
    }

    /// The files that the arguments of the processor name by coordinates
    /// in square brackets. Each has to be in the library store when the
    /// processor starts.
    pub fn required_files(&self, data_dir: &str) -> (paths: Vec<String>)
        ensures
            paths.deep_view() == bracket_paths(
                self.args.deep_view(),
                join_path(data_dir@, "libraries"@),
            ),
    {
        let library_dir = get_library_dir(data_dir);
        let mut paths: Vec<String> = Vec::new();
        let mut i: usize = 0;
        let ghost args = self.args.deep_view();
        assert(paths.deep_view() =~= Seq::<Seq<char>>::empty());
        assert(args.take(0) =~= Seq::<Seq<char>>::empty());
        while i < self.args.len()
            invariant
                i <= self.args.len(),
                args == self.args.deep_view(),
                library_dir@ == join_path(data_dir@, "libraries"@),
                paths.deep_view() == bracket_paths(args.take(i as int), library_dir@),
            decreases self.args.len() - i,
        {
            proof {
                assert(args.take(i + 1).drop_last() == args.take(i as int));
                assert(args.take(i + 1).last() == self.args[i as int]@);
            }
            let chars = chars_of(self.args[i].as_str());
            if wrapped_in(chars.as_slice(), '[', ']') {
                let inner = slice_chars(chars.as_slice(), 1, chars.len() - 1);
                let identifier = string_of(inner.as_slice());
                if is_maven_coordinate(identifier.as_str()) {
                    let relative = maven_identifier_to_path(identifier.as_str());
                    push_text(&mut paths, path_join(library_dir.as_str(), relative.as_str()));
                }
            }
            i += 1;
        }
        assert(args.take(self.args.len() as int) == args);
        paths
    }

    /// Substitutes every argument template of the processor, in order.
    /// `existing` lists the required files that are in the library store.
    /// The first argument that cannot be resolved ends the work with its
    /// fault.
    pub fn parse_args(
        &self,
        install_profile: &ModernInstallProfile,
        side: &Side,
        data_dir: &str,
        existing: &Vec<String>,
    ) -> (result: Result<Vec<String>, InstallErr>)
        ensures
            match result {
                Ok(args) => args.len() == self.args.len() && forall|i: int|
                    0 <= i < self.args.len() ==> resolve(
                        #[trigger] self.args.deep_view()[i],
                        *install_profile,
                        *side,
                        data_dir@,
                        existing.deep_view(),
                    ) == Ok::<Seq<char>, ArgFault>(args[i]@),
                Err(err) => exists|i: int, fault: ArgFault|
                    is_first_fault(
                        self.args.deep_view(),
                        *install_profile,
                        *side,
                        data_dir@,
                        existing.deep_view(),
                        i,
                        fault,
                    ) && err == InstallErr::Template(fault, self.args[i]),
            },
    {
        let mut out: Vec<String> = Vec::new();
        let mut i: usize = 0;
        while i < self.args.len()
            invariant
                i <= self.args.len(),
                out.len() == i,
                forall|k: int|
                    0 <= k < i ==> resolve(
                        #[trigger] self.args.deep_view()[k],
                        *install_profile,
                        *side,
                        data_dir@,
                        existing.deep_view(),
                    ) == Ok::<Seq<char>, ArgFault>(out[k]@),
            decreases self.args.len() - i,
        {
            assert(self.args.deep_view()[i as int] == self.args[i as int]@);
            let first = substitute_arg(
                self.args[i].as_str(),
                install_profile,
                side,
                data_dir,
                existing,
            );
            let resolved = match first {
                Ok(value) => relocate_arg(value, install_profile.version.as_str(), data_dir),
                Err(fault) => Err(fault),
            };
            match resolved {
                Ok(value) => {
                    out.push(value);
                },
                Err(fault) => {
                    assert(is_first_fault(
                        self.args.deep_view(),
                        *install_profile,
                        *side,
                        data_dir@,
                        existing.deep_view(),
                        i as int,
                        fault,
                    ));
                    return Err(InstallErr::Template(fault, self.args[i].clone()));
                },
            }
            i += 1;
        }
        Ok(out)
    }

    /// The class path of the processor: the files of its declared
    /// coordinates, then its own jar, joined by the separator of `os`. An
    /// entry that is no coordinate ends the work.
    pub fn get_classpath(&self, data_dir: &str, os: Os) -> (result: Result<String, InstallErr>)
        ensures
            match result {
                Ok(classpath) => (forall|i: int|
                    0 <= i < self.classpath.len() ==> is_maven_identifier(
                        #[trigger] self.classpath.deep_view()[i],
                    )) && is_maven_identifier(self.jar@) && classpath@ == join_with(
                    coordinate_paths(
                        self.classpath.deep_view().push(self.jar@),
                        join_path(data_dir@, "libraries"@),
                    ),
                    seq![classpath_separator_char(os)],
                ),
                Err(err) => exists|i: int|
                    0 <= i <= self.classpath.len() && !is_maven_identifier(
                        #[trigger] self.classpath.deep_view().push(self.jar@)[i],
                    ) && (forall|j: int|
                        0 <= j < i ==> is_maven_identifier(
                            #[trigger] self.classpath.deep_view()[j],
                        )) && err == InstallErr::ClasspathEntry(
                        if i < self.classpath.len() {
                            self.classpath[i]
                        } else {
                            self.jar
                        },
                    ),
            },
    {
        let library_dir = get_library_dir(data_dir);
        let mut entries: Vec<String> = Vec::new();
        let mut i: usize = 0;
        let ghost coordinates = self.classpath.deep_view().push(self.jar@);
        assert(entries.deep_view() =~= coordinate_paths(coordinates, library_dir@).take(0));
        while i < self.classpath.len()
            invariant
                i <= self.classpath.len(),
                coordinates == self.classpath.deep_view().push(self.jar@),
                library_dir@ == join_path(data_dir@, "libraries"@),
                forall|k: int|
                    0 <= k < i ==> is_maven_identifier(#[trigger] self.classpath.deep_view()[k]),
                entries.deep_view() == coordinate_paths(coordinates, library_dir@).take(i as int),
            decreases self.classpath.len() - i,
        {
            assert(self.classpath.deep_view()[i as int] == self.classpath[i as int]@);
            if !is_maven_coordinate(self.classpath[i].as_str()) {
                assert(coordinates[i as int] == self.classpath[i as int]@);
                return Err(InstallErr::ClasspathEntry(self.classpath[i].clone()));
            }
            let relative = maven_identifier_to_path(self.classpath[i].as_str());
            push_text(&mut entries, path_join(library_dir.as_str(), relative.as_str()));
            assert(entries.deep_view() =~= coordinate_paths(coordinates, library_dir@).take(i + 1));
            i += 1;
        }
        if !is_maven_coordinate(self.jar.as_str()) {
            assert(coordinates[self.classpath.len() as int] == self.jar@);
            return Err(InstallErr::ClasspathEntry(self.jar.clone()));
        }
        let relative = maven_identifier_to_path(self.jar.as_str());
        push_text(&mut entries, path_join(library_dir.as_str(), relative.as_str()));
        assert(entries.deep_view() =~= coordinate_paths(coordinates, library_dir@));
        let separator = get_classpath_separator(os);
        Ok(join(&entries, separator.as_str()))
    }
}


/// `s` in upper case, as `str::to_uppercase` gives it.
pub uninterp spec fn uppercase_of(s: Seq<char>) -> Seq<char>;

/// Calls `str::to_uppercase`. Its result is a function of the string
/// alone; nothing else is claimed of it.
#[verifier::external_body]
fn to_uppercase(s: &str) -> (upper: String)
    ensures
        upper@ == uppercase_of(s@),
{
    s.to_uppercase()
}

/// The name under which a processor is announced: its second argument
/// where that is a word in capitals and no template, given `upper`, the
/// argument in upper case; else its jar.
pub open spec fn task_name(args: Seq<Seq<char>>, upper: Seq<char>, jar: Seq<char>) -> Seq<char> {
    if args.len() >= 2 && !seq!['{'].is_prefix_of(args[1]) && !seq!['['].is_prefix_of(args[1])
        && args[1] == upper {
        args[1]
    } else {
        jar
    }
}

/// The status text that announces a processor.
pub open spec fn task_text(task: Seq<char>) -> Seq<char> {
    "Running task: "@ + task
}

/// The command line of a processor after the runtime's executable.
pub open spec fn processor_command(
    classpath: Seq<char>,
    main_class: Seq<char>,
    args: Seq<Seq<char>>,
) -> Seq<Seq<char>> {
    seq!["-cp"@, classpath, main_class] + args
}

/// Chooses the name under which a processor is announced. `upper` is the
/// second argument in upper case.
pub fn task_label(args: &Vec<String>, upper: &str, jar: &str) -> (task: String)
    ensures
        task@ == task_name(args.deep_view(), upper@, jar@),
{
    if args.len() >= 2 {
        assert(args.deep_view()[1] == args[1]@);
        let arg = chars_of(args[1].as_str());
        let brace: Vec<char> = vec!['{'];
        let bracket: Vec<char> = vec!['['];
        assert(brace@ =~= seq!['{']);
        assert(bracket@ =~= seq!['[']);
        if !crate::text::starts_with(arg.as_slice(), brace.as_slice())
            && !crate::text::starts_with(arg.as_slice(), bracket.as_slice()) && str_eq(
            args[1].as_str(),
            upper,
        ) {
            return args[1].clone();
        }
    }
    jar.to_owned()
}

/// The name under which a processor is announced.
pub open spec fn announced_task(processor: ForgeProcessor) -> Seq<char> {
    task_name(
        processor.args.deep_view(),
        if processor.args.len() >= 2 {
            uppercase_of(processor.args[1]@)
        } else {
            Seq::empty()
        },
        processor.jar@,
    )
}

/// The main class of a processor, read off the text of its jar's manifest.
pub open spec fn processor_main_class(processor: ForgeProcessor, manifest: Seq<char>) -> Result<
    Seq<char>,
    InstallErr,
> {
    match main_class_of(manifest) {
        Some(class) => Ok(class),
        None => Err(InstallErr::NoMainClass(processor.jar)),
    }
}

impl ForgeProcessor {
    /// Reads the main class of the processor off the text of its jar's
    /// manifest. A manifest that names none ends the work.
    pub fn main_class(&self, manifest: &str) -> (result: Result<String, InstallErr>)
        ensures
            match result {
                Ok(class) => processor_main_class(*self, manifest@) == Ok::<Seq<char>, InstallErr>(
                    class@,
                ),
                Err(err) => processor_main_class(*self, manifest@) == Err::<
                    Seq<char>,
                    InstallErr,
                >(err),
            },
    {
        match get_jar_main_class(manifest) {
            Some(class) => Ok(class),
            None => Err(InstallErr::NoMainClass(self.jar.clone())),
        }
    }

    /// The name under which the processor is announced.
    pub fn get_task(&self) -> (task: String)
        ensures
            task@ == announced_task(*self),
    {
        if self.args.len() >= 2 {
            let upper = to_uppercase(self.args[1].as_str());
            task_label(&self.args, upper.as_str(), self.jar.as_str())
        } else {
            task_label(&self.args, "", self.jar.as_str())
        }
    }

    /// The command line that runs the processor, after the runtime's
    /// executable: the class path, the main class, the arguments.
    pub fn command(classpath: String, main_class: String, args: &Vec<String>) -> (command: Vec<
        String,
    >)
        ensures
            command.deep_view() == processor_command(classpath@, main_class@, args.deep_view()),
    {
        let mut command: Vec<String> = Vec::new();
        assert(command.deep_view() =~= Seq::<Seq<char>>::empty());
        push_text(&mut command, "-cp".to_owned());
        push_text(&mut command, classpath);
        push_text(&mut command, main_class);
        assert(command.deep_view() =~= seq!["-cp"@, classpath@, main_class@]);
        append_texts(&mut command, args);
        command
    }

    /// Judges how the processor ended: any exit but a successful one is
    /// fatal for the installation.
    pub fn check_exit(&self, success: bool, code: Option<i32>) -> (result: Result<(), InstallErr>)
        ensures
            result == if success {
                Ok::<(), InstallErr>(())
            } else {
                Err::<(), InstallErr>(InstallErr::ProcessorFailed(self.jar, code))
            },
    {
        if success {
            Ok(())
        } else {
            Err(InstallErr::ProcessorFailed(self.jar.clone(), code))
        }
    }
}

impl ModernInstallProfile {
    /// Announces the processor at `index`: sets the progress to its
    /// position among the processors and gives the status event that names
    /// its task.
    pub fn process(&self, index: usize, notifier: &mut Notifier) -> (event: InternalNotif)
        requires
            index < self.processors.len(),
        ensures
            final(notifier).id == old(notifier).id,
            final(notifier).progress == Some(
                (clamp_u32(index + 1), clamp_u32(self.processors.len() as int)),
            ),
            event_of(
                final(notifier).id,
                final(notifier).progress,
                task_text(announced_task(self.processors[index as int])),
                NotificationState::Running,
                event,
            ),
    {
        let total: usize = self.processors.len();
        let position: usize = index + 1;
        let cur: u32 = if position > u32::MAX as usize {
            u32::MAX
        } else {
            position as u32
        };
        let max: u32 = if total > u32::MAX as usize {
            u32::MAX
        } else {
            total as u32
        };
        notifier.set_progress(cur, max);
        let task = self.processors[index].get_task();
        let message = concat2("Running task: ", task.as_str());
        notifier.send_msg(message.as_str())
    }
}

/// A Forge installer, run step by step.
#[derive(Debug)]
pub struct ForgeInstaller;

/// The generation of an installer.
#[derive(Debug, Clone, Copy, PartialEq, Eq, Structural)]
pub enum Generation {
    /// Carries no `version.json`; its one library is copied.
    Legacy,
    /// Carries a `version.json`; its processors are run.
    Modern,
}

/// How far an installation has come. Each state but the last two waits
/// for the outcome of the action that led to it.
#[derive(Debug, Clone, Copy, PartialEq, Eq, Structural)]
pub enum InstallerState {
    /// The installer is being fetched; `fallback` tells from which address.
    NeedInstaller { fallback: bool },
    /// The installer is here and is being extracted.
    Downloaded,
    /// The generation is known; the libraries are being copied or staged.
    Extracted { generation: Generation, processors: usize },
    /// The libraries are staged; the processor `next` of `total` is running.
    LibrariesStaged { next: usize, total: usize },
    /// All processors have run; the results are being cached.
    ProcessorsRun,
    /// The library of a first-generation installer has been copied; the
    /// results are being cached.
    LibrariesCopied,
    /// The installation is complete.
    Ready,
    /// The installation was given up.
    Failed,
}

/// What happened outside since the last action.
#[derive(Debug, Clone, Copy, PartialEq, Eq, Structural)]
pub enum InstallerEvent {
    /// The installer was fetched.
    Fetched,
    /// The installer could not be fetched; `not_found` tells whether the
    /// server last answered 404.
    FetchFailed { not_found: bool },
    /// The installer was extracted. It held a `version.json` or not, and
    /// its profile declares `processors` processors.
    Unpacked { has_version_json: bool, processors: usize },
    /// The libraries of the profile are in the store.
    Staged,
    /// The library of a first-generation installer was copied.
    Copied,
    /// The running processor ended, or was skipped for its side.
    ProcessorFinished { success: bool },
    /// The manifest and the profile were written to the cache.
    Cached,
    /// The last action could not be carried out.
    StepFailed,
}

/// Why the installation was given up.
#[derive(Debug, Clone, Copy, PartialEq, Eq, Structural)]
pub enum InstallerFault {
    /// The installer could not be fetched from either address.
    Download,
    /// The processor with this index failed.
    Processor(usize),
    /// An action could not be carried out.
    Step,
    /// An event came that the state does not wait for.
    Unexpected,
}

/// What is to be done next.
#[derive(Debug, Clone, Copy, PartialEq, Eq, Structural)]
pub enum InstallerAction {
    /// Fetch the installer, from the alternate address if `fallback`.
    FetchInstaller { fallback: bool },
    /// Extract the manifest, the profile and the data of the installer.
    Extract,
    /// Bring the libraries of the profile into the store.
    StageLibraries,
    /// Copy the library of a first-generation installer into the store.
    CopyLibraries,
    /// Run the processor with this index.
    RunProcessor(usize),
    /// Write the manifest and the profile to the cache.
    WriteCache,
    /// Nothing is left to do.
    Finish,
    /// Give up.
    Abort(InstallerFault),
}

/// The generation of an installer that holds a `version.json` or not.
pub open spec fn generation_of(has_version_json: bool) -> Generation {
    if has_version_json {
        Generation::Modern
    } else {
        Generation::Legacy
    }
}

/// The state and the action that follow `event` in `state`.
pub open spec fn next_step(state: InstallerState, event: InstallerEvent) -> (
    InstallerState,
    InstallerAction,
) {
    match (state, event) {
        (InstallerState::Ready, _) => (InstallerState::Ready, InstallerAction::Finish),
        (_, InstallerEvent::StepFailed) => (
            InstallerState::Failed,
            InstallerAction::Abort(InstallerFault::Step),
        ),
        (InstallerState::NeedInstaller { fallback }, InstallerEvent::Fetched) => (
            InstallerState::Downloaded,
            InstallerAction::Extract,
        ),
        (InstallerState::NeedInstaller { fallback }, InstallerEvent::FetchFailed { not_found }) => {
            if not_found && !fallback {
                (
                    InstallerState::NeedInstaller { fallback: true },
                    InstallerAction::FetchInstaller { fallback: true },
                )
            } else {
                (InstallerState::Failed, InstallerAction::Abort(InstallerFault::Download))
            }
        },
        (
            InstallerState::Downloaded,
            InstallerEvent::Unpacked { has_version_json, processors },
        ) => (
            InstallerState::Extracted { generation: generation_of(has_version_json), processors },
            if has_version_json {
                InstallerAction::StageLibraries
            } else {
                InstallerAction::CopyLibraries
            },
        ),
        (
            InstallerState::Extracted { generation: Generation::Legacy, processors },
            InstallerEvent::Copied,
        ) => (InstallerState::LibrariesCopied, InstallerAction::WriteCache),
        (
            InstallerState::Extracted { generation: Generation::Modern, processors },
            InstallerEvent::Staged,
        ) => if processors == 0 {
            (InstallerState::ProcessorsRun, InstallerAction::WriteCache)
        } else {
            (
                InstallerState::LibrariesStaged { next: 0, total: processors },
                InstallerAction::RunProcessor(0),
            )
        },
        (
            InstallerState::LibrariesStaged { next, total },
            InstallerEvent::ProcessorFinished { success },
        ) => if !success {
            (InstallerState::Failed, InstallerAction::Abort(InstallerFault::Processor(next)))
        } else if next + 1 < total {
            (
                InstallerState::LibrariesStaged { next: (next + 1) as usize, total },
                InstallerAction::RunProcessor((next + 1) as usize),
            )
        } else {
            (InstallerState::ProcessorsRun, InstallerAction::WriteCache)
        },
        (InstallerState::ProcessorsRun, InstallerEvent::Cached) => (
            InstallerState::Ready,
            InstallerAction::Finish,
        ),
        (InstallerState::LibrariesCopied, InstallerEvent::Cached) => (
            InstallerState::Ready,
            InstallerAction::Finish,
        ),
        _ => (InstallerState::Failed, InstallerAction::Abort(InstallerFault::Unexpected)),
    }
}

/// A state that an installation can be in: a running processor is one of
/// those that the profile declares.
pub open spec fn state_valid(state: InstallerState) -> bool {
    match state {
        InstallerState::LibrariesStaged { next, total } => next < total,
        _ => true,
    }
}

/// The processors that the profile declares, as far as `state` knows them.
pub open spec fn declared_processors(state: InstallerState) -> Option<usize> {
    match state {
        InstallerState::Extracted { generation, processors } => Some(processors),
        InstallerState::LibrariesStaged { next, total } => Some(total),
        _ => None,
    }
}

/// From a valid state every step leads to a valid state, and a processor is
/// only ever asked for by an index below the number that was declared.
pub proof fn lemma_step_keeps_states_valid(state: InstallerState, event: InstallerEvent)
    requires
        state_valid(state),
    ensures
        state_valid(next_step(state, event).0),
        next_step(state, event).1 matches InstallerAction::RunProcessor(index)
            ==> declared_processors(state) matches Some(total) && index < total,
{
}

/// The status text and the position in the progress that belong to an
/// action, for those actions that the user is told of.
pub open spec fn action_status(action: InstallerAction) -> Option<(Seq<char>, u32)> {
    match action {
        InstallerAction::FetchInstaller { fallback } => Some(
            ("Downloading Forge installer..."@, 1u32),
        ),
        InstallerAction::Extract => Some(("Extracting Forge installer..."@, 2u32)),
        InstallerAction::StageLibraries => Some(("Downloading installer libraries..."@, 3u32)),
        InstallerAction::RunProcessor(index) => Some(("Running installer processors..."@, 4u32)),
        InstallerAction::Finish => Some(("Successfully installed forge"@, 5u32)),
        _ => None,
    }
}

/// The number of steps that the progress of an installation is measured
/// against.
pub const INSTALL_STEPS: u32 = 5;

/// The actions that a run of events brings about, from `state` on.
pub open spec fn actions_of(state: InstallerState, events: Seq<InstallerEvent>) -> Seq<
    InstallerAction,
>
    decreases events.len(),
{
    if events.len() == 0 {
        Seq::empty()
    } else {
        seq![next_step(state, events[0]).1] + actions_of(
            next_step(state, events[0]).0,
            events.skip(1),
        )
    }
}

/// `count` processors that end well, one after the other.
pub open spec fn successes(count: nat) -> Seq<InstallerEvent> {
    Seq::new(count, |i: int| InstallerEvent::ProcessorFinished { success: true })
}

/// The actions that run the processors `from..total`, in order, and then
/// write the cache.
pub open spec fn remaining_runs(from: int, total: int) -> Seq<InstallerAction> {
    Seq::new((total - from) as nat, |i: int| InstallerAction::RunProcessor((from + i) as usize)).push(
        InstallerAction::WriteCache,
    )
}

/// A state from which no processor is ever run.
pub open spec fn on_legacy_path(state: InstallerState) -> bool {
    match state {
        InstallerState::Extracted { generation: Generation::Legacy, processors } => true,
        InstallerState::LibrariesCopied => true,
        InstallerState::Ready => true,
        InstallerState::Failed => true,
        _ => false,
    }
}

proof fn lemma_legacy_path_closed(state: InstallerState, events: Seq<InstallerEvent>, i: int)
    requires
        on_legacy_path(state),
        0 <= i < events.len(),
    ensures
        actions_of(state, events).len() == events.len(),
        !(actions_of(state, events)[i] is RunProcessor),
    decreases events.len(),
{
    let rest = events.skip(1);
    lemma_actions_len(next_step(state, events[0]).0, rest);
    if i > 0 {
        lemma_legacy_path_closed(next_step(state, events[0]).0, rest, i - 1);
    }
}

proof fn lemma_actions_len(state: InstallerState, events: Seq<InstallerEvent>)
    ensures
        actions_of(state, events).len() == events.len(),
    decreases events.len(),
{
    if events.len() > 0 {
        lemma_actions_len(next_step(state, events[0]).0, events.skip(1));
    }
}

/// An installer without a `version.json` is of the first generation, its
/// library is copied, and whatever happens afterwards, no processor is run.
pub proof fn lemma_legacy_never_runs_a_processor(
    processors: usize,
    events: Seq<InstallerEvent>,
    i: int,
)
    requires
        0 <= i < events.len(),
    ensures
        next_step(
            InstallerState::Downloaded,
            InstallerEvent::Unpacked { has_version_json: false, processors },
        ) == (
            InstallerState::Extracted { generation: Generation::Legacy, processors },
            InstallerAction::CopyLibraries,
        ),
        actions_of(
            InstallerState::Extracted { generation: Generation::Legacy, processors },
            events,
        ).len() == events.len(),
        !(actions_of(
            InstallerState::Extracted { generation: Generation::Legacy, processors },
            events,
        )[i] is RunProcessor),
{
    lemma_legacy_path_closed(
        InstallerState::Extracted { generation: Generation::Legacy, processors },
        events,
        i,
    );
}

proof fn lemma_runs_from(next: usize, total: usize)
    requires
        next < total,
    ensures
        actions_of(
            InstallerState::LibrariesStaged { next, total },
            successes((total - next) as nat),
        ) == remaining_runs(next + 1, total as int),
    decreases total - next,
{
    let state = InstallerState::LibrariesStaged { next, total };
    let events = successes((total - next) as nat);
    let rest = events.skip(1);
    assert(rest =~= successes((total - next - 1) as nat));
    if next + 1 < total {
        lemma_runs_from((next + 1) as usize, total);
        assert(actions_of(state, events) =~= remaining_runs(next + 1, total as int));
    } else {
        assert(actions_of(InstallerState::ProcessorsRun, rest) =~= Seq::<InstallerAction>::empty());
        assert(actions_of(state, events) =~= remaining_runs(next + 1, total as int));
    }
}

/// An installer with a `version.json` is of the modern generation: its
/// libraries are staged, and when every processor ends well, all declared
/// processors are run, each once, in the order of the profile, before the
/// results are cached.
pub proof fn lemma_modern_runs_all_processors_in_order(processors: usize)
    ensures
        next_step(
            InstallerState::Downloaded,
            InstallerEvent::Unpacked { has_version_json: true, processors },
        ) == (
            InstallerState::Extracted { generation: Generation::Modern, processors },
            InstallerAction::StageLibraries,
        ),
        actions_of(
            InstallerState::Extracted { generation: Generation::Modern, processors },
            seq![InstallerEvent::Staged] + successes(processors as nat),
        ) == remaining_runs(0, processors as int),
{
    let state = InstallerState::Extracted { generation: Generation::Modern, processors };
    let events = seq![InstallerEvent::Staged] + successes(processors as nat);
    assert(events.skip(1) =~= successes(processors as nat));
    if processors == 0 {
        assert(actions_of(InstallerState::ProcessorsRun, events.skip(1)) =~= Seq::<
            InstallerAction,
        >::empty());
        assert(actions_of(state, events) =~= remaining_runs(0, 0));
    } else {
        lemma_runs_from(0, processors);
        assert(actions_of(state, events) =~= remaining_runs(0, processors as int));
    }
}

/// The address of the installer of a pair of versions: the primary one,
/// or the alternate one that older installers are kept under.
pub open spec fn installer_url(mc_ver: Seq<char>, forge_ver: Seq<char>, fallback: bool) -> Seq<
    char,
> {
    let pair = if fallback {
        mc_ver + seq!['-'] + forge_ver + seq!['-'] + mc_ver
    } else {
        mc_ver + seq!['-'] + forge_ver
    };
    "https://maven.minecraftforge.net/net/minecraftforge/forge/"@ + pair + "/forge-"@ + pair
        + "-installer.jar"@
}

/// Where the installer of a pair of versions is kept.
pub open spec fn installer_path(data_dir: Seq<char>, mc_ver: Seq<char>, forge_ver: Seq<char>) -> Seq<
    char,
> {
    join_path(
        join_path(data_dir, "forge_cache"@),
        forge_pair_name(mc_ver, forge_ver) + "-installer.jar"@,
    )
}

/// Where the client jar that an installation produces is kept.
pub open spec fn installed_jar_path(
    data_dir: Seq<char>,
    mc_ver: Seq<char>,
    forge_ver: Seq<char>,
) -> Seq<char> {
    join_path(
        join_path(
            join_path(join_path(data_dir, "libraries"@), "net/minecraftforge/forge"@),
            mc_ver + seq!['-'] + forge_ver,
        ),
        forge_pair_name(mc_ver, forge_ver) + "-client.jar"@,
    )
}

/// What is done with one file of an extracted installer.
#[derive(Debug, Clone, Copy, PartialEq, Eq, Structural)]
pub enum FileStep {
    /// Leave the file alone: it is empty.
    Skip,
    /// Take the manifest and the profile out of the file, copy the
    /// profile's library and write both to the cache.
    ConvertLegacy,
    /// Write the file as it is.
    Write,
}

/// An empty file is skipped; the profile of a first-generation installer
/// is converted; every other file is written as it is.
pub open spec fn file_step(generation: Generation, name: Seq<char>, len: usize) -> FileStep {
    if len == 0 {
        FileStep::Skip
    } else if generation == Generation::Legacy && name == "install_profile.json"@ {
        FileStep::ConvertLegacy
    } else {
        FileStep::Write
    }
}

impl ForgeInstaller {
    /// The state and the action that an installation begins with.
    pub fn start() -> (begin: (InstallerState, InstallerAction))
        ensures
            begin == (
                InstallerState::NeedInstaller { fallback: false },
                InstallerAction::FetchInstaller { fallback: false },
            ),
    {
        (
            InstallerState::NeedInstaller { fallback: false },
            InstallerAction::FetchInstaller { fallback: false },
        )
    }

    /// The status text and the position in the progress that the user is
    /// told of when `action` begins.
    pub fn status(action: InstallerAction) -> (status: Option<(String, u32)>)
        ensures
            match status {
                Some((text, position)) => action_status(action) == Some((text@, position))
                    && 1 <= position <= INSTALL_STEPS,
                None => action_status(action) is None,
            },
    {
        match action {
            InstallerAction::FetchInstaller { fallback: _ } => Some(
                ("Downloading Forge installer...".to_owned(), 1),
            ),
            InstallerAction::Extract => Some(("Extracting Forge installer...".to_owned(), 2)),
            InstallerAction::StageLibraries => Some(
                ("Downloading installer libraries...".to_owned(), 3),
            ),
            InstallerAction::RunProcessor(_) => Some(
                ("Running installer processors...".to_owned(), 4),
            ),
            InstallerAction::Finish => Some(("Successfully installed forge".to_owned(), 5)),
            _ => None,
        }
    }

    /// Takes what happened and says how the installation goes on.
    pub fn step(state: InstallerState, event: InstallerEvent) -> (next: (
        InstallerState,
        InstallerAction,
    ))
        ensures
            next == next_step(state, event),
    {
        match (state, event) {
            (InstallerState::Ready, _) => (InstallerState::Ready, InstallerAction::Finish),
            (_, InstallerEvent::StepFailed) => (
                InstallerState::Failed,
                InstallerAction::Abort(InstallerFault::Step),
            ),
            (InstallerState::NeedInstaller { fallback: _ }, InstallerEvent::Fetched) => (
                InstallerState::Downloaded,
                InstallerAction::Extract,
            ),
            (
                InstallerState::NeedInstaller { fallback },
                InstallerEvent::FetchFailed { not_found },
            ) => {
                if not_found && !fallback {
                    (
                        InstallerState::NeedInstaller { fallback: true },
                        InstallerAction::FetchInstaller { fallback: true },
                    )
                } else {
                    (InstallerState::Failed, InstallerAction::Abort(InstallerFault::Download))
                }
            },
            (
                InstallerState::Downloaded,
                InstallerEvent::Unpacked { has_version_json, processors },
            ) => {
                if has_version_json {
                    (
                        InstallerState::Extracted { generation: Generation::Modern, processors },
                        InstallerAction::StageLibraries,
                    )
                } else {
                    (
                        InstallerState::Extracted { generation: Generation::Legacy, processors },
                        InstallerAction::CopyLibraries,
                    )
                }
            },
            (
                InstallerState::Extracted { generation: Generation::Legacy, processors: _ },
                InstallerEvent::Copied,
            ) => (InstallerState::LibrariesCopied, InstallerAction::WriteCache),
            (
                InstallerState::Extracted { generation: Generation::Modern, processors },
                InstallerEvent::Staged,
            ) => {
                if processors == 0 {
                    (InstallerState::ProcessorsRun, InstallerAction::WriteCache)
                } else {
                    (
                        InstallerState::LibrariesStaged { next: 0, total: processors },
                        InstallerAction::RunProcessor(0),
                    )
                }
            },
            (
                InstallerState::LibrariesStaged { next, total },
                InstallerEvent::ProcessorFinished { success },
            ) => {
                if !success {
                    (
                        InstallerState::Failed,
                        InstallerAction::Abort(InstallerFault::Processor(next)),
                    )
                } else if next < total && next + 1 < total {
                    (
                        InstallerState::LibrariesStaged { next: next + 1, total },
                        InstallerAction::RunProcessor(next + 1),
                    )
                } else {
                    (InstallerState::ProcessorsRun, InstallerAction::WriteCache)
                }
            },
            (InstallerState::ProcessorsRun, InstallerEvent::Cached) => (
                InstallerState::Ready,
                InstallerAction::Finish,
            ),
            (InstallerState::LibrariesCopied, InstallerEvent::Cached) => (
                InstallerState::Ready,
                InstallerAction::Finish,
            ),
            _ => (InstallerState::Failed, InstallerAction::Abort(InstallerFault::Unexpected)),
        }
    }

    /// The event that the end of the installer's download stands for.
    /// `retry` is the state that the download ended in.
    pub fn download_event(result: &Result<(), DownloadErr>, retry: &Retry) -> (event:
        InstallerEvent)
        ensures
            event == match result {
                Ok(_) => InstallerEvent::Fetched,
                Err(_) => InstallerEvent::FetchFailed {
                    not_found: retry.last_failure == Some(DownloadErr::Response(404)),
                },
            },
    {
        match result {
            Ok(_) => InstallerEvent::Fetched,
            Err(_) => {
                let not_found = match &retry.last_failure {
                    Some(DownloadErr::Response(status)) => *status == 404,
                    _ => false,
                };
                InstallerEvent::FetchFailed { not_found }
            },
        }
    }

    /// The download of the installer of a pair of versions, from the
    /// primary address or the alternate one. Nothing is known of its size
    /// or digest.
    pub fn download(data_dir: &str, mc_ver: &str, forge_ver: &str, fallback: bool) -> (download:
        Download)
        ensures
            download.deep_view() == (DownloadView {
                sha1: None,
                size: None,
                path: installer_path(data_dir@, mc_ver@, forge_ver@),
                url: installer_url(mc_ver@, forge_ver@, fallback),
            }),
    {
        let mut pair: Vec<char> = Vec::new();
        push_str(&mut pair, mc_ver);
        pair.push('-');
        push_str(&mut pair, forge_ver);
        if fallback {
            pair.push('-');
            push_str(&mut pair, mc_ver);
        }
        let pair_text = string_of(pair.as_slice());
        let head = concat3(
            "https://maven.minecraftforge.net/net/minecraftforge/forge/",
            pair_text.as_str(),
            "/forge-",
        );
        let url = concat3(head.as_str(), pair_text.as_str(), "-installer.jar");
        let cache = crate::utils::get_forge_cache_dir(data_dir);
        let name = concat2(crate::utils::forge_pair(mc_ver, forge_ver).as_str(), "-installer.jar");
        let path = path_join(cache.as_str(), name.as_str());
        proof {
            assert(pair@ =~= if fallback {
                mc_ver@ + seq!['-'] + forge_ver@ + seq!['-'] + mc_ver@
            } else {
                mc_ver@ + seq!['-'] + forge_ver@
            });
        }
        Download { sha1: None, size: None, path, url }
    }

    /// Where the client jar of an installation is kept. An installation
    /// is due where no regular file is there.
    pub fn prepare_jar(data_dir: &str, mc_ver: &str, forge_ver: &str) -> (path: String)
        ensures
            path@ == installed_jar_path(data_dir@, mc_ver@, forge_ver@),
    {
        let library_dir = get_library_dir(data_dir);
        let group = path_join(library_dir.as_str(), "net/minecraftforge/forge");
        let mut pair: Vec<char> = Vec::new();
        push_str(&mut pair, mc_ver);
        pair.push('-');
        push_str(&mut pair, forge_ver);
        assert(pair@ =~= mc_ver@ + seq!['-'] + forge_ver@);
        let pair_text = string_of(pair.as_slice());
        let dir = path_join(group.as_str(), pair_text.as_str());
        let name = concat2(crate::utils::forge_pair(mc_ver, forge_ver).as_str(), "-client.jar");
        path_join(dir.as_str(), name.as_str())
    }

    /// Tells whether an installation has to be run. `cached` is the
    /// generation of the cached profile, absent where the manifest or the
    /// profile is not cached. Nothing is left to do for a cached installer
    /// of the first generation, nor for a modern one whose client jar is
    /// there.
    pub fn is_due(cached: Option<Generation>, jar_is_file: bool) -> (due: bool)
        ensures
            due == match cached {
                None => true,
                Some(Generation::Legacy) => false,
                Some(Generation::Modern) => !jar_is_file,
            },
    {
        match cached {
            None => true,
            Some(Generation::Legacy) => false,
            Some(Generation::Modern) => !jar_is_file,
        }
    }

    /// Tells the generation of an extracted installer from the names of
    /// its files: it is modern where one of them is `version.json`.
    pub fn extract_needed(names: &Vec<String>) -> (generation: Generation)
        ensures
            generation == generation_of(names.deep_view().contains("version.json"@)),
    {
        if is_listed(names, "version.json") {
            Generation::Modern
        } else {
            Generation::Legacy
        }
    }

    /// Decides what is done with one file of an extracted installer.
    pub fn file_step(generation: Generation, name: &str, len: usize) -> (step: FileStep)
        ensures
            step == file_step(generation, name@, len),
    {
        if len == 0 {
            FileStep::Skip
        } else if generation == Generation::Legacy && str_eq(name, "install_profile.json") {
            FileStep::ConvertLegacy
        } else {
            FileStep::Write
        }
    }
}

} // verus!
