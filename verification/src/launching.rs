//! The last step before a launch: substituting the placeholders of the
//! argument lists, dropping what the launcher does not support, and putting
//! the command line together.

use vstd::prelude::*;
use crate::accounts::MCAccount;
use crate::java::{java_args_text, JavaDetails};
use crate::mc_structs::MCVersionManifest;
use crate::notifier::NotificationState;
use crate::platform::{classpath_separator_char, Os};
use crate::text::{
    append_texts, chars_of, concat2, concat3, has_substring, occurs_at, push_text,
    replace_all, replace_char, replace_chars, signed_decimal_string, signed_digits,
    split_whitespace, split_words, str_contains, str_replace, string_of,
};
use crate::utils::{get_classpath_separator, get_library_dir, join_path, path_join};

verus! {

/// The arguments of a launch.
#[derive(Debug)]
pub struct Args {
    pub jvm: Vec<String>,
    pub game: Vec<String>,
    pub main_class: String,
}

/// The table of placeholders of a launch, in the order in which they are
/// substituted.
pub open spec fn launch_table(
    account: MCAccount,
    version: MCVersionManifest,
    minecraft_path: Seq<char>,
    classpath: Seq<char>,
    assets_root: Seq<char>,
    data_dir: Seq<char>,
    os: Os,
) -> Seq<(Seq<char>, Seq<char>)> {
    seq![
        ("${auth_player_name}"@, account.mc_profile.name@),
        ("${auth_uuid}"@, account.mc_profile.id@),
        ("${auth_access_token}"@, account.mc_response.access_token@),
        ("${auth_xuid}"@, account.xsts_response.display_claims.xui@[0].uhs@),
        ("${user_properties}"@, "something"@),
        ("${classpath}"@, classpath),
        ("${assets_root}"@, assets_root),
        ("${version_name}"@, replace_char(replace_char(version.id@, ' ', '_'), ':', '_')),
        ("${assets_index_name}"@, version.asset_index.id@),
        ("${version_type}"@, version.typ@),
        ("${natives_directory}"@, join_path(minecraft_path, "natives"@)),
        ("${launcher_name}"@, "yetalauncher"@),
        ("${launcher_version}"@, "323"@),
        ("${game_directory}"@, minecraft_path),
        ("${user_type}"@, "msa"@),
        ("${resolution_width}"@, "1200"@),
        ("${resolution_height}"@, "800"@),
        ("${classpath_separator}"@, seq![classpath_separator_char(os)]),
        ("${library_directory}"@, join_path(data_dir, "libraries"@)),
    ]
}

/// `arg` with the placeholders of `table` substituted, one after the
/// other, each wherever it occurs.
pub open spec fn substitute_all(arg: Seq<char>, table: Seq<(Seq<char>, Seq<char>)>) -> Seq<char>
    decreases table.len(),
{
    if table.len() == 0 {
        arg
    } else {
        substitute_all(replace_all(arg, table[0].0, table[0].1), table.skip(1))
    }
}

/// An argument that names a feature that the launcher does not support.
pub open spec fn is_denied(arg: Seq<char>) -> bool {
    has_substring(arg, "quickPlay"@) || has_substring(arg, "--demo"@)
}

/// The arguments as they are passed on: each with its placeholders
/// substituted, those that are denied afterwards left out, the others in
/// their order.
pub open spec fn final_args(args: Seq<Seq<char>>, table: Seq<(Seq<char>, Seq<char>)>) -> Seq<
    Seq<char>,
>
    decreases args.len(),
{
    if args.len() == 0 {
        Seq::empty()
    } else if is_denied(substitute_all(args.last(), table)) {
        final_args(args.drop_last(), table)
    } else {
        final_args(args.drop_last(), table).push(substitute_all(args.last(), table))
    }
}

/// Replacing a pattern that does not occur changes nothing.
pub proof fn lemma_replace_without_occurrence(s: Seq<char>, pat: Seq<char>, rep: Seq<char>)
    requires
        !has_substring(s, pat),
    ensures
        replace_all(s, pat, rep) == s,
    decreases s.len(),
{
    if s.len() > 0 {
        assert(!occurs_at(s, pat, 0));
        assert forall|j: int| !occurs_at(s.skip(1), pat, j) by {
            if occurs_at(s.skip(1), pat, j) {
                assert(s.skip(1).subrange(j, j + pat.len()) == s.subrange(
                    j + 1,
                    j + 1 + pat.len(),
                ));
                assert(occurs_at(s, pat, j + 1));
            }
        }
        lemma_replace_without_occurrence(s.skip(1), pat, rep);
        assert(seq![s[0]] + s.skip(1) == s);
    }
}

/// An argument that holds none of the placeholders comes out unchanged.
pub proof fn lemma_unrelated_argument_unchanged(arg: Seq<char>, table: Seq<(Seq<char>, Seq<char>)>)
    requires
        forall|i: int| 0 <= i < table.len() ==> !has_substring(arg, (#[trigger] table[i]).0),
    ensures
        substitute_all(arg, table) == arg,
    decreases table.len(),
{
    if table.len() > 0 {
        lemma_replace_without_occurrence(arg, table[0].0, table[0].1);
        assert forall|i: int| 0 <= i < table.skip(1).len() implies !has_substring(
            arg,
            (#[trigger] table.skip(1)[i]).0,
        ) by {
            assert(table.skip(1)[i] == table[i + 1]);
        }
        lemma_unrelated_argument_unchanged(arg, table.skip(1));
    }
}

/// No argument that is passed on is denied, and each is the substituted
/// form of an argument that was given.
pub proof fn lemma_denied_arguments_are_removed(
    args: Seq<Seq<char>>,
    table: Seq<(Seq<char>, Seq<char>)>,
    i: int,
)
    requires
        0 <= i < final_args(args, table).len(),
    ensures
        !is_denied(final_args(args, table)[i]),
        exists|j: int| 0 <= j < args.len() && final_args(args, table)[i] == substitute_all(
            #[trigger] args[j],
            table,
        ),
    decreases args.len(),
{
    if args.len() > 0 {
        let before = final_args(args.drop_last(), table);
        if i < before.len() {
            lemma_denied_arguments_are_removed(args.drop_last(), table, i);
            let j = choose|j: int|
                0 <= j < args.drop_last().len() && before[i] == substitute_all(
                    #[trigger] args.drop_last()[j],
                    table,
                );
            assert(args.drop_last()[j] == args[j]);
        } else {
            assert(final_args(args, table)[i] == substitute_all(args[args.len() - 1], table));
        }
    }
}

/// Substitutes the placeholders of `table` in `arg`.
pub fn substitute_placeholders(arg: String, table: &Vec<(String, String)>) -> (out: String)
    ensures
        out@ == substitute_all(arg@, table.deep_view()),
{
    let mut current = arg;
    let mut i: usize = 0;
    assert(table.deep_view().skip(0) == table.deep_view());
    while i < table.len()
        invariant
            i <= table.len(),
            substitute_all(arg@, table.deep_view()) == substitute_all(
                current@,
                table.deep_view().skip(i as int),
            ),
        decreases table.len() - i,
    {
        proof {
            assert(table.deep_view().skip(i as int)[0] == table[i as int].deep_view());
            assert(table.deep_view().skip(i as int).skip(1) == table.deep_view().skip(i + 1));
        }
        current = str_replace(current.as_str(), table[i].0.as_str(), table[i].1.as_str());
        i += 1;
    }
    current
}

/// Tells whether an argument is denied.
pub fn denied(arg: &str) -> (denied: bool)
    ensures
        denied == is_denied(arg@),
{
    str_contains(arg, "quickPlay") || str_contains(arg, "--demo")
}

/// Brings a list of arguments into the form in which it is passed on.
pub fn finalize_args(args: Vec<String>, table: &Vec<(String, String)>) -> (out: Vec<String>)
    ensures
        out.deep_view() == final_args(args.deep_view(), table.deep_view()),
{
    let mut out: Vec<String> = Vec::new();
    let ghost given = args.deep_view();
    assert(out.deep_view() =~= Seq::<Seq<char>>::empty());
    assert(given.take(0) =~= Seq::<Seq<char>>::empty());
    for arg in it: args.into_iter()
        invariant
            it.seq() == args@,
            given == args.deep_view(),
            out.deep_view() == final_args(given.take(it.index()), table.deep_view()),
    {
        let ghost i = it.index();
        proof {
            assert(given.take(i + 1).drop_last() == given.take(i));
            assert(given.take(i + 1).last() == arg@);
        }
        let value = substitute_placeholders(arg, table);
        if !denied(value.as_str()) {
            push_text(&mut out, value);
        }
    }
    assert(given.take(args@.len() as int) == given);
    out
}

impl MCAccount {
    /// Tells whether the account carries the claim that names its user.
    pub fn has_user_hash(&self) -> (has: bool)
        ensures
            has == (self.xsts_response.display_claims.xui@.len() > 0),
    {
        self.xsts_response.display_claims.xui.len() > 0
    }
}

/// Builds the table of placeholders of a launch.
pub fn replacement_table(
    account: &MCAccount,
    version: &MCVersionManifest,
    minecraft_path: &str,
    classpath: &str,
    assets_root: &str,
    data_dir: &str,
    os: Os,
) -> (table: Vec<(String, String)>)
    requires
        account.xsts_response.display_claims.xui@.len() > 0,
    ensures
        table.deep_view() == launch_table(
            *account,
            *version,
            minecraft_path@,
            classpath@,
            assets_root@,
            data_dir@,
            os,
        ),
{
    let id = chars_of(version.id.as_str());
    let spaced = replace_chars(id.as_slice(), ' ', '_');
    let version_name = replace_chars(spaced.as_slice(), ':', '_');
    let mut table: Vec<(String, String)> = Vec::new();
    table.push(("${auth_player_name}".to_owned(), account.mc_profile.name.clone()));
    table.push(("${auth_uuid}".to_owned(), account.mc_profile.id.clone()));
    table.push(("${auth_access_token}".to_owned(), account.mc_response.access_token.clone()));
    table.push(
        ("${auth_xuid}".to_owned(), account.xsts_response.display_claims.xui[0].uhs.clone()),
    );
    table.push(("${user_properties}".to_owned(), "something".to_owned()));
    table.push(("${classpath}".to_owned(), classpath.to_owned()));
    table.push(("${assets_root}".to_owned(), assets_root.to_owned()));
    table.push(("${version_name}".to_owned(), string_of(version_name.as_slice())));
    table.push(("${assets_index_name}".to_owned(), version.asset_index.id.clone()));
    table.push(("${version_type}".to_owned(), version.typ.clone()));
    table.push(("${natives_directory}".to_owned(), path_join(minecraft_path, "natives")));
    table.push(("${launcher_name}".to_owned(), "yetalauncher".to_owned()));
    table.push(("${launcher_version}".to_owned(), "323".to_owned()));
    table.push(("${game_directory}".to_owned(), minecraft_path.to_owned()));
    table.push(("${user_type}".to_owned(), "msa".to_owned()));
    table.push(("${resolution_width}".to_owned(), "1200".to_owned()));
    table.push(("${resolution_height}".to_owned(), "800".to_owned()));
    table.push(("${classpath_separator}".to_owned(), get_classpath_separator(os)));
    table.push(("${library_directory}".to_owned(), get_library_dir(data_dir)));
    assert(table.deep_view() =~= launch_table(
        *account,
        *version,
        minecraft_path@,
        classpath@,
        assets_root@,
        data_dir@,
        os,
    ));
    table
}

/// Produces the final arguments of a launch: every argument of both lists
/// has the placeholders of `table` substituted, and those that name an
/// unsupported feature are removed.
pub fn parse_arguments(args_struct: Args, table: &Vec<(String, String)>) -> (args: Args)
    ensures
        args.jvm.deep_view() == final_args(args_struct.jvm.deep_view(), table.deep_view()),
        args.game.deep_view() == final_args(args_struct.game.deep_view(), table.deep_view()),
        args.main_class == args_struct.main_class,
{
    let Args { jvm, game, main_class } = args_struct;
    Args { jvm: finalize_args(jvm, table), game: finalize_args(game, table), main_class }
}

/// The command line of a launch after the runtime's executable: the words
/// of the runtime's own arguments, the JVM arguments, the main class, the
/// game arguments.
pub open spec fn launch_command_of(java: JavaDetails, args: Args) -> Seq<Seq<char>> {
    split_words(java_args_text(java.xmx, java.xms, java.args@)) + args.jvm.deep_view() + seq![
        args.main_class@,
    ] + args.game.deep_view()
}

/// Puts the command line of a launch together.
pub fn launch_command(java: &JavaDetails, args: &Args) -> (command: Vec<String>)
    ensures
        command.deep_view() == launch_command_of(*java, *args),
{
    let own = java.get_args();
    let mut command = split_whitespace(own.as_str());
    append_texts(&mut command, &args.jvm);
    let ghost before = command.deep_view();
    push_text(&mut command, args.main_class.clone());
    assert(before.push(args.main_class@) == before + seq![args.main_class@]);
    append_texts(&mut command, &args.game);
    command
}

/// Why a launch was given up.
#[derive(Debug)]
pub enum LaunchErr {
    /// Something that is no directory stands where the game directory is
    /// to be.
    InvalidDirectory,
    /// No account is selected.
    NoAccount,
    /// The version is not in the index.
    NoVersionDetails,
    /// The manifest of the version could not be had.
    NoManifest,
    /// No configured runtime is meant for the version.
    NoJava,
}

/// The text that reports an error of a launch.
pub open spec fn launch_error_text(err: LaunchErr) -> Seq<char> {
    match err {
        LaunchErr::InvalidDirectory => "Target of minecraft path is invalid!"@,
        LaunchErr::NoAccount => "Could not get the selected account!"@,
        LaunchErr::NoVersionDetails => "Could not get Minecraft version details!"@,
        LaunchErr::NoManifest => "Could not get Minecraft version manifest!"@,
        LaunchErr::NoJava => "Could not find Java to use for this version in the settings!"@,
    }
}

impl LaunchErr {
    /// The text that reports the error to the user.
    pub fn message(&self) -> (text: String)
        ensures
            text@ == launch_error_text(*self),
    {
        match self {
            LaunchErr::InvalidDirectory => "Target of minecraft path is invalid!".to_owned(),
            LaunchErr::NoAccount => "Could not get the selected account!".to_owned(),
            LaunchErr::NoVersionDetails => "Could not get Minecraft version details!".to_owned(),
            LaunchErr::NoManifest => "Could not get Minecraft version manifest!".to_owned(),
            LaunchErr::NoJava => "Could not find Java to use for this version in the settings!".to_owned(),
        }
    }
}

/// The game directory is used where it is a directory, created where
/// nothing is there, and refused otherwise. `Ok` tells whether it has to
/// be created.
pub open spec fn directory_plan(is_dir: bool, exists: bool) -> Result<bool, LaunchErr> {
    if is_dir {
        Ok(false)
    } else if !exists {
        Ok(true)
    } else {
        Err(LaunchErr::InvalidDirectory)
    }
}

/// Decides what to do about the game directory.
pub fn check_game_directory(is_dir: bool, exists: bool) -> (plan: Result<bool, LaunchErr>)
    ensures
        plan == directory_plan(is_dir, exists),
{
    if is_dir {
        Ok(false)
    } else if !exists {
        Ok(true)
    } else {
        Err(LaunchErr::InvalidDirectory)
    }
}

/// The text that reports how the game ended.
pub open spec fn exit_text(name: Seq<char>, success: bool, code: Option<i32>) -> Seq<char> {
    if success {
        name + " exited successfully."@
    } else {
        name + " crashed with code "@ + match code {
            Some(c) => signed_digits(c as int),
            None => "None"@,
        }
    }
}

/// Reports how the game ended: the text, and whether it is good news.
pub fn exit_notification(name: &str, success: bool, code: Option<i32>) -> (report: (
    String,
    NotificationState,
))
    ensures
        report.0@ == exit_text(name@, success, code),
        report.1 == if success {
            NotificationState::Success
        } else {
            NotificationState::Error
        },
{
    if success {
        (concat2(name, " exited successfully."), NotificationState::Success)
    } else {
        let shown = match code {
            Some(c) => signed_decimal_string(c as i64),
            None => "None".to_owned(),
        };
        (concat3(name, " crashed with code ", shown.as_str()), NotificationState::Error)
    }
}

/// The steps of a launch that the user is told of, in their order.
#[derive(Debug, Clone, Copy, PartialEq, Eq, Structural)]
pub enum LaunchStage {
    Launching,
    PreparingAccount,
    VersionDetails,
    VersionManifest,
    ClientJar,
    LoaderManifest,
    PreparingLoader,
    PreparingGame,
}

/// The number of steps that the progress of a launch is measured against.
pub const LAUNCH_STEPS: u32 = 9;

/// The position of a stage in the progress of a launch.
pub open spec fn stage_number(stage: LaunchStage) -> u32 {
    match stage {
        LaunchStage::Launching => 1,
        LaunchStage::PreparingAccount => 2,
        LaunchStage::VersionDetails => 3,
        LaunchStage::VersionManifest => 4,
        LaunchStage::ClientJar => 5,
        LaunchStage::LoaderManifest => 6,
        LaunchStage::PreparingLoader => 7,
        LaunchStage::PreparingGame => 8,
    }
}

/// The text that announces a stage of the launch of the instance `name`
/// with the version `version`.
pub open spec fn stage_text(stage: LaunchStage, name: Seq<char>, version: Seq<char>) -> Seq<char> {
    match stage {
        LaunchStage::Launching => "Launching "@ + name + "..."@,
        LaunchStage::PreparingAccount => "Preparing account..."@,
        LaunchStage::VersionDetails => "Getting version details for "@ + version + "..."@,
        LaunchStage::VersionManifest => "Getting version manifest for "@ + version + "..."@,
        LaunchStage::ClientJar => "Pre-downloading client jar..."@,
        LaunchStage::LoaderManifest => "Getting the modloader manifest..."@,
        LaunchStage::PreparingLoader => "Preparing the modloader..."@,
        LaunchStage::PreparingGame => "Preparing the game..."@,
    }
}

impl LaunchStage {
    /// The position of the stage in the progress of a launch.
    pub fn number(&self) -> (n: u32)
        ensures
            n == stage_number(*self),
            1 <= n < LAUNCH_STEPS,
    {
        match self {
            LaunchStage::Launching => 1,
            LaunchStage::PreparingAccount => 2,
            LaunchStage::VersionDetails => 3,
            LaunchStage::VersionManifest => 4,
            LaunchStage::ClientJar => 5,
            LaunchStage::LoaderManifest => 6,
            LaunchStage::PreparingLoader => 7,
            LaunchStage::PreparingGame => 8,
        }
    }

    /// The stage that follows, if one does; its number is one more.
    pub fn next(&self) -> (following: Option<LaunchStage>)
        ensures
            match following {
                Some(stage) => stage_number(stage) == stage_number(*self) + 1,
                None => *self == LaunchStage::PreparingGame,
            },
    {
        match self {
            LaunchStage::Launching => Some(LaunchStage::PreparingAccount),
            LaunchStage::PreparingAccount => Some(LaunchStage::VersionDetails),
            LaunchStage::VersionDetails => Some(LaunchStage::VersionManifest),
            LaunchStage::VersionManifest => Some(LaunchStage::ClientJar),
            LaunchStage::ClientJar => Some(LaunchStage::LoaderManifest),
            LaunchStage::LoaderManifest => Some(LaunchStage::PreparingLoader),
            LaunchStage::PreparingLoader => Some(LaunchStage::PreparingGame),
            LaunchStage::PreparingGame => None,
        }
    }

    /// The text that announces the stage.
    pub fn text(&self, name: &str, version: &str) -> (text: String)
        ensures
            text@ == stage_text(*self, name@, version@),
    {
        match self {
            LaunchStage::Launching => concat3("Launching ", name, "..."),
            LaunchStage::PreparingAccount => "Preparing account...".to_owned(),
            LaunchStage::VersionDetails => concat3("Getting version details for ", version, "..."),
            LaunchStage::VersionManifest => concat3(
                "Getting version manifest for ",
                version,
                "...",
            ),
            LaunchStage::ClientJar => "Pre-downloading client jar...".to_owned(),
            LaunchStage::LoaderManifest => "Getting the modloader manifest...".to_owned(),
            LaunchStage::PreparingLoader => "Preparing the modloader...".to_owned(),
            LaunchStage::PreparingGame => "Preparing the game...".to_owned(),
        }
    }
}

} // verus!
