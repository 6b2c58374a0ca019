//! The Java runtimes that the user has configured, and which of them runs
//! a given version.

use vstd::prelude::*;
use crate::mc_structs::MCVersionDetails;
use crate::text::{
    chars_of, decimal_digits, push_all, push_str, replace_all, split_whitespace,
    split_words, string_of,
};

verus! {

/// One configured Java runtime.
#[derive(Debug)]
pub struct JavaDetails {
    pub path: String,
    pub label: String,
    pub version: String,
    pub minecraft_versions: JavaMCRange,
    pub xmx: u32,
    pub xms: u32,
    pub args: String,
}

/// The versions that a Java runtime is used for: those released between
/// the two ends, both included.
#[derive(Debug)]
pub struct JavaMCRange {
    pub min: Option<MCVersionDetails>,
    pub max: Option<MCVersionDetails>,
}

/// The memory flags and the user's own arguments of a runtime.
pub open spec fn java_args_text(xmx: u32, xms: u32, args: Seq<char>) -> Seq<char> {
    "-Xmx"@ + decimal_digits(xmx as nat) + "M -Xms"@ + decimal_digits(xms as nat) + "M "@ + args
}

/// A version released at `release_time` lies in the range: both ends are
/// set and it is neither older than the one nor newer than the other.
pub open spec fn range_holds(range: JavaMCRange, release_time: i64) -> bool {
    &&& range.max is Some
    &&& range.max->0.release_time >= release_time
    &&& range.min is Some
    &&& range.min->0.release_time <= release_time
}

/// `index` is the first runtime whose range holds `release_time`.
pub open spec fn is_first_fitting(runtimes: Seq<JavaDetails>, release_time: i64, index: int) -> bool {
    &&& 0 <= index < runtimes.len()
    &&& range_holds(runtimes[index].minecraft_versions, release_time)
    &&& forall|j: int|
        0 <= j < index ==> !range_holds((#[trigger] runtimes[j]).minecraft_versions, release_time)
}

/// What the output of `java -version` names as the version: its third
/// word, quotation marks left out.
pub open spec fn version_word(output: Seq<char>) -> Seq<char> {
    let words = split_words(replace_all(output, seq!['"'], Seq::empty()));
    if words.len() > 2 {
        words[2]
    } else {
        "Could not detect"@
    }
}

impl JavaMCRange {
    /// Tells whether a version released at `release_time` lies in the range.
    pub fn holds(&self, release_time: i64) -> (holds: bool)
        ensures
            holds == range_holds(*self, release_time),
    {
        let below = match &self.max {
            Some(max) => max.release_time >= release_time,
            None => false,
        };
        let above = match &self.min {
            Some(min) => min.release_time <= release_time,
            None => false,
        };
        below && above
    }
}

impl JavaDetails {
    /// The arguments that the runtime is started with before those of the
    /// manifest: the memory limits in megabytes, then the user's own.
    pub fn get_args(&self) -> (args: String)
        ensures
            args@ == java_args_text(self.xmx, self.xms, self.args@),
    {
        let mut out: Vec<char> = Vec::new();
        push_str(&mut out, "-Xmx");
        let xmx = crate::text::decimal_text(self.xmx as u64);
        push_all(&mut out, xmx.as_slice());
        push_str(&mut out, "M -Xms");
        let xms = crate::text::decimal_text(self.xms as u64);
        push_all(&mut out, xms.as_slice());
        push_str(&mut out, "M ");
        push_str(&mut out, self.args.as_str());
        assert(Seq::<char>::empty() + "-Xmx"@ == "-Xmx"@);
        string_of(out.as_slice())
    }
}

impl Default for JavaDetails {
    /// A runtime that is not filled in yet, with the usual memory limits.
    fn default() -> (details: Self)
        ensures
            details.path@.len() == 0,
            details.label@.len() == 0,
            details.version@.len() == 0,
            details.minecraft_versions.min is None,
            details.minecraft_versions.max is None,
            details.xmx == 4096,
            details.xms == 2048,
            details.args@.len() == 0,
    {
        JavaDetails {
            path: String::new(),
            label: String::new(),
            version: String::new(),
            minecraft_versions: JavaMCRange { min: None, max: None },
            xmx: 4096,
            xms: 2048,
            args: String::new(),
        }
    }
}

/// Picks the runtime for a version released at `release_time`: the first
/// whose range holds it.
pub fn get_java(java_settings: &Vec<JavaDetails>, release_time: i64) -> (found: Option<usize>)
    ensures
        match found {
            Some(index) => is_first_fitting(java_settings@, release_time, index as int),
            None => forall|j: int|
                0 <= j < java_settings.len() ==> !range_holds(
                    (#[trigger] java_settings@[j]).minecraft_versions,
                    release_time,
                ),
        },
{
    let mut i: usize = 0;
    while i < java_settings.len()
        invariant
            i <= java_settings.len(),
            forall|j: int|
                0 <= j < i ==> !range_holds(
                    (#[trigger] java_settings@[j]).minecraft_versions,
                    release_time,
                ),
        decreases java_settings.len() - i,
    {
        if java_settings[i].minecraft_versions.holds(release_time) {
            return Some(i);
        }
        i += 1;
    }
    None
}

/// Judges a run of `java -version`: `ran` is absent where the command could
/// not be run, else it tells whether it ended well and what it wrote to its
/// error stream. That output is the answer, as `Ok` after a good end.
pub fn get_java_version(ran: Option<(bool, String)>) -> (result: Result<String, String>)
    ensures
        match ran {
            None => result is Err
                && result->Err_0@ == "Executing Java Command failed! Is the java path correct?"@,
            Some((true, output)) => result == Ok::<String, String>(output),
            Some((false, output)) => result == Err::<String, String>(output),
        },
{
    match ran {
        None => Err("Executing Java Command failed! Is the java path correct?".to_owned()),
        Some((success, output)) => {
            if success {
                Ok(output)
            } else {
                Err(output)
            }
        },
    }
}

/// Reads the version off the output of `java -version`.
pub fn detect_java_version(output: &str) -> (version: String)
    ensures
        version@ == version_word(output@),
{
    let quote: Vec<char> = vec!['"'];
    let nothing: Vec<char> = Vec::new();
    let text = chars_of(output);
    assert(quote@ =~= seq!['"']);
    let plain = crate::text::replace(text.as_slice(), quote.as_slice(), nothing.as_slice());
    let plain_text = string_of(plain.as_slice());
    let words = split_whitespace(plain_text.as_str());
    if words.len() > 2 {
        assert(words.deep_view()[2] == words[2]@);
        words[2].clone()
    } else {
        "Could not detect".to_owned()
    }
}

} // verus!
