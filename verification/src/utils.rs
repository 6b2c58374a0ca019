//! Helpers shared by the components: cutting a queue into shards, and the
//! layout of the local store.

use vstd::prelude::*;
use crate::platform::{classpath_separator, classpath_separator_char, Os};
use crate::download::{sha1_hex, sha1_hex_digest};
use crate::text::{after_first, find_line, first_line_with, split_after, str_eq, trim, trimmed};
use crate::text::{
    chars_of, find_char, first_index, push_all, push_str, replace_char,
    replace_chars, slice_chars, string_of,
};

verus! {

/// Where shard `i` begins when `len` items are cut into `count` contiguous
/// shards whose lengths differ by at most one, the longer ones first.
pub open spec fn shard_start(len: int, count: int, i: int) -> int {
    i * (len / count) + if i < len % count {
        i
    } else {
        len % count
    }
}

/// `shards` cuts `items` into contiguous pieces at the balanced boundaries.
pub open spec fn is_balanced_split<T>(shards: Seq<Seq<T>>, items: Seq<T>) -> bool {
    forall|i: int|
        0 <= i < shards.len() ==> #[trigger] shards[i] == items.subrange(
            shard_start(items.len() as int, shards.len() as int, i),
            shard_start(items.len() as int, shards.len() as int, i + 1),
        )
}

/// The contents of each shard.
pub open spec fn shard_views<T>(shards: Seq<Vec<T>>) -> Seq<Seq<T>> {
    shards.map_values(|shard: Vec<T>| shard@)
}

/// The balanced boundaries start at 0, end at `len`, never go back, and
/// leave each shard `len / count` items or one more.
pub proof fn lemma_shard_bounds(len: int, count: int, i: int)
    requires
        len >= 0,
        count > 0,
        0 <= i < count,
    ensures
        shard_start(len, count, 0) == 0,
        shard_start(len, count, count) == len,
        0 <= shard_start(len, count, i) <= shard_start(len, count, i + 1) <= len,
        shard_start(len, count, i + 1) - shard_start(len, count, i) == len / count + if i < len
            % count {
            1int
        } else {
            0int
        },
{
    let base = len / count;
    let extra = len % count;
    vstd::arithmetic::div_mod::lemma_fundamental_div_mod(len, count);
    assert(0 <= extra < count);
    assert(base >= 0) by (nonlinear_arith)
        requires
            len >= 0,
            count > 0,
            base == len / count,
    ;
    assert((i + 1) * base == i * base + base) by (nonlinear_arith);
    assert(0 * base == 0) by (nonlinear_arith);
    assert(count * base == base * count) by (nonlinear_arith);
    assert(0 <= i * base) by (nonlinear_arith)
        requires
            0 <= i,
            0 <= base,
    ;
    assert((i + 1) * base <= count * base) by (nonlinear_arith)
        requires
            i + 1 <= count,
            0 <= base,
    ;
}

proof fn lemma_split_prefix<T>(shards: Seq<Seq<T>>, items: Seq<T>, k: int)
    requires
        is_balanced_split(shards, items),
        0 <= k <= shards.len(),
        shards.len() > 0,
    ensures
        shards.take(k).flatten() == items.take(
            shard_start(items.len() as int, shards.len() as int, k),
        ),
        0 <= shard_start(items.len() as int, shards.len() as int, k) <= items.len(),
    decreases k,
{
    let len = items.len() as int;
    let count = shards.len() as int;
    if k == 0 {
        lemma_shard_bounds(len, count, 0);
        assert(shards.take(0).flatten() =~= Seq::<T>::empty());
        assert(items.take(0) =~= Seq::<T>::empty());
    } else {
        lemma_split_prefix(shards, items, k - 1);
        lemma_shard_bounds(len, count, k - 1);
        assert(shards.take(k) == shards.take(k - 1).push(shards[k - 1]));
        shards.take(k - 1).lemma_flatten_push(shards[k - 1]);
        assert(items.take(shard_start(len, count, k - 1)) + items.subrange(
            shard_start(len, count, k - 1),
            shard_start(len, count, k),
        ) =~= items.take(shard_start(len, count, k)));
    }
}

/// Cutting a list into `n > 0` shards gives shards that, put one after the
/// other, are the list again, and whose lengths differ by at most one.
pub proof fn lemma_split_is_balanced_partition<T>(
    shards: Seq<Seq<T>>,
    items: Seq<T>,
    i: int,
    j: int,
)
    requires
        is_balanced_split(shards, items),
        0 <= i < shards.len(),
        0 <= j < shards.len(),
    ensures
        shards.flatten() == items,
        shards[i].len() <= shards[j].len() + 1,
{
    let len = items.len() as int;
    let count = shards.len() as int;
    lemma_split_prefix(shards, items, count);
    lemma_shard_bounds(len, count, i);
    lemma_shard_bounds(len, count, j);
    assert(shards.take(count) == shards);
    assert(items.take(len) == items);
}

/// Cuts `vec` into `output_count` contiguous shards, in order, whose
/// lengths differ by at most one. With no shard to fill, the items are
/// dropped.
pub fn split_vec_into<T>(vec: Vec<T>, output_count: usize) -> (shards: Vec<Vec<T>>)
    ensures
        shards.len() == output_count,
        is_balanced_split(shard_views(shards@), vec@),
{
    let mut result: Vec<Vec<T>> = Vec::new();
    if output_count == 0 {
        return result;
    }
    let len: usize = vec.len();
    let base: usize = len / output_count;
    let extra: usize = len % output_count;
    let mut rest = vec;
    let mut i: usize = 0;
    proof {
        lemma_shard_bounds(len as int, output_count as int, 0);
        assert(vec@.skip(0) == vec@);
    }
    while i < output_count
        invariant
            i <= output_count,
            len == vec.len(),
            base == len / output_count,
            extra == len % output_count,
            result.len() == i,
            0 <= shard_start(len as int, output_count as int, i as int) <= len,
            rest@ == vec@.skip(shard_start(len as int, output_count as int, i as int)),
            forall|k: int|
                0 <= k < i ==> (#[trigger] result[k])@ == vec@.subrange(
                    shard_start(len as int, output_count as int, k),
                    shard_start(len as int, output_count as int, k + 1),
                ),
        decreases output_count - i,
    {
        proof {
            lemma_shard_bounds(len as int, output_count as int, i as int);
        }
        let size: usize = if i < extra {
            base + 1
        } else {
            base
        };
        let ghost start = shard_start(len as int, output_count as int, i as int);
        let after = rest.split_off(size);
        assert(rest@ == vec@.subrange(start, start + size));
        assert(after@ == vec@.skip(start + size));
        result.push(rest);
        rest = after;
        i += 1;
    }
    assert forall|k: int| 0 <= k < shard_views(result@).len() implies #[trigger] shard_views(
        result@,
    )[k] == vec@.subrange(
        shard_start(vec@.len() as int, shard_views(result@).len() as int, k),
        shard_start(vec@.len() as int, shard_views(result@).len() as int, k + 1),
    ) by {
        assert(shard_views(result@)[k] == result[k]@);
    }
    result
}


/// The part of a maven coordinate before its `@`, or all of it.
pub open spec fn coordinate_body(id: Seq<char>) -> Seq<char> {
    id.take(first_index(id, '@'))
}

/// The file extension that a maven coordinate names after its `@`; `jar`
/// where it names none.
pub open spec fn coordinate_extension(id: Seq<char>) -> Seq<char> {
    if first_index(id, '@') < id.len() {
        id.skip(first_index(id, '@') + 1)
    } else {
        "jar"@
    }
}

/// What follows the first `:` of `s`.
pub open spec fn after_colon(s: Seq<char>) -> Seq<char> {
    s.skip(first_index(s, ':') + 1)
}

/// What stands before the first `:` of `s`, or all of it.
pub open spec fn before_colon(s: Seq<char>) -> Seq<char> {
    s.take(first_index(s, ':'))
}

/// `id` has the form `group:artifact:version[:classifier][@ext]`: two
/// colons at least stand before its `@`.
pub open spec fn is_maven_identifier(id: Seq<char>) -> bool {
    let body = coordinate_body(id);
    first_index(body, ':') < body.len() && first_index(after_colon(body), ':') < after_colon(
        body,
    ).len()
}

/// The repository-relative path of a maven coordinate:
/// `group/as/dirs/artifact/version/artifact-version[-classifier].ext`.
pub open spec fn maven_path(id: Seq<char>) -> Seq<char> {
    let body = coordinate_body(id);
    let group = before_colon(body);
    let name = before_colon(after_colon(body));
    let version = after_colon(after_colon(body));
    replace_char(group, '.', '/') + seq!['/'] + name + seq!['/'] + before_colon(version) + seq![
        '/',
    ] + name + seq!['-'] + replace_char(version, ':', '-') + seq!['.'] + coordinate_extension(id)
}

/// Tells whether `identifier` is a maven coordinate that
/// [`maven_identifier_to_path`] maps to a path.
pub fn is_maven_coordinate(identifier: &str) -> (valid: bool)
    ensures
        valid == is_maven_identifier(identifier@),
{
    let id = chars_of(identifier);
    let at = find_char(id.as_slice(), '@');
    let body = slice_chars(id.as_slice(), 0, at);
    let c1 = find_char(body.as_slice(), ':');
    if c1 >= body.len() {
        return false;
    }
    let rest = slice_chars(body.as_slice(), c1 + 1, body.len());
    let c2 = find_char(rest.as_slice(), ':');
    c2 < rest.len()
}

/// Maps a maven coordinate to the path of its file below a repository root.
pub fn maven_identifier_to_path(identifier: &str) -> (path: String)
    requires
        is_maven_identifier(identifier@),
    ensures
        path@ == maven_path(identifier@),
{
    let id = chars_of(identifier);
    let at = find_char(id.as_slice(), '@');
    let body = slice_chars(id.as_slice(), 0, at);
    let c1 = find_char(body.as_slice(), ':');
    let group = slice_chars(body.as_slice(), 0, c1);
    let rest = slice_chars(body.as_slice(), c1 + 1, body.len());
    let c2 = find_char(rest.as_slice(), ':');
    let name = slice_chars(rest.as_slice(), 0, c2);
    let version = slice_chars(rest.as_slice(), c2 + 1, rest.len());
    let c3 = find_char(version.as_slice(), ':');
    let version_dir = slice_chars(version.as_slice(), 0, c3);

    let mut out = replace_chars(group.as_slice(), '.', '/');
    out.push('/');
    push_all(&mut out, name.as_slice());
    out.push('/');
    push_all(&mut out, version_dir.as_slice());
    out.push('/');
    push_all(&mut out, name.as_slice());
    out.push('-');
    let dashed = replace_chars(version.as_slice(), ':', '-');
    push_all(&mut out, dashed.as_slice());
    out.push('.');
    if at < id.len() {
        let ext = slice_chars(id.as_slice(), at + 1, id.len());
        push_all(&mut out, ext.as_slice());
    } else {
        push_str(&mut out, "jar");
    }
    string_of(out.as_slice())
}

/// `rel` below the directory `base`: an absolute `rel` stands for itself,
/// otherwise one `/` separates the two.
pub open spec fn join_path(base: Seq<char>, rel: Seq<char>) -> Seq<char> {
    if rel.len() > 0 && rel[0] == '/' {
        rel
    } else if base.len() == 0 || base.last() == '/' {
        base + rel
    } else {
        base + seq!['/'] + rel
    }
}

/// Joins a directory and a path below it.
pub fn path_join(base: &str, rel: &str) -> (path: String)
    ensures
        path@ == join_path(base@, rel@),
{
    let b = chars_of(base);
    let r = chars_of(rel);
    if r.len() > 0 && r[0] == '/' {
        return string_of(r.as_slice());
    }
    let mut out: Vec<char> = Vec::new();
    push_all(&mut out, b.as_slice());
    assert(out@ == b@);
    if b.len() > 0 && b[b.len() - 1] != '/' {
        out.push('/');
    }
    push_all(&mut out, r.as_slice());
    string_of(out.as_slice())
}


/// The string that separates class path entries on `os`.
pub fn get_classpath_separator(os: Os) -> (separator: String)
    ensures
        separator@ == seq![classpath_separator_char(os)],
{
    let mut separator = String::new();
    separator.push(classpath_separator(os));
    separator
}

/// The launcher's configuration directory below the system's.
pub fn get_config_dir(system_config_dir: &str) -> (dir: String)
    ensures
        dir@ == join_path(system_config_dir@, "yetalauncher"@),
{
    path_join(system_config_dir, "yetalauncher")
}

/// The launcher's data directory below the system's.
pub fn get_data_dir(system_data_dir: &str) -> (dir: String)
    ensures
        dir@ == join_path(system_data_dir@, "yetalauncher"@),
{
    path_join(system_data_dir, "yetalauncher")
}

/// Where client jars are kept, one for each runtime version.
pub fn get_client_jar_dir(data_dir: &str) -> (dir: String)
    ensures
        dir@ == join_path(data_dir@, "client_jars"@),
{
    path_join(data_dir, "client_jars")
}

/// The root of the local library store.
pub fn get_library_dir(data_dir: &str) -> (dir: String)
    ensures
        dir@ == join_path(data_dir@, "libraries"@),
{
    path_join(data_dir, "libraries")
}

/// The root of the local asset store.
pub fn get_assets_dir(data_dir: &str) -> (dir: String)
    ensures
        dir@ == join_path(data_dir@, "assets"@),
{
    path_join(data_dir, "assets")
}

/// Where logging configurations are kept.
pub fn get_log4j_dir(data_dir: &str) -> (dir: String)
    ensures
        dir@ == join_path(data_dir@, "log4j_configs"@),
{
    path_join(data_dir, "log4j_configs")
}

/// Where installers and what was extracted from them are kept.
pub fn get_forge_cache_dir(data_dir: &str) -> (dir: String)
    ensures
        dir@ == join_path(data_dir@, "forge_cache"@),
{
    path_join(data_dir, "forge_cache")
}

/// The name that identifies a pair of runtime and loader version.
pub open spec fn forge_pair_name(mc_ver: Seq<char>, forge_ver: Seq<char>) -> Seq<char> {
    "forge-"@ + mc_ver + seq!['-'] + forge_ver
}

/// Builds the name of a pair of runtime and loader version.
pub fn forge_pair(mc_ver: &str, forge_ver: &str) -> (name: String)
    ensures
        name@ == forge_pair_name(mc_ver@, forge_ver@),
{
    let mut out: Vec<char> = Vec::new();
    push_str(&mut out, "forge-");
    push_str(&mut out, mc_ver);
    out.push('-');
    push_str(&mut out, forge_ver);
    assert(Seq::<char>::empty() + "forge-"@ == "forge-"@);
    string_of(out.as_slice())
}

/// The private extraction directory of one pair of runtime and loader
/// version.
pub fn get_installer_extracts_dir(data_dir: &str, mc_ver: &str, forge_ver: &str) -> (dir: String)
    ensures
        dir@ == join_path(
            join_path(data_dir@, "forge_cache"@),
            forge_pair_name(mc_ver@, forge_ver@),
        ),
{
    let cache = get_forge_cache_dir(data_dir);
    let name = forge_pair(mc_ver, forge_ver);
    path_join(cache.as_str(), name.as_str())
}


/// A file that is fetched from `url` unless it is at `path` with the
/// expected digest.
#[derive(Debug)]
pub struct CheckedFile {
    pub path: String,
    pub url: String,
    pub checksum: Option<String>,
}

/// A file has to be fetched where it is not there as a regular file, or
/// where a digest is expected and `digest`, that of its contents, is
/// another or could not be had.
pub open spec fn file_is_stale(
    is_file: bool,
    checksum: Option<Seq<char>>,
    digest: Option<Seq<char>>,
) -> bool {
    !is_file || match checksum {
        Some(expected) => digest != Some(expected),
        None => false,
    }
}

/// Decides from an already computed digest whether a file has to be fetched.
pub fn stale_given_digest(checksum: Option<&str>, is_file: bool, digest: Option<&str>) -> (fetch:
    bool)
    ensures
        fetch == file_is_stale(
            is_file,
            match checksum {
                Some(expected) => Some(expected@),
                None => None,
            },
            match digest {
                Some(d) => Some(d@),
                None => None,
            },
        ),
{
    if !is_file {
        return true;
    }
    match checksum {
        Some(expected) => match digest {
            Some(d) => !str_eq(d, expected),
            None => true,
        },
        None => false,
    }
}

/// Decides whether a file has to be fetched: it is kept where it is a
/// regular file and, if a checksum is given, its contents have that SHA-1
/// digest. `contents` is what was read from it, `None` where nothing could
/// be read.
pub fn download_file_checked(checksum: Option<&str>, is_file: bool, contents: Option<&[u8]>) -> (fetch:
    bool)
    ensures
        fetch == file_is_stale(
            is_file,
            match checksum {
                Some(expected) => Some(expected@),
                None => None,
            },
            match contents {
                Some(bytes) => Some(sha1_hex(bytes@)),
                None => None,
            },
        ),
{
    if !is_file {
        return true;
    }
    if checksum.is_none() {
        return false;
    }
    match contents {
        Some(bytes) => {
            let hex = sha1_hex_digest(bytes);
            stale_given_digest(checksum, is_file, Some(hex.as_str()))
        },
        None => true,
    }
}


/// The main class that the text of a jar's manifest names: what follows
/// the first `: ` on the first line that begins with `Main-Class:`, without
/// white space around it.
pub open spec fn main_class_of(manifest: Seq<char>) -> Option<Seq<char>> {
    match first_line_with(manifest, "Main-Class:"@) {
        Some(line) => match after_first(line, ": "@) {
            Some(value) => Some(trimmed(value)),
            None => None,
        },
        None => None,
    }
}

/// Reads the main class off the text of a jar's manifest; `None` where it
/// names none.
pub fn get_jar_main_class(manifest: &str) -> (main_class: Option<String>)
    ensures
        main_class.deep_view() == main_class_of(manifest@),
{
    let text = chars_of(manifest);
    let prefix = chars_of("Main-Class:");
    match find_line(text.as_slice(), prefix.as_slice()) {
        Some(line) => {
            let separator = chars_of(": ");
            match split_after(line.as_slice(), separator.as_slice()) {
                Some(value) => {
                    let class = trim(value.as_slice());
                    Some(string_of(class.as_slice()))
                },
                None => None,
            }
        },
        None => None,
    }
}

} // verus!
