//! Instances of other launchers: what their files say, brought into one
//! shape.

use vstd::prelude::*;
use crate::notifier::random_u32;
use crate::text::{
    chars_of, concat2, decimal_digits, decimal_string, decimal_text, push_all, push_str,
    starts_with, str_eq, string_of,
};
use crate::utils::{join_path, path_join};

verus! {

/// The launcher that an instance was made by.
#[derive(Clone, Copy, Debug, PartialEq, Eq, Structural)]
pub enum InstanceType {
    CurseForge,
    MultiMC,
}

/// The kinds of loaders.
#[derive(Clone, Copy, Debug, PartialEq, Eq, Structural)]
pub enum ModLoaders {
    Vanilla,
    Forge,
    Fabric,
}

/// The loader of an instance.
#[derive(Debug)]
pub struct ModLoader {
    pub name: String,
    pub typ: ModLoaders,
    pub version: String,
}

/// An instance, whatever launcher made it. Times are milliseconds since the
/// Unix epoch, durations are seconds.
#[derive(Debug)]
pub struct SimpleInstance {
    pub name: String,
    pub icon_path: Option<String>,
    pub minecraft_path: String,
    pub instance_path: String,
    pub id: u32,
    pub mc_version: String,
    pub modloader: ModLoader,
    pub last_played: Option<i64>,
    pub last_played_for: Option<i64>,
    pub total_time_played: Option<i64>,
    pub play_count: Option<i32>,
    pub instance_type: InstanceType,
}

/// The settings file of a MultiMC instance.
#[derive(Debug)]
pub struct MMCConfig {
    pub name: String,
    pub last_played: Option<i64>,
    pub last_played_for: Option<i64>,
    pub total_time_played: Option<i64>,
    pub icon_key: Option<String>,
}

/// The component list of a MultiMC instance.
#[derive(Debug)]
pub struct MMCPack {
    pub components: Vec<MMCPackComponent>,
}

/// One component of a MultiMC instance.
#[derive(Debug)]
pub struct MMCPackComponent {
    pub cached_name: Option<String>,
    pub cached_version: Option<String>,
    pub dependency_only: Option<bool>,
    pub uid: String,
    pub version: Option<String>,
}

/// What this launcher keeps beside a MultiMC instance.
#[derive(Debug)]
pub struct MMCMetadata {
    pub instance_id: u32,
    pub play_count: Option<i32>,
}

/// The description of a CurseForge instance.
#[derive(Debug)]
pub struct CFInstance {
    pub last_played: String,
    pub name: String,
    pub game_version: String,
    pub played_count: i32,
    pub base_mod_loader: Option<CFBaseLoader>,
    pub installed_modpack: Option<CFInstalledPack>,
}

/// The loader of a CurseForge instance.
#[derive(Debug)]
pub struct CFBaseLoader {
    pub version: String,
    pub minecraft_version: String,
    pub name: String,
}

/// The pack that a CurseForge instance was made from.
#[derive(Debug)]
pub struct CFInstalledPack {
    pub thumbnail_url: Option<String>,
    pub addon_i_d: u64,
}

/// What this launcher keeps beside a CurseForge instance.
#[derive(Debug)]
pub struct CFMetadata {
    pub instance_id: u32,
    pub saved_icon: Option<String>,
    pub last_played_for: Option<i64>,
    pub total_time_played: Option<i64>,
}

/// Why an instance could not be read.
#[derive(Debug)]
pub enum InstanceGatherError {
    /// The instance at this path names no version of the game.
    MinecraftNotFound(String),
    /// This text is no time of the form `2024-01-31T12:00:00`.
    NaiveDateTimeParseFailed(String),
}

/// The loader that a component id of MultiMC stands for.
pub open spec fn loader_of_uid(uid: Seq<char>) -> Option<ModLoaders> {
    if uid == "net.minecraftforge"@ {
        Some(ModLoaders::Forge)
    } else if uid == "net.fabricmc.fabric-loader"@ {
        Some(ModLoaders::Fabric)
    } else {
        None
    }
}

/// The loader that a loader name of CurseForge stands for.
pub open spec fn loader_of_cf(name: Seq<char>) -> Option<ModLoaders> {
    if "forge"@.is_prefix_of(name) {
        Some(ModLoaders::Forge)
    } else if "fabric"@.is_prefix_of(name) {
        Some(ModLoaders::Fabric)
    } else {
        None
    }
}

/// The name of a kind of loader.
pub open spec fn loader_name(loader: ModLoaders) -> Seq<char> {
    match loader {
        ModLoaders::Vanilla => "Vanilla"@,
        ModLoaders::Forge => "Forge"@,
        ModLoaders::Fabric => "Fabric"@,
    }
}

impl ModLoaders {
    /// The loader that a component id of MultiMC stands for.
    pub fn from_uid(uid: &str) -> (loader: Option<ModLoaders>)
        ensures
            loader == loader_of_uid(uid@),
    {
        if str_eq(uid, "net.minecraftforge") {
            Some(ModLoaders::Forge)
        } else if str_eq(uid, "net.fabricmc.fabric-loader") {
            Some(ModLoaders::Fabric)
        } else {
            None
        }
    }

    /// The loader that a loader name of CurseForge stands for.
    pub fn from_cf(name: &str) -> (loader: Option<ModLoaders>)
        ensures
            loader == loader_of_cf(name@),
    {
        let chars = chars_of(name);
        let forge = chars_of("forge");
        let fabric = chars_of("fabric");
        if starts_with(chars.as_slice(), forge.as_slice()) {
            Some(ModLoaders::Forge)
        } else if starts_with(chars.as_slice(), fabric.as_slice()) {
            Some(ModLoaders::Fabric)
        } else {
            None
        }
    }

    /// The name of the loader.
    pub fn name(&self) -> (name: String)
        ensures
            name@ == loader_name(*self),
    {
        match self {
            ModLoaders::Vanilla => "Vanilla".to_owned(),
            ModLoaders::Forge => "Forge".to_owned(),
            ModLoaders::Fabric => "Fabric".to_owned(),
        }
    }
}

/// The instance comes before the other in the list: it was played later,
/// or it was played and the other never was.
pub open spec fn played_later(a: Option<i64>, b: Option<i64>) -> bool {
    match (a, b) {
        (Some(x), Some(y)) => x > y,
        (Some(_), None) => true,
        _ => false,
    }
}

/// Tells whether an instance last played at `a` comes before one last
/// played at `b`.
pub fn comes_before(a: Option<i64>, b: Option<i64>) -> (before: bool)
    ensures
        before == played_later(a, b),
{
    match (a, b) {
        (Some(x), Some(y)) => x > y,
        (Some(_), None) => true,
        _ => false,
    }
}

/// The text of a span of `minutes` whole minutes: its days, hours and
/// minutes, those that are not zero, and `< 1min` for less than a minute.
pub open spec fn duration_text(minutes: int) -> Seq<char> {
    if minutes <= 0 {
        "< 1min"@
    } else {
        let days = minutes / 1440;
        let hours = (minutes / 60) % 24;
        let mins = minutes % 60;
        let d = if days > 0 {
            decimal_digits(days as nat) + seq!['d']
        } else {
            Seq::empty()
        };
        let h = if hours > 0 {
            (if d.len() > 0 {
                seq![' ']
            } else {
                Seq::empty()
            }) + decimal_digits(hours as nat) + seq!['h']
        } else {
            Seq::empty()
        };
        let m = if mins > 0 {
            (if (d + h).len() > 0 {
                seq![' ']
            } else {
                Seq::empty()
            }) + decimal_digits(mins as nat) + "min"@
        } else {
            Seq::empty()
        };
        d + h + m
    }
}

/// Writes a span of whole minutes as text.
pub fn format_minutes(minutes: i64) -> (text: String)
    ensures
        text@ == duration_text(minutes as int),
{
    if minutes <= 0 {
        return "< 1min".to_owned();
    }
    let total: u64 = minutes as u64;
    let days: u64 = total / 1440;
    let hours: u64 = (total / 60) % 24;
    let mins: u64 = total % 60;
    let mut out: Vec<char> = Vec::new();
    if days > 0 {
        let digits = decimal_text(days);
        push_all(&mut out, digits.as_slice());
        out.push('d');
    }
    let ghost d = out@;
    if hours > 0 {
        if out.len() > 0 {
            out.push(' ');
        }
        let digits = decimal_text(hours);
        push_all(&mut out, digits.as_slice());
        out.push('h');
    }
    let ghost dh = out@;
    if mins > 0 {
        if out.len() > 0 {
            out.push(' ');
        }
        let digits = decimal_text(mins);
        push_all(&mut out, digits.as_slice());
        push_str(&mut out, "min");
    }
    proof {
        let days_text = if days > 0 {
            decimal_digits(days as nat) + seq!['d']
        } else {
            Seq::<char>::empty()
        };
        assert(d =~= days_text);
        let hours_text = if hours > 0 {
            (if d.len() > 0 {
                seq![' ']
            } else {
                Seq::<char>::empty()
            }) + decimal_digits(hours as nat) + seq!['h']
        } else {
            Seq::<char>::empty()
        };
        assert(dh =~= d + hours_text);
        let mins_text = if mins > 0 {
            (if dh.len() > 0 {
                seq![' ']
            } else {
                Seq::<char>::empty()
            }) + decimal_digits(mins as nat) + "min"@
        } else {
            Seq::<char>::empty()
        };
        assert(out@ =~= dh + mins_text);
    }
    string_of(out.as_slice())
}

/// The names of the stock icons of MultiMC.
pub open spec fn is_stock_icon(name: Seq<char>) -> bool {
    name == "bee"@ || name == "brick"@ || name == "chicken"@ || name == "creeper"@ || name
        == "diamond"@ || name == "dirt"@ || name == "enderman"@ || name == "enderpearl"@ || name
        == "flame"@ || name == "fox"@ || name == "gear"@ || name == "herobrine"@ || name
        == "gold"@ || name == "grass"@ || name == "iron"@ || name == "magitech"@ || name
        == "meat"@ || name == "modrinth"@ || name == "netherstar"@ || name == "planks"@ || name
        == "prismlauncher"@ || name == "squarecreeper"@ || name == "steve"@ || name == "stone"@
        || name == "tnt"@
}

/// The names of the icons that MultiMC brings itself; they are no files:
/// `default`, the stock icons, and the stock icons with `_legacy` behind.
pub open spec fn is_builtin_icon(key: Seq<char>) -> bool {
    key == "default"@ || is_stock_icon(key) || ("_legacy"@.is_suffix_of(key) && is_stock_icon(
        key.take(key.len() - "_legacy"@.len()),
    ))
}

/// The icon file of an instance: the file named by its icon key in the
/// icon directory, unless the key is absent, names a built-in icon, or no
/// icon directory is set.
pub open spec fn icon_of(icon_key: Option<String>, icon_dir: Option<Seq<char>>) -> Option<
    Seq<char>,
> {
    match (icon_key, icon_dir) {
        (Some(key), Some(dir)) => if is_builtin_icon(key@) {
            None
        } else {
            Some(join_path(dir, key@))
        },
        _ => None,
    }
}

fn stock_icon(name: &str) -> (stock: bool)
    ensures
        stock == is_stock_icon(name@),
{
    str_eq(name, "bee") || str_eq(name, "brick") || str_eq(name, "chicken") || str_eq(
        name,
        "creeper",
    ) || str_eq(name, "diamond") || str_eq(name, "dirt") || str_eq(name, "enderman") || str_eq(
        name,
        "enderpearl",
    ) || str_eq(name, "flame") || str_eq(name, "fox") || str_eq(name, "gear") || str_eq(
        name,
        "herobrine",
    ) || str_eq(name, "gold") || str_eq(name, "grass") || str_eq(name, "iron") || str_eq(
        name,
        "magitech",
    ) || str_eq(name, "meat") || str_eq(name, "modrinth") || str_eq(name, "netherstar")
        || str_eq(name, "planks") || str_eq(name, "prismlauncher") || str_eq(
        name,
        "squarecreeper",
    ) || str_eq(name, "steve") || str_eq(name, "stone") || str_eq(name, "tnt")
}

/// Tells whether an icon key names an icon that MultiMC brings itself.
pub fn builtin_icon(key: &str) -> (builtin: bool)
    ensures
        builtin == is_builtin_icon(key@),
{
    if str_eq(key, "default") || stock_icon(key) {
        return true;
    }
    let chars = chars_of(key);
    let suffix = chars_of("_legacy");
    if crate::text::ends_with(chars.as_slice(), suffix.as_slice()) {
        let stem = crate::text::slice_chars(chars.as_slice(), 0, chars.len() - suffix.len());
        let stem_text = string_of(stem.as_slice());
        stock_icon(stem_text.as_str())
    } else {
        false
    }
}

impl MMCConfig {
    /// The icon file of the instance in the icon directory, if it has one.
    pub fn get_icon(&self, icon_dir: Option<&str>) -> (icon: Option<String>)
        ensures
            icon.deep_view() == icon_of(
                self.icon_key,
                match icon_dir {
                    Some(dir) => Some(dir@),
                    None => None,
                },
            ),
    {
        match &self.icon_key {
            Some(key) => {
                if builtin_icon(key.as_str()) {
                    None
                } else {
                    match icon_dir {
                        Some(dir) => Some(path_join(dir, key.as_str())),
                        None => None,
                    }
                }
            },
            None => None,
        }
    }
}

/// The first component with the id `uid`.
pub open spec fn component_with_uid(components: Seq<MMCPackComponent>, uid: Seq<char>) -> Option<
    MMCPackComponent,
>
    decreases components.len(),
{
    if components.len() == 0 {
        None
    } else if components[0].uid@ == uid {
        Some(components[0])
    } else {
        component_with_uid(components.skip(1), uid)
    }
}

/// The first component that stands for a loader.
pub open spec fn loader_component(components: Seq<MMCPackComponent>) -> Option<MMCPackComponent>
    decreases components.len(),
{
    if components.len() == 0 {
        None
    } else if loader_of_uid(components[0].uid@) is Some {
        Some(components[0])
    } else {
        loader_component(components.skip(1))
    }
}

/// The version of the game that a component list names.
pub open spec fn game_version_of(components: Seq<MMCPackComponent>) -> Option<String> {
    match component_with_uid(components, "net.minecraft"@) {
        Some(component) => component.version,
        None => None,
    }
}

/// `loader` is the loader that a component list names: that of its first
/// loader component, under the component's cached name if it has one, and
/// the plain game where there is none.
pub open spec fn is_loader_of(components: Seq<MMCPackComponent>, loader: ModLoader) -> bool {
    match loader_component(components) {
        Some(component) => {
            &&& loader.typ == loader_of_uid(component.uid@)->0
            &&& loader.name@ == match component.cached_name {
                Some(name) => name@,
                None => loader_name(loader.typ),
            }
            &&& loader.version@ == match component.version {
                Some(version) => version@,
                None => "Unknown Version!"@,
            }
        },
        None => {
            &&& loader.typ == ModLoaders::Vanilla
            &&& loader.name@ == "Vanilla"@
            &&& loader.version@.len() == 0
        },
    }
}

/// Where a MultiMC instance keeps the game: in `.minecraft` where that
/// exists, else in `minecraft`.
pub open spec fn mmc_game_dir(path: Seq<char>, dot_minecraft_exists: bool) -> Seq<char> {
    if dot_minecraft_exists {
        join_path(path, ".minecraft"@)
    } else {
        join_path(path, "minecraft"@)
    }
}

impl MMCPack {
    /// The version of the game that the instance runs.
    pub fn game_version(&self) -> (version: Option<&String>)
        ensures
            match version {
                Some(found) => game_version_of(self.components@) == Some(*found),
                None => game_version_of(self.components@) is None,
            },
    {
        let mut i: usize = 0;
        assert(self.components@.skip(0) == self.components@);
        while i < self.components.len()
            invariant
                i <= self.components.len(),
                component_with_uid(self.components@, "net.minecraft"@) == component_with_uid(
                    self.components@.skip(i as int),
                    "net.minecraft"@,
                ),
            decreases self.components.len() - i,
        {
            if str_eq(self.components[i].uid.as_str(), "net.minecraft") {
                return self.components[i].version.as_ref();
            }
            assert(self.components@.skip(i as int).skip(1) == self.components@.skip(i + 1));
            i += 1;
        }
        None
    }

    /// The loader that the instance runs.
    pub fn loader(&self) -> (loader: ModLoader)
        ensures
            is_loader_of(self.components@, loader),
    {
        let mut i: usize = 0;
        assert(self.components@.skip(0) == self.components@);
        while i < self.components.len()
            invariant
                i <= self.components.len(),
                loader_component(self.components@) == loader_component(
                    self.components@.skip(i as int),
                ),
            decreases self.components.len() - i,
        {
            let component = &self.components[i];
            match ModLoaders::from_uid(component.uid.as_str()) {
                Some(typ) => {
                    let name = match &component.cached_name {
                        Some(name) => name.clone(),
                        None => typ.name(),
                    };
                    let version = match &component.version {
                        Some(version) => version.clone(),
                        None => "Unknown Version!".to_owned(),
                    };
                    return ModLoader { name, typ, version };
                },
                None => {},
            }
            assert(self.components@.skip(i as int).skip(1) == self.components@.skip(i + 1));
            i += 1;
        }
        ModLoader { name: "Vanilla".to_owned(), typ: ModLoaders::Vanilla, version: String::new() }
    }
}

/// `loader` is the loader that a CurseForge instance names: its base
/// loader where the name of that stands for a kind of loader, and the plain
/// game otherwise.
pub open spec fn is_cf_loader_of(base: Option<CFBaseLoader>, loader: ModLoader) -> bool {
    match base {
        Some(base) if loader_of_cf(base.name@) is Some => {
            &&& loader.typ == loader_of_cf(base.name@)->0
            &&& loader.name@ == loader_name(loader.typ)
            &&& loader.version == base.version
        },
        _ => {
            &&& loader.typ == ModLoaders::Vanilla
            &&& loader.name@ == "Vanilla"@
            &&& loader.version@.len() == 0
        },
    }
}

/// The time at which a CurseForge instance was last played, in
/// milliseconds: absent where the instance gives none, one within the first
/// ten seconds of the epoch, or one that does not fit.
pub open spec fn cf_last_played(seconds: Option<i64>) -> Option<i64> {
    match seconds {
        Some(secs) => if secs > 10 && secs * 1000 <= i64::MAX {
            Some((secs * 1000) as i64)
        } else {
            None
        },
        None => None,
    }
}

impl SimpleInstance {
    /// Brings a MultiMC instance at `path` into the common shape.
    /// `dot_minecraft_exists` tells whether the instance has a `.minecraft`
    /// directory, `icon_dir` names the icon directory if one is set. An
    /// instance that names no version of the game is refused.
    pub fn get_from_mmc(
        path: &str,
        meta: MMCMetadata,
        instance_cfg: MMCConfig,
        pack_json: &MMCPack,
        icon_dir: Option<&str>,
        dot_minecraft_exists: bool,
    ) -> (result: Result<SimpleInstance, InstanceGatherError>)
        ensures
            match result {
                Ok(instance) => {
                    &&& game_version_of(pack_json.components@) == Some(instance.mc_version)
                    &&& instance.instance_type == InstanceType::MultiMC
                    &&& instance.instance_path@ == path@
                    &&& instance.minecraft_path@ == mmc_game_dir(path@, dot_minecraft_exists)
                    &&& instance.id == meta.instance_id
                    &&& instance.play_count == meta.play_count
                    &&& instance.name == instance_cfg.name
                    &&& instance.icon_path.deep_view() == icon_of(
                        instance_cfg.icon_key,
                        match icon_dir {
                            Some(dir) => Some(dir@),
                            None => None,
                        },
                    )
                    &&& instance.last_played == instance_cfg.last_played
                    &&& instance.last_played_for == instance_cfg.last_played_for
                    &&& instance.total_time_played == instance_cfg.total_time_played
                    &&& is_loader_of(pack_json.components@, instance.modloader)
                },
                Err(InstanceGatherError::MinecraftNotFound(at)) => game_version_of(
                    pack_json.components@,
                ) is None && at@ == path@,
                Err(_) => false,
            },
    {
        let mc_version = match pack_json.game_version() {
            Some(version) => version.clone(),
            None => {
                return Err(InstanceGatherError::MinecraftNotFound(path.to_owned()));
            },
        };
        let icon_path = instance_cfg.get_icon(icon_dir);
        let minecraft_path = if dot_minecraft_exists {
            path_join(path, ".minecraft")
        } else {
            path_join(path, "minecraft")
        };
        Ok(
            SimpleInstance {
                instance_type: InstanceType::MultiMC,
                instance_path: path.to_owned(),
                id: meta.instance_id,
                play_count: meta.play_count,
                icon_path,
                name: instance_cfg.name,
                last_played: instance_cfg.last_played,
                last_played_for: instance_cfg.last_played_for,
                total_time_played: instance_cfg.total_time_played,
                minecraft_path,
                mc_version,
                modloader: pack_json.loader(),
            },
        )
    }

    /// Brings a CurseForge instance at `path` into the common shape.
    /// `last_played` is the time that the instance names, in seconds since
    /// the Unix epoch.
    pub fn from_cf_parts(
        path: &str,
        meta: CFMetadata,
        instance_json: CFInstance,
        last_played: Option<i64>,
    ) -> (instance: SimpleInstance)
        ensures
            instance.instance_type == InstanceType::CurseForge,
            instance.minecraft_path@ == path@,
            instance.instance_path@ == path@,
            instance.icon_path == meta.saved_icon,
            instance.id == meta.instance_id,
            instance.total_time_played == meta.total_time_played,
            instance.name == instance_json.name,
            instance.mc_version == instance_json.game_version,
            instance.play_count == Some(instance_json.played_count),
            instance.last_played == cf_last_played(last_played),
            instance.last_played_for is None,
            is_cf_loader_of(instance_json.base_mod_loader, instance.modloader),
    {
        let played = match last_played {
            Some(secs) => {
                if secs > 10 && secs <= i64::MAX / 1000 {
                    Some(secs * 1000)
                } else {
                    None
                }
            },
            None => None,
        };
        let modloader = match instance_json.base_mod_loader {
            Some(base) => match ModLoaders::from_cf(base.name.as_str()) {
                Some(typ) => ModLoader { name: typ.name(), typ, version: base.version },
                None => ModLoader {
                    name: "Vanilla".to_owned(),
                    typ: ModLoaders::Vanilla,
                    version: String::new(),
                },
            },
            None => ModLoader {
                name: "Vanilla".to_owned(),
                typ: ModLoaders::Vanilla,
                version: String::new(),
            },
        };
        SimpleInstance {
            instance_type: InstanceType::CurseForge,
            minecraft_path: path.to_owned(),
            instance_path: path.to_owned(),
            icon_path: meta.saved_icon,
            id: meta.instance_id,
            total_time_played: meta.total_time_played,
            name: instance_json.name,
            mc_version: instance_json.game_version,
            play_count: Some(instance_json.played_count),
            last_played: played,
            last_played_for: None,
            modloader,
        }
    }
}


/// The seconds since the Unix epoch that `chrono` reads off the beginning
/// of a text of the form `%Y-%m-%dT%H:%M:%S`, taken as a time in UTC; absent
/// where the text does not begin with such a time.
pub uninterp spec fn cf_time_seconds(text: Seq<char>) -> Option<i64>;

/// Calls `chrono::NaiveDateTime::parse_and_remainder` with the format
/// `%Y-%m-%dT%H:%M:%S` and gives the time it read as seconds since the
/// epoch in UTC. The result is a function of the text alone.
#[verifier::external_body]
fn parse_cf_time(text: &str) -> (seconds: Option<i64>)
    ensures
        seconds == cf_time_seconds(text@),
{
    match chrono::NaiveDateTime::parse_and_remainder(text, "%Y-%m-%dT%H:%M:%S") {
        Ok((time, _)) => Some(time.and_utc().timestamp()),
        Err(_) => None,
    }
}

/// `chrono::TimeDelta`, a span of time; nothing inside it is looked at.
#[verifier::external_type_specification]
#[verifier::external_body]
pub struct ExTimeDelta(chrono::TimeDelta);

/// Calls `chrono::TimeDelta::num_minutes`, the whole minutes of a span.
#[verifier::external_body]
fn whole_minutes(delta: &chrono::TimeDelta) -> i64 {
    delta.num_minutes()
}

/// Writes a span as text: its days, hours and minutes.
pub fn format_time_delta(delta: chrono::TimeDelta) -> (text: String)
    ensures
        exists|minutes: i64| text@ == duration_text(minutes as int),
{
    let minutes = whole_minutes(&delta);
    format_minutes(minutes)
}

impl SimpleInstance {
    /// Brings a CurseForge instance at `path` into the common shape. The
    /// instance is refused where the time at which it was last played
    /// cannot be read.
    pub fn get_from_cf(path: &str, meta: CFMetadata, instance_json: CFInstance) -> (result: Result<
        SimpleInstance,
        InstanceGatherError,
    >)
        ensures
            match result {
                Ok(instance) => {
                    &&& cf_time_seconds(instance_json.last_played@) is Some
                    &&& instance.instance_type == InstanceType::CurseForge
                    &&& instance.minecraft_path@ == path@
                    &&& instance.instance_path@ == path@
                    &&& instance.icon_path == meta.saved_icon
                    &&& instance.id == meta.instance_id
                    &&& instance.total_time_played == meta.total_time_played
                    &&& instance.name == instance_json.name
                    &&& instance.mc_version == instance_json.game_version
                    &&& instance.play_count == Some(instance_json.played_count)
                    &&& instance.last_played == cf_last_played(
                        cf_time_seconds(instance_json.last_played@),
                    )
                    &&& instance.last_played_for is None
                    &&& is_cf_loader_of(instance_json.base_mod_loader, instance.modloader)
                },
                Err(err) => cf_time_seconds(instance_json.last_played@) is None && err
                    == InstanceGatherError::NaiveDateTimeParseFailed(instance_json.last_played),
            },
    {
        match parse_cf_time(instance_json.last_played.as_str()) {
            Some(seconds) => Ok(Self::from_cf_parts(path, meta, instance_json, Some(seconds))),
            None => Err(InstanceGatherError::NaiveDateTimeParseFailed(instance_json.last_played)),
        }
    }
}

/// Where the icon of a pack comes from.
#[derive(Debug)]
pub enum IconSource {
    /// The pack names the address of its thumbnail.
    Thumbnail(String),
    /// The address has to be asked for at this address of the project
    /// service.
    Project(String),
}

/// The address at which the project service describes the project `id`.
pub open spec fn project_url(id: u64) -> Seq<char> {
    "https://curserinth-api.kuylar.dev/v2/project/"@ + decimal_digits(id as nat)
}

impl CFInstalledPack {
    /// Tells where the icon of the pack comes from.
    pub fn icon_source(&self) -> (source: IconSource)
        ensures
            match source {
                IconSource::Thumbnail(url) => self.thumbnail_url == Some(url),
                IconSource::Project(url) => self.thumbnail_url is None && url@ == project_url(
                    self.addon_i_d,
                ),
            },
    {
        match &self.thumbnail_url {
            Some(url) => IconSource::Thumbnail(url.clone()),
            None => {
                let id = decimal_string(self.addon_i_d);
                IconSource::Project(
                    concat2("https://curserinth-api.kuylar.dev/v2/project/", id.as_str()),
                )
            },
        }
    }
}

/// The name of the icon file with the number `number` in the icon directory.
pub fn cf_icon_file(icon_dir: &str, number: u32) -> (file: String)
    ensures
        file@ == join_path(icon_dir@, "curseforge_"@ + decimal_digits(number as nat)),
{
    let digits = decimal_string(number as u64);
    let name = concat2("curseforge_", digits.as_str());
    path_join(icon_dir, name.as_str())
}

impl CFMetadata {
    /// Tells whether what is kept beside the instance has to be made anew:
    /// it names an icon file, and that file is gone.
    pub fn needs_regeneration(&self, icon_exists: bool) -> (needed: bool)
        ensures
            needed == (self.saved_icon is Some && !icon_exists),
    {
        self.saved_icon.is_some() && !icon_exists
    }

    /// Makes what is kept beside a new instance: a number of its own, the
    /// icon that was saved for it, and no play times yet.
    pub fn generate(saved_icon: Option<String>) -> (meta: Self)
        ensures
            meta.saved_icon == saved_icon,
            meta.last_played_for is None,
            meta.total_time_played is None,
    {
        CFMetadata {
            instance_id: random_u32(),
            last_played_for: None,
            total_time_played: None,
            saved_icon,
        }
    }
}

impl MMCMetadata {
    /// Makes what is kept beside a new instance: a number of its own and
    /// no play count yet.
    pub fn generate() -> (meta: Self)
        ensures
            meta.play_count is None,
    {
        MMCMetadata { instance_id: random_u32(), play_count: None }
    }
}

} // verus!
