use yetalauncher::accounts::{
    bearer, entitlements_request_url, eq_ignore_ascii_case, get_entitlements_url, get_login_url,
    get_mc_profile_url, get_mc_url, get_msa_url, get_redirect_uri, get_xbl_url, get_xsts_url,
    has_mc_ownership, new_entitlements_request_url, token_expiry, Accounts, MCAccount, MCProfile,
    MCResponse2, MSAResponse2, RefreshPlan, XBLDisplayClaims, XBLResponse,
};
use yetalauncher::consts::{ACCOUNT_FILE_NAME, META_FILE_NAME, REDIRECT_PORT, SETTINGS_FILE_NAME};
use yetalauncher::instances::{
    builtin_icon, cf_icon_file, comes_before, format_minutes, format_time_delta, CFBaseLoader,
    CFInstalledPack, CFInstance, CFMetadata, IconSource, InstanceGatherError, InstanceType,
    MMCConfig, MMCMetadata, MMCPack, MMCPackComponent, ModLoaders, SimpleInstance,
};
use yetalauncher::notifier::{
    InternalNotif, InternalNotifType, InternalNotifier, Notif, NotificationState, Notifier,
};
use yetalauncher::platform::{classpath_separator, Os};
use yetalauncher::settings::{accounts_path, AppSettings};
use yetalauncher::ui::{ButtonTheme, Pages, SidebarMessage};
use yetalauncher::utils::{
    get_assets_dir, get_classpath_separator, get_client_jar_dir, get_config_dir, get_data_dir,
    get_forge_cache_dir, get_installer_extracts_dir, get_library_dir, get_log4j_dir,
};

fn s(text: &str) -> String {
    text.to_string()
}

fn account(id: &str, msa: i64, xbl: i64, xsts: i64, mc: i64) -> MCAccount {
    let token = |not_after: i64| XBLResponse { issue_instant: 0, not_after, token: s("t"), display_claims: XBLDisplayClaims { xui: Vec::new() } };
    MCAccount {
        msa_response: MSAResponse2 { token_type: s("b"), expires_at: msa, scope: s("sc"), access_token: s("a"), refresh_token: s("r"), user_id: s("u") },
        xbl_response: token(xbl),
        xsts_response: token(xsts),
        mc_response: MCResponse2 { username: s("u"), access_token: s("m"), expires_at: mc, token_type: s("B") },
        mc_profile: MCProfile { id: s(id), name: format!("name-{id}"), skins: Vec::new(), capes: Vec::new() },
    }
}

#[test]
fn store_layout() {
    assert_eq!(get_data_dir("/home/u/.local/share"), "/home/u/.local/share/yetalauncher");
    assert_eq!(get_config_dir("/home/u/.config"), "/home/u/.config/yetalauncher");
    assert_eq!(get_client_jar_dir("/d"), "/d/client_jars");
    assert_eq!(get_library_dir("/d"), "/d/libraries");
    assert_eq!(get_assets_dir("/d"), "/d/assets");
    assert_eq!(get_log4j_dir("/d"), "/d/log4j_configs");
    assert_eq!(get_forge_cache_dir("/d"), "/d/forge_cache");
    assert_eq!(get_installer_extracts_dir("/d", "1.20.1", "47.2.0"), "/d/forge_cache/forge-1.20.1-47.2.0");
    assert_eq!(AppSettings::get_path("/c"), "/c/settings.json");
    assert_eq!(accounts_path("/c"), "/c/accounts.json");
    assert_eq!((SETTINGS_FILE_NAME, ACCOUNT_FILE_NAME, META_FILE_NAME), ("settings.json", "accounts.json", "yamcl-data.json"));
}

#[test]
fn class_path_separator_depends_on_the_system() {
    assert_eq!(get_classpath_separator(Os::Windows), ";");
    assert_eq!(get_classpath_separator(Os::Linux), ":");
    assert_eq!(get_classpath_separator(Os::MacOs), ":");
    assert_eq!(classpath_separator(Os::Other), ':');
}

#[test]
fn notifier_events_carry_the_progress() {
    let mut notifier = Notifier { id: 7, progress: None };
    let plain = notifier.send_msg("hello");
    assert_eq!((plain.id, plain.typ), (7, InternalNotifType::Schedule));
    assert_eq!(plain.inner.text, "hello");
    assert_eq!((plain.inner.progress, plain.inner.max_progress, plain.inner.in_view), (0, 0, false));
    assert_eq!(plain.inner.status, NotificationState::Running);
    let ignored = notifier.send_progress("no pair", 3);
    assert_eq!((ignored.inner.progress, ignored.inner.max_progress), (0, 0));
    assert_eq!(notifier.progress, None);
    notifier.set_progress(1, 9);
    let moved = notifier.send_progress("step", 4);
    assert_eq!((moved.inner.progress, moved.inner.max_progress), (4, 9));
    assert_eq!(notifier.progress, Some((4, 9)));
    assert_eq!(notifier.send_success("ok").inner.status, NotificationState::Success);
    assert_eq!(notifier.send_error("bad").inner.status, NotificationState::Error);
    assert_eq!(notifier.send("w", NotificationState::Warning).inner.status, NotificationState::Warning);
    let remove = notifier.send_remove();
    assert_eq!((remove.id, remove.typ), (7, InternalNotifType::Remove));
    assert_eq!(remove.inner.text, "");
    let fresh = notifier.make_new();
    assert_eq!(fresh.progress, None);
    let default = Notif::default();
    assert_eq!((default.progress, default.max_progress, default.in_view, default.status), (0, 0, false, NotificationState::Running));
}

fn event(id: u32, text: &str, status: NotificationState, typ: InternalNotifType) -> InternalNotif {
    InternalNotif { inner: Notif { text: s(text), progress: 0, max_progress: 0, status, in_view: false }, id, typ }
}

fn shown(receiver: &InternalNotifier) -> Vec<(u32, String, bool)> {
    receiver.notifications.iter().map(|n| (n.id, n.inner.text.clone(), n.inner.in_view)).collect()
}

#[test]
fn notification_lives_from_schedule_to_removal() {
    let mut receiver = InternalNotifier::new();
    let first = receiver.subscribe(event(1, "a", NotificationState::Success, InternalNotifType::Schedule));
    assert!(first.updated);
    assert_eq!(shown(&receiver), vec![(1, s("a"), false)]);
    let (delay, fade_in) = first.follow_up.unwrap();
    assert_eq!((delay, fade_in.typ, fade_in.id), (10, InternalNotifType::FadeIn, 1));

    let second = receiver.subscribe(fade_in);
    assert!(second.updated);
    assert_eq!(shown(&receiver), vec![(1, s("a"), true)]);
    let (delay, fade_out) = second.follow_up.unwrap();
    assert_eq!((delay, fade_out.typ), (3000, InternalNotifType::FadeOut));

    let third = receiver.subscribe(fade_out);
    assert_eq!(shown(&receiver), vec![(1, s("a"), false)]);
    let (delay, remove) = third.follow_up.unwrap();
    assert_eq!((delay, remove.typ), (150, InternalNotifType::Remove));

    let last = receiver.subscribe(remove);
    assert!(last.updated);
    assert!(last.follow_up.is_none());
    assert!(receiver.notifications.is_empty());
}

#[test]
fn scheduled_notification_replaces_the_one_of_its_sender() {
    let mut receiver = InternalNotifier::new();
    receiver.subscribe(event(1, "a", NotificationState::Running, InternalNotifType::Schedule));
    receiver.subscribe(event(2, "b", NotificationState::Running, InternalNotifType::Schedule));
    receiver.subscribe(event(1, "c", NotificationState::Running, InternalNotifType::Schedule));
    assert_eq!(shown(&receiver), vec![(1, s("c"), true), (2, s("b"), false)]);
    assert_eq!(receiver.find_id(2), Some(1));
    assert_eq!(receiver.find_id(3), None);
}

#[test]
fn fade_delays_depend_on_the_state() {
    for (status, delay) in [
        (NotificationState::Success, Some(3000)),
        (NotificationState::Warning, Some(7000)),
        (NotificationState::Error, Some(10000)),
        (NotificationState::Running, None),
    ] {
        let mut receiver = InternalNotifier::new();
        receiver.subscribe(event(1, "a", status, InternalNotifType::Schedule));
        let reaction = receiver.subscribe(event(1, "a", status, InternalNotifType::FadeIn));
        assert!(reaction.updated);
        assert_eq!(reaction.follow_up.map(|f| f.0), delay);
    }
}

#[test]
fn events_of_unknown_senders_change_nothing() {
    let mut receiver = InternalNotifier::new();
    receiver.subscribe(event(1, "a", NotificationState::Running, InternalNotifType::Schedule));
    let fade_in = receiver.subscribe(event(5, "x", NotificationState::Error, InternalNotifType::FadeIn));
    assert!(!fade_in.updated && fade_in.follow_up.is_none());
    let fade_out = receiver.subscribe(event(5, "x", NotificationState::Error, InternalNotifType::FadeOut));
    assert!(!fade_out.updated && fade_out.follow_up.is_none());
    let wrong_state = receiver.subscribe(event(1, "a", NotificationState::Success, InternalNotifType::Remove));
    assert!(wrong_state.updated);
    assert_eq!(shown(&receiver), vec![(1, s("a"), false)]);
    assert_eq!(receiver.find_state(1, NotificationState::Running), Some(0));
    assert_eq!(receiver.find_state(1, NotificationState::Success), None);
    assert_eq!(receiver.make_notifier().progress, None);
}

#[test]
fn account_list_operations() {
    let mut accounts = Accounts { accounts: Vec::new(), selected_index: None };
    assert!(accounts.get_active_account().is_none());
    accounts.save_new_account(account("a", 0, 0, 0, 0));
    accounts.save_new_account(account("b", 0, 0, 0, 0));
    accounts.save_new_account(account("a", 1, 1, 1, 1));
    assert_eq!(accounts.selected_index, Some(2));
    assert_eq!(accounts.get_active_account().unwrap().mc_response.expires_at, 1);
    accounts.set_selected_index(1);
    assert_eq!(accounts.get_active_account().unwrap().mc_profile.id, "b");
    accounts.set_selected_index(9);
    assert!(accounts.get_active_account().is_none());
    assert!(accounts.update_account(&account("a", 0, 0, 0, 0), account("c", 5, 5, 5, 5)));
    let ids: Vec<&str> = accounts.accounts.iter().map(|a| a.mc_profile.id.as_str()).collect();
    assert_eq!(ids, vec!["c", "b", "a"]);
    assert!(!accounts.update_account(&account("a", 0, 0, 0, 0), account("d", 0, 0, 0, 0)));
    assert!(account("a", 1, 2, 3, 4).same_as(&account("a", 1, 2, 3, 4)));
    assert!(!account("a", 1, 2, 3, 4).same_as(&account("a", 1, 2, 3, 5)));
    assert!(!account("a", 1, 2, 3, 4).same_as(&account("b", 1, 2, 3, 4)));
    assert_eq!(accounts.accounts.len(), 3);
    accounts.remove_account(1);
    let ids: Vec<&str> = accounts.accounts.iter().map(|a| a.mc_profile.id.as_str()).collect();
    assert_eq!(ids, vec!["c", "a"]);
    assert_eq!(accounts.selected_index, Some(9));
}

#[test]
fn tokens_are_renewed_from_the_first_expired_one_outwards() {
    let fresh = account("a", 100, 100, 100, 100);
    assert_eq!(fresh.refresh(50, false), RefreshPlan { msa: false, xbl: false, xsts: false, mc: false });
    assert_eq!(fresh.refresh(100, false), RefreshPlan { msa: false, xbl: false, xsts: false, mc: false });
    assert_eq!(fresh.refresh(101, false), RefreshPlan { msa: true, xbl: true, xsts: true, mc: true });
    assert_eq!(fresh.refresh(50, true), RefreshPlan { msa: true, xbl: true, xsts: true, mc: true });
    let only_mc = account("a", 100, 100, 100, 10);
    assert_eq!(only_mc.refresh(50, false), RefreshPlan { msa: false, xbl: false, xsts: false, mc: true });
    let mc_and_xsts = account("a", 10, 100, 10, 10);
    assert_eq!(mc_and_xsts.refresh(50, false), RefreshPlan { msa: false, xbl: false, xsts: true, mc: true });
    let inner_expired = account("a", 10, 10, 10, 100);
    assert_eq!(inner_expired.refresh(50, false), RefreshPlan { msa: false, xbl: false, xsts: false, mc: false });
    assert!(!fresh.has_user_hash());
}

#[test]
fn token_expiry_saturates() {
    assert_eq!(token_expiry(1000, 3600), 4600);
    assert_eq!(token_expiry(-10, 5), -5);
    assert_eq!(token_expiry(i64::MAX - 1, 5), i64::MAX);
    assert_eq!(token_expiry(i64::MAX - 5, 5), i64::MAX);
}

#[test]
fn sign_in_addresses() {
    assert_eq!(REDIRECT_PORT, 32303);
    assert_eq!(
        get_login_url(),
        "https://login.live.com/oauth20_authorize.srf?client_id=5431ff2d-20f8-415b-aa2f-5218eba055ea&prompt=select_account&cobrandid=8058f65d-ce06-4c30-9559-473c9275a65d&response_type=code&scope=XboxLive.signin%20XboxLive.offline_access&redirect_uri=http%3A%2F%2F127.0.0.1%3A32303"
    );
    assert_eq!(get_redirect_uri(), "http://127.0.0.1:32303");
    assert_eq!(get_msa_url(), "https://login.live.com/oauth20_token.srf");
    assert_eq!(get_xbl_url(), "https://user.auth.xboxlive.com/user/authenticate");
    assert_eq!(get_xsts_url(), "https://xsts.auth.xboxlive.com/xsts/authorize");
    assert_eq!(get_mc_url(), "https://api.minecraftservices.com/launcher/login");
    assert_eq!(get_entitlements_url(), "https://api.minecraftservices.com/entitlements/license");
    assert_eq!(get_mc_profile_url(), "https://api.minecraftservices.com/minecraft/profile");
    assert_eq!(entitlements_request_url("abc"), "https://api.minecraftservices.com/entitlements/license?requestId=abc");
    assert_eq!(bearer("tok"), "Bearer tok");
    let fresh = new_entitlements_request_url();
    let id = fresh.strip_prefix("https://api.minecraftservices.com/entitlements/license?requestId=").unwrap();
    assert_eq!(id.len(), 36);
    assert_ne!(fresh, new_entitlements_request_url());
}

#[test]
fn ownership_is_an_entitlement_for_the_game() {
    assert!(has_mc_ownership(&vec![s("product_dungeons"), s("GAME_MINECRAFT")]));
    assert!(has_mc_ownership(&vec![s("Product_Minecraft")]));
    assert!(!has_mc_ownership(&vec![s("product_minecraft_bedrock"), s("game_minecraf")]));
    assert!(!has_mc_ownership(&Vec::new()));
    assert!(eq_ignore_ascii_case("aZ09_é", "Az09_é"));
    assert!(!eq_ignore_ascii_case("é", "É"));
    assert!(!eq_ignore_ascii_case("[", "{"));
    assert!(!eq_ignore_ascii_case("@", "`"));
}

#[test]
fn settings_defaults_and_update() {
    let mut settings = AppSettings::generate();
    assert_eq!(settings.instance_size, 16);
    assert!(settings.instance_path.is_none() && settings.icon_path.is_none() && settings.java_settings.is_empty());
    settings.add_java_setting();
    assert_eq!(settings.java_settings.len(), 1);
    assert_eq!(settings.java_settings[0].xmx, 4096);
    settings.update(AppSettings { instance_size: 20, instance_path: Some(s("/i")), icon_path: None, java_settings: Vec::new() });
    assert_eq!(settings.instance_size, 20);
    assert_eq!(settings.instance_path.as_deref(), Some("/i"));
    assert!(settings.java_settings.is_empty());
}

#[test]
fn spans_are_written_in_days_hours_minutes() {
    assert_eq!(format_minutes(0), "< 1min");
    assert_eq!(format_minutes(-5), "< 1min");
    assert_eq!(format_minutes(1), "1min");
    assert_eq!(format_minutes(60), "1h");
    assert_eq!(format_minutes(90), "1h 30min");
    assert_eq!(format_minutes(1440), "1d");
    assert_eq!(format_minutes(1441), "1d 1min");
    assert_eq!(format_minutes(1500), "1d 1h");
    assert_eq!(format_minutes(2 * 1440 + 23 * 60 + 59), "2d 23h 59min");
    assert_eq!(format_minutes(i64::MAX), "6405119470038038d 18h 7min");
    assert_eq!(format_time_delta(chrono::TimeDelta::minutes(90)), "1h 30min");
    assert_eq!(format_time_delta(chrono::TimeDelta::seconds(59)), "< 1min");
    assert_eq!(format_time_delta(chrono::TimeDelta::seconds(86400 + 3600 + 61)), "1d 1h 1min");
}

#[test]
fn instances_are_ordered_by_last_play() {
    assert!(comes_before(Some(5), Some(3)));
    assert!(!comes_before(Some(3), Some(5)));
    assert!(!comes_before(Some(3), Some(3)));
    assert!(comes_before(Some(0), None));
    assert!(!comes_before(None, Some(0)));
    assert!(!comes_before(None, None));
}

#[test]
fn loaders_are_recognised() {
    assert_eq!(ModLoaders::from_uid("net.minecraftforge"), Some(ModLoaders::Forge));
    assert_eq!(ModLoaders::from_uid("net.fabricmc.fabric-loader"), Some(ModLoaders::Fabric));
    assert_eq!(ModLoaders::from_uid("net.minecraft"), None);
    assert_eq!(ModLoaders::from_cf("forge-47.2.0"), Some(ModLoaders::Forge));
    assert_eq!(ModLoaders::from_cf("fabric-0.15.0-1.20.1"), Some(ModLoaders::Fabric));
    assert_eq!(ModLoaders::from_cf("quilt"), None);
    assert_eq!((ModLoaders::Vanilla.name(), ModLoaders::Forge.name(), ModLoaders::Fabric.name()), (s("Vanilla"), s("Forge"), s("Fabric")));
}

fn component(uid: &str, version: Option<&str>, cached_name: Option<&str>) -> MMCPackComponent {
    MMCPackComponent { cached_name: cached_name.map(String::from), cached_version: None, dependency_only: None, uid: s(uid), version: version.map(String::from) }
}

fn config(icon_key: Option<&str>) -> MMCConfig {
    MMCConfig { name: s("Pack"), last_played: Some(1700000000000), last_played_for: Some(60), total_time_played: Some(600), icon_key: icon_key.map(String::from) }
}

#[test]
fn builtin_icons_are_no_files() {
    for key in ["default", "bee", "tnt", "prismlauncher", "bee_legacy", "tnt_legacy", "modrinth_legacy"] {
        assert!(builtin_icon(key), "{key}");
        assert_eq!(config(Some(key)).get_icon(Some("/icons")), None);
    }
    for key in ["default_legacy", "custom", "bee_", "_legacy", "Bee", ""] {
        assert!(!builtin_icon(key), "{key}");
    }
    assert_eq!(config(Some("custom")).get_icon(Some("/icons")), Some(s("/icons/custom")));
    assert_eq!(config(Some("custom")).get_icon(None), None);
    assert_eq!(config(None).get_icon(Some("/icons")), None);
}

#[test]
fn multimc_instance_is_read() {
    let pack = MMCPack {
        components: vec![
            component("org.lwjgl3", Some("3.3.1"), None),
            component("net.minecraft", Some("1.20.1"), Some("Minecraft")),
            component("net.fabricmc.fabric-loader", Some("0.15.0"), Some("Fabric Loader")),
            component("net.minecraftforge", None, None),
        ],
    };
    let instance = SimpleInstance::get_from_mmc("/inst/a", MMCMetadata { instance_id: 4, play_count: Some(2) }, config(Some("custom")), &pack, Some("/icons"), true).unwrap();
    assert_eq!(instance.instance_type, InstanceType::MultiMC);
    assert_eq!(instance.mc_version, "1.20.1");
    assert_eq!(instance.minecraft_path, "/inst/a/.minecraft");
    assert_eq!(instance.instance_path, "/inst/a");
    assert_eq!((instance.id, instance.play_count), (4, Some(2)));
    assert_eq!(instance.name, "Pack");
    assert_eq!(instance.icon_path.as_deref(), Some("/icons/custom"));
    assert_eq!((instance.last_played, instance.last_played_for, instance.total_time_played), (Some(1700000000000), Some(60), Some(600)));
    assert_eq!((instance.modloader.name.as_str(), instance.modloader.typ, instance.modloader.version.as_str()), ("Fabric Loader", ModLoaders::Fabric, "0.15.0"));

    let forge_only = MMCPack { components: vec![component("net.minecraftforge", None, None), component("net.minecraft", Some("1.12.2"), None)] };
    let forge = SimpleInstance::get_from_mmc("/inst/b", MMCMetadata { instance_id: 1, play_count: None }, config(None), &forge_only, None, false).unwrap();
    assert_eq!(forge.minecraft_path, "/inst/b/minecraft");
    assert_eq!((forge.modloader.name.as_str(), forge.modloader.version.as_str()), ("Forge", "Unknown Version!"));

    let vanilla = MMCPack { components: vec![component("net.minecraft", Some("1.8.9"), None)] };
    let plain = SimpleInstance::get_from_mmc("/inst/c", MMCMetadata::generate(), config(None), &vanilla, None, false).unwrap();
    assert_eq!((plain.modloader.name.as_str(), plain.modloader.typ, plain.modloader.version.as_str()), ("Vanilla", ModLoaders::Vanilla, ""));
    assert_eq!(plain.play_count, None);

    let no_game = MMCPack { components: vec![component("net.minecraft", None, None)] };
    let refused = SimpleInstance::get_from_mmc("/inst/d", MMCMetadata::generate(), config(None), &no_game, None, false);
    assert!(matches!(refused, Err(InstanceGatherError::MinecraftNotFound(path)) if path == "/inst/d"));
    let empty = SimpleInstance::get_from_mmc("/inst/e", MMCMetadata::generate(), config(None), &MMCPack { components: Vec::new() }, None, false);
    assert!(matches!(empty, Err(InstanceGatherError::MinecraftNotFound(_))));
}

fn cf_instance(last_played: &str, loader: Option<&str>) -> CFInstance {
    CFInstance {
        last_played: s(last_played),
        name: s("CF Pack"),
        game_version: s("1.20.1"),
        played_count: 3,
        base_mod_loader: loader.map(|name| CFBaseLoader { version: s("47.2.0"), minecraft_version: s("1.20.1"), name: s(name) }),
        installed_modpack: None,
    }
}

fn cf_meta() -> CFMetadata {
    CFMetadata { instance_id: 8, saved_icon: Some(s("/icons/cf")), last_played_for: None, total_time_played: Some(120) }
}

#[test]
fn curseforge_instance_is_read() {
    let instance = SimpleInstance::get_from_cf("/cf/a", cf_meta(), cf_instance("2024-01-31T12:00:00.123Z", Some("forge-47.2.0"))).unwrap();
    assert_eq!(instance.instance_type, InstanceType::CurseForge);
    assert_eq!((instance.minecraft_path.as_str(), instance.instance_path.as_str()), ("/cf/a", "/cf/a"));
    assert_eq!(instance.last_played, Some(1706702400000));
    assert_eq!(instance.last_played_for, None);
    assert_eq!((instance.id, instance.play_count, instance.total_time_played), (8, Some(3), Some(120)));
    assert_eq!(instance.icon_path.as_deref(), Some("/icons/cf"));
    assert_eq!((instance.name.as_str(), instance.mc_version.as_str()), ("CF Pack", "1.20.1"));
    assert_eq!((instance.modloader.name.as_str(), instance.modloader.typ, instance.modloader.version.as_str()), ("Forge", ModLoaders::Forge, "47.2.0"));

    let never = SimpleInstance::get_from_cf("/cf/b", cf_meta(), cf_instance("0001-01-01T00:00:00", None)).unwrap();
    assert_eq!(never.last_played, None);
    assert_eq!((never.modloader.name.as_str(), never.modloader.typ), ("Vanilla", ModLoaders::Vanilla));
    let epoch = SimpleInstance::get_from_cf("/cf/b", cf_meta(), cf_instance("1970-01-01T00:00:10", Some("quilt"))).unwrap();
    assert_eq!(epoch.last_played, None);
    assert_eq!(epoch.modloader.typ, ModLoaders::Vanilla);
    let just = SimpleInstance::from_cf_parts("/cf/b", cf_meta(), cf_instance("x", None), Some(11));
    assert_eq!(just.last_played, Some(11000));
    let huge = SimpleInstance::from_cf_parts("/cf/b", cf_meta(), cf_instance("x", None), Some(i64::MAX));
    assert_eq!(huge.last_played, None);

    let refused = SimpleInstance::get_from_cf("/cf/c", cf_meta(), cf_instance("yesterday", None));
    assert!(matches!(refused, Err(InstanceGatherError::NaiveDateTimeParseFailed(text)) if text == "yesterday"));
}

#[test]
fn curseforge_icons_and_metadata() {
    let with_thumbnail = CFInstalledPack { thumbnail_url: Some(s("https://x/t.png")), addon_i_d: 5 };
    assert!(matches!(with_thumbnail.icon_source(), IconSource::Thumbnail(url) if url == "https://x/t.png"));
    let without = CFInstalledPack { thumbnail_url: None, addon_i_d: 285109 };
    assert!(matches!(without.icon_source(), IconSource::Project(url) if url == "https://curserinth-api.kuylar.dev/v2/project/285109"));
    assert_eq!(cf_icon_file("/icons", 42), "/icons/curseforge_42");
    assert!(cf_meta().needs_regeneration(false));
    assert!(!cf_meta().needs_regeneration(true));
    assert!(!CFMetadata::generate(None).needs_regeneration(false));
    let generated = CFMetadata::generate(Some(s("i")));
    assert_eq!((generated.saved_icon.as_deref(), generated.last_played_for, generated.total_time_played), (Some("i"), None, None));
}

#[test]
fn sidebar_buttons_lead_to_their_pages() {
    let mut page = Pages::Home;
    for (button, target) in [
        (SidebarMessage::CreateButton, Pages::Create),
        (SidebarMessage::AccountsButton, Pages::Accounts),
        (SidebarMessage::SettingsButton, Pages::Settings),
        (SidebarMessage::HomeButton, Pages::Home),
    ] {
        Pages::switch_page(&mut page, button);
        assert_eq!(page, target);
    }
    assert_eq!(ButtonTheme::default(), ButtonTheme::Default);
}
