use holy_maiden_bot::config::{Bot, Config, Telegram};
use holy_maiden_bot::database::{GroupCharacter, UserCharacter};
use holy_maiden_bot::filters::{sudoers, SudoUser};
use holy_maiden_bot::handlers::collect::{collect, collected, Collect};
use holy_maiden_bot::handlers::list::{
    album_captions, get_page_info, page_line, ALBUM_PAGE, LIST_PAGE, MAX_ALBUM,
};
use holy_maiden_bot::middlewares::save_chat::{language_for, new_group, new_user};
use holy_maiden_bot::middlewares::set_locale::set_locale;
use holy_maiden_bot::modules::anilist::{Anilist, Entry};
use holy_maiden_bot::modules::conversation::ChatKind;
use holy_maiden_bot::modules::database::{Database, PackedChat, PackedType};
use holy_maiden_bot::modules::i18n::{I18n, Locale, LocaleGuard};
use holy_maiden_bot::reconnect::retry_delay_millis;

fn locale(code: &str, entries: &[(&str, &str)]) -> Locale {
    Locale {
        code: code.to_string(),
        entries: entries.iter().map(|(k, v)| (k.to_string(), v.to_string())).collect(),
    }
}

fn bilingual() -> I18n {
    let mut i18n = I18n::new("en-GB");
    i18n.add_locale(locale("en-GB", &[("start", "Hello"), ("help", "Help"), ("start", "Again")]));
    i18n.add_locale(locale("pt-BR", &[("start", "Olá")]));
    i18n
}

fn entry(id: i64) -> Entry {
    Entry { id, image_url: format!("http://img/{}", id), image: None }
}

#[test]
fn texts_fall_back_to_the_default_locale() {
    let mut i18n = bilingual();
    assert_eq!(i18n.get("start"), "Hello");
    assert_eq!(i18n.get("help"), "Help");
    assert_eq!(i18n.get("missing"), "KEY_NOT_FOUND");
    assert_eq!(i18n.get_from_locale("pt-BR", "start"), "Olá");
    assert_eq!(i18n.get_from_locale("pt-BR", "help"), "Help");
    assert_eq!(i18n.get_from_locale("pt-BR", "missing"), "KEY_NOT_FOUND");
    assert_eq!(i18n.get_from_locale("fr-FR", "start"), "LANGUAGE_NOT_FOUND");
    i18n.set_locale("pt-BR");
    assert_eq!(i18n.locale(), "pt-BR");
    assert_eq!(i18n.get("start"), "Olá");
    i18n.set_locale("fr-FR");
    assert_eq!(i18n.locale(), "pt-BR");
    assert_eq!(i18n.locales(), vec!["en-GB", "pt-BR"]);
}

#[test]
fn missing_default_locale_is_reported() {
    let mut i18n = I18n::new("de-DE");
    assert_eq!(i18n.get("start"), "LANGUAGE_NOT_FOUND");
    i18n.add_locale(locale("pt-BR", &[("start", "Olá")]));
    assert_eq!(i18n.get_from_locale("pt-BR", "start"), "Olá");
    assert_eq!(i18n.get_from_locale("pt-BR", "help"), "LANGUAGE_NOT_FOUND");
    assert!(i18n.locales() == vec!["pt-BR"]);
}

#[test]
fn locale_entries_are_looked_up() {
    let english = locale("en-GB", &[("a", "1"), ("b", "2"), ("a", "3")]);
    assert_eq!(english.get("a"), Some("1".to_string()));
    assert_eq!(english.get("b"), Some("2".to_string()));
    assert_eq!(english.get("c"), None);
}

#[test]
fn guard_restores_the_locale() {
    let mut i18n = bilingual();
    let guard = i18n.use_locale("pt-BR");
    assert_eq!(i18n.locale(), "pt-BR");
    guard.release(&mut i18n);
    assert_eq!(i18n.locale(), "en-GB");
    let guard = LocaleGuard::new(&mut i18n, "fr-FR");
    assert_eq!(i18n.locale(), "en-GB");
    guard.release(&mut i18n);
    assert_eq!(i18n.locale(), "en-GB");
}

#[test]
fn locale_follows_the_chat() {
    let mut i18n = bilingual();
    set_locale(&mut i18n, ChatKind::Channel, Some("pt-BR"));
    assert_eq!(i18n.locale(), "en-GB");
    set_locale(&mut i18n, ChatKind::Group, None);
    assert_eq!(i18n.locale(), "en-GB");
    set_locale(&mut i18n, ChatKind::Group, Some("pt-BR"));
    assert_eq!(i18n.locale(), "pt-BR");
    set_locale(&mut i18n, ChatKind::User, Some("en-GB"));
    assert_eq!(i18n.locale(), "en-GB");
}

#[test]
fn administrators() {
    let admins = sudoers();
    assert_eq!(admins.ids.len(), 10);
    assert_eq!(admins.ids[0], 1155717290);
    assert_eq!(admins.ids[9], 1269726556);
    assert!(admins.contains(996752722));
    assert!(!admins.contains(1));
    assert!(admins.is_ok(ChatKind::User, 254533953, None));
    assert!(!admins.is_ok(ChatKind::User, 2, Some(254533953)));
    assert!(admins.is_ok(ChatKind::Group, -100, Some(254533953)));
    assert!(!admins.is_ok(ChatKind::Group, 254533953, None));
    assert!(!admins.is_ok(ChatKind::Group, -100, Some(2)));
    assert!(!admins.is_ok(ChatKind::Channel, 254533953, Some(254533953)));
    let nobody = SudoUser { ids: Vec::new() };
    assert!(!nobody.is_ok(ChatKind::User, 254533953, None));
}

#[test]
fn new_chats_get_a_language() {
    assert_eq!(language_for(Some("en")), "en-GB");
    assert_eq!(language_for(Some("pt")), "pt-BR");
    assert_eq!(language_for(Some("es")), "es");
    assert_eq!(language_for(None), "en-GB");
    let group = new_group(-5, "Fans", Some("fans"));
    assert_eq!(group.id, -5);
    assert_eq!(group.title, "Fans");
    assert_eq!(group.username, Some("fans".to_string()));
    assert_eq!(group.language_code, "en-GB");
    let user = new_user(9, None, "Ann Lee", Some("pt"));
    assert_eq!(user.id, 9);
    assert_eq!(user.username, None);
    assert_eq!(user.full_name, "Ann Lee");
    assert_eq!(user.language_code, "pt-BR");
}

#[test]
fn chats_are_remembered_as_first_met() {
    let mut database = Database::new();
    assert_eq!(database.get_chat(5), None);
    let first = PackedChat { ty: PackedType::User, id: 5, access_hash: Some(1) };
    let second = PackedChat { ty: PackedType::Bot, id: 5, access_hash: Some(2) };
    database.save_chat(first);
    database.save_chat(second);
    assert_eq!(database.get_chat(5), Some(first));
    database.save_chat(PackedChat { ty: PackedType::Megagroup, id: 6, access_hash: None });
    assert_eq!(database.get_chat(6).unwrap().ty, PackedType::Megagroup);
}

#[test]
fn cache_drops_the_oldest_entry() {
    let mut cache = Anilist::new(2);
    assert_eq!(cache.char_count(), 0);
    cache.keep(entry(1));
    cache.keep(entry(2));
    assert_eq!(cache.char_count(), 2);
    assert_eq!(cache.image_url(1), Some("http://img/1".to_string()));
    cache.keep(entry(3));
    assert_eq!(cache.char_count(), 2);
    assert_eq!(cache.image_url(1), None);
    assert_eq!(cache.image_url(2), Some("http://img/2".to_string()));
    assert_eq!(cache.image_url(3), Some("http://img/3".to_string()));
}

#[test]
fn cache_replaces_an_entry_in_place() {
    let mut cache = Anilist::new(2);
    cache.keep(entry(1));
    cache.keep(entry(2));
    assert!(!cache.has_image(1));
    cache.keep(Entry { id: 1, image_url: "u".to_string(), image: Some(vec![7]) });
    assert!(cache.has_image(1));
    assert!(!cache.has_image(2));
    assert!(!cache.has_image(9));
    assert_eq!(cache.char_count(), 2);
    cache.keep(entry(3));
    assert_eq!(cache.image_url(1), None);
    assert_eq!(cache.image_url(2), Some("http://img/2".to_string()));
    let mut none = Anilist::new(0);
    none.keep(entry(1));
    assert_eq!(none.char_count(), 0);
}

#[test]
fn reply_collects_the_shown_character() {
    let shown = GroupCharacter {
        group_id: 1,
        anilist_id: 99,
        message_id: 10,
        character_id: 7,
        collected_by: None,
    };
    assert_eq!(collect(&shown, 10, 5, false), Collect::Collected);
    assert_eq!(collect(&shown, 10, 5, true), Collect::AlreadyCollected);
    assert_eq!(collect(&shown, 11, 5, false), Collect::Ignore);
    let (taken, row) = collected(shown, 5);
    assert_eq!(taken.collected_by, Some(5));
    assert_eq!(taken.message_id, 10);
    let UserCharacter { user_id, group_id, anilist_id, character_id } = row;
    assert_eq!((user_id, group_id, anilist_id, character_id), (5, 1, 99, 7));
    assert_eq!(collect(&taken, 10, 6, false), Collect::Ignore);
    assert_eq!(collect(&taken, 10, 5, true), Collect::AlreadyCollected);
}

#[test]
fn pages_of_the_list() {
    assert_eq!(LIST_PAGE, 15);
    assert_eq!(ALBUM_PAGE, 9);
    assert_eq!(MAX_ALBUM, 10);
    assert_eq!(
        get_page_info(31, 0, 15, "Page {0} of {1}"),
        ("\n\nPage 1 of 3".to_string(), 3)
    );
    assert_eq!(get_page_info(0, 0, 15, "{0}/{1}"), ("\n\n1/0".to_string(), 0));
    assert_eq!(get_page_info(9, 1, 9, "{1}{0}"), ("\n\n12".to_string(), 1));
    assert_eq!(page_line("http://a", "Aria", 3), "\n· <a href=\"http://a\">Aria</a> 🟊🟊🟊");
    assert_eq!(page_line("u", "n", 0), "\n· <a href=\"u\">n</a> ");
    assert_eq!(album_captions("Page", 3), vec!["Page", "", ""]);
    assert_eq!(album_captions("Page", 12).len(), 10);
    assert!(album_captions("Page", 0).is_empty());
}

#[test]
fn wait_doubles_with_every_attempt() {
    assert_eq!(retry_delay_millis(0), 1);
    assert_eq!(retry_delay_millis(1), 2);
    assert_eq!(retry_delay_millis(10), 1024);
    assert_eq!(retry_delay_millis(63), 9223372036854775808);
}

#[test]
fn configuration_is_plain_data() {
    let config = Config {
        telegram: Telegram { api_id: 1, api_hash: "h".to_string() },
        bot: Bot { token: "t".to_string(), catch_up: true, flood_sleep_threshold: 60 },
    };
    let copy = config.clone();
    assert_eq!(copy.telegram.api_id, 1);
    assert_eq!(copy.bot.flood_sleep_threshold, 60);
    assert!(copy.bot.catch_up);
}
