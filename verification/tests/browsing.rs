use holy_maiden_bot::database::models::{Character, Gender, Media, Series, UserCharacters};
use holy_maiden_bot::modules::conversation::ChatKind;
use holy_maiden_bot::modules::i18n::{I18n, Locale};
use holy_maiden_bot::routers::character::{
    about_search, drop_image, is_broken_file, like_button, lookup_name, results, search, see,
    toggle_like, usage, write_admin_menu, write_card_buttons, Search, See, SEARCH_PAGE,
};
use holy_maiden_bot::routers::keyboard::{Block, Button};
use holy_maiden_bot::routers::language::{
    change_language, language_set, requested_language, write_language_menu,
};
use holy_maiden_bot::routers::list::{
    caption, pick, place_request, wants_individually, write_buttons,
};
use holy_maiden_bot::routers::pages::{page_request, write_pager};
use holy_maiden_bot::routers::series::{
    character_text, page_text, see_characters, write_character_buttons, write_page_buttons,
    SeeCharacters,
};
use holy_maiden_bot::routers::start::{start, Greeting};

fn words(text: &str) -> Vec<String> {
    text.split(' ').map(|word| word.to_string()).collect()
}

fn locale(code: &str, entries: &[(&str, &str)]) -> Locale {
    Locale {
        code: code.to_string(),
        entries: entries.iter().map(|(k, v)| (k.to_string(), v.to_string())).collect(),
    }
}

fn bilingual() -> I18n {
    let mut i18n = I18n::new("en-GB");
    i18n.add_locale(locale(
        "en-GB",
        &[
            ("language_name", "English"),
            ("language_set", "Now speaking {new_lang}"),
            ("invalid_command", "Use: {cmd}"),
            ("search_results", "Results for {search}"),
            ("no_results", "Nothing for {search}"),
            ("add_button", "Add"),
            ("list_button", "List"),
            ("edit_button", "Edit"),
            ("delete_button", "Delete"),
            ("start", "Hello"),
            ("not_private", "Write me in private"),
            ("add_to_a_group_button", "Add me"),
            ("private_button", "Private"),
        ],
    ));
    i18n.add_locale(locale("pt-BR", &[("language_name", "Português"), ("start", "Olá")]));
    i18n
}

fn aria() -> Character {
    Character {
        id: 7,
        name: "Aria".to_string(),
        stars: 3,
        image: Some(vec![1]),
        gender: Gender::Female,
        artist: "Bob".to_string(),
        aliases: Vec::new(),
        liked_by: vec![5, 6],
        series_id: 3,
        image_link: ".".to_string(),
        anilist_id: None,
    }
}

fn saga() -> Series {
    Series {
        id: 3,
        title: "Saga".to_string(),
        artist: "Ann".to_string(),
        banner: None,
        aliases: Vec::new(),
        liked_by: vec![5],
        image_link: "0".to_string(),
        media_type: Media::Manga,
    }
}

fn faces(buttons: &Vec<Button>) -> Vec<(String, String)> {
    buttons.iter().map(|b| (b.text.clone(), b.data.clone())).collect()
}

fn row(block: &Block) -> Vec<(String, String)> {
    match block {
        Block::Row(buttons) => faces(buttons),
        Block::Grid { .. } => panic!("a row was expected"),
    }
}

fn pair(text: &str, data: &str) -> (String, String) {
    (text.to_string(), data.to_string())
}

#[test]
fn requests_to_see_a_character() {
    assert_eq!(see(&Vec::new(), true), See::Ignore);
    assert_eq!(see(&words("/char"), true), See::Menu);
    assert_eq!(see(&words("/char"), false), See::Usage);
    assert_eq!(see(&words("/char 7"), false), See::ById(7));
    assert_eq!(see(&words("/char aria night"), false), See::ByName);
    assert_eq!(see(&words("/char sasuke"), false), See::Search);
    assert_eq!(see(&words("/char s aria"), true), See::Search);
    assert_eq!(lookup_name(&words("/char aria night"), 1), "aria night");
}

#[test]
fn usage_and_admin_menu() {
    let i18n = bilingual();
    assert_eq!(usage(&i18n, "/char", "<name|id>"), "Use: &#x2F;char &lt;name|id&gt;");
    assert_eq!(
        row(&write_admin_menu(&i18n, "char")[0]),
        vec![pair("Add", "char add"), pair("List", "char list 1")]
    );
    assert_eq!(
        row(&write_admin_menu(&i18n, "series")[0]),
        vec![pair("Add", "series add"), pair("List", "series list 1")]
    );
}

#[test]
fn buttons_under_a_character() {
    let i18n = bilingual();
    let plain = write_card_buttons(&i18n, &aria(), &words("/char 7"), false);
    assert_eq!(plain.len(), 1);
    assert_eq!(row(&plain[0]), vec![pair("❤ 2", "clike 7")]);
    let admin = write_card_buttons(&i18n, &aria(), &words("/char 7"), true);
    assert_eq!(admin.len(), 2);
    assert_eq!(row(&admin[1]), vec![pair("Edit", "char edit 7"), pair("Delete", "char delete 7")]);
    let liked = write_card_buttons(&i18n, &aria(), &words("clike 7"), true);
    assert_eq!(liked.len(), 1);
    let button = like_button("slike ", 3, 0);
    assert_eq!((button.text.as_str(), button.data.as_str()), ("❤ 0", "slike 3"));
}

#[test]
fn likes_are_toggled() {
    let mut liked_by = vec![5, 6];
    assert!(toggle_like(&mut liked_by, 7));
    assert_eq!(liked_by, vec![5, 6, 7]);
    assert!(!toggle_like(&mut liked_by, 5));
    assert_eq!(liked_by, vec![6, 7]);
    let mut doubled = vec![5, 6, 5];
    assert!(!toggle_like(&mut doubled, 5));
    assert_eq!(doubled, vec![6]);
    let mut nobody: Vec<i64> = Vec::new();
    assert!(toggle_like(&mut nobody, 1));
    assert_eq!(nobody, vec![1]);
}

#[test]
fn broken_files_are_recognised() {
    assert!(is_broken_file("rpc error 400: FILE_PARTS_MISSING"));
    assert!(is_broken_file("FILE_PARTS_INVALID"));
    assert!(!is_broken_file("FLOOD_WAIT"));
    let mut character = aria();
    drop_image(&mut character);
    assert!(character.image.is_none());
    assert_eq!(character.name, "Aria");
}

#[test]
fn requests_to_search() {
    assert_eq!(SEARCH_PAGE, 15);
    assert_eq!(search(&Vec::new(), "cs").0, Search::Ignore);
    assert_eq!(search(&words("/cs"), "cs").0, Search::Usage);
    assert_eq!(search(&words("/char s"), "cs").0, Search::UsageAfterS);
    let (what, text) = search(&words("/cs aria night"), "cs");
    assert_eq!(what, Search::Query);
    assert_eq!(text, "aria night");
    let (what, text) = search(&words("/char s aria night"), "cs");
    assert_eq!(what, Search::Query);
    assert_eq!(text, "aria night");
    let (what, text) = search(&words("/ss one"), "ss");
    assert_eq!(what, Search::Query);
    assert_eq!(text, "one");
}

#[test]
fn results_of_a_search() {
    let i18n = bilingual();
    assert_eq!(about_search(&i18n, "no_results", "x"), "Nothing for x");
    assert_eq!(results(&i18n, "ari", &Vec::new()), "Nothing for ari");
    assert_eq!(
        results(&i18n, "ari", &vec![aria()]),
        "Results for ari\n\n🌸 <code></code><code>7</code>. <b>Aria</b>\n"
    );
    let mut other = saga();
    other.id = 12;
    other.media_type = Media::Anime;
    assert_eq!(
        holy_maiden_bot::routers::series::results(&i18n, "sa", &vec![saga(), other]),
        "Results for sa\n\n📚 <code> </code><code>3</code>. <b>Saga</b>\n📺 <code></code><code>12</code>. <b>Saga</b>"
    );
    assert_eq!(
        holy_maiden_bot::routers::series::results(&i18n, "sa", &Vec::new()),
        "Results for sa\n"
    );
}

#[test]
fn requests_to_see_a_series() {
    assert_eq!(holy_maiden_bot::routers::series::see(&Vec::new(), false), holy_maiden_bot::routers::series::See::Ignore);
    assert_eq!(holy_maiden_bot::routers::series::see(&words("/s"), true), holy_maiden_bot::routers::series::See::Menu);
    assert_eq!(holy_maiden_bot::routers::series::see(&words("/s"), false), holy_maiden_bot::routers::series::See::Usage);
    assert_eq!(holy_maiden_bot::routers::series::see(&words("/s i 3"), false), holy_maiden_bot::routers::series::See::Characters);
    assert_eq!(holy_maiden_bot::routers::series::see(&words("/s c 3"), false), holy_maiden_bot::routers::series::See::Characters);
    assert_eq!(holy_maiden_bot::routers::series::see(&words("/s p 3"), false), holy_maiden_bot::routers::series::See::Characters);
    assert_eq!(holy_maiden_bot::routers::series::see(&words("/s saga"), false), holy_maiden_bot::routers::series::See::Search);
    assert_eq!(holy_maiden_bot::routers::series::see(&words("/o 3"), false), holy_maiden_bot::routers::series::See::ById(3));
    assert_eq!(holy_maiden_bot::routers::series::see(&words("/o One Piece"), false), holy_maiden_bot::routers::series::See::ByTitle);
    assert_eq!(holy_maiden_bot::routers::series::see(&words("series 3 5 2"), false), holy_maiden_bot::routers::series::See::ById(3));
}

#[test]
fn page_of_a_series() {
    let i18n = bilingual();
    assert_eq!(
        page_text(&saga(), &vec![aria()], 2, 31),
        "📚 <code>3</code>. <b>Saga</b> | 👨‍👩‍👧‍👦 : 31\n\n🌸 <code></code><code>7</code>. <b>Aria</b>\n\n🔖 | 2/3"
    );
    assert_eq!(page_text(&saga(), &Vec::new(), 1, 0), "\n🔖 | 1/0");
    let buttons = write_page_buttons(&i18n, &saga(), 5, 2, 31, &words("series 3 5 2"), true);
    assert_eq!(buttons.len(), 3);
    assert_eq!(row(&buttons[0]), vec![pair("⬅", "series 3 5 1"), pair("➡", "series 3 5 3")]);
    assert_eq!(row(&buttons[1]), vec![pair("❤ 1", "slike 3")]);
    assert_eq!(
        row(&buttons[2]),
        vec![pair("Edit", "series edit 3"), pair("Delete", "series delete 3")]
    );
    let plain = write_page_buttons(&i18n, &saga(), 5, 1, 3, &words("/s 3"), false);
    assert_eq!(plain.len(), 2);
    assert!(row(&plain[0]).is_empty());
}

#[test]
fn characters_of_a_series_one_by_one() {
    let (parts, what) = see_characters(words("/si 3"));
    assert_eq!(what, SeeCharacters::ById(3));
    assert_eq!(parts, vec!["/si", "i", "3"]);
    assert_eq!(see_characters(words("/s i One Piece")).1, SeeCharacters::ByTitle);
    assert_eq!(see_characters(words("/s i")).1, SeeCharacters::UsageAfterI);
    assert_eq!(see_characters(words("/si")).1, SeeCharacters::Usage);
    assert_eq!(see_characters(Vec::new()).1, SeeCharacters::Ignore);
    assert_eq!(see_characters(words("series i 3 5 2")).1, SeeCharacters::ById(3));
    assert_eq!(
        character_text(&saga(), Some(&aria()), 2, 9),
        "🌸 <code></code><code>7</code>. <b>Aria | 🎨 Bob.</b>\n📚 <code>3</code>. <b>Saga</b>\n\n🔖 | 2/9"
    );
    assert_eq!(character_text(&saga(), None, 1, 0), "🔖 | 1/0");
    assert_eq!(
        faces(&write_character_buttons(3, 5, 4, 9)),
        vec![
            pair("⏪", "series i 3 5 1"),
            pair("⬅", "series i 3 5 3"),
            pair("➡", "series i 3 5 5"),
            pair("⏩", "series i 3 5 9"),
        ]
    );
    assert_eq!(
        faces(&write_character_buttons(3, 5, 2, 3)),
        vec![pair("⬅", "series i 3 5 1"), pair("➡", "series i 3 5 3")]
    );
    assert!(write_character_buttons(3, 5, 1, 1).is_empty());
}

#[test]
fn pages_are_turned() {
    assert_eq!(
        faces(&write_pager("list 5 ", 2, 3, false)),
        vec![pair("⬅", "list 5 1"), pair("➡", "list 5 3")]
    );
    assert_eq!(faces(&write_pager("list 5 ", 1, 3, false)), vec![pair("➡", "list 5 2")]);
    assert_eq!(faces(&write_pager("list 5 ", 3, 3, false)), vec![pair("⬅", "list 5 2")]);
    assert_eq!(
        faces(&write_pager("p ", 3, 4, true)),
        vec![pair("⏪", "p 1"), pair("⬅", "p 2"), pair("➡", "p 4")]
    );
    assert_eq!(
        faces(&write_pager("p ", 1, 3, true)),
        vec![pair("➡", "p 2"), pair("⏩", "p 3")]
    );
    assert!(write_pager("p ", 0, 0, true).is_empty());
}

#[test]
fn buttons_belong_to_the_user_they_were_made_for() {
    assert_eq!(page_request(&words("series 3 5 2"), 2, 5), Some(2));
    assert_eq!(page_request(&words("series 3 6 2"), 2, 5), None);
    assert_eq!(page_request(&words("series 3"), 2, 5), Some(1));
    assert_eq!(page_request(&words("series 3 5"), 2, 5), Some(1));
    assert_eq!(page_request(&words("series 3 x 4"), 2, 5), Some(4));
    assert_eq!(page_request(&words("series 3 5 x"), 2, 5), Some(1));
    assert_eq!(page_request(&words("series 3 5 -2"), 2, 5), Some(1));
    assert_eq!(page_request(&words("series 3 5 0"), 2, 5), Some(0));
    assert_eq!(page_request(&words("a"), usize::MAX, 5), Some(1));
}

#[test]
fn collection_is_shown_one_by_one() {
    assert!(wants_individually("/list i"));
    assert!(wants_individually("i"));
    assert!(!wants_individually("/list"));
    assert!(!wants_individually("/list i 2"));
    assert!(!wants_individually(""));
    assert_eq!(place_request(None, 5), Some(1));
    assert_eq!(place_request(Some(&words("list 5 3")), 5), Some(3));
    assert_eq!(place_request(Some(&words("list 6 3")), 5), None);
    let mut collection = UserCharacters::new(5, 1);
    collection.add(70, 9);
    collection.add(80, 9);
    assert_eq!(pick(&collection, 1), Some(70));
    assert_eq!(pick(&collection, 2), Some(80));
    assert_eq!(pick(&collection, 3), None);
    assert_eq!(pick(&collection, 0), None);
    assert_eq!(
        caption(&aria(), Some(saga()), 1, 2),
        "🌸 <code></code><code>7</code>. <b>Aria | 🎨 Bob.</b>\n📚 <i>Saga</i>\n\n⭐: 🔵\n\n🔖 | 1/2"
    );
    assert_eq!(faces(&write_buttons(5, 1, 2)), vec![pair("➡", "list 5 2")]);
    assert!(write_buttons(5, 1, 1).is_empty());
}

#[test]
fn languages_to_choose_from() {
    let i18n = bilingual();
    let menu = write_language_menu(&i18n);
    match &menu[0] {
        Block::Grid { buttons, width } => {
            assert_eq!(*width, 2);
            assert_eq!(
                faces(buttons),
                vec![
                    pair("English ✔", "set_language en-GB"),
                    pair("Português ", "set_language pt-BR"),
                ]
            );
        },
        Block::Row(_) => panic!("a grid was expected"),
    }
    assert_eq!(requested_language(&words("set_language pt-BR")), Some("pt-BR".to_string()));
    assert_eq!(requested_language(&words("set_language")), None);
    assert_eq!(language_set(&i18n), "Now speaking English");
    let mut code = "en-GB".to_string();
    assert!(!change_language(&mut code, "en-GB"));
    assert!(change_language(&mut code, "pt-BR"));
    assert_eq!(code, "pt-BR");
}

#[test]
fn greeting_depends_on_the_chat() {
    let i18n = bilingual();
    match start(&i18n, ChatKind::User, "maiden_bot") {
        Greeting::Welcome { text, link } => {
            assert_eq!(text, "Hello");
            assert_eq!(link.text, "Add me");
            assert_eq!(link.data, "t.me/maiden_bot?startgroup=new");
        },
        _ => panic!("a welcome was expected"),
    }
    match start(&i18n, ChatKind::Group, "maiden_bot") {
        Greeting::NotPrivate { text, link } => {
            assert_eq!(text, "Write me in private");
            assert_eq!(link.text, "Private");
            assert_eq!(link.data, "t.me/maiden_bot?start");
        },
        _ => panic!("a notice was expected"),
    }
    assert!(matches!(start(&i18n, ChatKind::Channel, "maiden_bot"), Greeting::Nothing));
}
