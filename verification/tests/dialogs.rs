use holy_maiden_bot::database::models::{Character, Gender};
use holy_maiden_bot::modules::i18n::{I18n, Locale};
use holy_maiden_bot::routers::admin::aliases::{
    add_alias, check_alias, delete_alias, has_room, rename_alias, AliasCheck, Renamed,
    MAX_ALIASES, MAX_ALIAS_LENGTH, MIN_ALIAS_LENGTH,
};
use holy_maiden_bot::routers::admin::character::{
    add_next, answer_choice, answer_photo, answer_text, card, continue_menu, delete_step,
    menu_text, new_character, parse_delete, parse_edit, parse_index, photo_file_name, signed,
    table, write_menu, AddAction, AddStage, Answered, CharacterEdit, DeleteStep, Menu, Step,
    CHOICE_TIMEOUT, LIST_FILE_CAPTION, LIST_FILE_NAME,
};
use holy_maiden_bot::routers::admin::menus::{write_confirm_delete_menu, write_edit_data};
use holy_maiden_bot::routers::admin::notices::{
    alias_notice, ask_field, confirm_delete, error_occurred, field_updated, object_created,
    object_deleted, operation_cancelled, Field,
};
use holy_maiden_bot::routers::keyboard::{Block, Button};

fn words(text: &str) -> Vec<String> {
    text.split(' ').map(|word| word.to_string()).collect()
}

fn english() -> I18n {
    let entries = [
        ("ask_field", "Send the {field} ({timeout}s)"),
        ("name", "Name"),
        ("title", "Title"),
        ("artist", "Artist"),
        ("aliases", "Aliases"),
        ("photo", "Photo"),
        ("gender", "Gender"),
        ("stars", "Stars"),
        ("link", "Link"),
        ("alias", "Alias"),
        ("artist_name", "Artist Name"),
        ("field_updated", "Updated the {field}"),
        ("error_occurred", "Could not store the {field}"),
        ("operation_cancelled", "Cancelled: {reason}"),
        ("timeout", "time is up"),
        ("alias_too_short", "At least {min} letters"),
        ("alias_too_long", "At most {max} letters"),
        ("alias_already_exists", "Known already"),
        ("confirm_delete", "Delete {object} {id}?"),
        ("object_created", "{object} created"),
        ("object_deleted", "{object} {id} deleted"),
        ("character", "Character"),
        ("character_info", "{gender} {id}. {name} {bubble}"),
        ("select_button", "Choose"),
        ("edit_button", "Edit"),
        ("delete_button", "Delete"),
        ("back_button", "Back"),
        ("add_button", "Add"),
        ("rename_button", "Rename"),
        ("cancel_button", "Cancel"),
        ("confirm_button", "Confirm"),
        ("continue_button", "Continue"),
        ("male_button", "Male"),
        ("female_button", "Female"),
        ("other_button", "Other"),
    ];
    let mut i18n = I18n::new("en-GB");
    i18n.add_locale(Locale {
        code: "en-GB".to_string(),
        entries: entries.iter().map(|(k, v)| (k.to_string(), v.to_string())).collect(),
    });
    i18n
}

fn aria() -> Character {
    Character {
        id: 7,
        name: "Aria".to_string(),
        stars: 3,
        image: None,
        gender: Gender::Female,
        artist: "Bob".to_string(),
        aliases: vec!["Ari".to_string(), "Nightshade".to_string()],
        liked_by: Vec::new(),
        series_id: 3,
        image_link: ".".to_string(),
        anilist_id: None,
    }
}

fn row(block: &Block) -> Vec<(String, String)> {
    match block {
        Block::Row(buttons) => faces(buttons),
        Block::Grid { .. } => panic!("a row was expected"),
    }
}

fn grid(block: &Block) -> (Vec<(String, String)>, usize) {
    match block {
        Block::Grid { buttons, width } => (faces(buttons), *width),
        Block::Row(_) => panic!("a grid was expected"),
    }
}

fn faces(buttons: &Vec<Button>) -> Vec<(String, String)> {
    buttons.iter().map(|b| (b.text.clone(), b.data.clone())).collect()
}

fn pair(text: &str, data: &str) -> (String, String) {
    (text.to_string(), data.to_string())
}

#[test]
fn alias_rules() {
    assert_eq!(MAX_ALIASES, 5);
    assert_eq!(MIN_ALIAS_LENGTH, 3);
    assert_eq!(MAX_ALIAS_LENGTH, 15);
    let aliases = vec!["Ari".to_string()];
    assert_eq!(check_alias(&aliases, "ab"), AliasCheck::TooShort);
    assert_eq!(check_alias(&aliases, "abc"), AliasCheck::Fits);
    assert_eq!(check_alias(&aliases, "123456789012345"), AliasCheck::Fits);
    assert_eq!(check_alias(&aliases, "1234567890123456"), AliasCheck::TooLong);
    assert_eq!(check_alias(&aliases, "Ari"), AliasCheck::AlreadyExists);
    assert_eq!(check_alias(&aliases, "ari"), AliasCheck::Fits);
    assert_eq!(check_alias(&aliases, "éé"), AliasCheck::Fits);
    assert_eq!(check_alias(&aliases, "é"), AliasCheck::TooShort);
}

#[test]
fn aliases_are_added_trimmed() {
    let mut aliases = vec!["Ari".to_string()];
    assert_eq!(add_alias(&mut aliases, " Shade "), AliasCheck::Fits);
    assert_eq!(aliases, vec!["Ari", "Shade"]);
    assert_eq!(add_alias(&mut aliases, "Ari"), AliasCheck::AlreadyExists);
    assert_eq!(add_alias(&mut aliases, "x"), AliasCheck::TooShort);
    assert_eq!(aliases, vec!["Ari", "Shade"]);
    assert!(has_room(&aliases));
    let full = vec!["a".to_string(); 5];
    assert!(!has_room(&full));
}

#[test]
fn aliases_are_renamed_and_deleted() {
    let mut aliases = vec!["Ari".to_string(), "Shade".to_string()];
    assert_eq!(rename_alias(&mut aliases, 1, " Night "), Renamed::Done);
    assert_eq!(aliases, vec!["Ari", "Night"]);
    assert_eq!(rename_alias(&mut aliases, 2, "Other"), Renamed::Missing);
    assert_eq!(rename_alias(&mut aliases, 0, "Night"), Renamed::Unfit(AliasCheck::AlreadyExists));
    assert_eq!(rename_alias(&mut aliases, 0, "ab"), Renamed::Unfit(AliasCheck::TooShort));
    assert_eq!(aliases, vec!["Ari", "Night"]);
    assert!(!delete_alias(&mut aliases, 2));
    assert!(delete_alias(&mut aliases, 0));
    assert_eq!(aliases, vec!["Night"]);
}

#[test]
fn edit_payloads_are_read() {
    assert_eq!(parse_edit(&words("char edit 7")), Some((7, CharacterEdit::Main)));
    assert_eq!(parse_edit(&words("char edit 7 back")), Some((7, CharacterEdit::Back)));
    assert_eq!(parse_edit(&words("char edit 7 name")), Some((7, CharacterEdit::Name)));
    assert_eq!(parse_edit(&words("char edit 7 artist")), Some((7, CharacterEdit::Artist)));
    assert_eq!(parse_edit(&words("char edit 7 artist name")), Some((7, CharacterEdit::ArtistName)));
    assert_eq!(parse_edit(&words("char edit 7 artist link")), Some((7, CharacterEdit::ArtistLink)));
    assert_eq!(parse_edit(&words("char edit 7 artist other")), Some((7, CharacterEdit::Main)));
    assert_eq!(parse_edit(&words("char edit 7 aliases")), Some((7, CharacterEdit::Aliases)));
    assert_eq!(parse_edit(&words("char edit 7 aliases add")), Some((7, CharacterEdit::AliasAdd)));
    assert_eq!(
        parse_edit(&words("char edit 7 aliases edit 2")),
        Some((7, CharacterEdit::AliasEdit(2)))
    );
    assert_eq!(parse_edit(&words("char edit 7 aliases edit")), Some((7, CharacterEdit::Aliases)));
    assert_eq!(
        parse_edit(&words("char edit 7 aliases delete 1")),
        Some((7, CharacterEdit::AliasDelete(1)))
    );
    assert_eq!(
        parse_edit(&words("char edit 7 aliases delete 1 confirm")),
        Some((7, CharacterEdit::AliasDeleteConfirmed(1)))
    );
    assert_eq!(
        parse_edit(&words("char edit 7 aliases rename 0")),
        Some((7, CharacterEdit::AliasRename(0)))
    );
    assert_eq!(
        parse_edit(&words("char edit 7 aliases rename x")),
        Some((7, CharacterEdit::Aliases))
    );
    assert_eq!(parse_edit(&words("char edit 7 photo")), Some((7, CharacterEdit::Photo)));
    assert_eq!(parse_edit(&words("char edit 7 gender")), Some((7, CharacterEdit::Gender)));
    assert_eq!(parse_edit(&words("char edit 7 stars")), Some((7, CharacterEdit::Stars)));
    assert_eq!(parse_edit(&words("char edit 7 nothing")), Some((7, CharacterEdit::Main)));
    assert_eq!(parse_edit(&words("char edit -7")), Some((-7, CharacterEdit::Main)));
    assert_eq!(parse_edit(&words("char edit")), None);
    assert_eq!(parse_edit(&words("char edit seven")), None);
    assert_eq!(parse_edit(&words("char edit 99999999999999999999")), None);
}

#[test]
fn numbers_are_read_strictly() {
    assert_eq!(parse_index("0"), Some(0));
    assert_eq!(parse_index("+12"), Some(12));
    assert_eq!(parse_index("007"), Some(7));
    assert_eq!(parse_index("-1"), None);
    assert_eq!(parse_index(""), None);
    assert_eq!(parse_index("+"), None);
    assert_eq!(parse_index(" 1"), None);
    assert_eq!(parse_index("1a"), None);
    assert_eq!(parse_index("99999999999999999999999"), None);
}

#[test]
fn first_steps_of_the_dialog() {
    assert_eq!(CHOICE_TIMEOUT, 10);
    let mut character = aria();
    assert_eq!(CharacterEdit::Main.first_step(&mut character), Step::Show(Menu::Main));
    assert_eq!(CharacterEdit::Back.first_step(&mut character), Step::Show(Menu::Card));
    assert_eq!(CharacterEdit::Name.first_step(&mut character), Step::Ask(Field::Name));
    assert_eq!(CharacterEdit::Artist.first_step(&mut character), Step::Show(Menu::Artist));
    assert_eq!(CharacterEdit::ArtistName.first_step(&mut character), Step::Ask(Field::ArtistName));
    assert_eq!(CharacterEdit::ArtistLink.first_step(&mut character), Step::Ask(Field::ImageLink));
    assert_eq!(CharacterEdit::AliasAdd.first_step(&mut character), Step::Ask(Field::Alias));
    assert_eq!(
        CharacterEdit::AliasEdit(1).first_step(&mut character),
        Step::Show(Menu::AliasSelected(1))
    );
    assert_eq!(
        CharacterEdit::AliasDelete(1).first_step(&mut character),
        Step::Show(Menu::ConfirmAliasDelete(1))
    );
    assert_eq!(
        CharacterEdit::AliasDelete(2).first_step(&mut character),
        Step::Show(Menu::Aliases)
    );
    assert_eq!(CharacterEdit::AliasRename(1).first_step(&mut character), Step::Ask(Field::Alias));
    assert_eq!(CharacterEdit::Photo.first_step(&mut character), Step::Ask(Field::Photo));
    assert_eq!(CharacterEdit::Gender.first_step(&mut character), Step::Choose(Menu::Gender));
    assert_eq!(CharacterEdit::Stars.first_step(&mut character), Step::Choose(Menu::Stars));
    assert_eq!(character.aliases, vec!["Ari", "Nightshade"]);
}

#[test]
fn confirmed_deletion_removes_the_alias() {
    let mut character = aria();
    assert_eq!(
        CharacterEdit::AliasDeleteConfirmed(0).first_step(&mut character),
        Step::Store(Menu::Aliases)
    );
    assert_eq!(character.aliases, vec!["Nightshade"]);
    assert_eq!(
        CharacterEdit::AliasDeleteConfirmed(5).first_step(&mut character),
        Step::Show(Menu::Aliases)
    );
    assert_eq!(character.aliases, vec!["Nightshade"]);
}

#[test]
fn sixth_alias_is_refused() {
    let mut character = aria();
    character.aliases = vec!["a1".to_string(); 5];
    assert_eq!(CharacterEdit::AliasAdd.first_step(&mut character), Step::TellMaxAliases);
}

#[test]
fn menus_after_requests() {
    assert_eq!(CharacterEdit::AliasAdd.menu_after(), Menu::Aliases);
    assert_eq!(CharacterEdit::AliasRename(1).menu_after(), Menu::Aliases);
    assert_eq!(CharacterEdit::Name.menu_after(), Menu::Main);
    assert_eq!(CharacterEdit::Stars.menu_after(), Menu::Main);
}

#[test]
fn text_answers_are_applied() {
    let mut character = aria();
    assert_eq!(answer_text(CharacterEdit::Name, &mut character, "  Aria N. "), Answered::Stored);
    assert_eq!(character.name, "Aria N.");
    assert_eq!(answer_text(CharacterEdit::ArtistName, &mut character, " Ann\n"), Answered::Stored);
    assert_eq!(character.artist, "Ann");
    assert_eq!(answer_text(CharacterEdit::ArtistLink, &mut character, " l "), Answered::Stored);
    assert_eq!(character.image_link, "l");
    assert_eq!(answer_text(CharacterEdit::AliasAdd, &mut character, "Queen"), Answered::Stored);
    assert_eq!(character.aliases, vec!["Ari", "Nightshade", "Queen"]);
    assert_eq!(
        answer_text(CharacterEdit::AliasAdd, &mut character, "Ari"),
        Answered::Unfit(AliasCheck::AlreadyExists)
    );
    assert_eq!(
        answer_text(CharacterEdit::AliasRename(0), &mut character, "Q"),
        Answered::Unfit(AliasCheck::TooShort)
    );
    assert_eq!(answer_text(CharacterEdit::AliasRename(9), &mut character, "Lady"), Answered::Nothing);
    assert_eq!(answer_text(CharacterEdit::AliasRename(0), &mut character, "Lady"), Answered::Stored);
    assert_eq!(character.aliases, vec!["Lady", "Nightshade", "Queen"]);
    assert_eq!(answer_text(CharacterEdit::Main, &mut character, "x"), Answered::Nothing);
    assert_eq!(character.id, 7);
    assert_eq!(character.stars, 3);
}

#[test]
fn choices_and_photos_are_applied() {
    let mut character = aria();
    assert!(answer_choice(CharacterEdit::Gender, &mut character, "male"));
    assert_eq!(character.gender, Gender::Male);
    assert!(answer_choice(CharacterEdit::Gender, &mut character, "anything"));
    assert_eq!(character.gender, Gender::Other);
    assert!(answer_choice(CharacterEdit::Stars, &mut character, "5"));
    assert_eq!(character.stars, 5);
    assert!(!answer_choice(CharacterEdit::Stars, &mut character, "256"));
    assert!(!answer_choice(CharacterEdit::Stars, &mut character, "many"));
    assert_eq!(character.stars, 5);
    assert!(!answer_choice(CharacterEdit::Name, &mut character, "5"));
    answer_photo(&mut character, vec![1, 2, 3]);
    assert_eq!(character.image, Some(vec![1, 2, 3]));
}

#[test]
fn prompts_and_notices() {
    let i18n = english();
    assert_eq!(ask_field(&i18n, Field::Name), "Send the Name (15s)");
    assert_eq!(ask_field(&i18n, Field::Alias), "Send the Alias (10s)");
    assert_eq!(ask_field(&i18n, Field::Photo), "Send the Photo (30s)");
    assert_eq!(Field::Banner.timeout(), 30);
    assert_eq!(Field::ImageLink.key(), "image_link");
    assert_eq!(field_updated(&i18n, Field::ArtistName), "Updated the artist name");
    assert_eq!(error_occurred(&i18n, "aliases"), "Could not store the aliases");
    assert_eq!(operation_cancelled(&i18n), "Cancelled: time is up");
    assert_eq!(alias_notice(&i18n, AliasCheck::TooShort), "At least 3 letters");
    assert_eq!(alias_notice(&i18n, AliasCheck::TooLong), "At most 15 letters");
    assert_eq!(alias_notice(&i18n, AliasCheck::AlreadyExists), "Known already");
    assert_eq!(alias_notice(&i18n, AliasCheck::Fits), "Updated the alias");
    assert_eq!(confirm_delete(&i18n, "alias", "Ari"), "Delete alias Ari?");
    assert_eq!(object_created(&i18n, "character"), "Character created");
    assert_eq!(object_deleted(&i18n, "character", 7), "Character 7 deleted");
}

#[test]
fn card_and_main_menu() {
    let i18n = english();
    let character = aria();
    assert_eq!(card(&i18n, &character), "🌸 7. Aria 🔵");
    assert_eq!(menu_text(&i18n, &character, Menu::Main), Some("🌸 7. Aria 🔵".to_string()));
    assert_eq!(menu_text(&i18n, &character, Menu::Card), None);
    assert_eq!(menu_text(&i18n, &character, Menu::Aliases), Some("Choose".to_string()));
    assert_eq!(
        menu_text(&i18n, &character, Menu::ConfirmAliasDelete(1)),
        Some("Delete alias Nightshade?".to_string())
    );
    assert_eq!(menu_text(&i18n, &character, Menu::ConfirmAliasDelete(2)), None);
    let menu = write_menu(&i18n, &character, Menu::Main);
    assert_eq!(menu.len(), 2);
    let (fields, width) = grid(&menu[0]);
    assert_eq!(width, 2);
    assert_eq!(
        fields,
        vec![
            pair("Name ✏", "char edit 7 name"),
            pair("Artist ✏", "char edit 7 artist"),
            pair("Aliases ✏", "char edit 7 aliases"),
            pair("Photo ✏", "char edit 7 photo"),
            pair("Gender ✏", "char edit 7 gender"),
            pair("Stars ✏", "char edit 7 stars"),
        ]
    );
    assert_eq!(row(&menu[1]), vec![pair("Back", "char edit 7 back")]);
    let card_menu = write_menu(&i18n, &character, Menu::Card);
    assert_eq!(card_menu.len(), 1);
    assert_eq!(
        row(&card_menu[0]),
        vec![pair("Edit", "char edit 7"), pair("Delete", "char delete 7")]
    );
}

#[test]
fn payloads_of_the_menu_are_read_back() {
    let i18n = english();
    let character = aria();
    let menu = write_menu(&i18n, &character, Menu::AliasSelected(1));
    let rename = &row(&menu[1])[0].1;
    assert_eq!(parse_edit(&words(rename)), Some((7, CharacterEdit::AliasRename(1))));
    let delete = &row(&menu[1])[2].1;
    assert_eq!(parse_edit(&words(delete)), Some((7, CharacterEdit::AliasDelete(1))));
    let confirm = &row(&write_menu(&i18n, &character, Menu::ConfirmAliasDelete(1))[0])[1].1;
    assert_eq!(parse_edit(&words(confirm)), Some((7, CharacterEdit::AliasDeleteConfirmed(1))));
}

#[test]
fn alias_and_choice_menus() {
    let i18n = english();
    let character = aria();
    let aliases = write_menu(&i18n, &character, Menu::Aliases);
    assert_eq!(aliases.len(), 4);
    assert_eq!(row(&aliases[0]), vec![pair("Ari", "char edit 7 aliases edit 0")]);
    assert_eq!(row(&aliases[1]), vec![pair("Nightshade", "char edit 7 aliases edit 1")]);
    assert_eq!(row(&aliases[2]), vec![pair("Add", "char edit 7 aliases add")]);
    assert_eq!(row(&aliases[3]), vec![pair("Back", "char edit 7")]);
    let selected = write_menu(&i18n, &character, Menu::AliasSelected(1));
    assert_eq!(row(&selected[0]), vec![pair("Ari", "char edit 7 aliases edit 0")]);
    assert_eq!(
        row(&selected[1]),
        vec![
            pair("Rename", "char edit 7 aliases rename 1"),
            pair("Cancel", "char edit 7 aliases"),
            pair("Delete", "char edit 7 aliases delete 1"),
        ]
    );
    let confirm = write_menu(&i18n, &character, Menu::ConfirmAliasDelete(1));
    assert_eq!(
        row(&confirm[0]),
        vec![
            pair("Cancel", "char edit 7 aliases"),
            pair("Confirm", "char edit 7 aliases delete 1 confirm"),
        ]
    );
    let artist = write_menu(&i18n, &character, Menu::Artist);
    assert_eq!(
        row(&artist[0]),
        vec![pair("Name ✏", "char edit 7 artist name"), pair("Link ✏", "char edit 7 artist link")]
    );
    assert_eq!(row(&artist[1]), vec![pair("Back", "char edit 7")]);
    let gender = write_menu(&i18n, &character, Menu::Gender);
    assert_eq!(row(&gender[0]), vec![pair("Male", "male"), pair("Female", "female")]);
    assert_eq!(row(&gender[1]), vec![pair("Other", "other")]);
    let stars = write_menu(&i18n, &character, Menu::Stars);
    let (buttons, width) = grid(&stars[0]);
    assert_eq!(width, 3);
    assert_eq!(
        buttons,
        vec![
            pair("⚪ (1)", "1"),
            pair("🟢 (2)", "2"),
            pair("🔵 (3)", "3"),
            pair("🟣 (4)", "4"),
            pair("🔴 (5)", "5"),
            pair("🟡 (6)", "6"),
        ]
    );
}

#[test]
fn adding_a_character() {
    let first = new_character(None, " Aria ").unwrap();
    assert_eq!(first.id, 2);
    assert_eq!(first.name, "Aria");
    assert_eq!(first.stars, 1);
    assert_eq!(first.gender, Gender::Male);
    assert_eq!(new_character(Some(41), "B").unwrap().id, 42);
    assert!(new_character(Some(i64::MAX), "B").is_none());
    assert_eq!(
        add_next(AddStage::AwaitingName, true, Some(42)),
        (AddStage::AwaitingPhoto { id: 42 }, AddAction::Create)
    );
    assert_eq!(add_next(AddStage::AwaitingName, true, None), (AddStage::Done, AddAction::Create));
    assert_eq!(add_next(AddStage::AwaitingName, false, None), (AddStage::Done, AddAction::Cancel));
    assert_eq!(
        add_next(AddStage::AwaitingPhoto { id: 42 }, true, None),
        (AddStage::Done, AddAction::AttachPhoto { id: 42 })
    );
    assert_eq!(
        add_next(AddStage::AwaitingPhoto { id: 42 }, false, None),
        (AddStage::Done, AddAction::CancelAndDelete { id: 42 })
    );
    assert_eq!(add_next(AddStage::Done, true, None), (AddStage::Done, AddAction::Nothing));
    assert_eq!(photo_file_name(42), "char_42.jpg");
    assert_eq!(signed("card", 5), "card<a href='tg://user?id=5'>ㅤ</a>");
    let i18n = english();
    assert_eq!(row(&continue_menu(&i18n, 42)[0]), vec![pair("Continue", "char edit 42")]);
    assert_eq!(write_edit_data("series", 3, " back"), "series edit 3 back");
}

#[test]
fn deleting_a_character() {
    assert_eq!(parse_delete(&words("char delete 7")), Some((7, false)));
    assert_eq!(parse_delete(&words("char delete 7 confirm")), Some((7, true)));
    assert_eq!(parse_delete(&words("char delete 7 confirm x")), Some((7, false)));
    assert_eq!(parse_delete(&words("char delete")), None);
    assert_eq!(parse_delete(&words("char delete x")), None);
    assert_eq!(delete_step(true, true), DeleteStep::Delete);
    assert_eq!(delete_step(true, false), DeleteStep::TellUnknownThenAsk);
    assert_eq!(delete_step(false, true), DeleteStep::Ask);
    assert_eq!(delete_step(false, false), DeleteStep::Ask);
    let i18n = english();
    assert_eq!(
        row(&write_confirm_delete_menu(&i18n, "char", 7)[0]),
        vec![pair("Cancel", "char edit 7 back"), pair("Confirm", "char delete 7 confirm")]
    );
}

#[test]
fn list_of_all_characters() {
    let mut other = aria();
    other.id = 12;
    other.name = "Bo".to_string();
    other.gender = Gender::Other;
    other.stars = 5;
    assert_eq!(
        table(&vec![aria(), other]),
        "id | name | stars | gender\n\n7 | Aria | 3 | Female\n12 | Bo | 5 | Other"
    );
    assert_eq!(table(&Vec::new()), "id | name | stars | gender\n");
    assert_eq!(LIST_FILE_NAME, "characters.txt");
    assert_eq!(LIST_FILE_CAPTION, "Lista de personagens");
}
