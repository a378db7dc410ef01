use bb_core::commands::Command;
use bb_core::file::FileData;
use bb_core::handler::{
    edit_failure_message, handle, location_of, not_found_message, Answer, CommandArgs, Location,
    UpgradeRef,
};
use bb_core::save::{ArticleKey, SaveModel};

fn key(id: u32, index: usize, article_type: u8) -> ArticleKey {
    ArticleKey { id, index, article_type }
}

fn no_args() -> CommandArgs {
    CommandArgs { map_id: vec![], index: 0, id: 0, article_type: 0, is_storage: false }
}

fn a_save() -> SaveModel {
    SaveModel {
        file: FileData { bytes: vec![1, 2, 3, 4, 5, 6, 7, 8, 9], flags_offset: 0, resources_path: String::new() },
        inventory: vec![(1u8, vec![key(10, 0, 1), key(11, 3, 1)])],
        storage: vec![(1u8, vec![key(11, 4, 1)])],
    }
}

#[test]
fn commands_on_the_save_need_one() {
    let mut save: Option<SaveModel> = None;
    for c in [Command::Save, Command::SetFlag, Command::Teleport, Command::TransformItem, Command::EditEffect] {
        match handle(&mut save, c, &no_args()) {
            Err(m) => assert_eq!(m, "No save loaded"),
            Ok(_) => panic!("a command ran without a save"),
        }
    }
    assert!(save.is_none());
}

#[test]
fn commands_without_the_save_run_without_one() {
    let mut save: Option<SaveModel> = None;
    for c in [Command::MakeSave, Command::ReturnWeapons, Command::ReturnRuneEffects, Command::GetVersion] {
        assert!(matches!(handle(&mut save, c, &no_args()), Ok(Answer::NoSave)));
    }
}

#[test]
fn save_answers_the_bytes() {
    let mut save = Some(a_save());
    match handle(&mut save, Command::Save, &no_args()) {
        Ok(Answer::Bytes(b)) => assert_eq!(b, vec![1, 2, 3, 4, 5, 6, 7, 8, 9]),
        _ => panic!("save gave no bytes"),
    }
    assert_eq!(save.unwrap().file.bytes, vec![1, 2, 3, 4, 5, 6, 7, 8, 9]);
}

#[test]
fn teleport_writes_the_map_id() {
    let mut save = Some(a_save());
    let args = CommandArgs { map_id: vec![0x18, 0x01], ..no_args() };
    assert!(matches!(handle(&mut save, Command::Teleport, &args), Ok(Answer::MapWritten)));
    assert_eq!(save.unwrap().file.bytes, vec![1, 2, 3, 4, 0, 0, 0x01, 0x18, 9]);
}

#[test]
fn transform_finds_the_article() {
    let mut save = Some(a_save());
    let args = CommandArgs { id: 11, index: 3, article_type: 1, ..no_args() };
    assert!(matches!(handle(&mut save, Command::TransformItem, &args), Ok(Answer::ArticleAt(1))));
    let args = CommandArgs { id: 11, index: 4, article_type: 1, is_storage: true, ..no_args() };
    assert!(matches!(handle(&mut save, Command::TransformItem, &args), Ok(Answer::ArticleAt(0))));
}

#[test]
fn transform_of_a_missing_article_is_refused() {
    let mut save = Some(a_save());
    let args = CommandArgs { id: 11, index: 4, article_type: 1, ..no_args() };
    match handle(&mut save, Command::TransformItem, &args) {
        Err(m) => assert_eq!(m, "item not found"),
        Ok(_) => panic!("found an article that is only in storage"),
    }
}

#[test]
fn other_commands_get_the_loaded_save() {
    let mut save = Some(a_save());
    for c in [Command::SetFlag, Command::EditShape, Command::AddItem, Command::ExportAppearance] {
        assert!(matches!(handle(&mut save, c, &no_args()), Ok(Answer::Loaded)));
    }
}

#[test]
fn upgrade_messages() {
    let equipped = UpgradeRef::Equipped { article_type: 1, article_index: 2, slot_index: 0 };
    let loose = UpgradeRef::Loose { upgrade_type: 0, upgrade_index: 3 };
    assert_eq!(not_found_message(&equipped), "equipped upgrade not found");
    assert_eq!(not_found_message(&loose), "upgrade not found");
    assert_eq!(edit_failure_message(true), "Failed to edit the upgrade's effect");
    assert_eq!(edit_failure_message(false), "Failed to edit the upgrade's shape");
}

#[test]
fn storage_flag_names_the_location() {
    assert_eq!(location_of(true), Location::Storage);
    assert_eq!(location_of(false), Location::Inventory);
}
