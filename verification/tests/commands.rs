use bb_core::commands::{parse_command, write_map_id, Command};
use bb_core::file::FileData;

#[test]
fn every_command_name_is_known() {
    let expected = [
        ("make_save", Command::MakeSave),
        ("save", Command::Save),
        ("return_weapons", Command::ReturnWeapons),
        ("return_armors", Command::ReturnArmors),
        ("return_items", Command::ReturnItems),
        ("return_gem_effects", Command::ReturnGemEffects),
        ("return_rune_effects", Command::ReturnRuneEffects),
        ("get_version", Command::GetVersion),
        ("set_flag", Command::SetFlag),
        ("apply_mask", Command::ApplyMask),
        ("get_isz", Command::GetIsz),
        ("fix_isz", Command::FixIsz),
        ("get_playtime", Command::GetPlaytime),
        ("set_playtime", Command::SetPlaytime),
        ("edit_quantity", Command::EditQuantity),
        ("transform_item", Command::TransformItem),
        ("edit_stat", Command::EditStat),
        ("edit_effect", Command::EditEffect),
        ("edit_shape", Command::EditShape),
        ("edit_slot", Command::EditSlot),
        ("equip_gem", Command::EquipGem),
        ("unequip_gem", Command::UnequipGem),
        ("export_appearance", Command::ExportAppearance),
        ("import_appearance", Command::ImportAppearance),
        ("set_username", Command::SetUsername),
        ("add_item", Command::AddItem),
        ("edit_coordinates", Command::EditCoordinates),
        ("teleport", Command::Teleport),
        ("change_weapon_level", Command::ChangeWeaponLevel),
    ];
    for (name, command) in expected.iter() {
        assert_eq!(parse_command(name), Ok(*command));
    }
}

#[test]
fn unknown_command_is_refused_with_its_name() {
    assert_eq!(parse_command("launch"), Err(String::from("Unknown command `launch`")));
    assert_eq!(parse_command(""), Err(String::from("Unknown command ``")));
    assert_eq!(parse_command("Save"), Err(String::from("Unknown command `Save`")));
    assert_eq!(parse_command("save "), Err(String::from("Unknown command `save `")));
}

#[test]
fn map_id_goes_into_bytes_four_to_seven() {
    let mut file = FileData { bytes: vec![1, 2, 3, 4, 5, 6, 7, 8, 9, 10], flags_offset: 3, resources_path: String::from("res") };
    write_map_id(&mut file, &[0x15, 0x24]);
    assert_eq!(file.bytes, vec![1, 2, 3, 4, 0, 0, 0x24, 0x15, 9, 10]);
    assert_eq!(file.flags_offset, 3);
    assert_eq!(file.resources_path, "res");
}

#[test]
fn map_id_in_a_file_of_eight_bytes() {
    let mut file = FileData { bytes: vec![0xFF; 8], flags_offset: 0, resources_path: String::new() };
    write_map_id(&mut file, &[1, 2, 3]);
    assert_eq!(file.bytes, vec![0xFF, 0xFF, 0xFF, 0xFF, 0, 0, 2, 1]);
    write_map_id(&mut file, &[1, 2]);
    assert_eq!(file.bytes, vec![0xFF, 0xFF, 0xFF, 0xFF, 0, 0, 2, 1]);
}
