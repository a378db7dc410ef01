//! The commands that the editor's front end sends, and the decisions of
//! those commands that stand apart from the save model.

use vstd::prelude::*;
use crate::file::FileData;
use crate::resources::str_equal;

verus! {

/// A command of the editor's front end.
#[derive(Clone, Copy, Debug, PartialEq, Eq)]
pub enum Command {
    MakeSave,
    Save,
    ReturnWeapons,
    ReturnArmors,
    ReturnItems,
    ReturnGemEffects,
    ReturnRuneEffects,
    GetVersion,
    SetFlag,
    ApplyMask,
    GetIsz,
    FixIsz,
    GetPlaytime,
    SetPlaytime,
    EditQuantity,
    TransformItem,
    EditStat,
    EditEffect,
    EditShape,
    EditSlot,
    EquipGem,
    UnequipGem,
    ExportAppearance,
    ImportAppearance,
    SetUsername,
    AddItem,
    EditCoordinates,
    Teleport,
    ChangeWeaponLevel,
}

/// The command that `name` names, if any.
pub open spec fn command_named(name: Seq<char>) -> Option<Command> {
    if name == "make_save"@ {
        Some(Command::MakeSave)
    } else if name == "save"@ {
        Some(Command::Save)
    } else if name == "return_weapons"@ {
        Some(Command::ReturnWeapons)
    } else if name == "return_armors"@ {
        Some(Command::ReturnArmors)
    } else if name == "return_items"@ {
        Some(Command::ReturnItems)
    } else if name == "return_gem_effects"@ {
        Some(Command::ReturnGemEffects)
    } else if name == "return_rune_effects"@ {
        Some(Command::ReturnRuneEffects)
    } else if name == "get_version"@ {
        Some(Command::GetVersion)
    } else if name == "set_flag"@ {
        Some(Command::SetFlag)
    } else if name == "apply_mask"@ {
        Some(Command::ApplyMask)
    } else if name == "get_isz"@ {
        Some(Command::GetIsz)
    } else if name == "fix_isz"@ {
        Some(Command::FixIsz)
    } else if name == "get_playtime"@ {
        Some(Command::GetPlaytime)
    } else if name == "set_playtime"@ {
        Some(Command::SetPlaytime)
    } else if name == "edit_quantity"@ {
        Some(Command::EditQuantity)
    } else if name == "transform_item"@ {
        Some(Command::TransformItem)
    } else if name == "edit_stat"@ {
        Some(Command::EditStat)
    } else if name == "edit_effect"@ {
        Some(Command::EditEffect)
    } else if name == "edit_shape"@ {
        Some(Command::EditShape)
    } else if name == "edit_slot"@ {
        Some(Command::EditSlot)
    } else if name == "equip_gem"@ {
        Some(Command::EquipGem)
    } else if name == "unequip_gem"@ {
        Some(Command::UnequipGem)
    } else if name == "export_appearance"@ {
        Some(Command::ExportAppearance)
    } else if name == "import_appearance"@ {
        Some(Command::ImportAppearance)
    } else if name == "set_username"@ {
        Some(Command::SetUsername)
    } else if name == "add_item"@ {
        Some(Command::AddItem)
    } else if name == "edit_coordinates"@ {
        Some(Command::EditCoordinates)
    } else if name == "teleport"@ {
        Some(Command::Teleport)
    } else if name == "change_weapon_level"@ {
        Some(Command::ChangeWeaponLevel)
    } else {
        None
    }
}

/// The message that answers a command name that names no command.
pub open spec fn unknown_command_message(name: Seq<char>) -> Seq<char> {
    "Unknown command `"@ + name + "`"@
}

/// Finds the command that `cmd` names; a name that names none is refused
/// with a message that quotes it.
pub fn parse_command(cmd: &str) -> (r: Result<Command, String>)
    ensures
        r matches Ok(c) ==> command_named(cmd@) == Some(c),
        r matches Err(msg) ==> command_named(cmd@) is None && msg@ == unknown_command_message(
            cmd@,
        ) && msg@ == "Unknown command `"@ + cmd@ + "`"@,
{
    if str_equal(cmd, "make_save") {
        return Ok(Command::MakeSave);
    }
    if str_equal(cmd, "save") {
        return Ok(Command::Save);
    }
    if str_equal(cmd, "return_weapons") {
        return Ok(Command::ReturnWeapons);
    }
    if str_equal(cmd, "return_armors") {
        return Ok(Command::ReturnArmors);
    }
    if str_equal(cmd, "return_items") {
        return Ok(Command::ReturnItems);
    }
    if str_equal(cmd, "return_gem_effects") {
        return Ok(Command::ReturnGemEffects);
    }
    if str_equal(cmd, "return_rune_effects") {
        return Ok(Command::ReturnRuneEffects);
    }
    if str_equal(cmd, "get_version") {
        return Ok(Command::GetVersion);
    }
    if str_equal(cmd, "set_flag") {
        return Ok(Command::SetFlag);
    }
    if str_equal(cmd, "apply_mask") {
        return Ok(Command::ApplyMask);
    }
    if str_equal(cmd, "get_isz") {
        return Ok(Command::GetIsz);
    }
    if str_equal(cmd, "fix_isz") {
        return Ok(Command::FixIsz);
    }
    if str_equal(cmd, "get_playtime") {
        return Ok(Command::GetPlaytime);
    }
    if str_equal(cmd, "set_playtime") {
        return Ok(Command::SetPlaytime);
    }
    if str_equal(cmd, "edit_quantity") {
        return Ok(Command::EditQuantity);
    }
    if str_equal(cmd, "transform_item") {
        return Ok(Command::TransformItem);
    }
    if str_equal(cmd, "edit_stat") {
        return Ok(Command::EditStat);
    }
    if str_equal(cmd, "edit_effect") {
        return Ok(Command::EditEffect);
    }
    if str_equal(cmd, "edit_shape") {
        return Ok(Command::EditShape);
    }
    if str_equal(cmd, "edit_slot") {
        return Ok(Command::EditSlot);
    }
    if str_equal(cmd, "equip_gem") {
        return Ok(Command::EquipGem);
    }
    if str_equal(cmd, "unequip_gem") {
        return Ok(Command::UnequipGem);
    }
    if str_equal(cmd, "export_appearance") {
        return Ok(Command::ExportAppearance);
    }
    if str_equal(cmd, "import_appearance") {
        return Ok(Command::ImportAppearance);
    }
    if str_equal(cmd, "set_username") {
        return Ok(Command::SetUsername);
    }
    if str_equal(cmd, "add_item") {
        return Ok(Command::AddItem);
    }
    if str_equal(cmd, "edit_coordinates") {
        return Ok(Command::EditCoordinates);
    }
    if str_equal(cmd, "teleport") {
        return Ok(Command::Teleport);
    }
    if str_equal(cmd, "change_weapon_level") {
        return Ok(Command::ChangeWeaponLevel);
    }
    let mut msg = String::from_str("Unknown command `");
    msg.append(cmd);
    msg.append("`");
    Err(msg)
}

/// The four bytes of the map id field, from the two bytes of a map id.
pub open spec fn map_id_field(map_id: Seq<u8>) -> Seq<u8> {
    seq![0u8, 0u8, map_id[1], map_id[0]]
}

/// Writes a map id into bytes 4 to 7 of the file, the place a character is
/// loaded into; every other byte stays as it was.
pub fn write_map_id(file: &mut FileData, map_id: &[u8])
    requires
        old(file).bytes@.len() >= 8,
        map_id@.len() >= 2,
    ensures
        final(file).bytes@ == old(file).bytes@.subrange(0, 4) + map_id_field(map_id@)
            + old(file).bytes@.subrange(8, old(file).bytes@.len() as int),
        final(file).bytes@.len() == old(file).bytes@.len(),
        final(file).bytes@[4] == 0,
        final(file).bytes@[5] == 0,
        final(file).bytes@[6] == map_id@[1],
        final(file).bytes@[7] == map_id@[0],
        forall|k: int|
            0 <= k < old(file).bytes@.len() && !(4 <= k < 8) ==> #[trigger] final(file).bytes@[k]
                == old(file).bytes@[k],
        final(file).flags_offset == old(file).flags_offset,
        final(file).resources_path == old(file).resources_path,
{
    let le_map: [u8; 4] = [0, 0, map_id[1], map_id[0]];
    let ghost before = file.bytes@;
    for j in 4..8usize
        invariant
            file.bytes@.len() == before.len(),
            before.len() >= 8,
            file.flags_offset == old(file).flags_offset,
            file.resources_path == old(file).resources_path,
            forall|k: int| 0 <= k < before.len() && !(4 <= k < j) ==> #[trigger] file.bytes@[k] == before[k],
            forall|k: int| 4 <= k < j ==> #[trigger] file.bytes@[k] == le_map@[k - 4],
    {
        file.bytes[j] = le_map[j - 4];
    }
    assert(file.bytes@ =~= before.subrange(0, 4) + map_id_field(map_id@) + before.subrange(
        8,
        before.len() as int,
    ));
}

/// Writing a map id `[a, b]` puts 0, 0, b, a at positions 4 to 7 and keeps
/// every other byte and the length, for every file and every map id.
pub proof fn law_map_id_bytes(bytes: Seq<u8>, map_id: Seq<u8>)
    requires
        bytes.len() >= 8,
        map_id.len() >= 2,
    ensures
        ({
            let written = bytes.subrange(0, 4) + map_id_field(map_id) + bytes.subrange(
                8,
                bytes.len() as int,
            );
            &&& written.len() == bytes.len()
            &&& written[4] == 0
            &&& written[5] == 0
            &&& written[6] == map_id[1]
            &&& written[7] == map_id[0]
            &&& forall|k: int|
                0 <= k < bytes.len() && !(4 <= k < 8) ==> #[trigger] written[k] == bytes[k]
        }),
{
}

/// The name by which the front end sends each command.
pub open spec fn command_name(c: Command) -> Seq<char> {
    match c {
        Command::MakeSave => "make_save"@,
        Command::Save => "save"@,
        Command::ReturnWeapons => "return_weapons"@,
        Command::ReturnArmors => "return_armors"@,
        Command::ReturnItems => "return_items"@,
        Command::ReturnGemEffects => "return_gem_effects"@,
        Command::ReturnRuneEffects => "return_rune_effects"@,
        Command::GetVersion => "get_version"@,
        Command::SetFlag => "set_flag"@,
        Command::ApplyMask => "apply_mask"@,
        Command::GetIsz => "get_isz"@,
        Command::FixIsz => "fix_isz"@,
        Command::GetPlaytime => "get_playtime"@,
        Command::SetPlaytime => "set_playtime"@,
        Command::EditQuantity => "edit_quantity"@,
        Command::TransformItem => "transform_item"@,
        Command::EditStat => "edit_stat"@,
        Command::EditEffect => "edit_effect"@,
        Command::EditShape => "edit_shape"@,
        Command::EditSlot => "edit_slot"@,
        Command::EquipGem => "equip_gem"@,
        Command::UnequipGem => "unequip_gem"@,
        Command::ExportAppearance => "export_appearance"@,
        Command::ImportAppearance => "import_appearance"@,
        Command::SetUsername => "set_username"@,
        Command::AddItem => "add_item"@,
        Command::EditCoordinates => "edit_coordinates"@,
        Command::Teleport => "teleport"@,
        Command::ChangeWeaponLevel => "change_weapon_level"@,
    }
}

/// Each command is found by its own name, and a name finds a command only
/// when it is that command's name.
pub proof fn law_commands_found_by_their_names(c: Command, name: Seq<char>)
    ensures
        command_named(command_name(c)) == Some(c),
        command_named(name) matches Some(d) ==> name == command_name(d),
{
    match c {
        Command::MakeSave => {
            reveal_strlit("make_save");
        },
        Command::Save => {
            reveal_strlit("save");
            reveal_strlit("make_save");
            assert("save"@.len() != "make_save"@.len());
        },
        Command::ReturnWeapons => {
            reveal_strlit("return_weapons");
            reveal_strlit("make_save");
            assert("return_weapons"@.len() != "make_save"@.len());
            reveal_strlit("save");
            assert("return_weapons"@.len() != "save"@.len());
        },
        Command::ReturnArmors => {
            reveal_strlit("return_armors");
            reveal_strlit("make_save");
            assert("return_armors"@.len() != "make_save"@.len());
            reveal_strlit("save");
            assert("return_armors"@.len() != "save"@.len());
            reveal_strlit("return_weapons");
            assert("return_armors"@.len() != "return_weapons"@.len());
        },
        Command::ReturnItems => {
            reveal_strlit("return_items");
            reveal_strlit("make_save");
            assert("return_items"@.len() != "make_save"@.len());
            reveal_strlit("save");
            assert("return_items"@.len() != "save"@.len());
            reveal_strlit("return_weapons");
            assert("return_items"@.len() != "return_weapons"@.len());
            reveal_strlit("return_armors");
            assert("return_items"@.len() != "return_armors"@.len());
        },
        Command::ReturnGemEffects => {
            reveal_strlit("return_gem_effects");
            reveal_strlit("make_save");
            assert("return_gem_effects"@.len() != "make_save"@.len());
            reveal_strlit("save");
            assert("return_gem_effects"@.len() != "save"@.len());
            reveal_strlit("return_weapons");
            assert("return_gem_effects"@.len() != "return_weapons"@.len());
            reveal_strlit("return_armors");
            assert("return_gem_effects"@.len() != "return_armors"@.len());
            reveal_strlit("return_items");
            assert("return_gem_effects"@.len() != "return_items"@.len());
        },
        Command::ReturnRuneEffects => {
            reveal_strlit("return_rune_effects");
            reveal_strlit("make_save");
            assert("return_rune_effects"@.len() != "make_save"@.len());
            reveal_strlit("save");
            assert("return_rune_effects"@.len() != "save"@.len());
            reveal_strlit("return_weapons");
            assert("return_rune_effects"@.len() != "return_weapons"@.len());
            reveal_strlit("return_armors");
            assert("return_rune_effects"@.len() != "return_armors"@.len());
            reveal_strlit("return_items");
            assert("return_rune_effects"@.len() != "return_items"@.len());
            reveal_strlit("return_gem_effects");
            assert("return_rune_effects"@.len() != "return_gem_effects"@.len());
        },
        Command::GetVersion => {
            reveal_strlit("get_version");
            reveal_strlit("make_save");
            assert("get_version"@.len() != "make_save"@.len());
            reveal_strlit("save");
            assert("get_version"@.len() != "save"@.len());
            reveal_strlit("return_weapons");
            assert("get_version"@.len() != "return_weapons"@.len());
            reveal_strlit("return_armors");
            assert("get_version"@.len() != "return_armors"@.len());
            reveal_strlit("return_items");
            assert("get_version"@.len() != "return_items"@.len());
            reveal_strlit("return_gem_effects");
            assert("get_version"@.len() != "return_gem_effects"@.len());
            reveal_strlit("return_rune_effects");
            assert("get_version"@.len() != "return_rune_effects"@.len());
        },
        Command::SetFlag => {
            reveal_strlit("set_flag");
            reveal_strlit("make_save");
            assert("set_flag"@.len() != "make_save"@.len());
            reveal_strlit("save");
            assert("set_flag"@.len() != "save"@.len());
            reveal_strlit("return_weapons");
            assert("set_flag"@.len() != "return_weapons"@.len());
            reveal_strlit("return_armors");
            assert("set_flag"@.len() != "return_armors"@.len());
            reveal_strlit("return_items");
            assert("set_flag"@.len() != "return_items"@.len());
            reveal_strlit("return_gem_effects");
            assert("set_flag"@.len() != "return_gem_effects"@.len());
            reveal_strlit("return_rune_effects");
            assert("set_flag"@.len() != "return_rune_effects"@.len());
            reveal_strlit("get_version");
            assert("set_flag"@.len() != "get_version"@.len());
        },
        Command::ApplyMask => {
            reveal_strlit("apply_mask");
            reveal_strlit("make_save");
            assert("apply_mask"@.len() != "make_save"@.len());
            reveal_strlit("save");
            assert("apply_mask"@.len() != "save"@.len());
            reveal_strlit("return_weapons");
            assert("apply_mask"@.len() != "return_weapons"@.len());
            reveal_strlit("return_armors");
            assert("apply_mask"@.len() != "return_armors"@.len());
            reveal_strlit("return_items");
            assert("apply_mask"@.len() != "return_items"@.len());
            reveal_strlit("return_gem_effects");
            assert("apply_mask"@.len() != "return_gem_effects"@.len());
            reveal_strlit("return_rune_effects");
            assert("apply_mask"@.len() != "return_rune_effects"@.len());
            reveal_strlit("get_version");
            assert("apply_mask"@.len() != "get_version"@.len());
            reveal_strlit("set_flag");
            assert("apply_mask"@.len() != "set_flag"@.len());
        },
        Command::GetIsz => {
            reveal_strlit("get_isz");
            reveal_strlit("make_save");
            assert("get_isz"@.len() != "make_save"@.len());
            reveal_strlit("save");
            assert("get_isz"@.len() != "save"@.len());
            reveal_strlit("return_weapons");
            assert("get_isz"@.len() != "return_weapons"@.len());
            reveal_strlit("return_armors");
            assert("get_isz"@.len() != "return_armors"@.len());
            reveal_strlit("return_items");
            assert("get_isz"@.len() != "return_items"@.len());
            reveal_strlit("return_gem_effects");
            assert("get_isz"@.len() != "return_gem_effects"@.len());
            reveal_strlit("return_rune_effects");
            assert("get_isz"@.len() != "return_rune_effects"@.len());
            reveal_strlit("get_version");
            assert("get_isz"@.len() != "get_version"@.len());
            reveal_strlit("set_flag");
            assert("get_isz"@.len() != "set_flag"@.len());
            reveal_strlit("apply_mask");
            assert("get_isz"@.len() != "apply_mask"@.len());
        },
        Command::FixIsz => {
            reveal_strlit("fix_isz");
            reveal_strlit("make_save");
            assert("fix_isz"@.len() != "make_save"@.len());
            reveal_strlit("save");
            assert("fix_isz"@.len() != "save"@.len());
            reveal_strlit("return_weapons");
            assert("fix_isz"@.len() != "return_weapons"@.len());
            reveal_strlit("return_armors");
            assert("fix_isz"@.len() != "return_armors"@.len());
            reveal_strlit("return_items");
            assert("fix_isz"@.len() != "return_items"@.len());
            reveal_strlit("return_gem_effects");
            assert("fix_isz"@.len() != "return_gem_effects"@.len());
            reveal_strlit("return_rune_effects");
            assert("fix_isz"@.len() != "return_rune_effects"@.len());
            reveal_strlit("get_version");
            assert("fix_isz"@.len() != "get_version"@.len());
            reveal_strlit("set_flag");
            assert("fix_isz"@.len() != "set_flag"@.len());
            reveal_strlit("apply_mask");
            assert("fix_isz"@.len() != "apply_mask"@.len());
            reveal_strlit("get_isz");
            assert("fix_isz"@[0] != "get_isz"@[0]);
        },
        Command::GetPlaytime => {
            reveal_strlit("get_playtime");
            reveal_strlit("make_save");
            assert("get_playtime"@.len() != "make_save"@.len());
            reveal_strlit("save");
            assert("get_playtime"@.len() != "save"@.len());
            reveal_strlit("return_weapons");
            assert("get_playtime"@.len() != "return_weapons"@.len());
            reveal_strlit("return_armors");
            assert("get_playtime"@.len() != "return_armors"@.len());
            reveal_strlit("return_items");
            assert("get_playtime"@[0] != "return_items"@[0]);
            reveal_strlit("return_gem_effects");
            assert("get_playtime"@.len() != "return_gem_effects"@.len());
            reveal_strlit("return_rune_effects");
            assert("get_playtime"@.len() != "return_rune_effects"@.len());
            reveal_strlit("get_version");
            assert("get_playtime"@.len() != "get_version"@.len());
            reveal_strlit("set_flag");
            assert("get_playtime"@.len() != "set_flag"@.len());
            reveal_strlit("apply_mask");
            assert("get_playtime"@.len() != "apply_mask"@.len());
            reveal_strlit("get_isz");
            assert("get_playtime"@.len() != "get_isz"@.len());
            reveal_strlit("fix_isz");
            assert("get_playtime"@.len() != "fix_isz"@.len());
        },
        Command::SetPlaytime => {
            reveal_strlit("set_playtime");
            reveal_strlit("make_save");
            assert("set_playtime"@.len() != "make_save"@.len());
            reveal_strlit("save");
            assert("set_playtime"@.len() != "save"@.len());
            reveal_strlit("return_weapons");
            assert("set_playtime"@.len() != "return_weapons"@.len());
            reveal_strlit("return_armors");
            assert("set_playtime"@.len() != "return_armors"@.len());
            reveal_strlit("return_items");
            assert("set_playtime"@[0] != "return_items"@[0]);
            reveal_strlit("return_gem_effects");
            assert("set_playtime"@.len() != "return_gem_effects"@.len());
            reveal_strlit("return_rune_effects");
            assert("set_playtime"@.len() != "return_rune_effects"@.len());
            reveal_strlit("get_version");
            assert("set_playtime"@.len() != "get_version"@.len());
            reveal_strlit("set_flag");
            assert("set_playtime"@.len() != "set_flag"@.len());
            reveal_strlit("apply_mask");
            assert("set_playtime"@.len() != "apply_mask"@.len());
            reveal_strlit("get_isz");
            assert("set_playtime"@.len() != "get_isz"@.len());
            reveal_strlit("fix_isz");
            assert("set_playtime"@.len() != "fix_isz"@.len());
            reveal_strlit("get_playtime");
            assert("set_playtime"@[0] != "get_playtime"@[0]);
        },
        Command::EditQuantity => {
            reveal_strlit("edit_quantity");
            reveal_strlit("make_save");
            assert("edit_quantity"@.len() != "make_save"@.len());
            reveal_strlit("save");
            assert("edit_quantity"@.len() != "save"@.len());
            reveal_strlit("return_weapons");
            assert("edit_quantity"@.len() != "return_weapons"@.len());
            reveal_strlit("return_armors");
            assert("edit_quantity"@[0] != "return_armors"@[0]);
            reveal_strlit("return_items");
            assert("edit_quantity"@.len() != "return_items"@.len());
            reveal_strlit("return_gem_effects");
            assert("edit_quantity"@.len() != "return_gem_effects"@.len());
            reveal_strlit("return_rune_effects");
            assert("edit_quantity"@.len() != "return_rune_effects"@.len());
            reveal_strlit("get_version");
            assert("edit_quantity"@.len() != "get_version"@.len());
            reveal_strlit("set_flag");
            assert("edit_quantity"@.len() != "set_flag"@.len());
            reveal_strlit("apply_mask");
            assert("edit_quantity"@.len() != "apply_mask"@.len());
            reveal_strlit("get_isz");
            assert("edit_quantity"@.len() != "get_isz"@.len());
            reveal_strlit("fix_isz");
            assert("edit_quantity"@.len() != "fix_isz"@.len());
            reveal_strlit("get_playtime");
            assert("edit_quantity"@.len() != "get_playtime"@.len());
            reveal_strlit("set_playtime");
            assert("edit_quantity"@.len() != "set_playtime"@.len());
        },
        Command::TransformItem => {
            reveal_strlit("transform_item");
            reveal_strlit("make_save");
            assert("transform_item"@.len() != "make_save"@.len());
            reveal_strlit("save");
            assert("transform_item"@.len() != "save"@.len());
            reveal_strlit("return_weapons");
            assert("transform_item"@[0] != "return_weapons"@[0]);
            reveal_strlit("return_armors");
            assert("transform_item"@.len() != "return_armors"@.len());
            reveal_strlit("return_items");
            assert("transform_item"@.len() != "return_items"@.len());
            reveal_strlit("return_gem_effects");
            assert("transform_item"@.len() != "return_gem_effects"@.len());
            reveal_strlit("return_rune_effects");
            assert("transform_item"@.len() != "return_rune_effects"@.len());
            reveal_strlit("get_version");
            assert("transform_item"@.len() != "get_version"@.len());
            reveal_strlit("set_flag");
            assert("transform_item"@.len() != "set_flag"@.len());
            reveal_strlit("apply_mask");
            assert("transform_item"@.len() != "apply_mask"@.len());
            reveal_strlit("get_isz");
            assert("transform_item"@.len() != "get_isz"@.len());
            reveal_strlit("fix_isz");
            assert("transform_item"@.len() != "fix_isz"@.len());
            reveal_strlit("get_playtime");
            assert("transform_item"@.len() != "get_playtime"@.len());
            reveal_strlit("set_playtime");
            assert("transform_item"@.len() != "set_playtime"@.len());
            reveal_strlit("edit_quantity");
            assert("transform_item"@.len() != "edit_quantity"@.len());
        },
        Command::EditStat => {
            reveal_strlit("edit_stat");
            reveal_strlit("make_save");
            assert("edit_stat"@[0] != "make_save"@[0]);
            reveal_strlit("save");
            assert("edit_stat"@.len() != "save"@.len());
            reveal_strlit("return_weapons");
            assert("edit_stat"@.len() != "return_weapons"@.len());
            reveal_strlit("return_armors");
            assert("edit_stat"@.len() != "return_armors"@.len());
            reveal_strlit("return_items");
            assert("edit_stat"@.len() != "return_items"@.len());
            reveal_strlit("return_gem_effects");
            assert("edit_stat"@.len() != "return_gem_effects"@.len());
            reveal_strlit("return_rune_effects");
            assert("edit_stat"@.len() != "return_rune_effects"@.len());
            reveal_strlit("get_version");
            assert("edit_stat"@.len() != "get_version"@.len());
            reveal_strlit("set_flag");
            assert("edit_stat"@.len() != "set_flag"@.len());
            reveal_strlit("apply_mask");
            assert("edit_stat"@.len() != "apply_mask"@.len());
            reveal_strlit("get_isz");
            assert("edit_stat"@.len() != "get_isz"@.len());
            reveal_strlit("fix_isz");
            assert("edit_stat"@.len() != "fix_isz"@.len());
            reveal_strlit("get_playtime");
            assert("edit_stat"@.len() != "get_playtime"@.len());
            reveal_strlit("set_playtime");
            assert("edit_stat"@.len() != "set_playtime"@.len());
            reveal_strlit("edit_quantity");
            assert("edit_stat"@.len() != "edit_quantity"@.len());
            reveal_strlit("transform_item");
            assert("edit_stat"@.len() != "transform_item"@.len());
        },
        Command::EditEffect => {
            reveal_strlit("edit_effect");
            reveal_strlit("make_save");
            assert("edit_effect"@.len() != "make_save"@.len());
            reveal_strlit("save");
            assert("edit_effect"@.len() != "save"@.len());
            reveal_strlit("return_weapons");
            assert("edit_effect"@.len() != "return_weapons"@.len());
            reveal_strlit("return_armors");
            assert("edit_effect"@.len() != "return_armors"@.len());
            reveal_strlit("return_items");
            assert("edit_effect"@.len() != "return_items"@.len());
            reveal_strlit("return_gem_effects");
            assert("edit_effect"@.len() != "return_gem_effects"@.len());
            reveal_strlit("return_rune_effects");
            assert("edit_effect"@.len() != "return_rune_effects"@.len());
            reveal_strlit("get_version");
            assert("edit_effect"@[0] != "get_version"@[0]);
            reveal_strlit("set_flag");
            assert("edit_effect"@.len() != "set_flag"@.len());
            reveal_strlit("apply_mask");
            assert("edit_effect"@.len() != "apply_mask"@.len());
            reveal_strlit("get_isz");
            assert("edit_effect"@.len() != "get_isz"@.len());
            reveal_strlit("fix_isz");
            assert("edit_effect"@.len() != "fix_isz"@.len());
            reveal_strlit("get_playtime");
            assert("edit_effect"@.len() != "get_playtime"@.len());
            reveal_strlit("set_playtime");
            assert("edit_effect"@.len() != "set_playtime"@.len());
            reveal_strlit("edit_quantity");
            assert("edit_effect"@.len() != "edit_quantity"@.len());
            reveal_strlit("transform_item");
            assert("edit_effect"@.len() != "transform_item"@.len());
            reveal_strlit("edit_stat");
            assert("edit_effect"@.len() != "edit_stat"@.len());
        },
        Command::EditShape => {
            reveal_strlit("edit_shape");
            reveal_strlit("make_save");
            assert("edit_shape"@.len() != "make_save"@.len());
            reveal_strlit("save");
            assert("edit_shape"@.len() != "save"@.len());
            reveal_strlit("return_weapons");
            assert("edit_shape"@.len() != "return_weapons"@.len());
            reveal_strlit("return_armors");
            assert("edit_shape"@.len() != "return_armors"@.len());
            reveal_strlit("return_items");
            assert("edit_shape"@.len() != "return_items"@.len());
            reveal_strlit("return_gem_effects");
            assert("edit_shape"@.len() != "return_gem_effects"@.len());
            reveal_strlit("return_rune_effects");
            assert("edit_shape"@.len() != "return_rune_effects"@.len());
            reveal_strlit("get_version");
            assert("edit_shape"@.len() != "get_version"@.len());
            reveal_strlit("set_flag");
            assert("edit_shape"@.len() != "set_flag"@.len());
            reveal_strlit("apply_mask");
            assert("edit_shape"@[0] != "apply_mask"@[0]);
            reveal_strlit("get_isz");
            assert("edit_shape"@.len() != "get_isz"@.len());
            reveal_strlit("fix_isz");
            assert("edit_shape"@.len() != "fix_isz"@.len());
            reveal_strlit("get_playtime");
            assert("edit_shape"@.len() != "get_playtime"@.len());
            reveal_strlit("set_playtime");
            assert("edit_shape"@.len() != "set_playtime"@.len());
            reveal_strlit("edit_quantity");
            assert("edit_shape"@.len() != "edit_quantity"@.len());
            reveal_strlit("transform_item");
            assert("edit_shape"@.len() != "transform_item"@.len());
            reveal_strlit("edit_stat");
            assert("edit_shape"@.len() != "edit_stat"@.len());
            reveal_strlit("edit_effect");
            assert("edit_shape"@.len() != "edit_effect"@.len());
        },
        Command::EditSlot => {
            reveal_strlit("edit_slot");
            reveal_strlit("make_save");
            assert("edit_slot"@[0] != "make_save"@[0]);
            reveal_strlit("save");
            assert("edit_slot"@.len() != "save"@.len());
            reveal_strlit("return_weapons");
            assert("edit_slot"@.len() != "return_weapons"@.len());
            reveal_strlit("return_armors");
            assert("edit_slot"@.len() != "return_armors"@.len());
            reveal_strlit("return_items");
            assert("edit_slot"@.len() != "return_items"@.len());
            reveal_strlit("return_gem_effects");
            assert("edit_slot"@.len() != "return_gem_effects"@.len());
            reveal_strlit("return_rune_effects");
            assert("edit_slot"@.len() != "return_rune_effects"@.len());
            reveal_strlit("get_version");
            assert("edit_slot"@.len() != "get_version"@.len());
            reveal_strlit("set_flag");
            assert("edit_slot"@.len() != "set_flag"@.len());
            reveal_strlit("apply_mask");
            assert("edit_slot"@.len() != "apply_mask"@.len());
            reveal_strlit("get_isz");
            assert("edit_slot"@.len() != "get_isz"@.len());
            reveal_strlit("fix_isz");
            assert("edit_slot"@.len() != "fix_isz"@.len());
            reveal_strlit("get_playtime");
            assert("edit_slot"@.len() != "get_playtime"@.len());
            reveal_strlit("set_playtime");
            assert("edit_slot"@.len() != "set_playtime"@.len());
            reveal_strlit("edit_quantity");
            assert("edit_slot"@.len() != "edit_quantity"@.len());
            reveal_strlit("transform_item");
            assert("edit_slot"@.len() != "transform_item"@.len());
            reveal_strlit("edit_stat");
            assert("edit_slot"@[6] != "edit_stat"@[6]);
            reveal_strlit("edit_effect");
            assert("edit_slot"@.len() != "edit_effect"@.len());
            reveal_strlit("edit_shape");
            assert("edit_slot"@.len() != "edit_shape"@.len());
        },
        Command::EquipGem => {
            reveal_strlit("equip_gem");
            reveal_strlit("make_save");
            assert("equip_gem"@[0] != "make_save"@[0]);
            reveal_strlit("save");
            assert("equip_gem"@.len() != "save"@.len());
            reveal_strlit("return_weapons");
            assert("equip_gem"@.len() != "return_weapons"@.len());
            reveal_strlit("return_armors");
            assert("equip_gem"@.len() != "return_armors"@.len());
            reveal_strlit("return_items");
            assert("equip_gem"@.len() != "return_items"@.len());
            reveal_strlit("return_gem_effects");
            assert("equip_gem"@.len() != "return_gem_effects"@.len());
            reveal_strlit("return_rune_effects");
            assert("equip_gem"@.len() != "return_rune_effects"@.len());
            reveal_strlit("get_version");
            assert("equip_gem"@.len() != "get_version"@.len());
            reveal_strlit("set_flag");
            assert("equip_gem"@.len() != "set_flag"@.len());
            reveal_strlit("apply_mask");
            assert("equip_gem"@.len() != "apply_mask"@.len());
            reveal_strlit("get_isz");
            assert("equip_gem"@.len() != "get_isz"@.len());
            reveal_strlit("fix_isz");
            assert("equip_gem"@.len() != "fix_isz"@.len());
            reveal_strlit("get_playtime");
            assert("equip_gem"@.len() != "get_playtime"@.len());
            reveal_strlit("set_playtime");
            assert("equip_gem"@.len() != "set_playtime"@.len());
            reveal_strlit("edit_quantity");
            assert("equip_gem"@.len() != "edit_quantity"@.len());
            reveal_strlit("transform_item");
            assert("equip_gem"@.len() != "transform_item"@.len());
            reveal_strlit("edit_stat");
            assert("equip_gem"@[1] != "edit_stat"@[1]);
            reveal_strlit("edit_effect");
            assert("equip_gem"@.len() != "edit_effect"@.len());
            reveal_strlit("edit_shape");
            assert("equip_gem"@.len() != "edit_shape"@.len());
            reveal_strlit("edit_slot");
            assert("equip_gem"@[1] != "edit_slot"@[1]);
        },
        Command::UnequipGem => {
            reveal_strlit("unequip_gem");
            reveal_strlit("make_save");
            assert("unequip_gem"@.len() != "make_save"@.len());
            reveal_strlit("save");
            assert("unequip_gem"@.len() != "save"@.len());
            reveal_strlit("return_weapons");
            assert("unequip_gem"@.len() != "return_weapons"@.len());
            reveal_strlit("return_armors");
            assert("unequip_gem"@.len() != "return_armors"@.len());
            reveal_strlit("return_items");
            assert("unequip_gem"@.len() != "return_items"@.len());
            reveal_strlit("return_gem_effects");
            assert("unequip_gem"@.len() != "return_gem_effects"@.len());
            reveal_strlit("return_rune_effects");
            assert("unequip_gem"@.len() != "return_rune_effects"@.len());
            reveal_strlit("get_version");
            assert("unequip_gem"@[0] != "get_version"@[0]);
            reveal_strlit("set_flag");
            assert("unequip_gem"@.len() != "set_flag"@.len());
            reveal_strlit("apply_mask");
            assert("unequip_gem"@.len() != "apply_mask"@.len());
            reveal_strlit("get_isz");
            assert("unequip_gem"@.len() != "get_isz"@.len());
            reveal_strlit("fix_isz");
            assert("unequip_gem"@.len() != "fix_isz"@.len());
            reveal_strlit("get_playtime");
            assert("unequip_gem"@.len() != "get_playtime"@.len());
            reveal_strlit("set_playtime");
            assert("unequip_gem"@.len() != "set_playtime"@.len());
            reveal_strlit("edit_quantity");
            assert("unequip_gem"@.len() != "edit_quantity"@.len());
            reveal_strlit("transform_item");
            assert("unequip_gem"@.len() != "transform_item"@.len());
            reveal_strlit("edit_stat");
            assert("unequip_gem"@.len() != "edit_stat"@.len());
            reveal_strlit("edit_effect");
            assert("unequip_gem"@[0] != "edit_effect"@[0]);
            reveal_strlit("edit_shape");
            assert("unequip_gem"@.len() != "edit_shape"@.len());
            reveal_strlit("edit_slot");
            assert("unequip_gem"@.len() != "edit_slot"@.len());
            reveal_strlit("equip_gem");
            assert("unequip_gem"@.len() != "equip_gem"@.len());
        },
        Command::ExportAppearance => {
            reveal_strlit("export_appearance");
            reveal_strlit("make_save");
            assert("export_appearance"@.len() != "make_save"@.len());
            reveal_strlit("save");
            assert("export_appearance"@.len() != "save"@.len());
            reveal_strlit("return_weapons");
            assert("export_appearance"@.len() != "return_weapons"@.len());
            reveal_strlit("return_armors");
            assert("export_appearance"@.len() != "return_armors"@.len());
            reveal_strlit("return_items");
            assert("export_appearance"@.len() != "return_items"@.len());
            reveal_strlit("return_gem_effects");
            assert("export_appearance"@.len() != "return_gem_effects"@.len());
            reveal_strlit("return_rune_effects");
            assert("export_appearance"@.len() != "return_rune_effects"@.len());
            reveal_strlit("get_version");
            assert("export_appearance"@.len() != "get_version"@.len());
            reveal_strlit("set_flag");
            assert("export_appearance"@.len() != "set_flag"@.len());
            reveal_strlit("apply_mask");
            assert("export_appearance"@.len() != "apply_mask"@.len());
            reveal_strlit("get_isz");
            assert("export_appearance"@.len() != "get_isz"@.len());
            reveal_strlit("fix_isz");
            assert("export_appearance"@.len() != "fix_isz"@.len());
            reveal_strlit("get_playtime");
            assert("export_appearance"@.len() != "get_playtime"@.len());
            reveal_strlit("set_playtime");
            assert("export_appearance"@.len() != "set_playtime"@.len());
            reveal_strlit("edit_quantity");
            assert("export_appearance"@.len() != "edit_quantity"@.len());
            reveal_strlit("transform_item");
            assert("export_appearance"@.len() != "transform_item"@.len());
            reveal_strlit("edit_stat");
            assert("export_appearance"@.len() != "edit_stat"@.len());
            reveal_strlit("edit_effect");
            assert("export_appearance"@.len() != "edit_effect"@.len());
            reveal_strlit("edit_shape");
            assert("export_appearance"@.len() != "edit_shape"@.len());
            reveal_strlit("edit_slot");
            assert("export_appearance"@.len() != "edit_slot"@.len());
            reveal_strlit("equip_gem");
            assert("export_appearance"@.len() != "equip_gem"@.len());
            reveal_strlit("unequip_gem");
            assert("export_appearance"@.len() != "unequip_gem"@.len());
        },
        Command::ImportAppearance => {
            reveal_strlit("import_appearance");
            reveal_strlit("make_save");
            assert("import_appearance"@.len() != "make_save"@.len());
            reveal_strlit("save");
            assert("import_appearance"@.len() != "save"@.len());
            reveal_strlit("return_weapons");
            assert("import_appearance"@.len() != "return_weapons"@.len());
            reveal_strlit("return_armors");
            assert("import_appearance"@.len() != "return_armors"@.len());
            reveal_strlit("return_items");
            assert("import_appearance"@.len() != "return_items"@.len());
            reveal_strlit("return_gem_effects");
            assert("import_appearance"@.len() != "return_gem_effects"@.len());
            reveal_strlit("return_rune_effects");
            assert("import_appearance"@.len() != "return_rune_effects"@.len());
            reveal_strlit("get_version");
            assert("import_appearance"@.len() != "get_version"@.len());
            reveal_strlit("set_flag");
            assert("import_appearance"@.len() != "set_flag"@.len());
            reveal_strlit("apply_mask");
            assert("import_appearance"@.len() != "apply_mask"@.len());
            reveal_strlit("get_isz");
            assert("import_appearance"@.len() != "get_isz"@.len());
            reveal_strlit("fix_isz");
            assert("import_appearance"@.len() != "fix_isz"@.len());
            reveal_strlit("get_playtime");
            assert("import_appearance"@.len() != "get_playtime"@.len());
            reveal_strlit("set_playtime");
            assert("import_appearance"@.len() != "set_playtime"@.len());
            reveal_strlit("edit_quantity");
            assert("import_appearance"@.len() != "edit_quantity"@.len());
            reveal_strlit("transform_item");
            assert("import_appearance"@.len() != "transform_item"@.len());
            reveal_strlit("edit_stat");
            assert("import_appearance"@.len() != "edit_stat"@.len());
            reveal_strlit("edit_effect");
            assert("import_appearance"@.len() != "edit_effect"@.len());
            reveal_strlit("edit_shape");
            assert("import_appearance"@.len() != "edit_shape"@.len());
            reveal_strlit("edit_slot");
            assert("import_appearance"@.len() != "edit_slot"@.len());
            reveal_strlit("equip_gem");
            assert("import_appearance"@.len() != "equip_gem"@.len());
            reveal_strlit("unequip_gem");
            assert("import_appearance"@.len() != "unequip_gem"@.len());
            reveal_strlit("export_appearance");
            assert("import_appearance"@[0] != "export_appearance"@[0]);
        },
        Command::SetUsername => {
            reveal_strlit("set_username");
            reveal_strlit("make_save");
            assert("set_username"@.len() != "make_save"@.len());
            reveal_strlit("save");
            assert("set_username"@.len() != "save"@.len());
            reveal_strlit("return_weapons");
            assert("set_username"@.len() != "return_weapons"@.len());
            reveal_strlit("return_armors");
            assert("set_username"@.len() != "return_armors"@.len());
            reveal_strlit("return_items");
            assert("set_username"@[0] != "return_items"@[0]);
            reveal_strlit("return_gem_effects");
            assert("set_username"@.len() != "return_gem_effects"@.len());
            reveal_strlit("return_rune_effects");
            assert("set_username"@.len() != "return_rune_effects"@.len());
            reveal_strlit("get_version");
            assert("set_username"@.len() != "get_version"@.len());
            reveal_strlit("set_flag");
            assert("set_username"@.len() != "set_flag"@.len());
            reveal_strlit("apply_mask");
            assert("set_username"@.len() != "apply_mask"@.len());
            reveal_strlit("get_isz");
            assert("set_username"@.len() != "get_isz"@.len());
            reveal_strlit("fix_isz");
            assert("set_username"@.len() != "fix_isz"@.len());
            reveal_strlit("get_playtime");
            assert("set_username"@[0] != "get_playtime"@[0]);
            reveal_strlit("set_playtime");
            assert("set_username"@[4] != "set_playtime"@[4]);
            reveal_strlit("edit_quantity");
            assert("set_username"@.len() != "edit_quantity"@.len());
            reveal_strlit("transform_item");
            assert("set_username"@.len() != "transform_item"@.len());
            reveal_strlit("edit_stat");
            assert("set_username"@.len() != "edit_stat"@.len());
            reveal_strlit("edit_effect");
            assert("set_username"@.len() != "edit_effect"@.len());
            reveal_strlit("edit_shape");
            assert("set_username"@.len() != "edit_shape"@.len());
            reveal_strlit("edit_slot");
            assert("set_username"@.len() != "edit_slot"@.len());
            reveal_strlit("equip_gem");
            assert("set_username"@.len() != "equip_gem"@.len());
            reveal_strlit("unequip_gem");
            assert("set_username"@.len() != "unequip_gem"@.len());
            reveal_strlit("export_appearance");
            assert("set_username"@.len() != "export_appearance"@.len());
            reveal_strlit("import_appearance");
            assert("set_username"@.len() != "import_appearance"@.len());
        },
        Command::AddItem => {
            reveal_strlit("add_item");
            reveal_strlit("make_save");
            assert("add_item"@.len() != "make_save"@.len());
            reveal_strlit("save");
            assert("add_item"@.len() != "save"@.len());
            reveal_strlit("return_weapons");
            assert("add_item"@.len() != "return_weapons"@.len());
            reveal_strlit("return_armors");
            assert("add_item"@.len() != "return_armors"@.len());
            reveal_strlit("return_items");
            assert("add_item"@.len() != "return_items"@.len());
            reveal_strlit("return_gem_effects");
            assert("add_item"@.len() != "return_gem_effects"@.len());
            reveal_strlit("return_rune_effects");
            assert("add_item"@.len() != "return_rune_effects"@.len());
            reveal_strlit("get_version");
            assert("add_item"@.len() != "get_version"@.len());
            reveal_strlit("set_flag");
            assert("add_item"@[0] != "set_flag"@[0]);
            reveal_strlit("apply_mask");
            assert("add_item"@.len() != "apply_mask"@.len());
            reveal_strlit("get_isz");
            assert("add_item"@.len() != "get_isz"@.len());
            reveal_strlit("fix_isz");
            assert("add_item"@.len() != "fix_isz"@.len());
            reveal_strlit("get_playtime");
            assert("add_item"@.len() != "get_playtime"@.len());
            reveal_strlit("set_playtime");
            assert("add_item"@.len() != "set_playtime"@.len());
            reveal_strlit("edit_quantity");
            assert("add_item"@.len() != "edit_quantity"@.len());
            reveal_strlit("transform_item");
            assert("add_item"@.len() != "transform_item"@.len());
            reveal_strlit("edit_stat");
            assert("add_item"@.len() != "edit_stat"@.len());
            reveal_strlit("edit_effect");
            assert("add_item"@.len() != "edit_effect"@.len());
            reveal_strlit("edit_shape");
            assert("add_item"@.len() != "edit_shape"@.len());
            reveal_strlit("edit_slot");
            assert("add_item"@.len() != "edit_slot"@.len());
            reveal_strlit("equip_gem");
            assert("add_item"@.len() != "equip_gem"@.len());
            reveal_strlit("unequip_gem");
            assert("add_item"@.len() != "unequip_gem"@.len());
            reveal_strlit("export_appearance");
            assert("add_item"@.len() != "export_appearance"@.len());
            reveal_strlit("import_appearance");
            assert("add_item"@.len() != "import_appearance"@.len());
            reveal_strlit("set_username");
            assert("add_item"@.len() != "set_username"@.len());
        },
        Command::EditCoordinates => {
            reveal_strlit("edit_coordinates");
            reveal_strlit("make_save");
            assert("edit_coordinates"@.len() != "make_save"@.len());
            reveal_strlit("save");
            assert("edit_coordinates"@.len() != "save"@.len());
            reveal_strlit("return_weapons");
            assert("edit_coordinates"@.len() != "return_weapons"@.len());
            reveal_strlit("return_armors");
            assert("edit_coordinates"@.len() != "return_armors"@.len());
            reveal_strlit("return_items");
            assert("edit_coordinates"@.len() != "return_items"@.len());
            reveal_strlit("return_gem_effects");
            assert("edit_coordinates"@.len() != "return_gem_effects"@.len());
            reveal_strlit("return_rune_effects");
            assert("edit_coordinates"@.len() != "return_rune_effects"@.len());
            reveal_strlit("get_version");
            assert("edit_coordinates"@.len() != "get_version"@.len());
            reveal_strlit("set_flag");
            assert("edit_coordinates"@.len() != "set_flag"@.len());
            reveal_strlit("apply_mask");
            assert("edit_coordinates"@.len() != "apply_mask"@.len());
            reveal_strlit("get_isz");
            assert("edit_coordinates"@.len() != "get_isz"@.len());
            reveal_strlit("fix_isz");
            assert("edit_coordinates"@.len() != "fix_isz"@.len());
            reveal_strlit("get_playtime");
            assert("edit_coordinates"@.len() != "get_playtime"@.len());
            reveal_strlit("set_playtime");
            assert("edit_coordinates"@.len() != "set_playtime"@.len());
            reveal_strlit("edit_quantity");
            assert("edit_coordinates"@.len() != "edit_quantity"@.len());
            reveal_strlit("transform_item");
            assert("edit_coordinates"@.len() != "transform_item"@.len());
            reveal_strlit("edit_stat");
            assert("edit_coordinates"@.len() != "edit_stat"@.len());
            reveal_strlit("edit_effect");
            assert("edit_coordinates"@.len() != "edit_effect"@.len());
            reveal_strlit("edit_shape");
            assert("edit_coordinates"@.len() != "edit_shape"@.len());
            reveal_strlit("edit_slot");
            assert("edit_coordinates"@.len() != "edit_slot"@.len());
            reveal_strlit("equip_gem");
            assert("edit_coordinates"@.len() != "equip_gem"@.len());
            reveal_strlit("unequip_gem");
            assert("edit_coordinates"@.len() != "unequip_gem"@.len());
            reveal_strlit("export_appearance");
            assert("edit_coordinates"@.len() != "export_appearance"@.len());
            reveal_strlit("import_appearance");
            assert("edit_coordinates"@.len() != "import_appearance"@.len());
            reveal_strlit("set_username");
            assert("edit_coordinates"@.len() != "set_username"@.len());
            reveal_strlit("add_item");
            assert("edit_coordinates"@.len() != "add_item"@.len());
        },
        Command::Teleport => {
            reveal_strlit("teleport");
            reveal_strlit("make_save");
            assert("teleport"@.len() != "make_save"@.len());
            reveal_strlit("save");
            assert("teleport"@.len() != "save"@.len());
            reveal_strlit("return_weapons");
            assert("teleport"@.len() != "return_weapons"@.len());
            reveal_strlit("return_armors");
            assert("teleport"@.len() != "return_armors"@.len());
            reveal_strlit("return_items");
            assert("teleport"@.len() != "return_items"@.len());
            reveal_strlit("return_gem_effects");
            assert("teleport"@.len() != "return_gem_effects"@.len());
            reveal_strlit("return_rune_effects");
            assert("teleport"@.len() != "return_rune_effects"@.len());
            reveal_strlit("get_version");
            assert("teleport"@.len() != "get_version"@.len());
            reveal_strlit("set_flag");
            assert("teleport"@[0] != "set_flag"@[0]);
            reveal_strlit("apply_mask");
            assert("teleport"@.len() != "apply_mask"@.len());
            reveal_strlit("get_isz");
            assert("teleport"@.len() != "get_isz"@.len());
            reveal_strlit("fix_isz");
            assert("teleport"@.len() != "fix_isz"@.len());
            reveal_strlit("get_playtime");
            assert("teleport"@.len() != "get_playtime"@.len());
            reveal_strlit("set_playtime");
            assert("teleport"@.len() != "set_playtime"@.len());
            reveal_strlit("edit_quantity");
            assert("teleport"@.len() != "edit_quantity"@.len());
            reveal_strlit("transform_item");
            assert("teleport"@.len() != "transform_item"@.len());
            reveal_strlit("edit_stat");
            assert("teleport"@.len() != "edit_stat"@.len());
            reveal_strlit("edit_effect");
            assert("teleport"@.len() != "edit_effect"@.len());
            reveal_strlit("edit_shape");
            assert("teleport"@.len() != "edit_shape"@.len());
            reveal_strlit("edit_slot");
            assert("teleport"@.len() != "edit_slot"@.len());
            reveal_strlit("equip_gem");
            assert("teleport"@.len() != "equip_gem"@.len());
            reveal_strlit("unequip_gem");
            assert("teleport"@.len() != "unequip_gem"@.len());
            reveal_strlit("export_appearance");
            assert("teleport"@.len() != "export_appearance"@.len());
            reveal_strlit("import_appearance");
            assert("teleport"@.len() != "import_appearance"@.len());
            reveal_strlit("set_username");
            assert("teleport"@.len() != "set_username"@.len());
            reveal_strlit("add_item");
            assert("teleport"@[0] != "add_item"@[0]);
            reveal_strlit("edit_coordinates");
            assert("teleport"@.len() != "edit_coordinates"@.len());
        },
        Command::ChangeWeaponLevel => {
            reveal_strlit("change_weapon_level");
            reveal_strlit("make_save");
            assert("change_weapon_level"@.len() != "make_save"@.len());
            reveal_strlit("save");
            assert("change_weapon_level"@.len() != "save"@.len());
            reveal_strlit("return_weapons");
            assert("change_weapon_level"@.len() != "return_weapons"@.len());
            reveal_strlit("return_armors");
            assert("change_weapon_level"@.len() != "return_armors"@.len());
            reveal_strlit("return_items");
            assert("change_weapon_level"@.len() != "return_items"@.len());
            reveal_strlit("return_gem_effects");
            assert("change_weapon_level"@.len() != "return_gem_effects"@.len());
            reveal_strlit("return_rune_effects");
            assert("change_weapon_level"@[0] != "return_rune_effects"@[0]);
            reveal_strlit("get_version");
            assert("change_weapon_level"@.len() != "get_version"@.len());
            reveal_strlit("set_flag");
            assert("change_weapon_level"@.len() != "set_flag"@.len());
            reveal_strlit("apply_mask");
            assert("change_weapon_level"@.len() != "apply_mask"@.len());
            reveal_strlit("get_isz");
            assert("change_weapon_level"@.len() != "get_isz"@.len());
            reveal_strlit("fix_isz");
            assert("change_weapon_level"@.len() != "fix_isz"@.len());
            reveal_strlit("get_playtime");
            assert("change_weapon_level"@.len() != "get_playtime"@.len());
            reveal_strlit("set_playtime");
            assert("change_weapon_level"@.len() != "set_playtime"@.len());
            reveal_strlit("edit_quantity");
            assert("change_weapon_level"@.len() != "edit_quantity"@.len());
            reveal_strlit("transform_item");
            assert("change_weapon_level"@.len() != "transform_item"@.len());
            reveal_strlit("edit_stat");
            assert("change_weapon_level"@.len() != "edit_stat"@.len());
            reveal_strlit("edit_effect");
            assert("change_weapon_level"@.len() != "edit_effect"@.len());
            reveal_strlit("edit_shape");
            assert("change_weapon_level"@.len() != "edit_shape"@.len());
            reveal_strlit("edit_slot");
            assert("change_weapon_level"@.len() != "edit_slot"@.len());
            reveal_strlit("equip_gem");
            assert("change_weapon_level"@.len() != "equip_gem"@.len());
            reveal_strlit("unequip_gem");
            assert("change_weapon_level"@.len() != "unequip_gem"@.len());
            reveal_strlit("export_appearance");
            assert("change_weapon_level"@.len() != "export_appearance"@.len());
            reveal_strlit("import_appearance");
            assert("change_weapon_level"@.len() != "import_appearance"@.len());
            reveal_strlit("set_username");
            assert("change_weapon_level"@.len() != "set_username"@.len());
            reveal_strlit("add_item");
            assert("change_weapon_level"@.len() != "add_item"@.len());
            reveal_strlit("edit_coordinates");
            assert("change_weapon_level"@.len() != "edit_coordinates"@.len());
            reveal_strlit("teleport");
            assert("change_weapon_level"@.len() != "teleport"@.len());
        },
    }
}

} // verus!
