//! The decisions of the editor's command handler on a loaded save.

use vstd::prelude::*;
use crate::commands::{Command, map_id_field, write_map_id};
use crate::save::{
    SaveModel,
    ArticleKey,
    categories_view,
    category_of,
    article_from,
    find_category,
    find_article,
};

verus! {

/// The arguments a command may carry; each command reads only its own.
pub struct CommandArgs {
    /// The two bytes of the map id of a teleport.
    pub map_id: Vec<u8>,
    /// The index of the article a transformation is for.
    pub index: usize,
    /// The id of the article a transformation is for.
    pub id: u32,
    /// The article type code whose category holds that article.
    pub article_type: u8,
    /// Whether that article is looked for in the storage box.
    pub is_storage: bool,
}

/// What handling a command on the save gives.
pub enum Answer {
    /// The command does not work on a loaded save.
    NoSave,
    /// The bytes of the save file.
    Bytes(Vec<u8>),
    /// The map id was written into the file.
    MapWritten,
    /// The article to transform, at this position of its category.
    ArticleAt(usize),
    /// A save is loaded for the command's own edit.
    Loaded,
}

/// Where an article lies.
#[derive(Clone, Copy, Debug, PartialEq, Eq)]
pub enum Location {
    Inventory,
    Storage,
}

/// The location that a storage flag names.
pub fn location_of(is_storage: bool) -> (l: Location)
    ensures
        l == (if is_storage {
            Location::Storage
        } else {
            Location::Inventory
        }),
{
    if is_storage {
        Location::Storage
    } else {
        Location::Inventory
    }
}

/// Whether a command works on the loaded save.
pub open spec fn needs_save(c: Command) -> bool {
    !(c is MakeSave || c is ReturnWeapons || c is ReturnArmors || c is ReturnItems
        || c is ReturnGemEffects || c is ReturnRuneEffects || c is GetVersion)
}

/// Whether a command works on the loaded save.
pub fn command_needs_save(c: Command) -> (r: bool)
    ensures
        r == needs_save(c),
{
    match c {
        Command::MakeSave | Command::ReturnWeapons | Command::ReturnArmors | Command::ReturnItems
        | Command::ReturnGemEffects | Command::ReturnRuneEffects | Command::GetVersion => false,
        _ => true,
    }
}

/// The categories an article is looked for in: the storage box's or the
/// inventory's.
pub open spec fn chosen_categories(s: SaveModel, is_storage: bool) -> Seq<(u8, Seq<ArticleKey>)> {
    if is_storage {
        categories_view(s.storage@)
    } else {
        categories_view(s.inventory@)
    }
}

/// The inputs on which handling a command does its work: a teleport needs a
/// file of at least eight bytes and a map id of two, and a transformation
/// needs a category of the given type where it looks.
pub open spec fn handles(save: Option<SaveModel>, command: Command, args: CommandArgs) -> bool {
    match save {
        None => true,
        Some(s) => {
            &&& (command is Teleport ==> s.file.bytes@.len() >= 8 && args.map_id@.len() >= 2)
            &&& (command is TransformItem ==> category_of(
                chosen_categories(s, args.is_storage),
                args.article_type,
            ) is Some)
        },
    }
}

/// The articles of the category a transformation looks in.
pub open spec fn transform_category(s: SaveModel, args: CommandArgs) -> Seq<ArticleKey> {
    let cats = chosen_categories(s, args.is_storage);
    cats[category_of(cats, args.article_type).unwrap()].1
}

/// Handles a command on the (possibly absent) loaded save. Commands that
/// work on a save are refused with "No save loaded" when there is none.
/// `Save` answers the file's bytes, `Teleport` writes the map id into the
/// file, `TransformItem` finds the article to transform or refuses with
/// "item not found", and the other commands answer that a save is loaded.
pub fn handle(save: &mut Option<SaveModel>, command: Command, args: &CommandArgs) -> (r: Result<
    Answer,
    String,
>)
    requires
        handles(*old(save), command, *args),
    ensures
        needs_save(command) && *old(save) is None ==> (r matches Err(m) && m@ == "No save loaded"@),
        !needs_save(command) ==> r matches Ok(Answer::NoSave),
        !(command is Teleport) || *old(save) is None ==> *final(save) == *old(save),
        command is Save && *old(save) is Some ==> (r matches Ok(Answer::Bytes(b)) && b@ == old(
            save,
        ).unwrap().file.bytes@),
        command is Teleport && *old(save) is Some ==> {
            let s = old(save).unwrap();
            &&& r matches Ok(Answer::MapWritten)
            &&& (*final(save) matches Some(t) && t.file.bytes@ == s.file.bytes@.subrange(0, 4)
                + map_id_field(args.map_id@) + s.file.bytes@.subrange(
                8,
                s.file.bytes@.len() as int,
            ) && t.file.flags_offset == s.file.flags_offset && t.file.resources_path
                == s.file.resources_path && t.inventory == s.inventory && t.storage == s.storage)
        },
        command is TransformItem && *old(save) is Some ==> match article_from(
            transform_category(old(save).unwrap(), *args),
            args.id,
            args.index,
            0,
        ) {
            Some(p) => (r matches Ok(Answer::ArticleAt(q)) && q == p),
            None => (r matches Err(m) && m@ == "item not found"@),
        },
        needs_save(command) && *old(save) is Some && !(command is Save || command is Teleport
            || command is TransformItem) ==> r matches Ok(Answer::Loaded),
{
    if !command_needs_save(command) {
        return Ok(Answer::NoSave);
    }
    match save {
        None => Err(String::from_str("No save loaded")),
        Some(s) => {
            match command {
                Command::Save => Ok(Answer::Bytes(s.file.bytes.clone())),
                Command::Teleport => {
                    write_map_id(&mut s.file, args.map_id.as_slice());
                    Ok(Answer::MapWritten)
                },
                Command::TransformItem => {
                    let cats = if args.is_storage {
                        &s.storage
                    } else {
                        &s.inventory
                    };
                    match find_category(cats, args.article_type) {
                        Some(p) => match find_article(&cats[p].1, args.id, args.index) {
                            Some(q) => Ok(Answer::ArticleAt(q)),
                            None => Err(String::from_str("item not found")),
                        },
                        None => Err(String::from_str("item not found")),
                    }
                },
                _ => Ok(Answer::Loaded),
            }
        },
    }
}

/// A reference to the upgrade an effect or shape edit is for: one set in a
/// slot of an article, or a loose one.
#[derive(Clone, Copy, Debug, PartialEq, Eq)]
pub enum UpgradeRef {
    Equipped { article_type: u8, article_index: usize, slot_index: usize },
    Loose { upgrade_type: u8, upgrade_index: usize },
}

/// The message when the referenced upgrade is not in the save.
pub fn not_found_message(target: &UpgradeRef) -> (m: String)
    ensures
        m@ == (match target {
            UpgradeRef::Equipped { .. } => "equipped upgrade not found"@,
            UpgradeRef::Loose { .. } => "upgrade not found"@,
        }),
{
    match target {
        UpgradeRef::Equipped { .. } => String::from_str("equipped upgrade not found"),
        UpgradeRef::Loose { .. } => String::from_str("upgrade not found"),
    }
}

/// The message when an upgrade's effect or shape could not be changed.
pub fn edit_failure_message(is_effect: bool) -> (m: String)
    ensures
        m@ == (if is_effect {
            "Failed to edit the upgrade's effect"@
        } else {
            "Failed to edit the upgrade's shape"@
        }),
{
    if is_effect {
        String::from_str("Failed to edit the upgrade's effect")
    } else {
        String::from_str("Failed to edit the upgrade's shape")
    }
}

/// Exactly the commands that build a save, serve an embedded table or give
/// the version run without a loaded save; every other command needs one.
pub proof fn law_commands_without_save(c: Command)
    ensures
        !needs_save(c) <==> (c == Command::MakeSave || c == Command::ReturnWeapons || c
            == Command::ReturnArmors || c == Command::ReturnItems || c == Command::ReturnGemEffects
            || c == Command::ReturnRuneEffects || c == Command::GetVersion),
{
}

/// A transformation looks for its article in the storage box's categories
/// when the storage flag is set, and in the inventory's otherwise.
pub proof fn law_transform_looks_where_the_flag_says(s: SaveModel, is_storage: bool)
    ensures
        is_storage ==> chosen_categories(s, is_storage) == categories_view(s.storage@),
        !is_storage ==> chosen_categories(s, is_storage) == categories_view(s.inventory@),
        chosen_categories(s, is_storage).len() == (if is_storage {
            s.storage@.len()
        } else {
            s.inventory@.len()
        }),
{
}

} // verus!
