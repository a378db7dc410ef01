//! The bytes of a loaded save file and the reads the editor makes of them.

use vstd::prelude::*;

verus! {

/// A loaded save file: its bytes, the position of its flag area, and the
/// directory that holds the editor's resource files.
///
/// This is a model of the save file as far as the editor's flag reads go:
/// a flag is the byte at the flag area's start plus the flag's offset. The
/// rest of the save file's layout is not described here.
pub struct FileData {
    pub bytes: Vec<u8>,
    pub flags_offset: usize,
    pub resources_path: String,
}

impl FileData {
    /// Whether the flag at `rel_offset` (from the start of the flag area)
    /// lies inside the file.
    pub open spec fn has_flag(&self, rel_offset: int) -> bool {
        0 <= rel_offset && self.flags_offset + rel_offset < self.bytes.len()
    }

    /// The byte of the flag at `rel_offset` from the start of the flag area.
    pub open spec fn flag_at(&self, rel_offset: int) -> u8 {
        self.bytes@[self.flags_offset + rel_offset]
    }

    /// Reads the flag byte at `rel_offset` from the start of the flag area.
    pub fn get_flag(&self, rel_offset: usize) -> (value: u8)
        requires
            self.has_flag(rel_offset as int),
        ensures
            value == self.flag_at(rel_offset as int),
    {
        self.bytes[self.flags_offset + rel_offset]
    }
}

/// A flag read gives the file's byte at the flag area's start plus the
/// flag's offset, for every file and every offset inside it.
pub proof fn law_flag_is_byte_at_offset(file: FileData, rel_offset: int)
    requires
        file.has_flag(rel_offset),
    ensures
        0 <= file.flags_offset + rel_offset < file.bytes@.len(),
        file.flag_at(rel_offset) == file.bytes@[file.flags_offset + rel_offset],
{
}

} // verus!
