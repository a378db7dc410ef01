//! Boss records: each boss has flags whose current value is read from the
//! save file.

use vstd::prelude::*;
use crate::file::FileData;

verus! {

/// A flag of a boss: where it lies in the flag area, the values it takes
/// when the boss is dead or alive, and the value found in the file.
#[derive(Clone, Copy, Debug, PartialEq)]
pub struct Flag {
    pub rel_offset: usize,
    pub dead_value: u8,
    pub alive_value: u8,
    pub current_value: u8,
}

/// A boss and its flags.
#[derive(Clone, Debug, PartialEq)]
pub struct Boss {
    pub name: String,
    pub flags: Vec<Flag>,
}

/// What a boss is, as plain values.
pub struct BossView {
    pub name: Seq<char>,
    pub flags: Seq<Flag>,
}

impl View for Boss {
    type V = BossView;

    open spec fn view(&self) -> BossView {
        BossView { name: self.name@, flags: self.flags@ }
    }
}

/// The bosses of a list, as plain values.
pub open spec fn bosses_view(bosses: Seq<Boss>) -> Seq<BossView> {
    bosses.map_values(|b: Boss| b@)
}

/// A flag whose current value is the one the file holds for it.
pub open spec fn read_flag(file: FileData, flag: Flag) -> Flag {
    Flag {
        rel_offset: flag.rel_offset,
        dead_value: flag.dead_value,
        alive_value: flag.alive_value,
        current_value: file.flag_at(flag.rel_offset as int),
    }
}

/// A boss whose flags all carry the values the file holds for them.
pub open spec fn read_boss(file: FileData, boss: BossView) -> BossView {
    BossView { name: boss.name, flags: boss.flags.map_values(|f: Flag| read_flag(file, f)) }
}

/// The bosses, each with its flags read from the file.
pub open spec fn populated(file: FileData, bosses: Seq<BossView>) -> Seq<BossView> {
    bosses.map_values(|b: BossView| read_boss(file, b))
}

/// Every flag of every boss lies inside the file.
pub open spec fn flags_in_file(file: FileData, bosses: Seq<BossView>) -> bool {
    forall|i: int, j: int|
        0 <= i < bosses.len() && 0 <= j < bosses[i].flags.len() ==> file.has_flag(
            #[trigger] bosses[i].flags[j].rel_offset as int,
        )
}

/// Fills in the current value of every flag of every boss from the file;
/// names, offsets and the dead and alive values stay as they were.
pub fn populate(file: &FileData, bosses: Vec<Boss>) -> (result: Vec<Boss>)
    requires
        flags_in_file(*file, bosses_view(bosses@)),
    ensures
        bosses_view(result@) == populated(*file, bosses_view(bosses@)),
{
    let ghost target = populated(*file, bosses_view(bosses@));
    let mut result: Vec<Boss> = Vec::new();
    let n = bosses.len();
    for i in 0..n
        invariant
            n == bosses@.len(),
            target == populated(*file, bosses_view(bosses@)),
            flags_in_file(*file, bosses_view(bosses@)),
            result@.len() == i,
            forall|k: int| 0 <= k < i ==> #[trigger] result@[k]@ == target[k],
    {
        let boss = &bosses[i];
        let ghost bv = bosses_view(bosses@)[i as int];
        assert(bv == boss@);
        let mut flags: Vec<Flag> = Vec::new();
        let m = boss.flags.len();
        for j in 0..m
            invariant
                m == boss.flags@.len(),
                bv == boss@,
                0 <= i < bosses_view(bosses@).len(),
                bosses_view(bosses@)[i as int] == bv,
                flags_in_file(*file, bosses_view(bosses@)),
                flags@.len() == j,
                forall|k: int| 0 <= k < j ==> #[trigger] flags@[k] == read_flag(*file, boss.flags@[k]),
        {
            let flag = &boss.flags[j];
            assert(file.has_flag(bosses_view(bosses@)[i as int].flags[j as int].rel_offset as int));
            let value = file.get_flag(flag.rel_offset);
            flags.push(
                Flag {
                    rel_offset: flag.rel_offset,
                    dead_value: flag.dead_value,
                    alive_value: flag.alive_value,
                    current_value: value,
                },
            );
        }
        let name = boss.name.clone();
        let new_boss = Boss { name, flags };
        assert(new_boss@.flags =~= read_boss(*file, bv).flags);
        result.push(new_boss);
    }
    assert(bosses_view(result@) =~= target);
    result
}

/// Filling in the flags changes only their current values: the bosses,
/// their names, their flags' offsets and their dead and alive values stay,
/// and each current value is the file's byte at the flag area's start plus
/// the flag's offset.
pub proof fn law_populate_keeps_layout(file: FileData, bosses: Seq<BossView>)
    ensures
        populated(file, bosses).len() == bosses.len(),
        forall|i: int|
            0 <= i < bosses.len() ==> {
                &&& (#[trigger] populated(file, bosses)[i]).name == bosses[i].name
                &&& populated(file, bosses)[i].flags.len() == bosses[i].flags.len()
                &&& forall|j: int|
                    0 <= j < bosses[i].flags.len() ==> {
                        let old_flag = bosses[i].flags[j];
                        let new_flag = #[trigger] populated(file, bosses)[i].flags[j];
                        &&& new_flag.rel_offset == old_flag.rel_offset
                        &&& new_flag.dead_value == old_flag.dead_value
                        &&& new_flag.alive_value == old_flag.alive_value
                        &&& new_flag.current_value == file.bytes@[file.flags_offset
                            + old_flag.rel_offset]
                    }
            },
{
}

/// The values the flags held before do not matter: filling in the flags
/// from a file gives the same bosses whatever file they were filled from
/// before. In particular, filling them twice from one file is filling them
/// once.
pub proof fn law_populate_forgets_earlier_values(
    file: FileData,
    earlier: FileData,
    bosses: Seq<BossView>,
)
    ensures
        populated(file, populated(earlier, bosses)) == populated(file, bosses),
        populated(file, populated(file, bosses)) == populated(file, bosses),
{
    let twice = populated(file, populated(earlier, bosses));
    let once = populated(file, bosses);
    assert forall|i: int| 0 <= i < bosses.len() implies #[trigger] twice[i] == once[i] by {
        assert(twice[i].flags =~= once[i].flags);
    }
    assert(twice =~= once);
    let again = populated(file, populated(file, bosses));
    assert forall|i: int| 0 <= i < bosses.len() implies #[trigger] again[i] == once[i] by {
        assert(again[i].flags =~= once[i].flags);
    }
    assert(again =~= once);
}

/// Two lists of bosses that differ at most in their flags' current values.
pub open spec fn same_but_current_values(a: Seq<BossView>, b: Seq<BossView>) -> bool {
    &&& a.len() == b.len()
    &&& forall|i: int|
        0 <= i < a.len() ==> {
            &&& (#[trigger] a[i]).name == b[i].name
            &&& a[i].flags.len() == b[i].flags.len()
            &&& forall|j: int|
                0 <= j < a[i].flags.len() ==> {
                    &&& (#[trigger] a[i].flags[j]).rel_offset == b[i].flags[j].rel_offset
                    &&& a[i].flags[j].dead_value == b[i].flags[j].dead_value
                    &&& a[i].flags[j].alive_value == b[i].flags[j].alive_value
                }
        }
}

/// The incoming current values are ignored: two lists of bosses that differ
/// only in them are filled in alike.
pub proof fn law_populate_ignores_current_values(
    file: FileData,
    a: Seq<BossView>,
    b: Seq<BossView>,
)
    requires
        same_but_current_values(a, b),
    ensures
        populated(file, a) == populated(file, b),
{
    let pa = populated(file, a);
    let pb = populated(file, b);
    assert forall|i: int| 0 <= i < a.len() implies #[trigger] pa[i] == pb[i] by {
        assert forall|j: int| 0 <= j < a[i].flags.len() implies #[trigger] pa[i].flags[j]
            == pb[i].flags[j] by {
            assert(a[i].flags[j].rel_offset == b[i].flags[j].rel_offset);
        }
        assert(pa[i].flags =~= pb[i].flags);
    }
    assert(pa =~= pb);
}

} // verus!
