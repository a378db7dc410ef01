use bb_core::bosses::{populate, Boss, Flag};
use bb_core::file::FileData;

fn file_with(bytes: Vec<u8>, flags_offset: usize) -> FileData {
    FileData { bytes, flags_offset, resources_path: String::new() }
}

fn flag(rel_offset: usize, dead_value: u8, alive_value: u8, current_value: u8) -> Flag {
    Flag { rel_offset, dead_value, alive_value, current_value }
}

#[test]
fn get_flag_reads_from_the_flag_area() {
    let file = file_with(vec![9, 9, 1, 2, 3], 2);
    assert_eq!(file.get_flag(0), 1);
    assert_eq!(file.get_flag(2), 3);
}

#[test]
fn populate_reads_every_flag() {
    let file = file_with(vec![0xAA, 0x00, 0x40, 0x80, 0x01], 1);
    let bosses = vec![
        Boss { name: String::from("Cleric Beast"), flags: vec![flag(0, 1, 0, 7), flag(3, 0x80, 0, 7)] },
        Boss { name: String::from("Father Gascoigne"), flags: vec![flag(2, 0x80, 0x40, 0)] },
        Boss { name: String::from("Vicar Amelia"), flags: vec![] },
    ];
    let result = populate(&file, bosses);
    assert_eq!(
        result,
        vec![
            Boss { name: String::from("Cleric Beast"), flags: vec![flag(0, 1, 0, 0x00), flag(3, 0x80, 0, 0x01)] },
            Boss { name: String::from("Father Gascoigne"), flags: vec![flag(2, 0x80, 0x40, 0x80)] },
            Boss { name: String::from("Vicar Amelia"), flags: vec![] },
        ]
    );
}

#[test]
fn populate_of_no_bosses() {
    let file = file_with(vec![], 0);
    assert_eq!(populate(&file, vec![]), vec![]);
}

#[test]
fn populate_twice_is_populate_once() {
    let file = file_with(vec![5, 6, 7], 0);
    let bosses = vec![Boss { name: String::from("Rom"), flags: vec![flag(1, 1, 0, 0), flag(2, 1, 0, 0)] }];
    let once = populate(&file, bosses);
    let twice = populate(&file, once.clone());
    assert_eq!(once, twice);
    assert_eq!(once[0].flags[0].current_value, 6);
    assert_eq!(once[0].flags[1].current_value, 7);
}

#[test]
fn populate_forgets_values_read_from_another_file() {
    let first = file_with(vec![1, 2, 3], 0);
    let second = file_with(vec![4, 5, 6], 0);
    let bosses = vec![Boss { name: String::from("Micolash"), flags: vec![flag(2, 1, 0, 0)] }];
    let from_first_then_second = populate(&second, populate(&first, bosses.clone()));
    assert_eq!(from_first_then_second, populate(&second, bosses));
    assert_eq!(from_first_then_second[0].flags[0].current_value, 6);
}
