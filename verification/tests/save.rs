use bb_core::file::FileData;
use bb_core::save::{find_article, find_category, refile_transformed, ArticleKey};

fn key(id: u32, index: usize, article_type: u8) -> ArticleKey {
    ArticleKey { id, index, article_type }
}

#[test]
fn find_category_gives_the_first_of_a_type() {
    let cats = vec![(1u8, vec![key(10, 0, 1)]), (2u8, vec![]), (1u8, vec![])];
    assert_eq!(find_category(&cats, 1), Some(0));
    assert_eq!(find_category(&cats, 2), Some(1));
    assert_eq!(find_category(&cats, 3), None);
}

#[test]
fn find_article_needs_both_id_and_index() {
    let list = vec![key(10, 0, 1), key(11, 1, 1), key(10, 2, 1), key(10, 2, 1)];
    assert_eq!(find_article(&list, 10, 2), Some(2));
    assert_eq!(find_article(&list, 11, 1), Some(1));
    assert_eq!(find_article(&list, 11, 0), None);
    assert_eq!(find_article(&vec![], 10, 0), None);
}

#[test]
fn refile_moves_an_article_to_an_existing_category() {
    let mut inv = vec![
        (1u8, vec![key(10, 0, 1), key(20, 5, 1), key(30, 6, 1)]),
        (2u8, vec![key(40, 7, 2)]),
    ];
    refile_transformed(&mut inv, 1, 5, key(21, 5, 2));
    assert_eq!(
        inv,
        vec![
            (1u8, vec![key(10, 0, 1), key(30, 6, 1)]),
            (2u8, vec![key(40, 7, 2), key(21, 5, 2)]),
        ]
    );
}

#[test]
fn refile_opens_a_category_for_a_new_type() {
    let mut inv = vec![(1u8, vec![key(20, 5, 1)])];
    refile_transformed(&mut inv, 1, 5, key(22, 5, 3));
    assert_eq!(inv, vec![(1u8, vec![]), (3u8, vec![key(22, 5, 3)])]);
}

#[test]
fn refile_without_an_old_category_only_files() {
    let mut inv: Vec<(u8, Vec<ArticleKey>)> = vec![];
    refile_transformed(&mut inv, 4, 9, key(1, 9, 2));
    assert_eq!(inv, vec![(2u8, vec![key(1, 9, 2)])]);
}

#[test]
fn refile_removes_every_article_at_the_index() {
    let mut inv = vec![(1u8, vec![key(20, 5, 1), key(20, 5, 1), key(3, 4, 1)])];
    refile_transformed(&mut inv, 1, 5, key(21, 5, 2));
    assert_eq!(inv, vec![(1u8, vec![key(3, 4, 1)]), (2u8, vec![key(21, 5, 2)])]);
}

#[test]
fn file_data_keeps_its_path() {
    let file = FileData { bytes: vec![7], flags_offset: 0, resources_path: String::from("res") };
    assert_eq!(file.get_flag(0), 7);
    assert_eq!(file.resources_path, "res");
}
