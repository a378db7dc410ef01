//! The part of a loaded save that the editor's commands decide on: the
//! file, and the articles of the inventory and of the storage box, filed
//! by article type.

use vstd::prelude::*;
use crate::file::FileData;

verus! {

/// An article as the commands find and file it: its id, its index in the
/// save, and the code of its article type.
#[derive(Clone, Copy, Debug, PartialEq, Eq)]
pub struct ArticleKey {
    pub id: u32,
    pub index: usize,
    pub article_type: u8,
}

/// A loaded save: the file, and the inventory's and the storage box's
/// articles, each as a list of categories (an article type code and the
/// articles of that type).
pub struct SaveModel {
    pub file: FileData,
    pub inventory: Vec<(u8, Vec<ArticleKey>)>,
    pub storage: Vec<(u8, Vec<ArticleKey>)>,
}

/// Categories as plain values.
pub open spec fn categories_view(cats: Seq<(u8, Vec<ArticleKey>)>) -> Seq<(u8, Seq<ArticleKey>)> {
    cats.map_values(|c: (u8, Vec<ArticleKey>)| (c.0, c.1@))
}

/// The position, from `i` on, of the first category of type `t`.
pub open spec fn find_from(cats: Seq<(u8, Seq<ArticleKey>)>, t: u8, i: int) -> Option<int>
    decreases cats.len() - i,
{
    if i < 0 || i >= cats.len() {
        None
    } else if cats[i].0 == t {
        Some(i)
    } else {
        find_from(cats, t, i + 1)
    }
}

/// The position of the category of type `t`, if there is one.
pub open spec fn category_of(cats: Seq<(u8, Seq<ArticleKey>)>, t: u8) -> Option<int> {
    find_from(cats, t, 0)
}

/// Finds the category of type `t`.
pub fn find_category(cats: &Vec<(u8, Vec<ArticleKey>)>, t: u8) -> (r: Option<usize>)
    ensures
        r matches Some(p) ==> category_of(categories_view(cats@), t) == Some(p as int) && p
            < cats@.len(),
        r is None ==> category_of(categories_view(cats@), t) is None,
{
    let ghost cv = categories_view(cats@);
    let n = cats.len();
    let mut i: usize = 0;
    while i < n
        invariant
            n == cats@.len(),
            cv == categories_view(cats@),
            i <= n,
            category_of(cv, t) == find_from(cv, t, i as int),
        decreases n - i,
    {
        assert(cv[i as int].0 == cats@[i as int].0);
        if cats[i].0 == t {
            return Some(i);
        }
        i = i + 1;
    }
    None
}

/// The position, from `i` on, of the first article with this id and index.
pub open spec fn article_from(s: Seq<ArticleKey>, id: u32, index: usize, i: int) -> Option<int>
    decreases s.len() - i,
{
    if i < 0 || i >= s.len() {
        None
    } else if s[i].id == id && s[i].index == index {
        Some(i)
    } else {
        article_from(s, id, index, i + 1)
    }
}

/// Finds the first article with this id and index.
pub fn find_article(articles: &Vec<ArticleKey>, id: u32, index: usize) -> (r: Option<usize>)
    ensures
        r matches Some(p) ==> article_from(articles@, id, index, 0) == Some(p as int) && p
            < articles@.len(),
        r is None ==> article_from(articles@, id, index, 0) is None,
{
    let n = articles.len();
    let mut i: usize = 0;
    while i < n
        invariant
            n == articles@.len(),
            i <= n,
            article_from(articles@, id, index, 0) == article_from(articles@, id, index, i as int),
        decreases n - i,
    {
        if articles[i].id == id && articles[i].index == index {
            return Some(i);
        }
        i = i + 1;
    }
    None
}

/// The articles of a list, without those at the given index.
pub open spec fn without_index(s: Seq<ArticleKey>, index: usize) -> Seq<ArticleKey>
    decreases s.len(),
{
    if s.len() == 0 {
        s
    } else if s.last().index != index {
        without_index(s.drop_last(), index).push(s.last())
    } else {
        without_index(s.drop_last(), index)
    }
}

/// The categories once the articles at `index` have left the category of
/// the old type, when there is one.
pub open spec fn removed_from(cats: Seq<(u8, Seq<ArticleKey>)>, old_type: u8, index: usize) -> Seq<
    (u8, Seq<ArticleKey>),
> {
    match category_of(cats, old_type) {
        Some(p) => cats.update(p, (cats[p].0, without_index(cats[p].1, index))),
        None => cats,
    }
}

/// The categories once `moved` is appended under its type, which gets a
/// new category at the end when there is none.
pub open spec fn filed_under(cats: Seq<(u8, Seq<ArticleKey>)>, moved: ArticleKey) -> Seq<
    (u8, Seq<ArticleKey>),
> {
    match category_of(cats, moved.article_type) {
        Some(q) => cats.update(q, (cats[q].0, cats[q].1.push(moved))),
        None => cats.push((moved.article_type, seq![moved])),
    }
}

/// The categories after an article changed type: the articles at its index
/// leave the old type's category, and the article is appended under its
/// new type.
pub open spec fn refiled(
    cats: Seq<(u8, Seq<ArticleKey>)>,
    old_type: u8,
    index: usize,
    moved: ArticleKey,
) -> Seq<(u8, Seq<ArticleKey>)> {
    filed_under(removed_from(cats, old_type, index), moved)
}

/// Files an article again after a transformation changed its type: the
/// articles at `index` leave the category of `old_type`, and `moved` is
/// appended to the category of its new type.
pub fn refile_transformed(
    inventory: &mut Vec<(u8, Vec<ArticleKey>)>,
    old_type: u8,
    index: usize,
    moved: ArticleKey,
)
    requires
        moved.article_type != old_type,
    ensures
        categories_view(final(inventory)@) == refiled(
            categories_view(old(inventory)@),
            old_type,
            index,
            moved,
        ),
{
    let ghost start = categories_view(inventory@);
    match find_category(inventory, old_type) {
        Some(p) => {
            let (t, list) = inventory.remove(p);
            let mut kept: Vec<ArticleKey> = Vec::new();
            let m = list.len();
            for k in 0..m
                invariant
                    m == list@.len(),
                    kept@ == without_index(list@.take(k as int), index),
            {
                let a = list[k];
                assert(list@.take(k + 1).drop_last() =~= list@.take(k as int));
                if a.index != index {
                    kept.push(a);
                }
            }
            assert(list@.take(m as int) =~= list@);
            inventory.insert(p, (t, kept));
            assert(categories_view(inventory@) =~= removed_from(start, old_type, index));
        },
        None => {},
    }
    let ghost middle = categories_view(inventory@);
    assert(middle == removed_from(start, old_type, index));
    match find_category(inventory, moved.article_type) {
        Some(q) => {
            let (t, mut list) = inventory.remove(q);
            list.push(moved);
            inventory.insert(q, (t, list));
            assert(categories_view(inventory@) =~= filed_under(middle, moved));
        },
        None => {
            let mut list: Vec<ArticleKey> = Vec::new();
            list.push(moved);
            inventory.push((moved.article_type, list));
            assert(categories_view(inventory@) =~= filed_under(middle, moved));
        },
    }
}

/// Looking for a type gives the same answer in two lists of categories
/// whose types agree position by position.
proof fn lemma_find_same_types(
    a: Seq<(u8, Seq<ArticleKey>)>,
    b: Seq<(u8, Seq<ArticleKey>)>,
    t: u8,
    i: int,
)
    requires
        a.len() == b.len(),
        forall|k: int| 0 <= k < a.len() ==> #[trigger] a[k].0 == b[k].0,
    ensures
        find_from(a, t, i) == find_from(b, t, i),
    decreases a.len() - i,
{
    if 0 <= i < a.len() {
        lemma_find_same_types(a, b, t, i + 1);
    }
}

/// A category appended for a type that had none is the one found for it.
proof fn lemma_find_appended(a: Seq<(u8, Seq<ArticleKey>)>, c: (u8, Seq<ArticleKey>), i: int)
    requires
        0 <= i <= a.len(),
        find_from(a, c.0, i) is None,
    ensures
        find_from(a.push(c), c.0, i) == Some(a.len() as int),
    decreases a.len() - i,
{
    if i < a.len() {
        lemma_find_appended(a, c, i + 1);
    }
}

/// What is found is a category of the type looked for.
proof fn lemma_found_has_type(a: Seq<(u8, Seq<ArticleKey>)>, t: u8, i: int)
    ensures
        find_from(a, t, i) matches Some(p) ==> 0 <= p < a.len() && a[p].0 == t,
    decreases a.len() - i,
{
    if 0 <= i < a.len() {
        lemma_found_has_type(a, t, i + 1);
    }
}

/// No article at the given index is left after those at the index are
/// taken out, and the others keep their order.
pub proof fn law_without_index_removes_only_that_index(s: Seq<ArticleKey>, index: usize)
    ensures
        forall|k: int|
            0 <= k < without_index(s, index).len() ==> (#[trigger] without_index(s, index)[k]).index
                != index,
        without_index(s, index) == s.filter(|a: ArticleKey| a.index != index),
    decreases s.len(),
{
    if s.len() > 0 {
        law_without_index_removes_only_that_index(s.drop_last(), index);
        assert(s.filter(|a: ArticleKey| a.index != index) == {
            let f = s.drop_last().filter(|a: ArticleKey| a.index != index);
            if s.last().index != index {
                f.push(s.last())
            } else {
                f
            }
        }) by {
            assert(s == s.drop_last().push(s.last()));
            s.drop_last().lemma_filter_push(s.last(), |a: ArticleKey| a.index != index);
        }
    } else {
        assert(s.filter(|a: ArticleKey| a.index != index) =~= s);
    }
}

/// After refiling, the article is the last one of its new type's category,
/// and every category keeps its type.
pub proof fn law_refiled_article_is_last_of_its_type(
    cats: Seq<(u8, Seq<ArticleKey>)>,
    old_type: u8,
    index: usize,
    moved: ArticleKey,
)
    ensures
        category_of(refiled(cats, old_type, index, moved), moved.article_type) matches Some(q)
            && refiled(cats, old_type, index, moved)[q].1.last() == moved,
        forall|k: int|
            0 <= k < cats.len() ==> (#[trigger] refiled(cats, old_type, index, moved)[k]).0
                == cats[k].0,
{
    let removed = removed_from(cats, old_type, index);
    lemma_found_has_type(cats, old_type, 0);
    lemma_find_same_types(removed, cats, moved.article_type, 0);
    let result = refiled(cats, old_type, index, moved);
    match category_of(removed, moved.article_type) {
        Some(q) => {
            lemma_found_has_type(removed, moved.article_type, 0);
            lemma_find_same_types(result, removed, moved.article_type, 0);
        },
        None => {
            lemma_find_appended(removed, (moved.article_type, seq![moved]), 0);
        },
    }
}

/// The search from position `i` finds the first category of the type at or
/// after `i`, and finds none exactly when no category there has the type.
proof fn lemma_find_from_exact(cats: Seq<(u8, Seq<ArticleKey>)>, t: u8, i: int)
    requires
        0 <= i,
    ensures
        find_from(cats, t, i) is None <==> forall|k: int|
            i <= k < cats.len() ==> (#[trigger] cats[k]).0 != t,
        find_from(cats, t, i) matches Some(p) ==> i <= p < cats.len() && cats[p].0 == t
            && forall|k: int| i <= k < p ==> (#[trigger] cats[k]).0 != t,
    decreases cats.len() - i,
{
    if i < cats.len() {
        lemma_find_from_exact(cats, t, i + 1);
    }
}

/// The search from position `i` finds the first article with the id and
/// index at or after `i`, and finds none exactly when there is none there.
proof fn lemma_article_from_exact(s: Seq<ArticleKey>, id: u32, index: usize, i: int)
    requires
        0 <= i,
    ensures
        article_from(s, id, index, i) is None <==> forall|k: int|
            i <= k < s.len() ==> !((#[trigger] s[k]).id == id && s[k].index == index),
        article_from(s, id, index, i) matches Some(p) ==> i <= p < s.len() && s[p].id == id
            && s[p].index == index && forall|k: int|
            i <= k < p ==> !((#[trigger] s[k]).id == id && s[k].index == index),
    decreases s.len() - i,
{
    if i < s.len() {
        lemma_article_from_exact(s, id, index, i + 1);
    }
}

/// An article lookup finds nothing exactly when no article of the list has
/// the id and the index, and otherwise finds the first position that has
/// both.
pub proof fn law_article_lookup_is_first_match(s: Seq<ArticleKey>, id: u32, index: usize)
    ensures
        article_from(s, id, index, 0) is None <==> forall|k: int|
            0 <= k < s.len() ==> !((#[trigger] s[k]).id == id && s[k].index == index),
        article_from(s, id, index, 0) matches Some(p) ==> 0 <= p < s.len() && s[p].id == id
            && s[p].index == index && forall|k: int|
            0 <= k < p ==> !((#[trigger] s[k]).id == id && s[k].index == index),
{
    lemma_article_from_exact(s, id, index, 0);
}

/// A category lookup finds nothing exactly when no category has the type,
/// and otherwise finds the first category of the type.
pub proof fn law_category_lookup_is_first_match(cats: Seq<(u8, Seq<ArticleKey>)>, t: u8)
    ensures
        category_of(cats, t) is None <==> forall|k: int|
            0 <= k < cats.len() ==> (#[trigger] cats[k]).0 != t,
        category_of(cats, t) matches Some(p) ==> 0 <= p < cats.len() && cats[p].0 == t
            && forall|k: int| 0 <= k < p ==> (#[trigger] cats[k]).0 != t,
{
    lemma_find_from_exact(cats, t, 0);
}

/// No two categories have the same type, as in a map from types to lists.
pub open spec fn types_distinct(cats: Seq<(u8, Seq<ArticleKey>)>) -> bool {
    forall|a: int, b: int|
        0 <= a < cats.len() && 0 <= b < cats.len() && a != b ==> #[trigger] cats[a].0
            != #[trigger] cats[b].0
}

/// Refiling, in categories with distinct types: every category keeps its
/// type; the old type's category keeps exactly its articles at other
/// indexes, in order; the new type's category gets the article appended,
/// or, when there is none, a category holding only the article is added
/// at the end; all other categories stay. So no article at the index is
/// left under the old type.
pub proof fn law_refile_moves_the_article(
    cats: Seq<(u8, Seq<ArticleKey>)>,
    old_type: u8,
    index: usize,
    moved: ArticleKey,
)
    requires
        types_distinct(cats),
        moved.article_type != old_type,
    ensures
        forall|k: int|
            0 <= k < cats.len() ==> (#[trigger] refiled(cats, old_type, index, moved)[k]).0
                == cats[k].0,
        forall|k: int|
            0 <= k < cats.len() && cats[k].0 == old_type ==> (#[trigger] refiled(
                cats,
                old_type,
                index,
                moved,
            )[k]).1 == cats[k].1.filter(|a: ArticleKey| a.index != index),
        forall|k: int|
            0 <= k < cats.len() && cats[k].0 == moved.article_type ==> (#[trigger] refiled(
                cats,
                old_type,
                index,
                moved,
            )[k]).1 == cats[k].1.push(moved),
        forall|k: int|
            0 <= k < cats.len() && cats[k].0 != old_type && cats[k].0 != moved.article_type ==> (
            #[trigger] refiled(cats, old_type, index, moved)[k]).1 == cats[k].1,
        (exists|k: int| 0 <= k < cats.len() && (#[trigger] cats[k]).0 == moved.article_type)
            ==> refiled(cats, old_type, index, moved).len() == cats.len(),
        (forall|k: int| 0 <= k < cats.len() ==> (#[trigger] cats[k]).0 != moved.article_type)
            ==> refiled(cats, old_type, index, moved).len() == cats.len() + 1 && refiled(
            cats,
            old_type,
            index,
            moved,
        )[cats.len() as int] == (moved.article_type, seq![moved]),
        forall|k: int, j: int|
            0 <= k < refiled(cats, old_type, index, moved).len() && refiled(
                cats,
                old_type,
                index,
                moved,
            )[k].0 == old_type && 0 <= j < refiled(cats, old_type, index, moved)[k].1.len()
                ==> (#[trigger] refiled(cats, old_type, index, moved)[k].1[j]).index != index,
{
    let r = refiled(cats, old_type, index, moved);
    let removed = removed_from(cats, old_type, index);
    lemma_find_from_exact(cats, old_type, 0);
    lemma_find_from_exact(cats, moved.article_type, 0);
    match category_of(cats, old_type) {
        Some(p) => {
            law_without_index_removes_only_that_index(cats[p].1, index);
        },
        None => {},
    }
    assert(removed.len() == cats.len());
    assert forall|k: int| 0 <= k < cats.len() implies #[trigger] removed[k].0 == cats[k].0 by {}
    lemma_find_same_types(removed, cats, moved.article_type, 0);
    assert forall|k: int|
        0 <= k < cats.len() && cats[k].0 == old_type implies (#[trigger] removed[k]).1
        == cats[k].1.filter(|a: ArticleKey| a.index != index) by {
        let p = category_of(cats, old_type).unwrap();
        assert(cats[p].0 == cats[k].0);
    }
    assert forall|k: int|
        0 <= k < cats.len() && cats[k].0 != old_type implies (#[trigger] removed[k]).1
        == cats[k].1 by {}
    match category_of(cats, moved.article_type) {
        Some(q) => {
            assert forall|k: int|
                0 <= k < cats.len() && cats[k].0 == moved.article_type implies k == q by {
                assert(cats[q].0 == cats[k].0);
            }
        },
        None => {},
    }
    assert forall|k: int, j: int|
        0 <= k < r.len() && r[k].0 == old_type && 0 <= j < r[k].1.len() implies (#[trigger] r[
        k].1[j]).index != index by {
        if k < cats.len() {
            law_without_index_removes_only_that_index(cats[k].1, index);
            assert(r[k].1 == without_index(cats[k].1, index));
            assert(without_index(cats[k].1, index)[j].index != index);
        }
    }
}

} // verus!
