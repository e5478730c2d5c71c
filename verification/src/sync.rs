//! Translation tables and their spreadsheet: texts taken from the rows of a
//! sheet, and rows made from texts.
//!
//! A sheet is a list of rows, a row a list of fields. The first field of a
//! row is the full key of a text, the others hold the text in one language
//! each.

use vstd::prelude::*;
use crate::model::string_views;
use crate::text::{replace_all, replaced};
use crate::translation::{
    TransItem, TransView, entry_views, generate_translation, item_views, translation_text,
};

verus! {

/// The views of the rows of a sheet, in order.
pub open spec fn row_views(rows: Seq<Vec<String>>) -> Seq<Seq<Seq<char>>> {
    rows.map_values(|row: Vec<String>| string_views(row@))
}

/// The key under which a text of a group stands in a sheet and in a table.
pub open spec fn full_key(prefix: Seq<char>, key: Seq<char>) -> Seq<char> {
    prefix + "_"@ + key
}

/// The first row that stands under the key.
pub open spec fn row_of(rows: Seq<Seq<Seq<char>>>, key: Seq<char>) -> Option<Seq<Seq<char>>>
    decreases rows.len(),
{
    if rows.len() == 0 {
        None
    } else if rows[0].len() > 0 && rows[0][0] == key {
        Some(rows[0])
    } else {
        row_of(rows.skip(1), key)
    }
}

/// The field in the given column of the first row that stands under the key
/// and is long enough to have that column.
pub open spec fn cell_of(rows: Seq<Seq<Seq<char>>>, key: Seq<char>, column: int) -> Option<
    Seq<char>,
>
    decreases rows.len(),
{
    if rows.len() == 0 {
        None
    } else if rows[0].len() > 0 && rows[0][0] == key && 0 <= column < rows[0].len() {
        Some(rows[0][column])
    } else {
        cell_of(rows.skip(1), key, column)
    }
}

/// A text as a column of the sheet gives it: the field of its row in that
/// column where there is one and it is not empty, the text as it was
/// otherwise.
pub open spec fn translated_entry(
    prefix: Seq<char>,
    entry: (Seq<char>, Seq<char>),
    rows: Seq<Seq<Seq<char>>>,
    column: int,
) -> (Seq<char>, Seq<char>) {
    match cell_of(rows, full_key(prefix, entry.0), column) {
        Some(cell) => if cell.len() > 0 {
            (entry.0, cell)
        } else {
            entry
        },
        None => entry,
    }
}

/// A group with its texts as a column of the sheet gives them.
pub open spec fn translated_item(item: TransView, rows: Seq<Seq<Seq<char>>>, column: int)
    -> TransView {
    TransView {
        tips: item.tips,
        prefix: item.prefix,
        class: item.class,
        content: item.content.map_values(
            |entry: (Seq<char>, Seq<char>)| translated_entry(item.prefix, entry, rows, column),
        ),
    }
}

/// The groups with their texts as a column of the sheet gives them.
pub open spec fn translated(items: Seq<TransView>, rows: Seq<Seq<Seq<char>>>, column: int) -> Seq<
    TransView,
> {
    items.map_values(|item: TransView| translated_item(item, rows, column))
}

/// The row that a text makes in a sheet of `width` columns: its full key,
/// the text itself, and then the fields that the sheet already holds for
/// that key in the columns behind the second, empty where it holds none.
pub open spec fn merged_row(
    prefix: Seq<char>,
    entry: (Seq<char>, Seq<char>),
    rows: Seq<Seq<Seq<char>>>,
    width: int,
) -> Seq<Seq<char>> {
    seq![full_key(prefix, entry.0), replaced(entry.1, "/n"@, "//n"@)] + Seq::new(
        if width > 2 {
            (width - 2) as nat
        } else {
            0
        },
        |i: int|
            match row_of(rows, full_key(prefix, entry.0)) {
                Some(row) => row[i + 2],
                None => Seq::empty(),
            },
    )
}

/// The rows that the texts of one group make.
pub open spec fn item_rows(item: TransView, rows: Seq<Seq<Seq<char>>>, width: int) -> Seq<
    Seq<Seq<char>>,
> {
    item.content.map_values(
        |entry: (Seq<char>, Seq<char>)| merged_row(item.prefix, entry, rows, width),
    )
}

/// The rows that the texts of all groups make: those of the first group
/// first.
pub open spec fn merged_rows(items: Seq<TransView>, rows: Seq<Seq<Seq<char>>>, width: int) -> Seq<
    Seq<Seq<char>>,
>
    decreases items.len(),
{
    if items.len() == 0 {
        Seq::empty()
    } else {
        merged_rows(items.drop_last(), rows, width) + item_rows(items.last(), rows, width)
    }
}

/// The first column of a header that bears the name, if one does.
pub open spec fn first_column(header: Seq<Seq<char>>, name: Seq<char>) -> Option<int>
    decreases header.len(),
{
    if header.len() == 0 {
        None
    } else if header[0] == name {
        Some(0)
    } else {
        later(first_column(header.skip(1), name), 1)
    }
}

/// A column that was found `by` columns further on.
pub open spec fn later(column: Option<int>, by: int) -> Option<int> {
    match column {
        Some(c) => Some(c + by),
        None => None,
    }
}

/// The table of the language that stands in column `at` of the header: the
/// texts in the wording of the first column that bears that language's name.
pub open spec fn sheet_table(
    items: Seq<TransView>,
    header: Seq<Seq<char>>,
    rows: Seq<Seq<Seq<char>>>,
    at: int,
) -> Seq<char> {
    match first_column(header, header[at]) {
        Some(column) => translation_text(translated(items, rows, column), header[at]),
        None => translation_text(items, header[at]),
    }
}

/// Whether every row has at least `least` fields.
pub open spec fn rows_have(rows: Seq<Seq<Seq<char>>>, least: int) -> bool {
    forall|i: int| 0 <= i < rows.len() ==> (#[trigger] rows[i]).len() >= least
}

fn full_key_of(prefix: &String, key: &String) -> (full: String)
    ensures
        full@ == full_key(prefix@, key@),
{
    let mut full = prefix.clone();
    full.append("_");
    full.append(key.as_str());
    full
}

/// Finds the first row that stands under the key.
fn find_row<'a>(rows: &'a Vec<Vec<String>>, key: &String) -> (found: Option<&'a Vec<String>>)
    ensures
        match found {
            Some(row) => row_of(row_views(rows@), key@) == Some(string_views(row@)),
            None => row_of(row_views(rows@), key@) is None,
        },
{
    let ghost all = row_views(rows@);
    let mut i: usize = 0;
    assert(all.skip(0) =~= all);
    while i < rows.len()
        invariant
            i <= rows.len(),
            all == row_views(rows@),
            row_of(all, key@) == row_of(all.skip(i as int), key@),
        decreases rows.len() - i,
    {
        let row = &rows[i];
        assert(all.skip(i as int)[0] == string_views(row@));
        assert(all.skip(i as int).skip(1) =~= all.skip(i + 1));
        if row.len() > 0 && row[0] == *key {
            assert(string_views(row@)[0] == key@);
            return Some(row);
        }
        assert(row.len() > 0 ==> string_views(row@)[0] == row[0]@);
        i += 1;
    }
    assert(all.skip(i as int).len() == 0);
    None
}

/// Finds the field in the given column of the first row that stands under
/// the key and has that column.
fn find_cell<'a>(rows: &'a Vec<Vec<String>>, key: &String, column: usize) -> (found: Option<
    &'a String,
>)
    ensures
        match found {
            Some(cell) => cell_of(row_views(rows@), key@, column as int) == Some(cell@),
            None => cell_of(row_views(rows@), key@, column as int) is None,
        },
{
    let ghost all = row_views(rows@);
    let mut i: usize = 0;
    assert(all.skip(0) =~= all);
    while i < rows.len()
        invariant
            i <= rows.len(),
            all == row_views(rows@),
            cell_of(all, key@, column as int) == cell_of(all.skip(i as int), key@, column as int),
        decreases rows.len() - i,
    {
        let row = &rows[i];
        assert(all.skip(i as int)[0] == string_views(row@));
        assert(all.skip(i as int).skip(1) =~= all.skip(i + 1));
        if row.len() > 0 && row[0] == *key && column < row.len() {
            assert(string_views(row@)[0] == key@);
            assert(string_views(row@)[column as int] == row[column as int]@);
            return Some(&row[column]);
        }
        assert(row.len() > 0 ==> string_views(row@)[0] == row[0]@);
        i += 1;
    }
    assert(all.skip(i as int).len() == 0);
    None
}

fn translate_entry(
    prefix: &String,
    entry: &(String, String),
    rows: &Vec<Vec<String>>,
    column: usize,
) -> (result: (String, String))
    ensures
        (result.0@, result.1@) == translated_entry(
            prefix@,
            (entry.0@, entry.1@),
            row_views(rows@),
            column as int,
        ),
{
    let key = full_key_of(prefix, &entry.0);
    match find_cell(rows, &key, column) {
        Some(cell) => {
            if !cell.as_str().is_empty() {
                (entry.0.clone(), cell.clone())
            } else {
                (entry.0.clone(), entry.1.clone())
            }
        },
        None => (entry.0.clone(), entry.1.clone()),
    }
}

fn translate_item(item: &TransItem, rows: &Vec<Vec<String>>, column: usize) -> (result: TransItem)
    ensures
        result@ == translated_item(item@, row_views(rows@), column as int),
{
    let ghost entries = entry_views(item.content@);
    let ghost wanted = translated_item(item@, row_views(rows@), column as int).content;
    let mut content: Vec<(String, String)> = Vec::new();
    let mut i: usize = 0;
    while i < item.content.len()
        invariant
            i <= item.content.len(),
            entries == entry_views(item.content@),
            wanted == translated_item(item@, row_views(rows@), column as int).content,
            content@.len() == i,
            forall|j: int| 0 <= j < i ==> entry_views(content@)[j] == wanted[j],
        decreases item.content.len() - i,
    {
        let entry = translate_entry(&item.prefix, &item.content[i], rows, column);
        assert(entries[i as int] == (item.content@[i as int].0@, item.content@[i as int].1@));
        let ghost before = content@;
        content.push(entry);
        assert forall|j: int| 0 <= j < i + 1 implies entry_views(content@)[j] == wanted[j] by {
            if j < i {
                assert(entry_views(before)[j] == wanted[j]);
            }
        }
        i += 1;
    }
    assert(entry_views(content@) =~= wanted);
    let class = match &item.class {
        Some(class) => Some(class.clone()),
        None => None,
    };
    TransItem { tips: item.tips.clone(), prefix: item.prefix.clone(), class, content }
}

/// Gives every text the wording that one column of the sheet holds for it.
/// A text keeps its wording where the sheet has no row for its key, no field
/// in that column, or an empty one.
pub fn translate_items(items: &Vec<TransItem>, rows: &Vec<Vec<String>>, column: usize) -> (result:
    Vec<TransItem>)
    ensures
        item_views(result@) == translated(item_views(items@), row_views(rows@), column as int),
{
    let ghost wanted = translated(item_views(items@), row_views(rows@), column as int);
    let mut result: Vec<TransItem> = Vec::new();
    let mut i: usize = 0;
    while i < items.len()
        invariant
            i <= items.len(),
            wanted == translated(item_views(items@), row_views(rows@), column as int),
            result@.len() == i,
            forall|j: int| 0 <= j < i ==> item_views(result@)[j] == wanted[j],
        decreases items.len() - i,
    {
        let item = translate_item(&items[i], rows, column);
        assert(item_views(items@)[i as int] == items@[i as int]@);
        let ghost before = result@;
        result.push(item);
        assert forall|j: int| 0 <= j < i + 1 implies item_views(result@)[j] == wanted[j] by {
            if j < i {
                assert(item_views(before)[j] == wanted[j]);
            }
        }
        i += 1;
    }
    assert(item_views(result@) =~= wanted);
    result
}

/// The column of a language in the header of a sheet: the first one that
/// bears its name.
pub fn column_of(header: &Vec<String>, lang: &String) -> (column: Option<usize>)
    ensures
        match column {
            Some(c) => first_column(string_views(header@), lang@) == Some(c as int),
            None => first_column(string_views(header@), lang@) is None,
        },
{
    let ghost names = string_views(header@);
    let mut i: usize = 0;
    assert(names.skip(0) =~= names);
    while i < header.len()
        invariant
            i <= header.len(),
            names == string_views(header@),
            first_column(names, lang@) == later(first_column(names.skip(i as int), lang@), i as int),
        decreases header.len() - i,
    {
        assert(names.skip(i as int)[0] == header@[i as int]@);
        assert(names.skip(i as int).skip(1) =~= names.skip(i + 1));
        if header[i] == *lang {
            return Some(i);
        }
        i += 1;
    }
    assert(names.skip(i as int).len() == 0);
    None
}

/// Renders the table of every language of a sheet but the one of its first
/// column: for each, the texts take the wording of the first column that
/// bears the language's name. Each table comes with its language.
pub fn tables_from_sheet(items: &Vec<TransItem>, header: &Vec<String>, rows: &Vec<Vec<String>>)
    -> (tables: Vec<(String, String)>)
    requires
        header@.len() >= 1,
    ensures
        tables@.len() == header@.len() - 1,
        forall|k: int|
            0 <= k < tables@.len() ==> (#[trigger] tables@[k]).0@ == header@[k + 1]@
                && tables@[k].1@ == sheet_table(
                item_views(items@),
                string_views(header@),
                row_views(rows@),
                k + 1,
            ),
{
    let mut tables: Vec<(String, String)> = Vec::new();
    let mut i: usize = 1;
    while i < header.len()
        invariant
            1 <= i <= header.len(),
            tables@.len() == i - 1,
            forall|k: int|
                0 <= k < tables@.len() ==> (#[trigger] tables@[k]).0@ == header@[k + 1]@
                    && tables@[k].1@ == sheet_table(
                    item_views(items@),
                    string_views(header@),
                    row_views(rows@),
                    k + 1,
                ),
        decreases header.len() - i,
    {
        let lang = &header[i];
        assert(string_views(header@)[i as int] == lang@);
        let table = match column_of(header, lang) {
            Some(column) => {
                let worded = translate_items(items, rows, column);
                generate_translation(&worded, lang.as_str())
            },
            None => generate_translation(items, lang.as_str()),
        };
        tables.push((lang.clone(), table));
        i += 1;
    }
    tables
}

fn merge_row(
    prefix: &String,
    entry: &(String, String),
    rows: &Vec<Vec<String>>,
    width: usize,
) -> (row: Vec<String>)
    requires
        rows_have(row_views(rows@), width as int),
    ensures
        string_views(row@) == merged_row(
            prefix@,
            (entry.0@, entry.1@),
            row_views(rows@),
            width as int,
        ),
{
    proof {
        reveal_strlit("/n");
    }
    let key = full_key_of(prefix, &entry.0);
    let found = find_row(rows, &key);
    let ghost wanted = merged_row(prefix@, (entry.0@, entry.1@), row_views(rows@), width as int);
    let mut row: Vec<String> = Vec::new();
    row.push(key);
    row.push(replace_all(entry.1.as_str(), "/n", "//n"));
    assert(string_views(row@)[0] == wanted[0]);
    assert(string_views(row@)[1] == wanted[1]);
    if width > 2 {
        proof {
            lemma_row_of_is_a_row(row_views(rows@), full_key(prefix@, entry.0@));
        }
        let mut i: usize = 2;
        while i < width
            invariant
                2 <= i <= width,
                wanted == merged_row(prefix@, (entry.0@, entry.1@), row_views(rows@), width as int),
                wanted.len() == width,
                row@.len() == i,
                forall|j: int| 0 <= j < i ==> string_views(row@)[j] == wanted[j],
                match found {
                    Some(old) => row_of(row_views(rows@), full_key(prefix@, entry.0@)) == Some(
                        string_views(old@),
                    ) && old@.len() >= width,
                    None => row_of(row_views(rows@), full_key(prefix@, entry.0@)) is None,
                },
            decreases width - i,
        {
            let field = match found {
                Some(old) => old[i].clone(),
                None => String::new(),
            };
            assert(field@ == wanted[i as int]) by {
                assert(wanted[i as int] == match row_of(
                    row_views(rows@),
                    full_key(prefix@, entry.0@),
                ) {
                    Some(r) => r[(i - 2) + 2],
                    None => Seq::<char>::empty(),
                });
            }
            let ghost before = row@;
            row.push(field);
            assert forall|j: int| 0 <= j < i + 1 implies string_views(row@)[j] == wanted[j] by {
                if j < i {
                    assert(string_views(before)[j] == wanted[j]);
                }
            }
            i += 1;
        }
    }
    assert(string_views(row@) =~= wanted);
    row
}

/// Makes the rows of a sheet of `width` columns from the texts: one row per
/// text, group by group. Each row takes over, from the third column on, what
/// the sheet already holds for its key.
pub fn merge_rows(items: &Vec<TransItem>, rows: &Vec<Vec<String>>, width: usize) -> (result: Vec<
    Vec<String>,
>)
    requires
        rows_have(row_views(rows@), width as int),
    ensures
        row_views(result@) == merged_rows(item_views(items@), row_views(rows@), width as int),
{
    let ghost views = item_views(items@);
    let ghost sheet = row_views(rows@);
    let mut result: Vec<Vec<String>> = Vec::new();
    let mut i: usize = 0;
    while i < items.len()
        invariant
            i <= items.len(),
            views == item_views(items@),
            sheet == row_views(rows@),
            rows_have(sheet, width as int),
            row_views(result@) == merged_rows(views.take(i as int), sheet, width as int),
        decreases items.len() - i,
    {
        let item = &items[i];
        let ghost done = row_views(result@);
        let ghost wanted = item_rows(item@, sheet, width as int);
        let ghost start = result@.len();
        let mut j: usize = 0;
        while j < item.content.len()
            invariant
                j <= item.content.len(),
                sheet == row_views(rows@),
                rows_have(sheet, width as int),
                wanted == item_rows(item@, sheet, width as int),
                result@.len() == start + j,
                done.len() == start,
                forall|k: int| 0 <= k < start ==> row_views(result@)[k] == done[k],
                forall|k: int| 0 <= k < j ==> row_views(result@)[start + k] == wanted[k],
            decreases item.content.len() - j,
        {
            let row = merge_row(&item.prefix, &item.content[j], rows, width);
            assert(entry_views(item.content@)[j as int] == (
                item.content@[j as int].0@,
                item.content@[j as int].1@,
            ));
            let ghost before = result@;
            result.push(row);
            assert forall|k: int| 0 <= k < start implies row_views(result@)[k] == done[k] by {
                assert(row_views(before)[k] == done[k]);
            }
            assert forall|k: int| 0 <= k < j + 1 implies row_views(result@)[start + k]
                == wanted[k] by {
                if k < j {
                    assert(row_views(before)[start + k] == wanted[k]);
                }
            }
            j += 1;
        }
        proof {
            assert(views.take(i + 1).drop_last() =~= views.take(i as int));
            assert(views.take(i + 1).last() == item@);
            assert(row_views(result@) =~= done + wanted);
        }
        i += 1;
    }
    assert(views.take(i as int) =~= views);
    result
}

/// A column of the sheet changes the wording of texts and nothing else:
/// every group keeps its remark, its prefix and its keys, so a group in
/// which no key occurs twice stays one.
pub proof fn lemma_translated_keeps_keys(item: TransView, rows: Seq<Seq<Seq<char>>>, column: int)
    ensures
        translated_item(item, rows, column).tips == item.tips,
        translated_item(item, rows, column).prefix == item.prefix,
        translated_item(item, rows, column).content.len() == item.content.len(),
        forall|i: int|
            0 <= i < item.content.len() ==> (#[trigger] translated_item(
                item,
                rows,
                column,
            ).content[i]).0 == item.content[i].0,
        item.wf() ==> translated_item(item, rows, column).wf(),
{
    let after = translated_item(item, rows, column);
    assert forall|i: int| 0 <= i < item.content.len() implies (#[trigger] after.content[i]).0
        == item.content[i].0 by {}
    if item.wf() {
        assert forall|i: int, j: int| 0 <= i < j < after.content.len() implies (
        #[trigger] after.content[i]).0 != (#[trigger] after.content[j]).0 by {
            assert(item.content[i].0 != item.content[j].0);
        }
    }
}

/// The row found under a key is one of the rows.
pub proof fn lemma_row_of_is_a_row(rows: Seq<Seq<Seq<char>>>, key: Seq<char>)
    ensures
        row_of(rows, key) matches Some(row) ==> exists|i: int|
            0 <= i < rows.len() && #[trigger] rows[i] == row,
    decreases rows.len(),
{
    if rows.len() > 0 && !(rows[0].len() > 0 && rows[0][0] == key) {
        lemma_row_of_is_a_row(rows.skip(1), key);
        if row_of(rows, key) is Some {
            let i = choose|i: int|
                0 <= i < rows.skip(1).len() && #[trigger] rows.skip(1)[i] == row_of(rows, key)->0;
            assert(rows[i + 1] == row_of(rows, key)->0);
        }
    }
}

} // verus!
