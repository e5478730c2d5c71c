//! Translation tables: the constants that name each text, and the table of
//! one language.

use vstd::prelude::*;
use crate::naming::{WordCase, pascal_case, snake_case, to_case};
use crate::text::{concat, lemma_concat_step, replace_all, replaced};

verus! {

/// One group of texts. All keys of a group share the group's prefix.
#[derive(Debug, Clone, PartialEq, Eq)]
pub struct TransItem {
    /// A remark on the group, written above what is generated for it.
    pub tips: String,
    /// The prefix of the group's keys, and the name of its constant.
    pub prefix: String,
    pub class: Option<String>,
    /// The texts of the group, each under its key. No key occurs twice.
    pub content: Vec<(String, String)>,
}

/// The mathematical value of a [`TransItem`].
pub struct TransView {
    pub tips: Seq<char>,
    pub prefix: Seq<char>,
    pub class: Option<Seq<char>>,
    pub content: Seq<(Seq<char>, Seq<char>)>,
}

impl TransView {
    /// No key occurs twice in the group.
    pub open spec fn wf(self) -> bool {
        forall|i: int, j: int|
            0 <= i < j < self.content.len() ==> (#[trigger] self.content[i]).0 != (
            #[trigger] self.content[j]).0
    }
}

/// The views of a sequence of texts with their keys, in order.
pub open spec fn entry_views(content: Seq<(String, String)>) -> Seq<(Seq<char>, Seq<char>)> {
    content.map_values(|entry: (String, String)| (entry.0@, entry.1@))
}

impl View for TransItem {
    type V = TransView;

    open spec fn view(&self) -> TransView {
        TransView {
            tips: self.tips@,
            prefix: self.prefix@,
            class: match self.class {
                Some(class) => Some(class@),
                None => None,
            },
            content: entry_views(self.content@),
        }
    }
}

/// The views of a sequence of groups, in order.
pub open spec fn item_views(items: Seq<TransItem>) -> Seq<TransView> {
    items.map_values(|item: TransItem| item@)
}

/// The constant that names one text of a group.
pub open spec fn key_constant(prefix: Seq<char>, entry: (Seq<char>, Seq<char>)) -> Seq<char> {
    "final k"@ + pascal_case(entry.0) + " = '"@ + prefix + "_"@ + snake_case(entry.0) + "';\n"@
}

/// The class that holds the constants of one group.
pub open spec fn key_class(item: TransView) -> Seq<char> {
    "///"@ + item.tips + "\n class Auto"@ + pascal_case(item.prefix) + " {\n"@ + concat(
        item.content.map_values(|entry: (Seq<char>, Seq<char>)| key_constant(item.prefix, entry)),
    ) + "}\n"@
}

/// The member of the index class that gives access to one group.
pub open spec fn index_member(item: TransView) -> Seq<char> {
    "///"@ + item.tips + "\nstatic final "@ + item.prefix + " = Auto"@ + pascal_case(item.prefix)
        + "();\n"@
}

/// The index class: one member per group.
pub open spec fn index_class(items: Seq<TransView>) -> Seq<char> {
    "/// \u{56fd}\u{9645}\u{5316}\u{6587}\u{672c}\u{5e38}\u{91cf}\nclass Ikey {\nIkey._();\n"@
        + concat(items.map_values(|item: TransView| index_member(item))) + "}"@
}

/// The file of key constants: the class of every group, then the index class.
pub open spec fn ikeys_text(items: Seq<TransView>) -> Seq<char> {
    "library;\n"@ + concat(items.map_values(|item: TransView| key_class(item))) + index_class(
        items,
    )
}

/// One line of a language table: the full key and the text, with each line
/// break in the text written as an escape.
pub open spec fn table_line(prefix: Seq<char>, entry: (Seq<char>, Seq<char>)) -> Seq<char> {
    "\""@ + prefix + "_"@ + entry.0 + "\": \""@ + replaced(entry.1, "\n"@, "\\n"@) + "\",\n"@
}

/// The lines of one group in a language table, under the group's remark.
pub open spec fn table_block(item: TransView) -> Seq<char> {
    "\t// "@ + item.tips + "\n"@ + concat(
        item.content.map_values(|entry: (Seq<char>, Seq<char>)| table_line(item.prefix, entry)),
    )
}

/// The table of one language.
pub open spec fn translation_text(items: Seq<TransView>, lang: Seq<char>) -> Seq<char> {
    "part of 'index.dart';\nfinal "@ + lang + "Message = <String,String>{\n"@ + concat(
        items.map_values(|item: TransView| table_block(item)),
    ) + "};"@
}

fn key_constant_of(prefix: &String, entry: &(String, String)) -> (text: String)
    ensures
        text@ == key_constant(prefix@, (entry.0@, entry.1@)),
{
    let pascal = to_case(entry.0.as_str(), WordCase::Pascal);
    let snake = to_case(entry.0.as_str(), WordCase::Snake);
    let mut text = String::from_str("final k");
    text.append(pascal.as_str());
    text.append(" = '");
    text.append(prefix.as_str());
    text.append("_");
    text.append(snake.as_str());
    text.append("';\n");
    text
}

/// Renders the class that holds the constants of one group.
pub fn gen_trans_class(item: &TransItem) -> (result: String)
    ensures
        result@ == key_class(item@),
{
    let ghost entries = entry_views(item.content@);
    let mut constants = String::new();
    let mut i: usize = 0;
    while i < item.content.len()
        invariant
            i <= item.content.len(),
            entries == entry_views(item.content@),
            constants@ == concat(
                entries.take(i as int).map_values(
                    |entry: (Seq<char>, Seq<char>)| key_constant(item.prefix@, entry),
                ),
            ),
        decreases item.content.len() - i,
    {
        let piece = key_constant_of(&item.prefix, &item.content[i]);
        proof {
            lemma_concat_step(
                entries,
                |entry: (Seq<char>, Seq<char>)| key_constant(item.prefix@, entry),
                i as int,
            );
        }
        constants.append(piece.as_str());
        i += 1;
    }
    assert(entries.take(i as int) =~= entries);
    let class = to_case(item.prefix.as_str(), WordCase::Pascal);
    let mut result = String::from_str("///");
    result.append(item.tips.as_str());
    result.append("\n class Auto");
    result.append(class.as_str());
    result.append(" {\n");
    result.append(constants.as_str());
    result.append("}\n");
    result
}

fn index_member_of(item: &TransItem) -> (text: String)
    ensures
        text@ == index_member(item@),
{
    let class = to_case(item.prefix.as_str(), WordCase::Pascal);
    let mut text = String::from_str("///");
    text.append(item.tips.as_str());
    text.append("\nstatic final ");
    text.append(item.prefix.as_str());
    text.append(" = Auto");
    text.append(class.as_str());
    text.append("();\n");
    text
}

/// Renders the index class.
pub fn gen_ikey_class(trans_items: &Vec<TransItem>) -> (result: String)
    ensures
        result@ == index_class(item_views(trans_items@)),
{
    let ghost items = item_views(trans_items@);
    let mut members = String::new();
    let mut i: usize = 0;
    while i < trans_items.len()
        invariant
            i <= trans_items.len(),
            items == item_views(trans_items@),
            members@ == concat(
                items.take(i as int).map_values(|item: TransView| index_member(item)),
            ),
        decreases trans_items.len() - i,
    {
        let piece = index_member_of(&trans_items[i]);
        proof {
            lemma_concat_step(items, |item: TransView| index_member(item), i as int);
        }
        members.append(piece.as_str());
        i += 1;
    }
    assert(items.take(i as int) =~= items);
    let mut result = String::from_str(
        "/// \u{56fd}\u{9645}\u{5316}\u{6587}\u{672c}\u{5e38}\u{91cf}\nclass Ikey {\nIkey._();\n",
    );
    result.append(members.as_str());
    result.append("}");
    result
}

/// Renders the file of key constants.
pub fn generate_ikeys(trans_items: &Vec<TransItem>) -> (result: String)
    ensures
        result@ == ikeys_text(item_views(trans_items@)),
{
    let ghost items = item_views(trans_items@);
    let mut classes = String::new();
    let mut i: usize = 0;
    while i < trans_items.len()
        invariant
            i <= trans_items.len(),
            items == item_views(trans_items@),
            classes@ == concat(items.take(i as int).map_values(|item: TransView| key_class(item))),
        decreases trans_items.len() - i,
    {
        let piece = gen_trans_class(&trans_items[i]);
        proof {
            lemma_concat_step(items, |item: TransView| key_class(item), i as int);
        }
        classes.append(piece.as_str());
        i += 1;
    }
    assert(items.take(i as int) =~= items);
    let index = gen_ikey_class(trans_items);
    let mut result = String::from_str("library;\n");
    result.append(classes.as_str());
    result.append(index.as_str());
    result
}

fn table_line_of(prefix: &String, entry: &(String, String)) -> (text: String)
    ensures
        text@ == table_line(prefix@, (entry.0@, entry.1@)),
{
    proof {
        reveal_strlit("\n");
    }
    let value = replace_all(entry.1.as_str(), "\n", "\\n");
    let mut text = String::from_str("\"");
    text.append(prefix.as_str());
    text.append("_");
    text.append(entry.0.as_str());
    text.append("\": \"");
    text.append(value.as_str());
    text.append("\",\n");
    text
}

fn table_block_of(item: &TransItem) -> (result: String)
    ensures
        result@ == table_block(item@),
{
    let ghost entries = entry_views(item.content@);
    let mut lines = String::new();
    let mut i: usize = 0;
    while i < item.content.len()
        invariant
            i <= item.content.len(),
            entries == entry_views(item.content@),
            lines@ == concat(
                entries.take(i as int).map_values(
                    |entry: (Seq<char>, Seq<char>)| table_line(item.prefix@, entry),
                ),
            ),
        decreases item.content.len() - i,
    {
        let piece = table_line_of(&item.prefix, &item.content[i]);
        proof {
            lemma_concat_step(
                entries,
                |entry: (Seq<char>, Seq<char>)| table_line(item.prefix@, entry),
                i as int,
            );
        }
        lines.append(piece.as_str());
        i += 1;
    }
    assert(entries.take(i as int) =~= entries);
    let mut result = String::from_str("\t// ");
    result.append(item.tips.as_str());
    result.append("\n");
    result.append(lines.as_str());
    result
}

/// Renders the table of one language.
pub fn generate_translation(trans_items: &Vec<TransItem>, lang: &str) -> (result: String)
    ensures
        result@ == translation_text(item_views(trans_items@), lang@),
{
    let ghost items = item_views(trans_items@);
    let mut blocks = String::new();
    let mut i: usize = 0;
    while i < trans_items.len()
        invariant
            i <= trans_items.len(),
            items == item_views(trans_items@),
            blocks@ == concat(items.take(i as int).map_values(|item: TransView| table_block(item))),
        decreases trans_items.len() - i,
    {
        let piece = table_block_of(&trans_items[i]);
        proof {
            lemma_concat_step(items, |item: TransView| table_block(item), i as int);
        }
        blocks.append(piece.as_str());
        i += 1;
    }
    assert(items.take(i as int) =~= items);
    let mut result = String::from_str("part of 'index.dart';\nfinal ");
    result.append(lang);
    result.append("Message = <String,String>{\n");
    result.append(blocks.as_str());
    result.append("};");
    result
}

} // verus!
