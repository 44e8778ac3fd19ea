//! The tables of controls: no name is held by two of them.

use vstd::prelude::*;

use crate::rtf_control::destination_table;
use crate::rtf_control::flag_table;
use crate::rtf_control::symbol_table;
use crate::rtf_control::toggle_table;
use crate::rtf_control::value_table;

verus! {

/// One for a table that holds the name, nothing for one that does not.
pub open spec fn one_if<H>(entry: Option<H>) -> nat {
    if entry is Some {
        1
    } else {
        0
    }
}

/// The number of tables that hold a name.
pub open spec fn tables_holding(name: Seq<char>) -> nat {
    one_if(destination_table(name)) + one_if(symbol_table(name)) + one_if(value_table(name))
        + one_if(flag_table(name)) + one_if(toggle_table(name))
}

/// How the names of the destination table are spelled: the length of each, and its
/// letters one by one.
proof fn lemma_destination_spellings()
    ensures
        "rtf"@.len() == 3 && "rtf"@[0] == 'r' && "rtf"@[1] == 't' && "rtf"@[2] == 'f',
        "fonttbl"@.len() == 7 && "fonttbl"@[0] == 'f' && "fonttbl"@[1] == 'o'
            && "fonttbl"@[2] == 'n' && "fonttbl"@[3] == 't' && "fonttbl"@[4] == 't'
            && "fonttbl"@[5] == 'b' && "fonttbl"@[6] == 'l',
        "colortbl"@.len() == 8 && "colortbl"@[0] == 'c' && "colortbl"@[1] == 'o'
            && "colortbl"@[2] == 'l' && "colortbl"@[3] == 'o' && "colortbl"@[4] == 'r'
            && "colortbl"@[5] == 't' && "colortbl"@[6] == 'b' && "colortbl"@[7] == 'l',
        "stylesheet"@.len() == 10 && "stylesheet"@[0] == 's' && "stylesheet"@[1] == 't'
            && "stylesheet"@[2] == 'y' && "stylesheet"@[3] == 'l' && "stylesheet"@[4] == 'e'
            && "stylesheet"@[5] == 's' && "stylesheet"@[6] == 'h' && "stylesheet"@[7] == 'e'
            && "stylesheet"@[8] == 'e' && "stylesheet"@[9] == 't',
        "info"@.len() == 4 && "info"@[0] == 'i' && "info"@[1] == 'n' && "info"@[2] == 'f'
            && "info"@[3] == 'o',
        "title"@.len() == 5 && "title"@[0] == 't' && "title"@[1] == 'i' && "title"@[2] == 't'
            && "title"@[3] == 'l' && "title"@[4] == 'e',
        "subject"@.len() == 7 && "subject"@[0] == 's' && "subject"@[1] == 'u'
            && "subject"@[2] == 'b' && "subject"@[3] == 'j' && "subject"@[4] == 'e'
            && "subject"@[5] == 'c' && "subject"@[6] == 't',
        "author"@.len() == 6 && "author"@[0] == 'a' && "author"@[1] == 'u' && "author"@[2] == 't'
            && "author"@[3] == 'h' && "author"@[4] == 'o' && "author"@[5] == 'r',
        "keywords"@.len() == 8 && "keywords"@[0] == 'k' && "keywords"@[1] == 'e'
            && "keywords"@[2] == 'y' && "keywords"@[3] == 'w' && "keywords"@[4] == 'o'
            && "keywords"@[5] == 'r' && "keywords"@[6] == 'd' && "keywords"@[7] == 's',
        "comment"@.len() == 7 && "comment"@[0] == 'c' && "comment"@[1] == 'o'
            && "comment"@[2] == 'm' && "comment"@[3] == 'm' && "comment"@[4] == 'e'
            && "comment"@[5] == 'n' && "comment"@[6] == 't',
        "header"@.len() == 6 && "header"@[0] == 'h' && "header"@[1] == 'e' && "header"@[2] == 'a'
            && "header"@[3] == 'd' && "header"@[4] == 'e' && "header"@[5] == 'r',
        "footer"@.len() == 6 && "footer"@[0] == 'f' && "footer"@[1] == 'o' && "footer"@[2] == 'o'
            && "footer"@[3] == 't' && "footer"@[4] == 'e' && "footer"@[5] == 'r',
        "footnote"@.len() == 8 && "footnote"@[0] == 'f' && "footnote"@[1] == 'o'
            && "footnote"@[2] == 'o' && "footnote"@[3] == 't' && "footnote"@[4] == 'n'
            && "footnote"@[5] == 'o' && "footnote"@[6] == 't' && "footnote"@[7] == 'e',
        "generator"@.len() == 9 && "generator"@[0] == 'g' && "generator"@[1] == 'e'
            && "generator"@[2] == 'n' && "generator"@[3] == 'e' && "generator"@[4] == 'r'
            && "generator"@[5] == 'a' && "generator"@[6] == 't' && "generator"@[7] == 'o'
            && "generator"@[8] == 'r',
        "pict"@.len() == 4 && "pict"@[0] == 'p' && "pict"@[1] == 'i' && "pict"@[2] == 'c'
            && "pict"@[3] == 't',
        "object"@.len() == 6 && "object"@[0] == 'o' && "object"@[1] == 'b' && "object"@[2] == 'j'
            && "object"@[3] == 'e' && "object"@[4] == 'c' && "object"@[5] == 't',
        "objdata"@.len() == 7 && "objdata"@[0] == 'o' && "objdata"@[1] == 'b'
            && "objdata"@[2] == 'j' && "objdata"@[3] == 'd' && "objdata"@[4] == 'a'
            && "objdata"@[5] == 't' && "objdata"@[6] == 'a',
        "themedata"@.len() == 9 && "themedata"@[0] == 't' && "themedata"@[1] == 'h'
            && "themedata"@[2] == 'e' && "themedata"@[3] == 'm' && "themedata"@[4] == 'e'
            && "themedata"@[5] == 'd' && "themedata"@[6] == 'a' && "themedata"@[7] == 't'
            && "themedata"@[8] == 'a',
        "datastore"@.len() == 9 && "datastore"@[0] == 'd' && "datastore"@[1] == 'a'
            && "datastore"@[2] == 't' && "datastore"@[3] == 'a' && "datastore"@[4] == 's'
            && "datastore"@[5] == 't' && "datastore"@[6] == 'o' && "datastore"@[7] == 'r'
            && "datastore"@[8] == 'e',
{
    reveal_strlit("rtf");
    reveal_strlit("fonttbl");
    reveal_strlit("colortbl");
    reveal_strlit("stylesheet");
    reveal_strlit("info");
    reveal_strlit("title");
    reveal_strlit("subject");
    reveal_strlit("author");
    reveal_strlit("keywords");
    reveal_strlit("comment");
    reveal_strlit("header");
    reveal_strlit("footer");
    reveal_strlit("footnote");
    reveal_strlit("generator");
    reveal_strlit("pict");
    reveal_strlit("object");
    reveal_strlit("objdata");
    reveal_strlit("themedata");
    reveal_strlit("datastore");
}

/// How the names of the symbol table are spelled: the length of each, and its
/// letters one by one.
proof fn lemma_symbol_spellings()
    ensures
        "line"@.len() == 4 && "line"@[0] == 'l' && "line"@[1] == 'i' && "line"@[2] == 'n'
            && "line"@[3] == 'e',
        "par"@.len() == 3 && "par"@[0] == 'p' && "par"@[1] == 'a' && "par"@[2] == 'r',
        "sect"@.len() == 4 && "sect"@[0] == 's' && "sect"@[1] == 'e' && "sect"@[2] == 'c'
            && "sect"@[3] == 't',
        "page"@.len() == 4 && "page"@[0] == 'p' && "page"@[1] == 'a' && "page"@[2] == 'g'
            && "page"@[3] == 'e',
        "tab"@.len() == 3 && "tab"@[0] == 't' && "tab"@[1] == 'a' && "tab"@[2] == 'b',
        "emdash"@.len() == 6 && "emdash"@[0] == 'e' && "emdash"@[1] == 'm' && "emdash"@[2] == 'd'
            && "emdash"@[3] == 'a' && "emdash"@[4] == 's' && "emdash"@[5] == 'h',
        "endash"@.len() == 6 && "endash"@[0] == 'e' && "endash"@[1] == 'n' && "endash"@[2] == 'd'
            && "endash"@[3] == 'a' && "endash"@[4] == 's' && "endash"@[5] == 'h',
        "bullet"@.len() == 6 && "bullet"@[0] == 'b' && "bullet"@[1] == 'u' && "bullet"@[2] == 'l'
            && "bullet"@[3] == 'l' && "bullet"@[4] == 'e' && "bullet"@[5] == 't',
        "lquote"@.len() == 6 && "lquote"@[0] == 'l' && "lquote"@[1] == 'q' && "lquote"@[2] == 'u'
            && "lquote"@[3] == 'o' && "lquote"@[4] == 't' && "lquote"@[5] == 'e',
        "rquote"@.len() == 6 && "rquote"@[0] == 'r' && "rquote"@[1] == 'q' && "rquote"@[2] == 'u'
            && "rquote"@[3] == 'o' && "rquote"@[4] == 't' && "rquote"@[5] == 'e',
        "ldblquote"@.len() == 9 && "ldblquote"@[0] == 'l' && "ldblquote"@[1] == 'd'
            && "ldblquote"@[2] == 'b' && "ldblquote"@[3] == 'l' && "ldblquote"@[4] == 'q'
            && "ldblquote"@[5] == 'u' && "ldblquote"@[6] == 'o' && "ldblquote"@[7] == 't'
            && "ldblquote"@[8] == 'e',
        "rdblquote"@.len() == 9 && "rdblquote"@[0] == 'r' && "rdblquote"@[1] == 'd'
            && "rdblquote"@[2] == 'b' && "rdblquote"@[3] == 'l' && "rdblquote"@[4] == 'q'
            && "rdblquote"@[5] == 'u' && "rdblquote"@[6] == 'o' && "rdblquote"@[7] == 't'
            && "rdblquote"@[8] == 'e',
        "emspace"@.len() == 7 && "emspace"@[0] == 'e' && "emspace"@[1] == 'm'
            && "emspace"@[2] == 's' && "emspace"@[3] == 'p' && "emspace"@[4] == 'a'
            && "emspace"@[5] == 'c' && "emspace"@[6] == 'e',
        "enspace"@.len() == 7 && "enspace"@[0] == 'e' && "enspace"@[1] == 'n'
            && "enspace"@[2] == 's' && "enspace"@[3] == 'p' && "enspace"@[4] == 'a'
            && "enspace"@[5] == 'c' && "enspace"@[6] == 'e',
        "'"@.len() == 1 && "'"@[0] == '\'',
{
    reveal_strlit("line");
    reveal_strlit("par");
    reveal_strlit("sect");
    reveal_strlit("page");
    reveal_strlit("tab");
    reveal_strlit("emdash");
    reveal_strlit("endash");
    reveal_strlit("bullet");
    reveal_strlit("lquote");
    reveal_strlit("rquote");
    reveal_strlit("ldblquote");
    reveal_strlit("rdblquote");
    reveal_strlit("emspace");
    reveal_strlit("enspace");
    reveal_strlit("'");
}

/// How the names of the value table are spelled: the length of each, and its
/// letters one by one.
proof fn lemma_value_spellings()
    ensures
        "ansicpg"@.len() == 7 && "ansicpg"@[0] == 'a' && "ansicpg"@[1] == 'n'
            && "ansicpg"@[2] == 's' && "ansicpg"@[3] == 'i' && "ansicpg"@[4] == 'c'
            && "ansicpg"@[5] == 'p' && "ansicpg"@[6] == 'g',
        "uc"@.len() == 2 && "uc"@[0] == 'u' && "uc"@[1] == 'c',
        "deff"@.len() == 4 && "deff"@[0] == 'd' && "deff"@[1] == 'e' && "deff"@[2] == 'f'
            && "deff"@[3] == 'f',
        "deflang"@.len() == 7 && "deflang"@[0] == 'd' && "deflang"@[1] == 'e'
            && "deflang"@[2] == 'f' && "deflang"@[3] == 'l' && "deflang"@[4] == 'a'
            && "deflang"@[5] == 'n' && "deflang"@[6] == 'g',
        "lang"@.len() == 4 && "lang"@[0] == 'l' && "lang"@[1] == 'a' && "lang"@[2] == 'n'
            && "lang"@[3] == 'g',
        "f"@.len() == 1 && "f"@[0] == 'f',
        "fs"@.len() == 2 && "fs"@[0] == 'f' && "fs"@[1] == 's',
        "cf"@.len() == 2 && "cf"@[0] == 'c' && "cf"@[1] == 'f',
        "cb"@.len() == 2 && "cb"@[0] == 'c' && "cb"@[1] == 'b',
        "li"@.len() == 2 && "li"@[0] == 'l' && "li"@[1] == 'i',
        "ri"@.len() == 2 && "ri"@[0] == 'r' && "ri"@[1] == 'i',
        "fi"@.len() == 2 && "fi"@[0] == 'f' && "fi"@[1] == 'i',
        "sa"@.len() == 2 && "sa"@[0] == 's' && "sa"@[1] == 'a',
        "sb"@.len() == 2 && "sb"@[0] == 's' && "sb"@[1] == 'b',
{
    reveal_strlit("ansicpg");
    reveal_strlit("uc");
    reveal_strlit("deff");
    reveal_strlit("deflang");
    reveal_strlit("lang");
    reveal_strlit("f");
    reveal_strlit("fs");
    reveal_strlit("cf");
    reveal_strlit("cb");
    reveal_strlit("li");
    reveal_strlit("ri");
    reveal_strlit("fi");
    reveal_strlit("sa");
    reveal_strlit("sb");
}

/// How the names of the flag table are spelled: the length of each, and its
/// letters one by one.
proof fn lemma_flag_spellings()
    ensures
        "ansi"@.len() == 4 && "ansi"@[0] == 'a' && "ansi"@[1] == 'n' && "ansi"@[2] == 's'
            && "ansi"@[3] == 'i',
        "mac"@.len() == 3 && "mac"@[0] == 'm' && "mac"@[1] == 'a' && "mac"@[2] == 'c',
        "pc"@.len() == 2 && "pc"@[0] == 'p' && "pc"@[1] == 'c',
        "pca"@.len() == 3 && "pca"@[0] == 'p' && "pca"@[1] == 'c' && "pca"@[2] == 'a',
        "pard"@.len() == 4 && "pard"@[0] == 'p' && "pard"@[1] == 'a' && "pard"@[2] == 'r'
            && "pard"@[3] == 'd',
        "plain"@.len() == 5 && "plain"@[0] == 'p' && "plain"@[1] == 'l' && "plain"@[2] == 'a'
            && "plain"@[3] == 'i' && "plain"@[4] == 'n',
        "sectd"@.len() == 5 && "sectd"@[0] == 's' && "sectd"@[1] == 'e' && "sectd"@[2] == 'c'
            && "sectd"@[3] == 't' && "sectd"@[4] == 'd',
        "ql"@.len() == 2 && "ql"@[0] == 'q' && "ql"@[1] == 'l',
        "qr"@.len() == 2 && "qr"@[0] == 'q' && "qr"@[1] == 'r',
        "qc"@.len() == 2 && "qc"@[0] == 'q' && "qc"@[1] == 'c',
        "qj"@.len() == 2 && "qj"@[0] == 'q' && "qj"@[1] == 'j',
        "widowctrl"@.len() == 9 && "widowctrl"@[0] == 'w' && "widowctrl"@[1] == 'i'
            && "widowctrl"@[2] == 'd' && "widowctrl"@[3] == 'o' && "widowctrl"@[4] == 'w'
            && "widowctrl"@[5] == 'c' && "widowctrl"@[6] == 't' && "widowctrl"@[7] == 'r'
            && "widowctrl"@[8] == 'l',
{
    reveal_strlit("ansi");
    reveal_strlit("mac");
    reveal_strlit("pc");
    reveal_strlit("pca");
    reveal_strlit("pard");
    reveal_strlit("plain");
    reveal_strlit("sectd");
    reveal_strlit("ql");
    reveal_strlit("qr");
    reveal_strlit("qc");
    reveal_strlit("qj");
    reveal_strlit("widowctrl");
}

/// How the names of the toggle table are spelled: the length of each, and its
/// letters one by one.
proof fn lemma_toggle_spellings()
    ensures
        "b"@.len() == 1 && "b"@[0] == 'b',
        "i"@.len() == 1 && "i"@[0] == 'i',
        "ul"@.len() == 2 && "ul"@[0] == 'u' && "ul"@[1] == 'l',
        "strike"@.len() == 6 && "strike"@[0] == 's' && "strike"@[1] == 't' && "strike"@[2] == 'r'
            && "strike"@[3] == 'i' && "strike"@[4] == 'k' && "strike"@[5] == 'e',
        "caps"@.len() == 4 && "caps"@[0] == 'c' && "caps"@[1] == 'a' && "caps"@[2] == 'p'
            && "caps"@[3] == 's',
        "scaps"@.len() == 5 && "scaps"@[0] == 's' && "scaps"@[1] == 'c' && "scaps"@[2] == 'a'
            && "scaps"@[3] == 'p' && "scaps"@[4] == 's',
        "v"@.len() == 1 && "v"@[0] == 'v',
        "outl"@.len() == 4 && "outl"@[0] == 'o' && "outl"@[1] == 'u' && "outl"@[2] == 't'
            && "outl"@[3] == 'l',
        "shad"@.len() == 4 && "shad"@[0] == 's' && "shad"@[1] == 'h' && "shad"@[2] == 'a'
            && "shad"@[3] == 'd',
{
    reveal_strlit("b");
    reveal_strlit("i");
    reveal_strlit("ul");
    reveal_strlit("strike");
    reveal_strlit("caps");
    reveal_strlit("scaps");
    reveal_strlit("v");
    reveal_strlit("outl");
    reveal_strlit("shad");
}

/// No name is held by two tables, so the order in which a name is looked up
/// in the tables decides nothing.
pub proof fn lemma_one_table_per_name(name: Seq<char>)
    ensures
        tables_holding(name) <= 1,
{
    lemma_destination_spellings();
    lemma_symbol_spellings();
    lemma_value_spellings();
    lemma_flag_spellings();
    lemma_toggle_spellings();
}

} // verus!
