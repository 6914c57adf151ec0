//! The names that the service accepts for users and for recipes.
//!
//! Both are built from ASCII letters and digits and the accented letters of
//! Hungarian. A user name may hold spaces, and periods that stand alone
//! between other characters. A recipe name may hold white space after its
//! first character, and hyphens that are each followed by something else.

use vstd::prelude::*;

verus! {

/// An ASCII letter or digit.
pub open spec fn is_alphanumeric(c: char) -> bool {
    ('a' <= c && c <= 'z') || ('A' <= c && c <= 'Z') || ('0' <= c && c <= '9')
}

/// One of the accented letters í á é ú ő ó ü ö ű, in either case.
pub open spec fn is_accented(c: char) -> bool {
    c == '\u{ed}' || c == '\u{e1}' || c == '\u{e9}' || c == '\u{fa}' || c == '\u{151}' || c
        == '\u{f3}' || c == '\u{fc}' || c == '\u{f6}' || c == '\u{171}' || c == '\u{cd}' || c
        == '\u{c1}' || c == '\u{c9}' || c == '\u{da}' || c == '\u{150}' || c == '\u{d3}' || c
        == '\u{dc}' || c == '\u{d6}' || c == '\u{170}'
}

/// A character with the Unicode property `White_Space`.
pub open spec fn is_white_space(c: char) -> bool {
    ('\u{9}' <= c && c <= '\u{d}') || c == ' ' || c == '\u{85}' || c == '\u{a0}' || c
        == '\u{1680}' || ('\u{2000}' <= c && c <= '\u{200a}') || c == '\u{2028}' || c
        == '\u{2029}' || c == '\u{202f}' || c == '\u{205f}' || c == '\u{3000}'
}

/// A character that a user name is made of, the period aside.
pub open spec fn is_username_char(c: char) -> bool {
    is_alphanumeric(c) || c == ' ' || is_accented(c)
}

/// A character that a recipe name can begin with.
pub open spec fn is_recipe_start(c: char) -> bool {
    is_alphanumeric(c) || c == '-' || is_accented(c)
}

/// A character that a recipe name goes on with, the hyphen aside.
pub open spec fn is_recipe_char(c: char) -> bool {
    is_alphanumeric(c) || is_accented(c) || is_white_space(c)
}

/// The user names that are accepted: not empty, made of the characters of
/// user names and periods, with no period at the start or at the end and no
/// two periods in a row.
pub open spec fn username_shape(name: Seq<char>) -> bool {
    &&& name.len() > 0
    &&& forall|i: int|
        0 <= i < name.len() ==> is_username_char(#[trigger] name[i]) || name[i] == '.'
    &&& name[0] != '.'
    &&& name[name.len() - 1] != '.'
    &&& forall|i: int|
        0 <= i < name.len() - 1 ==> !(#[trigger] name[i] == '.' && name[i + 1] == '.')
}

/// The recipe names that are accepted: not empty, begun by a character that
/// a recipe name can begin with, and continued by the characters of recipe
/// names and hyphens, where a hyphen after the first character is followed by
/// a character that is no hyphen.
pub open spec fn recipe_name_shape(name: Seq<char>) -> bool {
    &&& name.len() > 0
    &&& is_recipe_start(name[0])
    &&& forall|i: int|
        1 <= i < name.len() ==> is_recipe_char(#[trigger] name[i]) || name[i] == '-'
    &&& forall|i: int|
        1 <= i < name.len() && #[trigger] name[i] == '-' ==> i + 1 < name.len() && name[i + 1] != '-'
}

fn alphanumeric(c: char) -> (yes: bool)
    ensures
        yes == is_alphanumeric(c),
{
    ('a' <= c && c <= 'z') || ('A' <= c && c <= 'Z') || ('0' <= c && c <= '9')
}

fn accented(c: char) -> (yes: bool)
    ensures
        yes == is_accented(c),
{
    c == '\u{ed}' || c == '\u{e1}' || c == '\u{e9}' || c == '\u{fa}' || c == '\u{151}' || c
        == '\u{f3}' || c == '\u{fc}' || c == '\u{f6}' || c == '\u{171}' || c == '\u{cd}' || c
        == '\u{c1}' || c == '\u{c9}' || c == '\u{da}' || c == '\u{150}' || c == '\u{d3}' || c
        == '\u{dc}' || c == '\u{d6}' || c == '\u{170}'
}

fn white_space(c: char) -> (yes: bool)
    ensures
        yes == is_white_space(c),
{
    ('\u{9}' <= c && c <= '\u{d}') || c == ' ' || c == '\u{85}' || c == '\u{a0}' || c
        == '\u{1680}' || ('\u{2000}' <= c && c <= '\u{200a}') || c == '\u{2028}' || c
        == '\u{2029}' || c == '\u{202f}' || c == '\u{205f}' || c == '\u{3000}'
}

spec fn username_prefix(name: Seq<char>, upto: int) -> bool {
    forall|i: int|
        0 <= i < upto ==> (is_username_char(#[trigger] name[i]) || name[i] == '.') && (name[i]
            == '.' ==> i > 0 && name[i - 1] != '.')
}

/// Whether `name` is accepted as a user name: see [`username_shape`].
pub fn is_valid_username(name: &str) -> (valid: bool)
    ensures
        valid == username_shape(name@),
{
    let mut fine = true;
    let mut after_period = true;
    for c in it: name.chars()
        invariant
            it.seq() == name@,
            fine == username_prefix(name@, it.index() as int),
            after_period == (it.index() == 0 || name@[it.index() - 1] == '.'),
    {
        if c == '.' {
            if after_period {
                fine = false;
            }
            after_period = true;
        } else {
            if !(alphanumeric(c) || c == ' ' || accented(c)) {
                fine = false;
            }
            after_period = false;
        }
    }
    proof {
        let text = name@;
        if fine && !after_period {
            assert(username_shape(text)) by {
                assert forall|i: int| 0 <= i < text.len() - 1 implies !(#[trigger] text[i] == '.'
                    && text[i + 1] == '.') by {
                    let _ = text[i + 1];
                }
                let _ = text[0];
            }
        }
        if username_shape(text) {
            assert(username_prefix(text, text.len() as int)) by {
                assert forall|i: int| 0 <= i < text.len() implies (is_username_char(
                    #[trigger] text[i],
                ) || text[i] == '.') && (text[i] == '.' ==> i > 0 && text[i - 1] != '.') by {
                    if text[i] == '.' && i > 0 {
                        let _ = text[i - 1];
                    }
                }
            }
        }
    }
    fine && !after_period
}

spec fn recipe_prefix(name: Seq<char>, upto: int) -> bool {
    &&& upto > 0 ==> is_recipe_start(name[0])
    &&& forall|i: int|
        1 <= i < upto ==> (is_recipe_char(#[trigger] name[i]) || name[i] == '-') && (name[i] == '-'
            && i >= 2 ==> name[i - 1] != '-')
}

/// Whether `name` is accepted as a recipe name: see [`recipe_name_shape`].
pub fn is_valid_recipe_name(name: &str) -> (valid: bool)
    ensures
        valid == recipe_name_shape(name@),
{
    let mut fine = true;
    let mut first = true;
    let mut after_hyphen = false;
    for c in it: name.chars()
        invariant
            it.seq() == name@,
            first == (it.index() == 0),
            fine == recipe_prefix(name@, it.index() as int),
            after_hyphen == (it.index() >= 2 && name@[it.index() - 1] == '-'),
    {
        if first {
            if !(alphanumeric(c) || c == '-' || accented(c)) {
                fine = false;
            }
            first = false;
            after_hyphen = false;
        } else if c == '-' {
            if after_hyphen {
                fine = false;
            }
            after_hyphen = true;
        } else {
            if !(alphanumeric(c) || accented(c) || white_space(c)) {
                fine = false;
            }
            after_hyphen = false;
        }
    }
    proof {
        let text = name@;
        if fine && !first && !after_hyphen {
            assert(recipe_name_shape(text)) by {
                assert forall|i: int| 1 <= i < text.len() && #[trigger] text[i] == '-' implies i
                    + 1 < text.len() && text[i + 1] != '-' by {
                    if i + 1 < text.len() {
                        let _ = text[i + 1];
                    }
                }
            }
        }
        if recipe_name_shape(text) {
            assert(recipe_prefix(text, text.len() as int)) by {
                assert forall|i: int| 1 <= i < text.len() implies (is_recipe_char(
                    #[trigger] text[i],
                ) || text[i] == '-') && (text[i] == '-' && i >= 2 ==> text[i - 1] != '-') by {
                    if i >= 2 {
                        let _ = text[i - 1];
                    }
                }
            }
            if text.len() >= 2 {
                let _ = text[text.len() - 1];
            }
        }
    }
    fine && !first && !after_hyphen
}

} // verus!
