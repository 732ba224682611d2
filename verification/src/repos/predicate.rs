//! What the search patterns mean to the storage engine.
//!
//! The engine compares a text column with a pattern in which `%` stands for
//! any text, `_` for any one character and a backslash takes the special
//! meaning from the character behind it. A column without a value passes no
//! comparison. Case is ignored; which characters count as the same is the
//! engine's matter and enters here as a function that maps every character to
//! the one that stands for it.

use vstd::prelude::*;
use crate::routes::product_routes::contains_pattern;
use crate::routes::product_routes::SearchBy;

verus! {

/// Whether `text` is of the form that `pattern` describes.
pub open spec fn like(pattern: Seq<char>, text: Seq<char>, fold: spec_fn(char) -> char) -> bool
    decreases pattern.len(), text.len(),
{
    if pattern.len() == 0 {
        text.len() == 0
    } else if pattern[0] == '%' {
        like(pattern.skip(1), text, fold) || (text.len() > 0 && like(pattern, text.skip(1), fold))
    } else if pattern[0] == '_' {
        text.len() > 0 && like(pattern.skip(1), text.skip(1), fold)
    } else if pattern[0] == '\\' {
        pattern.len() > 1 && text.len() > 0 && fold(pattern[1]) == fold(text[0]) && like(
            pattern.skip(2),
            text.skip(1),
            fold,
        )
    } else {
        text.len() > 0 && fold(pattern[0]) == fold(text[0]) && like(
            pattern.skip(1),
            text.skip(1),
            fold,
        )
    }
}

/// Whether a column passes the comparison with `pattern`: it has a value,
/// and the value is of the pattern's form.
pub open spec fn column_passes(
    pattern: Seq<char>,
    column: Option<Seq<char>>,
    fold: spec_fn(char) -> char,
) -> bool {
    match column {
        Some(text) => like(pattern, text, fold),
        None => false,
    }
}

/// Whether `value` holds no character with a special meaning in a pattern.
pub open spec fn is_plain(value: Seq<char>) -> bool {
    forall|i: int|
        0 <= i < value.len() ==> #[trigger] value[i] != '%' && value[i] != '_' && value[i] != '\\'
}

/// Whether `value` stands in `text` at position `at`, case ignored.
pub open spec fn occurs_at(
    text: Seq<char>,
    value: Seq<char>,
    at: int,
    fold: spec_fn(char) -> char,
) -> bool {
    &&& 0 <= at
    &&& at + value.len() <= text.len()
    &&& forall|i: int| 0 <= i < value.len() ==> fold(#[trigger] value[i]) == fold(text[at + i])
}

/// Whether `value` stands somewhere in `text`, case ignored.
pub open spec fn contains_text(
    text: Seq<char>,
    value: Seq<char>,
    fold: spec_fn(char) -> char,
) -> bool {
    exists|at: int| occurs_at(text, value, at, fold)
}

spec fn tail_is_like(
    pattern: Seq<char>,
    text: Seq<char>,
    from: int,
    fold: spec_fn(char) -> char,
) -> bool {
    0 <= from <= text.len() && like(pattern, text.skip(from), fold)
}

proof fn lemma_percent_alone(text: Seq<char>, fold: spec_fn(char) -> char)
    ensures
        like(seq!['%'], text, fold),
    decreases text.len(),
{
    let pattern = seq!['%'];
    assert(pattern[0] == '%');
    assert(pattern.skip(1) =~= Seq::<char>::empty());
    assert(like(Seq::<char>::empty(), text, fold) == (text.len() == 0));
    if text.len() > 0 {
        lemma_percent_alone(text.skip(1), fold);
    }
}

proof fn lemma_plain_prefix(
    value: Seq<char>,
    rest: Seq<char>,
    text: Seq<char>,
    fold: spec_fn(char) -> char,
)
    requires
        is_plain(value),
    ensures
        like(value + rest, text, fold) <==> occurs_at(text, value, 0, fold) && like(
            rest,
            text.skip(value.len() as int),
            fold,
        ),
    decreases value.len(),
{
    if value.len() == 0 {
        assert(value + rest =~= rest);
        assert(text.skip(0) =~= text);
    } else {
        let pattern = value + rest;
        assert(pattern[0] == value[0]);
        assert(pattern.skip(1) =~= value.skip(1) + rest);
        assert forall|i: int| 0 <= i < value.skip(1).len() implies {
            &&& #[trigger] value.skip(1)[i] != '%'
            &&& value.skip(1)[i] != '_'
            &&& value.skip(1)[i] != '\\'
        } by {
            assert(value.skip(1)[i] == value[i + 1]);
        }
        if text.len() > 0 {
            lemma_plain_prefix(value.skip(1), rest, text.skip(1), fold);
            if text.len() >= value.len() {
                assert(text.skip(1).skip(value.skip(1).len() as int) =~= text.skip(
                    value.len() as int,
                ));
            }
            if occurs_at(text, value, 0, fold) {
                assert forall|i: int| 0 <= i < value.skip(1).len() implies fold(
                    #[trigger] value.skip(1)[i],
                ) == fold(text.skip(1)[0 + i]) by {
                    assert(value.skip(1)[i] == value[i + 1]);
                }
                assert(fold(value[0]) == fold(text[0int + 0]));
            }
            if fold(value[0]) == fold(text[0]) && occurs_at(text.skip(1), value.skip(1), 0, fold) {
                assert forall|i: int| 0 <= i < value.len() implies fold(#[trigger] value[i])
                    == fold(text[0 + i]) by {
                    if i > 0 {
                        assert(value.skip(1)[i - 1] == value[i]);
                        assert(text.skip(1)[0 + (i - 1)] == text[i]);
                    }
                }
            }
        }
    }
}

proof fn lemma_percent_first(rest: Seq<char>, text: Seq<char>, fold: spec_fn(char) -> char)
    ensures
        like(seq!['%'] + rest, text, fold) <==> exists|from: int|
            tail_is_like(rest, text, from, fold),
    decreases text.len(),
{
    let pattern = seq!['%'] + rest;
    assert(pattern[0] == '%');
    assert(pattern.skip(1) =~= rest);
    assert(text.skip(0) =~= text);
    if text.len() > 0 {
        lemma_percent_first(rest, text.skip(1), fold);
        if like(pattern, text.skip(1), fold) {
            let from = choose|from: int| tail_is_like(rest, text.skip(1), from, fold);
            assert(text.skip(1).skip(from) =~= text.skip(from + 1));
            assert(tail_is_like(rest, text, from + 1, fold));
        }
    }
    if like(rest, text, fold) {
        assert(tail_is_like(rest, text, 0, fold));
    }
    if exists|from: int| tail_is_like(rest, text, from, fold) {
        let from = choose|from: int| tail_is_like(rest, text, from, fold);
        if from > 0 {
            assert(text.skip(1).skip(from - 1) =~= text.skip(from));
            assert(tail_is_like(rest, text.skip(1), from - 1, fold));
        }
    }
}

/// A search that names no text admits every row that has a value in the
/// column, and no row that has none.
pub proof fn lemma_absent_text_admits_any_value(
    column: Option<Seq<char>>,
    fold: spec_fn(char) -> char,
)
    ensures
        column_passes(contains_pattern(None), column, fold) <==> column is Some,
{
    reveal_strlit("%");
    assert("%"@ =~= seq!['%']);
    if let Some(text) = column {
        lemma_percent_alone(text, fold);
    }
}

/// A search for a text without pattern characters admits exactly the rows
/// whose column holds that text somewhere, case ignored.
pub proof fn lemma_present_text_admits_containing_values(
    value: String,
    column: Option<Seq<char>>,
    fold: spec_fn(char) -> char,
)
    requires
        is_plain(value@),
    ensures
        column_passes(contains_pattern(Some(value)), column, fold) <==> (column matches Some(text)
            && contains_text(text, value@, fold)),
{
    reveal_strlit("%");
    assert("%"@ =~= seq!['%']);
    if let Some(text) = column {
        let rest = value@ + seq!['%'];
        assert(contains_pattern(Some(value)) =~= seq!['%'] + rest);
        lemma_percent_first(rest, text, fold);
        if like(seq!['%'] + rest, text, fold) {
            let from = choose|from: int| tail_is_like(rest, text, from, fold);
            lemma_plain_prefix(value@, seq!['%'], text.skip(from), fold);
            assert forall|i: int| 0 <= i < value@.len() implies fold(#[trigger] value@[i]) == fold(
                text[from + i],
            ) by {
                assert(text.skip(from)[0 + i] == text[from + i]);
            }
            assert(occurs_at(text, value@, from, fold));
        }
        if contains_text(text, value@, fold) {
            let at = choose|at: int| occurs_at(text, value@, at, fold);
            lemma_plain_prefix(value@, seq!['%'], text.skip(at), fold);
            assert forall|i: int| 0 <= i < value@.len() implies fold(#[trigger] value@[i]) == fold(
                text.skip(at)[0 + i],
            ) by {
                assert(text.skip(at)[0 + i] == text[at + i]);
            }
            lemma_percent_alone(text.skip(at).skip(value@.len() as int), fold);
            assert(tail_is_like(rest, text, at, fold));
        }
    }
}

/// Whether a product with the given name and description passes the search
/// of the product query: the name passes the comparison with the pattern of
/// the name, and the description passes the comparison with the pattern of
/// the description.
pub open spec fn product_passes(
    search: SearchBy,
    name: Option<Seq<char>>,
    description: Option<Seq<char>>,
    fold: spec_fn(char) -> char,
) -> bool {
    column_passes(contains_pattern(search.name), name, fold) && column_passes(
        contains_pattern(search.description),
        description,
        fold,
    )
}

/// Whether a column meets what is searched for in it: it has a value, and
/// the value holds the text that is searched for, where one is.
pub open spec fn column_holds(
    searched: Option<String>,
    column: Option<Seq<char>>,
    fold: spec_fn(char) -> char,
) -> bool {
    match (searched, column) {
        (Some(value), Some(text)) => contains_text(text, value@, fold),
        (None, Some(_)) => true,
        (_, None) => false,
    }
}

/// A product passes the search of the product query exactly when its name
/// holds the name that is searched for and its description holds the
/// description that is searched for, for texts without pattern characters.
/// A product whose name does not hold the searched name is excluded,
/// whatever its description and whether or not a description is searched
/// for; a column that nothing is searched for in only has to have a value.
pub proof fn lemma_product_search(
    search: SearchBy,
    name: Option<Seq<char>>,
    description: Option<Seq<char>>,
    fold: spec_fn(char) -> char,
)
    requires
        search.name matches Some(value) ==> is_plain(value@),
        search.description matches Some(value) ==> is_plain(value@),
    ensures
        product_passes(search, name, description, fold) <==> column_holds(search.name, name, fold)
            && column_holds(search.description, description, fold),
        !column_holds(search.name, name, fold) ==> !product_passes(
            search,
            name,
            description,
            fold,
        ),
        !column_holds(search.description, description, fold) ==> !product_passes(
            search,
            name,
            description,
            fold,
        ),
{
    match search.name {
        Some(value) => lemma_present_text_admits_containing_values(value, name, fold),
        None => lemma_absent_text_admits_any_value(name, fold),
    }
    match search.description {
        Some(value) => lemma_present_text_admits_containing_values(value, description, fold),
        None => lemma_absent_text_admits_any_value(description, fold),
    }
}

} // verus!
