//! Configuration tags.
use vstd::prelude::*;

use crate::error::AppError;
use crate::text::{
    join_with, law_join_undoes_split, law_split_parts_hold_no_separator, law_split_undoes_join,
    split_char, split_on, texts,
};

verus! {

/// What a configuration tag looks like.
pub const CONFIG_TAG_REGEX: &'static str = "^[a-zA-Z0-9_-]{1,64}$";

/// A configuration tag: 1 to 64 ASCII letters, digits, underscores and dashes.
pub open spec fn is_config_tag(tag: Seq<char>) -> bool {
    &&& 1 <= tag.len() <= 64
    &&& forall|i: int| 0 <= i < tag.len() ==> is_tag_char(#[trigger] tag[i])
}

pub open spec fn is_tag_char(c: char) -> bool {
    ||| 'a' <= c <= 'z'
    ||| 'A' <= c <= 'Z'
    ||| '0' <= c <= '9'
    ||| c == '_'
    ||| c == '-'
}

/// `Regex::new`: the pattern for tags compiles.
#[verifier::external_body]
fn pattern_compiles(pattern: &str) -> (r: bool)
    requires
        pattern@ == CONFIG_TAG_REGEX@,
    ensures
        r,
{
    regex::Regex::new(pattern).is_ok()
}

/// `Regex::is_match`: the pattern for tags is anchored at both ends, so it matches exactly the
/// tags.
#[verifier::external_body]
fn pattern_matches(pattern: &str, text: &str) -> (r: bool)
    requires
        pattern@ == CONFIG_TAG_REGEX@,
    ensures
        r == is_config_tag(text@),
{
    regex::Regex::new(pattern).unwrap().is_match(text)
}

/// The tags that a comma separated list names; nothing if one of them is no tag.
pub open spec fn tags_of(list: Seq<char>) -> Option<Seq<Seq<char>>> {
    let parts = split_on(list, ',');
    if forall|i: int| 0 <= i < parts.len() ==> is_config_tag(#[trigger] parts[i]) {
        Some(parts)
    } else {
        None
    }
}

/// The tags of an optional comma separated list.
pub fn parse_config_tags(config_tags: Option<String>) -> (r: Result<Option<Vec<String>>, AppError>)
    ensures
        match config_tags {
            None => r matches Ok(None),
            Some(list) => match tags_of(list@) {
                Some(tags) => r matches Ok(Some(found)) && texts(found@) == tags,
                None => r matches Err(e) && e.is_bad_argument("Invalid config_tags value"@),
            },
        },
{
    if !pattern_compiles(CONFIG_TAG_REGEX) {
        return Err(AppError::unexpected("Something went wrong"));
    }
    match config_tags {
        None => Ok(None),
        Some(list) => {
            let tags: Vec<String> = split_char(list.as_str(), ',');
            let ghost parts = split_on(list@, ',');
            assert(texts(tags@).len() == tags@.len());
            for i in 0..tags.len()
                invariant
                    parts == split_on(list@, ','),
                    texts(tags@) == parts,
                    config_tags == Some(list),
                    forall|j: int| 0 <= j < i ==> is_config_tag(#[trigger] parts[j]),
            {
                assert(tags@[i as int]@ == parts[i as int]);
                if !pattern_matches(CONFIG_TAG_REGEX, tags[i].as_str()) {
                    return Err(AppError::bad_argument("Invalid config_tags value"));
                }
            }
            Ok(Some(tags))
        },
    }
}

/// Tags that are written as a comma separated list are read back unchanged.
pub proof fn law_tags_round_trip(tags: Seq<Seq<char>>)
    requires
        tags.len() >= 1,
        forall|i: int| 0 <= i < tags.len() ==> is_config_tag(#[trigger] tags[i]),
    ensures
        tags_of(join_with(tags, seq![','])) == Some(tags),
{
    assert forall|i: int| 0 <= i < tags.len() implies !(#[trigger] tags[i]).contains(',') by {
        assert(is_config_tag(tags[i]));
        if tags[i].contains(',') {
            let k = tags[i].index_of(',');
            assert(is_tag_char(tags[i][k]));
        }
    }
    law_split_undoes_join(tags, ',');
}

/// A list is accepted exactly when it is some tags with commas between them, and then these are the
/// tags.
pub proof fn law_list_is_its_tags(list: Seq<char>, tags: Seq<Seq<char>>)
    ensures
        tags_of(list) == Some(tags) <==> {
            &&& tags.len() >= 1
            &&& forall|i: int| 0 <= i < tags.len() ==> is_config_tag(#[trigger] tags[i])
            &&& join_with(tags, seq![',']) == list
        },
{
    if tags_of(list) == Some(tags) {
        law_join_undoes_split(list, ',');
        law_split_parts_hold_no_separator(list, ',');
    }
    if tags.len() >= 1 && (forall|i: int| 0 <= i < tags.len() ==> is_config_tag(#[trigger] tags[i]))
        && join_with(tags, seq![',']) == list {
        law_tags_round_trip(tags);
    }
}

} // verus!
