//! HTTP headers and request bodies.
use vstd::prelude::*;

use reqwest::header::{HeaderMap, HeaderName, HeaderValue};
use std::str::FromStr;

use crate::text::same_text;

verus! {

/// A value of a header field; opaque here.
#[verifier::external_type_specification]
#[verifier::external_body]
pub struct ExHeaderValue(reqwest::header::HeaderValue);

/// A multimap from header names to values. What one holds is `header_contents`.
#[verifier::external_type_specification]
#[verifier::external_body]
#[verifier::reject_recursive_types(T)]
pub struct ExHeaderMap<T>(reqwest::header::HeaderMap<T>);

/// The values of a header map under each of its names (in lower case), in the order in which
/// they were added, each as its bytes.
pub uninterp spec fn header_contents(
    map: reqwest::header::HeaderMap<reqwest::header::HeaderValue>,
) -> Map<Seq<char>, Seq<Seq<u8>>>;

/// For each header name the values that it has.
pub type HeaderContents = Map<Seq<char>, Seq<Seq<u8>>>;

/// So many names fit into a header map however they hash: with this many the table never fills
/// to the fifth of its largest size from which on it may have to grow past that size. More names
/// fit as long as few of them collide.
pub const MAX_HEADER_NAMES: usize = 6553;

/// So many headers, of whatever names, can be made room for at most.
pub const MAX_HEADERS: usize = 32768;

/// The complaint about headers that a header map has no room for.
pub const HEADERS_FULL: &'static str = "size overflows MAX_SIZE";

/// A character that a header name may contain.
pub open spec fn is_header_name_char(c: char) -> bool {
    ||| 'a' <= c <= 'z'
    ||| 'A' <= c <= 'Z'
    ||| '0' <= c <= '9'
    ||| c == '!' || c == '"' || c == '#' || c == '$' || c == '%' || c == '&' || c == '\''
    ||| c == '*' || c == '+' || c == '-' || c == '.' || c == '^' || c == '_' || c == '`'
    ||| c == '|' || c == '~'
}

/// A header name: at least one and at most 65535 characters, all of them allowed.
pub open spec fn is_header_name(name: Seq<char>) -> bool {
    &&& 1 <= name.len() <= 65535
    &&& forall|i: int| 0 <= i < name.len() ==> is_header_name_char(#[trigger] name[i])
}

/// A header value: no control character but the tab.
pub open spec fn is_header_value(value: Seq<char>) -> bool {
    forall|i: int|
        0 <= i < value.len() ==> #[trigger] value[i] == '\t' || (value[i] >= ' ' && value[i]
            != '\u{7f}')
}

/// The lower case letter of an upper case ASCII letter; any other character itself.
pub open spec fn lower_char(c: char) -> char {
    if 'A' <= c <= 'Z' {
        ((c as int) + 32) as char
    } else {
        c
    }
}

/// The name in lower case.
pub open spec fn lower(name: Seq<char>) -> Seq<char> {
    name.map_values(|c: char| lower_char(c))
}

/// The contents after one more value was added under `name`.
pub open spec fn with_value(
    contents: HeaderContents,
    name: Seq<char>,
    value: Seq<u8>,
) -> HeaderContents {
    contents.insert(
        name,
        if contents.dom().contains(name) {
            contents[name].push(value)
        } else {
            seq![value]
        },
    )
}

/// `HeaderName::from_str`: accepts exactly the header names.
#[verifier::external_body]
fn accepts_header_name(name: &str) -> (r: bool)
    ensures
        r == is_header_name(name@),
{
    HeaderName::from_str(name).is_ok()
}

/// `HeaderValue::from_str`: accepts exactly the header values.
#[verifier::external_body]
fn accepts_header_value(value: &str) -> (r: bool)
    ensures
        r == is_header_value(value@),
{
    HeaderValue::from_str(value).is_ok()
}

/// `HeaderMap::new`: a map without headers.
#[verifier::external_body]
fn no_headers() -> (r: HeaderMap<HeaderValue>)
    ensures
        header_contents(r) == HeaderContents::empty(),
{
    HeaderMap::new()
}

/// `HeaderMap::try_reserve`: makes room for so many more names, unless the names were then more than
/// a map's largest table has places. What the map holds stays the same.
#[verifier::external_body]
fn reserve_headers(map: &mut HeaderMap<HeaderValue>, additional: usize) -> (r: bool)
    requires
        header_contents(*old(map)).dom().finite(),
    ensures
        header_contents(*final(map)) == header_contents(*old(map)),
        r == (header_contents(*old(map)).dom().len() + additional <= MAX_HEADERS),
{
    map.try_reserve(additional).is_ok()
}

/// `HeaderMap::try_append`: adds a value behind those that the name already has, where the name is
/// taken in lower case, as `HeaderName::from_str` makes it, and the value as its UTF-8 bytes; or
/// finds the map full. With up to `MAX_HEADER_NAMES` names it is not. Whether it is with more
/// depends on how the names hash, which is left unsaid.
#[verifier::external_body]
fn append_header(map: &mut HeaderMap<HeaderValue>, name: &str, value: &str) -> (r: bool)
    requires
        is_header_name(name@),
        is_header_value(value@),
    ensures
        r ==> header_contents(*final(map)) == with_value(
            header_contents(*old(map)),
            lower(name@),
            vstd::utf8::encode_utf8(value@),
        ),
        header_contents(*old(map)).dom().finite() && header_contents(*old(map)).dom().len()
            <= MAX_HEADER_NAMES ==> r,
{
    let (name, value) = (HeaderName::from_str(name).unwrap(), HeaderValue::from_str(value).unwrap());
    map.try_append(name, value).is_ok()
}

/// The texts of the entries.
pub open spec fn entry_texts(entries: Seq<(&str, &str)>) -> Seq<(Seq<char>, Seq<char>)> {
    entries.map_values(|e: (&str, &str)| (e.0@, e.1@))
}

/// Every entry is a header name with a header value.
pub open spec fn all_headers(entries: Seq<(Seq<char>, Seq<char>)>) -> bool {
    forall|i: int|
        0 <= i < entries.len() ==> is_header_name((#[trigger] entries[i]).0) && is_header_value(
            entries[i].1,
        )
}

/// The headers of the entries fit into a header map, however their names hash.
pub open spec fn headers_fit(entries: Seq<(Seq<char>, Seq<char>)>) -> bool {
    ||| entries.len() <= MAX_HEADER_NAMES
    ||| entries.len() <= MAX_HEADERS && headers_of(entries).dom().len() <= MAX_HEADER_NAMES
}

/// The contents of the map that holds exactly the entries, added one after the other.
pub open spec fn headers_of(entries: Seq<(Seq<char>, Seq<char>)>) -> HeaderContents
    decreases entries.len(),
{
    if entries.len() == 0 {
        Map::empty()
    } else {
        with_value(
            headers_of(entries.drop_last()),
            lower(entries.last().0),
            vstd::utf8::encode_utf8(entries.last().1),
        )
    }
}

proof fn lemma_headers_grow(entries: Seq<(Seq<char>, Seq<char>)>, n: int)
    requires
        0 <= n <= entries.len(),
    ensures
        headers_of(entries).dom().finite(),
        headers_of(entries).dom().len() <= entries.len(),
        headers_of(entries.take(n)).dom().subset_of(headers_of(entries).dom()),
    decreases entries.len(),
{
    if entries.len() > 0 {
        if n < entries.len() {
            lemma_headers_grow(entries.drop_last(), n);
            assert(entries.drop_last().take(n) =~= entries.take(n));
        } else {
            lemma_headers_grow(entries.drop_last(), n - 1);
            assert(entries.take(n) =~= entries);
        }
    }
}

/// The header map of the entries; or a complaint if one of them is no header, or if there are more
/// of them than the map has room for.
pub fn construct_request_headers(entries: &[(&str, &str)]) -> (r: Result<
    HeaderMap<HeaderValue>,
    String,
>)
    ensures
        !all_headers(entry_texts(entries@)) ==> (r matches Err(text) && text@
            == "failed to parse headers"@),
        all_headers(entry_texts(entries@)) ==> match r {
            Ok(map) => {
                &&& entries@.len() <= MAX_HEADERS
                &&& header_contents(map) == headers_of(entry_texts(entries@))
            },
            Err(text) => text@ == HEADERS_FULL@ && !headers_fit(entry_texts(entries@)),
        },
{
    let ghost all = entry_texts(entries@);
    for i in 0..entries.len()
        invariant
            all == entry_texts(entries@),
            forall|j: int|
                0 <= j < i ==> is_header_name((#[trigger] all[j]).0) && is_header_value(all[j].1),
    {
        let (name, value) = entries[i];
        assert(all[i as int] == (name@, value@));
        if !accepts_header_name(name) || !accepts_header_value(value) {
            return Err("failed to parse headers".to_owned());
        }
    }
    let mut map: HeaderMap<HeaderValue> = no_headers();
    if !reserve_headers(&mut map, entries.len()) {
        return Err(HEADERS_FULL.to_owned());
    }
    assert(all.take(0) =~= seq![]);
    for i in 0..entries.len()
        invariant
            all == entry_texts(entries@),
            all_headers(all),
            entries@.len() <= MAX_HEADERS,
            header_contents(map) == headers_of(all.take(i as int)),
    {
        let (name, value) = entries[i];
        assert(all[i as int] == (name@, value@));
        proof {
            lemma_headers_grow(all, i as int);
            lemma_headers_grow(all.take(i as int), i as int);
            vstd::set_lib::lemma_len_subset(
                headers_of(all.take(i as int)).dom(),
                headers_of(all).dom(),
            );
        }
        if !append_header(&mut map, name, value) {
            return Err(HEADERS_FULL.to_owned());
        }
        proof {
            assert(all.take(i as int + 1).drop_last() =~= all.take(i as int));
            assert(all.take(i as int + 1).last() == all[i as int]);
        }
    }
    assert(all.take(all.len() as int) =~= all);
    Ok(map)
}

/// The values of the entries that are called `name` up to case, in order.
pub open spec fn values_called(entries: Seq<(Seq<char>, Seq<char>)>, name: Seq<char>) -> Seq<Seq<u8>>
    decreases entries.len(),
{
    if entries.len() == 0 {
        seq![]
    } else {
        let front = values_called(entries.drop_last(), name);
        if lower(entries.last().0) == lower(name) {
            front.push(vstd::utf8::encode_utf8(entries.last().1))
        } else {
            front
        }
    }
}

/// Whatever the case in which an entry's name was written, the map has under the lower case name
/// exactly the values of all entries of that name, in order; and it has no other names.
pub proof fn law_headers_ignore_case(entries: Seq<(Seq<char>, Seq<char>)>, name: Seq<char>)
    ensures
        headers_of(entries).dom().contains(lower(name)) <==> values_called(entries, name).len() > 0,
        headers_of(entries).dom().contains(lower(name)) ==> headers_of(entries)[lower(name)]
            == values_called(entries, name),
    decreases entries.len(),
{
    if entries.len() > 0 {
        law_headers_ignore_case(entries.drop_last(), name);
        let front = values_called(entries.drop_last(), name);
        let value = vstd::utf8::encode_utf8(entries.last().1);
        if lower(entries.last().0) == lower(name) && front.len() == 0 {
            assert(front.push(value) =~= seq![value]);
        }
    }
}

/// The bytes of a header value are all visible ASCII characters, spaces or tabs.
pub open spec fn is_visible(bytes: Seq<u8>) -> bool {
    forall|i: int| 0 <= i < bytes.len() ==> #[trigger] bytes[i] == 9 || 32 <= bytes[i] < 127
}

/// The text of ASCII bytes.
pub open spec fn ascii_text(bytes: Seq<u8>) -> Seq<char> {
    bytes.map_values(|b: u8| b as char)
}

/// `HeaderValue::to_str`, for a value with the given bytes: the text of a visible value, and
/// nothing for another one. (`HeaderValue::from_bytes` refuses no visible value.)
#[verifier::external_body]
pub(crate) fn header_text(bytes: &[u8]) -> (r: Option<String>)
    ensures
        match r {
            Some(text) => is_visible(bytes@) && text@ == ascii_text(bytes@),
            None => !is_visible(bytes@),
        },
{
    match HeaderValue::from_bytes(bytes) {
        Ok(value) => match value.to_str() {
            Ok(text) => Some(text.to_string()),
            Err(_) => None,
        },
        Err(_) => None,
    }
}

/// The body that a request is sent with: requests with the method GET or DELETE have none.
pub fn body_to_send<T>(method: &str, body: Option<T>) -> (r: Option<T>)
    ensures
        r == (if method@ == "GET"@ || method@ == "DELETE"@ {
            None
        } else {
            body
        }),
{
    if same_text(method, "GET") || same_text(method, "DELETE") {
        None
    } else {
        body
    }
}

/// One entry more adds its value behind those of the same name, whatever the case of the name, and
/// leaves the values of every other name as they are.
pub proof fn law_entry_adds_value(
    entries: Seq<(Seq<char>, Seq<char>)>,
    name: Seq<char>,
    value: Seq<char>,
    other: Seq<char>,
)
    ensures
        headers_of(seq![]).dom() == Set::<Seq<char>>::empty(),
        headers_of(entries.push((name, value))).dom() == headers_of(entries).dom().insert(
            lower(name),
        ),
        headers_of(entries.push((name, value)))[lower(name)] == (if headers_of(
            entries,
        ).dom().contains(lower(name)) {
            headers_of(entries)[lower(name)]
        } else {
            seq![]
        }) + seq![vstd::utf8::encode_utf8(value)],
        other != lower(name) && headers_of(entries).dom().contains(other) ==> headers_of(
            entries.push((name, value)),
        )[other] == headers_of(entries)[other],
{
    let more = entries.push((name, value));
    assert(more.drop_last() =~= entries);
    assert(headers_of(more)[lower(name)] =~= (if headers_of(entries).dom().contains(lower(name)) {
        headers_of(entries)[lower(name)]
    } else {
        seq![]
    }) + seq![vstd::utf8::encode_utf8(value)]);
}

/// Names are the same in lower case exactly when they are equal but for the case of ASCII letters.
pub proof fn law_lower_ignores_case(name: Seq<char>, other: Seq<char>)
    ensures
        lower(name) == lower(other) <==> name.len() == other.len() && forall|i: int|
            0 <= i < name.len() ==> {
                ||| #[trigger] name[i] == other[i]
                ||| 'A' <= name[i] <= 'Z' && other[i] as int == name[i] as int + 32
                ||| 'A' <= other[i] <= 'Z' && name[i] as int == other[i] as int + 32
            },
{
    if lower(name) == lower(other) {
        assert(lower(name).len() == lower(other).len());
        assert forall|i: int| 0 <= i < name.len() implies {
            ||| #[trigger] name[i] == other[i]
            ||| 'A' <= name[i] <= 'Z' && other[i] as int == name[i] as int + 32
            ||| 'A' <= other[i] <= 'Z' && name[i] as int == other[i] as int + 32
        } by {
            assert(lower(name)[i] == lower(other)[i]);
        }
    }
    if name.len() == other.len() && (forall|i: int|
        0 <= i < name.len() ==> {
            ||| #[trigger] name[i] == other[i]
            ||| 'A' <= name[i] <= 'Z' && other[i] as int == name[i] as int + 32
            ||| 'A' <= other[i] <= 'Z' && name[i] as int == other[i] as int + 32
        }) {
        assert(lower(name) =~= lower(other));
    }
}

/// Entries are headers one by one: a list is all headers exactly when both of its parts are, and a
/// single entry exactly when its name is a header name and its value a header value.
pub proof fn law_headers_one_by_one(
    first: Seq<(Seq<char>, Seq<char>)>,
    second: Seq<(Seq<char>, Seq<char>)>,
    name: Seq<char>,
    value: Seq<char>,
)
    ensures
        all_headers(seq![]),
        all_headers(seq![(name, value)]) <==> is_header_name(name) && is_header_value(value),
        all_headers(first + second) <==> all_headers(first) && all_headers(second),
{
    let one = seq![(name, value)];
    assert(one[0] == (name, value));
    let both = first + second;
    assert(forall|i: int| 0 <= i < first.len() ==> #[trigger] first[i] == both[i]);
    assert forall|i: int| 0 <= i < second.len() implies #[trigger] second[i] == both[
        first.len() + i] by {}
    if all_headers(both) {
        assert forall|i: int| 0 <= i < second.len() implies is_header_name((#[trigger] second[i]).0)
            && is_header_value(second[i].1) by {
            assert(is_header_name(both[first.len() + i].0));
        }
    }
    if all_headers(first) && all_headers(second) {
        assert forall|i: int| 0 <= i < both.len() implies is_header_name((#[trigger] both[i]).0)
            && is_header_value(both[i].1) by {
            if i < first.len() {
                assert(is_header_name(first[i].0));
            } else {
                assert(both[i] == second[i - first.len()]);
            }
        }
    }
}

/// Up to `MAX_HEADER_NAMES` entries always fit, and so do up to `MAX_HEADERS` of no more names than
/// that.
pub proof fn law_few_headers_fit(entries: Seq<(Seq<char>, Seq<char>)>)
    ensures
        entries.len() <= MAX_HEADER_NAMES ==> headers_fit(entries),
        entries.len() <= MAX_HEADERS && headers_of(entries).dom().len() <= MAX_HEADER_NAMES
            ==> headers_fit(entries),
{
}

} // verus!
