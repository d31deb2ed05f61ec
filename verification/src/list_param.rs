//! Lists that are written as one comma separated string.
use vstd::prelude::*;

use crate::text::{split_char, split_on, texts};

verus! {

/// `parse` may answer `outcome` for the text `part`.
pub open spec fn parses_to<I, E, P: Fn(&str) -> Result<I, E>>(
    parse: P,
    part: Seq<char>,
    outcome: Result<I, E>,
) -> bool {
    exists|s: &str| s@ == part && #[trigger] call_ensures(parse, (s,), outcome)
}

/// The parts in front of part `n` gave `before`, and `parse` refused part `n` with `e`.
pub open spec fn refused_at<I, E, P: Fn(&str) -> Result<I, E>>(
    parse: P,
    parts: Seq<Seq<char>>,
    n: int,
    before: Seq<I>,
    e: E,
) -> bool {
    &&& 0 <= n < parts.len()
    &&& before.len() == n
    &&& forall|i: int|
        0 <= i < n ==> parses_to(parse, parts[i], Ok::<I, E>(#[trigger] before[i]))
    &&& parses_to(parse, parts[n], Err::<I, E>(e))
}

/// Reads every comma separated part of `v` with `parse`, from left to right, up to the first
/// part that `parse` refuses.
pub fn deserialize_stringified_list<I, E, P: Fn(&str) -> Result<I, E>>(
    v: &str,
    parse: P,
) -> (r: Result<Vec<I>, E>)
    requires
        forall|s: &str| #[trigger] call_requires(parse, (s,)),
    ensures
        r matches Ok(items) ==> {
            &&& items@.len() == split_on(v@, ',').len()
            &&& forall|i: int|
                0 <= i < items@.len() ==> parses_to(
                    parse,
                    split_on(v@, ',')[i],
                    Ok::<I, E>(#[trigger] items@[i]),
                )
        },
        r matches Err(e) ==> exists|n: int, before: Seq<I>| #[trigger]
            refused_at(parse, split_on(v@, ','), n, before, e),
{
    let parts: Vec<String> = split_char(v, ',');
    let ghost all = split_on(v@, ',');
    let mut items: Vec<I> = Vec::new();
    assert(texts(parts@).len() == parts@.len());
    for n in 0..parts.len()
        invariant
            all == split_on(v@, ','),
            texts(parts@) == all,
            forall|s: &str| #[trigger] call_requires(parse, (s,)),
            items@.len() == n,
            forall|i: int|
                0 <= i < n ==> parses_to(parse, all[i], Ok::<I, E>(#[trigger] items@[i])),
    {
        let part: &str = parts[n].as_str();
        assert(part@ == all[n as int]);
        match parse(part) {
            Ok(item) => {
                assert(call_ensures(parse, (part,), Ok::<I, E>(item)));
                assert(parses_to(parse, all[n as int], Ok::<I, E>(item)));
                items.push(item);
            },
            Err(e) => {
                assert(call_ensures(parse, (part,), Err::<I, E>(e)));
                let refusal: Result<Vec<I>, E> = Err(e);
                assert(refused_at(parse, all, n as int, items@, refusal->Err_0));
                return refusal;
            },
        }
    }
    Ok(items)
}

/// A refusal is that of the first part that is refused: every part in front of it was read.
pub proof fn law_first_refusal_counts<I, E, P: Fn(&str) -> Result<I, E>>(
    parse: P,
    parts: Seq<Seq<char>>,
    n: int,
    before: Seq<I>,
    e: E,
    i: int,
)
    requires
        refused_at(parse, parts, n, before, e),
        0 <= i < n,
    ensures
        n < parts.len(),
        exists|s: &str| s@ == parts[i] && #[trigger] call_ensures(
            parse,
            (s,),
            Ok::<I, E>(before[i]),
        ),
        exists|s: &str| s@ == parts[n] && #[trigger] call_ensures(parse, (s,), Err::<I, E>(e)),
{
    assert(parses_to(parse, parts[i], Ok::<I, E>(before[i])));
}

} // verus!
