//! Text building blocks: splitting, joining, and decimal numerals.
use vstd::prelude::*;

verus! {

/// `String::push`: appends one character.
pub assume_specification[ String::push ](s: &mut String, c: char)
    ensures
        final(s)@ == old(s)@.push(c),
;

/// The pieces of `s` between the occurrences of `sep`; without any occurrence, `s` itself.
pub open spec fn split_on(s: Seq<char>, sep: char) -> Seq<Seq<char>>
    decreases s.len(),
{
    if s.contains(sep) {
        let at = s.index_of_first(sep)->0;
        if 0 <= at < s.len() {
            seq![s.take(at)] + split_on(s.skip(at + 1), sep)
        } else {
            seq![s]
        }
    } else {
        seq![s]
    }
}

/// The parts written one after the other with `sep` between neighbours.
pub open spec fn join_with(parts: Seq<Seq<char>>, sep: Seq<char>) -> Seq<char>
    decreases parts.len(),
{
    if parts.len() == 0 {
        seq![]
    } else if parts.len() == 1 {
        parts[0]
    } else {
        parts[0] + sep + join_with(parts.skip(1), sep)
    }
}

/// The texts of a vector of strings.
pub open spec fn texts(v: Seq<String>) -> Seq<Seq<char>> {
    v.map_values(|s: String| s@)
}

proof fn lemma_split_head(head: Seq<char>, rest: Seq<char>, sep: char)
    requires
        !head.contains(sep),
    ensures
        split_on(head + seq![sep] + rest, sep) == seq![head] + split_on(rest, sep),
{
    let s = head + seq![sep] + rest;
    let n = head.len() as int;
    assert(s[n] == sep);
    assert(s.contains(sep));
    s.index_of_first_ensures(sep);
    let at = s.index_of_first(sep)->0;
    assert(at == n) by {
        if at < n {
            assert(head[at] == s[at]);
            assert(head.contains(sep));
        }
    }
    assert(s.take(at) =~= head);
    assert(s.skip(at + 1) =~= rest);
}

/// Splits `s` at every `sep`, as `str::split` does with a character.
pub fn split_char(s: &str, sep: char) -> (parts: Vec<String>)
    ensures
        texts(parts@) == split_on(s@, sep),
{
    let mut parts: Vec<String> = Vec::new();
    let mut current: String = String::new();
    let ghost whole = s@;
    assert(texts(parts@) =~= seq![]);
    assert(split_on(whole, sep) =~= texts(parts@) + split_on(current@ + whole.skip(0), sep)) by {
        assert(current@ + whole.skip(0) =~= whole);
    }
    for c in it: s.chars()
        invariant
            it.seq() == whole,
            !current@.contains(sep),
            split_on(whole, sep) == texts(parts@) + split_on(
                current@ + whole.skip(it.index()),
                sep,
            ),
    {
        let ghost at = it.index();
        assert(c == whole[at]);
        assert(current@ + whole.skip(at) =~= current@ + seq![c] + whole.skip(at + 1));
        if c == sep {
            proof {
                lemma_split_head(current@, whole.skip(at + 1), sep);
                assert(texts(parts@.push(current)) =~= texts(parts@).push(current@));
                assert(texts(parts@) + (seq![current@] + split_on(whole.skip(at + 1), sep))
                    =~= texts(parts@).push(current@) + split_on(whole.skip(at + 1), sep));
            }
            parts.push(current);
            current = String::new();
            assert(current@ + whole.skip(at + 1) =~= whole.skip(at + 1));
        } else {
            let ghost before = current@;
            current.push(c);
            assert(!current@.contains(sep)) by {
                assert forall|i: int| 0 <= i < current@.len() implies current@[i] != sep by {
                    if i < before.len() {
                        assert(before.contains(before[i]));
                    }
                }
            }
            assert(before + seq![c] + whole.skip(at + 1) =~= current@ + whole.skip(at + 1));
        }
    }
    proof {
        assert(current@ + whole.skip(whole.len() as int) =~= current@);
        assert(texts(parts@.push(current)) =~= texts(parts@).push(current@));
        assert(texts(parts@) + seq![current@] =~= texts(parts@).push(current@));
    }
    parts.push(current);
    parts
}

/// Joining undoes splitting: nothing of the text is lost.
pub proof fn law_join_undoes_split(s: Seq<char>, sep: char)
    ensures
        join_with(split_on(s, sep), seq![sep]) == s,
    decreases s.len(),
{
    if s.contains(sep) {
        s.index_of_first_ensures(sep);
        let at = s.index_of_first(sep)->0;
        let rest = s.skip(at + 1);
        law_join_undoes_split(rest, sep);
        law_split_parts_hold_no_separator(rest, sep);
        let parts = split_on(s, sep);
        assert(parts.skip(1) =~= split_on(rest, sep));
        assert(s.take(at) + seq![sep] + rest =~= s);
    }
}

/// Splitting yields at least one part, and no part holds the separator.
pub proof fn law_split_parts_hold_no_separator(s: Seq<char>, sep: char)
    ensures
        split_on(s, sep).len() >= 1,
        forall|i: int| 0 <= i < split_on(s, sep).len() ==> !(#[trigger] split_on(s, sep)[i]).contains(sep),
    decreases s.len(),
{
    if s.contains(sep) {
        s.index_of_first_ensures(sep);
        let at = s.index_of_first(sep)->0;
        let rest = s.skip(at + 1);
        law_split_parts_hold_no_separator(rest, sep);
        let parts = split_on(s, sep);
        assert forall|i: int| 0 <= i < parts.len() implies !(#[trigger] parts[i]).contains(sep) by {
            if i == 0 {
                assert forall|j: int| 0 <= j < parts[0].len() implies parts[0][j] != sep by {
                    assert(parts[0][j] == s[j]);
                }
            } else {
                assert(parts[i] == split_on(rest, sep)[i - 1]);
            }
        }
    }
}

/// Splitting undoes joining, for parts that do not hold the separator.
pub proof fn law_split_undoes_join(parts: Seq<Seq<char>>, sep: char)
    requires
        parts.len() >= 1,
        forall|i: int| 0 <= i < parts.len() ==> !(#[trigger] parts[i]).contains(sep),
    ensures
        split_on(join_with(parts, seq![sep]), sep) == parts,
    decreases parts.len(),
{
    if parts.len() == 1 {
        assert(seq![parts[0]] =~= parts);
    } else {
        let tail = parts.skip(1);
        assert forall|i: int| 0 <= i < tail.len() implies !(#[trigger] tail[i]).contains(sep) by {
            assert(tail[i] == parts[i + 1]);
        }
        law_split_undoes_join(tail, sep);
        lemma_split_head(parts[0], join_with(tail, seq![sep]), sep);
        assert(seq![parts[0]] + tail =~= parts);
    }
}

proof fn lemma_join_push(parts: Seq<Seq<char>>, last: Seq<char>, sep: Seq<char>)
    requires
        parts.len() >= 1,
    ensures
        join_with(parts.push(last), sep) == join_with(parts, sep) + sep + last,
    decreases parts.len(),
{
    let more = parts.push(last);
    assert(more.skip(1) =~= parts.skip(1).push(last));
    if parts.len() == 1 {
        assert(join_with(more.skip(1), sep) == last);
        assert(more[0] == parts[0]);
    } else {
        lemma_join_push(parts.skip(1), last, sep);
        assert(parts[0] + sep + (join_with(parts.skip(1), sep) + sep + last) =~= parts[0] + sep
            + join_with(parts.skip(1), sep) + sep + last);
    }
}

/// Joins the strings with `sep` between neighbours.
pub fn join_strings(parts: &Vec<String>, sep: &str) -> (joined: String)
    ensures
        joined@ == join_with(texts(parts@), sep@),
{
    let mut joined: String = String::new();
    let ghost all = texts(parts@);
    for i in 0..parts.len()
        invariant
            all == texts(parts@),
            joined@ == join_with(all.take(i as int), sep@),
    {
        assert(all.take(i as int + 1) =~= all.take(i as int).push(all[i as int]));
        if i > 0 {
            proof {
                lemma_join_push(all.take(i as int), all[i as int], sep@);
            }
            joined.append(sep);
            joined.append(parts[i].as_str());
        } else {
            joined.append(parts[i].as_str());
            assert(joined@ =~= all[0]);
        }
    }
    assert(all.take(parts.len() as int) =~= all);
    joined
}

/// Whether two texts are the same.
pub fn same_text(a: &str, b: &str) -> (r: bool)
    ensures
        r == (a@ == b@),
{
    a.to_owned() == b.to_owned()
}

/// `head`, then `middle`, then `tail`.
pub fn concat3(head: &str, middle: &str, tail: &str) -> (r: String)
    ensures
        r@ == head@ + middle@ + tail@,
{
    let mut r: String = head.to_owned();
    r.append(middle);
    r.append(tail);
    r
}

/// The character of a decimal digit.
pub open spec fn digit_char(d: nat) -> char {
    (('0' as int) + d) as char
}

/// The decimal numeral of `n`, without leading zeros.
pub open spec fn decimal(n: nat) -> Seq<char>
    decreases n,
{
    if n < 10 {
        seq![digit_char(n)]
    } else {
        decimal(n / 10).push(digit_char(n % 10))
    }
}

/// The decimal numeral of `n`, with a minus sign in front of a negative number.
pub open spec fn signed_decimal(n: int) -> Seq<char> {
    if n < 0 {
        seq!['-'] + decimal((-n) as nat)
    } else {
        decimal(n as nat)
    }
}

/// The decimal numeral of an unsigned number.
pub fn u64_to_string(n: u64) -> (r: String)
    ensures
        r@ == decimal(n as nat),
    decreases n,
{
    let digit: char = (48u8 + (n % 10) as u8) as char;
    let mut r: String = if n < 10 {
        String::new()
    } else {
        u64_to_string(n / 10)
    };
    r.push(digit);
    assert(n < 10 ==> r@ =~= decimal(n as nat));
    r
}

/// The decimal numeral of a signed number.
pub fn i64_to_string(n: i64) -> (r: String)
    ensures
        r@ == signed_decimal(n as int),
{
    if n < 0 {
        let magnitude: u64 = (-(n + 1)) as u64 + 1;
        let mut r: String = String::new();
        r.push('-');
        r.append(u64_to_string(magnitude).as_str());
        assert(r@ =~= seq!['-'] + decimal(magnitude as nat));
        r
    } else {
        u64_to_string(n as u64)
    }
}

proof fn lemma_decimal_chars(n: nat)
    ensures
        decimal(n).len() >= 1,
        forall|i: int| 0 <= i < decimal(n).len() ==> '0' <= #[trigger] decimal(n)[i] <= '9',
    decreases n,
{
    if n >= 10 {
        lemma_decimal_chars(n / 10);
    }
}

proof fn lemma_decimal_injective(a: nat, b: nat)
    requires
        decimal(a) == decimal(b),
    ensures
        a == b,
    decreases a,
{
    lemma_decimal_chars(a);
    lemma_decimal_chars(b);
    assert(digit_char(a % 10) == decimal(a).last());
    assert(digit_char(b % 10) == decimal(b).last());
    if a >= 10 {
        lemma_decimal_chars(a / 10);
        assert(decimal(a).drop_last() =~= decimal(a / 10));
        if b >= 10 {
            assert(decimal(b).drop_last() =~= decimal(b / 10));
            lemma_decimal_injective(a / 10, b / 10);
        }
    } else if b >= 10 {
        lemma_decimal_chars(b / 10);
    }
}

/// Different numbers have different numerals.
pub proof fn law_signed_decimal_injective(a: int, b: int)
    requires
        signed_decimal(a) == signed_decimal(b),
    ensures
        a == b,
{
    lemma_decimal_chars(if a < 0 { (-a) as nat } else { a as nat });
    lemma_decimal_chars(if b < 0 { (-b) as nat } else { b as nat });
    assert(signed_decimal(a)[0] == signed_decimal(b)[0]);
    assert(a >= 0 ==> '0' <= decimal(a as nat)[0]);
    assert(b >= 0 ==> '0' <= decimal(b as nat)[0]);
    if a < 0 {
        assert(b < 0);
        assert(signed_decimal(a).skip(1) =~= decimal((-a) as nat));
        assert(signed_decimal(b).skip(1) =~= decimal((-b) as nat));
        lemma_decimal_injective((-a) as nat, (-b) as nat);
    } else {
        assert(b >= 0);
        lemma_decimal_injective(a as nat, b as nat);
    }
}

/// A numeral followed by a dash can be read back: the dash that ends it is the first dash
/// after the first character.
pub proof fn lemma_signed_decimal_dash(n: int)
    ensures
        signed_decimal(n).len() >= 1,
        forall|i: int| 1 <= i < signed_decimal(n).len() ==> #[trigger] signed_decimal(n)[i] != '-',
{
    lemma_decimal_chars(if n < 0 { (-n) as nat } else { n as nat });
    if n < 0 {
        let d = decimal((-n) as nat);
        assert forall|i: int| 1 <= i < signed_decimal(n).len() implies #[trigger] signed_decimal(n)[i] != '-' by {
            assert(signed_decimal(n)[i] == d[i - 1]);
        }
    }
}

/// The number that a row of digits writes.
pub open spec fn numeral_value(digits: Seq<char>) -> int
    decreases digits.len(),
{
    if digits.len() == 0 {
        0
    } else {
        10 * numeral_value(digits.drop_last()) + (digits.last() as int - '0' as int)
    }
}

/// A numeral says its number: it is made of digits, the first of which is no zero unless it is the
/// only one, and read as a decimal number it gives the number back.
pub proof fn law_numeral_says_number(n: nat)
    ensures
        decimal(n).len() >= 1,
        forall|i: int| 0 <= i < decimal(n).len() ==> '0' <= #[trigger] decimal(n)[i] <= '9',
        decimal(n).len() > 1 ==> decimal(n)[0] != '0',
        numeral_value(decimal(n)) == n,
    decreases n,
{
    lemma_decimal_chars(n);
    let d = decimal(n);
    if n >= 10 {
        law_numeral_says_number(n / 10);
        assert(d.drop_last() =~= decimal(n / 10));
        assert(d.last() as int == '0' as int + n % 10);
        assert(d[0] == decimal(n / 10)[0]);
        if decimal(n / 10).len() == 1 && d[0] == '0' {
            assert(decimal(n / 10).drop_last() =~= seq![]);
            assert(numeral_value(decimal(n / 10).drop_last()) == 0);
        }
    } else {
        assert(d.drop_last() =~= seq![]);
        assert(numeral_value(d.drop_last()) == 0);
    }
}

/// A negative number is written as a dash and the numeral of its opposite, any other number as its
/// numeral.
pub proof fn law_sign_is_a_dash(n: nat)
    ensures
        signed_decimal(n as int) == decimal(n),
        n > 0 ==> signed_decimal(-(n as int)).len() == decimal(n).len() + 1,
        n > 0 ==> signed_decimal(-(n as int))[0] == '-',
        n > 0 ==> signed_decimal(-(n as int)).skip(1) == decimal(n),
{
    if n > 0 {
        assert(signed_decimal(-(n as int)).skip(1) =~= decimal(n));
    }
}

/// Joining nothing gives nothing, one part itself, and one part more adds a separator and the part.
pub proof fn law_join_adds_parts(parts: Seq<Seq<char>>, last: Seq<char>, sep: Seq<char>)
    ensures
        join_with(seq![], sep).len() == 0,
        join_with(seq![last], sep) == last,
        parts.len() >= 1 ==> join_with(parts.push(last), sep) == join_with(parts, sep) + sep + last,
{
    if parts.len() >= 1 {
        lemma_join_push(parts, last, sep);
    }
}

/// The texts of strings are their texts, one for each and in their order.
pub proof fn law_texts_are_kept(strings: Seq<String>, i: int)
    requires
        0 <= i < strings.len(),
    ensures
        texts(strings).len() == strings.len(),
        texts(strings)[i] == strings[i]@,
{
}

} // verus!
