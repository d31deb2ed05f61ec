//! Reading dimensions out of a context that is written in JSON logic.
//!
//! A context is one condition, or several under `and`. A condition maps operators to operand
//! lists, and of each operand list one operand names a variable and the other is its value.
use vstd::prelude::*;

use crate::error::AppError;
use crate::json::{
    as_map, clone_items, law_lookup_finds_keys, law_map_keeps_last, lookup, unique_keys, Json,
    JsonMap, JsonView, Members,
};

verus! {

/// The operand is an object with a member `var`.
pub open spec fn is_variable(operand: JsonView) -> bool {
    operand matches JsonView::Object(m) && lookup(m, "var"@) is Some
}

/// The position of the first operand that is a variable; the number of operands if none is.
pub open spec fn first_variable(operands: Seq<JsonView>) -> int
    decreases operands.len(),
{
    if operands.len() == 0 || is_variable(operands[0]) {
        0
    } else {
        1 + first_variable(operands.skip(1))
    }
}

/// The variable that an operand list names, with its value; or the text of the complaint.
pub open spec fn variable_of(operands: Seq<JsonView>) -> Result<(Seq<char>, JsonView), Seq<char>> {
    let at = first_variable(operands);
    if at >= operands.len() {
        Err("Failed to get variable name from operands list. Ensure the context provided obeys the rules of JSON logic"@)
    } else {
        match lookup(operands[at]->Object_0, "var"@) {
            Some(JsonView::Str(name)) => {
                let value_at = (at + 1) % 2;
                if value_at < operands.len() {
                    Ok((name, operands[value_at]))
                } else {
                    Err("Failed to get variable value from operands list. Ensure the context provided obeys the rules of JSON logic"@)
                }
            },
            _ => Err("Failed to get variable name as string. Ensure the context provided obeys the rules of JSON logic"@),
        }
    }
}

/// The conditions that a context joins.
pub open spec fn conditions_of(context: Members) -> Result<Seq<JsonView>, Seq<char>> {
    match lookup(context, "and"@) {
        Some(JsonView::Array(conditions)) => Ok(conditions),
        Some(_) => Err("Error extracting dimensions, failed parsing conditions as an array. Ensure the context provided obeys the rules of JSON logic"@),
        None => Ok(seq![JsonView::Object(context)]),
    }
}

/// What one operator of a condition says: a variable and its value.
pub open spec fn operator_variable(operands: JsonView) -> Result<(Seq<char>, JsonView), Seq<char>> {
    match operands {
        JsonView::Array(items) => variable_of(items),
        _ => Err("Failed to parse operands as an arrays. Ensure the context provided obeys the rules of JSON logic"@),
    }
}

/// The variables of a condition's operators, in order; or the first complaint.
pub open spec fn operator_variables(operators: Members) -> Result<Members, Seq<char>>
    decreases operators.len(),
{
    if operators.len() == 0 {
        Ok(seq![])
    } else {
        match operator_variables(operators.drop_last()) {
            Err(e) => Err(e),
            Ok(front) => match operator_variable(operators.last().1) {
                Err(e) => Err(e),
                Ok(variable) => Ok(front.push(variable)),
            },
        }
    }
}

/// The variables of one condition.
pub open spec fn condition_variables(condition: JsonView) -> Result<Members, Seq<char>> {
    match condition {
        JsonView::Object(operators) => operator_variables(operators),
        _ => Err("Failed to parse condition as an object. Ensure the context provided obeys the rules of JSON logic"@),
    }
}

/// The variables of all conditions, in order; or the first complaint.
pub open spec fn all_variables(conditions: Seq<JsonView>) -> Result<Members, Seq<char>>
    decreases conditions.len(),
{
    if conditions.len() == 0 {
        Ok(seq![])
    } else {
        match all_variables(conditions.drop_last()) {
            Err(e) => Err(e),
            Ok(front) => match condition_variables(conditions.last()) {
                Err(e) => Err(e),
                Ok(more) => Ok(front + more),
            },
        }
    }
}

/// The dimensions of a context: its variables with their values, where of two values for one
/// variable the later one counts.
pub open spec fn dimensions_of(context: Members) -> Result<Map<Seq<char>, JsonView>, Seq<char>> {
    match conditions_of(context) {
        Err(e) => Err(e),
        Ok(conditions) => match all_variables(conditions) {
            Err(e) => Err(e),
            Ok(variables) => Ok(as_map(variables)),
        },
    }
}

/// What a list of values says.
pub open spec fn views(items: Seq<Json>) -> Seq<JsonView> {
    items.map_values(|j: Json| j@)
}

proof fn lemma_first_variable_skips(operands: Seq<JsonView>, n: int)
    requires
        0 <= n <= operands.len(),
        forall|j: int| 0 <= j < n ==> !is_variable(#[trigger] operands[j]),
    ensures
        first_variable(operands) == n + first_variable(operands.skip(n)),
    decreases n,
{
    if n == 0 {
        assert(operands.skip(0) =~= operands);
    } else {
        let rest = operands.skip(1);
        assert forall|j: int| 0 <= j < n - 1 implies !is_variable(#[trigger] rest[j]) by {
            assert(rest[j] == operands[j + 1]);
        }
        lemma_first_variable_skips(rest, n - 1);
        assert(rest.skip(n - 1) =~= operands.skip(n));
    }
}

/// The variable that an operand list names, with its value.
pub fn get_variable_name_and_value(operands: &[Json]) -> (r: Result<(&str, &Json), AppError>)
    ensures
        match variable_of(views(operands@)) {
            Ok((name, value)) => r matches Ok(pair) && pair.0@ == name && pair.1@ == value,
            Err(text) => r matches Err(e) && e.is_bad_argument(text),
        },
{
    let ghost ops = views(operands@);
    for at in 0..operands.len()
        invariant
            ops == views(operands@),
            forall|j: int| 0 <= j < at ==> !is_variable(#[trigger] ops[j]),
    {
        proof {
            lemma_first_variable_skips(ops, at as int);
            assert(ops.skip(at as int)[0] == ops[at as int]);
        }
        if let Json::Object(members) = &operands[at] {
            assert(ops[at as int] == JsonView::Object(members@));
            if let Some(name) = members.get("var") {
                assert(first_variable(ops) == at);
                return match name {
                    Json::Str(name) => {
                        let value_at: usize = if at % 2 == 0 { 1 } else { 0 };
                        assert(value_at == (at as int + 1) % 2);
                        if value_at < operands.len() {
                            Ok((name.as_str(), &operands[value_at]))
                        } else {
                            Err(
                                AppError::bad_argument(
                                    "Failed to get variable value from operands list. Ensure the context provided obeys the rules of JSON logic",
                                ),
                            )
                        }
                    },
                    _ => Err(
                        AppError::bad_argument(
                            "Failed to get variable name as string. Ensure the context provided obeys the rules of JSON logic",
                        ),
                    ),
                };
            }
        }
    }
    proof {
        lemma_first_variable_skips(ops, ops.len() as int);
    }
    Err(
        AppError::bad_argument(
            "Failed to get variable name from operands list. Ensure the context provided obeys the rules of JSON logic",
        ),
    )
}

proof fn lemma_operator_error_stays(operators: Members, n: int)
    requires
        0 <= n <= operators.len(),
        operator_variables(operators.take(n)) is Err,
    ensures
        operator_variables(operators) == operator_variables(operators.take(n)),
    decreases operators.len(),
{
    if n == operators.len() {
        assert(operators.take(n) =~= operators);
    } else {
        assert(operators.drop_last().take(n) =~= operators.take(n));
        lemma_operator_error_stays(operators.drop_last(), n);
    }
}

proof fn lemma_condition_error_stays(conditions: Seq<JsonView>, n: int)
    requires
        0 <= n <= conditions.len(),
        all_variables(conditions.take(n)) is Err,
    ensures
        all_variables(conditions) == all_variables(conditions.take(n)),
    decreases conditions.len(),
{
    if n == conditions.len() {
        assert(conditions.take(n) =~= conditions);
    } else {
        assert(conditions.drop_last().take(n) =~= conditions.take(n));
        lemma_condition_error_stays(conditions.drop_last(), n);
    }
}

/// Adds the variables of one condition to the dimensions gathered so far.
fn add_condition(condition: &Json, found: &mut JsonMap, gathered: Ghost<Members>) -> (r: Result<
    (),
    AppError,
>)
    requires
        unique_keys(old(found)@),
        as_map(old(found)@) == as_map(gathered@),
    ensures
        match condition_variables(condition@) {
            Ok(more) => {
                &&& r is Ok
                &&& unique_keys(final(found)@)
                &&& as_map(final(found)@) == as_map(gathered@ + more)
            },
            Err(text) => r matches Err(e) && e.is_bad_argument(text),
        },
{
    let operators: &JsonMap = match condition {
        Json::Object(operators) => operators,
        _ => {
            return Err(
                AppError::bad_argument(
                    "Failed to parse condition as an object. Ensure the context provided obeys the rules of JSON logic",
                ),
            );
        },
    };
    let ghost ops = operators@;
    let ghost mut more: Members = seq![];
    proof {
        assert(ops.take(0) =~= seq![]);
        assert(gathered@ + more =~= gathered@);
    }
    for i in 0..operators.entries.len()
        invariant
            ops == operators@,
            condition@ == JsonView::Object(ops),
            operator_variables(ops.take(i as int)) == Ok::<Members, Seq<char>>(more),
            unique_keys(found@),
            as_map(found@) == as_map(gathered@ + more),
    {
        let ghost at = i as int;
        proof {
            assert(ops.take(at + 1).drop_last() =~= ops.take(at));
            assert(ops.take(at + 1).last() == ops[at]);
            assert(ops[at].1 == operators.entries@[at].1@);
            if operator_variables(ops.take(at + 1)) is Err {
                lemma_operator_error_stays(ops, at + 1);
            }
        }
        let operands: &Vec<Json> = match &operators.entries[i].1 {
            Json::Array(operands) => operands,
            _ => {
                return Err(
                    AppError::bad_argument(
                        "Failed to parse operands as an arrays. Ensure the context provided obeys the rules of JSON logic",
                    ),
                );
            },
        };
        assert(views(operands@) =~= ops[at].1->Array_0);
        match get_variable_name_and_value(operands.as_slice()) {
            Err(e) => {
                return Err(e);
            },
            Ok((name, value)) => {
                let ghost variable = (name@, value@);
                found.insert(name.to_owned(), value.clone());
                proof {
                    assert((gathered@ + more.push(variable)).drop_last() =~= gathered@ + more);
                    more = more.push(variable);
                }
            },
        }
    }
    assert(ops.take(ops.len() as int) =~= ops);
    Ok(())
}

/// The dimensions that a context names, with their values.
pub fn extract_dimensions(context: &JsonMap) -> (r: Result<JsonMap, AppError>)
    ensures
        match dimensions_of(context@) {
            Ok(dimensions) => r matches Ok(map) && unique_keys(map@) && as_map(map@) == dimensions,
            Err(text) => r matches Err(e) && e.is_bad_argument(text),
        },
{
    let mut found: JsonMap = JsonMap::new();
    let conditions: Vec<Json> = match context.get("and") {
        Some(Json::Array(conditions)) => {
            clone_items(conditions)
        },
        Some(_) => {
            return Err(
                AppError::bad_argument(
                    "Error extracting dimensions, failed parsing conditions as an array. Ensure the context provided obeys the rules of JSON logic",
                ),
            );
        },
        None => {
            let mut one: Vec<Json> = Vec::new();
            one.push(Json::Object(context.clone()));
            one
        },
    };
    let ghost conds = views(conditions@);
    let ghost mut gathered: Members = seq![];
    assert(conditions_of(context@)->Ok_0 =~= conds);
    assert(conds.take(0) =~= seq![]);
    for i in 0..conditions.len()
        invariant
            conds == views(conditions@),
            conditions_of(context@) == Ok::<Seq<JsonView>, Seq<char>>(conds),
            all_variables(conds.take(i as int)) == Ok::<Members, Seq<char>>(gathered),
            unique_keys(found@),
            as_map(found@) == as_map(gathered),
    {
        let ghost at = i as int;
        proof {
            assert(conds.take(at + 1).drop_last() =~= conds.take(at));
            assert(conds.take(at + 1).last() == conds[at]);
            if all_variables(conds.take(at + 1)) is Err {
                lemma_condition_error_stays(conds, at + 1);
            }
        }
        match add_condition(&conditions[i], &mut found, Ghost(gathered)) {
            Err(e) => {
                return Err(e);
            },
            Ok(_) => {
                proof {
                    gathered = all_variables(conds.take(at + 1))->Ok_0;
                }
            },
        }
    }
    assert(conds.take(conds.len() as int) =~= conds);
    Ok(found)
}

/// Which operand comes first does not matter: a variable and a value that is no variable give
/// the same dimension in either order.
pub proof fn law_operand_order(variable: Members, name: Seq<char>, value: JsonView)
    requires
        lookup(variable, "var"@) == Some(JsonView::Str(name)),
        !is_variable(value),
    ensures
        variable_of(seq![JsonView::Object(variable), value]) == Ok::<
            (Seq<char>, JsonView),
            Seq<char>,
        >((name, value)),
        variable_of(seq![value, JsonView::Object(variable)]) == Ok::<
            (Seq<char>, JsonView),
            Seq<char>,
        >((name, value)),
{
    let swapped = seq![value, JsonView::Object(variable)];
    assert(swapped.skip(1)[0] == JsonView::Object(variable));
    assert(first_variable(swapped.skip(1)) == 0);
}

/// A context without `and` has the dimensions of the conjunction of that one condition.
pub proof fn law_single_condition(context: Members)
    requires
        lookup(context, "and"@) is None,
    ensures
        dimensions_of(context) == dimensions_of(
            seq![("and"@, JsonView::Array(seq![JsonView::Object(context)]))],
        ),
{
}

/// The dimensions of a longer conjunction are those of its two parts together, and where both
/// name a dimension the later part decides.
pub proof fn law_conjunction(first: Seq<JsonView>, second: Seq<JsonView>)
    requires
        all_variables(first) is Ok,
        all_variables(second) is Ok,
    ensures
        dimensions_of(seq![("and"@, JsonView::Array(first + second))]) == Ok::<
            Map<Seq<char>, JsonView>,
            Seq<char>,
        >(
            as_map(all_variables(first)->Ok_0).union_prefer_right(
                as_map(all_variables(second)->Ok_0),
            ),
        ),
{
    lemma_all_variables_concat(first, second);
    lemma_as_map_concat(all_variables(first)->Ok_0, all_variables(second)->Ok_0);
}

proof fn lemma_all_variables_concat(first: Seq<JsonView>, second: Seq<JsonView>)
    requires
        all_variables(first) is Ok,
        all_variables(second) is Ok,
    ensures
        all_variables(first + second) == Ok::<Members, Seq<char>>(
            all_variables(first)->Ok_0 + all_variables(second)->Ok_0,
        ),
    decreases second.len(),
{
    if second.len() == 0 {
        assert(first + second =~= first);
        assert(all_variables(first)->Ok_0 + all_variables(second)->Ok_0 =~= all_variables(
            first,
        )->Ok_0);
    } else {
        lemma_all_variables_concat(first, second.drop_last());
        assert((first + second).drop_last() =~= first + second.drop_last());
        let more = condition_variables(second.last())->Ok_0;
        assert(all_variables(first)->Ok_0 + all_variables(second.drop_last())->Ok_0 + more
            =~= all_variables(first)->Ok_0 + all_variables(second)->Ok_0);
    }
}

proof fn lemma_as_map_concat(first: Members, second: Members)
    ensures
        as_map(first + second) == as_map(first).union_prefer_right(as_map(second)),
    decreases second.len(),
{
    if second.len() == 0 {
        assert(first + second =~= first);
    } else {
        lemma_as_map_concat(first, second.drop_last());
        assert((first + second).drop_last() =~= first + second.drop_last());
    }
    assert(as_map(first + second) =~= as_map(first).union_prefer_right(as_map(second)));
}

/// What an operand list names depends on its first operand that is an object with a member `var`:
/// the text of that member is the variable, and the value is the operand at its side, the second
/// one for a variable at an even position and the first one for any other. Without such an operand,
/// with a member that is no text, or without a value, there is a complaint.
pub proof fn law_first_variable_decides(operands: Seq<JsonView>, at: int, variable: Members)
    requires
        0 <= at < operands.len(),
        operands[at] == JsonView::Object(variable),
        lookup(variable, "var"@) is Some,
        forall|j: int|
            0 <= j < at ==> !(#[trigger] operands[j] matches JsonView::Object(m) && lookup(
                m,
                "var"@,
            ) is Some),
    ensures
        lookup(variable, "var"@) matches Some(JsonView::Str(name)) ==> {
            &&& at % 2 == 1 ==> operator_variable(JsonView::Array(operands)) == Ok::<
                (Seq<char>, JsonView),
                Seq<char>,
            >((name, operands[0]))
            &&& at % 2 == 0 && operands.len() >= 2 ==> operator_variable(JsonView::Array(operands))
                == Ok::<(Seq<char>, JsonView), Seq<char>>((name, operands[1]))
            &&& operands.len() == 1 ==> operator_variable(JsonView::Array(operands)) == Err::<
                (Seq<char>, JsonView),
                Seq<char>,
            >(
                "Failed to get variable value from operands list. Ensure the context provided obeys the rules of JSON logic"@,
            )
        },
        !(lookup(variable, "var"@)->0 is Str) ==> operator_variable(JsonView::Array(operands))
            == Err::<(Seq<char>, JsonView), Seq<char>>(
            "Failed to get variable name as string. Ensure the context provided obeys the rules of JSON logic"@,
        ),
        variable_of(operands) == operator_variable(JsonView::Array(operands)),
{
    assert forall|j: int| 0 <= j < at implies !is_variable(#[trigger] operands[j]) by {}
    lemma_first_variable_skips(operands, at);
    assert(operands.skip(at)[0] == operands[at]);
}

/// Operands none of which is an object with a member `var` name no variable, nor do operands that
/// are no list.
pub proof fn law_variable_is_needed(operands: Seq<JsonView>, other: JsonView)
    requires
        forall|j: int|
            0 <= j < operands.len() ==> !(#[trigger] operands[j] matches JsonView::Object(m)
                && lookup(m, "var"@) is Some),
        !(other is Array),
    ensures
        variable_of(operands) == Err::<(Seq<char>, JsonView), Seq<char>>(
            "Failed to get variable name from operands list. Ensure the context provided obeys the rules of JSON logic"@,
        ),
        operator_variable(JsonView::Array(operands)) == variable_of(operands),
        operator_variable(other) == Err::<(Seq<char>, JsonView), Seq<char>>(
            "Failed to parse operands as an arrays. Ensure the context provided obeys the rules of JSON logic"@,
        ),
{
    assert forall|j: int| 0 <= j < operands.len() implies !is_variable(#[trigger] operands[j]) by {}
    lemma_first_variable_skips(operands, operands.len() as int);
}

/// The context joins these conditions: those under `and`, or else the context itself.
pub open spec fn joins(context: Members, conditions: Seq<JsonView>) -> bool {
    ||| lookup(context, "and"@) == Some(JsonView::Array(conditions))
    ||| lookup(context, "and"@) is None && conditions == seq![JsonView::Object(context)]
}

/// Operator `j` of condition `i` has an operand list that names the variable with this value.
pub open spec fn names_at(
    conditions: Seq<JsonView>,
    i: int,
    j: int,
    name: Seq<char>,
    value: JsonView,
) -> bool {
    &&& 0 <= i < conditions.len()
    &&& conditions[i] matches JsonView::Object(operators)
    &&& 0 <= j < operators.len()
    &&& operators[j].1 matches JsonView::Array(operands)
    &&& variable_of(operands) == Ok::<(Seq<char>, JsonView), Seq<char>>((name, value))
}

proof fn lemma_operators(operators: Members)
    ensures
        operator_variables(operators) is Ok <==> forall|j: int|
            0 <= j < operators.len() ==> operator_variable((#[trigger] operators[j]).1) is Ok,
        operator_variables(operators) matches Ok(found) ==> {
            &&& found.len() == operators.len()
            &&& forall|j: int|
                0 <= j < operators.len() ==> operator_variable((#[trigger] operators[j]).1) == Ok::<
                    (Seq<char>, JsonView),
                    Seq<char>,
                >(found[j])
        },
    decreases operators.len(),
{
    if operators.len() > 0 {
        let front = operators.drop_last();
        let last = operators.len() - 1;
        lemma_operators(front);
        assert(forall|j: int| 0 <= j < front.len() ==> #[trigger] front[j] == operators[j]);
        if forall|j: int|
            0 <= j < operators.len() ==> operator_variable((#[trigger] operators[j]).1) is Ok {
            assert(operator_variable(operators[last].1) is Ok);
            assert forall|j: int| 0 <= j < front.len() implies operator_variable(
                (#[trigger] front[j]).1,
            ) is Ok by {
                assert(operator_variable(operators[j].1) is Ok);
            }
        }
        if operator_variables(operators) is Ok {
            assert forall|j: int| 0 <= j < operators.len() implies operator_variable(
                (#[trigger] operators[j]).1,
            ) == Ok::<(Seq<char>, JsonView), Seq<char>>(operator_variables(operators)->Ok_0[j]) by {
                if j < last {
                    assert(operator_variable(front[j].1) is Ok);
                }
            }
        }
    }
}

proof fn lemma_named_is_found(
    conditions: Seq<JsonView>,
    i: int,
    j: int,
    name: Seq<char>,
    value: JsonView,
)
    requires
        all_variables(conditions) is Ok,
        names_at(conditions, i, j, name, value),
    ensures
        as_map(all_variables(conditions)->Ok_0).dom().contains(name),
        (forall|i2: int, j2: int, v: JsonView|
            i2 > i || (i2 == i && j2 > j) ==> !(#[trigger] names_at(conditions, i2, j2, name, v)))
            ==> as_map(all_variables(conditions)->Ok_0)[name] == value,
    decreases conditions.len(),
{
    let front = conditions.drop_last();
    let last = conditions.len() - 1;
    let operators = conditions[last]->Object_0;
    let more = operator_variables(operators)->Ok_0;
    let before = all_variables(front)->Ok_0;
    lemma_operators(operators);
    lemma_as_map_concat(before, more);
    law_map_keeps_last(more, name);
    let alone = forall|i2: int, j2: int, v: JsonView|
        i2 > i || (i2 == i && j2 > j) ==> !(#[trigger] names_at(conditions, i2, j2, name, v));
    assert forall|j2: int| 0 <= j2 < more.len() implies names_at(
        conditions,
        last,
        j2,
        (#[trigger] more[j2]).0,
        more[j2].1,
    ) by {
        assert(operator_variable(operators[j2].1) is Ok);
    }
    if i == last {
        assert(operator_variable(operators[j].1) is Ok);
        assert(more[j] == (name, value));
        if alone {
            assert forall|j2: int| j < j2 < more.len() implies (#[trigger] more[j2]).0 != name by {
                if more[j2].0 == name {
                    assert(names_at(conditions, last, j2, name, more[j2].1));
                }
            }
        }
    } else {
        assert(front[i] == conditions[i]);
        assert(names_at(front, i, j, name, value));
        lemma_named_is_found(front, i, j, name, value);
        if alone {
            assert forall|i2: int, j2: int, v: JsonView|
                i2 > i || (i2 == i && j2 > j) implies !(#[trigger] names_at(
                front,
                i2,
                j2,
                name,
                v,
            )) by {
                if names_at(front, i2, j2, name, v) {
                    assert(front[i2] == conditions[i2]);
                    assert(names_at(conditions, i2, j2, name, v));
                }
            }
            assert(!as_map(more).dom().contains(name)) by {
                if as_map(more).dom().contains(name) {
                    let j2 = choose|j2: int|
                        0 <= j2 < more.len() && (#[trigger] more[j2]).0 == name;
                    assert(names_at(conditions, last, j2, name, more[j2].1));
                }
            }
        }
    }
}

/// Every operator of every condition contributes its variable, whatever the operator is called, and
/// of several operators that name one variable the last one gives the value.
pub proof fn law_every_operator_counts(
    context: Members,
    conditions: Seq<JsonView>,
    dimensions: Map<Seq<char>, JsonView>,
    i: int,
    j: int,
    name: Seq<char>,
    value: JsonView,
)
    requires
        joins(context, conditions),
        dimensions_of(context) == Ok::<Map<Seq<char>, JsonView>, Seq<char>>(dimensions),
        names_at(conditions, i, j, name, value),
    ensures
        dimensions.dom().contains(name),
        (forall|i2: int, j2: int, v: JsonView|
            i2 > i || (i2 == i && j2 > j) ==> !(#[trigger] names_at(conditions, i2, j2, name, v)))
            ==> dimensions[name] == value,
{
    lemma_named_is_found(conditions, i, j, name, value);
}

proof fn lemma_found_is_named(conditions: Seq<JsonView>, name: Seq<char>)
    requires
        all_variables(conditions) is Ok,
        as_map(all_variables(conditions)->Ok_0).dom().contains(name),
    ensures
        exists|i: int, j: int, value: JsonView| #[trigger]
            names_at(conditions, i, j, name, value) && as_map(all_variables(conditions)->Ok_0)[name]
                == value,
    decreases conditions.len(),
{
    let front = conditions.drop_last();
    let last = conditions.len() - 1;
    if conditions.len() > 0 {
        let operators = conditions[last]->Object_0;
        let more = operator_variables(operators)->Ok_0;
        let before = all_variables(front)->Ok_0;
        lemma_operators(operators);
        lemma_as_map_concat(before, more);
        if as_map(more).dom().contains(name) {
            lemma_last_key(more, name);
            let j = choose|j: int|
                0 <= j < more.len() && (#[trigger] more[j]).0 == name && as_map(more)[name]
                    == more[j].1;
            assert(operator_variable(operators[j].1) is Ok);
            assert(names_at(conditions, last, j, name, more[j].1));
        } else {
            lemma_found_is_named(front, name);
            let (i, j, value) = choose|i: int, j: int, value: JsonView| #[trigger]
                names_at(front, i, j, name, value) && as_map(before)[name] == value;
            assert(front[i] == conditions[i]);
            assert(names_at(conditions, i, j, name, value));
        }
    }
}

proof fn lemma_last_key(members: Members, key: Seq<char>)
    requires
        as_map(members).dom().contains(key),
    ensures
        exists|i: int|
            0 <= i < members.len() && (#[trigger] members[i]).0 == key && as_map(members)[key]
                == members[i].1,
    decreases members.len(),
{
    if members.len() > 0 {
        let last = members.len() - 1;
        if members[last].0 != key {
            let front = members.drop_last();
            lemma_last_key(front, key);
            let i = choose|i: int|
                0 <= i < front.len() && (#[trigger] front[i]).0 == key && as_map(front)[key]
                    == front[i].1;
            assert(members[i] == front[i]);
        } else {
            assert(members[last].1 == as_map(members)[key]);
        }
    }
}

/// There are no dimensions but those that an operator of a condition names, each with a value that
/// it is named with.
pub proof fn law_every_dimension_is_named(
    context: Members,
    conditions: Seq<JsonView>,
    dimensions: Map<Seq<char>, JsonView>,
    name: Seq<char>,
)
    requires
        joins(context, conditions),
        dimensions_of(context) == Ok::<Map<Seq<char>, JsonView>, Seq<char>>(dimensions),
        dimensions.dom().contains(name),
    ensures
        exists|i: int, j: int| #[trigger]
            names_at(conditions, i, j, name, dimensions[name]),
{
    lemma_found_is_named(conditions, name);
    let (i, j, value) = choose|i: int, j: int, value: JsonView| #[trigger]
        names_at(conditions, i, j, name, value) && dimensions[name] == value;
    assert(names_at(conditions, i, j, name, dimensions[name]));
}

/// Condition `i` is an object each of whose operators names a variable.
pub open spec fn is_sound(conditions: Seq<JsonView>, i: int) -> bool {
    &&& conditions[i] matches JsonView::Object(operators)
    &&& forall|j: int|
        0 <= j < operators.len() ==> ((#[trigger] operators[j]).1 matches JsonView::Array(operands)
            && variable_of(operands) is Ok)
}

proof fn lemma_sound(conditions: Seq<JsonView>)
    ensures
        all_variables(conditions) is Ok <==> forall|i: int|
            0 <= i < conditions.len() ==> #[trigger] is_sound(conditions, i),
    decreases conditions.len(),
{
    if conditions.len() > 0 {
        let front = conditions.drop_last();
        let last = conditions.len() - 1;
        lemma_sound(front);
        lemma_operators(conditions[last]->Object_0);
        assert forall|i: int| 0 <= i < front.len() implies is_sound(front, i) == #[trigger] is_sound(
            conditions,
            i,
        ) by {
            assert(front[i] == conditions[i]);
        }
        let operators = conditions[last]->Object_0;
        assert(is_sound(conditions, last) <==> condition_variables(conditions[last]) is Ok) by {
            if is_sound(conditions, last) {
                assert forall|j: int| 0 <= j < operators.len() implies operator_variable(
                    (#[trigger] operators[j]).1,
                ) is Ok by {
                    assert(operators[j].1 is Array);
                }
            }
            if condition_variables(conditions[last]) is Ok {
                assert forall|j: int| 0 <= j < operators.len() implies (
                (#[trigger] operators[j]).1 matches JsonView::Array(operands) && variable_of(
                    operands,
                ) is Ok) by {
                    assert(operator_variable(operators[j].1) is Ok);
                }
            }
        }
        if forall|i: int| 0 <= i < conditions.len() ==> #[trigger] is_sound(conditions, i) {
            assert(is_sound(conditions, last));
            assert forall|i: int| 0 <= i < front.len() implies #[trigger] is_sound(front, i) by {
                assert(is_sound(conditions, i));
            }
        }
        if all_variables(conditions) is Ok {
            assert forall|i: int| 0 <= i < conditions.len() implies #[trigger] is_sound(
                conditions,
                i,
            ) by {
                if i < last {
                    assert(is_sound(front, i));
                }
            }
        }
    }
}

/// A context has dimensions exactly when each of its conditions is an object and each operator of
/// these names a variable.
pub proof fn law_sound_contexts_have_dimensions(context: Members, conditions: Seq<JsonView>)
    requires
        joins(context, conditions),
    ensures
        dimensions_of(context) is Ok <==> forall|i: int|
            0 <= i < conditions.len() ==> #[trigger] is_sound(conditions, i),
{
    lemma_sound(conditions);
}

/// `and` over anything but a list, and a condition that is no object, are refused with their own
/// complaints.
pub proof fn law_shape_is_needed(context: Members, condition: JsonView)
    ensures
        lookup(context, "and"@) is Some && !(lookup(context, "and"@)->0 is Array)
            ==> dimensions_of(context) == Err::<Map<Seq<char>, JsonView>, Seq<char>>(
            "Error extracting dimensions, failed parsing conditions as an array. Ensure the context provided obeys the rules of JSON logic"@,
        ),
        !(condition is Object) ==> dimensions_of(
            seq![("and"@, JsonView::Array(seq![condition]))],
        ) == Err::<Map<Seq<char>, JsonView>, Seq<char>>(
            "Failed to parse condition as an object. Ensure the context provided obeys the rules of JSON logic"@,
        ),
{
    assert(seq![condition].drop_last() =~= seq![]);
    assert(all_variables(seq![condition].drop_last()) == Ok::<Members, Seq<char>>(seq![]));
}

/// The first complaint is the one that is made: what follows a faulty condition, or a faulty
/// operator, does not matter; and behind sound ones the complaint is that of what follows.
pub proof fn law_first_complaint_is_made(
    first: Seq<JsonView>,
    second: Seq<JsonView>,
    operators: Members,
    operands: JsonView,
    operator: Seq<char>,
)
    ensures
        all_variables(first) is Err ==> all_variables(first + second) == all_variables(first),
        all_variables(first) is Ok && all_variables(second) is Err ==> all_variables(first + second)
            == all_variables(second),
        operator_variables(operators) is Err ==> operator_variables(
            operators.push((operator, operands)),
        ) == operator_variables(operators),
        operator_variables(operators) is Ok && operator_variable(operands) is Err
            ==> operator_variables(operators.push((operator, operands))) == Err::<
            Members,
            Seq<char>,
        >(operator_variable(operands)->Err_0),
    decreases second.len(),
{
    let more = operators.push((operator, operands));
    assert(more.drop_last() =~= operators);
    assert(more.last() == (operator, operands));
    if all_variables(first) is Err {
        assert((first + second).take(first.len() as int) =~= first);
        lemma_condition_error_stays(first + second, first.len() as int);
    } else if all_variables(second) is Err {
        let front = second.drop_last();
        assert((first + second).drop_last() =~= first + front);
        if all_variables(front) is Err {
            law_first_complaint_is_made(first, front, operators, operands, operator);
        } else {
            lemma_all_variables_concat(first, front);
        }
    }
}

/// Whatever an operator is called, a condition that holds it over a variable and a value that is no
/// variable, in either order, has exactly that variable with that value as its dimensions: under
/// `and`, and by itself unless the operator is `and`.
pub proof fn law_operator_name_does_not_matter(
    operator: Seq<char>,
    variable: Members,
    name: Seq<char>,
    value: JsonView,
)
    requires
        lookup(variable, "var"@) == Some(JsonView::Str(name)),
        !(value matches JsonView::Object(m) && lookup(m, "var"@) is Some),
    ensures
        ({
            let forth = seq![
                (operator, JsonView::Array(seq![JsonView::Object(variable), value])),
            ];
            let back = seq![
                (operator, JsonView::Array(seq![value, JsonView::Object(variable)])),
            ];
            let expected = Ok::<Map<Seq<char>, JsonView>, Seq<char>>(map![name => value]);
            &&& dimensions_of(seq![("and"@, JsonView::Array(seq![JsonView::Object(forth)]))])
                == expected
            &&& dimensions_of(seq![("and"@, JsonView::Array(seq![JsonView::Object(back)]))])
                == expected
            &&& operator != "and"@ ==> dimensions_of(forth) == expected
            &&& operator != "and"@ ==> dimensions_of(back) == expected
        }),
{
    let there = seq![JsonView::Object(variable), value];
    let here = seq![value, JsonView::Object(variable)];
    let forth = seq![(operator, JsonView::Array(there))];
    let back = seq![(operator, JsonView::Array(here))];
    law_operand_order(variable, name, value);
    lemma_one_operator(operator, there, name, value);
    lemma_one_operator(operator, here, name, value);
    law_lookup_finds_keys(forth, "and"@);
    law_lookup_finds_keys(back, "and"@);
}

proof fn lemma_one_operator(
    operator: Seq<char>,
    operands: Seq<JsonView>,
    name: Seq<char>,
    value: JsonView,
)
    requires
        variable_of(operands) == Ok::<(Seq<char>, JsonView), Seq<char>>((name, value)),
    ensures
        ({
            let condition = JsonView::Object(seq![(operator, JsonView::Array(operands))]);
            &&& all_variables(seq![condition]) is Ok
            &&& as_map(all_variables(seq![condition])->Ok_0) == map![name => value]
        }),
{
    let operators = seq![(operator, JsonView::Array(operands))];
    let condition = JsonView::Object(operators);
    assert(operators.drop_last() =~= seq![]);
    assert(operator_variables(operators.drop_last()) == Ok::<Members, Seq<char>>(seq![]));
    assert(operator_variables(operators)->Ok_0 =~= seq![(name, value)]);
    assert(seq![condition].drop_last() =~= seq![]);
    assert(all_variables(seq![condition].drop_last()) == Ok::<Members, Seq<char>>(seq![]));
    let found = all_variables(seq![condition])->Ok_0;
    assert(found =~= seq![(name, value)]);
    assert(found.drop_last() =~= seq![]);
    assert(as_map(found.drop_last()) =~= Map::empty());
    assert(as_map(found) =~= map![name => value]);
}

} // verus!
