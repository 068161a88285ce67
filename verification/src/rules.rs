//! Matching rules: what a pattern asks of a value once its example has been
//! set aside, and the test of a value against a rule.

use vstd::prelude::*;
use crate::bindings::{date_time_parses, find_match, regex_compiles, regex_matches};
use crate::assoc::first_named;
use crate::date_time::{is_date_time, parser_says};
use crate::json::{value_model, JsonKind, JsonModel, JsonValue};

verus! {

/// A matching rule for JSON values.
#[derive(Debug)]
pub enum JsonRule {
    /// The value is exactly this one.
    Equals(JsonValue),
    /// The value is a string in which the regular expression finds a match.
    Regex(String),
    /// The value is of this kind, whatever it holds.
    SameType(JsonKind),
    /// The value is an array of at least `min_len` elements, and `element`
    /// accepts each of them.
    EachLike { element: Box<JsonRule>, min_len: usize },
    /// The value is a string that parses as a date or time in this format.
    DateTime(String),
    /// The value is an array of as many elements as there are rules, each
    /// accepted by the rule in its place.
    Array(Vec<JsonRule>),
    /// The value is an object of as many fields as there are entries, and has
    /// for each entry a field of that name that the entry's rule accepts.
    Object(Vec<(String, JsonRule)>),
}

/// What a [`JsonRule`] stands for.
pub ghost enum RuleModel {
    Equals(JsonModel),
    Regex(Seq<char>),
    SameType(JsonKind),
    EachLike { element: Box<RuleModel>, min_len: nat },
    DateTime(Seq<char>),
    Array(Seq<RuleModel>),
    Object(Seq<(Seq<char>, RuleModel)>),
}

/// What `rule` stands for.
pub open spec fn rule_model(rule: JsonRule) -> RuleModel
    decreases rule,
{
    match rule {
        JsonRule::Equals(value) => RuleModel::Equals(value_model(value)),
        JsonRule::Regex(regex) => RuleModel::Regex(regex@),
        JsonRule::SameType(kind) => RuleModel::SameType(kind),
        JsonRule::EachLike { element, min_len } => RuleModel::EachLike {
            element: Box::new(rule_model(*element)),
            min_len: min_len as nat,
        },
        JsonRule::DateTime(format) => RuleModel::DateTime(format@),
        JsonRule::Array(rules) => RuleModel::Array(
            Seq::new(
                rules@.len(),
                |i: int|
                    if 0 <= i < rules@.len() {
                        rule_model(rules@[i])
                    } else {
                        RuleModel::SameType(JsonKind::Null)
                    },
            ),
        ),
        JsonRule::Object(entries) => RuleModel::Object(
            Seq::new(
                entries@.len(),
                |i: int|
                    if 0 <= i < entries@.len() {
                        (entries@[i].0@, rule_model(entries@[i].1))
                    } else {
                        (Seq::empty(), RuleModel::SameType(JsonKind::Null))
                    },
            ),
        ),
    }
}

impl View for JsonRule {
    type V = RuleModel;

    open spec fn view(&self) -> RuleModel {
        rule_model(*self)
    }
}

/// Whether `rule` accepts `value`.
pub open spec fn rule_accepts(rule: RuleModel, value: JsonModel) -> bool
    decreases rule,
{
    match rule {
        RuleModel::Equals(expected) => value == expected,
        RuleModel::Regex(regex) => {
            &&& value matches JsonModel::String(text)
            &&& regex_compiles(regex)
            &&& regex_matches(regex, text)
        },
        RuleModel::SameType(kind) => value.kind() == kind,
        RuleModel::EachLike { element, min_len } => {
            &&& value matches JsonModel::Array(items)
            &&& items.len() >= min_len
            &&& forall|i: int| 0 <= i < items.len() ==> rule_accepts(*element, #[trigger] items[i])
        },
        RuleModel::DateTime(format) => {
            &&& value matches JsonModel::String(text)
            &&& date_time_parses(text, format)
        },
        RuleModel::Array(rules) => {
            &&& value matches JsonModel::Array(items)
            &&& items.len() == rules.len()
            &&& forall|i: int|
                0 <= i < rules.len() ==> rule_accepts(#[trigger] rules[i], items[i])
        },
        RuleModel::Object(entries) => {
            &&& value matches JsonModel::Object(fields)
            &&& fields.len() == entries.len()
            &&& forall|i: int|
                0 <= i < entries.len() ==> {
                    &&& first_named(fields, (#[trigger] entries[i]).0) matches Some(found)
                    &&& rule_accepts(entries[i].1, found)
                }
        },
    }
}

/// What the library says of a value and a rule: that the rule accepts the
/// value, that it rejects it, or that it cannot tell, because the answer
/// hangs on a date or time that is beyond the engine's parser.
#[derive(Clone, Copy, Debug, PartialEq, Eq, Structural)]
pub enum Verdict {
    Accepted,
    Rejected,
    Undecided,
}

impl Verdict {
    /// The verdict on a question that is decided.
    pub open spec fn of(accepted: bool) -> Verdict {
        if accepted {
            Verdict::Accepted
        } else {
            Verdict::Rejected
        }
    }

    /// The verdict on a question that may be open.
    pub open spec fn of_answer(answer: Option<bool>) -> Verdict {
        match answer {
            Some(accepted) => Verdict::of(accepted),
            None => Verdict::Undecided,
        }
    }

    /// The verdict on a question that is decided.
    pub fn decided(accepted: bool) -> (r: Verdict)
        ensures
            r == Verdict::of(accepted),
    {
        if accepted {
            Verdict::Accepted
        } else {
            Verdict::Rejected
        }
    }

    /// The verdict on a question that may be open.
    pub fn answered(answer: Option<bool>) -> (r: Verdict)
        ensures
            r == Verdict::of_answer(answer),
    {
        match answer {
            Some(accepted) => Verdict::decided(accepted),
            None => Verdict::Undecided,
        }
    }

    /// Whether the value is accepted.
    pub fn is_accepted(self) -> (r: bool)
        ensures
            r == (self == Verdict::Accepted),
    {
        match self {
            Verdict::Accepted => true,
            _ => false,
        }
    }

    /// Whether the value is rejected.
    pub fn is_rejected(self) -> (r: bool)
        ensures
            r == (self == Verdict::Rejected),
    {
        match self {
            Verdict::Rejected => true,
            _ => false,
        }
    }

    /// Whether the question stays open.
    pub fn is_undecided(self) -> (r: bool)
        ensures
            r == (self == Verdict::Undecided),
    {
        match self {
            Verdict::Undecided => true,
            _ => false,
        }
    }
}

/// The verdict on all of several questions together: rejected where one of
/// them is, else undecided where one of them is, else accepted.
pub open spec fn all_of(verdicts: Seq<Verdict>) -> Verdict {
    if exists|i: int| 0 <= i < verdicts.len() && #[trigger] verdicts[i] == Verdict::Rejected {
        Verdict::Rejected
    } else if exists|i: int| 0 <= i < verdicts.len() && #[trigger] verdicts[i] == Verdict::Undecided {
        Verdict::Undecided
    } else {
        Verdict::Accepted
    }
}

/// The verdict of the element rule on each of `items`.
pub open spec fn element_verdicts(element: RuleModel, items: Seq<JsonModel>) -> Seq<Verdict>
    decreases element, 1nat,
{
    Seq::new(items.len(), |i: int| rule_verdict(element, items[i]))
}

/// The verdict of each of `rules` on the item in its place.
pub open spec fn place_verdicts(rules: Seq<RuleModel>, items: Seq<JsonModel>) -> Seq<Verdict>
    decreases rules, 1nat,
{
    Seq::new(
        rules.len(),
        |i: int|
            if 0 <= i < rules.len() {
                rule_verdict(rules[i], items[i])
            } else {
                Verdict::Accepted
            },
    )
}

/// The verdict of each of `entries` on the field of its name.
pub open spec fn field_verdicts(
    entries: Seq<(Seq<char>, RuleModel)>,
    fields: Seq<(Seq<char>, JsonModel)>,
) -> Seq<Verdict>
    decreases entries, 1nat,
{
    Seq::new(
        entries.len(),
        |i: int|
            if 0 <= i < entries.len() {
                match first_named(fields, entries[i].0) {
                    Some(found) => rule_verdict(entries[i].1, found),
                    None => Verdict::Rejected,
                }
            } else {
                Verdict::Accepted
            },
    )
}

/// What the library says on whether `rule` accepts `value`. It says what
/// `rule_accepts` says wherever it says anything, and it says nothing only
/// where nothing rejects the value and a date or time in it is beyond the
/// engine's parser.
pub open spec fn rule_verdict(rule: RuleModel, value: JsonModel) -> Verdict
    decreases rule, 0nat,
{
    match rule {
        RuleModel::Equals(expected) => Verdict::of(value == expected),
        RuleModel::Regex(regex) => Verdict::of(
            value is String && regex_compiles(regex) && regex_matches(regex, value->String_0),
        ),
        RuleModel::SameType(kind) => Verdict::of(value.kind() == kind),
        RuleModel::EachLike { element, min_len } => match value {
            JsonModel::Array(items) => if items.len() < min_len {
                Verdict::Rejected
            } else {
                all_of(element_verdicts(*element, items))
            },
            _ => Verdict::Rejected,
        },
        RuleModel::DateTime(format) => match value {
            JsonModel::String(text) => Verdict::of_answer(parser_says(text, format)),
            _ => Verdict::Rejected,
        },
        RuleModel::Array(rules) => match value {
            JsonModel::Array(items) => if items.len() != rules.len() {
                Verdict::Rejected
            } else {
                all_of(place_verdicts(rules, items))
            },
            _ => Verdict::Rejected,
        },
        RuleModel::Object(entries) => match value {
            JsonModel::Object(fields) => if fields.len() != entries.len() {
                Verdict::Rejected
            } else {
                all_of(field_verdicts(entries, fields))
            },
            _ => Verdict::Rejected,
        },
    }
}

/// Whether a rule asks for a date or time somewhere.
pub open spec fn asks_for_date_time(rule: RuleModel) -> bool
    decreases rule,
{
    match rule {
        RuleModel::DateTime(_) => true,
        RuleModel::EachLike { element, min_len } => asks_for_date_time(*element),
        RuleModel::Array(rules) => exists|i: int| 0 <= i < rules.len() && asks_for_date_time(#[trigger] rules[i]),
        RuleModel::Object(entries) => exists|i: int|
            0 <= i < entries.len() && asks_for_date_time((#[trigger] entries[i]).1),
        _ => false,
    }
}

/// The library is never wrong: what it accepts the rule accepts, and what it
/// rejects the rule rejects. And it always tells of a rule that asks for no
/// date or time.
pub proof fn law_verdict_is_sound(rule: RuleModel, value: JsonModel)
    ensures
        rule_verdict(rule, value) == Verdict::Accepted ==> rule_accepts(rule, value),
        rule_verdict(rule, value) == Verdict::Rejected ==> !rule_accepts(rule, value),
        !asks_for_date_time(rule) ==> rule_verdict(rule, value) != Verdict::Undecided,
    decreases rule,
{
    match rule {
        RuleModel::EachLike { element, min_len } => {
            if value is Array && value->Array_0.len() >= min_len {
                let items = value->Array_0;
                let verdicts = element_verdicts(*element, items);
                assert forall|i: int| 0 <= i < items.len() implies {
                    &&& (#[trigger] verdicts[i] == Verdict::Accepted ==> rule_accepts(*element, items[i]))
                    &&& (verdicts[i] == Verdict::Rejected ==> !rule_accepts(*element, items[i]))
                    &&& (!asks_for_date_time(*element) ==> verdicts[i] != Verdict::Undecided)
                } by {
                    law_verdict_is_sound(*element, items[i]);
                }
                if all_of(verdicts) == Verdict::Accepted {
                    assert forall|i: int| 0 <= i < items.len() implies rule_accepts(
                        *element,
                        #[trigger] items[i],
                    ) by {
                        assert(verdicts[i] == Verdict::Accepted);
                    }
                }
            }
        },
        RuleModel::Array(rules) => {
            if value is Array && value->Array_0.len() == rules.len() {
                let items = value->Array_0;
                let verdicts = place_verdicts(rules, items);
                assert forall|i: int| 0 <= i < rules.len() implies {
                    &&& (#[trigger] verdicts[i] == Verdict::Accepted ==> rule_accepts(rules[i], items[i]))
                    &&& (verdicts[i] == Verdict::Rejected ==> !rule_accepts(rules[i], items[i]))
                    &&& (!asks_for_date_time(rules[i]) ==> verdicts[i] != Verdict::Undecided)
                } by {
                    law_verdict_is_sound(rules[i], items[i]);
                }
                if all_of(verdicts) == Verdict::Accepted {
                    assert forall|i: int| 0 <= i < rules.len() implies rule_accepts(
                        #[trigger] rules[i],
                        items[i],
                    ) by {
                        assert(verdicts[i] == Verdict::Accepted);
                    }
                }
            }
        },
        RuleModel::Object(entries) => {
            if value is Object && value->Object_0.len() == entries.len() {
                let fields = value->Object_0;
                let verdicts = field_verdicts(entries, fields);
                assert forall|i: int| 0 <= i < entries.len() implies {
                    &&& (#[trigger] verdicts[i] == Verdict::Accepted ==> (first_named(fields, entries[i].0)
                        matches Some(found) && rule_accepts(entries[i].1, found)))
                    &&& (verdicts[i] == Verdict::Rejected ==> !(first_named(fields, entries[i].0)
                        matches Some(found) && rule_accepts(entries[i].1, found)))
                    &&& (!asks_for_date_time(entries[i].1) ==> verdicts[i] != Verdict::Undecided)
                } by {
                    if first_named(fields, entries[i].0) is Some {
                        law_verdict_is_sound(entries[i].1, first_named(fields, entries[i].0)->0);
                    }
                }
                if all_of(verdicts) == Verdict::Accepted {
                    assert forall|i: int| 0 <= i < entries.len() implies {
                        &&& first_named(fields, (#[trigger] entries[i]).0) matches Some(found)
                        &&& rule_accepts(entries[i].1, found)
                    } by {
                        assert(verdicts[i] == Verdict::Accepted);
                    }
                }
            }
        },
        _ => {},
    }
}

/// Of a date/time rule the library cannot tell exactly where the value is a
/// string that, with the format, is beyond the engine's parser. Wherever the
/// parser can be asked, the library says what the parser says.
pub proof fn law_date_time_is_open_beyond_the_parser_only(format: Seq<char>, value: JsonModel)
    ensures
        rule_verdict(RuleModel::DateTime(format), value) == Verdict::Undecided <==> value is String
            && parser_says(value->String_0, format) is None,
        value is String && parser_says(value->String_0, format) is Some ==> rule_verdict(
            RuleModel::DateTime(format),
            value,
        ) == Verdict::of(date_time_parses(value->String_0, format)),
        rule_accepts(RuleModel::DateTime(format), value) <==> value is String && date_time_parses(
            value->String_0,
            format,
        ),
{
}

/// Whether the regular expression `regex` compiles and finds a match in
/// `text`.
pub fn regex_accepts(regex: &str, text: &str) -> (r: bool)
    ensures
        r == (regex_compiles(regex@) && regex_matches(regex@, text@)),
{
    match find_match(regex, text) {
        Ok(found) => found,
        Err(_) => false,
    }
}

impl JsonRule {
    /// What the library says on whether this rule accepts `value`: that it
    /// does, that it does not, or, where the answer hangs on a date or time
    /// that is beyond the engine's parser, that it cannot tell.
    pub fn accepts(&self, value: &JsonValue) -> (r: Verdict)
        ensures
            r == rule_verdict(self@, value@),
        decreases self,
    {
        match self {
            JsonRule::Equals(expected) => Verdict::decided(value.same_as(expected)),
            JsonRule::Regex(regex) => match value {
                JsonValue::String(text) => Verdict::decided(regex_accepts(regex.as_str(), text.as_str())),
                _ => Verdict::Rejected,
            },
            JsonRule::SameType(kind) => Verdict::decided(value.kind() == *kind),
            JsonRule::EachLike { element, min_len } => match value {
                JsonValue::Array(items) => {
                    if items.len() < *min_len {
                        return Verdict::Rejected;
                    }
                    let ghost verdicts = element_verdicts(element@, value@->Array_0);
                    let mut open: bool = false;
                    let mut i: usize = 0;
                    while i < items.len()
                        invariant
                            self is EachLike,
                            self->element == *element,
                            value is Array,
                            value->Array_0 == *items,
                            verdicts == element_verdicts(element@, value@->Array_0),
                            i <= items.len(),
                            forall|j: int| 0 <= j < i ==> #[trigger] verdicts[j] != Verdict::Rejected,
                            open <==> exists|j: int| 0 <= j < i && #[trigger] verdicts[j] == Verdict::Undecided,
                        decreases items.len() - i,
                    {
                        let verdict = element.accepts(&items[i]);
                        assert(verdict == verdicts[i as int]);
                        match verdict {
                            Verdict::Rejected => {
                                return Verdict::Rejected;
                            },
                            Verdict::Undecided => {
                                open = true;
                            },
                            Verdict::Accepted => {},
                        }
                        i += 1;
                    }
                    if open {
                        Verdict::Undecided
                    } else {
                        Verdict::Accepted
                    }
                },
                _ => Verdict::Rejected,
            },
            JsonRule::DateTime(format) => match value {
                JsonValue::String(text) => Verdict::answered(is_date_time(text.as_str(), format.as_str())),
                _ => Verdict::Rejected,
            },
            JsonRule::Array(rules) => match value {
                JsonValue::Array(items) => {
                    if items.len() != rules.len() {
                        return Verdict::Rejected;
                    }
                    let ghost verdicts = place_verdicts(self@->Array_0, value@->Array_0);
                    let mut open: bool = false;
                    let mut i: usize = 0;
                    while i < rules.len()
                        invariant
                            self is Array,
                            self->Array_0 == *rules,
                            value is Array,
                            value->Array_0 == *items,
                            items.len() == rules.len(),
                            verdicts == place_verdicts(self@->Array_0, value@->Array_0),
                            i <= rules.len(),
                            forall|j: int| 0 <= j < i ==> #[trigger] verdicts[j] != Verdict::Rejected,
                            open <==> exists|j: int| 0 <= j < i && #[trigger] verdicts[j] == Verdict::Undecided,
                        decreases rules.len() - i,
                    {
                        assert(decreases_to!(self => self->Array_0@[i as int]));
                        let verdict = rules[i].accepts(&items[i]);
                        assert(verdict == verdicts[i as int]);
                        match verdict {
                            Verdict::Rejected => {
                                return Verdict::Rejected;
                            },
                            Verdict::Undecided => {
                                open = true;
                            },
                            Verdict::Accepted => {},
                        }
                        i += 1;
                    }
                    if open {
                        Verdict::Undecided
                    } else {
                        Verdict::Accepted
                    }
                },
                _ => Verdict::Rejected,
            },
            JsonRule::Object(entries) => match value {
                JsonValue::Object(fields) => {
                    if fields.len() != entries.len() {
                        return Verdict::Rejected;
                    }
                    let ghost verdicts = field_verdicts(self@->Object_0, value@->Object_0);
                    let mut open: bool = false;
                    let mut i: usize = 0;
                    while i < entries.len()
                        invariant
                            self is Object,
                            self->Object_0 == *entries,
                            value is Object,
                            value->Object_0 == *fields,
                            fields.len() == entries.len(),
                            verdicts == field_verdicts(self@->Object_0, value@->Object_0),
                            i <= entries.len(),
                            forall|j: int| 0 <= j < i ==> #[trigger] verdicts[j] != Verdict::Rejected,
                            open <==> exists|j: int| 0 <= j < i && #[trigger] verdicts[j] == Verdict::Undecided,
                        decreases entries.len() - i,
                    {
                        assert(decreases_to!(self => self->Object_0@[i as int].1));
                        let verdict = match value.field(&entries[i].0) {
                            Some(found) => entries[i].1.accepts(found),
                            None => Verdict::Rejected,
                        };
                        assert(verdict == verdicts[i as int]);
                        match verdict {
                            Verdict::Rejected => {
                                return Verdict::Rejected;
                            },
                            Verdict::Undecided => {
                                open = true;
                            },
                            Verdict::Accepted => {},
                        }
                        i += 1;
                    }
                    if open {
                        Verdict::Undecided
                    } else {
                        Verdict::Accepted
                    }
                },
                _ => Verdict::Rejected,
            },
        }
    }
}

} // verus!
