//! Patterns: values that are either a literal or a matching rule with an
//! example, for JSON bodies and for string-valued fields.

use vstd::prelude::*;
use vstd::string::StringExecFns;
use crate::bindings::{find_match, regex_compiles, regex_matches, string_from_utf8, utf8_error_text};
use crate::assoc::{first_named, lemma_first_named, lemma_names_cover_entries};
use crate::bindings::date_time_parses;
use crate::error::{ErrorKind, PactError};
use crate::json::{JsonKind, JsonModel, JsonValue};
use crate::rules::{rule_accepts, rule_verdict, JsonRule, RuleModel, Verdict};

verus! {

/// The name of a field of a JSON object.
#[derive(Debug, PartialEq, Eq, Hash)]
pub struct JsonObjectKey(pub String);

impl View for JsonObjectKey {
    type V = Seq<char>;

    open spec fn view(&self) -> Seq<char> {
        self.0@
    }
}

/// A term of the host language that is offered as the name of a field.
#[derive(Debug)]
pub enum KeyTerm {
    /// An atom, by its name.
    Atom(String),
    /// A binary, by its bytes.
    Binary(Vec<u8>),
    /// A term of any other type.
    Other,
}

/// What decoding a host term into a field name gives: the name of an atom, the
/// text of a binary that is well-formed UTF-8, and an `InvalidKey` error for
/// every other term.
pub open spec fn decoded_key(term: KeyTerm, outcome: Result<JsonObjectKey, PactError>) -> bool {
    match term {
        KeyTerm::Atom(name) => outcome matches Ok(key) && key@ == name@,
        KeyTerm::Binary(bytes) => if vstd::utf8::valid_utf8(bytes@) {
            outcome matches Ok(key) && key@ == vstd::utf8::decode_utf8(bytes@)
        } else {
            outcome matches Err(error) && error.is(
                ErrorKind::InvalidKey,
                "Invalid UTF-8 in binary: "@ + utf8_error_text(bytes@),
            )
        },
        KeyTerm::Other => outcome matches Err(error) && error.is(
            ErrorKind::InvalidKey,
            "Term is neither atom nor binary"@,
        ),
    }
}

impl JsonObjectKey {
    /// Decodes a host term into a field name.
    pub fn decode(term: KeyTerm) -> (r: Result<JsonObjectKey, PactError>)
        ensures
            decoded_key(term, r),
    {
        match term {
            KeyTerm::Atom(name) => Ok(JsonObjectKey(name)),
            KeyTerm::Binary(bytes) => match string_from_utf8(bytes) {
                Ok(text) => Ok(JsonObjectKey(text)),
                Err(message) => Err(
                    PactError::new(
                        ErrorKind::InvalidKey,
                        String::from_str("Invalid UTF-8 in binary: ").concat(message.as_str()),
                    ),
                ),
            },
            KeyTerm::Other => Err(
                PactError::new(ErrorKind::InvalidKey, String::from_str("Term is neither atom nor binary")),
            ),
        }
    }

    /// The name as text.
    pub fn as_str(&self) -> (r: &str)
        ensures
            r@ == self@,
    {
        self.0.as_str()
    }
}

/// A pattern for a JSON value: a literal, a list or an object of patterns, or
/// a matcher.
#[derive(Debug)]
pub enum NifJsonPattern {
    String(String),
    /// A number, as the bit pattern of a 64-bit IEEE 754 float.
    Number(u64),
    Bool(bool),
    Array(Vec<NifJsonPattern>),
    Null,
    /// The fields of an object, each under a name of its own. A pattern that
    /// names a field twice is refused where it is checked or taken apart.
    Object(Vec<(JsonObjectKey, NifJsonPattern)>),
    Matcher(NifJsonMatcher),
}

/// A matcher for a JSON value: the rule a value must meet, and the example
/// that is generated in its place.
#[derive(Debug)]
pub enum NifJsonMatcher {
    /// A string in which `regex` finds a match.
    MatchingRegex { regex: String, example: String },
    /// A value of the same kind as the example of the inner pattern.
    Like(Box<NifJsonPattern>),
    /// An array of at least `min_len` elements that each match `json_pattern`.
    EachLike { json_pattern: Box<NifJsonPattern>, min_len: usize },
    /// A string that parses as a date or time in `format`.
    DateTime { format: String, example: String },
}

/// A pattern for a string-valued field: a literal or a matcher.
#[derive(Debug)]
pub enum NifStringPattern {
    /// A literal string, which matches and generates itself.
    String(String),
    /// A nested pattern.
    Matcher(NifStringMatcher),
}

/// A matcher for a string-valued field.
#[derive(Debug)]
pub enum NifStringMatcher {
    /// A string in which `regex` finds a match.
    MatchingRegex { regex: String, example: String },
    /// Any string.
    Like(Box<NifStringPattern>),
    /// A string that parses as a date or time in `format`.
    DateTime { format: String, example: String },
}

/// What a pattern stands for, whichever of the four types it was written in.
pub ghost enum PatternModel {
    String(Seq<char>),
    Number(u64),
    Bool(bool),
    Null,
    Array(Seq<PatternModel>),
    Object(Seq<(Seq<char>, PatternModel)>),
    MatchingRegex { regex: Seq<char>, example: Seq<char> },
    Like(Box<PatternModel>),
    EachLike { element: Box<PatternModel>, min_len: nat },
    DateTime { format: Seq<char>, example: Seq<char> },
}

/// What the JSON pattern `pattern` stands for.
pub open spec fn json_pattern_model(pattern: NifJsonPattern) -> PatternModel
    decreases pattern,
{
    match pattern {
        NifJsonPattern::String(s) => PatternModel::String(s@),
        NifJsonPattern::Number(n) => PatternModel::Number(n),
        NifJsonPattern::Bool(b) => PatternModel::Bool(b),
        NifJsonPattern::Null => PatternModel::Null,
        NifJsonPattern::Array(items) => PatternModel::Array(
            Seq::new(
                items@.len(),
                |i: int|
                    if 0 <= i < items@.len() {
                        json_pattern_model(items@[i])
                    } else {
                        PatternModel::Null
                    },
            ),
        ),
        NifJsonPattern::Object(entries) => PatternModel::Object(
            Seq::new(
                entries@.len(),
                |i: int|
                    if 0 <= i < entries@.len() {
                        (entries@[i].0@, json_pattern_model(entries@[i].1))
                    } else {
                        (Seq::empty(), PatternModel::Null)
                    },
            ),
        ),
        NifJsonPattern::Matcher(matcher) => json_matcher_model(matcher),
    }
}

/// What the JSON matcher `matcher` stands for.
pub open spec fn json_matcher_model(matcher: NifJsonMatcher) -> PatternModel
    decreases matcher,
{
    match matcher {
        NifJsonMatcher::MatchingRegex { regex, example } => PatternModel::MatchingRegex {
            regex: regex@,
            example: example@,
        },
        NifJsonMatcher::Like(inner) => PatternModel::Like(Box::new(json_pattern_model(*inner))),
        NifJsonMatcher::EachLike { json_pattern, min_len } => PatternModel::EachLike {
            element: Box::new(json_pattern_model(*json_pattern)),
            min_len: min_len as nat,
        },
        NifJsonMatcher::DateTime { format, example } => PatternModel::DateTime {
            format: format@,
            example: example@,
        },
    }
}

/// What the string pattern `pattern` stands for.
pub open spec fn string_pattern_model(pattern: NifStringPattern) -> PatternModel
    decreases pattern,
{
    match pattern {
        NifStringPattern::String(s) => PatternModel::String(s@),
        NifStringPattern::Matcher(matcher) => string_matcher_model(matcher),
    }
}

/// What the string matcher `matcher` stands for.
pub open spec fn string_matcher_model(matcher: NifStringMatcher) -> PatternModel
    decreases matcher,
{
    match matcher {
        NifStringMatcher::MatchingRegex { regex, example } => PatternModel::MatchingRegex {
            regex: regex@,
            example: example@,
        },
        NifStringMatcher::Like(inner) => PatternModel::Like(Box::new(string_pattern_model(*inner))),
        NifStringMatcher::DateTime { format, example } => PatternModel::DateTime {
            format: format@,
            example: example@,
        },
    }
}

impl View for NifJsonPattern {
    type V = PatternModel;

    open spec fn view(&self) -> PatternModel {
        json_pattern_model(*self)
    }
}

impl View for NifJsonMatcher {
    type V = PatternModel;

    open spec fn view(&self) -> PatternModel {
        json_matcher_model(*self)
    }
}

impl View for NifStringPattern {
    type V = PatternModel;

    open spec fn view(&self) -> PatternModel {
        string_pattern_model(*self)
    }
}

impl View for NifStringMatcher {
    type V = PatternModel;

    open spec fn view(&self) -> PatternModel {
        string_matcher_model(*self)
    }
}

impl Clone for JsonObjectKey {
    /// A copy with the same name.
    fn clone(&self) -> (r: JsonObjectKey)
        ensures
            r@ == self@,
    {
        JsonObjectKey(self.0.clone())
    }
}

impl Clone for NifJsonPattern {
    /// A copy that stands for the same pattern.
    fn clone(&self) -> (r: NifJsonPattern)
        ensures
            r@ == self@,
        decreases self,
    {
        match self {
            NifJsonPattern::String(s) => NifJsonPattern::String(s.clone()),
            NifJsonPattern::Number(n) => NifJsonPattern::Number(*n),
            NifJsonPattern::Bool(b) => NifJsonPattern::Bool(*b),
            NifJsonPattern::Null => NifJsonPattern::Null,
            NifJsonPattern::Array(items) => {
                let mut out: Vec<NifJsonPattern> = Vec::new();
                let mut i: usize = 0;
                while i < items.len()
                    invariant
                        self is Array,
                        self->Array_0 == *items,
                        i <= items.len(),
                        out.len() == i,
                        forall|j: int| 0 <= j < i ==> (#[trigger] out@[j])@ == items@[j]@,
                    decreases items.len() - i,
                {
                    assert(decreases_to!(self => self->Array_0@[i as int]));
                    out.push(items[i].clone());
                    i += 1;
                }
                let r = NifJsonPattern::Array(out);
                assert(r@->Array_0 =~= self@->Array_0);
                r
            },
            NifJsonPattern::Object(entries) => {
                let mut out: Vec<(JsonObjectKey, NifJsonPattern)> = Vec::new();
                let mut i: usize = 0;
                while i < entries.len()
                    invariant
                        self is Object,
                        self->Object_0 == *entries,
                        i <= entries.len(),
                        out.len() == i,
                        forall|j: int|
                            0 <= j < i ==> (#[trigger] out@[j]).0@ == entries@[j].0@ && out@[j].1@
                                == entries@[j].1@,
                    decreases entries.len() - i,
                {
                    assert(decreases_to!(self => self->Object_0@[i as int].1));
                    out.push((entries[i].0.clone(), entries[i].1.clone()));
                    i += 1;
                }
                let r = NifJsonPattern::Object(out);
                assert(r@->Object_0 =~= self@->Object_0);
                r
            },
            NifJsonPattern::Matcher(matcher) => NifJsonPattern::Matcher(matcher.clone()),
        }
    }
}

impl Clone for NifJsonMatcher {
    /// A copy that stands for the same pattern.
    fn clone(&self) -> (r: NifJsonMatcher)
        ensures
            r@ == self@,
        decreases self,
    {
        match self {
            NifJsonMatcher::MatchingRegex { regex, example } => NifJsonMatcher::MatchingRegex {
                regex: regex.clone(),
                example: example.clone(),
            },
            NifJsonMatcher::Like(inner) => {
                let copy: NifJsonPattern = (**inner).clone();
                NifJsonMatcher::Like(Box::new(copy))
            },
            NifJsonMatcher::EachLike { json_pattern, min_len } => {
                let copy: NifJsonPattern = (**json_pattern).clone();
                NifJsonMatcher::EachLike { json_pattern: Box::new(copy), min_len: *min_len }
            },
            NifJsonMatcher::DateTime { format, example } => NifJsonMatcher::DateTime {
                format: format.clone(),
                example: example.clone(),
            },
        }
    }
}

impl Clone for NifStringPattern {
    /// A copy that stands for the same pattern.
    fn clone(&self) -> (r: NifStringPattern)
        ensures
            r@ == self@,
        decreases self,
    {
        match self {
            NifStringPattern::String(s) => NifStringPattern::String(s.clone()),
            NifStringPattern::Matcher(matcher) => NifStringPattern::Matcher(matcher.clone()),
        }
    }
}

impl Clone for NifStringMatcher {
    /// A copy that stands for the same pattern.
    fn clone(&self) -> (r: NifStringMatcher)
        ensures
            r@ == self@,
        decreases self,
    {
        match self {
            NifStringMatcher::MatchingRegex { regex, example } => NifStringMatcher::MatchingRegex {
                regex: regex.clone(),
                example: example.clone(),
            },
            NifStringMatcher::Like(inner) => {
                let copy: NifStringPattern = (**inner).clone();
                NifStringMatcher::Like(Box::new(copy))
            },
            NifStringMatcher::DateTime { format, example } => NifStringMatcher::DateTime {
                format: format.clone(),
                example: example.clone(),
            },
        }
    }
}

/// The value a pattern generates: a literal is its own example, a matcher
/// gives the example it carries, and an array shape gives as many copies of
/// its element's example as its minimum length.
pub open spec fn example_of(pattern: PatternModel) -> JsonModel
    decreases pattern,
{
    match pattern {
        PatternModel::String(s) => JsonModel::String(s),
        PatternModel::Number(n) => JsonModel::Number(n),
        PatternModel::Bool(b) => JsonModel::Bool(b),
        PatternModel::Null => JsonModel::Null,
        PatternModel::Array(items) => JsonModel::Array(
            Seq::new(
                items.len(),
                |i: int|
                    if 0 <= i < items.len() {
                        example_of(items[i])
                    } else {
                        JsonModel::Null
                    },
            ),
        ),
        PatternModel::Object(entries) => JsonModel::Object(
            Seq::new(
                entries.len(),
                |i: int|
                    if 0 <= i < entries.len() {
                        (entries[i].0, example_of(entries[i].1))
                    } else {
                        (Seq::empty(), JsonModel::Null)
                    },
            ),
        ),
        PatternModel::MatchingRegex { regex, example } => JsonModel::String(example),
        PatternModel::Like(inner) => example_of(*inner),
        PatternModel::EachLike { element, min_len } => JsonModel::Array(
            Seq::new(min_len, |i: int| example_of(*element)),
        ),
        PatternModel::DateTime { format, example } => JsonModel::String(example),
    }
}

/// The rule a pattern asks of a value.
pub open spec fn rule_of(pattern: PatternModel) -> RuleModel
    decreases pattern,
{
    match pattern {
        PatternModel::String(s) => RuleModel::Equals(JsonModel::String(s)),
        PatternModel::Number(n) => RuleModel::Equals(JsonModel::Number(n)),
        PatternModel::Bool(b) => RuleModel::Equals(JsonModel::Bool(b)),
        PatternModel::Null => RuleModel::Equals(JsonModel::Null),
        PatternModel::Array(items) => RuleModel::Array(
            Seq::new(
                items.len(),
                |i: int|
                    if 0 <= i < items.len() {
                        rule_of(items[i])
                    } else {
                        RuleModel::SameType(JsonKind::Null)
                    },
            ),
        ),
        PatternModel::Object(entries) => RuleModel::Object(
            Seq::new(
                entries.len(),
                |i: int|
                    if 0 <= i < entries.len() {
                        (entries[i].0, rule_of(entries[i].1))
                    } else {
                        (Seq::empty(), RuleModel::SameType(JsonKind::Null))
                    },
            ),
        ),
        PatternModel::MatchingRegex { regex, example } => RuleModel::Regex(regex),
        PatternModel::Like(inner) => RuleModel::SameType(example_of(*inner).kind()),
        PatternModel::EachLike { element, min_len } => RuleModel::EachLike {
            element: Box::new(rule_of(*element)),
            min_len,
        },
        PatternModel::DateTime { format, example } => RuleModel::DateTime(format),
    }
}

/// What is wrong with a pattern.
pub ghost enum PatternFault {
    /// This regular expression does not compile.
    Regex(Seq<char>),
    /// An object names this field a second time.
    RepeatedName(Seq<char>),
}

/// Whether `error` reports `fault`: `InvalidPattern` with the expression that
/// does not compile, or `InvalidKey` with the name that stands twice.
pub open spec fn reports(error: PactError, fault: PatternFault) -> bool {
    match fault {
        PatternFault::Regex(regex) => error.is(ErrorKind::InvalidPattern, regex),
        PatternFault::RepeatedName(name) => error.is(ErrorKind::InvalidKey, name),
    }
}

/// Whether the field at place `at` of `entries` has the name of a field
/// before it.
pub open spec fn named_before(entries: Seq<(Seq<char>, PatternModel)>, at: int) -> bool {
    exists|j: int| 0 <= j < at && (#[trigger] entries[j]).0 == entries[at].0
}

/// The first fault of a pattern, reading the pattern from the outside in and
/// from left to right: a regular expression that does not compile, or a field
/// of an object that has the name of a field before it.
pub open spec fn first_fault(pattern: PatternModel) -> Option<PatternFault>
    decreases pattern, 0nat,
{
    match pattern {
        PatternModel::Array(items) => first_fault_among(items, 0),
        PatternModel::Object(entries) => first_fault_in_fields(entries, 0),
        PatternModel::MatchingRegex { regex, example } => if regex_compiles(regex) {
            None
        } else {
            Some(PatternFault::Regex(regex))
        },
        PatternModel::Like(inner) => first_fault(*inner),
        PatternModel::EachLike { element, min_len } => first_fault(*element),
        _ => None,
    }
}

/// The first fault in the patterns of `items` from place `from` on.
pub open spec fn first_fault_among(items: Seq<PatternModel>, from: nat) -> Option<PatternFault>
    decreases items, items.len() - from,
{
    if from >= items.len() {
        None
    } else if first_fault(items[from as int]) is Some {
        first_fault(items[from as int])
    } else {
        first_fault_among(items, from + 1)
    }
}

/// The first fault in the fields `entries` from place `from` on: of each
/// field first its name, then its pattern.
pub open spec fn first_fault_in_fields(entries: Seq<(Seq<char>, PatternModel)>, from: nat) -> Option<
    PatternFault,
>
    decreases entries, entries.len() - from,
{
    if from >= entries.len() {
        None
    } else if named_before(entries, from as int) {
        Some(PatternFault::RepeatedName(entries[from as int].0))
    } else if first_fault(entries[from as int].1) is Some {
        first_fault(entries[from as int].1)
    } else {
        first_fault_in_fields(entries, from + 1)
    }
}

/// Where no pattern from `from` up to `at` has a fault, the first fault from
/// `from` on is the first one from `at` on.
pub proof fn lemma_first_fault_among(items: Seq<PatternModel>, from: nat, at: nat)
    requires
        from <= at <= items.len(),
        forall|j: int| from <= j < at ==> first_fault(#[trigger] items[j]) is None,
    ensures
        first_fault_among(items, from) == first_fault_among(items, at),
    decreases at - from,
{
    if from < at {
        lemma_first_fault_among(items, from + 1, at);
    }
}

/// The same for the fields of an object.
pub proof fn lemma_first_fault_in_fields(entries: Seq<(Seq<char>, PatternModel)>, from: nat, at: nat)
    requires
        from <= at <= entries.len(),
        forall|j: int|
            from <= j < at ==> first_fault((#[trigger] entries[j]).1) is None && !named_before(entries, j),
    ensures
        first_fault_in_fields(entries, from) == first_fault_in_fields(entries, at),
    decreases at - from,
{
    if from < at {
        assert(first_fault(entries[from as int].1) is None && !named_before(entries, from as int));
        lemma_first_fault_in_fields(entries, from + 1, at);
    }
}

/// A pattern without a fault names no field of an object twice.
pub proof fn lemma_sound_object_names_once(entries: Seq<(Seq<char>, PatternModel)>, i: int, j: int)
    requires
        first_fault(PatternModel::Object(entries)) is None,
        0 <= i < j < entries.len(),
    ensures
        entries[i].0 != entries[j].0,
{
    lemma_no_fault_in_fields(entries, 0, j);
}

/// Where the fields from `from` on have no fault, the field at `at` has
/// none.
proof fn lemma_no_fault_in_fields(entries: Seq<(Seq<char>, PatternModel)>, from: nat, at: int)
    requires
        first_fault_in_fields(entries, from) is None,
        from <= at < entries.len(),
    ensures
        !named_before(entries, at),
        first_fault(entries[at].1) is None,
    decreases at - from,
{
    if from < at {
        lemma_no_fault_in_fields(entries, from + 1, at);
    }
}

/// A pattern taken apart: the example it generates and the rule it asks of a
/// value.
#[derive(Debug)]
pub struct MatchRule {
    pub example: JsonValue,
    pub rule: JsonRule,
}

/// Whether `outcome` is what taking `pattern` apart gives: its example and its
/// rule where the pattern has no fault, and otherwise the report of its first
/// fault, which is `InvalidPattern` with the first regular expression that
/// does not compile, or `InvalidKey` with the first name that an object
/// repeats.
pub open spec fn taken_apart(pattern: PatternModel, outcome: Result<MatchRule, PactError>) -> bool {
    match outcome {
        Ok(parts) => {
            &&& first_fault(pattern) is None
            &&& parts.example@ == example_of(pattern)
            &&& parts.rule@ == rule_of(pattern)
        },
        Err(error) => {
            &&& first_fault(pattern) matches Some(fault)
            &&& reports(error, fault)
        },
    }
}

impl MatchRule {
    /// What the library says on whether the rule accepts the example it
    /// stands beside. Nothing else holds a matcher to this: an example that
    /// its own rule rejects is taken apart like any other.
    pub fn accepts_own_example(&self) -> (r: Verdict)
        ensures
            r == rule_verdict(self.rule@, self.example@),
    {
        self.rule.accepts(&self.example)
    }
}

/// A literal pattern, that is a string, a number, a boolean or null, asks of
/// a value that it be the literal itself: its rule accepts that value and no
/// other.
pub proof fn law_literal_accepts_itself_only(pattern: PatternModel, value: JsonModel)
    requires
        pattern is String || pattern is Number || pattern is Bool || pattern is Null,
    ensures
        first_fault(pattern) is None,
        rule_accepts(rule_of(pattern), value) <==> value == example_of(pattern),
{
}

/// Where the example of a regular-expression matcher matches its expression,
/// the matcher's rule accepts the example; and whatever the example, the rule
/// rejects every string in which the expression finds no match, and every
/// value that is not a string.
pub proof fn law_regex_accepts_example_and_rejects_others(
    regex: Seq<char>,
    example: Seq<char>,
    value: JsonModel,
)
    ensures
        ({
            let pattern = PatternModel::MatchingRegex { regex, example };
            let rule = rule_of(pattern);
            &&& regex_compiles(regex) && regex_matches(regex, example) ==> rule_accepts(
                rule,
                example_of(pattern),
            )
            &&& value is String && !regex_matches(regex, value->String_0) ==> !rule_accepts(rule, value)
            &&& !(value is String) ==> !rule_accepts(rule, value)
        }),
{
}

/// The rule of an array shape accepts exactly the arrays of at least
/// `min_len` elements whose every element the element pattern's rule
/// accepts: it rejects what is not an array, an array that is shorter, and
/// an array with one element that does not conform. A minimum of zero admits
/// the empty array.
pub proof fn law_each_like_accepts_conforming_arrays_only(
    element: PatternModel,
    min_len: nat,
    value: JsonModel,
)
    ensures
        ({
            let rule = rule_of(PatternModel::EachLike { element: Box::new(element), min_len });
            &&& rule_accepts(rule, value) <==> {
                &&& value matches JsonModel::Array(items)
                &&& items.len() >= min_len
                &&& forall|i: int|
                    0 <= i < items.len() ==> rule_accepts(rule_of(element), #[trigger] items[i])
            }
            &&& value is Array && value->Array_0.len() < min_len ==> !rule_accepts(rule, value)
            &&& value is Array && (exists|i: int|
                0 <= i < value->Array_0.len() && !rule_accepts(rule_of(element), #[trigger] value->Array_0[i]))
                ==> !rule_accepts(rule, value)
            &&& min_len == 0 ==> rule_accepts(rule, JsonModel::Array(Seq::empty()))
        }),
{
}

/// A type matcher accepts exactly the values of the kind of its inner
/// pattern's example, whatever they hold.
pub proof fn law_like_accepts_same_kind_only(inner: PatternModel, value: JsonModel)
    ensures
        rule_accepts(rule_of(PatternModel::Like(Box::new(inner))), value) <==> value.kind() == example_of(
            inner,
        ).kind(),
{
}

/// A date/time matcher accepts exactly the strings that are dates or times
/// written in its format.
pub proof fn law_date_time_accepts_dates_in_its_format_only(
    format: Seq<char>,
    example: Seq<char>,
    value: JsonModel,
)
    ensures
        rule_accepts(rule_of(PatternModel::DateTime { format, example }), value) <==> value is String
            && date_time_parses(value->String_0, format),
{
}

/// A pattern accepts only values of the kind of the example it generates. So
/// a type matcher accepts whatever the pattern under it accepts.
pub proof fn law_accepted_values_are_of_the_kind_of_the_example(pattern: PatternModel, value: JsonModel)
    ensures
        rule_accepts(rule_of(pattern), value) ==> value.kind() == example_of(pattern).kind(),
        rule_accepts(rule_of(pattern), value) ==> rule_accepts(
            rule_of(PatternModel::Like(Box::new(pattern))),
            value,
        ),
{
}

/// Whether one of `entries` has the name `name`.
pub open spec fn names_field(entries: Seq<(Seq<char>, PatternModel)>, name: Seq<char>) -> bool {
    exists|i: int| 0 <= i < entries.len() && (#[trigger] entries[i]).0 == name
}

/// An object pattern without a fault accepts only objects that hold the
/// fields it names and no other: as many fields as it has entries, each under
/// a name of the pattern.
pub proof fn law_object_accepts_named_fields_only(entries: Seq<(Seq<char>, PatternModel)>, value: JsonModel)
    ensures
        first_fault(PatternModel::Object(entries)) is None && rule_accepts(
            rule_of(PatternModel::Object(entries)),
            value,
        ) ==> {
            &&& value is Object
            &&& value->Object_0.len() == entries.len()
            &&& forall|k: int|
                0 <= k < value->Object_0.len() ==> names_field(entries, (#[trigger] value->Object_0[k]).0)
        },
{
    let pattern = PatternModel::Object(entries);
    if first_fault(pattern) is None && rule_accepts(rule_of(pattern), value) {
        let fields = value->Object_0;
        let names = Seq::new(entries.len(), |i: int| entries[i].0);
        assert forall|i: int, j: int| 0 <= i < j < names.len() implies #[trigger] names[i]
            != #[trigger] names[j] by {
            lemma_sound_object_names_once(entries, i, j);
        }
        assert forall|i: int| 0 <= i < names.len() implies first_named(fields, #[trigger] names[i])
            is Some by {
            assert(rule_of(pattern)->Object_0[i].0 == entries[i].0);
        }
        lemma_names_cover_entries(names, fields);
        assert forall|k: int| 0 <= k < fields.len() implies names_field(entries, (#[trigger] fields[k]).0) by {
            let i = choose|i: int| 0 <= i < names.len() && #[trigger] names[i] == fields[k].0;
            assert(entries[i].0 == fields[k].0);
        }
    }
}

/// Whether the examples in a pattern are what its matchers ask for: the
/// example of a regular expression matches it, the example of a date/time
/// format is written in it, and no object names a field twice. Nothing is
/// asked of what stands under a type matcher, which looks at the kind alone,
/// nor of the element of an array shape whose example is the empty array.
pub open spec fn examples_conform(pattern: PatternModel) -> bool
    decreases pattern,
{
    match pattern {
        PatternModel::Array(items) => forall|i: int|
            0 <= i < items.len() ==> examples_conform(#[trigger] items[i]),
        PatternModel::Object(entries) => {
            &&& forall|i: int, j: int|
                0 <= i < j < entries.len() ==> (#[trigger] entries[i]).0 != (#[trigger] entries[j]).0
            &&& forall|i: int| 0 <= i < entries.len() ==> examples_conform((#[trigger] entries[i]).1)
        },
        PatternModel::MatchingRegex { regex, example } => regex_compiles(regex) && regex_matches(
            regex,
            example,
        ),
        PatternModel::EachLike { element, min_len } => min_len == 0 || examples_conform(*element),
        PatternModel::DateTime { format, example } => date_time_parses(example, format),
        _ => true,
    }
}

/// A pattern whose examples conform accepts the example it generates.
pub proof fn law_pattern_accepts_its_own_example(pattern: PatternModel)
    ensures
        examples_conform(pattern) ==> rule_accepts(rule_of(pattern), example_of(pattern)),
    decreases pattern,
{
    if examples_conform(pattern) {
        match pattern {
            PatternModel::Array(items) => {
                assert forall|i: int| 0 <= i < items.len() implies rule_accepts(
                    #[trigger] rule_of(pattern)->Array_0[i],
                    example_of(pattern)->Array_0[i],
                ) by {
                    law_pattern_accepts_its_own_example(items[i]);
                }
            },
            PatternModel::Object(entries) => {
                let fields = example_of(pattern)->Object_0;
                assert forall|i: int| 0 <= i < entries.len() implies {
                    &&& first_named(fields, (#[trigger] rule_of(pattern)->Object_0[i]).0) matches Some(found)
                    &&& rule_accepts(rule_of(pattern)->Object_0[i].1, found)
                } by {
                    law_pattern_accepts_its_own_example(entries[i].1);
                    assert forall|j: int| 0 <= j < i implies (#[trigger] fields[j]).0 != entries[i].0 by {
                        assert(entries[j].0 != entries[i].0);
                    }
                    lemma_first_named(fields, entries[i].0, i);
                }
            },
            PatternModel::EachLike { element, min_len } => {
                if min_len > 0 {
                    law_pattern_accepts_its_own_example(*element);
                }
            },
            _ => {},
        }
    }
}

/// The parts of a regular-expression matcher. The expression is tried on
/// its example, which shows whether it compiles; whether it matches is not
/// held against the matcher.
fn regex_parts(regex: &String, example: &String) -> (r: Result<MatchRule, PactError>)
    ensures
        taken_apart(PatternModel::MatchingRegex { regex: regex@, example: example@ }, r),
{
    match find_match(regex.as_str(), example.as_str()) {
        Ok(_) => Ok(
            MatchRule { example: JsonValue::String(example.clone()), rule: JsonRule::Regex(regex.clone()) },
        ),
        Err(_) => Err(PactError::new(ErrorKind::InvalidPattern, regex.clone())),
    }
}

/// The parts of a date/time matcher.
fn date_time_parts(format: &String, example: &String) -> (r: Result<MatchRule, PactError>)
    ensures
        taken_apart(PatternModel::DateTime { format: format@, example: example@ }, r),
{
    Ok(MatchRule { example: JsonValue::String(example.clone()), rule: JsonRule::DateTime(format.clone()) })
}

/// Whether the field at place `at` has the name of a field before it.
fn name_stands_before(entries: &Vec<(JsonObjectKey, NifJsonPattern)>, at: usize) -> (r: bool)
    requires
        at < entries.len(),
    ensures
        r == named_before(NifJsonPattern::Object(*entries)@->Object_0, at as int),
{
    let ghost models = NifJsonPattern::Object(*entries)@->Object_0;
    let mut j: usize = 0;
    while j < at
        invariant
            j <= at < entries.len(),
            models == NifJsonPattern::Object(*entries)@->Object_0,
            forall|k: int| 0 <= k < j ==> (#[trigger] models[k]).0 != models[at as int].0,
        decreases at - j,
    {
        if entries[j].0.0 == entries[at].0.0 {
            assert(models[j as int].0 == models[at as int].0);
            return true;
        }
        j += 1;
    }
    false
}

/// `count` copies of `value`.
fn repeated(value: &JsonValue, count: usize) -> (r: Vec<JsonValue>)
    ensures
        r.len() == count,
        forall|i: int| 0 <= i < count ==> (#[trigger] r@[i])@ == value@,
{
    let mut out: Vec<JsonValue> = Vec::new();
    let mut i: usize = 0;
    while i < count
        invariant
            i <= count,
            out.len() == i,
            forall|j: int| 0 <= j < i ==> (#[trigger] out@[j])@ == value@,
        decreases count - i,
    {
        out.push(value.clone());
        i += 1;
    }
    out
}

impl NifJsonPattern {
    /// Takes the pattern apart into the example it generates and the rule it
    /// asks of a value. Fails on the first fault of the pattern: with
    /// `InvalidPattern` on a regular expression that does not compile, and
    /// with `InvalidKey` on a name that an object repeats.
    pub fn to_match_rule(&self) -> (r: Result<MatchRule, PactError>)
        ensures
            taken_apart(self@, r),
        decreases self,
    {
        match self {
            NifJsonPattern::String(s) => Ok(
                MatchRule {
                    example: JsonValue::String(s.clone()),
                    rule: JsonRule::Equals(JsonValue::String(s.clone())),
                },
            ),
            NifJsonPattern::Number(n) => Ok(
                MatchRule { example: JsonValue::Number(*n), rule: JsonRule::Equals(JsonValue::Number(*n)) },
            ),
            NifJsonPattern::Bool(b) => Ok(
                MatchRule { example: JsonValue::Bool(*b), rule: JsonRule::Equals(JsonValue::Bool(*b)) },
            ),
            NifJsonPattern::Null => Ok(
                MatchRule { example: JsonValue::Null, rule: JsonRule::Equals(JsonValue::Null) },
            ),
            NifJsonPattern::Array(items) => {
                let ghost models = self@->Array_0;
                let mut examples: Vec<JsonValue> = Vec::new();
                let mut rules: Vec<JsonRule> = Vec::new();
                let mut i: usize = 0;
                while i < items.len()
                    invariant
                        self is Array,
                        self->Array_0 == *items,
                        models == self@->Array_0,
                        i <= items.len(),
                        examples.len() == i,
                        rules.len() == i,
                        forall|j: int| 0 <= j < i ==> first_fault(#[trigger] models[j]) is None,
                        forall|j: int| 0 <= j < i ==> (#[trigger] examples@[j])@ == example_of(models[j]),
                        forall|j: int| 0 <= j < i ==> (#[trigger] rules@[j])@ == rule_of(models[j]),
                    decreases items.len() - i,
                {
                    assert(decreases_to!(self => self->Array_0@[i as int]));
                    match items[i].to_match_rule() {
                        Ok(parts) => {
                            examples.push(parts.example);
                            rules.push(parts.rule);
                        },
                        Err(error) => {
                            proof {
                                lemma_first_fault_among(models, 0, i as nat);
                            }
                            return Err(error);
                        },
                    }
                    i += 1;
                }
                proof {
                    lemma_first_fault_among(models, 0, i as nat);
                }
                let parts = MatchRule { example: JsonValue::Array(examples), rule: JsonRule::Array(rules) };
                assert(parts.example@->Array_0 =~= example_of(self@)->Array_0);
                assert(parts.rule@->Array_0 =~= rule_of(self@)->Array_0);
                Ok(parts)
            },
            NifJsonPattern::Object(entries) => {
                let ghost models = self@->Object_0;
                let mut examples: Vec<(String, JsonValue)> = Vec::new();
                let mut rules: Vec<(String, JsonRule)> = Vec::new();
                let mut i: usize = 0;
                while i < entries.len()
                    invariant
                        self is Object,
                        self->Object_0 == *entries,
                        models == self@->Object_0,
                        i <= entries.len(),
                        examples.len() == i,
                        rules.len() == i,
                        forall|j: int|
                            0 <= j < i ==> {
                                &&& (#[trigger] examples@[j]).0@ == models[j].0
                                &&& examples@[j].1@ == example_of(models[j].1)
                            },
                        forall|j: int|
                            0 <= j < i ==> first_fault((#[trigger] models[j]).1) is None && !named_before(
                                models,
                                j,
                            ),
                        forall|j: int|
                            0 <= j < i ==> {
                                &&& (#[trigger] rules@[j]).0@ == models[j].0
                                &&& rules@[j].1@ == rule_of(models[j].1)
                            },
                    decreases entries.len() - i,
                {
                    assert(decreases_to!(self => self->Object_0@[i as int].1));
                    if name_stands_before(entries, i) {
                        proof {
                            lemma_first_fault_in_fields(models, 0, i as nat);
                        }
                        return Err(PactError::new(ErrorKind::InvalidKey, entries[i].0.0.clone()));
                    }
                    match entries[i].1.to_match_rule() {
                        Ok(parts) => {
                            examples.push((entries[i].0.0.clone(), parts.example));
                            rules.push((entries[i].0.0.clone(), parts.rule));
                        },
                        Err(error) => {
                            proof {
                                lemma_first_fault_in_fields(models, 0, i as nat);
                            }
                            return Err(error);
                        },
                    }
                    i += 1;
                }
                proof {
                    lemma_first_fault_in_fields(models, 0, i as nat);
                }
                let parts = MatchRule { example: JsonValue::Object(examples), rule: JsonRule::Object(rules) };
                assert(parts.example@->Object_0 =~= example_of(self@)->Object_0);
                assert(parts.rule@->Object_0 =~= rule_of(self@)->Object_0);
                Ok(parts)
            },
            NifJsonPattern::Matcher(matcher) => matcher.to_match_rule(),
        }
    }
}

impl NifJsonMatcher {
    /// Takes the matcher apart into the example it generates and the rule it
    /// asks of a value. Fails with `InvalidPattern` on the first regular
    /// expression that does not compile.
    pub fn to_match_rule(&self) -> (r: Result<MatchRule, PactError>)
        ensures
            taken_apart(self@, r),
        decreases self,
    {
        match self {
            NifJsonMatcher::MatchingRegex { regex, example } => regex_parts(regex, example),
            NifJsonMatcher::Like(inner) => match inner.to_match_rule() {
                Ok(parts) => {
                    let kind = parts.example.kind();
                    Ok(MatchRule { example: parts.example, rule: JsonRule::SameType(kind) })
                },
                Err(error) => Err(error),
            },
            NifJsonMatcher::EachLike { json_pattern, min_len } => match json_pattern.to_match_rule() {
                Ok(parts) => {
                    let examples = repeated(&parts.example, *min_len);
                    let whole = MatchRule {
                        example: JsonValue::Array(examples),
                        rule: JsonRule::EachLike { element: Box::new(parts.rule), min_len: *min_len },
                    };
                    assert(whole.example@->Array_0 =~= example_of(self@)->Array_0);
                    Ok(whole)
                },
                Err(error) => Err(error),
            },
            NifJsonMatcher::DateTime { format, example } => date_time_parts(format, example),
        }
    }
}

impl NifStringPattern {
    /// Takes the pattern apart into the example it generates, a JSON string,
    /// and the rule it asks of a value. Fails with `InvalidPattern` on the
    /// first regular expression that does not compile.
    pub fn to_match_rule(&self) -> (r: Result<MatchRule, PactError>)
        ensures
            taken_apart(self@, r),
        decreases self,
    {
        match self {
            NifStringPattern::String(s) => Ok(
                MatchRule {
                    example: JsonValue::String(s.clone()),
                    rule: JsonRule::Equals(JsonValue::String(s.clone())),
                },
            ),
            NifStringPattern::Matcher(matcher) => matcher.to_match_rule(),
        }
    }
}

/// Whether `outcome` is what making a regular-expression matcher gives: the
/// matcher where the expression compiles, and otherwise an `InvalidPattern`
/// error that carries the expression.
pub open spec fn regex_matcher_made<M: View<V = PatternModel>>(
    regex: Seq<char>,
    example: Seq<char>,
    outcome: Result<M, PactError>,
) -> bool {
    match outcome {
        Ok(matcher) => regex_compiles(regex) && matcher@ == (PatternModel::MatchingRegex { regex, example }),
        Err(error) => !regex_compiles(regex) && error.is(ErrorKind::InvalidPattern, regex),
    }
}

impl NifJsonMatcher {
    /// A matcher for strings in which `regex` finds a match, with `example`
    /// as the string it generates. Fails with `InvalidPattern` where `regex`
    /// does not compile. Whether the example matches is the caller's concern.
    pub fn matching_regex(regex: String, example: String) -> (r: Result<NifJsonMatcher, PactError>)
        ensures
            regex_matcher_made(regex@, example@, r),
    {
        match find_match(regex.as_str(), example.as_str()) {
            Ok(_) => Ok(NifJsonMatcher::MatchingRegex { regex, example }),
            Err(_) => Err(PactError::new(ErrorKind::InvalidPattern, regex)),
        }
    }

    /// A matcher for values of the kind of the example of `inner`.
    pub fn like(inner: NifJsonPattern) -> (r: NifJsonMatcher)
        ensures
            r@ == PatternModel::Like(Box::new(inner@)),
    {
        NifJsonMatcher::Like(Box::new(inner))
    }

    /// A matcher for arrays of at least `min_len` elements that each match
    /// `element`.
    pub fn each_like(element: NifJsonPattern, min_len: usize) -> (r: NifJsonMatcher)
        ensures
            r@ == (PatternModel::EachLike { element: Box::new(element@), min_len: min_len as nat }),
    {
        NifJsonMatcher::EachLike { json_pattern: Box::new(element), min_len }
    }

    /// A matcher for strings that parse as a date or time in `format`, with
    /// `example` as the string it generates.
    pub fn date_time(format: String, example: String) -> (r: NifJsonMatcher)
        ensures
            r@ == (PatternModel::DateTime { format: format@, example: example@ }),
    {
        NifJsonMatcher::DateTime { format, example }
    }
}

impl NifStringMatcher {
    /// A matcher for strings in which `regex` finds a match, with `example`
    /// as the string it generates. Fails with `InvalidPattern` where `regex`
    /// does not compile. Whether the example matches is the caller's concern.
    pub fn matching_regex(regex: String, example: String) -> (r: Result<NifStringMatcher, PactError>)
        ensures
            regex_matcher_made(regex@, example@, r),
    {
        match find_match(regex.as_str(), example.as_str()) {
            Ok(_) => Ok(NifStringMatcher::MatchingRegex { regex, example }),
            Err(_) => Err(PactError::new(ErrorKind::InvalidPattern, regex)),
        }
    }

    /// A matcher for all strings.
    pub fn like(inner: NifStringPattern) -> (r: NifStringMatcher)
        ensures
            r@ == PatternModel::Like(Box::new(inner@)),
    {
        NifStringMatcher::Like(Box::new(inner))
    }

    /// A matcher for strings that parse as a date or time in `format`, with
    /// `example` as the string it generates.
    pub fn date_time(format: String, example: String) -> (r: NifStringMatcher)
        ensures
            r@ == (PatternModel::DateTime { format: format@, example: example@ }),
    {
        NifStringMatcher::DateTime { format, example }
    }
}

/// Whether `outcome` is what checking `pattern` gives: success where the
/// pattern has no fault, and otherwise the report of its first fault, which
/// is `InvalidPattern` with the first regular expression that does not
/// compile, or `InvalidKey` with the first name that an object repeats.
pub open spec fn checked(pattern: PatternModel, outcome: Result<(), PactError>) -> bool {
    match outcome {
        Ok(_) => first_fault(pattern) is None,
        Err(error) => first_fault(pattern) matches Some(fault) && reports(error, fault),
    }
}

impl NifJsonPattern {
    /// Checks that every regular expression in the pattern compiles and that
    /// no object names a field twice.
    pub fn validate(&self) -> (r: Result<(), PactError>)
        ensures
            checked(self@, r),
    {
        match self.to_match_rule() {
            Ok(_) => Ok(()),
            Err(error) => Err(error),
        }
    }
}

impl NifStringPattern {
    /// Checks that every regular expression in the pattern compiles.
    pub fn validate(&self) -> (r: Result<(), PactError>)
        ensures
            checked(self@, r),
    {
        match self.to_match_rule() {
            Ok(_) => Ok(()),
            Err(error) => Err(error),
        }
    }
}

impl NifStringMatcher {
    /// Takes the matcher apart into the example it generates, a JSON string,
    /// and the rule it asks of a value. Fails with `InvalidPattern` on the
    /// first regular expression that does not compile.
    pub fn to_match_rule(&self) -> (r: Result<MatchRule, PactError>)
        ensures
            taken_apart(self@, r),
        decreases self,
    {
        match self {
            NifStringMatcher::MatchingRegex { regex, example } => regex_parts(regex, example),
            NifStringMatcher::Like(inner) => match inner.to_match_rule() {
                Ok(parts) => {
                    let kind = parts.example.kind();
                    Ok(MatchRule { example: parts.example, rule: JsonRule::SameType(kind) })
                },
                Err(error) => Err(error),
            },
            NifStringMatcher::DateTime { format, example } => date_time_parts(format, example),
        }
    }
}

} // verus!
