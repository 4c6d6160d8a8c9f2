//! The protocol of the metadata module.
//!
//! The module is started with the path of a font, the subcommand `arbitrary` and, for
//! each key that is asked for, `-k` and the key. It answers on its standard output
//! with one line for each key, in the order of the keys. The key `guidelines` is
//! answered with one line of JSON: an array of objects, one for each guideline.

use crate::info::IPCInfo;
use crate::text::decimal;
use crate::text::decimal_of;
use crate::text::decode;
use crate::text::lines;
use crate::text::lines_of;
use crate::text::views;
use crate::util::PathParts;
use serde_json::Value;
use std::collections::BTreeMap;
use vstd::hash_map::StringHashMap;
use vstd::prelude::*;
use vstd::utf8::decode_utf8;
use vstd::utf8::valid_utf8;

verus! {

/// Why the metadata module gave no answer that could be used.
#[derive(Debug, Clone, Copy, PartialEq, Eq)]
pub enum Failure {
    /// No font is known to ask about.
    NoFont,
    /// The module could not be started.
    NotStarted,
    /// The module printed something that is not text.
    NotText,
    /// The module printed `lines` lines for `keys` keys.
    Mismatch {
        /// The number of lines that it printed.
        lines: usize,
        /// The number of keys that it was asked for.
        keys: usize,
    },
    /// The module printed nothing where a line of JSON was due.
    NoLine,
    /// The line that the module printed is not an array of JSON objects.
    NotJson,
}

/// The subcommand that asks for values by their keys: `arbitrary`.
pub open spec fn subcommand() -> Seq<char> {
    seq!['a', 'r', 'b', 'i', 't', 'r', 'a', 'r', 'y']
}

/// The flag that goes before each key: `-k`.
pub open spec fn key_flag() -> Seq<char> {
    seq!['-', 'k']
}

/// The key that asks for the guidelines of a font: `guidelines`.
pub open spec fn guidelines_key() -> Seq<char> {
    seq!['g', 'u', 'i', 'd', 'e', 'l', 'i', 'n', 'e', 's']
}

/// The views of the keys `keys`.
pub open spec fn key_views(keys: Seq<&str>) -> Seq<Seq<char>> {
    keys.map_values(|k: &str| k@)
}

/// The arguments that follow the font's path when `keys` are asked for: the
/// subcommand, then the flag and the key for each key in turn.
pub open spec fn arguments_for(keys: Seq<Seq<char>>) -> Seq<Seq<char>> {
    Seq::new(
        1 + 2 * keys.len(),
        |i: int|
            if i == 0 {
                subcommand()
            } else if i % 2 == 1 {
                key_flag()
            } else {
                keys[i / 2 - 1]
            },
    )
}

/// The arguments that follow the font's path when `keys` are asked for.
pub fn arbitrary_arguments(keys: &[&str]) -> (arguments: Vec<String>)
    ensures
        views(arguments@) == arguments_for(key_views(keys@)),
{
    proof {
        reveal_strlit("arbitrary");
        reveal_strlit("-k");
        assert("arbitrary"@ == subcommand());
        assert("-k"@ == key_flag());
    }
    let mut arguments: Vec<String> = Vec::new();
    arguments.push(String::from_str("arbitrary"));
    let mut at: usize = 0;
    while at < keys.len()
        invariant
            at <= keys@.len(),
            "-k"@ == key_flag(),
            arguments@.len() == 1 + 2 * at,
            forall|i: int|
                0 <= i < arguments@.len() ==> (#[trigger] arguments@[i])@ == arguments_for(
                    key_views(keys@),
                )[i],
        decreases keys@.len() - at,
    {
        arguments.push(String::from_str("-k"));
        arguments.push(String::from_str(keys[at]));
        at = at + 1;
    }
    assert(views(arguments@) =~= arguments_for(key_views(keys@)));
    arguments
}

/// What is started to ask the module: the path of the font, and the arguments that
/// follow it.
#[derive(Debug, Clone, PartialEq, Eq)]
pub struct Request {
    /// The path of the font, which is the first argument.
    pub font: PathParts,
    /// The arguments that follow the path.
    pub arguments: Vec<String>,
}

/// The request that asks for `keys` of the font of `info`. There is none where `info`
/// knows no font.
pub fn arbitrary_request(info: &IPCInfo, keys: &[&str]) -> (request: Result<Request, Failure>)
    ensures
        match request {
            Ok(r) => info.font is Some && r.font@ == info.font->0@ && views(r.arguments@)
                == arguments_for(key_views(keys@)),
            Err(failure) => info.font is None && failure == Failure::NoFont,
        },
{
    match &info.font {
        Some(font) => Ok(Request { font: font.copy(), arguments: arbitrary_arguments(keys) }),
        None => Err(Failure::NoFont),
    }
}

/// The request that asks for the guidelines of the font of `info`. There is none where
/// `info` knows no font.
pub fn guidelines_request(info: &IPCInfo) -> (request: Result<Request, Failure>)
    ensures
        match request {
            Ok(r) => info.font is Some && r.font@ == info.font->0@ && views(r.arguments@)
                == arguments_for(seq![guidelines_key()]),
            Err(failure) => info.font is None && failure == Failure::NoFont,
        },
{
    proof {
        reveal_strlit("guidelines");
        assert("guidelines"@ == guidelines_key());
    }
    let keys = ["guidelines"];
    assert(key_views(keys@) == seq![guidelines_key()]);
    arbitrary_request(info, &keys)
}

/// The values that answer `keys`, where the lines `lines` are the answers in turn: each
/// key has the line at its place; of a key asked for twice, the later place counts.
pub open spec fn answers_for(keys: Seq<Seq<char>>, lines: Seq<Seq<char>>) -> Map<
    Seq<char>,
    Seq<char>,
>
    decreases keys.len(),
{
    if keys.len() == 0 {
        Map::empty()
    } else {
        answers_for(keys.drop_last(), lines.drop_last()).insert(keys.last(), lines.last())
    }
}

/// What the output `output` of the module says in answer to `keys`; `None` stands for
/// a module that could not be started.
pub open spec fn answers_in(keys: Seq<Seq<char>>, output: Option<Seq<u8>>) -> Result<
    Map<Seq<char>, Seq<char>>,
    Failure,
> {
    match output {
        None => Err(Failure::NotStarted),
        Some(bytes) => if !valid_utf8(bytes) {
            Err(Failure::NotText)
        } else {
            let lines = lines_of(decode_utf8(bytes));
            if lines.len() != keys.len() {
                Err(Failure::Mismatch { lines: lines.len() as usize, keys: keys.len() as usize })
            } else {
                Ok(answers_for(keys, lines))
            }
        },
    }
}

/// The values of `answers` as sequences of characters.
pub open spec fn answer_views(answers: Map<Seq<char>, String>) -> Map<Seq<char>, Seq<char>> {
    answers.map_values(|v: String| v@)
}

/// What `result` holds, with its texts as sequences of characters.
pub open spec fn answers_view(result: Result<StringHashMap<String>, Failure>) -> Result<
    Map<Seq<char>, Seq<char>>,
    Failure,
> {
    match result {
        Ok(answers) => Ok(answer_views(answers@)),
        Err(failure) => Err(failure),
    }
}

/// The bytes of `output`, if there are any.
pub open spec fn bytes_of(output: Option<&[u8]>) -> Option<Seq<u8>> {
    match output {
        Some(bytes) => Some(bytes@),
        None => None,
    }
}

/// Reads the answers to `keys` from the standard output of the module; `None` where
/// it could not be started.
pub fn read_answers(keys: &[&str], output: Option<&[u8]>) -> (result: Result<
    StringHashMap<String>,
    Failure,
>)
    ensures
        answers_view(result) == answers_in(key_views(keys@), bytes_of(output)),
{
    let bytes = match output {
        Some(bytes) => bytes,
        None => {
            return Err(Failure::NotStarted);
        },
    };
    let text = match decode(bytes) {
        Some(text) => text,
        None => {
            return Err(Failure::NotText);
        },
    };
    let rows = lines(text);
    assert(views(rows@).len() == rows@.len());
    if rows.len() != keys.len() {
        return Err(Failure::Mismatch { lines: rows.len(), keys: keys.len() });
    }
    let ghost wanted = key_views(keys@);
    let ghost given = views(rows@);
    let mut answers: StringHashMap<String> = StringHashMap::new();
    let mut at: usize = 0;
    assert(answer_views(answers@) =~= answers_for(wanted.take(0), given.take(0)));
    while at < keys.len()
        invariant
            at <= keys@.len() == rows@.len(),
            wanted == key_views(keys@),
            given == views(rows@),
            answer_views(answers@) == answers_for(wanted.take(at as int), given.take(at as int)),
        decreases keys@.len() - at,
    {
        let ghost before = answers@;
        let value = rows[at].clone();
        answers.insert(String::from_str(keys[at]), value);
        proof {
            assert(wanted.take(at + 1).drop_last() == wanted.take(at as int));
            assert(given.take(at + 1).drop_last() == given.take(at as int));
            assert(answer_views(before.insert(keys@[at as int]@, value)) =~= answer_views(
                before,
            ).insert(keys@[at as int]@, value@));
        }
        at = at + 1;
    }
    assert(wanted.take(at as int) == wanted);
    assert(given.take(at as int) == given);
    Ok(answers)
}

/// What one JSON object says of a guideline, as far as it is read. A number is held
/// as the bits of its double-precision value.
#[derive(Debug, Clone, PartialEq, Eq)]
pub struct JsonGuideline {
    /// The number under `x`.
    pub x: Option<u64>,
    /// The number under `y`.
    pub y: Option<u64>,
    /// The number under `angle`.
    pub angle: Option<u64>,
    /// The text under `name`.
    pub name: Option<String>,
    /// The text under `identifier`.
    pub identifier: Option<String>,
    /// The array under `color`: for each of its elements the number, if it is one.
    pub color: Option<Vec<Option<u64>>>,
}

/// A `JsonGuideline` with its texts as sequences of characters.
pub struct JsonGuidelineView {
    /// See `JsonGuideline::x`.
    pub x: Option<u64>,
    /// See `JsonGuideline::y`.
    pub y: Option<u64>,
    /// See `JsonGuideline::angle`.
    pub angle: Option<u64>,
    /// See `JsonGuideline::name`.
    pub name: Option<Seq<char>>,
    /// See `JsonGuideline::identifier`.
    pub identifier: Option<Seq<char>>,
    /// See `JsonGuideline::color`.
    pub color: Option<Seq<Option<u64>>>,
}

/// The view of the text in `text`, if there is one.
pub open spec fn text_view(text: Option<String>) -> Option<Seq<char>> {
    match text {
        Some(t) => Some(t@),
        None => None,
    }
}

impl View for JsonGuideline {
    type V = JsonGuidelineView;

    open spec fn view(&self) -> JsonGuidelineView {
        JsonGuidelineView {
            x: self.x,
            y: self.y,
            angle: self.angle,
            name: text_view(self.name),
            identifier: text_view(self.identifier),
            color: match self.color {
                Some(c) => Some(c@),
                None => None,
            },
        }
    }
}

/// A guideline of a font. A number is held as the bits of its double-precision value.
#[derive(Debug, Clone, PartialEq, Eq)]
pub struct Guideline {
    /// Where it crosses, horizontally.
    pub x: u64,
    /// Where it crosses, vertically.
    pub y: u64,
    /// Its angle.
    pub angle: u64,
    /// Its name.
    pub name: String,
    /// Its identifier, where it has one.
    pub identifier: Option<String>,
    /// Its colour, where it has one: red, green, blue and alpha.
    pub color: Option<(u64, u64, u64, u64)>,
}

/// A `Guideline` with its texts as sequences of characters.
pub struct GuidelineView {
    /// See `Guideline::x`.
    pub x: u64,
    /// See `Guideline::y`.
    pub y: u64,
    /// See `Guideline::angle`.
    pub angle: u64,
    /// See `Guideline::name`.
    pub name: Seq<char>,
    /// See `Guideline::identifier`.
    pub identifier: Option<Seq<char>>,
    /// See `Guideline::color`.
    pub color: Option<(u64, u64, u64, u64)>,
}

impl View for Guideline {
    type V = GuidelineView;

    open spec fn view(&self) -> GuidelineView {
        GuidelineView {
            x: self.x,
            y: self.y,
            angle: self.angle,
            name: self.name@,
            identifier: text_view(self.identifier),
            color: self.color,
        }
    }
}

/// The views of the objects `records`.
pub open spec fn json_views(records: Seq<JsonGuideline>) -> Seq<JsonGuidelineView> {
    records.map_values(|r: JsonGuideline| r@)
}

/// The views of the guidelines `guidelines`.
pub open spec fn guideline_views(guidelines: Seq<Guideline>) -> Seq<GuidelineView> {
    guidelines.map_values(|g: Guideline| g@)
}

/// Whether an object makes a guideline: it has numbers under `x`, `y` and `angle`.
pub open spec fn is_placed(record: JsonGuidelineView) -> bool {
    record.x is Some && record.y is Some && record.angle is Some
}

/// How many of `records` make a guideline without a name.
pub open spec fn unnamed_among(records: Seq<JsonGuidelineView>) -> nat
    decreases records.len(),
{
    if records.len() == 0 {
        0
    } else {
        let before = unnamed_among(records.drop_last());
        if is_placed(records.last()) && records.last().name is None {
            before + 1
        } else {
            before
        }
    }
}

/// The start of the name of a guideline that has none: `Unnamed `.
pub open spec fn unnamed_start() -> Seq<char> {
    seq!['U', 'n', 'n', 'a', 'm', 'e', 'd', ' ']
}

/// The colour that the array `color` gives: its first four elements, where they are
/// there and are numbers.
pub open spec fn color_of(color: Option<Seq<Option<u64>>>) -> Option<(u64, u64, u64, u64)> {
    match color {
        Some(c) => if c.len() >= 4 && c[0] is Some && c[1] is Some && c[2] is Some
            && c[3] is Some {
            Some((c[0]->0, c[1]->0, c[2]->0, c[3]->0))
        } else {
            None
        },
        None => None,
    }
}

/// The guideline that the object `record` makes, where `unnamed` guidelines without
/// a name have been made up to and with this one.
pub open spec fn guideline_of(record: JsonGuidelineView, unnamed: nat) -> GuidelineView {
    GuidelineView {
        x: record.x->0,
        y: record.y->0,
        angle: record.angle->0,
        name: match record.name {
            Some(name) => name,
            None => unnamed_start() + decimal_of(unnamed),
        },
        identifier: record.identifier,
        color: color_of(record.color),
    }
}

/// The guidelines that the objects `records` make: one for each object that has
/// numbers under `x`, `y` and `angle`, in the order of the objects. One without a name
/// is named `Unnamed 1`, `Unnamed 2` and so on, in that order.
pub open spec fn guidelines_of(records: Seq<JsonGuidelineView>) -> Seq<GuidelineView>
    decreases records.len(),
{
    if records.len() == 0 {
        Seq::empty()
    } else if is_placed(records.last()) {
        guidelines_of(records.drop_last()).push(
            guideline_of(records.last(), unnamed_among(records)),
        )
    } else {
        guidelines_of(records.drop_last())
    }
}

/// Makes the guidelines that the objects `records` describe.
pub fn plan_guidelines(records: Vec<JsonGuideline>) -> (guidelines: Vec<Guideline>)
    ensures
        guideline_views(guidelines@) == guidelines_of(json_views(records@)),
{
    proof {
        reveal_strlit("Unnamed ");
        assert("Unnamed "@ == unnamed_start());
    }
    let ghost all = json_views(records@);
    let mut guidelines: Vec<Guideline> = Vec::new();
    let mut unnamed: usize = 0;
    let mut at: usize = 0;
    assert(all.take(0) == Seq::<JsonGuidelineView>::empty());
    assert(guideline_views(guidelines@) == Seq::<GuidelineView>::empty());
    while at < records.len()
        invariant
            at <= records@.len(),
            all == json_views(records@),
            "Unnamed "@ == unnamed_start(),
            unnamed == unnamed_among(all.take(at as int)),
            unnamed <= at,
            guideline_views(guidelines@) == guidelines_of(all.take(at as int)),
        decreases records@.len() - at,
    {
        let record = &records[at];
        proof {
            assert(all.take(at + 1).drop_last() == all.take(at as int));
            assert(all.take(at + 1).last() == record@);
        }
        match (record.x, record.y, record.angle) {
            (Some(x), Some(y), Some(angle)) => {
                let name = match &record.name {
                    Some(name) => name.clone(),
                    None => {
                        unnamed = unnamed + 1;
                        String::from_str("Unnamed ").concat(decimal(unnamed).as_str())
                    },
                };
                let identifier = match &record.identifier {
                    Some(identifier) => Some(identifier.clone()),
                    None => None,
                };
                let color = match &record.color {
                    Some(c) => if c.len() >= 4 {
                        match (c[0], c[1], c[2], c[3]) {
                            (Some(r), Some(g), Some(b), Some(a)) => Some((r, g, b, a)),
                            _ => None,
                        }
                    } else {
                        None
                    },
                    None => None,
                };
                let guideline = Guideline { x, y, angle, name, identifier, color };
                proof {
                    assert(guideline@ == guideline_of(record@, unnamed as nat));
                    assert(guideline_views(guidelines@.push(guideline)) == guideline_views(
                        guidelines@,
                    ).push(guideline@));
                }
                guidelines.push(guideline);
            },
            _ => {},
        }
        at = at + 1;
    }
    assert(all.take(at as int) == all);
    guidelines
}

/// The objects that a line of JSON holds where it is an array of objects, as far as
/// they are read for guidelines.
pub uninterp spec fn json_guidelines(line: Seq<char>) -> Option<Seq<JsonGuidelineView>>;

/// The views of the objects in `records`, if there are any.
pub open spec fn parsed_view(records: Option<Vec<JsonGuideline>>) -> Option<
    Seq<JsonGuidelineView>,
> {
    match records {
        Some(r) => Some(json_views(r@)),
        None => None,
    }
}

/// Reads a line of JSON as an array of objects, and from each object what is read of
/// a guideline.
///
/// Trusted: this is `serde_json::from_str` for a vector of maps from borrowed keys to
/// `serde_json::Value`, whose result depends on the line alone; the contract gives that
/// result its name. It is `None` where the call fails. Of each map the body takes what
/// stands under six keys: a number through `Value::as_f64` and `to_bits`, a text through
/// `Value::as_str`, the array through `Value::as_array`.
#[verifier::external_body]
fn parse_guidelines(line: &str) -> (records: Option<Vec<JsonGuideline>>)
    ensures
        parsed_view(records) == json_guidelines(line@),
{
    let parsed: Vec<BTreeMap<&str, Value>> = serde_json::from_str(line).ok()?;
    let number = |v: &Value| v.as_f64().map(|n| n.to_bits());
    let text = |v: &Value| v.as_str().map(str::to_string);
    Some(parsed.iter().map(|g| JsonGuideline {
        x: g.get("x").and_then(number),
        y: g.get("y").and_then(number),
        angle: g.get("angle").and_then(number),
        name: g.get("name").and_then(text),
        identifier: g.get("identifier").and_then(text),
        color: g.get("color").and_then(Value::as_array).map(|a| a.iter().map(number).collect()),
    }).collect())
}

/// The guidelines that the output `output` of the module describes; `None` stands for
/// a module that could not be started. Only the first line of the output is read.
pub open spec fn guidelines_in(output: Option<Seq<u8>>) -> Result<Seq<GuidelineView>, Failure> {
    match output {
        None => Err(Failure::NotStarted),
        Some(bytes) => if !valid_utf8(bytes) {
            Err(Failure::NotText)
        } else if lines_of(decode_utf8(bytes)).len() == 0 {
            Err(Failure::NoLine)
        } else {
            match json_guidelines(lines_of(decode_utf8(bytes)).first()) {
                Some(records) => Ok(guidelines_of(records)),
                None => Err(Failure::NotJson),
            }
        },
    }
}

/// What `result` holds, with its texts as sequences of characters.
pub open spec fn guidelines_view(result: Result<Vec<Guideline>, Failure>) -> Result<
    Seq<GuidelineView>,
    Failure,
> {
    match result {
        Ok(guidelines) => Ok(guideline_views(guidelines@)),
        Err(failure) => Err(failure),
    }
}

/// Reads the guidelines of a font from the standard output of the module; `None`
/// where it could not be started.
pub fn read_guidelines(output: Option<&[u8]>) -> (result: Result<Vec<Guideline>, Failure>)
    ensures
        guidelines_view(result) == guidelines_in(bytes_of(output)),
{
    let bytes = match output {
        Some(bytes) => bytes,
        None => {
            return Err(Failure::NotStarted);
        },
    };
    let text = match decode(bytes) {
        Some(text) => text,
        None => {
            return Err(Failure::NotText);
        },
    };
    let rows = lines(text);
    assert(views(rows@).len() == rows@.len());
    if rows.len() == 0 {
        return Err(Failure::NoLine);
    }
    assert(views(rows@).first() == rows@[0]@);
    match parse_guidelines(rows[0].as_str()) {
        Some(records) => Ok(plan_guidelines(records)),
        None => Err(Failure::NotJson),
    }
}

} // verus!
