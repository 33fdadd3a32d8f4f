//! JSON values as plain data. Parsing and rendering are done by `serde_json`;
//! what the bridge reads of a value (a member of an object, a string) is
//! computed here.

use crate::error::{quote_detail, quoted_detail, BridgeError, ErrorKind, ErrorView};
use crate::text::concat2;
use serde_json::Value;
use vstd::prelude::*;
use vstd::string::StringExecFns;

verus! {

/// A JSON number, kept as its text. Only a text that `serde_json` reads as a
/// number can be held, so a number can always be written out again.
#[derive(Debug, PartialEq, Eq)]
pub struct JsonNumber {
    text: String,
}

impl View for JsonNumber {
    type V = Seq<char>;

    closed spec fn view(&self) -> Seq<char> {
        self.text@
    }
}

/// A JSON value. A number is kept as text, in the form in which `serde_json`
/// writes it; an object is kept as its members in order, and of two members
/// with one name the later one counts.
#[derive(Debug, PartialEq, Eq)]
pub enum JsonValue {
    Null,
    Bool(bool),
    Number(JsonNumber),
    Text(String),
    Array(Vec<JsonValue>),
    Object(Vec<(String, JsonValue)>),
}

/// The mathematical model of a [`JsonValue`].
pub enum JsonModel {
    Null,
    Bool(bool),
    Number(Seq<char>),
    Text(Seq<char>),
    Array(Seq<JsonModel>),
    Object(Seq<(Seq<char>, JsonModel)>),
}

impl View for JsonValue {
    type V = JsonModel;

    open spec fn view(&self) -> JsonModel
        decreases self, 0nat,
    {
        match self {
            JsonValue::Null => JsonModel::Null,
            JsonValue::Bool(flag) => JsonModel::Bool(*flag),
            JsonValue::Number(number) => JsonModel::Number(number@),
            JsonValue::Text(text) => JsonModel::Text(text@),
            JsonValue::Array(items) => JsonModel::Array(items_model(items@, items@.len())),
            JsonValue::Object(members) => JsonModel::Object(
                members_model(members@, members@.len()),
            ),
        }
    }
}

/// The models of the first `count` items, in order.
pub open spec fn items_model(items: Seq<JsonValue>, count: nat) -> Seq<JsonModel>
    decreases items, count,
{
    if count == 0 || count > items.len() {
        Seq::empty()
    } else {
        items_model(items, (count - 1) as nat).push(items[count - 1].view())
    }
}

/// The first `count` members, each as its name and the model of its value.
pub open spec fn members_model(members: Seq<(String, JsonValue)>, count: nat) -> Seq<
    (Seq<char>, JsonModel),
>
    decreases members, count,
{
    if count == 0 || count > members.len() {
        Seq::empty()
    } else {
        members_model(members, (count - 1) as nat).push(
            (members[count - 1].0@, members[count - 1].1.view()),
        )
    }
}

/// The index of the last of the first `upto` members that is named `key`.
pub open spec fn member_index(
    members: Seq<(Seq<char>, JsonModel)>,
    key: Seq<char>,
    upto: int,
) -> Option<int>
    decreases upto,
{
    if upto <= 0 || upto > members.len() {
        None
    } else if members[upto - 1].0 == key {
        Some(upto - 1)
    } else {
        member_index(members, key, upto - 1)
    }
}

/// The member that counts for a name is the last one of that name, and there is
/// none exactly where no member has the name.
pub proof fn lemma_member_index(members: Seq<(Seq<char>, JsonModel)>, key: Seq<char>, upto: int)
    requires
        0 <= upto <= members.len(),
    ensures
        match member_index(members, key, upto) {
            Some(index) => {
                &&& 0 <= index < upto
                &&& members[index].0 == key
                &&& forall|j: int| index < j < upto ==> (#[trigger] members[j]).0 != key
            },
            None => forall|j: int| 0 <= j < upto ==> (#[trigger] members[j]).0 != key,
        },
    decreases upto,
{
    if upto > 0 && members[upto - 1].0 != key {
        lemma_member_index(members, key, upto - 1);
    }
}

impl JsonModel {
    /// The member named `key` of an object; `None` for any other value.
    pub open spec fn field(self, key: Seq<char>) -> Option<JsonModel> {
        match self {
            JsonModel::Object(members) => match member_index(members, key, members.len() as int) {
                Some(i) => Some(members[i].1),
                None => None,
            },
            _ => None,
        }
    }

    /// The characters of a string value; `None` for any other value.
    pub open spec fn text(self) -> Option<Seq<char>> {
        match self {
            JsonModel::Text(text) => Some(text),
            _ => None,
        }
    }

    /// The characters of the member named `key`, where it is a string.
    pub open spec fn text_field(self, key: Seq<char>) -> Option<Seq<char>> {
        match self.field(key) {
            Some(value) => value.text(),
            None => None,
        }
    }
}

/// What `serde_json::from_slice` makes of the whole of `bytes`: the value that
/// it reads, or the text of the error that it reports.
pub uninterp spec fn json_parse(bytes: Seq<u8>) -> Result<JsonModel, Seq<char>>;

/// The compact text that `serde_json` writes for a value.
pub uninterp spec fn json_text(value: JsonModel) -> Seq<char>;

/// Whether `serde_json::from_str` reads the whole of `text` as one number.
pub uninterp spec fn json_number(text: Seq<char>) -> bool;

/// The message of a response that is not one JSON value, given the text of the
/// parser's error.
pub open spec fn malformed_text(parser_error: Seq<char>) -> Seq<char> {
    "Blender response was not valid JSON: "@ + quoted_detail(parser_error)
}

/// `serde_json::Value`, of which nothing is known here: it only passes between
/// the calls into `serde_json` and the conversions below.
#[verifier::external_type_specification]
#[verifier::external_body]
pub struct ExJsonOutside(serde_json::Value);

/// Moves a `serde_json::Value` into a [`JsonValue`], variant by variant. A number
/// becomes the text that `serde_json::Number` displays, which `serde_json` reads
/// as that number again; the members of an object come in the order in which
/// its map hands them out.
#[verifier::external_body]
fn from_outside(value: Value) -> JsonValue {
    match value {
        Value::Null => JsonValue::Null,
        Value::Bool(flag) => JsonValue::Bool(flag),
        Value::Number(number) => JsonValue::Number(JsonNumber { text: number.to_string() }),
        Value::String(text) => JsonValue::Text(text),
        Value::Array(items) => JsonValue::Array(items.into_iter().map(from_outside).collect()),
        Value::Object(map) => JsonValue::Object(
            map.into_iter().map(|(name, member)| (name, from_outside(member))).collect(),
        ),
    }
}

/// Builds the `serde_json::Value` for a [`JsonValue`], variant by variant. The
/// text of a number is read back by `serde_json::from_str`, which reads every
/// text that a [`JsonNumber`] can hold; a member inserted under a name already
/// present replaces the earlier one.
#[verifier::external_body]
fn to_outside(value: &JsonValue) -> Value {
    match value {
        JsonValue::Null => Value::Null,
        JsonValue::Bool(flag) => Value::Bool(*flag),
        JsonValue::Number(number) => serde_json::from_str(&number.text).map_or(
            Value::Null,
            Value::Number,
        ),
        JsonValue::Text(text) => Value::String(text.clone()),
        JsonValue::Array(items) => Value::Array(items.iter().map(to_outside).collect()),
        JsonValue::Object(members) => Value::Object(
            members.iter().map(|(name, member)| (name.clone(), to_outside(member))).collect(),
        ),
    }
}

/// `serde_json::from_slice` on the whole buffer: it succeeds exactly on the byte
/// strings that hold one JSON value and nothing after it but whitespace. What it
/// reads, and the display text of the error that it reports otherwise, depend on
/// the bytes alone.
#[verifier::external_body]
fn parse_json(bytes: &[u8]) -> (parsed: Result<JsonValue, String>)
    ensures
        match parsed {
            Ok(value) => json_parse(bytes@) == Ok::<JsonModel, Seq<char>>(value@),
            Err(text) => json_parse(bytes@) == Err::<JsonModel, Seq<char>>(text@),
        },
{
    match serde_json::from_slice::<Value>(bytes) {
        Ok(value) => Ok(from_outside(value)),
        Err(error) => Err(error.to_string()),
    }
}

/// `serde_json::from_str` for a number, on the whole text: whether it reads one
/// depends on the text alone.
#[verifier::external_body]
fn reads_as_number(text: &str) -> (readable: bool)
    ensures
        readable == json_number(text@),
{
    serde_json::from_str::<serde_json::Number>(text).is_ok()
}

/// The compact rendering of a value, as `serde_json::Value` displays it.
#[verifier::external_body]
fn render_json(value: &JsonValue) -> (rendered: String)
    ensures
        rendered@ == json_text(value@),
{
    to_outside(value).to_string()
}

/// The model of an object lists its members in order, each by its name and model.
pub open spec fn models_members(
    model: Seq<(Seq<char>, JsonModel)>,
    members: Seq<(String, JsonValue)>,
) -> bool {
    &&& model.len() == members.len()
    &&& forall|i: int|
        0 <= i < members.len() ==> #[trigger] model[i] == (members[i].0@, members[i].1@)
}

/// The model of an object is the list of its members, each as its name and the
/// model of its value.
pub proof fn lemma_object_model(members: Vec<(String, JsonValue)>)
    ensures
        JsonValue::Object(members)@ matches JsonModel::Object(model) && models_members(
            model,
            members@,
        ),
{
    lemma_members_model(members@, members@.len());
}

/// The first `count` members, modelled, are `count` pairs of a name and a model.
proof fn lemma_members_model(members: Seq<(String, JsonValue)>, count: nat)
    requires
        count <= members.len(),
    ensures
        members_model(members, count).len() == count,
        forall|i: int|
            0 <= i < count ==> #[trigger] members_model(members, count)[i] == (
                members[i].0@,
                members[i].1@,
            ),
    decreases count,
{
    reveal_with_fuel(members_model, 2);
    if count > 0 {
        lemma_members_model(members, (count - 1) as nat);
    }
}

impl JsonValue {
    /// A string value.
    pub fn text(text: &str) -> (value: Self)
        ensures
            value@ == JsonModel::Text(text@),
    {
        JsonValue::Text(String::from_str(text))
    }

    /// Reads one JSON value from the whole of `bytes`. Anything that is not one
    /// value followed by nothing but whitespace is a malformed response.
    pub fn parse(bytes: &[u8]) -> (parsed: Result<JsonValue, BridgeError>)
        ensures
            match parsed {
                Ok(value) => json_parse(bytes@) == Ok::<JsonModel, Seq<char>>(value@),
                Err(error) => json_parse(bytes@) matches Err(text) && error@ == (ErrorView {
                    kind: ErrorKind::MalformedResponse,
                    message: malformed_text(text),
                }),
            },
    {
        match parse_json(bytes) {
            Ok(value) => Ok(value),
            Err(text) => {
                let detail = quote_detail(text.as_str());
                let message = concat2("Blender response was not valid JSON: ", detail.as_str());
                Err(BridgeError::new(ErrorKind::MalformedResponse, message))
            },
        }
    }

    /// The compact JSON text of the value.
    pub fn render(&self) -> (rendered: String)
        ensures
            rendered@ == json_text(self@),
    {
        render_json(self)
    }

    /// The member named `key` of an object.
    pub fn get(&self, key: &str) -> (found: Option<&JsonValue>)
        ensures
            match found {
                Some(value) => self@.field(key@) == Some(value@),
                None => self@.field(key@) is None,
            },
    {
        match self {
            JsonValue::Object(members) => {
                proof {
                    lemma_object_model(*members);
                }
                match member_position(members, key) {
                    Some(position) => Some(&members[position].1),
                    None => None,
                }
            },
            _ => None,
        }
    }

    /// The characters of a string value.
    pub fn as_text(&self) -> (found: Option<&str>)
        ensures
            match found {
                Some(text) => self@.text() == Some(text@),
                None => self@.text() is None,
            },
    {
        match self {
            JsonValue::Text(text) => Some(text.as_str()),
            _ => None,
        }
    }

    /// An owned copy of the member named `key`, where it is a string.
    pub fn text_field(&self, key: &str) -> (found: Option<String>)
        ensures
            match found {
                Some(text) => self@.text_field(key@) == Some(text@),
                None => self@.text_field(key@) is None,
            },
    {
        match self.get(key) {
            Some(value) => match value.as_text() {
                Some(text) => Some(String::from_str(text)),
                None => None,
            },
            None => None,
        }
    }

    /// Takes the member named `key` out of an object.
    pub fn into_field(self, key: &str) -> (found: Option<JsonValue>)
        ensures
            match found {
                Some(value) => self@.field(key@) == Some(value@),
                None => self@.field(key@) is None,
            },
    {
        match self {
            JsonValue::Object(mut members) => {
                proof {
                    lemma_object_model(members);
                }
                match member_position(&members, key) {
                    Some(position) => {
                        let member = members.remove(position);
                        Some(member.1)
                    },
                    None => None,
                }
            },
            _ => None,
        }
    }
}

/// The position of the member that counts for the name `key`: the last one of
/// that name.
fn member_position(members: &Vec<(String, JsonValue)>, key: &str) -> (position: Option<usize>)
    ensures
        match position {
            Some(index) => index < members.len() && member_index(
                members_model(members@, members@.len()),
                key@,
                members@.len() as int,
            ) == Some(index as int),
            None => member_index(
                members_model(members@, members@.len()),
                key@,
                members@.len() as int,
            ) is None,
        },
{
    proof {
        lemma_object_model(*members);
    }
    let ghost model = members_model(members@, members@.len());
    let wanted = String::from_str(key);
    let mut upto: usize = members.len();
    while upto > 0
        invariant
            upto <= members.len(),
            wanted@ == key@,
            model == members_model(members@, members@.len()),
            models_members(model, members@),
            member_index(model, key@, upto as int) == member_index(
                model,
                key@,
                model.len() as int,
            ),
        decreases upto,
    {
        if members[upto - 1].0 == wanted {
            return Some(upto - 1);
        }
        upto -= 1;
    }
    None
}

impl JsonNumber {
    #[verifier::type_invariant]
    spec fn readable(self) -> bool {
        json_number(self.text@)
    }

    /// The number that `text` stands for, if `serde_json` reads it as one.
    pub fn new(text: &str) -> (number: Option<JsonNumber>)
        ensures
            match number {
                Some(number) => json_number(text@) && number@ == text@,
                None => !json_number(text@),
            },
    {
        if reads_as_number(text) {
            Some(JsonNumber { text: String::from_str(text) })
        } else {
            None
        }
    }

    /// The text of the number.
    pub fn text(&self) -> (text: &str)
        ensures
            text@ == self@,
    {
        self.text.as_str()
    }
}

} // verus!
