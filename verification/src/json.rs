//! JSON values: reading them (with `serde_json`), looking into them, decoding the fields of a
//! record, and writing them as compact text.
use crate::text::{decimal, decimal_of, digits_of, opt_view, res_view, same, views};
use vstd::prelude::*;

verus! {

// ---------------------------------------------------------------------------------------------
// Values
// ---------------------------------------------------------------------------------------------
/// A JSON value.
#[derive(Debug)]
pub enum Json {
    Null,
    Bool(bool),
    Number(JsonNumber),
    Str(String),
    Array(Vec<Json>),
    /// The members of an object, in the order in which they are written.
    Object(Vec<(String, Json)>),
}

/// A JSON number: what it is as an integer, where it is one, and its text.
#[derive(Debug)]
pub struct JsonNumber {
    pub unsigned: Option<u64>,
    pub signed: Option<i64>,
    pub text: String,
}

/// The model of a JSON value.
pub enum JsonView {
    Null,
    Bool(bool),
    Number(JsonNumberView),
    Str(Seq<char>),
    Array(Seq<JsonView>),
    Object(Seq<(Seq<char>, JsonView)>),
}

/// The model of a JSON number.
pub struct JsonNumberView {
    pub unsigned: Option<u64>,
    pub signed: Option<i64>,
    pub text: Seq<char>,
}

impl View for JsonNumber {
    type V = JsonNumberView;

    open spec fn view(&self) -> JsonNumberView {
        JsonNumberView { unsigned: self.unsigned, signed: self.signed, text: self.text@ }
    }
}

/// The model of a JSON value.
pub open spec fn json_view(json: Json) -> JsonView
    decreases json,
{
    match json {
        Json::Null => JsonView::Null,
        Json::Bool(b) => JsonView::Bool(b),
        Json::Number(n) => JsonView::Number(n@),
        Json::Str(s) => JsonView::Str(s@),
        Json::Array(items) => JsonView::Array(
            Seq::new(
                items@.len(),
                |i: int|
                    if 0 <= i < items@.len() {
                        json_view(items@[i])
                    } else {
                        JsonView::Null
                    },
            ),
        ),
        Json::Object(members) => JsonView::Object(
            Seq::new(
                members@.len(),
                |i: int|
                    if 0 <= i < members@.len() {
                        (members@[i].0@, json_view(members@[i].1))
                    } else {
                        (Seq::empty(), JsonView::Null)
                    },
            ),
        ),
    }
}

impl View for Json {
    type V = JsonView;

    open spec fn view(&self) -> JsonView {
        json_view(*self)
    }
}

/// The models of the members of an object.
pub open spec fn members_view(members: Seq<(String, Json)>) -> Seq<(Seq<char>, JsonView)> {
    Seq::new(members.len(), |i: int| (members[i].0@, members[i].1@))
}

/// The model of an array is the sequence of the models of its items.
pub proof fn lemma_array_view(items: Vec<Json>)
    ensures
        Json::Array(items)@ == JsonView::Array(views(items@)),
{
    let v = Json::Array(items)@;
    assert(v->Array_0 =~= views(items@));
}

/// The model of an object is the sequence of the models of its members.
pub proof fn lemma_object_view(members: Vec<(String, Json)>)
    ensures
        Json::Object(members)@ == JsonView::Object(members_view(members@)),
{
    let v = Json::Object(members)@;
    assert(v->Object_0 =~= members_view(members@));
}

// ---------------------------------------------------------------------------------------------
// Reading text
// ---------------------------------------------------------------------------------------------
/// What `serde_json::from_str` reads from a text: a value, or the text of its error. Where an
/// object names a member twice, the value holds the last one.
pub uninterp spec fn json_reading(text: Seq<char>) -> Result<JsonView, Seq<char>>;

/// What `serde_json`'s stream of values gives first for a text, where that is a value.
pub uninterp spec fn leading_json(text: Seq<char>) -> Option<JsonView>;

#[verifier::external_type_specification]
#[verifier::external_body]
pub struct ExValue(serde_json::Value);

/// Turns a `serde_json::Value` into a `Json`, variant by variant and member by member. Nothing is
/// claimed of it here: the functions that read text state what they hand on.
#[verifier::external_body]
fn json_of_value(value: serde_json::Value) -> Json {
    match value {
        serde_json::Value::Null => Json::Null,
        serde_json::Value::Bool(b) => Json::Bool(b),
        serde_json::Value::Number(n) => Json::Number(
            JsonNumber { unsigned: n.as_u64(), signed: n.as_i64(), text: n.to_string() },
        ),
        serde_json::Value::String(s) => Json::Str(s),
        serde_json::Value::Array(items) => Json::Array(
            items.into_iter().map(json_of_value).collect(),
        ),
        serde_json::Value::Object(members) => Json::Object(
            members.into_iter().map(|(name, value)| (name, json_of_value(value))).collect(),
        ),
    }
}

/// Reads a JSON value with `serde_json::from_str`. The result is a function of the text alone: the
/// value, or what the error displays.
#[verifier::external_body]
fn read_value(text: &str) -> (r: Result<Json, String>)
    ensures
        res_view(r) == json_reading(text@),
{
    match serde_json::from_str::<serde_json::Value>(text) {
        Ok(value) => Ok(json_of_value(value)),
        Err(error) => Err(error.to_string()),
    }
}

/// Reads the first JSON value of a text with `serde_json::Deserializer`'s stream of values. The
/// result is a function of the text alone.
#[verifier::external_body]
fn read_first_value(text: &str) -> (r: Option<Json>)
    ensures
        opt_view(r) == leading_json(text@),
{
    match serde_json::Deserializer::from_str(text).into_iter::<serde_json::Value>().next() {
        Some(Ok(value)) => Some(json_of_value(value)),
        _ => None,
    }
}

/// Reads a JSON value, or says why the text is none.
pub fn parse_json(text: &str) -> (r: Result<Json, String>)
    ensures
        res_view(r) == json_reading(text@),
{
    read_value(text)
}

/// The value with which a text starts, where it starts with one.
pub fn first_json_value(text: &str) -> (r: Option<Json>)
    ensures
        opt_view(r) == leading_json(text@),
{
    read_first_value(text)
}

/// What a text says in JSON: the value that it is, or else the value that it starts with.
pub open spec fn json_in(text: Seq<char>) -> Option<JsonView> {
    match json_reading(text) {
        Ok(value) => Some(value),
        Err(_) => leading_json(text),
    }
}

/// The JSON value that a text is, or else the one that it starts with.
pub fn find_json(text: &str) -> (r: Option<Json>)
    ensures
        opt_view(r) == json_in(text@),
{
    match parse_json(text) {
        Ok(value) => Some(value),
        Err(_) => first_json_value(text),
    }
}

// ---------------------------------------------------------------------------------------------
// Looking into a value
// ---------------------------------------------------------------------------------------------
/// The member of that name; where several have it, the last.
pub open spec fn member_named(members: Seq<(Seq<char>, JsonView)>, name: Seq<char>) -> Option<
    JsonView,
>
    decreases members.len(),
{
    if members.len() == 0 {
        None
    } else if members.last().0 == name {
        Some(members.last().1)
    } else {
        member_named(members.drop_last(), name)
    }
}

impl JsonView {
    /// The member of that name, of an object.
    pub open spec fn get(self, name: Seq<char>) -> Option<JsonView> {
        match self {
            JsonView::Object(members) => member_named(members, name),
            _ => None,
        }
    }

    /// The text of a string.
    pub open spec fn as_str(self) -> Option<Seq<char>> {
        match self {
            JsonView::Str(s) => Some(s),
            _ => None,
        }
    }

    /// The items of an array.
    pub open spec fn as_array(self) -> Option<Seq<JsonView>> {
        match self {
            JsonView::Array(items) => Some(items),
            _ => None,
        }
    }

    /// The value of a number that is a natural number below 2^64.
    pub open spec fn as_u64(self) -> Option<u64> {
        match self {
            JsonView::Number(n) => n.unsigned,
            _ => None,
        }
    }

    /// The text of the string member of that name.
    pub open spec fn get_str(self, name: Seq<char>) -> Option<Seq<char>> {
        match self.get(name) {
            Some(member) => member.as_str(),
            None => None,
        }
    }

    /// The items of the array member of that name.
    pub open spec fn get_array(self, name: Seq<char>) -> Option<Seq<JsonView>> {
        match self.get(name) {
            Some(member) => member.as_array(),
            None => None,
        }
    }
}

impl Json {
    /// The member of that name, of an object.
    pub fn get<'a>(&'a self, name: &str) -> (r: Option<&'a Json>)
        ensures
            opt_view(r) == self@.get(name@),
    {
        match self {
            Json::Object(members) => {
                proof {
                    lemma_object_view(*members);
                }
                let ghost all = members_view(members@);
                let mut i: usize = members.len();
                assert(all.take(all.len() as int) == all);
                while i > 0
                    invariant
                        i <= members.len(),
                        all == members_view(members@),
                        self@ == JsonView::Object(all),
                        member_named(all.take(i as int), name@) == self@.get(name@),
                    decreases i,
                {
                    assert(all.take(i as int).drop_last() == all.take(i - 1));
                    i -= 1;
                    if same(members[i].0.as_str(), name) {
                        return Some(&members[i].1);
                    }
                }
                None
            },
            _ => None,
        }
    }

    /// The text of a string.
    pub fn as_str<'a>(&'a self) -> (r: Option<&'a str>)
        ensures
            opt_view(r) == self@.as_str(),
    {
        match self {
            Json::Str(s) => Some(s.as_str()),
            _ => None,
        }
    }

    /// The items of an array.
    pub fn as_array<'a>(&'a self) -> (r: Option<&'a Vec<Json>>)
        ensures
            r is Some <==> self@.as_array() is Some,
            r matches Some(items) ==> self@.as_array() == Some(views(items@)),
    {
        match self {
            Json::Array(items) => {
                proof {
                    lemma_array_view(*items);
                }
                Some(items)
            },
            _ => None,
        }
    }

    /// The value of a number that is a natural number below 2^64.
    pub fn as_u64(&self) -> (r: Option<u64>)
        ensures
            r == self@.as_u64(),
    {
        match self {
            Json::Number(n) => n.unsigned,
            _ => None,
        }
    }

    /// The text of the string member of that name.
    pub fn get_str<'a>(&'a self, name: &str) -> (r: Option<&'a str>)
        ensures
            opt_view(r) == self@.get_str(name@),
    {
        match self.get(name) {
            Some(member) => member.as_str(),
            None => None,
        }
    }

    /// The items of the array member of that name.
    pub fn get_array<'a>(&'a self, name: &str) -> (r: Option<&'a Vec<Json>>)
        ensures
            r is Some <==> self@.get_array(name@) is Some,
            r matches Some(items) ==> self@.get_array(name@) == Some(views(items@)),
    {
        match self.get(name) {
            Some(member) => member.as_array(),
            None => None,
        }
    }
}

// ---------------------------------------------------------------------------------------------
// Writing text
// ---------------------------------------------------------------------------------------------
/// A hexadecimal digit.
pub open spec fn hex_digit(n: int) -> char {
    if n < 10 {
        (('0' as u32) + n) as char
    } else {
        (('a' as u32) + n - 10) as char
    }
}

/// How a character is written inside a JSON string.
pub open spec fn escape(c: char) -> Seq<char> {
    if c == '"' {
        seq!['\\', '"']
    } else if c == '\\' {
        seq!['\\', '\\']
    } else if c == '\u{8}' {
        seq!['\\', 'b']
    } else if c == '\t' {
        seq!['\\', 't']
    } else if c == '\n' {
        seq!['\\', 'n']
    } else if c == '\u{c}' {
        seq!['\\', 'f']
    } else if c == '\r' {
        seq!['\\', 'r']
    } else if (c as u32) < 0x20 {
        seq![
            '\\',
            'u',
            '0',
            '0',
            hex_digit((c as u32) as int / 16),
            hex_digit((c as u32) as int % 16),
        ]
    } else {
        seq![c]
    }
}

/// How characters are written inside a JSON string.
pub open spec fn escaped(s: Seq<char>) -> Seq<char>
    decreases s.len(),
{
    if s.len() == 0 {
        Seq::empty()
    } else {
        escaped(s.drop_last()) + escape(s.last())
    }
}

/// A text as a JSON string.
pub open spec fn quoted(s: Seq<char>) -> Seq<char> {
    seq!['"'] + escaped(s) + seq!['"']
}

/// The compact text of a JSON value, its members in their order.
pub open spec fn json_text(json: JsonView) -> Seq<char>
    decreases json,
{
    match json {
        JsonView::Null => "null"@,
        JsonView::Bool(b) => if b {
            "true"@
        } else {
            "false"@
        },
        JsonView::Number(n) => n.text,
        JsonView::Str(s) => quoted(s),
        JsonView::Array(items) => "["@ + items_text(items) + "]"@,
        JsonView::Object(members) => "{"@ + members_text(members) + "}"@,
    }
}

/// The texts of the items of an array, with commas between them.
pub open spec fn items_text(items: Seq<JsonView>) -> Seq<char>
    decreases items,
{
    if items.len() == 0 {
        Seq::empty()
    } else if items.len() == 1 {
        json_text(items[0])
    } else {
        items_text(items.drop_last()) + ","@ + json_text(items.last())
    }
}

/// The texts of the members of an object, with commas between them.
pub open spec fn members_text(members: Seq<(Seq<char>, JsonView)>) -> Seq<char>
    decreases members,
{
    if members.len() == 0 {
        Seq::empty()
    } else if members.len() == 1 {
        quoted(members[0].0) + ":"@ + json_text(members[0].1)
    } else {
        members_text(members.drop_last()) + ","@ + (quoted(members.last().0) + ":"@ + json_text(
            members.last().1,
        ))
    }
}

/// Writes a text as a JSON string, with `serde_json::Value`'s `Display`: in quotes, with `"`, `\`
/// and the control characters below U+0020 escaped and everything else as it is.
#[verifier::external_body]
fn quote(s: &str) -> (r: String)
    ensures
        r@ == quoted(s@),
{
    serde_json::Value::from(s).to_string()
}

impl Json {
    /// The compact text of the value.
    pub fn to_text(&self) -> (r: String)
        ensures
            r@ == json_text(self@),
        decreases self,
    {
        match self {
            Json::Null => "null".to_owned(),
            Json::Bool(b) => if *b {
                "true".to_owned()
            } else {
                "false".to_owned()
            },
            Json::Number(n) => n.text.clone(),
            Json::Str(s) => quote(s.as_str()),
            Json::Array(items) => {
                let mut text = String::new();
                let mut i: usize = 0;
                let ghost models = views(items@);
                while i < items.len()
                    invariant
                        i <= items.len(),
                        models == views(items@),
                        *self == Json::Array(*items),
                        text@ == items_text(models.take(i as int)),
                    decreases items.len() - i,
                {
                    assert(models.take(i + 1).drop_last() == models.take(i as int));
                    assert(decreases_to!(*self => self->Array_0));
                    let part = items[i].to_text();
                    if i > 0 {
                        text.append(",");
                        text.append(part.as_str());
                    } else {
                        text = part;
                    }
                    i += 1;
                }
                let mut r = "[".to_owned();
                r.append(text.as_str());
                r.append("]");
                proof {
                    lemma_array_view(*items);
                    assert(models.take(models.len() as int) == models);
                }
                r
            },
            Json::Object(members) => {
                let mut text = String::new();
                let mut i: usize = 0;
                let ghost models = members_view(members@);
                while i < members.len()
                    invariant
                        i <= members.len(),
                        models == members_view(members@),
                        *self == Json::Object(*members),
                        text@ == members_text(models.take(i as int)),
                    decreases members.len() - i,
                {
                    assert(models.take(i + 1).drop_last() == models.take(i as int));
                    assert(decreases_to!(*self => self->Object_0));
                    let mut part = quote(members[i].0.as_str());
                    part.append(":");
                    let value = members[i].1.to_text();
                    part.append(value.as_str());
                    if i > 0 {
                        text.append(",");
                        text.append(part.as_str());
                    } else {
                        text = part;
                    }
                    i += 1;
                }
                let mut r = "{".to_owned();
                r.append(text.as_str());
                r.append("}");
                proof {
                    lemma_object_view(*members);
                    assert(models.take(models.len() as int) == models);
                }
                r
            },
        }
    }
}

// ---------------------------------------------------------------------------------------------
// Making values
// ---------------------------------------------------------------------------------------------
/// An integer as a JSON value.
pub open spec fn int_json(n: i64) -> JsonView {
    JsonView::Number(
        JsonNumberView {
            unsigned: if n >= 0 {
                Some(n as u64)
            } else {
                None
            },
            signed: Some(n),
            text: decimal(n as int),
        },
    )
}

/// An unsigned integer as a JSON value.
pub open spec fn uint_json(n: u64) -> JsonView {
    JsonView::Number(
        JsonNumberView {
            unsigned: Some(n),
            signed: if n <= i64::MAX {
                Some(n as i64)
            } else {
                None
            },
            text: decimal(n as int),
        },
    )
}

/// Texts as a JSON array.
pub open spec fn texts_json(texts: Seq<Seq<char>>) -> JsonView {
    JsonView::Array(Seq::new(texts.len(), |i: int| JsonView::Str(texts[i])))
}

impl Json {
    /// A text.
    pub fn text(text: &str) -> (r: Json)
        ensures
            r@ == JsonView::Str(text@),
    {
        Json::Str(text.to_owned())
    }

    /// An integer.
    pub fn integer(n: i64) -> (r: Json)
        ensures
            r@ == int_json(n),
    {
        Json::Number(
            JsonNumber {
                unsigned: if n >= 0 {
                    Some(n as u64)
                } else {
                    None
                },
                signed: Some(n),
                text: decimal_of(n),
            },
        )
    }

    /// An unsigned integer.
    pub fn unsigned(n: u64) -> (r: Json)
        ensures
            r@ == uint_json(n),
    {
        Json::Number(
            JsonNumber {
                unsigned: Some(n),
                signed: if n <= i64::MAX as u64 {
                    Some(n as i64)
                } else {
                    None
                },
                text: digits_of(n),
            },
        )
    }

    /// An array.
    pub fn array(items: Vec<Json>) -> (r: Json)
        ensures
            r@ == JsonView::Array(views(items@)),
    {
        proof {
            lemma_array_view(items);
        }
        Json::Array(items)
    }

    /// An object.
    pub fn object(members: Vec<(String, Json)>) -> (r: Json)
        ensures
            r@ == JsonView::Object(members_view(members@)),
    {
        proof {
            lemma_object_view(members);
        }
        Json::Object(members)
    }

    /// An array of texts.
    pub fn texts(texts: &Vec<String>) -> (r: Json)
        ensures
            r@ == texts_json(views(texts@)),
    {
        let mut items: Vec<Json> = Vec::new();
        let mut i: usize = 0;
        while i < texts.len()
            invariant
                i <= texts.len(),
                items.len() == i,
                forall|k: int| 0 <= k < i ==> (#[trigger] items@[k])@ == JsonView::Str(texts@[k]@),
            decreases texts.len() - i,
        {
            items.push(Json::Str(texts[i].clone()));
            i += 1;
        }
        assert(views(items@) =~= texts_json(views(texts@))->Array_0);
        Json::array(items)
    }
}

impl Json {
    /// A copy of the value.
    pub fn copy(&self) -> (r: Json)
        ensures
            r@ == self@,
        decreases self,
    {
        match self {
            Json::Null => Json::Null,
            Json::Bool(b) => Json::Bool(*b),
            Json::Number(n) => Json::Number(
                JsonNumber { unsigned: n.unsigned, signed: n.signed, text: n.text.clone() },
            ),
            Json::Str(s) => Json::Str(s.clone()),
            Json::Array(items) => {
                let mut copies: Vec<Json> = Vec::new();
                let mut i: usize = 0;
                while i < items.len()
                    invariant
                        i <= items.len(),
                        *self == Json::Array(*items),
                        copies.len() == i,
                        forall|k: int| 0 <= k < i ==> (#[trigger] copies@[k])@ == items@[k]@,
                    decreases items.len() - i,
                {
                    assert(decreases_to!(*self => self->Array_0));
                    let item = items[i].copy();
                    copies.push(item);
                    i += 1;
                }
                proof {
                    lemma_array_view(*items);
                    assert(views(copies@) =~= views(items@));
                }
                Json::array(copies)
            },
            Json::Object(members) => {
                let mut copies: Vec<(String, Json)> = Vec::new();
                let mut i: usize = 0;
                while i < members.len()
                    invariant
                        i <= members.len(),
                        *self == Json::Object(*members),
                        copies.len() == i,
                        forall|k: int|
                            0 <= k < i ==> (#[trigger] copies@[k]).0@ == members@[k].0@
                                && copies@[k].1@ == members@[k].1@,
                    decreases members.len() - i,
                {
                    assert(decreases_to!(*self => self->Object_0));
                    let value = members[i].1.copy();
                    copies.push((members[i].0.clone(), value));
                    i += 1;
                }
                proof {
                    lemma_object_view(*members);
                    assert(members_view(copies@) =~= members_view(members@));
                }
                Json::object(copies)
            },
        }
    }
}

/// Of several members of one name, the last one counts.
pub proof fn lemma_last_member_counts(members: Seq<(Seq<char>, JsonView)>, i: int)
    requires
        0 <= i < members.len(),
        forall|j: int| i < j < members.len() ==> (#[trigger] members[j]).0 != members[i].0,
    ensures
        JsonView::Object(members).get(members[i].0) == Some(members[i].1),
    decreases members.len(),
{
    if i < members.len() - 1 {
        let rest = members.drop_last();
        assert(members[members.len() - 1].0 != members[i].0);
        assert forall|j: int| i < j < rest.len() implies (#[trigger] rest[j]).0 != rest[i].0 by {
            assert(rest[j] == members[j]);
        }
        lemma_last_member_counts(rest, i);
    }
}

/// A name that no member has finds nothing, and only objects have members.
pub proof fn lemma_no_such_member(members: Seq<(Seq<char>, JsonView)>, name: Seq<char>)
    ensures
        (forall|j: int| 0 <= j < members.len() ==> (#[trigger] members[j]).0 != name)
            ==> JsonView::Object(members).get(name) is None,
        forall|json: JsonView|
            #![trigger json.get(name)] !(json is Object) ==> json.get(name) is None,
    decreases members.len(),
{
    if members.len() > 0 && (forall|j: int|
        0 <= j < members.len() ==> (#[trigger] members[j]).0 != name) {
        let rest = members.drop_last();
        assert(members[members.len() - 1].0 != name);
        assert forall|j: int| 0 <= j < rest.len() implies (#[trigger] rest[j]).0 != name by {
            assert(rest[j] == members[j]);
        }
        lemma_no_such_member(rest, name);
    }
}

/// Characters that have a meaning in JSON are written with a backslash before them; the others are
/// written as they are, control characters by their number in four hexadecimal digits.
pub proof fn lemma_how_characters_are_written(c: char)
    ensures
        escape('"') == seq!['\\', '"'],
        escape('\\') == seq!['\\', '\\'],
        escape('\n') == seq!['\\', 'n'],
        escape('\r') == seq!['\\', 'r'],
        escape('\t') == seq!['\\', 't'],
        c as u32 >= 0x20 && c != '"' && c != '\\' ==> escape(c) == seq![c],
        (c as u32) < 0x20 ==> escape(c).len() >= 2 && escape(c)[0] == '\\',
        escape(c).len() > 2 ==> ({
            let high = (escape(c)[4] as u32) as int - ('0' as u32) as int;
            let low = escape(c)[5] as u32;
            let last = if low <= '9' as u32 {
                low as int - ('0' as u32) as int
            } else {
                low as int - ('a' as u32) as int + 10
            };
            &&& escape(c).len() == 6
            &&& escape(c).subrange(0, 4) == seq!['\\', 'u', '0', '0']
            &&& (c as u32) as int == 16 * high + last
        }),
{
    if escape(c).len() > 2 {
        assert((c as u32) < 0x20);
        let n = (c as u32) as int;
        assert(n / 16 < 2 && n % 16 < 16 && n == 16 * (n / 16) + n % 16);
        assert(escape(c).subrange(0, 4) =~= seq!['\\', 'u', '0', '0']);
    }
}

/// Texts are written character by character, between quotes.
pub proof fn lemma_how_texts_are_written(first: Seq<char>, second: Seq<char>, c: char)
    ensures
        escaped(first + second) == escaped(first) + escaped(second),
        escaped(seq![c]) == escape(c),
        escaped(Seq::empty()) == Seq::<char>::empty(),
        json_text(JsonView::Str(first)) == seq!['"'] + escaped(first) + seq!['"'],
    decreases second.len(),
{
    assert(seq![c].drop_last() =~= Seq::<char>::empty());
    reveal_with_fuel(escaped, 2);
    assert(escaped(seq![c]) =~= escape(c));
    if second.len() == 0 {
        assert(first + second =~= first);
        assert(escaped(first) + escaped(second) =~= escaped(first));
    } else {
        lemma_how_texts_are_written(first, second.drop_last(), c);
        assert((first + second).drop_last() =~= first + second.drop_last());
        assert((first + second).last() == second.last());
        assert(escaped(first + second) =~= escaped(first) + escaped(second));
    }
}

/// How lists and objects are written.
pub proof fn lemma_how_values_are_written(
    items: Seq<JsonView>,
    item: JsonView,
    members: Seq<(Seq<char>, JsonView)>,
    name: Seq<char>,
)
    ensures
        json_text(JsonView::Null) == "null"@,
        json_text(JsonView::Bool(true)) == "true"@,
        json_text(JsonView::Bool(false)) == "false"@,
        json_text(JsonView::Array(Seq::empty())) == "["@ + "]"@,
        json_text(JsonView::Array(seq![item])) == "["@ + json_text(item) + "]"@,
        items.len() > 0 ==> items_text(items.push(item)) == items_text(items) + ","@ + json_text(
            item,
        ),
        json_text(JsonView::Array(items)) == "["@ + items_text(items) + "]"@,
        json_text(JsonView::Object(Seq::empty())) == "{"@ + "}"@,
        json_text(JsonView::Object(seq![(name, item)])) == "{"@ + (json_text(JsonView::Str(name))
            + ":"@ + json_text(item)) + "}"@,
        members.len() > 0 ==> members_text(members.push((name, item))) == members_text(members)
            + ","@ + (json_text(JsonView::Str(name)) + ":"@ + json_text(item)),
        json_text(JsonView::Object(members)) == "{"@ + members_text(members) + "}"@,
{
    assert(items_text(Seq::empty()) =~= Seq::empty());
    assert(members_text(Seq::empty()) =~= Seq::empty());
    assert("["@ + Seq::<char>::empty() + "]"@ =~= "["@ + "]"@);
    assert("{"@ + Seq::<char>::empty() + "}"@ =~= "{"@ + "}"@);
    assert(items_text(seq![item]) == json_text(item));
    assert(members_text(seq![(name, item)]) == quoted(name) + ":"@ + json_text(item));
    assert(items.push(item).drop_last() =~= items);
    assert(members.push((name, item)).drop_last() =~= members);
}

/// Numbers and lists of texts as values.
pub proof fn lemma_made_values(n: i64, m: u64, texts: Seq<Seq<char>>, i: int)
    ensures
        json_text(int_json(n)) == decimal(n as int),
        json_text(uint_json(m)) == decimal(m as int),
        n >= 0 ==> int_json(n).as_u64() == Some(n as u64),
        n < 0 ==> int_json(n).as_u64() is None,
        uint_json(m).as_u64() == Some(m),
        texts_json(texts).as_array() is Some,
        texts_json(texts).as_array()->0.len() == texts.len(),
        0 <= i < texts.len() ==> texts_json(texts).as_array()->0[i].as_str() == Some(texts[i]),
{
}

/// A text that is JSON says its value; another one says the value that it starts with, if any.
pub proof fn lemma_what_texts_say(text: Seq<char>, value: JsonView, error: Seq<char>)
    ensures
        json_reading(text) == Ok::<JsonView, Seq<char>>(value) ==> json_in(text) == Some(value),
        json_reading(text) == Err::<JsonView, Seq<char>>(error) ==> json_in(text) == leading_json(
            text,
        ),
{
}

} // verus!
