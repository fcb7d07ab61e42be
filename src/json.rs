use vstd::prelude::*;
use crate::decimal::{integer_of, parse_integer};

verus! {

/// The mathematical value of a JSON document.
pub enum JsonValue {
    Null,
    Bool(bool),
    /// A number, held as its JSON text.
    Number(Seq<char>),
    Str(Seq<char>),
    Array(Seq<JsonValue>),
    /// Members in document order.
    Object(Seq<(Seq<char>, JsonValue)>),
}

/// A JSON document held in memory.
#[derive(Debug)]
pub enum Json {
    Null,
    Bool(bool),
    /// A number, held as its JSON text (as `-12`, `7`, `1.5`).
    Number(String),
    Str(String),
    Array(Vec<Json>),
    /// Members in document order.
    Object(Vec<(String, Json)>),
}

/// The value that a JSON document in memory stands for.
pub open spec fn json_view(j: Json) -> JsonValue
    decreases j,
{
    match j {
        Json::Null => JsonValue::Null,
        Json::Bool(b) => JsonValue::Bool(b),
        Json::Number(t) => JsonValue::Number(t@),
        Json::Str(s) => JsonValue::Str(s@),
        Json::Array(items) => JsonValue::Array(
            Seq::new(
                items.len() as nat,
                |i: int|
                    if 0 <= i < items.len() {
                        json_view(items[i])
                    } else {
                        JsonValue::Null
                    },
            ),
        ),
        Json::Object(members) => JsonValue::Object(
            Seq::new(
                members.len() as nat,
                |i: int|
                    if 0 <= i < members.len() {
                        (members[i].0@, json_view(members[i].1))
                    } else {
                        (Seq::empty(), JsonValue::Null)
                    },
            ),
        ),
    }
}

impl View for Json {
    type V = JsonValue;

    open spec fn view(&self) -> JsonValue {
        json_view(*self)
    }
}

} // verus!

verus! {

/// The lower-case hexadecimal digit of `d`.
pub open spec fn hex_digit(d: nat) -> char {
    if d < 10 {
        crate::decimal::digit_char(d)
    } else if d == 10 {
        'a'
    } else if d == 11 {
        'b'
    } else if d == 12 {
        'c'
    } else if d == 13 {
        'd'
    } else if d == 14 {
        'e'
    } else {
        'f'
    }
}

/// How `c` is written inside a JSON string: quote and backslash escaped, the
/// control characters below U+0020 as short escapes where JSON has one and as
/// `\u00XX` otherwise, every other character as it is.
pub open spec fn escaped_char(c: char) -> Seq<char> {
    if c == '"' {
        seq!['\\', '"']
    } else if c == '\\' {
        seq!['\\', '\\']
    } else if c == '\u{8}' {
        seq!['\\', 'b']
    } else if c == '\t' {
        seq!['\\', 't']
    } else if c == '\n' {
        seq!['\\', 'n']
    } else if c == '\u{c}' {
        seq!['\\', 'f']
    } else if c == '\r' {
        seq!['\\', 'r']
    } else if (c as u32) < 0x20 {
        seq!['\\', 'u', '0', '0', hex_digit((c as u32 / 16) as nat), hex_digit((c as u32 % 16) as nat)]
    } else {
        seq![c]
    }
}

/// The characters of `s`, each written as `escaped_char` says.
pub open spec fn escaped(s: Seq<char>) -> Seq<char>
    decreases s.len(),
{
    if s.len() == 0 {
        Seq::empty()
    } else {
        escaped(s.drop_last()) + escaped_char(s.last())
    }
}

/// The JSON string literal that stands for `s`, quotes and escapes included.
pub open spec fn json_quoted(s: Seq<char>) -> Seq<char> {
    seq!['"'] + escaped(s) + seq!['"']
}

/// The compact JSON text of a value: no whitespace, members in order.
pub open spec fn json_text(v: JsonValue) -> Seq<char>
    decreases v,
{
    match v {
        JsonValue::Null => "null"@,
        JsonValue::Bool(b) => if b {
            "true"@
        } else {
            "false"@
        },
        JsonValue::Number(t) => t,
        JsonValue::Str(s) => json_quoted(s),
        JsonValue::Array(items) => "["@ + items_text(items) + "]"@,
        JsonValue::Object(members) => "{"@ + members_text(members) + "}"@,
    }
}

/// The texts of `items`, separated by commas.
pub open spec fn items_text(items: Seq<JsonValue>) -> Seq<char>
    decreases items,
{
    if items.len() == 0 {
        Seq::empty()
    } else if items.len() == 1 {
        json_text(items[0])
    } else {
        items_text(items.subrange(0, items.len() - 1)) + ","@ + json_text(items[items.len() - 1])
    }
}

/// The texts of `members` as `"key":value`, separated by commas.
pub open spec fn members_text(members: Seq<(Seq<char>, JsonValue)>) -> Seq<char>
    decreases members,
{
    if members.len() == 0 {
        Seq::empty()
    } else if members.len() == 1 {
        json_quoted(members[0].0) + ":"@ + json_text(members[0].1)
    } else {
        members_text(members.subrange(0, members.len() - 1)) + ","@ + json_quoted(
            members[members.len() - 1].0,
        ) + ":"@ + json_text(members[members.len() - 1].1)
    }
}

#[verifier::external_type_specification]
#[verifier::external_body]
pub struct ExJsonError(serde_json::Error);

/// Relies on serde_json::to_string applied to a `str` (`format_escaped_str` and
/// its `ESCAPE` table): it returns the JSON string literal for `s`, escaped as
/// `escaped_char` says. It does not fail: the text is written into a
/// `Vec<u8>`, whose writes do not fail.
#[verifier::external_body]
fn quote(s: &str) -> (r: Result<String, serde_json::Error>)
    ensures
        r is Ok,
        r matches Ok(t) ==> t@ == json_quoted(s@),
{
    serde_json::to_string(s)
}

/// Relies on the `Display` impl of serde_json::Error: its message.
#[verifier::external_body]
fn error_message(e: &serde_json::Error) -> String {
    e.to_string()
}

/// Appends the JSON string literal for `s` to `out`.
fn write_quoted(s: &str, out: &mut String)
    ensures
        final(out)@ == old(out)@ + json_quoted(s@),
{
    match quote(s) {
        Ok(t) => {
            out.append(t.as_str());
        },
        Err(_) => {},
    }
}

impl Json {
    /// The compact JSON text of this value.
    pub fn to_text(&self) -> (r: String)
        ensures
            r@ == json_text(self@),
    {
        let mut out = String::new();
        self.write_to(&mut out);
        out
    }

    /// Appends the compact JSON text of this value to `out`.
    pub fn write_to(&self, out: &mut String)
        ensures
            final(out)@ == old(out)@ + json_text(self@),
        decreases self,
    {
        match self {
            Json::Null => {
                out.append("null");
            },
            Json::Bool(b) => {
                if *b {
                    out.append("true");
                } else {
                    out.append("false");
                }
            },
            Json::Number(t) => {
                out.append(t.as_str());
            },
            Json::Str(s) => write_quoted(s.as_str(), out),
            Json::Array(items) => {
                let ghost start = out@;
                let ghost vs = self@->Array_0;
                out.append("[");
                let mut i: usize = 0;
                while i < items.len()
                    invariant
                        0 <= i <= items.len(),
                        *self == Json::Array(*items),
                        vs == self@->Array_0,
                        vs.len() == items.len(),
                        forall|k: int| 0 <= k < items.len() ==> vs[k] == items[k]@,
                        out@ == start + "["@ + items_text(vs.subrange(0, i as int)),
                    decreases items.len() - i,
                {
                    if i > 0 {
                        out.append(",");
                    }
                    proof {
                        vstd::std_specs::vec::axiom_vec_index_decreases(*items, i as int);
                    }
                    items[i].write_to(out);
                    proof {
                        let pre = vs.subrange(0, i as int);
                        let next = vs.subrange(0, i + 1);
                        assert(next.subrange(0, i as int) =~= pre);
                        if i == 0 {
                            assert(pre =~= Seq::<JsonValue>::empty());
                        }
                    }
                    i = i + 1;
                }
                assert(vs.subrange(0, items.len() as int) =~= vs);
                out.append("]");
            },
            Json::Object(members) => {
                let ghost start = out@;
                let ghost ms = self@->Object_0;
                assert(*self == Json::Object(*members));
                assert(ms.len() == members.len());
                assert(forall|k: int|
                    0 <= k < members.len() ==> ms[k] == (members[k].0@, members[k].1@));
                out.append("{");
                let mut i: usize = 0;
                while i < members.len()
                    invariant
                        0 <= i <= members.len(),
                        *self == Json::Object(*members),
                        ms == self@->Object_0,
                        ms.len() == members.len(),
                        forall|k: int|
                            0 <= k < members.len() ==> ms[k] == (members[k].0@, members[k].1@),
                        out@ == start + "{"@ + members_text(ms.subrange(0, i as int)),
                    decreases members.len() - i,
                {
                    if i > 0 {
                        out.append(",");
                    }
                    write_quoted(members[i].0.as_str(), out);
                    out.append(":");
                    proof {
                        vstd::std_specs::vec::axiom_vec_index_decreases(*members, i as int);
                    }
                    members[i].1.write_to(out);
                    proof {
                        let pre = ms.subrange(0, i as int);
                        let next = ms.subrange(0, i + 1);
                        assert(next.subrange(0, i as int) =~= pre);
                        if i == 0 {
                            assert(pre =~= Seq::<(Seq<char>, JsonValue)>::empty());
                        }
                    }
                    i = i + 1;
                }
                assert(ms.subrange(0, members.len() as int) =~= ms);
                out.append("}");
            },
        }
    }
}

} // verus!

verus! {

#[verifier::external_type_specification]
#[verifier::external_body]
pub struct ExValue(serde_json::Value);

/// The document that a serde_json::Value holds, members in the order in which
/// its map yields them and numbers as its `Display` writes them.
pub uninterp spec fn value_doc(v: serde_json::Value) -> JsonValue;

/// The document that the text `s` holds, where it holds one.
pub uninterp spec fn json_doc(s: Seq<char>) -> JsonValue;

/// Whether `s` is the text of exactly one JSON document, as serde_json reads it.
pub uninterp spec fn is_json_text(s: Seq<char>) -> bool;

/// Relies on serde_json::from_str into a serde_json::Value: it succeeds exactly
/// when `s` holds one JSON document, which depends on `s` alone, and the value
/// holds that document.
#[verifier::external_body]
fn parse_value(s: &str) -> (r: Result<serde_json::Value, serde_json::Error>)
    ensures
        r is Ok <==> is_json_text(s@),
        r matches Ok(v) ==> value_doc(v) == json_doc(s@),
{
    serde_json::from_str(s)
}

/// One level of a serde_json::Value, its children still in serde_json's form.
enum ValueNode {
    Null,
    Bool(bool),
    Number(String),
    Str(String),
    Array(Vec<serde_json::Value>),
    Object(Vec<(String, serde_json::Value)>),
}

/// Relies on the variants of serde_json::Value, on iterating a serde_json::Map
/// and on the `Display` impl of serde_json::Number: opens one level of `v`.
#[verifier::external_body]
fn open_value(v: serde_json::Value) -> (r: ValueNode)
    ensures
        match r {
            ValueNode::Null => value_doc(v) == JsonValue::Null,
            ValueNode::Bool(b) => value_doc(v) == JsonValue::Bool(b),
            ValueNode::Number(t) => value_doc(v) == JsonValue::Number(t@),
            ValueNode::Str(s) => value_doc(v) == JsonValue::Str(s@),
            ValueNode::Array(items) => value_doc(v) == JsonValue::Array(
                Seq::new(items.len() as nat, |i: int| value_doc(items[i])),
            ),
            ValueNode::Object(members) => value_doc(v) == JsonValue::Object(
                Seq::new(
                    members.len() as nat,
                    |i: int| (members[i].0@, value_doc(members[i].1)),
                ),
            ),
        },
{
    match v {
        serde_json::Value::Null => ValueNode::Null,
        serde_json::Value::Bool(b) => ValueNode::Bool(b),
        serde_json::Value::Number(n) => ValueNode::Number(n.to_string()),
        serde_json::Value::String(s) => ValueNode::Str(s),
        serde_json::Value::Array(items) => ValueNode::Array(items),
        serde_json::Value::Object(members) => ValueNode::Object(members.into_iter().collect()),
    }
}

impl Json {
    /// Takes over the document that a serde_json::Value holds.
    pub fn from_value(v: serde_json::Value) -> (r: Json)
        ensures
            r@ == value_doc(v),
        decreases value_doc(v),
    {
        let ghost doc = value_doc(v);
        match open_value(v) {
            ValueNode::Null => Json::Null,
            ValueNode::Bool(b) => Json::Bool(b),
            ValueNode::Number(t) => Json::Number(t),
            ValueNode::Str(s) => Json::Str(s),
            ValueNode::Array(items) => {
                let ghost all = items@;
                let mut out: Vec<Json> = Vec::new();
                for item in it: items
                    invariant
                        it.seq() == all,
                        doc == value_doc(v),
                        doc == JsonValue::Array(
                            Seq::new(all.len() as nat, |i: int| value_doc(all[i])),
                        ),
                        out.len() == it.index(),
                        forall|k: int| 0 <= k < out.len() ==> (#[trigger] out[k])@ == value_doc(all[k]),
                {
                    proof {
                        let ds = doc->Array_0;
                        assert(ds[it.index() as int] == value_doc(item));
                        assert(decreases_to!(doc => ds));
                        assert(decreases_to!(ds => ds[it.index() as int]));
                    }
                    let j = Self::from_value(item);
                    out.push(j);
                }
                let r = Json::Array(out);
                assert(r@->Array_0 =~= doc->Array_0);
                r
            },
            ValueNode::Object(members) => {
                let ghost all = members@;
                let mut out: Vec<(String, Json)> = Vec::new();
                for member in it: members
                    invariant
                        it.seq() == all,
                        doc == value_doc(v),
                        doc == JsonValue::Object(
                            Seq::new(all.len() as nat, |i: int| (all[i].0@, value_doc(all[i].1))),
                        ),
                        out.len() == it.index(),
                        forall|k: int|
                            0 <= k < out.len() ==> (#[trigger] out[k]).0@ == all[k].0@ && out[k].1@
                                == value_doc(all[k].1),
                {
                    let (key, value) = member;
                    proof {
                        let ds = doc->Object_0;
                        assert(ds[it.index() as int].1 == value_doc(value));
                        assert(decreases_to!(doc => ds));
                        assert(decreases_to!(ds => ds[it.index() as int]));
                        assert(decreases_to!(doc => ds[it.index() as int].1));
                    }
                    let j = Self::from_value(value);
                    out.push((key, j));
                }
                let r = Json::Object(out);
                assert(r@->Object_0 =~= doc->Object_0);
                r
            },
        }
    }

    /// Reads one JSON document; it fails exactly where serde_json finds none in
    /// `text`. The members of an object come in the order that serde_json's map
    /// keeps them.
    pub fn parse(text: &str) -> (r: Result<Json, String>)
        ensures
            r is Ok <==> is_json_text(text@),
            r matches Ok(j) ==> j@ == json_doc(text@),
    {
        match parse_value(text) {
            Ok(v) => Ok(Self::from_value(v)),
            Err(e) => Err(error_message(&e)),
        }
    }
}

} // verus!

verus! {

/// The value of the first of `members` named `key`.
pub open spec fn member_in(members: Seq<(Seq<char>, JsonValue)>, key: Seq<char>) -> Option<
    JsonValue,
>
    decreases members.len(),
{
    if members.len() == 0 {
        None
    } else if members[0].0 == key {
        Some(members[0].1)
    } else {
        member_in(members.drop_first(), key)
    }
}

/// The value of member `key` of object `v`; `None` where `v` is no object or has
/// no such member.
pub open spec fn member(v: JsonValue, key: Seq<char>) -> Option<JsonValue> {
    match v {
        JsonValue::Object(members) => member_in(members, key),
        _ => None,
    }
}

/// Member `key` of `v` where it is a string.
pub open spec fn str_member(v: JsonValue, key: Seq<char>) -> Option<Seq<char>> {
    match member(v, key) {
        Some(JsonValue::Str(s)) => Some(s),
        _ => None,
    }
}

/// Member `key` of `v` where it is a boolean.
pub open spec fn bool_member(v: JsonValue, key: Seq<char>) -> Option<bool> {
    match member(v, key) {
        Some(JsonValue::Bool(b)) => Some(b),
        _ => None,
    }
}

/// Member `key` of `v` is absent or `null`.
pub open spec fn member_absent(v: JsonValue, key: Seq<char>) -> bool {
    member(v, key) is None || member(v, key) == Some(JsonValue::Null)
}

/// The integer that `v` holds where it is a number without fraction or exponent.
pub open spec fn integer_value(v: JsonValue) -> Option<int> {
    match v {
        JsonValue::Number(t) => integer_of(t),
        _ => None,
    }
}

/// `v` as a `u64`.
pub open spec fn u64_value(v: JsonValue) -> Option<u64> {
    match integer_value(v) {
        Some(n) => if 0 <= n <= u64::MAX {
            Some(n as u64)
        } else {
            None
        },
        None => None,
    }
}

/// `v` as a `u32`.
pub open spec fn u32_value(v: JsonValue) -> Option<u32> {
    match integer_value(v) {
        Some(n) => if 0 <= n <= u32::MAX {
            Some(n as u32)
        } else {
            None
        },
        None => None,
    }
}

/// `v` as an `i32`.
pub open spec fn i32_value(v: JsonValue) -> Option<i32> {
    match integer_value(v) {
        Some(n) => if i32::MIN <= n <= i32::MAX {
            Some(n as i32)
        } else {
            None
        },
        None => None,
    }
}

impl Clone for Json {
    fn clone(&self) -> (r: Json)
        ensures
            r@ == self@,
    {
        self.deep_copy()
    }
}

impl Json {
    /// A copy of this value, member for member.
    pub fn deep_copy(&self) -> (r: Json)
        ensures
            r@ == self@,
        decreases self,
    {
        match self {
            Json::Null => Json::Null,
            Json::Bool(b) => Json::Bool(*b),
            Json::Number(t) => Json::Number(t.clone()),
            Json::Str(s) => Json::Str(s.clone()),
            Json::Array(items) => {
                let mut out: Vec<Json> = Vec::new();
                let mut i: usize = 0;
                while i < items.len()
                    invariant
                        0 <= i <= items.len(),
                        *self == Json::Array(*items),
                        out.len() == i,
                        forall|k: int| 0 <= k < i ==> (#[trigger] out[k])@ == items[k]@,
                    decreases items.len() - i,
                {
                    proof {
                        vstd::std_specs::vec::axiom_vec_index_decreases(*items, i as int);
                        assert(decreases_to!(*self => (*self)->Array_0));
                    }
                    let item = items[i].deep_copy();
                    out.push(item);
                    i = i + 1;
                }
                let r = Json::Array(out);
                assert(r@->Array_0 =~= self@->Array_0);
                r
            },
            Json::Object(members) => {
                let mut out: Vec<(String, Json)> = Vec::new();
                let mut i: usize = 0;
                while i < members.len()
                    invariant
                        0 <= i <= members.len(),
                        *self == Json::Object(*members),
                        out.len() == i,
                        forall|k: int|
                            0 <= k < i ==> (#[trigger] out[k]).0@ == members[k].0@ && out[k].1@
                                == members[k].1@,
                    decreases members.len() - i,
                {
                    proof {
                        vstd::std_specs::vec::axiom_vec_index_decreases(*members, i as int);
                        assert(decreases_to!(*self => (*self)->Object_0));
                    }
                    let value = members[i].1.deep_copy();
                    out.push((members[i].0.clone(), value));
                    i = i + 1;
                }
                let r = Json::Object(out);
                assert(r@->Object_0 =~= self@->Object_0);
                r
            },
        }
    }

    /// Member `key` of this object; `None` where this is no object or has no
    /// such member.
    pub fn get(&self, key: &str) -> (r: Option<&Json>)
        ensures
            r matches Some(j) ==> member(self@, key@) == Some(j@),
            r is None ==> member(self@, key@) is None,
    {
        match self {
            Json::Object(members) => {
                let ghost ms = self@->Object_0;
                let wanted = String::from_str(key);
                assert(ms.subrange(0, ms.len() as int) =~= ms);
                let mut i: usize = 0;
                while i < members.len()
                    invariant
                        0 <= i <= members.len(),
                        *self == Json::Object(*members),
                        ms == self@->Object_0,
                        ms.len() == members.len(),
                        forall|k: int|
                            0 <= k < members.len() ==> ms[k] == (members[k].0@, members[k].1@),
                        wanted@ == key@,
                        member(self@, key@) == member_in(ms.subrange(i as int, ms.len() as int), key@),
                    decreases members.len() - i,
                {
                    assert(ms.subrange(i as int, ms.len() as int).drop_first() =~= ms.subrange(
                        i + 1,
                        ms.len() as int,
                    ));
                    if members[i].0 == wanted {
                        return Some(&members[i].1);
                    }
                    i = i + 1;
                }
                None
            },
            _ => None,
        }
    }

    /// Member `key` of this object where it is a string.
    pub fn get_str(&self, key: &str) -> (r: Option<String>)
        ensures
            r matches Some(s) ==> str_member(self@, key@) == Some(s@),
            r is None ==> str_member(self@, key@) is None,
    {
        match self.get(key) {
            Some(Json::Str(s)) => Some(s.clone()),
            _ => None,
        }
    }

    /// Member `key` of this object where it is a boolean.
    pub fn get_bool(&self, key: &str) -> (r: Option<bool>)
        ensures
            r == bool_member(self@, key@),
    {
        match self.get(key) {
            Some(Json::Bool(b)) => Some(*b),
            _ => None,
        }
    }

    /// Member `key` of this object is absent or `null`.
    pub fn lacks(&self, key: &str) -> (r: bool)
        ensures
            r == member_absent(self@, key@),
    {
        match self.get(key) {
            Some(Json::Null) => true,
            Some(_) => false,
            None => true,
        }
    }

    /// This value as a `u64`.
    pub fn as_u64(&self) -> (r: Option<u64>)
        ensures
            r == u64_value(self@),
    {
        match self {
            Json::Number(t) => match parse_integer(t.as_str()) {
                Some((negative, magnitude)) => if !negative || magnitude == 0 {
                    Some(magnitude)
                } else {
                    None
                },
                None => None,
            },
            _ => None,
        }
    }

    /// This value as a `u32`.
    pub fn as_u32(&self) -> (r: Option<u32>)
        ensures
            r == u32_value(self@),
    {
        match self {
            Json::Number(t) => match parse_integer(t.as_str()) {
                Some((negative, magnitude)) => if magnitude == 0 {
                    Some(0)
                } else if !negative && magnitude <= u32::MAX as u64 {
                    Some(magnitude as u32)
                } else {
                    None
                },
                None => None,
            },
            _ => None,
        }
    }

    /// This value as an `i32`.
    pub fn as_i32(&self) -> (r: Option<i32>)
        ensures
            r == i32_value(self@),
    {
        match self {
            Json::Number(t) => match parse_integer(t.as_str()) {
                Some((negative, magnitude)) => if !negative && magnitude <= i32::MAX as u64 {
                    Some(magnitude as i32)
                } else if negative && magnitude <= 2147483648u64 {
                    Some((0 - magnitude as i64) as i32)
                } else {
                    None
                },
                None => None,
            },
            _ => None,
        }
    }
}

} // verus!

verus! {

/// The view of an optional string.
pub open spec fn opt_text(o: Option<String>) -> Option<Seq<char>> {
    match o {
        Some(s) => Some(s@),
        None => None,
    }
}

/// The view of an optional document.
pub open spec fn opt_json(o: Option<Json>) -> Option<JsonValue> {
    match o {
        Some(j) => Some(j@),
        None => None,
    }
}

/// Member `key` of `v` read as an optional string: `Some(None)` where it is
/// absent or `null`, `None` where it is present and no string.
pub open spec fn opt_str_member(v: JsonValue, key: Seq<char>) -> Option<Option<Seq<char>>> {
    match member(v, key) {
        None => Some(None),
        Some(JsonValue::Null) => Some(None),
        Some(JsonValue::Str(s)) => Some(Some(s)),
        _ => None,
    }
}

/// Member `key` of `v` read as an optional boolean, as `opt_str_member` reads a string.
pub open spec fn opt_bool_member(v: JsonValue, key: Seq<char>) -> Option<Option<bool>> {
    match member(v, key) {
        None => Some(None),
        Some(JsonValue::Null) => Some(None),
        Some(JsonValue::Bool(b)) => Some(Some(b)),
        _ => None,
    }
}

/// Member `key` of `v` read as an optional object, as `opt_str_member` reads a string.
pub open spec fn opt_object_member(v: JsonValue, key: Seq<char>) -> Option<Option<JsonValue>> {
    match member(v, key) {
        None => Some(None),
        Some(JsonValue::Null) => Some(None),
        Some(JsonValue::Object(m)) => Some(Some(JsonValue::Object(m))),
        _ => None,
    }
}

/// Member `key` of `v` where it is present and not `null`.
pub open spec fn present_member(v: JsonValue, key: Seq<char>) -> Option<JsonValue> {
    match member(v, key) {
        Some(JsonValue::Null) => None,
        m => m,
    }
}

impl Json {
    /// Member `key` read as an optional string; `None` where it is present and no string.
    pub fn get_opt_str(&self, key: &str) -> (r: Option<Option<String>>)
        ensures
            r is Some <==> opt_str_member(self@, key@) is Some,
            r matches Some(o) ==> opt_str_member(self@, key@) == Some(opt_text(o)),
    {
        match self.get(key) {
            None => Some(None),
            Some(Json::Null) => Some(None),
            Some(Json::Str(s)) => Some(Some(s.clone())),
            Some(_) => None,
        }
    }

    /// Member `key` read as an optional boolean; `None` where it is present and no boolean.
    pub fn get_opt_bool(&self, key: &str) -> (r: Option<Option<bool>>)
        ensures
            r == opt_bool_member(self@, key@),
    {
        match self.get(key) {
            None => Some(None),
            Some(Json::Null) => Some(None),
            Some(Json::Bool(b)) => Some(Some(*b)),
            Some(_) => None,
        }
    }

    /// A copy of member `key` read as an optional object; `None` where it is
    /// present and no object.
    pub fn get_opt_object(&self, key: &str) -> (r: Option<Option<Json>>)
        ensures
            r is Some <==> opt_object_member(self@, key@) is Some,
            r matches Some(o) ==> opt_object_member(self@, key@) == Some(opt_json(o)),
    {
        match self.get(key) {
            None => Some(None),
            Some(Json::Null) => Some(None),
            Some(j) => match j {
                Json::Object(_) => Some(Some(j.deep_copy())),
                _ => None,
            },
        }
    }

    /// A copy of member `key` where it is present and not `null`.
    pub fn get_present(&self, key: &str) -> (r: Option<Json>)
        ensures
            opt_json(r) == present_member(self@, key@),
    {
        match self.get(key) {
            None => None,
            Some(Json::Null) => None,
            Some(j) => Some(j.deep_copy()),
        }
    }
}

} // verus!
