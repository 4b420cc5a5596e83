//! JSON documents as plain values, and the calls into `serde_json` that turn
//! text into documents and back.

use serde_json::Value;
use vstd::prelude::*;

verus! {

/// A number as `serde_json` read it. The library makes one only for a number
/// that is no unsigned 64-bit integer, and carries it unread.
#[derive(Debug)]
pub struct RawNumber {
    number: serde_json::Number,
}

/// A JSON document. The numbers of the protocol are unsigned 64-bit
/// integers; any other number is carried as it was read.
#[derive(Debug)]
pub enum Json {
    Null,
    Bool(bool),
    Number(u64),
    RawNumber(RawNumber),
    Text(String),
    Array(Vec<Json>),
    Object(Vec<(String, Json)>),
}

/// What a [`Json`] document means. An object is a map from member names to
/// values: where a name occurs more than once, its last member counts.
pub ghost enum JsonModel {
    Null,
    Bool(bool),
    /// An unsigned 64-bit integer.
    Number(u64),
    /// Any other number, by the text that stands for it.
    OtherNumber(Seq<char>),
    Text(Seq<char>),
    Array(Seq<JsonModel>),
    Object(Map<Seq<char>, JsonModel>),
}

/// The map that a list of members stands for: later members replace earlier
/// ones of the same name.
pub open spec fn members_map(pairs: Seq<(Seq<char>, JsonModel)>) -> Map<Seq<char>, JsonModel>
    decreases pairs.len(),
{
    if pairs.len() == 0 {
        Map::empty()
    } else {
        members_map(pairs.drop_last()).insert(pairs.last().0, pairs.last().1)
    }
}

impl Json {
    /// The members of an object, each with its value's meaning.
    pub open spec fn pairs(members: Seq<(String, Json)>) -> Seq<(Seq<char>, JsonModel)>
        decreases members,
    {
        Seq::new(
            members.len(),
            |i: int|
                if 0 <= i < members.len() {
                    (members[i].0@, members[i].1.model())
                } else {
                    (Seq::empty(), JsonModel::Null)
                },
        )
    }

    /// The meaning of this document.
    pub open spec fn model(self) -> JsonModel
        decreases self,
    {
        match self {
            Json::Null => JsonModel::Null,
            Json::Bool(b) => JsonModel::Bool(b),
            Json::Number(n) => JsonModel::Number(n),
            Json::RawNumber(raw) => raw.model(),
            Json::Text(s) => JsonModel::Text(s@),
            Json::Array(items) => JsonModel::Array(
                Seq::new(
                    items@.len(),
                    |i: int|
                        if 0 <= i < items@.len() {
                            items@[i].model()
                        } else {
                            JsonModel::Null
                        },
                ),
            ),
            Json::Object(members) => JsonModel::Object(members_map(Self::pairs(members@))),
        }
    }
}

impl PartialEq for Json {
    /// Two documents are equal where they are the same document.
    fn eq(&self, other: &Json) -> (r: bool) {
        self.same_document(other)
    }
}

impl vstd::std_specs::cmp::PartialEqSpecImpl for Json {
    open spec fn obeys_eq_spec() -> bool {
        true
    }

    open spec fn eq_spec(&self, other: &Json) -> bool {
        self.model() == other.model()
    }
}

impl Eq for Json {

}

/// The outside type `serde_json::Value`, carried between the calls below.
#[verifier::external_type_specification]
#[verifier::external_body]
pub struct ExValue(serde_json::Value);

/// The outside type `serde_json::Number`, carried inside a [`RawNumber`].
#[verifier::external_type_specification]
#[verifier::external_body]
pub struct ExNumber(serde_json::Number);

/// What a `serde_json::Number` holds, as a document: `Number` with its value
/// where it is an unsigned 64-bit integer, else `OtherNumber` with the text
/// that `serde_json` prints for it.
pub uninterp spec fn number_document(number: serde_json::Number) -> JsonModel;

/// What a `serde_json::Value` holds, as a document.
pub uninterp spec fn value_document(value: serde_json::Value) -> JsonModel;

/// What `serde_json::from_str` makes of a text: `None` where it reports an
/// error, else what the value it returns holds.
pub uninterp spec fn json_parse(text: Seq<char>) -> Option<JsonModel>;

/// The text that `serde_json` prints for a value that holds the document.
pub uninterp spec fn json_text(document: JsonModel) -> Seq<char>;

/// The document that a text holds, if it holds one.
pub open spec fn parsed_document(text: Seq<char>) -> Option<JsonModel> {
    json_parse(text)
}

/// Calls `Number::as_u64`. The contract says that the number holds the value
/// returned, and that it holds no unsigned 64-bit integer where none is
/// returned.
#[verifier::external_body]
fn number_as_u64(number: &serde_json::Number) -> (r: Option<u64>)
    ensures
        match r {
            Some(n) => number_document(*number) == JsonModel::Number(n),
            None => number_document(*number) is OtherNumber,
        },
{
    number.as_u64()
}

/// Calls `Display` of `serde_json::Number` (`to_string`). The contract says
/// that the result is the text of a number that is no unsigned 64-bit
/// integer.
#[verifier::external_body]
fn number_text(number: &serde_json::Number) -> (r: String)
    ensures
        number_document(*number) matches JsonModel::OtherNumber(text) ==> r@ == text,
{
    number.to_string()
}

/// Calls `Clone` of `serde_json::Number`. The contract says that the copy
/// holds what the number holds.
#[verifier::external_body]
fn number_copy(number: &serde_json::Number) -> (r: serde_json::Number)
    ensures
        number_document(r) == number_document(*number),
{
    number.clone()
}

/// Calls `serde_json::from_str` for a `serde_json::Value`. The contract only
/// gives the outcome its name: an error is `None` of [`json_parse`], a value
/// is what [`value_document`] says it holds.
#[verifier::external_body]
fn read_value(text: &str) -> (r: Option<Value>)
    ensures
        match r {
            Some(value) => json_parse(text@) == Some(value_document(value)),
            None => json_parse(text@) is None,
        },
{
    serde_json::from_str::<Value>(text).ok()
}

/// Calls `Display` of `serde_json::Value` (`to_string`), which prints compact
/// JSON. The contract only names the text.
#[verifier::external_body]
fn write_value(value: &Value) -> (r: String)
    ensures
        r@ == json_text(value_document(*value)),
{
    value.to_string()
}

/// Converts a `serde_json::Value` to a [`Json`], variant by variant; a number
/// goes through `Number::as_u64`, a map through its iterator. The contract
/// says that the result is the document that the value holds.
#[verifier::external_body]
fn lift(value: &Value) -> (r: Json)
    ensures
        value_document(*value) == r.model(),
{
    match value {
        Value::Null => Json::Null,
        Value::Bool(b) => Json::Bool(*b),
        Value::Number(n) => match n.as_u64() {
            Some(u) => Json::Number(u),
            None => Json::RawNumber(RawNumber { number: n.clone() }),
        },
        Value::String(s) => Json::Text(s.clone()),
        Value::Array(items) => Json::Array(items.iter().map(lift).collect()),
        Value::Object(map) => Json::Object(map.iter().map(|(k, v)| (k.clone(), lift(v))).collect()),
    }
}

/// Converts a [`Json`] to a `serde_json::Value`, variant by variant. The
/// members of an object go into a new `serde_json::Map` by one `Map::insert`
/// each, in their order: `insert` replaces the value of a name that the map
/// has already. The contract says that the value holds the document.
#[verifier::external_body]
fn lower(document: &Json) -> (r: Value)
    ensures
        value_document(r) == document.model(),
{
    match document {
        Json::Null => Value::Null,
        Json::Bool(b) => Value::Bool(*b),
        Json::Number(n) => Value::Number(serde_json::Number::from(*n)),
        Json::RawNumber(raw) => Value::Number(raw.number.clone()),
        Json::Text(s) => Value::String(s.clone()),
        Json::Array(items) => Value::Array(items.iter().map(lower).collect()),
        Json::Object(members) => {
            let mut map = serde_json::Map::new();
            for (name, value) in members {
                map.insert(name.clone(), lower(value));
            }
            Value::Object(map)
        },
    }
}

impl RawNumber {
    /// What the number is as a document.
    pub closed spec fn model(self) -> JsonModel {
        number_document(self.number)
    }

    /// The value of the number, where it is an unsigned 64-bit integer.
    pub fn as_u64(&self) -> (r: Option<u64>)
        ensures
            match r {
                Some(n) => self.model() == JsonModel::Number(n),
                None => self.model() is OtherNumber,
            },
    {
        number_as_u64(&self.number)
    }

    /// The text of the number, where it is no unsigned 64-bit integer.
    pub fn text(&self) -> (r: String)
        ensures
            self.model() matches JsonModel::OtherNumber(text) ==> r@ == text,
    {
        number_text(&self.number)
    }

    /// A copy of the number.
    pub fn duplicate(&self) -> (r: RawNumber)
        ensures
            r.model() == self.model(),
    {
        RawNumber { number: number_copy(&self.number) }
    }

    /// Whether the two numbers are the same document.
    pub fn same_number(&self, other: &RawNumber) -> (r: bool)
        ensures
            r == (self.model() == other.model()),
    {
        match (self.as_u64(), other.as_u64()) {
            (Some(mine), Some(theirs)) => mine == theirs,
            (None, None) => self.text() == other.text(),
            _ => false,
        }
    }
}

/// A name that none of the last `pairs.len() - from` members bears is looked
/// up in the members before them.
pub proof fn lemma_members_map_prefix(pairs: Seq<(Seq<char>, JsonModel)>, from: int, name: Seq<char>)
    requires
        0 <= from <= pairs.len(),
        forall|j: int| from <= j < pairs.len() ==> pairs[j].0 != name,
    ensures
        members_map(pairs).contains_key(name) == members_map(pairs.take(from)).contains_key(name),
        members_map(pairs).contains_key(name) ==> members_map(pairs)[name] == members_map(
            pairs.take(from),
        )[name],
    decreases pairs.len() - from,
{
    if from == pairs.len() {
        assert(pairs.take(from) =~= pairs);
    } else {
        let shorter = pairs.drop_last();
        assert(shorter.take(from) =~= pairs.take(from));
        lemma_members_map_prefix(shorter, from, name);
    }
}

/// The member that bears a name last gives the name its value.
pub proof fn lemma_members_map_last(pairs: Seq<(Seq<char>, JsonModel)>, at: int, name: Seq<char>)
    requires
        0 <= at < pairs.len(),
        pairs[at].0 == name,
        forall|j: int| at < j < pairs.len() ==> pairs[j].0 != name,
    ensures
        members_map(pairs).contains_key(name),
        members_map(pairs)[name] == pairs[at].1,
{
    lemma_members_map_prefix(pairs, at + 1, name);
    let upto = pairs.take(at + 1);
    assert(upto.last() == pairs[at]);
    assert(members_map(upto) == members_map(upto.drop_last()).insert(upto.last().0, upto.last().1));
}

/// A name that no member bears is no key of the map.
pub proof fn lemma_members_map_absent(pairs: Seq<(Seq<char>, JsonModel)>, name: Seq<char>)
    requires
        forall|j: int| 0 <= j < pairs.len() ==> pairs[j].0 != name,
    ensures
        !members_map(pairs).contains_key(name),
{
    lemma_members_map_prefix(pairs, 0, name);
    assert(pairs.take(0).len() == 0);
}

/// The names of the map are the names that the members bear.
pub proof fn lemma_members_map_keys(pairs: Seq<(Seq<char>, JsonModel)>, name: Seq<char>)
    ensures
        members_map(pairs).contains_key(name) <==> exists|i: int|
            0 <= i < pairs.len() && (#[trigger] pairs[i]).0 == name,
    decreases pairs.len(),
{
    if pairs.len() > 0 {
        let shorter = pairs.drop_last();
        lemma_members_map_keys(shorter, name);
        if members_map(pairs).contains_key(name) {
            if pairs.last().0 == name {
                assert(pairs[pairs.len() - 1].0 == name);
            } else {
                let i = choose|i: int| 0 <= i < shorter.len() && (#[trigger] shorter[i]).0 == name;
                assert(pairs[i].0 == name);
            }
        }
        if exists|i: int| 0 <= i < pairs.len() && (#[trigger] pairs[i]).0 == name {
            let i = choose|i: int| 0 <= i < pairs.len() && (#[trigger] pairs[i]).0 == name;
            if i < shorter.len() {
                assert(shorter[i].0 == name);
            }
        }
    }
}

/// The index of the last member that bears the name.
fn last_index(members: &Vec<(String, Json)>, name: &String) -> (r: Option<usize>)
    ensures
        match r {
            Some(at) => at < members.len() && members@[at as int].0@ == name@ && forall|j: int|
                at < j < members.len() ==> members@[j].0@ != name@,
            None => forall|j: int| 0 <= j < members.len() ==> members@[j].0@ != name@,
        },
{
    let mut i: usize = members.len();
    while i > 0
        invariant
            i <= members.len(),
            forall|j: int| i <= j < members.len() ==> members@[j].0@ != name@,
        decreases i,
    {
        i = i - 1;
        if members[i].0 == *name {
            return Some(i);
        }
    }
    None
}

impl Json {
    /// The value of the member `name`, where this document is an object that
    /// has one.
    pub open spec fn member(model: JsonModel, name: Seq<char>) -> Option<JsonModel> {
        match model {
            JsonModel::Object(members) => if members.contains_key(name) {
                Some(members[name])
            } else {
                None
            },
            _ => None,
        }
    }

    /// Looks a member up by its name: the last member of that name, as in
    /// the map that the object stands for.
    pub fn get(&self, name: &str) -> (r: Option<&Json>)
        ensures
            match r {
                Some(value) => Self::member(self.model(), name@) == Some(value.model()),
                None => Self::member(self.model(), name@) is None,
            },
    {
        match self {
            Json::Object(members) => {
                let wanted = String::from_str(name);
                let ghost pairs = Self::pairs(members@);
                match last_index(members, &wanted) {
                    Some(at) => {
                        proof {
                            assert(pairs[at as int] == (members@[at as int].0@, members@[at as int].1.model()));
                            lemma_members_map_last(pairs, at as int, name@);
                        }
                        Some(&members[at].1)
                    },
                    None => {
                        proof {
                            lemma_members_map_absent(pairs, name@);
                        }
                        None
                    },
                }
            },
            Json::RawNumber(raw) => {
                let _ = raw.as_u64();
                None
            },
            _ => None,
        }
    }

    /// The text of a string document.
    pub fn as_text(&self) -> (r: Option<&String>)
        ensures
            match r {
                Some(text) => self.model() == JsonModel::Text(text@),
                None => !(self.model() is Text),
            },
    {
        match self {
            Json::Text(text) => Some(text),
            Json::RawNumber(raw) => {
                let _ = raw.as_u64();
                None
            },
            _ => None,
        }
    }

    /// The value of a number document.
    pub fn as_u64(&self) -> (r: Option<u64>)
        ensures
            match r {
                Some(n) => self.model() == JsonModel::Number(n),
                None => !(self.model() is Number),
            },
    {
        match self {
            Json::Number(n) => Some(*n),
            Json::RawNumber(raw) => raw.as_u64(),
            _ => None,
        }
    }

    /// The value of a number document that fits in 32 bits.
    pub fn as_u32(&self) -> (r: Option<u32>)
        ensures
            match r {
                Some(n) => self.model() == JsonModel::Number(n as u64),
                None => !(self.model() matches JsonModel::Number(n) && n <= u32::MAX),
            },
    {
        match self.as_u64() {
            Some(n) => if n <= 0xffff_ffff {
                Some(n as u32)
            } else {
                None
            },
            None => None,
        }
    }

    /// The value of a boolean document.
    pub fn as_bool(&self) -> (r: Option<bool>)
        ensures
            match r {
                Some(b) => self.model() == JsonModel::Bool(b),
                None => !(self.model() is Bool),
            },
    {
        match self {
            Json::Bool(b) => Some(*b),
            Json::RawNumber(raw) => {
                let _ = raw.as_u64();
                None
            },
            _ => None,
        }
    }

    /// Whether this is the document `null`.
    pub fn is_null(&self) -> (r: bool)
        ensures
            r == (self.model() is Null),
    {
        match self {
            Json::Null => true,
            Json::RawNumber(raw) => {
                let _ = raw.as_u64();
                false
            },
            _ => false,
        }
    }

    /// Whether the two documents are the same: for objects, whether they
    /// give the same names the same values, in whatever order they list them.
    pub fn same_document(&self, other: &Json) -> (r: bool)
        ensures
            r == (self.model() == other.model()),
        decreases self,
    {
        match (self, other) {
            (Json::Null, Json::Null) => true,
            (Json::Bool(a), Json::Bool(b)) => *a == *b,
            (Json::Number(a), Json::Number(b)) => *a == *b,
            (Json::RawNumber(a), Json::RawNumber(b)) => a.same_number(b),
            (Json::RawNumber(a), Json::Number(b)) => match a.as_u64() {
                Some(n) => n == *b,
                None => false,
            },
            (Json::Number(a), Json::RawNumber(b)) => match b.as_u64() {
                Some(n) => n == *a,
                None => false,
            },
            (Json::RawNumber(a), _) => {
                let _ = a.as_u64();
                false
            },
            (_, Json::RawNumber(b)) => {
                let _ = b.as_u64();
                false
            },
            (Json::Text(a), Json::Text(b)) => *a == *b,
            (Json::Array(items), Json::Array(others)) => {
                if items.len() != others.len() {
                    proof {
                        assert(self.model()->Array_0.len() != other.model()->Array_0.len());
                    }
                    return false;
                }
                let ghost first = self.model()->Array_0;
                let ghost second = other.model()->Array_0;
                let mut i: usize = 0;
                while i < items.len()
                    invariant
                        i <= items.len(),
                        items.len() == others.len(),
                        decreases_to!(*self => *items),
                        self.model() == JsonModel::Array(first),
                        other.model() == JsonModel::Array(second),
                        first.len() == items.len(),
                        second.len() == others.len(),
                        forall|j: int| 0 <= j < items.len() ==> first[j] == items@[j].model(),
                        forall|j: int| 0 <= j < others.len() ==> second[j] == others@[j].model(),
                        forall|j: int| 0 <= j < i ==> first[j] == second[j],
                    decreases items.len() - i,
                {
                    assert(decreases_to!(*items => items[i as int]));
                    if !items[i].same_document(&others[i]) {
                        proof {
                            assert(first[i as int] != second[i as int]);
                        }
                        return false;
                    }
                    i = i + 1;
                }
                proof {
                    assert(first =~= second);
                }
                true
            },
            (Json::Object(members), Json::Object(others)) => {
                let ghost mine = Self::pairs(members@);
                let ghost theirs = Self::pairs(others@);
                let mut i: usize = 0;
                while i < members.len()
                    invariant
                        i <= members.len(),
                        decreases_to!(*self => *members),
                        mine == Self::pairs(members@),
                        theirs == Self::pairs(others@),
                        self.model() == JsonModel::Object(members_map(mine)),
                        other.model() == JsonModel::Object(members_map(theirs)),
                        forall|j: int|
                            0 <= j < i ==> members_map(theirs).contains_key((#[trigger] mine[j]).0)
                                && members_map(theirs)[mine[j].0] == members_map(mine)[mine[j].0],
                    decreases members.len() - i,
                {
                    let name = &members[i].0;
                    proof {
                        assert(mine[i as int].0 == name@);
                        lemma_members_map_keys(mine, name@);
                    }
                    match (last_index(members, name), last_index(others, name)) {
                        (Some(at), Some(there)) => {
                            proof {
                                assert(mine[at as int] == (members@[at as int].0@, members@[at as int].1.model()));
                                assert(theirs[there as int] == (
                                    others@[there as int].0@,
                                    others@[there as int].1.model(),
                                ));
                                lemma_members_map_last(mine, at as int, name@);
                                lemma_members_map_last(theirs, there as int, name@);
                            }
                            assert(decreases_to!(*members => members[at as int]));
                            if !members[at].1.same_document(&others[there].1) {
                                return false;
                            }
                        },
                        _ => {
                            proof {
                                lemma_members_map_absent(theirs, name@);
                            }
                            return false;
                        },
                    }
                    i = i + 1;
                }
                let mut k: usize = 0;
                while k < others.len()
                    invariant
                        k <= others.len(),
                        mine == Self::pairs(members@),
                        theirs == Self::pairs(others@),
                        self.model() == JsonModel::Object(members_map(mine)),
                        other.model() == JsonModel::Object(members_map(theirs)),
                        forall|j: int|
                            0 <= j < k ==> members_map(mine).contains_key((#[trigger] theirs[j]).0),
                    decreases others.len() - k,
                {
                    let name = &others[k].0;
                    proof {
                        assert(theirs[k as int].0 == name@);
                        lemma_members_map_keys(theirs, name@);
                        lemma_members_map_keys(mine, name@);
                    }
                    match last_index(members, name) {
                        Some(at) => {
                            proof {
                                assert(mine[at as int].0 == name@);
                            }
                        },
                        None => {
                            proof {
                                lemma_members_map_absent(mine, name@);
                            }
                            return false;
                        },
                    }
                    k = k + 1;
                }
                proof {
                    let first = members_map(mine);
                    let second = members_map(theirs);
                    assert forall|name: Seq<char>| first.dom().contains(name) == second.dom().contains(
                        name,
                    ) by {
                        lemma_members_map_keys(mine, name);
                        lemma_members_map_keys(theirs, name);
                        if first.contains_key(name) {
                            let j = choose|j: int| 0 <= j < mine.len() && (#[trigger] mine[j]).0 == name;
                            assert(second.contains_key(mine[j].0));
                        }
                        if second.contains_key(name) {
                            let j = choose|j: int|
                                0 <= j < theirs.len() && (#[trigger] theirs[j]).0 == name;
                            assert(first.contains_key(theirs[j].0));
                        }
                    }
                    assert(first.dom() =~= second.dom());
                    assert forall|name: Seq<char>| first.dom().contains(name) implies first[name]
                        == second[name] by {
                        lemma_members_map_keys(mine, name);
                        let j = choose|j: int| 0 <= j < mine.len() && (#[trigger] mine[j]).0 == name;
                        assert(second[mine[j].0] == first[mine[j].0]);
                    }
                    assert(first =~= second);
                }
                true
            },
            _ => false,
        }
    }

    /// A copy of this document.
    pub fn duplicate(&self) -> (r: Json)
        ensures
            r.model() == self.model(),
        decreases self,
    {
        match self {
            Json::Null => Json::Null,
            Json::Bool(b) => Json::Bool(*b),
            Json::Number(n) => Json::Number(*n),
            Json::RawNumber(raw) => Json::RawNumber(raw.duplicate()),
            Json::Text(text) => Json::Text(text.clone()),
            Json::Array(items) => {
                let mut copies: Vec<Json> = Vec::new();
                let mut i: usize = 0;
                while i < items.len()
                    invariant
                        i <= items.len(),
                        decreases_to!(*self => *items),
                        copies.len() == i,
                        forall|j: int| 0 <= j < i ==> copies@[j].model() == items@[j].model(),
                    decreases items.len() - i,
                {
                    assert(decreases_to!(*items => items[i as int]));
                    copies.push(items[i].duplicate());
                    i = i + 1;
                }
                let copy = Json::Array(copies);
                proof {
                    assert(copy.model()->Array_0 =~= self.model()->Array_0);
                }
                copy
            },
            Json::Object(members) => {
                let mut copies: Vec<(String, Json)> = Vec::new();
                let mut i: usize = 0;
                while i < members.len()
                    invariant
                        i <= members.len(),
                        decreases_to!(*self => *members),
                        copies.len() == i,
                        forall|j: int|
                            0 <= j < i ==> copies@[j].0@ == members@[j].0@ && copies@[j].1.model()
                                == members@[j].1.model(),
                    decreases members.len() - i,
                {
                    assert(decreases_to!(*members => members[i as int]));
                    copies.push((members[i].0.clone(), members[i].1.duplicate()));
                    i = i + 1;
                }
                proof {
                    assert(Self::pairs(copies@) =~= Self::pairs(members@));
                }
                Json::Object(copies)
            },
        }
    }

    /// Reads a JSON text. The result is the document that the text holds;
    /// `None` where the text is no JSON.
    pub fn parse(text: &str) -> (r: Option<Json>)
        ensures
            match r {
                Some(document) => parsed_document(text@) == Some(document.model()),
                None => parsed_document(text@) is None,
            },
    {
        match read_value(text) {
            Some(value) => Some(lift(&value)),
            None => None,
        }
    }

    /// Prints the document as compact JSON text.
    pub fn render(&self) -> (r: String)
        ensures
            r@ == json_text(self.model()),
    {
        let value = lower(self);
        write_value(&value)
    }
}

} // verus!
