//! The JSON model of the node's messages, and the reading of their text.
use serde_json::Value;
use vstd::prelude::*;

verus! {

/// A JSON number as the JSON reader hands it over: a non-negative integer,
/// a negative integer, or any other number kept as its text.
#[derive(Debug)]
pub enum JsonNumber {
    PosInt(u64),
    NegInt(i64),
    Float(String),
}

/// A JSON document. Objects keep their members in order; a reader builds
/// them with distinct keys.
#[derive(Debug)]
pub enum JsonValue {
    Null,
    Bool(bool),
    Number(JsonNumber),
    String(String),
    Array(Vec<JsonValue>),
    Object(Vec<(String, JsonValue)>),
}

/// The mathematical model of a JSON number.
pub enum JsonNum {
    PosInt(u64),
    NegInt(i64),
    Float(Seq<char>),
}

/// The mathematical model of a JSON document.
pub enum Json {
    Null,
    Bool(bool),
    Number(JsonNum),
    Str(Seq<char>),
    Array(Seq<Json>),
    Object(Seq<(Seq<char>, Json)>),
}

impl JsonNumber {
    pub open spec fn view(&self) -> JsonNum {
        match self {
            JsonNumber::PosInt(u) => JsonNum::PosInt(*u),
            JsonNumber::NegInt(i) => JsonNum::NegInt(*i),
            JsonNumber::Float(s) => JsonNum::Float(s@),
        }
    }
}

pub open spec fn view_items(items: Seq<JsonValue>) -> Seq<Json>
    decreases items,
{
    if items.len() == 0 {
        Seq::empty()
    } else {
        seq![items[0].view()] + view_items(items.drop_first())
    }
}

pub open spec fn view_members(members: Seq<(String, JsonValue)>) -> Seq<(Seq<char>, Json)>
    decreases members,
{
    if members.len() == 0 {
        Seq::empty()
    } else {
        seq![(members[0].0@, members[0].1.view())] + view_members(members.drop_first())
    }
}

impl JsonValue {
    pub open spec fn view(&self) -> Json
        decreases self,
    {
        match self {
            JsonValue::Null => Json::Null,
            JsonValue::Bool(b) => Json::Bool(*b),
            JsonValue::Number(n) => Json::Number(n.view()),
            JsonValue::String(s) => Json::Str(s@),
            JsonValue::Array(items) => Json::Array(view_items(items@)),
            JsonValue::Object(members) => Json::Object(view_members(members@)),
        }
    }
}


// ---------------------------------------------------------------------------
// Facts about the model
// ---------------------------------------------------------------------------

pub proof fn lemma_view_items(s: Seq<JsonValue>)
    ensures
        view_items(s).len() == s.len(),
        forall|i: int| 0 <= i < s.len() ==> #[trigger] view_items(s)[i] == s[i].view(),
    decreases s.len(),
{
    if s.len() > 0 {
        lemma_view_items(s.drop_first());
        assert forall|i: int| 0 <= i < s.len() implies #[trigger] view_items(s)[i] == s[i].view() by {
            if i > 0 {
                assert(view_items(s)[i] == view_items(s.drop_first())[i - 1]);
            }
        }
    }
}

pub proof fn lemma_view_members(s: Seq<(String, JsonValue)>)
    ensures
        view_members(s).len() == s.len(),
        forall|i: int|
            0 <= i < s.len() ==> #[trigger] view_members(s)[i] == (s[i].0@, s[i].1.view()),
    decreases s.len(),
{
    if s.len() > 0 {
        lemma_view_members(s.drop_first());
        assert forall|i: int| 0 <= i < s.len() implies #[trigger] view_members(s)[i] == (
            s[i].0@,
            s[i].1.view(),
        ) by {
            if i > 0 {
                assert(view_members(s)[i] == view_members(s.drop_first())[i - 1]);
            }
        }
    }
}

/// The value of the first member of an object named `key`.
pub open spec fn member(members: Seq<(Seq<char>, Json)>, key: Seq<char>) -> Option<Json>
    decreases members.len(),
{
    if members.len() == 0 {
        None
    } else if members[0].0 == key {
        Some(members[0].1)
    } else {
        member(members.drop_first(), key)
    }
}

pub proof fn lemma_member_found(members: Seq<(Seq<char>, Json)>, key: Seq<char>, i: int)
    requires
        0 <= i < members.len(),
        members[i].0 == key,
        forall|j: int| 0 <= j < i ==> #[trigger] members[j].0 != key,
    ensures
        member(members, key) == Some(members[i].1),
    decreases i,
{
    if i > 0 {
        let t = members.drop_first();
        assert forall|j: int| 0 <= j < i - 1 implies #[trigger] t[j].0 != key by {
            assert(t[j] == members[j + 1]);
        }
        lemma_member_found(t, key, i - 1);
    }
}

pub proof fn lemma_member_absent(members: Seq<(Seq<char>, Json)>, key: Seq<char>)
    requires
        forall|j: int| 0 <= j < members.len() ==> #[trigger] members[j].0 != key,
    ensures
        member(members, key) == None::<Json>,
    decreases members.len(),
{
    if members.len() > 0 {
        let t = members.drop_first();
        assert forall|j: int| 0 <= j < t.len() implies #[trigger] t[j].0 != key by {
            assert(t[j] == members[j + 1]);
        }
        lemma_member_absent(t, key);
    }
}

/// The members that a derived reader of a struct with `n` fields sees: an
/// object, or an array of exactly `n` elements.
pub open spec fn is_struct(v: Json, n: nat) -> bool {
    match v {
        Json::Object(_) => true,
        Json::Array(items) => items.len() == n,
        _ => false,
    }
}

/// The value that a derived reader of a struct with `n` fields finds for its
/// field number `idx`, named `name`: the object member of that name, or the
/// array element at that place.
pub open spec fn struct_field(v: Json, n: nat, idx: int, name: Seq<char>) -> Option<Json> {
    match v {
        Json::Object(members) => member(members, name),
        Json::Array(items) => if items.len() == n && 0 <= idx < n {
            Some(items[idx])
        } else {
            None
        },
        _ => None,
    }
}

// ---------------------------------------------------------------------------
// Operations
// ---------------------------------------------------------------------------

/// Where the first member named `key` stands.
pub fn find_member(members: &Vec<(String, JsonValue)>, key: &String) -> (r: Option<usize>)
    ensures
        match r {
            Some(i) => i < members@.len() && members@[i as int].0@ == key@ && forall|j: int|
                0 <= j < i ==> #[trigger] members@[j].0@ != key@,
            None => forall|j: int| 0 <= j < members@.len() ==> #[trigger] members@[j].0@ != key@,
        },
        r matches Some(i) ==> member(view_members(members@), key@) == Some(members@[i as int].1@),
        r is None ==> member(view_members(members@), key@) == None::<Json>,
{
    let mut i: usize = 0;
    while i < members.len()
        invariant
            i <= members@.len(),
            forall|j: int| 0 <= j < i ==> #[trigger] members@[j].0@ != key@,
        decreases members@.len() - i,
    {
        if members[i].0 == *key {
            proof {
                lemma_view_members(members@);
                let vm = view_members(members@);
                assert forall|j: int| 0 <= j < i implies #[trigger] vm[j].0 != key@ by {
                    assert(vm[j].0 == members@[j].0@);
                }
                lemma_member_found(vm, key@, i as int);
            }
            return Some(i);
        }
        i = i + 1;
    }
    proof {
        lemma_view_members(members@);
        let vm = view_members(members@);
        assert forall|j: int| 0 <= j < vm.len() implies #[trigger] vm[j].0 != key@ by {
            assert(vm[j].0 == members@[j].0@);
        }
        lemma_member_absent(vm, key@);
    }
    None
}

impl JsonValue {
    /// The member of an object named `key`.
    pub fn get(&self, key: &str) -> (r: Option<&JsonValue>)
        ensures
            match self@ {
                Json::Object(members) => match member(members, key@) {
                    Some(m) => r matches Some(x) && x@ == m,
                    None => r is None,
                },
                _ => r is None,
            },
    {
        match self {
            JsonValue::Object(members) => {
                let k = key.to_owned();
                match find_member(members, &k) {
                    Some(i) => Some(&members[i].1),
                    None => None,
                }
            },
            _ => None,
        }
    }

    /// Whether a derived struct reader with `n` fields accepts the shape of `self`.
    pub fn is_struct(&self, n: usize) -> (r: bool)
        ensures
            r == is_struct(self@, n as nat),
    {
        match self {
            JsonValue::Object(_) => true,
            JsonValue::Array(items) => {
                proof {
                    lemma_view_items(items@);
                }
                items.len() == n
            },
            _ => false,
        }
    }

    /// The value a derived struct reader with `n` fields finds for field
    /// number `idx`, named `name`.
    pub fn struct_field(&self, n: usize, idx: usize, name: &str) -> (r: Option<&JsonValue>)
        requires
            idx < n,
        ensures
            match struct_field(self@, n as nat, idx as int, name@) {
                Some(m) => r matches Some(x) && x@ == m,
                None => r is None,
            },
    {
        match self {
            JsonValue::Object(_) => self.get(name),
            JsonValue::Array(items) => {
                proof {
                    lemma_view_items(items@);
                }
                if items.len() == n {
                    Some(&items[idx])
                } else {
                    None
                }
            },
            _ => None,
        }
    }

    /// A copy of the document.
    #[verifier::loop_isolation(false)]
    pub fn duplicate(&self) -> (r: JsonValue)
        ensures
            r@ == self@,
        decreases self,
    {
        match self {
            JsonValue::Null => JsonValue::Null,
            JsonValue::Bool(b) => JsonValue::Bool(*b),
            JsonValue::Number(n) => JsonValue::Number(
                match n {
                    JsonNumber::PosInt(u) => JsonNumber::PosInt(*u),
                    JsonNumber::NegInt(i) => JsonNumber::NegInt(*i),
                    JsonNumber::Float(s) => JsonNumber::Float(s.clone()),
                },
            ),
            JsonValue::String(s) => JsonValue::String(s.clone()),
            JsonValue::Array(items) => {
                let mut out: Vec<JsonValue> = Vec::new();
                let mut i: usize = 0;
                while i < items.len()
                    invariant
                        i <= items@.len(),
                        out@.len() == i,
                        forall|j: int| 0 <= j < i ==> #[trigger] out@[j]@ == items@[j]@,
                    decreases items@.len() - i,
                {
                    assert(decreases_to!(*self => self->Array_0));
                    let c = items[i].duplicate();
                    out.push(c);
                    i = i + 1;
                }
                proof {
                    lemma_view_items(items@);
                    lemma_view_items(out@);
                    assert(view_items(out@) =~= view_items(items@));
                }
                JsonValue::Array(out)
            },
            JsonValue::Object(members) => {
                let mut out: Vec<(String, JsonValue)> = Vec::new();
                let mut i: usize = 0;
                while i < members.len()
                    invariant
                        i <= members@.len(),
                        out@.len() == i,
                        forall|j: int|
                            0 <= j < i ==> #[trigger] out@[j].0@ == members@[j].0@ && out@[j].1@
                                == members@[j].1@,
                    decreases members@.len() - i,
                {
                    assert(decreases_to!(*self => self->Object_0));
                    let k = members[i].0.clone();
                    let c = members[i].1.duplicate();
                    out.push((k, c));
                    i = i + 1;
                }
                proof {
                    lemma_view_members(members@);
                    lemma_view_members(out@);
                    assert(view_members(out@) =~= view_members(members@));
                }
                JsonValue::Object(out)
            },
        }
    }
}
// ---------------------------------------------------------------------------
// Reading JSON text
// ---------------------------------------------------------------------------

#[verifier::external_type_specification]
#[verifier::external_body]
pub struct ExJsonDocument(serde_json::Value);

/// The document that `serde_json` reads from `text`, when `text` is JSON.
pub uninterp spec fn json_document(text: Seq<char>) -> Option<Json>;

/// A `serde_json` document as a `JsonValue`, variant for variant; a number
/// is told apart as `serde_json` keeps it: a non-negative integer, a negative
/// one, or any other number as its text. It only converts the result of
/// `read_json_text`, and nothing is stated of the opaque document.
#[verifier::external_body]
fn from_serde_document(v: Value) -> (r: JsonValue) {
    match v {
        Value::Null => JsonValue::Null,
        Value::Bool(b) => JsonValue::Bool(b),
        Value::Number(n) => JsonValue::Number(match (n.as_u64(), n.as_i64()) {
            (Some(u), _) => JsonNumber::PosInt(u),
            (None, Some(i)) => JsonNumber::NegInt(i),
            _ => JsonNumber::Float(n.to_string()),
        }),
        Value::String(t) => JsonValue::String(t),
        Value::Array(items) => JsonValue::Array(items.into_iter().map(from_serde_document).collect()),
        Value::Object(m) => JsonValue::Object(m.into_iter().map(|(k, x)| (k, from_serde_document(x))).collect()),
    }
}

/// `serde_json::from_str` on `text`: the document it reads is named
/// `json_document` of the text, a function of the text alone; `None` when
/// the text is not JSON.
#[verifier::external_body]
pub(crate) fn read_json_text(text: &str) -> (r: Option<JsonValue>)
    ensures
        match json_document(text@) {
            Some(j) => r matches Some(v) && v@ == j,
            None => r is None,
        },
{
    serde_json::from_str::<Value>(text).ok().map(from_serde_document)
}

} // verus!
