//! JSON values.
//!
//! [`JsonValue`] is what the rest of the library reads and builds; [`Json`] is
//! its mathematical value, which the contracts speak of.

use vstd::prelude::*;

use crate::text::same_text;

verus! {

// ── Model ───────────────────────────────────────────────────────────────────

/// A JSON number: an integer, or the bit pattern of a finite double.
pub enum Num {
    Int(int),
    Float(u64),
}

/// A JSON value. The order of an object's members means nothing, so an object is
/// a map from its keys.
pub enum Json {
    Null,
    Bool(bool),
    Number(Num),
    String(Seq<char>),
    Array(Seq<Json>),
    Object(Map<Seq<char>, Json>),
}

impl Json {
    /// The member of an object; nothing for any other value.
    pub open spec fn get(self, key: Seq<char>) -> Option<Json> {
        match self {
            Json::Object(members) => if members.contains_key(key) {
                Some(members[key])
            } else {
                None
            },
            _ => None,
        }
    }

    pub open spec fn as_str(self) -> Option<Seq<char>> {
        match self {
            Json::String(text) => Some(text),
            _ => None,
        }
    }

    /// The number, if it is an integer that fits in `u64`.
    pub open spec fn as_u64(self) -> Option<u64> {
        match self {
            Json::Number(Num::Int(n)) => if 0 <= n <= u64::MAX {
                Some(n as u64)
            } else {
                None
            },
            _ => None,
        }
    }

    /// The number, if it is an integer that fits in `i64`.
    pub open spec fn as_i64(self) -> Option<i64> {
        match self {
            Json::Number(Num::Int(n)) => if i64::MIN <= n <= i64::MAX {
                Some(n as i64)
            } else {
                None
            },
            _ => None,
        }
    }

    pub open spec fn as_array(self) -> Option<Seq<Json>> {
        match self {
            Json::Array(items) => Some(items),
            _ => None,
        }
    }
}

/// The member `key` of a value that may be missing.
pub open spec fn member(value: Option<Json>, key: Seq<char>) -> Option<Json> {
    match value {
        Some(value) => value.get(key),
        None => None,
    }
}

/// The text of a value that may be missing.
pub open spec fn text_of(value: Option<Json>) -> Option<Seq<char>> {
    match value {
        Some(value) => value.as_str(),
        None => None,
    }
}

/// The members of an object, with `key` added if it is not there yet.
pub open spec fn or_insert(
    members: Map<Seq<char>, Json>,
    key: Seq<char>,
    value: Json,
) -> Map<Seq<char>, Json> {
    if members.contains_key(key) {
        members
    } else {
        members.insert(key, value)
    }
}

/// The members of an object, with `key` set if there is a value for it.
pub open spec fn insert_some(
    members: Map<Seq<char>, Json>,
    key: Seq<char>,
    value: Option<Json>,
) -> Map<Seq<char>, Json> {
    match value {
        Some(value) => members.insert(key, value),
        None => members,
    }
}

/// The object without members.
pub open spec fn no_members() -> Map<Seq<char>, Json> {
    Map::empty()
}

/// Whether `keys` lists the keys of an object, each of them once.
pub open spec fn lists_keys(keys: Seq<Seq<char>>, members: Map<Seq<char>, Json>) -> bool {
    &&& keys.no_duplicates()
    &&& forall|key: Seq<char>| #[trigger] members.contains_key(key) <==> keys.contains(key)
}

/// The integer `n` as a JSON value.
pub open spec fn int_json(n: int) -> Json {
    Json::Number(Num::Int(n))
}

/// Whether a bit pattern is that of a double which is zero, of either sign.
pub open spec fn is_zero_float(bits: u64) -> bool {
    bits == 0 || bits == 0x8000_0000_0000_0000
}

/// Whether two numbers are equal; the two zeros among the doubles are.
pub open spec fn num_eq(a: Num, b: Num) -> bool {
    match (a, b) {
        (Num::Float(x), Num::Float(y)) => x == y || (is_zero_float(x) && is_zero_float(y)),
        _ => a == b,
    }
}

/// Whether two values are equal, their numbers compared by [`num_eq`].
pub open spec fn json_eq(a: Json, b: Json) -> bool
    decreases a,
{
    match (a, b) {
        (Json::Number(x), Json::Number(y)) => num_eq(x, y),
        (Json::Array(xs), Json::Array(ys)) => {
            &&& xs.len() == ys.len()
            &&& forall|i: int| 0 <= i < xs.len() ==> json_eq(#[trigger] xs[i], ys[i])
        },
        (Json::Object(xs), Json::Object(ys)) => {
            &&& xs.dom() == ys.dom()
            &&& forall|k: Seq<char>| xs.contains_key(k) ==> json_eq(#[trigger] xs[k], ys[k])
        },
        _ => a == b,
    }
}

/// Every value equals itself.
pub proof fn law_json_eq_reflexive(a: Json)
    ensures
        json_eq(a, a),
    decreases a,
{
    match a {
        Json::Array(xs) => {
            assert forall|i: int| 0 <= i < xs.len() implies json_eq(#[trigger] xs[i], xs[i]) by {
                law_json_eq_reflexive(xs[i]);
            }
        },
        Json::Object(xs) => {
            assert forall|k: Seq<char>| xs.contains_key(k) implies json_eq(
                #[trigger] xs[k],
                xs[k],
            ) by {
                law_json_eq_reflexive(xs[k]);
            }
        },
        _ => {},
    }
}

// ── Values ──────────────────────────────────────────────────────────────────

/// A JSON number.
#[derive(Debug, Clone, Copy)]
pub enum Number {
    PosInt(u64),
    NegInt(i64),
    /// The bit pattern of a finite double.
    Float(u64),
}

/// A JSON value.
#[derive(Debug)]
pub enum JsonValue {
    Null,
    Bool(bool),
    Number(Number),
    String(String),
    Array(Vec<JsonValue>),
    Object(Object),
}

#[derive(Debug)]
struct Entry {
    key: String,
    value: JsonValue,
}

/// The members of a JSON object. No key occurs twice.
#[derive(Debug)]
pub struct Object {
    entries: Vec<Entry>,
}

impl Number {
    pub open spec fn view(&self) -> Num {
        match self {
            Number::PosInt(n) => Num::Int(*n as int),
            Number::NegInt(n) => Num::Int(*n as int),
            Number::Float(bits) => Num::Float(*bits),
        }
    }

    /// The number, if it is an integer that fits in `u64`.
    pub fn as_u64(&self) -> (r: Option<u64>)
        ensures
            r == Json::Number(self@).as_u64(),
    {
        match self {
            Number::PosInt(n) => Some(*n),
            Number::NegInt(n) => if *n >= 0 {
                Some(*n as u64)
            } else {
                None
            },
            Number::Float(_) => None,
        }
    }

    /// The number, if it is an integer that fits in `i64`.
    pub fn as_i64(&self) -> (r: Option<i64>)
        ensures
            r == Json::Number(self@).as_i64(),
    {
        match self {
            Number::PosInt(n) => if *n <= i64::MAX as u64 {
                Some(*n as i64)
            } else {
                None
            },
            Number::NegInt(n) => Some(*n),
            Number::Float(_) => None,
        }
    }

    fn same(&self, other: &Number) -> (r: bool)
        ensures
            r == num_eq(self@, other@),
    {
        match (self, other) {
            (Number::Float(x), Number::Float(y)) => {
                *x == *y || ((*x == 0 || *x == 0x8000_0000_0000_0000) && (*y == 0 || *y
                    == 0x8000_0000_0000_0000))
            },
            (Number::Float(_), _) => false,
            (_, Number::Float(_)) => false,
            (Number::PosInt(x), Number::PosInt(y)) => *x == *y,
            (Number::PosInt(x), Number::NegInt(y)) => *y >= 0 && *x == *y as u64,
            (Number::NegInt(x), Number::PosInt(y)) => *x >= 0 && *x as u64 == *y,
            (Number::NegInt(x), Number::NegInt(y)) => *x == *y,
        }
    }
}

/// The mathematical values of a sequence of values.
pub open spec fn values_view(values: Seq<JsonValue>) -> Seq<Json>
    decreases values,
{
    Seq::new(
        values.len(),
        |i: int|
            if 0 <= i < values.len() {
                values[i].view()
            } else {
                Json::Null
            },
    )
}

closed spec fn entries_view(entries: Seq<Entry>) -> Map<Seq<char>, Json>
    decreases entries,
{
    if entries.len() == 0 {
        Map::empty()
    } else {
        let last = entries[entries.len() - 1];
        entries_view(entries.subrange(0, entries.len() - 1)).insert(last.key@, last.value.view())
    }
}

/// The mathematical value of a value that may be missing.
pub open spec fn opt_view(value: Option<JsonValue>) -> Option<Json> {
    match value {
        Some(value) => Some(value@),
        None => None,
    }
}

/// The mathematical value of a borrowed value that may be missing.
pub open spec fn ref_view(value: Option<&JsonValue>) -> Option<Json> {
    match value {
        Some(value) => Some(value@),
        None => None,
    }
}

/// The characters of a borrowed text that may be missing.
pub open spec fn str_view(text: Option<&str>) -> Option<Seq<char>> {
    match text {
        Some(text) => Some(text@),
        None => None,
    }
}

/// The characters of a text that may be missing.
pub open spec fn string_view(text: Option<String>) -> Option<Seq<char>> {
    match text {
        Some(text) => Some(text@),
        None => None,
    }
}

impl JsonValue {
    pub open spec fn view(&self) -> Json
        decreases self,
    {
        match self {
            JsonValue::Null => Json::Null,
            JsonValue::Bool(b) => Json::Bool(*b),
            JsonValue::Number(n) => Json::Number(n.view()),
            JsonValue::String(text) => Json::String(text@),
            JsonValue::Array(items) => Json::Array(values_view(items@)),
            JsonValue::Object(object) => Json::Object(object.view()),
        }
    }

    /// A JSON string.
    pub fn text(text: &str) -> (r: JsonValue)
        ensures
            r@ == Json::String(text@),
    {
        JsonValue::String(text.to_owned())
    }

    /// A JSON integer.
    pub fn unsigned(n: u64) -> (r: JsonValue)
        ensures
            r@ == int_json(n as int),
    {
        JsonValue::Number(Number::PosInt(n))
    }

    /// A JSON integer.
    pub fn signed(n: i64) -> (r: JsonValue)
        ensures
            r@ == int_json(n as int),
    {
        if n >= 0 {
            JsonValue::Number(Number::PosInt(n as u64))
        } else {
            JsonValue::Number(Number::NegInt(n))
        }
    }

    /// The member `key` of an object; nothing for any other value.
    pub fn get(&self, key: &str) -> (r: Option<&JsonValue>)
        ensures
            ref_view(r) == self@.get(key@),
    {
        match self {
            JsonValue::Object(object) => object.get(key),
            _ => None,
        }
    }

    pub fn as_str(&self) -> (r: Option<&str>)
        ensures
            str_view(r) == self@.as_str(),
    {
        match self {
            JsonValue::String(text) => Some(text.as_str()),
            _ => None,
        }
    }

    /// The number, if it is an integer that fits in `u64`.
    pub fn as_u64(&self) -> (r: Option<u64>)
        ensures
            r == self@.as_u64(),
    {
        match self {
            JsonValue::Number(n) => n.as_u64(),
            _ => None,
        }
    }

    /// The number, if it is an integer that fits in `i64`.
    pub fn as_i64(&self) -> (r: Option<i64>)
        ensures
            r == self@.as_i64(),
    {
        match self {
            JsonValue::Number(n) => n.as_i64(),
            _ => None,
        }
    }

    pub fn as_array(&self) -> (r: Option<&Vec<JsonValue>>)
        ensures
            match r {
                Some(items) => self@.as_array() == Some(values_view(items@)),
                None => self@.as_array() is None,
            },
    {
        match self {
            JsonValue::Array(items) => Some(items),
            _ => None,
        }
    }

    pub fn is_null(&self) -> (r: bool)
        ensures
            r == (self@ is Null),
    {
        match self {
            JsonValue::Null => true,
            _ => false,
        }
    }

    /// Whether two values are equal, the order of members aside.
    pub fn same(&self, other: &JsonValue) -> (r: bool)
        ensures
            r == json_eq(self@, other@),
        decreases self,
    {
        match (self, other) {
            (JsonValue::Null, JsonValue::Null) => true,
            (JsonValue::Bool(x), JsonValue::Bool(y)) => *x == *y,
            (JsonValue::Number(x), JsonValue::Number(y)) => x.same(y),
            (JsonValue::String(x), JsonValue::String(y)) => same_text(x.as_str(), y.as_str()),
            (JsonValue::Array(xs), JsonValue::Array(ys)) => same_values(xs, ys),
            (JsonValue::Object(x), JsonValue::Object(y)) => x.same(y),
            _ => false,
        }
    }
}

/// The member `key` of a value that may be missing.
pub fn member_of<'a>(value: Option<&'a JsonValue>, key: &str) -> (r: Option<&'a JsonValue>)
    ensures
        ref_view(r) == member(ref_view(value), key@),
{
    match value {
        Some(value) => value.get(key),
        None => None,
    }
}

/// The text of a value that may be missing.
pub fn str_of(value: Option<&JsonValue>) -> (r: Option<&str>)
    ensures
        str_view(r) == text_of(ref_view(value)),
{
    match value {
        Some(value) => value.as_str(),
        None => None,
    }
}

fn same_values(xs: &Vec<JsonValue>, ys: &Vec<JsonValue>) -> (r: bool)
    ensures
        r == json_eq(Json::Array(values_view(xs@)), Json::Array(values_view(ys@))),
    decreases xs@,
{
    proof {
        lemma_values_view(xs@);
        lemma_values_view(ys@);
    }
    let ghost a = values_view(xs@);
    let ghost b = values_view(ys@);
    if xs.len() != ys.len() {
        return false;
    }
    let mut i: usize = 0;
    while i < xs.len()
        invariant
            i <= xs@.len(),
            a == values_view(xs@),
            b == values_view(ys@),
            a.len() == b.len(),
            a.len() == xs@.len(),
            b.len() == ys@.len(),
            forall|j: int| 0 <= j < xs@.len() ==> #[trigger] a[j] == xs@[j]@,
            forall|j: int| 0 <= j < ys@.len() ==> #[trigger] b[j] == ys@[j]@,
            forall|j: int| 0 <= j < i ==> json_eq(#[trigger] a[j], b[j]),
        decreases xs@.len() - i,
    {
        if !xs[i].same(&ys[i]) {
            assert(!json_eq(a[i as int], b[i as int]));
            return false;
        }
        assert(json_eq(a[i as int], b[i as int]));
        i += 1;
    }
    true
}

impl PartialEq for JsonValue {
    fn eq(&self, other: &JsonValue) -> (r: bool) {
        self.same(other)
    }
}

impl vstd::std_specs::cmp::PartialEqSpecImpl for JsonValue {
    open spec fn obeys_eq_spec() -> bool {
        true
    }

    open spec fn eq_spec(&self, other: &JsonValue) -> bool {
        json_eq(self@, other@)
    }
}

pub proof fn lemma_values_view(values: Seq<JsonValue>)
    ensures
        values_view(values).len() == values.len(),
        forall|i: int| 0 <= i < values.len() ==> #[trigger] values_view(values)[i] == values[i]@,
{
}

// ── Objects ─────────────────────────────────────────────────────────────────

spec fn distinct(entries: Seq<Entry>) -> bool {
    forall|i: int, j: int|
        0 <= i < j < entries.len() ==> #[trigger] entries[i].key@ != #[trigger] entries[j].key@
}

impl Object {
    pub closed spec fn view(&self) -> Map<Seq<char>, Json>
        decreases self,
    {
        entries_view(self.entries@)
    }

    /// The keys, in the order in which they were added.
    pub closed spec fn keys(&self) -> Seq<Seq<char>> {
        self.entries@.map_values(|entry: Entry| entry.key@)
    }

    #[verifier::type_invariant]
    spec fn keys_distinct(self) -> bool {
        distinct(self.entries@)
    }

    /// An object without members.
    pub fn new() -> (r: Object)
        ensures
            r@ == no_members(),
            r.keys() == Seq::<Seq<char>>::empty(),
    {
        let r = Object { entries: Vec::new() };
        assert(r.keys() =~= Seq::empty());
        r
    }

    fn find(&self, key: &str) -> (r: Option<usize>)
        ensures
            match r {
                Some(i) => i < self.entries@.len() && self.entries@[i as int].key@ == key@,
                None => forall|i: int|
                    0 <= i < self.entries@.len() ==> #[trigger] self.entries@[i].key@ != key@,
            },
    {
        let mut i: usize = 0;
        while i < self.entries.len()
            invariant
                i <= self.entries@.len(),
                forall|j: int| 0 <= j < i ==> #[trigger] self.entries@[j].key@ != key@,
            decreases self.entries@.len() - i,
        {
            if same_text(self.entries[i].key.as_str(), key) {
                return Some(i);
            }
            i += 1;
        }
        None
    }

    /// The member `key`.
    pub fn get(&self, key: &str) -> (r: Option<&JsonValue>)
        ensures
            ref_view(r) == Json::Object(self@).get(key@),
    {
        proof {
            use_type_invariant(self);
            lemma_entries_view(self.entries@);
        }
        match self.find(key) {
            Some(i) => Some(&self.entries[i].value),
            None => None,
        }
    }

    /// The object with the member `key` set to `value`.
    pub fn with(self, key: &str, value: JsonValue) -> (r: Object)
        ensures
            r@ == self@.insert(key@, value@),
            r.keys() == if self@.contains_key(key@) {
                self.keys()
            } else {
                self.keys().push(key@)
            },
    {
        proof {
            use_type_invariant(&self);
            lemma_entries_view(self.entries@);
        }
        let found = self.find(key);
        let Object { entries } = self;
        let mut entries = entries;
        let ghost before = entries@;
        let entry = Entry { key: key.to_owned(), value };
        match found {
            Some(i) => {
                proof {
                    lemma_replace_entry(before, i as int, entry);
                }
                entries.set(i, entry);
            },
            None => {
                entries.push(entry);
                assert(entries@.subrange(0, entries@.len() - 1) =~= before);
            },
        }
        let r = Object { entries };
        assert(r.keys() =~= if self@.contains_key(key@) {
            self.keys()
        } else {
            self.keys().push(key@)
        });
        r
    }

    /// The object with the member `key` set to `value`, unless it has that member.
    pub fn with_default(self, key: &str, value: JsonValue) -> (r: Object)
        ensures
            r@ == or_insert(self@, key@, value@),
    {
        match self.get(key) {
            Some(_) => self,
            None => self.with(key, value),
        }
    }

    /// The object with the member `key` set to `value`, if there is one.
    pub fn with_some(self, key: &str, value: Option<JsonValue>) -> (r: Object)
        ensures
            r@ == insert_some(self@, key@, opt_view(value)),
    {
        match value {
            Some(value) => self.with(key, value),
            None => self,
        }
    }

    /// The number of members.
    pub fn len(&self) -> (r: usize)
        ensures
            r == self.keys().len(),
            lists_keys(self.keys(), self@),
    {
        proof {
            use_type_invariant(self);
            lemma_keys(self);
        }
        self.entries.len()
    }

    /// The member at a position in the order in which they were added.
    pub fn member_at(&self, i: usize) -> (r: Option<(&str, &JsonValue)>)
        ensures
            match r {
                Some((key, value)) => i < self.keys().len() && self.keys()[i as int] == key@
                    && self@.contains_key(key@) && self@[key@] == value@,
                None => i >= self.keys().len(),
            },
            lists_keys(self.keys(), self@),
    {
        proof {
            use_type_invariant(self);
            lemma_entries_view(self.entries@);
            lemma_keys(self);
        }
        if i < self.entries.len() {
            Some((self.entries[i].key.as_str(), &self.entries[i].value))
        } else {
            None
        }
    }

    fn same(&self, other: &Object) -> (r: bool)
        ensures
            r == json_eq(Json::Object(self@), Json::Object(other@)),
        decreases self,
    {
        proof {
            use_type_invariant(self);
            use_type_invariant(other);
            lemma_entries_view(self.entries@);
            lemma_entries_view(other.entries@);
        }
        let ghost a = self@;
        let ghost b = other@;
        let mut i: usize = 0;
        while i < self.entries.len()
            invariant
                i <= self.entries@.len(),
                a == self@,
                b == other@,
                distinct(self.entries@),
                forall|j: int|
                    #![trigger self.entries@[j]]
                    0 <= j < self.entries@.len() ==> a.contains_key(self.entries@[j].key@)
                        && a[self.entries@[j].key@] == self.entries@[j].value@,
                forall|j: int|
                    #![trigger self.entries@[j]]
                    0 <= j < i ==> b.contains_key(self.entries@[j].key@) && json_eq(
                        self.entries@[j].value@,
                        b[self.entries@[j].key@],
                    ),
            decreases self.entries@.len() - i,
        {
            let ghost key = self.entries@[i as int].key@;
            assert(a.contains_key(key));
            match other.get(self.entries[i].key.as_str()) {
                Some(value) => {
                    if !self.entries[i].value.same(value) {
                        assert(!json_eq(a[key], b[key]));
                        return false;
                    }
                },
                None => {
                    assert(a.dom().contains(key) && !b.dom().contains(key));
                    return false;
                },
            }
            i += 1;
        }
        let mut k: usize = 0;
        while k < other.entries.len()
            invariant
                k <= other.entries@.len(),
                a == self@,
                b == other@,
                forall|j: int|
                    #![trigger other.entries@[j]]
                    0 <= j < other.entries@.len() ==> b.contains_key(other.entries@[j].key@),
                forall|j: int|
                    #![trigger other.entries@[j]]
                    0 <= j < k ==> a.contains_key(other.entries@[j].key@),
            decreases other.entries@.len() - k,
        {
            let ghost key = other.entries@[k as int].key@;
            assert(b.contains_key(key));
            if self.get(other.entries[k].key.as_str()).is_none() {
                assert(b.dom().contains(key) && !a.dom().contains(key));
                return false;
            }
            k += 1;
        }
        proof {
            assert(a.dom() =~= b.dom()) by {
                assert forall|key: Seq<char>| a.dom().contains(key) implies b.dom().contains(
                    key,
                ) by {
                    assert(a.contains_key(key));
                    let j = choose|j: int|
                        0 <= j < self.entries@.len() && #[trigger] self.entries@[j].key@ == key;
                }
                assert forall|key: Seq<char>| b.dom().contains(key) implies a.dom().contains(
                    key,
                ) by {
                    assert(b.contains_key(key));
                    let j = choose|j: int|
                        0 <= j < other.entries@.len() && #[trigger] other.entries@[j].key@ == key;
                }
            }
            assert forall|key: Seq<char>| a.contains_key(key) implies json_eq(
                #[trigger] a[key],
                b[key],
            ) by {
                let j = choose|j: int|
                    0 <= j < self.entries@.len() && #[trigger] self.entries@[j].key@ == key;
            }
        }
        true
    }
}

proof fn lemma_entries_view(entries: Seq<Entry>)
    requires
        distinct(entries),
    ensures
        forall|i: int|
            #![trigger entries[i]]
            0 <= i < entries.len() ==> entries_view(entries).contains_key(entries[i].key@)
                && entries_view(entries)[entries[i].key@] == entries[i].value@,
        forall|k: Seq<char>| #[trigger]
            entries_view(entries).contains_key(k) ==> exists|i: int|
                0 <= i < entries.len() && #[trigger] entries[i].key@ == k,
    decreases entries.len(),
{
    if entries.len() > 0 {
        let rest = entries.subrange(0, entries.len() - 1);
        lemma_entries_view(rest);
        assert forall|k: Seq<char>| #[trigger] entries_view(entries).contains_key(k) implies exists|
            i: int,
        |
            0 <= i < entries.len() && #[trigger] entries[i].key@ == k by {
            if k == entries[entries.len() - 1].key@ {
            } else {
                assert(entries_view(rest).contains_key(k));
                let i = choose|i: int| 0 <= i < rest.len() && #[trigger] rest[i].key@ == k;
                assert(entries[i].key@ == k);
            }
        }
        assert forall|i: int|
            #![trigger entries[i]]
            0 <= i < entries.len() implies entries_view(entries).contains_key(entries[i].key@)
            && entries_view(entries)[entries[i].key@] == entries[i].value@ by {
            if i < entries.len() - 1 {
                assert(rest[i] == entries[i]);
            }
        }
    }
}

proof fn lemma_keys(object: &Object)
    requires
        distinct(object.entries@),
    ensures
        lists_keys(object.keys(), object@),
{
    let entries = object.entries@;
    let keys = object.keys();
    lemma_entries_view(entries);
    assert forall|i: int, j: int| 0 <= i < keys.len() && 0 <= j < keys.len() && i != j implies keys[i]
        != keys[j] by {
        if i < j {
            assert(entries[i].key@ != entries[j].key@);
        } else {
            assert(entries[j].key@ != entries[i].key@);
        }
    }
    assert forall|key: Seq<char>| #[trigger] object@.contains_key(key) <==> keys.contains(key) by {
        if object@.contains_key(key) {
            let i = choose|i: int| 0 <= i < entries.len() && #[trigger] entries[i].key@ == key;
            assert(keys[i] == key);
        }
        if keys.contains(key) {
            let i = choose|i: int| 0 <= i < keys.len() && keys[i] == key;
            assert(entries[i].key@ == key);
        }
    }
}

proof fn lemma_replace_entry(entries: Seq<Entry>, i: int, entry: Entry)
    requires
        distinct(entries),
        0 <= i < entries.len(),
        entries[i].key@ == entry.key@,
    ensures
        distinct(entries.update(i, entry)),
        entries_view(entries.update(i, entry)) == entries_view(entries).insert(
            entry.key@,
            entry.value@,
        ),
    decreases entries.len(),
{
    let after = entries.update(i, entry);
    assert forall|x: int, y: int| 0 <= x < y < after.len() implies #[trigger] after[x].key@
        != #[trigger] after[y].key@ by {
        assert(entries[x].key@ != entries[y].key@);
    }
    let last = entries.len() - 1;
    let rest = entries.subrange(0, last);
    if i == last {
        assert(after.subrange(0, last) =~= rest);
        assert(entries_view(after) =~= entries_view(entries).insert(entry.key@, entry.value@));
    } else {
        assert forall|x: int, y: int| 0 <= x < y < rest.len() implies #[trigger] rest[x].key@
            != #[trigger] rest[y].key@ by {
            assert(entries[x].key@ != entries[y].key@);
        }
        lemma_replace_entry(rest, i, entry);
        assert(after.subrange(0, last) =~= rest.update(i, entry));
        assert(entries[i].key@ != entries[last].key@);
        assert(entries_view(after) =~= entries_view(entries).insert(entry.key@, entry.value@));
    }
}

proof fn lemma_same_entries(a: Seq<Entry>, b: Seq<Entry>)
    requires
        a.len() == b.len(),
        forall|j: int|
            0 <= j < a.len() ==> #[trigger] a[j].key@ == b[j].key@ && a[j].value@ == b[j].value@,
    ensures
        entries_view(a) == entries_view(b),
    decreases a.len(),
{
    if a.len() > 0 {
        let ra = a.subrange(0, a.len() - 1);
        let rb = b.subrange(0, b.len() - 1);
        assert forall|j: int| 0 <= j < ra.len() implies #[trigger] ra[j].key@ == rb[j].key@
            && ra[j].value@ == rb[j].value@ by {
            assert(a[j].key@ == b[j].key@);
        }
        lemma_same_entries(ra, rb);
        assert(a[a.len() - 1].key@ == b[a.len() - 1].key@);
    }
}

// ── Copies ──────────────────────────────────────────────────────────────────

fn clone_values(values: &Vec<JsonValue>) -> (r: Vec<JsonValue>)
    ensures
        values_view(r@) == values_view(values@),
    decreases values@,
{
    let mut copy: Vec<JsonValue> = Vec::new();
    let mut i: usize = 0;
    while i < values.len()
        invariant
            i <= values@.len(),
            copy@.len() == i,
            forall|j: int| 0 <= j < i ==> #[trigger] copy@[j]@ == values@[j]@,
        decreases values@.len() - i,
    {
        copy.push(values[i].clone());
        i += 1;
    }
    proof {
        lemma_values_view(copy@);
        lemma_values_view(values@);
        assert(values_view(copy@) =~= values_view(values@));
    }
    copy
}

impl Clone for JsonValue {
    fn clone(&self) -> (r: JsonValue)
        ensures
            r@ == self@,
        decreases self,
    {
        match self {
            JsonValue::Null => JsonValue::Null,
            JsonValue::Bool(b) => JsonValue::Bool(*b),
            JsonValue::Number(n) => JsonValue::Number(*n),
            JsonValue::String(text) => JsonValue::String(text.clone()),
            JsonValue::Array(items) => JsonValue::Array(clone_values(items)),
            JsonValue::Object(object) => JsonValue::Object(object.clone()),
        }
    }
}

impl Clone for Object {
    fn clone(&self) -> (r: Object)
        ensures
            r@ == self@,
        decreases self,
    {
        proof {
            use_type_invariant(self);
        }
        let mut copy: Vec<Entry> = Vec::new();
        let mut i: usize = 0;
        while i < self.entries.len()
            invariant
                i <= self.entries@.len(),
                copy@.len() == i,
                distinct(self.entries@),
                forall|j: int|
                    0 <= j < i ==> #[trigger] copy@[j].key@ == self.entries@[j].key@
                        && copy@[j].value@ == self.entries@[j].value@,
            decreases self.entries@.len() - i,
        {
            copy.push(
                Entry { key: self.entries[i].key.clone(), value: self.entries[i].value.clone() },
            );
            i += 1;
        }
        proof {
            lemma_same_entries(copy@, self.entries@);
            assert forall|x: int, y: int| 0 <= x < y < copy@.len() implies #[trigger] copy@[x].key@
                != #[trigger] copy@[y].key@ by {
                assert(self.entries@[x].key@ != self.entries@[y].key@);
            }
        }
        Object { entries: copy }
    }
}

// ── Laws ────────────────────────────────────────────────────────────────────

/// The member of an object is the value that its key maps to; nothing else has members.
pub proof fn law_members(json: Json, key: Seq<char>)
    ensures
        json matches Json::Object(members) ==> {
            &&& members.contains_key(key) ==> json.get(key) == Some(members[key])
            &&& !members.contains_key(key) ==> json.get(key) is None
        },
        !(json is Object) ==> json.get(key) is None,
        member(Some(json), key) == json.get(key),
        member(None, key) is None,
{
}

/// Only a text has a text, only a list has items, and only an integer has a number, which
/// is then that integer.
pub proof fn law_readings(json: Json, text: Seq<char>, items: Seq<Json>, n: u64, k: i64)
    ensures
        json.as_str() == Some(text) <==> json == Json::String(text),
        json.as_array() == Some(items) <==> json == Json::Array(items),
        json.as_u64() == Some(n) <==> json == Json::Number(Num::Int(n as int)),
        json.as_i64() == Some(k) <==> json == Json::Number(Num::Int(k as int)),
        text_of(Some(json)) == Some(text) <==> json == Json::String(text),
        text_of(None) is None,
{
}

/// Setting a member, or setting it only where it is missing, leaves the other members as
/// they are, and an existing member stays where only a missing one is set.
pub proof fn law_setting_members(
    members: Map<Seq<char>, Json>,
    key: Seq<char>,
    value: Json,
    other: Seq<char>,
)
    ensures
        or_insert(members, key, value).contains_key(key),
        or_insert(members, key, value)[key] == if members.contains_key(key) {
            members[key]
        } else {
            value
        },
        insert_some(members, key, Some(value)).contains_key(key),
        insert_some(members, key, Some(value))[key] == value,
        insert_some(members, key, None) == members,
        other != key ==> {
            &&& or_insert(members, key, value).contains_key(other) == members.contains_key(other)
            &&& insert_some(members, key, Some(value)).contains_key(other) == members.contains_key(
                other,
            )
            &&& members.contains_key(other) ==> or_insert(members, key, value)[other]
                == members[other] && insert_some(members, key, Some(value))[other]
                == members[other]
        },
        !no_members().contains_key(key),
{
}

/// The values that a program holds stand for themselves: nothing, truth values, texts,
/// integers, lists item by item, and objects by their members.
pub proof fn law_values_stand_for_themselves(
    flag: bool,
    text: String,
    positive: u64,
    negative: i64,
    bits: u64,
    items: Vec<JsonValue>,
    members: Object,
)
    ensures
        JsonValue::Null@ == Json::Null,
        JsonValue::Bool(flag)@ == Json::Bool(flag),
        JsonValue::String(text)@ == Json::String(text@),
        JsonValue::Number(Number::PosInt(positive))@ == Json::Number(Num::Int(positive as int)),
        JsonValue::Number(Number::NegInt(negative))@ == Json::Number(Num::Int(negative as int)),
        JsonValue::Number(Number::Float(bits))@ == Json::Number(Num::Float(bits)),
        JsonValue::Array(items)@ matches Json::Array(values) && values.len() == items@.len()
            && forall|i: int| 0 <= i < items@.len() ==> #[trigger] values[i] == items@[i]@,
        JsonValue::Object(members)@ == Json::Object(members@),
        int_json(positive as int) == Json::Number(Num::Int(positive as int)),
        int_json(negative as int) == Json::Number(Num::Int(negative as int)),
{
    lemma_values_view(items@);
}

/// Equality of values goes both ways.
pub proof fn law_json_eq_symmetric(a: Json, b: Json)
    requires
        json_eq(a, b),
    ensures
        json_eq(b, a),
    decreases a,
{
    match (a, b) {
        (Json::Array(xs), Json::Array(ys)) => {
            assert forall|i: int| 0 <= i < ys.len() implies json_eq(#[trigger] ys[i], xs[i]) by {
                assert(json_eq(xs[i], ys[i]));
                law_json_eq_symmetric(xs[i], ys[i]);
            }
        },
        (Json::Object(xs), Json::Object(ys)) => {
            assert forall|k: Seq<char>| ys.contains_key(k) implies json_eq(
                #[trigger] ys[k],
                xs[k],
            ) by {
                assert(xs.dom().contains(k));
                assert(json_eq(xs[k], ys[k]));
                law_json_eq_symmetric(xs[k], ys[k]);
            }
        },
        _ => {},
    }
}

/// A text, a truth value, an integer or nothing equals only itself.
pub proof fn law_plain_values_equal_themselves_only(a: Json, b: Json)
    requires
        !(a is Array),
        !(a is Object),
        !(a matches Json::Number(Num::Float(_))),
    ensures
        json_eq(a, b) <==> a == b,
{
}

/// Two doubles are equal when they have the same bits, or are both a zero; a double
/// equals nothing else.
pub proof fn law_double_equality(bits: u64, b: Json)
    ensures
        json_eq(Json::Number(Num::Float(bits)), b) <==> (b matches Json::Number(Num::Float(other))
            && (bits == other || (bits * 2 % 0x1_0000_0000_0000_0000 == 0 && other * 2
            % 0x1_0000_0000_0000_0000 == 0))),
{
}

/// Lists are equal item by item, and objects member by member.
pub proof fn law_compound_equality(
    xs: Seq<Json>,
    ys: Seq<Json>,
    ms: Map<Seq<char>, Json>,
    ns: Map<Seq<char>, Json>,
    other: Json,
)
    ensures
        json_eq(Json::Array(xs), Json::Array(ys)) <==> (xs.len() == ys.len() && forall|i: int|
            0 <= i < xs.len() ==> json_eq(#[trigger] xs[i], ys[i])),
        json_eq(Json::Object(ms), Json::Object(ns)) <==> (ms.dom() == ns.dom() && forall|
            k: Seq<char>,
        |
            ms.contains_key(k) ==> json_eq(#[trigger] ms[k], ns[k])),
        json_eq(Json::Array(xs), other) ==> other is Array,
        json_eq(Json::Object(ms), other) ==> other is Object,
{
}

/// A value or a text that may be missing stands for what it is, where it is there.
pub proof fn law_optional_values(value: JsonValue, text: String, borrowed: &str)
    ensures
        opt_view(Some(value)) == Some(value@),
        opt_view(None) is None,
        ref_view(Some(&value)) == Some(value@),
        ref_view(None) is None,
        string_view(Some(text)) == Some(text@),
        string_view(None) is None,
        str_view(Some(borrowed)) == Some(borrowed@),
        str_view(None) is None,
{
}

/// The list of an object's keys has every key, and each of them once.
pub proof fn law_keys_are_listed_once(
    keys: Seq<Seq<char>>,
    members: Map<Seq<char>, Json>,
    i: int,
    j: int,
    key: Seq<char>,
)
    requires
        lists_keys(keys, members),
        0 <= i < keys.len(),
        0 <= j < keys.len(),
    ensures
        keys[i] == keys[j] <==> i == j,
        members.contains_key(keys[i]),
        members.contains_key(key) ==> exists|k: int| 0 <= k < keys.len() && #[trigger] keys[k]
            == key,
{
    assert(keys.contains(keys[i]));
}

} // verus!
