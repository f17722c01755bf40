use crate::util::decimal::{parse_index, parsed_index};
use serde_json::Value;
use vstd::prelude::*;
use vstd::string::*;

verus! {

/// A JSON document held as a tree of plain values.
///
/// A number without fraction or exponent that fits in 64 bits, signed or
/// unsigned, is an `Int`. Any other number is a `Real`: its IEEE 754
/// double-precision bit pattern, and beside it the integer that the number
/// becomes when its fraction is cut off and the result is kept within 64
/// signed bits.
/// An object keeps its members in the order of the document.
#[derive(Debug, PartialEq, Eq)]
pub enum Json {
    Null,
    Bool(bool),
    Int(i128),
    Real(u64, i64),
    Str(String),
    Array(Vec<Json>),
    Object(Vec<(String, Json)>),
}

/// The mathematical value of a `Json` tree.
pub enum JsonView {
    Null,
    Bool(bool),
    Int(i128),
    Real(u64, i64),
    Str(Seq<char>),
    Array(Seq<JsonView>),
    Object(Seq<(Seq<char>, JsonView)>),
}

/// The value of a tree: that of each node, with its children's values.
pub open spec fn value_of(json: Json) -> JsonView
    decreases json,
{
    match json {
        Json::Null => JsonView::Null,
        Json::Bool(b) => JsonView::Bool(b),
        Json::Int(i) => JsonView::Int(i),
        Json::Real(bits, whole) => JsonView::Real(bits, whole),
        Json::Str(s) => JsonView::Str(s@),
        Json::Array(items) => JsonView::Array(
            Seq::new(
                items.len() as nat,
                |i: int|
                    if 0 <= i < items.len() {
                        value_of(items[i])
                    } else {
                        JsonView::Null
                    },
            ),
        ),
        Json::Object(members) => JsonView::Object(
            Seq::new(
                members.len() as nat,
                |i: int|
                    if 0 <= i < members.len() {
                        (members[i].0@, value_of(members[i].1))
                    } else {
                        (Seq::empty(), JsonView::Null)
                    },
            ),
        ),
    }
}

impl View for Json {
    type V = JsonView;

    open spec fn view(&self) -> JsonView {
        value_of(*self)
    }
}

impl DeepView for Json {
    type V = JsonView;

    open spec fn deep_view(&self) -> JsonView {
        value_of(*self)
    }
}

/// The view of an array is the sequence of its elements' views.
pub proof fn lemma_array_view(items: Vec<Json>)
    ensures
        Json::Array(items)@ is Array,
        Json::Array(items)@->Array_0.len() == items.len(),
        forall|i: int|
            0 <= i < items.len() ==> (#[trigger] Json::Array(items)@->Array_0[i]) == items[i]@,
{
}

/// The view of an object is the sequence of its members' names and views.
pub proof fn lemma_object_view(members: Vec<(String, Json)>)
    ensures
        Json::Object(members)@ is Object,
        Json::Object(members)@->Object_0.len() == members.len(),
        forall|i: int|
            0 <= i < members.len() ==> (#[trigger] Json::Object(members)@->Object_0[i]) == (
                members[i].0@,
                members[i].1@,
            ),
{
}

/// The value behind an optional reference into a tree.
pub open spec fn view_of(found: Option<&Json>) -> Option<JsonView> {
    match found {
        Some(json) => Some(json@),
        None => None,
    }
}

/// The value of the first member named `key`.
pub open spec fn find_member(members: Seq<(Seq<char>, JsonView)>, key: Seq<char>) -> Option<
    JsonView,
>
    decreases members.len(),
{
    if members.len() == 0 {
        None
    } else if members[0].0 == key {
        Some(members[0].1)
    } else {
        find_member(members.skip(1), key)
    }
}

/// The pieces of `path` between its dots. There is always at least one; a
/// path that ends in a dot ends in an empty piece.
pub open spec fn split_dots(path: Seq<char>) -> Seq<Seq<char>>
    decreases path.len(),
{
    if path.len() == 0 {
        seq![Seq::empty()]
    } else {
        let before = split_dots(path.drop_last());
        if path.last() == '.' {
            before.push(Seq::empty())
        } else {
            before.drop_last().push(before.last().push(path.last()))
        }
    }
}

impl JsonView {
    /// The member of an object named `key`; nothing for any other value.
    pub open spec fn member(self, key: Seq<char>) -> Option<JsonView> {
        match self {
            JsonView::Object(members) => find_member(members, key),
            _ => None,
        }
    }

    /// The element of an array at `index`; nothing for any other value.
    pub open spec fn element(self, index: int) -> Option<JsonView> {
        match self {
            JsonView::Array(items) => if 0 <= index < items.len() {
                Some(items[index])
            } else {
                None
            },
            _ => None,
        }
    }

    /// One step down the tree: into an array by a decimal index, into
    /// anything else by a member's name.
    pub open spec fn step(self, piece: Seq<char>) -> Option<JsonView> {
        if self is Array {
            match parsed_index(piece) {
                Some(index) => self.element(index as int),
                None => None,
            }
        } else {
            self.member(piece)
        }
    }

    /// The value reached by taking `pieces` as steps, one after another.
    pub open spec fn walk(self, pieces: Seq<Seq<char>>) -> Option<JsonView>
        decreases pieces.len(),
    {
        if pieces.len() == 0 {
            Some(self)
        } else {
            match self.walk(pieces.drop_last()) {
                Some(reached) => reached.step(pieces.last()),
                None => None,
            }
        }
    }

    /// The value at a dotted path; the empty path is the value itself.
    pub open spec fn property(self, path: Seq<char>) -> Option<JsonView> {
        if path.len() == 0 {
            Some(self)
        } else {
            self.walk(split_dots(path))
        }
    }

    /// The integer, if the value is one that fits in 64 signed bits.
    pub open spec fn signed(self) -> Option<i64> {
        match self {
            JsonView::Int(i) => if i64::MIN <= i <= i64::MAX {
                Some(i as i64)
            } else {
                None
            },
            _ => None,
        }
    }

    pub open spec fn text(self) -> Option<Seq<char>> {
        match self {
            JsonView::Str(s) => Some(s),
            _ => None,
        }
    }

    /// The integer that a number stands for, kept within 64 signed bits:
    /// an `Int` itself, a `Real` cut down to its whole part.
    pub open spec fn whole(self) -> Option<i64> {
        match self {
            JsonView::Int(i) => Some(
                if i < i64::MIN {
                    i64::MIN
                } else if i > i64::MAX {
                    i64::MAX
                } else {
                    i as i64
                },
            ),
            JsonView::Real(_, whole) => Some(whole),
            _ => None,
        }
    }
}

/// The integer at a path, if a number stands there.
pub open spec fn whole_at(json: JsonView, path: Seq<char>) -> Option<i64> {
    match json.property(path) {
        Some(found) => found.whole(),
        None => None,
    }
}

/// The text at a path, if a string stands there.
pub open spec fn text_at(json: JsonView, path: Seq<char>) -> Option<Seq<char>> {
    match json.property(path) {
        Some(found) => found.text(),
        None => None,
    }
}

/// The document type of `serde_json`, carried through as it is.
#[verifier::external_type_specification]
#[verifier::external_body]
pub struct ExValue(serde_json::Value);

/// The document that `bytes` hold as JSON text, if they hold one.
pub uninterp spec fn parsed_json(bytes: Seq<u8>) -> Option<JsonView>;

/// The document that a `serde_json::Value` holds, as a tree of plain values:
/// node for node, with the members of an object in the order in which the
/// value hands them out.
pub uninterp spec fn value_json(value: serde_json::Value) -> JsonView;

/// `serde_json::from_slice` to a `serde_json::Value`: succeeds exactly on
/// the byte strings that hold one JSON document, and then returns it.
#[verifier::external_body]
fn value_from_slice(bytes: &[u8]) -> (r: Option<serde_json::Value>)
    ensures
        match r {
            Some(value) => parsed_json(bytes@) == Some(value_json(value)),
            None => parsed_json(bytes@).is_none(),
        },
{
    serde_json::from_slice::<serde_json::Value>(bytes).ok()
}

/// Copies a `serde_json::Value` into a `Json`, variant by variant. Of a
/// number it takes `as_i128` where that is given, else `as_f64`.
#[verifier::external_body]
pub(crate) fn json_from_value(value: &serde_json::Value) -> (r: Json)
    ensures
        r@ == value_json(*value),
{
    match value {
        Value::Null => Json::Null,
        Value::Bool(b) => Json::Bool(*b),
        Value::Number(n) => match (n.as_i128(), n.as_f64()) {
            (Some(i), _) => Json::Int(i),
            (_, Some(f)) => Json::Real(f.to_bits(), f as i64),
            _ => Json::Null,
        },
        Value::String(s) => Json::Str(s.clone()),
        Value::Array(a) => Json::Array(a.iter().map(json_from_value).collect()),
        Value::Object(m) => Json::Object(
            m.iter().map(|(k, v)| (k.clone(), json_from_value(v))).collect(),
        ),
    }
}

impl Json {
    /// Reads one JSON document from its text.
    pub fn parse(bytes: &[u8]) -> (r: Option<Json>)
        ensures
            r.deep_view() == parsed_json(bytes@),
    {
        match value_from_slice(bytes) {
            Some(value) => Some(json_from_value(&value)),
            None => None,
        }
    }

    /// A copy of the whole tree.
    pub fn duplicate(&self) -> (r: Json)
        ensures
            r@ == self@,
        decreases self,
    {
        match self {
            Json::Null => Json::Null,
            Json::Bool(b) => Json::Bool(*b),
            Json::Int(i) => Json::Int(*i),
            Json::Real(bits, whole) => Json::Real(*bits, *whole),
            Json::Str(s) => Json::Str(s.clone()),
            Json::Array(items) => {
                let mut copies: Vec<Json> = Vec::new();
                let mut i: usize = 0;
                while i < items.len()
                    invariant
                        i <= items.len(),
                        *self == Json::Array(*items),
                        copies.len() == i,
                        forall|k: int| 0 <= k < i ==> (#[trigger] copies[k])@ == items[k]@,
                    decreases items.len() - i,
                {
                    assert(decreases_to!(*self => self->Array_0));
                    copies.push(items[i].duplicate());
                    i += 1;
                }
                proof {
                    lemma_array_view(*items);
                    lemma_array_view(copies);
                    assert(Json::Array(copies)@->Array_0 =~= self@->Array_0);
                }
                Json::Array(copies)
            },
            Json::Object(members) => {
                let mut copies: Vec<(String, Json)> = Vec::new();
                let mut i: usize = 0;
                while i < members.len()
                    invariant
                        i <= members.len(),
                        *self == Json::Object(*members),
                        copies.len() == i,
                        forall|k: int|
                            0 <= k < i ==> (#[trigger] copies[k]).0@ == members[k].0@
                                && copies[k].1@ == members[k].1@,
                    decreases members.len() - i,
                {
                    assert(decreases_to!(*self => self->Object_0));
                    copies.push((members[i].0.clone(), members[i].1.duplicate()));
                    i += 1;
                }
                proof {
                    lemma_object_view(*members);
                    lemma_object_view(copies);
                    assert(Json::Object(copies)@->Object_0 =~= self@->Object_0);
                }
                Json::Object(copies)
            },
        }
    }

    pub fn is_null(&self) -> (r: bool)
        ensures
            r == (self@ is Null),
    {
        match self {
            Json::Null => true,
            _ => false,
        }
    }

    pub fn is_array(&self) -> (r: bool)
        ensures
            r == (self@ is Array),
    {
        match self {
            Json::Array(_) => true,
            _ => false,
        }
    }

    pub fn as_bool(&self) -> (r: Option<bool>)
        ensures
            r == match self@ {
                JsonView::Bool(b) => Some(b),
                _ => None,
            },
    {
        match self {
            Json::Bool(b) => Some(*b),
            _ => None,
        }
    }

    /// The integer, if the value is one that fits in 64 signed bits.
    pub fn as_i64(&self) -> (r: Option<i64>)
        ensures
            r == self@.signed(),
    {
        match self {
            Json::Int(i) => if i64::MIN as i128 <= *i && *i <= i64::MAX as i128 {
                Some(*i as i64)
            } else {
                None
            },
            _ => None,
        }
    }

    /// The integer that a number stands for, kept within 64 signed bits.
    pub fn as_whole(&self) -> (r: Option<i64>)
        ensures
            r == self@.whole(),
    {
        match self {
            Json::Int(i) => Some(
                if *i < i64::MIN as i128 {
                    i64::MIN
                } else if *i > i64::MAX as i128 {
                    i64::MAX
                } else {
                    *i as i64
                },
            ),
            Json::Real(_, whole) => Some(*whole),
            _ => None,
        }
    }

    pub fn as_str(&self) -> (r: Option<&str>)
        ensures
            r.deep_view() == self@.text(),
    {
        match self {
            Json::Str(s) => Some(s.as_str()),
            _ => None,
        }
    }

    pub fn as_array(&self) -> (r: Option<&Vec<Json>>)
        ensures
            match r {
                Some(items) => *self == Json::Array(*items),
                None => !(self@ is Array),
            },
    {
        match self {
            Json::Array(items) => Some(items),
            _ => None,
        }
    }

    pub fn as_object(&self) -> (r: Option<&Vec<(String, Json)>>)
        ensures
            match r {
                Some(members) => *self == Json::Object(*members),
                None => !(self@ is Object),
            },
    {
        match self {
            Json::Object(members) => Some(members),
            _ => None,
        }
    }

    /// The first member of an object named `key`.
    pub fn get(&self, key: &str) -> (r: Option<&Json>)
        ensures
            view_of(r) == self@.member(key@),
    {
        match self {
            Json::Object(members) => {
                let wanted = key.to_owned();
                let ghost all = self@->Object_0;
                let mut i: usize = 0;
                proof {
                    lemma_object_view(*members);
                    assert(all.skip(0) =~= all);
                }
                while i < members.len()
                    invariant
                        i <= members.len(),
                        wanted@ == key@,
                        *self == Json::Object(*members),
                        all == self@->Object_0,
                        all.len() == members.len(),
                        forall|j: int|
                            0 <= j < members.len() ==> (#[trigger] all[j]) == (
                                members[j].0@,
                                members[j].1@,
                            ),
                        find_member(all, key@) == find_member(all.skip(i as int), key@),
                    decreases members.len() - i,
                {
                    assert(all.skip(i as int)[0] == all[i as int]);
                    assert(all.skip(i as int).skip(1) =~= all.skip(i + 1));
                    if members[i].0 == wanted {
                        return Some(&members[i].1);
                    }
                    i += 1;
                }
                None
            },
            _ => None,
        }
    }

    /// The element of an array at `index`.
    pub fn get_index(&self, index: usize) -> (r: Option<&Json>)
        ensures
            view_of(r) == self@.element(index as int),
    {
        match self {
            Json::Array(items) => {
                proof {
                    lemma_array_view(*items);
                }
                if index < items.len() {
                    Some(&items[index])
                } else {
                    None
                }
            },
            _ => None,
        }
    }

    fn step(&self, piece: &str) -> (r: Option<&Json>)
        ensures
            view_of(r) == self@.step(piece@),
    {
        if self.is_array() {
            match parse_index(piece) {
                Some(index) => self.get_index(index),
                None => None,
            }
        } else {
            self.get(piece)
        }
    }

    /// The value at a dotted path such as `stats.games.0.name`: each piece
    /// names a member of an object or, in decimal, an element of an array.
    pub fn get_property(&self, full_path: &str) -> (r: Option<&Json>)
        ensures
            view_of(r) == self@.property(full_path@),
    {
        let n = full_path.unicode_len();
        if n == 0 {
            return Some(self);
        }
        let mut cur: Option<&Json> = Some(self);
        let mut start: usize = 0;
        let mut i: usize = 0;
        assert(full_path@.take(0) =~= Seq::<char>::empty());
        assert(split_dots(full_path@.take(0)).drop_last() =~= Seq::<Seq<char>>::empty());
        assert(full_path@.subrange(0, 0) =~= Seq::<char>::empty());
        while i < n
            invariant
                start <= i <= n,
                n == full_path@.len(),
                split_dots(full_path@.take(i as int)).len() >= 1,
                split_dots(full_path@.take(i as int)).last() == full_path@.subrange(
                    start as int,
                    i as int,
                ),
                view_of(cur) == self@.walk(split_dots(full_path@.take(i as int)).drop_last()),
            decreases n - i,
        {
            let ghost before = split_dots(full_path@.take(i as int));
            let ghost after = split_dots(full_path@.take(i + 1));
            assert(full_path@.take(i + 1).drop_last() =~= full_path@.take(i as int));
            assert(full_path@.take(i + 1).last() == full_path@[i as int]);
            if full_path.get_char(i) == '.' {
                let piece = full_path.substring_char(start, i);
                assert(after == before.push(Seq::empty()));
                assert(after.drop_last() =~= before);
                cur =
                match cur {
                    Some(reached) => reached.step(piece),
                    None => None,
                };
                start = i + 1;
                assert(full_path@.subrange(start as int, i + 1) =~= Seq::<char>::empty());
            } else {
                assert(after == before.drop_last().push(before.last().push(full_path@[i as int])));
                assert(after.drop_last() =~= before.drop_last());
                assert(full_path@.subrange(start as int, i + 1) =~= full_path@.subrange(
                    start as int,
                    i as int,
                ).push(full_path@[i as int]));
            }
            i += 1;
        }
        assert(full_path@.take(n as int) =~= full_path@);
        let piece = full_path.substring_char(start, n);
        match cur {
            Some(reached) => reached.step(piece),
            None => None,
        }
    }

    /// The text at a path, if a string stands there.
    pub fn get_str_property(&self, full_path: &str) -> (r: Option<&str>)
        ensures
            r.deep_view() == text_at(self@, full_path@),
    {
        match self.get_property(full_path) {
            Some(found) => found.as_str(),
            None => None,
        }
    }

    /// A copy of the text at a path, if a string stands there.
    pub fn get_string_property(&self, full_path: &str) -> (r: Option<String>)
        ensures
            r.deep_view() == text_at(self@, full_path@),
    {
        match self.get_str_property(full_path) {
            Some(s) => Some(s.to_owned()),
            None => None,
        }
    }

    /// The integer at a path, if a number stands there; a number that is
    /// not an integer gives its whole part.
    pub fn get_int_property(&self, full_path: &str) -> (r: Option<i64>)
        ensures
            r == whole_at(self@, full_path@),
    {
        match self.get_property(full_path) {
            Some(found) => found.as_whole(),
            None => None,
        }
    }

    /// The elements at a path, if an array stands there.
    pub fn get_array_property(&self, full_path: &str) -> (r: Option<&Vec<Json>>)
        ensures
            match r {
                Some(items) => self@.property(full_path@) == Some(Json::Array(*items)@),
                None => !(self@.property(full_path@) matches Some(found) && found is Array),
            },
    {
        match self.get_property(full_path) {
            Some(found) => found.as_array(),
            None => None,
        }
    }

    /// The members at a path, if an object stands there.
    pub fn get_object_property(&self, full_path: &str) -> (r: Option<&Vec<(String, Json)>>)
        ensures
            match r {
                Some(members) => self@.property(full_path@) == Some(Json::Object(*members)@),
                None => !(self@.property(full_path@) matches Some(found) && found is Object),
            },
    {
        match self.get_property(full_path) {
            Some(found) => found.as_object(),
            None => None,
        }
    }
}

/// Something that holds a JSON document.
pub trait Raw {
    /// The document held.
    spec fn raw_view(&self) -> JsonView;

    fn raw(&self) -> (r: &Json)
        ensures
            r@ == self.raw_view(),
    ;
}

impl Raw for Json {
    open spec fn raw_view(&self) -> JsonView {
        self@
    }

    fn raw(&self) -> (r: &Json) {
        self
    }
}

/// Access by dotted path to the document that something holds.
pub trait Property: Raw {
    fn get_property(&self, full_path: &str) -> (r: Option<&Json>)
        ensures
            view_of(r) == self.raw_view().property(full_path@),
    ;

    fn get_str_property(&self, full_path: &str) -> (r: Option<&str>)
        ensures
            r.deep_view() == text_at(self.raw_view(), full_path@),
    ;

    fn get_string_property(&self, full_path: &str) -> (r: Option<String>)
        ensures
            r.deep_view() == text_at(self.raw_view(), full_path@),
    ;

    fn get_int_property(&self, full_path: &str) -> (r: Option<i64>)
        ensures
            r == whole_at(self.raw_view(), full_path@),
    ;

    fn get_array_property(&self, full_path: &str) -> (r: Option<&Vec<Json>>)
        ensures
            match r {
                Some(items) => self.raw_view().property(full_path@) == Some(Json::Array(*items)@),
                None => !(self.raw_view().property(full_path@) matches Some(found)
                    && found is Array),
            },
    ;

    fn get_object_property(&self, full_path: &str) -> (r: Option<&Vec<(String, Json)>>)
        ensures
            match r {
                Some(members) => self.raw_view().property(full_path@) == Some(
                    Json::Object(*members)@,
                ),
                None => !(self.raw_view().property(full_path@) matches Some(found)
                    && found is Object),
            },
    ;
}

impl<T: Raw> Property for T {
    fn get_property(&self, full_path: &str) -> (r: Option<&Json>) {
        self.raw().get_property(full_path)
    }

    fn get_str_property(&self, full_path: &str) -> (r: Option<&str>) {
        self.raw().get_str_property(full_path)
    }

    fn get_string_property(&self, full_path: &str) -> (r: Option<String>) {
        self.raw().get_string_property(full_path)
    }

    fn get_int_property(&self, full_path: &str) -> (r: Option<i64>) {
        self.raw().get_int_property(full_path)
    }

    fn get_array_property(&self, full_path: &str) -> (r: Option<&Vec<Json>>) {
        self.raw().get_array_property(full_path)
    }

    fn get_object_property(&self, full_path: &str) -> (r: Option<&Vec<(String, Json)>>) {
        self.raw().get_object_property(full_path)
    }
}

} // verus!
