use crate::util::error::{Error, ErrorView};
use crate::util::generic_json::{lemma_array_view, lemma_object_view, Json, JsonView};
use crate::util::text::{append_natural, decimal_text};
use vstd::prelude::*;
use vstd::string::*;

verus! {

/// The path of a member below `prefix`: the two joined by a dot, or
/// `prefix` alone where `rest` is empty.
pub open spec fn join_path(prefix: Seq<char>, rest: Seq<char>) -> Seq<char> {
    if rest.len() == 0 {
        prefix
    } else {
        prefix + "."@ + rest
    }
}

/// Whether the outcome of a decoder is the one expected: the value with the
/// expected view, or a `Parse` error that holds the expected path.
pub open spec fn agrees<T: DeepView>(
    outcome: Result<T, Error>,
    expected: Result<T::V, Seq<char>>,
) -> bool {
    match outcome {
        Ok(value) => expected == Ok::<T::V, Seq<char>>(value.deep_view()),
        Err(error) => expected is Err && error@ == ErrorView::Parse(expected->Err_0),
    }
}

/// A type that can be read from a JSON document.
pub trait Decode: Sized + DeepView {
    /// What a document decodes to: the value, or the path of the first
    /// member that does not have the expected shape. The empty path stands
    /// for the document itself.
    spec fn decoded(json: JsonView) -> Result<Self::V, Seq<char>>;

    fn decode(json: &Json) -> (r: Result<Self, Error>)
        ensures
            agrees(r, Self::decoded(json@)),
    ;
}

/// The error for a value that does not have the expected shape.
pub fn mismatch<T: DeepView>() -> (r: Result<T, Error>)
    ensures
        r is Err,
        r->Err_0@ == ErrorView::Parse(Seq::<char>::empty()),
{
    Err(Error::Parse(String::new()))
}

/// Puts `prefix` before the path of a `Parse` error.
pub fn below(prefix: &str, error: Error) -> (r: Error)
    ensures
        r@ == match error@ {
            ErrorView::Parse(rest) => ErrorView::Parse(join_path(prefix@, rest)),
            other => other,
        },
{
    match error {
        Error::Parse(rest) => {
            let mut path = String::from_str(prefix);
            if rest.as_str().unicode_len() > 0 {
                path.append(".");
                path.append(rest.as_str());
            }
            Error::Parse(path)
        },
        other => other,
    }
}

impl Decode for Json {
    /// Every document is itself a value.
    open spec fn decoded(json: JsonView) -> Result<JsonView, Seq<char>> {
        Ok(json)
    }

    fn decode(json: &Json) -> (r: Result<Json, Error>) {
        Ok(json.duplicate())
    }
}

impl Decode for bool {
    open spec fn decoded(json: JsonView) -> Result<bool, Seq<char>> {
        match json {
            JsonView::Bool(b) => Ok(b),
            _ => Err(Seq::empty()),
        }
    }

    fn decode(json: &Json) -> (r: Result<bool, Error>) {
        match json {
            Json::Bool(b) => Ok(*b),
            _ => mismatch(),
        }
    }
}

impl Decode for i64 {
    /// Only an integer that fits in 64 signed bits.
    open spec fn decoded(json: JsonView) -> Result<i64, Seq<char>> {
        match json.signed() {
            Some(i) => Ok(i),
            None => Err(Seq::empty()),
        }
    }

    fn decode(json: &Json) -> (r: Result<i64, Error>) {
        match json.as_i64() {
            Some(i) => Ok(i),
            None => mismatch(),
        }
    }
}

impl Decode for String {
    open spec fn decoded(json: JsonView) -> Result<Seq<char>, Seq<char>> {
        match json {
            JsonView::Str(s) => Ok(s),
            _ => Err(Seq::empty()),
        }
    }

    fn decode(json: &Json) -> (r: Result<String, Error>) {
        match json {
            Json::Str(s) => Ok(s.clone()),
            _ => mismatch(),
        }
    }
}

/// What the elements of an array decode to: all their values, or the path
/// of the first mismatch, which starts with the index of its element.
pub open spec fn decoded_items<T: Decode>(items: Seq<JsonView>) -> Result<Seq<T::V>, Seq<char>>
    decreases items.len(),
{
    if items.len() == 0 {
        Ok(Seq::empty())
    } else {
        match decoded_items::<T>(items.drop_last()) {
            Err(path) => Err(path),
            Ok(before) => match T::decoded(items.last()) {
                Err(path) => Err(join_path(decimal_text(items.len() - 1), path)),
                Ok(value) => Ok(before.push(value)),
            },
        }
    }
}

impl<T: Decode> Decode for Vec<T> {
    open spec fn decoded(json: JsonView) -> Result<Seq<T::V>, Seq<char>> {
        match json {
            JsonView::Array(items) => decoded_items::<T>(items),
            _ => Err(Seq::empty()),
        }
    }

    fn decode(json: &Json) -> (r: Result<Vec<T>, Error>) {
        match json {
            Json::Array(items) => {
                proof {
                    lemma_array_view(*items);
                }
                let ghost all = json@->Array_0;
                let mut values: Vec<T> = Vec::new();
                let mut i: usize = 0;
                assert(all.take(0) =~= Seq::<JsonView>::empty());
                assert(values.deep_view() =~= Seq::<T::V>::empty());
                while i < items.len()
                    invariant
                        i <= items.len(),
                        all.len() == items.len(),
                        json@ == JsonView::Array(all),
                        forall|k: int| 0 <= k < items.len() ==> (#[trigger] all[k]) == items[k]@,
                        decoded_items::<T>(all.take(i as int)) == Ok::<Seq<T::V>, Seq<char>>(
                            values.deep_view(),
                        ),
                    decreases items.len() - i,
                {
                    assert(all.take(i + 1).drop_last() =~= all.take(i as int));
                    assert(all.take(i + 1).last() == all[i as int]);
                    match T::decode(&items[i]) {
                        Ok(value) => {
                            let ghost before = values.deep_view();
                            values.push(value);
                            assert(values.deep_view() =~= before.push(value.deep_view()));
                        },
                        Err(error) => {
                            let mut index = String::new();
                            append_natural(&mut index, i as u64);
                            assert(index@ =~= decimal_text(i as int));
                            proof {
                                lemma_decoded_items_fails::<T>(all, i + 1);
                            }
                            return Err(below(index.as_str(), error));
                        },
                    }
                    i += 1;
                }
                assert(all.take(i as int) =~= all);
                Ok(values)
            },
            _ => mismatch(),
        }
    }
}

/// A mismatch among the first `upto` elements is the mismatch of the whole.
pub proof fn lemma_decoded_items_fails<T: Decode>(items: Seq<JsonView>, upto: int)
    requires
        0 <= upto <= items.len(),
        decoded_items::<T>(items.take(upto)) is Err,
    ensures
        decoded_items::<T>(items) == decoded_items::<T>(items.take(upto)),
    decreases items.len() - upto,
{
    if upto == items.len() {
        assert(items.take(upto) =~= items);
    } else {
        assert(items.take(upto + 1).drop_last() =~= items.take(upto));
        lemma_decoded_items_fails::<T>(items, upto + 1);
    }
}

/// A type that can be read from the name of an object's member.
pub trait DecodeKey: Sized + DeepView {
    /// What a name decodes to, if it fits.
    spec fn key_decoded(name: Seq<char>) -> Option<Self::V>;

    fn decode_key(name: &str) -> (r: Option<Self>)
        ensures
            match r {
                Some(key) => Self::key_decoded(name@) == Some(key.deep_view()),
                None => Self::key_decoded(name@).is_none(),
            },
    ;
}

impl DecodeKey for String {
    open spec fn key_decoded(name: Seq<char>) -> Option<Seq<char>> {
        Some(name)
    }

    fn decode_key(name: &str) -> (r: Option<String>) {
        Some(name.to_owned())
    }
}

/// An object whose members all hold one kind of value, kept as the list of
/// its members in the order of the document.
#[derive(Debug, PartialEq, Eq)]
pub struct Table<K, V> {
    pub entries: Vec<(K, V)>,
}

impl<K: DeepView, V: DeepView> DeepView for Table<K, V> {
    type V = Seq<(K::V, V::V)>;

    open spec fn deep_view(&self) -> Seq<(K::V, V::V)> {
        self.entries.deep_view()
    }
}

impl<K: DeepView, V: DeepView> Table<K, V> {
    /// A table without members.
    pub fn new() -> (r: Self)
        ensures
            r.deep_view() == Seq::<(K::V, V::V)>::empty(),
    {
        let r = Table { entries: Vec::new() };
        assert(r.deep_view() =~= Seq::<(K::V, V::V)>::empty());
        r
    }
}

/// What the members of an object decode to: all their names and values, or
/// the path of the first mismatch, which starts with the name of its member.
pub open spec fn decoded_entries<K: DecodeKey, V: Decode>(members: Seq<(Seq<char>, JsonView)>)
    -> Result<Seq<(K::V, V::V)>, Seq<char>>
    decreases members.len(),
{
    if members.len() == 0 {
        Ok(Seq::empty())
    } else {
        match decoded_entries::<K, V>(members.drop_last()) {
            Err(path) => Err(path),
            Ok(before) => match K::key_decoded(members.last().0) {
                None => Err(members.last().0),
                Some(key) => match V::decoded(members.last().1) {
                    Err(path) => Err(join_path(members.last().0, path)),
                    Ok(value) => Ok(before.push((key, value))),
                },
            },
        }
    }
}

/// A mismatch among the first `upto` members is the mismatch of the whole.
pub proof fn lemma_decoded_entries_fails<K: DecodeKey, V: Decode>(
    members: Seq<(Seq<char>, JsonView)>,
    upto: int,
)
    requires
        0 <= upto <= members.len(),
        decoded_entries::<K, V>(members.take(upto)) is Err,
    ensures
        decoded_entries::<K, V>(members) == decoded_entries::<K, V>(members.take(upto)),
    decreases members.len() - upto,
{
    if upto == members.len() {
        assert(members.take(upto) =~= members);
    } else {
        assert(members.take(upto + 1).drop_last() =~= members.take(upto));
        lemma_decoded_entries_fails::<K, V>(members, upto + 1);
    }
}

impl<K: DecodeKey, V: Decode> Decode for Table<K, V> {
    open spec fn decoded(json: JsonView) -> Result<Seq<(K::V, V::V)>, Seq<char>> {
        match json {
            JsonView::Object(members) => decoded_entries::<K, V>(members),
            _ => Err(Seq::empty()),
        }
    }

    fn decode(json: &Json) -> (r: Result<Table<K, V>, Error>) {
        match json {
            Json::Object(members) => {
                proof {
                    lemma_object_view(*members);
                }
                let ghost all = json@->Object_0;
                let mut entries: Vec<(K, V)> = Vec::new();
                let mut i: usize = 0;
                assert(all.take(0) =~= Seq::<(Seq<char>, JsonView)>::empty());
                assert(entries.deep_view() =~= Seq::<(K::V, V::V)>::empty());
                while i < members.len()
                    invariant
                        i <= members.len(),
                        all.len() == members.len(),
                        json@ == JsonView::Object(all),
                        forall|k: int|
                            0 <= k < members.len() ==> (#[trigger] all[k]) == (
                                members[k].0@,
                                members[k].1@,
                            ),
                        decoded_entries::<K, V>(all.take(i as int)) == Ok::<
                            Seq<(K::V, V::V)>,
                            Seq<char>,
                        >(entries.deep_view()),
                    decreases members.len() - i,
                {
                    assert(all.take(i + 1).drop_last() =~= all.take(i as int));
                    assert(all.take(i + 1).last() == all[i as int]);
                    let name = members[i].0.as_str();
                    let key = match K::decode_key(name) {
                        Some(key) => key,
                        None => {
                            proof {
                                lemma_decoded_entries_fails::<K, V>(all, i + 1);
                            }
                            return Err(Error::Parse(name.to_owned()));
                        },
                    };
                    match V::decode(&members[i].1) {
                        Ok(value) => {
                            let ghost before = entries.deep_view();
                            entries.push((key, value));
                            assert(entries.deep_view() =~= before.push(
                                (key.deep_view(), value.deep_view()),
                            ));
                        },
                        Err(error) => {
                            proof {
                                lemma_decoded_entries_fails::<K, V>(all, i + 1);
                            }
                            return Err(below(name, error));
                        },
                    }
                    i += 1;
                }
                assert(all.take(i as int) =~= all);
                Ok(Table { entries })
            },
            _ => mismatch(),
        }
    }
}

/// What a member that must be there decodes to. A missing member is a
/// mismatch at its own name.
pub open spec fn decoded_member<T: Decode>(json: JsonView, name: Seq<char>) -> Result<
    T::V,
    Seq<char>,
> {
    match json.member(name) {
        None => Err(name),
        Some(child) => match T::decoded(child) {
            Ok(value) => Ok(value),
            Err(path) => Err(join_path(name, path)),
        },
    }
}

/// What a member that may be missing decodes to: nothing where it is
/// missing or null.
pub open spec fn decoded_optional<T: Decode>(json: JsonView, name: Seq<char>) -> Result<
    Option<T::V>,
    Seq<char>,
> {
    match json.member(name) {
        None => Ok(None),
        Some(JsonView::Null) => Ok(None),
        Some(child) => match T::decoded(child) {
            Ok(value) => Ok(Some(value)),
            Err(path) => Err(join_path(name, path)),
        },
    }
}

/// What a member with a fallback decodes to: the fallback where the
/// member is missing or null.
pub open spec fn decoded_or<T: Decode>(json: JsonView, name: Seq<char>, fallback: T::V) -> Result<
    T::V,
    Seq<char>,
> {
    match json.member(name) {
        None => Ok(fallback),
        Some(JsonView::Null) => Ok(fallback),
        Some(child) => match T::decoded(child) {
            Ok(value) => Ok(value),
            Err(path) => Err(join_path(name, path)),
        },
    }
}

/// What a value with a fallback decodes to: the fallback where it is null.
pub open spec fn decoded_null_default<T: Decode>(json: JsonView, fallback: T::V) -> Result<
    T::V,
    Seq<char>,
> {
    match json {
        JsonView::Null => Ok(fallback),
        _ => T::decoded(json),
    }
}

/// Reads a value, or takes the fallback where the value is null.
pub fn deserialize_null_default<T: Decode>(json: &Json, fallback: T) -> (r: Result<T, Error>)
    ensures
        agrees(r, decoded_null_default::<T>(json@, fallback.deep_view())),
{
    if json.is_null() {
        Ok(fallback)
    } else {
        T::decode(json)
    }
}

/// Reads a member, or takes the fallback where the member is missing or null.
pub fn member_or<T: Decode>(json: &Json, name: &str, fallback: T) -> (r: Result<T, Error>)
    ensures
        agrees(r, decoded_or::<T>(json@, name@, fallback.deep_view())),
{
    match json.get(name) {
        None => Ok(fallback),
        Some(child) => {
            if child.is_null() {
                Ok(fallback)
            } else {
                match T::decode(child) {
                    Ok(value) => Ok(value),
                    Err(error) => Err(below(name, error)),
                }
            }
        },
    }
}

/// Reads a member that must be there.
pub fn member<T: Decode>(json: &Json, name: &str) -> (r: Result<T, Error>)
    ensures
        agrees(r, decoded_member::<T>(json@, name@)),
{
    match json.get(name) {
        None => Err(Error::Parse(String::from_str(name))),
        Some(child) => match T::decode(child) {
            Ok(value) => Ok(value),
            Err(error) => Err(below(name, error)),
        },
    }
}

/// Reads a member that may be missing or null.
pub fn optional_member<T: Decode>(json: &Json, name: &str) -> (r: Result<Option<T>, Error>)
    ensures
        agrees(r, decoded_optional::<T>(json@, name@)),
{
    match json.get(name) {
        None => Ok(None),
        Some(child) => {
            if child.is_null() {
                Ok(None)
            } else {
                match T::decode(child) {
                    Ok(value) => Ok(Some(value)),
                    Err(error) => Err(below(name, error)),
                }
            }
        },
    }
}

} // verus!
