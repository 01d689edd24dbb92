//! A JSON value as plain data, and the lookups that reading a response needs.

use vstd::prelude::*;

verus! {

broadcast use vstd::std_specs::vec::group_vec_axioms;

/// A JSON number.
#[derive(Debug, Clone, Copy, PartialEq, Eq, Hash, Structural)]
pub enum Number {
    /// An integer that is not negative.
    Unsigned(u64),
    /// An integer that may be negative.
    Signed(i64),
    /// A number with a fraction or an exponent, as the bits of its IEEE 754
    /// binary64 form. It is never read as an integer.
    Real(u64),
}

/// A JSON value.
///
/// An object is a list of members. Where a key occurs more than once, the
/// last member with that key is the one that counts. Two values are equal
/// when they are made alike, the members of an object in the same order.
#[derive(Debug, PartialEq, Eq, Hash)]
pub enum Json {
    /// `null`.
    Null,
    /// `true` or `false`.
    Bool(bool),
    /// A number.
    Number(Number),
    /// A string.
    String(String),
    /// An array of values.
    Array(Vec<Json>),
    /// An object: keys with their values.
    Object(Vec<(String, Json)>),
}

/// The mathematical value of a [`Json`].
pub ghost enum JsonView {
    Null,
    Bool(bool),
    Number(Number),
    String(Seq<char>),
    Array(Seq<JsonView>),
    Object(Seq<(Seq<char>, JsonView)>),
}

impl View for Json {
    type V = JsonView;

    open spec fn view(&self) -> JsonView
        decreases self,
    {
        match self {
            Json::Null => JsonView::Null,
            Json::Bool(b) => JsonView::Bool(*b),
            Json::Number(n) => JsonView::Number(*n),
            Json::String(s) => JsonView::String(s@),
            Json::Array(items) => JsonView::Array(
                Seq::new(
                    items.len() as nat,
                    |i: int|
                        if 0 <= i < items.len() {
                            items[i]@
                        } else {
                            JsonView::Null
                        },
                ),
            ),
            Json::Object(members) => JsonView::Object(
                Seq::new(
                    members.len() as nat,
                    |i: int|
                        if 0 <= i < members.len() {
                            (members[i].0@, members[i].1@)
                        } else {
                            (Seq::empty(), JsonView::Null)
                        },
                ),
            ),
        }
    }
}

impl DeepView for Json {
    type V = JsonView;

    open spec fn deep_view(&self) -> JsonView {
        self@
    }
}

impl Json {
    /// The view of an array holds the views of its items, in order.
    pub proof fn lemma_array_view(self)
        requires
            self is Array,
        ensures
            self@ is Array,
            self@->Array_0.len() == self->Array_0.len(),
            forall|i: int|
                0 <= i < self->Array_0.len() ==> #[trigger] self@->Array_0[i] == self->Array_0[i]@,
    {
        reveal_with_fuel(<Json as View>::view, 2);
    }

    /// The view of an object holds the keys and the views of its members, in order.
    pub proof fn lemma_object_view(self)
        requires
            self is Object,
        ensures
            self@ is Object,
            self@->Object_0.len() == self->Object_0.len(),
            forall|i: int|
                0 <= i < self->Object_0.len() ==> #[trigger] self@->Object_0[i] == (
                    self->Object_0[i].0@,
                    self->Object_0[i].1@,
                ),
    {
        reveal_with_fuel(<Json as View>::view, 2);
    }
}

/// The value of the last member of `members` whose key is `key`.
pub open spec fn find_member(members: Seq<(Seq<char>, JsonView)>, key: Seq<char>) -> Option<
    JsonView,
>
    decreases members.len(),
{
    if members.len() == 0 {
        None
    } else if members.last().0 == key {
        Some(members.last().1)
    } else {
        find_member(members.drop_last(), key)
    }
}

/// What `find_member` finds in two lists of members, one after the other:
/// what it finds in the second, and else what it finds in the first.
pub proof fn lemma_find_member_concat(
    front: Seq<(Seq<char>, JsonView)>,
    back: Seq<(Seq<char>, JsonView)>,
    key: Seq<char>,
)
    ensures
        find_member(front + back, key) == match find_member(back, key) {
            Some(value) => Some(value),
            None => find_member(front, key),
        },
    decreases back.len(),
{
    if back.len() == 0 {
        assert(front + back =~= front);
    } else {
        assert((front + back).drop_last() =~= front + back.drop_last());
        lemma_find_member_concat(front, back.drop_last(), key);
    }
}

/// The texts of `items`, where each of them is a string.
pub open spec fn texts_of(items: Seq<JsonView>) -> Option<Seq<Seq<char>>> {
    if forall|i: int| 0 <= i < items.len() ==> #[trigger] items[i] is String {
        Some(Seq::new(items.len(), |i: int| items[i]->String_0))
    } else {
        None
    }
}

impl JsonView {
    /// The members that a text which may be missing adds to an object under
    /// `key`: a string where there is a text, and no member where there is
    /// none.
    pub open spec fn text_member(key: Seq<char>, text: Option<Seq<char>>) -> Seq<
        (Seq<char>, JsonView),
    > {
        match text {
            Some(t) => seq![(key, JsonView::String(t))],
            None => Seq::empty(),
        }
    }

    /// The members that a flag which may be missing adds to an object
    /// under `key`: a boolean where there is a flag, and no member where
    /// there is none.
    pub open spec fn flag_member(key: Seq<char>, flag: Option<bool>) -> Seq<
        (Seq<char>, JsonView),
    > {
        match flag {
            Some(b) => seq![(key, JsonView::Bool(b))],
            None => Seq::empty(),
        }
    }

    /// The array of the strings of a list of texts.
    pub open spec fn texts(texts: Seq<Seq<char>>) -> JsonView {
        JsonView::Array(Seq::new(texts.len(), |i: int| JsonView::String(texts[i])))
    }

    /// The member that `key` names in an object; `None` for an absent key
    /// and for a value that is no object.
    pub open spec fn get(self, key: Seq<char>) -> Option<JsonView> {
        match self {
            JsonView::Object(members) => find_member(members, key),
            _ => None,
        }
    }

    /// The member that `key` names, or `Null` where `get` finds none.
    pub open spec fn member(self, key: Seq<char>) -> JsonView {
        match self.get(key) {
            Some(value) => value,
            None => JsonView::Null,
        }
    }

    /// The number that a non-negative integer holds.
    pub open spec fn as_u64(self) -> Option<u64> {
        match self {
            JsonView::Number(Number::Unsigned(n)) => Some(n),
            JsonView::Number(Number::Signed(n)) => if n >= 0 {
                Some(n as u64)
            } else {
                None
            },
            _ => None,
        }
    }

    /// The text that a string holds.
    pub open spec fn as_str(self) -> Option<Seq<char>> {
        match self {
            JsonView::String(s) => Some(s),
            _ => None,
        }
    }

    /// The truth value that a boolean holds.
    pub open spec fn as_bool(self) -> Option<bool> {
        match self {
            JsonView::Bool(b) => Some(b),
            _ => None,
        }
    }

    /// The text that a string holds, and none for `Null`, which is also
    /// what `member` gives for a member that is absent.
    pub open spec fn as_optional_str(self) -> Option<Option<Seq<char>>> {
        match self {
            JsonView::String(s) => Some(Some(s)),
            JsonView::Null => Some(None),
            _ => None,
        }
    }

    /// The truth value that a boolean holds, and none for `Null`, which is
    /// also what `member` gives for a member that is absent.
    pub open spec fn as_optional_bool(self) -> Option<Option<bool>> {
        match self {
            JsonView::Bool(b) => Some(Some(b)),
            JsonView::Null => Some(None),
            _ => None,
        }
    }

    /// The texts that an array of strings holds.
    pub open spec fn as_strings(self) -> Option<Seq<Seq<char>>> {
        match self {
            JsonView::Array(items) => texts_of(items),
            _ => None,
        }
    }
}

/// The value of an optional reference to a [`Json`], with `Null` for none.
pub open spec fn view_or_null(found: Option<&Json>) -> JsonView {
    match found {
        Some(json) => json@,
        None => JsonView::Null,
    }
}

/// Looks up a member of a value that may be missing itself.
pub fn member<'a>(json: Option<&'a Json>, key: &str) -> (found: Option<&'a Json>)
    ensures
        view_or_null(found) == view_or_null(json).member(key@),
{
    match json {
        Some(value) => value.get(key),
        None => None,
    }
}

impl Json {
    /// Looks up a member of an object by its key.
    pub fn get(&self, key: &str) -> (found: Option<&Json>)
        ensures
            found.deep_view() == self@.get(key@),
    {
        match self {
            Json::Object(members) => {
                let wanted = key.to_owned();
                let ghost all = self@->Object_0;
                proof {
                    self.lemma_object_view();
                }
                let mut i: usize = members.len();
                assert(all.take(i as int) =~= all);
                while i > 0
                    invariant
                        i <= members.len(),
                        wanted@ == key@,
                        self@ == JsonView::Object(all),
                        all.len() == members.len(),
                        forall|j: int|
                            0 <= j < members.len() ==> #[trigger] all[j] == (
                                members[j].0@,
                                members[j].1@,
                            ),
                        find_member(all, key@) == find_member(all.take(i as int), key@),
                    decreases i,
                {
                    i -= 1;
                    assert(all.take(i + 1).drop_last() == all.take(i as int));
                    if members[i].0 == wanted {
                        return Some(&members[i].1);
                    }
                }
                None
            },
            _ => None,
        }
    }

    /// Whether this is an array.
    pub fn is_array(&self) -> (array: bool)
        ensures
            array == (self@ is Array),
    {
        match self {
            Json::Array(_) => true,
            _ => false,
        }
    }

    /// The number, if this is a non-negative integer.
    pub fn as_u64(&self) -> (number: Option<u64>)
        ensures
            number == self@.as_u64(),
    {
        match self {
            Json::Number(Number::Unsigned(n)) => Some(*n),
            Json::Number(Number::Signed(n)) => if *n >= 0 {
                Some(*n as u64)
            } else {
                None
            },
            _ => None,
        }
    }

    /// The text, if this is a string.
    pub fn as_str(&self) -> (text: Option<&str>)
        ensures
            text.deep_view() == self@.as_str(),
    {
        match self {
            Json::String(s) => Some(s.as_str()),
            _ => None,
        }
    }

    /// The truth value, if this is a boolean.
    pub fn as_bool(&self) -> (truth: Option<bool>)
        ensures
            truth == self@.as_bool(),
    {
        match self {
            Json::Bool(b) => Some(*b),
            _ => None,
        }
    }

    /// The texts of an array whose items are all strings.
    pub fn as_strings(&self) -> (texts: Option<Vec<String>>)
        ensures
            texts.deep_view() == self@.as_strings(),
    {
        match self {
            Json::Array(items) => {
                let ghost all = self@->Array_0;
                proof {
                    self.lemma_array_view();
                }
                let mut list: Vec<String> = Vec::new();
                let mut i: usize = 0;
                while i < items.len()
                    invariant
                        i <= items.len(),
                        list.len() == i,
                        self@ == JsonView::Array(all),
                        all.len() == items.len(),
                        forall|j: int| 0 <= j < items.len() ==> #[trigger] all[j] == items[j]@,
                        forall|j: int| 0 <= j < i ==> #[trigger] all[j] == JsonView::String(list[j]@),
                    decreases items.len() - i,
                {
                    match &items[i] {
                        Json::String(s) => {
                            list.push(s.clone());
                        },
                        _ => {
                            assert(!(all[i as int] is String));
                            return None;
                        },
                    }
                    i += 1;
                }
                Some(list)
            },
            _ => None,
        }
    }

    /// The array of the strings of a list of texts.
    pub fn texts(texts: &Vec<String>) -> (json: Json)
        ensures
            json@ == JsonView::texts(texts.deep_view()),
    {
        let mut items: Vec<Json> = Vec::new();
        let mut i: usize = 0;
        while i < texts.len()
            invariant
                i <= texts.len(),
                items.len() == i,
                forall|j: int| 0 <= j < i ==> #[trigger] items[j]@ == JsonView::String(texts[j]@),
            decreases texts.len() - i,
        {
            items.push(Json::String(texts[i].clone()));
            i += 1;
        }
        let json = Json::Array(items);
        proof {
            json.lemma_array_view();
        }
        assert(json@->Array_0 =~= JsonView::texts(texts.deep_view())->Array_0);
        json
    }

    /// The member `key`, if it is a non-negative integer.
    pub fn get_u64(&self, key: &str) -> (number: Option<u64>)
        ensures
            number == self@.member(key@).as_u64(),
    {
        match self.get(key) {
            Some(value) => value.as_u64(),
            None => None,
        }
    }

    /// The member `key`, if it is a string.
    pub fn get_str(&self, key: &str) -> (text: Option<&str>)
        ensures
            text.deep_view() == self@.member(key@).as_str(),
    {
        match self.get(key) {
            Some(value) => value.as_str(),
            None => None,
        }
    }

    /// The member `key`, if it is a boolean.
    pub fn get_bool(&self, key: &str) -> (truth: Option<bool>)
        ensures
            truth == self@.member(key@).as_bool(),
    {
        match self.get(key) {
            Some(value) => value.as_bool(),
            None => None,
        }
    }

    /// The member `key`, if it is an array of strings.
    pub fn get_strings(&self, key: &str) -> (texts: Option<Vec<String>>)
        ensures
            texts.deep_view() == self@.member(key@).as_strings(),
    {
        match self.get(key) {
            Some(value) => value.as_strings(),
            None => None,
        }
    }
}

impl Clone for Json {
    fn clone(&self) -> (copy: Json)
        ensures
            copy@ == self@,
        decreases self,
    {
        match self {
            Json::Null => Json::Null,
            Json::Bool(b) => Json::Bool(*b),
            Json::Number(n) => Json::Number(*n),
            Json::String(s) => Json::String(s.clone()),
            Json::Array(items) => {
                let mut copies: Vec<Json> = Vec::new();
                let mut i: usize = 0;
                while i < items.len()
                    invariant
                        i <= items.len(),
                        copies.len() == i,
                        self matches Json::Array(v) && v == items,
                        forall|j: int| 0 <= j < i ==> #[trigger] copies[j]@ == items[j]@,
                    decreases items.len() - i,
                {
                    copies.push(items[i].clone());
                    i += 1;
                }
                let copy = Json::Array(copies);
                proof {
                    self.lemma_array_view();
                    copy.lemma_array_view();
                }
                assert(copy@->Array_0 =~= self@->Array_0);
                copy
            },
            Json::Object(members) => {
                let mut copies: Vec<(String, Json)> = Vec::new();
                let mut i: usize = 0;
                while i < members.len()
                    invariant
                        i <= members.len(),
                        copies.len() == i,
                        self matches Json::Object(v) && v == members,
                        forall|j: int|
                            0 <= j < i ==> #[trigger] copies[j].0@ == members[j].0@
                                && copies[j].1@ == members[j].1@,
                    decreases members.len() - i,
                {
                    copies.push((members[i].0.clone(), members[i].1.clone()));
                    i += 1;
                }
                let copy = Json::Object(copies);
                proof {
                    self.lemma_object_view();
                    copy.lemma_object_view();
                }
                assert(copy@->Object_0 =~= self@->Object_0);
                copy
            },
        }
    }
}

} // verus!
