//! Check-ins and the builder that validates them field by field.

use crate::error::CheckinError;
use crate::json::{find_member, lemma_find_member_concat, Json, JsonView};
use crate::text::{contains_whitespace, has_white_space, trimmed};
use crate::timestamp::{Timestamp, TimestampView};
use vstd::prelude::*;
use vstd::string::StrSliceExecFns;

verus! {

/// The most characters that a note may have.
pub const NOTE_LIMIT: usize = 500;

/// The most characters that a link may have.
pub const LINK_LIMIT: usize = 2000;

/// Whether a text is a tag as a check-in holds it: not empty and without
/// whitespace.
pub open spec fn is_tag(text: Seq<char>) -> bool {
    text.len() > 0 && !has_white_space(text)
}

/// Whether an optional text has at most `limit` characters.
pub open spec fn within(text: Option<Seq<char>>, limit: int) -> bool {
    text matches Some(t) ==> t.len() <= limit
}

/// Whether every text of a list is a tag.
pub open spec fn all_tags(tags: Seq<Seq<char>>) -> bool {
    forall|i: int| 0 <= i < tags.len() ==> is_tag(#[trigger] tags[i])
}

/// Whether a text is the canonical form of some timestamp.
pub open spec fn is_canonical_timestamp(text: Seq<char>) -> bool {
    exists|t: TimestampView| #[trigger] t.valid() && text == t.rfc3339()
}

/// The tags that a list of texts stands for: each text trimmed, and those
/// dropped of which nothing is left.
pub open spec fn kept_tags(texts: Seq<Seq<char>>) -> Seq<Seq<char>> {
    texts.map_values(|t: Seq<char>| trimmed(t)).filter(|t: Seq<char>| t.len() > 0)
}

/// Whether no text of a list has whitespace left inside once it is trimmed.
pub open spec fn tags_acceptable(texts: Seq<Seq<char>>) -> bool {
    forall|i: int| 0 <= i < texts.len() ==> !has_white_space(trimmed(#[trigger] texts[i]))
}

/// The mathematical value of a [`Checkin`].
pub ghost struct CheckinView {
    pub checked_in_at: Seq<char>,
    pub note: Option<Seq<char>>,
    pub link: Option<Seq<char>>,
    pub tags: Seq<Seq<char>>,
    pub is_private: Option<bool>,
    pub is_too_sensitive: Option<bool>,
}

impl CheckinView {
    /// What holds of every check-in: the timestamp is canonical, note and
    /// link keep to their limits, and every tag is one.
    pub open spec fn valid(self) -> bool {
        &&& is_canonical_timestamp(self.checked_in_at)
        &&& within(self.note, NOTE_LIMIT as int)
        &&& within(self.link, LINK_LIMIT as int)
        &&& all_tags(self.tags)
    }

    /// The JSON object that the service takes for this check-in. It always
    /// has the members `checked_in_at` and `tags`. A note, a link or a flag
    /// that was not set has no member: the service then goes by its own
    /// default.
    pub open spec fn to_json(self) -> JsonView {
        JsonView::Object(
            seq![("checked_in_at"@, JsonView::String(self.checked_in_at))]
                + JsonView::text_member("note"@, self.note)
                + JsonView::text_member("link"@, self.link)
                + seq![("tags"@, JsonView::texts(self.tags))]
                + JsonView::flag_member("is_private"@, self.is_private)
                + JsonView::flag_member("is_too_sensitive"@, self.is_too_sensitive),
        )
    }

    /// The check-in that a JSON object holds, member by member. A note, a
    /// link or a flag is none where the object has no such member or has
    /// `null` for it.
    pub open spec fn from_json(json: JsonView) -> Option<CheckinView> {
        let checked_in_at = json.member("checked_in_at"@).as_str();
        let note = json.member("note"@).as_optional_str();
        let link = json.member("link"@).as_optional_str();
        let tags = json.member("tags"@).as_strings();
        let is_private = json.member("is_private"@).as_optional_bool();
        let is_too_sensitive = json.member("is_too_sensitive"@).as_optional_bool();
        if checked_in_at is Some && note is Some && link is Some && tags is Some
            && is_private is Some && is_too_sensitive is Some {
            Some(
                CheckinView {
                    checked_in_at: checked_in_at->0,
                    note: note->0,
                    link: link->0,
                    tags: tags->0,
                    is_private: is_private->0,
                    is_too_sensitive: is_too_sensitive->0,
                },
            )
        } else {
            None
        }
    }
}

/// A valid check-in. Only a [`CheckinBuilder`] makes one, and none can be
/// changed once it is made.
#[derive(Debug, PartialEq, Eq, Hash)]
pub struct Checkin {
    checked_in_at: String,
    note: Option<String>,
    link: Option<String>,
    tags: Vec<String>,
    is_private: Option<bool>,
    is_too_sensitive: Option<bool>,
}

impl View for Checkin {
    type V = CheckinView;

    closed spec fn view(&self) -> CheckinView {
        CheckinView {
            checked_in_at: self.checked_in_at@,
            note: self.note.deep_view(),
            link: self.link.deep_view(),
            tags: self.tags.deep_view(),
            is_private: self.is_private,
            is_too_sensitive: self.is_too_sensitive,
        }
    }
}

/// The mathematical value of a [`CheckinBuilder`].
pub ghost struct CheckinBuilderView {
    pub checked_in_at: TimestampView,
    pub note: Option<Seq<char>>,
    pub link: Option<Seq<char>>,
    pub tags: Seq<Seq<char>>,
    pub is_private: Option<bool>,
    pub is_too_sensitive: Option<bool>,
}

impl CheckinBuilderView {
    /// What holds of every builder: each field that was set was accepted.
    pub open spec fn valid(self) -> bool {
        &&& self.checked_in_at.valid()
        &&& within(self.note, NOTE_LIMIT as int)
        &&& within(self.link, LINK_LIMIT as int)
        &&& all_tags(self.tags)
    }

    /// The builder with which every check-in starts: a timestamp and
    /// nothing else.
    pub open spec fn started(checked_in_at: TimestampView) -> CheckinBuilderView {
        CheckinBuilderView {
            checked_in_at,
            note: None,
            link: None,
            tags: Seq::empty(),
            is_private: None,
            is_too_sensitive: None,
        }
    }

    /// The check-in that the builder stands for.
    pub open spec fn built(self) -> CheckinView {
        CheckinView {
            checked_in_at: self.checked_in_at.rfc3339(),
            note: self.note,
            link: self.link,
            tags: self.tags,
            is_private: self.is_private,
            is_too_sensitive: self.is_too_sensitive,
        }
    }
}

/// Builder for [`Checkin`]. Each setter checks what it is given and leaves
/// the builder as it was when it refuses.
#[derive(Debug, PartialEq, Eq, Hash)]
pub struct CheckinBuilder {
    checked_in_at: Timestamp,
    note: Option<String>,
    link: Option<String>,
    tags: Vec<String>,
    is_private: Option<bool>,
    is_too_sensitive: Option<bool>,
}

impl View for CheckinBuilder {
    type V = CheckinBuilderView;

    closed spec fn view(&self) -> CheckinBuilderView {
        CheckinBuilderView {
            checked_in_at: self.checked_in_at@,
            note: self.note.deep_view(),
            link: self.link.deep_view(),
            tags: self.tags.deep_view(),
            is_private: self.is_private,
            is_too_sensitive: self.is_too_sensitive,
        }
    }
}

impl Clone for CheckinBuilder {
    fn clone(&self) -> (copy: CheckinBuilder)
        ensures
            copy@ == self@,
    {
        proof {
            use_type_invariant(self);
        }
        CheckinBuilder {
            checked_in_at: self.checked_in_at,
            note: self.note.clone(),
            link: self.link.clone(),
            tags: self.tags.clone(),
            is_private: self.is_private,
            is_too_sensitive: self.is_too_sensitive,
        }
    }
}

impl CheckinBuilder {
    /// Every builder is valid.
    #[verifier::type_invariant]
    pub open spec fn well_formed(self) -> bool {
        self@.valid()
    }

    /// Creates a new builder with the current time in the local time zone.
    ///
    /// # Panics
    ///
    /// Panics where `chrono::Local::now` does: where the system clock
    /// stands before 1970 or beyond the years that `chrono` can hold, or
    /// the machine's time zone cannot be looked up.
    pub fn new_local() -> (builder: CheckinBuilder)
        ensures
            builder@.valid(),
            builder@ == CheckinBuilderView::started(builder@.checked_in_at),
            builder@.checked_in_at.nanos < 1_000_000_000,
    {
        CheckinBuilder::with_datetime(Timestamp::now_local())
    }

    /// Creates a new builder with the current time in UTC.
    ///
    /// # Panics
    ///
    /// Panics where `chrono::Utc::now` does: where the system clock stands
    /// before 1970 or beyond the years that `chrono` can hold.
    pub fn new_utc() -> (builder: CheckinBuilder)
        ensures
            builder@.valid(),
            builder@ == CheckinBuilderView::started(builder@.checked_in_at),
            builder@.checked_in_at.offset == 0,
            builder@.checked_in_at.nanos < 1_000_000_000,
    {
        CheckinBuilder::with_datetime(Timestamp::now_utc())
    }

    /// Creates a new builder with the given timestamp.
    pub fn with_datetime(checked_in_at: Timestamp) -> (builder: CheckinBuilder)
        ensures
            builder@.valid(),
            builder@ == CheckinBuilderView::started(checked_in_at@),
    {
        proof {
            use_type_invariant(&checked_in_at);
        }
        let tags: Vec<String> = Vec::new();
        assert(tags.deep_view() =~= Seq::<Seq<char>>::empty());
        CheckinBuilder {
            checked_in_at,
            note: None,
            link: None,
            tags,
            is_private: None,
            is_too_sensitive: None,
        }
    }

    /// Sets the note, which may have up to 500 characters. Characters are
    /// counted, not bytes.
    pub fn note(&mut self, text: &str) -> (result: Result<(), CheckinError>)
        ensures
            text@.len() <= NOTE_LIMIT ==> result is Ok && final(self)@ == (CheckinBuilderView {
                note: Some(text@),
                ..old(self)@
            }),
            text@.len() > NOTE_LIMIT ==> result == Err::<(), CheckinError>(CheckinError::TooLong)
                && final(self)@ == old(self)@,
            final(self)@.valid(),
    {
        proof {
            use_type_invariant(&*self);
        }
        if text.unicode_len() <= NOTE_LIMIT {
            self.note = Some(text.to_owned());
            Ok(())
        } else {
            Err(CheckinError::TooLong)
        }
    }

    /// Sets the link, which may have up to 2000 characters. Characters are
    /// counted, not bytes.
    pub fn link(&mut self, link: &str) -> (result: Result<(), CheckinError>)
        ensures
            link@.len() <= LINK_LIMIT ==> result is Ok && final(self)@ == (CheckinBuilderView {
                link: Some(link@),
                ..old(self)@
            }),
            link@.len() > LINK_LIMIT ==> result == Err::<(), CheckinError>(CheckinError::TooLong)
                && final(self)@ == old(self)@,
            final(self)@.valid(),
    {
        proof {
            use_type_invariant(&*self);
        }
        if link.unicode_len() <= LINK_LIMIT {
            self.link = Some(link.to_owned());
            Ok(())
        } else {
            Err(CheckinError::TooLong)
        }
    }

    /// Sets the tags. Whitespace at the start and at the end of each tag is
    /// removed, and a tag of which nothing is left is dropped. A tag with
    /// whitespace in its middle is refused, and the tags then stay as they
    /// were.
    pub fn tags(&mut self, tags: &[&str]) -> (result: Result<(), CheckinError>)
        ensures
            tags_acceptable(tags.deep_view()) ==> result is Ok && final(self)@ == (CheckinBuilderView {
                tags: kept_tags(tags.deep_view()),
                ..old(self)@
            }),
            !tags_acceptable(tags.deep_view()) ==> result == Err::<(), CheckinError>(
                CheckinError::HasWhitespaces,
            ) && final(self)@ == old(self)@,
            final(self)@.valid(),
    {
        proof {
            use_type_invariant(&*self);
        }
        let ghost texts = tags.deep_view();
        let mut validated: Vec<String> = Vec::new();
        let mut i: usize = 0;
        assert(validated.deep_view() =~= kept_tags(texts.take(0))) by {
            reveal(Seq::filter);
        }
        while i < tags.len()
            invariant
                i <= tags.len(),
                *self == *old(self),
                self@.valid(),
                texts == tags.deep_view(),
                texts.len() == tags.len(),
                validated.deep_view() == kept_tags(texts.take(i as int)),
                forall|j: int| 0 <= j < i ==> !has_white_space(trimmed(#[trigger] texts[j])),
            decreases tags.len() - i,
        {
            let tag = tags[i].trim();
            proof {
                lemma_kept_tags_step(texts, i as int);
            }
            if !tag.is_empty() {
                if contains_whitespace(tag) {
                    return Err(CheckinError::HasWhitespaces);
                }
                validated.push(tag.to_owned());
            }
            i += 1;
        }
        assert(texts.take(i as int) =~= texts);
        proof {
            lemma_kept_tags_are_tags(texts);
        }
        self.tags = validated;
        Ok(())
    }

    /// Sets whether the check-in is private.
    pub fn is_private(&mut self, is_private: bool)
        ensures
            final(self)@ == (CheckinBuilderView { is_private: Some(is_private), ..old(self)@ }),
            final(self)@.valid(),
    {
        proof {
            use_type_invariant(&*self);
        }
        self.is_private = Some(is_private);
    }

    /// Sets whether the check-in is too sensitive.
    pub fn is_too_sensitive(&mut self, is_too_sensitive: bool)
        ensures
            final(self)@ == (CheckinBuilderView {
                is_too_sensitive: Some(is_too_sensitive),
                ..old(self)@
            }),
            final(self)@.valid(),
    {
        proof {
            use_type_invariant(&*self);
        }
        self.is_too_sensitive = Some(is_too_sensitive);
    }

    /// Builds the check-in, with the timestamp in its canonical form.
    pub fn build(self) -> (checkin: Checkin)
        ensures
            checkin@ == self@.built(),
            checkin@.valid(),
    {
        proof {
            use_type_invariant(&self);
            lemma_built_is_valid(self@);
        }
        Checkin {
            checked_in_at: self.checked_in_at.to_rfc3339(),
            note: self.note,
            link: self.link,
            tags: self.tags,
            is_private: self.is_private,
            is_too_sensitive: self.is_too_sensitive,
        }
    }
}

impl Checkin {
    /// Every check-in is valid.
    #[verifier::type_invariant]
    pub open spec fn well_formed(self) -> bool {
        self@.valid()
    }

    /// When the check-in took place, in RFC 3339 form.
    pub fn checked_in_at(&self) -> (text: &str)
        ensures
            text@ == self@.checked_in_at,
            self@.valid(),
    {
        proof {
            use_type_invariant(self);
        }
        self.checked_in_at.as_str()
    }

    /// The note, if one was set.
    pub fn note(&self) -> (note: Option<&String>)
        ensures
            note.deep_view() == self@.note,
            self@.valid(),
    {
        proof {
            use_type_invariant(self);
        }
        self.note.as_ref()
    }

    /// The link, if one was set.
    pub fn link(&self) -> (link: Option<&String>)
        ensures
            link.deep_view() == self@.link,
            self@.valid(),
    {
        proof {
            use_type_invariant(self);
        }
        self.link.as_ref()
    }

    /// The tags, in the order in which they were given.
    pub fn tags(&self) -> (tags: &Vec<String>)
        ensures
            tags.deep_view() == self@.tags,
            self@.valid(),
    {
        proof {
            use_type_invariant(self);
        }
        &self.tags
    }

    /// The check-in as the JSON object that the service takes. A note, a
    /// link or a flag that was not set is left out of it.
    pub fn to_json(&self) -> (json: Json)
        ensures
            json@ == self@.to_json(),
    {
        let mut members: Vec<(String, Json)> = Vec::new();
        members.push(("checked_in_at".to_owned(), Json::String(self.checked_in_at.clone())));
        if let Some(note) = &self.note {
            members.push(("note".to_owned(), Json::String(note.clone())));
        }
        if let Some(link) = &self.link {
            members.push(("link".to_owned(), Json::String(link.clone())));
        }
        members.push(("tags".to_owned(), Json::texts(&self.tags)));
        if let Some(is_private) = self.is_private {
            members.push(("is_private".to_owned(), Json::Bool(is_private)));
        }
        if let Some(is_too_sensitive) = self.is_too_sensitive {
            members.push(("is_too_sensitive".to_owned(), Json::Bool(is_too_sensitive)));
        }
        let json = Json::Object(members);
        proof {
            json.lemma_object_view();
        }
        assert(json@->Object_0 =~= self@.to_json()->Object_0);
        json
    }

    /// Whether the check-in is private; `None` leaves it to the service.
    pub fn is_private(&self) -> (is_private: Option<bool>)
        ensures
            is_private == self@.is_private,
            self@.valid(),
    {
        proof {
            use_type_invariant(self);
        }
        self.is_private
    }

    /// Whether the check-in is too sensitive; `None` leaves it to the service.
    pub fn is_too_sensitive(&self) -> (is_too_sensitive: Option<bool>)
        ensures
            is_too_sensitive == self@.is_too_sensitive,
            self@.valid(),
    {
        proof {
            use_type_invariant(self);
        }
        self.is_too_sensitive
    }
}

/// Taking one more text into account adds its trimmed form to the tags,
/// unless nothing is left of it.
pub proof fn lemma_kept_tags_step(texts: Seq<Seq<char>>, i: int)
    requires
        0 <= i < texts.len(),
    ensures
        kept_tags(texts.take(i + 1)) == if trimmed(texts[i]).len() > 0 {
            kept_tags(texts.take(i)).push(trimmed(texts[i]))
        } else {
            kept_tags(texts.take(i))
        },
{
    let trim = |t: Seq<char>| trimmed(t);
    let kept = |t: Seq<char>| t.len() > 0;
    assert(texts.take(i + 1).map_values(trim) =~= texts.take(i).map_values(trim).push(
        trimmed(texts[i]),
    ));
    texts.take(i).map_values(trim).lemma_filter_push(trimmed(texts[i]), kept);
}

/// The tags kept from texts that are acceptable are tags: none is empty
/// and none holds whitespace.
pub proof fn lemma_kept_tags_are_tags(texts: Seq<Seq<char>>)
    requires
        tags_acceptable(texts),
    ensures
        all_tags(kept_tags(texts)),
    decreases texts.len(),
{
    if texts.len() == 0 {
        reveal(Seq::filter);
    } else {
        let n = texts.len() - 1;
        lemma_kept_tags_are_tags(texts.take(n));
        lemma_kept_tags_step(texts, n);
        assert(texts.take(n + 1) =~= texts);
    }
}

/// A valid builder stands for a valid check-in: whatever was set and
/// accepted, what `build` returns keeps every limit.
pub proof fn lemma_built_is_valid(builder: CheckinBuilderView)
    requires
        builder.valid(),
    ensures
        builder.built().valid(),
{
}

/// What the JSON object of a check-in has under each of its keys:
/// `checked_in_at` and `tags` always, and a note, a link or a flag where it
/// was set. Where it was not set the object has no such member.
pub proof fn lemma_json_members(checkin: CheckinView)
    ensures
        checkin.to_json().get("checked_in_at"@) == Some(JsonView::String(checkin.checked_in_at)),
        checkin.to_json().get("tags"@) == Some(JsonView::texts(checkin.tags)),
        checkin.to_json().get("note"@) == match checkin.note {
            Some(text) => Some(JsonView::String(text)),
            None => None,
        },
        checkin.to_json().get("link"@) == match checkin.link {
            Some(text) => Some(JsonView::String(text)),
            None => None,
        },
        checkin.to_json().get("is_private"@) == match checkin.is_private {
            Some(flag) => Some(JsonView::Bool(flag)),
            None => None,
        },
        checkin.to_json().get("is_too_sensitive"@) == match checkin.is_too_sensitive {
            Some(flag) => Some(JsonView::Bool(flag)),
            None => None,
        },
{
    reveal_strlit("checked_in_at");
    reveal_strlit("note");
    reveal_strlit("link");
    reveal_strlit("tags");
    reveal_strlit("is_private");
    reveal_strlit("is_too_sensitive");
    assert("note"@[0] == 'n' && "link"@[0] == 'l' && "tags"@[0] == 't');
    assert("checked_in_at"@.len() == 13 && "is_private"@.len() == 10 && "is_too_sensitive"@.len()
        == 16);
    let at = seq![("checked_in_at"@, JsonView::String(checkin.checked_in_at))];
    let note = JsonView::text_member("note"@, checkin.note);
    let link = JsonView::text_member("link"@, checkin.link);
    let tags = seq![("tags"@, JsonView::texts(checkin.tags))];
    let private = JsonView::flag_member("is_private"@, checkin.is_private);
    let sensitive = JsonView::flag_member("is_too_sensitive"@, checkin.is_too_sensitive);
    reveal_with_fuel(find_member, 2);
    assert forall|key: Seq<char>|
        #![trigger find_member(at + note + link + tags + private + sensitive, key)]
        find_member(at + note + link + tags + private + sensitive, key) == if find_member(
            sensitive,
            key,
        ) is Some {
            find_member(sensitive, key)
        } else if find_member(private, key) is Some {
            find_member(private, key)
        } else if find_member(tags, key) is Some {
            find_member(tags, key)
        } else if find_member(link, key) is Some {
            find_member(link, key)
        } else if find_member(note, key) is Some {
            find_member(note, key)
        } else {
            find_member(at, key)
        } by {
        lemma_find_member_concat(at + note + link + tags + private, sensitive, key);
        lemma_find_member_concat(at + note + link + tags, private, key);
        lemma_find_member_concat(at + note + link, tags, key);
        lemma_find_member_concat(at + note, link, key);
        lemma_find_member_concat(at, note, key);
    }
}

/// Reading the JSON object of a check-in member by member gives the
/// check-in back: note, link, tags and flags as they were set, and the
/// timestamp in its canonical form.
pub proof fn lemma_json_round_trip(checkin: CheckinView)
    ensures
        CheckinView::from_json(checkin.to_json()) == Some(checkin),
{
    lemma_json_members(checkin);
    assert(JsonView::texts(checkin.tags).as_strings()->0 =~= checkin.tags);
}

} // verus!
