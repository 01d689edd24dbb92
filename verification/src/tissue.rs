//! The Tissue service: the webhook's address and the reading of its responses.

use crate::checkin::Checkin;
use crate::error::{ResponseError, ResponseErrorView};
use crate::json::{member, texts_of, Json, JsonView};
use crate::timestamp::{parsed_timestamp, Timestamp, TimestampView};
use vstd::prelude::*;
use vstd::string::StringExecFns;

verus! {

/// The record of a check-in that the service returns when it accepted one.
#[derive(Debug, PartialEq, Eq, Hash)]
pub struct ReceivedCheckin {
    id: usize,
    checked_in_at: Timestamp,
    note: String,
    link: String,
    tags: Vec<String>,
    source: String,
    is_private: bool,
    is_too_sensitive: bool,
}

/// The mathematical value of a [`ReceivedCheckin`].
pub ghost struct ReceivedCheckinView {
    pub id: usize,
    pub checked_in_at: TimestampView,
    pub note: Seq<char>,
    pub link: Seq<char>,
    pub tags: Seq<Seq<char>>,
    pub source: Seq<char>,
    pub is_private: bool,
    pub is_too_sensitive: bool,
}

impl View for ReceivedCheckin {
    type V = ReceivedCheckinView;

    closed spec fn view(&self) -> ReceivedCheckinView {
        ReceivedCheckinView {
            id: self.id,
            checked_in_at: self.checked_in_at@,
            note: self.note@,
            link: self.link@,
            tags: self.tags.deep_view(),
            source: self.source@,
            is_private: self.is_private,
            is_too_sensitive: self.is_too_sensitive,
        }
    }
}

impl DeepView for ReceivedCheckin {
    type V = ReceivedCheckinView;

    open spec fn deep_view(&self) -> ReceivedCheckinView {
        self@
    }
}

impl Clone for ReceivedCheckin {
    fn clone(&self) -> (copy: ReceivedCheckin)
        ensures
            copy@ == self@,
    {
        ReceivedCheckin {
            id: self.id,
            checked_in_at: self.checked_in_at,
            note: self.note.clone(),
            link: self.link.clone(),
            tags: self.tags.clone(),
            source: self.source.clone(),
            is_private: self.is_private,
            is_too_sensitive: self.is_too_sensitive,
        }
    }
}

impl ReceivedCheckinView {
    /// The record that a JSON value holds, with `when` for its timestamp.
    ///
    /// The value is an object whose `id` is a non-negative integer that
    /// fits the machine's word, whose `note`, `link` and `source` are
    /// strings, whose `tags` is an array of strings, and whose `is_private`
    /// and `is_too_sensitive` are booleans. Other members are ignored.
    pub open spec fn from_json(json: JsonView, when: Option<TimestampView>) -> Option<
        ReceivedCheckinView,
    > {
        let id = json.member("id"@).as_u64();
        let note = json.member("note"@).as_str();
        let link = json.member("link"@).as_str();
        let tags = json.member("tags"@).as_strings();
        let source = json.member("source"@).as_str();
        let is_private = json.member("is_private"@).as_bool();
        let is_too_sensitive = json.member("is_too_sensitive"@).as_bool();
        if id is Some && id->0 <= usize::MAX && when is Some && note is Some && link is Some
            && tags is Some && source is Some && is_private is Some && is_too_sensitive is Some {
            Some(
                ReceivedCheckinView {
                    id: id->0 as usize,
                    checked_in_at: when->0,
                    note: note->0,
                    link: link->0,
                    tags: tags->0,
                    source: source->0,
                    is_private: is_private->0,
                    is_too_sensitive: is_too_sensitive->0,
                },
            )
        } else {
            None
        }
    }
}

impl ReceivedCheckin {
    /// Reads a record from the `checkin` member of a response, with the
    /// timestamp that was read from its `checked_in_at` member.
    pub fn from_json(json: &Json, checked_in_at: Option<Timestamp>) -> (record: Option<
        ReceivedCheckin,
    >)
        ensures
            record.deep_view() == ReceivedCheckinView::from_json(json@, checked_in_at.deep_view()),
    {
        let id = match json.get_u64("id") {
            Some(id) if id <= usize::MAX as u64 => id as usize,
            _ => return None,
        };
        let checked_in_at = match checked_in_at {
            Some(at) => at,
            None => return None,
        };
        let note = match json.get_str("note") {
            Some(text) => text.to_owned(),
            None => return None,
        };
        let link = match json.get_str("link") {
            Some(text) => text.to_owned(),
            None => return None,
        };
        let tags = match json.get_strings("tags") {
            Some(list) => list,
            None => return None,
        };
        let source = match json.get_str("source") {
            Some(text) => text.to_owned(),
            None => return None,
        };
        let is_private = match json.get_bool("is_private") {
            Some(truth) => truth,
            None => return None,
        };
        let is_too_sensitive = match json.get_bool("is_too_sensitive") {
            Some(truth) => truth,
            None => return None,
        };
        Some(
            ReceivedCheckin {
                id,
                checked_in_at,
                note,
                link,
                tags,
                source,
                is_private,
                is_too_sensitive,
            },
        )
    }

    /// The identifier that the service gave the check-in.
    pub fn id(&self) -> (id: usize)
        ensures
            id == self@.id,
    {
        self.id
    }

    /// When the check-in took place.
    pub fn checked_in_at(&self) -> (at: Timestamp)
        ensures
            at@ == self@.checked_in_at,
    {
        self.checked_in_at
    }

    /// The note.
    pub fn note(&self) -> (note: &String)
        ensures
            note@ == self@.note,
    {
        &self.note
    }

    /// The link.
    pub fn link(&self) -> (link: &String)
        ensures
            link@ == self@.link,
    {
        &self.link
    }

    /// The tags, in the order in which the service gave them.
    pub fn tags(&self) -> (tags: &Vec<String>)
        ensures
            tags.deep_view() == self@.tags,
    {
        &self.tags
    }

    /// Where the service says the check-in came from.
    pub fn source(&self) -> (source: &String)
        ensures
            source@ == self@.source,
    {
        &self.source
    }

    /// Whether the check-in is private.
    pub fn is_private(&self) -> (private: bool)
        ensures
            private == self@.is_private,
    {
        self.is_private
    }

    /// Whether the check-in is marked as too sensitive.
    pub fn is_too_sensitive(&self) -> (sensitive: bool)
        ensures
            sensitive == self@.is_too_sensitive,
    {
        self.is_too_sensitive
    }
}

/// The address of the check-in webhook `id` at `domain`.
pub open spec fn webhook_url(domain: Seq<char>, id: Seq<char>) -> Seq<char> {
    "https://"@ + domain + "/api/webhooks/checkin/"@ + id
}

/// What is posted to the service for a check-in.
#[derive(Debug, PartialEq, Eq, Hash)]
pub struct CheckinRequest {
    /// The address of the webhook.
    pub url: String,
    /// The check-in as a JSON object.
    pub body: Json,
}

/// The mathematical value of an [`IncomingEndpoint`].
pub ghost struct IncomingEndpointView<T> {
    pub domain: Seq<char>,
    pub id: Seq<char>,
    pub requester: T,
}

/// An endpoint of the incoming webhook, with what sends the requests.
pub struct IncomingEndpoint<T> {
    domain: String,
    id: String,
    requester: T,
}

impl<T> View for IncomingEndpoint<T> {
    type V = IncomingEndpointView<T>;

    closed spec fn view(&self) -> IncomingEndpointView<T> {
        IncomingEndpointView { domain: self.domain@, id: self.id@, requester: self.requester }
    }
}

impl<T> IncomingEndpoint<T> {
    /// Creates an endpoint for the webhook `id` at the service's own domain.
    pub fn new(id: &str, requester: T) -> (endpoint: IncomingEndpoint<T>)
        ensures
            endpoint@ == (IncomingEndpointView { domain: "shikorism.net"@, id: id@, requester }),
    {
        IncomingEndpoint { domain: "shikorism.net".to_owned(), id: id.to_owned(), requester }
    }

    /// Creates an endpoint for the webhook `id` at `domain`.
    pub fn with_domain(domain: &str, id: &str, requester: T) -> (endpoint: IncomingEndpoint<T>)
        ensures
            endpoint@ == (IncomingEndpointView { domain: domain@, id: id@, requester }),
    {
        IncomingEndpoint { domain: domain.to_owned(), id: id.to_owned(), requester }
    }

    /// The address to which a check-in is posted.
    pub fn checkin_url(&self) -> (url: String)
        ensures
            url@ == webhook_url(self@.domain, self@.id),
    {
        let mut url = "https://".to_owned();
        url.append(self.domain.as_str());
        url.append("/api/webhooks/checkin/");
        url.append(self.id.as_str());
        url
    }

    /// The request that sends `checkin` to this endpoint.
    pub fn checkin_request(&self, checkin: &Checkin) -> (request: CheckinRequest)
        ensures
            request.url@ == webhook_url(self@.domain, self@.id),
            request.body@ == checkin@.to_json(),
    {
        CheckinRequest { url: self.checkin_url(), body: checkin.to_json() }
    }

    /// What sends the requests.
    pub fn requester(&mut self) -> (requester: &mut T)
        ensures
            *requester == old(self)@.requester,
            final(self)@ == (IncomingEndpointView { requester: *final(requester), ..old(self)@ }),
    {
        &mut self.requester
    }
}

/// What the service answered to a check-in.
#[derive(Debug, PartialEq, Eq, Hash)]
pub enum CheckinResponse {
    /// The service accepted the check-in and returns its record.
    Success(ReceivedCheckin),
    /// The service refused the check-in for the reasons listed.
    ValidationError(Vec<String>),
    /// The service refused the check-in with a message.
    OtherError(String),
}

/// The mathematical value of a [`CheckinResponse`].
pub ghost enum CheckinResponseView {
    Success(ReceivedCheckinView),
    ValidationError(Seq<Seq<char>>),
    OtherError(Seq<char>),
}

impl View for CheckinResponse {
    type V = CheckinResponseView;

    open spec fn view(&self) -> CheckinResponseView {
        match self {
            CheckinResponse::Success(record) => CheckinResponseView::Success(record@),
            CheckinResponse::ValidationError(violations) => CheckinResponseView::ValidationError(
                violations.deep_view(),
            ),
            CheckinResponse::OtherError(message) => CheckinResponseView::OtherError(message@),
        }
    }
}

impl Clone for CheckinResponse {
    fn clone(&self) -> (copy: CheckinResponse)
        ensures
            copy@ == self@,
    {
        match self {
            CheckinResponse::Success(record) => CheckinResponse::Success(record.clone()),
            CheckinResponse::ValidationError(violations) => CheckinResponse::ValidationError(
                violations.clone(),
            ),
            CheckinResponse::OtherError(message) => CheckinResponse::OtherError(message.clone()),
        }
    }
}

/// The value of an outcome of reading a response.
pub open spec fn outcome_view(outcome: Result<CheckinResponse, ResponseError>) -> Result<
    CheckinResponseView,
    ResponseErrorView,
> {
    match outcome {
        Ok(response) => Ok(response@),
        Err(error) => Err(error@),
    }
}

/// What a response body means, with `when` for the timestamp of the record
/// it may hold.
///
/// The body's own `status` member decides. With 200 the `checkin` member is
/// the record of the check-in. With 404 or 422 an array under
/// `error.violations` lists why the check-in was refused; without such an
/// array `error.message` says why, and counts as empty where it is no
/// string. Any other status is an error that keeps the status and the body.
pub open spec fn classify(body: JsonView, when: Option<TimestampView>) -> Result<
    CheckinResponseView,
    ResponseErrorView,
> {
    match body.member("status"@).as_u64() {
        None => Err(ResponseErrorView::MissingStatus),
        Some(status) => if status == 200 {
            match ReceivedCheckinView::from_json(body.member("checkin"@), when) {
                Some(record) => Ok(CheckinResponseView::Success(record)),
                None => Err(ResponseErrorView::InvalidCheckin),
            }
        } else if status == 404 || status == 422 {
            let error = body.member("error"@);
            match error.member("violations"@) {
                JsonView::Array(items) => match texts_of(items) {
                    Some(violations) => Ok(CheckinResponseView::ValidationError(violations)),
                    None => Err(ResponseErrorView::InvalidViolations),
                },
                _ => Ok(
                    CheckinResponseView::OtherError(
                        match error.member("message"@).as_str() {
                            Some(message) => message,
                            None => Seq::empty(),
                        },
                    ),
                ),
            }
        } else {
            Err(ResponseErrorView::UnexpectedStatus { status, body })
        },
    }
}

/// The timestamp that stands in a response body under `checkin.checked_in_at`.
pub open spec fn echoed_timestamp(body: JsonView) -> Option<TimestampView> {
    match body.member("checkin"@).member("checked_in_at"@).as_str() {
        Some(text) => parsed_timestamp(text),
        None => None,
    }
}

/// Reads a response body as the outcome of a check-in, given the timestamp
/// that was read from the record in it.
pub fn classify_response(value: &Json, checked_in_at: Option<Timestamp>) -> (outcome: Result<
    CheckinResponse,
    ResponseError,
>)
    ensures
        outcome_view(outcome) == classify(value@, checked_in_at.deep_view()),
{
    let status = match value.get_u64("status") {
        Some(status) => status,
        None => return Err(ResponseError::MissingStatus),
    };
    if status == 200 {
        let record = match value.get("checkin") {
            Some(json) => ReceivedCheckin::from_json(json, checked_in_at),
            None => None,
        };
        match record {
            Some(record) => Ok(CheckinResponse::Success(record)),
            None => Err(ResponseError::InvalidCheckin),
        }
    } else if status == 404 || status == 422 {
        let error = value.get("error");
        match member(error, "violations") {
            Some(list) if list.is_array() => match list.as_strings() {
                Some(violations) => Ok(CheckinResponse::ValidationError(violations)),
                None => Err(ResponseError::InvalidViolations),
            },
            _ => {
                let message = match member(error, "message") {
                    Some(Json::String(text)) => text.clone(),
                    _ => String::new(),
                };
                Ok(CheckinResponse::OtherError(message))
            },
        }
    } else {
        Err(ResponseError::UnexpectedStatus { status, body: value.clone() })
    }
}

/// Reads a response body as the outcome of a check-in.
pub fn parse_response(value: &Json) -> (outcome: Result<CheckinResponse, ResponseError>)
    ensures
        outcome_view(outcome) == classify(value@, echoed_timestamp(value@)),
{
    let checked_in_at = match member(value.get("checkin"), "checked_in_at") {
        Some(Json::String(text)) => Timestamp::parse(text.as_str()),
        _ => None,
    };
    classify_response(value, checked_in_at)
}

} // verus!
