//! The team-chat side: its records, the requests sent to it and the events
//! pulled from it.
//!
//! The client here plans each call and judges each answer; sending the
//! request and reading the answer is left to the caller.

pub mod codec;
pub mod event_handler;
pub mod types;
pub mod urlencoding;
pub mod websocket;

pub use self::event_handler::{ZulipEventHandler, ZulipEventProcessor};
pub use self::websocket::{ZulipRealTimeClient, ZulipWebSocketClient};
pub use self::types::{
    MessageFlag, RegisterQueueRequest, SendMessageRequest, ZulipApiResponse, ZulipEvent,
    ZulipEventsResponse, ZulipMessage, ZulipMessagesResponse, ZulipQueue, ZulipReaction,
    ZulipSendMessageResponse, ZulipStream, ZulipStreamsResponse, ZulipUser, ZulipUsersResponse,
};

use vstd::prelude::*;
use vstd::string::StringExecFns;
use vstd::utf8::encode_utf8;
use crate::json::Json;
use crate::matrix::int_at;
use crate::text::{
    decimal, opt_str_view, opt_view, push_decimal, trim_end, trim_end_of, trim_start, trim_start_of,
};
use crate::utils::BridgeError;
use crate::zulip::codec::{
    base64_encode, base64_fits, base64_of, json_quote, json_quoted, url_join, url_joined, url_parse,
    url_parts,
};
use crate::zulip::urlencoding::{encode, urlencoded_text};

verus! {

/// How long a call to the team-chat side may take, in seconds.
pub const HTTP_TIMEOUT_SECS: u64 = 30;

/// The method of a request.
#[derive(Debug, Clone, Copy, PartialEq, Eq, Structural)]
pub enum HttpMethod {
    Get,
    Post,
    Delete,
}

/// A call to the team-chat side: its method, its path below the API root
/// with the query, and the fields of its form.
#[derive(Debug, Clone)]
pub struct ZulipRequest {
    pub method: HttpMethod,
    pub path: String,
    pub form: Vec<(String, String)>,
}

/// The fields of a form as plain values.
pub open spec fn form_view(form: Seq<(String, String)>) -> Seq<(Seq<char>, Seq<char>)> {
    Seq::new(form.len(), |i: int| (form[i].0@, form[i].1@))
}

impl ZulipRequest {
    /// Whether this is the request with the given method, path and form.
    pub open spec fn is(
        &self,
        method: HttpMethod,
        path: Seq<char>,
        form: Seq<(Seq<char>, Seq<char>)>,
    ) -> bool {
        &&& self.method == method
        &&& self.path@ == path
        &&& form_view(self.form@) == form
    }
}

/// The text of an optional number, the empty text for none.
pub open spec fn decimal_or(n: Option<i64>, otherwise: Seq<char>) -> Seq<char> {
    match n {
        Some(v) => decimal(v as int),
        None => otherwise,
    }
}

/// The fields that an optional text adds to a form.
pub open spec fn optional_field(name: Seq<char>, value: Option<Seq<char>>) -> Seq<
    (Seq<char>, Seq<char>),
> {
    match value {
        Some(v) => seq![(name, v)],
        None => Seq::empty(),
    }
}

/// The text of a flag.
pub open spec fn flag_text(flag: bool) -> Seq<char> {
    if flag {
        "true"@
    } else {
        "false"@
    }
}

/// The fields that an optional flag adds to a form.
pub open spec fn optional_flag(
    name: Seq<char>,
    value: Option<bool>,
) -> Seq<(Seq<char>, Seq<char>)> {
    match value {
        Some(v) => seq![(name, flag_text(v))],
        None => Seq::empty(),
    }
}

/// The form of a message to send: its type, then each field that is
/// present, then its content.
pub open spec fn send_form_of(request: SendMessageRequest) -> Seq<(Seq<char>, Seq<char>)> {
    seq![("type"@, request.msg_type@)] + optional_field("to"@, opt_view(request.to))
        + optional_field(
        "stream_id"@,
        match request.stream_id {
            Some(id) => Some(decimal(id as int)),
            None => None,
        },
    ) + optional_field("topic"@, opt_view(request.topic)) + seq![("content"@, request.content@)]
        + optional_field("local_id"@, opt_view(request.local_id)) + optional_field(
        "queue_id"@,
        opt_view(request.queue_id),
    )
}

/// The JSON array of the string literals of `items`, or the reason why one
/// of them has no literal.
pub open spec fn json_string_array(items: Seq<Seq<char>>) -> Result<Seq<char>, Seq<char>> {
    match json_string_list(items) {
        Ok(inner) => Ok("["@ + inner + "]"@),
        Err(reason) => Err(reason),
    }
}

/// The string literals of `items`, separated by commas.
pub open spec fn json_string_list(items: Seq<Seq<char>>) -> Result<Seq<char>, Seq<char>>
    decreases items.len(),
{
    if items.len() == 0 {
        Ok(Seq::empty())
    } else {
        match json_string_list(items.drop_last()) {
            Ok(head) => match json_quoted(items.last()) {
                Ok(quoted) => Ok(
                    if items.len() == 1 {
                        quoted
                    } else {
                        head + ","@ + quoted
                    },
                ),
                Err(reason) => Err(reason),
            },
            Err(reason) => Err(reason),
        }
    }
}

/// The narrow that selects a stream, and a topic of it where one is given:
/// a JSON array of operator and operand pairs.
pub open spec fn narrow_of(
    stream_id: i64,
    topic: Option<Seq<char>>,
) -> Result<Seq<char>, Seq<char>> {
    let stream = "[{\"operator\":\"stream\",\"operand\":"@ + decimal(stream_id as int) + "}"@;
    match topic {
        None => Ok(stream + "]"@),
        Some(t) => match json_quoted(t) {
            Ok(quoted) => Ok(stream + ",{\"operator\":\"topic\",\"operand\":"@ + quoted + "}]"@),
            Err(reason) => Err(reason),
        },
    }
}

/// The JSON object that describes one subscription, its members in the
/// order of their names.
pub open spec fn subscription_of(name: Seq<char>, description: Seq<char>) -> Result<
    Seq<char>,
    Seq<char>,
> {
    match json_quoted(name) {
        Ok(n) => match json_quoted(description) {
            Ok(d) => Ok("{\"description\":"@ + d + ",\"name\":"@ + n + "}"@),
            Err(reason) => Err(reason),
        },
        Err(reason) => Err(reason),
    }
}

/// The JSON objects that describe `subscriptions`, separated by commas.
pub open spec fn subscription_list(subscriptions: Seq<(Seq<char>, Seq<char>)>) -> Result<
    Seq<char>,
    Seq<char>,
>
    decreases subscriptions.len(),
{
    if subscriptions.len() == 0 {
        Ok(Seq::empty())
    } else {
        match subscription_list(subscriptions.drop_last()) {
            Ok(head) => match subscription_of(subscriptions.last().0, subscriptions.last().1) {
                Ok(item) => Ok(
                    if subscriptions.len() == 1 {
                        item
                    } else {
                        head + ","@ + item
                    },
                ),
                Err(reason) => Err(reason),
            },
            Err(reason) => Err(reason),
        }
    }
}

/// The names and descriptions of `subscriptions` as plain values.
pub open spec fn subscriptions_view(
    subscriptions: Seq<(&str, &str)>,
) -> Seq<(Seq<char>, Seq<char>)> {
    Seq::new(subscriptions.len(), |i: int| (subscriptions[i].0@, subscriptions[i].1@))
}

/// The views of `items`.
pub open spec fn strings_view(items: Seq<String>) -> Seq<Seq<char>> {
    Seq::new(items.len(), |i: int| items[i]@)
}

/// What the judgement of an answer yields: the payload of a success, or the
/// complaint `failure` with the server's message for anything else.
pub open spec fn judged<T>(response: ZulipApiResponse<T>, failure: Seq<char>, r: Result<
    Option<T>,
    BridgeError,
>) -> bool {
    if response.result@ == "success"@ {
        r == Ok::<Option<T>, BridgeError>(response.data)
    } else {
        r matches Err(BridgeError::Zulip(m)) && m@ == failure + ": "@ + response.msg@
    }
}

/// What the judgement of an answer that must carry a payload yields: the
/// payload of a success; the complaint `missing` for a success without
/// one; the complaint `failure` with the server's message for anything
/// else.
pub open spec fn judged_required<T>(
    response: ZulipApiResponse<T>,
    failure: Seq<char>,
    missing: Seq<char>,
    r: Result<T, BridgeError>,
) -> bool {
    if response.result@ == "success"@ {
        match response.data {
            Some(v) => r == Ok::<T, BridgeError>(v),
            None => r matches Err(BridgeError::Zulip(m)) && m@ == missing,
        }
    } else {
        r matches Err(BridgeError::Zulip(m)) && m@ == failure + ": "@ + response.msg@
    }
}

fn judge<T>(response: ZulipApiResponse<T>, failure: &str) -> (r: Result<Option<T>, BridgeError>)
    ensures
        judged(response, failure@, r),
{
    if !response.is_success() {
        let mut m = String::from_str(failure);
        m.append(": ");
        m.append(response.msg.as_str());
        return Err(BridgeError::Zulip(m));
    }
    Ok(response.data)
}

fn judge_required<T>(response: ZulipApiResponse<T>, failure: &str, missing: &str) -> (r: Result<
    T,
    BridgeError,
>)
    ensures
        judged_required(response, failure@, missing@, r),
{
    match judge(response, failure) {
        Ok(Some(v)) => Ok(v),
        Ok(None) => Err(BridgeError::Zulip(String::from_str(missing))),
        Err(e) => Err(e),
    }
}

fn plain_request(method: HttpMethod, path: String) -> (r: ZulipRequest)
    ensures
        r.is(method, path@, Seq::empty()),
{
    let r = ZulipRequest { method, path, form: Vec::new() };
    assert(form_view(r.form@) =~= Seq::empty());
    r
}

fn push_field(form: &mut Vec<(String, String)>, name: &str, value: &str)
    ensures
        form_view(final(form)@) == form_view(old(form)@) + seq![(name@, value@)],
{
    form.push((name.to_owned(), value.to_owned()));
    assert(form_view(form@) =~= form_view(old(form)@) + seq![(name@, value@)]);
}

fn push_optional_field(form: &mut Vec<(String, String)>, name: &str, value: &Option<String>)
    ensures
        form_view(final(form)@) == form_view(old(form)@) + optional_field(name@, opt_view(*value)),
{
    match value {
        Some(v) => {
            push_field(form, name, v.as_str());
        },
        None => {
            assert(form_view(form@) =~= form_view(old(form)@) + Seq::empty());
        },
    }
}

fn push_optional_flag(form: &mut Vec<(String, String)>, name: &str, value: Option<bool>)
    ensures
        form_view(final(form)@) == form_view(old(form)@) + optional_flag(name@, value),
{
    match value {
        Some(v) => {
            push_field(
                form,
                name,
                if v {
                    "true"
                } else {
                    "false"
                },
            );
        },
        None => {
            assert(form_view(form@) =~= form_view(old(form)@) + Seq::empty());
        },
    }
}

fn message_path(message_id: i64, suffix: &str) -> (r: String)
    ensures
        r@ == "messages/"@ + decimal(message_id as int) + suffix@,
{
    let mut path = String::from_str("messages/");
    push_decimal(&mut path, message_id);
    path.append(suffix);
    path
}

/// The JSON array of the string literals of `items`.
pub fn json_strings(items: &Vec<String>) -> (r: Result<String, String>)
    ensures
        r is Ok,
        match r {
            Ok(text) => json_string_array(strings_view(items@)) == Ok::<Seq<char>, Seq<char>>(
                text@,
            ),
            Err(reason) => json_string_array(strings_view(items@)) == Err::<Seq<char>, Seq<char>>(
                reason@,
            ),
        },
{
    let mut out = String::from_str("[");
    let ghost all = strings_view(items@);
    let ghost mut inner: Seq<char> = Seq::empty();
    let mut i: usize = 0;
    proof {
        assert(all.take(0) =~= Seq::<Seq<char>>::empty());
    }
    while i < items.len()
        invariant
            i <= items@.len(),
            all == strings_view(items@),
            json_string_list(all.take(i as int)) == Ok::<Seq<char>, Seq<char>>(inner),
            out@ == "["@ + inner,
        decreases items@.len() - i,
    {
        proof {
            assert(all.take(i + 1).drop_last() =~= all.take(i as int));
            assert(all.take(i + 1).last() == items@[i as int]@);
        }
        match json_quote(items[i].as_str()) {
            Ok(quoted) => {
                if i > 0 {
                    out.append(",");
                    proof {
                        inner = inner + ","@ + quoted@;
                    }
                } else {
                    proof {
                        assert(inner =~= Seq::<char>::empty());
                        inner = quoted@;
                    }
                }
                out.append(quoted.as_str());
                assert(out@ =~= "["@ + inner);
            },
            Err(reason) => {
                proof {
                    lemma_string_list_fails(all, i as int);
                }
                return Err(reason);
            },
        }
        i += 1;
    }
    proof {
        assert(all.take(items@.len() as int) =~= all);
    }
    out.append("]");
    Ok(out)
}

/// Where one item has no string literal, the rest of the list does not save
/// it: the list fails with the reason of the first such item.
pub proof fn lemma_string_list_fails(items: Seq<Seq<char>>, i: int)
    requires
        0 <= i < items.len(),
        json_string_list(items.take(i)) is Ok,
        json_quoted(items[i]) is Err,
    ensures
        json_string_list(items) == Err::<Seq<char>, Seq<char>>(json_quoted(items[i])->Err_0),
        json_string_array(items) == Err::<Seq<char>, Seq<char>>(json_quoted(items[i])->Err_0),
    decreases items.len() - i,
{
    if i == items.len() - 1 {
        assert(items.drop_last() =~= items.take(i));
    } else {
        let head = items.drop_last();
        assert(head.take(i) =~= items.take(i));
        lemma_string_list_fails(head, i);
    }
}

/// Where one subscription has no JSON object, the list fails with the
/// reason of the first such subscription.
pub proof fn lemma_subscription_list_fails(items: Seq<(Seq<char>, Seq<char>)>, i: int)
    requires
        0 <= i < items.len(),
        subscription_list(items.take(i)) is Ok,
        subscription_of(items[i].0, items[i].1) is Err,
    ensures
        subscription_list(items) == Err::<Seq<char>, Seq<char>>(
            subscription_of(items[i].0, items[i].1)->Err_0,
        ),
    decreases items.len() - i,
{
    if i == items.len() - 1 {
        assert(items.drop_last() =~= items.take(i));
    } else {
        let head = items.drop_last();
        assert(head.take(i) =~= items.take(i));
        lemma_subscription_list_fails(head, i);
    }
}

fn subscription_json(name: &str, description: &str) -> (r: Result<String, String>)
    ensures
        r is Ok,
        match r {
            Ok(text) => subscription_of(name@, description@) == Ok::<Seq<char>, Seq<char>>(text@),
            Err(reason) => subscription_of(name@, description@) == Err::<Seq<char>, Seq<char>>(
                reason@,
            ),
        },
{
    let n = match json_quote(name) {
        Ok(n) => n,
        Err(reason) => {
            return Err(reason);
        },
    };
    let d = match json_quote(description) {
        Ok(d) => d,
        Err(reason) => {
            return Err(reason);
        },
    };
    let mut out = String::from_str("{\"description\":");
    out.append(d.as_str());
    out.append(",\"name\":");
    out.append(n.as_str());
    out.append("}");
    Ok(out)
}

/// The narrow that selects the stream `stream_id`, and its topic `topic`
/// where one is given.
pub fn narrow_json(stream_id: i64, topic: Option<&str>) -> (r: Result<String, String>)
    ensures
        r is Ok,
        match r {
            Ok(text) => narrow_of(stream_id, opt_str_view(topic)) == Ok::<Seq<char>, Seq<char>>(
                text@,
            ),
            Err(reason) => narrow_of(stream_id, opt_str_view(topic)) == Err::<
                Seq<char>,
                Seq<char>,
            >(reason@),
        },
{
    let mut out = String::from_str("[{\"operator\":\"stream\",\"operand\":");
    push_decimal(&mut out, stream_id);
    out.append("}");
    match topic {
        None => {
            out.append("]");
        },
        Some(t) => {
            match json_quote(t) {
                Ok(quoted) => {
                    out.append(",{\"operator\":\"topic\",\"operand\":");
                    out.append(quoted.as_str());
                    out.append("}]");
                },
                Err(reason) => {
                    return Err(reason);
                },
            }
        },
    }
    Ok(out)
}

/// What an upload answers with.
#[derive(Debug, Clone)]
pub struct UploadResponse {
    pub uri: Option<String>,
}

/// Plans the calls to one site of the team-chat side and judges its
/// answers.
pub struct ZulipClient {
    site: String,
    email: String,
    api_key: String,
    base_url: String,
}

impl ZulipClient {
    /// The site's address without slashes at its end.
    pub closed spec fn site(&self) -> Seq<char> {
        self.site@
    }

    /// The address of the bot account.
    pub closed spec fn email(&self) -> Seq<char> {
        self.email@
    }

    /// The key of the bot account.
    pub closed spec fn api_key(&self) -> Seq<char> {
        self.api_key@
    }

    /// The site's address as it was given.
    pub closed spec fn base_url(&self) -> Seq<char> {
        self.base_url@
    }

    /// A client for the site `site`, as the account `email` with the key
    /// `api_key`. Fails where `site` is not an address.
    pub fn new(site: &str, email: &str, api_key: &str) -> (r: Result<Self, BridgeError>)
        ensures
            match r {
                Ok(client) => {
                    &&& url_parts(site@) is Ok
                    &&& client.site() == trim_end_of(site@, '/')
                    &&& client.email() == email@
                    &&& client.api_key() == api_key@
                    &&& client.base_url() == site@
                },
                Err(e) => url_parts(site@) matches Err(reason) && e matches BridgeError::Zulip(m)
                    && m@ == "Invalid site URL: "@ + reason,
            },
    {
        match url_parse(site) {
            Ok(_) => {},
            Err(reason) => {
                let mut m = String::from_str("Invalid site URL: ");
                m.append(reason.as_str());
                return Err(BridgeError::Zulip(m));
            },
        }
        Ok(
            ZulipClient {
                site: trim_end(site, '/').to_owned(),
                email: email.to_owned(),
                api_key: api_key.to_owned(),
                base_url: site.to_owned(),
            },
        )
    }

    /// The site's address without slashes at its end.
    pub fn site_url(&self) -> (r: &str)
        ensures
            r@ == self.site(),
    {
        self.site.as_str()
    }

    /// The credentials that every request carries: the account's address,
    /// a colon, and the key.
    pub open spec fn credentials(&self) -> Seq<char> {
        self.email() + ":"@ + self.api_key()
    }

    /// The value of the authorization header: `Basic` and the Base64
    /// encoding of the credentials. Fails where the credentials are too
    /// long to be encoded.
    pub fn auth_header(&self) -> (r: Result<String, BridgeError>)
        ensures
            match r {
                Ok(header) => base64_fits(encode_utf8(self.credentials()).len()) && header@
                    == "Basic "@ + base64_of(self.credentials()),
                Err(e) => !base64_fits(encode_utf8(self.credentials()).len()) && e is Zulip,
            },
    {
        let mut credentials = self.email.clone();
        credentials.append(":");
        credentials.append(self.api_key.as_str());
        assert(credentials@ =~= self.credentials());
        let thirds = credentials.as_str().as_bytes().len() / 3;
        let limit = (usize::MAX - 4) / 4;
        assert(limit * 4 <= usize::MAX - 4 < limit * 4 + 4);
        if thirds > limit {
            return Err(
                BridgeError::Zulip(String::from_str("Invalid header: credentials too long")),
            );
        }
        let mut header = String::from_str("Basic ");
        header.append(base64_encode(credentials.as_str()).as_str());
        Ok(header)
    }

    /// The reference that `path` makes below the API root.
    pub open spec fn api_reference(path: Seq<char>) -> Seq<char> {
        "/api/v1/"@ + trim_start_of(path, '/')
    }

    /// The address of `path` below the API root of the site.
    pub fn api_url(&self, path: &str) -> (r: Result<String, BridgeError>)
        ensures
            match r {
                Ok(address) => url_joined(self.base_url(), Self::api_reference(path@)) == Ok::<
                    Seq<char>,
                    Seq<char>,
                >(address@),
                Err(e) => url_joined(self.base_url(), Self::api_reference(path@)) matches Err(
                    reason,
                ) && e matches BridgeError::Zulip(m) && m@ == "Invalid API URL: "@ + reason,
            },
    {
        let mut reference = String::from_str("/api/v1/");
        reference.append(trim_start(path, '/'));
        match url_join(self.base_url.as_str(), reference.as_str()) {
            Ok(address) => Ok(address),
            Err(reason) => {
                let mut m = String::from_str("Invalid API URL: ");
                m.append(reason.as_str());
                Err(BridgeError::Zulip(m))
            },
        }
    }

    /// The request for the bot's own profile.
    pub fn get_profile_request(&self) -> (r: ZulipRequest)
        ensures
            r.is(HttpMethod::Get, "users/me"@, Seq::empty()),
    {
        plain_request(HttpMethod::Get, String::from_str("users/me"))
    }

    /// The bot's own profile, out of the answer.
    pub fn get_profile(&self, response: ZulipApiResponse<ZulipUser>) -> (r: Result<
        ZulipUser,
        BridgeError,
    >)
        ensures
            judged_required(response, "Failed to get profile"@, "No profile data"@, r),
    {
        judge_required(response, "Failed to get profile", "No profile data")
    }

    /// The request for the users of the realm.
    pub fn get_users_request(&self) -> (r: ZulipRequest)
        ensures
            r.is(HttpMethod::Get, "users"@, Seq::empty()),
    {
        plain_request(HttpMethod::Get, String::from_str("users"))
    }

    /// The users of the realm, out of the answer; none where the answer
    /// carries none.
    pub fn get_users(&self, response: ZulipApiResponse<ZulipUsersResponse>) -> (r: Result<
        Vec<ZulipUser>,
        BridgeError,
    >)
        ensures
            if response.result@ == "success"@ {
                r matches Ok(users) && match response.data {
                    Some(d) => users == d.members,
                    None => users@.len() == 0,
                }
            } else {
                r matches Err(BridgeError::Zulip(m)) && m@ == "Failed to get users"@ + ": "@
                    + response.msg@
            },
    {
        match judge(response, "Failed to get users") {
            Ok(Some(d)) => Ok(d.members),
            Ok(None) => Ok(Vec::new()),
            Err(e) => Err(e),
        }
    }

    /// The request for the streams of the realm.
    pub fn get_streams_request(&self) -> (r: ZulipRequest)
        ensures
            r.is(HttpMethod::Get, "streams"@, Seq::empty()),
    {
        plain_request(HttpMethod::Get, String::from_str("streams"))
    }

    /// The streams of the realm, out of the answer; none where the answer
    /// carries none.
    pub fn get_streams(&self, response: ZulipApiResponse<ZulipStreamsResponse>) -> (r: Result<
        Vec<ZulipStream>,
        BridgeError,
    >)
        ensures
            if response.result@ == "success"@ {
                r matches Ok(streams) && match response.data {
                    Some(d) => streams == d.streams,
                    None => streams@.len() == 0,
                }
            } else {
                r matches Err(BridgeError::Zulip(m)) && m@ == "Failed to get streams"@ + ": "@
                    + response.msg@
            },
    {
        match judge(response, "Failed to get streams") {
            Ok(Some(d)) => Ok(d.streams),
            Ok(None) => Ok(Vec::new()),
            Err(e) => Err(e),
        }
    }

    /// The request for the id of the stream named `stream_name`.
    pub fn get_stream_id_request(&self, stream_name: &str) -> (r: ZulipRequest)
        ensures
            r.is(
                HttpMethod::Get,
                "get_stream_id?stream="@ + urlencoded_text(stream_name@),
                Seq::empty(),
            ),
    {
        let mut path = String::from_str("get_stream_id?stream=");
        path.append(encode(stream_name).as_str());
        plain_request(HttpMethod::Get, path)
    }

    /// The id of a stream, out of the answer.
    pub fn get_stream_id(&self, response: ZulipApiResponse<Json>) -> (r: Result<i64, BridgeError>)
        ensures
            if response.result@ == "success"@ {
                match response.data {
                    Some(d) => match int_at(d@, "stream_id"@) {
                        Some(id) => r == Ok::<i64, BridgeError>(id),
                        None => r matches Err(BridgeError::Zulip(m)) && m@
                            == "No stream_id in response"@,
                    },
                    None => r matches Err(BridgeError::Zulip(m)) && m@
                        == "No stream_id in response"@,
                }
            } else {
                r matches Err(BridgeError::Zulip(m)) && m@ == "Failed to get stream ID"@ + ": "@
                    + response.msg@
            },
    {
        let ghost data = response.data;
        match judge(response, "Failed to get stream ID") {
            Ok(Some(d)) => {
                let id = match d.get("stream_id") {
                    Some(v) => v.as_i64(),
                    None => None,
                };
                match id {
                    Some(n) => Ok(n),
                    None => Err(BridgeError::Zulip(String::from_str("No stream_id in response"))),
                }
            },
            Ok(None) => Err(BridgeError::Zulip(String::from_str("No stream_id in response"))),
            Err(e) => Err(e),
        }
    }

    /// The request that sends `request`.
    pub fn send_message_request(&self, request: &SendMessageRequest) -> (r: ZulipRequest)
        ensures
            r.is(HttpMethod::Post, "messages"@, send_form_of(*request)),
    {
        let mut form: Vec<(String, String)> = Vec::new();
        assert(form_view(form@) =~= Seq::empty());
        push_field(&mut form, "type", request.msg_type.as_str());
        push_optional_field(&mut form, "to", &request.to);
        match request.stream_id {
            Some(id) => {
                let mut text = String::new();
                push_decimal(&mut text, id);
                assert(text@ =~= decimal(id as int));
                push_field(&mut form, "stream_id", text.as_str());
            },
            None => {
                assert(form_view(form@) =~= form_view(form@) + Seq::empty());
            },
        }
        push_optional_field(&mut form, "topic", &request.topic);
        push_field(&mut form, "content", request.content.as_str());
        push_optional_field(&mut form, "local_id", &request.local_id);
        push_optional_field(&mut form, "queue_id", &request.queue_id);
        ZulipRequest { method: HttpMethod::Post, path: String::from_str("messages"), form }
    }

    /// The id of the message that was sent, out of the answer.
    pub fn send_message(&self, response: ZulipApiResponse<ZulipSendMessageResponse>) -> (r: Result<
        i64,
        BridgeError,
    >)
        ensures
            if response.result@ == "success"@ {
                match response.data {
                    Some(d) => r == Ok::<i64, BridgeError>(d.id),
                    None => r matches Err(BridgeError::Zulip(m)) && m@
                        == "No message ID in response"@,
                }
            } else {
                r matches Err(BridgeError::Zulip(m)) && m@ == "Failed to send message"@ + ": "@
                    + response.msg@
            },
    {
        match judge(response, "Failed to send message") {
            Ok(Some(d)) => Ok(d.id),
            Ok(None) => Err(BridgeError::Zulip(String::from_str("No message ID in response"))),
            Err(e) => Err(e),
        }
    }

    /// The request that sends `content` to the topic `topic` of the stream
    /// `stream_id`.
    pub fn send_stream_message(&self, stream_id: i64, topic: &str, content: &str) -> (r:
        ZulipRequest)
        ensures
            r.is(
                HttpMethod::Post,
                "messages"@,
                seq![
                    ("type"@, "stream"@),
                    ("stream_id"@, decimal(stream_id as int)),
                    ("topic"@, topic@),
                    ("content"@, content@),
                ],
            ),
    {
        let request = SendMessageRequest::stream(stream_id, topic, content);
        let r = self.send_message_request(&request);
        assert(send_form_of(request) =~= seq![
            ("type"@, "stream"@),
            ("stream_id"@, decimal(stream_id as int)),
            ("topic"@, topic@),
            ("content"@, content@),
        ]);
        r
    }

    /// The request that sends `content` privately to the users `user_ids`.
    pub fn send_private_message(&self, user_ids: &[i64], content: &str) -> (r: ZulipRequest)
        ensures
            r.is(
                HttpMethod::Post,
                "messages"@,
                seq![
                    ("type"@, "private"@),
                    ("to"@, crate::zulip::types::comma_joined(user_ids@)),
                    ("content"@, content@),
                ],
            ),
    {
        let request = SendMessageRequest::private(user_ids, content);
        let r = self.send_message_request(&request);
        assert(send_form_of(request) =~= seq![
            ("type"@, "private"@),
            ("to"@, crate::zulip::types::comma_joined(user_ids@)),
            ("content"@, content@),
        ]);
        r
    }

    /// The path that asks for the messages of a stream around an anchor.
    pub open spec fn messages_path(
        narrow: Seq<char>,
        anchor: Option<i64>,
        num_before: i32,
        num_after: i32,
    ) -> Seq<char> {
        "messages?narrow="@ + urlencoded_text(narrow) + "&anchor="@ + decimal_or(anchor, "newest"@)
            + "&num_before="@ + decimal(num_before as int) + "&num_after="@ + decimal(
            num_after as int,
        )
    }

    /// The request for the messages of the stream `stream_id`, of its topic
    /// `topic` where one is given, around `anchor` or else around the
    /// newest.
    pub fn get_messages_request(
        &self,
        stream_id: i64,
        topic: Option<&str>,
        anchor: Option<i64>,
        num_before: i32,
        num_after: i32,
    ) -> (r: Result<ZulipRequest, BridgeError>)
        ensures
            r is Ok,
            match r {
                Ok(request) => narrow_of(stream_id, opt_str_view(topic)) matches Ok(narrow)
                    && request.is(
                    HttpMethod::Get,
                    Self::messages_path(narrow, anchor, num_before, num_after),
                    Seq::empty(),
                ),
                Err(e) => narrow_of(stream_id, opt_str_view(topic)) is Err && e is Zulip,
            },
    {
        let narrow = match narrow_json(stream_id, topic) {
            Ok(n) => n,
            Err(reason) => {
                let mut m = String::from_str("Failed to serialize narrow: ");
                m.append(reason.as_str());
                return Err(BridgeError::Zulip(m));
            },
        };
        let mut path = String::from_str("messages?narrow=");
        path.append(encode(narrow.as_str()).as_str());
        path.append("&anchor=");
        match anchor {
            Some(a) => {
                push_decimal(&mut path, a);
            },
            None => {
                path.append("newest");
            },
        }
        path.append("&num_before=");
        push_decimal(&mut path, num_before as i64);
        path.append("&num_after=");
        push_decimal(&mut path, num_after as i64);
        Ok(plain_request(HttpMethod::Get, path))
    }

    /// The messages, out of the answer; none where the answer carries none.
    pub fn get_messages(&self, response: ZulipApiResponse<ZulipMessagesResponse>) -> (r: Result<
        Vec<ZulipMessage>,
        BridgeError,
    >)
        ensures
            if response.result@ == "success"@ {
                r matches Ok(messages) && match response.data {
                    Some(d) => messages == d.messages,
                    None => messages@.len() == 0,
                }
            } else {
                r matches Err(BridgeError::Zulip(m)) && m@ == "Failed to get messages"@ + ": "@
                    + response.msg@
            },
    {
        match judge(response, "Failed to get messages") {
            Ok(Some(d)) => Ok(d.messages),
            Ok(None) => Ok(Vec::new()),
            Err(e) => Err(e),
        }
    }

    /// The request for the message `message_id`.
    pub fn get_message_request(&self, message_id: i64) -> (r: ZulipRequest)
        ensures
            r.is(HttpMethod::Get, "messages/"@ + decimal(message_id as int), Seq::empty()),
    {
        let path = message_path(message_id, "");
        proof {
            reveal_strlit("");
            assert(""@ =~= Seq::<char>::empty());
            assert(path@ =~= "messages/"@ + decimal(message_id as int));
        }
        plain_request(HttpMethod::Get, path)
    }

    /// The message, out of the answer.
    pub fn get_message(&self, response: ZulipApiResponse<ZulipMessage>) -> (r: Result<
        ZulipMessage,
        BridgeError,
    >)
        ensures
            judged_required(response, "Failed to get message"@, "No message data"@, r),
    {
        judge_required(response, "Failed to get message", "No message data")
    }

    /// The request that makes `content` the content of the message
    /// `message_id`.
    pub fn edit_message_request(&self, message_id: i64, content: &str) -> (r: ZulipRequest)
        ensures
            r.is(
                HttpMethod::Post,
                "messages/"@ + decimal(message_id as int),
                seq![("content"@, content@)],
            ),
    {
        let path = message_path(message_id, "");
        proof {
            reveal_strlit("");
            assert(""@ =~= Seq::<char>::empty());
            assert(path@ =~= "messages/"@ + decimal(message_id as int));
        }
        let mut form: Vec<(String, String)> = Vec::new();
        assert(form_view(form@) =~= Seq::empty());
        push_field(&mut form, "content", content);
        ZulipRequest { method: HttpMethod::Post, path, form }
    }

    /// Whether the edit was accepted, out of the answer.
    pub fn edit_message(&self, response: ZulipApiResponse<()>) -> (r: Result<(), BridgeError>)
        ensures
            if response.result@ == "success"@ {
                r is Ok
            } else {
                r matches Err(BridgeError::Zulip(m)) && m@ == "Failed to edit message"@ + ": "@
                    + response.msg@
            },
    {
        match judge(response, "Failed to edit message") {
            Ok(_) => Ok(()),
            Err(e) => Err(e),
        }
    }

    /// The request that deletes the message `message_id`.
    pub fn delete_message_request(&self, message_id: i64) -> (r: ZulipRequest)
        ensures
            r.is(
                HttpMethod::Post,
                "messages/"@ + decimal(message_id as int) + "?allow_deleting_other=1"@,
                Seq::empty(),
            ),
    {
        plain_request(HttpMethod::Post, message_path(message_id, "?allow_deleting_other=1"))
    }

    /// Whether the deletion was accepted, out of the answer.
    pub fn delete_message(&self, response: ZulipApiResponse<()>) -> (r: Result<(), BridgeError>)
        ensures
            if response.result@ == "success"@ {
                r is Ok
            } else {
                r matches Err(BridgeError::Zulip(m)) && m@ == "Failed to delete message"@ + ": "@
                    + response.msg@
            },
    {
        match judge(response, "Failed to delete message") {
            Ok(_) => Ok(()),
            Err(e) => Err(e),
        }
    }

    /// The request that adds the emoji `emoji_name` with the code
    /// `emoji_code` as a reaction to the message `message_id`.
    pub fn add_reaction_request(&self, message_id: i64, emoji_name: &str, emoji_code: &str) -> (r:
        ZulipRequest)
        ensures
            r.is(
                HttpMethod::Post,
                "messages/"@ + decimal(message_id as int) + "/reactions"@,
                seq![
                    ("emoji_name"@, emoji_name@),
                    ("emoji_code"@, emoji_code@),
                    ("reaction_type"@, "unicode_emoji"@),
                ],
            ),
    {
        let mut form: Vec<(String, String)> = Vec::new();
        assert(form_view(form@) =~= Seq::empty());
        push_field(&mut form, "emoji_name", emoji_name);
        push_field(&mut form, "emoji_code", emoji_code);
        push_field(&mut form, "reaction_type", "unicode_emoji");
        assert(form_view(form@) =~= seq![
            ("emoji_name"@, emoji_name@),
            ("emoji_code"@, emoji_code@),
            ("reaction_type"@, "unicode_emoji"@),
        ]);
        ZulipRequest {
            method: HttpMethod::Post,
            path: message_path(message_id, "/reactions"),
            form,
        }
    }

    /// Whether the reaction was added, out of the answer.
    pub fn add_reaction(&self, response: ZulipApiResponse<()>) -> (r: Result<(), BridgeError>)
        ensures
            if response.result@ == "success"@ {
                r is Ok
            } else {
                r matches Err(BridgeError::Zulip(m)) && m@ == "Failed to add reaction"@ + ": "@
                    + response.msg@
            },
    {
        match judge(response, "Failed to add reaction") {
            Ok(_) => Ok(()),
            Err(e) => Err(e),
        }
    }

    /// The request that removes the emoji `emoji_name` with the code
    /// `emoji_code` from the reactions to the message `message_id`.
    pub fn remove_reaction_request(
        &self,
        message_id: i64,
        emoji_name: &str,
        emoji_code: &str,
    ) -> (r:
        ZulipRequest)
        ensures
            r.is(
                HttpMethod::Delete,
                "messages/"@ + decimal(message_id as int) + "/reactions?emoji_name="@
                    + urlencoded_text(emoji_name@) + "&emoji_code="@ + urlencoded_text(emoji_code@)
                    + "&reaction_type=unicode_emoji"@,
                Seq::empty(),
            ),
    {
        let mut path = message_path(message_id, "/reactions?emoji_name=");
        path.append(encode(emoji_name).as_str());
        path.append("&emoji_code=");
        path.append(encode(emoji_code).as_str());
        path.append("&reaction_type=unicode_emoji");
        plain_request(HttpMethod::Delete, path)
    }

    /// Whether the reaction was removed, out of the answer.
    pub fn remove_reaction(&self, response: ZulipApiResponse<()>) -> (r: Result<(), BridgeError>)
        ensures
            if response.result@ == "success"@ {
                r is Ok
            } else {
                r matches Err(BridgeError::Zulip(m)) && m@ == "Failed to remove reaction"@ + ": "@
                    + response.msg@
            },
    {
        match judge(response, "Failed to remove reaction") {
            Ok(_) => Ok(()),
            Err(e) => Err(e),
        }
    }

    /// The form that registers an event queue as `request` asks.
    pub open spec fn register_form_of(request: RegisterQueueRequest, event_types: Seq<char>) -> Seq<
        (Seq<char>, Seq<char>),
    > {
        seq![("event_types"@, event_types)] + optional_flag(
            "all_public_streams"@,
            request.all_public_streams,
        ) + optional_flag("include_subscribers"@, request.include_subscribers) + optional_flag(
            "client_gravatar"@,
            request.client_gravatar,
        ) + optional_flag("slim_presence"@, request.slim_presence)
    }

    /// The request that registers an event queue as `request` asks.
    pub fn register_event_queue_request(&self, request: &RegisterQueueRequest) -> (r: Result<
        ZulipRequest,
        BridgeError,
    >)
        ensures
            r is Ok,
            match r {
                Ok(planned) => json_string_array(strings_view(request.event_types@)) matches Ok(
                    types,
                ) && planned.is(
                    HttpMethod::Post,
                    "register"@,
                    Self::register_form_of(*request, types),
                ),
                Err(e) => json_string_array(strings_view(request.event_types@)) is Err
                    && e is Zulip,
            },
    {
        let types = match json_strings(&request.event_types) {
            Ok(t) => t,
            Err(reason) => {
                let mut m = String::from_str("Failed to serialize event types: ");
                m.append(reason.as_str());
                return Err(BridgeError::Zulip(m));
            },
        };
        let mut form: Vec<(String, String)> = Vec::new();
        assert(form_view(form@) =~= Seq::empty());
        push_field(&mut form, "event_types", types.as_str());
        push_optional_flag(&mut form, "all_public_streams", request.all_public_streams);
        push_optional_flag(&mut form, "include_subscribers", request.include_subscribers);
        push_optional_flag(&mut form, "client_gravatar", request.client_gravatar);
        push_optional_flag(&mut form, "slim_presence", request.slim_presence);
        Ok(ZulipRequest { method: HttpMethod::Post, path: String::from_str("register"), form })
    }

    /// The queue that was registered, out of the answer.
    pub fn register_event_queue(&self, response: ZulipApiResponse<ZulipQueue>) -> (r: Result<
        ZulipQueue,
        BridgeError,
    >)
        ensures
            judged_required(
                response,
                "Failed to register event queue"@,
                "No queue data in response"@,
                r,
            ),
    {
        judge_required(response, "Failed to register event queue", "No queue data in response")
    }

    /// The request for the events of the queue `queue_id` after the event
    /// `last_event_id`.
    pub fn get_events_request(&self, queue_id: &str, last_event_id: i64) -> (r: ZulipRequest)
        ensures
            r.is(
                HttpMethod::Get,
                "events?queue_id="@ + urlencoded_text(queue_id@) + "&last_event_id="@ + decimal(
                    last_event_id as int,
                ),
                Seq::empty(),
            ),
    {
        let mut path = String::from_str("events?queue_id=");
        path.append(encode(queue_id).as_str());
        path.append("&last_event_id=");
        push_decimal(&mut path, last_event_id);
        plain_request(HttpMethod::Get, path)
    }

    /// The events, out of the answer.
    pub fn get_events(&self, response: ZulipApiResponse<ZulipEventsResponse>) -> (r: Result<
        ZulipEventsResponse,
        BridgeError,
    >)
        ensures
            judged_required(response, "Failed to get events"@, "No events data in response"@, r),
    {
        judge_required(response, "Failed to get events", "No events data in response")
    }

    /// The request that subscribes the bot to the streams `subscriptions`,
    /// each a name and a description.
    pub fn subscribe_to_streams_request(&self, subscriptions: &[(&str, &str)]) -> (r: Result<
        ZulipRequest,
        BridgeError,
    >)
        ensures
            r is Ok,
            match r {
                Ok(planned) => subscription_list(subscriptions_view(subscriptions@)) matches Ok(
                    list,
                ) && planned.is(
                    HttpMethod::Post,
                    "users/me/subscriptions"@,
                    seq![("subscriptions"@, "["@ + list + "]"@)],
                ),
                Err(e) => subscription_list(subscriptions_view(subscriptions@)) matches Err(reason)
                    && e matches BridgeError::Zulip(m) && m@
                    == "Failed to serialize subscriptions: "@ + reason,
            },
    {
        let mut text = String::from_str("[");
        let ghost all = subscriptions_view(subscriptions@);
        let ghost mut inner: Seq<char> = Seq::empty();
        let mut i: usize = 0;
        proof {
            assert(all.take(0) =~= Seq::<(Seq<char>, Seq<char>)>::empty());
        }
        while i < subscriptions.len()
            invariant
                i <= subscriptions@.len(),
                all == subscriptions_view(subscriptions@),
                subscription_list(all.take(i as int)) == Ok::<Seq<char>, Seq<char>>(inner),
                text@ == "["@ + inner,
            decreases subscriptions@.len() - i,
        {
            proof {
                assert(all.take(i + 1).drop_last() =~= all.take(i as int));
                let here = subscriptions@[i as int];
                assert(all.take(i + 1).last() == (here.0@, here.1@));
            }
            match subscription_json(subscriptions[i].0, subscriptions[i].1) {
                Ok(item) => {
                    if i > 0 {
                        text.append(",");
                        proof {
                            inner = inner + ","@ + item@;
                        }
                    } else {
                        proof {
                            assert(inner =~= Seq::<char>::empty());
                            inner = item@;
                        }
                    }
                    text.append(item.as_str());
                    assert(text@ =~= "["@ + inner);
                },
                Err(reason) => {
                    proof {
                        lemma_subscription_list_fails(all, i as int);
                    }
                    let mut m = String::from_str("Failed to serialize subscriptions: ");
                    m.append(reason.as_str());
                    return Err(BridgeError::Zulip(m));
                },
            }
            i += 1;
        }
        proof {
            assert(all.take(subscriptions@.len() as int) =~= all);
        }
        text.append("]");
        let mut form: Vec<(String, String)> = Vec::new();
        assert(form_view(form@) =~= Seq::empty());
        push_field(&mut form, "subscriptions", text.as_str());
        Ok(
            ZulipRequest {
                method: HttpMethod::Post,
                path: String::from_str("users/me/subscriptions"),
                form,
            },
        )
    }

    /// Whether the subscriptions were accepted, out of the answer.
    pub fn subscribe_to_streams(&self, response: ZulipApiResponse<()>) -> (r: Result<
        (),
        BridgeError,
    >)
        ensures
            if response.result@ == "success"@ {
                r is Ok
            } else {
                r matches Err(BridgeError::Zulip(m)) && m@ == "Failed to subscribe to streams"@
                    + ": "@ + response.msg@
            },
    {
        match judge(response, "Failed to subscribe to streams") {
            Ok(_) => Ok(()),
            Err(e) => Err(e),
        }
    }

    /// The name under which a file is uploaded: the file's own name where
    /// the path has one, else `file`.
    pub fn upload_file_name(found: Option<String>) -> (r: String)
        ensures
            r@ == match found {
                Some(name) => name@,
                None => "file"@,
            },
    {
        match found {
            Some(name) => name,
            None => String::from_str("file"),
        }
    }

    /// The request that uploads a file; its body is the caller's to attach.
    pub fn upload_file_request(&self) -> (r: ZulipRequest)
        ensures
            r.is(HttpMethod::Post, "user_uploads"@, Seq::empty()),
    {
        plain_request(HttpMethod::Post, String::from_str("user_uploads"))
    }

    /// The address of the uploaded file, out of the answer.
    pub fn upload_file(&self, response: ZulipApiResponse<UploadResponse>) -> (r: Result<
        String,
        BridgeError,
    >)
        ensures
            if response.result@ == "success"@ {
                match response.data {
                    Some(UploadResponse { uri: Some(uri) }) => r == Ok::<String, BridgeError>(uri),
                    _ => r matches Err(BridgeError::Zulip(m)) && m@ == "No URI in upload response"@,
                }
            } else {
                r matches Err(BridgeError::Zulip(m)) && m@ == "Failed to upload file"@ + ": "@
                    + response.msg@
            },
    {
        match judge(response, "Failed to upload file") {
            Ok(Some(d)) => match d.uri {
                Some(uri) => Ok(uri),
                None => Err(BridgeError::Zulip(String::from_str("No URI in upload response"))),
            },
            Ok(None) => Err(BridgeError::Zulip(String::from_str("No URI in upload response"))),
            Err(e) => Err(e),
        }
    }
}

} // verus!
