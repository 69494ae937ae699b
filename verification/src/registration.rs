//! The registration of the bridge with a homeserver: the document that
//! names the bridge, its address, its two tokens and its namespaces.

use vstd::prelude::*;
use vstd::string::StringExecFns;
use crate::cli::CliArgs;
use crate::json::{array_view, object_view, Json, JsonValue};
use crate::text::{decimal, opt_str_view, opt_view, push_decimal};
use crate::utils::BridgeError;

verus! {

/// The number of characters of a token.
pub const TOKEN_LENGTH: usize = 64;

/// The port on which the bridge listens unless told otherwise.
pub const DEFAULT_LISTEN_PORT: u16 = 28464;

/// A pattern of identifiers that the bridge claims.
#[derive(Debug, Clone)]
pub struct Namespace {
    pub regex: String,
    pub exclusive: bool,
}

/// The registration document.
#[derive(Debug, Clone)]
pub struct Registration {
    pub id: String,
    pub url: String,
    pub as_token: String,
    pub hs_token: String,
    pub rate_limited: bool,
    pub sender_localpart: String,
    pub users: Vec<Namespace>,
    pub aliases: Vec<Namespace>,
    pub rooms: Vec<Namespace>,
}

/// Whether `c` is an ASCII letter or digit.
pub open spec fn is_alphanumeric(c: char) -> bool {
    ('0' <= c <= '9') || ('A' <= c <= 'Z') || ('a' <= c <= 'z')
}

/// Whether `token` has the length of a token and holds letters and digits
/// only.
pub open spec fn is_token(token: Seq<char>) -> bool {
    &&& token.len() == TOKEN_LENGTH
    &&& forall|i: int| 0 <= i < token.len() ==> is_alphanumeric(#[trigger] token[i])
}

/// Draws `len` characters with the `sample_string` method that
/// `rand::distr::Alphanumeric` has from `SampleString`, out of the
/// generator that `rand::rng` hands out. Which characters come is left to
/// chance; there are `len` of them and each is an ASCII letter or digit.
/// The generator panics where the system gives it no randomness to start
/// from.
#[verifier::external_body]
fn random_alphanumeric(len: usize) -> (r: String)
    ensures
        r@.len() == len,
        forall|i: int| 0 <= i < r@.len() ==> is_alphanumeric(#[trigger] r@[i]),
{
    rand::distr::SampleString::sample_string(&rand::distr::Alphanumeric, &mut rand::rng(), len)
}

/// A fresh token.
pub fn random_token() -> (r: String)
    ensures
        is_token(r@),
{
    random_alphanumeric(TOKEN_LENGTH)
}

/// The address under which the homeserver reaches the bridge.
pub open spec fn listen_url_of(
    listen_address: Option<Seq<char>>,
    listen_port: Option<u16>,
) -> Seq<char> {
    "http://"@ + match listen_address {
        Some(a) => a,
        None => "127.0.0.1"@,
    } + ":"@ + decimal(
        match listen_port {
            Some(p) => p as int,
            None => DEFAULT_LISTEN_PORT as int,
        },
    )
}

/// The patterns of user identifiers that the bridge claims: the ghosts,
/// and with `compat_mode` the bot as well.
pub open spec fn user_namespaces_of(compat_mode: bool) -> Seq<(Seq<char>, bool)> {
    if compat_mode {
        seq![("@zulip_.*"@, true), ("@zulipbridge:.*"@, true)]
    } else {
        seq![("@zulip_.*"@, true)]
    }
}

/// The patterns of `namespaces` as plain values.
pub open spec fn namespaces_view(namespaces: Seq<Namespace>) -> Seq<(Seq<char>, bool)> {
    Seq::new(namespaces.len(), |i: int| (namespaces[i].regex@, namespaces[i].exclusive))
}

/// Whether `registration` is the document for a bridge that listens as
/// given and holds the two tokens.
pub open spec fn is_registration(
    registration: Registration,
    listen_address: Option<Seq<char>>,
    listen_port: Option<u16>,
    as_token: Seq<char>,
    hs_token: Seq<char>,
    compat_mode: bool,
) -> bool {
    &&& registration.id@ == "zulipbridge"@
    &&& registration.url@ == listen_url_of(listen_address, listen_port)
    &&& registration.as_token@ == as_token
    &&& registration.hs_token@ == hs_token
    &&& !registration.rate_limited
    &&& registration.sender_localpart@ == "zulipbridge"@
    &&& namespaces_view(registration.users@) == user_namespaces_of(compat_mode)
    &&& registration.aliases@.len() == 0
    &&& registration.rooms@.len() == 0
}

/// The document for a bridge that listens on `listen_address` and
/// `listen_port` and holds the tokens `as_token` and `hs_token`.
pub fn build_registration(
    listen_address: Option<&str>,
    listen_port: Option<u16>,
    as_token: String,
    hs_token: String,
    compat_mode: bool,
) -> (r: Registration)
    ensures
        is_registration(
            r,
            opt_str_view(listen_address),
            listen_port,
            as_token@,
            hs_token@,
            compat_mode,
        ),
{
    let mut url = String::from_str("http://");
    match listen_address {
        Some(a) => {
            url.append(a);
        },
        None => {
            url.append("127.0.0.1");
        },
    }
    url.append(":");
    let port: u16 = match listen_port {
        Some(p) => p,
        None => DEFAULT_LISTEN_PORT,
    };
    push_decimal(&mut url, port as i64);
    let mut users: Vec<Namespace> = Vec::new();
    users.push(Namespace { regex: String::from_str("@zulip_.*"), exclusive: true });
    if compat_mode {
        users.push(Namespace { regex: String::from_str("@zulipbridge:.*"), exclusive: true });
    }
    assert(namespaces_view(users@) =~= user_namespaces_of(compat_mode));
    Registration {
        id: String::from_str("zulipbridge"),
        url,
        as_token,
        hs_token,
        rate_limited: false,
        sender_localpart: String::from_str("zulipbridge"),
        users,
        aliases: Vec::new(),
        rooms: Vec::new(),
    }
}

/// The registration that the arguments `args` ask for, with two fresh
/// tokens. Refuses where the file to be written exists already.
pub fn generate_registration(args: &CliArgs, compat_mode: bool, target_exists: bool) -> (r: Result<
    Registration,
    BridgeError,
>)
    ensures
        match r {
            Ok(registration) => {
                &&& !target_exists
                &&& is_token(registration.as_token@)
                &&& is_token(registration.hs_token@)
                &&& is_registration(
                    registration,
                    opt_view(args.listen_address),
                    args.listen_port,
                    registration.as_token@,
                    registration.hs_token@,
                    compat_mode,
                )
            },
            Err(e) => {
                &&& target_exists
                &&& e matches BridgeError::Other(m)
                &&& m@ == "Registration file already exists, not overwriting."@
            },
        },
{
    if target_exists {
        return Err(
            BridgeError::Other(
                String::from_str("Registration file already exists, not overwriting."),
            ),
        );
    }
    let as_token = random_token();
    let hs_token = random_token();
    let listen_address: Option<&str> = match &args.listen_address {
        Some(a) => Some(a.as_str()),
        None => None,
    };
    Ok(build_registration(listen_address, args.listen_port, as_token, hs_token, compat_mode))
}

/// The JSON objects of `namespaces`, each with its pattern and its
/// exclusiveness.
pub open spec fn namespaces_json(namespaces: Seq<(Seq<char>, bool)>) -> Seq<JsonValue> {
    Seq::new(
        namespaces.len(),
        |i: int|
            JsonValue::Object(
                seq![
                    ("regex"@, JsonValue::Str(namespaces[i].0)),
                    ("exclusive"@, JsonValue::Bool(namespaces[i].1)),
                ],
            ),
    )
}

/// The document of a registration, as it is written to the file.
pub open spec fn registration_json(registration: Registration) -> JsonValue {
    JsonValue::Object(
        seq![
            ("id"@, JsonValue::Str(registration.id@)),
            ("url"@, JsonValue::Str(registration.url@)),
            ("as_token"@, JsonValue::Str(registration.as_token@)),
            ("hs_token"@, JsonValue::Str(registration.hs_token@)),
            ("rate_limited"@, JsonValue::Bool(registration.rate_limited)),
            ("sender_localpart"@, JsonValue::Str(registration.sender_localpart@)),
            (
                "namespaces"@,
                JsonValue::Object(
                    seq![
                        (
                            "users"@,
                            JsonValue::Array(
                                namespaces_json(namespaces_view(registration.users@)),
                            ),
                        ),
                        (
                            "aliases"@,
                            JsonValue::Array(
                                namespaces_json(namespaces_view(registration.aliases@)),
                            ),
                        ),
                        (
                            "rooms"@,
                            JsonValue::Array(
                                namespaces_json(namespaces_view(registration.rooms@)),
                            ),
                        ),
                    ],
                ),
            ),
        ],
    )
}

fn namespaces_document(namespaces: &Vec<Namespace>) -> (r: Json)
    ensures
        r@ == JsonValue::Array(namespaces_json(namespaces_view(namespaces@))),
{
    let mut items: Vec<Json> = Vec::new();
    let mut i: usize = 0;
    while i < namespaces.len()
        invariant
            i <= namespaces@.len(),
            items@.len() == i,
            forall|k: int|
                0 <= k < i ==> (#[trigger] items@[k])@ == namespaces_json(
                    namespaces_view(namespaces@),
                )[k],
        decreases namespaces@.len() - i,
    {
        let mut members: Vec<(String, Json)> = Vec::new();
        members.push(Json::member("regex", Json::text(namespaces[i].regex.as_str())));
        members.push(Json::member("exclusive", Json::Bool(namespaces[i].exclusive)));
        assert(object_view(members@) =~= seq![
            ("regex"@, JsonValue::Str(namespaces@[i as int].regex@)),
            ("exclusive"@, JsonValue::Bool(namespaces@[i as int].exclusive)),
        ]);
        items.push(Json::object(members));
        i += 1;
    }
    assert(array_view(items@) =~= namespaces_json(namespaces_view(namespaces@)));
    Json::array(items)
}

impl Registration {
    /// The document of this registration.
    pub fn to_json(&self) -> (r: Json)
        ensures
            r@ == registration_json(*self),
    {
        let mut spaces: Vec<(String, Json)> = Vec::new();
        spaces.push(Json::member("users", namespaces_document(&self.users)));
        spaces.push(Json::member("aliases", namespaces_document(&self.aliases)));
        spaces.push(Json::member("rooms", namespaces_document(&self.rooms)));
        assert(object_view(spaces@) =~= seq![
            ("users"@, JsonValue::Array(namespaces_json(namespaces_view(self.users@)))),
            ("aliases"@, JsonValue::Array(namespaces_json(namespaces_view(self.aliases@)))),
            ("rooms"@, JsonValue::Array(namespaces_json(namespaces_view(self.rooms@)))),
        ]);
        let mut members: Vec<(String, Json)> = Vec::new();
        members.push(Json::member("id", Json::text(self.id.as_str())));
        members.push(Json::member("url", Json::text(self.url.as_str())));
        members.push(Json::member("as_token", Json::text(self.as_token.as_str())));
        members.push(Json::member("hs_token", Json::text(self.hs_token.as_str())));
        members.push(Json::member("rate_limited", Json::Bool(self.rate_limited)));
        members.push(Json::member("sender_localpart", Json::text(self.sender_localpart.as_str())));
        members.push(Json::member("namespaces", Json::object(spaces)));
        assert(object_view(members@) =~= registration_json(*self)->Object_0);
        Json::object(members)
    }
}

} // verus!
