use base64::Engine;
use vstd::prelude::*;

use crate::error::{ApiError, Service};
use crate::response::{empty_object, is_empty_object, json_document, parse_document, JsonValue};
use crate::text::{decimal, decimal_string, hyphenated_hex, simple_hex, uuid_hyphenated, uuid_simple};
use crate::urls::{build_url, is_input_error, segment_views, url_built};
use crate::validation::{gamertag_rule, username_rule, valid_gamertag, valid_username, validated_gamertag, validated_username};

verus! {

pub const GEYSER_BASE: &'static str = "https://api.geysermc.org";
pub const MOJANG_BASE: &'static str = "https://api.mojang.com";
pub const MOJANG_SESSION_BASE: &'static str = "https://sessionserver.mojang.com";

/// The name of the session profile property that holds a player's textures.
pub const TEXTURES_PROPERTY: &'static str = "textures";

/// A Bedrock account linked to a Java account through Geyser.
#[derive(Debug, Clone, PartialEq, Eq)]
pub struct AccountLink {
    pub bedrock_id: u64,
    /// The Java account's UUID, as a 128-bit value.
    pub java_id: u128,
    pub java_name: String,
    pub last_name_update: i64,
}

/// Where a player's skin and cape images are, where the player has them.
#[derive(Debug, Clone, PartialEq, Eq)]
pub struct PlayerTextures {
    pub skin_url: Option<String>,
    pub cape_url: Option<String>,
}

impl PlayerTextures {
    /// Textures with neither a skin nor a cape.
    pub fn none() -> (textures: Self)
        ensures
            textures.skin_url is None,
            textures.cape_url is None,
    {
        PlayerTextures { skin_url: None, cape_url: None }
    }
}

/// A property of a Mojang session profile.
#[derive(Debug, Clone, PartialEq, Eq)]
pub struct SessionProperty {
    pub name: String,
    pub value: String,
}

/// A request to make of a service: the URL, and the subject it asks about.
#[derive(Debug)]
pub struct Lookup {
    pub service: Service,
    pub url: String,
    pub subject: String,
}

/// What a lookup of `subject` at `base` extended by `segments` gives.
pub open spec fn lookup_built(
    service: Service,
    base: Seq<char>,
    segments: Seq<Seq<char>>,
    subject: Seq<char>,
    res: Result<Lookup, ApiError>,
) -> bool {
    match res {
        Ok(lookup) => {
            &&& lookup.service == service
            &&& lookup.subject@ == subject
            &&& url_built(service, base, segments, Ok(lookup.url))
        },
        Err(e) => url_built(service, base, segments, Err(e)),
    }
}

fn lookup(service: Service, base: &str, segments: &[&str], subject: String) -> (res: Result<Lookup, ApiError>)
    ensures
        lookup_built(service, base@, segment_views(segments@), subject@, res),
{
    match build_url(service, base, segments) {
        Ok(url) => Ok(Lookup { service, url, subject }),
        Err(e) => Err(e),
    }
}

/// The Geyser lookup of the Java account linked to the Bedrock account `xuid`.
pub fn bedrock_link_lookup(xuid: u64) -> (res: Result<Lookup, ApiError>)
    ensures
        lookup_built(Service::Geyser, GEYSER_BASE@, seq!["v2"@, "link"@, "bedrock"@, decimal(xuid as nat)],
            decimal(xuid as nat), res),
{
    let subject = decimal_string(xuid);
    let segments = ["v2", "link", "bedrock", subject.as_str()];
    assert(segment_views(segments@) =~= seq!["v2"@, "link"@, "bedrock"@, decimal(xuid as nat)]);
    lookup(Service::Geyser, GEYSER_BASE, &segments, subject.clone())
}

/// The Geyser lookup of the Bedrock accounts linked to the Java account `uuid`.
pub fn java_link_lookup(uuid: u128) -> (res: Result<Lookup, ApiError>)
    ensures
        lookup_built(Service::Geyser, GEYSER_BASE@, seq!["v2"@, "link"@, "java"@, hyphenated_hex(uuid)],
            hyphenated_hex(uuid), res),
{
    let subject = uuid_hyphenated(uuid);
    let segments = ["v2", "link", "java", subject.as_str()];
    assert(segment_views(segments@) =~= seq!["v2"@, "link"@, "java"@, hyphenated_hex(uuid)]);
    lookup(Service::Geyser, GEYSER_BASE, &segments, subject.clone())
}

/// The Geyser lookup of the XUID of `gamertag`, once the gamertag is accepted.
pub fn xuid_lookup(gamertag: &str) -> (res: Result<Lookup, ApiError>)
    ensures
        valid_gamertag(gamertag@) ==> lookup_built(Service::Geyser, GEYSER_BASE@,
            seq!["v2"@, "xbox"@, "xuid"@, gamertag@], gamertag@, res),
        !valid_gamertag(gamertag@) ==> (res matches Err(e) && is_input_error(e, Service::Geyser, gamertag_rule())),
{
    let gamertag = match validated_gamertag(gamertag) {
        Ok(accepted) => accepted,
        Err(e) => return Err(e),
    };
    let segments = ["v2", "xbox", "xuid", gamertag];
    assert(segment_views(segments@) =~= seq!["v2"@, "xbox"@, "xuid"@, gamertag@]);
    lookup(Service::Geyser, GEYSER_BASE, &segments, String::from_str(gamertag))
}

/// The Geyser lookup of the gamertag of the Bedrock account `xuid`.
pub fn gamertag_lookup(xuid: u64) -> (res: Result<Lookup, ApiError>)
    ensures
        lookup_built(Service::Geyser, GEYSER_BASE@, seq!["v2"@, "xbox"@, "gamertag"@, decimal(xuid as nat)],
            decimal(xuid as nat), res),
{
    let subject = decimal_string(xuid);
    let segments = ["v2", "xbox", "gamertag", subject.as_str()];
    assert(segment_views(segments@) =~= seq!["v2"@, "xbox"@, "gamertag"@, decimal(xuid as nat)]);
    lookup(Service::Geyser, GEYSER_BASE, &segments, subject.clone())
}

/// The Mojang lookup of the UUID of the Java account `username`, once the username is accepted.
pub fn profile_lookup(username: &str) -> (res: Result<Lookup, ApiError>)
    ensures
        valid_username(username@) ==> lookup_built(Service::Mojang, MOJANG_BASE@,
            seq!["users"@, "profiles"@, "minecraft"@, username@], username@, res),
        !valid_username(username@) ==> (res matches Err(e) && is_input_error(e, Service::Mojang, username_rule())),
{
    let username = match validated_username(username) {
        Ok(accepted) => accepted,
        Err(e) => return Err(e),
    };
    let segments = ["users", "profiles", "minecraft", username];
    assert(segment_views(segments@) =~= seq!["users"@, "profiles"@, "minecraft"@, username@]);
    lookup(Service::Mojang, MOJANG_BASE, &segments, String::from_str(username))
}

/// The Mojang lookup of the session profile of the Java account `uuid`.
pub fn session_profile_lookup(uuid: u128) -> (res: Result<Lookup, ApiError>)
    ensures
        lookup_built(Service::Mojang, MOJANG_SESSION_BASE@,
            seq!["session"@, "minecraft"@, "profile"@, simple_hex(uuid)], simple_hex(uuid), res),
{
    let subject = uuid_simple(uuid);
    let segments = ["session", "minecraft", "profile", subject.as_str()];
    assert(segment_views(segments@) =~= seq!["session"@, "minecraft"@, "profile"@, simple_hex(uuid)]);
    lookup(Service::Mojang, MOJANG_SESSION_BASE, &segments, subject.clone())
}

/// The position of the first property named `textures`, if any.
pub fn textures_property(properties: &[SessionProperty]) -> (found: Option<usize>)
    ensures
        match found {
            Some(i) => {
                &&& i < properties@.len()
                &&& properties@[i as int].name@ == TEXTURES_PROPERTY@
                &&& forall|k: int| 0 <= k < i ==> properties@[k].name@ != TEXTURES_PROPERTY@
            },
            None => forall|k: int| 0 <= k < properties@.len() ==> properties@[k].name@ != TEXTURES_PROPERTY@,
        },
{
    let wanted = String::from_str(TEXTURES_PROPERTY);
    let mut i: usize = 0;
    while i < properties.len()
        invariant
            i <= properties@.len(),
            wanted@ == TEXTURES_PROPERTY@,
            forall|k: int| 0 <= k < i ==> properties@[k].name@ != TEXTURES_PROPERTY@,
        decreases properties@.len() - i,
    {
        if properties[i].name == wanted {
            return Some(i);
        }
        i += 1;
    }
    None
}

/// What standard Base64 (with padding) makes of `encoded`: the decoded bytes, or nothing
/// where `encoded` is not Base64.
pub uninterp spec fn base64_standard_decoded(encoded: Seq<char>) -> Option<Seq<u8>>;

/// `base64::engine::general_purpose::STANDARD.decode`, with the error written as text.
#[verifier::external_body]
fn base64_decode(encoded: &str) -> (res: Result<Vec<u8>, String>)
    ensures
        res is Ok <==> base64_standard_decoded(encoded@) is Some,
        res matches Ok(bytes) ==> bytes@ == base64_standard_decoded(encoded@).unwrap(),
{
    base64::engine::general_purpose::STANDARD.decode(encoded).map_err(|e| e.to_string())
}

/// The JSON document held in the Base64 value of a `textures` property.
pub fn texture_payload(encoded: &str) -> (res: Result<Vec<u8>, ApiError>)
    ensures
        match base64_standard_decoded(encoded@) {
            Some(bytes) => res matches Ok(b) && b@ == bytes,
            None => res matches Err(ApiError::Decode { service, .. }) && service == Service::Mojang,
        },
{
    match base64_decode(encoded) {
        Ok(bytes) => Ok(bytes),
        Err(detail) => Err(ApiError::Decode { service: Service::Mojang, detail }),
    }
}

/// What a Geyser link lookup answered, given its JSON document and that document decoded
/// as a link: an empty object means that the account is not linked.
pub fn link_outcome(document: &Option<JsonValue>, parsed: Result<AccountLink, String>) -> (res: Result<Option<AccountLink>, ApiError>)
    ensures
        is_empty_object(*document) ==> res matches Ok(None),
        !is_empty_object(*document) ==> match parsed {
            Ok(link) => res == Ok::<Option<AccountLink>, ApiError>(Some(link)),
            Err(detail) => res matches Err(ApiError::Decode { service, detail: d }) && service == Service::Geyser
                && d@ == detail@,
        },
{
    if empty_object(document) {
        Ok(None)
    } else {
        match parsed {
            Ok(link) => Ok(Some(link)),
            Err(detail) => Err(ApiError::Decode { service: Service::Geyser, detail }),
        }
    }
}

/// What a Geyser link lookup answered, given its JSON `body` and that body decoded as a link:
/// an empty object means that the account is not linked.
pub fn optional_link(body: &[u8], parsed: Result<AccountLink, String>) -> (res: Result<Option<AccountLink>, ApiError>)
    ensures
        is_empty_object(json_document(body@)) ==> res matches Ok(None),
        !is_empty_object(json_document(body@)) ==> match parsed {
            Ok(link) => res == Ok::<Option<AccountLink>, ApiError>(Some(link)),
            Err(detail) => res matches Err(ApiError::Decode { service, detail: d }) && service == Service::Geyser
                && d@ == detail@,
        },
{
    link_outcome(&parse_document(body), parsed)
}

} // verus!
