use lestallum::error::{ApiError, Service};
use lestallum::minecraft::{
    bedrock_link_lookup, gamertag_lookup, java_link_lookup, optional_link, profile_lookup,
    session_profile_lookup, texture_payload, textures_property, xuid_lookup, AccountLink,
    PlayerTextures, SessionProperty,
};
use lestallum::validation::{is_control, validated_gamertag, validated_username};

const NOTCH_TEXTURES: &str = "ewogICJ0aW1lc3RhbXAiIDogMTc4NTIwMTIxMTM2NCwKICAicHJvZmlsZUlkIiA6ICIwNjlhNzlmNDQ0ZTk0NzI2YTViZWZjYTkwZTM4YWFmNSIsCiAgInByb2ZpbGVOYW1lIiA6ICJOb3RjaCIsCiAgInRleHR1cmVzIiA6IHsKICAgICJTS0lOIiA6IHsKICAgICAgInVybCIgOiAiaHR0cDovL3RleHR1cmVzLm1pbmVjcmFmdC5uZXQvdGV4dHVyZS8yOTIwMDlhNDkyNWI1OGYwMmM3N2RhZGMzZWNlZjA3ZWE0Yzc0NzJmNjRlMGZkYzMyY2U1NTIyNDg5MzYyNjgwIgogICAgfQogIH0KfQ==";

const NOTCH: u128 = 0x069a79f4_44e9_4726_a5be_fca90e38aaf5;

fn link_from_value(value: &serde_json::Value) -> Result<AccountLink, String> {
    let field = |name: &str| value.get(name).ok_or(format!("missing field `{name}`"));
    Ok(AccountLink {
        bedrock_id: field("bedrock_id")?.as_u64().ok_or("bedrock_id")?,
        java_id: uuid::Uuid::parse_str(field("java_id")?.as_str().ok_or("java_id")?)
            .map_err(|e| e.to_string())?
            .as_u128(),
        java_name: field("java_name")?.as_str().ok_or("java_name")?.to_owned(),
        last_name_update: field("last_name_update")?.as_i64().ok_or("last_name_update")?,
    })
}

#[test]
fn empty_object_means_the_xuid_is_not_linked() {
    let body = b"{}";
    let value: serde_json::Value = serde_json::from_slice(body).unwrap();
    assert_eq!(optional_link(body, link_from_value(&value)).unwrap(), None);
}

#[test]
fn a_populated_object_parses_into_a_link() {
    let body = br#"{
        "bedrock_id": 2535432196048835,
        "java_id": "d34eb447-6e90-4c78-9281-600df88aef1d",
        "java_name": "Tim203",
        "last_name_update": 1664541698215
    }"#;
    let value: serde_json::Value = serde_json::from_slice(body).unwrap();

    let link = optional_link(body, link_from_value(&value)).unwrap().unwrap();

    assert_eq!(link.bedrock_id, 2535432196048835);
    assert_eq!(link.java_name, "Tim203");
}

#[test]
fn a_link_that_does_not_decode_is_a_decode_error() {
    let outcome = optional_link(br#"{"bedrock_id": "x"}"#, Err("bad".to_owned()));
    assert!(matches!(outcome, Err(ApiError::Decode { service: Service::Geyser, ref detail }) if detail == "bad"));
}

#[test]
fn the_notch_texture_property_decodes_to_its_json() {
    let payload = String::from_utf8(texture_payload(NOTCH_TEXTURES).unwrap()).unwrap();
    assert!(payload.starts_with("{\n  \"timestamp\" : 1785201211364,"));
    assert!(payload.contains(
        "\"url\" : \"http://textures.minecraft.net/texture/292009a4925b58f02c77dadc3ecef07ea4c7472f64e0fdc32ce5522489362680\""
    ));
    assert!(!payload.contains("CAPE"));
}

#[test]
fn texture_payload_is_the_decoded_base64() {
    assert_eq!(texture_payload("aGVsbG8=").unwrap(), b"hello");
    assert!(matches!(
        texture_payload("not base64!"),
        Err(ApiError::Decode { service: Service::Mojang, .. })
    ));
}

#[test]
fn textures_property_finds_the_first_textures_entry() {
    let property = |name: &str, value: &str| SessionProperty { name: name.to_owned(), value: value.to_owned() };
    let properties = vec![property("other", "a"), property("textures", "b"), property("textures", "c")];
    assert_eq!(textures_property(&properties), Some(1));
    assert_eq!(textures_property(&properties[..1]), None);
    assert_eq!(textures_property(&[]), None);
    let none = PlayerTextures::none();
    assert_eq!(none.skin_url, None);
    assert_eq!(none.cape_url, None);
}

#[test]
fn usernames_are_bounded_before_they_reach_the_url() {
    assert!(validated_username("Notch").is_ok());
    assert!(validated_username("_a1").is_ok());
    assert!(validated_username("").is_err());
    assert!(validated_username("seventeen_chars17").is_err());
    assert!(validated_username("../../etc/passwd").is_err());
    assert!(validated_username("Notch?query=1").is_err());
}

#[test]
fn username_errors_name_the_rule() {
    assert_eq!(validated_username("sixteen_chars_16").unwrap(), "sixteen_chars_16");
    assert!(validated_username("Nötch").is_err());
    match validated_username("a b") {
        Err(ApiError::Input { service: Service::Mojang, reason }) => assert_eq!(
            reason,
            "username must be 1 to 16 characters of a-z, A-Z, 0-9 or _"
        ),
        other => panic!("unexpected {other:?}"),
    }
}

#[test]
fn gamertags_allow_spaces_but_not_control_characters() {
    assert!(validated_gamertag("Some Gamer").is_ok());
    assert!(validated_gamertag("").is_err());
    assert!(validated_gamertag("this tag is far too long").is_err());
    assert!(validated_gamertag("bad\nname").is_err());
}

#[test]
fn gamertags_count_characters_not_bytes() {
    assert!(validated_gamertag("ÄÖÜäöüßÄÖÜäöüßÄÖ").is_ok());
    assert!(validated_gamertag("ÄÖÜäöüßÄÖÜäöüßÄÖÜ").is_err());
    assert!(validated_gamertag("tab\u{85}").is_err());
    match validated_gamertag("\u{7f}") {
        Err(ApiError::Input { service: Service::Geyser, reason }) => {
            assert_eq!(reason, "gamertag must be 1 to 16 printable characters")
        }
        other => panic!("unexpected {other:?}"),
    }
}

#[test]
fn control_characters_are_the_unicode_cc_category() {
    for code in 0..=0x10ffffu32 {
        if let Some(c) = char::from_u32(code) {
            assert_eq!(is_control(c), c.is_control(), "{code:#x}");
        }
    }
}

#[test]
fn geyser_lookups_name_their_subject() {
    let link = bedrock_link_lookup(2535432196048835).unwrap();
    assert_eq!(link.service, Service::Geyser);
    assert_eq!(link.url, "https://api.geysermc.org/v2/link/bedrock/2535432196048835");
    assert_eq!(link.subject, "2535432196048835");

    let java = java_link_lookup(NOTCH).unwrap();
    assert_eq!(java.url, "https://api.geysermc.org/v2/link/java/069a79f4-44e9-4726-a5be-fca90e38aaf5");
    assert_eq!(java.subject, "069a79f4-44e9-4726-a5be-fca90e38aaf5");

    let xuid = xuid_lookup("Some Gamer").unwrap();
    assert_eq!(xuid.url, "https://api.geysermc.org/v2/xbox/xuid/Some%20Gamer");
    assert_eq!(xuid.subject, "Some Gamer");
    assert!(xuid_lookup("").is_err());

    let tag = gamertag_lookup(0).unwrap();
    assert_eq!(tag.url, "https://api.geysermc.org/v2/xbox/gamertag/0");
}

#[test]
fn mojang_lookups_name_their_subject() {
    let profile = profile_lookup("Notch").unwrap();
    assert_eq!(profile.service, Service::Mojang);
    assert_eq!(profile.url, "https://api.mojang.com/users/profiles/minecraft/Notch");
    assert!(matches!(profile_lookup("../x"), Err(ApiError::Input { service: Service::Mojang, .. })));

    let session = session_profile_lookup(NOTCH).unwrap();
    assert_eq!(
        session.url,
        "https://sessionserver.mojang.com/session/minecraft/profile/069a79f444e94726a5befca90e38aaf5"
    );
    assert_eq!(session.subject, "069a79f444e94726a5befca90e38aaf5");
}
