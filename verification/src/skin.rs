use vstd::prelude::*;

use bytes::Bytes;

use crate::error::{ApiError, Service};
use crate::response::{
    bytes_as_slice, bytes_contents, document_message, json_document, spec_upstream_message, success_status,
    upstream_message,
};
use crate::text::{decimal, push_decimal, simple_hex, uuid_simple};

verus! {

/// Where the skin images come from.
pub const MCHEADS_BASE: &'static str = "https://mc-heads.net";

/// The smallest and largest sizes mc-heads renders flat images at.
pub const FLAT_MIN_SIZE: u32 = 8;
pub const FLAT_MAX_SIZE: u32 = 600;

/// The smallest and largest sizes mc-heads renders isometric images at.
pub const ISOMETRIC_MIN_SIZE: u32 = 32;
pub const ISOMETRIC_MAX_SIZE: u32 = 600;

/// The largest image the library reads.
pub const MAX_IMAGE_BYTES: usize = 2097152;

/// The way an isometric body faces.
#[derive(Debug, Clone, Copy, PartialEq, Eq, Structural)]
pub enum Direction {
    Left,
    Right,
}

impl Direction {
    pub open spec fn spec_name(self) -> Seq<char> {
        match self {
            Direction::Left => "left"@,
            Direction::Right => "right"@,
        }
    }

    /// The name of the direction in mc-heads URLs.
    pub fn as_str(self) -> (name: &'static str)
        ensures
            name@ == self.spec_name(),
    {
        match self {
            Direction::Left => "left",
            Direction::Right => "right",
        }
    }
}

/// `size` brought into the range `lo..=hi`.
pub open spec fn clamp(size: u32, lo: u32, hi: u32) -> u32 {
    if size < lo {
        lo
    } else if size > hi {
        hi
    } else {
        size
    }
}

/// Brings `size` into the range `lo..=hi`.
pub fn clamp_size(size: u32, lo: u32, hi: u32) -> (clamped: u32)
    requires
        lo <= hi,
    ensures
        clamped == clamp(size, lo, hi),
        lo <= clamped <= hi,
{
    if size < lo {
        lo
    } else if size > hi {
        hi
    } else {
        size
    }
}

/// `MCHEADS_BASE`, then `/`, the route, `/` and the player's UUID in its simple form.
pub open spec fn route_prefix(route: Seq<char>, uuid: u128) -> Seq<char> {
    MCHEADS_BASE@ + "/"@ + route + "/"@ + simple_hex(uuid)
}

pub open spec fn spec_simple_url(uuid: u128, size: u32, helm: bool) -> Seq<char> {
    route_prefix("avatar"@, uuid) + "/"@ + decimal(clamp(size, FLAT_MIN_SIZE, FLAT_MAX_SIZE) as nat)
        + if helm { Seq::<char>::empty() } else { "/nohelm"@ }
}

pub open spec fn spec_isometric_url(uuid: u128, size: u32, direction: Direction) -> Seq<char> {
    route_prefix("body"@, uuid) + "/"@ + decimal(clamp(size, ISOMETRIC_MIN_SIZE, ISOMETRIC_MAX_SIZE) as nat)
        + "/"@ + direction.spec_name()
}

pub open spec fn spec_full_body_url(uuid: u128, size: u32) -> Seq<char> {
    route_prefix("player"@, uuid) + "/"@ + decimal(clamp(size, FLAT_MIN_SIZE, FLAT_MAX_SIZE) as nat)
}

pub open spec fn spec_combo_url(uuid: u128, size: u32) -> Seq<char> {
    route_prefix("combo"@, uuid) + "/"@ + decimal(clamp(size, FLAT_MIN_SIZE, FLAT_MAX_SIZE) as nat)
}

pub open spec fn spec_texture_url(uuid: u128) -> Seq<char> {
    route_prefix("skin"@, uuid)
}

fn route_url(route: &str, uuid: u128) -> (url: String)
    ensures
        url@ == route_prefix(route@, uuid),
{
    let mut url = String::from_str(MCHEADS_BASE);
    url.append("/");
    url.append(route);
    url.append("/");
    let id = uuid_simple(uuid);
    url.append(id.as_str());
    url
}

fn route_url_with_size(route: &str, uuid: u128, size: u32) -> (url: String)
    ensures
        url@ == route_prefix(route@, uuid) + "/"@ + decimal(size as nat),
{
    let mut url = route_url(route, uuid);
    url.append("/");
    push_decimal(&mut url, size as u64);
    url
}

/// The mc-heads URL of a player's head, at a size between 8 and 600, with or without the helm layer.
pub fn simple_url(uuid: u128, size: u32, helm: bool) -> (url: String)
    ensures
        url@ == spec_simple_url(uuid, size, helm),
{
    let size = clamp_size(size, FLAT_MIN_SIZE, FLAT_MAX_SIZE);
    let mut url = route_url_with_size("avatar", uuid, size);
    if !helm {
        url.append("/nohelm");
    }
    proof {
        if helm {
            assert(url@ == url@ + Seq::<char>::empty());
        }
    }
    url
}

/// The mc-heads URL of a player's isometric body, at a size between 32 and 600, facing `direction`.
pub fn isometric_url(uuid: u128, size: u32, direction: Direction) -> (url: String)
    ensures
        url@ == spec_isometric_url(uuid, size, direction),
{
    let size = clamp_size(size, ISOMETRIC_MIN_SIZE, ISOMETRIC_MAX_SIZE);
    let mut url = route_url_with_size("body", uuid, size);
    url.append("/");
    url.append(direction.as_str());
    url
}

/// The mc-heads URL of a player's full body, at a size between 8 and 600.
pub fn full_body_url(uuid: u128, size: u32) -> (url: String)
    ensures
        url@ == spec_full_body_url(uuid, size),
{
    let size = clamp_size(size, FLAT_MIN_SIZE, FLAT_MAX_SIZE);
    route_url_with_size("player", uuid, size)
}

/// The mc-heads URL of a player's head and body side by side, at a size between 8 and 600.
pub fn combo_url(uuid: u128, size: u32) -> (url: String)
    ensures
        url@ == spec_combo_url(uuid, size),
{
    let size = clamp_size(size, FLAT_MIN_SIZE, FLAT_MAX_SIZE);
    route_url_with_size("combo", uuid, size)
}

/// The mc-heads URL of a player's raw skin texture.
pub fn texture_url(uuid: u128) -> (url: String)
    ensures
        url@ == spec_texture_url(uuid),
{
    route_url("skin", uuid)
}

/// The head without its helm layer is the head with the helm layer, followed by `/nohelm`.
pub proof fn nohelm_extends_helm(uuid: u128, size: u32)
    ensures
        spec_simple_url(uuid, size, false) == spec_simple_url(uuid, size, true) + "/nohelm"@,
{
    assert(spec_simple_url(uuid, size, true) =~= spec_simple_url(uuid, size, true) + Seq::<char>::empty());
}

/// Sizes are brought into what mc-heads accepts: 8 to 600 for flat images and 32 to 600 for
/// isometric ones. A size below the range becomes its lower end, one above becomes its upper
/// end, and one inside is kept.
pub proof fn sizes_are_clamped(size: u32)
    ensures
        size < 8 ==> clamp(size, FLAT_MIN_SIZE, FLAT_MAX_SIZE) == 8,
        size > 600 ==> clamp(size, FLAT_MIN_SIZE, FLAT_MAX_SIZE) == 600,
        8 <= size <= 600 ==> clamp(size, FLAT_MIN_SIZE, FLAT_MAX_SIZE) == size,
        size < 32 ==> clamp(size, ISOMETRIC_MIN_SIZE, ISOMETRIC_MAX_SIZE) == 32,
        size > 600 ==> clamp(size, ISOMETRIC_MIN_SIZE, ISOMETRIC_MAX_SIZE) == 600,
        32 <= size <= 600 ==> clamp(size, ISOMETRIC_MIN_SIZE, ISOMETRIC_MAX_SIZE) == size,
{
}

proof fn route_text(route: &str, whole: &str)
    requires
        whole@ == "https://mc-heads.net/"@ + route@ + "/"@,
    ensures
        forall|uuid: u128| #[trigger] route_prefix(route@, uuid) == whole@ + simple_hex(uuid),
{
    reveal_strlit("https://mc-heads.net");
    reveal_strlit("https://mc-heads.net/");
    reveal_strlit("/");
    assert(MCHEADS_BASE@ + "/"@ + route@ + "/"@ =~= whole@);
}

/// The mc-heads URLs are the documented routes: the service's address, the route, the player's
/// UUID in its simple form, then the clamped size and the route's modifiers.
pub proof fn mc_heads_routes(uuid: u128, size: u32, helm: bool, direction: Direction)
    ensures
        spec_simple_url(uuid, size, helm) == "https://mc-heads.net/avatar/"@ + simple_hex(uuid) + "/"@
            + decimal(clamp(size, 8, 600) as nat) + if helm { Seq::<char>::empty() } else { "/nohelm"@ },
        spec_isometric_url(uuid, size, direction) == "https://mc-heads.net/body/"@ + simple_hex(uuid) + "/"@
            + decimal(clamp(size, 32, 600) as nat) + "/"@
            + match direction { Direction::Left => "left"@, Direction::Right => "right"@ },
        spec_full_body_url(uuid, size) == "https://mc-heads.net/player/"@ + simple_hex(uuid) + "/"@
            + decimal(clamp(size, 8, 600) as nat),
        spec_combo_url(uuid, size) == "https://mc-heads.net/combo/"@ + simple_hex(uuid) + "/"@
            + decimal(clamp(size, 8, 600) as nat),
        spec_texture_url(uuid) == "https://mc-heads.net/skin/"@ + simple_hex(uuid),
{
    assert("https://mc-heads.net/avatar/"@ == "https://mc-heads.net/"@ + "avatar"@ + "/"@) by {
        reveal_strlit("https://mc-heads.net/avatar/");
        reveal_strlit("https://mc-heads.net/");
        reveal_strlit("avatar");
        reveal_strlit("/");
        assert("https://mc-heads.net/avatar/"@ =~= "https://mc-heads.net/"@ + "avatar"@ + "/"@);
    }
    assert("https://mc-heads.net/body/"@ == "https://mc-heads.net/"@ + "body"@ + "/"@) by {
        reveal_strlit("https://mc-heads.net/body/");
        reveal_strlit("https://mc-heads.net/");
        reveal_strlit("body");
        reveal_strlit("/");
        assert("https://mc-heads.net/body/"@ =~= "https://mc-heads.net/"@ + "body"@ + "/"@);
    }
    assert("https://mc-heads.net/player/"@ == "https://mc-heads.net/"@ + "player"@ + "/"@) by {
        reveal_strlit("https://mc-heads.net/player/");
        reveal_strlit("https://mc-heads.net/");
        reveal_strlit("player");
        reveal_strlit("/");
        assert("https://mc-heads.net/player/"@ =~= "https://mc-heads.net/"@ + "player"@ + "/"@);
    }
    assert("https://mc-heads.net/combo/"@ == "https://mc-heads.net/"@ + "combo"@ + "/"@) by {
        reveal_strlit("https://mc-heads.net/combo/");
        reveal_strlit("https://mc-heads.net/");
        reveal_strlit("combo");
        reveal_strlit("/");
        assert("https://mc-heads.net/combo/"@ =~= "https://mc-heads.net/"@ + "combo"@ + "/"@);
    }
    assert("https://mc-heads.net/skin/"@ == "https://mc-heads.net/"@ + "skin"@ + "/"@) by {
        reveal_strlit("https://mc-heads.net/skin/");
        reveal_strlit("https://mc-heads.net/");
        reveal_strlit("skin");
        reveal_strlit("/");
        assert("https://mc-heads.net/skin/"@ =~= "https://mc-heads.net/"@ + "skin"@ + "/"@);
    }
    route_text("avatar", "https://mc-heads.net/avatar/");
    route_text("body", "https://mc-heads.net/body/");
    route_text("player", "https://mc-heads.net/player/");
    route_text("combo", "https://mc-heads.net/combo/");
    route_text("skin", "https://mc-heads.net/skin/");
    assert(route_prefix("avatar"@, uuid) == "https://mc-heads.net/avatar/"@ + simple_hex(uuid));
    assert(route_prefix("body"@, uuid) == "https://mc-heads.net/body/"@ + simple_hex(uuid));
    assert(route_prefix("player"@, uuid) == "https://mc-heads.net/player/"@ + simple_hex(uuid));
    assert(route_prefix("combo"@, uuid) == "https://mc-heads.net/combo/"@ + simple_hex(uuid));
    assert(route_prefix("skin"@, uuid) == "https://mc-heads.net/skin/"@ + simple_hex(uuid));
}

/// Isometric URLs of the two directions differ only in their last segment.
pub proof fn directions_share_a_prefix(uuid: u128, size: u32)
    ensures
        spec_isometric_url(uuid, size, Direction::Left) == spec_isometric_url(uuid, size, Direction::Right)
            .subrange(0, spec_isometric_url(uuid, size, Direction::Right).len() - 5) + "left"@,
{
    let stem = route_prefix("body"@, uuid) + "/"@ + decimal(clamp(size, ISOMETRIC_MIN_SIZE, ISOMETRIC_MAX_SIZE) as nat) + "/"@;
    reveal_strlit("right");
    assert(spec_isometric_url(uuid, size, Direction::Right) == stem + "right"@);
    assert((stem + "right"@).subrange(0, (stem + "right"@).len() - 5) =~= stem);
}

/// An image that mc-heads rendered.
pub struct SkinImage {
    pub bytes: Bytes,
    pub content_type: String,
}

/// The content type assumed where the response names none that can be read.
pub open spec fn default_content_type() -> Seq<char> {
    "image/png"@
}

/// The content type of a response: its `Content-Type` header where it has a readable one,
/// else `image/png`.
pub fn effective_content_type(header: Option<&str>) -> (content_type: String)
    ensures
        content_type@ == match header {
            Some(h) => h@,
            None => default_content_type(),
        },
{
    match header {
        Some(h) => String::from_str(h),
        None => String::from_str("image/png"),
    }
}

/// A response that names no readable content type is taken to be a PNG image.
pub proof fn missing_content_types_are_png()
    ensures
        default_content_type() == seq!['i', 'm', 'a', 'g', 'e', '/', 'p', 'n', 'g'],
{
    reveal_strlit("image/png");
    assert(default_content_type() =~= seq!['i', 'm', 'a', 'g', 'e', '/', 'p', 'n', 'g']);
}

/// Whether a content type names an image: it starts with `image/`.
pub open spec fn is_image_type(content_type: Seq<char>) -> bool {
    content_type.len() >= 6 && content_type.subrange(0, 6) == "image/"@
}

fn names_an_image(content_type: &str) -> (image: bool)
    ensures
        image == is_image_type(content_type@),
{
    let prefix = "image/";
    proof { reveal_strlit("image/"); }
    let n = content_type.unicode_len();
    if n < 6 {
        return false;
    }
    let mut i: usize = 0;
    while i < 6
        invariant
            n == content_type@.len(),
            n >= 6,
            prefix@ == "image/"@,
            prefix@.len() == 6,
            i <= 6,
            forall|k: int| 0 <= k < i ==> content_type@[k] == prefix@[k],
        decreases 6 - i,
    {
        if content_type.get_char(i) != prefix.get_char(i) {
            assert(content_type@.subrange(0, 6)[i as int] != prefix@[i as int]);
            return false;
        }
        i += 1;
    }
    assert(content_type@.subrange(0, 6) =~= prefix@);
    true
}

/// A content type names an image exactly when it is `image/` followed by any text.
pub proof fn image_types_are_image_slash_anything(content_type: Seq<char>)
    ensures
        is_image_type(content_type) <==> exists|rest: Seq<char>| content_type == seq!['i', 'm', 'a', 'g', 'e', '/'] + rest,
{
    reveal_strlit("image/");
    let prefix = seq!['i', 'm', 'a', 'g', 'e', '/'];
    assert("image/"@ =~= prefix);
    if is_image_type(content_type) {
        let rest = content_type.subrange(6, content_type.len() as int);
        assert(content_type =~= prefix + rest);
    }
    if exists|rest: Seq<char>| content_type == prefix + rest {
        let rest = choose|rest: Seq<char>| content_type == prefix + rest;
        assert(content_type.subrange(0, 6) =~= prefix);
    }
}

/// A success whose content type is `image/` followed by any text is handed out as the image,
/// with its bytes and its content type unchanged.
pub proof fn image_responses_hand_out_images(
    status: u16,
    rest: Seq<char>,
    bytes: Seq<u8>,
    uuid: u128,
    res: Result<SkinImage, ApiError>,
)
    requires
        200 <= status <= 299,
        image_outcome(status, seq!['i', 'm', 'a', 'g', 'e', '/'] + rest, bytes, uuid, res),
    ensures
        res matches Ok(image) && bytes_contents(image.bytes) == bytes
            && image.content_type@ == seq!['i', 'm', 'a', 'g', 'e', '/'] + rest,
{
    image_types_are_image_slash_anything(seq!['i', 'm', 'a', 'g', 'e', '/'] + rest);
}

/// The message given when mc-heads answers with something that is not an image.
pub open spec fn not_an_image_message(content_type: Seq<char>) -> Seq<char> {
    "expected an image, got `"@ + content_type + "`"@
}

/// What an mc-heads response with `status`, `content_type` and body `bytes` amounts to.
pub open spec fn image_outcome(
    status: u16,
    content_type: Seq<char>,
    bytes: Seq<u8>,
    uuid: u128,
    res: Result<SkinImage, ApiError>,
) -> bool {
    if status == 404 {
        res matches Err(ApiError::NotFound { service, subject }) && service == Service::McHeads
            && subject@ == simple_hex(uuid)
    } else if !success_status(status) {
        &&& res matches Err(ApiError::Upstream { service, status: code, message })
        &&& service == Service::McHeads
        &&& code == status
        &&& message@ == spec_upstream_message(bytes)
    } else if !is_image_type(content_type) {
        &&& res matches Err(ApiError::Upstream { service, status: code, message })
        &&& service == Service::McHeads
        &&& code == status
        &&& message@ == not_an_image_message(content_type)
    } else {
        &&& res matches Ok(image)
        &&& bytes_contents(image.bytes) == bytes
        &&& image.content_type@ == content_type
    }
}

/// What an mc-heads response amounts to: a 404 means the player is unknown (the subject is the
/// UUID in its simple form); any other status outside 200..=299 is an upstream failure with the
/// service's message; a success whose content type is not `image/...` is an upstream failure
/// that names the content type; and any other success is handed out as the image.
pub proof fn image_outcomes_by_status(
    status: u16,
    content_type: Seq<char>,
    bytes: Seq<u8>,
    uuid: u128,
    res: Result<SkinImage, ApiError>,
)
    requires
        image_outcome(status, content_type, bytes, uuid, res),
    ensures
        status == 404 ==> (res matches Err(ApiError::NotFound { service, subject })
            && service == Service::McHeads && subject@ == simple_hex(uuid)),
        status != 404 && !(200 <= status <= 299) ==> {
            &&& res matches Err(ApiError::Upstream { service, status: code, message })
            &&& service == Service::McHeads
            &&& code == status
            &&& message@ == document_message(json_document(bytes))
        },
        200 <= status <= 299 && !(exists|rest: Seq<char>| content_type == seq!['i', 'm', 'a', 'g', 'e', '/'] + rest) ==> {
            &&& res matches Err(ApiError::Upstream { service, status: code, message })
            &&& service == Service::McHeads
            &&& code == status
            &&& message@ == "expected an image, got `"@ + content_type + "`"@
        },
        200 <= status <= 299 && (exists|rest: Seq<char>| content_type == seq!['i', 'm', 'a', 'g', 'e', '/'] + rest) ==> {
            &&& res matches Ok(image)
            &&& bytes_contents(image.bytes) == bytes
            &&& image.content_type@ == content_type
        },
{
    image_types_are_image_slash_anything(content_type);
}

/// Decides what an mc-heads response means once its body is read: a 404 means that the player
/// is unknown, any other status that is not a success is an upstream failure carrying the
/// service's message, and a success must carry an image.
pub fn image_response(status: u16, content_type: String, bytes: Bytes, uuid: u128) -> (res: Result<SkinImage, ApiError>)
    ensures
        image_outcome(status, content_type@, bytes_contents(bytes), uuid, res),
{
    if status == 404 {
        return Err(ApiError::NotFound { service: Service::McHeads, subject: uuid_simple(uuid) });
    }
    if !(200 <= status && status <= 299) {
        let message = upstream_message(bytes_as_slice(&bytes));
        return Err(ApiError::Upstream { service: Service::McHeads, status, message });
    }
    if !names_an_image(content_type.as_str()) {
        let mut message = String::from_str("expected an image, got `");
        message.append(content_type.as_str());
        message.append("`");
        return Err(ApiError::Upstream { service: Service::McHeads, status, message });
    }
    Ok(SkinImage { bytes, content_type })
}

} // verus!
