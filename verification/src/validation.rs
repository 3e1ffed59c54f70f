use vstd::prelude::*;

use crate::error::{ApiError, Service};
use vstd::string::StringSliceAdditionalSpecFns;

verus! {

/// The longest Java username the Mojang API accepts.
pub const MAX_USERNAME_CHARS: usize = 16;

/// The longest Xbox gamertag the Geyser API accepts.
pub const MAX_GAMERTAG_CHARS: usize = 16;

/// A character allowed in a Java username: an ASCII letter, an ASCII digit or `_`.
pub open spec fn username_char(c: char) -> bool {
    ||| ('a' <= c && c <= 'z')
    ||| ('A' <= c && c <= 'Z')
    ||| ('0' <= c && c <= '9')
    ||| c == '_'
}

/// A username is 1 to 16 characters, each of them allowed.
pub open spec fn valid_username(name: Seq<char>) -> bool {
    &&& 1 <= name.len() <= MAX_USERNAME_CHARS
    &&& forall|i: int| 0 <= i < name.len() ==> #[trigger] username_char(name[i])
}

/// A control character: the Unicode general category Cc.
pub open spec fn control_char(c: char) -> bool {
    c <= '\u{1f}' || ('\u{7f}' <= c && c <= '\u{9f}')
}

/// A gamertag is 1 to 16 characters, none of them a control character.
pub open spec fn valid_gamertag(tag: Seq<char>) -> bool {
    &&& 1 <= tag.len() <= MAX_GAMERTAG_CHARS
    &&& forall|i: int| 0 <= i < tag.len() ==> !#[trigger] control_char(tag[i])
}

/// The characters a username may hold are exactly those Rust's `char::is_ascii_alphanumeric`
/// accepts (U+0030..=U+0039, U+0041..=U+005A, U+0061..=U+007A) and `_` (U+005F).
pub proof fn username_characters_are_ascii_alphanumerics_or_underscore(c: char)
    ensures
        username_char(c) <==> {
            ||| 0x30 <= (c as int) <= 0x39
            ||| 0x41 <= (c as int) <= 0x5a
            ||| 0x61 <= (c as int) <= 0x7a
            ||| (c as int) == 0x5f
        },
{
}

/// A username is accepted exactly when it has 1 to 16 characters, each an ASCII letter
/// (any of a..z or A..Z), an ASCII digit or `_`.
pub proof fn usernames_accepted_exactly(name: Seq<char>)
    ensures
        valid_username(name) <==> {
            &&& 1 <= name.len() <= 16
            &&& forall|i: int| 0 <= i < name.len() ==> {
                ||| 0x30 <= (#[trigger] name[i] as int) <= 0x39
                ||| 0x41 <= (name[i] as int) <= 0x5a
                ||| 0x61 <= (name[i] as int) <= 0x7a
                ||| (name[i] as int) == 0x5f
            }
        },
{
    assert forall|i: int| 0 <= i < name.len() implies (username_char(name[i]) <==> {
        ||| 0x30 <= (name[i] as int) <= 0x39
        ||| 0x41 <= (name[i] as int) <= 0x5a
        ||| 0x61 <= (name[i] as int) <= 0x7a
        ||| (name[i] as int) == 0x5f
    }) by {
        username_characters_are_ascii_alphanumerics_or_underscore(name[i]);
    }
}

/// The control characters are exactly the Unicode category Cc: U+0000..=U+001F and U+007F..=U+009F.
pub proof fn control_characters_are_category_cc(c: char)
    ensures
        control_char(c) <==> ((c as int) <= 0x1f || 0x7f <= (c as int) <= 0x9f),
{
}

/// A gamertag is accepted exactly when it has 1 to 16 characters, none of them in the
/// Unicode category Cc (U+0000..=U+001F and U+007F..=U+009F).
pub proof fn gamertags_accepted_exactly(tag: Seq<char>)
    ensures
        valid_gamertag(tag) <==> {
            &&& 1 <= tag.len() <= 16
            &&& forall|i: int| 0 <= i < tag.len() ==> !((#[trigger] tag[i] as int) <= 0x1f || 0x7f <= (tag[i] as int) <= 0x9f)
        },
{
    assert forall|i: int| 0 <= i < tag.len() implies (control_char(tag[i]) <==> ((tag[i] as int) <= 0x1f
        || 0x7f <= (tag[i] as int) <= 0x9f)) by {
        control_characters_are_category_cc(tag[i]);
    }
}

pub open spec fn username_rule() -> Seq<char> {
    "username must be 1 to 16 characters of a-z, A-Z, 0-9 or _"@
}

pub open spec fn gamertag_rule() -> Seq<char> {
    "gamertag must be 1 to 16 printable characters"@
}

/// The reasons given for refused input state the rules.
pub proof fn refusals_state_the_rules()
    ensures
        username_rule() == "username must be 1 to 16 characters of a-z, A-Z, 0-9 or _"@,
        gamertag_rule() == "gamertag must be 1 to 16 printable characters"@,
{
}

fn username_byte_ok(b: u8) -> (ok: bool)
    ensures
        ok == username_char(b as char),
{
    (97 <= b && b <= 122) || (65 <= b && b <= 90) || (48 <= b && b <= 57) || b == 95
}

/// Whether `c` is a control character.
pub fn is_control(c: char) -> (control: bool)
    ensures
        control == control_char(c),
{
    c <= '\u{1f}' || ('\u{7f}' <= c && c <= '\u{9f}')
}

/// Accepts a Java username only if it can go into a URL path unchanged.
pub fn validated_username(username: &str) -> (res: Result<&str, ApiError>)
    ensures
        match res {
            Ok(accepted) => valid_username(username@) && accepted@ == username@,
            Err(e) => {
                &&& !valid_username(username@)
                &&& e matches ApiError::Input { service, reason }
                &&& service == Service::Mojang
                &&& reason@ == username_rule()
            },
        },
{
    broadcast use vstd::string::is_ascii_spec_bytes;
    let accepted = if username.is_ascii() {
        let bytes = username.as_bytes();
        let n = bytes.len();
        if 1 <= n && n <= MAX_USERNAME_CHARS {
            let mut all = true;
            let mut i: usize = 0;
            while i < n
                invariant
                    n == bytes@.len(),
                    n == username@.len(),
                    bytes@ == username.spec_bytes(),
                    username.spec_bytes() == Seq::new(username@.len(), |k: int| username@[k] as u8),
                    vstd::string::is_ascii(username),
                    i <= n,
                    all <==> forall|k: int| 0 <= k < i ==> #[trigger] username_char(username@[k]),
                decreases n - i,
            {
                let b = bytes[i];
                assert(b == username@[i as int] as u8);
                assert((b as char) == username@[i as int]);
                if !username_byte_ok(b) {
                    all = false;
                }
                i += 1;
            }
            all
        } else {
            false
        }
    } else {
        proof {
            if valid_username(username@) {
                assert forall|i: int| 0 <= i < username@.len() implies '\0' <= #[trigger] username@[i] <= '\u{7f}' by {
                    assert(username_char(username@[i]));
                }
            }
        }
        false
    };
    if accepted {
        Ok(username)
    } else {
        Err(ApiError::Input {
            service: Service::Mojang,
            reason: String::from_str("username must be 1 to 16 characters of a-z, A-Z, 0-9 or _"),
        })
    }
}

/// Accepts an Xbox gamertag only if it is short and holds no control character.
pub fn validated_gamertag(gamertag: &str) -> (res: Result<&str, ApiError>)
    ensures
        match res {
            Ok(accepted) => valid_gamertag(gamertag@) && accepted@ == gamertag@,
            Err(e) => {
                &&& !valid_gamertag(gamertag@)
                &&& e matches ApiError::Input { service, reason }
                &&& service == Service::Geyser
                &&& reason@ == gamertag_rule()
            },
        },
{
    let n = gamertag.unicode_len();
    let mut accepted = 1 <= n && n <= MAX_GAMERTAG_CHARS;
    if accepted {
        let mut i: usize = 0;
        while i < n
            invariant
                n == gamertag@.len(),
                i <= n,
                accepted <==> forall|k: int| 0 <= k < i ==> !#[trigger] control_char(gamertag@[k]),
            decreases n - i,
        {
            if is_control(gamertag.get_char(i)) {
                accepted = false;
            }
            i += 1;
        }
    }
    if accepted {
        Ok(gamertag)
    } else {
        Err(ApiError::Input {
            service: Service::Geyser,
            reason: String::from_str("gamertag must be 1 to 16 printable characters"),
        })
    }
}

} // verus!
