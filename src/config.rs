//! The configuration of a camera, its defaults and its checks.
use vstd::prelude::*;
use vstd::string::StringExecFns;

verus! {

/// How the camera is found when no address is given.
#[derive(Clone, Copy, Debug, PartialEq, Eq, Structural)]
pub enum DiscoveryMethods {
    /// Only the configured address.
    Disabled,
    Local,
    Remote,
    /// Through the vendor's map server.
    MapServer,
    Relay,
    Cellular,
}

/// The strongest cipher that the login may settle on.
#[derive(Clone, Copy, Debug, PartialEq, Eq, Structural)]
pub enum MaxEncryption {
    Unencrypted,
    BcEncrypt,
    Aes,
}

/// One camera of the configuration.
#[derive(Clone, Debug, PartialEq, Eq)]
pub struct CameraConfig {
    pub name: String,
    pub camera_addr: Option<String>,
    pub camera_uid: Option<String>,
    pub username: String,
    pub password: Option<String>,
    pub channel_id: u8,
    pub discovery: DiscoveryMethods,
    pub max_encryption: String,
    pub enabled: bool,
    pub strict: bool,
    pub pause_on_motion: bool,
    pub update_time: bool,
    pub push_notifications: bool,
}

/// The whole configuration.
#[derive(Clone, Debug, PartialEq, Eq)]
pub struct Config {
    pub cameras: Vec<CameraConfig>,
}

pub fn default_discovery() -> (r: DiscoveryMethods)
    ensures
        r == DiscoveryMethods::Relay,
{
    DiscoveryMethods::Relay
}

pub fn default_maxenc() -> (r: String)
    ensures
        r@ == "Aes"@,
{
    String::from_str("Aes")
}

pub fn default_channel_id() -> (r: u8)
    ensures
        r == 0,
{
    0
}

/// Whether a character is `lower` or `upper`.
pub open spec fn either_case(c: char, lower: char, upper: char) -> bool {
    c == lower || c == upper
}

/// The maximum-encryption names, each with a case-free first letter (or,
/// for `aes` and `bcencrypt`, each letter case-free): `none`, `aes`, `bcencrypt`.
pub open spec fn spec_max_encryption(s: Seq<char>) -> Option<MaxEncryption> {
    if s.len() == 4 && either_case(s[0], 'n', 'N') && s[1] == 'o' && s[2] == 'n' && s[3] == 'e' {
        Some(MaxEncryption::Unencrypted)
    } else if s.len() == 3 && either_case(s[0], 'a', 'A') && either_case(s[1], 'e', 'E')
        && either_case(s[2], 's', 'S') {
        Some(MaxEncryption::Aes)
    } else if s.len() == 9 && either_case(s[0], 'b', 'B') && either_case(s[1], 'c', 'C')
        && either_case(s[2], 'e', 'E') && either_case(s[3], 'n', 'N') && either_case(s[4], 'c', 'C')
        && either_case(s[5], 'r', 'R') && either_case(s[6], 'y', 'Y') && either_case(s[7], 'p', 'P')
        && either_case(s[8], 't', 'T') {
        Some(MaxEncryption::BcEncrypt)
    } else {
        None
    }
}

fn char_is(c: char, lower: char, upper: char) -> (r: bool)
    ensures
        r == either_case(c, lower, upper),
{
    c == lower || c == upper
}

/// Reads the `max_encryption` setting; None when it is not one of the names.
pub fn parse_max_encryption(s: &str) -> (r: Option<MaxEncryption>)
    ensures
        r == spec_max_encryption(s@),
{
    let n = s.unicode_len();
    if n == 4 {
        if char_is(s.get_char(0), 'n', 'N') && s.get_char(1) == 'o' && s.get_char(2) == 'n'
            && s.get_char(3) == 'e' {
            return Some(MaxEncryption::Unencrypted);
        }
        None
    } else if n == 3 {
        if char_is(s.get_char(0), 'a', 'A') && char_is(s.get_char(1), 'e', 'E') && char_is(
            s.get_char(2),
            's',
            'S',
        ) {
            return Some(MaxEncryption::Aes);
        }
        None
    } else if n == 9 {
        if char_is(s.get_char(0), 'b', 'B') && char_is(s.get_char(1), 'c', 'C') && char_is(
            s.get_char(2),
            'e',
            'E',
        ) && char_is(s.get_char(3), 'n', 'N') && char_is(s.get_char(4), 'c', 'C') && char_is(
            s.get_char(5),
            'r',
            'R',
        ) && char_is(s.get_char(6), 'y', 'Y') && char_is(s.get_char(7), 'p', 'P') && char_is(
            s.get_char(8),
            't',
            'T',
        ) {
            return Some(MaxEncryption::BcEncrypt);
        }
        None
    } else {
        None
    }
}

/// Why a camera's configuration is refused, if it is.
#[derive(Clone, Copy, Debug, PartialEq, Eq, Structural)]
pub enum ConfigError {
    /// Neither an address nor a UID is given.
    NoAddressOrUid,
    /// The channel is above 31.
    BadChannel,
    /// The maximum encryption is not a known name.
    BadMaxEncryption,
}

/// A camera needs an address or a UID; its channel is at most 31; its
/// maximum encryption must be a known name.
pub fn validate_camera_config(c: &CameraConfig) -> (r: Result<(), ConfigError>)
    ensures
        r == if c.camera_addr is None && c.camera_uid is None {
            Err::<(), ConfigError>(ConfigError::NoAddressOrUid)
        } else if c.channel_id > 31 {
            Err(ConfigError::BadChannel)
        } else if spec_max_encryption(c.max_encryption@) is None {
            Err(ConfigError::BadMaxEncryption)
        } else {
            Ok(())
        },
{
    if c.camera_addr.is_none() && c.camera_uid.is_none() {
        return Err(ConfigError::NoAddressOrUid);
    }
    if c.channel_id > 31 {
        return Err(ConfigError::BadChannel);
    }
    if parse_max_encryption(c.max_encryption.as_str()).is_none() {
        return Err(ConfigError::BadMaxEncryption);
    }
    Ok(())
}

} // verus!
