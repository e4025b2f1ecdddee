//! The decisions of the login handshake: which cipher the camera's reply
//! asks for, and whether the final login was accepted.
use vstd::prelude::*;
use vstd::string::StringSliceAdditionalSpecFns;

use crate::crypto::{aes_key_spec, derive_aes_key, EncryptionProtocol};
use crate::error::Error;

verus! {

/// The cipher that a login reply's code asks for: the high byte must be
/// `0xdd`; a low byte of zero asks for none, three for AES (with the nonce
/// that the reply carries), any other for the XOR cipher.
pub fn negotiate(response_code: u16, password: &str, nonce: Option<&str>) -> (r: Result<
    EncryptionProtocol,
    Error,
>)
    ensures
        (response_code >> 8) & 0xff != 0xdd ==> (r matches Err(Error::UnintelligibleReply { id, .. })
            && id == 1),
        (response_code >> 8) & 0xff == 0xdd && response_code & 0xff == 0 ==> r == Ok::<
            EncryptionProtocol,
            Error,
        >(EncryptionProtocol::Unencrypted),
        (response_code >> 8) & 0xff == 0xdd && response_code & 0xff == 3 ==> match nonce {
            Some(n) => (r matches Ok(EncryptionProtocol::Aes { key }) && key@ == aes_key_spec(
                password.spec_bytes(),
                n.spec_bytes(),
            )),
            None => (r matches Err(Error::UnintelligibleReply { id, .. }) && id == 1),
        },
        (response_code >> 8) & 0xff == 0xdd && response_code & 0xff != 0 && response_code & 0xff
            != 3 ==> r == Ok::<EncryptionProtocol, Error>(EncryptionProtocol::BCEncrypt),
{
    if (response_code >> 8) & 0xff != 0xdd {
        return Err(Error::UnintelligibleReply { id: 1, why: "Expected an encryption reply" });
    }
    let low = response_code & 0xff;
    if low == 0 {
        Ok(EncryptionProtocol::Unencrypted)
    } else if low == 3 {
        match nonce {
            Some(n) => Ok(EncryptionProtocol::Aes { key: derive_aes_key(password, n) }),
            None => Err(Error::UnintelligibleReply { id: 1, why: "Expected a nonce for AES" }),
        }
    } else {
        Ok(EncryptionProtocol::BCEncrypt)
    }
}

/// The final login succeeds on code 200; any other code means the camera
/// refused the credentials.
pub fn login_result(response_code: u16) -> (r: Result<(), Error>)
    ensures
        response_code == 200 ==> r is Ok,
        response_code != 200 ==> r == Err::<(), Error>(Error::CameraLoginFail),
{
    if response_code == 200 {
        Ok(())
    } else {
        Err(Error::CameraLoginFail)
    }
}

} // verus!
