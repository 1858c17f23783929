//! Calls on keys: signing, encrypting, packing.

use vstd::prelude::*;
use crate::error::{indy_error_to_indy_error2, IndyError2};
use crate::reply::{answer, fails_as, relays_to, resolve, Reply};
use crate::results::StringVecU8;

verus! {

/// Creating a key pair. Success brings the verification key.
pub fn create_key(reply: Reply<String>) -> (result: Result<String, IndyError2>)
    ensures
        relays_to(reply, result),
{
    answer(reply)
}

/// Setting the metadata of a key. Success brings no outputs.
pub fn set_key_metadata(reply: Reply<()>) -> (result: Result<(), IndyError2>)
    ensures
        relays_to(reply, result),
{
    answer(reply)
}

/// Reading the metadata of a key. Success brings the metadata.
pub fn get_key_metadata(reply: Reply<String>) -> (result: Result<String, IndyError2>)
    ensures
        relays_to(reply, result),
{
    answer(reply)
}

/// Signing a message. Success brings the signature.
pub fn sign(reply: Reply<Vec<u8>>) -> (result: Result<Vec<u8>, IndyError2>)
    ensures
        relays_to(reply, result),
{
    answer(reply)
}

/// Verifying a signature. Success brings whether the signature is valid.
pub fn verify(reply: Reply<bool>) -> (result: Result<bool, IndyError2>)
    ensures
        relays_to(reply, result),
{
    answer(reply)
}

/// Encrypting a message with authentication. Success brings the encrypted
/// message.
pub fn auth_crypt(reply: Reply<Vec<u8>>) -> (result: Result<Vec<u8>, IndyError2>)
    ensures
        relays_to(reply, result),
{
    answer(reply)
}

/// Decrypting an authenticated message. Success brings the verification key of
/// the sender and the message.
pub fn auth_decrypt(reply: Reply<(String, Vec<u8>)>) -> (result: Result<StringVecU8, IndyError2>)
    ensures
        match reply {
            Reply::Value(value) => result matches Ok(got) && got == (StringVecU8 {
                i0: value.0,
                i1: value.1,
            }),
            Reply::Failure(_, _) => fails_as(reply, result),
        },
{
    match resolve(reply) {
        Ok(value) => Ok(StringVecU8 { i0: value.0, i1: value.1 }),
        Err(error) => Err(indy_error_to_indy_error2(error)),
    }
}

/// Encrypting a message anonymously. Success brings the encrypted message.
pub fn anon_crypt(reply: Reply<Vec<u8>>) -> (result: Result<Vec<u8>, IndyError2>)
    ensures
        relays_to(reply, result),
{
    answer(reply)
}

/// Decrypting an anonymous message. Success brings the message.
pub fn anon_decrypt(reply: Reply<Vec<u8>>) -> (result: Result<Vec<u8>, IndyError2>)
    ensures
        relays_to(reply, result),
{
    answer(reply)
}

/// Packing a message for its receivers. Success brings the packed message.
pub fn pack_message(reply: Reply<Vec<u8>>) -> (result: Result<Vec<u8>, IndyError2>)
    ensures
        relays_to(reply, result),
{
    answer(reply)
}

/// Unpacking a packed message. Success brings the message with its keys, as
/// json bytes.
pub fn unpack_message(reply: Reply<Vec<u8>>) -> (result: Result<Vec<u8>, IndyError2>)
    ensures
        relays_to(reply, result),
{
    answer(reply)
}

} // verus!
