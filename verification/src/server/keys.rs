//! Resolves the node's signing key from the configuration. Exactly one
//! source is honored, in fixed precedence: the hard-coded debugging key, then
//! a supplied hex-encoded secp256k1 private key, then a freshly generated
//! key.

use vstd::prelude::*;

use crate::engine;
use crate::engine::valid_secp256k1_secret;
use crate::parse::hex_decode;
use crate::parse::is_hex_string;
use crate::parse::spec_hex_decode;
use crate::server::command::Server;

verus! {

/// The key source the configuration selects.
#[derive(Clone, Copy, Debug, PartialEq, Eq, Structural)]
pub enum KeyChoice {
    /// The hard-coded debugging key.
    Fixed,
    /// The supplied hex-encoded secp256k1 private key.
    Supplied,
    /// A freshly generated key.
    Generated,
}

/// Errors of key resolution: operator mistakes, fatal before the engine
/// starts.
#[derive(Clone, Copy, Debug, PartialEq, Eq, Structural)]
pub enum KeyError {
    /// The supplied private key is not a valid hex string.
    InvalidKeyHex,
    /// The key bytes are not a valid secp256k1 secret key.
    InvalidKey,
}

/// Which key source a configuration selects: the fixed debugging key wins
/// over a supplied key, which wins over generation.
pub open spec fn spec_key_choice(server: Server) -> KeyChoice {
    if server.static_key {
        KeyChoice::Fixed
    } else if server.secp256k1_key is Some {
        KeyChoice::Supplied
    } else {
        KeyChoice::Generated
    }
}

/// The hard-coded 32-byte debugging secret: the bytes 1 through 32.
pub open spec fn spec_static_secret() -> Seq<u8> {
    Seq::new(32, |i: int| (i + 1) as u8)
}

/// Builds the fixed debugging secret.
fn static_secret() -> (r: Vec<u8>)
    ensures
        r@ == spec_static_secret(),
{
    let mut out: Vec<u8> = Vec::new();
    let mut i: usize = 0;
    while i < 32
        invariant
            i <= 32,
            out@.len() == i,
            forall|k: int| 0 <= k < i ==> out@[k] == (k + 1) as u8,
        decreases 32 - i,
    {
        out.push((i + 1) as u8);
        i = i + 1;
    }
    assert(out@ =~= spec_static_secret());
    out
}

/// Selects the key source once, with the fixed precedence: the fixed
/// debugging key wins over a supplied key, which wins over generation.
pub fn key_choice(server: &Server) -> (r: KeyChoice)
    ensures
        r == spec_key_choice(*server),
{
    if server.static_key {
        KeyChoice::Fixed
    } else if server.secp256k1_key.is_some() {
        KeyChoice::Supplied
    } else {
        KeyChoice::Generated
    }
}

/// The selected key source yields a key: the fixed or supplied bytes decode
/// to a valid secp256k1 secret; generation always succeeds.
pub open spec fn key_config_ok(server: Server) -> bool {
    match spec_key_choice(server) {
        KeyChoice::Fixed => valid_secp256k1_secret(spec_static_secret()),
        KeyChoice::Supplied => server.secp256k1_key matches Some(t) && is_hex_string(t@)
            && valid_secp256k1_secret(spec_hex_decode(t@)),
        KeyChoice::Generated => true,
    }
}

/// Resolves the signing key the configuration selects. Fails exactly when
/// the selected source's bytes are rejected: a malformed hex key string, or
/// bytes that are no secp256k1 secret key.
pub fn generate(server: &Server) -> (r: Result<discv5::enr::CombinedKey, KeyError>)
    ensures
        r is Ok <==> key_config_ok(*server),
        spec_key_choice(*server) is Supplied && (server.secp256k1_key matches Some(t)
            && !is_hex_string(t@)) ==> r == Err::<discv5::enr::CombinedKey, KeyError>(
            KeyError::InvalidKeyHex,
        ),
        !key_config_ok(*server) && !(spec_key_choice(*server) is Supplied
            && (server.secp256k1_key matches Some(t) && !is_hex_string(t@))) ==> r == Err::<
            discv5::enr::CombinedKey,
            KeyError,
        >(KeyError::InvalidKey),
{
    match key_choice(server) {
        KeyChoice::Fixed => {
            let secret = static_secret();
            match engine::secp256k1_key_from_bytes(&secret) {
                Some(key) => Ok(key),
                None => Err(KeyError::InvalidKey),
            }
        },
        KeyChoice::Supplied => match &server.secp256k1_key {
            Some(text) => match hex_decode(text.as_str()) {
                Some(bytes) => match engine::secp256k1_key_from_bytes(&bytes) {
                    Some(key) => Ok(key),
                    None => Err(KeyError::InvalidKey),
                },
                None => Err(KeyError::InvalidKeyHex),
            },
            None => {
                assert(false);
                Err(KeyError::InvalidKey)
            },
        },
        KeyChoice::Generated => Ok(engine::generate_secp256k1_key()),
    }
}

} // verus!
