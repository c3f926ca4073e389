use vstd::prelude::*;

use openssl::pkey::PKey;
use openssl::pkey::Private;

use crate::backend;
use crate::error::CsrError;

verus! {

/// The modulus sizes the key generator accepts: what openssl's RSA key
/// generation supports on this side, from its smallest permitted modulus up
/// to its compiled-in maximum.
pub open spec fn supported_key_size(bits: u32) -> bool {
    512 <= bits <= 16384
}

/// An RSA key pair together with the bit length of its modulus.
pub struct RsaKey {
    key: PKey<Private>,
    bits: u32,
}

impl RsaKey {
    /// The key pair's material.
    pub closed spec fn spec_material(&self) -> Seq<u8> {
        backend::pkey_material(self.key)
    }

    /// The recorded modulus size.
    pub closed spec fn spec_bits(&self) -> u32 {
        self.bits
    }

    /// A key is well formed when its recorded size is a supported one and
    /// is the bit length of its own modulus.
    pub closed spec fn wf(&self) -> bool {
        supported_key_size(self.bits) && backend::material_bits(self.spec_material())
            == self.bits as nat
    }

    /// The bit length of the key's modulus.
    pub fn bits(&self) -> (r: u32)
        ensures
            r == self.spec_bits(),
    {
        self.bits
    }

    pub(crate) fn pkey(&self) -> (r: &PKey<Private>)
        ensures
            backend::pkey_material(*r) == self.spec_material(),
    {
        &self.key
    }
}

/// Generate a fresh RSA key pair of the requested modulus size.
///
/// An unsupported size is rejected up front, before any randomness is
/// drawn.  For a supported size the key comes from openssl's generator;
/// the size openssl reports for the generated key is checked against the
/// request, so a returned key always records the bit length of its own
/// modulus, and that length is the one asked for.  Every failure surfaces
/// as `KeyGenerationFailure`.
pub fn generate_private_key(key_size: u32) -> (r: Result<RsaKey, CsrError>)
    ensures
        r matches Ok(k) ==> k.wf() && k.spec_bits() == key_size && backend::material_bits(
            k.spec_material(),
        ) == key_size as nat,
        r matches Err(e) ==> e == CsrError::KeyGenerationFailure,
        !supported_key_size(key_size) ==> r is Err,
{
    if key_size < 512 || key_size > 16384 {
        return Err(CsrError::KeyGenerationFailure);
    }
    let rsa = match backend::rsa_generate(key_size) {
        Ok(rsa) => rsa,
        Err(_) => return Err(CsrError::KeyGenerationFailure),
    };
    let key = match backend::pkey_from_rsa(rsa) {
        Ok(key) => key,
        Err(_) => return Err(CsrError::KeyGenerationFailure),
    };
    if backend::pkey_bits(&key) != key_size {
        return Err(CsrError::KeyGenerationFailure);
    }
    Ok(RsaKey { key, bits: key_size })
}

} // verus!
