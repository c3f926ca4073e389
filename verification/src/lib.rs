//! Generation of RSA private keys and PKCS#10 certificate signing requests.
//!
//! The library builds a CSR with a configurable distinguished name and a
//! fixed set of X.509v3 extensions, signs it with a freshly generated RSA
//! key, and hands both back as PEM text.  The cryptographic work is done by
//! openssl behind a small set of trusted declarations; the ordering of the
//! name fields, the choice of extensions and the error taxonomy are stated
//! in contracts and verified.

pub mod backend;
pub mod config;
pub mod csr;
pub mod error;
pub mod extensions;
pub mod keygen;
