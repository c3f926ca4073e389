//! Trusted boundary around the openssl crate and one std conversion.
//!
//! Everything in this module is either a type declaration for an openssl
//! type, a model for what such a value holds, or a thin wrapper whose body
//! makes exactly the openssl (or std) call named in its doc comment.  Verus
//! believes the contracts written here; they state no more than the wrapped
//! function's source and documentation show.
//!
//! The models read as follows.  A key is modelled by its material, the
//! mathematical key pair it holds; every operation on a key is a function
//! of that material.  A name under construction is modelled by its ordered
//! (field, value) entries.  A request is modelled by its content — version,
//! subject entries, bound public key, attached extensions — together with
//! the key and the content that its signature, if any, was computed over.
//! All of openssl's constructions here are deterministic in these models
//! (PKCS#1 v1.5 signing with SHA-256 and DER/PEM encoding draw no
//! randomness), and a request built through these wrappers is serialized
//! from its current content, so the named serializations are functions of
//! the models.

use vstd::prelude::*;
use vstd::string::StringSliceAdditionalSpecFns;

use openssl::error::ErrorStack;
use openssl::pkey::PKey;
use openssl::pkey::Private;
use openssl::rsa::Rsa;
use openssl::stack::Stack;
use openssl::x509::X509Extension;
use openssl::x509::X509Name;
use openssl::x509::X509NameBuilder;
use openssl::x509::X509Req;
use openssl::x509::X509ReqBuilder;

verus! {

#[verifier::external_type_specification]
#[verifier::external_body]
pub struct ExErrorStack(ErrorStack);

#[verifier::external_type_specification]
#[verifier::external_body]
pub struct ExPrivate(Private);

#[verifier::external_type_specification]
#[verifier::external_body]
#[verifier::reject_recursive_types(T)]
pub struct ExRsa<T>(Rsa<T>);

#[verifier::external_type_specification]
#[verifier::external_body]
#[verifier::reject_recursive_types(T)]
pub struct ExPKey<T>(PKey<T>);

#[verifier::external_type_specification]
#[verifier::external_body]
pub struct ExX509NameBuilder(X509NameBuilder);

#[verifier::external_type_specification]
#[verifier::external_body]
pub struct ExX509Name(X509Name);

#[verifier::external_type_specification]
#[verifier::external_body]
pub struct ExX509ReqBuilder(X509ReqBuilder);

#[verifier::external_type_specification]
#[verifier::external_body]
pub struct ExX509Req(X509Req);

#[verifier::external_type_specification]
#[verifier::external_body]
pub struct ExX509Extension(X509Extension);

/// A stack of extensions waiting to be attached to a request.  openssl's
/// `Stack` type cannot be declared to Verus (its type parameter carries a
/// trait bound), so it is held opaquely in this struct.
#[verifier::external_body]
pub struct ExtStack {
    inner: Stack<X509Extension>,
}

/// True when no character of `s` is the NUL character.  A NUL byte in the
/// UTF-8 encoding of a string occurs exactly where the character U+0000
/// occurs, so this also says that the string's bytes hold no NUL byte.
pub open spec fn no_nul(s: Seq<char>) -> bool {
    forall|i: int| 0 <= i < s.len() ==> s[i] != '\0'
}

/// True when every byte of `s` is ASCII.
pub open spec fn all_ascii(s: Seq<u8>) -> bool {
    forall|i: int| 0 <= i < s.len() ==> s[i] < 128
}

/// What one X.509v3 extension holds, as plain values.
pub enum ExtensionModel {
    /// The legacy Netscape certificate-type extension parsed from the
    /// given textual value.
    NsCertType { value: Seq<char> },
    /// A subject key identifier derived from the given public key (the
    /// key the enclosing request carried when the extension was built).
    SubjectKeyIdentifierFor { pubkey: Option<Seq<u8>> },
    /// The critical keyUsage extension asserting exactly digitalSignature
    /// and keyEncipherment.
    KeyUsageSigning,
    /// The extendedKeyUsage extension asserting exactly serverAuth.
    ExtendedKeyUsageServer,
    /// A subjectAltName holding exactly the given IP literal and DNS name,
    /// in that order.
    SubjectAltName { ip: Seq<char>, dns: Seq<char> },
}

/// The fields of a request that its signature is computed over: version,
/// subject entries in order, the material of the bound public key, and the
/// attached extensions in order.
pub struct ReqContent {
    pub version: int,
    pub subject: Seq<(Seq<char>, Seq<char>)>,
    pub pubkey: Option<Seq<u8>>,
    pub extensions: Seq<ExtensionModel>,
}

/// A request under construction or built: its current content, and, once
/// signed, the material of the signing key together with the content the
/// SHA-256 signature was computed over.
pub struct ReqModel {
    pub content: ReqContent,
    pub signature: Option<(Seq<u8>, ReqContent)>,
}

/// The (field, value) entries a name builder holds so far, in insertion
/// order.
pub uninterp spec fn name_builder_entries(b: X509NameBuilder) -> Seq<(Seq<char>, Seq<char>)>;

/// The (field, value) entries of a built name, in insertion order.
pub uninterp spec fn name_entries(n: X509Name) -> Seq<(Seq<char>, Seq<char>)>;

/// The key material an RSA key pair holds.
pub uninterp spec fn rsa_material(k: Rsa<Private>) -> Seq<u8>;

/// The key material a key object holds.
pub uninterp spec fn pkey_material(k: PKey<Private>) -> Seq<u8>;

/// The bit length of the modulus of the key with the given material, as
/// openssl's `EVP_PKEY_bits` reports it.
pub uninterp spec fn material_bits(material: Seq<u8>) -> nat;

/// The unencrypted PKCS#8 PEM serialization of the key with the given
/// material.
pub uninterp spec fn private_pem_pkcs8_of(material: Seq<u8>) -> Seq<u8>;

/// What a built extension holds.
pub uninterp spec fn ext_model(e: X509Extension) -> ExtensionModel;

/// What the extensions on a stack hold, in stack order.
pub uninterp spec fn ext_stack_models(s: ExtStack) -> Seq<ExtensionModel>;

/// What a request under construction holds.
pub uninterp spec fn req_builder_model(b: X509ReqBuilder) -> ReqModel;

/// What a finished request holds.
pub uninterp spec fn req_model(r: X509Req) -> ReqModel;

/// The PEM serialization of a request holding the given model.
pub uninterp spec fn req_pem_of(m: ReqModel) -> Seq<u8>;

/// Relies on openssl's `X509NameBuilder::new`: a fresh builder holds no
/// entries.
#[verifier::external_body]
pub(crate) fn name_builder_new() -> (r: Result<X509NameBuilder, ErrorStack>)
    ensures
        r matches Ok(b) ==> name_builder_entries(b) == Seq::<(Seq<char>, Seq<char>)>::empty(),
{
    X509NameBuilder::new()
}

/// Relies on openssl's `X509NameBuilder::append_entry_by_text`: on success
/// the (field, value) entry is appended after the existing entries.  The
/// binding turns `field` into a C string (so `field` must hold no NUL) and
/// asserts that `value` is no longer than `c_int::MAX` bytes; the
/// preconditions rule both panics out.
#[verifier::external_body]
pub(crate) fn name_builder_append(
    b: &mut X509NameBuilder,
    field: &str,
    value: &str,
) -> (r: Result<(), ErrorStack>)
    requires
        no_nul(field@),
        value.spec_bytes().len() <= 0x7fff_ffff,
    ensures
        r is Ok ==> name_builder_entries(*final(b)) == name_builder_entries(*old(b)).push(
            (field@, value@),
        ),
{
    b.append_entry_by_text(field, value)
}

/// Relies on openssl's `X509NameBuilder::build`: the built name holds
/// exactly the entries appended to the builder.
#[verifier::external_body]
pub(crate) fn name_builder_build(b: X509NameBuilder) -> (r: X509Name)
    ensures
        name_entries(r) == name_builder_entries(b),
{
    b.build()
}

/// Relies on openssl's `Rsa::generate`: a fresh key pair of the requested
/// modulus size drawn from openssl's cryptographically secure randomness.
/// The material differs from call to call, so nothing is stated of it.
#[verifier::external_body]
pub(crate) fn rsa_generate(bits: u32) -> (r: Result<Rsa<Private>, ErrorStack>) {
    Rsa::generate(bits)
}

/// Relies on openssl's `PKey::from_rsa`: wraps the RSA key pair unchanged,
/// so the result holds the same material.
#[verifier::external_body]
pub(crate) fn pkey_from_rsa(rsa: Rsa<Private>) -> (r: Result<PKey<Private>, ErrorStack>)
    ensures
        r matches Ok(k) ==> pkey_material(k) == rsa_material(rsa),
{
    PKey::from_rsa(rsa)
}

/// Relies on openssl's `PKey::bits`: the bit length of the key's modulus,
/// a function of the key's material alone.
#[verifier::external_body]
pub(crate) fn pkey_bits(key: &PKey<Private>) -> (r: u32)
    ensures
        r as nat == material_bits(pkey_material(*key)),
{
    key.bits()
}

/// Relies on openssl's `PKey::private_key_to_pem_pkcs8`: the key
/// serialized as an unencrypted PKCS#8 PEM block, a deterministic function
/// of the key's material.
#[verifier::external_body]
pub(crate) fn pkey_private_pem_pkcs8(key: &PKey<Private>) -> (r: Result<Vec<u8>, ErrorStack>)
    ensures
        r matches Ok(v) ==> v@ == private_pem_pkcs8_of(pkey_material(*key)),
{
    key.private_key_to_pem_pkcs8()
}

/// Relies on openssl's `X509Req::builder` (`X509ReqBuilder::new`): a fresh
/// request with version 0, an empty subject, no public key, no extensions
/// and no signature.
#[verifier::external_body]
pub(crate) fn req_builder_new() -> (r: Result<X509ReqBuilder, ErrorStack>)
    ensures
        r matches Ok(b) ==> req_builder_model(b) == (ReqModel {
            content: ReqContent {
                version: 0,
                subject: Seq::empty(),
                pubkey: None,
                extensions: Seq::empty(),
            },
            signature: None,
        }),
{
    X509Req::builder()
}

/// Relies on openssl's `X509ReqBuilder::set_version`: sets the numerical
/// value of the request's version field and touches nothing else.
#[verifier::external_body]
pub(crate) fn req_set_version(b: &mut X509ReqBuilder, version: i32) -> (r: Result<
    (),
    ErrorStack,
>)
    ensures
        r is Ok ==> req_builder_model(*final(b)) == (ReqModel {
            content: ReqContent {
                version: version as int,
                subject: req_builder_model(*old(b)).content.subject,
                pubkey: req_builder_model(*old(b)).content.pubkey,
                extensions: req_builder_model(*old(b)).content.extensions,
            },
            signature: req_builder_model(*old(b)).signature,
        }),
{
    b.set_version(version)
}

/// Relies on openssl's `X509ReqBuilder::set_subject_name`: copies `name`
/// into the request's subject and touches nothing else.
#[verifier::external_body]
pub(crate) fn req_set_subject_name(b: &mut X509ReqBuilder, name: &X509Name) -> (r: Result<
    (),
    ErrorStack,
>)
    ensures
        r is Ok ==> req_builder_model(*final(b)) == (ReqModel {
            content: ReqContent {
                version: req_builder_model(*old(b)).content.version,
                subject: name_entries(*name),
                pubkey: req_builder_model(*old(b)).content.pubkey,
                extensions: req_builder_model(*old(b)).content.extensions,
            },
            signature: req_builder_model(*old(b)).signature,
        }),
{
    b.set_subject_name(name)
}

/// Relies on openssl's `X509ReqBuilder::set_pubkey`: binds the public half
/// of `key` to the request and touches nothing else.
#[verifier::external_body]
pub(crate) fn req_set_pubkey(b: &mut X509ReqBuilder, key: &PKey<Private>) -> (r: Result<
    (),
    ErrorStack,
>)
    ensures
        r is Ok ==> req_builder_model(*final(b)) == (ReqModel {
            content: ReqContent {
                version: req_builder_model(*old(b)).content.version,
                subject: req_builder_model(*old(b)).content.subject,
                pubkey: Some(pkey_material(*key)),
                extensions: req_builder_model(*old(b)).content.extensions,
            },
            signature: req_builder_model(*old(b)).signature,
        }),
{
    b.set_pubkey(key)
}

/// Relies on openssl's `X509ReqBuilder::sign` and `MessageDigest::sha256`:
/// signs the request's current content with the private key, using SHA-256
/// as the digest, and leaves the content itself unchanged.
#[verifier::external_body]
pub(crate) fn req_sign_sha256(b: &mut X509ReqBuilder, key: &PKey<Private>) -> (r: Result<
    (),
    ErrorStack,
>)
    ensures
        r is Ok ==> req_builder_model(*final(b)) == (ReqModel {
            content: req_builder_model(*old(b)).content,
            signature: Some(
                (pkey_material(*key), req_builder_model(*old(b)).content),
            ),
        }),
{
    b.sign(key, openssl::hash::MessageDigest::sha256())
}

/// Relies on openssl's `X509Extension::new` with the extension type
/// `nsCertType`: the legacy Netscape certificate-type extension parsed
/// from the given textual value, a deterministic function of that value.
/// The binding turns the value into a C string, so it may hold no NUL.
#[verifier::external_body]
#[allow(deprecated)]
pub(crate) fn extension_ns_cert_type(value: &str) -> (r: Result<X509Extension, ErrorStack>)
    requires
        no_nul(value@),
    ensures
        r matches Ok(e) ==> ext_model(e) == (ExtensionModel::NsCertType { value: value@ }),
{
    X509Extension::new(None, None, "nsCertType", value)
}

/// Relies on openssl's `SubjectKeyIdentifier::new().build(..)` with the
/// request's own `x509v3_context`: an identifier derived deterministically
/// from the public key the request carries.
#[verifier::external_body]
pub(crate) fn extension_subject_key_identifier(b: &X509ReqBuilder) -> (r: Result<
    X509Extension,
    ErrorStack,
>)
    ensures
        r matches Ok(e) ==> ext_model(e) == (ExtensionModel::SubjectKeyIdentifierFor {
            pubkey: req_builder_model(*b).content.pubkey,
        }),
{
    openssl::x509::extension::SubjectKeyIdentifier::new().build(&b.x509v3_context(None))
}

/// Relies on openssl's `KeyUsage` builder, called as
/// `new().critical().digital_signature().key_encipherment().build()`: the
/// critical keyUsage extension asserting exactly digitalSignature and
/// keyEncipherment, always the same value.
#[verifier::external_body]
pub(crate) fn extension_key_usage_signing() -> (r: Result<X509Extension, ErrorStack>)
    ensures
        r matches Ok(e) ==> ext_model(e) == ExtensionModel::KeyUsageSigning,
{
    openssl::x509::extension::KeyUsage::new()
        .critical()
        .digital_signature()
        .key_encipherment()
        .build()
}

/// Relies on openssl's `ExtendedKeyUsage` builder, called as
/// `new().server_auth().build()`: the extendedKeyUsage extension asserting
/// exactly serverAuth, always the same value.
#[verifier::external_body]
pub(crate) fn extension_extended_key_usage_server() -> (r: Result<X509Extension, ErrorStack>)
    ensures
        r matches Ok(e) ==> ext_model(e) == ExtensionModel::ExtendedKeyUsageServer,
{
    openssl::x509::extension::ExtendedKeyUsage::new().server_auth().build()
}

/// Relies on openssl's `SubjectAlternativeName` builder, called as
/// `new().ip(ip).dns(dns).build(..)` with the request's own context: a
/// subjectAltName extension holding exactly the given IP literal and DNS
/// name, in that order, a deterministic function of the two values.  An
/// `ip` that does not parse as an IP address makes the call return the
/// error; a `dns` longer than `c_int::MAX` bytes would make the underlying
/// `GeneralName` constructor panic, so the precondition rules it out.
#[verifier::external_body]
pub(crate) fn extension_subject_alt_name(b: &X509ReqBuilder, ip: &str, dns: &str) -> (r: Result<
    X509Extension,
    ErrorStack,
>)
    requires
        dns.spec_bytes().len() <= 0x7fff_ffff,
    ensures
        r matches Ok(e) ==> ext_model(e) == (ExtensionModel::SubjectAltName {
            ip: ip@,
            dns: dns@,
        }),
{
    openssl::x509::extension::SubjectAlternativeName::new()
        .ip(ip)
        .dns(dns)
        .build(&b.x509v3_context(None))
}

/// Relies on openssl's `Stack::new`: a fresh, empty extension stack.
#[verifier::external_body]
pub(crate) fn ext_stack_new() -> (r: Result<ExtStack, ErrorStack>)
    ensures
        r matches Ok(s) ==> ext_stack_models(s) == Seq::<ExtensionModel>::empty(),
{
    match Stack::new() {
        Ok(s) => Ok(ExtStack { inner: s }),
        Err(e) => Err(e),
    }
}

/// Relies on openssl's `Stack::push`: appends the extension to the stack.
#[verifier::external_body]
pub(crate) fn ext_stack_push(s: &mut ExtStack, e: X509Extension) -> (r: Result<(), ErrorStack>)
    ensures
        r is Ok ==> ext_stack_models(*final(s)) == ext_stack_models(*old(s)).push(ext_model(e)),
{
    s.inner.push(e)
}

/// Relies on openssl's `X509ReqBuilder::add_extensions`: attaches the
/// stack's extensions to the request, after any already attached, and
/// touches nothing else.
#[verifier::external_body]
pub(crate) fn req_add_extensions(b: &mut X509ReqBuilder, exts: &ExtStack) -> (r: Result<
    (),
    ErrorStack,
>)
    ensures
        r is Ok ==> req_builder_model(*final(b)) == (ReqModel {
            content: ReqContent {
                version: req_builder_model(*old(b)).content.version,
                subject: req_builder_model(*old(b)).content.subject,
                pubkey: req_builder_model(*old(b)).content.pubkey,
                extensions: req_builder_model(*old(b)).content.extensions + ext_stack_models(
                    *exts,
                ),
            },
            signature: req_builder_model(*old(b)).signature,
        }),
{
    b.add_extensions(&exts.inner)
}

/// Relies on openssl's `X509ReqBuilder::build`: returns the request it was
/// building, unchanged.
#[verifier::external_body]
pub(crate) fn req_build(b: X509ReqBuilder) -> (r: X509Req)
    ensures
        req_model(r) == req_builder_model(b),
{
    b.build()
}

/// Relies on openssl's `X509Req::to_pem`: the request serialized as a
/// PEM-encoded PKCS#10 block.  A request built through these wrappers is
/// re-encoded from its current content and carries the signature its model
/// records, so the output is a function of the model.
#[verifier::external_body]
pub(crate) fn req_to_pem(req: &X509Req) -> (r: Result<Vec<u8>, ErrorStack>)
    ensures
        r matches Ok(v) ==> v@ == req_pem_of(req_model(*req)),
{
    req.to_pem()
}

/// Relies on std's `String::from_utf8`: succeeds exactly on valid UTF-8 and
/// keeps the bytes.  ASCII bytes are valid UTF-8 and decode one character
/// per byte, which is all the callers here need.
#[verifier::external_body]
pub(crate) fn utf8_string(bytes: Vec<u8>) -> (r: Option<String>)
    ensures
        r is Some <== all_ascii(bytes@),
        r matches Some(s) ==> (all_ascii(bytes@) ==> s@ == bytes@.map_values(|b: u8| b as char)),
{
    match String::from_utf8(bytes) {
        Ok(s) => Some(s),
        Err(_) => None,
    }
}

} // verus!
