use vstd::prelude::*;

verus! {

/// Description of one X.509v3 extension attached to a request, as plain
/// values.  The request carries the extensions in the order in which they
/// are listed.
pub enum ExtensionSpec {
    /// The legacy Netscape certificate-type marker, with its textual value.
    NsCertType { value: String },
    /// An identifier derived from the request's own public key.
    SubjectKeyIdentifier,
    /// The permitted key operations; `critical` marks the extension
    /// critical.
    KeyUsage { critical: bool, digital_signature: bool, key_encipherment: bool },
    /// The permitted application purposes.
    ExtendedKeyUsage { server_auth: bool },
    /// Additional identities the request asks to be bound to: one IP
    /// literal and one DNS name, in that order.
    SubjectAlternativeName { ip: String, dns: String },
}

/// The extension set every request carries, in order: the nsCertType
/// "server" marker, a subject key identifier, a critical key usage
/// asserting exactly digitalSignature and keyEncipherment, an extended key
/// usage asserting exactly serverAuth, and a subject alternative name
/// holding the loopback IP literal and the name "localhost".
pub fn standard_extension_specs() -> (r: Vec<ExtensionSpec>)
    ensures
        r@.len() == 5,
        r@[0] matches ExtensionSpec::NsCertType { value } && value@ == "server"@,
        r@[1] is SubjectKeyIdentifier,
        r@[2] matches ExtensionSpec::KeyUsage { critical, digital_signature, key_encipherment }
            && critical && digital_signature && key_encipherment,
        r@[3] matches ExtensionSpec::ExtendedKeyUsage { server_auth } && server_auth,
        r@[4] matches ExtensionSpec::SubjectAlternativeName { ip, dns } && ip@ == "127.0.0.1"@
            && dns@ == "localhost"@,
{
    let mut v: Vec<ExtensionSpec> = Vec::new();
    v.push(ExtensionSpec::NsCertType { value: "server".to_owned() });
    v.push(ExtensionSpec::SubjectKeyIdentifier);
    v.push(
        ExtensionSpec::KeyUsage {
            critical: true,
            digital_signature: true,
            key_encipherment: true,
        },
    );
    v.push(ExtensionSpec::ExtendedKeyUsage { server_auth: true });
    v.push(
        ExtensionSpec::SubjectAlternativeName {
            ip: "127.0.0.1".to_owned(),
            dns: "localhost".to_owned(),
        },
    );
    v
}

} // verus!
