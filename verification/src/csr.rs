use vstd::prelude::*;

use openssl::x509::X509Name;
use openssl::x509::X509ReqBuilder;

use crate::backend;
use crate::backend::all_ascii;
use crate::backend::no_nul;
use crate::backend::ExtStack;
use crate::backend::ExtensionModel;
use crate::backend::ReqContent;
use crate::backend::ReqModel;
use crate::config::dn_entry_seq;
use crate::config::entry_views;
use crate::config::subject_entries;
use crate::config::DnConfig;
use crate::error::CsrError;
use crate::extensions::standard_extension_specs;
use crate::extensions::ExtensionSpec;
use crate::keygen::RsaKey;

verus! {

/// The value of the request's version field.  PKCS#10 numbers versions
/// from one, so the encoded integer 2 marks a "v3" request.
pub const PKCS10_VERSION: i32 = 2;

/// The attribute-type labels placed into subjects, and the fixed extension
/// values, hold no NUL character.
proof fn lemma_literals_no_nul()
    ensures
        no_nul("C"@),
        no_nul("ST"@),
        no_nul("L"@),
        no_nul("O"@),
        no_nul("CN"@),
        no_nul("emailAddress"@),
        no_nul("server"@),
{
    reveal_strlit("C");
    reveal_strlit("ST");
    reveal_strlit("L");
    reveal_strlit("O");
    reveal_strlit("CN");
    reveal_strlit("emailAddress");
    reveal_strlit("server");
}

/// Every attribute-type label of a subject holds no NUL character.
proof fn lemma_dn_fields_no_nul(config: DnConfig, identity: Seq<char>)
    ensures
        forall|i: int|
            0 <= i < dn_entry_seq(config, identity).len() ==> no_nul(
                #[trigger] dn_entry_seq(config, identity)[i].0,
            ),
{
    lemma_literals_no_nul();
}

/// Build the request's subject from the configuration and the identity.
///
/// On success the built name holds exactly the entries of
/// `dn_entry_seq(*config, identity@)`, in that order: the identity becomes
/// the CommonName verbatim.  Every failure surfaces as
/// `NameConstructionFailure`; a value too long for the underlying binding
/// is rejected rather than handed on.
pub(crate) fn build_subject_name(config: &DnConfig, identity: &str) -> (r: Result<
    X509Name,
    CsrError,
>)
    ensures
        r matches Ok(name) ==> backend::name_entries(name) == dn_entry_seq(*config, identity@),
        r matches Err(e) ==> e == CsrError::NameConstructionFailure,
{
    let entries = subject_entries(config, identity);
    let mut b = match backend::name_builder_new() {
        Ok(b) => b,
        Err(_) => return Err(CsrError::NameConstructionFailure),
    };
    let n = entries.len();
    for i in 0..n
        invariant
            n == entries@.len(),
            entry_views(entries@) == dn_entry_seq(*config, identity@),
            backend::name_builder_entries(b) == entry_views(entries@).take(i as int),
    {
        let field = entries[i].0.as_str();
        let value = entries[i].1.as_str();
        if value.as_bytes().len() > 0x7fff_ffff {
            return Err(CsrError::NameConstructionFailure);
        }
        proof {
            lemma_dn_fields_no_nul(*config, identity@);
            assert(entry_views(entries@)[i as int] == (entries@[i as int].0@, entries@[i as int].1@));
            assert(entry_views(entries@)[i as int] == dn_entry_seq(*config, identity@)[i as int]);
            assert(no_nul(dn_entry_seq(*config, identity@)[i as int].0));
        }
        match backend::name_builder_append(&mut b, field, value) {
            Ok(()) => {},
            Err(_) => return Err(CsrError::NameConstructionFailure),
        }
        proof {
            assert(entry_views(entries@).take(i + 1) =~= entry_views(entries@).take(
                i as int,
            ).push(entry_views(entries@)[i as int]));
        }
    }
    proof {
        assert(entry_views(entries@).take(n as int) =~= entry_views(entries@));
    }
    Ok(backend::name_builder_build(b))
}

/// True when every NsCertType value in the list holds no NUL character, so
/// that it can be handed to the underlying binding without panicking.
pub(crate) open spec fn wf_extension_specs(s: Seq<ExtensionSpec>) -> bool {
    forall|i: int|
        0 <= i < s.len() ==> ((#[trigger] s[i]) matches ExtensionSpec::NsCertType { value }
            ==> no_nul(value@))
}

/// What the extension described by `e` holds once built on a request whose
/// bound public key has material `pubkey`.
pub open spec fn model_of_spec(e: ExtensionSpec, pubkey: Option<Seq<u8>>) -> ExtensionModel {
    match e {
        ExtensionSpec::NsCertType { value } => ExtensionModel::NsCertType { value: value@ },
        ExtensionSpec::SubjectKeyIdentifier => ExtensionModel::SubjectKeyIdentifierFor { pubkey },
        ExtensionSpec::KeyUsage { .. } => ExtensionModel::KeyUsageSigning,
        ExtensionSpec::ExtendedKeyUsage { .. } => ExtensionModel::ExtendedKeyUsageServer,
        ExtensionSpec::SubjectAlternativeName { ip, dns } => ExtensionModel::SubjectAltName {
            ip: ip@,
            dns: dns@,
        },
    }
}

/// The models of a whole list of descriptions, in order.
pub open spec fn models_of_specs(s: Seq<ExtensionSpec>, pubkey: Option<Seq<u8>>) -> Seq<
    ExtensionModel,
> {
    s.map_values(|e: ExtensionSpec| model_of_spec(e, pubkey))
}

/// Build the extension stack described by `specs`, each extension
/// constructed in the request's own context, in list order.
///
/// On success the stack holds exactly the described extensions, in order.
/// The backend provides the key-usage and extended-key-usage combinations
/// of the standard set; a description asking for any other combination is
/// rejected, as is a DNS name too long for the underlying binding.  Every
/// failure surfaces as `ExtensionConstructionFailure`.
pub(crate) fn build_extension_stack(b: &X509ReqBuilder, specs: &Vec<ExtensionSpec>) -> (r: Result<
    ExtStack,
    CsrError,
>)
    requires
        wf_extension_specs(specs@),
    ensures
        r matches Ok(s) ==> backend::ext_stack_models(s) == models_of_specs(
            specs@,
            backend::req_builder_model(*b).content.pubkey,
        ),
        r matches Err(e) ==> e == CsrError::ExtensionConstructionFailure,
{
    let mut stack = match backend::ext_stack_new() {
        Ok(s) => s,
        Err(_) => return Err(CsrError::ExtensionConstructionFailure),
    };
    let ghost pubkey = backend::req_builder_model(*b).content.pubkey;
    let n = specs.len();
    for i in 0..n
        invariant
            n == specs@.len(),
            wf_extension_specs(specs@),
            pubkey == backend::req_builder_model(*b).content.pubkey,
            backend::ext_stack_models(stack) == models_of_specs(specs@, pubkey).take(i as int),
    {
        let built = match &specs[i] {
            ExtensionSpec::NsCertType { value } => {
                proof {
                    assert((specs@[i as int]) matches ExtensionSpec::NsCertType { value: v }
                        ==> no_nul(v@));
                }
                backend::extension_ns_cert_type(value.as_str())
            },
            ExtensionSpec::SubjectKeyIdentifier => backend::extension_subject_key_identifier(b),
            ExtensionSpec::KeyUsage { critical, digital_signature, key_encipherment } => {
                if *critical && *digital_signature && *key_encipherment {
                    backend::extension_key_usage_signing()
                } else {
                    return Err(CsrError::ExtensionConstructionFailure);
                }
            },
            ExtensionSpec::ExtendedKeyUsage { server_auth } => {
                if *server_auth {
                    backend::extension_extended_key_usage_server()
                } else {
                    return Err(CsrError::ExtensionConstructionFailure);
                }
            },
            ExtensionSpec::SubjectAlternativeName { ip, dns } => {
                if dns.as_str().as_bytes().len() > 0x7fff_ffff {
                    return Err(CsrError::ExtensionConstructionFailure);
                }
                backend::extension_subject_alt_name(b, ip.as_str(), dns.as_str())
            },
        };
        let ext = match built {
            Ok(e) => e,
            Err(_) => return Err(CsrError::ExtensionConstructionFailure),
        };
        proof {
            assert(backend::ext_model(ext) == model_of_spec(specs@[i as int], pubkey));
        }
        match backend::ext_stack_push(&mut stack, ext) {
            Ok(()) => {},
            Err(_) => return Err(CsrError::ExtensionConstructionFailure),
        }
        proof {
            assert(models_of_specs(specs@, pubkey).take(i + 1) =~= models_of_specs(
                specs@,
                pubkey,
            ).take(i as int).push(model_of_spec(specs@[i as int], pubkey)));
        }
    }
    proof {
        assert(models_of_specs(specs@, pubkey).take(n as int) =~= models_of_specs(
            specs@,
            pubkey,
        ));
    }
    Ok(stack)
}

/// The extension models every request carries, for a key with the given
/// material: the concrete reading of `standard_extension_specs`.
pub open spec fn standard_extension_models(key_material: Seq<u8>) -> Seq<ExtensionModel> {
    seq![
        ExtensionModel::NsCertType { value: "server"@ },
        ExtensionModel::SubjectKeyIdentifierFor { pubkey: Some(key_material) },
        ExtensionModel::KeyUsageSigning,
        ExtensionModel::ExtendedKeyUsageServer,
        ExtensionModel::SubjectAltName { ip: "127.0.0.1"@, dns: "localhost"@ },
    ]
}

/// The content of the request built for a key with the given material: the
/// fixed version, the subject entries with the identity as CommonName, the
/// key's public half, and the standard extensions.
pub open spec fn csr_content(key_material: Seq<u8>, config: DnConfig, identity: Seq<char>) -> ReqContent {
    ReqContent {
        version: PKCS10_VERSION as int,
        subject: dn_entry_seq(config, identity),
        pubkey: Some(key_material),
        extensions: standard_extension_models(key_material),
    }
}

/// The whole request built for a key with the given material: its content,
/// self-signed with SHA-256 by that same key over that same content.
pub open spec fn csr_model(key_material: Seq<u8>, config: DnConfig, identity: Seq<char>) -> ReqModel {
    ReqModel {
        content: csr_content(key_material, config, identity),
        signature: Some((key_material, csr_content(key_material, config, identity))),
    }
}

/// Build a PEM-encoded certificate signing request for `key`.
///
/// On success the output is the serialization of the request whose model
/// is `csr_model(key.spec_material(), *config, identity@)`: subject
/// entries in order with the identity as CommonName verbatim, version
/// `PKCS10_VERSION`, the public half of `key`, the five standard
/// extensions, and a SHA-256 self-signature computed over that final
/// content — so two calls with the same key, identity and configuration
/// yield the same bytes.  Whether the underlying primitives accept the
/// inputs is theirs to decide; on failure the error names the stage that
/// failed, and nothing partial is returned.
pub fn generate_csr_from_key(key: &RsaKey, identity: &str, config: &DnConfig) -> (r: Result<
    Vec<u8>,
    CsrError,
>)
    ensures
        r matches Ok(pem) ==> pem@ == backend::req_pem_of(
            csr_model(key.spec_material(), *config, identity@),
        ),
        r matches Err(e) ==> (e == CsrError::NameConstructionFailure || e
            == CsrError::ExtensionConstructionFailure || e == CsrError::SigningFailure || e
            == CsrError::SerializationFailure),
{
    let name = match build_subject_name(config, identity) {
        Ok(n) => n,
        Err(e) => return Err(e),
    };
    let mut rb = match backend::req_builder_new() {
        Ok(b) => b,
        Err(_) => return Err(CsrError::SerializationFailure),
    };
    match backend::req_set_version(&mut rb, PKCS10_VERSION) {
        Ok(()) => {},
        Err(_) => return Err(CsrError::SerializationFailure),
    }
    match backend::req_set_subject_name(&mut rb, &name) {
        Ok(()) => {},
        Err(_) => return Err(CsrError::NameConstructionFailure),
    }
    match backend::req_set_pubkey(&mut rb, key.pkey()) {
        Ok(()) => {},
        Err(_) => return Err(CsrError::SerializationFailure),
    }
    let specs = standard_extension_specs();
    proof {
        lemma_literals_no_nul();
        assert forall|i: int| 0 <= i < specs@.len() implies ((#[trigger] specs@[i]) matches
            ExtensionSpec::NsCertType { value } ==> no_nul(value@)) by {
            if i == 0 {
                assert(specs@[0] matches ExtensionSpec::NsCertType { value } && value@
                    == "server"@);
            }
        }
    }
    let stack = match build_extension_stack(&rb, &specs) {
        Ok(s) => s,
        Err(e) => return Err(e),
    };
    proof {
        assert(models_of_specs(specs@, Some(key.spec_material())) =~= standard_extension_models(
            key.spec_material(),
        ));
    }
    match backend::req_add_extensions(&mut rb, &stack) {
        Ok(()) => {},
        Err(_) => return Err(CsrError::ExtensionConstructionFailure),
    }
    proof {
        assert(Seq::<ExtensionModel>::empty() + standard_extension_models(key.spec_material())
            =~= standard_extension_models(key.spec_material()));
    }
    match backend::req_sign_sha256(&mut rb, key.pkey()) {
        Ok(()) => {},
        Err(_) => return Err(CsrError::SigningFailure),
    }
    proof {
        assert(backend::req_builder_model(rb) == csr_model(
            key.spec_material(),
            *config,
            identity@,
        ));
    }
    let req = backend::req_build(rb);
    match backend::req_to_pem(&req) {
        Ok(pem) => Ok(pem),
        Err(_) => Err(CsrError::SerializationFailure),
    }
}

/// The key serialized as an unencrypted PKCS#8 PEM block: on success, the
/// serialization of exactly this key's material.
pub fn private_key_pem(key: &RsaKey) -> (r: Result<Vec<u8>, CsrError>)
    ensures
        r matches Ok(v) ==> v@ == backend::private_pem_pkcs8_of(key.spec_material()),
        r matches Err(e) ==> e == CsrError::SerializationFailure,
{
    match backend::pkey_private_pem_pkcs8(key.pkey()) {
        Ok(pem) => Ok(pem),
        Err(_) => Err(CsrError::SerializationFailure),
    }
}

/// Turn encoded PEM bytes into displayable text.
///
/// PEM is ASCII armor, and ASCII input always succeeds, each byte becoming
/// the corresponding character.  Bytes that are not valid text are
/// rejected with `OutputEncodingFailure`.
pub fn pem_to_string(bytes: Vec<u8>) -> (r: Result<String, CsrError>)
    ensures
        r is Ok <== all_ascii(bytes@),
        r matches Ok(s) ==> (all_ascii(bytes@) ==> s@ == bytes@.map_values(|b: u8| b as char)),
        r matches Err(e) ==> e == CsrError::OutputEncodingFailure,
{
    match backend::utf8_string(bytes) {
        Some(s) => Ok(s),
        None => Err(CsrError::OutputEncodingFailure),
    }
}

/// True when `s` is the text of `bytes`: whenever the bytes are ASCII —
/// as PEM output is — each byte reads as the corresponding character.
pub open spec fn ascii_text_of(s: Seq<char>, bytes: Seq<u8>) -> bool {
    all_ascii(bytes) ==> s == bytes.map_values(|b: u8| b as char)
}

/// Request construction draws no randomness: two successful builds for
/// the same key material, configuration and identity are byte-identical.
pub proof fn lemma_csr_deterministic(
    pem1: Seq<u8>,
    pem2: Seq<u8>,
    material: Seq<u8>,
    config: DnConfig,
    identity: Seq<char>,
)
    requires
        pem1 == backend::req_pem_of(csr_model(material, config, identity)),
        pem2 == backend::req_pem_of(csr_model(material, config, identity)),
    ensures
        pem1 == pem2,
{
}

/// Generate a key of the requested size and a CSR for it, both as PEM
/// text: the whole run of the tool as one function from plain inputs.
///
/// An unsupported key size fails with `KeyGenerationFailure` before any
/// request construction is attempted.  On success there is a generated
/// key, of the requested modulus size, such that the first string is the
/// text of that key's PKCS#8 PEM and the second the text of the CSR built
/// for that key, this identity and this configuration.  Each stage's
/// failure surfaces as that stage's error.
pub fn generate_key_and_csr(key_size: u32, identity: &str, config: &DnConfig) -> (r: Result<
    (String, String),
    CsrError,
>)
    ensures
        !crate::keygen::supported_key_size(key_size) ==> (r matches Err(e) && e
            == CsrError::KeyGenerationFailure),
        r matches Ok(p) ==> (exists|m: Seq<u8>|
            {
                &&& #[trigger] backend::material_bits(m) == key_size as nat
                &&& ascii_text_of(p.0@, backend::private_pem_pkcs8_of(m))
                &&& ascii_text_of(p.1@, backend::req_pem_of(csr_model(m, *config, identity@)))
            }),
{
    let key = match crate::keygen::generate_private_key(key_size) {
        Ok(k) => k,
        Err(e) => return Err(e),
    };
    let key_pem = match private_key_pem(&key) {
        Ok(p) => p,
        Err(e) => return Err(e),
    };
    let key_text = match pem_to_string(key_pem) {
        Ok(s) => s,
        Err(e) => return Err(e),
    };
    let csr_pem = match generate_csr_from_key(&key, identity, config) {
        Ok(p) => p,
        Err(e) => return Err(e),
    };
    let csr_text = match pem_to_string(csr_pem) {
        Ok(s) => s,
        Err(e) => return Err(e),
    };
    proof {
        let m = key.spec_material();
        assert(backend::material_bits(m) == key_size as nat);
        assert(ascii_text_of(key_text@, backend::private_pem_pkcs8_of(m)));
        assert(ascii_text_of(csr_text@, backend::req_pem_of(csr_model(m, *config, identity@))));
    }
    Ok((key_text, csr_text))
}

} // verus!
