use vstd::prelude::*;

verus! {

/// The fixed distinguished-name fields of a request's subject.  The
/// CommonName is not part of the configuration: it is the one
/// caller-supplied value and is passed separately wherever a subject is
/// built.
pub struct DnConfig {
    pub country: String,
    pub state: String,
    pub city: String,
    pub organization: String,
    pub email: String,
}

/// The subject's attribute entries, in the order in which they are placed
/// into the request: Country, State, Locality, Organization, CommonName,
/// EmailAddress.  Each entry is a (field, value) pair; the CommonName value
/// is the identity exactly as supplied.
pub open spec fn dn_entry_seq(config: DnConfig, identity: Seq<char>) -> Seq<(Seq<char>, Seq<char>)> {
    seq![
        ("C"@, config.country@),
        ("ST"@, config.state@),
        ("L"@, config.city@),
        ("O"@, config.organization@),
        ("CN"@, identity),
        ("emailAddress"@, config.email@),
    ]
}

/// The views of a sequence of owned (field, value) pairs.
pub open spec fn entry_views(s: Seq<(String, String)>) -> Seq<(Seq<char>, Seq<char>)> {
    s.map_values(|e: (String, String)| (e.0@, e.1@))
}

impl DnConfig {
    /// The stock configuration: the constants used when no other
    /// configuration is supplied.
    pub fn standard() -> (r: DnConfig)
        ensures
            r.country@ == "AU"@,
            r.state@ == "Some-State"@,
            r.city@ == "Springfield"@,
            r.organization@ == "Example"@,
            r.email@ == "help@example.com"@,
    {
        DnConfig {
            country: "AU".to_owned(),
            state: "Some-State".to_owned(),
            city: "Springfield".to_owned(),
            organization: "Example".to_owned(),
            email: "help@example.com".to_owned(),
        }
    }
}

/// The subject entries as owned strings, in request order.
pub fn subject_entries(config: &DnConfig, identity: &str) -> (r: Vec<(String, String)>)
    ensures
        entry_views(r@) == dn_entry_seq(*config, identity@),
{
    let mut v: Vec<(String, String)> = Vec::new();
    v.push(("C".to_owned(), config.country.clone()));
    v.push(("ST".to_owned(), config.state.clone()));
    v.push(("L".to_owned(), config.city.clone()));
    v.push(("O".to_owned(), config.organization.clone()));
    v.push(("CN".to_owned(), identity.to_owned()));
    v.push(("emailAddress".to_owned(), config.email.clone()));
    proof {
        assert(entry_views(v@) =~= dn_entry_seq(*config, identity@));
    }
    v
}

/// The subject carries the identity verbatim: the CommonName entry is the
/// fifth of exactly six entries, and its value is the identity itself, with
/// no alteration.
pub proof fn lemma_common_name_verbatim(config: DnConfig, identity: Seq<char>)
    ensures
        dn_entry_seq(config, identity).len() == 6,
        dn_entry_seq(config, identity)[4].0 == "CN"@,
        dn_entry_seq(config, identity)[4].1 == identity,
{
}

} // verus!
