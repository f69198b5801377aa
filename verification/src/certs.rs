//! Certificates: what this library takes from `rcgen` and `rustls_pemfile`, and which
//! certificates can be written out.
use vstd::prelude::*;
use vstd::string::{StrSliceExecFns, StringExecFnsIsAscii};
use vstd::utf8::{encode_utf8, is_ascii_chars};

verus! {

#[verifier::external_type_specification]
#[verifier::external_body]
pub struct ExKeyPair(rcgen::KeyPair);

#[verifier::external_type_specification]
#[verifier::external_body]
pub struct ExCertificate(rcgen::Certificate);

#[verifier::external_type_specification]
#[verifier::external_body]
pub struct ExRcgenError(rcgen::RcgenError);

#[verifier::external_type_specification]
#[verifier::external_body]
pub struct ExDistinguishedName(rcgen::DistinguishedName);

#[verifier::external_type_specification]
#[verifier::external_body]
pub struct ExCertificateParams(rcgen::CertificateParams);

/// The bytes of each of the given byte strings.
pub open spec fn byte_strings(v: Seq<Vec<u8>>) -> Seq<Seq<u8>> {
    v.map_values(|b: Vec<u8>| b@)
}

/// The characters of each of the given texts.
pub open spec fn texts(v: Seq<String>) -> Seq<Seq<char>> {
    v.map_values(|s: String| s@)
}

/// The private keys in PKCS#8 format that a PEM file holds, in order, or why it cannot be read.
pub uninterp spec fn private_keys_in(pem: Seq<u8>) -> Result<Seq<Seq<u8>>, std::io::Error>;

/// `rustls_pemfile::pkcs8_private_keys`: the keys of that kind that the PEM text holds. What it
/// returns depends on the text alone.
#[verifier::external_body]
pub(crate) fn pem_private_keys(pem: &[u8]) -> (r: Result<Vec<Vec<u8>>, std::io::Error>)
    ensures
        match r {
            Ok(keys) => private_keys_in(pem@) == Ok::<_, std::io::Error>(byte_strings(keys@)),
            Err(e) => private_keys_in(pem@) == Err::<Seq<Seq<u8>>, _>(e),
        },
{
    let mut reader = pem;
    rustls_pemfile::pkcs8_private_keys(&mut reader)
}

/// The certificates that a PEM file holds, in order, or why it cannot be read.
pub uninterp spec fn certificates_in(pem: Seq<u8>) -> Result<Seq<Seq<u8>>, std::io::Error>;

/// `rustls_pemfile::certs`: the certificates that the PEM text holds. What it returns depends on
/// the text alone.
#[verifier::external_body]
pub(crate) fn pem_certificates(pem: &[u8]) -> (r: Result<Vec<Vec<u8>>, std::io::Error>)
    ensures
        match r {
            Ok(certs) => certificates_in(pem@) == Ok::<_, std::io::Error>(byte_strings(certs@)),
            Err(e) => certificates_in(pem@) == Err::<Seq<Seq<u8>>, _>(e),
        },
{
    let mut reader = pem;
    rustls_pemfile::certs(&mut reader)
}

/// Whether the private half of a key pair is held in memory.
pub uninterp spec fn key_is_local(key: rcgen::KeyPair) -> bool;

/// Whether a certificate's key is held in memory, and it has neither extensions of its own nor
/// revocation lists.
pub uninterp spec fn is_simple(cert: rcgen::Certificate) -> bool;

/// The private key that a key pair was read from, in PKCS#8 format.
pub uninterp spec fn key_der(key: rcgen::KeyPair) -> Seq<u8>;

/// `KeyPair::from_der`: reads a private key, which the key pair keeps and which is then held in
/// memory. Nothing is said of when a key is refused: for some kinds of keys that hangs on the
/// system's random numbers, too.
#[verifier::external_body]
pub(crate) fn key_pair_from_der(der: &[u8]) -> (r: Result<rcgen::KeyPair, rcgen::RcgenError>)
    ensures
        r matches Ok(key) ==> key_der(key) == der@ && key_is_local(key),
{
    rcgen::KeyPair::from_der(der)
}

/// Whether parameters hold a key pair.
pub uninterp spec fn params_hold_key(params: rcgen::CertificateParams) -> bool;

/// Whether parameters hold a key pair that is held in memory, and neither extensions of their own
/// nor revocation lists.
pub uninterp spec fn params_are_simple(params: rcgen::CertificateParams) -> bool;

/// The parameters that a certificate and a key pair make up, or why they do not.
pub uninterp spec fn authority_params(der: Seq<u8>, key: rcgen::KeyPair) -> Result<
    rcgen::CertificateParams,
    rcgen::RcgenError,
>;

/// `CertificateParams::from_ca_cert_der`: reads a certificate and puts its key with it. What it
/// returns depends on the two alone.
#[verifier::external_body]
pub(crate) fn authority_params_from_der(der: &[u8], key: rcgen::KeyPair) -> (r: Result<
    rcgen::CertificateParams,
    rcgen::RcgenError,
>)
    ensures
        r == authority_params(der@, key),
        r matches Ok(params) ==> params_hold_key(params),
        r is Ok && key_is_local(key) ==> params_are_simple(r->Ok_0),
{
    rcgen::CertificateParams::from_ca_cert_der(der, key)
}

/// The certificate of the given parameters, or why there is none.
pub uninterp spec fn certificate_of(params: rcgen::CertificateParams) -> Result<
    rcgen::Certificate,
    rcgen::RcgenError,
>;

/// `Certificate::from_params`: the certificate of the given parameters. What it returns depends
/// on these alone, since no key is generated where there is one.
#[verifier::external_body]
pub(crate) fn certificate_from_params(params: rcgen::CertificateParams) -> (r: Result<
    rcgen::Certificate,
    rcgen::RcgenError,
>)
    requires
        params_hold_key(params),
    ensures
        r == certificate_of(params),
        r is Ok && params_are_simple(params) ==> is_simple(r->Ok_0),
{
    rcgen::Certificate::from_params(params)
}

/// What matters of an entry of a name when the name is written out.
#[derive(Debug)]
pub struct NameEntry {
    /// The object identifier of the entry, where it is none of the common ones.
    pub custom_type: Option<Vec<u64>>,
    /// The text of the entry, where it is a printable string.
    pub printable: Option<String>,
}

/// What a [`NameEntry`] holds.
pub struct NameEntryView {
    pub custom_type: Option<Seq<u64>>,
    pub printable: Option<Seq<char>>,
}

impl View for NameEntry {
    type V = NameEntryView;

    open spec fn view(&self) -> NameEntryView {
        NameEntryView {
            custom_type: match self.custom_type {
                Some(oid) => Some(oid@),
                None => None,
            },
            printable: match self.printable {
                Some(text) => Some(text@),
                None => None,
            },
        }
    }
}

/// What the given entries hold.
pub open spec fn entry_views(entries: Seq<NameEntry>) -> Seq<NameEntryView> {
    entries.map_values(|e: NameEntry| e@)
}

/// The entries of a name.
pub uninterp spec fn entries_of(name: rcgen::DistinguishedName) -> Seq<NameEntryView>;

/// `DistinguishedName::iter`: the entries of a name, in order.
#[verifier::external_body]
fn name_entries(name: &rcgen::DistinguishedName) -> (entries: Vec<NameEntry>)
    ensures
        entry_views(entries@) == entries_of(*name),
{
    let entry = |(ty, value): (&rcgen::DnType, &rcgen::DnValue)| NameEntry {
        custom_type: match ty {
            rcgen::DnType::CustomDnType(oid) => Some(oid.clone()),
            _ => None,
        },
        printable: match value {
            rcgen::DnValue::PrintableString(text) => Some(text.clone()),
            _ => None,
        },
    };
    name.iter().map(entry).collect()
}

/// The subject of a certificate.
pub uninterp spec fn subject_of(cert: rcgen::Certificate) -> rcgen::DistinguishedName;

/// `Certificate::get_params`, the field `distinguished_name`: the subject of a certificate.
#[verifier::external_body]
fn subject_name(cert: &rcgen::Certificate) -> (name: &rcgen::DistinguishedName)
    ensures
        *name == subject_of(*cert),
{
    &cert.get_params().distinguished_name
}

/// An alternative name of the subject of a certificate.
#[derive(Debug)]
pub enum AltName {
    Rfc822Name(String),
    DnsName(String),
    Uri(String),
    /// An address, as it is commonly written.
    Address(String),
    /// A name of none of these kinds.
    Other,
}

/// What an [`AltName`] holds.
pub enum AltNameView {
    Rfc822Name(Seq<char>),
    DnsName(Seq<char>),
    Uri(Seq<char>),
    Address(Seq<char>),
    Other,
}

impl View for AltName {
    type V = AltNameView;

    open spec fn view(&self) -> AltNameView {
        match *self {
            AltName::Rfc822Name(text) => AltNameView::Rfc822Name(text@),
            AltName::DnsName(text) => AltNameView::DnsName(text@),
            AltName::Uri(text) => AltNameView::Uri(text@),
            AltName::Address(text) => AltNameView::Address(text@),
            AltName::Other => AltNameView::Other,
        }
    }
}

/// What the given names hold.
pub open spec fn name_views(names: Seq<AltName>) -> Seq<AltNameView> {
    names.map_values(|name: AltName| name@)
}

/// The alternative names of a certificate.
pub uninterp spec fn alt_names_of(cert: rcgen::Certificate) -> Seq<AltNameView>;

/// `Certificate::get_params`, the field `subject_alt_names`: the alternative names, in order.
#[verifier::external_body]
fn alt_names(cert: &rcgen::Certificate) -> (names: Vec<AltName>)
    ensures
        name_views(names@) == alt_names_of(*cert),
{
    let name = |name: &rcgen::SanType| match name {
        rcgen::SanType::Rfc822Name(text) => AltName::Rfc822Name(text.clone()),
        rcgen::SanType::DnsName(text) => AltName::DnsName(text.clone()),
        rcgen::SanType::URI(text) => AltName::Uri(text.clone()),
        rcgen::SanType::IpAddress(address) => AltName::Address(address.to_string()),
        _ => AltName::Other,
    };
    cert.get_params().subject_alt_names.iter().map(name).collect()
}

/// What a certificate of an authority restricts its subjects to, as far as it matters when the
/// certificate is written out.
pub enum Constraint {
    Rfc822Name(String),
    DnsName(String),
    DirectoryName(rcgen::DistinguishedName),
    Address,
    /// A constraint of none of these kinds.
    Other,
}

/// What a [`Constraint`] holds.
pub enum ConstraintView {
    Rfc822Name(Seq<char>),
    DnsName(Seq<char>),
    DirectoryName(rcgen::DistinguishedName),
    Address,
    Other,
}

impl View for Constraint {
    type V = ConstraintView;

    open spec fn view(&self) -> ConstraintView {
        match *self {
            Constraint::Rfc822Name(text) => ConstraintView::Rfc822Name(text@),
            Constraint::DnsName(text) => ConstraintView::DnsName(text@),
            Constraint::DirectoryName(name) => ConstraintView::DirectoryName(name),
            Constraint::Address => ConstraintView::Address,
            Constraint::Other => ConstraintView::Other,
        }
    }
}

/// The constraints in a certificate.
pub uninterp spec fn constraints_of(cert: rcgen::Certificate) -> Seq<ConstraintView>;

/// `Certificate::get_params`, the field `name_constraints`: what is permitted, then what is
/// excluded.
#[verifier::external_body]
fn constraints(cert: &rcgen::Certificate) -> (constraints: Vec<Constraint>)
    ensures
        constraints@.map_values(|c: Constraint| c@) == constraints_of(*cert),
{
    let constraint = |subtree: &rcgen::GeneralSubtree| match subtree {
        rcgen::GeneralSubtree::Rfc822Name(text) => Constraint::Rfc822Name(text.clone()),
        rcgen::GeneralSubtree::DnsName(text) => Constraint::DnsName(text.clone()),
        rcgen::GeneralSubtree::DirectoryName(name) => Constraint::DirectoryName(name.clone()),
        rcgen::GeneralSubtree::IpAddress(_) => Constraint::Address,
        _ => Constraint::Other,
    };
    let all = cert.get_params().name_constraints.iter();
    all.flat_map(|c| c.permitted_subtrees.iter().chain(c.excluded_subtrees.iter()))
        .map(constraint)
        .collect()
}

/// A moment: the year in which it falls at the place that its time of day is given for, and the
/// seconds from the beginning of the year 1970 in UTC.
#[derive(Clone, Copy, Debug, PartialEq, Eq, Structural)]
pub struct Moment {
    pub year: i32,
    pub timestamp: i64,
}

/// When a certificate starts to be valid.
pub uninterp spec fn not_before_of(cert: rcgen::Certificate) -> Moment;

/// `Certificate::get_params`, the field `not_before`: when a certificate starts to be valid.
#[verifier::external_body]
fn not_before(cert: &rcgen::Certificate) -> (moment: Moment)
    ensures
        moment == not_before_of(*cert),
{
    let time = cert.get_params().not_before;
    Moment { year: time.year(), timestamp: time.unix_timestamp() }
}

/// When a certificate ceases to be valid.
pub uninterp spec fn not_after_of(cert: rcgen::Certificate) -> Moment;

/// `Certificate::get_params`, the field `not_after`: when a certificate ceases to be valid.
#[verifier::external_body]
fn not_after(cert: &rcgen::Certificate) -> (moment: Moment)
    ensures
        moment == not_after_of(*cert),
{
    let time = cert.get_params().not_after;
    Moment { year: time.year(), timestamp: time.unix_timestamp() }
}

/// Whether a printable string may hold the character `c`.
pub open spec fn printable_char(c: char) -> bool {
    ||| c == ' '
    ||| '\'' <= c <= ':' && c != '*'
    ||| c == '='
    ||| 'A' <= c <= 'Z'
    ||| 'a' <= c <= 'z'
}

/// Whether `text` can be written as a printable string.
pub open spec fn is_printable(text: Seq<char>) -> bool {
    forall|i: int| 0 <= i < text.len() ==> printable_char(#[trigger] text[i])
}

/// Whether `oid` can be written as an object identifier.
pub open spec fn is_valid_oid(oid: Seq<u64>) -> bool {
    &&& oid.len() >= 2
    &&& oid[0] < 3
    &&& oid[1] < 18446744073709551535
    &&& oid[0] == 2 || oid[1] < 40
}

/// Whether an entry of a name can be written out.
pub open spec fn entry_writable(entry: NameEntryView) -> bool {
    &&& entry.custom_type matches Some(oid) ==> is_valid_oid(oid)
    &&& entry.printable matches Some(text) ==> is_printable(text)
}

/// Whether a name can be written out.
pub open spec fn name_writable(name: rcgen::DistinguishedName) -> bool {
    forall|i: int|
        0 <= i < entries_of(name).len() ==> entry_writable(#[trigger] entries_of(name)[i])
}

/// Whether an alternative name can be written out.
pub open spec fn alt_name_writable(name: AltNameView) -> bool {
    match name {
        AltNameView::Rfc822Name(text) => is_ascii_chars(text),
        AltNameView::DnsName(text) => is_ascii_chars(text),
        AltNameView::Uri(text) => is_ascii_chars(text),
        AltNameView::Address(_) => true,
        AltNameView::Other => false,
    }
}

/// Whether a constraint can be written out.
pub open spec fn constraint_writable(constraint: ConstraintView) -> bool {
    match constraint {
        ConstraintView::Rfc822Name(text) => is_ascii_chars(text),
        ConstraintView::DnsName(text) => is_ascii_chars(text),
        ConstraintView::DirectoryName(name) => name_writable(name),
        ConstraintView::Address => true,
        ConstraintView::Other => false,
    }
}

/// The beginning of the year 0 in UTC.
pub const YEAR_0: i64 = -62167219200;

/// The beginning of the year 1950 in UTC.
pub const YEAR_1950: i64 = -631152000;

/// The beginning of the year 2050 in UTC.
pub const YEAR_2050: i64 = 2524608000;

/// The beginning of the year 10000 in UTC.
pub const YEAR_10000: i64 = 253402300800;

/// Whether a moment can be written out. The years from 1950 to 2049 are written with two digits,
/// the others with four; which of the two it is goes by the year at the place that the time is
/// given for, but what is written is the time in UTC, which has to be within the same bounds.
pub open spec fn moment_writable(moment: Moment) -> bool {
    if 1950 <= moment.year < 2050 {
        YEAR_1950 <= moment.timestamp < YEAR_2050
    } else {
        YEAR_0 <= moment.timestamp < YEAR_10000
    }
}

/// Whether a certificate can be written out: every text in it suits the kind of string that it
/// is written as, every object identifier is a valid one, and so are the two dates.
pub open spec fn writable(cert: rcgen::Certificate) -> bool {
    &&& moment_writable(not_before_of(cert))
    &&& moment_writable(not_after_of(cert))
    &&& name_writable(subject_of(cert))
    &&& forall|i: int|
        0 <= i < alt_names_of(cert).len() ==> alt_name_writable(#[trigger] alt_names_of(cert)[i])
    &&& forall|i: int|
        0 <= i < constraints_of(cert).len() ==> constraint_writable(
            #[trigger] constraints_of(cert)[i],
        )
}

/// The alternative name that a text stands for: an address, if it is one, and else the name of a
/// host.
pub uninterp spec fn alt_name_for(text: Seq<char>) -> AltNameView;

/// The certificate is made out to exactly the given names, in order.
pub open spec fn made_out_to(cert: rcgen::Certificate, names: Seq<Seq<char>>) -> bool {
    &&& alt_names_of(cert).len() == names.len()
    &&& forall|i: int|
        0 <= i < names.len() ==> #[trigger] alt_names_of(cert)[i] == alt_name_for(names[i])
}

/// A certificate with the subject, the dates and the constraints that generated ones have: one
/// common name in UTF-8, the beginnings of the years 1975 and 4096 in UTC, and none.
pub open spec fn is_plain(cert: rcgen::Certificate) -> bool {
    &&& entries_of(subject_of(cert)) == seq![NameEntryView { custom_type: None, printable: None }]
    &&& not_before_of(cert) == Moment { year: 1975, timestamp: 157766400 }
    &&& not_after_of(cert) == Moment { year: 4096, timestamp: 67090118400 }
    &&& constraints_of(cert).len() == 0
}

/// `rcgen::generate_simple_self_signed`: a certificate for the given names, with a new key that
/// is held in memory, and otherwise the subject, dates and constraints that all generated ones
/// have. What a name stands for depends on its text alone: where it is no address, it is there
/// as it is. Nothing is said of when the key cannot be generated.
#[verifier::external_body]
pub(crate) fn generate_self_signed(names: Vec<String>) -> (r: Result<
    rcgen::Certificate,
    rcgen::RcgenError,
>)
    ensures
        r matches Ok(cert) ==> {
            &&& is_simple(cert)
            &&& is_plain(cert)
            &&& alt_names_of(cert).len() == names@.len()
            &&& forall|i: int|
                0 <= i < names@.len() ==> {
                    &&& #[trigger] alt_names_of(cert)[i] == alt_name_for(names@[i]@)
                    &&& alt_names_of(cert)[i] is Address || alt_names_of(cert)[i]
                        == AltNameView::DnsName(names@[i]@)
                }
        },
{
    rcgen::generate_simple_self_signed(names)
}

/// Whether `der` is the certificate of `subject`, signed with the key of `issuer`.
pub uninterp spec fn issued_by(
    der: Seq<u8>,
    subject: rcgen::Certificate,
    issuer: rcgen::Certificate,
) -> bool;

/// `Certificate::serialize_der_with_signer`: writes a certificate out, signed by another one.
/// Nothing is said of when the signature cannot be made.
#[verifier::external_body]
pub(crate) fn sign_certificate(subject: &rcgen::Certificate, issuer: &rcgen::Certificate) -> (r:
    Result<Vec<u8>, rcgen::RcgenError>)
    requires
        is_simple(*subject),
        writable(*subject),
        is_simple(*issuer),
        name_writable(subject_of(*issuer)),
    ensures
        r matches Ok(der) ==> issued_by(der@, *subject, *issuer),
{
    subject.serialize_der_with_signer(issuer)
}

/// `Certificate::serialize_der`: writes a certificate out, signed by itself.
/// Nothing is said of when the signature cannot be made.
#[verifier::external_body]
pub(crate) fn write_certificate(cert: &rcgen::Certificate) -> (r: Result<
    Vec<u8>,
    rcgen::RcgenError,
>)
    requires
        is_simple(*cert),
        writable(*cert),
    ensures
        r matches Ok(der) ==> issued_by(der@, *cert, *cert),
{
    cert.serialize_der()
}

/// The text is a PEM file with one certificate in it, that of `cert`, signed by itself.
pub open spec fn holds_certificate(pem: Seq<char>, cert: rcgen::Certificate) -> bool {
    exists|der: Seq<u8>|
        certificates_in(encode_utf8(pem)) == Ok::<_, std::io::Error>(seq![der])
            && #[trigger] issued_by(der, cert, cert)
}

/// `Certificate::serialize_pem`: writes a certificate out as a PEM file, signed by itself.
/// Nothing is said of when the signature cannot be made.
#[verifier::external_body]
pub(crate) fn certificate_pem(cert: &rcgen::Certificate) -> (r: Result<String, rcgen::RcgenError>)
    requires
        is_simple(*cert),
        writable(*cert),
    ensures
        r matches Ok(pem) ==> holds_certificate(pem@, *cert),
{
    cert.serialize_pem()
}

/// The private key of a certificate, in PKCS#8 format.
pub uninterp spec fn private_key_of(cert: rcgen::Certificate) -> Seq<u8>;

/// `Certificate::serialize_private_key_der`: the private key of a certificate.
#[verifier::external_body]
pub(crate) fn private_key_der(cert: &rcgen::Certificate) -> (der: Vec<u8>)
    requires
        is_simple(*cert),
    ensures
        der@ == private_key_of(*cert),
{
    cert.serialize_private_key_der()
}

/// The text is a PEM file with one private key in it, that of `cert`.
pub open spec fn holds_private_key(pem: Seq<char>, cert: rcgen::Certificate) -> bool {
    private_keys_in(encode_utf8(pem)) == Ok::<_, std::io::Error>(seq![private_key_of(cert)])
}

/// `KeyPair::serialize_pem`: writes the private key of a certificate out as a PEM file with this
/// one key in it.
#[verifier::external_body]
pub(crate) fn private_key_pem(cert: &rcgen::Certificate) -> (pem: String)
    requires
        is_simple(*cert),
    ensures
        holds_private_key(pem@, *cert),
{
    cert.get_key_pair().serialize_pem()
}

/// Whether `text` can be written as a printable string.
fn check_printable(text: &str) -> (r: bool)
    ensures
        r == is_printable(text@),
{
    if !text.is_ascii() {
        proof {
            let i = choose|i: int|
                0 <= i < text@.len() && !('\0' <= #[trigger] text@[i] <= '\u{7f}');
            assert(!printable_char(text@[i]));
        }
        return false;
    }
    let n: usize = text.unicode_len();
    let mut i: usize = 0;
    while i < n
        invariant
            text.is_ascii(),
            i <= n == text@.len(),
            forall|j: int| 0 <= j < i ==> printable_char(#[trigger] text@[j]),
        decreases n - i,
    {
        let c: u8 = text.get_ascii(i);
        assert('\0' <= text@[i as int] <= '\u{7f}');
        // A space, `'` to `:` but for `*`, `=`, and the letters.
        if !(c == 32 || (39 <= c && c <= 58 && c != 42) || c == 61 || (65 <= c && c <= 90) || (97
            <= c && c <= 122)) {
            assert(!printable_char(text@[i as int]));
            return false;
        }
        i += 1;
    }
    true
}

/// Whether `oid` can be written as an object identifier.
fn check_oid(oid: &Vec<u64>) -> (r: bool)
    ensures
        r == is_valid_oid(oid@),
{
    oid.len() >= 2 && oid[0] < 3 && oid[1] < 18446744073709551535 && (oid[0] == 2 || oid[1] < 40)
}

/// Whether a name can be written out.
fn check_name(name: &rcgen::DistinguishedName) -> (r: bool)
    ensures
        r == name_writable(*name),
{
    let entries = name_entries(name);
    let ghost views = entries_of(*name);
    let mut i: usize = 0;
    while i < entries.len()
        invariant
            i <= entries@.len(),
            views == entries_of(*name),
            views == entry_views(entries@),
            forall|j: int| 0 <= j < i ==> entry_writable(#[trigger] views[j]),
        decreases entries.len() - i,
    {
        let entry = &entries[i];
        assert(views[i as int] == entry@);
        let type_ok = match &entry.custom_type {
            Some(oid) => check_oid(oid),
            None => true,
        };
        let text_ok = match &entry.printable {
            Some(text) => check_printable(text.as_str()),
            None => true,
        };
        if !type_ok || !text_ok {
            assert(!entry_writable(views[i as int]));
            return false;
        }
        i += 1;
    }
    true
}

/// Whether all of the alternative names of a certificate can be written out.
fn check_alt_names(cert: &rcgen::Certificate) -> (r: bool)
    ensures
        r == (forall|i: int|
            0 <= i < alt_names_of(*cert).len() ==> alt_name_writable(
                #[trigger] alt_names_of(*cert)[i],
            )),
{
    let names = alt_names(cert);
    let ghost views = alt_names_of(*cert);
    let mut i: usize = 0;
    while i < names.len()
        invariant
            i <= names@.len(),
            views == alt_names_of(*cert),
            views == name_views(names@),
            forall|j: int| 0 <= j < i ==> alt_name_writable(#[trigger] views[j]),
        decreases names.len() - i,
    {
        assert(views[i as int] == names@[i as int]@);
        let ok = match &names[i] {
            AltName::Rfc822Name(text) => text.is_ascii(),
            AltName::DnsName(text) => text.is_ascii(),
            AltName::Uri(text) => text.is_ascii(),
            AltName::Address(_) => true,
            AltName::Other => false,
        };
        if !ok {
            assert(!alt_name_writable(views[i as int]));
            return false;
        }
        i += 1;
    }
    true
}

/// Whether all of the constraints of a certificate can be written out.
fn check_constraints(cert: &rcgen::Certificate) -> (r: bool)
    ensures
        r == (forall|i: int|
            0 <= i < constraints_of(*cert).len() ==> constraint_writable(
                #[trigger] constraints_of(*cert)[i],
            )),
{
    let all = constraints(cert);
    let ghost views = constraints_of(*cert);
    let mut i: usize = 0;
    while i < all.len()
        invariant
            i <= all@.len(),
            views == constraints_of(*cert),
            views == all@.map_values(|c: Constraint| c@),
            forall|j: int| 0 <= j < i ==> constraint_writable(#[trigger] views[j]),
        decreases all.len() - i,
    {
        assert(views[i as int] == all@[i as int]@);
        let ok = match &all[i] {
            Constraint::Rfc822Name(text) => text.is_ascii(),
            Constraint::DnsName(text) => text.is_ascii(),
            Constraint::DirectoryName(name) => check_name(name),
            Constraint::Address => true,
            Constraint::Other => false,
        };
        if !ok {
            assert(!constraint_writable(views[i as int]));
            return false;
        }
        i += 1;
    }
    true
}

/// Whether a moment can be written out.
fn check_moment(moment: Moment) -> (r: bool)
    ensures
        r == moment_writable(moment),
{
    if 1950 <= moment.year && moment.year < 2050 {
        YEAR_1950 <= moment.timestamp && moment.timestamp < YEAR_2050
    } else {
        YEAR_0 <= moment.timestamp && moment.timestamp < YEAR_10000
    }
}

/// Whether a certificate can be written out.
pub fn is_writable(cert: &rcgen::Certificate) -> (r: bool)
    ensures
        r == writable(*cert),
{
    check_moment(not_before(cert)) && check_moment(not_after(cert)) && check_name(
        subject_name(cert),
    ) && check_alt_names(cert) && check_constraints(cert)
}

/// Whether all of the given names are in ASCII.
pub open spec fn all_ascii(names: Seq<Seq<char>>) -> bool {
    forall|i: int| 0 <= i < names.len() ==> is_ascii_chars(#[trigger] names[i])
}

/// Whether all of the given names are in ASCII.
pub fn are_ascii(names: &Vec<String>) -> (r: bool)
    ensures
        r == all_ascii(texts(names@)),
{
    let mut i: usize = 0;
    while i < names.len()
        invariant
            i <= names@.len(),
            forall|j: int| 0 <= j < i ==> is_ascii_chars(#[trigger] texts(names@)[j]),
        decreases names.len() - i,
    {
        assert(texts(names@)[i as int] == names@[i as int]@);
        if !names[i].is_ascii() {
            return false;
        }
        i += 1;
    }
    true
}

/// What is known of a certificate that was generated for the given names.
pub open spec fn generated_for(cert: rcgen::Certificate, names: Seq<Seq<char>>) -> bool {
    &&& is_simple(cert)
    &&& is_plain(cert)
    &&& made_out_to(cert, names)
    &&& forall|i: int|
        0 <= i < names.len() ==> (#[trigger] alt_name_for(names[i]) is Address || alt_name_for(
            names[i],
        ) == AltNameView::DnsName(names[i]))
}

/// A certificate that was generated for names in ASCII can be written out.
pub proof fn ascii_names_are_writable(cert: rcgen::Certificate, names: Seq<Seq<char>>)
    requires
        all_ascii(names),
        generated_for(cert, names),
    ensures
        writable(cert),
{
    assert forall|i: int| 0 <= i < alt_names_of(cert).len() implies alt_name_writable(
        #[trigger] alt_names_of(cert)[i],
    ) by {
        assert(is_ascii_chars(names[i]));
        assert(alt_names_of(cert)[i] == alt_name_for(names[i]));
    }
}

/// Generates a certificate for the given names.
pub(crate) fn generate(names: Vec<String>) -> (r: Result<rcgen::Certificate, rcgen::RcgenError>)
    ensures
        match r {
            Ok(cert) => generated_for(cert, texts(names@)),
            Err(e) => call_ensures(generate_self_signed, (names,), Err(e)),
        },
{
    let r = generate_self_signed(names);
    proof {
        let wanted = texts(names@);
        if r is Ok {
            let cert = r->Ok_0;
            assert forall|i: int| 0 <= i < wanted.len() implies #[trigger] alt_names_of(cert)[i]
                == alt_name_for(wanted[i]) by {
                assert(wanted[i] == names@[i]@);
            }
            assert forall|i: int| 0 <= i < wanted.len() implies (#[trigger] alt_name_for(
                wanted[i],
            ) is Address || alt_name_for(wanted[i]) == AltNameView::DnsName(wanted[i])) by {
                assert(alt_names_of(cert)[i] == alt_name_for(names@[i]@));
            }
        }
    }
    r
}

/// An entry of a name can be written out if its object identifier, where it is not a common one,
/// has two numbers or more of which the first two are in range, and its text, where it is a
/// printable string, is made of spaces, letters, digits and the signs `'()+,-./:=`.
pub proof fn entries_that_can_be_written(entry: NameEntryView)
    ensures
        entry_writable(entry) <==> {
            &&& entry.custom_type matches Some(oid) ==> oid.len() >= 2 && (if oid[0] == 2 {
                oid[1] < 0xffff_ffff_ffff_ffaf
            } else {
                oid[0] < 2 && oid[1] < 40
            })
            &&& entry.printable matches Some(text) ==> forall|i: int|
                0 <= i < text.len() ==> {
                    let c = #[trigger] text[i];
                    ||| 'A' <= c <= 'Z'
                    ||| 'a' <= c <= 'z'
                    ||| '0' <= c <= '9'
                    ||| c == ' ' || c == '\'' || c == '(' || c == ')' || c == '+' || c == ','
                    ||| c == '-' || c == '.' || c == '/' || c == ':' || c == '='
                }
        },
{
    if entry.printable is Some {
        let text = entry.printable->Some_0;
        assert forall|i: int| 0 <= i < text.len() implies (printable_char(#[trigger] text[i]) <==> {
            let c = text[i];
            ||| 'A' <= c <= 'Z'
            ||| 'a' <= c <= 'z'
            ||| '0' <= c <= '9'
            ||| c == ' ' || c == '\'' || c == '(' || c == ')' || c == '+' || c == ','
            ||| c == '-' || c == '.' || c == '/' || c == ':' || c == '='
        }) by {}
    }
}

/// A certificate can be written out exactly if its two dates fit the form that they are written in,
/// every entry of its subject can be written, every alternative name is an address or a text in
/// ASCII, and every constraint is an address, a text in ASCII or a name that can be written.
pub proof fn certificates_that_can_be_written(cert: rcgen::Certificate, r: bool)
    requires
        call_ensures(is_writable, (&cert,), r),
    ensures
        r <==> {
            let from = not_before_of(cert);
            let to = not_after_of(cert);
            &&& if 1950 <= from.year <= 2049 {
                -631152000 <= from.timestamp < 2524608000
            } else {
                -62167219200 <= from.timestamp < 253402300800
            }
            &&& if 1950 <= to.year <= 2049 {
                -631152000 <= to.timestamp < 2524608000
            } else {
                -62167219200 <= to.timestamp < 253402300800
            }
            &&& forall|i: int|
                0 <= i < entries_of(subject_of(cert)).len() ==> entry_writable(
                    #[trigger] entries_of(subject_of(cert))[i],
                )
            &&& forall|i: int|
                0 <= i < alt_names_of(cert).len() ==> match #[trigger] alt_names_of(cert)[i] {
                    AltNameView::Rfc822Name(text) => is_ascii_chars(text),
                    AltNameView::DnsName(text) => is_ascii_chars(text),
                    AltNameView::Uri(text) => is_ascii_chars(text),
                    AltNameView::Address(_) => true,
                    AltNameView::Other => false,
                }
            &&& forall|i: int|
                0 <= i < constraints_of(cert).len() ==> match #[trigger] constraints_of(cert)[i] {
                    ConstraintView::Rfc822Name(text) => is_ascii_chars(text),
                    ConstraintView::DnsName(text) => is_ascii_chars(text),
                    ConstraintView::DirectoryName(name) => forall|j: int|
                        0 <= j < entries_of(name).len() ==> entry_writable(
                            #[trigger] entries_of(name)[j],
                        ),
                    ConstraintView::Address => true,
                    ConstraintView::Other => false,
                }
        },
        r <==> writable(cert),
{
    if r {
        assert forall|i: int| 0 <= i < alt_names_of(cert).len() implies match #[trigger] alt_names_of(
            cert,
        )[i] {
            AltNameView::Rfc822Name(text) => is_ascii_chars(text),
            AltNameView::DnsName(text) => is_ascii_chars(text),
            AltNameView::Uri(text) => is_ascii_chars(text),
            AltNameView::Address(_) => true,
            AltNameView::Other => false,
        } by {
            assert(alt_name_writable(alt_names_of(cert)[i]));
        }
        assert forall|i: int|
            0 <= i < constraints_of(cert).len() implies match #[trigger] constraints_of(cert)[i] {
            ConstraintView::Rfc822Name(text) => is_ascii_chars(text),
            ConstraintView::DnsName(text) => is_ascii_chars(text),
            ConstraintView::DirectoryName(name) => forall|j: int|
                0 <= j < entries_of(name).len() ==> entry_writable(
                    #[trigger] entries_of(name)[j],
                ),
            ConstraintView::Address => true,
            ConstraintView::Other => false,
        } by {
            assert(constraint_writable(constraints_of(cert)[i]));
        }
    }
}

/// Names are in ASCII if each of them is.
pub proof fn names_are_ascii_one_by_one(names: Vec<String>, r: bool)
    requires
        call_ensures(are_ascii, (&names,), r),
    ensures
        r <==> forall|i: int| 0 <= i < names@.len() ==> is_ascii_chars((#[trigger] names@[i])@),
{
    let all = texts(names@);
    if r {
        assert forall|i: int| 0 <= i < names@.len() implies is_ascii_chars(
            (#[trigger] names@[i])@,
        ) by {
            assert(is_ascii_chars(all[i]));
        }
    } else {
        let i = choose|i: int| 0 <= i < all.len() && !is_ascii_chars(#[trigger] all[i]);
        assert(!is_ascii_chars(names@[i]@));
    }
}

} // verus!
