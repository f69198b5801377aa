//! TLS for either end: how a server comes by its certificates, and whom a client trusts.
//!
//! [`TlsSetup`] decides what happens next; its caller reads and writes the files and reports how
//! it went.
use crate::certs::{
    all_ascii, are_ascii, ascii_names_are_writable, authority_params, authority_params_from_der,
    byte_strings, certificate_from_params, certificate_of, certificate_pem, certificates_in,
    generate, generate_self_signed, holds_certificate, holds_private_key, is_simple,
    is_writable, issued_by, key_der, key_is_local, key_pair_from_der, made_out_to,
    pem_certificates, pem_private_keys, private_key_der, private_key_of, private_key_pem,
    private_keys_in, sign_certificate, texts, writable, write_certificate,
};
use crate::outside::{io_error_new, io_error_with_text, IoErrorKind};
use vstd::prelude::*;

verus! {

#[verifier::external_type_specification]
#[verifier::external_body]
pub struct ExRustlsError(tokio_rustls::rustls::Error);

#[verifier::external_type_specification]
#[verifier::external_body]
pub struct ExTlsAcceptor(tokio_rustls::TlsAcceptor);

#[verifier::external_type_specification]
#[verifier::external_body]
pub struct ExTlsConnector(tokio_rustls::TlsConnector);

#[verifier::external_type_specification]
#[verifier::external_body]
pub struct ExRootCertStore(tokio_rustls::rustls::RootCertStore);

#[verifier::external_type_specification]
#[verifier::external_body]
pub struct ExOwnedTrustAnchor(tokio_rustls::rustls::OwnedTrustAnchor);

#[verifier::external_type_specification]
#[verifier::external_body]
pub struct ExServerName(tokio_rustls::rustls::ServerName);

#[verifier::external_type_specification]
#[verifier::external_body]
pub struct ExInvalidDnsNameError(tokio_rustls::rustls::client::InvalidDnsNameError);

/// Where a server finds its certificates, and whom they are made out to.
#[derive(Debug)]
pub struct TlsServerConfig {
    /// The path to the root certificate.
    pub root_cert_chain_path: String,
    /// The path to the root private key.
    pub parent_key_path: String,
    /// Subject Alternative Names that will be used to create the server certificate.
    pub subject_alt_names: Vec<String>,
    /// Whether a root certificate is made up where there is none.
    pub create_if_missing: bool,
}

/// Why TLS could not be set up.
#[derive(Debug)]
pub enum TlsInitError {
    IOError(std::io::Error),
    RCGenError(rcgen::RcgenError),
    RustlsError(tokio_rustls::rustls::Error),
}

impl TlsInitError {
    /// The error in words, where `cause` are the words of the error inside: those same words.
    pub fn message(&self, cause: &str) -> (text: String)
        ensures
            text@ == cause@,
    {
        cause.to_owned()
    }
}

impl vstd::std_specs::convert::FromSpecImpl<std::io::Error> for TlsInitError {
    open spec fn obeys_from_spec() -> bool {
        true
    }

    open spec fn from_spec(value: std::io::Error) -> Self {
        TlsInitError::IOError(value)
    }
}

impl From<std::io::Error> for TlsInitError {
    fn from(value: std::io::Error) -> (error: Self) {
        TlsInitError::IOError(value)
    }
}

impl vstd::std_specs::convert::FromSpecImpl<rcgen::RcgenError> for TlsInitError {
    open spec fn obeys_from_spec() -> bool {
        true
    }

    open spec fn from_spec(value: rcgen::RcgenError) -> Self {
        TlsInitError::RCGenError(value)
    }
}

impl From<rcgen::RcgenError> for TlsInitError {
    fn from(value: rcgen::RcgenError) -> (error: Self) {
        TlsInitError::RCGenError(value)
    }
}

impl vstd::std_specs::convert::FromSpecImpl<tokio_rustls::rustls::Error> for TlsInitError {
    open spec fn obeys_from_spec() -> bool {
        true
    }

    open spec fn from_spec(value: tokio_rustls::rustls::Error) -> Self {
        TlsInitError::RustlsError(value)
    }
}

impl From<tokio_rustls::rustls::Error> for TlsInitError {
    fn from(value: tokio_rustls::rustls::Error) -> (error: Self) {
        TlsInitError::RustlsError(value)
    }
}

/// The error for a file that does not hold what it should.
pub open spec fn invalid_data(text: Seq<char>) -> TlsInitError {
    TlsInitError::IOError(io_error_with_text(IoErrorKind::InvalidData, text))
}

/// What is wrong with a key file that holds no key, or several.
pub const ONE_KEY: &'static str = "There must be exactly one private key in the parent key file";

/// What is wrong with a certificate file that holds no certificate.
pub const SOME_CERT: &'static str =
    "There must be at least one certificate in the root cert chain file";

/// What is wrong with a client's certificate file that holds no certificate, or several.
pub const ONE_ROOT: &'static str = "There must be exactly one certificate in the root cert file";

/// What is wrong where there is no certificate file, and none may be created.
pub const NO_CERT: &'static str = "Certificate file does not exist";

/// This error came back when a key pair was to be read from the given private key.
pub closed spec fn key_refused(der: Seq<u8>, error: rcgen::RcgenError) -> bool {
    exists|bytes: &[u8]|
        bytes@ == der && #[trigger] call_ensures(key_pair_from_der, (bytes,), Err(error))
}

/// What comes of reading the parent key file, which holds exactly one private key.
pub open spec fn parent_key_follows(
    pem: Seq<u8>,
    r: Result<rcgen::KeyPair, TlsInitError>,
) -> bool {
    match private_keys_in(pem) {
        Err(e) => r == Err::<rcgen::KeyPair, _>(TlsInitError::IOError(e)),
        Ok(keys) => if keys.len() == 1 {
            match r {
                Ok(key) => key_der(key) == keys[0] && key_is_local(key),
                Err(e) => e is RCGenError && key_refused(keys[0], e->RCGenError_0),
            }
        } else {
            r == Err::<rcgen::KeyPair, _>(invalid_data(ONE_KEY@))
        },
    }
}

/// The only one of the given byte strings, if there is exactly one.
fn only(items: Vec<Vec<u8>>) -> (r: Option<Vec<u8>>)
    ensures
        items@.len() != 1 ==> r is None,
        items@.len() == 1 ==> r == Some(items@[0]),
{
    let mut items = items;
    if items.len() == 1 {
        items.pop()
    } else {
        None
    }
}

/// Reads the parent key file.
pub fn parent_key(pem: &[u8]) -> (r: Result<rcgen::KeyPair, TlsInitError>)
    ensures
        parent_key_follows(pem@, r),
{
    let keys = match pem_private_keys(pem) {
        Ok(keys) => keys,
        Err(e) => return Err(TlsInitError::from(e)),
    };
    match only(keys) {
        Some(key) => match key_pair_from_der(key.as_slice()) {
            Ok(key) => Ok(key),
            Err(e) => Err(TlsInitError::from(e)),
        },
        None => Err(TlsInitError::from(io_error_new(IoErrorKind::InvalidData, ONE_KEY))),
    }
}

/// The parent that a certificate and a key pair make up.
pub open spec fn parent_of(der: Seq<u8>, key: rcgen::KeyPair) -> Result<
    rcgen::Certificate,
    TlsInitError,
> {
    match authority_params(der, key) {
        Ok(params) => match certificate_of(params) {
            Ok(cert) => Ok(cert),
            Err(e) => Err(TlsInitError::RCGenError(e)),
        },
        Err(e) => Err(TlsInitError::RCGenError(e)),
    }
}

/// The parent certificate: the last one in the root certificate file, which holds at least one.
pub open spec fn parent_result(pem: Seq<u8>, key: rcgen::KeyPair) -> Result<
    rcgen::Certificate,
    TlsInitError,
> {
    match certificates_in(pem) {
        Err(e) => Err(TlsInitError::IOError(e)),
        Ok(certs) => if certs.len() == 0 {
            Err(invalid_data(SOME_CERT@))
        } else {
            parent_of(certs.last(), key)
        },
    }
}

/// Reads the root certificate file.
pub fn parent_certificate(pem: &[u8], key: rcgen::KeyPair) -> (r: Result<
    rcgen::Certificate,
    TlsInitError,
>)
    ensures
        r == parent_result(pem@, key),
        r is Ok && key_is_local(key) ==> is_simple(r->Ok_0),
{
    let mut certs = match pem_certificates(pem) {
        Ok(certs) => certs,
        Err(e) => return Err(TlsInitError::from(e)),
    };
    match certs.pop() {
        Some(der) => match authority_params_from_der(der.as_slice(), key) {
            Ok(params) => match certificate_from_params(params) {
                Ok(cert) => Ok(cert),
                Err(e) => Err(TlsInitError::from(e)),
            },
            Err(e) => Err(TlsInitError::from(e)),
        },
        None => Err(TlsInitError::from(io_error_new(IoErrorKind::InvalidData, SOME_CERT))),
    }
}

/// The certificates that an acceptor presents, its own one first.
pub uninterp spec fn presented_chain(acceptor: tokio_rustls::TlsAcceptor) -> Seq<Seq<u8>>;

/// The private key that an acceptor signs with.
pub uninterp spec fn presented_key(acceptor: tokio_rustls::TlsAcceptor) -> Seq<u8>;

/// Whether an acceptor asks its clients for a certificate.
pub uninterp spec fn asks_for_certificate(acceptor: tokio_rustls::TlsAcceptor) -> bool;

/// The acceptor presents exactly the given certificates, signs with the given key, and asks for
/// no certificate itself.
pub open spec fn presents(
    acceptor: tokio_rustls::TlsAcceptor,
    chain: Seq<Seq<u8>>,
    key: Seq<u8>,
) -> bool {
    &&& presented_chain(acceptor) == chain
    &&& presented_key(acceptor) == key
    &&& !asks_for_certificate(acceptor)
}

/// `ServerConfig::builder` with safe defaults, no client authentication and
/// `ConfigBuilder::with_single_cert`, then `TlsAcceptor::from`: an acceptor for the given
/// certificates and key, which asks its clients for no certificate. Nothing is said of when the
/// key is refused: for some kinds of keys that hangs on the system's random numbers, too.
#[verifier::external_body]
fn acceptor_with(chain: Vec<Vec<u8>>, key: Vec<u8>) -> (r: Result<
    tokio_rustls::TlsAcceptor,
    tokio_rustls::rustls::Error,
>)
    ensures
        r matches Ok(acceptor) ==> presented_chain(acceptor) == byte_strings(chain@)
            && presented_key(acceptor) == key@ && !asks_for_certificate(acceptor),
{
    let chain = chain.into_iter().map(tokio_rustls::rustls::Certificate).collect();
    tokio_rustls::rustls::ServerConfig::builder()
        .with_safe_defaults()
        .with_no_client_auth()
        .with_single_cert(chain, tokio_rustls::rustls::PrivateKey(key))
        .map(|config| tokio_rustls::TlsAcceptor::from(std::sync::Arc::new(config)))
}

/// This error came back when an acceptor was to be made for the given certificates and key.
pub closed spec fn acceptor_refused(
    chain: Seq<Seq<u8>>,
    key: Seq<u8>,
    error: tokio_rustls::rustls::Error,
) -> bool {
    exists|c: Vec<Vec<u8>>, k: Vec<u8>|
        byte_strings(c@) == chain && k@ == key && #[trigger] call_ensures(
            acceptor_with,
            (c, k),
            Err(error),
        )
}

/// What is set up with a server certificate, the certificate of its parent, and a key.
pub open spec fn acceptor_outcome(
    r: Result<tokio_rustls::TlsAcceptor, TlsInitError>,
    server: Seq<u8>,
    parent: Seq<u8>,
    key: Seq<u8>,
) -> bool {
    match r {
        Ok(acceptor) => presents(acceptor, seq![server, parent], key),
        Err(e) => e is RustlsError && acceptor_refused(
            seq![server, parent],
            key,
            e->RustlsError_0,
        ),
    }
}

/// The outcome of the setup where making the acceptor came to this.
pub fn acceptor_result(
    made: Result<tokio_rustls::TlsAcceptor, tokio_rustls::rustls::Error>,
) -> (r: Result<tokio_rustls::TlsAcceptor, TlsInitError>)
    ensures
        r == (match made {
            Ok(acceptor) => Ok::<_, TlsInitError>(acceptor),
            Err(e) => Err(TlsInitError::RustlsError(e)),
        }),
{
    match made {
        Ok(acceptor) => Ok(acceptor),
        Err(e) => Err(TlsInitError::from(e)),
    }
}

/// An acceptor that presents the server certificate, and behind it that of its parent.
pub fn new_acceptor(server: Vec<u8>, parent: Vec<u8>, key: Vec<u8>) -> (r: Result<
    tokio_rustls::TlsAcceptor,
    TlsInitError,
>)
    ensures
        acceptor_outcome(r, server@, parent@, key@),
{
    let ghost own = server@;
    let ghost above = parent@;
    let mut chain: Vec<Vec<u8>> = Vec::new();
    chain.push(server);
    chain.push(parent);
    assert(byte_strings(chain@) =~= seq![own, above]);
    acceptor_result(acceptor_with(chain, key))
}

/// What the caller is to do next.
pub enum TlsAction {
    /// Find out whether there is a file at this path; answer with [`TlsEvent::Exists`].
    CheckExists(String),
    /// Read the file at this path; answer with [`TlsEvent::Read`].
    Read(String),
    /// Write this text to the file at this path; answer with [`TlsEvent::Written`].
    Write(String, String),
    /// TLS is set up.
    Finish(tokio_rustls::TlsAcceptor),
    /// TLS could not be set up.
    Fail(TlsInitError),
    /// The parent certificate, or one that is made out to the configured names, has a text that
    /// no certificate can hold.
    Unwritable,
}

/// How the last action went.
pub enum TlsEvent {
    Exists(Result<bool, std::io::Error>),
    Read(Result<Vec<u8>, std::io::Error>),
    Written(Result<(), std::io::Error>),
}

/// Where the setup stands.
pub enum TlsPhase {
    Checking,
    ReadingKey,
    /// The key of the parent has been read.
    ReadingCerts(rcgen::KeyPair),
    /// A parent was made up; its certificate is being written, and the key, as text, is next.
    WritingCerts(rcgen::Certificate, String),
    /// A parent was made up; its key is being written.
    WritingKey(rcgen::Certificate),
    Over,
}

/// The setup of TLS for a server.
pub struct TlsSetup {
    pub config: TlsServerConfig,
    pub phase: TlsPhase,
}

impl TlsSetup {
    /// Keys and certificates that the setup holds can be used further on: a key that was read is
    /// in memory, and a parent that was made up can be written out.
    pub open spec fn wf(self) -> bool {
        match self.phase {
            TlsPhase::ReadingCerts(key) => key_is_local(key),
            TlsPhase::WritingCerts(cert, _) => is_simple(cert) && writable(cert),
            TlsPhase::WritingKey(cert) => is_simple(cert) && writable(cert),
            _ => true,
        }
    }

    /// The event answers the action that the setup waits for.
    pub open spec fn awaits(self, event: TlsEvent) -> bool {
        match self.phase {
            TlsPhase::Checking => event is Exists,
            TlsPhase::ReadingKey => event is Read,
            TlsPhase::ReadingCerts(_) => event is Read,
            TlsPhase::WritingCerts(_, _) => event is Written,
            TlsPhase::WritingKey(_) => event is Written,
            TlsPhase::Over => false,
        }
    }

    /// The setup ends with an error.
    pub open spec fn fails(self, next: TlsSetup, action: TlsAction, error: TlsInitError) -> bool {
        next.phase is Over && action == TlsAction::Fail(error)
    }

    /// The key of the parent has been read, and its certificate is to be read next; or it could
    /// not be.
    pub open spec fn takes_key(
        self,
        key: Result<rcgen::KeyPair, TlsInitError>,
        next: TlsSetup,
        action: TlsAction,
    ) -> bool {
        match key {
            Ok(key) => {
                &&& next.phase == TlsPhase::ReadingCerts(key)
                &&& action == TlsAction::Read(self.config.root_cert_chain_path)
            },
            Err(e) => self.fails(next, action, e),
        }
    }

    /// A parent was made up, and its certificate is to be written. Where that does not come to
    /// pass, the reason is that of `rcgen`.
    pub open spec fn creates_parent(self, next: TlsSetup, action: TlsAction) -> bool {
        match next.phase {
            TlsPhase::WritingCerts(cert, key_pem) => {
                &&& made_out_to(cert, seq![])
                &&& holds_private_key(key_pem@, cert)
                &&& action matches TlsAction::Write(path, pem)
                &&& path == self.config.root_cert_chain_path
                &&& holds_certificate(pem@, cert)
            },
            _ => {
                &&& next.phase is Over
                &&& action matches TlsAction::Fail(TlsInitError::RCGenError(e))
                &&& creation_failed(e)
            },
        }
    }

    /// With the given parent a server certificate is made out to the configured names and signed,
    /// and TLS is set up with the two. Where that does not come to pass, the reason is that of
    /// `rcgen`, or that for which the acceptor is refused.
    pub open spec fn uses_parent(
        self,
        parent: rcgen::Certificate,
        next: TlsSetup,
        action: TlsAction,
    ) -> bool {
        let names = texts(self.config.subject_alt_names@);
        &&& next.phase is Over
        &&& {
            ||| action is Fail && action->Fail_0 is RCGenError && issuing_failed(
                parent,
                names,
                action->Fail_0->RCGenError_0,
            )
            ||| if writable(parent) && all_ascii(names) {
                exists|issued: Issued| #[trigger]
                    issued_for(issued, parent, names) && accepts_with(issued, action)
            } else {
                action is Unwritable
            }
        }
    }

    /// What follows on an awaited event.
    pub open spec fn follows(self, event: TlsEvent, next: TlsSetup, action: TlsAction) -> bool {
        &&& next.config == self.config
        &&& match (self.phase, event) {
            (_, TlsEvent::Exists(Err(e))) => self.fails(next, action, TlsInitError::IOError(e)),
            (_, TlsEvent::Read(Err(e))) => self.fails(next, action, TlsInitError::IOError(e)),
            (_, TlsEvent::Written(Err(e))) => self.fails(next, action, TlsInitError::IOError(e)),
            (TlsPhase::Checking, TlsEvent::Exists(Ok(exists))) => if exists {
                &&& next.phase is ReadingKey
                &&& action == TlsAction::Read(self.config.parent_key_path)
            } else if self.config.create_if_missing {
                self.creates_parent(next, action)
            } else {
                self.fails(
                    next,
                    action,
                    TlsInitError::IOError(io_error_with_text(IoErrorKind::NotFound, NO_CERT@)),
                )
            },
            (TlsPhase::ReadingKey, TlsEvent::Read(Ok(pem))) => {
                exists|key: Result<rcgen::KeyPair, TlsInitError>| #[trigger]
                    parent_key_follows(pem@, key) && self.takes_key(key, next, action)
            },
            (TlsPhase::ReadingCerts(key), TlsEvent::Read(Ok(pem))) => match parent_result(
                pem@,
                key,
            ) {
                Ok(parent) => self.uses_parent(parent, next, action),
                Err(e) => self.fails(next, action, e),
            },
            (TlsPhase::WritingCerts(cert, key_pem), TlsEvent::Written(Ok(_))) => {
                &&& next.phase == TlsPhase::WritingKey(cert)
                &&& action == TlsAction::Write(self.config.parent_key_path, key_pem)
            },
            (TlsPhase::WritingKey(cert), TlsEvent::Written(Ok(_))) => self.uses_parent(
                cert,
                next,
                action,
            ),
            _ => false,
        }
    }
}

/// What is decided at the end of the setup.
pub open spec fn final_action(r: Result<tokio_rustls::TlsAcceptor, TlsInitError>) -> TlsAction {
    match r {
        Ok(acceptor) => TlsAction::Finish(acceptor),
        Err(e) => TlsAction::Fail(e),
    }
}

/// The setup ends as an acceptor with what was issued comes out.
pub open spec fn accepts_with(issued: Issued, action: TlsAction) -> bool {
    exists|r: Result<tokio_rustls::TlsAcceptor, TlsInitError>| #[trigger]
        acceptor_outcome(r, issued.server@, issued.parent@, issued.key@) && action == final_action(
            r,
        )
}

/// What a server needs for TLS: its certificate, that of its parent, and its private key.
pub struct Issued {
    pub server: Vec<u8>,
    pub parent: Vec<u8>,
    pub key: Vec<u8>,
}

/// The server certificate is made out to `names` and signed by `parent`, and the key is its own.
pub open spec fn is_issued(
    issued: Issued,
    server: rcgen::Certificate,
    parent: rcgen::Certificate,
    names: Seq<Seq<char>>,
) -> bool {
    &&& made_out_to(server, names)
    &&& issued_by(issued.server@, server, parent)
    &&& issued_by(issued.parent@, parent, parent)
    &&& issued.key@ == private_key_of(server)
}

/// It was issued by `parent` for a server of the given names.
pub open spec fn issued_for(
    issued: Issued,
    parent: rcgen::Certificate,
    names: Seq<Seq<char>>,
) -> bool {
    exists|server: rcgen::Certificate| #[trigger] is_issued(issued, server, parent, names)
}

/// This error came back when a certificate was to be generated for the given names.
pub closed spec fn generation_failed(names: Seq<Seq<char>>, error: rcgen::RcgenError) -> bool {
    exists|v: Vec<String>|
        texts(v@) == names && #[trigger] call_ensures(generate_self_signed, (v,), Err(error))
}

/// This error came back when `parent` was to sign the certificate of `server`, or its own.
pub closed spec fn signing_failed(
    server: rcgen::Certificate,
    parent: rcgen::Certificate,
    error: rcgen::RcgenError,
) -> bool {
    ||| call_ensures(sign_certificate, (&server, &parent), Err(error))
    ||| call_ensures(write_certificate, (&parent,), Err(error))
}

/// This error came back when the certificate of `cert` was to be written out as a PEM file.
pub closed spec fn writing_failed(cert: rcgen::Certificate, error: rcgen::RcgenError) -> bool {
    call_ensures(certificate_pem, (&cert,), Err(error))
}

/// This error came back when a server certificate was to be generated for the given names and
/// signed by `parent`.
pub open spec fn issuing_failed(
    parent: rcgen::Certificate,
    names: Seq<Seq<char>>,
    error: rcgen::RcgenError,
) -> bool {
    ||| generation_failed(names, error)
    ||| exists|server: rcgen::Certificate|
        made_out_to(server, names) && #[trigger] signing_failed(server, parent, error)
}

/// This error came back when a parent was to be made up and written out.
pub open spec fn creation_failed(error: rcgen::RcgenError) -> bool {
    ||| generation_failed(seq![], error)
    ||| exists|parent: rcgen::Certificate|
        made_out_to(parent, seq![]) && #[trigger] writing_failed(parent, error)
}

/// Has `parent` sign the certificate of a server. It fails only where one of the two signatures
/// does.
fn issue(server: &rcgen::Certificate, parent: &rcgen::Certificate) -> (r: Result<
    Issued,
    rcgen::RcgenError,
>)
    requires
        is_simple(*server),
        writable(*server),
        is_simple(*parent),
        writable(*parent),
    ensures
        match r {
            Ok(issued) => forall|names: Seq<Seq<char>>|
                made_out_to(*server, names) ==> #[trigger] is_issued(
                    issued,
                    *server,
                    *parent,
                    names,
                ),
            Err(e) => signing_failed(*server, *parent, e),
        },
{
    let server_der = match sign_certificate(server, parent) {
        Ok(der) => der,
        Err(e) => return Err(e),
    };
    let parent_der = match write_certificate(parent) {
        Ok(der) => der,
        Err(e) => return Err(e),
    };
    Ok(Issued { server: server_der, parent: parent_der, key: private_key_der(server) })
}

/// A parent that was made up, with its certificate and its private key as PEM files.
pub struct Created {
    pub parent: rcgen::Certificate,
    pub cert_pem: String,
    pub key_pem: String,
}

impl Created {
    /// The parent can be used further on.
    pub open spec fn wf(self) -> bool {
        is_simple(self.parent) && writable(self.parent)
    }
}

/// Makes a parent up. It fails only where the parent cannot be generated, or not be written out.
fn create() -> (r: Result<Created, rcgen::RcgenError>)
    ensures
        match r {
            Ok(created) => {
                &&& created.wf()
                &&& made_out_to(created.parent, seq![])
                &&& holds_certificate(created.cert_pem@, created.parent)
                &&& holds_private_key(created.key_pem@, created.parent)
            },
            Err(e) => creation_failed(e),
        },
{
    let names: Vec<String> = Vec::new();
    assert(texts(names@) =~= seq![]);
    let parent = match generate(names) {
        Ok(parent) => parent,
        Err(e) => return Err(e),
    };
    proof {
        ascii_names_are_writable(parent, seq![]);
    }
    let cert_pem = match certificate_pem(&parent) {
        Ok(pem) => pem,
        Err(e) => {
            assert(writing_failed(parent, e));
            return Err(e);
        },
    };
    let key_pem = private_key_pem(&parent);
    Ok(Created { parent, cert_pem, key_pem })
}

/// The names again.
fn copy_names(names: &Vec<String>) -> (r: Vec<String>)
    ensures
        r@ == names@,
{
    let mut r: Vec<String> = Vec::new();
    let mut i: usize = 0;
    while i < names.len()
        invariant
            i <= names@.len(),
            r@ == names@.take(i as int),
        decreases names.len() - i,
    {
        r.push(names[i].clone());
        i += 1;
        assert(r@ =~= names@.take(i as int));
    }
    assert(r@ =~= names@);
    r
}

impl TlsSetup {
    /// The setup for the given configuration. The first action is to find out whether there is
    /// a root certificate.
    pub fn start(config: TlsServerConfig) -> (r: (TlsSetup, TlsAction))
        ensures
            r.0.wf(),
            r.0 == (TlsSetup { config, phase: TlsPhase::Checking }),
            r.1 == TlsAction::CheckExists(config.root_cert_chain_path),
    {
        let path = config.root_cert_chain_path.clone();
        (TlsSetup { config, phase: TlsPhase::Checking }, TlsAction::CheckExists(path))
    }

    fn fail(self, error: TlsInitError) -> (r: (TlsSetup, TlsAction))
        ensures
            r.0.wf(),
            r.0.config == self.config,
            self.fails(r.0, r.1, error),
    {
        (TlsSetup { phase: TlsPhase::Over, ..self }, TlsAction::Fail(error))
    }

    /// Goes on with the key of the parent: its certificate is read next.
    pub fn with_parent_key(self, key: Result<rcgen::KeyPair, TlsInitError>) -> (r: (
        TlsSetup,
        TlsAction,
    ))
        requires
            key matches Ok(key) ==> key_is_local(key),
        ensures
            r.0.wf(),
            r.0.config == self.config,
            self.takes_key(key, r.0, r.1),
    {
        match key {
            Ok(key) => {
                let path = self.config.root_cert_chain_path.clone();
                (TlsSetup { phase: TlsPhase::ReadingCerts(key), ..self }, TlsAction::Read(path))
            },
            Err(e) => self.fail(e),
        }
    }

    /// Goes on with a parent that was made up: its certificate is written first.
    pub fn with_created(self, created: Result<Created, rcgen::RcgenError>) -> (r: (
        TlsSetup,
        TlsAction,
    ))
        requires
            created matches Ok(created) ==> created.wf(),
        ensures
            r.0.wf(),
            r.0.config == self.config,
            match created {
                Ok(created) => {
                    &&& r.0.phase == TlsPhase::WritingCerts(created.parent, created.key_pem)
                    &&& r.1 == TlsAction::Write(self.config.root_cert_chain_path, created.cert_pem)
                },
                Err(e) => self.fails(r.0, r.1, TlsInitError::RCGenError(e)),
            },
    {
        match created {
            Ok(Created { parent, cert_pem, key_pem }) => {
                let path = self.config.root_cert_chain_path.clone();
                (
                    TlsSetup { phase: TlsPhase::WritingCerts(parent, key_pem), ..self },
                    TlsAction::Write(path, cert_pem),
                )
            },
            Err(e) => self.fail(TlsInitError::from(e)),
        }
    }

    /// Ends the setup with what was issued.
    pub fn with_issued(self, issued: Result<Issued, rcgen::RcgenError>) -> (r: (
        TlsSetup,
        TlsAction,
    ))
        ensures
            r.0.wf(),
            r.0.config == self.config,
            match issued {
                Ok(issued) => r.0.phase is Over && accepts_with(issued, r.1),
                Err(e) => self.fails(r.0, r.1, TlsInitError::RCGenError(e)),
            },
    {
        match issued {
            Ok(Issued { server, parent, key }) => {
                let r = new_acceptor(server, parent, key);
                assert(acceptor_outcome(r, server@, parent@, key@));
                let setup = TlsSetup { phase: TlsPhase::Over, ..self };
                match r {
                    Ok(acceptor) => (setup, TlsAction::Finish(acceptor)),
                    Err(e) => (setup, TlsAction::Fail(e)),
                }
            },
            Err(e) => self.fail(TlsInitError::from(e)),
        }
    }

    fn use_parent(self, parent: rcgen::Certificate) -> (r: (TlsSetup, TlsAction))
        requires
            is_simple(parent),
        ensures
            r.0.wf(),
            r.0.config == self.config,
            self.uses_parent(parent, r.0, r.1),
    {
        let names = copy_names(&self.config.subject_alt_names);
        let ghost wanted = texts(names@);
        let ascii = are_ascii(&names);
        let server = match generate(names) {
            Ok(server) => server,
            Err(e) => return self.fail(TlsInitError::from(e)),
        };
        if !ascii || !is_writable(&parent) {
            return (TlsSetup { phase: TlsPhase::Over, ..self }, TlsAction::Unwritable);
        }
        proof {
            ascii_names_are_writable(server, wanted);
        }
        let issued = issue(&server, &parent);
        proof {
            if issued is Ok {
                assert(is_issued(issued->Ok_0, server, parent, wanted));
                assert(issued_for(issued->Ok_0, parent, texts(self.config.subject_alt_names@)));
            }
        }
        self.with_issued(issued)
    }

    /// Takes in how the last action went, and decides on the next one.
    pub fn step(self, event: TlsEvent) -> (r: (TlsSetup, TlsAction))
        requires
            self.wf(),
            self.awaits(event),
        ensures
            r.0.wf(),
            self.follows(event, r.0, r.1),
    {
        match event {
            TlsEvent::Exists(Err(e)) => self.fail(TlsInitError::from(e)),
            TlsEvent::Read(Err(e)) => self.fail(TlsInitError::from(e)),
            TlsEvent::Written(Err(e)) => self.fail(TlsInitError::from(e)),
            TlsEvent::Exists(Ok(exists)) => {
                if exists {
                    let path = self.config.parent_key_path.clone();
                    (TlsSetup { phase: TlsPhase::ReadingKey, ..self }, TlsAction::Read(path))
                } else if self.config.create_if_missing {
                    self.with_created(create())
                } else {
                    self.fail(TlsInitError::from(io_error_new(IoErrorKind::NotFound, NO_CERT)))
                }
            },
            TlsEvent::Read(Ok(pem)) => {
                let TlsSetup { config, phase } = self;
                let setup = TlsSetup { config, phase: TlsPhase::Over };
                match phase {
                    TlsPhase::ReadingCerts(key) => match parent_certificate(pem.as_slice(), key) {
                        Ok(parent) => setup.use_parent(parent),
                        Err(e) => setup.fail(e),
                    },
                    _ => setup.with_parent_key(parent_key(pem.as_slice())),
                }
            },
            TlsEvent::Written(Ok(_)) => {
                let TlsSetup { config, phase } = self;
                let setup = TlsSetup { config, phase: TlsPhase::Over };
                match phase {
                    TlsPhase::WritingCerts(cert, key_pem) => {
                        let path = setup.config.parent_key_path.clone();
                        (
                            TlsSetup { phase: TlsPhase::WritingKey(cert), ..setup },
                            TlsAction::Write(path, key_pem),
                        )
                    },
                    TlsPhase::WritingKey(cert) => setup.use_parent(cert),
                    _ => {
                        assert(false);
                        (setup, TlsAction::Unwritable)
                    },
                }
            },
        }
    }
}

/// What a store trusts.
pub uninterp spec fn trusted_roots(store: tokio_rustls::rustls::RootCertStore) -> Seq<
    tokio_rustls::rustls::OwnedTrustAnchor,
>;

/// What is kept of a certificate that is trusted: its subject, its key and its constraints.
pub uninterp spec fn anchor_of(der: Seq<u8>) -> tokio_rustls::rustls::OwnedTrustAnchor;

/// The error with which a certificate is refused as a root, if it is.
pub uninterp spec fn root_error(der: Seq<u8>) -> Option<tokio_rustls::rustls::Error>;

/// What a connector trusts.
pub uninterp spec fn connector_roots(connector: tokio_rustls::TlsConnector) -> Seq<
    tokio_rustls::rustls::OwnedTrustAnchor,
>;

/// Whether a connector presents a certificate where a server asks for one.
pub uninterp spec fn presents_certificate(connector: tokio_rustls::TlsConnector) -> bool;

/// `RootCertStore::empty`: a store that trusts nothing.
#[verifier::external_body]
fn no_roots() -> (store: tokio_rustls::rustls::RootCertStore)
    ensures
        trusted_roots(store).len() == 0,
{
    tokio_rustls::rustls::RootCertStore::empty()
}

/// `RootCertStore::add`: trusts one more certificate, of which it keeps what makes it an anchor.
/// Whether it is refused depends on the certificate alone, and a refused one changes nothing.
#[verifier::external_body]
fn add_root(store: &mut tokio_rustls::rustls::RootCertStore, der: Vec<u8>) -> (r: Result<
    (),
    tokio_rustls::rustls::Error,
>)
    ensures
        match r {
            Ok(_) => root_error(der@) is None && trusted_roots(*final(store)) == trusted_roots(
                *old(store),
            ).push(anchor_of(der@)),
            Err(e) => root_error(der@) == Some(e) && *final(store) == *old(store),
        },
{
    store.add(&tokio_rustls::rustls::Certificate(der))
}

/// `ClientConfig::builder` with safe defaults, the given roots and no client authentication,
/// then `TlsConnector::from`: a connector that trusts what the store trusts, and presents no
/// certificate of its own.
#[verifier::external_body]
fn connector_with(store: tokio_rustls::rustls::RootCertStore) -> (connector:
    tokio_rustls::TlsConnector)
    ensures
        connector_roots(connector) == trusted_roots(store),
        !presents_certificate(connector),
{
    let config = tokio_rustls::rustls::ClientConfig::builder()
        .with_safe_defaults()
        .with_root_certificates(store)
        .with_no_client_auth();
    tokio_rustls::TlsConnector::from(std::sync::Arc::new(config))
}

/// What a client trusts that is given this root certificate file, if any.
pub open spec fn roots_result(root_pem: Option<Seq<u8>>) -> Result<
    Seq<tokio_rustls::rustls::OwnedTrustAnchor>,
    TlsInitError,
> {
    match root_pem {
        None => Ok(seq![]),
        Some(pem) => match certificates_in(pem) {
            Err(e) => Err(TlsInitError::IOError(e)),
            Ok(certs) => if certs.len() != 1 {
                Err(invalid_data(ONE_ROOT@))
            } else {
                match root_error(certs[0]) {
                    None => Ok(seq![anchor_of(certs[0])]),
                    Some(e) => Err(TlsInitError::RustlsError(e)),
                }
            },
        },
    }
}

/// A connector for a client. It trusts the one certificate in its root certificate file, or
/// none at all where there is no such file. It presents no certificate of its own.
pub fn new_tls_connector(root_pem: Option<Vec<u8>>) -> (r: Result<
    tokio_rustls::TlsConnector,
    TlsInitError,
>)
    ensures
        match roots_result(
            match root_pem {
                Some(pem) => Some(pem@),
                None => None,
            },
        ) {
            Ok(roots) => r matches Ok(connector) && connector_roots(connector) == roots
                && !presents_certificate(connector),
            Err(e) => r == Err::<tokio_rustls::TlsConnector, _>(e),
        },
{
    let mut store = no_roots();
    if let Some(pem) = root_pem {
        let certs = match pem_certificates(pem.as_slice()) {
            Ok(certs) => certs,
            Err(e) => return Err(TlsInitError::from(e)),
        };
        match only(certs) {
            Some(root) => {
                let ghost der = root@;
                if let Err(e) = add_root(&mut store, root) {
                    return Err(TlsInitError::from(e));
                }
                assert(trusted_roots(store) =~= seq![anchor_of(der)]);
            },
            None => {
                return Err(TlsInitError::from(io_error_new(IoErrorKind::InvalidData, ONE_ROOT)));
            },
        }
    }
    Ok(connector_with(store))
}

/// The name of a server, or why a text is none.
pub uninterp spec fn server_name_of(text: Seq<char>) -> Result<
    tokio_rustls::rustls::ServerName,
    tokio_rustls::rustls::client::InvalidDnsNameError,
>;

/// `ServerName::try_from`: reads the name of a server. What it returns depends on the text
/// alone.
#[verifier::external_body]
pub(crate) fn server_name(text: &str) -> (r: Result<
    tokio_rustls::rustls::ServerName,
    tokio_rustls::rustls::client::InvalidDnsNameError,
>)
    ensures
        r == server_name_of(text@),
{
    tokio_rustls::rustls::ServerName::try_from(text)
}

/// A made-up parent always serves: once its files are written, the setup ends with an acceptor
/// or with an error, as long as the configured names are in ASCII.
pub proof fn created_parent_serves(setup: TlsSetup, next: TlsSetup, action: TlsAction)
    requires
        setup.wf(),
        setup.phase is WritingKey,
        all_ascii(texts(setup.config.subject_alt_names@)),
        setup.follows(TlsEvent::Written(Ok(())), next, action),
    ensures
        action is Finish || action is Fail,
        next.phase is Over,
{
}

/// The files that a made-up parent is written to can be read again: the certificate file holds
/// exactly one certificate and the key file exactly one key, so that on the next start the setup
/// reads the very key of the parent, or is told by `rcgen` that it is refused, and gets as far as
/// what comes of that key and the certificate of the parent.
pub proof fn created_files_can_be_read(
    setup: TlsSetup,
    next: TlsSetup,
    action: TlsAction,
    read: Result<rcgen::KeyPair, TlsInitError>,
    key: rcgen::KeyPair,
)
    requires
        setup.creates_parent(next, action),
        next.phase is WritingCerts,
        parent_key_follows(vstd::utf8::encode_utf8(next.phase->WritingCerts_1@), read),
    ensures
        ({
            let cert = next.phase->WritingCerts_0;
            let cert_pem = vstd::utf8::encode_utf8(action->Write_1@);
            &&& match read {
                Ok(key) => key_der(key) == private_key_of(cert),
                Err(e) => e is RCGenError && key_refused(private_key_of(cert), e->RCGenError_0),
            }
            &&& exists|der: Seq<u8>| #[trigger]
                issued_by(der, cert, cert) && parent_result(cert_pem, key) == parent_of(der, key)
        }),
{
    let cert = next.phase->WritingCerts_0;
    let cert_pem = vstd::utf8::encode_utf8(action->Write_1@);
    let der = choose|der: Seq<u8>|
        certificates_in(cert_pem) == Ok::<_, std::io::Error>(seq![der]) && #[trigger] issued_by(
            der,
            cert,
            cert,
        );
    assert(seq![der].last() == der);
}

} // verus!
