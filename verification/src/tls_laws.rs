//! What holds of TLS at either end: what a setup reads, writes and ends with, whom the certificate
//! of a server is made out to, and whom a client trusts.
use crate::certs::{
    alt_name_for, alt_names_of, authority_params, certificate_of, certificates_in, issued_by,
    key_der, private_key_of, private_keys_in, texts, writable,
};
use crate::outside::{io_error_with_text, IoErrorKind};
use crate::tls::{
    acceptor_result, anchor_of, asks_for_certificate, connector_roots, new_acceptor,
    new_tls_connector, parent_certificate, parent_key, presented_chain, presented_key,
    presents_certificate, root_error, Created, Issued, TlsAction, TlsEvent, TlsInitError, TlsPhase,
    TlsServerConfig, TlsSetup,
};
use vstd::prelude::*;
use vstd::utf8::{encode_utf8, is_ascii_chars};

verus! {

/// Every decision leaves the setup waiting for the answer to the very action that was decided on,
/// and for nothing else; the configuration stays as it is.
pub proof fn setup_awaits_answer_to_its_action(
    setup: TlsSetup,
    event: TlsEvent,
    r: (TlsSetup, TlsAction),
    later: TlsEvent,
)
    requires
        setup.wf(),
        setup.awaits(event),
        call_ensures(TlsSetup::step, (setup, event), r),
    ensures
        r.0.config == setup.config,
        r.1 !is CheckExists,
        r.0.awaits(later) <==> match r.1 {
            TlsAction::CheckExists(_) => later is Exists,
            TlsAction::Read(_) => later is Read,
            TlsAction::Write(_, _) => later is Written,
            TlsAction::Finish(_) => false,
            TlsAction::Fail(_) => false,
            TlsAction::Unwritable => false,
        },
        r.0.awaits(later) ==> call_requires(TlsSetup::step, (r.0, later)),
{
}

/// A setup begins by finding out whether there is a root certificate where it is configured.
pub proof fn setup_looks_for_root(
    config: TlsServerConfig,
    r: (TlsSetup, TlsAction),
    event: TlsEvent,
)
    requires
        call_ensures(TlsSetup::start, (config,), r),
    ensures
        r.0.config == config,
        r.0.wf(),
        r.0.phase is Checking,
        r.1 == TlsAction::CheckExists(config.root_cert_chain_path),
        r.0.awaits(event) <==> event is Exists,
{
}

/// A file that cannot be looked for, read or written ends the setup with the reason.
pub proof fn setup_fails_with_its_files(setup: TlsSetup, event: TlsEvent, r: (TlsSetup, TlsAction))
    requires
        setup.wf(),
        setup.awaits(event),
        call_ensures(TlsSetup::step, (setup, event), r),
    ensures
        event matches TlsEvent::Exists(Err(e)) ==> r.1 == TlsAction::Fail(TlsInitError::IOError(e)),
        event matches TlsEvent::Read(Err(e)) ==> r.1 == TlsAction::Fail(TlsInitError::IOError(e)),
        event matches TlsEvent::Written(Err(e)) ==> r.1 == TlsAction::Fail(
            TlsInitError::IOError(e),
        ),
{
}

/// Where there is a root certificate, its key is read next, from where it is configured. Where
/// there is none and none may be created, the setup ends.
pub proof fn setup_takes_root_that_is_there(
    setup: TlsSetup,
    exists: bool,
    r: (TlsSetup, TlsAction),
)
    requires
        setup.wf(),
        setup.phase is Checking,
        exists || !setup.config.create_if_missing,
        call_ensures(TlsSetup::step, (setup, TlsEvent::Exists(Ok(exists))), r),
    ensures
        exists ==> r.1 == TlsAction::Read(setup.config.parent_key_path) && r.0.phase is ReadingKey,
        !exists ==> r.0.phase is Over && r.1 == TlsAction::Fail(
            TlsInitError::IOError(
                io_error_with_text(IoErrorKind::NotFound, "Certificate file does not exist"@),
            ),
        ),
{
}

/// The root that is created where there is none is made out to nobody. Its certificate is written
/// first, to where the root certificate is configured, as a file with that one certificate; what
/// is kept to be written next is a file with its one private key. The only other outcome is an
/// error of `rcgen`.
pub proof fn setup_creates_missing_root(setup: TlsSetup, r: (TlsSetup, TlsAction))
    requires
        setup.wf(),
        setup.phase is Checking,
        setup.config.create_if_missing,
        call_ensures(TlsSetup::step, (setup, TlsEvent::Exists(Ok(false))), r),
    ensures
        r.1 is Write || (r.1 is Fail && r.1->Fail_0 is RCGenError),
        r.1 is Write <==> r.0.phase is WritingCerts,
        r.1 matches TlsAction::Write(path, pem) ==> {
            let cert = r.0.phase->WritingCerts_0;
            let key_pem = r.0.phase->WritingCerts_1;
            &&& path == setup.config.root_cert_chain_path
            &&& alt_names_of(cert).len() == 0
            &&& exists|der: Seq<u8>| #[trigger]
                issued_by(der, cert, cert) && certificates_in(encode_utf8(pem@)) == Ok::<
                    Seq<Seq<u8>>,
                    std::io::Error,
                >(seq![der])
            &&& private_keys_in(encode_utf8(key_pem@)) == Ok::<Seq<Seq<u8>>, std::io::Error>(
                seq![private_key_of(cert)],
            )
        },
{
}

/// Once the certificate of a created root is written, its key is written, to where that is
/// configured; the root stays the same.
pub proof fn setup_writes_key_of_root(
    setup: TlsSetup,
    root: rcgen::Certificate,
    key_pem: String,
    r: (TlsSetup, TlsAction),
)
    requires
        setup.wf(),
        setup.phase == TlsPhase::WritingCerts(root, key_pem),
        call_ensures(TlsSetup::step, (setup, TlsEvent::Written(Ok(()))), r),
    ensures
        r.1 == TlsAction::Write(setup.config.parent_key_path, key_pem),
        r.0.phase == TlsPhase::WritingKey(root),
{
}

/// The key file has to hold exactly one private key, and that is the key that is used; the root
/// certificate is read next, from where it is configured.
pub proof fn setup_reads_one_key(setup: TlsSetup, pem: Vec<u8>, r: (TlsSetup, TlsAction))
    requires
        setup.wf(),
        setup.phase is ReadingKey,
        call_ensures(TlsSetup::step, (setup, TlsEvent::Read(Ok(pem))), r),
    ensures
        match private_keys_in(pem@) {
            Err(e) => r.1 == TlsAction::Fail(TlsInitError::IOError(e)),
            Ok(keys) => if keys.len() != 1 {
                r.1 == TlsAction::Fail(
                    TlsInitError::IOError(
                        io_error_with_text(
                            IoErrorKind::InvalidData,
                            "There must be exactly one private key in the parent key file"@,
                        ),
                    ),
                )
            } else {
                ||| (r.1 is Fail && r.1->Fail_0 is RCGenError)
                ||| (r.1 == TlsAction::Read(setup.config.root_cert_chain_path) && (
                r.0.phase matches TlsPhase::ReadingCerts(key) && key_der(key) == keys[0]))
            },
        },
{
}

/// The root is made of the last certificate in its file, of which there has to be one, and of the
/// key that was read; where these make no root, the reason comes out.
pub proof fn setup_takes_last_certificate(
    setup: TlsSetup,
    key: rcgen::KeyPair,
    pem: Vec<u8>,
    r: (TlsSetup, TlsAction),
)
    requires
        setup.wf(),
        setup.phase == TlsPhase::ReadingCerts(key),
        call_ensures(TlsSetup::step, (setup, TlsEvent::Read(Ok(pem))), r),
    ensures
        r.0.phase is Over,
        match certificates_in(pem@) {
            Err(e) => r.1 == TlsAction::Fail(TlsInitError::IOError(e)),
            Ok(certs) => if certs.len() == 0 {
                r.1 == TlsAction::Fail(
                    TlsInitError::IOError(
                        io_error_with_text(
                            IoErrorKind::InvalidData,
                            "There must be at least one certificate in the root cert chain file"@,
                        ),
                    ),
                )
            } else {
                match authority_params(certs[certs.len() - 1], key) {
                    Err(e) => r.1 == TlsAction::Fail(TlsInitError::RCGenError(e)),
                    Ok(params) => match certificate_of(params) {
                        Err(e) => r.1 == TlsAction::Fail(TlsInitError::RCGenError(e)),
                        Ok(root) => r.1 is Finish || r.1 is Unwritable || (r.1 is Fail
                            && r.1->Fail_0 !is IOError),
                    },
                }
            },
        },
{
}

/// The root that a setup is about to use at this event.
pub open spec fn is_root(setup: TlsSetup, event: TlsEvent, root: rcgen::Certificate) -> bool {
    match (setup.phase, event) {
        (TlsPhase::WritingKey(cert), TlsEvent::Written(Ok(_))) => root == cert,
        (TlsPhase::ReadingCerts(key), TlsEvent::Read(Ok(pem))) => {
            &&& certificates_in(pem@) is Ok
            &&& certificates_in(pem@)->Ok_0.len() > 0
            &&& authority_params(certificates_in(pem@)->Ok_0.last(), key) is Ok
            &&& certificate_of(
                authority_params(certificates_in(pem@)->Ok_0.last(), key)->Ok_0,
            ) == Ok::<rcgen::Certificate, rcgen::RcgenError>(root)
        },
        _ => false,
    }
}

/// Where the setup finishes, the first certificate that the acceptor presents was issued by the
/// root for a server whose alternative names are all of the configured ones, as many and in order;
/// the acceptor signs with the key of that server, presents the certificate of the root, signed by
/// itself, behind it, and nothing else, and asks for no certificate.
pub proof fn server_goes_by_all_its_names(
    setup: TlsSetup,
    event: TlsEvent,
    next: TlsSetup,
    acceptor: tokio_rustls::TlsAcceptor,
)
    requires
        setup.wf(),
        setup.awaits(event),
        call_ensures(TlsSetup::step, (setup, event), (next, TlsAction::Finish(acceptor))),
    ensures
        presented_chain(acceptor).len() == 2,
        !asks_for_certificate(acceptor),
        exists|server: rcgen::Certificate, root: rcgen::Certificate|
            {
                let names = setup.config.subject_alt_names@;
                &&& #[trigger] issued_by(presented_chain(acceptor)[0], server, root)
                &&& issued_by(presented_chain(acceptor)[1], root, root)
                &&& presented_key(acceptor) == private_key_of(server)
                &&& is_root(setup, event, root)
                &&& alt_names_of(server).len() == names.len()
                &&& forall|i: int|
                    0 <= i < names.len() ==> #[trigger] alt_names_of(server)[i] == alt_name_for(
                        names[i]@,
                    )
            },
{
    let names = texts(setup.config.subject_alt_names@);
    let root = choose|root: rcgen::Certificate| is_root(setup, event, root);
    let action = TlsAction::Finish(acceptor);
    assert(setup.follows(event, next, action));
    assert(is_root(setup, event, root)) by {
        match (setup.phase, event) {
            (TlsPhase::WritingKey(cert), TlsEvent::Written(Ok(_))) => {
                assert(is_root(setup, event, cert));
            },
            (TlsPhase::ReadingCerts(key), TlsEvent::Read(Ok(pem))) => {
                let certs = certificates_in(pem@)->Ok_0;
                let params = authority_params(certs.last(), key)->Ok_0;
                assert(is_root(setup, event, certificate_of(params)->Ok_0));
            },
            _ => {},
        }
    }
    assert(setup.uses_parent(root, next, action));
    let issued = choose|issued: Issued| #[trigger]
        crate::tls::issued_for(issued, root, names) && crate::tls::accepts_with(issued, action);
    let server = choose|server: rcgen::Certificate| #[trigger]
        crate::tls::is_issued(issued, server, root, names);
    assert(issued_by(presented_chain(acceptor)[0], server, root));
    assert forall|i: int| 0 <= i < setup.config.subject_alt_names@.len() implies #[trigger] alt_names_of(
        server,
    )[i] == alt_name_for(setup.config.subject_alt_names@[i]@) by {
        assert(names[i] == setup.config.subject_alt_names@[i]@);
    }
}

/// A setup that has a root does not fail for anything but what `rcgen` or `rustls` refuse; it
/// gives up only where a configured name is not in ASCII or the root cannot be written out, and it
/// never finishes there.
pub proof fn root_serves_unless_it_cannot(
    setup: TlsSetup,
    event: TlsEvent,
    root: rcgen::Certificate,
    r: (TlsSetup, TlsAction),
)
    requires
        setup.wf(),
        setup.awaits(event),
        is_root(setup, event, root),
        call_ensures(TlsSetup::step, (setup, event), r),
    ensures
        ({
            let names = setup.config.subject_alt_names@;
            let suits = writable(root) && forall|i: int|
                0 <= i < names.len() ==> is_ascii_chars((#[trigger] names[i])@);
            &&& r.0.phase is Over
            &&& r.1 is Fail ==> r.1->Fail_0 !is IOError
            &&& suits ==> r.1 is Finish || r.1 is Fail
            &&& !suits ==> r.1 is Unwritable || (r.1 is Fail && r.1->Fail_0 is RCGenError)
        }),
{
    let names = setup.config.subject_alt_names@;
    assert(setup.uses_parent(root, r.0, r.1));
    if forall|i: int| 0 <= i < names.len() ==> is_ascii_chars((#[trigger] names[i])@) {
        assert forall|i: int| 0 <= i < texts(names).len() implies is_ascii_chars(
            #[trigger] texts(names)[i],
        ) by {
            assert(is_ascii_chars(names[i]@));
        }
    }
    if crate::certs::all_ascii(texts(names)) {
        assert forall|i: int| 0 <= i < names.len() implies is_ascii_chars(
            (#[trigger] names[i])@,
        ) by {
            assert(is_ascii_chars(texts(names)[i]));
        }
    }
}

/// A root that is created is the one that serves: a certificate of it is what is written to the
/// file of the root certificate, its key is what is written to the key file, and where the setup
/// then finishes, the certificate of the server was issued by that root for all of the configured
/// names.
pub proof fn created_root_serves(
    setup: TlsSetup,
    s1: TlsSetup,
    cert_pem: String,
    s2: TlsSetup,
    key_pem: String,
    s3: TlsSetup,
    acceptor: tokio_rustls::TlsAcceptor,
    path: String,
    key_path: String,
)
    requires
        setup.wf(),
        setup.phase is Checking,
        setup.config.create_if_missing,
        call_ensures(
            TlsSetup::step,
            (setup, TlsEvent::Exists(Ok(false))),
            (s1, TlsAction::Write(path, cert_pem)),
        ),
        call_ensures(
            TlsSetup::step,
            (s1, TlsEvent::Written(Ok(()))),
            (s2, TlsAction::Write(key_path, key_pem)),
        ),
        call_ensures(
            TlsSetup::step,
            (s2, TlsEvent::Written(Ok(()))),
            (s3, TlsAction::Finish(acceptor)),
        ),
    ensures
        path == setup.config.root_cert_chain_path,
        key_path == setup.config.parent_key_path,
        exists|server: rcgen::Certificate, root: rcgen::Certificate, der: Seq<u8>|
            {
                let names = setup.config.subject_alt_names@;
                &&& #[trigger] issued_by(presented_chain(acceptor)[0], server, root)
                &&& #[trigger] issued_by(der, root, root)
                &&& certificates_in(encode_utf8(cert_pem@)) == Ok::<Seq<Seq<u8>>, std::io::Error>(
                    seq![der],
                )
                &&& private_keys_in(encode_utf8(key_pem@)) == Ok::<Seq<Seq<u8>>, std::io::Error>(
                    seq![private_key_of(root)],
                )
                &&& alt_names_of(server).len() == names.len()
                &&& forall|i: int|
                    0 <= i < names.len() ==> #[trigger] alt_names_of(server)[i] == alt_name_for(
                        names[i]@,
                    )
            },
{
    setup_creates_missing_root(setup, (s1, TlsAction::Write(path, cert_pem)));
    let root = s1.phase->WritingCerts_0;
    let kept = s1.phase->WritingCerts_1;
    setup_writes_key_of_root(s1, root, kept, (s2, TlsAction::Write(key_path, key_pem)));
    server_goes_by_all_its_names(s2, TlsEvent::Written(Ok(())), s3, acceptor);
    let der = choose|der: Seq<u8>| #[trigger]
        issued_by(der, root, root) && certificates_in(encode_utf8(cert_pem@)) == Ok::<
            Seq<Seq<u8>>,
            std::io::Error,
        >(seq![der]);
    assert(issued_by(der, root, root));
}

/// Reading the key file: exactly one private key, and that one.
pub proof fn key_file_holds_one_key(
    pem: &[u8],
    r: Result<rcgen::KeyPair, TlsInitError>,
)
    requires
        call_ensures(parent_key, (pem,), r),
    ensures
        private_keys_in(pem@) matches Err(e) ==> r == Err::<rcgen::KeyPair, TlsInitError>(
            TlsInitError::IOError(e),
        ),
        private_keys_in(pem@) matches Ok(keys) ==> {
            &&& keys.len() != 1 ==> r == Err::<rcgen::KeyPair, TlsInitError>(
                TlsInitError::IOError(
                    io_error_with_text(
                        IoErrorKind::InvalidData,
                        "There must be exactly one private key in the parent key file"@,
                    ),
                ),
            )
            &&& keys.len() == 1 && r is Ok ==> key_der(r->Ok_0) == keys[0]
            &&& keys.len() == 1 && r is Err ==> r->Err_0 is RCGenError
        },
{
}

/// Reading the root certificate file: its last certificate, with the given key.
pub proof fn root_file_ends_with_root(
    pem: &[u8],
    key: rcgen::KeyPair,
    r: Result<rcgen::Certificate, TlsInitError>,
)
    requires
        call_ensures(parent_certificate, (pem, key), r),
    ensures
        certificates_in(pem@) matches Err(e) ==> r == Err::<rcgen::Certificate, TlsInitError>(
            TlsInitError::IOError(e),
        ),
        certificates_in(pem@) matches Ok(certs) ==> {
            &&& certs.len() == 0 ==> r == Err::<rcgen::Certificate, TlsInitError>(
                TlsInitError::IOError(
                    io_error_with_text(
                        IoErrorKind::InvalidData,
                        "There must be at least one certificate in the root cert chain file"@,
                    ),
                ),
            )
            &&& certs.len() > 0 ==> match authority_params(certs[certs.len() - 1], key) {
                Err(e) => r == Err::<rcgen::Certificate, TlsInitError>(
                    TlsInitError::RCGenError(e),
                ),
                Ok(params) => match certificate_of(params) {
                    Err(e) => r == Err::<rcgen::Certificate, TlsInitError>(
                        TlsInitError::RCGenError(e),
                    ),
                    Ok(root) => r == Ok::<rcgen::Certificate, TlsInitError>(root),
                },
            }
        },
{
}

/// An acceptor presents the certificate of the server, then that of its root, and nothing else,
/// signs with the given key, and asks for no certificate; it can be refused only by `rustls`.
pub proof fn acceptor_presents_what_it_is_given(
    server: Vec<u8>,
    root: Vec<u8>,
    key: Vec<u8>,
    r: Result<tokio_rustls::TlsAcceptor, TlsInitError>,
)
    requires
        call_ensures(new_acceptor, (server, root, key), r),
    ensures
        r is Err ==> r->Err_0 is RustlsError,
        r matches Ok(acceptor) ==> {
            &&& presented_chain(acceptor).len() == 2
            &&& presented_chain(acceptor)[0] == server@
            &&& presented_chain(acceptor)[1] == root@
            &&& presented_key(acceptor) == key@
            &&& !asks_for_certificate(acceptor)
        },
{
}

/// What is decided once the outside work is done: a key leads to the root certificate, a created
/// root to its files, and what was issued to an acceptor; a failure comes out as it is.
pub proof fn setup_goes_on_with_results(
    setup: TlsSetup,
    key: Result<rcgen::KeyPair, TlsInitError>,
    after_key: (TlsSetup, TlsAction),
    created: Result<Created, rcgen::RcgenError>,
    after_created: (TlsSetup, TlsAction),
    issued: Result<Issued, rcgen::RcgenError>,
    after_issued: (TlsSetup, TlsAction),
    made: Result<tokio_rustls::TlsAcceptor, tokio_rustls::rustls::Error>,
    after_made: Result<tokio_rustls::TlsAcceptor, TlsInitError>,
)
    requires
        call_ensures(TlsSetup::with_parent_key, (setup, key), after_key),
        call_ensures(TlsSetup::with_created, (setup, created), after_created),
        call_ensures(TlsSetup::with_issued, (setup, issued), after_issued),
        call_ensures(acceptor_result, (made,), after_made),
    ensures
        after_key.0.config == setup.config,
        key matches Ok(key) ==> after_key.0.phase == TlsPhase::ReadingCerts(key) && after_key.1
            == TlsAction::Read(setup.config.root_cert_chain_path),
        key matches Err(e) ==> after_key.0.phase is Over && after_key.1 == TlsAction::Fail(e),
        after_created.0.config == setup.config,
        created matches Ok(made_up) ==> after_created.0.phase == TlsPhase::WritingCerts(
            made_up.parent,
            made_up.key_pem,
        ) && after_created.1 == TlsAction::Write(
            setup.config.root_cert_chain_path,
            made_up.cert_pem,
        ),
        created matches Err(e) ==> after_created.0.phase is Over && after_created.1
            == TlsAction::Fail(TlsInitError::RCGenError(e)),
        after_issued.0.phase is Over,
        issued matches Err(e) ==> after_issued.1 == TlsAction::Fail(TlsInitError::RCGenError(e)),
        issued matches Ok(what) ==> {
            ||| (after_issued.1 is Fail && after_issued.1->Fail_0 is RustlsError)
            ||| {
                &&& after_issued.1 matches TlsAction::Finish(acceptor)
                &&& presented_chain(acceptor) == seq![what.server@, what.parent@]
                &&& presented_key(acceptor) == what.key@
                &&& !asks_for_certificate(acceptor)
            }
        },
        made matches Ok(acceptor) ==> after_made == Ok::<tokio_rustls::TlsAcceptor, TlsInitError>(
            acceptor,
        ),
        made matches Err(e) ==> after_made == Err::<tokio_rustls::TlsAcceptor, TlsInitError>(
            TlsInitError::RustlsError(e),
        ),
{
}

/// A client without a root certificate file trusts nobody; one with such a file trusts the one
/// certificate in it, and nobody else. A file that cannot be read, holds no certificate or several,
/// or one that cannot be trusted, is an error. No client presents a certificate.
pub proof fn client_trusts_its_one_root(
    root_pem: Option<Vec<u8>>,
    r: Result<tokio_rustls::TlsConnector, TlsInitError>,
)
    requires
        call_ensures(new_tls_connector, (root_pem,), r),
    ensures
        r is Ok ==> !presents_certificate(r->Ok_0),
        root_pem is None ==> r is Ok && connector_roots(r->Ok_0).len() == 0,
        root_pem matches Some(pem) ==> match certificates_in(pem@) {
            Err(e) => r == Err::<tokio_rustls::TlsConnector, TlsInitError>(
                TlsInitError::IOError(e),
            ),
            Ok(certs) => if certs.len() != 1 {
                r == Err::<tokio_rustls::TlsConnector, TlsInitError>(
                    TlsInitError::IOError(
                        io_error_with_text(
                            IoErrorKind::InvalidData,
                            "There must be exactly one certificate in the root cert file"@,
                        ),
                    ),
                )
            } else {
                match root_error(certs[0]) {
                    Some(e) => r == Err::<tokio_rustls::TlsConnector, TlsInitError>(
                        TlsInitError::RustlsError(e),
                    ),
                    None => r is Ok && connector_roots(r->Ok_0).len() == 1 && connector_roots(
                        r->Ok_0,
                    )[0] == anchor_of(certs[0]),
                }
            },
        },
{
}

/// Errors of each kind keep their kind, and say what the error inside says.
pub proof fn setup_errors_keep_their_kind(
    of_file: std::io::Error,
    of_rcgen: rcgen::RcgenError,
    of_rustls: tokio_rustls::rustls::Error,
    file: TlsInitError,
    from_rcgen: TlsInitError,
    from_rustls: TlsInitError,
    error: TlsInitError,
    cause: &str,
    text: String,
)
    requires
        call_ensures(<TlsInitError as From<std::io::Error>>::from, (of_file,), file),
        call_ensures(<TlsInitError as From<rcgen::RcgenError>>::from, (of_rcgen,), from_rcgen),
        call_ensures(
            <TlsInitError as From<tokio_rustls::rustls::Error>>::from,
            (of_rustls,),
            from_rustls,
        ),
        call_ensures(TlsInitError::message, (&error, cause), text),
    ensures
        file == TlsInitError::IOError(of_file),
        from_rcgen == TlsInitError::RCGenError(of_rcgen),
        from_rustls == TlsInitError::RustlsError(of_rustls),
        text@ == cause@,
{
}

} // verus!
