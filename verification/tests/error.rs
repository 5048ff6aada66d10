use jd_client::error::Error;

#[test]
fn every_error_has_its_message() {
    assert_eq!(Error::HandshakeIo.message(), "connection closed during handshake");
    assert_eq!(Error::HandshakeProtocol.message(), "unexpected handshake response");
    assert_eq!(Error::HandshakeRejected(vec![1]).message(), "handshake rejected by peer");
    assert_eq!(Error::SupervisionFailed.message(), "task supervisor unreachable");
    assert_eq!(Error::Unrecoverable.message(), "unrecoverable startup failure");
    assert_eq!(Error::Io.message(), "address resolution or socket failure");
    assert_eq!(Error::Unsupported.message(), "unsupported protocol capability");
}
