use nanwei_api_rust::client::{
    address_text, bind_address, client_req_str, DtpClient, DtpServer, HTTP_REQ_STREAM_ID,
    SERVER_NAME,
};
use nanwei_api_rust::config::{
    application_protos, dtp_config_load_cert_chain_from_pem_file,
    dtp_config_load_priv_key_from_pem_file, dtp_config_set_gmssl_key,
    dtp_config_set_initial_max_stream_data_bidi_local,
    dtp_config_set_initial_max_stream_data_bidi_remote,
    dtp_config_set_initial_max_stream_data_uni, dtp_config_set_initial_max_streams_bidi,
    dtp_config_set_initial_max_streams_uni, dtp_config_set_max_idle_timeout, ConfigStage,
    QUICHE_PROTOCOL_VERSION,
};
use nanwei_api_rust::message::{send_request, send_result, DtpMsg, SendError};
use nanwei_api_rust::quic::CloseRequest;
use nanwei_api_rust::text::hex_dump;
use quiche::Error;

#[test]
fn request_of_a_client() {
    assert_eq!(client_req_str(7), "{\"apiType\": \"get\", \"client_id\": 7}");
    assert_eq!(client_req_str(-1), "{\"apiType\": \"get\", \"client_id\": -1}");
    assert_eq!(client_req_str(0), "{\"apiType\": \"get\", \"client_id\": 0}");
    assert_eq!(
        client_req_str(i32::MIN),
        "{\"apiType\": \"get\", \"client_id\": -2147483648}"
    );
    assert_eq!(
        client_req_str(i32::MAX),
        "{\"apiType\": \"get\", \"client_id\": 2147483647}"
    );
    assert_eq!(HTTP_REQ_STREAM_ID, 4);
}

#[test]
fn bytes_in_hexadecimal() {
    assert_eq!(hex_dump(&[]), "");
    assert_eq!(hex_dump(&[0x00, 0x0f, 0xa0, 0xff]), "000fa0ff");
}

#[test]
fn addresses() {
    assert_eq!(address_text("127.0.0.1", 4433), "127.0.0.1:4433");
    assert_eq!(SERVER_NAME, "server");
    assert_eq!(bind_address(true), "0.0.0.0:0");
    assert_eq!(bind_address(false), "[::]:0");
    let client = DtpClient::connect("127.0.0.1", 4433, 3);
    assert_eq!(client.peer_addr, "127.0.0.1:4433");
    assert_eq!(client.sockid, 3);
}

#[test]
fn server_runs_with_a_configuration() {
    let mut server: DtpServer<u8> = DtpServer::bind("[::1]", 80, 5);
    assert_eq!(server.local_addr, "[::1]:80");
    assert_eq!(server.sockid, Some(5));
    assert_eq!(server.run_config(), None);
    assert!(server.set_config(9));
    assert_eq!(server.run_config(), Some(&9));
    let server = DtpServer::listen("0.0.0.0", 1, 2u8);
    assert_eq!(server.run_config(), Some(&2));
    assert_eq!(server.sockid, None);
}

#[test]
fn stages_of_a_configuration() {
    let stage = ConfigStage::Create;
    assert_eq!(stage.path(), None);
    let stage = stage.advance(true);
    assert_eq!(stage, ConfigStage::LoadCertificate);
    assert_eq!(stage.path(), Some("./cert.crt"));
    assert_eq!(stage.advance(false), ConfigStage::Failed);
    let stage = stage.advance(true);
    assert_eq!(stage, ConfigStage::LoadKey);
    assert_eq!(stage.path(), Some("./cert.key"));
    let stage = stage.advance(true);
    assert_eq!(stage, ConfigStage::Configure);
    let stage = stage.advance(true);
    assert_eq!(stage, ConfigStage::Ready);
    assert_eq!(stage.advance(false), ConfigStage::Ready);
    assert_eq!(ConfigStage::Failed.advance(true), ConfigStage::Failed);
    assert_eq!(QUICHE_PROTOCOL_VERSION, 1);
}

#[test]
fn protocols_on_the_wire() {
    assert_eq!(application_protos(), b"\x05hq-28\x05hq-27\x08http/0.9".to_vec());
}

#[test]
fn setters_need_a_configuration() {
    assert_eq!(dtp_config_set_max_idle_timeout(None, 1), -1);
    assert_eq!(dtp_config_set_initial_max_stream_data_bidi_local(None, 1), -1);
    assert_eq!(dtp_config_set_initial_max_stream_data_bidi_remote(None, 1), -1);
    assert_eq!(dtp_config_set_initial_max_stream_data_uni(None, 1), -1);
    assert_eq!(dtp_config_set_initial_max_streams_bidi(None, 1), -1);
    assert_eq!(dtp_config_set_initial_max_streams_uni(None, 1), -1);
    assert_eq!(dtp_config_set_gmssl_key(None, 1), -1);
}

#[test]
fn loading_files_is_reported() {
    assert_eq!(dtp_config_load_cert_chain_from_pem_file(None), -1);
    assert_eq!(dtp_config_load_cert_chain_from_pem_file(Some(Ok(()))), 0);
    assert_eq!(dtp_config_load_cert_chain_from_pem_file(Some(Err(Error::TlsFail))), -10);
    assert_eq!(dtp_config_load_priv_key_from_pem_file(None), -1);
    assert_eq!(dtp_config_load_priv_key_from_pem_file(Some(Ok(()))), 0);
    assert_eq!(dtp_config_load_priv_key_from_pem_file(Some(Err(Error::TlsFail))), -10);
}

#[test]
fn replies_to_a_request_to_send() {
    assert!(matches!(send_result(DtpMsg::DtpSendRet { res: Ok(3) }), Ok(3)));
    assert!(matches!(
        send_result(DtpMsg::DtpSendRet { res: Err(Error::FinalSize) }),
        Err(SendError::Transport(Error::FinalSize))
    ));
    let retry = send_result(DtpMsg::DtpSendRetry).unwrap_err();
    assert_eq!(retry.message(), Some("retry"));
    let other = send_result(DtpMsg::DtpCloseRet { res: Ok(()) }).unwrap_err();
    assert_eq!(other.message(), Some("error in send ret recv"));
    assert_eq!(SendError::Transport(Error::Done).message(), None);
}

#[test]
fn request_to_send_holds_what_is_sent() {
    match send_request(vec![1, 2], true, 8) {
        DtpMsg::DtpSend { buf, fin, stream_id } => {
            assert_eq!(buf, vec![1, 2]);
            assert!(fin);
            assert_eq!(stream_id, 8);
        }
        _ => panic!("no request to send"),
    }
}

#[test]
fn requests_to_close() {
    let goodbye = CloseRequest::goodbye();
    assert!(goodbye.app);
    assert_eq!(goodbye.err, 0);
    assert!(goodbye.reason.is_empty());
    let abort = CloseRequest::abort();
    assert!(!abort.app);
    assert_eq!(abort.err, 1);
    assert_eq!(abort.reason, b"fail".to_vec());
}
