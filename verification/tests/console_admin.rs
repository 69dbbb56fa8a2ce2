use p2p::admin::admin_server::{AdminServer, Route};
use p2p::network::p2p_network::{handle_message_send, message_request_for};
use p2p::requests::message_request::MessageRequest;

#[test]
fn send_command_becomes_a_broadcast() {
    assert_eq!(
        message_request_for("send hello world", Some("h1".to_string())),
        Some(MessageRequest { message: "hello world".to_string(), hostname: "h1".to_string() })
    );
}

#[test]
fn send_command_keeps_the_text_as_it_is() {
    assert_eq!(
        message_request_for("send  two spaces ", Some("h1".to_string())),
        Some(MessageRequest { message: " two spaces ".to_string(), hostname: "h1".to_string() })
    );
    assert_eq!(
        message_request_for("send send x", Some("h1".to_string())),
        Some(MessageRequest { message: "send x".to_string(), hostname: "h1".to_string() })
    );
    assert_eq!(
        message_request_for("send gr\u{fc}\u{df}e", Some("h\u{e9}".to_string())),
        Some(MessageRequest { message: "gr\u{fc}\u{df}e".to_string(), hostname: "h\u{e9}".to_string() })
    );
}

#[test]
fn send_command_may_carry_no_text() {
    assert_eq!(
        message_request_for("send ", Some("h1".to_string())),
        Some(MessageRequest { message: String::new(), hostname: "h1".to_string() })
    );
}

#[test]
fn other_lines_ask_for_no_broadcast() {
    assert_eq!(message_request_for("send", Some("h1".to_string())), None);
    assert_eq!(message_request_for("", Some("h1".to_string())), None);
    assert_eq!(message_request_for(" send x", Some("h1".to_string())), None);
    assert_eq!(message_request_for("Send x", Some("h1".to_string())), None);
    assert_eq!(message_request_for("sendx", Some("h1".to_string())), None);
    assert_eq!(message_request_for("ls p", Some("h1".to_string())), None);
}

#[test]
fn no_broadcast_without_a_host_name() {
    assert_eq!(message_request_for("send hello", None), None);
}

#[test]
fn handle_message_send_names_this_machine() {
    let request = handle_message_send("send hello");
    match gethostname::gethostname().into_string().ok() {
        Some(hostname) => assert_eq!(
            request,
            Some(MessageRequest { message: "hello".to_string(), hostname })
        ),
        None => assert_eq!(request, None),
    }
    assert_eq!(handle_message_send("hello"), None);
}

#[test]
fn routes_of_the_admin_interface() {
    assert_eq!(AdminServer::route("GET", "/"), Route::Index);
    assert_eq!(AdminServer::route("GET", "/index.html"), Route::Index);
    assert_eq!(AdminServer::route("POST", "/api/send_ps"), Route::SendPeerStatus);
    assert_eq!(AdminServer::route("GET", "/api/events"), Route::Events);
}

#[test]
fn anything_else_is_not_found() {
    assert_eq!(AdminServer::route("POST", "/"), Route::NotFound);
    assert_eq!(AdminServer::route("GET", "/api/send_ps"), Route::NotFound);
    assert_eq!(AdminServer::route("POST", "/api/events"), Route::NotFound);
    assert_eq!(AdminServer::route("get", "/"), Route::NotFound);
    assert_eq!(AdminServer::route("GET", ""), Route::NotFound);
    assert_eq!(AdminServer::route("GET", "/index.htm"), Route::NotFound);
    assert_eq!(AdminServer::route("DELETE", "/api/events"), Route::NotFound);
    assert_eq!(AdminServer::route("", ""), Route::NotFound);
}

#[test]
fn status_codes_of_a_status_request() {
    assert_eq!(AdminServer::status_for(&Ok(())), 200);
    assert_eq!(AdminServer::status_for(&Err(())), 500);
}
