use chain_decoder::client::{Adapter, Request, DEFAULT_USER_AGENT, LOCAL_HOST, PRODUCTION_HOST};

#[test]
fn new_client_calls_production() {
    assert_eq!(Adapter::new().host, PRODUCTION_HOST);
    assert_eq!(Adapter::new().host, "https://ronin.rest");
}

#[test]
fn local_client_calls_this_machine() {
    assert_eq!(Adapter::local().host, LOCAL_HOST);
    assert_eq!(Adapter::local().host, "http://localhost:3000");
}

#[test]
fn host_is_a_parameter() {
    assert_eq!(Adapter::with_host("http://stub".to_string()).host, "http://stub");
}

#[test]
fn user_agent_is_fixed() {
    assert_eq!(
        DEFAULT_USER_AGENT,
        "ronin/chain-decoder0.1.0 (+ https://github.com/wehmoen/chain-decoder)"
    );
}

#[test]
fn method_request() {
    let adapter = Adapter::with_host("http://stub".to_string());
    assert_eq!(
        adapter.decode_method(&"0xabc".to_string()),
        Request {
            url: "http://stub/decodeTransaction/0xabc".to_string(),
            user_agent: DEFAULT_USER_AGENT.to_string(),
        }
    );
    assert_eq!(
        Adapter::new().decode_method(&"0x1".to_string()).url,
        "https://ronin.rest/decodeTransaction/0x1"
    );
}

#[test]
fn receipt_request() {
    let adapter = Adapter::with_host("http://stub".to_string());
    assert_eq!(
        adapter.decode_receipt(&"0xabc".to_string()),
        Request {
            url: "http://stub/decodeTransactionReceipt/0xabc".to_string(),
            user_agent: DEFAULT_USER_AGENT.to_string(),
        }
    );
    assert_eq!(
        Adapter::local().decode_receipt(&"0x1".to_string()).url,
        "http://localhost:3000/decodeTransactionReceipt/0x1"
    );
}

#[test]
fn requests_leave_the_client_unchanged() {
    let adapter = Adapter::new();
    let before = adapter.clone();
    adapter.decode_method(&"0x1".to_string());
    adapter.decode_receipt(&"0x1".to_string());
    assert_eq!(adapter, before);
}
