use electrs_json_rpc::electrum::chain::{BlockHeader, Chain, ChainBlock};
use electrs_json_rpc::electrum::methods::{protocol_items, protocol_service};
use electrs_json_rpc::electrum::rpc::{
    accept_transaction, banner, donation_address, merkle_position, notification, peers_subscribe,
    ping, proof_to_value, scripthash_subscribe, transaction_broadcast, transaction_get,
    transaction_get_merkle, transaction_hex, ProofSource, StatusUpdate, TransactionSource,
    TxGetArgs, Version,
};
use electrs_json_rpc::electrum::{Client, ElectrumRpcError, Rpc};
use electrs_json_rpc::json_codec::read_json;
use electrs_json_rpc::json_types::JsonRpcParams;
use electrs_json_rpc::json_value::JsonValue;
use electrs_json_rpc::server::{
    on_received, on_tip_passed, on_waiting, on_wake, read_request, response_line,
    unhandled_request, Event, Message, Peer, PeerAction, Peers, ReceiveStep, ServerStep, TipPassed,
    Waiting, Wake,
};
use electrs_json_rpc::service::{DropConnection, HandleMethodError};
use electrs_json_rpc::signals::{meaning, Signal, SystemSignal};

const GENESIS: &str = "0100000000000000000000000000000000000000000000000000000000000000000000003ba\
3edfd7a7b12b27ac72c3e67768f617fc81bc3888a51323a9fb8aa4b1e5e4a29ab5f49ffff001d1dac2b7c";

const COINBASE: &str = "01000000010000000000000000000000000000000000000000000000000000000000000000\
ffffffff4d04ffff001d0104455468652054696d65732030332f4a616e2f32303039204368616e63656c6c6f72206f6e2\
06272696e6b206f66207365636f6e64206261696c6f757420666f722062616e6b73ffffffff0100f2052a010000004341\
04678afdb0fe5548271967f1a67130b7105cd6a828e03909a67962e0ea1f61deb649f6bc3f4cef38c4f35504e51ec112d\
e5c384df7ba0b8d578a4c702b6bf11d5fac00000000";

fn genesis() -> BlockHeader {
    BlockHeader {
        version: 1,
        prev_blockhash: [0; 32],
        merkle_root: [
            0x3b, 0xa3, 0xed, 0xfd, 0x7a, 0x7b, 0x12, 0xb2, 0x7a, 0xc7, 0x2c, 0x3e, 0x67, 0x76,
            0x8f, 0x61, 0x7f, 0xc8, 0x1b, 0xc3, 0x88, 0x8a, 0x51, 0x32, 0x3a, 0x9f, 0xb8, 0xaa,
            0x4b, 0x1e, 0x5e, 0x4a,
        ],
        time: 1231006505,
        bits: 0x1d00ffff,
        nonce: 2083236893,
    }
}

fn rpc(len: usize) -> Rpc {
    let mut blocks = Vec::new();
    for height in 0..len {
        let mut header = genesis();
        header.nonce = header.nonce + height as u32;
        blocks.push(ChainBlock { hash: format!("hash{}", height), header });
    }
    Rpc::new(Chain::new(blocks).unwrap(), "0.9".to_owned())
}

fn bad_request(message: &str) -> ElectrumRpcError {
    ElectrumRpcError::BadRequest { message: message.to_owned() }
}

#[test]
fn headers_are_written_in_hex() {
    assert_eq!(genesis().to_hex(), GENESIS);
    let mut header = genesis();
    header.version = -2;
    assert!(header.to_hex().starts_with("feffffff00"));
    assert!(Chain::new(Vec::new()).is_none());
}

#[test]
fn single_headers_are_given() {
    let rpc = rpc(3);
    assert_eq!(rpc.chain.height(), 2);
    assert_eq!(rpc.block_header(0).unwrap(), GENESIS);
    assert_eq!(rpc.block_header(3).unwrap_err(), bad_request("no header at 3"));
    assert_eq!(rpc.block_header_checkpoint(0, 0).unwrap(), JsonValue::from_text(GENESIS));
    assert_eq!(
        rpc.block_header_checkpoint(0, 1).unwrap_err(),
        bad_request("cp_height argument not supported")
    );
    assert_eq!(
        rpc.block_header_checkpoint(9, 0).unwrap_err(),
        bad_request("no header at 9")
    );
}

#[test]
fn header_windows_end_at_the_tip() {
    let small = rpc(3);
    assert_eq!(small.chain.window(1, 10), 2);
    assert_eq!(small.chain.window(3, 10), 0);
    assert_eq!(small.chain.window(usize::MAX, usize::MAX), 0);
    assert_eq!(small.chain.window(0, 2), 2);
    assert_eq!(rpc(3000).chain.window(10, 5000), 2016);
    let both = format!(
        "{}{}",
        small.block_header(1).unwrap(),
        small.block_header(2).unwrap()
    );
    let expected = format!("{{\"count\":2,\"hex\":\"{}\",\"max\":2016}}", both);
    assert_eq!(small.block_headers(1, 10), read_json(&expected).unwrap());
    assert_eq!(
        small.block_headers_checkpoint(7, 1, 0).unwrap(),
        read_json("{\"count\":0,\"hex\":\"\",\"max\":2016}").unwrap()
    );
    assert_eq!(
        small.block_headers_checkpoint(7, 1, 3).unwrap_err(),
        bad_request("cp_height argument not supported")
    );
}

#[test]
fn clients_are_told_of_the_tip_once() {
    let mut client: Client<u8> = Client::default();
    let old = rpc(1);
    let new = rpc(2);
    assert_eq!(new.update_client(&mut client, Vec::new()).unwrap(), Vec::new());
    let told = old.headers_subscribe(&mut client);
    assert_eq!(
        told,
        read_json(&format!("{{\"hex\":\"{}\",\"height\":0}}", GENESIS)).unwrap()
    );
    assert_eq!(client.tip(), Some(&"hash0".to_owned()));
    assert_eq!(old.update_client(&mut client, Vec::new()).unwrap(), Vec::new());
    let header = new.block_header(1).unwrap();
    let news = format!(
        "{{\"jsonrpc\":\"2.0\",\"method\":\"blockchain.headers.subscribe\",\
         \"params\":[{{\"hex\":\"{}\",\"height\":1}}]}}",
        header
    );
    assert_eq!(
        new.update_client(&mut client, Vec::new()).unwrap(),
        vec![read_json(&news).unwrap()]
    );
    assert_eq!(new.update_client(&mut client, Vec::new()).unwrap(), Vec::new());
}

#[test]
fn clients_are_told_of_their_scripts() {
    let rpc = rpc(1);
    let mut client: Client<u8> = Client::default();
    let updates = vec![
        StatusUpdate::Changed {
            scripthash: "aa".to_owned(),
            statushash: Some("bb".to_owned()),
        },
        StatusUpdate::Same,
        StatusUpdate::Changed { scripthash: "cc".to_owned(), statushash: None },
    ];
    let news = rpc.update_client(&mut client, updates).unwrap();
    let text = |params: &str| {
        read_json(&format!(
            "{{\"jsonrpc\":\"2.0\",\"method\":\"blockchain.scripthash.subscribe\",\
             \"params\":{}}}",
            params
        ))
        .unwrap()
    };
    assert_eq!(news, vec![text("[\"aa\",\"bb\"]"), text("[\"cc\",null]")]);
    let updates = vec![StatusUpdate::Same, StatusUpdate::Failed, StatusUpdate::Failed];
    assert_eq!(rpc.update_client(&mut client, updates).unwrap_err(), 1);
}

#[test]
fn subscriptions_are_remembered() {
    let mut client: Client<u8> = Client::default();
    assert_eq!(
        client.subscription("aa").unwrap_err(),
        bad_request("no subscription for scripthash")
    );
    client.subscribe("aa".to_owned(), 1);
    client.subscribe("bb".to_owned(), 2);
    client.subscribe("aa".to_owned(), 3);
    assert_eq!(client.subscription("aa"), Ok(&1));
    assert_eq!(client.subscription("bb"), Ok(&2));
    assert_eq!(client.scripts(), vec!["aa".to_owned(), "bb".to_owned()]);
}

#[test]
fn a_subscription_is_not_replaced() {
    let mut client: Client<u8> = Client::default();
    let subscribe = |client: &mut Client<u8>, status: u8, statushash: &str| {
        scripthash_subscribe(client, "aa".to_owned(), Ok((status, statushash.to_owned())))
    };
    assert_eq!(
        scripthash_subscribe(&mut client, "aa".to_owned(), Err(bad_request("no status"))),
        Err(bad_request("no status"))
    );
    assert!(client.subscription("aa").is_err());
    assert_eq!(subscribe(&mut client, 1, "first"), Ok(JsonValue::from_text("first")));
    assert_eq!(subscribe(&mut client, 2, "second"), Ok(JsonValue::from_text("second")));
    assert_eq!(client.subscription("aa"), Ok(&1));
    assert_eq!(client.scripts(), vec!["aa".to_owned()]);
}

#[test]
fn transactions_are_read_and_written() {
    let transaction = transaction_broadcast(COINBASE).unwrap();
    assert_eq!(
        transaction.txid().to_string(),
        "4a5e1e4baab89f3a32518a88c31bc87f618f76673e2cc77ab2127b7afdeda33b"
    );
    assert_eq!(transaction_hex(&transaction), COINBASE);
    let upper = COINBASE.to_uppercase();
    assert_eq!(transaction_hex(&transaction_broadcast(&upper).unwrap()), COINBASE);
    for text in vec!["0", "0g", "zz"] {
        assert_eq!(
            transaction_broadcast(text).unwrap_err(),
            bad_request("non-hex transaction")
        );
    }
    let longer = format!("{}00", COINBASE);
    for text in vec!["", "00", longer.as_str()] {
        assert_eq!(
            transaction_broadcast(text).unwrap_err(),
            bad_request("invalid transaction")
        );
    }
    assert_eq!(accept_transaction(None).unwrap_err(), bad_request("invalid transaction"));
}

#[test]
fn transactions_come_from_the_daemon_or_are_known() {
    let cached = Some("ab".to_owned());
    assert_eq!(transaction_get(true, cached.clone()), TransactionSource::DaemonInfo);
    assert_eq!(
        transaction_get(false, cached),
        TransactionSource::Known(JsonValue::from_text("ab"))
    );
    assert_eq!(transaction_get(false, None), TransactionSource::DaemonHex);
    assert_eq!(
        <(String, bool)>::from(TxGetArgs::Txid("ab".to_owned())),
        ("ab".to_owned(), false)
    );
    assert_eq!(
        <(String, bool)>::from(TxGetArgs::TxidVerbose("ab".to_owned(), true)),
        ("ab".to_owned(), true)
    );
}

#[test]
fn merkle_proofs_are_told() {
    let rpc = rpc(2);
    assert_eq!(rpc.merkle_block(1).unwrap(), "hash1");
    assert_eq!(rpc.merkle_block(2).unwrap_err(), bad_request("missing block at 2"));
    let txids = vec!["a".to_owned(), "b".to_owned(), "b".to_owned()];
    assert_eq!(merkle_position(&txids, "b").unwrap(), 1);
    assert_eq!(
        merkle_position(&txids, "c").unwrap_err(),
        bad_request("missing tx c for merkle proof")
    );
    assert_eq!(
        proof_to_value(7, 1, vec!["ff".to_owned()]),
        read_json("{\"block_height\":7,\"pos\":1,\"merkle\":[\"ff\"]}").unwrap()
    );
    assert_eq!(
        transaction_get_merkle(7, Some((1, vec!["ff".to_owned()]))),
        ProofSource::Known(proof_to_value(7, 1, vec!["ff".to_owned()]))
    );
    assert_eq!(transaction_get_merkle(7, None), ProofSource::DaemonTxids);
}

#[test]
fn versions_are_negotiated() {
    let rpc = rpc(1);
    let spoken = ("electrs/0.9".to_owned(), "1.4".to_owned());
    assert_eq!(
        rpc.version("wallet", Version::Single("1.4".to_owned())).unwrap(),
        spoken
    );
    assert_eq!(
        rpc.version("wallet", Version::Single("1.\"3".to_owned())).unwrap_err(),
        "wallet requested Single(\"1.\\\"3\"), server supports 1.4"
    );
    assert_eq!(
        rpc.version("w", Version::Range("1.3".to_owned(), "1.4".to_owned())).unwrap_err(),
        "w requested Range(\"1.3\", \"1.4\"), server supports 1.4"
    );
    assert_eq!(rpc.version_anonymous_client().unwrap(), spoken);
    assert_eq!(rpc.version_default_protocol("wallet").unwrap(), spoken);
    assert_eq!(
        rpc.negotiate_version("wallet", Version::Single("1.2".to_owned())),
        Err(DropConnection)
    );
    let read = |text: &str| Version::from_json(read_json(text).unwrap());
    assert_eq!(read("\"1.4\""), Some(Version::Single("1.4".to_owned())));
    assert_eq!(
        read("[\"1.0\",\"1.4\"]"),
        Some(Version::Range("1.0".to_owned(), "1.4".to_owned()))
    );
    assert_eq!(read("[\"1.0\"]"), None);
    assert_eq!(read("[1,2]"), None);
    assert_eq!(read("1.4"), None);
}

#[test]
fn fixed_answers() {
    assert_eq!(banner(), JsonValue::from_text("Welcome to the Electrum Rust Server!"));
    assert_eq!(donation_address(), JsonValue::Null);
    assert_eq!(peers_subscribe(), JsonValue::Array(Vec::new()));
    assert_eq!(ping(), JsonValue::Null);
    assert_eq!(
        notification("m", vec![JsonValue::Null]),
        read_json("{\"jsonrpc\":\"2.0\",\"method\":\"m\",\"params\":[null]}").unwrap()
    );
}

#[test]
fn electrum_errors_have_codes() {
    let told = |error: ElectrumRpcError| match HandleMethodError::from(error) {
        HandleMethodError::ApplicationError(error) => (error.code.code(), error.message),
        other => panic!("{:?}", other),
    };
    assert_eq!(told(ElectrumRpcError::classify("x".to_owned(), false)), (1, "x".to_owned()));
    assert_eq!(told(ElectrumRpcError::classify("y".to_owned(), true)), (2, "y".to_owned()));
}

#[test]
fn the_protocol_is_a_service() {
    let service = protocol_service().unwrap();
    assert_eq!(service.methods.len(), 21);
    assert_eq!(protocol_items().len(), 21);
    let resolve = |method: &str, params: &str| {
        let params = JsonRpcParams::try_from(read_json(params).unwrap()).unwrap();
        service.resolve_method(method, Some(params))
    };
    assert_eq!(resolve("server.version", "[]").unwrap().item, 18);
    assert_eq!(resolve("server.version", "[\"x\"]").unwrap().item, 19);
    assert_eq!(
        resolve("server.version", "{\"protocol_version\":\"1.4\",\"client_name\":\"x\"}")
            .unwrap()
            .arguments[0]
            .0,
        "client_name"
    );
    assert_eq!(resolve("blockchain.block.headers", "[1,2,3]").unwrap().item, 12);
    assert_eq!(
        resolve("blockchain.block.headers", "[1]").unwrap_err(),
        HandleMethodError::InvalidParams {
            message: "invalid number of parameters".to_owned(),
            data: None,
        }
    );
    assert_eq!(
        resolve("blockchain.unknown", "[]").unwrap_err(),
        HandleMethodError::MethodNotFound
    );
}

#[test]
fn peers_come_and_go() {
    let mut peers: Peers<u8, &str> = Peers::new();
    let request = |peer_id: usize| Event {
        peer_id,
        msg: Message::Request("line".to_owned()),
    };
    match peers.handle(request(4)) {
        PeerAction::UnknownPeer { peer_id, line } => {
            assert_eq!((peer_id, line), (4, "line".to_owned()));
        },
        _ => panic!("known"),
    }
    peers.handle(Event { peer_id: 4, msg: Message::New("stream") });
    peers.handle(Event { peer_id: 5, msg: Message::New("other") });
    match peers.handle(request(4)) {
        PeerAction::HandleRequest { peer_id, .. } => assert_eq!(peer_id, 4),
        _ => panic!("unknown"),
    }
    let dropped: Peer<u8, &str> = peers.drop_peer(4).unwrap();
    assert_eq!(dropped.stream, "stream");
    assert!(peers.drop_peer(4).is_none());
    peers.handle(Event { peer_id: 5, msg: Message::Done });
    assert!(peers.peers.is_empty());
}

#[test]
fn the_server_stops_when_told() {
    let step = |wake: Wake<u8>| match on_wake(wake) {
        ServerStep::Stop => "stop".to_owned(),
        ServerStep::Update => "update".to_owned(),
        ServerStep::Handle(event) => format!("handle {}", event.peer_id),
        ServerStep::Fail(message) => message,
    };
    assert_eq!(step(Wake::Signal(Some(meaning(SystemSignal::Terminate)))), "stop");
    assert_eq!(step(Wake::Signal(Some(meaning(SystemSignal::Interrupt)))), "stop");
    assert_eq!(step(Wake::Signal(Some(meaning(SystemSignal::UserDefined)))), "update");
    assert_eq!(meaning(SystemSignal::UserDefined), Signal::Trigger);
    assert_eq!(step(Wake::Signal(None)), "signal channel disconnected");
    assert_eq!(step(Wake::Tip { more: true }), "update");
    assert_eq!(step(Wake::Tip { more: false }), "stop");
    assert_eq!(step(Wake::Event(None)), "server disconnected");
    assert_eq!(step(Wake::Event(Some(Event { peer_id: 3, msg: Message::Done }))), "handle 3");
    let waiting = |waiting: Waiting<u8>| match on_waiting(waiting) {
        ServerStep::Update => "update".to_owned(),
        ServerStep::Handle(event) => format!("handle {}", event.peer_id),
        ServerStep::Fail(message) => message,
        ServerStep::Stop => "stop".to_owned(),
    };
    assert_eq!(waiting(Waiting::Empty), "update");
    assert_eq!(waiting(Waiting::Closed), "server disconnected");
    assert_eq!(
        waiting(Waiting::Event(Event { peer_id: 9, msg: Message::Done })),
        "handle 9"
    );
}

#[test]
fn connections_are_received() {
    let step = |received: Option<Result<String, std::io::Error>>| {
        match on_received::<u8>(12, received) {
            ReceiveStep::Send(event) => match event.msg {
                Message::Request(line) => line,
                _ => panic!("no request"),
            },
            ReceiveStep::Stop => "stop".to_owned(),
            ReceiveStep::Fail(message) => message,
        }
    };
    assert_eq!(step(Some(Ok("line".to_owned()))), "line");
    assert_eq!(step(None), "stop");
    let error = std::io::Error::new(std::io::ErrorKind::Other, "x");
    assert_eq!(step(Some(Err(error))), "12: recv failed");
    assert!(on_tip_passed(TipPassed::Taken).is_ok());
    assert!(on_tip_passed(TipPassed::Full).is_ok());
    assert_eq!(on_tip_passed(TipPassed::Closed).unwrap_err(), "tip receiver disconnected");
}

#[test]
fn lines_of_peers_are_json() {
    assert_eq!(read_request("[1]").unwrap(), read_json("[1]").unwrap());
    assert_eq!(read_request("[1").unwrap_err(), "invalid request: [1");
    assert_eq!(unhandled_request("[1]"), "failed to handle request: [1]");
    assert_eq!(response_line(read_json("[1, 2]").unwrap()), b"[1,2]\n".to_vec());
}
