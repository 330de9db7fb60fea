//! What the methods of the protocol answer.

use crate::electrum::chain;
use crate::electrum::chain::{BlockHeader, Chain, ChainBlockView, MAX_HEADERS};
use crate::electrum::client::{Client, ClientView};
use crate::electrum::error::{ElectrumRpcError, ElectrumRpcErrorView};
use crate::electrum::hex;
use crate::electrum::hex::{from_hex, read_transaction, to_hex, write_transaction};
use crate::json_types::json_rpc_params::JsonRpcParamsView;
use crate::json_types::json_rpc_request;
use crate::json_types::json_rpc_request::{
    JsonRpcRequestFromJsonErrorView, JsonRpcRequestView,
};
use crate::json_value;
use crate::json_value::{JsonMap, JsonValue, JsonView};
use crate::sequences;
use crate::service::DropConnection;
use crate::text;
use crate::text::{decimal, join, join3, text_eq};
use crate::JSON_RPC_VERSION;
use vstd::prelude::*;

verus! {

/// The version of the protocol that the server speaks.
pub const PROTOCOL_VERSION: &'static str = "1.4";

/// What the server says of itself.
pub const BANNER: &'static str = "Welcome to the Electrum Rust Server!";

/// The version of the protocol that a client asks for, or the lowest and the highest that it
/// speaks.
#[derive(Debug, PartialEq)]
pub enum Version {
    Single(String),
    Range(String, String),
}

/// What a `Version` is.
pub enum VersionView {
    Single(Seq<char>),
    Range(Seq<char>, Seq<char>),
}

/// The arguments of `blockchain.transaction.get`: a transaction id, with or without a flag.
#[derive(Debug, PartialEq)]
pub enum TxGetArgs {
    Txid(String),
    TxidVerbose(String, bool),
}

/// What came of bringing the status of a script up to date.
#[derive(Debug, PartialEq)]
pub enum StatusUpdate {
    /// The status is another one than before; its hash, if it has one.
    Changed { scripthash: String, statushash: Option<String> },
    /// The status is the same as before.
    Same,
    /// The status could not be found out.
    Failed,
}

/// What a `StatusUpdate` is.
pub enum StatusUpdateView {
    Changed { scripthash: Seq<char>, statushash: Option<Seq<char>> },
    Same,
    Failed,
}

/// Where a transaction comes from.
#[derive(Debug, PartialEq)]
pub enum TransactionSource {
    /// All that the daemon knows of it.
    DaemonInfo,
    /// What is known of it already.
    Known(JsonValue),
    /// Its bytes, from the daemon.
    DaemonHex,
}

/// What a `TransactionSource` is.
pub enum TransactionSourceView {
    DaemonInfo,
    Known(JsonView),
    DaemonHex,
}

/// Where the proof that a transaction is in a block comes from.
#[derive(Debug, PartialEq)]
pub enum ProofSource {
    /// What is known of it already.
    Known(JsonValue),
    /// The transactions of the block, from the daemon.
    DaemonTxids,
}

/// What a `ProofSource` is.
pub enum ProofSourceView {
    Known(JsonView),
    DaemonTxids,
}

/// The handler of requests, as far as it answers by itself: from the chain, and with the version
/// of the server.
#[derive(Debug)]
pub struct Rpc {
    pub chain: Chain,
    pub electrs_version: String,
}

/// What `Debug` writes for a text: the text in quotes, with escapes.
pub uninterp spec fn quoted_text(text: Seq<char>) -> Seq<char>;

/// `Debug` of `std` on a text. What it writes depends on the text alone.
#[verifier::external_body]
fn quoted(text: &str) -> (quoted: String)
    ensures
        quoted@ == quoted_text(text@),
{
    format!("{:?}", text)
}

/// The notification that a client is sent.
pub open spec fn notification_json(method: Seq<char>, params: Seq<JsonView>) -> JsonView {
    JsonView::Object(
        Map::<Seq<char>, JsonView>::empty().insert("jsonrpc"@, JsonView::String(JSON_RPC_VERSION@)).insert(
            "method"@,
            JsonView::String(method),
        ).insert("params"@, JsonView::Array(params)),
    )
}

/// Makes the notification that a client is sent.
pub fn notification(method: &str, params: Vec<JsonValue>) -> (json: JsonValue)
    ensures
        json@ == notification_json(method@, json_value::values_view(params@)),
{
    let mut map = JsonMap::new();
    map.insert("jsonrpc".to_owned(), JsonValue::from_text(JSON_RPC_VERSION));
    map.insert("method".to_owned(), JsonValue::from_text(method));
    map.insert("params".to_owned(), JsonValue::Array(params));
    JsonValue::Object(map)
}

/// A header and its height, as clients are told them.
pub open spec fn header_json(header: BlockHeader, height: nat) -> JsonView {
    JsonView::Object(
        Map::<Seq<char>, JsonView>::empty().insert("hex"@, JsonView::String(header.hex())).insert(
            "height"@,
            JsonView::Int(height as int),
        ),
    )
}

fn write_header(header: &BlockHeader, height: usize) -> (json: JsonValue)
    ensures
        json@ == header_json(*header, height as nat),
{
    let mut map = JsonMap::new();
    map.insert("hex".to_owned(), JsonValue::String(header.to_hex()));
    map.insert("height".to_owned(), JsonValue::from_u64(height as u64));
    JsonValue::Object(map)
}

/// The tip of a chain, as clients are told it.
pub open spec fn tip_json(blocks: Seq<ChainBlockView>) -> JsonView {
    header_json(blocks.last().header, (blocks.len() - 1) as nat)
}

/// The client is told of the tip of the chain, if it has asked for it and was told of another.
pub open spec fn tip_is_news<S>(client: ClientView<S>, blocks: Seq<ChainBlockView>) -> bool {
    client.tip matches Some(tip) && tip != blocks.last().hash
}

/// What a client is told of a script whose status has changed.
pub open spec fn status_json(scripthash: Seq<char>, statushash: Option<Seq<char>>) -> JsonView {
    let shown = match statushash {
        Some(statushash) => JsonView::String(statushash),
        None => JsonView::Null,
    };
    notification_json(
        "blockchain.scripthash.subscribe"@,
        seq![JsonView::String(scripthash), shown],
    )
}

/// What a client is told of its scripts: one notification for each that has changed.
pub open spec fn status_notifications(updates: Seq<StatusUpdateView>) -> Seq<JsonView>
    decreases updates.len(),
{
    if updates.len() == 0 {
        Seq::empty()
    } else {
        let front = status_notifications(updates.drop_last());
        match updates.last() {
            StatusUpdateView::Changed { scripthash, statushash } => front.push(
                status_json(scripthash, statushash),
            ),
            _ => front,
        }
    }
}

/// The updates that failed.
pub open spec fn has_failed() -> spec_fn(StatusUpdateView) -> bool {
    |update: StatusUpdateView| update is Failed
}

/// What a client is told once its scripts are brought up to date: of the scripts, then of the tip.
pub open spec fn news<S>(
    client: ClientView<S>,
    blocks: Seq<ChainBlockView>,
    updates: Seq<StatusUpdateView>,
) -> Seq<JsonView> {
    if tip_is_news(client, blocks) {
        status_notifications(updates).push(
            notification_json("blockchain.headers.subscribe"@, seq![tip_json(blocks)]),
        )
    } else {
        status_notifications(updates)
    }
}

/// The client once it is told of the tip, if it is told.
pub open spec fn after_news<S>(client: ClientView<S>, blocks: Seq<ChainBlockView>) -> ClientView<S> {
    if tip_is_news(client, blocks) {
        ClientView { tip: Some(blocks.last().hash), ..client }
    } else {
        client
    }
}

/// A client is told of a tip once: as long as the chain stays the same and no status changes,
/// there are no more news.
pub proof fn news_are_told_once<S>(
    client: ClientView<S>,
    blocks: Seq<ChainBlockView>,
    updates: Seq<StatusUpdateView>,
)
    requires
        forall|i: int| #![trigger updates[i]] 0 <= i < updates.len() ==> updates[i] is Same,
    ensures
        news(after_news(client, blocks), blocks, updates).len() == 0,
    decreases updates.len(),
{
    if updates.len() > 0 {
        let front = updates.drop_last();
        assert forall|i: int| #![trigger front[i]] 0 <= i < front.len() implies front[i] is Same by {
            assert(front[i] == updates[i]);
        }
        news_are_told_once(client, blocks, front);
        assert(updates[updates.len() - 1] is Same);
    }
}

/// A client that has not asked for the tip is not told of it.
pub proof fn tip_is_told_on_request_only<S>(
    client: ClientView<S>,
    blocks: Seq<ChainBlockView>,
    updates: Seq<StatusUpdateView>,
)
    requires
        client.tip is None,
    ensures
        news(client, blocks, updates) == status_notifications(updates),
        after_news(client, blocks) == client,
{
}

/// What a client is sent is a notification: a request without an id, with that method and those
/// parameters.
pub proof fn notification_is_a_request(method: Seq<char>, params: Seq<JsonView>)
    ensures
        json_rpc_request::request_from_json(notification_json(method, params)) == Ok::<
            JsonRpcRequestView,
            JsonRpcRequestFromJsonErrorView,
        >(JsonRpcRequestView { method, params: Some(JsonRpcParamsView::Array(params)), id: None }),
{
    let request = JsonRpcRequestView {
        method,
        params: Some(JsonRpcParamsView::Array(params)),
        id: None,
    };
    json_rpc_request::request_round_trip(request);
    assert(notification_json(method, params)->Object_0 =~= request.to_json()->Object_0);
}

/// A JSON value has just the given fields.
pub open spec fn has_just_fields(json: JsonView, names: Set<Seq<char>>) -> bool {
    json is Object && json->Object_0.dom() == names
}

/// A client is told the header of the tip in hexadecimal digits, and its height.
pub proof fn tip_is_told_with_its_height(blocks: Seq<ChainBlockView>)
    requires
        blocks.len() > 0,
    ensures
        has_just_fields(tip_json(blocks), set!["hex"@, "height"@]),
        tip_json(blocks)->Object_0["height"@] == JsonView::Int(blocks.len() - 1),
        tip_json(blocks)->Object_0["hex"@] == JsonView::String(
            blocks[blocks.len() - 1].header.hex(),
        ),
{
    answer_names_differ();
    assert(tip_json(blocks)->Object_0.dom() =~= set!["hex"@, "height"@]);
}

proof fn answer_names_differ()
    ensures
        "hex"@ != "height"@,
        "count"@ != "hex"@,
        "count"@ != "max"@,
        "hex"@ != "max"@,
        "block_height"@ != "pos"@,
        "block_height"@ != "merkle"@,
        "pos"@ != "merkle"@,
{
    reveal_strlit("hex");
    reveal_strlit("height");
    reveal_strlit("count");
    reveal_strlit("max");
    reveal_strlit("block_height");
    reveal_strlit("pos");
    reveal_strlit("merkle");
    assert("hex"@[0] == 'h' && "max"@[0] == 'm');
    assert("hex"@.len() == 3 && "max"@.len() == 3 && "height"@.len() == 6 && "count"@.len() == 5);
    assert("block_height"@.len() == 12 && "pos"@.len() == 3 && "merkle"@.len() == 6);
}

/// A client is told of a script with the method of the subscription, the script, and the hash of
/// its status, or null where there is none.
pub proof fn status_is_told_with_its_script(scripthash: Seq<char>, statushash: Option<Seq<char>>)
    ensures
        json_rpc_request::request_from_json(status_json(scripthash, statushash)) is Ok,
        ({
            let request = json_rpc_request::request_from_json(
                status_json(scripthash, statushash),
            )->Ok_0;
            &&& request.method == "blockchain.scripthash.subscribe"@
            &&& request.id is None
            &&& request.params matches Some(JsonRpcParamsView::Array(params))
            &&& params.len() == 2
            &&& params[0] == JsonView::String(scripthash)
            &&& statushash is Some ==> params[1] == JsonView::String(statushash->0)
            &&& statushash is None ==> params[1] == JsonView::Null
        }),
{
    let shown = match statushash {
        Some(statushash) => JsonView::String(statushash),
        None => JsonView::Null,
    };
    notification_is_a_request(
        "blockchain.scripthash.subscribe"@,
        seq![JsonView::String(scripthash), shown],
    );
}

/// The updates that clients are told of.
pub open spec fn has_changed() -> spec_fn(StatusUpdateView) -> bool {
    |update: StatusUpdateView| update is Changed
}

proof fn changes_are_filtered(updates: Seq<StatusUpdateView>)
    ensures
        status_notifications(updates).len() == updates.filter(has_changed()).len(),
        forall|k: int|
            #![trigger status_notifications(updates)[k]]
            0 <= k < status_notifications(updates).len() ==> {
                let change = updates.filter(has_changed())[k];
                &&& change is Changed
                &&& status_notifications(updates)[k] == status_json(
                    change->scripthash,
                    change->statushash,
                )
            },
    decreases updates.len(),
{
    reveal(Seq::filter);
    if updates.len() > 0 {
        let front = updates.drop_last();
        changes_are_filtered(front);
        assert forall|k: int|
            #![trigger status_notifications(updates)[k]]
            0 <= k < status_notifications(updates).len() implies {
            let change = updates.filter(has_changed())[k];
            &&& change is Changed
            &&& status_notifications(updates)[k] == status_json(
                change->scripthash,
                change->statushash,
            )
        } by {
            if k < status_notifications(front).len() {
                assert(status_notifications(updates)[k] == status_notifications(front)[k]);
                assert(updates.filter(has_changed())[k] == front.filter(has_changed())[k]);
            }
        }
    }
}

/// A client is told of each script that has changed, once and in their order, whether or not the tip
/// is news; behind that, and only where it has asked for the tip and was told of another, it is
/// told of the tip, once.
pub proof fn all_news_are_told<S>(
    client: ClientView<S>,
    blocks: Seq<ChainBlockView>,
    updates: Seq<StatusUpdateView>,
)
    requires
        blocks.len() > 0,
    ensures
        ({
            let told = news(client, blocks, updates);
            let changes = updates.filter(has_changed());
            let new_tip = client.tip is Some && client.tip->0 != blocks[blocks.len() - 1].hash;
            &&& told.len() == changes.len() + if new_tip { 1nat } else { 0nat }
            &&& forall|k: int|
                #![trigger told[k]]
                0 <= k < changes.len() ==> changes[k] is Changed && told[k] == status_json(
                    changes[k]->scripthash,
                    changes[k]->statushash,
                )
            &&& new_tip ==> {
                let request = json_rpc_request::request_from_json(told[changes.len() as int]);
                &&& request is Ok
                &&& request->Ok_0.method == "blockchain.headers.subscribe"@
                &&& request->Ok_0.id is None
                &&& request->Ok_0.params == Some(
                    JsonRpcParamsView::Array(seq![tip_json(blocks)]),
                )
            }
        }),
{
    let told = news(client, blocks, updates);
    let changes = updates.filter(has_changed());
    changes_are_filtered(updates);
    notification_is_a_request("blockchain.headers.subscribe"@, seq![tip_json(blocks)]);
    assert forall|k: int| #![trigger told[k]] 0 <= k < changes.len() implies changes[k] is Changed
        && told[k] == status_json(changes[k]->scripthash, changes[k]->statushash) by {
        assert(told[k] == status_notifications(updates)[k]);
    }
}

/// Once a client that has asked for the tip is told the news, the tip that it was told of is that of
/// the chain; its subscriptions stay as they are.
pub proof fn told_tip_is_the_tip<S>(client: ClientView<S>, blocks: Seq<ChainBlockView>)
    requires
        blocks.len() > 0,
    ensures
        after_news(client, blocks).status == client.status,
        client.tip is Some ==> after_news(client, blocks).tip == Some(
            blocks[blocks.len() - 1].hash,
        ),
        client.tip is None ==> after_news(client, blocks).tip is None,
{
}

/// The answer to a request for headers says how many there are, holds the header of each block from
/// `start` on, and says how many there are at most.
pub proof fn headers_are_told_in_order(
    blocks: Seq<ChainBlockView>,
    start: nat,
    count: nat,
    i: nat,
)
    requires
        blocks.len() > 0,
    ensures
        has_just_fields(headers_json(blocks, start, count), set!["count"@, "hex"@, "max"@]),
        headers_json(blocks, start, count)->Object_0["max"@] == JsonView::Int(2016),
        headers_json(blocks, start, count)->Object_0["count"@] is Int,
        headers_json(blocks, start, count)->Object_0["hex"@] is String,
        ({
            let told = headers_json(blocks, start, count)->Object_0["count"@]->Int_0;
            let text = headers_json(blocks, start, count)->Object_0["hex"@]->String_0;
            &&& 0 <= told <= count
            &&& told <= 2016
            &&& start >= blocks.len() ==> told == 0
            &&& start < blocks.len() ==> start + told <= blocks.len()
            &&& start < blocks.len() ==> told == count || told == 2016 || start + told
                == blocks.len()
            &&& text.len() == 160 * told
            &&& i < told ==> text.subrange(160 * i as int, 160 * (i + 1) as int) == blocks[(start
                + i) as int].header.hex()
        }),
{
    answer_names_differ();
    let len = chain::window((blocks.len() - 1) as nat, start, count);
    chain::window_is_as_wide_as_it_can_be((blocks.len() - 1) as nat, start, count);
    chain::headers_have_fixed_size(blocks, start, len);
    if i < len {
        chain::headers_come_in_order(blocks, start, len, i);
    }
    assert(headers_json(blocks, start, count)->Object_0.dom() =~= set![
        "count"@,
        "hex"@,
        "max"@,
    ]);
}

/// A header is given exactly where there is a block at the height, and it is that of the block.
pub proof fn header_is_that_of_the_height(blocks: Seq<ChainBlockView>, height: nat)
    ensures
        header_answer(blocks, height) is Ok <==> height < blocks.len(),
        height < blocks.len() ==> hex::hex_bytes(header_answer(blocks, height)->Ok_0) == Some(
            blocks[height as int].header.bytes(),
        ),
        header_answer(blocks, height) matches Err(error) ==> error is BadRequest && text::ends_with(
            error->BadRequest_message,
            text::decimal_text(height),
        ),
{
    if height < blocks.len() {
        hex::hex_round_trip(blocks[height as int].header.bytes());
    } else {
        text::what_is_put_behind_ends_it("no header at "@, text::decimal_text(height));
    }
}

/// A transaction is read out of the digits of its bytes, exactly where those bytes are one.
pub proof fn transaction_is_read_from_its_digits(bytes: Seq<u8>)
    ensures
        hex::transaction_of(bytes) is Some ==> transaction_from_hex(hex::hex_text(bytes)) == Ok::<
            bitcoin::Transaction,
            ElectrumRpcErrorView,
        >(hex::transaction_of(bytes)->0),
        hex::transaction_of(bytes) is None ==> transaction_from_hex(hex::hex_text(bytes)) is Err,
{
    hex::hex_round_trip(bytes);
}

/// What is no pair of digits for each byte is no transaction, and what is read was written in the
/// digits.
pub proof fn only_digits_are_a_transaction(tx_hex: Seq<char>)
    ensures
        transaction_from_hex(tx_hex) is Ok <==> hex::hex_bytes(tx_hex) is Some
            && hex::transaction_of(hex::hex_bytes(tx_hex)->0) is Some,
        transaction_from_hex(tx_hex) is Ok ==> hex::transaction_of(hex::hex_bytes(tx_hex)->0)
            == Some(transaction_from_hex(tx_hex)->Ok_0),
        transaction_from_hex(tx_hex) matches Err(error) ==> error
            == (ElectrumRpcErrorView::BadRequest {
            message: if hex::hex_bytes(tx_hex) is None {
                "non-hex transaction"@
            } else {
                "invalid transaction"@
            },
        }),
{
}

/// A proof says at which height the block is, where the transaction stands in it, and the branch.
pub proof fn proof_tells_the_place(height: nat, position: nat, merkle: Seq<String>)
    ensures
        has_just_fields(
            proof_json(height, position, texts_json(merkle)),
            set!["block_height"@, "pos"@, "merkle"@],
        ),
        ({
            let fields = proof_json(height, position, texts_json(merkle))->Object_0;
            &&& fields["block_height"@] == JsonView::Int(height as int)
            &&& fields["pos"@] == JsonView::Int(position as int)
            &&& fields["merkle"@] is Array
            &&& fields["merkle"@]->Array_0.len() == merkle.len()
            &&& forall|i: int|
                #![trigger fields["merkle"@]->Array_0[i]]
                0 <= i < merkle.len() ==> fields["merkle"@]->Array_0[i] == JsonView::String(
                    merkle[i]@,
                )
        }),
{
    answer_names_differ();
    assert(proof_json(height, position, texts_json(merkle))->Object_0.dom() =~= set![
        "block_height"@,
        "pos"@,
        "merkle"@,
    ]);
}

/// A client is answered exactly where it asks for the one version that is spoken. The answer names
/// the version of the server at its end and the version of the protocol; the refusal begins with
/// the name of the client.
pub proof fn spoken_version_is_answered(
    electrs_version: Seq<char>,
    client_id: Seq<char>,
    client_version: VersionView,
)
    ensures
        ({
            let answer = version_answer(electrs_version, client_id, client_version);
            &&& answer is Ok <==> client_version is Single && client_version->Single_0 == "1.4"@
            &&& answer is Ok ==> answer->Ok_0.1 == "1.4"@
            &&& answer is Ok ==> answer->Ok_0.0.len() >= electrs_version.len()
                && answer->Ok_0.0.skip(answer->Ok_0.0.len() - electrs_version.len())
                == electrs_version
            &&& answer is Err ==> client_id.is_prefix_of(answer->Err_0)
        }),
{
    let answer = version_answer(electrs_version, client_id, client_version);
    if answer is Ok {
        assert(answer->Ok_0.0.skip(answer->Ok_0.0.len() - electrs_version.len())
            =~= electrs_version);
    } else {
        assert(answer->Err_0.take(client_id.len() as int) =~= client_id);
    }
}

/// A refusal shows the version that was asked for, and ends with the one that is spoken.
pub proof fn refusal_shows_the_version(
    electrs_version: Seq<char>,
    client_id: Seq<char>,
    client_version: VersionView,
)
    requires
        version_answer(electrs_version, client_id, client_version) is Err,
    ensures
        text::holds(
            version_answer(electrs_version, client_id, client_version)->Err_0,
            client_version.shown(),
        ),
        text::ends_with(
            version_answer(electrs_version, client_id, client_version)->Err_0,
            "1.4"@,
        ),
{
    let front = client_id + " requested "@;
    let shown = client_version.shown();
    let told = version_answer(electrs_version, client_id, client_version)->Err_0;
    text::what_is_put_between_stands_there(front, shown, ", server supports "@ + "1.4"@);
    text::what_is_put_behind_ends_it(front + shown + ", server supports "@, "1.4"@);
    assert(told =~= front + shown + ", server supports "@ + "1.4"@);
}

/// Where a version is shown, each text that it is made up of is.
pub proof fn version_is_shown_whole(low: Seq<char>, high: Seq<char>)
    ensures
        text::holds(VersionView::Single(low).shown(), quoted_text(low)),
        text::holds(VersionView::Range(low, high).shown(), quoted_text(low)),
        text::holds(VersionView::Range(low, high).shown(), quoted_text(high)),
{
    let first = quoted_text(low);
    let second = quoted_text(high);
    text::what_is_put_between_stands_there("Single("@, first, ")"@);
    text::what_is_put_between_stands_there("Range("@, first, ", "@ + second + ")"@);
    text::what_is_put_between_stands_there("Range("@ + first + ", "@, second, ")"@);
    assert(VersionView::Range(low, high).shown() =~= "Range("@ + first + ", "@ + second + ")"@);
}

/// A version is a text, or a pair of texts, the lowest and the highest in that order.
pub proof fn version_is_text_or_pair(json: JsonView)
    ensures
        json is String ==> version_from_json(json) == Some(VersionView::Single(json->String_0)),
        version_from_json(json) matches Some(VersionView::Single(version)) ==> json
            == JsonView::String(version),
        version_from_json(json) matches Some(VersionView::Range(low, high)) ==> json is Array
            && json->Array_0 == seq![JsonView::String(low), JsonView::String(high)],
        json is Array && json->Array_0.len() == 2 && json->Array_0[0] is String
            && json->Array_0[1] is String ==> version_from_json(json) is Some,
{
    if json is Array && json->Array_0.len() == 2 && json->Array_0[0] is String
        && json->Array_0[1] is String {
        assert(json->Array_0 =~= seq![
            JsonView::String(json->Array_0[0]->String_0),
            JsonView::String(json->Array_0[1]->String_0),
        ]);
    }
}

impl StatusUpdate {
    /// What the update is.
    pub open spec fn view(&self) -> StatusUpdateView {
        match *self {
            StatusUpdate::Changed { scripthash, statushash } => StatusUpdateView::Changed {
                scripthash: scripthash@,
                statushash: text::text_option_view(statushash),
            },
            StatusUpdate::Same => StatusUpdateView::Same,
            StatusUpdate::Failed => StatusUpdateView::Failed,
        }
    }
}

/// What updates are.
pub open spec fn updates_view(updates: Seq<StatusUpdate>) -> Seq<StatusUpdateView> {
    updates.map_values(|update: StatusUpdate| update@)
}

/// Makes what a client is told of a script whose status has changed.
fn write_status(scripthash: String, statushash: Option<String>) -> (json: JsonValue)
    ensures
        json@ == status_json(scripthash@, text::text_option_view(statushash)),
{
    let status = match statushash {
        Some(statushash) => JsonValue::String(statushash),
        None => JsonValue::Null,
    };
    let mut params: Vec<JsonValue> = Vec::new();
    params.push(JsonValue::String(scripthash));
    params.push(status);
    proof {
        let shown = match text::text_option_view(statushash) {
            Some(statushash) => JsonView::String(statushash),
            None => JsonView::Null,
        };
        assert(status@ == shown);
        assert(json_value::values_view(params@) =~= seq![JsonView::String(scripthash@), shown]);
    }
    notification("blockchain.scripthash.subscribe", params)
}

/// Headers as clients are told them, from `start` on.
pub open spec fn headers_json(blocks: Seq<ChainBlockView>, start: nat, count: nat) -> JsonView {
    let len = chain::window((blocks.len() - 1) as nat, start, count);
    JsonView::Object(
        Map::<Seq<char>, JsonView>::empty().insert("count"@, JsonView::Int(len as int)).insert(
            "hex"@,
            JsonView::String(chain::headers_hex(blocks, start, len)),
        ).insert("max"@, JsonView::Int(MAX_HEADERS as int)),
    )
}

/// The answer to a request for a header.
pub open spec fn header_answer(blocks: Seq<ChainBlockView>, height: nat) -> Result<
    Seq<char>,
    ElectrumRpcErrorView,
> {
    if height < blocks.len() {
        Ok(blocks[height as int].header.hex())
    } else {
        Err(
            ElectrumRpcErrorView::BadRequest {
                message: "no header at "@ + text::decimal_text(height),
            },
        )
    }
}

/// What is said to a client that asks for a proof up to a checkpoint.
pub open spec fn checkpoint_error() -> ElectrumRpcErrorView {
    ElectrumRpcErrorView::BadRequest { message: "cp_height argument not supported"@ }
}

/// The transaction that hexadecimal digits are.
pub open spec fn transaction_from_hex(tx_hex: Seq<char>) -> Result<
    bitcoin::Transaction,
    ElectrumRpcErrorView,
> {
    match hex::hex_bytes(tx_hex) {
        None => Err(ElectrumRpcErrorView::BadRequest { message: "non-hex transaction"@ }),
        Some(bytes) => transaction_from_bytes(hex::transaction_of(bytes)),
    }
}

/// The transaction that was read, or what is said where none could be.
pub open spec fn transaction_from_bytes(read: Option<bitcoin::Transaction>) -> Result<
    bitcoin::Transaction,
    ElectrumRpcErrorView,
> {
    match read {
        Some(transaction) => Ok(transaction),
        None => Err(ElectrumRpcErrorView::BadRequest { message: "invalid transaction"@ }),
    }
}

/// A proof that a transaction is in a block, as clients are told it.
pub open spec fn proof_json(height: nat, position: nat, merkle: Seq<JsonView>) -> JsonView {
    JsonView::Object(
        Map::<Seq<char>, JsonView>::empty().insert(
            "block_height"@,
            JsonView::Int(height as int),
        ).insert("pos"@, JsonView::Int(position as int)).insert("merkle"@, JsonView::Array(merkle)),
    )
}

/// The transactions with the given id.
pub open spec fn has_id(txid: Seq<char>) -> spec_fn(String) -> bool {
    |current: String| current@ == txid
}

/// What texts are as JSON values.
pub open spec fn texts_json(texts: Seq<String>) -> Seq<JsonView> {
    texts.map_values(|text: String| JsonView::String(text@))
}

impl Version {
    /// What the version is.
    pub open spec fn view(&self) -> VersionView {
        match *self {
            Version::Single(version) => VersionView::Single(version@),
            Version::Range(low, high) => VersionView::Range(low@, high@),
        }
    }
}

impl VersionView {
    /// The version as it is shown to people.
    pub open spec fn shown(self) -> Seq<char> {
        match self {
            VersionView::Single(version) => "Single("@ + quoted_text(version) + ")"@,
            VersionView::Range(low, high) => "Range("@ + quoted_text(low) + (", "@ + quoted_text(
                high,
            ) + ")"@),
        }
    }
}

/// The version that a JSON value is: a text, or an array of two.
pub open spec fn version_from_json(json: JsonView) -> Option<VersionView> {
    match json {
        JsonView::String(version) => Some(VersionView::Single(version)),
        JsonView::Array(items) => if items.len() == 2 && items[0] is String && items[1] is String {
            Some(VersionView::Range(items[0]->String_0, items[1]->String_0))
        } else {
            None
        },
        _ => None,
    }
}

/// The answer to a client that asks for a version: the name and the version of the server, or what
/// is said where it does not speak the version.
pub open spec fn version_answer(
    electrs_version: Seq<char>,
    client_id: Seq<char>,
    client_version: VersionView,
) -> Result<(Seq<char>, Seq<char>), Seq<char>> {
    if client_version == VersionView::Single(PROTOCOL_VERSION@) {
        Ok(("electrs/"@ + electrs_version, PROTOCOL_VERSION@))
    } else {
        Err(
            client_id + " requested "@ + client_version.shown() + (", server supports "@
                + PROTOCOL_VERSION@),
        )
    }
}

impl Version {
    /// Reads the version that a JSON value is.
    pub fn from_json(json: JsonValue) -> (version: Option<Version>)
        ensures
            match version {
                Some(version) => version_from_json(json@) == Some(version@),
                None => version_from_json(json@) is None,
            },
    {
        match json {
            JsonValue::String(version) => Some(Version::Single(version)),
            JsonValue::Array(items) => {
                let ghost all = json_value::values_view(items@);
                if items.len() != 2 {
                    return None;
                }
                assert(all[0] == items@[0]@ && all[1] == items@[1]@);
                match (&items[0], &items[1]) {
                    (JsonValue::String(low), JsonValue::String(high)) => Some(
                        Version::Range(low.clone(), high.clone()),
                    ),
                    _ => None,
                }
            },
            _ => None,
        }
    }

    /// Shows the version to people.
    pub fn show(&self) -> (shown: String)
        ensures
            shown@ == self@.shown(),
    {
        match self {
            Version::Single(version) => join3("Single(", quoted(version.as_str()).as_str(), ")"),
            Version::Range(low, high) => join3(
                "Range(",
                quoted(low.as_str()).as_str(),
                join3(", ", quoted(high.as_str()).as_str(), ")").as_str(),
            ),
        }
    }
}

impl From<TxGetArgs> for (String, bool) {
    fn from(args: TxGetArgs) -> (pair: (String, bool))
        ensures
            args is Txid ==> pair.0 == args->Txid_0 && !pair.1,
            args is TxidVerbose ==> pair.0 == args->TxidVerbose_0 && pair.1
                == args->TxidVerbose_1,
    {
        match args {
            TxGetArgs::Txid(txid) => (txid, false),
            TxGetArgs::TxidVerbose(txid, verbose) => (txid, verbose),
        }
    }
}

impl vstd::std_specs::convert::FromSpecImpl<TxGetArgs> for (String, bool) {
    open spec fn obeys_from_spec() -> bool {
        true
    }

    open spec fn from_spec(args: TxGetArgs) -> (String, bool) {
        match args {
            TxGetArgs::Txid(txid) => (txid, false),
            TxGetArgs::TxidVerbose(txid, verbose) => (txid, verbose),
        }
    }
}

impl ProofSource {
    /// What the source is.
    pub open spec fn view(&self) -> ProofSourceView {
        match *self {
            ProofSource::Known(json) => ProofSourceView::Known(json@),
            ProofSource::DaemonTxids => ProofSourceView::DaemonTxids,
        }
    }
}

impl TransactionSource {
    /// Where the transaction comes from.
    pub open spec fn view(&self) -> TransactionSourceView {
        match *self {
            TransactionSource::DaemonInfo => TransactionSourceView::DaemonInfo,
            TransactionSource::Known(json) => TransactionSourceView::Known(json@),
            TransactionSource::DaemonHex => TransactionSourceView::DaemonHex,
        }
    }
}

/// What an answer is.
pub open spec fn json_answer_view(answer: Result<JsonValue, ElectrumRpcError>) -> Result<
    JsonView,
    ElectrumRpcErrorView,
> {
    match answer {
        Ok(json) => Ok(json@),
        Err(error) => Err(error@),
    }
}

/// What an answer is.
pub open spec fn text_answer_view(answer: Result<String, ElectrumRpcError>) -> Result<
    Seq<char>,
    ElectrumRpcErrorView,
> {
    match answer {
        Ok(text) => Ok(text@),
        Err(error) => Err(error@),
    }
}

/// Reads the transaction that a client hands over as hexadecimal digits.
pub fn transaction_broadcast(tx_hex: &str) -> (transaction: Result<
    bitcoin::Transaction,
    ElectrumRpcError,
>)
    ensures
        match transaction {
            Ok(transaction) => transaction_from_hex(tx_hex@) == Ok::<
                bitcoin::Transaction,
                ElectrumRpcErrorView,
            >(transaction),
            Err(error) => transaction_from_hex(tx_hex@) == Err::<
                bitcoin::Transaction,
                ElectrumRpcErrorView,
            >(error@),
        },
{
    let tx_bytes = match from_hex(tx_hex) {
        Some(tx_bytes) => tx_bytes,
        None => return Err(
            ElectrumRpcError::BadRequest { message: "non-hex transaction".to_owned() },
        ),
    };
    accept_transaction(read_transaction(tx_bytes.as_slice()))
}

/// Takes the transaction that was read, or says that none could be.
pub fn accept_transaction(read: Option<bitcoin::Transaction>) -> (transaction: Result<
    bitcoin::Transaction,
    ElectrumRpcError,
>)
    ensures
        match transaction {
            Ok(transaction) => transaction_from_bytes(read) == Ok::<
                bitcoin::Transaction,
                ElectrumRpcErrorView,
            >(transaction),
            Err(error) => transaction_from_bytes(read) == Err::<
                bitcoin::Transaction,
                ElectrumRpcErrorView,
            >(error@),
        },
{
    match read {
        Some(transaction) => Ok(transaction),
        None => Err(ElectrumRpcError::BadRequest { message: "invalid transaction".to_owned() }),
    }
}

/// Writes a transaction in hexadecimal digits.
pub fn transaction_hex(transaction: &bitcoin::Transaction) -> (text: String)
    ensures
        text@ == hex::hex_text(hex::transaction_bytes(*transaction)),
{
    to_hex(write_transaction(transaction).as_slice())
}

/// Decides where a transaction comes from: all that is known of it from the daemon, its bytes from
/// what is held already, and else from the daemon.
pub fn transaction_get(verbose: bool, cached: Option<String>) -> (source: TransactionSource)
    ensures
        source@ == if verbose {
            TransactionSourceView::DaemonInfo
        } else {
            match cached {
                Some(tx_hex) => TransactionSourceView::Known(JsonView::String(tx_hex@)),
                None => TransactionSourceView::DaemonHex,
            }
        },
{
    if verbose {
        return TransactionSource::DaemonInfo;
    }
    match cached {
        Some(tx_hex) => TransactionSource::Known(JsonValue::String(tx_hex)),
        None => TransactionSource::DaemonHex,
    }
}

/// Makes the proof that a transaction is in a block, as clients are told it.
pub fn proof_to_value(height: usize, position: usize, merkle: Vec<String>) -> (json: JsonValue)
    ensures
        json@ == proof_json(height as nat, position as nat, texts_json(merkle@)),
{
    let mut items: Vec<JsonValue> = Vec::new();
    for text in rest: merkle
        invariant
            rest.seq() == merkle@,
            items@.len() == rest.index(),
            forall|i: int|
                #![trigger items@[i]]
                0 <= i < items@.len() ==> items@[i]@ == JsonView::String(merkle@[i]@),
    {
        assert(text == merkle@[rest.index() as int]);
        items.push(JsonValue::String(text));
    }
    assert(json_value::values_view(items@) =~= texts_json(merkle@));
    let mut map = JsonMap::new();
    map.insert("block_height".to_owned(), JsonValue::from_u64(height as u64));
    map.insert("pos".to_owned(), JsonValue::from_u64(position as u64));
    map.insert("merkle".to_owned(), JsonValue::Array(items));
    JsonValue::Object(map)
}

/// Decides where the proof that a transaction is in the block at a height comes from: from what is
/// held already, a position and a branch, and else from the transactions of the block.
pub fn transaction_get_merkle(height: usize, cached: Option<(usize, Vec<String>)>) -> (source:
    ProofSource)
    ensures
        source@ == match cached {
            Some((position, merkle)) => ProofSourceView::Known(
                proof_json(height as nat, position as nat, texts_json(merkle@)),
            ),
            None => ProofSourceView::DaemonTxids,
        },
{
    match cached {
        Some((position, merkle)) => ProofSource::Known(proof_to_value(height, position, merkle)),
        None => ProofSource::DaemonTxids,
    }
}

/// Subscribes a client to a script and answers with the hash of its status, once the status was
/// found out; else says why it was not.
pub fn scripthash_subscribe<S>(
    client: &mut Client<S>,
    scripthash: String,
    updated: Result<(S, String), ElectrumRpcError>,
) -> (answer: Result<JsonValue, ElectrumRpcError>)
    ensures
        match updated {
            Ok((status, statushash)) => {
                &&& answer is Ok
                &&& answer->Ok_0@ == JsonView::String(statushash@)
                &&& final(client)@ == old(client)@.subscribed(scripthash@, status)
            },
            Err(error) => {
                &&& answer is Err
                &&& answer->Err_0@ == error@
                &&& *final(client) == *old(client)
            },
        },
{
    match updated {
        Ok((status, statushash)) => {
            client.subscribe(scripthash, status);
            Ok(JsonValue::String(statushash))
        },
        Err(error) => Err(error),
    }
}

/// Finds the first place of a transaction among those of its block.
pub fn merkle_position(txids: &Vec<String>, txid: &str) -> (position: Result<
    usize,
    ElectrumRpcError,
>)
    ensures
        match position {
            Ok(position) => {
                &&& sequences::first_index(txids@, has_id(txid@)) == Some(position as int)
                &&& position < txids@.len()
                &&& txids@[position as int]@ == txid@
                &&& forall|i: int| #![trigger txids@[i]] 0 <= i < position ==> txids@[i]@ != txid@
            },
            Err(error) => {
                &&& sequences::first_index(txids@, has_id(txid@)) is None
                &&& forall|i: int| #![trigger txids@[i]] 0 <= i < txids@.len() ==> txids@[i]@
                    != txid@
                &&& error@ == (ElectrumRpcErrorView::BadRequest {
                    message: "missing tx "@ + txid@ + " for merkle proof"@,
                })
            },
        },
{
    for position in 0..txids.len()
        invariant
            forall|i: int|
                #![trigger txids@[i]]
                0 <= i < position ==> !has_id(txid@)(txids@[i]),
    {
        if text_eq(txids[position].as_str(), txid) {
            proof {
                sequences::first_index_found(txids@, has_id(txid@), position as int);
            }
            return Ok(position);
        }
    }
    proof {
        sequences::first_index_exists(txids@, has_id(txid@));
    }
    Err(
        ElectrumRpcError::BadRequest {
            message: join3("missing tx ", txid, " for merkle proof"),
        },
    )
}

impl Rpc {
    /// Answers from a chain.
    pub fn new(chain: Chain, electrs_version: String) -> (rpc: Rpc)
        ensures
            rpc == (Rpc { chain, electrs_version }),
    {
        Rpc { chain, electrs_version }
    }

    /// Makes what a client is told once its scripts are brought up to date; `updates` say what
    /// came of that. Where one failed, the client is told nothing, and the index of the first that
    /// did comes back.
    pub fn update_client<S>(&self, client: &mut Client<S>, updates: Vec<StatusUpdate>) -> (told:
        Result<Vec<JsonValue>, usize>)
        ensures
            match told {
                Ok(notifications) => {
                    &&& sequences::first_index(updates_view(updates@), has_failed()) is None
                    &&& json_value::values_view(notifications@) == news(
                        old(client)@,
                        self.chain@,
                        updates_view(updates@),
                    )
                    &&& final(client)@ == after_news(old(client)@, self.chain@)
                    &&& forall|i: int|
                        #![trigger updates@[i]]
                        0 <= i < updates@.len() ==> !(updates@[i] is Failed)
                },
                Err(index) => {
                    &&& index < updates@.len()
                    &&& updates@[index as int] is Failed
                    &&& forall|i: int|
                        #![trigger updates@[i]]
                        0 <= i < index ==> !(updates@[i] is Failed)
                    &&& sequences::first_index(updates_view(updates@), has_failed()) == Some(
                        index as int,
                    )
                    &&& final(client)@ == old(client)@
                },
            },
    {
        let ghost all = updates_view(updates@);
        let mut notifications: Vec<JsonValue> = Vec::new();
        let mut index: usize = 0;
        let len: usize = updates.len();
        assert(json_value::values_view(notifications@) =~= Seq::empty());
        for update in rest: updates
            invariant
                rest.seq() == updates@,
                all == updates_view(updates@),
                len == updates@.len(),
                index == rest.index(),
                client@ == old(client)@,
                forall|i: int| #![trigger all[i]] 0 <= i < index ==> !(all[i] is Failed),
                forall|i: int| #![trigger updates@[i]] 0 <= i < index ==> !(updates@[i] is Failed),
                json_value::values_view(notifications@) == status_notifications(
                    all.take(index as int),
                ),
        {
            let ghost before = notifications@;
            assert(update == updates@[index as int]);
            assert(all[index as int] == update@);
            assert(all.take(index + 1).drop_last() =~= all.take(index as int));
            assert(all.take(index + 1).last() == all[index as int]);
            match update {
                StatusUpdate::Changed { scripthash, statushash } => {
                    notifications.push(write_status(scripthash, statushash));
                    assert(json_value::values_view(notifications@) =~= json_value::values_view(
                        before,
                    ).push(notifications@.last()@));
                },
                StatusUpdate::Same => {},
                StatusUpdate::Failed => {
                    proof {
                        sequences::first_index_found(all, has_failed(), index as int);
                    }
                    return Err(index);
                },
            }
            index = index + 1;
        }
        proof {
            sequences::first_index_exists(all, has_failed());
            assert(all.take(all.len() as int) =~= all);
        }
        let new_tip = self.chain.tip();
        let told = match client.tip() {
            Some(old_tip) => !text_eq(old_tip.as_str(), new_tip.as_str()),
            None => false,
        };
        if told {
            client.set_tip(new_tip);
            let ghost before = notifications@;
            let mut params: Vec<JsonValue> = Vec::new();
            params.push(self.tip_value());
            assert(json_value::values_view(params@) =~= seq![tip_json(self.chain@)]);
            notifications.push(notification("blockchain.headers.subscribe", params));
            assert(json_value::values_view(notifications@) =~= json_value::values_view(before).push(
                notifications@.last()@,
            ));
        }
        Ok(notifications)
    }

    /// The tip, as clients are told it.
    fn tip_value(&self) -> (json: JsonValue)
        ensures
            json@ == tip_json(self.chain@),
    {
        let height: usize = self.chain.height();
        match self.chain.get_block_header(height) {
            Some(header) => write_header(header, height),
            None => JsonValue::Null,
        }
    }

    /// Tells a client the tip, and of each further one from then on.
    pub fn headers_subscribe<S>(&self, client: &mut Client<S>) -> (json: JsonValue)
        ensures
            json@ == tip_json(self.chain@),
            final(client)@ == (ClientView {
                tip: Some(self.chain@.last().hash),
                ..old(client)@
            }),
    {
        client.set_tip(self.chain.tip());
        self.tip_value()
    }

    /// Gives the header at a height.
    pub fn block_header(&self, height: usize) -> (answer: Result<String, ElectrumRpcError>)
        ensures
            text_answer_view(answer) == header_answer(self.chain@, height as nat),
    {
        match self.chain.get_block_header(height) {
            Some(header) => Ok(header.to_hex()),
            None => Err(
                ElectrumRpcError::BadRequest {
                    message: join("no header at ", decimal(height).as_str()),
                },
            ),
        }
    }

    /// Gives the header at a height; a proof up to a checkpoint is not given.
    pub fn block_header_checkpoint(&self, height: usize, cp_height: usize) -> (answer: Result<
        JsonValue,
        ElectrumRpcError,
    >)
        ensures
            json_answer_view(answer) == if cp_height != 0 {
                Err::<JsonView, ElectrumRpcErrorView>(checkpoint_error())
            } else {
                match header_answer(self.chain@, height as nat) {
                    Ok(header) => Ok(JsonView::String(header)),
                    Err(error) => Err(error),
                }
            },
    {
        if cp_height != 0 {
            return Err(
                ElectrumRpcError::BadRequest {
                    message: "cp_height argument not supported".to_owned(),
                },
            );
        }
        match self.block_header(height) {
            Ok(header) => Ok(JsonValue::String(header)),
            Err(error) => Err(error),
        }
    }

    /// Gives headers from a height on.
    pub fn block_headers(&self, start_height: usize, count: usize) -> (json: JsonValue)
        ensures
            json@ == headers_json(self.chain@, start_height as nat, count as nat),
    {
        let height: usize = self.chain.height();
        let len: usize = self.chain.window(start_height, count);
        let text = if len == 0 {
            String::new()
        } else {
            self.chain.headers_hex(start_height, len)
        };
        assert(text@ =~= chain::headers_hex(self.chain@, start_height as nat, len as nat));
        let mut map = JsonMap::new();
        map.insert("count".to_owned(), JsonValue::from_u64(len as u64));
        map.insert("hex".to_owned(), JsonValue::String(text));
        map.insert("max".to_owned(), JsonValue::from_u64(MAX_HEADERS as u64));
        JsonValue::Object(map)
    }

    /// Gives headers from a height on; a proof up to a checkpoint is not given.
    pub fn block_headers_checkpoint(
        &self,
        start_height: usize,
        count: usize,
        cp_height: usize,
    ) -> (answer: Result<JsonValue, ElectrumRpcError>)
        ensures
            json_answer_view(answer) == if cp_height != 0 {
                Err::<JsonView, ElectrumRpcErrorView>(checkpoint_error())
            } else {
                Ok(headers_json(self.chain@, start_height as nat, count as nat))
            },
    {
        if cp_height != 0 {
            return Err(
                ElectrumRpcError::BadRequest {
                    message: "cp_height argument not supported".to_owned(),
                },
            );
        }
        Ok(self.block_headers(start_height, count))
    }

    /// Gives the hash of the block whose transactions a proof is about.
    pub fn merkle_block(&self, height: usize) -> (answer: Result<String, ElectrumRpcError>)
        ensures
            text_answer_view(answer) == if height < self.chain@.len() {
                Ok::<Seq<char>, ElectrumRpcErrorView>(self.chain@[height as int].hash)
            } else {
                Err(
                    ElectrumRpcErrorView::BadRequest {
                        message: "missing block at "@ + text::decimal_text(height as nat),
                    },
                )
            },
    {
        match self.chain.get_block_hash(height) {
            Some(hash) => Ok(hash.clone()),
            None => Err(
                ElectrumRpcError::BadRequest {
                    message: join("missing block at ", decimal(height).as_str()),
                },
            ),
        }
    }

    /// Answers a client that asks for a version; the error is for the log.
    pub fn version(&self, client_id: &str, client_version: Version) -> (answer: Result<
        (String, String),
        String,
    >)
        ensures
            match answer {
                Ok((server_id, protocol)) => version_answer(
                    self.electrs_version@,
                    client_id@,
                    client_version@,
                ) == Ok::<(Seq<char>, Seq<char>), Seq<char>>((server_id@, protocol@)),
                Err(message) => version_answer(
                    self.electrs_version@,
                    client_id@,
                    client_version@,
                ) == Err::<(Seq<char>, Seq<char>), Seq<char>>(message@),
            },
    {
        let spoken = match &client_version {
            Version::Single(version) => text_eq(version.as_str(), PROTOCOL_VERSION),
            Version::Range(_, _) => false,
        };
        if !spoken {
            let supports = join(", server supports ", PROTOCOL_VERSION);
            let shown = client_version.show();
            let asked = join3(client_id, " requested ", shown.as_str());
            return Err(join(asked.as_str(), supports.as_str()));
        }
        Ok((join("electrs/", self.electrs_version.as_str()), PROTOCOL_VERSION.to_owned()))
    }

    /// Answers a client that asks for a version; one that asks for another than is spoken is
    /// dropped.
    pub fn negotiate_version(&self, client_name: &str, protocol_version: Version) -> (answer: Result<
        (String, String),
        DropConnection,
    >)
        ensures
            match answer {
                Ok((server_id, protocol)) => version_answer(
                    self.electrs_version@,
                    client_name@,
                    protocol_version@,
                ) == Ok::<(Seq<char>, Seq<char>), Seq<char>>((server_id@, protocol@)),
                Err(_) => protocol_version@ != VersionView::Single(PROTOCOL_VERSION@),
            },
            answer is Ok <==> protocol_version@ == VersionView::Single("1.4"@),
    {
        match self.version(client_name, protocol_version) {
            Ok(version_info) => Ok(version_info),
            Err(_) => Err(DropConnection),
        }
    }

    /// Answers a client that does not ask for a version.
    pub fn version_default_protocol(&self, client_name: &str) -> (answer: Result<
        (String, String),
        DropConnection,
    >)
        ensures
            match answer {
                Ok((server_id, protocol)) => {
                    &&& server_id@ == "electrs/"@ + self.electrs_version@
                    &&& protocol@ == PROTOCOL_VERSION@
                },
                Err(_) => false,
            },
    {
        self.negotiate_version(client_name, Version::Single(PROTOCOL_VERSION.to_owned()))
    }

    /// Answers a client that says nothing of itself.
    pub fn version_anonymous_client(&self) -> (answer: Result<(String, String), DropConnection>)
        ensures
            match answer {
                Ok((server_id, protocol)) => {
                    &&& server_id@ == "electrs/"@ + self.electrs_version@
                    &&& protocol@ == PROTOCOL_VERSION@
                },
                Err(_) => false,
            },
    {
        self.version_default_protocol("")
    }
}

/// What the server says of itself.
pub fn banner() -> (json: JsonValue)
    ensures
        json@ == JsonView::String(BANNER@),
{
    JsonValue::from_text(BANNER)
}

/// The server takes no donations.
pub fn donation_address() -> (json: JsonValue)
    ensures
        json@ == JsonView::Null,
{
    JsonValue::Null
}

/// The server knows no other servers.
pub fn peers_subscribe() -> (json: JsonValue)
    ensures
        json@ == JsonView::Array(Seq::empty()),
{
    let peers: Vec<JsonValue> = Vec::new();
    assert(json_value::values_view(peers@) =~= Seq::empty());
    JsonValue::Array(peers)
}

/// A sign of life.
pub fn ping() -> (json: JsonValue)
    ensures
        json@ == JsonView::Null,
{
    JsonValue::Null
}

} // verus!
