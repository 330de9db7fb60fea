//! Messages as lines: each is written as compact JSON with a line feed behind it.

use crate::error_codes;
use crate::json_codec;
use crate::json_codec::{read_json, write_json, JsonRead, JsonTextError};
use crate::json_types::json_rpc_error::JsonRpcErrorView;
use crate::json_types::json_rpc_id::JsonRpcIdView;
use crate::json_types::json_rpc_message;
use crate::json_types::json_rpc_message::{JsonRpcMessageFromJsonErrorView, JsonRpcMessageView};
use crate::json_types::json_rpc_response;
use crate::json_types::json_rpc_response::JsonRpcResponseView;
use crate::json_types::{
    JsonRpcError, JsonRpcErrorCode, JsonRpcId, JsonRpcMessage, JsonRpcMessageFromJsonError,
    JsonRpcResponse,
};
use crate::json_value::JsonValue;
use crate::text;
use crate::text::{is_wrapped_in, join};
use vstd::prelude::*;

verus! {

/// The outside type of errors of input and output.
#[verifier::external_type_specification]
#[verifier::external_body]
pub struct ExIoError(std::io::Error);

/// The byte at the end of a line.
pub const LINE_FEED: u8 = 10;

/// Writes messages to what it holds.
pub struct JsonRpcMessageWriter<A> {
    pub writer: A,
}

/// Reads messages from what it holds.
pub struct JsonRpcMessageReader<A> {
    pub reader: A,
}

/// Why no message could be read.
#[derive(Debug)]
#[allow(inconsistent_fields)]
pub enum ReadMessageError {
    Io { source: std::io::Error },
    Deserialize { source: JsonTextError, possible_batch_request: bool },
    Parse { source: JsonRpcMessageFromJsonError },
}

/// What a `ReadMessageError` is.
#[allow(inconsistent_fields)]
pub enum ReadMessageErrorView {
    Io { source: std::io::Error },
    Deserialize { message: Seq<char>, possible_batch_request: bool },
    Parse { source: JsonRpcMessageFromJsonErrorView },
}

/// The line that a message is written as.
pub open spec fn message_line(message: JsonRpcMessageView) -> Seq<char> {
    json_codec::json_text(message.to_json()).push('\n')
}

/// The message that a line is. Where the line is no JSON, it may still have been meant as a batch:
/// it may begin with a bracket and end with one.
pub open spec fn line_message(line: Seq<char>) -> Result<JsonRpcMessageView, ReadMessageErrorView> {
    match json_codec::json_read(line) {
        JsonRead::Value(json) => match json_rpc_message::message_from_json(json) {
            Ok(message) => Ok(message),
            Err(source) => Err(ReadMessageErrorView::Parse { source }),
        },
        JsonRead::Error(message) => Err(
            ReadMessageErrorView::Deserialize {
                message,
                possible_batch_request: text::wrapped_in(line, '[', ']'),
            },
        ),
    }
}

/// What reading a line gave.
pub open spec fn line_read(read: Result<JsonRpcMessage, ReadMessageError>) -> Result<
    JsonRpcMessageView,
    ReadMessageErrorView,
> {
    match read {
        Ok(message) => Ok(message@),
        Err(error) => Err(error@),
    }
}

/// What the next read gives, going by how many bytes the stream gave and by the line that they
/// are: no bytes mean that the stream has ended.
pub open spec fn next_message(bytes: Result<usize, std::io::Error>, line: Seq<char>) -> Result<
    Option<JsonRpcMessageView>,
    ReadMessageErrorView,
> {
    match bytes {
        Err(source) => Err(ReadMessageErrorView::Io { source }),
        Ok(n) => if n == 0 {
            Ok(None)
        } else {
            match line_message(line) {
                Ok(message) => Ok(Some(message)),
                Err(error) => Err(error),
            }
        },
    }
}

/// What a read gave.
pub open spec fn next_read(read: Result<Option<JsonRpcMessage>, ReadMessageError>) -> Result<
    Option<JsonRpcMessageView>,
    ReadMessageErrorView,
> {
    match read {
        Ok(Some(message)) => Ok(Some(message@)),
        Ok(None) => Ok(None),
        Err(error) => Err(error@),
    }
}

/// A line feed behind a text is one byte behind its bytes.
proof fn line_feed_behind(text: Seq<char>)
    ensures
        vstd::utf8::encode_utf8(text.push('\n')) == vstd::utf8::encode_utf8(text).push(10u8),
    decreases text.len(),
{
    let line = text.push('\n');
    if text.len() == 0 {
        reveal_with_fuel(vstd::utf8::encode_utf8, 2);
        assert(line.drop_first() =~= text);
        assert((10u32 & 0x7f) as u8 == 10u8) by (bit_vector);
        assert(vstd::utf8::encode_utf8(line) =~= seq![10u8]);
        assert(vstd::utf8::encode_utf8(text).push(10u8) =~= seq![10u8]);
    } else {
        line_feed_behind(text.drop_first());
        assert(line.drop_first() =~= text.drop_first().push('\n'));
        assert(line[0] == text[0]);
        assert(vstd::utf8::encode_utf8(line) =~= vstd::utf8::encode_utf8(text).push(10u8));
    }
}

/// The bytes end with a line feed and hold no other.
pub open spec fn is_line(bytes: Seq<u8>) -> bool {
    &&& bytes.len() > 0
    &&& bytes.last() == 10u8
    &&& forall|i: int| 0 <= i < bytes.len() - 1 ==> #[trigger] bytes[i] != 10u8
}

/// In what follows a line, nothing changes where the line ends: the first line feed of the whole
/// is that of the line. So what is written message by message is read message by message.
pub proof fn line_ends_at_first_line_feed(line: Seq<u8>, rest: Seq<u8>, end: int)
    requires
        is_line(line),
        0 <= end < line.len() + rest.len(),
        (line + rest)[end] == 10u8,
        forall|i: int| 0 <= i < end ==> #[trigger] (line + rest)[i] != 10u8,
    ensures
        (line + rest).take(end + 1) == line,
        (line + rest).skip(end + 1) == rest,
{
    let whole = line + rest;
    if end < line.len() - 1 {
        assert(line[end] == whole[end]);
    }
    if end > line.len() - 1 {
        assert(whole[line.len() - 1] == line[line.len() - 1]);
    }
    assert(whole.take(end + 1) =~= line);
    assert(whole.skip(end + 1) =~= rest);
}

/// Writes a message as a line.
pub fn encode_message(message: JsonRpcMessage) -> (bytes: Vec<u8>)
    ensures
        bytes@ == vstd::utf8::encode_utf8(message_line(message@)),
        is_line(bytes@),
        json_codec::reads_back(message@.to_json(), json_codec::READ_DEPTH as nat)
            && json_rpc_message::not_empty(message@) ==> line_message(
            vstd::utf8::decode_utf8(bytes@),
        ) == Ok::<JsonRpcMessageView, ReadMessageErrorView>(message@),
{
    let json = JsonValue::from(message);
    let mut bytes = write_json(json);
    let ghost written = bytes@;
    bytes.push(LINE_FEED);
    proof {
        let text = json_codec::json_text(message@.to_json());
        line_feed_behind(text);
        vstd::utf8::encode_utf8_decode_utf8(text);
        vstd::utf8::encode_utf8_decode_utf8(message_line(message@));
        assert forall|i: int| 0 <= i < bytes@.len() - 1 implies #[trigger] bytes@[i] != 10u8 by {
            assert(written[i] == bytes@[i]);
            assert(written.contains(written[i]));
        }
        if json_codec::reads_back(message@.to_json(), json_codec::READ_DEPTH as nat)
            && json_rpc_message::not_empty(message@) {
            json_rpc_message::message_round_trip(message@);
        }
    }
    bytes
}

/// Reads the message that a line is.
pub fn decode_line(line: &str) -> (read: Result<JsonRpcMessage, ReadMessageError>)
    ensures
        line_read(read) == line_message(line@),
{
    let json = match read_json(line) {
        Ok(json) => json,
        Err(source) => {
            let possible_batch_request = is_wrapped_in(line, '[', ']');
            return Err(ReadMessageError::Deserialize { source, possible_batch_request });
        },
    };
    match JsonRpcMessage::try_from(json) {
        Ok(message) => Ok(message),
        Err(source) => Err(ReadMessageError::Parse { source }),
    }
}

/// Makes the outcome of a read out of what the stream gave: how many bytes, and the line that
/// they are.
pub fn read_outcome(bytes: Result<usize, std::io::Error>, line: &str) -> (read: Result<
    Option<JsonRpcMessage>,
    ReadMessageError,
>)
    ensures
        next_read(read) == next_message(bytes, line@),
{
    match bytes {
        Ok(0) => Ok(None),
        Ok(_) => match decode_line(line) {
            Ok(message) => Ok(Some(message)),
            Err(error) => Err(error),
        },
        Err(source) => Err(ReadMessageError::Io { source }),
    }
}

impl<A> JsonRpcMessageWriter<A> {
    /// Makes a writer of messages.
    pub fn new(writer: A) -> (message_writer: JsonRpcMessageWriter<A>)
        ensures
            message_writer.writer == writer,
    {
        JsonRpcMessageWriter { writer }
    }
}

impl<A> JsonRpcMessageReader<A> {
    /// Makes a reader of messages.
    pub fn new(reader: A) -> (message_reader: JsonRpcMessageReader<A>)
        ensures
            message_reader.reader == reader,
    {
        JsonRpcMessageReader { reader }
    }
}

impl ReadMessageErrorView {
    /// The error in words; `io_words` are the words of an error of input.
    pub open spec fn text(self, io_words: Seq<char>) -> Seq<char> {
        match self {
            ReadMessageErrorView::Io { .. } => "io error reading stream: "@ + io_words,
            ReadMessageErrorView::Deserialize { message, .. } => "error derializing json: "@
                + message,
            ReadMessageErrorView::Parse { source } => "error parsing json-rpc message: "@
                + source.text(),
        }
    }

    /// What the sender is answered.
    pub open spec fn error_response(self) -> Option<JsonRpcResponseView> {
        match self {
            ReadMessageErrorView::Io { .. } => None,
            ReadMessageErrorView::Deserialize { message, possible_batch_request } =>
                if possible_batch_request {
                Some(
                    JsonRpcResponseView {
                        id: JsonRpcIdView::Null,
                        result: Err(
                            JsonRpcErrorView {
                                code: error_codes::INVALID_REQUEST,
                                message,
                                data: None,
                            },
                        ),
                    },
                )
            } else {
                None
            },
            ReadMessageErrorView::Parse { source } => source.error_response(),
        }
    }
}

/// A line is a message exactly where it is the JSON of one. A line that is no JSON is told apart from
/// one whose JSON is no message.
pub proof fn line_is_read_as_it_is(line: Seq<char>)
    ensures
        line_message(line) is Ok ==> json_codec::json_read(line) == JsonRead::Value(
            line_message(line)->Ok_0.to_json(),
        ),
        line_message(line) is Ok <==> json_codec::json_read(line) is Value
            && json_rpc_message::message_from_json(json_codec::json_read(line)->Value_0) is Ok,
        line_message(line) is Err ==> (line_message(line)->Err_0 is Parse
            <==> json_codec::json_read(line) is Value),
        line_message(line) is Err ==> (line_message(line)->Err_0 is Deserialize
            <==> json_codec::json_read(line) is Error),
        line_message(line) matches Err(ReadMessageErrorView::Deserialize { message, .. })
            ==> json_codec::json_read(line) == JsonRead::Error(message),
{
    if line_message(line) is Ok {
        json_rpc_message::message_is_written_back(json_codec::json_read(line)->Value_0);
    }
}

/// A line that is no JSON may have been meant as a batch exactly where, white space around it aside,
/// it begins with `[` and ends with `]`.
pub proof fn brackets_make_a_batch(front: Seq<char>, middle: Seq<char>, behind: Seq<char>)
    requires
        json_codec::json_read(front + middle + behind) is Error,
        forall|k: int| 0 <= k < front.len() ==> text::is_white_space(#[trigger] front[k]),
        forall|k: int| 0 <= k < behind.len() ==> text::is_white_space(#[trigger] behind[k]),
        middle.len() > 0,
        !text::is_white_space(middle[0]),
        !text::is_white_space(middle.last()),
    ensures
        line_message(front + middle + behind) is Err,
        line_message(front + middle + behind)->Err_0 is Deserialize,
        line_message(front + middle + behind)->Err_0->possible_batch_request <==> middle[0] == '['
            && middle.last() == ']',
{
    text::white_space_around_does_not_matter(front, middle, behind, '[', ']');
}

/// The words of an error of the stream, and those of what is wrong with a line, stand at the end of
/// what is said.
pub proof fn read_error_tells_its_cause(error: ReadMessageErrorView, io_words: Seq<char>)
    ensures
        error is Io ==> text::ends_with(error.text(io_words), io_words),
        error matches ReadMessageErrorView::Deserialize { message, .. } ==> text::ends_with(
            error.text(io_words),
            message,
        ),
        error matches ReadMessageErrorView::Parse { source } ==> text::ends_with(
            error.text(io_words),
            source.text(),
        ),
{
    match error {
        ReadMessageErrorView::Io { .. } => {
            text::what_is_put_behind_ends_it("io error reading stream: "@, io_words);
        },
        ReadMessageErrorView::Deserialize { message, .. } => {
            text::what_is_put_behind_ends_it("error derializing json: "@, message);
        },
        ReadMessageErrorView::Parse { source } => {
            text::what_is_put_behind_ends_it("error parsing json-rpc message: "@, source.text());
        },
    }
}

/// A read ends where the stream gives nothing, fails where the stream does, and else gives what the
/// line is.
pub proof fn next_message_is_the_line(bytes: Result<usize, std::io::Error>, line: Seq<char>)
    ensures
        next_message(bytes, line) == Ok::<Option<JsonRpcMessageView>, ReadMessageErrorView>(None)
            <==> bytes == Ok::<usize, std::io::Error>(0),
        bytes is Err ==> next_message(bytes, line) == Err::<
            Option<JsonRpcMessageView>,
            ReadMessageErrorView,
        >(ReadMessageErrorView::Io { source: bytes->Err_0 }),
        bytes is Ok && bytes->Ok_0 > 0 && line_message(line) is Ok ==> next_message(bytes, line)
            == Ok::<Option<JsonRpcMessageView>, ReadMessageErrorView>(
            Some(line_message(line)->Ok_0),
        ),
        bytes is Ok && bytes->Ok_0 > 0 && line_message(line) is Err ==> next_message(bytes, line)
            == Err::<Option<JsonRpcMessageView>, ReadMessageErrorView>(line_message(line)->Err_0),
{
}

/// A line that is no JSON is answered exactly where it may have been meant as a batch, under null; an
/// error of the stream is not answered.
pub proof fn unreadable_batches_are_answered(error: ReadMessageErrorView)
    ensures
        error is Io ==> error.error_response() is None,
        error matches ReadMessageErrorView::Deserialize { message, possible_batch_request } ==> {
            &&& error.error_response() is Some <==> possible_batch_request
            &&& possible_batch_request ==> {
                let response = error.error_response()->0;
                &&& response.id == JsonRpcIdView::Null
                &&& response.result is Err
                &&& response.result->Err_0.code == -32600
                &&& response.result->Err_0.message == message
                &&& response.result->Err_0.data is None
            }
        },
        error matches ReadMessageErrorView::Parse { source } ==> error.error_response()
            == source.error_response(),
{
}

/// The words of an error of input and output, from its `Display`. They depend on the machine:
/// nothing is said of them.
#[verifier::external_body]
pub(crate) fn io_error_words(error: &std::io::Error) -> (words: String)
{
    error.to_string()
}

impl ReadMessageError {
    /// What the error is.
    pub open spec fn view(&self) -> ReadMessageErrorView {
        match *self {
            ReadMessageError::Io { source } => ReadMessageErrorView::Io { source },
            ReadMessageError::Deserialize { source, possible_batch_request } =>
                ReadMessageErrorView::Deserialize {
                message: source.message@,
                possible_batch_request,
            },
            ReadMessageError::Parse { source } => ReadMessageErrorView::Parse { source: source@ },
        }
    }

    /// Says in words what went wrong; `io_words` are the words of an error of input.
    pub fn message_with(&self, io_words: &str) -> (words: String)
        ensures
            words@ == self@.text(io_words@),
    {
        match self {
            ReadMessageError::Io { .. } => join("io error reading stream: ", io_words),
            ReadMessageError::Deserialize { source, .. } => join(
                "error derializing json: ",
                source.message.as_str(),
            ),
            ReadMessageError::Parse { source } => join(
                "error parsing json-rpc message: ",
                source.message().as_str(),
            ),
        }
    }

    /// Says in words what went wrong. The words of an error of input are those of the machine:
    /// which they are is not said.
    pub fn message(&self) -> (words: String)
        ensures
            exists|io_words: Seq<char>| words@ == #[trigger] self@.text(io_words),
    {
        match self {
            ReadMessageError::Io { source } => self.message_with(io_error_words(source).as_str()),
            _ => self.message_with(""),
        }
    }

    /// The response that tells the sender what is wrong, where there is one.
    pub fn as_error_response(&self) -> (response: Option<JsonRpcResponse>)
        ensures
            json_rpc_response::response_option_view(response) == self@.error_response(),
    {
        match self {
            ReadMessageError::Io { .. } => None,
            ReadMessageError::Deserialize { source, possible_batch_request } => {
                if *possible_batch_request {
                    Some(
                        JsonRpcResponse {
                            id: JsonRpcId::Null,
                            result: Err(
                                JsonRpcError {
                                    code: JsonRpcErrorCode::new_unchecked(
                                        error_codes::INVALID_REQUEST,
                                    ),
                                    message: source.message.clone(),
                                    data: None,
                                },
                            ),
                        },
                    )
                } else {
                    None
                }
            },
            ReadMessageError::Parse { source } => source.as_error_response(),
        }
    }
}

} // verus!
