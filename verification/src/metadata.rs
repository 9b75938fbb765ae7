//! Application metadata carried in SEI messages of the type "user data
//! unregistered": a 16-byte identifier followed by one JSON record.

use crate::sei::{
    lemma_scan_of_stream, sei_scan, sei_scan_fits, sei_stream, SeiMessage, SeiMessageView,
    SeiScanner,
};
use serde_json::Value;
use vstd::prelude::*;

verus! {

/// `serde_json::Value`, a decoded metadata record, as an opaque type: records
/// are decoded, kept in order and printed, and nothing here looks inside one.
#[verifier::external_type_specification]
#[verifier::external_body]
pub struct ExValue(serde_json::Value);

/// `serde_json::Error`, why a record could not be decoded or printed, as an
/// opaque type.
#[verifier::external_type_specification]
#[verifier::external_body]
pub struct ExJsonError(serde_json::Error);

/// The payload type of "user data unregistered" messages.
pub const USER_DATA_UNREGISTERED: u32 = 5;

/// The length of the identifier that precedes the record.
pub const UUID_LEN: usize = 16;

/// The record that `serde_json::from_slice` decodes from `bytes`; `None`
/// where it reports an error.
pub uninterp spec fn json_record(bytes: Seq<u8>) -> Option<Value>;

/// Decodes `bytes` as one JSON value with `serde_json::from_slice`. The
/// contract gives the outcome a name and claims nothing else of it: the same
/// bytes decode to the same record, or fail, every time.
#[verifier::external_body]
fn decode_json(bytes: &[u8]) -> (decoded: Result<Value, serde_json::Error>)
    ensures
        match decoded {
            Ok(record) => json_record(bytes@) == Some(record),
            Err(_) => json_record(bytes@) is None,
        },
{
    serde_json::from_slice::<Value>(bytes)
}

/// The text that `serde_json::to_string_pretty` prints for `records`; `None`
/// where it reports an error.
pub uninterp spec fn pretty_json(records: Seq<Value>) -> Option<Seq<char>>;

/// Prints `records` as one indented JSON array with
/// `serde_json::to_string_pretty`. The contract gives the outcome a name and
/// claims nothing else of it: the same records print the same, or fail,
/// every time.
#[verifier::external_body]
fn print_json(records: &Vec<Value>) -> (printed: Result<String, serde_json::Error>)
    ensures
        match printed {
            Ok(text) => pretty_json(records@) == Some(text@),
            Err(_) => pretty_json(records@) is None,
        },
{
    serde_json::to_string_pretty(records)
}

/// The record that one message carries: the decoded bytes behind the
/// identifier of a "user data unregistered" message. Other types, payloads
/// shorter than the identifier and bytes that do not decode carry none.
pub open spec fn message_record(message: SeiMessageView) -> Option<Value> {
    if message.payload_type == USER_DATA_UNREGISTERED && message.payload.len() >= UUID_LEN {
        json_record(message.payload.skip(UUID_LEN as int))
    } else {
        None
    }
}

/// What one message adds to the list of records.
pub open spec fn message_records(message: SeiMessageView) -> Seq<Value> {
    match message_record(message) {
        Some(record) => seq![record],
        None => Seq::empty(),
    }
}

/// The records of a sequence of messages, in message order.
pub open spec fn records_of(messages: Seq<SeiMessageView>) -> Seq<Value>
    decreases messages.len(),
{
    if messages.len() == 0 {
        Seq::empty()
    } else {
        message_records(messages[0]) + records_of(messages.skip(1))
    }
}

/// The records of one side-channel buffer.
pub open spec fn buffer_records(buffer: Seq<u8>) -> Seq<Value> {
    records_of(sei_scan(buffer))
}

/// The records of one compressed unit: those of each of its buffers, scanned
/// on its own, in buffer order.
pub open spec fn unit_records(buffers: Seq<Seq<u8>>) -> Seq<Value>
    decreases buffers.len(),
{
    if buffers.len() == 0 {
        Seq::empty()
    } else {
        buffer_records(buffers[0]) + unit_records(buffers.skip(1))
    }
}

/// Appends a decoded record to `records`; a failed decode leaves them as
/// they are.
pub fn keep_decoded(records: &mut Vec<Value>, decoded: Result<Value, serde_json::Error>)
    ensures
        final(records)@ == match decoded {
            Ok(record) => old(records)@.push(record),
            Err(_) => old(records)@,
        },
{
    match decoded {
        Ok(record) => {
            records.push(record);
        },
        Err(_) => {},
    }
}

/// Appends the record of `message`, if it carries one, to `records`.
pub fn collect_record(message: &SeiMessage, records: &mut Vec<Value>)
    ensures
        final(records)@ == old(records)@ + message_records(message@),
{
    if message.payload_type == USER_DATA_UNREGISTERED {
        if message.payload.len() >= UUID_LEN {
            let user_data: &[u8] = &message.payload[UUID_LEN..message.payload.len()];
            assert(user_data@ == message@.payload.skip(UUID_LEN as int));
            keep_decoded(records, decode_json(user_data));
        }
    }
}

/// Scans `buffer` and appends the records of its messages to `records`, in
/// message order. Malformed data ends the scan of this buffer and nothing
/// else.
pub fn extract_metadata(buffer: &[u8], records: &mut Vec<Value>)
    requires
        sei_scan_fits(buffer@),
    ensures
        final(records)@ == old(records)@ + buffer_records(buffer@),
{
    let mut scanner = SeiScanner::new(buffer);
    loop
        invariant_except_break
            records@ + records_of(scanner.pending()) == old(records)@ + buffer_records(buffer@),
        ensures
            records@ == old(records)@ + buffer_records(buffer@),
        decreases scanner.unread().len(),
    {
        let ghost before = scanner.pending();
        let ghost kept = records@;
        match scanner.next_message() {
            Some(message) => {
                collect_record(&message, records);
                assert(before.skip(1) == scanner.pending());
                assert(records@ + records_of(scanner.pending()) == kept + records_of(before));
            },
            None => {
                assert(records_of(before) == Seq::<Value>::empty());
                assert(records@ + records_of(before) == records@);
                break;
            },
        }
    }
}

/// The records of one compressed unit, whose side-channel buffers are
/// `side_data`.
pub fn unit_metadata(side_data: &Vec<Vec<u8>>) -> (records: Vec<Value>)
    requires
        forall|i: int| 0 <= i < side_data@.len() ==> sei_scan_fits(#[trigger] side_data@[i]@),
    ensures
        records@ == unit_records(side_data.deep_view()),
{
    let mut records: Vec<Value> = Vec::new();
    let mut i: usize = 0;
    assert(side_data.deep_view().skip(0) == side_data.deep_view());
    while i < side_data.len()
        invariant
            i <= side_data@.len(),
            forall|j: int| 0 <= j < side_data@.len() ==> sei_scan_fits(#[trigger] side_data@[j]@),
            records@ + unit_records(side_data.deep_view().skip(i as int)) == unit_records(
                side_data.deep_view(),
            ),
        decreases side_data@.len() - i,
    {
        let ghost kept = records@;
        let ghost todo = side_data.deep_view().skip(i as int);
        extract_metadata(side_data[i].as_slice(), &mut records);
        assert(todo[0] == side_data@[i as int]@);
        assert(todo.skip(1) == side_data.deep_view().skip(i + 1));
        assert(records@ + unit_records(todo.skip(1)) == kept + unit_records(todo));
        i += 1;
    }
    assert(records@ + unit_records(side_data.deep_view().skip(i as int)) == records@);
    records
}

/// The text shown for the records of a unit: a sentinel where there are
/// none, else the records printed as an indented JSON array.
pub open spec fn metadata_text_of(records: Seq<Value>) -> Seq<char> {
    if records.len() == 0 {
        "No SEI data"@
    } else {
        match pretty_json(records) {
            Some(text) => text,
            None => "Failed to format SEI data"@,
        }
    }
}

/// The printed text, or a fixed notice where printing failed.
pub fn text_or_notice(printed: Result<String, serde_json::Error>) -> (text: String)
    ensures
        text@ == match printed {
            Ok(printed_text) => printed_text@,
            Err(_) => "Failed to format SEI data"@,
        },
{
    match printed {
        Ok(printed_text) => printed_text,
        Err(_) => "Failed to format SEI data".to_owned(),
    }
}

/// The text shown for `records`.
pub fn metadata_text(records: &Vec<Value>) -> (text: String)
    ensures
        text@ == metadata_text_of(records@),
{
    if records.len() == 0 {
        "No SEI data".to_owned()
    } else {
        text_or_notice(print_json(records))
    }
}

/// The records of messages laid end to end are the records of the first
/// part followed by those of the second: no message changes what another
/// one yields.
pub proof fn lemma_records_of_concat(first: Seq<SeiMessageView>, second: Seq<SeiMessageView>)
    ensures
        records_of(first + second) == records_of(first) + records_of(second),
    decreases first.len(),
{
    if first.len() == 0 {
        assert(first + second == second);
    } else {
        lemma_records_of_concat(first.skip(1), second);
        assert((first + second).skip(1) == first.skip(1) + second);
    }
}

/// A "user data unregistered" message whose bytes behind the identifier
/// decode yields exactly one record, the decoded value.
pub proof fn lemma_valid_message_yields_its_record(message: SeiMessageView, record: Value)
    requires
        message.payload_type == USER_DATA_UNREGISTERED,
        message.payload.len() >= UUID_LEN,
        json_record(message.payload.skip(UUID_LEN as int)) == Some(record),
    ensures
        records_of(seq![message]) == seq![record],
{
    assert(records_of(seq![message].skip(1)) == Seq::<Value>::empty());
}

/// A payload shorter than the identifier yields no record, whatever the
/// message's type.
pub proof fn lemma_short_payload_yields_nothing(message: SeiMessageView)
    requires
        message.payload.len() < UUID_LEN,
    ensures
        records_of(seq![message]) == Seq::<Value>::empty(),
{
    assert(records_of(seq![message].skip(1)) == Seq::<Value>::empty());
}

/// A message of another type yields no record.
pub proof fn lemma_other_type_yields_nothing(message: SeiMessageView)
    requires
        message.payload_type != USER_DATA_UNREGISTERED,
    ensures
        records_of(seq![message]) == Seq::<Value>::empty(),
{
    assert(records_of(seq![message].skip(1)) == Seq::<Value>::empty());
}

/// A message whose bytes behind the identifier do not decode yields no
/// record, and the messages before and after it yield what they yield
/// without it.
pub proof fn lemma_unparsable_message_is_skipped(
    before: Seq<SeiMessageView>,
    message: SeiMessageView,
    after: Seq<SeiMessageView>,
)
    requires
        json_record(message.payload.skip(UUID_LEN as int)) is None,
    ensures
        records_of(seq![message]) == Seq::<Value>::empty(),
        records_of(before + seq![message] + after) == records_of(before) + records_of(after),
{
    assert(records_of(seq![message].skip(1)) == Seq::<Value>::empty());
    lemma_records_of_concat(before + seq![message], after);
    lemma_records_of_concat(before, seq![message]);
}

/// The buffers of a unit are scanned each on its own and their records
/// laid end to end in buffer order: the records of two runs of buffers are
/// those of the first run followed by those of the second.
pub proof fn lemma_unit_records_concat(first: Seq<Seq<u8>>, second: Seq<Seq<u8>>)
    ensures
        unit_records(first + second) == unit_records(first) + unit_records(second),
    decreases first.len(),
{
    if first.len() == 0 {
        assert(first + second == second);
    } else {
        lemma_unit_records_concat(first.skip(1), second);
        assert((first + second).skip(1) == first.skip(1) + second);
    }
}

/// The records of a buffer that holds the bytes of a sequence of messages
/// are the records of those messages.
pub proof fn lemma_records_of_encoded_messages(messages: Seq<SeiMessageView>)
    ensures
        buffer_records(sei_stream(messages)) == records_of(messages),
{
    lemma_scan_of_stream(messages);
}

} // verus!
