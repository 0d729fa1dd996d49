//! The property logic of the mpv adapters: how commands and properties are
//! put into IPC requests, how replies are read back as typed values, and
//! how a playback snapshot is assembled from property reads.
use vstd::prelude::*;

use super::error::BackendError;
use super::ipc::{is_text_arg, IpcArg, IpcData};
use super::model::{BackendKind, PlaybackCommand, PropertyUpdate, PropertyValue};
use crate::text::{contains_text, text_contains};

verus! {

/// What a property read answered: the reply's data, or the failure of the
/// request.
pub type PropertyReply = Result<Option<IpcData>, BackendError>;

/// A property value as an IPC command element.
pub open spec fn arg_of(value: PropertyValue) -> IpcArg {
    match value {
        PropertyValue::Boolean(b) => IpcArg::Boolean(b),
        PropertyValue::Number(bits) => IpcArg::Number(bits),
        PropertyValue::Text(t) => IpcArg::Text(t),
        PropertyValue::Unit => IpcArg::Null,
    }
}

/// Put a property value into a command.
pub fn property_to_arg(value: PropertyValue) -> (arg: IpcArg)
    ensures
        arg == arg_of(value),
{
    match value {
        PropertyValue::Boolean(b) => IpcArg::Boolean(b),
        PropertyValue::Number(bits) => IpcArg::Number(bits),
        PropertyValue::Text(t) => IpcArg::Text(t),
        PropertyValue::Unit => IpcArg::Null,
    }
}

/// The property value a reply's data stands for: booleans, numbers and
/// texts keep their kind, a number without a binary64 value and every
/// other kind of data is no value.
pub open spec fn value_of(data: IpcData) -> PropertyValue {
    match data {
        IpcData::Boolean(b) => PropertyValue::Boolean(b),
        IpcData::Number(Some(bits)) => PropertyValue::Number(bits),
        IpcData::Number(None) => PropertyValue::Unit,
        IpcData::Text { text, number: _ } => PropertyValue::Text(text),
        IpcData::Other => PropertyValue::Unit,
    }
}

/// Read a reply's data as a property value.
pub fn property_from_data(data: IpcData) -> (value: PropertyValue)
    ensures
        value == value_of(data),
{
    match data {
        IpcData::Boolean(b) => PropertyValue::Boolean(b),
        IpcData::Number(Some(bits)) => PropertyValue::Number(bits),
        IpcData::Number(None) => PropertyValue::Unit,
        IpcData::Text { text, number: _ } => PropertyValue::Text(text),
        IpcData::Other => PropertyValue::Unit,
    }
}

/// Read a `get_property` reply: a reply without data is no value.
pub fn property_from_reply(data: Option<IpcData>) -> (value: PropertyValue)
    ensures
        data is None ==> value == PropertyValue::Unit,
        data matches Some(d) ==> value == value_of(d),
{
    match data {
        Some(d) => property_from_data(d),
        None => PropertyValue::Unit,
    }
}

/// A property value goes into a command unchanged: a boolean as that
/// boolean, a number as the same bit pattern, a text as the same text, and
/// no value as `null`.
pub proof fn lemma_value_goes_out_unchanged(value: PropertyValue)
    ensures
        forall|b: bool| value == PropertyValue::Boolean(b) ==> arg_of(value) == IpcArg::Boolean(b),
        forall|bits: u64|
            value == PropertyValue::Number(bits) ==> arg_of(value) == IpcArg::Number(bits),
        forall|t: String| value == PropertyValue::Text(t) ==> arg_of(value) == IpcArg::Text(t),
        value == PropertyValue::Unit ==> arg_of(value) == IpcArg::Null,
{
}

/// A reply's data is read back unchanged: a boolean as that boolean, a
/// number as the same bit pattern, a text as the same text; data without a
/// binary64 value is no value.
pub proof fn lemma_reply_comes_back_unchanged(data: IpcData)
    ensures
        forall|b: bool| data == IpcData::Boolean(b) ==> value_of(data) == PropertyValue::Boolean(b),
        forall|bits: u64|
            data == IpcData::Number(Some(bits)) ==> value_of(data) == PropertyValue::Number(bits),
        forall|t: String, n: Option<u64>|
            data == (IpcData::Text { text: t, number: n }) ==> value_of(data) == PropertyValue::Text(t),
        data == IpcData::Number(None) || data == IpcData::Other ==> value_of(data)
            == PropertyValue::Unit,
{
}

/// What is set is what is read: when mpv answers a read with the value a
/// `set_property` request sent (a boolean, a number or a text), reading the
/// answer gives back the value that was set.
pub proof fn lemma_set_then_read_round_trips(value: PropertyValue, data: IpcData)
    requires
        (value matches PropertyValue::Boolean(b) && data == IpcData::Boolean(b))
            || (value matches PropertyValue::Number(bits) && data == IpcData::Number(Some(bits)))
            || (value matches PropertyValue::Text(t) && data matches IpcData::Text { text, number: _ }
            && text == t),
    ensures
        value_of(data) == value,
        arg_of(value) == (match data {
            IpcData::Boolean(b) => IpcArg::Boolean(b),
            IpcData::Number(Some(bits)) => IpcArg::Number(bits),
            IpcData::Text { text, number: _ } => IpcArg::Text(text),
            _ => IpcArg::Null,
        }),
{
}

/// The command array of a playback command: its name, then its arguments.
pub fn command_request(command: PlaybackCommand) -> (request: Vec<IpcArg>)
    ensures
        request@.len() == command.arguments@.len() + 1,
        is_text_arg(request@[0], command.name@),
        forall|i: int|
            0 <= i < command.arguments@.len() ==> is_text_arg(
                #[trigger] request@[i + 1],
                command.arguments@[i]@,
            ),
{
    let PlaybackCommand { name, arguments } = command;
    let mut request: Vec<IpcArg> = Vec::new();
    request.push(IpcArg::Text(name));
    let ghost args = arguments@;
    let mut rest = arguments;
    let mut taken: Vec<IpcArg> = Vec::new();
    let n = rest.len();
    let mut i: usize = 0;
    while i < n
        invariant
            n == args.len(),
            i <= n,
            rest@ == args.subrange(0, n - i),
            taken@.len() == i,
            forall|j: int| 0 <= j < i ==> is_text_arg(#[trigger] taken@[j], args[n - 1 - j]@),
        decreases n - i,
    {
        let last = rest.pop().unwrap();
        taken.push(IpcArg::Text(last));
        i = i + 1;
    }
    let mut j: usize = 0;
    while j < n
        invariant
            n == args.len(),
            j <= n,
            taken@.len() == n - j,
            forall|k: int| 0 <= k < n - j ==> is_text_arg(#[trigger] taken@[k], args[n - 1 - k]@),
            request@.len() == j + 1,
            is_text_arg(request@[0], name@),
            forall|k: int| 0 <= k < j ==> is_text_arg(#[trigger] request@[k + 1], args[k]@),
        decreases n - j,
    {
        let arg = taken.pop().unwrap();
        request.push(arg);
        j = j + 1;
    }
    request
}

/// The command that loads or replaces the media source.
pub fn load_command(source: &str) -> (command: PlaybackCommand)
    ensures
        command.name@ == "loadfile"@,
        command.arguments@.len() == 2,
        command.arguments@[0]@ == source@,
        command.arguments@[1]@ == "replace"@,
{
    let mut arguments: Vec<String> = Vec::new();
    arguments.push(String::from_str(source));
    arguments.push(String::from_str("replace"));
    PlaybackCommand::new("loadfile", arguments)
}

/// The `set_property` request of an update.
pub fn set_property_request(update: PropertyUpdate) -> (request: Vec<IpcArg>)
    ensures
        request@.len() == 3,
        is_text_arg(request@[0], "set_property"@),
        is_text_arg(request@[1], update.name@),
        request@[2] == arg_of(update.value),
{
    let PropertyUpdate { name, value } = update;
    let mut request: Vec<IpcArg> = Vec::new();
    request.push(IpcArg::Text(String::from_str("set_property")));
    request.push(IpcArg::Text(name));
    request.push(property_to_arg(value));
    request
}

/// The `get_property` request of a property.
pub fn get_property_request(name: &str) -> (request: Vec<IpcArg>)
    ensures
        request@.len() == 2,
        is_text_arg(request@[0], "get_property"@),
        is_text_arg(request@[1], name@),
{
    let mut request: Vec<IpcArg> = Vec::new();
    request.push(IpcArg::Text(String::from_str("get_property")));
    request.push(IpcArg::Text(String::from_str(name)));
    request
}

/// Whether an error is mpv reporting a property as unavailable.
pub open spec fn unavailable(error: BackendError) -> bool {
    error matches BackendError::Engine { message } && contains_text(message@, "unavailable"@)
}

/// Whether an error is mpv reporting a property as unavailable.
pub fn is_unavailable(error: &BackendError) -> (answer: bool)
    ensures
        answer == unavailable(*error),
{
    match error {
        BackendError::Engine { message } => text_contains(message.as_str(), "unavailable"),
        _ => false,
    }
}

/// Whether `error` says property `name` did not hold the expected kind.
pub open spec fn is_type_error(error: BackendError, name: Seq<char>, expected: Seq<char>) -> bool {
    error matches BackendError::InvalidProperty { property, message } && property@ == name
        && message@ == "expected "@ + expected
}

/// The error of a property that did not hold the expected kind.
pub fn property_type_error(name: &str, expected: &str) -> (error: BackendError)
    ensures
        is_type_error(error, name@, expected@),
{
    BackendError::InvalidProperty {
        property: String::from_str(name),
        message: String::from_str("expected ").concat(expected),
    }
}

/// Whether `out` is what a boolean read of property `name` gives.
pub open spec fn reads_bool(name: Seq<char>, reply: PropertyReply, out: Result<bool, BackendError>) -> bool {
    match reply {
        Err(e) => out == Err::<bool, BackendError>(e),
        Ok(Some(IpcData::Boolean(b))) => out == Ok::<bool, BackendError>(b),
        Ok(_) => out matches Err(err) && is_type_error(err, name, "boolean"@),
    }
}

/// Whether `out` is what a number read of property `name` gives: a number,
/// or a text that reads as a number.
pub open spec fn reads_number(name: Seq<char>, reply: PropertyReply, out: Result<u64, BackendError>) -> bool {
    match reply {
        Err(e) => out == Err::<u64, BackendError>(e),
        Ok(Some(IpcData::Number(Some(bits)))) => out == Ok::<u64, BackendError>(bits),
        Ok(Some(IpcData::Text { text: _, number: Some(bits) })) => out == Ok::<u64, BackendError>(bits),
        Ok(_) => out matches Err(err) && is_type_error(err, name, "number"@),
    }
}

/// Read a property as a boolean.
pub fn read_bool(name: &str, reply: PropertyReply) -> (out: Result<bool, BackendError>)
    ensures
        reads_bool(name@, reply, out),
{
    match reply {
        Err(e) => Err(e),
        Ok(Some(IpcData::Boolean(b))) => Ok(b),
        Ok(_) => Err(property_type_error(name, "boolean")),
    }
}

/// Read a property as a number.
pub fn read_number(name: &str, reply: PropertyReply) -> (out: Result<u64, BackendError>)
    ensures
        reads_number(name@, reply, out),
{
    match reply {
        Err(e) => Err(e),
        Ok(Some(IpcData::Number(Some(bits)))) => Ok(bits),
        Ok(Some(IpcData::Text { text: _, number: Some(bits) })) => Ok(bits),
        Ok(_) => Err(property_type_error(name, "number")),
    }
}

/// Whether `out` is what an optional number read gives. Through IPC, a
/// property mpv reports as unavailable is absent and every other failure
/// stands; through libmpv, every failure means absent.
pub open spec fn reads_optional_number(
    backend: BackendKind,
    name: Seq<char>,
    reply: PropertyReply,
    out: Result<Option<u64>, BackendError>,
) -> bool {
    exists|read: Result<u64, BackendError>|
        #[trigger] reads_number(name, reply, read) && match read {
            Ok(bits) => out == Ok::<Option<u64>, BackendError>(Some(bits)),
            Err(e) => if backend == BackendKind::Libmpv || unavailable(e) {
                out == Ok::<Option<u64>, BackendError>(None)
            } else {
                out == Err::<Option<u64>, BackendError>(e)
            },
        }
}

/// Read an optional number property.
pub fn read_optional_number(backend: BackendKind, name: &str, reply: PropertyReply) -> (out: Result<
    Option<u64>,
    BackendError,
>)
    ensures
        reads_optional_number(backend, name@, reply, out),
{
    let read = read_number(name, reply);
    let out = match read {
        Ok(bits) => Ok(Some(bits)),
        Err(e) => {
            if backend == BackendKind::Libmpv || is_unavailable(&e) {
                Ok(None)
            } else {
                Err(e)
            }
        },
    };
    assert(reads_number(name@, reply, read));
    out
}

/// Whether `out` is what an optional text read gives: a text reply is the
/// text and any other reply is absent; a failed request is absent when mpv
/// reports the property unavailable, or always through libmpv, and stands
/// otherwise.
pub open spec fn reads_optional_text(
    backend: BackendKind,
    reply: PropertyReply,
    out: Result<Option<String>, BackendError>,
) -> bool {
    match reply {
        Err(e) => if backend == BackendKind::Libmpv || unavailable(e) {
            out == Ok::<Option<String>, BackendError>(None)
        } else {
            out == Err::<Option<String>, BackendError>(e)
        },
        Ok(Some(IpcData::Text { text, number: _ })) => out == Ok::<Option<String>, BackendError>(Some(text)),
        Ok(_) => out == Ok::<Option<String>, BackendError>(None),
    }
}

/// Read an optional text property.
pub fn read_optional_text(backend: BackendKind, reply: PropertyReply) -> (out: Result<
    Option<String>,
    BackendError,
>)
    ensures
        reads_optional_text(backend, reply, out),
{
    match reply {
        Err(e) => {
            if backend == BackendKind::Libmpv || is_unavailable(&e) {
                Ok(None)
            } else {
                Err(e)
            }
        },
        Ok(Some(IpcData::Text { text, number: _ })) => Ok(Some(text)),
        Ok(_) => Ok(None),
    }
}

/// Optional reads: through libmpv they never fail; through IPC a failure
/// whose engine message mentions `unavailable` means the property is absent,
/// and any other failure is passed on unchanged. A number or text that was
/// read is kept.
pub proof fn lemma_optional_reads(
    backend: BackendKind,
    name: Seq<char>,
    reply: PropertyReply,
    number: Result<Option<u64>, BackendError>,
    text: Result<Option<String>, BackendError>,
)
    requires
        reads_optional_number(backend, name, reply, number),
        reads_optional_text(backend, reply, text),
    ensures
        backend == BackendKind::Libmpv ==> number is Ok && text is Ok,
        forall|e: BackendError, message: String|
            reply == Err::<Option<IpcData>, BackendError>(e) && backend == BackendKind::Sidecar
                && e == (BackendError::Engine { message }) && contains_text(message@, "unavailable"@)
                ==> number == Ok::<Option<u64>, BackendError>(None) && text == Ok::<
                Option<String>,
                BackendError,
            >(None),
        forall|e: BackendError|
            reply == Err::<Option<IpcData>, BackendError>(e) && backend == BackendKind::Sidecar
                && !(e matches BackendError::Engine { message } && contains_text(message@, "unavailable"@))
                ==> number == Err::<Option<u64>, BackendError>(e) && text == Err::<
                Option<String>,
                BackendError,
            >(e),
        forall|bits: u64|
            reply == Ok::<Option<IpcData>, BackendError>(Some(IpcData::Number(Some(bits)))) ==> number
                == Ok::<Option<u64>, BackendError>(Some(bits)),
        forall|t: String, n: Option<u64>|
            reply == Ok::<Option<IpcData>, BackendError>(Some(IpcData::Text { text: t, number: n }))
                ==> text == Ok::<Option<String>, BackendError>(Some(t)),
{
    let read = choose|read: Result<u64, BackendError>|
        #[trigger] reads_number(name, reply, read) && match read {
            Ok(bits) => number == Ok::<Option<u64>, BackendError>(Some(bits)),
            Err(e) => if backend == BackendKind::Libmpv || unavailable(e) {
                number == Ok::<Option<u64>, BackendError>(None)
            } else {
                number == Err::<Option<u64>, BackendError>(e)
            },
        };
}

} // verus!
