//! Records and checks of executable C extensions: port ownership, bounded
//! callback output, and callback status handling.
//!
//! Foreign callbacks are invoked by the host; what they hand back is read into
//! the records below and judged here before anything is retained.

use vstd::prelude::*;
use vstd::utf8::{decode_utf8, encode_utf8, valid_utf8};

use crate::abi::extension::{
    descriptor_outcome, extension_kind_code, outcome_status, pks_extension_descriptor_validate,
    port_views_wf, utf8_view_wf, PointerState, PksExtensionDescriptor, PksExtensionKind,
    PksExtensionPort, MAX_IDENTIFIER_BYTES, MAX_PORTS, PKS_EXTENSION_ABI_MAJOR,
    PKS_EXTENSION_ABI_MINOR,
};
use crate::abi::layout::{
    extension_callbacks_bytes, extension_metrics_bytes, pointer_bytes, signal_buffer_bytes,
};
use crate::abi::session::abi::{PksSessionStatus, PksSessionStatusCode, PksSessionUtf8, status_code_value};
use crate::abi::session::error::AbiError;
use crate::text::{bytes_start_with, decimal_text, push_decimal_i64, push_str, starts_with};

verus! {

/// Largest payload a callback may return, in bytes.
pub const MAX_CALLBACK_PAYLOAD_BYTES: u32 = 1_048_576;

/// Most extension registrations one library may hold.
pub const MAX_LIBRARY_REGISTRATIONS: u32 = 64;

/// Signal flag: the stream has ended; the record carries no bytes.
pub const SIGNAL_FLAG_END_OF_STREAM: u32 = 1;

/// Signal flag: this is the last signal of the stream.
pub const SIGNAL_FLAG_TERMINAL: u32 = 2;

/// One signal payload and its metadata as delivered into a callback; `data`
/// is the payload's address.
#[derive(Clone, Copy, Debug, PartialEq, Eq, Structural)]
pub struct PksExtensionSignalView {
    pub struct_size_bytes: u32,
    pub abi_major: u16,
    pub abi_minor: u16,
    pub data: usize,
    pub len_bytes: u32,
    pub flags: u32,
    pub observed_timestamp_ns: u64,
    pub source_timestamp_ns: u64,
    pub duration_ns: u64,
    pub sequence_number: u64,
}

/// Bounded storage lent to a callback for the signal it returns; `data` is
/// the storage's address.
#[derive(Clone, Copy, Debug, PartialEq, Eq, Structural)]
pub struct PksExtensionSignalBuffer {
    pub struct_size_bytes: u32,
    pub abi_major: u16,
    pub abi_minor: u16,
    pub data: usize,
    pub capacity_bytes: u32,
    pub len_bytes: u32,
    pub flags: u32,
    pub observed_timestamp_ns: u64,
    pub source_timestamp_ns: u64,
    pub duration_ns: u64,
}

/// Declaration of a source, operator and endpoint pipeline.
#[derive(Clone, Debug, PartialEq, Eq)]
pub struct PksExtensionPipelineDeclaration {
    pub struct_size_bytes: u32,
    pub abi_major: u16,
    pub abi_minor: u16,
    pub source_id: PksSessionUtf8,
    pub source_output_port: PksSessionUtf8,
    pub operator_id: PksSessionUtf8,
    pub operator_input_port: PksSessionUtf8,
    pub operator_output_port: PksSessionUtf8,
    pub endpoint_id: PksSessionUtf8,
    pub endpoint_input_port: PksSessionUtf8,
}

/// Aggregate bounded-runtime observations for one executable C pipeline.
///
/// A pipeline holds exactly one source, operator, and endpoint; the count
/// fields keep that constraint explicit while the remaining fields expose the
/// native Session counters rather than callback-owned shadow metrics.
#[derive(Clone, Copy, Debug, PartialEq, Eq, Structural)]
pub struct PksExtensionMetricsSnapshot {
    pub struct_size_bytes: u32,
    pub abi_major: u16,
    pub abi_minor: u16,
    pub external_source_count: u32,
    pub operator_count: u32,
    pub derived_route_count: u32,
    pub reserved: u32,
    pub maximum_buffered_payload_bytes: u64,
    pub source_emitted_total: u64,
    pub source_dropped_total: u64,
    pub source_failure_total: u64,
    pub source_cancellation_total: u64,
    pub operator_input_capacity_signals: u64,
    pub operator_input_depth_signals: u64,
    pub operator_input_peak_signals: u64,
    pub operator_input_enqueued_total: u64,
    pub operator_input_dropped_total: u64,
    pub operator_processed_total: u64,
    pub operator_output_emitted_total: u64,
    pub operator_output_dropped_total: u64,
    pub operator_process_failure_total: u64,
    pub operator_timeout_total: u64,
    pub operator_cancellation_total: u64,
    pub route_capacity_signals: u64,
    pub route_depth_signals: u64,
    pub route_peak_signals: u64,
    pub route_enqueued_total: u64,
    pub route_received_total: u64,
    pub route_dropped_total: u64,
    pub endpoint_received_total: u64,
    pub endpoint_delivered_total: u64,
    pub endpoint_dropped_total: u64,
    pub endpoint_failure_total: u64,
}

/// Why an executable extension record was refused.
#[derive(Clone, Copy, Debug, PartialEq, Eq, Structural)]
pub enum AbiExtensionError {
    Null,
    Misaligned,
    UnsupportedMajor,
    UnsupportedMinor,
    InvalidSize,
    InvalidArgument,
    Status(PksSessionStatus),
    Session(PksSessionStatus),
}

/// Stable text code of each refusal.
pub open spec fn abi_extension_error_code(error: AbiExtensionError) -> Seq<char> {
    match error {
        AbiExtensionError::Null => "NULL_POINTER"@,
        AbiExtensionError::Misaligned => "MISALIGNED_POINTER"@,
        AbiExtensionError::UnsupportedMajor => "UNSUPPORTED_ABI_MAJOR"@,
        AbiExtensionError::UnsupportedMinor => "UNSUPPORTED_ABI_MINOR"@,
        AbiExtensionError::InvalidSize => "INVALID_STRUCT_SIZE"@,
        AbiExtensionError::InvalidArgument => "INVALID_ARGUMENT"@,
        AbiExtensionError::Status(_) => "CALLBACK_STATUS"@,
        AbiExtensionError::Session(_) => "SESSION_STATUS"@,
    }
}

/// The status each refusal is reported with: its own code, or the status a
/// callback or the Session returned.
pub open spec fn abi_extension_error_status(error: AbiExtensionError) -> PksSessionStatus {
    match error {
        AbiExtensionError::Null => PksSessionStatus {
            code: status_code_value(PksSessionStatusCode::NullArgument),
            detail: 0,
        },
        AbiExtensionError::Misaligned => PksSessionStatus {
            code: status_code_value(PksSessionStatusCode::MisalignedPointer),
            detail: 0,
        },
        AbiExtensionError::UnsupportedMajor => PksSessionStatus {
            code: status_code_value(PksSessionStatusCode::UnsupportedAbiMajor),
            detail: 0,
        },
        AbiExtensionError::UnsupportedMinor => PksSessionStatus {
            code: status_code_value(PksSessionStatusCode::UnsupportedAbiMinor),
            detail: 0,
        },
        AbiExtensionError::InvalidSize => PksSessionStatus {
            code: status_code_value(PksSessionStatusCode::InvalidStructSize),
            detail: 0,
        },
        AbiExtensionError::InvalidArgument => PksSessionStatus {
            code: status_code_value(PksSessionStatusCode::InvalidArgument),
            detail: 0,
        },
        AbiExtensionError::Status(status) => status,
        AbiExtensionError::Session(status) => status,
    }
}

impl AbiExtensionError {
    /// Stable text code of this refusal.
    pub fn code(&self) -> (r: &'static str)
        ensures
            r@ == abi_extension_error_code(*self),
    {
        match self {
            AbiExtensionError::Null => "NULL_POINTER",
            AbiExtensionError::Misaligned => "MISALIGNED_POINTER",
            AbiExtensionError::UnsupportedMajor => "UNSUPPORTED_ABI_MAJOR",
            AbiExtensionError::UnsupportedMinor => "UNSUPPORTED_ABI_MINOR",
            AbiExtensionError::InvalidSize => "INVALID_STRUCT_SIZE",
            AbiExtensionError::InvalidArgument => "INVALID_ARGUMENT",
            AbiExtensionError::Status(_) => "CALLBACK_STATUS",
            AbiExtensionError::Session(_) => "SESSION_STATUS",
        }
    }

    /// The status this refusal is reported with.
    pub fn status(self) -> (r: PksSessionStatus)
        ensures
            r == abi_extension_error_status(self),
    {
        match self {
            AbiExtensionError::Null => PksSessionStatus::new(PksSessionStatusCode::NullArgument, 0),
            AbiExtensionError::Misaligned => PksSessionStatus::new(
                PksSessionStatusCode::MisalignedPointer,
                0,
            ),
            AbiExtensionError::UnsupportedMajor => PksSessionStatus::new(
                PksSessionStatusCode::UnsupportedAbiMajor,
                0,
            ),
            AbiExtensionError::UnsupportedMinor => PksSessionStatus::new(
                PksSessionStatusCode::UnsupportedAbiMinor,
                0,
            ),
            AbiExtensionError::InvalidSize => PksSessionStatus::new(
                PksSessionStatusCode::InvalidStructSize,
                0,
            ),
            AbiExtensionError::InvalidArgument => PksSessionStatus::new(
                PksSessionStatusCode::InvalidArgument,
                0,
            ),
            AbiExtensionError::Status(status) => status,
            AbiExtensionError::Session(status) => status,
        }
    }
}

/// Checks a versioned record's version and size.
pub fn guard_versioned(
    struct_size_bytes: u32,
    abi_major: u16,
    abi_minor: u16,
    required_size: usize,
) -> (r: Result<(), AbiExtensionError>)
    requires
        required_size <= u32::MAX,
    ensures
        r == (if abi_major != PKS_EXTENSION_ABI_MAJOR {
            Err(AbiExtensionError::UnsupportedMajor)
        } else if abi_minor > PKS_EXTENSION_ABI_MINOR {
            Err(AbiExtensionError::UnsupportedMinor)
        } else if struct_size_bytes < required_size {
            Err(AbiExtensionError::InvalidSize)
        } else {
            Ok(())
        }),
{
    if abi_major != PKS_EXTENSION_ABI_MAJOR {
        Err(AbiExtensionError::UnsupportedMajor)
    } else if abi_minor > PKS_EXTENSION_ABI_MINOR {
        Err(AbiExtensionError::UnsupportedMinor)
    } else if (struct_size_bytes as usize) < required_size {
        Err(AbiExtensionError::InvalidSize)
    } else {
        Ok(())
    }
}

/// Whether `c` has the Unicode `White_Space` property, the set
/// `char::is_whitespace` tests.
pub open spec fn is_white_space(c: char) -> bool {
    let v = c as u32;
    (0x09 <= v && v <= 0x0d) || v == 0x20 || v == 0x85 || v == 0xa0 || v == 0x1680 || (0x2000
        <= v && v <= 0x200a) || v == 0x2028 || v == 0x2029 || v == 0x202f || v == 0x205f || v
        == 0x3000
}

fn white_space(c: char) -> (r: bool)
    ensures
        r == is_white_space(c),
{
    let v = c as u32;
    (0x09 <= v && v <= 0x0d) || v == 0x20 || v == 0x85 || v == 0xa0 || v == 0x1680 || (0x2000
        <= v && v <= 0x200a) || v == 0x2028 || v == 0x2029 || v == 0x202f || v == 0x205f || v
        == 0x3000
}

/// Text that trims to nothing: every character is white space.
pub open spec fn is_blank(text: Seq<char>) -> bool {
    forall|i: int| 0 <= i < text.len() ==> is_white_space(#[trigger] text[i])
}

fn blank(text: &str) -> (r: bool)
    ensures
        r == is_blank(text@),
{
    let count = text.unicode_len();
    let mut index: usize = 0;
    while index < count
        invariant
            count == text@.len(),
            index <= count,
            forall|i: int| 0 <= i < index ==> is_white_space(#[trigger] text@[i]),
        decreases count - index,
    {
        if !white_space(text.get_char(index)) {
            return false;
        }
        index = index + 1;
    }
    true
}

/// Calls `String::from_utf8`, which succeeds exactly on well-formed UTF-8
/// and then holds the characters those bytes encode.
#[verifier::external_body]
fn string_from_utf8(bytes: Vec<u8>) -> (r: Option<String>)
    ensures
        match r {
            Some(text) => valid_utf8(bytes@) && text@ == decode_utf8(bytes@),
            None => !valid_utf8(bytes@),
        },
{
    String::from_utf8(bytes).ok()
}

/// Whether a foreign pointer may be read as a value of the given alignment:
/// non-null, and a multiple of the alignment.
pub open spec fn pointer_outcome(address: usize, alignment: usize) -> Result<(), AbiExtensionError> {
    if address == 0 {
        Err(AbiExtensionError::Null)
    } else if address % alignment != 0 {
        Err(AbiExtensionError::Misaligned)
    } else {
        Ok(())
    }
}

/// Checks a foreign pointer before it is read.
pub fn guard_pointer(address: usize, alignment: usize) -> (r: Result<(), AbiExtensionError>)
    requires
        alignment > 0,
    ensures
        r == pointer_outcome(address, alignment),
{
    if address == 0 {
        Err(AbiExtensionError::Null)
    } else if address % alignment != 0 {
        Err(AbiExtensionError::Misaligned)
    } else {
        Ok(())
    }
}

/// Checks a foreign pointer before it is written.
pub fn guard_mut_pointer(address: usize, alignment: usize) -> (r: Result<(), AbiExtensionError>)
    requires
        alignment > 0,
    ensures
        r == pointer_outcome(address, alignment),
{
    guard_pointer(address, alignment)
}

/// Owned copy of a view's text, or why it is refused: it must be readable,
/// within the identifier bound, well-formed UTF-8, and (unless
/// `empty_allowed`) neither empty nor only white space.
pub open spec fn copied_text(view: PksSessionUtf8, empty_allowed: bool) -> Result<
    Seq<char>,
    AbiExtensionError,
> {
    if view.len_bytes == 0 {
        if empty_allowed {
            Ok(seq![])
        } else {
            Err(AbiExtensionError::InvalidArgument)
        }
    } else if view.len_bytes > MAX_IDENTIFIER_BYTES {
        Err(AbiExtensionError::InvalidArgument)
    } else if view.data == 0 {
        Err(AbiExtensionError::Null)
    } else if !valid_utf8(view.bytes@) {
        Err(AbiExtensionError::InvalidArgument)
    } else if !empty_allowed && is_blank(decode_utf8(view.bytes@)) {
        Err(AbiExtensionError::InvalidArgument)
    } else {
        Ok(decode_utf8(view.bytes@))
    }
}

fn copy_view_bytes(bytes: &Vec<u8>) -> (r: Vec<u8>)
    ensures
        r@ == bytes@,
{
    let mut copy: Vec<u8> = Vec::with_capacity(bytes.len());
    let mut index: usize = 0;
    while index < bytes.len()
        invariant
            index <= bytes@.len(),
            copy@ == bytes@.subrange(0, index as int),
        decreases bytes@.len() - index,
    {
        copy.push(bytes[index]);
        index = index + 1;
    }
    assert(copy@ =~= bytes@);
    copy
}

/// Copies a view's text out of foreign memory.
pub fn copy_text(view: &PksSessionUtf8, empty_allowed: bool) -> (r: Result<String, AbiExtensionError>)
    ensures
        match copied_text(*view, empty_allowed) {
            Ok(text) => r matches Ok(s) && s@ == text,
            Err(error) => r == Err::<String, AbiExtensionError>(error),
        },
{
    if view.len_bytes == 0 {
        return if empty_allowed {
            Ok(String::new())
        } else {
            Err(AbiExtensionError::InvalidArgument)
        };
    }
    if view.len_bytes > MAX_IDENTIFIER_BYTES {
        return Err(AbiExtensionError::InvalidArgument);
    }
    match guard_pointer(view.data, 1) {
        Ok(()) => {},
        Err(error) => {
            return Err(error);
        },
    }
    let text = match string_from_utf8(copy_view_bytes(&view.bytes)) {
        Some(text) => text,
        None => {
            return Err(AbiExtensionError::InvalidArgument);
        },
    };
    if !empty_allowed && blank(text.as_str()) {
        return Err(AbiExtensionError::InvalidArgument);
    }
    Ok(text)
}

/// Prefix reserved for the core signals of the host.
pub open spec fn reserved_signal_prefix() -> Seq<char> {
    "pks.signal."@
}

/// An executable extension port the host owns once its record is accepted.
#[derive(Clone, Debug, PartialEq, Eq)]
pub struct ExtensionPortSpec {
    pub name: String,
    pub input: bool,
    pub signal_id: String,
    pub schema: String,
    pub role: Option<String>,
    pub required: bool,
}

/// Whether a port record is accepted and what the host then owns.
///
/// Its signal must not claim the core's reserved signal namespace, so an
/// extension cannot masquerade as realtime audio.
pub open spec fn owned_port_outcome(port: PksExtensionPort) -> Result<
    (Seq<char>, bool, Seq<char>, Seq<char>, Option<Seq<char>>, bool),
    AbiExtensionError,
> {
    if port.direction != 1 && port.direction != 2 {
        Err(AbiExtensionError::InvalidArgument)
    } else if copied_text(port.signal_id, false) is Err {
        Err(copied_text(port.signal_id, false)->Err_0)
    } else if bytes_start_with(
        encode_utf8(copied_text(port.signal_id, false)->Ok_0),
        encode_utf8(reserved_signal_prefix()),
    ) {
        Err(AbiExtensionError::InvalidArgument)
    } else if copied_text(port.schema, false) is Err {
        Err(copied_text(port.schema, false)->Err_0)
    } else if copied_text(port.semantic_role, true) is Err {
        Err(copied_text(port.semantic_role, true)->Err_0)
    } else if copied_text(port.name, false) is Err {
        Err(copied_text(port.name, false)->Err_0)
    } else {
        let role = copied_text(port.semantic_role, true)->Ok_0;
        Ok(
            (
                copied_text(port.name, false)->Ok_0,
                port.direction == 1,
                copied_text(port.signal_id, false)->Ok_0,
                copied_text(port.schema, false)->Ok_0,
                if role.len() == 0 {
                    None
                } else {
                    Some(role)
                },
                port.required != 0,
            ),
        )
    }
}

/// Converts a foreign port record into the port the host owns.
pub fn owned_port(port: &PksExtensionPort) -> (r: Result<ExtensionPortSpec, AbiExtensionError>)
    ensures
        match owned_port_outcome(*port) {
            Ok((name, input, signal_id, schema, role, required)) => r matches Ok(spec) && spec.name@
                == name && spec.input == input && spec.signal_id@ == signal_id && spec.schema@
                == schema && (match spec.role {
                Some(text) => role == Some(text@),
                None => role is None,
            }) && spec.required == required,
            Err(error) => r == Err::<ExtensionPortSpec, AbiExtensionError>(error),
        },
{
    if port.direction != 1 && port.direction != 2 {
        return Err(AbiExtensionError::InvalidArgument);
    }
    let signal_id = copy_text(&port.signal_id, false)?;
    if starts_with(signal_id.as_str(), "pks.signal.") {
        return Err(AbiExtensionError::InvalidArgument);
    }
    let schema = copy_text(&port.schema, false)?;
    let role = copy_text(&port.semantic_role, true)?;
    let name = copy_text(&port.name, false)?;
    let role = if role.as_str().is_empty() {
        None
    } else {
        Some(role)
    };
    Ok(
        ExtensionPortSpec {
            name,
            input: port.direction == 1,
            signal_id,
            schema,
            role,
            required: port.required != 0,
        },
    )
}

/// A signal a callback returned, now owned by the host.
#[derive(Clone, Debug, PartialEq, Eq)]
pub struct ForeignOutput {
    pub bytes: Vec<u8>,
    pub observed_timestamp_ns: u64,
    pub source_timestamp_ns: Option<u64>,
    pub duration_ns: Option<u64>,
    pub terminal: bool,
}

/// An empty output record lending `storage`, found at `storage_address`, to
/// a callback.
pub fn output_buffer(storage: &[u8], storage_address: usize) -> (r: PksExtensionSignalBuffer)
    ensures
        r.struct_size_bytes == (if pointer_bytes() == 8 {
            56int
        } else {
            48int
        }),
        r.abi_major == PKS_EXTENSION_ABI_MAJOR,
        r.abi_minor == PKS_EXTENSION_ABI_MINOR,
        r.data == storage_address,
        r.capacity_bytes == storage@.len() as u32,
        r.len_bytes == 0,
        r.flags == 0,
        r.observed_timestamp_ns == 0,
        r.source_timestamp_ns == 0,
        r.duration_ns == 0,
{
    PksExtensionSignalBuffer {
        struct_size_bytes: signal_buffer_bytes() as u32,
        abi_major: PKS_EXTENSION_ABI_MAJOR,
        abi_minor: PKS_EXTENSION_ABI_MINOR,
        data: storage_address,
        capacity_bytes: storage.len() as u32,
        len_bytes: 0,
        flags: 0,
        observed_timestamp_ns: 0,
        source_timestamp_ns: 0,
        duration_ns: 0,
    }
}

/// Refusal text of a malformed output record.
pub open spec fn invalid_output_text() -> Seq<char> {
    "foreign callback returned an invalid bounded output record"@
}

/// Refusal text of an end-of-stream record that carries bytes.
pub open spec fn end_of_stream_bytes_text() -> Seq<char> {
    "end-of-stream output must have zero bytes"@
}

/// An output record is well formed for the storage lent to the callback: a
/// current-version record of full size naming exactly that storage, holding no
/// more than its capacity, with only known flags.
pub open spec fn output_record_valid(
    output: PksExtensionSignalBuffer,
    storage_len: int,
    storage_address: usize,
) -> bool {
    &&& output.struct_size_bytes >= (if pointer_bytes() == 8 {
        56int
    } else {
        48int
    })
    &&& output.abi_major == PKS_EXTENSION_ABI_MAJOR
    &&& output.abi_minor <= PKS_EXTENSION_ABI_MINOR
    &&& output.capacity_bytes == storage_len as u32
    &&& output.data == storage_address
    &&& output.len_bytes <= output.capacity_bytes
    &&& output.flags & !(SIGNAL_FLAG_END_OF_STREAM | SIGNAL_FLAG_TERMINAL) == 0
}

/// Takes ownership of what a callback wrote into `storage`, found at
/// `storage_address`: nothing at end of stream, else the written prefix and
/// its timing, where a zero source timestamp or duration means none.
pub fn parse_output(
    output: PksExtensionSignalBuffer,
    storage: Vec<u8>,
    storage_address: usize,
) -> (r: Result<Option<ForeignOutput>, String>)
    ensures
        !output_record_valid(output, storage@.len() as int, storage_address) ==> (r matches Err(
            message,
        ) && message@ == invalid_output_text()),
        output_record_valid(output, storage@.len() as int, storage_address) && output.flags
            & SIGNAL_FLAG_END_OF_STREAM != 0 ==> (if output.len_bytes != 0 {
            r matches Err(message) && message@ == end_of_stream_bytes_text()
        } else {
            r matches Ok(None)
        }),
        output_record_valid(output, storage@.len() as int, storage_address) && output.flags
            & SIGNAL_FLAG_END_OF_STREAM == 0 ==> (r matches Ok(Some(signal)) && signal.bytes@
            == storage@.subrange(0, output.len_bytes as int) && signal.observed_timestamp_ns
            == output.observed_timestamp_ns && signal.source_timestamp_ns == (if output.source_timestamp_ns
            == 0 {
            None
        } else {
            Some(output.source_timestamp_ns)
        }) && signal.duration_ns == (if output.duration_ns == 0 {
            None
        } else {
            Some(output.duration_ns)
        }) && signal.terminal == (output.flags & SIGNAL_FLAG_TERMINAL != 0)),
{
    let required = signal_buffer_bytes();
    if (output.struct_size_bytes as usize) < required || output.abi_major != PKS_EXTENSION_ABI_MAJOR
        || output.abi_minor > PKS_EXTENSION_ABI_MINOR || output.capacity_bytes
        != storage.len() as u32 || output.data != storage_address || output.len_bytes
        > output.capacity_bytes || output.flags & !(SIGNAL_FLAG_END_OF_STREAM
        | SIGNAL_FLAG_TERMINAL) != 0 {
        return Err("foreign callback returned an invalid bounded output record".to_owned());
    }
    if output.flags & SIGNAL_FLAG_END_OF_STREAM != 0 {
        if output.len_bytes != 0 {
            return Err("end-of-stream output must have zero bytes".to_owned());
        }
        return Ok(None);
    }
    let mut storage = storage;
    assert(output.len_bytes <= storage@.len()) by {
        assert(output.capacity_bytes == storage@.len() as u32);
    }
    storage.truncate(output.len_bytes as usize);
    Ok(
        Some(
            ForeignOutput {
                bytes: storage,
                observed_timestamp_ns: output.observed_timestamp_ns,
                source_timestamp_ns: if output.source_timestamp_ns != 0 {
                    Some(output.source_timestamp_ns)
                } else {
                    None
                },
                duration_ns: if output.duration_ns != 0 {
                    Some(output.duration_ns)
                } else {
                    None
                },
                terminal: output.flags & SIGNAL_FLAG_TERMINAL != 0,
            },
        ),
    )
}

/// Text of a failed callback status.
pub open spec fn callback_failure_text(status: PksSessionStatus) -> Seq<char> {
    "foreign callback failed with status "@ + decimal_text(status.code as int) + " detail "@
        + decimal_text(status.detail as int)
}

/// Accepts a callback's success status and describes any other.
pub fn callback_result(status: PksSessionStatus) -> (r: Result<(), String>)
    ensures
        status.code == 0 ==> r is Ok,
        status.code != 0 ==> (r matches Err(message) && message@ == callback_failure_text(status)),
{
    if status.code == 0 {
        Ok(())
    } else {
        let mut message = String::new();
        push_str(&mut message, "foreign callback failed with status ");
        push_decimal_i64(&mut message, status.code as i64);
        push_str(&mut message, " detail ");
        push_decimal_i64(&mut message, status.detail as i64);
        Err(message)
    }
}

/// Accepts a success status and carries any other as the callback's refusal.
pub fn status_result(status: PksSessionStatus) -> (r: Result<(), AbiExtensionError>)
    ensures
        status.code == 0 ==> r is Ok,
        status.code != 0 ==> r == Err::<(), AbiExtensionError>(AbiExtensionError::Status(status)),
{
    if status.code == 0 {
        Ok(())
    } else {
        Err(AbiExtensionError::Status(status))
    }
}


/// The callback record of a registration as the host read it: the versioned
/// header, the payload bound, and which entries are present.
#[derive(Clone, Copy, Debug, PartialEq, Eq, Structural)]
pub struct ExtensionCallbackShape {
    pub struct_size_bytes: u32,
    pub abi_major: u16,
    pub abi_minor: u16,
    pub has_registration_context: bool,
    pub max_payload_bytes: u32,
    pub has_validate_configuration: bool,
    pub has_create: bool,
    pub has_prepare: bool,
    pub has_source_next: bool,
    pub has_operator_process: bool,
    pub has_endpoint_consume: bool,
    pub has_request_stop: bool,
    pub has_finish: bool,
    pub has_destroy_instance: bool,
    pub has_destroy_registration: bool,
}

/// Whether a callback record is accepted: a supported version, a complete
/// record, a registration context, a payload bound within the host's limit,
/// and every lifecycle callback present.
pub open spec fn callback_shape_outcome(shape: ExtensionCallbackShape) -> Result<
    (),
    AbiExtensionError,
> {
    if shape.abi_major != PKS_EXTENSION_ABI_MAJOR {
        Err(AbiExtensionError::UnsupportedMajor)
    } else if shape.abi_minor > PKS_EXTENSION_ABI_MINOR {
        Err(AbiExtensionError::UnsupportedMinor)
    } else if shape.struct_size_bytes < 16 + 10 * pointer_bytes() {
        Err(AbiExtensionError::InvalidSize)
    } else if !shape.has_registration_context || shape.max_payload_bytes == 0
        || shape.max_payload_bytes > MAX_CALLBACK_PAYLOAD_BYTES || !shape.has_validate_configuration
        || !shape.has_create || !shape.has_prepare || !shape.has_request_stop || !shape.has_finish
        || !shape.has_destroy_instance || !shape.has_destroy_registration {
        Err(AbiExtensionError::InvalidArgument)
    } else {
        Ok(())
    }
}

/// Checks a registration's callback record.
pub fn validate_callback_shape(shape: &ExtensionCallbackShape) -> (r: Result<(), AbiExtensionError>)
    ensures
        r == callback_shape_outcome(*shape),
{
    let required = extension_callbacks_bytes();
    match guard_versioned(shape.struct_size_bytes, shape.abi_major, shape.abi_minor, required) {
        Ok(()) => {},
        Err(error) => {
            return Err(error);
        },
    }
    if !shape.has_registration_context || shape.max_payload_bytes == 0
        || shape.max_payload_bytes > MAX_CALLBACK_PAYLOAD_BYTES || !shape.has_validate_configuration
        || !shape.has_create || !shape.has_prepare || !shape.has_request_stop || !shape.has_finish
        || !shape.has_destroy_instance || !shape.has_destroy_registration {
        Err(AbiExtensionError::InvalidArgument)
    } else {
        Ok(())
    }
}

/// What the host owns of an accepted port, as plain values: name, whether it
/// is an input, signal, schema, role, and whether it is required.
pub open spec fn owned_port_view(port: ExtensionPortSpec) -> (
    Seq<char>,
    bool,
    Seq<char>,
    Seq<char>,
    Option<Seq<char>>,
    bool,
) {
    (
        port.name@,
        port.input,
        port.signal_id@,
        port.schema@,
        match port.role {
            Some(text) => Some(text@),
            None => None,
        },
        port.required,
    )
}

/// The ports the host owns of a registration's port records, in order, or
/// the refusal of the first record that is not accepted.
pub open spec fn owned_ports_outcome(ports: Seq<PksExtensionPort>) -> Result<
    Seq<(Seq<char>, bool, Seq<char>, Seq<char>, Option<Seq<char>>, bool)>,
    AbiExtensionError,
>
    decreases ports.len(),
{
    if ports.len() == 0 {
        Ok(seq![])
    } else {
        match owned_ports_outcome(ports.drop_last()) {
            Err(error) => Err(error),
            Ok(owned) => match owned_port_outcome(ports.last()) {
                Err(error) => Err(error),
                Ok(port) => Ok(owned.push(port)),
            },
        }
    }
}

/// The kind a registration takes from its declared kind, its callbacks and
/// its owned ports: a source has only a next-signal callback and one output
/// port; an operator only a process callback and one input and one output
/// port; an endpoint only a consume callback and one input port.
pub open spec fn registration_kind_outcome(
    kind: u32,
    shape: ExtensionCallbackShape,
    ports: Seq<(Seq<char>, bool, Seq<char>, Seq<char>, Option<Seq<char>>, bool)>,
) -> Result<PksExtensionKind, AbiExtensionError> {
    if kind == 1 {
        if !shape.has_source_next || shape.has_operator_process || shape.has_endpoint_consume
            || ports.len() != 1 || ports[0].1 {
            Err(AbiExtensionError::InvalidArgument)
        } else {
            Ok(PksExtensionKind::Source)
        }
    } else if kind == 2 {
        if !shape.has_operator_process || shape.has_source_next || shape.has_endpoint_consume
            || ports.len() != 2 || ports[0].1 == ports[1].1 {
            Err(AbiExtensionError::InvalidArgument)
        } else {
            Ok(PksExtensionKind::Operator)
        }
    } else if kind == 3 {
        if !shape.has_endpoint_consume || shape.has_source_next || shape.has_operator_process
            || ports.len() != 1 || !ports[0].1 {
            Err(AbiExtensionError::InvalidArgument)
        } else {
            Ok(PksExtensionKind::Endpoint)
        }
    } else {
        Err(AbiExtensionError::InvalidArgument)
    }
}

/// A prepared registration: its kind, identifier, owned ports and payload
/// bound, or the first refusal met on the way.
pub open spec fn prepared_registration_outcome(
    descriptor: PksExtensionDescriptor,
    ports: Seq<PksExtensionPort>,
    shape: ExtensionCallbackShape,
) -> Result<
    (PksExtensionKind, Seq<char>, Seq<(Seq<char>, bool, Seq<char>, Seq<char>, Option<Seq<char>>, bool)>),
    AbiExtensionError,
> {
    match copied_text(descriptor.extension_id, false) {
        Err(error) => Err(error),
        Ok(id) => match owned_ports_outcome(ports) {
            Err(error) => Err(error),
            Ok(owned) => match registration_kind_outcome(descriptor.kind, shape, owned) {
                Err(error) => Err(error),
                Ok(kind) => Ok((kind, id, owned)),
            },
        },
    }
}

/// An executable extension the host accepted: a source, operator or
/// endpoint with its identifier, the ports it owns and its payload bound.
#[derive(Clone, Debug)]
pub struct ExecutableExtensionRegistration {
    kind: PksExtensionKind,
    id: String,
    ports: Vec<ExtensionPortSpec>,
    max_payload_bytes: u32,
}

impl ExecutableExtensionRegistration {
    /// Whether this registration is the prepared registration `(kind, id,
    /// ports)` with payload bound `max_payload_bytes`.
    pub open spec fn matches_prepared(
        &self,
        prepared: (
            PksExtensionKind,
            Seq<char>,
            Seq<(Seq<char>, bool, Seq<char>, Seq<char>, Option<Seq<char>>, bool)>,
        ),
        max_payload_bytes: u32,
    ) -> bool {
        &&& self.spec_kind() == prepared.0
        &&& self.spec_id() == prepared.1
        &&& self.spec_ports().map_values(|port: ExtensionPortSpec| owned_port_view(port))
            == prepared.2
        &&& self.spec_max_payload_bytes() == max_payload_bytes
    }

    /// Kind of the registration.
    pub closed spec fn spec_kind(&self) -> PksExtensionKind {
        self.kind
    }

    /// Identifier of the registration.
    pub closed spec fn spec_id(&self) -> Seq<char> {
        self.id@
    }

    /// Ports the registration owns, in declaration order.
    pub closed spec fn spec_ports(&self) -> Seq<ExtensionPortSpec> {
        self.ports@
    }

    /// Largest payload its callbacks may hand back, in bytes.
    pub closed spec fn spec_max_payload_bytes(&self) -> u32 {
        self.max_payload_bytes
    }

    /// Identifier of the registration.
    pub fn id(&self) -> (r: &str)
        ensures
            r@ == self.spec_id(),
    {
        self.id.as_str()
    }

    /// Kind of the registration.
    pub fn kind(&self) -> (r: PksExtensionKind)
        ensures
            r == self.spec_kind(),
    {
        self.kind
    }

    /// Ports the registration owns, in declaration order.
    pub fn ports(&self) -> (r: &[ExtensionPortSpec])
        ensures
            r@ == self.spec_ports(),
    {
        self.ports.as_slice()
    }

    /// Largest payload its callbacks may hand back, in bytes.
    pub fn max_payload_bytes(&self) -> (r: u32)
        ensures
            r == self.spec_max_payload_bytes(),
    {
        self.max_payload_bytes
    }
}

fn owned_ports(ports: &[PksExtensionPort]) -> (r: Result<Vec<ExtensionPortSpec>, AbiExtensionError>)
    ensures
        match owned_ports_outcome(ports@) {
            Ok(owned) => r matches Ok(specs) && specs@.map_values(
                |port: ExtensionPortSpec| owned_port_view(port),
            ) == owned,
            Err(error) => r == Err::<Vec<ExtensionPortSpec>, AbiExtensionError>(error),
        },
{
    let mut specs: Vec<ExtensionPortSpec> = Vec::new();
    let mut index: usize = 0;
    while index < ports.len()
        invariant
            index <= ports@.len(),
            owned_ports_outcome(ports@.subrange(0, index as int)) matches Ok(owned) && specs@.map_values(
                |port: ExtensionPortSpec| owned_port_view(port),
            ) == owned,
        decreases ports@.len() - index,
    {
        let ghost before = ports@.subrange(0, index as int);
        let ghost after = ports@.subrange(0, index as int + 1);
        assert(after.drop_last() =~= before);
        assert(after.last() == ports@[index as int]);
        match owned_port(&ports[index]) {
            Ok(spec) => {
                let ghost previous = specs@;
                specs.push(spec);
                assert(specs@.map_values(|port: ExtensionPortSpec| owned_port_view(port))
                    =~= previous.map_values(|port: ExtensionPortSpec| owned_port_view(port)).push(
                    owned_port_view(spec),
                ));
            },
            Err(error) => {
                proof {
                    lemma_owned_ports_error_persists(ports@, index as int + 1);
                }
                assert(ports@.subrange(0, ports@.len() as int) =~= ports@);
                return Err(error);
            },
        }
        index = index + 1;
    }
    assert(ports@.subrange(0, ports@.len() as int) =~= ports@);
    Ok(specs)
}

/// A refusal met by a prefix of the port records is the refusal of all of
/// them.
proof fn lemma_owned_ports_error_persists(ports: Seq<PksExtensionPort>, len: int)
    requires
        0 <= len <= ports.len(),
        owned_ports_outcome(ports.subrange(0, len)) is Err,
    ensures
        owned_ports_outcome(ports) == owned_ports_outcome(ports.subrange(0, len)),
    decreases ports.len() - len,
{
    if len < ports.len() {
        let next = ports.subrange(0, len + 1);
        assert(next.drop_last() =~= ports.subrange(0, len));
        lemma_owned_ports_error_persists(ports, len + 1);
    } else {
        assert(ports.subrange(0, len) =~= ports);
    }
}

/// Prepares a registration from its descriptor, port records and callback
/// record: copies the identifier, takes ownership of the ports, and checks
/// that the callbacks and ports fit the declared kind.
pub fn prepare_registration(
    descriptor: &PksExtensionDescriptor,
    ports: &[PksExtensionPort],
    callbacks: &ExtensionCallbackShape,
) -> (r: Result<ExecutableExtensionRegistration, AbiExtensionError>)
    ensures
        match prepared_registration_outcome(*descriptor, ports@, *callbacks) {
            Ok(prepared) => r matches Ok(registration) && registration.matches_prepared(
                prepared,
                callbacks.max_payload_bytes,
            ),
            Err(error) => r matches Err(e) && e == error,
        },
{
    let id = match copy_text(&descriptor.extension_id, false) {
        Ok(id) => id,
        Err(error) => {
            return Err(error);
        },
    };
    let owned = match owned_ports(ports) {
        Ok(owned) => owned,
        Err(error) => {
            return Err(error);
        },
    };
    let ghost owned_view = owned@.map_values(|port: ExtensionPortSpec| owned_port_view(port));
    assert(owned.len() >= 1 ==> owned_view[0].1 == owned@[0].input);
    assert(owned.len() >= 2 ==> owned_view[1].1 == owned@[1].input);
    let kind = if descriptor.kind == 1 {
        if !callbacks.has_source_next || callbacks.has_operator_process
            || callbacks.has_endpoint_consume || owned.len() != 1 || owned[0].input {
            return Err(AbiExtensionError::InvalidArgument);
        }
        PksExtensionKind::Source
    } else if descriptor.kind == 2 {
        if !callbacks.has_operator_process || callbacks.has_source_next
            || callbacks.has_endpoint_consume || owned.len() != 2 || owned[0].input
            == owned[1].input {
            return Err(AbiExtensionError::InvalidArgument);
        }
        PksExtensionKind::Operator
    } else if descriptor.kind == 3 {
        if !callbacks.has_endpoint_consume || callbacks.has_source_next
            || callbacks.has_operator_process || owned.len() != 1 || !owned[0].input {
            return Err(AbiExtensionError::InvalidArgument);
        }
        PksExtensionKind::Endpoint
    } else {
        return Err(AbiExtensionError::InvalidArgument);
    };
    Ok(
        ExecutableExtensionRegistration {
            kind,
            id,
            ports: owned,
            max_payload_bytes: callbacks.max_payload_bytes,
        },
    )
}


/// The registration a descriptor, its port records and its callback record
/// yield, or the first refusal: the descriptor's own validation (carried as
/// the status it reports), then the callback record, then preparation.
pub open spec fn registration_outcome(
    descriptor: PksExtensionDescriptor,
    ports: Seq<PksExtensionPort>,
    shape: ExtensionCallbackShape,
) -> Result<
    (PksExtensionKind, Seq<char>, Seq<(Seq<char>, bool, Seq<char>, Seq<char>, Option<Seq<char>>, bool)>),
    AbiExtensionError,
> {
    if ports.len() > u32::MAX {
        Err(AbiExtensionError::InvalidArgument)
    } else if descriptor_outcome(descriptor, PointerState::Valid, ports, ports.len() as u32) is Err {
        Err(
            AbiExtensionError::Status(
                PksSessionStatus {
                    code: outcome_status(
                        descriptor_outcome(descriptor, PointerState::Valid, ports, ports.len() as u32),
                    ).0,
                    detail: 0,
                },
            ),
        )
    } else if callback_shape_outcome(shape) is Err {
        Err(callback_shape_outcome(shape)->Err_0)
    } else {
        prepared_registration_outcome(descriptor, ports, shape)
    }
}

/// Why a registration was refused, and whether the host must hand the
/// registration context back to the extension's destroy callback.
#[derive(Clone, Copy, Debug, PartialEq, Eq, Structural)]
pub struct RegistrationFailure {
    pub error: AbiExtensionError,
    pub release_registration: bool,
}

/// Validates and prepares one registration. When
/// `destroy_registration_on_preparation_error` is set, a registration
/// refused after its port count was taken owes its context back to the
/// destroy callback, when it has both.
pub fn build_registration_with_library(
    descriptor: &PksExtensionDescriptor,
    ports: &[PksExtensionPort],
    callbacks: &ExtensionCallbackShape,
    destroy_registration_on_preparation_error: bool,
) -> (r: Result<ExecutableExtensionRegistration, RegistrationFailure>)
    requires
        utf8_view_wf(descriptor.extension_id),
        forall|j: int| 0 <= j < ports@.len() ==> port_views_wf(#[trigger] ports@[j]),
    ensures
        match registration_outcome(*descriptor, ports@, *callbacks) {
            Ok(prepared) => r matches Ok(registration) && registration.matches_prepared(
                prepared,
                callbacks.max_payload_bytes,
            ),
            Err(error) => r matches Err(failure) && failure.error == error
                && failure.release_registration == (ports@.len() <= u32::MAX
                && destroy_registration_on_preparation_error
                && callbacks.has_registration_context && callbacks.has_destroy_registration),
        },
{
    if ports.len() > 0xffff_ffffusize {
        return Err(
            RegistrationFailure {
                error: AbiExtensionError::InvalidArgument,
                release_registration: false,
            },
        );
    }
    let port_count = ports.len() as u32;
    let release = destroy_registration_on_preparation_error && callbacks.has_registration_context
        && callbacks.has_destroy_registration;
    let status = pks_extension_descriptor_validate(
        descriptor,
        PointerState::Valid,
        ports,
        port_count,
    );
    match status_result(status) {
        Ok(()) => {},
        Err(error) => {
            return Err(RegistrationFailure { error, release_registration: release });
        },
    }
    match validate_callback_shape(callbacks) {
        Ok(()) => {},
        Err(error) => {
            return Err(RegistrationFailure { error, release_registration: release });
        },
    }
    match prepare_registration(descriptor, ports, callbacks) {
        Ok(registration) => Ok(registration),
        Err(error) => Err(RegistrationFailure { error, release_registration: release }),
    }
}

/// Validates and prepares one registration handed over directly, which
/// keeps ownership of its context on refusal.
pub fn build_registration(
    descriptor: &PksExtensionDescriptor,
    ports: &[PksExtensionPort],
    callbacks: &ExtensionCallbackShape,
) -> (r: Result<ExecutableExtensionRegistration, AbiExtensionError>)
    requires
        utf8_view_wf(descriptor.extension_id),
        forall|j: int| 0 <= j < ports@.len() ==> port_views_wf(#[trigger] ports@[j]),
    ensures
        match registration_outcome(*descriptor, ports@, *callbacks) {
            Ok(prepared) => r matches Ok(registration) && registration.matches_prepared(
                prepared,
                callbacks.max_payload_bytes,
            ),
            Err(error) => r == Err::<ExecutableExtensionRegistration, AbiExtensionError>(error),
        },
{
    match build_registration_with_library(descriptor, ports, callbacks, false) {
        Ok(registration) => Ok(registration),
        Err(failure) => Err(failure.error),
    }
}


/// The ports the host owns correspond one to one to the port records.
proof fn lemma_owned_ports_len(ports: Seq<PksExtensionPort>)
    requires
        owned_ports_outcome(ports) is Ok,
    ensures
        owned_ports_outcome(ports)->Ok_0.len() == ports.len(),
    decreases ports.len(),
{
    if ports.len() > 0 {
        lemma_owned_ports_len(ports.drop_last());
    }
}

/// An accepted registration is of the kind its descriptor declares, owns
/// exactly the declared number of ports (at least one, at most the port
/// bound), and has a payload bound within the host's limit.
pub proof fn lemma_accepted_registration_matches_descriptor(
    descriptor: PksExtensionDescriptor,
    ports: Seq<PksExtensionPort>,
    shape: ExtensionCallbackShape,
)
    requires
        registration_outcome(descriptor, ports, shape) is Ok,
    ensures
        extension_kind_code(registration_outcome(descriptor, ports, shape)->Ok_0.0)
            == descriptor.kind,
        registration_outcome(descriptor, ports, shape)->Ok_0.2.len() == descriptor.port_count,
        1 <= descriptor.port_count <= MAX_PORTS,
        0 < shape.max_payload_bytes <= MAX_CALLBACK_PAYLOAD_BYTES,
{
    lemma_owned_ports_len(ports);
}

/// Runtime counters of one external source of a pipeline.
#[derive(Clone, Copy, Debug, PartialEq, Eq, Structural)]
pub struct ExtensionSourceCounters {
    pub emitted_total: u64,
    pub dropped_total: u64,
    pub failure_total: u64,
    pub cancellation_total: u64,
}

/// Input-edge and worker counters of one operator of a pipeline.
#[derive(Clone, Copy, Debug, PartialEq, Eq, Structural)]
pub struct ExtensionOperatorCounters {
    pub input_capacity_signals: u64,
    pub input_depth_signals: u64,
    pub input_peak_signals: u64,
    pub input_enqueued_total: u64,
    pub input_dropped_total: u64,
    pub processed_total: u64,
    pub output_emitted_total: u64,
    pub output_dropped_total: u64,
    pub process_failure_total: u64,
    pub timeout_total: u64,
    pub cancellation_total: u64,
}

/// Counters of the endpoint a derived route feeds.
#[derive(Clone, Copy, Debug, PartialEq, Eq, Structural)]
pub struct ExtensionEndpointCounters {
    pub received_total: u64,
    pub delivered_total: u64,
    pub dropped_total: u64,
    pub failure_total: u64,
}

/// Output counters of one derived route, with its endpoint's when it has one.
#[derive(Clone, Copy, Debug, PartialEq, Eq, Structural)]
pub struct ExtensionRouteCounters {
    pub maximum_buffered_payload_bytes: u64,
    pub capacity_signals: u64,
    pub depth_signals: u64,
    pub peak_signals: u64,
    pub enqueued_total: u64,
    pub received_total: u64,
    pub dropped_total: u64,
    pub endpoint: Option<ExtensionEndpointCounters>,
}

/// Sum of a sequence of counters.
pub open spec fn counter_sum(values: Seq<u64>) -> int
    decreases values.len(),
{
    if values.len() == 0 {
        0
    } else {
        counter_sum(values.drop_last()) + values.last()
    }
}

/// Sum of a sequence of counters, capped at `u64::MAX`.
pub open spec fn capped_sum(values: Seq<u64>) -> u64 {
    if counter_sum(values) > u64::MAX {
        u64::MAX
    } else {
        counter_sum(values) as u64
    }
}

proof fn lemma_counter_sum_nonnegative(values: Seq<u64>)
    ensures
        counter_sum(values) >= 0,
    decreases values.len(),
{
    if values.len() > 0 {
        lemma_counter_sum_nonnegative(values.drop_last());
    }
}

/// Adding a counter to a capped sum, saturating, caps the longer sum.
proof fn lemma_capped_sum_push(values: Seq<u64>, value: u64)
    ensures
        capped_sum(values.push(value)) == (if capped_sum(values) + value > u64::MAX {
            u64::MAX
        } else {
            (capped_sum(values) + value) as u64
        }),
{
    assert(values.push(value).drop_last() =~= values);
    lemma_counter_sum_nonnegative(values);
}

fn saturating_sum_step(total: u64, value: u64) -> (r: u64)
    ensures
        r == (if total + value > u64::MAX {
            u64::MAX
        } else {
            (total + value) as u64
        }),
{
    total.saturating_add(value)
}

/// The values of one counter across records, in record order.
pub open spec fn source_emitted_total(values: Seq<ExtensionSourceCounters>) -> Seq<u64> {
    values.map_values(|s: ExtensionSourceCounters| s.emitted_total)
}

pub open spec fn source_dropped_total(values: Seq<ExtensionSourceCounters>) -> Seq<u64> {
    values.map_values(|s: ExtensionSourceCounters| s.dropped_total)
}

pub open spec fn source_failure_total(values: Seq<ExtensionSourceCounters>) -> Seq<u64> {
    values.map_values(|s: ExtensionSourceCounters| s.failure_total)
}

pub open spec fn source_cancellation_total(values: Seq<ExtensionSourceCounters>) -> Seq<u64> {
    values.map_values(|s: ExtensionSourceCounters| s.cancellation_total)
}

pub open spec fn operator_input_capacity_signals(values: Seq<ExtensionOperatorCounters>) -> Seq<u64> {
    values.map_values(|o: ExtensionOperatorCounters| o.input_capacity_signals)
}

pub open spec fn operator_input_depth_signals(values: Seq<ExtensionOperatorCounters>) -> Seq<u64> {
    values.map_values(|o: ExtensionOperatorCounters| o.input_depth_signals)
}

pub open spec fn operator_input_peak_signals(values: Seq<ExtensionOperatorCounters>) -> Seq<u64> {
    values.map_values(|o: ExtensionOperatorCounters| o.input_peak_signals)
}

pub open spec fn operator_input_enqueued_total(values: Seq<ExtensionOperatorCounters>) -> Seq<u64> {
    values.map_values(|o: ExtensionOperatorCounters| o.input_enqueued_total)
}

pub open spec fn operator_input_dropped_total(values: Seq<ExtensionOperatorCounters>) -> Seq<u64> {
    values.map_values(|o: ExtensionOperatorCounters| o.input_dropped_total)
}

pub open spec fn operator_processed_total(values: Seq<ExtensionOperatorCounters>) -> Seq<u64> {
    values.map_values(|o: ExtensionOperatorCounters| o.processed_total)
}

pub open spec fn operator_output_emitted_total(values: Seq<ExtensionOperatorCounters>) -> Seq<u64> {
    values.map_values(|o: ExtensionOperatorCounters| o.output_emitted_total)
}

pub open spec fn operator_output_dropped_total(values: Seq<ExtensionOperatorCounters>) -> Seq<u64> {
    values.map_values(|o: ExtensionOperatorCounters| o.output_dropped_total)
}

pub open spec fn operator_process_failure_total(values: Seq<ExtensionOperatorCounters>) -> Seq<u64> {
    values.map_values(|o: ExtensionOperatorCounters| o.process_failure_total)
}

pub open spec fn operator_timeout_total(values: Seq<ExtensionOperatorCounters>) -> Seq<u64> {
    values.map_values(|o: ExtensionOperatorCounters| o.timeout_total)
}

pub open spec fn operator_cancellation_total(values: Seq<ExtensionOperatorCounters>) -> Seq<u64> {
    values.map_values(|o: ExtensionOperatorCounters| o.cancellation_total)
}

pub open spec fn route_maximum_buffered_payload_bytes(values: Seq<ExtensionRouteCounters>) -> Seq<u64> {
    values.map_values(|r: ExtensionRouteCounters| r.maximum_buffered_payload_bytes)
}

pub open spec fn route_capacity_signals(values: Seq<ExtensionRouteCounters>) -> Seq<u64> {
    values.map_values(|r: ExtensionRouteCounters| r.capacity_signals)
}

pub open spec fn route_depth_signals(values: Seq<ExtensionRouteCounters>) -> Seq<u64> {
    values.map_values(|r: ExtensionRouteCounters| r.depth_signals)
}

pub open spec fn route_peak_signals(values: Seq<ExtensionRouteCounters>) -> Seq<u64> {
    values.map_values(|r: ExtensionRouteCounters| r.peak_signals)
}

pub open spec fn route_enqueued_total(values: Seq<ExtensionRouteCounters>) -> Seq<u64> {
    values.map_values(|r: ExtensionRouteCounters| r.enqueued_total)
}

pub open spec fn route_received_total(values: Seq<ExtensionRouteCounters>) -> Seq<u64> {
    values.map_values(|r: ExtensionRouteCounters| r.received_total)
}

pub open spec fn route_dropped_total(values: Seq<ExtensionRouteCounters>) -> Seq<u64> {
    values.map_values(|r: ExtensionRouteCounters| r.dropped_total)
}

pub open spec fn endpoint_received_total(values: Seq<ExtensionRouteCounters>) -> Seq<u64> {
    values.map_values(
        |r: ExtensionRouteCounters|
            match r.endpoint {
                Some(e) => e.received_total,
                None => 0u64,
            },
    )
}

pub open spec fn endpoint_delivered_total(values: Seq<ExtensionRouteCounters>) -> Seq<u64> {
    values.map_values(
        |r: ExtensionRouteCounters|
            match r.endpoint {
                Some(e) => e.delivered_total,
                None => 0u64,
            },
    )
}

pub open spec fn endpoint_dropped_total(values: Seq<ExtensionRouteCounters>) -> Seq<u64> {
    values.map_values(
        |r: ExtensionRouteCounters|
            match r.endpoint {
                Some(e) => e.dropped_total,
                None => 0u64,
            },
    )
}

pub open spec fn endpoint_failure_total(values: Seq<ExtensionRouteCounters>) -> Seq<u64> {
    values.map_values(
        |r: ExtensionRouteCounters|
            match r.endpoint {
                Some(e) => e.failure_total,
                None => 0u64,
            },
    )
}

/// The metrics snapshot of a pipeline from the counters of its external
/// sources, operators and derived routes: each total is the sum of its
/// counter over the records, capped at `u64::MAX`. A record count past
/// `u32::MAX` is refused.
pub fn extension_metrics_snapshot(
    sources: &[ExtensionSourceCounters],
    operators: &[ExtensionOperatorCounters],
    routes: &[ExtensionRouteCounters],
) -> (r: Result<PksExtensionMetricsSnapshot, AbiExtensionError>)
    ensures
        sources@.len() > u32::MAX || operators@.len() > u32::MAX || routes@.len() > u32::MAX
            <==> r is Err,
        r is Err ==> r == Err::<PksExtensionMetricsSnapshot, AbiExtensionError>(
            AbiExtensionError::InvalidArgument,
        ),
        r matches Ok(r) ==> {
            &&& r.struct_size_bytes == 232
            &&& r.abi_major == PKS_EXTENSION_ABI_MAJOR
            &&& r.abi_minor == PKS_EXTENSION_ABI_MINOR
            &&& r.external_source_count == sources@.len()
            &&& r.operator_count == operators@.len()
            &&& r.derived_route_count == routes@.len()
            &&& r.reserved == 0
            &&& r.source_emitted_total == capped_sum(source_emitted_total(sources@))
            &&& r.source_dropped_total == capped_sum(source_dropped_total(sources@))
            &&& r.source_failure_total == capped_sum(source_failure_total(sources@))
            &&& r.source_cancellation_total == capped_sum(source_cancellation_total(sources@))
            &&& r.operator_input_capacity_signals == capped_sum(operator_input_capacity_signals(operators@))
            &&& r.operator_input_depth_signals == capped_sum(operator_input_depth_signals(operators@))
            &&& r.operator_input_peak_signals == capped_sum(operator_input_peak_signals(operators@))
            &&& r.operator_input_enqueued_total == capped_sum(operator_input_enqueued_total(operators@))
            &&& r.operator_input_dropped_total == capped_sum(operator_input_dropped_total(operators@))
            &&& r.operator_processed_total == capped_sum(operator_processed_total(operators@))
            &&& r.operator_output_emitted_total == capped_sum(operator_output_emitted_total(operators@))
            &&& r.operator_output_dropped_total == capped_sum(operator_output_dropped_total(operators@))
            &&& r.operator_process_failure_total == capped_sum(operator_process_failure_total(operators@))
            &&& r.operator_timeout_total == capped_sum(operator_timeout_total(operators@))
            &&& r.operator_cancellation_total == capped_sum(operator_cancellation_total(operators@))
            &&& r.maximum_buffered_payload_bytes == capped_sum(route_maximum_buffered_payload_bytes(routes@))
            &&& r.route_capacity_signals == capped_sum(route_capacity_signals(routes@))
            &&& r.route_depth_signals == capped_sum(route_depth_signals(routes@))
            &&& r.route_peak_signals == capped_sum(route_peak_signals(routes@))
            &&& r.route_enqueued_total == capped_sum(route_enqueued_total(routes@))
            &&& r.route_received_total == capped_sum(route_received_total(routes@))
            &&& r.route_dropped_total == capped_sum(route_dropped_total(routes@))
            &&& r.endpoint_received_total == capped_sum(endpoint_received_total(routes@))
            &&& r.endpoint_delivered_total == capped_sum(endpoint_delivered_total(routes@))
            &&& r.endpoint_dropped_total == capped_sum(endpoint_dropped_total(routes@))
            &&& r.endpoint_failure_total == capped_sum(endpoint_failure_total(routes@))
        },
{
    if sources.len() > 0xffff_ffffusize || operators.len() > 0xffff_ffffusize || routes.len()
        > 0xffff_ffffusize {
        return Err(AbiExtensionError::InvalidArgument);
    }
    let mut source_totals = ExtensionSourceCounters {
        emitted_total: 0,
        dropped_total: 0,
        failure_total: 0,
        cancellation_total: 0,
    };
    let mut operator_totals = ExtensionOperatorCounters {
        input_capacity_signals: 0,
        input_depth_signals: 0,
        input_peak_signals: 0,
        input_enqueued_total: 0,
        input_dropped_total: 0,
        processed_total: 0,
        output_emitted_total: 0,
        output_dropped_total: 0,
        process_failure_total: 0,
        timeout_total: 0,
        cancellation_total: 0,
    };
    let mut route_totals = ExtensionRouteCounters {
        maximum_buffered_payload_bytes: 0,
        capacity_signals: 0,
        depth_signals: 0,
        peak_signals: 0,
        enqueued_total: 0,
        received_total: 0,
        dropped_total: 0,
        endpoint: None,
    };
    let mut endpoint_totals = ExtensionEndpointCounters {
        received_total: 0,
        delivered_total: 0,
        dropped_total: 0,
        failure_total: 0,
    };
    proof {
        assert(sources@.subrange(0, 0) =~= Seq::<ExtensionSourceCounters>::empty());
        assert(operators@.subrange(0, 0) =~= Seq::<ExtensionOperatorCounters>::empty());
        assert(routes@.subrange(0, 0) =~= Seq::<ExtensionRouteCounters>::empty());
    }
    let mut index: usize = 0;
    while index < sources.len()
        invariant
            index <= sources@.len(),
            source_totals.emitted_total == capped_sum(source_emitted_total(sources@.subrange(0, index as int))),
            source_totals.dropped_total == capped_sum(source_dropped_total(sources@.subrange(0, index as int))),
            source_totals.failure_total == capped_sum(source_failure_total(sources@.subrange(0, index as int))),
            source_totals.cancellation_total == capped_sum(source_cancellation_total(sources@.subrange(0, index as int))),
        decreases sources@.len() - index,
    {
        let record = sources[index];
        let ghost before = sources@.subrange(0, index as int);
        let ghost after = sources@.subrange(0, index as int + 1);
        assert(after =~= before.push(record));
        proof {
            assert(source_emitted_total(after) =~= source_emitted_total(before).push(record.emitted_total));
            lemma_capped_sum_push(source_emitted_total(before), record.emitted_total);
        }
        source_totals.emitted_total = saturating_sum_step(source_totals.emitted_total, record.emitted_total);
        proof {
            assert(source_dropped_total(after) =~= source_dropped_total(before).push(record.dropped_total));
            lemma_capped_sum_push(source_dropped_total(before), record.dropped_total);
        }
        source_totals.dropped_total = saturating_sum_step(source_totals.dropped_total, record.dropped_total);
        proof {
            assert(source_failure_total(after) =~= source_failure_total(before).push(record.failure_total));
            lemma_capped_sum_push(source_failure_total(before), record.failure_total);
        }
        source_totals.failure_total = saturating_sum_step(source_totals.failure_total, record.failure_total);
        proof {
            assert(source_cancellation_total(after) =~= source_cancellation_total(before).push(record.cancellation_total));
            lemma_capped_sum_push(source_cancellation_total(before), record.cancellation_total);
        }
        source_totals.cancellation_total = saturating_sum_step(source_totals.cancellation_total, record.cancellation_total);
        index = index + 1;
    }
    assert(sources@.subrange(0, sources@.len() as int) =~= sources@);
    let mut index: usize = 0;
    while index < operators.len()
        invariant
            index <= operators@.len(),
            operator_totals.input_capacity_signals == capped_sum(operator_input_capacity_signals(operators@.subrange(0, index as int))),
            operator_totals.input_depth_signals == capped_sum(operator_input_depth_signals(operators@.subrange(0, index as int))),
            operator_totals.input_peak_signals == capped_sum(operator_input_peak_signals(operators@.subrange(0, index as int))),
            operator_totals.input_enqueued_total == capped_sum(operator_input_enqueued_total(operators@.subrange(0, index as int))),
            operator_totals.input_dropped_total == capped_sum(operator_input_dropped_total(operators@.subrange(0, index as int))),
            operator_totals.processed_total == capped_sum(operator_processed_total(operators@.subrange(0, index as int))),
            operator_totals.output_emitted_total == capped_sum(operator_output_emitted_total(operators@.subrange(0, index as int))),
            operator_totals.output_dropped_total == capped_sum(operator_output_dropped_total(operators@.subrange(0, index as int))),
            operator_totals.process_failure_total == capped_sum(operator_process_failure_total(operators@.subrange(0, index as int))),
            operator_totals.timeout_total == capped_sum(operator_timeout_total(operators@.subrange(0, index as int))),
            operator_totals.cancellation_total == capped_sum(operator_cancellation_total(operators@.subrange(0, index as int))),
        decreases operators@.len() - index,
    {
        let record = operators[index];
        let ghost before = operators@.subrange(0, index as int);
        let ghost after = operators@.subrange(0, index as int + 1);
        assert(after =~= before.push(record));
        proof {
            assert(operator_input_capacity_signals(after) =~= operator_input_capacity_signals(before).push(record.input_capacity_signals));
            lemma_capped_sum_push(operator_input_capacity_signals(before), record.input_capacity_signals);
        }
        operator_totals.input_capacity_signals = saturating_sum_step(operator_totals.input_capacity_signals, record.input_capacity_signals);
        proof {
            assert(operator_input_depth_signals(after) =~= operator_input_depth_signals(before).push(record.input_depth_signals));
            lemma_capped_sum_push(operator_input_depth_signals(before), record.input_depth_signals);
        }
        operator_totals.input_depth_signals = saturating_sum_step(operator_totals.input_depth_signals, record.input_depth_signals);
        proof {
            assert(operator_input_peak_signals(after) =~= operator_input_peak_signals(before).push(record.input_peak_signals));
            lemma_capped_sum_push(operator_input_peak_signals(before), record.input_peak_signals);
        }
        operator_totals.input_peak_signals = saturating_sum_step(operator_totals.input_peak_signals, record.input_peak_signals);
        proof {
            assert(operator_input_enqueued_total(after) =~= operator_input_enqueued_total(before).push(record.input_enqueued_total));
            lemma_capped_sum_push(operator_input_enqueued_total(before), record.input_enqueued_total);
        }
        operator_totals.input_enqueued_total = saturating_sum_step(operator_totals.input_enqueued_total, record.input_enqueued_total);
        proof {
            assert(operator_input_dropped_total(after) =~= operator_input_dropped_total(before).push(record.input_dropped_total));
            lemma_capped_sum_push(operator_input_dropped_total(before), record.input_dropped_total);
        }
        operator_totals.input_dropped_total = saturating_sum_step(operator_totals.input_dropped_total, record.input_dropped_total);
        proof {
            assert(operator_processed_total(after) =~= operator_processed_total(before).push(record.processed_total));
            lemma_capped_sum_push(operator_processed_total(before), record.processed_total);
        }
        operator_totals.processed_total = saturating_sum_step(operator_totals.processed_total, record.processed_total);
        proof {
            assert(operator_output_emitted_total(after) =~= operator_output_emitted_total(before).push(record.output_emitted_total));
            lemma_capped_sum_push(operator_output_emitted_total(before), record.output_emitted_total);
        }
        operator_totals.output_emitted_total = saturating_sum_step(operator_totals.output_emitted_total, record.output_emitted_total);
        proof {
            assert(operator_output_dropped_total(after) =~= operator_output_dropped_total(before).push(record.output_dropped_total));
            lemma_capped_sum_push(operator_output_dropped_total(before), record.output_dropped_total);
        }
        operator_totals.output_dropped_total = saturating_sum_step(operator_totals.output_dropped_total, record.output_dropped_total);
        proof {
            assert(operator_process_failure_total(after) =~= operator_process_failure_total(before).push(record.process_failure_total));
            lemma_capped_sum_push(operator_process_failure_total(before), record.process_failure_total);
        }
        operator_totals.process_failure_total = saturating_sum_step(operator_totals.process_failure_total, record.process_failure_total);
        proof {
            assert(operator_timeout_total(after) =~= operator_timeout_total(before).push(record.timeout_total));
            lemma_capped_sum_push(operator_timeout_total(before), record.timeout_total);
        }
        operator_totals.timeout_total = saturating_sum_step(operator_totals.timeout_total, record.timeout_total);
        proof {
            assert(operator_cancellation_total(after) =~= operator_cancellation_total(before).push(record.cancellation_total));
            lemma_capped_sum_push(operator_cancellation_total(before), record.cancellation_total);
        }
        operator_totals.cancellation_total = saturating_sum_step(operator_totals.cancellation_total, record.cancellation_total);
        index = index + 1;
    }
    assert(operators@.subrange(0, operators@.len() as int) =~= operators@);
    let mut index: usize = 0;
    while index < routes.len()
        invariant
            index <= routes@.len(),
            route_totals.maximum_buffered_payload_bytes == capped_sum(route_maximum_buffered_payload_bytes(routes@.subrange(0, index as int))),
            route_totals.capacity_signals == capped_sum(route_capacity_signals(routes@.subrange(0, index as int))),
            route_totals.depth_signals == capped_sum(route_depth_signals(routes@.subrange(0, index as int))),
            route_totals.peak_signals == capped_sum(route_peak_signals(routes@.subrange(0, index as int))),
            route_totals.enqueued_total == capped_sum(route_enqueued_total(routes@.subrange(0, index as int))),
            route_totals.received_total == capped_sum(route_received_total(routes@.subrange(0, index as int))),
            route_totals.dropped_total == capped_sum(route_dropped_total(routes@.subrange(0, index as int))),
            endpoint_totals.received_total == capped_sum(endpoint_received_total(routes@.subrange(0, index as int))),
            endpoint_totals.delivered_total == capped_sum(endpoint_delivered_total(routes@.subrange(0, index as int))),
            endpoint_totals.dropped_total == capped_sum(endpoint_dropped_total(routes@.subrange(0, index as int))),
            endpoint_totals.failure_total == capped_sum(endpoint_failure_total(routes@.subrange(0, index as int))),
        decreases routes@.len() - index,
    {
        let record = routes[index];
        let ghost before = routes@.subrange(0, index as int);
        let ghost after = routes@.subrange(0, index as int + 1);
        assert(after =~= before.push(record));
        proof {
            assert(route_maximum_buffered_payload_bytes(after) =~= route_maximum_buffered_payload_bytes(before).push(record.maximum_buffered_payload_bytes));
            lemma_capped_sum_push(route_maximum_buffered_payload_bytes(before), record.maximum_buffered_payload_bytes);
        }
        route_totals.maximum_buffered_payload_bytes = saturating_sum_step(route_totals.maximum_buffered_payload_bytes, record.maximum_buffered_payload_bytes);
        proof {
            assert(route_capacity_signals(after) =~= route_capacity_signals(before).push(record.capacity_signals));
            lemma_capped_sum_push(route_capacity_signals(before), record.capacity_signals);
        }
        route_totals.capacity_signals = saturating_sum_step(route_totals.capacity_signals, record.capacity_signals);
        proof {
            assert(route_depth_signals(after) =~= route_depth_signals(before).push(record.depth_signals));
            lemma_capped_sum_push(route_depth_signals(before), record.depth_signals);
        }
        route_totals.depth_signals = saturating_sum_step(route_totals.depth_signals, record.depth_signals);
        proof {
            assert(route_peak_signals(after) =~= route_peak_signals(before).push(record.peak_signals));
            lemma_capped_sum_push(route_peak_signals(before), record.peak_signals);
        }
        route_totals.peak_signals = saturating_sum_step(route_totals.peak_signals, record.peak_signals);
        proof {
            assert(route_enqueued_total(after) =~= route_enqueued_total(before).push(record.enqueued_total));
            lemma_capped_sum_push(route_enqueued_total(before), record.enqueued_total);
        }
        route_totals.enqueued_total = saturating_sum_step(route_totals.enqueued_total, record.enqueued_total);
        proof {
            assert(route_received_total(after) =~= route_received_total(before).push(record.received_total));
            lemma_capped_sum_push(route_received_total(before), record.received_total);
        }
        route_totals.received_total = saturating_sum_step(route_totals.received_total, record.received_total);
        proof {
            assert(route_dropped_total(after) =~= route_dropped_total(before).push(record.dropped_total));
            lemma_capped_sum_push(route_dropped_total(before), record.dropped_total);
        }
        route_totals.dropped_total = saturating_sum_step(route_totals.dropped_total, record.dropped_total);
        let value_received_total = match record.endpoint {
            Some(e) => e.received_total,
            None => 0,
        };
        proof {
            assert(endpoint_received_total(after) =~= endpoint_received_total(before).push(value_received_total));
            lemma_capped_sum_push(endpoint_received_total(before), value_received_total);
        }
        endpoint_totals.received_total = saturating_sum_step(endpoint_totals.received_total, value_received_total);
        let value_delivered_total = match record.endpoint {
            Some(e) => e.delivered_total,
            None => 0,
        };
        proof {
            assert(endpoint_delivered_total(after) =~= endpoint_delivered_total(before).push(value_delivered_total));
            lemma_capped_sum_push(endpoint_delivered_total(before), value_delivered_total);
        }
        endpoint_totals.delivered_total = saturating_sum_step(endpoint_totals.delivered_total, value_delivered_total);
        let value_dropped_total = match record.endpoint {
            Some(e) => e.dropped_total,
            None => 0,
        };
        proof {
            assert(endpoint_dropped_total(after) =~= endpoint_dropped_total(before).push(value_dropped_total));
            lemma_capped_sum_push(endpoint_dropped_total(before), value_dropped_total);
        }
        endpoint_totals.dropped_total = saturating_sum_step(endpoint_totals.dropped_total, value_dropped_total);
        let value_failure_total = match record.endpoint {
            Some(e) => e.failure_total,
            None => 0,
        };
        proof {
            assert(endpoint_failure_total(after) =~= endpoint_failure_total(before).push(value_failure_total));
            lemma_capped_sum_push(endpoint_failure_total(before), value_failure_total);
        }
        endpoint_totals.failure_total = saturating_sum_step(endpoint_totals.failure_total, value_failure_total);
        index = index + 1;
    }
    assert(routes@.subrange(0, routes@.len() as int) =~= routes@);
    Ok(
        PksExtensionMetricsSnapshot {
            struct_size_bytes: extension_metrics_bytes() as u32,
            abi_major: PKS_EXTENSION_ABI_MAJOR,
            abi_minor: PKS_EXTENSION_ABI_MINOR,
            external_source_count: sources.len() as u32,
            operator_count: operators.len() as u32,
            derived_route_count: routes.len() as u32,
            reserved: 0,
            maximum_buffered_payload_bytes: route_totals.maximum_buffered_payload_bytes,
            route_capacity_signals: route_totals.capacity_signals,
            route_depth_signals: route_totals.depth_signals,
            route_peak_signals: route_totals.peak_signals,
            route_enqueued_total: route_totals.enqueued_total,
            route_received_total: route_totals.received_total,
            route_dropped_total: route_totals.dropped_total,
            source_emitted_total: source_totals.emitted_total,
            source_dropped_total: source_totals.dropped_total,
            source_failure_total: source_totals.failure_total,
            source_cancellation_total: source_totals.cancellation_total,
            operator_input_capacity_signals: operator_totals.input_capacity_signals,
            operator_input_depth_signals: operator_totals.input_depth_signals,
            operator_input_peak_signals: operator_totals.input_peak_signals,
            operator_input_enqueued_total: operator_totals.input_enqueued_total,
            operator_input_dropped_total: operator_totals.input_dropped_total,
            operator_processed_total: operator_totals.processed_total,
            operator_output_emitted_total: operator_totals.output_emitted_total,
            operator_output_dropped_total: operator_totals.output_dropped_total,
            operator_process_failure_total: operator_totals.process_failure_total,
            operator_timeout_total: operator_totals.timeout_total,
            operator_cancellation_total: operator_totals.cancellation_total,
            endpoint_received_total: endpoint_totals.received_total,
            endpoint_delivered_total: endpoint_totals.delivered_total,
            endpoint_dropped_total: endpoint_totals.dropped_total,
            endpoint_failure_total: endpoint_totals.failure_total,
        },
    )
}


/// `registration` is of `kind` under `id`.
pub open spec fn registration_is(
    registration: ExecutableExtensionRegistration,
    kind: PksExtensionKind,
    id: Seq<char>,
) -> bool {
    registration.spec_kind() == kind && registration.spec_id() == id
}

/// Position of the first registration of `kind` under `id`, if any.
pub fn find_registration(
    registrations: &[ExecutableExtensionRegistration],
    kind: PksExtensionKind,
    id: &str,
) -> (r: Option<usize>)
    ensures
        match r {
            Some(index) => index < registrations@.len() && registration_is(
                registrations@[index as int],
                kind,
                id@,
            ) && forall|j: int|
                0 <= j < index ==> !registration_is(#[trigger] registrations@[j], kind, id@),
            None => forall|j: int|
                0 <= j < registrations@.len() ==> !registration_is(
                    #[trigger] registrations@[j],
                    kind,
                    id@,
                ),
        },
{
    let mut index: usize = 0;
    while index < registrations.len()
        invariant
            index <= registrations@.len(),
            forall|j: int|
                0 <= j < index ==> !registration_is(#[trigger] registrations@[j], kind, id@),
        decreases registrations@.len() - index,
    {
        let registration = &registrations[index];
        if registration.kind() == kind && crate::text::text_equals(registration.id(), id) {
            return Some(index);
        }
        index = index + 1;
    }
    None
}

/// The registrations a source, operator and endpoint pipeline runs: the
/// first registration of each kind under its identifier. A session may be
/// declared only while none was created, none is active and no engine host
/// was built; a missing registration is an invalid argument.
pub fn pipeline_registrations(
    session_created: bool,
    active_sessions: usize,
    host_present: bool,
    registrations: &[ExecutableExtensionRegistration],
    source_id: &str,
    operator_id: &str,
    endpoint_id: &str,
) -> (r: Result<(usize, usize, usize), AbiError>)
    ensures
        (session_created || active_sessions != 0 || host_present) ==> r == Err::<
            (usize, usize, usize),
            AbiError,
        >(AbiError::NoCapacity),
        !(session_created || active_sessions != 0 || host_present) ==> match r {
            Ok((source, operator, endpoint)) => {
                &&& source < registrations@.len()
                &&& operator < registrations@.len()
                &&& endpoint < registrations@.len()
                &&& registration_is(
                    registrations@[source as int],
                    PksExtensionKind::Source,
                    source_id@,
                )
                &&& registration_is(
                    registrations@[operator as int],
                    PksExtensionKind::Operator,
                    operator_id@,
                )
                &&& registration_is(
                    registrations@[endpoint as int],
                    PksExtensionKind::Endpoint,
                    endpoint_id@,
                )
                &&& forall|j: int|
                    0 <= j < source ==> !registration_is(
                        #[trigger] registrations@[j],
                        PksExtensionKind::Source,
                        source_id@,
                    )
                &&& forall|j: int|
                    0 <= j < operator ==> !registration_is(
                        #[trigger] registrations@[j],
                        PksExtensionKind::Operator,
                        operator_id@,
                    )
                &&& forall|j: int|
                    0 <= j < endpoint ==> !registration_is(
                        #[trigger] registrations@[j],
                        PksExtensionKind::Endpoint,
                        endpoint_id@,
                    )
            },
            Err(error) => error == AbiError::InvalidArgument && !((exists|j: int|
                0 <= j < registrations@.len() && registration_is(
                    #[trigger] registrations@[j],
                    PksExtensionKind::Source,
                    source_id@,
                )) && (exists|j: int|
                0 <= j < registrations@.len() && registration_is(
                    #[trigger] registrations@[j],
                    PksExtensionKind::Operator,
                    operator_id@,
                )) && (exists|j: int|
                0 <= j < registrations@.len() && registration_is(
                    #[trigger] registrations@[j],
                    PksExtensionKind::Endpoint,
                    endpoint_id@,
                ))),
        },
{
    if session_created || active_sessions != 0 || host_present {
        return Err(AbiError::NoCapacity);
    }
    let source = match find_registration(registrations, PksExtensionKind::Source, source_id) {
        Some(index) => index,
        None => {
            return Err(AbiError::InvalidArgument);
        },
    };
    let operator = match find_registration(registrations, PksExtensionKind::Operator, operator_id) {
        Some(index) => index,
        None => {
            return Err(AbiError::InvalidArgument);
        },
    };
    let endpoint = match find_registration(registrations, PksExtensionKind::Endpoint, endpoint_id) {
        Some(index) => index,
        None => {
            return Err(AbiError::InvalidArgument);
        },
    };
    Ok((source, operator, endpoint))
}


/// Which once-only callbacks of one foreign instance have been claimed.
#[derive(Clone, Copy, Debug, PartialEq, Eq, Structural)]
pub struct ForeignCallbackLifecycle {
    pub prepared: bool,
    pub stopped: bool,
    pub finished: bool,
    pub instance_destroyed: bool,
    pub registration_destroyed: bool,
}

/// Which terminal callbacks a dropped owner of an instance invokes.
#[derive(Clone, Copy, Debug, PartialEq, Eq, Structural)]
pub enum ForeignDestroyAction {
    /// Another owner remains, or the instance was already destroyed.
    Nothing,
    /// Destroy the instance; the registration was already handed back.
    InstanceOnly,
    /// Destroy the instance, then hand the registration context back.
    InstanceAndRegistration,
}

/// Message refusing a second prepare.
pub open spec fn repeated_prepare_text() -> Seq<char> {
    "foreign extension prepare invoked more than once"@
}

/// Whether a stop claim invokes the stop callback, and the state after it:
/// only the first claim invokes it.
pub open spec fn stop_claim(state: ForeignCallbackLifecycle) -> (bool, ForeignCallbackLifecycle) {
    (!state.stopped, ForeignCallbackLifecycle { stopped: true, ..state })
}

/// Whether a finish claim invokes the finish callback, and the state after
/// it: only the first claim invokes it.
pub open spec fn finish_claim(state: ForeignCallbackLifecycle) -> (bool, ForeignCallbackLifecycle) {
    (!state.finished, ForeignCallbackLifecycle { finished: true, ..state })
}

/// The terminal callbacks a dropped owner invokes, and the state after: only
/// the last owner destroys the instance, once, then hands the registration
/// back unless that already happened.
pub open spec fn destroy_claim(state: ForeignCallbackLifecycle, last_owner: bool) -> (
    ForeignDestroyAction,
    ForeignCallbackLifecycle,
) {
    if !last_owner || state.instance_destroyed {
        (ForeignDestroyAction::Nothing, state)
    } else {
        (
            if state.registration_destroyed {
                ForeignDestroyAction::InstanceOnly
            } else {
                ForeignDestroyAction::InstanceAndRegistration
            },
            ForeignCallbackLifecycle {
                instance_destroyed: true,
                registration_destroyed: true,
                ..state
            },
        )
    }
}

impl ForeignCallbackLifecycle {
    /// A freshly created instance: nothing claimed yet.
    pub fn new() -> (r: Self)
        ensures
            r == (ForeignCallbackLifecycle {
                prepared: false,
                stopped: false,
                finished: false,
                instance_destroyed: false,
                registration_destroyed: false,
            }),
    {
        ForeignCallbackLifecycle {
            prepared: false,
            stopped: false,
            finished: false,
            instance_destroyed: false,
            registration_destroyed: false,
        }
    }

    /// Claims the prepare callback: the first claim invokes it, any later one
    /// is refused.
    pub fn claim_prepare(&mut self) -> (r: Result<(), String>)
        ensures
            *final(self) == (ForeignCallbackLifecycle { prepared: true, ..*old(self) }),
            !old(self).prepared ==> r is Ok,
            old(self).prepared ==> (r matches Err(message) && message@ == repeated_prepare_text()),
    {
        if self.prepared {
            let mut message = String::new();
            push_str(&mut message, "foreign extension prepare invoked more than once");
            return Err(message);
        }
        self.prepared = true;
        Ok(())
    }

    /// Claims the stop request: whether to invoke it.
    pub fn claim_stop(&mut self) -> (r: bool)
        ensures
            (r, *final(self)) == stop_claim(*old(self)),
    {
        let invoke = !self.stopped;
        self.stopped = true;
        invoke
    }

    /// Claims the finish callback: whether to invoke it.
    pub fn claim_finish(&mut self) -> (r: bool)
        ensures
            (r, *final(self)) == finish_claim(*old(self)),
    {
        let invoke = !self.finished;
        self.finished = true;
        invoke
    }

    /// Claims the terminal callbacks for an owner being dropped.
    pub fn claim_destroy(&mut self, last_owner: bool) -> (r: ForeignDestroyAction)
        ensures
            (r, *final(self)) == destroy_claim(*old(self), last_owner),
    {
        if !last_owner || self.instance_destroyed {
            return ForeignDestroyAction::Nothing;
        }
        self.instance_destroyed = true;
        if self.registration_destroyed {
            ForeignDestroyAction::InstanceOnly
        } else {
            self.registration_destroyed = true;
            ForeignDestroyAction::InstanceAndRegistration
        }
    }
}

/// The result of stopping then finishing: the stop's failure if it failed,
/// else the finish's.
pub fn stop_and_finish_result(stop: Result<(), String>, finish: Result<(), String>) -> (r: Result<
    (),
    String,
>)
    ensures
        match stop {
            Err(message) => r == Err::<(), String>(message),
            Ok(()) => r == finish,
        },
{
    match stop {
        Err(message) => Err(message),
        Ok(()) => finish,
    }
}

/// Each once-only callback of an instance runs at most once: after any
/// claim of stop, finish or destroy, a further claim of the same callback
/// invokes nothing, and the instance and the registration are each destroyed
/// at most once.
pub proof fn lemma_foreign_callbacks_run_once(
    state: ForeignCallbackLifecycle,
    first_last_owner: bool,
    second_last_owner: bool,
)
    ensures
        !stop_claim(stop_claim(state).1).0,
        !finish_claim(finish_claim(state).1).0,
        destroy_claim(state, first_last_owner).0 != ForeignDestroyAction::Nothing ==> destroy_claim(
            destroy_claim(state, first_last_owner).1,
            second_last_owner,
        ).0 == ForeignDestroyAction::Nothing,
        state.registration_destroyed ==> destroy_claim(state, first_last_owner).0
            != ForeignDestroyAction::InstanceAndRegistration,
{
}


/// Message refusing an operator that ended its stream instead of answering.
pub open spec fn operator_end_of_stream_text() -> Seq<char> {
    "operator returned end-of-stream instead of one output"@
}

/// An operator answers every input with exactly one output: an end of
/// stream in its place is refused, and a refused record stays refused.
pub fn operator_output(parsed: Result<Option<ForeignOutput>, String>) -> (r: Result<
    ForeignOutput,
    String,
>)
    ensures
        match parsed {
            Ok(Some(output)) => r == Ok::<ForeignOutput, String>(output),
            Ok(None) => r matches Err(message) && message@ == operator_end_of_stream_text(),
            Err(message) => r == Err::<ForeignOutput, String>(message),
        },
{
    match parsed {
        Ok(Some(output)) => Ok(output),
        Ok(None) => {
            let mut message = String::new();
            push_str(&mut message, "operator returned end-of-stream instead of one output");
            Err(message)
        },
        Err(message) => Err(message),
    }
}

/// The time a source emission was observed: the callback's own reading, or
/// the host clock when the callback left it zero.
pub fn emission_observed_timestamp_ns(output: &ForeignOutput, clock_now_ns: u64) -> (r: u64)
    ensures
        r == (if output.observed_timestamp_ns == 0 {
            clock_now_ns
        } else {
            output.observed_timestamp_ns
        }),
{
    if output.observed_timestamp_ns == 0 {
        clock_now_ns
    } else {
        output.observed_timestamp_ns
    }
}

} // verus!
