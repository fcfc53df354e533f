//! Language-neutral extension descriptor ABI and its validation.
//!
//! Descriptors arrive from foreign code as C records; the host reads them into
//! the records below (a UTF-8 view carries the bytes readable at its address)
//! and classifies each pointer it was handed. Everything after that is decided
//! here: versions, record sizes, identifier text, port shapes and the port
//! directions each extension kind needs.

use vstd::prelude::*;
use vstd::utf8::valid_utf8;

use crate::abi::layout::{extension_descriptor_bytes, extension_port_bytes, pointer_bytes};
use crate::abi::session::abi::{
    status_code_value, PksSessionStatus, PksSessionStatusCode, PksSessionUtf8,
};

verus! {

/// Major version of the extension ABI.
pub const PKS_EXTENSION_ABI_MAJOR: u16 = 1;

/// Minor version of the extension ABI.
pub const PKS_EXTENSION_ABI_MINOR: u16 = 2;

/// Most ports one descriptor may declare.
pub const MAX_PORTS: u32 = 64;

/// Longest identifier text, in bytes.
pub const MAX_IDENTIFIER_BYTES: u32 = 1024;

/// The major and minor extension ABI versions checked during loading.
#[derive(Clone, Copy, Debug, PartialEq, Eq, Structural)]
pub struct PksExtensionAbiVersion {
    pub struct_size_bytes: u32,
    pub abi_major: u16,
    pub abi_minor: u16,
}

impl PksExtensionAbiVersion {
    /// The version record of this host.
    pub fn current() -> (r: Self)
        ensures
            r.struct_size_bytes == 8,
            r.abi_major == PKS_EXTENSION_ABI_MAJOR,
            r.abi_minor == PKS_EXTENSION_ABI_MINOR,
    {
        PksExtensionAbiVersion {
            struct_size_bytes: 8,
            abi_major: PKS_EXTENSION_ABI_MAJOR,
            abi_minor: PKS_EXTENSION_ABI_MINOR,
        }
    }
}

/// The kind of an extension.
#[derive(Clone, Copy, Debug, PartialEq, Eq, Structural)]
pub enum PksExtensionKind {
    Source,
    Operator,
    Endpoint,
}

/// Numeric value of an extension kind on the wire.
pub open spec fn extension_kind_code(kind: PksExtensionKind) -> u32 {
    match kind {
        PksExtensionKind::Source => 1,
        PksExtensionKind::Operator => 2,
        PksExtensionKind::Endpoint => 3,
    }
}

impl PksExtensionKind {
    /// Numeric value of this kind on the wire.
    pub fn code(self) -> (r: u32)
        ensures
            r == extension_kind_code(self),
    {
        match self {
            PksExtensionKind::Source => 1,
            PksExtensionKind::Operator => 2,
            PksExtensionKind::Endpoint => 3,
        }
    }
}

/// Direction of an extension port.
#[derive(Clone, Copy, Debug, PartialEq, Eq, Structural)]
pub enum PksExtensionPortDirection {
    Input,
    Output,
}

/// Numeric value of a port direction on the wire.
pub open spec fn port_direction_code(direction: PksExtensionPortDirection) -> u32 {
    match direction {
        PksExtensionPortDirection::Input => 1,
        PksExtensionPortDirection::Output => 2,
    }
}

impl PksExtensionPortDirection {
    /// Numeric value of this direction on the wire.
    pub fn code(self) -> (r: u32)
        ensures
            r == port_direction_code(self),
    {
        match self {
            PksExtensionPortDirection::Input => 1,
            PksExtensionPortDirection::Output => 2,
        }
    }
}

/// A source, operator, or endpoint descriptor.
#[derive(Clone, Debug, PartialEq, Eq)]
pub struct PksExtensionDescriptor {
    pub struct_size_bytes: u32,
    pub abi_major: u16,
    pub abi_minor: u16,
    pub kind: u32,
    pub revision: u32,
    pub generation: u32,
    pub port_count: u32,
    pub extension_id: PksSessionUtf8,
}

/// One port of an extension, with its direction and signal metadata.
#[derive(Clone, Debug, PartialEq, Eq)]
pub struct PksExtensionPort {
    pub struct_size_bytes: u32,
    pub abi_major: u16,
    pub abi_minor: u16,
    pub direction: u32,
    pub required: u32,
    pub name: PksSessionUtf8,
    pub signal_id: PksSessionUtf8,
    pub semantic_role: PksSessionUtf8,
    pub schema: PksSessionUtf8,
}

/// How the host found a pointer it was handed for a record.
#[derive(Clone, Copy, Debug, PartialEq, Eq, Structural)]
pub enum PointerState {
    Valid,
    Null,
    Misaligned,
}

/// Why an extension record was refused.
#[derive(Clone, Copy, Debug, PartialEq, Eq, Structural)]
pub enum ExtensionAbiError {
    Null,
    Misaligned,
    UnsupportedMajor,
    UnsupportedMinor,
    InvalidSize,
    InvalidArgument,
}

/// The status code reporting each refusal.
pub open spec fn extension_error_code(error: ExtensionAbiError) -> PksSessionStatusCode {
    match error {
        ExtensionAbiError::Null => PksSessionStatusCode::NullArgument,
        ExtensionAbiError::Misaligned => PksSessionStatusCode::MisalignedPointer,
        ExtensionAbiError::UnsupportedMajor => PksSessionStatusCode::UnsupportedAbiMajor,
        ExtensionAbiError::UnsupportedMinor => PksSessionStatusCode::UnsupportedAbiMinor,
        ExtensionAbiError::InvalidSize => PksSessionStatusCode::InvalidStructSize,
        ExtensionAbiError::InvalidArgument => PksSessionStatusCode::InvalidArgument,
    }
}

/// The status an outcome is reported with.
pub open spec fn outcome_status(outcome: Result<(), ExtensionAbiError>) -> (u32, u32) {
    match outcome {
        Ok(()) => (0, 0),
        Err(error) => (status_code_value(extension_error_code(error)), 0),
    }
}

fn status_of(outcome: Result<(), ExtensionAbiError>) -> (r: PksSessionStatus)
    ensures
        (r.code, r.detail) == outcome_status(outcome),
{
    match outcome {
        Ok(()) => PksSessionStatus::ok(),
        Err(error) => {
            let code = match error {
                ExtensionAbiError::Null => PksSessionStatusCode::NullArgument,
                ExtensionAbiError::Misaligned => PksSessionStatusCode::MisalignedPointer,
                ExtensionAbiError::UnsupportedMajor => PksSessionStatusCode::UnsupportedAbiMajor,
                ExtensionAbiError::UnsupportedMinor => PksSessionStatusCode::UnsupportedAbiMinor,
                ExtensionAbiError::InvalidSize => PksSessionStatusCode::InvalidStructSize,
                ExtensionAbiError::InvalidArgument => PksSessionStatusCode::InvalidArgument,
            };
            PksSessionStatus::new(code, 0)
        },
    }
}

/// The refusal a requested version meets, if any.
pub open spec fn version_error(major: u16, minor: u16) -> Option<ExtensionAbiError> {
    if major != PKS_EXTENSION_ABI_MAJOR {
        Some(ExtensionAbiError::UnsupportedMajor)
    } else if minor > PKS_EXTENSION_ABI_MINOR {
        Some(ExtensionAbiError::UnsupportedMinor)
    } else {
        None
    }
}

fn guard_version(major: u16, minor: u16) -> (r: Result<(), ExtensionAbiError>)
    ensures
        match version_error(major, minor) {
            Some(error) => r == Err::<(), ExtensionAbiError>(error),
            None => r is Ok,
        },
{
    if major != PKS_EXTENSION_ABI_MAJOR {
        Err(ExtensionAbiError::UnsupportedMajor)
    } else if minor > PKS_EXTENSION_ABI_MINOR {
        Err(ExtensionAbiError::UnsupportedMinor)
    } else {
        Ok(())
    }
}

fn guard_size(actual: u32, required: usize) -> (r: Result<(), ExtensionAbiError>)
    requires
        required <= u32::MAX,
    ensures
        actual < required ==> r == Err::<(), ExtensionAbiError>(ExtensionAbiError::InvalidSize),
        actual >= required ==> r is Ok,
{
    if (actual as usize) < required {
        Err(ExtensionAbiError::InvalidSize)
    } else {
        Ok(())
    }
}

/// Whether the host accepts records of the requested version and size.
pub fn pks_extension_abi_is_compatible(
    requested_abi_major: u16,
    requested_abi_minor: u16,
    requested_struct_size_bytes: u32,
) -> (r: PksSessionStatus)
    ensures
        (r.code, r.detail) == outcome_status(
            match version_error(requested_abi_major, requested_abi_minor) {
                Some(error) => Err(error),
                None => if requested_struct_size_bytes < 8 {
                    Err(ExtensionAbiError::InvalidSize)
                } else {
                    Ok(())
                },
            },
        ),
{
    let outcome = match guard_version(requested_abi_major, requested_abi_minor) {
        Err(error) => Err(error),
        Ok(()) => guard_size(requested_struct_size_bytes, 8),
    };
    status_of(outcome)
}

/// A UTF-8 view read by the host: when its address is non-null and its
/// declared length within the identifier bound, `bytes` holds exactly the
/// declared bytes.
pub open spec fn utf8_view_wf(view: PksSessionUtf8) -> bool {
    view.data != 0 && view.len_bytes <= MAX_IDENTIFIER_BYTES ==> view.bytes@.len()
        == view.len_bytes
}

/// The bytes a view names, or why they cannot be read.
pub open spec fn view_bytes(view: PksSessionUtf8) -> Result<Seq<u8>, ExtensionAbiError> {
    if view.len_bytes > MAX_IDENTIFIER_BYTES {
        Err(ExtensionAbiError::InvalidArgument)
    } else if view.len_bytes == 0 {
        Ok(seq![])
    } else if view.data == 0 {
        Err(ExtensionAbiError::Null)
    } else {
        Ok(view.bytes@)
    }
}

/// The identifier text a view names, or why it is refused: it must be
/// readable, well-formed UTF-8, and non-empty unless `empty_allowed`.
pub open spec fn text_outcome(view: PksSessionUtf8, empty_allowed: bool) -> Result<
    Seq<u8>,
    ExtensionAbiError,
> {
    match view_bytes(view) {
        Err(error) => Err(error),
        Ok(value) => if (!empty_allowed && value.len() == 0) || !valid_utf8(value) {
            Err(ExtensionAbiError::InvalidArgument)
        } else {
            Ok(value)
        },
    }
}

/// Calls `std::str::from_utf8`, which accepts exactly the well-formed UTF-8
/// byte sequences; returns whether it accepted `bytes`.
#[verifier::external_body]
fn is_valid_utf8(bytes: &[u8]) -> (r: bool)
    ensures
        r == valid_utf8(bytes@),
{
    std::str::from_utf8(bytes).is_ok()
}

fn copy_bytes(bytes: &Vec<u8>) -> (r: Vec<u8>)
    ensures
        r@ == bytes@,
{
    let mut copy: Vec<u8> = Vec::with_capacity(bytes.len());
    let mut index: usize = 0;
    while index < bytes.len()
        invariant
            index <= bytes@.len(),
            copy@ == bytes@.subrange(0, index as int),
        decreases bytes@.len() - index,
    {
        copy.push(bytes[index]);
        index = index + 1;
    }
    assert(copy@ =~= bytes@);
    copy
}

/// Whether a foreign pointer may be read as a value of the given alignment:
/// non-null, and a multiple of the alignment.
pub open spec fn pointer_outcome(address: usize, alignment: usize) -> Result<(), ExtensionAbiError> {
    if address == 0 {
        Err(ExtensionAbiError::Null)
    } else if address % alignment != 0 {
        Err(ExtensionAbiError::Misaligned)
    } else {
        Ok(())
    }
}

/// Checks a foreign pointer before it is read.
pub fn guard_pointer(address: usize, alignment: usize) -> (r: Result<(), ExtensionAbiError>)
    requires
        alignment > 0,
    ensures
        r == pointer_outcome(address, alignment),
{
    if address == 0 {
        Err(ExtensionAbiError::Null)
    } else if address % alignment != 0 {
        Err(ExtensionAbiError::Misaligned)
    } else {
        Ok(())
    }
}

/// Checks a foreign pointer before it is written.
pub fn guard_mut_pointer(address: usize, alignment: usize) -> (r: Result<(), ExtensionAbiError>)
    requires
        alignment > 0,
    ensures
        r == pointer_outcome(address, alignment),
{
    guard_pointer(address, alignment)
}

fn bytes(view: &PksSessionUtf8) -> (r: Result<Vec<u8>, ExtensionAbiError>)
    requires
        utf8_view_wf(*view),
    ensures
        match view_bytes(*view) {
            Ok(value) => r matches Ok(v) && v@ == value,
            Err(error) => r == Err::<Vec<u8>, ExtensionAbiError>(error),
        },
{
    if view.len_bytes > MAX_IDENTIFIER_BYTES {
        return Err(ExtensionAbiError::InvalidArgument);
    }
    if view.len_bytes == 0 {
        return Ok(Vec::new());
    }
    match guard_pointer(view.data, 1) {
        Ok(()) => {},
        Err(error) => {
            return Err(error);
        },
    }
    Ok(copy_bytes(&view.bytes))
}

fn validate_text(view: &PksSessionUtf8, empty_allowed: bool) -> (r: Result<
    Vec<u8>,
    ExtensionAbiError,
>)
    requires
        utf8_view_wf(*view),
    ensures
        match text_outcome(*view, empty_allowed) {
            Ok(value) => r matches Ok(v) && v@ == value,
            Err(error) => r == Err::<Vec<u8>, ExtensionAbiError>(error),
        },
{
    let value = bytes(view)?;
    if (!empty_allowed && value.len() == 0) || !is_valid_utf8(value.as_slice()) {
        return Err(ExtensionAbiError::InvalidArgument);
    }
    Ok(value)
}

/// Every UTF-8 view of a port is well formed.
pub open spec fn port_views_wf(port: PksExtensionPort) -> bool {
    &&& utf8_view_wf(port.name)
    &&& utf8_view_wf(port.signal_id)
    &&& utf8_view_wf(port.semantic_role)
    &&& utf8_view_wf(port.schema)
}

/// The direction a port declares, or why the port is refused; `earlier` are
/// the ports declared before it, whose names it must not repeat.
pub open spec fn port_outcome(port: PksExtensionPort, earlier: Seq<PksExtensionPort>) -> Result<
    PksExtensionPortDirection,
    ExtensionAbiError,
> {
    if version_error(port.abi_major, port.abi_minor) is Some {
        Err(version_error(port.abi_major, port.abi_minor)->0)
    } else if port.struct_size_bytes < 16 + 8 * pointer_bytes() {
        Err(ExtensionAbiError::InvalidSize)
    } else if port.required > 1 {
        Err(ExtensionAbiError::InvalidArgument)
    } else if port.direction != 1 && port.direction != 2 {
        Err(ExtensionAbiError::InvalidArgument)
    } else if text_outcome(port.name, false) is Err {
        Err(text_outcome(port.name, false)->Err_0)
    } else if text_outcome(port.signal_id, false) is Err {
        Err(text_outcome(port.signal_id, false)->Err_0)
    } else if text_outcome(port.semantic_role, true) is Err {
        Err(text_outcome(port.semantic_role, true)->Err_0)
    } else if text_outcome(port.schema, true) is Err {
        Err(text_outcome(port.schema, true)->Err_0)
    } else if exists|j: int|
        0 <= j < earlier.len() && #[trigger] view_bytes(earlier[j].name) == Ok::<
            Seq<u8>,
            ExtensionAbiError,
        >(text_outcome(port.name, false)->Ok_0) {
        Err(ExtensionAbiError::InvalidArgument)
    } else if port.direction == 1 {
        Ok(PksExtensionPortDirection::Input)
    } else {
        Ok(PksExtensionPortDirection::Output)
    }
}

/// Input and output port counts of the first `len` ports, or the first
/// refusal among them.
pub open spec fn ports_outcome(ports: Seq<PksExtensionPort>, len: int) -> Result<
    (u32, u32),
    ExtensionAbiError,
>
    decreases len,
{
    if len <= 0 {
        Ok((0u32, 0u32))
    } else {
        match ports_outcome(ports, len - 1) {
            Err(error) => Err(error),
            Ok((inputs, outputs)) => match port_outcome(ports[len - 1], ports.take(len - 1)) {
                Err(error) => Err(error),
                Ok(PksExtensionPortDirection::Input) => Ok(
                    (if inputs == u32::MAX {
                        inputs
                    } else {
                        (inputs + 1) as u32
                    }, outputs),
                ),
                Ok(PksExtensionPortDirection::Output) => Ok(
                    (inputs, if outputs == u32::MAX {
                        outputs
                    } else {
                        (outputs + 1) as u32
                    }),
                ),
            },
        }
    }
}

/// Whether a descriptor with its ports is accepted, or why it is refused.
pub open spec fn descriptor_outcome(
    descriptor: PksExtensionDescriptor,
    ports_pointer: PointerState,
    ports: Seq<PksExtensionPort>,
    port_count: u32,
) -> Result<(), ExtensionAbiError> {
    let kind = descriptor.kind;
    if version_error(descriptor.abi_major, descriptor.abi_minor) is Some {
        Err(version_error(descriptor.abi_major, descriptor.abi_minor)->0)
    } else if descriptor.struct_size_bytes < 24 + 2 * pointer_bytes() {
        Err(ExtensionAbiError::InvalidSize)
    } else if descriptor.revision == 0 || descriptor.generation == 0 || descriptor.port_count
        != port_count || port_count > MAX_PORTS || !(kind == 1 || kind == 2 || kind == 3) {
        Err(ExtensionAbiError::InvalidArgument)
    } else if text_outcome(descriptor.extension_id, false) is Err {
        Err(text_outcome(descriptor.extension_id, false)->Err_0)
    } else if port_count == 0 {
        Err(ExtensionAbiError::InvalidArgument)
    } else if ports_pointer == PointerState::Null {
        Err(ExtensionAbiError::Null)
    } else if ports_pointer == PointerState::Misaligned {
        Err(ExtensionAbiError::Misaligned)
    } else {
        kind_outcome(kind, ports_outcome(ports, port_count as int))
    }
}

/// Whether the ports' directions suit the extension kind: a source needs an
/// output, an endpoint an input, and an operator both.
pub open spec fn kind_outcome(kind: u32, counts: Result<(u32, u32), ExtensionAbiError>) -> Result<
    (),
    ExtensionAbiError,
> {
    match counts {
        Err(error) => Err(error),
        Ok((inputs, outputs)) => if (kind == 1 && outputs == 0) || (kind == 2 && (inputs == 0
            || outputs == 0)) || (kind == 3 && inputs == 0) {
            Err(ExtensionAbiError::InvalidArgument)
        } else {
            Ok(())
        },
    }
}

fn same_bytes(a: &Vec<u8>, b: &Vec<u8>) -> (r: bool)
    ensures
        r == (a@ == b@),
{
    if a.len() != b.len() {
        return false;
    }
    let mut index: usize = 0;
    while index < a.len()
        invariant
            a@.len() == b@.len(),
            index <= a@.len(),
            forall|j: int| 0 <= j < index ==> a@[j] == b@[j],
        decreases a@.len() - index,
    {
        if a[index] != b[index] {
            return false;
        }
        index = index + 1;
    }
    assert(a@ =~= b@);
    true
}

fn validate_port(ports: &[PksExtensionPort], position: usize) -> (r: Result<
    PksExtensionPortDirection,
    ExtensionAbiError,
>)
    requires
        position < ports@.len(),
        forall|j: int| 0 <= j < ports@.len() ==> port_views_wf(#[trigger] ports@[j]),
    ensures
        r == port_outcome(ports@[position as int], ports@.take(position as int)),
{
    let port = &ports[position];
    let ghost earlier = ports@.take(position as int);
    guard_version(port.abi_major, port.abi_minor)?;
    let required = extension_port_bytes();
    guard_size(port.struct_size_bytes, required)?;
    if port.required > 1 {
        return Err(ExtensionAbiError::InvalidArgument);
    }
    if port.direction != 1 && port.direction != 2 {
        return Err(ExtensionAbiError::InvalidArgument);
    }
    let name = validate_text(&port.name, false)?;
    validate_text(&port.signal_id, false)?;
    validate_text(&port.semantic_role, true)?;
    validate_text(&port.schema, true)?;
    let mut index: usize = 0;
    while index < position
        invariant
            index <= position,
            position < ports@.len(),
            earlier == ports@.take(position as int),
            *port == ports@[position as int],
            version_error(port.abi_major, port.abi_minor) is None,
            port.struct_size_bytes >= 16 + 8 * pointer_bytes(),
            port.required <= 1,
            port.direction == 1 || port.direction == 2,
            text_outcome(port.name, false) == Ok::<Seq<u8>, ExtensionAbiError>(name@),
            text_outcome(port.signal_id, false) is Ok,
            text_outcome(port.semantic_role, true) is Ok,
            text_outcome(port.schema, true) is Ok,
            forall|j: int| 0 <= j < ports@.len() ==> port_views_wf(#[trigger] ports@[j]),
            forall|j: int|
                0 <= j < index ==> #[trigger] view_bytes(earlier[j].name) != Ok::<
                    Seq<u8>,
                    ExtensionAbiError,
                >(name@),
        decreases position - index,
    {
        let previous = bytes(&ports[index].name);
        assert(earlier[index as int] == ports@[index as int]);
        match previous {
            Ok(previous) => {
                if same_bytes(&previous, &name) {
                    assert(earlier[index as int] == ports@[index as int]);
                    assert(view_bytes(earlier[index as int].name) == Ok::<
                        Seq<u8>,
                        ExtensionAbiError,
                    >(name@));
                    return Err(ExtensionAbiError::InvalidArgument);
                }
            },
            Err(_) => {},
        }
        index = index + 1;
    }
    if port.direction == 1 {
        Ok(PksExtensionPortDirection::Input)
    } else {
        Ok(PksExtensionPortDirection::Output)
    }
}

/// Validates a complete source, operator, or endpoint descriptor and its
/// ports without retaining them. `ports_pointer` is how the host found the
/// pointer to the port records; when it is valid, `ports` are the records
/// read there.
pub fn validate_descriptor(
    descriptor: &PksExtensionDescriptor,
    ports_pointer: PointerState,
    ports: &[PksExtensionPort],
    port_count: u32,
) -> (r: Result<(), ExtensionAbiError>)
    requires
        utf8_view_wf(descriptor.extension_id),
        ports_pointer == PointerState::Valid && port_count <= MAX_PORTS ==> ports@.len()
            == port_count,
        forall|j: int| 0 <= j < ports@.len() ==> port_views_wf(#[trigger] ports@[j]),
    ensures
        r == descriptor_outcome(*descriptor, ports_pointer, ports@, port_count),
{
    guard_version(descriptor.abi_major, descriptor.abi_minor)?;
    guard_size(descriptor.struct_size_bytes, extension_descriptor_bytes())?;
    let kind = descriptor.kind;
    if descriptor.revision == 0 || descriptor.generation == 0 || descriptor.port_count != port_count
        || port_count > MAX_PORTS || !(kind == 1 || kind == 2 || kind == 3) {
        return Err(ExtensionAbiError::InvalidArgument);
    }
    validate_text(&descriptor.extension_id, false)?;
    if port_count == 0 {
        return Err(ExtensionAbiError::InvalidArgument);
    }
    match ports_pointer {
        PointerState::Null => {
            return Err(ExtensionAbiError::Null);
        },
        PointerState::Misaligned => {
            return Err(ExtensionAbiError::Misaligned);
        },
        PointerState::Valid => {},
    }
    let mut inputs: u32 = 0;
    let mut outputs: u32 = 0;
    let mut index: usize = 0;
    while index < ports.len()
        invariant
            index <= ports@.len(),
            ports@.len() == port_count,
            forall|j: int| 0 <= j < ports@.len() ==> port_views_wf(#[trigger] ports@[j]),
            ports_outcome(ports@, index as int) == Ok::<(u32, u32), ExtensionAbiError>(
                (inputs, outputs),
            ),
            kind == descriptor.kind,
            descriptor_outcome(*descriptor, ports_pointer, ports@, port_count) == kind_outcome(
                kind,
                ports_outcome(ports@, port_count as int),
            ),
        decreases ports@.len() - index,
    {
        let direction = validate_port(ports, index);
        match direction {
            Err(error) => {
                proof {
                    assert(ports_outcome(ports@, index + 1) == Err::<(u32, u32), ExtensionAbiError>(
                        error,
                    ));
                    lemma_ports_outcome_sticks(ports@, index + 1, port_count as int);
                }
                return Err(error);
            },
            Ok(PksExtensionPortDirection::Input) => {
                inputs = inputs.saturating_add(1);
            },
            Ok(PksExtensionPortDirection::Output) => {
                outputs = outputs.saturating_add(1);
            },
        }
        index = index + 1;
    }
    if (kind == 1 && outputs == 0) || (kind == 2 && (inputs == 0 || outputs == 0)) || (kind == 3
        && inputs == 0) {
        return Err(ExtensionAbiError::InvalidArgument);
    }
    Ok(())
}

/// Once a prefix of the ports is refused, every longer prefix is refused
/// for the same reason.
proof fn lemma_ports_outcome_sticks(ports: Seq<PksExtensionPort>, len: int, longer: int)
    requires
        0 < len <= longer,
        ports_outcome(ports, len) is Err,
    ensures
        ports_outcome(ports, longer) == ports_outcome(ports, len),
    decreases longer - len,
{
    if len < longer {
        lemma_ports_outcome_sticks(ports, len, longer - 1);
    }
}

/// What accepting the first `n` ports establishes: each port passed, port
/// names are pairwise distinct, and the counts are non-zero exactly when a
/// port of that direction exists.
proof fn lemma_accepted_ports(ports: Seq<PksExtensionPort>, n: int)
    requires
        0 <= n <= ports.len(),
        ports_outcome(ports, n) is Ok,
    ensures
        forall|k: int| 0 <= k < n ==> #[trigger] port_outcome(ports[k], ports.take(k)) is Ok,
        (ports_outcome(ports, n)->Ok_0.0 > 0) == (exists|k: int|
            0 <= k < n && #[trigger] ports[k].direction == 1),
        (ports_outcome(ports, n)->Ok_0.1 > 0) == (exists|k: int|
            0 <= k < n && #[trigger] ports[k].direction == 2),
        forall|a: int, b: int|
            0 <= a < b < n ==> #[trigger] text_outcome(ports[a].name, false) != #[trigger] text_outcome(
                ports[b].name,
                false,
            ),
    decreases n,
{
    if n > 0 {
        lemma_accepted_ports(ports, n - 1);
        let last = ports[n - 1];
        let earlier = ports.take(n - 1);
        assert(port_outcome(last, earlier) is Ok);
        assert forall|k: int| 0 <= k < n implies #[trigger] port_outcome(ports[k], ports.take(k)) is Ok by {
            if k < n - 1 {
                assert(port_outcome(ports[k], ports.take(k)) is Ok);
            }
        }
        assert forall|a: int, b: int|
            0 <= a < b < n implies #[trigger] text_outcome(ports[a].name, false) != #[trigger] text_outcome(
            ports[b].name,
            false,
        ) by {
            if b == n - 1 {
                assert(earlier[a] == ports[a]);
                assert(port_outcome(ports[a], ports.take(a)) is Ok);
                assert(text_outcome(ports[a].name, false) is Ok);
                assert(view_bytes(earlier[a].name) != Ok::<Seq<u8>, ExtensionAbiError>(
                    text_outcome(last.name, false)->Ok_0,
                ));
            }
        }
        if exists|k: int| 0 <= k < n && #[trigger] ports[k].direction == 1 {
            let k = choose|k: int| 0 <= k < n && #[trigger] ports[k].direction == 1;
            if k < n - 1 {
                assert(exists|j: int| 0 <= j < n - 1 && #[trigger] ports[j].direction == 1);
            }
        }
        if exists|k: int| 0 <= k < n && #[trigger] ports[k].direction == 2 {
            let k = choose|k: int| 0 <= k < n && #[trigger] ports[k].direction == 2;
            if k < n - 1 {
                assert(exists|j: int| 0 <= j < n - 1 && #[trigger] ports[j].direction == 2);
            }
        }
        if last.direction == 1 {
            assert(ports[n - 1].direction == 1);
        }
        if last.direction == 2 {
            assert(ports[n - 1].direction == 2);
        }
    }
}

/// An accepted descriptor declares between one and `MAX_PORTS` ports, all
/// read, with pairwise distinct names; a source has an output port, an
/// endpoint an input port, and an operator both.
pub proof fn lemma_accepted_descriptor_is_well_formed(
    descriptor: PksExtensionDescriptor,
    ports_pointer: PointerState,
    ports: Seq<PksExtensionPort>,
    port_count: u32,
)
    requires
        ports_pointer == PointerState::Valid && port_count <= MAX_PORTS ==> ports.len()
            == port_count,
        descriptor_outcome(descriptor, ports_pointer, ports, port_count) is Ok,
    ensures
        1 <= port_count <= MAX_PORTS,
        ports.len() == port_count,
        forall|a: int, b: int|
            0 <= a < b < port_count ==> #[trigger] text_outcome(ports[a].name, false) != #[trigger] text_outcome(
                ports[b].name,
                false,
            ),
        descriptor.kind == 1 || descriptor.kind == 2 || descriptor.kind == 3,
        descriptor.kind == 1 || descriptor.kind == 2 ==> exists|k: int|
            0 <= k < port_count && #[trigger] ports[k].direction == 2,
        descriptor.kind == 2 || descriptor.kind == 3 ==> exists|k: int|
            0 <= k < port_count && #[trigger] ports[k].direction == 1,
{
    lemma_accepted_ports(ports, port_count as int);
}

/// The status of validating a descriptor, as the C entry point reports it.
pub fn pks_extension_descriptor_validate(
    descriptor: &PksExtensionDescriptor,
    ports_pointer: PointerState,
    ports: &[PksExtensionPort],
    port_count: u32,
) -> (r: PksSessionStatus)
    requires
        utf8_view_wf(descriptor.extension_id),
        ports_pointer == PointerState::Valid && port_count <= MAX_PORTS ==> ports@.len()
            == port_count,
        forall|j: int| 0 <= j < ports@.len() ==> port_views_wf(#[trigger] ports@[j]),
    ensures
        (r.code, r.detail) == outcome_status(
            descriptor_outcome(*descriptor, ports_pointer, ports@, port_count),
        ),
{
    status_of(validate_descriptor(descriptor, ports_pointer, ports, port_count))
}

} // verus!
