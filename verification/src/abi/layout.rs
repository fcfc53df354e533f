//! Sizes of the C records exchanged across the ABIs.
//!
//! The records are laid out as C lays out their declarations: a data pointer
//! is as wide as the target's pointers, a UTF-8 view is a pointer and a 32-bit
//! length padded to pointer alignment, and every record is padded to its
//! widest field. The sizes below follow from the pointer width alone.

use vstd::prelude::*;

verus! {

/// Bytes in a data pointer on this target: four or eight.
pub open spec fn pointer_bytes() -> int {
    usize::BITS as int / 8
}

fn target_pointer_bytes() -> (r: usize)
    ensures
        r == pointer_bytes(),
        r == 4 || r == 8,
{
    broadcast use vstd::layout::layout_of_primitives;

    core::mem::size_of::<usize>()
}

/// Bytes of a C UTF-8 view record: pointer and length, padded to the pointer.
pub fn utf8_record_bytes() -> (r: usize)
    ensures
        r == 2 * pointer_bytes(),
{
    2 * target_pointer_bytes()
}

/// Bytes of the C Session version record: a 32-bit size and two 16-bit
/// version numbers.
pub fn abi_version_bytes() -> (r: usize)
    ensures
        r == 8,
{
    8
}

/// Bytes of the C engine configuration record: the versioned prefix, four
/// 32-bit fields, two 64-bit durations and four 32-bit fields.
pub fn engine_config_bytes() -> (r: usize)
    ensures
        r == 56,
{
    56
}

/// Bytes of the C application-plus-microphone declaration record: the
/// versioned prefix and one UTF-8 view.
pub fn app_mic_declaration_bytes() -> (r: usize)
    ensures
        r == 8 + 2 * pointer_bytes(),
{
    8 + utf8_record_bytes()
}

/// Bytes of the C extension descriptor record: the versioned prefix, four
/// 32-bit fields and one UTF-8 view.
pub fn extension_descriptor_bytes() -> (r: usize)
    ensures
        r == 24 + 2 * pointer_bytes(),
{
    24 + utf8_record_bytes()
}

/// Bytes of the C extension port record: the versioned prefix, two 32-bit
/// fields and four UTF-8 views.
pub fn extension_port_bytes() -> (r: usize)
    ensures
        r == 16 + 8 * pointer_bytes(),
{
    16 + 4 * utf8_record_bytes()
}

/// Bytes of the C extension callback record: the versioned prefix, the
/// registration context pointer, two 32-bit fields and nine callback
/// pointers.
pub fn extension_callbacks_bytes() -> (r: usize)
    ensures
        r == 16 + 10 * pointer_bytes(),
{
    16 + 10 * target_pointer_bytes()
}

/// Bytes of the C extension metrics record: the versioned prefix, four
/// 32-bit fields and twenty-six 64-bit counters.
pub fn extension_metrics_bytes() -> (r: usize)
    ensures
        r == 232,
{
    232
}

/// Bytes of the C signal buffer record: the versioned prefix, a data
/// pointer, three 32-bit fields and three 64-bit timestamps.
pub fn signal_buffer_bytes() -> (r: usize)
    ensures
        r == (if pointer_bytes() == 8 {
            56int
        } else {
            48int
        }),
{
    if target_pointer_bytes() == 8 {
        56
    } else {
        48
    }
}

/// Bytes of the C pipeline declaration record: the versioned prefix and seven
/// UTF-8 views.
pub fn pipeline_declaration_bytes() -> (r: usize)
    ensures
        r == 8 + 14 * pointer_bytes(),
{
    8 + 7 * utf8_record_bytes()
}

/// Bytes of the C session event record: the versioned prefix, three 32-bit
/// fields padded to eight bytes, and five 64-bit fields.
pub fn session_event_bytes() -> (r: usize)
    ensures
        r == 64,
{
    64
}

} // verus!
