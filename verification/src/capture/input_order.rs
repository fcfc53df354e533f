//! Order of discovered input devices: the default device first, then by
//! name in byte order, keeping discovery order among equals.

use vstd::prelude::*;
use vstd::utf8::encode_utf8;

use crate::capture::identity::CaptureSource;

verus! {

/// `a` sorts strictly before `b` in lexicographic byte order.
pub open spec fn bytes_lt(a: Seq<u8>, b: Seq<u8>) -> bool
    decreases a.len(),
{
    if b.len() == 0 {
        false
    } else if a.len() == 0 {
        true
    } else if a[0] != b[0] {
        a[0] < b[0]
    } else {
        bytes_lt(a.drop_first(), b.drop_first())
    }
}

proof fn lemma_bytes_lt_asymmetric(a: Seq<u8>, b: Seq<u8>)
    ensures
        !(bytes_lt(a, b) && bytes_lt(b, a)),
    decreases a.len(),
{
    if a.len() > 0 && b.len() > 0 && a[0] == b[0] {
        lemma_bytes_lt_asymmetric(a.drop_first(), b.drop_first());
    }
}

proof fn lemma_bytes_lt_transitive(a: Seq<u8>, b: Seq<u8>, c: Seq<u8>)
    requires
        bytes_lt(a, b),
        bytes_lt(b, c),
    ensures
        bytes_lt(a, c),
    decreases a.len(),
{
    if a.len() > 0 && a[0] == b[0] && b[0] == c[0] {
        lemma_bytes_lt_transitive(a.drop_first(), b.drop_first(), c.drop_first());
    }
}

proof fn lemma_bytes_lt_total(a: Seq<u8>, b: Seq<u8>)
    ensures
        a == b || bytes_lt(a, b) || bytes_lt(b, a),
    decreases a.len(),
{
    if a.len() > 0 && b.len() > 0 && a[0] == b[0] {
        lemma_bytes_lt_total(a.drop_first(), b.drop_first());
        if a.drop_first() == b.drop_first() {
            assert(a =~= seq![a[0]] + a.drop_first());
            assert(b =~= seq![b[0]] + b.drop_first());
        }
    } else if a.len() == 0 && b.len() == 0 {
        assert(a =~= b);
    }
}

/// Whether `source` is the default device `default_device_uid` names (with
/// no default, the sources without a device identifier).
pub open spec fn is_default_input(source: CaptureSource, default_device_uid: Option<Seq<char>>) -> bool {
    default_device_uid == (match source.device_uid {
        Some(uid) => Some(uid@),
        None => None::<Seq<char>>,
    })
}

/// `a` sorts strictly before `b`: the default device comes first, then names
/// in byte order.
pub open spec fn input_precedes(
    a: CaptureSource,
    b: CaptureSource,
    default_device_uid: Option<Seq<char>>,
) -> bool {
    let a_default = is_default_input(a, default_device_uid);
    let b_default = is_default_input(b, default_device_uid);
    (a_default && !b_default) || (a_default == b_default && bytes_lt(
        encode_utf8(a.name@),
        encode_utf8(b.name@),
    ))
}

proof fn lemma_precedes_asymmetric(
    a: CaptureSource,
    b: CaptureSource,
    default_device_uid: Option<Seq<char>>,
)
    ensures
        input_precedes(a, b, default_device_uid) ==> !input_precedes(b, a, default_device_uid),
{
    lemma_bytes_lt_asymmetric(encode_utf8(a.name@), encode_utf8(b.name@));
}

/// Sorting no later is transitive.
proof fn lemma_not_after_transitive(
    a: CaptureSource,
    b: CaptureSource,
    c: CaptureSource,
    default_device_uid: Option<Seq<char>>,
)
    requires
        !input_precedes(b, a, default_device_uid),
        !input_precedes(c, b, default_device_uid),
    ensures
        !input_precedes(c, a, default_device_uid),
{
    let na = encode_utf8(a.name@);
    let nb = encode_utf8(b.name@);
    let nc = encode_utf8(c.name@);
    lemma_bytes_lt_total(na, nb);
    lemma_bytes_lt_total(nb, nc);
    lemma_bytes_lt_asymmetric(na, nc);
    if bytes_lt(na, nb) && bytes_lt(nb, nc) {
        lemma_bytes_lt_transitive(na, nb, nc);
    }
}

/// `sorted` is a stable ordering of `sources`: it holds the sources at
/// positions `position` of the input, each once, no source before one that
/// sorts strictly before it, and sources that sort together in their input
/// order.
pub open spec fn is_stable_input_order(
    sources: Seq<CaptureSource>,
    sorted: Seq<CaptureSource>,
    position: Seq<int>,
    default_device_uid: Option<Seq<char>>,
) -> bool {
    &&& sorted.len() == sources.len()
    &&& position.len() == sources.len()
    &&& forall|i: int|
        0 <= i < sorted.len() ==> 0 <= #[trigger] position[i] < sources.len() && sorted[i]
            == sources[position[i]]
    &&& forall|i: int, j: int| 0 <= i < j < sorted.len() ==> position[i] != position[j]
    &&& forall|i: int, j: int|
        0 <= i < j < sorted.len() ==> !input_precedes(
            #[trigger] sorted[j],
            #[trigger] sorted[i],
            default_device_uid,
        )
    &&& forall|i: int, j: int|
        0 <= i < j < sorted.len() && !input_precedes(
            #[trigger] sorted[i],
            #[trigger] sorted[j],
            default_device_uid,
        ) ==> position[i] < position[j]
}

/// The text an optional string holds.
pub open spec fn optional_view(value: Option<&str>) -> Option<Seq<char>> {
    match value {
        Some(text) => Some(text@),
        None => None,
    }
}

fn optional_text(value: &Option<String>) -> (r: Option<&str>)
    ensures
        match value {
            Some(text) => r matches Some(s) && s@ == text@,
            None => r is None,
        },
{
    match value {
        Some(text) => Some(text.as_str()),
        None => None,
    }
}

fn text_same(a: Option<&str>, b: Option<&str>) -> (r: bool)
    ensures
        r == (optional_view(a) == optional_view(b)),
{
    match (a, b) {
        (Some(x), Some(y)) => crate::text::text_equals(x, y),
        (None, None) => true,
        _ => false,
    }
}

fn name_before(a: &str, b: &str) -> (r: bool)
    ensures
        r == bytes_lt(encode_utf8(a@), encode_utf8(b@)),
{
    let ab = a.as_bytes();
    let bb = b.as_bytes();
    let ghost whole_a = ab@;
    let ghost whole_b = bb@;
    let mut index: usize = 0;
    assert(whole_a.skip(0) =~= whole_a);
    assert(whole_b.skip(0) =~= whole_b);
    while index < ab.len() && index < bb.len() && ab[index] == bb[index]
        invariant
            ab@ == encode_utf8(a@),
            bb@ == encode_utf8(b@),
            whole_a == ab@,
            whole_b == bb@,
            index <= ab@.len(),
            index <= bb@.len(),
            bytes_lt(whole_a, whole_b) == bytes_lt(whole_a.skip(index as int), whole_b.skip(
                index as int,
            )),
        decreases ab@.len() - index,
    {
        let ghost sa = whole_a.skip(index as int);
        let ghost sb = whole_b.skip(index as int);
        assert(sa.drop_first() =~= whole_a.skip(index as int + 1));
        assert(sb.drop_first() =~= whole_b.skip(index as int + 1));
        index = index + 1;
    }
    let ghost sa = whole_a.skip(index as int);
    let ghost sb = whole_b.skip(index as int);
    if index == bb.len() {
        assert(sb.len() == 0);
        false
    } else if index == ab.len() {
        assert(sa.len() == 0);
        true
    } else {
        assert(sa[0] == ab@[index as int]);
        assert(sb[0] == bb@[index as int]);
        ab[index] < bb[index]
    }
}

fn precedes(a: &CaptureSource, b: &CaptureSource, default_device_uid: Option<&str>) -> (r: bool)
    ensures
        r == input_precedes(*a, *b, optional_view(default_device_uid)),
{
    let a_default = text_same(default_device_uid, optional_text(&a.device_uid));
    let b_default = text_same(default_device_uid, optional_text(&b.device_uid));
    (a_default && !b_default) || (a_default == b_default && name_before(
        a.name.as_str(),
        b.name.as_str(),
    ))
}

/// Orders discovered input devices: the default device first, then by name
/// in byte order; devices that sort together keep their discovery order.
pub fn order_input_sources(sources: Vec<CaptureSource>, default_device_uid: Option<&str>) -> (r:
    Vec<CaptureSource>)
    ensures
        exists|position: Seq<int>|
            #[trigger] is_stable_input_order(
                sources@,
                r@,
                position,
                optional_view(default_device_uid),
            ),
{
    let ghost default_view = optional_view(default_device_uid);
    let ghost input = sources@;
    let mut remaining = sources;
    let mut sorted: Vec<CaptureSource> = Vec::new();
    let ghost mut position: Seq<int> = Seq::empty();
    while remaining.len() > 0
        invariant
            default_view == optional_view(default_device_uid),
            sorted@.len() + remaining@.len() == input.len(),
            remaining@ == input.skip(sorted@.len() as int),
            position.len() == sorted@.len(),
            forall|i: int|
                0 <= i < sorted@.len() ==> 0 <= #[trigger] position[i] < sorted@.len()
                    && sorted@[i] == input[position[i]],
            forall|i: int, j: int| 0 <= i < j < sorted@.len() ==> position[i] != position[j],
            forall|i: int, j: int|
                0 <= i < j < sorted@.len() ==> !input_precedes(
                    #[trigger] sorted@[j],
                    #[trigger] sorted@[i],
                    default_view,
                ),
            forall|i: int, j: int|
                0 <= i < j < sorted@.len() && !input_precedes(
                    #[trigger] sorted@[i],
                    #[trigger] sorted@[j],
                    default_view,
                ) ==> position[i] < position[j],
        decreases remaining@.len(),
    {
        let ghost k = sorted@.len() as int;
        let next = remaining.remove(0);
        assert(next == input[k]);
        assert(remaining@ =~= input.skip(k + 1));
        let mut slot = sorted.len();
        while slot > 0 && precedes(&next, &sorted[slot - 1], default_device_uid)
            invariant
                slot <= sorted@.len(),
                default_view == optional_view(default_device_uid),
                forall|i: int|
                    slot <= i < sorted@.len() ==> input_precedes(
                        next,
                        #[trigger] sorted@[i],
                        default_view,
                    ),
            decreases slot,
        {
            slot = slot - 1;
        }
        let ghost before = sorted@;
        let ghost before_position = position;
        proof {
            assert forall|i: int| 0 <= i < slot implies !input_precedes(
                next,
                #[trigger] before[i],
                default_view,
            ) by {
                if i < slot - 1 {
                    lemma_not_after_transitive(before[i], before[slot - 1], next, default_view);
                }
            }
            assert forall|i: int| slot <= i < before.len() implies !input_precedes(
                #[trigger] before[i],
                next,
                default_view,
            ) by {
                lemma_precedes_asymmetric(next, before[i], default_view);
            }
        }
        sorted.insert(slot, next);
        proof {
            position = before_position.insert(slot as int, k);
            assert forall|i: int, j: int| 0 <= i < j < sorted@.len() implies !input_precedes(
                #[trigger] sorted@[j],
                #[trigger] sorted@[i],
                default_view,
            ) by {
                if j < slot {
                } else if j == slot {
                } else if i < slot {
                    assert(sorted@[j] == before[j - 1]);
                } else if i == slot {
                    assert(sorted@[j] == before[j - 1]);
                } else {
                    assert(sorted@[j] == before[j - 1]);
                    assert(sorted@[i] == before[i - 1]);
                }
            }
            assert forall|i: int, j: int|
                0 <= i < j < sorted@.len() && !input_precedes(
                    #[trigger] sorted@[i],
                    #[trigger] sorted@[j],
                    default_view,
                ) implies position[i] < position[j] by {
                if j < slot {
                } else if j == slot {
                } else if i < slot {
                    assert(sorted@[j] == before[j - 1]);
                } else if i == slot {
                    assert(sorted@[j] == before[j - 1]);
                } else {
                    assert(sorted@[j] == before[j - 1]);
                    assert(sorted@[i] == before[i - 1]);
                }
            }
            assert forall|i: int| 0 <= i < sorted@.len() implies 0 <= #[trigger] position[i]
                < sorted@.len() && sorted@[i] == input[position[i]] by {
                if i < slot {
                } else if i == slot {
                } else {
                    assert(sorted@[i] == before[i - 1]);
                }
            }
        }
    }
    assert(is_stable_input_order(input, sorted@, position, default_view));
    sorted
}

} // verus!
