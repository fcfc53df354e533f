//! Identity of one Windows process instance: its process id and creation
//! time, so that a reused process id is never mistaken for the original.

use vstd::prelude::*;

use crate::text::{
    decimal_digits, digits_value, is_digit_char, lemma_decimal_digits, lemma_digits_prefix_value,
    push_decimal_u64, push_str,
};

verus! {

/// One process instance: its id and its creation time in 100 ns units.
#[derive(Debug, Clone, Copy, PartialEq, Eq, Structural)]
pub struct ProcessInstanceFingerprint {
    pub process_id: u32,
    pub creation_time_100ns: u64,
}

/// The stable key text of a process instance.
pub open spec fn fingerprint_key(process_id: nat, creation_time_100ns: nat) -> Seq<char> {
    "wasapi:pid:"@ + decimal_digits(process_id) + ":creation-100ns:"@ + decimal_digits(
        creation_time_100ns,
    )
}

/// Where each part of a fingerprint key lies.
proof fn lemma_key_layout(process_id: nat, creation_time_100ns: nat)
    ensures
        ({
            let key = fingerprint_key(process_id, creation_time_100ns);
            let first = decimal_digits(process_id);
            let second = decimal_digits(creation_time_100ns);
            &&& key.len() == 27 + first.len() + second.len()
            &&& forall|i: int| 0 <= i < first.len() ==> key[11 + i] == first[i]
            &&& key[11 + first.len() as int] == ':'
            &&& forall|j: int| 0 <= j < second.len() ==> key[27 + first.len() + j] == second[j]
            &&& key.subrange(11, 11 + first.len() as int) == first
            &&& key.subrange(27 + first.len() as int, key.len() as int) == second
        }),
{
    reveal_strlit("wasapi:pid:");
    reveal_strlit(":creation-100ns:");
    let key = fingerprint_key(process_id, creation_time_100ns);
    let first = decimal_digits(process_id);
    let second = decimal_digits(creation_time_100ns);
    assert(key.subrange(11, 11 + first.len() as int) =~= first);
    assert(key.subrange(27 + first.len() as int, key.len() as int) =~= second);
}

/// Scans the run of digits of `key` starting at `start`: where it ends, and
/// its value when the run is non-empty and its value is at most `limit`.
fn digit_run(key: &str, count: usize, start: usize, limit: u64) -> (r: (usize, Option<u64>))
    requires
        count == key@.len(),
        start <= count,
    ensures
        start <= r.0 <= count,
        forall|i: int| start <= i < r.0 ==> is_digit_char(#[trigger] key@[i]),
        r.0 < count ==> !is_digit_char(key@[r.0 as int]),
        r.1 == (if r.0 > start && digits_value(key@.subrange(start as int, r.0 as int)) <= limit {
            Some(digits_value(key@.subrange(start as int, r.0 as int)) as u64)
        } else {
            None::<u64>
        }),
{
    let mut end = start;
    let mut value: Option<u64> = Some(0);
    while end < count
        invariant_except_break
            start <= end <= count,
            count == key@.len(),
            forall|i: int| start <= i < end ==> is_digit_char(#[trigger] key@[i]),
            value == (if digits_value(key@.subrange(start as int, end as int)) <= limit {
                Some(digits_value(key@.subrange(start as int, end as int)) as u64)
            } else {
                None::<u64>
            }),
        ensures
            start <= end <= count,
            forall|i: int| start <= i < end ==> is_digit_char(#[trigger] key@[i]),
            end < count ==> !is_digit_char(key@[end as int]),
            value == (if digits_value(key@.subrange(start as int, end as int)) <= limit {
                Some(digits_value(key@.subrange(start as int, end as int)) as u64)
            } else {
                None::<u64>
            }),
        decreases count - end,
    {
        let c = key.get_char(end);
        if !('0' <= c && c <= '9') {
            break;
        }
        let ghost run = key@.subrange(start as int, end + 1);
        proof {
            assert(run.drop_last() =~= key@.subrange(start as int, end as int));
            assert(run.last() == c);
        }
        let digit = (c as u32 - 48) as u64;
        value = match value {
            Some(v) => match v.checked_mul(10) {
                Some(scaled) => match scaled.checked_add(digit) {
                    Some(next) => if next <= limit {
                        Some(next)
                    } else {
                        None
                    },
                    None => None,
                },
                None => None,
            },
            None => None,
        };
        end = end + 1;
    }
    if end == start {
        return (end, None);
    }
    (end, value)
}

impl ProcessInstanceFingerprint {
    /// The fingerprint of one process instance.
    pub fn new(process_id: u32, creation_time_100ns: u64) -> (r: Self)
        ensures
            r.process_id == process_id,
            r.creation_time_100ns == creation_time_100ns,
    {
        ProcessInstanceFingerprint { process_id, creation_time_100ns }
    }

    /// The stable key naming this instance:
    /// `wasapi:pid:{process_id}:creation-100ns:{creation_time_100ns}`.
    pub fn stable_key(&self) -> (r: String)
        ensures
            r@ == fingerprint_key(self.process_id as nat, self.creation_time_100ns as nat),
    {
        let mut key = String::new();
        push_str(&mut key, "wasapi:pid:");
        push_decimal_u64(&mut key, self.process_id as u64);
        push_str(&mut key, ":creation-100ns:");
        push_decimal_u64(&mut key, self.creation_time_100ns);
        key
    }

    /// Whether a queried instance is this one.
    pub fn matches(&self, process_id: u32, creation_time_100ns: u64) -> (r: bool)
        ensures
            r == (self.process_id == process_id && self.creation_time_100ns == creation_time_100ns),
    {
        self.process_id == process_id && self.creation_time_100ns == creation_time_100ns
    }

    /// The instance a stable key names, if it is the key of one.
    pub fn parse(key: &str) -> (r: Option<Self>)
        ensures
            r matches Some(f) ==> key@ == fingerprint_key(
                f.process_id as nat,
                f.creation_time_100ns as nat,
            ),
            forall|process_id: u32, creation_time_100ns: u64|
                key@ == fingerprint_key(process_id as nat, creation_time_100ns as nat) ==> r == Some(
                    ProcessInstanceFingerprint { process_id, creation_time_100ns },
                ),
    {
        let count = key.unicode_len();
        if count < 11 {
            proof {
                lemma_no_short_key(key@);
            }
            return None;
        }
        let (pid_end, pid) = digit_run(key, count, 11, 0xffff_ffff);
        if count - pid_end < 16 {
            proof {
                lemma_runs_of_key(key@);
            }
            return None;
        }
        let (creation_end, creation) = digit_run(key, count, pid_end + 16, u64::MAX);
        proof {
            lemma_runs_of_key(key@);
        }
        match (pid, creation) {
            (Some(process_id), Some(creation_time_100ns)) => {
                let candidate = ProcessInstanceFingerprint {
                    process_id: process_id as u32,
                    creation_time_100ns,
                };
                let rendered = candidate.stable_key();
                let owned = key.to_owned();
                if rendered == owned {
                    Some(candidate)
                } else {
                    None
                }
            },
            _ => None,
        }
    }
}

/// A key shorter than the fixed prefix names no instance.
proof fn lemma_no_short_key(key: Seq<char>)
    requires
        key.len() < 11,
    ensures
        forall|process_id: u32, creation_time_100ns: u64|
            key != fingerprint_key(process_id as nat, creation_time_100ns as nat),
{
    assert forall|process_id: u32, creation_time_100ns: u64|
        key != fingerprint_key(process_id as nat, creation_time_100ns as nat) by {
        lemma_key_layout(process_id as nat, creation_time_100ns as nat);
    }
}

/// How the key of an instance is made of digit runs: the process id's digits
/// from position 11, a non-digit right after them, and the creation time's
/// digits from 16 further to the end.
pub open spec fn key_runs(key: Seq<char>, process_id: nat, creation_time_100ns: nat) -> bool {
    let first = decimal_digits(process_id);
    let second = decimal_digits(creation_time_100ns);
    &&& first.len() >= 1
    &&& second.len() >= 1
    &&& key.len() == 27 + first.len() + second.len()
    &&& forall|i: int| 11 <= i < 11 + first.len() ==> is_digit_char(#[trigger] key[i])
    &&& !is_digit_char(key[11 + first.len() as int])
    &&& forall|j: int| 27 + first.len() <= j < key.len() ==> is_digit_char(#[trigger] key[j])
    &&& digits_value(key.subrange(11, 11 + first.len() as int)) == process_id
    &&& digits_value(key.subrange(27 + first.len() as int, key.len() as int)) == creation_time_100ns
}

/// The key of an instance is made of its digit runs as `key_runs` says.
proof fn lemma_runs_of_key(key: Seq<char>)
    ensures
        forall|process_id: u32, creation_time_100ns: u64|
            #![trigger fingerprint_key(process_id as nat, creation_time_100ns as nat)]
            key == fingerprint_key(process_id as nat, creation_time_100ns as nat) ==> key_runs(
                key,
                process_id as nat,
                creation_time_100ns as nat,
            ),
{
    assert forall|process_id: u32, creation_time_100ns: u64|
        #![trigger fingerprint_key(process_id as nat, creation_time_100ns as nat)]
        key == fingerprint_key(process_id as nat, creation_time_100ns as nat) implies key_runs(
            key,
            process_id as nat,
            creation_time_100ns as nat,
        ) by {
        let first = decimal_digits(process_id as nat);
        let second = decimal_digits(creation_time_100ns as nat);
        lemma_key_layout(process_id as nat, creation_time_100ns as nat);
        lemma_decimal_digits(process_id as nat);
        lemma_decimal_digits(creation_time_100ns as nat);
        assert forall|i: int| 11 <= i < 11 + first.len() implies is_digit_char(#[trigger] key[i]) by {
            assert(key[11 + (i - 11)] == first[i - 11]);
        }
        assert forall|j: int| 27 + first.len() <= j < key.len() implies is_digit_char(
            #[trigger] key[j],
        ) by {
            assert(key[27 + first.len() + (j - 27 - first.len())] == second[j - 27 - first.len()]);
        }
    }
}

} // verus!
