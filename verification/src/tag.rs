//! Context tags and the alias table that selects one.
//!
//! A [`ComModel`] names the per-thread execution context a task requires:
//! `STA` (the exclusive, apartment-threaded context, and the default) or
//! `MTA` (the shared, multi-threaded context). Call sites choose a tag by a
//! short name; the table here maps those names, case-insensitively, onto the
//! two tags, and every unrecognized name falls back to the default.

use vstd::prelude::*;
use vstd::string::StringSliceAdditionalSpecFns;

verus! {

/// A context tag: the per-thread initialization mode a task requires.
///
/// Work submitted under the same tag is serialized on one worker; the two
/// tags never share a worker.
#[derive(Clone, Copy, PartialEq, Eq, Hash, Debug, Structural)]
pub enum ComModel {
    /// The exclusive (apartment-threaded) context; the default.
    STA,
    /// The shared (multi-threaded) context.
    MTA,
}

impl Default for ComModel {
    /// The default tag is the exclusive, lowest-privilege one.
    fn default() -> (m: ComModel)
        ensures
            m == ComModel::STA,
    {
        ComModel::STA
    }
}

/// The ASCII uppercase of one byte; bytes outside `a..=z` are unchanged.
pub open spec fn upper_byte(b: u8) -> u8 {
    if 97 <= b && b <= 122 {
        (b - 32) as u8
    } else {
        b
    }
}

/// A byte string folded to ASCII uppercase.
pub open spec fn upper_bytes(s: Seq<u8>) -> Seq<u8> {
    s.map_values(|b: u8| upper_byte(b))
}

/// The alias `MTA`.
pub open spec fn mta_name() -> Seq<u8> {
    seq![77u8, 84u8, 65u8]
}

/// The alias `MULTI`.
pub open spec fn multi_name() -> Seq<u8> {
    seq![77u8, 85u8, 76u8, 84u8, 73u8]
}

/// The alias `MULTITHREADED`.
pub open spec fn multithreaded_name() -> Seq<u8> {
    seq![77u8, 85u8, 76u8, 84u8, 73u8, 84u8, 72u8, 82u8, 69u8, 65u8, 68u8, 69u8, 68u8]
}

/// Whether a name selects the shared context, up to ASCII case.
pub open spec fn is_shared_alias(s: Seq<u8>) -> bool {
    ||| upper_bytes(s) == mta_name()
    ||| upper_bytes(s) == multi_name()
    ||| upper_bytes(s) == multithreaded_name()
}

/// The tag a name selects: the shared aliases give `MTA`; every other name,
/// the exclusive aliases and unrecognized ones alike, gives the default
/// `STA`.
pub open spec fn alias_model(s: Seq<u8>) -> ComModel {
    if is_shared_alias(s) {
        ComModel::MTA
    } else {
        ComModel::STA
    }
}

fn upper_byte_exec(b: u8) -> (r: u8)
    ensures
        r == upper_byte(b),
{
    if 97 <= b && b <= 122 {
        b - 32
    } else {
        b
    }
}

/// Maps a tag name, given as bytes, to its context tag, case-insensitively;
/// an unrecognized name falls back to the default tag without error.
pub fn model_from_bytes(name: &[u8]) -> (m: ComModel)
    ensures
        m == alias_model(name@),
{
    let n = name.len();
    let mut up: Vec<u8> = Vec::new();
    let mut i: usize = 0;
    while i < n
        invariant
            i <= n,
            n == name@.len(),
            up@.len() == i,
            forall|k: int| 0 <= k < i ==> up@[k] == upper_byte(name@[k]),
        decreases n - i,
    {
        up.push(upper_byte_exec(name[i]));
        i += 1;
    }
    assert(up@ =~= upper_bytes(name@));
    let shared = (up.len() == 3 && up[0] == 77u8 && up[1] == 84u8 && up[2] == 65u8) || (up.len()
        == 5 && up[0] == 77u8 && up[1] == 85u8 && up[2] == 76u8 && up[3] == 84u8 && up[4] == 73u8)
        || (up.len() == 13 && up[0] == 77u8 && up[1] == 85u8 && up[2] == 76u8 && up[3] == 84u8
        && up[4] == 73u8 && up[5] == 84u8 && up[6] == 72u8 && up[7] == 82u8 && up[8] == 69u8
        && up[9] == 65u8 && up[10] == 68u8 && up[11] == 69u8 && up[12] == 68u8);
    proof {
        if up@ =~= mta_name() || up@ =~= multi_name() || up@ =~= multithreaded_name() {
            assert(shared);
        }
        if shared {
            assert(up@ =~= mta_name() || up@ =~= multi_name() || up@ =~= multithreaded_name());
        }
    }
    if shared {
        ComModel::MTA
    } else {
        ComModel::STA
    }
}

/// Maps a tag name to its context tag, case-insensitively; an unrecognized
/// name falls back to the default tag without error.
pub fn model_from_alias(name: &str) -> (m: ComModel)
    ensures
        m == alias_model(name.spec_bytes()),
{
    model_from_bytes(name.as_bytes())
}

} // verus!
