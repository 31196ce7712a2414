//! Resolution of the expected SHA-1 checksum from the two response header
//! slots the storage service may populate.
//!
//! The service reports an object's checksum either in a "simple content"
//! slot (single-part uploads) or in a "large file" slot (multipart
//! uploads). The simple slot may also carry the literal string `"none"`,
//! a real string payload that must be treated as "no checksum here" and
//! resolved from the large-file slot instead. A resolved value that is
//! still `"none"`, or no resolvable value at all, means the download has
//! no expectation to verify against and must not proceed.

use vstd::prelude::*;

verus! {

/// The view of an optional header value as an optional character sequence.
pub open spec fn slot_view(slot: Option<String>) -> Option<Seq<char>> {
    match slot {
        Option::Some(s) => Option::Some(s@),
        Option::None => Option::None,
    }
}

/// The checksum the downloaded bytes must match, resolved from the two
/// header slots, or `None` when no valid checksum can be resolved.
///
/// The simple-content slot is preferred; when it is absent the large-file
/// slot takes its place outright. A value equal to the sentinel `"none"`
/// in the preferred slot falls back to the large-file slot, and a resolved
/// value that is itself the sentinel resolves to nothing.
pub open spec fn spec_resolve_checksum(
    simple: Option<Seq<char>>,
    large: Option<Seq<char>>,
) -> Option<Seq<char>> {
    let preferred = if simple is Some {
        simple
    } else {
        large
    };
    match preferred {
        Option::None => Option::None,
        Option::Some(h) => {
            let resolved = if h == "none"@ {
                large
            } else {
                Option::Some(h)
            };
            match resolved {
                Option::None => Option::None,
                Option::Some(v) => if v == "none"@ {
                    Option::None
                } else {
                    Option::Some(v)
                },
            }
        },
    }
}

/// Resolves the expected checksum from the two header slots, exactly as
/// `spec_resolve_checksum` states.
pub fn resolve_checksum(simple: &Option<String>, large: &Option<String>) -> (r: Option<String>)
    ensures
        slot_view(r) == spec_resolve_checksum(slot_view(*simple), slot_view(*large)),
{
    let sentinel: String = "none".to_owned();
    let preferred: &String = match simple {
        Option::Some(s) => s,
        Option::None => {
            match large {
                Option::Some(l) => l,
                Option::None => {
                    return Option::None;
                },
            }
        },
    };
    let resolved: &String = if *preferred == sentinel {
        match large {
            Option::Some(l) => l,
            Option::None => {
                return Option::None;
            },
        }
    } else {
        preferred
    };
    if *resolved == sentinel {
        Option::None
    } else {
        Option::Some(resolved.clone())
    }
}

/// Law: when both checksum header slots are absent, no checksum resolves,
/// so the download fails before any byte of the body is handled.
pub proof fn lemma_both_slots_absent_unresolvable()
    ensures
        spec_resolve_checksum(Option::None, Option::None) is None,
{
}

/// Law: when the simple-content slot carries the `"none"` sentinel and the
/// large-file slot holds a value other than the sentinel, the large-file
/// value is the resolved checksum.
pub proof fn lemma_sentinel_falls_back_to_large(large: Seq<char>)
    requires
        large != "none"@,
    ensures
        spec_resolve_checksum(Option::Some("none"@), Option::Some(large)) == Option::Some(large),
{
}

/// Law: when the simple-content slot carries the `"none"` sentinel and the
/// large-file slot is absent or also the sentinel, no checksum resolves.
pub proof fn lemma_sentinel_everywhere_unresolvable(large: Option<Seq<char>>)
    requires
        large is None || large->0 == "none"@,
    ensures
        spec_resolve_checksum(Option::Some("none"@), large) is None,
{
}

} // verus!
