//! The decision of an idempotent write: a file is written only when its
//! content would change.
use vstd::prelude::*;

verus! {

/// A write is needed unless the stored content equals the new one.
pub open spec fn write_needed(existing: Option<Seq<char>>, content: Seq<char>) -> bool {
    match existing {
        Some(old_content) => old_content != content,
        None => true,
    }
}

/// Whether `content` has to be written where `existing` is stored
/// (`None`: nothing is stored yet).
pub fn update_needed(existing: Option<&str>, content: &str) -> (r: bool)
    ensures
        r == write_needed(
            match existing {
                Some(e) => Some(e@),
                None => None,
            },
            content@,
        ),
{
    match existing {
        Some(e) => {
            let stored = e.to_owned();
            let fresh = content.to_owned();
            !(stored == fresh)
        },
        None => true,
    }
}

} // verus!
