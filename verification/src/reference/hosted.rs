//! What a hosted-only slice answers on this platform.
use vstd::prelude::*;


verus! {

/// Why a hosted slice is unavailable on this platform.
pub open spec fn hosted_only_text(slice: Seq<char>) -> Seq<char> {
    slice + "-real requires the hosted Windows CEF runtime"@
}

} // verus!
