//! Which shard layout a state snapshot is corrupted under, by its version.
use vstd::prelude::*;

use crate::shard::{ShardLayout, ShardLayoutView};
use crate::text::{decimal, owned, push_decimal};

verus! {

/// The complaint about a shard layout version that is not known.
pub open spec fn unsupported_version_message(version: u32) -> Seq<char> {
    "Unsupported shard layout version! "@ + decimal(version as nat)
}

/// The shard layout of a snapshot of shard layout version `version`: the versions `0`,
/// `1` and `2` all map to the single-shard layout of version `0`; any other is refused.
pub fn shard_layout_for_version(version: u32) -> (r: Result<ShardLayout, String>)
    ensures
        r is Ok <==> version <= 2,
        r matches Ok(l) ==> l@ == (ShardLayoutView::V0 { num_shards: 1, version: 0 }),
        r matches Err(m) ==> m@ == unsupported_version_message(version),
{
    if version <= 2 {
        Ok(ShardLayout::V0 { num_shards: 1, version: 0 })
    } else {
        let mut m = owned("Unsupported shard layout version! ");
        push_decimal(&mut m, version as u64);
        Err(m)
    }
}

} // verus!
