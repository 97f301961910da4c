//! Shard layouts of a genesis: how many shards there are, and where accounts split
//! between them.
use vstd::prelude::*;

use crate::text::{decimal, owned, push_decimal, texts};

verus! {

/// A shard layout.
#[derive(Debug)]
pub enum ShardLayout {
    /// `num_shards` shards, with accounts spread by their hash.
    V0 { num_shards: u64, version: u32 },
    /// One shard more than there are boundary accounts: an account lies in the shard after
    /// the last boundary account that does not come after it.
    V1 { boundary_accounts: Vec<String>, version: u32 },
}

/// The view of [`ShardLayout`].
pub enum ShardLayoutView {
    V0 { num_shards: u64, version: u32 },
    V1 { boundary_accounts: Seq<Seq<char>>, version: u32 },
}

impl View for ShardLayout {
    type V = ShardLayoutView;

    open spec fn view(&self) -> ShardLayoutView {
        match self {
            ShardLayout::V0 { num_shards, version } => ShardLayoutView::V0 {
                num_shards: *num_shards,
                version: *version,
            },
            ShardLayout::V1 { boundary_accounts, version } => ShardLayoutView::V1 {
                boundary_accounts: texts(boundary_accounts@),
                version: *version,
            },
        }
    }
}

/// The number of shards of a layout.
pub open spec fn shard_count(l: ShardLayoutView) -> int {
    match l {
        ShardLayoutView::V0 { num_shards, .. } => num_shards as int,
        ShardLayoutView::V1 { boundary_accounts, .. } => boundary_accounts.len() as int + 1,
    }
}

impl ShardLayout {
    /// The number of shards of this layout.
    pub fn num_shards(&self) -> (n: u64)
        requires
            shard_count(self@) <= u64::MAX,
        ensures
            n == shard_count(self@),
    {
        match self {
            ShardLayout::V0 { num_shards, .. } => *num_shards,
            ShardLayout::V1 { boundary_accounts, .. } => boundary_accounts.len() as u64 + 1,
        }
    }
}

/// The account that opens the `i`-th shard of a local network: `shard<i>.test.unc`.
pub open spec fn local_boundary(i: nat) -> Seq<char> {
    "shard"@ + decimal(i) + ".test.unc"@
}

/// The boundary accounts of a local network of `num_shards` shards, two or more: one
/// opening each shard but the first.
pub open spec fn local_boundaries(num_shards: u64) -> Seq<Seq<char>> {
    Seq::new((num_shards - 1) as nat, |i: int| local_boundary((i + 1) as nat))
}

/// The shard layout of a local network: the single-shard layout for at most one shard;
/// otherwise boundary accounts `shard1.test.unc`, `shard2.test.unc`, and so on, one opening
/// each shard but the first.
pub open spec fn spec_local_shard_layout(num_shards: u64) -> ShardLayoutView {
    if num_shards <= 1 {
        ShardLayoutView::V0 { num_shards: 1, version: 0 }
    } else {
        ShardLayoutView::V1 { boundary_accounts: local_boundaries(num_shards), version: 0 }
    }
}

/// The shard layout of a local network of `num_shards` shards: see
/// [`spec_local_shard_layout`].
pub fn local_shard_layout(num_shards: u64) -> (r: ShardLayout)
    ensures
        r@ == spec_local_shard_layout(num_shards),
{
    if num_shards <= 1 {
        return ShardLayout::V0 { num_shards: 1, version: 0 };
    }
    let mut boundary_accounts: Vec<String> = Vec::new();
    let mut i: u64 = 1;
    while i < num_shards
        invariant
            1 <= i <= num_shards,
            boundary_accounts@.len() == i - 1,
            forall|k: int| 0 <= k < i - 1 ==> #[trigger] boundary_accounts@[k]@ == local_boundary((k + 1) as nat),
        decreases num_shards - i,
    {
        let mut name = owned("shard");
        push_decimal(&mut name, i);
        name.append(".test.unc");
        boundary_accounts.push(name);
        i = i + 1;
    }
    assert(texts(boundary_accounts@) =~= local_boundaries(num_shards));
    let r = ShardLayout::V1 { boundary_accounts, version: 0 };
    assert(r@ == spec_local_shard_layout(num_shards));
    r
}

/// A local network has as many shards as asked for, and at least one.
pub proof fn law_local_layout_shard_count(num_shards: u64)
    ensures
        shard_count(spec_local_shard_layout(num_shards)) == if num_shards == 0 { 1 } else { num_shards as int },
{
}

} // verus!
