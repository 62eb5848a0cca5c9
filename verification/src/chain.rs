//! Bounded traversal of a linked record chain inside one byte region.
//!
//! The chain's backing memory is bootloader-owned and untrusted: it is
//! modelled as one immutable byte region with a base address, and records
//! are located by translating their addresses to offsets in that region.
//! The walker follows `next` links from a root address, stops at the 0
//! sentinel, and reports a malformed chain instead of looping when the
//! chain does not terminate within its hop bound or a link leaves the
//! region.

use vstd::prelude::*;

use crate::bytes::lemma_u64_le_bound;
use crate::bytes::read_u64;
use crate::bytes::u64_le;
use crate::tags::BaseTag;
use crate::tags::TagTryFromError;

verus! {

/// One externally owned, read-only span of memory holding a record chain:
/// the bytes that live at addresses `base ..= base + bytes.len() - 1`.
pub struct ChainRegion {
    pub base: u64,
    pub bytes: Vec<u8>,
}

impl ChainRegion {
    /// The region's addresses all fit in 64 bits.
    pub open spec fn wf(self) -> bool {
        self.base + self.bytes@.len() <= 0x1_0000_0000_0000_0000
    }

    /// The `n` bytes starting at address `addr` lie inside the region.
    pub open spec fn contains_range(self, addr: u64, n: int) -> bool {
        self.base <= addr && addr - self.base + n <= self.bytes@.len()
    }

    /// The offset inside `bytes` that address `addr` translates to.
    pub open spec fn spec_off(self, addr: u64) -> int {
        addr - self.base
    }

    /// Wraps a byte span as a region when its addresses all fit in 64
    /// bits, and refuses it with `None` otherwise.
    pub fn new(base: u64, bytes: Vec<u8>) -> (r: Option<ChainRegion>)
        ensures
            match r {
                Some(region) => {
                    &&& region.wf()
                    &&& region.base == base
                    &&& region.bytes@ == bytes@
                },
                None => base + bytes@.len() > 0x1_0000_0000_0000_0000,
            },
    {
        let len = bytes.len() as u64;
        if len == 0 {
            Some(ChainRegion { base, bytes })
        } else if base <= u64::MAX - len + 1 {
            Some(ChainRegion { base, bytes })
        } else {
            None
        }
    }

    pub fn check_range(&self, addr: u64, n: u64) -> (r: bool)
        requires
            self.wf(),
        ensures
            r == self.contains_range(addr, n as int),
    {
        if addr < self.base {
            return false;
        }
        let off = addr - self.base;
        let len = self.bytes.len() as u64;
        off <= len && n <= len - off
    }

    /// Translates address `addr` to its offset in `bytes`, for a record of
    /// `n` bytes known to lie inside the region.
    pub fn offset_of(&self, addr: u64, n: u64) -> (off: usize)
        requires
            self.wf(),
            self.contains_range(addr, n as int),
        ensures
            off == self.spec_off(addr),
            off + n <= self.bytes@.len(),
    {
        let len: usize = self.bytes.len();
        proof {
            assert(addr - self.base + n <= len as int);
        }
        (addr - self.base) as usize
    }
}

/// The record header written at address `addr` of the region.
pub open spec fn spec_header_at(region: ChainRegion, addr: u64) -> BaseTag {
    BaseTag {
        identifier: u64_le(region.bytes@, region.spec_off(addr)) as u64,
        next: u64_le(region.bytes@, region.spec_off(addr) + 8) as u64,
    }
}

/// Reads the record header at address `addr`.
pub fn read_header(region: &ChainRegion, addr: u64) -> (r: BaseTag)
    requires
        region.wf(),
        region.contains_range(addr, 16),
    ensures
        r == spec_header_at(*region, addr),
{
    let len: usize = region.bytes.len();
    proof {
        assert(addr - region.base + 16 <= len as int);
    }
    let off = (addr - region.base) as usize;
    let identifier = read_u64(region.bytes.as_slice(), off);
    let next = read_u64(region.bytes.as_slice(), off + 8);
    proof {
        lemma_u64_le_bound(region.bytes@, region.spec_off(addr));
        lemma_u64_le_bound(region.bytes@, region.spec_off(addr) + 8);
    }
    BaseTag { identifier, next }
}

/// The headers of the chain rooted at `root`, in link order: `Some` of the
/// header sequence when the chain ends at the 0 sentinel within `fuel`
/// hops with every header inside the region, `None` otherwise.
pub open spec fn spec_chain(region: ChainRegion, root: u64, fuel: nat) -> Option<Seq<BaseTag>>
    decreases fuel,
{
    if root == 0 {
        Some(Seq::empty())
    } else if fuel == 0 {
        None
    } else if !region.contains_range(root, 16) {
        None
    } else {
        let h = spec_header_at(region, root);
        match spec_chain(region, h.next, (fuel - 1) as nat) {
            Some(rest) => Some(seq![h] + rest),
            None => None,
        }
    }
}

/// A walked prefix joined with the outcome for the remaining chain.
pub open spec fn chain_join(pre: Seq<BaseTag>, rest: Option<Seq<BaseTag>>) -> Option<
    Seq<BaseTag>,
> {
    match rest {
        Some(s) => Some(pre + s),
        None => None,
    }
}

/// Walks the chain rooted at `root`, following `next` links for at most
/// `max_hops` records. Returns the visited headers in link order, or
/// reports a malformed chain when a link leaves the region or the 0
/// sentinel is not reached within the bound.
pub fn walk(region: &ChainRegion, root: u64, max_hops: usize) -> (r: Result<
    Vec<BaseTag>,
    TagTryFromError,
>)
    requires
        region.wf(),
    ensures
        match r {
            Ok(v) => spec_chain(*region, root, max_hops as nat) == Some(v@),
            Err(e) => {
                &&& e == TagTryFromError::MalformedChain
                &&& spec_chain(*region, root, max_hops as nat) is None
            },
        },
{
    let mut out: Vec<BaseTag> = Vec::new();
    let mut cur: u64 = root;
    let mut fuel: usize = max_hops;
    proof {
        assert(out@ + spec_chain(*region, cur, fuel as nat).unwrap() =~= spec_chain(
            *region,
            cur,
            fuel as nat,
        ).unwrap());
    }
    loop
        invariant
            region.wf(),
            chain_join(out@, spec_chain(*region, cur, fuel as nat)) == spec_chain(
                *region,
                root,
                max_hops as nat,
            ),
        decreases fuel,
    {
        if cur == 0 {
            proof {
                assert(out@ + Seq::<BaseTag>::empty() =~= out@);
            }
            return Ok(out);
        }
        if fuel == 0 {
            return Err(TagTryFromError::MalformedChain);
        }
        if !region.check_range(cur, 16) {
            return Err(TagTryFromError::MalformedChain);
        }
        let h = read_header(region, cur);
        proof {
            let rest = spec_chain(*region, h.next, (fuel - 1) as nat);
            if rest is Some {
                assert((out@ + seq![h]) + rest.unwrap() =~= out@ + (seq![h] + rest.unwrap()));
            }
        }
        out.push(h);
        cur = h.next;
        fuel = fuel - 1;
    }
}

/// `addrs` and `hdrs` spell out a well-formed chain rooted at `root`: the
/// records sit at `addrs`, in order, each header inside the region, each
/// link naming the next address, and the last link 0.
pub open spec fn links_chain(
    region: ChainRegion,
    root: u64,
    addrs: Seq<u64>,
    hdrs: Seq<BaseTag>,
) -> bool {
    &&& addrs.len() == hdrs.len()
    &&& (if addrs.len() == 0 {
        root == 0
    } else {
        root == addrs[0]
    })
    &&& (forall|i: int| 0 <= i < addrs.len() ==> #[trigger] addrs[i] != 0)
    &&& (forall|i: int| 0 <= i < addrs.len() ==> region.contains_range(#[trigger] addrs[i], 16))
    &&& (forall|i: int|
        0 <= i < addrs.len() ==> #[trigger] hdrs[i] == spec_header_at(region, addrs[i]))
    &&& (forall|i: int| 0 <= i < addrs.len() - 1 ==> #[trigger] hdrs[i].next == addrs[i + 1])
    &&& (addrs.len() > 0 ==> hdrs[addrs.len() - 1].next == 0)
}

/// Walking a well-formed chain of `n` records with fuel for `n` hops
/// visits exactly its `n` headers, in link order.
pub proof fn lemma_chain_visits_all(
    region: ChainRegion,
    root: u64,
    addrs: Seq<u64>,
    hdrs: Seq<BaseTag>,
    fuel: nat,
)
    requires
        links_chain(region, root, addrs, hdrs),
        hdrs.len() <= fuel,
    ensures
        spec_chain(region, root, fuel) == Some(hdrs),
    decreases hdrs.len(),
{
    if hdrs.len() == 0 {
        assert(hdrs =~= Seq::<BaseTag>::empty());
    } else {
        let h = spec_header_at(region, root);
        assert(h == hdrs[0]);
        let tail_addrs = addrs.skip(1);
        let tail_hdrs = hdrs.skip(1);
        assert forall|i: int| 0 <= i < tail_addrs.len() implies #[trigger] tail_addrs[i] != 0
            && region.contains_range(tail_addrs[i], 16) by {
            assert(tail_addrs[i] == addrs[i + 1]);
        }
        assert forall|i: int|
            0 <= i < tail_addrs.len() implies #[trigger] tail_hdrs[i] == spec_header_at(
            region,
            tail_addrs[i],
        ) by {
            assert(tail_addrs[i] == addrs[i + 1] && tail_hdrs[i] == hdrs[i + 1]);
        }
        assert forall|i: int|
            0 <= i < tail_addrs.len() - 1 implies #[trigger] tail_hdrs[i].next == tail_addrs[i
            + 1] by {
            assert(tail_hdrs[i] == hdrs[i + 1] && tail_addrs[i + 1] == addrs[i + 2]);
        }
        if tail_hdrs.len() > 0 {
            assert(tail_hdrs[tail_addrs.len() - 1] == hdrs[addrs.len() - 1]);
            assert(h.next == addrs[1]);
        } else {
            assert(h.next == 0);
        }
        lemma_chain_visits_all(region, h.next, tail_addrs, tail_hdrs, (fuel - 1) as nat);
        assert(seq![h] + tail_hdrs =~= hdrs);
    }
}

/// `addrs` spell out a cycle of records: each header lies inside the
/// region, no address is the 0 sentinel, and each link names the next
/// address around the circle.
pub open spec fn cyclic_links(region: ChainRegion, addrs: Seq<u64>) -> bool {
    &&& addrs.len() > 0
    &&& (forall|i: int| 0 <= i < addrs.len() ==> #[trigger] addrs[i] != 0)
    &&& (forall|i: int| 0 <= i < addrs.len() ==> region.contains_range(#[trigger] addrs[i], 16))
    &&& (forall|i: int|
        0 <= i < addrs.len() ==> (#[trigger] spec_header_at(region, addrs[i])).next == addrs[
            if i + 1 == addrs.len() {
                0
            } else {
                i + 1
            }
        ])
}

/// A chain that cycles never reaches the 0 sentinel, so no amount of fuel
/// makes `spec_chain` succeed: a bounded walker always reports it as
/// malformed rather than looping.
pub proof fn lemma_cyclic_chain_malformed(
    region: ChainRegion,
    addrs: Seq<u64>,
    i: int,
    fuel: nat,
)
    requires
        cyclic_links(region, addrs),
        0 <= i < addrs.len(),
    ensures
        spec_chain(region, addrs[i], fuel) is None,
    decreases fuel,
{
    if fuel > 0 {
        let j: int = if i + 1 == addrs.len() {
            0
        } else {
            i + 1
        };
        lemma_cyclic_chain_malformed(region, addrs, j, (fuel - 1) as nat);
    }
}

} // verus!
