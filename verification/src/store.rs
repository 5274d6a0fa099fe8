use vstd::prelude::*;

use crate::data::{BlockRecord, MarketSample, NetworkSample};

verus! {

/// No two rows share a height.
pub open spec fn unique_heights(blocks: Seq<BlockRecord>) -> bool {
    forall|i: int, j: int|
        0 <= i < j < blocks.len() ==> blocks[i].height != blocks[j].height
}

pub open spec fn has_height(blocks: Seq<BlockRecord>, h: i64) -> bool {
    exists|i: int| 0 <= i < blocks.len() && blocks[i].height == h
}

/// Insert-or-overwrite keyed by height: with a row of the same height present
/// that row is replaced in place, otherwise the record is appended.
pub open spec fn spec_upsert(blocks: Seq<BlockRecord>, rec: BlockRecord) -> Seq<BlockRecord> {
    if has_height(blocks, rec.height) {
        blocks.update(
            choose|i: int| 0 <= i < blocks.len() && blocks[i].height == rec.height,
            rec,
        )
    } else {
        blocks.push(rec)
    }
}

/// The highest stored height, or 0 of an empty table.
pub open spec fn spec_latest_height(blocks: Seq<BlockRecord>) -> int
    decreases blocks.len(),
{
    if blocks.len() == 0 {
        0
    } else if blocks.len() == 1 {
        blocks.last().height as int
    } else {
        let rest = spec_latest_height(blocks.drop_last());
        if blocks.last().height as int > rest {
            blocks.last().height as int
        } else {
            rest
        }
    }
}

/// Every stored height is at most the latest height.
pub proof fn lemma_latest_height_is_max(blocks: Seq<BlockRecord>)
    ensures
        forall|i: int| 0 <= i < blocks.len() ==> blocks[i].height as int <= spec_latest_height(
            blocks,
        ),
    decreases blocks.len(),
{
    if blocks.len() > 1 {
        lemma_latest_height_is_max(blocks.drop_last());
        assert forall|i: int| 0 <= i < blocks.len() implies blocks[i].height as int
            <= spec_latest_height(blocks) by {
            if i < blocks.len() - 1 {
                assert(blocks.drop_last()[i] == blocks[i]);
                assert(blocks.drop_last()[i].height as int <= spec_latest_height(
                    blocks.drop_last(),
                ));
            }
        }
    }
}

/// The in-memory model of the persistence gateway: the three tables the
/// scheduler writes. The market and network tables are append-only series;
/// the blocks table is keyed by height.
pub struct Store {
    pub market: Vec<MarketSample>,
    pub network: Vec<NetworkSample>,
    pub blocks: Vec<BlockRecord>,
}

impl Store {
    /// The table invariant: block heights are unique.
    pub open spec fn wf(&self) -> bool {
        unique_heights(self.blocks@)
    }

    pub fn new() -> (s: Store)
        ensures
            s.wf(),
            s.market@ =~= Seq::<MarketSample>::empty(),
            s.network@ =~= Seq::<NetworkSample>::empty(),
            s.blocks@ =~= Seq::<BlockRecord>::empty(),
    {
        Store { market: Vec::new(), network: Vec::new(), blocks: Vec::new() }
    }

    /// Appends one market row; the other tables are untouched.
    pub fn insert_market_sample(&mut self, s: MarketSample)
        requires
            old(self).wf(),
        ensures
            final(self).wf(),
            final(self).market@ == old(self).market@.push(s),
            final(self).network@ == old(self).network@,
            final(self).blocks@ == old(self).blocks@,
    {
        self.market.push(s);
    }

    /// Appends one network row; the other tables are untouched.
    pub fn insert_network_sample(&mut self, s: NetworkSample)
        requires
            old(self).wf(),
        ensures
            final(self).wf(),
            final(self).network@ == old(self).network@.push(s),
            final(self).market@ == old(self).market@,
            final(self).blocks@ == old(self).blocks@,
    {
        self.network.push(s);
    }

    /// Inserts the record, or overwrites the row of the same height: the model
    /// of `INSERT ... ON CONFLICT (height) DO UPDATE`. Height uniqueness is
    /// kept, so writing one height twice never yields a second row.
    pub fn upsert_block(&mut self, rec: BlockRecord)
        requires
            old(self).wf(),
        ensures
            final(self).wf(),
            final(self).blocks@ == spec_upsert(old(self).blocks@, rec),
            final(self).market@ == old(self).market@,
            final(self).network@ == old(self).network@,
    {
        let ghost prior = self.blocks@;
        let mut k: usize = 0;
        while k < self.blocks.len()
            invariant
                k <= self.blocks@.len(),
                self.blocks@ == prior,
                prior == old(self).blocks@,
                unique_heights(prior),
                self.market@ == old(self).market@,
                self.network@ == old(self).network@,
                forall|i: int| 0 <= i < k ==> prior[i].height != rec.height,
            decreases self.blocks@.len() - k,
        {
            if self.blocks[k].height == rec.height {
                proof {
                    assert(has_height(prior, rec.height));
                    let c = choose|i: int|
                        0 <= i < prior.len() && prior[i].height == rec.height;
                    if c < k as int {
                        assert(prior[c].height != prior[k as int].height);
                        assert(false);
                    } else if (k as int) < c {
                        assert(prior[k as int].height != prior[c].height);
                        assert(false);
                    }
                    assert(c == k);
                }
                self.blocks[k] = rec;
                proof {
                    assert(self.blocks@ =~= spec_upsert(prior, rec));
                    assert forall|i: int, j: int|
                        0 <= i < j < self.blocks@.len() implies self.blocks@[i].height
                        != self.blocks@[j].height by {
                        assert(prior[i].height != prior[j].height);
                    }
                }
                return ;
            }
            k += 1;
        }
        proof {
            assert(!has_height(prior, rec.height));
        }
        self.blocks.push(rec);
        proof {
            assert(unique_heights(self.blocks@));
        }
    }

    /// The highest stored height, 0 when the table is empty: the model of
    /// `SELECT height FROM blocks ORDER BY height DESC LIMIT 1`.
    pub fn latest_block_height(&self) -> (r: i64)
        ensures
            r as int == spec_latest_height(self.blocks@),
    {
        if self.blocks.len() == 0 {
            return 0;
        }
        let mut best: i64 = self.blocks[0].height;
        let mut k: usize = 1;
        proof {
            assert(self.blocks@.subrange(0, 1).drop_last() =~= Seq::<BlockRecord>::empty());
        }
        while k < self.blocks.len()
            invariant
                1 <= k <= self.blocks@.len(),
                best as int == spec_latest_height(self.blocks@.subrange(0, k as int)),
            decreases self.blocks@.len() - k,
        {
            proof {
                assert(self.blocks@.subrange(0, k as int + 1).drop_last() =~= self.blocks@.subrange(
                    0,
                    k as int,
                ));
            }
            if self.blocks[k].height > best {
                best = self.blocks[k].height;
            }
            k += 1;
        }
        proof {
            assert(self.blocks@.subrange(0, self.blocks@.len() as int) =~= self.blocks@);
        }
        best
    }

    /// The max-height row, if any: the model of the latest-block query.
    pub fn latest_block(&self) -> (r: Option<&BlockRecord>)
        ensures
            r is Some <==> self.blocks@.len() > 0,
            r matches Some(b) ==> exists|i: int|
                0 <= i < self.blocks@.len() && self.blocks@[i] == *b && b.height as int
                    == spec_latest_height(self.blocks@),
    {
        if self.blocks.len() == 0 {
            return None;
        }
        let mut best: usize = 0;
        let mut k: usize = 1;
        proof {
            assert(self.blocks@.subrange(0, 1).drop_last() =~= Seq::<BlockRecord>::empty());
        }
        while k < self.blocks.len()
            invariant
                1 <= k <= self.blocks@.len(),
                best < k,
                self.blocks@[best as int].height as int == spec_latest_height(
                    self.blocks@.subrange(0, k as int),
                ),
            decreases self.blocks@.len() - k,
        {
            proof {
                assert(self.blocks@.subrange(0, k as int + 1).drop_last() =~= self.blocks@.subrange(
                    0,
                    k as int,
                ));
            }
            if self.blocks[k].height > self.blocks[best].height {
                best = k;
            }
            k += 1;
        }
        proof {
            assert(self.blocks@.subrange(0, self.blocks@.len() as int) =~= self.blocks@);
        }
        Some(&self.blocks[best])
    }
}

} // verus!
