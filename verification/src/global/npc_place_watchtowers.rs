use vstd::prelude::*;

verus! {

/// A position on the map, in offset coordinates of the small hex grid.
#[derive(Clone, Copy, Debug, PartialEq, Eq, Structural)]
pub struct OffsetCoordinates {
    pub x: i32,
    pub z: i32,
    pub dimension: u32,
}

/// A watchtower of the NPC empire and the territory chunks it holds.
#[derive(Clone, Debug)]
pub struct NpcWatchtower {
    pub building_entity_id: u64,
    pub location: OffsetCoordinates,
    pub chunk_indexes: Vec<u64>,
}

/// A request to place NPC watchtowers, all with the same energy and upkeep.
#[derive(Clone, Debug)]
pub struct NpcPlaceWatchtowersMsg {
    pub watchtowers: Vec<NpcWatchtower>,
    pub energy: i32,
    pub upkeep: i32,
}

/// An empire's node: the watchtower building that claims territory.
#[derive(Clone, Copy, Debug, PartialEq, Eq, Structural)]
pub struct EmpireNodeState {
    pub entity_id: u64,
    pub empire_entity_id: u64,
    pub chunk_index: u64,
    pub energy: i32,
    pub active: bool,
    pub upkeep: i32,
    pub location: OffsetCoordinates,
}

/// A territory chunk held by an empire through one of its watchtowers.
#[derive(Clone, Copy, Debug, PartialEq, Eq, Structural)]
pub struct EmpireChunkState {
    pub chunk_index: u64,
    pub empire_entity_id: u64,
    pub watchtower_entity_id: u64,
}

/// The rows to write, in order: each is updated if a row with its key
/// exists and inserted otherwise, and shared with all other regions.
#[derive(Clone, Debug)]
pub struct WatchtowerPlacement {
    pub nodes: Vec<EmpireNodeState>,
    pub chunks: Vec<EmpireChunkState>,
    pub total_chunks: u64,
}

/// The node row of a watchtower of the NPC empire.
pub open spec fn node_of(wt: NpcWatchtower, npc_empire_id: u64, chunk_index: u64, energy: i32, upkeep: i32) -> EmpireNodeState {
    EmpireNodeState {
        entity_id: wt.building_entity_id,
        empire_entity_id: npc_empire_id,
        chunk_index,
        energy,
        active: energy > 0,
        upkeep,
        location: wt.location,
    }
}

/// The chunk rows of one watchtower, in the order of its chunks.
pub open spec fn chunks_of(wt: NpcWatchtower, npc_empire_id: u64) -> Seq<EmpireChunkState> {
    wt.chunk_indexes@.map_values(|chunk_index: u64| EmpireChunkState {
        chunk_index,
        empire_entity_id: npc_empire_id,
        watchtower_entity_id: wt.building_entity_id,
    })
}

/// The chunk rows of all watchtowers, watchtower after watchtower.
pub open spec fn placed_chunks(wts: Seq<NpcWatchtower>, npc_empire_id: u64) -> Seq<EmpireChunkState>
    decreases wts.len(),
{
    if wts.len() == 0 {
        Seq::empty()
    } else {
        placed_chunks(wts.drop_last(), npc_empire_id) + chunks_of(wts.last(), npc_empire_id)
    }
}

/// The number of chunks all watchtowers hold.
pub open spec fn chunk_count(wts: Seq<NpcWatchtower>) -> nat
    decreases wts.len(),
{
    if wts.len() == 0 {
        0
    } else {
        chunk_count(wts.drop_last()) + wts.last().chunk_indexes@.len()
    }
}

/// A node is active exactly when the watchtowers are placed with positive
/// energy, whatever the upkeep; it carries the watchtower's building,
/// location and chunk, the NPC empire, and the message's energy and upkeep.
pub proof fn lemma_node_rules(wt: NpcWatchtower, npc_empire_id: u64, chunk_index: u64, energy: i32, upkeep: i32)
    ensures
        node_of(wt, npc_empire_id, chunk_index, energy, upkeep).active <==> energy > 0,
        node_of(wt, npc_empire_id, chunk_index, energy, upkeep).entity_id == wt.building_entity_id,
        node_of(wt, npc_empire_id, chunk_index, energy, upkeep).empire_entity_id == npc_empire_id,
        node_of(wt, npc_empire_id, chunk_index, energy, upkeep).chunk_index == chunk_index,
        node_of(wt, npc_empire_id, chunk_index, energy, upkeep).energy == energy,
        node_of(wt, npc_empire_id, chunk_index, energy, upkeep).upkeep == upkeep,
        node_of(wt, npc_empire_id, chunk_index, energy, upkeep).location == wt.location,
{
}

/// Every chunk of every watchtower gets one chunk row, held by the NPC
/// empire through that watchtower, and there are no other chunk rows: each
/// row names the NPC empire and a chunk of the watchtower it names.
pub proof fn lemma_placed_chunks_rules(wts: Seq<NpcWatchtower>, npc_empire_id: u64)
    ensures
        placed_chunks(wts, npc_empire_id).len() == chunk_count(wts),
        forall|r: int| 0 <= r < placed_chunks(wts, npc_empire_id).len() ==> {
            let row = #[trigger] placed_chunks(wts, npc_empire_id)[r];
            &&& row.empire_entity_id == npc_empire_id
            &&& exists|i: int, k: int| 0 <= i < wts.len() && 0 <= k < wts[i].chunk_indexes@.len()
                && wts[i].building_entity_id == row.watchtower_entity_id
                && wts[i].chunk_indexes@[k] == row.chunk_index
        },
        forall|i: int, k: int| 0 <= i < wts.len() && 0 <= k < wts[i].chunk_indexes@.len() ==> placed_chunks(
            wts,
            npc_empire_id,
        ).contains(EmpireChunkState {
            chunk_index: #[trigger] wts[i].chunk_indexes@[k],
            empire_entity_id: npc_empire_id,
            watchtower_entity_id: wts[i].building_entity_id,
        }),
    decreases wts.len(),
{
    if wts.len() > 0 {
        let prev = wts.drop_last();
        let w = wts.last();
        let before = placed_chunks(prev, npc_empire_id);
        let tail = chunks_of(w, npc_empire_id);
        let all = placed_chunks(wts, npc_empire_id);
        lemma_placed_chunks_rules(prev, npc_empire_id);
        assert(all == before + tail);
        assert forall|r: int| 0 <= r < all.len() implies {
            let row = #[trigger] all[r];
            &&& row.empire_entity_id == npc_empire_id
            &&& exists|i: int, k: int| 0 <= i < wts.len() && 0 <= k < wts[i].chunk_indexes@.len()
                && wts[i].building_entity_id == row.watchtower_entity_id
                && wts[i].chunk_indexes@[k] == row.chunk_index
        } by {
            if r < before.len() {
                assert(all[r] == before[r]);
                let row = before[r];
                let (i, k) = choose|i: int, k: int| 0 <= i < prev.len() && 0 <= k < prev[i].chunk_indexes@.len()
                    && prev[i].building_entity_id == row.watchtower_entity_id
                    && prev[i].chunk_indexes@[k] == row.chunk_index;
                assert(wts[i] == prev[i]);
            } else {
                let k = r - before.len();
                assert(all[r] == tail[k]);
                assert(wts[wts.len() - 1] == w);
            }
        }
        assert forall|i: int, k: int| 0 <= i < wts.len() && 0 <= k < wts[i].chunk_indexes@.len() implies all.contains(
            EmpireChunkState {
                chunk_index: #[trigger] wts[i].chunk_indexes@[k],
                empire_entity_id: npc_empire_id,
                watchtower_entity_id: wts[i].building_entity_id,
            },
        ) by {
            let row = EmpireChunkState {
                chunk_index: wts[i].chunk_indexes@[k],
                empire_entity_id: npc_empire_id,
                watchtower_entity_id: wts[i].building_entity_id,
            };
            if i < wts.len() - 1 {
                assert(prev[i] == wts[i]);
                assert(before.contains(row));
                let r = choose|r: int| 0 <= r < before.len() && before[r] == row;
                assert(all[r] == row);
            } else {
                assert(tail[k] == row);
                assert(all[before.len() + k] == row);
            }
        }
    }
}

/// The chunk rows of a single watchtower are its chunks, in order, held by
/// the NPC empire through that watchtower.
pub proof fn lemma_placed_chunks_single(wt: NpcWatchtower, npc_empire_id: u64)
    ensures
        placed_chunks(seq![wt], npc_empire_id).len() == wt.chunk_indexes@.len(),
        forall|k: int| 0 <= k < wt.chunk_indexes@.len() ==> #[trigger] placed_chunks(seq![wt], npc_empire_id)[k]
            == (EmpireChunkState {
                chunk_index: wt.chunk_indexes@[k],
                empire_entity_id: npc_empire_id,
                watchtower_entity_id: wt.building_entity_id,
            }),
{
    assert(seq![wt].drop_last() =~= Seq::<NpcWatchtower>::empty());
    assert(placed_chunks(Seq::<NpcWatchtower>::empty(), npc_empire_id) == Seq::<EmpireChunkState>::empty());
    assert(placed_chunks(seq![wt], npc_empire_id) == placed_chunks(seq![wt].drop_last(), npc_empire_id) + chunks_of(wt, npc_empire_id));
    assert(placed_chunks(seq![wt], npc_empire_id) =~= chunks_of(wt, npc_empire_id));
}

/// Chunk rows follow the order of the watchtowers: placing two groups of
/// watchtowers in one message writes the first group's rows, then the
/// second's.
pub proof fn lemma_placed_chunks_concat(a: Seq<NpcWatchtower>, b: Seq<NpcWatchtower>, npc_empire_id: u64)
    ensures
        placed_chunks(a + b, npc_empire_id) == placed_chunks(a, npc_empire_id) + placed_chunks(b, npc_empire_id),
    decreases b.len(),
{
    if b.len() == 0 {
        assert(a + b =~= a);
        assert(placed_chunks(a, npc_empire_id) + placed_chunks(b, npc_empire_id) =~= placed_chunks(a, npc_empire_id));
    } else {
        lemma_placed_chunks_concat(a, b.drop_last(), npc_empire_id);
        assert((a + b).drop_last() =~= a + b.drop_last());
        assert((a + b).last() == b.last());
        assert(placed_chunks(a, npc_empire_id) + placed_chunks(b, npc_empire_id) =~= placed_chunks(a, npc_empire_id)
            + placed_chunks(b.drop_last(), npc_empire_id) + chunks_of(b.last(), npc_empire_id));
    }
}

/// Places the NPC empire's watchtowers: one node row per watchtower, with
/// the message's energy and upkeep, active when the energy is positive; and
/// one chunk row per chunk of each watchtower. `npc_empire_id` is the NPC
/// empire (found or created); `node_chunk_indexes[i]` is the chunk that
/// holds the location of the `i`-th watchtower.
pub fn process_message_on_destination(
    msg: &NpcPlaceWatchtowersMsg,
    npc_empire_id: u64,
    node_chunk_indexes: &Vec<u64>,
) -> (res: WatchtowerPlacement)
    requires
        node_chunk_indexes@.len() == msg.watchtowers@.len(),
    ensures
        res.nodes@.len() == msg.watchtowers@.len(),
        forall|i: int| 0 <= i < msg.watchtowers@.len() ==> #[trigger] res.nodes@[i] == node_of(
            msg.watchtowers@[i],
            npc_empire_id,
            node_chunk_indexes@[i],
            msg.energy,
            msg.upkeep,
        ),
        forall|i: int| 0 <= i < msg.watchtowers@.len() ==> {
            &&& (#[trigger] res.nodes@[i]).entity_id == msg.watchtowers@[i].building_entity_id
            &&& res.nodes@[i].empire_entity_id == npc_empire_id
            &&& res.nodes@[i].chunk_index == node_chunk_indexes@[i]
            &&& res.nodes@[i].energy == msg.energy
            &&& res.nodes@[i].upkeep == msg.upkeep
            &&& res.nodes@[i].active == (msg.energy > 0)
            &&& res.nodes@[i].location == msg.watchtowers@[i].location
        },
        res.chunks@ == placed_chunks(msg.watchtowers@, npc_empire_id),
        res.total_chunks == res.chunks@.len(),
{
    let wts = &msg.watchtowers;
    let mut nodes: Vec<EmpireNodeState> = Vec::new();
    let mut chunks: Vec<EmpireChunkState> = Vec::new();
    let mut i: usize = 0;
    while i < wts.len()
        invariant
            i <= wts@.len(),
            node_chunk_indexes@.len() == wts@.len(),
            wts == msg.watchtowers,
            nodes@.len() == i,
            forall|j: int| 0 <= j < i ==> #[trigger] nodes@[j] == node_of(
                wts@[j],
                npc_empire_id,
                node_chunk_indexes@[j],
                msg.energy,
                msg.upkeep,
            ),
            chunks@ == placed_chunks(wts@.take(i as int), npc_empire_id),
        decreases wts@.len() - i,
    {
        let wt = &wts[i];
        nodes.push(EmpireNodeState {
            entity_id: wt.building_entity_id,
            empire_entity_id: npc_empire_id,
            chunk_index: node_chunk_indexes[i],
            energy: msg.energy,
            active: msg.energy > 0,
            upkeep: msg.upkeep,
            location: wt.location,
        });
        let ghost before = chunks@;
        let mut k: usize = 0;
        while k < wt.chunk_indexes.len()
            invariant
                k <= wt.chunk_indexes@.len(),
                chunks@ == before + chunks_of(*wt, npc_empire_id).take(k as int),
            decreases wt.chunk_indexes@.len() - k,
        {
            chunks.push(EmpireChunkState {
                chunk_index: wt.chunk_indexes[k],
                empire_entity_id: npc_empire_id,
                watchtower_entity_id: wt.building_entity_id,
            });
            assert(chunks_of(*wt, npc_empire_id).take(k + 1) =~= chunks_of(*wt, npc_empire_id).take(k as int).push(
                chunks_of(*wt, npc_empire_id)[k as int],
            ));
            k = k + 1;
        }
        assert(chunks_of(*wt, npc_empire_id).take(k as int) =~= chunks_of(*wt, npc_empire_id));
        assert(wts@.take(i + 1).drop_last() =~= wts@.take(i as int));
        assert(wts@.take(i + 1).last() == wts@[i as int]);
        i = i + 1;
    }
    assert(wts@.take(i as int) =~= wts@);
    let total_chunks = chunks.len() as u64;
    WatchtowerPlacement { nodes, chunks, total_chunks }
}

} // verus!
