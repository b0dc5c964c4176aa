//! Chunk streaming: FIFO load and unload queues, drained with bounded work
//! per tick, decoupling chunk production from scene insertion and removal.
//!
//! Each tick pops at most one pending chunk (meshing cost is proportional
//! to voxel count and must fit a frame's time budget), assembles it, and
//! emits the mesh with a placement marker; it also drains every pending
//! unload marker, whose removals are cheap. A chunk whose assembly fails
//! is dropped from the queue and the failure is surfaced, never retried.

use crate::assembler::{assemble, assemble_result_spec, MeshBuffers, MeshError};
use crate::block_models::BlockModels;
use crate::chunk::{Chunk, GridPos};
use vstd::prelude::*;
use vstd::seq_lib::group_filter_ensures;

verus! {

/// Chunks awaiting mesh assembly and insertion, in arrival order.
pub struct ChunkLoadQueue(pub Vec<Chunk>);

/// Grid positions of chunks awaiting removal, in arrival order.
pub struct ChunkUnloadQueue(pub Vec<GridPos>);

impl Default for ChunkLoadQueue {
    fn default() -> (r: Self)
        ensures
            r.0@.len() == 0,
    {
        ChunkLoadQueue(Vec::new())
    }
}

impl Default for ChunkUnloadQueue {
    fn default() -> (r: Self)
        ensures
            r.0@.len() == 0,
    {
        ChunkUnloadQueue(Vec::new())
    }
}

/// Tag carried by a drawable in the scene: the grid position of the chunk
/// it was assembled from, used to match it for removal.
#[derive(Clone, Copy, PartialEq, Eq, Structural, Debug)]
pub struct ChunkMarker(pub GridPos);

/// A live drawable as the streaming logic sees it: the host's entity
/// handle and the marker it was tagged with at insertion.
#[derive(Clone, Copy, PartialEq, Eq, Structural, Debug)]
pub struct SceneEntry {
    pub entity: u64,
    pub marker: ChunkMarker,
}

/// What one tick produced for the head chunk of the load queue: the
/// placement marker and either the assembled mesh or the assembly error.
pub struct LoadEvent {
    pub placement: GridPos,
    pub result: Result<MeshBuffers, MeshError>,
}

/// Everything one tick emits to the rendering collaborator.
pub struct TickOutput {
    pub loaded: Option<LoadEvent>,
    pub removals: Vec<GridPos>,
}

/// The load queue after `ticks` drains: each drain removes the head entry
/// if one is there.
pub open spec fn loads_after_ticks(loads: Seq<Chunk>, ticks: nat) -> Seq<Chunk>
    decreases ticks,
{
    if ticks == 0 || loads.len() == 0 {
        loads
    } else {
        loads_after_ticks(loads.subrange(1, loads.len() as int), (ticks - 1) as nat)
    }
}

/// FIFO progress: after `ticks` drains exactly `min(ticks, loads.len())`
/// entries have been emitted, from the head in arrival order, and the
/// rest still stand in order.
pub proof fn lemma_fifo_ticks(loads: Seq<Chunk>, ticks: nat)
    ensures
        ticks <= loads.len() ==> loads_after_ticks(loads, ticks) == loads.subrange(
            ticks as int,
            loads.len() as int,
        ),
        ticks > loads.len() ==> loads_after_ticks(loads, ticks) == Seq::<Chunk>::empty(),
        loads.len() - loads_after_ticks(loads, ticks).len() == if ticks <= loads.len() {
            ticks as int
        } else {
            loads.len() as int
        },
    decreases ticks,
{
    if ticks == 0 {
        assert(loads.subrange(0, loads.len() as int) =~= loads);
    } else if loads.len() == 0 {
        assert(loads =~= Seq::<Chunk>::empty());
    } else {
        let rest = loads.subrange(1, loads.len() as int);
        lemma_fifo_ticks(rest, (ticks - 1) as nat);
        if ticks <= loads.len() {
            assert(rest.subrange(ticks - 1, rest.len() as int) =~= loads.subrange(
                ticks as int,
                loads.len() as int,
            ));
        }
    }
}

/// The two streaming queues, owned by the streaming driver.
pub struct ChunkQueue {
    pub load_queue: ChunkLoadQueue,
    pub unload_queue: ChunkUnloadQueue,
}

impl ChunkQueue {
    /// Every queued chunk is well-formed.
    pub open spec fn wf(&self) -> bool {
        forall|i: int|
            0 <= i < self.load_queue.0@.len() ==> (#[trigger] self.load_queue.0@[i]).wf()
    }

    /// Both queues empty.
    pub fn new() -> (r: ChunkQueue)
        ensures
            r.wf(),
            r.load_queue.0@.len() == 0,
            r.unload_queue.0@.len() == 0,
    {
        ChunkQueue { load_queue: ChunkLoadQueue(Vec::new()), unload_queue: ChunkUnloadQueue(Vec::new()) }
    }

    /// Append a produced chunk to the tail of the load queue; ownership
    /// transfers to the queue.
    pub fn enqueue_load(&mut self, chunk: Chunk)
        requires
            old(self).wf(),
            chunk.wf(),
        ensures
            final(self).wf(),
            final(self).load_queue.0@ == old(self).load_queue.0@.push(chunk),
            final(self).unload_queue.0@ == old(self).unload_queue.0@,
    {
        self.load_queue.0.push(chunk);
    }

    /// Append a removal marker to the tail of the unload queue.
    pub fn enqueue_unload(&mut self, marker: GridPos)
        requires
            old(self).wf(),
        ensures
            final(self).wf(),
            final(self).unload_queue.0@ == old(self).unload_queue.0@.push(marker),
            final(self).load_queue.0@ == old(self).load_queue.0@,
    {
        self.unload_queue.0.push(marker);
    }

    /// One tick of the streaming driver: pop at most one chunk from the
    /// head of the load queue and assemble it; drain every pending unload
    /// marker. The popped chunk leaves the queue whether or not assembly
    /// succeeded, so a structurally invalid chunk is never retried.
    pub fn drain_tick(&mut self, models: &BlockModels) -> (r: TickOutput)
        requires
            old(self).wf(),
            models.wf(),
        ensures
            final(self).wf(),
            r.removals@ == old(self).unload_queue.0@,
            final(self).unload_queue.0@.len() == 0,
            final(self).load_queue.0@ == loads_after_ticks(old(self).load_queue.0@, 1),
            old(self).load_queue.0@.len() == 0 ==> r.loaded is None && final(self).load_queue.0@
                == old(self).load_queue.0@,
            old(self).load_queue.0@.len() > 0 ==> {
                let c = old(self).load_queue.0@[0];
                &&& final(self).load_queue.0@ == old(self).load_queue.0@.subrange(
                    1,
                    old(self).load_queue.0@.len() as int,
                )
                &&& r.loaded matches Some(ev) && ev.placement == c.position
                    && assemble_result_spec(c, *models, ev.result)
            },
    {
        let mut removals: Vec<GridPos> = Vec::new();
        core::mem::swap(&mut removals, &mut self.unload_queue.0);

        let ghost old_loads = self.load_queue.0@;
        let loaded = if self.load_queue.0.len() > 0 {
            let chunk = self.load_queue.0.remove(0);
            let result = assemble(&chunk, models);
            Some(LoadEvent { placement: chunk.position, result })
        } else {
            None
        };
        proof {
            lemma_fifo_ticks(old_loads, 1);
            if old_loads.len() > 0 {
                assert(old_loads.remove(0) =~= old_loads.subrange(1, old_loads.len() as int));
            }
        }
        TickOutput { loaded, removals }
    }
}

/// Does `v` hold `p`?
pub fn contains_pos(v: &Vec<GridPos>, p: GridPos) -> (r: bool)
    ensures
        r == v@.contains(p),
{
    let mut i: usize = 0;
    while i < v.len()
        invariant
            i <= v@.len(),
            forall|k: int| 0 <= k < i ==> v@[k] != p,
        decreases v@.len() - i,
    {
        if v[i] == p {
            return true;
        }
        i = i + 1;
    }
    false
}

/// Entries of `scene` not tagged by any marker in `removals`.
pub open spec fn surviving_entries(scene: Seq<SceneEntry>, removals: Seq<GridPos>) -> Seq<
    SceneEntry,
> {
    scene.filter(|e: SceneEntry| !removals.contains(e.marker.0))
}

/// Apply a tick's removal markers to the live drawables: keep exactly the
/// entries whose marker matches no removal, in order. This is the matching
/// the unload drain asks of the rendering collaborator.
pub fn apply_removals(scene: &Vec<SceneEntry>, removals: &Vec<GridPos>) -> (r: Vec<SceneEntry>)
    ensures
        r@ == surviving_entries(scene@, removals@),
{
    let ghost pred = |e: SceneEntry| !removals@.contains(e.marker.0);
    let mut out: Vec<SceneEntry> = Vec::new();
    let mut i: usize = 0;
    while i < scene.len()
        invariant
            i <= scene@.len(),
            out@ == scene@.subrange(0, i as int).filter(pred),
            pred == (|e: SceneEntry| !removals@.contains(e.marker.0)),
        decreases scene@.len() - i,
    {
        let ghost prefix = scene@.subrange(0, i as int);
        let e = scene[i];
        if !contains_pos(removals, e.marker.0) {
            out.push(e);
        }
        proof {
            reveal(Seq::filter);
            assert(scene@.subrange(0, i + 1) =~= prefix.push(e));
            assert(prefix.push(e).drop_last() =~= prefix);
            assert(prefix.push(e).filter(pred) == if pred(e) {
                prefix.filter(pred).push(e)
            } else {
                prefix.filter(pred)
            });
        }
        i = i + 1;
    }
    proof {
        assert(scene@.subrange(0, scene@.len() as int) =~= scene@);
    }
    out
}

/// Unload correctness: after applying a tick's removals, no surviving
/// entry is tagged with a drained marker, and every entry tagged with no
/// drained marker survives. In particular, enqueueing marker `m` and
/// draining removes every drawable tagged `m` and none tagged differently.
pub proof fn lemma_removals_remove_marked(scene: Seq<SceneEntry>, removals: Seq<GridPos>)
    ensures
        forall|k: int|
            0 <= k < surviving_entries(scene, removals).len() ==> !removals.contains(
                (#[trigger] surviving_entries(scene, removals)[k]).marker.0,
            ),
        forall|i: int|
            0 <= i < scene.len() && !removals.contains((#[trigger] scene[i]).marker.0)
                ==> surviving_entries(scene, removals).contains(scene[i]),
{
    broadcast use group_filter_ensures;

    let pred = |e: SceneEntry| !removals.contains(e.marker.0);
    assert forall|k: int| 0 <= k < surviving_entries(scene, removals).len() implies !removals.contains(
        (#[trigger] surviving_entries(scene, removals)[k]).marker.0,
    ) by {
        assert(pred(scene.filter(pred)[k]));
    }
    assert forall|i: int|
        0 <= i < scene.len() && !removals.contains((#[trigger] scene[i]).marker.0) implies
        surviving_entries(scene, removals).contains(scene[i]) by {
        assert(pred(scene[i]));
        assert(scene.filter(pred).contains(scene[i]));
    }
}

} // verus!
