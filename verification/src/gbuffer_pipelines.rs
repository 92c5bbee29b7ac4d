use vstd::prelude::*;
use std::collections::HashSet;

use crate::model::PbrRenderingType;

verus! {

broadcast use vstd::std_specs::hash::group_hash_axioms;

/// The settings that decide which G-buffer pipeline draws an object.
#[derive(Debug, Clone, Copy, PartialEq, Eq, Hash, Structural)]
pub struct GBufferRenderingParams {
    pub use_depth_test: bool,
    pub pbr_rendering_type: PbrRenderingType,
}

/// A render pipeline and the ids of the objects it draws.
pub struct PipelineWithObjects<P> {
    pub render_pipeline: P,
    pub objects: HashSet<u32>,
}

impl<P> PipelineWithObjects<P> {
    /// `render_pipeline`, drawing no object yet.
    pub fn new(render_pipeline: P) -> (pipeline: Self)
        ensures
            pipeline.render_pipeline == render_pipeline,
            pipeline.objects@ == Set::<u32>::empty(),
    {
        Self { render_pipeline, objects: HashSet::new() }
    }
}

/// The G-buffer pipelines, one per set of rendering settings, in the order
/// they were made.
pub struct GBufferPipelines<P> {
    pub pipelines: Vec<(GBufferRenderingParams, PipelineWithObjects<P>)>,
}

/// Index of the first entry of `pipelines` made for `params`, if any.
pub open spec fn pipeline_index<P>(
    pipelines: Seq<(GBufferRenderingParams, PipelineWithObjects<P>)>,
    params: GBufferRenderingParams,
) -> Option<int> {
    if exists|i: int| 0 <= i < pipelines.len() && (#[trigger] pipelines[i]).0 == params {
        Some(choose|i: int| 0 <= i < pipelines.len() && (#[trigger] pipelines[i]).0 == params)
    } else {
        None
    }
}

/// Index of the first set of `objects` that holds `id`, if any.
pub open spec fn first_index_containing(objects: Seq<Set<u32>>, id: u32) -> Option<int> {
    if exists|k: int| 0 <= k < objects.len() && (#[trigger] objects[k]).contains(id) {
        Some(
            choose|k: int|
                0 <= k < objects.len() && (#[trigger] objects[k]).contains(id) && forall|j: int|
                    0 <= j < k ==> !(#[trigger] objects[j]).contains(id),
        )
    } else {
        None
    }
}

/// Where some set holds `id`, there is a first one.
proof fn lemma_first_index_exists(objects: Seq<Set<u32>>, id: u32, k: int)
    requires
        0 <= k < objects.len(),
        objects[k].contains(id),
    ensures
        exists|m: int|
            0 <= m < objects.len() && (#[trigger] objects[m]).contains(id) && forall|j: int|
                0 <= j < m ==> !(#[trigger] objects[j]).contains(id),
    decreases k,
{
    if exists|j: int| 0 <= j < k && (#[trigger] objects[j]).contains(id) {
        let j = choose|j: int| 0 <= j < k && (#[trigger] objects[j]).contains(id);
        lemma_first_index_exists(objects, id, j);
    } else {
        assert(forall|j: int| 0 <= j < k ==> !(#[trigger] objects[j]).contains(id));
    }
}

/// Removing an object right after adding it to the pipeline at `k` restores
/// the objects of all pipelines, where the object was drawn by none before.
pub proof fn lemma_remove_undoes_add(objects: Seq<Set<u32>>, k: int, id: u32)
    requires
        0 <= k < objects.len(),
        forall|i: int| 0 <= i < objects.len() ==> !(#[trigger] objects[i]).contains(id),
    ensures
        first_index_containing(objects.update(k, objects[k].insert(id)), id) == Some(k),
        objects.update(k, objects[k].insert(id)).update(k, objects[k].insert(id).remove(id))
            == objects,
{
    let added = objects.update(k, objects[k].insert(id));
    assert(added[k].contains(id));
    lemma_first_index_exists(added, id, k);
    let m = first_index_containing(added, id)->0;
    assert(added[m].contains(id));
    assert(m == k);
    assert(objects[k].insert(id).remove(id) =~= objects[k]);
    assert(added.update(k, objects[k].insert(id).remove(id)) =~= objects);
}

impl<P> GBufferPipelines<P> {
    /// No two pipelines are made for the same settings.
    pub open spec fn wf(&self) -> bool {
        forall|i: int, j: int|
            0 <= i < j < self.pipelines@.len() ==> (#[trigger] self.pipelines@[i]).0
                != (#[trigger] self.pipelines@[j]).0
    }

    /// The settings of each pipeline, in order.
    pub open spec fn params_view(&self) -> Seq<GBufferRenderingParams> {
        self.pipelines@.map_values(|e: (GBufferRenderingParams, PipelineWithObjects<P>)| e.0)
    }

    /// The objects of each pipeline, in order.
    pub open spec fn objects_view(&self) -> Seq<Set<u32>> {
        self.pipelines@.map_values(|e: (GBufferRenderingParams, PipelineWithObjects<P>)| e.1.objects@)
    }

    /// No pipelines.
    pub fn new() -> (registry: Self)
        ensures
            registry.wf(),
            registry.pipelines@.len() == 0,
    {
        Self { pipelines: Vec::new() }
    }

    /// Registers the object `id`, rendered with `params`. If a pipeline for
    /// `params` exists, the object is added to it. Otherwise a pipeline is
    /// made by `create_pipeline` and added with no objects; the object
    /// itself is not added to it. An error of
    /// `create_pipeline` is returned with nothing changed.
    #[verifier::loop_isolation(false)]
    pub fn add_renderable<E, F: FnOnce(&GBufferRenderingParams) -> Result<P, E>>(
        &mut self,
        params: GBufferRenderingParams,
        id: u32,
        create_pipeline: F,
    ) -> (result: Result<(), E>)
        requires
            old(self).wf(),
            pipeline_index(old(self).pipelines@, params) is None ==> create_pipeline.requires(
                (&params,),
            ),
        ensures
            final(self).wf(),
            forall|i: int|
                0 <= i < old(self).pipelines@.len() ==> (#[trigger] final(self).pipelines@[i]).1.render_pipeline
                    == old(self).pipelines@[i].1.render_pipeline,
            match pipeline_index(old(self).pipelines@, params) {
                Some(k) => {
                    &&& result is Ok
                    &&& final(self).pipelines@.len() == old(self).pipelines@.len()
                    &&& final(self).params_view() == old(self).params_view()
                    &&& final(self).objects_view() == old(self).objects_view().update(
                        k,
                        old(self).objects_view()[k].insert(id),
                    )
                },
                None => match result {
                    Ok(_) => {
                        &&& final(self).pipelines@.len() == old(self).pipelines@.len() + 1
                        &&& final(self).params_view() == old(self).params_view().push(params)
                        &&& final(self).objects_view() == old(self).objects_view().push(
                            Set::<u32>::empty(),
                        )
                        &&& create_pipeline.ensures(
                            (&params,),
                            Ok::<P, E>(final(self).pipelines@.last().1.render_pipeline),
                        )
                    },
                    Err(e) => {
                        &&& final(self).pipelines@.len() == old(self).pipelines@.len()
                        &&& final(self).params_view() == old(self).params_view()
                        &&& final(self).objects_view() == old(self).objects_view()
                        &&& create_pipeline.ensures((&params,), Err::<P, E>(e))
                    },
                },
            },
    {
        let mut index: usize = 0;
        while index < self.pipelines.len()
            invariant
                index <= self.pipelines@.len(),
                self.pipelines@ == old(self).pipelines@,
                forall|i: int| 0 <= i < index ==> (#[trigger] self.pipelines@[i]).0 != params,
            decreases self.pipelines@.len() - index,
        {
            if self.pipelines[index].0 == params {
                proof {
                    let k = pipeline_index(self.pipelines@, params)->0;
                    assert(self.pipelines@[index as int].0 == params);
                    assert(k == index) by {
                        if k < index {
                        } else if k > index {
                            assert(self.pipelines@[index as int].0 != self.pipelines@[k].0);
                        }
                    }
                }
                let ghost old_pipelines = self.pipelines@;
                self.pipelines[index].1.objects.insert(id);
                proof {
                    assert(self.params_view() =~= old_pipelines.map_values(
                        |e: (GBufferRenderingParams, PipelineWithObjects<P>)| e.0,
                    ));
                    assert(self.objects_view() =~= old_pipelines.map_values(
                        |e: (GBufferRenderingParams, PipelineWithObjects<P>)| e.1.objects@,
                    ).update(index as int, old_pipelines[index as int].1.objects@.insert(id)));
                    assert forall|i: int| 0 <= i < self.pipelines@.len() implies (#[trigger] self.pipelines@[i]).0
                        == old_pipelines[i].0 by {
                        assert(self.params_view()[i] == old_pipelines.map_values(
                            |e: (GBufferRenderingParams, PipelineWithObjects<P>)| e.0,
                        )[i]);
                    }
                }
                return Ok(());
            }
            index = index + 1;
        }
        assert(pipeline_index(self.pipelines@, params) is None);
        match create_pipeline(&params) {
            Ok(pipeline) => {
                let ghost old_pipelines = self.pipelines@;
                self.pipelines.push((params, PipelineWithObjects::new(pipeline)));
                proof {
                    assert(self.params_view() =~= old_pipelines.map_values(
                        |e: (GBufferRenderingParams, PipelineWithObjects<P>)| e.0,
                    ).push(params));
                    assert(self.objects_view() =~= old_pipelines.map_values(
                        |e: (GBufferRenderingParams, PipelineWithObjects<P>)| e.1.objects@,
                    ).push(Set::<u32>::empty()));
                }
                Ok(())
            },
            Err(error) => Err(error),
        }
    }

    /// Stops drawing the object `id`: it is removed from the first pipeline
    /// that draws it, and the search stops there.
    pub fn remove_renderable(&mut self, id: &u32)
        requires
            old(self).wf(),
        ensures
            final(self).wf(),
            final(self).pipelines@.len() == old(self).pipelines@.len(),
            forall|i: int|
                0 <= i < old(self).pipelines@.len() ==> (#[trigger] final(self).pipelines@[i]).1.render_pipeline
                    == old(self).pipelines@[i].1.render_pipeline,
            final(self).params_view() == old(self).params_view(),
            match first_index_containing(old(self).objects_view(), *id) {
                Some(k) => final(self).objects_view() == old(self).objects_view().update(
                    k,
                    old(self).objects_view()[k].remove(*id),
                ),
                None => final(self).objects_view() == old(self).objects_view(),
            },
    {
        let ghost old_objects = old(self).objects_view();
        let mut index: usize = 0;
        while index < self.pipelines.len()
            invariant
                index <= self.pipelines@.len(),
                self.wf(),
                self.pipelines@.len() == old(self).pipelines@.len(),
                forall|i: int|
                    0 <= i < old(self).pipelines@.len() ==> (#[trigger] self.pipelines@[i]).1.render_pipeline
                        == old(self).pipelines@[i].1.render_pipeline,
                self.params_view() == old(self).params_view(),
                self.objects_view() == old_objects,
                old_objects == old(self).objects_view(),
                forall|i: int| 0 <= i < index ==> !(#[trigger] old_objects[i]).contains(*id),
            decreases self.pipelines@.len() - index,
        {
            let ghost before = self.pipelines@;
            assert(old_objects[index as int] == before[index as int].1.objects@);
            let removed = self.pipelines[index].1.objects.remove(id);
            proof {
                assert forall|i: int| 0 <= i < self.pipelines@.len() implies (#[trigger] self.pipelines@[i]).0
                    == before[i].0 && self.pipelines@[i].1.render_pipeline == before[i].1.render_pipeline
                    && (i != index ==> self.pipelines@[i].1.objects@ == before[i].1.objects@) by {
                    if i == index {
                    } else {
                    }
                }
                assert forall|i: int, j: int| 0 <= i < j < self.pipelines@.len() implies (#[trigger] self.pipelines@[i]).0
                    != (#[trigger] self.pipelines@[j]).0 by {
                    assert(before[i].0 != before[j].0);
                }
                assert(self.params_view() =~= old(self).params_view()) by {
                    assert forall|i: int| 0 <= i < self.pipelines@.len() implies self.params_view()[i]
                        == old(self).params_view()[i] by {
                        assert(old(self).params_view()[i] == before.map_values(
                            |e: (GBufferRenderingParams, PipelineWithObjects<P>)| e.0,
                        )[i]);
                    }
                }
            }
            if removed {
                proof {
                    lemma_first_index_exists(old_objects, *id, index as int);
                    let k = first_index_containing(old_objects, *id)->0;
                    assert(k == index) by {
                        assert(old_objects[k].contains(*id));
                        if k < index {
                        }
                    }
                    assert(self.objects_view() =~= old_objects.update(
                        index as int,
                        old_objects[index as int].remove(*id),
                    ));
                }
                return;
            }
            proof {
                assert(old_objects[index as int].remove(*id) =~= old_objects[index as int]);
                assert(self.objects_view() =~= old_objects);
            }
            index = index + 1;
        }
        proof {
            if exists|k: int| 0 <= k < old_objects.len() && (#[trigger] old_objects[k]).contains(*id) {
                let k = choose|k: int| 0 <= k < old_objects.len() && (#[trigger] old_objects[k]).contains(*id);
                assert(!old_objects[k].contains(*id));
            }
        }
    }
}

} // verus!
