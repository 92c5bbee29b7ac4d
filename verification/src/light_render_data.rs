use vstd::prelude::*;

verus! {

/// The shadow map resources of one kind of light, with the bookkeeping of
/// which depth texture slots are handed out.
pub struct GeneralLightRenderData<R> {
    /// The GPU resources: depth textures and views for `light_count` lights.
    pub render_resources: R,
    /// The number of lights for which we have space. If we don't have any more space and a new
    /// light is added, then we need to allocate some more space
    pub light_count: usize,
    /// If a light was deleted, we just take a note here, we don't shrink to textures
    /// If a new light is added later, then these free texture views are distributed before new space is allocated
    pub free_indices: Vec<usize>,
}

impl<R> GeneralLightRenderData<R> {
    /// Resources for one light, made by `create_resources` with that count.
    pub fn new<F: FnOnce(usize) -> R>(create_resources: F) -> (data: Self)
        requires
            create_resources.requires((1usize,)),
        ensures
            data.light_count == 1,
            data.free_indices@ == Seq::<usize>::empty(),
            create_resources.ensures((1usize,), data.render_resources),
    {
        let initial_light_count: usize = 1;
        let render_resources = create_resources(initial_light_count);
        Self { light_count: initial_light_count, free_indices: Vec::new(), render_resources }
    }

    /// The depth texture slot for a new light. A free slot is handed out
    /// before any new space is made: the last freed one. Where none is free,
    /// the resources are made anew by `create_resources` for one more light
    /// than the current count, the slot is the current count, and the count
    /// grows by one. So calls that make new space hand out ever higher
    /// slots, never the same one twice.
    pub fn make_resources_for_new_light<F: FnOnce(usize) -> R>(&mut self, create_resources: F) -> (index: usize)
        requires
            old(self).free_indices@.len() == 0 ==> old(self).light_count + 1 <= usize::MAX
                && create_resources.requires(((old(self).light_count + 1) as usize,)),
        ensures
            old(self).free_indices@.len() > 0 ==> {
                &&& final(self).light_count == old(self).light_count
                &&& index == old(self).free_indices@.last()
                &&& final(self).free_indices@ == old(self).free_indices@.drop_last()
                &&& final(self).render_resources == old(self).render_resources
            },
            old(self).free_indices@.len() == 0 ==> {
                &&& index == old(self).light_count
                &&& final(self).light_count == old(self).light_count + 1
                &&& final(self).free_indices@ == old(self).free_indices@
                &&& create_resources.ensures(
                    ((old(self).light_count + 1) as usize,),
                    final(self).render_resources,
                )
            },
    {
        if let Some(index) = self.free_indices.pop() {
            index
        } else {
            let index = self.light_count;
            self.render_resources = create_resources(self.light_count + 1);
            self.light_count = self.light_count + 1;
            index
        }
    }
}

} // verus!
