use vstd::prelude::*;

verus! {

/// What changed on an object since it was last uploaded to the GPU.
#[derive(Debug, Clone, Copy, PartialEq, Eq, Structural)]
pub enum DirtyState {
    /// No changes, nothing needs to be updated
    NothingChanged,
    /// In this case we might have to regenerate the buffers, as the number of items might have changed
    TransformChanged,
    /// In this case it's enough to copy the new data to the existing buffers,
    /// as the number/structure of items remains the same
    EverythingChanged,
}

impl Default for DirtyState {
    fn default() -> (state: Self)
        ensures
            state == DirtyState::NothingChanged,
    {
        DirtyState::NothingChanged
    }
}

/// The rendering pass an object is drawn in.
#[derive(Debug, Clone, Copy, PartialEq, Eq, Structural)]
pub enum RenderingPass {
    DeferredMain,
    ForceForwardAfterDeferred,
}

impl Default for RenderingPass {
    fn default() -> (pass: Self)
        ensures
            pass == RenderingPass::DeferredMain,
    {
        RenderingPass::DeferredMain
    }
}

/// The default of the boolean rendering options: on.
pub fn default_true() -> (value: bool)
    ensures
        value,
{
    true
}

/// Where the PBR material parameters of an object come from.
#[derive(Debug, Clone, Copy, PartialEq, Eq, Hash, Structural)]
pub enum PbrRenderingType {
    /// All the parameters are given as textures
    Textures,
    /// The parameters are given as plain old numbers
    FlatParameters,
}

impl Default for PbrRenderingType {
    fn default() -> (rendering_type: Self)
        ensures
            rendering_type == PbrRenderingType::Textures,
    {
        PbrRenderingType::Textures
    }
}

/// How an object is rendered.
#[derive(Debug, Clone, Copy, PartialEq, Eq, Structural)]
pub struct ModelRenderingOptions {
    pub pass: RenderingPass,
    /// Should we use depth testing when rendering this object? If not, then it will be drawn to the screen even if
    /// this object is behind something else
    pub use_depth_test: bool,
    /// Should this object cast shadows? If not, it won't be rendered into the shadow map
    pub cast_shadows: bool,
    pub pbr_resource_type: PbrRenderingType,
}

impl Default for ModelRenderingOptions {
    fn default() -> (options: Self)
        ensures
            options == (ModelRenderingOptions {
                pass: RenderingPass::DeferredMain,
                use_depth_test: true,
                cast_shadows: true,
                pbr_resource_type: PbrRenderingType::Textures,
            }),
    {
        Self {
            cast_shadows: true,
            use_depth_test: true,
            pbr_resource_type: PbrRenderingType::default(),
            pass: RenderingPass::default(),
        }
    }
}

} // verus!
