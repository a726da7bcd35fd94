//! A model of the GPU resources this pass creates and wires together.
//!
//! Resource creation is a synchronous enqueue from the caller's point of
//! view, so every created resource is modeled as a record that carries a
//! fresh identity together with exactly what it was created from. The
//! device is the allocator of those identities: it hands out strictly
//! increasing ids, which is what makes "a rebuilt resource is a new
//! object, never a mutated stale one" provable for callers.

use vstd::prelude::*;

verus! {

/// Identifies the texture view of one view's low-resolution fog buffer,
/// produced by the upstream fog-rendering pass.
#[derive(Clone, Copy, Debug, PartialEq, Eq, Structural)]
pub struct TextureView {
    pub id: u64,
}

/// Texture filtering mode of a sampler.
#[derive(Clone, Copy, Debug, PartialEq, Eq, Structural)]
pub enum FilterMode {
    Nearest,
    Linear,
}

/// Addressing mode of a sampler outside the [0, 1] coordinate range.
#[derive(Clone, Copy, Debug, PartialEq, Eq, Structural)]
pub enum AddressMode {
    ClampToEdge,
    Repeat,
    MirrorRepeat,
}

/// What a sampler is created with.
#[derive(Clone, Copy, Debug, PartialEq, Eq, Structural)]
pub struct SamplerDescriptor {
    pub min_filter: FilterMode,
    pub mag_filter: FilterMode,
    pub address_mode_u: AddressMode,
    pub address_mode_v: AddressMode,
}

/// A created sampler: a fresh identity plus the descriptor it was created
/// with.
#[derive(Clone, Copy, Debug, PartialEq, Eq, Structural)]
pub struct Sampler {
    pub id: u64,
    pub descriptor: SamplerDescriptor,
}

/// The shader stages a binding is visible to.
#[derive(Clone, Copy, Debug, PartialEq, Eq, Structural)]
pub enum ShaderStages {
    Vertex,
    Fragment,
}

/// One entry of a bind group layout.
#[derive(Clone, Copy, Debug, PartialEq, Eq, Structural)]
pub enum BindingType {
    /// A 2D texture binding.
    Texture2d { filterable: bool },
    /// A sampler binding.
    Sampler { filtering: bool },
    /// A uniform-buffer binding, optionally taking a dynamic offset at
    /// draw time.
    UniformBuffer { has_dynamic_offset: bool },
}

/// A created bind group layout: a fresh identity plus the stage
/// visibility and the ordered entries it was created with.
#[derive(Debug, PartialEq, Eq)]
pub struct BindGroupLayout {
    pub id: u64,
    pub visibility: ShaderStages,
    pub entries: Vec<BindingType>,
}

/// Two layout values describe the same layout: same identity, same stage
/// visibility, same entries in the same order.
pub open spec fn layout_matches(a: BindGroupLayout, b: BindGroupLayout) -> bool {
    &&& a.id == b.id
    &&& a.visibility == b.visibility
    &&& a.entries@ == b.entries@
}

impl Clone for BindGroupLayout {
    /// A clone describes the same layout as the original: same identity,
    /// visibility and entries.
    fn clone(&self) -> (r: Self)
        ensures
            layout_matches(r, *self),
    {
        let mut entries: Vec<BindingType> = Vec::new();
        let mut i: usize = 0;
        while i < self.entries.len()
            invariant
                i <= self.entries.len(),
                entries@ == self.entries@.subrange(0, i as int),
            decreases self.entries.len() - i,
        {
            entries.push(self.entries[i]);
            proof {
                assert(entries@ =~= self.entries@.subrange(0, i + 1 as int));
            }
            i = i + 1;
        }
        proof {
            assert(entries@ =~= self.entries@);
        }
        BindGroupLayout { id: self.id, visibility: self.visibility, entries }
    }
}

/// A binding into the externally aggregated uniform buffer that holds
/// every view's `UpsamplingUniforms` at per-view offsets.
#[derive(Clone, Copy, Debug, PartialEq, Eq, Structural)]
pub struct UniformBinding {
    pub buffer: u64,
}

/// The aggregated per-component uniform buffer, as this pass sees it: it
/// either offers a binding or has none yet. Filled externally after
/// extraction uploads the uniforms.
#[derive(Clone, Copy, Debug, PartialEq, Eq)]
pub struct ComponentUniforms {
    pub uniforms: Option<UniformBinding>,
}

impl ComponentUniforms {
    /// The binding into the aggregated uniform buffer, when one exists.
    pub fn binding(&self) -> (r: Option<UniformBinding>)
        ensures
            r == self.uniforms,
    {
        self.uniforms
    }
}

/// A created bind group: a fresh identity plus exactly the resources it
/// binds, recorded at build time. The record never changes afterwards, so
/// the group keeps referencing the texture that was current when it was
/// built.
#[derive(Clone, Copy, Debug, PartialEq, Eq, Structural)]
pub struct BindGroup {
    pub id: u64,
    pub layout: u64,
    pub texture: TextureView,
    pub sampler: u64,
    pub uniforms: UniformBinding,
}

/// The device, modeled as the allocator of resource identities: `served`
/// is the number of ids handed out so far, and every id it ever returned
/// is below `served`.
#[derive(Clone, Copy, Debug, PartialEq, Eq, Structural)]
pub struct RenderDevice {
    pub served: u64,
}

/// How one `create_bind_group` call relates its inputs, the device states
/// around it, and the group it returns: the group records exactly the
/// given resources and takes the next identity the device serves.
pub open spec fn bind_group_created(
    pre: RenderDevice,
    post: RenderDevice,
    layout: BindGroupLayout,
    texture: TextureView,
    sampler: Sampler,
    uniforms: UniformBinding,
    group: BindGroup,
) -> bool {
    &&& group.id == pre.served
    &&& post.served == pre.served + 1
    &&& group.layout == layout.id
    &&& group.texture == texture
    &&& group.sampler == sampler.id
    &&& group.uniforms == uniforms
}

impl RenderDevice {
    /// A fresh device that has served no resource yet.
    pub fn new() -> (r: RenderDevice)
        ensures
            r.served == 0,
    {
        RenderDevice { served: 0 }
    }

    /// Creates a sampler with the given descriptor; the result carries a
    /// fresh identity and that descriptor.
    pub fn create_sampler(&mut self, descriptor: &SamplerDescriptor) -> (s: Sampler)
        requires
            old(self).served < u64::MAX,
        ensures
            s.id == old(self).served,
            s.descriptor == *descriptor,
            final(self).served == old(self).served + 1,
    {
        let s = Sampler { id: self.served, descriptor: *descriptor };
        self.served = self.served + 1;
        s
    }

    /// Creates a bind group layout with the given stage visibility and
    /// ordered entries; the result carries a fresh identity and both.
    pub fn create_bind_group_layout(
        &mut self,
        visibility: ShaderStages,
        entries: Vec<BindingType>,
    ) -> (l: BindGroupLayout)
        requires
            old(self).served < u64::MAX,
        ensures
            l.id == old(self).served,
            l.visibility == visibility,
            l.entries == entries,
            final(self).served == old(self).served + 1,
    {
        let l = BindGroupLayout { id: self.served, visibility, entries };
        self.served = self.served + 1;
        l
    }

    /// Creates a bind group over the given layout, binding the given
    /// texture view, sampler and uniform binding; the result is a fresh
    /// object recording exactly those resources.
    pub fn create_bind_group(
        &mut self,
        layout: &BindGroupLayout,
        texture: TextureView,
        sampler: &Sampler,
        uniforms: UniformBinding,
    ) -> (group: BindGroup)
        requires
            old(self).served < u64::MAX,
        ensures
            bind_group_created(
                *old(self),
                *final(self),
                *layout,
                texture,
                *sampler,
                uniforms,
                group,
            ),
    {
        let group = BindGroup {
            id: self.served,
            layout: layout.id,
            texture,
            sampler: sampler.id,
            uniforms,
        };
        self.served = self.served + 1;
        group
    }
}

/// Law: rebuilding a bind group gives a different object, never a mutated
/// stale one. Two groups built one after the other on the same device are
/// distinct, and each references the texture view that was current at its
/// own build time.
pub proof fn lemma_rebuilt_bind_group_is_fresh(
    d0: RenderDevice,
    d1: RenderDevice,
    d2: RenderDevice,
    layout1: BindGroupLayout,
    layout2: BindGroupLayout,
    texture1: TextureView,
    texture2: TextureView,
    sampler1: Sampler,
    sampler2: Sampler,
    uniforms1: UniformBinding,
    uniforms2: UniformBinding,
    group1: BindGroup,
    group2: BindGroup,
)
    requires
        bind_group_created(d0, d1, layout1, texture1, sampler1, uniforms1, group1),
        bind_group_created(d1, d2, layout2, texture2, sampler2, uniforms2, group2),
    ensures
        group1.id != group2.id,
        group1.texture == texture1,
        group2.texture == texture2,
{
}

} // verus!
