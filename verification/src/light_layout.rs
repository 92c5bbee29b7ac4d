use vstd::prelude::*;

verus! {

/// Number of faces of a cube map: a point light renders its shadow into one
/// view per face.
pub const CUBE_FACE_COUNT: usize = 6;

/// Byte offset of the slot of face `face_index` of point light
/// `light_index` in the view-projection buffer.
pub open spec fn point_slot_offset(light_index: int, face_index: int, alignment: int) -> int {
    (light_index * CUBE_FACE_COUNT + face_index) * alignment
}

/// Byte offset of the slot of directional light `directional_index`: the
/// directional lights follow the faces of all point lights.
pub open spec fn directional_slot_offset(point_light_count: int, directional_index: int, alignment: int) -> int {
    CUBE_FACE_COUNT * point_light_count * alignment + alignment * directional_index
}

/// Byte size of the view-projection buffer for the given light counts.
pub open spec fn viewproj_buffer_size(point_light_count: int, directional_count: int, alignment: int) -> int {
    alignment * (CUBE_FACE_COUNT * point_light_count + directional_count)
}

/// `value` rounded up to a multiple of `alignment`.
pub open spec fn aligned_up(value: int, alignment: int) -> int {
    if value % alignment == 0 {
        value
    } else {
        value + alignment - value % alignment
    }
}

/// `wgpu::util::align_to`: `value` if it is a multiple of `alignment`, else
/// `value + alignment - value % alignment`. It divides by `alignment` and
/// adds `value + alignment` first, so both must be in range.
#[verifier::external_body]
fn align_to(value: u64, alignment: u64) -> (aligned: u64)
    requires
        alignment > 0,
        value + alignment <= u64::MAX,
    ensures
        aligned == aligned_up(value as int, alignment as int),
{
    wgpu::util::align_to(value, alignment)
}

/// The stride of the view-projection slots: the size of one slot's data
/// rounded up to the device's minimum uniform buffer offset alignment, as
/// dynamic offsets require.
pub fn uniform_buffer_alignment(item_size: u64, min_uniform_buffer_offset_alignment: u64) -> (alignment: u64)
    requires
        min_uniform_buffer_offset_alignment > 0,
        item_size + min_uniform_buffer_offset_alignment <= u64::MAX,
    ensures
        alignment == aligned_up(item_size as int, min_uniform_buffer_offset_alignment as int),
{
    align_to(item_size, min_uniform_buffer_offset_alignment)
}

/// The slot stride holds the item, is a multiple of the required alignment,
/// and is the least such size.
pub proof fn lemma_aligned_up_is_least_multiple(value: int, alignment: int)
    requires
        value >= 0,
        alignment > 0,
    ensures
        aligned_up(value, alignment) % alignment == 0,
        value <= aligned_up(value, alignment) < value + alignment,
{
    vstd::arithmetic::div_mod::lemma_fundamental_div_mod(value, alignment);
    vstd::arithmetic::div_mod::lemma_mod_bound(value, alignment);
    if value % alignment != 0 {
        vstd::arithmetic::div_mod::lemma_mod_add_multiples_vanish(value - value % alignment, alignment);
        assert((value - value % alignment) % alignment == 0) by {
            vstd::arithmetic::div_mod::lemma_mod_multiples_basic(value / alignment, alignment);
            vstd::arithmetic::mul::lemma_mul_is_commutative(value / alignment, alignment);
        }
    }
}

/// Number of point and directional lights in the scene.
pub struct LightCount {
    pub point: usize,
    pub directional: usize,
}

/// The light counts in the layout the shaders read them in.
#[derive(Clone, Copy)]
pub struct LightCountRaw {
    pub point: u32,
    pub directional: u32,
}

impl LightCount {
    /// Both counts narrowed to `u32`, as the uniform buffer stores them.
    pub fn to_raw(&self) -> (raw: LightCountRaw)
        ensures
            raw.point == self.point as u32,
            raw.directional == self.directional as u32,
    {
        LightCountRaw { point: self.point as u32, directional: self.directional as u32 }
    }

    /// Number of entries of the light data buffer: one per light.
    pub fn light_item_count(&self) -> (count: usize)
        requires
            self.point + self.directional <= usize::MAX,
        ensures
            count == self.point + self.directional,
    {
        self.point + self.directional
    }

    /// Number of view-projection slots: one per cube face of each point
    /// light, and one per directional light.
    pub fn viewproj_item_count(&self) -> (count: usize)
        requires
            CUBE_FACE_COUNT * self.point + self.directional <= usize::MAX,
        ensures
            count == CUBE_FACE_COUNT * self.point + self.directional,
    {
        CUBE_FACE_COUNT * self.point + self.directional
    }
}

/// Byte size of a buffer that holds `item_count` slots of `slot_size` bytes.
pub fn fixed_size_buffer_size(slot_size: u64, item_count: u64) -> (size: u64)
    requires
        slot_size * item_count <= u64::MAX,
    ensures
        size == slot_size * item_count,
{
    slot_size * item_count
}

/// Byte offset in the view-projection buffer at which the matrix of face
/// `face_index` of point light `light_index` is written.
pub fn point_light_viewproj_offset(light_index: usize, face_index: usize, alignment: u64) -> (offset: u64)
    requires
        (light_index * CUBE_FACE_COUNT + face_index) * alignment <= u64::MAX,
        light_index * CUBE_FACE_COUNT + face_index <= usize::MAX,
    ensures
        offset == point_slot_offset(light_index as int, face_index as int, alignment as int),
{
    let slot = light_index * CUBE_FACE_COUNT + face_index;
    proof {
        vstd::arithmetic::mul::lemma_mul_inequality(slot as int, slot as int, alignment as int);
    }
    (slot as u64) * alignment
}

/// Byte offset in the view-projection buffer at which the matrix of the
/// directional light `directional_index` is written: the directional lights
/// follow the faces of all `point_light_count` point lights.
pub fn directional_light_viewproj_offset(
    point_light_count: usize,
    directional_index: usize,
    alignment: u64,
) -> (offset: u64)
    requires
        CUBE_FACE_COUNT * point_light_count <= usize::MAX,
        CUBE_FACE_COUNT * point_light_count * alignment <= usize::MAX,
        CUBE_FACE_COUNT * point_light_count * alignment + alignment * directional_index
            <= u64::MAX,
    ensures
        offset == directional_slot_offset(
            point_light_count as int,
            directional_index as int,
            alignment as int,
        ),
{
    let point_faces = CUBE_FACE_COUNT * point_light_count;
    let alignment_usize = alignment as usize;
    proof {
        if point_faces > 0 {
            assert(alignment <= point_faces * alignment) by (nonlinear_arith)
                requires
                    point_faces > 0,
            ;
            assert(alignment_usize == alignment);
        } else {
            assert(point_faces * alignment_usize == 0) by (nonlinear_arith)
                requires
                    point_faces == 0,
            ;
            assert(point_faces * alignment == 0) by (nonlinear_arith)
                requires
                    point_faces == 0,
            ;
        }
        assert(point_faces * alignment_usize == point_faces * alignment);
        assert(alignment * directional_index >= 0) by (nonlinear_arith);
    }
    let base_offset_after_point_lights = point_faces * alignment_usize;
    (base_offset_after_point_lights as u64) + alignment * (directional_index as u64)
}

/// The byte offsets at which the view-projection matrices are written, in
/// the order they are written: the six faces of each point light, light by
/// light, then each directional light. Slot `k` lies at `k * alignment`.
pub fn viewproj_write_offsets(point_light_count: usize, directional_count: usize, alignment: u64) -> (offsets: Vec<u64>)
    requires
        CUBE_FACE_COUNT * point_light_count + directional_count <= usize::MAX,
        viewproj_buffer_size(point_light_count as int, directional_count as int, alignment as int)
            <= u64::MAX,
    ensures
        offsets@.len() == CUBE_FACE_COUNT * point_light_count + directional_count,
        forall|k: int| 0 <= k < offsets@.len() ==> #[trigger] offsets@[k] == k * alignment,
        forall|l: int, f: int|
            0 <= l < point_light_count && 0 <= f < CUBE_FACE_COUNT ==> offsets@[l * CUBE_FACE_COUNT
                + f] == #[trigger] point_slot_offset(l, f, alignment as int),
        forall|j: int|
            0 <= j < directional_count ==> offsets@[CUBE_FACE_COUNT * point_light_count + j]
                == #[trigger] directional_slot_offset(point_light_count as int, j, alignment as int),
{
    let total = CUBE_FACE_COUNT * point_light_count + directional_count;
    let mut offsets: Vec<u64> = Vec::new();
    let mut k: usize = 0;
    while k < total
        invariant
            k <= total,
            total == CUBE_FACE_COUNT * point_light_count + directional_count,
            alignment * total <= u64::MAX,
            offsets@.len() == k,
            forall|i: int| 0 <= i < k ==> #[trigger] offsets@[i] == i * alignment,
        decreases total - k,
    {
        assert(k * alignment <= total * alignment) by (nonlinear_arith)
            requires
                k < total,
        ;
        offsets.push((k as u64) * alignment);
        k = k + 1;
    }
    proof {
        assert forall|l: int, f: int|
            0 <= l < point_light_count && 0 <= f < CUBE_FACE_COUNT implies offsets@[l * CUBE_FACE_COUNT
                + f] == #[trigger] point_slot_offset(l, f, alignment as int) by {
            assert(0 <= l * CUBE_FACE_COUNT + f < total) by (nonlinear_arith)
                requires
                    0 <= l < point_light_count,
                    0 <= f < CUBE_FACE_COUNT,
                    total == CUBE_FACE_COUNT * point_light_count + directional_count,
            ;
        }
        assert forall|j: int| 0 <= j < directional_count implies offsets@[CUBE_FACE_COUNT
            * point_light_count + j] == #[trigger] directional_slot_offset(
            point_light_count as int,
            j,
            alignment as int,
        ) by {
            assert(CUBE_FACE_COUNT * point_light_count * alignment + alignment * j == (CUBE_FACE_COUNT
                * point_light_count + j) * alignment) by (nonlinear_arith);
        }
    }
    offsets
}

/// Two slots of `alignment` bytes with different indices do not overlap.
proof fn lemma_slots_apart(s1: int, s2: int, alignment: int)
    requires
        0 <= s1 < s2,
        alignment >= 0,
    ensures
        s1 * alignment + alignment <= s2 * alignment,
{
    assert(s1 * alignment + alignment <= s2 * alignment) by (nonlinear_arith)
        requires
            0 <= s1 < s2,
            alignment >= 0,
    ;
}

/// The light data upload writes every view-projection matrix into a slot of
/// its own: face `f` of point light `l` goes to slot `6 * l + f`, directional
/// light `j` to slot `6 * point_light_count + j`. So no two writes overlap,
/// the directional matrices follow all point light matrices, and every
/// slot of `alignment` bytes lies inside the buffer made for these counts.
pub proof fn lemma_viewproj_layout(point_light_count: int, directional_count: int, alignment: int)
    requires
        point_light_count >= 0,
        directional_count >= 0,
        alignment >= 0,
    ensures
        forall|l: int, f: int|
            0 <= l < point_light_count && 0 <= f < CUBE_FACE_COUNT ==> #[trigger] point_slot_offset(
                l,
                f,
                alignment,
            ) + alignment <= viewproj_buffer_size(point_light_count, directional_count, alignment),
        forall|j: int|
            0 <= j < directional_count ==> #[trigger] directional_slot_offset(
                point_light_count,
                j,
                alignment,
            ) + alignment <= viewproj_buffer_size(point_light_count, directional_count, alignment),
        forall|l1: int, f1: int, l2: int, f2: int|
            0 <= l1 && 0 <= f1 < CUBE_FACE_COUNT && 0 <= l2 && 0 <= f2 < CUBE_FACE_COUNT && (l1
                != l2 || f1 != f2) ==> #[trigger] point_slot_offset(l1, f1, alignment) + alignment
                <= #[trigger] point_slot_offset(l2, f2, alignment) || point_slot_offset(
                l2,
                f2,
                alignment,
            ) + alignment <= point_slot_offset(l1, f1, alignment),
        forall|l: int, f: int, j: int|
            0 <= l < point_light_count && 0 <= f < CUBE_FACE_COUNT && 0 <= j
                ==> #[trigger] point_slot_offset(l, f, alignment) + alignment
                <= #[trigger] directional_slot_offset(point_light_count, j, alignment),
        forall|j1: int, j2: int|
            0 <= j1 < j2 ==> #[trigger] directional_slot_offset(point_light_count, j1, alignment)
                + alignment <= #[trigger] directional_slot_offset(point_light_count, j2, alignment),
{
    let p = point_light_count;
    let d = directional_count;
    let a = alignment;
    let total = CUBE_FACE_COUNT * p + d;
    assert(a * (CUBE_FACE_COUNT * p + d) == total * a) by (nonlinear_arith)
        requires
            total == CUBE_FACE_COUNT * p + d,
    ;
    assert forall|l: int, f: int| 0 <= l < p && 0 <= f < CUBE_FACE_COUNT implies #[trigger] point_slot_offset(l, f, a) + a
        <= viewproj_buffer_size(p, d, a) by {
        assert(l * CUBE_FACE_COUNT + f < total) by (nonlinear_arith)
            requires
                0 <= l < p,
                0 <= f < CUBE_FACE_COUNT,
                total == CUBE_FACE_COUNT * p + d,
                d >= 0,
        ;
        lemma_slots_apart(l * CUBE_FACE_COUNT + f, total, a);
    }
    assert forall|j: int| 0 <= j < d implies #[trigger] directional_slot_offset(p, j, a) + a
        <= viewproj_buffer_size(p, d, a) by {
        assert(CUBE_FACE_COUNT * p * a + a * j == (CUBE_FACE_COUNT * p + j) * a) by (nonlinear_arith);
        lemma_slots_apart(CUBE_FACE_COUNT * p + j, total, a);
    }
    assert forall|l1: int, f1: int, l2: int, f2: int|
        0 <= l1 && 0 <= f1 < CUBE_FACE_COUNT && 0 <= l2 && 0 <= f2 < CUBE_FACE_COUNT && (l1 != l2
            || f1 != f2) implies #[trigger] point_slot_offset(l1, f1, a) + a <= #[trigger] point_slot_offset(
        l2,
        f2,
        a,
    ) || point_slot_offset(l2, f2, a) + a <= point_slot_offset(l1, f1, a) by {
        let s1 = l1 * CUBE_FACE_COUNT + f1;
        let s2 = l2 * CUBE_FACE_COUNT + f2;
        assert(s1 != s2) by (nonlinear_arith)
            requires
                s1 == l1 * CUBE_FACE_COUNT + f1,
                s2 == l2 * CUBE_FACE_COUNT + f2,
                0 <= f1 < CUBE_FACE_COUNT,
                0 <= f2 < CUBE_FACE_COUNT,
                l1 != l2 || f1 != f2,
        ;
        assert(s1 >= 0 && s2 >= 0) by (nonlinear_arith)
            requires
                s1 == l1 * CUBE_FACE_COUNT + f1,
                s2 == l2 * CUBE_FACE_COUNT + f2,
                0 <= l1,
                0 <= l2,
                0 <= f1,
                0 <= f2,
        ;
        if s1 < s2 {
            lemma_slots_apart(s1, s2, a);
        } else {
            lemma_slots_apart(s2, s1, a);
        }
    }
    assert forall|l: int, f: int, j: int|
        0 <= l < p && 0 <= f < CUBE_FACE_COUNT && 0 <= j implies #[trigger] point_slot_offset(l, f, a) + a
        <= #[trigger] directional_slot_offset(p, j, a) by {
        assert(CUBE_FACE_COUNT * p * a + a * j == (CUBE_FACE_COUNT * p + j) * a) by (nonlinear_arith);
        assert(0 <= l * CUBE_FACE_COUNT + f < CUBE_FACE_COUNT * p + j) by (nonlinear_arith)
            requires
                0 <= l < p,
                0 <= f < CUBE_FACE_COUNT,
                0 <= j,
        ;
        lemma_slots_apart(l * CUBE_FACE_COUNT + f, CUBE_FACE_COUNT * p + j, a);
    }
    assert forall|j1: int, j2: int| 0 <= j1 < j2 implies #[trigger] directional_slot_offset(p, j1, a)
        + a <= #[trigger] directional_slot_offset(p, j2, a) by {
        assert(CUBE_FACE_COUNT * p * a + a * j1 == (CUBE_FACE_COUNT * p + j1) * a) by (nonlinear_arith);
        assert(CUBE_FACE_COUNT * p * a + a * j2 == (CUBE_FACE_COUNT * p + j2) * a) by (nonlinear_arith);
        lemma_slots_apart(CUBE_FACE_COUNT * p + j1, CUBE_FACE_COUNT * p + j2, a);
    }
}

} // verus!
