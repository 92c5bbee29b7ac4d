use vstd::prelude::*;

use crate::float_values::{FloatBits, Vec3Bits, FLOAT_ONE_BITS, FLOAT_ZERO_BITS};

verus! {

/// A line through `position` along `direction`.
#[derive(Debug, Clone, Copy, PartialEq, Eq, Structural)]
pub struct AxisLine {
    pub position: Vec3Bits,
    pub direction: Vec3Bits,
}

/// What changed when the selection changed.
#[derive(Debug, Clone, Copy, PartialEq, Eq, Structural)]
pub enum GizmoUpdateResult {
    Nothing,
    GizmoAddedWithPosition,
    GizmoSelectedWithAxis(AxisLine),
    GizmoRemoved,
}

/// The changes to the world that a selection change asks for: the gizmo
/// parts to take out of the world, and where to put a new gizmo, if one is
/// to be made, with the axes of its parts, one part per axis (each part is
/// then registered with `add_drawn_part`).
pub struct GizmoWorldActions {
    pub remove_parts: Vec<u32>,
    pub add_parts_at: Option<Vec3Bits>,
    pub axes_to_add: Vec<Vec3Bits>,
}

/// The unit vector along one axis, by its bits: `1.0` at the axis, `0.0`
/// elsewhere.
pub open spec fn unit_axis(x: bool, y: bool, z: bool) -> Vec3Bits {
    let one = FloatBits(FLOAT_ONE_BITS);
    let zero = FloatBits(FLOAT_ZERO_BITS);
    Vec3Bits { x: if x { one } else { zero }, y: if y { one } else { zero }, z: if z { one } else { zero } }
}

/// The axes of the parts of a gizmo: X, Y and Z.
pub open spec fn gizmo_axes() -> Seq<Vec3Bits> {
    seq![unit_axis(true, false, false), unit_axis(false, true, false), unit_axis(false, false, true)]
}

/// The axes of the parts of a new gizmo: X, Y and Z.
fn gizmo_part_axes() -> (axes: Vec<Vec3Bits>)
    ensures
        axes@ == gizmo_axes(),
{
    let one = FloatBits(FLOAT_ONE_BITS);
    let zero = FloatBits(FLOAT_ZERO_BITS);
    let mut axes: Vec<Vec3Bits> = Vec::new();
    axes.push(Vec3Bits { x: one, y: zero, z: zero });
    axes.push(Vec3Bits { x: zero, y: one, z: zero });
    axes.push(Vec3Bits { x: zero, y: zero, z: one });
    assert(axes@ =~= gizmo_axes());
    axes
}

/// The changes to the world that a change of the hovered object asks for:
/// the part whose material goes back to the color of its axis, and the part
/// to highlight.
pub struct GizmoHoverActions {
    pub restore_part: Option<(u32, Vec3Bits)>,
    pub highlight_part: Option<u32>,
}

/// The translation gizmo: the selected object, the part under the cursor,
/// where the gizmo stands, and the parts (one per axis) it has in the world.
pub struct Gizmo {
    pub selected_object_id: Option<u32>,
    pub hovered_gizmo_part_id: Option<u32>,
    pub gizmo_position: Option<Vec3Bits>,
    pub gizmo_parts_drawn: Vec<(u32, Vec3Bits)>,
}

/// The axis of the part `id` among `parts`, if it is one of them.
pub open spec fn part_axis(parts: Seq<(u32, Vec3Bits)>, id: u32) -> Option<Vec3Bits> {
    if exists|i: int| 0 <= i < parts.len() && (#[trigger] parts[i]).0 == id {
        let i = choose|i: int| 0 <= i < parts.len() && (#[trigger] parts[i]).0 == id;
        Some(parts[i].1)
    } else {
        None
    }
}

/// No part id occurs twice.
pub open spec fn unique_part_ids(parts: Seq<(u32, Vec3Bits)>) -> bool {
    forall|i: int, j: int| 0 <= i < j < parts.len() ==> (#[trigger] parts[i]).0 != (#[trigger] parts[j]).0
}

/// The ids of `parts`, in order.
pub open spec fn part_ids(parts: Seq<(u32, Vec3Bits)>) -> Seq<u32> {
    parts.map_values(|p: (u32, Vec3Bits)| p.0)
}

/// A part registered on a gizmo is found again with the axis it was
/// registered with, so selecting it afterwards gives the line along that
/// axis; the parts registered before keep their axes.
pub proof fn lemma_registered_part_has_axis(parts: Seq<(u32, Vec3Bits)>, id: u32, axis: Vec3Bits, other: u32)
    requires
        unique_part_ids(parts),
        part_axis(parts, id) is None,
        other != id,
    ensures
        part_axis(parts.push((id, axis)), id) == Some(axis),
        part_axis(parts.push((id, axis)), other) == part_axis(parts, other),
{
    let added = parts.push((id, axis));
    assert(added[parts.len() as int].0 == id);
    let k = choose|i: int| 0 <= i < added.len() && (#[trigger] added[i]).0 == id;
    if k < parts.len() {
        assert(parts[k].0 == id);
    }
    if exists|i: int| 0 <= i < added.len() && (#[trigger] added[i]).0 == other {
        let j = choose|i: int| 0 <= i < added.len() && (#[trigger] added[i]).0 == other;
        assert(j < parts.len());
        assert(parts[j].0 == other);
        let m = choose|i: int| 0 <= i < parts.len() && (#[trigger] parts[i]).0 == other;
        if m != j {
            if m < j {
                assert(parts[m].0 != parts[j].0);
            } else {
                assert(parts[j].0 != parts[m].0);
            }
        }
    } else {
        if exists|i: int| 0 <= i < parts.len() && (#[trigger] parts[i]).0 == other {
            let m = choose|i: int| 0 <= i < parts.len() && (#[trigger] parts[i]).0 == other;
            assert(added[m].0 == other);
        }
    }
}

/// In parts with unique ids, the part at `k` is the one found for its id.
proof fn lemma_part_axis_at(parts: Seq<(u32, Vec3Bits)>, k: int)
    requires
        unique_part_ids(parts),
        0 <= k < parts.len(),
    ensures
        part_axis(parts, parts[k].0) == Some(parts[k].1),
{
    let id = parts[k].0;
    let m = choose|i: int| 0 <= i < parts.len() && (#[trigger] parts[i]).0 == id;
    if m < k {
        assert(parts[m].0 != parts[k].0);
    } else if m > k {
        assert(parts[k].0 != parts[m].0);
    }
}

/// Giving the part at `k` a new axis keeps the ids unique; that part is
/// found with the new axis and every other id with its old axis.
proof fn lemma_replaced_part_axis(parts: Seq<(u32, Vec3Bits)>, k: int, axis: Vec3Bits)
    requires
        unique_part_ids(parts),
        0 <= k < parts.len(),
    ensures
        unique_part_ids(parts.update(k, (parts[k].0, axis))),
        part_axis(parts.update(k, (parts[k].0, axis)), parts[k].0) == Some(axis),
        forall|other: u32|
            other != parts[k].0 ==> #[trigger] part_axis(parts.update(k, (parts[k].0, axis)), other)
                == part_axis(parts, other),
{
    let updated = parts.update(k, (parts[k].0, axis));
    assert forall|i: int, j: int|
        0 <= i < j < updated.len() implies (#[trigger] updated[i]).0 != (#[trigger] updated[j]).0 by {
        assert(parts[i].0 != parts[j].0);
    }
    lemma_part_axis_at(updated, k);
    assert forall|other: u32| other != parts[k].0 implies #[trigger] part_axis(updated, other)
        == part_axis(parts, other) by {
        if exists|i: int| 0 <= i < updated.len() && (#[trigger] updated[i]).0 == other {
            let j = choose|i: int| 0 <= i < updated.len() && (#[trigger] updated[i]).0 == other;
            assert(j != k);
            assert(parts[j] == updated[j]);
            lemma_part_axis_at(updated, j);
            lemma_part_axis_at(parts, j);
        } else {
            if exists|i: int| 0 <= i < parts.len() && (#[trigger] parts[i]).0 == other {
                let j = choose|i: int| 0 <= i < parts.len() && (#[trigger] parts[i]).0 == other;
                assert(updated[j].0 == other);
            }
        }
    }
}

impl Gizmo {
    /// The parts the gizmo has in the world, by id, with their axes.
    pub open spec fn parts(&self) -> Seq<(u32, Vec3Bits)> {
        self.gizmo_parts_drawn@
    }

    /// No part id occurs twice.
    pub open spec fn wf(&self) -> bool {
        unique_part_ids(self.parts())
    }

    /// Nothing selected, hovered or drawn.
    pub fn new() -> (gizmo: Self)
        ensures
            gizmo.wf(),
            gizmo.selected_object_id is None,
            gizmo.hovered_gizmo_part_id is None,
            gizmo.gizmo_position is None,
            gizmo.parts().len() == 0,
    {
        Self {
            selected_object_id: None,
            gizmo_parts_drawn: Vec::new(),
            gizmo_position: None,
            hovered_gizmo_part_id: None,
        }
    }

    /// The axis of the part `id`, if it is one of the gizmo's parts.
    pub fn get_axis_with_id(&self, id: u32) -> (axis: Option<Vec3Bits>)
        requires
            self.wf(),
        ensures
            axis == part_axis(self.parts(), id),
    {
        let mut index: usize = 0;
        while index < self.gizmo_parts_drawn.len()
            invariant
                index <= self.gizmo_parts_drawn@.len(),
                self.wf(),
                forall|i: int| 0 <= i < index ==> (#[trigger] self.gizmo_parts_drawn@[i]).0 != id,
            decreases self.gizmo_parts_drawn@.len() - index,
        {
            if self.gizmo_parts_drawn[index].0 == id {
                proof {
                    let k = choose|i: int| 0 <= i < self.parts().len() && (#[trigger] self.parts()[i]).0 == id;
                    if k != index {
                        if k < index {
                        } else {
                            assert(self.parts()[index as int].0 != self.parts()[k].0);
                        }
                    }
                }
                return Some(self.gizmo_parts_drawn[index].1);
            }
            index = index + 1;
        }
        None
    }

    /// The ids of the gizmo's parts, in the order they were added.
    pub fn drawn_part_ids(&self) -> (ids: Vec<u32>)
        ensures
            ids@ == part_ids(self.parts()),
    {
        let mut ids: Vec<u32> = Vec::new();
        let mut index: usize = 0;
        while index < self.gizmo_parts_drawn.len()
            invariant
                index <= self.gizmo_parts_drawn@.len(),
                ids@ == part_ids(self.gizmo_parts_drawn@.take(index as int)),
            decreases self.gizmo_parts_drawn@.len() - index,
        {
            ids.push(self.gizmo_parts_drawn[index].0);
            assert(part_ids(self.gizmo_parts_drawn@.take(index + 1)) =~= part_ids(
                self.gizmo_parts_drawn@.take(index as int),
            ).push(self.gizmo_parts_drawn@[index as int].0));
            index = index + 1;
        }
        assert(self.gizmo_parts_drawn@.take(index as int) =~= self.gizmo_parts_drawn@);
        ids
    }

    /// Registers `part_id`, a part of the gizmo along `axis` that was just
    /// added to the world. A part registered again keeps its place and takes
    /// the new axis; a new part is added at the end.
    pub fn add_drawn_part(&mut self, part_id: u32, axis: Vec3Bits)
        requires
            old(self).wf(),
        ensures
            final(self).wf(),
            part_axis(final(self).parts(), part_id) == Some(axis),
            forall|other: u32|
                other != part_id ==> #[trigger] part_axis(final(self).parts(), other) == part_axis(
                    old(self).parts(),
                    other,
                ),
            part_axis(old(self).parts(), part_id) is None ==> final(self).parts()
                == old(self).parts().push((part_id, axis)),
            part_axis(old(self).parts(), part_id) is Some ==> part_ids(final(self).parts())
                == part_ids(old(self).parts()),
            final(self).selected_object_id == old(self).selected_object_id,
            final(self).hovered_gizmo_part_id == old(self).hovered_gizmo_part_id,
            final(self).gizmo_position == old(self).gizmo_position,
    {
        let mut index: usize = 0;
        while index < self.gizmo_parts_drawn.len()
            invariant
                index <= self.gizmo_parts_drawn@.len(),
                self.gizmo_parts_drawn@ == old(self).gizmo_parts_drawn@,
                unique_part_ids(old(self).gizmo_parts_drawn@),
                self.selected_object_id == old(self).selected_object_id,
                self.hovered_gizmo_part_id == old(self).hovered_gizmo_part_id,
                self.gizmo_position == old(self).gizmo_position,
                forall|i: int| 0 <= i < index ==> (#[trigger] self.gizmo_parts_drawn@[i]).0 != part_id,
            decreases self.gizmo_parts_drawn@.len() - index,
        {
            if self.gizmo_parts_drawn[index].0 == part_id {
                let ghost before = self.parts();
                self.gizmo_parts_drawn.set(index, (part_id, axis));
                proof {
                    lemma_replaced_part_axis(before, index as int, axis);
                    assert(part_ids(self.parts()) =~= part_ids(before));
                }
                return;
            }
            index = index + 1;
        }
        proof {
            if part_axis(old(self).parts(), part_id) is Some {
                let k = choose|i: int|
                    0 <= i < old(self).parts().len() && (#[trigger] old(self).parts()[i]).0 == part_id;
                assert(old(self).parts()[k].0 != part_id);
            }
        }
        self.gizmo_parts_drawn.push((part_id, axis));
        proof {
            lemma_registered_part_has_axis(
                old(self).parts(),
                part_id,
                axis,
                if part_id == 0 { 1 } else { 0 },
            );
            assert forall|other: u32|
                other != part_id implies #[trigger] part_axis(self.parts(), other) == part_axis(
                    old(self).parts(),
                    other,
                ) by {
                lemma_registered_part_has_axis(old(self).parts(), part_id, axis, other);
            }
            assert forall|i: int, j: int|
                0 <= i < j < self.parts().len() implies (#[trigger] self.parts()[i]).0 != (#[trigger] self.parts()[j]).0 by {
                if j == self.parts().len() - 1 {
                    assert(old(self).parts()[i] == self.parts()[i]);
                } else {
                    assert(old(self).parts()[i] == self.parts()[i]);
                    assert(old(self).parts()[j] == self.parts()[j]);
                }
            }
        }
    }

    /// Changes the selection to `new_selected_object_id`.
    /// `new_object_position` is where that object stands in the world, if
    /// the world has it. Unless the new selection is one of the gizmo's own
    /// parts, a selected object loses its gizmo (all parts are to be taken
    /// out of the world) when the selection moves away from it. Selecting a
    /// part gives the line along its axis through the gizmo; selecting
    /// another object of the world places a new gizmo at it, with one part
    /// along each of the axes X, Y and Z; selecting
    /// nothing reports whether a gizmo went away.
    pub fn update_with_new_object_id(
        &mut self,
        new_selected_object_id: Option<u32>,
        new_object_position: Option<Vec3Bits>,
    ) -> (outcome: (GizmoUpdateResult, GizmoWorldActions))
        requires
            old(self).wf(),
        ensures
            final(self).wf(),
            final(self).hovered_gizmo_part_id == old(self).hovered_gizmo_part_id,
            outcome.1.axes_to_add@ == (if outcome.1.add_parts_at is Some {
                gizmo_axes()
            } else {
                Seq::<Vec3Bits>::empty()
            }),
            ({
                let is_part = new_selected_object_id matches Some(id) && part_axis(
                    old(self).parts(),
                    id,
                ) is Some;
                let removes = !is_part && old(self).selected_object_id is Some;
                let clears = removes && (new_selected_object_id is None
                    || new_selected_object_id != old(self).selected_object_id);
                let position_after_clear = if clears {
                    None
                } else {
                    old(self).gizmo_position
                };
                &&& clears ==> final(self).parts().len() == 0 && outcome.1.remove_parts@ == part_ids(
                    old(self).parts(),
                )
                &&& !clears ==> final(self).parts() == old(self).parts()
                    && outcome.1.remove_parts@.len() == 0
                &&& match new_selected_object_id {
                    Some(id) => match part_axis(old(self).parts(), id) {
                        Some(axis) => match old(self).gizmo_position {
                            Some(p) => {
                                &&& outcome.0 == GizmoUpdateResult::GizmoSelectedWithAxis(
                                    AxisLine { position: p, direction: axis },
                                )
                                &&& final(self).selected_object_id == old(self).selected_object_id
                                &&& final(self).gizmo_position == old(self).gizmo_position
                                &&& outcome.1.add_parts_at is None
                            },
                            None => {
                                &&& outcome.0 == GizmoUpdateResult::Nothing
                                &&& final(self).selected_object_id is None
                                &&& final(self).gizmo_position is None
                                &&& outcome.1.add_parts_at is None
                            },
                        },
                        None => match new_object_position {
                            Some(position) => {
                                &&& outcome.0 == GizmoUpdateResult::GizmoAddedWithPosition
                                &&& final(self).selected_object_id == Some(id)
                                &&& final(self).gizmo_position == Some(position)
                                &&& outcome.1.add_parts_at == Some(position)
                            },
                            None => {
                                &&& outcome.0 == GizmoUpdateResult::Nothing
                                &&& final(self).selected_object_id is None
                                &&& final(self).gizmo_position == position_after_clear
                                &&& outcome.1.add_parts_at is None
                            },
                        },
                    },
                    None => {
                        &&& outcome.0 == (if removes {
                            GizmoUpdateResult::GizmoRemoved
                        } else {
                            GizmoUpdateResult::Nothing
                        })
                        &&& final(self).selected_object_id is None
                        &&& final(self).gizmo_position == position_after_clear
                        &&& outcome.1.add_parts_at is None
                    },
                }
            }),
    {
        let is_part = match new_selected_object_id {
            Some(id) => self.get_axis_with_id(id).is_some(),
            None => false,
        };
        let mut remove_parts: Vec<u32> = Vec::new();
        // Clean up old gizmo, if necessary. If a gizmo is selected, we don't want to remove it from the world
        let removed_old_gizmo_now = if !is_part {
            if let Some(selected_object_id) = self.selected_object_id {
                if new_selected_object_id.is_none() || new_selected_object_id.unwrap()
                    != selected_object_id {
                    remove_parts = self.drawn_part_ids();
                    self.gizmo_parts_drawn = Vec::new();
                    self.gizmo_position = None;
                }
                true
            } else {
                false
            }
        } else {
            false
        };

        match new_selected_object_id {
            Some(object_id) => {
                if let Some(axis) = self.get_axis_with_id(object_id) {
                    if let Some(gizmo_position) = self.gizmo_position {
                        // Gizmo was selected, don't show new gizmo
                        (
                            GizmoUpdateResult::GizmoSelectedWithAxis(
                                AxisLine { position: gizmo_position, direction: axis },
                            ),
                            GizmoWorldActions { remove_parts, add_parts_at: None, axes_to_add: Vec::new() },
                        )
                    } else {
                        // When selecting a gizmo, we should have a valid position
                        self.selected_object_id = None;
                        (GizmoUpdateResult::Nothing, GizmoWorldActions { remove_parts, add_parts_at: None, axes_to_add: Vec::new() })
                    }
                } else {
                    if let Some(position) = new_object_position {
                        self.selected_object_id = Some(object_id);
                        self.gizmo_position = Some(position);
                        (
                            GizmoUpdateResult::GizmoAddedWithPosition,
                            GizmoWorldActions {
                                remove_parts,
                                add_parts_at: Some(position),
                                axes_to_add: gizmo_part_axes(),
                            },
                        )
                    } else {
                        self.selected_object_id = None;
                        (GizmoUpdateResult::Nothing, GizmoWorldActions { remove_parts, add_parts_at: None, axes_to_add: Vec::new() })
                    }
                }
            },
            None => {
                self.selected_object_id = new_selected_object_id;
                if removed_old_gizmo_now {
                    (GizmoUpdateResult::GizmoRemoved, GizmoWorldActions { remove_parts, add_parts_at: None, axes_to_add: Vec::new() })
                } else {
                    (GizmoUpdateResult::Nothing, GizmoWorldActions { remove_parts, add_parts_at: None, axes_to_add: Vec::new() })
                }
            },
        }
    }

    /// Changes the part under the cursor to `hovered_object_id`. Nothing
    /// happens if it is already the hovered one. Otherwise the previously
    /// hovered part, if any, gets the color of its axis back, and the new
    /// object is highlighted and kept as hovered if it is one of the
    /// gizmo's parts (else nothing is hovered).
    pub fn set_hovered_object_id(&mut self, hovered_object_id: Option<u32>) -> (actions: GizmoHoverActions)
        requires
            old(self).wf(),
        ensures
            final(self).wf(),
            final(self).parts() == old(self).parts(),
            final(self).selected_object_id == old(self).selected_object_id,
            final(self).gizmo_position == old(self).gizmo_position,
            old(self).hovered_gizmo_part_id == hovered_object_id ==> {
                &&& final(self).hovered_gizmo_part_id == old(self).hovered_gizmo_part_id
                &&& actions.restore_part is None
                &&& actions.highlight_part is None
            },
            old(self).hovered_gizmo_part_id != hovered_object_id ==> {
                &&& actions.restore_part == match old(self).hovered_gizmo_part_id {
                    Some(h) => match part_axis(old(self).parts(), h) {
                        Some(axis) => Some((h, axis)),
                        None => None,
                    },
                    None => None,
                }
                &&& match hovered_object_id {
                    Some(h) => if part_axis(old(self).parts(), h) is Some {
                        &&& final(self).hovered_gizmo_part_id == Some(h)
                        &&& actions.highlight_part == Some(h)
                    } else {
                        &&& final(self).hovered_gizmo_part_id is None
                        &&& actions.highlight_part is None
                    },
                    None => {
                        &&& final(self).hovered_gizmo_part_id is None
                        &&& actions.highlight_part is None
                    },
                }
            },
    {
        // Nothing to do if we are already up to date with the hovered object
        if self.hovered_gizmo_part_id == hovered_object_id {
            return GizmoHoverActions { restore_part: None, highlight_part: None };
        }
        let restore_part = match self.hovered_gizmo_part_id {
            Some(hovered_gizmo_part_id) => match self.get_axis_with_id(hovered_gizmo_part_id) {
                Some(axis) => Some((hovered_gizmo_part_id, axis)),
                None => None,
            },
            None => None,
        };
        // We have a new valid hovered object
        let highlight_part = if let Some(hovered_gizmo_part_id) = hovered_object_id {
            if self.get_axis_with_id(hovered_gizmo_part_id).is_some() {
                self.hovered_gizmo_part_id = hovered_object_id;
                Some(hovered_gizmo_part_id)
            } else {
                self.hovered_gizmo_part_id = None;
                None
            }
        } else {
            // The new hovered object ID is None -> nothing is hovered
            self.hovered_gizmo_part_id = None;
            None
        };
        GizmoHoverActions { restore_part, highlight_part }
    }

    /// Moves the gizmo to `new_position`; the result lists the parts to move
    /// there in the world.
    pub fn update_position(&mut self, new_position: Vec3Bits) -> (moved_parts: Vec<u32>)
        requires
            old(self).wf(),
        ensures
            final(self).wf(),
            final(self).gizmo_position == Some(new_position),
            final(self).parts() == old(self).parts(),
            final(self).selected_object_id == old(self).selected_object_id,
            final(self).hovered_gizmo_part_id == old(self).hovered_gizmo_part_id,
            moved_parts@ == part_ids(old(self).parts()),
    {
        self.gizmo_position = Some(new_position);
        self.drawn_part_ids()
    }
}

} // verus!
