//! The overworld map: the plane the player is on, the field they stand in, and
//! the colors each field is drawn with.
//!
//! A field's colors are gray levels given by the IEEE-754 single-precision bit
//! pattern of the level (a color `[l, l, l, 1]`); the caller turns them into
//! drawable colors and draws the ground level of a new field from its seed.

use crate::numfmt::{decimal_text, int_decimal};
use vstd::prelude::*;

verus! {

#[derive(Debug, Clone, Copy, PartialEq, Eq, Hash, Structural)]
pub struct FieldId(pub i32, pub i32);

/// The (ground, sky) colors of a field, as the bit patterns of their gray levels.
#[derive(Debug, Clone, Copy, PartialEq, Eq, Structural)]
pub struct FieldColors {
    pub ground_level_bits: u32,
    pub sky_level_bits: u32,
}

/// Gray level 0 (black).
pub const LEVEL_BLACK_BITS: u32 = 0x0000_0000;

/// Gray level one half (mid-grey).
pub const LEVEL_MID_GREY_BITS: u32 = 0x3F00_0000;

/// Lowest gray level a generated ground may have (one quarter).
pub const GROUND_LEVEL_MIN_BITS: u32 = 0x3E80_0000;

/// Highest gray level a generated ground may have (three quarters).
pub const GROUND_LEVEL_MAX_BITS: u32 = 0x3F40_0000;

/// Fixed colors of the origin field `FieldId(0, 0)`: mid-grey ground, black sky.
pub open spec fn origin_colors() -> FieldColors {
    FieldColors { ground_level_bits: LEVEL_MID_GREY_BITS, sky_level_bits: LEVEL_BLACK_BITS }
}

/// The field reached from `id` by moving `dx` fields across and `dy` down.
pub open spec fn shifted(id: FieldId, dx: int, dy: int) -> (int, int) {
    (id.0 + dx, id.1 + dy)
}

/// The sum from which a field's color seed is taken.
pub open spec fn seed_sum(id: FieldId) -> int {
    id.0.wrapping_mul(31) + id.1
}

/// A field's color seed can be computed when the sum fits and can be negated.
pub open spec fn seed_computable(id: FieldId) -> bool {
    i32::MIN < seed_sum(id) <= i32::MAX
}

/// The color seed of a field: the absolute value of its seed sum.
pub open spec fn field_seed(id: FieldId) -> int {
    if seed_sum(id) < 0 { -seed_sum(id) } else { seed_sum(id) }
}

/// The label of a field on a plane, e.g. `FLATLINE_field.x[0]y[0]`.
pub open spec fn field_label(plane: Seq<char>, id: FieldId) -> Seq<char> {
    plane + "_field.x["@ + int_decimal(id.0 as int) + "]y["@ + int_decimal(id.1 as int) + "]"@
}

/// The map of a list of (field, colors) entries; a later entry wins.
pub open spec fn entries_map(s: Seq<(FieldId, FieldColors)>) -> Map<FieldId, FieldColors>
    decreases s.len(),
{
    if s.len() == 0 {
        Map::empty()
    } else {
        entries_map(s.drop_last()).insert(s.last().0, s.last().1)
    }
}

pub open spec fn keys_distinct(s: Seq<(FieldId, FieldColors)>) -> bool {
    forall|i: int, j: int| 0 <= i < j < s.len() ==> s[i].0 != s[j].0
}

/// What one call of `get_current_field_colors` does to the stored colors:
/// a field that has colors keeps them and gets them back; a field without gets
/// the freshly generated ground under a black sky, and they are stored.
pub open spec fn colors_step(
    before: Map<FieldId, FieldColors>,
    id: FieldId,
    generated_ground_bits: u32,
    result: FieldColors,
    after: Map<FieldId, FieldColors>,
) -> bool {
    if before.contains_key(id) {
        result == before[id] && after == before
    } else {
        &&& result == (FieldColors {
            ground_level_bits: generated_ground_bits,
            sky_level_bits: LEVEL_BLACK_BITS,
        })
        &&& after == before.insert(id, result)
    }
}

pub struct MapSystem {
    pub current_plane_name: String,
    pub current_field_id: FieldId,
    origin_colors: FieldColors,
    /// Colors of each field seen so far, stored to prevent flickering.
    field_colors: Vec<(FieldId, FieldColors)>,
}

proof fn lemma_entries_map_index(s: Seq<(FieldId, FieldColors)>, i: int)
    requires
        keys_distinct(s),
        0 <= i < s.len(),
    ensures
        entries_map(s).contains_key(s[i].0),
        entries_map(s)[s[i].0] == s[i].1,
    decreases s.len(),
{
    if i < s.len() - 1 {
        lemma_entries_map_index(s.drop_last(), i);
    }
}

proof fn lemma_entries_map_key(s: Seq<(FieldId, FieldColors)>, k: FieldId)
    requires
        entries_map(s).contains_key(k),
    ensures
        exists|i: int| 0 <= i < s.len() && s[i].0 == k,
    decreases s.len(),
{
    if s.last().0 != k {
        lemma_entries_map_key(s.drop_last(), k);
        let i = choose|i: int| 0 <= i < s.drop_last().len() && s.drop_last()[i].0 == k;
        assert(s[i].0 == k);
    }
}

impl MapSystem {
    /// Name of the plane the player is on.
    pub closed spec fn plane(self) -> Seq<char> {
        self.current_plane_name@
    }

    /// The field the player stands in.
    pub closed spec fn field(self) -> FieldId {
        self.current_field_id
    }

    /// The colors stored for each field.
    pub closed spec fn color_map(self) -> Map<FieldId, FieldColors> {
        entries_map(self.field_colors@)
    }

    /// Well-formedness: the stored colors are a map, the origin field keeps
    /// its fixed colors, every sky is black and every ground lies between a
    /// quarter and three quarters gray.
    pub closed spec fn wf(self) -> bool {
        &&& keys_distinct(self.field_colors@)
        &&& self.origin_colors == origin_colors()
        &&& self.color_map().contains_key(FieldId(0, 0))
        &&& self.color_map()[FieldId(0, 0)] == origin_colors()
        &&& forall|k: FieldId| #[trigger] self.color_map().contains_key(k)
            ==> self.color_map()[k].sky_level_bits == LEVEL_BLACK_BITS
        &&& forall|k: FieldId| #[trigger] self.color_map().contains_key(k)
            ==> GROUND_LEVEL_MIN_BITS <= self.color_map()[k].ground_level_bits
            <= GROUND_LEVEL_MAX_BITS
    }

    pub fn new(plane_name: String, start_field_id: FieldId) -> (m: Self)
        ensures
            m.wf(),
            m.plane() == plane_name@,
            m.field() == start_field_id,
            m.color_map() == Map::<FieldId, FieldColors>::empty().insert(FieldId(0, 0), origin_colors()),
    {
        let origin = FieldColors {
            ground_level_bits: LEVEL_MID_GREY_BITS,
            sky_level_bits: LEVEL_BLACK_BITS,
        };
        let mut field_colors: Vec<(FieldId, FieldColors)> = Vec::new();
        field_colors.push((FieldId(0, 0), origin));
        proof {
            assert(field_colors@.drop_last() =~= Seq::<(FieldId, FieldColors)>::empty());
            assert(entries_map(Seq::<(FieldId, FieldColors)>::empty()) == Map::<
                FieldId,
                FieldColors,
            >::empty());
            assert(field_colors@.last() == (FieldId(0, 0), origin));
            assert(entries_map(field_colors@) =~= Map::<FieldId, FieldColors>::empty().insert(
                FieldId(0, 0),
                origin,
            ));
        }
        MapSystem {
            current_plane_name: plane_name,
            current_field_id: start_field_id,
            origin_colors: origin,
            field_colors,
        }
    }

    fn stored_colors(&self, id: FieldId) -> (r: Option<FieldColors>)
        requires
            self.wf(),
        ensures
            r == (if self.color_map().contains_key(id) {
                Some(self.color_map()[id])
            } else {
                None
            }),
    {
        let mut i: usize = 0;
        while i < self.field_colors.len()
            invariant
                0 <= i <= self.field_colors@.len(),
                self.wf(),
                forall|j: int| 0 <= j < i ==> self.field_colors@[j].0 != id,
            decreases self.field_colors@.len() - i,
        {
            if self.field_colors[i].0 == id {
                proof {
                    lemma_entries_map_index(self.field_colors@, i as int);
                }
                return Some(self.field_colors[i].1);
            }
            i = i + 1;
        }
        proof {
            if self.color_map().contains_key(id) {
                lemma_entries_map_key(self.field_colors@, id);
            }
        }
        None
    }

    /// Whether the current field already has its colors.
    pub fn field_colors_stored(&self) -> (b: bool)
        requires
            self.wf(),
        ensures
            b == self.color_map().contains_key(self.field()),
    {
        self.stored_colors(self.current_field_id).is_some()
    }

    /// The seed from which the ground of the current field is to be drawn, or
    /// `None` when the field already has its colors.
    pub fn color_seed_needed(&self) -> (r: Option<u64>)
        requires
            self.wf(),
            !self.color_map().contains_key(self.field()) ==> seed_computable(self.field()),
        ensures
            self.color_map().contains_key(self.field()) <==> r is None,
            r matches Some(seed) ==> seed == field_seed(self.field()),
    {
        if self.stored_colors(self.current_field_id).is_some() {
            return None;
        }
        let sum: i32 = self.current_field_id.0.wrapping_mul(31) + self.current_field_id.1;
        let magnitude: i32 = if sum < 0 { -sum } else { sum };
        Some(magnitude as u64)
    }

    /// Returns (ground_color, sky_color) for the current field.
    /// Colors are generated once per field and then stored to prevent flickering:
    /// a field seen before gets its stored colors back and
    /// `generated_ground_bits` is not used; a new field gets that ground level
    /// (drawn by the caller from `color_seed_needed`) under a black sky.
    pub fn get_current_field_colors(&mut self, generated_ground_bits: u32) -> (c: FieldColors)
        requires
            old(self).wf(),
            !old(self).color_map().contains_key(old(self).field()) ==> GROUND_LEVEL_MIN_BITS
                <= generated_ground_bits <= GROUND_LEVEL_MAX_BITS,
        ensures
            final(self).wf(),
            final(self).plane() == old(self).plane(),
            final(self).field() == old(self).field(),
            colors_step(
                old(self).color_map(),
                old(self).field(),
                generated_ground_bits,
                c,
                final(self).color_map(),
            ),
            c.sky_level_bits == LEVEL_BLACK_BITS,
            GROUND_LEVEL_MIN_BITS <= c.ground_level_bits <= GROUND_LEVEL_MAX_BITS,
            old(self).field() == FieldId(0, 0) ==> c == origin_colors(),
    {
        if let Some(colors) = self.stored_colors(self.current_field_id) {
            return colors;
        }
        if self.current_field_id == FieldId(0, 0) {
            return self.origin_colors;
        }
        let colors = FieldColors {
            ground_level_bits: generated_ground_bits,
            sky_level_bits: LEVEL_BLACK_BITS,
        };
        let ghost before = self.field_colors@;
        self.field_colors.push((self.current_field_id, colors));
        proof {
            assert(self.field_colors@.drop_last() =~= before);
            assert forall|i: int, j: int|
                0 <= i < j < self.field_colors@.len() implies self.field_colors@[i].0
                != self.field_colors@[j].0 by {
                if j == before.len() {
                    lemma_entries_map_index(before, i);
                }
            }
        }
        colors
    }

    pub fn transition_field_by_delta(&mut self, dx_fields: i32, dy_fields: i32)
        requires
            i32::MIN <= old(self).field().0 + dx_fields <= i32::MAX,
            i32::MIN <= old(self).field().1 + dy_fields <= i32::MAX,
        ensures
            (final(self).field().0 as int, final(self).field().1 as int) == shifted(
                old(self).field(),
                dx_fields as int,
                dy_fields as int,
            ),
            final(self).plane() == old(self).plane(),
            final(self).color_map() == old(self).color_map(),
            old(self).wf() ==> final(self).wf(),
    {
        self.current_field_id.0 = self.current_field_id.0 + dx_fields;
        self.current_field_id.1 = self.current_field_id.1 + dy_fields;
    }

    pub fn get_display_string(&self) -> (s: String)
        ensures
            s@ == field_label(self.plane(), self.field()),
    {
        let mut s = self.current_plane_name.clone();
        s.append("_field.x[");
        let x = decimal_text(self.current_field_id.0 as i64);
        s.append(x.as_str());
        s.append("]y[");
        let y = decimal_text(self.current_field_id.1 as i64);
        s.append(y.as_str());
        s.append("]");
        s
    }
}

/// Field colors never flicker: asking twice for the colors of the same field
/// gives the same colors and stores nothing new the second time, whatever
/// ground level is offered then.
pub proof fn lemma_field_colors_stable(
    m0: Map<FieldId, FieldColors>,
    id: FieldId,
    g1: u32,
    c1: FieldColors,
    m1: Map<FieldId, FieldColors>,
    g2: u32,
    c2: FieldColors,
    m2: Map<FieldId, FieldColors>,
)
    requires
        colors_step(m0, id, g1, c1, m1),
        colors_step(m1, id, g2, c2, m2),
    ensures
        c2 == c1,
        m2 == m1,
{
}

/// Asking for one field's colors leaves the colors of every other field alone.
pub proof fn lemma_field_colors_local(
    m0: Map<FieldId, FieldColors>,
    id: FieldId,
    g: u32,
    c: FieldColors,
    m1: Map<FieldId, FieldColors>,
    other: FieldId,
)
    requires
        colors_step(m0, id, g, c, m1),
        other != id,
    ensures
        m1.contains_key(other) == m0.contains_key(other),
        m0.contains_key(other) ==> m1[other] == m0[other],
{
}

/// The origin field always has its fixed colors, every field's sky is black,
/// and every field's ground lies between a quarter and three quarters gray.
pub proof fn lemma_origin_fixed_and_sky_black(m: MapSystem, k: FieldId)
    requires
        m.wf(),
    ensures
        m.color_map().contains_key(FieldId(0, 0)),
        m.color_map()[FieldId(0, 0)] == origin_colors(),
        m.color_map().contains_key(k) ==> m.color_map()[k].sky_level_bits == LEVEL_BLACK_BITS,
        m.color_map().contains_key(k) ==> GROUND_LEVEL_MIN_BITS <= m.color_map()[k].ground_level_bits
            <= GROUND_LEVEL_MAX_BITS,
{
}

/// Moving by a delta and back by its negation returns to the starting field.
pub proof fn lemma_transition_round_trip(id: FieldId, dx: int, dy: int)
    ensures
        shifted(FieldId(shifted(id, dx, dy).0 as i32, shifted(id, dx, dy).1 as i32), -dx, -dy) == (
            id.0 as int,
            id.1 as int,
        ) || !(i32::MIN <= id.0 + dx <= i32::MAX && i32::MIN <= id.1 + dy <= i32::MAX),
{
}

} // verus!
