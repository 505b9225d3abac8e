//! The selection of targets for an ability: what a script sets up, and the
//! protocol that runs while the player picks.
//!
//! A targeter starts inactive, is made active, and ends committed or
//! cancelled. While it is active the cursor moves over the map; a commit
//! succeeds only where the selection under the cursor is valid, and hands
//! back the set of affected entities together with the selected tile.

use vstd::prelude::*;
use crate::area::{AreaState, EntityState};
use crate::geometry::Point;
use crate::module::{find_size, size_named, ObjectSize};
use crate::script::{ScriptEntity, ScriptEntitySet, ScriptError};
use crate::search::{first_index, lemma_first_index_found, lemma_first_index_skip};
use crate::shape::{in_circle, is_in_circle, Shape};
use vstd::string::StringExecFns;

verus! {

/// What a script sets up for the selection of targets.
#[derive(Debug, Clone, PartialEq, Eq)]
pub struct TargeterData {
    pub ability_id: String,
    pub parent: usize,
    /// The entities that the player may pick.
    pub selectable: Vec<Option<usize>>,
    /// The entities that the ability can affect.
    pub effectable: Vec<Option<usize>>,
    pub shape: Shape,
    pub show_mouseover: bool,
    /// Where set, the player picks a tile rather than an entity, no further
    /// from the parent than this.
    pub free_select: Option<u32>,
    /// Where set, the selected tile must be one on which something of this
    /// object size can stand.
    pub free_select_must_be_passable: Option<String>,
}

/// `list` with the entries of `more` behind it.
fn append_all(list: &mut Vec<Option<usize>>, more: &Vec<Option<usize>>)
    ensures
        final(list)@ == old(list)@ + more@,
{
    let mut i: usize = 0;
    while i < more.len()
        invariant
            0 <= i <= more.len(),
            list@ == old(list)@ + more@.take(i as int),
        decreases more.len() - i,
    {
        list.push(more[i]);
        i += 1;
    }
}

impl TargeterData {
    /// Whether `self` is `before` with nothing changed but the entities
    /// that may be picked.
    pub open spec fn same_but_selectable(self, before: TargeterData) -> bool {
        &&& self.ability_id == before.ability_id
        &&& self.parent == before.parent
        &&& self.effectable == before.effectable
        &&& self.shape == before.shape
        &&& self.show_mouseover == before.show_mouseover
        &&& self.free_select == before.free_select
        &&& self.free_select_must_be_passable == before.free_select_must_be_passable
    }

    /// Whether `self` is `before` with nothing changed but the entities
    /// that can be affected.
    pub open spec fn same_but_effectable(self, before: TargeterData) -> bool {
        &&& self.ability_id == before.ability_id
        &&& self.parent == before.parent
        &&& self.selectable == before.selectable
        &&& self.shape == before.shape
        &&& self.show_mouseover == before.show_mouseover
        &&& self.free_select == before.free_select
        &&& self.free_select_must_be_passable == before.free_select_must_be_passable
    }

    /// Whether `self` is `before` with nothing changed but the shape.
    pub open spec fn same_but_shape(self, before: TargeterData) -> bool {
        &&& self.ability_id == before.ability_id
        &&& self.parent == before.parent
        &&& self.selectable == before.selectable
        &&& self.effectable == before.effectable
        &&& self.show_mouseover == before.show_mouseover
        &&& self.free_select == before.free_select
        &&& self.free_select_must_be_passable == before.free_select_must_be_passable
    }

    /// Whether every object size that the setup names is one of `sizes`.
    pub open spec fn resolves(self, sizes: Seq<ObjectSize>) -> bool {
        &&& self.shape.resolves(sizes)
        &&& self.free_select_must_be_passable matches Some(size) ==> size_named(sizes, size@)
            is Some
    }

    /// Whether every object size that the setup names is one of `sizes`.
    pub fn is_resolving(&self, sizes: &Vec<ObjectSize>) -> (known: bool)
        ensures
            known == self.resolves(sizes@),
    {
        if !self.shape.is_resolving(sizes) {
            return false;
        }
        match &self.free_select_must_be_passable {
            Some(size) => find_size(sizes, size.as_str()).is_some(),
            None => true,
        }
    }

    /// The setup for the ability `ability_id` of the entity `parent` before
    /// the script has said anything: nothing to pick, nothing to affect, the
    /// shape of a single tile.
    pub fn new(parent: usize, ability_id: &str) -> (data: TargeterData)
        ensures
            data.parent == parent,
            data.ability_id@ == ability_id@,
            data.selectable@.len() == 0,
            data.effectable@.len() == 0,
            data.shape == Shape::Single,
            data.show_mouseover,
            data.free_select is None,
            data.free_select_must_be_passable is None,
    {
        TargeterData {
            parent,
            ability_id: String::from_str(ability_id),
            selectable: Vec::new(),
            effectable: Vec::new(),
            shape: Shape::Single,
            show_mouseover: true,
            free_select: None,
            free_select_must_be_passable: None,
        }
    }

    /// Lets the player pick each entity of `selectable`.
    pub fn add_all_selectable(&mut self, selectable: &ScriptEntitySet)
        ensures
            final(self).selectable@ == old(self).selectable@ + selectable.indices@,
            final(self).same_but_selectable(*old(self)),
    {
        append_all(&mut self.selectable, &selectable.indices);
    }

    /// Lets the player pick `target`. Fails, changing nothing, where
    /// `target` refers to nothing.
    pub fn add_selectable(&mut self, target: ScriptEntity) -> (done: Result<(), ScriptError>)
        ensures
            final(self).same_but_selectable(*old(self)),
            match target.index {
                Some(handle) => done is Ok && final(self).selectable@ == old(self).selectable@.push(
                    Some(handle),
                ),
                None => done == Err::<(), ScriptError>(ScriptError::EntityMissing)
                    && final(self).selectable == old(self).selectable,
            },
    {
        match target.try_unwrap_index() {
            Ok(handle) => {
                self.selectable.push(Some(handle));
                Ok(())
            },
            Err(error) => Err(error),
        }
    }

    /// Says whether the entity under the cursor is to be shown.
    pub fn set_show_mouseover(&mut self, val: bool)
        ensures
            *final(self) == (TargeterData { show_mouseover: val, ..*old(self) }),
    {
        self.show_mouseover = val;
    }

    /// Lets the player pick a tile no further than `val` from the parent.
    pub fn set_free_select(&mut self, val: u32)
        ensures
            *final(self) == (TargeterData { free_select: Some(val), ..*old(self) }),
    {
        self.free_select = Some(val);
    }

    /// Demands of the selected tile that something of the object size `val`
    /// can stand on it. Fails, changing nothing, where `sizes` holds no
    /// object size of that name.
    pub fn set_free_select_must_be_passable(
        &mut self,
        sizes: &Vec<ObjectSize>,
        val: String,
    ) -> (done: Result<(), ScriptError>)
        ensures
            match size_named(sizes@, val@) {
                Some(_) => done is Ok && *final(self) == (TargeterData {
                    free_select_must_be_passable: Some(val),
                    ..*old(self)
                }),
                None => done == Err::<(), ScriptError>(ScriptError::UnknownObjectSize)
                    && *final(self) == *old(self),
            },
    {
        match find_size(sizes, val.as_str()) {
            None => Err(ScriptError::UnknownObjectSize),
            Some(_) => {
                self.free_select_must_be_passable = Some(val);
                Ok(())
            },
        }
    }

    /// Lets the ability affect each entity of `targets`.
    pub fn add_all_effectable(&mut self, targets: &ScriptEntitySet)
        ensures
            final(self).effectable@ == old(self).effectable@ + targets.indices@,
            final(self).same_but_effectable(*old(self)),
    {
        append_all(&mut self.effectable, &targets.indices);
    }

    /// Lets the ability affect `target`. Fails, changing nothing, where
    /// `target` refers to nothing.
    pub fn add_effectable(&mut self, target: ScriptEntity) -> (done: Result<(), ScriptError>)
        ensures
            final(self).same_but_effectable(*old(self)),
            match target.index {
                Some(handle) => done is Ok && final(self).effectable@ == old(self).effectable@.push(
                    Some(handle),
                ),
                None => done == Err::<(), ScriptError>(ScriptError::EntityMissing)
                    && final(self).effectable == old(self).effectable,
            },
    {
        match target.try_unwrap_index() {
            Ok(handle) => {
                self.effectable.push(Some(handle));
                Ok(())
            },
            Err(error) => Err(error),
        }
    }

    /// Gives the ability the shape of a circle about the cursor.
    pub fn set_shape_circle(&mut self, radius: u32)
        ensures
            final(self).shape == (Shape::Circle { radius }),
            final(self).same_but_shape(*old(self)),
    {
        self.shape = Shape::Circle { radius };
    }

    /// Gives the ability the shape of a line from the given origin to the
    /// cursor, as wide as the object size `size`. Fails, changing nothing,
    /// where `sizes` holds no object size of that name.
    pub fn set_shape_line(
        &mut self,
        sizes: &Vec<ObjectSize>,
        size: String,
        origin_x: i32,
        origin_y: i32,
    ) -> (done: Result<(), ScriptError>)
        ensures
            match size_named(sizes@, size@) {
                Some(_) => done is Ok && final(self).shape == (Shape::Line {
                    size,
                    origin_x,
                    origin_y,
                }) && final(self).same_but_shape(*old(self)),
                None => done == Err::<(), ScriptError>(ScriptError::UnknownObjectSize)
                    && *final(self) == *old(self),
            },
    {
        match find_size(sizes, size.as_str()) {
            None => Err(ScriptError::UnknownObjectSize),
            Some(_) => {
                self.shape = Shape::Line { size, origin_x, origin_y };
                Ok(())
            },
        }
    }

    /// Gives the ability the shape of the object size `size` about the
    /// cursor. Fails, changing nothing, where `sizes` holds no object size
    /// of that name.
    pub fn set_shape_object_size(&mut self, sizes: &Vec<ObjectSize>, size: String) -> (done: Result<
        (),
        ScriptError,
    >)
        ensures
            match size_named(sizes@, size@) {
                Some(_) => done is Ok && final(self).shape == (Shape::ObjectSize { size })
                    && final(self).same_but_shape(*old(self)),
                None => done == Err::<(), ScriptError>(ScriptError::UnknownObjectSize)
                    && *final(self) == *old(self),
            },
    {
        match find_size(sizes, size.as_str()) {
            None => Err(ScriptError::UnknownObjectSize),
            Some(_) => {
                self.shape = Shape::ObjectSize { size };
                Ok(())
            },
        }
    }

    /// Gives the ability the shape of a cone that opens from the given
    /// origin towards the cursor.
    pub fn set_shape_cone(
        &mut self,
        origin_x: i32,
        origin_y: i32,
        radius: u32,
        spread_num: u32,
        spread_den: u32,
    )
        ensures
            final(self).shape == (Shape::Cone {
                origin_x,
                origin_y,
                radius,
                spread_num,
                spread_den,
            }),
            final(self).same_but_shape(*old(self)),
    {
        self.shape = Shape::Cone { origin_x, origin_y, radius, spread_num, spread_den };
    }
}

/// Whether `entity` covers the tile `(x, y)`.
pub open spec fn stands_on(entity: EntityState, x: int, y: int) -> bool {
    entity.size.covers(entity.location, x, y)
}

/// Whether an entry names an entity of the area that covers the tile
/// `(x, y)`.
pub open spec fn picks(area: AreaState, x: int, y: int) -> spec_fn(Option<usize>) -> bool {
    |entry: Option<usize>|
        entry matches Some(handle) && area.live(handle) && stands_on(area.entity(handle), x, y)
}

/// The entity under the tile `(x, y)` that the player may pick: the first
/// entity of `selectable` that is in the area and covers the tile.
pub open spec fn hovered(selectable: Seq<Option<usize>>, area: AreaState, x: int, y: int) -> Option<
    usize,
> {
    match first_index(selectable, picks(area, x, y)) {
        Some(index) => selectable[index],
        None => None,
    }
}

/// Whether the tile that lies `dx` columns and `dy` rows into `entity` is a
/// tile of the entity that `shape` covers.
pub open spec fn tile_touched(
    shape: Shape,
    sizes: Seq<ObjectSize>,
    cursor: Point,
    entity: EntityState,
    dx: int,
    dy: int,
) -> bool {
    &&& 0 <= dx < entity.size.width
    &&& 0 <= dy < entity.size.height
    &&& entity.location.x + dx <= i32::MAX
    &&& entity.location.y + dy <= i32::MAX
    &&& shape.covers(sizes, cursor, entity.location.x + dx, entity.location.y + dy)
}

/// Whether `shape`, laid out from the cursor, covers a tile of `entity`.
pub open spec fn touches(
    shape: Shape,
    sizes: Seq<ObjectSize>,
    cursor: Point,
    entity: EntityState,
) -> bool {
    exists|dx: int, dy: int| #[trigger] tile_touched(shape, sizes, cursor, entity, dx, dy)
}

/// Whether `entry` names an entity of the area that `shape` touches.
pub open spec fn hits(
    entry: Option<usize>,
    shape: Shape,
    sizes: Seq<ObjectSize>,
    area: AreaState,
    cursor: Point,
) -> bool {
    entry matches Some(handle) && area.live(handle) && touches(
        shape,
        sizes,
        cursor,
        area.entity(handle),
    )
}

/// The entities that the ability affects with the cursor at `cursor`: those
/// of `effectable` that are in the area and are touched by the shape, in
/// their order.
pub open spec fn affected(
    effectable: Seq<Option<usize>>,
    shape: Shape,
    sizes: Seq<ObjectSize>,
    area: AreaState,
    cursor: Point,
) -> Seq<Option<usize>>
    decreases effectable.len(),
{
    if effectable.len() == 0 {
        Seq::<Option<usize>>::empty()
    } else {
        let rest = affected(effectable.drop_last(), shape, sizes, area, cursor);
        if hits(effectable.last(), shape, sizes, area, cursor) {
            rest.push(effectable.last())
        } else {
            rest
        }
    }
}

/// Whether the tile `cursor` is within reach of free picking: free picking
/// is set up, and the parent is in the area and no further from the tile
/// than set up.
pub open spec fn in_free_reach(data: TargeterData, area: AreaState, cursor: Point) -> bool {
    &&& data.free_select is Some
    &&& area.live(data.parent)
    &&& in_circle(
        area.entity(data.parent).location.x as int,
        area.entity(data.parent).location.y as int,
        data.free_select->0 as int,
        cursor.x as int,
        cursor.y as int,
    )
}

/// Whether the tile `tile` meets the demand for a passable tile: none is
/// made, or something of the demanded object size can stand on the tile.
pub open spec fn tile_allowed(
    data: TargeterData,
    area: AreaState,
    sizes: Seq<ObjectSize>,
    tile: Point,
) -> bool {
    match data.free_select_must_be_passable {
        None => true,
        Some(size) => match size_named(sizes, size@) {
            Some(footprint) => area.footprint_passable(footprint, tile.x as int, tile.y as int),
            None => false,
        },
    }
}

/// Whether the tile `cursor` may be picked freely: it is within reach of
/// free picking and meets the demand for a passable tile.
pub open spec fn free_select_allowed(
    data: TargeterData,
    area: AreaState,
    sizes: Seq<ObjectSize>,
    cursor: Point,
) -> bool {
    in_free_reach(data, area, cursor) && tile_allowed(data, area, sizes, cursor)
}

/// The tile that the cursor at `cursor` points out. With free picking that
/// is the tile under the cursor, where it is within reach. Otherwise it is
/// the place of the entity under the cursor, where the player may pick that
/// entity.
pub open spec fn candidate(data: TargeterData, area: AreaState, cursor: Point) -> Option<Point> {
    if data.free_select is Some {
        if in_free_reach(data, area, cursor) {
            Some(cursor)
        } else {
            None
        }
    } else {
        match hovered(data.selectable@, area, cursor.x as int, cursor.y as int) {
            Some(handle) => Some(area.entity(handle).location),
            None => None,
        }
    }
}

/// The tile that a commit with the cursor at `cursor` would select, if the
/// selection is valid: the tile that the cursor points out, where it meets
/// the demand for a passable tile.
pub open spec fn selection(
    data: TargeterData,
    area: AreaState,
    sizes: Seq<ObjectSize>,
    cursor: Option<Point>,
) -> Option<Point> {
    match cursor {
        None => None,
        Some(at) => match candidate(data, area, at) {
            Some(tile) => if tile_allowed(data, area, sizes, tile) {
                Some(tile)
            } else {
                None
            },
            None => None,
        },
    }
}

/// Where a targeter stands in its protocol.
#[derive(Debug, Copy, Clone, PartialEq, Eq, Structural)]
pub enum TargeterState {
    Inactive,
    Active,
    Committed,
    Cancelled,
}

/// A selection of targets in progress.
#[derive(Debug, Clone, PartialEq, Eq)]
pub struct Targeter {
    pub data: TargeterData,
    pub state: TargeterState,
    /// Whether the player may cancel freely.
    pub free_cancel: bool,
    /// The tile under the cursor, once the cursor has moved.
    pub cursor: Option<Point>,
}

/// The entity under the tile `(x, y)` that the player may pick.
pub fn hovered_at(selectable: &Vec<Option<usize>>, area: &AreaState, x: i32, y: i32) -> (found:
    Option<usize>)
    ensures
        found == hovered(selectable@, *area, x as int, y as int),
        found matches Some(handle) ==> area.live(handle),
{
    let ghost wanted = picks(*area, x as int, y as int);
    let mut i: usize = 0;
    while i < selectable.len()
        invariant
            0 <= i <= selectable.len(),
            wanted == picks(*area, x as int, y as int),
            first_index(selectable@.take(i as int), wanted) is None,
        decreases selectable.len() - i,
    {
        let mut picked = false;
        match selectable[i] {
            Some(handle) => match area.get_entity(handle) {
                Some(entity) => {
                    picked = entity.size.is_covering(entity.location, x, y);
                },
                None => {},
            },
            None => {},
        }
        if picked {
            proof {
                lemma_first_index_found(selectable@, i as int, wanted);
            }
            return selectable[i];
        }
        proof {
            lemma_first_index_skip(selectable@, i as int, wanted);
        }
        i += 1;
    }
    assert(selectable@.take(i as int) =~= selectable@);
    None
}

/// Whether `shape`, laid out from the cursor, covers a tile of `entity`.
pub fn is_touching(
    shape: &Shape,
    sizes: &Vec<ObjectSize>,
    cursor: Point,
    entity: &EntityState,
) -> (touched: bool)
    ensures
        touched == touches(*shape, sizes@, cursor, *entity),
{
    let mut dy: u32 = 0;
    while dy < entity.size.height
        invariant
            0 <= dy <= entity.size.height,
            forall|ex: int, ey: int|
                0 <= ey < dy ==> !#[trigger] tile_touched(*shape, sizes@, cursor, *entity, ex, ey),
        decreases entity.size.height - dy,
    {
        let mut dx: u32 = 0;
        while dx < entity.size.width
            invariant
                0 <= dx <= entity.size.width,
                0 <= dy < entity.size.height,
                forall|ex: int, ey: int|
                    0 <= ey < dy ==> !#[trigger] tile_touched(
                        *shape,
                        sizes@,
                        cursor,
                        *entity,
                        ex,
                        ey,
                    ),
                forall|ex: int|
                    0 <= ex < dx ==> !#[trigger] tile_touched(
                        *shape,
                        sizes@,
                        cursor,
                        *entity,
                        ex,
                        dy as int,
                    ),
            decreases entity.size.width - dx,
        {
            let x: i64 = entity.location.x as i64 + dx as i64;
            let y: i64 = entity.location.y as i64 + dy as i64;
            if x <= i32::MAX as i64 && y <= i32::MAX as i64 {
                if shape.is_covering(sizes, cursor, x as i32, y as i32) {
                    assert(tile_touched(*shape, sizes@, cursor, *entity, dx as int, dy as int));
                    return true;
                }
            }
            dx += 1;
        }
        dy += 1;
    }
    assert forall|ex: int, ey: int| !#[trigger] tile_touched(
        *shape,
        sizes@,
        cursor,
        *entity,
        ex,
        ey,
    ) by {}
    false
}

/// The entities that the ability affects with the cursor at `cursor`.
pub fn affected_at(
    effectable: &Vec<Option<usize>>,
    shape: &Shape,
    sizes: &Vec<ObjectSize>,
    area: &AreaState,
    cursor: Point,
) -> (list: Vec<Option<usize>>)
    ensures
        list@ == affected(effectable@, *shape, sizes@, *area, cursor),
{
    let mut list: Vec<Option<usize>> = Vec::new();
    let mut i: usize = 0;
    while i < effectable.len()
        invariant
            0 <= i <= effectable.len(),
            list@ == affected(effectable@.take(i as int), *shape, sizes@, *area, cursor),
        decreases effectable.len() - i,
    {
        proof {
            assert(effectable@.take(i + 1).drop_last() =~= effectable@.take(i as int));
        }
        match effectable[i] {
            Some(handle) => match area.get_entity(handle) {
                Some(entity) => {
                    if is_touching(shape, sizes, cursor, entity) {
                        list.push(Some(handle));
                    }
                },
                None => {},
            },
            None => {},
        }
        i += 1;
    }
    assert(effectable@.take(i as int) =~= effectable@);
    list
}

impl TargeterData {
    /// Whether the tile `tile` meets the demand for a passable tile.
    pub fn is_tile_allowed(
        &self,
        area: &AreaState,
        sizes: &Vec<ObjectSize>,
        tile: Point,
    ) -> (allowed: bool)
        ensures
            allowed == tile_allowed(*self, *area, sizes@, tile),
    {
        match &self.free_select_must_be_passable {
            None => true,
            Some(size) => match find_size(sizes, size.as_str()) {
                Some(footprint) => area.is_passable(footprint, tile.x, tile.y),
                None => false,
            },
        }
    }

    /// Whether the tile `cursor` is within reach of free picking.
    pub fn is_in_free_reach(&self, area: &AreaState, cursor: Point) -> (within: bool)
        ensures
            within == in_free_reach(*self, *area, cursor),
    {
        let reach = match self.free_select {
            Some(reach) => reach,
            None => {
                return false;
            },
        };
        match area.get_entity(self.parent) {
            Some(parent) => is_in_circle(
                parent.location.x,
                parent.location.y,
                reach,
                cursor.x,
                cursor.y,
            ),
            None => false,
        }
    }

    /// Whether the tile `cursor` may be picked freely.
    pub fn is_free_select_allowed(
        &self,
        area: &AreaState,
        sizes: &Vec<ObjectSize>,
        cursor: Point,
    ) -> (allowed: bool)
        ensures
            allowed == free_select_allowed(*self, *area, sizes@, cursor),
    {
        self.is_in_free_reach(area, cursor) && self.is_tile_allowed(area, sizes, cursor)
    }

    /// The tile that the cursor at `cursor` points out.
    pub fn point_out(&self, area: &AreaState, cursor: Point) -> (tile: Option<Point>)
        ensures
            tile == candidate(*self, *area, cursor),
    {
        if self.free_select.is_some() {
            if self.is_in_free_reach(area, cursor) {
                Some(cursor)
            } else {
                None
            }
        } else {
            match hovered_at(&self.selectable, area, cursor.x, cursor.y) {
                Some(handle) => match area.get_entity(handle) {
                    Some(entity) => Some(entity.location),
                    None => None,
                },
                None => None,
            }
        }
    }

    /// The tile that a commit with the cursor at `cursor` would select, if
    /// the selection is valid.
    pub fn select(
        &self,
        area: &AreaState,
        sizes: &Vec<ObjectSize>,
        cursor: Option<Point>,
    ) -> (selected: Option<Point>)
        ensures
            selected == selection(*self, *area, sizes@, cursor),
    {
        let at = match cursor {
            Some(at) => at,
            None => {
                return None;
            },
        };
        match self.point_out(area, at) {
            Some(tile) => if self.is_tile_allowed(area, sizes, tile) {
                Some(tile)
            } else {
                None
            },
            None => None,
        }
    }
}

impl Targeter {
    /// The entity under the cursor that the player may pick. There is none
    /// before the cursor has moved, and none with free picking.
    pub open spec fn spec_hovered(self, area: AreaState) -> Option<usize> {
        match self.cursor {
            Some(at) => if self.data.free_select is Some {
                None
            } else {
                hovered(self.data.selectable@, area, at.x as int, at.y as int)
            },
            None => None,
        }
    }

    /// An inactive targeter for what the script has set up. A setup that
    /// names an object size which `sizes` does not hold is refused here, and
    /// not only when the shape is used.
    pub fn from(data: TargeterData, sizes: &Vec<ObjectSize>) -> (made: Result<
        Targeter,
        ScriptError,
    >)
        ensures
            data.resolves(sizes@) ==> made == Ok::<Targeter, ScriptError>(
                Targeter { data, state: TargeterState::Inactive, free_cancel: true, cursor: None },
            ),
            !data.resolves(sizes@) ==> made == Err::<Targeter, ScriptError>(
                ScriptError::UnknownObjectSize,
            ),
    {
        if data.is_resolving(sizes) {
            Ok(Targeter { data, state: TargeterState::Inactive, free_cancel: true, cursor: None })
        } else {
            Err(ScriptError::UnknownObjectSize)
        }
    }

    /// Makes an inactive targeter active. A targeter in another state stays
    /// as it is.
    pub fn start(&mut self)
        ensures
            old(self).state == TargeterState::Inactive ==> *final(self) == (Targeter {
                state: TargeterState::Active,
                ..*old(self)
            }),
            old(self).state != TargeterState::Inactive ==> *final(self) == *old(self),
    {
        if self.state == TargeterState::Inactive {
            self.state = TargeterState::Active;
        }
    }

    /// Moves the cursor of an active targeter to the tile `(x, y)` and says
    /// which entity the player would pick there. A targeter that is not
    /// active stays as it is and says nothing.
    pub fn on_mouse_move(&mut self, area: &AreaState, x: i32, y: i32) -> (picked: Option<usize>)
        ensures
            old(self).state == TargeterState::Active ==> *final(self) == (Targeter {
                cursor: Some(Point { x, y }),
                ..*old(self)
            }) && picked == final(self).spec_hovered(*area),
            old(self).state != TargeterState::Active ==> *final(self) == *old(self)
                && picked is None,
    {
        if self.state != TargeterState::Active {
            return None;
        }
        self.cursor = Some(Point { x, y });
        if self.data.free_select.is_some() {
            None
        } else {
            hovered_at(&self.data.selectable, area, x, y)
        }
    }

    /// The entities that the ability affects with the cursor where it is;
    /// none before the cursor has moved.
    pub fn affected_entities(&self, area: &AreaState, sizes: &Vec<ObjectSize>) -> (list: Vec<
        Option<usize>,
    >)
        ensures
            match self.cursor {
                Some(at) => list@ == affected(
                    self.data.effectable@,
                    self.data.shape,
                    sizes@,
                    *area,
                    at,
                ),
                None => list@.len() == 0,
            },
    {
        match self.cursor {
            Some(at) => affected_at(&self.data.effectable, &self.data.shape, sizes, area, at),
            None => Vec::new(),
        }
    }

    /// Commits an active targeter whose selection is valid, and hands back
    /// the targets for the script: the affected entities and the selected
    /// tile. In every other case the targeter stays as it is and nothing is
    /// handed back.
    pub fn on_activate(&mut self, area: &AreaState, sizes: &Vec<ObjectSize>) -> (targets: Option<
        ScriptEntitySet,
    >)
        ensures
            match old(self).commit_point(*area, sizes@) {
                Some(point) => {
                    &&& *final(self) == (Targeter {
                        state: TargeterState::Committed,
                        ..*old(self)
                    })
                    &&& targets is Some
                    &&& targets->0.parent == old(self).data.parent
                    &&& targets->0.indices@ == affected(
                        old(self).data.effectable@,
                        old(self).data.shape,
                        sizes@,
                        *area,
                        old(self).cursor->0,
                    )
                    &&& targets->0.point == Some((point.x, point.y))
                },
                None => *final(self) == *old(self) && targets is None,
            },
    {
        if self.state != TargeterState::Active {
            return None;
        }
        let point = match self.data.select(area, sizes, self.cursor) {
            Some(point) => point,
            None => {
                return None;
            },
        };
        let indices = self.affected_entities(area, sizes);
        self.state = TargeterState::Committed;
        Some(ScriptEntitySet { parent: self.data.parent, indices, point: Some((point.x, point.y)) })
    }

    /// The tile that a commit would select: that of a valid selection of
    /// an active targeter, and none otherwise.
    pub open spec fn commit_point(self, area: AreaState, sizes: Seq<ObjectSize>) -> Option<Point> {
        if self.state == TargeterState::Active {
            selection(self.data, area, sizes, self.cursor)
        } else {
            None
        }
    }

    /// Cancels an active targeter. What the script has set up stays as it
    /// is, and nothing is handed to any script. A targeter that is not
    /// active stays as it is.
    pub fn on_cancel(&mut self)
        ensures
            old(self).state == TargeterState::Active ==> *final(self) == (Targeter {
                state: TargeterState::Cancelled,
                ..*old(self)
            }),
            old(self).state != TargeterState::Active ==> *final(self) == *old(self),
            final(self).data == old(self).data,
    {
        if self.state == TargeterState::Active {
            self.state = TargeterState::Cancelled;
        }
    }

    /// Whether the player may cancel freely.
    pub fn cancel(&self) -> (allowed: bool)
        ensures
            allowed == self.free_cancel,
    {
        self.free_cancel
    }

    /// The id of the ability that the targets are selected for.
    pub fn name(&self) -> (name: &str)
        ensures
            name@ == self.data.ability_id@,
    {
        self.data.ability_id.as_str()
    }

    /// Whether the protocol has come to its end.
    pub fn is_finished(&self) -> (finished: bool)
        ensures
            finished == (self.state == TargeterState::Committed || self.state
                == TargeterState::Cancelled),
    {
        self.state == TargeterState::Committed || self.state == TargeterState::Cancelled
    }
}

/// An active targeter for what the script has set up. A setup that names
/// an object size which `sizes` does not hold is refused.
pub fn activate(data: TargeterData, sizes: &Vec<ObjectSize>) -> (made: Result<
    Targeter,
    ScriptError,
>)
    ensures
        data.resolves(sizes@) ==> made == Ok::<Targeter, ScriptError>(
            Targeter { data, state: TargeterState::Active, free_cancel: true, cursor: None },
        ),
        !data.resolves(sizes@) ==> made == Err::<Targeter, ScriptError>(
            ScriptError::UnknownObjectSize,
        ),
{
    match Targeter::from(data, sizes) {
        Ok(targeter) => {
            let mut targeter = targeter;
            targeter.start();
            Ok(targeter)
        },
        Err(error) => Err(error),
    }
}

/// An entity is affected exactly when the ability can affect it, it is in
/// the area, and the shape touches it.
pub proof fn lemma_affected(
    effectable: Seq<Option<usize>>,
    shape: Shape,
    sizes: Seq<ObjectSize>,
    area: AreaState,
    cursor: Point,
    entry: Option<usize>,
)
    ensures
        affected(effectable, shape, sizes, area, cursor).contains(entry) <==> effectable.contains(
            entry,
        ) && hits(entry, shape, sizes, area, cursor),
    decreases effectable.len(),
{
    if effectable.len() > 0 {
        let front = effectable.drop_last();
        let last = effectable.last();
        let rest = affected(front, shape, sizes, area, cursor);
        lemma_affected(front, shape, sizes, area, cursor, entry);
        assert(effectable.contains(entry) <==> front.contains(entry) || last == entry) by {
            if front.contains(entry) {
                let i = choose|i: int| 0 <= i < front.len() && front[i] == entry;
                assert(effectable[i] == entry);
            }
            if last == entry {
                assert(effectable[effectable.len() - 1] == entry);
            }
            if effectable.contains(entry) {
                let i = choose|i: int| 0 <= i < effectable.len() && effectable[i] == entry;
                if i < front.len() {
                    assert(front[i] == entry);
                }
            }
        }
        if hits(last, shape, sizes, area, cursor) {
            assert(rest.push(last).contains(entry) <==> rest.contains(entry) || last == entry) by {
                if rest.contains(entry) {
                    let i = choose|i: int| 0 <= i < rest.len() && rest[i] == entry;
                    assert(rest.push(last)[i] == entry);
                }
                if last == entry {
                    assert(rest.push(last)[rest.len() as int] == entry);
                }
            }
        }
    }
}

/// A targeter with the shape of a circle affects an entity of a single tile
/// exactly when the tile lies within the radius of the cursor.
pub proof fn lemma_circle_touches(
    radius: u32,
    sizes: Seq<ObjectSize>,
    cursor: Point,
    entity: EntityState,
)
    requires
        entity.size.width == 1,
        entity.size.height == 1,
    ensures
        touches(Shape::Circle { radius }, sizes, cursor, entity) <==> in_circle(
            cursor.x as int,
            cursor.y as int,
            radius as int,
            entity.location.x as int,
            entity.location.y as int,
        ),
{
    let shape = Shape::Circle { radius };
    if touches(shape, sizes, cursor, entity) {
        let (dx, dy) = choose|dx: int, dy: int| #[trigger]
            tile_touched(shape, sizes, cursor, entity, dx, dy);
        assert(dx == 0 && dy == 0);
    }
    if in_circle(
        cursor.x as int,
        cursor.y as int,
        radius as int,
        entity.location.x as int,
        entity.location.y as int,
    ) {
        assert(tile_touched(shape, sizes, cursor, entity, 0, 0));
    }
}

} // verus!
