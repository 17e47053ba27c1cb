//! Resize handles: the eight directions a node can be resized in, the cursor
//! each shows, and which cursor the handles ask for as the pointer moves.
use vstd::prelude::*;

use crate::context::{
    context_lookup, context_outcome, distinct_names, get_context, lemma_lookup_distinct, names_view,
};
use crate::entity::Entity;
use crate::interaction::FluxInteraction;

verus! {

/// The local z-index of the resize handle container.
pub const RESIZE_HANDLES_LOCAL_Z_INDEX: i32 = 100;

/// A side or a corner of a node.
#[derive(Clone, Copy, Debug, PartialEq, Eq, Structural)]
pub enum ResizeDirection {
    North,
    NorthEast,
    East,
    SouthEast,
    South,
    SouthWest,
    West,
    NorthWest,
}

impl Default for ResizeDirection {
    fn default() -> (d: Self)
        ensures
            d == ResizeDirection::North,
    {
        ResizeDirection::North
    }
}

/// The pointer cursors the resize handles ask for.
#[derive(Clone, Copy, Debug, PartialEq, Eq, Structural)]
pub enum CursorIcon {
    Default,
    Move,
    NResize,
    NeResize,
    EResize,
    SeResize,
    SResize,
    SwResize,
    WResize,
    NwResize,
}

/// The resize cursor of a direction.
pub open spec fn direction_cursor(d: ResizeDirection) -> CursorIcon {
    match d {
        ResizeDirection::North => CursorIcon::NResize,
        ResizeDirection::NorthEast => CursorIcon::NeResize,
        ResizeDirection::East => CursorIcon::EResize,
        ResizeDirection::SouthEast => CursorIcon::SeResize,
        ResizeDirection::South => CursorIcon::SResize,
        ResizeDirection::SouthWest => CursorIcon::SwResize,
        ResizeDirection::West => CursorIcon::WResize,
        ResizeDirection::NorthWest => CursorIcon::NwResize,
    }
}

/// The name of a direction.
pub open spec fn direction_name(d: ResizeDirection) -> Seq<char> {
    match d {
        ResizeDirection::North => "North"@,
        ResizeDirection::NorthEast => "NorthEast"@,
        ResizeDirection::East => "East"@,
        ResizeDirection::SouthEast => "SouthEast"@,
        ResizeDirection::South => "South"@,
        ResizeDirection::SouthWest => "SouthWest"@,
        ResizeDirection::West => "West"@,
        ResizeDirection::NorthWest => "NorthWest"@,
    }
}

/// How a drag along each axis changes the size of a node dragged by the handle
/// of a direction: `1` grows it with the drag, `-1` against the drag, `0` leaves
/// that axis alone. (Screen `y` grows downward.)
pub open spec fn direction_signs(d: ResizeDirection) -> (i8, i8) {
    match d {
        ResizeDirection::North => (0i8, -1i8),
        ResizeDirection::NorthEast => (1i8, -1i8),
        ResizeDirection::East => (1i8, 0i8),
        ResizeDirection::SouthEast => (1i8, 1i8),
        ResizeDirection::South => (0i8, 1i8),
        ResizeDirection::SouthWest => (-1i8, 1i8),
        ResizeDirection::West => (-1i8, 0i8),
        ResizeDirection::NorthWest => (-1i8, -1i8),
    }
}

/// The direction on the other side of the node.
pub open spec fn opposite(d: ResizeDirection) -> ResizeDirection {
    match d {
        ResizeDirection::North => ResizeDirection::South,
        ResizeDirection::NorthEast => ResizeDirection::SouthWest,
        ResizeDirection::East => ResizeDirection::West,
        ResizeDirection::SouthEast => ResizeDirection::NorthWest,
        ResizeDirection::South => ResizeDirection::North,
        ResizeDirection::SouthWest => ResizeDirection::NorthEast,
        ResizeDirection::West => ResizeDirection::East,
        ResizeDirection::NorthWest => ResizeDirection::SouthEast,
    }
}

impl ResizeDirection {
    /// The cursor shown over the handle of this direction.
    pub fn cursor(&self) -> (c: CursorIcon)
        ensures
            c == direction_cursor(*self),
    {
        match self {
            ResizeDirection::North => CursorIcon::NResize,
            ResizeDirection::NorthEast => CursorIcon::NeResize,
            ResizeDirection::East => CursorIcon::EResize,
            ResizeDirection::SouthEast => CursorIcon::SeResize,
            ResizeDirection::South => CursorIcon::SResize,
            ResizeDirection::SouthWest => CursorIcon::SwResize,
            ResizeDirection::West => CursorIcon::WResize,
            ResizeDirection::NorthWest => CursorIcon::NwResize,
        }
    }

    /// The name of this direction, as the handles are named after it.
    pub fn name(&self) -> (name: &'static str)
        ensures
            name@ == direction_name(*self),
    {
        match self {
            ResizeDirection::North => "North",
            ResizeDirection::NorthEast => "NorthEast",
            ResizeDirection::East => "East",
            ResizeDirection::SouthEast => "SouthEast",
            ResizeDirection::South => "South",
            ResizeDirection::SouthWest => "SouthWest",
            ResizeDirection::West => "West",
            ResizeDirection::NorthWest => "NorthWest",
        }
    }

    /// The factors by which a drag along `x` and `y` changes the size of a node
    /// dragged by the handle of this direction (see `direction_signs`).
    pub fn size_diff_signs(&self) -> (signs: (i8, i8))
        ensures
            signs == direction_signs(*self),
    {
        match self {
            ResizeDirection::North => (0, -1),
            ResizeDirection::NorthEast => (1, -1),
            ResizeDirection::East => (1, 0),
            ResizeDirection::SouthEast => (1, 1),
            ResizeDirection::South => (0, 1),
            ResizeDirection::SouthWest => (-1, 1),
            ResizeDirection::West => (-1, 0),
            ResizeDirection::NorthWest => (-1, -1),
        }
    }
}

/// Dragging the handle on one side of a node changes its size the opposite
/// way to dragging the handle on the other side, and each side shows its own
/// cursor.
pub proof fn opposite_handles_mirror(d: ResizeDirection)
    ensures
        direction_signs(opposite(d)).0 == -direction_signs(d).0,
        direction_signs(opposite(d)).1 == -direction_signs(d).1,
        opposite(opposite(d)) == d,
        direction_cursor(opposite(d)) != direction_cursor(d),
{
}

/// A handle that resizes its node in one direction.
#[derive(Clone, Copy, Debug, PartialEq, Eq, Structural)]
pub struct ResizeHandle {
    pub direction: ResizeDirection,
}

impl ResizeHandle {
    pub fn new(direction: ResizeDirection) -> (h: ResizeHandle)
        ensures
            h.direction == direction,
    {
        ResizeHandle { direction }
    }

    pub fn direction(&self) -> (d: ResizeDirection)
        ensures
            d == self.direction,
    {
        self.direction
    }
}

/// Whether an interaction makes a handle count as active: the pointer entered
/// it while the cursor is not locked, or it is pressed.
pub open spec fn counts_as_active(flux: FluxInteraction, locked: bool) -> bool {
    (flux == FluxInteraction::PointerEnter && !locked) || flux == FluxInteraction::Pressed
}

/// The number of active handles among `handles`.
pub open spec fn active_count(handles: Seq<(ResizeDirection, FluxInteraction)>, locked: bool) -> nat
    decreases handles.len(),
{
    if handles.len() == 0 {
        0
    } else {
        active_count(handles.drop_last(), locked) + if counts_as_active(handles.last().1, locked) {
            1nat
        } else {
            0nat
        }
    }
}

/// What one handle's interaction does to the cursor asked for so far and to
/// the lock: entering a handle asks for its cursor unless the cursor is locked,
/// pressing it asks for its cursor and locks, releasing or cancelling unlocks
/// (and asks for the default cursor if nothing was asked for yet), and leaving
/// asks for the default cursor if nothing was asked for and nothing is locked.
/// Where more than one handle is active, the cursor asked for is `Move`.
pub open spec fn cursor_step(
    state: (Option<CursorIcon>, bool),
    handle: (ResizeDirection, FluxInteraction),
    multiple_active: bool,
) -> (Option<CursorIcon>, bool) {
    let (cursor, locked) = state;
    let pick = if multiple_active {
        CursorIcon::Move
    } else {
        direction_cursor(handle.0)
    };
    match handle.1 {
        FluxInteraction::PointerEnter => if !locked {
            (Some(pick), locked)
        } else {
            state
        },
        FluxInteraction::Pressed => (Some(pick), true),
        FluxInteraction::Released | FluxInteraction::PressCanceled => (
            if cursor is None {
                Some(CursorIcon::Default)
            } else {
                cursor
            },
            false,
        ),
        FluxInteraction::PointerLeave => if !locked && cursor is None {
            (Some(CursorIcon::Default), locked)
        } else {
            state
        },
        _ => state,
    }
}

/// The cursor asked for and the lock after the handles are taken in order.
pub open spec fn cursor_run(
    handles: Seq<(ResizeDirection, FluxInteraction)>,
    multiple_active: bool,
    start: (Option<CursorIcon>, bool),
) -> (Option<CursorIcon>, bool)
    decreases handles.len(),
{
    if handles.len() == 0 {
        start
    } else {
        cursor_step(cursor_run(handles.drop_last(), multiple_active, start), handles.last(), multiple_active)
    }
}

/// Whether an interaction sets the cursor lock: a press locks it, a release
/// or a cancelled press unlocks it.
pub open spec fn touches_lock(flux: FluxInteraction) -> bool {
    flux == FluxInteraction::Pressed || flux == FluxInteraction::Released || flux
        == FluxInteraction::PressCanceled
}

/// The cursor stays locked exactly as the last handle that pressed, released
/// or cancelled a press leaves it: locked after a press, unlocked after a
/// release or a cancelled press; with no such handle the lock is kept.
pub proof fn lock_follows_last_press(
    handles: Seq<(ResizeDirection, FluxInteraction)>,
    multiple_active: bool,
    locked: bool,
)
    ensures
        ({
            let lock = cursor_run(handles, multiple_active, (None, locked)).1;
            &&& (forall|j: int| 0 <= j < handles.len() ==> !touches_lock(#[trigger] handles[j].1))
                ==> lock == locked
            &&& forall|k: int|
                0 <= k < handles.len() && touches_lock(#[trigger] handles[k].1) && (forall|j: int|
                    k < j < handles.len() ==> !touches_lock(handles[j].1)) ==> lock == (handles[k].1
                    == FluxInteraction::Pressed)
        }),
    decreases handles.len(),
{
    if handles.len() > 0 {
        let d = handles.drop_last();
        lock_follows_last_press(d, multiple_active, locked);
        let n = handles.len() - 1;
        assert(handles.last() == handles[n]);
        if (forall|j: int| 0 <= j < handles.len() ==> !touches_lock(#[trigger] handles[j].1)) {
            assert(!touches_lock(handles[n].1));
            assert forall|j: int| 0 <= j < d.len() implies !touches_lock(#[trigger] d[j].1) by {
                assert(d[j] == handles[j]);
                assert(!touches_lock(handles[j].1));
            }
        }
        assert forall|k: int|
            0 <= k < handles.len() && touches_lock(#[trigger] handles[k].1) && (forall|j: int|
                k < j < handles.len() ==> !touches_lock(handles[j].1)) implies cursor_run(
            handles,
            multiple_active,
            (None, locked),
        ).1 == (handles[k].1 == FluxInteraction::Pressed) by {
            if k < n {
                assert(!touches_lock(handles[n].1));
                assert(d[k] == handles[k]);
                assert forall|j: int| k < j < d.len() implies !touches_lock(d[j].1) by {
                    assert(d[j] == handles[j]);
                }
            }
        }
    }
}

/// Takes the direction and interaction of every resize handle and whether the
/// cursor was locked by a press, and gives back the cursor to set (if any) and
/// whether the cursor stays locked.
pub fn update_cursor_on_resize_handles(
    handles: &Vec<(ResizeDirection, FluxInteraction)>,
    locked: bool,
) -> (r: (Option<CursorIcon>, bool))
    ensures
        r == cursor_run(handles@, active_count(handles@, locked) > 1, (None, locked)),
{
    let n = handles.len();
    let mut active: usize = 0;
    let mut i: usize = 0;
    while i < n
        invariant
            n == handles.len(),
            i <= n,
            active == active_count(handles@.take(i as int), locked),
            active <= i,
        decreases n - i,
    {
        let (_, flux) = handles[i];
        assert(handles@.take(i + 1).drop_last() =~= handles@.take(i as int));
        if (flux == FluxInteraction::PointerEnter && !locked) || flux == FluxInteraction::Pressed {
            active = active + 1;
        }
        i = i + 1;
    }
    assert(handles@.take(n as int) =~= handles@);
    let multiple_active = active > 1;

    let mut cursor: Option<CursorIcon> = None;
    let mut lock = locked;
    let mut i: usize = 0;
    while i < n
        invariant
            n == handles.len(),
            i <= n,
            (cursor, lock) == cursor_run(handles@.take(i as int), multiple_active, (None, locked)),
        decreases n - i,
    {
        let (direction, flux) = handles[i];
        assert(handles@.take(i + 1).drop_last() =~= handles@.take(i as int));
        let pick = if multiple_active {
            CursorIcon::Move
        } else {
            direction.cursor()
        };
        match flux {
            FluxInteraction::PointerEnter => {
                if !lock {
                    cursor = Some(pick);
                }
            },
            FluxInteraction::Pressed => {
                cursor = Some(pick);
                lock = true;
            },
            FluxInteraction::Released => {
                lock = false;
                if cursor.is_none() {
                    cursor = Some(CursorIcon::Default);
                }
            },
            FluxInteraction::PressCanceled => {
                lock = false;
                if cursor.is_none() {
                    cursor = Some(CursorIcon::Default);
                }
            },
            FluxInteraction::PointerLeave => {
                if !lock && cursor.is_none() {
                    cursor = Some(CursorIcon::Default);
                }
            },
            _ => {},
        }
        i = i + 1;
    }
    (cursor, lock)
}

/// The handles of the eight directions of a node.
#[derive(Clone, Copy, Debug, PartialEq, Eq, Structural)]
pub struct ResizeHandles {
    pub handle_north: Entity,
    pub handle_north_east: Entity,
    pub handle_east: Entity,
    pub handle_south_east: Entity,
    pub handle_south: Entity,
    pub handle_south_west: Entity,
    pub handle_west: Entity,
    pub handle_north_west: Entity,
}

pub const HANDLE_NORTH: &'static str = "HandleNorth";
pub const HANDLE_NORTH_EAST: &'static str = "HandleNorthEast";
pub const HANDLE_EAST: &'static str = "HandleEast";
pub const HANDLE_SOUTH_EAST: &'static str = "HandleSouthEast";
pub const HANDLE_SOUTH: &'static str = "HandleSouth";
pub const HANDLE_SOUTH_WEST: &'static str = "HandleSouthWest";
pub const HANDLE_WEST: &'static str = "HandleWest";
pub const HANDLE_NORTH_WEST: &'static str = "HandleNorthWest";

/// The context names of the handles, one per direction, in the order of the
/// directions.
pub open spec fn resize_handle_context_names() -> Seq<Seq<char>> {
    seq![
        "HandleNorth"@,
        "HandleNorthEast"@,
        "HandleEast"@,
        "HandleSouthEast"@,
        "HandleSouth"@,
        "HandleSouthWest"@,
        "HandleWest"@,
        "HandleNorthWest"@,
    ]
}

/// The place of a direction in the order North, NorthEast, ..., NorthWest.
pub open spec fn direction_index(d: ResizeDirection) -> int {
    match d {
        ResizeDirection::North => 0,
        ResizeDirection::NorthEast => 1,
        ResizeDirection::East => 2,
        ResizeDirection::SouthEast => 3,
        ResizeDirection::South => 4,
        ResizeDirection::SouthWest => 5,
        ResizeDirection::West => 6,
        ResizeDirection::NorthWest => 7,
    }
}

/// Looking up the context name of a direction gives the handle of that
/// direction.
pub proof fn handle_context_matches(handles: ResizeHandles, d: ResizeDirection)
    ensures
        context_lookup(
            resize_handle_context_names(),
            handles.entities(),
            resize_handle_context_names()[direction_index(d)],
        ) == Some(handles.entities()[direction_index(d)]),
{
    reveal_strlit("HandleNorth");
    reveal_strlit("HandleNorthEast");
    reveal_strlit("HandleEast");
    reveal_strlit("HandleSouthEast");
    reveal_strlit("HandleSouth");
    reveal_strlit("HandleSouthWest");
    reveal_strlit("HandleWest");
    reveal_strlit("HandleNorthWest");
    let names = resize_handle_context_names();
    assert(distinct_names(names)) by {
        assert forall|i: int, j: int|
            0 <= i < names.len() && 0 <= j < names.len() && i != j implies names[i] != names[j] by {
            if names[i].len() == names[j].len() {
                if names[i].len() == 15 {
                    assert(names[i][6] != names[j][6] || names[i][11] != names[j][11]);
                } else {
                    assert(names[i][6] != names[j][6]);
                }
            }
        }
    }
    lemma_lookup_distinct(names, handles.entities(), direction_index(d));
}

impl ResizeHandles {
    /// Handles that are all the placeholder entity.
    pub fn placeholders() -> (h: ResizeHandles)
        ensures
            h.entities() == Seq::new(8, |i: int| Entity(crate::entity::PLACEHOLDER_BITS)),
    {
        let p = Entity::placeholder();
        let h = ResizeHandles {
            handle_north: p,
            handle_north_east: p,
            handle_east: p,
            handle_south_east: p,
            handle_south: p,
            handle_south_west: p,
            handle_west: p,
            handle_north_west: p,
        };
        assert(h.entities() =~= Seq::new(8, |i: int| Entity(crate::entity::PLACEHOLDER_BITS)));
        h
    }

    /// Handles with the given entities, in the order of the directions.
    pub fn from_handles(handles: [Entity; 8]) -> (h: ResizeHandles)
        ensures
            h.entities() == handles@,
    {
        let h = ResizeHandles {
            handle_north: handles[0],
            handle_north_east: handles[1],
            handle_east: handles[2],
            handle_south_east: handles[3],
            handle_south: handles[4],
            handle_south_west: handles[5],
            handle_west: handles[6],
            handle_north_west: handles[7],
        };
        assert(h.entities() =~= handles@);
        h
    }

    /// The handles in the order of the directions.
    pub open spec fn entities(&self) -> Seq<Entity> {
        seq![
            self.handle_north,
            self.handle_north_east,
            self.handle_east,
            self.handle_south_east,
            self.handle_south,
            self.handle_south_west,
            self.handle_west,
            self.handle_north_west,
        ]
    }

    /// The handle of a direction.
    pub fn handle(&self, direction: ResizeDirection) -> (e: Entity)
        ensures
            e == self.entities()[direction_index(direction)],
    {
        match direction {
            ResizeDirection::North => self.handle_north,
            ResizeDirection::NorthEast => self.handle_north_east,
            ResizeDirection::East => self.handle_east,
            ResizeDirection::SouthEast => self.handle_south_east,
            ResizeDirection::South => self.handle_south,
            ResizeDirection::SouthWest => self.handle_south_west,
            ResizeDirection::West => self.handle_west,
            ResizeDirection::NorthWest => self.handle_north_west,
        }
    }

    /// The context names of the handles.
    pub fn contexts(&self) -> (names: Vec<&'static str>)
        ensures
            names_view(names@) == resize_handle_context_names(),
    {
        let names = vec![
            HANDLE_NORTH,
            HANDLE_NORTH_EAST,
            HANDLE_EAST,
            HANDLE_SOUTH_EAST,
            HANDLE_SOUTH,
            HANDLE_SOUTH_WEST,
            HANDLE_WEST,
            HANDLE_NORTH_WEST,
        ];
        assert(names_view(names@) =~= resize_handle_context_names());
        names
    }

    /// The handle of a context name, or the error that lists the names.
    pub fn get(&self, target: &str) -> (r: Result<Entity, String>)
        ensures
            context_outcome(
                r,
                target@,
                "ResizeHandles"@,
                resize_handle_context_names(),
                self.entities(),
            ),
    {
        let names = self.contexts();
        let entities = vec![
            self.handle_north,
            self.handle_north_east,
            self.handle_east,
            self.handle_south_east,
            self.handle_south,
            self.handle_south_west,
            self.handle_west,
            self.handle_north_west,
        ];
        assert(entities@ =~= self.entities());
        assert(names_view(names@).len() == names@.len());
        get_context(target, "ResizeHandles", &names, &entities)
    }
}

} // verus!
