//! The interaction states that the widgets react to, and the display states
//! they hand back, as plain enums.
use vstd::prelude::*;

verus! {

/// The pointer interaction of a node as it changes over time.
#[derive(Clone, Copy, Debug, PartialEq, Eq, Structural)]
pub enum FluxInteraction {
    /// No interaction (bevy's `None`).
    Idle,
    PointerEnter,
    PointerLeave,
    /// Pressing started, but not completed or cancelled.
    Pressed,
    /// Pressing completed over the node.
    Released,
    /// Pressing cancelled by releasing outside of the node.
    PressCanceled,
    Disabled,
}

impl FluxInteraction {
    pub fn is_pressed(&self) -> (r: bool)
        ensures
            r == (*self == FluxInteraction::Pressed),
    {
        match self {
            FluxInteraction::Pressed => true,
            _ => false,
        }
    }

    pub fn is_released(&self) -> (r: bool)
        ensures
            r == (*self == FluxInteraction::Released),
    {
        match self {
            FluxInteraction::Released => true,
            _ => false,
        }
    }
}

/// The instantaneous pointer interaction of a node.
#[derive(Clone, Copy, Debug, PartialEq, Eq, Structural)]
pub enum Interaction {
    Pressed,
    Hovered,
    /// No interaction (bevy's `None`).
    Idle,
}

/// The phase of a drag gesture on a draggable node.
#[derive(Clone, Copy, Debug, PartialEq, Eq, Structural)]
pub enum DragState {
    Inactive,
    MaybeDragged,
    DragStart,
    Dragging,
    DragEnd,
    DragCanceled,
}

impl DragState {
    /// Whether the gesture moves its target: every state but `Inactive`,
    /// `MaybeDragged` and `DragCanceled`.
    pub fn moves_target(&self) -> (r: bool)
        ensures
            r == !(*self == DragState::Inactive || *self == DragState::MaybeDragged || *self
                == DragState::DragCanceled),
    {
        match self {
            DragState::Inactive => false,
            DragState::MaybeDragged => false,
            DragState::DragCanceled => false,
            _ => true,
        }
    }

    /// Whether a drag is under way: `DragStart` or `Dragging`.
    pub fn is_dragging(&self) -> (r: bool)
        ensures
            r == (*self == DragState::DragStart || *self == DragState::Dragging),
    {
        match self {
            DragState::DragStart => true,
            DragState::Dragging => true,
            _ => false,
        }
    }
}

/// The phase of a droppable over a drop zone.
#[derive(Clone, Copy, Debug, PartialEq, Eq, Structural)]
pub enum DropPhase {
    Inactive,
    DroppableEntered,
    DroppableHover,
    DroppableLeft,
    Dropped,
    DropCanceled,
}

/// The pseudo states that themes react to.
#[derive(Clone, Copy, Debug, PartialEq, Eq, Structural)]
pub enum PseudoState {
    Visible,
    Open,
    Checked,
    Folded,
    Empty,
}

/// The visibility a widget gives one of its nodes.
#[derive(Clone, Copy, Debug, PartialEq, Eq, Structural)]
pub enum Visibility {
    Inherited,
    Hidden,
    Visible,
}

/// The display mode a widget gives one of its nodes.
#[derive(Clone, Copy, Debug, PartialEq, Eq, Structural)]
pub enum Display {
    Flex,
    /// The node takes no room and is not drawn (bevy's `Display::None`).
    Collapsed,
}

/// Whether a node lets pointer interactions through to what lies below it.
#[derive(Clone, Copy, Debug, PartialEq, Eq, Structural)]
pub enum FocusPolicy {
    Block,
    Pass,
}

/// The layout direction of a flex container.
#[derive(Clone, Copy, Debug, PartialEq, Eq, Structural)]
pub enum FlexDirection {
    Row,
    Column,
    RowReverse,
    ColumnReverse,
}

} // verus!
