//! The first form of the menu: buttons that open their container of items,
//! at most one at a time.
use bevy::input::touch::Touches;
use bevy::input::Input;
use vstd::prelude::*;

use crate::entity::Entity;
use crate::input::{pointer_pressed, pointer_went_down, KeyCode, MouseButton};
use crate::interaction::{Display, FluxInteraction};

verus! {

pub const MENU_CONTAINER_Z_INDEX: i32 = 100000;

/// A menu: its container of items and whether it is open.
#[derive(Clone, Copy, Debug, PartialEq, Eq, Structural)]
pub struct Menu {
    pub container: Entity,
    pub is_open: bool,
}

impl Default for Menu {
    fn default() -> (m: Self)
        ensures
            m.container.0 == crate::entity::PLACEHOLDER_BITS,
            !m.is_open,
    {
        Menu { container: Entity::placeholder(), is_open: false }
    }
}

impl Menu {
    /// How the container is displayed: shown while the menu is open,
    /// collapsed otherwise.
    pub fn container_display(&self) -> (d: Display)
        ensures
            d == if self.is_open {
                Display::Flex
            } else {
                Display::Collapsed
            },
    {
        if self.is_open {
            Display::Flex
        } else {
            Display::Collapsed
        }
    }
}

/// A menu's name and access key.
pub struct MenuConfig {
    pub name: String,
    pub alt_code: Option<KeyCode>,
}

impl Default for MenuConfig {
    fn default() -> (c: Self)
        ensures
            c.name@ == Seq::<char>::empty(),
            c.alt_code is None,
    {
        MenuConfig { name: String::new(), alt_code: None }
    }
}

/// The marker of an item of a menu.
#[derive(Clone, Copy, Debug, PartialEq, Eq, Structural)]
pub struct MenuItem;

/// The marker of a separator between items of a menu.
#[derive(Clone, Copy, Debug, PartialEq, Eq, Structural)]
pub struct MenuItemSeparator;

/// The index of the first open menu, if any.
pub open spec fn first_open(open: Seq<bool>) -> Option<int>
    decreases open.len(),
{
    if open.len() == 0 {
        None
    } else if open[0] {
        Some(0)
    } else {
        match first_open(open.drop_first()) {
            Some(i) => Some(i + 1),
            None => None,
        }
    }
}

/// The menu to keep open, scanning the menus from `i` on: the first menu whose
/// interaction changed decides. Pressing an open menu or releasing over a
/// closed one closes every menu; otherwise a press or release opens that menu,
/// and, while some menu is open, entering another menu opens it. When no
/// changed menu decides, `kept` stays open.
pub open spec fn menu_scan(
    open: Seq<bool>,
    flux: Seq<FluxInteraction>,
    changed: Seq<bool>,
    any_open: bool,
    i: int,
    kept: Option<int>,
) -> Option<int>
    decreases open.len() - i,
{
    if i < 0 || i >= open.len() {
        kept
    } else if changed[i] && ((open[i] && flux[i] == FluxInteraction::Pressed) || (!open[i]
        && flux[i] == FluxInteraction::Released)) {
        None
    } else if changed[i] && (flux[i] == FluxInteraction::Pressed || flux[i]
        == FluxInteraction::Released) {
        Some(i)
    } else if changed[i] && any_open && flux[i] == FluxInteraction::PointerEnter {
        Some(i)
    } else {
        menu_scan(open, flux, changed, any_open, i + 1, kept)
    }
}

/// Whether the menus are open after a frame. A mouse button or touch that
/// went down (`pressed`) away from every menu closes them all; else, when no
/// menu's interaction changed, nothing changes; else only the menu that
/// `menu_scan` picks stays open.
pub open spec fn menus_open_after(
    open: Seq<bool>,
    flux: Seq<FluxInteraction>,
    changed: Seq<bool>,
    pressed: bool,
) -> Seq<bool> {
    if pressed && !(exists|i: int| 0 <= i < flux.len() && flux[i] == FluxInteraction::Pressed) {
        Seq::new(open.len(), |i: int| false)
    } else if !(exists|i: int| 0 <= i < changed.len() && changed[i]) {
        open
    } else {
        let any_open = exists|i: int| 0 <= i < open.len() && open[i];
        let target = menu_scan(open, flux, changed, any_open, 0, first_open(open));
        Seq::new(open.len(), |i: int| target == Some(i))
    }
}

proof fn lemma_first_open(open: Seq<bool>, i: int)
    requires
        0 <= i <= open.len(),
        forall|j: int| 0 <= j < i ==> !open[j],
    ensures
        i < open.len() && open[i] ==> first_open(open) == Some(i),
        i == open.len() ==> first_open(open) is None,
    decreases i,
{
    if i > 0 {
        lemma_first_open(open.drop_first(), i - 1);
    }
}

proof fn lemma_first_open_bound(open: Seq<bool>)
    ensures
        first_open(open) matches Some(k) ==> 0 <= k < open.len(),
    decreases open.len(),
{
    if open.len() > 0 {
        lemma_first_open_bound(open.drop_first());
    }
}

/// The open state of each menu.
pub open spec fn open_states(menus: Seq<Menu>) -> Seq<bool> {
    menus.map_values(|m: Menu| m.is_open)
}

/// Opens and closes the menus for a frame (see `menus_open_after`): whether a
/// mouse button or a touch went down this frame is read from `buttons` and
/// `touches`, and each menu comes with its interaction and whether that
/// interaction changed.
#[verifier::loop_isolation(false)]
pub fn handle_click_or_touch(
    buttons: &Input<MouseButton>,
    touches: &Touches,
    menus: &mut Vec<Menu>,
    interactions: &Vec<FluxInteraction>,
    changed: &Vec<bool>,
)
    requires
        old(menus).len() == interactions.len(),
        old(menus).len() == changed.len(),
    ensures
        final(menus).len() == old(menus).len(),
        forall|i: int|
            0 <= i < final(menus).len() ==> #[trigger] final(menus)@[i] == (Menu {
                is_open: menus_open_after(
                    open_states(old(menus)@),
                    interactions@,
                    changed@,
                    pointer_went_down(*buttons, *touches),
                )[i],
                ..old(menus)@[i]
            }),
{
    let ghost initial = menus@;
    let ghost open = open_states(menus@);
    let n = menus.len();
    let pressed = pointer_pressed(buttons, touches);
    if pressed {
        let mut any_pressed = false;
        let mut i: usize = 0;
        while i < n
            invariant
                i <= n,
                menus@ == initial,
                any_pressed == exists|j: int|
                    0 <= j < i && interactions@[j] == FluxInteraction::Pressed,
            decreases n - i,
        {
            if interactions[i] == FluxInteraction::Pressed {
                any_pressed = true;
            }
            i = i + 1;
        }
        if !any_pressed {
            let mut i: usize = 0;
            while i < n
                invariant
                    i <= n,
                    menus.len() == n,
                    forall|j: int| 0 <= j < i ==> menus@[j] == (Menu { is_open: false, ..initial[j] }),
                    forall|j: int| i <= j < n ==> menus@[j] == initial[j],
                decreases n - i,
            {
                let mut menu = menus[i];
                menu.is_open = false;
                menus.set(i, menu);
                i = i + 1;
            }
            return;
        }
    }
    let mut any_changed = false;
    let mut any_open = false;
    let mut kept: Option<usize> = None;
    let mut i: usize = 0;
    while i < n
        invariant
            i <= n,
            menus@ == initial,
            any_changed == exists|j: int| 0 <= j < i && changed@[j],
            any_open == exists|j: int| 0 <= j < i && open[j],
            kept is None ==> forall|j: int| 0 <= j < i ==> !open[j],
            kept matches Some(k) ==> k < i && open[k as int] && forall|j: int| 0 <= j < k ==> !open[j],
        decreases n - i,
    {
        assert(open[i as int] == menus@[i as int].is_open);
        if changed[i] {
            any_changed = true;
        }
        if menus[i].is_open {
            any_open = true;
            if kept.is_none() {
                kept = Some(i);
            }
        }
        i = i + 1;
    }
    if !any_changed {
        return;
    }
    proof {
        match kept {
            Some(k) => lemma_first_open(open, k as int),
            None => lemma_first_open(open, n as int),
        }
    }
    let ghost start = match kept {
        Some(k) => Some(k as int),
        None => None::<int>,
    };
    assert(first_open(open) == start);
    let mut target = kept;
    let mut decided = false;
    let mut i: usize = 0;
    while i < n && !decided
        invariant
            i <= n,
            menus@ == initial,
            decided ==> (target matches Some(t) ==> t < n),
            menu_scan(open, interactions@, changed@, any_open, 0, start) == if decided {
                match target {
                    Some(t) => Some(t as int),
                    None => None::<int>,
                }
            } else {
                menu_scan(open, interactions@, changed@, any_open, i as int, start)
            },
            !decided ==> target == kept,
        decreases (n - i) * 2 + if decided {
            0int
        } else {
            1int
        },
    {
        let flux = interactions[i];
        let is_open = menus[i].is_open;
        assert(open[i as int] == is_open);
        if changed[i] {
            if (is_open && flux == FluxInteraction::Pressed) || (!is_open && flux
                == FluxInteraction::Released) {
                target = None;
                decided = true;
            } else if flux == FluxInteraction::Pressed || flux == FluxInteraction::Released {
                target = Some(i);
                decided = true;
            } else if any_open && flux == FluxInteraction::PointerEnter {
                target = Some(i);
                decided = true;
            }
        }
        if !decided {
            i = i + 1;
        }
    }
    let mut i: usize = 0;
    while i < n
        invariant
            i <= n,
            menus.len() == n,
            forall|j: int|
                0 <= j < i ==> menus@[j] == (Menu {
                    is_open: match target {
                        Some(t) => t as int == j,
                        None => false,
                    },
                    ..initial[j]
                }),
            forall|j: int| i <= j < n ==> menus@[j] == initial[j],
        decreases n - i,
    {
        let mut menu = menus[i];
        match target {
            Some(t) => {
                if i == t {
                    if !menu.is_open {
                        menu.is_open = true;
                    }
                } else if menu.is_open {
                    menu.is_open = false;
                }
            },
            None => {
                if menu.is_open {
                    menu.is_open = false;
                }
            },
        }
        menus.set(i, menu);
        i = i + 1;
    }
}

proof fn lemma_scan_skips_unchanged(
    open: Seq<bool>,
    flux: Seq<FluxInteraction>,
    changed: Seq<bool>,
    any_open: bool,
    j: int,
    i: int,
    kept: Option<int>,
)
    requires
        0 <= j <= i < open.len(),
        changed.len() == open.len(),
        forall|k: int| j <= k < i ==> !changed[k],
    ensures
        menu_scan(open, flux, changed, any_open, j, kept) == menu_scan(
            open,
            flux,
            changed,
            any_open,
            i,
            kept,
        ),
    decreases i - j,
{
    if j < i {
        lemma_scan_skips_unchanged(open, flux, changed, any_open, j + 1, i, kept);
    }
}

/// The first menu whose interaction changed decides the frame (when no
/// pointer went down away from every menu): pressing it while open or
/// releasing over it while closed closes every menu; releasing over it while
/// open, or pressing it while closed, leaves it the only open menu; and
/// entering it while some menu is open makes it the only open menu.
pub proof fn first_changed_menu_decides(
    open: Seq<bool>,
    flux: Seq<FluxInteraction>,
    changed: Seq<bool>,
    pressed: bool,
    i: int,
)
    requires
        open.len() == flux.len(),
        open.len() == changed.len(),
        0 <= i < open.len(),
        changed[i],
        forall|j: int| 0 <= j < i ==> !changed[j],
        pressed ==> exists|j: int| 0 <= j < flux.len() && flux[j] == FluxInteraction::Pressed,
    ensures
        ({
            let after = menus_open_after(open, flux, changed, pressed);
            &&& after.len() == open.len()
            &&& (open[i] && flux[i] == FluxInteraction::Pressed) || (!open[i] && flux[i]
                == FluxInteraction::Released) ==> forall|j: int| 0 <= j < after.len() ==> !after[j]
            &&& (open[i] && flux[i] == FluxInteraction::Released) || (!open[i] && flux[i]
                == FluxInteraction::Pressed) ==> forall|j: int|
                0 <= j < after.len() ==> (after[j] <==> j == i)
            &&& (flux[i] == FluxInteraction::PointerEnter && exists|j: int|
                0 <= j < open.len() && open[j]) ==> forall|j: int|
                0 <= j < after.len() ==> (after[j] <==> j == i)
        }),
{
    let any_open = exists|j: int| 0 <= j < open.len() && open[j];
    lemma_scan_skips_unchanged(open, flux, changed, any_open, 0, i, first_open(open));
    assert(exists|j: int| 0 <= j < changed.len() && changed[j]);
}

/// Whether at most one menu is open.
pub open spec fn at_most_one_open(open: Seq<bool>) -> bool {
    forall|i: int, j: int| 0 <= i < open.len() && 0 <= j < open.len() && open[i] && open[j] ==> i == j
}

/// A frame never leaves two menus open when at most one was open before it.
pub proof fn menus_stay_exclusive(
    open: Seq<bool>,
    flux: Seq<FluxInteraction>,
    changed: Seq<bool>,
    pressed: bool,
)
    requires
        at_most_one_open(open),
    ensures
        at_most_one_open(menus_open_after(open, flux, changed, pressed)),
{
}

} // verus!
