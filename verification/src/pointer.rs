//! Types and systems for pointer inputs, such as position and buttons.
//!
//! A pointer is a mouse, a touch or a pointer driven by software. The world
//! holds one [`Pointer`] per live pointer. Once per tick
//! [`PointerInput::receive`] folds the tick's input events into the pointers,
//! and [`update_pointer_map`] rebuilds the index from pointer ids to entities.

use vstd::prelude::*;
use crate::camera::{get_single, single_window, Camera, NormalizedRenderTarget};
use crate::entity::Entity;
use crate::math::Vec2;
use crate::table::{table_clear, table_entries, table_get, table_insert, table_new, EntityTable};

verus! {

/// Identifies a unique pointer. `Mouse` and `Touch` pointers are spawned by
/// the input plugins.
///
/// Pointers can be spawned and despawned, but they need a stable id that
/// persists regardless of the entity they are associated with.
#[derive(Debug, Clone, Copy, Eq, PartialEq, Hash, Structural)]
pub enum PointerId {
    /// The mouse pointer.
    Mouse,
    /// A touch input, numbered by the window's touch events.
    Touch(u64),
    /// A custom pointer, identified by the 128 bits of a universally unique
    /// identifier. Useful for mocking inputs or for a cursor that software
    /// controls.
    Custom(u128),
}

impl Default for PointerId {
    fn default() -> (id: PointerId)
        ensures
            id == PointerId::Mouse,
    {
        PointerId::Mouse
    }
}

impl PointerId {
    /// Returns true if the pointer is a touch input.
    pub fn is_touch(&self) -> (touch: bool)
        ensures
            touch == (*self is Touch),
    {
        match self {
            PointerId::Touch(_) => true,
            _ => false,
        }
    }

    /// Returns true if the pointer is the mouse.
    pub fn is_mouse(&self) -> (mouse: bool)
        ensures
            mouse == (*self is Mouse),
    {
        match self {
            PointerId::Mouse => true,
            _ => false,
        }
    }

    /// Returns true if the pointer is a custom input.
    pub fn is_custom(&self) -> (custom: bool)
        ensures
            custom == (*self is Custom),
    {
        match self {
            PointerId::Custom(_) => true,
            _ => false,
        }
    }

    /// Returns the touch id if the pointer is a touch input.
    pub fn get_touch_id(&self) -> (touch_id: Option<u64>)
        ensures
            touch_id == (match *self {
                PointerId::Touch(id) => Some(id),
                _ => None,
            }),
    {
        if let PointerId::Touch(id) = self {
            Some(*id)
        } else {
            None
        }
    }

    /// The key under which the pointer map files this id: the number of the
    /// variant and the bits it carries.
    spec fn key(self) -> (u8, u128) {
        match self {
            PointerId::Mouse => (0u8, 0u128),
            PointerId::Touch(id) => (1u8, id as u128),
            PointerId::Custom(id) => (2u8, id),
        }
    }

    fn to_key(&self) -> (key: (u8, u128))
        ensures
            key == self.key(),
    {
        match self {
            PointerId::Mouse => (0u8, 0u128),
            PointerId::Touch(id) => (1u8, *id as u128),
            PointerId::Custom(id) => (2u8, *id),
        }
    }

    /// Different ids have different keys.
    proof fn lemma_key_injective(self, other: PointerId)
        requires
            self.key() == other.key(),
        ensures
            self == other,
    {
    }
}

/// What a picking backend reports of a hit.
#[derive(Debug, Clone, Copy, PartialEq, Eq, Structural)]
pub struct HitData {
    /// The camera through which the pointer hit the entity.
    pub camera: Entity,
    /// The distance of the hit from the camera, as a number that grows with
    /// it.
    pub depth: i32,
}

/// Holds a list of entities this pointer is currently interacting with,
/// sorted from nearest to farthest.
#[derive(Debug, Clone)]
pub struct PointerInteraction {
    pub(crate) sorted_entities: Vec<(Entity, HitData)>,
}

impl View for PointerInteraction {
    type V = Seq<(Entity, HitData)>;

    closed spec fn view(&self) -> Seq<(Entity, HitData)> {
        self.sorted_entities@
    }
}

impl PointerInteraction {
    /// The list is sorted from nearest to farthest.
    pub open spec fn nearest_first(&self) -> bool {
        forall|i: int, j: int| 0 <= i <= j < self@.len() ==> self@[i].1.depth <= self@[j].1.depth
    }
}

impl Default for PointerInteraction {
    fn default() -> (interaction: PointerInteraction)
        ensures
            interaction@.len() == 0,
            interaction.nearest_first(),
    {
        PointerInteraction { sorted_entities: Vec::new() }
    }
}

/// The stage of the pointer button press event.
#[derive(Debug, Clone, Copy, PartialEq, Eq, Structural)]
pub enum PressDirection {
    /// The pointer button was just pressed.
    Down,
    /// The pointer button was just released.
    Up,
}

/// The button that was just pressed or released.
#[derive(Debug, Clone, Copy, PartialEq, Eq, Hash, Structural)]
pub enum PointerButton {
    /// The primary pointer button.
    Primary,
    /// The secondary pointer button.
    Secondary,
    /// The tertiary pointer button.
    Middle,
}

impl PointerButton {
    /// All buttons that a pointer can have.
    pub fn iter() -> (buttons: Vec<PointerButton>)
        ensures
            buttons@ == seq![PointerButton::Primary, PointerButton::Secondary, PointerButton::Middle],
    {
        let buttons = vec![PointerButton::Primary, PointerButton::Secondary, PointerButton::Middle];
        assert(buttons@ =~= seq![
            PointerButton::Primary,
            PointerButton::Secondary,
            PointerButton::Middle,
        ]);
        buttons
    }
}

/// Tracks the state of the pointer's buttons in response to
/// [`PointerInput`]s. Its view is the set of buttons that are held down; any
/// subset of the buttons can be.
#[derive(Debug, Clone, PartialEq, Eq)]
pub struct PointerPress {
    primary: bool,
    secondary: bool,
    middle: bool,
}

impl View for PointerPress {
    type V = Set<PointerButton>;

    closed spec fn view(&self) -> Set<PointerButton> {
        Set::new(
            |button: PointerButton|
                match button {
                    PointerButton::Primary => self.primary,
                    PointerButton::Secondary => self.secondary,
                    PointerButton::Middle => self.middle,
                },
        )
    }
}

impl Default for PointerPress {
    /// No button is pressed.
    fn default() -> (press: PointerPress)
        ensures
            press@ == Set::<PointerButton>::empty(),
    {
        PointerPress { primary: false, secondary: false, middle: false }
    }
}

impl PointerPress {
    /// Returns true if the primary pointer button is pressed.
    #[inline]
    pub fn is_primary_pressed(&self) -> (pressed: bool)
        ensures
            pressed == self@.contains(PointerButton::Primary),
    {
        self.primary
    }

    /// Returns true if the secondary pointer button is pressed.
    #[inline]
    pub fn is_secondary_pressed(&self) -> (pressed: bool)
        ensures
            pressed == self@.contains(PointerButton::Secondary),
    {
        self.secondary
    }

    /// Returns true if the middle (tertiary) pointer button is pressed.
    #[inline]
    pub fn is_middle_pressed(&self) -> (pressed: bool)
        ensures
            pressed == self@.contains(PointerButton::Middle),
    {
        self.middle
    }

    /// Returns true if any pointer button is pressed.
    #[inline]
    pub fn is_any_pressed(&self) -> (pressed: bool)
        ensures
            pressed == (exists|button: PointerButton| self@.contains(button)),
    {
        assert(self.primary ==> self@.contains(PointerButton::Primary));
        assert(self.middle ==> self@.contains(PointerButton::Middle));
        assert(self.secondary ==> self@.contains(PointerButton::Secondary));
        self.primary || self.middle || self.secondary
    }

    /// Two button states that hold the same buttons down are equal.
    pub proof fn lemma_view_injective(self, other: PointerPress)
        requires
            self@ == other@,
        ensures
            self == other,
    {
        assert(other@.contains(PointerButton::Primary) == other.primary);
        assert(other@.contains(PointerButton::Secondary) == other.secondary);
        assert(other@.contains(PointerButton::Middle) == other.middle);
    }

    /// Records that `button` went down, or up.
    fn set(&mut self, button: PointerButton, is_down: bool)
        ensures
            final(self)@ == (if is_down {
                old(self)@.insert(button)
            } else {
                old(self)@.remove(button)
            }),
    {
        match button {
            PointerButton::Primary => self.primary = is_down,
            PointerButton::Secondary => self.secondary = is_down,
            PointerButton::Middle => self.middle = is_down,
        }
        assert(self@ =~= (if is_down {
            old(self)@.insert(button)
        } else {
            old(self)@.remove(button)
        }));
    }
}

/// The location of a pointer: a render target, and the position of the
/// pointer on this target.
///
/// A pointer can move freely between render targets. It is not associated
/// with a camera, because several cameras can draw to one target: picking
/// backends relate a location to the cameras, with
/// [`Location::is_in_viewport`].
#[derive(Debug, Clone, Copy, PartialEq, Eq, Structural)]
pub struct Location {
    /// The render target associated with the pointer, usually a window.
    pub target: NormalizedRenderTarget,
    /// The position of the pointer in the `target`.
    pub position: Vec2,
}

impl Location {
    /// Whether this location is within the viewport of `camera`, where
    /// `primary_window` lists the entities marked as primary window.
    ///
    /// It is where all of these hold: there is exactly one primary window;
    /// the camera's target, normalized with that window, is the target of
    /// this location; the camera has a viewport; and the position lies in
    /// that rectangle, edges included.
    pub open spec fn in_viewport(&self, camera: Camera, primary_window: Seq<Entity>) -> bool {
        &&& single_window(primary_window) is Some
        &&& camera.target.spec_normalize(single_window(primary_window)) == Some(self.target)
        &&& camera.viewport is Some
        &&& camera.viewport->0.spec_contains(self.position)
    }

    /// Returns `true` if this pointer's location is within the camera's
    /// viewport. `primary_window` lists the entities marked as primary
    /// window.
    ///
    /// Note this returns `false` if the location and the camera have
    /// different render targets, if there is not exactly one primary window,
    /// and if the camera has no viewport.
    #[inline]
    pub fn is_in_viewport(&self, camera: &Camera, primary_window: &[Entity]) -> (inside: bool)
        ensures
            inside == self.in_viewport(*camera, primary_window@),
            single_window(primary_window@) is None ==> !inside,
            camera.target.spec_normalize(single_window(primary_window@)) != Some(self.target)
                ==> !inside,
            camera.viewport is None ==> !inside,
    {
        let window = match get_single(primary_window) {
            Some(window) => window,
            None => return false,
        };
        match camera.target.normalize(Some(window)) {
            Some(target) => {
                if target != self.target {
                    return false;
                }
            },
            None => return false,
        }
        let position = Vec2::new(self.position.x, self.position.y);
        match camera.logical_viewport_rect() {
            Some(rect) => rect.contains(position),
            None => false,
        }
    }
}

/// Tracks a pointer's current [`Location`].
#[derive(Debug, Clone, PartialEq, Eq)]
pub struct PointerLocation {
    /// The location of the pointer, which is both the target and the
    /// position on the target; `None` while the pointer is on no target.
    pub location: Option<Location>,
}

impl Default for PointerLocation {
    /// The pointer is on no target.
    fn default() -> (location: PointerLocation)
        ensures
            location.location is None,
    {
        PointerLocation { location: None }
    }
}

impl PointerLocation {
    /// Returns the location if the pointer is active, or `None` if the
    /// pointer is inactive.
    pub fn location(&self) -> (location: Option<&Location>)
        ensures
            match location {
                Some(location) => self.location == Some(*location),
                None => self.location is None,
            },
    {
        self.location.as_ref()
    }
}

/// Types of actions that can be taken by pointers.
#[derive(Debug, Clone, Copy, PartialEq, Eq, Structural)]
pub enum PointerAction {
    /// The pointer has entered a window.
    EnteredWindow,
    /// The pointer has left a window.
    LeftWindow,
    /// A button has been pressed on the pointer.
    Pressed {
        /// The press direction, either down or up.
        direction: PressDirection,
        /// The button that was pressed.
        button: PointerButton,
    },
    /// The pointer has moved.
    Moved {
        /// How much the pointer moved from the previous position.
        delta: Vec2,
    },
    /// The pointer has been canceled. The operating system can cause this to
    /// happen to touch events.
    Canceled,
}

/// An input event effecting a pointer.
#[derive(Debug, Clone, Copy, PartialEq, Eq, Structural)]
pub struct PointerInput {
    /// The id of the pointer.
    pub pointer_id: PointerId,
    /// The location of the pointer. For [`PointerAction::Moved`], this is the
    /// location after the movement.
    pub location: Location,
    /// The action that the event describes.
    pub action: PointerAction,
}

/// A pointer of the world: the entity that it is, its id, and its state.
#[derive(Debug, Clone, PartialEq, Eq)]
pub struct Pointer {
    pub entity: Entity,
    pub id: PointerId,
    pub location: PointerLocation,
    pub press: PointerPress,
}

/// What a [`Pointer`] is, mathematically.
pub struct PointerState {
    pub entity: Entity,
    pub id: PointerId,
    /// Where the pointer is, if it is on a target.
    pub location: Option<Location>,
    /// The buttons that are held down.
    pub pressed: Set<PointerButton>,
}

impl View for Pointer {
    type V = PointerState;

    open spec fn view(&self) -> PointerState {
        PointerState {
            entity: self.entity,
            id: self.id,
            location: self.location.location,
            pressed: self.press@,
        }
    }
}

impl PointerState {
    /// The state after `event`.
    ///
    /// An event for another pointer changes nothing. A press puts the button
    /// among the pressed ones, or takes it out. A move puts the pointer at
    /// the location that the event carries, whatever its `delta`. Entering or
    /// leaving a window, and a cancellation, change neither the buttons nor
    /// the location.
    pub open spec fn step(self, event: PointerInput) -> PointerState {
        if event.pointer_id != self.id {
            self
        } else {
            match event.action {
                PointerAction::Pressed { direction, button } => PointerState {
                    pressed: if direction == PressDirection::Down {
                        self.pressed.insert(button)
                    } else {
                        self.pressed.remove(button)
                    },
                    ..self
                },
                PointerAction::Moved { delta } => PointerState {
                    location: Some(event.location),
                    ..self
                },
                PointerAction::EnteredWindow => self,
                PointerAction::LeftWindow => self,
                PointerAction::Canceled => self,
            }
        }
    }

    /// The state after `events`, taken in their order.
    pub open spec fn run(self, events: Seq<PointerInput>) -> PointerState
        decreases events.len(),
    {
        if events.len() == 0 {
            self
        } else {
            self.run(events.drop_last()).step(events.last())
        }
    }
}

/// A button that is pressed while it is down stays down, and nothing else
/// changes: two presses of one button of one pointer in a row, with no
/// release between them, leave every pointer as the first press alone does.
/// This holds after any events that came before.
pub proof fn lemma_repeated_press_changes_nothing(
    state: PointerState,
    earlier: Seq<PointerInput>,
    first: PointerInput,
    second: PointerInput,
    button: PointerButton,
)
    requires
        first.pointer_id == second.pointer_id,
        first.action == (PointerAction::Pressed { direction: PressDirection::Down, button }),
        second.action == (PointerAction::Pressed { direction: PressDirection::Down, button }),
    ensures
        state.step(first).step(second) == state.step(first),
        state.run(earlier.push(first).push(second)) == state.run(earlier.push(first)),
{
    assert(state.step(first).step(second) == state.step(first)) by {
        assert(state.pressed.insert(button).insert(button) =~= state.pressed.insert(button));
    }
    let once = earlier.push(first);
    let twice = once.push(second);
    assert(twice.drop_last() =~= once);
    assert(once.drop_last() =~= earlier);
    let before = state.run(earlier);
    assert(before.step(first).step(second) == before.step(first)) by {
        assert(before.pressed.insert(button).insert(button) =~= before.pressed.insert(button));
    }
}

/// After a move, the pointer that the event names is at the location that
/// the event carries. The `delta` of the event has no part in it: an event
/// with any other `delta` leaves every pointer in the same state.
pub proof fn lemma_move_sets_location(state: PointerState, event: PointerInput, delta: Vec2)
    requires
        event.action is Moved,
    ensures
        state.id == event.pointer_id ==> state.step(event).location == Some(event.location),
        state.step(event) == state.step(
            PointerInput { action: PointerAction::Moved { delta }, ..event },
        ),
        state.run(seq![event]) == state.step(event),
{
    assert(state.run(seq![event]) == state.step(event)) by {
        reveal_with_fuel(PointerState::run, 2);
    }
}

/// Events whose ids the pointer does not carry leave the pointer as it is:
/// an event that arrives after its pointer is gone changes nothing.
pub proof fn lemma_events_of_other_pointers_change_nothing(
    state: PointerState,
    events: Seq<PointerInput>,
)
    requires
        forall|i: int| 0 <= i < events.len() ==> events[i].pointer_id != state.id,
    ensures
        state.run(events) == state,
    decreases events.len(),
{
    if events.len() > 0 {
        lemma_events_of_other_pointers_change_nothing(state, events.drop_last());
    }
}

/// No event changes which entity a pointer is, nor the id that it carries.
pub proof fn lemma_events_keep_identity(state: PointerState, events: Seq<PointerInput>)
    ensures
        state.run(events).entity == state.entity,
        state.run(events).id == state.id,
    decreases events.len(),
{
    if events.len() > 0 {
        lemma_events_keep_identity(state, events.drop_last());
    }
}

impl Pointer {
    /// A pointer that has not been positioned yet and has no button pressed.
    pub fn new(entity: Entity, id: PointerId) -> (pointer: Pointer)
        ensures
            pointer@ == (PointerState {
                entity,
                id,
                location: None,
                pressed: Set::<PointerButton>::empty(),
            }),
    {
        Pointer {
            entity,
            id,
            location: PointerLocation::default(),
            press: PointerPress::default(),
        }
    }

    /// Updates the pointer according to one input event.
    pub fn apply(&mut self, event: &PointerInput)
        ensures
            final(self)@ == old(self)@.step(*event),
    {
        if self.id == event.pointer_id {
            match event.action {
                PointerAction::Pressed { direction, button } => {
                    let is_down = direction == PressDirection::Down;
                    self.press.set(button, is_down);
                },
                PointerAction::Moved { .. } => {
                    self.location.location = Some(event.location);
                },
                PointerAction::EnteredWindow => {},
                PointerAction::LeftWindow => {},
                PointerAction::Canceled => {},
            }
        }
    }
}

impl PointerInput {
    /// Creates a new pointer input event.
    ///
    /// Note that `location` refers to the position of the pointer *after* the
    /// event occurred.
    pub fn new(pointer_id: PointerId, location: Location, action: PointerAction) -> (input:
        PointerInput)
        ensures
            input == (PointerInput { pointer_id, location, action }),
    {
        PointerInput { pointer_id, location, action }
    }

    /// Updates the pointers according to the input events of the tick.
    ///
    /// The events are taken in their order, and each event reaches every
    /// pointer that carries its id. An event whose id no pointer carries is
    /// dropped.
    pub fn receive(events: &[PointerInput], pointers: &mut Vec<Pointer>)
        ensures
            final(pointers)@.len() == old(pointers)@.len(),
            forall|i: int|
                0 <= i < old(pointers)@.len() ==> (#[trigger] final(pointers)@[i])@ == old(
                    pointers,
                )@[i]@.run(events@),
    {
        let count = pointers.len();
        let mut next: usize = 0;
        while next < events.len()
            invariant
                next <= events@.len(),
                pointers@.len() == count,
                count == old(pointers)@.len(),
                forall|i: int|
                    0 <= i < count ==> (#[trigger] pointers@[i])@ == old(pointers)@[i]@.run(
                        events@.take(next as int),
                    ),
            decreases events@.len() - next,
        {
            let event = &events[next];
            let ghost seen = events@.take(next as int);
            assert(events@.take(next + 1).drop_last() =~= seen);
            let mut i: usize = 0;
            while i < count
                invariant
                    i <= count,
                    next < events@.len(),
                    *event == events@[next as int],
                    seen == events@.take(next as int),
                    pointers@.len() == count,
                    count == old(pointers)@.len(),
                    forall|j: int|
                        0 <= j < i ==> (#[trigger] pointers@[j])@ == old(pointers)@[j]@.run(
                            seen,
                        ).step(*event),
                    forall|j: int|
                        i <= j < count ==> (#[trigger] pointers@[j])@ == old(pointers)@[j]@.run(
                            seen,
                        ),
                decreases count - i,
            {
                pointers[i].apply(event);
                i += 1;
            }
            next += 1;
        }
        assert(events@.take(next as int) =~= events@);
    }
}

/// Maps each [`PointerId`] to the entity of its pointer, for easy lookups.
/// Its view is that mapping.
///
/// The map is an index that [`update_pointer_map`] derives from the pointers
/// of the world once per tick; between two rebuilds it shows the pointers as
/// they were at the first.
#[derive(Debug)]
pub struct PointerMap {
    inner: EntityTable,
}

impl View for PointerMap {
    type V = Map<PointerId, Entity>;

    closed spec fn view(&self) -> Map<PointerId, Entity> {
        Map::new(
            |id: PointerId| table_entries(self.inner).contains_key(id.key()),
            |id: PointerId| Entity(table_entries(self.inner)[id.key()]),
        )
    }
}

impl Default for PointerMap {
    /// The map of a world without pointers.
    fn default() -> (map: PointerMap)
        ensures
            map@ == Map::<PointerId, Entity>::empty(),
    {
        let map = PointerMap { inner: table_new() };
        map
    }
}

impl PointerMap {
    /// Get the [`Entity`] of the supplied [`PointerId`].
    pub fn get_entity(&self, pointer_id: PointerId) -> (entity: Option<Entity>)
        ensures
            entity == (if self@.contains_key(pointer_id) {
                Some(self@[pointer_id])
            } else {
                None
            }),
    {
        match table_get(&self.inner, pointer_id.to_key()) {
            Some(bits) => Some(Entity(bits)),
            None => None,
        }
    }
}

/// Whether `pointers[index]` is the last of the pointers that carries `id`.
pub open spec fn is_last_with_id(pointers: Seq<Pointer>, id: PointerId, index: int) -> bool {
    &&& 0 <= index < pointers.len()
    &&& pointers[index].id == id
    &&& forall|later: int| index < later < pointers.len() ==> pointers[later].id != id
}

/// The index of `pointers`: an id is mapped where some pointer carries it,
/// and it is mapped to the entity of the last pointer that does.
pub open spec fn pointer_index(pointers: Seq<Pointer>) -> Map<PointerId, Entity> {
    Map::new(
        |id: PointerId| exists|index: int| 0 <= index < pointers.len() && pointers[index].id == id,
        |id: PointerId| pointers[choose|index: int| is_last_with_id(pointers, id, index)].entity,
    )
}

/// Among the pointers that carry `id`, if there are any, one is the last.
proof fn lemma_last_with_id_exists(pointers: Seq<Pointer>, id: PointerId)
    requires
        exists|index: int| 0 <= index < pointers.len() && pointers[index].id == id,
    ensures
        exists|index: int| is_last_with_id(pointers, id, index),
    decreases pointers.len(),
{
    let last = pointers.len() - 1;
    if pointers[last].id == id {
        assert(is_last_with_id(pointers, id, last));
    } else {
        let front = pointers.drop_last();
        let some = choose|index: int| 0 <= index < pointers.len() && pointers[index].id == id;
        assert(front[some].id == id);
        lemma_last_with_id_exists(front, id);
        let found = choose|index: int| is_last_with_id(front, id, index);
        assert(is_last_with_id(pointers, id, found)) by {
            assert forall|later: int| found < later < pointers.len() implies pointers[later].id
                != id by {
                if later < last {
                    assert(pointers[later] == front[later]);
                }
            }
        }
    }
}

/// Putting one more pointer behind the others maps its id to its entity and
/// leaves every other id as it was.
proof fn lemma_pointer_index_push(pointers: Seq<Pointer>, pointer: Pointer)
    ensures
        pointer_index(pointers.push(pointer)) == pointer_index(pointers).insert(
            pointer.id,
            pointer.entity,
        ),
{
    let longer = pointers.push(pointer);
    let pushed = pointer_index(longer);
    let inserted = pointer_index(pointers).insert(pointer.id, pointer.entity);
    assert forall|id: PointerId| pushed.contains_key(id) == inserted.contains_key(id) by {
        if inserted.contains_key(id) && id != pointer.id {
            let index = choose|index: int| 0 <= index < pointers.len() && pointers[index].id == id;
            assert(longer[index].id == id);
        }
    }
    assert forall|id: PointerId| pushed.contains_key(id) implies pushed[id] == inserted[id] by {
        lemma_last_with_id_exists(longer, id);
        let last = choose|index: int| is_last_with_id(longer, id, index);
        if id == pointer.id {
            assert(longer[pointers.len() as int].id == id);
        } else {
            lemma_last_with_id_exists(pointers, id);
            let before = choose|index: int| is_last_with_id(pointers, id, index);
            assert(before == last) by {
                if last < before {
                    assert(longer[before].id != id);
                }
            }
        }
    }
}

/// The index maps the id of a pointer to the entity of the last pointer that
/// carries this id.
pub proof fn lemma_index_finds_last(pointers: Seq<Pointer>, index: int)
    requires
        is_last_with_id(pointers, pointers[index].id, index),
    ensures
        pointer_index(pointers).contains_key(pointers[index].id),
        pointer_index(pointers)[pointers[index].id] == pointers[index].entity,
{
    let last = choose|last: int| is_last_with_id(pointers, pointers[index].id, last);
    assert(last == index);
}

/// Where no two pointers share an id, the index finds every pointer under
/// its id.
pub proof fn lemma_index_of_unique_ids(pointers: Seq<Pointer>)
    requires
        forall|i: int, j: int|
            0 <= i < j < pointers.len() ==> pointers[i].id != pointers[j].id,
    ensures
        forall|i: int|
            0 <= i < pointers.len() ==> pointer_index(pointers).contains_key(
                (#[trigger] pointers[i]).id,
            ) && pointer_index(pointers)[pointers[i].id] == pointers[i].entity,
{
    assert forall|i: int| 0 <= i < pointers.len() implies pointer_index(pointers).contains_key(
        (#[trigger] pointers[i]).id,
    ) && pointer_index(pointers)[pointers[i].id] == pointers[i].entity by {
        lemma_index_finds_last(pointers, i);
    }
}

/// The index finds nothing under an id that no pointer carries: no entry of
/// a pointer that is gone survives a rebuild.
pub proof fn lemma_index_holds_no_stale_id(pointers: Seq<Pointer>, id: PointerId)
    requires
        forall|i: int| 0 <= i < pointers.len() ==> pointers[i].id != id,
    ensures
        !pointer_index(pointers).contains_key(id),
{
}

/// Update the [`PointerMap`] with the pointers of the current tick.
///
/// The map is rebuilt from nothing: afterwards it maps exactly the ids that
/// the pointers carry. Where several pointers carry one id, the last of them
/// is found under it.
pub fn update_pointer_map(pointers: &[Pointer], map: &mut PointerMap)
    ensures
        final(map)@ == pointer_index(pointers@),
{
    table_clear(&mut map.inner);
    let mut i: usize = 0;
    while i < pointers.len()
        invariant
            i <= pointers@.len(),
            map@ == pointer_index(pointers@.take(i as int)),
        decreases pointers@.len() - i,
    {
        let ghost before = map@;
        table_insert(&mut map.inner, pointers[i].id.to_key(), pointers[i].entity.to_bits());
        proof {
            let pointer = pointers@[i as int];
            assert(map@ =~= before.insert(pointer.id, pointer.entity)) by {
                assert forall|id: PointerId| (#[trigger] id.key()) == pointer.id.key() implies id
                    == pointer.id by {
                    id.lemma_key_injective(pointer.id);
                }
            }
            lemma_pointer_index_push(pointers@.take(i as int), pointer);
            assert(pointers@.take(i as int).push(pointer) =~= pointers@.take(i + 1));
        }
        i += 1;
    }
    assert(pointers@.take(i as int) =~= pointers@);
}

} // verus!
