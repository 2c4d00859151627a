//! The gamepad slot manager: an arena of optional gamepad slots indexed
//! by position, not by identifier.
//!
//! Wire events aggregate into the arena: a button or axis event for an
//! unseen identifier creates a slot (applying the event at once), a
//! connect event only ensures a slot exists, a disconnect event frees
//! the slot, and an unrecognized event type leaves the arena untouched.
//! A freed slot is reused by the next new identifier before the arena
//! grows, which bounds growth, and at most one live slot ever carries a
//! given identifier.

use vstd::prelude::*;
use crate::gamepad::{spec_apply_event, spec_new_gamepad, EventType, GamepadData, GamepadId,
    GamepadView};
use crate::protocol::CockpitToLinkage;

verus! {

/// Whether a slot is live and carries the given identifier.
pub open spec fn spec_slot_has_id(slot: Option<GamepadView>, id: GamepadId) -> bool {
    match slot {
        Some(g) => g.gamepad_id == id,
        None => false,
    }
}

/// The first slot index carrying the given identifier, if any.
pub open spec fn spec_find_id(s: Seq<Option<GamepadView>>, id: GamepadId) -> Option<int>
    decreases s.len(),
{
    if s.len() == 0 {
        None
    } else if spec_slot_has_id(s[0], id) {
        Some(0)
    } else {
        match spec_find_id(s.drop_first(), id) {
            Some(i) => Some(i + 1),
            None => None,
        }
    }
}

/// The first free slot index, if any.
pub open spec fn spec_first_free(s: Seq<Option<GamepadView>>) -> Option<int>
    decreases s.len(),
{
    if s.len() == 0 {
        None
    } else if s[0] is None {
        Some(0)
    } else {
        match spec_first_free(s.drop_first()) {
            Some(i) => Some(i + 1),
            None => None,
        }
    }
}

/// Where a new gamepad lands: the first free slot if one exists, a new
/// slot at the end otherwise.
pub open spec fn spec_insert_gamepad(s: Seq<Option<GamepadView>>, g: GamepadView) -> Seq<
    Option<GamepadView>,
> {
    match spec_first_free(s) {
        Some(i) => s.update(i, Some(g)),
        None => s.push(Some(g)),
    }
}

/// How one wire event changes the whole arena.
pub open spec fn spec_handle_message(
    s: Seq<Option<GamepadView>>,
    gamepad_id: GamepadId,
    event_type: u8,
    control: u8,
    value: u8,
) -> Seq<Option<GamepadView>> {
    match EventType::spec_from_code(event_type) {
        Some(EventType::ButtonChanged) | Some(EventType::AxisChanged) => match spec_find_id(
            s,
            gamepad_id,
        ) {
            None => spec_insert_gamepad(
                s,
                spec_apply_event(spec_new_gamepad(gamepad_id), event_type, control, value),
            ),
            Some(i) => match s[i] {
                Some(g) => s.update(i, Some(spec_apply_event(g, event_type, control, value))),
                None => s,
            },
        },
        Some(EventType::Connected) => match spec_find_id(s, gamepad_id) {
            None => spec_insert_gamepad(s, spec_new_gamepad(gamepad_id)),
            Some(_) => s,
        },
        Some(EventType::Disconnected) => match spec_find_id(s, gamepad_id) {
            Some(i) => s.update(i, None),
            None => s,
        },
        None => s,
    }
}

/// At most one live slot carries any given identifier.
pub open spec fn spec_ids_unique(s: Seq<Option<GamepadView>>) -> bool {
    forall|i: int, j: int, id: GamepadId|
        #![trigger spec_slot_has_id(s[i], id), spec_slot_has_id(s[j], id)]
        0 <= i < j < s.len() ==> !(spec_slot_has_id(s[i], id) && spec_slot_has_id(s[j], id))
}

/// What [`spec_find_id`] returns: the first index carrying the
/// identifier when one exists, and nothing exactly when no slot
/// carries it.
pub proof fn lemma_find_id_char(s: Seq<Option<GamepadView>>, id: GamepadId)
    ensures
        match spec_find_id(s, id) {
            Some(i) => 0 <= i < s.len() && spec_slot_has_id(s[i], id) && (forall|j: int|
                0 <= j < i ==> !spec_slot_has_id(#[trigger] s[j], id)),
            None => forall|j: int| 0 <= j < s.len() ==> !spec_slot_has_id(#[trigger] s[j], id),
        },
    decreases s.len(),
{
    if s.len() != 0 && !spec_slot_has_id(s[0], id) {
        let t = s.drop_first();
        lemma_find_id_char(t, id);
        assert(forall|j: int| 0 <= j < t.len() ==> #[trigger] t[j] == s[j + 1]);
        match spec_find_id(t, id) {
            Some(i) => {
                assert(spec_find_id(s, id) == Some(i + 1));
                assert(spec_slot_has_id(s[i + 1], id)) by {
                    assert(t[i] == s[i + 1]);
                }
                assert forall|j: int| 0 <= j < i + 1 implies !spec_slot_has_id(
                    #[trigger] s[j],
                    id,
                ) by {
                    if j > 0 {
                        assert(t[j - 1] == s[j]);
                        assert(!spec_slot_has_id(t[j - 1], id));
                    }
                }
            },
            None => {
                assert forall|j: int| 0 <= j < s.len() implies !spec_slot_has_id(
                    #[trigger] s[j],
                    id,
                ) by {
                    if j > 0 {
                        assert(t[j - 1] == s[j]);
                        assert(!spec_slot_has_id(t[j - 1], id));
                    }
                }
            },
        }
    }
}

/// The first index satisfying the search is what [`spec_find_id`]
/// returns.
pub proof fn lemma_find_id_at(s: Seq<Option<GamepadView>>, id: GamepadId, i: int)
    requires
        0 <= i < s.len(),
        spec_slot_has_id(s[i], id),
        forall|j: int| 0 <= j < i ==> !spec_slot_has_id(#[trigger] s[j], id),
    ensures
        spec_find_id(s, id) == Some(i),
{
    lemma_find_id_char(s, id);
    match spec_find_id(s, id) {
        Some(k) => {
            if k < i {
                assert(!spec_slot_has_id(s[k], id));
            }
            if i < k {
                assert(!spec_slot_has_id(s[i], id));
            }
        },
        None => {
            assert(!spec_slot_has_id(s[i], id));
        },
    }
}

/// What [`spec_first_free`] returns: the first free index when one
/// exists, and nothing exactly when every slot is live.
pub proof fn lemma_first_free_char(s: Seq<Option<GamepadView>>)
    ensures
        match spec_first_free(s) {
            Some(i) => 0 <= i < s.len() && s[i] is None && (forall|j: int|
                0 <= j < i ==> #[trigger] s[j] is Some),
            None => forall|j: int| 0 <= j < s.len() ==> #[trigger] s[j] is Some,
        },
    decreases s.len(),
{
    if s.len() != 0 && s[0] is Some {
        let t = s.drop_first();
        lemma_first_free_char(t);
        assert(forall|j: int| 0 <= j < t.len() ==> #[trigger] t[j] == s[j + 1]);
        match spec_first_free(t) {
            Some(i) => {
                assert(spec_first_free(s) == Some(i + 1));
                assert(s[i + 1] is None) by {
                    assert(t[i] == s[i + 1]);
                }
                assert forall|j: int| 0 <= j < i + 1 implies #[trigger] s[j] is Some by {
                    if j > 0 {
                        assert(t[j - 1] == s[j]);
                        assert(t[j - 1] is Some);
                    }
                }
            },
            None => {
                assert forall|j: int| 0 <= j < s.len() implies #[trigger] s[j] is Some by {
                    if j > 0 {
                        assert(t[j - 1] == s[j]);
                        assert(t[j - 1] is Some);
                    }
                }
            },
        }
    }
}

/// The first free index is what [`spec_first_free`] returns.
pub proof fn lemma_first_free_at(s: Seq<Option<GamepadView>>, i: int)
    requires
        0 <= i < s.len(),
        s[i] is None,
        forall|j: int| 0 <= j < i ==> #[trigger] s[j] is Some,
    ensures
        spec_first_free(s) == Some(i),
{
    lemma_first_free_char(s);
    match spec_first_free(s) {
        Some(k) => {
            if k < i {
                assert(s[k] is Some);
            }
            if i < k {
                assert(s[i] is Some);
            }
        },
        None => {
            assert(s[i] is Some);
        },
    }
}

/// Aggregating any wire event keeps identifiers unique: if at most one
/// live slot carried each identifier before an event, the same holds
/// after it.
pub proof fn lemma_handle_preserves_unique(
    s: Seq<Option<GamepadView>>,
    gamepad_id: GamepadId,
    event_type: u8,
    control: u8,
    value: u8,
)
    requires
        spec_ids_unique(s),
    ensures
        spec_ids_unique(spec_handle_message(s, gamepad_id, event_type, control, value)),
{
    let s2 = spec_handle_message(s, gamepad_id, event_type, control, value);
    lemma_find_id_char(s, gamepad_id);
    lemma_first_free_char(s);
    assert forall|i: int, j: int, id: GamepadId|
        #![trigger spec_slot_has_id(s2[i], id), spec_slot_has_id(s2[j], id)]
        0 <= i < j < s2.len() implies !(spec_slot_has_id(s2[i], id) && spec_slot_has_id(
        s2[j],
        id,
    )) by {
        if spec_slot_has_id(s2[i], id) && spec_slot_has_id(s2[j], id) {
            match EventType::spec_from_code(event_type) {
                Some(EventType::ButtonChanged) | Some(EventType::AxisChanged)
                | Some(EventType::Connected) => {
                    match spec_find_id(s, gamepad_id) {
                        None => {
                            // A fresh slot with the unseen identifier was stored; every
                            // other slot is unchanged, and none of them carries the
                            // unseen identifier.
                            let stored: int = match spec_first_free(s) {
                                Some(f) => f,
                                None => s.len() as int,
                            };
                            if i != stored && j != stored {
                                assert(s2[i] == s[i] && s2[j] == s[j]);
                                assert(!(spec_slot_has_id(s[i], id) && spec_slot_has_id(
                                    s[j],
                                    id,
                                )));
                            } else {
                                let other: int = if i == stored {
                                    j
                                } else {
                                    i
                                };
                                assert(id == gamepad_id);
                                assert(s2[other] == s[other]);
                                assert(!spec_slot_has_id(s[other], gamepad_id));
                            }
                        },
                        Some(k) => {
                            // The stores of slot `k` changed but its identifier did not:
                            // every slot carries the same identifier as before.
                            assert(forall|x: int, xid: GamepadId|
                                #![trigger spec_slot_has_id(s2[x], xid)]
                                #![trigger spec_slot_has_id(s[x], xid)]
                                0 <= x < s.len() ==> (spec_slot_has_id(s2[x], xid)
                                    == spec_slot_has_id(s[x], xid)));
                            assert(!(spec_slot_has_id(s[i], id) && spec_slot_has_id(s[j], id)));
                        },
                    }
                },
                Some(EventType::Disconnected) => {
                    // A slot was freed; the live slots are a subset of what they were.
                    assert(s2[i] == s[i] || s2[i] is None);
                    assert(s2[j] == s[j] || s2[j] is None);
                    assert(!(spec_slot_has_id(s[i], id) && spec_slot_has_id(s[j], id)));
                },
                None => {
                    assert(!(spec_slot_has_id(s[i], id) && spec_slot_has_id(s[j], id)));
                },
            }
        }
    }
}

/// A button or axis event for an unseen identifier creates a live slot
/// for it: at the first free index when one exists, in which case the
/// arena does not grow, and at a new slot at the end otherwise.
pub proof fn lemma_unseen_event_creates_slot(
    s: Seq<Option<GamepadView>>,
    gamepad_id: GamepadId,
    event_type: u8,
    control: u8,
    value: u8,
)
    requires
        spec_find_id(s, gamepad_id) is None,
        event_type == EventType::ButtonChanged.spec_code() || event_type
            == EventType::AxisChanged.spec_code(),
    ensures
        ({
            let s2 = spec_handle_message(s, gamepad_id, event_type, control, value);
            match spec_first_free(s) {
                Some(i) => s2.len() == s.len() && spec_find_id(s2, gamepad_id) == Some(i),
                None => s2.len() == s.len() + 1 && spec_find_id(s2, gamepad_id) == Some(
                    s.len() as int,
                ),
            }
        }),
{
    let s2 = spec_handle_message(s, gamepad_id, event_type, control, value);
    let stored = spec_apply_event(spec_new_gamepad(gamepad_id), event_type, control, value);
    assert(stored.gamepad_id == gamepad_id);
    lemma_find_id_char(s, gamepad_id);
    lemma_first_free_char(s);
    match spec_first_free(s) {
        Some(i) => {
            assert(s2 == s.update(i, Some(stored)));
            assert(spec_slot_has_id(s2[i], gamepad_id));
            assert forall|j: int| 0 <= j < i implies !spec_slot_has_id(
                #[trigger] s2[j],
                gamepad_id,
            ) by {
                assert(s2[j] == s[j]);
            }
            lemma_find_id_at(s2, gamepad_id, i);
        },
        None => {
            assert(s2 == s.push(Some(stored)));
            assert(spec_slot_has_id(s2[s.len() as int], gamepad_id));
            assert forall|j: int| 0 <= j < s.len() implies !spec_slot_has_id(
                #[trigger] s2[j],
                gamepad_id,
            ) by {
                assert(s2[j] == s[j]);
            }
            lemma_find_id_at(s2, gamepad_id, s.len() as int);
        },
    }
}

/// A disconnect event frees exactly the slot of its identifier: that
/// slot becomes free, no slot carries the identifier any more, and the
/// next new identifier will land at or before the freed index.
pub proof fn lemma_disconnect_frees_slot(
    s: Seq<Option<GamepadView>>,
    gamepad_id: GamepadId,
    control: u8,
    value: u8,
)
    requires
        spec_ids_unique(s),
        spec_find_id(s, gamepad_id) is Some,
    ensures
        ({
            let i = spec_find_id(s, gamepad_id)->Some_0;
            let s2 = spec_handle_message(
                s,
                gamepad_id,
                EventType::Disconnected.spec_code(),
                control,
                value,
            );
            &&& s2 == s.update(i, None)
            &&& spec_find_id(s2, gamepad_id) is None
            &&& spec_first_free(s2) is Some
            &&& spec_first_free(s2)->Some_0 <= i
        }),
{
    let i = spec_find_id(s, gamepad_id)->Some_0;
    let s2 = spec_handle_message(s, gamepad_id, EventType::Disconnected.spec_code(), control, value);
    lemma_find_id_char(s, gamepad_id);
    assert(s2 == s.update(i, None));
    assert forall|j: int| 0 <= j < s2.len() implies !spec_slot_has_id(
        #[trigger] s2[j],
        gamepad_id,
    ) by {
        if j != i && spec_slot_has_id(s2[j], gamepad_id) {
            assert(s2[j] == s[j]);
            if j < i {
                assert(!(spec_slot_has_id(s[j], gamepad_id) && spec_slot_has_id(s[i], gamepad_id)));
            } else {
                assert(!(spec_slot_has_id(s[i], gamepad_id) && spec_slot_has_id(s[j], gamepad_id)));
            }
        }
    }
    lemma_find_id_char(s2, gamepad_id);
    if spec_find_id(s2, gamepad_id) is Some {
        let k = spec_find_id(s2, gamepad_id)->Some_0;
        assert(!spec_slot_has_id(s2[k], gamepad_id));
    }
    lemma_first_free_char(s2);
    match spec_first_free(s2) {
        Some(k) => {
            if k > i {
                assert(s2[i] is Some);
            }
        },
        None => {
            assert(s2[i] is Some);
        },
    }
}

/// Manages gamepad devices, providing methods to access and handle
/// gamepad input events.
#[derive(Debug)]
pub struct GamepadManager {
    gamepads: Vec<Option<GamepadData>>,
}

/// The mathematical content of one arena slot.
pub open spec fn spec_slot_view(o: Option<GamepadData>) -> Option<GamepadView> {
    match o {
        Some(g) => Some(g@),
        None => None,
    }
}

impl View for GamepadManager {
    type V = Seq<Option<GamepadView>>;

    closed spec fn view(&self) -> Seq<Option<GamepadView>> {
        self.gamepads@.map_values(|o: Option<GamepadData>| spec_slot_view(o))
    }
}

/// Represents a gamepad index: which of the operator's controllers a
/// subsystem wants to read.
#[derive(Debug, Clone, Copy, PartialEq, Eq, Structural)]
pub enum AssociatedGamepad {
    Primary,
    Secondary,
}

impl AssociatedGamepad {
    /// The arena index this controller association reads.
    pub open spec fn spec_index(self) -> int {
        match self {
            AssociatedGamepad::Primary => 0,
            AssociatedGamepad::Secondary => 1,
        }
    }

    /// The arena index this controller association reads.
    pub fn index(self) -> (r: usize)
        ensures
            r == self.spec_index(),
    {
        match self {
            AssociatedGamepad::Primary => 0,
            AssociatedGamepad::Secondary => 1,
        }
    }
}

impl GamepadManager {
    /// Creates an empty arena.
    pub fn new() -> (r: GamepadManager)
        ensures
            r@ == Seq::<Option<GamepadView>>::empty(),
    {
        let r = GamepadManager { gamepads: Vec::new() };
        proof {
            assert(r@ =~= Seq::<Option<GamepadView>>::empty());
        }
        r
    }

    /// Returns the gamepad slot associated with the given controller, if
    /// that slot exists and is live.
    pub fn get(&self, associated_gamepad: AssociatedGamepad) -> (r: Option<&GamepadData>)
        ensures
            match r {
                Some(g) => associated_gamepad.spec_index() < self@.len() && self@[
                    associated_gamepad.spec_index()
                ] == Some(g@),
                None => associated_gamepad.spec_index() >= self@.len() || self@[
                    associated_gamepad.spec_index()
                ] is None,
            },
    {
        let index = associated_gamepad.index();
        if index < self.gamepads.len() {
            match &self.gamepads[index] {
                Some(gamepad) => Some(gamepad),
                None => None,
            }
        } else {
            None
        }
    }

    /// The first slot index carrying the given identifier, if any.
    fn index_from_id(&self, id: GamepadId) -> (r: Option<usize>)
        ensures
            match r {
                Some(i) => spec_find_id(self@, id) == Some(i as int),
                None => spec_find_id(self@, id) is None,
            },
    {
        let mut i: usize = 0;
        while i < self.gamepads.len()
            invariant
                i <= self.gamepads.len(),
                self@.len() == self.gamepads.len(),
                forall|j: int| 0 <= j < i ==> !spec_slot_has_id(#[trigger] self@[j], id),
            decreases self.gamepads.len() - i,
        {
            let found = match &self.gamepads[i] {
                Some(g) => g.gamepad_id == id,
                None => false,
            };
            if found {
                proof {
                    lemma_find_id_at(self@, id, i as int);
                }
                return Some(i);
            }
            i = i + 1;
        }
        proof {
            lemma_find_id_char(self@, id);
            if spec_find_id(self@, id) is Some {
                let k = spec_find_id(self@, id)->Some_0;
                assert(!spec_slot_has_id(self@[k], id));
            }
        }
        None
    }

    /// The first free slot index, if any.
    fn first_free_index(&self) -> (r: Option<usize>)
        ensures
            match r {
                Some(i) => spec_first_free(self@) == Some(i as int) && i < self@.len(),
                None => spec_first_free(self@) is None,
            },
    {
        let mut i: usize = 0;
        while i < self.gamepads.len()
            invariant
                i <= self.gamepads.len(),
                self@.len() == self.gamepads.len(),
                forall|j: int| 0 <= j < i ==> #[trigger] self@[j] is Some,
            decreases self.gamepads.len() - i,
        {
            let free = match &self.gamepads[i] {
                Some(_) => false,
                None => true,
            };
            if free {
                proof {
                    lemma_first_free_at(self@, i as int);
                }
                return Some(i);
            }
            i = i + 1;
        }
        proof {
            lemma_first_free_char(self@);
            if spec_first_free(self@) is Some {
                let k = spec_first_free(self@)->Some_0;
                assert(self@[k] is Some);
            }
        }
        None
    }

    /// Replaces the slot at the given index.
    fn set_item(&mut self, index: usize, item: Option<GamepadData>)
        requires
            index < old(self)@.len(),
        ensures
            final(self)@ == old(self)@.update(index as int, spec_slot_view(item)),
    {
        let slot: &mut Option<GamepadData> = &mut self.gamepads[index];
        *slot = item;
        proof {
            assert(self@ =~= old(self)@.update(index as int, spec_slot_view(item)));
        }
    }

    /// Stores a newly seen gamepad in the first free slot, growing the
    /// arena only when every slot is live.
    fn insert_gamepad(&mut self, gamepad: GamepadData)
        ensures
            final(self)@ == spec_insert_gamepad(old(self)@, gamepad@),
    {
        let ghost g = gamepad@;
        match self.first_free_index() {
            Some(index) => {
                self.set_item(index, Some(gamepad));
            },
            None => {
                self.gamepads.push(Some(gamepad));
                proof {
                    assert(self@ =~= old(self)@.push(Some(g)));
                }
            },
        }
    }

    /// Aggregates one wire event into the arena.
    pub fn handle_cockpit_message(&mut self, message: CockpitToLinkage)
        ensures
            ({
                match message {
                    CockpitToLinkage::GamepadInputEvent { gamepad_id, event_type, control, value } =>
                        final(self)@ == spec_handle_message(
                            old(self)@,
                            gamepad_id,
                            event_type,
                            control,
                            value,
                        ),
                }
            }),
    {
        match message {
            CockpitToLinkage::GamepadInputEvent { gamepad_id, event_type, control, value } => {
                match EventType::from_code(event_type) {
                    Some(EventType::ButtonChanged) | Some(EventType::AxisChanged) => {
                        match self.index_from_id(gamepad_id) {
                            None => {
                                let mut gamepad = GamepadData::new(gamepad_id);
                                gamepad.handle_cockpit_message(event_type, control, value);
                                self.insert_gamepad(gamepad);
                            },
                            Some(index) => {
                                let ghost before = self@;
                                proof {
                                    lemma_find_id_char(before, gamepad_id);
                                    assert(before.len() == self.gamepads@.len());
                                    assert(before[index as int] is Some);
                                }
                                let slot: &mut Option<GamepadData> = &mut self.gamepads[index];
                                match slot {
                                    Some(gamepad) => {
                                        gamepad.handle_cockpit_message(event_type, control, value);
                                    },
                                    None => {},
                                }
                                proof {
                                    assert(self@ =~= spec_handle_message(
                                        before,
                                        gamepad_id,
                                        event_type,
                                        control,
                                        value,
                                    ));
                                }
                            },
                        }
                    },
                    Some(EventType::Connected) => {
                        match self.index_from_id(gamepad_id) {
                            None => {
                                let gamepad = GamepadData::new(gamepad_id);
                                self.insert_gamepad(gamepad);
                            },
                            Some(_) => {},
                        }
                    },
                    Some(EventType::Disconnected) => {
                        match self.index_from_id(gamepad_id) {
                            Some(index) => {
                                proof {
                                    lemma_find_id_char(self@, gamepad_id);
                                }
                                self.set_item(index, None);
                            },
                            None => {},
                        }
                    },
                    None => {},
                }
            },
        }
    }
}

} // verus!
