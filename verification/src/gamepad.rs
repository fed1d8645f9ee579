use vstd::prelude::*;

use crate::bindings::{Button, Stick};
use crate::input::InputEvent;
use crate::table::NamedTable;

verus! {

/// The state of one connected gamepad at polling time: its buttons and axes in SDL's
/// numbering. Buttons past the end read as up, axes past the end as centred.
pub struct PadInput {
    pub buttons: Vec<bool>,
    pub axes: Vec<i16>,
}

pub open spec fn pad_button(p: PadInput, i: u32) -> bool {
    i < p.buttons@.len() && p.buttons@[i as int]
}

pub open spec fn pad_axis(p: PadInput, i: u32) -> i16 {
    if i < p.axes@.len() {
        p.axes@[i as int]
    } else {
        0
    }
}

// SDL's gamepad axes.
pub const AXIS_LEFT_X: u32 = 0;
pub const AXIS_LEFT_Y: u32 = 1;
pub const AXIS_RIGHT_X: u32 = 2;
pub const AXIS_RIGHT_Y: u32 = 3;
pub const AXIS_LEFT_TRIGGER: u32 = 4;
pub const AXIS_RIGHT_TRIGGER: u32 = 5;

/// Where SDL reports a button of the game's numbering: a digital button or an analog axis.
#[derive(Clone, Copy, Debug, PartialEq, Eq, Structural)]
pub enum SdlInput {
    Button(u32),
    Axis(u32),
}

/// The SDL input of each button: the triggers are axes, `Misc2` to `Misc5` are SDL's
/// buttons 21 to 24, every other button has SDL's number equal to its own.
pub open spec fn spec_sdl_input(b: Button) -> SdlInput {
    match b {
        Button::RightTrigger => SdlInput::Axis(AXIS_RIGHT_TRIGGER),
        Button::LeftTrigger => SdlInput::Axis(AXIS_LEFT_TRIGGER),
        Button::Misc2 => SdlInput::Button(21),
        Button::Misc3 => SdlInput::Button(22),
        Button::Misc4 => SdlInput::Button(23),
        Button::Misc5 => SdlInput::Button(24),
        _ => SdlInput::Button(crate::bindings::button_code(b) as u32),
    }
}

pub fn sdl_input(b: Button) -> (r: SdlInput)
    ensures
        r == spec_sdl_input(b),
{
    match b {
        Button::RightTrigger => SdlInput::Axis(AXIS_RIGHT_TRIGGER),
        Button::LeftTrigger => SdlInput::Axis(AXIS_LEFT_TRIGGER),
        Button::Misc2 => SdlInput::Button(21),
        Button::Misc3 => SdlInput::Button(22),
        Button::Misc4 => SdlInput::Button(23),
        Button::Misc5 => SdlInput::Button(24),
        _ => SdlInput::Button(b.to_i32() as u32),
    }
}

/// Every button is read from an SDL input of its own: the left and the right trigger from
/// the left and the right trigger axis, every other button from an SDL button, and no two
/// buttons from the same input.
pub proof fn lemma_sdl_input_distinct(b1: Button, b2: Button)
    ensures
        spec_sdl_input(b1) == spec_sdl_input(b2) ==> b1 == b2,
        b1 == Button::LeftTrigger ==> spec_sdl_input(b1) == SdlInput::Axis(AXIS_LEFT_TRIGGER),
        b1 == Button::RightTrigger ==> spec_sdl_input(b1) == SdlInput::Axis(AXIS_RIGHT_TRIGGER),
        b1 != Button::LeftTrigger && b1 != Button::RightTrigger ==> spec_sdl_input(b1) is Button,
{
    crate::bindings::lemma_codes_roundtrip(b1, crate::bindings::Stick::Left);
    crate::bindings::lemma_codes_roundtrip(b2, crate::bindings::Stick::Left);
}

/// Whether `input` is down on one pad, and with what pressure: a digital button reads
/// full or nothing, an axis reads its value and counts as down past half its range.
pub open spec fn spec_read_input(p: PadInput, input: SdlInput) -> (bool, i16) {
    match input {
        SdlInput::Button(v) => if pad_button(p, v) {
            (true, i16::MAX)
        } else {
            (false, 0)
        },
        SdlInput::Axis(v) => {
            let pressure = pad_axis(p, v);
            (pressure > i16::MAX / 2, pressure)
        },
    }
}

/// Over all pads: down where any pad has it down, with the greatest pressure, starting
/// from up and zero.
pub open spec fn spec_read_all(pads: Seq<PadInput>, input: SdlInput) -> (bool, i16)
    decreases pads.len(),
{
    if pads.len() == 0 {
        (false, 0)
    } else {
        let (d, p) = spec_read_all(pads.drop_last(), input);
        let (d2, p2) = spec_read_input(pads.last(), input);
        (d || d2, if p >= p2 {
            p
        } else {
            p2
        })
    }
}

/// The x and y axes of a stick on one pad.
pub open spec fn spec_read_stick(p: PadInput, stick: Stick) -> (i16, i16) {
    match stick {
        Stick::Left => (pad_axis(p, AXIS_LEFT_X), pad_axis(p, AXIS_LEFT_Y)),
        Stick::Right => (pad_axis(p, AXIS_RIGHT_X), pad_axis(p, AXIS_RIGHT_Y)),
    }
}

pub open spec fn mag_sq(v: (i16, i16)) -> int {
    v.0 * v.0 + v.1 * v.1
}

/// Over all pads: the first stick position with the greatest magnitude, or the centre.
pub open spec fn spec_read_stick_all(pads: Seq<PadInput>, stick: Stick) -> (i16, i16)
    decreases pads.len(),
{
    if pads.len() == 0 {
        (0, 0)
    } else {
        let best = spec_read_stick_all(pads.drop_last(), stick);
        let v = spec_read_stick(pads.last(), stick);
        if mag_sq(best) < mag_sq(v) {
            v
        } else {
            best
        }
    }
}

/// Whether the stick's squared magnitude fits an `i32` on every pad; past that the
/// magnitude computation overflows.
pub open spec fn sticks_fit(pads: Seq<PadInput>, stick: Stick) -> bool {
    forall|i: int| 0 <= i < pads.len() ==> mag_sq(spec_read_stick(#[trigger] pads[i], stick)) <= i32::MAX
}

/// A rumble to send: to the pad at `pad`, with the low and high frequency strengths.
#[derive(Clone, Copy, Debug, PartialEq, Eq, Structural)]
pub struct RumbleCommand {
    pub pad: usize,
    pub low: u16,
    pub high: u16,
}

/// How many slots hold the pad at `idx`.
pub open spec fn slot_count(slots: Seq<Option<usize>>, idx: usize) -> nat
    decreases slots.len(),
{
    if slots.len() == 0 {
        0
    } else {
        slot_count(slots.drop_last(), idx) + if slots.last() == Some(idx) {
            1nat
        } else {
            0nat
        }
    }
}

/// The first position of `id` in `ids`.
pub open spec fn find_id(ids: Seq<u32>, id: u32) -> Option<int>
    decreases ids.len(),
{
    if ids.len() == 0 {
        None
    } else {
        match find_id(ids.drop_last(), id) {
            Some(i) => Some(i),
            None => if ids.last() == id {
                Some(ids.len() - 1)
            } else {
                None
            },
        }
    }
}

/// `find_id` gives the first position that holds `id`, or nothing where none does.
pub proof fn lemma_find_id(ids: Seq<u32>, id: u32)
    ensures
        find_id(ids, id) matches Some(k) ==> 0 <= k < ids.len() && ids[k] == id && forall|j: int|
            0 <= j < k ==> ids[j] != id,
        find_id(ids, id) is None ==> forall|j: int| 0 <= j < ids.len() ==> ids[j] != id,
    decreases ids.len(),
{
    if ids.len() > 0 {
        let d = ids.drop_last();
        lemma_find_id(d, id);
        assert forall|j: int| 0 <= j < d.len() implies d[j] == ids[j] by {}
    }
}

/// Gamepad bindings, the connected gamepads and which of them each player uses.
pub struct GamepadManager {
    max_players: usize,
    player_count: usize,
    player_slots: Vec<Option<usize>>,
    button_bindings: NamedTable<Button>,
    stick_bindings: NamedTable<Stick>,
    gamepad_ids: Vec<u32>,
    rumble_enabled: bool,
}

impl GamepadManager {
    pub closed spec fn max_players(self) -> usize {
        self.max_players
    }

    pub closed spec fn player_count(self) -> usize {
        self.player_count
    }

    /// For each player, the position of the pad they use, if any.
    pub closed spec fn slots(self) -> Seq<Option<usize>> {
        self.player_slots@
    }

    pub closed spec fn buttons(self) -> Map<Seq<char>, Button> {
        self.button_bindings.map()
    }

    pub closed spec fn sticks(self) -> Map<Seq<char>, Stick> {
        self.stick_bindings.map()
    }

    /// The ids of the connected pads, in the order they were connected.
    pub closed spec fn ids(self) -> Seq<u32> {
        self.gamepad_ids@
    }

    pub closed spec fn rumble_enabled(self) -> bool {
        self.rumble_enabled
    }


    /// What polling the button action `name` for `player` gives; see `poll_button_binding`.
    pub open spec fn spec_poll_button(self, player: usize, name: Seq<char>, pads: Seq<PadInput>) -> (bool, i16) {
        if !self.buttons().contains_key(name) {
            (false, 0)
        } else if self.max_players() == 1 {
            spec_read_all(pads, spec_sdl_input(self.buttons()[name]))
        } else {
            match self.slots()[player as int] {
                Some(idx) => spec_read_input(pads[idx as int], spec_sdl_input(self.buttons()[name])),
                None => (false, 0),
            }
        }
    }

    /// What polling the stick action `name` for `player` gives; see `poll_stick_binding`.
    pub open spec fn spec_poll_stick(self, player: usize, name: Seq<char>, pads: Seq<PadInput>) -> (i16, i16) {
        if !self.sticks().contains_key(name) {
            (0i16, 0i16)
        } else if self.max_players() == 1 {
            spec_read_stick_all(pads, self.sticks()[name])
        } else {
            match self.slots()[player as int] {
                Some(idx) => spec_read_stick(pads[idx as int], self.sticks()[name]),
                None => (0i16, 0i16),
            }
        }
    }

    /// Whether `player` can be polled against `pads`: the pads are those connected; with
    /// several players the player exists and its pad is among them; with one player no
    /// stick's magnitude overflows.
    pub open spec fn can_poll(self, player: usize, pads: Seq<PadInput>) -> bool {
        &&& self.wf()
        &&& pads.len() == self.ids().len()
        &&& self.max_players() != 1 ==> player < self.max_players() && (self.slots()[player as int] matches Some(idx) ==> idx < pads.len())
        &&& self.max_players() == 1 ==> sticks_fit(pads, Stick::Left) && sticks_fit(pads, Stick::Right)
    }

    pub closed spec fn wf(self) -> bool {
        &&& self.player_slots@.len() == self.max_players
        &&& self.button_bindings.wf()
        &&& self.stick_bindings.wf()
    }

    /// A manager for `max_players` players, with no bindings and no pads.
    pub fn new(max_players: usize) -> (r: Self)
        ensures
            r.wf(),
            r.max_players() == max_players,
            r.player_count() == 0,
            r.slots() == Seq::new(max_players as nat, |i: int| None::<usize>),
            r.buttons() == Map::<Seq<char>, Button>::empty(),
            r.sticks() == Map::<Seq<char>, Stick>::empty(),
            r.ids() == Seq::<u32>::empty(),
            r.rumble_enabled(),
    {
        let mut player_slots: Vec<Option<usize>> = Vec::new();
        let mut i: usize = 0;
        while i < max_players
            invariant
                i <= max_players,
                player_slots@ == Seq::new(i as nat, |j: int| None::<usize>),
            decreases max_players - i,
        {
            player_slots.push(None);
            i = i + 1;
            assert(player_slots@ =~= Seq::new(i as nat, |j: int| None::<usize>));
        }
        Self {
            max_players,
            player_count: 0,
            player_slots,
            button_bindings: NamedTable::new(),
            stick_bindings: NamedTable::new(),
            gamepad_ids: Vec::new(),
            rumble_enabled: true,
        }
    }

    /// Records a newly opened pad with SDL id `id`; it takes the last position.
    pub fn add_controller(&mut self, id: u32)
        requires
            old(self).wf(),
        ensures
            final(self).wf(),
            final(self).ids() == old(self).ids().push(id),
            final(self).slots() == old(self).slots(),
            final(self).player_count() == old(self).player_count(),
            final(self).max_players() == old(self).max_players(),
            final(self).buttons() == old(self).buttons(),
            final(self).sticks() == old(self).sticks(),
            final(self).rumble_enabled() == old(self).rumble_enabled(),
    {
        self.gamepad_ids.push(id);
    }

    fn find_pad(&self, id: u32) -> (r: Option<usize>)
        ensures
            match r {
                Some(i) => find_id(self.ids(), id) == Some(i as int),
                None => find_id(self.ids(), id) is None,
            },
    {
        let n = self.gamepad_ids.len();
        let mut i: usize = 0;
        while i < n
            invariant
                n == self.gamepad_ids@.len(),
                i <= n,
                forall|j: int| 0 <= j < i ==> self.gamepad_ids@[j] != id,
            decreases n - i,
        {
            if self.gamepad_ids[i] == id {
                proof {
                    lemma_find_id(self.gamepad_ids@, id);
                    if let Some(k) = find_id(self.gamepad_ids@, id) {
                        if k > i {
                            assert(self.gamepad_ids@[i as int] == id);
                        }
                    }
                }
                return Some(i);
            }
            i = i + 1;
        }
        proof {
            lemma_find_id(self.gamepad_ids@, id);
        }
        None
    }

    /// Forgets the pad with SDL id `id`: frees the player slots that use its position, one
    /// player less for each, and drops it from the list. Returns its former position.
    pub fn remove_controller(&mut self, id: u32) -> (r: Option<usize>)
        requires
            old(self).wf(),
            find_id(old(self).ids(), id) matches Some(i) ==> slot_count(old(self).slots(), i as usize)
                <= old(self).player_count(),
        ensures
            final(self).wf(),
            r == (match find_id(old(self).ids(), id) {
                Some(i) => Some(i as usize),
                None => None::<usize>,
            }),
            r is None ==> *final(self) == *old(self),
            r matches Some(i) ==> {
                &&& final(self).ids() == old(self).ids().remove(i as int)
                &&& final(self).slots() == old(self).slots().map_values(
                    |s: Option<usize>|
                        if s == Some(i) {
                            None
                        } else {
                            s
                        },
                )
                &&& final(self).player_count() == old(self).player_count() - slot_count(
                    old(self).slots(),
                    i,
                )
            },
            final(self).max_players() == old(self).max_players(),
            final(self).buttons() == old(self).buttons(),
            final(self).sticks() == old(self).sticks(),
            final(self).rumble_enabled() == old(self).rumble_enabled(),
    {
        let v = match self.find_pad(id) {
            Some(v) => v,
            None => return None,
        };
        proof {
            lemma_find_id(self.gamepad_ids@, id);
        }
        let ghost slots0 = self.player_slots@;
        let n = self.player_slots.len();
        let mut k: usize = 0;
        while k < n
            invariant
                n == slots0.len(),
                k <= n,
                self.player_slots@.len() == n,
                self.gamepad_ids@ == old(self).gamepad_ids@,
                self.max_players == old(self).max_players,
                self.button_bindings == old(self).button_bindings,
                self.stick_bindings == old(self).stick_bindings,
                self.rumble_enabled == old(self).rumble_enabled,
                slot_count(slots0, v) <= old(self).player_count,
                slots0 == old(self).player_slots@,
                self.player_count == old(self).player_count - slot_count(slots0.take(k as int), v),
                forall|j: int|
                    0 <= j < n ==> #[trigger] self.player_slots@[j] == if j < k && slots0[j] == Some(
                        v,
                    ) {
                        None
                    } else {
                        slots0[j]
                    },
            decreases n - k,
        {
            proof {
                assert(slots0.take(k + 1).drop_last() =~= slots0.take(k as int));
                lemma_slot_count_prefix(slots0, v, k as int + 1);
            }
            if self.player_slots[k] == Some(v) {
                self.player_slots.set(k, None);
                self.player_count = self.player_count - 1;
            }
            k = k + 1;
        }
        self.gamepad_ids.remove(v);
        proof {
            assert(slots0.take(n as int) =~= slots0);
            assert(self.player_slots@ =~= slots0.map_values(
                |s: Option<usize>|
                    if s == Some(v) {
                        None
                    } else {
                        s
                    },
            ));
        }
        Some(v)
    }

    pub fn add_button_binding(&mut self, name: &str, button: Button)
        requires
            old(self).wf(),
        ensures
            final(self).wf(),
            final(self).buttons() == old(self).buttons().insert(name@, button),
            final(self).sticks() == old(self).sticks(),
            final(self).ids() == old(self).ids(),
            final(self).slots() == old(self).slots(),
            final(self).player_count() == old(self).player_count(),
            final(self).max_players() == old(self).max_players(),
            final(self).rumble_enabled() == old(self).rumble_enabled(),
    {
        self.button_bindings.insert(name, button);
    }

    pub fn add_stick_binding(&mut self, name: &str, stick: Stick)
        requires
            old(self).wf(),
        ensures
            final(self).wf(),
            final(self).sticks() == old(self).sticks().insert(name@, stick),
            final(self).buttons() == old(self).buttons(),
            final(self).ids() == old(self).ids(),
            final(self).slots() == old(self).slots(),
            final(self).player_count() == old(self).player_count(),
            final(self).max_players() == old(self).max_players(),
            final(self).rumble_enabled() == old(self).rumble_enabled(),
    {
        self.stick_bindings.insert(name, stick);
    }

    /// The rumble to send to the pad of `player`: none where rumble is off or the player
    /// has no pad.
    pub fn set_rumble(&self, player: usize, high: u16, low: u16) -> (r: Option<RumbleCommand>)
        requires
            self.wf(),
            player < self.max_players(),
        ensures
            r == (if !self.rumble_enabled() {
                None
            } else {
                match self.slots()[player as int] {
                    Some(idx) => Some(RumbleCommand { pad: idx, low, high }),
                    None => None,
                }
            }),
    {
        if !self.rumble_enabled {
            return None;
        }
        match self.player_slots[player] {
            Some(idx) => Some(RumbleCommand { pad: idx, low, high }),
            None => None,
        }
    }

    /// Turns rumble on or off; turning it off first stops the rumble of `player`.
    pub fn enable_rumble(&mut self, player: usize, enabled: bool) -> (r: Option<RumbleCommand>)
        requires
            old(self).wf(),
            player < old(self).max_players(),
        ensures
            final(self).wf(),
            final(self).rumble_enabled() == enabled,
            r == (if !enabled && old(self).rumble_enabled() {
                match old(self).slots()[player as int] {
                    Some(idx) => Some(RumbleCommand { pad: idx, low: 0, high: 0 }),
                    None => None,
                }
            } else {
                None
            }),
            final(self).slots() == old(self).slots(),
            final(self).ids() == old(self).ids(),
            final(self).player_count() == old(self).player_count(),
            final(self).max_players() == old(self).max_players(),
            final(self).buttons() == old(self).buttons(),
            final(self).sticks() == old(self).sticks(),
    {
        let mut r = None;
        if !enabled {
            r = self.set_rumble(player, 0, 0);
        }
        self.rumble_enabled = enabled;
        r
    }

    /// Makes the pad at `idx` the one of the single player; a change first stops the
    /// rumble of the pad that was active.
    fn set_active(&mut self, idx: usize) -> (r: Option<RumbleCommand>)
        requires
            old(self).wf(),
            old(self).max_players() >= 1,
        ensures
            final(self).wf(),
            old(self).slots()[0] == Some(idx) ==> *final(self) == *old(self) && r is None,
            old(self).slots()[0] != Some(idx) ==> {
                &&& final(self).slots() == old(self).slots().update(0, Some(idx))
                &&& r == (if old(self).rumble_enabled() {
                    match old(self).slots()[0] {
                        Some(j) => Some(RumbleCommand { pad: j, low: 0, high: 0 }),
                        None => None,
                    }
                } else {
                    None
                })
                &&& final(self).ids() == old(self).ids()
                &&& final(self).player_count() == old(self).player_count()
                &&& final(self).max_players() == old(self).max_players()
                &&& final(self).buttons() == old(self).buttons()
                &&& final(self).sticks() == old(self).sticks()
                &&& final(self).rumble_enabled() == old(self).rumble_enabled()
            },
    {
        if self.player_slots[0] != Some(idx) {
            let r = self.set_rumble(0, 0, 0);
            self.player_slots.set(0, Some(idx));
            r
        } else {
            None
        }
    }

    /// Gives the pad at `idx` the first free player slot, unless all players are taken or
    /// the pad already has a slot.
    fn add_player(&mut self, idx: usize)
        requires
            old(self).wf(),
        ensures
            final(self).wf(),
            (old(self).player_count() == old(self).max_players() || old(self).slots().contains(
                Some(idx),
            ) || first_free(old(self).slots()) is None) ==> *final(self) == *old(self),
            !(old(self).player_count() == old(self).max_players() || old(self).slots().contains(
                Some(idx),
            )) && first_free(old(self).slots()) is Some ==> final(self).slots() == old(self).slots().update(first_free(old(self).slots())->0, Some(idx)) && final(self).player_count() == old(self).player_count() && final(self).ids() == old(self).ids()
                && final(self).buttons() == old(self).buttons() && final(self).sticks() == old(self).sticks() && final(self).max_players() == old(self).max_players()
                && final(self).rumble_enabled() == old(self).rumble_enabled(),
    {
        if self.player_count == self.max_players || slots_contain(&self.player_slots, Some(idx)) {
            return;
        }
        let n = self.player_slots.len();
        let mut i: usize = 0;
        while i < n
            invariant
                n == self.player_slots@.len(),
                i <= n,
                *self == *old(self),
                old(self).wf(),
                !(old(self).player_count() == old(self).max_players() || old(self).slots().contains(
                    Some(idx),
                )),
                forall|j: int| 0 <= j < i ==> self.player_slots@[j] is Some,
            decreases n - i,
        {
            if self.player_slots[i].is_none() {
                proof {
                    lemma_first_free(self.player_slots@);
                    if let Some(f) = first_free(self.player_slots@) {
                        if f < i {
                            assert(self.player_slots@[f] is Some);
                        }
                        if f > i {
                            assert(self.player_slots@[i as int] is None);
                        }
                    }
                }
                self.player_slots.set(i, Some(idx));
                return;
            }
            i = i + 1;
        }
        proof {
            lemma_first_free(self.player_slots@);
            if let Some(f) = first_free(self.player_slots@) {
                assert(self.player_slots@[f] is Some);
            }
        }
    }

    /// A button press on the pad with SDL id `which`: with one player that pad becomes the
    /// active one, else it joins as a player. Returns the rumble stop that the change asks.
    pub fn handle_button_down(&mut self, which: u32) -> (r: Option<RumbleCommand>)
        requires
            old(self).wf(),
        ensures
            final(self).wf(),
            button_down_effect(*old(self), *final(self), which, r),
            old(self).max_players() == 0 ==> *final(self) == *old(self) && r is None,
    {
        match self.find_pad(which) {
            Some(idx) => {
                if self.max_players == 1 {
                    self.set_active(idx)
                } else {
                    self.add_player(idx);
                    None
                }
            },
            None => None,
        }
    }

    /// Whether the button bound to `name` is down for `player`, and how hard. With one
    /// player every pad counts, else only the player's own; an unknown name reads as up.
    pub fn poll_button_binding(&self, player: usize, name: &str, pads: &Vec<PadInput>) -> (r: (
        bool,
        i16,
    ))
        requires
            self.wf(),
            pads@.len() == self.ids().len(),
            self.max_players() != 1 && self.buttons().contains_key(name@) ==> player
                < self.max_players() && (self.slots()[player as int] matches Some(idx) ==> idx
                < pads@.len()),
        ensures
            r == self.spec_poll_button(player, name@, pads@),
    {
        let binding = match self.button_bindings.get(name) {
            Some(v) => *v,
            None => return (false, 0),
        };
        let input = sdl_input(binding);
        if self.max_players == 1 {
            read_all(pads, input)
        } else {
            match self.player_slots[player] {
                Some(idx) => read_input(&pads[idx], input),
                None => (false, 0),
            }
        }
    }

    /// The position of the stick bound to `name` for `player`. With one player the pad
    /// whose stick is pushed furthest wins, else only the player's own counts; an unknown
    /// name reads as centred.
    pub fn poll_stick_binding(&self, player: usize, name: &str, pads: &Vec<PadInput>) -> (r: (
        i16,
        i16,
    ))
        requires
            self.wf(),
            pads@.len() == self.ids().len(),
            self.max_players() == 1 && self.sticks().contains_key(name@) ==> sticks_fit(
                pads@,
                self.sticks()[name@],
            ),
            self.max_players() != 1 && self.sticks().contains_key(name@) ==> player
                < self.max_players() && (self.slots()[player as int] matches Some(idx) ==> idx
                < pads@.len()),
        ensures
            r == self.spec_poll_stick(player, name@, pads@),
    {
        let binding = match self.stick_bindings.get(name) {
            Some(v) => *v,
            None => return (0, 0),
        };
        if self.max_players == 1 {
            read_stick_all(pads, binding)
        } else {
            match self.player_slots[player] {
                Some(idx) => read_stick(&pads[idx], binding),
                None => (0, 0),
            }
        }
    }
}

fn slots_contain(slots: &Vec<Option<usize>>, v: Option<usize>) -> (r: bool)
    ensures
        r == slots@.contains(v),
{
    let n = slots.len();
    let mut i: usize = 0;
    while i < n
        invariant
            n == slots@.len(),
            i <= n,
            forall|j: int| 0 <= j < i ==> slots@[j] != v,
        decreases n - i,
    {
        if slots[i] == v {
            assert(slots@[i as int] == v);
            return true;
        }
        i = i + 1;
    }
    false
}

/// The first free player slot.
pub open spec fn first_free(s: Seq<Option<usize>>) -> Option<int>
    decreases s.len(),
{
    if s.len() == 0 {
        None
    } else {
        match first_free(s.drop_last()) {
            Some(i) => Some(i),
            None => if s.last() is None {
                Some(s.len() - 1)
            } else {
                None
            },
        }
    }
}

pub proof fn lemma_first_free(s: Seq<Option<usize>>)
    ensures
        first_free(s) matches Some(k) ==> 0 <= k < s.len() && s[k] is None && forall|j: int|
            0 <= j < k ==> s[j] is Some,
        first_free(s) is None ==> forall|j: int| 0 <= j < s.len() ==> s[j] is Some,
    decreases s.len(),
{
    if s.len() > 0 {
        let d = s.drop_last();
        lemma_first_free(d);
        assert forall|j: int| 0 <= j < d.len() implies d[j] == s[j] by {}
    }
}

fn pad_button_exec(p: &PadInput, i: u32) -> (r: bool)
    ensures
        r == pad_button(*p, i),
{
    let n = p.buttons.len();
    let k = i as usize;
    if k < n {
        p.buttons[k]
    } else {
        false
    }
}

fn pad_axis_exec(p: &PadInput, i: u32) -> (r: i16)
    ensures
        r == pad_axis(*p, i),
{
    let n = p.axes.len();
    let k = i as usize;
    if k < n {
        p.axes[k]
    } else {
        0
    }
}

fn read_input(p: &PadInput, input: SdlInput) -> (r: (bool, i16))
    ensures
        r == spec_read_input(*p, input),
{
    match input {
        SdlInput::Button(v) => {
            if pad_button_exec(p, v) {
                (true, i16::MAX)
            } else {
                (false, 0)
            }
        },
        SdlInput::Axis(v) => {
            let pressure = pad_axis_exec(p, v);
            (pressure > (i16::MAX / 2), pressure)
        },
    }
}

fn read_all(pads: &Vec<PadInput>, input: SdlInput) -> (r: (bool, i16))
    ensures
        r == spec_read_all(pads@, input),
{
    let mut result: (bool, i16) = (false, 0);
    let n = pads.len();
    proof {
        assert(pads@.take(0) =~= Seq::<PadInput>::empty());
    }
    let mut i: usize = 0;
    while i < n
        invariant
            n == pads@.len(),
            i <= n,
            result == spec_read_all(pads@.take(i as int), input),
        decreases n - i,
    {
        let (down, pressure) = read_input(&pads[i], input);
        proof {
            assert(pads@.take(i + 1).drop_last() =~= pads@.take(i as int));
        }
        result.0 = result.0 || down;
        result.1 = if result.1 >= pressure {
            result.1
        } else {
            pressure
        };
        i = i + 1;
    }
    proof {
        assert(pads@.take(n as int) =~= pads@);
    }
    result
}

fn read_stick(p: &PadInput, stick: Stick) -> (r: (i16, i16))
    ensures
        r == spec_read_stick(*p, stick),
{
    match stick {
        Stick::Left => (pad_axis_exec(p, AXIS_LEFT_X), pad_axis_exec(p, AXIS_LEFT_Y)),
        Stick::Right => (pad_axis_exec(p, AXIS_RIGHT_X), pad_axis_exec(p, AXIS_RIGHT_Y)),
    }
}

fn read_stick_all(pads: &Vec<PadInput>, stick: Stick) -> (r: (i16, i16))
    requires
        sticks_fit(pads@, stick),
    ensures
        r == spec_read_stick_all(pads@, stick),
{
    let mut result: (i16, i16) = (0, 0);
    let mut result_mag_sq: i32 = 0;
    let n = pads.len();
    proof {
        assert(pads@.take(0) =~= Seq::<PadInput>::empty());
        let (a, b) = result;
        assert(a * a + b * b == 0) by (nonlinear_arith)
            requires
                a == 0,
                b == 0,
        ;
    }
    let mut i: usize = 0;
    while i < n
        invariant
            n == pads@.len(),
            i <= n,
            sticks_fit(pads@, stick),
            result == spec_read_stick_all(pads@.take(i as int), stick),
            result_mag_sq as int == mag_sq(result),
        decreases n - i,
    {
        let (x, y) = read_stick(&pads[i], stick);
        proof {
            assert(pads@.take(i + 1).drop_last() =~= pads@.take(i as int));
            assert(mag_sq(spec_read_stick(pads@[i as int], stick)) <= i32::MAX);
            assert(0 <= x * x) by (nonlinear_arith);
            assert(0 <= y * y) by (nonlinear_arith);
            assert(x * x <= 32768 * 32768) by (nonlinear_arith)
                requires
                    -32768 <= x <= 32767,
            ;
            assert(y * y <= 32768 * 32768) by (nonlinear_arith)
                requires
                    -32768 <= y <= 32767,
            ;
        }
        let mag: i32 = (x as i32 * x as i32) + (y as i32 * y as i32);
        if result_mag_sq < mag {
            result = (x, y);
            result_mag_sq = mag;
        }
        i = i + 1;
    }
    proof {
        assert(pads@.take(n as int) =~= pads@);
    }
    result
}

proof fn lemma_slot_count_prefix(s: Seq<Option<usize>>, v: usize, k: int)
    requires
        0 < k <= s.len(),
    ensures
        slot_count(s.take(k), v) == slot_count(s.take(k - 1), v) + if s[k - 1] == Some(v) {
            1nat
        } else {
            0nat
        },
        slot_count(s.take(k), v) <= slot_count(s, v),
    decreases s.len() - k,
{
    assert(s.take(k).drop_last() =~= s.take(k - 1));
    if k < s.len() {
        lemma_slot_count_prefix(s, v, k + 1);
    } else {
        assert(s.take(k) =~= s);
    }
}


/// What a button press on the pad with SDL id `which` does; see
/// `GamepadManager::handle_button_down`.
pub open spec fn button_down_effect(
    a: GamepadManager,
    b: GamepadManager,
    which: u32,
    r: Option<RumbleCommand>,
) -> bool {
    &&& b.ids() == a.ids()
    &&& b.max_players() == a.max_players()
    &&& b.buttons() == a.buttons()
    &&& b.sticks() == a.sticks()
    &&& b.player_count() == a.player_count()
    &&& b.rumble_enabled() == a.rumble_enabled()
    &&& find_id(a.ids(), which) is None ==> b == a && r is None
    &&& find_id(a.ids(), which) is Some && a.max_players() == 1 ==> {
        let idx = find_id(a.ids(), which)->0;
        &&& a.slots()[0] == Some(idx as usize) ==> r is None && b == a
        &&& a.slots()[0] != Some(idx as usize) ==> b.slots() == a.slots().update(
            0,
            Some(idx as usize),
        ) && r == (if a.rumble_enabled() {
            match a.slots()[0] {
                Some(j) => Some(RumbleCommand { pad: j, low: 0, high: 0 }),
                None => None,
            }
        } else {
            None
        })
    }
    &&& find_id(a.ids(), which) is Some && a.max_players() != 1 ==> {
        let idx = find_id(a.ids(), which)->0;
        r is None && (if a.player_count() == a.max_players() || a.slots().contains(
            Some(idx as usize),
        ) || first_free(a.slots()) is None {
            b.slots() == a.slots()
        } else {
            b.slots() == a.slots().update(first_free(a.slots())->0, Some(idx as usize))
        })
    }
}

/// What a gamepad event does to the manager `a`, giving `b` and the rumble `r`; see
/// `GamepadManager::event_handler`.
pub open spec fn pad_event_effect(
    a: GamepadManager,
    b: GamepadManager,
    event: InputEvent,
    r: Option<RumbleCommand>,
) -> bool {
    match event {
        InputEvent::ControllerDeviceAdded { which, opened } => {
            &&& r is None
            &&& opened ==> {
                &&& b.ids() == a.ids().push(which)
                &&& b.slots() == a.slots()
                &&& b.player_count() == a.player_count()
                &&& b.max_players() == a.max_players()
                &&& b.buttons() == a.buttons()
                &&& b.sticks() == a.sticks()
                &&& b.rumble_enabled() == a.rumble_enabled()
            }
            &&& !opened ==> b == a
        },
        InputEvent::ControllerDeviceRemoved { which } => {
            &&& r is None
            &&& find_id(a.ids(), which) is None ==> b == a
            &&& find_id(a.ids(), which) matches Some(i) ==> {
                &&& b.ids() == a.ids().remove(i)
                &&& b.slots() == a.slots().map_values(
                    |s: Option<usize>|
                        if s == Some(i as usize) {
                            None
                        } else {
                            s
                        },
                )
                &&& b.player_count() == a.player_count() - slot_count(
                    a.slots(),
                    i as usize,
                )
                &&& b.max_players() == a.max_players()
                &&& b.buttons() == a.buttons()
                &&& b.sticks() == a.sticks()
                &&& b.rumble_enabled() == a.rumble_enabled()
            }
        },
        InputEvent::ControllerButtonDown { which } => button_down_effect(
            a,
            b,
            which,
            r,
        ),
        _ => r is None && b == a,
    }
}

impl GamepadManager {
    /// Handles a gamepad event: a pad that could be opened is recorded, a removed one is
    /// forgotten, a button press goes to `handle_button_down`. Returns the rumble stop that
    /// a button press asks.
    pub fn event_handler(&mut self, event: InputEvent) -> (r: Option<RumbleCommand>)
        requires
            old(self).wf(),
            event matches InputEvent::ControllerDeviceRemoved { which } ==> (find_id(
                old(self).ids(),
                which,
            ) matches Some(i) ==> slot_count(old(self).slots(), i as usize) <= old(
                self,
            ).player_count()),
        ensures
            final(self).wf(),
            pad_event_effect(*old(self), *final(self), event, r),
    {
        match event {
            InputEvent::ControllerDeviceAdded { which, opened } => {
                if opened {
                    self.add_controller(which);
                }
                None
            },
            InputEvent::ControllerDeviceRemoved { which } => {
                let n = self.gamepad_ids.len();
                proof {
                    lemma_find_id(self.ids(), which);
                    assert(self.ids().len() == n);
                }
                let _ = self.remove_controller(which);
                None
            },
            InputEvent::ControllerButtonDown { which } => self.handle_button_down(which),
            _ => None,
        }
    }
}

} // verus!
