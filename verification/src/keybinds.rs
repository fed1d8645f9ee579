use vstd::prelude::*;

use crate::table::NamedTable;

verus! {

/// Whether `scancode` is held down in the keyboard state `keys` (one flag per scancode;
/// scancodes past its end are up).
pub open spec fn key_pressed(keys: Seq<bool>, scancode: u32) -> bool {
    scancode < keys.len() && keys[scancode as int]
}

pub fn is_pressed(keys: &[bool], scancode: u32) -> (r: bool)
    ensures
        r == key_pressed(keys@, scancode),
{
    let n = keys.len();
    let i = scancode as usize;
    if i < n {
        keys[i]
    } else {
        false
    }
}

/// A bound action key and whether it is locked out until released.
#[derive(Clone, Copy, Debug, PartialEq, Eq, Structural)]
pub struct KeyState {
    pub key: u32,
    pub locked_out: bool,
}

/// A menu key: the action binding it shares its key with, if any, and whether it is
/// locked out.
pub struct MenuBinding {
    pub key: u32,
    pub overlay: Option<String>,
    pub locked_out: bool,
}

/// The name of the action binding that a menu key shares its key with.
pub open spec fn overlay_of(m: MenuBinding) -> Option<Seq<char>> {
    match m.overlay {
        Some(s) => Some(s@),
        None => None,
    }
}

/// A table from scancodes to the action bound to each.
pub struct CodeTable {
    codes: Vec<u32>,
    names: Vec<String>,
}

impl CodeTable {
    pub closed spec fn wf(self) -> bool {
        &&& self.codes@.len() == self.names@.len()
        &&& forall|i: int, j: int|
            0 <= i < self.codes@.len() && 0 <= j < self.codes@.len() && i != j
                ==> self.codes@[i] != self.codes@[j]
    }

    pub closed spec fn map(self) -> Map<u32, Seq<char>> {
        Map::new(
            |k: u32| self.codes@.contains(k),
            |k: u32| self.names@[self.codes@.index_of(k)]@,
        )
    }

    proof fn lemma_at(self, i: int)
        requires
            self.wf(),
            0 <= i < self.codes@.len(),
        ensures
            self.map().contains_key(self.codes@[i]),
            self.map()[self.codes@[i]] == self.names@[i]@,
            self.codes@.index_of(self.codes@[i]) == i,
    {
        let k = self.codes@[i];
        assert(self.codes@.contains(k));
        let j = self.codes@.index_of(k);
        assert(self.codes@[j] == k);
    }

    pub fn new() -> (r: Self)
        ensures
            r.wf(),
            r.map() == Map::<u32, Seq<char>>::empty(),
    {
        let r = CodeTable { codes: Vec::new(), names: Vec::new() };
        assert(r.map() =~= Map::<u32, Seq<char>>::empty());
        r
    }

    fn index_of(&self, code: u32) -> (r: Option<usize>)
        requires
            self.wf(),
        ensures
            r is None <==> !self.map().contains_key(code),
            r matches Some(i) ==> i < self.codes@.len() && self.codes@[i as int] == code,
    {
        let n = self.codes.len();
        let mut i: usize = 0;
        while i < n
            invariant
                n == self.codes@.len(),
                self.wf(),
                i <= n,
                forall|j: int| 0 <= j < i ==> self.codes@[j] != code,
            decreases n - i,
        {
            if self.codes[i] == code {
                assert(self.codes@.contains(code));
                return Some(i);
            }
            i = i + 1;
        }
        proof {
            if self.codes@.contains(code) {
                let j = self.codes@.index_of(code);
                assert(self.codes@[j] == code);
            }
        }
        None
    }

    /// The name bound to `code`, if any.
    pub fn get(&self, code: u32) -> (r: Option<&String>)
        requires
            self.wf(),
        ensures
            r is None <==> !self.map().contains_key(code),
            r matches Some(s) ==> s@ == self.map()[code],
    {
        match self.index_of(code) {
            None => None,
            Some(i) => {
                proof {
                    self.lemma_at(i as int);
                }
                Some(&self.names[i])
            },
        }
    }

    /// Binds `code` to `name`, replacing what it was bound to.
    pub fn insert(&mut self, code: u32, name: &str)
        requires
            old(self).wf(),
        ensures
            final(self).wf(),
            final(self).map() == old(self).map().insert(code, name@),
    {
        let ghost old_self = *self;
        match self.index_of(code) {
            Some(i) => {
                proof {
                    old_self.lemma_at(i as int);
                }
                self.names.set(i, name.to_owned());
                proof {
                    assert forall|k: u32| #[trigger]
                        self.map().contains_key(k) implies self.map()[k] == old_self.map().insert(
                        code,
                        name@,
                    )[k] by {
                        let j = self.codes@.index_of(k);
                        assert(self.codes@[j] == k);
                        self.lemma_at(j);
                        old_self.lemma_at(j);
                    }
                    assert(self.map() =~= old_self.map().insert(code, name@));
                }
            },
            None => {
                self.codes.push(code);
                self.names.push(name.to_owned());
                proof {
                    assert forall|k: u32| #[trigger]
                        self.map().contains_key(k) implies self.map()[k] == old_self.map().insert(
                        code,
                        name@,
                    )[k] by {
                        let j = self.codes@.index_of(k);
                        assert(self.codes@[j] == k);
                        self.lemma_at(j);
                        if j < old_self.codes@.len() {
                            old_self.lemma_at(j);
                        }
                    }
                    assert forall|k: u32| #[trigger]
                        old_self.map().insert(code, name@).contains_key(k)
                            implies self.map().contains_key(k) by {
                        if k != code {
                            let j = old_self.codes@.index_of(k);
                            assert(old_self.codes@[j] == k);
                            assert(self.codes@[j] == k);
                        } else {
                            assert(self.codes@[self.codes@.len() - 1] == k);
                        }
                    }
                    assert(self.map() =~= old_self.map().insert(code, name@));
                }
            },
        }
    }
}

/// What polling the action binding `name` gives, and the action bindings after it: an
/// unknown name reads as up; a locked-out key reads as up and is unlocked once released.
pub open spec fn spec_poll_key(kb: Map<Seq<char>, KeyState>, name: Seq<char>, keys: Seq<bool>) -> (
    bool,
    Map<Seq<char>, KeyState>,
) {
    if !kb.contains_key(name) {
        (false, kb)
    } else {
        let b = kb[name];
        let down = key_pressed(keys, b.key);
        if !b.locked_out {
            (down, kb)
        } else if !down {
            (false, kb.insert(name, KeyState { key: b.key, locked_out: false }))
        } else {
            (false, kb)
        }
    }
}

/// Keyboard bindings of the game's actions and of the menu keys that share keys with them.
pub struct KeybindManager {
    key_bindings: NamedTable<KeyState>,
    keys_bound: CodeTable,
    menu_bindings: NamedTable<MenuBinding>,
    in_menu: bool,
}

impl KeybindManager {
    pub closed spec fn key_bindings(self) -> Map<Seq<char>, KeyState> {
        self.key_bindings.map()
    }

    pub closed spec fn keys_bound(self) -> Map<u32, Seq<char>> {
        self.keys_bound.map()
    }

    pub closed spec fn menu_bindings(self) -> Map<Seq<char>, MenuBinding> {
        self.menu_bindings.map()
    }

    pub closed spec fn in_menu(self) -> bool {
        self.in_menu
    }

    /// The tables are well formed; every action that a key or a menu key points to is bound.
    pub closed spec fn wf(self) -> bool {
        &&& self.key_bindings.wf()
        &&& self.keys_bound.wf()
        &&& self.menu_bindings.wf()
        &&& forall|c: u32| #[trigger]
            self.keys_bound.map().contains_key(c) ==> self.key_bindings.map().contains_key(
                self.keys_bound.map()[c],
            )
        &&& forall|n: Seq<char>| #[trigger]
            self.menu_bindings.map().contains_key(n) ==> (overlay_of(self.menu_bindings.map()[n])
                matches Some(o) ==> self.key_bindings.map().contains_key(o))
    }

    pub fn new() -> (r: Self)
        ensures
            r.wf(),
            r.key_bindings() == Map::<Seq<char>, KeyState>::empty(),
            r.keys_bound() == Map::<u32, Seq<char>>::empty(),
            r.menu_bindings() == Map::<Seq<char>, MenuBinding>::empty(),
            !r.in_menu(),
    {
        Self {
            key_bindings: NamedTable::new(),
            keys_bound: CodeTable::new(),
            menu_bindings: NamedTable::new(),
            in_menu: false,
        }
    }

    /// Binds the action `name` to `key`, unlocked.
    pub fn add_key_binding(&mut self, name: &str, key: u32)
        requires
            old(self).wf(),
        ensures
            final(self).wf(),
            final(self).key_bindings() == old(self).key_bindings().insert(
                name@,
                KeyState { key, locked_out: false },
            ),
            final(self).keys_bound() == old(self).keys_bound().insert(key, name@),
            final(self).menu_bindings() == old(self).menu_bindings(),
            final(self).in_menu() == old(self).in_menu(),
    {
        self.key_bindings.insert(name, KeyState { key, locked_out: false });
        self.keys_bound.insert(key, name);
    }

    /// Whether the action `name` is held; see `spec_poll_key`.
    pub fn poll_key_binding(&mut self, name: &str, keyboard_state: &[bool]) -> (r: bool)
        requires
            old(self).wf(),
        ensures
            final(self).wf(),
            (r, final(self).key_bindings()) == spec_poll_key(
                old(self).key_bindings(),
                name@,
                keyboard_state@,
            ),
            final(self).keys_bound() == old(self).keys_bound(),
            final(self).menu_bindings() == old(self).menu_bindings(),
            final(self).in_menu() == old(self).in_menu(),
    {
        let idx = match self.key_bindings.index_of(name) {
            Some(i) => i,
            None => return false,
        };
        proof {
            self.key_bindings.lemma_map_at(idx as int);
        }
        let binding = *self.key_bindings.value_at(idx);
        let down = is_pressed(keyboard_state, binding.key);
        if !binding.locked_out {
            down
        } else {
            if !down {
                self.key_bindings.set_at(idx, KeyState { key: binding.key, locked_out: false });
            }
            false
        }
    }

    /// Adds the menu key `name` on `key`. Where an action other than `action` has that key,
    /// the menu key overlays it; where `action` itself has it, the menu key starts locked.
    pub fn add_menu_binding(&mut self, name: &str, key: u32, action: &str)
        requires
            old(self).wf(),
        ensures
            final(self).wf(),
            final(self).menu_bindings().contains_key(name@),
            final(self).menu_bindings()[name@].key == key,
            ({
                let m = final(self).menu_bindings()[name@];
                if old(self).keys_bound().contains_key(key) && old(self).keys_bound()[key]
                    != action@ {
                    overlay_of(m) == Some(old(self).keys_bound()[key]) && !m.locked_out
                } else {
                    overlay_of(m) == None::<Seq<char>> && m.locked_out == old(self).keys_bound().contains_key(key)
                }
            }),
            final(self).menu_bindings().remove(name@) == old(self).menu_bindings().remove(name@),
            final(self).menu_keys() == old(self).menu_keys().insert(
                name@,
                spec_menu_entry(old(self).keys_bound(), key, action@),
            ),
            final(self).key_bindings() == old(self).key_bindings(),
            final(self).keys_bound() == old(self).keys_bound(),
            final(self).in_menu() == old(self).in_menu(),
    {
        let action_name = action.to_owned();
        let (overlay, locked_out) = match self.keys_bound.get(key) {
            Some(v) => {
                if *v != action_name {
                    (Some(v.clone()), false)
                } else {
                    (None, true)
                }
            },
            None => (None, false),
        };
        let ghost old_self = *self;
        self.menu_bindings.insert(name, MenuBinding { key, overlay, locked_out });
        proof {
            assert(self.menu_bindings().remove(name@) =~= old_self.menu_bindings().remove(name@));
            lemma_insert_menu_keys(old_self.menu_bindings(), self.menu_bindings(), name@);
        }
    }

    /// Whether the menu key `name` is held; like `poll_key_binding`, but a locked-out menu
    /// key is unlocked on release only where it overlays an action.
    pub fn poll_menu_binding(&mut self, name: &str, keyboard_state: &[bool]) -> (r: bool)
        requires
            old(self).wf(),
        ensures
            final(self).wf(),
            !old(self).menu_bindings().contains_key(name@) ==> !r && final(self).menu_bindings()
                == old(self).menu_bindings(),
            old(self).menu_bindings().contains_key(name@) ==> {
                let m = old(self).menu_bindings()[name@];
                let down = key_pressed(keyboard_state@, m.key);
                &&& r == (!m.locked_out && down)
                &&& final(self).menu_bindings().dom() == old(self).menu_bindings().dom()
                &&& final(self).menu_bindings().remove(name@) == old(self).menu_bindings().remove(
                    name@,
                )
                &&& final(self).menu_bindings()[name@].key == m.key
                &&& overlay_of(final(self).menu_bindings()[name@]) == overlay_of(m)
                &&& final(self).menu_bindings()[name@].locked_out == (m.locked_out && !(
                overlay_of(m) is Some && !down))
            },
            (r, final(self).menu_keys()) == spec_poll_menu(
                old(self).menu_keys(),
                name@,
                keyboard_state@,
            ),
            final(self).key_bindings() == old(self).key_bindings(),
            final(self).keys_bound() == old(self).keys_bound(),
            final(self).in_menu() == old(self).in_menu(),
    {
        let idx = match self.menu_bindings.index_of(name) {
            Some(i) => i,
            None => return false,
        };
        proof {
            self.menu_bindings.lemma_map_at(idx as int);
        }
        let ghost old_self = *self;
        let binding = self.menu_bindings.value_at(idx);
        let key = binding.key;
        let locked_out = binding.locked_out;
        let has_overlay = binding.overlay.is_some();
        let down = is_pressed(keyboard_state, key);
        if !locked_out {
            proof {
                assert(self.menu_bindings().remove(name@) =~= old_self.menu_bindings().remove(
                    name@,
                ));
                lemma_poll_menu_keys(
                    old_self.menu_bindings(),
                    self.menu_bindings(),
                    name@,
                    keyboard_state@,
                );
            }
            down
        } else {
            if has_overlay && !down {
                let overlay = match &binding.overlay {
                    Some(s) => Some(s.clone()),
                    None => None,
                };
                self.menu_bindings.set_at(idx, MenuBinding { key, overlay, locked_out: false });
            }
            proof {
                assert(self.menu_bindings().remove(name@) =~= old_self.menu_bindings().remove(
                    name@,
                ));
                assert(self.menu_bindings().dom() =~= old_self.menu_bindings().dom());
                lemma_poll_menu_keys(
                    old_self.menu_bindings(),
                    self.menu_bindings(),
                    name@,
                    keyboard_state@,
                );
            }
            false
        }
    }

    /// Whether the menu key `name` is locked out; an unknown name is not.
    pub fn is_menu_key_locked(&self, name: &str) -> (r: bool)
        requires
            self.wf(),
        ensures
            r == (self.menu_bindings().contains_key(name@)
                && self.menu_bindings()[name@].locked_out),
    {
        match self.menu_bindings.get(name) {
            Some(v) => v.locked_out,
            None => false,
        }
    }
    /// Enters or leaves the menu. On a change, every held menu key that overlays an action
    /// is locked out, and so is that action, so that the press is not read twice.
    pub fn set_in_menu(&mut self, enabled: bool, keyboard_state: &[bool])
        requires
            old(self).wf(),
        ensures
            final(self).wf(),
            final(self).in_menu() == enabled,
            final(self).keys_bound() == old(self).keys_bound(),
            (final(self).key_bindings(), final(self).menu_keys()) == spec_switch_menu(
                old(self).key_bindings(),
                old(self).menu_keys(),
                old(self).in_menu(),
                enabled,
                keyboard_state@,
            ),
            enabled == old(self).in_menu() ==> final(self).key_bindings() == old(self).key_bindings() && final(self).menu_bindings() == old(self).menu_bindings(),
            enabled != old(self).in_menu() ==> {
                &&& final(self).menu_bindings().dom() == old(self).menu_bindings().dom()
                &&& forall|n: Seq<char>| #[trigger]
                    old(self).menu_bindings().contains_key(n) ==> {
                        let m = old(self).menu_bindings()[n];
                        let m2 = final(self).menu_bindings()[n];
                        &&& m2.key == m.key
                        &&& overlay_of(m2) == overlay_of(m)
                        &&& m2.locked_out == (m.locked_out || (key_pressed(keyboard_state@, m.key)
                            && overlay_of(m) is Some))
                    }
                &&& final(self).key_bindings().dom() == old(self).key_bindings().dom()
                &&& forall|k: Seq<char>| #[trigger]
                    old(self).key_bindings().contains_key(k) ==> {
                        &&& final(self).key_bindings()[k].key == old(self).key_bindings()[k].key
                        &&& final(self).key_bindings()[k].locked_out == (old(self).key_bindings()[k].locked_out || menu_locks(
                            old(self).menu_bindings(),
                            keyboard_state@,
                            k,
                        ))
                    }
            },
    {
        if enabled == self.in_menu {
            return;
        }
        self.in_menu = enabled;
        let ghost menu0 = self.menu_bindings;
        let ghost kb0 = self.key_bindings;
        let keys = keyboard_state;
        let n = self.menu_bindings.len();
        proof {
            self.menu_bindings.lemma_lengths();
            self.key_bindings.lemma_lengths();
        }
        let mut i: usize = 0;
        while i < n
            invariant
                self.wf(),
                self.in_menu == enabled,
                menu0.wf(),
                kb0.wf(),
                n == menu0.names().len(),
                i <= n,
                self.menu_bindings.names() == menu0.names(),
                self.key_bindings.names() == kb0.names(),
                self.keys_bound == old(self).keys_bound,
                menu0 == old(self).menu_bindings,
                kb0 == old(self).key_bindings,
                self.menu_bindings.values().len() == n,
                self.key_bindings.values().len() == kb0.values().len(),
                forall|j: int|
                    0 <= j < n ==> {
                        let m = #[trigger] menu0.values()[j];
                        let m2 = self.menu_bindings.values()[j];
                        &&& m2.key == m.key
                        &&& overlay_of(m2) == overlay_of(m)
                        &&& m2.locked_out == (m.locked_out || (j < i && key_pressed(keys@, m.key)
                            && overlay_of(m) is Some))
                    },
                forall|p: int|
                    0 <= p < kb0.values().len() ==> {
                        &&& (#[trigger] self.key_bindings.values()[p]).key == kb0.values()[p].key
                        &&& self.key_bindings.values()[p].locked_out == (kb0.values()[p].locked_out
                            || exists|j: int|
                            0 <= j < i && key_pressed(keys@, (#[trigger] menu0.values()[j]).key)
                                && overlay_of(menu0.values()[j]) == Some(kb0.names()[p]))
                    },
            decreases n - i,
        {
            proof {
                self.menu_bindings.lemma_map_at(i as int);
                menu0.lemma_map_at(i as int);
            }
            let binding = self.menu_bindings.value_at(i);
            let key = binding.key;
            let down = is_pressed(keys, key);
            if down && binding.overlay.is_some() {
                let overlay_name = match &binding.overlay {
                    Some(s) => s.clone(),
                    None => String::new(),
                };
                let ghost before = *self;
                assert(before.key_bindings.values().len() == kb0.values().len());
                assert(overlay_of(menu0.values()[i as int]) == Some(overlay_name@));
                let new_binding = MenuBinding {
                    key,
                    overlay: Some(overlay_name.clone()),
                    locked_out: true,
                };
                self.menu_bindings.set_at(i, new_binding);
                proof {
                    assert(self.key_bindings.map().contains_key(overlay_name@));
                    assert(overlay_of(self.menu_bindings.values()[i as int]) == Some(overlay_name@));
                }
                let p = match self.key_bindings.index_of(overlay_name.as_str()) {
                    Some(p) => p,
                    None => {
                        proof {
                            assert(false);
                        }
                        0
                    },
                };
                let ks = *self.key_bindings.value_at(p);
                proof {
                    self.key_bindings.lemma_lengths();
                }
                self.key_bindings.set_at(p, KeyState { key: ks.key, locked_out: true });
                proof {
                    self.key_bindings.lemma_lengths();
                    assert(self.key_bindings.values().len() == before.key_bindings.values().len());
                    assert(before.key_bindings.values().len() == kb0.values().len());
                    assert(kb0.names()[p as int] == overlay_name@);
                    assert(key_pressed(keys@, menu0.values()[i as int].key));
                    assert forall|c: u32| #[trigger]
                        self.keys_bound.map().contains_key(c) implies self.key_bindings.map().contains_key(
                        self.keys_bound.map()[c],
                    ) by {
                        assert(before.key_bindings.map().contains_key(before.keys_bound.map()[c]));
                    }
                    assert forall|nm: Seq<char>| #[trigger]
                        self.menu_bindings.map().contains_key(nm) implies (overlay_of(
                        self.menu_bindings.map()[nm],
                    ) matches Some(o) ==> self.key_bindings.map().contains_key(o)) by {
                        let j = self.menu_bindings.names().index_of(nm);
                        assert(self.menu_bindings.names()[j] == nm);
                        self.menu_bindings.lemma_map_at(j);
                        before.menu_bindings.lemma_map_at(j);
                        if j != i {
                            assert(before.menu_bindings.map().contains_key(nm));
                            assert(self.menu_bindings.values()[j] == before.menu_bindings.values()[j]);
                            assert(self.menu_bindings.map()[nm] == before.menu_bindings.map()[nm]);
                            if overlay_of(before.menu_bindings.map()[nm]) is Some {
                                let o = overlay_of(before.menu_bindings.map()[nm])->0;
                                assert(before.key_bindings.map().contains_key(o));
                                assert(self.key_bindings.map().contains_key(o));
                            }
                        } else {
                            assert(self.menu_bindings.map()[nm] == self.menu_bindings.values()[i as int]);
                        }
                    }
                    assert forall|q: int| 0 <= q < kb0.values().len() implies {
                        &&& (#[trigger] self.key_bindings.values()[q]).key == kb0.values()[q].key
                        &&& self.key_bindings.values()[q].locked_out == (kb0.values()[q].locked_out
                            || exists|j: int|
                            0 <= j < i + 1 && key_pressed(keys@, (#[trigger] menu0.values()[j]).key)
                                && overlay_of(menu0.values()[j]) == Some(kb0.names()[q]))
                    } by {
                        if q == p {
                            assert(0 <= i < i + 1 && key_pressed(keys@, menu0.values()[i as int].key)
                                && overlay_of(menu0.values()[i as int]) == Some(kb0.names()[q]));
                        } else {
                            if exists|j: int|
                                0 <= j < i + 1 && key_pressed(keys@, (#[trigger] menu0.values()[j]).key)
                                    && overlay_of(menu0.values()[j]) == Some(kb0.names()[q]) {
                                let j = choose|j: int|
                                    0 <= j < i + 1 && key_pressed(keys@, (#[trigger] menu0.values()[j]).key)
                                        && overlay_of(menu0.values()[j]) == Some(kb0.names()[q]);
                                if j == i {
                                    assert(kb0.names()[q] == kb0.names()[p as int]);
                                }
                            }
                        }
                    }
                }
            } else {
                proof {
                    assert(overlay_of(menu0.values()[i as int]) is Some == binding.overlay.is_some());
                    assert forall|q: int| 0 <= q < kb0.values().len() implies {
                        &&& (#[trigger] self.key_bindings.values()[q]).key == kb0.values()[q].key
                        &&& self.key_bindings.values()[q].locked_out == (kb0.values()[q].locked_out
                            || exists|j: int|
                            0 <= j < i + 1 && key_pressed(keys@, (#[trigger] menu0.values()[j]).key)
                                && overlay_of(menu0.values()[j]) == Some(kb0.names()[q]))
                    } by {
                        if exists|j: int|
                            0 <= j < i + 1 && key_pressed(keys@, (#[trigger] menu0.values()[j]).key)
                                && overlay_of(menu0.values()[j]) == Some(kb0.names()[q]) {
                            let j = choose|j: int|
                                0 <= j < i + 1 && key_pressed(keys@, (#[trigger] menu0.values()[j]).key)
                                    && overlay_of(menu0.values()[j]) == Some(kb0.names()[q]);
                            assert(j != i);
                        }
                    }
                }
            }
            assert forall|j: int| 0 <= j < n implies {
                let m = #[trigger] menu0.values()[j];
                let m2 = self.menu_bindings.values()[j];
                &&& m2.key == m.key
                &&& overlay_of(m2) == overlay_of(m)
                &&& m2.locked_out == (m.locked_out || (j < i + 1 && key_pressed(keys@, m.key)
                    && overlay_of(m) is Some))
            } by {
                if j == i {
                    assert(menu0.values()[j].key == key);
                }
            }
            i = i + 1;
        }
        proof {
            let menu_f = self.menu_bindings;
            let kb_f = self.key_bindings;
            assert(menu_f.map().dom() =~= menu0.map().dom());
            assert forall|nm: Seq<char>| #[trigger] menu0.map().contains_key(nm) implies {
                let m = menu0.map()[nm];
                let m2 = menu_f.map()[nm];
                &&& m2.key == m.key
                &&& overlay_of(m2) == overlay_of(m)
                &&& m2.locked_out == (m.locked_out || (key_pressed(keys@, m.key) && overlay_of(m) is Some))
            } by {
                let j = menu0.names().index_of(nm);
                assert(menu0.names()[j] == nm);
                menu0.lemma_map_at(j);
                menu_f.lemma_map_at(j);
            }
            assert(kb_f.map().dom() =~= kb0.map().dom());
            assert forall|k: Seq<char>| #[trigger] kb0.map().contains_key(k) implies {
                &&& kb_f.map()[k].key == kb0.map()[k].key
                &&& kb_f.map()[k].locked_out == (kb0.map()[k].locked_out || menu_locks(
                    menu0.map(),
                    keys@,
                    k,
                ))
            } by {
                let p = kb0.names().index_of(k);
                assert(kb0.names()[p] == k);
                kb0.lemma_map_at(p);
                kb_f.lemma_map_at(p);
                if menu_locks(menu0.map(), keys@, k) {
                    let nm = choose|nm: Seq<char>|
                        #[trigger] menu0.map().contains_key(nm) && key_pressed(
                            keys@,
                            menu0.map()[nm].key,
                        ) && overlay_of(menu0.map()[nm]) == Some(k);
                    let j = menu0.names().index_of(nm);
                    assert(menu0.names()[j] == nm);
                    menu0.lemma_map_at(j);
                    assert(key_pressed(keys@, menu0.values()[j].key));
                }
                if exists|j: int|
                    0 <= j < n && key_pressed(keys@, (#[trigger] menu0.values()[j]).key)
                        && overlay_of(menu0.values()[j]) == Some(kb0.names()[p]) {
                    let j = choose|j: int|
                        0 <= j < n && key_pressed(keys@, (#[trigger] menu0.values()[j]).key)
                            && overlay_of(menu0.values()[j]) == Some(kb0.names()[p]);
                    menu0.lemma_map_at(j);
                    assert(menu0.map().contains_key(menu0.names()[j]));
                }
            }
            lemma_switch_menu_keys(menu0.map(), menu_f.map(), kb0.map(), kb_f.map(), keys@);
        }
    }
}

/// Whether some held menu key overlays the action `k`.
pub open spec fn menu_locks(menu: Map<Seq<char>, MenuBinding>, keys: Seq<bool>, k: Seq<char>) -> bool {
    exists|n: Seq<char>|
        #[trigger] menu.contains_key(n) && key_pressed(keys, menu[n].key) && overlay_of(menu[n])
            == Some(k)
}


/// What the contracts see of a menu key: its scancode, the action it overlays, and
/// whether it is locked out.
pub open spec fn menu_key_view(m: MenuBinding) -> (u32, Option<Seq<char>>, bool) {
    (m.key, overlay_of(m), m.locked_out)
}

impl KeybindManager {
    /// The menu keys by name, as `menu_key_view` shows them.
    pub open spec fn menu_keys(self) -> Map<Seq<char>, (u32, Option<Seq<char>>, bool)> {
        self.menu_bindings().map_values(|m: MenuBinding| menu_key_view(m))
    }
}

/// Whether some held menu key overlays the action `k`.
pub open spec fn menu_keys_lock(
    menus: Map<Seq<char>, (u32, Option<Seq<char>>, bool)>,
    keys: Seq<bool>,
    k: Seq<char>,
) -> bool {
    exists|n: Seq<char>|
        #[trigger] menus.contains_key(n) && key_pressed(keys, menus[n].0) && menus[n].1 == Some(k)
}

/// The action keys and menu keys after the menu is entered or left (`enabled` differs
/// from `was_in_menu`) with `keys` held: every held menu key that overlays an action is
/// locked out, and so is that action. Nothing changes when the state stays.
pub open spec fn spec_switch_menu(
    kb: Map<Seq<char>, KeyState>,
    menus: Map<Seq<char>, (u32, Option<Seq<char>>, bool)>,
    was_in_menu: bool,
    enabled: bool,
    keys: Seq<bool>,
) -> (Map<Seq<char>, KeyState>, Map<Seq<char>, (u32, Option<Seq<char>>, bool)>) {
    if enabled == was_in_menu {
        (kb, menus)
    } else {
        (
            Map::new(
                |k: Seq<char>| kb.contains_key(k),
                |k: Seq<char>|
                    KeyState {
                        key: kb[k].key,
                        locked_out: kb[k].locked_out || menu_keys_lock(menus, keys, k),
                    },
            ),
            Map::new(
                |n: Seq<char>| menus.contains_key(n),
                |n: Seq<char>|
                    (
                        menus[n].0,
                        menus[n].1,
                        menus[n].2 || (key_pressed(keys, menus[n].0) && menus[n].1 is Some),
                    ),
            ),
        )
    }
}

/// What polling the menu key `name` gives, and the menu keys after it: an unknown name
/// reads as up; a locked-out key reads as up and is unlocked on release where it overlays
/// an action.
pub open spec fn spec_poll_menu(
    menus: Map<Seq<char>, (u32, Option<Seq<char>>, bool)>,
    name: Seq<char>,
    keys: Seq<bool>,
) -> (bool, Map<Seq<char>, (u32, Option<Seq<char>>, bool)>) {
    if !menus.contains_key(name) {
        (false, menus)
    } else {
        let m = menus[name];
        let down = key_pressed(keys, m.0);
        (!m.2 && down, menus.insert(name, (m.0, m.1, m.2 && !(m.1 is Some && !down))))
    }
}

proof fn lemma_poll_menu_keys(
    a: Map<Seq<char>, MenuBinding>,
    b: Map<Seq<char>, MenuBinding>,
    name: Seq<char>,
    keys: Seq<bool>,
)
    requires
        a.contains_key(name),
        b.dom() == a.dom(),
        b.remove(name) == a.remove(name),
        b[name].key == a[name].key,
        overlay_of(b[name]) == overlay_of(a[name]),
        b[name].locked_out == (a[name].locked_out && !(overlay_of(a[name]) is Some && !key_pressed(
            keys,
            a[name].key,
        ))),
    ensures
        b.map_values(|m: MenuBinding| menu_key_view(m)) == spec_poll_menu(
            a.map_values(|m: MenuBinding| menu_key_view(m)),
            name,
            keys,
        ).1,
{
    let va = a.map_values(|m: MenuBinding| menu_key_view(m));
    let vb = b.map_values(|m: MenuBinding| menu_key_view(m));
    let m = va[name];
    let down = key_pressed(keys, m.0);
    let expect = va.insert(name, (m.0, m.1, m.2 && !(m.1 is Some && !down)));
    assert forall|k: Seq<char>| #[trigger] vb.contains_key(k) implies vb[k] == expect[k] by {
        assert(b.contains_key(k));
        if k != name {
            assert(b.remove(name).contains_key(k));
            assert(b.remove(name)[k] == a.remove(name)[k]);
            assert(b.remove(name)[k] == b[k]);
            assert(a.remove(name)[k] == a[k]);
            assert(b[k] == a[k]);
            assert(vb[k] == menu_key_view(b[k]));
            assert(va[k] == menu_key_view(a[k]));
        } else {
            assert(vb[k] == menu_key_view(b[name]));
            assert(m == menu_key_view(a[name]));
        }
    }
    assert(vb =~= expect);
}

proof fn lemma_switch_menu_keys(
    menu0: Map<Seq<char>, MenuBinding>,
    menu1: Map<Seq<char>, MenuBinding>,
    kb0: Map<Seq<char>, KeyState>,
    kb1: Map<Seq<char>, KeyState>,
    keys: Seq<bool>,
)
    requires
        menu1.dom() == menu0.dom(),
        forall|n: Seq<char>| #[trigger]
            menu0.contains_key(n) ==> {
                let m = menu0[n];
                let m2 = menu1[n];
                &&& m2.key == m.key
                &&& overlay_of(m2) == overlay_of(m)
                &&& m2.locked_out == (m.locked_out || (key_pressed(keys, m.key) && overlay_of(m) is Some))
            },
        kb1.dom() == kb0.dom(),
        forall|k: Seq<char>| #[trigger]
            kb0.contains_key(k) ==> {
                &&& kb1[k].key == kb0[k].key
                &&& kb1[k].locked_out == (kb0[k].locked_out || menu_locks(menu0, keys, k))
            },
    ensures
        (kb1, menu1.map_values(|m: MenuBinding| menu_key_view(m))) == spec_switch_menu(
            kb0,
            menu0.map_values(|m: MenuBinding| menu_key_view(m)),
            false,
            true,
            keys,
        ),
{
    let v0 = menu0.map_values(|m: MenuBinding| menu_key_view(m));
    let v1 = menu1.map_values(|m: MenuBinding| menu_key_view(m));
    let (ekb, emenu) = spec_switch_menu(kb0, v0, false, true, keys);
    assert forall|k: Seq<char>| #[trigger] kb0.contains_key(k) implies menu_locks(menu0, keys, k)
        == menu_keys_lock(v0, keys, k) by {
        if menu_locks(menu0, keys, k) {
            let n = choose|n: Seq<char>|
                #[trigger] menu0.contains_key(n) && key_pressed(keys, menu0[n].key) && overlay_of(
                    menu0[n],
                ) == Some(k);
            assert(v0.contains_key(n));
        }
        if menu_keys_lock(v0, keys, k) {
            let n = choose|n: Seq<char>|
                #[trigger] v0.contains_key(n) && key_pressed(keys, v0[n].0) && v0[n].1 == Some(k);
            assert(menu0.contains_key(n));
        }
    }
    assert(kb1 =~= ekb);
    assert(v1 =~= emenu);
}


/// The menu key that `add_menu_binding` makes of `key` for `action`, given the action
/// keys bound so far.
pub open spec fn spec_menu_entry(bound: Map<u32, Seq<char>>, key: u32, action: Seq<char>) -> (
    u32,
    Option<Seq<char>>,
    bool,
) {
    if bound.contains_key(key) && bound[key] != action {
        (key, Some(bound[key]), false)
    } else {
        (key, None, bound.contains_key(key))
    }
}

proof fn lemma_insert_menu_keys(
    a: Map<Seq<char>, MenuBinding>,
    b: Map<Seq<char>, MenuBinding>,
    name: Seq<char>,
)
    requires
        b.contains_key(name),
        b.remove(name) == a.remove(name),
    ensures
        b.map_values(|m: MenuBinding| menu_key_view(m)) == a.map_values(
            |m: MenuBinding| menu_key_view(m),
        ).insert(name, menu_key_view(b[name])),
{
    let va = a.map_values(|m: MenuBinding| menu_key_view(m));
    let vb = b.map_values(|m: MenuBinding| menu_key_view(m));
    let e = va.insert(name, menu_key_view(b[name]));
    assert forall|k: Seq<char>| #[trigger] vb.contains_key(k) implies e.contains_key(k) && vb[k]
        == e[k] by {
        if k != name {
            assert(b.remove(name).contains_key(k));
            assert(a.remove(name).contains_key(k));
            assert(a.contains_key(k));
            assert(b.remove(name)[k] == b[k]);
            assert(a.remove(name)[k] == a[k]);
            assert(b[k] == a[k]);
            assert(vb[k] == menu_key_view(b[k]));
            assert(va[k] == menu_key_view(a[k]));
            assert(e[k] == va[k]);
        } else {
            assert(vb[k] == menu_key_view(b[name]));
        }
    }
    assert forall|k: Seq<char>| #[trigger] e.contains_key(k) implies vb.contains_key(k) by {
        if k != name {
            assert(a.remove(name).contains_key(k));
            assert(b.remove(name).contains_key(k));
        }
    }
    assert(vb =~= e);
}


/// Entering the menu while a menu key that shares its key with an action is held locks
/// that action and that menu key: both read as up whatever is held next, so the press is
/// not read twice. Releasing the action's key unlocks the action, and it reads as held
/// again on the next press.
pub proof fn lemma_menu_switch_locks_overlaid_action(
    kb: Map<Seq<char>, KeyState>,
    menus: Map<Seq<char>, (u32, Option<Seq<char>>, bool)>,
    keys: Seq<bool>,
    n: Seq<char>,
    later: Seq<bool>,
    released: Seq<bool>,
    pressed: Seq<bool>,
)
    requires
        menus.contains_key(n),
        menus[n].1 is Some,
        kb.contains_key(menus[n].1->0),
        key_pressed(keys, menus[n].0),
        !key_pressed(released, kb[menus[n].1->0].key),
        key_pressed(pressed, kb[menus[n].1->0].key),
    ensures
        ({
            let a = menus[n].1->0;
            let (kb2, menus2) = spec_switch_menu(kb, menus, false, true, keys);
            &&& !spec_poll_key(kb2, a, later).0
            &&& !spec_poll_menu(menus2, n, later).0
            &&& spec_poll_key(spec_poll_key(kb2, a, released).1, a, pressed).0
        }),
{
    let a = menus[n].1->0;
    assert(menu_keys_lock(menus, keys, a));
}

} // verus!
