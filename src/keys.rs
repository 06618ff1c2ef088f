//! Keyboard shortcuts: which key each action is bound to, and rebinding.
//!
//! Two actions never share a key: a rebind to a key that is already bound is
//! refused and leaves every binding as it was.
use vstd::prelude::*;

verus! {

/// A keyboard key. Letter keys carry the code of their upper-case ASCII letter.
#[derive(Clone, Copy, Debug, PartialEq, Eq, Structural)]
pub struct Key {
    pub code: u32,
}

/// The actions that have a shortcut (pressed together with Ctrl).
#[derive(Clone, Copy, Debug, PartialEq, Eq, Structural)]
pub enum Action {
    Save,
    Cancel,
    New,
    Crop,
    Fullscreen,
    Clipboard,
}

/// The key bound to each action.
#[derive(Clone, Copy, Debug, PartialEq, Eq, Structural)]
pub struct KeyBindings {
    pub save: Key,
    pub cancel: Key,
    pub new: Key,
    pub crop: Key,
    pub fullscreen: Key,
    pub clipboard: Key,
}

impl Key {
    pub fn from_code(code: u32) -> (k: Key)
        ensures
            k.code == code,
    {
        Key { code }
    }
}

/// The bindings a session starts with: Ctrl+S, Z, N, X, F and C.
pub open spec fn default_bindings() -> KeyBindings {
    KeyBindings {
        save: Key { code: 83 },
        cancel: Key { code: 90 },
        new: Key { code: 78 },
        crop: Key { code: 88 },
        fullscreen: Key { code: 70 },
        clipboard: Key { code: 67 },
    }
}

impl KeyBindings {
    pub open spec fn spec_resolve(self, a: Action) -> Key {
        match a {
            Action::Save => self.save,
            Action::Cancel => self.cancel,
            Action::New => self.new,
            Action::Crop => self.crop,
            Action::Fullscreen => self.fullscreen,
            Action::Clipboard => self.clipboard,
        }
    }

    /// Some action is bound to `k`.
    pub open spec fn spec_is_key_assigned(self, k: Key) -> bool {
        self.save == k || self.cancel == k || self.new == k || self.crop == k || self.fullscreen
            == k || self.clipboard == k
    }

    /// No two actions share a key.
    pub open spec fn wf(self) -> bool {
        forall|a: Action, b: Action|
            a != b ==> #[trigger] self.spec_resolve(a) != #[trigger] self.spec_resolve(b)
    }

    /// The action bound to `k`, if any.
    pub open spec fn spec_action_of(self, k: Key) -> Option<Action> {
        if self.save == k {
            Some(Action::Save)
        } else if self.cancel == k {
            Some(Action::Cancel)
        } else if self.fullscreen == k {
            Some(Action::Fullscreen)
        } else if self.new == k {
            Some(Action::New)
        } else if self.crop == k {
            Some(Action::Crop)
        } else if self.clipboard == k {
            Some(Action::Clipboard)
        } else {
            None
        }
    }

    /// The action that a key event triggers: a fresh press of a bound key with Ctrl held.
    pub open spec fn spec_action_for(self, k: Key, pressed: bool, repeat: bool, ctrl: bool) -> Option<
        Action,
    > {
        if ctrl && pressed && !repeat {
            self.spec_action_of(k)
        } else {
            None
        }
    }

    pub fn new() -> (b: KeyBindings)
        ensures
            b == default_bindings(),
            b.wf(),
    {
        KeyBindings {
            save: Key { code: 83 },
            cancel: Key { code: 90 },
            new: Key { code: 78 },
            crop: Key { code: 88 },
            fullscreen: Key { code: 70 },
            clipboard: Key { code: 67 },
        }
    }

    /// The key bound to `a`.
    pub fn resolve(&self, a: Action) -> (k: Key)
        ensures
            k == self.spec_resolve(a),
    {
        match a {
            Action::Save => self.save,
            Action::Cancel => self.cancel,
            Action::New => self.new,
            Action::Crop => self.crop,
            Action::Fullscreen => self.fullscreen,
            Action::Clipboard => self.clipboard,
        }
    }

    /// Whether some action is bound to `key`.
    pub fn is_key_assigned(&self, key: Key) -> (r: bool)
        ensures
            r == self.spec_is_key_assigned(key),
    {
        self.fullscreen == key || self.new == key || self.save == key || self.cancel == key
            || self.crop == key || self.clipboard == key
    }

    /// Binds `action` to `key` unless some action already has `key`, in which case
    /// nothing changes. Returns whether the binding was made.
    pub fn rebind(&mut self, action: Action, key: Key) -> (done: bool)
        ensures
            done == !old(self).spec_is_key_assigned(key),
            done ==> *final(self) == old(self).with_binding(action, key),
            !done ==> *final(self) == *old(self),
            old(self).wf() ==> final(self).wf(),
    {
        if self.is_key_assigned(key) {
            return false;
        }
        match action {
            Action::Save => self.save = key,
            Action::Cancel => self.cancel = key,
            Action::New => self.new = key,
            Action::Crop => self.crop = key,
            Action::Fullscreen => self.fullscreen = key,
            Action::Clipboard => self.clipboard = key,
        }
        proof {
            assert(!old(self).spec_is_key_assigned(key));
            assert forall|a: Action| #[trigger] old(self).spec_resolve(a) != key by {}
            if old(self).wf() {
                assert forall|a: Action, c: Action| a != c implies #[trigger] self.spec_resolve(a)
                    != #[trigger] self.spec_resolve(c) by {
                    assert(old(self).spec_resolve(a) != key);
                    assert(old(self).spec_resolve(c) != key);
                    assert(old(self).spec_resolve(a) != old(self).spec_resolve(c));
                }
            }
        }
        true
    }

    /// The action that a key event triggers: a fresh press of a bound key with Ctrl held.
    pub fn action_for(&self, key: Key, pressed: bool, repeat: bool, ctrl: bool) -> (r: Option<
        Action,
    >)
        ensures
            r == self.spec_action_for(key, pressed, repeat, ctrl),
            r matches Some(a) ==> self.spec_resolve(a) == key,
    {
        if !(ctrl && pressed && !repeat) {
            None
        } else if self.save == key {
            Some(Action::Save)
        } else if self.cancel == key {
            Some(Action::Cancel)
        } else if self.fullscreen == key {
            Some(Action::Fullscreen)
        } else if self.new == key {
            Some(Action::New)
        } else if self.crop == key {
            Some(Action::Crop)
        } else if self.clipboard == key {
            Some(Action::Clipboard)
        } else {
            None
        }
    }
}

impl Default for KeyBindings {
    fn default() -> (b: KeyBindings)
        ensures
            b == default_bindings(),
    {
        KeyBindings::new()
    }
}

impl KeyBindings {
    /// The bindings with `action` bound to `key`.
    pub open spec fn with_binding(self, action: Action, key: Key) -> KeyBindings {
        KeyBindings {
            save: if action == Action::Save { key } else { self.save },
            cancel: if action == Action::Cancel { key } else { self.cancel },
            new: if action == Action::New { key } else { self.new },
            crop: if action == Action::Crop { key } else { self.crop },
            fullscreen: if action == Action::Fullscreen { key } else { self.fullscreen },
            clipboard: if action == Action::Clipboard { key } else { self.clipboard },
        }
    }
}

} // verus!
