//! Key states, the keys they are made of, and the buttons bound to each key.

use vstd::prelude::*;
use vstd::string::StringExecFns;

verus! {

/// One of the keys that the simulation reads.
#[derive(Copy, Clone, Debug, PartialEq, Eq, Structural)]
pub enum KeyCode {
    KeyW,
    KeyA,
    KeyS,
    KeyD,
    KeyF,
    Space,
}

/// Which keys are held: forward (`w`), left (`a`), back (`s`), right (`d`),
/// action (`f`) and jump (`space`).
#[derive(Copy, Clone, Debug, PartialEq, Eq, Structural)]
pub struct KeyState {
    pub key_w: bool,
    pub key_a: bool,
    pub key_s: bool,
    pub key_d: bool,
    pub key_f: bool,
    pub space: bool,
}

impl KeyState {
    /// Whether key `k` is held.
    pub open spec fn held(self, k: KeyCode) -> bool {
        match k {
            KeyCode::KeyW => self.key_w,
            KeyCode::KeyA => self.key_a,
            KeyCode::KeyS => self.key_s,
            KeyCode::KeyD => self.key_d,
            KeyCode::KeyF => self.key_f,
            KeyCode::Space => self.space,
        }
    }
}

impl View for KeyState {
    type V = Set<KeyCode>;

    /// The set of held keys.
    open spec fn view(&self) -> Set<KeyCode> {
        Set::new(|k: KeyCode| self.held(k))
    }
}

impl Default for KeyState {
    /// No key held.
    fn default() -> (r: KeyState)
        ensures
            r@ == Set::<KeyCode>::empty(),
    {
        let r = KeyState {
            key_w: false,
            key_a: false,
            key_s: false,
            key_d: false,
            key_f: false,
            space: false,
        };
        assert(r@ =~= Set::<KeyCode>::empty());
        r
    }
}

impl vstd::std_specs::ops::NotSpecImpl for KeyState {
    open spec fn obeys_not_spec() -> bool {
        true
    }

    open spec fn not_req(self) -> bool {
        true
    }

    open spec fn not_spec(self) -> KeyState {
        KeyState {
            key_w: !self.key_w,
            key_a: !self.key_a,
            key_s: !self.key_s,
            key_d: !self.key_d,
            key_f: !self.key_f,
            space: !self.space,
        }
    }
}

impl core::ops::Not for KeyState {
    type Output = KeyState;

    /// The keys that are not held.
    fn not(self) -> (r: KeyState)
        ensures
            r@ == self@.complement(),
    {
        let r = KeyState {
            key_w: !self.key_w,
            key_a: !self.key_a,
            key_s: !self.key_s,
            key_d: !self.key_d,
            key_f: !self.key_f,
            space: !self.space,
        };
        assert(r@ =~= self@.complement());
        r
    }
}

impl vstd::std_specs::ops::BitAndSpecImpl for KeyState {
    open spec fn obeys_bitand_spec() -> bool {
        true
    }

    open spec fn bitand_req(self, rhs: KeyState) -> bool {
        true
    }

    open spec fn bitand_spec(self, rhs: KeyState) -> KeyState {
        KeyState {
            key_w: self.key_w && rhs.key_w,
            key_a: self.key_a && rhs.key_a,
            key_s: self.key_s && rhs.key_s,
            key_d: self.key_d && rhs.key_d,
            key_f: self.key_f && rhs.key_f,
            space: self.space && rhs.space,
        }
    }
}

impl core::ops::BitAnd for KeyState {
    type Output = KeyState;

    /// The keys held in both.
    fn bitand(self, other: KeyState) -> (r: KeyState)
        ensures
            r@ == self@.intersect(other@),
    {
        let r = KeyState {
            key_w: self.key_w && other.key_w,
            key_a: self.key_a && other.key_a,
            key_s: self.key_s && other.key_s,
            key_d: self.key_d && other.key_d,
            key_f: self.key_f && other.key_f,
            space: self.space && other.space,
        };
        assert(r@ =~= self@.intersect(other@));
        r
    }
}

impl vstd::std_specs::ops::BitOrSpecImpl for KeyState {
    open spec fn obeys_bitor_spec() -> bool {
        true
    }

    open spec fn bitor_req(self, rhs: KeyState) -> bool {
        true
    }

    open spec fn bitor_spec(self, rhs: KeyState) -> KeyState {
        KeyState {
            key_w: self.key_w || rhs.key_w,
            key_a: self.key_a || rhs.key_a,
            key_s: self.key_s || rhs.key_s,
            key_d: self.key_d || rhs.key_d,
            key_f: self.key_f || rhs.key_f,
            space: self.space || rhs.space,
        }
    }
}

impl core::ops::BitOr for KeyState {
    type Output = KeyState;

    /// The keys held in either.
    fn bitor(self, other: KeyState) -> (r: KeyState)
        ensures
            r@ == self@.union(other@),
    {
        let r = KeyState {
            key_w: self.key_w || other.key_w,
            key_a: self.key_a || other.key_a,
            key_s: self.key_s || other.key_s,
            key_d: self.key_d || other.key_d,
            key_f: self.key_f || other.key_f,
            space: self.space || other.space,
        };
        assert(r@ =~= self@.union(other@));
        r
    }
}

impl KeyCode {
    /// The four keys that steer horizontal movement.
    pub open spec fn is_movement(self) -> bool {
        match self {
            KeyCode::KeyW | KeyCode::KeyA | KeyCode::KeyS | KeyCode::KeyD => true,
            _ => false,
        }
    }

    /// The name of the physical key that is bound to this key by default.
    pub open spec fn default_name(self) -> Seq<char> {
        match self {
            KeyCode::KeyW => "KeyW"@,
            KeyCode::KeyA => "KeyA"@,
            KeyCode::KeyS => "KeyS"@,
            KeyCode::KeyD => "KeyD"@,
            KeyCode::KeyF => "KeyF"@,
            KeyCode::Space => "Space"@,
        }
    }
}

impl KeyState {
    /// A pure sideways strafe: left or right held, and neither forward nor back.
    pub fn is_side_strafe(self) -> (r: bool)
        ensures
            r == ((self@.contains(KeyCode::KeyA) || self@.contains(KeyCode::KeyD))
                && !(self@.contains(KeyCode::KeyW) || self@.contains(KeyCode::KeyS))),
    {
        (self.key_a || self.key_d) && !(self.key_w || self.key_s)
    }

    /// The keys held now that were not held in `previous` (rising edges).
    pub fn pressed(self, previous: KeyState) -> (r: KeyState)
        ensures
            r@ == self@.difference(previous@),
    {
        let r = core::ops::BitAnd::bitand(self, core::ops::Not::not(previous));
        assert(r@ =~= self@.difference(previous@));
        r
    }

    /// The keys held in `previous` that are not held now (falling edges).
    pub fn released(self, previous: KeyState) -> (r: KeyState)
        ensures
            r@ == previous@.difference(self@),
    {
        let r = core::ops::BitAnd::bitand(core::ops::Not::not(self), previous);
        assert(r@ =~= previous@.difference(self@));
        r
    }

    /// These keys with some channels taken from `bot`: the four movement keys
    /// when `moving` is set, and jump when `hopping` is set.
    pub fn overridden(self, bot: KeyState, moving: bool, hopping: bool) -> (r: KeyState)
        ensures
            forall|k: KeyCode|
                #[trigger] r.held(k) == if (moving && k.is_movement()) || (hopping && k
                    == KeyCode::Space) {
                    bot.held(k)
                } else {
                    self.held(k)
                },
    {
        let mut r = self;
        if moving {
            r.key_w = bot.key_w;
            r.key_a = bot.key_a;
            r.key_s = bot.key_s;
            r.key_d = bot.key_d;
        }
        if hopping {
            r.space = bot.space;
        }
        r
    }
}

/// A physical input: a keyboard key by its code name, or a mouse button by index.
#[derive(Debug)]
pub enum Button {
    Key(String),
    Mouse(u64),
}

impl Button {
    /// Both name the same physical input.
    pub open spec fn same(&self, other: &Button) -> bool {
        match (self, other) {
            (Button::Key(a), Button::Key(b)) => a@ == b@,
            (Button::Mouse(a), Button::Mouse(b)) => a == b,
            _ => false,
        }
    }

    /// The text that names this input to a user.
    pub open spec fn label_spec(&self) -> Seq<char> {
        match self {
            Button::Key(code) => code@,
            Button::Mouse(index) => "Mouse"@ + decimal(*index as nat),
        }
    }

    /// The text that names this input to a user: the key's code name, or
    /// `Mouse` followed by the button's index in decimal.
    pub fn label(&self) -> (r: String)
        ensures
            r@ == self.label_spec(),
    {
        match self {
            Button::Key(code) => code.clone(),
            Button::Mouse(index) => {
                let mut r = String::from_str("Mouse");
                append_decimal(&mut r, *index);
                r
            },
        }
    }
}

impl PartialEq for Button {
    fn eq(&self, other: &Button) -> (r: bool)
        ensures
            r == self.same(other),
    {
        match (self, other) {
            (Button::Key(a), Button::Key(b)) => <String as PartialEq>::eq(a, b),
            (Button::Mouse(a), Button::Mouse(b)) => *a == *b,
            _ => false,
        }
    }
}

impl vstd::std_specs::cmp::PartialEqSpecImpl for Button {
    open spec fn obeys_eq_spec() -> bool {
        true
    }

    open spec fn eq_spec(&self, other: &Button) -> bool {
        self.same(other)
    }
}

/// The character of a decimal digit.
pub open spec fn digit_char(d: nat) -> char {
    if d == 0 {
        '0'
    } else if d == 1 {
        '1'
    } else if d == 2 {
        '2'
    } else if d == 3 {
        '3'
    } else if d == 4 {
        '4'
    } else if d == 5 {
        '5'
    } else if d == 6 {
        '6'
    } else if d == 7 {
        '7'
    } else if d == 8 {
        '8'
    } else {
        '9'
    }
}

/// The decimal digits of `n`, most significant first, without leading zeros.
pub open spec fn decimal(n: nat) -> Seq<char>
    decreases n,
{
    if n < 10 {
        seq![digit_char(n)]
    } else {
        decimal(n / 10) + seq![digit_char(n % 10)]
    }
}

fn digit_str(d: u64) -> (r: &'static str)
    requires
        d < 10,
    ensures
        r@ == seq![digit_char(d as nat)],
{
    proof {
        reveal_strlit("0");
        reveal_strlit("1");
        reveal_strlit("2");
        reveal_strlit("3");
        reveal_strlit("4");
        reveal_strlit("5");
        reveal_strlit("6");
        reveal_strlit("7");
        reveal_strlit("8");
        reveal_strlit("9");
    }
    let r = if d == 0 {
        "0"
    } else if d == 1 {
        "1"
    } else if d == 2 {
        "2"
    } else if d == 3 {
        "3"
    } else if d == 4 {
        "4"
    } else if d == 5 {
        "5"
    } else if d == 6 {
        "6"
    } else if d == 7 {
        "7"
    } else if d == 8 {
        "8"
    } else {
        "9"
    };
    assert(r@ =~= seq![digit_char(d as nat)]);
    r
}

fn append_decimal(s: &mut String, n: u64)
    ensures
        final(s)@ == old(s)@ + decimal(n as nat),
    decreases n,
{
    if n >= 10 {
        append_decimal(s, n / 10);
    }
    s.append(digit_str(n % 10));
    assert(final(s)@ =~= old(s)@ + decimal(n as nat));
}

/// The button bound to each key.
pub struct KeyBinds {
    pub key_w: Button,
    pub key_a: Button,
    pub key_s: Button,
    pub key_d: Button,
    pub key_f: Button,
    pub space: Button,
}

impl KeyBinds {
    /// The button bound to key `k`.
    pub open spec fn bound(&self, k: KeyCode) -> Button {
        match k {
            KeyCode::KeyW => self.key_w,
            KeyCode::KeyA => self.key_a,
            KeyCode::KeyS => self.key_s,
            KeyCode::KeyD => self.key_d,
            KeyCode::KeyF => self.key_f,
            KeyCode::Space => self.space,
        }
    }

    /// The button bound to `target`.
    pub fn button(&self, target: KeyCode) -> (r: &Button)
        ensures
            *r == self.bound(target),
    {
        match target {
            KeyCode::KeyW => &self.key_w,
            KeyCode::KeyA => &self.key_a,
            KeyCode::KeyS => &self.key_s,
            KeyCode::KeyD => &self.key_d,
            KeyCode::KeyF => &self.key_f,
            KeyCode::Space => &self.space,
        }
    }

    /// Binds `button` to `target`; the other keys keep their buttons.
    pub fn rebind(&mut self, target: KeyCode, button: Button)
        ensures
            final(self).bound(target) == button,
            forall|k: KeyCode| k != target ==> #[trigger] final(self).bound(k) == old(self).bound(k),
    {
        match target {
            KeyCode::KeyW => self.key_w = button,
            KeyCode::KeyA => self.key_a = button,
            KeyCode::KeyS => self.key_s = button,
            KeyCode::KeyD => self.key_d = button,
            KeyCode::KeyF => self.key_f = button,
            KeyCode::Space => self.space = button,
        }
    }
}

impl Default for KeyBinds {
    /// Each key bound to the keyboard key of the same name.
    fn default() -> (r: KeyBinds)
        ensures
            forall|k: KeyCode|
                (#[trigger] r.bound(k) is Key) && r.bound(k).label_spec() == k.default_name(),
    {
        KeyBinds {
            key_w: Button::Key(String::from_str("KeyW")),
            key_a: Button::Key(String::from_str("KeyA")),
            key_s: Button::Key(String::from_str("KeyS")),
            key_d: Button::Key(String::from_str("KeyD")),
            key_f: Button::Key(String::from_str("KeyF")),
            space: Button::Key(String::from_str("Space")),
        }
    }
}

impl KeyState {
    /// Sets every key bound to `button` to `pressed`; the other keys are kept.
    pub fn set_mapped(&mut self, binds: &KeyBinds, button: Button, pressed: bool)
        ensures
            forall|k: KeyCode|
                #[trigger] final(self).held(k) == if binds.bound(k).same(&button) {
                    pressed
                } else {
                    old(self).held(k)
                },
    {
        if binds.key_w == button {
            self.key_w = pressed;
        }
        if binds.key_a == button {
            self.key_a = pressed;
        }
        if binds.key_s == button {
            self.key_s = pressed;
        }
        if binds.key_d == button {
            self.key_d = pressed;
        }
        if binds.key_f == button {
            self.key_f = pressed;
        }
        if binds.space == button {
            self.space = pressed;
        }
    }
}

} // verus!
