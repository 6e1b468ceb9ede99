//! The `kdeconnect.mousepad` plugin: turns a remote-input request from the
//! phone into the ordered list of pointer and keyboard events to inject on
//! this desktop, and the acknowledgement packet to send back.

use vstd::prelude::*;

verus! {

// X11 keysyms
pub const XK_BACKSPACE: i32 = 0xFF08;
pub const XK_TAB: i32 = 0xFF09;
pub const XK_RETURN: i32 = 0xFF0D;
pub const XK_RETURN_KP: i32 = 0xFF8D;
pub const XK_DELETE: i32 = 0xFFFF;
pub const XK_ESCAPE: i32 = 0xFF1B;
pub const XK_HOME: i32 = 0xFF50;
pub const XK_LEFT: i32 = 0xFF51;
pub const XK_UP: i32 = 0xFF52;
pub const XK_RIGHT: i32 = 0xFF53;
pub const XK_DOWN: i32 = 0xFF54;
pub const XK_PAGE_UP: i32 = 0xFF55;
pub const XK_PAGE_DOWN: i32 = 0xFF56;
pub const XK_END: i32 = 0xFF57;
pub const XK_INSERT: i32 = 0xFF63;
pub const XK_NUM_LOCK: i32 = 0xFF7F;
pub const XK_F1: i32 = 0xFFBE;
pub const XK_SHIFT_L: i32 = 0xFFE1;
pub const XK_CTRL_L: i32 = 0xFFE3;
pub const XK_ALT_L: i32 = 0xFFE9;
pub const XK_SUPER_L: i32 = 0xFFEB;

// Linux input button codes
pub const BTN_LEFT: i32 = 0x110;
pub const BTN_RIGHT: i32 = 0x111;
pub const BTN_MIDDLE: i32 = 0x112;

/// Keysym for the Unicode bit set on every character above ASCII.
pub const UNICODE_KEYSYM_BIT: i32 = 0x0100_0000;

/// The keysym that a KDE Connect "special key" code stands for.
pub open spec fn special_key_keysym(code: u32) -> Option<i32> {
    match code {
        1 => Some(XK_BACKSPACE),
        2 => Some(XK_TAB),
        3 => Some(XK_RETURN_KP),
        4 => Some(XK_RETURN),
        5 => Some(XK_DELETE),
        6 => Some(XK_ESCAPE),
        c if 9 <= c && c <= 20 => Some((XK_F1 + (c - 9)) as i32),
        21 => Some(XK_LEFT),
        22 => Some(XK_UP),
        23 => Some(XK_RIGHT),
        24 => Some(XK_DOWN),
        25 => Some(XK_PAGE_UP),
        26 => Some(XK_PAGE_DOWN),
        27 => Some(XK_HOME),
        28 => Some(XK_END),
        29 => Some(XK_RETURN),
        30 => Some(XK_INSERT),
        31 => Some(XK_NUM_LOCK),
        _ => None,
    }
}


/// The special-key codes of the KDE Connect protocol and the X11 keysyms
/// they stand for: 1 BackSpace, 2 Tab, 3 KP_Enter, 4 Return, 5 Delete,
/// 6 Escape, 9..20 F1..F12, 21 Left, 22 Up, 23 Right, 24 Down, 25 Page_Up,
/// 26 Page_Down, 27 Home, 28 End, 29 Return, 30 Insert, 31 Num_Lock; no
/// other code has a keysym.
pub proof fn lemma_special_key_table(code: u32)
    ensures
        code == 1 ==> special_key_keysym(code) == Some(0xFF08i32),
        code == 2 ==> special_key_keysym(code) == Some(0xFF09i32),
        code == 3 ==> special_key_keysym(code) == Some(0xFF8Di32),
        code == 4 ==> special_key_keysym(code) == Some(0xFF0Di32),
        code == 5 ==> special_key_keysym(code) == Some(0xFFFFi32),
        code == 6 ==> special_key_keysym(code) == Some(0xFF1Bi32),
        9 <= code <= 20 ==> special_key_keysym(code) == Some((0xFFBE + code - 9) as i32),
        code == 21 ==> special_key_keysym(code) == Some(0xFF51i32),
        code == 22 ==> special_key_keysym(code) == Some(0xFF52i32),
        code == 23 ==> special_key_keysym(code) == Some(0xFF53i32),
        code == 24 ==> special_key_keysym(code) == Some(0xFF54i32),
        code == 25 ==> special_key_keysym(code) == Some(0xFF55i32),
        code == 26 ==> special_key_keysym(code) == Some(0xFF56i32),
        code == 27 ==> special_key_keysym(code) == Some(0xFF50i32),
        code == 28 ==> special_key_keysym(code) == Some(0xFF57i32),
        code == 29 ==> special_key_keysym(code) == Some(0xFF0Di32),
        code == 30 ==> special_key_keysym(code) == Some(0xFF63i32),
        code == 31 ==> special_key_keysym(code) == Some(0xFF7Fi32),
        (code == 0 || code == 7 || code == 8 || code > 31) ==> special_key_keysym(code) is None,
{
}

/// Maps a KDE Connect special-key code (F1..F12 are 9..20) to an X11 keysym.
pub fn special_key_to_keysym(code: u32) -> (r: Option<i32>)
    ensures
        r == special_key_keysym(code),
        r is Some <==> (1 <= code <= 6 || 9 <= code <= 31),
{
    match code {
        1 => Some(XK_BACKSPACE),
        2 => Some(XK_TAB),
        3 => Some(XK_RETURN_KP),
        4 => Some(XK_RETURN),
        5 => Some(XK_DELETE),
        6 => Some(XK_ESCAPE),
        c if 9 <= c && c <= 20 => Some(XK_F1 + (c - 9) as i32),
        21 => Some(XK_LEFT),
        22 => Some(XK_UP),
        23 => Some(XK_RIGHT),
        24 => Some(XK_DOWN),
        25 => Some(XK_PAGE_UP),
        26 => Some(XK_PAGE_DOWN),
        27 => Some(XK_HOME),
        28 => Some(XK_END),
        29 => Some(XK_RETURN),
        30 => Some(XK_INSERT),
        31 => Some(XK_NUM_LOCK),
        _ => None,
    }
}

/// The keysym of a typed character: its code point, with the Unicode bit
/// added above ASCII.
pub open spec fn char_keysym(c: char) -> i32 {
    if (c as u32) > 0x7F {
        (UNICODE_KEYSYM_BIT + (c as u32)) as i32
    } else {
        c as i32
    }
}

/// Keysym of a typed character.
pub fn char_to_keysym(c: char) -> (r: i32)
    ensures
        r == char_keysym(c),
{
    let cp: u32 = c as u32;
    assert(cp <= 0x10FFFF);
    let cp_signed: i32 = cp as i32;
    if cp_signed > 0x7F {
        assert((0x0100_0000i32 | cp_signed) == 0x0100_0000i32 + cp_signed) by (bit_vector)
            requires
                0 <= cp_signed <= 0x10FFFF,
        ;
        UNICODE_KEYSYM_BIT | cp_signed
    } else {
        cp_signed
    }
}

/// `kdeconnect.mousepad.keyboardstate`: whether the desktop offers a keyboard.
#[derive(Clone, Debug, Default)]
pub struct KeyboardState {
    pub state: Option<bool>,
}

impl KeyboardState {
    /// Plugin identifier of the keyboard-state packet.
    pub fn id(&self) -> (r: &'static str)
        ensures
            r@ == "kdeconnect.mousepad.keyboardstate"@,
    {
        "kdeconnect.mousepad.keyboardstate"
    }
}

/// `kdeconnect.mousepad.request` as far as the decisions read it. The pointer
/// deltas `dx`/`dy` are floating point and stay with the caller;
/// `has_pointer_delta` records whether the packet carried both of them.
#[derive(Clone, Debug, Default)]
pub struct MousePadRequest {
    pub key: Option<String>,
    pub special_key: Option<u32>,
    pub alt: Option<bool>,
    pub ctrl: Option<bool>,
    pub shift: Option<bool>,
    pub super_key: Option<bool>,
    pub singleclick: Option<bool>,
    pub doubleclick: Option<bool>,
    pub middleclick: Option<bool>,
    pub rightclick: Option<bool>,
    pub singlehold: Option<bool>,
    pub singlerelease: Option<bool>,
    pub has_pointer_delta: bool,
    pub scroll: Option<bool>,
    pub send_ack: Option<bool>,
}

/// `kdeconnect.mousepad.echo`: the acknowledgement of a request.
#[derive(Clone, Debug)]
pub struct MousePadEcho {
    pub key: Option<String>,
    pub special_key: Option<u32>,
    pub alt: Option<bool>,
    pub ctrl: Option<bool>,
    pub shift: Option<bool>,
    pub is_ack: bool,
}

/// The mousepad plugin itself.
#[derive(Clone, Debug)]
pub struct MousePadPlugin;

impl MousePadPlugin {
    /// Plugin identifier.
    pub fn id(&self) -> (r: &'static str)
        ensures
            r@ == "mousepad"@,
    {
        "mousepad"
    }
}

/// One event for the desktop's remote-input session. Pointer motion and
/// scrolling carry the request's `dx`/`dy`, which the caller attaches.
#[derive(Clone, Copy, Debug, PartialEq, Eq, Structural)]
pub enum InputAction {
    PointerMotion,
    PointerScroll,
    PointerButton { button: i32, pressed: bool },
    KeySym { keysym: i32, pressed: bool },
}

pub open spec fn flag(o: Option<bool>) -> bool {
    o == Some(true)
}

pub open spec fn press(keysym: i32) -> InputAction {
    InputAction::KeySym { keysym, pressed: true }
}

pub open spec fn release(keysym: i32) -> InputAction {
    InputAction::KeySym { keysym, pressed: false }
}

pub open spec fn click(button: i32) -> Seq<InputAction> {
    seq![
        InputAction::PointerButton { button, pressed: true },
        InputAction::PointerButton { button, pressed: false },
    ]
}

impl MousePadRequest {
    /// The keysym to type: the first character of `key` when `key` is given
    /// (nothing when it is empty), else the special key's keysym.
    pub open spec fn spec_keysym(&self) -> Option<i32> {
        match self.key {
            Some(k) => if k@.len() > 0 {
                Some(char_keysym(k@[0]))
            } else {
                None
            },
            None => match self.special_key {
                Some(code) => special_key_keysym(code),
                None => None,
            },
        }
    }

    /// Held modifiers, in the order they are pressed: Ctrl, Alt, Shift, Super.
    pub open spec fn modifiers(&self) -> Seq<i32> {
        (if flag(self.ctrl) { seq![XK_CTRL_L] } else { seq![] }) + (if flag(self.alt) {
            seq![XK_ALT_L]
        } else {
            seq![]
        }) + (if flag(self.shift) { seq![XK_SHIFT_L] } else { seq![] }) + (if flag(
            self.super_key,
        ) {
            seq![XK_SUPER_L]
        } else {
            seq![]
        })
    }

    pub open spec fn pointer_actions(&self) -> Seq<InputAction> {
        if self.has_pointer_delta {
            if flag(self.scroll) {
                seq![InputAction::PointerScroll]
            } else {
                seq![InputAction::PointerMotion]
            }
        } else {
            seq![]
        }
    }

    /// At most one kind of click, in this order of precedence.
    pub open spec fn click_actions(&self) -> Seq<InputAction> {
        if flag(self.singlehold) {
            seq![InputAction::PointerButton { button: BTN_LEFT, pressed: true }]
        } else if flag(self.singlerelease) {
            seq![InputAction::PointerButton { button: BTN_LEFT, pressed: false }]
        } else if flag(self.singleclick) {
            click(BTN_LEFT)
        } else if flag(self.doubleclick) {
            click(BTN_LEFT) + click(BTN_LEFT)
        } else if flag(self.rightclick) {
            click(BTN_RIGHT)
        } else if flag(self.middleclick) {
            click(BTN_MIDDLE)
        } else {
            seq![]
        }
    }

    /// Modifiers down, the key down and up, modifiers up in reverse order.
    pub open spec fn key_actions(&self) -> Seq<InputAction> {
        match self.spec_keysym() {
            Some(ks) => self.modifiers().map_values(|m: i32| press(m)) + seq![
                press(ks),
                release(ks),
            ] + self.modifiers().reverse().map_values(|m: i32| release(m)),
            None => seq![],
        }
    }

    pub open spec fn spec_input_actions(&self) -> Seq<InputAction> {
        self.pointer_actions() + self.click_actions() + self.key_actions()
    }

    pub open spec fn spec_echo(&self) -> Option<MousePadEcho> {
        if flag(self.send_ack) {
            Some(
                MousePadEcho {
                    key: self.key,
                    special_key: self.special_key,
                    alt: self.alt,
                    ctrl: self.ctrl,
                    shift: self.shift,
                    is_ack: true,
                },
            )
        } else {
            None
        }
    }
}

fn is_set(o: Option<bool>) -> (r: bool)
    ensures
        r == flag(o),
{
    match o {
        Some(b) => b,
        None => false,
    }
}

fn push_click(out: &mut Vec<InputAction>, button: i32)
    ensures
        final(out)@ == old(out)@ + click(button),
{
    out.push(InputAction::PointerButton { button, pressed: true });
    out.push(InputAction::PointerButton { button, pressed: false });
    assert(out@ =~= old(out)@ + click(button));
}

impl MousePadRequest {
    /// The keysym this request types, if any.
    pub fn keysym(&self) -> (r: Option<i32>)
        ensures
            r == self.spec_keysym(),
    {
        match &self.key {
            Some(k) => {
                if k.as_str().is_empty() {
                    None
                } else {
                    let c = k.as_str().get_char(0);
                    Some(char_to_keysym(c))
                }
            },
            None => match self.special_key {
                Some(code) => special_key_to_keysym(code),
                None => None,
            },
        }
    }

    fn held_modifiers(&self) -> (r: Vec<i32>)
        ensures
            r@ == self.modifiers(),
    {
        let mut m: Vec<i32> = Vec::new();
        if is_set(self.ctrl) {
            m.push(XK_CTRL_L);
        }
        if is_set(self.alt) {
            m.push(XK_ALT_L);
        }
        if is_set(self.shift) {
            m.push(XK_SHIFT_L);
        }
        if is_set(self.super_key) {
            m.push(XK_SUPER_L);
        }
        assert(m@ =~= self.modifiers());
        m
    }

    fn push_pointer_actions(&self, out: &mut Vec<InputAction>)
        ensures
            final(out)@ == old(out)@ + self.pointer_actions(),
    {
        if self.has_pointer_delta {
            if is_set(self.scroll) {
                out.push(InputAction::PointerScroll);
            } else {
                out.push(InputAction::PointerMotion);
            }
        }
        assert(out@ =~= old(out)@ + self.pointer_actions());
    }

    fn push_click_actions(&self, out: &mut Vec<InputAction>)
        ensures
            final(out)@ == old(out)@ + self.click_actions(),
    {
        if is_set(self.singlehold) {
            out.push(InputAction::PointerButton { button: BTN_LEFT, pressed: true });
        } else if is_set(self.singlerelease) {
            out.push(InputAction::PointerButton { button: BTN_LEFT, pressed: false });
        } else if is_set(self.singleclick) {
            push_click(out, BTN_LEFT);
        } else if is_set(self.doubleclick) {
            push_click(out, BTN_LEFT);
            push_click(out, BTN_LEFT);
        } else if is_set(self.rightclick) {
            push_click(out, BTN_RIGHT);
        } else if is_set(self.middleclick) {
            push_click(out, BTN_MIDDLE);
        }
        assert(out@ =~= old(out)@ + self.click_actions());
    }

    fn push_key_actions(&self, out: &mut Vec<InputAction>)
        ensures
            final(out)@ == old(out)@ + self.key_actions(),
    {
        let ghost base = out@;
        match self.keysym() {
            Some(ks) => {
                let mods = self.held_modifiers();
                let n = mods.len();
                let mut i: usize = 0;
                while i < n
                    invariant
                        n == mods@.len(),
                        i <= n,
                        out@ =~= base + mods@.take(i as int).map_values(|m: i32| press(m)),
                    decreases n - i,
                {
                    out.push(InputAction::KeySym { keysym: mods[i], pressed: true });
                    assert(mods@.take(i + 1) =~= mods@.take(i as int).push(mods@[i as int]));
                    i = i + 1;
                }
                assert(mods@.take(n as int) =~= mods@);
                out.push(InputAction::KeySym { keysym: ks, pressed: true });
                out.push(InputAction::KeySym { keysym: ks, pressed: false });
                let ghost mid = out@;
                assert(mid =~= base + mods@.map_values(|m: i32| press(m)) + seq![
                    press(ks),
                    release(ks),
                ]);
                let mut j: usize = n;
                while j > 0
                    invariant
                        n == mods@.len(),
                        j <= n,
                        out@ =~= mid + mods@.reverse().take((n - j) as int).map_values(
                            |m: i32| release(m),
                        ),
                    decreases j,
                {
                    j = j - 1;
                    out.push(InputAction::KeySym { keysym: mods[j], pressed: false });
                    assert(mods@.reverse().take((n - j) as int) =~= mods@.reverse().take(
                        (n - j - 1) as int,
                    ).push(mods@[j as int]));
                }
                assert(mods@.reverse().take(n as int) =~= mods@.reverse());
                assert(out@ =~= base + self.key_actions());
            },
            None => {
                assert(out@ =~= base + self.key_actions());
            },
        }
    }

    /// The events to inject for this request, in order: pointer motion or
    /// scroll, then the click, then the (modified) key stroke.
    pub fn input_actions(&self) -> (r: Vec<InputAction>)
        ensures
            r@ == self.spec_input_actions(),
    {
        let mut out: Vec<InputAction> = Vec::new();
        self.push_pointer_actions(&mut out);
        self.push_click_actions(&mut out);
        self.push_key_actions(&mut out);
        assert(out@ =~= self.spec_input_actions());
        out
    }

    /// The acknowledgement to send back: only when the phone asked for one.
    pub fn echo(&self) -> (r: Option<MousePadEcho>)
        ensures
            r == self.spec_echo(),
    {
        if is_set(self.send_ack) {
            Some(
                MousePadEcho {
                    key: self.key.clone(),
                    special_key: self.special_key,
                    alt: self.alt,
                    ctrl: self.ctrl,
                    shift: self.shift,
                    is_ack: true,
                },
            )
        } else {
            None
        }
    }
}

/// Every key pressed for a request is released again, in the reverse order
/// of pressing: the key stroke reads the same backwards with each press
/// turned into a release.
pub proof fn lemma_key_strokes_balanced(r: MousePadRequest)
    ensures
        r.key_actions().len() % 2 == 0,
        forall|i: int|
            0 <= i < r.key_actions().len() / 2 ==> {
                &&& (#[trigger] r.key_actions()[i]) matches InputAction::KeySym {
                    keysym,
                    pressed,
                }
                &&& pressed
                &&& r.key_actions()[r.key_actions().len() - 1 - i] == release(keysym)
            },
{
    match r.spec_keysym() {
        Some(ks) => {
            let m = r.modifiers();
            let k = r.key_actions();
            let n = m.len();
            assert(k.len() == 2 * n + 2);
            assert forall|i: int| 0 <= i < k.len() / 2 implies {
                &&& (#[trigger] k[i]) matches InputAction::KeySym { keysym, pressed }
                &&& pressed
                &&& k[k.len() - 1 - i] == release(keysym)
            } by {
                if i < n {
                    assert(k[i] == press(m[i]));
                    assert(k[k.len() - 1 - i] == release(m.reverse()[n - 1 - i]));
                } else {
                    assert(i == n);
                    assert(k[i] == press(ks));
                }
            }
        },
        None => {},
    }
}

} // verus!
