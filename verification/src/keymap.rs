//! Key bindings of the terminal client: the built-in defaults, the user's
//! overrides from `termium_keymap.toml`, and the arrow-key fallbacks for
//! navigation.
//!
//! Keys compare the way the terminal library compares them: a character key
//! is first brought to a canonical case (an upper-case ASCII letter always
//! carries SHIFT, and a letter pressed with SHIFT is upper-cased), then code,
//! modifiers, kind and state must all agree.

use vstd::prelude::*;
use crate::text::str_eq;

verus! {

/// What a key press asks the client to do.
#[derive(Debug, Clone, Copy, PartialEq, Eq, Hash, Structural)]
pub enum Action {
    PlayPause,
    NextTrack,
    PrevTrack,
    NavDown,
    NavUp,
    NavLeft,
    NavRight,
    Search,
    Activate,
    Quit,
}

/// Number of actions.
pub const ACTION_COUNT: usize = 10;

/// The actions in the order in which the keymap builder visits them.
pub open spec fn action_at(i: int) -> Action {
    if i == 0 { Action::PlayPause }
    else if i == 1 { Action::NextTrack }
    else if i == 2 { Action::PrevTrack }
    else if i == 3 { Action::NavDown }
    else if i == 4 { Action::NavUp }
    else if i == 5 { Action::NavLeft }
    else if i == 6 { Action::NavRight }
    else if i == 7 { Action::Search }
    else if i == 8 { Action::Activate }
    else { Action::Quit }
}

/// The position of an action in the builder's order.
pub open spec fn action_index(a: Action) -> int {
    match a {
        Action::PlayPause => 0,
        Action::NextTrack => 1,
        Action::PrevTrack => 2,
        Action::NavDown => 3,
        Action::NavUp => 4,
        Action::NavLeft => 5,
        Action::NavRight => 6,
        Action::Search => 7,
        Action::Activate => 8,
        Action::Quit => 9,
    }
}

/// The `i`-th action in the builder's order.
pub fn action_at_index(i: usize) -> (a: Action)
    requires
        i < ACTION_COUNT,
    ensures
        a == action_at(i as int),
        action_index(a) == i,
{
    if i == 0 { Action::PlayPause }
    else if i == 1 { Action::NextTrack }
    else if i == 2 { Action::PrevTrack }
    else if i == 3 { Action::NavDown }
    else if i == 4 { Action::NavUp }
    else if i == 5 { Action::NavLeft }
    else if i == 6 { Action::NavRight }
    else if i == 7 { Action::Search }
    else if i == 8 { Action::Activate }
    else { Action::Quit }
}

/// The name of an action in the keymap file.
pub open spec fn action_name_spec(a: Action) -> Seq<char> {
    match a {
        Action::PlayPause => "play_pause"@,
        Action::NextTrack => "next_track"@,
        Action::PrevTrack => "prev_track"@,
        Action::NavDown => "nav_down"@,
        Action::NavUp => "nav_up"@,
        Action::NavLeft => "nav_left"@,
        Action::NavRight => "nav_right"@,
        Action::Search => "search"@,
        Action::Activate => "activate"@,
        Action::Quit => "quit"@,
    }
}

/// The name of an action in the keymap file (`play_pause`, `nav_down`, ...).
pub fn action_name(a: Action) -> (r: &'static str)
    ensures
        r@ == action_name_spec(a),
{
    match a {
        Action::PlayPause => "play_pause",
        Action::NextTrack => "next_track",
        Action::PrevTrack => "prev_track",
        Action::NavDown => "nav_down",
        Action::NavUp => "nav_up",
        Action::NavLeft => "nav_left",
        Action::NavRight => "nav_right",
        Action::Search => "search",
        Action::Activate => "activate",
        Action::Quit => "quit",
    }
}

/// A key of the keyboard. `Media` and `Modifier` carry the position of the
/// media or modifier key in the terminal library's list of such keys.
#[derive(Debug, Clone, Copy, PartialEq, Eq, Hash, Structural)]
pub enum KeyCode {
    Backspace,
    Enter,
    Left,
    Right,
    Up,
    Down,
    Home,
    End,
    PageUp,
    PageDown,
    Tab,
    BackTab,
    Delete,
    Insert,
    F(u8),
    Char(char),
    Null,
    Esc,
    CapsLock,
    ScrollLock,
    NumLock,
    PrintScreen,
    Pause,
    Menu,
    KeypadBegin,
    Media(u8),
    Modifier(u8),
}

/// Whether a key event is a press, an auto-repeat or a release.
#[derive(Debug, Clone, Copy, PartialEq, Eq, Hash, Structural)]
pub enum KeyEventKind {
    Press,
    Repeat,
    Release,
}

/// The SHIFT bit of a modifier set.
pub const SHIFT: u8 = 1;

/// The empty modifier set.
pub const NO_MODIFIERS: u8 = 0;

/// One key event: the key, the modifier bits (SHIFT = 1, CONTROL = 2,
/// ALT = 4, SUPER = 8, HYPER = 16, META = 32), the kind of event and the
/// keyboard state bits (KEYPAD = 1, CAPS_LOCK = 2, NUM_LOCK = 4).
#[derive(Debug, Clone, Copy, PartialEq, Eq, Hash, Structural)]
pub struct KeyEvent {
    pub code: KeyCode,
    pub modifiers: u8,
    pub kind: KeyEventKind,
    pub state: u8,
}

/// Whether `c` is an ASCII upper-case letter.
pub open spec fn is_ascii_upper(c: char) -> bool {
    'A' <= c <= 'Z'
}

/// Whether `c` is an ASCII lower-case letter.
pub open spec fn is_ascii_lower(c: char) -> bool {
    'a' <= c <= 'z'
}

/// The ASCII upper-case form of `c` (other characters are unchanged).
pub open spec fn ascii_upper(c: char) -> char {
    if is_ascii_lower(c) {
        ((c as int) - 32) as char
    } else {
        c
    }
}

/// The key-press event of `code` with `modifiers`, in the default state.
pub open spec fn key_press(code: KeyCode, modifiers: u8) -> KeyEvent {
    KeyEvent { code, modifiers, kind: KeyEventKind::Press, state: 0 }
}

impl KeyEvent {
    /// A key press of `code` with `modifiers` and no keyboard state.
    pub fn new(code: KeyCode, modifiers: u8) -> (r: KeyEvent)
        ensures
            r == key_press(code, modifiers),
    {
        KeyEvent { code, modifiers, kind: KeyEventKind::Press, state: 0 }
    }

    /// The canonical form under which key events are compared.
    pub open spec fn normalized(self) -> KeyEvent {
        match self.code {
            KeyCode::Char(c) => {
                if is_ascii_upper(c) {
                    KeyEvent { modifiers: self.modifiers | SHIFT, ..self }
                } else if self.modifiers & SHIFT != 0 {
                    KeyEvent { code: KeyCode::Char(ascii_upper(c)), ..self }
                } else {
                    self
                }
            },
            _ => self,
        }
    }

    /// Brings a character key to its canonical case.
    pub fn normalize_case(self) -> (r: KeyEvent)
        ensures
            r == self.normalized(),
    {
        match self.code {
            KeyCode::Char(c) => {
                if 'A' <= c && c <= 'Z' {
                    KeyEvent { modifiers: self.modifiers | SHIFT, ..self }
                } else if self.modifiers & SHIFT != 0 {
                    let up = if 'a' <= c && c <= 'z' {
                        let b: u8 = c as u8;
                        (b - 32) as char
                    } else {
                        c
                    };
                    KeyEvent { code: KeyCode::Char(up), ..self }
                } else {
                    self
                }
            },
            _ => self,
        }
    }

    /// Whether two key events denote the same key.
    pub fn same_key(&self, other: &KeyEvent) -> (r: bool)
        ensures
            r == (self.normalized() == other.normalized()),
    {
        self.normalize_case() == other.normalize_case()
    }
}

/// Canonical forms are fixed points of the canonical form.
pub proof fn lemma_normalized_idempotent(k: KeyEvent)
    ensures
        k.normalized().normalized() == k.normalized(),
{
    let m = k.modifiers;
    assert((m | 1u8) | 1u8 == m | 1u8) by (bit_vector);
    assert(m & 1u8 != 0 ==> m | 1u8 == m) by (bit_vector);
    if let KeyCode::Char(c) = k.code {
        if !is_ascii_upper(c) && m & SHIFT != 0 && is_ascii_lower(c) {
            let u = ascii_upper(c);
            assert(u as int == (c as int) - 32);
            assert(is_ascii_upper(u));
        }
    }
}


/// The built-in key of each action.
pub open spec fn default_key(a: Action) -> KeyEvent {
    let code = match a {
        Action::PlayPause => KeyCode::Char(' '),
        Action::NextTrack => KeyCode::Char('n'),
        Action::PrevTrack => KeyCode::Char('p'),
        Action::NavDown => KeyCode::Char('j'),
        Action::NavUp => KeyCode::Char('k'),
        Action::NavLeft => KeyCode::Char('h'),
        Action::NavRight => KeyCode::Char('l'),
        Action::Search => KeyCode::Char('/'),
        Action::Activate => KeyCode::Enter,
        Action::Quit => KeyCode::Char('q'),
    };
    key_press(code, NO_MODIFIERS)
}

/// The built-in key of `action`: space, `n`, `p`, `j`, `k`, `h`, `l`, `/`,
/// Enter and `q`.
pub fn default_key_for(action: Action) -> (k: KeyEvent)
    ensures
        k == default_key(action),
{
    let code = match action {
        Action::PlayPause => KeyCode::Char(' '),
        Action::NextTrack => KeyCode::Char('n'),
        Action::PrevTrack => KeyCode::Char('p'),
        Action::NavDown => KeyCode::Char('j'),
        Action::NavUp => KeyCode::Char('k'),
        Action::NavLeft => KeyCode::Char('h'),
        Action::NavRight => KeyCode::Char('l'),
        Action::Search => KeyCode::Char('/'),
        Action::Activate => KeyCode::Enter,
        Action::Quit => KeyCode::Char('q'),
    };
    KeyEvent::new(code, NO_MODIFIERS)
}

/// The key that a key string of the keymap file names: `space`, `enter`,
/// `esc`, `up`, `down`, `left`, `right`, or any single character; `None`
/// for anything else.
pub open spec fn parse_key(s: Seq<char>) -> Option<KeyEvent> {
    if s == "space"@ {
        Some(key_press(KeyCode::Char(' '), NO_MODIFIERS))
    } else if s == "enter"@ {
        Some(key_press(KeyCode::Enter, NO_MODIFIERS))
    } else if s == "esc"@ {
        Some(key_press(KeyCode::Esc, NO_MODIFIERS))
    } else if s == "up"@ {
        Some(key_press(KeyCode::Up, NO_MODIFIERS))
    } else if s == "down"@ {
        Some(key_press(KeyCode::Down, NO_MODIFIERS))
    } else if s == "left"@ {
        Some(key_press(KeyCode::Left, NO_MODIFIERS))
    } else if s == "right"@ {
        Some(key_press(KeyCode::Right, NO_MODIFIERS))
    } else if s.len() == 1 {
        Some(key_press(KeyCode::Char(s[0]), NO_MODIFIERS))
    } else {
        None
    }
}

/// Parses a key string of the keymap file (see [`parse_key`]).
pub fn parse_key_string(s: &str) -> (r: Option<KeyEvent>)
    ensures
        r == parse_key(s@),
{
    let code = if str_eq(s, "space") {
        KeyCode::Char(' ')
    } else if str_eq(s, "enter") {
        KeyCode::Enter
    } else if str_eq(s, "esc") {
        KeyCode::Esc
    } else if str_eq(s, "up") {
        KeyCode::Up
    } else if str_eq(s, "down") {
        KeyCode::Down
    } else if str_eq(s, "left") {
        KeyCode::Left
    } else if str_eq(s, "right") {
        KeyCode::Right
    } else if s.unicode_len() == 1 {
        KeyCode::Char(s.get_char(0))
    } else {
        return None;
    };
    Some(KeyEvent::new(code, NO_MODIFIERS))
}

/// The arrow-key fallback for navigation: the action an arrow key stands for.
pub open spec fn alt_nav(k: KeyEvent) -> Option<Action> {
    if k == key_press(KeyCode::Down, NO_MODIFIERS) {
        Some(Action::NavDown)
    } else if k == key_press(KeyCode::Up, NO_MODIFIERS) {
        Some(Action::NavUp)
    } else if k == key_press(KeyCode::Left, NO_MODIFIERS) {
        Some(Action::NavLeft)
    } else if k == key_press(KeyCode::Right, NO_MODIFIERS) {
        Some(Action::NavRight)
    } else {
        None
    }
}

/// The user's overrides as read from the keymap file: one optional key
/// string per action.
pub struct RawKeymap {
    pub play_pause: Option<String>,
    pub next_track: Option<String>,
    pub prev_track: Option<String>,
    pub nav_down: Option<String>,
    pub nav_up: Option<String>,
    pub nav_left: Option<String>,
    pub nav_right: Option<String>,
    pub search: Option<String>,
    pub activate: Option<String>,
    pub quit: Option<String>,
}

/// The characters of an optional string.
pub open spec fn opt_chars(o: Option<String>) -> Option<Seq<char>> {
    match o {
        Some(s) => Some(s@),
        None => None,
    }
}

impl Default for RawKeymap {
    fn default() -> (r: Self)
        ensures
            forall|a: Action| r.override_of(a) is None,
    {
        RawKeymap {
            play_pause: None,
            next_track: None,
            prev_track: None,
            nav_down: None,
            nav_up: None,
            nav_left: None,
            nav_right: None,
            search: None,
            activate: None,
            quit: None,
        }
    }
}

impl RawKeymap {
    /// The override string of action `a`, if the file gives one.
    pub open spec fn override_of(&self, a: Action) -> Option<Seq<char>> {
        match a {
            Action::PlayPause => opt_chars(self.play_pause),
            Action::NextTrack => opt_chars(self.next_track),
            Action::PrevTrack => opt_chars(self.prev_track),
            Action::NavDown => opt_chars(self.nav_down),
            Action::NavUp => opt_chars(self.nav_up),
            Action::NavLeft => opt_chars(self.nav_left),
            Action::NavRight => opt_chars(self.nav_right),
            Action::Search => opt_chars(self.search),
            Action::Activate => opt_chars(self.activate),
            Action::Quit => opt_chars(self.quit),
        }
    }

    /// The override string stored under the action name `name`.
    pub open spec fn field_named(&self, name: Seq<char>) -> Option<Seq<char>> {
        if name == "play_pause"@ {
            opt_chars(self.play_pause)
        } else if name == "next_track"@ {
            opt_chars(self.next_track)
        } else if name == "prev_track"@ {
            opt_chars(self.prev_track)
        } else if name == "nav_down"@ {
            opt_chars(self.nav_down)
        } else if name == "nav_up"@ {
            opt_chars(self.nav_up)
        } else if name == "nav_left"@ {
            opt_chars(self.nav_left)
        } else if name == "nav_right"@ {
            opt_chars(self.nav_right)
        } else if name == "search"@ {
            opt_chars(self.search)
        } else if name == "activate"@ {
            opt_chars(self.activate)
        } else if name == "quit"@ {
            opt_chars(self.quit)
        } else {
            None
        }
    }

    /// The override string stored under the action name `name`; `None` for
    /// an unknown name or an action without override.
    pub fn get(&self, name: &str) -> (r: Option<&str>)
        ensures
            match r {
                Some(s) => self.field_named(name@) == Some(s@),
                None => self.field_named(name@) is None,
            },
    {
        let field = if str_eq(name, "play_pause") {
            &self.play_pause
        } else if str_eq(name, "next_track") {
            &self.next_track
        } else if str_eq(name, "prev_track") {
            &self.prev_track
        } else if str_eq(name, "nav_down") {
            &self.nav_down
        } else if str_eq(name, "nav_up") {
            &self.nav_up
        } else if str_eq(name, "nav_left") {
            &self.nav_left
        } else if str_eq(name, "nav_right") {
            &self.nav_right
        } else if str_eq(name, "search") {
            &self.search
        } else if str_eq(name, "activate") {
            &self.activate
        } else if str_eq(name, "quit") {
            &self.quit
        } else {
            return None;
        };
        match field {
            Some(s) => Some(s.as_str()),
            None => None,
        }
    }
}

/// The field stored under an action's name is that action's override.
pub proof fn lemma_field_named_action(raw: &RawKeymap, a: Action)
    ensures
        raw.field_named(action_name_spec(a)) == raw.override_of(a),
{
    reveal_strlit("play_pause");
    reveal_strlit("next_track");
    reveal_strlit("prev_track");
    reveal_strlit("nav_down");
    reveal_strlit("nav_up");
    reveal_strlit("nav_left");
    reveal_strlit("nav_right");
    reveal_strlit("search");
    reveal_strlit("activate");
    reveal_strlit("quit");
    assert("play_pause"@.len() == 10 && "play_pause"@[0] == 'p' && "play_pause"@[1] == 'l' && "play_pause"@[4] == '_');
    assert("next_track"@.len() == 10 && "next_track"@[0] == 'n' && "next_track"@[1] == 'e' && "next_track"@[4] == '_');
    assert("prev_track"@.len() == 10 && "prev_track"@[0] == 'p' && "prev_track"@[1] == 'r' && "prev_track"@[4] == '_');
    assert("nav_down"@.len() == 8 && "nav_down"@[0] == 'n' && "nav_down"@[1] == 'a' && "nav_down"@[4] == 'd');
    assert("nav_up"@.len() == 6 && "nav_up"@[0] == 'n' && "nav_up"@[1] == 'a' && "nav_up"@[4] == 'u');
    assert("nav_left"@.len() == 8 && "nav_left"@[0] == 'n' && "nav_left"@[1] == 'a' && "nav_left"@[4] == 'l');
    assert("nav_right"@.len() == 9 && "nav_right"@[0] == 'n' && "nav_right"@[1] == 'a' && "nav_right"@[4] == 'r');
    assert("search"@.len() == 6 && "search"@[0] == 's' && "search"@[1] == 'e' && "search"@[4] == 'c');
    assert("activate"@.len() == 8 && "activate"@[0] == 'a' && "activate"@[1] == 'c' && "activate"@[4] == 'v');
    assert("quit"@.len() == 4 && "quit"@[0] == 'q' && "quit"@[1] == 'u');
}


/// The key an action ends up bound to when the file overrides it: the parsed
/// key, or the action's default key when the string names no key.
pub open spec fn override_key(raw: RawKeymap, a: Action) -> KeyEvent {
    match parse_key(raw.override_of(a).unwrap()) {
        Some(k) => k,
        None => default_key(a),
    }
}

/// The default bindings, in order, of the first `n` actions that the file
/// does not override.
pub open spec fn default_ops(raw: RawKeymap, n: int) -> Seq<(KeyEvent, Action)>
    decreases n,
{
    if n <= 0 {
        Seq::empty()
    } else {
        let prev = default_ops(raw, n - 1);
        let a = action_at(n - 1);
        if raw.override_of(a) is None {
            prev.push((default_key(a), a))
        } else {
            prev
        }
    }
}

/// The explicit bindings, in order, of the first `n` actions that the file
/// overrides.
pub open spec fn override_ops(raw: RawKeymap, n: int) -> Seq<(KeyEvent, Action)>
    decreases n,
{
    if n <= 0 {
        Seq::empty()
    } else {
        let prev = override_ops(raw, n - 1);
        let a = action_at(n - 1);
        if raw.override_of(a) is Some {
            prev.push((override_key(raw, a), a))
        } else {
            prev
        }
    }
}

/// All bindings the builder makes before the arrow-key fallbacks: first the
/// defaults of the actions without override, then every override.
pub open spec fn explicit_ops(raw: RawKeymap) -> Seq<(KeyEvent, Action)> {
    default_ops(raw, ACTION_COUNT as int) + override_ops(raw, ACTION_COUNT as int)
}

/// The action of the last binding in `ops` whose key denotes the same key as
/// `k` (a later binding replaces an earlier one).
pub open spec fn last_binding(ops: Seq<(KeyEvent, Action)>, k: KeyEvent) -> Option<Action>
    decreases ops.len(),
{
    if ops.len() == 0 {
        None
    } else if ops.last().0.normalized() == k.normalized() {
        Some(ops.last().1)
    } else {
        last_binding(ops.drop_last(), k)
    }
}

/// The action that key `k` triggers in the keymap built from `raw`: the last
/// explicit binding of `k`, or else the arrow-key fallback.
pub open spec fn keymap_resolution(raw: RawKeymap, k: KeyEvent) -> Option<Action> {
    match last_binding(explicit_ops(raw), k) {
        Some(a) => Some(a),
        None => alt_nav(k.normalized()),
    }
}

/// The warning reported for an override string that names no key.
pub open spec fn warning_text(key: Seq<char>, name: Seq<char>) -> Seq<char> {
    "termium_keymap.toml: invalid key '"@ + key + "' for '"@ + name + "', using default"@
}

/// The warnings, in order, for the first `n` actions.
pub open spec fn warnings_upto(raw: RawKeymap, n: int) -> Seq<Seq<char>>
    decreases n,
{
    if n <= 0 {
        Seq::empty()
    } else {
        let prev = warnings_upto(raw, n - 1);
        let a = action_at(n - 1);
        match raw.override_of(a) {
            Some(s) => if parse_key(s) is None {
                prev.push(warning_text(s, action_name_spec(a)))
            } else {
                prev
            },
            None => prev,
        }
    }
}

/// All warnings for the overrides of `raw`.
pub open spec fn keymap_warnings(raw: RawKeymap) -> Seq<Seq<char>> {
    warnings_upto(raw, ACTION_COUNT as int)
}

/// Whether entry `i` is the first entry of `s` with key `nk`.
pub open spec fn first_match(s: Seq<(KeyEvent, Action)>, nk: KeyEvent, i: int) -> bool {
    &&& 0 <= i < s.len()
    &&& s[i].0 == nk
    &&& forall|j: int| 0 <= j < i ==> s[j].0 != nk
}

/// The action of the first entry of `s` with key `nk`.
pub open spec fn lookup(s: Seq<(KeyEvent, Action)>, nk: KeyEvent) -> Option<Action> {
    if exists|i: int| first_match(s, nk, i) {
        Some(s[choose|i: int| first_match(s, nk, i)].1)
    } else {
        None
    }
}

proof fn lemma_lookup_at(s: Seq<(KeyEvent, Action)>, nk: KeyEvent, i: int)
    requires
        first_match(s, nk, i),
    ensures
        lookup(s, nk) == Some(s[i].1),
{
    let c = choose|c: int| first_match(s, nk, c);
    assert(first_match(s, nk, c));
    if c < i {
        assert(s[c].0 != nk);
    } else if c > i {
        assert(s[i].0 != nk);
    }
}

/// The warning for override string `key` of the action named `name`.
fn invalid_key_warning(key: &str, name: &str) -> (w: String)
    ensures
        w@ == warning_text(key@, name@),
{
    let mut w = "termium_keymap.toml: invalid key '".to_owned();
    w.append(key);
    w.append("' for '");
    w.append(name);
    w.append("', using default");
    w
}

/// The key-to-action table of the terminal client.
pub struct Keymap {
    bindings: Vec<(KeyEvent, Action)>,
}

impl Keymap {
    /// The action that key `k` triggers.
    pub closed spec fn resolves(&self, k: KeyEvent) -> Option<Action> {
        lookup(self.bindings@, k.normalized())
    }

    fn empty() -> (r: Keymap)
        ensures
            forall|k: KeyEvent| r.resolves(k) is None,
    {
        Keymap { bindings: Vec::new() }
    }

    fn find(&self, nk: &KeyEvent) -> (r: Option<usize>)
        ensures
            match r {
                Some(i) => first_match(self.bindings@, *nk, i as int),
                None => forall|j: int| 0 <= j < self.bindings@.len() ==> self.bindings@[j].0 != *nk,
            },
    {
        let mut i: usize = 0;
        while i < self.bindings.len()
            invariant
                i <= self.bindings@.len(),
                forall|j: int| 0 <= j < i ==> self.bindings@[j].0 != *nk,
            decreases self.bindings@.len() - i,
        {
            if self.bindings[i].0 == *nk {
                return Some(i);
            }
            i = i + 1;
        }
        None
    }

    /// Binds `key` to `action`, replacing the action of a key that denotes
    /// the same key.
    fn bind(&mut self, key: KeyEvent, action: Action)
        ensures
            forall|k: KeyEvent| #[trigger] final(self).resolves(k) == if k.normalized() == key.normalized() {
                Some(action)
            } else {
                old(self).resolves(k)
            },
    {
        let nk = key.normalize_case();
        let ghost s0 = self.bindings@;
        match self.find(&nk) {
            Some(i) => {
                self.bindings.set(i, (nk, action));
                let ghost s1 = self.bindings@;
                assert forall|k: KeyEvent| #[trigger] self.resolves(k) == if k.normalized() == key.normalized() {
                    Some(action)
                } else {
                    old(self).resolves(k)
                } by {
                    let kn = k.normalized();
                    if kn == nk {
                        assert(first_match(s1, nk, i as int));
                        lemma_lookup_at(s1, nk, i as int);
                    } else {
                        if exists|j: int| first_match(s0, kn, j) {
                            let j = choose|j: int| first_match(s0, kn, j);
                            assert(first_match(s1, kn, j));
                            lemma_lookup_at(s0, kn, j);
                            lemma_lookup_at(s1, kn, j);
                        } else {
                            assert forall|j: int| !first_match(s1, kn, j) by {
                                if first_match(s1, kn, j) {
                                    assert(j != i);
                                    assert forall|m: int| 0 <= m < j implies s0[m].0 != kn by {
                                        if m != i {
                                            assert(s1[m] == s0[m]);
                                        }
                                    }
                                    assert(first_match(s0, kn, j));
                                }
                            }
                        }
                    }
                }
            },
            None => {
                self.bindings.push((nk, action));
                let ghost s1 = self.bindings@;
                assert forall|k: KeyEvent| #[trigger] self.resolves(k) == if k.normalized() == key.normalized() {
                    Some(action)
                } else {
                    old(self).resolves(k)
                } by {
                    let kn = k.normalized();
                    if kn == nk {
                        assert(first_match(s1, nk, s0.len() as int));
                        lemma_lookup_at(s1, nk, s0.len() as int);
                    } else {
                        if exists|j: int| first_match(s0, kn, j) {
                            let j = choose|j: int| first_match(s0, kn, j);
                            assert(first_match(s1, kn, j));
                            lemma_lookup_at(s0, kn, j);
                            lemma_lookup_at(s1, kn, j);
                        } else {
                            assert forall|j: int| !first_match(s1, kn, j) by {
                                if first_match(s1, kn, j) {
                                    assert(j < s0.len());
                                    assert forall|m: int| 0 <= m < j implies s0[m].0 != kn by {
                                        assert(s1[m] == s0[m]);
                                    }
                                    assert(first_match(s0, kn, j));
                                }
                            }
                        }
                    }
                }
            },
        }
    }

    /// Binds `key` to `action` unless a key that denotes the same key is
    /// already bound.
    fn bind_if_free(&mut self, key: KeyEvent, action: Action)
        ensures
            forall|k: KeyEvent| #[trigger] final(self).resolves(k) == if k.normalized() == key.normalized()
                && old(self).resolves(key) is None {
                Some(action)
            } else {
                old(self).resolves(k)
            },
    {
        let nk = key.normalize_case();
        proof { lemma_normalized_idempotent(key); }
        match self.find(&nk) {
            Some(i) => {
                proof { lemma_lookup_at(self.bindings@, nk, i as int); }
            },
            None => {
                self.bind(key, action);
            },
        }
    }

    /// Builds the keymap from the user's overrides: every action without
    /// override keeps its default key; then every override is bound (an
    /// override that names no key binds the action's default key and adds a
    /// warning), so an explicit binding wins a collision with another
    /// action's default; last, the arrow keys are bound to the navigation
    /// actions where they are still free.
    pub fn from_raw_with_warnings(raw: &RawKeymap) -> (r: (Keymap, Vec<String>))
        ensures
            forall|k: KeyEvent| #[trigger] r.0.resolves(k) == keymap_resolution(*raw, k),
            r.1@.len() == keymap_warnings(*raw).len(),
            forall|i: int| 0 <= i < r.1@.len() ==> #[trigger] r.1@[i]@ == keymap_warnings(*raw)[i],
    {
        let mut km = Keymap::empty();
        let mut warnings: Vec<String> = Vec::new();
        let ghost r = *raw;
        let mut i: usize = 0;
        while i < ACTION_COUNT
            invariant
                i <= ACTION_COUNT,
                r == *raw,
                forall|k: KeyEvent| #[trigger] km.resolves(k) == last_binding(default_ops(r, i as int), k),
            decreases ACTION_COUNT - i,
        {
            let action = action_at_index(i);
            let name = action_name(action);
            proof { lemma_field_named_action(raw, action); }
            let ghost prev = default_ops(r, i as int);
            if raw.get(name).is_none() {
                let key = default_key_for(action);
                km.bind(key, action);
                assert(default_ops(r, i + 1) == prev.push((key, action)));
                assert(prev.push((key, action)).drop_last() =~= prev);
            } else {
                assert(default_ops(r, i + 1) == prev);
            }
            i = i + 1;
        }
        let ghost dops = default_ops(r, ACTION_COUNT as int);
        assert(override_ops(r, 0) =~= Seq::<(KeyEvent, Action)>::empty());
        assert(dops + override_ops(r, 0) =~= dops);
        let mut i: usize = 0;
        while i < ACTION_COUNT
            invariant
                i <= ACTION_COUNT,
                r == *raw,
                dops == default_ops(r, ACTION_COUNT as int),
                forall|k: KeyEvent| #[trigger] km.resolves(k) == last_binding(dops + override_ops(r, i as int), k),
                warnings@.len() == warnings_upto(r, i as int).len(),
                forall|j: int| 0 <= j < warnings@.len() ==> #[trigger] warnings@[j]@ == warnings_upto(r, i as int)[j],
            decreases ACTION_COUNT - i,
        {
            let action = action_at_index(i);
            let name = action_name(action);
            proof { lemma_field_named_action(raw, action); }
            let ghost prev = override_ops(r, i as int);
            let ghost wprev = warnings_upto(r, i as int);
            match raw.get(name) {
                Some(user_key_str) => {
                    let key = match parse_key_string(user_key_str) {
                        Some(k) => {
                            assert(warnings_upto(r, i + 1) == wprev);
                            k
                        },
                        None => {
                            let w = invalid_key_warning(user_key_str, name);
                            warnings.push(w);
                            assert(warnings_upto(r, i + 1) == wprev.push(w@));
                            default_key_for(action)
                        },
                    };
                    km.bind(key, action);
                    assert(override_ops(r, i + 1) == prev.push((key, action)));
                    assert(dops + prev.push((key, action)) =~= (dops + prev).push((key, action)));
                    assert((dops + prev).push((key, action)).drop_last() =~= dops + prev);
                },
                None => {
                    assert(override_ops(r, i + 1) == prev);
                    assert(warnings_upto(r, i + 1) == wprev);
                },
            }
            i = i + 1;
        }
        let ghost ex = explicit_ops(r);
        assert(dops + override_ops(r, ACTION_COUNT as int) == ex);
        let ghost k0 = km;
        km.bind_if_free(KeyEvent::new(KeyCode::Down, NO_MODIFIERS), Action::NavDown);
        let ghost k1 = km;
        km.bind_if_free(KeyEvent::new(KeyCode::Up, NO_MODIFIERS), Action::NavUp);
        let ghost k2 = km;
        km.bind_if_free(KeyEvent::new(KeyCode::Left, NO_MODIFIERS), Action::NavLeft);
        let ghost k3 = km;
        km.bind_if_free(KeyEvent::new(KeyCode::Right, NO_MODIFIERS), Action::NavRight);
        assert forall|k: KeyEvent| #[trigger] km.resolves(k) == keymap_resolution(r, k) by {
            assert(k0.resolves(k) == last_binding(ex, k));
            assert(k1.resolves(k) == k0.resolves(k) || k.normalized() == key_press(KeyCode::Down, NO_MODIFIERS));
            assert(k2.resolves(k) == k1.resolves(k) || k.normalized() == key_press(KeyCode::Up, NO_MODIFIERS));
            assert(k3.resolves(k) == k2.resolves(k) || k.normalized() == key_press(KeyCode::Left, NO_MODIFIERS));
        }
        (km, warnings)
    }

    /// The action that `key` triggers, if any.
    pub fn resolve(&self, key: KeyEvent) -> (r: Option<Action>)
        ensures
            r == self.resolves(key),
    {
        let nk = key.normalize_case();
        match self.find(&nk) {
            Some(i) => {
                proof { lemma_lookup_at(self.bindings@, nk, i as int); }
                Some(self.bindings[i].1)
            },
            None => None,
        }
    }
}


proof fn lemma_last_binding_concat(s1: Seq<(KeyEvent, Action)>, s2: Seq<(KeyEvent, Action)>, k: KeyEvent)
    ensures
        last_binding(s1 + s2, k) == match last_binding(s2, k) {
            Some(x) => Some(x),
            None => last_binding(s1, k),
        },
    decreases s2.len(),
{
    if s2.len() == 0 {
        assert(s1 + s2 =~= s1);
    } else {
        assert((s1 + s2).drop_last() =~= s1 + s2.drop_last());
        assert((s1 + s2).last() == s2.last());
        lemma_last_binding_concat(s1, s2.drop_last(), k);
    }
}

proof fn lemma_last_binding_source(s: Seq<(KeyEvent, Action)>, k: KeyEvent)
    ensures
        match last_binding(s, k) {
            Some(b) => exists|j: int| 0 <= j < s.len() && s[j].0.normalized() == k.normalized() && s[j].1 == b,
            None => forall|j: int| 0 <= j < s.len() ==> s[j].0.normalized() != k.normalized(),
        },
    decreases s.len(),
{
    if s.len() > 0 {
        lemma_last_binding_source(s.drop_last(), k);
        if s.last().0.normalized() != k.normalized() {
            match last_binding(s.drop_last(), k) {
                Some(b) => {
                    let j = choose|j: int| 0 <= j < s.drop_last().len() && s.drop_last()[j].0.normalized() == k.normalized() && s.drop_last()[j].1 == b;
                    assert(s[j] == s.drop_last()[j]);
                },
                None => {
                    assert forall|j: int| 0 <= j < s.len() implies s[j].0.normalized() != k.normalized() by {
                        if j < s.len() - 1 {
                            assert(s[j] == s.drop_last()[j]);
                        }
                    }
                },
            }
        }
    }
}

proof fn lemma_default_ops(r: RawKeymap, n: int)
    ensures
        forall|j: int| 0 <= j < default_ops(r, n).len() ==> {
            let e = #[trigger] default_ops(r, n)[j];
            &&& e.0 == default_key(e.1)
            &&& r.override_of(e.1) is None
            &&& action_index(e.1) < n
        },
        forall|a: Action| r.override_of(a) is None && action_index(a) < n ==> exists|j: int|
            0 <= j < default_ops(r, n).len() && #[trigger] default_ops(r, n)[j] == (default_key(a), a),
    decreases n,
{
    if n > 0 {
        lemma_default_ops(r, n - 1);
        let prev = default_ops(r, n - 1);
        let a = action_at(n - 1);
        assert(action_index(a) == n - 1 || n - 1 >= ACTION_COUNT);
        if r.override_of(a) is None {
            let cur = prev.push((default_key(a), a));
            assert(default_ops(r, n) == cur);
            assert forall|b: Action| r.override_of(b) is None && action_index(b) < n implies exists|j: int|
                0 <= j < cur.len() && #[trigger] cur[j] == (default_key(b), b) by {
                if action_index(b) < n - 1 {
                    let j = choose|j: int| 0 <= j < prev.len() && #[trigger] prev[j] == (default_key(b), b);
                    assert(cur[j] == prev[j]);
                } else {
                    assert(b == a);
                    assert(cur[prev.len() as int] == (default_key(b), b));
                }
            }
        }
    }
}

proof fn lemma_override_ops(r: RawKeymap, n: int)
    ensures
        forall|j: int| 0 <= j < override_ops(r, n).len() ==> {
            let e = #[trigger] override_ops(r, n)[j];
            &&& e.0 == override_key(r, e.1)
            &&& r.override_of(e.1) is Some
            &&& action_index(e.1) < n
        },
        forall|a: Action| r.override_of(a) is Some && action_index(a) < n ==> exists|j: int|
            0 <= j < override_ops(r, n).len() && #[trigger] override_ops(r, n)[j] == (override_key(r, a), a),
    decreases n,
{
    if n > 0 {
        lemma_override_ops(r, n - 1);
        let prev = override_ops(r, n - 1);
        let a = action_at(n - 1);
        assert(action_index(a) == n - 1 || n - 1 >= ACTION_COUNT);
        if r.override_of(a) is Some {
            let cur = prev.push((override_key(r, a), a));
            assert(override_ops(r, n) == cur);
            assert forall|b: Action| r.override_of(b) is Some && action_index(b) < n implies exists|j: int|
                0 <= j < cur.len() && #[trigger] cur[j] == (override_key(r, b), b) by {
                if action_index(b) < n - 1 {
                    let j = choose|j: int| 0 <= j < prev.len() && #[trigger] prev[j] == (override_key(r, b), b);
                    assert(cur[j] == prev[j]);
                } else {
                    assert(b == a);
                    assert(cur[prev.len() as int] == (override_key(r, b), b));
                }
            }
        }
    }
}

/// The key an action is bound to explicitly: its override when the file
/// gives one, else its default key.
pub open spec fn bound_key(raw: RawKeymap, a: Action) -> KeyEvent {
    if raw.override_of(a) is Some {
        override_key(raw, a)
    } else {
        default_key(a)
    }
}

proof fn lemma_default_keys_distinct(a: Action, b: Action)
    ensures
        default_key(a).normalized() == default_key(b).normalized() ==> a == b,
{
}

/// A key triggers an action only through that action's own binding (its
/// override, or its default key when it has none) or through the arrow-key
/// fallback of a navigation action.
pub proof fn law_resolution_comes_from_binding(raw: RawKeymap, k: KeyEvent, a: Action)
    requires
        keymap_resolution(raw, k) == Some(a),
    ensures
        k.normalized() == bound_key(raw, a).normalized() || alt_nav(k.normalized()) == Some(a),
{
    let d = default_ops(raw, ACTION_COUNT as int);
    let o = override_ops(raw, ACTION_COUNT as int);
    lemma_last_binding_source(d + o, k);
    lemma_default_ops(raw, ACTION_COUNT as int);
    lemma_override_ops(raw, ACTION_COUNT as int);
    if let Some(b) = last_binding(d + o, k) {
        let j = choose|j: int| 0 <= j < (d + o).len() && (d + o)[j].0.normalized() == k.normalized() && (d + o)[j].1 == b;
        if j < d.len() {
            assert((d + o)[j] == d[j]);
        } else {
            assert((d + o)[j] == o[j - d.len()]);
        }
    }
}

/// An explicit override always wins: its key triggers an action that the
/// file overrides with a string naming the same key (the later of two such
/// actions, in the builder's order, when two overrides name one key).
pub proof fn law_override_wins(raw: RawKeymap, a: Action, k: KeyEvent)
    requires
        raw.override_of(a) is Some,
        parse_key(raw.override_of(a)->0) == Some(k),
    ensures
        exists|b: Action| #[trigger] keymap_resolution(raw, k) == Some(b)
            && raw.override_of(b) is Some
            && override_key(raw, b).normalized() == k.normalized(),
{
    let d = default_ops(raw, ACTION_COUNT as int);
    let o = override_ops(raw, ACTION_COUNT as int);
    lemma_override_ops(raw, ACTION_COUNT as int);
    lemma_last_binding_concat(d, o, k);
    lemma_last_binding_source(o, k);
    assert(action_index(a) < ACTION_COUNT);
    let j = choose|j: int| 0 <= j < o.len() && #[trigger] o[j] == (override_key(raw, a), a);
    assert(o[j].0.normalized() == k.normalized());
    let b = last_binding(o, k)->0;
    let i = choose|i: int| 0 <= i < o.len() && o[i].0.normalized() == k.normalized() && o[i].1 == b;
    assert(o[i] == (override_key(raw, b), b));
    assert(keymap_resolution(raw, k) == Some(b));
}

/// When no other action's override names the same key, an action's own
/// binding triggers it: its override key, or, when the override names no
/// key or there is none, its default key.
pub proof fn law_own_binding_resolves(raw: RawKeymap, a: Action)
    requires
        forall|b: Action| b != a && raw.override_of(b) is Some ==>
            override_key(raw, b).normalized() != bound_key(raw, a).normalized(),
    ensures
        keymap_resolution(raw, bound_key(raw, a)) == Some(a),
{
    let k = bound_key(raw, a);
    let d = default_ops(raw, ACTION_COUNT as int);
    let o = override_ops(raw, ACTION_COUNT as int);
    lemma_default_ops(raw, ACTION_COUNT as int);
    lemma_override_ops(raw, ACTION_COUNT as int);
    lemma_last_binding_concat(d, o, k);
    lemma_last_binding_source(o, k);
    lemma_last_binding_source(d, k);
    assert(action_index(a) < ACTION_COUNT);
    if raw.override_of(a) is Some {
        let j = choose|j: int| 0 <= j < o.len() && #[trigger] o[j] == (override_key(raw, a), a);
        assert(o[j].0.normalized() == k.normalized());
        let b = last_binding(o, k)->0;
        let i = choose|i: int| 0 <= i < o.len() && o[i].0.normalized() == k.normalized() && o[i].1 == b;
        assert(o[i] == (override_key(raw, b), b));
    } else {
        assert forall|i: int| 0 <= i < o.len() implies o[i].0.normalized() != k.normalized() by {
            assert(o[i] == (override_key(raw, o[i].1), o[i].1));
        }
        let j = choose|j: int| 0 <= j < d.len() && #[trigger] d[j] == (default_key(a), a);
        assert(d[j].0.normalized() == k.normalized());
        let b = last_binding(d, k)->0;
        let i = choose|i: int| 0 <= i < d.len() && d[i].0.normalized() == k.normalized() && d[i].1 == b;
        assert(d[i] == (default_key(b), b));
        lemma_default_keys_distinct(a, b);
    }
}

/// An override that names no key keeps the action on its default key and
/// is reported by one warning that names the string and the action.
pub proof fn law_invalid_override_warns(raw: RawKeymap, a: Action)
    requires
        raw.override_of(a) is Some,
        parse_key(raw.override_of(a)->0) is None,
    ensures
        bound_key(raw, a) == default_key(a),
        keymap_warnings(raw).contains(warning_text(raw.override_of(a)->0, action_name_spec(a))),
{
    lemma_warnings_upto(raw, ACTION_COUNT as int);
    assert(action_index(a) < ACTION_COUNT);
}

proof fn lemma_warnings_upto(r: RawKeymap, n: int)
    ensures
        forall|a: Action| r.override_of(a) is Some && parse_key(r.override_of(a)->0) is None
            && action_index(a) < n ==> warnings_upto(r, n).contains(
                #[trigger] warning_text(r.override_of(a)->0, action_name_spec(a)),
            ),
    decreases n,
{
    if n > 0 {
        lemma_warnings_upto(r, n - 1);
        let prev = warnings_upto(r, n - 1);
        let c = action_at(n - 1);
        assert(action_index(c) == n - 1 || n - 1 >= ACTION_COUNT);
        assert forall|a: Action| r.override_of(a) is Some && parse_key(r.override_of(a)->0) is None
            && action_index(a) < n implies warnings_upto(r, n).contains(
                #[trigger] warning_text(r.override_of(a)->0, action_name_spec(a))) by {
            let w = warning_text(r.override_of(a)->0, action_name_spec(a));
            if action_index(a) < n - 1 {
                let j = choose|j: int| 0 <= j < prev.len() && prev[j] == w;
                if r.override_of(c) is Some && parse_key(r.override_of(c)->0) is None {
                    let cur = prev.push(warning_text(r.override_of(c)->0, action_name_spec(c)));
                    assert(cur[j] == w);
                }
            } else {
                assert(a == c);
                let cur = prev.push(w);
                assert(cur[prev.len() as int] == w);
            }
        }
    }
}

/// The arrow keys trigger the navigation actions unless an override names
/// the same key.
pub proof fn law_arrow_fallback(raw: RawKeymap, code: KeyCode, a: Action)
    requires
        (code == KeyCode::Down && a == Action::NavDown) || (code == KeyCode::Up && a == Action::NavUp)
            || (code == KeyCode::Left && a == Action::NavLeft) || (code == KeyCode::Right
            && a == Action::NavRight),
        forall|b: Action| raw.override_of(b) is Some ==> override_key(raw, b).normalized()
            != key_press(code, NO_MODIFIERS),
    ensures
        keymap_resolution(raw, key_press(code, NO_MODIFIERS)) == Some(a),
{
    let k = key_press(code, NO_MODIFIERS);
    let d = default_ops(raw, ACTION_COUNT as int);
    let o = override_ops(raw, ACTION_COUNT as int);
    lemma_default_ops(raw, ACTION_COUNT as int);
    lemma_override_ops(raw, ACTION_COUNT as int);
    lemma_last_binding_concat(d, o, k);
    lemma_last_binding_source(o, k);
    lemma_last_binding_source(d, k);
    assert forall|i: int| 0 <= i < o.len() implies o[i].0.normalized() != k.normalized() by {
        assert(o[i] == (override_key(raw, o[i].1), o[i].1));
    }
    assert forall|i: int| 0 <= i < d.len() implies d[i].0.normalized() != k.normalized() by {
        assert(d[i] == (default_key(d[i].1), d[i].1));
    }
}

/// Each key name of the keymap file stands for the key it names, pressed
/// with no modifier, and a single character stands for that character.
pub proof fn law_key_names(c: char)
    ensures
        parse_key("space"@) == Some(KeyEvent { code: KeyCode::Char(' '), modifiers: 0, kind: KeyEventKind::Press, state: 0 }),
        parse_key("enter"@) == Some(KeyEvent { code: KeyCode::Enter, modifiers: 0, kind: KeyEventKind::Press, state: 0 }),
        parse_key("esc"@) == Some(KeyEvent { code: KeyCode::Esc, modifiers: 0, kind: KeyEventKind::Press, state: 0 }),
        parse_key("up"@) == Some(KeyEvent { code: KeyCode::Up, modifiers: 0, kind: KeyEventKind::Press, state: 0 }),
        parse_key("down"@) == Some(KeyEvent { code: KeyCode::Down, modifiers: 0, kind: KeyEventKind::Press, state: 0 }),
        parse_key("left"@) == Some(KeyEvent { code: KeyCode::Left, modifiers: 0, kind: KeyEventKind::Press, state: 0 }),
        parse_key("right"@) == Some(KeyEvent { code: KeyCode::Right, modifiers: 0, kind: KeyEventKind::Press, state: 0 }),
        parse_key(seq![c]) == Some(KeyEvent { code: KeyCode::Char(c), modifiers: 0, kind: KeyEventKind::Press, state: 0 }),
        parse_key(Seq::<char>::empty()) is None,
{
    reveal_strlit("space");
    reveal_strlit("enter");
    reveal_strlit("esc");
    reveal_strlit("up");
    reveal_strlit("down");
    reveal_strlit("left");
    reveal_strlit("right");
    assert("space"@.len() == 5 && "space"@[0] == 's');
    assert("enter"@.len() == 5 && "enter"@[0] == 'e');
    assert("esc"@.len() == 3 && "esc"@[0] == 'e');
    assert("up"@.len() == 2 && "up"@[0] == 'u');
    assert("down"@.len() == 4 && "down"@[0] == 'd');
    assert("left"@.len() == 4 && "left"@[0] == 'l');
    assert("right"@.len() == 5 && "right"@[0] == 'r');
    assert(seq![c].len() == 1);
}

/// An arrow key named in the keymap file is the arrow that the navigation
/// fallback gives the same direction: "left" is the key that falls back to
/// moving left, and so on for every arrow.
pub proof fn law_arrow_names_match_fallback()
    ensures
        parse_key("left"@) matches Some(k) && alt_nav(k) == Some(Action::NavLeft),
        parse_key("right"@) matches Some(k) && alt_nav(k) == Some(Action::NavRight),
        parse_key("up"@) matches Some(k) && alt_nav(k) == Some(Action::NavUp),
        parse_key("down"@) matches Some(k) && alt_nav(k) == Some(Action::NavDown),
        alt_nav(KeyEvent { code: KeyCode::Left, modifiers: 0, kind: KeyEventKind::Press, state: 0 }) == Some(Action::NavLeft),
        alt_nav(KeyEvent { code: KeyCode::Right, modifiers: 0, kind: KeyEventKind::Press, state: 0 }) == Some(Action::NavRight),
        alt_nav(KeyEvent { code: KeyCode::Up, modifiers: 0, kind: KeyEventKind::Press, state: 0 }) == Some(Action::NavUp),
        alt_nav(KeyEvent { code: KeyCode::Down, modifiers: 0, kind: KeyEventKind::Press, state: 0 }) == Some(Action::NavDown),
{
    law_key_names(' ');
}

/// The built-in key and the keymap-file name of every action: space plays
/// or pauses, `n`/`p` skip, `j`/`k`/`h`/`l` move, `/` searches, Enter
/// activates and `q` quits, each pressed with no modifier.
pub proof fn law_default_keys_and_names()
    ensures
        default_key(Action::PlayPause) == (KeyEvent { code: KeyCode::Char(' '), modifiers: 0, kind: KeyEventKind::Press, state: 0 }),
        action_name_spec(Action::PlayPause) == "play_pause"@,
        default_key(Action::NextTrack) == (KeyEvent { code: KeyCode::Char('n'), modifiers: 0, kind: KeyEventKind::Press, state: 0 }),
        action_name_spec(Action::NextTrack) == "next_track"@,
        default_key(Action::PrevTrack) == (KeyEvent { code: KeyCode::Char('p'), modifiers: 0, kind: KeyEventKind::Press, state: 0 }),
        action_name_spec(Action::PrevTrack) == "prev_track"@,
        default_key(Action::NavDown) == (KeyEvent { code: KeyCode::Char('j'), modifiers: 0, kind: KeyEventKind::Press, state: 0 }),
        action_name_spec(Action::NavDown) == "nav_down"@,
        default_key(Action::NavUp) == (KeyEvent { code: KeyCode::Char('k'), modifiers: 0, kind: KeyEventKind::Press, state: 0 }),
        action_name_spec(Action::NavUp) == "nav_up"@,
        default_key(Action::NavLeft) == (KeyEvent { code: KeyCode::Char('h'), modifiers: 0, kind: KeyEventKind::Press, state: 0 }),
        action_name_spec(Action::NavLeft) == "nav_left"@,
        default_key(Action::NavRight) == (KeyEvent { code: KeyCode::Char('l'), modifiers: 0, kind: KeyEventKind::Press, state: 0 }),
        action_name_spec(Action::NavRight) == "nav_right"@,
        default_key(Action::Search) == (KeyEvent { code: KeyCode::Char('/'), modifiers: 0, kind: KeyEventKind::Press, state: 0 }),
        action_name_spec(Action::Search) == "search"@,
        default_key(Action::Activate) == (KeyEvent { code: KeyCode::Enter, modifiers: 0, kind: KeyEventKind::Press, state: 0 }),
        action_name_spec(Action::Activate) == "activate"@,
        default_key(Action::Quit) == (KeyEvent { code: KeyCode::Char('q'), modifiers: 0, kind: KeyEventKind::Press, state: 0 }),
        action_name_spec(Action::Quit) == "quit"@,
{
}

} // verus!
