//! Host settings: general options and key bindings, merged from defaults, a
//! global file and a project file.
use vstd::prelude::*;

verus! {

/// A key of the keyboard.
#[derive(Clone, Copy, Debug, PartialEq, Eq, Structural)]
pub enum KeyCode {
    Char(char),
    F(u8),
    Enter,
    Esc,
    Tab,
    Backspace,
    Delete,
    Insert,
    Home,
    End,
    PageUp,
    PageDown,
    Up,
    Down,
    Left,
    Right,
}

/// The modifier keys held with a key.
#[derive(Clone, Copy, Debug, PartialEq, Eq, Structural)]
pub struct KeyModifiers {
    pub shift: bool,
    pub control: bool,
    pub alt: bool,
}

pub open spec fn no_mods() -> KeyModifiers {
    KeyModifiers { shift: false, control: false, alt: false }
}

pub open spec fn shift_mod() -> KeyModifiers {
    KeyModifiers { shift: true, control: false, alt: false }
}

pub open spec fn control_mod() -> KeyModifiers {
    KeyModifiers { shift: false, control: true, alt: false }
}

pub open spec fn alt_mod() -> KeyModifiers {
    KeyModifiers { shift: false, control: false, alt: true }
}

impl KeyModifiers {
    /// No modifier.
    pub fn none() -> (r: KeyModifiers)
        ensures
            r == no_mods(),
    {
        KeyModifiers { shift: false, control: false, alt: false }
    }

    /// Shift alone.
    pub fn shift() -> (r: KeyModifiers)
        ensures
            r == shift_mod(),
    {
        KeyModifiers { shift: true, control: false, alt: false }
    }

    /// Control alone.
    pub fn control() -> (r: KeyModifiers)
        ensures
            r == control_mod(),
    {
        KeyModifiers { shift: false, control: true, alt: false }
    }

    /// Alt alone.
    pub fn alt() -> (r: KeyModifiers)
        ensures
            r == alt_mod(),
    {
        KeyModifiers { shift: false, control: false, alt: true }
    }
}

/// What follows `p` in `s`, where `s` starts with `p`.
pub open spec fn strip(s: Seq<char>, p: Seq<char>) -> Option<Seq<char>> {
    if p.len() <= s.len() && s.subrange(0, p.len() as int) == p {
        Some(s.subrange(p.len() as int, s.len() as int))
    } else {
        None
    }
}

/// The modifier that a binding names by prefix, and the rest of the binding.
pub open spec fn split_modifier(s: Seq<char>) -> (KeyModifiers, Seq<char>) {
    if strip(s, "Ctrl+"@) is Some {
        (control_mod(), strip(s, "Ctrl+"@).unwrap())
    } else if strip(s, "Alt+"@) is Some {
        (alt_mod(), strip(s, "Alt+"@).unwrap())
    } else if strip(s, "Shift+"@) is Some {
        (shift_mod(), strip(s, "Shift+"@).unwrap())
    } else {
        (no_mods(), s)
    }
}

/// The key that a name of more than one character stands for.
pub open spec fn named_key(k: Seq<char>) -> Option<KeyCode> {
    if k == "Enter"@ {
        Some(KeyCode::Enter)
    } else if k == "Esc"@ || k == "Escape"@ {
        Some(KeyCode::Esc)
    } else if k == "Tab"@ {
        Some(KeyCode::Tab)
    } else if k == "Backspace"@ {
        Some(KeyCode::Backspace)
    } else if k == "Delete"@ {
        Some(KeyCode::Delete)
    } else if k == "Insert"@ {
        Some(KeyCode::Insert)
    } else if k == "Home"@ {
        Some(KeyCode::Home)
    } else if k == "End"@ {
        Some(KeyCode::End)
    } else if k == "PageUp"@ {
        Some(KeyCode::PageUp)
    } else if k == "PageDown"@ {
        Some(KeyCode::PageDown)
    } else if k == "Up"@ {
        Some(KeyCode::Up)
    } else if k == "Down"@ {
        Some(KeyCode::Down)
    } else if k == "Left"@ {
        Some(KeyCode::Left)
    } else if k == "Right"@ {
        Some(KeyCode::Right)
    } else if k == "Space"@ {
        Some(KeyCode::Char(' '))
    } else if k == "F1"@ {
        Some(KeyCode::F(1))
    } else if k == "F2"@ {
        Some(KeyCode::F(2))
    } else if k == "F3"@ {
        Some(KeyCode::F(3))
    } else if k == "F4"@ {
        Some(KeyCode::F(4))
    } else if k == "F5"@ {
        Some(KeyCode::F(5))
    } else if k == "F6"@ {
        Some(KeyCode::F(6))
    } else if k == "F7"@ {
        Some(KeyCode::F(7))
    } else if k == "F8"@ {
        Some(KeyCode::F(8))
    } else if k == "F9"@ {
        Some(KeyCode::F(9))
    } else if k == "F10"@ {
        Some(KeyCode::F(10))
    } else if k == "F11"@ {
        Some(KeyCode::F(11))
    } else if k == "F12"@ {
        Some(KeyCode::F(12))
    } else {
        None
    }
}

/// What a binding such as `Ctrl+q`, `Enter` or `E` stands for. A single ASCII
/// character is that character; an upper-case letter without a modifier
/// prefix also asks for Shift.
pub open spec fn parse_key_spec(s: Seq<char>) -> Option<(KeyCode, KeyModifiers)> {
    let (mods, k) = split_modifier(s);
    match named_key(k) {
        Some(code) => Some((code, mods)),
        None => if k.len() == 1 && (k[0] as u32) < 128 {
            if 'A' <= k[0] && k[0] <= 'Z' && mods == no_mods() {
                Some((KeyCode::Char(k[0]), shift_mod()))
            } else {
                Some((KeyCode::Char(k[0]), mods))
            }
        } else {
            None
        },
    }
}

/// What follows `p` in `s`, where `s` starts with `p`.
fn strip_prefix_of(s: &str, p: &str) -> (r: Option<String>)
    ensures
        match r {
            Some(x) => strip(s@, p@) == Some(x@),
            None => strip(s@, p@) is None,
        },
{
    let n = s.unicode_len();
    let m = p.unicode_len();
    if m > n {
        return None;
    }
    let head = String::from_str(s.substring_char(0, m));
    if head == String::from_str(p) {
        Some(String::from_str(s.substring_char(m, n)))
    } else {
        None
    }
}

fn is_named(k: &String, name: &str) -> (r: bool)
    ensures
        r == (k@ == name@),
{
    *k == String::from_str(name)
}

fn named_key_of(k: &String) -> (r: Option<KeyCode>)
    ensures
        r == named_key(k@),
{
    if is_named(k, "Enter") {
        Some(KeyCode::Enter)
    } else if is_named(k, "Esc") || is_named(k, "Escape") {
        Some(KeyCode::Esc)
    } else if is_named(k, "Tab") {
        Some(KeyCode::Tab)
    } else if is_named(k, "Backspace") {
        Some(KeyCode::Backspace)
    } else if is_named(k, "Delete") {
        Some(KeyCode::Delete)
    } else if is_named(k, "Insert") {
        Some(KeyCode::Insert)
    } else if is_named(k, "Home") {
        Some(KeyCode::Home)
    } else if is_named(k, "End") {
        Some(KeyCode::End)
    } else if is_named(k, "PageUp") {
        Some(KeyCode::PageUp)
    } else if is_named(k, "PageDown") {
        Some(KeyCode::PageDown)
    } else if is_named(k, "Up") {
        Some(KeyCode::Up)
    } else if is_named(k, "Down") {
        Some(KeyCode::Down)
    } else if is_named(k, "Left") {
        Some(KeyCode::Left)
    } else if is_named(k, "Right") {
        Some(KeyCode::Right)
    } else if is_named(k, "Space") {
        Some(KeyCode::Char(' '))
    } else if is_named(k, "F1") {
        Some(KeyCode::F(1))
    } else if is_named(k, "F2") {
        Some(KeyCode::F(2))
    } else if is_named(k, "F3") {
        Some(KeyCode::F(3))
    } else if is_named(k, "F4") {
        Some(KeyCode::F(4))
    } else if is_named(k, "F5") {
        Some(KeyCode::F(5))
    } else if is_named(k, "F6") {
        Some(KeyCode::F(6))
    } else if is_named(k, "F7") {
        Some(KeyCode::F(7))
    } else if is_named(k, "F8") {
        Some(KeyCode::F(8))
    } else if is_named(k, "F9") {
        Some(KeyCode::F(9))
    } else if is_named(k, "F10") {
        Some(KeyCode::F(10))
    } else if is_named(k, "F11") {
        Some(KeyCode::F(11))
    } else if is_named(k, "F12") {
        Some(KeyCode::F(12))
    } else {
        None
    }
}

/// Reads a binding into a key and its modifiers; `None` where it names no key.
pub fn parse_key(s: &str) -> (r: Option<(KeyCode, KeyModifiers)>)
    ensures
        r == parse_key_spec(s@),
{
    let (mods, k) = match strip_prefix_of(s, "Ctrl+") {
        Some(rest) => (KeyModifiers::control(), rest),
        None => match strip_prefix_of(s, "Alt+") {
            Some(rest) => (KeyModifiers::alt(), rest),
            None => match strip_prefix_of(s, "Shift+") {
                Some(rest) => (KeyModifiers::shift(), rest),
                None => (KeyModifiers::none(), String::from_str(s)),
            },
        },
    };
    assert(split_modifier(s@) == (mods, k@));
    match named_key_of(&k) {
        Some(code) => Some((code, mods)),
        None => {
            let kk = k.as_str();
            if kk.unicode_len() == 1 && (kk.get_char(0) as u32) < 128 {
                let c = kk.get_char(0);
                if 'A' <= c && c <= 'Z' && !mods.shift && !mods.control && !mods.alt {
                    Some((KeyCode::Char(c), KeyModifiers::shift()))
                } else {
                    Some((KeyCode::Char(c), mods))
                }
            } else {
                None
            }
        },
    }
}

/// Whether `binding` stands for `code` held with exactly `modifiers`.
pub fn key_matches(binding: &str, code: KeyCode, modifiers: KeyModifiers) -> (r: bool)
    ensures
        r == (parse_key_spec(binding@) == Some((code, modifiers))),
{
    match parse_key(binding) {
        Some((k, m)) => k == code && m == modifiers,
        None => false,
    }
}

/// A binding: one key, or several that all do the same.
#[derive(Debug, Clone)]
pub enum KeyBinding {
    Single(String),
    Multiple(Vec<String>),
}

impl KeyBinding {
    /// One of the keys of this binding is `code` with exactly `modifiers`.
    pub open spec fn binds(&self, code: KeyCode, modifiers: KeyModifiers) -> bool {
        match self {
            KeyBinding::Single(s) => parse_key_spec(s@) == Some((code, modifiers)),
            KeyBinding::Multiple(v) => exists|i: int| 0 <= i < v@.len() && parse_key_spec(#[trigger] v@[i]@) == Some((code, modifiers)),
        }
    }

    /// Whether the key `code` held with `modifiers` is one of this binding's.
    pub fn matches(&self, code: KeyCode, modifiers: KeyModifiers) -> (r: bool)
        ensures
            r == self.binds(code, modifiers),
    {
        match self {
            KeyBinding::Single(s) => key_matches(s.as_str(), code, modifiers),
            KeyBinding::Multiple(keys) => {
                let mut i: usize = 0;
                while i < keys.len()
                    invariant
                        *self == KeyBinding::Multiple(*keys),
                        i <= keys@.len(),
                        forall|j: int| 0 <= j < i ==> parse_key_spec(#[trigger] keys@[j]@) != Some((code, modifiers)),
                    decreases keys@.len() - i,
                {
                    if key_matches(keys[i].as_str(), code, modifiers) {
                        assert(parse_key_spec(keys@[i as int]@) == Some((code, modifiers)));
                        return true;
                    }
                    i = i + 1;
                }
                false
            },
        }
    }
}

/// The binding of the single key `s`.
pub open spec fn is_single(b: KeyBinding, s: Seq<char>) -> bool {
    b matches KeyBinding::Single(x) && x@ == s
}

/// The binding of the two keys `a` and `b`, in that order.
pub open spec fn is_pair(b: KeyBinding, a: Seq<char>, c: Seq<char>) -> bool {
    b matches KeyBinding::Multiple(v) && v@.len() == 2 && v@[0]@ == a && v@[1]@ == c
}

fn single(s: &str) -> (r: KeyBinding)
    ensures
        is_single(r, s@),
{
    KeyBinding::Single(String::from_str(s))
}

fn pair(a: &str, b: &str) -> (r: KeyBinding)
    ensures
        is_pair(r, a@, b@),
{
    let mut v: Vec<String> = Vec::new();
    v.push(String::from_str(a));
    v.push(String::from_str(b));
    KeyBinding::Multiple(v)
}

/// General options of the host.
#[derive(Debug, Clone)]
pub struct GeneralConfig {
    pub auto_reload: bool,
    pub debounce_ms: u32,
    pub image_viewer: Option<String>,
    pub show_timings: bool,
}

impl Default for GeneralConfig {
    fn default() -> (r: Self)
        ensures
            r.auto_reload,
            r.debounce_ms == 500,
            r.image_viewer is None,
            !r.show_timings,
    {
        GeneralConfig { auto_reload: true, debounce_ms: 500, image_viewer: None, show_timings: false }
    }
}

/// The key for each command of the host.
#[derive(Debug, Clone)]
pub struct Keybindings {
    pub quit: KeyBinding,
    pub clear_context: KeyBinding,
    pub view_output: KeyBinding,
    pub view_error: KeyBinding,
    pub view_build_error: KeyBinding,
    pub reload: KeyBinding,
    pub edit: KeyBinding,
    pub run_cell: KeyBinding,
    pub navigate_down: KeyBinding,
    pub navigate_up: KeyBinding,
}

impl Default for Keybindings {
    fn default() -> (r: Self)
        ensures
            is_single(r.quit, "q"@),
            is_single(r.clear_context, "x"@),
            is_single(r.view_output, "o"@),
            is_single(r.view_error, "e"@),
            is_single(r.view_build_error, "f"@),
            is_single(r.reload, "r"@),
            is_single(r.edit, "E"@),
            is_single(r.run_cell, "Enter"@),
            is_pair(r.navigate_down, "Down"@, "j"@),
            is_pair(r.navigate_up, "Up"@, "k"@),
    {
        Keybindings {
            quit: single("q"),
            clear_context: single("x"),
            view_output: single("o"),
            view_error: single("e"),
            view_build_error: single("f"),
            reload: single("r"),
            edit: single("E"),
            run_cell: single("Enter"),
            navigate_down: pair("Down", "j"),
            navigate_up: pair("Up", "k"),
        }
    }
}

/// All settings of the host.
#[derive(Debug, Clone)]
pub struct AppConfig {
    pub general: GeneralConfig,
    pub keybindings: Keybindings,
}

impl Default for AppConfig {
    fn default() -> (r: Self)
        ensures
            r.general.auto_reload,
            r.general.debounce_ms == 500,
            r.general.image_viewer is None,
            !r.general.show_timings,
            is_single(r.keybindings.quit, "q"@),
            is_single(r.keybindings.reload, "r"@),
            is_single(r.keybindings.run_cell, "Enter"@),
            is_pair(r.keybindings.navigate_down, "Down"@, "j"@),
    {
        AppConfig { general: GeneralConfig::default(), keybindings: Keybindings::default() }
    }
}

/// General options as a settings file gives them: each may be left out.
#[derive(Debug, Clone, Default)]
pub struct PartialGeneralConfig {
    pub auto_reload: Option<bool>,
    pub debounce_ms: Option<u32>,
    pub image_viewer: Option<String>,
    pub show_timings: Option<bool>,
}

/// Key bindings as a settings file gives them: each may be left out.
#[derive(Debug, Clone, Default)]
pub struct PartialKeybindings {
    pub quit: Option<KeyBinding>,
    pub clear_context: Option<KeyBinding>,
    pub view_output: Option<KeyBinding>,
    pub view_error: Option<KeyBinding>,
    pub view_build_error: Option<KeyBinding>,
    pub reload: Option<KeyBinding>,
    pub edit: Option<KeyBinding>,
    pub run_cell: Option<KeyBinding>,
    pub navigate_down: Option<KeyBinding>,
    pub navigate_up: Option<KeyBinding>,
}

/// A settings file: either section may be left out.
#[derive(Debug, Clone, Default)]
pub struct PartialAppConfig {
    pub general: Option<PartialGeneralConfig>,
    pub keybindings: Option<PartialKeybindings>,
}

pub open spec fn pick<T>(o: Option<T>, d: T) -> T {
    match o {
        Some(v) => v,
        None => d,
    }
}

pub open spec fn merged_general(b: GeneralConfig, p: Option<PartialGeneralConfig>) -> GeneralConfig {
    match p {
        None => b,
        Some(g) => GeneralConfig {
            auto_reload: pick(g.auto_reload, b.auto_reload),
            debounce_ms: pick(g.debounce_ms, b.debounce_ms),
            image_viewer: if g.image_viewer is Some {
                g.image_viewer
            } else {
                b.image_viewer
            },
            show_timings: pick(g.show_timings, b.show_timings),
        },
    }
}

pub open spec fn merged_keys(b: Keybindings, p: Option<PartialKeybindings>) -> Keybindings {
    match p {
        None => b,
        Some(k) => Keybindings {
            quit: pick(k.quit, b.quit),
            clear_context: pick(k.clear_context, b.clear_context),
            view_output: pick(k.view_output, b.view_output),
            view_error: pick(k.view_error, b.view_error),
            view_build_error: pick(k.view_build_error, b.view_build_error),
            reload: pick(k.reload, b.reload),
            edit: pick(k.edit, b.edit),
            run_cell: pick(k.run_cell, b.run_cell),
            navigate_down: pick(k.navigate_down, b.navigate_down),
            navigate_up: pick(k.navigate_up, b.navigate_up),
        },
    }
}

/// Settings `b` with every field that `p` gives replaced by it.
pub open spec fn merged(b: AppConfig, p: PartialAppConfig) -> AppConfig {
    AppConfig { general: merged_general(b.general, p.general), keybindings: merged_keys(b.keybindings, p.keybindings) }
}

fn set_binding(target: &mut KeyBinding, v: Option<KeyBinding>)
    ensures
        *final(target) == pick(v, *old(target)),
{
    match v {
        Some(b) => *target = b,
        None => {},
    }
}

/// Lays the fields that `patch` gives over `base`, one field at a time.
pub fn merge(base: &mut AppConfig, patch: PartialAppConfig)
    ensures
        *final(base) == merged(*old(base), patch),
{
    match patch.general {
        Some(general) => {
            match general.auto_reload {
                Some(v) => base.general.auto_reload = v,
                None => {},
            }
            match general.debounce_ms {
                Some(v) => base.general.debounce_ms = v,
                None => {},
            }
            match general.image_viewer {
                Some(v) => base.general.image_viewer = Some(v),
                None => {},
            }
            match general.show_timings {
                Some(v) => base.general.show_timings = v,
                None => {},
            }
        },
        None => {},
    }
    match patch.keybindings {
        Some(k) => {
            set_binding(&mut base.keybindings.quit, k.quit);
            set_binding(&mut base.keybindings.clear_context, k.clear_context);
            set_binding(&mut base.keybindings.view_output, k.view_output);
            set_binding(&mut base.keybindings.view_error, k.view_error);
            set_binding(&mut base.keybindings.view_build_error, k.view_build_error);
            set_binding(&mut base.keybindings.reload, k.reload);
            set_binding(&mut base.keybindings.edit, k.edit);
            set_binding(&mut base.keybindings.run_cell, k.run_cell);
            set_binding(&mut base.keybindings.navigate_down, k.navigate_down);
            set_binding(&mut base.keybindings.navigate_up, k.navigate_up);
        },
        None => {},
    }
}

} // verus!
