//! Key bindings and configuration data: which configured strings denote which
//! decoded keys, and how a binding list is displayed. Loading a configuration
//! file is the caller's business; the types here are plain data.

use vstd::prelude::*;
use vstd::string::StrSliceExecFns;
use vstd::string::StringExecFns;
use crate::text::str_eq;

verus! {

/// A decoded key press, as the session sees it.
#[derive(Debug, Clone, Copy, PartialEq, Eq, Structural)]
pub enum Key {
    Up,
    Down,
    Left,
    Right,
    Enter,
    Esc,
    Tab,
    Backspace,
    F(u8),
    Char(char),
}

#[derive(Debug)]
pub struct NavigationKeys {
    pub up: Vec<String>,
    pub down: Vec<String>,
    pub left: Vec<String>,
    pub enter: Vec<String>,
}

#[derive(Debug)]
pub struct ActionKeys {
    pub quit: Vec<String>,
    pub search: Vec<String>,
    pub open: Vec<String>,
    pub reveal: Vec<String>,
    pub share: Vec<String>,
}

#[derive(Debug)]
pub struct SearchModeKeys {
    pub exit_search: Vec<String>,
    pub exit_to_results: Vec<String>,
    pub toggle_strategy: Vec<String>,
    pub navigate_tab: Vec<String>,
    pub backspace: Vec<String>,
}

#[derive(Debug)]
pub struct SearchResultsKeys {
    pub back: Vec<String>,
}

#[derive(Debug)]
pub struct KeyBindings {
    pub navigation: NavigationKeys,
    pub actions: ActionKeys,
    pub search_mode: SearchModeKeys,
    pub search_results: SearchResultsKeys,
}

#[derive(Debug)]
pub struct Config {
    pub notification_endpoint: Option<String>,
    pub notification_enabled: bool,
    pub key_bindings: KeyBindings,
}

/// Whether the binding string `s` denotes the key `key`: the named special
/// keys, the function keys F2 through F12, or a single character.
pub open spec fn key_str_matches(s: Seq<char>, key: Key) -> bool {
    if s == "Up"@ {
        key is Up
    } else if s == "Down"@ {
        key is Down
    } else if s == "Left"@ {
        key is Left
    } else if s == "Right"@ {
        key is Right
    } else if s == "Enter"@ {
        key is Enter
    } else if s == "Esc"@ {
        key is Esc
    } else if s == "Tab"@ {
        key is Tab
    } else if s == "Backspace"@ {
        key is Backspace
    } else if s == "F2"@ {
        key == Key::F(2)
    } else if s == "F3"@ {
        key == Key::F(3)
    } else if s == "F4"@ {
        key == Key::F(4)
    } else if s == "F5"@ {
        key == Key::F(5)
    } else if s == "F6"@ {
        key == Key::F(6)
    } else if s == "F7"@ {
        key == Key::F(7)
    } else if s == "F8"@ {
        key == Key::F(8)
    } else if s == "F9"@ {
        key == Key::F(9)
    } else if s == "F10"@ {
        key == Key::F(10)
    } else if s == "F11"@ {
        key == Key::F(11)
    } else if s == "F12"@ {
        key == Key::F(12)
    } else if s.len() == 1 {
        key == Key::Char(s[0])
    } else {
        false
    }
}

/// Some string in the configured list denotes `key`.
pub open spec fn spec_matches_key(list: Seq<String>, key: Key) -> bool {
    exists|i: int| 0 <= i < list.len() && key_str_matches(#[trigger] list[i]@, key)
}

/// Decide whether one binding string denotes `key`.
fn key_str_match(s: &str, key: &Key) -> (r: bool)
    ensures
        r == key_str_matches(s@, *key),
{
    if str_eq(s, "Up") {
        return matches!(key, Key::Up);
    }
    if str_eq(s, "Down") {
        return matches!(key, Key::Down);
    }
    if str_eq(s, "Left") {
        return matches!(key, Key::Left);
    }
    if str_eq(s, "Right") {
        return matches!(key, Key::Right);
    }
    if str_eq(s, "Enter") {
        return matches!(key, Key::Enter);
    }
    if str_eq(s, "Esc") {
        return matches!(key, Key::Esc);
    }
    if str_eq(s, "Tab") {
        return matches!(key, Key::Tab);
    }
    if str_eq(s, "Backspace") {
        return matches!(key, Key::Backspace);
    }
    if str_eq(s, "F2") {
        return matches!(key, Key::F(2));
    }
    if str_eq(s, "F3") {
        return matches!(key, Key::F(3));
    }
    if str_eq(s, "F4") {
        return matches!(key, Key::F(4));
    }
    if str_eq(s, "F5") {
        return matches!(key, Key::F(5));
    }
    if str_eq(s, "F6") {
        return matches!(key, Key::F(6));
    }
    if str_eq(s, "F7") {
        return matches!(key, Key::F(7));
    }
    if str_eq(s, "F8") {
        return matches!(key, Key::F(8));
    }
    if str_eq(s, "F9") {
        return matches!(key, Key::F(9));
    }
    if str_eq(s, "F10") {
        return matches!(key, Key::F(10));
    }
    if str_eq(s, "F11") {
        return matches!(key, Key::F(11));
    }
    if str_eq(s, "F12") {
        return matches!(key, Key::F(12));
    }
    if s.unicode_len() == 1 {
        let c = s.get_char(0);
        return match key {
            Key::Char(k) => *k == c,
            _ => false,
        };
    }
    false
}

/// The parts joined with `/` between them.
pub open spec fn joined_with_slash(parts: Seq<String>) -> Seq<char>
    decreases parts.len(),
{
    if parts.len() == 0 {
        Seq::empty()
    } else if parts.len() == 1 {
        parts[0]@
    } else {
        joined_with_slash(parts.drop_last()) + "/"@ + parts.last()@
    }
}

impl KeyBindings {
    /// Whether any of the configured binding strings denotes `key`.
    pub fn matches_key(&self, key_list: &Vec<String>, key: &Key) -> (r: bool)
        ensures
            r == spec_matches_key(key_list@, *key),
    {
        let mut i: usize = 0;
        while i < key_list.len()
            invariant
                i <= key_list@.len(),
                forall|k: int| 0 <= k < i ==> !key_str_matches(#[trigger] key_list@[k]@, *key),
            decreases key_list@.len() - i,
        {
            if key_str_match(key_list[i].as_str(), key) {
                return true;
            }
            i = i + 1;
        }
        false
    }

    /// The binding list as the interface shows it, joined with `/`.
    pub fn get_key_display(&self, key_list: &Vec<String>) -> (r: String)
        ensures
            r@ == joined_with_slash(key_list@),
    {
        let mut out = String::new();
        let mut i: usize = 0;
        proof {
            assert(key_list@.take(0int) =~= Seq::<String>::empty());
        }
        while i < key_list.len()
            invariant
                i <= key_list@.len(),
                out@ == joined_with_slash(key_list@.take(i as int)),
            decreases key_list@.len() - i,
        {
            if i > 0 {
                out.append("/");
            }
            out.append(key_list[i].as_str());
            proof {
                assert(key_list@.take(i + 1).drop_last() =~= key_list@.take(i as int));
                assert(key_list@.take(i + 1).last() == key_list@[i as int]);
                if i == 0 {
                    assert(out@ =~= key_list@.take(i + 1)[0]@);
                }
            }
            i = i + 1;
        }
        proof {
            assert(key_list@.take(key_list@.len() as int) =~= key_list@);
        }
        out
    }
}

/// One binding list holding exactly these strings.
pub open spec fn binding_is(list: Seq<String>, a: Seq<char>) -> bool {
    list.len() == 1 && list[0]@ == a
}

/// One binding list holding exactly these two strings.
pub open spec fn binding_is2(list: Seq<String>, a: Seq<char>, b: Seq<char>) -> bool {
    list.len() == 2 && list[0]@ == a && list[1]@ == b
}

/// The built-in bindings: arrows for navigation, `q` to quit, `/` to search,
/// paired lower/upper-case letters for open, reveal and share, and Esc /
/// Enter / F2 / Tab / Backspace inside search mode.
pub open spec fn is_default_bindings(kb: KeyBindings) -> bool {
    &&& binding_is(kb.navigation.up@, "Up"@)
    &&& binding_is(kb.navigation.down@, "Down"@)
    &&& binding_is(kb.navigation.left@, "Left"@)
    &&& binding_is(kb.navigation.enter@, "Right"@)
    &&& binding_is(kb.actions.quit@, "q"@)
    &&& binding_is(kb.actions.search@, "/"@)
    &&& binding_is2(kb.actions.open@, "o"@, "O"@)
    &&& binding_is2(kb.actions.reveal@, "r"@, "R"@)
    &&& binding_is2(kb.actions.share@, "s"@, "S"@)
    &&& binding_is(kb.search_mode.exit_search@, "Esc"@)
    &&& binding_is(kb.search_mode.exit_to_results@, "Enter"@)
    &&& binding_is(kb.search_mode.toggle_strategy@, "F2"@)
    &&& binding_is(kb.search_mode.navigate_tab@, "Tab"@)
    &&& binding_is(kb.search_mode.backspace@, "Backspace"@)
    &&& binding_is2(kb.search_results.back@, "Esc"@, "Left"@)
}

impl Default for KeyBindings {
    fn default() -> (r: Self)
        ensures
            is_default_bindings(r),
    {
        KeyBindings {
            navigation: NavigationKeys {
                up: vec![String::from_str("Up")],
                down: vec![String::from_str("Down")],
                left: vec![String::from_str("Left")],
                enter: vec![String::from_str("Right")],
            },
            actions: ActionKeys {
                quit: vec![String::from_str("q")],
                search: vec![String::from_str("/")],
                open: vec![String::from_str("o"), String::from_str("O")],
                reveal: vec![String::from_str("r"), String::from_str("R")],
                share: vec![String::from_str("s"), String::from_str("S")],
            },
            search_mode: SearchModeKeys {
                exit_search: vec![String::from_str("Esc")],
                exit_to_results: vec![String::from_str("Enter")],
                toggle_strategy: vec![String::from_str("F2")],
                navigate_tab: vec![String::from_str("Tab")],
                backspace: vec![String::from_str("Backspace")],
            },
            search_results: SearchResultsKeys {
                back: vec![String::from_str("Esc"), String::from_str("Left")],
            },
        }
    }
}

impl Default for Config {
    /// Notifications are off and the bindings are the built-in ones.
    fn default() -> (r: Self)
        ensures
            r.notification_endpoint is None,
            !r.notification_enabled,
            is_default_bindings(r.key_bindings),
    {
        Config {
            notification_endpoint: None,
            notification_enabled: false,
            key_bindings: KeyBindings::default(),
        }
    }
}

} // verus!
