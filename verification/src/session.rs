//! The interactive session state machine: the current mode (browsing, typing a
//! query, viewing results), the query buffer, the result list, the two
//! selection cursors, status messages with their fade, and the transitions a
//! keystroke drives. Everything that touches the terminal, the clock or the
//! filesystem happens outside; the session takes timestamps, listings and
//! search outcomes as plain values and says exactly what it does with them.

use vstd::prelude::*;
use vstd::string::StringExecFns;
use crate::config::{Config, Key};
use crate::file_system::{parent_of, FileExplorer, FileInfo};
use crate::search::{
    next_strategy, strategy_description, SearchEngine, SearchError, SearchResult, SearchStrategy,
    error_text,
};
use crate::text::{dec_str, push_char, u64_to_string};
use vstd::string::StrSliceExecFns;

verus! {

/// Severity of a status message.
#[derive(Debug, Clone, Copy, PartialEq, Eq, Structural)]
pub enum MessageType {
    Info,
    Warning,
    Error,
}

/// A status line entry: its text, severity, when it was set (milliseconds on
/// the caller's clock) and how many milliseconds it stays before fading back
/// to the default hint.
#[derive(Debug)]
pub struct StatusMessage {
    pub text: String,
    pub message_type: MessageType,
    pub timestamp: u64,
    pub fade_duration: u64,
}

/// A pending cut or copy.
#[derive(Debug, Clone, Copy, PartialEq, Eq, Structural)]
pub enum ClipboardOperation {
    Cut,
    Copy,
}

/// The file a cut or copy was taken on.
#[derive(Debug)]
pub struct ClipboardEntry {
    pub file_path: String,
    pub operation: ClipboardOperation,
}

/// The three session modes.
#[derive(Debug, Clone, Copy, PartialEq, Eq, Structural)]
pub enum SessionMode {
    Browsing,
    Typing,
    ViewingResults,
}

/// What the caller must do next on the session's behalf. Everything that needs
/// the filesystem, the clock or another process comes back as an action; the
/// session itself never blocks.
#[derive(Debug)]
pub enum SessionAction {
    /// Nothing to do outside the session.
    Idle,
    /// Leave the session loop.
    Quit,
    /// After the debounce delay, run one search with this strategy over the
    /// current query and hand the outcome to `perform_search`.
    RunSearch { strategy: SearchStrategy, debounce_ms: u64 },
    /// Read the listing of this directory and hand it to `finish_navigation`.
    NavigateInto { path: String },
    /// Read the parent directory's listing and hand it to `go_up`.
    GoUp,
    /// Open this file with the default application.
    OpenFile { path: String },
    /// Reveal this path in the file manager.
    RevealPath { path: String },
    /// Serve this file for sharing.
    ShareFile { path: String },
}

/// An info message never fades on its own.
pub const INFO_FADE_MS: u64 = u64::MAX;

/// A warning fades after five seconds.
pub const WARNING_FADE_MS: u64 = 5000;

/// An error fades after eight seconds.
pub const ERROR_FADE_MS: u64 = 8000;

/// Delay before the re-search a typed character triggers.
pub const CHAR_DEBOUNCE_MS: u64 = 100;

/// Delay before the re-search a strategy toggle triggers.
pub const TOGGLE_DEBOUNCE_MS: u64 = 50;

/// Result cap handed to the fast strategy by the interactive session.
pub const FAST_MAX_RESULTS: usize = 100;

/// The hint shown when no other message is active.
pub open spec fn default_hint() -> Seq<char> {
    "Press '/' to search, 'q' to quit, Enter to navigate, 'x' to cut, 'c' to copy, 'v' to paste"@
}

/// The hint shown after abandoning a search.
pub open spec fn browse_hint() -> Seq<char> {
    "Press '/' to search, 'q' to quit, Enter to navigate"@
}

/// The message shown on entering search mode.
pub open spec fn enter_search_message(strategy: SearchStrategy) -> Seq<char> {
    "Search mode: "@ + strategy_description(strategy)
        + " - Type to search, F2 to toggle strategy, ESC to exit, Enter to keep results"@
}

/// The message shown when leaving search mode with results kept.
pub open spec fn results_kept_message(n: int) -> Seq<char> {
    "Search results ("@ + dec_str(n)
        + " items) - Navigate with Up/Down, Enter to open, '/' to search again"@
}

/// The message shown when a search came back empty.
pub open spec fn no_results_message(input: Seq<char>, strategy: SearchStrategy) -> Seq<char> {
    "No results found for '"@ + input + "' ("@ + strategy_description(strategy) + ")"@
}

/// The message shown when a search found something.
pub open spec fn found_results_message(n: int, strategy: SearchStrategy) -> Seq<char> {
    "Found "@ + dec_str(n) + " results ("@ + strategy_description(strategy) + ")"@
}

/// The message shown after a strategy toggle; while typing a non-empty query
/// it adds a hint that the search re-runs.
pub open spec fn strategy_message(strategy: SearchStrategy, hint_again: bool) -> Seq<char> {
    "Search strategy: "@ + strategy_description(strategy) + if hint_again {
        " - type to search again"@
    } else {
        Seq::<char>::empty()
    }
}

/// The message shown when a search failed.
pub open spec fn search_error_message(e: SearchError) -> Seq<char> {
    "Search error: "@ + error_text(e)
}

/// The status line holds exactly this message.
pub open spec fn message_is(
    m: Option<StatusMessage>,
    text: Seq<char>,
    t: MessageType,
    now_ms: u64,
    fade: u64,
) -> bool {
    &&& m matches Some(sm) && sm.text@ == text && sm.message_type == t && sm.timestamp == now_ms
        && sm.fade_duration == fade
}

/// A selection cursor is in range exactly when its list is non-empty.
pub open spec fn selection_ok(sel: Option<usize>, len: nat) -> bool {
    match sel {
        Some(i) => len > 0 && i < len,
        None => len == 0,
    }
}

/// The selection a fresh list gets.
pub open spec fn first_selection(len: nat) -> Option<usize> {
    if len > 0 {
        Some(0usize)
    } else {
        None
    }
}

/// Circular successor of a cursor over a non-empty list.
pub open spec fn next_index(cur: Option<usize>, len: nat) -> Option<usize> {
    match cur {
        Some(i) => if i + 1 >= len {
            Some(0usize)
        } else {
            Some((i + 1) as usize)
        },
        None => Some(0usize),
    }
}

/// Circular predecessor of a cursor over a non-empty list.
pub open spec fn prev_index(cur: Option<usize>, len: nat) -> Option<usize> {
    match cur {
        Some(i) => if i == 0 {
            Some((len - 1) as usize)
        } else {
            Some((i - 1) as usize)
        },
        None => Some(0usize),
    }
}

/// A message has outlived its fade duration on the caller's clock. A clock
/// that runs backwards never expires anything.
pub open spec fn message_expired(m: StatusMessage, now_ms: u64) -> bool {
    now_ms >= m.timestamp && now_ms - m.timestamp > m.fade_duration
}

/// The message confirming a cut.
pub open spec fn cut_message(name: Seq<char>) -> Seq<char> {
    "Cut '"@ + name + "' - navigate to destination and press 'v' to paste"@
}

/// The message confirming a copy.
pub open spec fn copy_message(name: Seq<char>) -> Seq<char> {
    "Copied '"@ + name + "' - navigate to destination and press 'v' to paste"@
}

/// `a` and `b` agree on everything but the clipboard.
pub open spec fn same_but_clipboard(a: App, b: App) -> bool {
    &&& a.explorer == b.explorer
    &&& a.search_engine == b.search_engine
    &&& a.config == b.config
    &&& a.list_state == b.list_state
    &&& a.search_mode == b.search_mode
    &&& a.search_input == b.search_input
    &&& a.search_results == b.search_results
    &&& a.search_list_state == b.search_list_state
    &&& a.status_message == b.status_message
    &&& a.search_strategy == b.search_strategy
    &&& a.showing_search_results == b.showing_search_results
}

/// Entering search mode: the query and any previous results are discarded.
pub open spec fn entered_search_rel(o: App, n: App, now_ms: u64) -> bool {
    &&& n.explorer == o.explorer
    &&& n.search_engine == o.search_engine
    &&& n.config == o.config
    &&& n.search_strategy == o.search_strategy
    &&& n.list_state == o.list_state
    &&& n.clipboard == o.clipboard
    &&& n.search_mode && !n.showing_search_results
    &&& n.search_input@ == Seq::<char>::empty()
    &&& n.search_results@ == Seq::<SearchResult>::empty()
    &&& n.search_list_state is None
    &&& message_is(
        n.status_message,
        enter_search_message(o.search_strategy),
        MessageType::Info,
        now_ms,
        INFO_FADE_MS,
    )
}

/// Leaving search mode: non-empty results stay visible and navigable; an
/// empty search is abandoned back to browsing with the query discarded.
pub open spec fn exited_search_rel(o: App, n: App, now_ms: u64) -> bool {
    &&& n.explorer == o.explorer
    &&& n.search_engine == o.search_engine
    &&& n.config == o.config
    &&& n.search_strategy == o.search_strategy
    &&& n.list_state == o.list_state
    &&& n.clipboard == o.clipboard
    &&& n.search_results == o.search_results
    &&& n.search_list_state == o.search_list_state
    &&& !n.search_mode
    &&& if o.search_results@.len() > 0 {
        &&& n.showing_search_results
        &&& n.search_input == o.search_input
        &&& message_is(
            n.status_message,
            results_kept_message(o.search_results@.len() as int),
            MessageType::Info,
            now_ms,
            INFO_FADE_MS,
        )
    } else {
        &&& !n.showing_search_results
        &&& n.search_input@ == Seq::<char>::empty()
        &&& message_is(n.status_message, browse_hint(), MessageType::Info, now_ms, INFO_FADE_MS)
    }
}

/// Dropping results entirely: back to browsing, query and results cleared,
/// the browse cursor reset, the default hint shown.
pub open spec fn cleared_results_rel(o: App, n: App, now_ms: u64) -> bool {
    &&& n.explorer == o.explorer
    &&& n.search_engine == o.search_engine
    &&& n.config == o.config
    &&& n.search_strategy == o.search_strategy
    &&& n.clipboard == o.clipboard
    &&& !n.search_mode && !n.showing_search_results
    &&& n.search_input@ == Seq::<char>::empty()
    &&& n.search_results@ == Seq::<SearchResult>::empty()
    &&& n.search_list_state is None
    &&& n.list_state == first_selection(o.explorer.files@.len())
    &&& message_is(n.status_message, default_hint(), MessageType::Info, now_ms, INFO_FADE_MS)
}

/// Advancing the strategy cyclically; already-displayed results stay as they
/// are, only the message and the strategy change.
pub open spec fn toggled_strategy_rel(o: App, n: App, now_ms: u64) -> bool {
    &&& n.explorer == o.explorer
    &&& n.search_engine == o.search_engine
    &&& n.config == o.config
    &&& n.list_state == o.list_state
    &&& n.search_list_state == o.search_list_state
    &&& n.search_mode == o.search_mode
    &&& n.showing_search_results == o.showing_search_results
    &&& n.search_input == o.search_input
    &&& n.search_results == o.search_results
    &&& n.clipboard == o.clipboard
    &&& n.search_strategy == next_strategy(o.search_strategy)
    &&& message_is(
        n.status_message,
        strategy_message(
            next_strategy(o.search_strategy),
            o.search_mode && o.search_input@.len() > 0,
        ),
        MessageType::Info,
        now_ms,
        INFO_FADE_MS,
    )
}

/// The entry the interface highlights: from the result list while results are
/// shown, else from the browse list.
pub open spec fn spec_selected_file(a: App) -> Option<FileInfo> {
    if a.showing_search_results {
        match a.search_list_state {
            Some(i) => if i < a.search_results@.len() {
                Some(a.search_results@[i as int].file_info)
            } else {
                None
            },
            None => None,
        }
    } else {
        match a.list_state {
            Some(i) => if i < a.explorer.files@.len() {
                Some(a.explorer.files@[i as int])
            } else {
                None
            },
            None => None,
        }
    }
}

/// The directory the activate key would enter: the selected entry of the
/// active list, when it is a directory.
pub open spec fn spec_navigation_target(a: App) -> Option<FileInfo> {
    if a.search_mode || a.showing_search_results {
        match a.search_list_state {
            Some(i) => if i < a.search_results@.len()
                && a.search_results@[i as int].file_info.is_directory {
                Some(a.search_results@[i as int].file_info)
            } else {
                None
            },
            None => None,
        }
    } else {
        match a.list_state {
            Some(i) => if i < a.explorer.files@.len() && a.explorer.files@[i as int].is_directory {
                Some(a.explorer.files@[i as int])
            } else {
                None
            },
            None => None,
        }
    }
}

/// What one keystroke does while typing a query, in the priority order the
/// bindings are tried: exit keys leave search mode; the toggle key advances
/// the strategy and, with a non-empty query, asks for exactly one re-search
/// under the new strategy; backspace shortens the query and re-searches or
/// clears; arrows move the cursor; Tab asks to navigate into a selected
/// directory result; any other character extends the query and asks for one
/// debounced search.
pub open spec fn search_key_step(
    o: App,
    n: App,
    key: Key,
    now_ms: u64,
    action: SessionAction,
) -> bool {
    let kb = o.config.key_bindings;
    if crate::config::spec_matches_key(kb.search_mode.exit_search@, key)
        || crate::config::spec_matches_key(kb.search_mode.exit_to_results@, key) {
        &&& exited_search_rel(o, n, now_ms)
        &&& action is Idle
    } else if crate::config::spec_matches_key(kb.search_mode.toggle_strategy@, key) {
        &&& toggled_strategy_rel(o, n, now_ms)
        &&& if o.search_input@.len() > 0 {
            action == (SessionAction::RunSearch {
                strategy: next_strategy(o.search_strategy),
                debounce_ms: TOGGLE_DEBOUNCE_MS,
            })
        } else {
            action is Idle
        }
    } else if crate::config::spec_matches_key(kb.search_mode.backspace@, key) {
        &&& n.explorer == o.explorer
        &&& n.search_engine == o.search_engine
        &&& n.config == o.config
        &&& n.search_strategy == o.search_strategy
        &&& n.search_mode == o.search_mode
        &&& n.showing_search_results == o.showing_search_results
        &&& n.list_state == o.list_state
        &&& n.status_message == o.status_message
        &&& n.clipboard == o.clipboard
        &&& n.search_input@ == if o.search_input@.len() > 0 {
            o.search_input@.drop_last()
        } else {
            o.search_input@
        }
        &&& if n.search_input@.len() > 0 {
            &&& n.search_results == o.search_results
            &&& n.search_list_state == o.search_list_state
            &&& action == (SessionAction::RunSearch {
                strategy: o.search_strategy,
                debounce_ms: 0u64,
            })
        } else {
            &&& n.search_results@ == Seq::<SearchResult>::empty()
            &&& n.search_list_state is None
            &&& action is Idle
        }
    } else if crate::config::spec_matches_key(kb.navigation.up@, key) {
        &&& prev_item_rel(o, n)
        &&& action is Idle
    } else if crate::config::spec_matches_key(kb.navigation.down@, key) {
        &&& next_item_rel(o, n)
        &&& action is Idle
    } else if crate::config::spec_matches_key(kb.search_mode.navigate_tab@, key) {
        &&& n == o
        &&& match spec_navigation_target(o) {
            Some(f) => action matches SessionAction::NavigateInto { path } && path == f.path,
            None => action is Idle,
        }
    } else {
        match key {
            Key::Char(c) => {
                &&& n.explorer == o.explorer
                &&& n.search_engine == o.search_engine
                &&& n.config == o.config
                &&& n.search_strategy == o.search_strategy
                &&& n.search_mode == o.search_mode
                &&& n.showing_search_results == o.showing_search_results
                &&& n.list_state == o.list_state
                &&& n.search_results == o.search_results
                &&& n.search_list_state == o.search_list_state
                &&& n.status_message == o.status_message
                &&& n.clipboard == o.clipboard
                &&& n.search_input@ == o.search_input@.push(c)
                &&& action == (SessionAction::RunSearch {
                    strategy: o.search_strategy,
                    debounce_ms: CHAR_DEBOUNCE_MS,
                })
            },
            _ => {
                &&& n == o
                &&& action is Idle
            },
        }
    }
}

/// The selected entry examined for the open, reveal and share keys: a missing
/// selection or a directory where a file is needed sets an error message and
/// asks for nothing; otherwise the state is untouched and the caller gets the
/// path to act on.
pub open spec fn act_on_file_step(
    o: App,
    n: App,
    now_ms: u64,
    action: SessionAction,
    dir_refused: bool,
    dir_error: Seq<char>,
    is_file_action: spec_fn(Seq<char>, SessionAction) -> bool,
) -> bool {
    match spec_selected_file(o) {
        Some(f) => if dir_refused && f.is_directory {
            &&& same_but_message(o, n)
            &&& message_is(n.status_message, dir_error, MessageType::Error, now_ms, ERROR_FADE_MS)
            &&& action is Idle
        } else {
            &&& n == o
            &&& is_file_action(f.path@, action)
        },
        None => {
            &&& same_but_message(o, n)
            &&& message_is(
                n.status_message,
                "No file selected"@,
                MessageType::Error,
                now_ms,
                ERROR_FADE_MS,
            )
            &&& action is Idle
        },
    }
}

/// What one keystroke does while results are on display, in binding priority
/// order: quit; a fresh search; open, reveal or share the selected entry;
/// back or the left arrow drops the results; the toggle key advances the
/// strategy; Enter navigates into a selected directory; arrows move the
/// cursor.
pub open spec fn results_key_step(
    o: App,
    n: App,
    key: Key,
    now_ms: u64,
    action: SessionAction,
) -> bool {
    let kb = o.config.key_bindings;
    if crate::config::spec_matches_key(kb.actions.quit@, key) {
        &&& n == o
        &&& action is Quit
    } else if crate::config::spec_matches_key(kb.actions.search@, key) {
        &&& entered_search_rel(o, n, now_ms)
        &&& action is Idle
    } else if crate::config::spec_matches_key(kb.actions.open@, key) {
        act_on_file_step(
            o,
            n,
            now_ms,
            action,
            true,
            "Cannot open directory as file. Use Enter to navigate."@,
            |p: Seq<char>, a: SessionAction| a matches SessionAction::OpenFile { path } && path@
                == p,
        )
    } else if crate::config::spec_matches_key(kb.actions.reveal@, key) {
        act_on_file_step(
            o,
            n,
            now_ms,
            action,
            false,
            Seq::<char>::empty(),
            |p: Seq<char>, a: SessionAction| a matches SessionAction::RevealPath { path } && path@
                == p,
        )
    } else if crate::config::spec_matches_key(kb.actions.share@, key) {
        act_on_file_step(
            o,
            n,
            now_ms,
            action,
            true,
            "Cannot share directories. Please select a file."@,
            |p: Seq<char>, a: SessionAction| a matches SessionAction::ShareFile { path } && path@
                == p,
        )
    } else if crate::config::spec_matches_key(kb.search_results.back@, key) {
        &&& cleared_results_rel(o, n, now_ms)
        &&& action is Idle
    } else if crate::config::spec_matches_key(kb.search_mode.toggle_strategy@, key) {
        &&& toggled_strategy_rel(o, n, now_ms)
        &&& action is Idle
    } else if crate::config::spec_matches_key(kb.navigation.enter@, key) {
        &&& n == o
        &&& match spec_navigation_target(o) {
            Some(f) => action matches SessionAction::NavigateInto { path } && path == f.path,
            None => action is Idle,
        }
    } else if crate::config::spec_matches_key(kb.navigation.up@, key) {
        &&& prev_item_rel(o, n)
        &&& action is Idle
    } else if crate::config::spec_matches_key(kb.navigation.down@, key) {
        &&& next_item_rel(o, n)
        &&& action is Idle
    } else if crate::config::spec_matches_key(kb.navigation.left@, key) {
        &&& cleared_results_rel(o, n, now_ms)
        &&& action is Idle
    } else {
        &&& n == o
        &&& action is Idle
    }
}

/// What one keystroke does while browsing, in binding priority order: quit; a
/// fresh search; open, reveal or share the selected entry; the toggle key
/// advances the strategy; Enter navigates into a selected directory; arrows
/// move the cursor; the left arrow asks to go up one directory.
pub open spec fn browse_key_step(
    o: App,
    n: App,
    key: Key,
    now_ms: u64,
    action: SessionAction,
) -> bool {
    let kb = o.config.key_bindings;
    if crate::config::spec_matches_key(kb.actions.quit@, key) {
        &&& n == o
        &&& action is Quit
    } else if crate::config::spec_matches_key(kb.actions.search@, key) {
        &&& entered_search_rel(o, n, now_ms)
        &&& action is Idle
    } else if crate::config::spec_matches_key(kb.actions.open@, key) {
        act_on_file_step(
            o,
            n,
            now_ms,
            action,
            true,
            "Cannot open directory as file. Use Enter to navigate."@,
            |p: Seq<char>, a: SessionAction| a matches SessionAction::OpenFile { path } && path@
                == p,
        )
    } else if crate::config::spec_matches_key(kb.actions.reveal@, key) {
        act_on_file_step(
            o,
            n,
            now_ms,
            action,
            false,
            Seq::<char>::empty(),
            |p: Seq<char>, a: SessionAction| a matches SessionAction::RevealPath { path } && path@
                == p,
        )
    } else if crate::config::spec_matches_key(kb.actions.share@, key) {
        act_on_file_step(
            o,
            n,
            now_ms,
            action,
            true,
            "Cannot share directories. Please select a file."@,
            |p: Seq<char>, a: SessionAction| a matches SessionAction::ShareFile { path } && path@
                == p,
        )
    } else if crate::config::spec_matches_key(kb.search_mode.toggle_strategy@, key) {
        &&& toggled_strategy_rel(o, n, now_ms)
        &&& action is Idle
    } else if crate::config::spec_matches_key(kb.navigation.enter@, key) {
        &&& n == o
        &&& match spec_navigation_target(o) {
            Some(f) => action matches SessionAction::NavigateInto { path } && path == f.path,
            None => action is Idle,
        }
    } else if crate::config::spec_matches_key(kb.navigation.up@, key) {
        &&& prev_item_rel(o, n)
        &&& action is Idle
    } else if crate::config::spec_matches_key(kb.navigation.down@, key) {
        &&& next_item_rel(o, n)
        &&& action is Idle
    } else if crate::config::spec_matches_key(kb.navigation.left@, key) {
        &&& n == o
        &&& action is GoUp
    } else {
        &&& n == o
        &&& action is Idle
    }
}

/// The session state.
pub struct App {
    pub explorer: FileExplorer,
    pub search_engine: SearchEngine,
    pub config: Config,
    /// Cursor over the browse list.
    pub list_state: Option<usize>,
    /// True while the operator is typing a query.
    pub search_mode: bool,
    pub search_input: String,
    pub search_results: Vec<SearchResult>,
    /// Cursor over the result list.
    pub search_list_state: Option<usize>,
    pub status_message: Option<StatusMessage>,
    pub search_strategy: SearchStrategy,
    /// True while results stay visible after typing ended.
    pub showing_search_results: bool,
    pub clipboard: Option<ClipboardEntry>,
}

/// Both cursors are valid and the two mode flags never hold together.
pub open spec fn app_wf(a: App) -> bool {
    &&& !(a.search_mode && a.showing_search_results)
    &&& selection_ok(a.list_state, a.explorer.files@.len())
    &&& selection_ok(a.search_list_state, a.search_results@.len())
}

/// The mode the two flags encode.
pub open spec fn mode_of(a: App) -> SessionMode {
    if a.search_mode {
        SessionMode::Typing
    } else if a.showing_search_results {
        SessionMode::ViewingResults
    } else {
        SessionMode::Browsing
    }
}

/// `a` and `b` agree on everything but the selection cursors.
pub open spec fn same_but_selections(a: App, b: App) -> bool {
    &&& a.explorer == b.explorer
    &&& a.search_engine == b.search_engine
    &&& a.config == b.config
    &&& a.search_mode == b.search_mode
    &&& a.search_input == b.search_input
    &&& a.search_results == b.search_results
    &&& a.status_message == b.status_message
    &&& a.search_strategy == b.search_strategy
    &&& a.showing_search_results == b.showing_search_results
    &&& a.clipboard == b.clipboard
}

/// `a` and `b` agree on everything but the status message.
pub open spec fn same_but_message(a: App, b: App) -> bool {
    &&& a.explorer == b.explorer
    &&& a.search_engine == b.search_engine
    &&& a.config == b.config
    &&& a.list_state == b.list_state
    &&& a.search_mode == b.search_mode
    &&& a.search_input == b.search_input
    &&& a.search_results == b.search_results
    &&& a.search_list_state == b.search_list_state
    &&& a.search_strategy == b.search_strategy
    &&& a.showing_search_results == b.showing_search_results
    &&& a.clipboard == b.clipboard
}

/// Moving the cursor one step forward on the active list, wrapping past the
/// end; the inactive list's cursor stays.
pub open spec fn next_item_rel(o: App, n: App) -> bool {
    &&& same_but_selections(o, n)
    &&& if (o.search_mode || o.showing_search_results) && o.search_results@.len() > 0 {
        n.search_list_state == next_index(o.search_list_state, o.search_results@.len())
            && n.list_state == o.list_state
    } else if o.explorer.files@.len() > 0 {
        n.list_state == next_index(o.list_state, o.explorer.files@.len())
            && n.search_list_state == o.search_list_state
    } else {
        n.list_state == o.list_state && n.search_list_state == o.search_list_state
    }
}

/// Moving the cursor one step back on the active list, wrapping past the
/// start; the inactive list's cursor stays.
pub open spec fn prev_item_rel(o: App, n: App) -> bool {
    &&& same_but_selections(o, n)
    &&& if (o.search_mode || o.showing_search_results) && o.search_results@.len() > 0 {
        n.search_list_state == prev_index(o.search_list_state, o.search_results@.len())
            && n.list_state == o.list_state
    } else if o.explorer.files@.len() > 0 {
        n.list_state == prev_index(o.list_state, o.explorer.files@.len())
            && n.search_list_state == o.search_list_state
    } else {
        n.list_state == o.list_state && n.search_list_state == o.search_list_state
    }
}

impl App {
    /// A fresh session: browsing, empty query, no results, fast strategy, the
    /// default hint shown, and the cursor on the first entry when there is
    /// one.
    pub fn new(
        explorer: FileExplorer,
        search_engine: SearchEngine,
        config: Config,
        now_ms: u64,
    ) -> (app: App)
        ensures
            app_wf(app),
            mode_of(app) == SessionMode::Browsing,
            app.explorer == explorer,
            app.config == config,
            app.search_input@ == Seq::<char>::empty(),
            app.search_results@ == Seq::<SearchResult>::empty(),
            app.search_strategy == SearchStrategy::Fast,
            app.clipboard is None,
            app.list_state == first_selection(explorer.files@.len()),
            app.search_list_state is None,
            message_is(app.status_message, default_hint(), MessageType::Info, now_ms, INFO_FADE_MS),
    {
        let has_files = explorer.files.len() > 0;
        App {
            explorer,
            search_engine,
            config,
            list_state: if has_files {
                Some(0usize)
            } else {
                None
            },
            search_mode: false,
            search_input: String::new(),
            search_results: Vec::new(),
            search_list_state: None,
            status_message: Some(
                StatusMessage {
                    text: String::from_str(
                        "Press '/' to search, 'q' to quit, Enter to navigate, 'x' to cut, 'c' to copy, 'v' to paste",
                    ),
                    message_type: MessageType::Info,
                    timestamp: now_ms,
                    fade_duration: INFO_FADE_MS,
                },
            ),
            search_strategy: SearchStrategy::Fast,
            showing_search_results: false,
            clipboard: None,
        }
    }

    /// Replace the status message.
    pub fn set_message(
        &mut self,
        text: String,
        message_type: MessageType,
        fade_duration: u64,
        now_ms: u64,
    )
        ensures
            same_but_message(*old(self), *final (self)),
            final (self).status_message == Some(
                (StatusMessage { text, message_type, timestamp: now_ms, fade_duration }),
            ),
    {
        self.status_message = Some(
            StatusMessage { text, message_type, timestamp: now_ms, fade_duration },
        );
    }

    /// An informational message; it stays until replaced.
    pub fn set_info_message(&mut self, text: String, now_ms: u64)
        ensures
            same_but_message(*old(self), *final (self)),
            message_is(
                final (self).status_message,
                text@,
                MessageType::Info,
                now_ms,
                INFO_FADE_MS,
            ),
    {
        self.set_message(text, MessageType::Info, INFO_FADE_MS, now_ms);
    }

    /// A warning; it fades after five seconds.
    pub fn set_warning_message(&mut self, text: String, now_ms: u64)
        ensures
            same_but_message(*old(self), *final (self)),
            message_is(
                final (self).status_message,
                text@,
                MessageType::Warning,
                now_ms,
                WARNING_FADE_MS,
            ),
    {
        self.set_message(text, MessageType::Warning, WARNING_FADE_MS, now_ms);
    }

    /// An error; it fades after eight seconds.
    pub fn set_error_message(&mut self, text: String, now_ms: u64)
        ensures
            same_but_message(*old(self), *final (self)),
            message_is(
                final (self).status_message,
                text@,
                MessageType::Error,
                now_ms,
                ERROR_FADE_MS,
            ),
    {
        self.set_message(text, MessageType::Error, ERROR_FADE_MS, now_ms);
    }

    /// Once per render tick: an expired message reverts to the default hint.
    pub fn update_message_fade(&mut self, now_ms: u64)
        ensures
            same_but_message(*old(self), *final (self)),
            match old(self).status_message {
                Some(m) => {
                    &&& message_expired(m, now_ms) ==> message_is(
                        final (self).status_message,
                        default_hint(),
                        MessageType::Info,
                        now_ms,
                        INFO_FADE_MS,
                    )
                    &&& !message_expired(m, now_ms) ==> final (self).status_message == old(
                        self,
                    ).status_message
                },
                None => final (self).status_message == old(self).status_message,
            },
    {
        let expired = match &self.status_message {
            Some(m) => {
                let elapsed = if now_ms >= m.timestamp {
                    now_ms - m.timestamp
                } else {
                    0
                };
                elapsed > m.fade_duration
            },
            None => false,
        };
        if expired {
            self.set_message(
                String::from_str(
                    "Press '/' to search, 'q' to quit, Enter to navigate, 'x' to cut, 'c' to copy, 'v' to paste",
                ),
                MessageType::Info,
                INFO_FADE_MS,
                now_ms,
            );
        }
    }

    /// The current status text, empty when no message is set.
    pub fn get_current_message(&self) -> (r: &str)
        ensures
            r@ == match self.status_message {
                Some(m) => m.text@,
                None => Seq::<char>::empty(),
            },
    {
        match &self.status_message {
            Some(m) => m.text.as_str(),
            None => {
                proof {
                    reveal_strlit("");
                    assert(""@ =~= Seq::<char>::empty());
                }
                ""
            },
        }
    }

    /// Step the cursor of the active list forward, wrapping to the first
    /// entry past the end.
    pub fn next_item(&mut self)
        requires
            app_wf(*old(self)),
        ensures
            app_wf(*final (self)),
            next_item_rel(*old(self), *final (self)),
    {
        if (self.search_mode || self.showing_search_results) && self.search_results.len() > 0 {
            let len = self.search_results.len();
            let i: usize = match self.search_list_state {
                Some(i) => if i >= len - 1 {
                    0
                } else {
                    i + 1
                },
                None => 0,
            };
            self.search_list_state = Some(i);
        } else if self.explorer.files.len() > 0 {
            let len = self.explorer.files.len();
            let i: usize = match self.list_state {
                Some(i) => if i >= len - 1 {
                    0
                } else {
                    i + 1
                },
                None => 0,
            };
            self.list_state = Some(i);
        }
    }

    /// Step the cursor of the active list back, wrapping to the last entry
    /// past the start.
    pub fn previous_item(&mut self)
        requires
            app_wf(*old(self)),
        ensures
            app_wf(*final (self)),
            prev_item_rel(*old(self), *final (self)),
    {
        if (self.search_mode || self.showing_search_results) && self.search_results.len() > 0 {
            let len = self.search_results.len();
            let i: usize = match self.search_list_state {
                Some(i) => if i == 0 {
                    len - 1
                } else {
                    i - 1
                },
                None => 0,
            };
            self.search_list_state = Some(i);
        } else if self.explorer.files.len() > 0 {
            let len = self.explorer.files.len();
            let i: usize = match self.list_state {
                Some(i) => if i == 0 {
                    len - 1
                } else {
                    i - 1
                },
                None => 0,
            };
            self.list_state = Some(i);
        }
    }

    /// Start a fresh query: clears the buffer and any previous results.
    pub fn enter_search_mode(&mut self, now_ms: u64)
        requires
            app_wf(*old(self)),
        ensures
            app_wf(*final (self)),
            entered_search_rel(*old(self), *final (self), now_ms),
            mode_of(*final (self)) == SessionMode::Typing,
    {
        self.search_mode = true;
        self.showing_search_results = false;
        self.search_input = String::new();
        self.search_results = Vec::new();
        self.search_list_state = None;
        let mut text = String::from_str("Search mode: ");
        text.append(self.search_strategy.description());
        text.append(" - Type to search, F2 to toggle strategy, ESC to exit, Enter to keep results");
        self.set_message(text, MessageType::Info, INFO_FADE_MS, now_ms);
    }

    /// Leave query typing: non-empty results stay visible, an empty search is
    /// abandoned back to browsing.
    pub fn exit_search_mode(&mut self, now_ms: u64)
        requires
            app_wf(*old(self)),
        ensures
            app_wf(*final (self)),
            exited_search_rel(*old(self), *final (self), now_ms),
            old(self).search_results@.len() > 0 ==> mode_of(*final (self))
                == SessionMode::ViewingResults,
            old(self).search_results@.len() == 0 ==> mode_of(*final (self))
                == SessionMode::Browsing,
    {
        if self.search_results.len() > 0 {
            self.search_mode = false;
            self.showing_search_results = true;
            let mut text = String::from_str("Search results (");
            let n = u64_to_string(self.search_results.len() as u64);
            text.append(n.as_str());
            text.append(" items) - Navigate with Up/Down, Enter to open, '/' to search again");
            self.set_message(text, MessageType::Info, INFO_FADE_MS, now_ms);
        } else {
            self.search_mode = false;
            self.showing_search_results = false;
            self.search_input = String::new();
            self.set_message(
                String::from_str("Press '/' to search, 'q' to quit, Enter to navigate"),
                MessageType::Info,
                INFO_FADE_MS,
                now_ms,
            );
        }
    }

    /// Drop the results and the query and return to browsing.
    pub fn clear_search_results(&mut self, now_ms: u64)
        requires
            app_wf(*old(self)),
        ensures
            app_wf(*final (self)),
            cleared_results_rel(*old(self), *final (self), now_ms),
            mode_of(*final (self)) == SessionMode::Browsing,
    {
        self.search_mode = false;
        self.showing_search_results = false;
        self.search_input = String::new();
        self.search_results = Vec::new();
        self.search_list_state = None;
        let len = self.explorer.files.len();
        self.list_state = if len > 0 {
            Some(0usize)
        } else {
            None
        };
        self.set_message(
            String::from_str(
                "Press '/' to search, 'q' to quit, Enter to navigate, 'x' to cut, 'c' to copy, 'v' to paste",
            ),
            MessageType::Info,
            INFO_FADE_MS,
            now_ms,
        );
    }

    /// Advance the strategy cyclically. Displayed results are untouched; the
    /// next search uses the new strategy.
    pub fn toggle_search_strategy(&mut self, now_ms: u64)
        requires
            app_wf(*old(self)),
        ensures
            app_wf(*final (self)),
            toggled_strategy_rel(*old(self), *final (self), now_ms),
    {
        self.search_strategy = self.search_strategy.next();
        let mut text = String::from_str("Search strategy: ");
        text.append(self.search_strategy.description());
        let hint_again = self.search_mode && !self.search_input.as_str().is_empty();
        if hint_again {
            text.append(" - type to search again");
        }
        proof {
            assert(text@ =~= strategy_message(self.search_strategy, hint_again));
        }
        self.set_message(text, MessageType::Info, INFO_FADE_MS, now_ms);
    }

    /// Apply the outcome of the search that the caller ran for the current
    /// query: a success replaces the result list wholesale and resets its
    /// cursor; a failure leaves the results alone; either way the status line
    /// reports what happened.
    pub fn perform_search(
        &mut self,
        outcome: Result<Vec<SearchResult>, SearchError>,
        now_ms: u64,
    )
        requires
            app_wf(*old(self)),
        ensures
            app_wf(*final (self)),
            final (self).explorer == old(self).explorer,
            final (self).search_engine == old(self).search_engine,
            final (self).config == old(self).config,
            final (self).search_strategy == old(self).search_strategy,
            final (self).search_mode == old(self).search_mode,
            final (self).showing_search_results == old(self).showing_search_results,
            final (self).search_input == old(self).search_input,
            final (self).list_state == old(self).list_state,
            final (self).clipboard == old(self).clipboard,
            match outcome {
                Ok(results) => {
                    &&& final (self).search_results == results
                    &&& final (self).search_list_state == first_selection(results@.len())
                    &&& results@.len() == 0 ==> message_is(
                        final (self).status_message,
                        no_results_message(old(self).search_input@, old(self).search_strategy),
                        MessageType::Warning,
                        now_ms,
                        WARNING_FADE_MS,
                    )
                    &&& results@.len() > 0 ==> message_is(
                        final (self).status_message,
                        found_results_message(results@.len() as int, old(self).search_strategy),
                        MessageType::Info,
                        now_ms,
                        INFO_FADE_MS,
                    )
                },
                Err(e) => {
                    &&& final (self).search_results == old(self).search_results
                    &&& final (self).search_list_state == old(self).search_list_state
                    &&& message_is(
                        final (self).status_message,
                        search_error_message(e),
                        MessageType::Error,
                        now_ms,
                        ERROR_FADE_MS,
                    )
                },
            },
    {
        match outcome {
            Ok(results) => {
                let n = results.len();
                self.search_results = results;
                self.search_list_state = if n > 0 {
                    Some(0usize)
                } else {
                    None
                };
                if n == 0 {
                    let mut text = String::from_str("No results found for '");
                    text.append(self.search_input.as_str());
                    text.append("' (");
                    text.append(self.search_strategy.description());
                    text.append(")");
                    self.set_message(text, MessageType::Warning, WARNING_FADE_MS, now_ms);
                } else {
                    let mut text = String::from_str("Found ");
                    let count = u64_to_string(n as u64);
                    text.append(count.as_str());
                    text.append(" results (");
                    text.append(self.search_strategy.description());
                    text.append(")");
                    self.set_message(text, MessageType::Info, INFO_FADE_MS, now_ms);
                }
            },
            Err(e) => {
                let mut text = String::from_str("Search error: ");
                let detail = e.message();
                text.append(detail.as_str());
                self.set_message(text, MessageType::Error, ERROR_FADE_MS, now_ms);
            },
        }
    }

    /// The entry the interface currently highlights.
    pub fn get_selected_file(&self) -> (r: Option<&FileInfo>)
        ensures
            match r {
                Some(f) => spec_selected_file(*self) == Some(*f),
                None => spec_selected_file(*self) is None,
            },
    {
        if self.showing_search_results {
            match self.search_list_state {
                Some(i) => if i < self.search_results.len() {
                    Some(&self.search_results[i].file_info)
                } else {
                    None
                },
                None => None,
            }
        } else {
            match self.list_state {
                Some(i) => if i < self.explorer.files.len() {
                    Some(&self.explorer.files[i])
                } else {
                    None
                },
                None => None,
            }
        }
    }

    /// The directory the activate key would navigate into, if the selected
    /// entry of the active list is one.
    pub fn navigation_target(&self) -> (r: Option<String>)
        ensures
            match r {
                Some(p) => spec_navigation_target(*self) matches Some(f) && f.path == p,
                None => spec_navigation_target(*self) is None,
            },
    {
        if self.search_mode || self.showing_search_results {
            match self.search_list_state {
                Some(i) => {
                    if i < self.search_results.len() {
                        let f = &self.search_results[i].file_info;
                        if f.is_directory {
                            Some(f.path.clone())
                        } else {
                            None
                        }
                    } else {
                        None
                    }
                },
                None => None,
            }
        } else {
            match self.list_state {
                Some(i) => {
                    if i < self.explorer.files.len() {
                        let f = &self.explorer.files[i];
                        if f.is_directory {
                            Some(f.path.clone())
                        } else {
                            None
                        }
                    } else {
                        None
                    }
                },
                None => None,
            }
        }
    }

    /// Complete a navigation: the explorer moves to `path` with the listing
    /// the caller read there; coming out of a search, the results are
    /// discarded as well.
    pub fn finish_navigation(&mut self, path: String, listing: Vec<FileInfo>, now_ms: u64)
        requires
            app_wf(*old(self)),
        ensures
            app_wf(*final (self)),
            final (self).explorer.current_path == path,
            final (self).explorer.files == listing,
            final (self).search_engine == old(self).search_engine,
            final (self).config == old(self).config,
            final (self).search_strategy == old(self).search_strategy,
            final (self).clipboard == old(self).clipboard,
            final (self).list_state == first_selection(listing@.len()),
            if old(self).search_mode || old(self).showing_search_results {
                &&& !final (self).search_mode && !final (self).showing_search_results
                &&& final (self).search_input@ == Seq::<char>::empty()
                &&& final (self).search_results@ == Seq::<SearchResult>::empty()
                &&& final (self).search_list_state is None
                &&& message_is(
                    final (self).status_message,
                    default_hint(),
                    MessageType::Info,
                    now_ms,
                    INFO_FADE_MS,
                )
            } else {
                &&& final (self).search_mode == old(self).search_mode
                &&& final (self).showing_search_results == old(self).showing_search_results
                &&& final (self).search_input == old(self).search_input
                &&& final (self).search_results == old(self).search_results
                &&& final (self).search_list_state == old(self).search_list_state
                &&& final (self).status_message == old(self).status_message
            },
    {
        let was_search = self.search_mode || self.showing_search_results;
        self.explorer.navigate_to(path, listing);
        let len = self.explorer.files.len();
        self.list_state = if len > 0 {
            Some(0usize)
        } else {
            None
        };
        if was_search {
            self.search_mode = false;
            self.showing_search_results = false;
            self.search_input = String::new();
            self.search_results = Vec::new();
            self.search_list_state = None;
            self.set_message(
                String::from_str(
                    "Press '/' to search, 'q' to quit, Enter to navigate, 'x' to cut, 'c' to copy, 'v' to paste",
                ),
                MessageType::Info,
                INFO_FADE_MS,
                now_ms,
            );
        }
    }

    /// Move up to the parent directory, whose listing the caller read; the
    /// browse cursor resets.
    pub fn go_up(&mut self, listing: Vec<FileInfo>)
        requires
            app_wf(*old(self)),
            parent_of(old(self).explorer.current_path@) is Some,
        ensures
            app_wf(*final (self)),
            Some(final (self).explorer.current_path@) == parent_of(
                old(self).explorer.current_path@,
            ),
            final (self).explorer.files == listing,
            final (self).list_state == first_selection(listing@.len()),
            final (self).search_engine == old(self).search_engine,
            final (self).config == old(self).config,
            final (self).search_strategy == old(self).search_strategy,
            final (self).clipboard == old(self).clipboard,
            final (self).search_mode == old(self).search_mode,
            final (self).showing_search_results == old(self).showing_search_results,
            final (self).search_input == old(self).search_input,
            final (self).search_results == old(self).search_results,
            final (self).search_list_state == old(self).search_list_state,
            final (self).status_message == old(self).status_message,
    {
        self.explorer.go_up(listing);
        let len = self.explorer.files.len();
        self.list_state = if len > 0 {
            Some(0usize)
        } else {
            None
        };
    }

    /// Remember the selected entry for a later move; the caller shows the
    /// returned text as its confirmation or error.
    pub fn cut_selected_file(&mut self) -> (r: Result<String, String>)
        requires
            app_wf(*old(self)),
        ensures
            app_wf(*final (self)),
            match spec_selected_file(*old(self)) {
                Some(f) => {
                    &&& same_but_clipboard(*old(self), *final (self))
                    &&& final (self).clipboard matches Some(e) && e.file_path == f.path
                        && e.operation == ClipboardOperation::Cut
                    &&& r matches Ok(m) && m@ == cut_message(f.name@)
                },
                None => {
                    &&& *final (self) == *old(self)
                    &&& r matches Err(m) && m@ == "No file selected"@
                },
            },
    {
        let mut picked: Option<(String, String)> = None;
        match self.get_selected_file() {
            Some(f) => {
                picked = Some((f.path.clone(), f.name.clone()));
            },
            None => {},
        }
        match picked {
            Some((path, name)) => {
                self.clipboard = Some(
                    ClipboardEntry { file_path: path, operation: ClipboardOperation::Cut },
                );
                let mut m = String::from_str("Cut '");
                m.append(name.as_str());
                m.append("' - navigate to destination and press 'v' to paste");
                Ok(m)
            },
            None => Err(String::from_str("No file selected")),
        }
    }

    /// Remember the selected entry for a later copy; the caller shows the
    /// returned text as its confirmation or error.
    pub fn copy_selected_file(&mut self) -> (r: Result<String, String>)
        requires
            app_wf(*old(self)),
        ensures
            app_wf(*final (self)),
            match spec_selected_file(*old(self)) {
                Some(f) => {
                    &&& same_but_clipboard(*old(self), *final (self))
                    &&& final (self).clipboard matches Some(e) && e.file_path == f.path
                        && e.operation == ClipboardOperation::Copy
                    &&& r matches Ok(m) && m@ == copy_message(f.name@)
                },
                None => {
                    &&& *final (self) == *old(self)
                    &&& r matches Err(m) && m@ == "No file selected"@
                },
            },
    {
        let mut picked: Option<(String, String)> = None;
        match self.get_selected_file() {
            Some(f) => {
                picked = Some((f.path.clone(), f.name.clone()));
            },
            None => {},
        }
        match picked {
            Some((path, name)) => {
                self.clipboard = Some(
                    ClipboardEntry { file_path: path, operation: ClipboardOperation::Copy },
                );
                let mut m = String::from_str("Copied '");
                m.append(name.as_str());
                m.append("' - navigate to destination and press 'v' to paste");
                Ok(m)
            },
            None => Err(String::from_str("No file selected")),
        }
    }

    /// The open key: refuse a directory or a missing selection with an error
    /// message, else hand the caller the file to open.
    fn open_action(&mut self, now_ms: u64) -> (action: SessionAction)
        requires
            app_wf(*old(self)),
        ensures
            app_wf(*final (self)),
            act_on_file_step(
                *old(self),
                *final (self),
                now_ms,
                action,
                true,
                "Cannot open directory as file. Use Enter to navigate."@,
                |p: Seq<char>, a: SessionAction|
                    a matches SessionAction::OpenFile { path } && path@ == p,
            ),
    {
        let mut target: Option<String> = None;
        let mut no_sel = false;
        let mut dir_hit = false;
        match self.get_selected_file() {
            Some(f) => {
                if f.is_directory {
                    dir_hit = true;
                } else {
                    target = Some(f.path.clone());
                }
            },
            None => {
                no_sel = true;
            },
        }
        if no_sel {
            self.set_error_message(String::from_str("No file selected"), now_ms);
            return SessionAction::Idle;
        }
        if dir_hit {
            self.set_error_message(
                String::from_str("Cannot open directory as file. Use Enter to navigate."),
                now_ms,
            );
            return SessionAction::Idle;
        }
        SessionAction::OpenFile { path: target.unwrap() }
    }

    /// The reveal key: a missing selection gets an error message, anything
    /// else is handed to the caller to reveal.
    fn reveal_action(&mut self, now_ms: u64) -> (action: SessionAction)
        requires
            app_wf(*old(self)),
        ensures
            app_wf(*final (self)),
            act_on_file_step(
                *old(self),
                *final (self),
                now_ms,
                action,
                false,
                Seq::<char>::empty(),
                |p: Seq<char>, a: SessionAction|
                    a matches SessionAction::RevealPath { path } && path@ == p,
            ),
    {
        let mut target: Option<String> = None;
        match self.get_selected_file() {
            Some(f) => {
                target = Some(f.path.clone());
            },
            None => {},
        }
        match target {
            Some(p) => SessionAction::RevealPath { path: p },
            None => {
                self.set_error_message(String::from_str("No file selected"), now_ms);
                SessionAction::Idle
            },
        }
    }

    /// The share key: refuse a directory or a missing selection with an error
    /// message, else hand the caller the file to serve.
    fn share_action(&mut self, now_ms: u64) -> (action: SessionAction)
        requires
            app_wf(*old(self)),
        ensures
            app_wf(*final (self)),
            act_on_file_step(
                *old(self),
                *final (self),
                now_ms,
                action,
                true,
                "Cannot share directories. Please select a file."@,
                |p: Seq<char>, a: SessionAction|
                    a matches SessionAction::ShareFile { path } && path@ == p,
            ),
    {
        let mut target: Option<String> = None;
        let mut no_sel = false;
        let mut dir_hit = false;
        match self.get_selected_file() {
            Some(f) => {
                if f.is_directory {
                    dir_hit = true;
                } else {
                    target = Some(f.path.clone());
                }
            },
            None => {
                no_sel = true;
            },
        }
        if no_sel {
            self.set_error_message(String::from_str("No file selected"), now_ms);
            return SessionAction::Idle;
        }
        if dir_hit {
            self.set_error_message(
                String::from_str("Cannot share directories. Please select a file."),
                now_ms,
            );
            return SessionAction::Idle;
        }
        SessionAction::ShareFile { path: target.unwrap() }
    }

    /// One keystroke while typing a query.
    fn handle_search_mode_key(&mut self, key: Key, now_ms: u64) -> (action: SessionAction)
        requires
            app_wf(*old(self)),
        ensures
            app_wf(*final (self)),
            search_key_step(*old(self), *final (self), key, now_ms, action),
    {
        let kb = &self.config.key_bindings;
        let is_exit = kb.matches_key(&kb.search_mode.exit_search, &key) || kb.matches_key(
            &kb.search_mode.exit_to_results,
            &key,
        );
        let is_toggle = kb.matches_key(&kb.search_mode.toggle_strategy, &key);
        let is_backspace = kb.matches_key(&kb.search_mode.backspace, &key);
        let is_up = kb.matches_key(&kb.navigation.up, &key);
        let is_down = kb.matches_key(&kb.navigation.down, &key);
        let is_tab = kb.matches_key(&kb.search_mode.navigate_tab, &key);
        if is_exit {
            self.exit_search_mode(now_ms);
            SessionAction::Idle
        } else if is_toggle {
            self.toggle_search_strategy(now_ms);
            if !self.search_input.as_str().is_empty() {
                SessionAction::RunSearch {
                    strategy: self.search_strategy,
                    debounce_ms: TOGGLE_DEBOUNCE_MS,
                }
            } else {
                SessionAction::Idle
            }
        } else if is_backspace {
            let len = self.search_input.as_str().unicode_len();
            if len > 0 {
                let ghost before = self.search_input@;
                let shorter = String::from_str(
                    self.search_input.as_str().substring_char(0, len - 1),
                );
                proof {
                    assert(shorter@ =~= before.drop_last());
                }
                self.search_input = shorter;
            }
            if !self.search_input.as_str().is_empty() {
                SessionAction::RunSearch { strategy: self.search_strategy, debounce_ms: 0 }
            } else {
                self.search_results = Vec::new();
                self.search_list_state = None;
                SessionAction::Idle
            }
        } else if is_up {
            self.previous_item();
            SessionAction::Idle
        } else if is_down {
            self.next_item();
            SessionAction::Idle
        } else if is_tab {
            match self.navigation_target() {
                Some(p) => SessionAction::NavigateInto { path: p },
                None => SessionAction::Idle,
            }
        } else {
            match key {
                Key::Char(c) => {
                    push_char(&mut self.search_input, c);
                    SessionAction::RunSearch {
                        strategy: self.search_strategy,
                        debounce_ms: CHAR_DEBOUNCE_MS,
                    }
                },
                _ => SessionAction::Idle,
            }
        }
    }

    /// One keystroke while results are on display.
    fn handle_results_key(&mut self, key: Key, now_ms: u64) -> (action: SessionAction)
        requires
            app_wf(*old(self)),
        ensures
            app_wf(*final (self)),
            results_key_step(*old(self), *final (self), key, now_ms, action),
    {
        let kb = &self.config.key_bindings;
        let is_quit = kb.matches_key(&kb.actions.quit, &key);
        let is_search = kb.matches_key(&kb.actions.search, &key);
        let is_open = kb.matches_key(&kb.actions.open, &key);
        let is_reveal = kb.matches_key(&kb.actions.reveal, &key);
        let is_share = kb.matches_key(&kb.actions.share, &key);
        let is_back = kb.matches_key(&kb.search_results.back, &key);
        let is_toggle = kb.matches_key(&kb.search_mode.toggle_strategy, &key);
        let is_enter = kb.matches_key(&kb.navigation.enter, &key);
        let is_up = kb.matches_key(&kb.navigation.up, &key);
        let is_down = kb.matches_key(&kb.navigation.down, &key);
        let is_left = kb.matches_key(&kb.navigation.left, &key);
        if is_quit {
            SessionAction::Quit
        } else if is_search {
            self.enter_search_mode(now_ms);
            SessionAction::Idle
        } else if is_open {
            self.open_action(now_ms)
        } else if is_reveal {
            self.reveal_action(now_ms)
        } else if is_share {
            self.share_action(now_ms)
        } else if is_back {
            self.clear_search_results(now_ms);
            SessionAction::Idle
        } else if is_toggle {
            self.toggle_search_strategy(now_ms);
            SessionAction::Idle
        } else if is_enter {
            match self.navigation_target() {
                Some(p) => SessionAction::NavigateInto { path: p },
                None => SessionAction::Idle,
            }
        } else if is_up {
            self.previous_item();
            SessionAction::Idle
        } else if is_down {
            self.next_item();
            SessionAction::Idle
        } else if is_left {
            self.clear_search_results(now_ms);
            SessionAction::Idle
        } else {
            SessionAction::Idle
        }
    }

    /// One keystroke while browsing.
    fn handle_browse_key(&mut self, key: Key, now_ms: u64) -> (action: SessionAction)
        requires
            app_wf(*old(self)),
        ensures
            app_wf(*final (self)),
            browse_key_step(*old(self), *final (self), key, now_ms, action),
    {
        let kb = &self.config.key_bindings;
        let is_quit = kb.matches_key(&kb.actions.quit, &key);
        let is_search = kb.matches_key(&kb.actions.search, &key);
        let is_open = kb.matches_key(&kb.actions.open, &key);
        let is_reveal = kb.matches_key(&kb.actions.reveal, &key);
        let is_share = kb.matches_key(&kb.actions.share, &key);
        let is_toggle = kb.matches_key(&kb.search_mode.toggle_strategy, &key);
        let is_enter = kb.matches_key(&kb.navigation.enter, &key);
        let is_up = kb.matches_key(&kb.navigation.up, &key);
        let is_down = kb.matches_key(&kb.navigation.down, &key);
        let is_left = kb.matches_key(&kb.navigation.left, &key);
        if is_quit {
            SessionAction::Quit
        } else if is_search {
            self.enter_search_mode(now_ms);
            SessionAction::Idle
        } else if is_open {
            self.open_action(now_ms)
        } else if is_reveal {
            self.reveal_action(now_ms)
        } else if is_share {
            self.share_action(now_ms)
        } else if is_toggle {
            self.toggle_search_strategy(now_ms);
            SessionAction::Idle
        } else if is_enter {
            match self.navigation_target() {
                Some(p) => SessionAction::NavigateInto { path: p },
                None => SessionAction::Idle,
            }
        } else if is_up {
            self.previous_item();
            SessionAction::Idle
        } else if is_down {
            self.next_item();
            SessionAction::Idle
        } else if is_left {
            SessionAction::GoUp
        } else {
            SessionAction::Idle
        }
    }

    /// One keystroke, dispatched on the current mode. The returned action is
    /// what the caller must do on the session's behalf before the next
    /// keystroke.
    pub fn handle_key(&mut self, key: Key, now_ms: u64) -> (action: SessionAction)
        requires
            app_wf(*old(self)),
        ensures
            app_wf(*final (self)),
            match mode_of(*old(self)) {
                SessionMode::Typing => search_key_step(
                    *old(self),
                    *final (self),
                    key,
                    now_ms,
                    action,
                ),
                SessionMode::ViewingResults => results_key_step(
                    *old(self),
                    *final (self),
                    key,
                    now_ms,
                    action,
                ),
                SessionMode::Browsing => browse_key_step(
                    *old(self),
                    *final (self),
                    key,
                    now_ms,
                    action,
                ),
            },
    {
        if self.search_mode {
            self.handle_search_mode_key(key, now_ms)
        } else if self.showing_search_results {
            self.handle_results_key(key, now_ms)
        } else {
            self.handle_browse_key(key, now_ms)
        }
    }
}

/// Law: while typing a query, the exit key with a non-empty result list moves
/// to viewing those same results and with an empty list back to browsing; and
/// the strategy toggle with a non-empty query asks for exactly one re-search,
/// under the newly selected strategy.
pub proof fn lemma_typing_transitions(
    o: App,
    n: App,
    key: Key,
    now_ms: u64,
    action: SessionAction,
)
    requires
        o.search_mode,
        search_key_step(o, n, key, now_ms, action),
    ensures
        (crate::config::spec_matches_key(o.config.key_bindings.search_mode.exit_search@, key)
            || crate::config::spec_matches_key(
            o.config.key_bindings.search_mode.exit_to_results@,
            key,
        )) ==> {
            &&& o.search_results@.len() > 0 ==> mode_of(n) == SessionMode::ViewingResults
                && n.search_results == o.search_results
            &&& o.search_results@.len() == 0 ==> mode_of(n) == SessionMode::Browsing
        },
        (!crate::config::spec_matches_key(o.config.key_bindings.search_mode.exit_search@, key)
            && !crate::config::spec_matches_key(
            o.config.key_bindings.search_mode.exit_to_results@,
            key,
        ) && crate::config::spec_matches_key(
            o.config.key_bindings.search_mode.toggle_strategy@,
            key,
        ) && o.search_input@.len() > 0) ==> action == (SessionAction::RunSearch {
            strategy: next_strategy(o.search_strategy),
            debounce_ms: TOGGLE_DEBOUNCE_MS,
        }) && n.search_strategy == next_strategy(o.search_strategy),
{
}

} // verus!
