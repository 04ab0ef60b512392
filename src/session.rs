use vstd::prelude::*;

use crate::geometry::{classify, region_of, inside_window, in_toolbar_band, Region, TITLE_BAR_HEIGHT};
use crate::paint::{
    address_bar_flush, address_bar_plan, address_clear_draw, address_clear_failure_message,
    address_draw_failure_message, address_text_draw, all_fail_with, clear_address_bar_plan, draws_of,
    fails_with, Plan,
};

verus! {

/// Whether keystrokes edit the address bar.
#[derive(Clone, Copy, Debug, PartialEq, Eq, Structural)]
pub enum InputMode {
    /// Keystrokes are read and dropped.
    Normal,
    /// Keystrokes edit the address bar.
    Editing,
}

/// A pointer report of the host: which buttons are held, and where, in screen coordinates.
#[derive(Clone, Copy, Debug, PartialEq, Eq, Structural)]
pub struct PointerEvent {
    pub left: bool,
    pub middle: bool,
    pub right: bool,
    pub x: i64,
    pub y: i64,
}

/// What the host is to do after a keystroke.
#[derive(Clone, Debug, PartialEq, Eq)]
pub enum KeyAction {
    /// Nothing to do.
    Ignore,
    /// Redraw the address bar with the current text.
    RedrawAddressBar,
    /// Navigate to the committed address, then redraw the (now empty) address bar.
    Commit(String),
}

/// What a keystroke does, with the committed address as characters.
pub enum KeyEffect {
    Ignore,
    RedrawAddressBar,
    Commit(Seq<char>),
}

impl View for KeyAction {
    type V = KeyEffect;

    open spec fn view(&self) -> KeyEffect {
        match self {
            KeyAction::Ignore => KeyEffect::Ignore,
            KeyAction::RedrawAddressBar => KeyEffect::RedrawAddressBar,
            KeyAction::Commit(s) => KeyEffect::Commit(s@),
        }
    }
}

/// What the host is to do after a pointer report.
#[derive(Clone, Copy, Debug, PartialEq, Eq, Structural)]
pub enum MouseAction {
    /// Nothing to do.
    Ignore,
    /// Blank the address bar: editing has begun.
    EditAddress,
    /// Ask the page what lies at this content-area point, and hand the answer to `follow_link`.
    FollowPoint(i64, i64),
}

/// The state of the front end, as values.
pub struct SessionState {
    pub input: Seq<char>,
    pub mode: InputMode,
    pub origin: (i64, i64),
}

/// The interactive state of the browser window: the address-bar text, the
/// input mode and the window's position on the screen.
#[derive(Debug)]
pub struct Session {
    input_url: String,
    input_mode: InputMode,
    window_position: (i64, i64),
}

impl View for Session {
    type V = SessionState;

    closed spec fn view(&self) -> SessionState {
        SessionState { input: self.input_url@, mode: self.input_mode, origin: self.window_position }
    }
}

pub open spec fn is_commit_key(c: char) -> bool {
    c == '\n'
}

pub open spec fn is_delete_key(c: char) -> bool {
    c == '\x7f' || c == '\x08'
}

/// A keystroke that is written into the address bar.
pub open spec fn is_text_key(c: char) -> bool {
    !is_commit_key(c) && !is_delete_key(c)
}

/// `s` without its last character; empty stays empty.
pub open spec fn without_last(s: Seq<char>) -> Seq<char> {
    if s.len() == 0 {
        s
    } else {
        s.drop_last()
    }
}

/// Whether a window at `origin` can have its address bar flushed without overflow.
pub open spec fn origin_fits(origin: (i64, i64)) -> bool {
    origin.1 + TITLE_BAR_HEIGHT <= i64::MAX
}

/// The next state, and what to do, after the keyboard was polled.
pub open spec fn key_step(s: SessionState, key: Option<char>) -> (SessionState, KeyEffect) {
    match key {
        None => (s, KeyEffect::Ignore),
        Some(c) => if s.mode == InputMode::Normal {
            (s, KeyEffect::Ignore)
        } else if is_commit_key(c) {
            (
                SessionState { input: Seq::empty(), mode: InputMode::Normal, origin: s.origin },
                KeyEffect::Commit(s.input),
            )
        } else if is_delete_key(c) {
            (SessionState { input: without_last(s.input), ..s }, KeyEffect::RedrawAddressBar)
        } else {
            (SessionState { input: s.input.push(c), ..s }, KeyEffect::RedrawAddressBar)
        },
    }
}

pub open spec fn is_press(e: PointerEvent) -> bool {
    e.left || e.middle || e.right
}

/// The next state, and what to do, after the pointer was polled.
pub open spec fn mouse_step(s: SessionState, event: Option<PointerEvent>) -> (
    SessionState,
    MouseAction,
) {
    match event {
        None => (s, MouseAction::Ignore),
        Some(e) => if !is_press(e) {
            (s, MouseAction::Ignore)
        } else {
            match region_of(s.origin, e.x, e.y) {
                Region::OutsideWindow => (s, MouseAction::Ignore),
                Region::Toolbar => (
                    SessionState { input: Seq::empty(), mode: InputMode::Editing, origin: s.origin },
                    MouseAction::EditAddress,
                ),
                Region::ContentArea(x, y) => (
                    SessionState { mode: InputMode::Normal, ..s },
                    MouseAction::FollowPoint(x, y),
                ),
            }
        },
    }
}

/// The state after the keystrokes `keys`, polled one after another.
pub open spec fn type_keys(s: SessionState, keys: Seq<char>) -> SessionState
    decreases keys.len(),
{
    if keys.len() == 0 {
        s
    } else {
        key_step(type_keys(s, keys.drop_last()), Some(keys.last())).0
    }
}

/// Relies on `String::push`: the character is appended at the end.
#[verifier::external_body]
fn push_char(s: &mut String, c: char)
    ensures
        final(s)@ == old(s)@.push(c),
{
    s.push(c)
}

impl Session {
    pub open spec fn wf(&self) -> bool {
        origin_fits(self@.origin)
    }

    /// A session in `Normal` mode for a window at `origin`, with `url` in the address bar.
    pub fn new(origin: (i64, i64), url: String) -> (r: Self)
        requires
            origin_fits(origin),
        ensures
            r.wf(),
            r@ == (SessionState { input: url@, mode: InputMode::Normal, origin }),
    {
        Session { input_url: url, input_mode: InputMode::Normal, window_position: origin }
    }

    pub fn input_url(&self) -> (r: String)
        ensures
            r@ == self@.input,
    {
        self.input_url.clone()
    }

    pub fn input_mode(&self) -> (r: InputMode)
        ensures
            r == self@.mode,
    {
        self.input_mode
    }

    pub fn window_position(&self) -> (r: (i64, i64))
        ensures
            r == self@.origin,
    {
        self.window_position
    }

    /// The address to open at start-up: the initial text, unless it is empty.
    pub fn startup_destination(&self) -> (r: Option<String>)
        ensures
            self@.input.len() == 0 ==> r is None,
            self@.input.len() > 0 ==> (r matches Some(d) && d@ == self@.input),
    {
        if self.input_url.as_str().unicode_len() == 0 {
            None
        } else {
            Some(self.input_url.clone())
        }
    }

    /// Takes one polled keystroke (`None` where there was none).
    pub fn handle_key(&mut self, key: Option<char>) -> (r: KeyAction)
        ensures
            (final(self)@, r@) == key_step(old(self)@, key),
    {
        let c = match key {
            None => return KeyAction::Ignore,
            Some(c) => c,
        };
        match self.input_mode {
            InputMode::Normal => KeyAction::Ignore,
            InputMode::Editing => {
                if c == '\n' {
                    let destination = self.input_url.clone();
                    self.input_url = String::new();
                    self.input_mode = InputMode::Normal;
                    proof {
                        assert(self@.input =~= Seq::<char>::empty());
                    }
                    KeyAction::Commit(destination)
                } else if c == '\x7f' || c == '\x08' {
                    let n = self.input_url.as_str().unicode_len();
                    if n > 0 {
                        let kept = String::from_str(self.input_url.as_str().substring_char(0, n - 1));
                        self.input_url = kept;
                    }
                    KeyAction::RedrawAddressBar
                } else {
                    push_char(&mut self.input_url, c);
                    KeyAction::RedrawAddressBar
                }
            },
        }
    }

    /// Takes one polled pointer report (`None` where there was none).
    pub fn handle_mouse(&mut self, event: Option<PointerEvent>) -> (r: MouseAction)
        ensures
            (final(self)@, r) == mouse_step(old(self)@, event),
    {
        let e = match event {
            None => return MouseAction::Ignore,
            Some(e) => e,
        };
        if !(e.left || e.middle || e.right) {
            return MouseAction::Ignore;
        }
        match classify(self.window_position, e.x, e.y) {
            Region::OutsideWindow => MouseAction::Ignore,
            Region::Toolbar => {
                self.input_url = String::new();
                self.input_mode = InputMode::Editing;
                proof {
                    assert(self@.input =~= Seq::<char>::empty());
                }
                MouseAction::EditAddress
            },
            Region::ContentArea(x, y) => {
                self.input_mode = InputMode::Normal;
                MouseAction::FollowPoint(x, y)
            },
        }
    }

    /// Takes the page's answer to a content-area click. Where it names a
    /// destination, that becomes the address-bar text and is returned, to be
    /// drawn and then navigated to; else nothing changes.
    pub fn follow_link(&mut self, target: Option<String>) -> (r: Option<String>)
        ensures
            target is None ==> r is None && final(self)@ == old(self)@,
            target matches Some(t) ==> {
                &&& r matches Some(d) && d@ == t@
                &&& final(self)@ == (SessionState { input: t@, ..old(self)@ })
            },
    {
        match target {
            None => None,
            Some(t) => {
                self.input_url = t.clone();
                Some(t)
            },
        }
    }

    /// Redraws the address bar with the current text.
    pub fn address_bar_plan(&self) -> (r: Plan)
        requires
            self.wf(),
        ensures
            draws_of(r) == seq![address_clear_draw(), address_text_draw(self@.input)],
            fails_with(r.steps@[0], address_clear_failure_message()),
            fails_with(r.steps@[1], address_draw_failure_message()),
            r.flush == address_bar_flush(self@.origin),
    {
        address_bar_plan(&self.input_url, self.window_position)
    }

    /// Blanks the address bar.
    pub fn clear_address_bar_plan(&self) -> (r: Plan)
        requires
            self.wf(),
        ensures
            draws_of(r) == seq![address_clear_draw()],
            all_fail_with(r, address_clear_failure_message()),
            r.flush == address_bar_flush(self@.origin),
    {
        clear_address_bar_plan(self.window_position)
    }
}

/// A press outside `[0, W) × [0, H)` relative to the window origin changes
/// nothing and asks for nothing: no mode change, no navigation.
pub proof fn lemma_press_outside_ignored(s: SessionState, e: PointerEvent)
    requires
        is_press(e),
        !inside_window(e.x - s.origin.0, e.y - s.origin.1),
    ensures
        region_of(s.origin, e.x, e.y) == Region::OutsideWindow,
        mouse_step(s, Some(e)) == (s, MouseAction::Ignore),
{
}

/// A press in the toolbar band starts editing with an empty address bar,
/// whatever the address bar held before.
pub proof fn lemma_press_in_toolbar_edits(s: SessionState, e: PointerEvent)
    requires
        is_press(e),
        inside_window(e.x - s.origin.0, e.y - s.origin.1),
        in_toolbar_band(e.y - s.origin.1),
    ensures
        mouse_step(s, Some(e)).0.mode == InputMode::Editing,
        mouse_step(s, Some(e)).0.input.len() == 0,
        mouse_step(s, Some(e)).1 == MouseAction::EditAddress,
{
}

/// A delete keystroke on an empty address bar leaves it empty and reports no failure.
pub proof fn lemma_delete_on_empty(s: SessionState, c: char)
    requires
        s.mode == InputMode::Editing,
        s.input.len() == 0,
        is_delete_key(c),
    ensures
        key_step(s, Some(c)).0.input.len() == 0,
        key_step(s, Some(c)).0.mode == InputMode::Editing,
        key_step(s, Some(c)).1 == KeyEffect::RedrawAddressBar,
{
}

/// Text keystrokes typed while editing are appended in order, each asking only
/// for a redraw; a commit keystroke then navigates once, to the whole text, and
/// returns to `Normal` with an empty address bar.
pub proof fn lemma_type_then_commit(s: SessionState, keys: Seq<char>)
    requires
        s.mode == InputMode::Editing,
        forall|i: int| 0 <= i < keys.len() ==> is_text_key(#[trigger] keys[i]),
    ensures
        type_keys(s, keys).mode == InputMode::Editing,
        type_keys(s, keys).input == s.input + keys,
        forall|i: int|
            0 <= i < keys.len() ==> key_step(type_keys(s, keys.take(i)), Some(keys[i])).1
                == KeyEffect::RedrawAddressBar,
        key_step(type_keys(s, keys), Some('\n')) == (
            SessionState { input: Seq::empty(), mode: InputMode::Normal, origin: s.origin },
            KeyEffect::Commit(s.input + keys),
        ),
    decreases keys.len(),
{
    if keys.len() > 0 {
        let front = keys.drop_last();
        lemma_type_then_commit(s, front);
        assert(s.input + keys =~= (s.input + front).push(keys.last()));
        assert forall|i: int|
            0 <= i < keys.len() implies key_step(type_keys(s, keys.take(i)), Some(keys[i])).1
                == KeyEffect::RedrawAddressBar by {
            if i < keys.len() - 1 {
                assert(keys.take(i) =~= front.take(i));
                assert(keys[i] == front[i]);
            } else {
                assert(keys.take(i) =~= front);
            }
        }
    }
}

} // verus!
