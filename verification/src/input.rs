//! Keyboard and mouse-button state between two frames.
//!
//! Keys and buttons are identified by integer codes. A release of a key or
//! button that was held is recorded as an event of the current frame; taking
//! the frame hands those events out and starts an empty one.
use std::collections::HashSet;

use smallvec::SmallVec;
use vstd::prelude::*;

verus! {

broadcast use vstd::std_specs::hash::group_hash_axioms;

/// The key events of a frame, held in a `smallvec::SmallVec` that keeps its
/// first 16 items inline.
#[verifier::external_body]
pub struct KeyEvents {
    inner: SmallVec<[u32; 16]>,
}

/// The click events of a frame, held in a `smallvec::SmallVec` that keeps its
/// first 4 items inline.
#[verifier::external_body]
pub struct ClickEvents {
    inner: SmallVec<[u32; 4]>,
}

/// The items of the key events, in order.
pub uninterp spec fn key_items(v: KeyEvents) -> Seq<u32>;

/// The items of the click events, in order.
pub uninterp spec fn click_items(v: ClickEvents) -> Seq<u32>;

/// Pushes beyond this many items could make `SmallVec::push` fail to size
/// its allocation.
pub open spec fn event_capacity() -> int {
    (usize::MAX / 16) as int
}

/// The number of events a frame can take, as a value callers can test
/// against before recording one more.
pub fn event_capacity_limit() -> (r: usize)
    ensures
        r == event_capacity(),
{
    usize::MAX / 16
}

/// `SmallVec::new`: an empty vector.
#[verifier::external_body]
fn key_events_new() -> (r: KeyEvents)
    ensures
        key_items(r) == Seq::<u32>::empty(),
{
    KeyEvents { inner: SmallVec::new() }
}

/// `SmallVec::push`: appends the item at the end.
#[verifier::external_body]
fn key_events_push(v: &mut KeyEvents, item: u32)
    requires
        key_items(*old(v)).len() < event_capacity(),
    ensures
        key_items(*final(v)) == key_items(*old(v)).push(item),
{
    v.inner.push(item)
}

/// `SmallVec::as_slice`: the items in order, copied into a `Vec`.
#[verifier::external_body]
fn key_events_to_vec(v: &KeyEvents) -> (r: Vec<u32>)
    ensures
        r@ == key_items(*v),
{
    v.inner.as_slice().to_vec()
}

/// `SmallVec::new`: an empty vector.
#[verifier::external_body]
fn click_events_new() -> (r: ClickEvents)
    ensures
        click_items(r) == Seq::<u32>::empty(),
{
    ClickEvents { inner: SmallVec::new() }
}

/// `SmallVec::push`: appends the item at the end.
#[verifier::external_body]
fn click_events_push(v: &mut ClickEvents, item: u32)
    requires
        click_items(*old(v)).len() < event_capacity(),
    ensures
        click_items(*final(v)) == click_items(*old(v)).push(item),
{
    v.inner.push(item)
}

/// `SmallVec::as_slice`: the items in order, copied into a `Vec`.
#[verifier::external_body]
fn click_events_to_vec(v: &ClickEvents) -> (r: Vec<u32>)
    ensures
        r@ == click_items(*v),
{
    v.inner.as_slice().to_vec()
}

/// The events of one frame: the mouse buttons and keys released while held,
/// in the order of their release.
pub struct InputFrame {
    pub click_events: ClickEvents,
    pub key_events: KeyEvents,
}

/// What a frame holds.
#[verifier::ext_equal]
pub struct InputFrameView {
    pub clicks: Seq<u32>,
    pub keys: Seq<u32>,
}

impl View for InputFrame {
    type V = InputFrameView;

    open spec fn view(&self) -> InputFrameView {
        InputFrameView { clicks: click_items(self.click_events), keys: key_items(self.key_events) }
    }
}

impl InputFrame {
    /// A frame without events.
    pub fn new() -> (r: Self)
        ensures
            r@.clicks == Seq::<u32>::empty(),
            r@.keys == Seq::<u32>::empty(),
    {
        InputFrame { click_events: click_events_new(), key_events: key_events_new() }
    }

    /// The buttons released in this frame, in order.
    pub fn clicks(&self) -> (r: Vec<u32>)
        ensures
            r@ == self@.clicks,
    {
        click_events_to_vec(&self.click_events)
    }

    /// The keys released in this frame, in order.
    pub fn keys(&self) -> (r: Vec<u32>)
        ensures
            r@ == self@.keys,
    {
        key_events_to_vec(&self.key_events)
    }
}

impl Default for InputFrame {
    fn default() -> (r: Self)
        ensures
            r@.clicks == Seq::<u32>::empty(),
            r@.keys == Seq::<u32>::empty(),
    {
        InputFrame::new()
    }
}

/// The held keys and buttons, the events of the current frame and whether the
/// window has focus.
pub struct Input {
    active_keys: HashSet<u32>,
    active_mouse_buttons: HashSet<u32>,
    frame: InputFrame,
    is_focused: bool,
}

/// What the input state holds.
#[verifier::ext_equal]
pub struct InputView {
    pub keys: Set<u32>,
    pub buttons: Set<u32>,
    pub frame: InputFrameView,
    pub focused: bool,
}

impl View for Input {
    type V = InputView;

    closed spec fn view(&self) -> InputView {
        InputView {
            keys: self.active_keys@,
            buttons: self.active_mouse_buttons@,
            frame: self.frame@,
            focused: self.is_focused,
        }
    }
}

/// The state after `key` went down (`is_active`) or up: releasing a held key
/// records it as a key event.
pub open spec fn after_key(v: InputView, key: u32, is_active: bool) -> InputView {
    InputView {
        keys: if is_active {
            v.keys.insert(key)
        } else {
            v.keys.remove(key)
        },
        frame: InputFrameView {
            clicks: v.frame.clicks,
            keys: if !is_active && v.keys.contains(key) {
                v.frame.keys.push(key)
            } else {
                v.frame.keys
            },
        },
        ..v
    }
}

/// The state after `button` went down (`is_active`) or up: releasing a held
/// button records it as a click event.
pub open spec fn after_button(v: InputView, button: u32, is_active: bool) -> InputView {
    InputView {
        buttons: if is_active {
            v.buttons.insert(button)
        } else {
            v.buttons.remove(button)
        },
        frame: InputFrameView {
            clicks: if !is_active && v.buttons.contains(button) {
                v.frame.clicks.push(button)
            } else {
                v.frame.clicks
            },
            keys: v.frame.keys,
        },
        ..v
    }
}

/// The state after the frame was taken: the same keys and buttons held, no
/// events.
pub open spec fn after_take(v: InputView) -> InputView {
    InputView {
        frame: InputFrameView { clicks: Seq::empty(), keys: Seq::empty() },
        ..v
    }
}

impl Input {
    /// No key or button held, no event, no focus.
    pub fn new() -> (r: Self)
        ensures
            r@.keys == Set::<u32>::empty(),
            r@.buttons == Set::<u32>::empty(),
            r@.frame.clicks == Seq::<u32>::empty(),
            r@.frame.keys == Seq::<u32>::empty(),
            !r@.focused,
    {
        Input {
            active_keys: HashSet::new(),
            active_mouse_buttons: HashSet::new(),
            frame: InputFrame::new(),
            is_focused: false,
        }
    }

    /// Records that `key` went down (`is_active`) or up. Releasing a key that
    /// was held adds a key event to the frame.
    pub fn set_key_activity(&mut self, key: u32, is_active: bool)
        requires
            old(self)@.frame.keys.len() < event_capacity(),
        ensures
            final(self)@ == after_key(old(self)@, key, is_active),
    {
        if is_active {
            self.active_keys.insert(key);
            return;
        }
        if self.active_keys.contains(&key) {
            key_events_push(&mut self.frame.key_events, key);
        }
        self.active_keys.remove(&key);
    }

    /// Whether `key` is held.
    pub fn is_key_active(&self, key: u32) -> (r: bool)
        ensures
            r == self@.keys.contains(key),
    {
        self.active_keys.contains(&key)
    }

    /// Records that `button` went down (`is_active`) or up. Releasing a
    /// button that was held adds a click event to the frame; the result says
    /// whether one was added.
    pub fn set_mouse_button_activity(&mut self, button: u32, is_active: bool) -> (clicked: bool)
        requires
            old(self)@.frame.clicks.len() < event_capacity(),
        ensures
            clicked == (!is_active && old(self)@.buttons.contains(button)),
            final(self)@ == after_button(old(self)@, button, is_active),
    {
        if is_active {
            self.active_mouse_buttons.insert(button);
            return false;
        }
        let clicked = self.active_mouse_buttons.contains(&button);
        if clicked {
            click_events_push(&mut self.frame.click_events, button);
        }
        self.active_mouse_buttons.remove(&button);
        clicked
    }

    /// Whether `button` is held.
    pub fn is_mouse_button_active(&self, button: u32) -> (r: bool)
        ensures
            r == self@.buttons.contains(button),
    {
        self.active_mouse_buttons.contains(&button)
    }

    /// Hands out the events of the current frame and starts an empty one.
    pub fn take_frame(&mut self) -> (frame: InputFrame)
        ensures
            frame@ == old(self)@.frame,
            final(self)@ == after_take(old(self)@),
    {
        let mut frame = InputFrame::new();
        std::mem::swap(&mut self.frame, &mut frame);
        frame
    }

    /// Records whether the window has focus.
    pub fn set_focused(&mut self, is_focused: bool)
        ensures
            final(self)@ == (InputView { focused: is_focused, ..old(self)@ }),
    {
        self.is_focused = is_focused;
    }

    /// Whether the window has focus.
    pub fn is_focused(&self) -> (r: bool)
        ensures
            r == self@.focused,
    {
        self.is_focused
    }
}

impl Default for Input {
    fn default() -> (r: Self)
        ensures
            r@.keys == Set::<u32>::empty(),
            r@.buttons == Set::<u32>::empty(),
            r@.frame.clicks == Seq::<u32>::empty(),
            r@.frame.keys == Seq::<u32>::empty(),
            !r@.focused,
    {
        Input::new()
    }
}

/// One change of a key or mouse button: the code and whether it went down.
#[derive(Debug, Copy, Clone, PartialEq, Eq)]
pub enum InputEvent {
    Key { code: u32, is_active: bool },
    Button { code: u32, is_active: bool },
}

/// The state after one change, as `set_key_activity` and
/// `set_mouse_button_activity` make it.
pub open spec fn after_event(v: InputView, e: InputEvent) -> InputView {
    match e {
        InputEvent::Key { code, is_active } => after_key(v, code, is_active),
        InputEvent::Button { code, is_active } => after_button(v, code, is_active),
    }
}

/// The state after the changes `es`, in order.
pub open spec fn after_events(v: InputView, es: Seq<InputEvent>) -> InputView
    decreases es.len(),
{
    if es.len() == 0 {
        v
    } else {
        after_event(after_events(v, es.drop_last()), es.last())
    }
}

/// The keys that the changes `es` release while they are held, in order.
pub open spec fn released_keys(v: InputView, es: Seq<InputEvent>) -> Seq<u32>
    decreases es.len(),
{
    if es.len() == 0 {
        Seq::empty()
    } else {
        let before = after_events(v, es.drop_last());
        released_keys(v, es.drop_last()) + match es.last() {
            InputEvent::Key { code, is_active } => if !is_active && before.keys.contains(code) {
                seq![code]
            } else {
                Seq::empty()
            },
            InputEvent::Button { .. } => Seq::empty(),
        }
    }
}

/// The buttons that the changes `es` release while they are held, in order.
pub open spec fn released_buttons(v: InputView, es: Seq<InputEvent>) -> Seq<u32>
    decreases es.len(),
{
    if es.len() == 0 {
        Seq::empty()
    } else {
        let before = after_events(v, es.drop_last());
        released_buttons(v, es.drop_last()) + match es.last() {
            InputEvent::Button { code, is_active } => if !is_active && before.buttons.contains(
                code,
            ) {
                seq![code]
            } else {
                Seq::empty()
            },
            InputEvent::Key { .. } => Seq::empty(),
        }
    }
}

/// A run of key and button changes appends to the frame exactly the keys and
/// the buttons it releases while they are held, each in the order of release,
/// and leaves the focus alone.
pub proof fn lemma_events_append_releases(v: InputView, es: Seq<InputEvent>)
    ensures
        after_events(v, es).frame.keys == v.frame.keys + released_keys(v, es),
        after_events(v, es).frame.clicks == v.frame.clicks + released_buttons(v, es),
        after_events(v, es).focused == v.focused,
    decreases es.len(),
{
    if es.len() > 0 {
        lemma_events_append_releases(v, es.drop_last());
        let before = after_events(v, es.drop_last());
        match es.last() {
            InputEvent::Key { code, is_active } => {
                assert(v.frame.keys + released_keys(v, es) =~= before.frame.keys + (
                if !is_active && before.keys.contains(code) {
                    seq![code]
                } else {
                    Seq::empty()
                }));
                assert(v.frame.clicks + released_buttons(v, es) =~= before.frame.clicks);
            },
            InputEvent::Button { code, is_active } => {
                assert(v.frame.clicks + released_buttons(v, es) =~= before.frame.clicks + (
                if !is_active && before.buttons.contains(code) {
                    seq![code]
                } else {
                    Seq::empty()
                }));
                assert(v.frame.keys + released_keys(v, es) =~= before.frame.keys);
            },
        }
    } else {
        assert(v.frame.keys + released_keys(v, es) =~= v.frame.keys);
        assert(v.frame.clicks + released_buttons(v, es) =~= v.frame.clicks);
    }
}

/// Taking the frame after a run of changes that followed the previous take
/// hands out exactly the keys and buttons released while held since that
/// take, in the order of release, and leaves an empty frame behind, so a
/// second take hands out nothing.
pub proof fn lemma_take_returns_releases_since_take(v: InputView, es: Seq<InputEvent>)
    ensures
        ({
            let start = after_take(v);
            let taken = after_events(start, es).frame;
            &&& taken.keys == released_keys(start, es)
            &&& taken.clicks == released_buttons(start, es)
            &&& after_take(after_events(start, es)).frame.keys == Seq::<u32>::empty()
            &&& after_take(after_events(start, es)).frame.clicks == Seq::<u32>::empty()
        }),
{
    lemma_events_append_releases(after_take(v), es);
    assert(Seq::<u32>::empty() + released_keys(after_take(v), es) =~= released_keys(after_take(v), es));
    assert(Seq::<u32>::empty() + released_buttons(after_take(v), es) =~= released_buttons(after_take(v), es));
}

/// Pressing a key that is not held and releasing it again leaves the same
/// keys held and records the key once.
pub proof fn lemma_press_then_release(v: InputView, key: u32)
    requires
        !v.keys.contains(key),
    ensures
        after_key(after_key(v, key, true), key, false) == (InputView {
            frame: InputFrameView { keys: v.frame.keys.push(key), ..v.frame },
            ..v
        }),
{
    assert(v.keys.insert(key).remove(key) =~= v.keys);
}

/// Releasing a key that is not held changes nothing, so a second release
/// records no second event.
pub proof fn lemma_release_unheld_key(v: InputView, key: u32)
    requires
        !v.keys.contains(key),
    ensures
        after_key(v, key, false) == v,
{
    assert(v.keys.remove(key) =~= v.keys);
}

/// Pressing a held key again changes nothing.
pub proof fn lemma_press_held_key(v: InputView, key: u32)
    requires
        v.keys.contains(key),
    ensures
        after_key(v, key, true) == v,
{
    assert(v.keys.insert(key) =~= v.keys);
}

/// Pressing a button that is not held and releasing it again leaves the
/// same buttons held and records one click.
pub proof fn lemma_click(v: InputView, button: u32)
    requires
        !v.buttons.contains(button),
    ensures
        after_button(after_button(v, button, true), button, false) == (InputView {
            frame: InputFrameView { clicks: v.frame.clicks.push(button), ..v.frame },
            ..v
        }),
{
    assert(v.buttons.insert(button).remove(button) =~= v.buttons);
}

/// Key and button changes do not touch each other's state, and so commute.
pub proof fn lemma_keys_and_buttons_commute(
    v: InputView,
    key: u32,
    key_active: bool,
    button: u32,
    button_active: bool,
)
    ensures
        after_button(after_key(v, key, key_active), button, button_active) == after_key(
            after_button(v, button, button_active),
            key,
            key_active,
        ),
{
}

/// Taking the frame twice hands out no events the second time, and the
/// events of the next frame are only those recorded after the take.
pub proof fn lemma_take_resets(v: InputView, key: u32)
    ensures
        after_take(after_take(v)) == after_take(v),
        v.keys.contains(key) ==> after_key(after_take(v), key, false).frame.keys == seq![key],
{
}

} // verus!
