//! Input: the button transitions that the host collects between two frames,
//! and what they do to the emulated joypad.

use vstd::prelude::*;

verus! {

/// A button as the host names it.
#[derive(Clone, Copy, Debug, PartialEq, Eq, Structural)]
pub enum WebButton {
    A,
    B,
    Start,
    Select,
    Up,
    Down,
    Left,
    Right,
}

/// A button of the emulated joypad, as the engine names it.
#[derive(Clone, Copy, Debug, PartialEq, Eq, Structural)]
pub enum Button {
    A,
    B,
    Start,
    Select,
    Up,
    Down,
    Left,
    Right,
}

/// One transition reported by the host: a button went down or came up.
#[derive(Clone, Copy, Debug, PartialEq, Eq, Structural)]
pub struct WebJoypadEvent {
    button: WebButton,
    pressed: bool,
}

/// One change to make to the emulated joypad: `button` is held down from now
/// on if `pressed`, and released if not.
#[derive(Clone, Copy, Debug, PartialEq, Eq, Structural)]
pub struct JoypadUpdate {
    pub button: Button,
    pub pressed: bool,
}

impl WebButton {
    /// The button of the emulated joypad that this host button stands for.
    pub open spec fn spec_button(self) -> Button {
        match self {
            WebButton::A => Button::A,
            WebButton::B => Button::B,
            WebButton::Start => Button::Start,
            WebButton::Select => Button::Select,
            WebButton::Up => Button::Up,
            WebButton::Down => Button::Down,
            WebButton::Left => Button::Left,
            WebButton::Right => Button::Right,
        }
    }

    /// The button of the emulated joypad that this host button stands for.
    #[verifier::when_used_as_spec(spec_button)]
    pub fn button(self) -> (button: Button)
        ensures
            button == self.spec_button(),
    {
        match self {
            WebButton::A => Button::A,
            WebButton::B => Button::B,
            WebButton::Start => Button::Start,
            WebButton::Select => Button::Select,
            WebButton::Up => Button::Up,
            WebButton::Down => Button::Down,
            WebButton::Left => Button::Left,
            WebButton::Right => Button::Right,
        }
    }
}

impl WebJoypadEvent {
    /// The button that changed.
    pub closed spec fn spec_button(&self) -> WebButton {
        self.button
    }

    /// Whether the button went down (`true`) or came up (`false`).
    pub closed spec fn spec_pressed(&self) -> bool {
        self.pressed
    }

    /// The update that this event asks of the emulated joypad.
    pub open spec fn spec_to_update(&self) -> JoypadUpdate {
        JoypadUpdate { button: self.button().button(), pressed: self.pressed() }
    }

    /// The transition of `button` to down (`pressed`) or up (`!pressed`).
    pub fn new(button: WebButton, pressed: bool) -> (event: Self)
        ensures
            event.button() == button,
            event.pressed() == pressed,
    {
        Self { button, pressed }
    }

    /// The button that changed.
    #[verifier::when_used_as_spec(spec_button)]
    pub fn button(&self) -> (button: WebButton)
        ensures
            button == self.button(),
    {
        self.button
    }

    /// Whether the button went down (`true`) or came up (`false`).
    #[verifier::when_used_as_spec(spec_pressed)]
    pub fn pressed(&self) -> (pressed: bool)
        ensures
            pressed == self.pressed(),
    {
        self.pressed
    }

    /// The update that this event asks of the emulated joypad.
    #[verifier::when_used_as_spec(spec_to_update)]
    pub fn to_update(&self) -> (update: JoypadUpdate)
        ensures
            update == self.to_update(),
    {
        JoypadUpdate { button: self.button.button(), pressed: self.pressed }
    }
}

/// The updates that a batch of events asks for: one for each event, in the
/// order in which the host reported them.
pub open spec fn updates_of(events: Seq<WebJoypadEvent>) -> Seq<JoypadUpdate> {
    Seq::new(events.len(), |i: int| events[i].to_update())
}

/// Turns the batch that one poll returned into the updates to make to the
/// emulated joypad: one for each event, in the same order. An empty batch
/// asks for nothing.
pub fn joypad_updates(events: &[WebJoypadEvent]) -> (updates: Vec<JoypadUpdate>)
    ensures
        updates@ == updates_of(events@),
{
    let mut updates: Vec<JoypadUpdate> = Vec::with_capacity(events.len());
    let mut i: usize = 0;
    while i < events.len()
        invariant
            i <= events.len(),
            updates@ == updates_of(events@.take(i as int)),
        decreases events.len() - i,
    {
        updates.push(events[i].to_update());
        i += 1;
    }
    updates
}

/// The state of a joypad with every button released.
pub open spec fn all_released() -> Map<Button, bool> {
    Map::new(|button: Button| true, |button: Button| false)
}

/// The joypad after `updates` have been made to it one at a time, first to
/// last.
pub open spec fn after_updates(state: Map<Button, bool>, updates: Seq<JoypadUpdate>) -> Map<
    Button,
    bool,
>
    decreases updates.len(),
{
    if updates.len() == 0 {
        state
    } else {
        after_updates(state, updates.drop_last()).insert(
            updates.last().button,
            updates.last().pressed,
        )
    }
}

/// A batch asks for as many updates as it holds events, and the update at
/// each place is the one that the event at that place asks for: nothing is
/// reordered, dropped or merged.
pub proof fn lemma_updates_keep_order(events: Seq<WebJoypadEvent>)
    ensures
        updates_of(events).len() == events.len(),
        forall|i: int| 0 <= i < events.len() ==> updates_of(events)[i] == events[i].to_update(),
{
}

/// Making the updates of two runs laid end to end is the same as making
/// those of the first run and then those of the second.
pub proof fn lemma_after_updates_concat(
    state: Map<Button, bool>,
    first: Seq<JoypadUpdate>,
    rest: Seq<JoypadUpdate>,
)
    ensures
        after_updates(state, first + rest) == after_updates(after_updates(state, first), rest),
    decreases rest.len(),
{
    if rest.len() == 0 {
        assert(first + rest == first);
    } else {
        lemma_after_updates_concat(state, first, rest.drop_last());
        assert((first + rest).drop_last() == first + rest.drop_last());
    }
}

/// A batch acts as its parts would, submitted one after the other: the
/// updates of `first` followed by `rest` are those of `first` and then those
/// of `rest`, and they leave the joypad as the two batches would in turn.
/// Cut down to single events, a batch of any length acts as its events
/// would, submitted one at a time in the same order.
pub proof fn lemma_batch_is_stepwise(
    state: Map<Button, bool>,
    first: Seq<WebJoypadEvent>,
    rest: Seq<WebJoypadEvent>,
)
    ensures
        updates_of(first + rest) == updates_of(first) + updates_of(rest),
        after_updates(state, updates_of(first + rest)) == after_updates(
            after_updates(state, updates_of(first)),
            updates_of(rest),
        ),
{
    assert(updates_of(first + rest) == updates_of(first) + updates_of(rest));
    lemma_after_updates_concat(state, updates_of(first), updates_of(rest));
}

/// A button that no update of a batch names is left as it was.
pub proof fn lemma_unnamed_button_keeps_state(
    state: Map<Button, bool>,
    updates: Seq<JoypadUpdate>,
    button: Button,
)
    requires
        forall|i: int| 0 <= i < updates.len() ==> updates[i].button != button,
    ensures
        after_updates(state, updates).contains_key(button) == state.contains_key(button),
        after_updates(state, updates)[button] == state[button],
    decreases updates.len(),
{
    if updates.len() > 0 {
        lemma_unnamed_button_keeps_state(state, updates.drop_last(), button);
    }
}

/// Within one batch the last write to a button wins: if no update after the
/// one at place `last` names its button, that button ends in the state that
/// this update gives it, whatever came before.
pub proof fn lemma_last_write_wins(state: Map<Button, bool>, updates: Seq<JoypadUpdate>, last: int)
    requires
        0 <= last < updates.len(),
        forall|j: int| last < j < updates.len() ==> updates[j].button != updates[last].button,
    ensures
        after_updates(state, updates).contains_key(updates[last].button),
        after_updates(state, updates)[updates[last].button] == updates[last].pressed,
    decreases updates.len(),
{
    if last < updates.len() - 1 {
        lemma_last_write_wins(state, updates.drop_last(), last);
    }
}

/// The emulated joypad as this layer sees it: which of its eight buttons are
/// held down. An engine keeps more than this; the rules on batches of input
/// are stated over this much.
#[derive(Clone, Copy, Debug)]
pub struct JoypadState {
    a: bool,
    b: bool,
    start: bool,
    select: bool,
    up: bool,
    down: bool,
    left: bool,
    right: bool,
}

impl View for JoypadState {
    type V = Map<Button, bool>;

    /// For each of the eight buttons, whether it is held down.
    closed spec fn view(&self) -> Map<Button, bool> {
        Map::new(
            |button: Button| true,
            |button: Button|
                match button {
                    Button::A => self.a,
                    Button::B => self.b,
                    Button::Start => self.start,
                    Button::Select => self.select,
                    Button::Up => self.up,
                    Button::Down => self.down,
                    Button::Left => self.left,
                    Button::Right => self.right,
                },
        )
    }
}

impl JoypadState {
    /// A joypad with every button released.
    pub fn new() -> (state: Self)
        ensures
            state@ == all_released(),
    {
        Self {
            a: false,
            b: false,
            start: false,
            select: false,
            up: false,
            down: false,
            left: false,
            right: false,
        }
    }

    /// Whether `button` is held down.
    pub fn is_pressed(&self, button: Button) -> (pressed: bool)
        ensures
            self@.contains_key(button),
            pressed == self@[button],
    {
        match button {
            Button::A => self.a,
            Button::B => self.b,
            Button::Start => self.start,
            Button::Select => self.select,
            Button::Up => self.up,
            Button::Down => self.down,
            Button::Left => self.left,
            Button::Right => self.right,
        }
    }

    /// Presses or releases one button; the others stay as they are.
    pub fn update(&mut self, button: Button, pressed: bool)
        ensures
            final(self)@ == old(self)@.insert(button, pressed),
    {
        match button {
            Button::A => self.a = pressed,
            Button::B => self.b = pressed,
            Button::Start => self.start = pressed,
            Button::Select => self.select = pressed,
            Button::Up => self.up = pressed,
            Button::Down => self.down = pressed,
            Button::Left => self.left = pressed,
            Button::Right => self.right = pressed,
        }
    }

    /// Makes a batch of updates, one at a time, first to last.
    pub fn apply(&mut self, updates: &[JoypadUpdate])
        ensures
            final(self)@ == after_updates(old(self)@, updates@),
    {
        let mut i: usize = 0;
        while i < updates.len()
            invariant
                i <= updates.len(),
                self@ == after_updates(old(self)@, updates@.take(i as int)),
            decreases updates.len() - i,
        {
            let update: JoypadUpdate = updates[i];
            assert(updates@.take(i + 1).drop_last() == updates@.take(i as int));
            self.update(update.button, update.pressed);
            i += 1;
        }
        assert(updates@.take(i as int) == updates@);
    }
}

/// The host's input source: it hands over the transitions it has collected.
pub trait InputSource {
    /// Returns the transitions collected since the last call, oldest first,
    /// and forgets them.
    fn consume_events(&self) -> Vec<WebJoypadEvent>;
}

/// The input adapter: once per frame it polls the host for the transitions
/// collected since the last poll.
pub struct WebJoypadEventHandler<C: InputSource> {
    consumer: C,
}

impl<C: InputSource> WebJoypadEventHandler<C> {
    /// The adapter around `consumer`.
    pub closed spec fn spec_new(consumer: C) -> Self {
        Self { consumer }
    }

    /// The host input source that this adapter polls.
    pub closed spec fn source(&self) -> C {
        self.consumer
    }

    /// Wraps the host's input source.
    #[verifier::when_used_as_spec(spec_new)]
    pub fn new(consumer: C) -> (handler: Self)
        ensures
            handler == Self::new(consumer),
            handler.source() == consumer,
    {
        Self { consumer }
    }

    /// Polls the host and returns the updates that the polled batch asks for:
    /// one for each event that the source's `consume_events` returned, in the
    /// order received. The engine makes them to its joypad.
    pub fn handle_events(&mut self) -> (updates: Vec<JoypadUpdate>)
        ensures
            final(self).source() == old(self).source(),
            exists|batch: Vec<WebJoypadEvent>|
                #[trigger] call_ensures(C::consume_events, (&old(self).source(),), batch)
                    && updates@ == updates_of(batch@),
    {
        let batch = self.consumer.consume_events();
        assert(call_ensures(C::consume_events, (&old(self).source(),), batch));
        joypad_updates(batch.as_slice())
    }
}

} // verus!
