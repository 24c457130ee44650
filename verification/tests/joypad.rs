use std::cell::{Cell, RefCell};
use std::rc::Rc;
use webboy::{
    joypad_updates, Button, InputSource, JoypadState, JoypadUpdate, WebButton, WebJoypadEvent,
    WebJoypadEventHandler,
};

const WEB_BUTTONS: [WebButton; 8] = [
    WebButton::A,
    WebButton::B,
    WebButton::Start,
    WebButton::Select,
    WebButton::Up,
    WebButton::Down,
    WebButton::Left,
    WebButton::Right,
];

const BUTTONS: [Button; 8] = [
    Button::A,
    Button::B,
    Button::Start,
    Button::Select,
    Button::Up,
    Button::Down,
    Button::Left,
    Button::Right,
];

/// An input source that hands out prepared batches, one for each poll, and
/// counts the polls.
struct Script {
    batches: Rc<RefCell<Vec<Vec<WebJoypadEvent>>>>,
    polls: Rc<Cell<usize>>,
}

impl InputSource for Script {
    fn consume_events(&self) -> Vec<WebJoypadEvent> {
        self.polls.set(self.polls.get() + 1);
        let mut batches = self.batches.borrow_mut();
        if batches.is_empty() {
            Vec::new()
        } else {
            batches.remove(0)
        }
    }
}

fn handler_for(
    batches: Vec<Vec<WebJoypadEvent>>,
) -> (WebJoypadEventHandler<Script>, Rc<Cell<usize>>) {
    let polls = Rc::new(Cell::new(0));
    let script = Script { batches: Rc::new(RefCell::new(batches)), polls: polls.clone() };
    (WebJoypadEventHandler::new(script), polls)
}

fn pressed_buttons(state: &JoypadState) -> Vec<bool> {
    BUTTONS.iter().map(|button| state.is_pressed(*button)).collect()
}

#[test]
fn event_holds_its_button_and_flag() {
    for button in WEB_BUTTONS {
        for pressed in [true, false] {
            let event = WebJoypadEvent::new(button, pressed);
            assert_eq!(event.button(), button);
            assert_eq!(event.pressed(), pressed);
        }
    }
}

#[test]
fn each_host_button_stands_for_its_joypad_button() {
    assert_eq!(WebButton::A.button(), Button::A);
    assert_eq!(WebButton::B.button(), Button::B);
    assert_eq!(WebButton::Start.button(), Button::Start);
    assert_eq!(WebButton::Select.button(), Button::Select);
    assert_eq!(WebButton::Up.button(), Button::Up);
    assert_eq!(WebButton::Down.button(), Button::Down);
    assert_eq!(WebButton::Left.button(), Button::Left);
    assert_eq!(WebButton::Right.button(), Button::Right);
}

#[test]
fn event_asks_for_the_matching_update() {
    let event = WebJoypadEvent::new(WebButton::Select, true);
    assert_eq!(event.to_update(), JoypadUpdate { button: Button::Select, pressed: true });
    let event = WebJoypadEvent::new(WebButton::Left, false);
    assert_eq!(event.to_update(), JoypadUpdate { button: Button::Left, pressed: false });
}

#[test]
fn empty_batch_asks_for_nothing() {
    assert_eq!(joypad_updates(&[]), Vec::new());
}

#[test]
fn batch_keeps_its_order_and_length() {
    let batch = [
        WebJoypadEvent::new(WebButton::A, true),
        WebJoypadEvent::new(WebButton::Up, true),
        WebJoypadEvent::new(WebButton::A, false),
        WebJoypadEvent::new(WebButton::A, true),
        WebJoypadEvent::new(WebButton::Start, false),
    ];
    assert_eq!(
        joypad_updates(&batch),
        vec![
            JoypadUpdate { button: Button::A, pressed: true },
            JoypadUpdate { button: Button::Up, pressed: true },
            JoypadUpdate { button: Button::A, pressed: false },
            JoypadUpdate { button: Button::A, pressed: true },
            JoypadUpdate { button: Button::Start, pressed: false },
        ]
    );
}

#[test]
fn repeated_events_are_not_merged() {
    let batch = [WebJoypadEvent::new(WebButton::B, true); 3];
    assert_eq!(joypad_updates(&batch), vec![JoypadUpdate { button: Button::B, pressed: true }; 3]);
}

#[test]
fn batch_splits_into_its_events() {
    let batch: Vec<WebJoypadEvent> = WEB_BUTTONS
        .iter()
        .enumerate()
        .map(|(i, button)| WebJoypadEvent::new(*button, i % 3 != 0))
        .collect();
    let mut one_at_a_time = Vec::new();
    for event in &batch {
        one_at_a_time.extend(joypad_updates(&[*event]));
    }
    assert_eq!(joypad_updates(&batch), one_at_a_time);
    for cut in 0..=batch.len() {
        let mut joined = joypad_updates(&batch[..cut]);
        joined.extend(joypad_updates(&batch[cut..]));
        assert_eq!(joypad_updates(&batch), joined);
    }
}

#[test]
fn handler_polls_once_and_returns_the_updates_in_order() {
    let (mut handler, polls) = handler_for(vec![vec![
        WebJoypadEvent::new(WebButton::Down, true),
        WebJoypadEvent::new(WebButton::B, true),
        WebJoypadEvent::new(WebButton::Down, false),
    ]]);
    let updates = handler.handle_events();
    assert_eq!(polls.get(), 1);
    assert_eq!(
        updates,
        vec![
            JoypadUpdate { button: Button::Down, pressed: true },
            JoypadUpdate { button: Button::B, pressed: true },
            JoypadUpdate { button: Button::Down, pressed: false },
        ]
    );
}

#[test]
fn handler_with_nothing_pending_changes_nothing() {
    let (mut handler, polls) = handler_for(Vec::new());
    let mut state = JoypadState::new();
    state.update(Button::Right, true);
    let before = pressed_buttons(&state);
    let updates = handler.handle_events();
    assert_eq!(polls.get(), 1);
    assert!(updates.is_empty());
    state.apply(&updates);
    assert_eq!(pressed_buttons(&state), before);
}

#[test]
fn handler_hands_out_each_batch_once() {
    let (mut handler, polls) = handler_for(vec![
        vec![WebJoypadEvent::new(WebButton::A, true)],
        vec![WebJoypadEvent::new(WebButton::A, false), WebJoypadEvent::new(WebButton::B, true)],
    ]);
    assert_eq!(handler.handle_events(), vec![JoypadUpdate { button: Button::A, pressed: true }]);
    assert_eq!(
        handler.handle_events(),
        vec![
            JoypadUpdate { button: Button::A, pressed: false },
            JoypadUpdate { button: Button::B, pressed: true },
        ]
    );
    assert_eq!(handler.handle_events(), Vec::new());
    assert_eq!(polls.get(), 3);
}

#[test]
fn new_joypad_has_every_button_released() {
    let state = JoypadState::new();
    assert_eq!(pressed_buttons(&state), vec![false; 8]);
}

#[test]
fn update_changes_one_button_only() {
    for (i, button) in BUTTONS.iter().enumerate() {
        let mut state = JoypadState::new();
        state.update(*button, true);
        let mut expected = vec![false; 8];
        expected[i] = true;
        assert_eq!(pressed_buttons(&state), expected);
        state.update(*button, false);
        assert_eq!(pressed_buttons(&state), vec![false; 8]);
    }
}

#[test]
fn buttons_toggle_independently() {
    let mut state = JoypadState::new();
    state.update(Button::Left, true);
    state.update(Button::Right, true);
    state.update(Button::Up, true);
    state.update(Button::Down, true);
    assert!(state.is_pressed(Button::Left));
    assert!(state.is_pressed(Button::Right));
    assert!(state.is_pressed(Button::Up));
    assert!(state.is_pressed(Button::Down));
    state.update(Button::Left, false);
    assert!(!state.is_pressed(Button::Left));
    assert!(state.is_pressed(Button::Right));
}

#[test]
fn batch_acts_as_its_events_one_at_a_time() {
    let batch = [
        WebJoypadEvent::new(WebButton::A, true),
        WebJoypadEvent::new(WebButton::Start, true),
        WebJoypadEvent::new(WebButton::A, false),
        WebJoypadEvent::new(WebButton::Right, true),
        WebJoypadEvent::new(WebButton::Start, false),
        WebJoypadEvent::new(WebButton::Start, true),
    ];
    let mut at_once = JoypadState::new();
    at_once.apply(&joypad_updates(&batch));

    let mut stepwise = JoypadState::new();
    for event in &batch {
        stepwise.apply(&joypad_updates(&[*event]));
    }
    assert_eq!(pressed_buttons(&at_once), pressed_buttons(&stepwise));

    let mut by_hand = JoypadState::new();
    for event in &batch {
        by_hand.update(event.button().button(), event.pressed());
    }
    assert_eq!(pressed_buttons(&at_once), pressed_buttons(&by_hand));
    assert_eq!(
        pressed_buttons(&at_once),
        vec![false, false, true, false, false, false, false, true]
    );
}

#[test]
fn last_write_to_a_button_wins() {
    let mut state = JoypadState::new();
    state.update(Button::Select, true);
    state.apply(&[
        JoypadUpdate { button: Button::B, pressed: true },
        JoypadUpdate { button: Button::B, pressed: false },
        JoypadUpdate { button: Button::Up, pressed: false },
        JoypadUpdate { button: Button::Up, pressed: true },
    ]);
    assert!(!state.is_pressed(Button::B));
    assert!(state.is_pressed(Button::Up));
    assert!(state.is_pressed(Button::Select));
    assert!(!state.is_pressed(Button::A));
}

#[test]
fn order_of_a_batch_matters() {
    let down_then_up = [
        JoypadUpdate { button: Button::A, pressed: true },
        JoypadUpdate { button: Button::A, pressed: false },
    ];
    let up_then_down = [down_then_up[1], down_then_up[0]];
    let mut first = JoypadState::new();
    first.apply(&down_then_up);
    let mut second = JoypadState::new();
    second.apply(&up_then_down);
    assert!(!first.is_pressed(Button::A));
    assert!(second.is_pressed(Button::A));
}
