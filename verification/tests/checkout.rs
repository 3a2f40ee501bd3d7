use clubfridge_neo::checkout::{shows_sale_confirmation, sum_cents, update, Item, Message, State};
use clubfridge_neo::keys::{KeyInput, NamedKey};

fn type_text(state: &mut State, text: &str) {
    update(state, Message::KeyPress(KeyInput::Character(text.to_string())));
}

fn enter(state: &mut State) {
    update(state, Message::KeyPress(KeyInput::Named(NamedKey::Enter)));
}

#[test]
fn identifies_the_member_then_adds_articles() {
    let mut state = State::new();
    type_text(&mut state, "12");
    type_text(&mut state, "34");
    assert_eq!(state.input, "1234");
    enter(&mut state);
    assert_eq!(state.user.as_deref(), Some("1234"));
    assert_eq!(state.input, "");
    assert!(state.items.is_empty());

    type_text(&mut state, "cola");
    enter(&mut state);
    type_text(&mut state, "mate");
    enter(&mut state);
    type_text(&mut state, "cola");
    enter(&mut state);

    assert_eq!(state.items.len(), 2);
    assert_eq!(state.items[0].description, "cola");
    assert_eq!(state.items[0].amount, 2);
    assert_eq!(state.items[0].price_cents, 50);
    assert_eq!(state.items[0].total(), 100);
    assert_eq!(state.items[1].description, "mate");
    assert_eq!(state.items[1].amount, 1);
}

#[test]
fn paying_confirms_and_the_confirmation_runs_out() {
    let mut state = State::new();
    type_text(&mut state, "member");
    enter(&mut state);
    type_text(&mut state, "cola");
    enter(&mut state);
    update(&mut state, Message::Pay);
    assert_eq!(state.user, None);
    assert!(state.items.is_empty());
    assert_eq!(state.sale_confirmation_timer, 3);
    assert!(shows_sale_confirmation(&state));

    update(&mut state, Message::DecreaseSaleConfirmationTimer);
    update(&mut state, Message::DecreaseSaleConfirmationTimer);
    update(&mut state, Message::DecreaseSaleConfirmationTimer);
    update(&mut state, Message::DecreaseSaleConfirmationTimer);
    assert_eq!(state.sale_confirmation_timer, 0);
    assert!(!shows_sale_confirmation(&state));

    update(&mut state, Message::Pay);
    type_text(&mut state, "x");
    assert_eq!(state.sale_confirmation_timer, 0);
}

#[test]
fn cancelling_drops_the_purchase_but_keeps_the_input() {
    let mut state = State::new();
    type_text(&mut state, "member");
    enter(&mut state);
    type_text(&mut state, "cola");
    enter(&mut state);
    type_text(&mut state, "half");
    update(&mut state, Message::Cancel);
    assert_eq!(state.user, None);
    assert!(state.items.is_empty());
    assert_eq!(state.input, "half");
    update(
        &mut state,
        Message::KeyPress(KeyInput::Named(NamedKey::Escape)),
    );
    update(&mut state, Message::KeyPress(KeyInput::Unidentified));
    assert_eq!(state.input, "half");
}

#[test]
fn a_line_total_is_amount_times_price() {
    let item = Item {
        amount: 65535,
        description: "x".to_string(),
        price_cents: u32::MAX,
    };
    assert_eq!(item.total(), 65535 * u32::MAX as u64);
}

#[test]
fn the_purchase_price_sums_the_line_totals() {
    let mut state = State::new();
    assert_eq!(sum_cents(&state), 0);
    type_text(&mut state, "member");
    enter(&mut state);
    type_text(&mut state, "cola");
    enter(&mut state);
    type_text(&mut state, "mate");
    enter(&mut state);
    type_text(&mut state, "cola");
    enter(&mut state);
    assert_eq!(sum_cents(&state), 150);
    state.items.push(Item {
        amount: 65535,
        description: "x".to_string(),
        price_cents: u32::MAX,
    });
    assert_eq!(sum_cents(&state), 150 + 65535 * u32::MAX as u128);
}
