use vstd::prelude::*;
use crate::keys::{KeyInput, NamedKey};
use crate::text::append_str;

verus! {

/// The price of every scanned article, in cents.
pub const ITEM_PRICE_CENTS: u32 = 50;

/// How long, in ticks of one second, the purchase confirmation stays.
pub const SALE_CONFIRMATION_TICKS: u8 = 3;

/// One line of the current purchase.
#[derive(Debug, Clone)]
pub struct Item {
    pub amount: u16,
    pub description: String,
    pub price_cents: u32,
}

/// The abstract form of an `Item`.
pub struct ItemView {
    pub amount: u16,
    pub description: Seq<char>,
    pub price_cents: u32,
}

impl View for Item {
    type V = ItemView;

    open spec fn view(&self) -> ItemView {
        ItemView { amount: self.amount, description: self.description@, price_cents: self.price_cents }
    }
}

impl Item {
    /// The price of the line: amount times unit price, in cents.
    pub fn total(&self) -> (r: u64)
        ensures
            r == self.amount * self.price_cents,
    {
        assert(self.amount * self.price_cents <= 0xFFFFu64 * 0xFFFF_FFFFu64) by (nonlinear_arith)
            requires
                self.amount <= 0xFFFF,
                self.price_cents <= 0xFFFF_FFFF,
        ;
        (self.amount as u64) * (self.price_cents as u64)
    }
}

/// The state of the checkout screen.
pub struct State {
    /// The member who is buying, once identified.
    pub user: Option<String>,
    /// The characters typed or scanned since the last Enter.
    pub input: String,
    /// The lines of the current purchase.
    pub items: Vec<Item>,
    /// Show a confirmation screen until this timer runs out.
    pub sale_confirmation_timer: u8,
}

/// The abstract form of the checkout `State`.
pub struct StateView {
    pub user: Option<Seq<char>>,
    pub input: Seq<char>,
    pub items: Seq<ItemView>,
    pub sale_confirmation_timer: u8,
}

impl View for State {
    type V = StateView;

    open spec fn view(&self) -> StateView {
        StateView {
            user: match self.user {
                Some(u) => Some(u@),
                None => None,
            },
            input: self.input@,
            items: self.items@.map_values(|i: Item| i@),
            sale_confirmation_timer: self.sale_confirmation_timer,
        }
    }
}

impl State {
    /// The state at start: nobody identified, nothing typed or bought.
    pub fn new() -> (r: Self)
        ensures
            r@.user is None,
            r@.input.len() == 0,
            r@.items.len() == 0,
            r@.sale_confirmation_timer == 0,
    {
        State { user: None, input: String::new(), items: Vec::new(), sale_confirmation_timer: 0 }
    }
}

/// What happens on the checkout screen.
#[derive(Debug, Clone)]
pub enum Message {
    KeyPress(KeyInput),
    Pay,
    Cancel,
    DecreaseSaleConfirmationTimer,
}

/// The first position at or after `i` of a line described by `d`, or the
/// number of lines when there is none.
pub open spec fn find_item(items: Seq<ItemView>, d: Seq<char>, i: int) -> int
    decreases items.len() - i,
{
    if 0 <= i < items.len() {
        if items[i].description == d {
            i
        } else {
            find_item(items, d, i + 1)
        }
    } else {
        items.len() as int
    }
}

/// The lines after scanning article `d`: one more of the first line with
/// that description, or a new line of one at the usual price.
pub open spec fn add_article(items: Seq<ItemView>, d: Seq<char>) -> Seq<ItemView> {
    let i = find_item(items, d, 0);
    if i < items.len() {
        items.update(
            i,
            ItemView { amount: (items[i].amount + 1) as u16, ..items[i] },
        )
    } else {
        items.push(ItemView { amount: 1, description: d, price_cents: ITEM_PRICE_CENTS })
    }
}

/// Enter would raise a line's amount past its limit.
pub open spec fn enter_overflows(s: StateView) -> bool {
    let i = find_item(s.items, s.input, 0);
    s.user is Some && i < s.items.len() && s.items[i].amount == u16::MAX
}

/// The checkout state after message `m`.
pub open spec fn checkout_after(s: StateView, m: Message) -> StateView {
    match m {
        Message::KeyPress(KeyInput::Character(c)) => StateView {
            input: s.input + c@,
            sale_confirmation_timer: 0,
            ..s
        },
        Message::KeyPress(KeyInput::Named(NamedKey::Enter)) => if s.user is Some {
            StateView {
                items: add_article(s.items, s.input),
                input: Seq::empty(),
                sale_confirmation_timer: 0,
                ..s
            }
        } else {
            StateView {
                user: Some(s.input),
                input: Seq::empty(),
                sale_confirmation_timer: 0,
                ..s
            }
        },
        Message::KeyPress(_) => s,
        Message::Pay => StateView {
            user: None,
            items: Seq::empty(),
            sale_confirmation_timer: SALE_CONFIRMATION_TICKS,
            ..s
        },
        Message::Cancel => StateView { user: None, items: Seq::empty(), ..s },
        Message::DecreaseSaleConfirmationTimer => StateView {
            sale_confirmation_timer: if s.sale_confirmation_timer > 0 {
                (s.sale_confirmation_timer - 1) as u8
            } else {
                0
            },
            ..s
        },
    }
}

/// No two lines describe the same article.
pub open spec fn descriptions_unique(items: Seq<ItemView>) -> bool {
    forall|i: int, j: int|
        0 <= i < items.len() && 0 <= j < items.len() && i != j ==> #[trigger] items[i].description
            != #[trigger] items[j].description
}

/// The number of articles in a purchase.
pub open spec fn article_count(items: Seq<ItemView>) -> int
    decreases items.len(),
{
    if items.len() == 0 {
        0
    } else {
        article_count(items.drop_last()) + items.last().amount
    }
}

proof fn lemma_find_item_found(items: Seq<ItemView>, d: Seq<char>, i: int)
    requires
        0 <= i <= items.len(),
    ensures
        i <= find_item(items, d, i) <= items.len(),
        find_item(items, d, i) < items.len() ==> items[find_item(items, d, i)].description == d,
        forall|k: int| i <= k < find_item(items, d, i) ==> items[k].description != d,
    decreases items.len() - i,
{
    if i < items.len() && items[i].description != d {
        lemma_find_item_found(items, d, i + 1);
    }
}

proof fn lemma_article_count_update(items: Seq<ItemView>, i: int, item: ItemView)
    requires
        0 <= i < items.len(),
    ensures
        article_count(items.update(i, item)) == article_count(items) - items[i].amount + item.amount,
    decreases items.len(),
{
    if i == items.len() - 1 {
        assert(items.update(i, item).drop_last() =~= items.drop_last());
    } else {
        lemma_article_count_update(items.drop_last(), i, item);
        assert(items.update(i, item).drop_last() =~= items.drop_last().update(i, item));
    }
}

/// Scanning an article adds exactly one article to the purchase, and each
/// article keeps a line of its own.
pub proof fn lemma_add_article_counts_one(items: Seq<ItemView>, d: Seq<char>)
    requires
        find_item(items, d, 0) < items.len() ==> items[find_item(items, d, 0)].amount < u16::MAX,
    ensures
        article_count(add_article(items, d)) == article_count(items) + 1,
        descriptions_unique(items) ==> descriptions_unique(add_article(items, d)),
{
    lemma_find_item_found(items, d, 0);
    let i = find_item(items, d, 0);
    if i < items.len() {
        lemma_article_count_update(
            items,
            i,
            ItemView { amount: (items[i].amount + 1) as u16, ..items[i] },
        );
    } else {
        assert(items.push(ItemView { amount: 1, description: d, price_cents: ITEM_PRICE_CENTS }).drop_last()
            =~= items);
    }
}

/// Every checkout message keeps each article on a line of its own.
pub proof fn lemma_lines_stay_unique(s: StateView, m: Message)
    requires
        descriptions_unique(s.items),
        m matches Message::KeyPress(KeyInput::Named(NamedKey::Enter)) ==> !enter_overflows(s),
    ensures
        descriptions_unique(checkout_after(s, m).items),
{
    if m matches Message::KeyPress(KeyInput::Named(NamedKey::Enter)) {
        if s.user is Some {
            lemma_add_article_counts_one(s.items, s.input);
        }
    }
}

/// Cancel drops member and purchase and keeps the typed input; it shows no
/// purchase confirmation: the confirmation timer stays as it was.
pub proof fn lemma_cancel_drops_purchase(s: StateView)
    ensures
        checkout_after(s, Message::Cancel) == (StateView {
            user: None,
            input: s.input,
            items: Seq::empty(),
            sale_confirmation_timer: s.sale_confirmation_timer,
        }),
{
}

/// Pay ends the purchase and shows the confirmation for its full time; no
/// other message starts or lengthens the confirmation.
pub proof fn lemma_only_pay_confirms(s: StateView, m: Message)
    ensures
        m is Pay ==> checkout_after(s, m) == (StateView {
            user: None,
            input: s.input,
            items: Seq::empty(),
            sale_confirmation_timer: SALE_CONFIRMATION_TICKS,
        }),
        !(m is Pay) ==> checkout_after(s, m).sale_confirmation_timer <= s.sale_confirmation_timer,
{
}

/// A tick shortens the confirmation by one second, down to zero, and changes
/// nothing else.
pub proof fn lemma_tick_counts_down(s: StateView)
    ensures
        checkout_after(s, Message::DecreaseSaleConfirmationTimer) == (StateView {
            sale_confirmation_timer: if s.sale_confirmation_timer == 0 {
                0
            } else {
                (s.sale_confirmation_timer - 1) as u8
            },
            ..s
        }),
{
}

/// A typed character is appended to the input and ends the confirmation;
/// member and purchase stay.
pub proof fn lemma_typing_appends(s: StateView, text: String)
    ensures
        checkout_after(s, Message::KeyPress(KeyInput::Character(text))) == (StateView {
            user: s.user,
            input: s.input + text@,
            items: s.items,
            sale_confirmation_timer: 0,
        }),
{
}

/// Enter with nobody identified makes the input the member; with a member it
/// adds the typed article as one more article of the purchase. Either way the
/// input is cleared and the confirmation ends.
pub proof fn lemma_enter_identifies_then_adds(s: StateView)
    requires
        !enter_overflows(s),
    ensures
        ({
            let after = checkout_after(s, Message::KeyPress(KeyInput::Named(NamedKey::Enter)));
            &&& after.input.len() == 0
            &&& after.sale_confirmation_timer == 0
            &&& s.user is None ==> after.user == Some(s.input) && after.items == s.items
            &&& s.user is Some ==> {
                &&& after.user == s.user
                &&& article_count(after.items) == article_count(s.items) + 1
                &&& exists|i: int|
                    0 <= i < after.items.len() && (#[trigger] after.items[i]).description
                        == s.input
            }
        }),
{
    if s.user is Some {
        lemma_add_article_counts_one(s.items, s.input);
        lemma_find_item_found(s.items, s.input, 0);
        let i = find_item(s.items, s.input, 0);
        let after = add_article(s.items, s.input);
        if i < s.items.len() {
            assert(after[i].description == s.input);
        } else {
            assert(after[s.items.len() as int].description == s.input);
        }
    }
}

/// The price of a purchase in cents: the sum of its line totals.
pub open spec fn purchase_total(items: Seq<ItemView>) -> int
    decreases items.len(),
{
    if items.len() == 0 {
        0
    } else {
        purchase_total(items.drop_last()) + items.last().amount * items.last().price_cents
    }
}

/// The price of the current purchase in cents.
pub fn sum_cents(state: &State) -> (r: u128)
    ensures
        r == purchase_total(state@.items),
{
    let ghost items = state@.items;
    let mut sum: u128 = 0;
    let mut i: usize = 0;
    while i < state.items.len()
        invariant
            0 <= i <= state.items@.len(),
            items == state@.items,
            sum == purchase_total(items.take(i as int)),
            sum <= i * 0x1_0000_0000_0000u128,
        decreases state.items@.len() - i,
    {
        let line = state.items[i].total();
        assert(items.take(i + 1).drop_last() =~= items.take(i as int));
        assert(line <= 0xFFFF_FFFF_FFFFu64) by (nonlinear_arith)
            requires
                line == state.items@[i as int].amount * state.items@[i as int].price_cents,
                state.items@[i as int].amount <= 0xFFFF,
                state.items@[i as int].price_cents <= 0xFFFF_FFFF,
        ;
        assert(i * 0x1_0000_0000_0000u128 <= 0xFFFF_FFFF_FFFF_FFFFu128 * 0x1_0000_0000_0000u128)
            by (nonlinear_arith)
            requires
                i <= 0xFFFF_FFFF_FFFF_FFFFu64,
        ;
        sum = sum + line as u128;
        i = i + 1;
    }
    assert(items.take(items.len() as int) =~= items);
    sum
}

/// Whether the confirmation screen shows, which is when the one-second timer
/// is to tick.
pub fn shows_sale_confirmation(state: &State) -> (r: bool)
    ensures
        r == (state.sale_confirmation_timer != 0),
{
    state.sale_confirmation_timer != 0
}

fn find_item_index(items: &Vec<Item>, description: &String) -> (i: usize)
    ensures
        i == find_item(items@.map_values(|it: Item| it@), description@, 0),
{
    let ghost view = items@.map_values(|it: Item| it@);
    let mut i: usize = 0;
    while i < items.len()
        invariant
            0 <= i <= items@.len(),
            view == items@.map_values(|it: Item| it@),
            find_item(view, description@, i as int) == find_item(view, description@, 0),
        decreases items@.len() - i,
    {
        if items[i].description == *description {
            return i;
        }
        i = i + 1;
    }
    i
}

/// Applies a checkout message: typed characters collect in the input; Enter
/// first identifies the member, then adds the typed article; Pay and Cancel
/// end the purchase, Pay with a short confirmation.
pub fn update(state: &mut State, message: Message)
    requires
        message matches Message::KeyPress(KeyInput::Named(NamedKey::Enter)) ==> !enter_overflows(
            old(state)@,
        ),
    ensures
        final(state)@ == checkout_after(old(state)@, message),
{
    let ghost before = state@;
    match message {
        Message::KeyPress(KeyInput::Character(c)) => {
            append_str(&mut state.input, c.as_str());
            state.sale_confirmation_timer = 0;
        },
        Message::KeyPress(KeyInput::Named(NamedKey::Enter)) => {
            if state.user.is_some() {
                let i = find_item_index(&state.items, &state.input);
                if i < state.items.len() {
                    let line = Item {
                        amount: state.items[i].amount + 1,
                        description: state.items[i].description.clone(),
                        price_cents: state.items[i].price_cents,
                    };
                    state.items.set(i, line);
                    assert(state@.items =~= add_article(before.items, before.input));
                } else {
                    state.items.push(
                        Item {
                            amount: 1,
                            description: state.input.clone(),
                            price_cents: ITEM_PRICE_CENTS,
                        },
                    );
                    assert(state@.items =~= add_article(before.items, before.input));
                }
            } else {
                state.user = Some(state.input.clone());
            }
            state.input = String::new();
            state.sale_confirmation_timer = 0;
        },
        Message::Pay => {
            state.user = None;
            state.items = Vec::new();
            state.sale_confirmation_timer = SALE_CONFIRMATION_TICKS;
        },
        Message::Cancel => {
            state.user = None;
            state.items = Vec::new();
        },
        Message::DecreaseSaleConfirmationTimer => {
            state.sale_confirmation_timer = state.sale_confirmation_timer.saturating_sub(1);
        },
        _ => {},
    }
    assert(state@.items =~= checkout_after(before, message).items);
}

} // verus!
