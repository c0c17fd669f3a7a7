//! The moon buttons that sell boops and hoops, each with its ladder of prices.

use crate::loot::Loot;
use crate::number_text::{display_text, displayable, i32_to_display_str, is_displayable};
use bevy::prelude::Entity;
use vstd::prelude::*;
use vstd::string::StringExecFns;

verus! {

/// The mathematical content of a moon button: its prices in order and the place of the
/// current one.
pub ghost struct Ladder {
    pub prices: Seq<int>,
    pub index: nat,
}

impl Ladder {
    /// The current price exists.
    pub open spec fn wf(self) -> bool {
        self.index < self.prices.len()
    }

    /// The last price has been reached: nothing is sold any more.
    pub open spec fn sold_out(self) -> bool {
        self.index == self.prices.len() - 1
    }

    /// The current price.
    pub open spec fn price(self) -> int {
        self.prices[self.index as int]
    }

    /// Whether an attempt to buy with `balance` in hand succeeds.
    pub open spec fn accepts(self, balance: int) -> bool {
        !self.sold_out() && balance >= self.price()
    }

    /// The ladder after an attempt to buy with `balance` in hand.
    pub open spec fn after_attempt(self, balance: int) -> Ladder {
        if self.accepts(balance) {
            Ladder { prices: self.prices, index: self.index + 1 }
        } else {
            self
        }
    }

    /// What is left of `balance` after an attempt to buy with it.
    pub open spec fn balance_after(self, balance: int) -> int {
        if self.accepts(balance) {
            balance - self.price()
        } else {
            balance
        }
    }

    /// Whether a click with `balance` in hand can be answered: what is left of the balance is
    /// within the range of the purse, and the price that the button shows next has a label.
    pub open spec fn answers_click(self, balance: int) -> bool {
        self.accepts(balance) ==> {
            &&& balance - self.price() <= i32::MAX
            &&& (!self.after_attempt(balance).sold_out() ==> displayable(
                self.after_attempt(balance).price(),
            ))
        }
    }

    /// The text on the button: the label of the current price, or a dash once sold out.
    pub open spec fn label(self) -> Seq<char> {
        if self.sold_out() {
            seq!['-']
        } else {
            display_text(self.price())
        }
    }

    /// The ladder and the balance after a run of attempts to buy, one for each entry of
    /// `earned`: before attempt `i` the balance grows by `earned[i]`.
    pub open spec fn after_attempts(self, balance: int, earned: Seq<nat>) -> (Ladder, int)
        decreases earned.len(),
    {
        if earned.len() == 0 {
            (self, balance)
        } else {
            let (ladder, left) = self.after_attempts(balance, earned.drop_last());
            let in_hand = left + earned.last();
            (ladder.after_attempt(in_hand), ladder.balance_after(in_hand))
        }
    }
}

/// What an attempt to buy gave.
#[derive(Clone, Copy, Debug, PartialEq, Eq)]
pub enum Outcome {
    /// The price was paid. `new_price` is the next price, or `None` when the button is now
    /// sold out.
    Success { new_balance: i32, new_price: Option<i32> },
    /// Nothing was bought and nothing changed.
    Rejected,
}

/// What a click on a moon button asks of the presentation layer.
#[derive(Debug, PartialEq, Eq)]
pub enum Click {
    /// Something was bought: the button's text becomes `price_text`.
    Bought { price_text: String },
    /// Nothing was bought: only the cue for an unsuccessful buy fires.
    Refused,
}

/// A button that buys new boops or hoops for a loop, at a price that changes with each buy.
pub struct MoonBtn {
    /// Goes to the next price after each buy.
    price_list: Vec<i32>,
    /// An index in `price_list`.
    current_price_index: usize,
    /// The text that displays the price.
    text: Entity,
    /// The loop that this button buys for.
    target_loop: Entity,
}

impl View for MoonBtn {
    type V = Ladder;

    closed spec fn view(&self) -> Ladder {
        Ladder {
            prices: self.price_list@.map_values(|p: i32| p as int),
            index: self.current_price_index as nat,
        }
    }
}

impl MoonBtn {
    /// The button's invariant: the current price exists.
    #[verifier::type_invariant]
    pub open spec fn wf(&self) -> bool {
        self@.wf()
    }

    /// The entity of the text that displays the price.
    pub closed spec fn spec_text(&self) -> Entity {
        self.text
    }

    /// The entity of the loop that this button buys for.
    pub closed spec fn spec_target_loop(&self) -> Entity {
        self.target_loop
    }

    /// A new button at the first of `prices`.
    pub fn new(prices: Vec<i32>, text: Entity, target_loop: Entity) -> (btn: MoonBtn)
        requires
            prices@.len() > 0,
        ensures
            btn@.wf(),
            btn@.prices == prices@.map_values(|p: i32| p as int),
            btn@.index == 0,
            btn.spec_text() == text,
            btn.spec_target_loop() == target_loop,
    {
        MoonBtn { price_list: prices, current_price_index: 0, text, target_loop }
    }

    /// The entity of the text that displays the price.
    #[verifier::when_used_as_spec(spec_text)]
    pub fn text(&self) -> (text: Entity)
        ensures
            text == self.spec_text(),
    {
        self.text
    }

    /// The entity of the loop that this button buys for.
    #[verifier::when_used_as_spec(spec_target_loop)]
    pub fn target_loop(&self) -> (target: Entity)
        ensures
            target == self.spec_target_loop(),
    {
        self.target_loop
    }

    /// The prices of the button, in the order in which they are asked.
    pub fn price_list(&self) -> (prices: &Vec<i32>)
        ensures
            prices@.map_values(|p: i32| p as int) == self@.prices,
    {
        &self.price_list
    }

    /// The place of the current price in the list.
    pub fn current_price_index(&self) -> (index: usize)
        ensures
            index == self@.index,
    {
        self.current_price_index
    }

    /// Whether the last price has been reached.
    pub fn reached_max_buy_amount(&self) -> (reached: bool)
        ensures
            reached == self@.sold_out(),
    {
        proof {
            use_type_invariant(self);
        }
        self.price_list.len() - 1 == self.current_price_index
    }

    /// The current price.
    pub fn get_current_price(&self) -> (price: i32)
        ensures
            price == self@.price(),
    {
        proof {
            use_type_invariant(self);
        }
        self.price_list[self.current_price_index]
    }

    /// Tells whether a click with `loot` in hand can be answered.
    pub fn answers_click(&self, loot: &Loot) -> (ok: bool)
        ensures
            ok == self@.answers_click(loot@),
    {
        proof {
            use_type_invariant(self);
        }
        if self.reached_max_buy_amount() {
            return true;
        }
        let price = self.get_current_price();
        let balance = loot.amount();
        if balance < price {
            return true;
        }
        if price < 0 && balance > i32::MAX + price {
            return false;
        }
        let last = self.price_list.len() - 1;
        let next = self.current_price_index + 1;
        if next == last {
            true
        } else {
            is_displayable(self.price_list[next])
        }
    }

    /// Tries to buy with `current_balance` in hand. The attempt succeeds when the button is not
    /// sold out and the balance covers the current price; the button then moves to its next
    /// price. Otherwise nothing changes.
    pub fn attempt_purchase(&mut self, current_balance: i32) -> (outcome: Outcome)
        requires
            old(self)@.accepts(current_balance as int) ==> current_balance - old(self)@.price()
                <= i32::MAX,
        ensures
            final(self)@.wf(),
            final(self)@ == old(self)@.after_attempt(current_balance as int),
            final(self).spec_text() == old(self).spec_text(),
            final(self).spec_target_loop() == old(self).spec_target_loop(),
            match outcome {
                Outcome::Success { new_balance, new_price } => {
                    &&& old(self)@.accepts(current_balance as int)
                    &&& new_balance == current_balance - old(self)@.price()
                    &&& new_balance >= 0
                    &&& match new_price {
                        Some(price) => !final(self)@.sold_out() && price == final(self)@.price(),
                        None => final(self)@.sold_out(),
                    }
                },
                Outcome::Rejected => !old(self)@.accepts(current_balance as int),
            },
    {
        proof {
            use_type_invariant(&*self);
        }
        if self.reached_max_buy_amount() {
            return Outcome::Rejected;
        }
        let price = self.get_current_price();
        if current_balance >= price {
            assert(self.current_price_index < self.price_list.len());
            self.current_price_index = self.current_price_index + 1;
            let new_price = if self.reached_max_buy_amount() {
                None
            } else {
                Some(self.get_current_price())
            };
            Outcome::Success { new_balance: current_balance - price, new_price }
        } else {
            Outcome::Rejected
        }
    }
}

/// The text that a moon button shows after a buy: the label of the next price, or a dash when
/// there is none.
pub fn price_text(new_price: Option<i32>) -> (text: String)
    requires
        new_price matches Some(price) ==> displayable(price as int),
    ensures
        text@ == match new_price {
            Some(price) => display_text(price as int),
            None => seq!['-'],
        },
{
    match new_price {
        Some(price) => i32_to_display_str(price),
        None => {
            proof { reveal_strlit("-"); }
            let text = String::from_str("-");
            assert(text@ =~= seq!['-']);
            text
        },
    }
}

/// A click on a moon button. With enough loot for the current price, and unless the button is
/// sold out, the price is taken from `loot` and the button moves to its next price; the new
/// text of the button is returned. Otherwise neither the button nor the loot changes.
pub fn buy_new_x_on_click(moon_btn: &mut MoonBtn, loot: &mut Loot) -> (click: Click)
    requires
        old(moon_btn)@.answers_click(old(loot)@),
    ensures
        final(moon_btn)@.wf(),
        final(moon_btn)@ == old(moon_btn)@.after_attempt(old(loot)@),
        final(moon_btn).spec_text() == old(moon_btn).spec_text(),
        final(moon_btn).spec_target_loop() == old(moon_btn).spec_target_loop(),
        final(loot)@ == old(moon_btn)@.balance_after(old(loot)@),
        match click {
            Click::Bought { price_text } => {
                &&& old(moon_btn)@.accepts(old(loot)@)
                &&& price_text@ == final(moon_btn)@.label()
            },
            Click::Refused => !old(moon_btn)@.accepts(old(loot)@),
        },
{
    let price = moon_btn.get_current_price();
    match moon_btn.attempt_purchase(loot.amount()) {
        Outcome::Success { new_balance: _, new_price } => {
            loot.spend(price);
            Click::Bought { price_text: price_text(new_price) }
        },
        Outcome::Rejected => Click::Refused,
    }
}

/// An attempt to buy keeps the prices, never moves past the last of them, and never leaves a
/// negative balance behind a balance that was not negative. A rejected attempt changes neither
/// the ladder nor the balance.
pub proof fn lemma_attempt_is_safe(ladder: Ladder, balance: int)
    requires
        ladder.wf(),
    ensures
        ladder.after_attempt(balance).wf(),
        ladder.after_attempt(balance).prices == ladder.prices,
        ladder.after_attempt(balance).index <= ladder.prices.len() - 1,
        balance >= 0 ==> ladder.balance_after(balance) >= 0,
        !ladder.accepts(balance) ==> ladder.after_attempt(balance) == ladder
            && ladder.balance_after(balance) == balance,
{
}

/// Over any run of attempts to buy, with any earnings in between, the balance never goes
/// negative and the ladder never moves past its last price.
pub proof fn lemma_attempts_are_safe(ladder: Ladder, balance: int, earned: Seq<nat>)
    requires
        ladder.wf(),
        balance >= 0,
    ensures
        ladder.after_attempts(balance, earned).0.wf(),
        ladder.after_attempts(balance, earned).0.prices == ladder.prices,
        ladder.after_attempts(balance, earned).0.index <= ladder.prices.len() - 1,
        ladder.after_attempts(balance, earned).0.index >= ladder.index,
        ladder.after_attempts(balance, earned).1 >= 0,
    decreases earned.len(),
{
    if earned.len() > 0 {
        lemma_attempts_are_safe(ladder, balance, earned.drop_last());
        let (before, left) = ladder.after_attempts(balance, earned.drop_last());
        lemma_attempt_is_safe(before, left + earned.last());
    }
}

} // verus!
