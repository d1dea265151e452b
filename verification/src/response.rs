//! What a handler hands back to the host: attributes, events and payouts.

use vstd::prelude::*;
use vstd::string::*;

verus! {

/// A key and a value.
#[derive(Clone, Debug, PartialEq, Eq)]
pub struct Attribute {
    pub key: String,
    pub value: String,
}

impl View for Attribute {
    type V = (Seq<char>, Seq<char>);

    open spec fn view(&self) -> (Seq<char>, Seq<char>) {
        (self.key@, self.value@)
    }
}

/// The texts of a list of attributes, in order.
pub open spec fn attributes(v: Seq<Attribute>) -> Seq<(Seq<char>, Seq<char>)> {
    Seq::new(v.len(), |i: int| v[i]@)
}

/// A typed event with its attributes.
#[derive(Clone, Debug, PartialEq, Eq)]
pub struct Event {
    pub ty: String,
    pub attributes: Vec<Attribute>,
}

impl View for Event {
    type V = (Seq<char>, Seq<(Seq<char>, Seq<char>)>);

    open spec fn view(&self) -> (Seq<char>, Seq<(Seq<char>, Seq<char>)>) {
        (self.ty@, attributes(self.attributes@))
    }
}

/// The texts of a list of events, in order.
pub open spec fn events(v: Seq<Event>) -> Seq<(Seq<char>, Seq<(Seq<char>, Seq<char>)>)> {
    Seq::new(v.len(), |i: int| v[i]@)
}

/// An order to the host to pay `amount` of `denom` to `to`.
#[derive(Clone, Debug, PartialEq, Eq)]
pub struct Payout {
    pub to: String,
    pub denom: String,
    pub amount: u128,
}

impl View for Payout {
    type V = (Seq<char>, Seq<char>, nat);

    open spec fn view(&self) -> (Seq<char>, Seq<char>, nat) {
        (self.to@, self.denom@, self.amount as nat)
    }
}

/// A list of payouts over texts and naturals, in order.
pub open spec fn payouts(v: Seq<Payout>) -> Seq<(Seq<char>, Seq<char>, nat)> {
    Seq::new(v.len(), |i: int| v[i]@)
}

/// The sum of the amounts of a list of payouts.
pub open spec fn total(p: Seq<(Seq<char>, Seq<char>, nat)>) -> nat
    decreases p.len(),
{
    if p.len() == 0 {
        0
    } else {
        total(p.drop_last()) + p.last().2
    }
}

/// The result of a command: payouts for the host to perform in order, the
/// attributes of the call's own event, and further events.
#[derive(Clone, Debug, PartialEq, Eq)]
pub struct Response {
    pub messages: Vec<Payout>,
    pub attributes: Vec<Attribute>,
    pub events: Vec<Event>,
}

/// A `Response` over texts and naturals.
pub struct ResponseView {
    pub messages: Seq<(Seq<char>, Seq<char>, nat)>,
    pub attributes: Seq<(Seq<char>, Seq<char>)>,
    pub events: Seq<(Seq<char>, Seq<(Seq<char>, Seq<char>)>)>,
}

impl View for Response {
    type V = ResponseView;

    open spec fn view(&self) -> ResponseView {
        ResponseView {
            messages: payouts(self.messages@),
            attributes: attributes(self.attributes@),
            events: events(self.events@),
        }
    }
}

impl ResponseView {
    /// The response that carries nothing.
    pub open spec fn nothing() -> ResponseView {
        ResponseView { messages: Seq::empty(), attributes: Seq::empty(), events: Seq::empty() }
    }
}

impl Response {
    /// The response that carries nothing.
    pub fn new() -> (r: Response)
        ensures
            r@ == ResponseView::nothing(),
    {
        let r = Response { messages: Vec::new(), attributes: Vec::new(), events: Vec::new() };
        assert(r@.messages =~= Seq::empty());
        assert(r@.attributes =~= Seq::empty());
        assert(r@.events =~= Seq::empty());
        r
    }
}

/// The character of one decimal digit.
pub open spec fn digit(d: nat) -> char {
    if d == 0 {
        '0'
    } else if d == 1 {
        '1'
    } else if d == 2 {
        '2'
    } else if d == 3 {
        '3'
    } else if d == 4 {
        '4'
    } else if d == 5 {
        '5'
    } else if d == 6 {
        '6'
    } else if d == 7 {
        '7'
    } else if d == 8 {
        '8'
    } else {
        '9'
    }
}

/// A natural in decimal, without leading zeros; zero is "0".
pub open spec fn decimal_text(n: nat) -> Seq<char>
    decreases n,
{
    if n < 10 {
        seq![digit(n)]
    } else {
        decimal_text(n / 10).push(digit(n % 10))
    }
}

/// The one-character string of a decimal digit.
fn digit_str(d: usize) -> (s: &'static str)
    requires
        d < 10,
    ensures
        s@ == seq![digit(d as nat)],
{
    proof {
        reveal_strlit("0");
        reveal_strlit("1");
        reveal_strlit("2");
        reveal_strlit("3");
        reveal_strlit("4");
        reveal_strlit("5");
        reveal_strlit("6");
        reveal_strlit("7");
        reveal_strlit("8");
        reveal_strlit("9");
    }
    let s = if d == 0 {
        "0"
    } else if d == 1 {
        "1"
    } else if d == 2 {
        "2"
    } else if d == 3 {
        "3"
    } else if d == 4 {
        "4"
    } else if d == 5 {
        "5"
    } else if d == 6 {
        "6"
    } else if d == 7 {
        "7"
    } else if d == 8 {
        "8"
    } else {
        "9"
    };
    assert(s@ =~= seq![digit(d as nat)]);
    s
}

/// Writes a count in decimal.
pub fn decimal(n: usize) -> (s: String)
    ensures
        s@ == decimal_text(n as nat),
    decreases n,
{
    if n < 10 {
        String::from_str(digit_str(n))
    } else {
        let mut s = decimal(n / 10);
        s.append(digit_str(n % 10));
        assert(s@ =~= decimal_text(n as nat));
        s
    }
}

} // verus!
