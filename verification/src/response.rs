//! What a successful action hands back: attributes that describe it and the
//! payouts it asks for.

use vstd::prelude::*;

verus! {

/// A key and a value, both text.
#[derive(Clone, Debug, PartialEq, Eq)]
pub struct Attribute {
    pub key: String,
    pub value: String,
}

/// An `Attribute` as a mathematical value.
pub struct AttributeView {
    pub key: Seq<char>,
    pub value: Seq<char>,
}

impl View for Attribute {
    type V = AttributeView;

    open spec fn view(&self) -> AttributeView {
        AttributeView { key: self.key@, value: self.value@ }
    }
}

/// A request to transfer `amount` units of `currency` to the account `to`.
#[derive(Clone, Debug, PartialEq, Eq)]
pub struct Payout {
    pub to: String,
    pub amount: u128,
    pub currency: String,
}

/// A `Payout` as a mathematical value.
pub struct PayoutView {
    pub to: Seq<char>,
    pub amount: u128,
    pub currency: Seq<char>,
}

impl View for Payout {
    type V = PayoutView;

    open spec fn view(&self) -> PayoutView {
        PayoutView { to: self.to@, amount: self.amount, currency: self.currency@ }
    }
}

/// The result of a successful action.
#[derive(Clone, Debug, PartialEq, Eq)]
pub struct Response {
    pub payouts: Vec<Payout>,
    pub attributes: Vec<Attribute>,
}

/// A `Response` as a mathematical value.
pub struct ResponseView {
    pub payouts: Seq<PayoutView>,
    pub attributes: Seq<AttributeView>,
}

impl View for Response {
    type V = ResponseView;

    open spec fn view(&self) -> ResponseView {
        ResponseView {
            payouts: self.payouts@.map_values(|p: Payout| p@),
            attributes: self.attributes@.map_values(|a: Attribute| a@),
        }
    }
}

impl ResponseView {
    /// The response without payouts or attributes.
    pub open spec fn empty() -> ResponseView {
        ResponseView { payouts: Seq::empty(), attributes: Seq::empty() }
    }

    /// This response with one more attribute at the end.
    pub open spec fn with_attribute(self, key: Seq<char>, value: Seq<char>) -> ResponseView {
        ResponseView { attributes: self.attributes.push(AttributeView { key, value }), ..self }
    }

    /// This response with one more payout at the end.
    pub open spec fn with_payout(self, payout: PayoutView) -> ResponseView {
        ResponseView { payouts: self.payouts.push(payout), ..self }
    }
}

impl Response {
    /// A response without payouts or attributes.
    pub fn new() -> (response: Response)
        ensures
            response@ == ResponseView::empty(),
    {
        let response = Response { payouts: Vec::new(), attributes: Vec::new() };
        assert(response@.payouts =~= Seq::empty());
        assert(response@.attributes =~= Seq::empty());
        response
    }

    /// Appends the attribute `key` = `value`.
    pub fn add_attribute(self, key: &str, value: String) -> (response: Response)
        ensures
            response@ == self@.with_attribute(key@, value@),
    {
        let mut response = self;
        let ghost before = response@;
        let attribute = Attribute { key: key.to_owned(), value };
        response.attributes.push(attribute);
        assert(response@.attributes =~= before.attributes.push(attribute@));
        response
    }

    /// Appends a payout.
    pub fn add_payout(self, payout: Payout) -> (response: Response)
        ensures
            response@ == self@.with_payout(payout@),
    {
        let mut response = self;
        let ghost before = response@;
        response.payouts.push(payout);
        assert(response@.payouts =~= before.payouts.push(payout@));
        response
    }
}

} // verus!
