//! An order service that depends on an abstraction of its own: it asks for
//! something that can send a message and does not care what sends it.
use vstd::prelude::*;
use crate::text::{decimal, with_decimal};

verus! {

/// Something that can deliver a message: mail, a text message, a test double.
///
/// How a message is delivered is the implementer's business, so `send`
/// promises nothing that a caller could build on.
pub trait Notifier {
    fn send(&self, message: &str);
}

/// The text that reports that order `order_id` was taken.
pub open spec fn placed_text(order_id: u32) -> Seq<char> {
    "Order #"@ + decimal(order_id as nat) + " placed"@
}

/// The text that confirms order `order_id` to the customer.
pub open spec fn confirmed_text(order_id: u32) -> Seq<char> {
    "Order #"@ + decimal(order_id as nat) + " confirmed"@
}

/// The line by which a mail notifier reports that it sent `message`.
pub open spec fn email_text(message: Seq<char>) -> Seq<char> {
    "Sending email: "@ + message
}

/// The line by which a text-message notifier reports that it sent `message`.
pub open spec fn sms_text(message: Seq<char>) -> Seq<char> {
    "Sending SMS: "@ + message
}

/// Writes `placed_text`.
pub fn placed_message(order_id: u32) -> (res: String)
    ensures
        res@ == placed_text(order_id),
{
    with_decimal("Order #".to_owned(), order_id).concat(" placed")
}

/// Writes `confirmed_text`.
pub fn confirmed_message(order_id: u32) -> (res: String)
    ensures
        res@ == confirmed_text(order_id),
{
    with_decimal("Order #".to_owned(), order_id).concat(" confirmed")
}

/// Writes `email_text`.
pub fn email_line(message: &str) -> (res: String)
    ensures
        res@ == email_text(message@),
{
    "Sending email: ".to_owned().concat(message)
}

/// Writes `sms_text`.
pub fn sms_line(message: &str) -> (res: String)
    ensures
        res@ == sms_text(message@),
{
    "Sending SMS: ".to_owned().concat(message)
}

/// Takes orders and has each confirmed through the notifier it was given.
pub struct OrderService<N: Notifier> {
    notifier: N,
}

impl<N: Notifier> OrderService<N> {
    /// The notifier this service was given.
    pub closed spec fn notifier(&self) -> N {
        self.notifier
    }

    pub fn new(notifier: N) -> (res: Self)
        ensures
            res.notifier() == notifier,
    {
        OrderService { notifier }
    }

    /// Takes order `order_id`: hands the notifier the order's confirmation,
    /// once, and returns the text it handed over.
    pub fn place_order(&self, order_id: u32) -> (res: String)
        ensures
            res@ == confirmed_text(order_id),
    {
        let message = confirmed_message(order_id);
        self.notifier.send(message.as_str());
        message
    }
}

} // verus!
