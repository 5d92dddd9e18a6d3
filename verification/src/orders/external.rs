//! Adapters that stand for outside services: a database, a payment
//! provider, a mail provider. They simulate the service in the process.
//!
//! None of them prints. Each offers the line it stands for, so that a caller
//! can show it.
use std::collections::HashMap;
use vstd::prelude::*;
use crate::orders::domain::{
    Money, Order, OrderError, OrderId, OrderView, order_id_text, with_order_id,
};
use crate::orders::in_memory::orders_by_id;
use crate::orders::ports::{NotificationService, OrderRepository, PaymentGateway};
use crate::text::{dollars, with_dollars};

verus! {

pub struct PostgresOrderRepository {
    simulated_db: HashMap<u32, Order>,
}

impl PostgresOrderRepository {
    /// A simulated database that holds no order.
    pub fn new() -> (res: Self)
        ensures
            res.stored() == Map::<OrderId, OrderView>::empty(),
    {
        let res = PostgresOrderRepository { simulated_db: HashMap::new() };
        res
    }

    /// The line that stands for saving `order`.
    pub fn save_line(order: &Order) -> (res: String)
        ensures
            res@ == "[Postgres] INSERT INTO orders VALUES ("@ + order_id_text(order.id) + ", ...)"@,
    {
        with_order_id("[Postgres] INSERT INTO orders VALUES (".to_owned(), order.id).concat(
            ", ...)",
        )
    }

    /// The line that stands for looking up `id`.
    pub fn find_line(id: OrderId) -> (res: String)
        ensures
            res@ == "[Postgres] SELECT * FROM orders WHERE id = "@ + order_id_text(id),
    {
        with_order_id("[Postgres] SELECT * FROM orders WHERE id = ".to_owned(), id)
    }
}

impl Default for PostgresOrderRepository {
    fn default() -> (res: Self)
        ensures
            res.stored() == Map::<OrderId, OrderView>::empty(),
    {
        PostgresOrderRepository::new()
    }
}

impl OrderRepository for PostgresOrderRepository {
    closed spec fn stored(&self) -> Map<OrderId, OrderView> {
        orders_by_id(self.simulated_db@)
    }

    /// This repository refuses nothing.
    open spec fn may_refuse(&self, order: OrderView, error: OrderError) -> bool {
        false
    }

    /// This repository finds whatever it holds.
    open spec fn may_fail(&self, id: OrderId, error: OrderError) -> bool {
        false
    }

    fn save(&mut self, order: &Order) -> (res: Result<(), OrderError>)
        ensures
            res is Ok,
    {
        let copy = order.clone();
        self.simulated_db.insert(order.id.0, copy);
        Ok(())
    }

    fn find(&self, id: OrderId) -> (res: Result<Option<Order>, OrderError>)
        ensures
            res is Ok,
    {
        match self.simulated_db.get(&id.0) {
            Some(order) => Ok(Some(order.clone())),
            None => Ok(None),
        }
    }
}

/// Stands for a payment provider reached over HTTP; takes every charge.
pub struct StripePaymentGateway;

impl StripePaymentGateway {
    /// The line that stands for charging `amount`.
    pub fn charge_line(amount: Money) -> (res: String)
        ensures
            res@ == "[Stripe API] POST /charges amount="@ + dollars(amount.0 as nat),
    {
        with_dollars("[Stripe API] POST /charges amount=".to_owned(), amount.0)
    }
}

impl PaymentGateway for StripePaymentGateway {
    open spec fn may_accept(&self, amount: Money) -> bool {
        true
    }

    open spec fn may_refuse(&self, amount: Money, error: OrderError) -> bool {
        false
    }

    fn charge(&self, amount: Money) -> (res: Result<(), OrderError>) {
        Ok(())
    }
}

/// Stands for a mail provider reached over HTTP.
pub struct SendGridNotificationService;

impl SendGridNotificationService {
    /// The line that stands for mailing the confirmation of `order`.
    pub fn confirmation_line(order: &Order) -> (res: String)
        ensures
            res@ == "[SendGrid API] POST /mail/send to=customer@example.com subject='Order #"@
                + order_id_text(order.id) + " Confirmed'"@,
    {
        with_order_id(
            "[SendGrid API] POST /mail/send to=customer@example.com subject='Order #".to_owned(),
            order.id,
        ).concat(" Confirmed'")
    }
}

impl NotificationService for SendGridNotificationService {
    open spec fn may_accept(&self, order: OrderView) -> bool {
        true
    }

    open spec fn may_refuse(&self, order: OrderView, error: OrderError) -> bool {
        false
    }

    fn send_confirmation(&self, order: &Order) -> (res: Result<(), OrderError>) {
        Ok(())
    }
}

/// Stands for the same mail provider, reporting the mail it sends rather
/// than the request it makes.
pub struct SendGridSender;

impl SendGridSender {
    /// The line that stands for mailing the confirmation of `order`.
    pub fn confirmation_line(order: &Order) -> (res: String)
        ensures
            res@ == "[SendGrid API] Sending email: 'Order #"@ + order_id_text(order.id)
                + " Confirmed'"@,
    {
        with_order_id("[SendGrid API] Sending email: 'Order #".to_owned(), order.id).concat(
            " Confirmed'",
        )
    }
}

impl NotificationService for SendGridSender {
    open spec fn may_accept(&self, order: OrderView) -> bool {
        true
    }

    open spec fn may_refuse(&self, order: OrderView, error: OrderError) -> bool {
        false
    }

    fn send_confirmation(&self, order: &Order) -> (res: Result<(), OrderError>) {
        Ok(())
    }
}

} // verus!
