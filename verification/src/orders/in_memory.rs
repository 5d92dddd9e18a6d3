//! Adapters that keep everything in the process: a repository over a hash
//! map, a gateway that takes every charge, a notifier for the console.
//!
//! None of them prints. Each offers the line it stands for, so that a caller
//! can show it.
use std::collections::HashMap;
use vstd::prelude::*;
use crate::orders::domain::{
    Money, Order, OrderError, OrderId, OrderView, order_id_text, with_order_id,
};
use crate::orders::ports::{NotificationService, OrderRepository, PaymentGateway};
use crate::text::{dollars, with_dollars};

verus! {

/// The orders of a hash map keyed by the number of the order's id.
pub open spec fn orders_by_id(held: Map<u32, Order>) -> Map<OrderId, OrderView> {
    Map::new(|id: OrderId| held.contains_key(id.0), |id: OrderId| held[id.0]@)
}

pub struct InMemoryOrderRepository {
    orders: HashMap<u32, Order>,
}

impl InMemoryOrderRepository {
    /// A repository that holds no order.
    pub fn new() -> (res: Self)
        ensures
            res.stored() == Map::<OrderId, OrderView>::empty(),
    {
        let res = InMemoryOrderRepository { orders: HashMap::new() };
        res
    }

    /// The line that stands for saving `order`.
    pub fn save_line(order: &Order) -> (res: String)
        ensures
            res@ == "[InMemory] Saving order #"@ + order_id_text(order.id),
    {
        with_order_id("[InMemory] Saving order #".to_owned(), order.id)
    }

    /// The line that stands for looking up `id`.
    pub fn find_line(id: OrderId) -> (res: String)
        ensures
            res@ == "[InMemory] Finding order #"@ + order_id_text(id),
    {
        with_order_id("[InMemory] Finding order #".to_owned(), id)
    }
}

impl Default for InMemoryOrderRepository {
    fn default() -> (res: Self)
        ensures
            res.stored() == Map::<OrderId, OrderView>::empty(),
    {
        InMemoryOrderRepository::new()
    }
}

impl OrderRepository for InMemoryOrderRepository {
    closed spec fn stored(&self) -> Map<OrderId, OrderView> {
        orders_by_id(self.orders@)
    }

    /// This repository refuses nothing.
    open spec fn may_refuse(&self, order: OrderView, error: OrderError) -> bool {
        false
    }

    /// This repository finds whatever it holds.
    open spec fn may_fail(&self, id: OrderId, error: OrderError) -> bool {
        false
    }

    fn save(&mut self, order: &Order) -> (res: Result<(), OrderError>)
        ensures
            res is Ok,
    {
        let copy = order.clone();
        self.orders.insert(order.id.0, copy);
        Ok(())
    }

    fn find(&self, id: OrderId) -> (res: Result<Option<Order>, OrderError>)
        ensures
            res is Ok,
    {
        match self.orders.get(&id.0) {
            Some(order) => Ok(Some(order.clone())),
            None => Ok(None),
        }
    }
}

/// A gateway that takes every charge and moves no money.
pub struct MockPaymentGateway;

impl MockPaymentGateway {
    /// The line that stands for charging `amount`.
    pub fn charge_line(amount: Money) -> (res: String)
        ensures
            res@ == "[Mock] Charging "@ + dollars(amount.0 as nat),
    {
        with_dollars("[Mock] Charging ".to_owned(), amount.0)
    }
}

impl PaymentGateway for MockPaymentGateway {
    open spec fn may_accept(&self, amount: Money) -> bool {
        true
    }

    open spec fn may_refuse(&self, amount: Money, error: OrderError) -> bool {
        false
    }

    fn charge(&self, amount: Money) -> (res: Result<(), OrderError>) {
        Ok(())
    }
}

/// A notifier whose confirmation is a line on the console.
pub struct ConsoleNotificationService;

impl ConsoleNotificationService {
    /// The line that confirms `order`.
    pub fn confirmation_line(order: &Order) -> (res: String)
        ensures
            res@ == "[Console] Order #"@ + order_id_text(order.id) + " confirmed - Total: "@
                + dollars(order.total.0 as nat),
    {
        let head = with_order_id("[Console] Order #".to_owned(), order.id);
        with_dollars(head.concat(" confirmed - Total: "), order.total.0)
    }
}

impl NotificationService for ConsoleNotificationService {
    open spec fn may_accept(&self, order: OrderView) -> bool {
        true
    }

    open spec fn may_refuse(&self, order: OrderView, error: OrderError) -> bool {
        false
    }

    fn send_confirmation(&self, order: &Order) -> (res: Result<(), OrderError>) {
        Ok(())
    }
}

/// A console notifier with a livelier wording.
pub struct ConsoleSender;

impl ConsoleSender {
    /// The line that confirms `order`.
    pub fn confirmation_line(order: &Order) -> (res: String)
        ensures
            res@ == "[Console] Order #"@ + order_id_text(order.id) + " confirmed! Total: "@
                + dollars(order.total.0 as nat),
    {
        let head = with_order_id("[Console] Order #".to_owned(), order.id);
        with_dollars(head.concat(" confirmed! Total: "), order.total.0)
    }
}

impl NotificationService for ConsoleSender {
    open spec fn may_accept(&self, order: OrderView) -> bool {
        true
    }

    open spec fn may_refuse(&self, order: OrderView, error: OrderError) -> bool {
        false
    }

    fn send_confirmation(&self, order: &Order) -> (res: Result<(), OrderError>) {
        Ok(())
    }
}

} // verus!
