//! The use cases: placing an order and looking one up.
use vstd::prelude::*;
use crate::orders::domain::{
    LineItem, Money, Order, OrderError, OrderId, OrderView, total_price,
};
use crate::orders::ports::{NotificationService, OrderRepository, PaymentGateway, found_in};

verus! {

/// Places orders through three ports and numbers them from 1.
pub struct OrderService<R, P, N> where R: OrderRepository, P: PaymentGateway, N: NotificationService {
    repository: R,
    payment: P,
    notifications: N,
    next_id: u32,
}

/// The order that a service makes of `items` when its next id is `next_id`.
pub open spec fn order_of(next_id: u32, items: Seq<LineItem>) -> OrderView {
    OrderView { id: OrderId(next_id), items, total: Money(total_price(items) as u32) }
}

impl<R, P, N> OrderService<R, P, N> where
    R: OrderRepository,
    P: PaymentGateway,
    N: NotificationService,
 {
    pub closed spec fn repository(&self) -> R {
        self.repository
    }

    pub closed spec fn payment(&self) -> P {
        self.payment
    }

    pub closed spec fn notifications(&self) -> N {
        self.notifications
    }

    /// The number that the next order gets.
    pub closed spec fn next_id(&self) -> u32 {
        self.next_id
    }

    /// What `place_order` may return for `items`, and what it leaves behind.
    ///
    /// Without items the order is invalid and no port is called. Otherwise the
    /// payment is charged first, the order is saved only once the charge went
    /// through, and the confirmation is sent only once the order is saved. The
    /// first port that refuses ends the attempt with its error.
    pub open spec fn placed(
        before: Self,
        items: Seq<LineItem>,
        res: Result<Order, OrderError>,
        after: Self,
    ) -> bool {
        let order = order_of(before.next_id(), items);
        let saved = before.repository().stored().insert(order.id, order);
        &&& after.next_id() == before.next_id() + 1
        &&& after.payment() == before.payment()
        &&& after.notifications() == before.notifications()
        &&& match res {
            Ok(placed) => {
                &&& items.len() > 0
                &&& placed@ == order
                &&& before.payment().may_accept(order.total)
                &&& after.repository().stored() == saved
                &&& before.notifications().may_accept(order)
            },
            Err(error) => {
                ||| {
                    &&& items.len() == 0
                    &&& error == OrderError::InvalidOrder
                    &&& after.repository() == before.repository()
                }
                ||| {
                    &&& items.len() > 0
                    &&& before.payment().may_refuse(order.total, error)
                    &&& after.repository() == before.repository()
                }
                ||| {
                    &&& items.len() > 0
                    &&& before.payment().may_accept(order.total)
                    &&& before.repository().may_refuse(order, error)
                }
                ||| {
                    &&& items.len() > 0
                    &&& before.payment().may_accept(order.total)
                    &&& after.repository().stored() == saved
                    &&& before.notifications().may_refuse(order, error)
                }
            },
        }
    }

    /// A service over the three ports; its first order gets the id 1.
    pub fn new(repository: R, payment: P, notifications: N) -> (res: Self)
        ensures
            res.repository() == repository,
            res.payment() == payment,
            res.notifications() == notifications,
            res.next_id() == 1,
    {
        OrderService { repository, payment, notifications, next_id: 1 }
    }

    /// Whether `place_order` can take `items`: an id is left to give, and the
    /// prices add up to an amount that `Money` can hold.
    pub fn can_place(&self, items: &Vec<LineItem>) -> (res: bool)
        ensures
            res == (self.next_id() < u32::MAX && total_price(items@) <= u32::MAX),
    {
        self.next_id < u32::MAX && Order::total_fits(items)
    }

    /// Places an order of `items`: takes the next id, builds the order,
    /// charges its total, saves it and sends its confirmation.
    pub fn place_order(&mut self, items: Vec<LineItem>) -> (res: Result<Order, OrderError>)
        requires
            old(self).next_id() < u32::MAX,
            total_price(items@) <= u32::MAX,
        ensures
            Self::placed(*old(self), items@, res, *final(self)),
    {
        let order_id = OrderId(self.next_id);
        self.next_id = self.next_id + 1;
        let order = match Order::new(order_id, items) {
            Ok(order) => order,
            Err(error) => {
                return Err(error);
            },
        };
        let charged = self.payment.charge(order.total);
        if let Err(error) = charged {
            return Err(error);
        }
        let saved = self.repository.save(&order);
        if let Err(error) = saved {
            return Err(error);
        }
        let notified = self.notifications.send_confirmation(&order);
        if let Err(error) = notified {
            return Err(error);
        }
        Ok(order)
    }

    /// Looks up the order placed under `id`.
    pub fn get_order(&self, id: OrderId) -> (res: Result<Option<Order>, OrderError>)
        ensures
            res matches Ok(found) ==> found_in(self.repository().stored(), id, found),
            res matches Err(error) ==> self.repository().may_fail(id, error),
    {
        self.repository.find(id)
    }
}

} // verus!
