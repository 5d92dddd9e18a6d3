//! What the order service needs from the outside, stated in the domain's
//! own terms. An adapter decides how; the service only sees the answer.
use vstd::prelude::*;
use crate::orders::domain::{Money, Order, OrderError, OrderId, OrderView};

verus! {

/// What a lookup may answer, given the orders a repository holds: the order
/// stored under the id, or nothing where the id is unknown.
pub open spec fn found_in(
    stored: Map<OrderId, OrderView>,
    id: OrderId,
    found: Option<Order>,
) -> bool {
    match found {
        Some(order) => stored.contains_key(id) && order@ == stored[id],
        None => !stored.contains_key(id),
    }
}

/// Keeps orders and gives them back by id.
pub trait OrderRepository {
    /// The orders held, by id.
    spec fn stored(&self) -> Map<OrderId, OrderView>;

    /// Whether this repository, as it stands, may refuse to save `order`
    /// with `error`.
    spec fn may_refuse(&self, order: OrderView, error: OrderError) -> bool;

    /// Stores `order` under its id. A save that reports success holds the
    /// order afterwards, in place of any order stored under that id before.
    fn save(&mut self, order: &Order) -> (res: Result<(), OrderError>)
        ensures
            res is Ok ==> final(self).stored() == old(self).stored().insert(order.id, order@),
            res matches Err(error) ==> old(self).may_refuse(order@, error),
    ;

    /// Whether this repository, as it stands, may fail to look up `id`,
    /// with `error`.
    spec fn may_fail(&self, id: OrderId, error: OrderError) -> bool;

    /// Looks up the order stored under `id`.
    fn find(&self, id: OrderId) -> (res: Result<Option<Order>, OrderError>)
        ensures
            res matches Ok(found) ==> found_in(self.stored(), id, found),
            res matches Err(error) ==> self.may_fail(id, error),
    ;
}

/// Takes payments.
pub trait PaymentGateway {
    /// Whether this gateway may take a charge of `amount`.
    spec fn may_accept(&self, amount: Money) -> bool;

    /// Whether this gateway may refuse a charge of `amount` with `error`.
    spec fn may_refuse(&self, amount: Money, error: OrderError) -> bool;

    /// Charges `amount`.
    fn charge(&self, amount: Money) -> (res: Result<(), OrderError>)
        ensures
            res is Ok ==> self.may_accept(amount),
            res matches Err(error) ==> self.may_refuse(amount, error),
    ;
}

/// Tells the customer that an order went through.
pub trait NotificationService {
    /// Whether this service may send the confirmation of `order`.
    spec fn may_accept(&self, order: OrderView) -> bool;

    /// Whether this service may fail to confirm `order`, with `error`.
    spec fn may_refuse(&self, order: OrderView, error: OrderError) -> bool;

    /// Sends the confirmation of `order`.
    fn send_confirmation(&self, order: &Order) -> (res: Result<(), OrderError>)
        ensures
            res is Ok ==> self.may_accept(order@),
            res matches Err(error) ==> self.may_refuse(order@, error),
    ;
}

} // verus!
