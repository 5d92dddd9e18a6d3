//! The order itself and the rule it obeys: an order has at least one item,
//! and its total is the sum of its items' prices.
use vstd::prelude::*;
use crate::text::{decimal, with_decimal};

verus! {

#[derive(Debug, Clone, Copy, PartialEq, Eq, Hash, Structural)]
pub struct OrderId(pub u32);

/// An amount in cents.
#[derive(Debug, Clone, Copy, PartialEq, Eq, Structural)]
pub struct Money(pub u32);

#[derive(Debug)]
pub struct LineItem {
    pub name: String,
    pub price: Money,
}

#[derive(Debug)]
pub struct Order {
    pub id: OrderId,
    pub items: Vec<LineItem>,
    pub total: Money,
}

#[derive(Debug, Clone, Copy, PartialEq, Eq, Structural)]
pub enum OrderError {
    InvalidOrder,
    PaymentFailed,
    StorageFailed,
    NotificationFailed,
}

/// An order as a value: its id, its items in order, its total.
pub struct OrderView {
    pub id: OrderId,
    pub items: Seq<LineItem>,
    pub total: Money,
}

impl View for Order {
    type V = OrderView;

    open spec fn view(&self) -> OrderView {
        OrderView { id: self.id, items: self.items@, total: self.total }
    }
}

/// The sum of the prices of `items`, in cents.
pub open spec fn total_price(items: Seq<LineItem>) -> nat
    decreases items.len(),
{
    if items.len() == 0 {
        0
    } else {
        total_price(items.drop_last()) + items.last().price.0 as nat
    }
}

/// The first items of a list cost no more than the whole list.
pub proof fn lemma_total_price_of_prefix(items: Seq<LineItem>, n: int)
    requires
        0 <= n <= items.len(),
    ensures
        total_price(items.take(n)) <= total_price(items),
    decreases items.len(),
{
    if n == items.len() {
        assert(items.take(n) =~= items);
    } else {
        assert(items.drop_last().take(n) =~= items.take(n));
        lemma_total_price_of_prefix(items.drop_last(), n);
    }
}

/// How an order id is written in messages.
pub open spec fn order_id_text(id: OrderId) -> Seq<char> {
    "OrderId("@ + decimal(id.0 as nat) + ")"@
}

/// `text` followed by the id as it is written in messages.
pub fn with_order_id(text: String, id: OrderId) -> (res: String)
    ensures
        res@ == text@ + order_id_text(id),
{
    let out = with_decimal(text.concat("OrderId("), id.0).concat(")");
    out
}

impl Clone for LineItem {
    fn clone(&self) -> (res: Self)
        ensures
            res == *self,
    {
        LineItem { name: self.name.clone(), price: self.price }
    }
}

impl Clone for Order {
    fn clone(&self) -> (res: Self)
        ensures
            res@ == self@,
    {
        let mut items: Vec<LineItem> = Vec::new();
        let n = self.items.len();
        let mut i: usize = 0;
        while i < n
            invariant
                i <= n,
                n == self.items@.len(),
                items@ == self.items@.take(i as int),
            decreases n - i,
        {
            items.push(self.items[i].clone());
            i = i + 1;
        }
        assert(self.items@.take(n as int) =~= self.items@);
        Order { id: self.id, items, total: self.total }
    }
}

impl OrderError {
    /// The error's name, as it is shown to a user.
    pub fn describe(&self) -> (res: &'static str)
        ensures
            res@ == (match *self {
                OrderError::InvalidOrder => "InvalidOrder"@,
                OrderError::PaymentFailed => "PaymentFailed"@,
                OrderError::StorageFailed => "StorageFailed"@,
                OrderError::NotificationFailed => "NotificationFailed"@,
            }),
    {
        match self {
            OrderError::InvalidOrder => "InvalidOrder",
            OrderError::PaymentFailed => "PaymentFailed",
            OrderError::StorageFailed => "StorageFailed",
            OrderError::NotificationFailed => "NotificationFailed",
        }
    }
}

impl Order {
    /// Whether the prices of `items` add up to an amount that `Money` can hold.
    pub fn total_fits(items: &Vec<LineItem>) -> (res: bool)
        ensures
            res == (total_price(items@) <= u32::MAX),
    {
        let n = items.len();
        let mut sum: u64 = 0;
        let mut i: usize = 0;
        while i < n
            invariant
                i <= n,
                n == items@.len(),
                sum == total_price(items@.take(i as int)),
                sum <= u32::MAX,
            decreases n - i,
        {
            proof {
                assert(items@.take(i + 1).drop_last() =~= items@.take(i as int));
                lemma_total_price_of_prefix(items@, i + 1);
            }
            sum = sum + items[i].price.0 as u64;
            if sum > u32::MAX as u64 {
                return false;
            }
            i = i + 1;
        }
        assert(items@.take(n as int) =~= items@);
        true
    }

    /// An order of `items` under `id`, or `InvalidOrder` where there is no item.
    pub fn new(id: OrderId, items: Vec<LineItem>) -> (res: Result<Order, OrderError>)
        requires
            total_price(items@) <= u32::MAX,
        ensures
            items@.len() == 0 ==> res == Err::<Order, OrderError>(OrderError::InvalidOrder),
            items@.len() > 0 ==> res is Ok && res->Ok_0@ == (OrderView {
                id,
                items: items@,
                total: Money(total_price(items@) as u32),
            }),
    {
        if items.len() == 0 {
            return Err(OrderError::InvalidOrder);
        }
        let n = items.len();
        let mut sum: u32 = 0;
        let mut i: usize = 0;
        while i < n
            invariant
                i <= n,
                n == items@.len(),
                sum == total_price(items@.take(i as int)),
                total_price(items@) <= u32::MAX,
            decreases n - i,
        {
            proof {
                assert(items@.take(i + 1).drop_last() =~= items@.take(i as int));
                lemma_total_price_of_prefix(items@, i + 1);
            }
            sum = sum + items[i].price.0;
            i = i + 1;
        }
        assert(items@.take(n as int) =~= items@);
        Ok(Order { id, items, total: Money(sum) })
    }
}

} // verus!
