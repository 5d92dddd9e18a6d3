use solid_patterns::orders::application::OrderService;
use solid_patterns::orders::domain::{LineItem, Money, Order, OrderError, OrderId, OrderView};
use solid_patterns::orders::external::{
    PostgresOrderRepository, SendGridNotificationService, SendGridSender, StripePaymentGateway,
};
use solid_patterns::orders::in_memory::{
    ConsoleNotificationService, ConsoleSender, InMemoryOrderRepository, MockPaymentGateway,
};
use solid_patterns::orders::ports::{NotificationService, OrderRepository, PaymentGateway};

fn item(name: &str, cents: u32) -> LineItem {
    LineItem {
        name: name.to_string(),
        price: Money(cents),
    }
}

fn book_and_keyboard() -> Vec<LineItem> {
    vec![
        item("Rust Programming Book", 4999),
        item("Mechanical Keyboard", 12999),
    ]
}

// A gateway that refuses every charge.
struct Declining;

impl PaymentGateway for Declining {
    fn may_accept(&self, _amount: Money) -> bool {
        unreachable!()
    }

    fn may_refuse(&self, _amount: Money, _error: OrderError) -> bool {
        unreachable!()
    }

    fn charge(&self, _amount: Money) -> Result<(), OrderError> {
        Err(OrderError::PaymentFailed)
    }
}

// A notifier that never gets through.
struct Unreachable;

impl NotificationService for Unreachable {
    fn may_accept(&self, _order: OrderView) -> bool {
        unreachable!()
    }

    fn may_refuse(&self, _order: OrderView, _error: OrderError) -> bool {
        unreachable!()
    }

    fn send_confirmation(&self, _order: &Order) -> Result<(), OrderError> {
        Err(OrderError::NotificationFailed)
    }
}

// A repository whose disk is full.
struct Full;

impl OrderRepository for Full {
    fn stored(&self) -> vstd::map::Map<OrderId, OrderView> {
        unreachable!()
    }

    fn may_refuse(&self, _order: OrderView, _error: OrderError) -> bool {
        unreachable!()
    }

    fn may_fail(&self, _id: OrderId, _error: OrderError) -> bool {
        unreachable!()
    }

    fn save(&mut self, _order: &Order) -> Result<(), OrderError> {
        Err(OrderError::StorageFailed)
    }

    fn find(&self, _id: OrderId) -> Result<Option<Order>, OrderError> {
        Err(OrderError::StorageFailed)
    }
}

#[test]
fn failed_save_ends_the_attempt_before_notifying() {
    let mut service = OrderService::new(Full, MockPaymentGateway, Unreachable);
    let res = service.place_order(book_and_keyboard());
    assert_eq!(res.err(), Some(OrderError::StorageFailed));
    assert_eq!(
        service.get_order(OrderId(1)).err(),
        Some(OrderError::StorageFailed)
    );
}

#[test]
fn order_total_is_the_sum_of_prices() {
    let order = Order::new(OrderId(7), book_and_keyboard()).unwrap();
    assert_eq!(order.id, OrderId(7));
    assert_eq!(order.total, Money(17998));
    assert_eq!(order.items.len(), 2);
    assert_eq!(order.items[0].name, "Rust Programming Book");
    assert_eq!(order.items[1].price, Money(12999));
}

#[test]
fn order_without_items_is_invalid() {
    let res = Order::new(OrderId(1), Vec::new());
    assert_eq!(res.err(), Some(OrderError::InvalidOrder));
}

#[test]
fn total_fits_tells_when_the_sum_is_too_large() {
    assert!(Order::total_fits(&Vec::new()));
    assert!(Order::total_fits(&book_and_keyboard()));
    assert!(Order::total_fits(&vec![item("a", u32::MAX)]));
    assert!(Order::total_fits(&vec![item("a", u32::MAX - 1), item("b", 1)]));
    assert!(!Order::total_fits(&vec![item("a", u32::MAX), item("b", 1)]));
    assert!(!Order::total_fits(&vec![
        item("a", u32::MAX),
        item("b", u32::MAX),
        item("c", u32::MAX)
    ]));
}

#[test]
fn order_clone_is_equal() {
    let order = Order::new(OrderId(3), book_and_keyboard()).unwrap();
    let copy = order.clone();
    assert_eq!(copy.id, order.id);
    assert_eq!(copy.total, order.total);
    assert_eq!(copy.items.len(), 2);
    assert_eq!(copy.items[0].name, order.items[0].name);
    assert_eq!(copy.items[1].name, order.items[1].name);
    assert_eq!(copy.items[1].price, order.items[1].price);
}

#[test]
fn error_names() {
    assert_eq!(OrderError::InvalidOrder.describe(), "InvalidOrder");
    assert_eq!(OrderError::PaymentFailed.describe(), "PaymentFailed");
    assert_eq!(OrderError::StorageFailed.describe(), "StorageFailed");
    assert_eq!(OrderError::NotificationFailed.describe(), "NotificationFailed");
}

#[test]
fn place_order_in_memory() {
    let mut service = OrderService::new(
        InMemoryOrderRepository::new(),
        MockPaymentGateway,
        ConsoleNotificationService,
    );
    assert!(service.can_place(&book_and_keyboard()));
    let order = service.place_order(book_and_keyboard()).unwrap();
    assert_eq!(order.id, OrderId(1));
    assert_eq!(order.total, Money(17998));

    let found = service.get_order(OrderId(1)).unwrap().unwrap();
    assert_eq!(found.id, OrderId(1));
    assert_eq!(found.total, Money(17998));
    assert_eq!(found.items.len(), 2);
    assert_eq!(found.items[1].name, "Mechanical Keyboard");

    assert!(service.get_order(OrderId(2)).unwrap().is_none());
}

#[test]
fn place_order_external() {
    let mut service = OrderService::new(
        PostgresOrderRepository::new(),
        StripePaymentGateway,
        SendGridNotificationService,
    );
    let order = service.place_order(book_and_keyboard()).unwrap();
    assert_eq!(order.id, OrderId(1));
    let retrieved = service.get_order(order.id).unwrap().unwrap();
    assert_eq!(retrieved.items.len(), 2);
    assert_eq!(retrieved.total, Money(17998));
}

#[test]
fn ids_count_up_from_one() {
    let mut service = OrderService::new(
        InMemoryOrderRepository::default(),
        MockPaymentGateway,
        ConsoleNotificationService,
    );
    let first = service.place_order(vec![item("a", 1)]).unwrap();
    let second = service.place_order(vec![item("b", 2)]).unwrap();
    assert_eq!(first.id, OrderId(1));
    assert_eq!(second.id, OrderId(2));
    assert_eq!(
        service.get_order(OrderId(2)).unwrap().unwrap().total,
        Money(2)
    );
}

#[test]
fn invalid_order_uses_up_an_id_and_stores_nothing() {
    let mut service = OrderService::new(
        InMemoryOrderRepository::new(),
        MockPaymentGateway,
        ConsoleNotificationService,
    );
    let res = service.place_order(Vec::new());
    assert_eq!(res.err(), Some(OrderError::InvalidOrder));
    assert!(service.get_order(OrderId(1)).unwrap().is_none());
    let next = service.place_order(vec![item("a", 1)]).unwrap();
    assert_eq!(next.id, OrderId(2));
}

#[test]
fn refused_charge_ends_the_attempt_before_saving() {
    let mut service = OrderService::new(
        InMemoryOrderRepository::new(),
        Declining,
        ConsoleNotificationService,
    );
    let res = service.place_order(book_and_keyboard());
    assert_eq!(res.err(), Some(OrderError::PaymentFailed));
    assert!(service.get_order(OrderId(1)).unwrap().is_none());
}

#[test]
fn failed_notification_leaves_the_order_saved() {
    let mut service =
        OrderService::new(InMemoryOrderRepository::new(), MockPaymentGateway, Unreachable);
    let res = service.place_order(book_and_keyboard());
    assert_eq!(res.err(), Some(OrderError::NotificationFailed));
    let saved = service.get_order(OrderId(1)).unwrap().unwrap();
    assert_eq!(saved.total, Money(17998));
}

#[test]
fn repository_replaces_an_order_under_the_same_id() {
    let mut repo = InMemoryOrderRepository::new();
    let first = Order::new(OrderId(5), vec![item("a", 10)]).unwrap();
    let second = Order::new(OrderId(5), vec![item("b", 20), item("c", 30)]).unwrap();
    assert!(repo.save(&first).is_ok());
    assert!(repo.save(&second).is_ok());
    let found = repo.find(OrderId(5)).unwrap().unwrap();
    assert_eq!(found.total, Money(50));
    assert!(repo.find(OrderId(6)).unwrap().is_none());

    let mut db = PostgresOrderRepository::default();
    assert!(db.find(OrderId(5)).unwrap().is_none());
    assert!(db.save(&first).is_ok());
    assert_eq!(db.find(OrderId(5)).unwrap().unwrap().total, Money(10));
}

#[test]
fn adapters_take_everything() {
    assert!(MockPaymentGateway.charge(Money(0)).is_ok());
    assert!(StripePaymentGateway.charge(Money(u32::MAX)).is_ok());
    let order = Order::new(OrderId(1), vec![item("a", 1)]).unwrap();
    assert!(ConsoleNotificationService.send_confirmation(&order).is_ok());
    assert!(SendGridNotificationService.send_confirmation(&order).is_ok());
}

#[test]
fn senders_are_notification_services() {
    let mut service =
        OrderService::new(PostgresOrderRepository::new(), StripePaymentGateway, SendGridSender);
    let order = service.place_order(book_and_keyboard()).unwrap();
    assert!(ConsoleSender.send_confirmation(&order).is_ok());
    assert_eq!(
        ConsoleSender::confirmation_line(&order),
        "[Console] Order #OrderId(1) confirmed! Total: $179.98"
    );
    assert_eq!(
        SendGridSender::confirmation_line(&order),
        "[SendGrid API] Sending email: 'Order #OrderId(1) Confirmed'"
    );
}

#[test]
fn adapter_lines() {
    let order = Order::new(OrderId(1), book_and_keyboard()).unwrap();
    assert_eq!(
        InMemoryOrderRepository::save_line(&order),
        "[InMemory] Saving order #OrderId(1)"
    );
    assert_eq!(
        InMemoryOrderRepository::find_line(OrderId(42)),
        "[InMemory] Finding order #OrderId(42)"
    );
    assert_eq!(
        MockPaymentGateway::charge_line(Money(4999)),
        "[Mock] Charging $49.99"
    );
    assert_eq!(
        MockPaymentGateway::charge_line(Money(5)),
        "[Mock] Charging $0.05"
    );
    assert_eq!(
        ConsoleNotificationService::confirmation_line(&order),
        "[Console] Order #OrderId(1) confirmed - Total: $179.98"
    );
    assert_eq!(
        PostgresOrderRepository::save_line(&order),
        "[Postgres] INSERT INTO orders VALUES (OrderId(1), ...)"
    );
    assert_eq!(
        PostgresOrderRepository::find_line(OrderId(1)),
        "[Postgres] SELECT * FROM orders WHERE id = OrderId(1)"
    );
    assert_eq!(
        StripePaymentGateway::charge_line(Money(12999)),
        "[Stripe API] POST /charges amount=$129.99"
    );
    assert_eq!(
        SendGridNotificationService::confirmation_line(&order),
        "[SendGrid API] POST /mail/send to=customer@example.com subject='Order #OrderId(1) Confirmed'"
    );
}
