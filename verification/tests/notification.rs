use solid_patterns::notification::{
    confirmed_message, email_line, placed_message, sms_line, Notifier, OrderService,
};
use std::cell::RefCell;
use std::rc::Rc;

// A notifier that keeps what it is asked to send.
struct MockNotifier {
    messages: Rc<RefCell<Vec<String>>>,
}

impl MockNotifier {
    fn new() -> (Self, Rc<RefCell<Vec<String>>>) {
        let messages = Rc::new(RefCell::new(Vec::new()));
        (
            Self {
                messages: Rc::clone(&messages),
            },
            messages,
        )
    }
}

impl Notifier for MockNotifier {
    fn send(&self, message: &str) {
        self.messages.borrow_mut().push(message.to_string());
    }
}

#[test]
fn test_order_service_sends_notification() {
    let (mock, messages) = MockNotifier::new();
    let service = OrderService::new(mock);

    service.place_order(42);

    let msgs = messages.borrow();
    assert_eq!(msgs.len(), 1);
    assert_eq!(msgs[0], "Order #42 confirmed");
}

#[test]
fn test_multiple_orders() {
    let (mock, messages) = MockNotifier::new();
    let service = OrderService::new(mock);

    service.place_order(100);
    service.place_order(101);
    service.place_order(102);

    let msgs = messages.borrow();
    assert_eq!(msgs.len(), 3);
    assert!(msgs[0].contains("Order #100"));
    assert!(msgs[1].contains("Order #101"));
    assert!(msgs[2].contains("Order #102"));
}

#[test]
fn test_notification_format() {
    let (mock, messages) = MockNotifier::new();
    let service = OrderService::new(mock);

    service.place_order(999);

    let msgs = messages.borrow();
    assert_eq!(msgs[0], "Order #999 confirmed");
}

#[test]
fn place_order_returns_what_it_sent() {
    let (mock, messages) = MockNotifier::new();
    let service = OrderService::new(mock);
    let sent = service.place_order(7);
    assert_eq!(sent, "Order #7 confirmed");
    assert_eq!(messages.borrow()[0], sent);
}

#[test]
fn message_texts() {
    assert_eq!(placed_message(101), "Order #101 placed");
    assert_eq!(confirmed_message(0), "Order #0 confirmed");
    assert_eq!(confirmed_message(4294967295), "Order #4294967295 confirmed");
    assert_eq!(email_line("hi"), "Sending email: hi");
    assert_eq!(sms_line("hi"), "Sending SMS: hi");
}
