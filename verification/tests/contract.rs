use rpc_provider::error::Error;
use rpc_provider::HandleSubscription;

struct ReplaySubscription {
    notifications: Vec<u64>,
    closed: bool,
}

impl HandleSubscription<u64> for ReplaySubscription {
    fn next(&mut self) -> Option<Result<u64, Error>> {
        if self.closed || self.notifications.is_empty() {
            None
        } else {
            Some(Ok(self.notifications.remove(0)))
        }
    }

    fn unsubscribe(mut self) -> Result<(), Error> {
        self.closed = true;
        Ok(())
    }
}

#[test]
fn subscription_yields_notifications_in_order() {
    let mut sub = ReplaySubscription { notifications: vec![10, 20], closed: false };
    assert_eq!(sub.next().unwrap().unwrap(), 10);
    assert_eq!(sub.next().unwrap().unwrap(), 20);
    assert!(sub.next().is_none());
}

#[test]
fn unsubscribe_consumes_the_subscription() {
    let sub = ReplaySubscription { notifications: vec![1], closed: false };
    assert!(sub.unsubscribe().is_ok());
}
