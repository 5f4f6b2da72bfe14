//! Messages for the operator.

use vstd::prelude::*;

verus! {

/// Number of ticks for which a fresh notification stays on screen.
pub const NOTIFICATION_TTL: u16 = 8;

/// How serious a notification is.
#[derive(Debug, Clone, Copy, PartialEq, Eq, Structural)]
pub enum NotificationLevel {
    Error,
    Warning,
    Info,
}

/// One message for the operator, with the ticks it has left.
#[derive(Debug)]
pub struct Notification {
    pub message: String,
    pub level: NotificationLevel,
    pub ttl: u16,
}

impl Clone for Notification {
    fn clone(&self) -> (r: Notification)
        ensures
            r == *self,
    {
        Notification { message: self.message.clone(), level: self.level, ttl: self.ttl }
    }
}

impl Notification {
    /// A fresh notification, with the full time to live.
    pub fn new(message: String, level: NotificationLevel) -> (r: Notification)
        ensures
            r == (Notification { message, level, ttl: NOTIFICATION_TTL }),
    {
        Notification { message, level, ttl: NOTIFICATION_TTL }
    }

    /// The notifications that outlive a tick: those with time left, in their
    /// order, each one tick older.
    pub open spec fn aged(notifications: Seq<Notification>) -> Seq<Notification> {
        notifications.filter(|n: Notification| n.ttl > 0).map_values(
            |n: Notification|
                Notification { message: n.message, level: n.level, ttl: (n.ttl - 1) as u16 },
        )
    }

    /// Drops the notifications whose time has run out and ages the others by
    /// one tick.
    pub fn age(notifications: &mut Vec<Notification>)
        ensures
            final(notifications)@ == Notification::aged(old(notifications)@),
    {
        let mut kept: Vec<Notification> = Vec::new();
        let mut i: usize = 0;
        while i < notifications.len()
            invariant
                i <= notifications.len(),
                *notifications == *old(notifications),
                kept@ == Notification::aged(notifications@.take(i as int)),
            decreases notifications.len() - i,
        {
            let n = &notifications[i];
            proof {
                let prefix = notifications@.take(i as int);
                let next = notifications@.take(i as int + 1);
                assert(next.drop_last() == prefix);
                assert(next.last() == notifications@[i as int]);
                reveal_with_fuel(Seq::filter, 2);
            }
            if n.ttl > 0 {
                kept.push(Notification { message: n.message.clone(), level: n.level, ttl: n.ttl - 1 });
            }
            i += 1;
        }
        assert(notifications@.take(i as int) == notifications@);
        *notifications = kept;
    }
}

} // verus!
