use vstd::prelude::*;
use vstd::string::StringExecFns;

verus! {

/// How urgent an alert is.
#[derive(Debug, Clone, Copy, PartialEq, Eq, Structural)]
pub enum AlertSeverity {
    Info,
    Warning,
    Error,
}

/// An alert raised for operators.
#[derive(Debug)]
pub struct Alert {
    pub title: String,
    pub message: String,
    pub timestamp: i64,
    pub severity: AlertSeverity,
}

impl Alert {
    /// A copy of this alert.
    pub fn duplicate(&self) -> (r: Alert)
        ensures
            r == *self,
    {
        Alert {
            title: self.title.clone(),
            message: self.message.clone(),
            timestamp: self.timestamp,
            severity: self.severity,
        }
    }
}

/// Number of recent alerts kept.
pub const ALERT_CAPACITY: usize = 100;

/// The alert log after appending `a` and dropping the oldest beyond capacity.
pub open spec fn keep_recent(alerts: Seq<Alert>, a: Alert) -> Seq<Alert> {
    let all = alerts.push(a);
    if all.len() > ALERT_CAPACITY {
        all.subrange(all.len() - ALERT_CAPACITY, all.len() as int)
    } else {
        all
    }
}

/// Keeps the most recent alerts in memory.
pub struct NotificationService {
    pub alerts: Vec<Alert>,
}

impl NotificationService {
    pub open spec fn wf(&self) -> bool {
        self.alerts@.len() <= ALERT_CAPACITY
    }

    /// A service with no alerts.
    pub fn new() -> (r: NotificationService)
        ensures
            r.wf(),
            r.alerts@.len() == 0,
    {
        NotificationService { alerts: Vec::new() }
    }

    /// Records a Warning alert; only the last `ALERT_CAPACITY` alerts are kept.
    pub fn send_alert(&mut self, title: &str, message: &str, now: i64)
        requires
            old(self).wf(),
        ensures
            final(self).wf(),
            final(self).alerts@.len() >= 1,
            ({
                let a = final(self).alerts@.last();
                &&& a.title@ == title@
                &&& a.message@ == message@
                &&& a.timestamp == now
                &&& a.severity == AlertSeverity::Warning
                &&& final(self).alerts@ == keep_recent(old(self).alerts@, a)
            }),
    {
        let alert = Alert {
            title: String::from_str(title),
            message: String::from_str(message),
            timestamp: now,
            severity: AlertSeverity::Warning,
        };
        self.store_alert(alert);
    }

    /// Appends an alert, dropping the oldest one beyond capacity.
    fn store_alert(&mut self, alert: Alert)
        requires
            old(self).wf(),
        ensures
            final(self).wf(),
            final(self).alerts@ == keep_recent(old(self).alerts@, alert),
    {
        let ghost all = self.alerts@.push(alert);
        self.alerts.push(alert);
        if self.alerts.len() > ALERT_CAPACITY {
            self.alerts.remove(0);
            proof {
                assert(self.alerts@ =~= all.subrange(all.len() - ALERT_CAPACITY, all.len() as int));
            }
        }
    }

    /// Copies of the recent alerts, oldest first.
    pub fn get_recent_alerts(&self) -> (r: Vec<Alert>)
        ensures
            r@ == self.alerts@,
    {
        let mut out: Vec<Alert> = Vec::new();
        let mut i: usize = 0;
        while i < self.alerts.len()
            invariant
                i <= self.alerts@.len(),
                out@ == self.alerts@.subrange(0, i as int),
            decreases self.alerts@.len() - i,
        {
            out.push(self.alerts[i].duplicate());
            i = i + 1;
        }
        assert(self.alerts@.subrange(0, self.alerts@.len() as int) == self.alerts@);
        out
    }
}

} // verus!
