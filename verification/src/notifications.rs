use vstd::prelude::*;
use crate::pommo_core::PommoType;

verus! {

/// The text of a desktop notification.
#[derive(Debug, Clone, Copy)]
pub struct Notice {
    pub summary: &'static str,
    pub body: &'static str,
}

/// The summary and body that announce the end of a pommo of type `kind`.
pub open spec fn completion_text(kind: PommoType) -> (Seq<char>, Seq<char>) {
    match kind {
        PommoType::Work => ("Pomodoro complete!"@, "Time for a break!"@),
        PommoType::Break => ("Break complete!"@, "Time to get back to work!"@),
    }
}

/// Whether `notice` says what announces the end of a pommo of type `kind`.
pub open spec fn announces(notice: Notice, kind: PommoType) -> bool {
    (notice.summary@, notice.body@) == completion_text(kind)
}

/// The notice that announces the end of a pommo of type `notification_type`.
pub fn notify_completed(notification_type: PommoType) -> (notice: Notice)
    ensures
        announces(notice, notification_type),
{
    match notification_type {
        PommoType::Work => Notice { summary: "Pomodoro complete!", body: "Time for a break!" },
        PommoType::Break => Notice { summary: "Break complete!", body: "Time to get back to work!" },
    }
}

/// What announcing the end of a pommo of type `kind` does, from a manager
/// that last announced `old_last` to one that last announced `new_last`, with
/// `notice` the notice to send: none when `kind` was the last announced, else
/// the announcing notice, and `kind` becomes the last announced.
pub open spec fn notify_outcome(
    old_last: Option<PommoType>,
    kind: PommoType,
    new_last: Option<PommoType>,
    notice: Option<Notice>,
) -> bool {
    if old_last == Some(kind) {
        notice is None && new_last == old_last
    } else {
        notice is Some && announces(notice->0, kind) && new_last == Some(kind)
    }
}

/// Keeps a completion from being announced twice in a row.
#[derive(Debug)]
pub struct NotificationManger {
    previous_notification_type: Option<PommoType>,
}

impl View for NotificationManger {
    type V = Option<PommoType>;

    /// The type of the last pommo announced, if any.
    closed spec fn view(&self) -> Option<PommoType> {
        self.previous_notification_type
    }
}

impl Default for NotificationManger {
    fn default() -> (manager: NotificationManger)
        ensures
            manager@ == None::<PommoType>,
    {
        NotificationManger { previous_notification_type: None }
    }
}

impl NotificationManger {
    /// A manager that has announced nothing.
    pub fn new() -> (manager: NotificationManger)
        ensures
            manager@ == None::<PommoType>,
    {
        Self::default()
    }

    /// The notice to send for the end of a pommo of type `notification_type`:
    /// none when the last one announced was of the same type, else the
    /// announcing notice, which is then remembered as the last.
    pub fn notify(&mut self, notification_type: PommoType) -> (notice: Option<Notice>)
        ensures
            notify_outcome(old(self)@, notification_type, final(self)@, notice),
    {
        match self.previous_notification_type {
            Some(previous) => {
                if previous == notification_type {
                    return None;
                }
            },
            None => {},
        }
        let notice = notify_completed(notification_type);
        self.previous_notification_type = Some(notification_type);
        Some(notice)
    }
}

/// A completion is announced once: announcing the same type twice in a row
/// sends nothing the second time, and announcing it after another type sends
/// its notice again.
pub proof fn lemma_announced_once(
    start: Option<PommoType>,
    kind: PommoType,
    after_first: Option<PommoType>,
    first: Option<Notice>,
    after_second: Option<PommoType>,
    second: Option<Notice>,
)
    requires
        notify_outcome(start, kind, after_first, first),
        notify_outcome(after_first, kind, after_second, second),
    ensures
        second is None,
        after_second == Some(kind),
        start != Some(kind) ==> first is Some && announces(first->0, kind),
{
}

} // verus!
