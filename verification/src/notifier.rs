//! Progress and status notifications: the events a running operation hands
//! to whoever displays them.

use vstd::prelude::*;

verus! {

/// How an event is to be read by the user.
#[derive(Debug, Clone, Copy, PartialEq, Eq, Structural)]
pub enum NotificationState {
    Running,
    Success,
    Warning,
    Error,
}

/// One event of the notification stream.
#[derive(Debug)]
pub struct Notif {
    pub text: String,
    pub progress: u32,
    pub max_progress: u32,
    pub status: NotificationState,
    pub in_view: bool,
}

/// A [`Notif`] with its text as a sequence of characters.
pub struct NotifView {
    pub text: Seq<char>,
    pub progress: u32,
    pub max_progress: u32,
    pub status: NotificationState,
    pub in_view: bool,
}

impl View for Notif {
    type V = NotifView;

    open spec fn view(&self) -> NotifView {
        NotifView {
            text: self.text@,
            progress: self.progress,
            max_progress: self.max_progress,
            status: self.status,
            in_view: self.in_view,
        }
    }
}

impl Clone for Notif {
    fn clone(&self) -> (copy: Self)
        ensures
            copy == *self,
    {
        Notif {
            text: self.text.clone(),
            progress: self.progress,
            max_progress: self.max_progress,
            status: self.status,
            in_view: self.in_view,
        }
    }
}

impl Default for Notif {
    /// An empty running event that is not shown.
    fn default() -> (notif: Self)
        ensures
            notif@ == (NotifView {
                text: Seq::empty(),
                progress: 0,
                max_progress: 0,
                status: NotificationState::Running,
                in_view: false,
            }),
    {
        Notif {
            text: String::new(),
            progress: 0,
            max_progress: 0,
            in_view: false,
            status: NotificationState::Running,
        }
    }
}

/// What the receiver of an event is to do with it.
#[derive(Debug, Clone, Copy, PartialEq, Eq, Structural)]
pub enum InternalNotifType {
    Schedule,
    FadeIn,
    FadeOut,
    Remove,
}

/// An event on its way to the receiver, tagged with its sender's id.
#[derive(Debug)]
pub struct InternalNotif {
    pub inner: Notif,
    pub id: u32,
    pub typ: InternalNotifType,
}

impl Clone for InternalNotif {
    fn clone(&self) -> (copy: Self)
        ensures
            copy == *self,
    {
        InternalNotif { inner: self.inner.clone(), id: self.id, typ: self.typ }
    }
}

impl InternalNotif {
    /// The same event with another instruction for the receiver.
    pub fn with_typ(self, typ: InternalNotifType) -> (changed: Self)
        ensures
            changed == (InternalNotif { typ, ..self }),
    {
        InternalNotif { inner: self.inner, id: self.id, typ }
    }
}

/// Calls `fastrand::u32(..)`, which draws from the thread's generator;
/// nothing is known of the number.
#[verifier::external_body]
pub(crate) fn random_u32() -> u32 {
    fastrand::u32(..)
}

/// The sending side of one notification: an id under which its events are
/// grouped, and the progress pair that its events carry.
#[derive(Debug)]
pub struct Notifier {
    pub id: u32,
    pub progress: Option<(u32, u32)>,
}

/// The progress that an event of a notifier with `progress` shows.
pub open spec fn shown_progress(progress: Option<(u32, u32)>) -> (u32, u32) {
    match progress {
        Some(pair) => pair,
        None => (0, 0),
    }
}

/// The event that a notifier with `id` and `progress` emits for `text`.
pub open spec fn event_of(
    id: u32,
    progress: Option<(u32, u32)>,
    text: Seq<char>,
    status: NotificationState,
    event: InternalNotif,
) -> bool {
    &&& event.id == id
    &&& event.typ == InternalNotifType::Schedule
    &&& event.inner@ == (NotifView {
        text,
        progress: shown_progress(progress).0,
        max_progress: shown_progress(progress).1,
        status,
        in_view: false,
    })
}

impl Notifier {
    /// A notifier for a notification of its own: a fresh id, no progress.
    pub fn make_new(&self) -> (fresh: Self)
        ensures
            fresh.progress is None,
    {
        Notifier { id: random_u32(), progress: None }
    }

    /// Sets the progress pair that later events carry.
    pub fn set_progress(&mut self, cur: u32, max: u32)
        ensures
            final(self).id == old(self).id,
            final(self).progress == Some((cur, max)),
    {
        self.progress = Some((cur, max));
    }

    /// The event that asks the receiver to drop this notification.
    pub fn send_remove(&self) -> (event: InternalNotif)
        ensures
            event.id == self.id,
            event.typ == InternalNotifType::Remove,
            event.inner@ == (NotifView {
                text: Seq::empty(),
                progress: 0,
                max_progress: 0,
                status: NotificationState::Running,
                in_view: false,
            }),
    {
        InternalNotif { inner: Notif::default(), id: self.id, typ: InternalNotifType::Remove }
    }

    /// The event that shows `notif` under this notifier's id.
    pub fn send_notif(&self, notif: Notif) -> (event: InternalNotif)
        ensures
            event == (InternalNotif { inner: notif, id: self.id, typ: InternalNotifType::Schedule }),
    {
        InternalNotif { inner: notif, id: self.id, typ: InternalNotifType::Schedule }
    }

    /// The event that shows `text` with the current progress.
    pub fn send(&self, text: &str, status: NotificationState) -> (event: InternalNotif)
        ensures
            event_of(self.id, self.progress, text@, status, event),
    {
        let (cur, max) = match self.progress {
            Some((cur, max)) => (cur, max),
            None => (0, 0),
        };
        self.send_notif(
            Notif {
                text: text.to_owned(),
                progress: cur,
                max_progress: max,
                status,
                in_view: false,
            },
        )
    }

    /// The event that shows `message` as still running.
    pub fn send_msg(&self, message: &str) -> (event: InternalNotif)
        ensures
            event_of(self.id, self.progress, message@, NotificationState::Running, event),
    {
        self.send(message, NotificationState::Running)
    }

    /// Moves the progress to `progress`, if a pair is set, and shows `message`.
    pub fn send_progress(&mut self, message: &str, progress: u32) -> (event: InternalNotif)
        ensures
            final(self).id == old(self).id,
            final(self).progress == match old(self).progress {
                Some((_, max)) => Some((progress, max)),
                None => None,
            },
            event_of(
                final(self).id,
                final(self).progress,
                message@,
                NotificationState::Running,
                event,
            ),
    {
        match self.progress {
            Some((_, max)) => {
                self.progress = Some((progress, max));
            },
            None => {},
        }
        self.send(message, NotificationState::Running)
    }

    /// The event that reports `message` as a success.
    pub fn send_success(&self, message: &str) -> (event: InternalNotif)
        ensures
            event_of(self.id, self.progress, message@, NotificationState::Success, event),
    {
        self.send(message, NotificationState::Success)
    }

    /// The event that reports `message` as an error.
    pub fn send_error(&self, message: &str) -> (event: InternalNotif)
        ensures
            event_of(self.id, self.progress, message@, NotificationState::Error, event),
    {
        self.send(message, NotificationState::Error)
    }
}


/// The receiving side: the notifications that are shown, oldest first.
#[derive(Debug)]
pub struct InternalNotifier {
    pub notifications: Vec<InternalNotif>,
}

/// What the receiver does after it has taken an event.
#[derive(Debug)]
pub struct Reaction {
    /// Whether the shown notifications are to be drawn again.
    pub updated: bool,
    /// An event that the receiver is to send itself after so many
    /// milliseconds.
    pub follow_up: Option<(u64, InternalNotif)>,
}

/// The position of the first shown notification with the id `id`.
pub open spec fn position_of_id(list: Seq<InternalNotif>, id: u32) -> Option<int>
    decreases list.len(),
{
    if list.len() == 0 {
        None
    } else if list.last().id == id && position_of_id(list.drop_last(), id) is None {
        Some(list.len() - 1)
    } else {
        position_of_id(list.drop_last(), id)
    }
}

/// The position of the first shown notification with the id `id` and the
/// state `status`.
pub open spec fn position_of_state(
    list: Seq<InternalNotif>,
    id: u32,
    status: NotificationState,
) -> Option<int>
    decreases list.len(),
{
    if list.len() == 0 {
        None
    } else if list.last().id == id && list.last().inner.status == status && position_of_state(
        list.drop_last(),
        id,
        status,
    ) is None {
        Some(list.len() - 1)
    } else {
        position_of_state(list.drop_last(), id, status)
    }
}

/// `notif` as it is shown or hidden.
pub open spec fn with_in_view(notif: InternalNotif, in_view: bool) -> InternalNotif {
    InternalNotif { inner: Notif { in_view, ..notif.inner }, ..notif }
}

/// How long a notification with the state `status` stays before it fades
/// out, in milliseconds; one that is still running stays.
pub open spec fn fade_out_delay(status: NotificationState) -> Option<u64> {
    match status {
        NotificationState::Success => Some(3000),
        NotificationState::Warning => Some(7000),
        NotificationState::Error => Some(10000),
        NotificationState::Running => None,
    }
}

/// The shown notifications after `event` was taken.
pub open spec fn shown_after(list: Seq<InternalNotif>, event: InternalNotif) -> Seq<InternalNotif> {
    match event.typ {
        InternalNotifType::Schedule => match position_of_id(list, event.id) {
            Some(i) => list.update(i, with_in_view(event, true)),
            None => list.push(event),
        },
        InternalNotifType::FadeIn => match position_of_id(list, event.id) {
            Some(i) => list.update(i, with_in_view(list[i], true)),
            None => list,
        },
        InternalNotifType::FadeOut => match position_of_id(list, event.id) {
            Some(i) => list.update(i, with_in_view(list[i], false)),
            None => list,
        },
        InternalNotifType::Remove => match position_of_state(
            list,
            event.id,
            event.inner.status,
        ) {
            Some(i) => list.remove(i),
            None => list,
        },
    }
}

/// Whether the shown notifications are drawn again after `event`.
pub open spec fn redrawn_after(list: Seq<InternalNotif>, event: InternalNotif) -> bool {
    match event.typ {
        InternalNotifType::Schedule => true,
        InternalNotifType::Remove => true,
        _ => position_of_id(list, event.id) is Some,
    }
}

/// The event that the receiver sends itself after `event`, and after how
/// many milliseconds: a scheduled notification fades in at once, one that
/// has faded in fades out when its time is over, and one that has faded out
/// is removed.
pub open spec fn follow_up_after(list: Seq<InternalNotif>, event: InternalNotif) -> Option<
    (u64, InternalNotif),
> {
    match event.typ {
        InternalNotifType::Schedule => Some(
            (10u64, InternalNotif { typ: InternalNotifType::FadeIn, ..event }),
        ),
        InternalNotifType::FadeIn => if position_of_id(list, event.id) is Some {
            match fade_out_delay(event.inner.status) {
                Some(delay) => Some(
                    (delay, InternalNotif { typ: InternalNotifType::FadeOut, ..event }),
                ),
                None => None,
            }
        } else {
            None
        },
        InternalNotifType::FadeOut => if position_of_id(list, event.id) is Some {
            Some((150u64, InternalNotif { typ: InternalNotifType::Remove, ..event }))
        } else {
            None
        },
        InternalNotifType::Remove => None,
    }
}

impl InternalNotifier {
    /// A receiver that shows nothing yet.
    pub fn new() -> (notifier: Self)
        ensures
            notifier.notifications@.len() == 0,
    {
        InternalNotifier { notifications: Vec::new() }
    }

    /// A sender for a notification of its own.
    pub fn make_notifier(&self) -> (notifier: Notifier)
        ensures
            notifier.progress is None,
    {
        Notifier { id: random_u32(), progress: None }
    }

    /// Finds the first shown notification with the id `id`.
    pub fn find_id(&self, id: u32) -> (found: Option<usize>)
        ensures
            match found {
                Some(i) => position_of_id(self.notifications@, id) == Some(i as int) && i
                    < self.notifications@.len(),
                None => position_of_id(self.notifications@, id) is None,
            },
    {
        let mut found: Option<usize> = None;
        let mut i: usize = 0;
        assert(self.notifications@.take(0) =~= Seq::<InternalNotif>::empty());
        while i < self.notifications.len()
            invariant
                i <= self.notifications.len(),
                match found {
                    Some(k) => position_of_id(self.notifications@.take(i as int), id) == Some(
                        k as int,
                    ) && k < i,
                    None => position_of_id(self.notifications@.take(i as int), id) is None,
                },
            decreases self.notifications.len() - i,
        {
            assert(self.notifications@.take(i + 1).drop_last() == self.notifications@.take(
                i as int,
            ));
            if found.is_none() && self.notifications[i].id == id {
                found = Some(i);
            }
            i += 1;
        }
        assert(self.notifications@.take(self.notifications.len() as int) == self.notifications@);
        found
    }

    /// Finds the first shown notification with the id `id` and the state
    /// `status`.
    pub fn find_state(&self, id: u32, status: NotificationState) -> (found: Option<usize>)
        ensures
            match found {
                Some(i) => position_of_state(self.notifications@, id, status) == Some(i as int)
                    && i < self.notifications@.len(),
                None => position_of_state(self.notifications@, id, status) is None,
            },
    {
        let mut found: Option<usize> = None;
        let mut i: usize = 0;
        assert(self.notifications@.take(0) =~= Seq::<InternalNotif>::empty());
        while i < self.notifications.len()
            invariant
                i <= self.notifications.len(),
                match found {
                    Some(k) => position_of_state(self.notifications@.take(i as int), id, status)
                        == Some(k as int) && k < i,
                    None => position_of_state(
                        self.notifications@.take(i as int),
                        id,
                        status,
                    ) is None,
                },
            decreases self.notifications.len() - i,
        {
            assert(self.notifications@.take(i + 1).drop_last() == self.notifications@.take(
                i as int,
            ));
            if found.is_none() && self.notifications[i].id == id
                && self.notifications[i].inner.status == status {
                found = Some(i);
            }
            i += 1;
        }
        assert(self.notifications@.take(self.notifications.len() as int) == self.notifications@);
        found
    }

    /// Takes one event: changes what is shown and says what follows. A
    /// scheduled event replaces the shown notification of its sender or is
    /// shown as a new one; fading in and out mark it as in view or not;
    /// removal takes out the notification of that sender and state.
    pub fn subscribe(&mut self, event: InternalNotif) -> (reaction: Reaction)
        ensures
            final(self).notifications@ == shown_after(old(self).notifications@, event),
            reaction.updated == redrawn_after(old(self).notifications@, event),
            reaction.follow_up == follow_up_after(old(self).notifications@, event),
    {
        match event.typ {
            InternalNotifType::Schedule => {
                let follow = event.clone().with_typ(InternalNotifType::FadeIn);
                match self.find_id(event.id) {
                    Some(i) => {
                        let mut shown = event;
                        shown.inner.in_view = true;
                        self.notifications[i] = shown;
                    },
                    None => {
                        self.notifications.push(event);
                    },
                }
                Reaction { updated: true, follow_up: Some((10, follow)) }
            },
            InternalNotifType::FadeIn => match self.find_id(event.id) {
                Some(i) => {
                    self.notifications[i].inner.in_view = true;
                    let delay: Option<u64> = match event.inner.status {
                        NotificationState::Success => Some(3000),
                        NotificationState::Warning => Some(7000),
                        NotificationState::Error => Some(10000),
                        NotificationState::Running => None,
                    };
                    let follow_up = match delay {
                        Some(ms) => Some((ms, event.with_typ(InternalNotifType::FadeOut))),
                        None => None,
                    };
                    Reaction { updated: true, follow_up }
                },
                None => Reaction { updated: false, follow_up: None },
            },
            InternalNotifType::FadeOut => match self.find_id(event.id) {
                Some(i) => {
                    self.notifications[i].inner.in_view = false;
                    Reaction {
                        updated: true,
                        follow_up: Some((150, event.with_typ(InternalNotifType::Remove))),
                    }
                },
                None => Reaction { updated: false, follow_up: None },
            },
            InternalNotifType::Remove => {
                match self.find_state(event.id, event.inner.status) {
                    Some(i) => {
                        self.notifications.remove(i);
                    },
                    None => {},
                }
                Reaction { updated: true, follow_up: None }
            },
        }
    }
}

} // verus!
