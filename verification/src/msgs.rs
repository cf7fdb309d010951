//! The message bar: one message is shown at a time, for a while; the ones
//! that wait are queued, the ones that were shown are kept.

use crate::cache::texts_view;
use vstd::prelude::*;

verus! {

/// How long a message is shown, in milliseconds, when no other one waits.
pub const MESSAGE_TIMEOUT: u64 = 4000;

/// Data related to the message bar. Times are in milliseconds on a clock of
/// the caller's choosing that does not run backwards.
#[derive(Debug)]
pub struct Msgs {
    /// the message that is shown
    pub current: Option<String>,
    /// the time at which the last message was shown
    pub last_time: u64,
    /// how long a message is shown
    pub timeout: u64,
    /// messages to be shown; the one pushed last is shown first
    pub queue: Vec<String>,
    /// history of messages
    pub history: Vec<String>,
}

/// The mathematical content of [`Msgs`].
pub struct MsgsView {
    pub current: Option<Seq<char>>,
    pub last_time: u64,
    pub timeout: u64,
    pub queue: Seq<Seq<char>>,
    pub history: Seq<Seq<char>>,
}

impl View for Msgs {
    type V = MsgsView;

    open spec fn view(&self) -> MsgsView {
        MsgsView {
            current: match self.current {
                Some(message) => Some(message@),
                None => None,
            },
            last_time: self.last_time,
            timeout: self.timeout,
            queue: texts_view(self.queue@),
            history: texts_view(self.history@),
        }
    }
}

/// The history with the message that was shown, if there was one, behind it.
pub open spec fn retired(history: Seq<Seq<char>>, current: Option<Seq<char>>) -> Seq<Seq<char>> {
    match current {
        Some(message) => history.push(message),
        None => history,
    }
}

/// The message bar one tick later, at the time `now`. A message that waits
/// takes the place of the one that is shown, the one pushed last first. With
/// none waiting, the message that is shown leaves once it was shown for the
/// timeout. What leaves goes to the history.
pub open spec fn tick_spec(msgs: MsgsView, now: u64) -> MsgsView {
    if msgs.queue.len() > 0 {
        MsgsView {
            current: Some(msgs.queue.last()),
            last_time: now,
            queue: msgs.queue.drop_last(),
            history: retired(msgs.history, msgs.current),
            ..msgs
        }
    } else if msgs.current is Some && now - msgs.last_time >= msgs.timeout {
        MsgsView { current: None, history: retired(msgs.history, msgs.current), ..msgs }
    } else {
        msgs
    }
}

impl Msgs {
    /// An empty message bar, made at the time `now`.
    pub fn default(now: u64) -> (msgs: Self)
        ensures
            msgs@ == (MsgsView {
                current: None,
                last_time: now,
                timeout: MESSAGE_TIMEOUT,
                queue: Seq::empty(),
                history: Seq::empty(),
            }),
    {
        let msgs = Msgs {
            current: None,
            last_time: now,
            timeout: MESSAGE_TIMEOUT,
            queue: Vec::new(),
            history: Vec::new(),
        };
        assert(msgs@.queue =~= Seq::empty());
        assert(msgs@.history =~= Seq::empty());
        msgs
    }

    /// Moves the message bar on by one tick, at the time `now`.
    pub fn on_tick(&mut self, now: u64)
        ensures
            final(self)@ == tick_spec(old(self)@, now),
    {
        let ghost before = self@;
        match self.queue.pop() {
            Some(new_msg) => {
                self.retire();
                self.current = Some(new_msg);
                self.last_time = now;
                assert(self@.queue =~= before.queue.drop_last());
            },
            None => {
                assert(self@.queue =~= before.queue);
                if self.current.is_some() && now >= self.last_time && now - self.last_time
                    >= self.timeout {
                    self.retire();
                }
            },
        }
    }

    /// Moves the message that is shown, if there is one, to the history.
    fn retire(&mut self)
        ensures
            final(self)@ == (MsgsView {
                current: None,
                history: retired(old(self)@.history, old(self)@.current),
                ..old(self)@
            }),
    {
        let ghost before = self@;
        let mut shown: Option<String> = None;
        core::mem::swap(&mut self.current, &mut shown);
        match shown {
            Some(message) => {
                self.history.push(message);
                assert(self@.history =~= before.history.push(message@));
            },
            None => {},
        }
    }

    /// Queues a message.
    pub fn push(&mut self, msg: String)
        ensures
            final(self)@ == (MsgsView { queue: old(self)@.queue.push(msg@), ..old(self)@ }),
    {
        let ghost before = self@;
        self.queue.push(msg);
        assert(self@.queue =~= before.queue.push(msg@));
    }
}

} // verus!
