//! The change-feed adapter: turns what the store's change subscription yields
//! into typed session events, numbering inserts in the order they arrive.
use vstd::prelude::*;
use crate::message::{ChatError, ChatMessage};
use crate::session::{ChangeEvent, EventView, SessionEvent};

verus! {

/// One item read from the store's change subscription: `None` when the
/// subscription ended, an error when it failed, and otherwise the inserted
/// document, if the notification carried one.
pub type FeedItem = Option<Result<Option<ChatMessage>, ChatError>>;

/// The adapter's state for one open subscription.
#[derive(Debug, Clone, Copy, PartialEq, Eq, Structural)]
pub struct FeedAdapter {
    /// Position given to the next insert.
    pub next_position: u64,
    /// Whether the subscription is still open.
    pub open: bool,
}

impl FeedAdapter {
    /// The adapter for a subscription that was just opened.
    pub fn open() -> (r: FeedAdapter)
        ensures
            r.next_position == 0,
            r.open,
    {
        FeedAdapter { next_position: 0, open: true }
    }

    /// The adapter for a subscription opened after the messages up to
    /// `position` were delivered by other means (a catch-up query): inserts
    /// are numbered from the one after it.
    pub fn starting_after(position: u64) -> (r: FeedAdapter)
        ensures
            position < u64::MAX ==> r.next_position == position + 1 && r.open,
            position == u64::MAX ==> r.next_position == position && !r.open,
    {
        if position < u64::MAX {
            FeedAdapter { next_position: position + 1, open: true }
        } else {
            FeedAdapter { next_position: position, open: false }
        }
    }

    /// Releases the subscription; idempotent.
    pub fn close(&mut self)
        ensures
            final(self).next_position == old(self).next_position,
            !final(self).open,
    {
        self.open = false;
    }

    /// Takes one item of the subscription. An insert becomes `Inserted`
    /// with the next position; an end, a failure, or running out of
    /// positions becomes `FeedClosed` and closes the adapter; a notification
    /// without a document gives nothing. A closed adapter yields `FeedClosed`.
    pub fn receive(&mut self, item: FeedItem) -> (r: Option<SessionEvent>)
        ensures
            !old(self).open ==> r == Some(SessionEvent::FeedClosed) && *final(self) == *old(self),
            old(self).open ==> match item {
                Some(Ok(Some(m))) => if old(self).next_position < u64::MAX {
                    &&& r matches Some(e) && e@ == EventView::Inserted(old(self).next_position, m@)
                    &&& final(self).next_position == old(self).next_position + 1
                    &&& final(self).open
                } else {
                    r == Some(SessionEvent::FeedClosed) && !final(self).open
                        && final(self).next_position == old(self).next_position
                },
                Some(Ok(None)) => r is None && *final(self) == *old(self),
                _ => r == Some(SessionEvent::FeedClosed) && !final(self).open
                    && final(self).next_position == old(self).next_position,
            },
    {
        if !self.open {
            return Some(SessionEvent::FeedClosed);
        }
        match item {
            Some(Ok(Some(m))) => {
                if self.next_position < u64::MAX {
                    let position = self.next_position;
                    self.next_position = self.next_position + 1;
                    Some(SessionEvent::Inserted(ChangeEvent { position, message: m }))
                } else {
                    self.open = false;
                    Some(SessionEvent::FeedClosed)
                }
            },
            Some(Ok(None)) => None,
            _ => {
                self.open = false;
                Some(SessionEvent::FeedClosed)
            },
        }
    }
}

} // verus!
