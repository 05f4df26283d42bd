//! Running counts of the feed: messages received, and the delay of quotes behind the
//! clock.

use vstd::prelude::*;

use crate::calendar::{date_time_signed_duration_since, instant_nanos, whole_seconds, UtcDateTime};
use crate::enums::AppMessage;
use crate::utils::{combine_date_time, combined_date_time, FirehoseError};

verus! {

/// The delay of a quote message behind `now`, in whole seconds (truncated toward zero);
/// `None` for messages that are not quotes or carry no quote.
pub fn quote_delay(msg: &AppMessage, now: UtcDateTime) -> (r: Result<Option<i64>, FirehoseError>)
    requires
        now.wf(),
    ensures
        if msg.header.msg_type@ == "QUOTE"@ && msg.quote is Some {
            let q = msg.quote.unwrap();
            match combined_date_time(q.date, q.ms_of_day as u64) {
                Some(t) => r matches Ok(Some(d)) && d == whole_seconds(
                    instant_nanos(now) - instant_nanos(t),
                ),
                None => r matches Err(FirehoseError::DateParse(_)),
            }
        } else {
            r matches Ok(None)
        },
{
    let quote_tag = String::from_str("QUOTE");
    if msg.header.msg_type == quote_tag {
        if let Some(quote) = &msg.quote {
            let sent = match combine_date_time(quote.date, quote.ms_of_day as u64) {
                Ok(t) => t,
                Err(e) => {
                    return Err(e);
                },
            };
            return Ok(Some(date_time_signed_duration_since(now, sent)));
        }
    }
    Ok(None)
}

/// Messages received, and the summed delay of the quotes among them.
#[derive(Debug, Clone, Copy)]
pub struct FeedStats {
    pub message_count: u32,
    pub total_delay: i64,
    pub messages_with_delay: i32,
}

impl FeedStats {
    /// No messages yet.
    pub fn new() -> (r: Self)
        ensures
            r.message_count == 0,
            r.total_delay == 0,
            r.messages_with_delay == 0,
    {
        FeedStats { message_count: 0, total_delay: 0, messages_with_delay: 0 }
    }

    /// Counts one more message.
    pub fn count_message(&mut self)
        requires
            old(self).message_count < u32::MAX,
        ensures
            final(self).message_count == old(self).message_count + 1,
            final(self).total_delay == old(self).total_delay,
            final(self).messages_with_delay == old(self).messages_with_delay,
    {
        self.message_count = self.message_count + 1;
    }

    /// Adds the delay of one more quote.
    pub fn add_delay(&mut self, delay: i64)
        requires
            i64::MIN <= old(self).total_delay + delay <= i64::MAX,
            old(self).messages_with_delay < i32::MAX,
        ensures
            final(self).total_delay == old(self).total_delay + delay,
            final(self).messages_with_delay == old(self).messages_with_delay + 1,
            final(self).message_count == old(self).message_count,
    {
        self.total_delay = self.total_delay + delay;
        self.messages_with_delay = self.messages_with_delay + 1;
    }

    /// Starts the delay totals afresh (on a new connection); the message count goes on.
    pub fn reset_delays(&mut self)
        ensures
            final(self).total_delay == 0,
            final(self).messages_with_delay == 0,
            final(self).message_count == old(self).message_count,
    {
        self.total_delay = 0;
        self.messages_with_delay = 0;
    }
}

} // verus!
