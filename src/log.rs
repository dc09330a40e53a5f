//! Emission of log records with zero to four topics.
use crate::host::{slot_topics, slots_well_formed, Host, Resource};
use crate::types::LogTopic;
use vstd::prelude::*;

verus! {

/// The number of topic slots of a log record.
pub const MAX_TOPICS: usize = 4;

/// Appends a log record with `data` and `topics`, in order.
///
/// A record has at most four topics; passing more is a caller error that
/// verification rejects.
pub fn log_topics<H: Host>(host: &mut H, data: &[u8], topics: &[LogTopic])
    requires
        topics@.len() <= MAX_TOPICS,
    ensures
        final(host).log_records() == old(host).log_records().push((data@, topics@)),
        forall|r: Resource| #[trigger] final(host).contents(r) == old(host).contents(r),
{
    let n = topics.len();
    let topic1 = if n > 0 {
        Some(&topics[0])
    } else {
        None
    };
    let topic2 = if n > 1 {
        Some(&topics[1])
    } else {
        None
    };
    let topic3 = if n > 2 {
        Some(&topics[2])
    } else {
        None
    };
    let topic4 = if n > 3 {
        Some(&topics[3])
    } else {
        None
    };
    proof {
        let slots = seq![topic1, topic2, topic3, topic4];
        assert(slots_well_formed(n, slots));
        assert(slot_topics(n, slots) =~= topics@);
    }
    host.log(data, n, topic1, topic2, topic3, topic4);
}

/// Appends a log record without topics.
pub fn log0<H: Host>(host: &mut H, data: &[u8])
    ensures
        final(host).log_records() == old(host).log_records().push((data@, seq![])),
        forall|r: Resource| #[trigger] final(host).contents(r) == old(host).contents(r),
{
    proof {
        assert(slot_topics(0, seq![None, None, None, None]) =~= seq![]);
    }
    host.log(data, 0, None, None, None, None);
}

/// Appends a log record with one topic.
pub fn log1<H: Host>(host: &mut H, data: &[u8], topic1: &LogTopic)
    ensures
        final(host).log_records() == old(host).log_records().push((data@, seq![*topic1])),
        forall|r: Resource| #[trigger] final(host).contents(r) == old(host).contents(r),
{
    proof {
        assert(slot_topics(1, seq![Some(topic1), None, None, None]) =~= seq![*topic1]);
    }
    host.log(data, 1, Some(topic1), None, None, None);
}

/// Appends a log record with two topics.
pub fn log2<H: Host>(host: &mut H, data: &[u8], topic1: &LogTopic, topic2: &LogTopic)
    ensures
        final(host).log_records() == old(host).log_records().push(
            (data@, seq![*topic1, *topic2]),
        ),
        forall|r: Resource| #[trigger] final(host).contents(r) == old(host).contents(r),
{
    proof {
        assert(slot_topics(2, seq![Some(topic1), Some(topic2), None, None]) =~= seq![
            *topic1,
            *topic2,
        ]);
    }
    host.log(data, 2, Some(topic1), Some(topic2), None, None);
}

/// Appends a log record with three topics.
pub fn log3<H: Host>(
    host: &mut H,
    data: &[u8],
    topic1: &LogTopic,
    topic2: &LogTopic,
    topic3: &LogTopic,
)
    ensures
        final(host).log_records() == old(host).log_records().push(
            (data@, seq![*topic1, *topic2, *topic3]),
        ),
        forall|r: Resource| #[trigger] final(host).contents(r) == old(host).contents(r),
{
    proof {
        assert(slot_topics(3, seq![Some(topic1), Some(topic2), Some(topic3), None]) =~= seq![
            *topic1,
            *topic2,
            *topic3,
        ]);
    }
    host.log(data, 3, Some(topic1), Some(topic2), Some(topic3), None);
}

/// Appends a log record with four topics.
pub fn log4<H: Host>(
    host: &mut H,
    data: &[u8],
    topic1: &LogTopic,
    topic2: &LogTopic,
    topic3: &LogTopic,
    topic4: &LogTopic,
)
    ensures
        final(host).log_records() == old(host).log_records().push(
            (data@, seq![*topic1, *topic2, *topic3, *topic4]),
        ),
        forall|r: Resource| #[trigger] final(host).contents(r) == old(host).contents(r),
{
    proof {
        assert(slot_topics(
            4,
            seq![Some(topic1), Some(topic2), Some(topic3), Some(topic4)],
        ) =~= seq![*topic1, *topic2, *topic3, *topic4]);
    }
    host.log(data, 4, Some(topic1), Some(topic2), Some(topic3), Some(topic4));
}

} // verus!
