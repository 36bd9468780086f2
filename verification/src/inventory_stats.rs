//! The latest inventory statistics of buckets.
use vstd::prelude::*;
use vstd::string::*;

use crate::bucket::Bucket;
use crate::errors::{RequestError, StorageReportError};
use crate::sorted_map;
use crate::sorted_map::{Entry, SortedMap};

verus! {

/// What came of the attempt to read the statistics of a bucket.
#[derive(Debug)]
pub enum StatsReply<T> {
    /// Whether there are any could not be found out, or they could not be read.
    Unreadable(RequestError),
    /// There are none.
    Missing,
    /// They could not be decoded.
    Malformed(String),
    /// They were decoded.
    Decoded(T),
}

/// What comes of the attempt to read statistics: whether there are any, and where there are,
/// how reading and decoding them ended.
pub open spec fn reply_of<T>(
    exists: Result<bool, RequestError>,
    download: Result<Result<T, String>, RequestError>,
) -> StatsReply<T> {
    match exists {
        Err(e) => StatsReply::Unreadable(e),
        Ok(present) => if !present {
            StatsReply::Missing
        } else {
            match download {
                Err(e) => StatsReply::Unreadable(e),
                Ok(Err(message)) => StatsReply::Malformed(message),
                Ok(Ok(value)) => StatsReply::Decoded(value),
            }
        },
    }
}

/// What comes of the attempt to read statistics.
pub fn stats_reply<T>(
    exists: Result<bool, RequestError>,
    download: Result<Result<T, String>, RequestError>,
) -> (r: StatsReply<T>)
    ensures
        r == reply_of(exists, download),
{
    match exists {
        Err(e) => StatsReply::Unreadable(e),
        Ok(present) => {
            if !present {
                return StatsReply::Missing;
            }
            match download {
                Err(e) => StatsReply::Unreadable(e),
                Ok(Err(message)) => StatsReply::Malformed(message),
                Ok(Ok(value)) => StatsReply::Decoded(value),
            }
        },
    }
}

impl<T> StatsReply<T> {
    /// Whether the statistics could not be read.
    pub open spec fn failed(self) -> bool {
        self is Unreadable || self is Malformed
    }

    /// Whether the statistics could not be read, so that no others need to be.
    pub fn is_failure(&self) -> (r: bool)
        ensures
            r == self.failed(),
    {
        match self {
            StatsReply::Unreadable(_) => true,
            StatsReply::Malformed(_) => true,
            StatsReply::Missing => false,
            StatsReply::Decoded(_) => false,
        }
    }
}

/// A bucket and what came of the attempt to read its statistics.
#[derive(Debug)]
pub struct BucketStats<T> {
    pub bucket: Bucket,
    pub reply: StatsReply<T>,
}

/// The statistics by the names of the buckets. Buckets without any are left out, the first
/// that could not be read stands for all.
pub open spec fn collected<T>(replies: Seq<BucketStats<T>>) -> Result<
    Map<Seq<char>, T>,
    BucketStats<T>,
>
    decreases replies.len(),
{
    if replies.len() == 0 {
        Ok(Map::empty())
    } else {
        match collected(replies.drop_last()) {
            Err(failed) => Err(failed),
            Ok(stats) => match replies.last().reply {
                StatsReply::Missing => Ok(stats),
                StatsReply::Decoded(value) => Ok(
                    stats.insert(replies.last().bucket@.name, value),
                ),
                _ => Err(replies.last()),
            },
        }
    }
}

/// Whether `e` says why the statistics of a bucket could not be read.
pub open spec fn explains<T>(e: StorageReportError, failed: BucketStats<T>) -> bool {
    match failed.reply {
        StatsReply::Unreadable(source) => e matches StorageReportError::DownloadStats {
            bucket,
            source: error,
        } && bucket@ == failed.bucket@.name && error == source,
        StatsReply::Malformed(source) => e matches StorageReportError::ParseStats {
            bucket,
            source: error,
        } && bucket@ == failed.bucket@.name && error == source,
        _ => false,
    }
}

proof fn lemma_collected_error<T>(replies: Seq<BucketStats<T>>, n: int)
    requires
        0 <= n <= replies.len(),
        collected(replies.take(n)) is Err,
    ensures
        collected(replies) == collected(replies.take(n)),
    decreases replies.len() - n,
{
    if n < replies.len() {
        assert(replies.take(n + 1).drop_last() =~= replies.take(n));
        lemma_collected_error(replies, n + 1);
    } else {
        assert(replies.take(n) =~= replies);
    }
}

/// What is behind the first bucket whose statistics could not be read has no influence.
pub proof fn collection_ends_with_the_first_failure<T>(replies: Seq<BucketStats<T>>, n: int)
    requires
        0 <= n < replies.len(),
        replies[n].reply.failed(),
    ensures
        collected(replies) == collected(replies.take(n + 1)),
        collected(replies) is Err,
{
    assert(replies.take(n + 1).last() == replies[n]);
    lemma_collected_error(replies, n + 1);
}

/// The latest inventory statistics of every bucket that has any, in the order of their names.
pub fn fetch_latest_inventory_stats<T>(replies: Vec<BucketStats<T>>) -> (r: Result<
    Vec<Entry<T>>,
    StorageReportError,
>)
    ensures
        match collected(replies@) {
            Ok(stats) => r matches Ok(entries) && sorted_map::keys_ascend(entries@)
                && sorted_map::as_map(entries@) == stats,
            Err(failed) => r matches Err(e) && explains(e, failed),
        },
{
    let ghost all = replies@;
    let ghost mut n: int = 0;
    let mut rest = replies;
    let mut stats: SortedMap<T> = SortedMap::new();
    assert(all.skip(0) =~= all);
    while rest.len() > 0
        invariant
            all == replies@,
            0 <= n <= all.len(),
            rest@ == all.skip(n),
            collected(all.take(n)) == Ok::<Map<Seq<char>, T>, BucketStats<T>>(stats@),
        decreases rest@.len(),
    {
        let next = rest.remove(0);
        proof {
            assert(next == all[n]);
            assert(all.take(n + 1).drop_last() =~= all.take(n));
            assert(all.take(n + 1).last() == next);
            assert(all.skip(n).remove(0) =~= all.skip(n + 1));
            n = n + 1;
        }
        let bucket_name = String::from_str(next.bucket.name());
        match next.reply {
            StatsReply::Missing => {},
            StatsReply::Decoded(value) => {
                stats.insert(bucket_name, value);
            },
            StatsReply::Unreadable(source) => {
                proof {
                    lemma_collected_error(all, n);
                }
                return Err(StorageReportError::DownloadStats { bucket: bucket_name, source });
            },
            StatsReply::Malformed(source) => {
                proof {
                    lemma_collected_error(all, n);
                }
                return Err(StorageReportError::ParseStats { bucket: bucket_name, source });
            },
        }
    }
    assert(all.take(n) =~= all);
    Ok(stats.into_entries())
}

/// What is told of the statistics of a bucket: a question that failed and a download that failed
/// are unreadable with that error, an object that is not there is missing whatever the download
/// would give, and one that is there is what its decoding gave.
pub proof fn reply_tells_how_far_the_reading_got<T>(
    present: Result<bool, RequestError>,
    download: Result<Result<T, String>, RequestError>,
)
    ensures
        present is Err ==> reply_of(present, download) == StatsReply::<T>::Unreadable(
            present->Err_0,
        ),
        reply_of(present, download) is Missing <==> present == Ok::<bool, RequestError>(false),
        present == Ok::<bool, RequestError>(true) && download is Err ==> reply_of(present, download)
            == StatsReply::<T>::Unreadable(download->Err_0),
        present == Ok::<bool, RequestError>(true) && download is Ok && download->Ok_0 is Err
            ==> reply_of(present, download) == StatsReply::<T>::Malformed(download->Ok_0->Err_0),
        present == Ok::<bool, RequestError>(true) && download is Ok && download->Ok_0 is Ok
            ==> reply_of(present, download) == StatsReply::<T>::Decoded(download->Ok_0->Ok_0),
        reply_of(present, download).failed() <==> present is Err || (present->Ok_0 && (
        download is Err || download->Ok_0 is Err)),
{
}

/// Whether statistics are there or not, the collection succeeds where none failed to be read.
pub proof fn collection_succeeds_where_nothing_failed<T>(replies: Seq<BucketStats<T>>)
    requires
        forall|i: int|
            0 <= i < replies.len() ==> (#[trigger] replies[i]).reply is Missing
                || replies[i].reply is Decoded,
    ensures
        collected(replies) is Ok,
    decreases replies.len(),
{
    if replies.len() > 0 {
        let rest = replies.drop_last();
        assert forall|i: int| 0 <= i < rest.len() implies (#[trigger] rest[i]).reply is Missing
            || rest[i].reply is Decoded by {
            assert(rest[i] == replies[i]);
        }
        collection_succeeds_where_nothing_failed(rest);
        assert(replies.last() == replies[replies.len() - 1]);
    }
}

/// A name is in the collection exactly where a bucket of that name has statistics: those without
/// any take nothing away.
pub proof fn collection_has_every_name_with_statistics<T>(
    replies: Seq<BucketStats<T>>,
    name: Seq<char>,
)
    requires
        collected(replies) is Ok,
    ensures
        collected(replies)->Ok_0.contains_key(name) <==> exists|i: int|
            0 <= i < replies.len() && (#[trigger] replies[i]).bucket@.name == name
                && replies[i].reply is Decoded,
    decreases replies.len(),
{
    if replies.len() > 0 {
        let rest = replies.drop_last();
        collection_has_every_name_with_statistics(rest, name);
        let last = replies[replies.len() - 1];
        if collected(rest)->Ok_0.contains_key(name) {
            let i = choose|i: int|
                0 <= i < rest.len() && (#[trigger] rest[i]).bucket@.name == name
                    && rest[i].reply is Decoded;
            assert(replies[i].bucket@.name == name && replies[i].reply is Decoded);
        } else if exists|i: int|
            0 <= i < replies.len() && (#[trigger] replies[i]).bucket@.name == name
                && replies[i].reply is Decoded {
            let i = choose|i: int|
                0 <= i < replies.len() && (#[trigger] replies[i]).bucket@.name == name
                    && replies[i].reply is Decoded;
            if i < rest.len() {
                assert(rest[i].bucket@.name == name && rest[i].reply is Decoded);
            }
        }
    }
}

/// Under the name of a bucket stand the statistics that were read for it, unless others were read
/// for the same name behind it: a bucket without statistics changes nothing.
pub proof fn collection_keeps_the_last_statistics_of_a_name<T>(
    replies: Seq<BucketStats<T>>,
    i: int,
)
    requires
        collected(replies) is Ok,
        0 <= i < replies.len(),
        replies[i].reply is Decoded,
        forall|j: int|
            i < j < replies.len() && (#[trigger] replies[j]).bucket@.name
                == replies[i].bucket@.name ==> replies[j].reply is Missing,
    ensures
        collected(replies)->Ok_0.contains_key(replies[i].bucket@.name),
        collected(replies)->Ok_0[replies[i].bucket@.name] == replies[i].reply->Decoded_0,
    decreases replies.len(),
{
    let rest = replies.drop_last();
    let last = replies[replies.len() - 1];
    if i < rest.len() {
        assert forall|j: int|
            i < j < rest.len() && (#[trigger] rest[j]).bucket@.name
                == rest[i].bucket@.name implies rest[j].reply is Missing by {
            assert(rest[j] == replies[j]);
        }
        collection_keeps_the_last_statistics_of_a_name(rest, i);
        assert(last.bucket@.name == replies[i].bucket@.name ==> last.reply is Missing);
    }
}

/// The first bucket whose statistics could not be read or decoded stands for the whole
/// collection.
pub proof fn first_failure_stands_for_the_collection<T>(replies: Seq<BucketStats<T>>, k: int)
    requires
        0 <= k < replies.len(),
        replies[k].reply is Unreadable || replies[k].reply is Malformed,
        forall|i: int|
            0 <= i < k ==> (#[trigger] replies[i]).reply is Missing || replies[i].reply is Decoded,
    ensures
        collected(replies) == Err::<Map<Seq<char>, T>, BucketStats<T>>(replies[k]),
{
    let before = replies.take(k);
    assert forall|i: int| 0 <= i < before.len() implies (#[trigger] before[i]).reply is Missing
        || before[i].reply is Decoded by {
        assert(before[i] == replies[i]);
    }
    collection_succeeds_where_nothing_failed(before);
    assert(replies.take(k + 1).drop_last() =~= before);
    assert(replies.take(k + 1).last() == replies[k]);
    lemma_collected_error(replies, k + 1);
}

/// The error about a bucket names that bucket and carries what went wrong: a failed read as
/// such, statistics that could not be decoded as such.
pub proof fn explanation_names_the_bucket<T>(e: StorageReportError, failed: BucketStats<T>)
    requires
        explains(e, failed),
    ensures
        failed.reply is Unreadable ==> (e matches StorageReportError::DownloadStats { bucket, source }
            && bucket@ == failed.bucket@.name && source == failed.reply->Unreadable_0),
        failed.reply is Malformed ==> (e matches StorageReportError::ParseStats { bucket, source }
            && bucket@ == failed.bucket@.name && source == failed.reply->Malformed_0),
        failed.reply is Unreadable || failed.reply is Malformed,
{
}

} // verus!
