//! Enumerations stored as integer codes in the relational store.
use vstd::prelude::*;

verus! {

/// A vote a user can cast on a result page.
#[derive(Clone, Copy, Debug, PartialEq, Eq, Structural)]
pub enum VoteType {
    /// The page was helpful.
    Like,
    /// The page was not helpful.
    Dislike,
}

impl VoteType {
    /// The integer code this vote is stored as.
    pub open spec fn spec_code(self) -> i32 {
        match self {
            VoteType::Like => 1,
            VoteType::Dislike => 2,
        }
    }

    /// The integer code this vote is stored as.
    pub fn code(self) -> (c: i32)
        ensures
            c == self.spec_code(),
    {
        match self {
            VoteType::Like => 1,
            VoteType::Dislike => 2,
        }
    }

    /// The vote stored under an integer code; exactly the codes 1 and 2 are
    /// recognized.
    pub fn try_from(value: i32) -> (r: Result<VoteType, i32>)
        ensures
            match r {
                Ok(v) => v.spec_code() == value,
                Err(e) => e == value && value != 1 && value != 2,
            },
    {
        match value {
            1 => Ok(VoteType::Like),
            2 => Ok(VoteType::Dislike),
            x => Err(x),
        }
    }
}

/// A statistic the monitor records over time.
#[derive(Clone, Copy, Debug, PartialEq, Eq, Structural, Hash)]
pub enum StatisticType {
    /// How many pages have been crawled.
    CrawledPageCount,
    /// How many pages have been indexed.
    IndexedPageCount,
    /// How many API requests have been served.
    ApiRequestCount,
    /// How many searches users have run.
    UserSearchCount,
    /// The size of the database in bytes.
    DatabaseSize,
    /// The memory used by the process.
    MemoryUsage,
    /// The CPU used by the process.
    CpuUsage,
    /// How many rows the queue holds.
    QueueSize,
    /// How many distinct words are known.
    WordCount,
    /// How many index entries exist.
    IndexesCount,
    /// How many favicons have been stored.
    FaviconsCount,
}

impl StatisticType {
    /// The integer code this statistic is stored as.
    pub open spec fn spec_code(self) -> i32 {
        match self {
            StatisticType::CrawledPageCount => 1,
            StatisticType::IndexedPageCount => 2,
            StatisticType::ApiRequestCount => 3,
            StatisticType::UserSearchCount => 4,
            StatisticType::DatabaseSize => 5,
            StatisticType::MemoryUsage => 6,
            StatisticType::CpuUsage => 7,
            StatisticType::QueueSize => 8,
            StatisticType::WordCount => 9,
            StatisticType::IndexesCount => 10,
            StatisticType::FaviconsCount => 11,
        }
    }

    /// The integer code this statistic is stored as.
    pub fn code(self) -> (c: i32)
        ensures
            c == self.spec_code(),
    {
        match self {
            StatisticType::CrawledPageCount => 1,
            StatisticType::IndexedPageCount => 2,
            StatisticType::ApiRequestCount => 3,
            StatisticType::UserSearchCount => 4,
            StatisticType::DatabaseSize => 5,
            StatisticType::MemoryUsage => 6,
            StatisticType::CpuUsage => 7,
            StatisticType::QueueSize => 8,
            StatisticType::WordCount => 9,
            StatisticType::IndexesCount => 10,
            StatisticType::FaviconsCount => 11,
        }
    }

    /// The statistic stored under an integer code; exactly the codes 1
    /// through 11 are recognized.
    pub fn try_from(value: i32) -> (r: Result<StatisticType, i32>)
        ensures
            match r {
                Ok(v) => v.spec_code() == value,
                Err(e) => e == value && !(1 <= value <= 11),
            },
    {
        match value {
            1 => Ok(StatisticType::CrawledPageCount),
            2 => Ok(StatisticType::IndexedPageCount),
            3 => Ok(StatisticType::ApiRequestCount),
            4 => Ok(StatisticType::UserSearchCount),
            5 => Ok(StatisticType::DatabaseSize),
            6 => Ok(StatisticType::MemoryUsage),
            7 => Ok(StatisticType::CpuUsage),
            8 => Ok(StatisticType::QueueSize),
            9 => Ok(StatisticType::WordCount),
            10 => Ok(StatisticType::IndexesCount),
            11 => Ok(StatisticType::FaviconsCount),
            x => Err(x),
        }
    }
}

} // verus!
