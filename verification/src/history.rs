use vstd::prelude::*;
use crate::host::{env_handle, log_get, log_len, log_new, log_push, log_records};
use crate::principal::Principal;

verus! {

/// One successful donation, as the history keeps it.
#[derive(Debug, PartialEq, Eq)]
pub struct DonationRecord {
    pub donor: Principal,
    pub amount: i128,
    pub timestamp: u64,
}

/// What a donation record says: who gave, how much, and when.
pub struct Donation {
    pub donor: Seq<char>,
    pub amount: int,
    pub timestamp: int,
}

impl View for DonationRecord {
    type V = Donation;

    open spec fn view(&self) -> Donation {
        Donation {
            donor: self.donor@,
            amount: self.amount as int,
            timestamp: self.timestamp as int,
        }
    }
}

impl Clone for DonationRecord {
    fn clone(&self) -> (copy: DonationRecord)
        ensures
            copy@ == self@,
    {
        DonationRecord {
            donor: self.donor.clone(),
            amount: self.amount,
            timestamp: self.timestamp,
        }
    }
}

/// What a sequence of records says, record by record.
pub open spec fn donations(records: Seq<DonationRecord>) -> Seq<Donation> {
    records.map_values(|r: DonationRecord| r@)
}

/// The index in the log of the first record of a page: the newest record
/// after `offset` newer ones were skipped. Meant for `offset < len`.
pub open spec fn page_start(len: int, offset: int) -> int {
    len - 1 - offset
}

/// The index in the log of the last record of a page that begins at `start`
/// and holds at most `limit` records.
pub open spec fn page_end(start: int, limit: int) -> int {
    if start - limit + 1 >= 0 {
        start - limit + 1
    } else {
        0
    }
}

/// A page of a log that grows at its end, newest record first: nothing where
/// the log is empty or `offset` skips all of it; otherwise the records at the
/// indices `page_start`, `page_start - 1`, down to `page_end`.
pub open spec fn page_of<T>(log: Seq<T>, limit: int, offset: int) -> Seq<T> {
    if log.len() == 0 || offset >= log.len() {
        Seq::empty()
    } else {
        let start = page_start(log.len() as int, offset);
        let end = page_end(start, limit);
        Seq::new((start - end + 1) as nat, |i: int| log[start - i])
    }
}

/// What a stored record says.
pub open spec fn donation_of(record: (Seq<char>, int, int)) -> Donation {
    Donation { donor: record.0, amount: record.1, timestamp: record.2 }
}

/// The donation history of a campaign: every successful donation, oldest
/// first. It is kept in a vector of the hosting chain, which holds up to
/// `u32::MAX` records. Its view is the sequence of what the records say.
pub struct DonationLog {
    env: soroban_sdk::Env,
    records: soroban_sdk::Vec<(soroban_sdk::String, i128, u64)>,
}

impl View for DonationLog {
    type V = Seq<Donation>;

    closed spec fn view(&self) -> Seq<Donation> {
        log_records(self.records).map_values(|record: (Seq<char>, int, int)| donation_of(record))
    }
}

impl DonationLog {
    /// The history without any record.
    pub fn new(env: &soroban_sdk::Env) -> (log: DonationLog)
        ensures
            log@ == Seq::<Donation>::empty(),
    {
        let log = DonationLog { env: env_handle(env), records: log_new(env) };
        assert(log@ =~= Seq::<Donation>::empty());
        log
    }

    /// A history without any record, on the chain of this one.
    pub fn cleared(&self) -> (log: DonationLog)
        ensures
            log@ == Seq::<Donation>::empty(),
    {
        DonationLog::new(&self.env)
    }

    /// The history that holds the given records in their order, where they
    /// are few enough for it.
    pub fn from_records(env: &soroban_sdk::Env, records: &Vec<DonationRecord>) -> (log: Option<
        DonationLog,
    >)
        ensures
            log is Some <==> records@.len() <= u32::MAX,
            log matches Some(l) ==> l@ == donations(records@),
    {
        if records.len() as u128 > u32::MAX as u128 {
            return None;
        }
        let mut log = DonationLog::new(env);
        let mut i: usize = 0;
        while i < records.len()
            invariant
                i <= records@.len() <= u32::MAX,
                log@ == donations(records@.take(i as int)),
            decreases records.len() - i,
        {
            log.push(&records[i]);
            proof {
                assert(donations(records@.take(i + 1)) =~= donations(records@.take(i as int)).push(
                    records@[i as int]@,
                ));
            }
            i += 1;
        }
        proof {
            assert(records@.take(i as int) =~= records@);
        }
        Some(log)
    }

    /// The number of records.
    pub fn len(&self) -> (len: u32)
        ensures
            len == self@.len(),
    {
        log_len(&self.records)
    }

    /// The record at a position, counted from the oldest, if there is one.
    pub fn get(&self, position: u32) -> (record: Option<DonationRecord>)
        ensures
            record is Some <==> position < self@.len(),
            record matches Some(r) ==> r@ == self@[position as int],
    {
        match log_get(&self.records, position) {
            Some((donor, amount, timestamp)) => Some(
                DonationRecord { donor: Principal::new(donor.as_str()), amount, timestamp },
            ),
            None => None,
        }
    }

    /// Adds a record at the end.
    pub fn push(&mut self, record: &DonationRecord)
        requires
            old(self)@.len() < u32::MAX,
        ensures
            final(self)@ == old(self)@.push(record@),
    {
        log_push(&mut self.records, record.donor.key(), record.amount, record.timestamp);
        proof {
            assert(self@ =~= old(self)@.push(record@));
        }
    }

    /// All records, oldest first.
    pub fn to_records(&self) -> (records: Vec<DonationRecord>)
        ensures
            donations(records@) == self@,
            records@.len() <= u32::MAX,
    {
        let len = self.len();
        let mut records: Vec<DonationRecord> = Vec::new();
        let mut i: u32 = 0;
        while i < len
            invariant
                i <= len == self@.len(),
                records@.len() == i,
                forall|k: int| 0 <= k < i ==> (#[trigger] records@[k])@ == self@[k],
            decreases len - i,
        {
            match self.get(i) {
                Some(record) => {
                    records.push(record);
                },
                None => {},
            }
            i += 1;
        }
        proof {
            assert(donations(records@) =~= self@);
        }
        records
    }

    /// The page that `limit` and `offset` select, newest record first.
    pub fn page(&self, limit: u32, offset: u32) -> (page: Vec<DonationRecord>)
        ensures
            donations(page@) == page_of(self@, limit as int, offset as int),
    {
        let len = self.len();
        let mut page: Vec<DonationRecord> = Vec::new();
        if len == 0 || offset >= len {
            assert(donations(page@) =~= page_of(self@, limit as int, offset as int));
            return page;
        }
        let start: u32 = len - 1 - offset;
        let end: u32 = if start >= limit {
            start - limit + 1
        } else {
            0
        };
        let mut next: u32 = start + 1;
        while next > end
            invariant
                end <= next <= start + 1,
                start < self@.len(),
                page@.len() == start + 1 - next,
                forall|k: int| 0 <= k < page@.len() ==> (#[trigger] page@[k])@ == self@[start - k],
            decreases next,
        {
            next -= 1;
            match self.get(next) {
                Some(record) => {
                    page.push(record);
                },
                None => {},
            }
        }
        assert(donations(page@) =~= page_of(self@, limit as int, offset as int));
        page
    }
}

} // verus!
