use vstd::prelude::*;
use crate::host::{env_handle, ledger_lines, lines_entries, lines_get, lines_new, lines_set};
use crate::principal::Principal;

verus! {

/// What a donor has outstanding in a ledger: the recorded amount, or nothing
/// for a donor the ledger has never seen.
pub open spec fn balance_of(ledger: Map<Seq<char>, int>, donor: Seq<char>) -> int {
    if ledger.contains_key(donor) {
        ledger[donor]
    } else {
        0
    }
}

/// The ledger without any donor.
pub open spec fn empty_ledger() -> Map<Seq<char>, int> {
    Map::empty()
}

/// The sum of all amounts recorded in a finite ledger.
pub open spec fn ledger_sum(ledger: Map<Seq<char>, int>) -> int
    decreases ledger.dom().len(),
    when ledger.dom().finite()
{
    if ledger.dom().len() == 0 {
        0
    } else {
        let donor = ledger.dom().choose();
        ledger[donor] + ledger_sum(ledger.remove(donor))
    }
}

/// A ledger that a campaign can hold: finitely many donors, and no donor in
/// debt.
pub open spec fn ledger_ok(ledger: Map<Seq<char>, int>) -> bool {
    &&& ledger.dom().finite()
    &&& forall|d: Seq<char>| ledger.contains_key(d) ==> 0 <= #[trigger] ledger[d]
}

/// The sum of a ledger can be taken starting from any of its donors.
pub proof fn lemma_sum_split(ledger: Map<Seq<char>, int>, donor: Seq<char>)
    requires
        ledger.dom().finite(),
        ledger.contains_key(donor),
    ensures
        ledger_sum(ledger) == ledger[donor] + ledger_sum(ledger.remove(donor)),
    decreases ledger.dom().len(),
{
    let first = ledger.dom().choose();
    if first != donor {
        let rest = ledger.remove(first);
        lemma_sum_split(rest, donor);
        let other = ledger.remove(donor);
        lemma_sum_split(other, first);
        assert(rest.remove(donor) =~= other.remove(first));
    }
}

/// Recording a new amount for one donor changes the sum by the difference to
/// what that donor had before.
pub proof fn lemma_sum_insert(ledger: Map<Seq<char>, int>, donor: Seq<char>, amount: int)
    requires
        ledger.dom().finite(),
    ensures
        ledger_sum(ledger.insert(donor, amount)) == ledger_sum(ledger) - balance_of(ledger, donor)
            + amount,
{
    let after = ledger.insert(donor, amount);
    lemma_sum_split(after, donor);
    if ledger.contains_key(donor) {
        lemma_sum_split(ledger, donor);
        assert(after.remove(donor) =~= ledger.remove(donor));
    } else {
        assert(after.remove(donor) =~= ledger);
    }
}

/// In a ledger without debts the sum is not negative.
pub proof fn lemma_sum_nonnegative(ledger: Map<Seq<char>, int>)
    requires
        ledger_ok(ledger),
    ensures
        0 <= ledger_sum(ledger),
    decreases ledger.dom().len(),
{
    if ledger.dom().len() != 0 {
        let donor = ledger.dom().choose();
        lemma_sum_nonnegative(ledger.remove(donor));
    }
}

/// In a ledger without debts no donor has more outstanding than the sum.
pub proof fn lemma_balance_within_sum(ledger: Map<Seq<char>, int>, donor: Seq<char>)
    requires
        ledger_ok(ledger),
    ensures
        0 <= balance_of(ledger, donor) <= ledger_sum(ledger),
{
    if ledger.contains_key(donor) {
        lemma_sum_split(ledger, donor);
        lemma_sum_nonnegative(ledger.remove(donor));
    } else {
        lemma_sum_nonnegative(ledger);
    }
}

/// One line of a donor ledger.
#[derive(Debug, PartialEq, Eq)]
pub struct LedgerEntry {
    pub donor: Principal,
    pub amount: i128,
}

impl Clone for LedgerEntry {
    fn clone(&self) -> (copy: LedgerEntry)
        ensures
            copy.donor@ == self.donor@,
            copy.amount == self.amount,
    {
        LedgerEntry { donor: self.donor.clone(), amount: self.amount }
    }
}

/// The mapping that a sequence of entries describes. Where a donor occurs
/// more than once, the last entry counts.
pub open spec fn entries_map(entries: Seq<LedgerEntry>) -> Map<Seq<char>, int>
    decreases entries.len(),
{
    if entries.len() == 0 {
        Map::empty()
    } else {
        entries_map(entries.drop_last()).insert(
            entries.last().donor@,
            entries.last().amount as int,
        )
    }
}

/// No donor occurs in two entries.
pub open spec fn donors_distinct(entries: Seq<LedgerEntry>) -> bool {
    forall|i: int, j: int|
        0 <= i < j < entries.len() ==> (#[trigger] entries[i]).donor@ != (
        #[trigger] entries[j]).donor@
}

/// No entry holds a negative amount.
pub open spec fn amounts_nonnegative(entries: Seq<LedgerEntry>) -> bool {
    forall|i: int| 0 <= i < entries.len() ==> 0 <= (#[trigger] entries[i]).amount
}

/// The sum of the amounts of a sequence of entries.
pub open spec fn entries_sum(entries: Seq<LedgerEntry>) -> int
    decreases entries.len(),
{
    if entries.len() == 0 {
        0
    } else {
        entries_sum(entries.drop_last()) + entries.last().amount
    }
}

/// Entries with distinct donors stay so when the last of them is left out.
pub proof fn lemma_distinct_front(entries: Seq<LedgerEntry>)
    requires
        donors_distinct(entries),
        entries.len() > 0,
    ensures
        donors_distinct(entries.drop_last()),
{
    let front = entries.drop_last();
    assert forall|a: int, b: int| 0 <= a < b < front.len() implies (#[trigger] front[a]).donor@ != (
    #[trigger] front[b]).donor@ by {
        assert(entries[a].donor@ != entries[b].donor@);
    }
}

/// The mapping of a sequence of entries has exactly their donors as keys.
pub proof fn lemma_entries_map_keys(entries: Seq<LedgerEntry>)
    ensures
        entries_map(entries).dom().finite(),
        forall|d: Seq<char>| #[trigger]
            entries_map(entries).contains_key(d) <==> exists|i: int|
                0 <= i < entries.len() && (#[trigger] entries[i]).donor@ == d,
    decreases entries.len(),
{
    if entries.len() > 0 {
        let front = entries.drop_last();
        lemma_entries_map_keys(front);
        assert forall|d: Seq<char>| #[trigger]
            entries_map(entries).contains_key(d) implies exists|i: int|
            0 <= i < entries.len() && (#[trigger] entries[i]).donor@ == d by {
            if d == entries.last().donor@ {
                assert(entries[entries.len() - 1].donor@ == d);
            } else {
                let i = choose|i: int| 0 <= i < front.len() && (#[trigger] front[i]).donor@ == d;
                assert(entries[i].donor@ == d);
            }
        }
        assert forall|d: Seq<char>|
            (exists|i: int|
                0 <= i < entries.len() && (#[trigger] entries[i]).donor@ == d) implies #[trigger]
            entries_map(entries).contains_key(d) by {
            let i = choose|i: int| 0 <= i < entries.len() && (#[trigger] entries[i]).donor@ == d;
            if i < entries.len() - 1 {
                assert(front[i].donor@ == d);
            }
        }
    }
}

/// With distinct donors, the mapping gives each donor the amount of its entry.
pub proof fn lemma_entries_map_value(entries: Seq<LedgerEntry>, i: int)
    requires
        donors_distinct(entries),
        0 <= i < entries.len(),
    ensures
        entries_map(entries).contains_key(entries[i].donor@),
        entries_map(entries)[entries[i].donor@] == entries[i].amount,
    decreases entries.len(),
{
    let front = entries.drop_last();
    if i < entries.len() - 1 {
        lemma_distinct_front(entries);
        lemma_entries_map_value(front, i);
        assert(front[i] == entries[i]);
        assert(entries[i].donor@ != entries[entries.len() - 1].donor@);
    }
}

/// With distinct donors, the sum over the mapping is the sum of the entries.
pub proof fn lemma_entries_sum(entries: Seq<LedgerEntry>)
    requires
        donors_distinct(entries),
    ensures
        ledger_sum(entries_map(entries)) == entries_sum(entries),
    decreases entries.len(),
{
    if entries.len() == 0 {
        assert(entries_map(entries).dom() =~= Set::<Seq<char>>::empty());
    } else {
        let front = entries.drop_last();
        let last = entries.last();
        lemma_distinct_front(entries);
        lemma_entries_sum(front);
        lemma_entries_map_keys(front);
        assert(!entries_map(front).contains_key(last.donor@)) by {
            if entries_map(front).contains_key(last.donor@) {
                let i = choose|i: int|
                    0 <= i < front.len() && (#[trigger] front[i]).donor@ == last.donor@;
                assert(entries[i].donor@ != entries[entries.len() - 1].donor@);
            }
        }
        lemma_sum_insert(entries_map(front), last.donor@, last.amount as int);
    }
}

/// The donor ledger of a campaign: for each donor who ever gave, what that
/// donor has outstanding. It is kept in a map of the hosting chain, under the
/// donors' keys. Its view is the mapping from donor to amount.
pub struct DonorLedger {
    env: soroban_sdk::Env,
    lines: soroban_sdk::Map<soroban_sdk::String, i128>,
}

impl View for DonorLedger {
    type V = Map<Seq<char>, int>;

    closed spec fn view(&self) -> Map<Seq<char>, int> {
        ledger_lines(self.lines)
    }
}

impl DonorLedger {
    /// Finitely many donors, none in debt, and no amount beyond what an
    /// `i128` holds.
    pub open spec fn wf(&self) -> bool {
        &&& ledger_ok(self@)
        &&& forall|d: Seq<char>| self@.contains_key(d) ==> #[trigger] self@[d] <= i128::MAX
    }

    /// What a donor has outstanding in a well-formed ledger is not negative
    /// and fits the machine's integers.
    pub proof fn lemma_view_ok(&self)
        requires
            self.wf(),
        ensures
            ledger_ok(self@),
            forall|d: Seq<char>| 0 <= #[trigger] balance_of(self@, d) <= i128::MAX,
    {
        assert forall|d: Seq<char>| 0 <= #[trigger] balance_of(self@, d) <= i128::MAX by {
            if self@.contains_key(d) {
                assert(0 <= self@[d] <= i128::MAX);
            }
        }
    }

    /// The ledger without any donor.
    pub fn new(env: &soroban_sdk::Env) -> (ledger: DonorLedger)
        ensures
            ledger.wf(),
            ledger@ == Map::<Seq<char>, int>::empty(),
    {
        let ledger = DonorLedger { env: env_handle(env), lines: lines_new(env) };
        assert(ledger@.dom() =~= Set::<Seq<char>>::empty());
        ledger
    }

    /// A ledger without any donor, on the chain of this one.
    pub fn cleared(&self) -> (ledger: DonorLedger)
        ensures
            ledger.wf(),
            ledger@ == Map::<Seq<char>, int>::empty(),
    {
        DonorLedger::new(&self.env)
    }

    /// The ledger that holds the given entries, where no donor occurs twice
    /// and no amount is negative.
    pub fn from_entries(env: &soroban_sdk::Env, entries: Vec<LedgerEntry>) -> (ledger: Option<
        DonorLedger,
    >)
        ensures
            ledger is Some <==> donors_distinct(entries@) && amounts_nonnegative(entries@),
            ledger matches Some(l) ==> l.wf() && l@ == entries_map(entries@),
    {
        let mut filled = DonorLedger::new(env);
        let mut j: usize = 0;
        assert(entries@.take(0) =~= Seq::<LedgerEntry>::empty());
        while j < entries.len()
            invariant
                j <= entries.len(),
                filled.wf(),
                filled@ == entries_map(entries@.take(j as int)),
                donors_distinct(entries@.take(j as int)),
                amounts_nonnegative(entries@.take(j as int)),
            decreases entries.len() - j,
        {
            let ghost upto = entries@.take(j as int);
            let ghost next = entries@.take(j + 1);
            proof {
                lemma_entries_map_keys(upto);
                assert(next.drop_last() =~= upto);
                assert(next.last() == entries@[j as int]);
            }
            if entries[j].amount < 0 {
                return None;
            }
            if lines_get(&filled.lines, entries[j].donor.key()).is_some() {
                proof {
                    let i = choose|i: int|
                        0 <= i < upto.len() && (#[trigger] upto[i]).donor@ == entries@[j as int].donor@;
                    assert(entries@[i].donor@ == entries@[j as int].donor@);
                }
                return None;
            }
            lines_set(&mut filled.lines, entries[j].donor.key(), entries[j].amount);
            proof {
                assert forall|a: int, b: int| 0 <= a < b < next.len() implies (#[trigger] next[a]).donor@
                    != (#[trigger] next[b]).donor@ by {
                    if b < j {
                        assert(upto[a].donor@ != upto[b].donor@);
                    } else {
                        assert(upto[a].donor@ == next[a].donor@);
                    }
                }
                assert forall|a: int| 0 <= a < next.len() implies 0 <= (#[trigger] next[a]).amount by {
                    if a < j {
                        assert(0 <= upto[a].amount);
                    }
                }
            }
            j += 1;
        }
        proof {
            assert(entries@.take(j as int) =~= entries@);
        }
        Some(filled)
    }

    /// The entries of the ledger, one for each donor who ever gave.
    pub fn to_entries(&self) -> (entries: Vec<LedgerEntry>)
        requires
            self.wf(),
        ensures
            donors_distinct(entries@),
            amounts_nonnegative(entries@),
            entries_map(entries@) == self@,
    {
        let entries = lines_entries(&self.lines);
        proof {
            assert forall|i: int| 0 <= i < entries@.len() implies 0 <= (#[trigger] entries@[i]).amount by {
                lemma_entries_map_value(entries@, i);
                assert(self@.contains_key(entries@[i].donor@));
            }
        }
        entries
    }

    /// Whether the ledger has no entry at all.
    pub fn is_empty(&self) -> (empty: bool)
        requires
            self.wf(),
        ensures
            empty == (self@ == Map::<Seq<char>, int>::empty()),
    {
        let entries = self.to_entries();
        proof {
            lemma_entries_map_keys(entries@);
            if entries@.len() > 0 {
                assert(self@.contains_key(entries@[0].donor@));
            } else {
                assert(self@ =~= Map::<Seq<char>, int>::empty());
            }
        }
        entries.len() == 0
    }

    /// The sum of all outstanding amounts, where an `i128` holds it.
    pub fn total(&self) -> (sum: Option<i128>)
        requires
            self.wf(),
        ensures
            sum is Some <==> ledger_sum(self@) <= i128::MAX,
            sum matches Some(s) ==> s == ledger_sum(self@),
    {
        let entries = self.to_entries();
        proof {
            lemma_entries_sum(entries@);
        }
        let mut sum: i128 = 0;
        let mut i: usize = 0;
        while i < entries.len()
            invariant
                amounts_nonnegative(entries@),
                i <= entries@.len(),
                0 <= sum,
                sum == entries_sum(entries@.take(i as int)),
                ledger_sum(self@) == entries_sum(entries@),
            decreases entries.len() - i,
        {
            proof {
                let upto = entries@.take(i + 1);
                assert(upto.drop_last() =~= entries@.take(i as int));
                assert(upto.last() == entries@[i as int]);
                lemma_entries_sum_grows(entries@, i + 1);
            }
            match sum.checked_add(entries[i].amount) {
                Some(next) => {
                    sum = next;
                },
                None => {
                    return None;
                },
            }
            i += 1;
        }
        proof {
            assert(entries@.take(i as int) =~= entries@);
        }
        Some(sum)
    }

    /// What the donor has outstanding: nothing for a donor who never gave.
    pub fn balance(&self, donor: &Principal) -> (amount: i128)
        ensures
            amount == balance_of(self@, donor@),
    {
        match lines_get(&self.lines, donor.key()) {
            Some(amount) => amount,
            None => 0,
        }
    }

    /// Adds an amount to what the donor has outstanding, and says whether it
    /// did: an amount below nothing, or one that would take the donor beyond
    /// what an `i128` holds, is not added.
    pub fn credit(&mut self, donor: &Principal, amount: i128) -> (credited: bool)
        requires
            old(self).wf(),
        ensures
            final(self).wf(),
            credited == (0 <= amount && balance_of(old(self)@, donor@) + amount <= i128::MAX),
            final(self)@ == if credited {
                old(self)@.insert(donor@, balance_of(old(self)@, donor@) + amount)
            } else {
                old(self)@
            },
    {
        proof {
            self.lemma_view_ok();
        }
        if amount < 0 {
            return false;
        }
        let raised = match self.balance(donor).checked_add(amount) {
            Some(raised) => raised,
            None => {
                return false;
            },
        };
        lines_set(&mut self.lines, donor.key(), raised);
        true
    }

    /// Sets what the donor has outstanding to nothing and returns what it was.
    /// The donor's entry stays in the ledger.
    pub fn settle(&mut self, donor: &Principal) -> (amount: i128)
        requires
            old(self).wf(),
        ensures
            final(self).wf(),
            amount == balance_of(old(self)@, donor@),
            final(self)@ == if old(self)@.contains_key(donor@) {
                old(self)@.insert(donor@, 0)
            } else {
                old(self)@
            },
    {
        match lines_get(&self.lines, donor.key()) {
            Some(amount) => {
                lines_set(&mut self.lines, donor.key(), 0);
                amount
            },
            None => 0,
        }
    }
}

/// The sum of a longer prefix of entries without negative amounts is not
/// smaller, and the sum of all of them is the largest.
pub proof fn lemma_entries_sum_grows(entries: Seq<LedgerEntry>, n: int)
    requires
        amounts_nonnegative(entries),
        0 <= n <= entries.len(),
    ensures
        0 <= entries_sum(entries.take(n)) <= entries_sum(entries),
    decreases entries.len() - n,
{
    if n == entries.len() {
        assert(entries.take(n) =~= entries);
        lemma_entries_sum_nonnegative(entries);
    } else {
        lemma_entries_sum_grows(entries, n + 1);
        let upto = entries.take(n + 1);
        assert(upto.drop_last() =~= entries.take(n));
        assert(upto.last() == entries[n]);
        assert(amounts_nonnegative(entries.take(n))) by {
            assert forall|a: int| 0 <= a < entries.take(n).len() implies 0 <= (
            #[trigger] entries.take(n)[a]).amount by {
                assert(entries.take(n)[a] == entries[a]);
            }
        }
        lemma_entries_sum_nonnegative(entries.take(n));
    }
}

/// The sum of entries without negative amounts is not negative.
pub proof fn lemma_entries_sum_nonnegative(entries: Seq<LedgerEntry>)
    requires
        amounts_nonnegative(entries),
    ensures
        0 <= entries_sum(entries),
    decreases entries.len(),
{
    if entries.len() > 0 {
        let front = entries.drop_last();
        assert(amounts_nonnegative(front)) by {
            assert forall|a: int| 0 <= a < front.len() implies 0 <= (#[trigger] front[a]).amount by {
                assert(front[a] == entries[a]);
            }
        }
        lemma_entries_sum_nonnegative(front);
    }
}

} // verus!
