use vstd::prelude::*;
use crate::error::{CampaignError, ErrorKind};
use crate::history::{page_of, Donation};
use crate::ledger::{
    ledger_ok,
    ledger_sum,
    lemma_balance_within_sum,
    lemma_sum_insert,
};
use crate::model::{Call, Campaign, MIN_DONATION};

verus! {

/// A campaign that was never opened is well-formed: it holds nothing and
/// owes nothing.
pub proof fn law_unopened_is_balanced()
    ensures
        Campaign::blank().wf(),
{
    assert(Map::<Seq<char>, int>::empty().dom() =~= Set::<Seq<char>>::empty());
}

/// A campaign that was just opened is well-formed: it holds nothing and owes
/// nothing.
pub proof fn law_opened_is_balanced(
    owner: Seq<char>,
    title: Seq<char>,
    description: Seq<char>,
    goal: int,
    deadline: int,
    category: Seq<char>,
    asset_token: Seq<char>,
    now: int,
)
    requires
        Campaign::initialize_error(goal, deadline, now, true) is None,
    ensures
        Campaign::opened(owner, title, description, goal, deadline, category, asset_token, now).wf(),
{
    assert(Map::<Seq<char>, int>::empty().dom() =~= Set::<Seq<char>>::empty());
}

/// A call of `donate` keeps a campaign well-formed: afterwards the raised
/// total is again the sum of what the donors have outstanding.
pub proof fn law_donate_keeps_balance(
    before: Campaign,
    donor: Seq<char>,
    amount: int,
    now: int,
    authorized: bool,
    transferred: bool,
)
    requires
        before.wf(),
    ensures
        before.after_donate(donor, amount, now, authorized, transferred).wf(),
{
    if before.donate_result(amount, now, authorized, transferred) is Ok {
        let after = before.with_donation(donor, amount, now);
        lemma_balance_within_sum(before.ledger, donor);
        lemma_sum_insert(before.ledger, donor, before.donation_of(donor) + amount);
        assert(ledger_ok(after.ledger));
    }
}

/// A call of `withdraw` keeps a campaign well-formed.
pub proof fn law_withdraw_keeps_balance(
    before: Campaign,
    caller: Seq<char>,
    now: int,
    authorized: bool,
    transferred: bool,
)
    requires
        before.wf(),
    ensures
        before.after_withdraw(caller, now, authorized, transferred).wf(),
{
}

/// A call of `refund` keeps a campaign well-formed: the raised total falls by
/// exactly what the donor had outstanding.
pub proof fn law_refund_keeps_balance(
    before: Campaign,
    donor: Seq<char>,
    now: int,
    authorized: bool,
    transferred: bool,
)
    requires
        before.wf(),
    ensures
        before.after_refund(donor, now, authorized, transferred).wf(),
{
    if before.refund_result(donor, now, authorized, transferred) is Ok {
        let after = before.with_refund(donor);
        lemma_sum_insert(before.ledger, donor, 0);
        assert(ledger_ok(after.ledger));
    }
}

/// After a successful donation the donor has outstanding what it had before
/// plus the amount given, every other donor has what it had, and the raised
/// total has grown by the amount.
pub proof fn law_donation_is_recorded(
    before: Campaign,
    donor: Seq<char>,
    amount: int,
    now: int,
    authorized: bool,
    transferred: bool,
)
    requires
        before.donate_result(amount, now, authorized, transferred) is Ok,
    ensures
        ({
            let after = before.after_donate(donor, amount, now, authorized, transferred);
            &&& after.donation_of(donor) == before.donation_of(donor) + amount
            &&& forall|other: Seq<char>|
                other != donor ==> #[trigger] after.donation_of(other) == before.donation_of(other)
            &&& after.total_raised == before.total_raised + amount
            &&& after.history == before.history.push(Donation { donor, amount, timestamp: now })
        }),
{
}

/// A donor is refunded once: right after a successful refund the donor has
/// nothing outstanding, and a further refund to that donor fails, whenever it
/// is asked for, with an error about the campaign's state and changes nothing.
pub proof fn law_refund_only_once(
    before: Campaign,
    donor: Seq<char>,
    now: int,
    later: int,
    transferred: bool,
    transferred_again: bool,
)
    requires
        before.refund_result(donor, now, true, transferred) is Ok,
    ensures
        ({
            let after = before.after_refund(donor, now, true, transferred);
            let again = after.refund_result(donor, later, true, transferred_again);
            &&& after.donation_of(donor) == 0
            &&& after.total_raised == before.total_raised - before.donation_of(donor)
            &&& again is Err
            &&& again->Err_0.kind_of() == ErrorKind::State
            &&& after.after_refund(donor, later, true, transferred_again) == after
        }),
{
}

/// The funds are withdrawn once: after a successful withdrawal a further one,
/// asked for by the owner at the same or a later time, fails because the funds
/// were already withdrawn, and changes nothing.
pub proof fn law_withdraw_only_once(
    before: Campaign,
    caller: Seq<char>,
    now: int,
    later: int,
    transferred: bool,
    transferred_again: bool,
)
    requires
        before.withdraw_result(caller, now, true, transferred) is Ok,
        now <= later,
    ensures
        ({
            let after = before.after_withdraw(caller, now, true, transferred);
            let again = after.withdraw_result(caller, later, true, transferred_again);
            &&& after.withdrawn
            &&& after.total_raised == before.total_raised
            &&& again == Err::<int, CampaignError>(CampaignError::AlreadyWithdrawn)
            &&& again->Err_0.kind_of() == ErrorKind::State
            &&& after.after_withdraw(caller, later, true, transferred_again) == after
        }),
{
}

/// Withdrawal and refund exclude each other: in no state of a campaign can
/// both a withdrawal and a refund go through, and once the funds were
/// withdrawn no refund goes through.
pub proof fn law_withdraw_excludes_refund(
    campaign: Campaign,
    caller: Seq<char>,
    donor: Seq<char>,
    withdraw_at: int,
    refund_at: int,
    authorized: bool,
)
    requires
        campaign.wf(),
    ensures
        !(campaign.withdraw_error(caller, withdraw_at, authorized) is None
            && campaign.refund_error(donor, refund_at, authorized) is None),
        campaign.withdrawn ==> campaign.refund_error(donor, refund_at, authorized) is Some,
{
}

/// What the donors have outstanding is what the campaign holds: no donor has
/// more outstanding than the raised total, and nobody less than nothing.
pub proof fn law_donation_within_total(campaign: Campaign, donor: Seq<char>)
    requires
        campaign.wf(),
    ensures
        0 <= campaign.donation_of(donor) <= campaign.total_raised,
        campaign.total_raised == ledger_sum(campaign.ledger),
{
    lemma_balance_within_sum(campaign.ledger, donor);
}

/// The smallest donation a campaign takes is `MIN_DONATION`: a donation that
/// is otherwise in order goes through exactly if it is at least that much.
pub proof fn law_minimum_donation(campaign: Campaign, amount: int, now: int)
    requires
        campaign.initialized,
        !campaign.is_ended(now),
        !campaign.withdrawn,
        campaign.total_raised + amount <= i128::MAX,
    ensures
        campaign.donate_result(amount, now, true, true) is Ok <==> amount >= MIN_DONATION,
        amount < MIN_DONATION ==> campaign.donate_result(amount, now, true, true) == Err::<
            (),
            CampaignError,
        >(CampaignError::DonationTooSmall),
{
}

/// A failed transfer is reported as such: a donation that meets every
/// condition of the campaign and whose funds the asset ledger did not move
/// fails with `TransferFailed` and changes nothing, whatever the totals are.
/// `TotalOverflow` is the answer only where the funds have moved.
pub proof fn law_failed_transfer_is_reported(
    campaign: Campaign,
    donor: Seq<char>,
    amount: int,
    now: int,
    authorized: bool,
    transferred: bool,
)
    ensures
        campaign.initialized && !campaign.is_ended(now) && !campaign.withdrawn && amount
            >= MIN_DONATION ==> campaign.donate_result(amount, now, true, false) == Err::<
            (),
            CampaignError,
        >(CampaignError::TransferFailed) && campaign.after_donate(donor, amount, now, true, false)
            == campaign,
        campaign.donate_result(amount, now, authorized, transferred) == Err::<(), CampaignError>(
            CampaignError::TotalOverflow,
        ) ==> transferred && campaign.total_raised + amount > i128::MAX,
{
}

/// A withdrawal goes through only after the deadline and only from a reached
/// goal, and then it pays out all that was raised.
pub proof fn law_withdraw_is_gated(
    campaign: Campaign,
    caller: Seq<char>,
    now: int,
    authorized: bool,
    transferred: bool,
)
    ensures
        campaign.withdraw_result(caller, now, authorized, transferred) is Ok ==> {
            &&& now > campaign.deadline
            &&& campaign.total_raised >= campaign.goal
            &&& !campaign.withdrawn
            &&& caller == campaign.owner
            &&& campaign.withdraw_result(caller, now, authorized, transferred) == Ok::<
                int,
                CampaignError,
            >(campaign.total_raised)
        },
        authorized && campaign.initialized && caller == campaign.owner && now <= campaign.deadline
            ==> campaign.withdraw_result(caller, now, authorized, transferred) == Err::<
            int,
            CampaignError,
        >(CampaignError::CampaignNotEnded),
        authorized && campaign.initialized && caller == campaign.owner && now > campaign.deadline
            && campaign.total_raised < campaign.goal ==> campaign.withdraw_result(
            caller,
            now,
            authorized,
            transferred,
        ) == Err::<int, CampaignError>(CampaignError::GoalNotReached),
{
}

/// Whatever is called, a well-formed campaign stays well-formed.
pub proof fn law_call_keeps_balance(before: Campaign, call: Call)
    requires
        before.wf(),
    ensures
        before.after(call).wf(),
{
    match call {
        Call::Initialize {
            owner,
            title,
            description,
            goal,
            deadline,
            category,
            asset_token,
            now,
            authorized,
        } => {
            if Campaign::initialize_error(goal, deadline, now, authorized) is None {
                law_opened_is_balanced(
                    owner,
                    title,
                    description,
                    goal,
                    deadline,
                    category,
                    asset_token,
                    now,
                );
            }
        },
        Call::Donate { donor, amount, now, authorized, transferred } => {
            law_donate_keeps_balance(before, donor, amount, now, authorized, transferred);
        },
        Call::Withdraw { caller, now, authorized, transferred } => {
            law_withdraw_keeps_balance(before, caller, now, authorized, transferred);
        },
        Call::Refund { donor, now, authorized, transferred } => {
            law_refund_keeps_balance(before, donor, now, authorized, transferred);
        },
    }
}

/// Funds are conserved: after any sequence of calls on a campaign that
/// starts out unopened, and after every step of it, the raised total is the
/// sum of what the donors have outstanding.
pub proof fn law_funds_are_conserved(calls: Seq<Call>)
    ensures
        Campaign::blank().after_all(calls).wf(),
        Campaign::blank().after_all(calls).total_raised == ledger_sum(
            Campaign::blank().after_all(calls).ledger,
        ),
        forall|n: int|
            0 <= n <= calls.len() ==> (#[trigger] Campaign::blank().after_all(
                calls.take(n),
            )).total_raised == ledger_sum(Campaign::blank().after_all(calls.take(n)).ledger),
{
    law_unopened_is_balanced();
    law_calls_keep_balance(Campaign::blank(), calls);
    assert forall|n: int| 0 <= n <= calls.len() implies (#[trigger] Campaign::blank().after_all(
        calls.take(n),
    )).total_raised == ledger_sum(Campaign::blank().after_all(calls.take(n)).ledger) by {
        law_calls_keep_balance(Campaign::blank(), calls.take(n));
    }
}

/// Whatever sequence of calls is made, a well-formed campaign stays
/// well-formed.
pub proof fn law_calls_keep_balance(before: Campaign, calls: Seq<Call>)
    requires
        before.wf(),
    ensures
        before.after_all(calls).wf(),
    decreases calls.len(),
{
    if calls.len() > 0 {
        law_calls_keep_balance(before, calls.drop_last());
        law_call_keeps_balance(before.after_all(calls.drop_last()), calls.last());
    }
}

/// No call among them opens the campaign anew or refunds a donor.
pub open spec fn only_donations_and_withdrawals(calls: Seq<Call>) -> bool {
    forall|i: int|
        0 <= i < calls.len() ==> (#[trigger] calls[i]) is Donate || calls[i] is Withdraw
}

/// Donations add up: as long as nothing is refunded and the campaign is not
/// opened anew, what a donor has outstanding is what it had plus all its
/// successful donations since, and the raised total is what it was plus all
/// successful donations since. The history has grown by no other records.
pub proof fn law_donations_accumulate(before: Campaign, calls: Seq<Call>, donor: Seq<char>)
    requires
        only_donations_and_withdrawals(calls),
    ensures
        before.after_all(calls).donation_of(donor) == before.donation_of(donor) + before.donated(
            calls,
            Some(donor),
        ),
        before.after_all(calls).total_raised == before.total_raised + before.donated(calls, None),
        before.history.is_prefix_of(before.after_all(calls).history),
    decreases calls.len(),
{
    if calls.len() > 0 {
        let earlier = calls.drop_last();
        assert(only_donations_and_withdrawals(earlier)) by {
            assert forall|i: int| 0 <= i < earlier.len() implies (#[trigger] earlier[i]) is Donate
                || earlier[i] is Withdraw by {
                assert(earlier[i] == calls[i]);
            }
        }
        law_donations_accumulate(before, earlier, donor);
        assert(calls[calls.len() - 1] is Donate || calls[calls.len() - 1] is Withdraw);
    }
}

/// No call among them opens the campaign anew.
pub open spec fn never_reopened(calls: Seq<Call>) -> bool {
    forall|i: int| 0 <= i < calls.len() ==> !((#[trigger] calls[i]) is Initialize)
}

/// The raised total is what came in less what went back: as long as the
/// campaign is not opened anew, it is what it was plus all successful
/// donations since, less all successful refunds since. A withdrawal leaves
/// it as it is.
pub proof fn law_total_is_donations_less_refunds(before: Campaign, calls: Seq<Call>)
    requires
        never_reopened(calls),
    ensures
        before.after_all(calls).total_raised == before.total_raised + before.donated(calls, None)
            - before.refunded(calls),
    decreases calls.len(),
{
    if calls.len() > 0 {
        let earlier = calls.drop_last();
        assert(never_reopened(earlier)) by {
            assert forall|i: int| 0 <= i < earlier.len() implies !((#[trigger] earlier[i])
                is Initialize) by {
                assert(earlier[i] == calls[i]);
            }
        }
        law_total_is_donations_less_refunds(before, earlier);
        assert(!(calls[calls.len() - 1] is Initialize));
    }
}

/// The history only grows: no call but one that opens the campaign anew
/// removes or changes a record, and only a successful donation adds one.
pub proof fn law_history_only_grows(before: Campaign, call: Call)
    requires
        !(call is Initialize),
    ensures
        before.history.is_prefix_of(before.after(call).history),
        before.after(call).history.len() <= before.history.len() + 1,
        before.after(call).history.len() == before.history.len() + 1 ==> call is Donate,
{
}

/// No call is made at an earlier time than a call before it.
pub open spec fn clock_advances(calls: Seq<Call>) -> bool {
    forall|i: int, j: int|
        0 <= i <= j < calls.len() ==> (#[trigger] calls[i]).at() <= (#[trigger] calls[j]).at()
}

/// No record carries an earlier time than a record before it.
pub open spec fn chronological(history: Seq<Donation>) -> bool {
    forall|i: int, j: int|
        0 <= i <= j < history.len() ==> (#[trigger] history[i]).timestamp <= (
        #[trigger] history[j]).timestamp
}

/// Where the clock never runs backwards between calls, the history is in the
/// order of time, and no record is later than the last call.
pub proof fn law_history_is_chronological(calls: Seq<Call>)
    requires
        clock_advances(calls),
    ensures
        chronological(Campaign::blank().after_all(calls).history),
        forall|k: int|
            0 <= k < Campaign::blank().after_all(calls).history.len() ==> calls.len() > 0 && (
            #[trigger] Campaign::blank().after_all(calls).history[k]).timestamp
                <= calls.last().at(),
    decreases calls.len(),
{
    if calls.len() > 0 {
        let earlier = calls.drop_last();
        assert(clock_advances(earlier)) by {
            assert forall|i: int, j: int| 0 <= i <= j < earlier.len() implies (
            #[trigger] earlier[i]).at() <= (#[trigger] earlier[j]).at() by {
                assert(calls[i].at() <= calls[j].at());
            }
        }
        law_history_is_chronological(earlier);
        let before = Campaign::blank().after_all(earlier);
        let after = Campaign::blank().after_all(calls);
        assert(after == before.after(calls.last()));
        if earlier.len() > 0 {
            assert(calls[earlier.len() - 1].at() <= calls[calls.len() - 1].at());
            assert(earlier.last() == calls[earlier.len() - 1]);
        }
        assert forall|k: int| 0 <= k < after.history.len() implies (#[trigger] after.history[k]).timestamp
            <= calls.last().at() by {
            if k < before.history.len() && after.history[k] == before.history[k] {
                assert(before.history[k].timestamp <= earlier.last().at());
            }
        }
        assert forall|i: int, j: int| 0 <= i <= j < after.history.len() implies (
        #[trigger] after.history[i]).timestamp <= (#[trigger] after.history[j]).timestamp by {
            if j < before.history.len() && after.history == before.history {
                assert(before.history[i].timestamp <= before.history[j].timestamp);
            } else if after.history.len() == before.history.len() + 1 {
                if j < before.history.len() {
                    assert(before.history[i].timestamp <= before.history[j].timestamp);
                } else if i < before.history.len() {
                    assert(before.history[i].timestamp <= earlier.last().at());
                }
            }
        }
    }
}

/// A page holds `limit` records, or fewer where the log runs out, and its
/// first record is the newest that was not skipped.
pub proof fn law_page_length<T>(log: Seq<T>, limit: int, offset: int)
    requires
        0 <= limit,
        0 <= offset,
    ensures
        page_of(log, limit, offset).len() == if offset >= log.len() {
            0
        } else if limit <= log.len() - offset {
            limit
        } else {
            log.len() - offset
        },
        page_of(log, limit, offset).len() > 0 ==> page_of(log, limit, offset)[0] == log[log.len()
            - 1 - offset],
{
}

/// What describes a campaign is fixed when it is opened: no donation,
/// withdrawal or refund changes its title, description, category, owner,
/// asset ledger, goal, deadline or time of creation, nor closes it again.
pub proof fn law_description_is_fixed(before: Campaign, call: Call)
    requires
        !(call is Initialize),
    ensures
        ({
            let after = before.after(call);
            &&& after.initialized == before.initialized
            &&& after.title == before.title
            &&& after.description == before.description
            &&& after.category == before.category
            &&& after.owner == before.owner
            &&& after.asset_token == before.asset_token
            &&& after.goal == before.goal
            &&& after.deadline == before.deadline
            &&& after.created_at == before.created_at
        }),
{
}

/// Funds that were withdrawn stay withdrawn: no donation, withdrawal or
/// refund takes the mark back, and one that comes after the deadline leaves
/// the campaign as it is.
pub proof fn law_withdrawn_is_final(before: Campaign, call: Call)
    requires
        before.wf(),
        before.withdrawn,
        !(call is Initialize),
    ensures
        before.after(call).withdrawn,
        call.at() > before.deadline ==> before.after(call) == before,
{
}

} // verus!
