//! What holds of every run of a check, whatever the chain answers.
use vstd::prelude::*;
use crate::error::CheckError;
use crate::session::{initial_stage, reply_bool, Answer, CheckSession, Request, Stage};
use crate::transaction::{Address, Transaction};

verus! {

/// The certifier check's verdict, from the certifier's registry entry and
/// its reply to `certified(sender)`.
pub open spec fn certifier_check(entry: Option<Address>, reply: Result<Vec<u8>, String>) -> Result<bool, CheckError> {
    match entry {
        None => Err(CheckError::ConfigurationMissing),
        Some(_) => reply_bool(reply),
    }
}

/// The answers that make up the certifier check: the registry entry and,
/// where there is one, the reply to `certified(sender)`.
pub open spec fn certifier_answers(entry: Option<Address>, reply: Result<Vec<u8>, String>) -> Seq<Answer> {
    match entry {
        None => seq![Answer::Entry(None)],
        Some(c) => seq![Answer::Entry(Some(c)), Answer::Returned(reply)],
    }
}

proof fn lemma_replay_append(s: CheckSession, a: Seq<Answer>, b: Seq<Answer>)
    ensures
        s.replay(a + b) == s.replay(a).replay(b),
    decreases b.len(),
{
    if b.len() == 0 {
        assert(a + b =~= a);
    } else {
        assert((a + b).drop_last() =~= a + b.drop_last());
        lemma_replay_append(s, a, b.drop_last());
    }
}

proof fn lemma_replay_one(s: CheckSession, a: Answer)
    ensures
        s.replay(seq![a]) == s.after(a),
{
    assert(seq![a].drop_last() =~= Seq::<Answer>::empty());
    assert(s.replay(Seq::<Answer>::empty()) == s);
}

proof fn lemma_replay_two(s: CheckSession, a: Answer, b: Answer)
    ensures
        s.replay(seq![a, b]) == s.after(a).after(b),
{
    assert(seq![a, b].drop_last() =~= seq![a]);
    lemma_replay_one(s, a);
}

proof fn lemma_finished_stays(s: CheckSession, answers: Seq<Answer>)
    requires
        s.stage is Finished,
    ensures
        s.replay(answers) == s,
    decreases answers.len(),
{
    if answers.len() > 0 {
        lemma_finished_stays(s, answers.drop_last());
    }
}

proof fn lemma_certifier_answers(sender: Address, to: Address, entry: Option<Address>, reply: Result<Vec<u8>, String>)
    ensures
        ({
            let s = CheckSession::new_spec(sender, to).replay(certifier_answers(entry, reply));
            &&& s.sender == sender
            &&& s.to == to
            &&& match certifier_check(entry, reply) {
                Ok(true) => s.stage == Stage::LookUpWhitelist,
                outcome => s.stage == (Stage::Finished { outcome }),
            }
        }),
{
    let s0 = CheckSession::new_spec(sender, to);
    match entry {
        None => lemma_replay_one(s0, Answer::Entry(None)),
        Some(c) => lemma_replay_two(s0, Answer::Entry(Some(c)), Answer::Returned(reply)),
    }
}

/// A transaction with a non-zero gas price is refused, and its check asks
/// the chain nothing: its only request is to finish with `Ok(false)`, and
/// no answer changes it.
pub proof fn lemma_priced_transaction_refused(tx: Transaction, to: Address, answers: Seq<Answer>, r: Request)
    requires
        tx.gas_price.value() != 0,
    ensures
        ({
            let s = CheckSession { sender: tx.sender, to, stage: initial_stage(tx) };
            &&& s.issues(r) <==> r == (Request::Finish { outcome: Ok(false) })
            &&& s.replay(answers) == s
        }),
{
    lemma_finished_stays(CheckSession { sender: tx.sender, to, stage: initial_stage(tx) }, answers);
}

/// When the certifier check fails, the whole check fails with the same
/// error as soon as the certifier has answered: its only request then is
/// to finish, so the whitelist is never consulted, and no later answer
/// changes the outcome.
pub proof fn lemma_certifier_error_is_final(
    sender: Address,
    to: Address,
    entry: Option<Address>,
    reply: Result<Vec<u8>, String>,
    rest: Seq<Answer>,
    r: Request,
)
    requires
        certifier_check(entry, reply) is Err,
    ensures
        ({
            let start = CheckSession::new_spec(sender, to);
            let s = start.replay(certifier_answers(entry, reply));
            &&& s.stage == (Stage::Finished { outcome: certifier_check(entry, reply) })
            &&& s.issues(r) <==> r == (Request::Finish { outcome: certifier_check(entry, reply) })
            &&& start.replay(certifier_answers(entry, reply) + rest) == s
        }),
{
    let start = CheckSession::new_spec(sender, to);
    lemma_certifier_answers(sender, to, entry, reply);
    lemma_replay_append(start, certifier_answers(entry, reply), rest);
    lemma_finished_stays(start.replay(certifier_answers(entry, reply)), rest);
}

/// When the certifier does not certify the sender, the check is refused as
/// soon as the certifier has answered: its only request then is to finish,
/// so the whitelist is never consulted, and no later answer changes it.
pub proof fn lemma_uncertified_sender_refused(
    sender: Address,
    to: Address,
    entry: Option<Address>,
    reply: Result<Vec<u8>, String>,
    rest: Seq<Answer>,
    r: Request,
)
    requires
        certifier_check(entry, reply) == Ok::<bool, CheckError>(false),
    ensures
        ({
            let start = CheckSession::new_spec(sender, to);
            let s = start.replay(certifier_answers(entry, reply));
            &&& s.stage == (Stage::Finished { outcome: Ok(false) })
            &&& s.issues(r) <==> r == (Request::Finish { outcome: Ok(false) })
            &&& start.replay(certifier_answers(entry, reply) + rest) == s
        }),
{
    let start = CheckSession::new_spec(sender, to);
    lemma_certifier_answers(sender, to, entry, reply);
    lemma_replay_append(start, certifier_answers(entry, reply), rest);
    lemma_finished_stays(start.replay(certifier_answers(entry, reply)), rest);
}

/// A certified sender is permitted when the registry has no whitelist.
pub proof fn lemma_missing_whitelist_permits(
    sender: Address,
    to: Address,
    entry: Option<Address>,
    reply: Result<Vec<u8>, String>,
)
    requires
        certifier_check(entry, reply) == Ok::<bool, CheckError>(true),
    ensures
        CheckSession::new_spec(sender, to).replay(certifier_answers(entry, reply).push(Answer::Entry(None))).stage
            == (Stage::Finished { outcome: Ok(true) }),
{
    lemma_certifier_answers(sender, to, entry, reply);
    assert(certifier_answers(entry, reply).push(Answer::Entry(None)).drop_last() =~= certifier_answers(entry, reply));
}

/// A certified sender is permitted when the whitelist is not active, or
/// when asking it whether it is active fails or returns no `bool`.
pub proof fn lemma_inactive_whitelist_permits(
    sender: Address,
    to: Address,
    entry: Option<Address>,
    reply: Result<Vec<u8>, String>,
    whitelist: Address,
    activated: Result<Vec<u8>, String>,
)
    requires
        certifier_check(entry, reply) == Ok::<bool, CheckError>(true),
        reply_bool(activated) != Ok::<bool, CheckError>(true),
    ensures
        CheckSession::new_spec(sender, to).replay(certifier_answers(entry, reply)
            + seq![Answer::Entry(Some(whitelist)), Answer::Returned(activated)]).stage
            == (Stage::Finished { outcome: Ok(true) }),
{
    let start = CheckSession::new_spec(sender, to);
    let tail = seq![Answer::Entry(Some(whitelist)), Answer::Returned(activated)];
    lemma_certifier_answers(sender, to, entry, reply);
    lemma_replay_append(start, certifier_answers(entry, reply), tail);
    lemma_replay_two(start.replay(certifier_answers(entry, reply)), tail[0], tail[1]);
}

/// A certified sender facing an active whitelist gets the whitelist's
/// answer for the destination; where asking it fails or returns no
/// `bool`, the sender is permitted.
pub proof fn lemma_active_whitelist_decides(
    sender: Address,
    to: Address,
    entry: Option<Address>,
    reply: Result<Vec<u8>, String>,
    whitelist: Address,
    activated: Result<Vec<u8>, String>,
    listed: Result<Vec<u8>, String>,
)
    requires
        certifier_check(entry, reply) == Ok::<bool, CheckError>(true),
        reply_bool(activated) == Ok::<bool, CheckError>(true),
    ensures
        CheckSession::new_spec(sender, to).replay(certifier_answers(entry, reply)
            + seq![Answer::Entry(Some(whitelist)), Answer::Returned(activated), Answer::Returned(listed)]).stage
            == (Stage::Finished {
                outcome: match reply_bool(listed) {
                    Ok(b) => Ok(b),
                    Err(_) => Ok(true),
                },
            }),
{
    let start = CheckSession::new_spec(sender, to);
    let tail = seq![Answer::Entry(Some(whitelist)), Answer::Returned(activated), Answer::Returned(listed)];
    lemma_certifier_answers(sender, to, entry, reply);
    lemma_replay_append(start, certifier_answers(entry, reply), tail);
    let mid = start.replay(certifier_answers(entry, reply));
    assert(tail.drop_last() =~= seq![tail[0], tail[1]]);
    lemma_replay_two(mid, tail[0], tail[1]);
}

} // verus!
