//! The checker: runs a check session against a chain client.
use vstd::prelude::*;
use crate::error::CheckError;
use crate::session::{initial_stage, Answer, CheckSession, Request, Stage};
use crate::transaction::{Address, Transaction};

verus! {

/// Resolution of registry names to contract addresses.
pub trait RegistryInfo {
    /// The address registered under `name` at the latest block, if any.
    fn registry_address(&self, name: &str) -> Option<Address>;
}

/// Read-only contract calls.
pub trait CallContract {
    /// Runs a read-only call of `contract` with call data `data` against the
    /// latest block, returning the bytes the contract returned.
    fn call_contract(&self, contract: Address, data: Vec<u8>) -> Result<Vec<u8>, String>;
}

/// Decides whether zero-gas-price transactions are admitted.
#[derive(Clone, Copy, Debug, Default)]
pub struct ServiceTransactionChecker;

/// Runs `start` to its end, answering each request through `client`.
/// Whatever the client answers, the outcome is the one that the session
/// reaches on some sequence of answers.
fn run<C: CallContract + RegistryInfo>(client: &C, start: CheckSession) -> (r: Result<bool, CheckError>)
    ensures
        exists|answers: Seq<Answer>| #[trigger] start.replay(answers).stage == (Stage::Finished { outcome: r }),
{
    let ghost mut answers: Seq<Answer> = Seq::empty();
    let mut session = start;
    loop
        invariant
            session == start.replay(answers),
        decreases session.rank(),
    {
        let a = match session.request() {
            Request::LookUp { name } => Answer::Entry(client.registry_address(name)),
            Request::Call { contract, data } => Answer::Returned(client.call_contract(contract, data)),
            Request::Finish { outcome } => {
                return outcome;
            },
        };
        let ghost before = answers;
        proof {
            answers = answers.push(a);
            assert(answers.drop_last() =~= before);
        }
        session = session.answer(a);
    }
}

impl ServiceTransactionChecker {
    /// Checks whether a transaction is admitted as a service transaction.
    /// One with a non-zero gas price is not one: `Ok(false)` at once.
    /// Otherwise its sender and destination (the zero address for a
    /// contract creation) are checked as by `check_address`.
    pub fn check<C: CallContract + RegistryInfo>(&self, client: &C, tx: &Transaction) -> (r: Result<bool, CheckError>)
        ensures
            tx.gas_price.value() != 0 ==> r == Ok::<bool, CheckError>(false),
            exists|to: Address, answers: Seq<Answer>| tx.has_destination(to)
                && (#[trigger] (CheckSession { sender: tx.sender, to, stage: initial_stage(*tx) }).replay(answers)).stage
                    == (Stage::Finished { outcome: r }),
    {
        let session = CheckSession::for_transaction(tx);
        if !tx.gas_price.is_zero() {
            assert(session.replay(Seq::empty()) == session);
            return Ok(false);
        }
        run(client, session)
    }

    /// Checks whether `sender` may send a service transaction to `to`: the
    /// certifier must certify `sender` (its failure is returned as the
    /// error), and then the whitelist, where it is deployed, active and
    /// answers, must list `to`.
    pub fn check_address<C: CallContract + RegistryInfo>(&self, client: &C, sender: Address, to: Address) -> (r: Result<bool, CheckError>)
        ensures
            exists|answers: Seq<Answer>| (#[trigger] CheckSession::new_spec(sender, to).replay(answers)).stage
                == (Stage::Finished { outcome: r }),
    {
        run(client, CheckSession::new(sender, to))
    }
}

} // verus!
