//! The checker's decisions as a session: each stage issues one request to the
//! chain (a registry lookup or a read-only contract call) and moves on with
//! the answer, until the outcome is known.
use vstd::prelude::*;
use crate::abi::{abi_bool, activated_call, activated_data, certified_call, certified_data,
    decode_bool, whitelisted_call, whitelisted_data};
use crate::error::CheckError;
use crate::transaction::{Address, Transaction};

verus! {

/// Registry name of the certifier contract.
pub const CERTIFIER_REGISTRY_NAME: &'static str = "service_transaction_checker";
/// Registry name of the destination whitelist contract.
pub const WHITELIST_REGISTRY_NAME: &'static str = "service_destination_whitelist";

/// Where a check stands.
#[derive(Debug, PartialEq, Eq)]
pub enum Stage {
    /// The certifier's address is looked up in the registry.
    LookUpCertifier,
    /// The certifier is asked whether the sender is certified.
    AskCertified { certifier: Address },
    /// The whitelist's address is looked up in the registry.
    LookUpWhitelist,
    /// The whitelist is asked whether it is active.
    AskActivated { whitelist: Address },
    /// The whitelist is asked whether it lists the destination.
    AskWhitelisted { whitelist: Address },
    /// The check is over.
    Finished { outcome: Result<bool, CheckError> },
}

/// What a session asks of the chain next.
#[derive(Debug, PartialEq, Eq)]
pub enum Request {
    /// Look up a contract's address in the registry at the latest block.
    LookUp { name: &'static str },
    /// Make a read-only call at the latest block.
    Call { contract: Address, data: Vec<u8> },
    /// Nothing: the check is over with this outcome.
    Finish { outcome: Result<bool, CheckError> },
}

/// What the chain answered to a request.
#[derive(Debug, PartialEq, Eq)]
pub enum Answer {
    /// The registry entry, if there is one.
    Entry(Option<Address>),
    /// The bytes a contract call returned, or why it failed.
    Returned(Result<Vec<u8>, String>),
}

/// A check of a (sender, destination) pair in progress.
#[derive(Debug, PartialEq, Eq)]
pub struct CheckSession {
    pub sender: Address,
    pub to: Address,
    pub stage: Stage,
}

/// A contract call's reply read as a `bool`: the call's failure, a decode
/// failure, or the decoded value.
pub open spec fn reply_bool(reply: Result<Vec<u8>, String>) -> Result<bool, CheckError> {
    match reply {
        Err(m) => Err(CheckError::InvocationFailure(m)),
        Ok(d) => match abi_bool(d@) {
            None => Err(CheckError::DecodeFailure),
            Some(b) => Ok(b),
        },
    }
}

/// The stage a check starts in: a transaction with a non-zero gas price is
/// not a service transaction and is refused at once.
pub open spec fn initial_stage(tx: Transaction) -> Stage {
    if tx.gas_price.value() != 0 {
        Stage::Finished { outcome: Ok(false) }
    } else {
        Stage::LookUpCertifier
    }
}

impl CheckSession {
    /// Steps left before the outcome is known.
    pub open spec fn rank(self) -> nat {
        match self.stage {
            Stage::LookUpCertifier => 5,
            Stage::AskCertified { .. } => 4,
            Stage::LookUpWhitelist => 3,
            Stage::AskActivated { .. } => 2,
            Stage::AskWhitelisted { .. } => 1,
            Stage::Finished { .. } => 0,
        }
    }

    /// Whether `r` is the request that this session makes.
    pub open spec fn issues(self, r: Request) -> bool {
        match self.stage {
            Stage::LookUpCertifier => r matches Request::LookUp { name } && name@ == CERTIFIER_REGISTRY_NAME@,
            Stage::AskCertified { certifier } => r matches Request::Call { contract, data }
                && contract == certifier && data@ == certified_data(self.sender),
            Stage::LookUpWhitelist => r matches Request::LookUp { name } && name@ == WHITELIST_REGISTRY_NAME@,
            Stage::AskActivated { whitelist } => r matches Request::Call { contract, data }
                && contract == whitelist && data@ == activated_data(),
            Stage::AskWhitelisted { whitelist } => r matches Request::Call { contract, data }
                && contract == whitelist && data@ == whitelisted_data(self.to),
            Stage::Finished { outcome } => r == (Request::Finish { outcome }),
        }
    }

    /// Whether `a` is the kind of answer this session waits for.
    pub open spec fn accepts(self, a: Answer) -> bool {
        match self.stage {
            Stage::LookUpCertifier | Stage::LookUpWhitelist => a is Entry,
            Stage::AskCertified { .. } | Stage::AskActivated { .. } | Stage::AskWhitelisted { .. } => a is Returned,
            Stage::Finished { .. } => false,
        }
    }

    /// This session at another stage.
    pub open spec fn at(self, stage: Stage) -> CheckSession {
        CheckSession { stage, ..self }
    }

    /// This session finished with `outcome`.
    pub open spec fn finished(self, outcome: Result<bool, CheckError>) -> CheckSession {
        self.at(Stage::Finished { outcome })
    }

    /// The session after answer `a`. The certifier's verdict is final when
    /// it fails or refuses; whatever goes wrong on the whitelist's side, or
    /// an inactive whitelist, permits. An answer of the wrong kind, or one
    /// given after the check is over, changes nothing.
    pub open spec fn after(self, a: Answer) -> CheckSession {
        match (self.stage, a) {
            (Stage::LookUpCertifier, Answer::Entry(entry)) => match entry {
                None => self.finished(Err(CheckError::ConfigurationMissing)),
                Some(certifier) => self.at(Stage::AskCertified { certifier }),
            },
            (Stage::AskCertified { .. }, Answer::Returned(reply)) => match reply_bool(reply) {
                Err(e) => self.finished(Err(e)),
                Ok(false) => self.finished(Ok(false)),
                Ok(true) => self.at(Stage::LookUpWhitelist),
            },
            (Stage::LookUpWhitelist, Answer::Entry(entry)) => match entry {
                None => self.finished(Ok(true)),
                Some(whitelist) => self.at(Stage::AskActivated { whitelist }),
            },
            (Stage::AskActivated { whitelist }, Answer::Returned(reply)) => match reply_bool(reply) {
                Ok(true) => self.at(Stage::AskWhitelisted { whitelist }),
                _ => self.finished(Ok(true)),
            },
            (Stage::AskWhitelisted { .. }, Answer::Returned(reply)) => match reply_bool(reply) {
                Ok(listed) => self.finished(Ok(listed)),
                Err(_) => self.finished(Ok(true)),
            },
            _ => self,
        }
    }

    /// The session after the answers, in order.
    pub open spec fn replay(self, answers: Seq<Answer>) -> CheckSession
        decreases answers.len(),
    {
        if answers.len() == 0 {
            self
        } else {
            self.replay(answers.drop_last()).after(answers.last())
        }
    }

    /// A check of `sender` and `to` that has not asked anything yet.
    pub open spec fn new_spec(sender: Address, to: Address) -> CheckSession {
        CheckSession { sender, to, stage: Stage::LookUpCertifier }
    }

    /// A check of `sender` and `to` that has not asked anything yet.
    pub fn new(sender: Address, to: Address) -> (r: CheckSession)
        ensures
            r == CheckSession::new_spec(sender, to),
    {
        CheckSession { sender, to, stage: Stage::LookUpCertifier }
    }

    /// A check of a transaction: of its sender and its destination when its
    /// gas price is zero, else already refused.
    pub fn for_transaction(tx: &Transaction) -> (r: CheckSession)
        ensures
            r.sender == tx.sender,
            tx.has_destination(r.to),
            r.stage == initial_stage(*tx),
    {
        let to = tx.destination();
        if !tx.gas_price.is_zero() {
            CheckSession { sender: tx.sender, to, stage: Stage::Finished { outcome: Ok(false) } }
        } else {
            CheckSession::new(tx.sender, to)
        }
    }

    /// Whether the outcome is known.
    pub fn is_finished(&self) -> (r: bool)
        ensures
            r == self.stage is Finished,
    {
        matches!(self.stage, Stage::Finished { .. })
    }

    /// The request this session makes next.
    pub fn request(&self) -> (r: Request)
        ensures
            self.issues(r),
    {
        match &self.stage {
            Stage::LookUpCertifier => Request::LookUp { name: CERTIFIER_REGISTRY_NAME },
            Stage::AskCertified { certifier } => Request::Call { contract: *certifier, data: certified_call(self.sender) },
            Stage::LookUpWhitelist => Request::LookUp { name: WHITELIST_REGISTRY_NAME },
            Stage::AskActivated { whitelist } => Request::Call { contract: *whitelist, data: activated_call() },
            Stage::AskWhitelisted { whitelist } => Request::Call { contract: *whitelist, data: whitelisted_call(self.to) },
            Stage::Finished { outcome } => Request::Finish { outcome: copy_outcome(outcome) },
        }
    }

    /// Moves on with the answer to the last request.
    pub fn answer(self, a: Answer) -> (r: CheckSession)
        ensures
            r == self.after(a),
            self.accepts(a) ==> r.rank() < self.rank(),
    {
        let CheckSession { sender, to, stage } = self;
        let stage = match (stage, a) {
            (Stage::LookUpCertifier, Answer::Entry(entry)) => match entry {
                None => Stage::Finished { outcome: Err(CheckError::ConfigurationMissing) },
                Some(certifier) => Stage::AskCertified { certifier },
            },
            (Stage::AskCertified { .. }, Answer::Returned(reply)) => match read_bool(reply) {
                Err(e) => Stage::Finished { outcome: Err(e) },
                Ok(false) => Stage::Finished { outcome: Ok(false) },
                Ok(true) => Stage::LookUpWhitelist,
            },
            (Stage::LookUpWhitelist, Answer::Entry(entry)) => match entry {
                None => Stage::Finished { outcome: Ok(true) },
                Some(whitelist) => Stage::AskActivated { whitelist },
            },
            (Stage::AskActivated { whitelist }, Answer::Returned(reply)) => match read_bool(reply) {
                Ok(true) => Stage::AskWhitelisted { whitelist },
                _ => Stage::Finished { outcome: Ok(true) },
            },
            (Stage::AskWhitelisted { .. }, Answer::Returned(reply)) => match read_bool(reply) {
                Ok(listed) => Stage::Finished { outcome: Ok(listed) },
                Err(_) => Stage::Finished { outcome: Ok(true) },
            },
            (stage, _) => stage,
        };
        CheckSession { sender, to, stage }
    }
}

/// Reads a contract call's reply as a `bool`.
pub fn read_bool(reply: Result<Vec<u8>, String>) -> (r: Result<bool, CheckError>)
    ensures
        r == reply_bool(reply),
{
    match reply {
        Err(m) => Err(CheckError::InvocationFailure(m)),
        Ok(d) => match decode_bool(&d) {
            None => Err(CheckError::DecodeFailure),
            Some(b) => Ok(b),
        },
    }
}

/// A copy of an outcome.
fn copy_outcome(o: &Result<bool, CheckError>) -> (r: Result<bool, CheckError>)
    ensures
        r == *o,
{
    match o {
        Ok(b) => Ok(*b),
        Err(CheckError::ConfigurationMissing) => Err(CheckError::ConfigurationMissing),
        Err(CheckError::InvocationFailure(m)) => Err(CheckError::InvocationFailure(m.clone())),
        Err(CheckError::DecodeFailure) => Err(CheckError::DecodeFailure),
    }
}

} // verus!
