use std::cell::RefCell;

use service_transaction_checker::abi::{activated_call, certified_call, whitelisted_call};
use service_transaction_checker::checker::{CallContract, RegistryInfo, ServiceTransactionChecker};
use service_transaction_checker::error::CheckError;
use service_transaction_checker::session::{
    read_bool, Answer, CheckSession, Request, Stage, CERTIFIER_REGISTRY_NAME, WHITELIST_REGISTRY_NAME,
};
use service_transaction_checker::transaction::{Action, Address, GasPrice, Transaction};

const CERTIFIED_SELECTOR: [u8; 4] = [0xcc, 0x1d, 0x4c, 0x02];
const ACTIVATED_SELECTOR: [u8; 4] = [0x18, 0x66, 0x01, 0xca];
const WHITELISTED_SELECTOR: [u8; 4] = [0xd9, 0x36, 0x54, 0x7e];

fn addr(b: u8) -> Address {
    let mut a = [0u8; 20];
    a[0] = 0x10;
    a[19] = b;
    Address(a)
}

fn abi_bool(b: bool) -> Vec<u8> {
    let mut w = vec![0u8; 32];
    w[31] = if b { 1 } else { 0 };
    w
}

fn call_data(selector: [u8; 4], arg: Option<Address>) -> Vec<u8> {
    let mut d = selector.to_vec();
    if let Some(a) = arg {
        d.extend_from_slice(&[0u8; 12]);
        d.extend_from_slice(&a.0);
    }
    d
}

/// A chain at a fixed state that records what it is asked.
struct FakeChain {
    certifier: Option<Address>,
    certified: Result<Vec<u8>, String>,
    whitelist: Option<Address>,
    activated: Result<Vec<u8>, String>,
    whitelisted: Result<Vec<u8>, String>,
    log: RefCell<Vec<String>>,
}

impl FakeChain {
    fn new(certified: bool) -> FakeChain {
        FakeChain {
            certifier: Some(addr(0xc0)),
            certified: Ok(abi_bool(certified)),
            whitelist: Some(addr(0xd0)),
            activated: Ok(abi_bool(true)),
            whitelisted: Ok(abi_bool(true)),
            log: RefCell::new(Vec::new()),
        }
    }

    fn log(&self) -> Vec<String> {
        self.log.borrow().clone()
    }

    fn touched_whitelist(&self) -> bool {
        self.log().iter().any(|e| e.contains("whitelist") || e == "activated" || e.starts_with("whitelisted"))
    }
}

impl RegistryInfo for FakeChain {
    fn registry_address(&self, name: &str) -> Option<Address> {
        self.log.borrow_mut().push(format!("lookup {}", name));
        match name {
            "service_transaction_checker" => self.certifier,
            "service_destination_whitelist" => self.whitelist,
            _ => None,
        }
    }
}

impl CallContract for FakeChain {
    fn call_contract(&self, contract: Address, data: Vec<u8>) -> Result<Vec<u8>, String> {
        let selector = [data[0], data[1], data[2], data[3]];
        if selector == CERTIFIED_SELECTOR {
            assert_eq!(Some(contract), self.certifier);
            self.log.borrow_mut().push(format!("certified {:?}", &data[16..36]));
            self.certified.clone()
        } else if selector == ACTIVATED_SELECTOR {
            assert_eq!(Some(contract), self.whitelist);
            assert_eq!(data.len(), 4);
            self.log.borrow_mut().push("activated".to_string());
            self.activated.clone()
        } else if selector == WHITELISTED_SELECTOR {
            assert_eq!(Some(contract), self.whitelist);
            self.log.borrow_mut().push(format!("whitelisted {:?}", &data[16..36]));
            self.whitelisted.clone()
        } else {
            Err("unknown function".to_string())
        }
    }
}

fn tx(sender: Address, gas: u64, action: Action) -> Transaction {
    Transaction { sender, gas_price: GasPrice::from_u64(gas), action }
}

#[test]
fn refused_by_active_whitelist() {
    let chain = FakeChain { whitelisted: Ok(abi_bool(false)), ..FakeChain::new(true) };
    let t = tx(addr(1), 0, Action::Call(addr(2)));
    assert_eq!(ServiceTransactionChecker.check(&chain, &t), Ok(false));
    assert_eq!(
        chain.log(),
        vec![
            "lookup service_transaction_checker".to_string(),
            format!("certified {:?}", &addr(1).0[..]),
            "lookup service_destination_whitelist".to_string(),
            "activated".to_string(),
            format!("whitelisted {:?}", &addr(2).0[..]),
        ]
    );
}

#[test]
fn priced_transaction_asks_nothing() {
    let chain = FakeChain::new(true);
    let t = tx(addr(1), 5, Action::Call(addr(2)));
    assert_eq!(ServiceTransactionChecker.check(&chain, &t), Ok(false));
    assert!(chain.log().is_empty());
}

#[test]
fn priced_transaction_high_limb_asks_nothing() {
    let chain = FakeChain::new(true);
    let t = Transaction { sender: addr(1), gas_price: GasPrice([0, 0, 0, 1]), action: Action::Create };
    assert!(!t.gas_price.is_zero());
    assert_eq!(ServiceTransactionChecker.check(&chain, &t), Ok(false));
    assert!(chain.log().is_empty());
}

#[test]
fn creation_without_certifier_fails() {
    let chain = FakeChain { certifier: None, ..FakeChain::new(true) };
    let t = tx(addr(1), 0, Action::Create);
    assert_eq!(ServiceTransactionChecker.check(&chain, &t), Err(CheckError::ConfigurationMissing));
    assert_eq!(chain.log(), vec!["lookup service_transaction_checker".to_string()]);
}

#[test]
fn creation_asks_about_zero_address() {
    let chain = FakeChain::new(true);
    let t = tx(addr(1), 0, Action::Create);
    assert_eq!(ServiceTransactionChecker.check(&chain, &t), Ok(true));
    assert_eq!(chain.log().last().unwrap(), &format!("whitelisted {:?}", &[0u8; 20][..]));
}

#[test]
fn certifier_call_failure_is_returned() {
    let chain = FakeChain { certified: Err("node down".to_string()), ..FakeChain::new(true) };
    let r = ServiceTransactionChecker.check_address(&chain, addr(1), addr(2));
    assert_eq!(r, Err(CheckError::InvocationFailure("node down".to_string())));
    assert!(!chain.touched_whitelist());
}

#[test]
fn certifier_decode_failure_is_returned() {
    let chain = FakeChain { certified: Ok(vec![1, 2, 3]), ..FakeChain::new(true) };
    let r = ServiceTransactionChecker.check_address(&chain, addr(1), addr(2));
    assert_eq!(r, Err(CheckError::DecodeFailure));
    assert!(!chain.touched_whitelist());
}

#[test]
fn uncertified_sender_refused_without_whitelist() {
    let chain = FakeChain::new(false);
    assert_eq!(ServiceTransactionChecker.check_address(&chain, addr(1), addr(2)), Ok(false));
    assert!(!chain.touched_whitelist());
}

#[test]
fn missing_whitelist_permits() {
    let chain = FakeChain { whitelist: None, ..FakeChain::new(true) };
    assert_eq!(ServiceTransactionChecker.check_address(&chain, addr(1), addr(2)), Ok(true));
}

#[test]
fn inactive_whitelist_permits() {
    let chain = FakeChain { activated: Ok(abi_bool(false)), whitelisted: Ok(abi_bool(false)), ..FakeChain::new(true) };
    assert_eq!(ServiceTransactionChecker.check_address(&chain, addr(1), addr(2)), Ok(true));
    assert!(!chain.log().iter().any(|e| e.starts_with("whitelisted")));
}

#[test]
fn failing_activation_query_permits() {
    let chain = FakeChain { activated: Err("revert".to_string()), whitelisted: Ok(abi_bool(false)), ..FakeChain::new(true) };
    assert_eq!(ServiceTransactionChecker.check_address(&chain, addr(1), addr(2)), Ok(true));
}

#[test]
fn undecodable_activation_permits() {
    let chain = FakeChain { activated: Ok(Vec::new()), whitelisted: Ok(abi_bool(false)), ..FakeChain::new(true) };
    assert_eq!(ServiceTransactionChecker.check_address(&chain, addr(1), addr(2)), Ok(true));
}

#[test]
fn active_whitelist_listing_permits() {
    let chain = FakeChain::new(true);
    assert_eq!(ServiceTransactionChecker.check_address(&chain, addr(1), addr(2)), Ok(true));
}

#[test]
fn active_whitelist_refusal_refuses() {
    let chain = FakeChain { whitelisted: Ok(abi_bool(false)), ..FakeChain::new(true) };
    assert_eq!(ServiceTransactionChecker.check_address(&chain, addr(1), addr(2)), Ok(false));
}

#[test]
fn failing_presence_query_permits() {
    let chain = FakeChain { whitelisted: Err("revert".to_string()), ..FakeChain::new(true) };
    assert_eq!(ServiceTransactionChecker.check_address(&chain, addr(1), addr(2)), Ok(true));
    let chain = FakeChain { whitelisted: Ok(vec![0u8; 31]), ..FakeChain::new(true) };
    assert_eq!(ServiceTransactionChecker.check_address(&chain, addr(1), addr(2)), Ok(true));
}

#[test]
fn call_data_layout() {
    assert_eq!(certified_call(addr(7)), call_data(CERTIFIED_SELECTOR, Some(addr(7))));
    assert_eq!(activated_call(), call_data(ACTIVATED_SELECTOR, None));
    assert_eq!(whitelisted_call(addr(9)), call_data(WHITELISTED_SELECTOR, Some(addr(9))));
}

#[test]
fn bool_decoding() {
    assert_eq!(read_bool(Ok(abi_bool(true))), Ok(true));
    assert_eq!(read_bool(Ok(abi_bool(false))), Ok(false));
    let mut two = vec![0u8; 32];
    two[31] = 2;
    assert_eq!(read_bool(Ok(two)), Ok(false));
    let mut high = vec![0u8; 32];
    high[0] = 1;
    high[31] = 1;
    assert_eq!(read_bool(Ok(high)), Err(CheckError::DecodeFailure));
    assert_eq!(read_bool(Ok(Vec::new())), Err(CheckError::DecodeFailure));
    assert_eq!(read_bool(Ok(vec![0u8; 33])), Err(CheckError::DecodeFailure));
    let mut two_words = abi_bool(true);
    two_words.extend_from_slice(&[0u8; 32]);
    assert_eq!(read_bool(Ok(two_words)), Ok(true));
    assert_eq!(read_bool(Err("x".to_string())), Err(CheckError::InvocationFailure("x".to_string())));
}

#[test]
fn session_steps_in_order() {
    let s = CheckSession::new(addr(1), addr(2));
    assert_eq!(s.request(), Request::LookUp { name: CERTIFIER_REGISTRY_NAME });
    let s = s.answer(Answer::Entry(Some(addr(0xc0))));
    assert_eq!(s.request(), Request::Call { contract: addr(0xc0), data: certified_call(addr(1)) });
    let s = s.answer(Answer::Returned(Ok(abi_bool(true))));
    assert_eq!(s.request(), Request::LookUp { name: WHITELIST_REGISTRY_NAME });
    let s = s.answer(Answer::Entry(Some(addr(0xd0))));
    assert_eq!(s.request(), Request::Call { contract: addr(0xd0), data: activated_call() });
    let s = s.answer(Answer::Returned(Ok(abi_bool(true))));
    assert_eq!(s.request(), Request::Call { contract: addr(0xd0), data: whitelisted_call(addr(2)) });
    let s = s.answer(Answer::Returned(Ok(abi_bool(false))));
    assert!(s.is_finished());
    assert_eq!(s.stage, Stage::Finished { outcome: Ok(false) });
}

#[test]
fn finished_session_ignores_answers() {
    let s = CheckSession::new(addr(1), addr(2)).answer(Answer::Entry(None));
    assert_eq!(s.stage, Stage::Finished { outcome: Err(CheckError::ConfigurationMissing) });
    let s = s.answer(Answer::Entry(Some(addr(3))));
    assert_eq!(s.request(), Request::Finish { outcome: Err(CheckError::ConfigurationMissing) });
}

#[test]
fn answer_of_wrong_kind_changes_nothing() {
    let s = CheckSession::new(addr(1), addr(2)).answer(Answer::Returned(Ok(abi_bool(true))));
    assert_eq!(s.stage, Stage::LookUpCertifier);
}

#[test]
fn transaction_session_start() {
    let s = CheckSession::for_transaction(&tx(addr(1), 0, Action::Call(addr(2))));
    assert_eq!((s.sender, s.to, s.stage), (addr(1), addr(2), Stage::LookUpCertifier));
    let s = CheckSession::for_transaction(&tx(addr(1), 1, Action::Create));
    assert_eq!(s.to, Address::zero());
    assert_eq!(s.stage, Stage::Finished { outcome: Ok(false) });
}

#[test]
fn gas_price_zero_test() {
    assert!(GasPrice::from_u64(0).is_zero());
    assert!(!GasPrice::from_u64(5).is_zero());
    assert!(!GasPrice([0, 1, 0, 0]).is_zero());
}

#[test]
fn error_messages() {
    assert_eq!(CheckError::ConfigurationMissing.message(), "contract is not configured");
    assert_eq!(CheckError::InvocationFailure("boom".to_string()).message(), "boom");
}
