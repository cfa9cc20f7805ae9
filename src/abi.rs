//! The three policy-contract functions the checker calls, as ABI call data,
//! and the `bool` each of them returns.
use vstd::prelude::*;
use crate::transaction::Address;

verus! {

/// Name of the certifier's `certified(address)` function.
pub const CERTIFIED: &'static str = "certified";
/// Name of the whitelist's `activated()` function.
pub const ACTIVATED: &'static str = "activated";
/// Name of the whitelist's `whitelisted(address)` function.
pub const WHITELISTED: &'static str = "whitelisted";

/// The four-byte ABI selector of a function called `name` whose `n`
/// parameters are all of type `address`.
pub uninterp spec fn selector_of(name: Seq<char>, n: nat) -> Seq<u8>;

/// ABI encoding of a list of addresses: one 32-byte word each, twelve zero
/// bytes followed by the twenty address bytes.
pub open spec fn address_words(args: Seq<Address>) -> Seq<u8>
    decreases args.len(),
{
    if args.len() == 0 {
        Seq::empty()
    } else {
        address_words(args.drop_last()) + Seq::new(12, |i: int| 0u8) + args.last().0@
    }
}

/// Call data for `name(address, ...)` applied to `args`.
pub open spec fn call_data(name: Seq<char>, args: Seq<Address>) -> Seq<u8> {
    selector_of(name, args.len()) + address_words(args)
}

/// The value that ABI decoding reads from `data` as a single `bool` output:
/// the data must be a non-empty run of 32-byte words whose first word has
/// 31 leading zero bytes; the value is true exactly when the last byte of
/// that word is 1.
pub open spec fn abi_bool(data: Seq<u8>) -> Option<bool> {
    if data.len() > 0 && data.len() % 32 == 0 && (forall|i: int| 0 <= i < 31 ==> data[i] == 0u8) {
        Some(data[31] == 1u8)
    } else {
        None
    }
}

/// Relies on `ethabi::Function::encode_input`: the selector of
/// `name(address, ...)` followed by the ABI encoding of the arguments.
#[verifier::external_body]
pub(crate) fn encode_call(name: &str, args: &Vec<Address>) -> (r: Vec<u8>)
    ensures
        r@ == selector_of(name@, args@.len()) + address_words(args@),
        r@.len() == 4 + 32 * args@.len(),
{
    let function = ethabi::Function {
        name: name.to_owned(),
        inputs: args.iter().map(|_| ethabi::Param { name: String::new(), kind: ethabi::ParamType::Address }).collect(),
        outputs: Vec::new(),
        constant: true,
    };
    let tokens: Vec<ethabi::Token> = args.iter().map(|a| ethabi::Token::Address(ethabi::Address::from(a.0))).collect();
    function.encode_input(&tokens).unwrap_or_default()
}

/// Relies on `ethabi::decode` with the single output type `bool`.
#[verifier::external_body]
pub(crate) fn decode_bool(data: &Vec<u8>) -> (r: Option<bool>)
    ensures
        r == abi_bool(data@),
{
    match ethabi::decode(&[ethabi::ParamType::Bool], data) {
        Ok(tokens) => tokens.into_iter().next().and_then(|t| t.to_bool()),
        Err(_) => None,
    }
}

/// Call data of the certifier's `certified(sender)`.
pub open spec fn certified_data(sender: Address) -> Seq<u8> {
    call_data(CERTIFIED@, seq![sender])
}

/// Call data of the whitelist's `activated()`.
pub open spec fn activated_data() -> Seq<u8> {
    call_data(ACTIVATED@, Seq::empty())
}

/// Call data of the whitelist's `whitelisted(to)`.
pub open spec fn whitelisted_data(to: Address) -> Seq<u8> {
    call_data(WHITELISTED@, seq![to])
}

/// Encodes a call of `certified(sender)`.
pub fn certified_call(sender: Address) -> (r: Vec<u8>)
    ensures
        r@ == certified_data(sender),
{
    let args = vec![sender];
    let r = encode_call(CERTIFIED, &args);
    assert(args@ == seq![sender]);
    r
}

/// Encodes a call of `activated()`.
pub fn activated_call() -> (r: Vec<u8>)
    ensures
        r@ == activated_data(),
{
    let args: Vec<Address> = Vec::new();
    let r = encode_call(ACTIVATED, &args);
    r
}

/// Encodes a call of `whitelisted(to)`.
pub fn whitelisted_call(to: Address) -> (r: Vec<u8>)
    ensures
        r@ == whitelisted_data(to),
{
    let args = vec![to];
    let r = encode_call(WHITELISTED, &args);
    assert(args@ == seq![to]);
    r
}

} // verus!
