//! The values that the checker reads from a transaction.
use vstd::prelude::*;

verus! {

/// A 20-byte account or contract address.
#[derive(Clone, Copy, Debug, PartialEq, Eq)]
pub struct Address(pub [u8; 20]);

impl Address {
    /// The all-zero address, which stands for "no specific destination".
    pub open spec fn is_zero_spec(self) -> bool {
        forall|i: int| 0 <= i < 20 ==> #[trigger] self.0@[i] == 0u8
    }

    /// The all-zero address.
    pub fn zero() -> (r: Address)
        ensures
            r.is_zero_spec(),
    {
        let r = Address([0u8; 20]);
        assert(r.is_zero_spec());
        r
    }
}

/// A 256-bit unsigned gas price, as four little-endian 64-bit limbs.
#[derive(Clone, Copy, Debug, PartialEq, Eq)]
pub struct GasPrice(pub [u64; 4]);

impl GasPrice {
    /// The numeric value of the gas price.
    pub open spec fn value(self) -> nat {
        (self.0@[0] as nat) + 0x1_0000_0000_0000_0000 * ((self.0@[1] as nat)
            + 0x1_0000_0000_0000_0000 * ((self.0@[2] as nat)
            + 0x1_0000_0000_0000_0000 * (self.0@[3] as nat)))
    }

    /// A gas price that fits in 64 bits.
    pub fn from_u64(v: u64) -> (r: GasPrice)
        ensures
            r.value() == v as nat,
    {
        GasPrice([v, 0, 0, 0])
    }

    /// Whether the gas price is zero.
    pub fn is_zero(&self) -> (r: bool)
        ensures
            r == (self.value() == 0),
    {
        let r = self.0[0] == 0 && self.0[1] == 0 && self.0[2] == 0 && self.0[3] == 0;
        assert(r == (self.value() == 0)) by (nonlinear_arith)
            requires
                r == (self.0@[0] == 0 && self.0@[1] == 0 && self.0@[2] == 0 && self.0@[3] == 0),
                self.value() == (self.0@[0] as nat) + 0x1_0000_0000_0000_0000 * ((self.0@[1] as nat)
                    + 0x1_0000_0000_0000_0000 * ((self.0@[2] as nat)
                    + 0x1_0000_0000_0000_0000 * (self.0@[3] as nat))),
        ;
        r
    }
}

/// What a transaction does.
#[derive(Clone, Copy, Debug, PartialEq, Eq)]
pub enum Action {
    /// Creates a new contract.
    Create,
    /// Calls the given address.
    Call(Address),
}

/// A signed transaction, as far as the checker reads it.
#[derive(Clone, Copy, Debug, PartialEq, Eq)]
pub struct Transaction {
    /// The recovered sender.
    pub sender: Address,
    /// The gas price that the sender offers.
    pub gas_price: GasPrice,
    /// What the transaction does.
    pub action: Action,
}

impl Transaction {
    /// Whether `a` is the address that the whitelist is asked about: the
    /// call target, or the zero address for a contract creation.
    pub open spec fn has_destination(self, a: Address) -> bool {
        match self.action {
            Action::Create => a.is_zero_spec(),
            Action::Call(target) => a == target,
        }
    }

    /// The address that the whitelist is asked about.
    pub fn destination(&self) -> (r: Address)
        ensures
            self.has_destination(r),
    {
        match self.action {
            Action::Create => Address::zero(),
            Action::Call(a) => a,
        }
    }
}

} // verus!
