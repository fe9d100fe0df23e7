//! The guardian's table of escrows: its key prefix, keys and records.

use vstd::prelude::*;
use vstd::string::*;

use crate::common::{Amount, EscrowStatus, PublicKey};
use crate::dump::DumpTable;
use crate::text::str_to_lowercase;

verus! {

/// Namespaces of the module's database keys.
#[derive(Clone, Copy, Debug, PartialEq, Eq, Structural)]
pub enum DbKeyPrefix {
    /// Active and resolved escrows, keyed by order id.
    Escrow,
}

/// The byte that starts every key of a prefix's table.
pub open spec fn spec_prefix_byte(p: DbKeyPrefix) -> u8 {
    match p {
        DbKeyPrefix::Escrow => 0x01,
    }
}

/// The name of a prefix, as its `Display` form writes it.
pub open spec fn spec_prefix_name(p: DbKeyPrefix) -> Seq<char> {
    match p {
        DbKeyPrefix::Escrow => "Escrow"@,
    }
}

/// Every prefix, in declaration order.
pub open spec fn spec_all_prefixes() -> Seq<DbKeyPrefix> {
    seq![DbKeyPrefix::Escrow]
}

impl DbKeyPrefix {
    /// The byte that starts every key of this prefix's table.
    pub fn to_u8(&self) -> (b: u8)
        ensures
            b == spec_prefix_byte(*self),
    {
        match self {
            DbKeyPrefix::Escrow => 0x01,
        }
    }

    /// The prefix's name, as its `Display` form writes it.
    pub fn to_display_string(&self) -> (r: String)
        ensures
            r@ == spec_prefix_name(*self),
    {
        match self {
            DbKeyPrefix::Escrow => "Escrow".to_owned(),
        }
    }

    /// Every prefix, in declaration order.
    pub fn all() -> (v: Vec<DbKeyPrefix>)
        ensures
            v@ == spec_all_prefixes(),
    {
        vec![DbKeyPrefix::Escrow]
    }
}

impl DumpTable for DbKeyPrefix {
    open spec fn spec_name(self) -> Seq<char> {
        spec_prefix_name(self)
    }

    fn lowercase_name(&self) -> (r: String) {
        proof {
            reveal_strlit("Escrow");
        }
        let name = self.to_display_string();
        str_to_lowercase(name.as_str())
    }
}

/// The value stored for each escrow.
#[derive(Clone, Copy, Debug, PartialEq, Eq)]
pub struct EscrowRecord {
    /// Amount held in escrow.
    pub amount: Amount,
    /// The customer's public key (for refund on cancel).
    pub customer_key: PublicKey,
    /// Current status.
    pub status: EscrowStatus,
    /// Who the released funds go to: none while the escrow is reserved; once
    /// it is resolved, the supplier on fulfil or the customer on cancel.
    pub released_to: Option<PublicKey>,
}

/// Database key: the escrow of an order id.
#[derive(Clone, Debug, PartialEq, Eq, Hash)]
pub struct EscrowKey(pub String);

impl EscrowKey {
    /// The key under which the escrow of `order_id` is stored.
    pub fn of_order(order_id: &String) -> (k: EscrowKey)
        ensures
            k.0@ == order_id@,
    {
        EscrowKey(order_id.clone())
    }
}

/// Prefix that selects every escrow of the table.
#[derive(Debug)]
pub struct EscrowPrefix;

} // verus!
