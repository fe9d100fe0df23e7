//! The client's table of the escrows it started: its key prefixes, keys and
//! records.

use vstd::prelude::*;
use vstd::string::*;

use crate::common::{Amount, EscrowStatus};
use crate::dump::DumpTable;
use crate::text::str_to_lowercase;

verus! {

/// Namespaces of the client module's database keys.
#[derive(Clone, Copy, Debug, PartialEq, Eq, Structural)]
pub enum DbKeyPrefix {
    /// Escrows this client has started.
    ActiveEscrow,
    /// Start of the range kept for use outside this module.
    ExternalReservedStart,
    /// Start of the range kept for the client core.
    CoreInternalReservedStart,
    /// End of the range kept for the client core.
    CoreInternalReservedEnd,
}

/// The byte that starts every key of a prefix's table.
pub open spec fn spec_prefix_byte(p: DbKeyPrefix) -> u8 {
    match p {
        DbKeyPrefix::ActiveEscrow => 0x01,
        DbKeyPrefix::ExternalReservedStart => 0xb0,
        DbKeyPrefix::CoreInternalReservedStart => 0xd0,
        DbKeyPrefix::CoreInternalReservedEnd => 0xff,
    }
}

/// The name of a prefix, as its `Display` form writes it.
pub open spec fn spec_prefix_name(p: DbKeyPrefix) -> Seq<char> {
    match p {
        DbKeyPrefix::ActiveEscrow => "ActiveEscrow"@,
        DbKeyPrefix::ExternalReservedStart => "ExternalReservedStart"@,
        DbKeyPrefix::CoreInternalReservedStart => "CoreInternalReservedStart"@,
        DbKeyPrefix::CoreInternalReservedEnd => "CoreInternalReservedEnd"@,
    }
}

/// Every prefix, in declaration order.
pub open spec fn spec_all_prefixes() -> Seq<DbKeyPrefix> {
    seq![
        DbKeyPrefix::ActiveEscrow,
        DbKeyPrefix::ExternalReservedStart,
        DbKeyPrefix::CoreInternalReservedStart,
        DbKeyPrefix::CoreInternalReservedEnd,
    ]
}

impl DbKeyPrefix {
    /// The byte that starts every key of this prefix's table.
    pub fn to_u8(&self) -> (b: u8)
        ensures
            b == spec_prefix_byte(*self),
    {
        match self {
            DbKeyPrefix::ActiveEscrow => 0x01,
            DbKeyPrefix::ExternalReservedStart => 0xb0,
            DbKeyPrefix::CoreInternalReservedStart => 0xd0,
            DbKeyPrefix::CoreInternalReservedEnd => 0xff,
        }
    }

    /// The prefix's name, as its `Display` form writes it.
    pub fn to_display_string(&self) -> (r: String)
        ensures
            r@ == spec_prefix_name(*self),
    {
        match self {
            DbKeyPrefix::ActiveEscrow => "ActiveEscrow".to_owned(),
            DbKeyPrefix::ExternalReservedStart => "ExternalReservedStart".to_owned(),
            DbKeyPrefix::CoreInternalReservedStart => "CoreInternalReservedStart".to_owned(),
            DbKeyPrefix::CoreInternalReservedEnd => "CoreInternalReservedEnd".to_owned(),
        }
    }

    /// Every prefix, in declaration order.
    pub fn all() -> (v: Vec<DbKeyPrefix>)
        ensures
            v@ == spec_all_prefixes(),
    {
        vec![
            DbKeyPrefix::ActiveEscrow,
            DbKeyPrefix::ExternalReservedStart,
            DbKeyPrefix::CoreInternalReservedStart,
            DbKeyPrefix::CoreInternalReservedEnd,
        ]
    }
}

impl DumpTable for DbKeyPrefix {
    open spec fn spec_name(self) -> Seq<char> {
        spec_prefix_name(self)
    }

    fn lowercase_name(&self) -> (r: String) {
        proof {
            reveal_strlit("ActiveEscrow");
            reveal_strlit("ExternalReservedStart");
            reveal_strlit("CoreInternalReservedStart");
            reveal_strlit("CoreInternalReservedEnd");
        }
        let name = self.to_display_string();
        str_to_lowercase(name.as_str())
    }
}

/// The client's record of an escrow it started.
#[derive(Clone, Copy, Debug, PartialEq, Eq, Structural)]
pub struct ClientEscrowRecord {
    pub amount: Amount,
    pub status: EscrowStatus,
}

/// Database key: the client's escrow of an order id.
#[derive(Clone, Debug, PartialEq, Eq, Hash)]
pub struct ClientEscrowKey(pub String);

impl ClientEscrowKey {
    /// The key under which the client's record of `order_id` is stored.
    pub fn of_order(order_id: &String) -> (k: ClientEscrowKey)
        ensures
            k.0@ == order_id@,
    {
        ClientEscrowKey(order_id.clone())
    }
}

/// Prefix that selects every escrow of the client's table.
#[derive(Debug)]
pub struct ClientEscrowPrefix;

} // verus!
