//! The mapping from users to customers of the gateway.
//!
//! The gateway knows a user by a customer record that carries the user's
//! identifier as metadata. The engine decides from the answer to a lookup
//! whether a customer exists or has to be created; the calls themselves are
//! made by the caller.

use vstd::prelude::*;
use vstd::string::StringExecFns;

verus! {

/// The sixteen hexadecimal digits in lower case.
pub open spec fn hex_digits() -> Seq<char> {
    seq!['0', '1', '2', '3', '4', '5', '6', '7', '8', '9', 'a', 'b', 'c', 'd', 'e', 'f']
}

/// The hexadecimal digit of `id` at place `d`, counted from the most
/// significant of its 32 digits.
pub open spec fn nibble(id: u128, d: int) -> int {
    ((id >> ((4 * (31 - d)) as u128)) & 0xf) as int
}

/// The text of a 128-bit identifier: its 32 hexadecimal digits in lower
/// case, most significant first, in groups of 8, 4, 4, 4 and 12 digits
/// with a hyphen between the groups.
pub open spec fn uuid_text(id: u128) -> Seq<char> {
    Seq::new(
        36,
        |i: int|
            if i == 8 || i == 13 || i == 18 || i == 23 {
                '-'
            } else if i < 8 {
                hex_digits()[nibble(id, i)]
            } else if i < 13 {
                hex_digits()[nibble(id, i - 1)]
            } else if i < 18 {
                hex_digits()[nibble(id, i - 2)]
            } else if i < 23 {
                hex_digits()[nibble(id, i - 3)]
            } else {
                hex_digits()[nibble(id, i - 4)]
            },
    )
}

/// The metadata key under which a customer carries the user's identifier.
pub open spec fn user_key() -> Seq<char> {
    "user_id"@
}

/// Formats an identifier by `uuid::Uuid::from_u128` and the `Display` of
/// `uuid::Uuid`, which writes the hyphenated lower-case form: the 16 bytes
/// of the value, most significant first, as two hexadecimal digits each,
/// with hyphens after the 8th, 12th, 16th and 20th digit.
#[verifier::external_body]
fn format_uuid(id: u128) -> (text: String)
    ensures
        text@ == uuid_text(id),
{
    uuid::Uuid::from_u128(id).to_string()
}

/// A customer record of the gateway.
#[derive(Debug)]
pub struct Customer {
    /// The gateway's identifier of the customer.
    pub id: String,
}

/// One metadata entry of a customer record.
#[derive(Debug)]
pub struct Metadata {
    pub key: String,
    pub value: String,
}

/// The lookup of the customers that carry a metadata entry.
#[derive(Debug)]
pub struct ListCustomers {
    pub metadata: Metadata,
}

/// The creation of a customer that carries a metadata entry.
#[derive(Debug)]
pub struct CreateCustomer {
    pub metadata: Metadata,
}

/// What the engine decides from the answer to a customer lookup.
#[derive(Debug)]
pub enum CustomerResolution {
    /// The user has a customer record: use it.
    Existing(Customer),
    /// The user has none: create one.
    Create(CreateCustomer),
}

impl Metadata {
    /// The entry marks a customer as the record of this user.
    pub open spec fn marks(&self, user_id: u128) -> bool {
        self.key@ == user_key() && self.value@ == uuid_text(user_id)
    }

    /// The search expression that finds the customer records carrying this
    /// entry: `metadata['key']:'value'`.
    pub open spec fn query(&self) -> Seq<char> {
        "metadata['"@ + self.key@ + "']:'"@ + self.value@ + "'"@
    }

    /// The search expression that finds the customer records carrying this
    /// entry.
    pub fn search_query(&self) -> (text: String)
        ensures
            text@ == self.query(),
    {
        let mut text = "metadata['".to_owned();
        text.append(self.key.as_str());
        text.append("']:'");
        text.append(self.value.as_str());
        text.append("'");
        text
    }

    /// The metadata entry that marks a customer as the record of this user.
    pub fn of_user(user_id: u128) -> (entry: Metadata)
        ensures
            entry.marks(user_id),
    {
        Metadata { key: "user_id".to_owned(), value: format_uuid(user_id) }
    }
}

impl ListCustomers {
    /// The lookup of the customer records of this user.
    pub fn of_user(user_id: u128) -> (query: ListCustomers)
        ensures
            query.metadata.marks(user_id),
    {
        ListCustomers { metadata: Metadata::of_user(user_id) }
    }
}

impl CustomerResolution {
    /// What is decided for `user_id` when the lookup found `customers`: the
    /// last record found, or the creation of a record marked for the user.
    pub open spec fn decided(self, user_id: u128, customers: Seq<Customer>) -> bool {
        if customers.len() > 0 {
            self matches CustomerResolution::Existing(c) && c == customers.last()
        } else {
            self matches CustomerResolution::Create(request) && request.metadata.marks(user_id)
        }
    }

    /// Decides from the answer to the lookup of a user's customer records:
    /// where one was found, the last of them is the user's customer; where
    /// none was found, a record marked for the user is to be created.
    pub fn resolve(user_id: u128, customers: Vec<Customer>) -> (r: CustomerResolution)
        ensures
            r.decided(user_id, customers@),
    {
        let mut customers = customers;
        match customers.pop() {
            Some(customer) => CustomerResolution::Existing(customer),
            None => CustomerResolution::Create(
                CreateCustomer { metadata: Metadata::of_user(user_id) },
            ),
        }
    }
}

} // verus!
