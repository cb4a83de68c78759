//! Account identifiers: 32-byte public keys.

use vstd::prelude::*;

verus! {

/// A 32-byte account identifier; equality is byte equality.
#[derive(Clone, Copy, Debug, PartialEq, Eq, Hash)]
pub struct AccountId {
    pub bytes: [u8; 32],
}

impl View for AccountId {
    type V = Seq<u8>;

    open spec fn view(&self) -> Seq<u8> {
        self.bytes@
    }
}

/// Byte-wise comparison of two accounts.
pub fn same_account(a: &AccountId, b: &AccountId) -> (r: bool)
    ensures
        r == (a@ == b@),
{
    let mut i: usize = 0;
    while i < 32
        invariant
            i <= 32,
            a@.len() == 32,
            b@.len() == 32,
            forall|k: int| 0 <= k < i ==> a@[k] == b@[k],
        decreases 32 - i,
    {
        if a.bytes[i] != b.bytes[i] {
            return false;
        }
        i = i + 1;
    }
    assert(a@ =~= b@);
    true
}

/// Whether `accounts` holds an account equal to `a`.
pub fn holds_account(accounts: &Vec<AccountId>, a: &AccountId) -> (r: bool)
    ensures
        r == exists|i: int| 0 <= i < accounts@.len() && (#[trigger] accounts@[i])@ == a@,
{
    let mut i: usize = 0;
    while i < accounts.len()
        invariant
            i <= accounts@.len(),
            forall|k: int| 0 <= k < i ==> (#[trigger] accounts@[k])@ != a@,
        decreases accounts@.len() - i,
    {
        if same_account(&accounts[i], a) {
            return true;
        }
        i = i + 1;
    }
    false
}

/// What `sp_core::crypto::AccountId32::from_str` makes of a text while the process-wide
/// default SS58 format is `default_format`: 64 hex digits (with or without `0x`), or an
/// SS58 address in a standard format or in the default one; the 32 bytes of the key.
pub uninterp spec fn parsed_account(s: Seq<char>, default_format: u16) -> Option<Seq<u8>>;

/// Relies on `sp_core::crypto::default_ss58_version` (the process-wide default format,
/// read just before parsing), on `AccountId32::from_str`, and on its conversion into the
/// 32 bytes of the key.
#[verifier::external_body]
pub(crate) fn parse_account(s: &str) -> (r: (Option<AccountId>, u16))
    ensures
        match r.0 {
            Some(a) => parsed_account(s@, r.1) == Some(a@),
            None => parsed_account(s@, r.1) is None,
        },
{
    let format = u16::from(sp_core::crypto::default_ss58_version());
    match s.parse::<sp_core::crypto::AccountId32>() {
        Ok(a) => (Some(AccountId { bytes: a.into() }), format),
        Err(_) => (None, format),
    }
}

} // verus!
