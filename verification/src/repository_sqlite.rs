//! The local (SQLite) store: how the values it reports back become the service's own.

use vstd::prelude::*;

use crate::error::{RepoError, StoredValueKind};
use crate::models::{BarcodeLookupStatus, UserRole};
pub use crate::repository::{parse_purchase_order_status, parse_sales_order_status, parse_stock_check_status};
use crate::repository::unknown_stored_value;
use crate::text::str_eq;

verus! {

/// The repository backed by a local SQLite file.
#[derive(Debug, Clone, Copy, Default)]
pub struct SqliteRepository;

/// The role a stored role name means in the local store.
pub open spec fn parse_local_user_role_spec(raw: Seq<char>) -> Option<UserRole> {
    if raw == "OWNER"@ {
        Some(UserRole::Owner)
    } else if raw == "ADMIN"@ {
        Some(UserRole::Admin)
    } else if raw == "PURCHASER"@ {
        Some(UserRole::Purchaser)
    } else if raw == "SALES"@ {
        Some(UserRole::Sales)
    } else {
        None
    }
}

/// Reads a role name stored in the local store.
pub fn parse_user_role(raw: &str) -> (r: Result<UserRole, RepoError>)
    ensures
        match parse_local_user_role_spec(raw@) {
            Some(v) => r == Ok::<UserRole, RepoError>(v),
            None => r matches Err(RepoError::UnknownStoredValue { kind, raw: t }) && kind == StoredValueKind::LocalUserRole
                && t@ == raw@,
        },
{
    if str_eq(raw, "OWNER") {
        Ok(UserRole::Owner)
    } else if str_eq(raw, "ADMIN") {
        Ok(UserRole::Admin)
    } else if str_eq(raw, "PURCHASER") {
        Ok(UserRole::Purchaser)
    } else if str_eq(raw, "SALES") {
        Ok(UserRole::Sales)
    } else {
        Err(unknown_stored_value(StoredValueKind::LocalUserRole, raw))
    }
}

/// Reads a barcode lookup status stored in the local store.
pub fn parse_barcode_lookup_status(raw: &str) -> (r: Result<BarcodeLookupStatus, RepoError>)
    ensures
        match crate::repository::parse_barcode_lookup_status_spec(raw@) {
            Some(v) => r == Ok::<BarcodeLookupStatus, RepoError>(v),
            None => r matches Err(RepoError::UnknownStoredValue { kind, raw: t }) && kind
                == StoredValueKind::LocalBarcodeLookupStatus && t@ == raw@,
        },
{
    if str_eq(raw, "FOUND") {
        Ok(BarcodeLookupStatus::Found)
    } else if str_eq(raw, "NOT_FOUND") {
        Ok(BarcodeLookupStatus::NotFound)
    } else {
        Err(unknown_stored_value(StoredValueKind::LocalBarcodeLookupStatus, raw))
    }
}

/// Whether `needle` occurs in `haystack` at position `i`.
pub open spec fn occurs_at(haystack: Seq<char>, needle: Seq<char>, i: int) -> bool {
    0 <= i && i + needle.len() <= haystack.len() && haystack.subrange(i, i + needle.len()) == needle
}

/// Whether `needle` occurs somewhere in `haystack`.
pub open spec fn contains_spec(haystack: Seq<char>, needle: Seq<char>) -> bool {
    exists|i: int| #[trigger] occurs_at(haystack, needle, i)
}

fn occurs_at_exec(h: &str, n: &str, i: usize, hl: usize, nl: usize) -> (b: bool)
    requires
        hl == h@.len(),
        nl == n@.len(),
        i + nl <= hl,
    ensures
        b == occurs_at(h@, n@, i as int),
{
    let mut k: usize = 0;
    while k < nl
        invariant
            k <= nl,
            hl == h@.len(),
            nl == n@.len(),
            i + nl <= hl,
            forall|m: int| 0 <= m < k ==> h@[i + m] == n@[m],
        decreases nl - k,
    {
        if h.get_char(i + k) != n.get_char(k) {
            proof {
                assert(h@.subrange(i as int, i + nl)[k as int] != n@[k as int]);
            }
            return false;
        }
        k = k + 1;
    }
    assert(h@.subrange(i as int, i + nl) =~= n@);
    true
}

/// Whether `needle` occurs in `haystack`.
pub fn contains(haystack: &str, needle: &str) -> (b: bool)
    ensures
        b == contains_spec(haystack@, needle@),
{
    let hl = haystack.unicode_len();
    let nl = needle.unicode_len();
    if nl > hl {
        proof {
            assert forall|i: int| !occurs_at(haystack@, needle@, i) by {}
        }
        return false;
    }
    let last = hl - nl;
    let mut i: usize = 0;
    loop
        invariant
            nl <= hl,
            last == hl - nl,
            hl == haystack@.len(),
            nl == needle@.len(),
            i <= last,
            forall|j: int| 0 <= j < i ==> !#[trigger] occurs_at(haystack@, needle@, j),
        ensures
            forall|j: int| 0 <= j <= last ==> !#[trigger] occurs_at(haystack@, needle@, j),
        decreases last - i,
    {
        if occurs_at_exec(haystack, needle, i, hl, nl) {
            return true;
        }
        if i == last {
            break;
        }
        i = i + 1;
    }
    proof {
        assert forall|j: int| !#[trigger] occurs_at(haystack@, needle@, j) by {
            if 0 <= j <= last {
            }
        }
    }
    false
}

/// Whether a failure reported by the local store is a violated uniqueness constraint: its
/// message names one. The local store reports no SQLSTATE, so `_sql_state` is not read.
pub fn is_sql_state(message: &str, _sql_state: &str) -> (b: bool)
    ensures
        b == contains_spec(message@, "UNIQUE constraint failed"@),
{
    contains(message, "UNIQUE constraint failed")
}

} // verus!
