use vstd::prelude::*;
use crate::identity::{build_id, is_digest_hex, IdentityError};
use crate::inventory::{collect, collected, Inventory, SystemStats};
use crate::record::{rendered, AttrKey, AttributeRecord};

verus! {

/// COM status: the thread was already initialized with another concurrency model.
pub const RPC_E_CHANGED_MODE: i32 = -2147221164;
/// COM status: an outgoing call was made inside an input-synchronous call.
pub const RPC_E_CANTCALLOUT_ININPUTSYNCCALL: i32 = -2147221163;
/// COM status: the COM library was initialized too late, already set up.
pub const RPC_E_TOO_LATE: i32 = -2147417831;
/// COM status: security was initialized without authentication services.
pub const RPC_E_NO_GOOD_SECURITY_PACKAGES: i32 = -2147417830;
/// COM status: the call came from a thread other than the one initialized.
pub const RPC_E_WRONG_THREAD: i32 = -2147417842;

/// The inventory service could not be connected; `code` is the platform's
/// status code where it reported one.
#[derive(Clone, Copy, Debug, PartialEq, Eq, Structural)]
pub struct ServiceError {
    pub code: Option<i32>,
}

/// Why a whole collection failed.
#[derive(Clone, Debug, PartialEq, Eq)]
pub enum HwidError {
    ServiceUnavailable(ServiceError),
    Identity(IdentityError),
}

/// The diagnostic hint for a connection status code.
pub open spec fn hint_for(code: Option<i32>) -> Seq<char> {
    match code {
        Some(c) => if c == RPC_E_CHANGED_MODE {
            CHANGED_MODE_HINT@
        } else if c == RPC_E_CANTCALLOUT_ININPUTSYNCCALL {
            CANTCALLOUT_HINT@
        } else if c == RPC_E_TOO_LATE {
            TOO_LATE_HINT@
        } else if c == RPC_E_NO_GOOD_SECURITY_PACKAGES {
            NO_SECURITY_PACKAGES_HINT@
        } else if c == RPC_E_WRONG_THREAD {
            WRONG_THREAD_HINT@
        } else {
            GENERIC_HINT@
        },
        None => GENERIC_HINT@,
    }
}

/// Hint for `RPC_E_CHANGED_MODE`.
pub const CHANGED_MODE_HINT: &'static str = "RPC_E_CHANGED_MODE: this thread is already initialized with a different concurrency model";
/// Hint for `RPC_E_CANTCALLOUT_ININPUTSYNCCALL`.
pub const CANTCALLOUT_HINT: &'static str = "RPC_E_CANTCALLOUT_ININPUTSYNCCALL: an outgoing call was made inside an input-synchronous call";
/// Hint for `RPC_E_TOO_LATE`.
pub const TOO_LATE_HINT: &'static str = "RPC_E_TOO_LATE: the COM library was already initialized; it cannot be initialized twice";
/// Hint for `RPC_E_NO_GOOD_SECURITY_PACKAGES`.
pub const NO_SECURITY_PACKAGES_HINT: &'static str = "RPC_E_NO_GOOD_SECURITY_PACKAGES: security was initialized without authentication services";
/// Hint for `RPC_E_WRONG_THREAD`.
pub const WRONG_THREAD_HINT: &'static str = "RPC_E_WRONG_THREAD: the call came from a thread other than the one that was initialized";

/// The hint for a code without a known cause.
pub const GENERIC_HINT: &'static str = "the inventory service could not be initialized; it cannot be initialized twice in one process, nor from inside a running event loop";

impl ServiceError {
    /// A human-readable hint at the cause of the failed connection.
    pub fn hint(&self) -> (r: &'static str)
        ensures
            r@ == hint_for(self.code),
    {
        match self.code {
            Some(c) => if c == RPC_E_CHANGED_MODE {
                CHANGED_MODE_HINT
            } else if c == RPC_E_CANTCALLOUT_ININPUTSYNCCALL {
                CANTCALLOUT_HINT
            } else if c == RPC_E_TOO_LATE {
                TOO_LATE_HINT
            } else if c == RPC_E_NO_GOOD_SECURITY_PACKAGES {
                NO_SECURITY_PACKAGES_HINT
            } else if c == RPC_E_WRONG_THREAD {
                WRONG_THREAD_HINT
            } else {
                GENERIC_HINT
            },
            None => GENERIC_HINT,
        }
    }
}

/// The record of a successful collection: every category's keys and the
/// identifier under `ID`.
pub open spec fn assembled(inv: Inventory, st: SystemStats, id: Seq<char>) -> Map<AttrKey, Seq<char>> {
    collected(inv, st).insert(AttrKey::Id, id)
}

/// Combines the service connection's outcome, the system statistics and the
/// identifier's outcome. A failed connection fails the whole collection, and
/// then a failed identifier does; otherwise every category is merged and the
/// identifier is stored under `ID`.
pub fn assemble(
    service: &Result<Inventory, ServiceError>,
    st: &SystemStats,
    id: Result<String, IdentityError>,
) -> (r: Result<AttributeRecord, HwidError>)
    ensures
        match *service {
            Err(e) => r == Err::<AttributeRecord, HwidError>(HwidError::ServiceUnavailable(e)),
            Ok(inv) => match id {
                Err(ie) => r matches Err(HwidError::Identity(e2)) && e2.message@ == ie.message@,
                Ok(s) => r matches Ok(rec) && rec@ == assembled(inv, *st, s@),
            },
        },
{
    match service {
        Err(e) => Err(HwidError::ServiceUnavailable(*e)),
        Ok(inv) => match id {
            Err(ie) => Err(HwidError::Identity(ie)),
            Ok(s) => {
                let mut rec = collect(inv, st);
                rec.insert(AttrKey::Id, s);
                Ok(rec)
            },
        },
    }
}

/// Collects the hardware record for one machine and renders it as
/// `"key: value"` lines. `service` is the outcome of connecting to the
/// inventory service and querying each category; the identifier is derived
/// from live system properties under `key`, and only when the connection
/// succeeded.
pub fn query_hwid(service: &Result<Inventory, ServiceError>, st: &SystemStats, key: &str) -> (r: Result<String, HwidError>)
    ensures
        match *service {
            Err(e) => r == Err::<String, HwidError>(HwidError::ServiceUnavailable(e)),
            Ok(inv) => match r {
                Ok(text) => exists|id: Seq<char>| is_digest_hex(id) && text@ == rendered(#[trigger] assembled(inv, *st, id)),
                Err(e) => e is Identity,
            },
        },
{
    if let Err(e) = service {
        return Err(HwidError::ServiceUnavailable(*e));
    }
    let id = build_id(key);
    let ghost id_view = match &id { Ok(s) => s@, Err(_) => Seq::<char>::empty() };
    match assemble(service, st, id) {
        Ok(rec) => {
            let text = rec.render();
            assert(is_digest_hex(id_view) && text@ == rendered(assembled(service->Ok_0, *st, id_view)));
            Ok(text)
        },
        Err(e) => Err(e),
    }
}

} // verus!
