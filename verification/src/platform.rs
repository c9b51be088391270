//! The library's three calls out of pure computation: a fresh identifier,
//! the current time, and the platform's configuration directory. Nothing
//! is assumed of any of the three values; every operation is verified for
//! whatever they turn out to be.

use vstd::prelude::*;
use crate::paths::app_dir_under;
use crate::types::LibError;

verus! {

/// Relies on uuid's `Uuid::new_v4`, rendered in its canonical hyphenated
/// form, for a fresh record identifier. The value is random; the store
/// never relies on its uniqueness, which the collection invariant keeps on
/// its own (see `model::upsert_rel`).
#[verifier::external_body]
pub(crate) fn fresh_id() -> String {
    uuid::Uuid::new_v4().to_string()
}

/// Relies on chrono's `Utc::now`, rendered with `to_rfc3339`, for record
/// timestamps. The value depends on the clock.
#[verifier::external_body]
pub(crate) fn now_rfc3339() -> String {
    chrono::Utc::now().to_rfc3339()
}

/// Relies on dirs' `config_dir`: the per-user configuration directory, if
/// the platform defines one. The value depends on the machine and the
/// environment.
#[verifier::external_body]
pub(crate) fn platform_config_base() -> Option<String> {
    dirs::config_dir().map(|p| p.to_string_lossy().to_string())
}

/// The application's private configuration root: the application's own
/// directory under the platform's configuration base. A platform without
/// one blocks every dependent operation with a configuration error.
pub fn config_root() -> (r: Result<String, LibError>)
    ensures
        r matches Ok(p) ==> exists|base: Seq<char>| p@ == base + "/"@ + "aether-manager"@,
        r matches Err(e) ==> e == LibError::ConfigDirUnavailable,
{
    match platform_config_base() {
        Some(base) => {
            let p = app_dir_under(base.as_str());
            proof {
                assert(p@ == base@ + "/"@ + "aether-manager"@);
            }
            Ok(p)
        }
        None => Err(LibError::ConfigDirUnavailable),
    }
}

} // verus!
