//! The one piece of connection handling that is plain computation: taking
//! the filesystem path out of a sqlite connection URL. Opening the pool and
//! running migrations belong to the surrounding application.
use crate::text::{has_prefix, spec_has_prefix};
use vstd::prelude::*;

verus! {

/// The path component of a sqlite connection URL: the remainder after a
/// `sqlite://` prefix, or after a bare `sqlite:` prefix, and nothing for any
/// other scheme.
pub fn extract_db_path(database_url: &str) -> (r: Option<&str>)
    ensures
        spec_has_prefix(database_url@, "sqlite://"@) ==> (r matches Some(p) && p@
            == database_url@.subrange("sqlite://"@.len() as int, database_url@.len() as int)),
        !spec_has_prefix(database_url@, "sqlite://"@) && spec_has_prefix(database_url@, "sqlite:"@)
            ==> (r matches Some(p) && p@ == database_url@.subrange(
            "sqlite:"@.len() as int,
            database_url@.len() as int,
        )),
        !spec_has_prefix(database_url@, "sqlite://"@) && !spec_has_prefix(
            database_url@,
            "sqlite:"@,
        ) ==> r is None,
{
    proof {
        reveal_strlit("sqlite://");
        reveal_strlit("sqlite:");
    }
    let n: usize = database_url.unicode_len();
    if has_prefix(database_url, "sqlite://") {
        Some(database_url.substring_char(9, n))
    } else if has_prefix(database_url, "sqlite:") {
        Some(database_url.substring_char(7, n))
    } else {
        None
    }
}

} // verus!
