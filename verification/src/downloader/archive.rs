//! Recognition of supported archive formats.
use vstd::prelude::*;

use crate::text::{ends_with, has_suffix};

verus! {

/// Whether an archive named `name` can be unpacked: a bzip2-compressed tar.
pub open spec fn spec_is_supported_archive(name: Seq<char>) -> bool {
    has_suffix(name, ".tar.bz2"@) || has_suffix(name, ".tbz2"@)
}

/// Checks that the archive file `name` has a supported format; otherwise returns
/// the message `不支持的压缩格式: ` followed by the name.
pub fn check_archive_name(name: &str) -> (r: Result<(), String>)
    ensures
        spec_is_supported_archive(name@) ==> r.is_ok(),
        !spec_is_supported_archive(name@) ==> (r matches Err(msg) && msg@ == "不支持的压缩格式: "@ + name@),
{
    if ends_with(name, ".tar.bz2") || ends_with(name, ".tbz2") {
        Ok(())
    } else {
        let mut msg = String::from_str("不支持的压缩格式: ");
        msg.append(name);
        Err(msg)
    }
}

} // verus!
