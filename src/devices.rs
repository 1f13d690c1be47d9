//! Where a host device node is recreated inside a sandbox's home.
use vstd::prelude::*;
use crate::errors::LitterboxError;
use crate::files::{join_path, path_join};

verus! {

/// The part of `device_path` below `/dev/`; any other path is refused.
pub fn device_sub_path(device_path: &str) -> (r: Result<String, LitterboxError>)
    ensures
        device_path@.len() >= 5 && device_path@.take(5) == "/dev/"@ ==> (r matches Ok(sub)
            && sub@ == device_path@.skip(5)),
        !(device_path@.len() >= 5 && device_path@.take(5) == "/dev/"@) ==> (r matches Err(
            LitterboxError::InvalidDevicePath(p),
        ) && p@ == device_path@),
{
    proof {
        reveal_strlit("/dev/");
    }
    let prefix = "/dev/";
    let n = device_path.unicode_len();
    if n >= 5 {
        let head = device_path.substring_char(0, 5);
        if crate::text::str_eq(head, prefix) {
            return Ok(String::from_str(device_path.substring_char(5, n)));
        }
    }
    Err(LitterboxError::InvalidDevicePath(String::from_str(device_path)))
}

/// Where the node for `sub_path` goes: `dev/<sub_path>` under the
/// sandbox's home directory.
pub fn device_dest_path(lbx_home: &str, sub_path: &str) -> (r: String)
    ensures
        r@ == path_join(path_join(lbx_home@, "dev"@), sub_path@),
{
    let dev = join_path(lbx_home, "dev");
    join_path(dev.as_str(), sub_path)
}

} // verus!
