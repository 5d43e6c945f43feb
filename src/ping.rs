use vstd::prelude::*;
use vstd::string::*;

use crate::text::{decimal, decimal_text};

verus! {

/// The arguments of the system ping command for `count` echo requests to `host`:
/// `-c <count> <host>`.
pub fn ping_args(host: &str, count: u8) -> (r: Vec<String>)
    ensures
        r@.len() == 3,
        r@[0]@ == "-c"@,
        r@[1]@ == decimal(count as nat),
        r@[2]@ == host@,
{
    let mut r: Vec<String> = Vec::new();
    r.push(String::from_str("-c"));
    r.push(decimal_text(count as u64));
    r.push(String::from_str(host));
    r
}

} // verus!
