//! Invocation arguments for a poll loop built on this library.
//!
//! Argument retrieval is the caller's business; it hands the argument list
//! in as plain strings. The first argument, when given, names the device
//! root directory; the second, when given, the location tag to attach to
//! every measurement.

use vstd::prelude::*;

verus! {

/// The default device root directory, used when no argument names one.
pub open spec fn default_root() -> Seq<char> {
    "/sys/bus/iio/devices"@
}

/// What an invocation asks for: the device root directory to enumerate and
/// an optional location tag for the measurements.
pub struct Args {
    pub location: Option<String>,
    pub iioroot: String,
}

impl Args {
    /// Reads the argument list (without the program name): the first
    /// argument names the device root directory, defaulting to the
    /// well-known one; the second, when given, the location tag.
    pub fn parse(argv: &Vec<String>) -> (r: Args)
        ensures
            argv@.len() == 0 ==> r.iioroot@ == default_root(),
            argv@.len() >= 1 ==> r.iioroot@ == argv@[0]@,
            argv@.len() >= 2 ==> (r.location matches Some(l) && l@ == argv@[1]@),
            argv@.len() < 2 ==> r.location is None,
    {
        let iioroot = if argv.len() >= 1 {
            argv[0].clone()
        } else {
            String::from_str("/sys/bus/iio/devices")
        };
        let location = if argv.len() >= 2 {
            Some(argv[1].clone())
        } else {
            None
        };
        Args { location, iioroot }
    }
}

/// Reads the argument list as `Args::parse` does.
pub fn parse_args(argv: &Vec<String>) -> (r: Args)
    ensures
        argv@.len() == 0 ==> r.iioroot@ == default_root(),
        argv@.len() >= 1 ==> r.iioroot@ == argv@[0]@,
        argv@.len() >= 2 ==> (r.location matches Some(l) && l@ == argv@[1]@),
        argv@.len() < 2 ==> r.location is None,
{
    Args::parse(argv)
}

} // verus!
