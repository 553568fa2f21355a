//! The `latitude,longitude` argument: its split into the two coordinates.

use vstd::prelude::*;
use vstd::string::*;

verus! {

/// How many commas `s` holds.
pub open spec fn comma_count(s: Seq<char>) -> nat
    decreases s.len(),
{
    if s.len() == 0 {
        0
    } else {
        comma_count(s.drop_last()) + if s.last() == ',' { 1nat } else { 0nat }
    }
}

/// The message for a location that is not two comma-separated parts.
pub open spec fn spec_format_error(location: Seq<char>) -> Seq<char> {
    "Invalid location format. Expected 'latitude,longitude', got '"@ + location + "'"@
}

/// Split a location argument at its comma into the latitude and longitude
/// texts (untrimmed). Anything but exactly two parts is a format error,
/// whose message quotes the argument.
pub fn split_location(location: &str) -> (r: Result<(String, String), String>)
    ensures
        r is Ok <==> comma_count(location@) == 1,
        r matches Ok(parts) ==> exists|k: int|
            0 <= k < location@.len() && location@[k] == ',' && parts.0@ == location@.take(k)
                && parts.1@ == location@.skip(k + 1),
        r matches Ok(parts) ==> parts.0@ + seq![','] + parts.1@ == location@,
        r matches Err(m) ==> m@ == spec_format_error(location@),
{
    let n = location.unicode_len();
    let mut i: usize = 0;
    let mut commas: usize = 0;
    let mut at: usize = 0;
    while i < n
        invariant
            n == location@.len(),
            i <= n,
            commas == comma_count(location@.take(i as int)),
            commas <= i,
            commas >= 1 ==> at < i && location@[at as int] == ',' && comma_count(
                location@.take(at as int),
            ) == 0,
        decreases n - i,
    {
        proof {
            assert(location@.take(i + 1).drop_last() =~= location@.take(i as int));
        }
        if location.get_char(i) == ',' {
            if commas == 0 {
                at = i;
            }
            commas = commas + 1;
        }
        i = i + 1;
    }
    proof {
        assert(location@.take(n as int) =~= location@);
    }
    if commas == 1 {
        let before = String::from_str(location.substring_char(0, at));
        let after = String::from_str(location.substring_char(at + 1, n));
        assert(before@ == location@.take(at as int));
        assert(after@ == location@.skip(at + 1));
        assert(before@ + seq![','] + after@ =~= location@);
        Ok((before, after))
    } else {
        let mut m = String::from_str("Invalid location format. Expected 'latitude,longitude', got '");
        m.append(location);
        m.append("'");
        Err(m)
    }
}

} // verus!
