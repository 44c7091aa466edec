//! Small standalone utilities: a first-match search and a length
//! comparison on string slices.

use vstd::prelude::*;
use vstd::string::StringSliceAdditionalSpecFns;

verus! {

/// The first even number in `nums`, if any.
pub fn find_even(nums: &[i32]) -> (r: Option<i32>)
    ensures
        r matches Some(n) ==> (exists|i: int|
            0 <= i < nums@.len() && nums@[i] == n && n % 2 == 0 && (forall|j: int|
                0 <= j < i ==> nums@[j] % 2 != 0)),
        r is None ==> (forall|i: int| 0 <= i < nums@.len() ==> nums@[i] % 2 != 0),
{
    let mut i: usize = 0;
    while i < nums.len()
        invariant
            i <= nums@.len(),
            forall|j: int| 0 <= j < i ==> nums@[j] % 2 != 0,
        decreases nums@.len() - i,
    {
        let n = nums[i];
        if n % 2 == 0 {
            return Some(n);
        }
        i = i + 1;
    }
    None
}

/// The longer of two string slices, measured in bytes; `y` when the
/// lengths are equal.
pub fn longest<'a>(x: &'a str, y: &'a str) -> (r: &'a str)
    ensures
        r@ == (if x.spec_bytes().len() > y.spec_bytes().len() {
            x@
        } else {
            y@
        }),
{
    if x.as_bytes().len() > y.as_bytes().len() {
        x
    } else {
        y
    }
}

} // verus!
