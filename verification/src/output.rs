//! Names of the image files a run writes.

use vstd::prelude::*;

verus! {

/// The character of the decimal digit `d`.
pub open spec fn digit(d: nat) -> char {
    (48 + d) as char
}

/// `n` written in decimal, without sign or leading zeros.
pub open spec fn decimal(n: nat) -> Seq<char>
    decreases n,
{
    if n < 10 {
        seq![digit(n)]
    } else {
        decimal(n / 10).push(digit(n % 10))
    }
}

/// The path of the image with the given index: the base path, the index in
/// decimal, and the extension `.png`.
pub open spec fn image_path_spec(basepath: Seq<char>, index: nat) -> Seq<char> {
    basepath + decimal(index) + seq!['.', 'p', 'n', 'g']
}

/// Formats one path with `format!`, which appends its arguments in order and
/// writes an unsigned integer in decimal.
#[verifier::external_body]
fn image_path(basepath: &str, index: usize) -> (r: String)
    ensures
        r@ == image_path_spec(basepath@, index as nat),
{
    format!("{}{}.png", basepath, index)
}

/// The paths of `count` images, in the order of their indices.
pub fn image_paths(basepath: &str, count: usize) -> (r: Vec<String>)
    ensures
        r@.len() == count,
        forall|i: int| 0 <= i < count ==> (#[trigger] r@[i])@ == image_path_spec(basepath@, i as nat),
{
    let mut paths: Vec<String> = Vec::new();
    let mut index: usize = 0;
    while index < count
        invariant
            index <= count,
            paths@.len() == index,
            forall|i: int|
                0 <= i < index ==> (#[trigger] paths@[i])@ == image_path_spec(basepath@, i as nat),
        decreases count - index,
    {
        paths.push(image_path(basepath, index));
        index = index + 1;
    }
    paths
}

} // verus!
