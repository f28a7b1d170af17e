//! Small operations on text and bytes that the other modules share.

use vstd::prelude::*;
use vstd::string::StringExecFns;

verus! {

/// The views of a sequence of strings.
pub open spec fn texts(v: Seq<String>) -> Seq<Seq<char>> {
    Seq::new(v.len(), |i: int| v[i]@)
}

/// Whether two texts hold the same characters.
pub fn same_text(a: &str, b: &str) -> (same: bool)
    ensures
        same == (a@ == b@),
{
    String::from_str(a) == String::from_str(b)
}

/// A name, a colon and a space, and what follows.
pub open spec fn labelled(name: Seq<char>, rest: Seq<char>) -> Seq<char> {
    name + ": "@ + rest
}

/// Puts a name before a text, with a colon between them.
pub fn label_text(name: &str, rest: &str) -> (text: String)
    ensures
        text@ == labelled(name@, rest@),
{
    let mut text = String::from_str(name);
    text.append(": ");
    text.append(rest);
    text
}

/// A copy of some bytes.
pub fn copy_bytes(bytes: &Vec<u8>) -> (copy: Vec<u8>)
    ensures
        copy@ == bytes@,
{
    let mut copy: Vec<u8> = Vec::new();
    let mut i: usize = 0;
    while i < bytes.len()
        invariant
            i <= bytes.len(),
            copy@ == bytes@.take(i as int),
        decreases bytes.len() - i,
    {
        copy.push(bytes[i]);
        assert(bytes@.take(i as int).push(bytes@[i as int]) == bytes@.take(i + 1));
        i += 1;
    }
    assert(bytes@.take(bytes@.len() as int) == bytes@);
    copy
}

} // verus!
