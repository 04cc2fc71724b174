//! What a node keeps on disk beside the document: the files and how they are read.

use vstd::prelude::*;

verus! {

/// The file, under a node's directory, that holds the node's secret key.
pub const KEYPAIR_FILE: &'static str = "keypair";

/// The file, under a node's directory, that holds the author under which the node writes.
pub const AUTHOR_FILE: &'static str = "default.author";

/// The first 32 bytes of `bytes`.
fn first_32(bytes: &[u8]) -> (r: [u8; 32])
    requires
        bytes.len() >= 32,
    ensures
        r@ == bytes@.take(32),
{
    let mut out = [0u8; 32];
    let mut i: usize = 0;
    while i < 32
        invariant
            i <= 32,
            bytes.len() >= 32,
            forall|j: int| 0 <= j < i ==> out@[j] == bytes@[j],
        decreases 32 - i,
    {
        out[i] = bytes[i];
        i = i + 1;
    }
    assert(out@ =~= bytes@.take(32));
    out
}

/// The secret key that a key file holds: its first 32 bytes, taken as they
/// stand. A shorter file holds no key.
pub fn secret_key_of_file(contents: &[u8]) -> (r: Option<[u8; 32]>)
    ensures
        match r {
            Some(key) => contents.len() >= 32 && key@ == contents@.take(32),
            None => contents.len() < 32,
        },
{
    if contents.len() < 32 {
        None
    } else {
        Some(first_32(contents))
    }
}

/// The author that an author file holds: the file's 32 bytes. A file of
/// another length holds no author.
pub fn author_of_file(contents: &[u8]) -> (r: Option<[u8; 32]>)
    ensures
        match r {
            Some(author) => contents.len() == 32 && author@ == contents@,
            None => contents.len() != 32,
        },
{
    if contents.len() != 32 {
        None
    } else {
        let author = first_32(contents);
        assert(contents@.take(32) =~= contents@);
        Some(author)
    }
}

} // verus!
