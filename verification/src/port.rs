//! Ports chosen from the hash of a model's name.

use vstd::prelude::*;

verus! {

/// The port `9000 + (hash & 0xff)` that a daemon takes when none is given.
pub open spec fn hashed_port(hash: u64) -> u16 {
    (9000 + hash % 256) as u16
}

/// Picks the port for a model whose name hashes to `hash`.
pub fn port_from_hash(hash: u64) -> (port: u16)
    ensures
        port == hashed_port(hash),
        9000 <= port <= 9255,
{
    let low = hash & 0xff;
    assert(low == hash % 256 && low < 256) by (bit_vector)
        requires
            low == hash & 0xff,
    ;
    9000u16 + low as u16
}

/// The hash that Rust's default hasher, `DefaultHasher`, gives the text
/// `text` (hashed as a `str`).
pub uninterp spec fn str_default_hash(text: Seq<char>) -> u64;

/// The hash of `text` under Rust's default hasher, `DefaultHasher`
/// (`BuildHasher::hash_one` with `BuildHasherDefault<DefaultHasher>`). The
/// contract claims only that the hash is a function of the text, named
/// `str_default_hash`: the standard library documents that hashers made by
/// `DefaultHasher::new` agree with each other, and a `str` is hashed as its
/// bytes followed by `0xff`, the same on every platform. Which function it is
/// (SipHash-1-3 with zero keys today) is left unsaid, since the documentation
/// reserves the right to change it between Rust releases.
#[verifier::external_body]
pub(crate) fn default_hash_of_str(text: &str) -> (hash: u64)
    ensures
        hash == str_default_hash(text@),
{
    std::hash::BuildHasher::hash_one(&std::hash::BuildHasherDefault::<std::hash::DefaultHasher>::default(), text)
}

/// The hash of the path `path` under Rust's default hasher: `PathBuf::from`,
/// then `BuildHasher::hash_one` with `BuildHasherDefault<DefaultHasher>`.
/// Nothing is stated of the value: `Path::hash` writes a native-width
/// `usize` into the hasher, so the hash of a path differs between machines.
#[verifier::external_body]
pub(crate) fn default_hash_of_path(path: &str) -> (hash: u64) {
    std::hash::BuildHasher::hash_one(&std::hash::BuildHasherDefault::<std::hash::DefaultHasher>::default(), std::path::PathBuf::from(path))
}

} // verus!
