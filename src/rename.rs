//! The identity obfuscator's naming rule: a random alphanumeric name with
//! as many characters as the name it replaces.
use vstd::prelude::*;
use rand::distr::Distribution;
use crate::error::ShredError;

verus! {

/// An ASCII letter or digit.
pub open spec fn is_alphanumeric(c: char) -> bool {
    ('A' <= c && c <= 'Z') || ('a' <= c && c <= 'z') || ('0' <= c && c <= '9')
}

/// Every character of `s` is an ASCII letter or digit.
pub open spec fn all_alphanumeric(s: Seq<char>) -> bool {
    forall|i: int| 0 <= i < s.len() ==> is_alphanumeric(#[trigger] s[i])
}

/// Relies on rand's `Alphanumeric` distribution, sampled from a `StdRng`
/// seeded by `SeedableRng::try_from_os_rng`: seeding reports a failing
/// operating-system source as an error (here `None`) instead of panicking;
/// each sample is one byte of `A-Z`, `a-z`, `0-9`, taken as a char, and the
/// sample iterator never ends, so `take(len)` gives `len` of them.
#[verifier::external_body]
fn sample_alphanumeric(len: usize) -> (r: Option<String>)
    ensures
        r matches Some(s) ==> s@.len() == len && all_alphanumeric(s@),
{
    let mut rng = <rand::rngs::StdRng as rand::SeedableRng>::try_from_os_rng().ok()?;
    Some(rand::distr::Alphanumeric.sample_iter(&mut rng).take(len).map(char::from).collect())
}

/// A fresh random name for a file called `file_name`: alphanumeric, with
/// exactly as many characters (not bytes) as `file_name`. When no random
/// generator can be seeded the error is `RandomSource`.
pub fn obfuscated_name(file_name: &str) -> (r: Result<String, ShredError>)
    ensures
        r matches Ok(n) ==> n@.len() == file_name@.len() && all_alphanumeric(n@),
        r matches Err(e) ==> e is RandomSource,
{
    let n = file_name.unicode_len();
    match sample_alphanumeric(n) {
        Some(name) => Ok(name),
        None => Err(ShredError::RandomSource),
    }
}

/// The new name for the file at `path`, whose file-name component is
/// `file_name`. A path without such a component (a filesystem root) is
/// refused with an error that names it.
pub fn renamed_file_name(path: &str, file_name: Option<&str>) -> (r: Result<String, ShredError>)
    ensures
        match file_name {
            None => r matches Err(ShredError::InvalidPath { path: p }) && p@ == path@,
            Some(name) => match r {
                Ok(n) => n@.len() == name@.len() && all_alphanumeric(n@),
                Err(e) => e is RandomSource,
            },
        },
{
    match file_name {
        None => Err(ShredError::InvalidPath { path: String::from_str(path) }),
        Some(name) => obfuscated_name(name),
    }
}

} // verus!
