//! The control file: what is written to it, where it lives by default, and
//! how a control file in the temporary directory is named after the working
//! directory, so that supervisors started in different directories do not
//! share one.

use std::collections::hash_map::DefaultHasher;
use std::hash::Hasher;
use vstd::prelude::*;
use vstd::std_specs::hash::DefaultHasherAdditionalSpecFns;

verus! {

/// What each of the writes that `std::path::Path`'s implementation of
/// `Hash` makes to a hasher holds, in order, for the path with this text, on
/// the platform this library is built for.
pub uninterp spec fn path_writes(path: Seq<char>) -> Seq<Seq<u8>>;

/// The hash of a path: what a fresh `DefaultHasher` returns once the path
/// has been fed to it.
pub open spec fn path_hash(path: Seq<char>) -> u64 {
    DefaultHasher::spec_finish(path_writes(path))
}

/// The character of a decimal digit.
pub open spec fn digit(d: nat) -> char
    recommends
        d < 10,
{
    if d == 0 {
        '0'
    } else if d == 1 {
        '1'
    } else if d == 2 {
        '2'
    } else if d == 3 {
        '3'
    } else if d == 4 {
        '4'
    } else if d == 5 {
        '5'
    } else if d == 6 {
        '6'
    } else if d == 7 {
        '7'
    } else if d == 8 {
        '8'
    } else {
        '9'
    }
}

/// A number in decimal, without sign or leading zeros.
pub open spec fn decimal(n: nat) -> Seq<char>
    decreases n,
{
    if n < 10 {
        seq![digit(n)]
    } else {
        decimal(n / 10).push(digit(n % 10))
    }
}

/// What every name of a control file in the temporary directory begins with.
pub open spec fn name_prefix() -> Seq<char> {
    seq!['r', 's', 't', 'r', 't', 'r', '.']
}

/// The name of the control file for a working directory with this hash: the
/// prefix, then the hash in decimal.
pub open spec fn control_name(hash: u64) -> Seq<char> {
    name_prefix() + decimal(hash as nat)
}

/// The path of the control file where none is given.
pub open spec fn default_path() -> Seq<char> {
    seq!['.', '/', '.', 'r', 's', 't', 'r', 't', 'r']
}

/// What the control file holds: a single newline.
pub open spec fn content() -> Seq<char> {
    seq!['\n']
}

/// Feeds a path to a hasher by calling `hash` of `std::path::Path`'s
/// implementation of `std::hash::Hash`.
///
/// Trusted, not proved: the call does nothing but write to the hasher, after
/// what was written to it before, a sequence of byte strings that depends on
/// the text of the path alone. What those byte strings are is not stated.
#[verifier::external_body]
fn feed_path(path: &str, state: &mut DefaultHasher)
    ensures
        final(state)@ == old(state)@ + path_writes(path@),
{
    std::hash::Hash::hash(std::path::Path::new(path), state);
}

/// The hash of a path. The same text gives the same hash, whichever process
/// asks.
pub fn calculate_hash(path: &str) -> (hash: u64)
    ensures
        hash == path_hash(path@),
{
    let mut hasher = DefaultHasher::new();
    feed_path(path, &mut hasher);
    assert(hasher@ =~= path_writes(path@));
    hasher.finish()
}

/// The text of one decimal digit.
fn digit_text(d: u64) -> (text: &'static str)
    requires
        d < 10,
    ensures
        text@ == seq![digit(d as nat)],
{
    proof {
        reveal_strlit("0");
        reveal_strlit("1");
        reveal_strlit("2");
        reveal_strlit("3");
        reveal_strlit("4");
        reveal_strlit("5");
        reveal_strlit("6");
        reveal_strlit("7");
        reveal_strlit("8");
        reveal_strlit("9");
    }
    let text = if d == 0 {
        "0"
    } else if d == 1 {
        "1"
    } else if d == 2 {
        "2"
    } else if d == 3 {
        "3"
    } else if d == 4 {
        "4"
    } else if d == 5 {
        "5"
    } else if d == 6 {
        "6"
    } else if d == 7 {
        "7"
    } else if d == 8 {
        "8"
    } else {
        "9"
    };
    assert(text@ =~= seq![digit(d as nat)]);
    text
}

/// Appends a number in decimal to a text.
fn push_decimal(text: &mut String, n: u64)
    ensures
        final(text)@ == old(text)@ + decimal(n as nat),
    decreases n,
{
    if n >= 10 {
        push_decimal(text, n / 10);
    }
    text.append(digit_text(n % 10));
    assert(text@ =~= old(text)@ + decimal(n as nat));
}

/// The name of the control file in the temporary directory, given the hash
/// of the working directory.
pub fn control_file_name(hash: u64) -> (name: String)
    ensures
        name@ == control_name(hash),
{
    proof {
        reveal_strlit("rstrtr.");
    }
    let mut name = String::from_str("rstrtr.");
    assert(name@ =~= name_prefix());
    push_decimal(&mut name, hash);
    name
}

/// The name of the control file in the temporary directory for a supervisor
/// that works in the directory `cwd`. Every process that works in that
/// directory arrives at the same name.
pub fn temp_control_name(cwd: &str) -> (name: String)
    ensures
        name@ == control_name(path_hash(cwd@)),
{
    control_file_name(calculate_hash(cwd))
}

/// The path of the control file where none is given: `.rstrtr` in the
/// working directory.
pub fn default_control_path() -> (path: &'static str)
    ensures
        path@ == default_path(),
{
    proof {
        reveal_strlit("./.rstrtr");
    }
    let path = "./.rstrtr";
    assert(path@ =~= default_path());
    path
}

/// What is written to the control file, both to create it and to ask for a
/// restart. Only the write matters; nobody reads the content.
pub fn control_content() -> (text: &'static str)
    ensures
        text@ == content(),
{
    proof {
        reveal_strlit("\n");
    }
    let text = "\n";
    assert(text@ =~= content());
    text
}

} // verus!
