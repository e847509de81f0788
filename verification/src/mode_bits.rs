//! File type and permission bits, as `libc` defines them for Linux.
use vstd::prelude::*;

verus! {

/// Mask of the file type bits (`S_IFMT`).
pub open spec fn file_type_mask() -> u32 {
    0o170000
}

/// File type of a regular file (`S_IFREG`).
pub open spec fn regular_file_type() -> u32 {
    0o100000
}

/// File type of a directory (`S_IFDIR`).
pub open spec fn directory_type() -> u32 {
    0o040000
}

/// `libc::S_IFMT`, which is `0o170000` on Linux.
#[verifier::external_body]
pub(crate) fn s_ifmt() -> (r: u32)
    ensures
        r == file_type_mask(),
{
    libc::S_IFMT
}

/// `libc::S_IFREG`, which is `0o100000` on Linux.
#[verifier::external_body]
pub(crate) fn s_ifreg() -> (r: u32)
    ensures
        r == regular_file_type(),
{
    libc::S_IFREG
}

/// `libc::S_IFDIR`, which is `0o040000` on Linux.
#[verifier::external_body]
pub(crate) fn s_ifdir() -> (r: u32)
    ensures
        r == directory_type(),
{
    libc::S_IFDIR
}

/// `libc::S_IXUSR` (owner may execute), `0o100` on Linux.
#[verifier::external_body]
pub(crate) fn s_ixusr() -> (r: u32)
    ensures
        r == 0o100,
{
    libc::S_IXUSR
}

/// `libc::S_IXGRP` (group may execute), `0o010` on Linux.
#[verifier::external_body]
pub(crate) fn s_ixgrp() -> (r: u32)
    ensures
        r == 0o010,
{
    libc::S_IXGRP
}

/// `libc::S_IWGRP` (group may write), `0o020` on Linux.
#[verifier::external_body]
pub(crate) fn s_iwgrp() -> (r: u32)
    ensures
        r == 0o020,
{
    libc::S_IWGRP
}

/// `libc::S_IXOTH` (others may execute), `0o001` on Linux.
#[verifier::external_body]
pub(crate) fn s_ixoth() -> (r: u32)
    ensures
        r == 0o001,
{
    libc::S_IXOTH
}

/// `libc::S_IWOTH` (others may write), `0o002` on Linux.
#[verifier::external_body]
pub(crate) fn s_iwoth() -> (r: u32)
    ensures
        r == 0o002,
{
    libc::S_IWOTH
}

/// `libc::S_IRWXG` (all group permissions), `0o070` on Linux.
#[verifier::external_body]
pub(crate) fn s_irwxg() -> (r: u32)
    ensures
        r == 0o070,
{
    libc::S_IRWXG
}

/// `libc::S_IRWXO` (all permissions of others), `0o007` on Linux.
#[verifier::external_body]
pub(crate) fn s_irwxo() -> (r: u32)
    ensures
        r == 0o007,
{
    libc::S_IRWXO
}

/// Permissions that a file set to 644 or more restrictive may not have: execute for
/// anyone, and write for group and others.
pub open spec fn not_644_bits() -> u32 {
    0o133
}

/// Permissions that a file set to 600 or more restrictive may not have: owner
/// execute and every permission of group and others.
pub open spec fn not_600_bits() -> u32 {
    0o177
}

/// The mask of permissions beyond 644 (`S_IXUSR | S_IXGRP | S_IWGRP | S_IXOTH | S_IWOTH`).
pub fn no_x_xw_xw() -> (r: u32)
    ensures
        r == not_644_bits(),
{
    let (a, b, c, d, e) = (s_ixusr(), s_ixgrp(), s_iwgrp(), s_ixoth(), s_iwoth());
    assert(a | b | c | d | e == 0o133) by (bit_vector)
        requires
            a == 0o100u32,
            b == 0o010u32,
            c == 0o020u32,
            d == 0o001u32,
            e == 0o002u32,
    ;
    a | b | c | d | e
}

/// The mask of permissions beyond 600 (`S_IXUSR | S_IRWXG | S_IRWXO`).
pub fn no_x_xwr_xwr() -> (r: u32)
    ensures
        r == not_600_bits(),
{
    let (a, b, c) = (s_ixusr(), s_irwxg(), s_irwxo());
    assert(a | b | c == 0o177) by (bit_vector)
        requires
            a == 0o100u32,
            b == 0o070u32,
            c == 0o007u32,
    ;
    a | b | c
}

} // verus!
