//! The typed error space: one variant per distinct failure status of the
//! resolver engine, and the mapping from a raw numeric status code.

use vstd::prelude::*;

verus! {

/// The status code that the resolver engine reports for a successful
/// operation; every other code maps to an [`AresError`] variant.
pub const ARES_SUCCESS: i32 = 0;

pub const ARES_ENODATA: i32 = 1;

pub const ARES_EFORMERR: i32 = 2;

pub const ARES_ESERVFAIL: i32 = 3;

pub const ARES_ENOTFOUND: i32 = 4;

pub const ARES_ENOTIMP: i32 = 5;

pub const ARES_EREFUSED: i32 = 6;

pub const ARES_EBADQUERY: i32 = 7;

pub const ARES_EBADNAME: i32 = 8;

pub const ARES_EBADFAMILY: i32 = 9;

pub const ARES_EBADRESP: i32 = 10;

pub const ARES_ECONNREFUSED: i32 = 11;

pub const ARES_ETIMEOUT: i32 = 12;

pub const ARES_EOF: i32 = 13;

pub const ARES_EFILE: i32 = 14;

pub const ARES_ENOMEM: i32 = 15;

pub const ARES_EDESTRUCTION: i32 = 16;

pub const ARES_EBADSTR: i32 = 17;

pub const ARES_EBADFLAGS: i32 = 18;

pub const ARES_ENONAME: i32 = 19;

pub const ARES_EBADHINTS: i32 = 20;

pub const ARES_ENOTINITIALIZED: i32 = 21;

pub const ARES_ELOADIPHLPAPI: i32 = 22;

pub const ARES_EADDRGETNETWORKPARAMS: i32 = 23;

pub const ARES_ECANCELLED: i32 = 24;

/// A typed resolver failure: one variant per distinct engine status code,
/// plus `EUNKNOWN` for any code outside the documented status space.
#[allow(non_camel_case_types)]
#[derive(Clone, Copy, Debug, PartialEq, Eq, Structural)]
pub enum AresError {
    ENODATA,
    EFORMERR,
    ESERVFAIL,
    ENOTFOUND,
    ENOTIMP,
    EREFUSED,
    EBADQUERY,
    EBADNAME,
    EBADFAMILY,
    EBADRESP,
    ECONNREFUSED,
    ETIMEOUT,
    EOF,
    EFILE,
    ENOMEM,
    EDESTRUCTION,
    EBADSTR,
    EBADFLAGS,
    ENONAME,
    EBADHINTS,
    ENOTINITIALIZED,
    ELOADIPHLPAPI,
    EADDRGETNETWORKPARAMS,
    ECANCELLED,
    EUNKNOWN,
}

/// The error variant that a raw engine status code denotes.
pub open spec fn spec_error_from_status(code: i32) -> AresError {
    if code == ARES_ENODATA {
        AresError::ENODATA
    } else if code == ARES_EFORMERR {
        AresError::EFORMERR
    } else if code == ARES_ESERVFAIL {
        AresError::ESERVFAIL
    } else if code == ARES_ENOTFOUND {
        AresError::ENOTFOUND
    } else if code == ARES_ENOTIMP {
        AresError::ENOTIMP
    } else if code == ARES_EREFUSED {
        AresError::EREFUSED
    } else if code == ARES_EBADQUERY {
        AresError::EBADQUERY
    } else if code == ARES_EBADNAME {
        AresError::EBADNAME
    } else if code == ARES_EBADFAMILY {
        AresError::EBADFAMILY
    } else if code == ARES_EBADRESP {
        AresError::EBADRESP
    } else if code == ARES_ECONNREFUSED {
        AresError::ECONNREFUSED
    } else if code == ARES_ETIMEOUT {
        AresError::ETIMEOUT
    } else if code == ARES_EOF {
        AresError::EOF
    } else if code == ARES_EFILE {
        AresError::EFILE
    } else if code == ARES_ENOMEM {
        AresError::ENOMEM
    } else if code == ARES_EDESTRUCTION {
        AresError::EDESTRUCTION
    } else if code == ARES_EBADSTR {
        AresError::EBADSTR
    } else if code == ARES_EBADFLAGS {
        AresError::EBADFLAGS
    } else if code == ARES_ENONAME {
        AresError::ENONAME
    } else if code == ARES_EBADHINTS {
        AresError::EBADHINTS
    } else if code == ARES_ENOTINITIALIZED {
        AresError::ENOTINITIALIZED
    } else if code == ARES_ELOADIPHLPAPI {
        AresError::ELOADIPHLPAPI
    } else if code == ARES_EADDRGETNETWORKPARAMS {
        AresError::EADDRGETNETWORKPARAMS
    } else if code == ARES_ECANCELLED {
        AresError::ECANCELLED
    } else {
        AresError::EUNKNOWN
    }
}

/// Translates a raw engine status code into its typed error value.
pub fn ares_error(code: i32) -> (e: AresError)
    ensures
        e == spec_error_from_status(code),
{
    if code == ARES_ENODATA {
        AresError::ENODATA
    } else if code == ARES_EFORMERR {
        AresError::EFORMERR
    } else if code == ARES_ESERVFAIL {
        AresError::ESERVFAIL
    } else if code == ARES_ENOTFOUND {
        AresError::ENOTFOUND
    } else if code == ARES_ENOTIMP {
        AresError::ENOTIMP
    } else if code == ARES_EREFUSED {
        AresError::EREFUSED
    } else if code == ARES_EBADQUERY {
        AresError::EBADQUERY
    } else if code == ARES_EBADNAME {
        AresError::EBADNAME
    } else if code == ARES_EBADFAMILY {
        AresError::EBADFAMILY
    } else if code == ARES_EBADRESP {
        AresError::EBADRESP
    } else if code == ARES_ECONNREFUSED {
        AresError::ECONNREFUSED
    } else if code == ARES_ETIMEOUT {
        AresError::ETIMEOUT
    } else if code == ARES_EOF {
        AresError::EOF
    } else if code == ARES_EFILE {
        AresError::EFILE
    } else if code == ARES_ENOMEM {
        AresError::ENOMEM
    } else if code == ARES_EDESTRUCTION {
        AresError::EDESTRUCTION
    } else if code == ARES_EBADSTR {
        AresError::EBADSTR
    } else if code == ARES_EBADFLAGS {
        AresError::EBADFLAGS
    } else if code == ARES_ENONAME {
        AresError::ENONAME
    } else if code == ARES_EBADHINTS {
        AresError::EBADHINTS
    } else if code == ARES_ENOTINITIALIZED {
        AresError::ENOTINITIALIZED
    } else if code == ARES_ELOADIPHLPAPI {
        AresError::ELOADIPHLPAPI
    } else if code == ARES_EADDRGETNETWORKPARAMS {
        AresError::EADDRGETNETWORKPARAMS
    } else if code == ARES_ECANCELLED {
        AresError::ECANCELLED
    } else {
        AresError::EUNKNOWN
    }
}

} // verus!
