//! Zero-sized types whose alignment is `N`, for each power of two `N` from 1 to 512.
//!
//! Each marker holds one field of type `elain::Align<N>`, a zero-sized type that elain
//! declares with `#[repr(align(N))]`; the marker therefore has size 0 and alignment `N`.
//! The markers are meant to be named as the alignment source of
//! [`AlignConstr`](crate::AlignConstr), never built.
//!
//! Each marker compares equal to itself; the comparisons are derived so that a wrapper
//! whose alignment source is a marker is ordered, like its payload, by `Ord`.

use vstd::prelude::*;

verus! {

/// Zero-sized type of alignment 1.
///
/// Relies on `elain::Align<1>`: a zero-sized type of alignment 1.
#[verifier::external_body]
#[derive(PartialEq, Eq, PartialOrd, Ord)]
pub struct ZST1 {
    _align: elain::Align<1>,
}

/// Zero-sized type of alignment 2.
///
/// Relies on `elain::Align<2>`: a zero-sized type of alignment 2.
#[verifier::external_body]
#[derive(PartialEq, Eq, PartialOrd, Ord)]
pub struct ZST2 {
    _align: elain::Align<2>,
}

/// Zero-sized type of alignment 4.
///
/// Relies on `elain::Align<4>`: a zero-sized type of alignment 4.
#[verifier::external_body]
#[derive(PartialEq, Eq, PartialOrd, Ord)]
pub struct ZST4 {
    _align: elain::Align<4>,
}

/// Zero-sized type of alignment 8.
///
/// Relies on `elain::Align<8>`: a zero-sized type of alignment 8.
#[verifier::external_body]
#[derive(PartialEq, Eq, PartialOrd, Ord)]
pub struct ZST8 {
    _align: elain::Align<8>,
}

/// Zero-sized type of alignment 16.
///
/// Relies on `elain::Align<16>`: a zero-sized type of alignment 16.
#[verifier::external_body]
#[derive(PartialEq, Eq, PartialOrd, Ord)]
pub struct ZST16 {
    _align: elain::Align<16>,
}

/// Zero-sized type of alignment 32.
///
/// Relies on `elain::Align<32>`: a zero-sized type of alignment 32.
#[verifier::external_body]
#[derive(PartialEq, Eq, PartialOrd, Ord)]
pub struct ZST32 {
    _align: elain::Align<32>,
}

/// Zero-sized type of alignment 64.
///
/// Relies on `elain::Align<64>`: a zero-sized type of alignment 64.
#[verifier::external_body]
#[derive(PartialEq, Eq, PartialOrd, Ord)]
pub struct ZST64 {
    _align: elain::Align<64>,
}

/// Zero-sized type of alignment 128.
///
/// Relies on `elain::Align<128>`: a zero-sized type of alignment 128.
#[verifier::external_body]
#[derive(PartialEq, Eq, PartialOrd, Ord)]
pub struct ZST128 {
    _align: elain::Align<128>,
}

/// Zero-sized type of alignment 256.
///
/// Relies on `elain::Align<256>`: a zero-sized type of alignment 256.
#[verifier::external_body]
#[derive(PartialEq, Eq, PartialOrd, Ord)]
pub struct ZST256 {
    _align: elain::Align<256>,
}

/// Zero-sized type of alignment 512.
///
/// Relies on `elain::Align<512>`: a zero-sized type of alignment 512.
#[verifier::external_body]
#[derive(PartialEq, Eq, PartialOrd, Ord)]
pub struct ZST512 {
    _align: elain::Align<512>,
}

} // verus!
