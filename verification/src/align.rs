//! Tags that say how a vector is to be aligned.

use vstd::prelude::*;
use crate::vector::Align;

verus! {

/// Alignment tag of 1 byte.
#[derive(Copy, Clone, Debug, Default, Eq, PartialEq, Ord, PartialOrd, Hash)]
pub struct Align1;

impl Align for Align1 {

}

/// Alignment tag of 2 bytes.
#[derive(Copy, Clone, Debug, Default, Eq, PartialEq, Ord, PartialOrd, Hash)]
pub struct Align2;

impl Align for Align2 {

}

/// Alignment tag of 4 bytes.
#[derive(Copy, Clone, Debug, Default, Eq, PartialEq, Ord, PartialOrd, Hash)]
pub struct Align4;

impl Align for Align4 {

}

/// Alignment tag of 8 bytes.
#[derive(Copy, Clone, Debug, Default, Eq, PartialEq, Ord, PartialOrd, Hash)]
pub struct Align8;

impl Align for Align8 {

}

/// Alignment tag of 16 bytes.
#[derive(Copy, Clone, Debug, Default, Eq, PartialEq, Ord, PartialOrd, Hash)]
pub struct Align16;

impl Align for Align16 {

}

/// Alignment tag of 32 bytes.
#[derive(Copy, Clone, Debug, Default, Eq, PartialEq, Ord, PartialOrd, Hash)]
pub struct Align32;

impl Align for Align32 {

}

/// Alignment tag of 64 bytes.
#[derive(Copy, Clone, Debug, Default, Eq, PartialEq, Ord, PartialOrd, Hash)]
pub struct Align64;

impl Align for Align64 {

}

/// Alignment tag of 128 bytes.
#[derive(Copy, Clone, Debug, Default, Eq, PartialEq, Ord, PartialOrd, Hash)]
pub struct Align128;

impl Align for Align128 {

}

} // verus!
