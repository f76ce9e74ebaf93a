//! Protocol versions for the minimum-version floor of a context.

use vstd::prelude::*;

verus! {

pub const TLS1_0_VERSION: i64 = 0x0301;

pub const TLS1_1_VERSION: i64 = 0x0302;

pub const TLS1_2_VERSION: i64 = 0x0303;

pub const TLS1_3_VERSION: i64 = 0x0304;

} // verus!
