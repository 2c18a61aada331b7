//! Symbol versions.

use vstd::prelude::*;

verus! {

/// One of the 40 symbol sizes; version `n` is `n * 4 + 17` modules wide.
#[derive(Clone, Copy, Debug, PartialEq, Eq, Structural)]
pub enum Version {
    /// Version 1
    V01,
    /// Version 2
    V02,
    /// Version 3
    V03,
    /// Version 4
    V04,
    /// Version 5
    V05,
    /// Version 6
    V06,
    /// Version 7
    V07,
    /// Version 8
    V08,
    /// Version 9
    V09,
    /// Version 10
    V10,
    /// Version 11
    V11,
    /// Version 12
    V12,
    /// Version 13
    V13,
    /// Version 14
    V14,
    /// Version 15
    V15,
    /// Version 16
    V16,
    /// Version 17
    V17,
    /// Version 18
    V18,
    /// Version 19
    V19,
    /// Version 20
    V20,
    /// Version 21
    V21,
    /// Version 22
    V22,
    /// Version 23
    V23,
    /// Version 24
    V24,
    /// Version 25
    V25,
    /// Version 26
    V26,
    /// Version 27
    V27,
    /// Version 28
    V28,
    /// Version 29
    V29,
    /// Version 30
    V30,
    /// Version 31
    V31,
    /// Version 32
    V32,
    /// Version 33
    V33,
    /// Version 34
    V34,
    /// Version 35
    V35,
    /// Version 36
    V36,
    /// Version 37
    V37,
    /// Version 38
    V38,
    /// Version 39
    V39,
    /// Version 40
    V40,
}

impl Version {
    /// Zero-based position of the version: `V01` is 0, `V40` is 39.
    pub open spec fn index_of(self) -> int {
        match self {
            Version::V01 => 0,
            Version::V02 => 1,
            Version::V03 => 2,
            Version::V04 => 3,
            Version::V05 => 4,
            Version::V06 => 5,
            Version::V07 => 6,
            Version::V08 => 7,
            Version::V09 => 8,
            Version::V10 => 9,
            Version::V11 => 10,
            Version::V12 => 11,
            Version::V13 => 12,
            Version::V14 => 13,
            Version::V15 => 14,
            Version::V16 => 15,
            Version::V17 => 16,
            Version::V18 => 17,
            Version::V19 => 18,
            Version::V20 => 19,
            Version::V21 => 20,
            Version::V22 => 21,
            Version::V23 => 22,
            Version::V24 => 23,
            Version::V25 => 24,
            Version::V26 => 25,
            Version::V27 => 26,
            Version::V28 => 27,
            Version::V29 => 28,
            Version::V30 => 29,
            Version::V31 => 30,
            Version::V32 => 31,
            Version::V33 => 32,
            Version::V34 => 33,
            Version::V35 => 34,
            Version::V36 => 35,
            Version::V37 => 36,
            Version::V38 => 37,
            Version::V39 => 38,
            Version::V40 => 39,
        }
    }

    /// Zero-based position of the version, which tables keyed by version use.
    pub fn index(self) -> (r: usize)
        ensures
            r == self.index_of(),
            r < 40,
    {
        match self {
            Version::V01 => 0,
            Version::V02 => 1,
            Version::V03 => 2,
            Version::V04 => 3,
            Version::V05 => 4,
            Version::V06 => 5,
            Version::V07 => 6,
            Version::V08 => 7,
            Version::V09 => 8,
            Version::V10 => 9,
            Version::V11 => 10,
            Version::V12 => 11,
            Version::V13 => 12,
            Version::V14 => 13,
            Version::V15 => 14,
            Version::V16 => 15,
            Version::V17 => 16,
            Version::V18 => 17,
            Version::V19 => 18,
            Version::V20 => 19,
            Version::V21 => 20,
            Version::V22 => 21,
            Version::V23 => 22,
            Version::V24 => 23,
            Version::V25 => 24,
            Version::V26 => 25,
            Version::V27 => 26,
            Version::V28 => 27,
            Version::V29 => 28,
            Version::V30 => 29,
            Version::V31 => 30,
            Version::V32 => 31,
            Version::V33 => 32,
            Version::V34 => 33,
            Version::V35 => 34,
            Version::V36 => 35,
            Version::V37 => 36,
            Version::V38 => 37,
            Version::V39 => 38,
            Version::V40 => 39,
        }
    }
}

} // verus!
