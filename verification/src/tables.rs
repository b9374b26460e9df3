use vstd::prelude::*;

use crate::{ErrorCorrectLv, Mode, Version};

verus! {

/// The block structure of one version and error-correction level: the number
/// and byte size of the group-1 and group-2 data blocks, and the number of
/// error-correction codewords of every block.
#[derive(Debug, Clone, Copy, PartialEq, Eq, Structural)]
pub struct BlocksData {
    pub g1_blocks: usize,
    pub g1_bytes: usize,
    pub g2_blocks: usize,
    pub g2_bytes: usize,
    pub ec_bytes: usize,
}

impl Version {
    /// The block structure mandated for this version and level.
    pub open spec fn spec_blocks_data(self, ec: ErrorCorrectLv) -> BlocksData {
        match ec {
            ErrorCorrectLv::L => {
                if self.0 == 0 {
                    BlocksData { g1_blocks: 1, g1_bytes: 19, g2_blocks: 0, g2_bytes: 0, ec_bytes: 7 }
                } else if self.0 == 1 {
                    BlocksData { g1_blocks: 1, g1_bytes: 34, g2_blocks: 0, g2_bytes: 0, ec_bytes: 10 }
                } else if self.0 == 2 {
                    BlocksData { g1_blocks: 1, g1_bytes: 55, g2_blocks: 0, g2_bytes: 0, ec_bytes: 15 }
                } else if self.0 == 3 {
                    BlocksData { g1_blocks: 1, g1_bytes: 80, g2_blocks: 0, g2_bytes: 0, ec_bytes: 20 }
                } else if self.0 == 4 {
                    BlocksData { g1_blocks: 1, g1_bytes: 108, g2_blocks: 0, g2_bytes: 0, ec_bytes: 26 }
                } else if self.0 == 5 {
                    BlocksData { g1_blocks: 2, g1_bytes: 68, g2_blocks: 0, g2_bytes: 0, ec_bytes: 18 }
                } else if self.0 == 6 {
                    BlocksData { g1_blocks: 2, g1_bytes: 78, g2_blocks: 0, g2_bytes: 0, ec_bytes: 20 }
                } else if self.0 == 7 {
                    BlocksData { g1_blocks: 2, g1_bytes: 97, g2_blocks: 0, g2_bytes: 0, ec_bytes: 24 }
                } else if self.0 == 8 {
                    BlocksData { g1_blocks: 2, g1_bytes: 116, g2_blocks: 0, g2_bytes: 0, ec_bytes: 30 }
                } else if self.0 == 9 {
                    BlocksData { g1_blocks: 2, g1_bytes: 68, g2_blocks: 2, g2_bytes: 69, ec_bytes: 18 }
                } else if self.0 == 10 {
                    BlocksData { g1_blocks: 4, g1_bytes: 81, g2_blocks: 0, g2_bytes: 0, ec_bytes: 20 }
                } else if self.0 == 11 {
                    BlocksData { g1_blocks: 2, g1_bytes: 92, g2_blocks: 2, g2_bytes: 93, ec_bytes: 24 }
                } else if self.0 == 12 {
                    BlocksData { g1_blocks: 4, g1_bytes: 107, g2_blocks: 0, g2_bytes: 0, ec_bytes: 26 }
                } else if self.0 == 13 {
                    BlocksData { g1_blocks: 3, g1_bytes: 115, g2_blocks: 1, g2_bytes: 116, ec_bytes: 30 }
                } else if self.0 == 14 {
                    BlocksData { g1_blocks: 5, g1_bytes: 87, g2_blocks: 1, g2_bytes: 88, ec_bytes: 22 }
                } else if self.0 == 15 {
                    BlocksData { g1_blocks: 5, g1_bytes: 98, g2_blocks: 1, g2_bytes: 99, ec_bytes: 24 }
                } else if self.0 == 16 {
                    BlocksData { g1_blocks: 1, g1_bytes: 107, g2_blocks: 5, g2_bytes: 108, ec_bytes: 28 }
                } else if self.0 == 17 {
                    BlocksData { g1_blocks: 5, g1_bytes: 120, g2_blocks: 1, g2_bytes: 121, ec_bytes: 30 }
                } else if self.0 == 18 {
                    BlocksData { g1_blocks: 3, g1_bytes: 113, g2_blocks: 4, g2_bytes: 114, ec_bytes: 28 }
                } else if self.0 == 19 {
                    BlocksData { g1_blocks: 3, g1_bytes: 107, g2_blocks: 5, g2_bytes: 108, ec_bytes: 28 }
                } else if self.0 == 20 {
                    BlocksData { g1_blocks: 4, g1_bytes: 116, g2_blocks: 4, g2_bytes: 117, ec_bytes: 28 }
                } else if self.0 == 21 {
                    BlocksData { g1_blocks: 2, g1_bytes: 111, g2_blocks: 7, g2_bytes: 112, ec_bytes: 28 }
                } else if self.0 == 22 {
                    BlocksData { g1_blocks: 4, g1_bytes: 121, g2_blocks: 5, g2_bytes: 122, ec_bytes: 30 }
                } else if self.0 == 23 {
                    BlocksData { g1_blocks: 6, g1_bytes: 117, g2_blocks: 4, g2_bytes: 118, ec_bytes: 30 }
                } else if self.0 == 24 {
                    BlocksData { g1_blocks: 8, g1_bytes: 106, g2_blocks: 4, g2_bytes: 107, ec_bytes: 26 }
                } else if self.0 == 25 {
                    BlocksData { g1_blocks: 10, g1_bytes: 114, g2_blocks: 2, g2_bytes: 115, ec_bytes: 28 }
                } else if self.0 == 26 {
                    BlocksData { g1_blocks: 8, g1_bytes: 122, g2_blocks: 4, g2_bytes: 123, ec_bytes: 30 }
                } else if self.0 == 27 {
                    BlocksData { g1_blocks: 3, g1_bytes: 117, g2_blocks: 10, g2_bytes: 118, ec_bytes: 30 }
                } else if self.0 == 28 {
                    BlocksData { g1_blocks: 7, g1_bytes: 116, g2_blocks: 7, g2_bytes: 117, ec_bytes: 30 }
                } else if self.0 == 29 {
                    BlocksData { g1_blocks: 5, g1_bytes: 115, g2_blocks: 10, g2_bytes: 116, ec_bytes: 30 }
                } else if self.0 == 30 {
                    BlocksData { g1_blocks: 13, g1_bytes: 115, g2_blocks: 3, g2_bytes: 116, ec_bytes: 30 }
                } else if self.0 == 31 {
                    BlocksData { g1_blocks: 17, g1_bytes: 115, g2_blocks: 0, g2_bytes: 0, ec_bytes: 30 }
                } else if self.0 == 32 {
                    BlocksData { g1_blocks: 17, g1_bytes: 115, g2_blocks: 1, g2_bytes: 116, ec_bytes: 30 }
                } else if self.0 == 33 {
                    BlocksData { g1_blocks: 13, g1_bytes: 115, g2_blocks: 6, g2_bytes: 116, ec_bytes: 30 }
                } else if self.0 == 34 {
                    BlocksData { g1_blocks: 12, g1_bytes: 121, g2_blocks: 7, g2_bytes: 122, ec_bytes: 30 }
                } else if self.0 == 35 {
                    BlocksData { g1_blocks: 6, g1_bytes: 121, g2_blocks: 14, g2_bytes: 122, ec_bytes: 30 }
                } else if self.0 == 36 {
                    BlocksData { g1_blocks: 17, g1_bytes: 122, g2_blocks: 4, g2_bytes: 123, ec_bytes: 30 }
                } else if self.0 == 37 {
                    BlocksData { g1_blocks: 4, g1_bytes: 122, g2_blocks: 18, g2_bytes: 123, ec_bytes: 30 }
                } else if self.0 == 38 {
                    BlocksData { g1_blocks: 20, g1_bytes: 117, g2_blocks: 4, g2_bytes: 118, ec_bytes: 30 }
                } else {
                    BlocksData { g1_blocks: 19, g1_bytes: 118, g2_blocks: 6, g2_bytes: 119, ec_bytes: 30 }
                }
            },
            ErrorCorrectLv::M => {
                if self.0 == 0 {
                    BlocksData { g1_blocks: 1, g1_bytes: 16, g2_blocks: 0, g2_bytes: 0, ec_bytes: 10 }
                } else if self.0 == 1 {
                    BlocksData { g1_blocks: 1, g1_bytes: 28, g2_blocks: 0, g2_bytes: 0, ec_bytes: 16 }
                } else if self.0 == 2 {
                    BlocksData { g1_blocks: 1, g1_bytes: 44, g2_blocks: 0, g2_bytes: 0, ec_bytes: 26 }
                } else if self.0 == 3 {
                    BlocksData { g1_blocks: 2, g1_bytes: 32, g2_blocks: 0, g2_bytes: 0, ec_bytes: 18 }
                } else if self.0 == 4 {
                    BlocksData { g1_blocks: 2, g1_bytes: 43, g2_blocks: 0, g2_bytes: 0, ec_bytes: 24 }
                } else if self.0 == 5 {
                    BlocksData { g1_blocks: 4, g1_bytes: 27, g2_blocks: 0, g2_bytes: 0, ec_bytes: 16 }
                } else if self.0 == 6 {
                    BlocksData { g1_blocks: 4, g1_bytes: 31, g2_blocks: 0, g2_bytes: 0, ec_bytes: 18 }
                } else if self.0 == 7 {
                    BlocksData { g1_blocks: 2, g1_bytes: 38, g2_blocks: 2, g2_bytes: 39, ec_bytes: 22 }
                } else if self.0 == 8 {
                    BlocksData { g1_blocks: 3, g1_bytes: 36, g2_blocks: 2, g2_bytes: 37, ec_bytes: 22 }
                } else if self.0 == 9 {
                    BlocksData { g1_blocks: 4, g1_bytes: 43, g2_blocks: 1, g2_bytes: 44, ec_bytes: 26 }
                } else if self.0 == 10 {
                    BlocksData { g1_blocks: 1, g1_bytes: 50, g2_blocks: 4, g2_bytes: 51, ec_bytes: 30 }
                } else if self.0 == 11 {
                    BlocksData { g1_blocks: 6, g1_bytes: 36, g2_blocks: 2, g2_bytes: 37, ec_bytes: 22 }
                } else if self.0 == 12 {
                    BlocksData { g1_blocks: 8, g1_bytes: 37, g2_blocks: 1, g2_bytes: 38, ec_bytes: 22 }
                } else if self.0 == 13 {
                    BlocksData { g1_blocks: 4, g1_bytes: 40, g2_blocks: 5, g2_bytes: 41, ec_bytes: 24 }
                } else if self.0 == 14 {
                    BlocksData { g1_blocks: 5, g1_bytes: 41, g2_blocks: 5, g2_bytes: 42, ec_bytes: 24 }
                } else if self.0 == 15 {
                    BlocksData { g1_blocks: 7, g1_bytes: 45, g2_blocks: 3, g2_bytes: 46, ec_bytes: 28 }
                } else if self.0 == 16 {
                    BlocksData { g1_blocks: 10, g1_bytes: 46, g2_blocks: 1, g2_bytes: 47, ec_bytes: 28 }
                } else if self.0 == 17 {
                    BlocksData { g1_blocks: 9, g1_bytes: 43, g2_blocks: 4, g2_bytes: 44, ec_bytes: 26 }
                } else if self.0 == 18 {
                    BlocksData { g1_blocks: 3, g1_bytes: 44, g2_blocks: 11, g2_bytes: 45, ec_bytes: 26 }
                } else if self.0 == 19 {
                    BlocksData { g1_blocks: 3, g1_bytes: 41, g2_blocks: 13, g2_bytes: 42, ec_bytes: 26 }
                } else if self.0 == 20 {
                    BlocksData { g1_blocks: 17, g1_bytes: 42, g2_blocks: 0, g2_bytes: 0, ec_bytes: 26 }
                } else if self.0 == 21 {
                    BlocksData { g1_blocks: 17, g1_bytes: 46, g2_blocks: 0, g2_bytes: 0, ec_bytes: 28 }
                } else if self.0 == 22 {
                    BlocksData { g1_blocks: 4, g1_bytes: 47, g2_blocks: 14, g2_bytes: 48, ec_bytes: 28 }
                } else if self.0 == 23 {
                    BlocksData { g1_blocks: 6, g1_bytes: 45, g2_blocks: 14, g2_bytes: 46, ec_bytes: 28 }
                } else if self.0 == 24 {
                    BlocksData { g1_blocks: 8, g1_bytes: 47, g2_blocks: 13, g2_bytes: 48, ec_bytes: 28 }
                } else if self.0 == 25 {
                    BlocksData { g1_blocks: 19, g1_bytes: 46, g2_blocks: 4, g2_bytes: 47, ec_bytes: 28 }
                } else if self.0 == 26 {
                    BlocksData { g1_blocks: 22, g1_bytes: 45, g2_blocks: 3, g2_bytes: 46, ec_bytes: 28 }
                } else if self.0 == 27 {
                    BlocksData { g1_blocks: 3, g1_bytes: 45, g2_blocks: 23, g2_bytes: 46, ec_bytes: 28 }
                } else if self.0 == 28 {
                    BlocksData { g1_blocks: 21, g1_bytes: 45, g2_blocks: 7, g2_bytes: 46, ec_bytes: 28 }
                } else if self.0 == 29 {
                    BlocksData { g1_blocks: 19, g1_bytes: 47, g2_blocks: 10, g2_bytes: 48, ec_bytes: 28 }
                } else if self.0 == 30 {
                    BlocksData { g1_blocks: 2, g1_bytes: 46, g2_blocks: 29, g2_bytes: 47, ec_bytes: 28 }
                } else if self.0 == 31 {
                    BlocksData { g1_blocks: 10, g1_bytes: 46, g2_blocks: 23, g2_bytes: 47, ec_bytes: 28 }
                } else if self.0 == 32 {
                    BlocksData { g1_blocks: 14, g1_bytes: 46, g2_blocks: 21, g2_bytes: 47, ec_bytes: 28 }
                } else if self.0 == 33 {
                    BlocksData { g1_blocks: 14, g1_bytes: 46, g2_blocks: 23, g2_bytes: 47, ec_bytes: 28 }
                } else if self.0 == 34 {
                    BlocksData { g1_blocks: 12, g1_bytes: 47, g2_blocks: 26, g2_bytes: 48, ec_bytes: 28 }
                } else if self.0 == 35 {
                    BlocksData { g1_blocks: 6, g1_bytes: 47, g2_blocks: 34, g2_bytes: 48, ec_bytes: 28 }
                } else if self.0 == 36 {
                    BlocksData { g1_blocks: 29, g1_bytes: 46, g2_blocks: 14, g2_bytes: 47, ec_bytes: 28 }
                } else if self.0 == 37 {
                    BlocksData { g1_blocks: 13, g1_bytes: 46, g2_blocks: 32, g2_bytes: 47, ec_bytes: 28 }
                } else if self.0 == 38 {
                    BlocksData { g1_blocks: 40, g1_bytes: 47, g2_blocks: 7, g2_bytes: 48, ec_bytes: 28 }
                } else {
                    BlocksData { g1_blocks: 18, g1_bytes: 47, g2_blocks: 31, g2_bytes: 48, ec_bytes: 28 }
                }
            },
            ErrorCorrectLv::Q => {
                if self.0 == 0 {
                    BlocksData { g1_blocks: 1, g1_bytes: 13, g2_blocks: 0, g2_bytes: 0, ec_bytes: 13 }
                } else if self.0 == 1 {
                    BlocksData { g1_blocks: 1, g1_bytes: 22, g2_blocks: 0, g2_bytes: 0, ec_bytes: 22 }
                } else if self.0 == 2 {
                    BlocksData { g1_blocks: 2, g1_bytes: 17, g2_blocks: 0, g2_bytes: 0, ec_bytes: 18 }
                } else if self.0 == 3 {
                    BlocksData { g1_blocks: 2, g1_bytes: 24, g2_blocks: 0, g2_bytes: 0, ec_bytes: 26 }
                } else if self.0 == 4 {
                    BlocksData { g1_blocks: 2, g1_bytes: 15, g2_blocks: 2, g2_bytes: 16, ec_bytes: 18 }
                } else if self.0 == 5 {
                    BlocksData { g1_blocks: 4, g1_bytes: 19, g2_blocks: 0, g2_bytes: 0, ec_bytes: 24 }
                } else if self.0 == 6 {
                    BlocksData { g1_blocks: 2, g1_bytes: 14, g2_blocks: 4, g2_bytes: 15, ec_bytes: 18 }
                } else if self.0 == 7 {
                    BlocksData { g1_blocks: 4, g1_bytes: 18, g2_blocks: 2, g2_bytes: 19, ec_bytes: 22 }
                } else if self.0 == 8 {
                    BlocksData { g1_blocks: 4, g1_bytes: 16, g2_blocks: 4, g2_bytes: 17, ec_bytes: 20 }
                } else if self.0 == 9 {
                    BlocksData { g1_blocks: 6, g1_bytes: 19, g2_blocks: 2, g2_bytes: 20, ec_bytes: 24 }
                } else if self.0 == 10 {
                    BlocksData { g1_blocks: 4, g1_bytes: 22, g2_blocks: 4, g2_bytes: 23, ec_bytes: 28 }
                } else if self.0 == 11 {
                    BlocksData { g1_blocks: 4, g1_bytes: 20, g2_blocks: 6, g2_bytes: 21, ec_bytes: 26 }
                } else if self.0 == 12 {
                    BlocksData { g1_blocks: 8, g1_bytes: 20, g2_blocks: 4, g2_bytes: 21, ec_bytes: 24 }
                } else if self.0 == 13 {
                    BlocksData { g1_blocks: 11, g1_bytes: 16, g2_blocks: 5, g2_bytes: 17, ec_bytes: 20 }
                } else if self.0 == 14 {
                    BlocksData { g1_blocks: 5, g1_bytes: 24, g2_blocks: 7, g2_bytes: 25, ec_bytes: 30 }
                } else if self.0 == 15 {
                    BlocksData { g1_blocks: 15, g1_bytes: 19, g2_blocks: 2, g2_bytes: 20, ec_bytes: 24 }
                } else if self.0 == 16 {
                    BlocksData { g1_blocks: 1, g1_bytes: 22, g2_blocks: 15, g2_bytes: 23, ec_bytes: 28 }
                } else if self.0 == 17 {
                    BlocksData { g1_blocks: 17, g1_bytes: 22, g2_blocks: 1, g2_bytes: 23, ec_bytes: 28 }
                } else if self.0 == 18 {
                    BlocksData { g1_blocks: 17, g1_bytes: 21, g2_blocks: 4, g2_bytes: 22, ec_bytes: 26 }
                } else if self.0 == 19 {
                    BlocksData { g1_blocks: 15, g1_bytes: 24, g2_blocks: 5, g2_bytes: 25, ec_bytes: 30 }
                } else if self.0 == 20 {
                    BlocksData { g1_blocks: 17, g1_bytes: 22, g2_blocks: 6, g2_bytes: 23, ec_bytes: 28 }
                } else if self.0 == 21 {
                    BlocksData { g1_blocks: 7, g1_bytes: 24, g2_blocks: 16, g2_bytes: 25, ec_bytes: 30 }
                } else if self.0 == 22 {
                    BlocksData { g1_blocks: 11, g1_bytes: 24, g2_blocks: 14, g2_bytes: 25, ec_bytes: 30 }
                } else if self.0 == 23 {
                    BlocksData { g1_blocks: 11, g1_bytes: 24, g2_blocks: 16, g2_bytes: 25, ec_bytes: 30 }
                } else if self.0 == 24 {
                    BlocksData { g1_blocks: 7, g1_bytes: 24, g2_blocks: 22, g2_bytes: 25, ec_bytes: 30 }
                } else if self.0 == 25 {
                    BlocksData { g1_blocks: 28, g1_bytes: 22, g2_blocks: 6, g2_bytes: 23, ec_bytes: 28 }
                } else if self.0 == 26 {
                    BlocksData { g1_blocks: 8, g1_bytes: 23, g2_blocks: 26, g2_bytes: 24, ec_bytes: 30 }
                } else if self.0 == 27 {
                    BlocksData { g1_blocks: 4, g1_bytes: 24, g2_blocks: 31, g2_bytes: 25, ec_bytes: 30 }
                } else if self.0 == 28 {
                    BlocksData { g1_blocks: 1, g1_bytes: 23, g2_blocks: 37, g2_bytes: 24, ec_bytes: 30 }
                } else if self.0 == 29 {
                    BlocksData { g1_blocks: 15, g1_bytes: 24, g2_blocks: 25, g2_bytes: 25, ec_bytes: 30 }
                } else if self.0 == 30 {
                    BlocksData { g1_blocks: 42, g1_bytes: 24, g2_blocks: 1, g2_bytes: 25, ec_bytes: 30 }
                } else if self.0 == 31 {
                    BlocksData { g1_blocks: 10, g1_bytes: 24, g2_blocks: 35, g2_bytes: 25, ec_bytes: 30 }
                } else if self.0 == 32 {
                    BlocksData { g1_blocks: 29, g1_bytes: 24, g2_blocks: 19, g2_bytes: 25, ec_bytes: 30 }
                } else if self.0 == 33 {
                    BlocksData { g1_blocks: 44, g1_bytes: 24, g2_blocks: 7, g2_bytes: 25, ec_bytes: 30 }
                } else if self.0 == 34 {
                    BlocksData { g1_blocks: 39, g1_bytes: 24, g2_blocks: 14, g2_bytes: 25, ec_bytes: 30 }
                } else if self.0 == 35 {
                    BlocksData { g1_blocks: 46, g1_bytes: 24, g2_blocks: 10, g2_bytes: 25, ec_bytes: 30 }
                } else if self.0 == 36 {
                    BlocksData { g1_blocks: 49, g1_bytes: 24, g2_blocks: 10, g2_bytes: 25, ec_bytes: 30 }
                } else if self.0 == 37 {
                    BlocksData { g1_blocks: 48, g1_bytes: 24, g2_blocks: 14, g2_bytes: 25, ec_bytes: 30 }
                } else if self.0 == 38 {
                    BlocksData { g1_blocks: 43, g1_bytes: 24, g2_blocks: 22, g2_bytes: 25, ec_bytes: 30 }
                } else {
                    BlocksData { g1_blocks: 34, g1_bytes: 24, g2_blocks: 34, g2_bytes: 25, ec_bytes: 30 }
                }
            },
            ErrorCorrectLv::H => {
                if self.0 == 0 {
                    BlocksData { g1_blocks: 1, g1_bytes: 9, g2_blocks: 0, g2_bytes: 0, ec_bytes: 17 }
                } else if self.0 == 1 {
                    BlocksData { g1_blocks: 1, g1_bytes: 16, g2_blocks: 0, g2_bytes: 0, ec_bytes: 28 }
                } else if self.0 == 2 {
                    BlocksData { g1_blocks: 2, g1_bytes: 13, g2_blocks: 0, g2_bytes: 0, ec_bytes: 22 }
                } else if self.0 == 3 {
                    BlocksData { g1_blocks: 4, g1_bytes: 9, g2_blocks: 0, g2_bytes: 0, ec_bytes: 16 }
                } else if self.0 == 4 {
                    BlocksData { g1_blocks: 2, g1_bytes: 11, g2_blocks: 2, g2_bytes: 12, ec_bytes: 22 }
                } else if self.0 == 5 {
                    BlocksData { g1_blocks: 4, g1_bytes: 15, g2_blocks: 0, g2_bytes: 0, ec_bytes: 28 }
                } else if self.0 == 6 {
                    BlocksData { g1_blocks: 4, g1_bytes: 13, g2_blocks: 1, g2_bytes: 14, ec_bytes: 26 }
                } else if self.0 == 7 {
                    BlocksData { g1_blocks: 4, g1_bytes: 14, g2_blocks: 2, g2_bytes: 15, ec_bytes: 26 }
                } else if self.0 == 8 {
                    BlocksData { g1_blocks: 4, g1_bytes: 12, g2_blocks: 4, g2_bytes: 13, ec_bytes: 24 }
                } else if self.0 == 9 {
                    BlocksData { g1_blocks: 6, g1_bytes: 15, g2_blocks: 2, g2_bytes: 16, ec_bytes: 28 }
                } else if self.0 == 10 {
                    BlocksData { g1_blocks: 3, g1_bytes: 12, g2_blocks: 8, g2_bytes: 13, ec_bytes: 24 }
                } else if self.0 == 11 {
                    BlocksData { g1_blocks: 7, g1_bytes: 14, g2_blocks: 4, g2_bytes: 15, ec_bytes: 28 }
                } else if self.0 == 12 {
                    BlocksData { g1_blocks: 12, g1_bytes: 11, g2_blocks: 4, g2_bytes: 12, ec_bytes: 22 }
                } else if self.0 == 13 {
                    BlocksData { g1_blocks: 11, g1_bytes: 12, g2_blocks: 5, g2_bytes: 13, ec_bytes: 24 }
                } else if self.0 == 14 {
                    BlocksData { g1_blocks: 11, g1_bytes: 12, g2_blocks: 7, g2_bytes: 13, ec_bytes: 24 }
                } else if self.0 == 15 {
                    BlocksData { g1_blocks: 3, g1_bytes: 15, g2_blocks: 13, g2_bytes: 16, ec_bytes: 30 }
                } else if self.0 == 16 {
                    BlocksData { g1_blocks: 2, g1_bytes: 14, g2_blocks: 17, g2_bytes: 15, ec_bytes: 28 }
                } else if self.0 == 17 {
                    BlocksData { g1_blocks: 2, g1_bytes: 14, g2_blocks: 19, g2_bytes: 15, ec_bytes: 28 }
                } else if self.0 == 18 {
                    BlocksData { g1_blocks: 9, g1_bytes: 13, g2_blocks: 16, g2_bytes: 14, ec_bytes: 26 }
                } else if self.0 == 19 {
                    BlocksData { g1_blocks: 15, g1_bytes: 15, g2_blocks: 10, g2_bytes: 16, ec_bytes: 28 }
                } else if self.0 == 20 {
                    BlocksData { g1_blocks: 19, g1_bytes: 16, g2_blocks: 6, g2_bytes: 17, ec_bytes: 30 }
                } else if self.0 == 21 {
                    BlocksData { g1_blocks: 34, g1_bytes: 13, g2_blocks: 0, g2_bytes: 0, ec_bytes: 24 }
                } else if self.0 == 22 {
                    BlocksData { g1_blocks: 16, g1_bytes: 15, g2_blocks: 14, g2_bytes: 16, ec_bytes: 30 }
                } else if self.0 == 23 {
                    BlocksData { g1_blocks: 30, g1_bytes: 16, g2_blocks: 2, g2_bytes: 17, ec_bytes: 30 }
                } else if self.0 == 24 {
                    BlocksData { g1_blocks: 22, g1_bytes: 15, g2_blocks: 13, g2_bytes: 16, ec_bytes: 30 }
                } else if self.0 == 25 {
                    BlocksData { g1_blocks: 33, g1_bytes: 16, g2_blocks: 4, g2_bytes: 17, ec_bytes: 30 }
                } else if self.0 == 26 {
                    BlocksData { g1_blocks: 12, g1_bytes: 15, g2_blocks: 28, g2_bytes: 16, ec_bytes: 30 }
                } else if self.0 == 27 {
                    BlocksData { g1_blocks: 11, g1_bytes: 15, g2_blocks: 31, g2_bytes: 16, ec_bytes: 30 }
                } else if self.0 == 28 {
                    BlocksData { g1_blocks: 19, g1_bytes: 15, g2_blocks: 26, g2_bytes: 16, ec_bytes: 30 }
                } else if self.0 == 29 {
                    BlocksData { g1_blocks: 23, g1_bytes: 15, g2_blocks: 25, g2_bytes: 16, ec_bytes: 30 }
                } else if self.0 == 30 {
                    BlocksData { g1_blocks: 23, g1_bytes: 15, g2_blocks: 28, g2_bytes: 16, ec_bytes: 30 }
                } else if self.0 == 31 {
                    BlocksData { g1_blocks: 19, g1_bytes: 15, g2_blocks: 35, g2_bytes: 16, ec_bytes: 30 }
                } else if self.0 == 32 {
                    BlocksData { g1_blocks: 11, g1_bytes: 15, g2_blocks: 46, g2_bytes: 16, ec_bytes: 30 }
                } else if self.0 == 33 {
                    BlocksData { g1_blocks: 59, g1_bytes: 16, g2_blocks: 1, g2_bytes: 17, ec_bytes: 30 }
                } else if self.0 == 34 {
                    BlocksData { g1_blocks: 22, g1_bytes: 15, g2_blocks: 41, g2_bytes: 16, ec_bytes: 30 }
                } else if self.0 == 35 {
                    BlocksData { g1_blocks: 2, g1_bytes: 15, g2_blocks: 64, g2_bytes: 16, ec_bytes: 30 }
                } else if self.0 == 36 {
                    BlocksData { g1_blocks: 24, g1_bytes: 15, g2_blocks: 46, g2_bytes: 16, ec_bytes: 30 }
                } else if self.0 == 37 {
                    BlocksData { g1_blocks: 42, g1_bytes: 15, g2_blocks: 32, g2_bytes: 16, ec_bytes: 30 }
                } else if self.0 == 38 {
                    BlocksData { g1_blocks: 10, g1_bytes: 15, g2_blocks: 67, g2_bytes: 16, ec_bytes: 30 }
                } else {
                    BlocksData { g1_blocks: 20, g1_bytes: 15, g2_blocks: 61, g2_bytes: 16, ec_bytes: 30 }
                }
            },
        }
    }

    /// The number of data codewords the version holds at the given level: the
    /// bytes of all group-1 and group-2 blocks together.
    pub open spec fn spec_max_data_bytes(self, ec: ErrorCorrectLv) -> int {
        let b = self.spec_blocks_data(ec);
        b.g1_blocks * b.g1_bytes + b.g2_blocks * b.g2_bytes
    }

    /// The block structure mandated for this version and level.
    pub fn blocks_data(self, ec: ErrorCorrectLv) -> (r: BlocksData)
        ensures
            r == self.spec_blocks_data(ec),
            1 <= r.g1_blocks <= 81,
            1 <= r.g1_bytes <= 123,
            r.g2_blocks <= 68,
            r.g2_bytes <= 123,
            1 <= r.ec_bytes <= 30,
            r.g2_blocks == 0 ==> r.g2_bytes == 0,
            r.g2_blocks > 0 ==> r.g2_bytes == r.g1_bytes + 1,
            9 <= r.g1_blocks * r.g1_bytes + r.g2_blocks * r.g2_bytes <= 2956,
    {
        match ec {
            ErrorCorrectLv::L => {
                if self.0 == 0 {
                    BlocksData { g1_blocks: 1, g1_bytes: 19, g2_blocks: 0, g2_bytes: 0, ec_bytes: 7 }
                } else if self.0 == 1 {
                    BlocksData { g1_blocks: 1, g1_bytes: 34, g2_blocks: 0, g2_bytes: 0, ec_bytes: 10 }
                } else if self.0 == 2 {
                    BlocksData { g1_blocks: 1, g1_bytes: 55, g2_blocks: 0, g2_bytes: 0, ec_bytes: 15 }
                } else if self.0 == 3 {
                    BlocksData { g1_blocks: 1, g1_bytes: 80, g2_blocks: 0, g2_bytes: 0, ec_bytes: 20 }
                } else if self.0 == 4 {
                    BlocksData { g1_blocks: 1, g1_bytes: 108, g2_blocks: 0, g2_bytes: 0, ec_bytes: 26 }
                } else if self.0 == 5 {
                    BlocksData { g1_blocks: 2, g1_bytes: 68, g2_blocks: 0, g2_bytes: 0, ec_bytes: 18 }
                } else if self.0 == 6 {
                    BlocksData { g1_blocks: 2, g1_bytes: 78, g2_blocks: 0, g2_bytes: 0, ec_bytes: 20 }
                } else if self.0 == 7 {
                    BlocksData { g1_blocks: 2, g1_bytes: 97, g2_blocks: 0, g2_bytes: 0, ec_bytes: 24 }
                } else if self.0 == 8 {
                    BlocksData { g1_blocks: 2, g1_bytes: 116, g2_blocks: 0, g2_bytes: 0, ec_bytes: 30 }
                } else if self.0 == 9 {
                    BlocksData { g1_blocks: 2, g1_bytes: 68, g2_blocks: 2, g2_bytes: 69, ec_bytes: 18 }
                } else if self.0 == 10 {
                    BlocksData { g1_blocks: 4, g1_bytes: 81, g2_blocks: 0, g2_bytes: 0, ec_bytes: 20 }
                } else if self.0 == 11 {
                    BlocksData { g1_blocks: 2, g1_bytes: 92, g2_blocks: 2, g2_bytes: 93, ec_bytes: 24 }
                } else if self.0 == 12 {
                    BlocksData { g1_blocks: 4, g1_bytes: 107, g2_blocks: 0, g2_bytes: 0, ec_bytes: 26 }
                } else if self.0 == 13 {
                    BlocksData { g1_blocks: 3, g1_bytes: 115, g2_blocks: 1, g2_bytes: 116, ec_bytes: 30 }
                } else if self.0 == 14 {
                    BlocksData { g1_blocks: 5, g1_bytes: 87, g2_blocks: 1, g2_bytes: 88, ec_bytes: 22 }
                } else if self.0 == 15 {
                    BlocksData { g1_blocks: 5, g1_bytes: 98, g2_blocks: 1, g2_bytes: 99, ec_bytes: 24 }
                } else if self.0 == 16 {
                    BlocksData { g1_blocks: 1, g1_bytes: 107, g2_blocks: 5, g2_bytes: 108, ec_bytes: 28 }
                } else if self.0 == 17 {
                    BlocksData { g1_blocks: 5, g1_bytes: 120, g2_blocks: 1, g2_bytes: 121, ec_bytes: 30 }
                } else if self.0 == 18 {
                    BlocksData { g1_blocks: 3, g1_bytes: 113, g2_blocks: 4, g2_bytes: 114, ec_bytes: 28 }
                } else if self.0 == 19 {
                    BlocksData { g1_blocks: 3, g1_bytes: 107, g2_blocks: 5, g2_bytes: 108, ec_bytes: 28 }
                } else if self.0 == 20 {
                    BlocksData { g1_blocks: 4, g1_bytes: 116, g2_blocks: 4, g2_bytes: 117, ec_bytes: 28 }
                } else if self.0 == 21 {
                    BlocksData { g1_blocks: 2, g1_bytes: 111, g2_blocks: 7, g2_bytes: 112, ec_bytes: 28 }
                } else if self.0 == 22 {
                    BlocksData { g1_blocks: 4, g1_bytes: 121, g2_blocks: 5, g2_bytes: 122, ec_bytes: 30 }
                } else if self.0 == 23 {
                    BlocksData { g1_blocks: 6, g1_bytes: 117, g2_blocks: 4, g2_bytes: 118, ec_bytes: 30 }
                } else if self.0 == 24 {
                    BlocksData { g1_blocks: 8, g1_bytes: 106, g2_blocks: 4, g2_bytes: 107, ec_bytes: 26 }
                } else if self.0 == 25 {
                    BlocksData { g1_blocks: 10, g1_bytes: 114, g2_blocks: 2, g2_bytes: 115, ec_bytes: 28 }
                } else if self.0 == 26 {
                    BlocksData { g1_blocks: 8, g1_bytes: 122, g2_blocks: 4, g2_bytes: 123, ec_bytes: 30 }
                } else if self.0 == 27 {
                    BlocksData { g1_blocks: 3, g1_bytes: 117, g2_blocks: 10, g2_bytes: 118, ec_bytes: 30 }
                } else if self.0 == 28 {
                    BlocksData { g1_blocks: 7, g1_bytes: 116, g2_blocks: 7, g2_bytes: 117, ec_bytes: 30 }
                } else if self.0 == 29 {
                    BlocksData { g1_blocks: 5, g1_bytes: 115, g2_blocks: 10, g2_bytes: 116, ec_bytes: 30 }
                } else if self.0 == 30 {
                    BlocksData { g1_blocks: 13, g1_bytes: 115, g2_blocks: 3, g2_bytes: 116, ec_bytes: 30 }
                } else if self.0 == 31 {
                    BlocksData { g1_blocks: 17, g1_bytes: 115, g2_blocks: 0, g2_bytes: 0, ec_bytes: 30 }
                } else if self.0 == 32 {
                    BlocksData { g1_blocks: 17, g1_bytes: 115, g2_blocks: 1, g2_bytes: 116, ec_bytes: 30 }
                } else if self.0 == 33 {
                    BlocksData { g1_blocks: 13, g1_bytes: 115, g2_blocks: 6, g2_bytes: 116, ec_bytes: 30 }
                } else if self.0 == 34 {
                    BlocksData { g1_blocks: 12, g1_bytes: 121, g2_blocks: 7, g2_bytes: 122, ec_bytes: 30 }
                } else if self.0 == 35 {
                    BlocksData { g1_blocks: 6, g1_bytes: 121, g2_blocks: 14, g2_bytes: 122, ec_bytes: 30 }
                } else if self.0 == 36 {
                    BlocksData { g1_blocks: 17, g1_bytes: 122, g2_blocks: 4, g2_bytes: 123, ec_bytes: 30 }
                } else if self.0 == 37 {
                    BlocksData { g1_blocks: 4, g1_bytes: 122, g2_blocks: 18, g2_bytes: 123, ec_bytes: 30 }
                } else if self.0 == 38 {
                    BlocksData { g1_blocks: 20, g1_bytes: 117, g2_blocks: 4, g2_bytes: 118, ec_bytes: 30 }
                } else {
                    BlocksData { g1_blocks: 19, g1_bytes: 118, g2_blocks: 6, g2_bytes: 119, ec_bytes: 30 }
                }
            },
            ErrorCorrectLv::M => {
                if self.0 == 0 {
                    BlocksData { g1_blocks: 1, g1_bytes: 16, g2_blocks: 0, g2_bytes: 0, ec_bytes: 10 }
                } else if self.0 == 1 {
                    BlocksData { g1_blocks: 1, g1_bytes: 28, g2_blocks: 0, g2_bytes: 0, ec_bytes: 16 }
                } else if self.0 == 2 {
                    BlocksData { g1_blocks: 1, g1_bytes: 44, g2_blocks: 0, g2_bytes: 0, ec_bytes: 26 }
                } else if self.0 == 3 {
                    BlocksData { g1_blocks: 2, g1_bytes: 32, g2_blocks: 0, g2_bytes: 0, ec_bytes: 18 }
                } else if self.0 == 4 {
                    BlocksData { g1_blocks: 2, g1_bytes: 43, g2_blocks: 0, g2_bytes: 0, ec_bytes: 24 }
                } else if self.0 == 5 {
                    BlocksData { g1_blocks: 4, g1_bytes: 27, g2_blocks: 0, g2_bytes: 0, ec_bytes: 16 }
                } else if self.0 == 6 {
                    BlocksData { g1_blocks: 4, g1_bytes: 31, g2_blocks: 0, g2_bytes: 0, ec_bytes: 18 }
                } else if self.0 == 7 {
                    BlocksData { g1_blocks: 2, g1_bytes: 38, g2_blocks: 2, g2_bytes: 39, ec_bytes: 22 }
                } else if self.0 == 8 {
                    BlocksData { g1_blocks: 3, g1_bytes: 36, g2_blocks: 2, g2_bytes: 37, ec_bytes: 22 }
                } else if self.0 == 9 {
                    BlocksData { g1_blocks: 4, g1_bytes: 43, g2_blocks: 1, g2_bytes: 44, ec_bytes: 26 }
                } else if self.0 == 10 {
                    BlocksData { g1_blocks: 1, g1_bytes: 50, g2_blocks: 4, g2_bytes: 51, ec_bytes: 30 }
                } else if self.0 == 11 {
                    BlocksData { g1_blocks: 6, g1_bytes: 36, g2_blocks: 2, g2_bytes: 37, ec_bytes: 22 }
                } else if self.0 == 12 {
                    BlocksData { g1_blocks: 8, g1_bytes: 37, g2_blocks: 1, g2_bytes: 38, ec_bytes: 22 }
                } else if self.0 == 13 {
                    BlocksData { g1_blocks: 4, g1_bytes: 40, g2_blocks: 5, g2_bytes: 41, ec_bytes: 24 }
                } else if self.0 == 14 {
                    BlocksData { g1_blocks: 5, g1_bytes: 41, g2_blocks: 5, g2_bytes: 42, ec_bytes: 24 }
                } else if self.0 == 15 {
                    BlocksData { g1_blocks: 7, g1_bytes: 45, g2_blocks: 3, g2_bytes: 46, ec_bytes: 28 }
                } else if self.0 == 16 {
                    BlocksData { g1_blocks: 10, g1_bytes: 46, g2_blocks: 1, g2_bytes: 47, ec_bytes: 28 }
                } else if self.0 == 17 {
                    BlocksData { g1_blocks: 9, g1_bytes: 43, g2_blocks: 4, g2_bytes: 44, ec_bytes: 26 }
                } else if self.0 == 18 {
                    BlocksData { g1_blocks: 3, g1_bytes: 44, g2_blocks: 11, g2_bytes: 45, ec_bytes: 26 }
                } else if self.0 == 19 {
                    BlocksData { g1_blocks: 3, g1_bytes: 41, g2_blocks: 13, g2_bytes: 42, ec_bytes: 26 }
                } else if self.0 == 20 {
                    BlocksData { g1_blocks: 17, g1_bytes: 42, g2_blocks: 0, g2_bytes: 0, ec_bytes: 26 }
                } else if self.0 == 21 {
                    BlocksData { g1_blocks: 17, g1_bytes: 46, g2_blocks: 0, g2_bytes: 0, ec_bytes: 28 }
                } else if self.0 == 22 {
                    BlocksData { g1_blocks: 4, g1_bytes: 47, g2_blocks: 14, g2_bytes: 48, ec_bytes: 28 }
                } else if self.0 == 23 {
                    BlocksData { g1_blocks: 6, g1_bytes: 45, g2_blocks: 14, g2_bytes: 46, ec_bytes: 28 }
                } else if self.0 == 24 {
                    BlocksData { g1_blocks: 8, g1_bytes: 47, g2_blocks: 13, g2_bytes: 48, ec_bytes: 28 }
                } else if self.0 == 25 {
                    BlocksData { g1_blocks: 19, g1_bytes: 46, g2_blocks: 4, g2_bytes: 47, ec_bytes: 28 }
                } else if self.0 == 26 {
                    BlocksData { g1_blocks: 22, g1_bytes: 45, g2_blocks: 3, g2_bytes: 46, ec_bytes: 28 }
                } else if self.0 == 27 {
                    BlocksData { g1_blocks: 3, g1_bytes: 45, g2_blocks: 23, g2_bytes: 46, ec_bytes: 28 }
                } else if self.0 == 28 {
                    BlocksData { g1_blocks: 21, g1_bytes: 45, g2_blocks: 7, g2_bytes: 46, ec_bytes: 28 }
                } else if self.0 == 29 {
                    BlocksData { g1_blocks: 19, g1_bytes: 47, g2_blocks: 10, g2_bytes: 48, ec_bytes: 28 }
                } else if self.0 == 30 {
                    BlocksData { g1_blocks: 2, g1_bytes: 46, g2_blocks: 29, g2_bytes: 47, ec_bytes: 28 }
                } else if self.0 == 31 {
                    BlocksData { g1_blocks: 10, g1_bytes: 46, g2_blocks: 23, g2_bytes: 47, ec_bytes: 28 }
                } else if self.0 == 32 {
                    BlocksData { g1_blocks: 14, g1_bytes: 46, g2_blocks: 21, g2_bytes: 47, ec_bytes: 28 }
                } else if self.0 == 33 {
                    BlocksData { g1_blocks: 14, g1_bytes: 46, g2_blocks: 23, g2_bytes: 47, ec_bytes: 28 }
                } else if self.0 == 34 {
                    BlocksData { g1_blocks: 12, g1_bytes: 47, g2_blocks: 26, g2_bytes: 48, ec_bytes: 28 }
                } else if self.0 == 35 {
                    BlocksData { g1_blocks: 6, g1_bytes: 47, g2_blocks: 34, g2_bytes: 48, ec_bytes: 28 }
                } else if self.0 == 36 {
                    BlocksData { g1_blocks: 29, g1_bytes: 46, g2_blocks: 14, g2_bytes: 47, ec_bytes: 28 }
                } else if self.0 == 37 {
                    BlocksData { g1_blocks: 13, g1_bytes: 46, g2_blocks: 32, g2_bytes: 47, ec_bytes: 28 }
                } else if self.0 == 38 {
                    BlocksData { g1_blocks: 40, g1_bytes: 47, g2_blocks: 7, g2_bytes: 48, ec_bytes: 28 }
                } else {
                    BlocksData { g1_blocks: 18, g1_bytes: 47, g2_blocks: 31, g2_bytes: 48, ec_bytes: 28 }
                }
            },
            ErrorCorrectLv::Q => {
                if self.0 == 0 {
                    BlocksData { g1_blocks: 1, g1_bytes: 13, g2_blocks: 0, g2_bytes: 0, ec_bytes: 13 }
                } else if self.0 == 1 {
                    BlocksData { g1_blocks: 1, g1_bytes: 22, g2_blocks: 0, g2_bytes: 0, ec_bytes: 22 }
                } else if self.0 == 2 {
                    BlocksData { g1_blocks: 2, g1_bytes: 17, g2_blocks: 0, g2_bytes: 0, ec_bytes: 18 }
                } else if self.0 == 3 {
                    BlocksData { g1_blocks: 2, g1_bytes: 24, g2_blocks: 0, g2_bytes: 0, ec_bytes: 26 }
                } else if self.0 == 4 {
                    BlocksData { g1_blocks: 2, g1_bytes: 15, g2_blocks: 2, g2_bytes: 16, ec_bytes: 18 }
                } else if self.0 == 5 {
                    BlocksData { g1_blocks: 4, g1_bytes: 19, g2_blocks: 0, g2_bytes: 0, ec_bytes: 24 }
                } else if self.0 == 6 {
                    BlocksData { g1_blocks: 2, g1_bytes: 14, g2_blocks: 4, g2_bytes: 15, ec_bytes: 18 }
                } else if self.0 == 7 {
                    BlocksData { g1_blocks: 4, g1_bytes: 18, g2_blocks: 2, g2_bytes: 19, ec_bytes: 22 }
                } else if self.0 == 8 {
                    BlocksData { g1_blocks: 4, g1_bytes: 16, g2_blocks: 4, g2_bytes: 17, ec_bytes: 20 }
                } else if self.0 == 9 {
                    BlocksData { g1_blocks: 6, g1_bytes: 19, g2_blocks: 2, g2_bytes: 20, ec_bytes: 24 }
                } else if self.0 == 10 {
                    BlocksData { g1_blocks: 4, g1_bytes: 22, g2_blocks: 4, g2_bytes: 23, ec_bytes: 28 }
                } else if self.0 == 11 {
                    BlocksData { g1_blocks: 4, g1_bytes: 20, g2_blocks: 6, g2_bytes: 21, ec_bytes: 26 }
                } else if self.0 == 12 {
                    BlocksData { g1_blocks: 8, g1_bytes: 20, g2_blocks: 4, g2_bytes: 21, ec_bytes: 24 }
                } else if self.0 == 13 {
                    BlocksData { g1_blocks: 11, g1_bytes: 16, g2_blocks: 5, g2_bytes: 17, ec_bytes: 20 }
                } else if self.0 == 14 {
                    BlocksData { g1_blocks: 5, g1_bytes: 24, g2_blocks: 7, g2_bytes: 25, ec_bytes: 30 }
                } else if self.0 == 15 {
                    BlocksData { g1_blocks: 15, g1_bytes: 19, g2_blocks: 2, g2_bytes: 20, ec_bytes: 24 }
                } else if self.0 == 16 {
                    BlocksData { g1_blocks: 1, g1_bytes: 22, g2_blocks: 15, g2_bytes: 23, ec_bytes: 28 }
                } else if self.0 == 17 {
                    BlocksData { g1_blocks: 17, g1_bytes: 22, g2_blocks: 1, g2_bytes: 23, ec_bytes: 28 }
                } else if self.0 == 18 {
                    BlocksData { g1_blocks: 17, g1_bytes: 21, g2_blocks: 4, g2_bytes: 22, ec_bytes: 26 }
                } else if self.0 == 19 {
                    BlocksData { g1_blocks: 15, g1_bytes: 24, g2_blocks: 5, g2_bytes: 25, ec_bytes: 30 }
                } else if self.0 == 20 {
                    BlocksData { g1_blocks: 17, g1_bytes: 22, g2_blocks: 6, g2_bytes: 23, ec_bytes: 28 }
                } else if self.0 == 21 {
                    BlocksData { g1_blocks: 7, g1_bytes: 24, g2_blocks: 16, g2_bytes: 25, ec_bytes: 30 }
                } else if self.0 == 22 {
                    BlocksData { g1_blocks: 11, g1_bytes: 24, g2_blocks: 14, g2_bytes: 25, ec_bytes: 30 }
                } else if self.0 == 23 {
                    BlocksData { g1_blocks: 11, g1_bytes: 24, g2_blocks: 16, g2_bytes: 25, ec_bytes: 30 }
                } else if self.0 == 24 {
                    BlocksData { g1_blocks: 7, g1_bytes: 24, g2_blocks: 22, g2_bytes: 25, ec_bytes: 30 }
                } else if self.0 == 25 {
                    BlocksData { g1_blocks: 28, g1_bytes: 22, g2_blocks: 6, g2_bytes: 23, ec_bytes: 28 }
                } else if self.0 == 26 {
                    BlocksData { g1_blocks: 8, g1_bytes: 23, g2_blocks: 26, g2_bytes: 24, ec_bytes: 30 }
                } else if self.0 == 27 {
                    BlocksData { g1_blocks: 4, g1_bytes: 24, g2_blocks: 31, g2_bytes: 25, ec_bytes: 30 }
                } else if self.0 == 28 {
                    BlocksData { g1_blocks: 1, g1_bytes: 23, g2_blocks: 37, g2_bytes: 24, ec_bytes: 30 }
                } else if self.0 == 29 {
                    BlocksData { g1_blocks: 15, g1_bytes: 24, g2_blocks: 25, g2_bytes: 25, ec_bytes: 30 }
                } else if self.0 == 30 {
                    BlocksData { g1_blocks: 42, g1_bytes: 24, g2_blocks: 1, g2_bytes: 25, ec_bytes: 30 }
                } else if self.0 == 31 {
                    BlocksData { g1_blocks: 10, g1_bytes: 24, g2_blocks: 35, g2_bytes: 25, ec_bytes: 30 }
                } else if self.0 == 32 {
                    BlocksData { g1_blocks: 29, g1_bytes: 24, g2_blocks: 19, g2_bytes: 25, ec_bytes: 30 }
                } else if self.0 == 33 {
                    BlocksData { g1_blocks: 44, g1_bytes: 24, g2_blocks: 7, g2_bytes: 25, ec_bytes: 30 }
                } else if self.0 == 34 {
                    BlocksData { g1_blocks: 39, g1_bytes: 24, g2_blocks: 14, g2_bytes: 25, ec_bytes: 30 }
                } else if self.0 == 35 {
                    BlocksData { g1_blocks: 46, g1_bytes: 24, g2_blocks: 10, g2_bytes: 25, ec_bytes: 30 }
                } else if self.0 == 36 {
                    BlocksData { g1_blocks: 49, g1_bytes: 24, g2_blocks: 10, g2_bytes: 25, ec_bytes: 30 }
                } else if self.0 == 37 {
                    BlocksData { g1_blocks: 48, g1_bytes: 24, g2_blocks: 14, g2_bytes: 25, ec_bytes: 30 }
                } else if self.0 == 38 {
                    BlocksData { g1_blocks: 43, g1_bytes: 24, g2_blocks: 22, g2_bytes: 25, ec_bytes: 30 }
                } else {
                    BlocksData { g1_blocks: 34, g1_bytes: 24, g2_blocks: 34, g2_bytes: 25, ec_bytes: 30 }
                }
            },
            ErrorCorrectLv::H => {
                if self.0 == 0 {
                    BlocksData { g1_blocks: 1, g1_bytes: 9, g2_blocks: 0, g2_bytes: 0, ec_bytes: 17 }
                } else if self.0 == 1 {
                    BlocksData { g1_blocks: 1, g1_bytes: 16, g2_blocks: 0, g2_bytes: 0, ec_bytes: 28 }
                } else if self.0 == 2 {
                    BlocksData { g1_blocks: 2, g1_bytes: 13, g2_blocks: 0, g2_bytes: 0, ec_bytes: 22 }
                } else if self.0 == 3 {
                    BlocksData { g1_blocks: 4, g1_bytes: 9, g2_blocks: 0, g2_bytes: 0, ec_bytes: 16 }
                } else if self.0 == 4 {
                    BlocksData { g1_blocks: 2, g1_bytes: 11, g2_blocks: 2, g2_bytes: 12, ec_bytes: 22 }
                } else if self.0 == 5 {
                    BlocksData { g1_blocks: 4, g1_bytes: 15, g2_blocks: 0, g2_bytes: 0, ec_bytes: 28 }
                } else if self.0 == 6 {
                    BlocksData { g1_blocks: 4, g1_bytes: 13, g2_blocks: 1, g2_bytes: 14, ec_bytes: 26 }
                } else if self.0 == 7 {
                    BlocksData { g1_blocks: 4, g1_bytes: 14, g2_blocks: 2, g2_bytes: 15, ec_bytes: 26 }
                } else if self.0 == 8 {
                    BlocksData { g1_blocks: 4, g1_bytes: 12, g2_blocks: 4, g2_bytes: 13, ec_bytes: 24 }
                } else if self.0 == 9 {
                    BlocksData { g1_blocks: 6, g1_bytes: 15, g2_blocks: 2, g2_bytes: 16, ec_bytes: 28 }
                } else if self.0 == 10 {
                    BlocksData { g1_blocks: 3, g1_bytes: 12, g2_blocks: 8, g2_bytes: 13, ec_bytes: 24 }
                } else if self.0 == 11 {
                    BlocksData { g1_blocks: 7, g1_bytes: 14, g2_blocks: 4, g2_bytes: 15, ec_bytes: 28 }
                } else if self.0 == 12 {
                    BlocksData { g1_blocks: 12, g1_bytes: 11, g2_blocks: 4, g2_bytes: 12, ec_bytes: 22 }
                } else if self.0 == 13 {
                    BlocksData { g1_blocks: 11, g1_bytes: 12, g2_blocks: 5, g2_bytes: 13, ec_bytes: 24 }
                } else if self.0 == 14 {
                    BlocksData { g1_blocks: 11, g1_bytes: 12, g2_blocks: 7, g2_bytes: 13, ec_bytes: 24 }
                } else if self.0 == 15 {
                    BlocksData { g1_blocks: 3, g1_bytes: 15, g2_blocks: 13, g2_bytes: 16, ec_bytes: 30 }
                } else if self.0 == 16 {
                    BlocksData { g1_blocks: 2, g1_bytes: 14, g2_blocks: 17, g2_bytes: 15, ec_bytes: 28 }
                } else if self.0 == 17 {
                    BlocksData { g1_blocks: 2, g1_bytes: 14, g2_blocks: 19, g2_bytes: 15, ec_bytes: 28 }
                } else if self.0 == 18 {
                    BlocksData { g1_blocks: 9, g1_bytes: 13, g2_blocks: 16, g2_bytes: 14, ec_bytes: 26 }
                } else if self.0 == 19 {
                    BlocksData { g1_blocks: 15, g1_bytes: 15, g2_blocks: 10, g2_bytes: 16, ec_bytes: 28 }
                } else if self.0 == 20 {
                    BlocksData { g1_blocks: 19, g1_bytes: 16, g2_blocks: 6, g2_bytes: 17, ec_bytes: 30 }
                } else if self.0 == 21 {
                    BlocksData { g1_blocks: 34, g1_bytes: 13, g2_blocks: 0, g2_bytes: 0, ec_bytes: 24 }
                } else if self.0 == 22 {
                    BlocksData { g1_blocks: 16, g1_bytes: 15, g2_blocks: 14, g2_bytes: 16, ec_bytes: 30 }
                } else if self.0 == 23 {
                    BlocksData { g1_blocks: 30, g1_bytes: 16, g2_blocks: 2, g2_bytes: 17, ec_bytes: 30 }
                } else if self.0 == 24 {
                    BlocksData { g1_blocks: 22, g1_bytes: 15, g2_blocks: 13, g2_bytes: 16, ec_bytes: 30 }
                } else if self.0 == 25 {
                    BlocksData { g1_blocks: 33, g1_bytes: 16, g2_blocks: 4, g2_bytes: 17, ec_bytes: 30 }
                } else if self.0 == 26 {
                    BlocksData { g1_blocks: 12, g1_bytes: 15, g2_blocks: 28, g2_bytes: 16, ec_bytes: 30 }
                } else if self.0 == 27 {
                    BlocksData { g1_blocks: 11, g1_bytes: 15, g2_blocks: 31, g2_bytes: 16, ec_bytes: 30 }
                } else if self.0 == 28 {
                    BlocksData { g1_blocks: 19, g1_bytes: 15, g2_blocks: 26, g2_bytes: 16, ec_bytes: 30 }
                } else if self.0 == 29 {
                    BlocksData { g1_blocks: 23, g1_bytes: 15, g2_blocks: 25, g2_bytes: 16, ec_bytes: 30 }
                } else if self.0 == 30 {
                    BlocksData { g1_blocks: 23, g1_bytes: 15, g2_blocks: 28, g2_bytes: 16, ec_bytes: 30 }
                } else if self.0 == 31 {
                    BlocksData { g1_blocks: 19, g1_bytes: 15, g2_blocks: 35, g2_bytes: 16, ec_bytes: 30 }
                } else if self.0 == 32 {
                    BlocksData { g1_blocks: 11, g1_bytes: 15, g2_blocks: 46, g2_bytes: 16, ec_bytes: 30 }
                } else if self.0 == 33 {
                    BlocksData { g1_blocks: 59, g1_bytes: 16, g2_blocks: 1, g2_bytes: 17, ec_bytes: 30 }
                } else if self.0 == 34 {
                    BlocksData { g1_blocks: 22, g1_bytes: 15, g2_blocks: 41, g2_bytes: 16, ec_bytes: 30 }
                } else if self.0 == 35 {
                    BlocksData { g1_blocks: 2, g1_bytes: 15, g2_blocks: 64, g2_bytes: 16, ec_bytes: 30 }
                } else if self.0 == 36 {
                    BlocksData { g1_blocks: 24, g1_bytes: 15, g2_blocks: 46, g2_bytes: 16, ec_bytes: 30 }
                } else if self.0 == 37 {
                    BlocksData { g1_blocks: 42, g1_bytes: 15, g2_blocks: 32, g2_bytes: 16, ec_bytes: 30 }
                } else if self.0 == 38 {
                    BlocksData { g1_blocks: 10, g1_bytes: 15, g2_blocks: 67, g2_bytes: 16, ec_bytes: 30 }
                } else {
                    BlocksData { g1_blocks: 20, g1_bytes: 15, g2_blocks: 61, g2_bytes: 16, ec_bytes: 30 }
                }
            },
        }
    }

    /// The number of data codewords the version holds at the given level.
    pub fn max_data_bytes(self, ec: ErrorCorrectLv) -> (r: usize)
        ensures
            r == self.spec_max_data_bytes(ec),
            9 <= r <= 2956,
    {
        let b = self.blocks_data(ec);
        b.g1_blocks * b.g1_bytes + b.g2_blocks * b.g2_bytes
    }

    /// The bit width of the character-count indicator for the given mode.
    pub open spec fn spec_char_count_length(self, mode: Mode) -> int {
        match mode {
            Mode::Numeric => if self.0 < 9 { 10 } else if self.0 < 26 { 12 } else { 14 },
            Mode::Alphanumeric => if self.0 < 9 { 9 } else if self.0 < 26 { 11 } else { 13 },
            Mode::Bytes => if self.0 < 9 { 8 } else { 16 },
            Mode::Kanji => if self.0 < 9 { 8 } else if self.0 < 26 { 10 } else { 12 },
        }
    }

    /// The bit width of the character-count indicator for the given mode.
    pub fn char_count_length(self, mode: Mode) -> (r: usize)
        ensures
            r == self.spec_char_count_length(mode),
            8 <= r <= 16,
    {
        match mode {
            Mode::Numeric => if self.0 < 9 { 10 } else if self.0 < 26 { 12 } else { 14 },
            Mode::Alphanumeric => if self.0 < 9 { 9 } else if self.0 < 26 { 11 } else { 13 },
            Mode::Bytes => if self.0 < 9 { 8 } else { 16 },
            Mode::Kanji => if self.0 < 9 { 8 } else if self.0 < 26 { 10 } else { 12 },
        }
    }

    /// The centre coordinates of the version's alignment patterns, along each
    /// axis.
    pub open spec fn spec_align_locations(self) -> Seq<usize> {
        if self.0 == 0 {
            Seq::<usize>::empty()
        } else if self.0 == 1 {
            seq![6usize, 18usize]
        } else if self.0 == 2 {
            seq![6usize, 22usize]
        } else if self.0 == 3 {
            seq![6usize, 26usize]
        } else if self.0 == 4 {
            seq![6usize, 30usize]
        } else if self.0 == 5 {
            seq![6usize, 34usize]
        } else if self.0 == 6 {
            seq![6usize, 22usize, 38usize]
        } else if self.0 == 7 {
            seq![6usize, 24usize, 42usize]
        } else if self.0 == 8 {
            seq![6usize, 26usize, 46usize]
        } else if self.0 == 9 {
            seq![6usize, 28usize, 50usize]
        } else if self.0 == 10 {
            seq![6usize, 30usize, 54usize]
        } else if self.0 == 11 {
            seq![6usize, 32usize, 58usize]
        } else if self.0 == 12 {
            seq![6usize, 34usize, 62usize]
        } else if self.0 == 13 {
            seq![6usize, 26usize, 46usize, 66usize]
        } else if self.0 == 14 {
            seq![6usize, 26usize, 48usize, 70usize]
        } else if self.0 == 15 {
            seq![6usize, 26usize, 50usize, 74usize]
        } else if self.0 == 16 {
            seq![6usize, 30usize, 54usize, 78usize]
        } else if self.0 == 17 {
            seq![6usize, 30usize, 56usize, 82usize]
        } else if self.0 == 18 {
            seq![6usize, 30usize, 58usize, 86usize]
        } else if self.0 == 19 {
            seq![6usize, 34usize, 62usize, 90usize]
        } else if self.0 == 20 {
            seq![6usize, 28usize, 50usize, 72usize, 94usize]
        } else if self.0 == 21 {
            seq![6usize, 26usize, 50usize, 74usize, 98usize]
        } else if self.0 == 22 {
            seq![6usize, 30usize, 54usize, 78usize, 102usize]
        } else if self.0 == 23 {
            seq![6usize, 28usize, 54usize, 80usize, 106usize]
        } else if self.0 == 24 {
            seq![6usize, 32usize, 58usize, 84usize, 110usize]
        } else if self.0 == 25 {
            seq![6usize, 30usize, 58usize, 86usize, 114usize]
        } else if self.0 == 26 {
            seq![6usize, 34usize, 62usize, 90usize, 118usize]
        } else if self.0 == 27 {
            seq![6usize, 26usize, 50usize, 74usize, 98usize, 122usize]
        } else if self.0 == 28 {
            seq![6usize, 30usize, 54usize, 78usize, 102usize, 126usize]
        } else if self.0 == 29 {
            seq![6usize, 26usize, 52usize, 78usize, 104usize, 130usize]
        } else if self.0 == 30 {
            seq![6usize, 30usize, 56usize, 82usize, 108usize, 134usize]
        } else if self.0 == 31 {
            seq![6usize, 34usize, 60usize, 86usize, 112usize, 138usize]
        } else if self.0 == 32 {
            seq![6usize, 30usize, 58usize, 86usize, 114usize, 142usize]
        } else if self.0 == 33 {
            seq![6usize, 34usize, 62usize, 90usize, 118usize, 146usize]
        } else if self.0 == 34 {
            seq![6usize, 30usize, 54usize, 78usize, 102usize, 126usize, 150usize]
        } else if self.0 == 35 {
            seq![6usize, 24usize, 50usize, 76usize, 102usize, 128usize, 154usize]
        } else if self.0 == 36 {
            seq![6usize, 28usize, 54usize, 80usize, 106usize, 132usize, 158usize]
        } else if self.0 == 37 {
            seq![6usize, 32usize, 58usize, 84usize, 110usize, 136usize, 162usize]
        } else if self.0 == 38 {
            seq![6usize, 26usize, 54usize, 82usize, 110usize, 138usize, 166usize]
        } else {
            seq![6usize, 30usize, 58usize, 86usize, 114usize, 142usize, 170usize]
        }
    }

    /// The centre coordinates of the version's alignment patterns.
    pub fn align_locations(self) -> (r: Vec<usize>)
        ensures
            r@ == self.spec_align_locations(),
            forall|i: int|
                0 <= i < r@.len() ==> 6 <= #[trigger] r@[i] && r@[i] + 3 <= 4 * (self.0 as int)
                    + 21,
            forall|i: int| 0 <= i < r@.len() ==> (#[trigger] r@[i]) % 2 == 0,
            forall|i: int| 0 <= i < r@.len() ==> #[trigger] r@[i] == 6 || r@[i] >= 18,
            forall|i: int|
                0 <= i < r@.len() ==> #[trigger] r@[i] + 11 <= 4 * (self.0 as int) + 21 || r@[i]
                    == 4 * (self.0 as int) + 21 - 7,
            forall|i: int, j: int|
                0 <= i < r@.len() && 0 <= j < r@.len() && i != j ==> #[trigger] r@[i] + 5
                    <= #[trigger] r@[j] || r@[j] + 5 <= r@[i],
    {
        let mut r: Vec<usize> = Vec::new();
        if self.0 == 0 {
            // no alignment patterns
        } else if self.0 == 1 {
            r.push(6); r.push(18);
        } else if self.0 == 2 {
            r.push(6); r.push(22);
        } else if self.0 == 3 {
            r.push(6); r.push(26);
        } else if self.0 == 4 {
            r.push(6); r.push(30);
        } else if self.0 == 5 {
            r.push(6); r.push(34);
        } else if self.0 == 6 {
            r.push(6); r.push(22); r.push(38);
        } else if self.0 == 7 {
            r.push(6); r.push(24); r.push(42);
        } else if self.0 == 8 {
            r.push(6); r.push(26); r.push(46);
        } else if self.0 == 9 {
            r.push(6); r.push(28); r.push(50);
        } else if self.0 == 10 {
            r.push(6); r.push(30); r.push(54);
        } else if self.0 == 11 {
            r.push(6); r.push(32); r.push(58);
        } else if self.0 == 12 {
            r.push(6); r.push(34); r.push(62);
        } else if self.0 == 13 {
            r.push(6); r.push(26); r.push(46); r.push(66);
        } else if self.0 == 14 {
            r.push(6); r.push(26); r.push(48); r.push(70);
        } else if self.0 == 15 {
            r.push(6); r.push(26); r.push(50); r.push(74);
        } else if self.0 == 16 {
            r.push(6); r.push(30); r.push(54); r.push(78);
        } else if self.0 == 17 {
            r.push(6); r.push(30); r.push(56); r.push(82);
        } else if self.0 == 18 {
            r.push(6); r.push(30); r.push(58); r.push(86);
        } else if self.0 == 19 {
            r.push(6); r.push(34); r.push(62); r.push(90);
        } else if self.0 == 20 {
            r.push(6); r.push(28); r.push(50); r.push(72); r.push(94);
        } else if self.0 == 21 {
            r.push(6); r.push(26); r.push(50); r.push(74); r.push(98);
        } else if self.0 == 22 {
            r.push(6); r.push(30); r.push(54); r.push(78); r.push(102);
        } else if self.0 == 23 {
            r.push(6); r.push(28); r.push(54); r.push(80); r.push(106);
        } else if self.0 == 24 {
            r.push(6); r.push(32); r.push(58); r.push(84); r.push(110);
        } else if self.0 == 25 {
            r.push(6); r.push(30); r.push(58); r.push(86); r.push(114);
        } else if self.0 == 26 {
            r.push(6); r.push(34); r.push(62); r.push(90); r.push(118);
        } else if self.0 == 27 {
            r.push(6); r.push(26); r.push(50); r.push(74); r.push(98); r.push(122);
        } else if self.0 == 28 {
            r.push(6); r.push(30); r.push(54); r.push(78); r.push(102); r.push(126);
        } else if self.0 == 29 {
            r.push(6); r.push(26); r.push(52); r.push(78); r.push(104); r.push(130);
        } else if self.0 == 30 {
            r.push(6); r.push(30); r.push(56); r.push(82); r.push(108); r.push(134);
        } else if self.0 == 31 {
            r.push(6); r.push(34); r.push(60); r.push(86); r.push(112); r.push(138);
        } else if self.0 == 32 {
            r.push(6); r.push(30); r.push(58); r.push(86); r.push(114); r.push(142);
        } else if self.0 == 33 {
            r.push(6); r.push(34); r.push(62); r.push(90); r.push(118); r.push(146);
        } else if self.0 == 34 {
            r.push(6); r.push(30); r.push(54); r.push(78); r.push(102); r.push(126); r.push(150);
        } else if self.0 == 35 {
            r.push(6); r.push(24); r.push(50); r.push(76); r.push(102); r.push(128); r.push(154);
        } else if self.0 == 36 {
            r.push(6); r.push(28); r.push(54); r.push(80); r.push(106); r.push(132); r.push(158);
        } else if self.0 == 37 {
            r.push(6); r.push(32); r.push(58); r.push(84); r.push(110); r.push(136); r.push(162);
        } else if self.0 == 38 {
            r.push(6); r.push(26); r.push(54); r.push(82); r.push(110); r.push(138); r.push(166);
        } else {
            r.push(6); r.push(30); r.push(58); r.push(86); r.push(114); r.push(142); r.push(170);
        }
        proof {
            assert(r@ =~= self.spec_align_locations());
        }
        r
    }

    /// The 18-bit version-information word, for versions 7 and up; versions
    /// below 7 carry none and yield 0.
    pub open spec fn spec_version_info(self) -> u32 {
        if self.0 == 0 {
            0u32
        } else if self.0 == 1 {
            0u32
        } else if self.0 == 2 {
            0u32
        } else if self.0 == 3 {
            0u32
        } else if self.0 == 4 {
            0u32
        } else if self.0 == 5 {
            0u32
        } else if self.0 == 6 {
            0b000111110010010100u32
        } else if self.0 == 7 {
            0b001000010110111100u32
        } else if self.0 == 8 {
            0b001001101010011001u32
        } else if self.0 == 9 {
            0b001010010011010011u32
        } else if self.0 == 10 {
            0b001011101111110110u32
        } else if self.0 == 11 {
            0b001100011101100010u32
        } else if self.0 == 12 {
            0b001101100001000111u32
        } else if self.0 == 13 {
            0b001110011000001101u32
        } else if self.0 == 14 {
            0b001111100100101000u32
        } else if self.0 == 15 {
            0b010000101101111000u32
        } else if self.0 == 16 {
            0b010001010001011101u32
        } else if self.0 == 17 {
            0b010010101000010111u32
        } else if self.0 == 18 {
            0b010011010100110010u32
        } else if self.0 == 19 {
            0b010100100110100110u32
        } else if self.0 == 20 {
            0b010101011010000011u32
        } else if self.0 == 21 {
            0b010110100011001001u32
        } else if self.0 == 22 {
            0b010111011111101100u32
        } else if self.0 == 23 {
            0b011000111011000100u32
        } else if self.0 == 24 {
            0b011001000111100001u32
        } else if self.0 == 25 {
            0b011010111110101011u32
        } else if self.0 == 26 {
            0b011011000010001110u32
        } else if self.0 == 27 {
            0b011100110000011010u32
        } else if self.0 == 28 {
            0b011101001100111111u32
        } else if self.0 == 29 {
            0b011110110101110101u32
        } else if self.0 == 30 {
            0b011111001001010000u32
        } else if self.0 == 31 {
            0b100000100111010101u32
        } else if self.0 == 32 {
            0b100001011011110000u32
        } else if self.0 == 33 {
            0b100010100010111010u32
        } else if self.0 == 34 {
            0b100011011110011111u32
        } else if self.0 == 35 {
            0b100100101100001011u32
        } else if self.0 == 36 {
            0b100101010000101110u32
        } else if self.0 == 37 {
            0b100110101001100100u32
        } else if self.0 == 38 {
            0b100111010101000001u32
        } else {
            0b101000110001101001u32
        }
    }

    /// The 18-bit version-information word, for versions 7 and up.
    pub fn version_info(self) -> (r: u32)
        ensures
            r == self.spec_version_info(),
    {
        if self.0 == 0 {
            0u32
        } else if self.0 == 1 {
            0u32
        } else if self.0 == 2 {
            0u32
        } else if self.0 == 3 {
            0u32
        } else if self.0 == 4 {
            0u32
        } else if self.0 == 5 {
            0u32
        } else if self.0 == 6 {
            0b000111110010010100u32
        } else if self.0 == 7 {
            0b001000010110111100u32
        } else if self.0 == 8 {
            0b001001101010011001u32
        } else if self.0 == 9 {
            0b001010010011010011u32
        } else if self.0 == 10 {
            0b001011101111110110u32
        } else if self.0 == 11 {
            0b001100011101100010u32
        } else if self.0 == 12 {
            0b001101100001000111u32
        } else if self.0 == 13 {
            0b001110011000001101u32
        } else if self.0 == 14 {
            0b001111100100101000u32
        } else if self.0 == 15 {
            0b010000101101111000u32
        } else if self.0 == 16 {
            0b010001010001011101u32
        } else if self.0 == 17 {
            0b010010101000010111u32
        } else if self.0 == 18 {
            0b010011010100110010u32
        } else if self.0 == 19 {
            0b010100100110100110u32
        } else if self.0 == 20 {
            0b010101011010000011u32
        } else if self.0 == 21 {
            0b010110100011001001u32
        } else if self.0 == 22 {
            0b010111011111101100u32
        } else if self.0 == 23 {
            0b011000111011000100u32
        } else if self.0 == 24 {
            0b011001000111100001u32
        } else if self.0 == 25 {
            0b011010111110101011u32
        } else if self.0 == 26 {
            0b011011000010001110u32
        } else if self.0 == 27 {
            0b011100110000011010u32
        } else if self.0 == 28 {
            0b011101001100111111u32
        } else if self.0 == 29 {
            0b011110110101110101u32
        } else if self.0 == 30 {
            0b011111001001010000u32
        } else if self.0 == 31 {
            0b100000100111010101u32
        } else if self.0 == 32 {
            0b100001011011110000u32
        } else if self.0 == 33 {
            0b100010100010111010u32
        } else if self.0 == 34 {
            0b100011011110011111u32
        } else if self.0 == 35 {
            0b100100101100001011u32
        } else if self.0 == 36 {
            0b100101010000101110u32
        } else if self.0 == 37 {
            0b100110101001100100u32
        } else if self.0 == 38 {
            0b100111010101000001u32
        } else {
            0b101000110001101001u32
        }
    }
}

/// The 15-bit BCH-protected format-information word for a level and mask id.
pub open spec fn spec_format_info(ec: ErrorCorrectLv, mask: int) -> u16 {
    match ec {
        ErrorCorrectLv::L => {
            if mask == 0 {
                0b111011111000100u16
            } else if mask == 1 {
                0b111001011110011u16
            } else if mask == 2 {
                0b111110110101010u16
            } else if mask == 3 {
                0b111100010011101u16
            } else if mask == 4 {
                0b110011000101111u16
            } else if mask == 5 {
                0b110001100011000u16
            } else if mask == 6 {
                0b110110001000001u16
            } else {
                0b110100101110110u16
            }
        },
        ErrorCorrectLv::M => {
            if mask == 0 {
                0b101010000010010u16
            } else if mask == 1 {
                0b101000100100101u16
            } else if mask == 2 {
                0b101111001111100u16
            } else if mask == 3 {
                0b101101101001011u16
            } else if mask == 4 {
                0b100010111111001u16
            } else if mask == 5 {
                0b100000011001110u16
            } else if mask == 6 {
                0b100111110010111u16
            } else {
                0b100101010100000u16
            }
        },
        ErrorCorrectLv::Q => {
            if mask == 0 {
                0b011010101011111u16
            } else if mask == 1 {
                0b011000001101000u16
            } else if mask == 2 {
                0b011111100110001u16
            } else if mask == 3 {
                0b011101000000110u16
            } else if mask == 4 {
                0b010010010110100u16
            } else if mask == 5 {
                0b010000110000011u16
            } else if mask == 6 {
                0b010111011011010u16
            } else {
                0b010101111101101u16
            }
        },
        ErrorCorrectLv::H => {
            if mask == 0 {
                0b001011010001001u16
            } else if mask == 1 {
                0b001001110111110u16
            } else if mask == 2 {
                0b001110011100111u16
            } else if mask == 3 {
                0b001100111010000u16
            } else if mask == 4 {
                0b000011101100010u16
            } else if mask == 5 {
                0b000001001010101u16
            } else if mask == 6 {
                0b000110100001100u16
            } else {
                0b000100000111011u16
            }
        },
    }
}

/// The 15-bit BCH-protected format-information word for a level and mask id.
pub fn format_info(ec: ErrorCorrectLv, mask: usize) -> (r: u16)
    ensures
        r == spec_format_info(ec, mask as int),
{
    match ec {
        ErrorCorrectLv::L => {
            if mask == 0 {
                0b111011111000100u16
            } else if mask == 1 {
                0b111001011110011u16
            } else if mask == 2 {
                0b111110110101010u16
            } else if mask == 3 {
                0b111100010011101u16
            } else if mask == 4 {
                0b110011000101111u16
            } else if mask == 5 {
                0b110001100011000u16
            } else if mask == 6 {
                0b110110001000001u16
            } else {
                0b110100101110110u16
            }
        },
        ErrorCorrectLv::M => {
            if mask == 0 {
                0b101010000010010u16
            } else if mask == 1 {
                0b101000100100101u16
            } else if mask == 2 {
                0b101111001111100u16
            } else if mask == 3 {
                0b101101101001011u16
            } else if mask == 4 {
                0b100010111111001u16
            } else if mask == 5 {
                0b100000011001110u16
            } else if mask == 6 {
                0b100111110010111u16
            } else {
                0b100101010100000u16
            }
        },
        ErrorCorrectLv::Q => {
            if mask == 0 {
                0b011010101011111u16
            } else if mask == 1 {
                0b011000001101000u16
            } else if mask == 2 {
                0b011111100110001u16
            } else if mask == 3 {
                0b011101000000110u16
            } else if mask == 4 {
                0b010010010110100u16
            } else if mask == 5 {
                0b010000110000011u16
            } else if mask == 6 {
                0b010111011011010u16
            } else {
                0b010101111101101u16
            }
        },
        ErrorCorrectLv::H => {
            if mask == 0 {
                0b001011010001001u16
            } else if mask == 1 {
                0b001001110111110u16
            } else if mask == 2 {
                0b001110011100111u16
            } else if mask == 3 {
                0b001100111010000u16
            } else if mask == 4 {
                0b000011101100010u16
            } else if mask == 5 {
                0b000001001010101u16
            } else if mask == 6 {
                0b000110100001100u16
            } else {
                0b000100000111011u16
            }
        },
    }
}


/// Every version and level holds between 9 and 2956 data codewords.
pub proof fn lemma_max_data_bytes_bound(v: Version, ec: ErrorCorrectLv)
    ensures
        9 <= v.spec_max_data_bytes(ec) <= 2956,
{
    match ec {
        ErrorCorrectLv::L => {
        if v.0 == 0 {
        } else
        if v.0 == 1 {
        } else
        if v.0 == 2 {
        } else
        if v.0 == 3 {
        } else
        if v.0 == 4 {
        } else
        if v.0 == 5 {
        } else
        if v.0 == 6 {
        } else
        if v.0 == 7 {
        } else
        if v.0 == 8 {
        } else
        if v.0 == 9 {
        } else
        if v.0 == 10 {
        } else
        if v.0 == 11 {
        } else
        if v.0 == 12 {
        } else
        if v.0 == 13 {
        } else
        if v.0 == 14 {
        } else
        if v.0 == 15 {
        } else
        if v.0 == 16 {
        } else
        if v.0 == 17 {
        } else
        if v.0 == 18 {
        } else
        if v.0 == 19 {
        } else
        if v.0 == 20 {
        } else
        if v.0 == 21 {
        } else
        if v.0 == 22 {
        } else
        if v.0 == 23 {
        } else
        if v.0 == 24 {
        } else
        if v.0 == 25 {
        } else
        if v.0 == 26 {
        } else
        if v.0 == 27 {
        } else
        if v.0 == 28 {
        } else
        if v.0 == 29 {
        } else
        if v.0 == 30 {
        } else
        if v.0 == 31 {
        } else
        if v.0 == 32 {
        } else
        if v.0 == 33 {
        } else
        if v.0 == 34 {
        } else
        if v.0 == 35 {
        } else
        if v.0 == 36 {
        } else
        if v.0 == 37 {
        } else
        if v.0 == 38 {
        } else {
        }
        },
        ErrorCorrectLv::M => {
        if v.0 == 0 {
        } else
        if v.0 == 1 {
        } else
        if v.0 == 2 {
        } else
        if v.0 == 3 {
        } else
        if v.0 == 4 {
        } else
        if v.0 == 5 {
        } else
        if v.0 == 6 {
        } else
        if v.0 == 7 {
        } else
        if v.0 == 8 {
        } else
        if v.0 == 9 {
        } else
        if v.0 == 10 {
        } else
        if v.0 == 11 {
        } else
        if v.0 == 12 {
        } else
        if v.0 == 13 {
        } else
        if v.0 == 14 {
        } else
        if v.0 == 15 {
        } else
        if v.0 == 16 {
        } else
        if v.0 == 17 {
        } else
        if v.0 == 18 {
        } else
        if v.0 == 19 {
        } else
        if v.0 == 20 {
        } else
        if v.0 == 21 {
        } else
        if v.0 == 22 {
        } else
        if v.0 == 23 {
        } else
        if v.0 == 24 {
        } else
        if v.0 == 25 {
        } else
        if v.0 == 26 {
        } else
        if v.0 == 27 {
        } else
        if v.0 == 28 {
        } else
        if v.0 == 29 {
        } else
        if v.0 == 30 {
        } else
        if v.0 == 31 {
        } else
        if v.0 == 32 {
        } else
        if v.0 == 33 {
        } else
        if v.0 == 34 {
        } else
        if v.0 == 35 {
        } else
        if v.0 == 36 {
        } else
        if v.0 == 37 {
        } else
        if v.0 == 38 {
        } else {
        }
        },
        ErrorCorrectLv::Q => {
        if v.0 == 0 {
        } else
        if v.0 == 1 {
        } else
        if v.0 == 2 {
        } else
        if v.0 == 3 {
        } else
        if v.0 == 4 {
        } else
        if v.0 == 5 {
        } else
        if v.0 == 6 {
        } else
        if v.0 == 7 {
        } else
        if v.0 == 8 {
        } else
        if v.0 == 9 {
        } else
        if v.0 == 10 {
        } else
        if v.0 == 11 {
        } else
        if v.0 == 12 {
        } else
        if v.0 == 13 {
        } else
        if v.0 == 14 {
        } else
        if v.0 == 15 {
        } else
        if v.0 == 16 {
        } else
        if v.0 == 17 {
        } else
        if v.0 == 18 {
        } else
        if v.0 == 19 {
        } else
        if v.0 == 20 {
        } else
        if v.0 == 21 {
        } else
        if v.0 == 22 {
        } else
        if v.0 == 23 {
        } else
        if v.0 == 24 {
        } else
        if v.0 == 25 {
        } else
        if v.0 == 26 {
        } else
        if v.0 == 27 {
        } else
        if v.0 == 28 {
        } else
        if v.0 == 29 {
        } else
        if v.0 == 30 {
        } else
        if v.0 == 31 {
        } else
        if v.0 == 32 {
        } else
        if v.0 == 33 {
        } else
        if v.0 == 34 {
        } else
        if v.0 == 35 {
        } else
        if v.0 == 36 {
        } else
        if v.0 == 37 {
        } else
        if v.0 == 38 {
        } else {
        }
        },
        ErrorCorrectLv::H => {
        if v.0 == 0 {
        } else
        if v.0 == 1 {
        } else
        if v.0 == 2 {
        } else
        if v.0 == 3 {
        } else
        if v.0 == 4 {
        } else
        if v.0 == 5 {
        } else
        if v.0 == 6 {
        } else
        if v.0 == 7 {
        } else
        if v.0 == 8 {
        } else
        if v.0 == 9 {
        } else
        if v.0 == 10 {
        } else
        if v.0 == 11 {
        } else
        if v.0 == 12 {
        } else
        if v.0 == 13 {
        } else
        if v.0 == 14 {
        } else
        if v.0 == 15 {
        } else
        if v.0 == 16 {
        } else
        if v.0 == 17 {
        } else
        if v.0 == 18 {
        } else
        if v.0 == 19 {
        } else
        if v.0 == 20 {
        } else
        if v.0 == 21 {
        } else
        if v.0 == 22 {
        } else
        if v.0 == 23 {
        } else
        if v.0 == 24 {
        } else
        if v.0 == 25 {
        } else
        if v.0 == 26 {
        } else
        if v.0 == 27 {
        } else
        if v.0 == 28 {
        } else
        if v.0 == 29 {
        } else
        if v.0 == 30 {
        } else
        if v.0 == 31 {
        } else
        if v.0 == 32 {
        } else
        if v.0 == 33 {
        } else
        if v.0 == 34 {
        } else
        if v.0 == 35 {
        } else
        if v.0 == 36 {
        } else
        if v.0 == 37 {
        } else
        if v.0 == 38 {
        } else {
        }
        },
    }
}

} // verus!
