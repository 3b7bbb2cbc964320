use vstd::prelude::*;

verus! {

/// Fixed-point lookup tables for the two transcendental shapes the LMSR
/// needs: the softplus `ln(1 + e^(-u))` (for the cost function) and the
/// logistic `1 / (1 + e^(-u))` (for the instantaneous price), both sampled
/// at `u = i / 4` and linearly interpolated between samples by the pricing
/// functions. Sampling at quarter steps keeps the interpolation error of
/// the softplus under 0.2% of the liquidity parameter while keeping the
/// drop between neighbouring samples small enough that the interpolated
/// cost moves by at most one fixed-point unit per unit of quantity.

/// Scale of the softplus samples.
pub const SOFTPLUS_SCALE: i128 = 1_000_000_000_000;

/// Half the softplus scale; added before dividing to round to nearest.
pub const SOFTPLUS_HALF: i128 = 500_000_000_000;

/// First index whose sample rounds to zero; every later index is zero too.
pub const SOFTPLUS_LAST: u32 = 114;

/// Upper bound on the drop between consecutive softplus samples (the
/// drop is largest at index zero and shrinks as the curve flattens).
/// Four times this bound stays below `SOFTPLUS_SCALE`, which is what
/// bounds the cost function's slope by one.
pub const SOFTPLUS_STEP_MAX: i128 = 117_207_760_681;

/// Scale of the logistic samples (the price scale).
pub const SIGMOID_SCALE: i128 = 1_000_000;

/// First index at which the logistic saturates at one unit below its
/// scale; every later index holds the same saturated value.
pub const SIGMOID_LAST: u32 = 54;

/// `ln(1 + e^(-i/4))`, scaled by `SOFTPLUS_SCALE`, rounded to nearest.
pub open spec fn softplus_entry(i: int) -> int {

    if i <= 0 { 693_147_180_560 }
    else if i == 1 { 575_939_419_879 }
    else if i == 2 { 474_076_984_180 }
    else if i == 3 { 386_871_006_115 }
    else if i == 4 { 313_261_687_518 }
    else if i == 5 { 251_929_081_345 }
    else if i == 6 { 201_413_277_983 }
    else if i == 7 { 160_224_150_438 }
    else if i == 8 { 126_928_011_043 }
    else if i == 9 { 100_206_558_917 }
    else if i == 10 { 78_889_734_293 }
    else if i == 11 { 61_967_589_003 }
    else if i == 12 { 48_587_351_574 }
    else if i == 13 { 38_041_371_688 }
    else if i == 14 { 29_750_418_273 }
    else if i == 15 { 23_245_464_372 }
    else if i == 16 { 18_149_927_918 }
    else if i == 17 { 14_163_456_932 }
    else if i == 18 { 11_047_744_849 }
    else if i == 19 { 8_614_483_762 }
    else if i == 20 { 6_715_348_489 }
    else if i == 21 { 5_233_798_152 }
    else if i == 22 { 4_078_443_271 }
    else if i == 23 { 3_177_726_471 }
    else if i == 24 { 2_475_685_138 }
    else if i == 25 { 1_928_593_204 }
    else if i == 26 { 1_502_310_160 }
    else if i == 27 { 1_170_194_676 }
    else if i == 28 { 911_466_454 }
    else if i == 29 { 709_922_334 }
    else if i == 30 { 552_931_475 }
    else if i == 31 { 430_649_798 }
    else if i == 32 { 335_406_373 }
    else if i == 33 { 261_224_435 }
    else if i == 34 { 203_447_672 }
    else if i == 35 { 158_448_771 }
    else if i == 36 { 123_402_190 }
    else if i == 37 { 96_107_034 }
    else if i == 38 { 74_849_029 }
    else if i == 39 { 58_292_965 }
    else if i == 40 { 45_398_899 }
    else if i == 41 { 35_356_876 }
    else if i == 42 { 27_536_070 }
    else if i == 43 { 21_445_178 }
    else if i == 44 { 16_701_561 }
    else if i == 45 { 13_007_213 }
    else if i == 46 { 10_130_042 }
    else if i == 47 { 7_889_294 }
    else if i == 48 { 6_144_193 }
    else if i == 49 { 4_785_106 }
    else if i == 50 { 3_726_646 }
    else if i == 51 { 2_902_316 }
    else if i == 52 { 2_260_327 }
    else if i == 53 { 1_760_345 }
    else if i == 54 { 1_370_958 }
    else if i == 55 { 1_067_703 }
    else if i == 56 { 831_528 }
    else if i == 57 { 647_595 }
    else if i == 58 { 504_348 }
    else if i == 59 { 392_786 }
    else if i == 60 { 305_902 }
    else if i == 61 { 238_237 }
    else if i == 62 { 185_539 }
    else if i == 63 { 144_498 }
    else if i == 64 { 112_535 }
    else if i == 65 { 87_642 }
    else if i == 66 { 68_256 }
    else if i == 67 { 53_158 }
    else if i == 68 { 41_399 }
    else if i == 69 { 32_242 }
    else if i == 70 { 25_110 }
    else if i == 71 { 19_556 }
    else if i == 72 { 15_230 }
    else if i == 73 { 11_861 }
    else if i == 74 { 9_237 }
    else if i == 75 { 7_194 }
    else if i == 76 { 5_603 }
    else if i == 77 { 4_363 }
    else if i == 78 { 3_398 }
    else if i == 79 { 2_647 }
    else if i == 80 { 2_061 }
    else if i == 81 { 1_605 }
    else if i == 82 { 1_250 }
    else if i == 83 { 974 }
    else if i == 84 { 758 }
    else if i == 85 { 591 }
    else if i == 86 { 460 }
    else if i == 87 { 358 }
    else if i == 88 { 279 }
    else if i == 89 { 217 }
    else if i == 90 { 169 }
    else if i == 91 { 132 }
    else if i == 92 { 103 }
    else if i == 93 { 80 }
    else if i == 94 { 62 }
    else if i == 95 { 48 }
    else if i == 96 { 38 }
    else if i == 97 { 29 }
    else if i == 98 { 23 }
    else if i == 99 { 18 }
    else if i == 100 { 14 }
    else if i == 101 { 11 }
    else if i == 102 { 8 }
    else if i == 103 { 7 }
    else if i == 104 { 5 }
    else if i == 105 { 4 }
    else if i == 106 { 3 }
    else if i == 107 { 2 }
    else if i == 108 { 2 }
    else if i == 109 { 1 }
    else if i == 110 { 1 }
    else if i == 111 { 1 }
    else if i == 112 { 1 }
    else if i == 113 { 1 }
    else { 0 }
}

/// Table lookup for the softplus samples.
pub fn softplus_entry_at(i: u32) -> (r: i128)
    ensures
        r as int == softplus_entry(i as int),
{

    if i == 0 { 693_147_180_560 }
    else if i == 1 { 575_939_419_879 }
    else if i == 2 { 474_076_984_180 }
    else if i == 3 { 386_871_006_115 }
    else if i == 4 { 313_261_687_518 }
    else if i == 5 { 251_929_081_345 }
    else if i == 6 { 201_413_277_983 }
    else if i == 7 { 160_224_150_438 }
    else if i == 8 { 126_928_011_043 }
    else if i == 9 { 100_206_558_917 }
    else if i == 10 { 78_889_734_293 }
    else if i == 11 { 61_967_589_003 }
    else if i == 12 { 48_587_351_574 }
    else if i == 13 { 38_041_371_688 }
    else if i == 14 { 29_750_418_273 }
    else if i == 15 { 23_245_464_372 }
    else if i == 16 { 18_149_927_918 }
    else if i == 17 { 14_163_456_932 }
    else if i == 18 { 11_047_744_849 }
    else if i == 19 { 8_614_483_762 }
    else if i == 20 { 6_715_348_489 }
    else if i == 21 { 5_233_798_152 }
    else if i == 22 { 4_078_443_271 }
    else if i == 23 { 3_177_726_471 }
    else if i == 24 { 2_475_685_138 }
    else if i == 25 { 1_928_593_204 }
    else if i == 26 { 1_502_310_160 }
    else if i == 27 { 1_170_194_676 }
    else if i == 28 { 911_466_454 }
    else if i == 29 { 709_922_334 }
    else if i == 30 { 552_931_475 }
    else if i == 31 { 430_649_798 }
    else if i == 32 { 335_406_373 }
    else if i == 33 { 261_224_435 }
    else if i == 34 { 203_447_672 }
    else if i == 35 { 158_448_771 }
    else if i == 36 { 123_402_190 }
    else if i == 37 { 96_107_034 }
    else if i == 38 { 74_849_029 }
    else if i == 39 { 58_292_965 }
    else if i == 40 { 45_398_899 }
    else if i == 41 { 35_356_876 }
    else if i == 42 { 27_536_070 }
    else if i == 43 { 21_445_178 }
    else if i == 44 { 16_701_561 }
    else if i == 45 { 13_007_213 }
    else if i == 46 { 10_130_042 }
    else if i == 47 { 7_889_294 }
    else if i == 48 { 6_144_193 }
    else if i == 49 { 4_785_106 }
    else if i == 50 { 3_726_646 }
    else if i == 51 { 2_902_316 }
    else if i == 52 { 2_260_327 }
    else if i == 53 { 1_760_345 }
    else if i == 54 { 1_370_958 }
    else if i == 55 { 1_067_703 }
    else if i == 56 { 831_528 }
    else if i == 57 { 647_595 }
    else if i == 58 { 504_348 }
    else if i == 59 { 392_786 }
    else if i == 60 { 305_902 }
    else if i == 61 { 238_237 }
    else if i == 62 { 185_539 }
    else if i == 63 { 144_498 }
    else if i == 64 { 112_535 }
    else if i == 65 { 87_642 }
    else if i == 66 { 68_256 }
    else if i == 67 { 53_158 }
    else if i == 68 { 41_399 }
    else if i == 69 { 32_242 }
    else if i == 70 { 25_110 }
    else if i == 71 { 19_556 }
    else if i == 72 { 15_230 }
    else if i == 73 { 11_861 }
    else if i == 74 { 9_237 }
    else if i == 75 { 7_194 }
    else if i == 76 { 5_603 }
    else if i == 77 { 4_363 }
    else if i == 78 { 3_398 }
    else if i == 79 { 2_647 }
    else if i == 80 { 2_061 }
    else if i == 81 { 1_605 }
    else if i == 82 { 1_250 }
    else if i == 83 { 974 }
    else if i == 84 { 758 }
    else if i == 85 { 591 }
    else if i == 86 { 460 }
    else if i == 87 { 358 }
    else if i == 88 { 279 }
    else if i == 89 { 217 }
    else if i == 90 { 169 }
    else if i == 91 { 132 }
    else if i == 92 { 103 }
    else if i == 93 { 80 }
    else if i == 94 { 62 }
    else if i == 95 { 48 }
    else if i == 96 { 38 }
    else if i == 97 { 29 }
    else if i == 98 { 23 }
    else if i == 99 { 18 }
    else if i == 100 { 14 }
    else if i == 101 { 11 }
    else if i == 102 { 8 }
    else if i == 103 { 7 }
    else if i == 104 { 5 }
    else if i == 105 { 4 }
    else if i == 106 { 3 }
    else if i == 107 { 2 }
    else if i == 108 { 2 }
    else if i == 109 { 1 }
    else if i == 110 { 1 }
    else if i == 111 { 1 }
    else if i == 112 { 1 }
    else if i == 113 { 1 }
    else { 0 }
}

/// The softplus samples fall from `ln 2` at index zero to zero at index
/// `SOFTPLUS_LAST`, never rise, and never drop by more than
/// `SOFTPLUS_STEP_MAX` from one index to the next.
#[verifier::rlimit(100)]
pub proof fn lemma_softplus_entry_props()
    ensures
        forall|i: int| #![trigger softplus_entry(i)] 0 <= softplus_entry(i) <= 693_147_180_560,
        forall|i: int| #![trigger softplus_entry(i)] softplus_entry(i + 1) <= softplus_entry(i),
        forall|i: int| #![trigger softplus_entry(i)]
            softplus_entry(i) - softplus_entry(i + 1) <= SOFTPLUS_STEP_MAX as int,
        forall|i: int| #![trigger softplus_entry(i)] 114 <= i ==> softplus_entry(i) == 0,
{
}

/// `1 / (1 + e^(-i/4))`, scaled by `SIGMOID_SCALE`, rounded to nearest,
/// capped one unit below the scale so a price never reaches one.
pub open spec fn sigmoid_entry(i: int) -> int {

    if i <= 0 { 500_000 }
    else if i == 1 { 562_177 }
    else if i == 2 { 622_459 }
    else if i == 3 { 679_179 }
    else if i == 4 { 731_059 }
    else if i == 5 { 777_300 }
    else if i == 6 { 817_574 }
    else if i == 7 { 851_953 }
    else if i == 8 { 880_797 }
    else if i == 9 { 904_651 }
    else if i == 10 { 924_142 }
    else if i == 11 { 939_913 }
    else if i == 12 { 952_574 }
    else if i == 13 { 962_673 }
    else if i == 14 { 970_688 }
    else if i == 15 { 977_023 }
    else if i == 16 { 982_014 }
    else if i == 17 { 985_936 }
    else if i == 18 { 989_013 }
    else if i == 19 { 991_423 }
    else if i == 20 { 993_307 }
    else if i == 21 { 994_780 }
    else if i == 22 { 995_930 }
    else if i == 23 { 996_827 }
    else if i == 24 { 997_527 }
    else if i == 25 { 998_073 }
    else if i == 26 { 998_499 }
    else if i == 27 { 998_830 }
    else if i == 28 { 999_089 }
    else if i == 29 { 999_290 }
    else if i == 30 { 999_447 }
    else if i == 31 { 999_569 }
    else if i == 32 { 999_665 }
    else if i == 33 { 999_739 }
    else if i == 34 { 999_797 }
    else if i == 35 { 999_842 }
    else if i == 36 { 999_877 }
    else if i == 37 { 999_904 }
    else if i == 38 { 999_925 }
    else if i == 39 { 999_942 }
    else if i == 40 { 999_955 }
    else if i == 41 { 999_965 }
    else if i == 42 { 999_972 }
    else if i == 43 { 999_979 }
    else if i == 44 { 999_983 }
    else if i == 45 { 999_987 }
    else if i == 46 { 999_990 }
    else if i == 47 { 999_992 }
    else if i == 48 { 999_994 }
    else if i == 49 { 999_995 }
    else if i == 50 { 999_996 }
    else if i == 51 { 999_997 }
    else if i == 52 { 999_998 }
    else if i == 53 { 999_998 }
    else { 999_999 }
}

/// Table lookup for the logistic samples.
pub fn sigmoid_entry_at(i: u32) -> (r: i128)
    ensures
        r as int == sigmoid_entry(i as int),
{

    if i == 0 { 500_000 }
    else if i == 1 { 562_177 }
    else if i == 2 { 622_459 }
    else if i == 3 { 679_179 }
    else if i == 4 { 731_059 }
    else if i == 5 { 777_300 }
    else if i == 6 { 817_574 }
    else if i == 7 { 851_953 }
    else if i == 8 { 880_797 }
    else if i == 9 { 904_651 }
    else if i == 10 { 924_142 }
    else if i == 11 { 939_913 }
    else if i == 12 { 952_574 }
    else if i == 13 { 962_673 }
    else if i == 14 { 970_688 }
    else if i == 15 { 977_023 }
    else if i == 16 { 982_014 }
    else if i == 17 { 985_936 }
    else if i == 18 { 989_013 }
    else if i == 19 { 991_423 }
    else if i == 20 { 993_307 }
    else if i == 21 { 994_780 }
    else if i == 22 { 995_930 }
    else if i == 23 { 996_827 }
    else if i == 24 { 997_527 }
    else if i == 25 { 998_073 }
    else if i == 26 { 998_499 }
    else if i == 27 { 998_830 }
    else if i == 28 { 999_089 }
    else if i == 29 { 999_290 }
    else if i == 30 { 999_447 }
    else if i == 31 { 999_569 }
    else if i == 32 { 999_665 }
    else if i == 33 { 999_739 }
    else if i == 34 { 999_797 }
    else if i == 35 { 999_842 }
    else if i == 36 { 999_877 }
    else if i == 37 { 999_904 }
    else if i == 38 { 999_925 }
    else if i == 39 { 999_942 }
    else if i == 40 { 999_955 }
    else if i == 41 { 999_965 }
    else if i == 42 { 999_972 }
    else if i == 43 { 999_979 }
    else if i == 44 { 999_983 }
    else if i == 45 { 999_987 }
    else if i == 46 { 999_990 }
    else if i == 47 { 999_992 }
    else if i == 48 { 999_994 }
    else if i == 49 { 999_995 }
    else if i == 50 { 999_996 }
    else if i == 51 { 999_997 }
    else if i == 52 { 999_998 }
    else if i == 53 { 999_998 }
    else { 999_999 }
}

/// The logistic samples start at exactly one half, never fall, and stay
/// strictly below the price scale.
#[verifier::rlimit(100)]
pub proof fn lemma_sigmoid_entry_props()
    ensures
        forall|i: int| #![trigger sigmoid_entry(i)] 500_000 <= sigmoid_entry(i) <= 999_999,
        forall|i: int| #![trigger sigmoid_entry(i)] sigmoid_entry(i) <= sigmoid_entry(i + 1),
        forall|i: int| #![trigger sigmoid_entry(i)] 54 <= i ==> sigmoid_entry(i) == 999_999,
{
}

} // verus!
