//! Fixed-point trigonometry over whole-degree angles.
//!
//! Wind projection needs `speed * sin(angle)` and `speed * cos(angle)` with
//! the result rounded up to a whole speed unit. Both are computed here in
//! exact integer arithmetic: the sine of each whole degree is tabulated in
//! millionths, and products are divided by one million with a ceiling
//! division. The table satisfies a Pythagorean bound, proved entry by
//! entry, that feeds the projection laws.

use vstd::prelude::*;

verus! {

/// Sine of `d` degrees in millionths, rounded to nearest, for `0 <= d <= 90`.
#[verifier::opaque]
pub open spec fn sin_micro(d: int) -> int {
    if d == 0 {
        0
    } else
    if d == 1 {
        17452
    } else
    if d == 2 {
        34899
    } else
    if d == 3 {
        52336
    } else
    if d == 4 {
        69756
    } else
    if d == 5 {
        87156
    } else
    if d == 6 {
        104528
    } else
    if d == 7 {
        121869
    } else
    if d == 8 {
        139173
    } else
    if d == 9 {
        156434
    } else
    if d == 10 {
        173648
    } else
    if d == 11 {
        190809
    } else
    if d == 12 {
        207912
    } else
    if d == 13 {
        224951
    } else
    if d == 14 {
        241922
    } else
    if d == 15 {
        258819
    } else
    if d == 16 {
        275637
    } else
    if d == 17 {
        292372
    } else
    if d == 18 {
        309017
    } else
    if d == 19 {
        325568
    } else
    if d == 20 {
        342020
    } else
    if d == 21 {
        358368
    } else
    if d == 22 {
        374607
    } else
    if d == 23 {
        390731
    } else
    if d == 24 {
        406737
    } else
    if d == 25 {
        422618
    } else
    if d == 26 {
        438371
    } else
    if d == 27 {
        453990
    } else
    if d == 28 {
        469472
    } else
    if d == 29 {
        484810
    } else
    if d == 30 {
        500000
    } else
    if d == 31 {
        515038
    } else
    if d == 32 {
        529919
    } else
    if d == 33 {
        544639
    } else
    if d == 34 {
        559193
    } else
    if d == 35 {
        573576
    } else
    if d == 36 {
        587785
    } else
    if d == 37 {
        601815
    } else
    if d == 38 {
        615661
    } else
    if d == 39 {
        629320
    } else
    if d == 40 {
        642788
    } else
    if d == 41 {
        656059
    } else
    if d == 42 {
        669131
    } else
    if d == 43 {
        681998
    } else
    if d == 44 {
        694658
    } else
    if d == 45 {
        707107
    } else
    if d == 46 {
        719340
    } else
    if d == 47 {
        731354
    } else
    if d == 48 {
        743145
    } else
    if d == 49 {
        754710
    } else
    if d == 50 {
        766044
    } else
    if d == 51 {
        777146
    } else
    if d == 52 {
        788011
    } else
    if d == 53 {
        798636
    } else
    if d == 54 {
        809017
    } else
    if d == 55 {
        819152
    } else
    if d == 56 {
        829038
    } else
    if d == 57 {
        838671
    } else
    if d == 58 {
        848048
    } else
    if d == 59 {
        857167
    } else
    if d == 60 {
        866025
    } else
    if d == 61 {
        874620
    } else
    if d == 62 {
        882948
    } else
    if d == 63 {
        891007
    } else
    if d == 64 {
        898794
    } else
    if d == 65 {
        906308
    } else
    if d == 66 {
        913545
    } else
    if d == 67 {
        920505
    } else
    if d == 68 {
        927184
    } else
    if d == 69 {
        933580
    } else
    if d == 70 {
        939693
    } else
    if d == 71 {
        945519
    } else
    if d == 72 {
        951057
    } else
    if d == 73 {
        956305
    } else
    if d == 74 {
        961262
    } else
    if d == 75 {
        965926
    } else
    if d == 76 {
        970296
    } else
    if d == 77 {
        974370
    } else
    if d == 78 {
        978148
    } else
    if d == 79 {
        981627
    } else
    if d == 80 {
        984808
    } else
    if d == 81 {
        987688
    } else
    if d == 82 {
        990268
    } else
    if d == 83 {
        992546
    } else
    if d == 84 {
        994522
    } else
    if d == 85 {
        996195
    } else
    if d == 86 {
        997564
    } else
    if d == 87 {
        998630
    } else
    if d == 88 {
        999391
    } else
    if d == 89 {
        999848
    } else {
        1000000
    }
}

/// Cosine of `d` degrees in millionths for `0 <= d <= 180`; negative past 90.
pub open spec fn cos_micro(d: int) -> int {
    if d <= 90 {
        sin_micro(90 - d)
    } else {
        -sin_micro(d - 90)
    }
}

/// Signed sine of a clockwise rotation `r` in `[0, 360]`: positive for
/// rotations in `(0, 180)`, negative for rotations in `(180, 360)`.
pub open spec fn sin_micro_signed(r: int) -> int {
    if r <= 90 {
        sin_micro(r)
    } else if r <= 180 {
        sin_micro(180 - r)
    } else if r <= 270 {
        -sin_micro(r - 180)
    } else {
        -sin_micro(360 - r)
    }
}

/// Ceiling of `x / 1_000_000` as exact integer division.
pub open spec fn ceil_micro(x: int) -> int {
    if x >= 0 {
        (x + 999999) / 1000000
    } else {
        -((-x) / 1000000)
    }
}

/// The scaled ceiling sits within one divisor of the exact product:
/// `p <= 10^6 * ceil_micro(p) <= p + 999999`.
pub proof fn lemma_ceil_micro_brackets(p: int)
    ensures
        p <= 1000000 * ceil_micro(p),
        1000000 * ceil_micro(p) <= p + 999999,
{
    if p >= 0 {
        assert(p <= 1000000 * ((p + 999999) / 1000000) <= p + 999999) by (nonlinear_arith)
            requires
                p >= 0,
        ;
    } else {
        assert(p <= 1000000 * (-((-p) / 1000000)) <= p + 999999) by (nonlinear_arith)
            requires
                p < 0,
        ;
    }
}

/// Scaling a whole speed by a factor of exactly one gives the speed back.
pub proof fn lemma_ceil_micro_exact(s: int)
    requires
        s >= 0,
    ensures
        ceil_micro(s * 1000000) == s,
{
    assert((s * 1000000 + 999999) / 1000000 == s) by (nonlinear_arith)
        requires
            s >= 0,
    ;
}

/// Table lookup for the sine of `d` whole degrees, in millionths.
pub fn sin_micro_table(d: u16) -> (r: u32)
    requires
        d <= 90,
    ensures
        r == sin_micro(d as int),
        r <= 1000000,
{
    proof {
        reveal(sin_micro);
    }
    if d == 0 {
        0
    } else
    if d == 1 {
        17452
    } else
    if d == 2 {
        34899
    } else
    if d == 3 {
        52336
    } else
    if d == 4 {
        69756
    } else
    if d == 5 {
        87156
    } else
    if d == 6 {
        104528
    } else
    if d == 7 {
        121869
    } else
    if d == 8 {
        139173
    } else
    if d == 9 {
        156434
    } else
    if d == 10 {
        173648
    } else
    if d == 11 {
        190809
    } else
    if d == 12 {
        207912
    } else
    if d == 13 {
        224951
    } else
    if d == 14 {
        241922
    } else
    if d == 15 {
        258819
    } else
    if d == 16 {
        275637
    } else
    if d == 17 {
        292372
    } else
    if d == 18 {
        309017
    } else
    if d == 19 {
        325568
    } else
    if d == 20 {
        342020
    } else
    if d == 21 {
        358368
    } else
    if d == 22 {
        374607
    } else
    if d == 23 {
        390731
    } else
    if d == 24 {
        406737
    } else
    if d == 25 {
        422618
    } else
    if d == 26 {
        438371
    } else
    if d == 27 {
        453990
    } else
    if d == 28 {
        469472
    } else
    if d == 29 {
        484810
    } else
    if d == 30 {
        500000
    } else
    if d == 31 {
        515038
    } else
    if d == 32 {
        529919
    } else
    if d == 33 {
        544639
    } else
    if d == 34 {
        559193
    } else
    if d == 35 {
        573576
    } else
    if d == 36 {
        587785
    } else
    if d == 37 {
        601815
    } else
    if d == 38 {
        615661
    } else
    if d == 39 {
        629320
    } else
    if d == 40 {
        642788
    } else
    if d == 41 {
        656059
    } else
    if d == 42 {
        669131
    } else
    if d == 43 {
        681998
    } else
    if d == 44 {
        694658
    } else
    if d == 45 {
        707107
    } else
    if d == 46 {
        719340
    } else
    if d == 47 {
        731354
    } else
    if d == 48 {
        743145
    } else
    if d == 49 {
        754710
    } else
    if d == 50 {
        766044
    } else
    if d == 51 {
        777146
    } else
    if d == 52 {
        788011
    } else
    if d == 53 {
        798636
    } else
    if d == 54 {
        809017
    } else
    if d == 55 {
        819152
    } else
    if d == 56 {
        829038
    } else
    if d == 57 {
        838671
    } else
    if d == 58 {
        848048
    } else
    if d == 59 {
        857167
    } else
    if d == 60 {
        866025
    } else
    if d == 61 {
        874620
    } else
    if d == 62 {
        882948
    } else
    if d == 63 {
        891007
    } else
    if d == 64 {
        898794
    } else
    if d == 65 {
        906308
    } else
    if d == 66 {
        913545
    } else
    if d == 67 {
        920505
    } else
    if d == 68 {
        927184
    } else
    if d == 69 {
        933580
    } else
    if d == 70 {
        939693
    } else
    if d == 71 {
        945519
    } else
    if d == 72 {
        951057
    } else
    if d == 73 {
        956305
    } else
    if d == 74 {
        961262
    } else
    if d == 75 {
        965926
    } else
    if d == 76 {
        970296
    } else
    if d == 77 {
        974370
    } else
    if d == 78 {
        978148
    } else
    if d == 79 {
        981627
    } else
    if d == 80 {
        984808
    } else
    if d == 81 {
        987688
    } else
    if d == 82 {
        990268
    } else
    if d == 83 {
        992546
    } else
    if d == 84 {
        994522
    } else
    if d == 85 {
        996195
    } else
    if d == 86 {
        997564
    } else
    if d == 87 {
        998630
    } else
    if d == 88 {
        999391
    } else
    if d == 89 {
        999848
    } else {
        1000000
    }
}

/// Whether entry `d` of the sine table is within range and, paired with its
/// complement, within the Pythagorean error band.
pub open spec fn sin_entry_ok(d: int) -> bool {
    &&& 0 <= sin_micro(d) <= 1000000
    &&& d == 0 ==> sin_micro(d) == 0
    &&& d == 90 ==> sin_micro(d) == 1000000
    &&& d >= 1 ==> sin_micro(d) >= 17452
    &&& 1000000000000 - 818300 <= sin_micro(d) * sin_micro(d) + sin_micro(90 - d) * sin_micro(
        90 - d,
    ) <= 1000000000000 + 1129488
}

/// Every whole-degree sine entry is in `[0, 1_000_000]`, and each entry
/// squared plus its complement squared stays within the stated band around
/// one (scaled by `10^12`).
#[verifier::rlimit(100)]
pub proof fn lemma_sin_table(d: int)
    requires
        0 <= d <= 90,
    ensures
        sin_entry_ok(d),
{
    reveal(sin_micro);
    if d == 0 {
        assert(sin_micro(0) == 0);
        assert(sin_micro(90) == 1000000);
        assert(sin_entry_ok(0));
    } else if d == 1 {
        assert(sin_micro(1) == 17452);
        assert(sin_micro(89) == 999848);
        assert(sin_entry_ok(1));
    } else if d == 2 {
        assert(sin_micro(2) == 34899);
        assert(sin_micro(88) == 999391);
        assert(sin_entry_ok(2));
    } else if d == 3 {
        assert(sin_micro(3) == 52336);
        assert(sin_micro(87) == 998630);
        assert(sin_entry_ok(3));
    } else if d == 4 {
        assert(sin_micro(4) == 69756);
        assert(sin_micro(86) == 997564);
        assert(sin_entry_ok(4));
    } else if d == 5 {
        assert(sin_micro(5) == 87156);
        assert(sin_micro(85) == 996195);
        assert(sin_entry_ok(5));
    } else if d == 6 {
        assert(sin_micro(6) == 104528);
        assert(sin_micro(84) == 994522);
        assert(sin_entry_ok(6));
    } else if d == 7 {
        assert(sin_micro(7) == 121869);
        assert(sin_micro(83) == 992546);
        assert(sin_entry_ok(7));
    } else if d == 8 {
        assert(sin_micro(8) == 139173);
        assert(sin_micro(82) == 990268);
        assert(sin_entry_ok(8));
    } else if d == 9 {
        assert(sin_micro(9) == 156434);
        assert(sin_micro(81) == 987688);
        assert(sin_entry_ok(9));
    } else if d == 10 {
        assert(sin_micro(10) == 173648);
        assert(sin_micro(80) == 984808);
        assert(sin_entry_ok(10));
    } else if d == 11 {
        assert(sin_micro(11) == 190809);
        assert(sin_micro(79) == 981627);
        assert(sin_entry_ok(11));
    } else if d == 12 {
        assert(sin_micro(12) == 207912);
        assert(sin_micro(78) == 978148);
        assert(sin_entry_ok(12));
    } else if d == 13 {
        assert(sin_micro(13) == 224951);
        assert(sin_micro(77) == 974370);
        assert(sin_entry_ok(13));
    } else if d == 14 {
        assert(sin_micro(14) == 241922);
        assert(sin_micro(76) == 970296);
        assert(sin_entry_ok(14));
    } else if d == 15 {
        assert(sin_micro(15) == 258819);
        assert(sin_micro(75) == 965926);
        assert(sin_entry_ok(15));
    } else if d == 16 {
        assert(sin_micro(16) == 275637);
        assert(sin_micro(74) == 961262);
        assert(sin_entry_ok(16));
    } else if d == 17 {
        assert(sin_micro(17) == 292372);
        assert(sin_micro(73) == 956305);
        assert(sin_entry_ok(17));
    } else if d == 18 {
        assert(sin_micro(18) == 309017);
        assert(sin_micro(72) == 951057);
        assert(sin_entry_ok(18));
    } else if d == 19 {
        assert(sin_micro(19) == 325568);
        assert(sin_micro(71) == 945519);
        assert(sin_entry_ok(19));
    } else if d == 20 {
        assert(sin_micro(20) == 342020);
        assert(sin_micro(70) == 939693);
        assert(sin_entry_ok(20));
    } else if d == 21 {
        assert(sin_micro(21) == 358368);
        assert(sin_micro(69) == 933580);
        assert(sin_entry_ok(21));
    } else if d == 22 {
        assert(sin_micro(22) == 374607);
        assert(sin_micro(68) == 927184);
        assert(sin_entry_ok(22));
    } else if d == 23 {
        assert(sin_micro(23) == 390731);
        assert(sin_micro(67) == 920505);
        assert(sin_entry_ok(23));
    } else if d == 24 {
        assert(sin_micro(24) == 406737);
        assert(sin_micro(66) == 913545);
        assert(sin_entry_ok(24));
    } else if d == 25 {
        assert(sin_micro(25) == 422618);
        assert(sin_micro(65) == 906308);
        assert(sin_entry_ok(25));
    } else if d == 26 {
        assert(sin_micro(26) == 438371);
        assert(sin_micro(64) == 898794);
        assert(sin_entry_ok(26));
    } else if d == 27 {
        assert(sin_micro(27) == 453990);
        assert(sin_micro(63) == 891007);
        assert(sin_entry_ok(27));
    } else if d == 28 {
        assert(sin_micro(28) == 469472);
        assert(sin_micro(62) == 882948);
        assert(sin_entry_ok(28));
    } else if d == 29 {
        assert(sin_micro(29) == 484810);
        assert(sin_micro(61) == 874620);
        assert(sin_entry_ok(29));
    } else if d == 30 {
        assert(sin_micro(30) == 500000);
        assert(sin_micro(60) == 866025);
        assert(sin_entry_ok(30));
    } else if d == 31 {
        assert(sin_micro(31) == 515038);
        assert(sin_micro(59) == 857167);
        assert(sin_entry_ok(31));
    } else if d == 32 {
        assert(sin_micro(32) == 529919);
        assert(sin_micro(58) == 848048);
        assert(sin_entry_ok(32));
    } else if d == 33 {
        assert(sin_micro(33) == 544639);
        assert(sin_micro(57) == 838671);
        assert(sin_entry_ok(33));
    } else if d == 34 {
        assert(sin_micro(34) == 559193);
        assert(sin_micro(56) == 829038);
        assert(sin_entry_ok(34));
    } else if d == 35 {
        assert(sin_micro(35) == 573576);
        assert(sin_micro(55) == 819152);
        assert(sin_entry_ok(35));
    } else if d == 36 {
        assert(sin_micro(36) == 587785);
        assert(sin_micro(54) == 809017);
        assert(sin_entry_ok(36));
    } else if d == 37 {
        assert(sin_micro(37) == 601815);
        assert(sin_micro(53) == 798636);
        assert(sin_entry_ok(37));
    } else if d == 38 {
        assert(sin_micro(38) == 615661);
        assert(sin_micro(52) == 788011);
        assert(sin_entry_ok(38));
    } else if d == 39 {
        assert(sin_micro(39) == 629320);
        assert(sin_micro(51) == 777146);
        assert(sin_entry_ok(39));
    } else if d == 40 {
        assert(sin_micro(40) == 642788);
        assert(sin_micro(50) == 766044);
        assert(sin_entry_ok(40));
    } else if d == 41 {
        assert(sin_micro(41) == 656059);
        assert(sin_micro(49) == 754710);
        assert(sin_entry_ok(41));
    } else if d == 42 {
        assert(sin_micro(42) == 669131);
        assert(sin_micro(48) == 743145);
        assert(sin_entry_ok(42));
    } else if d == 43 {
        assert(sin_micro(43) == 681998);
        assert(sin_micro(47) == 731354);
        assert(sin_entry_ok(43));
    } else if d == 44 {
        assert(sin_micro(44) == 694658);
        assert(sin_micro(46) == 719340);
        assert(sin_entry_ok(44));
    } else if d == 45 {
        assert(sin_micro(45) == 707107);
        assert(sin_micro(45) == 707107);
        assert(sin_entry_ok(45));
    } else if d == 46 {
        assert(sin_micro(46) == 719340);
        assert(sin_micro(44) == 694658);
        assert(sin_entry_ok(46));
    } else if d == 47 {
        assert(sin_micro(47) == 731354);
        assert(sin_micro(43) == 681998);
        assert(sin_entry_ok(47));
    } else if d == 48 {
        assert(sin_micro(48) == 743145);
        assert(sin_micro(42) == 669131);
        assert(sin_entry_ok(48));
    } else if d == 49 {
        assert(sin_micro(49) == 754710);
        assert(sin_micro(41) == 656059);
        assert(sin_entry_ok(49));
    } else if d == 50 {
        assert(sin_micro(50) == 766044);
        assert(sin_micro(40) == 642788);
        assert(sin_entry_ok(50));
    } else if d == 51 {
        assert(sin_micro(51) == 777146);
        assert(sin_micro(39) == 629320);
        assert(sin_entry_ok(51));
    } else if d == 52 {
        assert(sin_micro(52) == 788011);
        assert(sin_micro(38) == 615661);
        assert(sin_entry_ok(52));
    } else if d == 53 {
        assert(sin_micro(53) == 798636);
        assert(sin_micro(37) == 601815);
        assert(sin_entry_ok(53));
    } else if d == 54 {
        assert(sin_micro(54) == 809017);
        assert(sin_micro(36) == 587785);
        assert(sin_entry_ok(54));
    } else if d == 55 {
        assert(sin_micro(55) == 819152);
        assert(sin_micro(35) == 573576);
        assert(sin_entry_ok(55));
    } else if d == 56 {
        assert(sin_micro(56) == 829038);
        assert(sin_micro(34) == 559193);
        assert(sin_entry_ok(56));
    } else if d == 57 {
        assert(sin_micro(57) == 838671);
        assert(sin_micro(33) == 544639);
        assert(sin_entry_ok(57));
    } else if d == 58 {
        assert(sin_micro(58) == 848048);
        assert(sin_micro(32) == 529919);
        assert(sin_entry_ok(58));
    } else if d == 59 {
        assert(sin_micro(59) == 857167);
        assert(sin_micro(31) == 515038);
        assert(sin_entry_ok(59));
    } else if d == 60 {
        assert(sin_micro(60) == 866025);
        assert(sin_micro(30) == 500000);
        assert(sin_entry_ok(60));
    } else if d == 61 {
        assert(sin_micro(61) == 874620);
        assert(sin_micro(29) == 484810);
        assert(sin_entry_ok(61));
    } else if d == 62 {
        assert(sin_micro(62) == 882948);
        assert(sin_micro(28) == 469472);
        assert(sin_entry_ok(62));
    } else if d == 63 {
        assert(sin_micro(63) == 891007);
        assert(sin_micro(27) == 453990);
        assert(sin_entry_ok(63));
    } else if d == 64 {
        assert(sin_micro(64) == 898794);
        assert(sin_micro(26) == 438371);
        assert(sin_entry_ok(64));
    } else if d == 65 {
        assert(sin_micro(65) == 906308);
        assert(sin_micro(25) == 422618);
        assert(sin_entry_ok(65));
    } else if d == 66 {
        assert(sin_micro(66) == 913545);
        assert(sin_micro(24) == 406737);
        assert(sin_entry_ok(66));
    } else if d == 67 {
        assert(sin_micro(67) == 920505);
        assert(sin_micro(23) == 390731);
        assert(sin_entry_ok(67));
    } else if d == 68 {
        assert(sin_micro(68) == 927184);
        assert(sin_micro(22) == 374607);
        assert(sin_entry_ok(68));
    } else if d == 69 {
        assert(sin_micro(69) == 933580);
        assert(sin_micro(21) == 358368);
        assert(sin_entry_ok(69));
    } else if d == 70 {
        assert(sin_micro(70) == 939693);
        assert(sin_micro(20) == 342020);
        assert(sin_entry_ok(70));
    } else if d == 71 {
        assert(sin_micro(71) == 945519);
        assert(sin_micro(19) == 325568);
        assert(sin_entry_ok(71));
    } else if d == 72 {
        assert(sin_micro(72) == 951057);
        assert(sin_micro(18) == 309017);
        assert(sin_entry_ok(72));
    } else if d == 73 {
        assert(sin_micro(73) == 956305);
        assert(sin_micro(17) == 292372);
        assert(sin_entry_ok(73));
    } else if d == 74 {
        assert(sin_micro(74) == 961262);
        assert(sin_micro(16) == 275637);
        assert(sin_entry_ok(74));
    } else if d == 75 {
        assert(sin_micro(75) == 965926);
        assert(sin_micro(15) == 258819);
        assert(sin_entry_ok(75));
    } else if d == 76 {
        assert(sin_micro(76) == 970296);
        assert(sin_micro(14) == 241922);
        assert(sin_entry_ok(76));
    } else if d == 77 {
        assert(sin_micro(77) == 974370);
        assert(sin_micro(13) == 224951);
        assert(sin_entry_ok(77));
    } else if d == 78 {
        assert(sin_micro(78) == 978148);
        assert(sin_micro(12) == 207912);
        assert(sin_entry_ok(78));
    } else if d == 79 {
        assert(sin_micro(79) == 981627);
        assert(sin_micro(11) == 190809);
        assert(sin_entry_ok(79));
    } else if d == 80 {
        assert(sin_micro(80) == 984808);
        assert(sin_micro(10) == 173648);
        assert(sin_entry_ok(80));
    } else if d == 81 {
        assert(sin_micro(81) == 987688);
        assert(sin_micro(9) == 156434);
        assert(sin_entry_ok(81));
    } else if d == 82 {
        assert(sin_micro(82) == 990268);
        assert(sin_micro(8) == 139173);
        assert(sin_entry_ok(82));
    } else if d == 83 {
        assert(sin_micro(83) == 992546);
        assert(sin_micro(7) == 121869);
        assert(sin_entry_ok(83));
    } else if d == 84 {
        assert(sin_micro(84) == 994522);
        assert(sin_micro(6) == 104528);
        assert(sin_entry_ok(84));
    } else if d == 85 {
        assert(sin_micro(85) == 996195);
        assert(sin_micro(5) == 87156);
        assert(sin_entry_ok(85));
    } else if d == 86 {
        assert(sin_micro(86) == 997564);
        assert(sin_micro(4) == 69756);
        assert(sin_entry_ok(86));
    } else if d == 87 {
        assert(sin_micro(87) == 998630);
        assert(sin_micro(3) == 52336);
        assert(sin_entry_ok(87));
    } else if d == 88 {
        assert(sin_micro(88) == 999391);
        assert(sin_micro(2) == 34899);
        assert(sin_entry_ok(88));
    } else if d == 89 {
        assert(sin_micro(89) == 999848);
        assert(sin_micro(1) == 17452);
        assert(sin_entry_ok(89));
    } else if d == 90 {
        assert(sin_micro(90) == 1000000);
        assert(sin_micro(0) == 0);
        assert(sin_entry_ok(90));
    }
}

} // verus!
