use vstd::prelude::*;

verus! {

pub open spec fn sine_part0(i: u16) -> i32 {
    match i {
        0 => 0,
        1 => 6,
        2 => 13,
        3 => 19,
        4 => 25,
        5 => 31,
        6 => 38,
        7 => 44,
        8 => 50,
        9 => 57,
        10 => 63,
        11 => 69,
        12 => 75,
        13 => 82,
        14 => 88,
        15 => 94,
        16 => 101,
        17 => 107,
        18 => 113,
        19 => 119,
        20 => 126,
        21 => 132,
        22 => 138,
        23 => 144,
        24 => 151,
        25 => 157,
        26 => 163,
        27 => 170,
        28 => 176,
        29 => 182,
        30 => 188,
        31 => 195,
        32 => 201,
        33 => 207,
        34 => 214,
        35 => 220,
        36 => 226,
        37 => 232,
        38 => 239,
        39 => 245,
        40 => 251,
        41 => 257,
        42 => 264,
        43 => 270,
        44 => 276,
        45 => 283,
        46 => 289,
        47 => 295,
        48 => 301,
        49 => 308,
        50 => 314,
        51 => 320,
        52 => 326,
        53 => 333,
        54 => 339,
        55 => 345,
        56 => 351,
        57 => 358,
        58 => 364,
        59 => 370,
        60 => 376,
        61 => 383,
        62 => 389,
        _ => 395,
    }
}

pub open spec fn sine_part1(i: u16) -> i32 {
    match i {
        64 => 401,
        65 => 408,
        66 => 414,
        67 => 420,
        68 => 426,
        69 => 433,
        70 => 439,
        71 => 445,
        72 => 451,
        73 => 458,
        74 => 464,
        75 => 470,
        76 => 476,
        77 => 483,
        78 => 489,
        79 => 495,
        80 => 501,
        81 => 508,
        82 => 514,
        83 => 520,
        84 => 526,
        85 => 533,
        86 => 539,
        87 => 545,
        88 => 551,
        89 => 557,
        90 => 564,
        91 => 570,
        92 => 576,
        93 => 582,
        94 => 589,
        95 => 595,
        96 => 601,
        97 => 607,
        98 => 613,
        99 => 620,
        100 => 626,
        101 => 632,
        102 => 638,
        103 => 644,
        104 => 651,
        105 => 657,
        106 => 663,
        107 => 669,
        108 => 675,
        109 => 682,
        110 => 688,
        111 => 694,
        112 => 700,
        113 => 706,
        114 => 713,
        115 => 719,
        116 => 725,
        117 => 731,
        118 => 737,
        119 => 744,
        120 => 750,
        121 => 756,
        122 => 762,
        123 => 768,
        124 => 774,
        125 => 781,
        126 => 787,
        _ => 793,
    }
}

pub open spec fn sine_part2(i: u16) -> i32 {
    match i {
        128 => 799,
        129 => 805,
        130 => 811,
        131 => 818,
        132 => 824,
        133 => 830,
        134 => 836,
        135 => 842,
        136 => 848,
        137 => 854,
        138 => 861,
        139 => 867,
        140 => 873,
        141 => 879,
        142 => 885,
        143 => 891,
        144 => 897,
        145 => 904,
        146 => 910,
        147 => 916,
        148 => 922,
        149 => 928,
        150 => 934,
        151 => 940,
        152 => 946,
        153 => 953,
        154 => 959,
        155 => 965,
        156 => 971,
        157 => 977,
        158 => 983,
        159 => 989,
        160 => 995,
        161 => 1001,
        162 => 1007,
        163 => 1014,
        164 => 1020,
        165 => 1026,
        166 => 1032,
        167 => 1038,
        168 => 1044,
        169 => 1050,
        170 => 1056,
        171 => 1062,
        172 => 1068,
        173 => 1074,
        174 => 1080,
        175 => 1086,
        176 => 1092,
        177 => 1099,
        178 => 1105,
        179 => 1111,
        180 => 1117,
        181 => 1123,
        182 => 1129,
        183 => 1135,
        184 => 1141,
        185 => 1147,
        186 => 1153,
        187 => 1159,
        188 => 1165,
        189 => 1171,
        190 => 1177,
        _ => 1183,
    }
}

pub open spec fn sine_part3(i: u16) -> i32 {
    match i {
        192 => 1189,
        193 => 1195,
        194 => 1201,
        195 => 1207,
        196 => 1213,
        197 => 1219,
        198 => 1225,
        199 => 1231,
        200 => 1237,
        201 => 1243,
        202 => 1249,
        203 => 1255,
        204 => 1261,
        205 => 1267,
        206 => 1273,
        207 => 1279,
        208 => 1285,
        209 => 1291,
        210 => 1297,
        211 => 1303,
        212 => 1309,
        213 => 1315,
        214 => 1321,
        215 => 1327,
        216 => 1332,
        217 => 1338,
        218 => 1344,
        219 => 1350,
        220 => 1356,
        221 => 1362,
        222 => 1368,
        223 => 1374,
        224 => 1380,
        225 => 1386,
        226 => 1392,
        227 => 1398,
        228 => 1404,
        229 => 1409,
        230 => 1415,
        231 => 1421,
        232 => 1427,
        233 => 1433,
        234 => 1439,
        235 => 1445,
        236 => 1451,
        237 => 1457,
        238 => 1462,
        239 => 1468,
        240 => 1474,
        241 => 1480,
        242 => 1486,
        243 => 1492,
        244 => 1498,
        245 => 1503,
        246 => 1509,
        247 => 1515,
        248 => 1521,
        249 => 1527,
        250 => 1533,
        251 => 1538,
        252 => 1544,
        253 => 1550,
        254 => 1556,
        _ => 1562,
    }
}

pub open spec fn sine_part4(i: u16) -> i32 {
    match i {
        256 => 1567,
        257 => 1573,
        258 => 1579,
        259 => 1585,
        260 => 1591,
        261 => 1596,
        262 => 1602,
        263 => 1608,
        264 => 1614,
        265 => 1620,
        266 => 1625,
        267 => 1631,
        268 => 1637,
        269 => 1643,
        270 => 1648,
        271 => 1654,
        272 => 1660,
        273 => 1666,
        274 => 1671,
        275 => 1677,
        276 => 1683,
        277 => 1689,
        278 => 1694,
        279 => 1700,
        280 => 1706,
        281 => 1711,
        282 => 1717,
        283 => 1723,
        284 => 1729,
        285 => 1734,
        286 => 1740,
        287 => 1746,
        288 => 1751,
        289 => 1757,
        290 => 1763,
        291 => 1768,
        292 => 1774,
        293 => 1780,
        294 => 1785,
        295 => 1791,
        296 => 1797,
        297 => 1802,
        298 => 1808,
        299 => 1813,
        300 => 1819,
        301 => 1825,
        302 => 1830,
        303 => 1836,
        304 => 1842,
        305 => 1847,
        306 => 1853,
        307 => 1858,
        308 => 1864,
        309 => 1870,
        310 => 1875,
        311 => 1881,
        312 => 1886,
        313 => 1892,
        314 => 1898,
        315 => 1903,
        316 => 1909,
        317 => 1914,
        318 => 1920,
        _ => 1925,
    }
}

pub open spec fn sine_part5(i: u16) -> i32 {
    match i {
        320 => 1931,
        321 => 1936,
        322 => 1942,
        323 => 1947,
        324 => 1953,
        325 => 1958,
        326 => 1964,
        327 => 1970,
        328 => 1975,
        329 => 1981,
        330 => 1986,
        331 => 1992,
        332 => 1997,
        333 => 2002,
        334 => 2008,
        335 => 2013,
        336 => 2019,
        337 => 2024,
        338 => 2030,
        339 => 2035,
        340 => 2041,
        341 => 2046,
        342 => 2052,
        343 => 2057,
        344 => 2062,
        345 => 2068,
        346 => 2073,
        347 => 2079,
        348 => 2084,
        349 => 2090,
        350 => 2095,
        351 => 2100,
        352 => 2106,
        353 => 2111,
        354 => 2117,
        355 => 2122,
        356 => 2127,
        357 => 2133,
        358 => 2138,
        359 => 2143,
        360 => 2149,
        361 => 2154,
        362 => 2159,
        363 => 2165,
        364 => 2170,
        365 => 2175,
        366 => 2181,
        367 => 2186,
        368 => 2191,
        369 => 2197,
        370 => 2202,
        371 => 2207,
        372 => 2213,
        373 => 2218,
        374 => 2223,
        375 => 2228,
        376 => 2234,
        377 => 2239,
        378 => 2244,
        379 => 2249,
        380 => 2255,
        381 => 2260,
        382 => 2265,
        _ => 2270,
    }
}

pub open spec fn sine_part6(i: u16) -> i32 {
    match i {
        384 => 2276,
        385 => 2281,
        386 => 2286,
        387 => 2291,
        388 => 2296,
        389 => 2302,
        390 => 2307,
        391 => 2312,
        392 => 2317,
        393 => 2322,
        394 => 2328,
        395 => 2333,
        396 => 2338,
        397 => 2343,
        398 => 2348,
        399 => 2353,
        400 => 2359,
        401 => 2364,
        402 => 2369,
        403 => 2374,
        404 => 2379,
        405 => 2384,
        406 => 2389,
        407 => 2394,
        408 => 2399,
        409 => 2405,
        410 => 2410,
        411 => 2415,
        412 => 2420,
        413 => 2425,
        414 => 2430,
        415 => 2435,
        416 => 2440,
        417 => 2445,
        418 => 2450,
        419 => 2455,
        420 => 2460,
        421 => 2465,
        422 => 2470,
        423 => 2475,
        424 => 2480,
        425 => 2485,
        426 => 2490,
        427 => 2495,
        428 => 2500,
        429 => 2505,
        430 => 2510,
        431 => 2515,
        432 => 2520,
        433 => 2525,
        434 => 2530,
        435 => 2535,
        436 => 2540,
        437 => 2545,
        438 => 2550,
        439 => 2555,
        440 => 2559,
        441 => 2564,
        442 => 2569,
        443 => 2574,
        444 => 2579,
        445 => 2584,
        446 => 2589,
        _ => 2594,
    }
}

pub open spec fn sine_part7(i: u16) -> i32 {
    match i {
        448 => 2598,
        449 => 2603,
        450 => 2608,
        451 => 2613,
        452 => 2618,
        453 => 2623,
        454 => 2628,
        455 => 2632,
        456 => 2637,
        457 => 2642,
        458 => 2647,
        459 => 2652,
        460 => 2656,
        461 => 2661,
        462 => 2666,
        463 => 2671,
        464 => 2675,
        465 => 2680,
        466 => 2685,
        467 => 2690,
        468 => 2694,
        469 => 2699,
        470 => 2704,
        471 => 2709,
        472 => 2713,
        473 => 2718,
        474 => 2723,
        475 => 2727,
        476 => 2732,
        477 => 2737,
        478 => 2741,
        479 => 2746,
        480 => 2751,
        481 => 2755,
        482 => 2760,
        483 => 2765,
        484 => 2769,
        485 => 2774,
        486 => 2779,
        487 => 2783,
        488 => 2788,
        489 => 2792,
        490 => 2797,
        491 => 2802,
        492 => 2806,
        493 => 2811,
        494 => 2815,
        495 => 2820,
        496 => 2824,
        497 => 2829,
        498 => 2833,
        499 => 2838,
        500 => 2843,
        501 => 2847,
        502 => 2852,
        503 => 2856,
        504 => 2861,
        505 => 2865,
        506 => 2870,
        507 => 2874,
        508 => 2878,
        509 => 2883,
        510 => 2887,
        _ => 2892,
    }
}

pub open spec fn sine_part8(i: u16) -> i32 {
    match i {
        512 => 2896,
        513 => 2901,
        514 => 2905,
        515 => 2910,
        516 => 2914,
        517 => 2918,
        518 => 2923,
        519 => 2927,
        520 => 2932,
        521 => 2936,
        522 => 2940,
        523 => 2945,
        524 => 2949,
        525 => 2953,
        526 => 2958,
        527 => 2962,
        528 => 2967,
        529 => 2971,
        530 => 2975,
        531 => 2979,
        532 => 2984,
        533 => 2988,
        534 => 2992,
        535 => 2997,
        536 => 3001,
        537 => 3005,
        538 => 3009,
        539 => 3014,
        540 => 3018,
        541 => 3022,
        542 => 3026,
        543 => 3031,
        544 => 3035,
        545 => 3039,
        546 => 3043,
        547 => 3048,
        548 => 3052,
        549 => 3056,
        550 => 3060,
        551 => 3064,
        552 => 3068,
        553 => 3073,
        554 => 3077,
        555 => 3081,
        556 => 3085,
        557 => 3089,
        558 => 3093,
        559 => 3097,
        560 => 3102,
        561 => 3106,
        562 => 3110,
        563 => 3114,
        564 => 3118,
        565 => 3122,
        566 => 3126,
        567 => 3130,
        568 => 3134,
        569 => 3138,
        570 => 3142,
        571 => 3146,
        572 => 3150,
        573 => 3154,
        574 => 3158,
        _ => 3162,
    }
}

pub open spec fn sine_part9(i: u16) -> i32 {
    match i {
        576 => 3166,
        577 => 3170,
        578 => 3174,
        579 => 3178,
        580 => 3182,
        581 => 3186,
        582 => 3190,
        583 => 3194,
        584 => 3198,
        585 => 3202,
        586 => 3206,
        587 => 3210,
        588 => 3214,
        589 => 3217,
        590 => 3221,
        591 => 3225,
        592 => 3229,
        593 => 3233,
        594 => 3237,
        595 => 3241,
        596 => 3244,
        597 => 3248,
        598 => 3252,
        599 => 3256,
        600 => 3260,
        601 => 3264,
        602 => 3267,
        603 => 3271,
        604 => 3275,
        605 => 3279,
        606 => 3282,
        607 => 3286,
        608 => 3290,
        609 => 3294,
        610 => 3297,
        611 => 3301,
        612 => 3305,
        613 => 3309,
        614 => 3312,
        615 => 3316,
        616 => 3320,
        617 => 3323,
        618 => 3327,
        619 => 3331,
        620 => 3334,
        621 => 3338,
        622 => 3342,
        623 => 3345,
        624 => 3349,
        625 => 3352,
        626 => 3356,
        627 => 3360,
        628 => 3363,
        629 => 3367,
        630 => 3370,
        631 => 3374,
        632 => 3378,
        633 => 3381,
        634 => 3385,
        635 => 3388,
        636 => 3392,
        637 => 3395,
        638 => 3399,
        _ => 3402,
    }
}

pub open spec fn sine_part10(i: u16) -> i32 {
    match i {
        640 => 3406,
        641 => 3409,
        642 => 3413,
        643 => 3416,
        644 => 3420,
        645 => 3423,
        646 => 3426,
        647 => 3430,
        648 => 3433,
        649 => 3437,
        650 => 3440,
        651 => 3444,
        652 => 3447,
        653 => 3450,
        654 => 3454,
        655 => 3457,
        656 => 3461,
        657 => 3464,
        658 => 3467,
        659 => 3471,
        660 => 3474,
        661 => 3477,
        662 => 3481,
        663 => 3484,
        664 => 3487,
        665 => 3490,
        666 => 3494,
        667 => 3497,
        668 => 3500,
        669 => 3504,
        670 => 3507,
        671 => 3510,
        672 => 3513,
        673 => 3516,
        674 => 3520,
        675 => 3523,
        676 => 3526,
        677 => 3529,
        678 => 3532,
        679 => 3536,
        680 => 3539,
        681 => 3542,
        682 => 3545,
        683 => 3548,
        684 => 3551,
        685 => 3555,
        686 => 3558,
        687 => 3561,
        688 => 3564,
        689 => 3567,
        690 => 3570,
        691 => 3573,
        692 => 3576,
        693 => 3579,
        694 => 3582,
        695 => 3585,
        696 => 3588,
        697 => 3591,
        698 => 3594,
        699 => 3597,
        700 => 3600,
        701 => 3603,
        702 => 3606,
        _ => 3609,
    }
}

pub open spec fn sine_part11(i: u16) -> i32 {
    match i {
        704 => 3612,
        705 => 3615,
        706 => 3618,
        707 => 3621,
        708 => 3624,
        709 => 3627,
        710 => 3630,
        711 => 3633,
        712 => 3636,
        713 => 3639,
        714 => 3642,
        715 => 3644,
        716 => 3647,
        717 => 3650,
        718 => 3653,
        719 => 3656,
        720 => 3659,
        721 => 3661,
        722 => 3664,
        723 => 3667,
        724 => 3670,
        725 => 3673,
        726 => 3675,
        727 => 3678,
        728 => 3681,
        729 => 3684,
        730 => 3686,
        731 => 3689,
        732 => 3692,
        733 => 3695,
        734 => 3697,
        735 => 3700,
        736 => 3703,
        737 => 3705,
        738 => 3708,
        739 => 3711,
        740 => 3713,
        741 => 3716,
        742 => 3719,
        743 => 3721,
        744 => 3724,
        745 => 3727,
        746 => 3729,
        747 => 3732,
        748 => 3734,
        749 => 3737,
        750 => 3739,
        751 => 3742,
        752 => 3745,
        753 => 3747,
        754 => 3750,
        755 => 3752,
        756 => 3755,
        757 => 3757,
        758 => 3760,
        759 => 3762,
        760 => 3765,
        761 => 3767,
        762 => 3770,
        763 => 3772,
        764 => 3775,
        765 => 3777,
        766 => 3779,
        _ => 3782,
    }
}

pub open spec fn sine_part12(i: u16) -> i32 {
    match i {
        768 => 3784,
        769 => 3787,
        770 => 3789,
        771 => 3791,
        772 => 3794,
        773 => 3796,
        774 => 3798,
        775 => 3801,
        776 => 3803,
        777 => 3805,
        778 => 3808,
        779 => 3810,
        780 => 3812,
        781 => 3815,
        782 => 3817,
        783 => 3819,
        784 => 3822,
        785 => 3824,
        786 => 3826,
        787 => 3828,
        788 => 3831,
        789 => 3833,
        790 => 3835,
        791 => 3837,
        792 => 3839,
        793 => 3842,
        794 => 3844,
        795 => 3846,
        796 => 3848,
        797 => 3850,
        798 => 3852,
        799 => 3854,
        800 => 3857,
        801 => 3859,
        802 => 3861,
        803 => 3863,
        804 => 3865,
        805 => 3867,
        806 => 3869,
        807 => 3871,
        808 => 3873,
        809 => 3875,
        810 => 3877,
        811 => 3879,
        812 => 3881,
        813 => 3883,
        814 => 3885,
        815 => 3887,
        816 => 3889,
        817 => 3891,
        818 => 3893,
        819 => 3895,
        820 => 3897,
        821 => 3899,
        822 => 3901,
        823 => 3903,
        824 => 3905,
        825 => 3907,
        826 => 3909,
        827 => 3910,
        828 => 3912,
        829 => 3914,
        830 => 3916,
        _ => 3918,
    }
}

pub open spec fn sine_part13(i: u16) -> i32 {
    match i {
        832 => 3920,
        833 => 3921,
        834 => 3923,
        835 => 3925,
        836 => 3927,
        837 => 3929,
        838 => 3930,
        839 => 3932,
        840 => 3934,
        841 => 3936,
        842 => 3937,
        843 => 3939,
        844 => 3941,
        845 => 3943,
        846 => 3944,
        847 => 3946,
        848 => 3948,
        849 => 3949,
        850 => 3951,
        851 => 3953,
        852 => 3954,
        853 => 3956,
        854 => 3958,
        855 => 3959,
        856 => 3961,
        857 => 3962,
        858 => 3964,
        859 => 3965,
        860 => 3967,
        861 => 3969,
        862 => 3970,
        863 => 3972,
        864 => 3973,
        865 => 3975,
        866 => 3976,
        867 => 3978,
        868 => 3979,
        869 => 3981,
        870 => 3982,
        871 => 3984,
        872 => 3985,
        873 => 3987,
        874 => 3988,
        875 => 3989,
        876 => 3991,
        877 => 3992,
        878 => 3994,
        879 => 3995,
        880 => 3996,
        881 => 3998,
        882 => 3999,
        883 => 4001,
        884 => 4002,
        885 => 4003,
        886 => 4005,
        887 => 4006,
        888 => 4007,
        889 => 4008,
        890 => 4010,
        891 => 4011,
        892 => 4012,
        893 => 4014,
        894 => 4015,
        _ => 4016,
    }
}

pub open spec fn sine_part14(i: u16) -> i32 {
    match i {
        896 => 4017,
        897 => 4019,
        898 => 4020,
        899 => 4021,
        900 => 4022,
        901 => 4023,
        902 => 4024,
        903 => 4026,
        904 => 4027,
        905 => 4028,
        906 => 4029,
        907 => 4030,
        908 => 4031,
        909 => 4032,
        910 => 4034,
        911 => 4035,
        912 => 4036,
        913 => 4037,
        914 => 4038,
        915 => 4039,
        916 => 4040,
        917 => 4041,
        918 => 4042,
        919 => 4043,
        920 => 4044,
        921 => 4045,
        922 => 4046,
        923 => 4047,
        924 => 4048,
        925 => 4049,
        926 => 4050,
        927 => 4051,
        928 => 4052,
        929 => 4053,
        930 => 4053,
        931 => 4054,
        932 => 4055,
        933 => 4056,
        934 => 4057,
        935 => 4058,
        936 => 4059,
        937 => 4060,
        938 => 4060,
        939 => 4061,
        940 => 4062,
        941 => 4063,
        942 => 4064,
        943 => 4064,
        944 => 4065,
        945 => 4066,
        946 => 4067,
        947 => 4067,
        948 => 4068,
        949 => 4069,
        950 => 4070,
        951 => 4070,
        952 => 4071,
        953 => 4072,
        954 => 4072,
        955 => 4073,
        956 => 4074,
        957 => 4074,
        958 => 4075,
        _ => 4076,
    }
}

pub open spec fn sine_part15(i: u16) -> i32 {
    match i {
        960 => 4076,
        961 => 4077,
        962 => 4077,
        963 => 4078,
        964 => 4079,
        965 => 4079,
        966 => 4080,
        967 => 4080,
        968 => 4081,
        969 => 4081,
        970 => 4082,
        971 => 4082,
        972 => 4083,
        973 => 4083,
        974 => 4084,
        975 => 4084,
        976 => 4085,
        977 => 4085,
        978 => 4086,
        979 => 4086,
        980 => 4087,
        981 => 4087,
        982 => 4088,
        983 => 4088,
        984 => 4088,
        985 => 4089,
        986 => 4089,
        987 => 4089,
        988 => 4090,
        989 => 4090,
        990 => 4090,
        991 => 4091,
        992 => 4091,
        993 => 4091,
        994 => 4092,
        995 => 4092,
        996 => 4092,
        997 => 4092,
        998 => 4093,
        999 => 4093,
        1000 => 4093,
        1001 => 4093,
        1002 => 4094,
        1003 => 4094,
        1004 => 4094,
        1005 => 4094,
        1006 => 4094,
        1007 => 4095,
        1008 => 4095,
        1009 => 4095,
        1010 => 4095,
        1011 => 4095,
        1012 => 4095,
        1013 => 4095,
        1014 => 4096,
        1015 => 4096,
        1016 => 4096,
        1017 => 4096,
        1018 => 4096,
        1019 => 4096,
        1020 => 4096,
        1021 => 4096,
        1022 => 4096,
        _ => 4096,
    }
}

pub open spec fn sine_part16(i: u16) -> i32 {
    match i {
        _ => 4096,
    }
}

/// Quarter-wave sine table: entry `i` is `sin(i * pi / 2048)` scaled by 4096 and rounded,
/// for `0 <= i <= 1024`; zero beyond.
pub open spec fn sine_entry(i: u16) -> i32 {
    if i < 64 {
        sine_part0(i)
    } else if i < 128 {
        sine_part1(i)
    } else if i < 192 {
        sine_part2(i)
    } else if i < 256 {
        sine_part3(i)
    } else if i < 320 {
        sine_part4(i)
    } else if i < 384 {
        sine_part5(i)
    } else if i < 448 {
        sine_part6(i)
    } else if i < 512 {
        sine_part7(i)
    } else if i < 576 {
        sine_part8(i)
    } else if i < 640 {
        sine_part9(i)
    } else if i < 704 {
        sine_part10(i)
    } else if i < 768 {
        sine_part11(i)
    } else if i < 832 {
        sine_part12(i)
    } else if i < 896 {
        sine_part13(i)
    } else if i < 960 {
        sine_part14(i)
    } else if i < 1024 {
        sine_part15(i)
    } else if i < 1025 {
        sine_part16(i)
    } else {
        0
    }
}

fn sine_lookup_part0(i: u16) -> (r: i32)
    requires
        0 <= i < 64,
    ensures
        r == sine_part0(i),
{
    match i {
        0 => 0,
        1 => 6,
        2 => 13,
        3 => 19,
        4 => 25,
        5 => 31,
        6 => 38,
        7 => 44,
        8 => 50,
        9 => 57,
        10 => 63,
        11 => 69,
        12 => 75,
        13 => 82,
        14 => 88,
        15 => 94,
        16 => 101,
        17 => 107,
        18 => 113,
        19 => 119,
        20 => 126,
        21 => 132,
        22 => 138,
        23 => 144,
        24 => 151,
        25 => 157,
        26 => 163,
        27 => 170,
        28 => 176,
        29 => 182,
        30 => 188,
        31 => 195,
        32 => 201,
        33 => 207,
        34 => 214,
        35 => 220,
        36 => 226,
        37 => 232,
        38 => 239,
        39 => 245,
        40 => 251,
        41 => 257,
        42 => 264,
        43 => 270,
        44 => 276,
        45 => 283,
        46 => 289,
        47 => 295,
        48 => 301,
        49 => 308,
        50 => 314,
        51 => 320,
        52 => 326,
        53 => 333,
        54 => 339,
        55 => 345,
        56 => 351,
        57 => 358,
        58 => 364,
        59 => 370,
        60 => 376,
        61 => 383,
        62 => 389,
        _ => 395,
    }
}

fn sine_lookup_part1(i: u16) -> (r: i32)
    requires
        64 <= i < 128,
    ensures
        r == sine_part1(i),
{
    match i {
        64 => 401,
        65 => 408,
        66 => 414,
        67 => 420,
        68 => 426,
        69 => 433,
        70 => 439,
        71 => 445,
        72 => 451,
        73 => 458,
        74 => 464,
        75 => 470,
        76 => 476,
        77 => 483,
        78 => 489,
        79 => 495,
        80 => 501,
        81 => 508,
        82 => 514,
        83 => 520,
        84 => 526,
        85 => 533,
        86 => 539,
        87 => 545,
        88 => 551,
        89 => 557,
        90 => 564,
        91 => 570,
        92 => 576,
        93 => 582,
        94 => 589,
        95 => 595,
        96 => 601,
        97 => 607,
        98 => 613,
        99 => 620,
        100 => 626,
        101 => 632,
        102 => 638,
        103 => 644,
        104 => 651,
        105 => 657,
        106 => 663,
        107 => 669,
        108 => 675,
        109 => 682,
        110 => 688,
        111 => 694,
        112 => 700,
        113 => 706,
        114 => 713,
        115 => 719,
        116 => 725,
        117 => 731,
        118 => 737,
        119 => 744,
        120 => 750,
        121 => 756,
        122 => 762,
        123 => 768,
        124 => 774,
        125 => 781,
        126 => 787,
        _ => 793,
    }
}

fn sine_lookup_part2(i: u16) -> (r: i32)
    requires
        128 <= i < 192,
    ensures
        r == sine_part2(i),
{
    match i {
        128 => 799,
        129 => 805,
        130 => 811,
        131 => 818,
        132 => 824,
        133 => 830,
        134 => 836,
        135 => 842,
        136 => 848,
        137 => 854,
        138 => 861,
        139 => 867,
        140 => 873,
        141 => 879,
        142 => 885,
        143 => 891,
        144 => 897,
        145 => 904,
        146 => 910,
        147 => 916,
        148 => 922,
        149 => 928,
        150 => 934,
        151 => 940,
        152 => 946,
        153 => 953,
        154 => 959,
        155 => 965,
        156 => 971,
        157 => 977,
        158 => 983,
        159 => 989,
        160 => 995,
        161 => 1001,
        162 => 1007,
        163 => 1014,
        164 => 1020,
        165 => 1026,
        166 => 1032,
        167 => 1038,
        168 => 1044,
        169 => 1050,
        170 => 1056,
        171 => 1062,
        172 => 1068,
        173 => 1074,
        174 => 1080,
        175 => 1086,
        176 => 1092,
        177 => 1099,
        178 => 1105,
        179 => 1111,
        180 => 1117,
        181 => 1123,
        182 => 1129,
        183 => 1135,
        184 => 1141,
        185 => 1147,
        186 => 1153,
        187 => 1159,
        188 => 1165,
        189 => 1171,
        190 => 1177,
        _ => 1183,
    }
}

fn sine_lookup_part3(i: u16) -> (r: i32)
    requires
        192 <= i < 256,
    ensures
        r == sine_part3(i),
{
    match i {
        192 => 1189,
        193 => 1195,
        194 => 1201,
        195 => 1207,
        196 => 1213,
        197 => 1219,
        198 => 1225,
        199 => 1231,
        200 => 1237,
        201 => 1243,
        202 => 1249,
        203 => 1255,
        204 => 1261,
        205 => 1267,
        206 => 1273,
        207 => 1279,
        208 => 1285,
        209 => 1291,
        210 => 1297,
        211 => 1303,
        212 => 1309,
        213 => 1315,
        214 => 1321,
        215 => 1327,
        216 => 1332,
        217 => 1338,
        218 => 1344,
        219 => 1350,
        220 => 1356,
        221 => 1362,
        222 => 1368,
        223 => 1374,
        224 => 1380,
        225 => 1386,
        226 => 1392,
        227 => 1398,
        228 => 1404,
        229 => 1409,
        230 => 1415,
        231 => 1421,
        232 => 1427,
        233 => 1433,
        234 => 1439,
        235 => 1445,
        236 => 1451,
        237 => 1457,
        238 => 1462,
        239 => 1468,
        240 => 1474,
        241 => 1480,
        242 => 1486,
        243 => 1492,
        244 => 1498,
        245 => 1503,
        246 => 1509,
        247 => 1515,
        248 => 1521,
        249 => 1527,
        250 => 1533,
        251 => 1538,
        252 => 1544,
        253 => 1550,
        254 => 1556,
        _ => 1562,
    }
}

fn sine_lookup_part4(i: u16) -> (r: i32)
    requires
        256 <= i < 320,
    ensures
        r == sine_part4(i),
{
    match i {
        256 => 1567,
        257 => 1573,
        258 => 1579,
        259 => 1585,
        260 => 1591,
        261 => 1596,
        262 => 1602,
        263 => 1608,
        264 => 1614,
        265 => 1620,
        266 => 1625,
        267 => 1631,
        268 => 1637,
        269 => 1643,
        270 => 1648,
        271 => 1654,
        272 => 1660,
        273 => 1666,
        274 => 1671,
        275 => 1677,
        276 => 1683,
        277 => 1689,
        278 => 1694,
        279 => 1700,
        280 => 1706,
        281 => 1711,
        282 => 1717,
        283 => 1723,
        284 => 1729,
        285 => 1734,
        286 => 1740,
        287 => 1746,
        288 => 1751,
        289 => 1757,
        290 => 1763,
        291 => 1768,
        292 => 1774,
        293 => 1780,
        294 => 1785,
        295 => 1791,
        296 => 1797,
        297 => 1802,
        298 => 1808,
        299 => 1813,
        300 => 1819,
        301 => 1825,
        302 => 1830,
        303 => 1836,
        304 => 1842,
        305 => 1847,
        306 => 1853,
        307 => 1858,
        308 => 1864,
        309 => 1870,
        310 => 1875,
        311 => 1881,
        312 => 1886,
        313 => 1892,
        314 => 1898,
        315 => 1903,
        316 => 1909,
        317 => 1914,
        318 => 1920,
        _ => 1925,
    }
}

fn sine_lookup_part5(i: u16) -> (r: i32)
    requires
        320 <= i < 384,
    ensures
        r == sine_part5(i),
{
    match i {
        320 => 1931,
        321 => 1936,
        322 => 1942,
        323 => 1947,
        324 => 1953,
        325 => 1958,
        326 => 1964,
        327 => 1970,
        328 => 1975,
        329 => 1981,
        330 => 1986,
        331 => 1992,
        332 => 1997,
        333 => 2002,
        334 => 2008,
        335 => 2013,
        336 => 2019,
        337 => 2024,
        338 => 2030,
        339 => 2035,
        340 => 2041,
        341 => 2046,
        342 => 2052,
        343 => 2057,
        344 => 2062,
        345 => 2068,
        346 => 2073,
        347 => 2079,
        348 => 2084,
        349 => 2090,
        350 => 2095,
        351 => 2100,
        352 => 2106,
        353 => 2111,
        354 => 2117,
        355 => 2122,
        356 => 2127,
        357 => 2133,
        358 => 2138,
        359 => 2143,
        360 => 2149,
        361 => 2154,
        362 => 2159,
        363 => 2165,
        364 => 2170,
        365 => 2175,
        366 => 2181,
        367 => 2186,
        368 => 2191,
        369 => 2197,
        370 => 2202,
        371 => 2207,
        372 => 2213,
        373 => 2218,
        374 => 2223,
        375 => 2228,
        376 => 2234,
        377 => 2239,
        378 => 2244,
        379 => 2249,
        380 => 2255,
        381 => 2260,
        382 => 2265,
        _ => 2270,
    }
}

fn sine_lookup_part6(i: u16) -> (r: i32)
    requires
        384 <= i < 448,
    ensures
        r == sine_part6(i),
{
    match i {
        384 => 2276,
        385 => 2281,
        386 => 2286,
        387 => 2291,
        388 => 2296,
        389 => 2302,
        390 => 2307,
        391 => 2312,
        392 => 2317,
        393 => 2322,
        394 => 2328,
        395 => 2333,
        396 => 2338,
        397 => 2343,
        398 => 2348,
        399 => 2353,
        400 => 2359,
        401 => 2364,
        402 => 2369,
        403 => 2374,
        404 => 2379,
        405 => 2384,
        406 => 2389,
        407 => 2394,
        408 => 2399,
        409 => 2405,
        410 => 2410,
        411 => 2415,
        412 => 2420,
        413 => 2425,
        414 => 2430,
        415 => 2435,
        416 => 2440,
        417 => 2445,
        418 => 2450,
        419 => 2455,
        420 => 2460,
        421 => 2465,
        422 => 2470,
        423 => 2475,
        424 => 2480,
        425 => 2485,
        426 => 2490,
        427 => 2495,
        428 => 2500,
        429 => 2505,
        430 => 2510,
        431 => 2515,
        432 => 2520,
        433 => 2525,
        434 => 2530,
        435 => 2535,
        436 => 2540,
        437 => 2545,
        438 => 2550,
        439 => 2555,
        440 => 2559,
        441 => 2564,
        442 => 2569,
        443 => 2574,
        444 => 2579,
        445 => 2584,
        446 => 2589,
        _ => 2594,
    }
}

fn sine_lookup_part7(i: u16) -> (r: i32)
    requires
        448 <= i < 512,
    ensures
        r == sine_part7(i),
{
    match i {
        448 => 2598,
        449 => 2603,
        450 => 2608,
        451 => 2613,
        452 => 2618,
        453 => 2623,
        454 => 2628,
        455 => 2632,
        456 => 2637,
        457 => 2642,
        458 => 2647,
        459 => 2652,
        460 => 2656,
        461 => 2661,
        462 => 2666,
        463 => 2671,
        464 => 2675,
        465 => 2680,
        466 => 2685,
        467 => 2690,
        468 => 2694,
        469 => 2699,
        470 => 2704,
        471 => 2709,
        472 => 2713,
        473 => 2718,
        474 => 2723,
        475 => 2727,
        476 => 2732,
        477 => 2737,
        478 => 2741,
        479 => 2746,
        480 => 2751,
        481 => 2755,
        482 => 2760,
        483 => 2765,
        484 => 2769,
        485 => 2774,
        486 => 2779,
        487 => 2783,
        488 => 2788,
        489 => 2792,
        490 => 2797,
        491 => 2802,
        492 => 2806,
        493 => 2811,
        494 => 2815,
        495 => 2820,
        496 => 2824,
        497 => 2829,
        498 => 2833,
        499 => 2838,
        500 => 2843,
        501 => 2847,
        502 => 2852,
        503 => 2856,
        504 => 2861,
        505 => 2865,
        506 => 2870,
        507 => 2874,
        508 => 2878,
        509 => 2883,
        510 => 2887,
        _ => 2892,
    }
}

fn sine_lookup_part8(i: u16) -> (r: i32)
    requires
        512 <= i < 576,
    ensures
        r == sine_part8(i),
{
    match i {
        512 => 2896,
        513 => 2901,
        514 => 2905,
        515 => 2910,
        516 => 2914,
        517 => 2918,
        518 => 2923,
        519 => 2927,
        520 => 2932,
        521 => 2936,
        522 => 2940,
        523 => 2945,
        524 => 2949,
        525 => 2953,
        526 => 2958,
        527 => 2962,
        528 => 2967,
        529 => 2971,
        530 => 2975,
        531 => 2979,
        532 => 2984,
        533 => 2988,
        534 => 2992,
        535 => 2997,
        536 => 3001,
        537 => 3005,
        538 => 3009,
        539 => 3014,
        540 => 3018,
        541 => 3022,
        542 => 3026,
        543 => 3031,
        544 => 3035,
        545 => 3039,
        546 => 3043,
        547 => 3048,
        548 => 3052,
        549 => 3056,
        550 => 3060,
        551 => 3064,
        552 => 3068,
        553 => 3073,
        554 => 3077,
        555 => 3081,
        556 => 3085,
        557 => 3089,
        558 => 3093,
        559 => 3097,
        560 => 3102,
        561 => 3106,
        562 => 3110,
        563 => 3114,
        564 => 3118,
        565 => 3122,
        566 => 3126,
        567 => 3130,
        568 => 3134,
        569 => 3138,
        570 => 3142,
        571 => 3146,
        572 => 3150,
        573 => 3154,
        574 => 3158,
        _ => 3162,
    }
}

fn sine_lookup_part9(i: u16) -> (r: i32)
    requires
        576 <= i < 640,
    ensures
        r == sine_part9(i),
{
    match i {
        576 => 3166,
        577 => 3170,
        578 => 3174,
        579 => 3178,
        580 => 3182,
        581 => 3186,
        582 => 3190,
        583 => 3194,
        584 => 3198,
        585 => 3202,
        586 => 3206,
        587 => 3210,
        588 => 3214,
        589 => 3217,
        590 => 3221,
        591 => 3225,
        592 => 3229,
        593 => 3233,
        594 => 3237,
        595 => 3241,
        596 => 3244,
        597 => 3248,
        598 => 3252,
        599 => 3256,
        600 => 3260,
        601 => 3264,
        602 => 3267,
        603 => 3271,
        604 => 3275,
        605 => 3279,
        606 => 3282,
        607 => 3286,
        608 => 3290,
        609 => 3294,
        610 => 3297,
        611 => 3301,
        612 => 3305,
        613 => 3309,
        614 => 3312,
        615 => 3316,
        616 => 3320,
        617 => 3323,
        618 => 3327,
        619 => 3331,
        620 => 3334,
        621 => 3338,
        622 => 3342,
        623 => 3345,
        624 => 3349,
        625 => 3352,
        626 => 3356,
        627 => 3360,
        628 => 3363,
        629 => 3367,
        630 => 3370,
        631 => 3374,
        632 => 3378,
        633 => 3381,
        634 => 3385,
        635 => 3388,
        636 => 3392,
        637 => 3395,
        638 => 3399,
        _ => 3402,
    }
}

fn sine_lookup_part10(i: u16) -> (r: i32)
    requires
        640 <= i < 704,
    ensures
        r == sine_part10(i),
{
    match i {
        640 => 3406,
        641 => 3409,
        642 => 3413,
        643 => 3416,
        644 => 3420,
        645 => 3423,
        646 => 3426,
        647 => 3430,
        648 => 3433,
        649 => 3437,
        650 => 3440,
        651 => 3444,
        652 => 3447,
        653 => 3450,
        654 => 3454,
        655 => 3457,
        656 => 3461,
        657 => 3464,
        658 => 3467,
        659 => 3471,
        660 => 3474,
        661 => 3477,
        662 => 3481,
        663 => 3484,
        664 => 3487,
        665 => 3490,
        666 => 3494,
        667 => 3497,
        668 => 3500,
        669 => 3504,
        670 => 3507,
        671 => 3510,
        672 => 3513,
        673 => 3516,
        674 => 3520,
        675 => 3523,
        676 => 3526,
        677 => 3529,
        678 => 3532,
        679 => 3536,
        680 => 3539,
        681 => 3542,
        682 => 3545,
        683 => 3548,
        684 => 3551,
        685 => 3555,
        686 => 3558,
        687 => 3561,
        688 => 3564,
        689 => 3567,
        690 => 3570,
        691 => 3573,
        692 => 3576,
        693 => 3579,
        694 => 3582,
        695 => 3585,
        696 => 3588,
        697 => 3591,
        698 => 3594,
        699 => 3597,
        700 => 3600,
        701 => 3603,
        702 => 3606,
        _ => 3609,
    }
}

fn sine_lookup_part11(i: u16) -> (r: i32)
    requires
        704 <= i < 768,
    ensures
        r == sine_part11(i),
{
    match i {
        704 => 3612,
        705 => 3615,
        706 => 3618,
        707 => 3621,
        708 => 3624,
        709 => 3627,
        710 => 3630,
        711 => 3633,
        712 => 3636,
        713 => 3639,
        714 => 3642,
        715 => 3644,
        716 => 3647,
        717 => 3650,
        718 => 3653,
        719 => 3656,
        720 => 3659,
        721 => 3661,
        722 => 3664,
        723 => 3667,
        724 => 3670,
        725 => 3673,
        726 => 3675,
        727 => 3678,
        728 => 3681,
        729 => 3684,
        730 => 3686,
        731 => 3689,
        732 => 3692,
        733 => 3695,
        734 => 3697,
        735 => 3700,
        736 => 3703,
        737 => 3705,
        738 => 3708,
        739 => 3711,
        740 => 3713,
        741 => 3716,
        742 => 3719,
        743 => 3721,
        744 => 3724,
        745 => 3727,
        746 => 3729,
        747 => 3732,
        748 => 3734,
        749 => 3737,
        750 => 3739,
        751 => 3742,
        752 => 3745,
        753 => 3747,
        754 => 3750,
        755 => 3752,
        756 => 3755,
        757 => 3757,
        758 => 3760,
        759 => 3762,
        760 => 3765,
        761 => 3767,
        762 => 3770,
        763 => 3772,
        764 => 3775,
        765 => 3777,
        766 => 3779,
        _ => 3782,
    }
}

fn sine_lookup_part12(i: u16) -> (r: i32)
    requires
        768 <= i < 832,
    ensures
        r == sine_part12(i),
{
    match i {
        768 => 3784,
        769 => 3787,
        770 => 3789,
        771 => 3791,
        772 => 3794,
        773 => 3796,
        774 => 3798,
        775 => 3801,
        776 => 3803,
        777 => 3805,
        778 => 3808,
        779 => 3810,
        780 => 3812,
        781 => 3815,
        782 => 3817,
        783 => 3819,
        784 => 3822,
        785 => 3824,
        786 => 3826,
        787 => 3828,
        788 => 3831,
        789 => 3833,
        790 => 3835,
        791 => 3837,
        792 => 3839,
        793 => 3842,
        794 => 3844,
        795 => 3846,
        796 => 3848,
        797 => 3850,
        798 => 3852,
        799 => 3854,
        800 => 3857,
        801 => 3859,
        802 => 3861,
        803 => 3863,
        804 => 3865,
        805 => 3867,
        806 => 3869,
        807 => 3871,
        808 => 3873,
        809 => 3875,
        810 => 3877,
        811 => 3879,
        812 => 3881,
        813 => 3883,
        814 => 3885,
        815 => 3887,
        816 => 3889,
        817 => 3891,
        818 => 3893,
        819 => 3895,
        820 => 3897,
        821 => 3899,
        822 => 3901,
        823 => 3903,
        824 => 3905,
        825 => 3907,
        826 => 3909,
        827 => 3910,
        828 => 3912,
        829 => 3914,
        830 => 3916,
        _ => 3918,
    }
}

fn sine_lookup_part13(i: u16) -> (r: i32)
    requires
        832 <= i < 896,
    ensures
        r == sine_part13(i),
{
    match i {
        832 => 3920,
        833 => 3921,
        834 => 3923,
        835 => 3925,
        836 => 3927,
        837 => 3929,
        838 => 3930,
        839 => 3932,
        840 => 3934,
        841 => 3936,
        842 => 3937,
        843 => 3939,
        844 => 3941,
        845 => 3943,
        846 => 3944,
        847 => 3946,
        848 => 3948,
        849 => 3949,
        850 => 3951,
        851 => 3953,
        852 => 3954,
        853 => 3956,
        854 => 3958,
        855 => 3959,
        856 => 3961,
        857 => 3962,
        858 => 3964,
        859 => 3965,
        860 => 3967,
        861 => 3969,
        862 => 3970,
        863 => 3972,
        864 => 3973,
        865 => 3975,
        866 => 3976,
        867 => 3978,
        868 => 3979,
        869 => 3981,
        870 => 3982,
        871 => 3984,
        872 => 3985,
        873 => 3987,
        874 => 3988,
        875 => 3989,
        876 => 3991,
        877 => 3992,
        878 => 3994,
        879 => 3995,
        880 => 3996,
        881 => 3998,
        882 => 3999,
        883 => 4001,
        884 => 4002,
        885 => 4003,
        886 => 4005,
        887 => 4006,
        888 => 4007,
        889 => 4008,
        890 => 4010,
        891 => 4011,
        892 => 4012,
        893 => 4014,
        894 => 4015,
        _ => 4016,
    }
}

fn sine_lookup_part14(i: u16) -> (r: i32)
    requires
        896 <= i < 960,
    ensures
        r == sine_part14(i),
{
    match i {
        896 => 4017,
        897 => 4019,
        898 => 4020,
        899 => 4021,
        900 => 4022,
        901 => 4023,
        902 => 4024,
        903 => 4026,
        904 => 4027,
        905 => 4028,
        906 => 4029,
        907 => 4030,
        908 => 4031,
        909 => 4032,
        910 => 4034,
        911 => 4035,
        912 => 4036,
        913 => 4037,
        914 => 4038,
        915 => 4039,
        916 => 4040,
        917 => 4041,
        918 => 4042,
        919 => 4043,
        920 => 4044,
        921 => 4045,
        922 => 4046,
        923 => 4047,
        924 => 4048,
        925 => 4049,
        926 => 4050,
        927 => 4051,
        928 => 4052,
        929 => 4053,
        930 => 4053,
        931 => 4054,
        932 => 4055,
        933 => 4056,
        934 => 4057,
        935 => 4058,
        936 => 4059,
        937 => 4060,
        938 => 4060,
        939 => 4061,
        940 => 4062,
        941 => 4063,
        942 => 4064,
        943 => 4064,
        944 => 4065,
        945 => 4066,
        946 => 4067,
        947 => 4067,
        948 => 4068,
        949 => 4069,
        950 => 4070,
        951 => 4070,
        952 => 4071,
        953 => 4072,
        954 => 4072,
        955 => 4073,
        956 => 4074,
        957 => 4074,
        958 => 4075,
        _ => 4076,
    }
}

fn sine_lookup_part15(i: u16) -> (r: i32)
    requires
        960 <= i < 1024,
    ensures
        r == sine_part15(i),
{
    match i {
        960 => 4076,
        961 => 4077,
        962 => 4077,
        963 => 4078,
        964 => 4079,
        965 => 4079,
        966 => 4080,
        967 => 4080,
        968 => 4081,
        969 => 4081,
        970 => 4082,
        971 => 4082,
        972 => 4083,
        973 => 4083,
        974 => 4084,
        975 => 4084,
        976 => 4085,
        977 => 4085,
        978 => 4086,
        979 => 4086,
        980 => 4087,
        981 => 4087,
        982 => 4088,
        983 => 4088,
        984 => 4088,
        985 => 4089,
        986 => 4089,
        987 => 4089,
        988 => 4090,
        989 => 4090,
        990 => 4090,
        991 => 4091,
        992 => 4091,
        993 => 4091,
        994 => 4092,
        995 => 4092,
        996 => 4092,
        997 => 4092,
        998 => 4093,
        999 => 4093,
        1000 => 4093,
        1001 => 4093,
        1002 => 4094,
        1003 => 4094,
        1004 => 4094,
        1005 => 4094,
        1006 => 4094,
        1007 => 4095,
        1008 => 4095,
        1009 => 4095,
        1010 => 4095,
        1011 => 4095,
        1012 => 4095,
        1013 => 4095,
        1014 => 4096,
        1015 => 4096,
        1016 => 4096,
        1017 => 4096,
        1018 => 4096,
        1019 => 4096,
        1020 => 4096,
        1021 => 4096,
        1022 => 4096,
        _ => 4096,
    }
}

fn sine_lookup_part16(i: u16) -> (r: i32)
    requires
        1024 <= i < 1025,
    ensures
        r == sine_part16(i),
{
    match i {
        _ => 4096,
    }
}

/// Looks up the quarter-wave sine table.
pub fn sine_lookup(i: u16) -> (r: i32)
    ensures
        r == sine_entry(i),
        0 <= r <= 4096,
{
    if i < 64 {
        sine_lookup_part0(i)
    } else if i < 128 {
        sine_lookup_part1(i)
    } else if i < 192 {
        sine_lookup_part2(i)
    } else if i < 256 {
        sine_lookup_part3(i)
    } else if i < 320 {
        sine_lookup_part4(i)
    } else if i < 384 {
        sine_lookup_part5(i)
    } else if i < 448 {
        sine_lookup_part6(i)
    } else if i < 512 {
        sine_lookup_part7(i)
    } else if i < 576 {
        sine_lookup_part8(i)
    } else if i < 640 {
        sine_lookup_part9(i)
    } else if i < 704 {
        sine_lookup_part10(i)
    } else if i < 768 {
        sine_lookup_part11(i)
    } else if i < 832 {
        sine_lookup_part12(i)
    } else if i < 896 {
        sine_lookup_part13(i)
    } else if i < 960 {
        sine_lookup_part14(i)
    } else if i < 1024 {
        sine_lookup_part15(i)
    } else if i < 1025 {
        sine_lookup_part16(i)
    } else {
        0
    }
}

pub open spec fn root_part0(i: u16) -> u32 {
    match i {
        0 => 0,
        1 => 0,
        2 => 0,
        3 => 0,
        4 => 0,
        5 => 0,
        6 => 0,
        7 => 0,
        8 => 0,
        9 => 0,
        10 => 0,
        11 => 0,
        12 => 0,
        13 => 0,
        14 => 0,
        15 => 0,
        16 => 0,
        17 => 0,
        18 => 0,
        19 => 0,
        20 => 0,
        21 => 0,
        22 => 0,
        23 => 0,
        24 => 0,
        25 => 0,
        26 => 0,
        27 => 0,
        28 => 0,
        29 => 0,
        30 => 0,
        31 => 0,
        32 => 0,
        33 => 0,
        34 => 0,
        35 => 0,
        36 => 0,
        37 => 0,
        38 => 0,
        39 => 0,
        40 => 0,
        41 => 0,
        42 => 0,
        43 => 0,
        44 => 0,
        45 => 0,
        46 => 0,
        47 => 0,
        48 => 0,
        49 => 0,
        50 => 0,
        51 => 0,
        52 => 0,
        53 => 0,
        54 => 0,
        55 => 0,
        56 => 0,
        57 => 0,
        58 => 0,
        59 => 0,
        60 => 0,
        61 => 0,
        62 => 0,
        _ => 0,
    }
}

pub open spec fn root_part1(i: u16) -> u32 {
    match i {
        64 => 4096,
        65 => 4127,
        66 => 4159,
        67 => 4190,
        68 => 4222,
        69 => 4252,
        70 => 4283,
        71 => 4314,
        72 => 4344,
        73 => 4374,
        74 => 4404,
        75 => 4434,
        76 => 4463,
        77 => 4492,
        78 => 4521,
        79 => 4550,
        80 => 4579,
        81 => 4608,
        82 => 4636,
        83 => 4664,
        84 => 4692,
        85 => 4720,
        86 => 4748,
        87 => 4775,
        88 => 4802,
        89 => 4830,
        90 => 4857,
        91 => 4884,
        92 => 4910,
        93 => 4937,
        94 => 4964,
        95 => 4990,
        96 => 5016,
        97 => 5042,
        98 => 5068,
        99 => 5094,
        100 => 5120,
        101 => 5145,
        102 => 5170,
        103 => 5196,
        104 => 5221,
        105 => 5246,
        106 => 5271,
        107 => 5296,
        108 => 5320,
        109 => 5345,
        110 => 5369,
        111 => 5394,
        112 => 5418,
        113 => 5442,
        114 => 5466,
        115 => 5490,
        116 => 5514,
        117 => 5538,
        118 => 5561,
        119 => 5585,
        120 => 5608,
        121 => 5632,
        122 => 5655,
        123 => 5678,
        124 => 5701,
        125 => 5724,
        126 => 5747,
        _ => 5769,
    }
}

pub open spec fn root_part2(i: u16) -> u32 {
    match i {
        128 => 5792,
        129 => 5815,
        130 => 5837,
        131 => 5860,
        132 => 5882,
        133 => 5904,
        134 => 5926,
        135 => 5948,
        136 => 5970,
        137 => 5992,
        138 => 6014,
        139 => 6036,
        140 => 6058,
        141 => 6079,
        142 => 6101,
        143 => 6122,
        144 => 6144,
        145 => 6165,
        146 => 6186,
        147 => 6207,
        148 => 6228,
        149 => 6249,
        150 => 6270,
        151 => 6291,
        152 => 6312,
        153 => 6333,
        154 => 6353,
        155 => 6374,
        156 => 6394,
        157 => 6415,
        158 => 6435,
        159 => 6456,
        160 => 6476,
        161 => 6496,
        162 => 6516,
        163 => 6536,
        164 => 6556,
        165 => 6576,
        166 => 6596,
        167 => 6616,
        168 => 6636,
        169 => 6656,
        170 => 6675,
        171 => 6695,
        172 => 6714,
        173 => 6734,
        174 => 6753,
        175 => 6773,
        176 => 6792,
        177 => 6811,
        178 => 6830,
        179 => 6850,
        180 => 6869,
        181 => 6888,
        182 => 6907,
        183 => 6926,
        184 => 6945,
        185 => 6963,
        186 => 6982,
        187 => 7001,
        188 => 7020,
        189 => 7038,
        190 => 7057,
        _ => 7075,
    }
}

pub open spec fn root_part3(i: u16) -> u32 {
    match i {
        192 => 7094,
        193 => 7112,
        194 => 7131,
        195 => 7149,
        196 => 7168,
        197 => 7186,
        198 => 7204,
        199 => 7222,
        200 => 7240,
        201 => 7258,
        202 => 7276,
        203 => 7294,
        204 => 7312,
        205 => 7330,
        206 => 7348,
        207 => 7366,
        208 => 7384,
        209 => 7401,
        210 => 7419,
        211 => 7437,
        212 => 7454,
        213 => 7472,
        214 => 7489,
        215 => 7507,
        216 => 7524,
        217 => 7542,
        218 => 7559,
        219 => 7576,
        220 => 7594,
        221 => 7611,
        222 => 7628,
        223 => 7645,
        224 => 7662,
        225 => 7680,
        226 => 7697,
        227 => 7714,
        228 => 7731,
        229 => 7747,
        230 => 7764,
        231 => 7781,
        232 => 7798,
        233 => 7815,
        234 => 7832,
        235 => 7848,
        236 => 7865,
        237 => 7882,
        238 => 7898,
        239 => 7915,
        240 => 7931,
        241 => 7948,
        242 => 7964,
        243 => 7981,
        244 => 7997,
        245 => 8014,
        246 => 8030,
        247 => 8046,
        248 => 8062,
        249 => 8079,
        250 => 8095,
        251 => 8111,
        252 => 8127,
        253 => 8143,
        254 => 8159,
        _ => 8175,
    }
}

/// Square-root table: entry `i` is the integer square root of `i * 2^18` for
/// `64 <= i < 256`; indices below 64 never occur and hold zero, as do those beyond.
pub open spec fn root_entry(i: u16) -> u32 {
    if i < 64 {
        root_part0(i)
    } else if i < 128 {
        root_part1(i)
    } else if i < 192 {
        root_part2(i)
    } else if i < 256 {
        root_part3(i)
    } else {
        0
    }
}

fn root_lookup_part0(i: u16) -> (r: u32)
    requires
        0 <= i < 64,
    ensures
        r == root_part0(i),
{
    match i {
        0 => 0,
        1 => 0,
        2 => 0,
        3 => 0,
        4 => 0,
        5 => 0,
        6 => 0,
        7 => 0,
        8 => 0,
        9 => 0,
        10 => 0,
        11 => 0,
        12 => 0,
        13 => 0,
        14 => 0,
        15 => 0,
        16 => 0,
        17 => 0,
        18 => 0,
        19 => 0,
        20 => 0,
        21 => 0,
        22 => 0,
        23 => 0,
        24 => 0,
        25 => 0,
        26 => 0,
        27 => 0,
        28 => 0,
        29 => 0,
        30 => 0,
        31 => 0,
        32 => 0,
        33 => 0,
        34 => 0,
        35 => 0,
        36 => 0,
        37 => 0,
        38 => 0,
        39 => 0,
        40 => 0,
        41 => 0,
        42 => 0,
        43 => 0,
        44 => 0,
        45 => 0,
        46 => 0,
        47 => 0,
        48 => 0,
        49 => 0,
        50 => 0,
        51 => 0,
        52 => 0,
        53 => 0,
        54 => 0,
        55 => 0,
        56 => 0,
        57 => 0,
        58 => 0,
        59 => 0,
        60 => 0,
        61 => 0,
        62 => 0,
        _ => 0,
    }
}

fn root_lookup_part1(i: u16) -> (r: u32)
    requires
        64 <= i < 128,
    ensures
        r == root_part1(i),
{
    match i {
        64 => 4096,
        65 => 4127,
        66 => 4159,
        67 => 4190,
        68 => 4222,
        69 => 4252,
        70 => 4283,
        71 => 4314,
        72 => 4344,
        73 => 4374,
        74 => 4404,
        75 => 4434,
        76 => 4463,
        77 => 4492,
        78 => 4521,
        79 => 4550,
        80 => 4579,
        81 => 4608,
        82 => 4636,
        83 => 4664,
        84 => 4692,
        85 => 4720,
        86 => 4748,
        87 => 4775,
        88 => 4802,
        89 => 4830,
        90 => 4857,
        91 => 4884,
        92 => 4910,
        93 => 4937,
        94 => 4964,
        95 => 4990,
        96 => 5016,
        97 => 5042,
        98 => 5068,
        99 => 5094,
        100 => 5120,
        101 => 5145,
        102 => 5170,
        103 => 5196,
        104 => 5221,
        105 => 5246,
        106 => 5271,
        107 => 5296,
        108 => 5320,
        109 => 5345,
        110 => 5369,
        111 => 5394,
        112 => 5418,
        113 => 5442,
        114 => 5466,
        115 => 5490,
        116 => 5514,
        117 => 5538,
        118 => 5561,
        119 => 5585,
        120 => 5608,
        121 => 5632,
        122 => 5655,
        123 => 5678,
        124 => 5701,
        125 => 5724,
        126 => 5747,
        _ => 5769,
    }
}

fn root_lookup_part2(i: u16) -> (r: u32)
    requires
        128 <= i < 192,
    ensures
        r == root_part2(i),
{
    match i {
        128 => 5792,
        129 => 5815,
        130 => 5837,
        131 => 5860,
        132 => 5882,
        133 => 5904,
        134 => 5926,
        135 => 5948,
        136 => 5970,
        137 => 5992,
        138 => 6014,
        139 => 6036,
        140 => 6058,
        141 => 6079,
        142 => 6101,
        143 => 6122,
        144 => 6144,
        145 => 6165,
        146 => 6186,
        147 => 6207,
        148 => 6228,
        149 => 6249,
        150 => 6270,
        151 => 6291,
        152 => 6312,
        153 => 6333,
        154 => 6353,
        155 => 6374,
        156 => 6394,
        157 => 6415,
        158 => 6435,
        159 => 6456,
        160 => 6476,
        161 => 6496,
        162 => 6516,
        163 => 6536,
        164 => 6556,
        165 => 6576,
        166 => 6596,
        167 => 6616,
        168 => 6636,
        169 => 6656,
        170 => 6675,
        171 => 6695,
        172 => 6714,
        173 => 6734,
        174 => 6753,
        175 => 6773,
        176 => 6792,
        177 => 6811,
        178 => 6830,
        179 => 6850,
        180 => 6869,
        181 => 6888,
        182 => 6907,
        183 => 6926,
        184 => 6945,
        185 => 6963,
        186 => 6982,
        187 => 7001,
        188 => 7020,
        189 => 7038,
        190 => 7057,
        _ => 7075,
    }
}

fn root_lookup_part3(i: u16) -> (r: u32)
    requires
        192 <= i < 256,
    ensures
        r == root_part3(i),
{
    match i {
        192 => 7094,
        193 => 7112,
        194 => 7131,
        195 => 7149,
        196 => 7168,
        197 => 7186,
        198 => 7204,
        199 => 7222,
        200 => 7240,
        201 => 7258,
        202 => 7276,
        203 => 7294,
        204 => 7312,
        205 => 7330,
        206 => 7348,
        207 => 7366,
        208 => 7384,
        209 => 7401,
        210 => 7419,
        211 => 7437,
        212 => 7454,
        213 => 7472,
        214 => 7489,
        215 => 7507,
        216 => 7524,
        217 => 7542,
        218 => 7559,
        219 => 7576,
        220 => 7594,
        221 => 7611,
        222 => 7628,
        223 => 7645,
        224 => 7662,
        225 => 7680,
        226 => 7697,
        227 => 7714,
        228 => 7731,
        229 => 7747,
        230 => 7764,
        231 => 7781,
        232 => 7798,
        233 => 7815,
        234 => 7832,
        235 => 7848,
        236 => 7865,
        237 => 7882,
        238 => 7898,
        239 => 7915,
        240 => 7931,
        241 => 7948,
        242 => 7964,
        243 => 7981,
        244 => 7997,
        245 => 8014,
        246 => 8030,
        247 => 8046,
        248 => 8062,
        249 => 8079,
        250 => 8095,
        251 => 8111,
        252 => 8127,
        253 => 8143,
        254 => 8159,
        _ => 8175,
    }
}

/// Looks up the square-root table.
pub fn root_lookup(i: u16) -> (r: u32)
    ensures
        r == root_entry(i),
        r <= 8192,
{
    if i < 64 {
        root_lookup_part0(i)
    } else if i < 128 {
        root_lookup_part1(i)
    } else if i < 192 {
        root_lookup_part2(i)
    } else if i < 256 {
        root_lookup_part3(i)
    } else {
        0
    }
}

} // verus!
