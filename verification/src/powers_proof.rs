//! The proof that the table of powers of ten holds what it says: each entry
//! is the leading 128 bits of its power of ten, rounded down.
//!
//! The powers of five and of two are written out, each proved from the one
//! before it, and each entry of the table is held against them.

use vstd::prelude::*;
use vstd::arithmetic::power::pow;
use vstd::arithmetic::power2::{pow2, lemma2_to64, lemma2_to64_rest, lemma_pow2_adds};
use crate::powers::{
    power_floor,
    power_is_floor,
    power_of_10,
    power_of_10_exponent,
    MAX_NORMAL_EXP10,
    MIN_DENORMAL_EXP10,
};
use crate::small_powers::lemma_pow_step;

verus! {

/// `2^0`, written out.
proof fn lemma_pow2_chunk_0()
    ensures
        pow2(0) == 0x1nat,
{
    lemma2_to64();
}

/// `2^64`, written out.
proof fn lemma_pow2_chunk_1()
    ensures
        pow2(64) == 0x10000000000000000nat,
{
    lemma_pow2_chunk_0();
    lemma2_to64();
    lemma_pow2_adds(0, 64);
}

/// `2^128`, written out.
proof fn lemma_pow2_chunk_2()
    ensures
        pow2(128) == 0x100000000000000000000000000000000nat,
{
    lemma_pow2_chunk_1();
    lemma2_to64();
    lemma_pow2_adds(64, 64);
}

/// `2^192`, written out.
proof fn lemma_pow2_chunk_3()
    ensures
        pow2(192) == 0x1000000000000000000000000000000000000000000000000nat,
{
    lemma_pow2_chunk_2();
    lemma2_to64();
    lemma_pow2_adds(128, 64);
}

/// `2^256`, written out.
proof fn lemma_pow2_chunk_4()
    ensures
        pow2(256) == 0x10000000000000000000000000000000000000000000000000000000000000000nat,
{
    lemma_pow2_chunk_3();
    lemma2_to64();
    lemma_pow2_adds(192, 64);
}

/// `2^320`, written out.
proof fn lemma_pow2_chunk_5()
    ensures
        pow2(320) == 0x100000000000000000000000000000000000000000000000000000000000000000000000000000000nat,
{
    lemma_pow2_chunk_4();
    lemma2_to64();
    lemma_pow2_adds(256, 64);
}

/// `2^384`, written out.
proof fn lemma_pow2_chunk_6()
    ensures
        pow2(384) == 0x1000000000000000000000000000000000000000000000000000000000000000000000000000000000000000000000000nat,
{
    lemma_pow2_chunk_5();
    lemma2_to64();
    lemma_pow2_adds(320, 64);
}

/// `2^448`, written out.
proof fn lemma_pow2_chunk_7()
    ensures
        pow2(448) == 0x10000000000000000000000000000000000000000000000000000000000000000000000000000000000000000000000000000000000000000nat,
{
    lemma_pow2_chunk_6();
    lemma2_to64();
    lemma_pow2_adds(384, 64);
}

/// `2^512`, written out.
proof fn lemma_pow2_chunk_8()
    ensures
        pow2(512) == 0x100000000000000000000000000000000000000000000000000000000000000000000000000000000000000000000000000000000000000000000000000000000nat,
{
    lemma_pow2_chunk_7();
    lemma2_to64();
    lemma_pow2_adds(448, 64);
}

/// `2^576`, written out.
proof fn lemma_pow2_chunk_9()
    ensures
        pow2(576) == 0x1000000000000000000000000000000000000000000000000000000000000000000000000000000000000000000000000000000000000000000000000000000000000000000000000nat,
{
    lemma_pow2_chunk_8();
    lemma2_to64();
    lemma_pow2_adds(512, 64);
}

/// `2^640`, written out.
proof fn lemma_pow2_chunk_10()
    ensures
        pow2(640) == 0x10000000000000000000000000000000000000000000000000000000000000000000000000000000000000000000000000000000000000000000000000000000000000000000000000000000000000000nat,
{
    lemma_pow2_chunk_9();
    lemma2_to64();
    lemma_pow2_adds(576, 64);
}

/// `2^704`, written out.
pub(crate) proof fn lemma_pow2_chunk_11()
    ensures
        pow2(704) == 0x100000000000000000000000000000000000000000000000000000000000000000000000000000000000000000000000000000000000000000000000000000000000000000000000000000000000000000000000000000000nat,
{
    lemma_pow2_chunk_10();
    lemma2_to64();
    lemma_pow2_adds(640, 64);
}

/// `2^768`, written out.
pub(crate) proof fn lemma_pow2_chunk_12()
    ensures
        pow2(768) == 0x1000000000000000000000000000000000000000000000000000000000000000000000000000000000000000000000000000000000000000000000000000000000000000000000000000000000000000000000000000000000000000000000000nat,
{
    lemma_pow2_chunk_11();
    lemma2_to64();
    lemma_pow2_adds(704, 64);
}

/// `2^832`, written out.
proof fn lemma_pow2_chunk_13()
    ensures
        pow2(832) == 0x10000000000000000000000000000000000000000000000000000000000000000000000000000000000000000000000000000000000000000000000000000000000000000000000000000000000000000000000000000000000000000000000000000000000000000nat,
{
    lemma_pow2_chunk_12();
    lemma2_to64();
    lemma_pow2_adds(768, 64);
}

/// `2^896`, written out.
proof fn lemma_pow2_chunk_14()
    ensures
        pow2(896) == 0x100000000000000000000000000000000000000000000000000000000000000000000000000000000000000000000000000000000000000000000000000000000000000000000000000000000000000000000000000000000000000000000000000000000000000000000000000000000nat,
{
    lemma_pow2_chunk_13();
    lemma2_to64();
    lemma_pow2_adds(832, 64);
}

/// `2^960`, written out.
proof fn lemma_pow2_chunk_15()
    ensures
        pow2(960) == 0x1000000000000000000000000000000000000000000000000000000000000000000000000000000000000000000000000000000000000000000000000000000000000000000000000000000000000000000000000000000000000000000000000000000000000000000000000000000000000000000000000nat,
{
    lemma_pow2_chunk_14();
    lemma2_to64();
    lemma_pow2_adds(896, 64);
}

/// `5^0`, written out.
proof fn lemma_pow5_0()
    ensures
        pow(5, 0) == 0x1int,
{
    lemma_pow_step(5, 0);
}

/// `5^1`, written out.
proof fn lemma_pow5_1()
    ensures
        pow(5, 1) == 0x5int,
{
    lemma_pow5_0();
    lemma_pow_step(5, 0);
}

/// `5^2`, written out.
proof fn lemma_pow5_2()
    ensures
        pow(5, 2) == 0x19int,
{
    lemma_pow5_1();
    lemma_pow_step(5, 1);
}

/// `5^3`, written out.
proof fn lemma_pow5_3()
    ensures
        pow(5, 3) == 0x7Dint,
{
    lemma_pow5_2();
    lemma_pow_step(5, 2);
}

/// `5^4`, written out.
proof fn lemma_pow5_4()
    ensures
        pow(5, 4) == 0x271int,
{
    lemma_pow5_3();
    lemma_pow_step(5, 3);
}

/// `5^5`, written out.
proof fn lemma_pow5_5()
    ensures
        pow(5, 5) == 0xC35int,
{
    lemma_pow5_4();
    lemma_pow_step(5, 4);
}

/// `5^6`, written out.
proof fn lemma_pow5_6()
    ensures
        pow(5, 6) == 0x3D09int,
{
    lemma_pow5_5();
    lemma_pow_step(5, 5);
}

/// `5^7`, written out.
proof fn lemma_pow5_7()
    ensures
        pow(5, 7) == 0x1312Dint,
{
    lemma_pow5_6();
    lemma_pow_step(5, 6);
}

/// `5^8`, written out.
proof fn lemma_pow5_8()
    ensures
        pow(5, 8) == 0x5F5E1int,
{
    lemma_pow5_7();
    lemma_pow_step(5, 7);
}

/// `5^9`, written out.
proof fn lemma_pow5_9()
    ensures
        pow(5, 9) == 0x1DCD65int,
{
    lemma_pow5_8();
    lemma_pow_step(5, 8);
}

/// `5^10`, written out.
proof fn lemma_pow5_10()
    ensures
        pow(5, 10) == 0x9502F9int,
{
    lemma_pow5_9();
    lemma_pow_step(5, 9);
}

/// `5^11`, written out.
proof fn lemma_pow5_11()
    ensures
        pow(5, 11) == 0x2E90EDDint,
{
    lemma_pow5_10();
    lemma_pow_step(5, 10);
}

/// `5^12`, written out.
proof fn lemma_pow5_12()
    ensures
        pow(5, 12) == 0xE8D4A51int,
{
    lemma_pow5_11();
    lemma_pow_step(5, 11);
}

/// `5^13`, written out.
proof fn lemma_pow5_13()
    ensures
        pow(5, 13) == 0x48C27395int,
{
    lemma_pow5_12();
    lemma_pow_step(5, 12);
}

/// `5^14`, written out.
proof fn lemma_pow5_14()
    ensures
        pow(5, 14) == 0x16BCC41E9int,
{
    lemma_pow5_13();
    lemma_pow_step(5, 13);
}

/// `5^15`, written out.
proof fn lemma_pow5_15()
    ensures
        pow(5, 15) == 0x71AFD498Dint,
{
    lemma_pow5_14();
    lemma_pow_step(5, 14);
}

/// `5^16`, written out.
proof fn lemma_pow5_16()
    ensures
        pow(5, 16) == 0x2386F26FC1int,
{
    lemma_pow5_15();
    lemma_pow_step(5, 15);
}

/// `5^17`, written out.
proof fn lemma_pow5_17()
    ensures
        pow(5, 17) == 0xB1A2BC2EC5int,
{
    lemma_pow5_16();
    lemma_pow_step(5, 16);
}

/// `5^18`, written out.
proof fn lemma_pow5_18()
    ensures
        pow(5, 18) == 0x3782DACE9D9int,
{
    lemma_pow5_17();
    lemma_pow_step(5, 17);
}

/// `5^19`, written out.
proof fn lemma_pow5_19()
    ensures
        pow(5, 19) == 0x1158E460913Dint,
{
    lemma_pow5_18();
    lemma_pow_step(5, 18);
}

/// `5^20`, written out.
proof fn lemma_pow5_20()
    ensures
        pow(5, 20) == 0x56BC75E2D631int,
{
    lemma_pow5_19();
    lemma_pow_step(5, 19);
}

/// `5^21`, written out.
proof fn lemma_pow5_21()
    ensures
        pow(5, 21) == 0x1B1AE4D6E2EF5int,
{
    lemma_pow5_20();
    lemma_pow_step(5, 20);
}

/// `5^22`, written out.
proof fn lemma_pow5_22()
    ensures
        pow(5, 22) == 0x878678326EAC9int,
{
    lemma_pow5_21();
    lemma_pow_step(5, 21);
}

/// `5^23`, written out.
proof fn lemma_pow5_23()
    ensures
        pow(5, 23) == 0x2A5A058FC295EDint,
{
    lemma_pow5_22();
    lemma_pow_step(5, 22);
}

/// `5^24`, written out.
proof fn lemma_pow5_24()
    ensures
        pow(5, 24) == 0xD3C21BCECCEDA1int,
{
    lemma_pow5_23();
    lemma_pow_step(5, 23);
}

/// `5^25`, written out.
proof fn lemma_pow5_25()
    ensures
        pow(5, 25) == 0x422CA8B0A00A425int,
{
    lemma_pow5_24();
    lemma_pow_step(5, 24);
}

/// `5^26`, written out.
proof fn lemma_pow5_26()
    ensures
        pow(5, 26) == 0x14ADF4B7320334B9int,
{
    lemma_pow5_25();
    lemma_pow_step(5, 25);
}

/// `5^27`, written out.
proof fn lemma_pow5_27()
    ensures
        pow(5, 27) == 0x6765C793FA10079Dint,
{
    lemma_pow5_26();
    lemma_pow_step(5, 26);
}

/// `5^28`, written out.
proof fn lemma_pow5_28()
    ensures
        pow(5, 28) == 0x204FCE5E3E2502611int,
{
    lemma_pow5_27();
    lemma_pow_step(5, 27);
}

/// `5^29`, written out.
proof fn lemma_pow5_29()
    ensures
        pow(5, 29) == 0xA18F07D736B90BE55int,
{
    lemma_pow5_28();
    lemma_pow_step(5, 28);
}

/// `5^30`, written out.
proof fn lemma_pow5_30()
    ensures
        pow(5, 30) == 0x327CB2734119D3B7A9int,
{
    lemma_pow5_29();
    lemma_pow_step(5, 29);
}

/// `5^31`, written out.
proof fn lemma_pow5_31()
    ensures
        pow(5, 31) == 0xFC6F7C40458122964Dint,
{
    lemma_pow5_30();
    lemma_pow_step(5, 30);
}

/// `5^32`, written out.
proof fn lemma_pow5_32()
    ensures
        pow(5, 32) == 0x4EE2D6D415B85ACEF81int,
{
    lemma_pow5_31();
    lemma_pow_step(5, 31);
}

/// `5^33`, written out.
proof fn lemma_pow5_33()
    ensures
        pow(5, 33) == 0x18A6E32246C99C60AD85int,
{
    lemma_pow5_32();
    lemma_pow_step(5, 32);
}

/// `5^34`, written out.
proof fn lemma_pow5_34()
    ensures
        pow(5, 34) == 0x7B426FAB61F00DE36399int,
{
    lemma_pow5_33();
    lemma_pow_step(5, 33);
}

/// `5^35`, written out.
proof fn lemma_pow5_35()
    ensures
        pow(5, 35) == 0x2684C2E58E9B04570F1FDint,
{
    lemma_pow5_34();
    lemma_pow_step(5, 34);
}

/// `5^36`, written out.
proof fn lemma_pow5_36()
    ensures
        pow(5, 36) == 0xC097CE7BC90715B34B9F1int,
{
    lemma_pow5_35();
    lemma_pow_step(5, 35);
}

/// `5^37`, written out.
pub(crate) proof fn lemma_pow5_37()
    ensures
        pow(5, 37) == 0x3C2F7086AED236C807A1B5int,
{
    lemma_pow5_36();
    lemma_pow_step(5, 36);
}

/// `5^38`, written out.
proof fn lemma_pow5_38()
    ensures
        pow(5, 38) == 0x12CED32A16A1B11E8262889int,
{
    lemma_pow5_37();
    lemma_pow_step(5, 37);
}

/// `5^39`, written out.
proof fn lemma_pow5_39()
    ensures
        pow(5, 39) == 0x5E0A1FD2712875988BECAADint,
{
    lemma_pow5_38();
    lemma_pow_step(5, 38);
}

/// `5^40`, written out.
proof fn lemma_pow5_40()
    ensures
        pow(5, 40) == 0x1D6329F1C35CA4BFABB9F561int,
{
    lemma_pow5_39();
    lemma_pow_step(5, 39);
}

/// `5^41`, written out.
proof fn lemma_pow5_41()
    ensures
        pow(5, 41) == 0x92EFD1B8D0CF37BE5AA1CAE5int,
{
    lemma_pow5_40();
    lemma_pow_step(5, 40);
}

/// `5^42`, written out.
proof fn lemma_pow5_42()
    ensures
        pow(5, 42) == 0x2DEAF189C140C16B7C528F679int,
{
    lemma_pow5_41();
    lemma_pow_step(5, 41);
}

/// `5^43`, written out.
proof fn lemma_pow5_43()
    ensures
        pow(5, 43) == 0xE596B7B0C643C7196D9CCD05Dint,
{
    lemma_pow5_42();
    lemma_pow_step(5, 42);
}

/// `5^44`, written out.
proof fn lemma_pow5_44()
    ensures
        pow(5, 44) == 0x47BF19673DF52E37F2410011D1int,
{
    lemma_pow5_43();
    lemma_pow_step(5, 43);
}

/// `5^45`, written out.
proof fn lemma_pow5_45()
    ensures
        pow(5, 45) == 0x166BB7F0435C9E717BB45005915int,
{
    lemma_pow5_44();
    lemma_pow_step(5, 44);
}

/// `5^46`, written out.
proof fn lemma_pow5_46()
    ensures
        pow(5, 46) == 0x701A97B150CF18376A85901BD69int,
{
    lemma_pow5_45();
    lemma_pow_step(5, 45);
}

/// `5^47`, written out.
proof fn lemma_pow5_47()
    ensures
        pow(5, 47) == 0x23084F676940B7915149BD08B30Dint,
{
    lemma_pow5_46();
    lemma_pow_step(5, 46);
}

/// `5^48`, written out.
proof fn lemma_pow5_48()
    ensures
        pow(5, 48) == 0xAF298D050E4395D69670B12B7F41int,
{
    lemma_pow5_47();
    lemma_pow_step(5, 47);
}

/// `5^49`, written out.
proof fn lemma_pow5_49()
    ensures
        pow(5, 49) == 0x36BCFC1194751ED30F03375D97C45int,
{
    lemma_pow5_48();
    lemma_pow_step(5, 48);
}

/// `5^50`, written out.
proof fn lemma_pow5_50()
    ensures
        pow(5, 50) == 0x111B0EC57E6499A1F4B1014D3F6D59int,
{
    lemma_pow5_49();
    lemma_pow_step(5, 49);
}

/// `5^51`, written out.
proof fn lemma_pow5_51()
    ensures
        pow(5, 51) == 0x558749DB77F70029C77506823D22BDint,
{
    lemma_pow5_50();
    lemma_pow_step(5, 50);
}

/// `5^52`, written out.
proof fn lemma_pow5_52()
    ensures
        pow(5, 52) == 0x1ABA4714957D300D0E549208B31ADB1int,
{
    lemma_pow5_51();
    lemma_pow_step(5, 51);
}

/// `5^53`, written out.
proof fn lemma_pow5_53()
    ensures
        pow(5, 53) == 0x85A36366EB71F04147A6DA2B7F86475int,
{
    lemma_pow5_52();
    lemma_pow_step(5, 52);
}

/// `5^54`, written out.
proof fn lemma_pow5_54()
    ensures
        pow(5, 54) == 0x29C30F1029939B146664242D97D9F649int,
{
    lemma_pow5_53();
    lemma_pow_step(5, 53);
}

/// `5^55`, written out.
proof fn lemma_pow5_55()
    ensures
        pow(5, 55) == 0xD0CF4B50CFE20765FFF4B4E3F741CF6Dint,
{
    lemma_pow5_54();
    lemma_pow_step(5, 54);
}

/// `5^56`, written out.
proof fn lemma_pow5_56()
    ensures
        pow(5, 56) == 0x4140C78940F6A24FDFFC78873D4490D21int,
{
    lemma_pow5_55();
    lemma_pow_step(5, 55);
}

/// `5^57`, written out.
proof fn lemma_pow5_57()
    ensures
        pow(5, 57) == 0x14643E5AE44D12B8F5FEE5AA43256D41A5int,
{
    lemma_pow5_56();
    lemma_pow_step(5, 56);
}

/// `5^58`, written out.
proof fn lemma_pow5_58()
    ensures
        pow(5, 58) == 0x65F537C675815D9CCDFA7C534FBB224839int,
{
    lemma_pow5_57();
    lemma_pow_step(5, 57);
}

/// `5^59`, written out.
proof fn lemma_pow5_59()
    ensures
        pow(5, 59) == 0x1FDCA16E04B86D41005E46DA08EA7AB691Dint,
{
    lemma_pow5_58();
    lemma_pow_step(5, 58);
}

/// `5^60`, written out.
proof fn lemma_pow5_60()
    ensures
        pow(5, 60) == 0x9F4F2726179A224501D762422C946590D91int,
{
    lemma_pow5_59();
    lemma_pow_step(5, 59);
}

/// `5^61`, written out.
proof fn lemma_pow5_61()
    ensures
        pow(5, 61) == 0x31C8BC3BE7602AB590934EB4ADEE5FBD43D5int,
{
    lemma_pow5_60();
    lemma_pow_step(5, 60);
}

/// `5^62`, written out.
proof fn lemma_pow5_62()
    ensures
        pow(5, 62) == 0xF8EBAD2B84E0D58BD2E0898765A7DEB25329int,
{
    lemma_pow5_61();
    lemma_pow_step(5, 61);
}

/// `5^63`, written out.
proof fn lemma_pow5_63()
    ensures
        pow(5, 63) == 0x4DC9A61D998642BBB1E62AFA4FC47597B9FCDint,
{
    lemma_pow5_62();
    lemma_pow_step(5, 62);
}

/// `5^64`, written out.
proof fn lemma_pow5_64()
    ensures
        pow(5, 64) == 0x184F03E93FF9F4DAA797ED6E38ED64BF6A1F01int,
{
    lemma_pow5_63();
    lemma_pow_step(5, 63);
}

/// `5^65`, written out.
proof fn lemma_pow5_65()
    ensures
        pow(5, 65) == 0x798B138E3FE1C84545F7A3271CA2F7BD129B05int,
{
    lemma_pow5_64();
    lemma_pow_step(5, 64);
}

/// `5^66`, written out.
proof fn lemma_pow5_66()
    ensures
        pow(5, 66) == 0x25FB761C73F68E95A5DD62FC38F2ED6B15D0719int,
{
    lemma_pow5_65();
    lemma_pow_step(5, 65);
}

/// `5^67`, written out.
proof fn lemma_pow5_67()
    ensures
        pow(5, 67) == 0xBDE94E8E43D0C8EC3D52EEED1CBEA3176D1237Dint,
{
    lemma_pow5_66();
    lemma_pow_step(5, 66);
}

/// `5^68`, written out.
proof fn lemma_pow5_68()
    ensures
        pow(5, 68) == 0x3B58E88C75313EC9D329EAAA18FB92F75215B171int,
{
    lemma_pow5_67();
    lemma_pow_step(5, 67);
}

/// `5^69`, written out.
proof fn lemma_pow5_69()
    ensures
        pow(5, 69) == 0x128BC8ABE49F639F11FD195527CE9DED49A6C7735int,
{
    lemma_pow5_68();
    lemma_pow_step(5, 68);
}

/// `5^70`, written out.
proof fn lemma_pow5_70()
    ensures
        pow(5, 70) == 0x5CBAEB5B771CF21B59F17EA9C70915A27041E5409int,
{
    lemma_pow5_69();
    lemma_pow_step(5, 69);
}

/// `5^71`, written out.
proof fn lemma_pow5_71()
    ensures
        pow(5, 71) == 0x1CFA698C95390BA88C1B77950E32D6C2C31497A42Dint,
{
    lemma_pow5_70();
    lemma_pow_step(5, 70);
}

/// `5^72`, written out.
proof fn lemma_pow5_72()
    ensures
        pow(5, 72) == 0x90E40FBEEA1D3A4ABC8955E946FE31CDCF66F634E1int,
{
    lemma_pow5_71();
    lemma_pow_step(5, 71);
}

/// `5^73`, written out.
proof fn lemma_pow5_73()
    ensures
        pow(5, 73) == 0x2D4744EBA92922375AEAEAD8E62F6F9050D02CF0865int,
{
    lemma_pow5_72();
    lemma_pow_step(5, 72);
}

/// `5^74`, written out.
proof fn lemma_pow5_74()
    ensures
        pow(5, 74) == 0xE264589A4DCDAB14C696963C7EED2DD19410E0B29F9int,
{
    lemma_pow5_73();
    lemma_pow_step(5, 73);
}

/// `5^75`, written out.
proof fn lemma_pow5_75()
    ensures
        pow(5, 75) == 0x46BF5BB0385045767E0F0EF2E7AA1E517E454637D1DDint,
{
    lemma_pow5_74();
    lemma_pow_step(5, 74);
}

/// `5^76`, written out.
proof fn lemma_pow5_76()
    ensures
        pow(5, 76) == 0x161BCCA7119915B50764B4ABE86529797775A5F171951int,
{
    lemma_pow5_75();
    lemma_pow_step(5, 75);
}

/// `5^77`, written out.
proof fn lemma_pow5_77()
    ensures
        pow(5, 77) == 0x6E8AFF4357FD6C8924F7875B89F9CF5F554C3DB737E95int,
{
    lemma_pow5_76();
    lemma_pow_step(5, 76);
}

/// `5^78`, written out.
proof fn lemma_pow5_78()
    ensures
        pow(5, 78) == 0x228B6FC50B7F31EADB8D5A4C9B1E10CDCAA7D3494178E9int,
{
    lemma_pow5_77();
    lemma_pow_step(5, 77);
}

/// `5^79`, written out.
proof fn lemma_pow5_79()
    ensures
        pow(5, 79) == 0xACB92ED9397BF99649C2C37F07965404F547206E475C8Dint,
{
    lemma_pow5_78();
    lemma_pow_step(5, 78);
}

/// `5^80`, written out.
proof fn lemma_pow5_80()
    ensures
        pow(5, 80) == 0x35F9DEA3E1F6BDFEF70CDD17B25EFA418CA63A22764CEC1int,
{
    lemma_pow5_79();
    lemma_pow_step(5, 79);
}

/// `5^81`, written out.
proof fn lemma_pow5_81()
    ensures
        pow(5, 81) == 0x10DE1593369D1B5FAD34051767BDAE347BF3F22AC4F809C5int,
{
    lemma_pow5_80();
    lemma_pow_step(5, 80);
}

/// `5^82`, written out.
proof fn lemma_pow5_82()
    ensures
        pow(5, 82) == 0x54566BE0111188DE6204197506B467066BC3BAD5D8D830D9int,
{
    lemma_pow5_81();
    lemma_pow_step(5, 81);
}

/// `5^83`, written out.
proof fn lemma_pow5_83()
    ensures
        pow(5, 83) == 0x1A5B01B605557AC57EA147F49218603201AD2A62D3C38F43Dint,
{
    lemma_pow5_82();
    lemma_pow_step(5, 82);
}

/// `5^84`, written out.
proof fn lemma_pow5_84()
    ensures
        pow(5, 84) == 0x83C7088E1AAB65DB792667C6DA79E0FA0861D3EE22D1CC531int,
{
    lemma_pow5_83();
    lemma_pow_step(5, 83);
}

/// `5^85`, written out.
proof fn lemma_pow5_85()
    ensures
        pow(5, 85) == 0x292E32AC68558FD495DC006E2446164E229E923A6AE18FD9F5int,
{
    lemma_pow5_84();
    lemma_pow_step(5, 84);
}

/// `5^86`, written out.
proof fn lemma_pow5_86()
    ensures
        pow(5, 86) == 0xCDE6FD5E09ABCF26ED4C0226B55E6F86AD18DB241667CF41C9int,
{
    lemma_pow5_85();
    lemma_pow_step(5, 85);
}

/// `5^87`, written out.
proof fn lemma_pow5_87()
    ensures
        pow(5, 87) == 0x40582F2D6305B0BC2A27C0AC18AD82DA1617C47B470070C48EDint,
{
    lemma_pow5_86();
    lemma_pow_step(5, 86);
}

/// `5^88`, written out.
proof fn lemma_pow5_88()
    ensures
        pow(5, 88) == 0x141B8EBE2EF1C73ACD2C6C35C7B638E426E76D668630233D6CA1int,
{
    lemma_pow5_87();
    lemma_pow_step(5, 87);
}

/// `5^89`, written out.
proof fn lemma_pow5_89()
    ensures
        pow(5, 89) == 0x6489C9B6EAB8E42601DE1D0CE68F1C74C28523009EF0B0331F25int,
{
    lemma_pow5_88();
    lemma_pow_step(5, 88);
}

/// `5^90`, written out.
proof fn lemma_pow5_90()
    ensures
        pow(5, 90) == 0x1F6B0F092959C74BE0956914080CB8E47CC99AF031AB370FF9BB9int,
{
    lemma_pow5_89();
    lemma_pow_step(5, 89);
}

/// `5^91`, written out.
proof fn lemma_pow5_91()
    ensures
        pow(5, 91) == 0x9D174B2DCEC0E47B62EB0D64283F9C766FF006B0F858134FE0A9Dint,
{
    lemma_pow5_90();
    lemma_pow_step(5, 90);
}

/// `5^92`, written out.
proof fn lemma_pow5_92()
    ensures
        pow(5, 92) == 0x3117477E509C47668EE9742F4C93E0E502FB02174D9B8608F63511int,
{
    lemma_pow5_91();
    lemma_pow_step(5, 91);
}

/// `5^93`, written out.
proof fn lemma_pow5_93()
    ensures
        pow(5, 93) == 0xF5746577930D6500CA8F44EC7EE364790EE70A7484099E2CCF0955int,
{
    lemma_pow5_92();
    lemma_pow_step(5, 92);
}

/// `5^94`, written out.
proof fn lemma_pow5_94()
    ensures
        pow(5, 94) == 0x4CB45FB55DF42F903F4CC589E7A70F65D4A833446943016E00B2EA9int,
{
    lemma_pow5_93();
    lemma_pow_step(5, 93);
}

/// `5^95`, written out.
proof fn lemma_pow5_95()
    ensures
        pow(5, 95) == 0x17F85DE8AD5C4EDD13C7FDBB186434CFD274900560E4F0726037E94Dint,
{
    lemma_pow5_94();
    lemma_pow_step(5, 94);
}

/// `5^96`, written out.
proof fn lemma_pow5_96()
    ensures
        pow(5, 96) == 0x77D9D58B62CD8A5162E7F4A779F5080F1C46D01AE478B23BE1178E81int,
{
    lemma_pow5_95();
    lemma_pow_step(5, 95);
}

/// `5^97`, written out.
proof fn lemma_pow5_97()
    ensures
        pow(5, 97) == 0x257412BB8EE03B396EE87C74561C9284B8D621086765B7B2B6575C885int,
{
    lemma_pow5_96();
    lemma_pow_step(5, 96);
}

/// `5^98`, written out.
proof fn lemma_pow5_98()
    ensures
        pow(5, 98) == 0xBB445DA9CA61281F2A8A6E45AE8EDC979C2EA52A04FC967D8FB4CEA99int,
{
    lemma_pow5_97();
    lemma_pow_step(5, 97);
}

/// `5^99`, written out.
proof fn lemma_pow5_99()
    ensures
        pow(5, 99) == 0x3A855D450F3E5C89BD4B4275C68CA4EF60CE939D218EEF073CE88094FDint,
{
    lemma_pow5_98();
    lemma_pow_step(5, 98);
}

/// `5^100`, written out.
proof fn lemma_pow5_100()
    ensures
        pow(5, 100) == 0x1249AD2594C37CEB0B2784C4CE0BF38ACE408E211A7CAAB24308A82E8F1int,
{
    lemma_pow5_99();
    lemma_pow_step(5, 99);
}

/// `5^101`, written out.
proof fn lemma_pow5_101()
    ensures
        pow(5, 101) == 0x5B7061BBE7D1709737C597D8063BC1B60742C6A5846F557B4F2B48E8CB5int,
{
    lemma_pow5_100();
    lemma_pow_step(5, 100);
}

/// `5^102`, written out.
proof fn lemma_pow5_102()
    ensures
        pow(5, 102) == 0x1C931E8AB871732F416DBF7381F2AC88E244DE13B962CAB688BD86C8BF89int,
{
    lemma_pow5_101();
    lemma_pow_step(5, 101);
}

/// `5^103`, written out.
proof fn lemma_pow5_103()
    ensures
        pow(5, 103) == 0x8EDF98B59A373FEC4724BD4189BD5EAC6B5856629EEDF590ABB3A1EBBDADint,
{
    lemma_pow5_102();
    lemma_pow_step(5, 102);
}

/// `5^104`, written out.
proof fn lemma_pow5_104()
    ensures
        pow(5, 104) == 0x2CA5DFB8C03143F9D63B7B247B0B2D95E18B9AFED1AA5CBD35A82299AB461int,
{
    lemma_pow5_103();
    lemma_pow_step(5, 103);
}

/// `5^105`, written out.
proof fn lemma_pow5_105()
    ensures
        pow(5, 105) == 0xDF3D5E9BC0F653E12F2967B66737E3ED67BA06FA1853CFB20C48AD00585E5int,
{
    lemma_pow5_104();
    lemma_pow_step(5, 104);
}

/// `5^106`, written out.
proof fn lemma_pow5_106()
    ensures
        pow(5, 106) == 0x45C32D90AC4CFA365EBCF0690041773A306A222E279A30E7A3D6B6101B9D79int,
{
    lemma_pow5_105();
    lemma_pow_step(5, 105);
}

/// `5^107`, written out.
proof fn lemma_pow5_107()
    ensures
        pow(5, 107) == 0x15CCFE3D35D80E30FD9B0B20D01475422F212AAE6C602F48633318E508A135Dint,
{
    lemma_pow5_106();
    lemma_pow_step(5, 106);
}

/// `5^108`, written out.
proof fn lemma_pow5_108()
    ensures
        pow(5, 108) == 0x6D00F7320D3846F4F40737A410664A4AEBA5D5681DE0EC69EFFF7C792B260D1int,
{
    lemma_pow5_107();
    lemma_pow_step(5, 107);
}

/// `5^109`, written out.
proof fn lemma_pow5_109()
    ensures
        pow(5, 109) == 0x22104D3FA421962C8C424163451FF73769A3D2B0895649E11AFFD6E5DD7BE415int,
{
    lemma_pow5_108();
    lemma_pow_step(5, 108);
}

/// `5^110`, written out.
proof fn lemma_pow5_110()
    ensures
        pow(5, 110) == 0xAA51823E34A7EEDEBD4B46F0599FD41510331D72AEAF716586FF327D536B7469int,
{
    lemma_pow5_109();
    lemma_pow_step(5, 109);
}

/// `5^111`, written out.
proof fn lemma_pow5_111()
    ensures
        pow(5, 111) == 0x353978B370747AA59B27862B1C01F246950FF933D696D36FBA2FBFC72A119460Dint,
{
    lemma_pow5_110();
    lemma_pow_step(5, 110);
}

/// `5^112`, written out.
proof fn lemma_pow5_112()
    ensures
        pow(5, 112) == 0x10A1F5B813246653C07C59ED78C09BB60E94FDE0330F2212EA2EEBEE3D257E5E41int,
{
    lemma_pow5_111();
    lemma_pow_step(5, 111);
}

/// `5^113`, written out.
proof fn lemma_pow5_113()
    ensures
        pow(5, 113) == 0x5329CC985FB5FFA2C26DC1A35BC30A8E48E8F560FF4BAA5E92EA9BA731BB77D745int,
{
    lemma_pow5_112();
    lemma_pow_step(5, 112);
}

/// `5^114`, written out.
proof fn lemma_pow5_114()
    ensures
        pow(5, 114) == 0x19FD0FEF9DE8DFE2DCC24C830CACF34C76C8CCAE4FC7A53D8DE950A43F8A9573459int,
{
    lemma_pow5_113();
    lemma_pow_step(5, 113);
}

/// `5^115`, written out.
proof fn lemma_pow5_115()
    ensures
        pow(5, 115) == 0x81F14FAE158C5F6E4FCB7E8F3F60C07E51EBFF678EE63A33C58E93353DB4EB405BDint,
{
    lemma_pow5_114();
    lemma_pow_step(5, 114);
}

/// `5^116`, written out.
proof fn lemma_pow5_116()
    ensures
        pow(5, 116) == 0x289B68E666BBDDD278EF978CC3CE3C277999BFD05CA7F2302DBC8E00A34889841CB1int,
{
    lemma_pow5_115();
    lemma_pow_step(5, 115);
}

/// `5^117`, written out.
proof fn lemma_pow5_117()
    ensures
        pow(5, 117) == 0xCB090C8001AB551C5CADF5BFD3072CC56000BF11CF47BAF0E4AEC603306AAF948F75int,
{
    lemma_pow5_116();
    lemma_pow_step(5, 116);
}

/// `5^118`, written out.
proof fn lemma_pow5_118()
    ensures
        pow(5, 118) == 0x3F72D3E800858A98DCF65CCBF1F23DFDAE003BB590C66A6B47769DE0FF2156DE6CD49int,
{
    lemma_pow5_117();
    lemma_pow_step(5, 117);
}

/// `5^119`, written out.
proof fn lemma_pow5_119()
    ensures
        pow(5, 119) == 0x13D3E2388029BB4FC50CFCFFBB9BB35F466012A8BD3E0141865511564FBA6B2582026Dint,
{
    lemma_pow5_118();
    lemma_pow_step(5, 118);
}

/// `5^120`, written out.
proof fn lemma_pow5_120()
    ensures
        pow(5, 120) == 0x63236B1A80D0A88ED940F0FEAA0A80DC5FE05D4BB23606479FA956AF8EA417BB8A0C21int,
{
    lemma_pow5_119();
    lemma_pow_step(5, 119);
}

/// `5^121`, written out.
proof fn lemma_pow5_121()
    ensures
        pow(5, 121) == 0x1EFB1178484134ACA3E44B4F95234844DDF61D27A7B0E1F661E4EB16DC93476A9B23CA5int,
{
    lemma_pow5_120();
    lemma_pow_step(5, 120);
}

/// `5^122`, written out.
proof fn lemma_pow5_122()
    ensures
        pow(5, 122) == 0x9AE757596946075F3375788DE9B0695855CE91C6467469CFE97897724EE0651507B2F39int,
{
    lemma_pow5_121();
    lemma_pow_step(5, 121);
}

/// `5^123`, written out.
proof fn lemma_pow5_123()
    ensures
        pow(5, 123) == 0x30684B4BF0E5E24DC014B5AC590720EB9AD08D8DF6046110F8F5AF53B8A61F969267EC1Dint,
{
    lemma_pow5_122();
    lemma_pow_step(5, 122);
}

/// `5^124`, written out.
proof fn lemma_pow5_124()
    ensures
        pow(5, 124) == 0xF209787BB47D6B84C0678C5DBD23A49A0612C3C5CE15E554DCCC6CA29B3E9DF0DC079C91int,
{
    lemma_pow5_123();
    lemma_pow_step(5, 123);
}

/// `5^125`, written out.
proof fn lemma_pow5_125()
    ensures
        pow(5, 125) == 0x4BA2F5A6A86731997C205BDD4B1B237021E5DD2DD066D7AA84FFE1F2D083915B44C260ED5int,
{
    lemma_pow5_124();
    lemma_pow_step(5, 124);
}

/// `5^126`, written out.
proof fn lemma_pow5_126()
    ensures
        pow(5, 126) == 0x17A2ECC414A03F7FF6CA1CB527787B130A97D51E51202365498FF69BE1291D6C857CBE4A29int,
{
    lemma_pow5_125();
    lemma_pow_step(5, 125);
}

/// `5^127`, written out.
proof fn lemma_pow5_127()
    ensures
        pow(5, 127) == 0x762E9FD467213D7FD1F28F89C55A675F34F7299795A0B0FA6FCFD10B65CD931E9B6FB772CDint,
{
    lemma_pow5_126();
    lemma_pow_step(5, 126);
}

/// `5^128`, written out.
proof fn lemma_pow5_128()
    ensures
        pow(5, 128) == 0x24EE91F2603A6337F19BCCDB0DAC404DC08D3CFF5EC2374E42F0F1538FD03DF99092E953E01int,
{
    lemma_pow5_127();
    lemma_pow_step(5, 127);
}

/// `5^129`, written out.
proof fn lemma_pow5_129()
    ensures
        pow(5, 129) == 0xB8A8D9BBE123F017B80B0047445D4184C2C230FCD9CB14874EB4B6A1CF1135DFD2DE8EA3605int,
{
    lemma_pow5_128();
    lemma_pow_step(5, 128);
}

/// `5^130`, written out.
proof fn lemma_pow5_130()
    ensures
        pow(5, 130) == 0x39B4C40AB65B3B0769837016455D24797CDCAF4F040F766A4898791290B560D5F1E58C930E19int,
{
    lemma_pow5_129();
    lemma_pow_step(5, 129);
}

/// `5^131`, written out.
proof fn lemma_pow5_131()
    ensures
        pow(5, 131) == 0x12087D4358FC827250F91306F5AD1B65F704F6C8B144D50136AFA5D5CD38AE42DB97BBEDF467Dint,
{
    lemma_pow5_130();
    lemma_pow_step(5, 130);
}

/// `5^132`, written out.
proof fn lemma_pow5_132()
    ensures
        pow(5, 132) == 0x5A2A7250BCEE8C3B94DD5F22CC6188FDD318D1EB76582906116E3D2D021B674E49F6ABA5C6071int,
{
    lemma_pow5_131();
    lemma_pow_step(5, 131);
}

/// `5^133`, written out.
proof fn lemma_pow5_133()
    ensures
        pow(5, 133) == 0x1C2D43B93B0A8BD29E852DBADFDE7ACF51F7C19994FB8CD1E572731E10A89048771D15A3CDE235int,
{
    lemma_pow5_132();
    lemma_pow_step(5, 132);
}

/// `5^134`, written out.
proof fn lemma_pow5_134()
    ensures
        pow(5, 134) == 0x8CE2529E2734BB1D1899E4A65F58660C99D6C7FFE8E9C0197B3C3F96534AD16A53916C33056B09int,
{
    lemma_pow5_133();
    lemma_pow_step(5, 133);
}

/// `5^135`, written out.
proof fn lemma_pow5_135()
    ensures
        pow(5, 135) == 0x2C06B9D16C407A7917B01773FDCB9FE3F0131E7FF8C90C07F682D3DEFA0761713A1D71CFF1B172Dint,
{
    lemma_pow5_134();
    lemma_pow_step(5, 134);
}

/// `5^136`, written out.
proof fn lemma_pow5_136()
    ensures
        pow(5, 136) == 0xDC21A1171D42645D76707543F4FA1F73B05F987FDBED3C27D08E235AE224E7362293390FB8773E1int,
{
    lemma_pow5_135();
    lemma_pow_step(5, 135);
}

/// `5^137`, written out.
proof fn lemma_pow5_137()
    ensures
        pow(5, 137) == 0x44CA82573924BF5D350324A53C8E29D4271DDFA7F4BA22CC712C6B0C66AB8840EACE01D4E9A54365int,
{
    lemma_pow5_136();
    lemma_pow_step(5, 136);
}

/// `5^138`, written out.
proof fn lemma_pow5_138()
    ensures
        pow(5, 138) == 0x157F48BB41DB7BCD2090FB73A2EC6D124C3955E47C7A2ADFE35DE173E0159A94496060928903A50F9int,
{
    lemma_pow5_137();
    lemma_pow_step(5, 137);
}

/// `5^139`, written out.
proof fn lemma_pow5_139()
    ensures
        pow(5, 139) == 0x6B7C6BA849496B01A2D4E9422E9E215B7D1EAD766E62D65F70D56743606C04E56EE1E2DCAD12394DDint,
{
    lemma_pow5_138();
    lemma_pow_step(5, 138);
}

/// `5^140`, written out.
proof fn lemma_pow5_140()
    ensures
        pow(5, 140) == 0x2196E1A496E6F17082E288E4AE916A6C97199635027EE2FDD342B0450E21C187B2A696E4F615B1E851int,
{
    lemma_pow5_139();
    lemma_pow_step(5, 139);
}

/// `5^141`, written out.
proof fn lemma_pow5_141()
    ensures
        pow(5, 141) == 0xA7F26836F282B7328E6CAC7768D7141EF37FEF090C7A6EF5204D715946A8C7A67D40F278CE6C798995int,
{
    lemma_pow5_140();
    lemma_pow_step(5, 140);
}

/// `5^142`, written out.
proof fn lemma_pow5_142()
    ensures
        pow(5, 142) == 0x347BC0912BC8D93FCC81F5E550C33649AC17FAB2D3E642AC9A18336BE614BE6407244BC5C081E5FAFE9int,
{
    lemma_pow5_141();
    lemma_pow_step(5, 141);
}

/// `5^143`, written out.
proof fn lemma_pow5_143()
    ensures
        pow(5, 143) == 0x1066AC2D5DAEC3E3EFE89CD7A93D00F705C77E57E237F4D5F0279011B7E67B7F423B57ADCC2897DE6F8Dint,
{
    lemma_pow5_142();
    lemma_pow_step(5, 142);
}

/// `5^144`, written out.
proof fn lemma_pow5_144()
    ensures
        pow(5, 144) == 0x52015CE2D469D373AF8B10364E3104D31CE577B76B17C82DB0C5D0589780697C4B28B664FCCAF7582DC1int,
{
    lemma_pow5_143();
    lemma_pow_step(5, 143);
}

/// `5^145`, written out.
proof fn lemma_pow5_145()
    ensures
        pow(5, 145) == 0x19A06D06E261121426DB7510F86F5181F907B56951776E8E473DD11BAF5820F6D77CB8FF8EFF6D4B8E4C5int,
{
    lemma_pow5_144();
    lemma_pow_step(5, 144);
}

/// `5^146`, written out.
proof fn lemma_pow5_146()
    ensures
        pow(5, 146) == 0x802221226BE55A64C2494954DA2C9789DD268B0E975528C76435158A6CB8A4D2356F9CFDCAFD2279C77D9int,
{
    lemma_pow5_145();
    lemma_pow_step(5, 145);
}

/// `5^147`, written out.
proof fn lemma_pow5_147()
    ensures
        pow(5, 147) == 0x280AAA5AC1B7AC3F7CB6E6EA842DEF5B151C0B748F4A9CBE4F5096BB41F9B381B0B2E10F4F6F1AC60E573Dint,
{
    lemma_pow5_146();
    lemma_pow_step(5, 146);
}

/// `5^148`, written out.
proof fn lemma_pow5_148()
    ensures
        pow(5, 148) == 0xC83553C5C8965D3D6F92829494E5ACC7698C3946CC750FB78C92F1A849E08188737E654C8D2B85DE47B431int,
{
    lemma_pow5_147();
    lemma_pow_step(5, 147);
}

/// `5^149`, written out.
proof fn lemma_pow5_149()
    ensures
        pow(5, 149) == 0x3E90AA2DCEAEFD2332DDC8CE6E87C5FE50FBD1E61FE494E95BEDEB849716287AA4177FA7EC1D99D576684F5int,
{
    lemma_pow5_148();
    lemma_pow_step(5, 148);
}

/// `5^150`, written out.
proof fn lemma_pow5_150()
    ensures
        pow(5, 150) == 0x138D352E5096AF1AFFE54EC0828A6DDF794EB197E9F76E88ECBA59996F36ECA6534757E479C94012B50098C9int,
{
    lemma_pow5_149();
    lemma_pow_step(5, 149);
}

/// `5^151`, written out.
proof fn lemma_pow5_151()
    ensures
        pow(5, 151) == 0x61C209E792F16B86FF7A89C28CB4255D5E8977F791D528AC9FA3BFFF2C129F3FA064B77660EE405D8902FBEDint,
{
    lemma_pow5_150();
    lemma_pow_step(5, 150);
}

/// `5^152`, written out.
proof fn lemma_pow5_152()
    ensures
        pow(5, 152) == 0x1E8CA3185DEB719A2FD64B0CCBF84BAD2D8AF57D5D929CB5F1E32BFFBDC5D1C3E21F7954FE4A741D3AD0EEBA1int,
{
    lemma_pow5_151();
    lemma_pow_step(5, 151);
}

/// `5^153`, written out.
proof fn lemma_pow5_153()
    ensures
        pow(5, 153) == 0x98BF2F79D5993802EF2F773FFBD97A61E3B6CB72D3DD0F8DB96FDBFEB4DD18D36A9D5EA8F77444922614A9A25int,
{
    lemma_pow5_152();
    lemma_pow_step(5, 152);
}

/// `5^154`, written out.
proof fn lemma_pow5_154()
    ensures
        pow(5, 154) == 0x2FBBBED612BFE180EABED543FEB3F63E97291F93E23514DC49F2F4BF988517C211512D94CD54556DABE67502B9int,
{
    lemma_pow5_153();
    lemma_pow_step(5, 153);
}

/// `5^155`, written out.
proof fn lemma_pow5_155()
    ensures
        pow(5, 155) == 0xEEAABA2E5DBF678495BA2A53F983CF38F3CD9DE36B09684D71BEC7BDFA9976CA5695E3E802A5AB245B80490D9Dint,
{
    lemma_pow5_154();
    lemma_pow_step(5, 154);
}

/// `5^156`, written out.
proof fn lemma_pow5_156()
    ensures
        pow(5, 156) == 0x4A955A2E7D4BD0596ECA2D3A3DF930C1CC3041571172F098338B9E6B5E4FF51F3B0ED73880D3C57B5C9816D4411int,
{
    lemma_pow5_155();
    lemma_pow_step(5, 155);
}

/// `5^157`, written out.
proof fn lemma_pow5_157()
    ensures
        pow(5, 157) == 0x174EAC2E8727B11BF29F2E22335DDF3C8FCF146B3573EB2F901BA1818D78FC99C274A341A8422DB68CEF87225455int,
{
    lemma_pow5_156();
    lemma_pow_step(5, 156);
}

/// `5^158`, written out.
proof fn lemma_pow5_158()
    ensures
        pow(5, 158) == 0x74895CE8A3C6758BBD1BE6AB00D55C2ECF0B66180B4397EDD08A2787C35CEF00CC473048494AE490C0ADA3ABA5A9int,
{
    lemma_pow5_157();
    lemma_pow_step(5, 157);
}

/// `5^159`, written out.
proof fn lemma_pow5_159()
    ensures
        pow(5, 159) == 0x246AED08B32E04BBAB18B8157042ACCEA0B38FE783851F7A512B2C5A6D0D0AB03FD63F1696E7676D3C364325A3C4Dint,
{
    lemma_pow5_158();
    lemma_pow_step(5, 158);
}

/// `5^160`, written out.
proof fn lemma_pow5_160()
    ensures
        pow(5, 160) == 0xB616A12B7FE617AA577B986B314D60092381CF8591999D6395D7DDC4214135713F2F3B70F28505222D0F4FBC32D81int,
{
    lemma_pow5_159();
    lemma_pow_step(5, 159);
}

/// `5^161`, written out.
proof fn lemma_pow5_161()
    ensures
        pow(5, 161) == 0x38E7125D97F7E7653B569FA17F682E02DB1890D9BD80012F1ED3754D4A6460B363BEC2934BC9919AAE14C8EACFE385int,
{
    lemma_pow5_160();
    lemma_pow_step(5, 160);
}

/// `5^162`, written out.
proof fn lemma_pow5_162()
    ensures
        pow(5, 162) == 0x11C835BD3F7D784FA28B11E277D08E60E477AD440B38005EB9A214A8273F5E380F2B9CCE07AEFD8056667EC960F7199int,
{
    lemma_pow5_161();
    lemma_pow_step(5, 161);
}

/// `5^163`, written out.
proof fn lemma_pow5_163()
    ensures
        pow(5, 163) == 0x58E90CB23D73598E2CB7596C5712C7E476566254381801D9A02A6748C43CD7184BDA1006266AF381B00079EEE4D37FDint,
{
    lemma_pow5_162();
    lemma_pow_step(5, 162);
}

/// `5^164`, written out.
proof fn lemma_pow5_164()
    ensures
        pow(5, 164) == 0x1BC8D3F7B3340BFC6DF94BF1DB35DE7764FAFEBA51878094020D4046BD53033797B42501EC016C188700261AA78217F1int,
{
    lemma_pow5_163();
    lemma_pow_step(5, 163);
}

/// `5^165`, written out.
proof fn lemma_pow5_165()
    ensures
        pow(5, 165) == 0x8AEC23D680043BEE25DE7BB9480D5854F8E6F9A397A582E40A424161B29F1015F684B9099C071C7AA300BE85458A77B5int,
{
    lemma_pow5_164();
    lemma_pow_step(5, 164);
}

/// `5^166`, written out.
proof fn lemma_pow5_166()
    ensures
        pow(5, 166) == 0x2B69CB33080152BA6BD586A9E6842B9A8DC82E031F63B8E74334B46E87D1B506DD0979D300C238E652F03B89A5BB45689int,
{
    lemma_pow5_165();
    lemma_pow_step(5, 165);
}

/// `5^167`, written out.
proof fn lemma_pow5_167()
    ensures
        pow(5, 167) == 0xD910F7FF28069DA41B2BA1518094DA04C4E8E60F9CF29C8450078628A7188922512F611F03CB1C7F9EB129B03CA85B0ADint,
{
    lemma_pow5_166();
    lemma_pow_step(5, 166);
}

/// `5^168`, written out.
proof fn lemma_pow5_168()
    ensures
        pow(5, 168) == 0x43D54D7FBC821143487DA269782E84217D88C7E4E10BD0E9590259ECB437AADAB95ECE59B12F78E7E1975D0712F49C7361int,
{
    lemma_pow5_167();
    lemma_pow_step(5, 167);
}

/// `5^169`, written out.
proof fn lemma_pow5_169()
    ensures
        pow(5, 169) == 0x1532A837EAE8A56506A742C0F58E894A773ABE778653B148EBD0BC19F851656459EDA07C075ED5C8767F4D1235EC70E40E5int,
{
    lemma_pow5_168();
    lemma_pow_step(5, 168);
}

/// `5^170`, written out.
proof fn lemma_pow5_170()
    ensures
        pow(5, 170) == 0x69FD4917968B3AF921444DC4CBC8AE745425B8559FA2766C9B13AC81D996FAF5C1A4226C24DA2CEA507C815B0D9E3474479int,
{
    lemma_pow5_169();
    lemma_pow_step(5, 169);
}

/// `5^171`, written out.
proof fn lemma_pow5_171()
    ensures
        pow(5, 171) == 0x211F26D75F0B826DDA65584D7FAEB6845A4BC99AC1E2C501F07625E893FF2E6CCC834AC1CB842E093926E86C74417064565Dint,
{
    lemma_pow5_170();
    lemma_pow_step(5, 170);
}

/// `5^172`, written out.
proof fn lemma_pow5_172()
    ensures
        pow(5, 172) == 0xA59BC234DB398C2543FAB9837E699095C37AF005C96DD909B24EBD8AE3FBE81FFE9075C8F994E62E1DC28A1E454731F5AFD1int,
{
    lemma_pow5_171();
    lemma_pow_step(5, 171);
}

/// `5^173`, written out.
proof fn lemma_pow5_173()
    ensures
        pow(5, 173) == 0x33C0ACB08481FBCBA53E59F91780FD2ECD166B01CEF253D307B89B3B673EB889FF8D24CECDFE87EE694CCB2975A63F9CC6F15int,
{
    lemma_pow5_172();
    lemma_pow_step(5, 172);
}

/// `5^174`, written out.
proof fn lemma_pow5_174()
    ensures
        pow(5, 174) == 0x102C35F729689EAFA3A37C1DD7584F1EA017017090ABBA31F269B082904399AB1FDC1B80A05F8A7A80E7FF7CF4C3F3E0FE2B69int,
{
    lemma_pow5_173();
    lemma_pow_step(5, 173);
}

/// `5^175`, written out.
proof fn lemma_pow5_175()
    ensures
        pow(5, 175) == 0x50DD0DD3CF0B196E32316C9534B98B9920730732D35AA2F9BC10728CD15200579F4C898321DDB4648487FD70C7D3C364F6D90Dint,
{
    lemma_pow5_174();
    lemma_pow_step(5, 174);
}

/// `5^176`, written out.
proof fn lemma_pow5_176()
    ensures
        pow(5, 176) == 0x1945145230B377F26FAF71EEA079FB9FDA23F23FE20C52EE0AC523CC0169A01B61C7EAF8FA95485F696A7F333E722D0F8D23D41int,
{
    lemma_pow5_175();
    lemma_pow_step(5, 175);
}

/// `5^177`, written out.
proof fn lemma_pow5_177()
    ensures
        pow(5, 177) == 0x7E59659AF38157BC2E6D39A92261EA1F42B3BB3F6A3D9EA635D9B2FC07102088E8E796DCE4EA69DD0F147C00383AE14DC1B3245int,
{
    lemma_pow5_176();
    lemma_pow_step(5, 176);
}

/// `5^178`, written out.
proof fn lemma_pow5_178()
    ensures
        pow(5, 178) == 0x277BEFC06C186B6ACE822204DABE9929C4D82A83D1334193F0D407EEC2350A2AC8C85F250789411514B666C0119266684C87FB59int,
{
    lemma_pow5_177();
    lemma_pow_step(5, 177);
}

/// `5^179`, written out.
proof fn lemma_pow5_179()
    ensures
        pow(5, 179) == 0xC56BAEC21C7A1916088AAA1845B8FDD0D838D493160047E3B42427A9CB0932D5EBE9DBB925AE4569679001C057DC00097EA7E8BDint,
{
    lemma_pow5_178();
    lemma_pow_step(5, 178);
}

/// `5^180`, written out.
proof fn lemma_pow5_180()
    ensures
        pow(5, 180) == 0x3DB1A69CA8E627D6E2AB552795C9CF514391C26DF6E01677284B4C650F72DFE2D9B914A9DBC675B0F05D008C1B74C002F79478BB1int,
{
    lemma_pow5_179();
    lemma_pow_step(5, 179);
}

/// `5^181`, written out.
proof fn lemma_pow5_181()
    ensures
        pow(5, 181) == 0x13478410F4C7EC7326D58A9C5ECF10C9651D8CC25D2607053C9787DF94D3E5F6E409D67514AE04C74B1D102BC8947C00ED5E65BA75int,
{
    lemma_pow5_180();
    lemma_pow_step(5, 180);
}

/// `5^182`, written out.
proof fn lemma_pow5_182()
    ensures
        pow(5, 182) == 0x60659454C7E79E3FC22BB50DDA0B53EEF993BFCBD1BE231A2EF5A75DE8237DD274313049676617E4779150DAEAE66C04A2D7FCA449int,
{
    lemma_pow5_181();
    lemma_pow_step(5, 181);
}

/// `5^183`, written out.
proof fn lemma_pow5_183()
    ensures
        pow(5, 183) == 0x1E1FBE5A7E786173ECADA89454238A3AADFE2BEFB18B6AF82EACC44D588B1751C44F5F16F04FE777655D6944696801C172E37EF356Dint,
{
    lemma_pow5_182();
    lemma_pow_step(5, 182);
}

/// `5^184`, written out.
proof fn lemma_pow5_184()
    ensures
        pow(5, 184) == 0x969EB7C47859E7439F644AE5A4B1B32565F6DBAE77B916D8E95FD582BAB77498D58CDB72B18F8554FAD30E560F0808C73E717AC0B21int,
{
    lemma_pow5_183();
    lemma_pow_step(5, 183);
}

/// `5^185`, written out.
proof fn lemma_pow5_185()
    ensures
        pow(5, 185) == 0x2F11996D659C184521CF5767C37787FBAFDD24A68569D723C8EDF2B8DA59546FC2BC0493D77CD9AA8E61F47AE4B282BE4383765C37A5int,
{
    lemma_pow5_184();
    lemma_pow_step(5, 184);
}

/// `5^186`, written out.
proof fn lemma_pow5_186()
    ensures
        pow(5, 186) == 0xEB57FF22FC0C7959A90CB506D155A7EA6F51B7409B1133B2ECA5BD9C43BEA62ECDAC16E335704054C7E9C666777C8DB751914FCD1639int,
{
    lemma_pow5_185();
    lemma_pow_step(5, 185);
}

/// `5^187`, written out.
proof fn lemma_pow5_187()
    ensures
        pow(5, 187) == 0x498B7FBAEEC3E5EC04D3F892216AC47942C9894430756027E9F3CB40D52B93EEA045C72700B3141A7E790E000556EC49497D68F016F1Dint,
{
    lemma_pow5_186();
    lemma_pow_step(5, 186);
}

/// `5^188`, written out.
proof fn lemma_pow5_188()
    ensures
        pow(5, 188) == 0x16FB97EA6A9D37D9C1823DADAA715D65E4DEFAE54F24AE0C791C2F84429D9E3A9215CE3C3037F6484785D46001AB29D6E6F730CB072B91int,
{
    lemma_pow5_187();
    lemma_pow_step(5, 187);
}

/// `5^189`, written out.
proof fn lemma_pow5_189()
    ensures
        pow(5, 189) == 0x72E9F79415121740C78B34645436D2FD785AE67A8BB7663E5D8CED954D141724DA6D072CF117CF69659D25E00857D13282D3F3F723D9D5int,
{
    lemma_pow5_188();
    lemma_pow_step(5, 188);
}

/// `5^190`, written out.
proof fn lemma_pow5_190()
    ensures
        pow(5, 190) == 0x23E91D5E4695A7443E5B805F5A5121EF359C68064BA94FF37D3C0A3EA816473B8442123E0B5770D0EFC11BD6029B715FC8E23C3D3B34129int,
{
    lemma_pow5_189();
    lemma_pow_step(5, 189);
}

/// `5^191`, written out.
proof fn lemma_pow5_191()
    ensures
        pow(5, 191) == 0xB38D92D760EC445537C981DCC395A9AC0C0E081F7A4E8FC1722C3339486F6429954A5B3638B53414AEC58B2E0D0936DEEC6B2D3228045CDint,
{
    lemma_pow5_190();
    lemma_pow_step(5, 190);
}

/// `5^192`, written out.
proof fn lemma_pow5_192()
    ensures
        pow(5, 192) == 0x381C3DE34E49D55AA16EF894FD1EC505C3C46289D6388CEC73ADD001E6A2CF4CFEA73C80F1B8A046769DBB7E6412E125A9E17E1FAC815D01int,
{
    lemma_pow5_191();
    lemma_pow_step(5, 191);
}

/// `5^193`, written out.
proof fn lemma_pow5_193()
    ensures
        pow(5, 193) == 0x1188D357087712AC5272ADAE8F199D91CD2D5ECB12F1AC09E42651009812E0C80F9442E84B89B21605114A977F45E65BC5167769E5E86D105int,
{
    lemma_pow5_192();
    lemma_pow_step(5, 192);
}

/// `5^194`, written out.
proof fn lemma_pow5_194()
    ensures
        pow(5, 194) == 0x57AC20B32A535D5D9C3D6468CB8013D901E2D9F75EB85C3174BF9502F85E63E84DE54E8979B07A6E195674F57C5D7FCAD97055117D8A21519int,
{
    lemma_pow5_193();
    lemma_pow_step(5, 193);
}

/// `5^195`, written out.
proof fn lemma_pow5_195()
    ensures
        pow(5, 195) == 0x1B65CA37FD3A0D2D40D32F60BF980633D096E41D4D999CCF747BDE90ED9D7F389857A88AF607264267EB048CB6DD37EF63F31A95773B2A697Dint,
{
    lemma_pow5_194();
    lemma_pow_step(5, 194);
}

/// `5^196`, written out.
proof fn lemma_pow5_196()
    ensures
        pow(5, 196) == 0x88FCF317F22241E2441FECE3BDF81F0312F274928400100D466B58D4A4137C1AF9B64AB6CE23BF4C079716BF925217ACF3BF84EB5427D40F71int,
{
    lemma_pow5_195();
    lemma_pow_step(5, 195);
}

/// `5^197`, written out.
proof fn lemma_pow5_197()
    ensures
        pow(5, 197) == 0x2ACF0BF77BAAB496B549FA072B5D89B0F5EBC46DC940050426018BC2734616C86E08F759206B2BC7C25F371BDDB9A7660C2BD9898A4C7244D35int,
{
    lemma_pow5_196();
    lemma_pow_step(5, 196);
}

/// `5^198`, written out.
proof fn lemma_pow5_198()
    ensures
        pow(5, 198) == 0xD60B3BD56A5586F18A71E223D8D3B074CD9AD624EE401914BE07BACC405E71EA262CD4BDA217DAE6CBDC138B54A044FE3CDB3FAFB37E3B58209int,
{
    lemma_pow5_197();
    lemma_pow_step(5, 197);
}

/// `5^199`, written out.
proof fn lemma_pow5_199()
    ensures
        pow(5, 199) == 0x42E382B2B13ABA2B7B4396AB33C22724804062EB8A7407D67B626A5FD41D83992BEE027B42A774681FB4C61B8A72158F730483E6E817728B8A2Dint,
{
    lemma_pow5_198();
    lemma_pow_step(5, 198);
}

/// `5^200`, written out.
proof fn lemma_pow5_200()
    ensures
        pow(5, 200) == 0x14E718D7D7625A2D96851F15802CAC3B68141EE99B444273068EC13DF249391FDDBA60C684D4546089E87DE89B43A6BCD3F16938288753CB9B2E1int,
{
    lemma_pow5_199();
    lemma_pow_step(5, 199);
}

/// `5^201`, written out.
proof fn lemma_pow5_201()
    ensures
        pow(5, 201) == 0x68837C3734EBC2E3F0999B6B80DF5D2908649A9008554C3F20C9C635BB6E1D9F54A3E3E09825A5E2B18A758B085241B023B70E18CAA4A2FA07E65int,
{
    lemma_pow5_200();
    lemma_pow_step(5, 200);
}

/// `5^202`, written out.
proof fn lemma_pow5_202()
    ensures
        pow(5, 202) == 0x20A916D14089ACE73B3000919845CD1CD29F704D029AA7D3BA3F0DF0CA926941CA7337362F8BC3D6D77B44BB7299B4870B293467BF5372EE2277F9int,
{
    lemma_pow5_201();
    lemma_pow_step(5, 201);
}

/// `5^203`, written out.
proof fn lemma_pow5_203()
    ensures
        pow(5, 203) == 0xA34D721642B0608427F002D7F95D01901D1D31810D054722A33B45B3F4DC0E48F440140EEDBAD332356857A93D0086A337CE0606BCA13EA6AC57DDint,
{
    lemma_pow5_202();
    lemma_pow_step(5, 202);
}

/// `5^204`, written out.
proof fn lemma_pow5_204()
    ensures
        pow(5, 204) == 0x330833A6F4D71E294C7B00E37DED107D09191F785411A63AD30285C83C84C476CC540644AA4A61FFB0B09B64E3102A13017061E21AF2639415DB751int,
{
    lemma_pow5_203();
    lemma_pow_step(5, 203);
}

/// `5^205`, written out.
proof fn lemma_pow5_205()
    ensures
        pow(5, 205) == 0xFF290242C83396CE7E67047175A152712D7D9D59A4583F261F0C9CE92E97D651FDA41F575373E9FE737308F86F50D25F0731E96A86BBF1E46D49495int,
{
    lemma_pow5_204();
    lemma_pow_step(5, 204);
}

/// `5^206`, written out.
proof fn lemma_pow5_206()
    ensures
        pow(5, 206) == 0x4FBCD0B4DE901F208780316374C269C35E37412C035B93BBE9B3F108DE8F72F99F4349CB4A14391F8413F2CDA2C941BDB23F98F14A1ABB976226E6E9int,
{
    lemma_pow5_205();
    lemma_pow_step(5, 205);
}

/// `5^207`, written out.
proof fn lemma_pow5_207()
    ensures
        pow(5, 207) == 0x18EB0138858D09BA2A580F6F147CC10D0D71445DC10C9E2AB9083B52C58CD3EE01C5070F872651D9D9463BE042DEE48B47B3DFCB67285A9F4EAC2828Dint,
{
    lemma_pow5_206();
    lemma_pow_step(5, 206);
}

/// `5^208`, written out.
proof fn lemma_pow5_208()
    ensures
        pow(5, 208) == 0x7C97061A9BC130A2D3B84D2B666FC541433655D4C53F16D59D29289DDBC023A608D9234DA3BF99413E5F2B614E5A76B866835EF903C9C51C895CC8CC1int,
{
    lemma_pow5_207();
    lemma_pow_step(5, 207);
}

/// `5^209`, written out.
proof fn lemma_pow5_209()
    ensures
        pow(5, 209) == 0x26EF31E850AC5F32E229981D9002EDA46500FAD27DA3B722C11CDCB154AC0B23E2C3DB08432BDFE4637DBD8E687C4519A0090DADD12F0D98EAECFEBFC5int,
{
    lemma_pow5_208();
    lemma_pow_step(5, 208);
}

/// `5^210`, written out.
proof fn lemma_pow5_210()
    ensures
        pow(5, 210) == 0xC2ABF989935DDBFE6ACFF893D00EA435F904E61C743293ADC5904F76A75C37B36DD347294FDB5F75F174B3C80A6D5980202D446515EB43FC96A0F9BED9int,
{
    lemma_pow5_209();
    lemma_pow_step(5, 209);
}

/// `5^211`, written out.
proof fn lemma_pow5_211()
    ensures
        pow(5, 211) == 0x3CD5BDFAFE0D54BF8160FDAE31049350DDD187E8E44FCE264DBD18D5144CD1681252063CE8F48DD4DB74782E83422BF80A0E255F96D9853EEF124E0BA3Dint,
{
    lemma_pow5_210();
    lemma_pow_step(5, 210);
}

/// `5^212`, written out.
proof fn lemma_pow5_212()
    ensures
        pow(5, 212) == 0x1302CB5E6F642A7BD86E4F466F516E0945517A78C758F06BF84B17C29658017085B9A1F308CC6C528494658E8904ADBD83246BADDF23F9A3AAB5B863A331int,
{
    lemma_pow5_211();
    lemma_pow_step(5, 211);
}

/// `5^213`, written out.
proof fn lemma_pow5_213()
    ensures
        pow(5, 213) == 0x5F0DF8D82CF4D46B3A278C602C97262E5A97645BE4BCB21BD97776CCEFB807329CA029BF2BFE1D9C96E5FBC8AD1764B38FB61A655BB3E032558C99F22FF5int,
{
    lemma_pow5_212();
    lemma_pow_step(5, 212);
}

/// `5^214`, written out.
proof fn lemma_pow5_214()
    ensures
        pow(5, 214) == 0x1DB45DC38E0C8261822C5BDE0DEF3BEE7C4F4F5CB77AF7A8B3F555200AE9823FD0F20D0BBDBF6940EF27DEAEB6174F781CE8E83FACA8360FBABBF01BAEFC9int,
{
    lemma_pow5_213();
    lemma_pow_step(5, 213);
}

/// `5^215`, written out.
proof fn lemma_pow5_215()
    ensures
        pow(5, 215) == 0x9485D4D1C63E8BE78ADDCB5645AC2BA86D8C8CCF9566D64B83CAA9A0368F8B3F14BA413AB4BD0E44ABC759698E748D58908C893E5F490E4EA5ABB08A6AEEDint,
{
    lemma_pow5_214();
    lemma_pow_step(5, 214);
}

/// `5^216`, written out.
proof fn lemma_pow5_216()
    ensures
        pow(5, 216) == 0x2E69D2818DF38BB85B654F8AF5C5CDA4A23BEC00DEB022F7992F5502110CDB83B67A3462587B147575AE4BF0FC846C2BAD2BEAE37DC6D47893C5A72B416AA1int,
{
    lemma_pow5_215();
    lemma_pow_step(5, 215);
}

/// `5^217`, written out.
proof fn lemma_pow5_217()
    ensures
        pow(5, 217) == 0xE8111C87C5C1BA99C8FA8DB6CCDD04372B2B9C045970AED5FDECA90A55404992906305EBBA67664B4C677BB4EE961CDA61DB967174E2265AE2DC43D8471525int,
{
    lemma_pow5_216();
    lemma_pow_step(5, 216);
}

/// `5^218`, written out.
proof fn lemma_pow5_218()
    ensures
        pow(5, 218) == 0x488558EA6DCC8A500ECE4C49200511513D7DA0C15BF336A2DF59F4D33AA416FDCD1EF1D9AA404FF787E056A88A8EE9043E949F037486ABFC66E4D53396369B9int,
{
    lemma_pow5_217();
    lemma_pow_step(5, 217);
}

/// `5^219`, written out.
proof fn lemma_pow5_219()
    ensures
        pow(5, 219) == 0x16A9ABC9424FEB3904A077D6DA0195696337423C6CBC0112E5CC1C820253472F5019AB94053418FD5A761B14AB4CA8D1538E71B1146A15BEE02782A01EF1109Dint,
{
    lemma_pow5_218();
    lemma_pow_step(5, 218);
}

/// `5^220`, written out.
proof fn lemma_pow5_220()
    ensures
        pow(5, 220) == 0x71505AEE4B8F981D172257324207EB0EF0144B2E1FAC055E7CFC8E8A0BA063EC908059E41A047CF2C44E8767587F4C16A1C8387566126CBA60C58D209AB55311int,
{
    lemma_pow5_219();
    lemma_pow_step(5, 219);
}

/// `5^221`, written out.
proof fn lemma_pow5_221()
    ensures
        pow(5, 221) == 0x23691C6A779CDF89173ABB3FB4A27974AB06577E69E5C1AD870EEC8B23A21F39ED281C174821670BDD588A504BA7C7C7128E91A4AFE5C1FA3E3DBC1A3058A9F55int,
{
    lemma_pow5_220();
    lemma_pow_step(5, 220);
}

/// `5^222`, written out.
proof fn lemma_pow5_222()
    ensures
        pow(5, 222) == 0xB10D8E1456105DAD7425A83E872C5F47571FB578117CC863A34A9EB7B22A9C21A1C88C7468A7033B52BAB3917A46E6E35CC8D8376F7CC9E33734AC82F1BB51CA9int,
{
    lemma_pow5_221();
    lemma_pow_step(5, 221);
}

/// `5^223`, written out.
proof fn lemma_pow5_223()
    ensures
        pow(5, 223) == 0x37543C665AE51D46344BC4938A3DDDC64B39E8B58576FE9F2307519967AD50CA828EABE460B4310289DA581D763628270CFEC39152D6FF17014075E8EB8A898F4Dint,
{
    lemma_pow5_222();
    lemma_pow_step(5, 222);
}

/// `5^224`, written out.
proof fn lemma_pow5_224()
    ensures
        pow(5, 224) == 0x114A52DFFC679925F057AD6E1B33554DF78218B8B9B52F91BAF2497FF066293F48CC95B75E384F50CB143B8934F0EC8C340F9D1D69E32FB7306424D8C99B4AFCC81int,
{
    lemma_pow5_223();
    lemma_pow_step(5, 223);
}

/// `5^225`, written out.
proof fn lemma_pow5_225()
    ensures
        pow(5, 225) == 0x56739E5FEE05FDBDB1B663268800AA85D58A7B9BA089EDD8A6BB6F7FB1FECE3C6BFEEC94D7198C93F76529AE08B49EBD044E1193116FEE93F1F4B83BF00876EFE85int,
{
    lemma_pow5_224();
    lemma_pow_step(5, 224);
}

/// `5^226`, written out.
proof fn lemma_pow5_226()
    ensures
        pow(5, 226) == 0x1B04217DFA61DF4B4788FEFC0A803549D2BB46A0A22B1A53B41A92D7E79FA072E1BFA9EE8337FBEE3D4F9D0662B8719B1158657DF572FA8E3B9C7992BB02A52AF899int,
{
    lemma_pow5_225();
    lemma_pow_step(5, 225);
}

/// `5^227`, written out.
proof fn lemma_pow5_227()
    ensures
        pow(5, 227) == 0x8714A775E3E95C7865ACFAEC34810A711DA861232AD783A28484DE37861E223E68BE51A89017EBA7328E111FED9A380756B9FB75CB3EE4C72A0E5FDDA70D39D6DAFDint,
{
    lemma_pow5_226();
    lemma_pow_step(5, 226);
}

/// `5^228`, written out.
proof fn lemma_pow5_228()
    ensures
        pow(5, 228) == 0x2A367454D738ECE59FC60E69D068534359449E5AFD635922C969857159E96AB380BB7984AD0779A43FCC6559FA4031824B1A1E94CF83A77E3D247DF544342213246F1int,
{
    lemma_pow5_227();
    lemma_pow_step(5, 227);
}

/// `5^229`, written out.
proof fn lemma_pow5_229()
    ensures
        pow(5, 229) == 0xD31045A8341CA07C1EDE48111209A050BE5717C6F2F0BDADEF0F9B36C18F158183A95F97612560353EFDFAC1E340F78B778298E80D92457731B675CA5504AA5FB62B5int,
{
    lemma_pow5_228();
    lemma_pow_step(5, 228);
}

/// `5^230`, written out.
proof fn lemma_pow5_230()
    ensures
        pow(5, 230) == 0x41F515C49048F226C9A5768555A302193B7B376E2BEB3B465AB4E0811C7CB6B87924EDDF4E5BAE10A3AF5E5C97044D5B9558CFC8843DB5B53F8904CF3A91753DE8ED89int,
{
    lemma_pow5_229();
    lemma_pow_step(5, 229);
}

/// `5^231`, written out.
proof fn lemma_pow5_231()
    ensures
        pow(5, 231) == 0x149C96CD6D16CBAC1F03B509AAC2F0A7E29681526DB98285FC58862858E6F919A5DB8A55C87CA6653326CD7CEF31582C9EABC0EEA95348C8A3DAD180C24D74A358CA3ADint,
{
    lemma_pow5_230();
    lemma_pow_step(5, 230);
}

/// `5^232`, written out.
proof fn lemma_pow5_232()
    ensures
        pow(5, 232) == 0x670EF2032171FA5C9B12893055CEB3476CF0869C249F8C9DEDBA9EC9BC82DD803D49B3ACEA6F3FF9FFC20370ABF6B8DF195AC4A94EA06BEB33461783CB834730BBF3261int,
{
    lemma_pow5_231();
    lemma_pow_step(5, 231);
}

/// `5^233`, written out.
proof fn lemma_pow5_233()
    ensures
        pow(5, 233) == 0x2034ABA0FA739E3CF075CADF1AD09806520B2A10CB71DBF15A4A519F0AE8E538132708260942C3FE1FECA11335BD19C5B7EC5D74E89221B98005E7592F99063F3ABBFBE5int,
{
    lemma_pow5_232();
    lemma_pow_step(5, 232);
}

/// `5^234`, written out.
proof fn lemma_pow5_234()
    ensures
        pow(5, 234) == 0xA1075A24E4421730B24CF65B8612F81F9A37D253F9394BB6C373981B368C7A185FC328BE2E4DD3F69F9F25600CB180DC979DD3488ADAA89F801D84BDEDFD1F3C25ABEB79int,
{
    lemma_pow5_233();
    lemma_pow_step(5, 233);
}

/// `5^235`, written out.
proof fn lemma_pow5_235()
    ensures
        pow(5, 235) == 0x32524C2B8754A73F37B80CFC99E5ED89E03171BA3DE1E7A91D141F88810BE6279DECFCBB6E78523D11E1BBAE03F77844EF615206AB6454B1D809397B5A5F19C2CBC5B995Dint,
{
    lemma_pow5_234();
    lemma_pow_step(5, 234);
}

/// `5^236`, written out.
proof fn lemma_pow5_236()
    ensures
        pow(5, 236) == 0xFB9B7CD9A4A7443C169840EF017DA3B160F738A33569864D91649DAA853B7EC615A0EFA928599B315968AA6613D55958ACE69A2158F5A779382E1F68C3DB80CDFADC9FED1int,
{
    lemma_pow5_235();
    lemma_pow_step(5, 235);
}

/// `5^237`, written out.
proof fn lemma_pow5_237()
    ensures
        pow(5, 237) == 0x4EA0970403744552C70F944AB07743276E4D41B300B0F9F83D6F714549A2979DE6C24AE4DC9C007F6BF0B53FE632ABEBB608102A6BCCC455E18E69D0BD3498405E64F1FA15int,
{
    lemma_pow5_236();
    lemma_pow_step(5, 236);
}

/// `5^238`, written out.
proof fn lemma_pow5_238()
    ensures
        pow(5, 238) == 0x18922F31411455A9DE34DE57572544FC52782487F0374E1D9332D365A702CF61581CB76784F0C027D1BB38A3F7EFD5B9A8E2850D41AFFD5AD67C81113B206F941D7F8B9E269int,
{
    lemma_pow5_237();
    lemma_pow_step(5, 237);
}

/// `5^239`, written out.
proof fn lemma_pow5_239()
    ensures
        pow(5, 239) == 0x7ADAEBF64565AC51570857B4B3BA58ED9C58B6A7B1148693DFFE20FC430E0CE6B88F950598B3C0C718A81B33D7AF2CA04C6C9942486FF2C6306E855627A22DE4937DBA16C0Dint,
{
    lemma_pow5_238();
    lemma_pow_step(5, 238);
}

/// `5^240`, written out.
proof fn lemma_pow5_240()
    ensures
        pow(5, 240) == 0x266469BCF5AFC5D96B329B68782A3BCA40DBB91467566A0E35FF6A4ED4F4640819ACDE91BFB82C3E37B488803366BDF217E1EFE4B6A2FBDDEF2289AAEC62AE576E174A271C41int,
{
    lemma_pow5_239();
    lemma_pow_step(5, 239);
}

/// `5^241`, written out.
proof fn lemma_pow5_241()
    ensures
        pow(5, 241) == 0xBFF610B0CC6EDD3F17FD090A58D32AF3444A9D6604B012470DFD138A28C5F428806058D8BE98DD371686AA810101B5BA7769AF77912EEB55ABACB0569DED67B5267472C38D45int,
{
    lemma_pow5_240();
    lemma_pow_step(5, 240);
}

/// `5^242`, written out.
proof fn lemma_pow5_242()
    ensures
        pow(5, 242) == 0x3BFCE5373FE2A523B77F12D33BC1FD6C0557512FE17705B6345F161B2CBDDC4CA81E1BC3BB8FC521370A1548505088CA455106D55D5EA98AC5A5F71B115A30689C0463DD1C259int,
{
    lemma_pow5_241();
    lemma_pow_step(5, 241);
}

/// `5^243`, written out.
proof fn lemma_pow5_243()
    ensures
        pow(5, 243) == 0x12BF07A143F6D39B2957B5E202AC9F31C1AB495EF67531C8F05DB6E87DFB54D7F48968AD2A9CED9A613326A699192ABF35A95222AD2D94FB5DC3DD38756C2F20B0C15F3518CBBDint,
{
    lemma_pow5_242();
    lemma_pow_step(5, 242);
}

/// `5^244`, written out.
proof fn lemma_pow5_244()
    ensures
        pow(5, 244) == 0x5DBB262653D22207CEB68D6A0D5F1BF8C8586EDAD049F8ECB1D4928A75E8A837C6AF0B61D510A403E5FFC140FD7DD5BC0C4E9AAD61E3E8E8D4D3521A4B1CEBA373C6DC097BFAB1int,
{
    lemma_pow5_243();
    lemma_pow_step(5, 243);
}

/// `5^245`, written out.
proof fn lemma_pow5_245()
    ensures
        pow(5, 245) == 0x1D4A7BEBFA31AAA270990C31242DB8BDBE9BA2A461171DC9F7926DCB44D8B4916E16B38E9295334137DFEC644F3752CAC3D890562E9738C8C28209A8377909A3142E24C2F6BE575int,
{
    lemma_pow5_244();
    lemma_pow_step(5, 244);
}

/// `5^246`, written out.
proof fn lemma_pow5_246()
    ensures
        pow(5, 246) == 0x92746B9BE2F8552C32FD3CF5B4E49BB4B90A2D35E57394F1D5DC24F8583B86D7267181C8DCEA0046175F9DF58C149DF5D33AD1AEE8F41BEBCC8A3049155D302F64E6B7CED1B7B49int,
{
    lemma_pow5_245();
    lemma_pow_step(5, 245);
}

/// `5^247`, written out.
proof fn lemma_pow5_247()
    ensures
        pow(5, 247) == 0x2DC461A0B6ED9A9DCFEF230CC88770A879D32E20D7B41E8B92D4CB8D9B929A233C03788EC5092015E74DE15CBBC6715CD2026186A8CC48B9AFEB2F16D6AD1F0ECF881970A189686Dint,
{
    lemma_pow5_246();
    lemma_pow_step(5, 246);
}

/// `5^248`, written out.
proof fn lemma_pow5_248()
    ensures
        pow(5, 248) == 0xE4D5E82392A405150FABAF3FEAA5334A611FE6A4368498B9DE27F9C409DD02B02C115AC9D92DA06D848566CFAAE036D01A0BE7A14BFD6BA06F97EB7231619B4A0DA87F3327AF0A21int,
{
    lemma_pow5_247();
    lemma_pow_step(5, 247);
}

/// `5^249`, written out.
proof fn lemma_pow5_249()
    ensures
        pow(5, 249) == 0x4782D88B1DD3419694E5A6C3F953A0073E59F81351096FBA156C7E0D431510D70DC56C5F13DE42223969B020E56611210823B86267BF31A222DF7993AF6E80872444A7BFFC66B32A5int,
{
    lemma_pow5_248();
    lemma_pow_step(5, 248);
}

/// `5^250`, written out.
proof fn lemma_pow5_250()
    ensures
        pow(5, 250) == 0x1658E3AB7952047F0E87C41D3DEA2202437C1D860952F2EA26B1E76424F69543344DB1DDB63574AAB1F1070A47AFE55A528B299EC06BBF82AAE5D5FE26D2882A3B55746BFEE017FD39int,
{
    lemma_pow5_249();
    lemma_pow_step(5, 249);
}

/// `5^251`, written out.
proof fn lemma_pow5_251()
    ensures
        pow(5, 251) == 0x6FBC72595E9A167B48A6D4923592AA0B516C939E2E9EBE92C17984F4B8D0EA50058479548F0B475579B52333666F7AC39CB7D019C21ABD8D567D2DF6C21CA8D328AB461BFA6077F21Dint,
{
    lemma_pow5_250();
    lemma_pow_step(5, 250);
}

/// `5^252`, written out.
proof fn lemma_pow5_252()
    ensures
        pow(5, 252) == 0x22EAE3BBED90270686B4226DB0BDD5238971EE216E919B8DDC75F98C79C1493901B965EA6CB3864AB6089B001002D65D20F971080CA85B3C2B071E5D1CA8F4C1FCB585E8BE3E257BA91int,
{
    lemma_pow5_251();
    lemma_pow_step(5, 251);
}

/// `5^253`, written out.
proof fn lemma_pow5_253()
    ensures
        pow(5, 253) == 0xAE9672ABA3D0C320A184AC2473B529B1AF39A6A728D809C54E4DDFBE60C66E1D089EFD941F819F758E2B0700500E2FD1A4DF35283F49C82CD72397D18F4CC7C9EF8B9D8BB736BB6A4D5int,
{
    lemma_pow5_252();
    lemma_pow_step(5, 252);
}

/// `5^254`, written out.
proof fn lemma_pow5_254()
    ensures
        pow(5, 254) == 0x368F03D5A3313CFA327975CB64289D0786C204143CC3830DA87855EB7E3E026912B1AF3E49D881D4BC6D723019046EF18385C09C93C70E8E033B1F717CC7FE6F1ADBA13BA9411A913829int,
{
    lemma_pow5_253();
    lemma_pow_step(5, 253);
}

/// `5^255`, written out.
proof fn lemma_pow5_255()
    ensures
        pow(5, 255) == 0x110CB132C2FF630E2FC5F4CF8F4CB1125A1CA14652FD18F444A59AD9977360C0D5D786C37713A8927AE233AF07D162AB7919CC30EE2E348C610279D376FE7F82B864A262A4E4584D618CDint,
{
    lemma_pow5_254();
    lemma_pow_step(5, 254);
}

/// `5^256`, written out.
proof fn lemma_pow5_256()
    ensures
        pow(5, 256) == 0x553F75FDCEFCEF46EEDDC80DCC7F755BC28F265F9EF17CC5573C063FF540E3C42D35A1D153624ADC666B026B2716ED595D80FCF4A6E706BDE50C612152F87D8D99F72BED3875B982E7C01int,
{
    lemma_pow5_255();
    lemma_pow_step(5, 255);
}

/// `5^257`, written out.
proof fn lemma_pow5_257()
    ensures
        pow(5, 257) == 0x1AA3D4DF50AF0AC62AA54E844FE7D4ACACCCBBFDE1AB76FDAB42C1F3FCA4472D4E20C2916A0EB764E00170C17C372A2BED384F0C7428321B5793DE5A69EDA73C401D3DBA21A4C9F8E86C05int,
{
    lemma_pow5_256();
    lemma_pow_step(5, 256);
}

/// `5^258`, written out.
proof fn lemma_pow5_258()
    ensures
        pow(5, 258) == 0x8533285C936B35DED53A88958F87275F5FFFABF5685952F4584DC9C3EF3563E286A3CCD7124994F8600733C76D13D2DBA2198B3E44C8FA88B5E357C411A4442D409234A2A837F1DC8A1C19int,
{
    lemma_pow5_257();
    lemma_pow_step(5, 257);
}

/// `5^259`, written out.
proof fn lemma_pow5_259()
    ensures
        pow(5, 259) == 0x299FFC9CEE1180D5A2A24AAEBCDA3C4DCDFFE5BCB09BE9EC5B984F0D3AC0AF36CA13300335B6FE8D9E02402E521631E4A2A7FB83757ECE4AB8D70B6D4583554E242DB072D4917B94EB28C7Dint,
{
    lemma_pow5_258();
    lemma_pow_step(5, 258);
}

/// `5^260`, written out.
proof fn lemma_pow5_260()
    ensures
        pow(5, 260) == 0xD01FEF10A657842C2D2B7569B0432D8505FF7CAF730B919DC9F98B4225C36C11F25FF0100C92F8C4160B40E79A6EF9772D47E9914B7A07759C3339225B90AA86B4E4723E26D769E897CBE71int,
{
    lemma_pow5_259();
    lemma_pow_step(5, 259);
}

/// `5^261`, written out.
proof fn lemma_pow5_261()
    ensures
        pow(5, 261) == 0x4109FAB533FB594DCE1D94B10714FE3991DFD6F6D3F39D814F1DFB84ABCD11C59BBDFB0503EDEDBD46E384486042ADF53E2678FD67962254C0D001DABC9D354A188763B36C235118AF6FB835int,
{
    lemma_pow5_260();
    lemma_pow_step(5, 260);
}

/// `5^262`, written out.
proof fn lemma_pow5_262()
    ensures
        pow(5, 262) == 0x14531E58A03E8BE850693E7752368F71FD95F32D223C213868B95E9975B0158DC0AB5E71913A5A4B262719569E14D65CA36C05CF305EEABA7C4100945AF120A727AA4F2811CB0957B6D2E9909int,
{
    lemma_pow5_261();
    lemma_pow_step(5, 261);
}

/// `5^263`, written out.
proof fn lemma_pow5_263()
    ensures
        pow(5, 263) == 0x659F97BB2138BB89920E38549B10CD39F3EDBFE1AB2CA61A0B9ED8FF4C706BC4C358D837D623C377BEC37EB116682FCF311C1D0BF1DA95A46D4502E5C6B5A343C6538BC858F72EB6921E8FD2Dint,
{
    lemma_pow5_262();
    lemma_pow_step(5, 262);
}

/// `5^264`, written out.
proof fn lemma_pow5_264()
    ensures
        pow(5, 264) == 0x1FC1DF6A7A61BA9AFDA4719A707540221C3A4BF6857DF3E823A1A3CFC7E321AD7D0BC39172EB2D156B9D179757008EF0BF58C913BB944EC3622590E7CE18C3052DFA1BAE9BCD3E990DA98CF1E1int,
{
    lemma_pow5_263();
    lemma_pow_step(5, 263);
}

/// `5^265`, written out.
proof fn lemma_pow5_265()
    ensures
        pow(5, 265) == 0x9EC95D1463E8A506F4363804324A40AA8D237BD09B75C388B228330EE76FA863713AD1D73E97E16B1A1175F4B302CAB3BCBBED62A9E589D0EABBD487067BCF19E5E28A690B0238FD444FC0B965int,
{
    lemma_pow5_264();
    lemma_pow_step(5, 264);
}

/// `5^266`, written out.
proof fn lemma_pow5_266()
    ensures
        pow(5, 266) == 0x319EED165F38B3922C50F1814FB734354C1B16B13094CD1AB7AC8FF4A852E49F13626193438F7671782574DC77F0DF582AFABA2ED517BB11495AB26A3206B0B817D6CB40D370B1CF2558EC39EF9int,
{
    lemma_pow5_265();
    lemma_pow_step(5, 265);
}

/// `5^267`, written out.
proof fn lemma_pow5_267()
    ensures
        pow(5, 267) == 0xF81AA16FDC1B81DADD94B7868E94050A7C877175F2E80185965ECFC7499E771B60EBE7E051CD503758BB484E57B45CB8D6E5A2EA2976A7566EC57C12FA2173987731F8442133790BBABC9D21ADDint,
{
    lemma_pow5_266();
    lemma_pow_step(5, 266);
}

/// `5^268`, written out.
proof fn lemma_pow5_268()
    ensures
        pow(5, 268) == 0x4D885272F4C89894653E795A0C8E419346EA5374DBE88079BEFDA0EE470185388E49B876199029114BBA86987B685CF9C327C2E92CF5144B029DB6C5EE2A741FA53F9D954A6015D3AA5AF11A8651int,
{
    lemma_pow5_267();
    lemma_pow_step(5, 267);
}

/// `5^269`, written out.
proof fn lemma_pow5_269()
    ensures
        pow(5, 269) == 0x183A99C3EC7EAFAE5FA385EC23EC747E06293A1484B8A8260BAF424A763079A1AC7709A4E7FD0CD567AA4A0FA6909D0E0CFC6CE8DE0C965770D1491DDA6D4449E3A3E13EA73E06D2253C6B5849F95int,
{
    lemma_pow5_268();
    lemma_pow_step(5, 268);
}

/// `5^270`, written out.
proof fn lemma_pow5_270()
    ensures
        pow(5, 270) == 0x792500D39E796E67DE319D9CB39E46761ECE2266979B48BE3A6C4B744EF260285E53303887F1402B0653724E40D3114640EE208C563EEFB534166D9544225571723366394436221ABA2E18B971DE9int,
{
    lemma_pow5_269();
    lemma_pow_step(5, 269);
}

/// `5^271`, written out.
proof fn lemma_pow5_271()
    ensures
        pow(5, 271) == 0x25DB90422185F280756F8140F8217604E9A06AC00F6086BB7241D79458ABBE0C9D79FF11AA7B640D71FA13B87441F565F44A6A2BDAF3AAE8A047023EA54ABAB373B00FF1E550EAA85A2E67B9F3958Dint,
{
    lemma_pow5_270();
    lemma_pow_step(5, 270);
}

/// `5^272`, written out.
proof fn lemma_pow5_272()
    ensures
        pow(5, 272) == 0xBD49D14AA79DBC824B2D8644D8A74E18902215C04CE2A1A93B4935E5BB5AB63F1361FB585468F44339E2629A4549CAFDC57412DB46C2568B21630B393A75A58142704FB97A949549C2E806A1C1EBC1int,
{
    lemma_pow5_271();
    lemma_pow_step(5, 271);
}

/// `5^273`, written out.
proof fn lemma_pow5_273()
    ensures
        pow(5, 273) == 0x3B27116754614AE8B77E39F583B44867AD0AA6CC1806D284E286E0D7CA8C58F3B60E9E8B9A60CC550216BED035A70F6F4DB445E4861CBB0B7A6EF381E244C3B864C318E9F64E6EA70CE882128C99AC5int,
{
    lemma_pow5_272();
    lemma_pow_step(5, 272);
}

/// `5^274`, written out.
proof fn lemma_pow5_274()
    ensures
        pow(5, 274) == 0x127C35704A5E6768B957721CB92856A06613541FC78221C986CA26436F4BDBCC28E4918BA03E3FDA90A71BA110C434D2C84855D769E8FA739642AC1896B57D299F7CF7C91CF882943408A8A5CBF005D9int,
{
    lemma_pow5_273();
    lemma_pow_step(5, 273);
}

/// `5^275`, written out.
proof fn lemma_pow5_275()
    ensures
        pow(5, 275) == 0x5C6D0B3173D8050B9EB53A8F9DC9B121FE60A49EE58AA8EFA1F2BF512C7B4AFCCC76D7BA21373F44D3438A2553D5081DE969AD35118CE441EF4D5C7AF18B71D01D70D6ED90DA8CE5042B4B3CFBB01D3Dint,
{
    lemma_pow5_274();
    lemma_pow_step(5, 274);
}

/// `5^276`, written out.
proof fn lemma_pow5_276()
    ensures
        pow(5, 276) == 0x1CE2137F74338193A198A24CE14F075A9F7E3371A7BB54CAE29BDBC95DE6876EFFE5236A2A6143C582051B2BAA32928958F10620957C07549AC82CE66B7B93910933432A3D444C07914D87830EA709231int,
{
    lemma_pow5_275();
    lemma_pow_step(5, 275);
}

/// `5^277`, written out.
proof fn lemma_pow5_277()
    ensures
        pow(5, 277) == 0x906A617D450187E227FB2B80668B24C51D77013846A8A7F66D0B4AEED580A52AFF79B112D3E652DB8A1987DA52FCDCAEBCB51EA2EB6C24A705E8E0801969E1D52E004FD332557C25D683A58F49432DAF5int,
{
    lemma_pow5_276();
    lemma_pow_step(5, 276);
}

/// `5^278`, written out.
proof fn lemma_pow5_278()
    ensures
        pow(5, 278) == 0x2D213E7725907A76AC7E7D98200B7B7D993530619614B47D0213876AA2B8339D6FD60755E237F9E49B27FA7439EF04F69AF89992E991CB7431D8C62807F116929E6018F1FFBAB6CBD30923BCC6E4FE46C9int,
{
    lemma_pow5_277();
    lemma_pow_step(5, 277);
}

/// `5^279`, written out.
proof fn lemma_pow5_279()
    ensures
        pow(5, 279) == 0xE1A63853BBD264515E7873F8A0396973FE09F1E7EE6786710A61A5152D9902132F2E24AD6B17E17707C7E44521AB18D106DAFFDE8FD8F944F93BDEC827B570DD17E07CB9FEA591FB1F2DB2AFE278F761EDint,
{
    lemma_pow5_278();
    lemma_pow_step(5, 278);
}

/// `5^280`, written out.
proof fn lemma_pow5_280()
    ensures
        pow(5, 280) == 0x4683F19A2AB1BF596D85A43DB211F0F43F631B987A805A03533E83969E3FD0A5FEBE6B7631777675326E77559A8577C152246FF58CF3CDE58DE2B59E8C68B345177626FA1F93BD9E79BE47D6F6C5CD4E9A1int,
{
    lemma_pow5_279();
    lemma_pow_step(5, 279);
}

/// `5^281`, written out.
proof fn lemma_pow5_281()
    ensures
        pow(5, 281) == 0x16093B802D578BCBF239C35347A59B4C53CEF89FA6481C210A03891F1173F133DF9B8194EF7555049FC2854AC049B56C69AB62FCBC0C3057BC56D8C18BE0B8059754EC2E29DE2B41860B76732D1DD0289025int,
{
    lemma_pow5_280();
    lemma_pow_step(5, 280);
}

/// `5^282`, written out.
proof fn lemma_pow5_282()
    ensures
        pow(5, 282) == 0x6E2E2980E2B5BAFBBB20D0A0663C087DA30ADB1E3F688CA53211AD9B5743B6035E0987E8AD4AA9171ECC9A75C1708B1E1058EEEFAC3CF1B6ADB23BC7BB63981BF4A89CE6D156D8479E39503FE19510CAD0B9int,
{
    lemma_pow5_281();
    lemma_pow_step(5, 281);
}

/// `5^283`, written out.
proof fn lemma_pow5_283()
    ensures
        pow(5, 283) == 0x226E6CF846D8CA6EAA7A41321FF2C2A742F3647973D0ABF39FA586408B4528E10D62FA78B62754D7399FF044CC732B79651BCAAAE5D30B891647B2AE6A8F1F88BC74B108216B23966171E913F67E953F6139Dint,
{
    lemma_pow5_282();
    lemma_pow_step(5, 282);
}

/// `5^284`, written out.
proof fn lemma_pow5_284()
    ensures
        pow(5, 284) == 0xAC2820D9623BF429546345FA9FBDCD444EC0F65F43135BC21E3B9F42B859CC6542EEE45B8EC4A834201FB157FE3FD95EF98AF5567D1F39AD6F667D6814CB9DABAE477528A717B1EFE7398D63D078EA3CE6211int,
{
    lemma_pow5_283();
    lemma_pow_step(5, 283);
}

/// `5^285`, written out.
proof fn lemma_pow5_285()
    ensures
        pow(5, 285) == 0x35CC8A43EEB2BC4CEA5F05DE51EB5025589C4CFDC4F60CACA972A1C4D99C0FDFA4EAA75C9C9D74904A09E76B7F73F3EDADFB6CAB0719C20632D00730867FA145A676549CB437679AF841FC2F3125C93307EA55int,
{
    lemma_pow5_284();
    lemma_pow_step(5, 284);
}

/// `5^286`, written out.
proof fn lemma_pow5_286()
    ensures
        pow(5, 286) == 0x10CFEB353A97DAD8093DB1D57999890BABB0D80F4D8CE3F5F4F3D28D8400C4F5E389544CF0F1346D1723185197D43C3A465E91F572380CA1EFE1023F2A07E265C404FA70F85150606D949ECEBF5BCEDFF2793A9int,
{
    lemma_pow5_285();
    lemma_pow_step(5, 285);
}

/// `5^287`, written out.
proof fn lemma_pow5_287()
    ensures
        pow(5, 287) == 0x540F980A24F746382E34792B5FFFAD3A5A74384C83C073CDC8C31CC39403D8CD71AEA580B4B6062173AF7997F7252D235FD8D9CB3B183F29AF650B3BD2276BFCD418E434D99691E223E71A09BCCB0A5FBC5E24Dint,
{
    lemma_pow5_286();
    lemma_pow_step(5, 286);
}

/// `5^288`, written out.
proof fn lemma_pow5_288()
    ensures
        pow(5, 288) == 0x1A44DF832B8D45F18E7065DD8DFFE6223C445197E92C24304EBCF8FD1E4133C0338693B83878E1EA7426D5FF7D3B9E1B0DF3C40F827793BD06CF9382B1AC51BF0247C75083FF0D96AB3838230AFF733DEADD6B81int,
{
    lemma_pow5_287();
    lemma_pow_step(5, 287);
}

/// `5^289`, written out.
proof fn lemma_pow5_289()
    ensures
        pow(5, 289) == 0x83585D8FD9C25DB7C831FD53C5FF7EAB2D5597F78DDCB4F189B0DCF1974602C101A0E2991A5C699444C22DFD722A168745C2D44D8C55E2B1220DE18D785D98BB0B66E49293FB43F1581918AF36FD403596531985int,
{
    lemma_pow5_288();
    lemma_pow_step(5, 288);
}

/// `5^290`, written out.
proof fn lemma_pow5_290()
    ensures
        pow(5, 290) == 0x290B9D3CF40CBD496E8F9F2A2DDFD7957E2ABF7D5C54F88B7B07450B7F45E0DC508246CFD83CE0FE557CAE5F33AD270A45CCE2583BDAD6D75AA4567C359D3FBA7390276DCE3E853B6B87D7B6C12F2410BEF9F7F99int,
{
    lemma_pow5_289();
    lemma_pow_step(5, 289);
}

/// `5^291`, written out.
proof fn lemma_pow5_291()
    ensures
        pow(5, 291) == 0xCD3A1230C43FB26F28CE1BD2E55F35EB76D5BD72CDA8DAB9672459397C5D644D928B620F393064F7AB6F67DC0261C3335D006BB92B463234C535B06D0C123EA441D0C52507389A2919A73691C5EBB453BAE1D7DFDint,
{
    lemma_pow5_290();
    lemma_pow_step(5, 290);
}

/// `5^292`, written out.
proof fn lemma_pow5_292()
    ensures
        pow(5, 292) == 0x402225AF3D53E7C2BCC068B1E7ADC0D99522CB33E044C459F03B5BE1F6DD2F583DCB8EA4C1DF1F8D6592D074C0BE8D000D1021A9DD85EFB07DA0C72213C5B39354913D9B9241B02CD804410D8DD9A85A2A669375F1int,
{
    lemma_pow5_291();
    lemma_pow_step(5, 291);
}

/// `5^293`, written out.
proof fn lemma_pow5_293()
    ensures
        pow(5, 293) == 0x140AABC6C32A386CDAFC20B798664C43FE9ADF8036157D5C1B128CB69D251ECB934F9C937C95B9DC2FBDE1247C3B8C1004150A851539DAE727423E3AA62DC81E0A6D63409DB4870E038154543C54049C2D400E14DB5int,
{
    lemma_pow5_292();
    lemma_pow_step(5, 292);
}

/// `5^294`, written out.
proof fn lemma_pow5_294()
    ensures
        pow(5, 294) == 0x64355AE1CFD31A2046ECA395F9FF7D53F9065D810E6B72CC875CBF9111B999F9E08E0EE16EECA14CEEB565B66D29BC50146934996A214683C44B37253EE4E8963422F0431486A3461186A5A52DA4170CE2404668489int,
{
    lemma_pow5_293();
    lemma_pow_step(5, 293);
}

/// `5^295`, written out.
proof fn lemma_pow5_295()
    ensures
        pow(5, 295) == 0x1F50AC6690F1F82A1629F31EDE1FD72A3DD1FD38548193DFEA4CFBDD558A001E162C64A672A9F2680A98AFC9021D0AD90660E06FF12A66092D57813BA3A788AEF04AEB14F66A1305E57A13C39E43473406B4160096ADint,
{
    lemma_pow5_294();
    lemma_pow_step(5, 294);
}

/// `5^296`, written out.
proof fn lemma_pow5_296()
    ensures
        pow(5, 296) == 0x9C935E00D4B9D8D26ED1BF9A569F33D33519F219A687E35F9380EB52ABB200966EDDF7403D51BC0834FB6EED0A91363D1FE4622FB5D3FE2DE2B5862A3245AB6AB1769768D0125F1D7B6262D21750640421846E02F161int,
{
    lemma_pow5_295();
    lemma_pow_step(5, 295);
}

/// `5^297`, written out.
proof fn lemma_pow5_297()
    ensures
        pow(5, 297) == 0x30EE0D60427A13C1C2A18BE03B11C03200981BA8040A770DDE184989D5A7A02F02A55D4413298AC2908E92AA134D60F319F75EAEE8D23F6E56D8B9ED2FB5C59157750F50C105BDB9368EBEE1A7491F414A796260EB6E5int,
{
    lemma_pow5_296();
    lemma_pow_step(5, 296);
}

/// `5^298`, written out.
proof fn lemma_pow5_298()
    ensures
        pow(5, 298) == 0xF4A642E14C6262C8CD27BB612758C0FA02F88A481434534556796FB12C4620EB0D3AD2545FCFB5CCD2C8DD526082E4BF81D4D96A8C1B3D27B23BA1A1EE8CDBD6B5494C93C51CB49E10C9BA68446D9C46745EEBE499279int,
{
    lemma_pow5_297();
    lemma_pow_step(5, 297);
}

/// `5^299`, written out.
proof fn lemma_pow5_299()
    ensures
        pow(5, 299) == 0x4C73F4E667DEBEDEC01C6A8E5C4BBC4E20EDAB3686505A05AB05F2E75DD5EA49742261BA5DF0E8D001DEC529BE28E77BD89283F14BC8831C67B2A2829A8C04B318A6E7EE2D98F871653F0A40956240D6045DA9B76FDC5Dint,
{
    lemma_pow5_298();
    lemma_pow_step(5, 298);
}

/// `5^300`, written out.
proof fn lemma_pow5_300()
    ensures
        pow(5, 300) == 0x17E43C8800759BA59C08E14C7CD7AAD86A4A458109F91C21C571DBE84D52D936F44ABE8A3D5B48C100959D9D0B6CC856B3ADC93B67AEA8F8E067D2C8D04BC177F7B4287A6E3FCDA36FA3B3342EAEB442E15D450952F4DD1int,
{
    lemma_pow5_299();
    lemma_pow_step(5, 299);
}

/// `5^301`, written out.
proof fn lemma_pow5_301()
    ensures
        pow(5, 301) == 0x77752EA8024C0A3C0C2C667E7036563A13735B8531DD8CA8DB394B89829E3E12C575B8B332C86BC502EC1411391FE9B18264EE2906694CDC62071DEC117AC757D684CA64273F04312E328004E969854E66D2592E9EC8515int,
{
    lemma_pow5_300();
    lemma_pow_step(5, 300);
}

/// `5^302`, written out.
proof fn lemma_pow5_302()
    ensures
        pow(5, 302) == 0x25549E9480B7C332C3CDE0078310FAF226140C999F953BF4C481E79AF8D17365DDB4C9B7FFDEA1AD90E9C64561D9F90778BF8A6CD200E804DEA23959C5765E4B73097F3F4C43B14F5E6FC80188F0F9A88021BBDE919E9969int,
{
    lemma_pow5_301();
    lemma_pow_step(5, 301);
}

/// `5^303`, written out.
proof fn lemma_pow5_303()
    ensures
        pow(5, 303) == 0xBAA718E68396CFFDD30560258F54E6BABE643F001DEA2BC7D6898606DC1740FD5487F097FF592863D490DF5AE941DD255BBDB4201A048818592B1EC0DB4FD7793F2F7C3C7D52768CD82EE807ACB4E04A80A8AB58D818FF0Dint,
{
    lemma_pow5_302();
    lemma_pow_step(5, 302);
}

/// `5^304`, written out.
proof fn lemma_pow5_304()
    ensures
        pow(5, 304) == 0x3A5437C8091F20FF51F1AE0BBCCA881A5B7F53B009592DAE730AF9E224C7444F2A6A7B2F7FCBDC9F326D45CC68E4951BACAB484A08216A879BDD799C4488F355E3BED6D2E729C50C038EA88265F886174834B58BC387CFB41int,
{
    lemma_pow5_303();
    lemma_pow_step(5, 303);
}

/// `5^305`, written out.
proof fn lemma_pow5_305()
    ensures
        pow(5, 305) == 0x123A516E82D9BA4FC99B8663AAFF4A883C97CA2702EBDE4683F36E16AB7E4558BD41467ED7EFB4F1BFC225CFE0C76E98A5F58697228A714A60B53600D56ACC0AD72BA321E83D0D93C11C94A8BFDDA9E7469078BBAD1A70E845int,
{
    lemma_pow5_304();
    lemma_pow_step(5, 304);
}

/// `5^306`, written out.
proof fn lemma_pow5_306()
    ensures
        pow(5, 306) == 0x5B2397288E40A38EF0099FF256FC74A92EF6F2C30E9B576093C1267159775ABBB246607A37AE88B8BECABD0F63E528FB3DCBA0F3ACB43673E38A0E042B15FC3633DA2FA9893143E2C58EE74BBF54518460D25BAA6184348959int,
{
    lemma_pow5_305();
    lemma_pow_step(5, 305);
}

/// `5^307`, written out.
pub(crate) proof fn lemma_pow5_307()
    ensures
        pow(5, 307) == 0x1C7B1F3CAC74331CAB0301FBBB2EE474DEAD2BDCF4908B4E2E2C5C036BF54C5AA7B5FE2631668AB9BB9F5B14CF379CCE834FA24C25F85104371B24614D76DED0F0342EE4FADF6536DDBCA847ABCA59795E41BCA53E79506AEBDint,
{
    lemma_pow5_306();
    lemma_pow_step(5, 306);
}

/// `5^308`, written out.
proof fn lemma_pow5_308()
    ensures
        pow(5, 308) == 0x8E679C2F5E44FF8F570F09EAA7EA76485961DB50C6D2B886E6DDCC111BCA7DC5468DF6BEF700B5A0AA1CC7680C161008908E2B7CBDD995151387B5E683525A14B104EA78E65CFA1254AF49665AF3BF5ED748AF3A385E92169B1int,
{
    lemma_pow5_307();
    lemma_pow_step(5, 307);
}

/// `5^309`, written out.
pub(crate) proof fn lemma_pow5_309()
    ensures
        pow(5, 309) == 0x2C8060CECD758FDCCB34B319547944F69BEE94893E21D9AA28254FC558AF474DA60C5D1BAD3038C23528FE5083C6E502AD2C6D96FB53FE96961A68D80909BC2677518945C7FD0E25BA76C6EFFC6C2BCDA346B6C2319D8DA71075int,
{
    lemma_pow5_308();
    lemma_pow_step(5, 308);
}

/// `5^310`, written out.
proof fn lemma_pow5_310()
    ensures
        pow(5, 310) == 0xDE81E40A034BCF4FF8077F7EA65E58D10BA8E6AE36A94052C8BA8EDABB6C64843E3DD18A61F11BCB09CCF79292E2790D61DE23F2E8A3F8F0EE840C382D30ACC05497AE5CE7F146BCA451E2AFEE1CDB04306191CAF813C4435249int,
{
    lemma_pow5_309();
    lemma_pow_step(5, 309);
}

/// `5^311`, written out.
proof fn lemma_pow5_311()
    ensures
        pow(5, 311) == 0x458897432107B0C8FD8257D793FD7BC153A4C8167114E419DEBA4CA45A91DF695373517B3E9B58AF73100D5DCDE6C5D42E956B3BE8B33DCB4A8943D18E1F35FC1A6F667D087B661AF35996D6FA6904714F1E7D8F6D862D5509B6Dint,
{
    lemma_pow5_310();
    lemma_pow_step(5, 310);
}

/// `5^312`, written out.
proof fn lemma_pow5_312()
    ensures
        pow(5, 312) == 0x15BAAF44FA52673ECF38BB735E3F36AC6A237E8703568748159A37F35C4D95D0EA14097683908BB6D3F5042D50581DD24E8EB182B8B8034F874AE5317C69C0DEC842D00712A68FE86C0BFF232E40D16368B9873CD239EE2A930921int,
{
    lemma_pow5_311();
    lemma_pow_step(5, 311);
}

/// `5^313`, written out.
proof fn lemma_pow5_313()
    ensures
        pow(5, 313) == 0x6CA56C58E39C043A0C1BA940D73C115E12B178A310B0A4686C0317C0CD83ED1492642F5091D2BA9223C914E291B8951B88C9778D9B98108DA47679F76E10C459E94E10235D40CF8A1C3BFBAFE74416F10B9FA4301B21A6D4DF2DA5int,
{
    lemma_pow5_312();
    lemma_pow_step(5, 312);
}

/// `5^314`, written out.
proof fn lemma_pow5_314()
    ensures
        pow(5, 314) == 0x21F3B1DBC720C15223C8A4E44342C56D65D775B2F5373360A1C0F76C40393A166DBF4EC92D91DA4DAB2ED686CD89AE989ABEF55C409F852C4365061D52653D5C18E8650B0D2440DB28D2BEA6F845472B53A1E34F087A842285BE439int,
{
    lemma_pow5_313();
    lemma_pow_step(5, 313);
}

/// `5^315`, written out.
proof fn lemma_pow5_315()
    ensures
        pow(5, 315) == 0xA9C2794AE3A3C69AB2EB3875504DDB22FD354C7ECA1400E328C4D51D411E227024BC89EDE3D9438457EA30A203B068FB05BACACD431D99DD50F91E929BFA32CC7C89F93741B54447CC1DB942D95A63D8A229708B2A6494AC9CB751Dint,
{
    lemma_pow5_314();
    lemma_pow_step(5, 314);
}

/// `5^316`, written out.
proof fn lemma_pow5_316()
    ensures
        pow(5, 316) == 0x350CC5E767232E1057E981A4A918547AEF20A7E79F264046FCBD829924596AC30B7AEB1A5733E5195B792F32A12720CE71CA5F6024F94015294DD98DD0BE2FDFE6EB1DE14488A5566FC949E4E3EC3F33B2ACF32B7D3F6E75F0F94991int,
{
    lemma_pow5_315();
    lemma_pow_step(5, 315);
}

/// `5^317`, written out.
proof fn lemma_pow5_317()
    ensures
        pow(5, 317) == 0x1093FDD8503AFE651B78F88374D79A666ABA347861BBF4162EFB38CFDB5BF15CF39669783B403797EC95DEBFD25C3A40838F3DCE0B8DE4069CE853FC513B6EF5F8297956656AB3AB02EEE7178739D3C027D60BFD9723D284DB4DE6FD5int,
{
    lemma_pow5_316();
    lemma_pow_step(5, 316);
}

/// `5^318`, written out.
proof fn lemma_pow5_318()
    ensures
        pow(5, 318) == 0x52E3F5399126F7F9895CDA914836040015A30659E8ABC46EEAE81C0F48CBB6D0C1F00F59284115F79EED59BF1BCD234291CC350639C574211089A3ED96292ACDD8CF5EAFFB1582570EAA8375A42122C0C72E3BF3F3B31C98488582F29int,
{
    lemma_pow5_317();
    lemma_pow_step(5, 317);
}

/// `5^319`, written out.
proof fn lemma_pow5_319()
    ensures
        pow(5, 319) == 0x19E73CA1FD5C2D7DFAED044D6690E14006C2F1FC18B5AD62A96888C4C6BFA9213C9B04CBDC9456DD61AA2C0BB8B01B04CD8FD091F20DB44A552B033A3EECDD6053C0CD96FE76B8BB34954914C34A5ADC3E3E72BC3C27F8EF96A9B8EBCDint,
{
    lemma_pow5_318();
    lemma_pow_step(5, 318);
}

/// `5^320`, written out.
proof fn lemma_pow5_320()
    ensures
        pow(5, 320) == 0x81842F29F2CCE375E6A1158300D4664021CEB9EC7B8C62ED4F0AABD7E1BE4DA62F0717FB4EE5B252E852DC3A9B70871803CF12D9BA448573A9D710233AA052E1A2C403F2F8519BA806EA6D67D073C64D37383DAD2CC7DCADF1509C9B01int,
{
    lemma_pow5_319();
    lemma_pow_step(5, 319);
}

/// `5^321`, written out.
proof fn lemma_pow5_321()
    ensures
        pow(5, 321) == 0x28794EBD1BE00714D81256B8F0425FF40A909A19E69BDEEA28B355B3768B7843EEB2377E88A7C7B9E899E4D250932A378130B5E40A3569B42513350B025219E682DD413BED9980A48229423071242DF8214193461DFE74F65B6930F0705int,
{
    lemma_pow5_320();
    lemma_pow_step(5, 320);
}

/// `5^322`, written out.
proof fn lemma_pow5_322()
    ensures
        pow(5, 322) == 0xCA5E89B18B602368385BB19CB14BDFC434D30281810B5A92CB80AC8150B95953A97B1578AB46E6A18B01781B92DFD31585F38D74330B1084B96009370B9A81808E52462BA3FF83368ACE4AF235B4E5D8A647E05E95F848CFC90DF4B2319int,
{
    lemma_pow5_321();
    lemma_pow_step(5, 321);
}

/// `5^323`, written out.
proof fn lemma_pow5_323()
    ensures
        pow(5, 323) == 0x3F3D8B077B8E0B10919CA780F767B5ED5081F0C878538C4DDF9835E86939EBEA24F676B5B58628127B7075889DE5F1F6B9DC1C344FF3752979EE02E133A048782C79B5EDA33FD9010B60776BB0C887D3B3F6761D8EDD96C0EED45C77AF7Dint,
{
    lemma_pow5_322();
    lemma_pow_step(5, 322);
}

/// `5^324`, written out.
proof fn lemma_pow5_324()
    ensures
        pow(5, 324) == 0x13C33B72569C63752D80F4584D5068DA29289B3EA59A1BD855DF90D8A0E219B92B8D0518C8B9EC85C69324BAB157DB9D1A14C8D058FC149CF61A60E6602216A58DE608DA4303F3D0538E2551A73EAA72283D04E93CA53F1C4AA25CE566D71int,
{
    lemma_pow5_323();
    lemma_pow_step(5, 323);
}

/// `5^325`, written out.
proof fn lemma_pow5_325()
    ensures
        pow(5, 325) == 0x62D0293BB10DF149E384C5B982920C42CDCB08393C028B39AD5DD43B246A809DD9C1197BEBA19E9CE0DFB7A576B74A118267EC11BCEC6710CE83E47FE0AA713BC57E2C434F13C311A1C6BA984439543AC931188E2F3A3B8D752BD07B02335int,
{
    lemma_pow5_324();
    lemma_pow_step(5, 324);
}

/// `5^326`, written out.
proof fn lemma_pow5_326()
    ensures
        pow(5, 326) == 0x1EE10CE2A7545B6717197DC9F8CDA3D4E04F7291E2C0CB82062D52527B614831540C57F6B9A281910645E963B519472578C079C58B09E03540893767F6354362ADB76DD508B62CF5828E1A4F9551EA525EDF57AC6EC2329C349DB12670B009int,
{
    lemma_pow5_325();
    lemma_pow_step(5, 325);
}

/// `5^327`, written out.
proof fn lemma_pow5_327()
    ensures
        pow(5, 327) == 0x9A65406D44A5C903737F74F1DC043328618D3CD96DC3F98A1EE29B9C68E668F6A43DB7D1A02C87D51F5D8EF2897E63BB5BC260DBB731610A42AE1507CF0A50ED649525292B8EE0CB8CC6838DEA99939BDA5CB65E29CAFD0D071475C033702Dint,
{
    lemma_pow5_326();
    lemma_pow_step(5, 326);
}

/// `5^328`, written out.
proof fn lemma_pow5_328()
    ensures
        pow(5, 328) == 0x303FA4222573CED11417D48B94C14FFC9E7C2303F24D3DFB29A6D0A0E0C800CD13534971820DEA7299CD3CABCAF77F2A8CACBE44A93F6E5334D6669270B3394A2F6E9B9CDD9CA63F9BFE091C594FFE20B43CF8FD6D0F6F14123664CC10130E1int,
{
    lemma_pow5_327();
    lemma_pow_step(5, 327);
}

/// `5^329`, written out.
proof fn lemma_pow5_329()
    ensures
        pow(5, 329) == 0xF13E34AABB430A15647726B9E7C68FEF186CAF13BB8235E7D042132463E8040160A06F378A45943D01022F5AF6D57BD4BF5FB7574E3D27A0083000DC33801E72ED290A10540F3F3E0BF62D8DBE8FF6A38530DCF3214D2B645B0FF7FC505F465int,
{
    lemma_pow5_328();
    lemma_pow_step(5, 328);
}

/// `5^330`, written out.
proof fn lemma_pow5_330()
    ensures
        pow(5, 330) == 0x4B6370755A84F326AF653C1A186E0CFAB7A1F6B62A98B0D87114A5FB5F3881406E3222C15B35BE531050AECC6D22B6B27BCDE94B48731C62028F0044D0180983EA1CD3251A44C3C363BCEE3C4B8CFD13199F450BFA681D8F5C74FD7ED91DC5F9int,
{
    lemma_pow5_329();
    lemma_pow_step(5, 329);
}

/// `5^331`, written out.
proof fn lemma_pow5_331()
    ensures
        pow(5, 331) == 0x178F1324AC498BFC16CFA2C827A2640E59629D18ED4FB743A35673DE8DC1A864226FAADC6C80CB79F519369FE21AD917C6B058E786A3F8DEA0CCB015810782F9392901FB98357D2D0F2B0A72D79C0F15F801C593BE40893CCCE48F37A3D94DDDDint,
{
    lemma_pow5_330();
    lemma_pow_step(5, 330);
}

/// `5^332`, written out.
proof fn lemma_pow5_332()
    ensures
        pow(5, 332) == 0x75CB5FB75D6FBBEC720E2DE8C62BF447BEED117CA28E945230B04358C4C849F4AC2E564E1E83F961C97E111F6A863D76E171BC85A133DC5923FF706B85258EDE1DCD09E9F90B71E14BD7343E360C4B6DD808DBE2B742AE300076CC16333E85551int,
{
    lemma_pow5_331();
    lemma_pow_step(5, 331);
}

/// `5^333`, written out.
proof fn lemma_pow5_333()
    ensures
        pow(5, 333) == 0x24CF8DE94D32EAB9E3A46E58BDEDBC566BAA1576F2CC8E59AF37150BBD7E971C75CE7AF869893DEE8EF76559D149F33526738AE9C26034DBDB3FD321999BBCA5695013191DD3939667B3405370E3D7925382C4B6D944D66F00251FC6F00389AA95int,
{
    lemma_pow5_332();
    lemma_pow_step(5, 332);
}

/// `5^334`, written out.
proof fn lemma_pow5_334()
    ensures
        pow(5, 334) == 0xB80DC58E81FE95A1723627BBB5A4ADB01A526B52BDFEC7C06C13693AB378F38E4D0866DA0FAE35A8CAD4FAC11671C009C041B690CBE1084B483F1FA8000AAF3B0E905F7D9521E1F0068041A1347335DBA18DD7923E58302B00B99EE2B011B054E9int,
{
    lemma_pow5_333();
    lemma_pow_step(5, 333);
}

/// `5^335`, written out.
proof fn lemma_pow5_335()
    ensures
        pow(5, 335) == 0x39844DBC889F8EC273B0EC6AA8C376470839C189DB5F9E6C21C610E25815CC1C7812A02424E670C4BF628E5C57038C030C14890D3FB652978693B9E4800356C2748D1DD73E9A969B02081482606400D4A27C535DB37B8F0D703A01A6D705871A88Dint,
{
    lemma_pow5_334();
    lemma_pow_step(5, 334);
}

/// `5^336`, written out.
proof fn lemma_pow5_336()
    ensures
        pow(5, 336) == 0x11F9584AEAB1DC9CC42749E154BD14F632920C7B148DE181CA8DE546BB86CFC8E585D20B4B88033D7BCECC7CDB311BC0F3C66AD423E8F9CF5A0E2A1768010B1CC46C195343904F1070A28668BE1F404272C6DA0D48169CB4331220842331BA384AC1int,
{
    lemma_pow5_335();
    lemma_pow_step(5, 335);
}

/// `5^337`, written out.
proof fn lemma_pow5_337()
    ensures
        pow(5, 337) == 0x59DEB97695794F0FD4C47166A7B168CEFCDA3E6766C56788F4C57A61A9A20EEC7B9D1A3879A810336B09FE7047F58AC4C2E01624B38CE10CC246D2750805378FD61C7EA051D18B52332CA00BB69C414C3DE2424268710F84FF5AA294AFF8A31975C5int,
{
    lemma_pow5_336();
    lemma_pow_step(5, 336);
}

/// `5^338`, written out.
proof fn lemma_pow5_338()
    ensures
        pow(5, 338) == 0x1C1599F50EB5E8B4F27D6370146770C0AF043380501DB05ACC7DB63E8502A4A9E6A11831A604851011731F83167CBB5D7CE606EB781C0653FCB621C49281A15CF2E8E79219917B89AFFDF203A910D467D356B4B4C0A354D98FCC52CE76FDB2F7F4CD9int,
{
    lemma_pow5_337();
    lemma_pow_step(5, 337);
}

/// `5^339`, written out.
proof fn lemma_pow5_339()
    ensures
        pow(5, 339) == 0x8C6C01C9498D8B88BC72F130660533C36B150181909471C5FE748F38990D3751812578F83E169950573F9D8F706FA8D3707E2299588C1FA3EF8EA8D6DC8826D0BE8C85DA7FD769B06FF5BA124D54260720B18787C330A83FCEFD9E0852F47ED7C803Dint,
{
    lemma_pow5_338();
    lemma_pow_step(5, 338);
}

/// `5^340`, written out.
proof fn lemma_pow5_340()
    ensures
        pow(5, 340) == 0x2BE1C08EE6FC3B9ABAE3EB5F1FE1A02D117690787D2E638DDF846CC1AFD42149785BB5CD93670FE91B43E13CD322E4C213276ACFEBABC9E33ADC94C324EA8C213B8BE9D447F3510722FCCA25B82A4BE23A377A5A6CFF3493F0AF416299EC67A36E8131int,
{
    lemma_pow5_339();
    lemma_pow_step(5, 339);
}

/// `5^341`, written out.
proof fn lemma_pow5_341()
    ensures
        pow(5, 341) == 0xDB68C2CA82ED2A05A67398DB9F6820E15750D25A71E7F1C55D961FC86F24A66F59CA8D03E1034F8D885366301FAE77CA5FC5160F9A5AF170264EE7CFB894BCA629BB912567C09523AEEFF2BC98D37B6B231563C420FC06E3B36C46ED019E06312885F5int,
{
    lemma_pow5_340();
    lemma_pow_step(5, 340);
}

/// `5^342`, written out.
pub(crate) proof fn lemma_pow5_342()
    ensures
        pow(5, 342) == 0x4490BCDF48EA1D21C4041FC4A1D08A466B4941BC43987B8DAD3EE9EEA2BB7402CC0F4C11365108DC3A9A0FEF09E6856F3DED96E4E03C6B730BF8A870E9AE7AF3ED0A9D5BB06C2E9B26AAFBDAEFC216917AF6AF2D4A4EC2272811D62A108161EF5CA9DC9int,
{
    lemma_pow5_341();
    lemma_pow_step(5, 341);
}

/// The entry for `10^-342`.
proof fn lemma_floor_m342()
    ensures
        power_floor(-342, 0xEEF453D6923BD65A, 0x113FAA2906A13B3F),
{
    reveal(power_floor);
    lemma_pow5_342();
    lemma_pow2_chunk_14();
    lemma2_to64();
    lemma2_to64_rest();
    lemma_pow2_adds(896, 26);
    assert(power_of_10_exponent(-342) == -1200);
    assert(pow2(922) == 0x400000000000000000000000000000000000000000000000000000000000000000000000000000000000000000000000000000000000000000000000000000000000000000000000000000000000000000000000000000000000000000000000000000000000000000000000000000000000000nat);
}

/// The entry for `10^-341`.
proof fn lemma_floor_m341()
    ensures
        power_floor(-341, 0x9558B4661B6565F8, 0x4AC7CA59A424C507),
{
    reveal(power_floor);
    lemma_pow5_341();
    lemma_pow2_chunk_14();
    lemma2_to64();
    lemma2_to64_rest();
    lemma_pow2_adds(896, 23);
    assert(power_of_10_exponent(-341) == -1196);
    assert(pow2(919) == 0x80000000000000000000000000000000000000000000000000000000000000000000000000000000000000000000000000000000000000000000000000000000000000000000000000000000000000000000000000000000000000000000000000000000000000000000000000000000000000nat);
}

/// The entry for `10^-340`.
proof fn lemma_floor_m340()
    ensures
        power_floor(-340, 0xBAAEE17FA23EBF76, 0x5D79BCF00D2DF649),
{
    reveal(power_floor);
    lemma_pow5_340();
    lemma_pow2_chunk_14();
    lemma2_to64();
    lemma2_to64_rest();
    lemma_pow2_adds(896, 21);
    assert(power_of_10_exponent(-340) == -1193);
    assert(pow2(917) == 0x20000000000000000000000000000000000000000000000000000000000000000000000000000000000000000000000000000000000000000000000000000000000000000000000000000000000000000000000000000000000000000000000000000000000000000000000000000000000000nat);
}

/// The entry for `10^-339`.
proof fn lemma_floor_m339()
    ensures
        power_floor(-339, 0xE95A99DF8ACE6F53, 0xF4D82C2C107973DC),
{
    reveal(power_floor);
    lemma_pow5_339();
    lemma_pow2_chunk_14();
    lemma2_to64();
    lemma2_to64_rest();
    lemma_pow2_adds(896, 19);
    assert(power_of_10_exponent(-339) == -1190);
    assert(pow2(915) == 0x8000000000000000000000000000000000000000000000000000000000000000000000000000000000000000000000000000000000000000000000000000000000000000000000000000000000000000000000000000000000000000000000000000000000000000000000000000000000000nat);
}

/// The entry for `10^-338`.
proof fn lemma_floor_m338()
    ensures
        power_floor(-338, 0x91D8A02BB6C10594, 0x79071B9B8A4BE869),
{
    reveal(power_floor);
    lemma_pow5_338();
    lemma_pow2_chunk_14();
    lemma2_to64();
    lemma2_to64_rest();
    lemma_pow2_adds(896, 16);
    assert(power_of_10_exponent(-338) == -1186);
    assert(pow2(912) == 0x1000000000000000000000000000000000000000000000000000000000000000000000000000000000000000000000000000000000000000000000000000000000000000000000000000000000000000000000000000000000000000000000000000000000000000000000000000000000000nat);
}

/// The entry for `10^-337`.
proof fn lemma_floor_m337()
    ensures
        power_floor(-337, 0xB64EC836A47146F9, 0x9748E2826CDEE284),
{
    reveal(power_floor);
    lemma_pow5_337();
    lemma_pow2_chunk_14();
    lemma2_to64();
    lemma2_to64_rest();
    lemma_pow2_adds(896, 14);
    assert(power_of_10_exponent(-337) == -1183);
    assert(pow2(910) == 0x400000000000000000000000000000000000000000000000000000000000000000000000000000000000000000000000000000000000000000000000000000000000000000000000000000000000000000000000000000000000000000000000000000000000000000000000000000000000nat);
}

/// The entry for `10^-336`.
proof fn lemma_floor_m336()
    ensures
        power_floor(-336, 0xE3E27A444D8D98B7, 0xFD1B1B2308169B25),
{
    reveal(power_floor);
    lemma_pow5_336();
    lemma_pow2_chunk_14();
    lemma2_to64();
    lemma2_to64_rest();
    lemma_pow2_adds(896, 12);
    assert(power_of_10_exponent(-336) == -1180);
    assert(pow2(908) == 0x100000000000000000000000000000000000000000000000000000000000000000000000000000000000000000000000000000000000000000000000000000000000000000000000000000000000000000000000000000000000000000000000000000000000000000000000000000000000nat);
}

/// The entry for `10^-335`.
proof fn lemma_floor_m335()
    ensures
        power_floor(-335, 0x8E6D8C6AB0787F72, 0xFE30F0F5E50E20F7),
{
    reveal(power_floor);
    lemma_pow5_335();
    lemma_pow2_chunk_14();
    lemma2_to64();
    lemma2_to64_rest();
    lemma_pow2_adds(896, 9);
    assert(power_of_10_exponent(-335) == -1176);
    assert(pow2(905) == 0x20000000000000000000000000000000000000000000000000000000000000000000000000000000000000000000000000000000000000000000000000000000000000000000000000000000000000000000000000000000000000000000000000000000000000000000000000000000000nat);
}

/// The entry for `10^-334`.
proof fn lemma_floor_m334()
    ensures
        power_floor(-334, 0xB208EF855C969F4F, 0xBDBD2D335E51A935),
{
    reveal(power_floor);
    lemma_pow5_334();
    lemma_pow2_chunk_14();
    lemma2_to64();
    lemma2_to64_rest();
    lemma_pow2_adds(896, 7);
    assert(power_of_10_exponent(-334) == -1173);
    assert(pow2(903) == 0x8000000000000000000000000000000000000000000000000000000000000000000000000000000000000000000000000000000000000000000000000000000000000000000000000000000000000000000000000000000000000000000000000000000000000000000000000000000000nat);
}

/// The entry for `10^-333`.
proof fn lemma_floor_m333()
    ensures
        power_floor(-333, 0xDE8B2B66B3BC4723, 0xAD2C788035E61382),
{
    reveal(power_floor);
    lemma_pow5_333();
    lemma_pow2_chunk_14();
    lemma2_to64();
    lemma2_to64_rest();
    lemma_pow2_adds(896, 5);
    assert(power_of_10_exponent(-333) == -1170);
    assert(pow2(901) == 0x2000000000000000000000000000000000000000000000000000000000000000000000000000000000000000000000000000000000000000000000000000000000000000000000000000000000000000000000000000000000000000000000000000000000000000000000000000000000nat);
}

/// The entry for `10^-332`.
proof fn lemma_floor_m332()
    ensures
        power_floor(-332, 0x8B16FB203055AC76, 0x4C3BCB5021AFCC31),
{
    reveal(power_floor);
    lemma_pow5_332();
    lemma_pow2_chunk_14();
    lemma2_to64();
    lemma2_to64_rest();
    lemma_pow2_adds(896, 2);
    assert(power_of_10_exponent(-332) == -1166);
    assert(pow2(898) == 0x400000000000000000000000000000000000000000000000000000000000000000000000000000000000000000000000000000000000000000000000000000000000000000000000000000000000000000000000000000000000000000000000000000000000000000000000000000000nat);
}

/// The entry for `10^-331`.
proof fn lemma_floor_m331()
    ensures
        power_floor(-331, 0xADDCB9E83C6B1793, 0xDF4ABE242A1BBF3D),
{
    reveal(power_floor);
    lemma_pow5_331();
    lemma_pow2_chunk_14();
    lemma2_to64();
    lemma2_to64_rest();
    lemma_pow2_adds(896, 0);
    assert(power_of_10_exponent(-331) == -1163);
    assert(pow2(896) == 0x100000000000000000000000000000000000000000000000000000000000000000000000000000000000000000000000000000000000000000000000000000000000000000000000000000000000000000000000000000000000000000000000000000000000000000000000000000000nat);
}

/// The entry for `10^-330`.
proof fn lemma_floor_m330()
    ensures
        power_floor(-330, 0xD953E8624B85DD78, 0xD71D6DAD34A2AF0D),
{
    reveal(power_floor);
    lemma_pow5_330();
    lemma_pow2_chunk_13();
    lemma2_to64();
    lemma2_to64_rest();
    lemma_pow2_adds(832, 62);
    assert(power_of_10_exponent(-330) == -1160);
    assert(pow2(894) == 0x40000000000000000000000000000000000000000000000000000000000000000000000000000000000000000000000000000000000000000000000000000000000000000000000000000000000000000000000000000000000000000000000000000000000000000000000000000000nat);
}

/// The entry for `10^-329`.
proof fn lemma_floor_m329()
    ensures
        power_floor(-329, 0x87D4713D6F33AA6B, 0x8672648C40E5AD68),
{
    reveal(power_floor);
    lemma_pow5_329();
    lemma_pow2_chunk_13();
    lemma2_to64();
    lemma2_to64_rest();
    lemma_pow2_adds(832, 59);
    assert(power_of_10_exponent(-329) == -1156);
    assert(pow2(891) == 0x8000000000000000000000000000000000000000000000000000000000000000000000000000000000000000000000000000000000000000000000000000000000000000000000000000000000000000000000000000000000000000000000000000000000000000000000000000000nat);
}

/// The entry for `10^-328`.
proof fn lemma_floor_m328()
    ensures
        power_floor(-328, 0xA9C98D8CCB009506, 0x680EFDAF511F18C2),
{
    reveal(power_floor);
    lemma_pow5_328();
    lemma_pow2_chunk_13();
    lemma2_to64();
    lemma2_to64_rest();
    lemma_pow2_adds(832, 57);
    assert(power_of_10_exponent(-328) == -1153);
    assert(pow2(889) == 0x2000000000000000000000000000000000000000000000000000000000000000000000000000000000000000000000000000000000000000000000000000000000000000000000000000000000000000000000000000000000000000000000000000000000000000000000000000000nat);
}

/// The entry for `10^-327`.
proof fn lemma_floor_m327()
    ensures
        power_floor(-327, 0xD43BF0EFFDC0BA48, 0x0212BD1B2566DEF2),
{
    reveal(power_floor);
    lemma_pow5_327();
    lemma_pow2_chunk_13();
    lemma2_to64();
    lemma2_to64_rest();
    lemma_pow2_adds(832, 55);
    assert(power_of_10_exponent(-327) == -1150);
    assert(pow2(887) == 0x800000000000000000000000000000000000000000000000000000000000000000000000000000000000000000000000000000000000000000000000000000000000000000000000000000000000000000000000000000000000000000000000000000000000000000000000000000nat);
}

/// The entry for `10^-326`.
proof fn lemma_floor_m326()
    ensures
        power_floor(-326, 0x84A57695FE98746D, 0x014BB630F7604B57),
{
    reveal(power_floor);
    lemma_pow5_326();
    lemma_pow2_chunk_13();
    lemma2_to64();
    lemma2_to64_rest();
    lemma_pow2_adds(832, 52);
    assert(power_of_10_exponent(-326) == -1146);
    assert(pow2(884) == 0x100000000000000000000000000000000000000000000000000000000000000000000000000000000000000000000000000000000000000000000000000000000000000000000000000000000000000000000000000000000000000000000000000000000000000000000000000000nat);
}

/// The entry for `10^-325`.
proof fn lemma_floor_m325()
    ensures
        power_floor(-325, 0xA5CED43B7E3E9188, 0x419EA3BD35385E2D),
{
    reveal(power_floor);
    lemma_pow5_325();
    lemma_pow2_chunk_13();
    lemma2_to64();
    lemma2_to64_rest();
    lemma_pow2_adds(832, 50);
    assert(power_of_10_exponent(-325) == -1143);
    assert(pow2(882) == 0x40000000000000000000000000000000000000000000000000000000000000000000000000000000000000000000000000000000000000000000000000000000000000000000000000000000000000000000000000000000000000000000000000000000000000000000000000000nat);
}

/// The entry for `10^-324`.
proof fn lemma_floor_m324()
    ensures
        power_floor(-324, 0xCF42894A5DCE35EA, 0x52064CAC828675B9),
{
    reveal(power_floor);
    lemma_pow5_324();
    lemma_pow2_chunk_13();
    lemma2_to64();
    lemma2_to64_rest();
    lemma_pow2_adds(832, 48);
    assert(power_of_10_exponent(-324) == -1140);
    assert(pow2(880) == 0x10000000000000000000000000000000000000000000000000000000000000000000000000000000000000000000000000000000000000000000000000000000000000000000000000000000000000000000000000000000000000000000000000000000000000000000000000000nat);
}

/// The entry for `10^-323`.
proof fn lemma_floor_m323()
    ensures
        power_floor(-323, 0x818995CE7AA0E1B2, 0x7343EFEBD1940993),
{
    reveal(power_floor);
    lemma_pow5_323();
    lemma_pow2_chunk_13();
    lemma2_to64();
    lemma2_to64_rest();
    lemma_pow2_adds(832, 45);
    assert(power_of_10_exponent(-323) == -1136);
    assert(pow2(877) == 0x2000000000000000000000000000000000000000000000000000000000000000000000000000000000000000000000000000000000000000000000000000000000000000000000000000000000000000000000000000000000000000000000000000000000000000000000000000nat);
}

/// The entry for `10^-322`.
proof fn lemma_floor_m322()
    ensures
        power_floor(-322, 0xA1EBFB4219491A1F, 0x1014EBE6C5F90BF8),
{
    reveal(power_floor);
    lemma_pow5_322();
    lemma_pow2_chunk_13();
    lemma2_to64();
    lemma2_to64_rest();
    lemma_pow2_adds(832, 43);
    assert(power_of_10_exponent(-322) == -1133);
    assert(pow2(875) == 0x800000000000000000000000000000000000000000000000000000000000000000000000000000000000000000000000000000000000000000000000000000000000000000000000000000000000000000000000000000000000000000000000000000000000000000000000000nat);
}

/// The entry for `10^-321`.
proof fn lemma_floor_m321()
    ensures
        power_floor(-321, 0xCA66FA129F9B60A6, 0xD41A26E077774EF6),
{
    reveal(power_floor);
    lemma_pow5_321();
    lemma_pow2_chunk_13();
    lemma2_to64();
    lemma2_to64_rest();
    lemma_pow2_adds(832, 41);
    assert(power_of_10_exponent(-321) == -1130);
    assert(pow2(873) == 0x200000000000000000000000000000000000000000000000000000000000000000000000000000000000000000000000000000000000000000000000000000000000000000000000000000000000000000000000000000000000000000000000000000000000000000000000000nat);
}

/// The entry for `10^-320`.
proof fn lemma_floor_m320()
    ensures
        power_floor(-320, 0xFD00B897478238D0, 0x8920B098955522B4),
{
    reveal(power_floor);
    lemma_pow5_320();
    lemma_pow2_chunk_13();
    lemma2_to64();
    lemma2_to64_rest();
    lemma_pow2_adds(832, 39);
    assert(power_of_10_exponent(-320) == -1127);
    assert(pow2(871) == 0x80000000000000000000000000000000000000000000000000000000000000000000000000000000000000000000000000000000000000000000000000000000000000000000000000000000000000000000000000000000000000000000000000000000000000000000000000nat);
}

/// The entry for `10^-319`.
proof fn lemma_floor_m319()
    ensures
        power_floor(-319, 0x9E20735E8CB16382, 0x55B46E5F5D5535B0),
{
    reveal(power_floor);
    lemma_pow5_319();
    lemma_pow2_chunk_13();
    lemma2_to64();
    lemma2_to64_rest();
    lemma_pow2_adds(832, 36);
    assert(power_of_10_exponent(-319) == -1123);
    assert(pow2(868) == 0x10000000000000000000000000000000000000000000000000000000000000000000000000000000000000000000000000000000000000000000000000000000000000000000000000000000000000000000000000000000000000000000000000000000000000000000000000nat);
}

/// The entry for `10^-318`.
proof fn lemma_floor_m318()
    ensures
        power_floor(-318, 0xC5A890362FDDBC62, 0xEB2189F734AA831D),
{
    reveal(power_floor);
    lemma_pow5_318();
    lemma_pow2_chunk_13();
    lemma2_to64();
    lemma2_to64_rest();
    lemma_pow2_adds(832, 34);
    assert(power_of_10_exponent(-318) == -1120);
    assert(pow2(866) == 0x4000000000000000000000000000000000000000000000000000000000000000000000000000000000000000000000000000000000000000000000000000000000000000000000000000000000000000000000000000000000000000000000000000000000000000000000000nat);
}

/// The entry for `10^-317`.
proof fn lemma_floor_m317()
    ensures
        power_floor(-317, 0xF712B443BBD52B7B, 0xA5E9EC7501D523E4),
{
    reveal(power_floor);
    lemma_pow5_317();
    lemma_pow2_chunk_13();
    lemma2_to64();
    lemma2_to64_rest();
    lemma_pow2_adds(832, 32);
    assert(power_of_10_exponent(-317) == -1117);
    assert(pow2(864) == 0x1000000000000000000000000000000000000000000000000000000000000000000000000000000000000000000000000000000000000000000000000000000000000000000000000000000000000000000000000000000000000000000000000000000000000000000000000nat);
}

/// The entry for `10^-316`.
proof fn lemma_floor_m316()
    ensures
        power_floor(-316, 0x9A6BB0AA55653B2D, 0x47B233C92125366E),
{
    reveal(power_floor);
    lemma_pow5_316();
    lemma_pow2_chunk_13();
    lemma2_to64();
    lemma2_to64_rest();
    lemma_pow2_adds(832, 29);
    assert(power_of_10_exponent(-316) == -1113);
    assert(pow2(861) == 0x200000000000000000000000000000000000000000000000000000000000000000000000000000000000000000000000000000000000000000000000000000000000000000000000000000000000000000000000000000000000000000000000000000000000000000000000nat);
}

/// The entry for `10^-315`.
proof fn lemma_floor_m315()
    ensures
        power_floor(-315, 0xC1069CD4EABE89F8, 0x999EC0BB696E840A),
{
    reveal(power_floor);
    lemma_pow5_315();
    lemma_pow2_chunk_13();
    lemma2_to64();
    lemma2_to64_rest();
    lemma_pow2_adds(832, 27);
    assert(power_of_10_exponent(-315) == -1110);
    assert(pow2(859) == 0x80000000000000000000000000000000000000000000000000000000000000000000000000000000000000000000000000000000000000000000000000000000000000000000000000000000000000000000000000000000000000000000000000000000000000000000000nat);
}

/// The entry for `10^-314`.
proof fn lemma_floor_m314()
    ensures
        power_floor(-314, 0xF148440A256E2C76, 0xC00670EA43CA250D),
{
    reveal(power_floor);
    lemma_pow5_314();
    lemma_pow2_chunk_13();
    lemma2_to64();
    lemma2_to64_rest();
    lemma_pow2_adds(832, 25);
    assert(power_of_10_exponent(-314) == -1107);
    assert(pow2(857) == 0x20000000000000000000000000000000000000000000000000000000000000000000000000000000000000000000000000000000000000000000000000000000000000000000000000000000000000000000000000000000000000000000000000000000000000000000000nat);
}

/// The entry for `10^-313`.
proof fn lemma_floor_m313()
    ensures
        power_floor(-313, 0x96CD2A865764DBCA, 0x380406926A5E5728),
{
    reveal(power_floor);
    lemma_pow5_313();
    lemma_pow2_chunk_13();
    lemma2_to64();
    lemma2_to64_rest();
    lemma_pow2_adds(832, 22);
    assert(power_of_10_exponent(-313) == -1103);
    assert(pow2(854) == 0x4000000000000000000000000000000000000000000000000000000000000000000000000000000000000000000000000000000000000000000000000000000000000000000000000000000000000000000000000000000000000000000000000000000000000000000000nat);
}

/// The entry for `10^-312`.
proof fn lemma_floor_m312()
    ensures
        power_floor(-312, 0xBC807527ED3E12BC, 0xC605083704F5ECF2),
{
    reveal(power_floor);
    lemma_pow5_312();
    lemma_pow2_chunk_13();
    lemma2_to64();
    lemma2_to64_rest();
    lemma_pow2_adds(832, 20);
    assert(power_of_10_exponent(-312) == -1100);
    assert(pow2(852) == 0x1000000000000000000000000000000000000000000000000000000000000000000000000000000000000000000000000000000000000000000000000000000000000000000000000000000000000000000000000000000000000000000000000000000000000000000000nat);
}

/// The entry for `10^-311`.
proof fn lemma_floor_m311()
    ensures
        power_floor(-311, 0xEBA09271E88D976B, 0xF7864A44C633682E),
{
    reveal(power_floor);
    lemma_pow5_311();
    lemma_pow2_chunk_13();
    lemma2_to64();
    lemma2_to64_rest();
    lemma_pow2_adds(832, 18);
    assert(power_of_10_exponent(-311) == -1097);
    assert(pow2(850) == 0x400000000000000000000000000000000000000000000000000000000000000000000000000000000000000000000000000000000000000000000000000000000000000000000000000000000000000000000000000000000000000000000000000000000000000000000nat);
}

/// The entry for `10^-310`.
proof fn lemma_floor_m310()
    ensures
        power_floor(-310, 0x93445B8731587EA3, 0x7AB3EE6AFBE0211D),
{
    reveal(power_floor);
    lemma_pow5_310();
    lemma_pow2_chunk_13();
    lemma2_to64();
    lemma2_to64_rest();
    lemma_pow2_adds(832, 15);
    assert(power_of_10_exponent(-310) == -1093);
    assert(pow2(847) == 0x80000000000000000000000000000000000000000000000000000000000000000000000000000000000000000000000000000000000000000000000000000000000000000000000000000000000000000000000000000000000000000000000000000000000000000000nat);
}

/// The entry for `10^-309`.
proof fn lemma_floor_m309()
    ensures
        power_floor(-309, 0xB8157268FDAE9E4C, 0x5960EA05BAD82964),
{
    reveal(power_floor);
    lemma_pow5_309();
    lemma_pow2_chunk_13();
    lemma2_to64();
    lemma2_to64_rest();
    lemma_pow2_adds(832, 13);
    assert(power_of_10_exponent(-309) == -1090);
    assert(pow2(845) == 0x20000000000000000000000000000000000000000000000000000000000000000000000000000000000000000000000000000000000000000000000000000000000000000000000000000000000000000000000000000000000000000000000000000000000000000000nat);
}

/// The entry for `10^-308`.
proof fn lemma_floor_m308()
    ensures
        power_floor(-308, 0xE61ACF033D1A45DF, 0x6FB92487298E33BD),
{
    reveal(power_floor);
    lemma_pow5_308();
    lemma_pow2_chunk_13();
    lemma2_to64();
    lemma2_to64_rest();
    lemma_pow2_adds(832, 11);
    assert(power_of_10_exponent(-308) == -1087);
    assert(pow2(843) == 0x8000000000000000000000000000000000000000000000000000000000000000000000000000000000000000000000000000000000000000000000000000000000000000000000000000000000000000000000000000000000000000000000000000000000000000000nat);
}

/// The entry for `10^-307`.
proof fn lemma_floor_m307()
    ensures
        power_floor(-307, 0x8FD0C16206306BAB, 0xA5D3B6D479F8E056),
{
    reveal(power_floor);
    lemma_pow5_307();
    lemma_pow2_chunk_13();
    lemma2_to64();
    lemma2_to64_rest();
    lemma_pow2_adds(832, 8);
    assert(power_of_10_exponent(-307) == -1083);
    assert(pow2(840) == 0x1000000000000000000000000000000000000000000000000000000000000000000000000000000000000000000000000000000000000000000000000000000000000000000000000000000000000000000000000000000000000000000000000000000000000000000nat);
}

/// The entry for `10^-306`.
proof fn lemma_floor_m306()
    ensures
        power_floor(-306, 0xB3C4F1BA87BC8696, 0x8F48A4899877186C),
{
    reveal(power_floor);
    lemma_pow5_306();
    lemma_pow2_chunk_13();
    lemma2_to64();
    lemma2_to64_rest();
    lemma_pow2_adds(832, 6);
    assert(power_of_10_exponent(-306) == -1080);
    assert(pow2(838) == 0x400000000000000000000000000000000000000000000000000000000000000000000000000000000000000000000000000000000000000000000000000000000000000000000000000000000000000000000000000000000000000000000000000000000000000000nat);
}

/// The entry for `10^-305`.
proof fn lemma_floor_m305()
    ensures
        power_floor(-305, 0xE0B62E2929ABA83C, 0x331ACDABFE94DE87),
{
    reveal(power_floor);
    lemma_pow5_305();
    lemma_pow2_chunk_13();
    lemma2_to64();
    lemma2_to64_rest();
    lemma_pow2_adds(832, 4);
    assert(power_of_10_exponent(-305) == -1077);
    assert(pow2(836) == 0x100000000000000000000000000000000000000000000000000000000000000000000000000000000000000000000000000000000000000000000000000000000000000000000000000000000000000000000000000000000000000000000000000000000000000000nat);
}

/// The entry for `10^-304`.
proof fn lemma_floor_m304()
    ensures
        power_floor(-304, 0x8C71DCD9BA0B4925, 0x9FF0C08B7F1D0B14),
{
    reveal(power_floor);
    lemma_pow5_304();
    lemma_pow2_chunk_13();
    lemma2_to64();
    lemma2_to64_rest();
    lemma_pow2_adds(832, 1);
    assert(power_of_10_exponent(-304) == -1073);
    assert(pow2(833) == 0x20000000000000000000000000000000000000000000000000000000000000000000000000000000000000000000000000000000000000000000000000000000000000000000000000000000000000000000000000000000000000000000000000000000000000000nat);
}

/// The entry for `10^-303`.
proof fn lemma_floor_m303()
    ensures
        power_floor(-303, 0xAF8E5410288E1B6F, 0x07ECF0AE5EE44DD9),
{
    reveal(power_floor);
    lemma_pow5_303();
    lemma_pow2_chunk_12();
    lemma2_to64();
    lemma2_to64_rest();
    lemma_pow2_adds(768, 63);
    assert(power_of_10_exponent(-303) == -1070);
    assert(pow2(831) == 0x8000000000000000000000000000000000000000000000000000000000000000000000000000000000000000000000000000000000000000000000000000000000000000000000000000000000000000000000000000000000000000000000000000000000000000nat);
}

/// The entry for `10^-302`.
proof fn lemma_floor_m302()
    ensures
        power_floor(-302, 0xDB71E91432B1A24A, 0xC9E82CD9F69D6150),
{
    reveal(power_floor);
    lemma_pow5_302();
    lemma_pow2_chunk_12();
    lemma2_to64();
    lemma2_to64_rest();
    lemma_pow2_adds(768, 61);
    assert(power_of_10_exponent(-302) == -1067);
    assert(pow2(829) == 0x2000000000000000000000000000000000000000000000000000000000000000000000000000000000000000000000000000000000000000000000000000000000000000000000000000000000000000000000000000000000000000000000000000000000000000nat);
}

/// The entry for `10^-301`.
proof fn lemma_floor_m301()
    ensures
        power_floor(-301, 0x892731AC9FAF056E, 0xBE311C083A225CD2),
{
    reveal(power_floor);
    lemma_pow5_301();
    lemma_pow2_chunk_12();
    lemma2_to64();
    lemma2_to64_rest();
    lemma_pow2_adds(768, 58);
    assert(power_of_10_exponent(-301) == -1063);
    assert(pow2(826) == 0x400000000000000000000000000000000000000000000000000000000000000000000000000000000000000000000000000000000000000000000000000000000000000000000000000000000000000000000000000000000000000000000000000000000000000nat);
}

/// The entry for `10^-300`.
proof fn lemma_floor_m300()
    ensures
        power_floor(-300, 0xAB70FE17C79AC6CA, 0x6DBD630A48AAF406),
{
    reveal(power_floor);
    lemma_pow5_300();
    lemma_pow2_chunk_12();
    lemma2_to64();
    lemma2_to64_rest();
    lemma_pow2_adds(768, 56);
    assert(power_of_10_exponent(-300) == -1060);
    assert(pow2(824) == 0x100000000000000000000000000000000000000000000000000000000000000000000000000000000000000000000000000000000000000000000000000000000000000000000000000000000000000000000000000000000000000000000000000000000000000nat);
}

/// The entry for `10^-299`.
proof fn lemma_floor_m299()
    ensures
        power_floor(-299, 0xD64D3D9DB981787D, 0x092CBBCCDAD5B108),
{
    reveal(power_floor);
    lemma_pow5_299();
    lemma_pow2_chunk_12();
    lemma2_to64();
    lemma2_to64_rest();
    lemma_pow2_adds(768, 54);
    assert(power_of_10_exponent(-299) == -1057);
    assert(pow2(822) == 0x40000000000000000000000000000000000000000000000000000000000000000000000000000000000000000000000000000000000000000000000000000000000000000000000000000000000000000000000000000000000000000000000000000000000000nat);
}

/// The entry for `10^-298`.
proof fn lemma_floor_m298()
    ensures
        power_floor(-298, 0x85F0468293F0EB4E, 0x25BBF56008C58EA5),
{
    reveal(power_floor);
    lemma_pow5_298();
    lemma_pow2_chunk_12();
    lemma2_to64();
    lemma2_to64_rest();
    lemma_pow2_adds(768, 51);
    assert(power_of_10_exponent(-298) == -1053);
    assert(pow2(819) == 0x8000000000000000000000000000000000000000000000000000000000000000000000000000000000000000000000000000000000000000000000000000000000000000000000000000000000000000000000000000000000000000000000000000000000000nat);
}

/// The entry for `10^-297`.
proof fn lemma_floor_m297()
    ensures
        power_floor(-297, 0xA76C582338ED2621, 0xAF2AF2B80AF6F24E),
{
    reveal(power_floor);
    lemma_pow5_297();
    lemma_pow2_chunk_12();
    lemma2_to64();
    lemma2_to64_rest();
    lemma_pow2_adds(768, 49);
    assert(power_of_10_exponent(-297) == -1050);
    assert(pow2(817) == 0x2000000000000000000000000000000000000000000000000000000000000000000000000000000000000000000000000000000000000000000000000000000000000000000000000000000000000000000000000000000000000000000000000000000000000nat);
}

/// The entry for `10^-296`.
proof fn lemma_floor_m296()
    ensures
        power_floor(-296, 0xD1476E2C07286FAA, 0x1AF5AF660DB4AEE1),
{
    reveal(power_floor);
    lemma_pow5_296();
    lemma_pow2_chunk_12();
    lemma2_to64();
    lemma2_to64_rest();
    lemma_pow2_adds(768, 47);
    assert(power_of_10_exponent(-296) == -1047);
    assert(pow2(815) == 0x800000000000000000000000000000000000000000000000000000000000000000000000000000000000000000000000000000000000000000000000000000000000000000000000000000000000000000000000000000000000000000000000000000000000nat);
}

/// The entry for `10^-295`.
proof fn lemma_floor_m295()
    ensures
        power_floor(-295, 0x82CCA4DB847945CA, 0x50D98D9FC890ED4D),
{
    reveal(power_floor);
    lemma_pow5_295();
    lemma_pow2_chunk_12();
    lemma2_to64();
    lemma2_to64_rest();
    lemma_pow2_adds(768, 44);
    assert(power_of_10_exponent(-295) == -1043);
    assert(pow2(812) == 0x100000000000000000000000000000000000000000000000000000000000000000000000000000000000000000000000000000000000000000000000000000000000000000000000000000000000000000000000000000000000000000000000000000000000nat);
}

/// The entry for `10^-294`.
proof fn lemma_floor_m294()
    ensures
        power_floor(-294, 0xA37FCE126597973C, 0xE50FF107BAB528A0),
{
    reveal(power_floor);
    lemma_pow5_294();
    lemma_pow2_chunk_12();
    lemma2_to64();
    lemma2_to64_rest();
    lemma_pow2_adds(768, 42);
    assert(power_of_10_exponent(-294) == -1040);
    assert(pow2(810) == 0x40000000000000000000000000000000000000000000000000000000000000000000000000000000000000000000000000000000000000000000000000000000000000000000000000000000000000000000000000000000000000000000000000000000000nat);
}

/// The entry for `10^-293`.
proof fn lemma_floor_m293()
    ensures
        power_floor(-293, 0xCC5FC196FEFD7D0C, 0x1E53ED49A96272C8),
{
    reveal(power_floor);
    lemma_pow5_293();
    lemma_pow2_chunk_12();
    lemma2_to64();
    lemma2_to64_rest();
    lemma_pow2_adds(768, 40);
    assert(power_of_10_exponent(-293) == -1037);
    assert(pow2(808) == 0x10000000000000000000000000000000000000000000000000000000000000000000000000000000000000000000000000000000000000000000000000000000000000000000000000000000000000000000000000000000000000000000000000000000000nat);
}

/// The entry for `10^-292`.
proof fn lemma_floor_m292()
    ensures
        power_floor(-292, 0xFF77B1FCBEBCDC4F, 0x25E8E89C13BB0F7A),
{
    reveal(power_floor);
    lemma_pow5_292();
    lemma_pow2_chunk_12();
    lemma2_to64();
    lemma2_to64_rest();
    lemma_pow2_adds(768, 38);
    assert(power_of_10_exponent(-292) == -1034);
    assert(pow2(806) == 0x4000000000000000000000000000000000000000000000000000000000000000000000000000000000000000000000000000000000000000000000000000000000000000000000000000000000000000000000000000000000000000000000000000000000nat);
}

/// The entry for `10^-291`.
proof fn lemma_floor_m291()
    ensures
        power_floor(-291, 0x9FAACF3DF73609B1, 0x77B191618C54E9AC),
{
    reveal(power_floor);
    lemma_pow5_291();
    lemma_pow2_chunk_12();
    lemma2_to64();
    lemma2_to64_rest();
    lemma_pow2_adds(768, 35);
    assert(power_of_10_exponent(-291) == -1030);
    assert(pow2(803) == 0x800000000000000000000000000000000000000000000000000000000000000000000000000000000000000000000000000000000000000000000000000000000000000000000000000000000000000000000000000000000000000000000000000000000nat);
}

/// The entry for `10^-290`.
proof fn lemma_floor_m290()
    ensures
        power_floor(-290, 0xC795830D75038C1D, 0xD59DF5B9EF6A2417),
{
    reveal(power_floor);
    lemma_pow5_290();
    lemma_pow2_chunk_12();
    lemma2_to64();
    lemma2_to64_rest();
    lemma_pow2_adds(768, 33);
    assert(power_of_10_exponent(-290) == -1027);
    assert(pow2(801) == 0x200000000000000000000000000000000000000000000000000000000000000000000000000000000000000000000000000000000000000000000000000000000000000000000000000000000000000000000000000000000000000000000000000000000nat);
}

/// The entry for `10^-289`.
proof fn lemma_floor_m289()
    ensures
        power_floor(-289, 0xF97AE3D0D2446F25, 0x4B0573286B44AD1D),
{
    reveal(power_floor);
    lemma_pow5_289();
    lemma_pow2_chunk_12();
    lemma2_to64();
    lemma2_to64_rest();
    lemma_pow2_adds(768, 31);
    assert(power_of_10_exponent(-289) == -1024);
    assert(pow2(799) == 0x80000000000000000000000000000000000000000000000000000000000000000000000000000000000000000000000000000000000000000000000000000000000000000000000000000000000000000000000000000000000000000000000000000000nat);
}

/// The entry for `10^-288`.
proof fn lemma_floor_m288()
    ensures
        power_floor(-288, 0x9BECCE62836AC577, 0x4EE367F9430AEC32),
{
    reveal(power_floor);
    lemma_pow5_288();
    lemma_pow2_chunk_12();
    lemma2_to64();
    lemma2_to64_rest();
    lemma_pow2_adds(768, 28);
    assert(power_of_10_exponent(-288) == -1020);
    assert(pow2(796) == 0x10000000000000000000000000000000000000000000000000000000000000000000000000000000000000000000000000000000000000000000000000000000000000000000000000000000000000000000000000000000000000000000000000000000nat);
}

/// The entry for `10^-287`.
proof fn lemma_floor_m287()
    ensures
        power_floor(-287, 0xC2E801FB244576D5, 0x229C41F793CDA73F),
{
    reveal(power_floor);
    lemma_pow5_287();
    lemma_pow2_chunk_12();
    lemma2_to64();
    lemma2_to64_rest();
    lemma_pow2_adds(768, 26);
    assert(power_of_10_exponent(-287) == -1017);
    assert(pow2(794) == 0x4000000000000000000000000000000000000000000000000000000000000000000000000000000000000000000000000000000000000000000000000000000000000000000000000000000000000000000000000000000000000000000000000000000nat);
}

/// The entry for `10^-286`.
proof fn lemma_floor_m286()
    ensures
        power_floor(-286, 0xF3A20279ED56D48A, 0x6B43527578C1110F),
{
    reveal(power_floor);
    lemma_pow5_286();
    lemma_pow2_chunk_12();
    lemma2_to64();
    lemma2_to64_rest();
    lemma_pow2_adds(768, 24);
    assert(power_of_10_exponent(-286) == -1014);
    assert(pow2(792) == 0x1000000000000000000000000000000000000000000000000000000000000000000000000000000000000000000000000000000000000000000000000000000000000000000000000000000000000000000000000000000000000000000000000000000nat);
}

/// The entry for `10^-285`.
proof fn lemma_floor_m285()
    ensures
        power_floor(-285, 0x9845418C345644D6, 0x830A13896B78AAA9),
{
    reveal(power_floor);
    lemma_pow5_285();
    lemma_pow2_chunk_12();
    lemma2_to64();
    lemma2_to64_rest();
    lemma_pow2_adds(768, 21);
    assert(power_of_10_exponent(-285) == -1010);
    assert(pow2(789) == 0x200000000000000000000000000000000000000000000000000000000000000000000000000000000000000000000000000000000000000000000000000000000000000000000000000000000000000000000000000000000000000000000000000000nat);
}

/// The entry for `10^-284`.
proof fn lemma_floor_m284()
    ensures
        power_floor(-284, 0xBE5691EF416BD60C, 0x23CC986BC656D553),
{
    reveal(power_floor);
    lemma_pow5_284();
    lemma_pow2_chunk_12();
    lemma2_to64();
    lemma2_to64_rest();
    lemma_pow2_adds(768, 19);
    assert(power_of_10_exponent(-284) == -1007);
    assert(pow2(787) == 0x80000000000000000000000000000000000000000000000000000000000000000000000000000000000000000000000000000000000000000000000000000000000000000000000000000000000000000000000000000000000000000000000000000nat);
}

/// The entry for `10^-283`.
proof fn lemma_floor_m283()
    ensures
        power_floor(-283, 0xEDEC366B11C6CB8F, 0x2CBFBE86B7EC8AA8),
{
    reveal(power_floor);
    lemma_pow5_283();
    lemma_pow2_chunk_12();
    lemma2_to64();
    lemma2_to64_rest();
    lemma_pow2_adds(768, 17);
    assert(power_of_10_exponent(-283) == -1004);
    assert(pow2(785) == 0x20000000000000000000000000000000000000000000000000000000000000000000000000000000000000000000000000000000000000000000000000000000000000000000000000000000000000000000000000000000000000000000000000000nat);
}

/// The entry for `10^-282`.
proof fn lemma_floor_m282()
    ensures
        power_floor(-282, 0x94B3A202EB1C3F39, 0x7BF7D71432F3D6A9),
{
    reveal(power_floor);
    lemma_pow5_282();
    lemma_pow2_chunk_12();
    lemma2_to64();
    lemma2_to64_rest();
    lemma_pow2_adds(768, 14);
    assert(power_of_10_exponent(-282) == -1000);
    assert(pow2(782) == 0x4000000000000000000000000000000000000000000000000000000000000000000000000000000000000000000000000000000000000000000000000000000000000000000000000000000000000000000000000000000000000000000000000000nat);
}

/// The entry for `10^-281`.
proof fn lemma_floor_m281()
    ensures
        power_floor(-281, 0xB9E08A83A5E34F07, 0xDAF5CCD93FB0CC53),
{
    reveal(power_floor);
    lemma_pow5_281();
    lemma_pow2_chunk_12();
    lemma2_to64();
    lemma2_to64_rest();
    lemma_pow2_adds(768, 12);
    assert(power_of_10_exponent(-281) == -997);
    assert(pow2(780) == 0x1000000000000000000000000000000000000000000000000000000000000000000000000000000000000000000000000000000000000000000000000000000000000000000000000000000000000000000000000000000000000000000000000000nat);
}

/// The entry for `10^-280`.
proof fn lemma_floor_m280()
    ensures
        power_floor(-280, 0xE858AD248F5C22C9, 0xD1B3400F8F9CFF68),
{
    reveal(power_floor);
    lemma_pow5_280();
    lemma_pow2_chunk_12();
    lemma2_to64();
    lemma2_to64_rest();
    lemma_pow2_adds(768, 10);
    assert(power_of_10_exponent(-280) == -994);
    assert(pow2(778) == 0x400000000000000000000000000000000000000000000000000000000000000000000000000000000000000000000000000000000000000000000000000000000000000000000000000000000000000000000000000000000000000000000000000nat);
}

/// The entry for `10^-279`.
proof fn lemma_floor_m279()
    ensures
        power_floor(-279, 0x91376C36D99995BE, 0x23100809B9C21FA1),
{
    reveal(power_floor);
    lemma_pow5_279();
    lemma_pow2_chunk_12();
    lemma2_to64();
    lemma2_to64_rest();
    lemma_pow2_adds(768, 7);
    assert(power_of_10_exponent(-279) == -990);
    assert(pow2(775) == 0x80000000000000000000000000000000000000000000000000000000000000000000000000000000000000000000000000000000000000000000000000000000000000000000000000000000000000000000000000000000000000000000000000nat);
}

/// The entry for `10^-278`.
proof fn lemma_floor_m278()
    ensures
        power_floor(-278, 0xB58547448FFFFB2D, 0xABD40A0C2832A78A),
{
    reveal(power_floor);
    lemma_pow5_278();
    lemma_pow2_chunk_12();
    lemma2_to64();
    lemma2_to64_rest();
    lemma_pow2_adds(768, 5);
    assert(power_of_10_exponent(-278) == -987);
    assert(pow2(773) == 0x20000000000000000000000000000000000000000000000000000000000000000000000000000000000000000000000000000000000000000000000000000000000000000000000000000000000000000000000000000000000000000000000000nat);
}

/// The entry for `10^-277`.
proof fn lemma_floor_m277()
    ensures
        power_floor(-277, 0xE2E69915B3FFF9F9, 0x16C90C8F323F516C),
{
    reveal(power_floor);
    lemma_pow5_277();
    lemma_pow2_chunk_12();
    lemma2_to64();
    lemma2_to64_rest();
    lemma_pow2_adds(768, 3);
    assert(power_of_10_exponent(-277) == -984);
    assert(pow2(771) == 0x8000000000000000000000000000000000000000000000000000000000000000000000000000000000000000000000000000000000000000000000000000000000000000000000000000000000000000000000000000000000000000000000000nat);
}

/// The entry for `10^-276`.
proof fn lemma_floor_m276()
    ensures
        power_floor(-276, 0x8DD01FAD907FFC3B, 0xAE3DA7D97F6792E3),
{
    reveal(power_floor);
    lemma_pow5_276();
    lemma_pow2_chunk_12();
    lemma2_to64();
    lemma2_to64_rest();
    lemma_pow2_adds(768, 0);
    assert(power_of_10_exponent(-276) == -980);
    assert(pow2(768) == 0x1000000000000000000000000000000000000000000000000000000000000000000000000000000000000000000000000000000000000000000000000000000000000000000000000000000000000000000000000000000000000000000000000nat);
}

/// The entry for `10^-275`.
proof fn lemma_floor_m275()
    ensures
        power_floor(-275, 0xB1442798F49FFB4A, 0x99CD11CFDF41779C),
{
    reveal(power_floor);
    lemma_pow5_275();
    lemma_pow2_chunk_11();
    lemma2_to64();
    lemma2_to64_rest();
    lemma_pow2_adds(704, 62);
    assert(power_of_10_exponent(-275) == -977);
    assert(pow2(766) == 0x400000000000000000000000000000000000000000000000000000000000000000000000000000000000000000000000000000000000000000000000000000000000000000000000000000000000000000000000000000000000000000000000nat);
}

/// The entry for `10^-274`.
proof fn lemma_floor_m274()
    ensures
        power_floor(-274, 0xDD95317F31C7FA1D, 0x40405643D711D583),
{
    reveal(power_floor);
    lemma_pow5_274();
    lemma_pow2_chunk_11();
    lemma2_to64();
    lemma2_to64_rest();
    lemma_pow2_adds(704, 60);
    assert(power_of_10_exponent(-274) == -974);
    assert(pow2(764) == 0x100000000000000000000000000000000000000000000000000000000000000000000000000000000000000000000000000000000000000000000000000000000000000000000000000000000000000000000000000000000000000000000000nat);
}

/// The entry for `10^-273`.
proof fn lemma_floor_m273()
    ensures
        power_floor(-273, 0x8A7D3EEF7F1CFC52, 0x482835EA666B2572),
{
    reveal(power_floor);
    lemma_pow5_273();
    lemma_pow2_chunk_11();
    lemma2_to64();
    lemma2_to64_rest();
    lemma_pow2_adds(704, 57);
    assert(power_of_10_exponent(-273) == -970);
    assert(pow2(761) == 0x20000000000000000000000000000000000000000000000000000000000000000000000000000000000000000000000000000000000000000000000000000000000000000000000000000000000000000000000000000000000000000000000nat);
}

/// The entry for `10^-272`.
proof fn lemma_floor_m272()
    ensures
        power_floor(-272, 0xAD1C8EAB5EE43B66, 0xDA3243650005EECF),
{
    reveal(power_floor);
    lemma_pow5_272();
    lemma_pow2_chunk_11();
    lemma2_to64();
    lemma2_to64_rest();
    lemma_pow2_adds(704, 55);
    assert(power_of_10_exponent(-272) == -967);
    assert(pow2(759) == 0x8000000000000000000000000000000000000000000000000000000000000000000000000000000000000000000000000000000000000000000000000000000000000000000000000000000000000000000000000000000000000000000000nat);
}

/// The entry for `10^-271`.
proof fn lemma_floor_m271()
    ensures
        power_floor(-271, 0xD863B256369D4A40, 0x90BED43E40076A82),
{
    reveal(power_floor);
    lemma_pow5_271();
    lemma_pow2_chunk_11();
    lemma2_to64();
    lemma2_to64_rest();
    lemma_pow2_adds(704, 53);
    assert(power_of_10_exponent(-271) == -964);
    assert(pow2(757) == 0x2000000000000000000000000000000000000000000000000000000000000000000000000000000000000000000000000000000000000000000000000000000000000000000000000000000000000000000000000000000000000000000000nat);
}

/// The entry for `10^-270`.
proof fn lemma_floor_m270()
    ensures
        power_floor(-270, 0x873E4F75E2224E68, 0x5A7744A6E804A291),
{
    reveal(power_floor);
    lemma_pow5_270();
    lemma_pow2_chunk_11();
    lemma2_to64();
    lemma2_to64_rest();
    lemma_pow2_adds(704, 50);
    assert(power_of_10_exponent(-270) == -960);
    assert(pow2(754) == 0x400000000000000000000000000000000000000000000000000000000000000000000000000000000000000000000000000000000000000000000000000000000000000000000000000000000000000000000000000000000000000000000nat);
}

/// The entry for `10^-269`.
proof fn lemma_floor_m269()
    ensures
        power_floor(-269, 0xA90DE3535AAAE202, 0x711515D0A205CB36),
{
    reveal(power_floor);
    lemma_pow5_269();
    lemma_pow2_chunk_11();
    lemma2_to64();
    lemma2_to64_rest();
    lemma_pow2_adds(704, 48);
    assert(power_of_10_exponent(-269) == -957);
    assert(pow2(752) == 0x100000000000000000000000000000000000000000000000000000000000000000000000000000000000000000000000000000000000000000000000000000000000000000000000000000000000000000000000000000000000000000000nat);
}

/// The entry for `10^-268`.
proof fn lemma_floor_m268()
    ensures
        power_floor(-268, 0xD3515C2831559A83, 0x0D5A5B44CA873E03),
{
    reveal(power_floor);
    lemma_pow5_268();
    lemma_pow2_chunk_11();
    lemma2_to64();
    lemma2_to64_rest();
    lemma_pow2_adds(704, 46);
    assert(power_of_10_exponent(-268) == -954);
    assert(pow2(750) == 0x40000000000000000000000000000000000000000000000000000000000000000000000000000000000000000000000000000000000000000000000000000000000000000000000000000000000000000000000000000000000000000000nat);
}

/// The entry for `10^-267`.
proof fn lemma_floor_m267()
    ensures
        power_floor(-267, 0x8412D9991ED58091, 0xE858790AFE9486C2),
{
    reveal(power_floor);
    lemma_pow5_267();
    lemma_pow2_chunk_11();
    lemma2_to64();
    lemma2_to64_rest();
    lemma_pow2_adds(704, 43);
    assert(power_of_10_exponent(-267) == -950);
    assert(pow2(747) == 0x8000000000000000000000000000000000000000000000000000000000000000000000000000000000000000000000000000000000000000000000000000000000000000000000000000000000000000000000000000000000000000000nat);
}

/// The entry for `10^-266`.
proof fn lemma_floor_m266()
    ensures
        power_floor(-266, 0xA5178FFF668AE0B6, 0x626E974DBE39A872),
{
    reveal(power_floor);
    lemma_pow5_266();
    lemma_pow2_chunk_11();
    lemma2_to64();
    lemma2_to64_rest();
    lemma_pow2_adds(704, 41);
    assert(power_of_10_exponent(-266) == -947);
    assert(pow2(745) == 0x2000000000000000000000000000000000000000000000000000000000000000000000000000000000000000000000000000000000000000000000000000000000000000000000000000000000000000000000000000000000000000000nat);
}

/// The entry for `10^-265`.
proof fn lemma_floor_m265()
    ensures
        power_floor(-265, 0xCE5D73FF402D98E3, 0xFB0A3D212DC8128F),
{
    reveal(power_floor);
    lemma_pow5_265();
    lemma_pow2_chunk_11();
    lemma2_to64();
    lemma2_to64_rest();
    lemma_pow2_adds(704, 39);
    assert(power_of_10_exponent(-265) == -944);
    assert(pow2(743) == 0x800000000000000000000000000000000000000000000000000000000000000000000000000000000000000000000000000000000000000000000000000000000000000000000000000000000000000000000000000000000000000000nat);
}

/// The entry for `10^-264`.
proof fn lemma_floor_m264()
    ensures
        power_floor(-264, 0x80FA687F881C7F8E, 0x7CE66634BC9D0B99),
{
    reveal(power_floor);
    lemma_pow5_264();
    lemma_pow2_chunk_11();
    lemma2_to64();
    lemma2_to64_rest();
    lemma_pow2_adds(704, 36);
    assert(power_of_10_exponent(-264) == -940);
    assert(pow2(740) == 0x100000000000000000000000000000000000000000000000000000000000000000000000000000000000000000000000000000000000000000000000000000000000000000000000000000000000000000000000000000000000000000nat);
}

/// The entry for `10^-263`.
proof fn lemma_floor_m263()
    ensures
        power_floor(-263, 0xA139029F6A239F72, 0x1C1FFFC1EBC44E80),
{
    reveal(power_floor);
    lemma_pow5_263();
    lemma_pow2_chunk_11();
    lemma2_to64();
    lemma2_to64_rest();
    lemma_pow2_adds(704, 34);
    assert(power_of_10_exponent(-263) == -937);
    assert(pow2(738) == 0x40000000000000000000000000000000000000000000000000000000000000000000000000000000000000000000000000000000000000000000000000000000000000000000000000000000000000000000000000000000000000000nat);
}

/// The entry for `10^-262`.
proof fn lemma_floor_m262()
    ensures
        power_floor(-262, 0xC987434744AC874E, 0xA327FFB266B56220),
{
    reveal(power_floor);
    lemma_pow5_262();
    lemma_pow2_chunk_11();
    lemma2_to64();
    lemma2_to64_rest();
    lemma_pow2_adds(704, 32);
    assert(power_of_10_exponent(-262) == -934);
    assert(pow2(736) == 0x10000000000000000000000000000000000000000000000000000000000000000000000000000000000000000000000000000000000000000000000000000000000000000000000000000000000000000000000000000000000000000nat);
}

/// The entry for `10^-261`.
proof fn lemma_floor_m261()
    ensures
        power_floor(-261, 0xFBE9141915D7A922, 0x4BF1FF9F0062BAA8),
{
    reveal(power_floor);
    lemma_pow5_261();
    lemma_pow2_chunk_11();
    lemma2_to64();
    lemma2_to64_rest();
    lemma_pow2_adds(704, 30);
    assert(power_of_10_exponent(-261) == -931);
    assert(pow2(734) == 0x4000000000000000000000000000000000000000000000000000000000000000000000000000000000000000000000000000000000000000000000000000000000000000000000000000000000000000000000000000000000000000nat);
}

/// The entry for `10^-260`.
proof fn lemma_floor_m260()
    ensures
        power_floor(-260, 0x9D71AC8FADA6C9B5, 0x6F773FC3603DB4A9),
{
    reveal(power_floor);
    lemma_pow5_260();
    lemma_pow2_chunk_11();
    lemma2_to64();
    lemma2_to64_rest();
    lemma_pow2_adds(704, 27);
    assert(power_of_10_exponent(-260) == -927);
    assert(pow2(731) == 0x800000000000000000000000000000000000000000000000000000000000000000000000000000000000000000000000000000000000000000000000000000000000000000000000000000000000000000000000000000000000000nat);
}

/// The entry for `10^-259`.
proof fn lemma_floor_m259()
    ensures
        power_floor(-259, 0xC4CE17B399107C22, 0xCB550FB4384D21D3),
{
    reveal(power_floor);
    lemma_pow5_259();
    lemma_pow2_chunk_11();
    lemma2_to64();
    lemma2_to64_rest();
    lemma_pow2_adds(704, 25);
    assert(power_of_10_exponent(-259) == -924);
    assert(pow2(729) == 0x200000000000000000000000000000000000000000000000000000000000000000000000000000000000000000000000000000000000000000000000000000000000000000000000000000000000000000000000000000000000000nat);
}

/// The entry for `10^-258`.
proof fn lemma_floor_m258()
    ensures
        power_floor(-258, 0xF6019DA07F549B2B, 0x7E2A53A146606A48),
{
    reveal(power_floor);
    lemma_pow5_258();
    lemma_pow2_chunk_11();
    lemma2_to64();
    lemma2_to64_rest();
    lemma_pow2_adds(704, 23);
    assert(power_of_10_exponent(-258) == -921);
    assert(pow2(727) == 0x80000000000000000000000000000000000000000000000000000000000000000000000000000000000000000000000000000000000000000000000000000000000000000000000000000000000000000000000000000000000000nat);
}

/// The entry for `10^-257`.
proof fn lemma_floor_m257()
    ensures
        power_floor(-257, 0x99C102844F94E0FB, 0x2EDA7444CBFC426D),
{
    reveal(power_floor);
    lemma_pow5_257();
    lemma_pow2_chunk_11();
    lemma2_to64();
    lemma2_to64_rest();
    lemma_pow2_adds(704, 20);
    assert(power_of_10_exponent(-257) == -917);
    assert(pow2(724) == 0x10000000000000000000000000000000000000000000000000000000000000000000000000000000000000000000000000000000000000000000000000000000000000000000000000000000000000000000000000000000000000nat);
}

/// The entry for `10^-256`.
proof fn lemma_floor_m256()
    ensures
        power_floor(-256, 0xC0314325637A1939, 0xFA911155FEFB5308),
{
    reveal(power_floor);
    lemma_pow5_256();
    lemma_pow2_chunk_11();
    lemma2_to64();
    lemma2_to64_rest();
    lemma_pow2_adds(704, 18);
    assert(power_of_10_exponent(-256) == -914);
    assert(pow2(722) == 0x4000000000000000000000000000000000000000000000000000000000000000000000000000000000000000000000000000000000000000000000000000000000000000000000000000000000000000000000000000000000000nat);
}

/// The entry for `10^-255`.
proof fn lemma_floor_m255()
    ensures
        power_floor(-255, 0xF03D93EEBC589F88, 0x793555AB7EBA27CA),
{
    reveal(power_floor);
    lemma_pow5_255();
    lemma_pow2_chunk_11();
    lemma2_to64();
    lemma2_to64_rest();
    lemma_pow2_adds(704, 16);
    assert(power_of_10_exponent(-255) == -911);
    assert(pow2(720) == 0x1000000000000000000000000000000000000000000000000000000000000000000000000000000000000000000000000000000000000000000000000000000000000000000000000000000000000000000000000000000000000nat);
}

/// The entry for `10^-254`.
proof fn lemma_floor_m254()
    ensures
        power_floor(-254, 0x96267C7535B763B5, 0x4BC1558B2F3458DE),
{
    reveal(power_floor);
    lemma_pow5_254();
    lemma_pow2_chunk_11();
    lemma2_to64();
    lemma2_to64_rest();
    lemma_pow2_adds(704, 13);
    assert(power_of_10_exponent(-254) == -907);
    assert(pow2(717) == 0x200000000000000000000000000000000000000000000000000000000000000000000000000000000000000000000000000000000000000000000000000000000000000000000000000000000000000000000000000000000000nat);
}

/// The entry for `10^-253`.
proof fn lemma_floor_m253()
    ensures
        power_floor(-253, 0xBBB01B9283253CA2, 0x9EB1AAEDFB016F16),
{
    reveal(power_floor);
    lemma_pow5_253();
    lemma_pow2_chunk_11();
    lemma2_to64();
    lemma2_to64_rest();
    lemma_pow2_adds(704, 11);
    assert(power_of_10_exponent(-253) == -904);
    assert(pow2(715) == 0x80000000000000000000000000000000000000000000000000000000000000000000000000000000000000000000000000000000000000000000000000000000000000000000000000000000000000000000000000000000000nat);
}

/// The entry for `10^-252`.
proof fn lemma_floor_m252()
    ensures
        power_floor(-252, 0xEA9C227723EE8BCB, 0x465E15A979C1CADC),
{
    reveal(power_floor);
    lemma_pow5_252();
    lemma_pow2_chunk_11();
    lemma2_to64();
    lemma2_to64_rest();
    lemma_pow2_adds(704, 9);
    assert(power_of_10_exponent(-252) == -901);
    assert(pow2(713) == 0x20000000000000000000000000000000000000000000000000000000000000000000000000000000000000000000000000000000000000000000000000000000000000000000000000000000000000000000000000000000000nat);
}

/// The entry for `10^-251`.
proof fn lemma_floor_m251()
    ensures
        power_floor(-251, 0x92A1958A7675175F, 0x0BFACD89EC191EC9),
{
    reveal(power_floor);
    lemma_pow5_251();
    lemma_pow2_chunk_11();
    lemma2_to64();
    lemma2_to64_rest();
    lemma_pow2_adds(704, 6);
    assert(power_of_10_exponent(-251) == -897);
    assert(pow2(710) == 0x4000000000000000000000000000000000000000000000000000000000000000000000000000000000000000000000000000000000000000000000000000000000000000000000000000000000000000000000000000000000nat);
}

/// The entry for `10^-250`.
proof fn lemma_floor_m250()
    ensures
        power_floor(-250, 0xB749FAED14125D36, 0xCEF980EC671F667B),
{
    reveal(power_floor);
    lemma_pow5_250();
    lemma_pow2_chunk_11();
    lemma2_to64();
    lemma2_to64_rest();
    lemma_pow2_adds(704, 4);
    assert(power_of_10_exponent(-250) == -894);
    assert(pow2(708) == 0x1000000000000000000000000000000000000000000000000000000000000000000000000000000000000000000000000000000000000000000000000000000000000000000000000000000000000000000000000000000000nat);
}

/// The entry for `10^-249`.
proof fn lemma_floor_m249()
    ensures
        power_floor(-249, 0xE51C79A85916F484, 0x82B7E12780E7401A),
{
    reveal(power_floor);
    lemma_pow5_249();
    lemma_pow2_chunk_11();
    lemma2_to64();
    lemma2_to64_rest();
    lemma_pow2_adds(704, 2);
    assert(power_of_10_exponent(-249) == -891);
    assert(pow2(706) == 0x400000000000000000000000000000000000000000000000000000000000000000000000000000000000000000000000000000000000000000000000000000000000000000000000000000000000000000000000000000000nat);
}

/// The entry for `10^-248`.
proof fn lemma_floor_m248()
    ensures
        power_floor(-248, 0x8F31CC0937AE58D2, 0xD1B2ECB8B0908810),
{
    reveal(power_floor);
    lemma_pow5_248();
    lemma_pow2_chunk_10();
    lemma2_to64();
    lemma2_to64_rest();
    lemma_pow2_adds(640, 63);
    assert(power_of_10_exponent(-248) == -887);
    assert(pow2(703) == 0x80000000000000000000000000000000000000000000000000000000000000000000000000000000000000000000000000000000000000000000000000000000000000000000000000000000000000000000000000000000nat);
}

/// The entry for `10^-247`.
proof fn lemma_floor_m247()
    ensures
        power_floor(-247, 0xB2FE3F0B8599EF07, 0x861FA7E6DCB4AA15),
{
    reveal(power_floor);
    lemma_pow5_247();
    lemma_pow2_chunk_10();
    lemma2_to64();
    lemma2_to64_rest();
    lemma_pow2_adds(640, 61);
    assert(power_of_10_exponent(-247) == -884);
    assert(pow2(701) == 0x20000000000000000000000000000000000000000000000000000000000000000000000000000000000000000000000000000000000000000000000000000000000000000000000000000000000000000000000000000000nat);
}

/// The entry for `10^-246`.
proof fn lemma_floor_m246()
    ensures
        power_floor(-246, 0xDFBDCECE67006AC9, 0x67A791E093E1D49A),
{
    reveal(power_floor);
    lemma_pow5_246();
    lemma_pow2_chunk_10();
    lemma2_to64();
    lemma2_to64_rest();
    lemma_pow2_adds(640, 59);
    assert(power_of_10_exponent(-246) == -881);
    assert(pow2(699) == 0x8000000000000000000000000000000000000000000000000000000000000000000000000000000000000000000000000000000000000000000000000000000000000000000000000000000000000000000000000000000nat);
}

/// The entry for `10^-245`.
proof fn lemma_floor_m245()
    ensures
        power_floor(-245, 0x8BD6A141006042BD, 0xE0C8BB2C5C6D24E0),
{
    reveal(power_floor);
    lemma_pow5_245();
    lemma_pow2_chunk_10();
    lemma2_to64();
    lemma2_to64_rest();
    lemma_pow2_adds(640, 56);
    assert(power_of_10_exponent(-245) == -877);
    assert(pow2(696) == 0x1000000000000000000000000000000000000000000000000000000000000000000000000000000000000000000000000000000000000000000000000000000000000000000000000000000000000000000000000000000nat);
}

/// The entry for `10^-244`.
proof fn lemma_floor_m244()
    ensures
        power_floor(-244, 0xAECC49914078536D, 0x58FAE9F773886E18),
{
    reveal(power_floor);
    lemma_pow5_244();
    lemma_pow2_chunk_10();
    lemma2_to64();
    lemma2_to64_rest();
    lemma_pow2_adds(640, 54);
    assert(power_of_10_exponent(-244) == -874);
    assert(pow2(694) == 0x400000000000000000000000000000000000000000000000000000000000000000000000000000000000000000000000000000000000000000000000000000000000000000000000000000000000000000000000000000nat);
}

/// The entry for `10^-243`.
proof fn lemma_floor_m243()
    ensures
        power_floor(-243, 0xDA7F5BF590966848, 0xAF39A475506A899E),
{
    reveal(power_floor);
    lemma_pow5_243();
    lemma_pow2_chunk_10();
    lemma2_to64();
    lemma2_to64_rest();
    lemma_pow2_adds(640, 52);
    assert(power_of_10_exponent(-243) == -871);
    assert(pow2(692) == 0x100000000000000000000000000000000000000000000000000000000000000000000000000000000000000000000000000000000000000000000000000000000000000000000000000000000000000000000000000000nat);
}

/// The entry for `10^-242`.
proof fn lemma_floor_m242()
    ensures
        power_floor(-242, 0x888F99797A5E012D, 0x6D8406C952429603),
{
    reveal(power_floor);
    lemma_pow5_242();
    lemma_pow2_chunk_10();
    lemma2_to64();
    lemma2_to64_rest();
    lemma_pow2_adds(640, 49);
    assert(power_of_10_exponent(-242) == -867);
    assert(pow2(689) == 0x20000000000000000000000000000000000000000000000000000000000000000000000000000000000000000000000000000000000000000000000000000000000000000000000000000000000000000000000000000nat);
}

/// The entry for `10^-241`.
proof fn lemma_floor_m241()
    ensures
        power_floor(-241, 0xAAB37FD7D8F58178, 0xC8E5087BA6D33B83),
{
    reveal(power_floor);
    lemma_pow5_241();
    lemma_pow2_chunk_10();
    lemma2_to64();
    lemma2_to64_rest();
    lemma_pow2_adds(640, 47);
    assert(power_of_10_exponent(-241) == -864);
    assert(pow2(687) == 0x8000000000000000000000000000000000000000000000000000000000000000000000000000000000000000000000000000000000000000000000000000000000000000000000000000000000000000000000000000nat);
}

/// The entry for `10^-240`.
proof fn lemma_floor_m240()
    ensures
        power_floor(-240, 0xD5605FCDCF32E1D6, 0xFB1E4A9A90880A64),
{
    reveal(power_floor);
    lemma_pow5_240();
    lemma_pow2_chunk_10();
    lemma2_to64();
    lemma2_to64_rest();
    lemma_pow2_adds(640, 45);
    assert(power_of_10_exponent(-240) == -861);
    assert(pow2(685) == 0x2000000000000000000000000000000000000000000000000000000000000000000000000000000000000000000000000000000000000000000000000000000000000000000000000000000000000000000000000000nat);
}

/// The entry for `10^-239`.
proof fn lemma_floor_m239()
    ensures
        power_floor(-239, 0x855C3BE0A17FCD26, 0x5CF2EEA09A55067F),
{
    reveal(power_floor);
    lemma_pow5_239();
    lemma_pow2_chunk_10();
    lemma2_to64();
    lemma2_to64_rest();
    lemma_pow2_adds(640, 42);
    assert(power_of_10_exponent(-239) == -857);
    assert(pow2(682) == 0x400000000000000000000000000000000000000000000000000000000000000000000000000000000000000000000000000000000000000000000000000000000000000000000000000000000000000000000000000nat);
}

/// The entry for `10^-238`.
proof fn lemma_floor_m238()
    ensures
        power_floor(-238, 0xA6B34AD8C9DFC06F, 0xF42FAA48C0EA481E),
{
    reveal(power_floor);
    lemma_pow5_238();
    lemma_pow2_chunk_10();
    lemma2_to64();
    lemma2_to64_rest();
    lemma_pow2_adds(640, 40);
    assert(power_of_10_exponent(-238) == -854);
    assert(pow2(680) == 0x100000000000000000000000000000000000000000000000000000000000000000000000000000000000000000000000000000000000000000000000000000000000000000000000000000000000000000000000000nat);
}

/// The entry for `10^-237`.
proof fn lemma_floor_m237()
    ensures
        power_floor(-237, 0xD0601D8EFC57B08B, 0xF13B94DAF124DA26),
{
    reveal(power_floor);
    lemma_pow5_237();
    lemma_pow2_chunk_10();
    lemma2_to64();
    lemma2_to64_rest();
    lemma_pow2_adds(640, 38);
    assert(power_of_10_exponent(-237) == -851);
    assert(pow2(678) == 0x40000000000000000000000000000000000000000000000000000000000000000000000000000000000000000000000000000000000000000000000000000000000000000000000000000000000000000000000000nat);
}

/// The entry for `10^-236`.
proof fn lemma_floor_m236()
    ensures
        power_floor(-236, 0x823C12795DB6CE57, 0x76C53D08D6B70858),
{
    reveal(power_floor);
    lemma_pow5_236();
    lemma_pow2_chunk_10();
    lemma2_to64();
    lemma2_to64_rest();
    lemma_pow2_adds(640, 35);
    assert(power_of_10_exponent(-236) == -847);
    assert(pow2(675) == 0x8000000000000000000000000000000000000000000000000000000000000000000000000000000000000000000000000000000000000000000000000000000000000000000000000000000000000000000000000nat);
}

/// The entry for `10^-235`.
proof fn lemma_floor_m235()
    ensures
        power_floor(-235, 0xA2CB1717B52481ED, 0x54768C4B0C64CA6E),
{
    reveal(power_floor);
    lemma_pow5_235();
    lemma_pow2_chunk_10();
    lemma2_to64();
    lemma2_to64_rest();
    lemma_pow2_adds(640, 33);
    assert(power_of_10_exponent(-235) == -844);
    assert(pow2(673) == 0x2000000000000000000000000000000000000000000000000000000000000000000000000000000000000000000000000000000000000000000000000000000000000000000000000000000000000000000000000nat);
}

/// The entry for `10^-234`.
proof fn lemma_floor_m234()
    ensures
        power_floor(-234, 0xCB7DDCDDA26DA268, 0xA9942F5DCF7DFD09),
{
    reveal(power_floor);
    lemma_pow5_234();
    lemma_pow2_chunk_10();
    lemma2_to64();
    lemma2_to64_rest();
    lemma_pow2_adds(640, 31);
    assert(power_of_10_exponent(-234) == -841);
    assert(pow2(671) == 0x800000000000000000000000000000000000000000000000000000000000000000000000000000000000000000000000000000000000000000000000000000000000000000000000000000000000000000000000nat);
}

/// The entry for `10^-233`.
proof fn lemma_floor_m233()
    ensures
        power_floor(-233, 0xFE5D54150B090B02, 0xD3F93B35435D7C4C),
{
    reveal(power_floor);
    lemma_pow5_233();
    lemma_pow2_chunk_10();
    lemma2_to64();
    lemma2_to64_rest();
    lemma_pow2_adds(640, 29);
    assert(power_of_10_exponent(-233) == -838);
    assert(pow2(669) == 0x200000000000000000000000000000000000000000000000000000000000000000000000000000000000000000000000000000000000000000000000000000000000000000000000000000000000000000000000nat);
}

/// The entry for `10^-232`.
proof fn lemma_floor_m232()
    ensures
        power_floor(-232, 0x9EFA548D26E5A6E1, 0xC47BC5014A1A6DAF),
{
    reveal(power_floor);
    lemma_pow5_232();
    lemma_pow2_chunk_10();
    lemma2_to64();
    lemma2_to64_rest();
    lemma_pow2_adds(640, 26);
    assert(power_of_10_exponent(-232) == -834);
    assert(pow2(666) == 0x40000000000000000000000000000000000000000000000000000000000000000000000000000000000000000000000000000000000000000000000000000000000000000000000000000000000000000000000nat);
}

/// The entry for `10^-231`.
proof fn lemma_floor_m231()
    ensures
        power_floor(-231, 0xC6B8E9B0709F109A, 0x359AB6419CA1091B),
{
    reveal(power_floor);
    lemma_pow5_231();
    lemma_pow2_chunk_10();
    lemma2_to64();
    lemma2_to64_rest();
    lemma_pow2_adds(640, 24);
    assert(power_of_10_exponent(-231) == -831);
    assert(pow2(664) == 0x10000000000000000000000000000000000000000000000000000000000000000000000000000000000000000000000000000000000000000000000000000000000000000000000000000000000000000000000nat);
}

/// The entry for `10^-230`.
proof fn lemma_floor_m230()
    ensures
        power_floor(-230, 0xF867241C8CC6D4C0, 0xC30163D203C94B62),
{
    reveal(power_floor);
    lemma_pow5_230();
    lemma_pow2_chunk_10();
    lemma2_to64();
    lemma2_to64_rest();
    lemma_pow2_adds(640, 22);
    assert(power_of_10_exponent(-230) == -828);
    assert(pow2(662) == 0x4000000000000000000000000000000000000000000000000000000000000000000000000000000000000000000000000000000000000000000000000000000000000000000000000000000000000000000000nat);
}

/// The entry for `10^-229`.
proof fn lemma_floor_m229()
    ensures
        power_floor(-229, 0x9B407691D7FC44F8, 0x79E0DE63425DCF1D),
{
    reveal(power_floor);
    lemma_pow5_229();
    lemma_pow2_chunk_10();
    lemma2_to64();
    lemma2_to64_rest();
    lemma_pow2_adds(640, 19);
    assert(power_of_10_exponent(-229) == -824);
    assert(pow2(659) == 0x800000000000000000000000000000000000000000000000000000000000000000000000000000000000000000000000000000000000000000000000000000000000000000000000000000000000000000000nat);
}

/// The entry for `10^-228`.
proof fn lemma_floor_m228()
    ensures
        power_floor(-228, 0xC21094364DFB5636, 0x985915FC12F542E4),
{
    reveal(power_floor);
    lemma_pow5_228();
    lemma_pow2_chunk_10();
    lemma2_to64();
    lemma2_to64_rest();
    lemma_pow2_adds(640, 17);
    assert(power_of_10_exponent(-228) == -821);
    assert(pow2(657) == 0x200000000000000000000000000000000000000000000000000000000000000000000000000000000000000000000000000000000000000000000000000000000000000000000000000000000000000000000nat);
}

/// The entry for `10^-227`.
proof fn lemma_floor_m227()
    ensures
        power_floor(-227, 0xF294B943E17A2BC4, 0x3E6F5B7B17B2939D),
{
    reveal(power_floor);
    lemma_pow5_227();
    lemma_pow2_chunk_10();
    lemma2_to64();
    lemma2_to64_rest();
    lemma_pow2_adds(640, 15);
    assert(power_of_10_exponent(-227) == -818);
    assert(pow2(655) == 0x80000000000000000000000000000000000000000000000000000000000000000000000000000000000000000000000000000000000000000000000000000000000000000000000000000000000000000000nat);
}

/// The entry for `10^-226`.
proof fn lemma_floor_m226()
    ensures
        power_floor(-226, 0x979CF3CA6CEC5B5A, 0xA705992CEECF9C42),
{
    reveal(power_floor);
    lemma_pow5_226();
    lemma_pow2_chunk_10();
    lemma2_to64();
    lemma2_to64_rest();
    lemma_pow2_adds(640, 12);
    assert(power_of_10_exponent(-226) == -814);
    assert(pow2(652) == 0x10000000000000000000000000000000000000000000000000000000000000000000000000000000000000000000000000000000000000000000000000000000000000000000000000000000000000000000nat);
}

/// The entry for `10^-225`.
proof fn lemma_floor_m225()
    ensures
        power_floor(-225, 0xBD8430BD08277231, 0x50C6FF782A838353),
{
    reveal(power_floor);
    lemma_pow5_225();
    lemma_pow2_chunk_10();
    lemma2_to64();
    lemma2_to64_rest();
    lemma_pow2_adds(640, 10);
    assert(power_of_10_exponent(-225) == -811);
    assert(pow2(650) == 0x4000000000000000000000000000000000000000000000000000000000000000000000000000000000000000000000000000000000000000000000000000000000000000000000000000000000000000000nat);
}

/// The entry for `10^-224`.
proof fn lemma_floor_m224()
    ensures
        power_floor(-224, 0xECE53CEC4A314EBD, 0xA4F8BF5635246428),
{
    reveal(power_floor);
    lemma_pow5_224();
    lemma_pow2_chunk_10();
    lemma2_to64();
    lemma2_to64_rest();
    lemma_pow2_adds(640, 8);
    assert(power_of_10_exponent(-224) == -808);
    assert(pow2(648) == 0x1000000000000000000000000000000000000000000000000000000000000000000000000000000000000000000000000000000000000000000000000000000000000000000000000000000000000000000nat);
}

/// The entry for `10^-223`.
proof fn lemma_floor_m223()
    ensures
        power_floor(-223, 0x940F4613AE5ED136, 0x871B7795E136BE99),
{
    reveal(power_floor);
    lemma_pow5_223();
    lemma_pow2_chunk_10();
    lemma2_to64();
    lemma2_to64_rest();
    lemma_pow2_adds(640, 5);
    assert(power_of_10_exponent(-223) == -804);
    assert(pow2(645) == 0x200000000000000000000000000000000000000000000000000000000000000000000000000000000000000000000000000000000000000000000000000000000000000000000000000000000000000000nat);
}

/// The entry for `10^-222`.
proof fn lemma_floor_m222()
    ensures
        power_floor(-222, 0xB913179899F68584, 0x28E2557B59846E3F),
{
    reveal(power_floor);
    lemma_pow5_222();
    lemma_pow2_chunk_10();
    lemma2_to64();
    lemma2_to64_rest();
    lemma_pow2_adds(640, 3);
    assert(power_of_10_exponent(-222) == -801);
    assert(pow2(643) == 0x80000000000000000000000000000000000000000000000000000000000000000000000000000000000000000000000000000000000000000000000000000000000000000000000000000000000000000nat);
}

/// The entry for `10^-221`.
proof fn lemma_floor_m221()
    ensures
        power_floor(-221, 0xE757DD7EC07426E5, 0x331AEADA2FE589CF),
{
    reveal(power_floor);
    lemma_pow5_221();
    lemma_pow2_chunk_10();
    lemma2_to64();
    lemma2_to64_rest();
    lemma_pow2_adds(640, 1);
    assert(power_of_10_exponent(-221) == -798);
    assert(pow2(641) == 0x20000000000000000000000000000000000000000000000000000000000000000000000000000000000000000000000000000000000000000000000000000000000000000000000000000000000000000nat);
}

/// The entry for `10^-220`.
proof fn lemma_floor_m220()
    ensures
        power_floor(-220, 0x9096EA6F3848984F, 0x3FF0D2C85DEF7621),
{
    reveal(power_floor);
    lemma_pow5_220();
    lemma_pow2_chunk_9();
    lemma2_to64();
    lemma2_to64_rest();
    lemma_pow2_adds(576, 62);
    assert(power_of_10_exponent(-220) == -794);
    assert(pow2(638) == 0x4000000000000000000000000000000000000000000000000000000000000000000000000000000000000000000000000000000000000000000000000000000000000000000000000000000000000000nat);
}

/// The entry for `10^-219`.
proof fn lemma_floor_m219()
    ensures
        power_floor(-219, 0xB4BCA50B065ABE63, 0x0FED077A756B53A9),
{
    reveal(power_floor);
    lemma_pow5_219();
    lemma_pow2_chunk_9();
    lemma2_to64();
    lemma2_to64_rest();
    lemma_pow2_adds(576, 60);
    assert(power_of_10_exponent(-219) == -791);
    assert(pow2(636) == 0x1000000000000000000000000000000000000000000000000000000000000000000000000000000000000000000000000000000000000000000000000000000000000000000000000000000000000000nat);
}

/// The entry for `10^-218`.
proof fn lemma_floor_m218()
    ensures
        power_floor(-218, 0xE1EBCE4DC7F16DFB, 0xD3E8495912C62894),
{
    reveal(power_floor);
    lemma_pow5_218();
    lemma_pow2_chunk_9();
    lemma2_to64();
    lemma2_to64_rest();
    lemma_pow2_adds(576, 58);
    assert(power_of_10_exponent(-218) == -788);
    assert(pow2(634) == 0x400000000000000000000000000000000000000000000000000000000000000000000000000000000000000000000000000000000000000000000000000000000000000000000000000000000000000nat);
}

/// The entry for `10^-217`.
proof fn lemma_floor_m217()
    ensures
        power_floor(-217, 0x8D3360F09CF6E4BD, 0x64712DD7ABBBD95C),
{
    reveal(power_floor);
    lemma_pow5_217();
    lemma_pow2_chunk_9();
    lemma2_to64();
    lemma2_to64_rest();
    lemma_pow2_adds(576, 55);
    assert(power_of_10_exponent(-217) == -784);
    assert(pow2(631) == 0x80000000000000000000000000000000000000000000000000000000000000000000000000000000000000000000000000000000000000000000000000000000000000000000000000000000000000nat);
}

/// The entry for `10^-216`.
proof fn lemma_floor_m216()
    ensures
        power_floor(-216, 0xB080392CC4349DEC, 0xBD8D794D96AACFB3),
{
    reveal(power_floor);
    lemma_pow5_216();
    lemma_pow2_chunk_9();
    lemma2_to64();
    lemma2_to64_rest();
    lemma_pow2_adds(576, 53);
    assert(power_of_10_exponent(-216) == -781);
    assert(pow2(629) == 0x20000000000000000000000000000000000000000000000000000000000000000000000000000000000000000000000000000000000000000000000000000000000000000000000000000000000000nat);
}

/// The entry for `10^-215`.
proof fn lemma_floor_m215()
    ensures
        power_floor(-215, 0xDCA04777F541C567, 0xECF0D7A0FC5583A0),
{
    reveal(power_floor);
    lemma_pow5_215();
    lemma_pow2_chunk_9();
    lemma2_to64();
    lemma2_to64_rest();
    lemma_pow2_adds(576, 51);
    assert(power_of_10_exponent(-215) == -778);
    assert(pow2(627) == 0x8000000000000000000000000000000000000000000000000000000000000000000000000000000000000000000000000000000000000000000000000000000000000000000000000000000000000nat);
}

/// The entry for `10^-214`.
proof fn lemma_floor_m214()
    ensures
        power_floor(-214, 0x89E42CAAF9491B60, 0xF41686C49DB57244),
{
    reveal(power_floor);
    lemma_pow5_214();
    lemma_pow2_chunk_9();
    lemma2_to64();
    lemma2_to64_rest();
    lemma_pow2_adds(576, 48);
    assert(power_of_10_exponent(-214) == -774);
    assert(pow2(624) == 0x1000000000000000000000000000000000000000000000000000000000000000000000000000000000000000000000000000000000000000000000000000000000000000000000000000000000000nat);
}

/// The entry for `10^-213`.
proof fn lemma_floor_m213()
    ensures
        power_floor(-213, 0xAC5D37D5B79B6239, 0x311C2875C522CED5),
{
    reveal(power_floor);
    lemma_pow5_213();
    lemma_pow2_chunk_9();
    lemma2_to64();
    lemma2_to64_rest();
    lemma_pow2_adds(576, 46);
    assert(power_of_10_exponent(-213) == -771);
    assert(pow2(622) == 0x400000000000000000000000000000000000000000000000000000000000000000000000000000000000000000000000000000000000000000000000000000000000000000000000000000000000nat);
}

/// The entry for `10^-212`.
proof fn lemma_floor_m212()
    ensures
        power_floor(-212, 0xD77485CB25823AC7, 0x7D633293366B828B),
{
    reveal(power_floor);
    lemma_pow5_212();
    lemma_pow2_chunk_9();
    lemma2_to64();
    lemma2_to64_rest();
    lemma_pow2_adds(576, 44);
    assert(power_of_10_exponent(-212) == -768);
    assert(pow2(620) == 0x100000000000000000000000000000000000000000000000000000000000000000000000000000000000000000000000000000000000000000000000000000000000000000000000000000000000nat);
}

/// The entry for `10^-211`.
proof fn lemma_floor_m211()
    ensures
        power_floor(-211, 0x86A8D39EF77164BC, 0xAE5DFF9C02033197),
{
    reveal(power_floor);
    lemma_pow5_211();
    lemma_pow2_chunk_9();
    lemma2_to64();
    lemma2_to64_rest();
    lemma_pow2_adds(576, 41);
    assert(power_of_10_exponent(-211) == -764);
    assert(pow2(617) == 0x20000000000000000000000000000000000000000000000000000000000000000000000000000000000000000000000000000000000000000000000000000000000000000000000000000000000nat);
}

/// The entry for `10^-210`.
proof fn lemma_floor_m210()
    ensures
        power_floor(-210, 0xA8530886B54DBDEB, 0xD9F57F830283FDFC),
{
    reveal(power_floor);
    lemma_pow5_210();
    lemma_pow2_chunk_9();
    lemma2_to64();
    lemma2_to64_rest();
    lemma_pow2_adds(576, 39);
    assert(power_of_10_exponent(-210) == -761);
    assert(pow2(615) == 0x8000000000000000000000000000000000000000000000000000000000000000000000000000000000000000000000000000000000000000000000000000000000000000000000000000000000nat);
}

/// The entry for `10^-209`.
proof fn lemma_floor_m209()
    ensures
        power_floor(-209, 0xD267CAA862A12D66, 0xD072DF63C324FD7B),
{
    reveal(power_floor);
    lemma_pow5_209();
    lemma_pow2_chunk_9();
    lemma2_to64();
    lemma2_to64_rest();
    lemma_pow2_adds(576, 37);
    assert(power_of_10_exponent(-209) == -758);
    assert(pow2(613) == 0x2000000000000000000000000000000000000000000000000000000000000000000000000000000000000000000000000000000000000000000000000000000000000000000000000000000000nat);
}

/// The entry for `10^-208`.
proof fn lemma_floor_m208()
    ensures
        power_floor(-208, 0x8380DEA93DA4BC60, 0x4247CB9E59F71E6D),
{
    reveal(power_floor);
    lemma_pow5_208();
    lemma_pow2_chunk_9();
    lemma2_to64();
    lemma2_to64_rest();
    lemma_pow2_adds(576, 34);
    assert(power_of_10_exponent(-208) == -754);
    assert(pow2(610) == 0x400000000000000000000000000000000000000000000000000000000000000000000000000000000000000000000000000000000000000000000000000000000000000000000000000000000nat);
}

/// The entry for `10^-207`.
proof fn lemma_floor_m207()
    ensures
        power_floor(-207, 0xA46116538D0DEB78, 0x52D9BE85F074E608),
{
    reveal(power_floor);
    lemma_pow5_207();
    lemma_pow2_chunk_9();
    lemma2_to64();
    lemma2_to64_rest();
    lemma_pow2_adds(576, 32);
    assert(power_of_10_exponent(-207) == -751);
    assert(pow2(608) == 0x100000000000000000000000000000000000000000000000000000000000000000000000000000000000000000000000000000000000000000000000000000000000000000000000000000000nat);
}

/// The entry for `10^-206`.
proof fn lemma_floor_m206()
    ensures
        power_floor(-206, 0xCD795BE870516656, 0x67902E276C921F8B),
{
    reveal(power_floor);
    lemma_pow5_206();
    lemma_pow2_chunk_9();
    lemma2_to64();
    lemma2_to64_rest();
    lemma_pow2_adds(576, 30);
    assert(power_of_10_exponent(-206) == -748);
    assert(pow2(606) == 0x40000000000000000000000000000000000000000000000000000000000000000000000000000000000000000000000000000000000000000000000000000000000000000000000000000000nat);
}

/// The entry for `10^-205`.
proof fn lemma_floor_m205()
    ensures
        power_floor(-205, 0x806BD9714632DFF6, 0x00BA1CD8A3DB53B6),
{
    reveal(power_floor);
    lemma_pow5_205();
    lemma_pow2_chunk_9();
    lemma2_to64();
    lemma2_to64_rest();
    lemma_pow2_adds(576, 27);
    assert(power_of_10_exponent(-205) == -744);
    assert(pow2(603) == 0x8000000000000000000000000000000000000000000000000000000000000000000000000000000000000000000000000000000000000000000000000000000000000000000000000000000nat);
}

/// The entry for `10^-204`.
proof fn lemma_floor_m204()
    ensures
        power_floor(-204, 0xA086CFCD97BF97F3, 0x80E8A40ECCD228A4),
{
    reveal(power_floor);
    lemma_pow5_204();
    lemma_pow2_chunk_9();
    lemma2_to64();
    lemma2_to64_rest();
    lemma_pow2_adds(576, 25);
    assert(power_of_10_exponent(-204) == -741);
    assert(pow2(601) == 0x2000000000000000000000000000000000000000000000000000000000000000000000000000000000000000000000000000000000000000000000000000000000000000000000000000000nat);
}

/// The entry for `10^-203`.
proof fn lemma_floor_m203()
    ensures
        power_floor(-203, 0xC8A883C0FDAF7DF0, 0x6122CD128006B2CD),
{
    reveal(power_floor);
    lemma_pow5_203();
    lemma_pow2_chunk_9();
    lemma2_to64();
    lemma2_to64_rest();
    lemma_pow2_adds(576, 23);
    assert(power_of_10_exponent(-203) == -738);
    assert(pow2(599) == 0x800000000000000000000000000000000000000000000000000000000000000000000000000000000000000000000000000000000000000000000000000000000000000000000000000000nat);
}

/// The entry for `10^-202`.
proof fn lemma_floor_m202()
    ensures
        power_floor(-202, 0xFAD2A4B13D1B5D6C, 0x796B805720085F81),
{
    reveal(power_floor);
    lemma_pow5_202();
    lemma_pow2_chunk_9();
    lemma2_to64();
    lemma2_to64_rest();
    lemma_pow2_adds(576, 21);
    assert(power_of_10_exponent(-202) == -735);
    assert(pow2(597) == 0x200000000000000000000000000000000000000000000000000000000000000000000000000000000000000000000000000000000000000000000000000000000000000000000000000000nat);
}

/// The entry for `10^-201`.
proof fn lemma_floor_m201()
    ensures
        power_floor(-201, 0x9CC3A6EEC6311A63, 0xCBE3303674053BB0),
{
    reveal(power_floor);
    lemma_pow5_201();
    lemma_pow2_chunk_9();
    lemma2_to64();
    lemma2_to64_rest();
    lemma_pow2_adds(576, 18);
    assert(power_of_10_exponent(-201) == -731);
    assert(pow2(594) == 0x40000000000000000000000000000000000000000000000000000000000000000000000000000000000000000000000000000000000000000000000000000000000000000000000000000nat);
}

/// The entry for `10^-200`.
proof fn lemma_floor_m200()
    ensures
        power_floor(-200, 0xC3F490AA77BD60FC, 0xBEDBFC4411068A9C),
{
    reveal(power_floor);
    lemma_pow5_200();
    lemma_pow2_chunk_9();
    lemma2_to64();
    lemma2_to64_rest();
    lemma_pow2_adds(576, 16);
    assert(power_of_10_exponent(-200) == -728);
    assert(pow2(592) == 0x10000000000000000000000000000000000000000000000000000000000000000000000000000000000000000000000000000000000000000000000000000000000000000000000000000nat);
}

/// The entry for `10^-199`.
proof fn lemma_floor_m199()
    ensures
        power_floor(-199, 0xF4F1B4D515ACB93B, 0xEE92FB5515482D44),
{
    reveal(power_floor);
    lemma_pow5_199();
    lemma_pow2_chunk_9();
    lemma2_to64();
    lemma2_to64_rest();
    lemma_pow2_adds(576, 14);
    assert(power_of_10_exponent(-199) == -725);
    assert(pow2(590) == 0x4000000000000000000000000000000000000000000000000000000000000000000000000000000000000000000000000000000000000000000000000000000000000000000000000000nat);
}

/// The entry for `10^-198`.
proof fn lemma_floor_m198()
    ensures
        power_floor(-198, 0x991711052D8BF3C5, 0x751BDD152D4D1C4A),
{
    reveal(power_floor);
    lemma_pow5_198();
    lemma_pow2_chunk_9();
    lemma2_to64();
    lemma2_to64_rest();
    lemma_pow2_adds(576, 11);
    assert(power_of_10_exponent(-198) == -721);
    assert(pow2(587) == 0x800000000000000000000000000000000000000000000000000000000000000000000000000000000000000000000000000000000000000000000000000000000000000000000000000nat);
}

/// The entry for `10^-197`.
proof fn lemma_floor_m197()
    ensures
        power_floor(-197, 0xBF5CD54678EEF0B6, 0xD262D45A78A0635D),
{
    reveal(power_floor);
    lemma_pow5_197();
    lemma_pow2_chunk_9();
    lemma2_to64();
    lemma2_to64_rest();
    lemma_pow2_adds(576, 9);
    assert(power_of_10_exponent(-197) == -718);
    assert(pow2(585) == 0x200000000000000000000000000000000000000000000000000000000000000000000000000000000000000000000000000000000000000000000000000000000000000000000000000nat);
}

/// The entry for `10^-196`.
proof fn lemma_floor_m196()
    ensures
        power_floor(-196, 0xEF340A98172AACE4, 0x86FB897116C87C34),
{
    reveal(power_floor);
    lemma_pow5_196();
    lemma_pow2_chunk_9();
    lemma2_to64();
    lemma2_to64_rest();
    lemma_pow2_adds(576, 7);
    assert(power_of_10_exponent(-196) == -715);
    assert(pow2(583) == 0x80000000000000000000000000000000000000000000000000000000000000000000000000000000000000000000000000000000000000000000000000000000000000000000000000nat);
}

/// The entry for `10^-195`.
proof fn lemma_floor_m195()
    ensures
        power_floor(-195, 0x9580869F0E7AAC0E, 0xD45D35E6AE3D4DA0),
{
    reveal(power_floor);
    lemma_pow5_195();
    lemma_pow2_chunk_9();
    lemma2_to64();
    lemma2_to64_rest();
    lemma_pow2_adds(576, 4);
    assert(power_of_10_exponent(-195) == -711);
    assert(pow2(580) == 0x10000000000000000000000000000000000000000000000000000000000000000000000000000000000000000000000000000000000000000000000000000000000000000000000000nat);
}

/// The entry for `10^-194`.
proof fn lemma_floor_m194()
    ensures
        power_floor(-194, 0xBAE0A846D2195712, 0x8974836059CCA109),
{
    reveal(power_floor);
    lemma_pow5_194();
    lemma_pow2_chunk_9();
    lemma2_to64();
    lemma2_to64_rest();
    lemma_pow2_adds(576, 2);
    assert(power_of_10_exponent(-194) == -708);
    assert(pow2(578) == 0x4000000000000000000000000000000000000000000000000000000000000000000000000000000000000000000000000000000000000000000000000000000000000000000000000nat);
}

/// The entry for `10^-193`.
proof fn lemma_floor_m193()
    ensures
        power_floor(-193, 0xE998D258869FACD7, 0x2BD1A438703FC94B),
{
    reveal(power_floor);
    lemma_pow5_193();
    lemma_pow2_chunk_9();
    lemma2_to64();
    lemma2_to64_rest();
    lemma_pow2_adds(576, 0);
    assert(power_of_10_exponent(-193) == -705);
    assert(pow2(576) == 0x1000000000000000000000000000000000000000000000000000000000000000000000000000000000000000000000000000000000000000000000000000000000000000000000000nat);
}

/// The entry for `10^-192`.
proof fn lemma_floor_m192()
    ensures
        power_floor(-192, 0x91FF83775423CC06, 0x7B6306A34627DDCF),
{
    reveal(power_floor);
    lemma_pow5_192();
    lemma_pow2_chunk_8();
    lemma2_to64();
    lemma2_to64_rest();
    lemma_pow2_adds(512, 61);
    assert(power_of_10_exponent(-192) == -701);
    assert(pow2(573) == 0x200000000000000000000000000000000000000000000000000000000000000000000000000000000000000000000000000000000000000000000000000000000000000000000000nat);
}

/// The entry for `10^-191`.
proof fn lemma_floor_m191()
    ensures
        power_floor(-191, 0xB67F6455292CBF08, 0x1A3BC84C17B1D542),
{
    reveal(power_floor);
    lemma_pow5_191();
    lemma_pow2_chunk_8();
    lemma2_to64();
    lemma2_to64_rest();
    lemma_pow2_adds(512, 59);
    assert(power_of_10_exponent(-191) == -698);
    assert(pow2(571) == 0x80000000000000000000000000000000000000000000000000000000000000000000000000000000000000000000000000000000000000000000000000000000000000000000000nat);
}

/// The entry for `10^-190`.
proof fn lemma_floor_m190()
    ensures
        power_floor(-190, 0xE41F3D6A7377EECA, 0x20CABA5F1D9E4A93),
{
    reveal(power_floor);
    lemma_pow5_190();
    lemma_pow2_chunk_8();
    lemma2_to64();
    lemma2_to64_rest();
    lemma_pow2_adds(512, 57);
    assert(power_of_10_exponent(-190) == -695);
    assert(pow2(569) == 0x20000000000000000000000000000000000000000000000000000000000000000000000000000000000000000000000000000000000000000000000000000000000000000000000nat);
}

/// The entry for `10^-189`.
proof fn lemma_floor_m189()
    ensures
        power_floor(-189, 0x8E938662882AF53E, 0x547EB47B7282EE9C),
{
    reveal(power_floor);
    lemma_pow5_189();
    lemma_pow2_chunk_8();
    lemma2_to64();
    lemma2_to64_rest();
    lemma_pow2_adds(512, 54);
    assert(power_of_10_exponent(-189) == -691);
    assert(pow2(566) == 0x4000000000000000000000000000000000000000000000000000000000000000000000000000000000000000000000000000000000000000000000000000000000000000000000nat);
}

/// The entry for `10^-188`.
proof fn lemma_floor_m188()
    ensures
        power_floor(-188, 0xB23867FB2A35B28D, 0xE99E619A4F23AA43),
{
    reveal(power_floor);
    lemma_pow5_188();
    lemma_pow2_chunk_8();
    lemma2_to64();
    lemma2_to64_rest();
    lemma_pow2_adds(512, 52);
    assert(power_of_10_exponent(-188) == -688);
    assert(pow2(564) == 0x1000000000000000000000000000000000000000000000000000000000000000000000000000000000000000000000000000000000000000000000000000000000000000000000nat);
}

/// The entry for `10^-187`.
proof fn lemma_floor_m187()
    ensures
        power_floor(-187, 0xDEC681F9F4C31F31, 0x6405FA00E2EC94D4),
{
    reveal(power_floor);
    lemma_pow5_187();
    lemma_pow2_chunk_8();
    lemma2_to64();
    lemma2_to64_rest();
    lemma_pow2_adds(512, 50);
    assert(power_of_10_exponent(-187) == -685);
    assert(pow2(562) == 0x400000000000000000000000000000000000000000000000000000000000000000000000000000000000000000000000000000000000000000000000000000000000000000000nat);
}

/// The entry for `10^-186`.
proof fn lemma_floor_m186()
    ensures
        power_floor(-186, 0x8B3C113C38F9F37E, 0xDE83BC408DD3DD04),
{
    reveal(power_floor);
    lemma_pow5_186();
    lemma_pow2_chunk_8();
    lemma2_to64();
    lemma2_to64_rest();
    lemma_pow2_adds(512, 47);
    assert(power_of_10_exponent(-186) == -681);
    assert(pow2(559) == 0x80000000000000000000000000000000000000000000000000000000000000000000000000000000000000000000000000000000000000000000000000000000000000000000nat);
}

/// The entry for `10^-185`.
proof fn lemma_floor_m185()
    ensures
        power_floor(-185, 0xAE0B158B4738705E, 0x9624AB50B148D445),
{
    reveal(power_floor);
    lemma_pow5_185();
    lemma_pow2_chunk_8();
    lemma2_to64();
    lemma2_to64_rest();
    lemma_pow2_adds(512, 45);
    assert(power_of_10_exponent(-185) == -678);
    assert(pow2(557) == 0x20000000000000000000000000000000000000000000000000000000000000000000000000000000000000000000000000000000000000000000000000000000000000000000nat);
}

/// The entry for `10^-184`.
proof fn lemma_floor_m184()
    ensures
        power_floor(-184, 0xD98DDAEE19068C76, 0x3BADD624DD9B0957),
{
    reveal(power_floor);
    lemma_pow5_184();
    lemma_pow2_chunk_8();
    lemma2_to64();
    lemma2_to64_rest();
    lemma_pow2_adds(512, 43);
    assert(power_of_10_exponent(-184) == -675);
    assert(pow2(555) == 0x8000000000000000000000000000000000000000000000000000000000000000000000000000000000000000000000000000000000000000000000000000000000000000000nat);
}

/// The entry for `10^-183`.
proof fn lemma_floor_m183()
    ensures
        power_floor(-183, 0x87F8A8D4CFA417C9, 0xE54CA5D70A80E5D6),
{
    reveal(power_floor);
    lemma_pow5_183();
    lemma_pow2_chunk_8();
    lemma2_to64();
    lemma2_to64_rest();
    lemma_pow2_adds(512, 40);
    assert(power_of_10_exponent(-183) == -671);
    assert(pow2(552) == 0x1000000000000000000000000000000000000000000000000000000000000000000000000000000000000000000000000000000000000000000000000000000000000000000nat);
}

/// The entry for `10^-182`.
proof fn lemma_floor_m182()
    ensures
        power_floor(-182, 0xA9F6D30A038D1DBC, 0x5E9FCF4CCD211F4C),
{
    reveal(power_floor);
    lemma_pow5_182();
    lemma_pow2_chunk_8();
    lemma2_to64();
    lemma2_to64_rest();
    lemma_pow2_adds(512, 38);
    assert(power_of_10_exponent(-182) == -668);
    assert(pow2(550) == 0x400000000000000000000000000000000000000000000000000000000000000000000000000000000000000000000000000000000000000000000000000000000000000000nat);
}

/// The entry for `10^-181`.
proof fn lemma_floor_m181()
    ensures
        power_floor(-181, 0xD47487CC8470652B, 0x7647C3200069671F),
{
    reveal(power_floor);
    lemma_pow5_181();
    lemma_pow2_chunk_8();
    lemma2_to64();
    lemma2_to64_rest();
    lemma_pow2_adds(512, 36);
    assert(power_of_10_exponent(-181) == -665);
    assert(pow2(548) == 0x100000000000000000000000000000000000000000000000000000000000000000000000000000000000000000000000000000000000000000000000000000000000000000nat);
}

/// The entry for `10^-180`.
proof fn lemma_floor_m180()
    ensures
        power_floor(-180, 0x84C8D4DFD2C63F3B, 0x29ECD9F40041E073),
{
    reveal(power_floor);
    lemma_pow5_180();
    lemma_pow2_chunk_8();
    lemma2_to64();
    lemma2_to64_rest();
    lemma_pow2_adds(512, 33);
    assert(power_of_10_exponent(-180) == -661);
    assert(pow2(545) == 0x20000000000000000000000000000000000000000000000000000000000000000000000000000000000000000000000000000000000000000000000000000000000000000nat);
}

/// The entry for `10^-179`.
proof fn lemma_floor_m179()
    ensures
        power_floor(-179, 0xA5FB0A17C777CF09, 0xF468107100525890),
{
    reveal(power_floor);
    lemma_pow5_179();
    lemma_pow2_chunk_8();
    lemma2_to64();
    lemma2_to64_rest();
    lemma_pow2_adds(512, 31);
    assert(power_of_10_exponent(-179) == -658);
    assert(pow2(543) == 0x8000000000000000000000000000000000000000000000000000000000000000000000000000000000000000000000000000000000000000000000000000000000000000nat);
}

/// The entry for `10^-178`.
proof fn lemma_floor_m178()
    ensures
        power_floor(-178, 0xCF79CC9DB955C2CC, 0x7182148D4066EEB4),
{
    reveal(power_floor);
    lemma_pow5_178();
    lemma_pow2_chunk_8();
    lemma2_to64();
    lemma2_to64_rest();
    lemma_pow2_adds(512, 29);
    assert(power_of_10_exponent(-178) == -655);
    assert(pow2(541) == 0x2000000000000000000000000000000000000000000000000000000000000000000000000000000000000000000000000000000000000000000000000000000000000000nat);
}

/// The entry for `10^-177`.
proof fn lemma_floor_m177()
    ensures
        power_floor(-177, 0x81AC1FE293D599BF, 0xC6F14CD848405530),
{
    reveal(power_floor);
    lemma_pow5_177();
    lemma_pow2_chunk_8();
    lemma2_to64();
    lemma2_to64_rest();
    lemma_pow2_adds(512, 26);
    assert(power_of_10_exponent(-177) == -651);
    assert(pow2(538) == 0x400000000000000000000000000000000000000000000000000000000000000000000000000000000000000000000000000000000000000000000000000000000000000nat);
}

/// The entry for `10^-176`.
proof fn lemma_floor_m176()
    ensures
        power_floor(-176, 0xA21727DB38CB002F, 0xB8ADA00E5A506A7C),
{
    reveal(power_floor);
    lemma_pow5_176();
    lemma_pow2_chunk_8();
    lemma2_to64();
    lemma2_to64_rest();
    lemma_pow2_adds(512, 24);
    assert(power_of_10_exponent(-176) == -648);
    assert(pow2(536) == 0x100000000000000000000000000000000000000000000000000000000000000000000000000000000000000000000000000000000000000000000000000000000000000nat);
}

/// The entry for `10^-175`.
proof fn lemma_floor_m175()
    ensures
        power_floor(-175, 0xCA9CF1D206FDC03B, 0xA6D90811F0E4851C),
{
    reveal(power_floor);
    lemma_pow5_175();
    lemma_pow2_chunk_8();
    lemma2_to64();
    lemma2_to64_rest();
    lemma_pow2_adds(512, 22);
    assert(power_of_10_exponent(-175) == -645);
    assert(pow2(534) == 0x40000000000000000000000000000000000000000000000000000000000000000000000000000000000000000000000000000000000000000000000000000000000000nat);
}

/// The entry for `10^-174`.
proof fn lemma_floor_m174()
    ensures
        power_floor(-174, 0xFD442E4688BD304A, 0x908F4A166D1DA663),
{
    reveal(power_floor);
    lemma_pow5_174();
    lemma_pow2_chunk_8();
    lemma2_to64();
    lemma2_to64_rest();
    lemma_pow2_adds(512, 20);
    assert(power_of_10_exponent(-174) == -642);
    assert(pow2(532) == 0x10000000000000000000000000000000000000000000000000000000000000000000000000000000000000000000000000000000000000000000000000000000000000nat);
}

/// The entry for `10^-173`.
proof fn lemma_floor_m173()
    ensures
        power_floor(-173, 0x9E4A9CEC15763E2E, 0x9A598E4E043287FE),
{
    reveal(power_floor);
    lemma_pow5_173();
    lemma_pow2_chunk_8();
    lemma2_to64();
    lemma2_to64_rest();
    lemma_pow2_adds(512, 17);
    assert(power_of_10_exponent(-173) == -638);
    assert(pow2(529) == 0x2000000000000000000000000000000000000000000000000000000000000000000000000000000000000000000000000000000000000000000000000000000000000nat);
}

/// The entry for `10^-172`.
proof fn lemma_floor_m172()
    ensures
        power_floor(-172, 0xC5DD44271AD3CDBA, 0x40EFF1E1853F29FD),
{
    reveal(power_floor);
    lemma_pow5_172();
    lemma_pow2_chunk_8();
    lemma2_to64();
    lemma2_to64_rest();
    lemma_pow2_adds(512, 15);
    assert(power_of_10_exponent(-172) == -635);
    assert(pow2(527) == 0x800000000000000000000000000000000000000000000000000000000000000000000000000000000000000000000000000000000000000000000000000000000000nat);
}

/// The entry for `10^-171`.
proof fn lemma_floor_m171()
    ensures
        power_floor(-171, 0xF7549530E188C128, 0xD12BEE59E68EF47C),
{
    reveal(power_floor);
    lemma_pow5_171();
    lemma_pow2_chunk_8();
    lemma2_to64();
    lemma2_to64_rest();
    lemma_pow2_adds(512, 13);
    assert(power_of_10_exponent(-171) == -632);
    assert(pow2(525) == 0x200000000000000000000000000000000000000000000000000000000000000000000000000000000000000000000000000000000000000000000000000000000000nat);
}

/// The entry for `10^-170`.
proof fn lemma_floor_m170()
    ensures
        power_floor(-170, 0x9A94DD3E8CF578B9, 0x82BB74F8301958CE),
{
    reveal(power_floor);
    lemma_pow5_170();
    lemma_pow2_chunk_8();
    lemma2_to64();
    lemma2_to64_rest();
    lemma_pow2_adds(512, 10);
    assert(power_of_10_exponent(-170) == -628);
    assert(pow2(522) == 0x40000000000000000000000000000000000000000000000000000000000000000000000000000000000000000000000000000000000000000000000000000000000nat);
}

/// The entry for `10^-169`.
proof fn lemma_floor_m169()
    ensures
        power_floor(-169, 0xC13A148E3032D6E7, 0xE36A52363C1FAF01),
{
    reveal(power_floor);
    lemma_pow5_169();
    lemma_pow2_chunk_8();
    lemma2_to64();
    lemma2_to64_rest();
    lemma_pow2_adds(512, 8);
    assert(power_of_10_exponent(-169) == -625);
    assert(pow2(520) == 0x10000000000000000000000000000000000000000000000000000000000000000000000000000000000000000000000000000000000000000000000000000000000nat);
}

/// The entry for `10^-168`.
proof fn lemma_floor_m168()
    ensures
        power_floor(-168, 0xF18899B1BC3F8CA1, 0xDC44E6C3CB279AC1),
{
    reveal(power_floor);
    lemma_pow5_168();
    lemma_pow2_chunk_8();
    lemma2_to64();
    lemma2_to64_rest();
    lemma_pow2_adds(512, 6);
    assert(power_of_10_exponent(-168) == -622);
    assert(pow2(518) == 0x4000000000000000000000000000000000000000000000000000000000000000000000000000000000000000000000000000000000000000000000000000000000nat);
}

/// The entry for `10^-167`.
proof fn lemma_floor_m167()
    ensures
        power_floor(-167, 0x96F5600F15A7B7E5, 0x29AB103A5EF8C0B9),
{
    reveal(power_floor);
    lemma_pow5_167();
    lemma_pow2_chunk_8();
    lemma2_to64();
    lemma2_to64_rest();
    lemma_pow2_adds(512, 3);
    assert(power_of_10_exponent(-167) == -618);
    assert(pow2(515) == 0x800000000000000000000000000000000000000000000000000000000000000000000000000000000000000000000000000000000000000000000000000000000nat);
}

/// The entry for `10^-166`.
proof fn lemma_floor_m166()
    ensures
        power_floor(-166, 0xBCB2B812DB11A5DE, 0x7415D448F6B6F0E7),
{
    reveal(power_floor);
    lemma_pow5_166();
    lemma_pow2_chunk_8();
    lemma2_to64();
    lemma2_to64_rest();
    lemma_pow2_adds(512, 1);
    assert(power_of_10_exponent(-166) == -615);
    assert(pow2(513) == 0x200000000000000000000000000000000000000000000000000000000000000000000000000000000000000000000000000000000000000000000000000000000nat);
}

/// The entry for `10^-165`.
proof fn lemma_floor_m165()
    ensures
        power_floor(-165, 0xEBDF661791D60F56, 0x111B495B3464AD21),
{
    reveal(power_floor);
    lemma_pow5_165();
    lemma_pow2_chunk_7();
    lemma2_to64();
    lemma2_to64_rest();
    lemma_pow2_adds(448, 63);
    assert(power_of_10_exponent(-165) == -612);
    assert(pow2(511) == 0x80000000000000000000000000000000000000000000000000000000000000000000000000000000000000000000000000000000000000000000000000000000nat);
}

/// The entry for `10^-164`.
proof fn lemma_floor_m164()
    ensures
        power_floor(-164, 0x936B9FCEBB25C995, 0xCAB10DD900BEEC34),
{
    reveal(power_floor);
    lemma_pow5_164();
    lemma_pow2_chunk_7();
    lemma2_to64();
    lemma2_to64_rest();
    lemma_pow2_adds(448, 60);
    assert(power_of_10_exponent(-164) == -608);
    assert(pow2(508) == 0x10000000000000000000000000000000000000000000000000000000000000000000000000000000000000000000000000000000000000000000000000000000nat);
}

/// The entry for `10^-163`.
proof fn lemma_floor_m163()
    ensures
        power_floor(-163, 0xB84687C269EF3BFB, 0x3D5D514F40EEA742),
{
    reveal(power_floor);
    lemma_pow5_163();
    lemma_pow2_chunk_7();
    lemma2_to64();
    lemma2_to64_rest();
    lemma_pow2_adds(448, 58);
    assert(power_of_10_exponent(-163) == -605);
    assert(pow2(506) == 0x4000000000000000000000000000000000000000000000000000000000000000000000000000000000000000000000000000000000000000000000000000000nat);
}

/// The entry for `10^-162`.
proof fn lemma_floor_m162()
    ensures
        power_floor(-162, 0xE65829B3046B0AFA, 0x0CB4A5A3112A5112),
{
    reveal(power_floor);
    lemma_pow5_162();
    lemma_pow2_chunk_7();
    lemma2_to64();
    lemma2_to64_rest();
    lemma_pow2_adds(448, 56);
    assert(power_of_10_exponent(-162) == -602);
    assert(pow2(504) == 0x1000000000000000000000000000000000000000000000000000000000000000000000000000000000000000000000000000000000000000000000000000000nat);
}

/// The entry for `10^-161`.
proof fn lemma_floor_m161()
    ensures
        power_floor(-161, 0x8FF71A0FE2C2E6DC, 0x47F0E785EABA72AB),
{
    reveal(power_floor);
    lemma_pow5_161();
    lemma_pow2_chunk_7();
    lemma2_to64();
    lemma2_to64_rest();
    lemma_pow2_adds(448, 53);
    assert(power_of_10_exponent(-161) == -598);
    assert(pow2(501) == 0x200000000000000000000000000000000000000000000000000000000000000000000000000000000000000000000000000000000000000000000000000000nat);
}

/// The entry for `10^-160`.
proof fn lemma_floor_m160()
    ensures
        power_floor(-160, 0xB3F4E093DB73A093, 0x59ED216765690F56),
{
    reveal(power_floor);
    lemma_pow5_160();
    lemma_pow2_chunk_7();
    lemma2_to64();
    lemma2_to64_rest();
    lemma_pow2_adds(448, 51);
    assert(power_of_10_exponent(-160) == -595);
    assert(pow2(499) == 0x80000000000000000000000000000000000000000000000000000000000000000000000000000000000000000000000000000000000000000000000000000nat);
}

/// The entry for `10^-159`.
proof fn lemma_floor_m159()
    ensures
        power_floor(-159, 0xE0F218B8D25088B8, 0x306869C13EC3532C),
{
    reveal(power_floor);
    lemma_pow5_159();
    lemma_pow2_chunk_7();
    lemma2_to64();
    lemma2_to64_rest();
    lemma_pow2_adds(448, 49);
    assert(power_of_10_exponent(-159) == -592);
    assert(pow2(497) == 0x20000000000000000000000000000000000000000000000000000000000000000000000000000000000000000000000000000000000000000000000000000nat);
}

/// The entry for `10^-158`.
proof fn lemma_floor_m158()
    ensures
        power_floor(-158, 0x8C974F7383725573, 0x1E414218C73A13FB),
{
    reveal(power_floor);
    lemma_pow5_158();
    lemma_pow2_chunk_7();
    lemma2_to64();
    lemma2_to64_rest();
    lemma_pow2_adds(448, 46);
    assert(power_of_10_exponent(-158) == -588);
    assert(pow2(494) == 0x4000000000000000000000000000000000000000000000000000000000000000000000000000000000000000000000000000000000000000000000000000nat);
}

/// The entry for `10^-157`.
proof fn lemma_floor_m157()
    ensures
        power_floor(-157, 0xAFBD2350644EEACF, 0xE5D1929EF90898FA),
{
    reveal(power_floor);
    lemma_pow5_157();
    lemma_pow2_chunk_7();
    lemma2_to64();
    lemma2_to64_rest();
    lemma_pow2_adds(448, 44);
    assert(power_of_10_exponent(-157) == -585);
    assert(pow2(492) == 0x1000000000000000000000000000000000000000000000000000000000000000000000000000000000000000000000000000000000000000000000000000nat);
}

/// The entry for `10^-156`.
proof fn lemma_floor_m156()
    ensures
        power_floor(-156, 0xDBAC6C247D62A583, 0xDF45F746B74ABF39),
{
    reveal(power_floor);
    lemma_pow5_156();
    lemma_pow2_chunk_7();
    lemma2_to64();
    lemma2_to64_rest();
    lemma_pow2_adds(448, 42);
    assert(power_of_10_exponent(-156) == -582);
    assert(pow2(490) == 0x400000000000000000000000000000000000000000000000000000000000000000000000000000000000000000000000000000000000000000000000000nat);
}

/// The entry for `10^-155`.
proof fn lemma_floor_m155()
    ensures
        power_floor(-155, 0x894BC396CE5DA772, 0x6B8BBA8C328EB783),
{
    reveal(power_floor);
    lemma_pow5_155();
    lemma_pow2_chunk_7();
    lemma2_to64();
    lemma2_to64_rest();
    lemma_pow2_adds(448, 39);
    assert(power_of_10_exponent(-155) == -578);
    assert(pow2(487) == 0x80000000000000000000000000000000000000000000000000000000000000000000000000000000000000000000000000000000000000000000000000nat);
}

/// The entry for `10^-154`.
proof fn lemma_floor_m154()
    ensures
        power_floor(-154, 0xAB9EB47C81F5114F, 0x066EA92F3F326564),
{
    reveal(power_floor);
    lemma_pow5_154();
    lemma_pow2_chunk_7();
    lemma2_to64();
    lemma2_to64_rest();
    lemma_pow2_adds(448, 37);
    assert(power_of_10_exponent(-154) == -575);
    assert(pow2(485) == 0x20000000000000000000000000000000000000000000000000000000000000000000000000000000000000000000000000000000000000000000000000nat);
}

/// The entry for `10^-153`.
proof fn lemma_floor_m153()
    ensures
        power_floor(-153, 0xD686619BA27255A2, 0xC80A537B0EFEFEBD),
{
    reveal(power_floor);
    lemma_pow5_153();
    lemma_pow2_chunk_7();
    lemma2_to64();
    lemma2_to64_rest();
    lemma_pow2_adds(448, 35);
    assert(power_of_10_exponent(-153) == -572);
    assert(pow2(483) == 0x8000000000000000000000000000000000000000000000000000000000000000000000000000000000000000000000000000000000000000000000000nat);
}

/// The entry for `10^-152`.
proof fn lemma_floor_m152()
    ensures
        power_floor(-152, 0x8613FD0145877585, 0xBD06742CE95F5F36),
{
    reveal(power_floor);
    lemma_pow5_152();
    lemma_pow2_chunk_7();
    lemma2_to64();
    lemma2_to64_rest();
    lemma_pow2_adds(448, 32);
    assert(power_of_10_exponent(-152) == -568);
    assert(pow2(480) == 0x1000000000000000000000000000000000000000000000000000000000000000000000000000000000000000000000000000000000000000000000000nat);
}

/// The entry for `10^-151`.
proof fn lemma_floor_m151()
    ensures
        power_floor(-151, 0xA798FC4196E952E7, 0x2C48113823B73704),
{
    reveal(power_floor);
    lemma_pow5_151();
    lemma_pow2_chunk_7();
    lemma2_to64();
    lemma2_to64_rest();
    lemma_pow2_adds(448, 30);
    assert(power_of_10_exponent(-151) == -565);
    assert(pow2(478) == 0x400000000000000000000000000000000000000000000000000000000000000000000000000000000000000000000000000000000000000000000000nat);
}

/// The entry for `10^-150`.
proof fn lemma_floor_m150()
    ensures
        power_floor(-150, 0xD17F3B51FCA3A7A0, 0xF75A15862CA504C5),
{
    reveal(power_floor);
    lemma_pow5_150();
    lemma_pow2_chunk_7();
    lemma2_to64();
    lemma2_to64_rest();
    lemma_pow2_adds(448, 28);
    assert(power_of_10_exponent(-150) == -562);
    assert(pow2(476) == 0x100000000000000000000000000000000000000000000000000000000000000000000000000000000000000000000000000000000000000000000000nat);
}

/// The entry for `10^-149`.
proof fn lemma_floor_m149()
    ensures
        power_floor(-149, 0x82EF85133DE648C4, 0x9A984D73DBE722FB),
{
    reveal(power_floor);
    lemma_pow5_149();
    lemma_pow2_chunk_7();
    lemma2_to64();
    lemma2_to64_rest();
    lemma_pow2_adds(448, 25);
    assert(power_of_10_exponent(-149) == -558);
    assert(pow2(473) == 0x20000000000000000000000000000000000000000000000000000000000000000000000000000000000000000000000000000000000000000000000nat);
}

/// The entry for `10^-148`.
proof fn lemma_floor_m148()
    ensures
        power_floor(-148, 0xA3AB66580D5FDAF5, 0xC13E60D0D2E0EBBA),
{
    reveal(power_floor);
    lemma_pow5_148();
    lemma_pow2_chunk_7();
    lemma2_to64();
    lemma2_to64_rest();
    lemma_pow2_adds(448, 23);
    assert(power_of_10_exponent(-148) == -555);
    assert(pow2(471) == 0x8000000000000000000000000000000000000000000000000000000000000000000000000000000000000000000000000000000000000000000000nat);
}

/// The entry for `10^-147`.
proof fn lemma_floor_m147()
    ensures
        power_floor(-147, 0xCC963FEE10B7D1B3, 0x318DF905079926A8),
{
    reveal(power_floor);
    lemma_pow5_147();
    lemma_pow2_chunk_7();
    lemma2_to64();
    lemma2_to64_rest();
    lemma_pow2_adds(448, 21);
    assert(power_of_10_exponent(-147) == -552);
    assert(pow2(469) == 0x2000000000000000000000000000000000000000000000000000000000000000000000000000000000000000000000000000000000000000000000nat);
}

/// The entry for `10^-146`.
proof fn lemma_floor_m146()
    ensures
        power_floor(-146, 0xFFBBCFE994E5C61F, 0xFDF17746497F7052),
{
    reveal(power_floor);
    lemma_pow5_146();
    lemma_pow2_chunk_7();
    lemma2_to64();
    lemma2_to64_rest();
    lemma_pow2_adds(448, 19);
    assert(power_of_10_exponent(-146) == -549);
    assert(pow2(467) == 0x800000000000000000000000000000000000000000000000000000000000000000000000000000000000000000000000000000000000000000000nat);
}

/// The entry for `10^-145`.
proof fn lemma_floor_m145()
    ensures
        power_floor(-145, 0x9FD561F1FD0F9BD3, 0xFEB6EA8BEDEFA633),
{
    reveal(power_floor);
    lemma_pow5_145();
    lemma_pow2_chunk_7();
    lemma2_to64();
    lemma2_to64_rest();
    lemma_pow2_adds(448, 16);
    assert(power_of_10_exponent(-145) == -545);
    assert(pow2(464) == 0x100000000000000000000000000000000000000000000000000000000000000000000000000000000000000000000000000000000000000000000nat);
}

/// The entry for `10^-144`.
proof fn lemma_floor_m144()
    ensures
        power_floor(-144, 0xC7CABA6E7C5382C8, 0xFE64A52EE96B8FC0),
{
    reveal(power_floor);
    lemma_pow5_144();
    lemma_pow2_chunk_7();
    lemma2_to64();
    lemma2_to64_rest();
    lemma_pow2_adds(448, 14);
    assert(power_of_10_exponent(-144) == -542);
    assert(pow2(462) == 0x40000000000000000000000000000000000000000000000000000000000000000000000000000000000000000000000000000000000000000000nat);
}

/// The entry for `10^-143`.
proof fn lemma_floor_m143()
    ensures
        power_floor(-143, 0xF9BD690A1B68637B, 0x3DFDCE7AA3C673B0),
{
    reveal(power_floor);
    lemma_pow5_143();
    lemma_pow2_chunk_7();
    lemma2_to64();
    lemma2_to64_rest();
    lemma_pow2_adds(448, 12);
    assert(power_of_10_exponent(-143) == -539);
    assert(pow2(460) == 0x10000000000000000000000000000000000000000000000000000000000000000000000000000000000000000000000000000000000000000000nat);
}

/// The entry for `10^-142`.
proof fn lemma_floor_m142()
    ensures
        power_floor(-142, 0x9C1661A651213E2D, 0x06BEA10CA65C084E),
{
    reveal(power_floor);
    lemma_pow5_142();
    lemma_pow2_chunk_7();
    lemma2_to64();
    lemma2_to64_rest();
    lemma_pow2_adds(448, 9);
    assert(power_of_10_exponent(-142) == -535);
    assert(pow2(457) == 0x2000000000000000000000000000000000000000000000000000000000000000000000000000000000000000000000000000000000000000000nat);
}

/// The entry for `10^-141`.
proof fn lemma_floor_m141()
    ensures
        power_floor(-141, 0xC31BFA0FE5698DB8, 0x486E494FCFF30A62),
{
    reveal(power_floor);
    lemma_pow5_141();
    lemma_pow2_chunk_7();
    lemma2_to64();
    lemma2_to64_rest();
    lemma_pow2_adds(448, 7);
    assert(power_of_10_exponent(-141) == -532);
    assert(pow2(455) == 0x800000000000000000000000000000000000000000000000000000000000000000000000000000000000000000000000000000000000000000nat);
}

/// The entry for `10^-140`.
proof fn lemma_floor_m140()
    ensures
        power_floor(-140, 0xF3E2F893DEC3F126, 0x5A89DBA3C3EFCCFA),
{
    reveal(power_floor);
    lemma_pow5_140();
    lemma_pow2_chunk_7();
    lemma2_to64();
    lemma2_to64_rest();
    lemma_pow2_adds(448, 5);
    assert(power_of_10_exponent(-140) == -529);
    assert(pow2(453) == 0x200000000000000000000000000000000000000000000000000000000000000000000000000000000000000000000000000000000000000000nat);
}

/// The entry for `10^-139`.
proof fn lemma_floor_m139()
    ensures
        power_floor(-139, 0x986DDB5C6B3A76B7, 0xF89629465A75E01C),
{
    reveal(power_floor);
    lemma_pow5_139();
    lemma_pow2_chunk_7();
    lemma2_to64();
    lemma2_to64_rest();
    lemma_pow2_adds(448, 2);
    assert(power_of_10_exponent(-139) == -525);
    assert(pow2(450) == 0x40000000000000000000000000000000000000000000000000000000000000000000000000000000000000000000000000000000000000000nat);
}

/// The entry for `10^-138`.
proof fn lemma_floor_m138()
    ensures
        power_floor(-138, 0xBE89523386091465, 0xF6BBB397F1135823),
{
    reveal(power_floor);
    lemma_pow5_138();
    lemma_pow2_chunk_7();
    lemma2_to64();
    lemma2_to64_rest();
    lemma_pow2_adds(448, 0);
    assert(power_of_10_exponent(-138) == -522);
    assert(pow2(448) == 0x10000000000000000000000000000000000000000000000000000000000000000000000000000000000000000000000000000000000000000nat);
}

/// The entry for `10^-137`.
proof fn lemma_floor_m137()
    ensures
        power_floor(-137, 0xEE2BA6C0678B597F, 0x746AA07DED582E2C),
{
    reveal(power_floor);
    lemma_pow5_137();
    lemma_pow2_chunk_6();
    lemma2_to64();
    lemma2_to64_rest();
    lemma_pow2_adds(384, 62);
    assert(power_of_10_exponent(-137) == -519);
    assert(pow2(446) == 0x4000000000000000000000000000000000000000000000000000000000000000000000000000000000000000000000000000000000000000nat);
}

/// The entry for `10^-136`.
proof fn lemma_floor_m136()
    ensures
        power_floor(-136, 0x94DB483840B717EF, 0xA8C2A44EB4571CDC),
{
    reveal(power_floor);
    lemma_pow5_136();
    lemma_pow2_chunk_6();
    lemma2_to64();
    lemma2_to64_rest();
    lemma_pow2_adds(384, 59);
    assert(power_of_10_exponent(-136) == -515);
    assert(pow2(443) == 0x800000000000000000000000000000000000000000000000000000000000000000000000000000000000000000000000000000000000000nat);
}

/// The entry for `10^-135`.
proof fn lemma_floor_m135()
    ensures
        power_floor(-135, 0xBA121A4650E4DDEB, 0x92F34D62616CE413),
{
    reveal(power_floor);
    lemma_pow5_135();
    lemma_pow2_chunk_6();
    lemma2_to64();
    lemma2_to64_rest();
    lemma_pow2_adds(384, 57);
    assert(power_of_10_exponent(-135) == -512);
    assert(pow2(441) == 0x200000000000000000000000000000000000000000000000000000000000000000000000000000000000000000000000000000000000000nat);
}

/// The entry for `10^-134`.
proof fn lemma_floor_m134()
    ensures
        power_floor(-134, 0xE896A0D7E51E1566, 0x77B020BAF9C81D17),
{
    reveal(power_floor);
    lemma_pow5_134();
    lemma_pow2_chunk_6();
    lemma2_to64();
    lemma2_to64_rest();
    lemma_pow2_adds(384, 55);
    assert(power_of_10_exponent(-134) == -509);
    assert(pow2(439) == 0x80000000000000000000000000000000000000000000000000000000000000000000000000000000000000000000000000000000000000nat);
}

/// The entry for `10^-133`.
proof fn lemma_floor_m133()
    ensures
        power_floor(-133, 0x915E2486EF32CD60, 0x0ACE1474DC1D122E),
{
    reveal(power_floor);
    lemma_pow5_133();
    lemma_pow2_chunk_6();
    lemma2_to64();
    lemma2_to64_rest();
    lemma_pow2_adds(384, 52);
    assert(power_of_10_exponent(-133) == -505);
    assert(pow2(436) == 0x10000000000000000000000000000000000000000000000000000000000000000000000000000000000000000000000000000000000000nat);
}

/// The entry for `10^-132`.
proof fn lemma_floor_m132()
    ensures
        power_floor(-132, 0xB5B5ADA8AAFF80B8, 0x0D819992132456BA),
{
    reveal(power_floor);
    lemma_pow5_132();
    lemma_pow2_chunk_6();
    lemma2_to64();
    lemma2_to64_rest();
    lemma_pow2_adds(384, 50);
    assert(power_of_10_exponent(-132) == -502);
    assert(pow2(434) == 0x4000000000000000000000000000000000000000000000000000000000000000000000000000000000000000000000000000000000000nat);
}

/// The entry for `10^-131`.
proof fn lemma_floor_m131()
    ensures
        power_floor(-131, 0xE3231912D5BF60E6, 0x10E1FFF697ED6C69),
{
    reveal(power_floor);
    lemma_pow5_131();
    lemma_pow2_chunk_6();
    lemma2_to64();
    lemma2_to64_rest();
    lemma_pow2_adds(384, 48);
    assert(power_of_10_exponent(-131) == -499);
    assert(pow2(432) == 0x1000000000000000000000000000000000000000000000000000000000000000000000000000000000000000000000000000000000000nat);
}

/// The entry for `10^-130`.
proof fn lemma_floor_m130()
    ensures
        power_floor(-130, 0x8DF5EFABC5979C8F, 0xCA8D3FFA1EF463C1),
{
    reveal(power_floor);
    lemma_pow5_130();
    lemma_pow2_chunk_6();
    lemma2_to64();
    lemma2_to64_rest();
    lemma_pow2_adds(384, 45);
    assert(power_of_10_exponent(-130) == -495);
    assert(pow2(429) == 0x200000000000000000000000000000000000000000000000000000000000000000000000000000000000000000000000000000000000nat);
}

/// The entry for `10^-129`.
proof fn lemma_floor_m129()
    ensures
        power_floor(-129, 0xB1736B96B6FD83B3, 0xBD308FF8A6B17CB2),
{
    reveal(power_floor);
    lemma_pow5_129();
    lemma_pow2_chunk_6();
    lemma2_to64();
    lemma2_to64_rest();
    lemma_pow2_adds(384, 43);
    assert(power_of_10_exponent(-129) == -492);
    assert(pow2(427) == 0x80000000000000000000000000000000000000000000000000000000000000000000000000000000000000000000000000000000000nat);
}

/// The entry for `10^-128`.
proof fn lemma_floor_m128()
    ensures
        power_floor(-128, 0xDDD0467C64BCE4A0, 0xAC7CB3F6D05DDBDE),
{
    reveal(power_floor);
    lemma_pow5_128();
    lemma_pow2_chunk_6();
    lemma2_to64();
    lemma2_to64_rest();
    lemma_pow2_adds(384, 41);
    assert(power_of_10_exponent(-128) == -489);
    assert(pow2(425) == 0x20000000000000000000000000000000000000000000000000000000000000000000000000000000000000000000000000000000000nat);
}

/// The entry for `10^-127`.
proof fn lemma_floor_m127()
    ensures
        power_floor(-127, 0x8AA22C0DBEF60EE4, 0x6BCDF07A423AA96B),
{
    reveal(power_floor);
    lemma_pow5_127();
    lemma_pow2_chunk_6();
    lemma2_to64();
    lemma2_to64_rest();
    lemma_pow2_adds(384, 38);
    assert(power_of_10_exponent(-127) == -485);
    assert(pow2(422) == 0x4000000000000000000000000000000000000000000000000000000000000000000000000000000000000000000000000000000000nat);
}

/// The entry for `10^-126`.
proof fn lemma_floor_m126()
    ensures
        power_floor(-126, 0xAD4AB7112EB3929D, 0x86C16C98D2C953C6),
{
    reveal(power_floor);
    lemma_pow5_126();
    lemma_pow2_chunk_6();
    lemma2_to64();
    lemma2_to64_rest();
    lemma_pow2_adds(384, 36);
    assert(power_of_10_exponent(-126) == -482);
    assert(pow2(420) == 0x1000000000000000000000000000000000000000000000000000000000000000000000000000000000000000000000000000000000nat);
}

/// The entry for `10^-125`.
proof fn lemma_floor_m125()
    ensures
        power_floor(-125, 0xD89D64D57A607744, 0xE871C7BF077BA8B7),
{
    reveal(power_floor);
    lemma_pow5_125();
    lemma_pow2_chunk_6();
    lemma2_to64();
    lemma2_to64_rest();
    lemma_pow2_adds(384, 34);
    assert(power_of_10_exponent(-125) == -479);
    assert(pow2(418) == 0x400000000000000000000000000000000000000000000000000000000000000000000000000000000000000000000000000000000nat);
}

/// The entry for `10^-124`.
proof fn lemma_floor_m124()
    ensures
        power_floor(-124, 0x87625F056C7C4A8B, 0x11471CD764AD4972),
{
    reveal(power_floor);
    lemma_pow5_124();
    lemma_pow2_chunk_6();
    lemma2_to64();
    lemma2_to64_rest();
    lemma_pow2_adds(384, 31);
    assert(power_of_10_exponent(-124) == -475);
    assert(pow2(415) == 0x80000000000000000000000000000000000000000000000000000000000000000000000000000000000000000000000000000000nat);
}

/// The entry for `10^-123`.
proof fn lemma_floor_m123()
    ensures
        power_floor(-123, 0xA93AF6C6C79B5D2D, 0xD598E40D3DD89BCF),
{
    reveal(power_floor);
    lemma_pow5_123();
    lemma_pow2_chunk_6();
    lemma2_to64();
    lemma2_to64_rest();
    lemma_pow2_adds(384, 29);
    assert(power_of_10_exponent(-123) == -472);
    assert(pow2(413) == 0x20000000000000000000000000000000000000000000000000000000000000000000000000000000000000000000000000000000nat);
}

/// The entry for `10^-122`.
proof fn lemma_floor_m122()
    ensures
        power_floor(-122, 0xD389B47879823479, 0x4AFF1D108D4EC2C3),
{
    reveal(power_floor);
    lemma_pow5_122();
    lemma_pow2_chunk_6();
    lemma2_to64();
    lemma2_to64_rest();
    lemma_pow2_adds(384, 27);
    assert(power_of_10_exponent(-122) == -469);
    assert(pow2(411) == 0x8000000000000000000000000000000000000000000000000000000000000000000000000000000000000000000000000000000nat);
}

/// The entry for `10^-121`.
proof fn lemma_floor_m121()
    ensures
        power_floor(-121, 0x843610CB4BF160CB, 0xCEDF722A585139BA),
{
    reveal(power_floor);
    lemma_pow5_121();
    lemma_pow2_chunk_6();
    lemma2_to64();
    lemma2_to64_rest();
    lemma_pow2_adds(384, 24);
    assert(power_of_10_exponent(-121) == -465);
    assert(pow2(408) == 0x1000000000000000000000000000000000000000000000000000000000000000000000000000000000000000000000000000000nat);
}

/// The entry for `10^-120`.
proof fn lemma_floor_m120()
    ensures
        power_floor(-120, 0xA54394FE1EEDB8FE, 0xC2974EB4EE658828),
{
    reveal(power_floor);
    lemma_pow5_120();
    lemma_pow2_chunk_6();
    lemma2_to64();
    lemma2_to64_rest();
    lemma_pow2_adds(384, 22);
    assert(power_of_10_exponent(-120) == -462);
    assert(pow2(406) == 0x400000000000000000000000000000000000000000000000000000000000000000000000000000000000000000000000000000nat);
}

/// The entry for `10^-119`.
proof fn lemma_floor_m119()
    ensures
        power_floor(-119, 0xCE947A3DA6A9273E, 0x733D226229FEEA32),
{
    reveal(power_floor);
    lemma_pow5_119();
    lemma_pow2_chunk_6();
    lemma2_to64();
    lemma2_to64_rest();
    lemma_pow2_adds(384, 20);
    assert(power_of_10_exponent(-119) == -459);
    assert(pow2(404) == 0x100000000000000000000000000000000000000000000000000000000000000000000000000000000000000000000000000000nat);
}

/// The entry for `10^-118`.
proof fn lemma_floor_m118()
    ensures
        power_floor(-118, 0x811CCC668829B887, 0x0806357D5A3F525F),
{
    reveal(power_floor);
    lemma_pow5_118();
    lemma_pow2_chunk_6();
    lemma2_to64();
    lemma2_to64_rest();
    lemma_pow2_adds(384, 17);
    assert(power_of_10_exponent(-118) == -455);
    assert(pow2(401) == 0x20000000000000000000000000000000000000000000000000000000000000000000000000000000000000000000000000000nat);
}

/// The entry for `10^-117`.
proof fn lemma_floor_m117()
    ensures
        power_floor(-117, 0xA163FF802A3426A8, 0xCA07C2DCB0CF26F7),
{
    reveal(power_floor);
    lemma_pow5_117();
    lemma_pow2_chunk_6();
    lemma2_to64();
    lemma2_to64_rest();
    lemma_pow2_adds(384, 15);
    assert(power_of_10_exponent(-117) == -452);
    assert(pow2(399) == 0x8000000000000000000000000000000000000000000000000000000000000000000000000000000000000000000000000000nat);
}

/// The entry for `10^-116`.
proof fn lemma_floor_m116()
    ensures
        power_floor(-116, 0xC9BCFF6034C13052, 0xFC89B393DD02F0B5),
{
    reveal(power_floor);
    lemma_pow5_116();
    lemma_pow2_chunk_6();
    lemma2_to64();
    lemma2_to64_rest();
    lemma_pow2_adds(384, 13);
    assert(power_of_10_exponent(-116) == -449);
    assert(pow2(397) == 0x2000000000000000000000000000000000000000000000000000000000000000000000000000000000000000000000000000nat);
}

/// The entry for `10^-115`.
proof fn lemma_floor_m115()
    ensures
        power_floor(-115, 0xFC2C3F3841F17C67, 0xBBAC2078D443ACE2),
{
    reveal(power_floor);
    lemma_pow5_115();
    lemma_pow2_chunk_6();
    lemma2_to64();
    lemma2_to64_rest();
    lemma_pow2_adds(384, 11);
    assert(power_of_10_exponent(-115) == -446);
    assert(pow2(395) == 0x800000000000000000000000000000000000000000000000000000000000000000000000000000000000000000000000000nat);
}

/// The entry for `10^-114`.
proof fn lemma_floor_m114()
    ensures
        power_floor(-114, 0x9D9BA7832936EDC0, 0xD54B944B84AA4C0D),
{
    reveal(power_floor);
    lemma_pow5_114();
    lemma_pow2_chunk_6();
    lemma2_to64();
    lemma2_to64_rest();
    lemma_pow2_adds(384, 8);
    assert(power_of_10_exponent(-114) == -442);
    assert(pow2(392) == 0x100000000000000000000000000000000000000000000000000000000000000000000000000000000000000000000000000nat);
}

/// The entry for `10^-113`.
proof fn lemma_floor_m113()
    ensures
        power_floor(-113, 0xC5029163F384A931, 0x0A9E795E65D4DF11),
{
    reveal(power_floor);
    lemma_pow5_113();
    lemma_pow2_chunk_6();
    lemma2_to64();
    lemma2_to64_rest();
    lemma_pow2_adds(384, 6);
    assert(power_of_10_exponent(-113) == -439);
    assert(pow2(390) == 0x40000000000000000000000000000000000000000000000000000000000000000000000000000000000000000000000000nat);
}

/// The entry for `10^-112`.
proof fn lemma_floor_m112()
    ensures
        power_floor(-112, 0xF64335BCF065D37D, 0x4D4617B5FF4A16D5),
{
    reveal(power_floor);
    lemma_pow5_112();
    lemma_pow2_chunk_6();
    lemma2_to64();
    lemma2_to64_rest();
    lemma_pow2_adds(384, 4);
    assert(power_of_10_exponent(-112) == -436);
    assert(pow2(388) == 0x10000000000000000000000000000000000000000000000000000000000000000000000000000000000000000000000000nat);
}

/// The entry for `10^-111`.
proof fn lemma_floor_m111()
    ensures
        power_floor(-111, 0x99EA0196163FA42E, 0x504BCED1BF8E4E45),
{
    reveal(power_floor);
    lemma_pow5_111();
    lemma_pow2_chunk_6();
    lemma2_to64();
    lemma2_to64_rest();
    lemma_pow2_adds(384, 1);
    assert(power_of_10_exponent(-111) == -432);
    assert(pow2(385) == 0x2000000000000000000000000000000000000000000000000000000000000000000000000000000000000000000000000nat);
}

/// The entry for `10^-110`.
proof fn lemma_floor_m110()
    ensures
        power_floor(-110, 0xC06481FB9BCF8D39, 0xE45EC2862F71E1D6),
{
    reveal(power_floor);
    lemma_pow5_110();
    lemma_pow2_chunk_5();
    lemma2_to64();
    lemma2_to64_rest();
    lemma_pow2_adds(320, 63);
    assert(power_of_10_exponent(-110) == -429);
    assert(pow2(383) == 0x800000000000000000000000000000000000000000000000000000000000000000000000000000000000000000000000nat);
}

/// The entry for `10^-109`.
proof fn lemma_floor_m109()
    ensures
        power_floor(-109, 0xF07DA27A82C37088, 0x5D767327BB4E5A4C),
{
    reveal(power_floor);
    lemma_pow5_109();
    lemma_pow2_chunk_5();
    lemma2_to64();
    lemma2_to64_rest();
    lemma_pow2_adds(320, 61);
    assert(power_of_10_exponent(-109) == -426);
    assert(pow2(381) == 0x200000000000000000000000000000000000000000000000000000000000000000000000000000000000000000000000nat);
}

/// The entry for `10^-108`.
proof fn lemma_floor_m108()
    ensures
        power_floor(-108, 0x964E858C91BA2655, 0x3A6A07F8D510F86F),
{
    reveal(power_floor);
    lemma_pow5_108();
    lemma_pow2_chunk_5();
    lemma2_to64();
    lemma2_to64_rest();
    lemma_pow2_adds(320, 58);
    assert(power_of_10_exponent(-108) == -422);
    assert(pow2(378) == 0x40000000000000000000000000000000000000000000000000000000000000000000000000000000000000000000000nat);
}

/// The entry for `10^-107`.
proof fn lemma_floor_m107()
    ensures
        power_floor(-107, 0xBBE226EFB628AFEA, 0x890489F70A55368B),
{
    reveal(power_floor);
    lemma_pow5_107();
    lemma_pow2_chunk_5();
    lemma2_to64();
    lemma2_to64_rest();
    lemma_pow2_adds(320, 56);
    assert(power_of_10_exponent(-107) == -419);
    assert(pow2(376) == 0x10000000000000000000000000000000000000000000000000000000000000000000000000000000000000000000000nat);
}

/// The entry for `10^-106`.
proof fn lemma_floor_m106()
    ensures
        power_floor(-106, 0xEADAB0ABA3B2DBE5, 0x2B45AC74CCEA842E),
{
    reveal(power_floor);
    lemma_pow5_106();
    lemma_pow2_chunk_5();
    lemma2_to64();
    lemma2_to64_rest();
    lemma_pow2_adds(320, 54);
    assert(power_of_10_exponent(-106) == -416);
    assert(pow2(374) == 0x4000000000000000000000000000000000000000000000000000000000000000000000000000000000000000000000nat);
}

/// The entry for `10^-105`.
proof fn lemma_floor_m105()
    ensures
        power_floor(-105, 0x92C8AE6B464FC96F, 0x3B0B8BC90012929D),
{
    reveal(power_floor);
    lemma_pow5_105();
    lemma_pow2_chunk_5();
    lemma2_to64();
    lemma2_to64_rest();
    lemma_pow2_adds(320, 51);
    assert(power_of_10_exponent(-105) == -412);
    assert(pow2(371) == 0x800000000000000000000000000000000000000000000000000000000000000000000000000000000000000000000nat);
}

/// The entry for `10^-104`.
proof fn lemma_floor_m104()
    ensures
        power_floor(-104, 0xB77ADA0617E3BBCB, 0x09CE6EBB40173744),
{
    reveal(power_floor);
    lemma_pow5_104();
    lemma_pow2_chunk_5();
    lemma2_to64();
    lemma2_to64_rest();
    lemma_pow2_adds(320, 49);
    assert(power_of_10_exponent(-104) == -409);
    assert(pow2(369) == 0x200000000000000000000000000000000000000000000000000000000000000000000000000000000000000000000nat);
}

/// The entry for `10^-103`.
proof fn lemma_floor_m103()
    ensures
        power_floor(-103, 0xE55990879DDCAABD, 0xCC420A6A101D0515),
{
    reveal(power_floor);
    lemma_pow5_103();
    lemma_pow2_chunk_5();
    lemma2_to64();
    lemma2_to64_rest();
    lemma_pow2_adds(320, 47);
    assert(power_of_10_exponent(-103) == -406);
    assert(pow2(367) == 0x80000000000000000000000000000000000000000000000000000000000000000000000000000000000000000000nat);
}

/// The entry for `10^-102`.
proof fn lemma_floor_m102()
    ensures
        power_floor(-102, 0x8F57FA54C2A9EAB6, 0x9FA946824A12232D),
{
    reveal(power_floor);
    lemma_pow5_102();
    lemma_pow2_chunk_5();
    lemma2_to64();
    lemma2_to64_rest();
    lemma_pow2_adds(320, 44);
    assert(power_of_10_exponent(-102) == -402);
    assert(pow2(364) == 0x10000000000000000000000000000000000000000000000000000000000000000000000000000000000000000000nat);
}

/// The entry for `10^-101`.
proof fn lemma_floor_m101()
    ensures
        power_floor(-101, 0xB32DF8E9F3546564, 0x47939822DC96ABF9),
{
    reveal(power_floor);
    lemma_pow5_101();
    lemma_pow2_chunk_5();
    lemma2_to64();
    lemma2_to64_rest();
    lemma_pow2_adds(320, 42);
    assert(power_of_10_exponent(-101) == -399);
    assert(pow2(362) == 0x4000000000000000000000000000000000000000000000000000000000000000000000000000000000000000000nat);
}

/// The entry for `10^-100`.
proof fn lemma_floor_m100()
    ensures
        power_floor(-100, 0xDFF9772470297EBD, 0x59787E2B93BC56F7),
{
    reveal(power_floor);
    lemma_pow5_100();
    lemma_pow2_chunk_5();
    lemma2_to64();
    lemma2_to64_rest();
    lemma_pow2_adds(320, 40);
    assert(power_of_10_exponent(-100) == -396);
    assert(pow2(360) == 0x1000000000000000000000000000000000000000000000000000000000000000000000000000000000000000000nat);
}

/// The entry for `10^-99`.
proof fn lemma_floor_m99()
    ensures
        power_floor(-99, 0x8BFBEA76C619EF36, 0x57EB4EDB3C55B65A),
{
    reveal(power_floor);
    lemma_pow5_99();
    lemma_pow2_chunk_5();
    lemma2_to64();
    lemma2_to64_rest();
    lemma_pow2_adds(320, 37);
    assert(power_of_10_exponent(-99) == -392);
    assert(pow2(357) == 0x200000000000000000000000000000000000000000000000000000000000000000000000000000000000000000nat);
}

/// The entry for `10^-98`.
proof fn lemma_floor_m98()
    ensures
        power_floor(-98, 0xAEFAE51477A06B03, 0xEDE622920B6B23F1),
{
    reveal(power_floor);
    lemma_pow5_98();
    lemma_pow2_chunk_5();
    lemma2_to64();
    lemma2_to64_rest();
    lemma_pow2_adds(320, 35);
    assert(power_of_10_exponent(-98) == -389);
    assert(pow2(355) == 0x80000000000000000000000000000000000000000000000000000000000000000000000000000000000000000nat);
}

/// The entry for `10^-97`.
proof fn lemma_floor_m97()
    ensures
        power_floor(-97, 0xDAB99E59958885C4, 0xE95FAB368E45ECED),
{
    reveal(power_floor);
    lemma_pow5_97();
    lemma_pow2_chunk_5();
    lemma2_to64();
    lemma2_to64_rest();
    lemma_pow2_adds(320, 33);
    assert(power_of_10_exponent(-97) == -386);
    assert(pow2(353) == 0x20000000000000000000000000000000000000000000000000000000000000000000000000000000000000000nat);
}

/// The entry for `10^-96`.
proof fn lemma_floor_m96()
    ensures
        power_floor(-96, 0x88B402F7FD75539B, 0x11DBCB0218EBB414),
{
    reveal(power_floor);
    lemma_pow5_96();
    lemma_pow2_chunk_5();
    lemma2_to64();
    lemma2_to64_rest();
    lemma_pow2_adds(320, 30);
    assert(power_of_10_exponent(-96) == -382);
    assert(pow2(350) == 0x4000000000000000000000000000000000000000000000000000000000000000000000000000000000000000nat);
}

/// The entry for `10^-95`.
proof fn lemma_floor_m95()
    ensures
        power_floor(-95, 0xAAE103B5FCD2A881, 0xD652BDC29F26A119),
{
    reveal(power_floor);
    lemma_pow5_95();
    lemma_pow2_chunk_5();
    lemma2_to64();
    lemma2_to64_rest();
    lemma_pow2_adds(320, 28);
    assert(power_of_10_exponent(-95) == -379);
    assert(pow2(348) == 0x1000000000000000000000000000000000000000000000000000000000000000000000000000000000000000nat);
}

/// The entry for `10^-94`.
proof fn lemma_floor_m94()
    ensures
        power_floor(-94, 0xD59944A37C0752A2, 0x4BE76D3346F0495F),
{
    reveal(power_floor);
    lemma_pow5_94();
    lemma_pow2_chunk_5();
    lemma2_to64();
    lemma2_to64_rest();
    lemma_pow2_adds(320, 26);
    assert(power_of_10_exponent(-94) == -376);
    assert(pow2(346) == 0x400000000000000000000000000000000000000000000000000000000000000000000000000000000000000nat);
}

/// The entry for `10^-93`.
proof fn lemma_floor_m93()
    ensures
        power_floor(-93, 0x857FCAE62D8493A5, 0x6F70A4400C562DDB),
{
    reveal(power_floor);
    lemma_pow5_93();
    lemma_pow2_chunk_5();
    lemma2_to64();
    lemma2_to64_rest();
    lemma_pow2_adds(320, 23);
    assert(power_of_10_exponent(-93) == -372);
    assert(pow2(343) == 0x80000000000000000000000000000000000000000000000000000000000000000000000000000000000000nat);
}

/// The entry for `10^-92`.
proof fn lemma_floor_m92()
    ensures
        power_floor(-92, 0xA6DFBD9FB8E5B88E, 0xCB4CCD500F6BB952),
{
    reveal(power_floor);
    lemma_pow5_92();
    lemma_pow2_chunk_5();
    lemma2_to64();
    lemma2_to64_rest();
    lemma_pow2_adds(320, 21);
    assert(power_of_10_exponent(-92) == -369);
    assert(pow2(341) == 0x20000000000000000000000000000000000000000000000000000000000000000000000000000000000000nat);
}

/// The entry for `10^-91`.
proof fn lemma_floor_m91()
    ensures
        power_floor(-91, 0xD097AD07A71F26B2, 0x7E2000A41346A7A7),
{
    reveal(power_floor);
    lemma_pow5_91();
    lemma_pow2_chunk_5();
    lemma2_to64();
    lemma2_to64_rest();
    lemma_pow2_adds(320, 19);
    assert(power_of_10_exponent(-91) == -366);
    assert(pow2(339) == 0x8000000000000000000000000000000000000000000000000000000000000000000000000000000000000nat);
}

/// The entry for `10^-90`.
proof fn lemma_floor_m90()
    ensures
        power_floor(-90, 0x825ECC24C873782F, 0x8ED400668C0C28C8),
{
    reveal(power_floor);
    lemma_pow5_90();
    lemma_pow2_chunk_5();
    lemma2_to64();
    lemma2_to64_rest();
    lemma_pow2_adds(320, 16);
    assert(power_of_10_exponent(-90) == -362);
    assert(pow2(336) == 0x1000000000000000000000000000000000000000000000000000000000000000000000000000000000000nat);
}

/// The entry for `10^-89`.
proof fn lemma_floor_m89()
    ensures
        power_floor(-89, 0xA2F67F2DFA90563B, 0x728900802F0F32FA),
{
    reveal(power_floor);
    lemma_pow5_89();
    lemma_pow2_chunk_5();
    lemma2_to64();
    lemma2_to64_rest();
    lemma_pow2_adds(320, 14);
    assert(power_of_10_exponent(-89) == -359);
    assert(pow2(334) == 0x400000000000000000000000000000000000000000000000000000000000000000000000000000000000nat);
}

/// The entry for `10^-88`.
proof fn lemma_floor_m88()
    ensures
        power_floor(-88, 0xCBB41EF979346BCA, 0x4F2B40A03AD2FFB9),
{
    reveal(power_floor);
    lemma_pow5_88();
    lemma_pow2_chunk_5();
    lemma2_to64();
    lemma2_to64_rest();
    lemma_pow2_adds(320, 12);
    assert(power_of_10_exponent(-88) == -356);
    assert(pow2(332) == 0x100000000000000000000000000000000000000000000000000000000000000000000000000000000000nat);
}

/// The entry for `10^-87`.
proof fn lemma_floor_m87()
    ensures
        power_floor(-87, 0xFEA126B7D78186BC, 0xE2F610C84987BFA8),
{
    reveal(power_floor);
    lemma_pow5_87();
    lemma_pow2_chunk_5();
    lemma2_to64();
    lemma2_to64_rest();
    lemma_pow2_adds(320, 10);
    assert(power_of_10_exponent(-87) == -353);
    assert(pow2(330) == 0x40000000000000000000000000000000000000000000000000000000000000000000000000000000000nat);
}

/// The entry for `10^-86`.
proof fn lemma_floor_m86()
    ensures
        power_floor(-86, 0x9F24B832E6B0F436, 0x0DD9CA7D2DF4D7C9),
{
    reveal(power_floor);
    lemma_pow5_86();
    lemma_pow2_chunk_5();
    lemma2_to64();
    lemma2_to64_rest();
    lemma_pow2_adds(320, 7);
    assert(power_of_10_exponent(-86) == -349);
    assert(pow2(327) == 0x8000000000000000000000000000000000000000000000000000000000000000000000000000000000nat);
}

/// The entry for `10^-85`.
proof fn lemma_floor_m85()
    ensures
        power_floor(-85, 0xC6EDE63FA05D3143, 0x91503D1C79720DBB),
{
    reveal(power_floor);
    lemma_pow5_85();
    lemma_pow2_chunk_5();
    lemma2_to64();
    lemma2_to64_rest();
    lemma_pow2_adds(320, 5);
    assert(power_of_10_exponent(-85) == -346);
    assert(pow2(325) == 0x2000000000000000000000000000000000000000000000000000000000000000000000000000000000nat);
}

/// The entry for `10^-84`.
proof fn lemma_floor_m84()
    ensures
        power_floor(-84, 0xF8A95FCF88747D94, 0x75A44C6397CE912A),
{
    reveal(power_floor);
    lemma_pow5_84();
    lemma_pow2_chunk_5();
    lemma2_to64();
    lemma2_to64_rest();
    lemma_pow2_adds(320, 3);
    assert(power_of_10_exponent(-84) == -343);
    assert(pow2(323) == 0x800000000000000000000000000000000000000000000000000000000000000000000000000000000nat);
}

/// The entry for `10^-83`.
proof fn lemma_floor_m83()
    ensures
        power_floor(-83, 0x9B69DBE1B548CE7C, 0xC986AFBE3EE11ABA),
{
    reveal(power_floor);
    lemma_pow5_83();
    lemma_pow2_chunk_5();
    lemma2_to64();
    lemma2_to64_rest();
    lemma_pow2_adds(320, 0);
    assert(power_of_10_exponent(-83) == -339);
    assert(pow2(320) == 0x100000000000000000000000000000000000000000000000000000000000000000000000000000000nat);
}

/// The entry for `10^-82`.
proof fn lemma_floor_m82()
    ensures
        power_floor(-82, 0xC24452DA229B021B, 0xFBE85BADCE996168),
{
    reveal(power_floor);
    lemma_pow5_82();
    lemma_pow2_chunk_4();
    lemma2_to64();
    lemma2_to64_rest();
    lemma_pow2_adds(256, 62);
    assert(power_of_10_exponent(-82) == -336);
    assert(pow2(318) == 0x40000000000000000000000000000000000000000000000000000000000000000000000000000000nat);
}

/// The entry for `10^-81`.
proof fn lemma_floor_m81()
    ensures
        power_floor(-81, 0xF2D56790AB41C2A2, 0xFAE27299423FB9C3),
{
    reveal(power_floor);
    lemma_pow5_81();
    lemma_pow2_chunk_4();
    lemma2_to64();
    lemma2_to64_rest();
    lemma_pow2_adds(256, 60);
    assert(power_of_10_exponent(-81) == -333);
    assert(pow2(316) == 0x10000000000000000000000000000000000000000000000000000000000000000000000000000000nat);
}

/// The entry for `10^-80`.
proof fn lemma_floor_m80()
    ensures
        power_floor(-80, 0x97C560BA6B0919A5, 0xDCCD879FC967D41A),
{
    reveal(power_floor);
    lemma_pow5_80();
    lemma_pow2_chunk_4();
    lemma2_to64();
    lemma2_to64_rest();
    lemma_pow2_adds(256, 57);
    assert(power_of_10_exponent(-80) == -329);
    assert(pow2(313) == 0x2000000000000000000000000000000000000000000000000000000000000000000000000000000nat);
}

/// The entry for `10^-79`.
proof fn lemma_floor_m79()
    ensures
        power_floor(-79, 0xBDB6B8E905CB600F, 0x5400E987BBC1C920),
{
    reveal(power_floor);
    lemma_pow5_79();
    lemma_pow2_chunk_4();
    lemma2_to64();
    lemma2_to64_rest();
    lemma_pow2_adds(256, 55);
    assert(power_of_10_exponent(-79) == -326);
    assert(pow2(311) == 0x800000000000000000000000000000000000000000000000000000000000000000000000000000nat);
}

/// The entry for `10^-78`.
proof fn lemma_floor_m78()
    ensures
        power_floor(-78, 0xED246723473E3813, 0x290123E9AAB23B68),
{
    reveal(power_floor);
    lemma_pow5_78();
    lemma_pow2_chunk_4();
    lemma2_to64();
    lemma2_to64_rest();
    lemma_pow2_adds(256, 53);
    assert(power_of_10_exponent(-78) == -323);
    assert(pow2(309) == 0x200000000000000000000000000000000000000000000000000000000000000000000000000000nat);
}

/// The entry for `10^-77`.
proof fn lemma_floor_m77()
    ensures
        power_floor(-77, 0x9436C0760C86E30B, 0xF9A0B6720AAF6521),
{
    reveal(power_floor);
    lemma_pow5_77();
    lemma_pow2_chunk_4();
    lemma2_to64();
    lemma2_to64_rest();
    lemma_pow2_adds(256, 50);
    assert(power_of_10_exponent(-77) == -319);
    assert(pow2(306) == 0x40000000000000000000000000000000000000000000000000000000000000000000000000000nat);
}

/// The entry for `10^-76`.
proof fn lemma_floor_m76()
    ensures
        power_floor(-76, 0xB94470938FA89BCE, 0xF808E40E8D5B3E69),
{
    reveal(power_floor);
    lemma_pow5_76();
    lemma_pow2_chunk_4();
    lemma2_to64();
    lemma2_to64_rest();
    lemma_pow2_adds(256, 48);
    assert(power_of_10_exponent(-76) == -316);
    assert(pow2(304) == 0x10000000000000000000000000000000000000000000000000000000000000000000000000000nat);
}

/// The entry for `10^-75`.
proof fn lemma_floor_m75()
    ensures
        power_floor(-75, 0xE7958CB87392C2C2, 0xB60B1D1230B20E04),
{
    reveal(power_floor);
    lemma_pow5_75();
    lemma_pow2_chunk_4();
    lemma2_to64();
    lemma2_to64_rest();
    lemma_pow2_adds(256, 46);
    assert(power_of_10_exponent(-75) == -313);
    assert(pow2(302) == 0x4000000000000000000000000000000000000000000000000000000000000000000000000000nat);
}

/// The entry for `10^-74`.
proof fn lemma_floor_m74()
    ensures
        power_floor(-74, 0x90BD77F3483BB9B9, 0xB1C6F22B5E6F48C2),
{
    reveal(power_floor);
    lemma_pow5_74();
    lemma_pow2_chunk_4();
    lemma2_to64();
    lemma2_to64_rest();
    lemma_pow2_adds(256, 43);
    assert(power_of_10_exponent(-74) == -309);
    assert(pow2(299) == 0x800000000000000000000000000000000000000000000000000000000000000000000000000nat);
}

/// The entry for `10^-73`.
proof fn lemma_floor_m73()
    ensures
        power_floor(-73, 0xB4ECD5F01A4AA828, 0x1E38AEB6360B1AF3),
{
    reveal(power_floor);
    lemma_pow5_73();
    lemma_pow2_chunk_4();
    lemma2_to64();
    lemma2_to64_rest();
    lemma_pow2_adds(256, 41);
    assert(power_of_10_exponent(-73) == -306);
    assert(pow2(297) == 0x200000000000000000000000000000000000000000000000000000000000000000000000000nat);
}

/// The entry for `10^-72`.
proof fn lemma_floor_m72()
    ensures
        power_floor(-72, 0xE2280B6C20DD5232, 0x25C6DA63C38DE1B0),
{
    reveal(power_floor);
    lemma_pow5_72();
    lemma_pow2_chunk_4();
    lemma2_to64();
    lemma2_to64_rest();
    lemma_pow2_adds(256, 39);
    assert(power_of_10_exponent(-72) == -303);
    assert(pow2(295) == 0x80000000000000000000000000000000000000000000000000000000000000000000000000nat);
}

/// The entry for `10^-71`.
proof fn lemma_floor_m71()
    ensures
        power_floor(-71, 0x8D590723948A535F, 0x579C487E5A38AD0E),
{
    reveal(power_floor);
    lemma_pow5_71();
    lemma_pow2_chunk_4();
    lemma2_to64();
    lemma2_to64_rest();
    lemma_pow2_adds(256, 36);
    assert(power_of_10_exponent(-71) == -299);
    assert(pow2(292) == 0x10000000000000000000000000000000000000000000000000000000000000000000000000nat);
}

/// The entry for `10^-70`.
proof fn lemma_floor_m70()
    ensures
        power_floor(-70, 0xB0AF48EC79ACE837, 0x2D835A9DF0C6D851),
{
    reveal(power_floor);
    lemma_pow5_70();
    lemma_pow2_chunk_4();
    lemma2_to64();
    lemma2_to64_rest();
    lemma_pow2_adds(256, 34);
    assert(power_of_10_exponent(-70) == -296);
    assert(pow2(290) == 0x4000000000000000000000000000000000000000000000000000000000000000000000000nat);
}

/// The entry for `10^-69`.
proof fn lemma_floor_m69()
    ensures
        power_floor(-69, 0xDCDB1B2798182244, 0xF8E431456CF88E65),
{
    reveal(power_floor);
    lemma_pow5_69();
    lemma_pow2_chunk_4();
    lemma2_to64();
    lemma2_to64_rest();
    lemma_pow2_adds(256, 32);
    assert(power_of_10_exponent(-69) == -293);
    assert(pow2(288) == 0x1000000000000000000000000000000000000000000000000000000000000000000000000nat);
}

/// The entry for `10^-68`.
proof fn lemma_floor_m68()
    ensures
        power_floor(-68, 0x8A08F0F8BF0F156B, 0x1B8E9ECB641B58FF),
{
    reveal(power_floor);
    lemma_pow5_68();
    lemma_pow2_chunk_4();
    lemma2_to64();
    lemma2_to64_rest();
    lemma_pow2_adds(256, 29);
    assert(power_of_10_exponent(-68) == -289);
    assert(pow2(285) == 0x200000000000000000000000000000000000000000000000000000000000000000000000nat);
}

/// The entry for `10^-67`.
proof fn lemma_floor_m67()
    ensures
        power_floor(-67, 0xAC8B2D36EED2DAC5, 0xE272467E3D222F3F),
{
    reveal(power_floor);
    lemma_pow5_67();
    lemma_pow2_chunk_4();
    lemma2_to64();
    lemma2_to64_rest();
    lemma_pow2_adds(256, 27);
    assert(power_of_10_exponent(-67) == -286);
    assert(pow2(283) == 0x80000000000000000000000000000000000000000000000000000000000000000000000nat);
}

/// The entry for `10^-66`.
proof fn lemma_floor_m66()
    ensures
        power_floor(-66, 0xD7ADF884AA879177, 0x5B0ED81DCC6ABB0F),
{
    reveal(power_floor);
    lemma_pow5_66();
    lemma_pow2_chunk_4();
    lemma2_to64();
    lemma2_to64_rest();
    lemma_pow2_adds(256, 25);
    assert(power_of_10_exponent(-66) == -283);
    assert(pow2(281) == 0x20000000000000000000000000000000000000000000000000000000000000000000000nat);
}

/// The entry for `10^-65`.
proof fn lemma_floor_m65()
    ensures
        power_floor(-65, 0x86CCBB52EA94BAEA, 0x98E947129FC2B4E9),
{
    reveal(power_floor);
    lemma_pow5_65();
    lemma_pow2_chunk_4();
    lemma2_to64();
    lemma2_to64_rest();
    lemma_pow2_adds(256, 22);
    assert(power_of_10_exponent(-65) == -279);
    assert(pow2(278) == 0x4000000000000000000000000000000000000000000000000000000000000000000000nat);
}

/// The entry for `10^-64`.
proof fn lemma_floor_m64()
    ensures
        power_floor(-64, 0xA87FEA27A539E9A5, 0x3F2398D747B36224),
{
    reveal(power_floor);
    lemma_pow5_64();
    lemma_pow2_chunk_4();
    lemma2_to64();
    lemma2_to64_rest();
    lemma_pow2_adds(256, 20);
    assert(power_of_10_exponent(-64) == -276);
    assert(pow2(276) == 0x1000000000000000000000000000000000000000000000000000000000000000000000nat);
}

/// The entry for `10^-63`.
proof fn lemma_floor_m63()
    ensures
        power_floor(-63, 0xD29FE4B18E88640E, 0x8EEC7F0D19A03AAD),
{
    reveal(power_floor);
    lemma_pow5_63();
    lemma_pow2_chunk_4();
    lemma2_to64();
    lemma2_to64_rest();
    lemma_pow2_adds(256, 18);
    assert(power_of_10_exponent(-63) == -273);
    assert(pow2(274) == 0x400000000000000000000000000000000000000000000000000000000000000000000nat);
}

/// The entry for `10^-62`.
proof fn lemma_floor_m62()
    ensures
        power_floor(-62, 0x83A3EEEEF9153E89, 0x1953CF68300424AC),
{
    reveal(power_floor);
    lemma_pow5_62();
    lemma_pow2_chunk_4();
    lemma2_to64();
    lemma2_to64_rest();
    lemma_pow2_adds(256, 15);
    assert(power_of_10_exponent(-62) == -269);
    assert(pow2(271) == 0x80000000000000000000000000000000000000000000000000000000000000000000nat);
}

/// The entry for `10^-61`.
proof fn lemma_floor_m61()
    ensures
        power_floor(-61, 0xA48CEAAAB75A8E2B, 0x5FA8C3423C052DD7),
{
    reveal(power_floor);
    lemma_pow5_61();
    lemma_pow2_chunk_4();
    lemma2_to64();
    lemma2_to64_rest();
    lemma_pow2_adds(256, 13);
    assert(power_of_10_exponent(-61) == -266);
    assert(pow2(269) == 0x20000000000000000000000000000000000000000000000000000000000000000000nat);
}

/// The entry for `10^-60`.
proof fn lemma_floor_m60()
    ensures
        power_floor(-60, 0xCDB02555653131B6, 0x3792F412CB06794D),
{
    reveal(power_floor);
    lemma_pow5_60();
    lemma_pow2_chunk_4();
    lemma2_to64();
    lemma2_to64_rest();
    lemma_pow2_adds(256, 11);
    assert(power_of_10_exponent(-60) == -263);
    assert(pow2(267) == 0x8000000000000000000000000000000000000000000000000000000000000000000nat);
}

/// The entry for `10^-59`.
proof fn lemma_floor_m59()
    ensures
        power_floor(-59, 0x808E17555F3EBF11, 0xE2BBD88BBEE40BD0),
{
    reveal(power_floor);
    lemma_pow5_59();
    lemma_pow2_chunk_4();
    lemma2_to64();
    lemma2_to64_rest();
    lemma_pow2_adds(256, 8);
    assert(power_of_10_exponent(-59) == -259);
    assert(pow2(264) == 0x1000000000000000000000000000000000000000000000000000000000000000000nat);
}

/// The entry for `10^-58`.
proof fn lemma_floor_m58()
    ensures
        power_floor(-58, 0xA0B19D2AB70E6ED6, 0x5B6ACEAEAE9D0EC4),
{
    reveal(power_floor);
    lemma_pow5_58();
    lemma_pow2_chunk_4();
    lemma2_to64();
    lemma2_to64_rest();
    lemma_pow2_adds(256, 6);
    assert(power_of_10_exponent(-58) == -256);
    assert(pow2(262) == 0x400000000000000000000000000000000000000000000000000000000000000000nat);
}

/// The entry for `10^-57`.
proof fn lemma_floor_m57()
    ensures
        power_floor(-57, 0xC8DE047564D20A8B, 0xF245825A5A445275),
{
    reveal(power_floor);
    lemma_pow5_57();
    lemma_pow2_chunk_4();
    lemma2_to64();
    lemma2_to64_rest();
    lemma_pow2_adds(256, 4);
    assert(power_of_10_exponent(-57) == -253);
    assert(pow2(260) == 0x100000000000000000000000000000000000000000000000000000000000000000nat);
}

/// The entry for `10^-56`.
proof fn lemma_floor_m56()
    ensures
        power_floor(-56, 0xFB158592BE068D2E, 0xEED6E2F0F0D56712),
{
    reveal(power_floor);
    lemma_pow5_56();
    lemma_pow2_chunk_4();
    lemma2_to64();
    lemma2_to64_rest();
    lemma_pow2_adds(256, 2);
    assert(power_of_10_exponent(-56) == -250);
    assert(pow2(258) == 0x40000000000000000000000000000000000000000000000000000000000000000nat);
}

/// The entry for `10^-55`.
proof fn lemma_floor_m55()
    ensures
        power_floor(-55, 0x9CED737BB6C4183D, 0x55464DD69685606B),
{
    reveal(power_floor);
    lemma_pow5_55();
    lemma_pow2_chunk_3();
    lemma2_to64();
    lemma2_to64_rest();
    lemma_pow2_adds(192, 63);
    assert(power_of_10_exponent(-55) == -246);
    assert(pow2(255) == 0x8000000000000000000000000000000000000000000000000000000000000000nat);
}

/// The entry for `10^-54`.
proof fn lemma_floor_m54()
    ensures
        power_floor(-54, 0xC428D05AA4751E4C, 0xAA97E14C3C26B886),
{
    reveal(power_floor);
    lemma_pow5_54();
    lemma_pow2_chunk_3();
    lemma2_to64();
    lemma2_to64_rest();
    lemma_pow2_adds(192, 61);
    assert(power_of_10_exponent(-54) == -243);
    assert(pow2(253) == 0x2000000000000000000000000000000000000000000000000000000000000000nat);
}

/// The entry for `10^-53`.
proof fn lemma_floor_m53()
    ensures
        power_floor(-53, 0xF53304714D9265DF, 0xD53DD99F4B3066A8),
{
    reveal(power_floor);
    lemma_pow5_53();
    lemma_pow2_chunk_3();
    lemma2_to64();
    lemma2_to64_rest();
    lemma_pow2_adds(192, 59);
    assert(power_of_10_exponent(-53) == -240);
    assert(pow2(251) == 0x800000000000000000000000000000000000000000000000000000000000000nat);
}

/// The entry for `10^-52`.
proof fn lemma_floor_m52()
    ensures
        power_floor(-52, 0x993FE2C6D07B7FAB, 0xE546A8038EFE4029),
{
    reveal(power_floor);
    lemma_pow5_52();
    lemma_pow2_chunk_3();
    lemma2_to64();
    lemma2_to64_rest();
    lemma_pow2_adds(192, 56);
    assert(power_of_10_exponent(-52) == -236);
    assert(pow2(248) == 0x100000000000000000000000000000000000000000000000000000000000000nat);
}

/// The entry for `10^-51`.
proof fn lemma_floor_m51()
    ensures
        power_floor(-51, 0xBF8FDB78849A5F96, 0xDE98520472BDD033),
{
    reveal(power_floor);
    lemma_pow5_51();
    lemma_pow2_chunk_3();
    lemma2_to64();
    lemma2_to64_rest();
    lemma_pow2_adds(192, 54);
    assert(power_of_10_exponent(-51) == -233);
    assert(pow2(246) == 0x40000000000000000000000000000000000000000000000000000000000000nat);
}

/// The entry for `10^-50`.
proof fn lemma_floor_m50()
    ensures
        power_floor(-50, 0xEF73D256A5C0F77C, 0x963E66858F6D4440),
{
    reveal(power_floor);
    lemma_pow5_50();
    lemma_pow2_chunk_3();
    lemma2_to64();
    lemma2_to64_rest();
    lemma_pow2_adds(192, 52);
    assert(power_of_10_exponent(-50) == -230);
    assert(pow2(244) == 0x10000000000000000000000000000000000000000000000000000000000000nat);
}

/// The entry for `10^-49`.
proof fn lemma_floor_m49()
    ensures
        power_floor(-49, 0x95A8637627989AAD, 0xDDE7001379A44AA8),
{
    reveal(power_floor);
    lemma_pow5_49();
    lemma_pow2_chunk_3();
    lemma2_to64();
    lemma2_to64_rest();
    lemma_pow2_adds(192, 49);
    assert(power_of_10_exponent(-49) == -226);
    assert(pow2(241) == 0x2000000000000000000000000000000000000000000000000000000000000nat);
}

/// The entry for `10^-48`.
proof fn lemma_floor_m48()
    ensures
        power_floor(-48, 0xBB127C53B17EC159, 0x5560C018580D5D52),
{
    reveal(power_floor);
    lemma_pow5_48();
    lemma_pow2_chunk_3();
    lemma2_to64();
    lemma2_to64_rest();
    lemma_pow2_adds(192, 47);
    assert(power_of_10_exponent(-48) == -223);
    assert(pow2(239) == 0x800000000000000000000000000000000000000000000000000000000000nat);
}

/// The entry for `10^-47`.
proof fn lemma_floor_m47()
    ensures
        power_floor(-47, 0xE9D71B689DDE71AF, 0xAAB8F01E6E10B4A6),
{
    reveal(power_floor);
    lemma_pow5_47();
    lemma_pow2_chunk_3();
    lemma2_to64();
    lemma2_to64_rest();
    lemma_pow2_adds(192, 45);
    assert(power_of_10_exponent(-47) == -220);
    assert(pow2(237) == 0x200000000000000000000000000000000000000000000000000000000000nat);
}

/// The entry for `10^-46`.
proof fn lemma_floor_m46()
    ensures
        power_floor(-46, 0x9226712162AB070D, 0xCAB3961304CA70E8),
{
    reveal(power_floor);
    lemma_pow5_46();
    lemma_pow2_chunk_3();
    lemma2_to64();
    lemma2_to64_rest();
    lemma_pow2_adds(192, 42);
    assert(power_of_10_exponent(-46) == -216);
    assert(pow2(234) == 0x40000000000000000000000000000000000000000000000000000000000nat);
}

/// The entry for `10^-45`.
proof fn lemma_floor_m45()
    ensures
        power_floor(-45, 0xB6B00D69BB55C8D1, 0x3D607B97C5FD0D22),
{
    reveal(power_floor);
    lemma_pow5_45();
    lemma_pow2_chunk_3();
    lemma2_to64();
    lemma2_to64_rest();
    lemma_pow2_adds(192, 40);
    assert(power_of_10_exponent(-45) == -213);
    assert(pow2(232) == 0x10000000000000000000000000000000000000000000000000000000000nat);
}

/// The entry for `10^-44`.
proof fn lemma_floor_m44()
    ensures
        power_floor(-44, 0xE45C10C42A2B3B05, 0x8CB89A7DB77C506A),
{
    reveal(power_floor);
    lemma_pow5_44();
    lemma_pow2_chunk_3();
    lemma2_to64();
    lemma2_to64_rest();
    lemma_pow2_adds(192, 38);
    assert(power_of_10_exponent(-44) == -210);
    assert(pow2(230) == 0x4000000000000000000000000000000000000000000000000000000000nat);
}

/// The entry for `10^-43`.
proof fn lemma_floor_m43()
    ensures
        power_floor(-43, 0x8EB98A7A9A5B04E3, 0x77F3608E92ADB242),
{
    reveal(power_floor);
    lemma_pow5_43();
    lemma_pow2_chunk_3();
    lemma2_to64();
    lemma2_to64_rest();
    lemma_pow2_adds(192, 35);
    assert(power_of_10_exponent(-43) == -206);
    assert(pow2(227) == 0x800000000000000000000000000000000000000000000000000000000nat);
}

/// The entry for `10^-42`.
proof fn lemma_floor_m42()
    ensures
        power_floor(-42, 0xB267ED1940F1C61C, 0x55F038B237591ED3),
{
    reveal(power_floor);
    lemma_pow5_42();
    lemma_pow2_chunk_3();
    lemma2_to64();
    lemma2_to64_rest();
    lemma_pow2_adds(192, 33);
    assert(power_of_10_exponent(-42) == -203);
    assert(pow2(225) == 0x200000000000000000000000000000000000000000000000000000000nat);
}

/// The entry for `10^-41`.
proof fn lemma_floor_m41()
    ensures
        power_floor(-41, 0xDF01E85F912E37A3, 0x6B6C46DEC52F6688),
{
    reveal(power_floor);
    lemma_pow5_41();
    lemma_pow2_chunk_3();
    lemma2_to64();
    lemma2_to64_rest();
    lemma_pow2_adds(192, 31);
    assert(power_of_10_exponent(-41) == -200);
    assert(pow2(223) == 0x80000000000000000000000000000000000000000000000000000000nat);
}

/// The entry for `10^-40`.
proof fn lemma_floor_m40()
    ensures
        power_floor(-40, 0x8B61313BBABCE2C6, 0x2323AC4B3B3DA015),
{
    reveal(power_floor);
    lemma_pow5_40();
    lemma_pow2_chunk_3();
    lemma2_to64();
    lemma2_to64_rest();
    lemma_pow2_adds(192, 28);
    assert(power_of_10_exponent(-40) == -196);
    assert(pow2(220) == 0x10000000000000000000000000000000000000000000000000000000nat);
}

/// The entry for `10^-39`.
proof fn lemma_floor_m39()
    ensures
        power_floor(-39, 0xAE397D8AA96C1B77, 0xABEC975E0A0D081A),
{
    reveal(power_floor);
    lemma_pow5_39();
    lemma_pow2_chunk_3();
    lemma2_to64();
    lemma2_to64_rest();
    lemma_pow2_adds(192, 26);
    assert(power_of_10_exponent(-39) == -193);
    assert(pow2(218) == 0x4000000000000000000000000000000000000000000000000000000nat);
}

/// The entry for `10^-38`.
proof fn lemma_floor_m38()
    ensures
        power_floor(-38, 0xD9C7DCED53C72255, 0x96E7BD358C904A21),
{
    reveal(power_floor);
    lemma_pow5_38();
    lemma_pow2_chunk_3();
    lemma2_to64();
    lemma2_to64_rest();
    lemma_pow2_adds(192, 24);
    assert(power_of_10_exponent(-38) == -190);
    assert(pow2(216) == 0x1000000000000000000000000000000000000000000000000000000nat);
}

/// The entry for `10^-37`.
proof fn lemma_floor_m37()
    ensures
        power_floor(-37, 0x881CEA14545C7575, 0x7E50D64177DA2E54),
{
    reveal(power_floor);
    lemma_pow5_37();
    lemma_pow2_chunk_3();
    lemma2_to64();
    lemma2_to64_rest();
    lemma_pow2_adds(192, 21);
    assert(power_of_10_exponent(-37) == -186);
    assert(pow2(213) == 0x200000000000000000000000000000000000000000000000000000nat);
}

/// The entry for `10^-36`.
proof fn lemma_floor_m36()
    ensures
        power_floor(-36, 0xAA242499697392D2, 0xDDE50BD1D5D0B9E9),
{
    reveal(power_floor);
    lemma_pow5_36();
    lemma_pow2_chunk_3();
    lemma2_to64();
    lemma2_to64_rest();
    lemma_pow2_adds(192, 19);
    assert(power_of_10_exponent(-36) == -183);
    assert(pow2(211) == 0x80000000000000000000000000000000000000000000000000000nat);
}

/// The entry for `10^-35`.
proof fn lemma_floor_m35()
    ensures
        power_floor(-35, 0xD4AD2DBFC3D07787, 0x955E4EC64B44E864),
{
    reveal(power_floor);
    lemma_pow5_35();
    lemma_pow2_chunk_3();
    lemma2_to64();
    lemma2_to64_rest();
    lemma_pow2_adds(192, 17);
    assert(power_of_10_exponent(-35) == -180);
    assert(pow2(209) == 0x20000000000000000000000000000000000000000000000000000nat);
}

/// The entry for `10^-34`.
proof fn lemma_floor_m34()
    ensures
        power_floor(-34, 0x84EC3C97DA624AB4, 0xBD5AF13BEF0B113E),
{
    reveal(power_floor);
    lemma_pow5_34();
    lemma_pow2_chunk_3();
    lemma2_to64();
    lemma2_to64_rest();
    lemma_pow2_adds(192, 14);
    assert(power_of_10_exponent(-34) == -176);
    assert(pow2(206) == 0x4000000000000000000000000000000000000000000000000000nat);
}

/// The entry for `10^-33`.
proof fn lemma_floor_m33()
    ensures
        power_floor(-33, 0xA6274BBDD0FADD61, 0xECB1AD8AEACDD58E),
{
    reveal(power_floor);
    lemma_pow5_33();
    lemma_pow2_chunk_3();
    lemma2_to64();
    lemma2_to64_rest();
    lemma_pow2_adds(192, 12);
    assert(power_of_10_exponent(-33) == -173);
    assert(pow2(204) == 0x1000000000000000000000000000000000000000000000000000nat);
}

/// The entry for `10^-32`.
proof fn lemma_floor_m32()
    ensures
        power_floor(-32, 0xCFB11EAD453994BA, 0x67DE18EDA5814AF2),
{
    reveal(power_floor);
    lemma_pow5_32();
    lemma_pow2_chunk_3();
    lemma2_to64();
    lemma2_to64_rest();
    lemma_pow2_adds(192, 10);
    assert(power_of_10_exponent(-32) == -170);
    assert(pow2(202) == 0x400000000000000000000000000000000000000000000000000nat);
}

/// The entry for `10^-31`.
proof fn lemma_floor_m31()
    ensures
        power_floor(-31, 0x81CEB32C4B43FCF4, 0x80EACF948770CED7),
{
    reveal(power_floor);
    lemma_pow5_31();
    lemma_pow2_chunk_3();
    lemma2_to64();
    lemma2_to64_rest();
    lemma_pow2_adds(192, 7);
    assert(power_of_10_exponent(-31) == -166);
    assert(pow2(199) == 0x80000000000000000000000000000000000000000000000000nat);
}

/// The entry for `10^-30`.
proof fn lemma_floor_m30()
    ensures
        power_floor(-30, 0xA2425FF75E14FC31, 0xA1258379A94D028D),
{
    reveal(power_floor);
    lemma_pow5_30();
    lemma_pow2_chunk_3();
    lemma2_to64();
    lemma2_to64_rest();
    lemma_pow2_adds(192, 5);
    assert(power_of_10_exponent(-30) == -163);
    assert(pow2(197) == 0x20000000000000000000000000000000000000000000000000nat);
}

/// The entry for `10^-29`.
proof fn lemma_floor_m29()
    ensures
        power_floor(-29, 0xCAD2F7F5359A3B3E, 0x096EE45813A04330),
{
    reveal(power_floor);
    lemma_pow5_29();
    lemma_pow2_chunk_3();
    lemma2_to64();
    lemma2_to64_rest();
    lemma_pow2_adds(192, 3);
    assert(power_of_10_exponent(-29) == -160);
    assert(pow2(195) == 0x8000000000000000000000000000000000000000000000000nat);
}

/// The entry for `10^-28`.
proof fn lemma_floor_m28()
    ensures
        power_floor(-28, 0xFD87B5F28300CA0D, 0x8BCA9D6E188853FC),
{
    reveal(power_floor);
    lemma_pow5_28();
    lemma_pow2_chunk_3();
    lemma2_to64();
    lemma2_to64_rest();
    lemma_pow2_adds(192, 1);
    assert(power_of_10_exponent(-28) == -157);
    assert(pow2(193) == 0x2000000000000000000000000000000000000000000000000nat);
}

/// The entry for `10^-27`.
proof fn lemma_floor_m27()
    ensures
        power_floor(-27, 0x9E74D1B791E07E48, 0x775EA264CF55347D),
{
    reveal(power_floor);
    lemma_pow5_27();
    lemma_pow2_chunk_2();
    lemma2_to64();
    lemma2_to64_rest();
    lemma_pow2_adds(128, 62);
    assert(power_of_10_exponent(-27) == -153);
    assert(pow2(190) == 0x400000000000000000000000000000000000000000000000nat);
}

/// The entry for `10^-26`.
proof fn lemma_floor_m26()
    ensures
        power_floor(-26, 0xC612062576589DDA, 0x95364AFE032A819D),
{
    reveal(power_floor);
    lemma_pow5_26();
    lemma_pow2_chunk_2();
    lemma2_to64();
    lemma2_to64_rest();
    lemma_pow2_adds(128, 60);
    assert(power_of_10_exponent(-26) == -150);
    assert(pow2(188) == 0x100000000000000000000000000000000000000000000000nat);
}

/// The entry for `10^-25`.
proof fn lemma_floor_m25()
    ensures
        power_floor(-25, 0xF79687AED3EEC551, 0x3A83DDBD83F52204),
{
    reveal(power_floor);
    lemma_pow5_25();
    lemma_pow2_chunk_2();
    lemma2_to64();
    lemma2_to64_rest();
    lemma_pow2_adds(128, 58);
    assert(power_of_10_exponent(-25) == -147);
    assert(pow2(186) == 0x40000000000000000000000000000000000000000000000nat);
}

/// The entry for `10^-24`.
proof fn lemma_floor_m24()
    ensures
        power_floor(-24, 0x9ABE14CD44753B52, 0xC4926A9672793542),
{
    reveal(power_floor);
    lemma_pow5_24();
    lemma_pow2_chunk_2();
    lemma2_to64();
    lemma2_to64_rest();
    lemma_pow2_adds(128, 55);
    assert(power_of_10_exponent(-24) == -143);
    assert(pow2(183) == 0x8000000000000000000000000000000000000000000000nat);
}

/// The entry for `10^-23`.
proof fn lemma_floor_m23()
    ensures
        power_floor(-23, 0xC16D9A0095928A27, 0x75B7053C0F178293),
{
    reveal(power_floor);
    lemma_pow5_23();
    lemma_pow2_chunk_2();
    lemma2_to64();
    lemma2_to64_rest();
    lemma_pow2_adds(128, 53);
    assert(power_of_10_exponent(-23) == -140);
    assert(pow2(181) == 0x2000000000000000000000000000000000000000000000nat);
}

/// The entry for `10^-22`.
proof fn lemma_floor_m22()
    ensures
        power_floor(-22, 0xF1C90080BAF72CB1, 0x5324C68B12DD6338),
{
    reveal(power_floor);
    lemma_pow5_22();
    lemma_pow2_chunk_2();
    lemma2_to64();
    lemma2_to64_rest();
    lemma_pow2_adds(128, 51);
    assert(power_of_10_exponent(-22) == -137);
    assert(pow2(179) == 0x800000000000000000000000000000000000000000000nat);
}

/// The entry for `10^-21`.
proof fn lemma_floor_m21()
    ensures
        power_floor(-21, 0x971DA05074DA7BEE, 0xD3F6FC16EBCA5E03),
{
    reveal(power_floor);
    lemma_pow5_21();
    lemma_pow2_chunk_2();
    lemma2_to64();
    lemma2_to64_rest();
    lemma_pow2_adds(128, 48);
    assert(power_of_10_exponent(-21) == -133);
    assert(pow2(176) == 0x100000000000000000000000000000000000000000000nat);
}

/// The entry for `10^-20`.
proof fn lemma_floor_m20()
    ensures
        power_floor(-20, 0xBCE5086492111AEA, 0x88F4BB1CA6BCF584),
{
    reveal(power_floor);
    lemma_pow5_20();
    lemma_pow2_chunk_2();
    lemma2_to64();
    lemma2_to64_rest();
    lemma_pow2_adds(128, 46);
    assert(power_of_10_exponent(-20) == -130);
    assert(pow2(174) == 0x40000000000000000000000000000000000000000000nat);
}

/// The entry for `10^-19`.
proof fn lemma_floor_m19()
    ensures
        power_floor(-19, 0xEC1E4A7DB69561A5, 0x2B31E9E3D06C32E5),
{
    reveal(power_floor);
    lemma_pow5_19();
    lemma_pow2_chunk_2();
    lemma2_to64();
    lemma2_to64_rest();
    lemma_pow2_adds(128, 44);
    assert(power_of_10_exponent(-19) == -127);
    assert(pow2(172) == 0x10000000000000000000000000000000000000000000nat);
}

/// The entry for `10^-18`.
proof fn lemma_floor_m18()
    ensures
        power_floor(-18, 0x9392EE8E921D5D07, 0x3AFF322E62439FCF),
{
    reveal(power_floor);
    lemma_pow5_18();
    lemma_pow2_chunk_2();
    lemma2_to64();
    lemma2_to64_rest();
    lemma_pow2_adds(128, 41);
    assert(power_of_10_exponent(-18) == -123);
    assert(pow2(169) == 0x2000000000000000000000000000000000000000000nat);
}

/// The entry for `10^-17`.
proof fn lemma_floor_m17()
    ensures
        power_floor(-17, 0xB877AA3236A4B449, 0x09BEFEB9FAD487C2),
{
    reveal(power_floor);
    lemma_pow5_17();
    lemma_pow2_chunk_2();
    lemma2_to64();
    lemma2_to64_rest();
    lemma_pow2_adds(128, 39);
    assert(power_of_10_exponent(-17) == -120);
    assert(pow2(167) == 0x800000000000000000000000000000000000000000nat);
}

/// The entry for `10^-16`.
proof fn lemma_floor_m16()
    ensures
        power_floor(-16, 0xE69594BEC44DE15B, 0x4C2EBE687989A9B3),
{
    reveal(power_floor);
    lemma_pow5_16();
    lemma_pow2_chunk_2();
    lemma2_to64();
    lemma2_to64_rest();
    lemma_pow2_adds(128, 37);
    assert(power_of_10_exponent(-16) == -117);
    assert(pow2(165) == 0x200000000000000000000000000000000000000000nat);
}

/// The entry for `10^-15`.
proof fn lemma_floor_m15()
    ensures
        power_floor(-15, 0x901D7CF73AB0ACD9, 0x0F9D37014BF60A10),
{
    reveal(power_floor);
    lemma_pow5_15();
    lemma_pow2_chunk_2();
    lemma2_to64();
    lemma2_to64_rest();
    lemma_pow2_adds(128, 34);
    assert(power_of_10_exponent(-15) == -113);
    assert(pow2(162) == 0x40000000000000000000000000000000000000000nat);
}

/// The entry for `10^-14`.
proof fn lemma_floor_m14()
    ensures
        power_floor(-14, 0xB424DC35095CD80F, 0x538484C19EF38C94),
{
    reveal(power_floor);
    lemma_pow5_14();
    lemma_pow2_chunk_2();
    lemma2_to64();
    lemma2_to64_rest();
    lemma_pow2_adds(128, 32);
    assert(power_of_10_exponent(-14) == -110);
    assert(pow2(160) == 0x10000000000000000000000000000000000000000nat);
}

/// The entry for `10^-13`.
proof fn lemma_floor_m13()
    ensures
        power_floor(-13, 0xE12E13424BB40E13, 0x2865A5F206B06FB9),
{
    reveal(power_floor);
    lemma_pow5_13();
    lemma_pow2_chunk_2();
    lemma2_to64();
    lemma2_to64_rest();
    lemma_pow2_adds(128, 30);
    assert(power_of_10_exponent(-13) == -107);
    assert(pow2(158) == 0x4000000000000000000000000000000000000000nat);
}

/// The entry for `10^-12`.
proof fn lemma_floor_m12()
    ensures
        power_floor(-12, 0x8CBCCC096F5088CB, 0xF93F87B7442E45D3),
{
    reveal(power_floor);
    lemma_pow5_12();
    lemma_pow2_chunk_2();
    lemma2_to64();
    lemma2_to64_rest();
    lemma_pow2_adds(128, 27);
    assert(power_of_10_exponent(-12) == -103);
    assert(pow2(155) == 0x800000000000000000000000000000000000000nat);
}

/// The entry for `10^-11`.
proof fn lemma_floor_m11()
    ensures
        power_floor(-11, 0xAFEBFF0BCB24AAFE, 0xF78F69A51539D748),
{
    reveal(power_floor);
    lemma_pow5_11();
    lemma_pow2_chunk_2();
    lemma2_to64();
    lemma2_to64_rest();
    lemma_pow2_adds(128, 25);
    assert(power_of_10_exponent(-11) == -100);
    assert(pow2(153) == 0x200000000000000000000000000000000000000nat);
}

/// The entry for `10^-10`.
proof fn lemma_floor_m10()
    ensures
        power_floor(-10, 0xDBE6FECEBDEDD5BE, 0xB573440E5A884D1B),
{
    reveal(power_floor);
    lemma_pow5_10();
    lemma_pow2_chunk_2();
    lemma2_to64();
    lemma2_to64_rest();
    lemma_pow2_adds(128, 23);
    assert(power_of_10_exponent(-10) == -97);
    assert(pow2(151) == 0x80000000000000000000000000000000000000nat);
}

/// The entry for `10^-9`.
proof fn lemma_floor_m9()
    ensures
        power_floor(-9, 0x89705F4136B4A597, 0x31680A88F8953030),
{
    reveal(power_floor);
    lemma_pow5_9();
    lemma_pow2_chunk_2();
    lemma2_to64();
    lemma2_to64_rest();
    lemma_pow2_adds(128, 20);
    assert(power_of_10_exponent(-9) == -93);
    assert(pow2(148) == 0x10000000000000000000000000000000000000nat);
}

/// The entry for `10^-8`.
proof fn lemma_floor_m8()
    ensures
        power_floor(-8, 0xABCC77118461CEFC, 0xFDC20D2B36BA7C3D),
{
    reveal(power_floor);
    lemma_pow5_8();
    lemma_pow2_chunk_2();
    lemma2_to64();
    lemma2_to64_rest();
    lemma_pow2_adds(128, 18);
    assert(power_of_10_exponent(-8) == -90);
    assert(pow2(146) == 0x4000000000000000000000000000000000000nat);
}

/// The entry for `10^-7`.
proof fn lemma_floor_m7()
    ensures
        power_floor(-7, 0xD6BF94D5E57A42BC, 0x3D32907604691B4C),
{
    reveal(power_floor);
    lemma_pow5_7();
    lemma_pow2_chunk_2();
    lemma2_to64();
    lemma2_to64_rest();
    lemma_pow2_adds(128, 16);
    assert(power_of_10_exponent(-7) == -87);
    assert(pow2(144) == 0x1000000000000000000000000000000000000nat);
}

/// The entry for `10^-6`.
proof fn lemma_floor_m6()
    ensures
        power_floor(-6, 0x8637BD05AF6C69B5, 0xA63F9A49C2C1B10F),
{
    reveal(power_floor);
    lemma_pow5_6();
    lemma_pow2_chunk_2();
    lemma2_to64();
    lemma2_to64_rest();
    lemma_pow2_adds(128, 13);
    assert(power_of_10_exponent(-6) == -83);
    assert(pow2(141) == 0x200000000000000000000000000000000000nat);
}

/// The entry for `10^-5`.
proof fn lemma_floor_m5()
    ensures
        power_floor(-5, 0xA7C5AC471B478423, 0x0FCF80DC33721D53),
{
    reveal(power_floor);
    lemma_pow5_5();
    lemma_pow2_chunk_2();
    lemma2_to64();
    lemma2_to64_rest();
    lemma_pow2_adds(128, 11);
    assert(power_of_10_exponent(-5) == -80);
    assert(pow2(139) == 0x80000000000000000000000000000000000nat);
}

/// The entry for `10^-4`.
proof fn lemma_floor_m4()
    ensures
        power_floor(-4, 0xD1B71758E219652B, 0xD3C36113404EA4A8),
{
    reveal(power_floor);
    lemma_pow5_4();
    lemma_pow2_chunk_2();
    lemma2_to64();
    lemma2_to64_rest();
    lemma_pow2_adds(128, 9);
    assert(power_of_10_exponent(-4) == -77);
    assert(pow2(137) == 0x20000000000000000000000000000000000nat);
}

/// The entry for `10^-3`.
proof fn lemma_floor_m3()
    ensures
        power_floor(-3, 0x83126E978D4FDF3B, 0x645A1CAC083126E9),
{
    reveal(power_floor);
    lemma_pow5_3();
    lemma_pow2_chunk_2();
    lemma2_to64();
    lemma2_to64_rest();
    lemma_pow2_adds(128, 6);
    assert(power_of_10_exponent(-3) == -73);
    assert(pow2(134) == 0x4000000000000000000000000000000000nat);
}

/// The entry for `10^-2`.
proof fn lemma_floor_m2()
    ensures
        power_floor(-2, 0xA3D70A3D70A3D70A, 0x3D70A3D70A3D70A3),
{
    reveal(power_floor);
    lemma_pow5_2();
    lemma_pow2_chunk_2();
    lemma2_to64();
    lemma2_to64_rest();
    lemma_pow2_adds(128, 4);
    assert(power_of_10_exponent(-2) == -70);
    assert(pow2(132) == 0x1000000000000000000000000000000000nat);
}

/// The entry for `10^-1`.
proof fn lemma_floor_m1()
    ensures
        power_floor(-1, 0xCCCCCCCCCCCCCCCC, 0xCCCCCCCCCCCCCCCC),
{
    reveal(power_floor);
    lemma_pow5_1();
    lemma_pow2_chunk_2();
    lemma2_to64();
    lemma2_to64_rest();
    lemma_pow2_adds(128, 2);
    assert(power_of_10_exponent(-1) == -67);
    assert(pow2(130) == 0x400000000000000000000000000000000nat);
}

/// The entry for `10^0`.
proof fn lemma_floor_p0()
    ensures
        power_floor(0, 0x8000000000000000, 0x0000000000000000),
{
    reveal(power_floor);
    lemma_pow5_0();
    lemma_pow2_chunk_1();
    lemma2_to64();
    lemma2_to64_rest();
    lemma_pow2_adds(64, 63);
    assert(power_of_10_exponent(0) == -63);
    assert(pow2(127) == 0x80000000000000000000000000000000nat);
}

/// The entry for `10^1`.
proof fn lemma_floor_p1()
    ensures
        power_floor(1, 0xA000000000000000, 0x0000000000000000),
{
    reveal(power_floor);
    lemma_pow5_1();
    lemma_pow2_chunk_1();
    lemma2_to64();
    lemma2_to64_rest();
    lemma_pow2_adds(64, 61);
    assert(power_of_10_exponent(1) == -60);
    assert(pow2(125) == 0x20000000000000000000000000000000nat);
}

/// The entry for `10^2`.
proof fn lemma_floor_p2()
    ensures
        power_floor(2, 0xC800000000000000, 0x0000000000000000),
{
    reveal(power_floor);
    lemma_pow5_2();
    lemma_pow2_chunk_1();
    lemma2_to64();
    lemma2_to64_rest();
    lemma_pow2_adds(64, 59);
    assert(power_of_10_exponent(2) == -57);
    assert(pow2(123) == 0x8000000000000000000000000000000nat);
}

/// The entry for `10^3`.
proof fn lemma_floor_p3()
    ensures
        power_floor(3, 0xFA00000000000000, 0x0000000000000000),
{
    reveal(power_floor);
    lemma_pow5_3();
    lemma_pow2_chunk_1();
    lemma2_to64();
    lemma2_to64_rest();
    lemma_pow2_adds(64, 57);
    assert(power_of_10_exponent(3) == -54);
    assert(pow2(121) == 0x2000000000000000000000000000000nat);
}

/// The entry for `10^4`.
proof fn lemma_floor_p4()
    ensures
        power_floor(4, 0x9C40000000000000, 0x0000000000000000),
{
    reveal(power_floor);
    lemma_pow5_4();
    lemma_pow2_chunk_1();
    lemma2_to64();
    lemma2_to64_rest();
    lemma_pow2_adds(64, 54);
    assert(power_of_10_exponent(4) == -50);
    assert(pow2(118) == 0x400000000000000000000000000000nat);
}

/// The entry for `10^5`.
proof fn lemma_floor_p5()
    ensures
        power_floor(5, 0xC350000000000000, 0x0000000000000000),
{
    reveal(power_floor);
    lemma_pow5_5();
    lemma_pow2_chunk_1();
    lemma2_to64();
    lemma2_to64_rest();
    lemma_pow2_adds(64, 52);
    assert(power_of_10_exponent(5) == -47);
    assert(pow2(116) == 0x100000000000000000000000000000nat);
}

/// The entry for `10^6`.
proof fn lemma_floor_p6()
    ensures
        power_floor(6, 0xF424000000000000, 0x0000000000000000),
{
    reveal(power_floor);
    lemma_pow5_6();
    lemma_pow2_chunk_1();
    lemma2_to64();
    lemma2_to64_rest();
    lemma_pow2_adds(64, 50);
    assert(power_of_10_exponent(6) == -44);
    assert(pow2(114) == 0x40000000000000000000000000000nat);
}

/// The entry for `10^7`.
proof fn lemma_floor_p7()
    ensures
        power_floor(7, 0x9896800000000000, 0x0000000000000000),
{
    reveal(power_floor);
    lemma_pow5_7();
    lemma_pow2_chunk_1();
    lemma2_to64();
    lemma2_to64_rest();
    lemma_pow2_adds(64, 47);
    assert(power_of_10_exponent(7) == -40);
    assert(pow2(111) == 0x8000000000000000000000000000nat);
}

/// The entry for `10^8`.
proof fn lemma_floor_p8()
    ensures
        power_floor(8, 0xBEBC200000000000, 0x0000000000000000),
{
    reveal(power_floor);
    lemma_pow5_8();
    lemma_pow2_chunk_1();
    lemma2_to64();
    lemma2_to64_rest();
    lemma_pow2_adds(64, 45);
    assert(power_of_10_exponent(8) == -37);
    assert(pow2(109) == 0x2000000000000000000000000000nat);
}

/// The entry for `10^9`.
proof fn lemma_floor_p9()
    ensures
        power_floor(9, 0xEE6B280000000000, 0x0000000000000000),
{
    reveal(power_floor);
    lemma_pow5_9();
    lemma_pow2_chunk_1();
    lemma2_to64();
    lemma2_to64_rest();
    lemma_pow2_adds(64, 43);
    assert(power_of_10_exponent(9) == -34);
    assert(pow2(107) == 0x800000000000000000000000000nat);
}

/// The entry for `10^10`.
proof fn lemma_floor_p10()
    ensures
        power_floor(10, 0x9502F90000000000, 0x0000000000000000),
{
    reveal(power_floor);
    lemma_pow5_10();
    lemma_pow2_chunk_1();
    lemma2_to64();
    lemma2_to64_rest();
    lemma_pow2_adds(64, 40);
    assert(power_of_10_exponent(10) == -30);
    assert(pow2(104) == 0x100000000000000000000000000nat);
}

/// The entry for `10^11`.
proof fn lemma_floor_p11()
    ensures
        power_floor(11, 0xBA43B74000000000, 0x0000000000000000),
{
    reveal(power_floor);
    lemma_pow5_11();
    lemma_pow2_chunk_1();
    lemma2_to64();
    lemma2_to64_rest();
    lemma_pow2_adds(64, 38);
    assert(power_of_10_exponent(11) == -27);
    assert(pow2(102) == 0x40000000000000000000000000nat);
}

/// The entry for `10^12`.
proof fn lemma_floor_p12()
    ensures
        power_floor(12, 0xE8D4A51000000000, 0x0000000000000000),
{
    reveal(power_floor);
    lemma_pow5_12();
    lemma_pow2_chunk_1();
    lemma2_to64();
    lemma2_to64_rest();
    lemma_pow2_adds(64, 36);
    assert(power_of_10_exponent(12) == -24);
    assert(pow2(100) == 0x10000000000000000000000000nat);
}

/// The entry for `10^13`.
proof fn lemma_floor_p13()
    ensures
        power_floor(13, 0x9184E72A00000000, 0x0000000000000000),
{
    reveal(power_floor);
    lemma_pow5_13();
    lemma_pow2_chunk_1();
    lemma2_to64();
    lemma2_to64_rest();
    lemma_pow2_adds(64, 33);
    assert(power_of_10_exponent(13) == -20);
    assert(pow2(97) == 0x2000000000000000000000000nat);
}

/// The entry for `10^14`.
proof fn lemma_floor_p14()
    ensures
        power_floor(14, 0xB5E620F480000000, 0x0000000000000000),
{
    reveal(power_floor);
    lemma_pow5_14();
    lemma_pow2_chunk_1();
    lemma2_to64();
    lemma2_to64_rest();
    lemma_pow2_adds(64, 31);
    assert(power_of_10_exponent(14) == -17);
    assert(pow2(95) == 0x800000000000000000000000nat);
}

/// The entry for `10^15`.
proof fn lemma_floor_p15()
    ensures
        power_floor(15, 0xE35FA931A0000000, 0x0000000000000000),
{
    reveal(power_floor);
    lemma_pow5_15();
    lemma_pow2_chunk_1();
    lemma2_to64();
    lemma2_to64_rest();
    lemma_pow2_adds(64, 29);
    assert(power_of_10_exponent(15) == -14);
    assert(pow2(93) == 0x200000000000000000000000nat);
}

/// The entry for `10^16`.
proof fn lemma_floor_p16()
    ensures
        power_floor(16, 0x8E1BC9BF04000000, 0x0000000000000000),
{
    reveal(power_floor);
    lemma_pow5_16();
    lemma_pow2_chunk_1();
    lemma2_to64();
    lemma2_to64_rest();
    lemma_pow2_adds(64, 26);
    assert(power_of_10_exponent(16) == -10);
    assert(pow2(90) == 0x40000000000000000000000nat);
}

/// The entry for `10^17`.
proof fn lemma_floor_p17()
    ensures
        power_floor(17, 0xB1A2BC2EC5000000, 0x0000000000000000),
{
    reveal(power_floor);
    lemma_pow5_17();
    lemma_pow2_chunk_1();
    lemma2_to64();
    lemma2_to64_rest();
    lemma_pow2_adds(64, 24);
    assert(power_of_10_exponent(17) == -7);
    assert(pow2(88) == 0x10000000000000000000000nat);
}

/// The entry for `10^18`.
proof fn lemma_floor_p18()
    ensures
        power_floor(18, 0xDE0B6B3A76400000, 0x0000000000000000),
{
    reveal(power_floor);
    lemma_pow5_18();
    lemma_pow2_chunk_1();
    lemma2_to64();
    lemma2_to64_rest();
    lemma_pow2_adds(64, 22);
    assert(power_of_10_exponent(18) == -4);
    assert(pow2(86) == 0x4000000000000000000000nat);
}

/// The entry for `10^19`.
proof fn lemma_floor_p19()
    ensures
        power_floor(19, 0x8AC7230489E80000, 0x0000000000000000),
{
    reveal(power_floor);
    lemma_pow5_19();
    lemma_pow2_chunk_1();
    lemma2_to64();
    lemma2_to64_rest();
    lemma_pow2_adds(64, 19);
    assert(power_of_10_exponent(19) == 0);
    assert(pow2(83) == 0x800000000000000000000nat);
}

/// The entry for `10^20`.
proof fn lemma_floor_p20()
    ensures
        power_floor(20, 0xAD78EBC5AC620000, 0x0000000000000000),
{
    reveal(power_floor);
    lemma_pow5_20();
    lemma_pow2_chunk_1();
    lemma2_to64();
    lemma2_to64_rest();
    lemma_pow2_adds(64, 17);
    assert(power_of_10_exponent(20) == 3);
    assert(pow2(81) == 0x200000000000000000000nat);
}

/// The entry for `10^21`.
proof fn lemma_floor_p21()
    ensures
        power_floor(21, 0xD8D726B7177A8000, 0x0000000000000000),
{
    reveal(power_floor);
    lemma_pow5_21();
    lemma_pow2_chunk_1();
    lemma2_to64();
    lemma2_to64_rest();
    lemma_pow2_adds(64, 15);
    assert(power_of_10_exponent(21) == 6);
    assert(pow2(79) == 0x80000000000000000000nat);
}

/// The entry for `10^22`.
proof fn lemma_floor_p22()
    ensures
        power_floor(22, 0x878678326EAC9000, 0x0000000000000000),
{
    reveal(power_floor);
    lemma_pow5_22();
    lemma_pow2_chunk_1();
    lemma2_to64();
    lemma2_to64_rest();
    lemma_pow2_adds(64, 12);
    assert(power_of_10_exponent(22) == 10);
    assert(pow2(76) == 0x10000000000000000000nat);
}

/// The entry for `10^23`.
proof fn lemma_floor_p23()
    ensures
        power_floor(23, 0xA968163F0A57B400, 0x0000000000000000),
{
    reveal(power_floor);
    lemma_pow5_23();
    lemma_pow2_chunk_1();
    lemma2_to64();
    lemma2_to64_rest();
    lemma_pow2_adds(64, 10);
    assert(power_of_10_exponent(23) == 13);
    assert(pow2(74) == 0x4000000000000000000nat);
}

/// The entry for `10^24`.
proof fn lemma_floor_p24()
    ensures
        power_floor(24, 0xD3C21BCECCEDA100, 0x0000000000000000),
{
    reveal(power_floor);
    lemma_pow5_24();
    lemma_pow2_chunk_1();
    lemma2_to64();
    lemma2_to64_rest();
    lemma_pow2_adds(64, 8);
    assert(power_of_10_exponent(24) == 16);
    assert(pow2(72) == 0x1000000000000000000nat);
}

/// The entry for `10^25`.
proof fn lemma_floor_p25()
    ensures
        power_floor(25, 0x84595161401484A0, 0x0000000000000000),
{
    reveal(power_floor);
    lemma_pow5_25();
    lemma_pow2_chunk_1();
    lemma2_to64();
    lemma2_to64_rest();
    lemma_pow2_adds(64, 5);
    assert(power_of_10_exponent(25) == 20);
    assert(pow2(69) == 0x200000000000000000nat);
}

/// The entry for `10^26`.
proof fn lemma_floor_p26()
    ensures
        power_floor(26, 0xA56FA5B99019A5C8, 0x0000000000000000),
{
    reveal(power_floor);
    lemma_pow5_26();
    lemma_pow2_chunk_1();
    lemma2_to64();
    lemma2_to64_rest();
    lemma_pow2_adds(64, 3);
    assert(power_of_10_exponent(26) == 23);
    assert(pow2(67) == 0x80000000000000000nat);
}

/// The entry for `10^27`.
proof fn lemma_floor_p27()
    ensures
        power_floor(27, 0xCECB8F27F4200F3A, 0x0000000000000000),
{
    reveal(power_floor);
    lemma_pow5_27();
    lemma_pow2_chunk_1();
    lemma2_to64();
    lemma2_to64_rest();
    lemma_pow2_adds(64, 1);
    assert(power_of_10_exponent(27) == 26);
    assert(pow2(65) == 0x20000000000000000nat);
}

/// The entry for `10^28`.
proof fn lemma_floor_p28()
    ensures
        power_floor(28, 0x813F3978F8940984, 0x4000000000000000),
{
    reveal(power_floor);
    lemma_pow5_28();
    lemma_pow2_chunk_0();
    lemma2_to64();
    lemma2_to64_rest();
    lemma_pow2_adds(0, 62);
    assert(power_of_10_exponent(28) == 30);
    assert(pow2(62) == 0x4000000000000000nat);
}

/// The entry for `10^29`.
proof fn lemma_floor_p29()
    ensures
        power_floor(29, 0xA18F07D736B90BE5, 0x5000000000000000),
{
    reveal(power_floor);
    lemma_pow5_29();
    lemma_pow2_chunk_0();
    lemma2_to64();
    lemma2_to64_rest();
    lemma_pow2_adds(0, 60);
    assert(power_of_10_exponent(29) == 33);
    assert(pow2(60) == 0x1000000000000000nat);
}

/// The entry for `10^30`.
proof fn lemma_floor_p30()
    ensures
        power_floor(30, 0xC9F2C9CD04674EDE, 0xA400000000000000),
{
    reveal(power_floor);
    lemma_pow5_30();
    lemma_pow2_chunk_0();
    lemma2_to64();
    lemma2_to64_rest();
    lemma_pow2_adds(0, 58);
    assert(power_of_10_exponent(30) == 36);
    assert(pow2(58) == 0x400000000000000nat);
}

/// The entry for `10^31`.
proof fn lemma_floor_p31()
    ensures
        power_floor(31, 0xFC6F7C4045812296, 0x4D00000000000000),
{
    reveal(power_floor);
    lemma_pow5_31();
    lemma_pow2_chunk_0();
    lemma2_to64();
    lemma2_to64_rest();
    lemma_pow2_adds(0, 56);
    assert(power_of_10_exponent(31) == 39);
    assert(pow2(56) == 0x100000000000000nat);
}

/// The entry for `10^32`.
proof fn lemma_floor_p32()
    ensures
        power_floor(32, 0x9DC5ADA82B70B59D, 0xF020000000000000),
{
    reveal(power_floor);
    lemma_pow5_32();
    lemma_pow2_chunk_0();
    lemma2_to64();
    lemma2_to64_rest();
    lemma_pow2_adds(0, 53);
    assert(power_of_10_exponent(32) == 43);
    assert(pow2(53) == 0x20000000000000nat);
}

/// The entry for `10^33`.
proof fn lemma_floor_p33()
    ensures
        power_floor(33, 0xC5371912364CE305, 0x6C28000000000000),
{
    reveal(power_floor);
    lemma_pow5_33();
    lemma_pow2_chunk_0();
    lemma2_to64();
    lemma2_to64_rest();
    lemma_pow2_adds(0, 51);
    assert(power_of_10_exponent(33) == 46);
    assert(pow2(51) == 0x8000000000000nat);
}

/// The entry for `10^34`.
proof fn lemma_floor_p34()
    ensures
        power_floor(34, 0xF684DF56C3E01BC6, 0xC732000000000000),
{
    reveal(power_floor);
    lemma_pow5_34();
    lemma_pow2_chunk_0();
    lemma2_to64();
    lemma2_to64_rest();
    lemma_pow2_adds(0, 49);
    assert(power_of_10_exponent(34) == 49);
    assert(pow2(49) == 0x2000000000000nat);
}

/// The entry for `10^35`.
proof fn lemma_floor_p35()
    ensures
        power_floor(35, 0x9A130B963A6C115C, 0x3C7F400000000000),
{
    reveal(power_floor);
    lemma_pow5_35();
    lemma_pow2_chunk_0();
    lemma2_to64();
    lemma2_to64_rest();
    lemma_pow2_adds(0, 46);
    assert(power_of_10_exponent(35) == 53);
    assert(pow2(46) == 0x400000000000nat);
}

/// The entry for `10^36`.
proof fn lemma_floor_p36()
    ensures
        power_floor(36, 0xC097CE7BC90715B3, 0x4B9F100000000000),
{
    reveal(power_floor);
    lemma_pow5_36();
    lemma_pow2_chunk_0();
    lemma2_to64();
    lemma2_to64_rest();
    lemma_pow2_adds(0, 44);
    assert(power_of_10_exponent(36) == 56);
    assert(pow2(44) == 0x100000000000nat);
}

/// The entry for `10^37`.
proof fn lemma_floor_p37()
    ensures
        power_floor(37, 0xF0BDC21ABB48DB20, 0x1E86D40000000000),
{
    reveal(power_floor);
    lemma_pow5_37();
    lemma_pow2_chunk_0();
    lemma2_to64();
    lemma2_to64_rest();
    lemma_pow2_adds(0, 42);
    assert(power_of_10_exponent(37) == 59);
    assert(pow2(42) == 0x40000000000nat);
}

/// The entry for `10^38`.
proof fn lemma_floor_p38()
    ensures
        power_floor(38, 0x96769950B50D88F4, 0x1314448000000000),
{
    reveal(power_floor);
    lemma_pow5_38();
    lemma_pow2_chunk_0();
    lemma2_to64();
    lemma2_to64_rest();
    lemma_pow2_adds(0, 39);
    assert(power_of_10_exponent(38) == 63);
    assert(pow2(39) == 0x8000000000nat);
}

/// The entry for `10^39`.
proof fn lemma_floor_p39()
    ensures
        power_floor(39, 0xBC143FA4E250EB31, 0x17D955A000000000),
{
    reveal(power_floor);
    lemma_pow5_39();
    lemma_pow2_chunk_0();
    lemma2_to64();
    lemma2_to64_rest();
    lemma_pow2_adds(0, 37);
    assert(power_of_10_exponent(39) == 66);
    assert(pow2(37) == 0x2000000000nat);
}

/// The entry for `10^40`.
proof fn lemma_floor_p40()
    ensures
        power_floor(40, 0xEB194F8E1AE525FD, 0x5DCFAB0800000000),
{
    reveal(power_floor);
    lemma_pow5_40();
    lemma_pow2_chunk_0();
    lemma2_to64();
    lemma2_to64_rest();
    lemma_pow2_adds(0, 35);
    assert(power_of_10_exponent(40) == 69);
    assert(pow2(35) == 0x800000000nat);
}

/// The entry for `10^41`.
proof fn lemma_floor_p41()
    ensures
        power_floor(41, 0x92EFD1B8D0CF37BE, 0x5AA1CAE500000000),
{
    reveal(power_floor);
    lemma_pow5_41();
    lemma_pow2_chunk_0();
    lemma2_to64();
    lemma2_to64_rest();
    lemma_pow2_adds(0, 32);
    assert(power_of_10_exponent(41) == 73);
    assert(pow2(32) == 0x100000000nat);
}

/// The entry for `10^42`.
proof fn lemma_floor_p42()
    ensures
        power_floor(42, 0xB7ABC627050305AD, 0xF14A3D9E40000000),
{
    reveal(power_floor);
    lemma_pow5_42();
    lemma_pow2_chunk_0();
    lemma2_to64();
    lemma2_to64_rest();
    lemma_pow2_adds(0, 30);
    assert(power_of_10_exponent(42) == 76);
    assert(pow2(30) == 0x40000000nat);
}

/// The entry for `10^43`.
proof fn lemma_floor_p43()
    ensures
        power_floor(43, 0xE596B7B0C643C719, 0x6D9CCD05D0000000),
{
    reveal(power_floor);
    lemma_pow5_43();
    lemma_pow2_chunk_0();
    lemma2_to64();
    lemma2_to64_rest();
    lemma_pow2_adds(0, 28);
    assert(power_of_10_exponent(43) == 79);
    assert(pow2(28) == 0x10000000nat);
}

/// The entry for `10^44`.
proof fn lemma_floor_p44()
    ensures
        power_floor(44, 0x8F7E32CE7BEA5C6F, 0xE4820023A2000000),
{
    reveal(power_floor);
    lemma_pow5_44();
    lemma_pow2_chunk_0();
    lemma2_to64();
    lemma2_to64_rest();
    lemma_pow2_adds(0, 25);
    assert(power_of_10_exponent(44) == 83);
    assert(pow2(25) == 0x2000000nat);
}

/// The entry for `10^45`.
proof fn lemma_floor_p45()
    ensures
        power_floor(45, 0xB35DBF821AE4F38B, 0xDDA2802C8A800000),
{
    reveal(power_floor);
    lemma_pow5_45();
    lemma_pow2_chunk_0();
    lemma2_to64();
    lemma2_to64_rest();
    lemma_pow2_adds(0, 23);
    assert(power_of_10_exponent(45) == 86);
    assert(pow2(23) == 0x800000nat);
}

/// The entry for `10^46`.
proof fn lemma_floor_p46()
    ensures
        power_floor(46, 0xE0352F62A19E306E, 0xD50B2037AD200000),
{
    reveal(power_floor);
    lemma_pow5_46();
    lemma_pow2_chunk_0();
    lemma2_to64();
    lemma2_to64_rest();
    lemma_pow2_adds(0, 21);
    assert(power_of_10_exponent(46) == 89);
    assert(pow2(21) == 0x200000nat);
}

/// The entry for `10^47`.
proof fn lemma_floor_p47()
    ensures
        power_floor(47, 0x8C213D9DA502DE45, 0x4526F422CC340000),
{
    reveal(power_floor);
    lemma_pow5_47();
    lemma_pow2_chunk_0();
    lemma2_to64();
    lemma2_to64_rest();
    lemma_pow2_adds(0, 18);
    assert(power_of_10_exponent(47) == 93);
    assert(pow2(18) == 0x40000nat);
}

/// The entry for `10^48`.
proof fn lemma_floor_p48()
    ensures
        power_floor(48, 0xAF298D050E4395D6, 0x9670B12B7F410000),
{
    reveal(power_floor);
    lemma_pow5_48();
    lemma_pow2_chunk_0();
    lemma2_to64();
    lemma2_to64_rest();
    lemma_pow2_adds(0, 16);
    assert(power_of_10_exponent(48) == 96);
    assert(pow2(16) == 0x10000nat);
}

/// The entry for `10^49`.
proof fn lemma_floor_p49()
    ensures
        power_floor(49, 0xDAF3F04651D47B4C, 0x3C0CDD765F114000),
{
    reveal(power_floor);
    lemma_pow5_49();
    lemma_pow2_chunk_0();
    lemma2_to64();
    lemma2_to64_rest();
    lemma_pow2_adds(0, 14);
    assert(power_of_10_exponent(49) == 99);
    assert(pow2(14) == 0x4000nat);
}

/// The entry for `10^50`.
proof fn lemma_floor_p50()
    ensures
        power_floor(50, 0x88D8762BF324CD0F, 0xA5880A69FB6AC800),
{
    reveal(power_floor);
    lemma_pow5_50();
    lemma_pow2_chunk_0();
    lemma2_to64();
    lemma2_to64_rest();
    lemma_pow2_adds(0, 11);
    assert(power_of_10_exponent(50) == 103);
    assert(pow2(11) == 0x800nat);
}

/// The entry for `10^51`.
proof fn lemma_floor_p51()
    ensures
        power_floor(51, 0xAB0E93B6EFEE0053, 0x8EEA0D047A457A00),
{
    reveal(power_floor);
    lemma_pow5_51();
    lemma_pow2_chunk_0();
    lemma2_to64();
    lemma2_to64_rest();
    lemma_pow2_adds(0, 9);
    assert(power_of_10_exponent(51) == 106);
    assert(pow2(9) == 0x200nat);
}

/// The entry for `10^52`.
proof fn lemma_floor_p52()
    ensures
        power_floor(52, 0xD5D238A4ABE98068, 0x72A4904598D6D880),
{
    reveal(power_floor);
    lemma_pow5_52();
    lemma_pow2_chunk_0();
    lemma2_to64();
    lemma2_to64_rest();
    lemma_pow2_adds(0, 7);
    assert(power_of_10_exponent(52) == 109);
    assert(pow2(7) == 0x80nat);
}

/// The entry for `10^53`.
proof fn lemma_floor_p53()
    ensures
        power_floor(53, 0x85A36366EB71F041, 0x47A6DA2B7F864750),
{
    reveal(power_floor);
    lemma_pow5_53();
    lemma_pow2_chunk_0();
    lemma2_to64();
    lemma2_to64_rest();
    lemma_pow2_adds(0, 4);
    assert(power_of_10_exponent(53) == 113);
    assert(pow2(4) == 0x10nat);
}

/// The entry for `10^54`.
proof fn lemma_floor_p54()
    ensures
        power_floor(54, 0xA70C3C40A64E6C51, 0x999090B65F67D924),
{
    reveal(power_floor);
    lemma_pow5_54();
    lemma_pow2_chunk_0();
    lemma2_to64();
    lemma2_to64_rest();
    lemma_pow2_adds(0, 2);
    assert(power_of_10_exponent(54) == 116);
    assert(pow2(2) == 0x4nat);
}

/// The entry for `10^55`.
proof fn lemma_floor_p55()
    ensures
        power_floor(55, 0xD0CF4B50CFE20765, 0xFFF4B4E3F741CF6D),
{
    reveal(power_floor);
    lemma_pow5_55();
    lemma_pow2_chunk_0();
    lemma2_to64();
    lemma2_to64_rest();
    lemma_pow2_adds(0, 0);
    assert(power_of_10_exponent(55) == 119);
    assert(pow2(0) == 0x1nat);
}

/// The entry for `10^56`.
proof fn lemma_floor_p56()
    ensures
        power_floor(56, 0x82818F1281ED449F, 0xBFF8F10E7A8921A4),
{
    reveal(power_floor);
    lemma_pow5_56();
    lemma_pow2_chunk_0();
    lemma2_to64();
    lemma2_to64_rest();
    lemma_pow2_adds(0, 3);
    assert(power_of_10_exponent(56) == 123);
    assert(pow2(3) == 0x8nat);
    assert(0x82818F1281ED449FBFF8F10E7A8921A4nat * pow2(3) <= pow(5, 56));
    assert(pow(5, 56) < 0x82818F1281ED449FBFF8F10E7A8921A5nat * pow2(3));
}

/// The entry for `10^57`.
proof fn lemma_floor_p57()
    ensures
        power_floor(57, 0xA321F2D7226895C7, 0xAFF72D52192B6A0D),
{
    reveal(power_floor);
    lemma_pow5_57();
    lemma_pow2_chunk_0();
    lemma2_to64();
    lemma2_to64_rest();
    lemma_pow2_adds(0, 5);
    assert(power_of_10_exponent(57) == 126);
    assert(pow2(5) == 0x20nat);
    assert(0xA321F2D7226895C7AFF72D52192B6A0Dnat * pow2(5) <= pow(5, 57));
    assert(pow(5, 57) < 0xA321F2D7226895C7AFF72D52192B6A0Enat * pow2(5));
}

/// The entry for `10^58`.
proof fn lemma_floor_p58()
    ensures
        power_floor(58, 0xCBEA6F8CEB02BB39, 0x9BF4F8A69F764490),
{
    reveal(power_floor);
    lemma_pow5_58();
    lemma_pow2_chunk_0();
    lemma2_to64();
    lemma2_to64_rest();
    lemma_pow2_adds(0, 7);
    assert(power_of_10_exponent(58) == 129);
    assert(pow2(7) == 0x80nat);
    assert(0xCBEA6F8CEB02BB399BF4F8A69F764490nat * pow2(7) <= pow(5, 58));
    assert(pow(5, 58) < 0xCBEA6F8CEB02BB399BF4F8A69F764491nat * pow2(7));
}

/// The entry for `10^59`.
proof fn lemma_floor_p59()
    ensures
        power_floor(59, 0xFEE50B7025C36A08, 0x02F236D04753D5B4),
{
    reveal(power_floor);
    lemma_pow5_59();
    lemma_pow2_chunk_0();
    lemma2_to64();
    lemma2_to64_rest();
    lemma_pow2_adds(0, 9);
    assert(power_of_10_exponent(59) == 132);
    assert(pow2(9) == 0x200nat);
    assert(0xFEE50B7025C36A0802F236D04753D5B4nat * pow2(9) <= pow(5, 59));
    assert(pow(5, 59) < 0xFEE50B7025C36A0802F236D04753D5B5nat * pow2(9));
}

/// The entry for `10^60`.
proof fn lemma_floor_p60()
    ensures
        power_floor(60, 0x9F4F2726179A2245, 0x01D762422C946590),
{
    reveal(power_floor);
    lemma_pow5_60();
    lemma_pow2_chunk_0();
    lemma2_to64();
    lemma2_to64_rest();
    lemma_pow2_adds(0, 12);
    assert(power_of_10_exponent(60) == 136);
    assert(pow2(12) == 0x1000nat);
    assert(0x9F4F2726179A224501D762422C946590nat * pow2(12) <= pow(5, 60));
    assert(pow(5, 60) < 0x9F4F2726179A224501D762422C946591nat * pow2(12));
}

/// The entry for `10^61`.
proof fn lemma_floor_p61()
    ensures
        power_floor(61, 0xC722F0EF9D80AAD6, 0x424D3AD2B7B97EF5),
{
    reveal(power_floor);
    lemma_pow5_61();
    lemma_pow2_chunk_0();
    lemma2_to64();
    lemma2_to64_rest();
    lemma_pow2_adds(0, 14);
    assert(power_of_10_exponent(61) == 139);
    assert(pow2(14) == 0x4000nat);
    assert(0xC722F0EF9D80AAD6424D3AD2B7B97EF5nat * pow2(14) <= pow(5, 61));
    assert(pow(5, 61) < 0xC722F0EF9D80AAD6424D3AD2B7B97EF6nat * pow2(14));
}

/// The entry for `10^62`.
proof fn lemma_floor_p62()
    ensures
        power_floor(62, 0xF8EBAD2B84E0D58B, 0xD2E0898765A7DEB2),
{
    reveal(power_floor);
    lemma_pow5_62();
    lemma_pow2_chunk_0();
    lemma2_to64();
    lemma2_to64_rest();
    lemma_pow2_adds(0, 16);
    assert(power_of_10_exponent(62) == 142);
    assert(pow2(16) == 0x10000nat);
    assert(0xF8EBAD2B84E0D58BD2E0898765A7DEB2nat * pow2(16) <= pow(5, 62));
    assert(pow(5, 62) < 0xF8EBAD2B84E0D58BD2E0898765A7DEB3nat * pow2(16));
}

/// The entry for `10^63`.
proof fn lemma_floor_p63()
    ensures
        power_floor(63, 0x9B934C3B330C8577, 0x63CC55F49F88EB2F),
{
    reveal(power_floor);
    lemma_pow5_63();
    lemma_pow2_chunk_0();
    lemma2_to64();
    lemma2_to64_rest();
    lemma_pow2_adds(0, 19);
    assert(power_of_10_exponent(63) == 146);
    assert(pow2(19) == 0x80000nat);
    assert(0x9B934C3B330C857763CC55F49F88EB2Fnat * pow2(19) <= pow(5, 63));
    assert(pow(5, 63) < 0x9B934C3B330C857763CC55F49F88EB30nat * pow2(19));
}

/// The entry for `10^64`.
proof fn lemma_floor_p64()
    ensures
        power_floor(64, 0xC2781F49FFCFA6D5, 0x3CBF6B71C76B25FB),
{
    reveal(power_floor);
    lemma_pow5_64();
    lemma_pow2_chunk_0();
    lemma2_to64();
    lemma2_to64_rest();
    lemma_pow2_adds(0, 21);
    assert(power_of_10_exponent(64) == 149);
    assert(pow2(21) == 0x200000nat);
    assert(0xC2781F49FFCFA6D53CBF6B71C76B25FBnat * pow2(21) <= pow(5, 64));
    assert(pow(5, 64) < 0xC2781F49FFCFA6D53CBF6B71C76B25FCnat * pow2(21));
}

/// The entry for `10^65`.
proof fn lemma_floor_p65()
    ensures
        power_floor(65, 0xF316271C7FC3908A, 0x8BEF464E3945EF7A),
{
    reveal(power_floor);
    lemma_pow5_65();
    lemma_pow2_chunk_0();
    lemma2_to64();
    lemma2_to64_rest();
    lemma_pow2_adds(0, 23);
    assert(power_of_10_exponent(65) == 152);
    assert(pow2(23) == 0x800000nat);
    assert(0xF316271C7FC3908A8BEF464E3945EF7Anat * pow2(23) <= pow(5, 65));
    assert(pow(5, 65) < 0xF316271C7FC3908A8BEF464E3945EF7Bnat * pow2(23));
}

/// The entry for `10^66`.
proof fn lemma_floor_p66()
    ensures
        power_floor(66, 0x97EDD871CFDA3A56, 0x97758BF0E3CBB5AC),
{
    reveal(power_floor);
    lemma_pow5_66();
    lemma_pow2_chunk_0();
    lemma2_to64();
    lemma2_to64_rest();
    lemma_pow2_adds(0, 26);
    assert(power_of_10_exponent(66) == 156);
    assert(pow2(26) == 0x4000000nat);
    assert(0x97EDD871CFDA3A5697758BF0E3CBB5ACnat * pow2(26) <= pow(5, 66));
    assert(pow(5, 66) < 0x97EDD871CFDA3A5697758BF0E3CBB5ADnat * pow2(26));
}

/// The entry for `10^67`.
proof fn lemma_floor_p67()
    ensures
        power_floor(67, 0xBDE94E8E43D0C8EC, 0x3D52EEED1CBEA317),
{
    reveal(power_floor);
    lemma_pow5_67();
    lemma_pow2_chunk_0();
    lemma2_to64();
    lemma2_to64_rest();
    lemma_pow2_adds(0, 28);
    assert(power_of_10_exponent(67) == 159);
    assert(pow2(28) == 0x10000000nat);
    assert(0xBDE94E8E43D0C8EC3D52EEED1CBEA317nat * pow2(28) <= pow(5, 67));
    assert(pow(5, 67) < 0xBDE94E8E43D0C8EC3D52EEED1CBEA318nat * pow2(28));
}

/// The entry for `10^68`.
proof fn lemma_floor_p68()
    ensures
        power_floor(68, 0xED63A231D4C4FB27, 0x4CA7AAA863EE4BDD),
{
    reveal(power_floor);
    lemma_pow5_68();
    lemma_pow2_chunk_0();
    lemma2_to64();
    lemma2_to64_rest();
    lemma_pow2_adds(0, 30);
    assert(power_of_10_exponent(68) == 162);
    assert(pow2(30) == 0x40000000nat);
    assert(0xED63A231D4C4FB274CA7AAA863EE4BDDnat * pow2(30) <= pow(5, 68));
    assert(pow(5, 68) < 0xED63A231D4C4FB274CA7AAA863EE4BDEnat * pow2(30));
}

/// The entry for `10^69`.
proof fn lemma_floor_p69()
    ensures
        power_floor(69, 0x945E455F24FB1CF8, 0x8FE8CAA93E74EF6A),
{
    reveal(power_floor);
    lemma_pow5_69();
    lemma_pow2_chunk_0();
    lemma2_to64();
    lemma2_to64_rest();
    lemma_pow2_adds(0, 33);
    assert(power_of_10_exponent(69) == 166);
    assert(pow2(33) == 0x200000000nat);
    assert(0x945E455F24FB1CF88FE8CAA93E74EF6Anat * pow2(33) <= pow(5, 69));
    assert(pow(5, 69) < 0x945E455F24FB1CF88FE8CAA93E74EF6Bnat * pow2(33));
}

/// The entry for `10^70`.
proof fn lemma_floor_p70()
    ensures
        power_floor(70, 0xB975D6B6EE39E436, 0xB3E2FD538E122B44),
{
    reveal(power_floor);
    lemma_pow5_70();
    lemma_pow2_chunk_0();
    lemma2_to64();
    lemma2_to64_rest();
    lemma_pow2_adds(0, 35);
    assert(power_of_10_exponent(70) == 169);
    assert(pow2(35) == 0x800000000nat);
    assert(0xB975D6B6EE39E436B3E2FD538E122B44nat * pow2(35) <= pow(5, 70));
    assert(pow(5, 70) < 0xB975D6B6EE39E436B3E2FD538E122B45nat * pow2(35));
}

/// The entry for `10^71`.
proof fn lemma_floor_p71()
    ensures
        power_floor(71, 0xE7D34C64A9C85D44, 0x60DBBCA87196B616),
{
    reveal(power_floor);
    lemma_pow5_71();
    lemma_pow2_chunk_0();
    lemma2_to64();
    lemma2_to64_rest();
    lemma_pow2_adds(0, 37);
    assert(power_of_10_exponent(71) == 172);
    assert(pow2(37) == 0x2000000000nat);
    assert(0xE7D34C64A9C85D4460DBBCA87196B616nat * pow2(37) <= pow(5, 71));
    assert(pow(5, 71) < 0xE7D34C64A9C85D4460DBBCA87196B617nat * pow2(37));
}

/// The entry for `10^72`.
proof fn lemma_floor_p72()
    ensures
        power_floor(72, 0x90E40FBEEA1D3A4A, 0xBC8955E946FE31CD),
{
    reveal(power_floor);
    lemma_pow5_72();
    lemma_pow2_chunk_0();
    lemma2_to64();
    lemma2_to64_rest();
    lemma_pow2_adds(0, 40);
    assert(power_of_10_exponent(72) == 176);
    assert(pow2(40) == 0x10000000000nat);
    assert(0x90E40FBEEA1D3A4ABC8955E946FE31CDnat * pow2(40) <= pow(5, 72));
    assert(pow(5, 72) < 0x90E40FBEEA1D3A4ABC8955E946FE31CEnat * pow2(40));
}

/// The entry for `10^73`.
proof fn lemma_floor_p73()
    ensures
        power_floor(73, 0xB51D13AEA4A488DD, 0x6BABAB6398BDBE41),
{
    reveal(power_floor);
    lemma_pow5_73();
    lemma_pow2_chunk_0();
    lemma2_to64();
    lemma2_to64_rest();
    lemma_pow2_adds(0, 42);
    assert(power_of_10_exponent(73) == 179);
    assert(pow2(42) == 0x40000000000nat);
    assert(0xB51D13AEA4A488DD6BABAB6398BDBE41nat * pow2(42) <= pow(5, 73));
    assert(pow(5, 73) < 0xB51D13AEA4A488DD6BABAB6398BDBE42nat * pow2(42));
}

/// The entry for `10^74`.
proof fn lemma_floor_p74()
    ensures
        power_floor(74, 0xE264589A4DCDAB14, 0xC696963C7EED2DD1),
{
    reveal(power_floor);
    lemma_pow5_74();
    lemma_pow2_chunk_0();
    lemma2_to64();
    lemma2_to64_rest();
    lemma_pow2_adds(0, 44);
    assert(power_of_10_exponent(74) == 182);
    assert(pow2(44) == 0x100000000000nat);
    assert(0xE264589A4DCDAB14C696963C7EED2DD1nat * pow2(44) <= pow(5, 74));
    assert(pow(5, 74) < 0xE264589A4DCDAB14C696963C7EED2DD2nat * pow2(44));
}

/// The entry for `10^75`.
proof fn lemma_floor_p75()
    ensures
        power_floor(75, 0x8D7EB76070A08AEC, 0xFC1E1DE5CF543CA2),
{
    reveal(power_floor);
    lemma_pow5_75();
    lemma_pow2_chunk_0();
    lemma2_to64();
    lemma2_to64_rest();
    lemma_pow2_adds(0, 47);
    assert(power_of_10_exponent(75) == 186);
    assert(pow2(47) == 0x800000000000nat);
    assert(0x8D7EB76070A08AECFC1E1DE5CF543CA2nat * pow2(47) <= pow(5, 75));
    assert(pow(5, 75) < 0x8D7EB76070A08AECFC1E1DE5CF543CA3nat * pow2(47));
}

/// The entry for `10^76`.
proof fn lemma_floor_p76()
    ensures
        power_floor(76, 0xB0DE65388CC8ADA8, 0x3B25A55F43294BCB),
{
    reveal(power_floor);
    lemma_pow5_76();
    lemma_pow2_chunk_0();
    lemma2_to64();
    lemma2_to64_rest();
    lemma_pow2_adds(0, 49);
    assert(power_of_10_exponent(76) == 189);
    assert(pow2(49) == 0x2000000000000nat);
    assert(0xB0DE65388CC8ADA83B25A55F43294BCBnat * pow2(49) <= pow(5, 76));
    assert(pow(5, 76) < 0xB0DE65388CC8ADA83B25A55F43294BCCnat * pow2(49));
}

/// The entry for `10^77`.
proof fn lemma_floor_p77()
    ensures
        power_floor(77, 0xDD15FE86AFFAD912, 0x49EF0EB713F39EBE),
{
    reveal(power_floor);
    lemma_pow5_77();
    lemma_pow2_chunk_0();
    lemma2_to64();
    lemma2_to64_rest();
    lemma_pow2_adds(0, 51);
    assert(power_of_10_exponent(77) == 192);
    assert(pow2(51) == 0x8000000000000nat);
    assert(0xDD15FE86AFFAD91249EF0EB713F39EBEnat * pow2(51) <= pow(5, 77));
    assert(pow(5, 77) < 0xDD15FE86AFFAD91249EF0EB713F39EBFnat * pow2(51));
}

/// The entry for `10^78`.
proof fn lemma_floor_p78()
    ensures
        power_floor(78, 0x8A2DBF142DFCC7AB, 0x6E3569326C784337),
{
    reveal(power_floor);
    lemma_pow5_78();
    lemma_pow2_chunk_0();
    lemma2_to64();
    lemma2_to64_rest();
    lemma_pow2_adds(0, 54);
    assert(power_of_10_exponent(78) == 196);
    assert(pow2(54) == 0x40000000000000nat);
    assert(0x8A2DBF142DFCC7AB6E3569326C784337nat * pow2(54) <= pow(5, 78));
    assert(pow(5, 78) < 0x8A2DBF142DFCC7AB6E3569326C784338nat * pow2(54));
}

/// The entry for `10^79`.
proof fn lemma_floor_p79()
    ensures
        power_floor(79, 0xACB92ED9397BF996, 0x49C2C37F07965404),
{
    reveal(power_floor);
    lemma_pow5_79();
    lemma_pow2_chunk_0();
    lemma2_to64();
    lemma2_to64_rest();
    lemma_pow2_adds(0, 56);
    assert(power_of_10_exponent(79) == 199);
    assert(pow2(56) == 0x100000000000000nat);
    assert(0xACB92ED9397BF99649C2C37F07965404nat * pow2(56) <= pow(5, 79));
    assert(pow(5, 79) < 0xACB92ED9397BF99649C2C37F07965405nat * pow2(56));
}

/// The entry for `10^80`.
proof fn lemma_floor_p80()
    ensures
        power_floor(80, 0xD7E77A8F87DAF7FB, 0xDC33745EC97BE906),
{
    reveal(power_floor);
    lemma_pow5_80();
    lemma_pow2_chunk_0();
    lemma2_to64();
    lemma2_to64_rest();
    lemma_pow2_adds(0, 58);
    assert(power_of_10_exponent(80) == 202);
    assert(pow2(58) == 0x400000000000000nat);
    assert(0xD7E77A8F87DAF7FBDC33745EC97BE906nat * pow2(58) <= pow(5, 80));
    assert(pow(5, 80) < 0xD7E77A8F87DAF7FBDC33745EC97BE907nat * pow2(58));
}

/// The entry for `10^81`.
proof fn lemma_floor_p81()
    ensures
        power_floor(81, 0x86F0AC99B4E8DAFD, 0x69A028BB3DED71A3),
{
    reveal(power_floor);
    lemma_pow5_81();
    lemma_pow2_chunk_0();
    lemma2_to64();
    lemma2_to64_rest();
    lemma_pow2_adds(0, 61);
    assert(power_of_10_exponent(81) == 206);
    assert(pow2(61) == 0x2000000000000000nat);
    assert(0x86F0AC99B4E8DAFD69A028BB3DED71A3nat * pow2(61) <= pow(5, 81));
    assert(pow(5, 81) < 0x86F0AC99B4E8DAFD69A028BB3DED71A4nat * pow2(61));
}

/// The entry for `10^82`.
proof fn lemma_floor_p82()
    ensures
        power_floor(82, 0xA8ACD7C0222311BC, 0xC40832EA0D68CE0C),
{
    reveal(power_floor);
    lemma_pow5_82();
    lemma_pow2_chunk_0();
    lemma2_to64();
    lemma2_to64_rest();
    lemma_pow2_adds(0, 63);
    assert(power_of_10_exponent(82) == 209);
    assert(pow2(63) == 0x8000000000000000nat);
    assert(0xA8ACD7C0222311BCC40832EA0D68CE0Cnat * pow2(63) <= pow(5, 82));
    assert(pow(5, 82) < 0xA8ACD7C0222311BCC40832EA0D68CE0Dnat * pow2(63));
}

/// The entry for `10^83`.
proof fn lemma_floor_p83()
    ensures
        power_floor(83, 0xD2D80DB02AABD62B, 0xF50A3FA490C30190),
{
    reveal(power_floor);
    lemma_pow5_83();
    lemma_pow2_chunk_1();
    lemma2_to64();
    lemma2_to64_rest();
    lemma_pow2_adds(64, 1);
    assert(power_of_10_exponent(83) == 212);
    assert(pow2(65) == 0x20000000000000000nat);
    assert(0xD2D80DB02AABD62BF50A3FA490C30190nat * pow2(65) <= pow(5, 83));
    assert(pow(5, 83) < 0xD2D80DB02AABD62BF50A3FA490C30191nat * pow2(65));
}

/// The entry for `10^84`.
proof fn lemma_floor_p84()
    ensures
        power_floor(84, 0x83C7088E1AAB65DB, 0x792667C6DA79E0FA),
{
    reveal(power_floor);
    lemma_pow5_84();
    lemma_pow2_chunk_1();
    lemma2_to64();
    lemma2_to64_rest();
    lemma_pow2_adds(64, 4);
    assert(power_of_10_exponent(84) == 216);
    assert(pow2(68) == 0x100000000000000000nat);
    assert(0x83C7088E1AAB65DB792667C6DA79E0FAnat * pow2(68) <= pow(5, 84));
    assert(pow(5, 84) < 0x83C7088E1AAB65DB792667C6DA79E0FBnat * pow2(68));
}

/// The entry for `10^85`.
proof fn lemma_floor_p85()
    ensures
        power_floor(85, 0xA4B8CAB1A1563F52, 0x577001B891185938),
{
    reveal(power_floor);
    lemma_pow5_85();
    lemma_pow2_chunk_1();
    lemma2_to64();
    lemma2_to64_rest();
    lemma_pow2_adds(64, 6);
    assert(power_of_10_exponent(85) == 219);
    assert(pow2(70) == 0x400000000000000000nat);
    assert(0xA4B8CAB1A1563F52577001B891185938nat * pow2(70) <= pow(5, 85));
    assert(pow(5, 85) < 0xA4B8CAB1A1563F52577001B891185939nat * pow2(70));
}

/// The entry for `10^86`.
proof fn lemma_floor_p86()
    ensures
        power_floor(86, 0xCDE6FD5E09ABCF26, 0xED4C0226B55E6F86),
{
    reveal(power_floor);
    lemma_pow5_86();
    lemma_pow2_chunk_1();
    lemma2_to64();
    lemma2_to64_rest();
    lemma_pow2_adds(64, 8);
    assert(power_of_10_exponent(86) == 222);
    assert(pow2(72) == 0x1000000000000000000nat);
    assert(0xCDE6FD5E09ABCF26ED4C0226B55E6F86nat * pow2(72) <= pow(5, 86));
    assert(pow(5, 86) < 0xCDE6FD5E09ABCF26ED4C0226B55E6F87nat * pow2(72));
}

/// The entry for `10^87`.
proof fn lemma_floor_p87()
    ensures
        power_floor(87, 0x80B05E5AC60B6178, 0x544F8158315B05B4),
{
    reveal(power_floor);
    lemma_pow5_87();
    lemma_pow2_chunk_1();
    lemma2_to64();
    lemma2_to64_rest();
    lemma_pow2_adds(64, 11);
    assert(power_of_10_exponent(87) == 226);
    assert(pow2(75) == 0x8000000000000000000nat);
    assert(0x80B05E5AC60B6178544F8158315B05B4nat * pow2(75) <= pow(5, 87));
    assert(pow(5, 87) < 0x80B05E5AC60B6178544F8158315B05B5nat * pow2(75));
}

/// The entry for `10^88`.
proof fn lemma_floor_p88()
    ensures
        power_floor(88, 0xA0DC75F1778E39D6, 0x696361AE3DB1C721),
{
    reveal(power_floor);
    lemma_pow5_88();
    lemma_pow2_chunk_1();
    lemma2_to64();
    lemma2_to64_rest();
    lemma_pow2_adds(64, 13);
    assert(power_of_10_exponent(88) == 229);
    assert(pow2(77) == 0x20000000000000000000nat);
    assert(0xA0DC75F1778E39D6696361AE3DB1C721nat * pow2(77) <= pow(5, 88));
    assert(pow(5, 88) < 0xA0DC75F1778E39D6696361AE3DB1C722nat * pow2(77));
}

/// The entry for `10^89`.
proof fn lemma_floor_p89()
    ensures
        power_floor(89, 0xC913936DD571C84C, 0x03BC3A19CD1E38E9),
{
    reveal(power_floor);
    lemma_pow5_89();
    lemma_pow2_chunk_1();
    lemma2_to64();
    lemma2_to64_rest();
    lemma_pow2_adds(64, 15);
    assert(power_of_10_exponent(89) == 232);
    assert(pow2(79) == 0x80000000000000000000nat);
    assert(0xC913936DD571C84C03BC3A19CD1E38E9nat * pow2(79) <= pow(5, 89));
    assert(pow(5, 89) < 0xC913936DD571C84C03BC3A19CD1E38EAnat * pow2(79));
}

/// The entry for `10^90`.
proof fn lemma_floor_p90()
    ensures
        power_floor(90, 0xFB5878494ACE3A5F, 0x04AB48A04065C723),
{
    reveal(power_floor);
    lemma_pow5_90();
    lemma_pow2_chunk_1();
    lemma2_to64();
    lemma2_to64_rest();
    lemma_pow2_adds(64, 17);
    assert(power_of_10_exponent(90) == 235);
    assert(pow2(81) == 0x200000000000000000000nat);
    assert(0xFB5878494ACE3A5F04AB48A04065C723nat * pow2(81) <= pow(5, 90));
    assert(pow(5, 90) < 0xFB5878494ACE3A5F04AB48A04065C724nat * pow2(81));
}

/// The entry for `10^91`.
proof fn lemma_floor_p91()
    ensures
        power_floor(91, 0x9D174B2DCEC0E47B, 0x62EB0D64283F9C76),
{
    reveal(power_floor);
    lemma_pow5_91();
    lemma_pow2_chunk_1();
    lemma2_to64();
    lemma2_to64_rest();
    lemma_pow2_adds(64, 20);
    assert(power_of_10_exponent(91) == 239);
    assert(pow2(84) == 0x1000000000000000000000nat);
    assert(0x9D174B2DCEC0E47B62EB0D64283F9C76nat * pow2(84) <= pow(5, 91));
    assert(pow(5, 91) < 0x9D174B2DCEC0E47B62EB0D64283F9C77nat * pow2(84));
}

/// The entry for `10^92`.
proof fn lemma_floor_p92()
    ensures
        power_floor(92, 0xC45D1DF942711D9A, 0x3BA5D0BD324F8394),
{
    reveal(power_floor);
    lemma_pow5_92();
    lemma_pow2_chunk_1();
    lemma2_to64();
    lemma2_to64_rest();
    lemma_pow2_adds(64, 22);
    assert(power_of_10_exponent(92) == 242);
    assert(pow2(86) == 0x4000000000000000000000nat);
    assert(0xC45D1DF942711D9A3BA5D0BD324F8394nat * pow2(86) <= pow(5, 92));
    assert(pow(5, 92) < 0xC45D1DF942711D9A3BA5D0BD324F8395nat * pow2(86));
}

/// The entry for `10^93`.
proof fn lemma_floor_p93()
    ensures
        power_floor(93, 0xF5746577930D6500, 0xCA8F44EC7EE36479),
{
    reveal(power_floor);
    lemma_pow5_93();
    lemma_pow2_chunk_1();
    lemma2_to64();
    lemma2_to64_rest();
    lemma_pow2_adds(64, 24);
    assert(power_of_10_exponent(93) == 245);
    assert(pow2(88) == 0x10000000000000000000000nat);
    assert(0xF5746577930D6500CA8F44EC7EE36479nat * pow2(88) <= pow(5, 93));
    assert(pow(5, 93) < 0xF5746577930D6500CA8F44EC7EE3647Anat * pow2(88));
}

/// The entry for `10^94`.
proof fn lemma_floor_p94()
    ensures
        power_floor(94, 0x9968BF6ABBE85F20, 0x7E998B13CF4E1ECB),
{
    reveal(power_floor);
    lemma_pow5_94();
    lemma_pow2_chunk_1();
    lemma2_to64();
    lemma2_to64_rest();
    lemma_pow2_adds(64, 27);
    assert(power_of_10_exponent(94) == 249);
    assert(pow2(91) == 0x80000000000000000000000nat);
    assert(0x9968BF6ABBE85F207E998B13CF4E1ECBnat * pow2(91) <= pow(5, 94));
    assert(pow(5, 94) < 0x9968BF6ABBE85F207E998B13CF4E1ECCnat * pow2(91));
}

/// The entry for `10^95`.
proof fn lemma_floor_p95()
    ensures
        power_floor(95, 0xBFC2EF456AE276E8, 0x9E3FEDD8C321A67E),
{
    reveal(power_floor);
    lemma_pow5_95();
    lemma_pow2_chunk_1();
    lemma2_to64();
    lemma2_to64_rest();
    lemma_pow2_adds(64, 29);
    assert(power_of_10_exponent(95) == 252);
    assert(pow2(93) == 0x200000000000000000000000nat);
    assert(0xBFC2EF456AE276E89E3FEDD8C321A67Enat * pow2(93) <= pow(5, 95));
    assert(pow(5, 95) < 0xBFC2EF456AE276E89E3FEDD8C321A67Fnat * pow2(93));
}

/// The entry for `10^96`.
proof fn lemma_floor_p96()
    ensures
        power_floor(96, 0xEFB3AB16C59B14A2, 0xC5CFE94EF3EA101E),
{
    reveal(power_floor);
    lemma_pow5_96();
    lemma_pow2_chunk_1();
    lemma2_to64();
    lemma2_to64_rest();
    lemma_pow2_adds(64, 31);
    assert(power_of_10_exponent(96) == 255);
    assert(pow2(95) == 0x800000000000000000000000nat);
    assert(0xEFB3AB16C59B14A2C5CFE94EF3EA101Enat * pow2(95) <= pow(5, 96));
    assert(pow(5, 96) < 0xEFB3AB16C59B14A2C5CFE94EF3EA101Fnat * pow2(95));
}

/// The entry for `10^97`.
proof fn lemma_floor_p97()
    ensures
        power_floor(97, 0x95D04AEE3B80ECE5, 0xBBA1F1D158724A12),
{
    reveal(power_floor);
    lemma_pow5_97();
    lemma_pow2_chunk_1();
    lemma2_to64();
    lemma2_to64_rest();
    lemma_pow2_adds(64, 34);
    assert(power_of_10_exponent(97) == 259);
    assert(pow2(98) == 0x4000000000000000000000000nat);
    assert(0x95D04AEE3B80ECE5BBA1F1D158724A12nat * pow2(98) <= pow(5, 97));
    assert(pow(5, 97) < 0x95D04AEE3B80ECE5BBA1F1D158724A13nat * pow2(98));
}

/// The entry for `10^98`.
proof fn lemma_floor_p98()
    ensures
        power_floor(98, 0xBB445DA9CA61281F, 0x2A8A6E45AE8EDC97),
{
    reveal(power_floor);
    lemma_pow5_98();
    lemma_pow2_chunk_1();
    lemma2_to64();
    lemma2_to64_rest();
    lemma_pow2_adds(64, 36);
    assert(power_of_10_exponent(98) == 262);
    assert(pow2(100) == 0x10000000000000000000000000nat);
    assert(0xBB445DA9CA61281F2A8A6E45AE8EDC97nat * pow2(100) <= pow(5, 98));
    assert(pow(5, 98) < 0xBB445DA9CA61281F2A8A6E45AE8EDC98nat * pow2(100));
}

/// The entry for `10^99`.
proof fn lemma_floor_p99()
    ensures
        power_floor(99, 0xEA1575143CF97226, 0xF52D09D71A3293BD),
{
    reveal(power_floor);
    lemma_pow5_99();
    lemma_pow2_chunk_1();
    lemma2_to64();
    lemma2_to64_rest();
    lemma_pow2_adds(64, 38);
    assert(power_of_10_exponent(99) == 265);
    assert(pow2(102) == 0x40000000000000000000000000nat);
    assert(0xEA1575143CF97226F52D09D71A3293BDnat * pow2(102) <= pow(5, 99));
    assert(pow(5, 99) < 0xEA1575143CF97226F52D09D71A3293BEnat * pow2(102));
}

/// The entry for `10^100`.
proof fn lemma_floor_p100()
    ensures
        power_floor(100, 0x924D692CA61BE758, 0x593C2626705F9C56),
{
    reveal(power_floor);
    lemma_pow5_100();
    lemma_pow2_chunk_1();
    lemma2_to64();
    lemma2_to64_rest();
    lemma_pow2_adds(64, 41);
    assert(power_of_10_exponent(100) == 269);
    assert(pow2(105) == 0x200000000000000000000000000nat);
    assert(0x924D692CA61BE758593C2626705F9C56nat * pow2(105) <= pow(5, 100));
    assert(pow(5, 100) < 0x924D692CA61BE758593C2626705F9C57nat * pow2(105));
}

/// The entry for `10^101`.
proof fn lemma_floor_p101()
    ensures
        power_floor(101, 0xB6E0C377CFA2E12E, 0x6F8B2FB00C77836C),
{
    reveal(power_floor);
    lemma_pow5_101();
    lemma_pow2_chunk_1();
    lemma2_to64();
    lemma2_to64_rest();
    lemma_pow2_adds(64, 43);
    assert(power_of_10_exponent(101) == 272);
    assert(pow2(107) == 0x800000000000000000000000000nat);
    assert(0xB6E0C377CFA2E12E6F8B2FB00C77836Cnat * pow2(107) <= pow(5, 101));
    assert(pow(5, 101) < 0xB6E0C377CFA2E12E6F8B2FB00C77836Dnat * pow2(107));
}

/// The entry for `10^102`.
proof fn lemma_floor_p102()
    ensures
        power_floor(102, 0xE498F455C38B997A, 0x0B6DFB9C0F956447),
{
    reveal(power_floor);
    lemma_pow5_102();
    lemma_pow2_chunk_1();
    lemma2_to64();
    lemma2_to64_rest();
    lemma_pow2_adds(64, 45);
    assert(power_of_10_exponent(102) == 275);
    assert(pow2(109) == 0x2000000000000000000000000000nat);
    assert(0xE498F455C38B997A0B6DFB9C0F956447nat * pow2(109) <= pow(5, 102));
    assert(pow(5, 102) < 0xE498F455C38B997A0B6DFB9C0F956448nat * pow2(109));
}

/// The entry for `10^103`.
proof fn lemma_floor_p103()
    ensures
        power_floor(103, 0x8EDF98B59A373FEC, 0x4724BD4189BD5EAC),
{
    reveal(power_floor);
    lemma_pow5_103();
    lemma_pow2_chunk_1();
    lemma2_to64();
    lemma2_to64_rest();
    lemma_pow2_adds(64, 48);
    assert(power_of_10_exponent(103) == 279);
    assert(pow2(112) == 0x10000000000000000000000000000nat);
    assert(0x8EDF98B59A373FEC4724BD4189BD5EACnat * pow2(112) <= pow(5, 103));
    assert(pow(5, 103) < 0x8EDF98B59A373FEC4724BD4189BD5EADnat * pow2(112));
}

/// The entry for `10^104`.
proof fn lemma_floor_p104()
    ensures
        power_floor(104, 0xB2977EE300C50FE7, 0x58EDEC91EC2CB657),
{
    reveal(power_floor);
    lemma_pow5_104();
    lemma_pow2_chunk_1();
    lemma2_to64();
    lemma2_to64_rest();
    lemma_pow2_adds(64, 50);
    assert(power_of_10_exponent(104) == 282);
    assert(pow2(114) == 0x40000000000000000000000000000nat);
    assert(0xB2977EE300C50FE758EDEC91EC2CB657nat * pow2(114) <= pow(5, 104));
    assert(pow(5, 104) < 0xB2977EE300C50FE758EDEC91EC2CB658nat * pow2(114));
}

/// The entry for `10^105`.
proof fn lemma_floor_p105()
    ensures
        power_floor(105, 0xDF3D5E9BC0F653E1, 0x2F2967B66737E3ED),
{
    reveal(power_floor);
    lemma_pow5_105();
    lemma_pow2_chunk_1();
    lemma2_to64();
    lemma2_to64_rest();
    lemma_pow2_adds(64, 52);
    assert(power_of_10_exponent(105) == 285);
    assert(pow2(116) == 0x100000000000000000000000000000nat);
    assert(0xDF3D5E9BC0F653E12F2967B66737E3EDnat * pow2(116) <= pow(5, 105));
    assert(pow(5, 105) < 0xDF3D5E9BC0F653E12F2967B66737E3EEnat * pow2(116));
}

/// The entry for `10^106`.
proof fn lemma_floor_p106()
    ensures
        power_floor(106, 0x8B865B215899F46C, 0xBD79E0D20082EE74),
{
    reveal(power_floor);
    lemma_pow5_106();
    lemma_pow2_chunk_1();
    lemma2_to64();
    lemma2_to64_rest();
    lemma_pow2_adds(64, 55);
    assert(power_of_10_exponent(106) == 289);
    assert(pow2(119) == 0x800000000000000000000000000000nat);
    assert(0x8B865B215899F46CBD79E0D20082EE74nat * pow2(119) <= pow(5, 106));
    assert(pow(5, 106) < 0x8B865B215899F46CBD79E0D20082EE75nat * pow2(119));
}

/// The entry for `10^107`.
proof fn lemma_floor_p107()
    ensures
        power_floor(107, 0xAE67F1E9AEC07187, 0xECD8590680A3AA11),
{
    reveal(power_floor);
    lemma_pow5_107();
    lemma_pow2_chunk_1();
    lemma2_to64();
    lemma2_to64_rest();
    lemma_pow2_adds(64, 57);
    assert(power_of_10_exponent(107) == 292);
    assert(pow2(121) == 0x2000000000000000000000000000000nat);
    assert(0xAE67F1E9AEC07187ECD8590680A3AA11nat * pow2(121) <= pow(5, 107));
    assert(pow(5, 107) < 0xAE67F1E9AEC07187ECD8590680A3AA12nat * pow2(121));
}

/// The entry for `10^108`.
proof fn lemma_floor_p108()
    ensures
        power_floor(108, 0xDA01EE641A708DE9, 0xE80E6F4820CC9495),
{
    reveal(power_floor);
    lemma_pow5_108();
    lemma_pow2_chunk_1();
    lemma2_to64();
    lemma2_to64_rest();
    lemma_pow2_adds(64, 59);
    assert(power_of_10_exponent(108) == 295);
    assert(pow2(123) == 0x8000000000000000000000000000000nat);
    assert(0xDA01EE641A708DE9E80E6F4820CC9495nat * pow2(123) <= pow(5, 108));
    assert(pow(5, 108) < 0xDA01EE641A708DE9E80E6F4820CC9496nat * pow2(123));
}

/// The entry for `10^109`.
proof fn lemma_floor_p109()
    ensures
        power_floor(109, 0x884134FE908658B2, 0x3109058D147FDCDD),
{
    reveal(power_floor);
    lemma_pow5_109();
    lemma_pow2_chunk_1();
    lemma2_to64();
    lemma2_to64_rest();
    lemma_pow2_adds(64, 62);
    assert(power_of_10_exponent(109) == 299);
    assert(pow2(126) == 0x40000000000000000000000000000000nat);
    assert(0x884134FE908658B23109058D147FDCDDnat * pow2(126) <= pow(5, 109));
    assert(pow(5, 109) < 0x884134FE908658B23109058D147FDCDEnat * pow2(126));
}

/// The entry for `10^110`.
proof fn lemma_floor_p110()
    ensures
        power_floor(110, 0xAA51823E34A7EEDE, 0xBD4B46F0599FD415),
{
    reveal(power_floor);
    lemma_pow5_110();
    lemma_pow2_chunk_2();
    lemma2_to64();
    lemma2_to64_rest();
    lemma_pow2_adds(128, 0);
    assert(power_of_10_exponent(110) == 302);
    assert(pow2(128) == 0x100000000000000000000000000000000nat);
    assert(0xAA51823E34A7EEDEBD4B46F0599FD415nat * pow2(128) <= pow(5, 110));
    assert(pow(5, 110) < 0xAA51823E34A7EEDEBD4B46F0599FD416nat * pow2(128));
}

/// The entry for `10^111`.
proof fn lemma_floor_p111()
    ensures
        power_floor(111, 0xD4E5E2CDC1D1EA96, 0x6C9E18AC7007C91A),
{
    reveal(power_floor);
    lemma_pow5_111();
    lemma_pow2_chunk_2();
    lemma2_to64();
    lemma2_to64_rest();
    lemma_pow2_adds(128, 2);
    assert(power_of_10_exponent(111) == 305);
    assert(pow2(130) == 0x400000000000000000000000000000000nat);
    assert(0xD4E5E2CDC1D1EA966C9E18AC7007C91Anat * pow2(130) <= pow(5, 111));
    assert(pow(5, 111) < 0xD4E5E2CDC1D1EA966C9E18AC7007C91Bnat * pow2(130));
}

/// The entry for `10^112`.
proof fn lemma_floor_p112()
    ensures
        power_floor(112, 0x850FADC09923329E, 0x03E2CF6BC604DDB0),
{
    reveal(power_floor);
    lemma_pow5_112();
    lemma_pow2_chunk_2();
    lemma2_to64();
    lemma2_to64_rest();
    lemma_pow2_adds(128, 5);
    assert(power_of_10_exponent(112) == 309);
    assert(pow2(133) == 0x2000000000000000000000000000000000nat);
    assert(0x850FADC09923329E03E2CF6BC604DDB0nat * pow2(133) <= pow(5, 112));
    assert(pow(5, 112) < 0x850FADC09923329E03E2CF6BC604DDB1nat * pow2(133));
}

/// The entry for `10^113`.
proof fn lemma_floor_p113()
    ensures
        power_floor(113, 0xA6539930BF6BFF45, 0x84DB8346B786151C),
{
    reveal(power_floor);
    lemma_pow5_113();
    lemma_pow2_chunk_2();
    lemma2_to64();
    lemma2_to64_rest();
    lemma_pow2_adds(128, 7);
    assert(power_of_10_exponent(113) == 312);
    assert(pow2(135) == 0x8000000000000000000000000000000000nat);
    assert(0xA6539930BF6BFF4584DB8346B786151Cnat * pow2(135) <= pow(5, 113));
    assert(pow(5, 113) < 0xA6539930BF6BFF4584DB8346B786151Dnat * pow2(135));
}

/// The entry for `10^114`.
proof fn lemma_floor_p114()
    ensures
        power_floor(114, 0xCFE87F7CEF46FF16, 0xE612641865679A63),
{
    reveal(power_floor);
    lemma_pow5_114();
    lemma_pow2_chunk_2();
    lemma2_to64();
    lemma2_to64_rest();
    lemma_pow2_adds(128, 9);
    assert(power_of_10_exponent(114) == 315);
    assert(pow2(137) == 0x20000000000000000000000000000000000nat);
    assert(0xCFE87F7CEF46FF16E612641865679A63nat * pow2(137) <= pow(5, 114));
    assert(pow(5, 114) < 0xCFE87F7CEF46FF16E612641865679A64nat * pow2(137));
}

/// The entry for `10^115`.
proof fn lemma_floor_p115()
    ensures
        power_floor(115, 0x81F14FAE158C5F6E, 0x4FCB7E8F3F60C07E),
{
    reveal(power_floor);
    lemma_pow5_115();
    lemma_pow2_chunk_2();
    lemma2_to64();
    lemma2_to64_rest();
    lemma_pow2_adds(128, 12);
    assert(power_of_10_exponent(115) == 319);
    assert(pow2(140) == 0x100000000000000000000000000000000000nat);
    assert(0x81F14FAE158C5F6E4FCB7E8F3F60C07Enat * pow2(140) <= pow(5, 115));
    assert(pow(5, 115) < 0x81F14FAE158C5F6E4FCB7E8F3F60C07Fnat * pow2(140));
}

/// The entry for `10^116`.
proof fn lemma_floor_p116()
    ensures
        power_floor(116, 0xA26DA3999AEF7749, 0xE3BE5E330F38F09D),
{
    reveal(power_floor);
    lemma_pow5_116();
    lemma_pow2_chunk_2();
    lemma2_to64();
    lemma2_to64_rest();
    lemma_pow2_adds(128, 14);
    assert(power_of_10_exponent(116) == 322);
    assert(pow2(142) == 0x400000000000000000000000000000000000nat);
    assert(0xA26DA3999AEF7749E3BE5E330F38F09Dnat * pow2(142) <= pow(5, 116));
    assert(pow(5, 116) < 0xA26DA3999AEF7749E3BE5E330F38F09Enat * pow2(142));
}

/// The entry for `10^117`.
proof fn lemma_floor_p117()
    ensures
        power_floor(117, 0xCB090C8001AB551C, 0x5CADF5BFD3072CC5),
{
    reveal(power_floor);
    lemma_pow5_117();
    lemma_pow2_chunk_2();
    lemma2_to64();
    lemma2_to64_rest();
    lemma_pow2_adds(128, 16);
    assert(power_of_10_exponent(117) == 325);
    assert(pow2(144) == 0x1000000000000000000000000000000000000nat);
    assert(0xCB090C8001AB551C5CADF5BFD3072CC5nat * pow2(144) <= pow(5, 117));
    assert(pow(5, 117) < 0xCB090C8001AB551C5CADF5BFD3072CC6nat * pow2(144));
}

/// The entry for `10^118`.
proof fn lemma_floor_p118()
    ensures
        power_floor(118, 0xFDCB4FA002162A63, 0x73D9732FC7C8F7F6),
{
    reveal(power_floor);
    lemma_pow5_118();
    lemma_pow2_chunk_2();
    lemma2_to64();
    lemma2_to64_rest();
    lemma_pow2_adds(128, 18);
    assert(power_of_10_exponent(118) == 328);
    assert(pow2(146) == 0x4000000000000000000000000000000000000nat);
    assert(0xFDCB4FA002162A6373D9732FC7C8F7F6nat * pow2(146) <= pow(5, 118));
    assert(pow(5, 118) < 0xFDCB4FA002162A6373D9732FC7C8F7F7nat * pow2(146));
}

/// The entry for `10^119`.
proof fn lemma_floor_p119()
    ensures
        power_floor(119, 0x9E9F11C4014DDA7E, 0x2867E7FDDCDD9AFA),
{
    reveal(power_floor);
    lemma_pow5_119();
    lemma_pow2_chunk_2();
    lemma2_to64();
    lemma2_to64_rest();
    lemma_pow2_adds(128, 21);
    assert(power_of_10_exponent(119) == 332);
    assert(pow2(149) == 0x20000000000000000000000000000000000000nat);
    assert(0x9E9F11C4014DDA7E2867E7FDDCDD9AFAnat * pow2(149) <= pow(5, 119));
    assert(pow(5, 119) < 0x9E9F11C4014DDA7E2867E7FDDCDD9AFBnat * pow2(149));
}

/// The entry for `10^120`.
proof fn lemma_floor_p120()
    ensures
        power_floor(120, 0xC646D63501A1511D, 0xB281E1FD541501B8),
{
    reveal(power_floor);
    lemma_pow5_120();
    lemma_pow2_chunk_2();
    lemma2_to64();
    lemma2_to64_rest();
    lemma_pow2_adds(128, 23);
    assert(power_of_10_exponent(120) == 335);
    assert(pow2(151) == 0x80000000000000000000000000000000000000nat);
    assert(0xC646D63501A1511DB281E1FD541501B8nat * pow2(151) <= pow(5, 120));
    assert(pow(5, 120) < 0xC646D63501A1511DB281E1FD541501B9nat * pow2(151));
}

/// The entry for `10^121`.
proof fn lemma_floor_p121()
    ensures
        power_floor(121, 0xF7D88BC24209A565, 0x1F225A7CA91A4226),
{
    reveal(power_floor);
    lemma_pow5_121();
    lemma_pow2_chunk_2();
    lemma2_to64();
    lemma2_to64_rest();
    lemma_pow2_adds(128, 25);
    assert(power_of_10_exponent(121) == 338);
    assert(pow2(153) == 0x200000000000000000000000000000000000000nat);
    assert(0xF7D88BC24209A5651F225A7CA91A4226nat * pow2(153) <= pow(5, 121));
    assert(pow(5, 121) < 0xF7D88BC24209A5651F225A7CA91A4227nat * pow2(153));
}

/// The entry for `10^122`.
proof fn lemma_floor_p122()
    ensures
        power_floor(122, 0x9AE757596946075F, 0x3375788DE9B06958),
{
    reveal(power_floor);
    lemma_pow5_122();
    lemma_pow2_chunk_2();
    lemma2_to64();
    lemma2_to64_rest();
    lemma_pow2_adds(128, 28);
    assert(power_of_10_exponent(122) == 342);
    assert(pow2(156) == 0x1000000000000000000000000000000000000000nat);
    assert(0x9AE757596946075F3375788DE9B06958nat * pow2(156) <= pow(5, 122));
    assert(pow(5, 122) < 0x9AE757596946075F3375788DE9B06959nat * pow2(156));
}

/// The entry for `10^123`.
proof fn lemma_floor_p123()
    ensures
        power_floor(123, 0xC1A12D2FC3978937, 0x0052D6B1641C83AE),
{
    reveal(power_floor);
    lemma_pow5_123();
    lemma_pow2_chunk_2();
    lemma2_to64();
    lemma2_to64_rest();
    lemma_pow2_adds(128, 30);
    assert(power_of_10_exponent(123) == 345);
    assert(pow2(158) == 0x4000000000000000000000000000000000000000nat);
    assert(0xC1A12D2FC39789370052D6B1641C83AEnat * pow2(158) <= pow(5, 123));
    assert(pow(5, 123) < 0xC1A12D2FC39789370052D6B1641C83AFnat * pow2(158));
}

/// The entry for `10^124`.
proof fn lemma_floor_p124()
    ensures
        power_floor(124, 0xF209787BB47D6B84, 0xC0678C5DBD23A49A),
{
    reveal(power_floor);
    lemma_pow5_124();
    lemma_pow2_chunk_2();
    lemma2_to64();
    lemma2_to64_rest();
    lemma_pow2_adds(128, 32);
    assert(power_of_10_exponent(124) == 348);
    assert(pow2(160) == 0x10000000000000000000000000000000000000000nat);
    assert(0xF209787BB47D6B84C0678C5DBD23A49Anat * pow2(160) <= pow(5, 124));
    assert(pow(5, 124) < 0xF209787BB47D6B84C0678C5DBD23A49Bnat * pow2(160));
}

/// The entry for `10^125`.
proof fn lemma_floor_p125()
    ensures
        power_floor(125, 0x9745EB4D50CE6332, 0xF840B7BA963646E0),
{
    reveal(power_floor);
    lemma_pow5_125();
    lemma_pow2_chunk_2();
    lemma2_to64();
    lemma2_to64_rest();
    lemma_pow2_adds(128, 35);
    assert(power_of_10_exponent(125) == 352);
    assert(pow2(163) == 0x80000000000000000000000000000000000000000nat);
    assert(0x9745EB4D50CE6332F840B7BA963646E0nat * pow2(163) <= pow(5, 125));
    assert(pow(5, 125) < 0x9745EB4D50CE6332F840B7BA963646E1nat * pow2(163));
}

/// The entry for `10^126`.
proof fn lemma_floor_p126()
    ensures
        power_floor(126, 0xBD176620A501FBFF, 0xB650E5A93BC3D898),
{
    reveal(power_floor);
    lemma_pow5_126();
    lemma_pow2_chunk_2();
    lemma2_to64();
    lemma2_to64_rest();
    lemma_pow2_adds(128, 37);
    assert(power_of_10_exponent(126) == 355);
    assert(pow2(165) == 0x200000000000000000000000000000000000000000nat);
    assert(0xBD176620A501FBFFB650E5A93BC3D898nat * pow2(165) <= pow(5, 126));
    assert(pow(5, 126) < 0xBD176620A501FBFFB650E5A93BC3D899nat * pow2(165));
}

/// The entry for `10^127`.
proof fn lemma_floor_p127()
    ensures
        power_floor(127, 0xEC5D3FA8CE427AFF, 0xA3E51F138AB4CEBE),
{
    reveal(power_floor);
    lemma_pow5_127();
    lemma_pow2_chunk_2();
    lemma2_to64();
    lemma2_to64_rest();
    lemma_pow2_adds(128, 39);
    assert(power_of_10_exponent(127) == 358);
    assert(pow2(167) == 0x800000000000000000000000000000000000000000nat);
    assert(0xEC5D3FA8CE427AFFA3E51F138AB4CEBEnat * pow2(167) <= pow(5, 127));
    assert(pow(5, 127) < 0xEC5D3FA8CE427AFFA3E51F138AB4CEBFnat * pow2(167));
}

/// The entry for `10^128`.
proof fn lemma_floor_p128()
    ensures
        power_floor(128, 0x93BA47C980E98CDF, 0xC66F336C36B10137),
{
    reveal(power_floor);
    lemma_pow5_128();
    lemma_pow2_chunk_2();
    lemma2_to64();
    lemma2_to64_rest();
    lemma_pow2_adds(128, 42);
    assert(power_of_10_exponent(128) == 362);
    assert(pow2(170) == 0x4000000000000000000000000000000000000000000nat);
    assert(0x93BA47C980E98CDFC66F336C36B10137nat * pow2(170) <= pow(5, 128));
    assert(pow(5, 128) < 0x93BA47C980E98CDFC66F336C36B10138nat * pow2(170));
}

/// The entry for `10^129`.
proof fn lemma_floor_p129()
    ensures
        power_floor(129, 0xB8A8D9BBE123F017, 0xB80B0047445D4184),
{
    reveal(power_floor);
    lemma_pow5_129();
    lemma_pow2_chunk_2();
    lemma2_to64();
    lemma2_to64_rest();
    lemma_pow2_adds(128, 44);
    assert(power_of_10_exponent(129) == 365);
    assert(pow2(172) == 0x10000000000000000000000000000000000000000000nat);
    assert(0xB8A8D9BBE123F017B80B0047445D4184nat * pow2(172) <= pow(5, 129));
    assert(pow(5, 129) < 0xB8A8D9BBE123F017B80B0047445D4185nat * pow2(172));
}

/// The entry for `10^130`.
proof fn lemma_floor_p130()
    ensures
        power_floor(130, 0xE6D3102AD96CEC1D, 0xA60DC059157491E5),
{
    reveal(power_floor);
    lemma_pow5_130();
    lemma_pow2_chunk_2();
    lemma2_to64();
    lemma2_to64_rest();
    lemma_pow2_adds(128, 46);
    assert(power_of_10_exponent(130) == 368);
    assert(pow2(174) == 0x40000000000000000000000000000000000000000000nat);
    assert(0xE6D3102AD96CEC1DA60DC059157491E5nat * pow2(174) <= pow(5, 130));
    assert(pow(5, 130) < 0xE6D3102AD96CEC1DA60DC059157491E6nat * pow2(174));
}

/// The entry for `10^131`.
proof fn lemma_floor_p131()
    ensures
        power_floor(131, 0x9043EA1AC7E41392, 0x87C89837AD68DB2F),
{
    reveal(power_floor);
    lemma_pow5_131();
    lemma_pow2_chunk_2();
    lemma2_to64();
    lemma2_to64_rest();
    lemma_pow2_adds(128, 49);
    assert(power_of_10_exponent(131) == 372);
    assert(pow2(177) == 0x200000000000000000000000000000000000000000000nat);
    assert(0x9043EA1AC7E4139287C89837AD68DB2Fnat * pow2(177) <= pow(5, 131));
    assert(pow(5, 131) < 0x9043EA1AC7E4139287C89837AD68DB30nat * pow2(177));
}

/// The entry for `10^132`.
proof fn lemma_floor_p132()
    ensures
        power_floor(132, 0xB454E4A179DD1877, 0x29BABE4598C311FB),
{
    reveal(power_floor);
    lemma_pow5_132();
    lemma_pow2_chunk_2();
    lemma2_to64();
    lemma2_to64_rest();
    lemma_pow2_adds(128, 51);
    assert(power_of_10_exponent(132) == 375);
    assert(pow2(179) == 0x800000000000000000000000000000000000000000000nat);
    assert(0xB454E4A179DD187729BABE4598C311FBnat * pow2(179) <= pow(5, 132));
    assert(pow(5, 132) < 0xB454E4A179DD187729BABE4598C311FCnat * pow2(179));
}

/// The entry for `10^133`.
proof fn lemma_floor_p133()
    ensures
        power_floor(133, 0xE16A1DC9D8545E94, 0xF4296DD6FEF3D67A),
{
    reveal(power_floor);
    lemma_pow5_133();
    lemma_pow2_chunk_2();
    lemma2_to64();
    lemma2_to64_rest();
    lemma_pow2_adds(128, 53);
    assert(power_of_10_exponent(133) == 378);
    assert(pow2(181) == 0x2000000000000000000000000000000000000000000000nat);
    assert(0xE16A1DC9D8545E94F4296DD6FEF3D67Anat * pow2(181) <= pow(5, 133));
    assert(pow(5, 133) < 0xE16A1DC9D8545E94F4296DD6FEF3D67Bnat * pow2(181));
}

/// The entry for `10^134`.
proof fn lemma_floor_p134()
    ensures
        power_floor(134, 0x8CE2529E2734BB1D, 0x1899E4A65F58660C),
{
    reveal(power_floor);
    lemma_pow5_134();
    lemma_pow2_chunk_2();
    lemma2_to64();
    lemma2_to64_rest();
    lemma_pow2_adds(128, 56);
    assert(power_of_10_exponent(134) == 382);
    assert(pow2(184) == 0x10000000000000000000000000000000000000000000000nat);
    assert(0x8CE2529E2734BB1D1899E4A65F58660Cnat * pow2(184) <= pow(5, 134));
    assert(pow(5, 134) < 0x8CE2529E2734BB1D1899E4A65F58660Dnat * pow2(184));
}

/// The entry for `10^135`.
proof fn lemma_floor_p135()
    ensures
        power_floor(135, 0xB01AE745B101E9E4, 0x5EC05DCFF72E7F8F),
{
    reveal(power_floor);
    lemma_pow5_135();
    lemma_pow2_chunk_2();
    lemma2_to64();
    lemma2_to64_rest();
    lemma_pow2_adds(128, 58);
    assert(power_of_10_exponent(135) == 385);
    assert(pow2(186) == 0x40000000000000000000000000000000000000000000000nat);
    assert(0xB01AE745B101E9E45EC05DCFF72E7F8Fnat * pow2(186) <= pow(5, 135));
    assert(pow(5, 135) < 0xB01AE745B101E9E45EC05DCFF72E7F90nat * pow2(186));
}

/// The entry for `10^136`.
proof fn lemma_floor_p136()
    ensures
        power_floor(136, 0xDC21A1171D42645D, 0x76707543F4FA1F73),
{
    reveal(power_floor);
    lemma_pow5_136();
    lemma_pow2_chunk_2();
    lemma2_to64();
    lemma2_to64_rest();
    lemma_pow2_adds(128, 60);
    assert(power_of_10_exponent(136) == 388);
    assert(pow2(188) == 0x100000000000000000000000000000000000000000000000nat);
    assert(0xDC21A1171D42645D76707543F4FA1F73nat * pow2(188) <= pow(5, 136));
    assert(pow(5, 136) < 0xDC21A1171D42645D76707543F4FA1F74nat * pow2(188));
}

/// The entry for `10^137`.
proof fn lemma_floor_p137()
    ensures
        power_floor(137, 0x899504AE72497EBA, 0x6A06494A791C53A8),
{
    reveal(power_floor);
    lemma_pow5_137();
    lemma_pow2_chunk_2();
    lemma2_to64();
    lemma2_to64_rest();
    lemma_pow2_adds(128, 63);
    assert(power_of_10_exponent(137) == 392);
    assert(pow2(191) == 0x800000000000000000000000000000000000000000000000nat);
    assert(0x899504AE72497EBA6A06494A791C53A8nat * pow2(191) <= pow(5, 137));
    assert(pow(5, 137) < 0x899504AE72497EBA6A06494A791C53A9nat * pow2(191));
}

/// The entry for `10^138`.
proof fn lemma_floor_p138()
    ensures
        power_floor(138, 0xABFA45DA0EDBDE69, 0x0487DB9D17636892),
{
    reveal(power_floor);
    lemma_pow5_138();
    lemma_pow2_chunk_3();
    lemma2_to64();
    lemma2_to64_rest();
    lemma_pow2_adds(192, 1);
    assert(power_of_10_exponent(138) == 395);
    assert(pow2(193) == 0x2000000000000000000000000000000000000000000000000nat);
    assert(0xABFA45DA0EDBDE690487DB9D17636892nat * pow2(193) <= pow(5, 138));
    assert(pow(5, 138) < 0xABFA45DA0EDBDE690487DB9D17636893nat * pow2(193));
}

/// The entry for `10^139`.
proof fn lemma_floor_p139()
    ensures
        power_floor(139, 0xD6F8D7509292D603, 0x45A9D2845D3C42B6),
{
    reveal(power_floor);
    lemma_pow5_139();
    lemma_pow2_chunk_3();
    lemma2_to64();
    lemma2_to64_rest();
    lemma_pow2_adds(192, 3);
    assert(power_of_10_exponent(139) == 398);
    assert(pow2(195) == 0x8000000000000000000000000000000000000000000000000nat);
    assert(0xD6F8D7509292D60345A9D2845D3C42B6nat * pow2(195) <= pow(5, 139));
    assert(pow(5, 139) < 0xD6F8D7509292D60345A9D2845D3C42B7nat * pow2(195));
}

/// The entry for `10^140`.
proof fn lemma_floor_p140()
    ensures
        power_floor(140, 0x865B86925B9BC5C2, 0x0B8A2392BA45A9B2),
{
    reveal(power_floor);
    lemma_pow5_140();
    lemma_pow2_chunk_3();
    lemma2_to64();
    lemma2_to64_rest();
    lemma_pow2_adds(192, 6);
    assert(power_of_10_exponent(140) == 402);
    assert(pow2(198) == 0x40000000000000000000000000000000000000000000000000nat);
    assert(0x865B86925B9BC5C20B8A2392BA45A9B2nat * pow2(198) <= pow(5, 140));
    assert(pow(5, 140) < 0x865B86925B9BC5C20B8A2392BA45A9B3nat * pow2(198));
}

/// The entry for `10^141`.
proof fn lemma_floor_p141()
    ensures
        power_floor(141, 0xA7F26836F282B732, 0x8E6CAC7768D7141E),
{
    reveal(power_floor);
    lemma_pow5_141();
    lemma_pow2_chunk_3();
    lemma2_to64();
    lemma2_to64_rest();
    lemma_pow2_adds(192, 8);
    assert(power_of_10_exponent(141) == 405);
    assert(pow2(200) == 0x100000000000000000000000000000000000000000000000000nat);
    assert(0xA7F26836F282B7328E6CAC7768D7141Enat * pow2(200) <= pow(5, 141));
    assert(pow(5, 141) < 0xA7F26836F282B7328E6CAC7768D7141Fnat * pow2(200));
}

/// The entry for `10^142`.
proof fn lemma_floor_p142()
    ensures
        power_floor(142, 0xD1EF0244AF2364FF, 0x3207D795430CD926),
{
    reveal(power_floor);
    lemma_pow5_142();
    lemma_pow2_chunk_3();
    lemma2_to64();
    lemma2_to64_rest();
    lemma_pow2_adds(192, 10);
    assert(power_of_10_exponent(142) == 408);
    assert(pow2(202) == 0x400000000000000000000000000000000000000000000000000nat);
    assert(0xD1EF0244AF2364FF3207D795430CD926nat * pow2(202) <= pow(5, 142));
    assert(pow(5, 142) < 0xD1EF0244AF2364FF3207D795430CD927nat * pow2(202));
}

/// The entry for `10^143`.
proof fn lemma_floor_p143()
    ensures
        power_floor(143, 0x8335616AED761F1F, 0x7F44E6BD49E807B8),
{
    reveal(power_floor);
    lemma_pow5_143();
    lemma_pow2_chunk_3();
    lemma2_to64();
    lemma2_to64_rest();
    lemma_pow2_adds(192, 13);
    assert(power_of_10_exponent(143) == 412);
    assert(pow2(205) == 0x2000000000000000000000000000000000000000000000000000nat);
    assert(0x8335616AED761F1F7F44E6BD49E807B8nat * pow2(205) <= pow(5, 143));
    assert(pow(5, 143) < 0x8335616AED761F1F7F44E6BD49E807B9nat * pow2(205));
}

/// The entry for `10^144`.
proof fn lemma_floor_p144()
    ensures
        power_floor(144, 0xA402B9C5A8D3A6E7, 0x5F16206C9C6209A6),
{
    reveal(power_floor);
    lemma_pow5_144();
    lemma_pow2_chunk_3();
    lemma2_to64();
    lemma2_to64_rest();
    lemma_pow2_adds(192, 15);
    assert(power_of_10_exponent(144) == 415);
    assert(pow2(207) == 0x8000000000000000000000000000000000000000000000000000nat);
    assert(0xA402B9C5A8D3A6E75F16206C9C6209A6nat * pow2(207) <= pow(5, 144));
    assert(pow(5, 144) < 0xA402B9C5A8D3A6E75F16206C9C6209A7nat * pow2(207));
}

/// The entry for `10^145`.
proof fn lemma_floor_p145()
    ensures
        power_floor(145, 0xCD036837130890A1, 0x36DBA887C37A8C0F),
{
    reveal(power_floor);
    lemma_pow5_145();
    lemma_pow2_chunk_3();
    lemma2_to64();
    lemma2_to64_rest();
    lemma_pow2_adds(192, 17);
    assert(power_of_10_exponent(145) == 418);
    assert(pow2(209) == 0x20000000000000000000000000000000000000000000000000000nat);
    assert(0xCD036837130890A136DBA887C37A8C0Fnat * pow2(209) <= pow(5, 145));
    assert(pow(5, 145) < 0xCD036837130890A136DBA887C37A8C10nat * pow2(209));
}

/// The entry for `10^146`.
proof fn lemma_floor_p146()
    ensures
        power_floor(146, 0x802221226BE55A64, 0xC2494954DA2C9789),
{
    reveal(power_floor);
    lemma_pow5_146();
    lemma_pow2_chunk_3();
    lemma2_to64();
    lemma2_to64_rest();
    lemma_pow2_adds(192, 20);
    assert(power_of_10_exponent(146) == 422);
    assert(pow2(212) == 0x100000000000000000000000000000000000000000000000000000nat);
    assert(0x802221226BE55A64C2494954DA2C9789nat * pow2(212) <= pow(5, 146));
    assert(pow(5, 146) < 0x802221226BE55A64C2494954DA2C978Anat * pow2(212));
}

/// The entry for `10^147`.
proof fn lemma_floor_p147()
    ensures
        power_floor(147, 0xA02AA96B06DEB0FD, 0xF2DB9BAA10B7BD6C),
{
    reveal(power_floor);
    lemma_pow5_147();
    lemma_pow2_chunk_3();
    lemma2_to64();
    lemma2_to64_rest();
    lemma_pow2_adds(192, 22);
    assert(power_of_10_exponent(147) == 425);
    assert(pow2(214) == 0x400000000000000000000000000000000000000000000000000000nat);
    assert(0xA02AA96B06DEB0FDF2DB9BAA10B7BD6Cnat * pow2(214) <= pow(5, 147));
    assert(pow(5, 147) < 0xA02AA96B06DEB0FDF2DB9BAA10B7BD6Dnat * pow2(214));
}

/// The entry for `10^148`.
proof fn lemma_floor_p148()
    ensures
        power_floor(148, 0xC83553C5C8965D3D, 0x6F92829494E5ACC7),
{
    reveal(power_floor);
    lemma_pow5_148();
    lemma_pow2_chunk_3();
    lemma2_to64();
    lemma2_to64_rest();
    lemma_pow2_adds(192, 24);
    assert(power_of_10_exponent(148) == 428);
    assert(pow2(216) == 0x1000000000000000000000000000000000000000000000000000000nat);
    assert(0xC83553C5C8965D3D6F92829494E5ACC7nat * pow2(216) <= pow(5, 148));
    assert(pow(5, 148) < 0xC83553C5C8965D3D6F92829494E5ACC8nat * pow2(216));
}

/// The entry for `10^149`.
proof fn lemma_floor_p149()
    ensures
        power_floor(149, 0xFA42A8B73ABBF48C, 0xCB772339BA1F17F9),
{
    reveal(power_floor);
    lemma_pow5_149();
    lemma_pow2_chunk_3();
    lemma2_to64();
    lemma2_to64_rest();
    lemma_pow2_adds(192, 26);
    assert(power_of_10_exponent(149) == 431);
    assert(pow2(218) == 0x4000000000000000000000000000000000000000000000000000000nat);
    assert(0xFA42A8B73ABBF48CCB772339BA1F17F9nat * pow2(218) <= pow(5, 149));
    assert(pow(5, 149) < 0xFA42A8B73ABBF48CCB772339BA1F17FAnat * pow2(218));
}

/// The entry for `10^150`.
proof fn lemma_floor_p150()
    ensures
        power_floor(150, 0x9C69A97284B578D7, 0xFF2A760414536EFB),
{
    reveal(power_floor);
    lemma_pow5_150();
    lemma_pow2_chunk_3();
    lemma2_to64();
    lemma2_to64_rest();
    lemma_pow2_adds(192, 29);
    assert(power_of_10_exponent(150) == 435);
    assert(pow2(221) == 0x20000000000000000000000000000000000000000000000000000000nat);
    assert(0x9C69A97284B578D7FF2A760414536EFBnat * pow2(221) <= pow(5, 150));
    assert(pow(5, 150) < 0x9C69A97284B578D7FF2A760414536EFCnat * pow2(221));
}

/// The entry for `10^151`.
proof fn lemma_floor_p151()
    ensures
        power_floor(151, 0xC38413CF25E2D70D, 0xFEF5138519684ABA),
{
    reveal(power_floor);
    lemma_pow5_151();
    lemma_pow2_chunk_3();
    lemma2_to64();
    lemma2_to64_rest();
    lemma_pow2_adds(192, 31);
    assert(power_of_10_exponent(151) == 438);
    assert(pow2(223) == 0x80000000000000000000000000000000000000000000000000000000nat);
    assert(0xC38413CF25E2D70DFEF5138519684ABAnat * pow2(223) <= pow(5, 151));
    assert(pow(5, 151) < 0xC38413CF25E2D70DFEF5138519684ABBnat * pow2(223));
}

/// The entry for `10^152`.
proof fn lemma_floor_p152()
    ensures
        power_floor(152, 0xF46518C2EF5B8CD1, 0x7EB258665FC25D69),
{
    reveal(power_floor);
    lemma_pow5_152();
    lemma_pow2_chunk_3();
    lemma2_to64();
    lemma2_to64_rest();
    lemma_pow2_adds(192, 33);
    assert(power_of_10_exponent(152) == 441);
    assert(pow2(225) == 0x200000000000000000000000000000000000000000000000000000000nat);
    assert(0xF46518C2EF5B8CD17EB258665FC25D69nat * pow2(225) <= pow(5, 152));
    assert(pow(5, 152) < 0xF46518C2EF5B8CD17EB258665FC25D6Anat * pow2(225));
}

/// The entry for `10^153`.
proof fn lemma_floor_p153()
    ensures
        power_floor(153, 0x98BF2F79D5993802, 0xEF2F773FFBD97A61),
{
    reveal(power_floor);
    lemma_pow5_153();
    lemma_pow2_chunk_3();
    lemma2_to64();
    lemma2_to64_rest();
    lemma_pow2_adds(192, 36);
    assert(power_of_10_exponent(153) == 445);
    assert(pow2(228) == 0x1000000000000000000000000000000000000000000000000000000000nat);
    assert(0x98BF2F79D5993802EF2F773FFBD97A61nat * pow2(228) <= pow(5, 153));
    assert(pow(5, 153) < 0x98BF2F79D5993802EF2F773FFBD97A62nat * pow2(228));
}

/// The entry for `10^154`.
proof fn lemma_floor_p154()
    ensures
        power_floor(154, 0xBEEEFB584AFF8603, 0xAAFB550FFACFD8FA),
{
    reveal(power_floor);
    lemma_pow5_154();
    lemma_pow2_chunk_3();
    lemma2_to64();
    lemma2_to64_rest();
    lemma_pow2_adds(192, 38);
    assert(power_of_10_exponent(154) == 448);
    assert(pow2(230) == 0x4000000000000000000000000000000000000000000000000000000000nat);
    assert(0xBEEEFB584AFF8603AAFB550FFACFD8FAnat * pow2(230) <= pow(5, 154));
    assert(pow(5, 154) < 0xBEEEFB584AFF8603AAFB550FFACFD8FBnat * pow2(230));
}

/// The entry for `10^155`.
proof fn lemma_floor_p155()
    ensures
        power_floor(155, 0xEEAABA2E5DBF6784, 0x95BA2A53F983CF38),
{
    reveal(power_floor);
    lemma_pow5_155();
    lemma_pow2_chunk_3();
    lemma2_to64();
    lemma2_to64_rest();
    lemma_pow2_adds(192, 40);
    assert(power_of_10_exponent(155) == 451);
    assert(pow2(232) == 0x10000000000000000000000000000000000000000000000000000000000nat);
    assert(0xEEAABA2E5DBF678495BA2A53F983CF38nat * pow2(232) <= pow(5, 155));
    assert(pow(5, 155) < 0xEEAABA2E5DBF678495BA2A53F983CF39nat * pow2(232));
}

/// The entry for `10^156`.
proof fn lemma_floor_p156()
    ensures
        power_floor(156, 0x952AB45CFA97A0B2, 0xDD945A747BF26183),
{
    reveal(power_floor);
    lemma_pow5_156();
    lemma_pow2_chunk_3();
    lemma2_to64();
    lemma2_to64_rest();
    lemma_pow2_adds(192, 43);
    assert(power_of_10_exponent(156) == 455);
    assert(pow2(235) == 0x80000000000000000000000000000000000000000000000000000000000nat);
    assert(0x952AB45CFA97A0B2DD945A747BF26183nat * pow2(235) <= pow(5, 156));
    assert(pow(5, 156) < 0x952AB45CFA97A0B2DD945A747BF26184nat * pow2(235));
}

/// The entry for `10^157`.
proof fn lemma_floor_p157()
    ensures
        power_floor(157, 0xBA756174393D88DF, 0x94F971119AEEF9E4),
{
    reveal(power_floor);
    lemma_pow5_157();
    lemma_pow2_chunk_3();
    lemma2_to64();
    lemma2_to64_rest();
    lemma_pow2_adds(192, 45);
    assert(power_of_10_exponent(157) == 458);
    assert(pow2(237) == 0x200000000000000000000000000000000000000000000000000000000000nat);
    assert(0xBA756174393D88DF94F971119AEEF9E4nat * pow2(237) <= pow(5, 157));
    assert(pow(5, 157) < 0xBA756174393D88DF94F971119AEEF9E5nat * pow2(237));
}

/// The entry for `10^158`.
proof fn lemma_floor_p158()
    ensures
        power_floor(158, 0xE912B9D1478CEB17, 0x7A37CD5601AAB85D),
{
    reveal(power_floor);
    lemma_pow5_158();
    lemma_pow2_chunk_3();
    lemma2_to64();
    lemma2_to64_rest();
    lemma_pow2_adds(192, 47);
    assert(power_of_10_exponent(158) == 461);
    assert(pow2(239) == 0x800000000000000000000000000000000000000000000000000000000000nat);
    assert(0xE912B9D1478CEB177A37CD5601AAB85Dnat * pow2(239) <= pow(5, 158));
    assert(pow(5, 158) < 0xE912B9D1478CEB177A37CD5601AAB85Enat * pow2(239));
}

/// The entry for `10^159`.
proof fn lemma_floor_p159()
    ensures
        power_floor(159, 0x91ABB422CCB812EE, 0xAC62E055C10AB33A),
{
    reveal(power_floor);
    lemma_pow5_159();
    lemma_pow2_chunk_3();
    lemma2_to64();
    lemma2_to64_rest();
    lemma_pow2_adds(192, 50);
    assert(power_of_10_exponent(159) == 465);
    assert(pow2(242) == 0x4000000000000000000000000000000000000000000000000000000000000nat);
    assert(0x91ABB422CCB812EEAC62E055C10AB33Anat * pow2(242) <= pow(5, 159));
    assert(pow(5, 159) < 0x91ABB422CCB812EEAC62E055C10AB33Bnat * pow2(242));
}

/// The entry for `10^160`.
proof fn lemma_floor_p160()
    ensures
        power_floor(160, 0xB616A12B7FE617AA, 0x577B986B314D6009),
{
    reveal(power_floor);
    lemma_pow5_160();
    lemma_pow2_chunk_3();
    lemma2_to64();
    lemma2_to64_rest();
    lemma_pow2_adds(192, 52);
    assert(power_of_10_exponent(160) == 468);
    assert(pow2(244) == 0x10000000000000000000000000000000000000000000000000000000000000nat);
    assert(0xB616A12B7FE617AA577B986B314D6009nat * pow2(244) <= pow(5, 160));
    assert(pow(5, 160) < 0xB616A12B7FE617AA577B986B314D600Anat * pow2(244));
}

/// The entry for `10^161`.
proof fn lemma_floor_p161()
    ensures
        power_floor(161, 0xE39C49765FDF9D94, 0xED5A7E85FDA0B80B),
{
    reveal(power_floor);
    lemma_pow5_161();
    lemma_pow2_chunk_3();
    lemma2_to64();
    lemma2_to64_rest();
    lemma_pow2_adds(192, 54);
    assert(power_of_10_exponent(161) == 471);
    assert(pow2(246) == 0x40000000000000000000000000000000000000000000000000000000000000nat);
    assert(0xE39C49765FDF9D94ED5A7E85FDA0B80Bnat * pow2(246) <= pow(5, 161));
    assert(pow(5, 161) < 0xE39C49765FDF9D94ED5A7E85FDA0B80Cnat * pow2(246));
}

/// The entry for `10^162`.
proof fn lemma_floor_p162()
    ensures
        power_floor(162, 0x8E41ADE9FBEBC27D, 0x14588F13BE847307),
{
    reveal(power_floor);
    lemma_pow5_162();
    lemma_pow2_chunk_3();
    lemma2_to64();
    lemma2_to64_rest();
    lemma_pow2_adds(192, 57);
    assert(power_of_10_exponent(162) == 475);
    assert(pow2(249) == 0x200000000000000000000000000000000000000000000000000000000000000nat);
    assert(0x8E41ADE9FBEBC27D14588F13BE847307nat * pow2(249) <= pow(5, 162));
    assert(pow(5, 162) < 0x8E41ADE9FBEBC27D14588F13BE847308nat * pow2(249));
}

/// The entry for `10^163`.
proof fn lemma_floor_p163()
    ensures
        power_floor(163, 0xB1D219647AE6B31C, 0x596EB2D8AE258FC8),
{
    reveal(power_floor);
    lemma_pow5_163();
    lemma_pow2_chunk_3();
    lemma2_to64();
    lemma2_to64_rest();
    lemma_pow2_adds(192, 59);
    assert(power_of_10_exponent(163) == 478);
    assert(pow2(251) == 0x800000000000000000000000000000000000000000000000000000000000000nat);
    assert(0xB1D219647AE6B31C596EB2D8AE258FC8nat * pow2(251) <= pow(5, 163));
    assert(pow(5, 163) < 0xB1D219647AE6B31C596EB2D8AE258FC9nat * pow2(251));
}

/// The entry for `10^164`.
proof fn lemma_floor_p164()
    ensures
        power_floor(164, 0xDE469FBD99A05FE3, 0x6FCA5F8ED9AEF3BB),
{
    reveal(power_floor);
    lemma_pow5_164();
    lemma_pow2_chunk_3();
    lemma2_to64();
    lemma2_to64_rest();
    lemma_pow2_adds(192, 61);
    assert(power_of_10_exponent(164) == 481);
    assert(pow2(253) == 0x2000000000000000000000000000000000000000000000000000000000000000nat);
    assert(0xDE469FBD99A05FE36FCA5F8ED9AEF3BBnat * pow2(253) <= pow(5, 164));
    assert(pow(5, 164) < 0xDE469FBD99A05FE36FCA5F8ED9AEF3BCnat * pow2(253));
}

/// The entry for `10^165`.
proof fn lemma_floor_p165()
    ensures
        power_floor(165, 0x8AEC23D680043BEE, 0x25DE7BB9480D5854),
{
    reveal(power_floor);
    lemma_pow5_165();
    lemma_pow2_chunk_4();
    lemma2_to64();
    lemma2_to64_rest();
    lemma_pow2_adds(256, 0);
    assert(power_of_10_exponent(165) == 485);
    assert(pow2(256) == 0x10000000000000000000000000000000000000000000000000000000000000000nat);
    assert(0x8AEC23D680043BEE25DE7BB9480D5854nat * pow2(256) <= pow(5, 165));
    assert(pow(5, 165) < 0x8AEC23D680043BEE25DE7BB9480D5855nat * pow2(256));
}

/// The entry for `10^166`.
proof fn lemma_floor_p166()
    ensures
        power_floor(166, 0xADA72CCC20054AE9, 0xAF561AA79A10AE6A),
{
    reveal(power_floor);
    lemma_pow5_166();
    lemma_pow2_chunk_4();
    lemma2_to64();
    lemma2_to64_rest();
    lemma_pow2_adds(256, 2);
    assert(power_of_10_exponent(166) == 488);
    assert(pow2(258) == 0x40000000000000000000000000000000000000000000000000000000000000000nat);
    assert(0xADA72CCC20054AE9AF561AA79A10AE6Anat * pow2(258) <= pow(5, 166));
    assert(pow(5, 166) < 0xADA72CCC20054AE9AF561AA79A10AE6Bnat * pow2(258));
}

/// The entry for `10^167`.
proof fn lemma_floor_p167()
    ensures
        power_floor(167, 0xD910F7FF28069DA4, 0x1B2BA1518094DA04),
{
    reveal(power_floor);
    lemma_pow5_167();
    lemma_pow2_chunk_4();
    lemma2_to64();
    lemma2_to64_rest();
    lemma_pow2_adds(256, 4);
    assert(power_of_10_exponent(167) == 491);
    assert(pow2(260) == 0x100000000000000000000000000000000000000000000000000000000000000000nat);
    assert(0xD910F7FF28069DA41B2BA1518094DA04nat * pow2(260) <= pow(5, 167));
    assert(pow(5, 167) < 0xD910F7FF28069DA41B2BA1518094DA05nat * pow2(260));
}

/// The entry for `10^168`.
proof fn lemma_floor_p168()
    ensures
        power_floor(168, 0x87AA9AFF79042286, 0x90FB44D2F05D0842),
{
    reveal(power_floor);
    lemma_pow5_168();
    lemma_pow2_chunk_4();
    lemma2_to64();
    lemma2_to64_rest();
    lemma_pow2_adds(256, 7);
    assert(power_of_10_exponent(168) == 495);
    assert(pow2(263) == 0x800000000000000000000000000000000000000000000000000000000000000000nat);
    assert(0x87AA9AFF7904228690FB44D2F05D0842nat * pow2(263) <= pow(5, 168));
    assert(pow(5, 168) < 0x87AA9AFF7904228690FB44D2F05D0843nat * pow2(263));
}

/// The entry for `10^169`.
proof fn lemma_floor_p169()
    ensures
        power_floor(169, 0xA99541BF57452B28, 0x353A1607AC744A53),
{
    reveal(power_floor);
    lemma_pow5_169();
    lemma_pow2_chunk_4();
    lemma2_to64();
    lemma2_to64_rest();
    lemma_pow2_adds(256, 9);
    assert(power_of_10_exponent(169) == 498);
    assert(pow2(265) == 0x2000000000000000000000000000000000000000000000000000000000000000000nat);
    assert(0xA99541BF57452B28353A1607AC744A53nat * pow2(265) <= pow(5, 169));
    assert(pow(5, 169) < 0xA99541BF57452B28353A1607AC744A54nat * pow2(265));
}

/// The entry for `10^170`.
proof fn lemma_floor_p170()
    ensures
        power_floor(170, 0xD3FA922F2D1675F2, 0x42889B8997915CE8),
{
    reveal(power_floor);
    lemma_pow5_170();
    lemma_pow2_chunk_4();
    lemma2_to64();
    lemma2_to64_rest();
    lemma_pow2_adds(256, 11);
    assert(power_of_10_exponent(170) == 501);
    assert(pow2(267) == 0x8000000000000000000000000000000000000000000000000000000000000000000nat);
    assert(0xD3FA922F2D1675F242889B8997915CE8nat * pow2(267) <= pow(5, 170));
    assert(pow(5, 170) < 0xD3FA922F2D1675F242889B8997915CE9nat * pow2(267));
}

/// The entry for `10^171`.
proof fn lemma_floor_p171()
    ensures
        power_floor(171, 0x847C9B5D7C2E09B7, 0x69956135FEBADA11),
{
    reveal(power_floor);
    lemma_pow5_171();
    lemma_pow2_chunk_4();
    lemma2_to64();
    lemma2_to64_rest();
    lemma_pow2_adds(256, 14);
    assert(power_of_10_exponent(171) == 505);
    assert(pow2(270) == 0x40000000000000000000000000000000000000000000000000000000000000000000nat);
    assert(0x847C9B5D7C2E09B769956135FEBADA11nat * pow2(270) <= pow(5, 171));
    assert(pow(5, 171) < 0x847C9B5D7C2E09B769956135FEBADA12nat * pow2(270));
}

/// The entry for `10^172`.
proof fn lemma_floor_p172()
    ensures
        power_floor(172, 0xA59BC234DB398C25, 0x43FAB9837E699095),
{
    reveal(power_floor);
    lemma_pow5_172();
    lemma_pow2_chunk_4();
    lemma2_to64();
    lemma2_to64_rest();
    lemma_pow2_adds(256, 16);
    assert(power_of_10_exponent(172) == 508);
    assert(pow2(272) == 0x100000000000000000000000000000000000000000000000000000000000000000000nat);
    assert(0xA59BC234DB398C2543FAB9837E699095nat * pow2(272) <= pow(5, 172));
    assert(pow(5, 172) < 0xA59BC234DB398C2543FAB9837E699096nat * pow2(272));
}

/// The entry for `10^173`.
proof fn lemma_floor_p173()
    ensures
        power_floor(173, 0xCF02B2C21207EF2E, 0x94F967E45E03F4BB),
{
    reveal(power_floor);
    lemma_pow5_173();
    lemma_pow2_chunk_4();
    lemma2_to64();
    lemma2_to64_rest();
    lemma_pow2_adds(256, 18);
    assert(power_of_10_exponent(173) == 511);
    assert(pow2(274) == 0x400000000000000000000000000000000000000000000000000000000000000000000nat);
    assert(0xCF02B2C21207EF2E94F967E45E03F4BBnat * pow2(274) <= pow(5, 173));
    assert(pow(5, 173) < 0xCF02B2C21207EF2E94F967E45E03F4BCnat * pow2(274));
}

/// The entry for `10^174`.
proof fn lemma_floor_p174()
    ensures
        power_floor(174, 0x8161AFB94B44F57D, 0x1D1BE0EEBAC278F5),
{
    reveal(power_floor);
    lemma_pow5_174();
    lemma_pow2_chunk_4();
    lemma2_to64();
    lemma2_to64_rest();
    lemma_pow2_adds(256, 21);
    assert(power_of_10_exponent(174) == 515);
    assert(pow2(277) == 0x2000000000000000000000000000000000000000000000000000000000000000000000nat);
    assert(0x8161AFB94B44F57D1D1BE0EEBAC278F5nat * pow2(277) <= pow(5, 174));
    assert(pow(5, 174) < 0x8161AFB94B44F57D1D1BE0EEBAC278F6nat * pow2(277));
}

/// The entry for `10^175`.
proof fn lemma_floor_p175()
    ensures
        power_floor(175, 0xA1BA1BA79E1632DC, 0x6462D92A69731732),
{
    reveal(power_floor);
    lemma_pow5_175();
    lemma_pow2_chunk_4();
    lemma2_to64();
    lemma2_to64_rest();
    lemma_pow2_adds(256, 23);
    assert(power_of_10_exponent(175) == 518);
    assert(pow2(279) == 0x8000000000000000000000000000000000000000000000000000000000000000000000nat);
    assert(0xA1BA1BA79E1632DC6462D92A69731732nat * pow2(279) <= pow(5, 175));
    assert(pow(5, 175) < 0xA1BA1BA79E1632DC6462D92A69731733nat * pow2(279));
}

/// The entry for `10^176`.
proof fn lemma_floor_p176()
    ensures
        power_floor(176, 0xCA28A291859BBF93, 0x7D7B8F7503CFDCFE),
{
    reveal(power_floor);
    lemma_pow5_176();
    lemma_pow2_chunk_4();
    lemma2_to64();
    lemma2_to64_rest();
    lemma_pow2_adds(256, 25);
    assert(power_of_10_exponent(176) == 521);
    assert(pow2(281) == 0x20000000000000000000000000000000000000000000000000000000000000000000000nat);
    assert(0xCA28A291859BBF937D7B8F7503CFDCFEnat * pow2(281) <= pow(5, 176));
    assert(pow(5, 176) < 0xCA28A291859BBF937D7B8F7503CFDCFFnat * pow2(281));
}

/// The entry for `10^177`.
proof fn lemma_floor_p177()
    ensures
        power_floor(177, 0xFCB2CB35E702AF78, 0x5CDA735244C3D43E),
{
    reveal(power_floor);
    lemma_pow5_177();
    lemma_pow2_chunk_4();
    lemma2_to64();
    lemma2_to64_rest();
    lemma_pow2_adds(256, 27);
    assert(power_of_10_exponent(177) == 524);
    assert(pow2(283) == 0x80000000000000000000000000000000000000000000000000000000000000000000000nat);
    assert(0xFCB2CB35E702AF785CDA735244C3D43Enat * pow2(283) <= pow(5, 177));
    assert(pow(5, 177) < 0xFCB2CB35E702AF785CDA735244C3D43Fnat * pow2(283));
}

/// The entry for `10^178`.
proof fn lemma_floor_p178()
    ensures
        power_floor(178, 0x9DEFBF01B061ADAB, 0x3A0888136AFA64A7),
{
    reveal(power_floor);
    lemma_pow5_178();
    lemma_pow2_chunk_4();
    lemma2_to64();
    lemma2_to64_rest();
    lemma_pow2_adds(256, 30);
    assert(power_of_10_exponent(178) == 528);
    assert(pow2(286) == 0x400000000000000000000000000000000000000000000000000000000000000000000000nat);
    assert(0x9DEFBF01B061ADAB3A0888136AFA64A7nat * pow2(286) <= pow(5, 178));
    assert(pow(5, 178) < 0x9DEFBF01B061ADAB3A0888136AFA64A8nat * pow2(286));
}

/// The entry for `10^179`.
proof fn lemma_floor_p179()
    ensures
        power_floor(179, 0xC56BAEC21C7A1916, 0x088AAA1845B8FDD0),
{
    reveal(power_floor);
    lemma_pow5_179();
    lemma_pow2_chunk_4();
    lemma2_to64();
    lemma2_to64_rest();
    lemma_pow2_adds(256, 32);
    assert(power_of_10_exponent(179) == 531);
    assert(pow2(288) == 0x1000000000000000000000000000000000000000000000000000000000000000000000000nat);
    assert(0xC56BAEC21C7A1916088AAA1845B8FDD0nat * pow2(288) <= pow(5, 179));
    assert(pow(5, 179) < 0xC56BAEC21C7A1916088AAA1845B8FDD1nat * pow2(288));
}

/// The entry for `10^180`.
proof fn lemma_floor_p180()
    ensures
        power_floor(180, 0xF6C69A72A3989F5B, 0x8AAD549E57273D45),
{
    reveal(power_floor);
    lemma_pow5_180();
    lemma_pow2_chunk_4();
    lemma2_to64();
    lemma2_to64_rest();
    lemma_pow2_adds(256, 34);
    assert(power_of_10_exponent(180) == 534);
    assert(pow2(290) == 0x4000000000000000000000000000000000000000000000000000000000000000000000000nat);
    assert(0xF6C69A72A3989F5B8AAD549E57273D45nat * pow2(290) <= pow(5, 180));
    assert(pow(5, 180) < 0xF6C69A72A3989F5B8AAD549E57273D46nat * pow2(290));
}

/// The entry for `10^181`.
proof fn lemma_floor_p181()
    ensures
        power_floor(181, 0x9A3C2087A63F6399, 0x36AC54E2F678864B),
{
    reveal(power_floor);
    lemma_pow5_181();
    lemma_pow2_chunk_4();
    lemma2_to64();
    lemma2_to64_rest();
    lemma_pow2_adds(256, 37);
    assert(power_of_10_exponent(181) == 538);
    assert(pow2(293) == 0x20000000000000000000000000000000000000000000000000000000000000000000000000nat);
    assert(0x9A3C2087A63F639936AC54E2F678864Bnat * pow2(293) <= pow(5, 181));
    assert(pow(5, 181) < 0x9A3C2087A63F639936AC54E2F678864Cnat * pow2(293));
}

/// The entry for `10^182`.
proof fn lemma_floor_p182()
    ensures
        power_floor(182, 0xC0CB28A98FCF3C7F, 0x84576A1BB416A7DD),
{
    reveal(power_floor);
    lemma_pow5_182();
    lemma_pow2_chunk_4();
    lemma2_to64();
    lemma2_to64_rest();
    lemma_pow2_adds(256, 39);
    assert(power_of_10_exponent(182) == 541);
    assert(pow2(295) == 0x80000000000000000000000000000000000000000000000000000000000000000000000000nat);
    assert(0xC0CB28A98FCF3C7F84576A1BB416A7DDnat * pow2(295) <= pow(5, 182));
    assert(pow(5, 182) < 0xC0CB28A98FCF3C7F84576A1BB416A7DEnat * pow2(295));
}

/// The entry for `10^183`.
proof fn lemma_floor_p183()
    ensures
        power_floor(183, 0xF0FDF2D3F3C30B9F, 0x656D44A2A11C51D5),
{
    reveal(power_floor);
    lemma_pow5_183();
    lemma_pow2_chunk_4();
    lemma2_to64();
    lemma2_to64_rest();
    lemma_pow2_adds(256, 41);
    assert(power_of_10_exponent(183) == 544);
    assert(pow2(297) == 0x200000000000000000000000000000000000000000000000000000000000000000000000000nat);
    assert(0xF0FDF2D3F3C30B9F656D44A2A11C51D5nat * pow2(297) <= pow(5, 183));
    assert(pow(5, 183) < 0xF0FDF2D3F3C30B9F656D44A2A11C51D6nat * pow2(297));
}

/// The entry for `10^184`.
proof fn lemma_floor_p184()
    ensures
        power_floor(184, 0x969EB7C47859E743, 0x9F644AE5A4B1B325),
{
    reveal(power_floor);
    lemma_pow5_184();
    lemma_pow2_chunk_4();
    lemma2_to64();
    lemma2_to64_rest();
    lemma_pow2_adds(256, 44);
    assert(power_of_10_exponent(184) == 548);
    assert(pow2(300) == 0x1000000000000000000000000000000000000000000000000000000000000000000000000000nat);
    assert(0x969EB7C47859E7439F644AE5A4B1B325nat * pow2(300) <= pow(5, 184));
    assert(pow(5, 184) < 0x969EB7C47859E7439F644AE5A4B1B326nat * pow2(300));
}

/// The entry for `10^185`.
proof fn lemma_floor_p185()
    ensures
        power_floor(185, 0xBC4665B596706114, 0x873D5D9F0DDE1FEE),
{
    reveal(power_floor);
    lemma_pow5_185();
    lemma_pow2_chunk_4();
    lemma2_to64();
    lemma2_to64_rest();
    lemma_pow2_adds(256, 46);
    assert(power_of_10_exponent(185) == 551);
    assert(pow2(302) == 0x4000000000000000000000000000000000000000000000000000000000000000000000000000nat);
    assert(0xBC4665B596706114873D5D9F0DDE1FEEnat * pow2(302) <= pow(5, 185));
    assert(pow(5, 185) < 0xBC4665B596706114873D5D9F0DDE1FEFnat * pow2(302));
}

/// The entry for `10^186`.
proof fn lemma_floor_p186()
    ensures
        power_floor(186, 0xEB57FF22FC0C7959, 0xA90CB506D155A7EA),
{
    reveal(power_floor);
    lemma_pow5_186();
    lemma_pow2_chunk_4();
    lemma2_to64();
    lemma2_to64_rest();
    lemma_pow2_adds(256, 48);
    assert(power_of_10_exponent(186) == 554);
    assert(pow2(304) == 0x10000000000000000000000000000000000000000000000000000000000000000000000000000nat);
    assert(0xEB57FF22FC0C7959A90CB506D155A7EAnat * pow2(304) <= pow(5, 186));
    assert(pow(5, 186) < 0xEB57FF22FC0C7959A90CB506D155A7EBnat * pow2(304));
}

/// The entry for `10^187`.
proof fn lemma_floor_p187()
    ensures
        power_floor(187, 0x9316FF75DD87CBD8, 0x09A7F12442D588F2),
{
    reveal(power_floor);
    lemma_pow5_187();
    lemma_pow2_chunk_4();
    lemma2_to64();
    lemma2_to64_rest();
    lemma_pow2_adds(256, 51);
    assert(power_of_10_exponent(187) == 558);
    assert(pow2(307) == 0x80000000000000000000000000000000000000000000000000000000000000000000000000000nat);
    assert(0x9316FF75DD87CBD809A7F12442D588F2nat * pow2(307) <= pow(5, 187));
    assert(pow(5, 187) < 0x9316FF75DD87CBD809A7F12442D588F3nat * pow2(307));
}

/// The entry for `10^188`.
proof fn lemma_floor_p188()
    ensures
        power_floor(188, 0xB7DCBF5354E9BECE, 0x0C11ED6D538AEB2F),
{
    reveal(power_floor);
    lemma_pow5_188();
    lemma_pow2_chunk_4();
    lemma2_to64();
    lemma2_to64_rest();
    lemma_pow2_adds(256, 53);
    assert(power_of_10_exponent(188) == 561);
    assert(pow2(309) == 0x200000000000000000000000000000000000000000000000000000000000000000000000000000nat);
    assert(0xB7DCBF5354E9BECE0C11ED6D538AEB2Fnat * pow2(309) <= pow(5, 188));
    assert(pow(5, 188) < 0xB7DCBF5354E9BECE0C11ED6D538AEB30nat * pow2(309));
}

/// The entry for `10^189`.
proof fn lemma_floor_p189()
    ensures
        power_floor(189, 0xE5D3EF282A242E81, 0x8F1668C8A86DA5FA),
{
    reveal(power_floor);
    lemma_pow5_189();
    lemma_pow2_chunk_4();
    lemma2_to64();
    lemma2_to64_rest();
    lemma_pow2_adds(256, 55);
    assert(power_of_10_exponent(189) == 564);
    assert(pow2(311) == 0x800000000000000000000000000000000000000000000000000000000000000000000000000000nat);
    assert(0xE5D3EF282A242E818F1668C8A86DA5FAnat * pow2(311) <= pow(5, 189));
    assert(pow(5, 189) < 0xE5D3EF282A242E818F1668C8A86DA5FBnat * pow2(311));
}

/// The entry for `10^190`.
proof fn lemma_floor_p190()
    ensures
        power_floor(190, 0x8FA475791A569D10, 0xF96E017D694487BC),
{
    reveal(power_floor);
    lemma_pow5_190();
    lemma_pow2_chunk_4();
    lemma2_to64();
    lemma2_to64_rest();
    lemma_pow2_adds(256, 58);
    assert(power_of_10_exponent(190) == 568);
    assert(pow2(314) == 0x4000000000000000000000000000000000000000000000000000000000000000000000000000000nat);
    assert(0x8FA475791A569D10F96E017D694487BCnat * pow2(314) <= pow(5, 190));
    assert(pow(5, 190) < 0x8FA475791A569D10F96E017D694487BDnat * pow2(314));
}

/// The entry for `10^191`.
proof fn lemma_floor_p191()
    ensures
        power_floor(191, 0xB38D92D760EC4455, 0x37C981DCC395A9AC),
{
    reveal(power_floor);
    lemma_pow5_191();
    lemma_pow2_chunk_4();
    lemma2_to64();
    lemma2_to64_rest();
    lemma_pow2_adds(256, 60);
    assert(power_of_10_exponent(191) == 571);
    assert(pow2(316) == 0x10000000000000000000000000000000000000000000000000000000000000000000000000000000nat);
    assert(0xB38D92D760EC445537C981DCC395A9ACnat * pow2(316) <= pow(5, 191));
    assert(pow(5, 191) < 0xB38D92D760EC445537C981DCC395A9ADnat * pow2(316));
}

/// The entry for `10^192`.
proof fn lemma_floor_p192()
    ensures
        power_floor(192, 0xE070F78D3927556A, 0x85BBE253F47B1417),
{
    reveal(power_floor);
    lemma_pow5_192();
    lemma_pow2_chunk_4();
    lemma2_to64();
    lemma2_to64_rest();
    lemma_pow2_adds(256, 62);
    assert(power_of_10_exponent(192) == 574);
    assert(pow2(318) == 0x40000000000000000000000000000000000000000000000000000000000000000000000000000000nat);
    assert(0xE070F78D3927556A85BBE253F47B1417nat * pow2(318) <= pow(5, 192));
    assert(pow(5, 192) < 0xE070F78D3927556A85BBE253F47B1418nat * pow2(318));
}

/// The entry for `10^193`.
proof fn lemma_floor_p193()
    ensures
        power_floor(193, 0x8C469AB843B89562, 0x93956D7478CCEC8E),
{
    reveal(power_floor);
    lemma_pow5_193();
    lemma_pow2_chunk_5();
    lemma2_to64();
    lemma2_to64_rest();
    lemma_pow2_adds(320, 1);
    assert(power_of_10_exponent(193) == 578);
    assert(pow2(321) == 0x200000000000000000000000000000000000000000000000000000000000000000000000000000000nat);
    assert(0x8C469AB843B8956293956D7478CCEC8Enat * pow2(321) <= pow(5, 193));
    assert(pow(5, 193) < 0x8C469AB843B8956293956D7478CCEC8Fnat * pow2(321));
}

/// The entry for `10^194`.
proof fn lemma_floor_p194()
    ensures
        power_floor(194, 0xAF58416654A6BABB, 0x387AC8D1970027B2),
{
    reveal(power_floor);
    lemma_pow5_194();
    lemma_pow2_chunk_5();
    lemma2_to64();
    lemma2_to64_rest();
    lemma_pow2_adds(320, 3);
    assert(power_of_10_exponent(194) == 581);
    assert(pow2(323) == 0x800000000000000000000000000000000000000000000000000000000000000000000000000000000nat);
    assert(0xAF58416654A6BABB387AC8D1970027B2nat * pow2(323) <= pow(5, 194));
    assert(pow(5, 194) < 0xAF58416654A6BABB387AC8D1970027B3nat * pow2(323));
}

/// The entry for `10^195`.
proof fn lemma_floor_p195()
    ensures
        power_floor(195, 0xDB2E51BFE9D0696A, 0x06997B05FCC0319E),
{
    reveal(power_floor);
    lemma_pow5_195();
    lemma_pow2_chunk_5();
    lemma2_to64();
    lemma2_to64_rest();
    lemma_pow2_adds(320, 5);
    assert(power_of_10_exponent(195) == 584);
    assert(pow2(325) == 0x2000000000000000000000000000000000000000000000000000000000000000000000000000000000nat);
    assert(0xDB2E51BFE9D0696A06997B05FCC0319Enat * pow2(325) <= pow(5, 195));
    assert(pow(5, 195) < 0xDB2E51BFE9D0696A06997B05FCC0319Fnat * pow2(325));
}

/// The entry for `10^196`.
proof fn lemma_floor_p196()
    ensures
        power_floor(196, 0x88FCF317F22241E2, 0x441FECE3BDF81F03),
{
    reveal(power_floor);
    lemma_pow5_196();
    lemma_pow2_chunk_5();
    lemma2_to64();
    lemma2_to64_rest();
    lemma_pow2_adds(320, 8);
    assert(power_of_10_exponent(196) == 588);
    assert(pow2(328) == 0x10000000000000000000000000000000000000000000000000000000000000000000000000000000000nat);
    assert(0x88FCF317F22241E2441FECE3BDF81F03nat * pow2(328) <= pow(5, 196));
    assert(pow(5, 196) < 0x88FCF317F22241E2441FECE3BDF81F04nat * pow2(328));
}

/// The entry for `10^197`.
proof fn lemma_floor_p197()
    ensures
        power_floor(197, 0xAB3C2FDDEEAAD25A, 0xD527E81CAD7626C3),
{
    reveal(power_floor);
    lemma_pow5_197();
    lemma_pow2_chunk_5();
    lemma2_to64();
    lemma2_to64_rest();
    lemma_pow2_adds(320, 10);
    assert(power_of_10_exponent(197) == 591);
    assert(pow2(330) == 0x40000000000000000000000000000000000000000000000000000000000000000000000000000000000nat);
    assert(0xAB3C2FDDEEAAD25AD527E81CAD7626C3nat * pow2(330) <= pow(5, 197));
    assert(pow(5, 197) < 0xAB3C2FDDEEAAD25AD527E81CAD7626C4nat * pow2(330));
}

/// The entry for `10^198`.
proof fn lemma_floor_p198()
    ensures
        power_floor(198, 0xD60B3BD56A5586F1, 0x8A71E223D8D3B074),
{
    reveal(power_floor);
    lemma_pow5_198();
    lemma_pow2_chunk_5();
    lemma2_to64();
    lemma2_to64_rest();
    lemma_pow2_adds(320, 12);
    assert(power_of_10_exponent(198) == 594);
    assert(pow2(332) == 0x100000000000000000000000000000000000000000000000000000000000000000000000000000000000nat);
    assert(0xD60B3BD56A5586F18A71E223D8D3B074nat * pow2(332) <= pow(5, 198));
    assert(pow(5, 198) < 0xD60B3BD56A5586F18A71E223D8D3B075nat * pow2(332));
}

/// The entry for `10^199`.
proof fn lemma_floor_p199()
    ensures
        power_floor(199, 0x85C7056562757456, 0xF6872D5667844E49),
{
    reveal(power_floor);
    lemma_pow5_199();
    lemma_pow2_chunk_5();
    lemma2_to64();
    lemma2_to64_rest();
    lemma_pow2_adds(320, 15);
    assert(power_of_10_exponent(199) == 598);
    assert(pow2(335) == 0x800000000000000000000000000000000000000000000000000000000000000000000000000000000000nat);
    assert(0x85C7056562757456F6872D5667844E49nat * pow2(335) <= pow(5, 199));
    assert(pow(5, 199) < 0x85C7056562757456F6872D5667844E4Anat * pow2(335));
}

/// The entry for `10^200`.
proof fn lemma_floor_p200()
    ensures
        power_floor(200, 0xA738C6BEBB12D16C, 0xB428F8AC016561DB),
{
    reveal(power_floor);
    lemma_pow5_200();
    lemma_pow2_chunk_5();
    lemma2_to64();
    lemma2_to64_rest();
    lemma_pow2_adds(320, 17);
    assert(power_of_10_exponent(200) == 601);
    assert(pow2(337) == 0x2000000000000000000000000000000000000000000000000000000000000000000000000000000000000nat);
    assert(0xA738C6BEBB12D16CB428F8AC016561DBnat * pow2(337) <= pow(5, 200));
    assert(pow(5, 200) < 0xA738C6BEBB12D16CB428F8AC016561DCnat * pow2(337));
}

/// The entry for `10^201`.
proof fn lemma_floor_p201()
    ensures
        power_floor(201, 0xD106F86E69D785C7, 0xE13336D701BEBA52),
{
    reveal(power_floor);
    lemma_pow5_201();
    lemma_pow2_chunk_5();
    lemma2_to64();
    lemma2_to64_rest();
    lemma_pow2_adds(320, 19);
    assert(power_of_10_exponent(201) == 604);
    assert(pow2(339) == 0x8000000000000000000000000000000000000000000000000000000000000000000000000000000000000nat);
    assert(0xD106F86E69D785C7E13336D701BEBA52nat * pow2(339) <= pow(5, 201));
    assert(pow(5, 201) < 0xD106F86E69D785C7E13336D701BEBA53nat * pow2(339));
}

/// The entry for `10^202`.
proof fn lemma_floor_p202()
    ensures
        power_floor(202, 0x82A45B450226B39C, 0xECC0024661173473),
{
    reveal(power_floor);
    lemma_pow5_202();
    lemma_pow2_chunk_5();
    lemma2_to64();
    lemma2_to64_rest();
    lemma_pow2_adds(320, 22);
    assert(power_of_10_exponent(202) == 608);
    assert(pow2(342) == 0x40000000000000000000000000000000000000000000000000000000000000000000000000000000000000nat);
    assert(0x82A45B450226B39CECC0024661173473nat * pow2(342) <= pow(5, 202));
    assert(pow(5, 202) < 0x82A45B450226B39CECC0024661173474nat * pow2(342));
}

/// The entry for `10^203`.
proof fn lemma_floor_p203()
    ensures
        power_floor(203, 0xA34D721642B06084, 0x27F002D7F95D0190),
{
    reveal(power_floor);
    lemma_pow5_203();
    lemma_pow2_chunk_5();
    lemma2_to64();
    lemma2_to64_rest();
    lemma_pow2_adds(320, 24);
    assert(power_of_10_exponent(203) == 611);
    assert(pow2(344) == 0x100000000000000000000000000000000000000000000000000000000000000000000000000000000000000nat);
    assert(0xA34D721642B0608427F002D7F95D0190nat * pow2(344) <= pow(5, 203));
    assert(pow(5, 203) < 0xA34D721642B0608427F002D7F95D0191nat * pow2(344));
}

/// The entry for `10^204`.
proof fn lemma_floor_p204()
    ensures
        power_floor(204, 0xCC20CE9BD35C78A5, 0x31EC038DF7B441F4),
{
    reveal(power_floor);
    lemma_pow5_204();
    lemma_pow2_chunk_5();
    lemma2_to64();
    lemma2_to64_rest();
    lemma_pow2_adds(320, 26);
    assert(power_of_10_exponent(204) == 614);
    assert(pow2(346) == 0x400000000000000000000000000000000000000000000000000000000000000000000000000000000000000nat);
    assert(0xCC20CE9BD35C78A531EC038DF7B441F4nat * pow2(346) <= pow(5, 204));
    assert(pow(5, 204) < 0xCC20CE9BD35C78A531EC038DF7B441F5nat * pow2(346));
}

/// The entry for `10^205`.
proof fn lemma_floor_p205()
    ensures
        power_floor(205, 0xFF290242C83396CE, 0x7E67047175A15271),
{
    reveal(power_floor);
    lemma_pow5_205();
    lemma_pow2_chunk_5();
    lemma2_to64();
    lemma2_to64_rest();
    lemma_pow2_adds(320, 28);
    assert(power_of_10_exponent(205) == 617);
    assert(pow2(348) == 0x1000000000000000000000000000000000000000000000000000000000000000000000000000000000000000nat);
    assert(0xFF290242C83396CE7E67047175A15271nat * pow2(348) <= pow(5, 205));
    assert(pow(5, 205) < 0xFF290242C83396CE7E67047175A15272nat * pow2(348));
}

/// The entry for `10^206`.
proof fn lemma_floor_p206()
    ensures
        power_floor(206, 0x9F79A169BD203E41, 0x0F0062C6E984D386),
{
    reveal(power_floor);
    lemma_pow5_206();
    lemma_pow2_chunk_5();
    lemma2_to64();
    lemma2_to64_rest();
    lemma_pow2_adds(320, 31);
    assert(power_of_10_exponent(206) == 621);
    assert(pow2(351) == 0x8000000000000000000000000000000000000000000000000000000000000000000000000000000000000000nat);
    assert(0x9F79A169BD203E410F0062C6E984D386nat * pow2(351) <= pow(5, 206));
    assert(pow(5, 206) < 0x9F79A169BD203E410F0062C6E984D387nat * pow2(351));
}

/// The entry for `10^207`.
proof fn lemma_floor_p207()
    ensures
        power_floor(207, 0xC75809C42C684DD1, 0x52C07B78A3E60868),
{
    reveal(power_floor);
    lemma_pow5_207();
    lemma_pow2_chunk_5();
    lemma2_to64();
    lemma2_to64_rest();
    lemma_pow2_adds(320, 33);
    assert(power_of_10_exponent(207) == 624);
    assert(pow2(353) == 0x20000000000000000000000000000000000000000000000000000000000000000000000000000000000000000nat);
    assert(0xC75809C42C684DD152C07B78A3E60868nat * pow2(353) <= pow(5, 207));
    assert(pow(5, 207) < 0xC75809C42C684DD152C07B78A3E60869nat * pow2(353));
}

/// The entry for `10^208`.
proof fn lemma_floor_p208()
    ensures
        power_floor(208, 0xF92E0C3537826145, 0xA7709A56CCDF8A82),
{
    reveal(power_floor);
    lemma_pow5_208();
    lemma_pow2_chunk_5();
    lemma2_to64();
    lemma2_to64_rest();
    lemma_pow2_adds(320, 35);
    assert(power_of_10_exponent(208) == 627);
    assert(pow2(355) == 0x80000000000000000000000000000000000000000000000000000000000000000000000000000000000000000nat);
    assert(0xF92E0C3537826145A7709A56CCDF8A82nat * pow2(355) <= pow(5, 208));
    assert(pow(5, 208) < 0xF92E0C3537826145A7709A56CCDF8A83nat * pow2(355));
}

/// The entry for `10^209`.
proof fn lemma_floor_p209()
    ensures
        power_floor(209, 0x9BBCC7A142B17CCB, 0x88A66076400BB691),
{
    reveal(power_floor);
    lemma_pow5_209();
    lemma_pow2_chunk_5();
    lemma2_to64();
    lemma2_to64_rest();
    lemma_pow2_adds(320, 38);
    assert(power_of_10_exponent(209) == 631);
    assert(pow2(358) == 0x400000000000000000000000000000000000000000000000000000000000000000000000000000000000000000nat);
    assert(0x9BBCC7A142B17CCB88A66076400BB691nat * pow2(358) <= pow(5, 209));
    assert(pow(5, 209) < 0x9BBCC7A142B17CCB88A66076400BB692nat * pow2(358));
}

/// The entry for `10^210`.
proof fn lemma_floor_p210()
    ensures
        power_floor(210, 0xC2ABF989935DDBFE, 0x6ACFF893D00EA435),
{
    reveal(power_floor);
    lemma_pow5_210();
    lemma_pow2_chunk_5();
    lemma2_to64();
    lemma2_to64_rest();
    lemma_pow2_adds(320, 40);
    assert(power_of_10_exponent(210) == 634);
    assert(pow2(360) == 0x1000000000000000000000000000000000000000000000000000000000000000000000000000000000000000000nat);
    assert(0xC2ABF989935DDBFE6ACFF893D00EA435nat * pow2(360) <= pow(5, 210));
    assert(pow(5, 210) < 0xC2ABF989935DDBFE6ACFF893D00EA436nat * pow2(360));
}

/// The entry for `10^211`.
proof fn lemma_floor_p211()
    ensures
        power_floor(211, 0xF356F7EBF83552FE, 0x0583F6B8C4124D43),
{
    reveal(power_floor);
    lemma_pow5_211();
    lemma_pow2_chunk_5();
    lemma2_to64();
    lemma2_to64_rest();
    lemma_pow2_adds(320, 42);
    assert(power_of_10_exponent(211) == 637);
    assert(pow2(362) == 0x4000000000000000000000000000000000000000000000000000000000000000000000000000000000000000000nat);
    assert(0xF356F7EBF83552FE0583F6B8C4124D43nat * pow2(362) <= pow(5, 211));
    assert(pow(5, 211) < 0xF356F7EBF83552FE0583F6B8C4124D44nat * pow2(362));
}

/// The entry for `10^212`.
proof fn lemma_floor_p212()
    ensures
        power_floor(212, 0x98165AF37B2153DE, 0xC3727A337A8B704A),
{
    reveal(power_floor);
    lemma_pow5_212();
    lemma_pow2_chunk_5();
    lemma2_to64();
    lemma2_to64_rest();
    lemma_pow2_adds(320, 45);
    assert(power_of_10_exponent(212) == 641);
    assert(pow2(365) == 0x20000000000000000000000000000000000000000000000000000000000000000000000000000000000000000000nat);
    assert(0x98165AF37B2153DEC3727A337A8B704Anat * pow2(365) <= pow(5, 212));
    assert(pow(5, 212) < 0x98165AF37B2153DEC3727A337A8B704Bnat * pow2(365));
}

/// The entry for `10^213`.
proof fn lemma_floor_p213()
    ensures
        power_floor(213, 0xBE1BF1B059E9A8D6, 0x744F18C0592E4C5C),
{
    reveal(power_floor);
    lemma_pow5_213();
    lemma_pow2_chunk_5();
    lemma2_to64();
    lemma2_to64_rest();
    lemma_pow2_adds(320, 47);
    assert(power_of_10_exponent(213) == 644);
    assert(pow2(367) == 0x80000000000000000000000000000000000000000000000000000000000000000000000000000000000000000000nat);
    assert(0xBE1BF1B059E9A8D6744F18C0592E4C5Cnat * pow2(367) <= pow(5, 213));
    assert(pow(5, 213) < 0xBE1BF1B059E9A8D6744F18C0592E4C5Dnat * pow2(367));
}

/// The entry for `10^214`.
proof fn lemma_floor_p214()
    ensures
        power_floor(214, 0xEDA2EE1C7064130C, 0x1162DEF06F79DF73),
{
    reveal(power_floor);
    lemma_pow5_214();
    lemma_pow2_chunk_5();
    lemma2_to64();
    lemma2_to64_rest();
    lemma_pow2_adds(320, 49);
    assert(power_of_10_exponent(214) == 647);
    assert(pow2(369) == 0x200000000000000000000000000000000000000000000000000000000000000000000000000000000000000000000nat);
    assert(0xEDA2EE1C7064130C1162DEF06F79DF73nat * pow2(369) <= pow(5, 214));
    assert(pow(5, 214) < 0xEDA2EE1C7064130C1162DEF06F79DF74nat * pow2(369));
}

/// The entry for `10^215`.
proof fn lemma_floor_p215()
    ensures
        power_floor(215, 0x9485D4D1C63E8BE7, 0x8ADDCB5645AC2BA8),
{
    reveal(power_floor);
    lemma_pow5_215();
    lemma_pow2_chunk_5();
    lemma2_to64();
    lemma2_to64_rest();
    lemma_pow2_adds(320, 52);
    assert(power_of_10_exponent(215) == 651);
    assert(pow2(372) == 0x1000000000000000000000000000000000000000000000000000000000000000000000000000000000000000000000nat);
    assert(0x9485D4D1C63E8BE78ADDCB5645AC2BA8nat * pow2(372) <= pow(5, 215));
    assert(pow(5, 215) < 0x9485D4D1C63E8BE78ADDCB5645AC2BA9nat * pow2(372));
}

/// The entry for `10^216`.
proof fn lemma_floor_p216()
    ensures
        power_floor(216, 0xB9A74A0637CE2EE1, 0x6D953E2BD7173692),
{
    reveal(power_floor);
    lemma_pow5_216();
    lemma_pow2_chunk_5();
    lemma2_to64();
    lemma2_to64_rest();
    lemma_pow2_adds(320, 54);
    assert(power_of_10_exponent(216) == 654);
    assert(pow2(374) == 0x4000000000000000000000000000000000000000000000000000000000000000000000000000000000000000000000nat);
    assert(0xB9A74A0637CE2EE16D953E2BD7173692nat * pow2(374) <= pow(5, 216));
    assert(pow(5, 216) < 0xB9A74A0637CE2EE16D953E2BD7173693nat * pow2(374));
}

/// The entry for `10^217`.
proof fn lemma_floor_p217()
    ensures
        power_floor(217, 0xE8111C87C5C1BA99, 0xC8FA8DB6CCDD0437),
{
    reveal(power_floor);
    lemma_pow5_217();
    lemma_pow2_chunk_5();
    lemma2_to64();
    lemma2_to64_rest();
    lemma_pow2_adds(320, 56);
    assert(power_of_10_exponent(217) == 657);
    assert(pow2(376) == 0x10000000000000000000000000000000000000000000000000000000000000000000000000000000000000000000000nat);
    assert(0xE8111C87C5C1BA99C8FA8DB6CCDD0437nat * pow2(376) <= pow(5, 217));
    assert(pow(5, 217) < 0xE8111C87C5C1BA99C8FA8DB6CCDD0438nat * pow2(376));
}

/// The entry for `10^218`.
proof fn lemma_floor_p218()
    ensures
        power_floor(218, 0x910AB1D4DB9914A0, 0x1D9C9892400A22A2),
{
    reveal(power_floor);
    lemma_pow5_218();
    lemma_pow2_chunk_5();
    lemma2_to64();
    lemma2_to64_rest();
    lemma_pow2_adds(320, 59);
    assert(power_of_10_exponent(218) == 661);
    assert(pow2(379) == 0x80000000000000000000000000000000000000000000000000000000000000000000000000000000000000000000000nat);
    assert(0x910AB1D4DB9914A01D9C9892400A22A2nat * pow2(379) <= pow(5, 218));
    assert(pow(5, 218) < 0x910AB1D4DB9914A01D9C9892400A22A3nat * pow2(379));
}

/// The entry for `10^219`.
proof fn lemma_floor_p219()
    ensures
        power_floor(219, 0xB54D5E4A127F59C8, 0x2503BEB6D00CAB4B),
{
    reveal(power_floor);
    lemma_pow5_219();
    lemma_pow2_chunk_5();
    lemma2_to64();
    lemma2_to64_rest();
    lemma_pow2_adds(320, 61);
    assert(power_of_10_exponent(219) == 664);
    assert(pow2(381) == 0x200000000000000000000000000000000000000000000000000000000000000000000000000000000000000000000000nat);
    assert(0xB54D5E4A127F59C82503BEB6D00CAB4Bnat * pow2(381) <= pow(5, 219));
    assert(pow(5, 219) < 0xB54D5E4A127F59C82503BEB6D00CAB4Cnat * pow2(381));
}

/// The entry for `10^220`.
proof fn lemma_floor_p220()
    ensures
        power_floor(220, 0xE2A0B5DC971F303A, 0x2E44AE64840FD61D),
{
    reveal(power_floor);
    lemma_pow5_220();
    lemma_pow2_chunk_5();
    lemma2_to64();
    lemma2_to64_rest();
    lemma_pow2_adds(320, 63);
    assert(power_of_10_exponent(220) == 667);
    assert(pow2(383) == 0x800000000000000000000000000000000000000000000000000000000000000000000000000000000000000000000000nat);
    assert(0xE2A0B5DC971F303A2E44AE64840FD61Dnat * pow2(383) <= pow(5, 220));
    assert(pow(5, 220) < 0xE2A0B5DC971F303A2E44AE64840FD61Enat * pow2(383));
}

/// The entry for `10^221`.
proof fn lemma_floor_p221()
    ensures
        power_floor(221, 0x8DA471A9DE737E24, 0x5CEAECFED289E5D2),
{
    reveal(power_floor);
    lemma_pow5_221();
    lemma_pow2_chunk_6();
    lemma2_to64();
    lemma2_to64_rest();
    lemma_pow2_adds(384, 2);
    assert(power_of_10_exponent(221) == 671);
    assert(pow2(386) == 0x4000000000000000000000000000000000000000000000000000000000000000000000000000000000000000000000000nat);
    assert(0x8DA471A9DE737E245CEAECFED289E5D2nat * pow2(386) <= pow(5, 221));
    assert(pow(5, 221) < 0x8DA471A9DE737E245CEAECFED289E5D3nat * pow2(386));
}

/// The entry for `10^222`.
proof fn lemma_floor_p222()
    ensures
        power_floor(222, 0xB10D8E1456105DAD, 0x7425A83E872C5F47),
{
    reveal(power_floor);
    lemma_pow5_222();
    lemma_pow2_chunk_6();
    lemma2_to64();
    lemma2_to64_rest();
    lemma_pow2_adds(384, 4);
    assert(power_of_10_exponent(222) == 674);
    assert(pow2(388) == 0x10000000000000000000000000000000000000000000000000000000000000000000000000000000000000000000000000nat);
    assert(0xB10D8E1456105DAD7425A83E872C5F47nat * pow2(388) <= pow(5, 222));
    assert(pow(5, 222) < 0xB10D8E1456105DAD7425A83E872C5F48nat * pow2(388));
}

/// The entry for `10^223`.
proof fn lemma_floor_p223()
    ensures
        power_floor(223, 0xDD50F1996B947518, 0xD12F124E28F77719),
{
    reveal(power_floor);
    lemma_pow5_223();
    lemma_pow2_chunk_6();
    lemma2_to64();
    lemma2_to64_rest();
    lemma_pow2_adds(384, 6);
    assert(power_of_10_exponent(223) == 677);
    assert(pow2(390) == 0x40000000000000000000000000000000000000000000000000000000000000000000000000000000000000000000000000nat);
    assert(0xDD50F1996B947518D12F124E28F77719nat * pow2(390) <= pow(5, 223));
    assert(pow(5, 223) < 0xDD50F1996B947518D12F124E28F7771Anat * pow2(390));
}

/// The entry for `10^224`.
proof fn lemma_floor_p224()
    ensures
        power_floor(224, 0x8A5296FFE33CC92F, 0x82BD6B70D99AAA6F),
{
    reveal(power_floor);
    lemma_pow5_224();
    lemma_pow2_chunk_6();
    lemma2_to64();
    lemma2_to64_rest();
    lemma_pow2_adds(384, 9);
    assert(power_of_10_exponent(224) == 681);
    assert(pow2(393) == 0x200000000000000000000000000000000000000000000000000000000000000000000000000000000000000000000000000nat);
    assert(0x8A5296FFE33CC92F82BD6B70D99AAA6Fnat * pow2(393) <= pow(5, 224));
    assert(pow(5, 224) < 0x8A5296FFE33CC92F82BD6B70D99AAA70nat * pow2(393));
}

/// The entry for `10^225`.
proof fn lemma_floor_p225()
    ensures
        power_floor(225, 0xACE73CBFDC0BFB7B, 0x636CC64D1001550B),
{
    reveal(power_floor);
    lemma_pow5_225();
    lemma_pow2_chunk_6();
    lemma2_to64();
    lemma2_to64_rest();
    lemma_pow2_adds(384, 11);
    assert(power_of_10_exponent(225) == 684);
    assert(pow2(395) == 0x800000000000000000000000000000000000000000000000000000000000000000000000000000000000000000000000000nat);
    assert(0xACE73CBFDC0BFB7B636CC64D1001550Bnat * pow2(395) <= pow(5, 225));
    assert(pow(5, 225) < 0xACE73CBFDC0BFB7B636CC64D1001550Cnat * pow2(395));
}

/// The entry for `10^226`.
proof fn lemma_floor_p226()
    ensures
        power_floor(226, 0xD8210BEFD30EFA5A, 0x3C47F7E05401AA4E),
{
    reveal(power_floor);
    lemma_pow5_226();
    lemma_pow2_chunk_6();
    lemma2_to64();
    lemma2_to64_rest();
    lemma_pow2_adds(384, 13);
    assert(power_of_10_exponent(226) == 687);
    assert(pow2(397) == 0x2000000000000000000000000000000000000000000000000000000000000000000000000000000000000000000000000000nat);
    assert(0xD8210BEFD30EFA5A3C47F7E05401AA4Enat * pow2(397) <= pow(5, 226));
    assert(pow(5, 226) < 0xD8210BEFD30EFA5A3C47F7E05401AA4Fnat * pow2(397));
}

/// The entry for `10^227`.
proof fn lemma_floor_p227()
    ensures
        power_floor(227, 0x8714A775E3E95C78, 0x65ACFAEC34810A71),
{
    reveal(power_floor);
    lemma_pow5_227();
    lemma_pow2_chunk_6();
    lemma2_to64();
    lemma2_to64_rest();
    lemma_pow2_adds(384, 16);
    assert(power_of_10_exponent(227) == 691);
    assert(pow2(400) == 0x10000000000000000000000000000000000000000000000000000000000000000000000000000000000000000000000000000nat);
    assert(0x8714A775E3E95C7865ACFAEC34810A71nat * pow2(400) <= pow(5, 227));
    assert(pow(5, 227) < 0x8714A775E3E95C7865ACFAEC34810A72nat * pow2(400));
}

/// The entry for `10^228`.
proof fn lemma_floor_p228()
    ensures
        power_floor(228, 0xA8D9D1535CE3B396, 0x7F1839A741A14D0D),
{
    reveal(power_floor);
    lemma_pow5_228();
    lemma_pow2_chunk_6();
    lemma2_to64();
    lemma2_to64_rest();
    lemma_pow2_adds(384, 18);
    assert(power_of_10_exponent(228) == 694);
    assert(pow2(402) == 0x40000000000000000000000000000000000000000000000000000000000000000000000000000000000000000000000000000nat);
    assert(0xA8D9D1535CE3B3967F1839A741A14D0Dnat * pow2(402) <= pow(5, 228));
    assert(pow(5, 228) < 0xA8D9D1535CE3B3967F1839A741A14D0Enat * pow2(402));
}

/// The entry for `10^229`.
proof fn lemma_floor_p229()
    ensures
        power_floor(229, 0xD31045A8341CA07C, 0x1EDE48111209A050),
{
    reveal(power_floor);
    lemma_pow5_229();
    lemma_pow2_chunk_6();
    lemma2_to64();
    lemma2_to64_rest();
    lemma_pow2_adds(384, 20);
    assert(power_of_10_exponent(229) == 697);
    assert(pow2(404) == 0x100000000000000000000000000000000000000000000000000000000000000000000000000000000000000000000000000000nat);
    assert(0xD31045A8341CA07C1EDE48111209A050nat * pow2(404) <= pow(5, 229));
    assert(pow(5, 229) < 0xD31045A8341CA07C1EDE48111209A051nat * pow2(404));
}

/// The entry for `10^230`.
proof fn lemma_floor_p230()
    ensures
        power_floor(230, 0x83EA2B892091E44D, 0x934AED0AAB460432),
{
    reveal(power_floor);
    lemma_pow5_230();
    lemma_pow2_chunk_6();
    lemma2_to64();
    lemma2_to64_rest();
    lemma_pow2_adds(384, 23);
    assert(power_of_10_exponent(230) == 701);
    assert(pow2(407) == 0x800000000000000000000000000000000000000000000000000000000000000000000000000000000000000000000000000000nat);
    assert(0x83EA2B892091E44D934AED0AAB460432nat * pow2(407) <= pow(5, 230));
    assert(pow(5, 230) < 0x83EA2B892091E44D934AED0AAB460433nat * pow2(407));
}

/// The entry for `10^231`.
proof fn lemma_floor_p231()
    ensures
        power_floor(231, 0xA4E4B66B68B65D60, 0xF81DA84D5617853F),
{
    reveal(power_floor);
    lemma_pow5_231();
    lemma_pow2_chunk_6();
    lemma2_to64();
    lemma2_to64_rest();
    lemma_pow2_adds(384, 25);
    assert(power_of_10_exponent(231) == 704);
    assert(pow2(409) == 0x2000000000000000000000000000000000000000000000000000000000000000000000000000000000000000000000000000000nat);
    assert(0xA4E4B66B68B65D60F81DA84D5617853Fnat * pow2(409) <= pow(5, 231));
    assert(pow(5, 231) < 0xA4E4B66B68B65D60F81DA84D56178540nat * pow2(409));
}

/// The entry for `10^232`.
proof fn lemma_floor_p232()
    ensures
        power_floor(232, 0xCE1DE40642E3F4B9, 0x36251260AB9D668E),
{
    reveal(power_floor);
    lemma_pow5_232();
    lemma_pow2_chunk_6();
    lemma2_to64();
    lemma2_to64_rest();
    lemma_pow2_adds(384, 27);
    assert(power_of_10_exponent(232) == 707);
    assert(pow2(411) == 0x8000000000000000000000000000000000000000000000000000000000000000000000000000000000000000000000000000000nat);
    assert(0xCE1DE40642E3F4B936251260AB9D668Enat * pow2(411) <= pow(5, 232));
    assert(pow(5, 232) < 0xCE1DE40642E3F4B936251260AB9D668Fnat * pow2(411));
}

/// The entry for `10^233`.
proof fn lemma_floor_p233()
    ensures
        power_floor(233, 0x80D2AE83E9CE78F3, 0xC1D72B7C6B426019),
{
    reveal(power_floor);
    lemma_pow5_233();
    lemma_pow2_chunk_6();
    lemma2_to64();
    lemma2_to64_rest();
    lemma_pow2_adds(384, 30);
    assert(power_of_10_exponent(233) == 711);
    assert(pow2(414) == 0x40000000000000000000000000000000000000000000000000000000000000000000000000000000000000000000000000000000nat);
    assert(0x80D2AE83E9CE78F3C1D72B7C6B426019nat * pow2(414) <= pow(5, 233));
    assert(pow(5, 233) < 0x80D2AE83E9CE78F3C1D72B7C6B42601Anat * pow2(414));
}

/// The entry for `10^234`.
proof fn lemma_floor_p234()
    ensures
        power_floor(234, 0xA1075A24E4421730, 0xB24CF65B8612F81F),
{
    reveal(power_floor);
    lemma_pow5_234();
    lemma_pow2_chunk_6();
    lemma2_to64();
    lemma2_to64_rest();
    lemma_pow2_adds(384, 32);
    assert(power_of_10_exponent(234) == 714);
    assert(pow2(416) == 0x100000000000000000000000000000000000000000000000000000000000000000000000000000000000000000000000000000000nat);
    assert(0xA1075A24E4421730B24CF65B8612F81Fnat * pow2(416) <= pow(5, 234));
    assert(pow(5, 234) < 0xA1075A24E4421730B24CF65B8612F820nat * pow2(416));
}

/// The entry for `10^235`.
proof fn lemma_floor_p235()
    ensures
        power_floor(235, 0xC94930AE1D529CFC, 0xDEE033F26797B627),
{
    reveal(power_floor);
    lemma_pow5_235();
    lemma_pow2_chunk_6();
    lemma2_to64();
    lemma2_to64_rest();
    lemma_pow2_adds(384, 34);
    assert(power_of_10_exponent(235) == 717);
    assert(pow2(418) == 0x400000000000000000000000000000000000000000000000000000000000000000000000000000000000000000000000000000000nat);
    assert(0xC94930AE1D529CFCDEE033F26797B627nat * pow2(418) <= pow(5, 235));
    assert(pow(5, 235) < 0xC94930AE1D529CFCDEE033F26797B628nat * pow2(418));
}

/// The entry for `10^236`.
proof fn lemma_floor_p236()
    ensures
        power_floor(236, 0xFB9B7CD9A4A7443C, 0x169840EF017DA3B1),
{
    reveal(power_floor);
    lemma_pow5_236();
    lemma_pow2_chunk_6();
    lemma2_to64();
    lemma2_to64_rest();
    lemma_pow2_adds(384, 36);
    assert(power_of_10_exponent(236) == 720);
    assert(pow2(420) == 0x1000000000000000000000000000000000000000000000000000000000000000000000000000000000000000000000000000000000nat);
    assert(0xFB9B7CD9A4A7443C169840EF017DA3B1nat * pow2(420) <= pow(5, 236));
    assert(pow(5, 236) < 0xFB9B7CD9A4A7443C169840EF017DA3B2nat * pow2(420));
}

/// The entry for `10^237`.
proof fn lemma_floor_p237()
    ensures
        power_floor(237, 0x9D412E0806E88AA5, 0x8E1F289560EE864E),
{
    reveal(power_floor);
    lemma_pow5_237();
    lemma_pow2_chunk_6();
    lemma2_to64();
    lemma2_to64_rest();
    lemma_pow2_adds(384, 39);
    assert(power_of_10_exponent(237) == 724);
    assert(pow2(423) == 0x8000000000000000000000000000000000000000000000000000000000000000000000000000000000000000000000000000000000nat);
    assert(0x9D412E0806E88AA58E1F289560EE864Enat * pow2(423) <= pow(5, 237));
    assert(pow(5, 237) < 0x9D412E0806E88AA58E1F289560EE864Fnat * pow2(423));
}

/// The entry for `10^238`.
proof fn lemma_floor_p238()
    ensures
        power_floor(238, 0xC491798A08A2AD4E, 0xF1A6F2BAB92A27E2),
{
    reveal(power_floor);
    lemma_pow5_238();
    lemma_pow2_chunk_6();
    lemma2_to64();
    lemma2_to64_rest();
    lemma_pow2_adds(384, 41);
    assert(power_of_10_exponent(238) == 727);
    assert(pow2(425) == 0x20000000000000000000000000000000000000000000000000000000000000000000000000000000000000000000000000000000000nat);
    assert(0xC491798A08A2AD4EF1A6F2BAB92A27E2nat * pow2(425) <= pow(5, 238));
    assert(pow(5, 238) < 0xC491798A08A2AD4EF1A6F2BAB92A27E3nat * pow2(425));
}

/// The entry for `10^239`.
proof fn lemma_floor_p239()
    ensures
        power_floor(239, 0xF5B5D7EC8ACB58A2, 0xAE10AF696774B1DB),
{
    reveal(power_floor);
    lemma_pow5_239();
    lemma_pow2_chunk_6();
    lemma2_to64();
    lemma2_to64_rest();
    lemma_pow2_adds(384, 43);
    assert(power_of_10_exponent(239) == 730);
    assert(pow2(427) == 0x80000000000000000000000000000000000000000000000000000000000000000000000000000000000000000000000000000000000nat);
    assert(0xF5B5D7EC8ACB58A2AE10AF696774B1DBnat * pow2(427) <= pow(5, 239));
    assert(pow(5, 239) < 0xF5B5D7EC8ACB58A2AE10AF696774B1DCnat * pow2(427));
}

/// The entry for `10^240`.
proof fn lemma_floor_p240()
    ensures
        power_floor(240, 0x9991A6F3D6BF1765, 0xACCA6DA1E0A8EF29),
{
    reveal(power_floor);
    lemma_pow5_240();
    lemma_pow2_chunk_6();
    lemma2_to64();
    lemma2_to64_rest();
    lemma_pow2_adds(384, 46);
    assert(power_of_10_exponent(240) == 734);
    assert(pow2(430) == 0x400000000000000000000000000000000000000000000000000000000000000000000000000000000000000000000000000000000000nat);
    assert(0x9991A6F3D6BF1765ACCA6DA1E0A8EF29nat * pow2(430) <= pow(5, 240));
    assert(pow(5, 240) < 0x9991A6F3D6BF1765ACCA6DA1E0A8EF2Anat * pow2(430));
}

/// The entry for `10^241`.
proof fn lemma_floor_p241()
    ensures
        power_floor(241, 0xBFF610B0CC6EDD3F, 0x17FD090A58D32AF3),
{
    reveal(power_floor);
    lemma_pow5_241();
    lemma_pow2_chunk_6();
    lemma2_to64();
    lemma2_to64_rest();
    lemma_pow2_adds(384, 48);
    assert(power_of_10_exponent(241) == 737);
    assert(pow2(432) == 0x1000000000000000000000000000000000000000000000000000000000000000000000000000000000000000000000000000000000000nat);
    assert(0xBFF610B0CC6EDD3F17FD090A58D32AF3nat * pow2(432) <= pow(5, 241));
    assert(pow(5, 241) < 0xBFF610B0CC6EDD3F17FD090A58D32AF4nat * pow2(432));
}

/// The entry for `10^242`.
proof fn lemma_floor_p242()
    ensures
        power_floor(242, 0xEFF394DCFF8A948E, 0xDDFC4B4CEF07F5B0),
{
    reveal(power_floor);
    lemma_pow5_242();
    lemma_pow2_chunk_6();
    lemma2_to64();
    lemma2_to64_rest();
    lemma_pow2_adds(384, 50);
    assert(power_of_10_exponent(242) == 740);
    assert(pow2(434) == 0x4000000000000000000000000000000000000000000000000000000000000000000000000000000000000000000000000000000000000nat);
    assert(0xEFF394DCFF8A948EDDFC4B4CEF07F5B0nat * pow2(434) <= pow(5, 242));
    assert(pow(5, 242) < 0xEFF394DCFF8A948EDDFC4B4CEF07F5B1nat * pow2(434));
}

/// The entry for `10^243`.
proof fn lemma_floor_p243()
    ensures
        power_floor(243, 0x95F83D0A1FB69CD9, 0x4ABDAF101564F98E),
{
    reveal(power_floor);
    lemma_pow5_243();
    lemma_pow2_chunk_6();
    lemma2_to64();
    lemma2_to64_rest();
    lemma_pow2_adds(384, 53);
    assert(power_of_10_exponent(243) == 744);
    assert(pow2(437) == 0x20000000000000000000000000000000000000000000000000000000000000000000000000000000000000000000000000000000000000nat);
    assert(0x95F83D0A1FB69CD94ABDAF101564F98Enat * pow2(437) <= pow(5, 243));
    assert(pow(5, 243) < 0x95F83D0A1FB69CD94ABDAF101564F98Fnat * pow2(437));
}

/// The entry for `10^244`.
proof fn lemma_floor_p244()
    ensures
        power_floor(244, 0xBB764C4CA7A4440F, 0x9D6D1AD41ABE37F1),
{
    reveal(power_floor);
    lemma_pow5_244();
    lemma_pow2_chunk_6();
    lemma2_to64();
    lemma2_to64_rest();
    lemma_pow2_adds(384, 55);
    assert(power_of_10_exponent(244) == 747);
    assert(pow2(439) == 0x80000000000000000000000000000000000000000000000000000000000000000000000000000000000000000000000000000000000000nat);
    assert(0xBB764C4CA7A4440F9D6D1AD41ABE37F1nat * pow2(439) <= pow(5, 244));
    assert(pow(5, 244) < 0xBB764C4CA7A4440F9D6D1AD41ABE37F2nat * pow2(439));
}

/// The entry for `10^245`.
proof fn lemma_floor_p245()
    ensures
        power_floor(245, 0xEA53DF5FD18D5513, 0x84C86189216DC5ED),
{
    reveal(power_floor);
    lemma_pow5_245();
    lemma_pow2_chunk_6();
    lemma2_to64();
    lemma2_to64_rest();
    lemma_pow2_adds(384, 57);
    assert(power_of_10_exponent(245) == 750);
    assert(pow2(441) == 0x200000000000000000000000000000000000000000000000000000000000000000000000000000000000000000000000000000000000000nat);
    assert(0xEA53DF5FD18D551384C86189216DC5EDnat * pow2(441) <= pow(5, 245));
    assert(pow(5, 245) < 0xEA53DF5FD18D551384C86189216DC5EEnat * pow2(441));
}

/// The entry for `10^246`.
proof fn lemma_floor_p246()
    ensures
        power_floor(246, 0x92746B9BE2F8552C, 0x32FD3CF5B4E49BB4),
{
    reveal(power_floor);
    lemma_pow5_246();
    lemma_pow2_chunk_6();
    lemma2_to64();
    lemma2_to64_rest();
    lemma_pow2_adds(384, 60);
    assert(power_of_10_exponent(246) == 754);
    assert(pow2(444) == 0x1000000000000000000000000000000000000000000000000000000000000000000000000000000000000000000000000000000000000000nat);
    assert(0x92746B9BE2F8552C32FD3CF5B4E49BB4nat * pow2(444) <= pow(5, 246));
    assert(pow(5, 246) < 0x92746B9BE2F8552C32FD3CF5B4E49BB5nat * pow2(444));
}

/// The entry for `10^247`.
proof fn lemma_floor_p247()
    ensures
        power_floor(247, 0xB7118682DBB66A77, 0x3FBC8C33221DC2A1),
{
    reveal(power_floor);
    lemma_pow5_247();
    lemma_pow2_chunk_6();
    lemma2_to64();
    lemma2_to64_rest();
    lemma_pow2_adds(384, 62);
    assert(power_of_10_exponent(247) == 757);
    assert(pow2(446) == 0x4000000000000000000000000000000000000000000000000000000000000000000000000000000000000000000000000000000000000000nat);
    assert(0xB7118682DBB66A773FBC8C33221DC2A1nat * pow2(446) <= pow(5, 247));
    assert(pow(5, 247) < 0xB7118682DBB66A773FBC8C33221DC2A2nat * pow2(446));
}

/// The entry for `10^248`.
proof fn lemma_floor_p248()
    ensures
        power_floor(248, 0xE4D5E82392A40515, 0x0FABAF3FEAA5334A),
{
    reveal(power_floor);
    lemma_pow5_248();
    lemma_pow2_chunk_7();
    lemma2_to64();
    lemma2_to64_rest();
    lemma_pow2_adds(448, 0);
    assert(power_of_10_exponent(248) == 760);
    assert(pow2(448) == 0x10000000000000000000000000000000000000000000000000000000000000000000000000000000000000000000000000000000000000000nat);
    assert(0xE4D5E82392A405150FABAF3FEAA5334Anat * pow2(448) <= pow(5, 248));
    assert(pow(5, 248) < 0xE4D5E82392A405150FABAF3FEAA5334Bnat * pow2(448));
}

/// The entry for `10^249`.
proof fn lemma_floor_p249()
    ensures
        power_floor(249, 0x8F05B1163BA6832D, 0x29CB4D87F2A7400E),
{
    reveal(power_floor);
    lemma_pow5_249();
    lemma_pow2_chunk_7();
    lemma2_to64();
    lemma2_to64_rest();
    lemma_pow2_adds(448, 3);
    assert(power_of_10_exponent(249) == 764);
    assert(pow2(451) == 0x80000000000000000000000000000000000000000000000000000000000000000000000000000000000000000000000000000000000000000nat);
    assert(0x8F05B1163BA6832D29CB4D87F2A7400Enat * pow2(451) <= pow(5, 249));
    assert(pow(5, 249) < 0x8F05B1163BA6832D29CB4D87F2A7400Fnat * pow2(451));
}

/// The entry for `10^250`.
proof fn lemma_floor_p250()
    ensures
        power_floor(250, 0xB2C71D5BCA9023F8, 0x743E20E9EF511012),
{
    reveal(power_floor);
    lemma_pow5_250();
    lemma_pow2_chunk_7();
    lemma2_to64();
    lemma2_to64_rest();
    lemma_pow2_adds(448, 5);
    assert(power_of_10_exponent(250) == 767);
    assert(pow2(453) == 0x200000000000000000000000000000000000000000000000000000000000000000000000000000000000000000000000000000000000000000nat);
    assert(0xB2C71D5BCA9023F8743E20E9EF511012nat * pow2(453) <= pow(5, 250));
    assert(pow(5, 250) < 0xB2C71D5BCA9023F8743E20E9EF511013nat * pow2(453));
}

/// The entry for `10^251`.
proof fn lemma_floor_p251()
    ensures
        power_floor(251, 0xDF78E4B2BD342CF6, 0x914DA9246B255416),
{
    reveal(power_floor);
    lemma_pow5_251();
    lemma_pow2_chunk_7();
    lemma2_to64();
    lemma2_to64_rest();
    lemma_pow2_adds(448, 7);
    assert(power_of_10_exponent(251) == 770);
    assert(pow2(455) == 0x800000000000000000000000000000000000000000000000000000000000000000000000000000000000000000000000000000000000000000nat);
    assert(0xDF78E4B2BD342CF6914DA9246B255416nat * pow2(455) <= pow(5, 251));
    assert(pow(5, 251) < 0xDF78E4B2BD342CF6914DA9246B255417nat * pow2(455));
}

/// The entry for `10^252`.
proof fn lemma_floor_p252()
    ensures
        power_floor(252, 0x8BAB8EEFB6409C1A, 0x1AD089B6C2F7548E),
{
    reveal(power_floor);
    lemma_pow5_252();
    lemma_pow2_chunk_7();
    lemma2_to64();
    lemma2_to64_rest();
    lemma_pow2_adds(448, 10);
    assert(power_of_10_exponent(252) == 774);
    assert(pow2(458) == 0x4000000000000000000000000000000000000000000000000000000000000000000000000000000000000000000000000000000000000000000nat);
    assert(0x8BAB8EEFB6409C1A1AD089B6C2F7548Enat * pow2(458) <= pow(5, 252));
    assert(pow(5, 252) < 0x8BAB8EEFB6409C1A1AD089B6C2F7548Fnat * pow2(458));
}

/// The entry for `10^253`.
proof fn lemma_floor_p253()
    ensures
        power_floor(253, 0xAE9672ABA3D0C320, 0xA184AC2473B529B1),
{
    reveal(power_floor);
    lemma_pow5_253();
    lemma_pow2_chunk_7();
    lemma2_to64();
    lemma2_to64_rest();
    lemma_pow2_adds(448, 12);
    assert(power_of_10_exponent(253) == 777);
    assert(pow2(460) == 0x10000000000000000000000000000000000000000000000000000000000000000000000000000000000000000000000000000000000000000000nat);
    assert(0xAE9672ABA3D0C320A184AC2473B529B1nat * pow2(460) <= pow(5, 253));
    assert(pow(5, 253) < 0xAE9672ABA3D0C320A184AC2473B529B2nat * pow2(460));
}

/// The entry for `10^254`.
proof fn lemma_floor_p254()
    ensures
        power_floor(254, 0xDA3C0F568CC4F3E8, 0xC9E5D72D90A2741E),
{
    reveal(power_floor);
    lemma_pow5_254();
    lemma_pow2_chunk_7();
    lemma2_to64();
    lemma2_to64_rest();
    lemma_pow2_adds(448, 14);
    assert(power_of_10_exponent(254) == 780);
    assert(pow2(462) == 0x40000000000000000000000000000000000000000000000000000000000000000000000000000000000000000000000000000000000000000000nat);
    assert(0xDA3C0F568CC4F3E8C9E5D72D90A2741Enat * pow2(462) <= pow(5, 254));
    assert(pow(5, 254) < 0xDA3C0F568CC4F3E8C9E5D72D90A2741Fnat * pow2(462));
}

/// The entry for `10^255`.
proof fn lemma_floor_p255()
    ensures
        power_floor(255, 0x8865899617FB1871, 0x7E2FA67C7A658892),
{
    reveal(power_floor);
    lemma_pow5_255();
    lemma_pow2_chunk_7();
    lemma2_to64();
    lemma2_to64_rest();
    lemma_pow2_adds(448, 17);
    assert(power_of_10_exponent(255) == 784);
    assert(pow2(465) == 0x200000000000000000000000000000000000000000000000000000000000000000000000000000000000000000000000000000000000000000000nat);
    assert(0x8865899617FB18717E2FA67C7A658892nat * pow2(465) <= pow(5, 255));
    assert(pow(5, 255) < 0x8865899617FB18717E2FA67C7A658893nat * pow2(465));
}

/// The entry for `10^256`.
proof fn lemma_floor_p256()
    ensures
        power_floor(256, 0xAA7EEBFB9DF9DE8D, 0xDDBB901B98FEEAB7),
{
    reveal(power_floor);
    lemma_pow5_256();
    lemma_pow2_chunk_7();
    lemma2_to64();
    lemma2_to64_rest();
    lemma_pow2_adds(448, 19);
    assert(power_of_10_exponent(256) == 787);
    assert(pow2(467) == 0x800000000000000000000000000000000000000000000000000000000000000000000000000000000000000000000000000000000000000000000nat);
    assert(0xAA7EEBFB9DF9DE8DDDBB901B98FEEAB7nat * pow2(467) <= pow(5, 256));
    assert(pow(5, 256) < 0xAA7EEBFB9DF9DE8DDDBB901B98FEEAB8nat * pow2(467));
}

/// The entry for `10^257`.
proof fn lemma_floor_p257()
    ensures
        power_floor(257, 0xD51EA6FA85785631, 0x552A74227F3EA565),
{
    reveal(power_floor);
    lemma_pow5_257();
    lemma_pow2_chunk_7();
    lemma2_to64();
    lemma2_to64_rest();
    lemma_pow2_adds(448, 21);
    assert(power_of_10_exponent(257) == 790);
    assert(pow2(469) == 0x2000000000000000000000000000000000000000000000000000000000000000000000000000000000000000000000000000000000000000000000nat);
    assert(0xD51EA6FA85785631552A74227F3EA565nat * pow2(469) <= pow(5, 257));
    assert(pow(5, 257) < 0xD51EA6FA85785631552A74227F3EA566nat * pow2(469));
}

/// The entry for `10^258`.
proof fn lemma_floor_p258()
    ensures
        power_floor(258, 0x8533285C936B35DE, 0xD53A88958F87275F),
{
    reveal(power_floor);
    lemma_pow5_258();
    lemma_pow2_chunk_7();
    lemma2_to64();
    lemma2_to64_rest();
    lemma_pow2_adds(448, 24);
    assert(power_of_10_exponent(258) == 794);
    assert(pow2(472) == 0x10000000000000000000000000000000000000000000000000000000000000000000000000000000000000000000000000000000000000000000000nat);
    assert(0x8533285C936B35DED53A88958F87275Fnat * pow2(472) <= pow(5, 258));
    assert(pow(5, 258) < 0x8533285C936B35DED53A88958F872760nat * pow2(472));
}

/// The entry for `10^259`.
proof fn lemma_floor_p259()
    ensures
        power_floor(259, 0xA67FF273B8460356, 0x8A892ABAF368F137),
{
    reveal(power_floor);
    lemma_pow5_259();
    lemma_pow2_chunk_7();
    lemma2_to64();
    lemma2_to64_rest();
    lemma_pow2_adds(448, 26);
    assert(power_of_10_exponent(259) == 797);
    assert(pow2(474) == 0x40000000000000000000000000000000000000000000000000000000000000000000000000000000000000000000000000000000000000000000000nat);
    assert(0xA67FF273B84603568A892ABAF368F137nat * pow2(474) <= pow(5, 259));
    assert(pow(5, 259) < 0xA67FF273B84603568A892ABAF368F138nat * pow2(474));
}

/// The entry for `10^260`.
proof fn lemma_floor_p260()
    ensures
        power_floor(260, 0xD01FEF10A657842C, 0x2D2B7569B0432D85),
{
    reveal(power_floor);
    lemma_pow5_260();
    lemma_pow2_chunk_7();
    lemma2_to64();
    lemma2_to64_rest();
    lemma_pow2_adds(448, 28);
    assert(power_of_10_exponent(260) == 800);
    assert(pow2(476) == 0x100000000000000000000000000000000000000000000000000000000000000000000000000000000000000000000000000000000000000000000000nat);
    assert(0xD01FEF10A657842C2D2B7569B0432D85nat * pow2(476) <= pow(5, 260));
    assert(pow(5, 260) < 0xD01FEF10A657842C2D2B7569B0432D86nat * pow2(476));
}

/// The entry for `10^261`.
proof fn lemma_floor_p261()
    ensures
        power_floor(261, 0x8213F56A67F6B29B, 0x9C3B29620E29FC73),
{
    reveal(power_floor);
    lemma_pow5_261();
    lemma_pow2_chunk_7();
    lemma2_to64();
    lemma2_to64_rest();
    lemma_pow2_adds(448, 31);
    assert(power_of_10_exponent(261) == 804);
    assert(pow2(479) == 0x800000000000000000000000000000000000000000000000000000000000000000000000000000000000000000000000000000000000000000000000nat);
    assert(0x8213F56A67F6B29B9C3B29620E29FC73nat * pow2(479) <= pow(5, 261));
    assert(pow(5, 261) < 0x8213F56A67F6B29B9C3B29620E29FC74nat * pow2(479));
}

/// The entry for `10^262`.
proof fn lemma_floor_p262()
    ensures
        power_floor(262, 0xA298F2C501F45F42, 0x8349F3BA91B47B8F),
{
    reveal(power_floor);
    lemma_pow5_262();
    lemma_pow2_chunk_7();
    lemma2_to64();
    lemma2_to64_rest();
    lemma_pow2_adds(448, 33);
    assert(power_of_10_exponent(262) == 807);
    assert(pow2(481) == 0x2000000000000000000000000000000000000000000000000000000000000000000000000000000000000000000000000000000000000000000000000nat);
    assert(0xA298F2C501F45F428349F3BA91B47B8Fnat * pow2(481) <= pow(5, 262));
    assert(pow(5, 262) < 0xA298F2C501F45F428349F3BA91B47B90nat * pow2(481));
}

/// The entry for `10^263`.
proof fn lemma_floor_p263()
    ensures
        power_floor(263, 0xCB3F2F7642717713, 0x241C70A936219A73),
{
    reveal(power_floor);
    lemma_pow5_263();
    lemma_pow2_chunk_7();
    lemma2_to64();
    lemma2_to64_rest();
    lemma_pow2_adds(448, 35);
    assert(power_of_10_exponent(263) == 810);
    assert(pow2(483) == 0x8000000000000000000000000000000000000000000000000000000000000000000000000000000000000000000000000000000000000000000000000nat);
    assert(0xCB3F2F7642717713241C70A936219A73nat * pow2(483) <= pow(5, 263));
    assert(pow(5, 263) < 0xCB3F2F7642717713241C70A936219A74nat * pow2(483));
}

/// The entry for `10^264`.
proof fn lemma_floor_p264()
    ensures
        power_floor(264, 0xFE0EFB53D30DD4D7, 0xED238CD383AA0110),
{
    reveal(power_floor);
    lemma_pow5_264();
    lemma_pow2_chunk_7();
    lemma2_to64();
    lemma2_to64_rest();
    lemma_pow2_adds(448, 37);
    assert(power_of_10_exponent(264) == 813);
    assert(pow2(485) == 0x20000000000000000000000000000000000000000000000000000000000000000000000000000000000000000000000000000000000000000000000000nat);
    assert(0xFE0EFB53D30DD4D7ED238CD383AA0110nat * pow2(485) <= pow(5, 264));
    assert(pow(5, 264) < 0xFE0EFB53D30DD4D7ED238CD383AA0111nat * pow2(485));
}

/// The entry for `10^265`.
proof fn lemma_floor_p265()
    ensures
        power_floor(265, 0x9EC95D1463E8A506, 0xF4363804324A40AA),
{
    reveal(power_floor);
    lemma_pow5_265();
    lemma_pow2_chunk_7();
    lemma2_to64();
    lemma2_to64_rest();
    lemma_pow2_adds(448, 40);
    assert(power_of_10_exponent(265) == 817);
    assert(pow2(488) == 0x100000000000000000000000000000000000000000000000000000000000000000000000000000000000000000000000000000000000000000000000000nat);
    assert(0x9EC95D1463E8A506F4363804324A40AAnat * pow2(488) <= pow(5, 265));
    assert(pow(5, 265) < 0x9EC95D1463E8A506F4363804324A40ABnat * pow2(488));
}

/// The entry for `10^266`.
proof fn lemma_floor_p266()
    ensures
        power_floor(266, 0xC67BB4597CE2CE48, 0xB143C6053EDCD0D5),
{
    reveal(power_floor);
    lemma_pow5_266();
    lemma_pow2_chunk_7();
    lemma2_to64();
    lemma2_to64_rest();
    lemma_pow2_adds(448, 42);
    assert(power_of_10_exponent(266) == 820);
    assert(pow2(490) == 0x400000000000000000000000000000000000000000000000000000000000000000000000000000000000000000000000000000000000000000000000000nat);
    assert(0xC67BB4597CE2CE48B143C6053EDCD0D5nat * pow2(490) <= pow(5, 266));
    assert(pow(5, 266) < 0xC67BB4597CE2CE48B143C6053EDCD0D6nat * pow2(490));
}

/// The entry for `10^267`.
proof fn lemma_floor_p267()
    ensures
        power_floor(267, 0xF81AA16FDC1B81DA, 0xDD94B7868E94050A),
{
    reveal(power_floor);
    lemma_pow5_267();
    lemma_pow2_chunk_7();
    lemma2_to64();
    lemma2_to64_rest();
    lemma_pow2_adds(448, 44);
    assert(power_of_10_exponent(267) == 823);
    assert(pow2(492) == 0x1000000000000000000000000000000000000000000000000000000000000000000000000000000000000000000000000000000000000000000000000000nat);
    assert(0xF81AA16FDC1B81DADD94B7868E94050Anat * pow2(492) <= pow(5, 267));
    assert(pow(5, 267) < 0xF81AA16FDC1B81DADD94B7868E94050Bnat * pow2(492));
}

/// The entry for `10^268`.
proof fn lemma_floor_p268()
    ensures
        power_floor(268, 0x9B10A4E5E9913128, 0xCA7CF2B4191C8326),
{
    reveal(power_floor);
    lemma_pow5_268();
    lemma_pow2_chunk_7();
    lemma2_to64();
    lemma2_to64_rest();
    lemma_pow2_adds(448, 47);
    assert(power_of_10_exponent(268) == 827);
    assert(pow2(495) == 0x8000000000000000000000000000000000000000000000000000000000000000000000000000000000000000000000000000000000000000000000000000nat);
    assert(0x9B10A4E5E9913128CA7CF2B4191C8326nat * pow2(495) <= pow(5, 268));
    assert(pow(5, 268) < 0x9B10A4E5E9913128CA7CF2B4191C8327nat * pow2(495));
}

/// The entry for `10^269`.
proof fn lemma_floor_p269()
    ensures
        power_floor(269, 0xC1D4CE1F63F57D72, 0xFD1C2F611F63A3F0),
{
    reveal(power_floor);
    lemma_pow5_269();
    lemma_pow2_chunk_7();
    lemma2_to64();
    lemma2_to64_rest();
    lemma_pow2_adds(448, 49);
    assert(power_of_10_exponent(269) == 830);
    assert(pow2(497) == 0x20000000000000000000000000000000000000000000000000000000000000000000000000000000000000000000000000000000000000000000000000000nat);
    assert(0xC1D4CE1F63F57D72FD1C2F611F63A3F0nat * pow2(497) <= pow(5, 269));
    assert(pow(5, 269) < 0xC1D4CE1F63F57D72FD1C2F611F63A3F1nat * pow2(497));
}

/// The entry for `10^270`.
proof fn lemma_floor_p270()
    ensures
        power_floor(270, 0xF24A01A73CF2DCCF, 0xBC633B39673C8CEC),
{
    reveal(power_floor);
    lemma_pow5_270();
    lemma_pow2_chunk_7();
    lemma2_to64();
    lemma2_to64_rest();
    lemma_pow2_adds(448, 51);
    assert(power_of_10_exponent(270) == 833);
    assert(pow2(499) == 0x80000000000000000000000000000000000000000000000000000000000000000000000000000000000000000000000000000000000000000000000000000nat);
    assert(0xF24A01A73CF2DCCFBC633B39673C8CECnat * pow2(499) <= pow(5, 270));
    assert(pow(5, 270) < 0xF24A01A73CF2DCCFBC633B39673C8CEDnat * pow2(499));
}

/// The entry for `10^271`.
proof fn lemma_floor_p271()
    ensures
        power_floor(271, 0x976E41088617CA01, 0xD5BE0503E085D813),
{
    reveal(power_floor);
    lemma_pow5_271();
    lemma_pow2_chunk_7();
    lemma2_to64();
    lemma2_to64_rest();
    lemma_pow2_adds(448, 54);
    assert(power_of_10_exponent(271) == 837);
    assert(pow2(502) == 0x400000000000000000000000000000000000000000000000000000000000000000000000000000000000000000000000000000000000000000000000000000nat);
    assert(0x976E41088617CA01D5BE0503E085D813nat * pow2(502) <= pow(5, 271));
    assert(pow(5, 271) < 0x976E41088617CA01D5BE0503E085D814nat * pow2(502));
}

/// The entry for `10^272`.
proof fn lemma_floor_p272()
    ensures
        power_floor(272, 0xBD49D14AA79DBC82, 0x4B2D8644D8A74E18),
{
    reveal(power_floor);
    lemma_pow5_272();
    lemma_pow2_chunk_7();
    lemma2_to64();
    lemma2_to64_rest();
    lemma_pow2_adds(448, 56);
    assert(power_of_10_exponent(272) == 840);
    assert(pow2(504) == 0x1000000000000000000000000000000000000000000000000000000000000000000000000000000000000000000000000000000000000000000000000000000nat);
    assert(0xBD49D14AA79DBC824B2D8644D8A74E18nat * pow2(504) <= pow(5, 272));
    assert(pow(5, 272) < 0xBD49D14AA79DBC824B2D8644D8A74E19nat * pow2(504));
}

/// The entry for `10^273`.
proof fn lemma_floor_p273()
    ensures
        power_floor(273, 0xEC9C459D51852BA2, 0xDDF8E7D60ED1219E),
{
    reveal(power_floor);
    lemma_pow5_273();
    lemma_pow2_chunk_7();
    lemma2_to64();
    lemma2_to64_rest();
    lemma_pow2_adds(448, 58);
    assert(power_of_10_exponent(273) == 843);
    assert(pow2(506) == 0x4000000000000000000000000000000000000000000000000000000000000000000000000000000000000000000000000000000000000000000000000000000nat);
    assert(0xEC9C459D51852BA2DDF8E7D60ED1219Enat * pow2(506) <= pow(5, 273));
    assert(pow(5, 273) < 0xEC9C459D51852BA2DDF8E7D60ED1219Fnat * pow2(506));
}

/// The entry for `10^274`.
proof fn lemma_floor_p274()
    ensures
        power_floor(274, 0x93E1AB8252F33B45, 0xCABB90E5C942B503),
{
    reveal(power_floor);
    lemma_pow5_274();
    lemma_pow2_chunk_7();
    lemma2_to64();
    lemma2_to64_rest();
    lemma_pow2_adds(448, 61);
    assert(power_of_10_exponent(274) == 847);
    assert(pow2(509) == 0x20000000000000000000000000000000000000000000000000000000000000000000000000000000000000000000000000000000000000000000000000000000nat);
    assert(0x93E1AB8252F33B45CABB90E5C942B503nat * pow2(509) <= pow(5, 274));
    assert(pow(5, 274) < 0x93E1AB8252F33B45CABB90E5C942B504nat * pow2(509));
}

/// The entry for `10^275`.
proof fn lemma_floor_p275()
    ensures
        power_floor(275, 0xB8DA1662E7B00A17, 0x3D6A751F3B936243),
{
    reveal(power_floor);
    lemma_pow5_275();
    lemma_pow2_chunk_7();
    lemma2_to64();
    lemma2_to64_rest();
    lemma_pow2_adds(448, 63);
    assert(power_of_10_exponent(275) == 850);
    assert(pow2(511) == 0x80000000000000000000000000000000000000000000000000000000000000000000000000000000000000000000000000000000000000000000000000000000nat);
    assert(0xB8DA1662E7B00A173D6A751F3B936243nat * pow2(511) <= pow(5, 275));
    assert(pow(5, 275) < 0xB8DA1662E7B00A173D6A751F3B936244nat * pow2(511));
}

/// The entry for `10^276`.
proof fn lemma_floor_p276()
    ensures
        power_floor(276, 0xE7109BFBA19C0C9D, 0x0CC512670A783AD4),
{
    reveal(power_floor);
    lemma_pow5_276();
    lemma_pow2_chunk_8();
    lemma2_to64();
    lemma2_to64_rest();
    lemma_pow2_adds(512, 1);
    assert(power_of_10_exponent(276) == 853);
    assert(pow2(513) == 0x200000000000000000000000000000000000000000000000000000000000000000000000000000000000000000000000000000000000000000000000000000000nat);
    assert(0xE7109BFBA19C0C9D0CC512670A783AD4nat * pow2(513) <= pow(5, 276));
    assert(pow(5, 276) < 0xE7109BFBA19C0C9D0CC512670A783AD5nat * pow2(513));
}

/// The entry for `10^277`.
proof fn lemma_floor_p277()
    ensures
        power_floor(277, 0x906A617D450187E2, 0x27FB2B80668B24C5),
{
    reveal(power_floor);
    lemma_pow5_277();
    lemma_pow2_chunk_8();
    lemma2_to64();
    lemma2_to64_rest();
    lemma_pow2_adds(512, 4);
    assert(power_of_10_exponent(277) == 857);
    assert(pow2(516) == 0x1000000000000000000000000000000000000000000000000000000000000000000000000000000000000000000000000000000000000000000000000000000000nat);
    assert(0x906A617D450187E227FB2B80668B24C5nat * pow2(516) <= pow(5, 277));
    assert(pow(5, 277) < 0x906A617D450187E227FB2B80668B24C6nat * pow2(516));
}

/// The entry for `10^278`.
proof fn lemma_floor_p278()
    ensures
        power_floor(278, 0xB484F9DC9641E9DA, 0xB1F9F660802DEDF6),
{
    reveal(power_floor);
    lemma_pow5_278();
    lemma_pow2_chunk_8();
    lemma2_to64();
    lemma2_to64_rest();
    lemma_pow2_adds(512, 6);
    assert(power_of_10_exponent(278) == 860);
    assert(pow2(518) == 0x4000000000000000000000000000000000000000000000000000000000000000000000000000000000000000000000000000000000000000000000000000000000nat);
    assert(0xB484F9DC9641E9DAB1F9F660802DEDF6nat * pow2(518) <= pow(5, 278));
    assert(pow(5, 278) < 0xB484F9DC9641E9DAB1F9F660802DEDF7nat * pow2(518));
}

/// The entry for `10^279`.
proof fn lemma_floor_p279()
    ensures
        power_floor(279, 0xE1A63853BBD26451, 0x5E7873F8A0396973),
{
    reveal(power_floor);
    lemma_pow5_279();
    lemma_pow2_chunk_8();
    lemma2_to64();
    lemma2_to64_rest();
    lemma_pow2_adds(512, 8);
    assert(power_of_10_exponent(279) == 863);
    assert(pow2(520) == 0x10000000000000000000000000000000000000000000000000000000000000000000000000000000000000000000000000000000000000000000000000000000000nat);
    assert(0xE1A63853BBD264515E7873F8A0396973nat * pow2(520) <= pow(5, 279));
    assert(pow(5, 279) < 0xE1A63853BBD264515E7873F8A0396974nat * pow2(520));
}

/// The entry for `10^280`.
proof fn lemma_floor_p280()
    ensures
        power_floor(280, 0x8D07E33455637EB2, 0xDB0B487B6423E1E8),
{
    reveal(power_floor);
    lemma_pow5_280();
    lemma_pow2_chunk_8();
    lemma2_to64();
    lemma2_to64_rest();
    lemma_pow2_adds(512, 11);
    assert(power_of_10_exponent(280) == 867);
    assert(pow2(523) == 0x80000000000000000000000000000000000000000000000000000000000000000000000000000000000000000000000000000000000000000000000000000000000nat);
    assert(0x8D07E33455637EB2DB0B487B6423E1E8nat * pow2(523) <= pow(5, 280));
    assert(pow(5, 280) < 0x8D07E33455637EB2DB0B487B6423E1E9nat * pow2(523));
}

/// The entry for `10^281`.
proof fn lemma_floor_p281()
    ensures
        power_floor(281, 0xB049DC016ABC5E5F, 0x91CE1A9A3D2CDA62),
{
    reveal(power_floor);
    lemma_pow5_281();
    lemma_pow2_chunk_8();
    lemma2_to64();
    lemma2_to64_rest();
    lemma_pow2_adds(512, 13);
    assert(power_of_10_exponent(281) == 870);
    assert(pow2(525) == 0x200000000000000000000000000000000000000000000000000000000000000000000000000000000000000000000000000000000000000000000000000000000000nat);
    assert(0xB049DC016ABC5E5F91CE1A9A3D2CDA62nat * pow2(525) <= pow(5, 281));
    assert(pow(5, 281) < 0xB049DC016ABC5E5F91CE1A9A3D2CDA63nat * pow2(525));
}

/// The entry for `10^282`.
proof fn lemma_floor_p282()
    ensures
        power_floor(282, 0xDC5C5301C56B75F7, 0x7641A140CC7810FB),
{
    reveal(power_floor);
    lemma_pow5_282();
    lemma_pow2_chunk_8();
    lemma2_to64();
    lemma2_to64_rest();
    lemma_pow2_adds(512, 15);
    assert(power_of_10_exponent(282) == 873);
    assert(pow2(527) == 0x800000000000000000000000000000000000000000000000000000000000000000000000000000000000000000000000000000000000000000000000000000000000nat);
    assert(0xDC5C5301C56B75F77641A140CC7810FBnat * pow2(527) <= pow(5, 282));
    assert(pow(5, 282) < 0xDC5C5301C56B75F77641A140CC7810FCnat * pow2(527));
}

/// The entry for `10^283`.
proof fn lemma_floor_p283()
    ensures
        power_floor(283, 0x89B9B3E11B6329BA, 0xA9E904C87FCB0A9D),
{
    reveal(power_floor);
    lemma_pow5_283();
    lemma_pow2_chunk_8();
    lemma2_to64();
    lemma2_to64_rest();
    lemma_pow2_adds(512, 18);
    assert(power_of_10_exponent(283) == 877);
    assert(pow2(530) == 0x4000000000000000000000000000000000000000000000000000000000000000000000000000000000000000000000000000000000000000000000000000000000000nat);
    assert(0x89B9B3E11B6329BAA9E904C87FCB0A9Dnat * pow2(530) <= pow(5, 283));
    assert(pow(5, 283) < 0x89B9B3E11B6329BAA9E904C87FCB0A9Enat * pow2(530));
}

/// The entry for `10^284`.
proof fn lemma_floor_p284()
    ensures
        power_floor(284, 0xAC2820D9623BF429, 0x546345FA9FBDCD44),
{
    reveal(power_floor);
    lemma_pow5_284();
    lemma_pow2_chunk_8();
    lemma2_to64();
    lemma2_to64_rest();
    lemma_pow2_adds(512, 20);
    assert(power_of_10_exponent(284) == 880);
    assert(pow2(532) == 0x10000000000000000000000000000000000000000000000000000000000000000000000000000000000000000000000000000000000000000000000000000000000000nat);
    assert(0xAC2820D9623BF429546345FA9FBDCD44nat * pow2(532) <= pow(5, 284));
    assert(pow(5, 284) < 0xAC2820D9623BF429546345FA9FBDCD45nat * pow2(532));
}

/// The entry for `10^285`.
proof fn lemma_floor_p285()
    ensures
        power_floor(285, 0xD732290FBACAF133, 0xA97C177947AD4095),
{
    reveal(power_floor);
    lemma_pow5_285();
    lemma_pow2_chunk_8();
    lemma2_to64();
    lemma2_to64_rest();
    lemma_pow2_adds(512, 22);
    assert(power_of_10_exponent(285) == 883);
    assert(pow2(534) == 0x40000000000000000000000000000000000000000000000000000000000000000000000000000000000000000000000000000000000000000000000000000000000000nat);
    assert(0xD732290FBACAF133A97C177947AD4095nat * pow2(534) <= pow(5, 285));
    assert(pow(5, 285) < 0xD732290FBACAF133A97C177947AD4096nat * pow2(534));
}

/// The entry for `10^286`.
proof fn lemma_floor_p286()
    ensures
        power_floor(286, 0x867F59A9D4BED6C0, 0x49ED8EABCCCC485D),
{
    reveal(power_floor);
    lemma_pow5_286();
    lemma_pow2_chunk_8();
    lemma2_to64();
    lemma2_to64_rest();
    lemma_pow2_adds(512, 25);
    assert(power_of_10_exponent(286) == 887);
    assert(pow2(537) == 0x200000000000000000000000000000000000000000000000000000000000000000000000000000000000000000000000000000000000000000000000000000000000000nat);
    assert(0x867F59A9D4BED6C049ED8EABCCCC485Dnat * pow2(537) <= pow(5, 286));
    assert(pow(5, 286) < 0x867F59A9D4BED6C049ED8EABCCCC485Enat * pow2(537));
}

/// The entry for `10^287`.
proof fn lemma_floor_p287()
    ensures
        power_floor(287, 0xA81F301449EE8C70, 0x5C68F256BFFF5A74),
{
    reveal(power_floor);
    lemma_pow5_287();
    lemma_pow2_chunk_8();
    lemma2_to64();
    lemma2_to64_rest();
    lemma_pow2_adds(512, 27);
    assert(power_of_10_exponent(287) == 890);
    assert(pow2(539) == 0x800000000000000000000000000000000000000000000000000000000000000000000000000000000000000000000000000000000000000000000000000000000000000nat);
    assert(0xA81F301449EE8C705C68F256BFFF5A74nat * pow2(539) <= pow(5, 287));
    assert(pow(5, 287) < 0xA81F301449EE8C705C68F256BFFF5A75nat * pow2(539));
}

/// The entry for `10^288`.
proof fn lemma_floor_p288()
    ensures
        power_floor(288, 0xD226FC195C6A2F8C, 0x73832EEC6FFF3111),
{
    reveal(power_floor);
    lemma_pow5_288();
    lemma_pow2_chunk_8();
    lemma2_to64();
    lemma2_to64_rest();
    lemma_pow2_adds(512, 29);
    assert(power_of_10_exponent(288) == 893);
    assert(pow2(541) == 0x2000000000000000000000000000000000000000000000000000000000000000000000000000000000000000000000000000000000000000000000000000000000000000nat);
    assert(0xD226FC195C6A2F8C73832EEC6FFF3111nat * pow2(541) <= pow(5, 288));
    assert(pow(5, 288) < 0xD226FC195C6A2F8C73832EEC6FFF3112nat * pow2(541));
}

/// The entry for `10^289`.
proof fn lemma_floor_p289()
    ensures
        power_floor(289, 0x83585D8FD9C25DB7, 0xC831FD53C5FF7EAB),
{
    reveal(power_floor);
    lemma_pow5_289();
    lemma_pow2_chunk_8();
    lemma2_to64();
    lemma2_to64_rest();
    lemma_pow2_adds(512, 32);
    assert(power_of_10_exponent(289) == 897);
    assert(pow2(544) == 0x10000000000000000000000000000000000000000000000000000000000000000000000000000000000000000000000000000000000000000000000000000000000000000nat);
    assert(0x83585D8FD9C25DB7C831FD53C5FF7EABnat * pow2(544) <= pow(5, 289));
    assert(pow(5, 289) < 0x83585D8FD9C25DB7C831FD53C5FF7EACnat * pow2(544));
}

/// The entry for `10^290`.
proof fn lemma_floor_p290()
    ensures
        power_floor(290, 0xA42E74F3D032F525, 0xBA3E7CA8B77F5E55),
{
    reveal(power_floor);
    lemma_pow5_290();
    lemma_pow2_chunk_8();
    lemma2_to64();
    lemma2_to64_rest();
    lemma_pow2_adds(512, 34);
    assert(power_of_10_exponent(290) == 900);
    assert(pow2(546) == 0x40000000000000000000000000000000000000000000000000000000000000000000000000000000000000000000000000000000000000000000000000000000000000000nat);
    assert(0xA42E74F3D032F525BA3E7CA8B77F5E55nat * pow2(546) <= pow(5, 290));
    assert(pow(5, 290) < 0xA42E74F3D032F525BA3E7CA8B77F5E56nat * pow2(546));
}

/// The entry for `10^291`.
proof fn lemma_floor_p291()
    ensures
        power_floor(291, 0xCD3A1230C43FB26F, 0x28CE1BD2E55F35EB),
{
    reveal(power_floor);
    lemma_pow5_291();
    lemma_pow2_chunk_8();
    lemma2_to64();
    lemma2_to64_rest();
    lemma_pow2_adds(512, 36);
    assert(power_of_10_exponent(291) == 903);
    assert(pow2(548) == 0x100000000000000000000000000000000000000000000000000000000000000000000000000000000000000000000000000000000000000000000000000000000000000000nat);
    assert(0xCD3A1230C43FB26F28CE1BD2E55F35EBnat * pow2(548) <= pow(5, 291));
    assert(pow(5, 291) < 0xCD3A1230C43FB26F28CE1BD2E55F35ECnat * pow2(548));
}

/// The entry for `10^292`.
proof fn lemma_floor_p292()
    ensures
        power_floor(292, 0x80444B5E7AA7CF85, 0x7980D163CF5B81B3),
{
    reveal(power_floor);
    lemma_pow5_292();
    lemma_pow2_chunk_8();
    lemma2_to64();
    lemma2_to64_rest();
    lemma_pow2_adds(512, 39);
    assert(power_of_10_exponent(292) == 907);
    assert(pow2(551) == 0x800000000000000000000000000000000000000000000000000000000000000000000000000000000000000000000000000000000000000000000000000000000000000000nat);
    assert(0x80444B5E7AA7CF857980D163CF5B81B3nat * pow2(551) <= pow(5, 292));
    assert(pow(5, 292) < 0x80444B5E7AA7CF857980D163CF5B81B4nat * pow2(551));
}

/// The entry for `10^293`.
proof fn lemma_floor_p293()
    ensures
        power_floor(293, 0xA0555E361951C366, 0xD7E105BCC332621F),
{
    reveal(power_floor);
    lemma_pow5_293();
    lemma_pow2_chunk_8();
    lemma2_to64();
    lemma2_to64_rest();
    lemma_pow2_adds(512, 41);
    assert(power_of_10_exponent(293) == 910);
    assert(pow2(553) == 0x2000000000000000000000000000000000000000000000000000000000000000000000000000000000000000000000000000000000000000000000000000000000000000000nat);
    assert(0xA0555E361951C366D7E105BCC332621Fnat * pow2(553) <= pow(5, 293));
    assert(pow(5, 293) < 0xA0555E361951C366D7E105BCC3326220nat * pow2(553));
}

/// The entry for `10^294`.
proof fn lemma_floor_p294()
    ensures
        power_floor(294, 0xC86AB5C39FA63440, 0x8DD9472BF3FEFAA7),
{
    reveal(power_floor);
    lemma_pow5_294();
    lemma_pow2_chunk_8();
    lemma2_to64();
    lemma2_to64_rest();
    lemma_pow2_adds(512, 43);
    assert(power_of_10_exponent(294) == 913);
    assert(pow2(555) == 0x8000000000000000000000000000000000000000000000000000000000000000000000000000000000000000000000000000000000000000000000000000000000000000000nat);
    assert(0xC86AB5C39FA634408DD9472BF3FEFAA7nat * pow2(555) <= pow(5, 294));
    assert(pow(5, 294) < 0xC86AB5C39FA634408DD9472BF3FEFAA8nat * pow2(555));
}

/// The entry for `10^295`.
proof fn lemma_floor_p295()
    ensures
        power_floor(295, 0xFA856334878FC150, 0xB14F98F6F0FEB951),
{
    reveal(power_floor);
    lemma_pow5_295();
    lemma_pow2_chunk_8();
    lemma2_to64();
    lemma2_to64_rest();
    lemma_pow2_adds(512, 45);
    assert(power_of_10_exponent(295) == 916);
    assert(pow2(557) == 0x20000000000000000000000000000000000000000000000000000000000000000000000000000000000000000000000000000000000000000000000000000000000000000000nat);
    assert(0xFA856334878FC150B14F98F6F0FEB951nat * pow2(557) <= pow(5, 295));
    assert(pow(5, 295) < 0xFA856334878FC150B14F98F6F0FEB952nat * pow2(557));
}

/// The entry for `10^296`.
proof fn lemma_floor_p296()
    ensures
        power_floor(296, 0x9C935E00D4B9D8D2, 0x6ED1BF9A569F33D3),
{
    reveal(power_floor);
    lemma_pow5_296();
    lemma_pow2_chunk_8();
    lemma2_to64();
    lemma2_to64_rest();
    lemma_pow2_adds(512, 48);
    assert(power_of_10_exponent(296) == 920);
    assert(pow2(560) == 0x100000000000000000000000000000000000000000000000000000000000000000000000000000000000000000000000000000000000000000000000000000000000000000000nat);
    assert(0x9C935E00D4B9D8D26ED1BF9A569F33D3nat * pow2(560) <= pow(5, 296));
    assert(pow(5, 296) < 0x9C935E00D4B9D8D26ED1BF9A569F33D4nat * pow2(560));
}

/// The entry for `10^297`.
proof fn lemma_floor_p297()
    ensures
        power_floor(297, 0xC3B8358109E84F07, 0x0A862F80EC4700C8),
{
    reveal(power_floor);
    lemma_pow5_297();
    lemma_pow2_chunk_8();
    lemma2_to64();
    lemma2_to64_rest();
    lemma_pow2_adds(512, 50);
    assert(power_of_10_exponent(297) == 923);
    assert(pow2(562) == 0x400000000000000000000000000000000000000000000000000000000000000000000000000000000000000000000000000000000000000000000000000000000000000000000nat);
    assert(0xC3B8358109E84F070A862F80EC4700C8nat * pow2(562) <= pow(5, 297));
    assert(pow(5, 297) < 0xC3B8358109E84F070A862F80EC4700C9nat * pow2(562));
}

/// The entry for `10^298`.
proof fn lemma_floor_p298()
    ensures
        power_floor(298, 0xF4A642E14C6262C8, 0xCD27BB612758C0FA),
{
    reveal(power_floor);
    lemma_pow5_298();
    lemma_pow2_chunk_8();
    lemma2_to64();
    lemma2_to64_rest();
    lemma_pow2_adds(512, 52);
    assert(power_of_10_exponent(298) == 926);
    assert(pow2(564) == 0x1000000000000000000000000000000000000000000000000000000000000000000000000000000000000000000000000000000000000000000000000000000000000000000000nat);
    assert(0xF4A642E14C6262C8CD27BB612758C0FAnat * pow2(564) <= pow(5, 298));
    assert(pow(5, 298) < 0xF4A642E14C6262C8CD27BB612758C0FBnat * pow2(564));
}

/// The entry for `10^299`.
proof fn lemma_floor_p299()
    ensures
        power_floor(299, 0x98E7E9CCCFBD7DBD, 0x8038D51CB897789C),
{
    reveal(power_floor);
    lemma_pow5_299();
    lemma_pow2_chunk_8();
    lemma2_to64();
    lemma2_to64_rest();
    lemma_pow2_adds(512, 55);
    assert(power_of_10_exponent(299) == 930);
    assert(pow2(567) == 0x8000000000000000000000000000000000000000000000000000000000000000000000000000000000000000000000000000000000000000000000000000000000000000000000nat);
    assert(0x98E7E9CCCFBD7DBD8038D51CB897789Cnat * pow2(567) <= pow(5, 299));
    assert(pow(5, 299) < 0x98E7E9CCCFBD7DBD8038D51CB897789Dnat * pow2(567));
}

/// The entry for `10^300`.
proof fn lemma_floor_p300()
    ensures
        power_floor(300, 0xBF21E44003ACDD2C, 0xE0470A63E6BD56C3),
{
    reveal(power_floor);
    lemma_pow5_300();
    lemma_pow2_chunk_8();
    lemma2_to64();
    lemma2_to64_rest();
    lemma_pow2_adds(512, 57);
    assert(power_of_10_exponent(300) == 933);
    assert(pow2(569) == 0x20000000000000000000000000000000000000000000000000000000000000000000000000000000000000000000000000000000000000000000000000000000000000000000000nat);
    assert(0xBF21E44003ACDD2CE0470A63E6BD56C3nat * pow2(569) <= pow(5, 300));
    assert(pow(5, 300) < 0xBF21E44003ACDD2CE0470A63E6BD56C4nat * pow2(569));
}

/// The entry for `10^301`.
proof fn lemma_floor_p301()
    ensures
        power_floor(301, 0xEEEA5D5004981478, 0x1858CCFCE06CAC74),
{
    reveal(power_floor);
    lemma_pow5_301();
    lemma_pow2_chunk_8();
    lemma2_to64();
    lemma2_to64_rest();
    lemma_pow2_adds(512, 59);
    assert(power_of_10_exponent(301) == 936);
    assert(pow2(571) == 0x80000000000000000000000000000000000000000000000000000000000000000000000000000000000000000000000000000000000000000000000000000000000000000000000nat);
    assert(0xEEEA5D50049814781858CCFCE06CAC74nat * pow2(571) <= pow(5, 301));
    assert(pow(5, 301) < 0xEEEA5D50049814781858CCFCE06CAC75nat * pow2(571));
}

/// The entry for `10^302`.
proof fn lemma_floor_p302()
    ensures
        power_floor(302, 0x95527A5202DF0CCB, 0x0F37801E0C43EBC8),
{
    reveal(power_floor);
    lemma_pow5_302();
    lemma_pow2_chunk_8();
    lemma2_to64();
    lemma2_to64_rest();
    lemma_pow2_adds(512, 62);
    assert(power_of_10_exponent(302) == 940);
    assert(pow2(574) == 0x400000000000000000000000000000000000000000000000000000000000000000000000000000000000000000000000000000000000000000000000000000000000000000000000nat);
    assert(0x95527A5202DF0CCB0F37801E0C43EBC8nat * pow2(574) <= pow(5, 302));
    assert(pow(5, 302) < 0x95527A5202DF0CCB0F37801E0C43EBC9nat * pow2(574));
}

/// The entry for `10^303`.
proof fn lemma_floor_p303()
    ensures
        power_floor(303, 0xBAA718E68396CFFD, 0xD30560258F54E6BA),
{
    reveal(power_floor);
    lemma_pow5_303();
    lemma_pow2_chunk_9();
    lemma2_to64();
    lemma2_to64_rest();
    lemma_pow2_adds(576, 0);
    assert(power_of_10_exponent(303) == 943);
    assert(pow2(576) == 0x1000000000000000000000000000000000000000000000000000000000000000000000000000000000000000000000000000000000000000000000000000000000000000000000000nat);
    assert(0xBAA718E68396CFFDD30560258F54E6BAnat * pow2(576) <= pow(5, 303));
    assert(pow(5, 303) < 0xBAA718E68396CFFDD30560258F54E6BBnat * pow2(576));
}

/// The entry for `10^304`.
proof fn lemma_floor_p304()
    ensures
        power_floor(304, 0xE950DF20247C83FD, 0x47C6B82EF32A2069),
{
    reveal(power_floor);
    lemma_pow5_304();
    lemma_pow2_chunk_9();
    lemma2_to64();
    lemma2_to64_rest();
    lemma_pow2_adds(576, 2);
    assert(power_of_10_exponent(304) == 946);
    assert(pow2(578) == 0x4000000000000000000000000000000000000000000000000000000000000000000000000000000000000000000000000000000000000000000000000000000000000000000000000nat);
    assert(0xE950DF20247C83FD47C6B82EF32A2069nat * pow2(578) <= pow(5, 304));
    assert(pow(5, 304) < 0xE950DF20247C83FD47C6B82EF32A206Anat * pow2(578));
}

/// The entry for `10^305`.
proof fn lemma_floor_p305()
    ensures
        power_floor(305, 0x91D28B7416CDD27E, 0x4CDC331D57FA5441),
{
    reveal(power_floor);
    lemma_pow5_305();
    lemma_pow2_chunk_9();
    lemma2_to64();
    lemma2_to64_rest();
    lemma_pow2_adds(576, 5);
    assert(power_of_10_exponent(305) == 950);
    assert(pow2(581) == 0x20000000000000000000000000000000000000000000000000000000000000000000000000000000000000000000000000000000000000000000000000000000000000000000000000nat);
    assert(0x91D28B7416CDD27E4CDC331D57FA5441nat * pow2(581) <= pow(5, 305));
    assert(pow(5, 305) < 0x91D28B7416CDD27E4CDC331D57FA5442nat * pow2(581));
}

/// The entry for `10^306`.
proof fn lemma_floor_p306()
    ensures
        power_floor(306, 0xB6472E511C81471D, 0xE0133FE4ADF8E952),
{
    reveal(power_floor);
    lemma_pow5_306();
    lemma_pow2_chunk_9();
    lemma2_to64();
    lemma2_to64_rest();
    lemma_pow2_adds(576, 7);
    assert(power_of_10_exponent(306) == 953);
    assert(pow2(583) == 0x80000000000000000000000000000000000000000000000000000000000000000000000000000000000000000000000000000000000000000000000000000000000000000000000000nat);
    assert(0xB6472E511C81471DE0133FE4ADF8E952nat * pow2(583) <= pow(5, 306));
    assert(pow(5, 306) < 0xB6472E511C81471DE0133FE4ADF8E953nat * pow2(583));
}

/// The entry for `10^307`.
proof fn lemma_floor_p307()
    ensures
        power_floor(307, 0xE3D8F9E563A198E5, 0x58180FDDD97723A6),
{
    reveal(power_floor);
    lemma_pow5_307();
    lemma_pow2_chunk_9();
    lemma2_to64();
    lemma2_to64_rest();
    lemma_pow2_adds(576, 9);
    assert(power_of_10_exponent(307) == 956);
    assert(pow2(585) == 0x200000000000000000000000000000000000000000000000000000000000000000000000000000000000000000000000000000000000000000000000000000000000000000000000000nat);
    assert(0xE3D8F9E563A198E558180FDDD97723A6nat * pow2(585) <= pow(5, 307));
    assert(pow(5, 307) < 0xE3D8F9E563A198E558180FDDD97723A7nat * pow2(585));
}

/// The entry for `10^308`.
proof fn lemma_floor_p308()
    ensures
        power_floor(308, 0x8E679C2F5E44FF8F, 0x570F09EAA7EA7648),
{
    reveal(power_floor);
    lemma_pow5_308();
    lemma_pow2_chunk_9();
    lemma2_to64();
    lemma2_to64_rest();
    lemma_pow2_adds(576, 12);
    assert(power_of_10_exponent(308) == 960);
    assert(pow2(588) == 0x1000000000000000000000000000000000000000000000000000000000000000000000000000000000000000000000000000000000000000000000000000000000000000000000000000nat);
    assert(0x8E679C2F5E44FF8F570F09EAA7EA7648nat * pow2(588) <= pow(5, 308));
    assert(pow(5, 308) < 0x8E679C2F5E44FF8F570F09EAA7EA7649nat * pow2(588));
}

/// The entries of one part of the table.
proof fn lemma_floor_range_0(exponent: int)
    requires
        -342 <= exponent <= -312,
    ensures
        power_is_floor(exponent),
{
    reveal(power_of_10);
    if exponent == -342 {
        lemma_floor_m342();
    } else if exponent == -341 {
        lemma_floor_m341();
    } else if exponent == -340 {
        lemma_floor_m340();
    } else if exponent == -339 {
        lemma_floor_m339();
    } else if exponent == -338 {
        lemma_floor_m338();
    } else if exponent == -337 {
        lemma_floor_m337();
    } else if exponent == -336 {
        lemma_floor_m336();
    } else if exponent == -335 {
        lemma_floor_m335();
    } else if exponent == -334 {
        lemma_floor_m334();
    } else if exponent == -333 {
        lemma_floor_m333();
    } else if exponent == -332 {
        lemma_floor_m332();
    } else if exponent == -331 {
        lemma_floor_m331();
    } else if exponent == -330 {
        lemma_floor_m330();
    } else if exponent == -329 {
        lemma_floor_m329();
    } else if exponent == -328 {
        lemma_floor_m328();
    } else if exponent == -327 {
        lemma_floor_m327();
    } else if exponent == -326 {
        lemma_floor_m326();
    } else if exponent == -325 {
        lemma_floor_m325();
    } else if exponent == -324 {
        lemma_floor_m324();
    } else if exponent == -323 {
        lemma_floor_m323();
    } else if exponent == -322 {
        lemma_floor_m322();
    } else if exponent == -321 {
        lemma_floor_m321();
    } else if exponent == -320 {
        lemma_floor_m320();
    } else if exponent == -319 {
        lemma_floor_m319();
    } else if exponent == -318 {
        lemma_floor_m318();
    } else if exponent == -317 {
        lemma_floor_m317();
    } else if exponent == -316 {
        lemma_floor_m316();
    } else if exponent == -315 {
        lemma_floor_m315();
    } else if exponent == -314 {
        lemma_floor_m314();
    } else if exponent == -313 {
        lemma_floor_m313();
    } else if exponent == -312 {
        lemma_floor_m312();
    }
}

/// The entries of one part of the table.
proof fn lemma_floor_range_1(exponent: int)
    requires
        -311 <= exponent <= -281,
    ensures
        power_is_floor(exponent),
{
    reveal(power_of_10);
    if exponent == -311 {
        lemma_floor_m311();
    } else if exponent == -310 {
        lemma_floor_m310();
    } else if exponent == -309 {
        lemma_floor_m309();
    } else if exponent == -308 {
        lemma_floor_m308();
    } else if exponent == -307 {
        lemma_floor_m307();
    } else if exponent == -306 {
        lemma_floor_m306();
    } else if exponent == -305 {
        lemma_floor_m305();
    } else if exponent == -304 {
        lemma_floor_m304();
    } else if exponent == -303 {
        lemma_floor_m303();
    } else if exponent == -302 {
        lemma_floor_m302();
    } else if exponent == -301 {
        lemma_floor_m301();
    } else if exponent == -300 {
        lemma_floor_m300();
    } else if exponent == -299 {
        lemma_floor_m299();
    } else if exponent == -298 {
        lemma_floor_m298();
    } else if exponent == -297 {
        lemma_floor_m297();
    } else if exponent == -296 {
        lemma_floor_m296();
    } else if exponent == -295 {
        lemma_floor_m295();
    } else if exponent == -294 {
        lemma_floor_m294();
    } else if exponent == -293 {
        lemma_floor_m293();
    } else if exponent == -292 {
        lemma_floor_m292();
    } else if exponent == -291 {
        lemma_floor_m291();
    } else if exponent == -290 {
        lemma_floor_m290();
    } else if exponent == -289 {
        lemma_floor_m289();
    } else if exponent == -288 {
        lemma_floor_m288();
    } else if exponent == -287 {
        lemma_floor_m287();
    } else if exponent == -286 {
        lemma_floor_m286();
    } else if exponent == -285 {
        lemma_floor_m285();
    } else if exponent == -284 {
        lemma_floor_m284();
    } else if exponent == -283 {
        lemma_floor_m283();
    } else if exponent == -282 {
        lemma_floor_m282();
    } else if exponent == -281 {
        lemma_floor_m281();
    }
}

/// The entries of one part of the table.
proof fn lemma_floor_range_2(exponent: int)
    requires
        -280 <= exponent <= -250,
    ensures
        power_is_floor(exponent),
{
    reveal(power_of_10);
    if exponent == -280 {
        lemma_floor_m280();
    } else if exponent == -279 {
        lemma_floor_m279();
    } else if exponent == -278 {
        lemma_floor_m278();
    } else if exponent == -277 {
        lemma_floor_m277();
    } else if exponent == -276 {
        lemma_floor_m276();
    } else if exponent == -275 {
        lemma_floor_m275();
    } else if exponent == -274 {
        lemma_floor_m274();
    } else if exponent == -273 {
        lemma_floor_m273();
    } else if exponent == -272 {
        lemma_floor_m272();
    } else if exponent == -271 {
        lemma_floor_m271();
    } else if exponent == -270 {
        lemma_floor_m270();
    } else if exponent == -269 {
        lemma_floor_m269();
    } else if exponent == -268 {
        lemma_floor_m268();
    } else if exponent == -267 {
        lemma_floor_m267();
    } else if exponent == -266 {
        lemma_floor_m266();
    } else if exponent == -265 {
        lemma_floor_m265();
    } else if exponent == -264 {
        lemma_floor_m264();
    } else if exponent == -263 {
        lemma_floor_m263();
    } else if exponent == -262 {
        lemma_floor_m262();
    } else if exponent == -261 {
        lemma_floor_m261();
    } else if exponent == -260 {
        lemma_floor_m260();
    } else if exponent == -259 {
        lemma_floor_m259();
    } else if exponent == -258 {
        lemma_floor_m258();
    } else if exponent == -257 {
        lemma_floor_m257();
    } else if exponent == -256 {
        lemma_floor_m256();
    } else if exponent == -255 {
        lemma_floor_m255();
    } else if exponent == -254 {
        lemma_floor_m254();
    } else if exponent == -253 {
        lemma_floor_m253();
    } else if exponent == -252 {
        lemma_floor_m252();
    } else if exponent == -251 {
        lemma_floor_m251();
    } else if exponent == -250 {
        lemma_floor_m250();
    }
}

/// The entries of one part of the table.
proof fn lemma_floor_range_3(exponent: int)
    requires
        -249 <= exponent <= -219,
    ensures
        power_is_floor(exponent),
{
    reveal(power_of_10);
    if exponent == -249 {
        lemma_floor_m249();
    } else if exponent == -248 {
        lemma_floor_m248();
    } else if exponent == -247 {
        lemma_floor_m247();
    } else if exponent == -246 {
        lemma_floor_m246();
    } else if exponent == -245 {
        lemma_floor_m245();
    } else if exponent == -244 {
        lemma_floor_m244();
    } else if exponent == -243 {
        lemma_floor_m243();
    } else if exponent == -242 {
        lemma_floor_m242();
    } else if exponent == -241 {
        lemma_floor_m241();
    } else if exponent == -240 {
        lemma_floor_m240();
    } else if exponent == -239 {
        lemma_floor_m239();
    } else if exponent == -238 {
        lemma_floor_m238();
    } else if exponent == -237 {
        lemma_floor_m237();
    } else if exponent == -236 {
        lemma_floor_m236();
    } else if exponent == -235 {
        lemma_floor_m235();
    } else if exponent == -234 {
        lemma_floor_m234();
    } else if exponent == -233 {
        lemma_floor_m233();
    } else if exponent == -232 {
        lemma_floor_m232();
    } else if exponent == -231 {
        lemma_floor_m231();
    } else if exponent == -230 {
        lemma_floor_m230();
    } else if exponent == -229 {
        lemma_floor_m229();
    } else if exponent == -228 {
        lemma_floor_m228();
    } else if exponent == -227 {
        lemma_floor_m227();
    } else if exponent == -226 {
        lemma_floor_m226();
    } else if exponent == -225 {
        lemma_floor_m225();
    } else if exponent == -224 {
        lemma_floor_m224();
    } else if exponent == -223 {
        lemma_floor_m223();
    } else if exponent == -222 {
        lemma_floor_m222();
    } else if exponent == -221 {
        lemma_floor_m221();
    } else if exponent == -220 {
        lemma_floor_m220();
    } else if exponent == -219 {
        lemma_floor_m219();
    }
}

/// The entries of one part of the table.
proof fn lemma_floor_range_4(exponent: int)
    requires
        -218 <= exponent <= -188,
    ensures
        power_is_floor(exponent),
{
    reveal(power_of_10);
    if exponent == -218 {
        lemma_floor_m218();
    } else if exponent == -217 {
        lemma_floor_m217();
    } else if exponent == -216 {
        lemma_floor_m216();
    } else if exponent == -215 {
        lemma_floor_m215();
    } else if exponent == -214 {
        lemma_floor_m214();
    } else if exponent == -213 {
        lemma_floor_m213();
    } else if exponent == -212 {
        lemma_floor_m212();
    } else if exponent == -211 {
        lemma_floor_m211();
    } else if exponent == -210 {
        lemma_floor_m210();
    } else if exponent == -209 {
        lemma_floor_m209();
    } else if exponent == -208 {
        lemma_floor_m208();
    } else if exponent == -207 {
        lemma_floor_m207();
    } else if exponent == -206 {
        lemma_floor_m206();
    } else if exponent == -205 {
        lemma_floor_m205();
    } else if exponent == -204 {
        lemma_floor_m204();
    } else if exponent == -203 {
        lemma_floor_m203();
    } else if exponent == -202 {
        lemma_floor_m202();
    } else if exponent == -201 {
        lemma_floor_m201();
    } else if exponent == -200 {
        lemma_floor_m200();
    } else if exponent == -199 {
        lemma_floor_m199();
    } else if exponent == -198 {
        lemma_floor_m198();
    } else if exponent == -197 {
        lemma_floor_m197();
    } else if exponent == -196 {
        lemma_floor_m196();
    } else if exponent == -195 {
        lemma_floor_m195();
    } else if exponent == -194 {
        lemma_floor_m194();
    } else if exponent == -193 {
        lemma_floor_m193();
    } else if exponent == -192 {
        lemma_floor_m192();
    } else if exponent == -191 {
        lemma_floor_m191();
    } else if exponent == -190 {
        lemma_floor_m190();
    } else if exponent == -189 {
        lemma_floor_m189();
    } else if exponent == -188 {
        lemma_floor_m188();
    }
}

/// The entries of one part of the table.
proof fn lemma_floor_range_5(exponent: int)
    requires
        -187 <= exponent <= -157,
    ensures
        power_is_floor(exponent),
{
    reveal(power_of_10);
    if exponent == -187 {
        lemma_floor_m187();
    } else if exponent == -186 {
        lemma_floor_m186();
    } else if exponent == -185 {
        lemma_floor_m185();
    } else if exponent == -184 {
        lemma_floor_m184();
    } else if exponent == -183 {
        lemma_floor_m183();
    } else if exponent == -182 {
        lemma_floor_m182();
    } else if exponent == -181 {
        lemma_floor_m181();
    } else if exponent == -180 {
        lemma_floor_m180();
    } else if exponent == -179 {
        lemma_floor_m179();
    } else if exponent == -178 {
        lemma_floor_m178();
    } else if exponent == -177 {
        lemma_floor_m177();
    } else if exponent == -176 {
        lemma_floor_m176();
    } else if exponent == -175 {
        lemma_floor_m175();
    } else if exponent == -174 {
        lemma_floor_m174();
    } else if exponent == -173 {
        lemma_floor_m173();
    } else if exponent == -172 {
        lemma_floor_m172();
    } else if exponent == -171 {
        lemma_floor_m171();
    } else if exponent == -170 {
        lemma_floor_m170();
    } else if exponent == -169 {
        lemma_floor_m169();
    } else if exponent == -168 {
        lemma_floor_m168();
    } else if exponent == -167 {
        lemma_floor_m167();
    } else if exponent == -166 {
        lemma_floor_m166();
    } else if exponent == -165 {
        lemma_floor_m165();
    } else if exponent == -164 {
        lemma_floor_m164();
    } else if exponent == -163 {
        lemma_floor_m163();
    } else if exponent == -162 {
        lemma_floor_m162();
    } else if exponent == -161 {
        lemma_floor_m161();
    } else if exponent == -160 {
        lemma_floor_m160();
    } else if exponent == -159 {
        lemma_floor_m159();
    } else if exponent == -158 {
        lemma_floor_m158();
    } else if exponent == -157 {
        lemma_floor_m157();
    }
}

/// The entries of one part of the table.
proof fn lemma_floor_range_6(exponent: int)
    requires
        -156 <= exponent <= -126,
    ensures
        power_is_floor(exponent),
{
    reveal(power_of_10);
    if exponent == -156 {
        lemma_floor_m156();
    } else if exponent == -155 {
        lemma_floor_m155();
    } else if exponent == -154 {
        lemma_floor_m154();
    } else if exponent == -153 {
        lemma_floor_m153();
    } else if exponent == -152 {
        lemma_floor_m152();
    } else if exponent == -151 {
        lemma_floor_m151();
    } else if exponent == -150 {
        lemma_floor_m150();
    } else if exponent == -149 {
        lemma_floor_m149();
    } else if exponent == -148 {
        lemma_floor_m148();
    } else if exponent == -147 {
        lemma_floor_m147();
    } else if exponent == -146 {
        lemma_floor_m146();
    } else if exponent == -145 {
        lemma_floor_m145();
    } else if exponent == -144 {
        lemma_floor_m144();
    } else if exponent == -143 {
        lemma_floor_m143();
    } else if exponent == -142 {
        lemma_floor_m142();
    } else if exponent == -141 {
        lemma_floor_m141();
    } else if exponent == -140 {
        lemma_floor_m140();
    } else if exponent == -139 {
        lemma_floor_m139();
    } else if exponent == -138 {
        lemma_floor_m138();
    } else if exponent == -137 {
        lemma_floor_m137();
    } else if exponent == -136 {
        lemma_floor_m136();
    } else if exponent == -135 {
        lemma_floor_m135();
    } else if exponent == -134 {
        lemma_floor_m134();
    } else if exponent == -133 {
        lemma_floor_m133();
    } else if exponent == -132 {
        lemma_floor_m132();
    } else if exponent == -131 {
        lemma_floor_m131();
    } else if exponent == -130 {
        lemma_floor_m130();
    } else if exponent == -129 {
        lemma_floor_m129();
    } else if exponent == -128 {
        lemma_floor_m128();
    } else if exponent == -127 {
        lemma_floor_m127();
    } else if exponent == -126 {
        lemma_floor_m126();
    }
}

/// The entries of one part of the table.
proof fn lemma_floor_range_7(exponent: int)
    requires
        -125 <= exponent <= -95,
    ensures
        power_is_floor(exponent),
{
    reveal(power_of_10);
    if exponent == -125 {
        lemma_floor_m125();
    } else if exponent == -124 {
        lemma_floor_m124();
    } else if exponent == -123 {
        lemma_floor_m123();
    } else if exponent == -122 {
        lemma_floor_m122();
    } else if exponent == -121 {
        lemma_floor_m121();
    } else if exponent == -120 {
        lemma_floor_m120();
    } else if exponent == -119 {
        lemma_floor_m119();
    } else if exponent == -118 {
        lemma_floor_m118();
    } else if exponent == -117 {
        lemma_floor_m117();
    } else if exponent == -116 {
        lemma_floor_m116();
    } else if exponent == -115 {
        lemma_floor_m115();
    } else if exponent == -114 {
        lemma_floor_m114();
    } else if exponent == -113 {
        lemma_floor_m113();
    } else if exponent == -112 {
        lemma_floor_m112();
    } else if exponent == -111 {
        lemma_floor_m111();
    } else if exponent == -110 {
        lemma_floor_m110();
    } else if exponent == -109 {
        lemma_floor_m109();
    } else if exponent == -108 {
        lemma_floor_m108();
    } else if exponent == -107 {
        lemma_floor_m107();
    } else if exponent == -106 {
        lemma_floor_m106();
    } else if exponent == -105 {
        lemma_floor_m105();
    } else if exponent == -104 {
        lemma_floor_m104();
    } else if exponent == -103 {
        lemma_floor_m103();
    } else if exponent == -102 {
        lemma_floor_m102();
    } else if exponent == -101 {
        lemma_floor_m101();
    } else if exponent == -100 {
        lemma_floor_m100();
    } else if exponent == -99 {
        lemma_floor_m99();
    } else if exponent == -98 {
        lemma_floor_m98();
    } else if exponent == -97 {
        lemma_floor_m97();
    } else if exponent == -96 {
        lemma_floor_m96();
    } else if exponent == -95 {
        lemma_floor_m95();
    }
}

/// The entries of one part of the table.
proof fn lemma_floor_range_8(exponent: int)
    requires
        -94 <= exponent <= -64,
    ensures
        power_is_floor(exponent),
{
    reveal(power_of_10);
    if exponent == -94 {
        lemma_floor_m94();
    } else if exponent == -93 {
        lemma_floor_m93();
    } else if exponent == -92 {
        lemma_floor_m92();
    } else if exponent == -91 {
        lemma_floor_m91();
    } else if exponent == -90 {
        lemma_floor_m90();
    } else if exponent == -89 {
        lemma_floor_m89();
    } else if exponent == -88 {
        lemma_floor_m88();
    } else if exponent == -87 {
        lemma_floor_m87();
    } else if exponent == -86 {
        lemma_floor_m86();
    } else if exponent == -85 {
        lemma_floor_m85();
    } else if exponent == -84 {
        lemma_floor_m84();
    } else if exponent == -83 {
        lemma_floor_m83();
    } else if exponent == -82 {
        lemma_floor_m82();
    } else if exponent == -81 {
        lemma_floor_m81();
    } else if exponent == -80 {
        lemma_floor_m80();
    } else if exponent == -79 {
        lemma_floor_m79();
    } else if exponent == -78 {
        lemma_floor_m78();
    } else if exponent == -77 {
        lemma_floor_m77();
    } else if exponent == -76 {
        lemma_floor_m76();
    } else if exponent == -75 {
        lemma_floor_m75();
    } else if exponent == -74 {
        lemma_floor_m74();
    } else if exponent == -73 {
        lemma_floor_m73();
    } else if exponent == -72 {
        lemma_floor_m72();
    } else if exponent == -71 {
        lemma_floor_m71();
    } else if exponent == -70 {
        lemma_floor_m70();
    } else if exponent == -69 {
        lemma_floor_m69();
    } else if exponent == -68 {
        lemma_floor_m68();
    } else if exponent == -67 {
        lemma_floor_m67();
    } else if exponent == -66 {
        lemma_floor_m66();
    } else if exponent == -65 {
        lemma_floor_m65();
    } else if exponent == -64 {
        lemma_floor_m64();
    }
}

/// The entries of one part of the table.
proof fn lemma_floor_range_9(exponent: int)
    requires
        -63 <= exponent <= -33,
    ensures
        power_is_floor(exponent),
{
    reveal(power_of_10);
    if exponent == -63 {
        lemma_floor_m63();
    } else if exponent == -62 {
        lemma_floor_m62();
    } else if exponent == -61 {
        lemma_floor_m61();
    } else if exponent == -60 {
        lemma_floor_m60();
    } else if exponent == -59 {
        lemma_floor_m59();
    } else if exponent == -58 {
        lemma_floor_m58();
    } else if exponent == -57 {
        lemma_floor_m57();
    } else if exponent == -56 {
        lemma_floor_m56();
    } else if exponent == -55 {
        lemma_floor_m55();
    } else if exponent == -54 {
        lemma_floor_m54();
    } else if exponent == -53 {
        lemma_floor_m53();
    } else if exponent == -52 {
        lemma_floor_m52();
    } else if exponent == -51 {
        lemma_floor_m51();
    } else if exponent == -50 {
        lemma_floor_m50();
    } else if exponent == -49 {
        lemma_floor_m49();
    } else if exponent == -48 {
        lemma_floor_m48();
    } else if exponent == -47 {
        lemma_floor_m47();
    } else if exponent == -46 {
        lemma_floor_m46();
    } else if exponent == -45 {
        lemma_floor_m45();
    } else if exponent == -44 {
        lemma_floor_m44();
    } else if exponent == -43 {
        lemma_floor_m43();
    } else if exponent == -42 {
        lemma_floor_m42();
    } else if exponent == -41 {
        lemma_floor_m41();
    } else if exponent == -40 {
        lemma_floor_m40();
    } else if exponent == -39 {
        lemma_floor_m39();
    } else if exponent == -38 {
        lemma_floor_m38();
    } else if exponent == -37 {
        lemma_floor_m37();
    } else if exponent == -36 {
        lemma_floor_m36();
    } else if exponent == -35 {
        lemma_floor_m35();
    } else if exponent == -34 {
        lemma_floor_m34();
    } else if exponent == -33 {
        lemma_floor_m33();
    }
}

/// The entries of one part of the table.
proof fn lemma_floor_range_10(exponent: int)
    requires
        -32 <= exponent <= -2,
    ensures
        power_is_floor(exponent),
{
    reveal(power_of_10);
    if exponent == -32 {
        lemma_floor_m32();
    } else if exponent == -31 {
        lemma_floor_m31();
    } else if exponent == -30 {
        lemma_floor_m30();
    } else if exponent == -29 {
        lemma_floor_m29();
    } else if exponent == -28 {
        lemma_floor_m28();
    } else if exponent == -27 {
        lemma_floor_m27();
    } else if exponent == -26 {
        lemma_floor_m26();
    } else if exponent == -25 {
        lemma_floor_m25();
    } else if exponent == -24 {
        lemma_floor_m24();
    } else if exponent == -23 {
        lemma_floor_m23();
    } else if exponent == -22 {
        lemma_floor_m22();
    } else if exponent == -21 {
        lemma_floor_m21();
    } else if exponent == -20 {
        lemma_floor_m20();
    } else if exponent == -19 {
        lemma_floor_m19();
    } else if exponent == -18 {
        lemma_floor_m18();
    } else if exponent == -17 {
        lemma_floor_m17();
    } else if exponent == -16 {
        lemma_floor_m16();
    } else if exponent == -15 {
        lemma_floor_m15();
    } else if exponent == -14 {
        lemma_floor_m14();
    } else if exponent == -13 {
        lemma_floor_m13();
    } else if exponent == -12 {
        lemma_floor_m12();
    } else if exponent == -11 {
        lemma_floor_m11();
    } else if exponent == -10 {
        lemma_floor_m10();
    } else if exponent == -9 {
        lemma_floor_m9();
    } else if exponent == -8 {
        lemma_floor_m8();
    } else if exponent == -7 {
        lemma_floor_m7();
    } else if exponent == -6 {
        lemma_floor_m6();
    } else if exponent == -5 {
        lemma_floor_m5();
    } else if exponent == -4 {
        lemma_floor_m4();
    } else if exponent == -3 {
        lemma_floor_m3();
    } else if exponent == -2 {
        lemma_floor_m2();
    }
}

/// The entries of one part of the table.
proof fn lemma_floor_range_11(exponent: int)
    requires
        -1 <= exponent <= 29,
    ensures
        power_is_floor(exponent),
{
    reveal(power_of_10);
    if exponent == -1 {
        lemma_floor_m1();
    } else if exponent == 0 {
        lemma_floor_p0();
    } else if exponent == 1 {
        lemma_floor_p1();
    } else if exponent == 2 {
        lemma_floor_p2();
    } else if exponent == 3 {
        lemma_floor_p3();
    } else if exponent == 4 {
        lemma_floor_p4();
    } else if exponent == 5 {
        lemma_floor_p5();
    } else if exponent == 6 {
        lemma_floor_p6();
    } else if exponent == 7 {
        lemma_floor_p7();
    } else if exponent == 8 {
        lemma_floor_p8();
    } else if exponent == 9 {
        lemma_floor_p9();
    } else if exponent == 10 {
        lemma_floor_p10();
    } else if exponent == 11 {
        lemma_floor_p11();
    } else if exponent == 12 {
        lemma_floor_p12();
    } else if exponent == 13 {
        lemma_floor_p13();
    } else if exponent == 14 {
        lemma_floor_p14();
    } else if exponent == 15 {
        lemma_floor_p15();
    } else if exponent == 16 {
        lemma_floor_p16();
    } else if exponent == 17 {
        lemma_floor_p17();
    } else if exponent == 18 {
        lemma_floor_p18();
    } else if exponent == 19 {
        lemma_floor_p19();
    } else if exponent == 20 {
        lemma_floor_p20();
    } else if exponent == 21 {
        lemma_floor_p21();
    } else if exponent == 22 {
        lemma_floor_p22();
    } else if exponent == 23 {
        lemma_floor_p23();
    } else if exponent == 24 {
        lemma_floor_p24();
    } else if exponent == 25 {
        lemma_floor_p25();
    } else if exponent == 26 {
        lemma_floor_p26();
    } else if exponent == 27 {
        lemma_floor_p27();
    } else if exponent == 28 {
        lemma_floor_p28();
    } else if exponent == 29 {
        lemma_floor_p29();
    }
}

/// The entries of one part of the table.
proof fn lemma_floor_range_12(exponent: int)
    requires
        30 <= exponent <= 60,
    ensures
        power_is_floor(exponent),
{
    reveal(power_of_10);
    if exponent == 30 {
        lemma_floor_p30();
    } else if exponent == 31 {
        lemma_floor_p31();
    } else if exponent == 32 {
        lemma_floor_p32();
    } else if exponent == 33 {
        lemma_floor_p33();
    } else if exponent == 34 {
        lemma_floor_p34();
    } else if exponent == 35 {
        lemma_floor_p35();
    } else if exponent == 36 {
        lemma_floor_p36();
    } else if exponent == 37 {
        lemma_floor_p37();
    } else if exponent == 38 {
        lemma_floor_p38();
    } else if exponent == 39 {
        lemma_floor_p39();
    } else if exponent == 40 {
        lemma_floor_p40();
    } else if exponent == 41 {
        lemma_floor_p41();
    } else if exponent == 42 {
        lemma_floor_p42();
    } else if exponent == 43 {
        lemma_floor_p43();
    } else if exponent == 44 {
        lemma_floor_p44();
    } else if exponent == 45 {
        lemma_floor_p45();
    } else if exponent == 46 {
        lemma_floor_p46();
    } else if exponent == 47 {
        lemma_floor_p47();
    } else if exponent == 48 {
        lemma_floor_p48();
    } else if exponent == 49 {
        lemma_floor_p49();
    } else if exponent == 50 {
        lemma_floor_p50();
    } else if exponent == 51 {
        lemma_floor_p51();
    } else if exponent == 52 {
        lemma_floor_p52();
    } else if exponent == 53 {
        lemma_floor_p53();
    } else if exponent == 54 {
        lemma_floor_p54();
    } else if exponent == 55 {
        lemma_floor_p55();
    } else if exponent == 56 {
        lemma_floor_p56();
    } else if exponent == 57 {
        lemma_floor_p57();
    } else if exponent == 58 {
        lemma_floor_p58();
    } else if exponent == 59 {
        lemma_floor_p59();
    } else if exponent == 60 {
        lemma_floor_p60();
    }
}

/// The entries of one part of the table.
proof fn lemma_floor_range_13(exponent: int)
    requires
        61 <= exponent <= 91,
    ensures
        power_is_floor(exponent),
{
    reveal(power_of_10);
    if exponent == 61 {
        lemma_floor_p61();
    } else if exponent == 62 {
        lemma_floor_p62();
    } else if exponent == 63 {
        lemma_floor_p63();
    } else if exponent == 64 {
        lemma_floor_p64();
    } else if exponent == 65 {
        lemma_floor_p65();
    } else if exponent == 66 {
        lemma_floor_p66();
    } else if exponent == 67 {
        lemma_floor_p67();
    } else if exponent == 68 {
        lemma_floor_p68();
    } else if exponent == 69 {
        lemma_floor_p69();
    } else if exponent == 70 {
        lemma_floor_p70();
    } else if exponent == 71 {
        lemma_floor_p71();
    } else if exponent == 72 {
        lemma_floor_p72();
    } else if exponent == 73 {
        lemma_floor_p73();
    } else if exponent == 74 {
        lemma_floor_p74();
    } else if exponent == 75 {
        lemma_floor_p75();
    } else if exponent == 76 {
        lemma_floor_p76();
    } else if exponent == 77 {
        lemma_floor_p77();
    } else if exponent == 78 {
        lemma_floor_p78();
    } else if exponent == 79 {
        lemma_floor_p79();
    } else if exponent == 80 {
        lemma_floor_p80();
    } else if exponent == 81 {
        lemma_floor_p81();
    } else if exponent == 82 {
        lemma_floor_p82();
    } else if exponent == 83 {
        lemma_floor_p83();
    } else if exponent == 84 {
        lemma_floor_p84();
    } else if exponent == 85 {
        lemma_floor_p85();
    } else if exponent == 86 {
        lemma_floor_p86();
    } else if exponent == 87 {
        lemma_floor_p87();
    } else if exponent == 88 {
        lemma_floor_p88();
    } else if exponent == 89 {
        lemma_floor_p89();
    } else if exponent == 90 {
        lemma_floor_p90();
    } else if exponent == 91 {
        lemma_floor_p91();
    }
}

/// The entries of one part of the table.
proof fn lemma_floor_range_14(exponent: int)
    requires
        92 <= exponent <= 122,
    ensures
        power_is_floor(exponent),
{
    reveal(power_of_10);
    if exponent == 92 {
        lemma_floor_p92();
    } else if exponent == 93 {
        lemma_floor_p93();
    } else if exponent == 94 {
        lemma_floor_p94();
    } else if exponent == 95 {
        lemma_floor_p95();
    } else if exponent == 96 {
        lemma_floor_p96();
    } else if exponent == 97 {
        lemma_floor_p97();
    } else if exponent == 98 {
        lemma_floor_p98();
    } else if exponent == 99 {
        lemma_floor_p99();
    } else if exponent == 100 {
        lemma_floor_p100();
    } else if exponent == 101 {
        lemma_floor_p101();
    } else if exponent == 102 {
        lemma_floor_p102();
    } else if exponent == 103 {
        lemma_floor_p103();
    } else if exponent == 104 {
        lemma_floor_p104();
    } else if exponent == 105 {
        lemma_floor_p105();
    } else if exponent == 106 {
        lemma_floor_p106();
    } else if exponent == 107 {
        lemma_floor_p107();
    } else if exponent == 108 {
        lemma_floor_p108();
    } else if exponent == 109 {
        lemma_floor_p109();
    } else if exponent == 110 {
        lemma_floor_p110();
    } else if exponent == 111 {
        lemma_floor_p111();
    } else if exponent == 112 {
        lemma_floor_p112();
    } else if exponent == 113 {
        lemma_floor_p113();
    } else if exponent == 114 {
        lemma_floor_p114();
    } else if exponent == 115 {
        lemma_floor_p115();
    } else if exponent == 116 {
        lemma_floor_p116();
    } else if exponent == 117 {
        lemma_floor_p117();
    } else if exponent == 118 {
        lemma_floor_p118();
    } else if exponent == 119 {
        lemma_floor_p119();
    } else if exponent == 120 {
        lemma_floor_p120();
    } else if exponent == 121 {
        lemma_floor_p121();
    } else if exponent == 122 {
        lemma_floor_p122();
    }
}

/// The entries of one part of the table.
proof fn lemma_floor_range_15(exponent: int)
    requires
        123 <= exponent <= 153,
    ensures
        power_is_floor(exponent),
{
    reveal(power_of_10);
    if exponent == 123 {
        lemma_floor_p123();
    } else if exponent == 124 {
        lemma_floor_p124();
    } else if exponent == 125 {
        lemma_floor_p125();
    } else if exponent == 126 {
        lemma_floor_p126();
    } else if exponent == 127 {
        lemma_floor_p127();
    } else if exponent == 128 {
        lemma_floor_p128();
    } else if exponent == 129 {
        lemma_floor_p129();
    } else if exponent == 130 {
        lemma_floor_p130();
    } else if exponent == 131 {
        lemma_floor_p131();
    } else if exponent == 132 {
        lemma_floor_p132();
    } else if exponent == 133 {
        lemma_floor_p133();
    } else if exponent == 134 {
        lemma_floor_p134();
    } else if exponent == 135 {
        lemma_floor_p135();
    } else if exponent == 136 {
        lemma_floor_p136();
    } else if exponent == 137 {
        lemma_floor_p137();
    } else if exponent == 138 {
        lemma_floor_p138();
    } else if exponent == 139 {
        lemma_floor_p139();
    } else if exponent == 140 {
        lemma_floor_p140();
    } else if exponent == 141 {
        lemma_floor_p141();
    } else if exponent == 142 {
        lemma_floor_p142();
    } else if exponent == 143 {
        lemma_floor_p143();
    } else if exponent == 144 {
        lemma_floor_p144();
    } else if exponent == 145 {
        lemma_floor_p145();
    } else if exponent == 146 {
        lemma_floor_p146();
    } else if exponent == 147 {
        lemma_floor_p147();
    } else if exponent == 148 {
        lemma_floor_p148();
    } else if exponent == 149 {
        lemma_floor_p149();
    } else if exponent == 150 {
        lemma_floor_p150();
    } else if exponent == 151 {
        lemma_floor_p151();
    } else if exponent == 152 {
        lemma_floor_p152();
    } else if exponent == 153 {
        lemma_floor_p153();
    }
}

/// The entries of one part of the table.
proof fn lemma_floor_range_16(exponent: int)
    requires
        154 <= exponent <= 184,
    ensures
        power_is_floor(exponent),
{
    reveal(power_of_10);
    if exponent == 154 {
        lemma_floor_p154();
    } else if exponent == 155 {
        lemma_floor_p155();
    } else if exponent == 156 {
        lemma_floor_p156();
    } else if exponent == 157 {
        lemma_floor_p157();
    } else if exponent == 158 {
        lemma_floor_p158();
    } else if exponent == 159 {
        lemma_floor_p159();
    } else if exponent == 160 {
        lemma_floor_p160();
    } else if exponent == 161 {
        lemma_floor_p161();
    } else if exponent == 162 {
        lemma_floor_p162();
    } else if exponent == 163 {
        lemma_floor_p163();
    } else if exponent == 164 {
        lemma_floor_p164();
    } else if exponent == 165 {
        lemma_floor_p165();
    } else if exponent == 166 {
        lemma_floor_p166();
    } else if exponent == 167 {
        lemma_floor_p167();
    } else if exponent == 168 {
        lemma_floor_p168();
    } else if exponent == 169 {
        lemma_floor_p169();
    } else if exponent == 170 {
        lemma_floor_p170();
    } else if exponent == 171 {
        lemma_floor_p171();
    } else if exponent == 172 {
        lemma_floor_p172();
    } else if exponent == 173 {
        lemma_floor_p173();
    } else if exponent == 174 {
        lemma_floor_p174();
    } else if exponent == 175 {
        lemma_floor_p175();
    } else if exponent == 176 {
        lemma_floor_p176();
    } else if exponent == 177 {
        lemma_floor_p177();
    } else if exponent == 178 {
        lemma_floor_p178();
    } else if exponent == 179 {
        lemma_floor_p179();
    } else if exponent == 180 {
        lemma_floor_p180();
    } else if exponent == 181 {
        lemma_floor_p181();
    } else if exponent == 182 {
        lemma_floor_p182();
    } else if exponent == 183 {
        lemma_floor_p183();
    } else if exponent == 184 {
        lemma_floor_p184();
    }
}

/// The entries of one part of the table.
proof fn lemma_floor_range_17(exponent: int)
    requires
        185 <= exponent <= 215,
    ensures
        power_is_floor(exponent),
{
    reveal(power_of_10);
    if exponent == 185 {
        lemma_floor_p185();
    } else if exponent == 186 {
        lemma_floor_p186();
    } else if exponent == 187 {
        lemma_floor_p187();
    } else if exponent == 188 {
        lemma_floor_p188();
    } else if exponent == 189 {
        lemma_floor_p189();
    } else if exponent == 190 {
        lemma_floor_p190();
    } else if exponent == 191 {
        lemma_floor_p191();
    } else if exponent == 192 {
        lemma_floor_p192();
    } else if exponent == 193 {
        lemma_floor_p193();
    } else if exponent == 194 {
        lemma_floor_p194();
    } else if exponent == 195 {
        lemma_floor_p195();
    } else if exponent == 196 {
        lemma_floor_p196();
    } else if exponent == 197 {
        lemma_floor_p197();
    } else if exponent == 198 {
        lemma_floor_p198();
    } else if exponent == 199 {
        lemma_floor_p199();
    } else if exponent == 200 {
        lemma_floor_p200();
    } else if exponent == 201 {
        lemma_floor_p201();
    } else if exponent == 202 {
        lemma_floor_p202();
    } else if exponent == 203 {
        lemma_floor_p203();
    } else if exponent == 204 {
        lemma_floor_p204();
    } else if exponent == 205 {
        lemma_floor_p205();
    } else if exponent == 206 {
        lemma_floor_p206();
    } else if exponent == 207 {
        lemma_floor_p207();
    } else if exponent == 208 {
        lemma_floor_p208();
    } else if exponent == 209 {
        lemma_floor_p209();
    } else if exponent == 210 {
        lemma_floor_p210();
    } else if exponent == 211 {
        lemma_floor_p211();
    } else if exponent == 212 {
        lemma_floor_p212();
    } else if exponent == 213 {
        lemma_floor_p213();
    } else if exponent == 214 {
        lemma_floor_p214();
    } else if exponent == 215 {
        lemma_floor_p215();
    }
}

/// The entries of one part of the table.
proof fn lemma_floor_range_18(exponent: int)
    requires
        216 <= exponent <= 246,
    ensures
        power_is_floor(exponent),
{
    reveal(power_of_10);
    if exponent == 216 {
        lemma_floor_p216();
    } else if exponent == 217 {
        lemma_floor_p217();
    } else if exponent == 218 {
        lemma_floor_p218();
    } else if exponent == 219 {
        lemma_floor_p219();
    } else if exponent == 220 {
        lemma_floor_p220();
    } else if exponent == 221 {
        lemma_floor_p221();
    } else if exponent == 222 {
        lemma_floor_p222();
    } else if exponent == 223 {
        lemma_floor_p223();
    } else if exponent == 224 {
        lemma_floor_p224();
    } else if exponent == 225 {
        lemma_floor_p225();
    } else if exponent == 226 {
        lemma_floor_p226();
    } else if exponent == 227 {
        lemma_floor_p227();
    } else if exponent == 228 {
        lemma_floor_p228();
    } else if exponent == 229 {
        lemma_floor_p229();
    } else if exponent == 230 {
        lemma_floor_p230();
    } else if exponent == 231 {
        lemma_floor_p231();
    } else if exponent == 232 {
        lemma_floor_p232();
    } else if exponent == 233 {
        lemma_floor_p233();
    } else if exponent == 234 {
        lemma_floor_p234();
    } else if exponent == 235 {
        lemma_floor_p235();
    } else if exponent == 236 {
        lemma_floor_p236();
    } else if exponent == 237 {
        lemma_floor_p237();
    } else if exponent == 238 {
        lemma_floor_p238();
    } else if exponent == 239 {
        lemma_floor_p239();
    } else if exponent == 240 {
        lemma_floor_p240();
    } else if exponent == 241 {
        lemma_floor_p241();
    } else if exponent == 242 {
        lemma_floor_p242();
    } else if exponent == 243 {
        lemma_floor_p243();
    } else if exponent == 244 {
        lemma_floor_p244();
    } else if exponent == 245 {
        lemma_floor_p245();
    } else if exponent == 246 {
        lemma_floor_p246();
    }
}

/// The entries of one part of the table.
proof fn lemma_floor_range_19(exponent: int)
    requires
        247 <= exponent <= 277,
    ensures
        power_is_floor(exponent),
{
    reveal(power_of_10);
    if exponent == 247 {
        lemma_floor_p247();
    } else if exponent == 248 {
        lemma_floor_p248();
    } else if exponent == 249 {
        lemma_floor_p249();
    } else if exponent == 250 {
        lemma_floor_p250();
    } else if exponent == 251 {
        lemma_floor_p251();
    } else if exponent == 252 {
        lemma_floor_p252();
    } else if exponent == 253 {
        lemma_floor_p253();
    } else if exponent == 254 {
        lemma_floor_p254();
    } else if exponent == 255 {
        lemma_floor_p255();
    } else if exponent == 256 {
        lemma_floor_p256();
    } else if exponent == 257 {
        lemma_floor_p257();
    } else if exponent == 258 {
        lemma_floor_p258();
    } else if exponent == 259 {
        lemma_floor_p259();
    } else if exponent == 260 {
        lemma_floor_p260();
    } else if exponent == 261 {
        lemma_floor_p261();
    } else if exponent == 262 {
        lemma_floor_p262();
    } else if exponent == 263 {
        lemma_floor_p263();
    } else if exponent == 264 {
        lemma_floor_p264();
    } else if exponent == 265 {
        lemma_floor_p265();
    } else if exponent == 266 {
        lemma_floor_p266();
    } else if exponent == 267 {
        lemma_floor_p267();
    } else if exponent == 268 {
        lemma_floor_p268();
    } else if exponent == 269 {
        lemma_floor_p269();
    } else if exponent == 270 {
        lemma_floor_p270();
    } else if exponent == 271 {
        lemma_floor_p271();
    } else if exponent == 272 {
        lemma_floor_p272();
    } else if exponent == 273 {
        lemma_floor_p273();
    } else if exponent == 274 {
        lemma_floor_p274();
    } else if exponent == 275 {
        lemma_floor_p275();
    } else if exponent == 276 {
        lemma_floor_p276();
    } else if exponent == 277 {
        lemma_floor_p277();
    }
}

/// The entries of one part of the table.
proof fn lemma_floor_range_20(exponent: int)
    requires
        278 <= exponent <= 308,
    ensures
        power_is_floor(exponent),
{
    reveal(power_of_10);
    if exponent == 278 {
        lemma_floor_p278();
    } else if exponent == 279 {
        lemma_floor_p279();
    } else if exponent == 280 {
        lemma_floor_p280();
    } else if exponent == 281 {
        lemma_floor_p281();
    } else if exponent == 282 {
        lemma_floor_p282();
    } else if exponent == 283 {
        lemma_floor_p283();
    } else if exponent == 284 {
        lemma_floor_p284();
    } else if exponent == 285 {
        lemma_floor_p285();
    } else if exponent == 286 {
        lemma_floor_p286();
    } else if exponent == 287 {
        lemma_floor_p287();
    } else if exponent == 288 {
        lemma_floor_p288();
    } else if exponent == 289 {
        lemma_floor_p289();
    } else if exponent == 290 {
        lemma_floor_p290();
    } else if exponent == 291 {
        lemma_floor_p291();
    } else if exponent == 292 {
        lemma_floor_p292();
    } else if exponent == 293 {
        lemma_floor_p293();
    } else if exponent == 294 {
        lemma_floor_p294();
    } else if exponent == 295 {
        lemma_floor_p295();
    } else if exponent == 296 {
        lemma_floor_p296();
    } else if exponent == 297 {
        lemma_floor_p297();
    } else if exponent == 298 {
        lemma_floor_p298();
    } else if exponent == 299 {
        lemma_floor_p299();
    } else if exponent == 300 {
        lemma_floor_p300();
    } else if exponent == 301 {
        lemma_floor_p301();
    } else if exponent == 302 {
        lemma_floor_p302();
    } else if exponent == 303 {
        lemma_floor_p303();
    } else if exponent == 304 {
        lemma_floor_p304();
    } else if exponent == 305 {
        lemma_floor_p305();
    } else if exponent == 306 {
        lemma_floor_p306();
    } else if exponent == 307 {
        lemma_floor_p307();
    } else if exponent == 308 {
        lemma_floor_p308();
    }
}

/// Every entry of the table is the leading 128 bits of its power of ten,
/// rounded down.
pub proof fn lemma_power_is_floor(exponent: int)
    requires
        MIN_DENORMAL_EXP10 <= exponent <= MAX_NORMAL_EXP10,
    ensures
        power_is_floor(exponent),
{
    if exponent <= -312 {
        lemma_floor_range_0(exponent);
    } else if exponent <= -281 {
        lemma_floor_range_1(exponent);
    } else if exponent <= -250 {
        lemma_floor_range_2(exponent);
    } else if exponent <= -219 {
        lemma_floor_range_3(exponent);
    } else if exponent <= -188 {
        lemma_floor_range_4(exponent);
    } else if exponent <= -157 {
        lemma_floor_range_5(exponent);
    } else if exponent <= -126 {
        lemma_floor_range_6(exponent);
    } else if exponent <= -95 {
        lemma_floor_range_7(exponent);
    } else if exponent <= -64 {
        lemma_floor_range_8(exponent);
    } else if exponent <= -33 {
        lemma_floor_range_9(exponent);
    } else if exponent <= -2 {
        lemma_floor_range_10(exponent);
    } else if exponent <= 29 {
        lemma_floor_range_11(exponent);
    } else if exponent <= 60 {
        lemma_floor_range_12(exponent);
    } else if exponent <= 91 {
        lemma_floor_range_13(exponent);
    } else if exponent <= 122 {
        lemma_floor_range_14(exponent);
    } else if exponent <= 153 {
        lemma_floor_range_15(exponent);
    } else if exponent <= 184 {
        lemma_floor_range_16(exponent);
    } else if exponent <= 215 {
        lemma_floor_range_17(exponent);
    } else if exponent <= 246 {
        lemma_floor_range_18(exponent);
    } else if exponent <= 277 {
        lemma_floor_range_19(exponent);
    } else if exponent <= 308 {
        lemma_floor_range_20(exponent);
    }
}

} // verus!
