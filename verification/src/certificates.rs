//! Lucas certificates for the two field moduli: the Goldilocks prime
//! `2^64 - 2^32 + 1` and the almost Goldilocks prime `2^64 - 2^32 - 31`.
//! Each power below is evaluated by repeated squaring, one step per bit of
//! the exponent.
use crate::field::{is_invertible_mod, ALMOST_GOLDILOCKS_MODULUS, GOLDILOCKS_MODULUS};
use crate::prime::{
    is_prime, lemma_prime_of_invertible, lemma_lucas, lemma_pow_mod_is_pow, lemma_pow_mod_step, lemma_pow_mod_zero, lemma_prime_below, lemma_product_push,
    lemma_product_twos, pow_mod, product,
};
use crate::fq2::{fq2_canonical, fq2_norm, Fq2Value};
use vstd::arithmetic::div_mod::*;
use vstd::arithmetic::power::*;
use vstd::arithmetic::power2::*;
use vstd::prelude::*;

verus! {

/// A `u32` with no divisor in `(1, b)`, below `b * b`, is prime.
proof fn lemma_small_prime(q: u32, b: u32)
    requires
        q > 1,
        (q as nat) < (b as nat) * (b as nat),
        forall|d: u32| 1 < d < b ==> #[trigger] (q % d) != 0,
    ensures
        is_prime(q as nat),
{
    assert forall|d: nat| 1 < d < b implies #[trigger] ((q as nat) % d) != 0 by {
        assert(q % (d as u32) != 0);
    }
    lemma_prime_below(q as nat, b as nat);
}

proof fn lemma_two_is_prime()
    ensures
        is_prime(2),
{
}

/// `7^(p - 1) = 1` modulo the Goldilocks prime.
proof fn lemma_gl_order()
    ensures
        pow_mod(7, 18446744069414584320nat, 18446744069414584321nat) == 1nat,
{
    lemma_pow_mod_zero(7, 18446744069414584321);
    lemma_pow_mod_step(7, 1, 0, true, 18446744069414584321, 1, 0, 1, 0, 7);
    lemma_pow_mod_step(7, 3, 1, true, 18446744069414584321, 7, 0, 49, 0, 343);
    lemma_pow_mod_step(7, 7, 3, true, 18446744069414584321, 343, 0, 117649, 0, 823543);
    lemma_pow_mod_step(7, 15, 7, true, 18446744069414584321, 823543, 0, 678223072849, 0, 4747561509943);
    lemma_pow_mod_step(7, 31, 15, true, 18446744069414584321, 4747561509943, 1221860, 1582037354089406189, 0, 11074261478625843323);
    lemma_pow_mod_step(7, 63, 31, true, 18446744069414584321, 11074261478625843323, 6648288003318531524, 14911712358349047125, 5, 12148266161370408270);
    lemma_pow_mod_step(7, 127, 63, true, 18446744069414584321, 12148266161370408270, 8000347929811162796, 14177331716484271384, 5, 7007601668316978083);
    lemma_pow_mod_step(7, 255, 127, true, 18446744069414584321, 7007601668316978083, 2662067677472651718, 1160753142525841411, 0, 8125271997680889877);
    lemma_pow_mod_step(7, 511, 255, true, 18446744069414584321, 8125271997680889877, 3578953813630503444, 10915923311382173605, 4, 2624486902016877951);
    lemma_pow_mod_step(7, 1023, 511, true, 18446744069414584321, 2624486902016877951, 373395514836605044, 1179017105118043277, 0, 8253119735826302939);
    lemma_pow_mod_step(7, 2047, 1023, true, 18446744069414584321, 8253119735826302939, 3692466546810352761, 13682469552810377440, 5, 3543566522599720475);
    lemma_pow_mod_step(7, 4095, 2047, true, 18446744069414584321, 3543566522599720475, 680708945320558836, 12252646851770615269, 4, 11981551684735969599);
    lemma_pow_mod_step(7, 8191, 4095, true, 18446744069414584321, 11981551684735969599, 7782272049408620407, 9343193256669382154, 3, 10062120588441922115);
    lemma_pow_mod_step(7, 16383, 8191, true, 18446744069414584321, 10062120588441922115, 5488571335698045963, 4133221502128927102, 1, 10485806445487905393);
    lemma_pow_mod_step(7, 32767, 16383, true, 18446744069414584321, 10485806445487905393, 5960517281450258735, 5861853314594190514, 2, 4139485063330164956);
    lemma_pow_mod_step(7, 65535, 32767, true, 18446744069414584321, 4139485063330164956, 928908458048409263, 7004045467739516513, 2, 12134830135347446949);
    lemma_pow_mod_step(7, 131071, 65535, true, 18446744069414584321, 12134830135347446949, 7982660889077413892, 618113109518621269, 0, 4326791766630348883);
    lemma_pow_mod_step(7, 262143, 131071, true, 18446744069414584321, 4326791766630348883, 1014874328029547970, 13205783127219969319, 5, 206761543466863628);
    lemma_pow_mod_step(7, 524287, 262143, true, 18446744069414584321, 206761543466863628, 2317500351060946, 14617186517222294718, 5, 10086585273483141421);
    lemma_pow_mod_step(7, 1048575, 524287, true, 18446744069414584321, 10086585273483141421, 5515293219031238933, 5535602650859329748, 2, 1855730417186139594);
    lemma_pow_mod_step(7, 2097151, 1048575, true, 18446744069414584321, 1855730417186139594, 186685269135364124, 3724741596018185032, 1, 7626447102712710903);
    lemma_pow_mod_step(7, 4194303, 2097151, true, 18446744069414584321, 7626447102712710903, 3153006036816605629, 11653985196031332500, 4, 7790920094560990216);
    lemma_pow_mod_step(7, 8388607, 4194303, true, 18446744069414584321, 7790920094560990216, 3290468805303944391, 16654626667483233145, 6, 5901922255895126089);
    lemma_pow_mod_step(7, 16777215, 8388607, true, 18446744069414584321, 5901922255895126089, 1888283709231059174, 9182212999444825067, 3, 8935258787870022506);
    lemma_pow_mod_step(7, 33554431, 16777215, true, 18446744069414584321, 8935258787870022506, 4328072710597441788, 17682034324931514088, 6, 13093775858033092690);
    lemma_pow_mod_step(7, 67108863, 33554431, true, 18446744069414584321, 13093775858033092690, 9294158664274849393, 9511995656157268947, 3, 11243737384857129666);
    lemma_pow_mod_step(7, 134217727, 67108863, true, 18446744069414584321, 11243737384857129666, 6853330316933588389, 16106297366990222687, 6, 2063617152444052883);
    lemma_pow_mod_step(7, 268435455, 134217727, true, 18446744069414584321, 2063617152444052883, 230854601540338240, 4501656151559876649, 1, 13064848991504552222);
    lemma_pow_mod_step(7, 536870911, 268435455, true, 18446744069414584321, 13064848991504552222, 9253138577112294032, 2370486178716065012, 0, 16593403251012455084);
    lemma_pow_mod_step(7, 1073741823, 536870911, true, 18446744069414584321, 16593403251012455084, 14926267227138300310, 14013264900002007546, 5, 5859133952941131217);
    lemma_pow_mod_step(7, 2147483647, 1073741823, true, 18446744069414584321, 5859133952941131217, 1861003250726892451, 10142762553374040318, 3, 15659105665374529263);
    lemma_pow_mod_step(7, 4294967295, 2147483647, true, 18446744069414584321, 15659105665374529263, 13292730105467682755, 16062014221418238814, 6, 1753635133440165772);
    lemma_pow_mod_step(7, 8589934590, 4294967295, false, 18446744069414584321, 1753635133440165772, 166708887468903991, 4614640910117430873, 0, 4614640910117430873);
    lemma_pow_mod_step(7, 17179869180, 8589934590, false, 18446744069414584321, 4614640910117430873, 1154399424049971884, 9123114210336311365, 0, 9123114210336311365);
    lemma_pow_mod_step(7, 34359738360, 17179869180, false, 18446744069414584321, 9123114210336311365, 4511973093009996851, 16116352524544190054, 0, 16116352524544190054);
    lemma_pow_mod_step(7, 68719476720, 34359738360, false, 18446744069414584321, 16116352524544190054, 14080361158478670879, 6414415596519834757, 0, 6414415596519834757);
    lemma_pow_mod_step(7, 137438953440, 68719476720, false, 18446744069414584321, 6414415596519834757, 2230460144622294524, 1213594585890690845, 0, 1213594585890690845);
    lemma_pow_mod_step(7, 274877906880, 137438953440, false, 18446744069414584321, 1213594585890690845, 79841288704448195, 17096174751763063430, 0, 17096174751763063430);
    lemma_pow_mod_step(7, 549755813760, 274877906880, false, 18446744069414584321, 17096174751763063430, 15844486704156700236, 5456943929260765144, 0, 5456943929260765144);
    lemma_pow_mod_step(7, 1099511627520, 549755813760, false, 18446744069414584321, 5456943929260765144, 1614281465338340559, 9713644485405565297, 0, 9713644485405565297);
    lemma_pow_mod_step(7, 2199023255040, 1099511627520, false, 18446744069414584321, 9713644485405565297, 5114988793349933654, 16905767614792059275, 0, 16905767614792059275);
    lemma_pow_mod_step(7, 4398046510080, 2199023255040, false, 18446744069414584321, 16905767614792059275, 15493518941330557636, 5416168637041100469, 0, 5416168637041100469);
    lemma_pow_mod_step(7, 8796093020160, 4398046510080, false, 18446744069414584321, 5416168637041100469, 1590247178281506213, 17654865857378133588, 0, 17654865857378133588);
    lemma_pow_mod_step(7, 17592186040320, 8796093020160, false, 18446744069414584321, 17654865857378133588, 16896981237942002723, 3511170319078647661, 0, 3511170319078647661);
    lemma_pow_mod_step(7, 35184372080640, 17592186040320, false, 18446744069414584321, 3511170319078647661, 668319404399374695, 18146160046829613826, 0, 18146160046829613826);
    lemma_pow_mod_step(7, 70368744161280, 35184372080640, false, 18446744069414584321, 18146160046829613826, 17850473948468743512, 9306717745644682924, 0, 9306717745644682924);
    lemma_pow_mod_step(7, 140737488322560, 70368744161280, false, 18446744069414584321, 9306717745644682924, 4695408299218975106, 12380578893860276750, 0, 12380578893860276750);
    lemma_pow_mod_step(7, 281474976645120, 140737488322560, false, 18446744069414584321, 12380578893860276750, 8309256808156222390, 6115771955107415310, 0, 6115771955107415310);
    lemma_pow_mod_step(7, 562949953290240, 281474976645120, false, 18446744069414584321, 6115771955107415310, 2027602620068516376, 17776499369601055404, 0, 17776499369601055404);
    lemma_pow_mod_step(7, 1125899906580480, 562949953290240, false, 18446744069414584321, 17776499369601055404, 17130607366173278638, 16207902636198568418, 0, 16207902636198568418);
    lemma_pow_mod_step(7, 2251799813160960, 1125899906580480, false, 18446744069414584321, 16207902636198568418, 14240784545824149997, 1532612707718625687, 0, 1532612707718625687);
    lemma_pow_mod_step(7, 4503599626321920, 2251799813160960, false, 18446744069414584321, 1532612707718625687, 127334216977357403, 17492915097719143606, 0, 17492915097719143606);
    lemma_pow_mod_step(7, 9007199252643840, 4503599626321920, false, 18446744069414584321, 17492915097719143606, 16588405924890216597, 455906449640507599, 0, 455906449640507599);
    lemma_pow_mod_step(7, 18014398505287680, 9007199252643840, false, 18446744069414584321, 455906449640507599, 11267608529812975, 11353340290879379826, 0, 11353340290879379826);
    lemma_pow_mod_step(7, 36028797010575360, 18014398505287680, false, 18446744069414584321, 11353340290879379826, 6987592784692205430, 1803076106186727246, 0, 1803076106186727246);
    lemma_pow_mod_step(7, 72057594021150720, 36028797010575360, false, 18446744069414584321, 1803076106186727246, 176241586724885086, 13797081185216407910, 0, 13797081185216407910);
    lemma_pow_mod_step(7, 144115188042301440, 72057594021150720, false, 18446744069414584321, 13797081185216407910, 10319406422896923811, 17870292113338400769, 0, 17870292113338400769);
    lemma_pow_mod_step(7, 288230376084602880, 144115188042301440, false, 18446744069414584321, 17870292113338400769, 17311854006015885313, 549755813888, 0, 549755813888);
    lemma_pow_mod_step(7, 576460752169205760, 288230376084602880, false, 18446744069414584321, 549755813888, 16384, 70368744161280, 0, 70368744161280);
    lemma_pow_mod_step(7, 1152921504338411520, 576460752169205760, false, 18446744069414584321, 70368744161280, 268435455, 17293822564807737345, 0, 17293822564807737345);
    lemma_pow_mod_step(7, 2305843008676823040, 1152921504338411520, false, 18446744069414584321, 17293822564807737345, 16212958654255595520, 18446744069397807105, 0, 18446744069397807105);
    lemma_pow_mod_step(7, 4611686017353646080, 2305843008676823040, false, 18446744069414584321, 18446744069397807105, 18446744069381029889, 281474976710656, 0, 281474976710656);
    lemma_pow_mod_step(7, 9223372034707292160, 4611686017353646080, false, 18446744069414584321, 281474976710656, 4294967296, 18446744069414584320, 0, 18446744069414584320);
    lemma_pow_mod_step(7, 18446744069414584320, 9223372034707292160, false, 18446744069414584321, 18446744069414584320, 18446744069414584319, 1, 0, 1);
}

/// `7^((p - 1) / 2)` modulo the Goldilocks prime.
proof fn lemma_gl_cofactor_2()
    ensures
        pow_mod(7, 9223372034707292160nat, 18446744069414584321nat) == 18446744069414584320nat,
{
    lemma_pow_mod_zero(7, 18446744069414584321);
    lemma_pow_mod_step(7, 1, 0, true, 18446744069414584321, 1, 0, 1, 0, 7);
    lemma_pow_mod_step(7, 3, 1, true, 18446744069414584321, 7, 0, 49, 0, 343);
    lemma_pow_mod_step(7, 7, 3, true, 18446744069414584321, 343, 0, 117649, 0, 823543);
    lemma_pow_mod_step(7, 15, 7, true, 18446744069414584321, 823543, 0, 678223072849, 0, 4747561509943);
    lemma_pow_mod_step(7, 31, 15, true, 18446744069414584321, 4747561509943, 1221860, 1582037354089406189, 0, 11074261478625843323);
    lemma_pow_mod_step(7, 63, 31, true, 18446744069414584321, 11074261478625843323, 6648288003318531524, 14911712358349047125, 5, 12148266161370408270);
    lemma_pow_mod_step(7, 127, 63, true, 18446744069414584321, 12148266161370408270, 8000347929811162796, 14177331716484271384, 5, 7007601668316978083);
    lemma_pow_mod_step(7, 255, 127, true, 18446744069414584321, 7007601668316978083, 2662067677472651718, 1160753142525841411, 0, 8125271997680889877);
    lemma_pow_mod_step(7, 511, 255, true, 18446744069414584321, 8125271997680889877, 3578953813630503444, 10915923311382173605, 4, 2624486902016877951);
    lemma_pow_mod_step(7, 1023, 511, true, 18446744069414584321, 2624486902016877951, 373395514836605044, 1179017105118043277, 0, 8253119735826302939);
    lemma_pow_mod_step(7, 2047, 1023, true, 18446744069414584321, 8253119735826302939, 3692466546810352761, 13682469552810377440, 5, 3543566522599720475);
    lemma_pow_mod_step(7, 4095, 2047, true, 18446744069414584321, 3543566522599720475, 680708945320558836, 12252646851770615269, 4, 11981551684735969599);
    lemma_pow_mod_step(7, 8191, 4095, true, 18446744069414584321, 11981551684735969599, 7782272049408620407, 9343193256669382154, 3, 10062120588441922115);
    lemma_pow_mod_step(7, 16383, 8191, true, 18446744069414584321, 10062120588441922115, 5488571335698045963, 4133221502128927102, 1, 10485806445487905393);
    lemma_pow_mod_step(7, 32767, 16383, true, 18446744069414584321, 10485806445487905393, 5960517281450258735, 5861853314594190514, 2, 4139485063330164956);
    lemma_pow_mod_step(7, 65535, 32767, true, 18446744069414584321, 4139485063330164956, 928908458048409263, 7004045467739516513, 2, 12134830135347446949);
    lemma_pow_mod_step(7, 131071, 65535, true, 18446744069414584321, 12134830135347446949, 7982660889077413892, 618113109518621269, 0, 4326791766630348883);
    lemma_pow_mod_step(7, 262143, 131071, true, 18446744069414584321, 4326791766630348883, 1014874328029547970, 13205783127219969319, 5, 206761543466863628);
    lemma_pow_mod_step(7, 524287, 262143, true, 18446744069414584321, 206761543466863628, 2317500351060946, 14617186517222294718, 5, 10086585273483141421);
    lemma_pow_mod_step(7, 1048575, 524287, true, 18446744069414584321, 10086585273483141421, 5515293219031238933, 5535602650859329748, 2, 1855730417186139594);
    lemma_pow_mod_step(7, 2097151, 1048575, true, 18446744069414584321, 1855730417186139594, 186685269135364124, 3724741596018185032, 1, 7626447102712710903);
    lemma_pow_mod_step(7, 4194303, 2097151, true, 18446744069414584321, 7626447102712710903, 3153006036816605629, 11653985196031332500, 4, 7790920094560990216);
    lemma_pow_mod_step(7, 8388607, 4194303, true, 18446744069414584321, 7790920094560990216, 3290468805303944391, 16654626667483233145, 6, 5901922255895126089);
    lemma_pow_mod_step(7, 16777215, 8388607, true, 18446744069414584321, 5901922255895126089, 1888283709231059174, 9182212999444825067, 3, 8935258787870022506);
    lemma_pow_mod_step(7, 33554431, 16777215, true, 18446744069414584321, 8935258787870022506, 4328072710597441788, 17682034324931514088, 6, 13093775858033092690);
    lemma_pow_mod_step(7, 67108863, 33554431, true, 18446744069414584321, 13093775858033092690, 9294158664274849393, 9511995656157268947, 3, 11243737384857129666);
    lemma_pow_mod_step(7, 134217727, 67108863, true, 18446744069414584321, 11243737384857129666, 6853330316933588389, 16106297366990222687, 6, 2063617152444052883);
    lemma_pow_mod_step(7, 268435455, 134217727, true, 18446744069414584321, 2063617152444052883, 230854601540338240, 4501656151559876649, 1, 13064848991504552222);
    lemma_pow_mod_step(7, 536870911, 268435455, true, 18446744069414584321, 13064848991504552222, 9253138577112294032, 2370486178716065012, 0, 16593403251012455084);
    lemma_pow_mod_step(7, 1073741823, 536870911, true, 18446744069414584321, 16593403251012455084, 14926267227138300310, 14013264900002007546, 5, 5859133952941131217);
    lemma_pow_mod_step(7, 2147483647, 1073741823, true, 18446744069414584321, 5859133952941131217, 1861003250726892451, 10142762553374040318, 3, 15659105665374529263);
    lemma_pow_mod_step(7, 4294967295, 2147483647, true, 18446744069414584321, 15659105665374529263, 13292730105467682755, 16062014221418238814, 6, 1753635133440165772);
    lemma_pow_mod_step(7, 8589934590, 4294967295, false, 18446744069414584321, 1753635133440165772, 166708887468903991, 4614640910117430873, 0, 4614640910117430873);
    lemma_pow_mod_step(7, 17179869180, 8589934590, false, 18446744069414584321, 4614640910117430873, 1154399424049971884, 9123114210336311365, 0, 9123114210336311365);
    lemma_pow_mod_step(7, 34359738360, 17179869180, false, 18446744069414584321, 9123114210336311365, 4511973093009996851, 16116352524544190054, 0, 16116352524544190054);
    lemma_pow_mod_step(7, 68719476720, 34359738360, false, 18446744069414584321, 16116352524544190054, 14080361158478670879, 6414415596519834757, 0, 6414415596519834757);
    lemma_pow_mod_step(7, 137438953440, 68719476720, false, 18446744069414584321, 6414415596519834757, 2230460144622294524, 1213594585890690845, 0, 1213594585890690845);
    lemma_pow_mod_step(7, 274877906880, 137438953440, false, 18446744069414584321, 1213594585890690845, 79841288704448195, 17096174751763063430, 0, 17096174751763063430);
    lemma_pow_mod_step(7, 549755813760, 274877906880, false, 18446744069414584321, 17096174751763063430, 15844486704156700236, 5456943929260765144, 0, 5456943929260765144);
    lemma_pow_mod_step(7, 1099511627520, 549755813760, false, 18446744069414584321, 5456943929260765144, 1614281465338340559, 9713644485405565297, 0, 9713644485405565297);
    lemma_pow_mod_step(7, 2199023255040, 1099511627520, false, 18446744069414584321, 9713644485405565297, 5114988793349933654, 16905767614792059275, 0, 16905767614792059275);
    lemma_pow_mod_step(7, 4398046510080, 2199023255040, false, 18446744069414584321, 16905767614792059275, 15493518941330557636, 5416168637041100469, 0, 5416168637041100469);
    lemma_pow_mod_step(7, 8796093020160, 4398046510080, false, 18446744069414584321, 5416168637041100469, 1590247178281506213, 17654865857378133588, 0, 17654865857378133588);
    lemma_pow_mod_step(7, 17592186040320, 8796093020160, false, 18446744069414584321, 17654865857378133588, 16896981237942002723, 3511170319078647661, 0, 3511170319078647661);
    lemma_pow_mod_step(7, 35184372080640, 17592186040320, false, 18446744069414584321, 3511170319078647661, 668319404399374695, 18146160046829613826, 0, 18146160046829613826);
    lemma_pow_mod_step(7, 70368744161280, 35184372080640, false, 18446744069414584321, 18146160046829613826, 17850473948468743512, 9306717745644682924, 0, 9306717745644682924);
    lemma_pow_mod_step(7, 140737488322560, 70368744161280, false, 18446744069414584321, 9306717745644682924, 4695408299218975106, 12380578893860276750, 0, 12380578893860276750);
    lemma_pow_mod_step(7, 281474976645120, 140737488322560, false, 18446744069414584321, 12380578893860276750, 8309256808156222390, 6115771955107415310, 0, 6115771955107415310);
    lemma_pow_mod_step(7, 562949953290240, 281474976645120, false, 18446744069414584321, 6115771955107415310, 2027602620068516376, 17776499369601055404, 0, 17776499369601055404);
    lemma_pow_mod_step(7, 1125899906580480, 562949953290240, false, 18446744069414584321, 17776499369601055404, 17130607366173278638, 16207902636198568418, 0, 16207902636198568418);
    lemma_pow_mod_step(7, 2251799813160960, 1125899906580480, false, 18446744069414584321, 16207902636198568418, 14240784545824149997, 1532612707718625687, 0, 1532612707718625687);
    lemma_pow_mod_step(7, 4503599626321920, 2251799813160960, false, 18446744069414584321, 1532612707718625687, 127334216977357403, 17492915097719143606, 0, 17492915097719143606);
    lemma_pow_mod_step(7, 9007199252643840, 4503599626321920, false, 18446744069414584321, 17492915097719143606, 16588405924890216597, 455906449640507599, 0, 455906449640507599);
    lemma_pow_mod_step(7, 18014398505287680, 9007199252643840, false, 18446744069414584321, 455906449640507599, 11267608529812975, 11353340290879379826, 0, 11353340290879379826);
    lemma_pow_mod_step(7, 36028797010575360, 18014398505287680, false, 18446744069414584321, 11353340290879379826, 6987592784692205430, 1803076106186727246, 0, 1803076106186727246);
    lemma_pow_mod_step(7, 72057594021150720, 36028797010575360, false, 18446744069414584321, 1803076106186727246, 176241586724885086, 13797081185216407910, 0, 13797081185216407910);
    lemma_pow_mod_step(7, 144115188042301440, 72057594021150720, false, 18446744069414584321, 13797081185216407910, 10319406422896923811, 17870292113338400769, 0, 17870292113338400769);
    lemma_pow_mod_step(7, 288230376084602880, 144115188042301440, false, 18446744069414584321, 17870292113338400769, 17311854006015885313, 549755813888, 0, 549755813888);
    lemma_pow_mod_step(7, 576460752169205760, 288230376084602880, false, 18446744069414584321, 549755813888, 16384, 70368744161280, 0, 70368744161280);
    lemma_pow_mod_step(7, 1152921504338411520, 576460752169205760, false, 18446744069414584321, 70368744161280, 268435455, 17293822564807737345, 0, 17293822564807737345);
    lemma_pow_mod_step(7, 2305843008676823040, 1152921504338411520, false, 18446744069414584321, 17293822564807737345, 16212958654255595520, 18446744069397807105, 0, 18446744069397807105);
    lemma_pow_mod_step(7, 4611686017353646080, 2305843008676823040, false, 18446744069414584321, 18446744069397807105, 18446744069381029889, 281474976710656, 0, 281474976710656);
    lemma_pow_mod_step(7, 9223372034707292160, 4611686017353646080, false, 18446744069414584321, 281474976710656, 4294967296, 18446744069414584320, 0, 18446744069414584320);
}

/// `7^((p - 1) / 3)` modulo the Goldilocks prime.
proof fn lemma_gl_cofactor_3()
    ensures
        pow_mod(7, 6148914689804861440nat, 18446744069414584321nat) == 18446744065119617025nat,
{
    lemma_pow_mod_zero(7, 18446744069414584321);
    lemma_pow_mod_step(7, 1, 0, true, 18446744069414584321, 1, 0, 1, 0, 7);
    lemma_pow_mod_step(7, 2, 1, false, 18446744069414584321, 7, 0, 49, 0, 49);
    lemma_pow_mod_step(7, 5, 2, true, 18446744069414584321, 49, 0, 2401, 0, 16807);
    lemma_pow_mod_step(7, 10, 5, false, 18446744069414584321, 16807, 0, 282475249, 0, 282475249);
    lemma_pow_mod_step(7, 21, 10, true, 18446744069414584321, 282475249, 0, 79792266297612001, 0, 558545864083284007);
    lemma_pow_mod_step(7, 42, 21, false, 18446744069414584321, 558545864083284007, 16912116366476102, 8022122801911579307, 0, 8022122801911579307);
    lemma_pow_mod_step(7, 85, 42, true, 18446744069414584321, 8022122801911579307, 3488661956103780069, 4463956420510902100, 1, 12800950874161730379);
    lemma_pow_mod_step(7, 170, 85, false, 18446744069414584321, 12800950874161730379, 8883103851069056297, 14271156885488964304, 0, 14271156885488964304);
    lemma_pow_mod_step(7, 341, 170, true, 18446744069414584321, 14271156885488964304, 11040751586504908066, 6640181542876171230, 2, 9587782661304029968);
    lemma_pow_mod_step(7, 682, 341, false, 18446744069414584321, 9587782661304029968, 4983295481006772960, 10276868313419320864, 0, 10276868313419320864);
    lemma_pow_mod_step(7, 1365, 682, true, 18446744069414584321, 10276868313419320864, 5725347624162803535, 12692611838971331761, 4, 15061306595140985043);
    lemma_pow_mod_step(7, 2730, 1365, false, 18446744069414584321, 15061306595140985043, 12297181307402195377, 10087193495066827832, 0, 10087193495066827832);
    lemma_pow_mod_step(7, 5461, 2730, true, 18446744069414584321, 10087193495066827832, 5515958383985302078, 17666492521142301186, 6, 12984983231508602376);
    lemma_pow_mod_step(7, 10922, 5461, false, 18446744069414584321, 12984983231508602376, 9140355007262292068, 1362657970957379548, 0, 1362657970957379548);
    lemma_pow_mod_step(7, 21845, 10922, true, 18446744069414584321, 1362657970957379548, 100659321711542029, 14866894507972756995, 5, 11834541208736377360);
    lemma_pow_mod_step(7, 43690, 21845, false, 18446744069414584321, 11834541208736377360, 7592470795618526035, 15486580570079272365, 0, 15486580570079272365);
    lemma_pow_mod_step(7, 87381, 43690, true, 18446744069414584321, 15486580570079272365, 13001436830861181108, 8219357140934485557, 3, 2195267778297645936);
    lemma_pow_mod_step(7, 174762, 87381, false, 18446744069414584321, 2195267778297645936, 261249389068193530, 12545318111885672966, 0, 12545318111885672966);
    lemma_pow_mod_step(7, 349525, 174762, true, 18446744069414584321, 12545318111885672966, 8531858301723670530, 16274283408395477026, 6, 3239519442280833256);
    lemma_pow_mod_step(7, 699050, 349525, false, 18446744069414584321, 3239519442280833256, 568907237907408565, 11109814195885452171, 0, 11109814195885452171);
    lemma_pow_mod_step(7, 1398101, 699050, true, 18446744069414584321, 11109814195885452171, 6691043742063200757, 8592128779201082244, 3, 4804669246163822745);
    lemma_pow_mod_step(7, 2796202, 1398101, false, 18446744069414584321, 4804669246163822745, 1251432040156506853, 438903447396483212, 0, 438903447396483212);
    lemma_pow_mod_step(7, 5592405, 2796202, true, 18446744069414584321, 438903447396483212, 10442831288363556, 16528309341332431468, 6, 5017700972839514350);
    lemma_pow_mod_step(7, 11184810, 5592405, false, 18446744069414584321, 5017700972839514350, 1364865417880415269, 7499557959359525151, 0, 7499557959359525151);
    lemma_pow_mod_step(7, 22369621, 11184810, true, 18446744069414584321, 7499557959359525151, 3048959175350976374, 6501481669499740747, 2, 8616883547669016587);
    lemma_pow_mod_step(7, 44739242, 22369621, false, 18446744069414584321, 8616883547669016587, 4025137541600063836, 458110968676413213, 0, 458110968676413213);
    lemma_pow_mod_step(7, 89478485, 44739242, true, 18446744069414584321, 458110968676413213, 11376840207243241, 1678842135369159008, 0, 11751894947584113056);
    lemma_pow_mod_step(7, 178956970, 89478485, false, 18446744069414584321, 11751894947584113056, 7486797363228983743, 525895266577965633, 0, 525895266577965633);
    lemma_pow_mod_step(7, 357913941, 178956970, true, 18446744069414584321, 525895266577965633, 14992663765941567, 8359630718448719682, 3, 3177182820897284811);
    lemma_pow_mod_step(7, 715827882, 357913941, false, 18446744069414584321, 3177182820897284811, 547223436256259685, 7964267603545906836, 0, 7964267603545906836);
    lemma_pow_mod_step(7, 1431655765, 715827882, true, 18446744069414584321, 7964267603545906836, 3438523254955302650, 17834245605091780246, 6, 14159254819154955796);
    lemma_pow_mod_step(7, 2863311530, 1431655765, false, 18446744069414584321, 14159254819154955796, 10868286364213937143, 998724450546658713, 0, 998724450546658713);
    lemma_pow_mod_step(7, 5726623060, 2863311530, false, 18446744069414584321, 998724450546658713, 54071901489300593, 1811047956385014016, 0, 1811047956385014016);
    lemma_pow_mod_step(7, 11453246120, 5726623060, false, 18446744069414584321, 1811047956385014016, 177803448022273372, 2957134717709447844, 0, 2957134717709447844);
    lemma_pow_mod_step(7, 22906492240, 11453246120, false, 18446744069414584321, 2957134717709447844, 474048195485158646, 8418656202527058970, 0, 8418656202527058970);
    lemma_pow_mod_step(7, 45812984480, 22906492240, false, 18446744069414584321, 8418656202527058970, 3842074893523284633, 9344165103595421707, 0, 9344165103595421707);
    lemma_pow_mod_step(7, 91625968960, 45812984480, false, 18446744069414584321, 9344165103595421707, 4733270064066182308, 12398472707942400981, 0, 12398472707942400981);
    lemma_pow_mod_step(7, 183251937920, 91625968960, false, 18446744069414584321, 12398472707942400981, 8333293122685526258, 10977358340789161543, 0, 10977358340789161543);
    lemma_pow_mod_step(7, 366503875840, 183251937920, false, 18446744069414584321, 10977358340789161543, 6532447985869279269, 14519574879452399500, 0, 14519574879452399500);
    lemma_pow_mod_step(7, 733007751680, 366503875840, false, 18446744069414584321, 14519574879452399500, 11428469646823455213, 3056692624244734627, 0, 3056692624244734627);
    lemma_pow_mod_step(7, 1466015503360, 733007751680, false, 18446744069414584321, 3056692624244734627, 506505091844572788, 17973258314804772181, 0, 17973258314804772181);
    lemma_pow_mod_step(7, 2932031006720, 1466015503360, false, 18446744069414584321, 17973258314804772181, 17511925857219887972, 15462695660743809749, 0, 15462695660743809749);
    lemma_pow_mod_step(7, 5864062013440, 2932031006720, false, 18446744069414584321, 15462695660743809749, 12961363598750965303, 18046908317468628738, 0, 18046908317468628738);
    lemma_pow_mod_step(7, 11728124026880, 5864062013440, false, 18446744069414584321, 18046908317468628738, 17655739061243143202, 9144605907772536802, 0, 9144605907772536802);
    lemma_pow_mod_step(7, 23456248053760, 11728124026880, false, 18446744069414584321, 9144605907772536802, 4533256215503087484, 8796482344486648840, 0, 8796482344486648840);
    lemma_pow_mod_step(7, 46912496107520, 23456248053760, false, 18446744069414584321, 8796482344486648840, 4194675295851326834, 3596945015050375886, 0, 3596945015050375886);
    lemma_pow_mod_step(7, 93824992215040, 46912496107520, false, 18446744069414584321, 3596945015050375886, 701371114198276100, 4201997653601256896, 0, 4201997653601256896);
    lemma_pow_mod_step(7, 187649984430080, 93824992215040, false, 18446744069414584321, 4201997653601256896, 957176194044243304, 6905479200839918232, 0, 6905479200839918232);
    lemma_pow_mod_step(7, 375299968860160, 187649984430080, false, 18446744069414584321, 6905479200839918232, 2585043887083431574, 1725491680989254570, 0, 1725491680989254570);
    lemma_pow_mod_step(7, 750599937720320, 375299968860160, false, 18446744069414584321, 1725491680989254570, 161400924193426514, 12370230134295797906, 0, 12370230134295797906);
    lemma_pow_mod_step(7, 1501199875440640, 750599937720320, false, 18446744069414584321, 12370230134295797906, 8295371421624329761, 3734230229149707555, 0, 3734230229149707555);
    lemma_pow_mod_step(7, 3002399750881280, 1501199875440640, false, 18446744069414584321, 3734230229149707555, 755931526551395991, 16496341184493220914, 0, 16496341184493220914);
    lemma_pow_mod_step(7, 6004799501762560, 3002399750881280, false, 18446744069414584321, 16496341184493220914, 14752157424160725999, 15331777707844533717, 0, 15331777707844533717);
    lemma_pow_mod_step(7, 12009599003525120, 6004799501762560, false, 18446744069414584321, 15331777707844533717, 12742812867041550857, 11895029263313522992, 0, 11895029263313522992);
    lemma_pow_mod_step(7, 24019198007050240, 12009599003525120, false, 18446744069414584321, 11895029263313522992, 7670281576122899860, 11373273867503537004, 0, 11373273867503537004);
    lemma_pow_mod_step(7, 48038396014100480, 24019198007050240, false, 18446744069414584321, 11373273867503537004, 7012151194730804623, 13835058050987180033, 0, 13835058050987180033);
    lemma_pow_mod_step(7, 96076792028200960, 48038396014100480, false, 18446744069414584321, 13835058050987180033, 10376293537435066369, 35184372080640, 0, 35184372080640);
    lemma_pow_mod_step(7, 192153584056401920, 96076792028200960, false, 18446744069414584321, 35184372080640, 67108863, 18158513693262872577, 0, 18158513693262872577);
    lemma_pow_mod_step(7, 384307168112803840, 192153584056401920, false, 18446744069414584321, 18158513693262872577, 17874786916739579904, 18446744069413535745, 0, 18446744069413535745);
    lemma_pow_mod_step(7, 768614336225607680, 384307168112803840, false, 18446744069414584321, 18446744069413535745, 18446744069412487169, 1099511627776, 0, 1099511627776);
    lemma_pow_mod_step(7, 1537228672451215360, 768614336225607680, false, 18446744069414584321, 1099511627776, 65536, 281474976645120, 0, 281474976645120);
    lemma_pow_mod_step(7, 3074457344902430720, 1537228672451215360, false, 18446744069414584321, 281474976645120, 4294967294, 18446744065119617026, 0, 18446744065119617026);
    lemma_pow_mod_step(7, 6148914689804861440, 3074457344902430720, false, 18446744069414584321, 18446744065119617026, 18446744060824649731, 18446744065119617025, 0, 18446744065119617025);
}

/// `7^((p - 1) / 5)` modulo the Goldilocks prime.
proof fn lemma_gl_cofactor_5()
    ensures
        pow_mod(7, 3689348813882916864nat, 18446744069414584321nat) == 1373043270956696022nat,
{
    lemma_pow_mod_zero(7, 18446744069414584321);
    lemma_pow_mod_step(7, 1, 0, true, 18446744069414584321, 1, 0, 1, 0, 7);
    lemma_pow_mod_step(7, 3, 1, true, 18446744069414584321, 7, 0, 49, 0, 343);
    lemma_pow_mod_step(7, 6, 3, false, 18446744069414584321, 343, 0, 117649, 0, 117649);
    lemma_pow_mod_step(7, 12, 6, false, 18446744069414584321, 117649, 0, 13841287201, 0, 13841287201);
    lemma_pow_mod_step(7, 25, 12, true, 18446744069414584321, 13841287201, 10, 7113790686420571191, 2, 12903046666114829695);
    lemma_pow_mod_step(7, 51, 25, true, 18446744069414584321, 12903046666114829695, 9025365812061196555, 9508792519651578870, 3, 11221315429317299127);
    lemma_pow_mod_step(7, 102, 51, false, 18446744069414584321, 11221315429317299127, 6826024120593252355, 3745031562215636174, 0, 3745031562215636174);
    lemma_pow_mod_step(7, 204, 102, false, 18446744069414584321, 3745031562215636174, 760310944262826016, 14721374862152863140, 0, 14721374862152863140);
    lemma_pow_mod_step(7, 409, 204, true, 18446744069414584321, 14721374862152863140, 11748353910940550106, 8580336748508171574, 3, 4722125031313448055);
    lemma_pow_mod_step(7, 819, 409, true, 18446744069414584321, 4722125031313448055, 1208802199859689631, 1883594833244407474, 0, 13185163832710852318);
    lemma_pow_mod_step(7, 1638, 819, false, 18446744069414584321, 13185163832710852318, 9424348526831569695, 2814030611640221029, 0, 2814030611640221029);
    lemma_pow_mod_step(7, 3276, 1638, false, 18446744069414584321, 2814030611640221029, 429277288905301222, 15305242945550478579, 0, 15305242945550478579);
    lemma_pow_mod_step(7, 6553, 3276, true, 18446744069414584321, 15305242945550478579, 12698742972789383586, 16390917471927504135, 6, 4055957887005023019);
    lemma_pow_mod_step(7, 13107, 6553, true, 18446744069414584321, 4055957887005023019, 891799350565843482, 2270837492942628639, 0, 15895862450598400473);
    lemma_pow_mod_step(7, 26214, 13107, false, 18446744069414584321, 15895862450598400473, 13697725847852728906, 15907429390595540903, 0, 15907429390595540903);
    lemma_pow_mod_step(7, 52428, 26214, false, 18446744069414584321, 15907429390595540903, 13717667945333691601, 9571849187322067488, 0, 9571849187322067488);
    lemma_pow_mod_step(7, 104857, 52428, true, 18446744069414584321, 9571849187322067488, 4966746246387627957, 4541341506473167947, 1, 13342646475897591308);
    lemma_pow_mod_step(7, 209715, 104857, true, 18446744069414584321, 13342646475897591308, 9650820454323794076, 6980271831054868468, 2, 11968414678554910634);
    lemma_pow_mod_step(7, 419430, 209715, false, 18446744069414584321, 11968414678554910634, 7765215876516170691, 9815939365277946145, 0, 9815939365277946145);
    lemma_pow_mod_step(7, 838860, 419430, false, 18446744069414584321, 9815939365277946145, 5223288470867314591, 15620185229717233314, 0, 15620185229717233314);
    lemma_pow_mod_step(7, 1677721, 838860, true, 18446744069414584321, 15620185229717233314, 13226734522501539462, 10616950601403447294, 4, 531677932165793774);
    lemma_pow_mod_step(7, 3355443, 1677721, true, 18446744069414584321, 531677932165793774, 15324190680391730, 16662824208101097746, 6, 5959305040220178296);
    lemma_pow_mod_step(7, 6710886, 3355443, false, 18446744069414584321, 5959305040220178296, 1925180748903871568, 6422988881738978288, 0, 6422988881738978288);
    lemma_pow_mod_step(7, 13421772, 6710886, false, 18446744069414584321, 6422988881738978288, 2236426440335590882, 6417963550187649822, 0, 6417963550187649822);
    lemma_pow_mod_step(7, 26843545, 13421772, true, 18446744069414584321, 6417963550187649822, 2232928259672247577, 14252887398442191467, 5, 7536491442022418664);
    lemma_pow_mod_step(7, 53687091, 26843545, true, 18446744069414584321, 7536491442022418664, 3079063873925133703, 11420510904403074233, 4, 6156600053163182347);
    lemma_pow_mod_step(7, 107374182, 53687091, false, 18446744069414584321, 6156600053163182347, 2054765007416931727, 774671493430776042, 0, 774671493430776042);
    lemma_pow_mod_step(7, 214748364, 107374182, false, 18446744069414584321, 774671493430776042, 32532349366156400, 5396215078887381364, 0, 5396215078887381364);
    lemma_pow_mod_step(7, 429496729, 214748364, true, 18446744069414584321, 5396215078887381364, 1578551589811028170, 12728759107003177926, 4, 15314337471363908198);
    lemma_pow_mod_step(7, 858993459, 429496729, true, 18446744069414584321, 15314337471363908198, 12713838892342998846, 5793645042898913638, 2, 3662027161463226824);
    lemma_pow_mod_step(7, 1717986918, 858993459, false, 18446744069414584321, 3662027161463226824, 726981568174377818, 11820361339200135398, 0, 11820361339200135398);
    lemma_pow_mod_step(7, 3435973836, 1717986918, false, 18446744069414584321, 11820361339200135398, 7574287454929238631, 10563623981652513853, 0, 10563623981652513853);
    lemma_pow_mod_step(7, 6871947672, 3435973836, false, 18446744069414584321, 10563623981652513853, 6049314242439396175, 11556889392494533434, 0, 11556889392494533434);
    lemma_pow_mod_step(7, 13743895344, 6871947672, false, 18446744069414584321, 11556889392494533434, 7240393856377241219, 5123117391711505057, 0, 5123117391711505057);
    lemma_pow_mod_step(7, 27487790688, 13743895344, false, 18446744069414584321, 5123117391711505057, 1422816498699861553, 18163573378392062736, 0, 18163573378392062736);
    lemma_pow_mod_step(7, 54975581376, 27487790688, false, 18446744069414584321, 18163573378392062736, 17884749559638838976, 17372647198866510400, 0, 17372647198866510400);
    lemma_pow_mod_step(7, 109951162752, 54975581376, false, 18446744069414584321, 17372647198866510400, 16361091668024776241, 1220884775256242639, 0, 1220884775256242639);
    lemma_pow_mod_step(7, 219902325504, 109951162752, false, 18446744069414584321, 1220884775256242639, 80803399713442746, 1436240010618898855, 0, 1436240010618898855);
    lemma_pow_mod_step(7, 439804651008, 219902325504, false, 18446744069414584321, 1436240010618898855, 111823818899442134, 968157462317130011, 0, 968157462317130011);
    lemma_pow_mod_step(7, 879609302016, 439804651008, false, 18446744069414584321, 968157462317130011, 50812699970965205, 993397133647309316, 0, 993397133647309316);
    lemma_pow_mod_step(7, 1759218604032, 879609302016, false, 18446744069414584321, 993397133647309316, 53496587876171898, 14359758886168776598, 0, 14359758886168776598);
    lemma_pow_mod_step(7, 3518437208064, 1759218604032, false, 18446744069414584321, 14359758886168776598, 11178269427546032934, 11469785989846425790, 0, 11469785989846425790);
    lemma_pow_mod_step(7, 7036874416128, 3518437208064, false, 18446744069414584321, 11469785989846425790, 7131664545127087118, 7202858824453247222, 0, 7202858824453247222);
    lemma_pow_mod_step(7, 14073748832256, 7036874416128, false, 18446744069414584321, 7202858824453247222, 2812484146241558757, 8980223327998268287, 0, 8980223327998268287);
    lemma_pow_mod_step(7, 28147497664512, 14073748832256, false, 18446744069414584321, 8980223327998268287, 4371742282392037313, 2898061628613144896, 0, 2898061628613144896);
    lemma_pow_mod_step(7, 56294995329024, 28147497664512, false, 18446744069414584321, 2898061628613144896, 455297757242989289, 5148563552100513047, 0, 5148563552100513047);
    lemma_pow_mod_step(7, 112589990658048, 56294995329024, false, 18446744069414584321, 5148563552100513047, 1436985657212464717, 10405746850183322052, 0, 10405746850183322052);
    lemma_pow_mod_step(7, 225179981316096, 112589990658048, false, 18446744069414584321, 10405746850183322052, 5869847117878750337, 8376609452955824527, 0, 8376609452955824527);
    lemma_pow_mod_step(7, 450359962632192, 225179981316096, false, 18446744069414584321, 8376609452955824527, 3803792455910387527, 17819501121686609562, 0, 17819501121686609562);
    lemma_pow_mod_step(7, 900719925264384, 450359962632192, false, 18446744069414584321, 17819501121686609562, 17213586258415924325, 12701195747762323519, 0, 12701195747762323519);
    lemma_pow_mod_step(7, 1801439850528768, 900719925264384, false, 18446744069414584321, 12701195747762323519, 8745194968604305178, 16093963071722629223, 0, 16093963071722629223);
    lemma_pow_mod_step(7, 3602879701057536, 1801439850528768, false, 18446744069414584321, 16093963071722629223, 14041266381715007150, 18098504255140688579, 0, 18098504255140688579);
    lemma_pow_mod_step(7, 7205759402115072, 3602879701057536, false, 18446744069414584321, 18098504255140688579, 17756838553229884021, 3705545293506004500, 0, 3705545293506004500);
    lemma_pow_mod_step(7, 14411518804230144, 7205759402115072, false, 18446744069414584321, 3705545293506004500, 744362575344184441, 12143967077249500439, 0, 12143967077249500439);
    lemma_pow_mod_step(7, 28823037608460288, 14411518804230144, false, 18446744069414584321, 12143967077249500439, 7994686532125774161, 8898934198923663040, 0, 8898934198923663040);
    lemma_pow_mod_step(7, 57646075216920576, 28823037608460288, false, 18446744069414584321, 8898934198923663040, 4292954332687627470, 14017153681711143730, 0, 14017153681711143730);
    lemma_pow_mod_step(7, 115292150433841152, 57646075216920576, false, 18446744069414584321, 14017153681711143730, 10651234526665370023, 13369903252519103517, 0, 13369903252519103517);
    lemma_pow_mod_step(7, 230584300867682304, 115292150433841152, false, 18446744069414584321, 13369903252519103517, 9690290726052977176, 2271703332821311793, 0, 2271703332821311793);
    lemma_pow_mod_step(7, 461168601735364608, 230584300867682304, false, 18446744069414584321, 2271703332821311793, 279758639949257494, 14026992134716723275, 0, 14026992134716723275);
    lemma_pow_mod_step(7, 922337203470729216, 461168601735364608, false, 18446744069414584321, 14026992134716723275, 10666191692529345819, 2281812832982421726, 0, 2281812832982421726);
    lemma_pow_mod_step(7, 1844674406941458432, 922337203470729216, false, 18446744069414584321, 2281812832982421726, 282254135752667881, 2625919085333925275, 0, 2625919085333925275);
    lemma_pow_mod_step(7, 3689348813882916864, 1844674406941458432, false, 18446744069414584321, 2625919085333925275, 373803150126307843, 1373043270956696022, 0, 1373043270956696022);
}

/// `7^((p - 1) / 17)` modulo the Goldilocks prime.
proof fn lemma_gl_cofactor_17()
    ensures
        pow_mod(7, 1085102592318504960nat, 18446744069414584321nat) == 16301593560560007290nat,
{
    lemma_pow_mod_zero(7, 18446744069414584321);
    lemma_pow_mod_step(7, 1, 0, true, 18446744069414584321, 1, 0, 1, 0, 7);
    lemma_pow_mod_step(7, 3, 1, true, 18446744069414584321, 7, 0, 49, 0, 343);
    lemma_pow_mod_step(7, 7, 3, true, 18446744069414584321, 343, 0, 117649, 0, 823543);
    lemma_pow_mod_step(7, 15, 7, true, 18446744069414584321, 823543, 0, 678223072849, 0, 4747561509943);
    lemma_pow_mod_step(7, 30, 15, false, 18446744069414584321, 4747561509943, 1221860, 1582037354089406189, 0, 1582037354089406189);
    lemma_pow_mod_step(7, 60, 30, false, 18446744069414584321, 1582037354089406189, 135679347006500643, 6704211459967285318, 0, 6704211459967285318);
    lemma_pow_mod_step(7, 120, 60, false, 18446744069414584321, 6704211459967285318, 2436552007813651802, 12536486945555764682, 0, 12536486945555764682);
    lemma_pow_mod_step(7, 240, 120, false, 18446744069414584321, 12536486945555764682, 8519850676340941968, 8329639379454877396, 0, 8329639379454877396);
    lemma_pow_mod_step(7, 481, 240, true, 18446744069414584321, 8329639379454877396, 3761254123257716564, 9634757967695347772, 3, 12103073565623681441);
    lemma_pow_mod_step(7, 963, 481, true, 18446744069414584321, 12103073565623681441, 7940934681138419546, 7391097021356298215, 2, 14844191010664918863);
    lemma_pow_mod_step(7, 1927, 963, true, 18446744069414584321, 14844191010664918863, 11945197804660499710, 12415576456582165859, 4, 13122058918416823729);
    lemma_pow_mod_step(7, 3855, 1927, true, 18446744069414584321, 13122058918416823729, 9334353510324761538, 7897896591338819743, 2, 18391788000542569559);
    lemma_pow_mod_step(7, 7710, 3855, false, 18446744069414584321, 18391788000542569559, 18336995655387569616, 5815952681263863745, 0, 5815952681263863745);
    lemma_pow_mod_step(7, 15420, 7710, false, 18446744069414584321, 5815952681263863745, 1833673490748103986, 15534263258852221519, 0, 15534263258852221519);
    lemma_pow_mod_step(7, 30840, 15420, false, 18446744069414584321, 15534263258852221519, 13081622105628542398, 9621442331152125603, 0, 9621442331152125603);
    lemma_pow_mod_step(7, 61680, 30840, false, 18446744069414584321, 9621442331152125603, 5018346445494100015, 13847347385863248794, 0, 13847347385863248794);
    lemma_pow_mod_step(7, 123361, 61680, true, 18446744069414584321, 13847347385863248794, 10394735726978565456, 17205675455212639060, 6, 9759263770000967494);
    lemma_pow_mod_step(7, 246723, 123361, true, 18446744069414584321, 9759263770000967494, 5163145809041198643, 14407346328610363633, 5, 8617703953199623826);
    lemma_pow_mod_step(7, 493447, 246723, true, 18446744069414584321, 8617703953199623826, 4025904037348594906, 18431779654498809450, 6, 18341993165004160224);
    lemma_pow_mod_step(7, 986895, 493447, true, 18446744069414584321, 18341993165004160224, 18237837094670335858, 18143715114932847758, 6, 16325541388042428380);
    lemma_pow_mod_step(7, 1973790, 986895, false, 18446744069414584321, 16325541388042428380, 14448257134688188654, 87681681590930466, 0, 87681681590930466);
    lemma_pow_mod_step(7, 3947580, 1973790, false, 18446744069414584321, 87681681590930466, 416771504916168, 1247600097974775228, 0, 1247600097974775228);
    lemma_pow_mod_step(7, 7895160, 3947580, false, 18446744069414584321, 1247600097974775228, 84378359596120594, 263672500424845310, 0, 263672500424845310);
    lemma_pow_mod_step(7, 15790320, 7895160, false, 18446744069414584321, 263672500424845310, 3768859546089880, 14075661776324224620, 0, 14075661776324224620);
    lemma_pow_mod_step(7, 31580641, 15790320, true, 18446744069414584321, 14075661776324224620, 10740337356876572541, 1097754007496414739, 0, 7684278052474903173);
    lemma_pow_mod_step(7, 63161283, 31580641, true, 18446744069414584321, 7684278052474903173, 3201005498073319860, 16912746553351552869, 6, 7708761456973364157);
    lemma_pow_mod_step(7, 126322567, 63161283, true, 18446744069414584321, 7708761456973364157, 3221435879248038117, 7915739019813757092, 3, 69940930452546681);
    lemma_pow_mod_step(7, 252645135, 126322567, true, 18446744069414584321, 69940930452546681, 265181418149485, 10242565372168891076, 3, 16357725396938484569);
    lemma_pow_mod_step(7, 505290270, 252645135, false, 18446744069414584321, 16357725396938484569, 14505279585100132017, 9635924811972810304, 0, 9635924811972810304);
    lemma_pow_mod_step(7, 1010580540, 505290270, false, 18446744069414584321, 9635924811972810304, 5033465343943480489, 17792655913659759447, 0, 17792655913659759447);
    lemma_pow_mod_step(7, 2021161080, 1010580540, false, 18446744069414584321, 17792655913659759447, 17161760539996388258, 757864979510442991, 0, 757864979510442991);
    lemma_pow_mod_step(7, 4042322160, 2021161080, false, 18446744069414584321, 757864979510442991, 31136081522412086, 5359388630104522475, 0, 5359388630104522475);
    lemma_pow_mod_step(7, 8084644320, 4042322160, false, 18446744069414584321, 5359388630104522475, 1557079470523882470, 16844089689671372755, 0, 16844089689671372755);
    lemma_pow_mod_step(7, 16169288640, 8084644320, false, 18446744069414584321, 16844089689671372755, 15380674031474082800, 3416859319420511225, 0, 3416859319420511225);
    lemma_pow_mod_step(7, 32338577280, 16169288640, false, 18446744069414584321, 3416859319420511225, 632899093996120487, 13225002848613916298, 0, 13225002848613916298);
    lemma_pow_mod_step(7, 64677154560, 32338577280, false, 18446744069414584321, 13225002848613916298, 9481385966417690571, 3046446182183887513, 0, 3046446182183887513);
    lemma_pow_mod_step(7, 129354309120, 64677154560, false, 18446744069414584321, 3046446182183887513, 503115037863552653, 8471950025145571556, 0, 8471950025145571556);
    lemma_pow_mod_step(7, 258708618240, 129354309120, false, 18446744069414584321, 8471950025145571556, 3890872934458282888, 14240312891968862088, 0, 14240312891968862088);
    lemma_pow_mod_step(7, 517417236480, 258708618240, false, 18446744069414584321, 14240312891968862088, 10993078805565609884, 14284159170854690980, 0, 14284159170854690980);
    lemma_pow_mod_step(7, 1034834472960, 517417236480, false, 18446744069414584321, 14284159170854690980, 11060878952433332310, 2140736107784648890, 0, 2140736107784648890);
    lemma_pow_mod_step(7, 2069668945920, 1034834472960, false, 18446744069414584321, 2140736107784648890, 248431434074663970, 720221585272617730, 0, 720221585272617730);
    lemma_pow_mod_step(7, 4139337891840, 2069668945920, false, 18446744069414584321, 720221585272617730, 28119820491934886, 14933742682021830494, 0, 14933742682021830494);
    lemma_pow_mod_step(7, 8278675783680, 4139337891840, false, 18446744069414584321, 14933742682021830494, 12089757935255948337, 16866753830962059859, 0, 16866753830962059859);
    lemma_pow_mod_step(7, 16557351567360, 8278675783680, false, 18446744069414584321, 16866753830962059859, 15422092035524275423, 4185523320037657098, 0, 4185523320037657098);
    lemma_pow_mod_step(7, 33114703134720, 16557351567360, false, 18446744069414584321, 4185523320037657098, 949685505293347548, 17086191566025186696, 0, 17086191566025186696);
    lemma_pow_mod_step(7, 66229406269440, 33114703134720, false, 18446744069414584321, 17086191566025186696, 15825987563569802540, 1098680059505421076, 0, 1098680059505421076);
    lemma_pow_mod_step(7, 132458812538880, 66229406269440, false, 18446744069414584321, 1098680059505421076, 65436906839090947, 16940429312545755789, 0, 16940429312545755789);
    lemma_pow_mod_step(7, 264917625077760, 132458812538880, false, 18446744069414584321, 16940429312545755789, 15557116432768227154, 16945016486212160087, 0, 16945016486212160087);
    lemma_pow_mod_step(7, 529835250155520, 264917625077760, false, 18446744069414584321, 16945016486212160087, 15565542766654441545, 18171560771947831624, 0, 18171560771947831624);
    lemma_pow_mod_step(7, 1059670500311040, 529835250155520, false, 18446744069414584321, 18171560771947831624, 17900482580884665437, 14884189242943664099, 0, 14884189242943664099);
    lemma_pow_mod_step(7, 2119341000622080, 1059670500311040, false, 18446744069414584321, 14884189242943664099, 12009658104764421268, 7182983899389742773, 0, 7182983899389742773);
    lemma_pow_mod_step(7, 4238682001244160, 2119341000622080, false, 18446744069414584321, 7182983899389742773, 2796984525005646317, 7794706010606133772, 0, 7794706010606133772);
    lemma_pow_mod_step(7, 8477364002488320, 4238682001244160, false, 18446744069414584321, 7794706010606133772, 3293667520032306374, 5944394147430185930, 0, 5944394147430185930);
    lemma_pow_mod_step(7, 16954728004976640, 8477364002488320, false, 18446744069414584321, 5944394147430185930, 1915558737467952802, 11638363544692747458, 0, 11638363544692747458);
    lemma_pow_mod_step(7, 33909456009953280, 16954728004976640, false, 18446744069414584321, 11638363544692747458, 7342840855206365294, 8942909788274506390, 0, 8942909788274506390);
    lemma_pow_mod_step(7, 67818912019906560, 33909456009953280, false, 18446744069414584321, 8942909788274506390, 4335487887741592074, 10254463118692560346, 0, 10254463118692560346);
    lemma_pow_mod_step(7, 135637824039813120, 67818912019906560, false, 18446744069414584321, 10254463118692560346, 5700410514556624445, 6509392022269312871, 0, 6509392022269312871);
    lemma_pow_mod_step(7, 271275648079626240, 135637824039813120, false, 18446744069414584321, 6509392022269312871, 2297000724905057721, 3060481852759670200, 0, 3060481852759670200);
    lemma_pow_mod_step(7, 542551296159252480, 271275648079626240, false, 18446744069414584321, 3060481852759670200, 507761648116610708, 9492362781570530732, 0, 9492362781570530732);
    lemma_pow_mod_step(7, 1085102592318504960, 542551296159252480, false, 18446744069414584321, 9492362781570530732, 4884599192024511254, 16301593560560007290, 0, 16301593560560007290);
}

/// `7^((p - 1) / 257)` modulo the Goldilocks prime.
proof fn lemma_gl_cofactor_257()
    ensures
        pow_mod(7, 71777214277877760nat, 18446744069414584321nat) == 995085315851368103nat,
{
    lemma_pow_mod_zero(7, 18446744069414584321);
    lemma_pow_mod_step(7, 1, 0, true, 18446744069414584321, 1, 0, 1, 0, 7);
    lemma_pow_mod_step(7, 3, 1, true, 18446744069414584321, 7, 0, 49, 0, 343);
    lemma_pow_mod_step(7, 7, 3, true, 18446744069414584321, 343, 0, 117649, 0, 823543);
    lemma_pow_mod_step(7, 15, 7, true, 18446744069414584321, 823543, 0, 678223072849, 0, 4747561509943);
    lemma_pow_mod_step(7, 31, 15, true, 18446744069414584321, 4747561509943, 1221860, 1582037354089406189, 0, 11074261478625843323);
    lemma_pow_mod_step(7, 63, 31, true, 18446744069414584321, 11074261478625843323, 6648288003318531524, 14911712358349047125, 5, 12148266161370408270);
    lemma_pow_mod_step(7, 127, 63, true, 18446744069414584321, 12148266161370408270, 8000347929811162796, 14177331716484271384, 5, 7007601668316978083);
    lemma_pow_mod_step(7, 255, 127, true, 18446744069414584321, 7007601668316978083, 2662067677472651718, 1160753142525841411, 0, 8125271997680889877);
    lemma_pow_mod_step(7, 510, 255, false, 18446744069414584321, 8125271997680889877, 3578953813630503444, 10915923311382173605, 0, 10915923311382173605);
    lemma_pow_mod_step(7, 1020, 510, false, 18446744069414584321, 10915923311382173605, 6459534609012346485, 8682737361258234340, 0, 8682737361258234340);
    lemma_pow_mod_step(7, 2040, 1020, false, 18446744069414584321, 8682737361258234340, 4086896191593454428, 13168992710278412212, 0, 13168992710278412212);
    lemma_pow_mod_step(7, 4080, 2040, false, 18446744069414584321, 13168992710278412212, 9401245463740506992, 3615243740316660512, 0, 3615243740316660512);
    lemma_pow_mod_step(7, 8160, 4080, false, 18446744069414584321, 3615243740316660512, 708525431518798068, 9701552052102210316, 0, 9701552052102210316);
    lemma_pow_mod_step(7, 16320, 8160, false, 18446744069414584321, 9701552052102210316, 5102261508344087520, 12082995573853045936, 0, 12082995573853045936);
    lemma_pow_mod_step(7, 32640, 16320, false, 18446744069414584321, 12082995573853045936, 7914609835121197925, 2592469405483382171, 0, 2592469405483382171);
    lemma_pow_mod_step(7, 65280, 32640, false, 18446744069414584321, 2592469405483382171, 364340590029156928, 8929377406043347353, 0, 8929377406043347353);
    lemma_pow_mod_step(7, 130561, 65280, true, 18446744069414584321, 8929377406043347353, 4322376922427146017, 9795840452586307152, 3, 13230650959860397101);
    lemma_pow_mod_step(7, 261123, 130561, true, 18446744069414584321, 13230650959860397101, 9489486283484288682, 13828748494014249279, 5, 4567519111026823348);
    lemma_pow_mod_step(7, 522247, 261123, true, 18446744069414584321, 4567519111026823348, 1130943799680380932, 9911383694283361932, 3, 14039453651739780561);
    lemma_pow_mod_step(7, 1044495, 522247, true, 18446744069414584321, 14039453651739780561, 10685151704693473038, 6677584045842437523, 2, 9849600182067894019);
    lemma_pow_mod_step(7, 2088991, 1044495, true, 18446744069414584321, 9849600182067894019, 5259173292670433493, 10583023550344909108, 4, 294188574756026472);
    lemma_pow_mod_step(7, 4177983, 2088991, true, 18446744069414584321, 294188574756026472, 4691717800784167, 7184320642221521177, 2, 13396756356721479597);
    lemma_pow_mod_step(7, 8355967, 4177983, true, 18446744069414584321, 13396756356721479597, 9729255211976984404, 5302980850127352725, 2, 227377812062300433);
    lemma_pow_mod_step(7, 16711935, 8355967, true, 18446744069414584321, 227377812062300433, 2802698905763024, 8373948673660040785, 3, 3277408507376532532);
    lemma_pow_mod_step(7, 33423870, 16711935, false, 18446744069414584321, 3277408507376532532, 582292814591261049, 10187910960120918295, 0, 10187910960120918295);
    lemma_pow_mod_step(7, 66847740, 33423870, false, 18446744069414584321, 10187910960120918295, 5626658522543586488, 1234511965033452377, 0, 1234511965033452377);
    lemma_pow_mod_step(7, 133695480, 66847740, false, 18446744069414584321, 1234511965033452377, 82617278478842222, 15363200638052948867, 0, 15363200638052948867);
    lemma_pow_mod_step(7, 267390960, 133695480, false, 18446744069414584321, 15363200638052948867, 12795099935083611061, 1236027695563809108, 0, 1236027695563809108);
    lemma_pow_mod_step(7, 534781920, 267390960, false, 18446744069414584321, 1236027695563809108, 82820277575915035, 12002353154524589429, 0, 12002353154524589429);
    lemma_pow_mod_step(7, 1069563840, 534781920, false, 18446744069414584321, 12002353154524589429, 7809317498190782878, 14027517171084490203, 0, 14027517171084490203);
    lemma_pow_mod_step(7, 2139127680, 1069563840, false, 18446744069414584321, 14027517171084490203, 10666990187787369356, 2711851439569513933, 0, 2711851439569513933);
    lemma_pow_mod_step(7, 4278255360, 2139127680, false, 18446744069414584321, 2711851439569513933, 398668632395062656, 80652374890911913, 0, 80652374890911913);
    lemma_pow_mod_step(7, 8556510720, 4278255360, false, 18446744069414584321, 80652374890911913, 352626216912144, 5283607704788425345, 0, 5283607704788425345);
    lemma_pow_mod_step(7, 17113021440, 8556510720, false, 18446744069414584321, 5283607704788425345, 1513357060359842408, 15514810852250684057, 0, 15514810852250684057);
    lemma_pow_mod_step(7, 34226042880, 17113021440, false, 18446744069414584321, 15514810852250684057, 13048880326811766543, 13397417830393806946, 0, 13397417830393806946);
    lemma_pow_mod_step(7, 68452085760, 34226042880, false, 18446744069414584321, 13397417830393806946, 9730216012470005624, 16359729400225625612, 0, 16359729400225625612);
    lemma_pow_mod_step(7, 136904171520, 68452085760, false, 18446744069414584321, 16359729400225625612, 14508833918955130100, 8019533974815212444, 0, 8019533974815212444);
    lemma_pow_mod_step(7, 273808343040, 136904171520, false, 18446744069414584321, 8019533974815212444, 3486410660396638761, 9655755660440986855, 0, 9655755660440986855);
    lemma_pow_mod_step(7, 547616686080, 273808343040, false, 18446744069414584321, 9655755660440986855, 5054204526462916814, 3604536941271117731, 0, 3604536941271117731);
    lemma_pow_mod_step(7, 1095233372160, 547616686080, false, 18446744069414584321, 3604536941271117731, 704334949956318982, 17307879323250707139, 0, 17307879323250707139);
    lemma_pow_mod_step(7, 2190466744320, 1095233372160, false, 18446744069414584321, 17307879323250707139, 16239325787844364670, 16869139653157226251, 0, 16869139653157226251);
    lemma_pow_mod_step(7, 4380933488640, 2190466744320, false, 18446744069414584321, 16869139653157226251, 15426455290261550876, 6953284473670099805, 0, 6953284473670099805);
    lemma_pow_mod_step(7, 8761866977280, 4380933488640, false, 18446744069414584321, 6953284473670099805, 2620959275514902696, 18224581395058808609, 0, 18224581395058808609);
    lemma_pow_mod_step(7, 17523733954560, 8761866977280, false, 18446744069414584321, 18224581395058808609, 18005094328587610480, 12317229062629230801, 0, 12317229062629230801);
    lemma_pow_mod_step(7, 35047467909120, 17523733954560, false, 18446744069414584321, 12317229062629230801, 8224439565615596223, 8521080430804482018, 0, 8521080430804482018);
    lemma_pow_mod_step(7, 70094935818240, 35047467909120, false, 18446744069414584321, 8521080430804482018, 3936131570699640004, 1553296775282575040, 0, 1553296775282575040);
    lemma_pow_mod_step(7, 140189871636480, 70094935818240, false, 18446744069414584321, 1553296775282575040, 130794402688312220, 13200482976866298980, 0, 13200482976866298980);
    lemma_pow_mod_step(7, 280379743272960, 140189871636480, false, 18446744069414584321, 13200482976866298980, 9446260552367870276, 14925891398157497804, 0, 14925891398157497804);
    lemma_pow_mod_step(7, 560759486545920, 280379743272960, false, 18446744069414584321, 14925891398157497804, 12077049109114792339, 15678887058344505597, 0, 15678887058344505597);
    lemma_pow_mod_step(7, 1121518973091840, 560759486545920, false, 18446744069414584321, 15678887058344505597, 13326335447777710170, 14658776698600081839, 0, 14658776698600081839);
    lemma_pow_mod_step(7, 2243037946183680, 1121518973091840, false, 18446744069414584321, 14658776698600081839, 11648653740239158589, 16565152875265738852, 0, 16565152875265738852);
    lemma_pow_mod_step(7, 4486075892367360, 2243037946183680, false, 18446744069414584321, 16565152875265738852, 14875486359454496296, 5984943436188102888, 0, 5984943436188102888);
    lemma_pow_mod_step(7, 8972151784734720, 4486075892367360, false, 18446744069414584321, 5984943436188102888, 1941781584846794362, 14921717924877542342, 0, 14921717924877542342);
    lemma_pow_mod_step(7, 17944303569469440, 8972151784734720, false, 18446744069414584321, 14921717924877542342, 12070296253461161021, 1654982787239893223, 0, 1654982787239893223);
    lemma_pow_mod_step(7, 35888607138938880, 17944303569469440, false, 18446744069414584321, 1654982787239893223, 148479754245717577, 18353445258623017512, 0, 18353445258623017512);
    lemma_pow_mod_step(7, 71777214277877760, 35888607138938880, false, 18446744069414584321, 18353445258623017512, 18260618328834535321, 995085315851368103, 0, 995085315851368103);
}

/// `7^((p - 1) / 65537)` modulo the Goldilocks prime.
proof fn lemma_gl_cofactor_65537()
    ensures
        pow_mod(7, 281470681743360nat, 18446744069414584321nat) == 8478886009461009681nat,
{
    lemma_pow_mod_zero(7, 18446744069414584321);
    lemma_pow_mod_step(7, 1, 0, true, 18446744069414584321, 1, 0, 1, 0, 7);
    lemma_pow_mod_step(7, 3, 1, true, 18446744069414584321, 7, 0, 49, 0, 343);
    lemma_pow_mod_step(7, 7, 3, true, 18446744069414584321, 343, 0, 117649, 0, 823543);
    lemma_pow_mod_step(7, 15, 7, true, 18446744069414584321, 823543, 0, 678223072849, 0, 4747561509943);
    lemma_pow_mod_step(7, 31, 15, true, 18446744069414584321, 4747561509943, 1221860, 1582037354089406189, 0, 11074261478625843323);
    lemma_pow_mod_step(7, 63, 31, true, 18446744069414584321, 11074261478625843323, 6648288003318531524, 14911712358349047125, 5, 12148266161370408270);
    lemma_pow_mod_step(7, 127, 63, true, 18446744069414584321, 12148266161370408270, 8000347929811162796, 14177331716484271384, 5, 7007601668316978083);
    lemma_pow_mod_step(7, 255, 127, true, 18446744069414584321, 7007601668316978083, 2662067677472651718, 1160753142525841411, 0, 8125271997680889877);
    lemma_pow_mod_step(7, 511, 255, true, 18446744069414584321, 8125271997680889877, 3578953813630503444, 10915923311382173605, 4, 2624486902016877951);
    lemma_pow_mod_step(7, 1023, 511, true, 18446744069414584321, 2624486902016877951, 373395514836605044, 1179017105118043277, 0, 8253119735826302939);
    lemma_pow_mod_step(7, 2047, 1023, true, 18446744069414584321, 8253119735826302939, 3692466546810352761, 13682469552810377440, 5, 3543566522599720475);
    lemma_pow_mod_step(7, 4095, 2047, true, 18446744069414584321, 3543566522599720475, 680708945320558836, 12252646851770615269, 4, 11981551684735969599);
    lemma_pow_mod_step(7, 8191, 4095, true, 18446744069414584321, 11981551684735969599, 7782272049408620407, 9343193256669382154, 3, 10062120588441922115);
    lemma_pow_mod_step(7, 16383, 8191, true, 18446744069414584321, 10062120588441922115, 5488571335698045963, 4133221502128927102, 1, 10485806445487905393);
    lemma_pow_mod_step(7, 32767, 16383, true, 18446744069414584321, 10485806445487905393, 5960517281450258735, 5861853314594190514, 2, 4139485063330164956);
    lemma_pow_mod_step(7, 65535, 32767, true, 18446744069414584321, 4139485063330164956, 928908458048409263, 7004045467739516513, 2, 12134830135347446949);
    lemma_pow_mod_step(7, 131070, 65535, false, 18446744069414584321, 12134830135347446949, 7982660889077413892, 618113109518621269, 0, 618113109518621269);
    lemma_pow_mod_step(7, 262140, 131070, false, 18446744069414584321, 618113109518621269, 20711720980194856, 10057574059836717585, 0, 10057574059836717585);
    lemma_pow_mod_step(7, 524280, 262140, false, 18446744069414584321, 10057574059836717585, 5483612478628084872, 11436575600859740313, 0, 11436575600859740313);
    lemma_pow_mod_step(7, 1048560, 524280, false, 18446744069414584321, 11436575600859740313, 7090425333706664058, 2460531272136303351, 0, 2460531272136303351);
    lemma_pow_mod_step(7, 2097120, 1048560, false, 18446744069414584321, 2460531272136303351, 328199606303359338, 5287351674330089703, 0, 5287351674330089703);
    lemma_pow_mod_step(7, 4194240, 2097120, false, 18446744069414584321, 5287351674330089703, 1515502552799736540, 2729558173611838869, 0, 2729558173611838869);
    lemma_pow_mod_step(7, 8388480, 4194240, false, 18446744069414584321, 2729558173611838869, 403891754289820429, 5809869834850305452, 0, 5809869834850305452);
    lemma_pow_mod_step(7, 16776960, 8388480, false, 18446744069414584321, 5809869834850305452, 1829839855254994736, 4380238239217790048, 0, 4380238239217790048);
    lemma_pow_mod_step(7, 33553920, 16776960, false, 18446744069414584321, 4380238239217790048, 1040101546381711006, 10313688370767105378, 0, 10313688370767105378);
    lemma_pow_mod_step(7, 67107840, 33553920, false, 18446744069414584321, 10313688370767105378, 5766446772884207792, 1116132233887293652, 0, 1116132233887293652);
    lemma_pow_mod_step(7, 134215680, 67107840, false, 18446744069414584321, 1116132233887293652, 67532305909081485, 8201916556687100419, 0, 8201916556687100419);
    lemma_pow_mod_step(7, 268431360, 134215680, false, 18446744069414584321, 8201916556687100419, 3646791810506908108, 9569002298025400893, 0, 9569002298025400893);
    lemma_pow_mod_step(7, 536862720, 268431360, false, 18446744069414584321, 9569002298025400893, 4963792235369874951, 3860342023949954178, 0, 3860342023949954178);
    lemma_pow_mod_step(7, 1073725440, 536862720, false, 18446744069414584321, 3860342023949954178, 807852078708161850, 2518827640559301834, 0, 2518827640559301834);
    lemma_pow_mod_step(7, 2147450880, 1073725440, false, 18446744069414584321, 2518827640559301834, 343935637583054772, 4408381949760333744, 0, 4408381949760333744);
    lemma_pow_mod_step(7, 4294901760, 2147450880, false, 18446744069414584321, 4408381949760333744, 1053510112236812913, 5214785644524920463, 0, 5214785644524920463);
    lemma_pow_mod_step(7, 8589803520, 4294901760, false, 18446744069414584321, 5214785644524920463, 1474189115218000828, 16359673064222316581, 0, 16359673064222316581);
    lemma_pow_mod_step(7, 17179607040, 8589803520, false, 18446744069414584321, 16359673064222316581, 14508733994526267725, 7241809583754189836, 0, 7241809583754189836);
    lemma_pow_mod_step(7, 34359214080, 17179607040, false, 18446744069414584321, 7241809583754189836, 2842984423159417742, 12639803007403283714, 0, 12639803007403283714);
    lemma_pow_mod_step(7, 68718428160, 34359214080, false, 18446744069414584321, 12639803007403283714, 8660857410108324724, 12324653451830581392, 0, 12324653451830581392);
    lemma_pow_mod_step(7, 137436856320, 68718428160, false, 18446744069414584321, 12324653451830581392, 8234357355213200339, 3248773168955372845, 0, 3248773168955372845);
    lemma_pow_mod_step(7, 274873712640, 137436856320, false, 18446744069414584321, 3248773168955372845, 572162060882285997, 11622038198969340988, 0, 11622038198969340988);
    lemma_pow_mod_step(7, 549747425280, 274873712640, false, 18446744069414584321, 11622038198969340988, 7322255428385150589, 13512512774593501075, 0, 13512512774593501075);
    lemma_pow_mod_step(7, 1099494850560, 549747425280, false, 18446744069414584321, 13512512774593501075, 9898115396217294011, 7628844061018354094, 0, 7628844061018354094);
    lemma_pow_mod_step(7, 2198989701120, 1099494850560, false, 18446744069414584321, 7628844061018354094, 3154988299741830395, 10832619856158324041, 0, 10832619856158324041);
    lemma_pow_mod_step(7, 4397979402240, 2198989701120, false, 18446744069414584321, 10832619856158324041, 6361320594380621547, 6522121551337605094, 0, 6522121551337605094);
    lemma_pow_mod_step(7, 8795958804480, 4397979402240, false, 18446744069414584321, 6522121551337605094, 2305993370448078927, 4924686556790045269, 0, 4924686556790045269);
    lemma_pow_mod_step(7, 17591917608960, 8795958804480, false, 18446744069414584321, 4924686556790045269, 1314732702495734083, 8233486007872169718, 0, 8233486007872169718);
    lemma_pow_mod_step(7, 35183835217920, 17591917608960, false, 18446744069414584321, 8233486007872169718, 3674919085272382902, 6861851865518519982, 0, 6861851865518519982);
    lemma_pow_mod_step(7, 70367670435840, 35183835217920, false, 18446744069414584321, 6861851865518519982, 2552483562797879524, 16452032933035937120, 0, 16452032933035937120);
    lemma_pow_mod_step(7, 140735340871680, 70367670435840, false, 18446744069414584321, 16452032933035937120, 14673016908088369982, 7318164361609642178, 0, 7318164361609642178);
    lemma_pow_mod_step(7, 281470681743360, 140735340871680, false, 18446744069414584321, 7318164361609642178, 2903251078998304243, 8478886009461009681, 0, 8478886009461009681);
}

/// `3^(p - 1) = 1` modulo the almost Goldilocks prime.
proof fn lemma_ag_order()
    ensures
        pow_mod(3, 18446744069414584288nat, 18446744069414584289nat) == 1nat,
{
    lemma_pow_mod_zero(3, 18446744069414584289);
    lemma_pow_mod_step(3, 1, 0, true, 18446744069414584289, 1, 0, 1, 0, 3);
    lemma_pow_mod_step(3, 3, 1, true, 18446744069414584289, 3, 0, 9, 0, 27);
    lemma_pow_mod_step(3, 7, 3, true, 18446744069414584289, 27, 0, 729, 0, 2187);
    lemma_pow_mod_step(3, 15, 7, true, 18446744069414584289, 2187, 0, 4782969, 0, 14348907);
    lemma_pow_mod_step(3, 31, 15, true, 18446744069414584289, 14348907, 0, 205891132094649, 0, 617673396283947);
    lemma_pow_mod_step(3, 63, 31, true, 18446744069414584289, 617673396283947, 20682263658, 1665545653087429647, 0, 4996636959262288941);
    lemma_pow_mod_step(3, 127, 63, true, 18446744069414584289, 4996636959262288941, 1353430221003668547, 11643919792621243398, 1, 16485015308449145905);
    lemma_pow_mod_step(3, 255, 127, true, 18446744069414584289, 16485015308449145905, 14731907630809721494, 15383517558100261259, 2, 9257064535471615199);
    lemma_pow_mod_step(3, 511, 255, true, 18446744069414584289, 9257064535471615199, 4645440056598878399, 9119524535680936290, 1, 8911829537628224581);
    lemma_pow_mod_step(3, 1023, 511, true, 18446744069414584289, 8911829537628224581, 4305405084435767688, 7181533933073971729, 1, 3097857729807330898);
    lemma_pow_mod_step(3, 2047, 1023, true, 18446744069414584289, 3097857729807330898, 520239370048981563, 10009239699395022697, 1, 11580975028770483802);
    lemma_pow_mod_step(3, 4095, 2047, true, 18446744069414584289, 11580975028770483802, 7270604617937968404, 12950313048267570448, 2, 1957451005973542766);
    lemma_pow_mod_step(3, 8191, 4095, true, 18446744069414584289, 1957451005973542766, 207712235089757634, 10443884411356718530, 1, 12884909164655571301);
    lemma_pow_mod_step(3, 16383, 8191, true, 18446744069414584289, 12884909164655571301, 9000010167468750466, 6451089463029803927, 1, 906524319674827492);
    lemma_pow_mod_step(3, 32767, 16383, true, 18446744069414584289, 906524319674827492, 44549126884915283, 16368088125531221277, 2, 12210776237764495253);
    lemma_pow_mod_step(3, 65535, 32767, true, 18446744069414584289, 12210776237764495253, 8082892881675128785, 8925488352546875144, 1, 8329720988226041143);
    lemma_pow_mod_step(3, 131071, 65535, true, 18446744069414584289, 8329720988226041143, 3761327824607009677, 13162343641973581796, 2, 2593542787091576810);
    lemma_pow_mod_step(3, 262143, 131071, true, 18446744069414584289, 2593542787091576810, 364642354399413071, 3284032663071934581, 0, 9852097989215803743);
    lemma_pow_mod_step(3, 524287, 262143, true, 18446744069414584289, 9852097989215803743, 5261841028631479667, 10291961245731658286, 1, 12429139667780390569);
    lemma_pow_mod_step(3, 1048575, 524287, true, 18446744069414584289, 12429139667780390569, 8374568015898896857, 16369134503840464088, 2, 12213915372692223686);
    lemma_pow_mod_step(3, 2097151, 1048575, true, 18446744069414584289, 12213915372692223686, 8087049300945915228, 16648583991204773704, 2, 13052263834785152534);
    lemma_pow_mod_step(3, 4194303, 2097151, true, 18446744069414584289, 13052263834785152534, 9235320367202715641, 4585535201753456907, 0, 13756605605260370721);
    lemma_pow_mod_step(3, 8388607, 4194303, true, 18446744069414584289, 13756605605260370721, 10258948520484720982, 6759659580668208043, 1, 1832234672590039840);
    lemma_pow_mod_step(3, 16777215, 8388607, true, 18446744069414584289, 1832234672590039840, 181987882675041040, 13869772905173005040, 2, 4715830576689846542);
    lemma_pow_mod_step(3, 33554431, 16777215, true, 18446744069414584289, 4715830576689846542, 1205581751682461386, 10629157194024593210, 1, 13440727512659195341);
    lemma_pow_mod_step(3, 67108863, 33554431, true, 18446744069414584289, 13440727512659195341, 9793227216128821650, 1045870975423049431, 0, 3137612926269148293);
    lemma_pow_mod_step(3, 134217727, 67108863, true, 18446744069414584289, 3137612926269148293, 533677641867108696, 12502715524407936705, 2, 614658434394641537);
    lemma_pow_mod_step(3, 268435455, 134217727, true, 18446744069414584289, 614658434394641537, 20480849604179588, 3382159760806429437, 0, 10146479282419288311);
    lemma_pow_mod_step(3, 536870911, 268435455, true, 18446744069414584289, 10146479282419288311, 5580987161808172330, 7114568241918709351, 1, 2896960656341543764);
    lemma_pow_mod_step(3, 1073741823, 536870911, true, 18446744069414584289, 2896960656341543764, 454951888138661860, 8712267510087770156, 1, 7690058460848726179);
    lemma_pow_mod_step(3, 2147483647, 1073741823, true, 18446744069414584289, 7690058460848726179, 3205823147366288510, 14209242672432720651, 2, 5734239878468993375);
    lemma_pow_mod_step(3, 4294967294, 2147483647, false, 18446744069414584289, 5734239878468993375, 1782510065737991523, 7993715722942908478, 0, 7993715722942908478);
    lemma_pow_mod_step(3, 8589934589, 4294967294, true, 18446744069414584289, 7993715722942908478, 3463998352162997455, 16668446322894291989, 2, 13111850829853707389);
    lemma_pow_mod_step(3, 17179869179, 8589934589, true, 18446744069414584289, 13111850829853707389, 9319836147636829745, 6688920772988321016, 1, 1620018249550378759);
    lemma_pow_mod_step(3, 34359738359, 17179869179, true, 18446744069414584289, 1620018249550378759, 142272214489478828, 9988215550471446789, 1, 11517902581999756078);
    lemma_pow_mod_step(3, 68719476719, 34359738359, true, 18446744069414584289, 11517902581999756078, 7191625762748858828, 8802177396730188792, 1, 7959788120775982087);
    lemma_pow_mod_step(3, 137438953439, 68719476719, true, 18446744069414584289, 7959788120775982087, 3434656364788886139, 6803076493305605398, 1, 1962485410502231905);
    lemma_pow_mod_step(3, 274877906879, 137438953439, true, 18446744069414584289, 1962485410502231905, 208782046953196438, 2489767202874366443, 0, 7469301608623099329);
    lemma_pow_mod_step(3, 549755813759, 274877906879, true, 18446744069414584289, 7469301608623099329, 3024407250983785932, 18392900088653827893, 2, 18285212127132315101);
    lemma_pow_mod_step(3, 1099511627519, 549755813759, true, 18446744069414584289, 18285212127132315101, 18125094665816404894, 1416106426437529835, 0, 4248319279312589505);
    lemma_pow_mod_step(3, 2199023255039, 1099511627519, true, 18446744069414584289, 4248319279312589505, 978395787953912245, 9197153610774426220, 1, 9144716762908694371);
    lemma_pow_mod_step(3, 4398046510079, 2199023255039, true, 18446744069414584289, 9144716762908694371, 4533366124620233520, 2855861074983918361, 0, 8567583224951755083);
    lemma_pow_mod_step(3, 8796093020159, 4398046510079, true, 18446744069414584289, 8567583224951755083, 3979210750702641934, 3334492419387361963, 0, 10003477258162085889);
    lemma_pow_mod_step(3, 17592186040319, 8796093020159, true, 18446744069414584289, 10003477258162085889, 5424781570016209149, 9569935489899460260, 1, 10263062400283796491);
    lemma_pow_mod_step(3, 35184372080639, 17592186040319, true, 18446744069414584289, 10263062400283796491, 5709975128172400092, 6831524538738558493, 1, 2047829546801091190);
    lemma_pow_mod_step(3, 70368744161279, 35184372080639, true, 18446744069414584289, 2047829546801091190, 227335828857989273, 4536659572979284203, 0, 13609978718937852609);
    lemma_pow_mod_step(3, 140737488322559, 70368744161279, true, 18446744069414584289, 13609978718937852609, 10041420861747752168, 15447767318289618329, 2, 9449813816039686409);
    lemma_pow_mod_step(3, 281474976645119, 140737488322559, true, 18446744069414584289, 9449813816039686409, 4840907469729344138, 13788881815170267399, 2, 4473157306681633619);
    lemma_pow_mod_step(3, 562949953290239, 281474976645119, true, 18446744069414584289, 4473157306681633619, 1084697452028686673, 17203248109621556664, 2, 14716256190035501414);
    lemma_pow_mod_step(3, 1125899906580479, 562949953290239, true, 18446744069414584289, 14716256190035501414, 11740185446050431430, 14941111027846196126, 2, 7929844944709419800);
    lemma_pow_mod_step(3, 2251799813160959, 1125899906580479, true, 18446744069414584289, 7929844944709419800, 3408863949676358451, 2533676885115063661, 0, 7601030655345190983);
    lemma_pow_mod_step(3, 4503599626321919, 2251799813160959, true, 18446744069414584289, 7601030655345190983, 3132025185912978314, 13607379948562397543, 2, 3928651706858024051);
    lemma_pow_mod_step(3, 9007199252643839, 4503599626321919, true, 18446744069414584289, 3928651706858024051, 836695309249134084, 2929132110013644325, 0, 8787396330040932975);
    lemma_pow_mod_step(3, 18014398505287679, 9007199252643839, true, 18446744069414584289, 8787396330040932975, 4186014289060791202, 4868649472183725247, 0, 14605948416551175741);
    lemma_pow_mod_step(3, 36028797010575359, 18014398505287679, true, 18446744069414584289, 14605948416551175741, 11564844632970724555, 13562399117017382686, 2, 3793709212222979480);
    lemma_pow_mod_step(3, 72057594021150719, 36028797010575359, true, 18446744069414584289, 3793709212222979480, 780204329433310310, 9553777250713350810, 1, 10214587682725468141);
    lemma_pow_mod_step(3, 144115188042301439, 72057594021150719, true, 18446744069414584289, 10214587682725468141, 5656163555772585509, 831597017665527780, 0, 2494791052996583340);
    lemma_pow_mod_step(3, 288230376084602879, 144115188042301439, true, 18446744069414584289, 2494791052996583340, 337402761955775428, 2474717776304504908, 0, 7424153328913514724);
    lemma_pow_mod_step(3, 576460752169205759, 288230376084602879, true, 18446744069414584289, 7424153328913514724, 2987955622076715812, 16405965138591718508, 2, 12324407276945986946);
    lemma_pow_mod_step(3, 1152921504338411518, 576460752169205759, false, 18446744069414584289, 12324407276945986946, 8234028409375526538, 5151372768245045434, 0, 5151372768245045434);
    lemma_pow_mod_step(3, 2305843008676823036, 1152921504338411518, false, 18446744069414584289, 5151372768245045434, 1438554213012333228, 2270432437162793464, 0, 2270432437162793464);
    lemma_pow_mod_step(3, 4611686017353646072, 2305843008676823036, false, 18446744069414584289, 2270432437162793464, 279445707726164273, 12286684789102212399, 0, 12286684789102212399);
    lemma_pow_mod_step(3, 9223372034707292144, 4611686017353646072, false, 18446744069414584289, 12286684789102212399, 8183700198728162017, 18446744069414584288, 0, 18446744069414584288);
    lemma_pow_mod_step(3, 18446744069414584288, 9223372034707292144, false, 18446744069414584289, 18446744069414584288, 18446744069414584287, 1, 0, 1);
}

/// `3^((p - 1) / q)` modulo the almost Goldilocks prime, for its factor `q = 2`.
proof fn lemma_ag_cofactor_2()
    ensures
        pow_mod(3, 9223372034707292144nat, 18446744069414584289nat) == 18446744069414584288nat,
{
    lemma_pow_mod_zero(3, 18446744069414584289);
    lemma_pow_mod_step(3, 1, 0, true, 18446744069414584289, 1, 0, 1, 0, 3);
    lemma_pow_mod_step(3, 3, 1, true, 18446744069414584289, 3, 0, 9, 0, 27);
    lemma_pow_mod_step(3, 7, 3, true, 18446744069414584289, 27, 0, 729, 0, 2187);
    lemma_pow_mod_step(3, 15, 7, true, 18446744069414584289, 2187, 0, 4782969, 0, 14348907);
    lemma_pow_mod_step(3, 31, 15, true, 18446744069414584289, 14348907, 0, 205891132094649, 0, 617673396283947);
    lemma_pow_mod_step(3, 63, 31, true, 18446744069414584289, 617673396283947, 20682263658, 1665545653087429647, 0, 4996636959262288941);
    lemma_pow_mod_step(3, 127, 63, true, 18446744069414584289, 4996636959262288941, 1353430221003668547, 11643919792621243398, 1, 16485015308449145905);
    lemma_pow_mod_step(3, 255, 127, true, 18446744069414584289, 16485015308449145905, 14731907630809721494, 15383517558100261259, 2, 9257064535471615199);
    lemma_pow_mod_step(3, 511, 255, true, 18446744069414584289, 9257064535471615199, 4645440056598878399, 9119524535680936290, 1, 8911829537628224581);
    lemma_pow_mod_step(3, 1023, 511, true, 18446744069414584289, 8911829537628224581, 4305405084435767688, 7181533933073971729, 1, 3097857729807330898);
    lemma_pow_mod_step(3, 2047, 1023, true, 18446744069414584289, 3097857729807330898, 520239370048981563, 10009239699395022697, 1, 11580975028770483802);
    lemma_pow_mod_step(3, 4095, 2047, true, 18446744069414584289, 11580975028770483802, 7270604617937968404, 12950313048267570448, 2, 1957451005973542766);
    lemma_pow_mod_step(3, 8191, 4095, true, 18446744069414584289, 1957451005973542766, 207712235089757634, 10443884411356718530, 1, 12884909164655571301);
    lemma_pow_mod_step(3, 16383, 8191, true, 18446744069414584289, 12884909164655571301, 9000010167468750466, 6451089463029803927, 1, 906524319674827492);
    lemma_pow_mod_step(3, 32767, 16383, true, 18446744069414584289, 906524319674827492, 44549126884915283, 16368088125531221277, 2, 12210776237764495253);
    lemma_pow_mod_step(3, 65535, 32767, true, 18446744069414584289, 12210776237764495253, 8082892881675128785, 8925488352546875144, 1, 8329720988226041143);
    lemma_pow_mod_step(3, 131071, 65535, true, 18446744069414584289, 8329720988226041143, 3761327824607009677, 13162343641973581796, 2, 2593542787091576810);
    lemma_pow_mod_step(3, 262143, 131071, true, 18446744069414584289, 2593542787091576810, 364642354399413071, 3284032663071934581, 0, 9852097989215803743);
    lemma_pow_mod_step(3, 524287, 262143, true, 18446744069414584289, 9852097989215803743, 5261841028631479667, 10291961245731658286, 1, 12429139667780390569);
    lemma_pow_mod_step(3, 1048575, 524287, true, 18446744069414584289, 12429139667780390569, 8374568015898896857, 16369134503840464088, 2, 12213915372692223686);
    lemma_pow_mod_step(3, 2097151, 1048575, true, 18446744069414584289, 12213915372692223686, 8087049300945915228, 16648583991204773704, 2, 13052263834785152534);
    lemma_pow_mod_step(3, 4194303, 2097151, true, 18446744069414584289, 13052263834785152534, 9235320367202715641, 4585535201753456907, 0, 13756605605260370721);
    lemma_pow_mod_step(3, 8388607, 4194303, true, 18446744069414584289, 13756605605260370721, 10258948520484720982, 6759659580668208043, 1, 1832234672590039840);
    lemma_pow_mod_step(3, 16777215, 8388607, true, 18446744069414584289, 1832234672590039840, 181987882675041040, 13869772905173005040, 2, 4715830576689846542);
    lemma_pow_mod_step(3, 33554431, 16777215, true, 18446744069414584289, 4715830576689846542, 1205581751682461386, 10629157194024593210, 1, 13440727512659195341);
    lemma_pow_mod_step(3, 67108863, 33554431, true, 18446744069414584289, 13440727512659195341, 9793227216128821650, 1045870975423049431, 0, 3137612926269148293);
    lemma_pow_mod_step(3, 134217727, 67108863, true, 18446744069414584289, 3137612926269148293, 533677641867108696, 12502715524407936705, 2, 614658434394641537);
    lemma_pow_mod_step(3, 268435455, 134217727, true, 18446744069414584289, 614658434394641537, 20480849604179588, 3382159760806429437, 0, 10146479282419288311);
    lemma_pow_mod_step(3, 536870911, 268435455, true, 18446744069414584289, 10146479282419288311, 5580987161808172330, 7114568241918709351, 1, 2896960656341543764);
    lemma_pow_mod_step(3, 1073741823, 536870911, true, 18446744069414584289, 2896960656341543764, 454951888138661860, 8712267510087770156, 1, 7690058460848726179);
    lemma_pow_mod_step(3, 2147483647, 1073741823, true, 18446744069414584289, 7690058460848726179, 3205823147366288510, 14209242672432720651, 2, 5734239878468993375);
    lemma_pow_mod_step(3, 4294967294, 2147483647, false, 18446744069414584289, 5734239878468993375, 1782510065737991523, 7993715722942908478, 0, 7993715722942908478);
    lemma_pow_mod_step(3, 8589934589, 4294967294, true, 18446744069414584289, 7993715722942908478, 3463998352162997455, 16668446322894291989, 2, 13111850829853707389);
    lemma_pow_mod_step(3, 17179869179, 8589934589, true, 18446744069414584289, 13111850829853707389, 9319836147636829745, 6688920772988321016, 1, 1620018249550378759);
    lemma_pow_mod_step(3, 34359738359, 17179869179, true, 18446744069414584289, 1620018249550378759, 142272214489478828, 9988215550471446789, 1, 11517902581999756078);
    lemma_pow_mod_step(3, 68719476719, 34359738359, true, 18446744069414584289, 11517902581999756078, 7191625762748858828, 8802177396730188792, 1, 7959788120775982087);
    lemma_pow_mod_step(3, 137438953439, 68719476719, true, 18446744069414584289, 7959788120775982087, 3434656364788886139, 6803076493305605398, 1, 1962485410502231905);
    lemma_pow_mod_step(3, 274877906879, 137438953439, true, 18446744069414584289, 1962485410502231905, 208782046953196438, 2489767202874366443, 0, 7469301608623099329);
    lemma_pow_mod_step(3, 549755813759, 274877906879, true, 18446744069414584289, 7469301608623099329, 3024407250983785932, 18392900088653827893, 2, 18285212127132315101);
    lemma_pow_mod_step(3, 1099511627519, 549755813759, true, 18446744069414584289, 18285212127132315101, 18125094665816404894, 1416106426437529835, 0, 4248319279312589505);
    lemma_pow_mod_step(3, 2199023255039, 1099511627519, true, 18446744069414584289, 4248319279312589505, 978395787953912245, 9197153610774426220, 1, 9144716762908694371);
    lemma_pow_mod_step(3, 4398046510079, 2199023255039, true, 18446744069414584289, 9144716762908694371, 4533366124620233520, 2855861074983918361, 0, 8567583224951755083);
    lemma_pow_mod_step(3, 8796093020159, 4398046510079, true, 18446744069414584289, 8567583224951755083, 3979210750702641934, 3334492419387361963, 0, 10003477258162085889);
    lemma_pow_mod_step(3, 17592186040319, 8796093020159, true, 18446744069414584289, 10003477258162085889, 5424781570016209149, 9569935489899460260, 1, 10263062400283796491);
    lemma_pow_mod_step(3, 35184372080639, 17592186040319, true, 18446744069414584289, 10263062400283796491, 5709975128172400092, 6831524538738558493, 1, 2047829546801091190);
    lemma_pow_mod_step(3, 70368744161279, 35184372080639, true, 18446744069414584289, 2047829546801091190, 227335828857989273, 4536659572979284203, 0, 13609978718937852609);
    lemma_pow_mod_step(3, 140737488322559, 70368744161279, true, 18446744069414584289, 13609978718937852609, 10041420861747752168, 15447767318289618329, 2, 9449813816039686409);
    lemma_pow_mod_step(3, 281474976645119, 140737488322559, true, 18446744069414584289, 9449813816039686409, 4840907469729344138, 13788881815170267399, 2, 4473157306681633619);
    lemma_pow_mod_step(3, 562949953290239, 281474976645119, true, 18446744069414584289, 4473157306681633619, 1084697452028686673, 17203248109621556664, 2, 14716256190035501414);
    lemma_pow_mod_step(3, 1125899906580479, 562949953290239, true, 18446744069414584289, 14716256190035501414, 11740185446050431430, 14941111027846196126, 2, 7929844944709419800);
    lemma_pow_mod_step(3, 2251799813160959, 1125899906580479, true, 18446744069414584289, 7929844944709419800, 3408863949676358451, 2533676885115063661, 0, 7601030655345190983);
    lemma_pow_mod_step(3, 4503599626321919, 2251799813160959, true, 18446744069414584289, 7601030655345190983, 3132025185912978314, 13607379948562397543, 2, 3928651706858024051);
    lemma_pow_mod_step(3, 9007199252643839, 4503599626321919, true, 18446744069414584289, 3928651706858024051, 836695309249134084, 2929132110013644325, 0, 8787396330040932975);
    lemma_pow_mod_step(3, 18014398505287679, 9007199252643839, true, 18446744069414584289, 8787396330040932975, 4186014289060791202, 4868649472183725247, 0, 14605948416551175741);
    lemma_pow_mod_step(3, 36028797010575359, 18014398505287679, true, 18446744069414584289, 14605948416551175741, 11564844632970724555, 13562399117017382686, 2, 3793709212222979480);
    lemma_pow_mod_step(3, 72057594021150719, 36028797010575359, true, 18446744069414584289, 3793709212222979480, 780204329433310310, 9553777250713350810, 1, 10214587682725468141);
    lemma_pow_mod_step(3, 144115188042301439, 72057594021150719, true, 18446744069414584289, 10214587682725468141, 5656163555772585509, 831597017665527780, 0, 2494791052996583340);
    lemma_pow_mod_step(3, 288230376084602879, 144115188042301439, true, 18446744069414584289, 2494791052996583340, 337402761955775428, 2474717776304504908, 0, 7424153328913514724);
    lemma_pow_mod_step(3, 576460752169205759, 288230376084602879, true, 18446744069414584289, 7424153328913514724, 2987955622076715812, 16405965138591718508, 2, 12324407276945986946);
    lemma_pow_mod_step(3, 1152921504338411518, 576460752169205759, false, 18446744069414584289, 12324407276945986946, 8234028409375526538, 5151372768245045434, 0, 5151372768245045434);
    lemma_pow_mod_step(3, 2305843008676823036, 1152921504338411518, false, 18446744069414584289, 5151372768245045434, 1438554213012333228, 2270432437162793464, 0, 2270432437162793464);
    lemma_pow_mod_step(3, 4611686017353646072, 2305843008676823036, false, 18446744069414584289, 2270432437162793464, 279445707726164273, 12286684789102212399, 0, 12286684789102212399);
    lemma_pow_mod_step(3, 9223372034707292144, 4611686017353646072, false, 18446744069414584289, 12286684789102212399, 8183700198728162017, 18446744069414584288, 0, 18446744069414584288);
}

/// `3^((p - 1) / q)` modulo the almost Goldilocks prime, for its factor `q = 576460752169205759`.
proof fn lemma_ag_cofactor_large()
    ensures
        pow_mod(3, 32nat, 18446744069414584289nat) == 1853020188851841nat,
{
    lemma_pow_mod_zero(3, 18446744069414584289);
    lemma_pow_mod_step(3, 1, 0, true, 18446744069414584289, 1, 0, 1, 0, 3);
    lemma_pow_mod_step(3, 2, 1, false, 18446744069414584289, 3, 0, 9, 0, 9);
    lemma_pow_mod_step(3, 4, 2, false, 18446744069414584289, 9, 0, 81, 0, 81);
    lemma_pow_mod_step(3, 8, 4, false, 18446744069414584289, 81, 0, 6561, 0, 6561);
    lemma_pow_mod_step(3, 16, 8, false, 18446744069414584289, 6561, 0, 43046721, 0, 43046721);
    lemma_pow_mod_step(3, 32, 16, false, 18446744069414584289, 43046721, 0, 1853020188851841, 0, 1853020188851841);
}

/// `7^(q - 1) = 1` modulo the large factor `q` of the almost Goldilocks group order.
proof fn lemma_large_order()
    ensures
        pow_mod(7, 576460752169205758nat, 576460752169205759nat) == 1nat,
{
    lemma_pow_mod_zero(7, 576460752169205759);
    lemma_pow_mod_step(7, 1, 0, true, 576460752169205759, 1, 0, 1, 0, 7);
    lemma_pow_mod_step(7, 3, 1, true, 576460752169205759, 7, 0, 49, 0, 343);
    lemma_pow_mod_step(7, 7, 3, true, 576460752169205759, 343, 0, 117649, 0, 823543);
    lemma_pow_mod_step(7, 15, 7, true, 576460752169205759, 823543, 0, 678223072849, 0, 4747561509943);
    lemma_pow_mod_step(7, 31, 15, true, 576460752169205759, 4747561509943, 39099522, 429115849791316051, 5, 121507187693183562);
    lemma_pow_mod_step(7, 63, 31, true, 576460752169205759, 121507187693183562, 25611451613227839, 540440719689083043, 6, 324320524808346747);
    lemma_pow_mod_step(7, 127, 63, true, 576460752169205759, 324320524808346747, 182464812072908236, 205753045975750885, 2, 287349817491844677);
    lemma_pow_mod_step(7, 255, 127, true, 576460752169205759, 287349817491844677, 143235974525391614, 412052123474129303, 5, 2061103472876326);
    lemma_pow_mod_step(7, 511, 255, true, 576460752169205759, 2061103472876326, 7369361244312, 162301862694865468, 1, 559652286694852517);
    lemma_pow_mod_step(7, 1023, 511, true, 576460752169205759, 559652286694852517, 543333923123429167, 346526677496262536, 4, 119843733797014716);
    lemma_pow_mod_step(7, 2047, 1023, true, 576460752169205759, 119843733797014716, 24915001544101593, 66048295503886569, 0, 462338068527205983);
    lemma_pow_mod_step(7, 4095, 2047, true, 576460752169205759, 462338068527205983, 370808400754271122, 421261474821204691, 5, 66526562902404042);
    lemma_pow_mod_step(7, 8191, 4095, true, 576460752169205759, 66526562902404042, 7677510663047607, 550668235422369051, 6, 395913134941348803);
    lemma_pow_mod_step(7, 16383, 8191, true, 576460752169205759, 395913134941348803, 271913065771175710, 65332146576618919, 0, 457325026036332433);
    lemma_pow_mod_step(7, 32767, 16383, true, 576460752169205759, 457325026036332433, 362810787468393794, 345706213263039843, 4, 114100484164455865);
    lemma_pow_mod_step(7, 65535, 32767, true, 576460752169205759, 114100484164455865, 22584227005174954, 467078718513538139, 5, 387247268748738178);
    lemma_pow_mod_step(7, 131071, 65535, true, 576460752169205759, 387247268748738178, 260139908205477068, 564071055946725072, 6, 489732878611840950);
    lemma_pow_mod_step(7, 262143, 131071, true, 576460752169205759, 489732878611840950, 416053116349960213, 125487044636435833, 1, 301948560285845072);
    lemma_pow_mod_step(7, 524287, 262143, true, 576460752169205759, 301948560285845072, 158159827387403925, 259053777017481109, 3, 83994182614750486);
    lemma_pow_mod_step(7, 1048575, 524287, true, 576460752169205759, 83994182614750486, 12238513526848443, 177111770361452959, 2, 86860888191759195);
    lemma_pow_mod_step(7, 2097151, 1048575, true, 576460752169205759, 86860888191759195, 13088165792849499, 513241724615983284, 6, 133927559296648434);
    lemma_pow_mod_step(7, 4194303, 2097151, true, 576460752169205759, 133927559296648434, 31115025735338250, 266369063681670606, 3, 135201189264076965);
    lemma_pow_mod_step(7, 8388607, 4194303, true, 576460752169205759, 135201189264076965, 31709637663337931, 537935220355266596, 6, 306782029471631618);
    lemma_pow_mod_step(7, 16777215, 8388607, true, 576460752169205759, 306782029471631618, 163263870528184481, 401633329097671845, 4, 505590295006879879);
    lemma_pow_mod_step(7, 33554431, 16777215, true, 576460752169205759, 505590295006879879, 443432697617742515, 201297048617910756, 2, 256157835986963774);
    lemma_pow_mod_step(7, 67108863, 33554431, true, 576460752169205759, 256157835986963774, 113827067481367816, 568749379523870732, 6, 522481143651860570);
    lemma_pow_mod_step(7, 134217727, 67108863, true, 576460752169205759, 522481143651860570, 473556169165923944, 239486776839931404, 2, 523485933541108310);
    lemma_pow_mod_step(7, 268435455, 134217727, true, 576460752169205759, 523485933541108310, 475379323890152277, 15932310495692857, 0, 111526173469849999);
    lemma_pow_mod_step(7, 536870911, 268435455, true, 576460752169205759, 111526173469849999, 21576642159978623, 333951597231810144, 4, 31818171945847972);
    lemma_pow_mod_step(7, 1073741823, 536870911, true, 576460752169205759, 31818171945847972, 1756227223043249, 113512066899641793, 1, 218123716128286792);
    lemma_pow_mod_step(7, 2147483647, 1073741823, true, 576460752169205759, 218123716128286792, 82534596429295346, 568137844146553650, 6, 518200396010640996);
    lemma_pow_mod_step(7, 4294967294, 2147483647, false, 576460752169205759, 518200396010640996, 465828158144518996, 507321702387774052, 0, 507321702387774052);
    lemma_pow_mod_step(7, 8589934589, 4294967294, true, 576460752169205759, 507321702387774052, 446474992000987169, 174384672724592433, 2, 67771204733735513);
    lemma_pow_mod_step(7, 17179869179, 8589934589, true, 576460752169205759, 67771204733735513, 7967474236153638, 531046009478971927, 6, 258557553337568935);
    lemma_pow_mod_step(7, 34359738359, 17179869179, true, 576460752169205759, 258557553337568935, 115969748393706871, 496561701945964136, 6, 17167400606514398);
    lemma_pow_mod_step(7, 68719476719, 34359738359, true, 576460752169205759, 17167400606514398, 511257084676674, 106354423087536838, 1, 168020209443552107);
    lemma_pow_mod_step(7, 137438953439, 68719476719, true, 576460752169205759, 168020209443552107, 48972615525382147, 510617183675954876, 6, 115555772716449578);
    lemma_pow_mod_step(7, 274877906879, 137438953439, true, 576460752169205759, 115555772716449578, 23163999557382304, 441113285014889348, 5, 205489234258196641);
    lemma_pow_mod_step(7, 549755813759, 274877906879, true, 576460752169205759, 205489234258196641, 73250130624028454, 216266207227016295, 2, 360941946250702547);
    lemma_pow_mod_step(7, 1099511627519, 549755813759, true, 576460752169205759, 360941946250702547, 225998193412142047, 232155052193838536, 2, 472163861018458234);
    lemma_pow_mod_step(7, 2199023255039, 1099511627519, true, 576460752169205759, 472163861018458234, 386737016896546345, 346776265617997901, 4, 121590850649162271);
    lemma_pow_mod_step(7, 4398046510079, 2199023255039, true, 576460752169205759, 121590850649162271, 25646732940540781, 244050537370319662, 2, 555432257253826116);
    lemma_pow_mod_step(7, 8796093020159, 4398046510079, true, 576460752169205759, 555432257253826116, 535170852893600783, 340767438433136159, 4, 79529060355130077);
    lemma_pow_mod_step(7, 17592186040319, 8796093020159, true, 576460752169205759, 79529060355130077, 10971902973740375, 533584514369206304, 6, 276327087569209574);
    lemma_pow_mod_step(7, 35184372080639, 17592186040319, true, 576460752169205759, 276327087569209574, 132457689508181837, 477481746693662193, 5, 460068466009606556);
    lemma_pow_mod_step(7, 70368744161279, 35184372080639, true, 576460752169205759, 460068466009606556, 367176763760499830, 68087249963660166, 0, 476610749745621162);
    lemma_pow_mod_step(7, 140737488322559, 70368744161279, true, 576460752169205759, 476610749745621162, 394055980252418956, 116177120186262640, 1, 236779089134632721);
    lemma_pow_mod_step(7, 281474976645119, 140737488322559, true, 576460752169205759, 236779089134632721, 97256121670829814, 146899072726165015, 1, 451832756913949346);
    lemma_pow_mod_step(7, 562949953290239, 281474976645119, true, 576460752169205759, 451832756913949346, 354148724700230826, 239132802665300782, 2, 521008114318693956);
    lemma_pow_mod_step(7, 1125899906580479, 562949953290239, true, 576460752169205759, 521008114318693956, 470889742561769432, 502272140466371048, 6, 57140470249362782);
    lemma_pow_mod_step(7, 2251799813160959, 1125899906580479, true, 576460752169205759, 57140470249362782, 5663929986615886, 39142404214692050, 0, 273996829502844350);
    lemma_pow_mod_step(7, 4503599626321919, 2251799813160959, true, 576460752169205759, 273996829502844350, 130233085765350713, 330430301032566333, 4, 7169098551141295);
    lemma_pow_mod_step(7, 9007199252643839, 4503599626321919, true, 576460752169205759, 7169098551141295, 89157802751661, 32166107966261326, 0, 225162755763829282);
    lemma_pow_mod_step(7, 18014398505287679, 9007199252643839, true, 576460752169205759, 225162755763829282, 87947473253618171, 13483737920388735, 0, 94386165442721145);
    lemma_pow_mod_step(7, 36028797010575359, 18014398505287679, true, 576460752169205759, 94386165442721145, 15454214694508439, 134500480677210824, 1, 365042612571270009);
    lemma_pow_mod_step(7, 72057594021150719, 36028797010575359, true, 576460752169205759, 365042612571270009, 231162500641057191, 39420738617297112, 0, 275945170321079784);
    lemma_pow_mod_step(7, 144115188042301439, 72057594021150719, true, 576460752169205759, 275945170321079784, 132091797641028366, 466762941483926862, 5, 385036829541459239);
    lemma_pow_mod_step(7, 288230376084602879, 144115188042301439, true, 576460752169205759, 385036829541459239, 257178584223584124, 329406144096689005, 3, 576460752169205758);
    lemma_pow_mod_step(7, 576460752169205758, 288230376084602879, false, 576460752169205759, 576460752169205758, 576460752169205757, 1, 0, 1);
}

/// `7^((q - 1) / 2)` modulo the large factor `q`.
proof fn lemma_large_cofactor_2()
    ensures
        pow_mod(7, 288230376084602879nat, 576460752169205759nat) == 576460752169205758nat,
{
    lemma_pow_mod_zero(7, 576460752169205759);
    lemma_pow_mod_step(7, 1, 0, true, 576460752169205759, 1, 0, 1, 0, 7);
    lemma_pow_mod_step(7, 3, 1, true, 576460752169205759, 7, 0, 49, 0, 343);
    lemma_pow_mod_step(7, 7, 3, true, 576460752169205759, 343, 0, 117649, 0, 823543);
    lemma_pow_mod_step(7, 15, 7, true, 576460752169205759, 823543, 0, 678223072849, 0, 4747561509943);
    lemma_pow_mod_step(7, 31, 15, true, 576460752169205759, 4747561509943, 39099522, 429115849791316051, 5, 121507187693183562);
    lemma_pow_mod_step(7, 63, 31, true, 576460752169205759, 121507187693183562, 25611451613227839, 540440719689083043, 6, 324320524808346747);
    lemma_pow_mod_step(7, 127, 63, true, 576460752169205759, 324320524808346747, 182464812072908236, 205753045975750885, 2, 287349817491844677);
    lemma_pow_mod_step(7, 255, 127, true, 576460752169205759, 287349817491844677, 143235974525391614, 412052123474129303, 5, 2061103472876326);
    lemma_pow_mod_step(7, 511, 255, true, 576460752169205759, 2061103472876326, 7369361244312, 162301862694865468, 1, 559652286694852517);
    lemma_pow_mod_step(7, 1023, 511, true, 576460752169205759, 559652286694852517, 543333923123429167, 346526677496262536, 4, 119843733797014716);
    lemma_pow_mod_step(7, 2047, 1023, true, 576460752169205759, 119843733797014716, 24915001544101593, 66048295503886569, 0, 462338068527205983);
    lemma_pow_mod_step(7, 4095, 2047, true, 576460752169205759, 462338068527205983, 370808400754271122, 421261474821204691, 5, 66526562902404042);
    lemma_pow_mod_step(7, 8191, 4095, true, 576460752169205759, 66526562902404042, 7677510663047607, 550668235422369051, 6, 395913134941348803);
    lemma_pow_mod_step(7, 16383, 8191, true, 576460752169205759, 395913134941348803, 271913065771175710, 65332146576618919, 0, 457325026036332433);
    lemma_pow_mod_step(7, 32767, 16383, true, 576460752169205759, 457325026036332433, 362810787468393794, 345706213263039843, 4, 114100484164455865);
    lemma_pow_mod_step(7, 65535, 32767, true, 576460752169205759, 114100484164455865, 22584227005174954, 467078718513538139, 5, 387247268748738178);
    lemma_pow_mod_step(7, 131071, 65535, true, 576460752169205759, 387247268748738178, 260139908205477068, 564071055946725072, 6, 489732878611840950);
    lemma_pow_mod_step(7, 262143, 131071, true, 576460752169205759, 489732878611840950, 416053116349960213, 125487044636435833, 1, 301948560285845072);
    lemma_pow_mod_step(7, 524287, 262143, true, 576460752169205759, 301948560285845072, 158159827387403925, 259053777017481109, 3, 83994182614750486);
    lemma_pow_mod_step(7, 1048575, 524287, true, 576460752169205759, 83994182614750486, 12238513526848443, 177111770361452959, 2, 86860888191759195);
    lemma_pow_mod_step(7, 2097151, 1048575, true, 576460752169205759, 86860888191759195, 13088165792849499, 513241724615983284, 6, 133927559296648434);
    lemma_pow_mod_step(7, 4194303, 2097151, true, 576460752169205759, 133927559296648434, 31115025735338250, 266369063681670606, 3, 135201189264076965);
    lemma_pow_mod_step(7, 8388607, 4194303, true, 576460752169205759, 135201189264076965, 31709637663337931, 537935220355266596, 6, 306782029471631618);
    lemma_pow_mod_step(7, 16777215, 8388607, true, 576460752169205759, 306782029471631618, 163263870528184481, 401633329097671845, 4, 505590295006879879);
    lemma_pow_mod_step(7, 33554431, 16777215, true, 576460752169205759, 505590295006879879, 443432697617742515, 201297048617910756, 2, 256157835986963774);
    lemma_pow_mod_step(7, 67108863, 33554431, true, 576460752169205759, 256157835986963774, 113827067481367816, 568749379523870732, 6, 522481143651860570);
    lemma_pow_mod_step(7, 134217727, 67108863, true, 576460752169205759, 522481143651860570, 473556169165923944, 239486776839931404, 2, 523485933541108310);
    lemma_pow_mod_step(7, 268435455, 134217727, true, 576460752169205759, 523485933541108310, 475379323890152277, 15932310495692857, 0, 111526173469849999);
    lemma_pow_mod_step(7, 536870911, 268435455, true, 576460752169205759, 111526173469849999, 21576642159978623, 333951597231810144, 4, 31818171945847972);
    lemma_pow_mod_step(7, 1073741823, 536870911, true, 576460752169205759, 31818171945847972, 1756227223043249, 113512066899641793, 1, 218123716128286792);
    lemma_pow_mod_step(7, 2147483647, 1073741823, true, 576460752169205759, 218123716128286792, 82534596429295346, 568137844146553650, 6, 518200396010640996);
    lemma_pow_mod_step(7, 4294967294, 2147483647, false, 576460752169205759, 518200396010640996, 465828158144518996, 507321702387774052, 0, 507321702387774052);
    lemma_pow_mod_step(7, 8589934589, 4294967294, true, 576460752169205759, 507321702387774052, 446474992000987169, 174384672724592433, 2, 67771204733735513);
    lemma_pow_mod_step(7, 17179869179, 8589934589, true, 576460752169205759, 67771204733735513, 7967474236153638, 531046009478971927, 6, 258557553337568935);
    lemma_pow_mod_step(7, 34359738359, 17179869179, true, 576460752169205759, 258557553337568935, 115969748393706871, 496561701945964136, 6, 17167400606514398);
    lemma_pow_mod_step(7, 68719476719, 34359738359, true, 576460752169205759, 17167400606514398, 511257084676674, 106354423087536838, 1, 168020209443552107);
    lemma_pow_mod_step(7, 137438953439, 68719476719, true, 576460752169205759, 168020209443552107, 48972615525382147, 510617183675954876, 6, 115555772716449578);
    lemma_pow_mod_step(7, 274877906879, 137438953439, true, 576460752169205759, 115555772716449578, 23163999557382304, 441113285014889348, 5, 205489234258196641);
    lemma_pow_mod_step(7, 549755813759, 274877906879, true, 576460752169205759, 205489234258196641, 73250130624028454, 216266207227016295, 2, 360941946250702547);
    lemma_pow_mod_step(7, 1099511627519, 549755813759, true, 576460752169205759, 360941946250702547, 225998193412142047, 232155052193838536, 2, 472163861018458234);
    lemma_pow_mod_step(7, 2199023255039, 1099511627519, true, 576460752169205759, 472163861018458234, 386737016896546345, 346776265617997901, 4, 121590850649162271);
    lemma_pow_mod_step(7, 4398046510079, 2199023255039, true, 576460752169205759, 121590850649162271, 25646732940540781, 244050537370319662, 2, 555432257253826116);
    lemma_pow_mod_step(7, 8796093020159, 4398046510079, true, 576460752169205759, 555432257253826116, 535170852893600783, 340767438433136159, 4, 79529060355130077);
    lemma_pow_mod_step(7, 17592186040319, 8796093020159, true, 576460752169205759, 79529060355130077, 10971902973740375, 533584514369206304, 6, 276327087569209574);
    lemma_pow_mod_step(7, 35184372080639, 17592186040319, true, 576460752169205759, 276327087569209574, 132457689508181837, 477481746693662193, 5, 460068466009606556);
    lemma_pow_mod_step(7, 70368744161279, 35184372080639, true, 576460752169205759, 460068466009606556, 367176763760499830, 68087249963660166, 0, 476610749745621162);
    lemma_pow_mod_step(7, 140737488322559, 70368744161279, true, 576460752169205759, 476610749745621162, 394055980252418956, 116177120186262640, 1, 236779089134632721);
    lemma_pow_mod_step(7, 281474976645119, 140737488322559, true, 576460752169205759, 236779089134632721, 97256121670829814, 146899072726165015, 1, 451832756913949346);
    lemma_pow_mod_step(7, 562949953290239, 281474976645119, true, 576460752169205759, 451832756913949346, 354148724700230826, 239132802665300782, 2, 521008114318693956);
    lemma_pow_mod_step(7, 1125899906580479, 562949953290239, true, 576460752169205759, 521008114318693956, 470889742561769432, 502272140466371048, 6, 57140470249362782);
    lemma_pow_mod_step(7, 2251799813160959, 1125899906580479, true, 576460752169205759, 57140470249362782, 5663929986615886, 39142404214692050, 0, 273996829502844350);
    lemma_pow_mod_step(7, 4503599626321919, 2251799813160959, true, 576460752169205759, 273996829502844350, 130233085765350713, 330430301032566333, 4, 7169098551141295);
    lemma_pow_mod_step(7, 9007199252643839, 4503599626321919, true, 576460752169205759, 7169098551141295, 89157802751661, 32166107966261326, 0, 225162755763829282);
    lemma_pow_mod_step(7, 18014398505287679, 9007199252643839, true, 576460752169205759, 225162755763829282, 87947473253618171, 13483737920388735, 0, 94386165442721145);
    lemma_pow_mod_step(7, 36028797010575359, 18014398505287679, true, 576460752169205759, 94386165442721145, 15454214694508439, 134500480677210824, 1, 365042612571270009);
    lemma_pow_mod_step(7, 72057594021150719, 36028797010575359, true, 576460752169205759, 365042612571270009, 231162500641057191, 39420738617297112, 0, 275945170321079784);
    lemma_pow_mod_step(7, 144115188042301439, 72057594021150719, true, 576460752169205759, 275945170321079784, 132091797641028366, 466762941483926862, 5, 385036829541459239);
    lemma_pow_mod_step(7, 288230376084602879, 144115188042301439, true, 576460752169205759, 385036829541459239, 257178584223584124, 329406144096689005, 3, 576460752169205758);
}

/// `7^((q - 1) / 639941)` modulo the large factor `q`.
proof fn lemma_large_cofactor_639941()
    ensures
        pow_mod(7, 900802968038nat, 576460752169205759nat) == 114507209805999398nat,
{
    lemma_pow_mod_zero(7, 576460752169205759);
    lemma_pow_mod_step(7, 1, 0, true, 576460752169205759, 1, 0, 1, 0, 7);
    lemma_pow_mod_step(7, 3, 1, true, 576460752169205759, 7, 0, 49, 0, 343);
    lemma_pow_mod_step(7, 6, 3, false, 576460752169205759, 343, 0, 117649, 0, 117649);
    lemma_pow_mod_step(7, 13, 6, true, 576460752169205759, 117649, 0, 13841287201, 0, 96889010407);
    lemma_pow_mod_step(7, 26, 13, false, 576460752169205759, 96889010407, 16284, 393449324407726093, 0, 393449324407726093);
    lemma_pow_mod_step(7, 52, 26, false, 576460752169205759, 393449324407726093, 268539306959544212, 220071746227527741, 0, 220071746227527741);
    lemma_pow_mod_step(7, 104, 52, false, 576460752169205759, 220071746227527741, 84015387527054891, 277047957058245812, 0, 277047957058245812);
    lemma_pow_mod_step(7, 209, 104, true, 576460752169205759, 277047957058245812, 133149690106947508, 178837882351240772, 2, 98943672120273886);
    lemma_pow_mod_step(7, 419, 209, true, 576460752169205759, 98943672120273886, 16982683063513569, 342002445004097125, 4, 88174106351856839);
    lemma_pow_mod_step(7, 838, 419, false, 576460752169205759, 88174106351856839, 13486907827970390, 432697051881595911, 0, 432697051881595911);
    lemma_pow_mod_step(7, 1677, 838, true, 576460752169205759, 432697051881595911, 324786619041271238, 222555144141260279, 2, 404964504650410435);
    lemma_pow_mod_step(7, 3355, 1677, true, 576460752169205759, 404964504650410435, 284488144959806842, 426940888762886147, 5, 106282460494174234);
    lemma_pow_mod_step(7, 6711, 3355, true, 576460752169205759, 106282460494174234, 19595369443954889, 233813130594481005, 2, 483770409822955517);
    lemma_pow_mod_step(7, 13423, 6711, true, 576460752169205759, 483770409822955517, 405983943468150481, 150285482496917210, 1, 475537625309214711);
    lemma_pow_mod_step(7, 26846, 13423, false, 576460752169205759, 475537625309214711, 392283485447679634, 294551632239001315, 0, 294551632239001315);
    lemma_pow_mod_step(7, 53692, 26846, false, 576460752169205759, 294551632239001315, 150505760761997960, 296241585393477585, 0, 296241585393477585);
    lemma_pow_mod_step(7, 107384, 53692, false, 576460752169205759, 296241585393477585, 152237730992450239, 122033965937705824, 0, 122033965937705824);
    lemma_pow_mod_step(7, 214768, 107384, false, 576460752169205759, 122033965937705824, 25834003072101399, 506301235420762135, 0, 506301235420762135);
    lemma_pow_mod_step(7, 429536, 214768, false, 576460752169205759, 506301235420762135, 444680648290427716, 186917918129341781, 0, 186917918129341781);
    lemma_pow_mod_step(7, 859072, 429536, false, 576460752169205759, 186917918129341781, 60608303316982875, 388518907357874836, 0, 388518907357874836);
    lemma_pow_mod_step(7, 1718145, 859072, true, 576460752169205759, 388518907357874836, 261851202890305700, 517119332531500596, 6, 161070814705269618);
    lemma_pow_mod_step(7, 3436290, 1718145, false, 576460752169205759, 161070814705269618, 45005331676429791, 118443460877499555, 0, 118443460877499555);
    lemma_pow_mod_step(7, 6872581, 3436290, true, 576460752169205759, 118443460877499555, 24336181382426440, 426268053983330065, 5, 101572617037281660);
    lemma_pow_mod_step(7, 13745162, 6872581, false, 576460752169205759, 101572617037281660, 17897136089455717, 157536531680481397, 0, 157536531680481397);
    lemma_pow_mod_step(7, 27490324, 13745162, false, 576460752169205759, 157536531680481397, 43051948845653036, 105381577856037285, 0, 105381577856037285);
    lemma_pow_mod_step(7, 54980649, 27490324, true, 576460752169205759, 105381577856037285, 19264584639351768, 221465930137739313, 2, 397340006625763673);
    lemma_pow_mod_step(7, 109961299, 54980649, true, 576460752169205759, 397340006625763673, 273876548006550895, 524662829285846624, 6, 213875291985691814);
    lemma_pow_mod_step(7, 219922599, 109961299, true, 576460752169205759, 213875291985691814, 79350832385095856, 519878463584375892, 6, 180384732075396690);
    lemma_pow_mod_step(7, 439845199, 219922599, true, 576460752169205759, 180384732075396690, 56445562761160421, 472877944106891561, 5, 427841847902212132);
    lemma_pow_mod_step(7, 879690398, 439845199, false, 576460752169205759, 427841847902212132, 317538784952093717, 499310359103869221, 0, 499310359103869221);
    lemma_pow_mod_step(7, 1759380796, 879690398, false, 576460752169205759, 499310359103869221, 432485357884791129, 240357767532234930, 0, 240357767532234930);
    lemma_pow_mod_step(7, 3518761593, 1759380796, true, 576460752169205759, 240357767532234930, 100218195593864804, 520433682807898664, 6, 184271266640056094);
    lemma_pow_mod_step(7, 7037523187, 3518761593, true, 576460752169205759, 184271266640056094, 58904096387057652, 437806259683118968, 5, 182340056935803981);
    lemma_pow_mod_step(7, 14075046375, 7037523187, true, 576460752169205759, 182340056935803981, 57675906361779755, 339221330819839316, 4, 68706307062052176);
    lemma_pow_mod_step(7, 28150092751, 14075046375, true, 576460752169205759, 68706307062052176, 8188860407827727, 178876292458055183, 2, 99212542867974763);
    lemma_pow_mod_step(7, 56300185502, 28150092751, false, 576460752169205759, 99212542867974763, 17075106371579176, 453426138701231585, 0, 453426138701231585);
    lemma_pow_mod_step(7, 112600371004, 56300185502, false, 576460752169205759, 453426138701231585, 356650929805471148, 385889431851670893, 0, 385889431851670893);
    lemma_pow_mod_step(7, 225200742009, 112600371004, true, 576460752169205759, 385889431851670893, 258318806708797973, 38614926984290942, 0, 270304488890036594);
    lemma_pow_mod_step(7, 450401484019, 225200742009, true, 576460752169205759, 270304488890036594, 126746732434366389, 168241472124286585, 2, 24768800531594577);
    lemma_pow_mod_step(7, 900802968038, 450401484019, false, 576460752169205759, 24768800531594577, 1064241541970309, 114507209805999398, 0, 114507209805999398);
}

/// `7^((q - 1) / 183041)` modulo the large factor `q`.
proof fn lemma_large_cofactor_183041()
    ensures
        pow_mod(7, 3149353162238nat, 576460752169205759nat) == 272309410050832765nat,
{
    lemma_pow_mod_zero(7, 576460752169205759);
    lemma_pow_mod_step(7, 1, 0, true, 576460752169205759, 1, 0, 1, 0, 7);
    lemma_pow_mod_step(7, 2, 1, false, 576460752169205759, 7, 0, 49, 0, 49);
    lemma_pow_mod_step(7, 5, 2, true, 576460752169205759, 49, 0, 2401, 0, 16807);
    lemma_pow_mod_step(7, 11, 5, true, 576460752169205759, 16807, 0, 282475249, 0, 1977326743);
    lemma_pow_mod_step(7, 22, 11, false, 576460752169205759, 1977326743, 6, 451056535567753495, 0, 451056535567753495);
    lemma_pow_mod_step(7, 45, 22, true, 576460752169205759, 451056535567753495, 352932957730079401, 191021126908244666, 2, 184226384019301144);
    lemma_pow_mod_step(7, 91, 45, true, 576460752169205759, 184226384019301144, 58875405552093784, 350698715398806680, 4, 149047999114823724);
    lemma_pow_mod_step(7, 183, 91, true, 576460752169205759, 149047999114823724, 38537412922799888, 27546500139073184, 0, 192825500973512288);
    lemma_pow_mod_step(7, 366, 183, false, 576460752169205759, 192825500973512288, 64499922476547423, 162886712478785887, 0, 162886712478785887);
    lemma_pow_mod_step(7, 733, 366, true, 576460752169205759, 162886712478785887, 46025823965130634, 468605927130255563, 5, 397937729065760146);
    lemma_pow_mod_step(7, 1466, 733, false, 576460752169205759, 397937729065760146, 274701158089481362, 139007357028377558, 0, 139007357028377558);
    lemma_pow_mod_step(7, 2933, 1466, true, 576460752169205759, 139007357028377558, 33520140330981330, 495943330640563894, 6, 12838801468712704);
    lemma_pow_mod_step(7, 5866, 2933, false, 576460752169205759, 12838801468712704, 285942837448604, 287316094227681180, 0, 287316094227681180);
    lemma_pow_mod_step(7, 11732, 5866, false, 576460752169205759, 287316094227681180, 143202356260360128, 122341666654615248, 0, 122341666654615248);
    lemma_pow_mod_step(7, 23464, 11732, false, 576460752169205759, 122341666654615248, 25964444836021833, 352076338120765257, 0, 352076338120765257);
    lemma_pow_mod_step(7, 46929, 23464, true, 576460752169205759, 352076338120765257, 215032415299875783, 483774468830041752, 5, 504117520964263469);
    lemma_pow_mod_step(7, 93858, 46929, false, 576460752169205759, 504117520964263469, 440853039841574062, 309492394732490903, 0, 309492394732490903);
    lemma_pow_mod_step(7, 187716, 93858, false, 576460752169205759, 309492394732490903, 166161429094372225, 324075352018111634, 0, 324075352018111634);
    lemma_pow_mod_step(7, 375432, 187716, false, 576460752169205759, 324075352018111634, 182189044770970872, 82845515722498108, 0, 82845515722498108);
    lemma_pow_mod_step(7, 750864, 375432, false, 576460752169205759, 82845515722498108, 11906065503158671, 499428484239593375, 0, 499428484239593375);
    lemma_pow_mod_step(7, 1501728, 750864, false, 576460752169205759, 499428484239593375, 432690013901664767, 312115463080097472, 0, 312115463080097472);
    lemma_pow_mod_step(7, 3003457, 1501728, true, 576460752169205759, 312115463080097472, 168989930237452867, 438673430433329731, 5, 188410252187279322);
    lemma_pow_mod_step(7, 6006914, 3003457, false, 576460752169205759, 188410252187279322, 61579947976847712, 54289376912406276, 0, 54289376912406276);
    lemma_pow_mod_step(7, 12013828, 6006914, false, 576460752169205759, 54289376912406276, 5112813724866032, 164615126366309888, 0, 164615126366309888);
    lemma_pow_mod_step(7, 24027657, 12013828, true, 576460752169205759, 164615126366309888, 47007779326912764, 116761398687164668, 1, 240869038640946917);
    lemma_pow_mod_step(7, 48055315, 24027657, true, 576460752169205759, 240869038640946917, 100645002383066427, 432367974883851796, 5, 144272063340933777);
    lemma_pow_mod_step(7, 96110631, 48055315, true, 576460752169205759, 144272063340933777, 36107277351192243, 58601013267758292, 0, 410207092874308044);
    lemma_pow_mod_step(7, 192221262, 96110631, false, 576460752169205759, 410207092874308044, 291901674851577303, 327166445901817959, 0, 327166445901817959);
    lemma_pow_mod_step(7, 384442524, 192221262, false, 576460752169205759, 327166445901817959, 185681129064288596, 409163037493701317, 0, 409163037493701317);
    lemma_pow_mod_step(7, 768885049, 384442524, true, 576460752169205759, 409163037493701317, 290417674787218968, 341649963427897777, 4, 85706735318461403);
    lemma_pow_mod_step(7, 1537770098, 768885049, false, 576460752169205759, 85706735318461403, 12742661926778785, 128968748459705594, 0, 128968748459705594);
    lemma_pow_mod_step(7, 3075540197, 1537770098, true, 576460752169205759, 128968748459705594, 28853548167283776, 197033994868426852, 2, 226316459740576446);
    lemma_pow_mod_step(7, 6151080394, 3075540197, false, 576460752169205759, 226316459740576446, 88851044510440237, 7092852644266033, 0, 7092852644266033);
    lemma_pow_mod_step(7, 12302160789, 6151080394, true, 576460752169205759, 7092852644266033, 87271437724011, 277095568763777740, 3, 210286724838826903);
    lemma_pow_mod_step(7, 24604321579, 12302160789, true, 576460752169205759, 210286724838826903, 76710351011825114, 298464102806939883, 3, 359866463140961904);
    lemma_pow_mod_step(7, 49208643159, 24604321579, true, 576460752169205759, 359866463140961904, 224653405815167521, 435795136276351777, 5, 168262193088433644);
    lemma_pow_mod_step(7, 98417286319, 49208643159, true, 576460752169205759, 168262193088433644, 49113778373274218, 199163508019297274, 2, 241223051796669400);
    lemma_pow_mod_step(7, 196834572639, 98417286319, true, 576460752169205759, 241223051796669400, 100941062334489754, 53652274193066714, 0, 375565919351466998);
    lemma_pow_mod_step(7, 393669145279, 196834572639, true, 576460752169205759, 375565919351466998, 244682329625297636, 557092430582846280, 6, 440882501064689406);
    lemma_pow_mod_step(7, 787338290559, 393669145279, true, 576460752169205759, 440882501064689406, 337191003921115509, 471706437421616505, 5, 419641301105286740);
    lemma_pow_mod_step(7, 1574676581119, 787338290559, true, 576460752169205759, 419641301105286740, 305482759980940537, 224089084522875017, 2, 415702087321713601);
    lemma_pow_mod_step(7, 3149353162238, 1574676581119, false, 576460752169205759, 415702087321713601, 299774485519364604, 272309410050832765, 0, 272309410050832765);
}

/// `7^((q - 1) / 2460659)` modulo the large factor `q`.
proof fn lemma_large_cofactor_2460659()
    ensures
        pow_mod(7, 234270881162nat, 576460752169205759nat) == 417728043893022433nat,
{
    lemma_pow_mod_zero(7, 576460752169205759);
    lemma_pow_mod_step(7, 1, 0, true, 576460752169205759, 1, 0, 1, 0, 7);
    lemma_pow_mod_step(7, 3, 1, true, 576460752169205759, 7, 0, 49, 0, 343);
    lemma_pow_mod_step(7, 6, 3, false, 576460752169205759, 343, 0, 117649, 0, 117649);
    lemma_pow_mod_step(7, 13, 6, true, 576460752169205759, 117649, 0, 13841287201, 0, 96889010407);
    lemma_pow_mod_step(7, 27, 13, true, 576460752169205759, 96889010407, 16284, 393449324407726093, 4, 448302262177259615);
    lemma_pow_mod_step(7, 54, 27, false, 576460752169205759, 448302262177259615, 348635908892297342, 407222026103155647, 0, 407222026103155647);
    lemma_pow_mod_step(7, 109, 54, true, 576460752169205759, 407222026103155647, 287668809922525236, 532897645753954485, 6, 271519007262446841);
    lemma_pow_mod_step(7, 218, 109, false, 576460752169205759, 271519007262446841, 127888275181560370, 293197093140708451, 0, 293197093140708451);
    lemma_pow_mod_step(7, 436, 218, false, 576460752169205759, 293197093140708451, 149124697739922646, 5545766265101087, 0, 5545766265101087);
    lemma_pow_mod_step(7, 872, 436, false, 576460752169205759, 5545766265101087, 53352328586813, 419457545237525502, 0, 419457545237525502);
    lemma_pow_mod_step(7, 1745, 872, true, 576460752169205759, 419457545237525502, 305215284118851111, 313217223655603755, 3, 463138309081609008);
    lemma_pow_mod_step(7, 3490, 1745, false, 576460752169205759, 463138309081609008, 372093143430537824, 394891309898615648, 0, 394891309898615648);
    lemma_pow_mod_step(7, 6981, 3490, true, 576460752169205759, 394891309898615648, 270511298551809180, 407878713705392284, 4, 549307987260922952);
    lemma_pow_mod_step(7, 13963, 6981, true, 576460752169205759, 549307987260922952, 523434186513496088, 265414189566823512, 3, 128517070460147307);
    lemma_pow_mod_step(7, 27927, 13963, true, 576460752169205759, 128517070460147307, 28651798648055085, 566313269608117734, 6, 505428374241589584);
    lemma_pow_mod_step(7, 55854, 27927, false, 576460752169205759, 505428374241589584, 443148714855635171, 531947442561143267, 0, 531947442561143267);
    lemma_pow_mod_step(7, 111709, 55854, true, 576460752169205759, 531947442561143267, 490871374300053912, 55352254178554081, 0, 387465779249878567);
    lemma_pow_mod_step(7, 223418, 111709, false, 576460752169205759, 387465779249878567, 260433567289328257, 271219059920141426, 0, 271219059920141426);
    lemma_pow_mod_step(7, 446836, 223418, false, 576460752169205759, 271219059920141426, 127605874618804258, 484720885693991654, 0, 484720885693991654);
    lemma_pow_mod_step(7, 893672, 446836, false, 576460752169205759, 484720885693991654, 407580804319879705, 257998111548434621, 0, 257998111548434621);
    lemma_pow_mod_step(7, 1787344, 893672, false, 576460752169205759, 257998111548434621, 115468443102299162, 339619727160139683, 0, 339619727160139683);
    lemma_pow_mod_step(7, 3574689, 1787344, true, 576460752169205759, 339619727160139683, 200085710332057550, 408230260291910039, 4, 551768813366547237);
    lemma_pow_mod_step(7, 7149379, 3574689, true, 576460752169205759, 551768813366547237, 528134521315276350, 528128025855834519, 6, 238131667975607079);
    lemma_pow_mod_step(7, 14298759, 7149379, true, 576460752169205759, 238131667975607079, 98370428653571070, 529223077635120111, 6, 245797030430606223);
    lemma_pow_mod_step(7, 28597519, 14298759, true, 576460752169205759, 245797030430606223, 104805366091550826, 92282226285918795, 1, 69514831832225806);
    lemma_pow_mod_step(7, 57195039, 28597519, true, 576460752169205759, 69514831832225806, 8382724802128816, 423595401045298292, 5, 82864046471059249);
    lemma_pow_mod_step(7, 114390078, 57195039, false, 576460752169205759, 82864046471059249, 11911392357102553, 349589531547241274, 0, 349589531547241274);
    lemma_pow_mod_step(7, 228780157, 114390078, true, 576460752169205759, 349589531547241274, 212005483647474846, 543500738218304962, 6, 345740654512900180);
    lemma_pow_mod_step(7, 457560314, 228780157, false, 576460752169205759, 345740654512900180, 207362946624198968, 339974024496575688, 0, 339974024496575688);
    lemma_pow_mod_step(7, 915120629, 457560314, true, 576460752169205759, 339974024496575688, 200503394025465097, 51916606846779721, 0, 363416247927458047);
    lemma_pow_mod_step(7, 1830241259, 915120629, true, 576460752169205759, 363416247927458047, 229107304809027796, 167839156670777045, 2, 21952592357027797);
    lemma_pow_mod_step(7, 3660482518, 1830241259, false, 576460752169205759, 21952592357027797, 835991538678735, 540062617838344, 0, 540062617838344);
    lemma_pow_mod_step(7, 7320965036, 3660482518, false, 576460752169205759, 540062617838344, 505962687119, 233944887666744015, 0, 233944887666744015);
    lemma_pow_mod_step(7, 14641930072, 7320965036, false, 576460752169205759, 233944887666744015, 94941780961595768, 289034093762692313, 0, 289034093762692313);
    lemma_pow_mod_step(7, 29283860145, 14641930072, true, 576460752169205759, 289034093762692313, 144920026286021131, 127577113748396540, 1, 316579044069570021);
    lemma_pow_mod_step(7, 58567720290, 29283860145, false, 576460752169205759, 316579044069570021, 173857961304163495, 124007981790372736, 0, 124007981790372736);
    lemma_pow_mod_step(7, 117135440581, 58567720290, true, 576460752169205759, 124007981790372736, 26676542140734659, 162279033018424515, 1, 559492478959765846);
    lemma_pow_mod_step(7, 234270881162, 117135440581, false, 576460752169205759, 559492478959765846, 543023671316067837, 417728043893022433, 0, 417728043893022433);
}

/// Every nonzero residue modulo the Goldilocks prime is invertible.
pub proof fn lemma_goldilocks_invertible()
    ensures
        forall|a: nat| 0 < a < GOLDILOCKS_MODULUS ==> #[trigger] is_invertible_mod(a, GOLDILOCKS_MODULUS as nat),
        is_prime(GOLDILOCKS_MODULUS as nat),
{
    let n: nat = 18446744069414584321nat;
    let twos = Seq::new(32, |i: int| 2nat);
    let qs = Seq::new(32, |i: int| 2nat).push(3nat).push(5nat).push(17nat).push(257nat).push(65537nat);
    lemma_two_is_prime();
    assert(forall|d: u32| 1 < d < 2u32 ==> #[trigger] (3u32 % d) != 0) by (bit_vector);
    lemma_small_prime(3, 2);
    assert(forall|d: u32| 1 < d < 3u32 ==> #[trigger] (5u32 % d) != 0) by (bit_vector);
    lemma_small_prime(5, 3);
    assert(forall|d: u32| 1 < d < 5u32 ==> #[trigger] (17u32 % d) != 0) by (bit_vector);
    lemma_small_prime(17, 5);
    assert(forall|d: u32| 1 < d < 17u32 ==> #[trigger] (257u32 % d) != 0) by (bit_vector);
    lemma_small_prime(257, 17);
    assert(forall|d: u32| 1 < d < 257u32 ==> #[trigger] (65537u32 % d) != 0) by (bit_vector);
    lemma_small_prime(65537, 257);
    lemma_product_twos(32);
    lemma2_to64();
    lemma_product_push(twos, 3);
    lemma_product_push(twos.push(3nat), 5);
    lemma_product_push(twos.push(3nat).push(5nat), 17);
    lemma_product_push(twos.push(3nat).push(5nat).push(17nat), 257);
    lemma_product_push(twos.push(3nat).push(5nat).push(17nat).push(257nat), 65537);
    assert(product(qs) == n - 1);
    lemma_gl_order();
    lemma_gl_cofactor_2();
    lemma_gl_cofactor_3();
    lemma_gl_cofactor_5();
    lemma_gl_cofactor_17();
    lemma_gl_cofactor_257();
    lemma_gl_cofactor_65537();
    assert forall|j: int| 0 <= j < qs.len() implies is_prime(#[trigger] qs[j]) && pow_mod(
        7,
        ((n - 1) as nat / qs[j]) as nat,
        n,
    ) != 1 by {
        if j < 32 {
            assert(qs[j] == 2);
        } else if j == 32 {
            assert(qs[j] == 3);
        } else if j == 33 {
            assert(qs[j] == 5);
        } else if j == 34 {
            assert(qs[j] == 17);
        } else if j == 35 {
            assert(qs[j] == 257);
        } else {
            assert(qs[j] == 65537);
        }
    }
    lemma_lucas(n, 7, qs);
    lemma_prime_of_invertible(n);
}

/// The large factor `q` of the almost Goldilocks group order is prime.
proof fn lemma_large_factor_prime()
    ensures
        is_prime(576460752169205759nat),
{
    let n: nat = 576460752169205759nat;
    let qs = Seq::<nat>::empty().push(2nat).push(639941nat).push(183041nat).push(2460659nat);
    lemma_two_is_prime();
    assert(forall|d: u32| 1 < d < 800u32 ==> #[trigger] (639941u32 % d) != 0) by (bit_vector);
    lemma_small_prime(639941, 800);
    assert(forall|d: u32| 1 < d < 428u32 ==> #[trigger] (183041u32 % d) != 0) by (bit_vector);
    lemma_small_prime(183041, 428);
    assert(forall|d: u32| 1 < d < 1569u32 ==> #[trigger] (2460659u32 % d) != 0) by (bit_vector);
    lemma_small_prime(2460659, 1569);
    lemma_product_push(Seq::<nat>::empty(), 2);
    lemma_product_push(Seq::<nat>::empty().push(2nat), 639941);
    lemma_product_push(Seq::<nat>::empty().push(2nat).push(639941nat), 183041);
    lemma_product_push(Seq::<nat>::empty().push(2nat).push(639941nat).push(183041nat), 2460659);
    assert(product(Seq::<nat>::empty()) == 1);
    assert(product(qs) == n - 1);
    lemma_large_order();
    lemma_large_cofactor_2();
    lemma_large_cofactor_639941();
    lemma_large_cofactor_183041();
    lemma_large_cofactor_2460659();
    assert forall|j: int| 0 <= j < qs.len() implies is_prime(#[trigger] qs[j]) && pow_mod(
        7,
        ((n - 1) as nat / qs[j]) as nat,
        n,
    ) != 1 by {
        if j == 0 {
            assert(qs[j] == 2);
        } else if j == 1 {
            assert(qs[j] == 639941);
        } else if j == 2 {
            assert(qs[j] == 183041);
        } else {
            assert(qs[j] == 2460659);
        }
    }
    lemma_lucas(n, 7, qs);
    lemma_prime_of_invertible(n);
}

/// Every nonzero residue modulo the almost Goldilocks prime is invertible.
pub proof fn lemma_almost_goldilocks_invertible()
    ensures
        forall|a: nat| 0 < a < ALMOST_GOLDILOCKS_MODULUS ==> #[trigger] is_invertible_mod(a, ALMOST_GOLDILOCKS_MODULUS as nat),
        forall|a: nat|
            0 < a < ALMOST_GOLDILOCKS_MODULUS ==> #[trigger] pow(a as int, (ALMOST_GOLDILOCKS_MODULUS - 1) as nat) % (
            ALMOST_GOLDILOCKS_MODULUS as int) == 1,
        is_prime(ALMOST_GOLDILOCKS_MODULUS as nat),
{
    let n: nat = 18446744069414584289nat;
    let twos = Seq::new(5, |i: int| 2nat);
    let qs = twos.push(576460752169205759nat);
    lemma_two_is_prime();
    lemma_large_factor_prime();
    lemma_product_twos(5);
    lemma2_to64();
    lemma_product_push(twos, 576460752169205759);
    assert(product(qs) == n - 1);
    lemma_ag_order();
    lemma_ag_cofactor_2();
    lemma_ag_cofactor_large();
    assert forall|j: int| 0 <= j < qs.len() implies is_prime(#[trigger] qs[j]) && pow_mod(
        3,
        ((n - 1) as nat / qs[j]) as nat,
        n,
    ) != 1 by {
        if j < 5 {
            assert(qs[j] == 2);
        } else {
            assert(qs[j] == 576460752169205759);
        }
    }
    lemma_lucas(n, 3, qs);
    lemma_prime_of_invertible(n);
}

/// Congruent factors give congruent products.
proof fn lemma_mul_congruent(x1: int, x2: int, y1: int, y2: int, p: int)
    requires
        p > 0,
        x1 % p == x2 % p,
        y1 % p == y2 % p,
    ensures
        (x1 * y1) % p == (x2 * y2) % p,
{
    lemma_mul_mod_noop(x1, y1, p);
    lemma_mul_mod_noop(x2, y2, p);
}

/// Over the almost Goldilocks field `3` is not a square (`3^((p-1)/2) = -1`),
/// so the norm `a^2 - 3 b^2` of a nonzero `a + b u` is nonzero: every nonzero
/// element of the quadratic extension is invertible.
pub proof fn lemma_almost_goldilocks_norm_nonzero(x: Fq2Value)
    requires
        fq2_canonical(ALMOST_GOLDILOCKS_MODULUS as nat, x),
        x != (0nat, 0nat),
    ensures
        fq2_norm(ALMOST_GOLDILOCKS_MODULUS as nat, x) != 0,
{
    let p: nat = ALMOST_GOLDILOCKS_MODULUS as nat;
    let pi = p as int;
    let e: nat = 9223372034707292144nat;
    lemma_almost_goldilocks_invertible();
    lemma_ag_cofactor_2();
    lemma_pow_mod_is_pow(3, e, p);
    assert(pow(3, e) % pi == pi - 1);
    let a = x.0 as int;
    let b = x.1 as int;
    if fq2_norm(p, x) == 0 {
        let t = 3 * (b * b);
        assert((a * a - t) % pi == 0);
        lemma_fundamental_div_mod(a * a - t, pi);
        let k = (a * a - t) / pi;
        assert(a * a == pi * k + t);
        lemma_mod_multiples_vanish(k, t, pi);
        assert((a * a) % pi == t % pi);
        if b == 0 {
            assert(a != 0);
            assert(is_invertible_mod(x.0, p));
            let w = choose|w: nat| #[trigger] ((x.0 * w) % p) == 1;
            let wi = w as int;
            assert(t == 0);
            lemma_small_mod(0, p);
            lemma_mul_congruent(a * a, 0, wi * wi, wi * wi, pi);
            assert((a * wi) * (a * wi) == (a * a) * (wi * wi)) by (nonlinear_arith);
            lemma_mul_congruent(a * wi, 1, a * wi, 1, pi);
            lemma_small_mod(1, p);
            assert(false);
        } else {
            assert(is_invertible_mod(x.1, p));
            let w = choose|w: nat| #[trigger] ((x.1 * w) % p) == 1;
            let wi = w as int;
            let c = (a * wi) % pi;
            lemma_mod_bound(a * wi, pi);
            // c^2 = a^2 w^2 = 3 b^2 w^2 = 3 (b w)^2 = 3
            lemma_mul_congruent(a * a, t, wi * wi, wi * wi, pi);
            assert((a * wi) * (a * wi) == (a * a) * (wi * wi)) by (nonlinear_arith);
            lemma_mod_twice(a * wi, pi);
            lemma_mul_congruent(c, a * wi, c, a * wi, pi);
            assert(t * (wi * wi) == 3 * ((b * wi) * (b * wi))) by (nonlinear_arith)
                requires
                    t == 3 * (b * b),
            ;
            lemma_small_mod(1, p);
            lemma_mul_congruent(b * wi, 1, b * wi, 1, pi);
            lemma_mul_congruent(3, 3, (b * wi) * (b * wi), 1, pi);
            lemma_small_mod(3, p);
            assert((c * c) % pi == 3);
            assert(0 < c < pi) by {
                if c == 0 {
                    assert(c * c == 0) by (nonlinear_arith)
                        requires
                            c == 0,
                    ;
                    lemma_small_mod(0, p);
                }
            }
            // 3^e = (c^2)^e = c^(p-1) = 1
            lemma_pow_mod_noop(c * c, e, pi);
            lemma_square_is_pow2(c);
            lemma_pow_multiplies(c, 2, e);
            assert(2 * e == (p - 1) as nat);
            assert(pow(c, (p - 1) as nat) % pi == 1);
            assert(pow(3, e) % pi == 1);
        }
    }
}

} // verus!
