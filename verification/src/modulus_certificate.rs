//! The certificate that the field's order is prime: 7 generates the
//! multiplicative group modulo it. The powers of 7 that the Lucas test asks
//! for are computed as chains of squarings, sharing their common prefixes.

use crate::factor_certificates::{
    lemma_prime_3,
    lemma_prime_11,
    lemma_prime_19,
    lemma_prime_10177,
    lemma_prime_125527,
    lemma_prime_859267,
    lemma_prime_906349,
    lemma_prime_2508409,
    lemma_prime_2529403,
    lemma_prime_52437899,
    lemma_prime_254760293,
};
use crate::field_spec::modulus;
use crate::primality::{
    is_generator, is_prime, is_witness, lemma_covered_one, lemma_covered_step,
    lemma_generator_prime, lemma_lucas, lemma_pow_mod_compose, lemma_pow_mod_square,
    lemma_pow_mod_square_times, lemma_pow_mod_start, lemma_two_is_prime, pow_mod,
};
use vstd::prelude::*;

verus! {

proof fn squarings_modulus_0_0()
    ensures
        pow_mod(
            7,
            107522,
            modulus(),
        ) == 0x3c7ab2e42e298a52a42aad215d2cc3b3905cd6b4764052b7c9f0ad86cdabaab3nat,
{
    lemma_pow_mod_start(7, modulus());
    lemma_pow_mod_square_times(7, 1, modulus(), 7, 0, 343);
    lemma_pow_mod_square(7, 3, modulus(), 343, 0, 117649);
    lemma_pow_mod_square_times(7, 6, modulus(), 117649, 0, 96889010407nat);
    lemma_pow_mod_square(7, 13, modulus(), 96889010407nat, 0, 0x1fce575ce1692706071nat);
    lemma_pow_mod_square(
        7,
        26,
        modulus(),
        0x1fce575ce1692706071nat,
        0,
        0x3f39f7935e27f9685fd64ab94cec16b34f1e1nat,
    );
    lemma_pow_mod_square_times(
        7,
        52,
        modulus(),
        0x3f39f7935e27f9685fd64ab94cec16b34f1e1nat,
        1036730034841nat,
        0x507c92865c8479d01ce1e5537f9809ca0090e3cda86b992e6905be7a4facebaenat,
    );
    lemma_pow_mod_square(
        7,
        105,
        modulus(),
        0x507c92865c8479d01ce1e5537f9809ca0090e3cda86b992e6905be7a4facebaenat,
        0x37e15287231ae36a1f4bd86afacd40cd8ab2b736ed33606528c43d598d103319nat,
        0x5b96ce5a7557c97ec9db8919389fd75395d82acb67a181600c8b0dda61b8b72bnat,
    );
    lemma_pow_mod_square(
        7,
        210,
        modulus(),
        0x5b96ce5a7557c97ec9db8919389fd75395d82acb67a181600c8b0dda61b8b72bnat,
        0x485c214a3fd5c646e7e93943cc79ad01ba22ceb7ec30c75f05971b9c7108c54enat,
        0x18d524e57eadb15da03da763d22176fbaca76cd2e46b1fc5b2a37d03f5d5bbebnat,
    );
    lemma_pow_mod_square(
        7,
        420,
        modulus(),
        0x18d524e57eadb15da03da763d22176fbaca76cd2e46b1fc5b2a37d03f5d5bbebnat,
        0x551bdba6fd0977459374c15f9e583e478617b150c8fb3f09ca79645778a519fnat,
        0x12e211f7b84956c15810272bf3fada7582a5e338b46857445cbd6cfd9574d81anat,
    );
    lemma_pow_mod_square(
        7,
        840,
        modulus(),
        0x12e211f7b84956c15810272bf3fada7582a5e338b46857445cbd6cfd9574d81anat,
        0x31366d50e56a9eea7adf9611d63f16064f138a3238c0db62587d8f39da64aafnat,
        0x657dfa94cc0d81ebf5dc77b9cfe7f19e6579bb9fc87f46e1950cbe02345597f5nat,
    );
    lemma_pow_mod_square(
        7,
        1680,
        modulus(),
        0x657dfa94cc0d81ebf5dc77b9cfe7f19e6579bb9fc87f46e1950cbe02345597f5nat,
        0x58da841b84c97cab3f28701573ccebd4d4a8f2004399faf44dd807e3642c3db5nat,
        0x2767c79505ec9e61aeb652cf2785e20cb505d912547427eb70e523ff66b8b2c4nat,
    );
    lemma_pow_mod_square(
        7,
        3360,
        modulus(),
        0x2767c79505ec9e61aeb652cf2785e20cb505d912547427eb70e523ff66b8b2c4nat,
        0xd64f4200e6d35c044da5867fc50514c6400473562387fddd911bf05950e57aenat,
        0x9118bb520e650553c6e920d46bcb79616e38e3df8d0326d5cb206d61186ce62nat,
    );
    lemma_pow_mod_square(
        7,
        6720,
        modulus(),
        0x9118bb520e650553c6e920d46bcb79616e38e3df8d0326d5cb206d61186ce62nat,
        0xb59a9274333784e4b49b80b56866b4aea7520ec0aa75580d9d73ec993b99f4nat,
        0x8722ea9b0942767e0cf0af0d4bdfdb9ed00443be1e4ef9d9c26f8451fbe4390nat,
    );
    lemma_pow_mod_square(
        7,
        13440,
        modulus(),
        0x8722ea9b0942767e0cf0af0d4bdfdb9ed00443be1e4ef9d9c26f8451fbe4390nat,
        0x9d86ea7b57cf25dff6681fe6701a384be6a45ad44ef0b94c14f01df374dc7anat,
        0x9fd170b13d84c08d206cd32c1daa498dfe15f16b2f4117cf986f9c1481fd486nat,
    );
    lemma_pow_mod_square_times(
        7,
        26880,
        modulus(),
        0x9fd170b13d84c08d206cd32c1daa498dfe15f16b2f4117cf986f9c1481fd486nat,
        0x6064535e662cb4117017f871b525e3a6c21009ea79578514c2d19835dfccbefnat,
        0x61afab2a52fbbad448803175e41d216f28e4fd358ecf34ad69f2f5436032af0dnat,
    );
    lemma_pow_mod_square(
        7,
        53761,
        modulus(),
        0x61afab2a52fbbad448803175e41d216f28e4fd358ecf34ad69f2f5436032af0dnat,
        0x525089c7afc2ffd9d6b7f7429ad39e517cb5e94ff21ebaa8217afe8fcb1b1bf6nat,
        0x3c7ab2e42e298a52a42aad215d2cc3b3905cd6b4764052b7c9f0ad86cdabaab3nat,
    );
}

proof fn squarings_modulus_0_1()
    ensures
        pow_mod(
            7,
            7046561792nat,
            modulus(),
        ) == 0x312852023eb3c473c1a6d17510802d12ce29c25c411323cd36afded052e0386bnat,
{
    squarings_modulus_0_0();
    lemma_pow_mod_square(
        7,
        107522,
        modulus(),
        0x3c7ab2e42e298a52a42aad215d2cc3b3905cd6b4764052b7c9f0ad86cdabaab3nat,
        0x1f8d412897a3bcdb2aac49e93e9583808047c7515937146f0be684a80fe123d2nat,
        0x4877e26876504ce8e3f937c70d1a8f7cfcdc448704f680d82343a30e1b131557nat,
    );
    lemma_pow_mod_square(
        7,
        215044,
        modulus(),
        0x4877e26876504ce8e3f937c70d1a8f7cfcdc448704f680d82343a30e1b131557nat,
        0x2d4d05bee348ef291c5f5eb740b979eaa6adaa2f35ff12db259c054a4c96d74fnat,
        0x1f21515b1ff125e0931b71fd3e88015d3495601fd2d4c3a262a4f9753a1a8c42nat,
    );
    lemma_pow_mod_square(
        7,
        430088,
        modulus(),
        0x1f21515b1ff125e0931b71fd3e88015d3495601fd2d4c3a262a4f9753a1a8c42nat,
        0x85bfeaf0caff45af4cff7be9e9f2c64fc3c4aed11090a71933d31b9e4577a6dnat,
        0x6801aa4a3002337345e9be42524b87447d77f2d7cdc08b595bf6eb55cde8c697nat,
    );
    lemma_pow_mod_square(
        7,
        860176,
        modulus(),
        0x6801aa4a3002337345e9be42524b87447d77f2d7cdc08b595bf6eb55cde8c697nat,
        0x5d4f897515e86b4cd447da6e8a5a2cda97f236b46b08180534da4c6ec46f6280nat,
        0x4621915574d896c5e9420a00fc8f5819fa06c21c197f83405294d20d9d4e8a91nat,
    );
    lemma_pow_mod_square(
        7,
        1720352,
        modulus(),
        0x4621915574d896c5e9420a00fc8f5819fa06c21c197f83405294d20d9d4e8a91nat,
        0x2a6d0dc800160d65d54dae05727f8822e19790b2f96e6839fbcc5847fc8ef491nat,
        0x184368588b04122d989530ffd0d67efd2452aa0da3fd01825264011198cdb190nat,
    );
    lemma_pow_mod_square(
        7,
        3440704,
        modulus(),
        0x184368588b04122d989530ffd0d67efd2452aa0da3fd01825264011198cdb190nat,
        0x51405798f9e8d8c9d77fb73ecaca7ea003f1fa053c00cf99ca544a6d7ec29b5nat,
        0x31aa3e836ec2dd091300825a0d523f11d3172b3fd3ce167c75b0824f03dc474bnat,
    );
    lemma_pow_mod_square(
        7,
        6881408,
        modulus(),
        0x31aa3e836ec2dd091300825a0d523f11d3172b3fd3ce167c75b0824f03dc474bnat,
        0x1546ed3f9e49f1160833e251e9367dedbeba1afb18819ce130023274d1b5f1bdnat,
        0x697fbd0ac9816da992734123a9511c733fe7b22a0aab9054513ed2c88d0cbe3cnat,
    );
    lemma_pow_mod_square(
        7,
        13762816,
        modulus(),
        0x697fbd0ac9816da992734123a9511c733fe7b22a0aab9054513ed2c88d0cbe3cnat,
        0x600204e0b262b3c9d67d81c93d734dd79321a81082ae4cd34ae7fd8aa2775a95nat,
        0x151c6726ae58cabdf7e1bd960e3fb7e57e159dc5a5c9ddc00e5a14fad885c37bnat,
    );
    lemma_pow_mod_square(
        7,
        27525632,
        modulus(),
        0x151c6726ae58cabdf7e1bd960e3fb7e57e159dc5a5c9ddc00e5a14fad885c37bnat,
        0x3d8290f23e1dd3c76a2af8c6409fce56aad5c8d92b5d6b473694b9c6689aa58nat,
        0x53acea4e2dd88feea1bfeac0f99ed50a7ec5b46695ca1ccf5c8b62bbdc88f2c1nat,
    );
    lemma_pow_mod_square(
        7,
        55051264,
        modulus(),
        0x53acea4e2dd88feea1bfeac0f99ed50a7ec5b46695ca1ccf5c8b62bbdc88f2c1nat,
        0x3c65512709fac3ec9bb3664809b18e660de61abf475a228b4693ed54a6d2bcd8nat,
        0x48216bc476fa0286465edb3a34d1468a7badcbb2259dfda67dbee3f7e46eb8a9nat,
    );
    lemma_pow_mod_square(
        7,
        110102528,
        modulus(),
        0x48216bc476fa0286465edb3a34d1468a7badcbb2259dfda67dbee3f7e46eb8a9nat,
        0x2ce12cef163aa183a42d6d04daf2acfcda9f9e81b2b2e8302dd87d5b93d010c7nat,
        0x487174a1b2861d429c08f57bea4ba96168bbf16020686af47fcd0859aa9f4ecanat,
    );
    lemma_pow_mod_square(
        7,
        220205056,
        modulus(),
        0x487174a1b2861d429c08f57bea4ba96168bbf16020686af47fcd0859aa9f4ecanat,
        0x2d44fc828e71ea1974b3f886d092272069009dc037d7c899668f5c5a522b9aa5nat,
        0x32125f8e3226ee4d5e5877f118a39f97da86516f12d268d890899e85ed001cbfnat,
    );
    lemma_pow_mod_square(
        7,
        440410112,
        modulus(),
        0x32125f8e3226ee4d5e5877f118a39f97da86516f12d268d890899e85ed001cbfnat,
        0x15a08323936631f4df31dab06badea088e4c391d4dec0baae82a46783dfbd08dnat,
        0x61c0ca58f65595ce320e4a4c58c04b7938aeabcdbf6a72bc3b4261c46b3e85f4nat,
    );
    lemma_pow_mod_square(
        7,
        880820224,
        modulus(),
        0x61c0ca58f65595ce320e4a4c58c04b7938aeabcdbf6a72bc3b4261c46b3e85f4nat,
        0x526d67398d8280afcc85614bc4051211017f6ac2ffffcf8c2d727f28382341acnat,
        0x44e90607430bda1b3bb4c5632630a0d4ebd9b9c08e92bd9d5aae1b62e8242ee4nat,
    );
    lemma_pow_mod_square(
        7,
        1761640448,
        modulus(),
        0x44e90607430bda1b3bb4c5632630a0d4ebd9b9c08e92bd9d5aae1b62e8242ee4nat,
        0x28f6325784c1162dd649b9380e71c606ecf0c7f0ffe30f180b220a37a37510b9nat,
        0x6f12506b6627dd5a53a60489ee91acf6b736326b1c6cc0d6d65c9f2bd541aa57nat,
    );
    lemma_pow_mod_square(
        7,
        3523280896nat,
        modulus(),
        0x6f12506b6627dd5a53a60489ee91acf6b736326b1c6cc0d6d65c9f2bd541aa57nat,
        0x6a6b106ab3183ed470ab482bcc745a7efed18e6b66b5ad0df7cb33dc64a57126nat,
        0x312852023eb3c473c1a6d17510802d12ce29c25c411323cd36afded052e0386bnat,
    );
}

proof fn squarings_modulus_0_2()
    ensures
        pow_mod(
            7,
            461803473600514nat,
            modulus(),
        ) == 0x2254c16be8b9ec325ea8dafb5930b66901d5114f7d666e34964862dda73422b6nat,
{
    squarings_modulus_0_1();
    lemma_pow_mod_square(
        7,
        7046561792nat,
        modulus(),
        0x312852023eb3c473c1a6d17510802d12ce29c25c411323cd36afded052e0386bnat,
        0x14d82c80395992622d5e0b3eccb0efebb5d8162515ce85119a400a5610f42476nat,
        0x195ec996f7997952f05a5fdf5cf15dd5860f05a82756beb66607c48742bad843nat,
    );
    lemma_pow_mod_square(
        7,
        14093123584nat,
        modulus(),
        0x195ec996f7997952f05a5fdf5cf15dd5860f05a82756beb66607c48742bad843nat,
        0x58d5901a3f812c0ca7b01d1871bc7b1154d6eaa3e06aac4dd78ceb81acbc66anat,
        0x523ad07af09eeef5c7ff7e4fb85e265be5c37d211ce8b5d40298863d69415b1fnat,
    );
    lemma_pow_mod_square(
        7,
        28186247168nat,
        modulus(),
        0x523ad07af09eeef5c7ff7e4fb85e265be5c37d211ce8b5d40298863d69415b1fnat,
        0x3a53aa469f51ecbf3ed5ee434ed1c11db541222dfbc9e934c154627b34e84be0nat,
        0x1bf07cd11e009bffac9e3cac30bf4af35b97a8966b2d6272e43477999f44c1e1nat,
    );
    lemma_pow_mod_square(
        7,
        56372494336nat,
        modulus(),
        0x1bf07cd11e009bffac9e3cac30bf4af35b97a8966b2d6272e43477999f44c1e1nat,
        0x6bbca8ca03b5d632d978035f161937cabe41e85f59c871998f74d8961934f2dnat,
        0x1f90714a0f489edd082268b01972c98a4c90f722e196358a038969e2aec9b894nat,
    );
    lemma_pow_mod_square(
        7,
        112744988672nat,
        modulus(),
        0x1f90714a0f489edd082268b01972c98a4c90f722e196358a038969e2aec9b894nat,
        0x898176869c3dbb2100cd3a7d28bbde7056a5a5f7898a1b84c0cc153a22b858bnat,
        0x3704276ad36327715ae112e31f6e8790b4ea33451a93830be970e763eb519005nat,
    );
    lemma_pow_mod_square(
        7,
        225489977344nat,
        modulus(),
        0x3704276ad36327715ae112e31f6e8790b4ea33451a93830be970e763eb519005nat,
        0x1a1bee5f384936b6107d67b342e0d83e4482f6535ccf8fb424b50bf4e93ecd8bnat,
        0x90a7dc8d48156551399ce99d0b04801a1044d69016fad6dee3703d9b8f0d28enat,
    );
    lemma_pow_mod_square(
        7,
        450979954688nat,
        modulus(),
        0x90a7dc8d48156551399ce99d0b04801a1044d69016fad6dee3703d9b8f0d28enat,
        0xb480769c3f42153ea3655655699257b6ecebd3c60c2665628957589d4b7b33nat,
        0x158f84667e3bd9ce79b85ebe10311d4df71e1fb1382fa38d6e957dcdfa21cb91nat,
    );
    lemma_pow_mod_square(
        7,
        901959909376nat,
        modulus(),
        0x158f84667e3bd9ce79b85ebe10311d4df71e1fb1382fa38d6e957dcdfa21cb91nat,
        0x4028844c3262072edb8d1c52a865929308cb8a35a18e31b203b4b03441ee81enat,
        0x16b4830c9f3015a9a8a0227a8f0d0c63235dcfb333526e0745ff43620d226003nat,
    );
    lemma_pow_mod_square(
        7,
        1803919818752nat,
        modulus(),
        0x16b4830c9f3015a9a8a0227a8f0d0c63235dcfb333526e0745ff43620d226003nat,
        0x4726896f5bfa2c6d761a94848ee1fb84f0ee4b7c66e4f555aa748326c7782e5nat,
        0x7a9d5859e01411af7c4fe9f16d1717b97b9f60e33e72e970309d15c8656bd24nat,
    );
    lemma_pow_mod_square(
        7,
        3607839637504nat,
        modulus(),
        0x7a9d5859e01411af7c4fe9f16d1717b97b9f60e33e72e970309d15c8656bd24nat,
        0x81afc2a5196a00e740f77f427ecbb339ec99be69dd0bc58ab89fd1003d41f1nat,
        0x414f17d2b6078d4e5e276be3a840432f9a5b22f5856bf9c70fb847654fb0eb1fnat,
    );
    lemma_pow_mod_square(
        7,
        7215679275008nat,
        modulus(),
        0x414f17d2b6078d4e5e276be3a840432f9a5b22f5856bf9c70fb847654fb0eb1fnat,
        0x24cace6dddb3c7173fb88835693bd990850eb8523367d5f8bdff5d26bb8b90f8nat,
        0xdf76e6559ff32f498063f2797c332ae318a5caba5367483b8ef97a889065cc9nat,
    );
    lemma_pow_mod_square(
        7,
        14431358550016nat,
        modulus(),
        0xdf76e6559ff32f498063f2797c332ae318a5caba5367483b8ef97a889065cc9nat,
        0x1aec082c357632758a4acbc608939069a22e6a4b1cd8999dceaf5e1f22a11a2nat,
        0x21ca9c35657b5d705602db4ee6509f23df77f8f72d1ba37be7b3d107aae3042fnat,
    );
    lemma_pow_mod_square(
        7,
        28862717100032nat,
        modulus(),
        0x21ca9c35657b5d705602db4ee6509f23df77f8f72d1ba37be7b3d107aae3042fnat,
        0x9d9875bcd8813be7375933f749e87472c10a5bbd5340779e348ebcc62f2c727nat,
        0x722faae5745e725cf02785153a3217ff7050eefe46f3b6e9a2b51ecb7478b97anat,
    );
    lemma_pow_mod_square(
        7,
        57725434200064nat,
        modulus(),
        0x722faae5745e725cf02785153a3217ff7050eefe46f3b6e9a2b51ecb7478b97anat,
        0x70786236ad9482ab5dac1b729bc0151f70534a830123eb22bf5ea3ea88d15a13nat,
        0x3c652573c0ea3df443bfea691b43864e4f71ee934eba2561afe316a96ff03411nat,
    );
    lemma_pow_mod_square_times(
        7,
        115450868400128nat,
        modulus(),
        0x3c652573c0ea3df443bfea691b43864e4f71ee934eba2561afe316a96ff03411nat,
        0xdc3f7a3b772f9ccb8ced47937738158cea35bb98610b0cb340b73ea372a3c7a9nat,
        0xb2f7f6f5e6a36362740eed60d9e40ee76d80f35ef172fa8223b77de689c983enat,
    );
    lemma_pow_mod_square(
        7,
        230901736800257nat,
        modulus(),
        0xb2f7f6f5e6a36362740eed60d9e40ee76d80f35ef172fa8223b77de689c983enat,
        0x1144a12ceed8e55a4d5c83890e33868bf24e80111c27707dd1274749ee58c4enat,
        0x2254c16be8b9ec325ea8dafb5930b66901d5114f7d666e34964862dda73422b6nat,
    );
}

proof fn squarings_modulus_0_3()
    ensures
        pow_mod(
            7,
            0x1a402000000020000nat,
            modulus(),
        ) == 0x2478e13eef8d49d437bfc35897a94ee9270a636ee34731a6fdaf2302c4147a5dnat,
{
    squarings_modulus_0_2();
    lemma_pow_mod_square(
        7,
        461803473600514nat,
        modulus(),
        0x2254c16be8b9ec325ea8dafb5930b66901d5114f7d666e34964862dda73422b6nat,
        0xa2ab4e20d5c36d5aac3070bd80ae4ba83822c8f5698d5c75b4cacf6c5f8ddf8nat,
        0x5afdff7b7d66ccd14204c6458609aca7181a06e8b9afb10640d88724ccabfb6cnat,
    );
    lemma_pow_mod_square(
        7,
        923606947201028nat,
        modulus(),
        0x5afdff7b7d66ccd14204c6458609aca7181a06e8b9afb10640d88724ccabfb6cnat,
        0x476b770bc4624f8b412f1b6e6511b6202233484d0e71fc9609bbf581c63efeaanat,
        0x57a0ceeffd2223fb6157a4553d8b674558650ac6168235bb99f033c632f5f6e6nat,
    );
    lemma_pow_mod_square(
        7,
        1847213894402056nat,
        modulus(),
        0x57a0ceeffd2223fb6157a4553d8b674558650ac6168235bb99f033c632f5f6e6nat,
        0x423c8f27d2b858fdd1a8048f2ab41ec7852bebdcdf9adeb15830d24a3301f88dnat,
        0x4a20085d22390bf7224a416dbeba68931282e319838b5038950fb6cf2758de17nat,
    );
    lemma_pow_mod_square(
        7,
        3694427788804112nat,
        modulus(),
        0x4a20085d22390bf7224a416dbeba68931282e319838b5038950fb6cf2758de17nat,
        0x2f655d8bd1eea628551ba4450239b10383804232cd00856fc6ae359d029972f9nat,
        0x50380a4f69a9a3d9f155b75750b4e59de995cb7a483073ba0c294d126fe27318nat,
    );
    lemma_pow_mod_square(
        7,
        7388855577608224nat,
        modulus(),
        0x50380a4f69a9a3d9f155b75750b4e59de995cb7a483073ba0c294d126fe27318nat,
        0x378251e17e5470aedf2ca18a784b92e5c0e0e9a2b0564407fd371fb8f2b3f438nat,
        0x6912485cfdd18f6092756fd38a9a09f544cdb961af50a8be39279bfd476a9e08nat,
    );
    lemma_pow_mod_square(
        7,
        14777711155216448nat,
        modulus(),
        0x6912485cfdd18f6092756fd38a9a09f544cdb961af50a8be39279bfd476a9e08nat,
        0x5f3b348f2f3ddbed02224a8ab7ab12df01514e9361fd4a6e1f2e9f4af4331886nat,
        0x38c1f5326280c4e3463e3b7aeecd593f0e32ce42dc53452fe37ad51abbfac7banat,
    );
    lemma_pow_mod_square(
        7,
        29555422310432896nat,
        modulus(),
        0x38c1f5326280c4e3463e3b7aeecd593f0e32ce42dc53452fe37ad51abbfac7banat,
        0x1bc9c249d1097d289a2434848a1ce4fd6eea978723dc8214e39e75c703ce325bnat,
        0x44c36111c77ba2195409a5713a180c204ddff952aec8752d62cc27d06b4c80c9nat,
    );
    lemma_pow_mod_square(
        7,
        59110844620865792nat,
        modulus(),
        0x44c36111c77ba2195409a5713a180c204ddff952aec8752d62cc27d06b4c80c9nat,
        0x28c97dbe08cc635828370bad9bc03f15ddaba6c78729450a015e1722aa3b2813nat,
        0x67496530b86e6598749ad1eb2b5a4b3342f28c785b5ee5bca5bca01513e675benat,
    );
    lemma_pow_mod_square(
        7,
        118221689241731584nat,
        modulus(),
        0x67496530b86e6598749ad1eb2b5a4b3342f28c785b5ee5bca5bca01513e675benat,
        0x5c060a86a89d14114c707bbe177a916f0d0fbb080e8ba7858dc32e8f094c6cc4nat,
        0x16cfd78056b974d74fa388a427b04b1003c71cfbae5707bdaf221452f242cc40nat,
    );
    lemma_pow_mod_square(
        7,
        236443378483463168nat,
        modulus(),
        0x16cfd78056b974d74fa388a427b04b1003c71cfbae5707bdaf221452f242cc40nat,
        0x47d239c4d16dab16cff726035a56beeec643d269f8785e076f42e4ff122b6eanat,
        0x62d3cf56a66999304cd44ff3c92d138902d6b682bcd11b91c325bd3102d35916nat,
    );
    lemma_pow_mod_square(
        7,
        472886756966926336nat,
        modulus(),
        0x62d3cf56a66999304cd44ff3c92d138902d6b682bcd11b91c325bd3102d35916nat,
        0x543fc1732812c55184fbd57a9ef3593605d55624c651709f8305ac4b56094c98nat,
        0xce68cab8d22f317ea8358bb41b22e94f27a1053c8d2a98d3dda3298fb3b014cnat,
    );
    lemma_pow_mod_square(
        7,
        945773513933852672nat,
        modulus(),
        0xce68cab8d22f317ea8358bb41b22e94f27a1053c8d2a98d3dda3298fb3b014cnat,
        0x16f828c6d97003d24dc026bb7242e406e33d210cf668ed0b259e1a53fed277bnat,
        0x50d4b7a032de74ef01a9de8aabc865db5e5e9d41dd5228b25423423a611c8715nat,
    );
    lemma_pow_mod_square(
        7,
        1891547027867705344nat,
        modulus(),
        0x50d4b7a032de74ef01a9de8aabc865db5e5e9d41dd5228b25423423a611c8715nat,
        0x385bfa801c9311f2872f04ec46e3808bf4de50f4e05427776ef315a5cf92cb24nat,
        0x2479e8b13acfb491476969cd2d3c6f555388d54d71a2a05bf3c8608dee4c5c95nat,
    );
    lemma_pow_mod_square(
        7,
        3783094055735410688nat,
        modulus(),
        0x2479e8b13acfb491476969cd2d3c6f555388d54d71a2a05bf3c8608dee4c5c95nat,
        0xb7a1f07d4e2b7f4ead0cba173837d2c88b679e815cb795ba4e548c5a44cfb89nat,
        0x5a5249df8182d1d69f88b4d8ae1fbf9f99cb8c1a893fb15e299781d181a67330nat,
    );
    lemma_pow_mod_square(
        7,
        7566188111470821376nat,
        modulus(),
        0x5a5249df8182d1d69f88b4d8ae1fbf9f99cb8c1a893fb15e299781d181a67330nat,
        0x465ee8b2e2ef354c64c821428bdd4d5dddf468f886608fbceeceaeb5c09b548fnat,
        0x1b9715f207a6329101e55d46b904110bc6a33524f56c1a27c7f446893578d471nat,
    );
    lemma_pow_mod_square(
        7,
        15132376222941642752nat,
        modulus(),
        0x1b9715f207a6329101e55d46b904110bc6a33524f56c1a27c7f446893578d471nat,
        0x690f7c167037c610af840924e251630e980981edf8f3221e28c2a71e026df84nat,
        0x2478e13eef8d49d437bfc35897a94ee9270a636ee34731a6fdaf2302c4147a5dnat,
    );
}

proof fn squarings_modulus_0_4()
    ensures
        pow_mod(
            7,
            0x69008000000080000000nat,
            modulus(),
        ) == 0x36fb34ca1cf1bdf3cfcae97d3d3292f63e19c2f2cf2ab065378f4171e23ad3a2nat,
{
    squarings_modulus_0_3();
    lemma_pow_mod_square(
        7,
        0x1a402000000020000nat,
        modulus(),
        0x2478e13eef8d49d437bfc35897a94ee9270a636ee34731a6fdaf2302c4147a5dnat,
        0xb7979417bbf383df7c7a208553ed64d44d1ab7b8808e81ddb661c1524495584nat,
        0x5f2cacebcfbd04a8f9e6306f29718cae549bba71111b397a5ffede49cbb7045nat,
    );
    lemma_pow_mod_square(
        7,
        0x34804000000040000nat,
        modulus(),
        0x5f2cacebcfbd04a8f9e6306f29718cae549bba71111b397a5ffede49cbb7045nat,
        0x4e22d781c269387aaa58d47957e2a252d7e14da24333a35186802f8fe69699nat,
        0x257f7cff8c1882b5b490abab1de3cbb6007250082210c908758acd62be23dc00nat,
    );
    lemma_pow_mod_square(
        7,
        0x69008000000080000nat,
        modulus(),
        0x257f7cff8c1882b5b490abab1de3cbb6007250082210c908758acd62be23dc00nat,
        0xc21092637c27fd52f4516fc6cd57cd686f3bd4ddf469fb8e7c0b18bf71a211anat,
        0xa4368f6d4e7f8a0e35500e003398ea58a6944b9e4a1ab49ce5f1f23edf5dee6nat,
    );
    lemma_pow_mod_square(
        7,
        0xd2010000000100000nat,
        modulus(),
        0xa4368f6d4e7f8a0e35500e003398ea58a6944b9e4a1ab49ce5f1f23edf5dee6nat,
        0xe89bda514df228b2d6494dd3ede6af27fde3ebef0dfe87bcd309a4e2279741nat,
        0x488f77ac208e44c3bc31b5b9c75e521f214d618d2cbb16c36705f5a60281f63nat,
    );
    lemma_pow_mod_square(
        7,
        0x1a4020000000200000nat,
        modulus(),
        0x488f77ac208e44c3bc31b5b9c75e521f214d618d2cbb16c36705f5a60281f63nat,
        0x2d6a867ca17070e1ef53fe0147164bd7031168d1193682756369a67206e6eanat,
        0x27cd13b2867fc2c3aef5cb17a6b892327ad6c58bec95a734bee326b3a0c2395fnat,
    );
    lemma_pow_mod_square(
        7,
        0x348040000000400000nat,
        modulus(),
        0x27cd13b2867fc2c3aef5cb17a6b892327ad6c58bec95a734bee326b3a0c2395fnat,
        0xdaa29e4a93197eb57f41b1be7c540031260aafb1680182125e408abe00e3c5cnat,
        0xb11bcbca6ffd7b4f44fd5504c11de84d02197143bd994dd5a3bfd9be0c934e5nat,
    );
    lemma_pow_mod_square(
        7,
        0x690080000000800000nat,
        modulus(),
        0xb11bcbca6ffd7b4f44fd5504c11de84d02197143bd994dd5a3bfd9be0c934e5nat,
        0x10e938206cc80b6faec8b3093b89acb16fa0d47aebfbd4b23601ff45f0a06c0nat,
        0x32d82b76460cfbff40c76b3bb52e7292fdc03c54bcaa13f24ccb50ce7b7dce19nat,
    );
    lemma_pow_mod_square(
        7,
        0xd20100000001000000nat,
        modulus(),
        0x32d82b76460cfbff40c76b3bb52e7292fdc03c54bcaa13f24ccb50ce7b7dce19nat,
        0x164cb1f1a940fe183cdac279428c93eca3eccf1afb375cf13db3ed673c96522fnat,
        0x7196ed588c35ef4634ce392cd67c45367a1450738fd99b864d61d6e2b3bfec42nat,
    );
    lemma_pow_mod_square(
        7,
        0x1a40200000002000000nat,
        modulus(),
        0x7196ed588c35ef4634ce392cd67c45367a1450738fd99b864d61d6e2b3bfec42nat,
        0x6f4c4790b260ffc03d59aeaee41ca5bca937f516d5bcdd7b689b3480c0958920nat,
        0x630a2a98e7aedc3f31502cdbe95a9d38f69e61be6da11a14d20fc56deff037e4nat,
    );
    lemma_pow_mod_square(
        7,
        0x3480400000004000000nat,
        modulus(),
        0x630a2a98e7aedc3f31502cdbe95a9d38f69e61be6da11a14d20fc56deff037e4nat,
        0x549c8816553165884cc781d2ee799b497f6d0ccc37d9b17339dc1aac35ec8e40nat,
        0x5020644b587f362ae27b9a699c4b775521cbc60527c59f6f823f5d8059c734d0nat,
    );
    lemma_pow_mod_square(
        7,
        0x6900800000008000000nat,
        modulus(),
        0x5020644b587f362ae27b9a699c4b775521cbc60527c59f6f823f5d8059c734d0nat,
        0x37619c5001ac6dc41df4b8be6748795b8d484735b633b1ef5b40af6f1e908a12nat,
        0x53ac2d357f172cfb2baf338d17107db8e22ae05f5f1e3f35a4bfe85ea7b49eeenat,
    );
    lemma_pow_mod_square(
        7,
        0xd201000000010000000nat,
        modulus(),
        0x53ac2d357f172cfb2baf338d17107db8e22ae05f5f1e3f35a4bfe85ea7b49eeenat,
        0x3c64402ed2e72a7a64c072cfbd453db751953bd66155ba397d22f2537d34cccfnat,
        0xc5ed8193aef84831aaf1e15f88feb89fe9777f44ad9f1920dc7180de825d875nat,
    );
    lemma_pow_mod_square(
        7,
        0x1a402000000020000000nat,
        modulus(),
        0xc5ed8193aef84831aaf1e15f88feb89fe9777f44ad9f1920dc7180de825d875nat,
        0x151ed7ef5609d4903fb3dab7168d108a9f9bf5c34e0b1f6ad1727f6f5ad5f35nat,
        0x1f3ba0a773c8c66664d8f67a789e7c866cb87c93569d57c42f6ec10c632a4644nat,
    );
    lemma_pow_mod_square(
        7,
        0x34804000000040000000nat,
        modulus(),
        0x1f3ba0a773c8c66664d8f67a789e7c866cb87c93569d57c42f6ec10c632a4644nat,
        0x86a25e75c0b6cf00bb6e43a4304b42a245bef36987a77192a9204afd75e6e6enat,
        0x36fb34ca1cf1bdf3cfcae97d3d3292f63e19c2f2cf2ab065378f4171e23ad3a2nat,
    );
}

proof fn squarings_modulus_2_0()
    ensures
        pow_mod(
            0x36fb34ca1cf1bdf3cfcae97d3d3292f63e19c2f2cf2ab065378f4171e23ad3a2nat,
            70300,
            modulus(),
        ) == 0x18fee694768447f142850784df8ecf83edbc635bada49c78ba96795b88bbdfeenat,
{
    lemma_pow_mod_start(
        0x36fb34ca1cf1bdf3cfcae97d3d3292f63e19c2f2cf2ab065378f4171e23ad3a2nat,
        modulus(),
    );
    lemma_pow_mod_square(
        0x36fb34ca1cf1bdf3cfcae97d3d3292f63e19c2f2cf2ab065378f4171e23ad3a2nat,
        1,
        modulus(),
        0x36fb34ca1cf1bdf3cfcae97d3d3292f63e19c2f2cf2ab065378f4171e23ad3a2nat,
        0x1a1370ee76fb87a88011c1434380d5674af5f4a0da45c55598476da8995cf9canat,
        0x4251124e16f712ac26f2b25a73c71a62432da1a7d0ead4246b64905402ff78banat,
    );
    lemma_pow_mod_square(
        0x36fb34ca1cf1bdf3cfcae97d3d3292f63e19c2f2cf2ab065378f4171e23ad3a2nat,
        2,
        modulus(),
        0x4251124e16f712ac26f2b25a73c71a62432da1a7d0ead4246b64905402ff78banat,
        0x25efb769699c6d7deaaf1a9c9af1cbeb12a36e14225f3b80e6c01d46dab39d41nat,
        0x3ba4f5ae6d6af8788251faac796c0ba9b511b861866bacca20c4f6dec8c749e3nat,
    );
    lemma_pow_mod_square(
        0x36fb34ca1cf1bdf3cfcae97d3d3292f63e19c2f2cf2ab065378f4171e23ad3a2nat,
        4,
        modulus(),
        0x3ba4f5ae6d6af8788251faac796c0ba9b511b861866bacca20c4f6dec8c749e3nat,
        0x1eafc7c977ed3bcfa755fb5a707321d7b73000d994be8d053991d4dcb7208674nat,
        0x10534a5cd3bee77dbe275e4171f48c87ebc42ab86b7befe93a4319e1ed1cb8d5nat,
    );
    lemma_pow_mod_square_times(
        0x36fb34ca1cf1bdf3cfcae97d3d3292f63e19c2f2cf2ab065378f4171e23ad3a2nat,
        8,
        modulus(),
        0x10534a5cd3bee77dbe275e4171f48c87ebc42ab86b7befe93a4319e1ed1cb8d5nat,
        0x7e66a5a2399f60c1f7f2351ee9a4bc1d9759d032f64b7635151ddc49e26cb59d74e7135a6fbc5d44452f7821e962bad6446eca8f73c3602c440d3d0b0506bbnat,
        0x71b748823eaf3f3a1f9b471ffffbd17ae151e30c85dda851845df1edb8697a57nat,
    );
    lemma_pow_mod_square(
        0x36fb34ca1cf1bdf3cfcae97d3d3292f63e19c2f2cf2ab065378f4171e23ad3a2nat,
        17,
        modulus(),
        0x71b748823eaf3f3a1f9b471ffffbd17ae151e30c85dda851845df1edb8697a57nat,
        0x6f8bb8b5152f4004a551c3044c5fb308ede484bf06794a6b54b260993159dcd3nat,
        0x47eb960e94ea582ac52a489641874aef3ad8989782eaeed108599aa2747b2cbenat,
    );
    lemma_pow_mod_square(
        0x36fb34ca1cf1bdf3cfcae97d3d3292f63e19c2f2cf2ab065378f4171e23ad3a2nat,
        34,
        modulus(),
        0x47eb960e94ea582ac52a489641874aef3ad8989782eaeed108599aa2747b2cbenat,
        0x2c9e47fcbcd0831e8a80da80674afda7bc8e64c39a10958be067de1b92aea057nat,
        0x42e0b1c4c8e46005abddc5ffe5c175da2ec568265d6186cf811bd683a3b73cadnat,
    );
    lemma_pow_mod_square_times(
        0x36fb34ca1cf1bdf3cfcae97d3d3292f63e19c2f2cf2ab065378f4171e23ad3a2nat,
        68,
        modulus(),
        0x42e0b1c4c8e46005abddc5ffe5c175da2ec568265d6186cf811bd683a3b73cadnat,
        0x8493b35ec87f9d0371a8c72383a04199a6a32f7da337b0c427e363bf74a604dd53f96b3152b0ec287780ac1d21ef07b38a3b2e87df307de709a8b50de845c3cnat,
        0x17ea936f022fdfac856526a66b1ef2f4dc09d0b177bb99b523d32edd9390da36nat,
    );
    lemma_pow_mod_square(
        0x36fb34ca1cf1bdf3cfcae97d3d3292f63e19c2f2cf2ab065378f4171e23ad3a2nat,
        137,
        modulus(),
        0x17ea936f022fdfac856526a66b1ef2f4dc09d0b177bb99b523d32edd9390da36nat,
        0x4ef1a63b765692296915d172f5f5ff96162cf7c30fa5ec653c56643fecb4d1anat,
        0x31f50a9eb55015635283bf62da6ceb8d966c402b5ad156364f9dbca23bf4b64anat,
    );
    lemma_pow_mod_square_times(
        0x36fb34ca1cf1bdf3cfcae97d3d3292f63e19c2f2cf2ab065378f4171e23ad3a2nat,
        274,
        modulus(),
        0x31f50a9eb55015635283bf62da6ceb8d966c402b5ad156364f9dbca23bf4b64anat,
        0x49fa4fab291469358669cd7d028e83e59a8f9c77fb343749be3888709c074b0ef9fdcd9f16820b18d5b375f88af20b45aad56263401c70e4def396453298244nat,
        0xad4e797b9fc3584fdee1111c598c5a49a8d04f445addd1b7a2c622e452e304nat,
    );
    lemma_pow_mod_square(
        0x36fb34ca1cf1bdf3cfcae97d3d3292f63e19c2f2cf2ab065378f4171e23ad3a2nat,
        549,
        modulus(),
        0xad4e797b9fc3584fdee1111c598c5a49a8d04f445addd1b7a2c622e452e304nat,
        0x10315761184ababa3ffa008dd385653cfb73f9200bac8e06d3679db4fbdb2nat,
        0x408b11f4d0abdbe5cb7506ef769bb552fadbf60ae7014d53acc4c37d7c905a5enat,
    );
    lemma_pow_mod_square(
        0x36fb34ca1cf1bdf3cfcae97d3d3292f63e19c2f2cf2ab065378f4171e23ad3a2nat,
        1098,
        modulus(),
        0x408b11f4d0abdbe5cb7506ef769bb552fadbf60ae7014d53acc4c37d7c905a5enat,
        0x23ef3d57ab1ad6924cb60c2f69a5d3e353286e8b255df5f146c30972fb33216enat,
        0x2f7b5fc6da29cfb823c93212b4858323e97ca7780f4f1a32f9fb4b7de731916nat,
    );
    lemma_pow_mod_square_times(
        0x36fb34ca1cf1bdf3cfcae97d3d3292f63e19c2f2cf2ab065378f4171e23ad3a2nat,
        2196,
        modulus(),
        0x2f7b5fc6da29cfb823c93212b4858323e97ca7780f4f1a32f9fb4b7de731916nat,
        0x42d41afc68a19ad0b8ab8d636b98a0992946b8c3d1c33ee8d50c3467ba08d0f8c9146a64327fa1ffdcb26935617bc4005faa312b8e4d98257142a299d3e96nat,
        0x3379f15064ad415e90ea3fe3da3b79adfe762420580d49ba803d52560b80f7b2nat,
    );
    lemma_pow_mod_square_times(
        0x36fb34ca1cf1bdf3cfcae97d3d3292f63e19c2f2cf2ab065378f4171e23ad3a2nat,
        4393,
        modulus(),
        0x3379f15064ad415e90ea3fe3da3b79adfe762420580d49ba803d52560b80f7b2nat,
        0x4e8b9c7ff297dc09e1032635c09b9a4f70202378e67a48b66db7a05e060220404999f6e2d7b4ee55689131706f1803543fc5a833340a3cf6a1a7176bd41e3afnat,
        0x54bb933067288be4e77775ba0b7fc9224cfb2fb61fc679d7e306f18a16497259nat,
    );
    lemma_pow_mod_square_times(
        0x36fb34ca1cf1bdf3cfcae97d3d3292f63e19c2f2cf2ab065378f4171e23ad3a2nat,
        8787,
        modulus(),
        0x54bb933067288be4e77775ba0b7fc9224cfb2fb61fc679d7e306f18a16497259nat,
        0xd4d14bba2189007efc8b6cc2afb389d6e15eaeb9507d57cd7c1751ce7887d402d1a6290e39f035c28028e1ef33b6b56c41094bb137387a6f8cdbda6bf6bc2ccnat,
        0x1856f595fd427b1cb8d4337d98bb458ea58dc5079186424bc3efed035ec37cb6nat,
    );
    lemma_pow_mod_square(
        0x36fb34ca1cf1bdf3cfcae97d3d3292f63e19c2f2cf2ab065378f4171e23ad3a2nat,
        17575,
        modulus(),
        0x1856f595fd427b1cb8d4337d98bb458ea58dc5079186424bc3efed035ec37cb6nat,
        0x51c37ec6c0250f347ab20915573e1f8a788a2bdfac05a6b4e8fb1cd53e63f02nat,
        0xc94f4110d0c3cc53749ce9cfe1415a0cfb1d8c0fe8dc78975bc9a558e1e9262nat,
    );
    lemma_pow_mod_square(
        0x36fb34ca1cf1bdf3cfcae97d3d3292f63e19c2f2cf2ab065378f4171e23ad3a2nat,
        35150,
        modulus(),
        0xc94f4110d0c3cc53749ce9cfe1415a0cfb1d8c0fe8dc78975bc9a558e1e9262nat,
        0x15d92fbe0d543df83b23385c8a4bf5398b49100b80ceba4229a9f59d1f00d96nat,
        0x18fee694768447f142850784df8ecf83edbc635bada49c78ba96795b88bbdfeenat,
    );
}

proof fn squarings_modulus_2_1()
    ensures
        pow_mod(
            0x36fb34ca1cf1bdf3cfcae97d3d3292f63e19c2f2cf2ab065378f4171e23ad3a2nat,
            4607218880nat,
            modulus(),
        ) == 0x15680ed5971c47a6ea8e07a936812f21acfca80627508981d420c156f8df559nat,
{
    squarings_modulus_2_0();
    lemma_pow_mod_square_times(
        0x36fb34ca1cf1bdf3cfcae97d3d3292f63e19c2f2cf2ab065378f4171e23ad3a2nat,
        70300,
        modulus(),
        0x18fee694768447f142850784df8ecf83edbc635bada49c78ba96795b88bbdfeenat,
        0x128510e3769a77ed72c67caa725bfbc135aab3b52065f9f931cf340f781cab8be7b9d5ac4ab2656bf40681080e730c4b5c124b54456d3af579a4a482a975cddnat,
        0x34977d30efe9c8bce5d93faab5284e866cfac29ed1179efa2a02b3a31d557c2bnat,
    );
    lemma_pow_mod_square(
        0x36fb34ca1cf1bdf3cfcae97d3d3292f63e19c2f2cf2ab065378f4171e23ad3a2nat,
        140601,
        modulus(),
        0x34977d30efe9c8bce5d93faab5284e866cfac29ed1179efa2a02b3a31d557c2bnat,
        0x17dbcff0c34af139ef146aba4719bffe188e939447ceabef504a99af166ca01fnat,
        0x7393b8f584e1f1231d38755e978f61c85ec197697dcb06e2bcaac1df585b0f1anat,
    );
    lemma_pow_mod_square(
        0x36fb34ca1cf1bdf3cfcae97d3d3292f63e19c2f2cf2ab065378f4171e23ad3a2nat,
        281202,
        modulus(),
        0x7393b8f584e1f1231d38755e978f61c85ec197697dcb06e2bcaac1df585b0f1anat,
        0x733a105b6b1f83ffb689cf472e37f26544fc2de1c6d81d95a0bdb04e201497aanat,
        0x6c72edf43dfe7f71381ffbd3abd73ee2b1c73f4578be917d17c7256d7d4b76fanat,
    );
    lemma_pow_mod_square_times(
        0x36fb34ca1cf1bdf3cfcae97d3d3292f63e19c2f2cf2ab065378f4171e23ad3a2nat,
        562404,
        modulus(),
        0x6c72edf43dfe7f71381ffbd3abd73ee2b1c73f4578be917d17c7256d7d4b76fanat,
        0x15c9f745127713ff84c630459fc3a8298a600517fb16249f04a4c03153943fdc762f838608892be1d231f22e4cb202aae8f02ba5ffa6809e8e889dc7583b3284nat,
        0x4820bbdff8254a35cf4e0e53ba4661aa78e7c4c20fc2bc8834010f7f8e40e844nat,
    );
    lemma_pow_mod_square(
        0x36fb34ca1cf1bdf3cfcae97d3d3292f63e19c2f2cf2ab065378f4171e23ad3a2nat,
        1124809,
        modulus(),
        0x4820bbdff8254a35cf4e0e53ba4661aa78e7c4c20fc2bc8834010f7f8e40e844nat,
        0x2ce0520eb7275dddfdb4716f32258a29bf05c66445fc6d2a260558b358935461nat,
        0x202360a65ca6722caa48d58a228ce4867b50b71359efb941b1c079460c27fdafnat,
    );
    lemma_pow_mod_square_times(
        0x36fb34ca1cf1bdf3cfcae97d3d3292f63e19c2f2cf2ab065378f4171e23ad3a2nat,
        2249618,
        modulus(),
        0x202360a65ca6722caa48d58a228ce4867b50b71359efb941b1c079460c27fdafnat,
        0x1e9db0c4f0d4b7a00be77034521e6e9a6a419204473d71c773b402a940cb2be840ca1938e5f9965e1d5275bd643089e27fedefb1a83845439d0410f5370ebf3nat,
        0x16ffd3424e0c61f3597a311250dddf6eb393ed7c64ba7f696c76f7780ffa06efnat,
    );
    lemma_pow_mod_square(
        0x36fb34ca1cf1bdf3cfcae97d3d3292f63e19c2f2cf2ab065378f4171e23ad3a2nat,
        4499237,
        modulus(),
        0x16ffd3424e0c61f3597a311250dddf6eb393ed7c64ba7f696c76f7780ffa06efnat,
        0x49019c306bba0e42a82ae8223fc206a005f3917e0f169e2469b82cb6a34b85bnat,
        0x3af55f2a39f1b712ba9fac9505a1b6dedc6a7b75a6fd86cda4b428a122c75ac6nat,
    );
    lemma_pow_mod_square(
        0x36fb34ca1cf1bdf3cfcae97d3d3292f63e19c2f2cf2ab065378f4171e23ad3a2nat,
        8998474,
        modulus(),
        0x3af55f2a39f1b712ba9fac9505a1b6dedc6a7b75a6fd86cda4b428a122c75ac6nat,
        0x1dfc243d8cb61b02db4d40a553e27599843fad5cc28e86f48bd25cf7a6fff4b1nat,
        0x4585d304c751d7ef761017a47d695117df46dc8894fbecc0817534203103dc73nat,
    );
    lemma_pow_mod_square_times(
        0x36fb34ca1cf1bdf3cfcae97d3d3292f63e19c2f2cf2ab065378f4171e23ad3a2nat,
        17996948,
        modulus(),
        0x4585d304c751d7ef761017a47d695117df46dc8894fbecc0817534203103dc73nat,
        0x8f45722d939748bb133223bee7f76361906f52926ef2482283fa5ee5666665a412c44015af8b7e9085584937ce2d7b91a80a6e39e850f8570155952ca057cf9nat,
        0x448077da8563cac0be8a81287db01bab22296cefb5be1047aa7815c71849cef9nat,
    );
    lemma_pow_mod_square_times(
        0x36fb34ca1cf1bdf3cfcae97d3d3292f63e19c2f2cf2ab065378f4171e23ad3a2nat,
        35993897,
        modulus(),
        0x448077da8563cac0be8a81287db01bab22296cefb5be1047aa7815c71849cef9nat,
        0x8b1828af78fceabcd9b8b4b61efd61b3237a3a60d601bbb6e778a0cc17d691adf882602bb52700e5477272912d229def65a48a06b0544f963d1bd80946a5b66nat,
        0x5982bf367436b22360a92895602d4d01b4c1c8a1ca3a76422a92ef8c02be429cnat,
    );
    lemma_pow_mod_square(
        0x36fb34ca1cf1bdf3cfcae97d3d3292f63e19c2f2cf2ab065378f4171e23ad3a2nat,
        71987795,
        modulus(),
        0x5982bf367436b22360a92895602d4d01b4c1c8a1ca3a76422a92ef8c02be429cnat,
        0x451cf685ad0ada4fcca760914be8ba43f957241cf542773ee4ae7a177adebcdanat,
        0x2b5074224178350d3f3c15370960667a5e6c9d761312d8b4009febd3e6061236nat,
    );
    lemma_pow_mod_square(
        0x36fb34ca1cf1bdf3cfcae97d3d3292f63e19c2f2cf2ab065378f4171e23ad3a2nat,
        143975590,
        modulus(),
        0x2b5074224178350d3f3c15370960667a5e6c9d761312d8b4009febd3e6061236nat,
        0x102ef9d5ee9ef928b156db8da9127eb13fdd3120895183cdbc23cd4f038a13eenat,
        0x1c342f8a7f8cc8f8355c0cbd1c57439449eed63d462049e089a5880e0498f76nat,
    );
    lemma_pow_mod_square(
        0x36fb34ca1cf1bdf3cfcae97d3d3292f63e19c2f2cf2ab065378f4171e23ad3a2nat,
        287951180,
        modulus(),
        0x1c342f8a7f8cc8f8355c0cbd1c57439449eed63d462049e089a5880e0498f76nat,
        0x6dc93b19f56b1baf19e045e6f6d06d02a0e187c130207a95c0f5f6b6197adnat,
        0x6af23916854188e56a830cab63726b8a9f5b3c52cace8b385caeee7f364f72b7nat,
    );
    lemma_pow_mod_square(
        0x36fb34ca1cf1bdf3cfcae97d3d3292f63e19c2f2cf2ab065378f4171e23ad3a2nat,
        575902360,
        modulus(),
        0x6af23916854188e56a830cab63726b8a9f5b3c52cace8b385caeee7f364f72b7nat,
        0x62a8f3e68ce8c4ef46b7b43751b814cdba522d19400f134de01201bc975f1a43nat,
        0x50a4a62f353d65157dbaa545a8875131458bd33834789567d7b6cb259cfa648enat,
    );
    lemma_pow_mod_square(
        0x36fb34ca1cf1bdf3cfcae97d3d3292f63e19c2f2cf2ab065378f4171e23ad3a2nat,
        1151804720,
        modulus(),
        0x50a4a62f353d65157dbaa545a8875131458bd33834789567d7b6cb259cfa648enat,
        0x38190683f0708573f2cf4b9a0fab9a31b852a80f2d2d51e4fc197f5c7d31b44enat,
        0x4a7385fd9a6e8e73e88feede8303a5388b1b94243ff48572db1c99731fa58a76nat,
    );
    lemma_pow_mod_square(
        0x36fb34ca1cf1bdf3cfcae97d3d3292f63e19c2f2cf2ab065378f4171e23ad3a2nat,
        2303609440nat,
        modulus(),
        0x4a7385fd9a6e8e73e88feede8303a5388b1b94243ff48572db1c99731fa58a76nat,
        0x2fd05e78fc33eeb4f9fa80b42759aa820bae220e1d43c1ce4e24618deb71790bnat,
        0x15680ed5971c47a6ea8e07a936812f21acfca80627508981d420c156f8df559nat,
    );
}

proof fn squarings_modulus_2_2()
    ensures
        pow_mod(
            0x36fb34ca1cf1bdf3cfcae97d3d3292f63e19c2f2cf2ab065378f4171e23ad3a2nat,
            301938696532006nat,
            modulus(),
        ) == 0x45d7e3c05b1d2fd8e7f152e78d0e8ae7d024f3e4b709bfeafa5a9baf19517e83nat,
{
    squarings_modulus_2_1();
    lemma_pow_mod_square(
        0x36fb34ca1cf1bdf3cfcae97d3d3292f63e19c2f2cf2ab065378f4171e23ad3a2nat,
        4607218880nat,
        modulus(),
        0x15680ed5971c47a6ea8e07a936812f21acfca80627508981d420c156f8df559nat,
        0x3f3e8467e30aa573ef2704896e8d6ba987b7a85112bb8e36a4dddf00f39bbnat,
        0x2c5d8d77d5138fd21470940fa3c19b760b06cf931f47c499856fedf26d1e3f36nat,
    );
    lemma_pow_mod_square(
        0x36fb34ca1cf1bdf3cfcae97d3d3292f63e19c2f2cf2ab065378f4171e23ad3a2nat,
        9214437760nat,
        modulus(),
        0x2c5d8d77d5138fd21470940fa3c19b760b06cf931f47c499856fedf26d1e3f36nat,
        0x10fa80b0577fd89aab0c6ac0925f3a51f2f68832685afb56ac864ee636ac7c33nat,
        0x649531665bd8ab75a6d4b636f4a6978bcf363a4974488bd3f3b670cba5972331nat,
    );
    lemma_pow_mod_square_times(
        0x36fb34ca1cf1bdf3cfcae97d3d3292f63e19c2f2cf2ab065378f4171e23ad3a2nat,
        18428875520nat,
        modulus(),
        0x649531665bd8ab75a6d4b636f4a6978bcf363a4974488bd3f3b670cba5972331nat,
        0x12be22b70125f8f03a07d012ec72fc2bf87c1932806aea5d9c90ff75b665daa158f0313319c8363978fb364154220403b46828111c50ed8875c8ef701307c0ffnat,
        0x44dae9ccf99f204786f18b7b843ab23300acaa14457edf4c2c1b35d5ecdad63nat,
    );
    lemma_pow_mod_square_times(
        0x36fb34ca1cf1bdf3cfcae97d3d3292f63e19c2f2cf2ab065378f4171e23ad3a2nat,
        36857751041nat,
        modulus(),
        0x44dae9ccf99f204786f18b7b843ab23300acaa14457edf4c2c1b35d5ecdad63nat,
        0x8c88684bafefc21dfb950a0ec8252559ff75e53aa1115d0021fb88b5ea1ba44fac4041cc433be4ec0e5fd321053fee5128f26855574690713a2050c7e891dnat,
        0x55e0eb050c4c7040ad9ef5ed1069d6fa514b74424979aa05382208202d763815nat,
    );
    lemma_pow_mod_square(
        0x36fb34ca1cf1bdf3cfcae97d3d3292f63e19c2f2cf2ab065378f4171e23ad3a2nat,
        73715502083nat,
        modulus(),
        0x55e0eb050c4c7040ad9ef5ed1069d6fa514b74424979aa05382208202d763815nat,
        0x3f9e36d0ee0ebbd1d67110dcc3b6fc8c4ab217c1fa15bfc32248757d12a36f0fnat,
        0x22f1fcbf4b06840ad76bfcba8f21c4e11f26b52d60b0a86dcf1115210f01c2aanat,
    );
    lemma_pow_mod_square(
        0x36fb34ca1cf1bdf3cfcae97d3d3292f63e19c2f2cf2ab065378f4171e23ad3a2nat,
        147431004166nat,
        modulus(),
        0x22f1fcbf4b06840ad76bfcba8f21c4e11f26b52d60b0a86dcf1115210f01c2aanat,
        0xa88aa3af93f2b8b160b0e17a9981f435a8cf83087cc460258383ca79d58efffnat,
        0x3a5f1f3e5ea95067818fd8edf42a6c0115c227f9dea96f2e34f9fbfe680128e5nat,
    );
    lemma_pow_mod_square(
        0x36fb34ca1cf1bdf3cfcae97d3d3292f63e19c2f2cf2ab065378f4171e23ad3a2nat,
        294862008332nat,
        modulus(),
        0x3a5f1f3e5ea95067818fd8edf42a6c0115c227f9dea96f2e34f9fbfe680128e5nat,
        0x1d64133dedf0ac02e8c8ec3e760e58a4815cd67f32f89618023c28567972ea75nat,
        0x476837a0e28bbc5a0ddd854a8daa12e45d7f6bd9e4cd60a2df6fe7c5eedf7264nat,
    );
    lemma_pow_mod_square(
        0x36fb34ca1cf1bdf3cfcae97d3d3292f63e19c2f2cf2ab065378f4171e23ad3a2nat,
        589724016664nat,
        modulus(),
        0x476837a0e28bbc5a0ddd854a8daa12e45d7f6bd9e4cd60a2df6fe7c5eedf7264nat,
        0x2bfbdd313dd7156cce7b7b32af1d75471b7a740cd2b109af50cc0192745508c6nat,
        0x200bd77110bd89a77ff9b8d70ec36ebb5e6af7455739dc69517bc8d5f9002e4anat,
    );
    lemma_pow_mod_square(
        0x36fb34ca1cf1bdf3cfcae97d3d3292f63e19c2f2cf2ab065378f4171e23ad3a2nat,
        1179448033328nat,
        modulus(),
        0x200bd77110bd89a77ff9b8d70ec36ebb5e6af7455739dc69517bc8d5f9002e4anat,
        0x8dbcd170e301bd77bd610d5fabf7fbae12015cdba1ad33616b576d46addc22bnat,
        0x30b196883c5bd9299822fe82f63d222cdccdb6ef176e85dd38164c869180eb39nat,
    );
    lemma_pow_mod_square(
        0x36fb34ca1cf1bdf3cfcae97d3d3292f63e19c2f2cf2ab065378f4171e23ad3a2nat,
        2358896066656nat,
        modulus(),
        0x30b196883c5bd9299822fe82f63d222cdccdb6ef176e85dd38164c869180eb39nat,
        0x1473f4b3c98f82bc050c48bc1661de042c4cb1d54012c3f7f3852b6637633c39nat,
        0x3dd830abe75436b294b682055650b6970739e42c67481843d2fd73e16bbe7678nat,
    );
    lemma_pow_mod_square_times(
        0x36fb34ca1cf1bdf3cfcae97d3d3292f63e19c2f2cf2ab065378f4171e23ad3a2nat,
        4717792133312nat,
        modulus(),
        0x3dd830abe75436b294b682055650b6970739e42c67481843d2fd73e16bbe7678nat,
        0x715f54a5e294ff9869f5fba9a04035c38c6fabe5c6a8570fe3ce0867bfb81912d80ddc22c296e1d940bc7341b3535e42c094de5f12c46ba2eae4da6dac5cbcanat,
        0x2de48529081410ffcdee2e9a93a501a02e4e0efbeb7cc76c979a934e25a3ccb6nat,
    );
    lemma_pow_mod_square(
        0x36fb34ca1cf1bdf3cfcae97d3d3292f63e19c2f2cf2ab065378f4171e23ad3a2nat,
        9435584266625nat,
        modulus(),
        0x2de48529081410ffcdee2e9a93a501a02e4e0efbeb7cc76c979a934e25a3ccb6nat,
        0x122ae5c488e471eedfc03fd83b4a05654d60d72bb9a1b19140bbf10897555b3bnat,
        0x4d9d2fc53063df497aa8fe69317cb4f0b6f40afdc6136fe86803ef1558213629nat,
    );
    lemma_pow_mod_square(
        0x36fb34ca1cf1bdf3cfcae97d3d3292f63e19c2f2cf2ab065378f4171e23ad3a2nat,
        18871168533250nat,
        modulus(),
        0x4d9d2fc53063df497aa8fe69317cb4f0b6f40afdc6136fe86803ef1558213629nat,
        0x33f66b3407abd9add587f4b10ebb7cfc2a52941f12fa449d9380444f253e5ecfnat,
        0x42a9286eb7aa2f8b219fa61f2e4b3005c2ed6a7c9f39beebd9e64c50cc8f3c2nat,
    );
    lemma_pow_mod_square_times(
        0x36fb34ca1cf1bdf3cfcae97d3d3292f63e19c2f2cf2ab065378f4171e23ad3a2nat,
        37742337066500nat,
        modulus(),
        0x42a9286eb7aa2f8b219fa61f2e4b3005c2ed6a7c9f39beebd9e64c50cc8f3c2nat,
        0x83b7de8122965bad186465f3a35e2ecacc0174a6334f7109ad2ebb942def47a8b909d21964472de0afe3d99f199dcecf457e242e95e63df43900886973e9anat,
        0x62a5fc3fc13bd29f1f6ccc2c051ea3528a9d2116a5e9c27b9b2e0feaadc02deenat,
    );
    lemma_pow_mod_square_times(
        0x36fb34ca1cf1bdf3cfcae97d3d3292f63e19c2f2cf2ab065378f4171e23ad3a2nat,
        75484674133001nat,
        modulus(),
        0x62a5fc3fc13bd29f1f6ccc2c051ea3528a9d2116a5e9c27b9b2e0feaadc02deenat,
        0x12075ae8ea87572cd2f403cb10de7c05f10bbf150208cc330d267a28d733128820c8c6da7022d3671802ff50b65df031d57a8aeef463415576a9672f474e1205nat,
        0x2749761f98eb3ecfb469eee0c8ac3b9ed730062770b16e7ffee798878b2dd703nat,
    );
    lemma_pow_mod_square(
        0x36fb34ca1cf1bdf3cfcae97d3d3292f63e19c2f2cf2ab065378f4171e23ad3a2nat,
        150969348266003nat,
        modulus(),
        0x2749761f98eb3ecfb469eee0c8ac3b9ed730062770b16e7ffee798878b2dd703nat,
        0xd505fa250ac47e8dc1a5632839bb7e3f65281842aff01b6fab914b374528b86nat,
        0x45d7e3c05b1d2fd8e7f152e78d0e8ae7d024f3e4b709bfeafa5a9baf19517e83nat,
    );
}

proof fn squarings_modulus_2_3()
    ensures
        pow_mod(
            0x36fb34ca1cf1bdf3cfcae97d3d3292f63e19c2f2cf2ab065378f4171e23ad3a2nat,
            0x1129c94c030260069nat,
            modulus(),
        ) == 0x223c2d4c81b81c9d7a65701cf83a5fc10a85031d72f9ef4657cb496f5f9707dfnat,
{
    squarings_modulus_2_2();
    lemma_pow_mod_square(
        0x36fb34ca1cf1bdf3cfcae97d3d3292f63e19c2f2cf2ab065378f4171e23ad3a2nat,
        301938696532006nat,
        modulus(),
        0x45d7e3c05b1d2fd8e7f152e78d0e8ae7d024f3e4b709bfeafa5a9baf19517e83nat,
        0x2a1417e360994ce22fe787b3528ada3fc1bd8a187e0fb393a594e4fc9ca2e4b0nat,
        0x65d76339a06e8c3d96f86373ddcb2103f6b5635ae990106616489d7446c85259nat,
    );
    lemma_pow_mod_square(
        0x36fb34ca1cf1bdf3cfcae97d3d3292f63e19c2f2cf2ab065378f4171e23ad3a2nat,
        603877393064012nat,
        modulus(),
        0x65d76339a06e8c3d96f86373ddcb2103f6b5635ae990106616489d7446c85259nat,
        0x597755d5833b260ce8aecdcd6f1bc8ba6d9b8f32b3c60d06a2deef25388d16e1nat,
        0x693444212bf41660a7875c8da0480dfc9b7faa1ea7a5ee6321dc1c2d39000c10nat,
    );
    lemma_pow_mod_square(
        0x36fb34ca1cf1bdf3cfcae97d3d3292f63e19c2f2cf2ab065378f4171e23ad3a2nat,
        1207754786128024nat,
        modulus(),
        0x693444212bf41660a7875c8da0480dfc9b7faa1ea7a5ee6321dc1c2d39000c10nat,
        0x5f78d88da5fa21221dff84dfedb81544d16d835a864b852d4afb43b55ba609e6nat,
        0x32b769bc177fca3e68c48e0ffb7f7a74788555393b301c740583892fc4eb771anat,
    );
    lemma_pow_mod_square(
        0x36fb34ca1cf1bdf3cfcae97d3d3292f63e19c2f2cf2ab065378f4171e23ad3a2nat,
        2415509572256048nat,
        modulus(),
        0x32b769bc177fca3e68c48e0ffb7f7a74788555393b301c740583892fc4eb771anat,
        0x162fff7e5b26a6675e40e64a924c99f05dc00521153c87a65a89b8874a4398fenat,
        0x30bd95bd56cbf40a565c280180242b04f56a89ffa1dc06bfc3bed6f666e195a6nat,
    );
    lemma_pow_mod_square(
        0x36fb34ca1cf1bdf3cfcae97d3d3292f63e19c2f2cf2ab065378f4171e23ad3a2nat,
        4831019144512096nat,
        modulus(),
        0x30bd95bd56cbf40a565c280180242b04f56a89ffa1dc06bfc3bed6f666e195a6nat,
        0x147e09f5a3d95b69f23cd4106ea8ac9930726acab64325dd495ff9f1280cb195nat,
        0x39d5a73ad3f41acbd31b4c0ea5812bd55cecae0d270515cee2a64b48539f60fnat,
    );
    lemma_pow_mod_square(
        0x36fb34ca1cf1bdf3cfcae97d3d3292f63e19c2f2cf2ab065378f4171e23ad3a2nat,
        9662038289024192nat,
        modulus(),
        0x39d5a73ad3f41acbd31b4c0ea5812bd55cecae0d270515cee2a64b48539f60fnat,
        0x1cda46e43235cfae056fa62ed68ba8207dcf9537fa11f40bf9528c0a946731nat,
        0xe4674aa605809937f9710b8093317e0a70d25ae8aef687a869a18880a9a6db0nat,
    );
    lemma_pow_mod_square(
        0x36fb34ca1cf1bdf3cfcae97d3d3292f63e19c2f2cf2ab065378f4171e23ad3a2nat,
        19324076578048384nat,
        modulus(),
        0xe4674aa605809937f9710b8093317e0a70d25ae8aef687a869a18880a9a6db0nat,
        0x1c200e26321fc66f39c59744e534f14260438d53f3b14a8520be80e198d0661nat,
        0x60b0cd68d05e209b617450badb03e36037278d3b9ee4c06f3857170ccd32529fnat,
    );
    lemma_pow_mod_square(
        0x36fb34ca1cf1bdf3cfcae97d3d3292f63e19c2f2cf2ab065378f4171e23ad3a2nat,
        38648153156096768nat,
        modulus(),
        0x60b0cd68d05e209b617450badb03e36037278d3b9ee4c06f3857170ccd32529fnat,
        0x50a53455345b5d7366033d8cbad81df231a5ad735ad860874ba4832d6ebc9ab2nat,
        0x72ec082611676c59d26aedb8495bd7383a922b5df0abb516c7340aa39809a40fnat,
    );
    lemma_pow_mod_square(
        0x36fb34ca1cf1bdf3cfcae97d3d3292f63e19c2f2cf2ab065378f4171e23ad3a2nat,
        77296306312193536nat,
        modulus(),
        0x72ec082611676c59d26aedb8495bd7383a922b5df0abb516c7340aa39809a40fnat,
        0x71eca578ff6c1e485194e24d7fd05a8da390e94499b9b7f28662f53b62815db4nat,
        0x2fa8490c82b79ef291d0f7f656cb3df4494a520745db44f68b99f2c15fafdb2dnat,
    );
    lemma_pow_mod_square_times(
        0x36fb34ca1cf1bdf3cfcae97d3d3292f63e19c2f2cf2ab065378f4171e23ad3a2nat,
        154592612624387072nat,
        modulus(),
        0x2fa8490c82b79ef291d0f7f656cb3df4494a520745db44f68b99f2c15fafdb2dnat,
        0x4352c27dad160e41bae4211d1c588ae9f1c9f2e9f6d5885279638a014f08c9351486769c610f0f4010aba726dbcc2c8063ad177dc18f44ac61bd76d853ac405nat,
        0x1a090856ae78b50d806ed9f2e59869536fbbefa51c9206b6104a88d41a4a046dnat,
    );
    lemma_pow_mod_square_times(
        0x36fb34ca1cf1bdf3cfcae97d3d3292f63e19c2f2cf2ab065378f4171e23ad3a2nat,
        309185225248774145nat,
        modulus(),
        0x1a090856ae78b50d806ed9f2e59869536fbbefa51c9206b6104a88d41a4a046dnat,
        0x1417a18c475297ae4cb40e0a3a441dddee2a3f05d78683aee277944b12e2919d237b7d0cb5226184836b9094fbc8ece6c412834fb2dbed3e803d968b8cca301nat,
        0x26b78780cfbd4ec8e4a5b1809d8e4623d96e238c3becb44d99d8d747d2e31671nat,
    );
    lemma_pow_mod_square(
        0x36fb34ca1cf1bdf3cfcae97d3d3292f63e19c2f2cf2ab065378f4171e23ad3a2nat,
        618370450497548291nat,
        modulus(),
        0x26b78780cfbd4ec8e4a5b1809d8e4623d96e238c3becb44d99d8d747d2e31671nat,
        0xcee2e67fadecbadb8ac41d7da6cf66ebf486cad6beebde3653d62a4b7d1546anat,
        0x721ceea32b4fbef83737b3ed9d3701c750d46795a271518e5aa58cb57a8c4977nat,
    );
    lemma_pow_mod_square_times(
        0x36fb34ca1cf1bdf3cfcae97d3d3292f63e19c2f2cf2ab065378f4171e23ad3a2nat,
        1236740900995096582nat,
        modulus(),
        0x721ceea32b4fbef83737b3ed9d3701c750d46795a271518e5aa58cb57a8c4977nat,
        0x181fd55c6cf7923ce26fcf857bb6c26a27686de19e88a405fce17d520121103e7f257b8caad8ac61d95c32e963bda5dc522770317e1817079166a8f1879703f6nat,
        0x432f53686b9ddbf91a8175cf6c84e04ad47fc635c8c673b2720268e1e3fc3c4cnat,
    );
    lemma_pow_mod_square(
        0x36fb34ca1cf1bdf3cfcae97d3d3292f63e19c2f2cf2ab065378f4171e23ad3a2nat,
        2473481801990193165nat,
        modulus(),
        0x432f53686b9ddbf91a8175cf6c84e04ad47fc635c8c673b2720268e1e3fc3c4cnat,
        0x26efa95ed4ab763746174361b414e9f644f5e224d30ccb4d3c285f44392a7ea0nat,
        0x49ce27a82ef3034473875887c5e9cfe526ed7c9706113a7b1b9b286952a937f0nat,
    );
    lemma_pow_mod_square(
        0x36fb34ca1cf1bdf3cfcae97d3d3292f63e19c2f2cf2ab065378f4171e23ad3a2nat,
        4946963603980386330nat,
        modulus(),
        0x49ce27a82ef3034473875887c5e9cfe526ed7c9706113a7b1b9b286952a937f0nat,
        0x2efce29fac1515e2d5554bd3833fd271cf05fcead84c2a2abbb8dd1d500c342cnat,
        0x31ed7ee1118fd081de2298facdbb050cf02662a03040779ebbef119f570cccd4nat,
    );
    lemma_pow_mod_square_times(
        0x36fb34ca1cf1bdf3cfcae97d3d3292f63e19c2f2cf2ab065378f4171e23ad3a2nat,
        9893927207960772660nat,
        modulus(),
        0x31ed7ee1118fd081de2298facdbb050cf02662a03040779ebbef119f570cccd4nat,
        0x49e3f83903a71210188c1c98332946d3901586338bddfe5b5ea0ac9f7dd42800a568e2a57fcc8cd6fd2fbd9e3074f32cd7b0100a25322fc3ba6a0ae5c7b8141nat,
        0x223c2d4c81b81c9d7a65701cf83a5fc10a85031d72f9ef4657cb496f5f9707dfnat,
    );
}

proof fn squarings_modulus_2_4()
    ensures
        pow_mod(
            0x36fb34ca1cf1bdf3cfcae97d3d3292f63e19c2f2cf2ab065378f4171e23ad3a2nat,
            0x1129c94c03026006971f6nat,
            modulus(),
        ) == 0x55bc5346cb1343e0d8d76a12579c75a7d8aaa3c15a3b69a472fac695f11c8fddnat,
{
    squarings_modulus_2_3();
    lemma_pow_mod_square(
        0x36fb34ca1cf1bdf3cfcae97d3d3292f63e19c2f2cf2ab065378f4171e23ad3a2nat,
        0x1129c94c030260069nat,
        modulus(),
        0x223c2d4c81b81c9d7a65701cf83a5fc10a85031d72f9ef4657cb496f5f9707dfnat,
        0xa1c2b63a288c009c2d463a9443c8b06a2d484181444c32ccd29c1f4d2afa2f8nat,
        0xd6c4793f386eef8f4dd7cf984a03506978f45db24b7278c3e575356f8a05149nat,
    );
    lemma_pow_mod_square_times(
        0x36fb34ca1cf1bdf3cfcae97d3d3292f63e19c2f2cf2ab065378f4171e23ad3a2nat,
        0x225392980604c00d2nat,
        modulus(),
        0xd6c4793f386eef8f4dd7cf984a03506978f45db24b7278c3e575356f8a05149nat,
        0x5573b6a974cea7f0e20d22e81946da500f3225640577c3ebc32bea10c4da9bc4e2b4ed35f775d25ff2f24e6b7f98ff10117307f87116e48264beee08974d41nat,
        0x65134a1c4f37a420e38512b5e50e24ace5e15e6b2c1d8f08ab0cde6f8fcbc601nat,
    );
    lemma_pow_mod_square_times(
        0x36fb34ca1cf1bdf3cfcae97d3d3292f63e19c2f2cf2ab065378f4171e23ad3a2nat,
        0x44a725300c09801a5nat,
        modulus(),
        0x65134a1c4f37a420e38512b5e50e24ace5e15e6b2c1d8f08ab0cde6f8fcbc601nat,
        0x12ed3ea0027dcda80c1ff02b573ba6eb8ba7cb6817b1b67ab15de27106d8ee26717d711d67edc26b8609bcf94b0f7bf71956170e05156d4865cb6da171e62a5bnat,
        0x58c6073b3121754be965f8aaacc1bc29f9403a8576aa4a5221194c932b674147nat,
    );
    lemma_pow_mod_square_times(
        0x36fb34ca1cf1bdf3cfcae97d3d3292f63e19c2f2cf2ab065378f4171e23ad3a2nat,
        0x894e4a6018130034bnat,
        modulus(),
        0x58c6073b3121754be965f8aaacc1bc29f9403a8576aa4a5221194c932b674147nat,
        0xe999894908e3f05b673fcf8fe63e271cfc7dad77363be20f0750be25de3b01b2a1637fbdb95990e70683ab184e60ceb47c43ca8679bbb735ee30d37c56ce70fnat,
        0x58ed0a2f0515091020f32cbb9d2d901b6d7750636ae36070480b263d3f754df3nat,
    );
    lemma_pow_mod_square(
        0x36fb34ca1cf1bdf3cfcae97d3d3292f63e19c2f2cf2ab065378f4171e23ad3a2nat,
        0x1129c94c0302600697nat,
        modulus(),
        0x58ed0a2f0515091020f32cbb9d2d901b6d7750636ae36070480b263d3f754df3nat,
        0x443688b647cd301175eb99c8b5cfad409043d5f2c9f06bc8d378d9f42c58c7d9nat,
        0x1d60b82e2c4912a68e1b46f661318605d6b130b69a795c0fdc8829d0c5814cd0nat,
    );
    lemma_pow_mod_square(
        0x36fb34ca1cf1bdf3cfcae97d3d3292f63e19c2f2cf2ab065378f4171e23ad3a2nat,
        0x225392980604c00d2enat,
        modulus(),
        0x1d60b82e2c4912a68e1b46f661318605d6b130b69a795c0fdc8829d0c5814cd0nat,
        0x771da291597055504773663f01f29361fed717b0481daf5a4dd823d4ad4e69anat,
        0xad7d947e32777a7d840a568b01f1edef271dfcb6e9e552db80f17e355d74266nat,
    );
    lemma_pow_mod_square(
        0x36fb34ca1cf1bdf3cfcae97d3d3292f63e19c2f2cf2ab065378f4171e23ad3a2nat,
        0x44a725300c09801a5cnat,
        modulus(),
        0xad7d947e32777a7d840a568b01f1edef271dfcb6e9e552db80f17e355d74266nat,
        0x103a260559d38e4afe86670ad61ed473adba81125b3f23d4de664c5d09dd297nat,
        0x6ad222f80d514bc40bc1839b3207f83df3d70a213e4136f5f12229cd83eeee0dnat,
    );
    lemma_pow_mod_square_times(
        0x36fb34ca1cf1bdf3cfcae97d3d3292f63e19c2f2cf2ab065378f4171e23ad3a2nat,
        0x894e4a6018130034b8nat,
        modulus(),
        0x6ad222f80d514bc40bc1839b3207f83df3d70a213e4136f5f12229cd83eeee0dnat,
        0x1523be6c7024c4667854a2e21100b2fb3c3b97523170d9995d9cedb057a0cf9aff1ba1ebc3834e995c23e563d2716faa3cac74881ec7c702bb29439b624b80c0nat,
        0x53c7e7beef5dcd439be8cb85ee9d2616963ab13a94fb196d6268596af6fa0d32nat,
    );
    lemma_pow_mod_square_times(
        0x36fb34ca1cf1bdf3cfcae97d3d3292f63e19c2f2cf2ab065378f4171e23ad3a2nat,
        0x1129c94c03026006971nat,
        modulus(),
        0x53c7e7beef5dcd439be8cb85ee9d2616963ab13a94fb196d6268596af6fa0d32nat,
        0xd010270e5c957bfe4e8c48732113db6aca898685ec129f881c13f7b61d9e2a2b3d66bd069082873d230f5446937b11adc2e5030cf490ee152ba62f925432777nat,
        0x1ce3ce5ec4367af23e30c6c15c34188ffba685761ab86a6bf72e6b3b4e2c3a91nat,
    );
    lemma_pow_mod_square_times(
        0x36fb34ca1cf1bdf3cfcae97d3d3292f63e19c2f2cf2ab065378f4171e23ad3a2nat,
        0x225392980604c00d2e3nat,
        modulus(),
        0x1ce3ce5ec4367af23e30c6c15c34188ffba685761ab86a6bf72e6b3b4e2c3a91nat,
        0x18bd6411e192dcf6f336cf30db7806c3cefc8b489d26b776dedf50f2320240e08406aa50846ed37d02319d3cac4e2ef1c7d3f7f2f36b414ecaf19e2f44a8276nat,
        0x18c299585f054fecff953ffef012ed26817deafef4ed33cfc4e1574acd7c916cnat,
    );
    lemma_pow_mod_square_times(
        0x36fb34ca1cf1bdf3cfcae97d3d3292f63e19c2f2cf2ab065378f4171e23ad3a2nat,
        0x44a725300c09801a5c7nat,
        modulus(),
        0x18c299585f054fecff953ffef012ed26817deafef4ed33cfc4e1574acd7c916cnat,
        0x122c213310305030abf748b00ba1968d754c309d95d5d709cb78a0fa38e424d9d47a7c9a1c6c943d0d2178aaec3c0127cfec154519d27055fced49c1a60216fnat,
        0x495b22664ad5aacdcf6f18badd204aeafc430f58e3084a828bb6d0edb30013b1nat,
    );
    lemma_pow_mod_square_times(
        0x36fb34ca1cf1bdf3cfcae97d3d3292f63e19c2f2cf2ab065378f4171e23ad3a2nat,
        0x894e4a6018130034b8fnat,
        modulus(),
        0x495b22664ad5aacdcf6f18badd204aeafc430f58e3084a828bb6d0edb30013b1nat,
        0x9f817aec7d35681381c4517ba78561ec608f68e950494541a314246f5253a217d43751d4185b927a2a47dda658e960f7db47e7b77cf65bc3401a1a388167874nat,
        0xbadd0dae117749caf51821aaf6d242693a4f0c83dafc07c2e7f3bbe08d337eenat,
    );
    lemma_pow_mod_square(
        0x36fb34ca1cf1bdf3cfcae97d3d3292f63e19c2f2cf2ab065378f4171e23ad3a2nat,
        0x1129c94c03026006971fnat,
        modulus(),
        0xbadd0dae117749caf51821aaf6d242693a4f0c83dafc07c2e7f3bbe08d337eenat,
        0x12d33f8d01195e42ad26eae2ee3f28767c98c84c6933e43f68fda8cb7ebfd6bnat,
        0x56a59151178c12f5d224dd8ca7e5e73633f82921f73d23113d1cbdea66a023d9nat,
    );
    lemma_pow_mod_square_times(
        0x36fb34ca1cf1bdf3cfcae97d3d3292f63e19c2f2cf2ab065378f4171e23ad3a2nat,
        0x225392980604c00d2e3enat,
        modulus(),
        0x56a59151178c12f5d224dd8ca7e5e73633f82921f73d23113d1cbdea66a023d9nat,
        0xde8a75d6a3d142dc09cfcb7e55f767d47f285f934172f8112183578a33ebbe168b5ff7c71ae31c789882c14a6368f255aadee67e841e504f7139d6181b8bd20nat,
        0x31164e220c250a4b59b335032feb209c7124eb2b637d57995782cd87ff11b862nat,
    );
    lemma_pow_mod_square_times(
        0x36fb34ca1cf1bdf3cfcae97d3d3292f63e19c2f2cf2ab065378f4171e23ad3a2nat,
        0x44a725300c09801a5c7dnat,
        modulus(),
        0x31164e220c250a4b59b335032feb209c7124eb2b637d57995782cd87ff11b862nat,
        0x476c63b4f45eb1084557f27c613f4484c245214de005c7a31a0eb686c082291b7c3dc3d64993023928d36ae2484d2a1615954fa5042ec3677dc310da6bd0fd8nat,
        0x2bcbed787ebb79438820fbca093df19e97b61f91156a36acb8543dd486fc39b0nat,
    );
    lemma_pow_mod_square(
        0x36fb34ca1cf1bdf3cfcae97d3d3292f63e19c2f2cf2ab065378f4171e23ad3a2nat,
        0x894e4a6018130034b8fbnat,
        modulus(),
        0x2bcbed787ebb79438820fbca093df19e97b61f91156a36acb8543dd486fc39b0nat,
        0x108bc1b8e86485864511c33965c281abcc6ad1e470ee24286352f2f2ee634923nat,
        0x55bc5346cb1343e0d8d76a12579c75a7d8aaa3c15a3b69a472fac695f11c8fddnat,
    );
}

proof fn squarings_modulus_2_5()
    ensures
        pow_mod(
            0x36fb34ca1cf1bdf3cfcae97d3d3292f63e19c2f2cf2ab065378f4171e23ad3a2nat,
            0x1129c94c03026006971f602nat,
            modulus(),
        ) == 0x62b478edb862f3497dcb4465c500b4a4dd3aa267d21a294850b48c999f485bd9nat,
{
    squarings_modulus_2_4();
    lemma_pow_mod_square(
        0x36fb34ca1cf1bdf3cfcae97d3d3292f63e19c2f2cf2ab065378f4171e23ad3a2nat,
        0x1129c94c03026006971f6nat,
        modulus(),
        0x55bc5346cb1343e0d8d76a12579c75a7d8aaa3c15a3b69a472fac695f11c8fddnat,
        0x3f680b4ccb7f5e6c9c7578f9fe0e16a01593d3249afdcf43d9b11ad97ea15935nat,
        0x16f032cb136c7255cbbcb250634717872b443b1283cddaa731745bab648f4b94nat,
    );
    lemma_pow_mod_square(
        0x36fb34ca1cf1bdf3cfcae97d3d3292f63e19c2f2cf2ab065378f4171e23ad3a2nat,
        0x225392980604c00d2e3ecnat,
        modulus(),
        0x16f032cb136c7255cbbcb250634717872b443b1283cddaa731745bab648f4b94nat,
        0x489e88b099c253aaad219faf71ac3972dd9f8181166581a4c422f3851198e9fnat,
        0x2456a373bab3b201898c29d56f5b2f8b9ebd3af00d4c35dd89a1d25fd48e7ef1nat,
    );
    lemma_pow_mod_square(
        0x36fb34ca1cf1bdf3cfcae97d3d3292f63e19c2f2cf2ab065378f4171e23ad3a2nat,
        0x44a725300c09801a5c7d8nat,
        modulus(),
        0x2456a373bab3b201898c29d56f5b2f8b9ebd3af00d4c35dd89a1d25fd48e7ef1nat,
        0xb63f7c2c2a27118eadd1bd945646144a8b43f082fa185c38408ec2103e204c0nat,
        0x63963f3ba2cd4fbfcb94b168fa5f9912af74b547daae9cea577d050d366c1a21nat,
    );
    lemma_pow_mod_square(
        0x36fb34ca1cf1bdf3cfcae97d3d3292f63e19c2f2cf2ab065378f4171e23ad3a2nat,
        0x894e4a6018130034b8fb0nat,
        modulus(),
        0x63963f3ba2cd4fbfcb94b168fa5f9912af74b547daae9cea577d050d366c1a21nat,
        0x558c8a27e0a0786bd2ce11625e47741f678eda8c05aba7eacb29ba37fba45c1bnat,
        0x5feecf223447ea28964edce0ef5e955e83ffccd94890dadeee465be8fede5c26nat,
    );
    lemma_pow_mod_square(
        0x36fb34ca1cf1bdf3cfcae97d3d3292f63e19c2f2cf2ab065378f4171e23ad3a2nat,
        0x1129c94c03026006971f60nat,
        modulus(),
        0x5feecf223447ea28964edce0ef5e955e83ffccd94890dadeee465be8fede5c26nat,
        0x4f62decbfb3878906440a33e7766506c1510ce7e9177f7d08d86fb549c312a5enat,
        0xa5a3d138decb3c7d8a0f9f00b618659c282f49ea96b3dfc21ba37e8bee22b46nat,
    );
    lemma_pow_mod_square(
        0x36fb34ca1cf1bdf3cfcae97d3d3292f63e19c2f2cf2ab065378f4171e23ad3a2nat,
        0x225392980604c00d2e3ec0nat,
        modulus(),
        0xa5a3d138decb3c7d8a0f9f00b618659c282f49ea96b3dfc21ba37e8bee22b46nat,
        0xecab2016ad072b3f748f0d6902495fcce6c52dd57208634b573146836085ecnat,
        0x6cb4d6fb2983078cb016a311049889869c9ef1ebcf06f20ddc9c5791d3881138nat,
    );
    lemma_pow_mod_square_times(
        0x36fb34ca1cf1bdf3cfcae97d3d3292f63e19c2f2cf2ab065378f4171e23ad3a2nat,
        0x44a725300c09801a5c7d80nat,
        modulus(),
        0x6cb4d6fb2983078cb016a311049889869c9ef1ebcf06f20ddc9c5791d3881138nat,
        0x15e47b60d62685666ef2aedb6ee5aa4bf9d64c5fccb36e5bce3fcfe9298317044d03c5821b6baac01250fd968b48e7f5f45a0d9fcc41931cd4816f02c86a5078nat,
        0x50798c088ad5bc78f964fbaee3cb84c4bdd4367fe51720c5ed1685dbdf1d1008nat,
    );
    lemma_pow_mod_square(
        0x36fb34ca1cf1bdf3cfcae97d3d3292f63e19c2f2cf2ab065378f4171e23ad3a2nat,
        0x894e4a6018130034b8fb01nat,
        modulus(),
        0x50798c088ad5bc78f964fbaee3cb84c4bdd4367fe51720c5ed1685dbdf1d1008nat,
        0x37dd1f2e323b4ec4bbae00c4d2aa276aa6a8c3ff6f41f97fe5097ab7f388a467nat,
        0x62b478edb862f3497dcb4465c500b4a4dd3aa267d21a294850b48c999f485bd9nat,
    );
}

/// A power of the generator 7, from a lower one raised to the power 331985107712469604911674882.
proof fn power_modulus_1()
    ensures
        pow_mod(
            7,
            0x70a2c2511e20378c8a52b7e00134b8fb0100000000nat,
            modulus(),
        ) == 0x62b478edb862f3497dcb4465c500b4a4dd3aa267d21a294850b48c999f485bd9nat,
{
    squarings_modulus_0_4();
    squarings_modulus_2_5();
    lemma_pow_mod_compose(
        7,
        0x69008000000080000000nat,
        0x1129c94c03026006971f602nat,
        modulus(),
        0x36fb34ca1cf1bdf3cfcae97d3d3292f63e19c2f2cf2ab065378f4171e23ad3a2nat,
        0x62b478edb862f3497dcb4465c500b4a4dd3aa267d21a294850b48c999f485bd9nat,
    );
}

proof fn squarings_modulus_4_0()
    ensures
        pow_mod(
            0x62b478edb862f3497dcb4465c500b4a4dd3aa267d21a294850b48c999f485bd9nat,
            96353,
            modulus(),
        ) == 0x3721bbe828011278d2e942e752086381582469fd822168c889a79b3375fe3076nat,
{
    lemma_pow_mod_start(
        0x62b478edb862f3497dcb4465c500b4a4dd3aa267d21a294850b48c999f485bd9nat,
        modulus(),
    );
    lemma_pow_mod_square(
        0x62b478edb862f3497dcb4465c500b4a4dd3aa267d21a294850b48c999f485bd9nat,
        1,
        modulus(),
        0x62b478edb862f3497dcb4465c500b4a4dd3aa267d21a294850b48c999f485bd9nat,
        0x540a5bec3e18859a3f3f792460fd11688399a15cbf484459e676fb01e16fca74nat,
        0x1ce52f4d90c54f76071023f1bbe106c3f5ac4523ebc596bbb02ee75f7794337dnat,
    );
    lemma_pow_mod_square_times(
        0x62b478edb862f3497dcb4465c500b4a4dd3aa267d21a294850b48c999f485bd9nat,
        2,
        modulus(),
        0x1ce52f4d90c54f76071023f1bbe106c3f5ac4523ebc596bbb02ee75f7794337dnat,
        0x2c6e3d9a6b501f792f14cca829dfdbbc2903637289bd5566ffb11b1a7cffa206c59984be7ceeb13a4ff4e34962744b554ed95c9cf03bb78b60cbaddeae0d6e7nat,
        0x67262fb3b9e62119f48015c908f512a39b97a49547e237da9c649949c407b6banat,
    );
    lemma_pow_mod_square_times(
        0x62b478edb862f3497dcb4465c500b4a4dd3aa267d21a294850b48c999f485bd9nat,
        5,
        modulus(),
        0x67262fb3b9e62119f48015c908f512a39b97a49547e237da9c649949c407b6banat,
        0x2363033784d4a16ed126d03331754a6947b0127c6857e63b7c3235046752a6797c0cb206e59783b00fd6ce787d21325deeaa8b3124eb5a25c637110424c2bbe9nat,
        0x6d55426d7f7487eb034271e631e0b2074d40b2be46cc47e9c09fb8eadbf559bnat,
    );
    lemma_pow_mod_square_times(
        0x62b478edb862f3497dcb4465c500b4a4dd3aa267d21a294850b48c999f485bd9nat,
        11,
        modulus(),
        0x6d55426d7f7487eb034271e631e0b2074d40b2be46cc47e9c09fb8eadbf559bnat,
        0x27c1c3325a1e33b8a64361488f3eb9cb94d1f8be9fa24767fe7dfa489c186102939f11ee1ddeb6e9f4f63c08a0952a49cf486b7098f177e5eebdb9ba033f8dnat,
        0x4ef2eff5d83743ac160671b3e50e81166b5343a4eb479965dcca697830952e64nat,
    );
    lemma_pow_mod_square_times(
        0x62b478edb862f3497dcb4465c500b4a4dd3aa267d21a294850b48c999f485bd9nat,
        23,
        modulus(),
        0x4ef2eff5d83743ac160671b3e50e81166b5343a4eb479965dcca697830952e64nat,
        0x14baeb19777ce8aa900839bd600797d1093e2c0fdf21c370a1e29ec5a3de5cf3bbf220f2db5a233c94aad03c201e2bd11f7f1743bd9088b90a1ae042a7662105nat,
        0x44cdf24a6c1ecc5e8b86e2db16df2ad40c5bc6e67646a30a577e7e35b5b01b8bnat,
    );
    lemma_pow_mod_square(
        0x62b478edb862f3497dcb4465c500b4a4dd3aa267d21a294850b48c999f485bd9nat,
        47,
        modulus(),
        0x44cdf24a6c1ecc5e8b86e2db16df2ad40c5bc6e67646a30a577e7e35b5b01b8bnat,
        0x28d607ec87490438493e0f6b2ab6b57a205a2b66eec9641e499210e9dc699d8anat,
        0x611e75f5299f193046eb53048a0371fa81f367f12317516340a6484693acffefnat,
    );
    lemma_pow_mod_square(
        0x62b478edb862f3497dcb4465c500b4a4dd3aa267d21a294850b48c999f485bd9nat,
        94,
        modulus(),
        0x611e75f5299f193046eb53048a0371fa81f367f12317516340a6484693acffefnat,
        0x515c882c0c47b273a6ac4c17526494b8e2a0a172a1340386e772354959d7109enat,
        0x401b6418043703fbbb2038dddc0913645c3ae2699d37614441b64de092ef083nat,
    );
    lemma_pow_mod_square(
        0x62b478edb862f3497dcb4465c500b4a4dd3aa267d21a294850b48c999f485bd9nat,
        188,
        modulus(),
        0x401b6418043703fbbb2038dddc0913645c3ae2699d37614441b64de092ef083nat,
        0x23734e0bc4af783bd81d8476cb8b07b10d1605e0d680e87ba6354c367b3899nat,
        0x4d04f2de6ada3285f8223653edac4799960bb934209b60e1a81ad405508eaa70nat,
    );
    lemma_pow_mod_square(
        0x62b478edb862f3497dcb4465c500b4a4dd3aa267d21a294850b48c999f485bd9nat,
        376,
        modulus(),
        0x4d04f2de6ada3285f8223653edac4799960bb934209b60e1a81ad405508eaa70nat,
        0x332b5a6a23ab1b51a1f4a05aeaa85f86732d516be67c52f64c0d64e256379e62nat,
        0x229fea0d8eeb94cce43c3ca09ea1c55b51765471b4457b64321fdbe72f81529enat,
    );
    lemma_pow_mod_square_times(
        0x62b478edb862f3497dcb4465c500b4a4dd3aa267d21a294850b48c999f485bd9nat,
        752,
        modulus(),
        0x229fea0d8eeb94cce43c3ca09ea1c55b51765471b4457b64321fdbe72f81529enat,
        0x3fcc0b8e1b8666cf877add6ea35e0332b145b7ea6dbaff987ef3be5218252508723f0080c2e1b85d7b838f2e42a503456d2f3e881b28b105f9955f8bd0b0c8enat,
        0x1242f1b07f3b16c9851d270dcbecc4d9e2ac348b993c9bead9a56f2305460056nat,
    );
    lemma_pow_mod_square_times(
        0x62b478edb862f3497dcb4465c500b4a4dd3aa267d21a294850b48c999f485bd9nat,
        1505,
        modulus(),
        0x1242f1b07f3b16c9851d270dcbecc4d9e2ac348b993c9bead9a56f2305460056nat,
        0x11befee391caabdcf98b6f088d790f730056ab25a9947566a8fad6800bf426cc64b18146d31f9f7d7de292213cc0b516b38037dac6c2ff294898c3e84449ce8nat,
        0x230d2928c70dd2e63f41342784190072546ca082b7cc282237c31efbf400ec5cnat,
    );
    lemma_pow_mod_square(
        0x62b478edb862f3497dcb4465c500b4a4dd3aa267d21a294850b48c999f485bd9nat,
        3011,
        modulus(),
        0x230d2928c70dd2e63f41342784190072546ca082b7cc282237c31efbf400ec5cnat,
        0xa991275e8ed17acb09e410a276547d81ba71fa88ed7fa50b845254c72237ce2nat,
        0x56f98c53fac4973a98027a13b361e3524573d09aa39d1c6defcd268dc816442enat,
    );
    lemma_pow_mod_square(
        0x62b478edb862f3497dcb4465c500b4a4dd3aa267d21a294850b48c999f485bd9nat,
        6022,
        modulus(),
        0x56f98c53fac4973a98027a13b361e3524573d09aa39d1c6defcd268dc816442enat,
        0x4140a4d51ffe6511f091c32bfb26a2c35eff28c9e0ca3f811d72674767ab0fbbnat,
        0x36d5951b0504d3bb1b476764b6e4f9e408e9c14140e88f91010c379742656889nat,
    );
    lemma_pow_mod_square(
        0x62b478edb862f3497dcb4465c500b4a4dd3aa267d21a294850b48c999f485bd9nat,
        12044,
        modulus(),
        0x36d5951b0504d3bb1b476764b6e4f9e408e9c14140e88f91010c379742656889nat,
        0x19efcd1d2f0e37eb7652ca3b41b1ca6dac3f0c45bbfd2709e8d5c1cf31605da5nat,
        0xc389cc5a683adf801963712c0ac746a6a69bed5629a81d61f273d8619693bacnat,
    );
    lemma_pow_mod_square(
        0x62b478edb862f3497dcb4465c500b4a4dd3aa267d21a294850b48c999f485bd9nat,
        24088,
        modulus(),
        0xc389cc5a683adf801963712c0ac746a6a69bed5629a81d61f273d8619693bacnat,
        0x149d154de35ad5601832f56cce458eeffeaccf4d95646ef0bc450c23393b73fnat,
        0x6563d3c0bbfad346e272c9929cd196193e062eda0b74a180c1578f76656d0451nat,
    );
    lemma_pow_mod_square_times(
        0x62b478edb862f3497dcb4465c500b4a4dd3aa267d21a294850b48c999f485bd9nat,
        48176,
        modulus(),
        0x6563d3c0bbfad346e272c9929cd196193e062eda0b74a180c1578f76656d0451nat,
        0x2230a4bf52a06d3182286a0eb79656df5b29f282579715b3f11f4b3776a30511586ab88581c782e9f4b8a5ee322fab741ce4b44b3cf549edf20658aa85730c03nat,
        0x3721bbe828011278d2e942e752086381582469fd822168c889a79b3375fe3076nat,
    );
}

proof fn squarings_modulus_4_1()
    ensures
        pow_mod(
            0x62b478edb862f3497dcb4465c500b4a4dd3aa267d21a294850b48c999f485bd9nat,
            6314628152nat,
            modulus(),
        ) == 0x2c3b7889634d9ab8128215b008625aeeb02fa68e84544b622872bf86daac220bnat,
{
    squarings_modulus_4_0();
    lemma_pow_mod_square_times(
        0x62b478edb862f3497dcb4465c500b4a4dd3aa267d21a294850b48c999f485bd9nat,
        96353,
        modulus(),
        0x3721bbe828011278d2e942e752086381582469fd822168c889a79b3375fe3076nat,
        0xa1bef5752ceb825174f98486ca14a7ebce62254b9ceeba93a1e28d446ffb0abf17a16793a54df0ff565bfab1271f015ed623ed9c03c3e74a5339aeffdab1248nat,
        0x253f859fd779df3212a7d380db3d776682f560c38306bc050446b7796f22d47cnat,
    );
    lemma_pow_mod_square(
        0x62b478edb862f3497dcb4465c500b4a4dd3aa267d21a294850b48c999f485bd9nat,
        192707,
        modulus(),
        0x253f859fd779df3212a7d380db3d776682f560c38306bc050446b7796f22d47cnat,
        0xbf7caf00cea8b167e1783f8f8d28a160c833a9246bb3d1c631f2d0ba729ff1anat,
        0x360b866995c9779193d677323cfbc9df1fa507c7acb7b80f62d0304702239cf6nat,
    );
    lemma_pow_mod_square(
        0x62b478edb862f3497dcb4465c500b4a4dd3aa267d21a294850b48c999f485bd9nat,
        385414,
        modulus(),
        0x360b866995c9779193d677323cfbc9df1fa507c7acb7b80f62d0304702239cf6nat,
        0x193207a7fb931f5ff00064efed9c3a1578337402004a8355eb1c9d88106770b4nat,
        0x4fbe20130160e9e4e74c99cd03662ef5febd739cf3c4524517acb70813194bb0nat,
    );
    lemma_pow_mod_square_times(
        0x62b478edb862f3497dcb4465c500b4a4dd3aa267d21a294850b48c999f485bd9nat,
        770828,
        modulus(),
        0x4fbe20130160e9e4e74c99cd03662ef5febd739cf3c4524517acb70813194bb0nat,
        0x152628d5b2c4d5f05d1d8023f0c20a8cc0775076674f3d7e504f39bbf0375be83c8ae330e4e13a6ad46de3647a700cf099dd593cbaf8e4be495edfdb6693fd30nat,
        0x66710c6ad73e1614ab9fe73078a35476a853bbd8467979a56a3bb4700910b3d0nat,
    );
    lemma_pow_mod_square(
        0x62b478edb862f3497dcb4465c500b4a4dd3aa267d21a294850b48c999f485bd9nat,
        1541657,
        modulus(),
        0x66710c6ad73e1614ab9fe73078a35476a853bbd8467979a56a3bb4700910b3d0nat,
        0x5a861bd00e726ba9f5ea62f54ff6a2a8ca2da8918fc37443b731fd9d3d33460anat,
        0x10fef753e5716e35f942b13bfacd593bad408b102a0061e613ad4c285b1942f6nat,
    );
    lemma_pow_mod_square_times(
        0x62b478edb862f3497dcb4465c500b4a4dd3aa267d21a294850b48c999f485bd9nat,
        3083314,
        modulus(),
        0x10fef753e5716e35f942b13bfacd593bad408b102a0061e613ad4c285b1942f6nat,
        0xf5f2572f3497817739139a35ed46ea38b1af4d6dbadac305dbe1283b6d66cc9896125af4fdbaa28e852900e682ac9ee42a91038a489d9b81c9a87019aa01afnat,
        0x12d657d710c078ef3f7a9419f9390f18331b512915e0487901e791eb74230315nat,
    );
    lemma_pow_mod_square(
        0x62b478edb862f3497dcb4465c500b4a4dd3aa267d21a294850b48c999f485bd9nat,
        6166629,
        modulus(),
        0x12d657d710c078ef3f7a9419f9390f18331b512915e0487901e791eb74230315nat,
        0x30f9602a0c28e54cdd73a817f3afcfdb90e267d00f6183184d6a77403d6e3a3nat,
        0x5aeffd4cef505c34bf7d3b23fe569217c57a1d90e7c408134f5b6e51dbf09c16nat,
    );
    lemma_pow_mod_square(
        0x62b478edb862f3497dcb4465c500b4a4dd3aa267d21a294850b48c999f485bd9nat,
        12333258,
        modulus(),
        0x5aeffd4cef505c34bf7d3b23fe569217c57a1d90e7c408134f5b6e51dbf09c16nat,
        0x47557b260a6e4239cc96d5af149c0fba93728aa5226a7fe6ffeb4bb8c41767fdnat,
        0x1eedbe2b8ee151558a812a32c5ff52e851cbba3c90d723a7012b5762e85369e7nat,
    );
    lemma_pow_mod_square(
        0x62b478edb862f3497dcb4465c500b4a4dd3aa267d21a294850b48c999f485bd9nat,
        24666516,
        modulus(),
        0x1eedbe2b8ee151558a812a32c5ff52e851cbba3c90d723a7012b5762e85369e7nat,
        0x84062bef06e30334f9c2f9d508513ca6fdefb6aa3c17f631ed6bd4e003052f8nat,
        0x4cffaf8200a6227b1ff9d11d15f2d47bafc730ccb00ed93da7a2f7a68768fb79nat,
    );
    lemma_pow_mod_square(
        0x62b478edb862f3497dcb4465c500b4a4dd3aa267d21a294850b48c999f485bd9nat,
        49333032,
        modulus(),
        0x4cffaf8200a6227b1ff9d11d15f2d47bafc730ccb00ed93da7a2f7a68768fb79nat,
        0x33245c5c4dacb18bc26f24b773ac82b62c6654bd9b943bb3095948e5c8a53f3dnat,
        0x68cd827a39977e8f466a8c99293a8f0382100b3358c278b05b79798a1eb13ff4nat,
    );
    lemma_pow_mod_square_times(
        0x62b478edb862f3497dcb4465c500b4a4dd3aa267d21a294850b48c999f485bd9nat,
        98666064,
        modulus(),
        0x68cd827a39977e8f466a8c99293a8f0382100b3358c278b05b79798a1eb13ff4nat,
        0x2487cb74c3752575a8ae47972cd5adc5c8d44362f0792ac66c66707841fb48e5933cb060168dbc67ef13be411ec604e15ae5f3a418281fe1bd5451947902ab60nat,
        0x31d56710cf83c49ff2e1c8819ce7508891e57a3bd14dcbd621b88a879fc2feb0nat,
    );
    lemma_pow_mod_square_times(
        0x62b478edb862f3497dcb4465c500b4a4dd3aa267d21a294850b48c999f485bd9nat,
        197332129,
        modulus(),
        0x31d56710cf83c49ff2e1c8819ce7508891e57a3bd14dcbd621b88a879fc2feb0nat,
        0x8426ef592db175cf13b768da21e544a9b687b7816dc26fce4db09eff978d7d69c6541640e999a516d68fd092695eb2d054fdfea2fb97bee178825ba3724ac59nat,
        0x2b5078537f94cf2b7bfca04cc8ad5086d804953f8b0d892db95d9e328a3424a7nat,
    );
    lemma_pow_mod_square_times(
        0x62b478edb862f3497dcb4465c500b4a4dd3aa267d21a294850b48c999f485bd9nat,
        394664259,
        modulus(),
        0x2b5078537f94cf2b7bfca04cc8ad5086d804953f8b0d892db95d9e328a3424a7nat,
        0x63d6585d48d076564c636233a934b9cd805e4fdb1632975d15848f2967d63de729d598d596044ad83ec683666c1d0b5d34c2c9b3a97892ff63035b0fcf619d6nat,
        0x3392000ce32bc7929aa4b9dc0c6bb0a7a3cc221f28018220827fab1127882173nat,
    );
    lemma_pow_mod_square(
        0x62b478edb862f3497dcb4465c500b4a4dd3aa267d21a294850b48c999f485bd9nat,
        789328519,
        modulus(),
        0x3392000ce32bc7929aa4b9dc0c6bb0a7a3cc221f28018220827fab1127882173nat,
        0x16f0dd0f7e87b1203c567b7e0a17bb1fd3f16cf3247c0b72a9bcd664c392b785nat,
        0x39ab0fa778b8d4bd24c49a6bc15b183ba1580468ee4c463738ceb6fad4fc2224nat,
    );
    lemma_pow_mod_square(
        0x62b478edb862f3497dcb4465c500b4a4dd3aa267d21a294850b48c999f485bd9nat,
        1578657038,
        modulus(),
        0x39ab0fa778b8d4bd24c49a6bc15b183ba1580468ee4c463738ceb6fad4fc2224nat,
        0x1cafd7570eeaa6851abbae9aefeedce5989060b97975843fc6c682ad824115c8nat,
        0xab5becc1b4810cc91794f9adf296ef969cff437ef5740ff9b9b0249592c7f48nat,
    );
    lemma_pow_mod_square(
        0x62b478edb862f3497dcb4465c500b4a4dd3aa267d21a294850b48c999f485bd9nat,
        3157314076nat,
        modulus(),
        0xab5becc1b4810cc91794f9adf296ef969cff437ef5740ff9b9b0249592c7f48nat,
        0xfd4b3a1a47465cb5663c6e222fc8920585072ebcbb06a90a8751fa355c6235nat,
        0x2c3b7889634d9ab8128215b008625aeeb02fa68e84544b622872bf86daac220bnat,
    );
}

proof fn squarings_modulus_4_2()
    ensures
        pow_mod(
            0x62b478edb862f3497dcb4465c500b4a4dd3aa267d21a294850b48c999f485bd9nat,
            6466179228609nat,
            modulus(),
        ) == 0x5c20e609dd140d24281173f34b0b8fd04e139fe70662e150ef268a303c3b5604nat,
{
    squarings_modulus_4_1();
    lemma_pow_mod_square_times(
        0x62b478edb862f3497dcb4465c500b4a4dd3aa267d21a294850b48c999f485bd9nat,
        6314628152nat,
        modulus(),
        0x2c3b7889634d9ab8128215b008625aeeb02fa68e84544b622872bf86daac220bnat,
        0x681d2772b77c4ccfab2d750b993a6378df8904a198e72f76f3311156d9a1c7ef15c9a512503bf734ceef1eb9e527307fad740726fa9d6d57a94684427dda338nat,
        0x257e35bee9dc2d29fcfbdc9331d37bb5d156f8a402e96d203bad35df791fd259nat,
    );
    lemma_pow_mod_square_times(
        0x62b478edb862f3497dcb4465c500b4a4dd3aa267d21a294850b48c999f485bd9nat,
        12629256305nat,
        modulus(),
        0x257e35bee9dc2d29fcfbdc9331d37bb5d156f8a402e96d203bad35df791fd259nat,
        0x4ace0d6d9db1fdb6c7365cddeba4473cb9eb2c5a3ed8558250f8898127426aa4ceeedcb4ce24f174a1e8dba5e012afb45d3c2ec25860778a43b0b2957f6bc9cnat,
        0x27c0eb2a18e88c2abc6608c62986c275e4ed5a4ff7c6eaa25df52a29d81e8cadnat,
    );
    lemma_pow_mod_square_times(
        0x62b478edb862f3497dcb4465c500b4a4dd3aa267d21a294850b48c999f485bd9nat,
        25258512611nat,
        modulus(),
        0x27c0eb2a18e88c2abc6608c62986c275e4ed5a4ff7c6eaa25df52a29d81e8cadnat,
        0x5418e9711e57a2571fcd15d88dd62c90cb281cc00ab9f06d0c52a5735684c89786def079859cd045c543c91328f60fbaaad85b3252b8dc282410b637cfa1e29nat,
        0x5cc5c5a0a773c59503391538077e5f516f246b6c3b6d39a2d874770e1884658nat,
    );
    lemma_pow_mod_square_times(
        0x62b478edb862f3497dcb4465c500b4a4dd3aa267d21a294850b48c999f485bd9nat,
        50517025223nat,
        modulus(),
        0x5cc5c5a0a773c59503391538077e5f516f246b6c3b6d39a2d874770e1884658nat,
        0x1ca00ca05ec928ba7943826b0123570e4be45a7915528b5757d21c1c2711ea6f208959662b1b45cb9b3ab8e1c44c827dde8a5ace2a2cb6b2d528b002a47b2cnat,
        0x57e0c1dc5f9cc0123654be571b81014c977322c9830349184f94e0d8e5650914nat,
    );
    lemma_pow_mod_square(
        0x62b478edb862f3497dcb4465c500b4a4dd3aa267d21a294850b48c999f485bd9nat,
        101034050447nat,
        modulus(),
        0x57e0c1dc5f9cc0123654be571b81014c977322c9830349184f94e0d8e5650914nat,
        0x429d5f6898888252fad725c243db26a3d5f90688af4c4dfe41d40212f8e46121nat,
        0x1ae69fb722829b9d2f88f14cccc93ca9491290662937369746209aebf936086fnat,
    );
    lemma_pow_mod_square(
        0x62b478edb862f3497dcb4465c500b4a4dd3aa267d21a294850b48c999f485bd9nat,
        202068100894nat,
        modulus(),
        0x1ae69fb722829b9d2f88f14cccc93ca9491290662937369746209aebf936086fnat,
        0x63e060598783b0f82126df300fd0f9e41ad9e7178f7a362bcb93dfc57f44682nat,
        0x1bcc5e4ce539c16c31b86cb235474cc3b91b4c767b6a8b84e8ee381f2526d99fnat,
    );
    lemma_pow_mod_square(
        0x62b478edb862f3497dcb4465c500b4a4dd3aa267d21a294850b48c999f485bd9nat,
        404136201788nat,
        modulus(),
        0x1bcc5e4ce539c16c31b86cb235474cc3b91b4c767b6a8b84e8ee381f2526d99fnat,
        0x6aa6cdfbfbf388f70579d3c6483f37987cc5903c0940c3e2cb826d67b67ec6dnat,
        0xf4b3c597b8594c696c9cac44035c4f3c4ac98fac30b13b526564ae5cecb0454nat,
    );
    lemma_pow_mod_square(
        0x62b478edb862f3497dcb4465c500b4a4dd3aa267d21a294850b48c999f485bd9nat,
        808272403576nat,
        modulus(),
        0xf4b3c597b8594c696c9cac44035c4f3c4ac98fac30b13b526564ae5cecb0454nat,
        0x20484dad5e17e085de10367e879bc00e2b4bbf5564577d571e8203144e32ed0nat,
        0x6129084b097168b4a5fd87f5858db2b26045e7bb9ff88d7ca82cb8ddc8678cc0nat,
    );
    lemma_pow_mod_square(
        0x62b478edb862f3497dcb4465c500b4a4dd3aa267d21a294850b48c999f485bd9nat,
        1616544807152nat,
        modulus(),
        0x6129084b097168b4a5fd87f5858db2b26045e7bb9ff88d7ca82cb8ddc8678cc0nat,
        0x516e3f9a318101fa7abf27dc3389231e1b22e01c8e03b0f78b735204e6b082d8nat,
        0x2eb69c506b8f0b251747a7aa73a0ce4098696ed80ceaba72373c2a21a9320d28nat,
    );
    lemma_pow_mod_square_times(
        0x62b478edb862f3497dcb4465c500b4a4dd3aa267d21a294850b48c999f485bd9nat,
        3233089614304nat,
        modulus(),
        0x2eb69c506b8f0b251747a7aa73a0ce4098696ed80ceaba72373c2a21a9320d28nat,
        0x741efd4253100dd54de7a419a6c3d039c16540d512c2e188549d05265e833e8d60526ddd7adc2356d3d83ac47401330416e24aa78eea1af394dd3514205463cnat,
        0x5c20e609dd140d24281173f34b0b8fd04e139fe70662e150ef268a303c3b5604nat,
    );
}

/// A power of the generator 7, from a lower one raised to the power 6466179228609.
proof fn power_modulus_3()
    ensures
        pow_mod(
            7,
            0x29667f127aa8787453c6429019b6efdb5e0babc571ec100000000nat,
            modulus(),
        ) == 0x5c20e609dd140d24281173f34b0b8fd04e139fe70662e150ef268a303c3b5604nat,
{
    power_modulus_1();
    squarings_modulus_4_2();
    lemma_pow_mod_compose(
        7,
        0x70a2c2511e20378c8a52b7e00134b8fb0100000000nat,
        6466179228609nat,
        modulus(),
        0x62b478edb862f3497dcb4465c500b4a4dd3aa267d21a294850b48c999f485bd9nat,
        0x5c20e609dd140d24281173f34b0b8fd04e139fe70662e150ef268a303c3b5604nat,
    );
}

proof fn squarings_modulus_6_0()
    ensures
        pow_mod(
            0x5c20e609dd140d24281173f34b0b8fd04e139fe70662e150ef268a303c3b5604nat,
            96681,
            modulus(),
        ) == 0x2892f389cc3b1faf1d041293d886c25077589ff189890624f669ffd2e53e3596nat,
{
    lemma_pow_mod_start(
        0x5c20e609dd140d24281173f34b0b8fd04e139fe70662e150ef268a303c3b5604nat,
        modulus(),
    );
    lemma_pow_mod_square(
        0x5c20e609dd140d24281173f34b0b8fd04e139fe70662e150ef268a303c3b5604nat,
        1,
        modulus(),
        0x5c20e609dd140d24281173f34b0b8fd04e139fe70662e150ef268a303c3b5604nat,
        0x4936f8eca8e58865e3888d0dfad7a096451e3126b6743805ce87c57e2723a7ebnat,
        0x3b83dc0daf26de2094966acc33f415104c137d5a1d6e4222f6f451ff7b9b0825nat,
    );
    lemma_pow_mod_square_times(
        0x5c20e609dd140d24281173f34b0b8fd04e139fe70662e150ef268a303c3b5604nat,
        2,
        modulus(),
        0x3b83dc0daf26de2094966acc33f415104c137d5a1d6e4222f6f451ff7b9b0825nat,
        0xafedee366c2e670edd474a4c2d5543ec49dea82b48c209cc69013b8f2fd28361476d14276d3860509c6a782a48e7cf5f3adb76873deef7dede619ef8b0b703anat,
        0x2a8feeeb68ae13765766410b07ee6d728575224c1ff845214ad82b682564cb2anat,
    );
    lemma_pow_mod_square_times(
        0x5c20e609dd140d24281173f34b0b8fd04e139fe70662e150ef268a303c3b5604nat,
        5,
        modulus(),
        0x2a8feeeb68ae13765766410b07ee6d728575224c1ff845214ad82b682564cb2anat,
        0x59fa3677ac300ca3faa6c60872c876dc9e83d25f8df2e2286f0a6e21c3a59de2ef375d4171dbde734050dc16bd19ad7af35e761892ba3bd5e1fcf8b069cfa49nat,
        0x2a4805419c08577768632e6556683b6475e28c5b359d4edd9ff976d7d4d62947nat,
    );
    lemma_pow_mod_square_times(
        0x5c20e609dd140d24281173f34b0b8fd04e139fe70662e150ef268a303c3b5604nat,
        11,
        modulus(),
        0x2a4805419c08577768632e6556683b6475e28c5b359d4edd9ff976d7d4d62947nat,
        0x58cb2a8fdebb0dadf284ebff277e76cd77c97dfba5a3b0aa12a43223dd332c1fc361440cac862c2cebdf8a413880b936cb83bc75a2a2882352805223517449dnat,
        0x5e2cf80b289ec9e3322b0eddef389a18aaca0f0503ddaa137748d950f8947827nat,
    );
    lemma_pow_mod_square_times(
        0x5c20e609dd140d24281173f34b0b8fd04e139fe70662e150ef268a303c3b5604nat,
        23,
        modulus(),
        0x5e2cf80b289ec9e3322b0eddef389a18aaca0f0503ddaa137748d950f8947827nat,
        0x1b88420ea16db5ecc4a8cc23581be70e7c650d310d571ea539aed2a7995f0d3db14c6d7921698c65be9d7ff759fb6300e4c4ff626db16b2eea9b241170e1ac6fnat,
        0x643900ec328400a6cdc26957e2b2ef506e63b83e4257934d282c2c7b49faa155nat,
    );
    lemma_pow_mod_square(
        0x5c20e609dd140d24281173f34b0b8fd04e139fe70662e150ef268a303c3b5604nat,
        47,
        modulus(),
        0x643900ec328400a6cdc26957e2b2ef506e63b83e4257934d282c2c7b49faa155nat,
        0x56a50f8501c25b0bc3a547da05df699431274b78e7abc2d45af5f96a8a8c4501nat,
        0x4fea3540a2666d5d4bf7142d3e079c07890cd06cca192819887b70a66f23c138nat,
    );
    lemma_pow_mod_square(
        0x5c20e609dd140d24281173f34b0b8fd04e139fe70662e150ef268a303c3b5604nat,
        94,
        modulus(),
        0x4fea3540a2666d5d4bf7142d3e079c07890cd06cca192819887b70a66f23c138nat,
        0x3716cf0f2eb8fa8b813fce0a6575f7b8fda1aac875b322aeaf797ac500d36e95nat,
        0x49a2edfa7487bc71117bd914dc534442602f7e261ea4eb618d98efcf6520dabnat,
    );
    lemma_pow_mod_square_times(
        0x5c20e609dd140d24281173f34b0b8fd04e139fe70662e150ef268a303c3b5604nat,
        188,
        modulus(),
        0x49a2edfa7487bc71117bd914dc534442602f7e261ea4eb618d98efcf6520dabnat,
        0x10d52277e7adf1dff0ea2a2fd0513557b4bfe2742ffc5db55c5480c6c149963c0b2b1bb95a4e81a4865af2d38ed1ca489b6f5644d12308ce2ec74f4ffda37anat,
        0x6abe772b9c86c079213dd25f566776e482984f2d762e947ec0c8b93b6c33c36anat,
    );
    lemma_pow_mod_square_times(
        0x5c20e609dd140d24281173f34b0b8fd04e139fe70662e150ef268a303c3b5604nat,
        377,
        modulus(),
        0x6abe772b9c86c079213dd25f566776e482984f2d762e947ec0c8b93b6c33c36anat,
        0x235f0ff6e528262a6f0e3e167ee7976d0d84983e2677825322fd38cefd10e7d6206b5d4167e5d72b00d74f2f96e5937d27e000196aef3846f1be1b4f81e07864nat,
        0x161d4b45d642d5bf7d3c502aaa6a1055dc8cd8c726b42896d4c07e62a1acbf2cnat,
    );
    lemma_pow_mod_square(
        0x5c20e609dd140d24281173f34b0b8fd04e139fe70662e150ef268a303c3b5604nat,
        755,
        modulus(),
        0x161d4b45d642d5bf7d3c502aaa6a1055dc8cd8c726b42896d4c07e62a1acbf2cnat,
        0x437f20ffc1b156887dee11b06be5f47ae533bb7a2e05a3dc2ca200ad0f5f576nat,
        0x5871d1c014270816cbacf2ad3fcecb429789ef44fdc0f7b8eab84021f8ecba1anat,
    );
    lemma_pow_mod_square_times(
        0x5c20e609dd140d24281173f34b0b8fd04e139fe70662e150ef268a303c3b5604nat,
        1510,
        modulus(),
        0x5871d1c014270816cbacf2ad3fcecb429789ef44fdc0f7b8eab84021f8ecba1anat,
        0x1848847cb0ee6d221053fb3d9f8d1dd4a6610bcbab161cd4bd6eaccca4df507dadb21bf9a8b8613caebe290f4e5ef9ef0a3ad2f791a9ec0100ee9d9f04f5c446nat,
        0xa4eb3f95b02d935f626fe1523b36b777c49df4c6f5cfe3ce524325ca5d07e4anat,
    );
    lemma_pow_mod_square(
        0x5c20e609dd140d24281173f34b0b8fd04e139fe70662e150ef268a303c3b5604nat,
        3021,
        modulus(),
        0xa4eb3f95b02d935f626fe1523b36b777c49df4c6f5cfe3ce524325ca5d07e4anat,
        0xea9cd825bbe92fabef00b8d5df6c47f9e79727751c3c7fd714b442d0b8ef68nat,
        0x1e1ed96d344eb16c8c9107797536d95ee11ca8d0f59c08bbed0a54ee09d3fdfcnat,
    );
    lemma_pow_mod_square_times(
        0x5c20e609dd140d24281173f34b0b8fd04e139fe70662e150ef268a303c3b5604nat,
        6042,
        modulus(),
        0x1e1ed96d344eb16c8c9107797536d95ee11ca8d0f59c08bbed0a54ee09d3fdfcnat,
        0x2d0fd516e0188c7d79410ca130a19bea015cfd872b79ad36441dac1d0c75be787962a7ecd3cb49bf359fc68249ca10b9fada2087cdf588d359797903b367937nat,
        0x11ed4e3faac5ce2dec1277cd57d10ea883b83c7deec363dcaaf2bb135b6f2709nat,
    );
    lemma_pow_mod_square(
        0x5c20e609dd140d24281173f34b0b8fd04e139fe70662e150ef268a303c3b5604nat,
        12085,
        modulus(),
        0x11ed4e3faac5ce2dec1277cd57d10ea883b83c7deec363dcaaf2bb135b6f2709nat,
        0x2c5aed97dd579c582bdb4743d4231609840898cba45465f60cfa24c356ac0a9nat,
        0x1c8beaa823654478094323f0e5c7520cd2f9f81441ba3516abce45b61056fda8nat,
    );
    lemma_pow_mod_square(
        0x5c20e609dd140d24281173f34b0b8fd04e139fe70662e150ef268a303c3b5604nat,
        24170,
        modulus(),
        0x1c8beaa823654478094323f0e5c7520cd2f9f81441ba3516abce45b61056fda8nat,
        0x707861aef225b4f15681e73c1ab145adc695c57d0e48ca27aef503a17ec2ce0nat,
        0x4b7f2ecbe60a3fc28236a937ea7b7b8a077d6c007583c28068d514ca50495160nat,
    );
    lemma_pow_mod_square_times(
        0x5c20e609dd140d24281173f34b0b8fd04e139fe70662e150ef268a303c3b5604nat,
        48340,
        modulus(),
        0x4b7f2ecbe60a3fc28236a937ea7b7b8a077d6c007583c28068d514ca50495160nat,
        0x11b19e5892dff3b09ab5a381901c9c4e83fab2e1ff6738d9d2c6e8a9e41863f24440939bf8a8b8d385d6f4bc6f793dd6bf5ed8638eb3a5c2900441b9bbd15a6anat,
        0x2892f389cc3b1faf1d041293d886c25077589ff189890624f669ffd2e53e3596nat,
    );
}

proof fn squarings_modulus_6_1()
    ensures
        pow_mod(
            0x5c20e609dd140d24281173f34b0b8fd04e139fe70662e150ef268a303c3b5604nat,
            193363,
            modulus(),
        ) == 0x4a7a5acf5dc0e762414782ae22b4119ca76fee9d4c748ed263a7435fa7fde54fnat,
{
    squarings_modulus_6_0();
    lemma_pow_mod_square_times(
        0x5c20e609dd140d24281173f34b0b8fd04e139fe70662e150ef268a303c3b5604nat,
        96681,
        modulus(),
        0x2892f389cc3b1faf1d041293d886c25077589ff189890624f669ffd2e53e3596nat,
        0x51c47b04e9fbb5e81a9b36f00df49c963f3ce58e6776b0dbaf3ffeffd82d43d3b0ec56dbd9e202cb0025456a3bf2ae2f7f8226d0e50cf44a8c4a878fdfa8241nat,
        0x4a7a5acf5dc0e762414782ae22b4119ca76fee9d4c748ed263a7435fa7fde54fnat,
    );
}

/// A power of the generator 7, from a lower one raised to the power 193363.
proof fn power_modulus_5()
    ensures
        pow_mod(
            7,
            0x7a26b4feb2bc9fde20c8df96908edbb3ba7be95fffff22b9300000000nat,
            modulus(),
        ) == 0x4a7a5acf5dc0e762414782ae22b4119ca76fee9d4c748ed263a7435fa7fde54fnat,
{
    power_modulus_3();
    squarings_modulus_6_1();
    lemma_pow_mod_compose(
        7,
        0x29667f127aa8787453c6429019b6efdb5e0babc571ec100000000nat,
        193363,
        modulus(),
        0x5c20e609dd140d24281173f34b0b8fd04e139fe70662e150ef268a303c3b5604nat,
        0x4a7a5acf5dc0e762414782ae22b4119ca76fee9d4c748ed263a7435fa7fde54fnat,
    );
}

proof fn squarings_modulus_8_0()
    ensures
        pow_mod(
            0x5c20e609dd140d24281173f34b0b8fd04e139fe70662e150ef268a303c3b5604nat,
            124394,
            modulus(),
        ) == 0x52a53b67ff444a36727055d8e0fa06f2891314b149abd46fe6cd3ea3575ed5a0nat,
{
    lemma_pow_mod_start(
        0x5c20e609dd140d24281173f34b0b8fd04e139fe70662e150ef268a303c3b5604nat,
        modulus(),
    );
    lemma_pow_mod_square_times(
        0x5c20e609dd140d24281173f34b0b8fd04e139fe70662e150ef268a303c3b5604nat,
        1,
        modulus(),
        0x5c20e609dd140d24281173f34b0b8fd04e139fe70662e150ef268a303c3b5604nat,
        0x1a592a1e60152ab7b53ecd03249577545ca56f24ee67712d47b2e3ee2d2b479272eb127387395c30108aa0cd13bfc615b852fe829be9a762ece6a19e007bb5d1nat,
        0x651566b9eed6efe5b63fb510502d1800e1990bb3b61369aab86beb5fed546a6fnat,
    );
    lemma_pow_mod_square_times(
        0x5c20e609dd140d24281173f34b0b8fd04e139fe70662e150ef268a303c3b5604nat,
        3,
        modulus(),
        0x651566b9eed6efe5b63fb510502d1800e1990bb3b61369aab86beb5fed546a6fnat,
        0x1fb82ef79d0d4cc1e04646e234864bbc4c7fcda7294a44a0342ad47542ac529b6382233cfc6e8b14abeec77fd1dd4cb007e6542290bf99596cdfc346acd740b7nat,
        0x4b0281051a469e13ae68bb254f873fc03e96bd1f25961893a020bca6d09745cdnat,
    );
    lemma_pow_mod_square_times(
        0x5c20e609dd140d24281173f34b0b8fd04e139fe70662e150ef268a303c3b5604nat,
        7,
        modulus(),
        0x4b0281051a469e13ae68bb254f873fc03e96bd1f25961893a020bca6d09745cdnat,
        0x11775dc57966813c0844c62d78c7639ae685abb424ce6863dcb347a8e93d1206d9ba6e14c88b94f648c0cb6c53ef342402b074d55e78b0c18fa648222b6cd087nat,
        0x2b2d9ddafed39ec123d6075d23bf71d2b4cb11ee639c70dd076f59208508e1dnat,
    );
    lemma_pow_mod_square(
        0x5c20e609dd140d24281173f34b0b8fd04e139fe70662e150ef268a303c3b5604nat,
        15,
        modulus(),
        0x2b2d9ddafed39ec123d6075d23bf71d2b4cb11ee639c70dd076f59208508e1dnat,
        0x1014fc095a080533922a41de851fd574dfd6e427ffe7a5864e6bb73d0a3d07nat,
        0x3ceb7d4fb0b9c323a2f3f3ae16a1c44248fa45a67d352a7485a28e9eb3f9f242nat,
    );
    lemma_pow_mod_square(
        0x5c20e609dd140d24281173f34b0b8fd04e139fe70662e150ef268a303c3b5604nat,
        30,
        modulus(),
        0x3ceb7d4fb0b9c323a2f3f3ae16a1c44248fa45a67d352a7485a28e9eb3f9f242nat,
        0x20035e351559ab4502413ba85648954780d1041790a1db991a426ddb3ede277anat,
        0x24fa2fa2648150cf927f94043035b43d94565a08d9ea05a743f377e836c6b18anat,
    );
    lemma_pow_mod_square_times(
        0x5c20e609dd140d24281173f34b0b8fd04e139fe70662e150ef268a303c3b5604nat,
        60,
        modulus(),
        0x24fa2fa2648150cf927f94043035b43d94565a08d9ea05a743f377e836c6b18anat,
        0x43e9cbc168fef400032f7c8fb4237cc5452f24d617532885d613a533f8892d8a099c383ec53d68078a247f6403ac399113a3529ae7633c2db569f2f95c1952bnat,
        0x58938bd7da5f6fa3ab0ee8f5cf80f0e3aec7ecb38c777ad42cc95e4a47e07c65nat,
    );
    lemma_pow_mod_square(
        0x5c20e609dd140d24281173f34b0b8fd04e139fe70662e150ef268a303c3b5604nat,
        121,
        modulus(),
        0x58938bd7da5f6fa3ab0ee8f5cf80f0e3aec7ecb38c777ad42cc95e4a47e07c65nat,
        0x43ad81d121185993e4f17c878be4195f03968649c483b9bae697a88fd04d08fbnat,
        0x176e744232ecb13cfbbe3af2f2ae76a5d04d3d263175bab4759fc0a922e4f6denat,
    );
    lemma_pow_mod_square_times(
        0x5c20e609dd140d24281173f34b0b8fd04e139fe70662e150ef268a303c3b5604nat,
        242,
        modulus(),
        0x176e744232ecb13cfbbe3af2f2ae76a5d04d3d263175bab4759fc0a922e4f6denat,
        0x1b4516d765554ac7cf36426cb5215ed8462f058a102fde6fe7d3bfdcb9074920a99ff3666078f83a49a038de36c7e04d3cb25adda853fcb7c72a5e05894c503nat,
        0x72d2ab7a9427a3ef226348e2ff19c0df4201d84b1aa71e9c111562de00f1350dnat,
    );
    lemma_pow_mod_square_times(
        0x5c20e609dd140d24281173f34b0b8fd04e139fe70662e150ef268a303c3b5604nat,
        485,
        modulus(),
        0x72d2ab7a9427a3ef226348e2ff19c0df4201d84b1aa71e9c111562de00f1350dnat,
        0x28ed98db31be1e5fd365554e3633a2394129810af850485730764acfd3587ce6f8565fa43042456c67e0cca081553d965744b0c9f0f2d8db863e74250903ce0fnat,
        0x2964a4dad1e9d43ed527391616e05f25fd24030b62881472d2fb7c8276f58295nat,
    );
    lemma_pow_mod_square_times(
        0x5c20e609dd140d24281173f34b0b8fd04e139fe70662e150ef268a303c3b5604nat,
        971,
        modulus(),
        0x2964a4dad1e9d43ed527391616e05f25fd24030b62881472d2fb7c8276f58295nat,
        0x551a2f6281c7e4586efebd927d80e8e903c252935c4664e52e93e8b5a1b239009e814ae3d39de2ffe27ff506eb4acd467e63faeb7edd49bf92b1d1212c59411nat,
        0x56044013e66aace4982f59907a78eea66929b1ad0d7d2b1708760909f86e3cd3nat,
    );
    lemma_pow_mod_square_times(
        0x5c20e609dd140d24281173f34b0b8fd04e139fe70662e150ef268a303c3b5604nat,
        1943,
        modulus(),
        0x56044013e66aace4982f59907a78eea66929b1ad0d7d2b1708760909f86e3cd3nat,
        0x16f7e3392bcbbae0f60132a1645dff9bd4e7609b5fa50f7965116149a685805d527a2412808fd3a0984f342f059fa363b02bb01c2d429866fa1006d64ee816fbnat,
        0x53b326469a45094724c4a4862a8a5c5233a881a9dbe340766e8e7a98754586a9nat,
    );
    lemma_pow_mod_square(
        0x5c20e609dd140d24281173f34b0b8fd04e139fe70662e150ef268a303c3b5604nat,
        3887,
        modulus(),
        0x53b326469a45094724c4a4862a8a5c5233a881a9dbe340766e8e7a98754586a9nat,
        0x3c6e5162cfc2cc09b1baabe8d5038bb73bba50139631345b96200f611455ddf3nat,
        0x413b87dea6424b2a5142a19e91fcc6e73bf4fdd70a298c30da536b3a43997d9enat,
    );
    lemma_pow_mod_square_times(
        0x5c20e609dd140d24281173f34b0b8fd04e139fe70662e150ef268a303c3b5604nat,
        7774,
        modulus(),
        0x413b87dea6424b2a5142a19e91fcc6e73bf4fdd70a298c30da536b3a43997d9enat,
        0xd35af2bb10fdcffd13727023f6848b4d99d99ad953711d2104b38c78c74c323fd7c45841f289670626fb335dfa4aa96ad73cd42d4357e70f899ff6f0632b379nat,
        0x478f0159141bffd67aa360b5d0d709c86080011dfd98c1beb3430c9d2d825a97nat,
    );
    lemma_pow_mod_square(
        0x5c20e609dd140d24281173f34b0b8fd04e139fe70662e150ef268a303c3b5604nat,
        15549,
        modulus(),
        0x478f0159141bffd67aa360b5d0d709c86080011dfd98c1beb3430c9d2d825a97nat,
        0x2c2bb2c524111cf596e5bca18b683665c37f6b25a09623be13fc842e88494e4fnat,
        0x3de508d49e1d87e065842d86f9a3487abd8000a3cc18aa931bcf258faf2136c2nat,
    );
    lemma_pow_mod_square_times(
        0x5c20e609dd140d24281173f34b0b8fd04e139fe70662e150ef268a303c3b5604nat,
        31098,
        modulus(),
        0x3de508d49e1d87e065842d86f9a3487abd8000a3cc18aa931bcf258faf2136c2nat,
        0xbe476e2648955ef90b321c66960932f3684b92ad2704d5a2145e7fc6b79c398a28d5e0e90ce7690d44535e16c356b889d0929252efc4a17f3186b98336f8813nat,
        0x6593ab72553e3589d4cf1b7d8399b14a75beebcc7ffb5e4a64d42149d597bfdnat,
    );
    lemma_pow_mod_square(
        0x5c20e609dd140d24281173f34b0b8fd04e139fe70662e150ef268a303c3b5604nat,
        62197,
        modulus(),
        0x6593ab72553e3589d4cf1b7d8399b14a75beebcc7ffb5e4a64d42149d597bfdnat,
        0x590082ee6a0228d36bb50ad71ace07f30a3079f8c25eb6529db8a96c984269nat,
        0x52a53b67ff444a36727055d8e0fa06f2891314b149abd46fe6cd3ea3575ed5a0nat,
    );
}

proof fn squarings_modulus_8_1()
    ensures
        pow_mod(
            0x5c20e609dd140d24281173f34b0b8fd04e139fe70662e150ef268a303c3b5604nat,
            254760293,
            modulus(),
        ) == 0x9b93be8de48c12391a9a40f69e91c8ff9177c0a98965661b08c89e03f15d003nat,
{
    squarings_modulus_8_0();
    lemma_pow_mod_square_times(
        0x5c20e609dd140d24281173f34b0b8fd04e139fe70662e150ef268a303c3b5604nat,
        124394,
        modulus(),
        0x52a53b67ff444a36727055d8e0fa06f2891314b149abd46fe6cd3ea3575ed5a0nat,
        0x1534079e3c6c0528560ec0200fe23f37457f3fc1d0780aa0a341b6acba8cb0ea6604f08df283813431949f79fc8acfdadcaada82b377200b642eae5c0f34aa61nat,
        0x568cad3cf5036685e1c3ced84b31634acebda18ab2708e8f2b1d4100c4f1e59fnat,
    );
    lemma_pow_mod_square(
        0x5c20e609dd140d24281173f34b0b8fd04e139fe70662e150ef268a303c3b5604nat,
        248789,
        modulus(),
        0x568cad3cf5036685e1c3ced84b31634acebda18ab2708e8f2b1d4100c4f1e59fnat,
        0x409daeb72f7bc621c9a3a3b21747b8032612c9299b58edf3cf4b834ef2d1b001nat,
        0x3bb3b0c2cc19eb4eee00ef357c9bc5e7d80b0f62a0781af301aa36dfa88228c0nat,
    );
    lemma_pow_mod_square_times(
        0x5c20e609dd140d24281173f34b0b8fd04e139fe70662e150ef268a303c3b5604nat,
        497578,
        modulus(),
        0x3bb3b0c2cc19eb4eee00ef357c9bc5e7d80b0f62a0781af301aa36dfa88228c0nat,
        0xb10927ba62480bfc7d21bbbfc15c408cac4aa3be9c17d443f96984290f9aeeada6f712657b68fc2537dfc312c7eb05d5a56f89050ab771cc29d36d3c70d72c9nat,
        0x492a069d49dec1221ddb02b6e7459650cae50b9e1c9cf0b13a9dff7fe744cd37nat,
    );
    lemma_pow_mod_square(
        0x5c20e609dd140d24281173f34b0b8fd04e139fe70662e150ef268a303c3b5604nat,
        995157,
        modulus(),
        0x492a069d49dec1221ddb02b6e7459650cae50b9e1c9cf0b13a9dff7fe744cd37nat,
        0x2e2ccf0b0ea3bbd9d014675d45a78c32d688e9bef1f3fd84fce513c3b1d4e8canat,
        0x2a241d6ecdf675fa26df3505db5d7472361215752513319ae6a406f39e43907nat,
    );
    lemma_pow_mod_square_times(
        0x5c20e609dd140d24281173f34b0b8fd04e139fe70662e150ef268a303c3b5604nat,
        1990314,
        modulus(),
        0x2a241d6ecdf675fa26df3505db5d7472361215752513319ae6a406f39e43907nat,
        0x58349bb5791ff388d8dc4af9a6eb0edc0ace6fafbe219e94df5034810c38a741765ebe1e14c0863fcd97a1dd13614b0d2778fddd926a7029fbe4b41da2cc4nat,
        0x5f3919c3c34877545a827dbed1d819e440184575c40f70f15b3bf3d2fe45c200nat,
    );
    lemma_pow_mod_square_times(
        0x5c20e609dd140d24281173f34b0b8fd04e139fe70662e150ef268a303c3b5604nat,
        3980629,
        modulus(),
        0x5f3919c3c34877545a827dbed1d819e440184575c40f70f15b3bf3d2fe45c200nat,
        0x1c25e80f55b59d49c1157f21fd6c6d9d95913c6daba8fe6231c3498bbde34d7e8276e4be968e3887dcdff66309cfcc60b845b9682f1ea50de23316589ed17d18nat,
        0x51db280f642e98b7c981c5d39269ab9aad893492e89b77b2bd8b7daf553e82e8nat,
    );
    lemma_pow_mod_square(
        0x5c20e609dd140d24281173f34b0b8fd04e139fe70662e150ef268a303c3b5604nat,
        7961259,
        modulus(),
        0x51db280f642e98b7c981c5d39269ab9aad893492e89b77b2bd8b7daf553e82e8nat,
        0x39cc452f3f7283dba25f36bb493d958f2fccaef4d6137d371faf050a51550d8anat,
        0x4e6aa187880709e927633f620254cbcdd776545e70b2487e9d4623e169fb64b6nat,
    );
    lemma_pow_mod_square(
        0x5c20e609dd140d24281173f34b0b8fd04e139fe70662e150ef268a303c3b5604nat,
        15922518,
        modulus(),
        0x4e6aa187880709e927633f620254cbcdd776545e70b2487e9d4623e169fb64b6nat,
        0x350aee51d4f1927aa39966dc43649dec1515713cab067c853d6cf8c7f5609374nat,
        0x4e9f8808f6cc33d7bc7ba81448cb653686d4006223329b573ccc9613fb221df0nat,
    );
    lemma_pow_mod_square_times(
        0x5c20e609dd140d24281173f34b0b8fd04e139fe70662e150ef268a303c3b5604nat,
        31845036,
        modulus(),
        0x4e9f8808f6cc33d7bc7ba81448cb653686d4006223329b573ccc9613fb221df0nat,
        0x133088a3178d5af345dfddf81119c91149147ea731f66290e0d6cda8dbafcc0bbea2b42ee6aa71d8aba9ced2b8c83a494473970add5f55fd9d91a21a23d05a06nat,
        0x16e17c033137a216ab6308bc01dfbd25e33befb5bd6c9cfc3d44b948ca06a9fanat,
    );
    lemma_pow_mod_square(
        0x5c20e609dd140d24281173f34b0b8fd04e139fe70662e150ef268a303c3b5604nat,
        63690073,
        modulus(),
        0x16e17c033137a216ab6308bc01dfbd25e33befb5bd6c9cfc3d44b948ca06a9fanat,
        0x48417c667484f7734793e1b0d37ea41dfdc21498fb72fce8566a0a36c277b21nat,
        0x24e8a0f13dfbf838f987b68e1088707c7ea1fb9a381d2d613c6a4f88846c8d03nat,
    );
    lemma_pow_mod_square_times(
        0x5c20e609dd140d24281173f34b0b8fd04e139fe70662e150ef268a303c3b5604nat,
        127380146,
        modulus(),
        0x24e8a0f13dfbf838f987b68e1088707c7ea1fb9a381d2d613c6a4f88846c8d03nat,
        0x43a95cf9af117ff3a2e0d3d5019aa49b8e5dba7156fdfb8e5631eb1bb7d81d4fcec1073fdf4cacb5fad1b34038af662bfd241e154d557046bcc8d23ec056e21nat,
        0x9b93be8de48c12391a9a40f69e91c8ff9177c0a98965661b08c89e03f15d003nat,
    );
}

/// A power of the generator 7, from a lower one raised to the power 254760293.
proof fn power_modulus_7()
    ensures
        pow_mod(
            7,
            0x274a912c735a90142ba25028b488c07c6996afb159013004372500000000nat,
            modulus(),
        ) == 0x9b93be8de48c12391a9a40f69e91c8ff9177c0a98965661b08c89e03f15d003nat,
{
    power_modulus_3();
    squarings_modulus_8_1();
    lemma_pow_mod_compose(
        7,
        0x29667f127aa8787453c6429019b6efdb5e0babc571ec100000000nat,
        254760293,
        modulus(),
        0x5c20e609dd140d24281173f34b0b8fd04e139fe70662e150ef268a303c3b5604nat,
        0x9b93be8de48c12391a9a40f69e91c8ff9177c0a98965661b08c89e03f15d003nat,
    );
}

proof fn squarings_modulus_10_0()
    ensures
        pow_mod(
            0x9b93be8de48c12391a9a40f69e91c8ff9177c0a98965661b08c89e03f15d003nat,
            19,
            modulus(),
        ) == 0x1cba928b731970571e9595239f325fced6538e1240ff7965553667549739ebb9nat,
{
    lemma_pow_mod_start(
        0x9b93be8de48c12391a9a40f69e91c8ff9177c0a98965661b08c89e03f15d003nat,
        modulus(),
    );
    lemma_pow_mod_square(
        0x9b93be8de48c12391a9a40f69e91c8ff9177c0a98965661b08c89e03f15d003nat,
        1,
        modulus(),
        0x9b93be8de48c12391a9a40f69e91c8ff9177c0a98965661b08c89e03f15d003nat,
        0xd0c947b3a9bca961560340c7bccb82fa29d1cf2d33bbae4455d8b95f7fb6ebnat,
        0x46de09d7f78466722585987b126cfd6cf71ce06236cdcc0f8cccd7aee403291enat,
    );
    lemma_pow_mod_square(
        0x9b93be8de48c12391a9a40f69e91c8ff9177c0a98965661b08c89e03f15d003nat,
        2,
        modulus(),
        0x46de09d7f78466722585987b126cfd6cf71ce06236cdcc0f8cccd7aee403291enat,
        0x2b52484a95fd5a04dcbef7063da89e7a5bcc6149a3f25f01d34aa2f0efb7785enat,
        0x3fc5fec30b64081890f73f3fb3949a6f578677ec2252aa4b82aebf7c7d972726nat,
    );
    lemma_pow_mod_square_times(
        0x9b93be8de48c12391a9a40f69e91c8ff9177c0a98965661b08c89e03f15d003nat,
        4,
        modulus(),
        0x3fc5fec30b64081890f73f3fb3949a6f578677ec2252aa4b82aebf7c7d972726nat,
        0x1552067b02d1c7ce81066ca8ed9798ce7fb42e6fa903df530fc98f72a915762a5d1dc8a6d57e38a7e4ac5234eebba223099d58d4299f9a2eb78900ba02bbb1dnat,
        0x1bed243e79ff8bdfe76dd32b381ed05aea3873485d83ecba47937a05c58f51cfnat,
    );
    lemma_pow_mod_square_times(
        0x9b93be8de48c12391a9a40f69e91c8ff9177c0a98965661b08c89e03f15d003nat,
        9,
        modulus(),
        0x1bed243e79ff8bdfe76dd32b381ed05aea3873485d83ecba47937a05c58f51cfnat,
        0x4169ba032ffc6b2724643d44f81090107d9a5f0725a23e25d0e34601b3aaa3a7f98dddb32580ca1631d453ab76e8348b534e6efde6436e8ba937287f4dd46anat,
        0x1cba928b731970571e9595239f325fced6538e1240ff7965553667549739ebb9nat,
    );
}

/// A power of the generator 7, from a lower one raised to the power 19.
proof fn power_modulus_9()
    ensures
        pow_mod(
            7,
            0x2ea88c64c8fb8b17f3d0bf3056626493bd62f0a299b16905017bf00000000nat,
            modulus(),
        ) == 0x1cba928b731970571e9595239f325fced6538e1240ff7965553667549739ebb9nat,
{
    power_modulus_7();
    squarings_modulus_10_0();
    lemma_pow_mod_compose(
        7,
        0x274a912c735a90142ba25028b488c07c6996afb159013004372500000000nat,
        19,
        modulus(),
        0x9b93be8de48c12391a9a40f69e91c8ff9177c0a98965661b08c89e03f15d003nat,
        0x1cba928b731970571e9595239f325fced6538e1240ff7965553667549739ebb9nat,
    );
}

proof fn squarings_modulus_12_0()
    ensures
        pow_mod(
            0x9b93be8de48c12391a9a40f69e91c8ff9177c0a98965661b08c89e03f15d003nat,
            10177,
            modulus(),
        ) == 0x4b11569521af839931a5fb948d45c34bf87b7fc14f41215b554781951820e40enat,
{
    lemma_pow_mod_start(
        0x9b93be8de48c12391a9a40f69e91c8ff9177c0a98965661b08c89e03f15d003nat,
        modulus(),
    );
    lemma_pow_mod_square(
        0x9b93be8de48c12391a9a40f69e91c8ff9177c0a98965661b08c89e03f15d003nat,
        1,
        modulus(),
        0x9b93be8de48c12391a9a40f69e91c8ff9177c0a98965661b08c89e03f15d003nat,
        0xd0c947b3a9bca961560340c7bccb82fa29d1cf2d33bbae4455d8b95f7fb6ebnat,
        0x46de09d7f78466722585987b126cfd6cf71ce06236cdcc0f8cccd7aee403291enat,
    );
    lemma_pow_mod_square(
        0x9b93be8de48c12391a9a40f69e91c8ff9177c0a98965661b08c89e03f15d003nat,
        2,
        modulus(),
        0x46de09d7f78466722585987b126cfd6cf71ce06236cdcc0f8cccd7aee403291enat,
        0x2b52484a95fd5a04dcbef7063da89e7a5bcc6149a3f25f01d34aa2f0efb7785enat,
        0x3fc5fec30b64081890f73f3fb3949a6f578677ec2252aa4b82aebf7c7d972726nat,
    );
    lemma_pow_mod_square_times(
        0x9b93be8de48c12391a9a40f69e91c8ff9177c0a98965661b08c89e03f15d003nat,
        4,
        modulus(),
        0x3fc5fec30b64081890f73f3fb3949a6f578677ec2252aa4b82aebf7c7d972726nat,
        0x1552067b02d1c7ce81066ca8ed9798ce7fb42e6fa903df530fc98f72a915762a5d1dc8a6d57e38a7e4ac5234eebba223099d58d4299f9a2eb78900ba02bbb1dnat,
        0x1bed243e79ff8bdfe76dd32b381ed05aea3873485d83ecba47937a05c58f51cfnat,
    );
    lemma_pow_mod_square_times(
        0x9b93be8de48c12391a9a40f69e91c8ff9177c0a98965661b08c89e03f15d003nat,
        9,
        modulus(),
        0x1bed243e79ff8bdfe76dd32b381ed05aea3873485d83ecba47937a05c58f51cfnat,
        0x4169ba032ffc6b2724643d44f81090107d9a5f0725a23e25d0e34601b3aaa3a7f98dddb32580ca1631d453ab76e8348b534e6efde6436e8ba937287f4dd46anat,
        0x1cba928b731970571e9595239f325fced6538e1240ff7965553667549739ebb9nat,
    );
    lemma_pow_mod_square_times(
        0x9b93be8de48c12391a9a40f69e91c8ff9177c0a98965661b08c89e03f15d003nat,
        19,
        modulus(),
        0x1cba928b731970571e9595239f325fced6538e1240ff7965553667549739ebb9nat,
        0x4539ee8b4e7844a35927dc0612b9a763192bce50281c4ae8a7ffd306267bd688ea00d064edd795cf122bc4d73197b00427e42fa17a9ba72edfe1ca4f7d10d8nat,
        0x18fb6ce689feba3725afdccfaf479233a3f607529a054a177ef5511c56d5423bnat,
    );
    lemma_pow_mod_square_times(
        0x9b93be8de48c12391a9a40f69e91c8ff9177c0a98965661b08c89e03f15d003nat,
        39,
        modulus(),
        0x18fb6ce689feba3725afdccfaf479233a3f607529a054a177ef5511c56d5423bnat,
        0x3458ef28797e02a4225635760aaf39c55657d933038ee14dc2da60e9483f845a10b1398107fe25ca875e0d73e21b2a2a92d4e5d77e6d453ea0edc037d42a4anat,
        0x4077718669837354cadf405fb81b0b96aa8893f05a65351f4ff0254e8d769281nat,
    );
    lemma_pow_mod_square_times(
        0x9b93be8de48c12391a9a40f69e91c8ff9177c0a98965661b08c89e03f15d003nat,
        79,
        modulus(),
        0x4077718669837354cadf405fb81b0b96aa8893f05a65351f4ff0254e8d769281nat,
        0x15c9513eced88f8d08f073c9f2f4974eb6bd6b3717d77d58061a3267b2ca959915b479d91cb81ac2afefd262a798dbf435ac281f89eb2b667de68b0daaba31cnat,
        0x94431b2c9c8ca09bba7d1fd79f7eabe11ce480e1b920e49542b5a48e5c45be7nat,
    );
    lemma_pow_mod_square(
        0x9b93be8de48c12391a9a40f69e91c8ff9177c0a98965661b08c89e03f15d003nat,
        159,
        modulus(),
        0x94431b2c9c8ca09bba7d1fd79f7eabe11ce480e1b920e49542b5a48e5c45be7nat,
        0xbd9d3d3c0218f53250bb00d5a59acf7bf968de11c125dd4e272889ef28cad6nat,
        0x3c5ccf6ba63e5d3772ec5c39daaa954971db275174f8f5d735e6a344318d3f9bnat,
    );
    lemma_pow_mod_square(
        0x9b93be8de48c12391a9a40f69e91c8ff9177c0a98965661b08c89e03f15d003nat,
        318,
        modulus(),
        0x3c5ccf6ba63e5d3772ec5c39daaa954971db275174f8f5d735e6a344318d3f9bnat,
        0x1f6e19636cf4fef925fd4743e787723dbe6d8296e4840f40dceccb7dcb777552nat,
        0x4b482eaeb01829074674a337fe0b7fc89c02622f0ed7ad51a2af3674ab143287nat,
    );
    lemma_pow_mod_square(
        0x9b93be8de48c12391a9a40f69e91c8ff9177c0a98965661b08c89e03f15d003nat,
        636,
        modulus(),
        0x4b482eaeb01829074674a337fe0b7fc89c02622f0ed7ad51a2af3674ab143287nat,
        0x30e30a28a2d6bb47c244f48eec70e32f71608a2d3626c23608cd30ce3789aeaenat,
        0x4d47fc419e9af7bdc8578459a930e0ca356b10d54636e79c2141395011875483nat,
    );
    lemma_pow_mod_square(
        0x9b93be8de48c12391a9a40f69e91c8ff9177c0a98965661b08c89e03f15d003nat,
        1272,
        modulus(),
        0x4d47fc419e9af7bdc8578459a930e0ca356b10d54636e79c2141395011875483nat,
        0x33849435497789e1dcfe63f1e29cec44abf7ecf2288de9bf267e3c371247fb8bnat,
        0x2952b895442d2d2edfe05592c6082fd523384ad7a24f06d5ba27f791c83f7enat,
    );
    lemma_pow_mod_square(
        0x9b93be8de48c12391a9a40f69e91c8ff9177c0a98965661b08c89e03f15d003nat,
        2544,
        modulus(),
        0x2952b895442d2d2edfe05592c6082fd523384ad7a24f06d5ba27f791c83f7enat,
        0xebad410e69d971e8821e750c0f59b2281a1985785ab555d3e31fb6d3360nat,
        0x275cb545dbc1c0207ebcf579c616aefe4b91d2fd5f5b98483bef52e205320ea4nat,
    );
    lemma_pow_mod_square_times(
        0x9b93be8de48c12391a9a40f69e91c8ff9177c0a98965661b08c89e03f15d003nat,
        5088,
        modulus(),
        0x275cb545dbc1c0207ebcf579c616aefe4b91d2fd5f5b98483bef52e205320ea4nat,
        0x81f4869debe85ed2adfcc8eb480eddf3a415f8bd38814a3d59da44219340b7f7c274845917826fd84d81c1cc7eca465ed7b3db967c52d8931818dcb13f2722nat,
        0x4b11569521af839931a5fb948d45c34bf87b7fc14f41215b554781951820e40enat,
    );
}

/// A power of the generator 7, from a lower one raised to the power 10177.
proof fn power_modulus_11()
    ensures
        pow_mod(
            7,
            0x619fb553815c339b1da9f94a230f06c11e18f5e79434835d79435e500000000nat,
            modulus(),
        ) == 0x4b11569521af839931a5fb948d45c34bf87b7fc14f41215b554781951820e40enat,
{
    power_modulus_7();
    squarings_modulus_12_0();
    lemma_pow_mod_compose(
        7,
        0x274a912c735a90142ba25028b488c07c6996afb159013004372500000000nat,
        10177,
        modulus(),
        0x9b93be8de48c12391a9a40f69e91c8ff9177c0a98965661b08c89e03f15d003nat,
        0x4b11569521af839931a5fb948d45c34bf87b7fc14f41215b554781951820e40enat,
    );
}

proof fn squarings_modulus_14_0()
    ensures
        pow_mod(
            0x62b478edb862f3497dcb4465c500b4a4dd3aa267d21a294850b48c999f485bd9nat,
            91756,
            modulus(),
        ) == 0x341f7608c3b1834a6889ca0171590ae2303a7e3afbd87eaaf6f7f5325088d75enat,
{
    lemma_pow_mod_start(
        0x62b478edb862f3497dcb4465c500b4a4dd3aa267d21a294850b48c999f485bd9nat,
        modulus(),
    );
    lemma_pow_mod_square(
        0x62b478edb862f3497dcb4465c500b4a4dd3aa267d21a294850b48c999f485bd9nat,
        1,
        modulus(),
        0x62b478edb862f3497dcb4465c500b4a4dd3aa267d21a294850b48c999f485bd9nat,
        0x540a5bec3e18859a3f3f792460fd11688399a15cbf484459e676fb01e16fca74nat,
        0x1ce52f4d90c54f76071023f1bbe106c3f5ac4523ebc596bbb02ee75f7794337dnat,
    );
    lemma_pow_mod_square_times(
        0x62b478edb862f3497dcb4465c500b4a4dd3aa267d21a294850b48c999f485bd9nat,
        2,
        modulus(),
        0x1ce52f4d90c54f76071023f1bbe106c3f5ac4523ebc596bbb02ee75f7794337dnat,
        0x2c6e3d9a6b501f792f14cca829dfdbbc2903637289bd5566ffb11b1a7cffa206c59984be7ceeb13a4ff4e34962744b554ed95c9cf03bb78b60cbaddeae0d6e7nat,
        0x67262fb3b9e62119f48015c908f512a39b97a49547e237da9c649949c407b6banat,
    );
    lemma_pow_mod_square_times(
        0x62b478edb862f3497dcb4465c500b4a4dd3aa267d21a294850b48c999f485bd9nat,
        5,
        modulus(),
        0x67262fb3b9e62119f48015c908f512a39b97a49547e237da9c649949c407b6banat,
        0x2363033784d4a16ed126d03331754a6947b0127c6857e63b7c3235046752a6797c0cb206e59783b00fd6ce787d21325deeaa8b3124eb5a25c637110424c2bbe9nat,
        0x6d55426d7f7487eb034271e631e0b2074d40b2be46cc47e9c09fb8eadbf559bnat,
    );
    lemma_pow_mod_square(
        0x62b478edb862f3497dcb4465c500b4a4dd3aa267d21a294850b48c999f485bd9nat,
        11,
        modulus(),
        0x6d55426d7f7487eb034271e631e0b2074d40b2be46cc47e9c09fb8eadbf559bnat,
        0x671ceb81313a6a2728bac64c0661bdca9b48521b9879474d2e770644d2479cnat,
        0x7081d1433017518fd1bdcb35d7a124f69b4aed88551451f24c96e33e1318043dnat,
    );
    lemma_pow_mod_square(
        0x62b478edb862f3497dcb4465c500b4a4dd3aa267d21a294850b48c999f485bd9nat,
        22,
        modulus(),
        0x7081d1433017518fd1bdcb35d7a124f69b4aed88551451f24c96e33e1318043dnat,
        0x6d2fd41fd758d4068534c651aff5f3b9acdb0d193d9e680e1dc8b2cdbca38cc7nat,
        0x126b80a751eb4c8aa2b3c7f29e420398b0dfaf98592eb86da6e9a8671cde69c2nat,
    );
    lemma_pow_mod_square_times(
        0x62b478edb862f3497dcb4465c500b4a4dd3aa267d21a294850b48c999f485bd9nat,
        44,
        modulus(),
        0x126b80a751eb4c8aa2b3c7f29e420398b0dfaf98592eb86da6e9a8671cde69c2nat,
        0x120e2a3e899abc94d2ab428ef19b737dec1c755b4d4533f800a85f2b6382179af6081f52f92c8825fe4dd29d015a82deb2b0d288b4a8d5820c13eb7930dbd46nat,
        0x4b339956db37e31c4dcc62100ea5f9400614d251ca1e191d86f3f68c5a3d11enat,
    );
    lemma_pow_mod_square_times(
        0x62b478edb862f3497dcb4465c500b4a4dd3aa267d21a294850b48c999f485bd9nat,
        89,
        modulus(),
        0x4b339956db37e31c4dcc62100ea5f9400614d251ca1e191d86f3f68c5a3d11enat,
        0x12cf1358f467d3a5ca00c10844757c3d3971446ee7d6e82624c2c2ea9a64a5a97484e72201d6bbbbceae917c4be52f9cd59d334c215d43fb9d8e9f85af6194nat,
        0x4e3b154bf752e13e18ba815f6156f03b85f67f973886f29a6f0693f8255a2150nat,
    );
    lemma_pow_mod_square(
        0x62b478edb862f3497dcb4465c500b4a4dd3aa267d21a294850b48c999f485bd9nat,
        179,
        modulus(),
        0x4e3b154bf752e13e18ba815f6156f03b85f67f973886f29a6f0693f8255a2150nat,
        0x34caaeadb54a339eccbf9007f34799531aca4d54f66fa102f4c5fde3f76fcee0nat,
        0x3f79d93c86f425b3ede3e8626c33339e11cf7ddb11e5d48bd8bf69589925ea20nat,
    );
    lemma_pow_mod_square(
        0x62b478edb862f3497dcb4465c500b4a4dd3aa267d21a294850b48c999f485bd9nat,
        358,
        modulus(),
        0x3f79d93c86f425b3ede3e8626c33339e11cf7ddb11e5d48bd8bf69589925ea20nat,
        0x22c185a8489489dd31b842e4079ffc4c5c2efd7064a649822c220b5f0acb5e1anat,
        0x3db8c076b8ceba0c4f5d19f1f5027cbe075a114690d954aafa26e032b89325e6nat,
    );
    lemma_pow_mod_square_times(
        0x62b478edb862f3497dcb4465c500b4a4dd3aa267d21a294850b48c999f485bd9nat,
        716,
        modulus(),
        0x3db8c076b8ceba0c4f5d19f1f5027cbe075a114690d954aafa26e032b89325e6nat,
        0xcab9536dc05e57b18cdcde8530fc4c72d3cf5d3e0a2fb92689b0b7bfdc96ca34d22890534a6e66df2a0afdb95e27d4ecae8ff693a78a65c582170ee7c645b04nat,
        0x4df39161ec9473fac12e2c8109c2498984a5dd0c0375fe6cb8efcb0bce433600nat,
    );
    lemma_pow_mod_square_times(
        0x62b478edb862f3497dcb4465c500b4a4dd3aa267d21a294850b48c999f485bd9nat,
        1433,
        modulus(),
        0x4df39161ec9473fac12e2c8109c2498984a5dd0c0375fe6cb8efcb0bce433600nat,
        0x1435a8548522278797e821695ab7a2f7bf5c9ad75eebe4e5ebe31bbc3c086026cf986c71834c999f9f31b8779f42dc1050db97cf0df1fdce759818172a7592b4nat,
        0x1e0753b470ae75843f103e10728f9c03d35e3c635eb5d2c767c97dbdad4e6d4cnat,
    );
    lemma_pow_mod_square(
        0x62b478edb862f3497dcb4465c500b4a4dd3aa267d21a294850b48c999f485bd9nat,
        2867,
        modulus(),
        0x1e0753b470ae75843f103e10728f9c03d35e3c635eb5d2c767c97dbdad4e6d4cnat,
        0x7c73a8cdccbdb58340aac5916c65f1948a9c96e376670e1e46cd20651c9bc2enat,
        0x60b9d79f5617089eb27aa3c68c481100dcac6c0ec3543a5d28919c1f2f301262nat,
    );
    lemma_pow_mod_square_times(
        0x62b478edb862f3497dcb4465c500b4a4dd3aa267d21a294850b48c999f485bd9nat,
        5734,
        modulus(),
        0x60b9d79f5617089eb27aa3c68c481100dcac6c0ec3543a5d28919c1f2f301262nat,
        0x1f1de8fc5300cd1dd6fe2bc99a66c464194aac63b5c857819538a5878afac2b44f2a44159f417569b3a98e9e9b559ad5d9c9e94f27de8dcf68e1aa74da04ae03nat,
        0x4f55a4bd93ffaf2d6b0f52f50a82dc5aa4006729e80b27ebda256f4fefbb92e1nat,
    );
    lemma_pow_mod_square_times(
        0x62b478edb862f3497dcb4465c500b4a4dd3aa267d21a294850b48c999f485bd9nat,
        11469,
        modulus(),
        0x4f55a4bd93ffaf2d6b0f52f50a82dc5aa4006729e80b27ebda256f4fefbb92e1nat,
        0x14eee17b6a6143859a197298060e391721982c23fbc0ee9290713b033d4d0c2681af747b27527aa47b646767a77e40f769ad646a8c8c9490141da812028d7351nat,
        0x64c948d53d0663644c574e0a48623849d96d9fe242afc6e69dde97dbe46ecc48nat,
    );
    lemma_pow_mod_square(
        0x62b478edb862f3497dcb4465c500b4a4dd3aa267d21a294850b48c999f485bd9nat,
        22939,
        modulus(),
        0x64c948d53d0663644c574e0a48623849d96d9fe242afc6e69dde97dbe46ecc48nat,
        0x579f3af2f0736faa3b9068f11691389a8f89b6953e0e73bf336cafb73e75b558nat,
        0x17b9dc6d325090ddecf85e79d3fce9d7000deb8c0883fdc5fe4d04a5326d1ee8nat,
    );
    lemma_pow_mod_square(
        0x62b478edb862f3497dcb4465c500b4a4dd3aa267d21a294850b48c999f485bd9nat,
        45878,
        modulus(),
        0x17b9dc6d325090ddecf85e79d3fce9d7000deb8c0883fdc5fe4d04a5326d1ee8nat,
        0x4db15424661494a8912a8b5f77d2bf27410be31a6ed83c318ea4b55a4c25ae2nat,
        0x341f7608c3b1834a6889ca0171590ae2303a7e3afbd87eaaf6f7f5325088d75enat,
    );
}

proof fn squarings_modulus_14_1()
    ensures
        pow_mod(
            0x62b478edb862f3497dcb4465c500b4a4dd3aa267d21a294850b48c999f485bd9nat,
            6013331852nat,
            modulus(),
        ) == 0x3b8664de7dfc0470df98c9ed102b9c9dcec59d3f4bcac230520fac64df0ac35fnat,
{
    squarings_modulus_14_0();
    lemma_pow_mod_square(
        0x62b478edb862f3497dcb4465c500b4a4dd3aa267d21a294850b48c999f485bd9nat,
        91756,
        modulus(),
        0x341f7608c3b1834a6889ca0171590ae2303a7e3afbd87eaaf6f7f5325088d75enat,
        0x176f65014520da7d25cd99aa890cd9fbe03899903cc0b9a8b241a955589c9914nat,
        0x29488bf627dc51f857a3a792ebb84ba1694e38e9ea58a79a60c2cc36f0726d70nat,
    );
    lemma_pow_mod_square(
        0x62b478edb862f3497dcb4465c500b4a4dd3aa267d21a294850b48c999f485bd9nat,
        183512,
        modulus(),
        0x29488bf627dc51f857a3a792ebb84ba1694e38e9ea58a79a60c2cc36f0726d70nat,
        0xeb3941a5b8b0b6a3326d34d54fb7d4093852ef82582c84b800e6009153c3109nat,
        0x5e01ce6bc99890f56afa38a937a1820d94fa4ae61c30320923753c97914c5ff7nat,
    );
    lemma_pow_mod_square_times(
        0x62b478edb862f3497dcb4465c500b4a4dd3aa267d21a294850b48c999f485bd9nat,
        367024,
        modulus(),
        0x5e01ce6bc99890f56afa38a937a1820d94fa4ae61c30320923753c97914c5ff7nat,
        0x1d645f8c2beb94262eb60808fff1f91154e9999cc55fc0f18df72c5659722704daddb05d50a86689a811437d011daa4bdb4ebfda0e05bcde628ddc342849fc2dnat,
        0x64fed82fa9f067c691e8242ac823eeea0a5cff3e92d0bdcf9fd21b74240a537cnat,
    );
    lemma_pow_mod_square(
        0x62b478edb862f3497dcb4465c500b4a4dd3aa267d21a294850b48c999f485bd9nat,
        734049,
        modulus(),
        0x64fed82fa9f067c691e8242ac823eeea0a5cff3e92d0bdcf9fd21b74240a537cnat,
        0x57fc74902adb1e6ce9185c5af7faf3a90b1fe1c7979bc6fcd7b74c3a2ed5db0enat,
        0x2fd5ec0a4080827be6c1ba73cd7982f331767ac23e0e1bc3329947195213c902nat,
    );
    lemma_pow_mod_square_times(
        0x62b478edb862f3497dcb4465c500b4a4dd3aa267d21a294850b48c999f485bd9nat,
        1468098,
        modulus(),
        0x2fd5ec0a4080827be6c1ba73cd7982f331767ac23e0e1bc3329947195213c902nat,
        0x79c48f23fc2b63f521d4c4c4323aec48a7743e46d17626eb8da08df7d81efd288cd926bb25173940b7aa312a5a88759d716c3f1dcef276acd59b3908c20eca8nat,
        0x51d3d829048ba2387e9acb62a877e9ad15eb977fcaa611beb1026392f50b06bcnat,
    );
    lemma_pow_mod_square(
        0x62b478edb862f3497dcb4465c500b4a4dd3aa267d21a294850b48c999f485bd9nat,
        2936197,
        modulus(),
        0x51d3d829048ba2387e9acb62a877e9ad15eb977fcaa611beb1026392f50b06bcnat,
        0x39c1f22da80c85b214e697056298ee97b6a8e1c460c90e6fbeef1dcb519458e1nat,
        0x66016b9f43bba80d55c6013a405b379a17a5f5869c7e94ab97ec6ce31ac1012fnat,
    );
    lemma_pow_mod_square(
        0x62b478edb862f3497dcb4465c500b4a4dd3aa267d21a294850b48c999f485bd9nat,
        5872394,
        modulus(),
        0x66016b9f43bba80d55c6013a405b379a17a5f5869c7e94ab97ec6ce31ac1012fnat,
        0x59c13ec770b37d3401612609b03ad3be7156308e63dd2ed6cf23392ce903f870nat,
        0x3a0a41450db5d311d9eef18132f5dfa5978dd0340bf51adb089c465d6bdb6e31nat,
    );
    lemma_pow_mod_square_times(
        0x62b478edb862f3497dcb4465c500b4a4dd3aa267d21a294850b48c999f485bd9nat,
        11744788,
        modulus(),
        0x3a0a41450db5d311d9eef18132f5dfa5978dd0340bf51adb089c465d6bdb6e31nat,
        0xb342be3c56e4d6594bd3a409f4e01ac6b6f960515be6be5c3db637860fdbc00d366d773b8b5f2fc6ab3efce36103bd5bb94cd11b8a62d5652507c43beaf9ccbnat,
        0x222606782ca7473ec12a991f07aa96a29e78ec75b6240996c6cb3df81ba58d6enat,
    );
    lemma_pow_mod_square_times(
        0x62b478edb862f3497dcb4465c500b4a4dd3aa267d21a294850b48c999f485bd9nat,
        23489577,
        modulus(),
        0x222606782ca7473ec12a991f07aa96a29e78ec75b6240996c6cb3df81ba58d6enat,
        0x3e0df6f5aab3655071ad9dc36f03879b6e182b93ba829b3051a15aedc2aed3b9c3ac651b6e70b28a8f4155f887ff40b63fc96336b5327e33ee7884d3eab51c1nat,
        0x65c387e0ac4e031835bcd0efd0f9fdea68e9ba11c6552ab8324add8655f136e3nat,
    );
    lemma_pow_mod_square(
        0x62b478edb862f3497dcb4465c500b4a4dd3aa267d21a294850b48c999f485bd9nat,
        46979155,
        modulus(),
        0x65c387e0ac4e031835bcd0efd0f9fdea68e9ba11c6552ab8324add8655f136e3nat,
        0x595475f0feab96a42f7f85a7cd168ac6f7fd2a63d21f48907c3db581d8cdc2a8nat,
        0x143908c4dadfa690ed7fde8cc57e8e1c205b265fa8b451ae51ef8285485ccaa1nat,
    );
    lemma_pow_mod_square(
        0x62b478edb862f3497dcb4465c500b4a4dd3aa267d21a294850b48c999f485bd9nat,
        93958310,
        modulus(),
        0x143908c4dadfa690ed7fde8cc57e8e1c205b265fa8b451ae51ef8285485ccaa1nat,
        0x38717d43728ad45a62537adb97d3a0d25469a543d57b569456f9f901cc89b8cnat,
        0x2f072a5e5e442e42bd4bededf2f68520813898ceec0b02ed94a15ee2b751ddb5nat,
    );
    lemma_pow_mod_square(
        0x62b478edb862f3497dcb4465c500b4a4dd3aa267d21a294850b48c999f485bd9nat,
        187916620,
        modulus(),
        0x2f072a5e5e442e42bd4bededf2f68520813898ceec0b02ed94a15ee2b751ddb5nat,
        0x1313dc2a558ca25714feed2425a58a8c804c02e6ca5aacfae0003cff7726b9a9nat,
        0x807b67339117d2af72176f6e04ba21d5d3b3cc2304b678a0b7301645b654850nat,
    );
    lemma_pow_mod_square_times(
        0x62b478edb862f3497dcb4465c500b4a4dd3aa267d21a294850b48c999f485bd9nat,
        375833240,
        modulus(),
        0x807b67339117d2af72176f6e04ba21d5d3b3cc2304b678a0b7301645b654850nat,
        0x36e71c8d69edbeef808fc8113fc117de9e024cbc628576a3e9dc758b5311199a3d8aa8c7a9f55252f7dea8cd5d2129550718676175423b5691ea04ad8c1a60nat,
        0x226d427496a2de190a1bb6d0b3bbece5ff780c2b5a552f05fdfd019a84f116a0nat,
    );
    lemma_pow_mod_square_times(
        0x62b478edb862f3497dcb4465c500b4a4dd3aa267d21a294850b48c999f485bd9nat,
        751666481,
        modulus(),
        0x226d427496a2de190a1bb6d0b3bbece5ff780c2b5a552f05fdfd019a84f116a0nat,
        0x3f11e9ac2e5ac01aae75e57fb7b2295b4de7e4d6837934bf0fb1d736ab372cc1a1742850d9cdd47b2367f942dc7a9d1f29fdb5b99c5c6dc6918f7241ed4c220nat,
        0x325b3e0dd16f107f72923fca9ac91a0042bdf5e4fdb3d64649f2e723505f81e0nat,
    );
    lemma_pow_mod_square(
        0x62b478edb862f3497dcb4465c500b4a4dd3aa267d21a294850b48c999f485bd9nat,
        1503332963,
        modulus(),
        0x325b3e0dd16f107f72923fca9ac91a0042bdf5e4fdb3d64649f2e723505f81e0nat,
        0x15dfa3721db3cc3417303f326bb494a3418832ab50a7719553e4e1facd4f5984nat,
        0x67ebcd81a80babe2459372e47a2a26cfac60206ef3520cf834a60f96d8d42a7cnat,
    );
    lemma_pow_mod_square(
        0x62b478edb862f3497dcb4465c500b4a4dd3aa267d21a294850b48c999f485bd9nat,
        3006665926nat,
        modulus(),
        0x67ebcd81a80babe2459372e47a2a26cfac60206ef3520cf834a60f96d8d42a7cnat,
        0x5d28532309ae42932ea96bee46a03fd7ce52d2083ce7aa9999658523c56228b1nat,
        0x3b8664de7dfc0470df98c9ed102b9c9dcec59d3f4bcac230520fac64df0ac35fnat,
    );
}

proof fn squarings_modulus_14_2()
    ensures
        pow_mod(
            0x62b478edb862f3497dcb4465c500b4a4dd3aa267d21a294850b48c999f485bd9nat,
            49261214535359nat,
            modulus(),
        ) == 0x1d2f9690502122b0120eaa7499b1e84e87d14ecf36999383b50590991aa741f5nat,
{
    squarings_modulus_14_1();
    lemma_pow_mod_square(
        0x62b478edb862f3497dcb4465c500b4a4dd3aa267d21a294850b48c999f485bd9nat,
        6013331852nat,
        modulus(),
        0x3b8664de7dfc0470df98c9ed102b9c9dcec59d3f4bcac230520fac64df0ac35fnat,
        0x1e905c3748a167eb6769b503e6f2244a5db8e521a462004e79165d02c61082d6nat,
        0x9154d1a25dd636981f107f7ca7c7b13ead3f21ee849f30b876030de94755a6bnat,
    );
    lemma_pow_mod_square_times(
        0x62b478edb862f3497dcb4465c500b4a4dd3aa267d21a294850b48c999f485bd9nat,
        12026663704nat,
        modulus(),
        0x9154d1a25dd636981f107f7ca7c7b13ead3f21ee849f30b876030de94755a6bnat,
        0x463f3cd8b71919b381ea5a834c0e2dd588c791401243758acbd86c326c3d5d48ec31bde92579622bed4105973f20912449c5eae3f6218b6fc851052b685c3anat,
        0x1c361cf9c5799d1943e27d3a9a3b8e313202dd427728a01ea808b6619672b97nat,
    );
    lemma_pow_mod_square_times(
        0x62b478edb862f3497dcb4465c500b4a4dd3aa267d21a294850b48c999f485bd9nat,
        24053327409nat,
        modulus(),
        0x1c361cf9c5799d1943e27d3a9a3b8e313202dd427728a01ea808b6619672b97nat,
        0x2a5a37516d01be50e84aed86eaf04ffd69e809dee59d872a481da9f1dfdf161cf7bd24d8a0f775cb34a276d274f8ca33758e1bda2b60e6e223ab76880cdd3nat,
        0x62fdfc65aa21b0e924d13cf6be4839bd5ef11dce7642986b49d7d5a2c5dc6696nat,
    );
    lemma_pow_mod_square_times(
        0x62b478edb862f3497dcb4465c500b4a4dd3aa267d21a294850b48c999f485bd9nat,
        48106654819nat,
        modulus(),
        0x62fdfc65aa21b0e924d13cf6be4839bd5ef11dce7642986b49d7d5a2c5dc6696nat,
        0x20978c5f14f683010c7fa4b72b1286b9b79704a10025ff602e8e6b238d54d2f6ac4f7fa3eb88fb2694328ca78bd061b62299ee6daaf74af046ecf6e892aa5f4cnat,
        0x4acd4793f69dad6892720d3f89ba8711197128715b59581a50d4b77f87fc74f8nat,
    );
    lemma_pow_mod_square(
        0x62b478edb862f3497dcb4465c500b4a4dd3aa267d21a294850b48c999f485bd9nat,
        96213309639nat,
        modulus(),
        0x4acd4793f69dad6892720d3f89ba8711197128715b59581a50d4b77f87fc74f8nat,
        0x3043ed34ae0a2c125740110a59cadd2535d3e4f11e84803c63acad3c3d9924f3nat,
        0x1889bfc9875f4e705665fcf38021f0fa5c4f6534bb40d782b89f521ad0188b4dnat,
    );
    lemma_pow_mod_square_times(
        0x62b478edb862f3497dcb4465c500b4a4dd3aa267d21a294850b48c999f485bd9nat,
        192426619278nat,
        modulus(),
        0x1889bfc9875f4e705665fcf38021f0fa5c4f6534bb40d782b89f521ad0188b4dnat,
        0x200a955f919c3f05e8f5599f5aebd043d8a93f4e3c9b3cf00f71d0e4147589b35fb66866bb11465d9f0f3929c45cfe7c8e72f3fd132257918c0e808590956dfnat,
        0x38f5a1473c5baa984367f45f6cb165ce2032074cb35f9c91427d71aad359cbe2nat,
    );
    lemma_pow_mod_square(
        0x62b478edb862f3497dcb4465c500b4a4dd3aa267d21a294850b48c999f485bd9nat,
        384853238557nat,
        modulus(),
        0x38f5a1473c5baa984367f45f6cb165ce2032074cb35f9c91427d71aad359cbe2nat,
        0x1bfc720f579adfd2f5986c7bc4c3d03de579682eb156bafab25984ca1845fe40nat,
        0x442d2bb0a97a721d83d118c036337184d81f27c9709f2177b05deb33d93e3544nat,
    );
    lemma_pow_mod_square_times(
        0x62b478edb862f3497dcb4465c500b4a4dd3aa267d21a294850b48c999f485bd9nat,
        769706477114nat,
        modulus(),
        0x442d2bb0a97a721d83d118c036337184d81f27c9709f2177b05deb33d93e3544nat,
        0xf75799114dfa2d793a76c67ce65ac490236bca340aec86d174eb100a841fd19f25d3b1d9bc8eea939b8d0eed0bf0939a4b5ab989e852f68aecb970ade141b1anat,
        0x467e00fad1ac5fb021b399a3d4286aeb66c0468a0d05bf09081369af667dcc76nat,
    );
    lemma_pow_mod_square_times(
        0x62b478edb862f3497dcb4465c500b4a4dd3aa267d21a294850b48c999f485bd9nat,
        1539412954229nat,
        modulus(),
        0x467e00fad1ac5fb021b399a3d4286aeb66c0468a0d05bf09081369af667dcc76nat,
        0x1086e377f36131da39b355d4b397eef8baf2ad69b648243b40d695cf45d7eb776eec1ec5d7c93b7dde14b9c3362450545c70829e1b8747d8440253d478f5bb47nat,
        0xe6465814b4fcf6ae681754a5ce560098284d8409f707a1a56b4156939b37b7dnat,
    );
    lemma_pow_mod_square_times(
        0x62b478edb862f3497dcb4465c500b4a4dd3aa267d21a294850b48c999f485bd9nat,
        3078825908459nat,
        modulus(),
        0xe6465814b4fcf6ae681754a5ce560098284d8409f707a1a56b4156939b37b7dnat,
        0xb05c61971098109966d77ae7fcb70c1025446f2ceff9371b2b1e9026aa72a8d0f844335291db8716f6fe7d305f0506d42440c1de1ba8135ecdfc165c6ebe6cnat,
        0x4bc4293af46df77eea290feb42ff6034c8a676bc34b4dd025d367fdb31499f35nat,
    );
    lemma_pow_mod_square_times(
        0x62b478edb862f3497dcb4465c500b4a4dd3aa267d21a294850b48c999f485bd9nat,
        6157651816919nat,
        modulus(),
        0x4bc4293af46df77eea290feb42ff6034c8a676bc34b4dd025d367fdb31499f35nat,
        0x1317a929e4fca351ffe342c48082ff6fa0e4611dcfcf53cbf9eff46c68af7c4ebf52c455c9ad5347256c0bb80d7a0122c4c4e256a97d750cf345ade9ac597135nat,
        0xa57f715558c78602a3e1559d18986f9fe3f2a997b7265ce0ebf3761a941c4dcnat,
    );
    lemma_pow_mod_square_times(
        0x62b478edb862f3497dcb4465c500b4a4dd3aa267d21a294850b48c999f485bd9nat,
        12315303633839nat,
        modulus(),
        0xa57f715558c78602a3e1559d18986f9fe3f2a997b7265ce0ebf3761a941c4dcnat,
        0x5b184aecd3b1e6dc2de6b8f8c1e9ec2f34a8a84469041aec77b76f36dd37e071699cfdc0f6557cfe2e607a9ca957f2960be526449e947a63e0ca3ad45b7dc1nat,
        0x31c55b572df9abdad9775a2475ba8ce68473f647a4a67cd44d331cab67af54cfnat,
    );
    lemma_pow_mod_square_times(
        0x62b478edb862f3497dcb4465c500b4a4dd3aa267d21a294850b48c999f485bd9nat,
        24630607267679nat,
        modulus(),
        0x31c55b572df9abdad9775a2475ba8ce68473f647a4a67cd44d331cab67af54cfnat,
        0x83d1e2c499aeabac3f26343f2f563bcfa924acccc6a20d431f28bf7504cded34eaff358b63efe2bf8b83ed67a96156aae43db26cda99ef8290be956f25e3244nat,
        0x1d2f9690502122b0120eaa7499b1e84e87d14ecf36999383b50590991aa741f5nat,
    );
}

/// A power of the generator 7, from a lower one raised to the power 49261214535359.
proof fn power_modulus_13()
    ensures
        pow_mod(
            7,
            0x13b66655e90c50be1d92fa749887af395529c1816ed3bf00000000nat,
            modulus(),
        ) == 0x1d2f9690502122b0120eaa7499b1e84e87d14ecf36999383b50590991aa741f5nat,
{
    power_modulus_1();
    squarings_modulus_14_2();
    lemma_pow_mod_compose(
        7,
        0x70a2c2511e20378c8a52b7e00134b8fb0100000000nat,
        49261214535359nat,
        modulus(),
        0x62b478edb862f3497dcb4465c500b4a4dd3aa267d21a294850b48c999f485bd9nat,
        0x1d2f9690502122b0120eaa7499b1e84e87d14ecf36999383b50590991aa741f5nat,
    );
}

proof fn squarings_modulus_16_0()
    ensures
        pow_mod(
            0x1d2f9690502122b0120eaa7499b1e84e87d14ecf36999383b50590991aa741f5nat,
            80556,
            modulus(),
        ) == 0x188c1942d816fa173910d1ea3a672ee27b9a6a6c4d0144163585b0c4b3156c9fnat,
{
    lemma_pow_mod_start(
        0x1d2f9690502122b0120eaa7499b1e84e87d14ecf36999383b50590991aa741f5nat,
        modulus(),
    );
    lemma_pow_mod_square(
        0x1d2f9690502122b0120eaa7499b1e84e87d14ecf36999383b50590991aa741f5nat,
        1,
        modulus(),
        0x1d2f9690502122b0120eaa7499b1e84e87d14ecf36999383b50590991aa741f5nat,
        0x759084e4b1923d93d30fb85542b3562b03a667d42021ea2814615c763a12632nat,
        0x4d1af3b0d3707bd242ab1bf0a780c370f33e84a60cae2b6ef0d3edf17f032e47nat,
    );
    lemma_pow_mod_square(
        0x1d2f9690502122b0120eaa7499b1e84e87d14ecf36999383b50590991aa741f5nat,
        2,
        modulus(),
        0x4d1af3b0d3707bd242ab1bf0a780c370f33e84a60cae2b6ef0d3edf17f032e47nat,
        0x33489b261c4e7171a2f19927c458233ce42206f02b3111c5123ef0836f3410a7nat,
        0x71fac75b0006b8c8bce5ff27987f9798da5f4a5d71c5e9690cafdfc620d3870anat,
    );
    lemma_pow_mod_square_times(
        0x1d2f9690502122b0120eaa7499b1e84e87d14ecf36999383b50590991aa741f5nat,
        4,
        modulus(),
        0x71fac75b0006b8c8bce5ff27987f9798da5f4a5d71c5e9690cafdfc620d3870anat,
        0xcc6ad4e09277cb25227d29b1835eece8f0a721da0254b322e8c12b2a3c430a90be1efa77835f1a36180940ad058feab0d8c2b614017b0cee56840b64cdaaa1bnat,
        0x12d7929618bc830e2c857f523cc5ebaed643ce4f1713f927666ff13e8fb01599nat,
    );
    lemma_pow_mod_square_times(
        0x1d2f9690502122b0120eaa7499b1e84e87d14ecf36999383b50590991aa741f5nat,
        9,
        modulus(),
        0x12d7929618bc830e2c857f523cc5ebaed643ce4f1713f927666ff13e8fb01599nat,
        0x59615167a4d134bd876e4062a4fc84f6e82660f305e2c818aeb9723513345a5fa87e5dd4b8391a1400e9a00d4e04f242b2259896404a0ed77c4dba1bfcbdd3nat,
        0x493349778c97ca900f46529dc78905ccbe849707d9ddc7a78f2f866604d65852nat,
    );
    lemma_pow_mod_square_times(
        0x1d2f9690502122b0120eaa7499b1e84e87d14ecf36999383b50590991aa741f5nat,
        19,
        modulus(),
        0x493349778c97ca900f46529dc78905ccbe849707d9ddc7a78f2f866604d65852nat,
        0x544fe18c5b736aad2b3c06b634bc5a90ed7714a01dd0a7622df2a00315a4900d4fb6697e48fd09d5badc1bd60ac6014b92b8eb286d53c123223fe40d012d30fnat,
        0x1df4b598003dc9052f09ef2d1ae2139a50c2751688e2995553bdd26656997405nat,
    );
    lemma_pow_mod_square(
        0x1d2f9690502122b0120eaa7499b1e84e87d14ecf36999383b50590991aa741f5nat,
        39,
        modulus(),
        0x1df4b598003dc9052f09ef2d1ae2139a50c2751688e2995553bdd26656997405nat,
        0x7bd986ed55c1ad356295c41f59222ee98603b90a552873665f48b68061c6c67nat,
        0x718c2fe453c9a852d29acd49b87afeee6706399342fe0b80f75feea38721bb2nat,
    );
    lemma_pow_mod_square_times(
        0x1d2f9690502122b0120eaa7499b1e84e87d14ecf36999383b50590991aa741f5nat,
        78,
        modulus(),
        0x718c2fe453c9a852d29acd49b87afeee6706399342fe0b80f75feea38721bb2nat,
        0xcadee6a43a66544c1e5a0fe36b278eacefec4d507f05411fc5743093e2d9f70a1636fc4b298c4a70ed0ad697ab93639a747cbcba9da725d307290a9a2b6fenat,
        0x385c2b992bebcd041869e385528980018696670330a28fdd3639eeb20a6c7b96nat,
    );
    lemma_pow_mod_square(
        0x1d2f9690502122b0120eaa7499b1e84e87d14ecf36999383b50590991aa741f5nat,
        157,
        modulus(),
        0x385c2b992bebcd041869e385528980018696670330a28fdd3639eeb20a6c7b96nat,
        0x1b667072c0808fa82259f30273a933814edbdfa8d96de71b326d3d46f6fc4f41nat,
        0x1c0419aac74cad98591ab22fa239527f7f011e2f63772e0f4a6e7e32433d2ca3nat,
    );
    lemma_pow_mod_square_times(
        0x1d2f9690502122b0120eaa7499b1e84e87d14ecf36999383b50590991aa741f5nat,
        314,
        modulus(),
        0x1c0419aac74cad98591ab22fa239527f7f011e2f63772e0f4a6e7e32433d2ca3nat,
        0xc59aabce9530f37085288f7b5fecfeb89935d887eda7c82b09138c754a58b132ac7802cdcd30d11d5ae10359d2e7f1e64cdce725d8257f52ef3a234c5d7b52nat,
        0x5f0c9773c5b94faf01a853252b256edc5fd61b9aff3370dd0d18c0d5b87c890bnat,
    );
    lemma_pow_mod_square(
        0x1d2f9690502122b0120eaa7499b1e84e87d14ecf36999383b50590991aa741f5nat,
        629,
        modulus(),
        0x5f0c9773c5b94faf01a853252b256edc5fd61b9aff3370dd0d18c0d5b87c890bnat,
        0x4dee323ee5f3e01ef14f4a45138836627a8cbd7f4a6a04aa433f507135152258nat,
        0x4a65ab6e374fb3d8193bdf0a93e7198c4ad2d1f14ba38f8913a59fc9a6efa421nat,
    );
    lemma_pow_mod_square_times(
        0x1d2f9690502122b0120eaa7499b1e84e87d14ecf36999383b50590991aa741f5nat,
        1258,
        modulus(),
        0x4a65ab6e374fb3d8193bdf0a93e7198c4ad2d1f14ba38f8913a59fc9a6efa421nat,
        0x57176ed1031ec06581718bde038eae39c1d167ebdaeef112b26d146e0147c3d0eb8522bbaf35ba6b94b614f390dc94176bdc83fc9556bafe8cccffefe3c0950nat,
        0x7a2456877a91e87e3c1dc690f59ef82dd085dbe14dd672bd6b7b206c68871e5nat,
    );
    lemma_pow_mod_square(
        0x1d2f9690502122b0120eaa7499b1e84e87d14ecf36999383b50590991aa741f5nat,
        2517,
        modulus(),
        0x7a2456877a91e87e3c1dc690f59ef82dd085dbe14dd672bd6b7b206c68871e5nat,
        0x80b047f304dc92b5836e864f265de154bf43f7bbd7709eeb71f5c23609634fnat,
        0x7283a520786cc38f15f36eed6b6165be210f6bec0cd96f21a2bc91303bf2938anat,
    );
    lemma_pow_mod_square_times(
        0x1d2f9690502122b0120eaa7499b1e84e87d14ecf36999383b50590991aa741f5nat,
        5034,
        modulus(),
        0x7283a520786cc38f15f36eed6b6165be210f6bec0cd96f21a2bc91303bf2938anat,
        0xce56e8f92da12adb430a930847a05566a931e238bc5c421e17f5b02a6629a4df728e4fce0e627f8fcbedd0c71606d4518cb85369b3d72e419793c3b9eea303dnat,
        0x15d9e5ade80eb630cf1d0d4da152f9e21a69399b075d9c8afca1efd8102a1177nat,
    );
    lemma_pow_mod_square_times(
        0x1d2f9690502122b0120eaa7499b1e84e87d14ecf36999383b50590991aa741f5nat,
        10069,
        modulus(),
        0x15d9e5ade80eb630cf1d0d4da152f9e21a69399b075d9c8afca1efd8102a1177nat,
        0x78352db5f531c62d4650d4692131e03b0be0627f1f7d1850158400bdc97eaed885dab4176bd2102b24461a714db8a1cc667ecac5ccea1f7a4f6f056ff37fd6nat,
        0x1212bb2dbdb0ca87bb9c11ebca5f3d622ed2a2796d5446c7bcde69db46a327afnat,
    );
    lemma_pow_mod_square(
        0x1d2f9690502122b0120eaa7499b1e84e87d14ecf36999383b50590991aa741f5nat,
        20139,
        modulus(),
        0x1212bb2dbdb0ca87bb9c11ebca5f3d622ed2a2796d5446c7bcde69db46a327afnat,
        0x2d14e1775f35a44befc5a1d1df6fde7a775c7c3307e612d8f46bf86854deab9nat,
        0x21031b543845f89333f648b029ff36b8af4cfc03a934f42996bc404bbdb2dee8nat,
    );
    lemma_pow_mod_square(
        0x1d2f9690502122b0120eaa7499b1e84e87d14ecf36999383b50590991aa741f5nat,
        40278,
        modulus(),
        0x21031b543845f89333f648b029ff36b8af4cfc03a934f42996bc404bbdb2dee8nat,
        0x96690aa3d8803126c99e5d0724bbb491af7c7ad5cb4c7f5cbb04ae999a1c5a1nat,
        0x188c1942d816fa173910d1ea3a672ee27b9a6a6c4d0144163585b0c4b3156c9fnat,
    );
}

proof fn squarings_modulus_16_1()
    ensures
        pow_mod(
            0x1d2f9690502122b0120eaa7499b1e84e87d14ecf36999383b50590991aa741f5nat,
            2577801,
            modulus(),
        ) == 0x86fb27a35f67dd3f695a1e882f5bdb7c92d2f844520e02c83a6bcd031849292nat,
{
    squarings_modulus_16_0();
    lemma_pow_mod_square(
        0x1d2f9690502122b0120eaa7499b1e84e87d14ecf36999383b50590991aa741f5nat,
        80556,
        modulus(),
        0x188c1942d816fa173910d1ea3a672ee27b9a6a6c4d0144163585b0c4b3156c9fnat,
        0x532a096e62e76973fc3d80ac273f658d9d69b35a0b708c37eb6b23c2ee49355nat,
        0x6bcb67f2390d556a9954bc3ed5811a7cfcdbcc594fd4d4be8ed3cc422b47f76cnat,
    );
    lemma_pow_mod_square_times(
        0x1d2f9690502122b0120eaa7499b1e84e87d14ecf36999383b50590991aa741f5nat,
        161112,
        modulus(),
        0x6bcb67f2390d556a9954bc3ed5811a7cfcdbcc594fd4d4be8ed3cc422b47f76cnat,
        0xb6d582d681f8a1565675c055d82dbe45077ecf92c6bbf18d944215ea35a2f75b9860269b7f51c26cc1c3a3e354e9d3d51b319138edccca719e49079a5a8d129nat,
        0x21c2cd1f0f370a0e3bb18ecd5ed2bb4fa3c449b20855e6936207def4fc6ce1a7nat,
    );
    lemma_pow_mod_square(
        0x1d2f9690502122b0120eaa7499b1e84e87d14ecf36999383b50590991aa741f5nat,
        322225,
        modulus(),
        0x21c2cd1f0f370a0e3bb18ecd5ed2bb4fa3c449b20855e6936207def4fc6ce1a7nat,
        0x9d4fa795f974d84649c16e9e9065a7f872cf357bd9f6420b207e1dfd5055172nat,
        0x3e881ab4299e1cdb02f77a858f9fc35c68245252db4d0bf255f1c47a1ec9a97fnat,
    );
    lemma_pow_mod_square(
        0x1d2f9690502122b0120eaa7499b1e84e87d14ecf36999383b50590991aa741f5nat,
        644450,
        modulus(),
        0x3e881ab4299e1cdb02f77a858f9fc35c68245252db4d0bf255f1c47a1ec9a97fnat,
        0x21bac27367d53684ff3fd94646e1108c3779d90c84fb6dd64eaab1973a932511nat,
        0x4507bbf3731eca71b15e684e58f1d02d1bf8f446d478c6938a7a5b1b2313c7f0nat,
    );
    lemma_pow_mod_square_times(
        0x1d2f9690502122b0120eaa7499b1e84e87d14ecf36999383b50590991aa741f5nat,
        1288900,
        modulus(),
        0x4507bbf3731eca71b15e684e58f1d02d1bf8f446d478c6938a7a5b1b2313c7f0nat,
        0x4afab805f1b20b45ec200690146ea103edccf97b7279e80e0a136dfb059773b9ebe144c59a467394215ee11295108d70426d8184481bc87dae8fabeb830626enat,
        0x86fb27a35f67dd3f695a1e882f5bdb7c92d2f844520e02c83a6bcd031849292nat,
    );
}

/// A power of the generator 7, from a lower one raised to the power 2577801.
proof fn power_modulus_15()
    ensures
        pow_mod(
            7,
            0x3075fb3adcb3b1b5cd6f3c893fbb65f86c851eb506a52b6bc3700000000nat,
            modulus(),
        ) == 0x86fb27a35f67dd3f695a1e882f5bdb7c92d2f844520e02c83a6bcd031849292nat,
{
    power_modulus_13();
    squarings_modulus_16_1();
    lemma_pow_mod_compose(
        7,
        0x13b66655e90c50be1d92fa749887af395529c1816ed3bf00000000nat,
        2577801,
        modulus(),
        0x1d2f9690502122b0120eaa7499b1e84e87d14ecf36999383b50590991aa741f5nat,
        0x86fb27a35f67dd3f695a1e882f5bdb7c92d2f844520e02c83a6bcd031849292nat,
    );
}

proof fn squarings_modulus_18_0()
    ensures
        pow_mod(
            0x1d2f9690502122b0120eaa7499b1e84e87d14ecf36999383b50590991aa741f5nat,
            78387,
            modulus(),
        ) == 0x37aaa0fdf8d602c9f49d9caad31f8b0c572f2fcbcb0984b560f732aaab7e1f28nat,
{
    lemma_pow_mod_start(
        0x1d2f9690502122b0120eaa7499b1e84e87d14ecf36999383b50590991aa741f5nat,
        modulus(),
    );
    lemma_pow_mod_square(
        0x1d2f9690502122b0120eaa7499b1e84e87d14ecf36999383b50590991aa741f5nat,
        1,
        modulus(),
        0x1d2f9690502122b0120eaa7499b1e84e87d14ecf36999383b50590991aa741f5nat,
        0x759084e4b1923d93d30fb85542b3562b03a667d42021ea2814615c763a12632nat,
        0x4d1af3b0d3707bd242ab1bf0a780c370f33e84a60cae2b6ef0d3edf17f032e47nat,
    );
    lemma_pow_mod_square(
        0x1d2f9690502122b0120eaa7499b1e84e87d14ecf36999383b50590991aa741f5nat,
        2,
        modulus(),
        0x4d1af3b0d3707bd242ab1bf0a780c370f33e84a60cae2b6ef0d3edf17f032e47nat,
        0x33489b261c4e7171a2f19927c458233ce42206f02b3111c5123ef0836f3410a7nat,
        0x71fac75b0006b8c8bce5ff27987f9798da5f4a5d71c5e9690cafdfc620d3870anat,
    );
    lemma_pow_mod_square_times(
        0x1d2f9690502122b0120eaa7499b1e84e87d14ecf36999383b50590991aa741f5nat,
        4,
        modulus(),
        0x71fac75b0006b8c8bce5ff27987f9798da5f4a5d71c5e9690cafdfc620d3870anat,
        0xcc6ad4e09277cb25227d29b1835eece8f0a721da0254b322e8c12b2a3c430a90be1efa77835f1a36180940ad058feab0d8c2b614017b0cee56840b64cdaaa1bnat,
        0x12d7929618bc830e2c857f523cc5ebaed643ce4f1713f927666ff13e8fb01599nat,
    );
    lemma_pow_mod_square_times(
        0x1d2f9690502122b0120eaa7499b1e84e87d14ecf36999383b50590991aa741f5nat,
        9,
        modulus(),
        0x12d7929618bc830e2c857f523cc5ebaed643ce4f1713f927666ff13e8fb01599nat,
        0x59615167a4d134bd876e4062a4fc84f6e82660f305e2c818aeb9723513345a5fa87e5dd4b8391a1400e9a00d4e04f242b2259896404a0ed77c4dba1bfcbdd3nat,
        0x493349778c97ca900f46529dc78905ccbe849707d9ddc7a78f2f866604d65852nat,
    );
    lemma_pow_mod_square(
        0x1d2f9690502122b0120eaa7499b1e84e87d14ecf36999383b50590991aa741f5nat,
        19,
        modulus(),
        0x493349778c97ca900f46529dc78905ccbe849707d9ddc7a78f2f866604d65852nat,
        0x2e388058b0616037eaa78b81dff27b1d96b7caa4153205826f3426aa10309917nat,
        0x1bfc81c6109964ff5678f4da795b5c739f593eb6cd536052ea7411ff475fe12dnat,
    );
    lemma_pow_mod_square(
        0x1d2f9690502122b0120eaa7499b1e84e87d14ecf36999383b50590991aa741f5nat,
        38,
        modulus(),
        0x1bfc81c6109964ff5678f4da795b5c739f593eb6cd536052ea7411ff475fe12dnat,
        0x6c196ecaf65031bafb71c795ae1ba6bbde1fdd82e2f7f32631b0d84a3f3cd0bnat,
        0x2fb7c9e041212fe528a04b960784c114275bea1c8bd944c59671a3fc378254denat,
    );
    lemma_pow_mod_square_times(
        0x1d2f9690502122b0120eaa7499b1e84e87d14ecf36999383b50590991aa741f5nat,
        76,
        modulus(),
        0x2fb7c9e041212fe528a04b960784c114275bea1c8bd944c59671a3fc378254denat,
        0x23d40ce34901c29b47b19bdf8543ce70a77f839468700b6c464b3fdb480c21a7c799c7314a0fbd7359785e8fa67a743978736230872517d2370c7f12e625757nat,
        0x5214e1055e6c68e742588bd904be10c3f439a7d987216c0d3bec468dcf18dafdnat,
    );
    lemma_pow_mod_square(
        0x1d2f9690502122b0120eaa7499b1e84e87d14ecf36999383b50590991aa741f5nat,
        153,
        modulus(),
        0x5214e1055e6c68e742588bd904be10c3f439a7d987216c0d3bec468dcf18dafdnat,
        0x3a1de5b7419a5c7f236c471adba73c243165a51cb45954a41039bfa7858a1647nat,
        0x4f86ecae0116d8fbcac28f6123eced49665a0d7540d9d990367521e06b39c7c2nat,
    );
    lemma_pow_mod_square(
        0x1d2f9690502122b0120eaa7499b1e84e87d14ecf36999383b50590991aa741f5nat,
        306,
        modulus(),
        0x4f86ecae0116d8fbcac28f6123eced49665a0d7540d9d990367521e06b39c7c2nat,
        0x368e426674d958c6d907b9e01bb2a489aac1a2d11e666354f3aeaacc68071b4anat,
        0xa63dcfb1913302fd394fefa397bbe5f82b7356acb7a6c789b336204543c13banat,
    );
    lemma_pow_mod_square(
        0x1d2f9690502122b0120eaa7499b1e84e87d14ecf36999383b50590991aa741f5nat,
        612,
        modulus(),
        0xa63dcfb1913302fd394fefa397bbe5f82b7356acb7a6c789b336204543c13banat,
        0xee63fb53a8de731ba0646badee4176a780f21e1373818fcfb138a602889e09nat,
        0x267bc40c3f17fdb105ba52c290b2d1bf189d3edbc58e27e307a5e63e4e2c851bnat,
    );
    lemma_pow_mod_square_times(
        0x1d2f9690502122b0120eaa7499b1e84e87d14ecf36999383b50590991aa741f5nat,
        1224,
        modulus(),
        0x267bc40c3f17fdb105ba52c290b2d1bf189d3edbc58e27e307a5e63e4e2c851bnat,
        0x174d909c42eced50572a43cdff7a290350b94faa988151347b637c76024950cb151adc9fb6d6255cdbec2f6fb2725d95ec5720344925b42302c33f0bf73dd74nat,
        0x4f09fab257815fb7e06824bbde21583b61d91911746680eb0df840d543135b39nat,
    );
    lemma_pow_mod_square_times(
        0x1d2f9690502122b0120eaa7499b1e84e87d14ecf36999383b50590991aa741f5nat,
        2449,
        modulus(),
        0x4f09fab257815fb7e06824bbde21583b61d91911746680eb0df840d543135b39nat,
        0x624c5e0b05a3ffe35be52d7500a91a9ccb3ede6e7d548d77039a2b03d2de2b18cf5808f4d6f70761803ac75b9fa91a34a35f80657d3c462bc0b0793e85e6f34nat,
        0x446abf334bc742de5fbcfb2def3cfdb9aa6a73fd66f3920e73d85a5a0c46e531nat,
    );
    lemma_pow_mod_square(
        0x1d2f9690502122b0120eaa7499b1e84e87d14ecf36999383b50590991aa741f5nat,
        4899,
        modulus(),
        0x446abf334bc742de5fbcfb2def3cfdb9aa6a73fd66f3920e73d85a5a0c46e531nat,
        0x28609c64aa2806fd4970f7adff41f6744c3153e1ccc5cef1f7a482fd8f827299nat,
        0x6fa4fb6078ca34789d587913cb6856edafba27a89976f9dbdc24432e2c7a40c8nat,
    );
    lemma_pow_mod_square(
        0x1d2f9690502122b0120eaa7499b1e84e87d14ecf36999383b50590991aa741f5nat,
        9798,
        modulus(),
        0x6fa4fb6078ca34789d587913cb6856edafba27a89976f9dbdc24432e2c7a40c8nat,
        0x6b84d5d8406cfeb2f991e8af85fb5f3b11d3a6b333905a9dbdc2acc47b88bcfenat,
        0xcb267fb43d2bdf7cb30db4ff42b0d4396550124626b82aab79848c0137bdf42nat,
    );
    lemma_pow_mod_square_times(
        0x1d2f9690502122b0120eaa7499b1e84e87d14ecf36999383b50590991aa741f5nat,
        19596,
        modulus(),
        0xcb267fb43d2bdf7cb30db4ff42b0d4396550124626b82aab79848c0137bdf42nat,
        0x2896131a4df8a3f5a3633def7c2bb35fa5dcbceddb16423d80b55346a165ead9ef63f0bf1731d7f23c842d526d11b78cbaa87ab8c69ee24b33335ffd717759nat,
        0x4f801d6d06ee9bc58e4126dc3ca06272100f18d1227067aa236880f32225017bnat,
    );
    lemma_pow_mod_square_times(
        0x1d2f9690502122b0120eaa7499b1e84e87d14ecf36999383b50590991aa741f5nat,
        39193,
        modulus(),
        0x4f801d6d06ee9bc58e4126dc3ca06272100f18d1227067aa236880f32225017bnat,
        0x63731183538fa94c4cf13db864fdb0de098b1bb6937506287dda2c720adb230a48dc1068c4999a7d406d09e657a1d43c5beebdb1efe01f0ea29feedf94736c5nat,
        0x37aaa0fdf8d602c9f49d9caad31f8b0c572f2fcbcb0984b560f732aaab7e1f28nat,
    );
}

proof fn squarings_modulus_18_1()
    ensures
        pow_mod(
            0x1d2f9690502122b0120eaa7499b1e84e87d14ecf36999383b50590991aa741f5nat,
            2508409,
            modulus(),
        ) == 0x120e06d65696c72fca6ea2adea7613122a8c978d8e53552cba9835ba9162261cnat,
{
    squarings_modulus_18_0();
    lemma_pow_mod_square_times(
        0x1d2f9690502122b0120eaa7499b1e84e87d14ecf36999383b50590991aa741f5nat,
        78387,
        modulus(),
        0x37aaa0fdf8d602c9f49d9caad31f8b0c572f2fcbcb0984b560f732aaab7e1f28nat,
        0x30c235af20dbca8c104b20ae28168c7cc132c5a67f182b0a05c3fa0e0899201bcf0be79454ae69e360eefe86f306b1acc9340761f7489241bff903b635f846fnat,
        0x68c6cdd97f0b1bb4498520bde05d6a39bc1d241d4ceef50b7dd7ba24ac8726d1nat,
    );
    lemma_pow_mod_square_times(
        0x1d2f9690502122b0120eaa7499b1e84e87d14ecf36999383b50590991aa741f5nat,
        156775,
        modulus(),
        0x68c6cdd97f0b1bb4498520bde05d6a39bc1d241d4ceef50b7dd7ba24ac8726d1nat,
        0xacbd53b0a39f453ca7867ecb3b141d520388e66e94b782797717c6b8c60eb09b878ef7e4fc8e9046b94612ea7321e05aa35a4f29a7fcf4937273125adec058cnat,
        0x4e4d3c72f6b45d73a3f53cc8c46a3be8c1c5291d762aa9d1e60a03ccc0b8a389nat,
    );
    lemma_pow_mod_square(
        0x1d2f9690502122b0120eaa7499b1e84e87d14ecf36999383b50590991aa741f5nat,
        313551,
        modulus(),
        0x4e4d3c72f6b45d73a3f53cc8c46a3be8c1c5291d762aa9d1e60a03ccc0b8a389nat,
        0x34e33181adfd3f9cb42d214e184a2217284d1c3dd916505d76b6e7a77a964ce0nat,
        0x54efaba28702a985ddddbf56629e6b51d72b66a64f09906b01c2b80982d17271nat,
    );
    lemma_pow_mod_square(
        0x1d2f9690502122b0120eaa7499b1e84e87d14ecf36999383b50590991aa741f5nat,
        627102,
        modulus(),
        0x54efaba28702a985ddddbf56629e6b51d72b66a64f09906b01c2b80982d17271nat,
        0x3e3abf58d118c09e16b4d7cefb66e729bb565c8c2cb5ea09dd6661d2ea977dc8nat,
        0x2c0f228934137d538c4326a876fc8507ec45f16b712874c4ec8afb7de9135819nat,
    );
    lemma_pow_mod_square_times(
        0x1d2f9690502122b0120eaa7499b1e84e87d14ecf36999383b50590991aa741f5nat,
        1254204,
        modulus(),
        0x2c0f228934137d538c4326a876fc8507ec45f16b712874c4ec8afb7de9135819nat,
        0x1e8b6d9f2ceba2633c74051f19dc2b7b39e44649d42a5eefb279c9e613a700e624d1254eebfe15a57060bdb44621a74ca234abc1799e4bece23606bef06d109nat,
        0x120e06d65696c72fca6ea2adea7613122a8c978d8e53552cba9835ba9162261cnat,
    );
}

/// A power of the generator 7, from a lower one raised to the power 2508409.
proof fn power_modulus_17()
    ensures
        pow_mod(
            7,
            0x2f28061f27428811e89c35842e6f5348e239564dc4de9a24f4700000000nat,
            modulus(),
        ) == 0x120e06d65696c72fca6ea2adea7613122a8c978d8e53552cba9835ba9162261cnat,
{
    power_modulus_13();
    squarings_modulus_18_1();
    lemma_pow_mod_compose(
        7,
        0x13b66655e90c50be1d92fa749887af395529c1816ed3bf00000000nat,
        2508409,
        modulus(),
        0x1d2f9690502122b0120eaa7499b1e84e87d14ecf36999383b50590991aa741f5nat,
        0x120e06d65696c72fca6ea2adea7613122a8c978d8e53552cba9835ba9162261cnat,
    );
}

proof fn squarings_modulus_20_0()
    ensures
        pow_mod(
            0x120e06d65696c72fca6ea2adea7613122a8c978d8e53552cba9835ba9162261cnat,
            3,
            modulus(),
        ) == 0x672315bde95b3660335e8a5dcace029b6404f0331eae7401fa8c8374cd50438dnat,
{
    lemma_pow_mod_start(
        0x120e06d65696c72fca6ea2adea7613122a8c978d8e53552cba9835ba9162261cnat,
        modulus(),
    );
    lemma_pow_mod_square_times(
        0x120e06d65696c72fca6ea2adea7613122a8c978d8e53552cba9835ba9162261cnat,
        1,
        modulus(),
        0x120e06d65696c72fca6ea2adea7613122a8c978d8e53552cba9835ba9162261cnat,
        0x32c48ad538743588c65a9c22671a2bbff096a27a82d21e498a8df8cc2cd651b935a2db680d3ff92a57a612021f2efb58ce813f2ae952d5df8168d1fa3d3233nat,
        0x672315bde95b3660335e8a5dcace029b6404f0331eae7401fa8c8374cd50438dnat,
    );
}

/// A power of the generator 7, from a lower one raised to the power 3.
proof fn power_modulus_19()
    ensures
        pow_mod(
            7,
            0x8d78125d75c79835b9d4a08c8b4df9daa6ac02e94e9bce6edd500000000nat,
            modulus(),
        ) == 0x672315bde95b3660335e8a5dcace029b6404f0331eae7401fa8c8374cd50438dnat,
{
    power_modulus_17();
    squarings_modulus_20_0();
    lemma_pow_mod_compose(
        7,
        0x2f28061f27428811e89c35842e6f5348e239564dc4de9a24f4700000000nat,
        3,
        modulus(),
        0x120e06d65696c72fca6ea2adea7613122a8c978d8e53552cba9835ba9162261cnat,
        0x672315bde95b3660335e8a5dcace029b6404f0331eae7401fa8c8374cd50438dnat,
    );
}

proof fn squarings_modulus_22_0()
    ensures
        pow_mod(
            0x120e06d65696c72fca6ea2adea7613122a8c978d8e53552cba9835ba9162261cnat,
            107408,
            modulus(),
        ) == 0x333403f9f049e7a26729c397e1dcbf20de1066958d6e7b88e09589fd6443df94nat,
{
    lemma_pow_mod_start(
        0x120e06d65696c72fca6ea2adea7613122a8c978d8e53552cba9835ba9162261cnat,
        modulus(),
    );
    lemma_pow_mod_square_times(
        0x120e06d65696c72fca6ea2adea7613122a8c978d8e53552cba9835ba9162261cnat,
        1,
        modulus(),
        0x120e06d65696c72fca6ea2adea7613122a8c978d8e53552cba9835ba9162261cnat,
        0x32c48ad538743588c65a9c22671a2bbff096a27a82d21e498a8df8cc2cd651b935a2db680d3ff92a57a612021f2efb58ce813f2ae952d5df8168d1fa3d3233nat,
        0x672315bde95b3660335e8a5dcace029b6404f0331eae7401fa8c8374cd50438dnat,
    );
    lemma_pow_mod_square(
        0x120e06d65696c72fca6ea2adea7613122a8c978d8e53552cba9835ba9162261cnat,
        3,
        modulus(),
        0x672315bde95b3660335e8a5dcace029b6404f0331eae7401fa8c8374cd50438dnat,
        0x5bc1d33c079fa7019f99c8cb5219f8f4cfb71f10c3245f7b10a9eb2788deb686nat,
        0xac5c95efc5481af383ec407c3f47fc34cede869d9e7c7098f5f68093146523nat,
    );
    lemma_pow_mod_square_times(
        0x120e06d65696c72fca6ea2adea7613122a8c978d8e53552cba9835ba9162261cnat,
        6,
        modulus(),
        0xac5c95efc5481af383ec407c3f47fc34cede869d9e7c7098f5f68093146523nat,
        0x1212d661619b189fbcd2d65d3b883e8ace5c7d45072d839e56cc69e7620405fdc2870e9338df62711c6661c327ed2ecc5fca05391d56480d41dad4fff675nat,
        0x599b1db478dcb5919ec6b14fa3ba3e32af85538d244556430400e6f4c4fdad87nat,
    );
    lemma_pow_mod_square(
        0x120e06d65696c72fca6ea2adea7613122a8c978d8e53552cba9835ba9162261cnat,
        13,
        modulus(),
        0x599b1db478dcb5919ec6b14fa3ba3e32af85538d244556430400e6f4c4fdad87nat,
        0x45429d63bd917076a4acdbdefc8f4a9aa6802e1232d2b111159e25b52d6b32b7nat,
        0x2f36d12e462e0385d3c8957bb1d6bd3a863fad08761515713ec3d770fd0a8a7anat,
    );
    lemma_pow_mod_square(
        0x120e06d65696c72fca6ea2adea7613122a8c978d8e53552cba9835ba9162261cnat,
        26,
        modulus(),
        0x2f36d12e462e0385d3c8957bb1d6bd3a863fad08761515713ec3d770fd0a8a7anat,
        0x133a98ff89609967ecd71e966d1134bb1e9f29a1d6f9d72d1fdc9d3ab15bba84nat,
        0x1ca5cce7f25f02c25acea6081d9df1e77e74caa76c4ae84db74b0a2d8f1407a0nat,
    );
    lemma_pow_mod_square(
        0x120e06d65696c72fca6ea2adea7613122a8c978d8e53552cba9835ba9162261cnat,
        52,
        modulus(),
        0x1ca5cce7f25f02c25acea6081d9df1e77e74caa76c4ae84db74b0a2d8f1407a0nat,
        0x7144b3868a0632012303c41669bd855351e34148e55a1d464788db954e4328anat,
        0x2e55878844ec55d33c7ae586bf22c6ba16522d2d6ff82c9b55c635269c55f176nat,
    );
    lemma_pow_mod_square_times(
        0x120e06d65696c72fca6ea2adea7613122a8c978d8e53552cba9835ba9162261cnat,
        104,
        modulus(),
        0x2e55878844ec55d33c7ae586bf22c6ba16522d2d6ff82c9b55c635269c55f176nat,
        0x14e5a3190213cc1bdc71fde7393f833a0e2a4f5b9bd85bec970efc58f04d81cb13b35309ad330bfd86620c4476ec9bc9d836f714b3e12f504c77890ab522cd8nat,
        0x1d7a8852ea82b21a7c1e8367e77bf7e57bf3ffe00d6915cbc13c748b068f6e18nat,
    );
    lemma_pow_mod_square_times(
        0x120e06d65696c72fca6ea2adea7613122a8c978d8e53552cba9835ba9162261cnat,
        209,
        modulus(),
        0x1d7a8852ea82b21a7c1e8367e77bf7e57bf3ffe00d6915cbc13c748b068f6e18nat,
        0x8756605a413686e6abe53534e1eca8bb89a46c32e59aa158844aa3c0b2a69f240c18b004f67dede4e944f651abb08712af5a1a7453661734e0d67c472c3fdenat,
        0x53eac8ef7f7c998be2ac49e007a6f5a3deae1d01e8090e5d6f573944a9daff22nat,
    );
    lemma_pow_mod_square_times(
        0x120e06d65696c72fca6ea2adea7613122a8c978d8e53552cba9835ba9162261cnat,
        419,
        modulus(),
        0x53eac8ef7f7c998be2ac49e007a6f5a3deae1d01e8090e5d6f573944a9daff22nat,
        0x448bdb8b5f1348e4fa529d4e3444561ec81c67c2eba1167afc6d52c58a5095780069e710f89a97293b18350a4f1ee2195632350ef408dde11012abf88ff57fenat,
        0x514bb4cb18f65144f365242c0e7bd5581f5bc866b2752bc055ac060cf7014e72nat,
    );
    lemma_pow_mod_square(
        0x120e06d65696c72fca6ea2adea7613122a8c978d8e53552cba9835ba9162261cnat,
        839,
        modulus(),
        0x514bb4cb18f65144f365242c0e7bd5581f5bc866b2752bc055ac060cf7014e72nat,
        0x390262ac95ccd90a783581c70af0b488ebcee0e100dd0c68926615e5a7efaa2dnat,
        0x5f7af4ef80ae6d8a8144be9b8546c42fa1118f9558c5e2bf58d9cc5908fe0097nat,
    );
    lemma_pow_mod_square(
        0x120e06d65696c72fca6ea2adea7613122a8c978d8e53552cba9835ba9162261cnat,
        1678,
        modulus(),
        0x5f7af4ef80ae6d8a8144be9b8546c42fa1118f9558c5e2bf58d9cc5908fe0097nat,
        0x4ea3952795f4c19daf0b8d373d4f7f6b78b61a095a0dfa0100ccf592118d42d0nat,
        0x19eace7953062d0e70cd51d2568c8f2ae43fe1855e9ce003f29c3a4a8a171641nat,
    );
    lemma_pow_mod_square_times(
        0x120e06d65696c72fca6ea2adea7613122a8c978d8e53552cba9835ba9162261cnat,
        3356,
        modulus(),
        0x19eace7953062d0e70cd51d2568c8f2ae43fe1855e9ce003f29c3a4a8a171641nat,
        0x689c8c2a3eff3e69fa9b53a196be3f415d930eb4885f975ef274b008bd3f474fa64f8b9c3b69c99781ea71e534f27f808e3e9426fab85946fc2f5061f89e6enat,
        0x2f108567c6c73265b80f322a89e5e553095d521f32ba07c6eeaa52c98c9725aenat,
    );
    lemma_pow_mod_square(
        0x120e06d65696c72fca6ea2adea7613122a8c978d8e53552cba9835ba9162261cnat,
        6713,
        modulus(),
        0x2f108567c6c73265b80f322a89e5e553095d521f32ba07c6eeaa52c98c9725aenat,
        0x131b7415148d2d2f44acabf8736741730d3743c7dc56856dfe8731478e4ab9e4nat,
        0x5cd0eb49c6aa2213077b226cf41cc91ccaabc1e99008c272098dd64c3a850860nat,
    );
    lemma_pow_mod_square(
        0x120e06d65696c72fca6ea2adea7613122a8c978d8e53552cba9835ba9162261cnat,
        13426,
        modulus(),
        0x5cd0eb49c6aa2213077b226cf41cc91ccaabc1e99008c272098dd64c3a850860nat,
        0x4a4fc8bda1549a9ea5ae8bf2e1c6d5f4961fd8d426b3d7e95eb3e375895e80a6nat,
        0x63040bf169c76bb63df96860c2ab10388c7ddab13115335d5ac8a31daaa7a35anat,
    );
    lemma_pow_mod_square(
        0x120e06d65696c72fca6ea2adea7613122a8c978d8e53552cba9835ba9162261cnat,
        26852,
        modulus(),
        0x63040bf169c76bb63df96860c2ab10388c7ddab13115335d5ac8a31daaa7a35anat,
        0x549213912bbb7ee627adb47d739f68e1a1795034036265bb61987d42295f39d2nat,
        0x221a2b7e14824851d118035e6860f9bc46e1452dee5fb448e2296dade64881d2nat,
    );
    lemma_pow_mod_square(
        0x120e06d65696c72fca6ea2adea7613122a8c978d8e53552cba9835ba9162261cnat,
        53704,
        modulus(),
        0x221a2b7e14824851d118035e6860f9bc46e1452dee5fb448e2296dade64881d2nat,
        0xa081f804b6030c28bd594e8927f2e308938d6effbb3ee4784128e553bb170b0nat,
        0x333403f9f049e7a26729c397e1dcbf20de1066958d6e7b88e09589fd6443df94nat,
    );
}

proof fn squarings_modulus_22_1()
    ensures
        pow_mod(
            0x120e06d65696c72fca6ea2adea7613122a8c978d8e53552cba9835ba9162261cnat,
            859267,
            modulus(),
        ) == 0xac45a4010001a40200000000ffffffffnat,
{
    squarings_modulus_22_0();
    lemma_pow_mod_square(
        0x120e06d65696c72fca6ea2adea7613122a8c978d8e53552cba9835ba9162261cnat,
        107408,
        modulus(),
        0x333403f9f049e7a26729c397e1dcbf20de1066958d6e7b88e09589fd6443df94nat,
        0x169d8b2d0b5635d402c5e44b682107dbf79acf9c778ba0e6818bdfb35f50dffbnat,
        0xe1776fe55a190af6c977c9d2781636c0e23d2bb5fbd5e6d1ac66b7a0b6a4d95nat,
    );
    lemma_pow_mod_square_times(
        0x120e06d65696c72fca6ea2adea7613122a8c978d8e53552cba9835ba9162261cnat,
        214816,
        modulus(),
        0xe1776fe55a190af6c977c9d2781636c0e23d2bb5fbd5e6d1ac66b7a0b6a4d95nat,
        0x1eed1e46acf688eccb5b999e7095308622bc3ae5edce25128f49484257e1cd633e77ffb4a3a4466e218f731a89e1b678c5473efc653b63646e7a29f773dfa4nat,
        0x4b24d94dc24f540c1abdfcf7c8885b778218b13d18a485f2fc4952c25a8cca98nat,
    );
    lemma_pow_mod_square_times(
        0x120e06d65696c72fca6ea2adea7613122a8c978d8e53552cba9835ba9162261cnat,
        429633,
        modulus(),
        0x4b24d94dc24f540c1abdfcf7c8885b778218b13d18a485f2fc4952c25a8cca98nat,
        0x36f68a9445684f939513583b4fe54a05f31a404907284accba5d44b1d470ea15a04fef4bb362d78d623f287836b88950bb4fa94a4975676006013b5055bdf01nat,
        0xac45a4010001a40200000000ffffffffnat,
    );
}

/// A power of the generator 7, from a lower one raised to the power 859267.
proof fn power_modulus_21()
    ensures
        pow_mod(
            7,
            0x26a48d1bb889d46d66689d580335f2ac713f36abaaaa1eaa5555555500000000nat,
            modulus(),
        ) == 0xac45a4010001a40200000000ffffffffnat,
{
    power_modulus_17();
    squarings_modulus_22_1();
    lemma_pow_mod_compose(
        7,
        0x2f28061f27428811e89c35842e6f5348e239564dc4de9a24f4700000000nat,
        859267,
        modulus(),
        0x120e06d65696c72fca6ea2adea7613122a8c978d8e53552cba9835ba9162261cnat,
        0xac45a4010001a40200000000ffffffffnat,
    );
}

proof fn squarings_modulus_24_0()
    ensures
        pow_mod(
            0x36fb34ca1cf1bdf3cfcae97d3d3292f63e19c2f2cf2ab065378f4171e23ad3a2nat,
            67451,
            modulus(),
        ) == 0x4310eeab2ec34f98c6d722b5b1c9af06af40d0e012a9adaa2810fc9d72ffa9d0nat,
{
    lemma_pow_mod_start(
        0x36fb34ca1cf1bdf3cfcae97d3d3292f63e19c2f2cf2ab065378f4171e23ad3a2nat,
        modulus(),
    );
    lemma_pow_mod_square(
        0x36fb34ca1cf1bdf3cfcae97d3d3292f63e19c2f2cf2ab065378f4171e23ad3a2nat,
        1,
        modulus(),
        0x36fb34ca1cf1bdf3cfcae97d3d3292f63e19c2f2cf2ab065378f4171e23ad3a2nat,
        0x1a1370ee76fb87a88011c1434380d5674af5f4a0da45c55598476da8995cf9canat,
        0x4251124e16f712ac26f2b25a73c71a62432da1a7d0ead4246b64905402ff78banat,
    );
    lemma_pow_mod_square(
        0x36fb34ca1cf1bdf3cfcae97d3d3292f63e19c2f2cf2ab065378f4171e23ad3a2nat,
        2,
        modulus(),
        0x4251124e16f712ac26f2b25a73c71a62432da1a7d0ead4246b64905402ff78banat,
        0x25efb769699c6d7deaaf1a9c9af1cbeb12a36e14225f3b80e6c01d46dab39d41nat,
        0x3ba4f5ae6d6af8788251faac796c0ba9b511b861866bacca20c4f6dec8c749e3nat,
    );
    lemma_pow_mod_square(
        0x36fb34ca1cf1bdf3cfcae97d3d3292f63e19c2f2cf2ab065378f4171e23ad3a2nat,
        4,
        modulus(),
        0x3ba4f5ae6d6af8788251faac796c0ba9b511b861866bacca20c4f6dec8c749e3nat,
        0x1eafc7c977ed3bcfa755fb5a707321d7b73000d994be8d053991d4dcb7208674nat,
        0x10534a5cd3bee77dbe275e4171f48c87ebc42ab86b7befe93a4319e1ed1cb8d5nat,
    );
    lemma_pow_mod_square(
        0x36fb34ca1cf1bdf3cfcae97d3d3292f63e19c2f2cf2ab065378f4171e23ad3a2nat,
        8,
        modulus(),
        0x10534a5cd3bee77dbe275e4171f48c87ebc42ab86b7befe93a4319e1ed1cb8d5nat,
        0x24c8a1720749e0626154eae7e323318b65391d6862889c40b1be82a2a068a85nat,
        0x2c7c521b83c20f7c72ea538e7a362ee70cf71b1542a14f20a69d54382c0456b4nat,
    );
    lemma_pow_mod_square(
        0x36fb34ca1cf1bdf3cfcae97d3d3292f63e19c2f2cf2ab065378f4171e23ad3a2nat,
        16,
        modulus(),
        0x2c7c521b83c20f7c72ea538e7a362ee70cf71b1542a14f20a69d54382c0456b4nat,
        0x11121596de5bf894e6e3a90acb11bd41ed4414ac88cfeb0a83a7c4fc258e121dnat,
        0x5ab33e843486a943946a636f774c174589256d7104cecc088d0bd9c18d6f5c73nat,
    );
    lemma_pow_mod_square_times(
        0x36fb34ca1cf1bdf3cfcae97d3d3292f63e19c2f2cf2ab065378f4171e23ad3a2nat,
        32,
        modulus(),
        0x5ab33e843486a943946a636f774c174589256d7104cecc088d0bd9c18d6f5c73nat,
        0xf3d9696318b432d5a167389d308380071b9424fb4558720ac8ccddbfc916f80c71449fd096f575a396ff51d3f0088c263cd66e7b56cb163371f416f66344101nat,
        0x4b488cb669c51884034ddae61974543abdf638f1a0e3f4137db4deb141650af1nat,
    );
    lemma_pow_mod_square_times(
        0x36fb34ca1cf1bdf3cfcae97d3d3292f63e19c2f2cf2ab065378f4171e23ad3a2nat,
        65,
        modulus(),
        0x4b488cb669c51884034ddae61974543abdf638f1a0e3f4137db4deb141650af1nat,
        0xa7ff70ece2615573e30fc26e9521a27c757e69e63b0872a45126a1ffbb7ae0308fc58c7e7dd6c9ff4f0e17f21e77f382dbfe99fc6407c85d14bfedfb24ee973nat,
        0x39d20cbc48ea26bc064d9ec6c8b573070d93291c34dad3a250d9677296bc43efnat,
    );
    lemma_pow_mod_square_times(
        0x36fb34ca1cf1bdf3cfcae97d3d3292f63e19c2f2cf2ab065378f4171e23ad3a2nat,
        131,
        modulus(),
        0x39d20cbc48ea26bc064d9ec6c8b573070d93291c34dad3a250d9677296bc43efnat,
        0x631954264c2f7181bb2e6037a50c760f7f5b55692c2999437cf03307b0f13515c0da7be1810bb8087ec2082c8155cefdf57dc9c3ea3f445e22d26b2b4274b33nat,
        0x3d15798cabc0888e29d472bbe9d101d1e5898b071225efca77c1ec143a228eafnat,
    );
    lemma_pow_mod_square(
        0x36fb34ca1cf1bdf3cfcae97d3d3292f63e19c2f2cf2ab065378f4171e23ad3a2nat,
        263,
        modulus(),
        0x3d15798cabc0888e29d472bbe9d101d1e5898b071225efca77c1ec143a228eafnat,
        0x202f8db9ece1691da07e9c6ab3af0d35414a5b5644bf80419fe5a4af2d88e4f4nat,
        0x32b408f062af29683f1801da1011cba8eb24e3ebde1a5d183d2de0ee5479b6adnat,
    );
    lemma_pow_mod_square_times(
        0x36fb34ca1cf1bdf3cfcae97d3d3292f63e19c2f2cf2ab065378f4171e23ad3a2nat,
        526,
        modulus(),
        0x32b408f062af29683f1801da1011cba8eb24e3ebde1a5d183d2de0ee5479b6adnat,
        0x4c3430a81b4dc429bdaa2aa6398ecc7928ae1f6d8ac2d6a7e9ba461c0b3a04dca0337cb797aee7de57fbc72e791eddd843c9ec1b43d4effa7ca73e99ea7b908nat,
        0x3d3db313490a9336dfec6ed9c10ddf07abd605bd3b0295da30e02c993c1c56anat,
    );
    lemma_pow_mod_square_times(
        0x36fb34ca1cf1bdf3cfcae97d3d3292f63e19c2f2cf2ab065378f4171e23ad3a2nat,
        1053,
        modulus(),
        0x3d3db313490a9336dfec6ed9c10ddf07abd605bd3b0295da30e02c993c1c56anat,
        0x6f2bacae68f00e9dd3d68875ec0720ce49d5e037fa7817d7cee658e15dee5320826aafbf15ff934da9c542049948ddef76e2cb0962f778e436bf2f2b51a33nat,
        0x30bd32163cb1ca8ead56079ce4ee4bcdbd9c944b10c7294830c9ed91a71e6015nat,
    );
    lemma_pow_mod_square_times(
        0x36fb34ca1cf1bdf3cfcae97d3d3292f63e19c2f2cf2ab065378f4171e23ad3a2nat,
        2107,
        modulus(),
        0x30bd32163cb1ca8ead56079ce4ee4bcdbd9c944b10c7294830c9ed91a71e6015nat,
        0x4669fe840f1670cdc09135af57079145b942ca85fcc3243b6ad239f08d88345ca609f306307e0fba979023f0a977a7a7422e4c9a240b24fdce6f8360f5f5b44nat,
        0x64c07cc73e969b29cd88dc56147c3ee3a353dc7867d08bb50035c6a92286b6cenat,
    );
    lemma_pow_mod_square_times(
        0x36fb34ca1cf1bdf3cfcae97d3d3292f63e19c2f2cf2ab065378f4171e23ad3a2nat,
        4215,
        modulus(),
        0x64c07cc73e969b29cd88dc56147c3ee3a353dc7867d08bb50035c6a92286b6cenat,
        0x12ce48c4802bd5849ab3851259e33dd0af06ddc737fa1c5d687df96dc0065cf4a22459a35e5a8165ea54bdb978994e49fe717fdb7d2b09f6b59eb53563dd4a01nat,
        0x6ef64389cb1c61e281ec34f508281ab16bffc915b9f02a557f080fc52dbef807nat,
    );
    lemma_pow_mod_square(
        0x36fb34ca1cf1bdf3cfcae97d3d3292f63e19c2f2cf2ab065378f4171e23ad3a2nat,
        8431,
        modulus(),
        0x6ef64389cb1c61e281ec34f508281ab16bffc915b9f02a557f080fc52dbef807nat,
        0x6a35571fe5df862dbfe6860c88cd3fc93561b29295258dffa22d69fbdefe5fafnat,
        0x2b26476cc7973dc504cd491e5ef29099b87de7c01703619380683420b1b33082nat,
    );
    lemma_pow_mod_square_times(
        0x36fb34ca1cf1bdf3cfcae97d3d3292f63e19c2f2cf2ab065378f4171e23ad3a2nat,
        16862,
        modulus(),
        0x2b26476cc7973dc504cd491e5ef29099b87de7c01703619380683420b1b33082nat,
        0x37308a23552ed5ed7c99d97798f3e3ad8abbd958a428925b31bd91b6b77d1e48a1a4ef9b9288f8411884ca8a1240b6402ea8c345405e3924829687ab25ad644nat,
        0x14bf95140ab694bc13f619c0f955dbf42320637e8a9cbb30fe52f364f751bc44nat,
    );
    lemma_pow_mod_square_times(
        0x36fb34ca1cf1bdf3cfcae97d3d3292f63e19c2f2cf2ab065378f4171e23ad3a2nat,
        33725,
        modulus(),
        0x14bf95140ab694bc13f619c0f955dbf42320637e8a9cbb30fe52f364f751bc44nat,
        0xcc2ba9840967e31f2299bd92cf15d088dbfd193fbaa2ec1b63eb9175c1fe709c1c0670fdbc742dd4e0ac6dc642be568304a6aa77634da0c5ea1425e592b450nat,
        0x4310eeab2ec34f98c6d722b5b1c9af06af40d0e012a9adaa2810fc9d72ffa9d0nat,
    );
}

proof fn squarings_modulus_24_1()
    ensures
        pow_mod(
            0x36fb34ca1cf1bdf3cfcae97d3d3292f63e19c2f2cf2ab065378f4171e23ad3a2nat,
            4420517316nat,
            modulus(),
        ) == 0x1e981f58a7fc8a54681f852bf494f47d6fce23f37c9f6a4a81c61bd7428634nat,
{
    squarings_modulus_24_0();
    lemma_pow_mod_square_times(
        0x36fb34ca1cf1bdf3cfcae97d3d3292f63e19c2f2cf2ab065378f4171e23ad3a2nat,
        67451,
        modulus(),
        0x4310eeab2ec34f98c6d722b5b1c9af06af40d0e012a9adaa2810fc9d72ffa9d0nat,
        0x855338bcc455fa46771135ecd7f5bfe5ae689fe269e60db28a6393c095b5e6f1a409d29d4465e8c54a34b5447e7150ba1988aa03950a5eb2ab75bc5c9810fa5nat,
        0x5e1c09797ff7fd9a6b28df64f1901016353348b333f6a204240f2ed46560225bnat,
    );
    lemma_pow_mod_square(
        0x36fb34ca1cf1bdf3cfcae97d3d3292f63e19c2f2cf2ab065378f4171e23ad3a2nat,
        134903,
        modulus(),
        0x5e1c09797ff7fd9a6b28df64f1901016353348b333f6a204240f2ed46560225bnat,
        0x4c65afc2a1c80e410be4afc7477dc955544a56e468dd9736fbf92c259af277d2nat,
        0x375fecbf1f1e933190e1a533b7e03d435ec519ef5bfac32cd959e599fbe9d487nat,
    );
    lemma_pow_mod_square_times(
        0x36fb34ca1cf1bdf3cfcae97d3d3292f63e19c2f2cf2ab065378f4171e23ad3a2nat,
        269806,
        modulus(),
        0x375fecbf1f1e933190e1a533b7e03d435ec519ef5bfac32cd959e599fbe9d487nat,
        0x5ae47b79939eebbbac1f7c87f1eae4d6d8c196cdfff674d8c5b81502089ce989a2baebf6a52a8bbe72e8499e6486560b86d1233b570973404b5b32b97b39adcnat,
        0x3456e3111825fa02281b87fd36b80f734b696d50054c2d9ae44ea2b0b7630526nat,
    );
    lemma_pow_mod_square_times(
        0x36fb34ca1cf1bdf3cfcae97d3d3292f63e19c2f2cf2ab065378f4171e23ad3a2nat,
        539613,
        modulus(),
        0x3456e3111825fa02281b87fd36b80f734b696d50054c2d9ae44ea2b0b7630526nat,
        0x5133856acb102c309d41eca5a9fa0e6bc1671a26a09bf70a285df5565ff110723d6eb73074fbeb360989ca3afdc6b245c79625a8ab631d827f6bfaa5b467f71nat,
        0x3ab908d2c591aedf9f7bdda235e93f7b3ef3311d277b45b92b22d4705ec9b657nat,
    );
    lemma_pow_mod_square_times(
        0x36fb34ca1cf1bdf3cfcae97d3d3292f63e19c2f2cf2ab065378f4171e23ad3a2nat,
        1079227,
        modulus(),
        0x3ab908d2c591aedf9f7bdda235e93f7b3ef3311d277b45b92b22d4705ec9b657nat,
        0x66374764c7533df1e07a7935ee3eaaa4cce9c4ae1f725212f37da0f1e1d5762f691efd544119e44dc9a7f22a294abb042fbfaeba4fe79e82e8c469dabf7dcaanat,
        0x2a08df90dc36cd0a40b41da795e65990ee17d74b84a5e00f904d4f0a883b4418nat,
    );
    lemma_pow_mod_square_times(
        0x36fb34ca1cf1bdf3cfcae97d3d3292f63e19c2f2cf2ab065378f4171e23ad3a2nat,
        2158455,
        modulus(),
        0x2a08df90dc36cd0a40b41da795e65990ee17d74b84a5e00f904d4f0a883b4418nat,
        0x345fe2b0f7c0e9bd796931b994c461a8341b0385130d8150d62444383aeb3a6edb4c63b6926c97cca0a62247bd7c15f0826cedaff641347f7d427bf5cb1b144nat,
        0x52aa24217aea2cdf005603c0e587880b7be443c5ed31cb6f27884b96303bfb3cnat,
    );
    lemma_pow_mod_square(
        0x36fb34ca1cf1bdf3cfcae97d3d3292f63e19c2f2cf2ab065378f4171e23ad3a2nat,
        4316911,
        modulus(),
        0x52aa24217aea2cdf005603c0e587880b7be443c5ed31cb6f27884b96303bfb3cnat,
        0x3af203a9455f5e71694d5a8f0b257f0cc66f278598963f240701f340f6ad6757nat,
        0x62dcfdeb9aacaee5e02d5bf525c96ffd974d25f44a7bc22dc0192aa4d894eb9nat,
    );
    lemma_pow_mod_square_times(
        0x36fb34ca1cf1bdf3cfcae97d3d3292f63e19c2f2cf2ab065378f4171e23ad3a2nat,
        8633822,
        modulus(),
        0x62dcfdeb9aacaee5e02d5bf525c96ffd974d25f44a7bc22dc0192aa4d894eb9nat,
        0x121b7b93c8707291ce2dc7a8252760979dd942e1410cc2ebe94dc3aec639e3665443753b172a0defcdbd51bd350449a30e6ae0b1543a3cdc952e163a20ef90nat,
        0x6f7165d0ae780c7db1f46d9c3c0b96a2d6d6c10b8aad6d27eb276bc760158572nat,
    );
    lemma_pow_mod_square_times(
        0x36fb34ca1cf1bdf3cfcae97d3d3292f63e19c2f2cf2ab065378f4171e23ad3a2nat,
        17267645,
        modulus(),
        0x6f7165d0ae780c7db1f46d9c3c0b96a2d6d6c10b8aad6d27eb276bc760158572nat,
        0x170234b9b2362cf43d2142dfb5e9576707fdd0594f724eeded43c259e3254082eade53a019cb36916b283921f78761d675d1e264c26d498cd00a3835e194e75dnat,
        0x527ace1d85aaba4a801b0d32ea5a6efe5ea2c9c63058495dad06cf3970162cabnat,
    );
    lemma_pow_mod_square_times(
        0x36fb34ca1cf1bdf3cfcae97d3d3292f63e19c2f2cf2ab065378f4171e23ad3a2nat,
        34535291,
        modulus(),
        0x527ace1d85aaba4a801b0d32ea5a6efe5ea2c9c63058495dad06cf3970162cabnat,
        0xc9a68b8aeab1e2b24fff59e46ce56c5cd98c0ccf6eb95745b33aafca04ee57225eda2b9723c36086cb82951f424cb9b3492531465971c43a8c855356afcba53nat,
        0x286e8067a859a8a09b5fb5ac06b882d114ccff0770e7910cebed2179eccd18bfnat,
    );
    lemma_pow_mod_square(
        0x36fb34ca1cf1bdf3cfcae97d3d3292f63e19c2f2cf2ab065378f4171e23ad3a2nat,
        69070583,
        modulus(),
        0x286e8067a859a8a09b5fb5ac06b882d114ccff0770e7910cebed2179eccd18bfnat,
        0xe19e2451ec129c0bab4141338a0e8b87f67e7808eac6aca3f27f8e6e8c89220nat,
        0x57a667588bde885e8bd28e7785f21b73ecee40c0d3d6f871ba9405b7e381cc61nat,
    );
    lemma_pow_mod_square(
        0x36fb34ca1cf1bdf3cfcae97d3d3292f63e19c2f2cf2ab065378f4171e23ad3a2nat,
        138141166,
        modulus(),
        0x57a667588bde885e8bd28e7785f21b73ecee40c0d3d6f871ba9405b7e381cc61nat,
        0x424504e3b7932a80ebb6dec422f7308a00f979c9ab92edd05d5711b0155dd469nat,
        0x5774588d522a3bd20d76586e05968b1467b7cffb77b4f7f61bec31aa8d8ee858nat,
    );
    lemma_pow_mod_square(
        0x36fb34ca1cf1bdf3cfcae97d3d3292f63e19c2f2cf2ab065378f4171e23ad3a2nat,
        276282332,
        modulus(),
        0x5774588d522a3bd20d76586e05968b1467b7cffb77b4f7f61bec31aa8d8ee858nat,
        0x41f968b98553e6aaf4cf8f0b45cfe4025d24b948ca848b04cf52cba1ebea8d3enat,
        0x38e0a8520341e17d9ff58042f1f2016f37d4fb90b526bf4b13dcc23398951102nat,
    );
    lemma_pow_mod_square_times(
        0x36fb34ca1cf1bdf3cfcae97d3d3292f63e19c2f2cf2ab065378f4171e23ad3a2nat,
        552564664,
        modulus(),
        0x38e0a8520341e17d9ff58042f1f2016f37d4fb90b526bf4b13dcc23398951102nat,
        0x5fe4a0d5fdf740dc484b59f35a245a552b7d1d0150e53472e96e01d55c49b4f1c9aee54ab4293268a3bdf9b5bc620c269c952d3f70e246481a02695a94d0708nat,
        0x4a23ac084bd975678a6906e9f785bbde93c0b6e3c7c4b51b77e1a5ddb2df4f80nat,
    );
    lemma_pow_mod_square(
        0x36fb34ca1cf1bdf3cfcae97d3d3292f63e19c2f2cf2ab065378f4171e23ad3a2nat,
        1105129329,
        modulus(),
        0x4a23ac084bd975678a6906e9f785bbde93c0b6e3c7c4b51b77e1a5ddb2df4f80nat,
        0x2f6a05164afd6c7878b89b1308f2c05e4eac0be5bc356a4d9200a8af5ab6d1a4nat,
        0x1ea5d0cab4830e22c8b72c07f0cb35af2eae4e567570760ab6bbb94e3ef96e5cnat,
    );
    lemma_pow_mod_square(
        0x36fb34ca1cf1bdf3cfcae97d3d3292f63e19c2f2cf2ab065378f4171e23ad3a2nat,
        2210258658nat,
        modulus(),
        0x1ea5d0cab4830e22c8b72c07f0cb35af2eae4e567570760ab6bbb94e3ef96e5cnat,
        0x81a2e4f8cc3f406edf3c1d4130349b3b07f4f362a00242f482ce14c9748aadcnat,
        0x1e981f58a7fc8a54681f852bf494f47d6fce23f37c9f6a4a81c61bd7428634nat,
    );
}

proof fn squarings_modulus_24_2()
    ensures
        pow_mod(
            0x36fb34ca1cf1bdf3cfcae97d3d3292f63e19c2f2cf2ab065378f4171e23ad3a2nat,
            289703022831045nat,
            modulus(),
        ) == 0x556cb9229daa067f875739fa02c697dd8f0065d8756cc369811d78b602712123nat,
{
    squarings_modulus_24_1();
    lemma_pow_mod_square(
        0x36fb34ca1cf1bdf3cfcae97d3d3292f63e19c2f2cf2ab065378f4171e23ad3a2nat,
        4420517316nat,
        modulus(),
        0x1e981f58a7fc8a54681f852bf494f47d6fce23f37c9f6a4a81c61bd7428634nat,
        0x812f27972793348fee7b8f39febb0dff9f17883cda4803213777880c6e5nat,
        0x307be9e2096057641908c60379bc4c648eb0263c07af66b4d58411a58a9b3abnat,
    );
    lemma_pow_mod_square(
        0x36fb34ca1cf1bdf3cfcae97d3d3292f63e19c2f2cf2ab065378f4171e23ad3a2nat,
        8841034632nat,
        modulus(),
        0x307be9e2096057641908c60379bc4c648eb0263c07af66b4d58411a58a9b3abnat,
        0x1446f681ae27991213be73c498d40e5a1cf145f925b931817e1af5208e90ccnat,
        0x4877f66713446de11dd8a9e1f2aac33e78169f6b3c9be5fe510ae6972550036dnat,
    );
    lemma_pow_mod_square_times(
        0x36fb34ca1cf1bdf3cfcae97d3d3292f63e19c2f2cf2ab065378f4171e23ad3a2nat,
        17682069264nat,
        modulus(),
        0x4877f66713446de11dd8a9e1f2aac33e78169f6b3c9be5fe510ae6972550036dnat,
        0x9bab870b84c408e096495669f1cd481c0b437311d43c1c927bfe88a3b4f6116dd623443c9a4d1ae5097a681142f218fbd2f5305024296997e52a0243ac7b1danat,
        0xdbbf9522f4c323b630bd5bb76e18b73db0da2464bbf69c244cb1df55afa1398nat,
    );
    lemma_pow_mod_square(
        0x36fb34ca1cf1bdf3cfcae97d3d3292f63e19c2f2cf2ab065378f4171e23ad3a2nat,
        35364138529nat,
        modulus(),
        0xdbbf9522f4c323b630bd5bb76e18b73db0da2464bbf69c244cb1df55afa1398nat,
        0x1a08b789030693006048d1616828a29127d8c1689ff6867a68d5a0f210df946nat,
        0xe11c5b512e728e2a635c06631022407af9bda1f5d6fca1538ff5a380551f0fanat,
    );
    lemma_pow_mod_square(
        0x36fb34ca1cf1bdf3cfcae97d3d3292f63e19c2f2cf2ab065378f4171e23ad3a2nat,
        70728277058nat,
        modulus(),
        0xe11c5b512e728e2a635c06631022407af9bda1f5d6fca1538ff5a380551f0fanat,
        0x1b51f4dd8a13f9da662f289b627cf56aa99cbc48f8d7b7cd39286524525bfa1nat,
        0x735a5f440fc9f9e0694239fb419c94e363a030da1d0e225d504bc52dfe3f483nat,
    );
    lemma_pow_mod_square_times(
        0x36fb34ca1cf1bdf3cfcae97d3d3292f63e19c2f2cf2ab065378f4171e23ad3a2nat,
        141456554116nat,
        modulus(),
        0x735a5f440fc9f9e0694239fb419c94e363a030da1d0e225d504bc52dfe3f483nat,
        0x18a6c7f3c22bcf16b725177d9b30cdc6c0630f87732ad468aa85f5853563d516f7fa68b54d9591382ffc1ff9ac1ce63ad68916455e811f75333240e32023banat,
        0xfee65af95dda43dc9ff968983f3f50bc67965f2cbb000ba2c341b77300722f8nat,
    );
    lemma_pow_mod_square(
        0x36fb34ca1cf1bdf3cfcae97d3d3292f63e19c2f2cf2ab065378f4171e23ad3a2nat,
        282913108233nat,
        modulus(),
        0xfee65af95dda43dc9ff968983f3f50bc67965f2cbb000ba2c341b77300722f8nat,
        0x230775d6f4b5c51749500d5e668dc986f701b58f7a29020a03e7f4ef95c61d5nat,
        0x6587ab769876ae5becd7188020f9a0027838f11685b8e7edfee36265f4fa6e6bnat,
    );
    lemma_pow_mod_square_times(
        0x36fb34ca1cf1bdf3cfcae97d3d3292f63e19c2f2cf2ab065378f4171e23ad3a2nat,
        565826216466nat,
        modulus(),
        0x6587ab769876ae5becd7188020f9a0027838f11685b8e7edfee36265f4fa6e6bnat,
        0x1318ed8cfd7bbf7c01ea59de18257a6c83fb0737f40a97d6b2de708c64f306b817e2b4b2f8d749b95e34bde5208bfcd3817a1949212a7a0aebd6ec63a1a9574dnat,
        0x2cd81c7a3144a230dc978169bbe928d0446cb0d8cd5553c204fd9033cc05d8c5nat,
    );
    lemma_pow_mod_square_times(
        0x36fb34ca1cf1bdf3cfcae97d3d3292f63e19c2f2cf2ab065378f4171e23ad3a2nat,
        1131652432933nat,
        modulus(),
        0x2cd81c7a3144a230dc978169bbe928d0446cb0d8cd5553c204fd9033cc05d8c5nat,
        0x3b9c1a3a011a5b464a3cf3e193a9396db70cec5924156d46d931cd8c2e5812f80c152a8f924d5828ffe752335ac8719432f92e32d0c9fa9663ef1f8460634aanat,
        0x5f7441b29a10a0e839945a1b1e0409266b7926a0649acab0ff433e1d4dc9b528nat,
    );
    lemma_pow_mod_square_times(
        0x36fb34ca1cf1bdf3cfcae97d3d3292f63e19c2f2cf2ab065378f4171e23ad3a2nat,
        2263304865867nat,
        modulus(),
        0x5f7441b29a10a0e839945a1b1e0409266b7926a0649acab0ff433e1d4dc9b528nat,
        0x10e14d569b21b1625ae000605fc7e868970734f13ad543bf45e475237eb26a929e86190598347825d81a49432b5d535e8753e40d5696b7af8b8ee49c1c15fbb9nat,
        0x2cadc6d073ec82b44518aff3ecb6fd50fec90a9d7dcc38b19d99e6bf7041d8c7nat,
    );
    lemma_pow_mod_square(
        0x36fb34ca1cf1bdf3cfcae97d3d3292f63e19c2f2cf2ab065378f4171e23ad3a2nat,
        4526609731735nat,
        modulus(),
        0x2cadc6d073ec82b44518aff3ecb6fd50fec90a9d7dcc38b19d99e6bf7041d8c7nat,
        0x11381f5f199218813674a986cf5c34feda5c6dde70e5c550192d37d1349187abnat,
        0x27d38ad293fbe5c1e92b5793de4535ebe824449cecfbd8d254430b69b80ce306nat,
    );
    lemma_pow_mod_square(
        0x36fb34ca1cf1bdf3cfcae97d3d3292f63e19c2f2cf2ab065378f4171e23ad3a2nat,
        9053219463470nat,
        modulus(),
        0x27d38ad293fbe5c1e92b5793de4535ebe824449cecfbd8d254430b69b80ce306nat,
        0xdae9abebfb661424c1047cbc555f9c1667a87ce836d87513dc83018e5d4fedcnat,
        0x6b47fe72eb4c77053430ee53ea657246d417d8555ef43ab0079814adcc0ea548nat,
    );
    lemma_pow_mod_square(
        0x36fb34ca1cf1bdf3cfcae97d3d3292f63e19c2f2cf2ab065378f4171e23ad3a2nat,
        18106438926940nat,
        modulus(),
        0x6b47fe72eb4c77053430ee53ea657246d417d8555ef43ab0079814adcc0ea548nat,
        0x6347738f3e6e172f647d05ae05e67d22899bdaf9b06d1c31dc472cf60edce74anat,
        0x3469bc100c62d07563cf31e772f86b95ebe7dab7dfaaff5c205bb5e52fb8fcf6nat,
    );
    lemma_pow_mod_square_times(
        0x36fb34ca1cf1bdf3cfcae97d3d3292f63e19c2f2cf2ab065378f4171e23ad3a2nat,
        36212877853880nat,
        modulus(),
        0x3469bc100c62d07563cf31e772f86b95ebe7dab7dfaaff5c205bb5e52fb8fcf6nat,
        0x516e0b4bafcf60b4538875313a6a9ad10cea4517a82a2a4b6b4b03e0babb376438f825f4ce3e4705929a2b04bfc26c505a8616deb284427af30a1ea14b1157bnat,
        0x6e5442887d76caae2ade1c3d52a277e44dd2ddf0a385f97c2b6352787f2d8dcdnat,
    );
    lemma_pow_mod_square(
        0x36fb34ca1cf1bdf3cfcae97d3d3292f63e19c2f2cf2ab065378f4171e23ad3a2nat,
        72425755707761nat,
        modulus(),
        0x6e5442887d76caae2ade1c3d52a277e44dd2ddf0a385f97c2b6352787f2d8dcdnat,
        0x690018e945d6f7039fa3052375ef9315b6a9a53186b2a633b0bc19ad0ac9001enat,
        0x679f6e2f453bbd1b5d69ba71ebf42bdee20b92ae8e7ce93e8d55656d83d4760bnat,
    );
    lemma_pow_mod_square_times(
        0x36fb34ca1cf1bdf3cfcae97d3d3292f63e19c2f2cf2ab065378f4171e23ad3a2nat,
        144851511415522nat,
        modulus(),
        0x679f6e2f453bbd1b5d69ba71ebf42bdee20b92ae8e7ce93e8d55656d83d4760bnat,
        0x13e48dd2230b44c72735ffcf4cbc43072a7f2d4954f408d54e3c4eb56e46588cc7309f953a077a1a59561c3b64593d51e64f3f6328b35946a25d462ea02bae6fnat,
        0x556cb9229daa067f875739fa02c697dd8f0065d8756cc369811d78b602712123nat,
    );
}

proof fn squarings_modulus_24_3()
    ensures
        pow_mod(
            0x36fb34ca1cf1bdf3cfcae97d3d3292f63e19c2f2cf2ab065378f4171e23ad3a2nat,
            0x1077bbdc425c51ff1nat,
            modulus(),
        ) == 0x317a9659dd7f2c179cf1ee70db611ffd18b1423253518b539d2cbc04d29550e3nat,
{
    squarings_modulus_24_2();
    lemma_pow_mod_square(
        0x36fb34ca1cf1bdf3cfcae97d3d3292f63e19c2f2cf2ab065378f4171e23ad3a2nat,
        289703022831045nat,
        modulus(),
        0x556cb9229daa067f875739fa02c697dd8f0065d8756cc369811d78b602712123nat,
        0x3ef2845a3c39a1d47345df02ad9f369f8c32a01e78c6bb435035bb67ba769ed9nat,
        0x60630294ec7da3b50170d690a18299455bf028cc7befd86bba20c7b816b96bf0nat,
    );
    lemma_pow_mod_square(
        0x36fb34ca1cf1bdf3cfcae97d3d3292f63e19c2f2cf2ab065378f4171e23ad3a2nat,
        579406045662090nat,
        modulus(),
        0x60630294ec7da3b50170d690a18299455bf028cc7befd86bba20c7b816b96bf0nat,
        0x5023a466db5324afe583a2e9ffee2788289b06687ee0ae029f7c3934bfb76127nat,
        0x2fbf3a8eb4e08481dbfd946f7e6aea4715ff2ef8d5d6f9e1ce99d5ccaeab1fd9nat,
    );
    lemma_pow_mod_square(
        0x36fb34ca1cf1bdf3cfcae97d3d3292f63e19c2f2cf2ab065378f4171e23ad3a2nat,
        1158812091324180nat,
        modulus(),
        0x2fbf3a8eb4e08481dbfd946f7e6aea4715ff2ef8d5d6f9e1ce99d5ccaeab1fd9nat,
        0x13aa565e4f6cd18df5f4029faaeefc95a25e880f4f7f58c4f5d80a3dcbd0a059nat,
        0x360331ddea3cc1f80b04dcc19dd1a36ee41ebfeda91be160be4183a1c00ba598nat,
    );
    lemma_pow_mod_square_times(
        0x36fb34ca1cf1bdf3cfcae97d3d3292f63e19c2f2cf2ab065378f4171e23ad3a2nat,
        2317624182648360nat,
        modulus(),
        0x360331ddea3cc1f80b04dcc19dd1a36ee41ebfeda91be160be4183a1c00ba598nat,
        0x5679bf37e80fb6d77713c722ec75c8d8959ad6d02717968b9adc8b6ac704dde94d1f1fe742052559719402b72538ac8606f77c62ffad99480d0486e7d82f243nat,
        0x29c105bee0eeecdd44e72ca1f583ccdd086485d6eaf3d515a985115a51d8ca3dnat,
    );
    lemma_pow_mod_square_times(
        0x36fb34ca1cf1bdf3cfcae97d3d3292f63e19c2f2cf2ab065378f4171e23ad3a2nat,
        4635248365296721nat,
        modulus(),
        0x29c105bee0eeecdd44e72ca1f583ccdd086485d6eaf3d515a985115a51d8ca3dnat,
        0x33ad6edfe4c482d29cbff08e1d1832c85d7102c7b539c98d2e4813ce5c80c86f1e2a897aa06b525fbf573d0f7281569571ca8cd078f9b3c0a81588828df1329nat,
        0x16b00c2badb8945ca30ab5d842d850f8238590980ac8b1cbe0e1839f8e4e1289nat,
    );
    lemma_pow_mod_square_times(
        0x36fb34ca1cf1bdf3cfcae97d3d3292f63e19c2f2cf2ab065378f4171e23ad3a2nat,
        9270496730593443nat,
        modulus(),
        0x16b00c2badb8945ca30ab5d842d850f8238590980ac8b1cbe0e1839f8e4e1289nat,
        0xf41f0ac2d58211793921a3da3ad94d2f1b1d033f652c470c5d1d7928f710fa27e18a3b9049484d12afb9ce275e6a8e8742a1ec63f844b5302c27ff5aeff77dnat,
        0xe072b4db0d7885e6e3193baef091976d4c2c9b76e345150b78db05c9ec338c5nat,
    );
    lemma_pow_mod_square_times(
        0x36fb34ca1cf1bdf3cfcae97d3d3292f63e19c2f2cf2ab065378f4171e23ad3a2nat,
        18540993461186887nat,
        modulus(),
        0xe072b4db0d7885e6e3193baef091976d4c2c9b76e345150b78db05c9ec338c5nat,
        0x5d543ec6bf6ccebbe7d981802a757edf0956135ca5eacea7e2e104b42e1619964456fc9c341966ca98942bd5ee97bc9d8f61123fab6527185a2a7cc2380ecbnat,
        0x5a6ef72741d4d772006081427b45c9010a3abbb95c9f261ae1de03b8e35b5b07nat,
    );
    lemma_pow_mod_square_times(
        0x36fb34ca1cf1bdf3cfcae97d3d3292f63e19c2f2cf2ab065378f4171e23ad3a2nat,
        37081986922373775nat,
        modulus(),
        0x5a6ef72741d4d772006081427b45c9010a3abbb95c9f261ae1de03b8e35b5b07nat,
        0xf26ad05425ceb9a5545ac463bcc8a60d2cd2ca35d0ff416681cef2f5f6db996e0e892b2945979ad6a5940159a2b03bf69d08996b93b0a619d1c51b942b78f34nat,
        0xb7dbb065e38282f2ca9e71738193f385a3d3b1a20e342c01a31f41e8b4526cenat,
    );
    lemma_pow_mod_square_times(
        0x36fb34ca1cf1bdf3cfcae97d3d3292f63e19c2f2cf2ab065378f4171e23ad3a2nat,
        74163973844747551nat,
        modulus(),
        0xb7dbb065e38282f2ca9e71738193f385a3d3b1a20e342c01a31f41e8b4526cenat,
        0x3ea01f62dfe6d95586cd52e0add10c4c3bbc18c913a3788c0da45c9eacfd622e53ee160fcac5b54e7006ebc25d326d09da305c1123a55edc952ed58b1a55f9nat,
        0x2122ff8efcc144232893df7a8ea10106ba8106d9664b7dac4a5305597a626c0fnat,
    );
    lemma_pow_mod_square_times(
        0x36fb34ca1cf1bdf3cfcae97d3d3292f63e19c2f2cf2ab065378f4171e23ad3a2nat,
        148327947689495103nat,
        modulus(),
        0x2122ff8efcc144232893df7a8ea10106ba8106d9664b7dac4a5305597a626c0fnat,
        0x208c4875472421475d92e2c9ae82a905d54546a19bc5a5a235eb11d4432deb822c569e3a45b8caf5ff437f225e9197b96d631bedd455693810ebc17f4e974d1nat,
        0x18d5b35279e873e3333af9c6d7d1d2aa5fdc26263bed976071493b01dcdcdc91nat,
    );
    lemma_pow_mod_square_times(
        0x36fb34ca1cf1bdf3cfcae97d3d3292f63e19c2f2cf2ab065378f4171e23ad3a2nat,
        296655895378990207nat,
        modulus(),
        0x18d5b35279e873e3333af9c6d7d1d2aa5fdc26263bed976071493b01dcdcdc91nat,
        0x124835e1783fc817dbdd76cb2da37a7d3f2ccb583062fe26929b9018cbbf61cdb2105d4be6c212fac3e18b85546461c1e6488a4910664faa8770e479b52c624nat,
        0x13a7ad26606cd69b8b4e1167dcb20619fcb69afe3780b02b1bcfc1c27e79d5benat,
    );
    lemma_pow_mod_square_times(
        0x36fb34ca1cf1bdf3cfcae97d3d3292f63e19c2f2cf2ab065378f4171e23ad3a2nat,
        593311790757980415nat,
        modulus(),
        0x13a7ad26606cd69b8b4e1167dcb20619fcb69afe3780b02b1bcfc1c27e79d5benat,
        0xb73814f44f348415ff4c169d090b1f79d6cdc2fb1dc4341561bd2a226aa962673bb25047d887c2d18dc7a8e98eb2f68822ede302ba6bafc521941687decf21nat,
        0x248ecbc6e431ea53794c5c4f2d07208281435bab10abe3842e4a1f8121be9167nat,
    );
    lemma_pow_mod_square(
        0x36fb34ca1cf1bdf3cfcae97d3d3292f63e19c2f2cf2ab065378f4171e23ad3a2nat,
        1186623581515960831nat,
        modulus(),
        0x248ecbc6e431ea53794c5c4f2d07208281435bab10abe3842e4a1f8121be9167nat,
        0xb8747a7a34d3ca2187e32d96326e6c731a3261d870631aec57ae0462798d12anat,
        0x1469aa216d9c9c5009c9f99de9842011394e4178a1db89b5a3621c0a8de10647nat,
    );
    lemma_pow_mod_square(
        0x36fb34ca1cf1bdf3cfcae97d3d3292f63e19c2f2cf2ab065378f4171e23ad3a2nat,
        2373247163031921662nat,
        modulus(),
        0x1469aa216d9c9c5009c9f99de9842011394e4178a1db89b5a3621c0a8de10647nat,
        0x398239db0ee3569e32b412faa743a315da3fcbd7d0546be07e748fa7aa794d9nat,
        0x6a4016d12c50972f4baf7ad06da359b1fd6f833765f5f73b48b1f820c44dd2d8nat,
    );
    lemma_pow_mod_square(
        0x36fb34ca1cf1bdf3cfcae97d3d3292f63e19c2f2cf2ab065378f4171e23ad3a2nat,
        4746494326063843324nat,
        modulus(),
        0x6a4016d12c50972f4baf7ad06da359b1fd6f833765f5f73b48b1f820c44dd2d8nat,
        0x61615b9f8b05a112ace3a10729015e5c0437aacd67aa37fb03dde64eb9993589nat,
        0x326f13d059dcafc613a53425a1acd925c49036b8d808622c36e9c7bd89fde0b7nat,
    );
    lemma_pow_mod_square_times(
        0x36fb34ca1cf1bdf3cfcae97d3d3292f63e19c2f2cf2ab065378f4171e23ad3a2nat,
        9492988652127686648nat,
        modulus(),
        0x326f13d059dcafc613a53425a1acd925c49036b8d808622c36e9c7bd89fde0b7nat,
        0x4b65767f08b27458d966d747501ca999bb886e71d2af00c3b5a28a7abdb43500d77d0e3c0b456e76c65f525325908dd48b3c88c68074dc9996d484ee97e3a5fnat,
        0x317a9659dd7f2c179cf1ee70db611ffd18b1423253518b539d2cbc04d29550e3nat,
    );
}

proof fn squarings_modulus_24_4()
    ensures
        pow_mod(
            0x36fb34ca1cf1bdf3cfcae97d3d3292f63e19c2f2cf2ab065378f4171e23ad3a2nat,
            0x1077bbdc425c51ff19ffanat,
            modulus(),
        ) == 0x25e298fa5024f9d487cec762ac7cdc8ea7a456dcbf30dde10df752b8c607a3e4nat,
{
    squarings_modulus_24_3();
    lemma_pow_mod_square_times(
        0x36fb34ca1cf1bdf3cfcae97d3d3292f63e19c2f2cf2ab065378f4171e23ad3a2nat,
        0x1077bbdc425c51ff1nat,
        modulus(),
        0x317a9659dd7f2c179cf1ee70db611ffd18b1423253518b539d2cbc04d29550e3nat,
        0x489161a6df029100fd6003f26121234e771cab64e0a762d68299a7d96f458a1e81046a5c26116466731c72bc5c217d71312c571fcfa7e0250e9c8f66d3fd3d7nat,
        0x59a744efca06b8f6a2eca33233a269ad4b5825ba24bfdba18482cf3e0a54775bnat,
    );
    lemma_pow_mod_square(
        0x36fb34ca1cf1bdf3cfcae97d3d3292f63e19c2f2cf2ab065378f4171e23ad3a2nat,
        0x20ef77b884b8a3fe3nat,
        modulus(),
        0x59a744efca06b8f6a2eca33233a269ad4b5825ba24bfdba18482cf3e0a54775bnat,
        0x45556844f2ce2e06fff4f9e20421548b3061ee33f443a1b7683703e81b7a796cnat,
        0x640af91b852bb091c49544b01b4ccf5f3c89cc58d04fdaaf5e0924c98be340ednat,
    );
    lemma_pow_mod_square(
        0x36fb34ca1cf1bdf3cfcae97d3d3292f63e19c2f2cf2ab065378f4171e23ad3a2nat,
        0x41deef71097147fc6nat,
        modulus(),
        0x640af91b852bb091c49544b01b4ccf5f3c89cc58d04fdaaf5e0924c98be340ednat,
        0x56558b0bdee348dbd37e883c3138a5a4dcde648801dda34bdc906f886af49fa8nat,
        0x8de328b5adb64b9f493a0736e2e411119263ea4b7537b980c9d5e8727d0bbc1nat,
    );
    lemma_pow_mod_square_times(
        0x36fb34ca1cf1bdf3cfcae97d3d3292f63e19c2f2cf2ab065378f4171e23ad3a2nat,
        0x83bddee212e28ff8cnat,
        modulus(),
        0x8de328b5adb64b9f493a0736e2e411119263ea4b7537b980c9d5e8727d0bbc1nat,
        0x254c007e7037a5b1055db5799f3cb1f3623283eac351b5829a57dbac6473e25b1a92759de10d7e8a3077733220c5f00dad0b48eaee6b82ac619057918d9e87nat,
        0x620dd2b1a73710a4446721e184db59730eb5663d483ca939bacda5c49337741bnat,
    );
    lemma_pow_mod_square_times(
        0x36fb34ca1cf1bdf3cfcae97d3d3292f63e19c2f2cf2ab065378f4171e23ad3a2nat,
        0x1077bbdc425c51ff19nat,
        modulus(),
        0x620dd2b1a73710a4446721e184db59730eb5663d483ca939bacda5c49337741bnat,
        0x11cfe7b21e5c2f71bf98b05559b0a49425f5687c260e6a69150a7acbba96c91dc254cc06cf5f5ab7f3e297263acf3c807aaf231653708dd896952864cf4375cbnat,
        0x2147069dcb24620f68879bb73488eee60637635dc01f186c322a640c01392287nat,
    );
    lemma_pow_mod_square_times(
        0x36fb34ca1cf1bdf3cfcae97d3d3292f63e19c2f2cf2ab065378f4171e23ad3a2nat,
        0x20ef77b884b8a3fe33nat,
        modulus(),
        0x2147069dcb24620f68879bb73488eee60637635dc01f186c322a640c01392287nat,
        0x20d3355234b6f18da76ba9905428496bc074385b41fc76904685507a5445c0b0c3c4a4b5aef2a732acc57df3f9f88b5b2fa2574b3fd37c68cadc6b6cde78c56nat,
        0x12b49fe3b10d75e5a4e65106387c293205f9ed2dbeab48b4f4d954915d961bacnat,
    );
    lemma_pow_mod_square_times(
        0x36fb34ca1cf1bdf3cfcae97d3d3292f63e19c2f2cf2ab065378f4171e23ad3a2nat,
        0x41deef71097147fc67nat,
        modulus(),
        0x12b49fe3b10d75e5a4e65106387c293205f9ed2dbeab48b4f4d954915d961bacnat,
        0xa5f22ea993961d90d1767da8703619988343c33762e647771c783f4fbb56a060870679e342e716a5b7e49718f913a5e8e6288572922d5c9fcc60947626e704nat,
        0x206a9435be066d72202134d0d921b095073e024a9407e057e1aa786e23c17a1cnat,
    );
    lemma_pow_mod_square_times(
        0x36fb34ca1cf1bdf3cfcae97d3d3292f63e19c2f2cf2ab065378f4171e23ad3a2nat,
        0x83bddee212e28ff8cfnat,
        modulus(),
        0x206a9435be066d72202134d0d921b095073e024a9407e057e1aa786e23c17a1cnat,
        0x1f25ef7a68c23f04c6a2ccfa4b92862d496daf9f70b1027caf9ecf7ee139ea7fe7197ce5c93ab4621d9b3df18da36cc12a8c9c906a536638e70a7d6b462bea9nat,
        0x483e1b3e82619004cf93dc5a78c2ea91a99cd6b51c7a92d264980cb71df0c177nat,
    );
    lemma_pow_mod_square_times(
        0x36fb34ca1cf1bdf3cfcae97d3d3292f63e19c2f2cf2ab065378f4171e23ad3a2nat,
        0x1077bbdc425c51ff19fnat,
        modulus(),
        0x483e1b3e82619004cf93dc5a78c2ea91a99cd6b51c7a92d264980cb71df0c177nat,
        0x9ab35a79e717aba6f683e4a09ac819583ace65d944432957fbc5d845cafa59bc3f6d0015d498d24ae44b2b7a22318f861f1b195394c635be2965f83098080e0nat,
        0x4526308d5c4e8693b1b2ff293ebb9afec00b9c5050d955e22f64e938d4abdf62nat,
    );
    lemma_pow_mod_square_times(
        0x36fb34ca1cf1bdf3cfcae97d3d3292f63e19c2f2cf2ab065378f4171e23ad3a2nat,
        0x20ef77b884b8a3fe33fnat,
        modulus(),
        0x4526308d5c4e8693b1b2ff293ebb9afec00b9c5050d955e22f64e938d4abdf62nat,
        0x8dbc5733a1b69ea099ced5d47883dd4a99a9ebfe481012d0eefa29f1fff176a2d7e2c325739c4c69f9625c3a9bb9749ec260c212ac44599c261fe6b59864806nat,
        0x2b6b5d5894db73f322e04aec40ad531adc8aef71a2589b6267be87ca1bde3982nat,
    );
    lemma_pow_mod_square_times(
        0x36fb34ca1cf1bdf3cfcae97d3d3292f63e19c2f2cf2ab065378f4171e23ad3a2nat,
        0x41deef71097147fc67fnat,
        modulus(),
        0x2b6b5d5894db73f322e04aec40ad531adc8aef71a2589b6267be87ca1bde3982nat,
        0x37e1d150f763b377003245721ec564df84d78ae50e52653d05db2b4826d1aa5c4f3010157c2f6a91bae47c37c1675e43a720ac6afdf3ad58e2ba87697fdb8f6nat,
        0x5ea8625f8c3d4ac336b27bb553b4f460da1d1390bac5f29f36e92141affda192nat,
    );
    lemma_pow_mod_square_times(
        0x36fb34ca1cf1bdf3cfcae97d3d3292f63e19c2f2cf2ab065378f4171e23ad3a2nat,
        0x83bddee212e28ff8cffnat,
        modulus(),
        0x5ea8625f8c3d4ac336b27bb553b4f460da1d1390bac5f29f36e92141affda192nat,
        0x10997f5614659b8576467252be2b9d769947158c7f3448e1b62b8e29d270116cdd727afa014b7f56b9fb88ea8d554c0b8ccc632da76ba0fc5735c55ace48967anat,
        0x29a92f1e89ca380c811f94cf7192362b43f6cecbc3275aa8218956c40020ee8enat,
    );
    lemma_pow_mod_square_times(
        0x36fb34ca1cf1bdf3cfcae97d3d3292f63e19c2f2cf2ab065378f4171e23ad3a2nat,
        0x1077bbdc425c51ff19ffnat,
        modulus(),
        0x29a92f1e89ca380c811f94cf7192362b43f6cecbc3275aa8218956c40020ee8enat,
        0x33727db34a3d527519ae142c20cbd4b567f59831a9908884ccc42ca03fcbec10269ba12c4da761cc118c0104778375019757cef207970d770d991a5b39b24d2nat,
        0x4f6bc0629527182008498676cabe2924aca5caaa801cb2b050b396ba8b9f4f36nat,
    );
    lemma_pow_mod_square(
        0x36fb34ca1cf1bdf3cfcae97d3d3292f63e19c2f2cf2ab065378f4171e23ad3a2nat,
        0x20ef77b884b8a3fe33ffnat,
        modulus(),
        0x4f6bc0629527182008498676cabe2924aca5caaa801cb2b050b396ba8b9f4f36nat,
        0x366900b53546bfb6d3f8de9b96ad80af845d971dd223cdcaf83530fe22ad9556nat,
        0x286c7341b21f5f6ea0fbaf0268e742c0a2c62d2fa3a608a1907529f7fee8ca0enat,
    );
    lemma_pow_mod_square_times(
        0x36fb34ca1cf1bdf3cfcae97d3d3292f63e19c2f2cf2ab065378f4171e23ad3a2nat,
        0x41deef71097147fc67fenat,
        modulus(),
        0x286c7341b21f5f6ea0fbaf0268e742c0a2c62d2fa3a608a1907529f7fee8ca0enat,
        0x306fd59db9c166acb80274c6c6abf30a71ea0f28502f2e6f4f292612f332d1bad8e4f276abe092cce5cd43de4a348ccbe775639a0ddfd40e5833c7babc55048nat,
        0x2375815d253abaa0262ba73bde985400fa2983591197b57e270f2f9c850fe7c0nat,
    );
    lemma_pow_mod_square(
        0x36fb34ca1cf1bdf3cfcae97d3d3292f63e19c2f2cf2ab065378f4171e23ad3a2nat,
        0x83bddee212e28ff8cffdnat,
        modulus(),
        0x2375815d253abaa0262ba73bde985400fa2983591197b57e270f2f9c850fe7c0nat,
        0xad889780aefd5828f9cfa35bef212cfd4518bdc787dfb709671932db4446c1cnat,
        0x25e298fa5024f9d487cec762ac7cdc8ea7a456dcbf30dde10df752b8c607a3e4nat,
    );
}

proof fn squarings_modulus_24_5()
    ensures
        pow_mod(
            0x36fb34ca1cf1bdf3cfcae97d3d3292f63e19c2f2cf2ab065378f4171e23ad3a2nat,
            0x1077bbdc425c51ff19ffaffnat,
            modulus(),
        ) == 0x38382fe1a45bf396e642a30c770edaab1f826f1394cf30e63e35a9fcc64570bcnat,
{
    squarings_modulus_24_4();
    lemma_pow_mod_square_times(
        0x36fb34ca1cf1bdf3cfcae97d3d3292f63e19c2f2cf2ab065378f4171e23ad3a2nat,
        0x1077bbdc425c51ff19ffanat,
        modulus(),
        0x25e298fa5024f9d487cec762ac7cdc8ea7a456dcbf30dde10df752b8c607a3e4nat,
        0x2a8b62b8487498953e7f367e681c978be0846492d530e4e331e17a622f17b6b48ea7096dad4452c7c1d63b3fc4b17c72d061c318595dda44e05d663d5376455nat,
        0x124e3803fc46ffcc9312ce0883a2c9b26c50f7a0f2d51a3e29ee97bc82acfbcbnat,
    );
    lemma_pow_mod_square_times(
        0x36fb34ca1cf1bdf3cfcae97d3d3292f63e19c2f2cf2ab065378f4171e23ad3a2nat,
        0x20ef77b884b8a3fe33ff5nat,
        modulus(),
        0x124e3803fc46ffcc9312ce0883a2c9b26c50f7a0f2d51a3e29ee97bc82acfbcbnat,
        0x9eeca1263e9c193d6da76f526f3d0834b9701a5ad46a31fc41dbb6fd58abb881624b818edb6c0f117506fa9e10f179ad49adf9ebf263a471551072f747009dnat,
        0x3ef3e32259723299c519c30a32c87279c0c4b24d46036d99f70118ea36557bf5nat,
    );
    lemma_pow_mod_square_times(
        0x36fb34ca1cf1bdf3cfcae97d3d3292f63e19c2f2cf2ab065378f4171e23ad3a2nat,
        0x41deef71097147fc67febnat,
        modulus(),
        0x3ef3e32259723299c519c30a32c87279c0c4b24d46036d99f70118ea36557bf5nat,
        0x7578c9cd5b488d7043d8e0d8590674df9c0610a6e72e07ea69abcf3947b30ba494da7511f05514ca2b7dea77d5f8b59acb342756a23e3329fb9f6afc3ec6509nat,
        0x67d756d9c1ece9a6e752bf0ea4300848b7ca376618321c8e6f5bbe7d7b6f5289nat,
    );
    lemma_pow_mod_square_times(
        0x36fb34ca1cf1bdf3cfcae97d3d3292f63e19c2f2cf2ab065378f4171e23ad3a2nat,
        0x83bddee212e28ff8cffd7nat,
        modulus(),
        0x67d756d9c1ece9a6e752bf0ea4300848b7ca376618321c8e6f5bbe7d7b6f5289nat,
        0x13fa0ae80e891cd8c7ba682b04d2021afe53181a9a9b57a4c731d3b8a84098d55186c01259ac7fbc8b365b22e80ad3a180b002a3f9a8f093fa30e21553972c47nat,
        0x113c7c4fe3d8a9ca11fe52a7f9c65fa191a9c16c07f8b716fdd59cf464d903fbnat,
    );
    lemma_pow_mod_square_times(
        0x36fb34ca1cf1bdf3cfcae97d3d3292f63e19c2f2cf2ab065378f4171e23ad3a2nat,
        0x1077bbdc425c51ff19ffafnat,
        modulus(),
        0x113c7c4fe3d8a9ca11fe52a7f9c65fa191a9c16c07f8b716fdd59cf464d903fbnat,
        0x8ce67926a56fc002f73ddab780a00cfc7a78550e427ce88d6ad9c2d52ccd4d75900e84214c8b0f70e7da9cee775ea242637ff4ddfbd84117f5211cc68d515cnat,
        0x22395179163f26fb18d4663df8b3562d8619b1439fca131fc015ca302f0c0976nat,
    );
    lemma_pow_mod_square_times(
        0x36fb34ca1cf1bdf3cfcae97d3d3292f63e19c2f2cf2ab065378f4171e23ad3a2nat,
        0x20ef77b884b8a3fe33ff5fnat,
        modulus(),
        0x22395179163f26fb18d4663df8b3562d8619b1439fca131fc015ca302f0c0976nat,
        0x22b800a57206f39ea2577cff10c1b734005bfea7e8ddc9c7c1dcda297c237bfd42b150e3dc7a95b3acda99fdf7927d24d7bdb524e5e281772b0a47d0e2f001cnat,
        0x194aa2e09d7cb1a94f10dacef5a065bd20ed18a149340073ee75bb69cbb5ef2cnat,
    );
    lemma_pow_mod_square_times(
        0x36fb34ca1cf1bdf3cfcae97d3d3292f63e19c2f2cf2ab065378f4171e23ad3a2nat,
        0x41deef71097147fc67febfnat,
        modulus(),
        0x194aa2e09d7cb1a94f10dacef5a065bd20ed18a149340073ee75bb69cbb5ef2cnat,
        0x12f5f5382987882f7f43a06babc0ba67c3a24d2c6b89e43c5492f3e8dde7a7d7f177210a42e72f8a97426a11fe5a77ff217dba667bf35892f96b2507273397fnat,
        0x7127a72b33a9b9d52dd417d3277ed3d047b1e40ff141d2a9d08532638eb48fa1nat,
    );
    lemma_pow_mod_square_times(
        0x36fb34ca1cf1bdf3cfcae97d3d3292f63e19c2f2cf2ab065378f4171e23ad3a2nat,
        0x83bddee212e28ff8cffd7fnat,
        modulus(),
        0x7127a72b33a9b9d52dd417d3277ed3d047b1e40ff141d2a9d08532638eb48fa1nat,
        0x17b88fa4163719a968b8aeaa418f1676df6aa0cbd18c6f1efd00c8129e3ef0a868c2a6f1d4185942be9619d69a59fcc196fe5da5b61af52b5602b7fbc327b166nat,
        0x38382fe1a45bf396e642a30c770edaab1f826f1394cf30e63e35a9fcc64570bcnat,
    );
}

/// A power of the generator 7, from a lower one raised to the power 318531842204590116974885631.
proof fn power_modulus_23()
    ensures
        pow_mod(
            7,
            0x6c124493526070ba8978d5770f78cffd7f80000000nat,
            modulus(),
        ) == 0x38382fe1a45bf396e642a30c770edaab1f826f1394cf30e63e35a9fcc64570bcnat,
{
    squarings_modulus_0_4();
    squarings_modulus_24_5();
    lemma_pow_mod_compose(
        7,
        0x69008000000080000000nat,
        0x1077bbdc425c51ff19ffaffnat,
        modulus(),
        0x36fb34ca1cf1bdf3cfcae97d3d3292f63e19c2f2cf2ab065378f4171e23ad3a2nat,
        0x38382fe1a45bf396e642a30c770edaab1f826f1394cf30e63e35a9fcc64570bcnat,
    );
}

proof fn squarings_modulus_26_0()
    ensures
        pow_mod(
            0x38382fe1a45bf396e642a30c770edaab1f826f1394cf30e63e35a9fcc64570bcnat,
            93943,
            modulus(),
        ) == 0x2b84e5263b10710f56e496cc8223e5e6cab61e5e2facccc819177b41f4f2294fnat,
{
    lemma_pow_mod_start(
        0x38382fe1a45bf396e642a30c770edaab1f826f1394cf30e63e35a9fcc64570bcnat,
        modulus(),
    );
    lemma_pow_mod_square(
        0x38382fe1a45bf396e642a30c770edaab1f826f1394cf30e63e35a9fcc64570bcnat,
        1,
        modulus(),
        0x38382fe1a45bf396e642a30c770edaab1f826f1394cf30e63e35a9fcc64570bcnat,
        0x1b437ed45d54dde5b40b79b8b3558b725269da9a29b227dc23403e2443baccdbnat,
        0x11c76f2affe7d2bbed347b099eb7899c7bb550a5f808b3ad7f70360f83423d35nat,
    );
    lemma_pow_mod_square_times(
        0x38382fe1a45bf396e642a30c770edaab1f826f1394cf30e63e35a9fcc64570bcnat,
        2,
        modulus(),
        0x11c76f2affe7d2bbed347b099eb7899c7bb550a5f808b3ad7f70360f83423d35nat,
        0x994a3e0198ea0bde2b94f64563e477bd4ba722574098b595987f23eb6a96f9b1300a03276e005b5cd22de923169a605114854c187f4566ffce174116b96585nat,
        0x71b6c0141b337bfc0cc9765ab19ef9630f081df269c89b7b4fc9bbf488f11157nat,
    );
    lemma_pow_mod_square_times(
        0x38382fe1a45bf396e642a30c770edaab1f826f1394cf30e63e35a9fcc64570bcnat,
        5,
        modulus(),
        0x71b6c0141b337bfc0cc9765ab19ef9630f081df269c89b7b4fc9bbf488f11157nat,
        0x187ed10dcd591889d1e136c8003fdfad76365506aea03df7fb5ead721184763268caa20bac3a0a6d3e01a704bb3a0e8e0ef45efd79a4c16e9b7bb957bc2d5103nat,
        0x3916339ef212431f80d535b908052f991dae544789221a75d6202f30330d1d79nat,
    );
    lemma_pow_mod_square(
        0x38382fe1a45bf396e642a30c770edaab1f826f1394cf30e63e35a9fcc64570bcnat,
        11,
        modulus(),
        0x3916339ef212431f80d535b908052f991dae544789221a75d6202f30330d1d79nat,
        0x1c1c7d072fdebb55fbf78b5e66e06d67c9af146559baf37f2001f60032d235f7nat,
        0x614d661930f794d3bfd9c686d527541734e86418edd96571bcfbf5c104dc6d3anat,
    );
    lemma_pow_mod_square_times(
        0x38382fe1a45bf396e642a30c770edaab1f826f1394cf30e63e35a9fcc64570bcnat,
        22,
        modulus(),
        0x614d661930f794d3bfd9c686d527541734e86418edd96571bcfbf5c104dc6d3anat,
        0x11ef62c91e12c049ad44c0bb9d1965ba60e5350ce551414cecb67fae6272a52044e9419ddebf616195f659100c318e78f478a9e1677c4f66032d7940de67d98cnat,
        0x38ebf8483227e6c667d4076d2861569ff52354fcb9387b6d39613372d876fce4nat,
    );
    lemma_pow_mod_square_times(
        0x38382fe1a45bf396e642a30c770edaab1f826f1394cf30e63e35a9fcc64570bcnat,
        45,
        modulus(),
        0x38ebf8483227e6c667d4076d2861569ff52354fcb9387b6d39613372d876fce4nat,
        0x62347e8c91674cf1f6e5f74b4f1566c21afc4fef8df3c4a96d71a54badd323e042868da359c057250a439d4f5dcd81bc6da254244e219e6f453ca6ee97e099enat,
        0x5d57d75249666d6d128f30a6e95a1b191631921c2c15e9dcc35fcc9adde29622nat,
    );
    lemma_pow_mod_square_times(
        0x38382fe1a45bf396e642a30c770edaab1f826f1394cf30e63e35a9fcc64570bcnat,
        91,
        modulus(),
        0x5d57d75249666d6d128f30a6e95a1b191631921c2c15e9dcc35fcc9adde29622nat,
        0x108157bf9b3fdbf4ca32443fd3cd720e065eeb514a3dfd45eea25197905ade50eef5c6ed833761b8fbc742b7b40b63a89703602829844bdfdfd00792ec42fe73nat,
        0x12bbf9eff65430af5882b1b993296e9d20c162ed85502bc28483bb28da60b27dnat,
    );
    lemma_pow_mod_square(
        0x38382fe1a45bf396e642a30c770edaab1f826f1394cf30e63e35a9fcc64570bcnat,
        183,
        modulus(),
        0x12bbf9eff65430af5882b1b993296e9d20c162ed85502bc28483bb28da60b27dnat,
        0x3070a6a035f27af8e956d5b233074981ad19ad32105e1051ee9f2aff139b4c6nat,
        0x271cb6800c11469e28235f2d0b80b5fe0d598fbcb82f0e7aa380fba94cf85c43nat,
    );
    lemma_pow_mod_square_times(
        0x38382fe1a45bf396e642a30c770edaab1f826f1394cf30e63e35a9fcc64570bcnat,
        366,
        modulus(),
        0x271cb6800c11469e28235f2d0b80b5fe0d598fbcb82f0e7aa380fba94cf85c43nat,
        0x2e5dbaad54d071c613e5d2186e3ee0d331df528090f94265acdf27f93b18f75b7bc6bb95b9c6576134de4b4aa774d637d5d36c68dc3552f49f1b62c10331aa8nat,
        0x45e891507abf7ea9b7da9b15f23824fff0aa7ed0b95cbe0d5c1a6cc20d015f4nat,
    );
    lemma_pow_mod_square_times(
        0x38382fe1a45bf396e642a30c770edaab1f826f1394cf30e63e35a9fcc64570bcnat,
        733,
        modulus(),
        0x45e891507abf7ea9b7da9b15f23824fff0aa7ed0b95cbe0d5c1a6cc20d015f4nat,
        0x9420bcd6d9d9edee8c57131b6140512d69d5b1c6556fb372981832897e768d0a33c6a250fa299a7b60abc0655e4cef5ff338fc69311b0054d236cdc03ff9anat,
        0x23aad92a1daaf32af09d17fe452f0b41867f0cc39ebf19b5c289f92d43f7aa26nat,
    );
    lemma_pow_mod_square_times(
        0x38382fe1a45bf396e642a30c770edaab1f826f1394cf30e63e35a9fcc64570bcnat,
        1467,
        modulus(),
        0x23aad92a1daaf32af09d17fe452f0b41867f0cc39ebf19b5c289f92d43f7aa26nat,
        0x268ef69e679330760fde192f817b67ac195aa1dece7c6bc094d1e3b94b5f6d281837a14dab4e02f410a271edce0e36ef8c6bb10d515b54f783b0eb6c9e3b79bnat,
        0x27dd66c26640a4363e7f1dd1c7aa1796be445bceb5394ca031824eca87c4cd5nat,
    );
    lemma_pow_mod_square_times(
        0x38382fe1a45bf396e642a30c770edaab1f826f1394cf30e63e35a9fcc64570bcnat,
        2935,
        modulus(),
        0x27dd66c26640a4363e7f1dd1c7aa1796be445bceb5394ca031824eca87c4cd5nat,
        0x302af9f6c24bb4b9ddd1655365a68d0dce671233cd184b2ab846f597f0149964163d18e7782eb27bc80eb63347dd5ea9f398cdd91e98fd36195102c1396e4nat,
        0x2142d03c229796a788e2edb67b379e24e51a1538b38e7b2abcffd6e4e0149ef8nat,
    );
    lemma_pow_mod_square(
        0x38382fe1a45bf396e642a30c770edaab1f826f1394cf30e63e35a9fcc64570bcnat,
        5871,
        modulus(),
        0x2142d03c229796a788e2edb67b379e24e51a1538b38e7b2abcffd6e4e0149ef8nat,
        0x98afc07abd0c46738eb06f170a28db538dfcd675e54b4efc8e428188cd46389nat,
        0x3d570df7234fc0a7756e8036311e234ae776477ce6cf39e518a61d0baca2acb7nat,
    );
    lemma_pow_mod_square_times(
        0x38382fe1a45bf396e642a30c770edaab1f826f1394cf30e63e35a9fcc64570bcnat,
        11742,
        modulus(),
        0x3d570df7234fc0a7756e8036311e234ae776477ce6cf39e518a61d0baca2acb7nat,
        0x720acdd19052f4e992796ad3fd52a0a9b082458b9ad6088e62f41fb3959a0aaa1a447e19d87150a81ba456e9ef067f1f62215801ab1c9cc343d94bf9651d830nat,
        0x405e15bbd218cc257be402790b9ea4e58f3bd01cba400cd9910a075b3205094cnat,
    );
    lemma_pow_mod_square_times(
        0x38382fe1a45bf396e642a30c770edaab1f826f1394cf30e63e35a9fcc64570bcnat,
        23485,
        modulus(),
        0x405e15bbd218cc257be402790b9ea4e58f3bd01cba400cd9910a075b3205094cnat,
        0x7d93c34eedd538a598f561be4848331346b733ff3fe7de05e51ac8aa2f3bc02bf29b8684817ecc78e814a032d82d7ac849a88dc228e00549e3dc7663dfb3594nat,
        0x50374e763ec9125b437f60c1bdb436a910a9cf86dcb30752e01bcca504ccfc2cnat,
    );
    lemma_pow_mod_square_times(
        0x38382fe1a45bf396e642a30c770edaab1f826f1394cf30e63e35a9fcc64570bcnat,
        46971,
        modulus(),
        0x50374e763ec9125b437f60c1bdb436a910a9cf86dcb30752e01bcca504ccfc2cnat,
        0xc3077b5eecf115d6d5b39c2b8ea0a42bed0fa02a91c460d7fc05de4e31d2f240db766e967d6aa224c010d54b930e3b5d0848fc8254eaf2a9743606c690fe471nat,
        0x2b84e5263b10710f56e496cc8223e5e6cab61e5e2facccc819177b41f4f2294fnat,
    );
}

proof fn squarings_modulus_26_1()
    ensures
        pow_mod(
            0x38382fe1a45bf396e642a30c770edaab1f826f1394cf30e63e35a9fcc64570bcnat,
            6156674969nat,
            modulus(),
        ) == 0x138d348e905ac5049fa0ed8489fbf215cc2f4de6e4f50f38388576e76c3e43bfnat,
{
    squarings_modulus_26_0();
    lemma_pow_mod_square(
        0x38382fe1a45bf396e642a30c770edaab1f826f1394cf30e63e35a9fcc64570bcnat,
        93943,
        modulus(),
        0x2b84e5263b10710f56e496cc8223e5e6cab61e5e2facccc819177b41f4f2294fnat,
        0x1056418727d2d35da716b115fab4d7ece0c580686c3ea5d4b052b155f925327enat,
        0x3a4fc9da573383f457ba3384cfea2338df0cc4ab7782b63240de916bee133e3nat,
    );
    lemma_pow_mod_square_times(
        0x38382fe1a45bf396e642a30c770edaab1f826f1394cf30e63e35a9fcc64570bcnat,
        187886,
        modulus(),
        0x3a4fc9da573383f457ba3384cfea2338df0cc4ab7782b63240de916bee133e3nat,
        0x670f3f08b9f898596f569d8daa159163c5079c460bf0cc0df9df7c82b3052b01de168ce535ef99b9aacf92f96ce63ed5e0256466d0d09470a65557d8c4e30nat,
        0x37e7e6cc1133302fdc491b59188728df78a0e14b0e48fdc22987e5b146942b6cnat,
    );
    lemma_pow_mod_square_times(
        0x38382fe1a45bf396e642a30c770edaab1f826f1394cf30e63e35a9fcc64570bcnat,
        375773,
        modulus(),
        0x37e7e6cc1133302fdc491b59188728df78a0e14b0e48fdc22987e5b146942b6cnat,
        0x5ebb21122f407a67352a87c97ac1007532e4bdb3d74f6dfdb9a83004cf3030cf194ff98402b2acf2015c5d49f52de2e53df5aac50075bbe1fbf1eb75de0791dnat,
        0x114d474e23039f4be94e381b20b9ab513369a71994e253c4a2ab6a929280dca3nat,
    );
    lemma_pow_mod_square(
        0x38382fe1a45bf396e642a30c770edaab1f826f1394cf30e63e35a9fcc64570bcnat,
        751547,
        modulus(),
        0x114d474e23039f4be94e381b20b9ab513369a71994e253c4a2ab6a929280dca3nat,
        0x2950d9f88377c368de3a13595a88c825865ba708e0248d432e368cd44fa4486nat,
        0x6866c32e40e6612221e4c57da63ddcfc4a8f245a7c0f4cba4562be2c082e4b43nat,
    );
    lemma_pow_mod_square(
        0x38382fe1a45bf396e642a30c770edaab1f826f1394cf30e63e35a9fcc64570bcnat,
        1503094,
        modulus(),
        0x6866c32e40e6612221e4c57da63ddcfc4a8f245a7c0f4cba4562be2c082e4b43nat,
        0x5e05485407a1204be78876a49d601c21ba8ed7a5b44944e5649fe2cbc973cde8nat,
        0x41ca9889764d669d8f6487c10bf95732f4c10bb874cecce5aa042b3788c085a1nat,
    );
    lemma_pow_mod_square_times(
        0x38382fe1a45bf396e642a30c770edaab1f826f1394cf30e63e35a9fcc64570bcnat,
        3006188,
        modulus(),
        0x41ca9889764d669d8f6487c10bf95732f4c10bb874cecce5aa042b3788c085a1nat,
        0x8331c5b807c7321b61d1acc657c11e9a767e1808638b69a685ce2b6ada5efa6b6a8d5ac6516d1acfe55e2c3c107499004c757ec0f573f3c00d86a1e25cc6962nat,
        0x6ddfaf696d54a2f5694b3e0183002f6a5c882dd8f31a0d9aa43564f5fce5ba5anat,
    );
    lemma_pow_mod_square_times(
        0x38382fe1a45bf396e642a30c770edaab1f826f1394cf30e63e35a9fcc64570bcnat,
        6012377,
        modulus(),
        0x6ddfaf696d54a2f5694b3e0183002f6a5c882dd8f31a0d9aa43564f5fce5ba5anat,
        0x16de7064b0bcf79bf523d8e9476817ae50c94b9f55c1e73cade11c2cfd638d2176ea1defe262e04c681baaf1a1894c5a5ab9c79f3cde65b42095768cfea0c312nat,
        0x1bb37fdadc56b2505d22e51a9f14967fa43ba1b7a578118e361f6f9e1b6d195enat,
    );
    lemma_pow_mod_square_times(
        0x38382fe1a45bf396e642a30c770edaab1f826f1394cf30e63e35a9fcc64570bcnat,
        12024755,
        modulus(),
        0x1bb37fdadc56b2505d22e51a9f14967fa43ba1b7a578118e361f6f9e1b6d195enat,
        0x1742102490dca387fafea11a8ca8afc79c6298a27a3f2a70b7dbfa8f6c6e94d665b8bccca3918113204745a3cd51c11baca3f1d556fe9145ccc3b535d73a0efnat,
        0x3f8fcc4168f3ce29a9952c133ea708f91902130953892daa1ea8e82444db0801nat,
    );
    lemma_pow_mod_square_times(
        0x38382fe1a45bf396e642a30c770edaab1f826f1394cf30e63e35a9fcc64570bcnat,
        24049511,
        modulus(),
        0x3f8fcc4168f3ce29a9952c133ea708f91902130953892daa1ea8e82444db0801nat,
        0x7a73e4ce822525fc78d3abe30a96ceec857fb901abd17f2b4dd4a6831a4a14239214c933753146402074646a36135a06b28ea73a0280e40b595e3e37b718017nat,
        0x4572a40ddbd16277c38ee7dc5bcf21cfb5528607f074a43263b9f2ecd287b0a5nat,
    );
    lemma_pow_mod_square(
        0x38382fe1a45bf396e642a30c770edaab1f826f1394cf30e63e35a9fcc64570bcnat,
        48099023,
        modulus(),
        0x4572a40ddbd16277c38ee7dc5bcf21cfb5528607f074a43263b9f2ecd287b0a5nat,
        0x299a70a5b70f887ca07eafe3571245b74e0aee58c21173a824c595eb33378ba1nat,
        0x45755dd1a1c3eb0d0f50cd8fceb5f037e2f07ac66f7e0e325c347fa848b1beb8nat,
    );
    lemma_pow_mod_square(
        0x38382fe1a45bf396e642a30c770edaab1f826f1394cf30e63e35a9fcc64570bcnat,
        96198046,
        modulus(),
        0x45755dd1a1c3eb0d0f50cd8fceb5f037e2f07ac66f7e0e325c347fa848b1beb8nat,
        0x299db4b6f95f3ba4128ec14b594e19f8c4f445a986d0c94cc0b49f4075daa19fnat,
        0x5734ef999182f4ebf475f6ca29654c05597446919497a37c490f5a8f52ab02a1nat,
    );
    lemma_pow_mod_square_times(
        0x38382fe1a45bf396e642a30c770edaab1f826f1394cf30e63e35a9fcc64570bcnat,
        192396092,
        modulus(),
        0x5734ef999182f4ebf475f6ca29654c05597446919497a37c490f5a8f52ab02a1nat,
        0xe680eda71d8e8ec271929aca87a300a5c7d083ebab6ad83626119d7d7d88cec98e26378c5cc16faf2478e113b372db1552a4610aa98aa940d9972f9e04dbbefnat,
        0x66374a9636fac9f9f907b74d1c6cb17582a526c668dd4ce0c49fb657a37effcdnat,
    );
    lemma_pow_mod_square_times(
        0x38382fe1a45bf396e642a30c770edaab1f826f1394cf30e63e35a9fcc64570bcnat,
        384792185,
        modulus(),
        0x66374a9636fac9f9f907b74d1c6cb17582a526c668dd4ce0c49fb657a37effcdnat,
        0x13cad006bff15112977c6adc230f2c746dfce1bc37f66a291f4c1f573cac0ea11f3d1b67de828bd2266b2b99c7a15d44245eac84682bed58b9baba6c9f4c2bb8nat,
        0x6b6e03d1c14caa6974ba79b7cece5aef50bd18ad87f1f8438e08690d97223a64nat,
    );
    lemma_pow_mod_square(
        0x38382fe1a45bf396e642a30c770edaab1f826f1394cf30e63e35a9fcc64570bcnat,
        769584371,
        modulus(),
        0x6b6e03d1c14caa6974ba79b7cece5aef50bd18ad87f1f8438e08690d97223a64nat,
        0x638ddebe624ecdf54c3e37f1ec3ba36fd15442725fc3cd41c7cb82cee6b69a3fnat,
        0x51233aac9d14eb891429fdec49ca3be2b6f84f5588c18dc17bc4730da12adcd1nat,
    );
    lemma_pow_mod_square(
        0x38382fe1a45bf396e642a30c770edaab1f826f1394cf30e63e35a9fcc64570bcnat,
        1539168742,
        modulus(),
        0x51233aac9d14eb891429fdec49ca3be2b6f84f5588c18dc17bc4730da12adcd1nat,
        0x38c9abc25c469d8aaeb671782f93eab284e8c572fb9c989785457d301db8c988nat,
        0x6124b79f933f5be565572c2e73fd7e8c13f1cdee8879349bd4b0707df7531919nat,
    );
    lemma_pow_mod_square_times(
        0x38382fe1a45bf396e642a30c770edaab1f826f1394cf30e63e35a9fcc64570bcnat,
        3078337484nat,
        modulus(),
        0x6124b79f933f5be565572c2e73fd7e8c13f1cdee8879349bd4b0707df7531919nat,
        0x11e066a83ac81ce4354c4f7fb7619794044357cc734825f3e2b9c1b0c8679d870db7e5f3e8427cab61d6304c10ea9af8836acae546fc2febe2ff585fa663ef3dnat,
        0x138d348e905ac5049fa0ed8489fbf215cc2f4de6e4f50f38388576e76c3e43bfnat,
    );
}

proof fn squarings_modulus_26_2()
    ensures
        pow_mod(
            0x38382fe1a45bf396e642a30c770edaab1f826f1394cf30e63e35a9fcc64570bcnat,
            25217740676117nat,
            modulus(),
        ) == 0x2cf476183ee678cc7ff9351f700c215bf2e600bd2023b6f03aaff1dc96f1703bnat,
{
    squarings_modulus_26_1();
    lemma_pow_mod_square_times(
        0x38382fe1a45bf396e642a30c770edaab1f826f1394cf30e63e35a9fcc64570bcnat,
        6156674969nat,
        modulus(),
        0x138d348e905ac5049fa0ed8489fbf215cc2f4de6e4f50f38388576e76c3e43bfnat,
        0xb96115c57336db5ccd7097d457f4af1a282a7c8aca26b3f50c45551b871db714f70deb6be97106e534e12ee04c9ede275f58e72ba026419cbad88257f2e9dcnat,
        0x71a34818483fe24cc7ced36248c7912b02d9e3fb8af9c6a7d7f2c21c8feac4e0nat,
    );
    lemma_pow_mod_square_times(
        0x38382fe1a45bf396e642a30c770edaab1f826f1394cf30e63e35a9fcc64570bcnat,
        12313349939nat,
        modulus(),
        0x71a34818483fe24cc7ced36248c7912b02d9e3fb8af9c6a7d7f2c21c8feac4e0nat,
        0x18766e8c52e581cfc2676c1dcd7e82a52226616abeef0b6176463a4f7de6ca385c37203fec40e97b44cc6520ef31ba7c5e308531d594fdd1bb23f2df284275e5nat,
        0x3545c94b2ece736617c6e342d3d8c2c179603977c7e2169421499590bbb17a1bnat,
    );
    lemma_pow_mod_square(
        0x38382fe1a45bf396e642a30c770edaab1f826f1394cf30e63e35a9fcc64570bcnat,
        24626699879nat,
        modulus(),
        0x3545c94b2ece736617c6e342d3d8c2c179603977c7e2169421499590bbb17a1bnat,
        0x187afa7adccfbf48c30855cc0763bd27b04d18cee3c41caafb868d12b95188e6nat,
        0x1c7c4a1b7b0a6a42dcac32e9c39c653cc3110fe3a1dbbd88a09a8ba0cc4235f3nat,
    );
    lemma_pow_mod_square(
        0x38382fe1a45bf396e642a30c770edaab1f826f1394cf30e63e35a9fcc64570bcnat,
        49253399758nat,
        modulus(),
        0x1c7c4a1b7b0a6a42dcac32e9c39c653cc3110fe3a1dbbd88a09a8ba0cc4235f3nat,
        0x6ffd5ff1f6d7f66dffcf13dff77025f9c09a3affb064d675e538b3c55e86113nat,
        0xf0fc706c72ce46070fbfb858a723b6ad6fd1f09ff2d71007c43beb1cec22396nat,
    );
    lemma_pow_mod_square(
        0x38382fe1a45bf396e642a30c770edaab1f826f1394cf30e63e35a9fcc64570bcnat,
        98506799516nat,
        modulus(),
        0xf0fc706c72ce46070fbfb858a723b6ad6fd1f09ff2d71007c43beb1cec22396nat,
        0x1f4f3314fc5c30b7bd6eb2f1cfad2772f5e7ab446f615fb7fd33060b4c7edf4nat,
        0x673eecae9738ff9f76d14d891e416ee812b24d46499a7ad8e1bd9f7ea7826df0nat,
    );
    lemma_pow_mod_square(
        0x38382fe1a45bf396e642a30c770edaab1f826f1394cf30e63e35a9fcc64570bcnat,
        197013599032nat,
        modulus(),
        0x673eecae9738ff9f76d14d891e416ee812b24d46499a7ad8e1bd9f7ea7826df0nat,
        0x5bf3630ec827ca4553afe6ed05d941c06525c996fb4dc08fd82ae7e51829bf1enat,
        0x19e96c878e92db4698a7771b1945c2633ee56c3c1b0b9206caee9d5bdecc81e2nat,
    );
    lemma_pow_mod_square(
        0x38382fe1a45bf396e642a30c770edaab1f826f1394cf30e63e35a9fcc64570bcnat,
        394027198064nat,
        modulus(),
        0x19e96c878e92db4698a7771b1945c2633ee56c3c1b0b9206caee9d5bdecc81e2nat,
        0x5caacc8b312139939839a3e115a76530120f3b5791b570708125fcf996521cdnat,
        0x3ec819ce427f32b91038c6c9c917074fae43157a921f2ea6b825a14ca0b069b7nat,
    );
    lemma_pow_mod_square_times(
        0x38382fe1a45bf396e642a30c770edaab1f826f1394cf30e63e35a9fcc64570bcnat,
        788054396128nat,
        modulus(),
        0x3ec819ce427f32b91038c6c9c917074fae43157a921f2ea6b825a14ca0b069b7nat,
        0x77772cfc00400be803860f299a0437f973761fe597c05890d4e26659bbb495947fbc592ffbf219157f65327543372151a54b7b8b0a0a8846fb7a9cbe494c593nat,
        0x4afab92a15e2363dbcbad38c845de836de6c8012994388cfb50ec39ec8b5c3e9nat,
    );
    lemma_pow_mod_square(
        0x38382fe1a45bf396e642a30c770edaab1f826f1394cf30e63e35a9fcc64570bcnat,
        1576108792257nat,
        modulus(),
        0x4afab92a15e2363dbcbad38c845de836de6c8012994388cfb50ec39ec8b5c3e9nat,
        0x307ea3fc437efadae2a7cad04ee2ded473b454385e00d489cefd426e02746b70nat,
        0x3b8d653212d06c7fc867a5144cb5979f91430e0dba6f3f4c612275c8aaf25ea1nat,
    );
    lemma_pow_mod_square_times(
        0x38382fe1a45bf396e642a30c770edaab1f826f1394cf30e63e35a9fcc64570bcnat,
        3152217584514nat,
        modulus(),
        0x3b8d653212d06c7fc867a5144cb5979f91430e0dba6f3f4c612275c8aaf25ea1nat,
        0x6b7ddc46bfcab503a5880610cecc5b248b0c3eec873fdc25f320923df4fda69a80089ffa120da2b9241f312f8a66e85f7715bd81a8856b35b6d961123bcf1c4nat,
        0x3a9d3ff3354e310cd2786ec790c74853ff7d6f332e83b2ac9916cc7608d2e9f8nat,
    );
    lemma_pow_mod_square(
        0x38382fe1a45bf396e642a30c770edaab1f826f1394cf30e63e35a9fcc64570bcnat,
        6304435169029nat,
        modulus(),
        0x3a9d3ff3354e310cd2786ec790c74853ff7d6f332e83b2ac9916cc7608d2e9f8nat,
        0x1da2c507c42dc0fad2ec66039a8370a17f3205c1c2c4919b136c61b92a31c90cnat,
        0x139827c39ed3e69c2398cf3eaf75a3dddbafedb6c36a82d10506345706839734nat,
    );
    lemma_pow_mod_square_times(
        0x38382fe1a45bf396e642a30c770edaab1f826f1394cf30e63e35a9fcc64570bcnat,
        12608870338058nat,
        modulus(),
        0x139827c39ed3e69c2398cf3eaf75a3dddbafedb6c36a82d10506345706839734nat,
        0xba30f5656d535e058ac54bc737b9f5c3bcf95b188001df576b4fbee2359c4a6b9fd4865424855813f09fdb57fc88f49a63549e8082fffb47e4ab3367adf185nat,
        0x2cf476183ee678cc7ff9351f700c215bf2e600bd2023b6f03aaff1dc96f1703bnat,
    );
}

/// A power of the generator 7, from a lower one raised to the power 25217740676117.
proof fn power_modulus_25()
    ensures
        pow_mod(
            7,
            0x9aea8f670c0829d0fca844b1d10831006ca13bdccfd7580000000nat,
            modulus(),
        ) == 0x2cf476183ee678cc7ff9351f700c215bf2e600bd2023b6f03aaff1dc96f1703bnat,
{
    power_modulus_23();
    squarings_modulus_26_2();
    lemma_pow_mod_compose(
        7,
        0x6c124493526070ba8978d5770f78cffd7f80000000nat,
        25217740676117nat,
        modulus(),
        0x38382fe1a45bf396e642a30c770edaab1f826f1394cf30e63e35a9fcc64570bcnat,
        0x2cf476183ee678cc7ff9351f700c215bf2e600bd2023b6f03aaff1dc96f1703bnat,
    );
}

proof fn squarings_modulus_28_0()
    ensures
        pow_mod(
            0x2cf476183ee678cc7ff9351f700c215bf2e600bd2023b6f03aaff1dc96f1703bnat,
            125527,
            modulus(),
        ) == 0x699697c8d194b9a9b2ef7595e556b1da9cc96274785ee50b44a49b2d6fbc7207nat,
{
    lemma_pow_mod_start(
        0x2cf476183ee678cc7ff9351f700c215bf2e600bd2023b6f03aaff1dc96f1703bnat,
        modulus(),
    );
    lemma_pow_mod_square_times(
        0x2cf476183ee678cc7ff9351f700c215bf2e600bd2023b6f03aaff1dc96f1703bnat,
        1,
        modulus(),
        0x2cf476183ee678cc7ff9351f700c215bf2e600bd2023b6f03aaff1dc96f1703bnat,
        0x30fafb5f234e1c4241ab94fd2715e0ea2eeb2a5eb1f6f3c50cc87b9aae8a605b1bc67a9c95fa895da9dd3dadcd772bdd119db6a4d5882736dba510c8a9a1d7dnat,
        0x5f626a27ed621968cb2995e2afd46efb214948ea3d9e30c2cfc53121a15cd4c6nat,
    );
    lemma_pow_mod_square_times(
        0x2cf476183ee678cc7ff9351f700c215bf2e600bd2023b6f03aaff1dc96f1703bnat,
        3,
        modulus(),
        0x5f626a27ed621968cb2995e2afd46efb214948ea3d9e30c2cfc53121a15cd4c6nat,
        0xdc81d5eb0a434e65c9528888d30a44ba3b99a17f70a68018588bf9784e13ee13a4acd25fb69f22fe6e30d8533604e27ec347ff0478329bd68863c0429f732f0nat,
        0x3be4a8d239ea2adc8ee6bc8d106d52d49437999c59e6b1073440da3b3744285cnat,
    );
    lemma_pow_mod_square_times(
        0x2cf476183ee678cc7ff9351f700c215bf2e600bd2023b6f03aaff1dc96f1703bnat,
        7,
        modulus(),
        0x3be4a8d239ea2adc8ee6bc8d106d52d49437999c59e6b1073440da3b3744285cnat,
        0x56f0cceb5f5f21ec7134c66ee8d1687d6e06830cae7dbc0ca5e7d2c8f0797ad834a249b41eca6faeec2448c5fe4da077c002c4fef0501eb9323ef3e976a7fb2nat,
        0x37ec243547ca2bb12665abb520496a90dd752d60e7100c38361b69d41e245efenat,
    );
    lemma_pow_mod_square(
        0x2cf476183ee678cc7ff9351f700c215bf2e600bd2023b6f03aaff1dc96f1703bnat,
        15,
        modulus(),
        0x37ec243547ca2bb12665abb520496a90dd752d60e7100c38361b69d41e245efenat,
        0x1af9ef015601741e359860fc7c9e15e494394972543d05267dbaec2d75e22e9anat,
        0x6fbbc39c86d1cc8b1aa44c3534d353586321bf2a8b9b80fbef717e8aeccd556anat,
    );
    lemma_pow_mod_square_times(
        0x2cf476183ee678cc7ff9351f700c215bf2e600bd2023b6f03aaff1dc96f1703bnat,
        30,
        modulus(),
        0x6fbbc39c86d1cc8b1aa44c3534d353586321bf2a8b9b80fbef717e8aeccd556anat,
        0x12e93665e7cf02b8fcb79a5aa079a7943490ed623c3ffa3351141f823d34f1c76687c761769f00e3e52d095231aa67363a226e3e0052580f5756984f5055a9eenat,
        0xafa489a6afb1873f05e82882eeeb24a873d0d1fae391e825ccb3521a3d43f9enat,
    );
    lemma_pow_mod_square(
        0x2cf476183ee678cc7ff9351f700c215bf2e600bd2023b6f03aaff1dc96f1703bnat,
        61,
        modulus(),
        0xafa489a6afb1873f05e82882eeeb24a873d0d1fae391e825ccb3521a3d43f9enat,
        0x10a1da831114ae3366414be6fa3d64993d1c5ae2f92f8f9a9760c4ebd87c046nat,
        0x13986fa06d0cc4600d69aa9f44b03f58b147cd0ba9d4a2ab108d7fafe3f7653enat,
    );
    lemma_pow_mod_square_times(
        0x2cf476183ee678cc7ff9351f700c215bf2e600bd2023b6f03aaff1dc96f1703bnat,
        122,
        modulus(),
        0x13986fa06d0cc4600d69aa9f44b03f58b147cd0ba9d4a2ab108d7fafe3f7653enat,
        0x94e6b7fbe3e20adcd3a5d754212c958cb793981bf710bee5ab5e7a87e326269bb80280b545897a7fffd33176483b579829590c4e4dd37d537338c84e8d785dnat,
        0x3e271d62a890bfb1795355af1ac55dfc367e052d310a3f0e7dbefe468121218fnat,
    );
    lemma_pow_mod_square(
        0x2cf476183ee678cc7ff9351f700c215bf2e600bd2023b6f03aaff1dc96f1703bnat,
        245,
        modulus(),
        0x3e271d62a890bfb1795355af1ac55dfc367e052d310a3f0e7dbefe468121218fnat,
        0x215271c382b86152b8c186d877b24106a3f4c8ad790ad28df25ec02fda02ff91nat,
        0x358eba105ee3cb73258c89be161257d1f86d26d35142e272fbc0c5b0ef412e50nat,
    );
    lemma_pow_mod_square(
        0x2cf476183ee678cc7ff9351f700c215bf2e600bd2023b6f03aaff1dc96f1703bnat,
        490,
        modulus(),
        0x358eba105ee3cb73258c89be161257d1f86d26d35142e272fbc0c5b0ef412e50nat,
        0x18be31c9810c8c4d8607cf7d9894a4ab10a36c20c19c9585d136d2d9d86ad142nat,
        0x698e3f724e10cca82c123cb2e3dd253c3b596928eba252f089b5917a149607benat,
    );
    lemma_pow_mod_square_times(
        0x2cf476183ee678cc7ff9351f700c215bf2e600bd2023b6f03aaff1dc96f1703bnat,
        980,
        modulus(),
        0x698e3f724e10cca82c123cb2e3dd253c3b596928eba252f089b5917a149607benat,
        0x10e0aa8c067c58f5c16ee58bac9d54a6da8a71ea1264aef51ef059bf3396d79b2fd6f82ca8ea6e1eae3ca7472085b0744d2f8a8f65fd13a7d6b0ee2550a76bc9nat,
        0x5c133165d2af7fd77fecc8a72efb9b84908d08b83c748e6c1f56adb09016e023nat,
    );
    lemma_pow_mod_square(
        0x2cf476183ee678cc7ff9351f700c215bf2e600bd2023b6f03aaff1dc96f1703bnat,
        1961,
        modulus(),
        0x5c133165d2af7fd77fecc8a72efb9b84908d08b83c748e6c1f56adb09016e023nat,
        0x492131e52e183ea07d13dfb9def84c23b36bd78f0f4ceabc411b6af32defd37cnat,
        0x37882fa533616a883c2004533817b44eb344c3623dc02b6759d5a4db7c51714dnat,
    );
    lemma_pow_mod_square_times(
        0x2cf476183ee678cc7ff9351f700c215bf2e600bd2023b6f03aaff1dc96f1703bnat,
        3922,
        modulus(),
        0x37882fa533616a883c2004533817b44eb344c3623dc02b6759d5a4db7c51714dnat,
        0x4abd7aba9d8f5996befd41858a54918b2320c4905c802009951af8ece8b2e3b1a02ded0e9441e11b0abaf16e089c3aa0a32334d3adbbf839efae2cd3bde5574nat,
        0x6eb6fa27260d3a6845a1218b483d98b857cfba859cbc91888cab06e150a58effnat,
    );
    lemma_pow_mod_square(
        0x2cf476183ee678cc7ff9351f700c215bf2e600bd2023b6f03aaff1dc96f1703bnat,
        7845,
        modulus(),
        0x6eb6fa27260d3a6845a1218b483d98b857cfba859cbc91888cab06e150a58effnat,
        0x69bc53095f15901e4102765479ebb2a4fc1a23c65f48519ce0bac0ed01c2a582nat,
        0xf7cec9c63af909e2fa4217e9ec59c32c25df6118691516cb0d3194402d33c7fnat,
    );
    lemma_pow_mod_square_times(
        0x2cf476183ee678cc7ff9351f700c215bf2e600bd2023b6f03aaff1dc96f1703bnat,
        15690,
        modulus(),
        0xf7cec9c63af909e2fa4217e9ec59c32c25df6118691516cb0d3194402d33c7fnat,
        0x5d052fee14f00448d3e679d9e2330b5007f89e792cfe9dca3ade8d437935fbc444b62d0be3b5f74931732c81129f6ed0cc9d96f3477df795668a4521eba4f3nat,
        0x1d466b0f1577ae3153176d5821cefbca6939ef606d562e230ae8e5ec6a4aa848nat,
    );
    lemma_pow_mod_square_times(
        0x2cf476183ee678cc7ff9351f700c215bf2e600bd2023b6f03aaff1dc96f1703bnat,
        31381,
        modulus(),
        0x1d466b0f1577ae3153176d5821cefbca6939ef606d562e230ae8e5ec6a4aa848nat,
        0x14c573c776644935a4dd70170c8c21fd051e6cf7867b1e9db3fb56b6981620d37e0d2f6512b3c3cb9c3d46bbb0ca20875859744e76150e6f35d78e2f44fed6cnat,
        0x46a3e9c193aedc41fba6ca354d132d2e2b7f47c1ff6cf2012977f2dad3383d54nat,
    );
    lemma_pow_mod_square_times(
        0x2cf476183ee678cc7ff9351f700c215bf2e600bd2023b6f03aaff1dc96f1703bnat,
        62763,
        modulus(),
        0x46a3e9c193aedc41fba6ca354d132d2e2b7f47c1ff6cf2012977f2dad3383d54nat,
        0x78f0d421b469079268d058a69b9bb873d4dd3d28bfd7804db5f5bf369fbbffef30bde0a3894c21a8b76b7bb806c015648b37d86f1b863c41cf1275bfd75c029nat,
        0x699697c8d194b9a9b2ef7595e556b1da9cc96274785ee50b44a49b2d6fbc7207nat,
    );
}

proof fn squarings_modulus_28_1()
    ensures
        pow_mod(
            0x2cf476183ee678cc7ff9351f700c215bf2e600bd2023b6f03aaff1dc96f1703bnat,
            251054,
            modulus(),
        ) == 0x3e39ee7633914a22fac6ea2b1dcd35740df1759a75ebe390042407c065689b64nat,
{
    squarings_modulus_28_0();
    lemma_pow_mod_square(
        0x2cf476183ee678cc7ff9351f700c215bf2e600bd2023b6f03aaff1dc96f1703bnat,
        125527,
        modulus(),
        0x699697c8d194b9a9b2ef7595e556b1da9cc96274785ee50b44a49b2d6fbc7207nat,
        0x602ba2285bfd901725724be86893e61351d3b445601ed657d1971f1c59a9a0cdnat,
        0x3e39ee7633914a22fac6ea2b1dcd35740df1759a75ebe390042407c065689b64nat,
    );
}

/// A power of the generator 7, from a lower one raised to the power 251054.
proof fn power_modulus_27()
    ensures
        pow_mod(
            7,
            0x251733863f2196da0733fe157650f6f26ee230ebffbb9a13dd00000000nat,
            modulus(),
        ) == 0x3e39ee7633914a22fac6ea2b1dcd35740df1759a75ebe390042407c065689b64nat,
{
    power_modulus_25();
    squarings_modulus_28_1();
    lemma_pow_mod_compose(
        7,
        0x9aea8f670c0829d0fca844b1d10831006ca13bdccfd7580000000nat,
        251054,
        modulus(),
        0x2cf476183ee678cc7ff9351f700c215bf2e600bd2023b6f03aaff1dc96f1703bnat,
        0x3e39ee7633914a22fac6ea2b1dcd35740df1759a75ebe390042407c065689b64nat,
    );
}

proof fn squarings_modulus_30_0()
    ensures
        pow_mod(
            0x2cf476183ee678cc7ff9351f700c215bf2e600bd2023b6f03aaff1dc96f1703bnat,
            102417,
            modulus(),
        ) == 0x6f8172dcb3ab36c3aaaf3553300419b2a17458d648c68461e3bcdd6647caae0cnat,
{
    lemma_pow_mod_start(
        0x2cf476183ee678cc7ff9351f700c215bf2e600bd2023b6f03aaff1dc96f1703bnat,
        modulus(),
    );
    lemma_pow_mod_square_times(
        0x2cf476183ee678cc7ff9351f700c215bf2e600bd2023b6f03aaff1dc96f1703bnat,
        1,
        modulus(),
        0x2cf476183ee678cc7ff9351f700c215bf2e600bd2023b6f03aaff1dc96f1703bnat,
        0x30fafb5f234e1c4241ab94fd2715e0ea2eeb2a5eb1f6f3c50cc87b9aae8a605b1bc67a9c95fa895da9dd3dadcd772bdd119db6a4d5882736dba510c8a9a1d7dnat,
        0x5f626a27ed621968cb2995e2afd46efb214948ea3d9e30c2cfc53121a15cd4c6nat,
    );
    lemma_pow_mod_square(
        0x2cf476183ee678cc7ff9351f700c215bf2e600bd2023b6f03aaff1dc96f1703bnat,
        3,
        modulus(),
        0x5f626a27ed621968cb2995e2afd46efb214948ea3d9e30c2cfc53121a15cd4c6nat,
        0x4e7b2d2b38fba37e5d1156db36e02f94e10617e5dcf261c52757a937ed6b4803nat,
        0x4ad35a9389f2045b29cf307fc491179117ee475ba4fe94b5fbe82b21bdbd4121nat,
    );
    lemma_pow_mod_square(
        0x2cf476183ee678cc7ff9351f700c215bf2e600bd2023b6f03aaff1dc96f1703bnat,
        6,
        modulus(),
        0x4ad35a9389f2045b29cf307fc491179117ee475ba4fe94b5fbe82b21bdbd4121nat,
        0x304bc439c655f342b9d0261150f70caea2ae399ab279d9aa8664c15ffa44bdb8nat,
        0x2c5b3f35dca8a4b1731018983da830978a6671919a57250440fcdaedfb070889nat,
    );
    lemma_pow_mod_square_times(
        0x2cf476183ee678cc7ff9351f700c215bf2e600bd2023b6f03aaff1dc96f1703bnat,
        12,
        modulus(),
        0x2c5b3f35dca8a4b1731018983da830978a6671919a57250440fcdaedfb070889nat,
        0x2faf5625effdab205ce0f50914d847160b441d32455ac9b7d1565e302acbcd21a22d4b821c2388762d666fc5acbef1e19ccefe79f144b9ca668ac3c21e5c3banat,
        0xe0d69aae2eb7d8cd2cad62c372fd859ff7c503365d4caad4dd2b9b7c542c1f1nat,
    );
    lemma_pow_mod_square(
        0x2cf476183ee678cc7ff9351f700c215bf2e600bd2023b6f03aaff1dc96f1703bnat,
        25,
        modulus(),
        0xe0d69aae2eb7d8cd2cad62c372fd859ff7c503365d4caad4dd2b9b7c542c1f1nat,
        0x1b410936eeca1dee3ca55e383f3af5f1e654cf57027f9edadeecc5d74fd36d6nat,
        0x2f0bf9a14f454d13a920823dda52c5be11bed13e3d127e370a31d2ec08340e0bnat,
    );
    lemma_pow_mod_square(
        0x2cf476183ee678cc7ff9351f700c215bf2e600bd2023b6f03aaff1dc96f1703bnat,
        50,
        modulus(),
        0x2f0bf9a14f454d13a920823dda52c5be11bed13e3d127e370a31d2ec08340e0bnat,
        0x1317c35298ec3b5f493416bb94c548fd86edaa492eaa074914f5dc262ae48dfanat,
        0x2c4b0ad799f3ca552f0aa6b3a306a0f827b0a699e2a2b3abd96bed923a58a67fnat,
    );
    lemma_pow_mod_square(
        0x2cf476183ee678cc7ff9351f700c215bf2e600bd2023b6f03aaff1dc96f1703bnat,
        100,
        modulus(),
        0x2c4b0ad799f3ca552f0aa6b3a306a0f827b0a699e2a2b3abd96bed923a58a67fnat,
        0x10ec58ba358f86689deaa5d5806ec06a2501ecc71d9cda9fcbd50050525b94f9nat,
        0x64b4492732f7fe279bea124b6d59ec882f488d897c9b6a40c161eda91d3d5e08nat,
    );
    lemma_pow_mod_square(
        0x2cf476183ee678cc7ff9351f700c215bf2e600bd2023b6f03aaff1dc96f1703bnat,
        200,
        modulus(),
        0x64b4492732f7fe279bea124b6d59ec882f488d897c9b6a40c161eda91d3d5e08nat,
        0x577abbb09b97dc1d199971f8dfa5a24d1501c8af1a332ee08fd203536bfcdd41nat,
        0x140ae7a2b0717b8b48066783453d6e7929830978bfb939d86cb2c681565d02ffnat,
    );
    lemma_pow_mod_square(
        0x2cf476183ee678cc7ff9351f700c215bf2e600bd2023b6f03aaff1dc96f1703bnat,
        400,
        modulus(),
        0x140ae7a2b0717b8b48066783453d6e7929830978bfb939d86cb2c681565d02ffnat,
        0x3771229ac0472abefdc6acd980d6de4b33412f2f629df9d88cb6f44dabfc333nat,
        0x18bc618e866eaba14f23b801dced59cbddc77e3ccf2081f9ac126cbaa68f36cenat,
    );
    lemma_pow_mod_square(
        0x2cf476183ee678cc7ff9351f700c215bf2e600bd2023b6f03aaff1dc96f1703bnat,
        800,
        modulus(),
        0x18bc618e866eaba14f23b801dced59cbddc77e3ccf2081f9ac126cbaa68f36cenat,
        0x5472729c7607b9d42a6639415859b9d999961b9c5161e40aea333e5e99b0bb6nat,
        0x1ea651b2f75721767ab25fdddb8d0b7f9a0781eea9f0d47f0aa756598444820enat,
    );
    lemma_pow_mod_square(
        0x2cf476183ee678cc7ff9351f700c215bf2e600bd2023b6f03aaff1dc96f1703bnat,
        1600,
        modulus(),
        0x1ea651b2f75721767ab25fdddb8d0b7f9a0781eea9f0d47f0aa756598444820enat,
        0x81a7278858f339999fe3c46e02f5ca2aeeedb72dc0a43f193ada48ee3d714b5nat,
        0x2f78acbd62f13bf343d6ad987a5bceadf6891af14753d2ec59c7fe55e5ab240fnat,
    );
    lemma_pow_mod_square_times(
        0x2cf476183ee678cc7ff9351f700c215bf2e600bd2023b6f03aaff1dc96f1703bnat,
        3200,
        modulus(),
        0x2f78acbd62f13bf343d6ad987a5bceadf6891af14753d2ec59c7fe55e5ab240fnat,
        0x369e122ca2e8086248b808c5415248eed86f170132b7b9814e8659cc395d562e8b94d344faaa3ce781ee4ed06c08adfc06fadcfb57565b80ef0b0d0aa7e8671nat,
        0x2e019fde46f3249f283690622fea22820a5c8e204aa8b5146957d9f8942c056anat,
    );
    lemma_pow_mod_square(
        0x2cf476183ee678cc7ff9351f700c215bf2e600bd2023b6f03aaff1dc96f1703bnat,
        6401,
        modulus(),
        0x2e019fde46f3249f283690622fea22820a5c8e204aa8b5146957d9f8942c056anat,
        0x1241f81c9edbfa6e99dd96c5f76aa2283961ad1c1ceb2cbf63a6d8afaf3c780enat,
        0x530c342902433938ac14fbe5a072c42ec027d261beb0077cf9dcbe92bd50d7d6nat,
    );
    lemma_pow_mod_square(
        0x2cf476183ee678cc7ff9351f700c215bf2e600bd2023b6f03aaff1dc96f1703bnat,
        12802,
        modulus(),
        0x530c342902433938ac14fbe5a072c42ec027d261beb0077cf9dcbe92bd50d7d6nat,
        0x3b7e304c0e54e5679d5693d734ad0793107130ee451c0e1b8d966a70626aeb12nat,
        0x214087b9aed957748640b4598f29bd0f4c3e2528e34866a8953cd0f3354e3bd2nat,
    );
    lemma_pow_mod_square(
        0x2cf476183ee678cc7ff9351f700c215bf2e600bd2023b6f03aaff1dc96f1703bnat,
        25604,
        modulus(),
        0x214087b9aed957748640b4598f29bd0f4c3e2528e34866a8953cd0f3354e3bd2nat,
        0x989acabf6c2546aa02b673a5978588dd7ec5cac385588a97110711c2aebb25anat,
        0x4aa3db6db7cc93035412cd1bc0392cffe7b51b8c2d564a68971f8e974b06c5eanat,
    );
    lemma_pow_mod_square_times(
        0x2cf476183ee678cc7ff9351f700c215bf2e600bd2023b6f03aaff1dc96f1703bnat,
        51208,
        modulus(),
        0x4aa3db6db7cc93035412cd1bc0392cffe7b51b8c2d564a68971f8e974b06c5eanat,
        0x870634f009a0b56d616b87225a52c7a783aaaaf71d8cd30a52abb4ad8a03bb19250b4b543198397b8f2d0bbc1b4db6b8a3b3992ac54a0e384a6a650ffc9a980nat,
        0x6f8172dcb3ab36c3aaaf3553300419b2a17458d648c68461e3bcdd6647caae0cnat,
    );
}

proof fn squarings_modulus_30_1()
    ensures
        pow_mod(
            0x2cf476183ee678cc7ff9351f700c215bf2e600bd2023b6f03aaff1dc96f1703bnat,
            52437899,
            modulus(),
        ) == 0x5aaee28f71d25baa45eac6ded8ccd869853b1a2682aa49a8bc77f97a5fb5a816nat,
{
    squarings_modulus_30_0();
    lemma_pow_mod_square_times(
        0x2cf476183ee678cc7ff9351f700c215bf2e600bd2023b6f03aaff1dc96f1703bnat,
        102417,
        modulus(),
        0x6f8172dcb3ab36c3aaaf3553300419b2a17458d648c68461e3bcdd6647caae0cnat,
        0x12d57e242390b7033a73eee653f2bf40381994be98a476446ec9744fe1bab682a6fca1456f3a94ab22606b1abcb1bce436f129335d482992ea175235ccbdee0fnat,
        0x15d8ae32e3f77c2ac7aea63958284870a4f7e4565676a4aa893203c4b0cfa321nat,
    );
    lemma_pow_mod_square_times(
        0x2cf476183ee678cc7ff9351f700c215bf2e600bd2023b6f03aaff1dc96f1703bnat,
        204835,
        modulus(),
        0x15d8ae32e3f77c2ac7aea63958284870a4f7e4565676a4aa893203c4b0cfa321nat,
        0xb91333e72faa6bf5c37c5cff22f4d688aaffb9319791b72a9e478100c84ac1be35f9703eecf664dd861b5cb7df40fc078344e742c6b4ed7bda5eed739dc489nat,
        0xf9b384322812b83478e70c5ff9da26c99684c4b2ca5f9ab97ec69649dbd0872nat,
    );
    lemma_pow_mod_square(
        0x2cf476183ee678cc7ff9351f700c215bf2e600bd2023b6f03aaff1dc96f1703bnat,
        409671,
        modulus(),
        0xf9b384322812b83478e70c5ff9da26c99684c4b2ca5f9ab97ec69649dbd0872nat,
        0x219d69fdc56fb45f4c9014ead0c9d2bf50a9fb37682e99c93e4010a2912547bnat,
        0x5615693b211aa0dfddc6c678cef2f7091f4266300ff3c9a3512bd8722388fe49nat,
    );
    lemma_pow_mod_square(
        0x2cf476183ee678cc7ff9351f700c215bf2e600bd2023b6f03aaff1dc96f1703bnat,
        819342,
        modulus(),
        0x5615693b211aa0dfddc6c678cef2f7091f4266300ff3c9a3512bd8722388fe49nat,
        0x3fec1460e3abc3df82fe9999ff9623c982f94f29155d71e91abca69ad4d4ddd7nat,
        0x38cd798232216f372314345f9ee7f70b91427e36a56b14930aa9f174b5012fanat,
    );
    lemma_pow_mod_square(
        0x2cf476183ee678cc7ff9351f700c215bf2e600bd2023b6f03aaff1dc96f1703bnat,
        1638684,
        modulus(),
        0x38cd798232216f372314345f9ee7f70b91427e36a56b14930aa9f174b5012fanat,
        0x1bd50a601808417039cbee5595601e7c788366b634454f5af21dbe8ba3a606nat,
        0x60c6085a22838bd797b02984437265e5f931ce5b8cafdc2c3ad7815dce04761enat,
    );
    lemma_pow_mod_square_times(
        0x2cf476183ee678cc7ff9351f700c215bf2e600bd2023b6f03aaff1dc96f1703bnat,
        3277368,
        modulus(),
        0x60c6085a22838bd797b02984437265e5f931ce5b8cafdc2c3ad7815dce04761enat,
        0xe2fa06445a17f91cbd01a14cf005834eaafe3ef7e5fee464301a1d63a2529cf1fc93c9238c584d87d9c6dc560b7aa5592dc4ec367f71da9467dc3631afc9cednat,
        0x53586998263d2349ae00fed5541fda120e113d3889a09e526c51008d7e0daa7fnat,
    );
    lemma_pow_mod_square(
        0x2cf476183ee678cc7ff9351f700c215bf2e600bd2023b6f03aaff1dc96f1703bnat,
        6554737,
        modulus(),
        0x53586998263d2349ae00fed5541fda120e113d3889a09e526c51008d7e0daa7fnat,
        0x3beb925f3a4dcdfc431f22f4b3d1e29b20f4da3252b8d92c6b30a4d581925b9anat,
        0x4370c641f29aece504add649519142bc7793f50d202e67543bdefb3a44e08f67nat,
    );
    lemma_pow_mod_square_times(
        0x2cf476183ee678cc7ff9351f700c215bf2e600bd2023b6f03aaff1dc96f1703bnat,
        13109474,
        modulus(),
        0x4370c641f29aece504add649519142bc7793f50d202e67543bdefb3a44e08f67nat,
        0x6e3b84403288ea03674f51cdcd61a4eafeeca4b299aa3cb1637286a862567b6fc3540bcfccdec9bb5a24065a23089f0b006120ba355c2316fa4f3df4531f33cnat,
        0x7219d57cc3043588329fc3133b6e1c42504a8515694194c26dc00eaaf65a2fcfnat,
    );
    lemma_pow_mod_square_times(
        0x2cf476183ee678cc7ff9351f700c215bf2e600bd2023b6f03aaff1dc96f1703bnat,
        26218949,
        modulus(),
        0x7219d57cc3043588329fc3133b6e1c42504a8515694194c26dc00eaaf65a2fcfnat,
        0x13b88aab1d7922f2ab869d3dbfd936bb4ced23193ff8869e83ae7870995a6ffc1c01a985b043920b8f7b596cb5b5ec746eb2f67ce739f572bf1687805ebfd145nat,
        0x5aaee28f71d25baa45eac6ded8ccd869853b1a2682aa49a8bc77f97a5fb5a816nat,
    );
}

/// A power of the generator 7, from a lower one raised to the power 52437899.
proof fn power_modulus_29()
    ensures
        pow_mod(
            7,
            0x1e4328250fc8d1b533bd4dadc6ed5b9bf7921f018c432424af4c80000000nat,
            modulus(),
        ) == 0x5aaee28f71d25baa45eac6ded8ccd869853b1a2682aa49a8bc77f97a5fb5a816nat,
{
    power_modulus_25();
    squarings_modulus_30_1();
    lemma_pow_mod_compose(
        7,
        0x9aea8f670c0829d0fca844b1d10831006ca13bdccfd7580000000nat,
        52437899,
        modulus(),
        0x2cf476183ee678cc7ff9351f700c215bf2e600bd2023b6f03aaff1dc96f1703bnat,
        0x5aaee28f71d25baa45eac6ded8ccd869853b1a2682aa49a8bc77f97a5fb5a816nat,
    );
}

proof fn squarings_modulus_32_0()
    ensures
        pow_mod(
            0x5aaee28f71d25baa45eac6ded8ccd869853b1a2682aa49a8bc77f97a5fb5a816nat,
            2,
            modulus(),
        ) == 0x3dd479f5454967ce0dcb2b172ac73d5ce93d58a856569621c247fb7ed7f91c4fnat,
{
    lemma_pow_mod_start(
        0x5aaee28f71d25baa45eac6ded8ccd869853b1a2682aa49a8bc77f97a5fb5a816nat,
        modulus(),
    );
    lemma_pow_mod_square(
        0x5aaee28f71d25baa45eac6ded8ccd869853b1a2682aa49a8bc77f97a5fb5a816nat,
        1,
        modulus(),
        0x5aaee28f71d25baa45eac6ded8ccd869853b1a2682aa49a8bc77f97a5fb5a816nat,
        0x46ef7bfccff85cec51bfe57ff8535826ddf292f879dcfd7a29931eb5997fc595nat,
        0x3dd479f5454967ce0dcb2b172ac73d5ce93d58a856569621c247fb7ed7f91c4fnat,
    );
}

/// A power of the generator 7, from a lower one raised to the power 2.
proof fn power_modulus_31()
    ensures
        pow_mod(
            7,
            0x3c86504a1f91a36a677a9b5b8ddab737ef243e03188648495e9900000000nat,
            modulus(),
        ) == 0x3dd479f5454967ce0dcb2b172ac73d5ce93d58a856569621c247fb7ed7f91c4fnat,
{
    power_modulus_29();
    squarings_modulus_32_0();
    lemma_pow_mod_compose(
        7,
        0x1e4328250fc8d1b533bd4dadc6ed5b9bf7921f018c432424af4c80000000nat,
        2,
        modulus(),
        0x5aaee28f71d25baa45eac6ded8ccd869853b1a2682aa49a8bc77f97a5fb5a816nat,
        0x3dd479f5454967ce0dcb2b172ac73d5ce93d58a856569621c247fb7ed7f91c4fnat,
    );
}

proof fn squarings_modulus_34_0()
    ensures
        pow_mod(
            0x5aaee28f71d25baa45eac6ded8ccd869853b1a2682aa49a8bc77f97a5fb5a816nat,
            125527,
            modulus(),
        ) == 0x73eda753299d7d483339d80809a1d80553bda402fffe5bfeffffffff00000000nat,
{
    lemma_pow_mod_start(
        0x5aaee28f71d25baa45eac6ded8ccd869853b1a2682aa49a8bc77f97a5fb5a816nat,
        modulus(),
    );
    lemma_pow_mod_square_times(
        0x5aaee28f71d25baa45eac6ded8ccd869853b1a2682aa49a8bc77f97a5fb5a816nat,
        1,
        modulus(),
        0x5aaee28f71d25baa45eac6ded8ccd869853b1a2682aa49a8bc77f97a5fb5a816nat,
        0x1920a72451b81ce047cb98476dc4a6a09c681f7d2a8d524675f00e68eba08bec1c35943ce581a223d83d46ccbf1c27eca8043ee7842cd2b2b050fc0e40b71a59nat,
        0x495fd04b11ed9862f1eb3ec8402a35b3368b650f71d50dc6abed8769261def3fnat,
    );
    lemma_pow_mod_square_times(
        0x5aaee28f71d25baa45eac6ded8ccd869853b1a2682aa49a8bc77f97a5fb5a816nat,
        3,
        modulus(),
        0x495fd04b11ed9862f1eb3ec8402a35b3368b650f71d50dc6abed8769261def3fnat,
        0x107361aad4bd538b42bdf1a82f56dc85923ee0808e70f2993b62c0fe94a685411bdf65dacd64ff7231438792e0f4286ea48acf9ac2906b309eb411338922542fnat,
        0x35a57a5d2753ecdc4fcec4031742519d96dcd96a05c772c4f6826c0fd78694e7nat,
    );
    lemma_pow_mod_square_times(
        0x5aaee28f71d25baa45eac6ded8ccd869853b1a2682aa49a8bc77f97a5fb5a816nat,
        7,
        modulus(),
        0x35a57a5d2753ecdc4fcec4031742519d96dcd96a05c772c4f6826c0fd78694e7nat,
        0x8cb388e266053edbfcc25690365a57d66020cd96ec3318e446c01f1be69c34fd29046124778af33084a012469ba158efe261c33d761142415a530603a018648nat,
        0x51760f9b429b740bf78dd1b9cb362b2bab108799c4502b5ba22a51f5830b9b6enat,
    );
    lemma_pow_mod_square(
        0x5aaee28f71d25baa45eac6ded8ccd869853b1a2682aa49a8bc77f97a5fb5a816nat,
        15,
        modulus(),
        0x51760f9b429b740bf78dd1b9cb362b2bab108799c4502b5ba22a51f5830b9b6enat,
        0x393dd960bc226d0f6a7c6bfd5a71cdb47d3e5cb43d8eb887c42b7bc3b790a024nat,
        0x69ff4cc8cc8276b49c30043b0bf24d087dadd05ce2c6e07b9b2522859641c320nat,
    );
    lemma_pow_mod_square_times(
        0x5aaee28f71d25baa45eac6ded8ccd869853b1a2682aa49a8bc77f97a5fb5a816nat,
        30,
        modulus(),
        0x69ff4cc8cc8276b49c30043b0bf24d087dadd05ce2c6e07b9b2522859641c320nat,
        0x2254bbc8d6a5a5cf66215dbe162edfa0a670d9a5180f354f1d7fec8b2a1bd0c5eba0c34fa2b9fe06f82d86ca68512c3c54fa8159bb6b10b28cce729037ce2febnat,
        0x23d35387b4b5f9f8daa3c0509d5bc7f22b45900cff1b980e7c2dd599f648a815nat,
    );
    lemma_pow_mod_square(
        0x5aaee28f71d25baa45eac6ded8ccd869853b1a2682aa49a8bc77f97a5fb5a816nat,
        61,
        modulus(),
        0x23d35387b4b5f9f8daa3c0509d5bc7f22b45900cff1b980e7c2dd599f648a815nat,
        0xb123a460f1c13ed34c4099cf12738bd460afa372289cfe648c071a4a69c2b64nat,
        0x2ca0de406ad5eb03cead3d7684073f12ee7b8b1476ecb83b04b94c80af8f6655nat,
    );
    lemma_pow_mod_square_times(
        0x5aaee28f71d25baa45eac6ded8ccd869853b1a2682aa49a8bc77f97a5fb5a816nat,
        122,
        modulus(),
        0x2ca0de406ad5eb03cead3d7684073f12ee7b8b1476ecb83b04b94c80af8f6655nat,
        0x615f8a3eabe0c2b2a9df5617731194218475b836879dafc4f9e42a3b710ba1a7c900052ecf32cf89f0634563432819da4cb7e0a65b2576a68b2b48fd413e36dnat,
        0x164244dfe22e94285d09f5da95468af3e6ddbf0f36f62e5f8471a3f9122f1979nat,
    );
    lemma_pow_mod_square(
        0x5aaee28f71d25baa45eac6ded8ccd869853b1a2682aa49a8bc77f97a5fb5a816nat,
        245,
        modulus(),
        0x164244dfe22e94285d09f5da95468af3e6ddbf0f36f62e5f8471a3f9122f1979nat,
        0x446192986d22d44445c2678d4237c5b9b6d2c738b03b5042192049ce76575b1nat,
        0x9461344d31c606fa3e1c7af1cc1e487130e281e655c4c6d65ffbcb579916580nat,
    );
    lemma_pow_mod_square(
        0x5aaee28f71d25baa45eac6ded8ccd869853b1a2682aa49a8bc77f97a5fb5a816nat,
        490,
        modulus(),
        0x9461344d31c606fa3e1c7af1cc1e487130e281e655c4c6d65ffbcb579916580nat,
        0xbdea4168560ad288bd593b815f4f1f67292f144c1113cafe801b0dc0641a05nat,
        0x505ffdd3f7f4308d3b4265d4f6cac0f591e02f0a2a27b939a54c4a7e62da25fbnat,
    );
    lemma_pow_mod_square_times(
        0x5aaee28f71d25baa45eac6ded8ccd869853b1a2682aa49a8bc77f97a5fb5a816nat,
        980,
        modulus(),
        0x505ffdd3f7f4308d3b4265d4f6cac0f591e02f0a2a27b939a54c4a7e62da25fbnat,
        0x13bd573f0cf634b9dc2854ad400e1adab29c611ec042f3c4cd86541e5ee0d1460fb6caae929b67589b3d6fb53de5b415f426347ad4fef53c6ecedc9f2894bfeanat,
        0x3c56bf70700726e95ca01153441f1c487b4eb6dff636a69d25936ea4e368023cnat,
    );
    lemma_pow_mod_square(
        0x5aaee28f71d25baa45eac6ded8ccd869853b1a2682aa49a8bc77f97a5fb5a816nat,
        1961,
        modulus(),
        0x3c56bf70700726e95ca01153441f1c487b4eb6dff636a69d25936ea4e368023cnat,
        0x1f67c98210e95293ab6076f069672dc7c0ddb7585453c363bc3fbfda9655d7f5nat,
        0x16129998233ebe7645f3b82d854261ad3fa1776dd143adbd4c2e2332a26f261bnat,
    );
    lemma_pow_mod_square_times(
        0x5aaee28f71d25baa45eac6ded8ccd869853b1a2682aa49a8bc77f97a5fb5a816nat,
        3922,
        modulus(),
        0x16129998233ebe7645f3b82d854261ad3fa1776dd143adbd4c2e2332a26f261bnat,
        0x17d1b38f6579e7b9a2d66d506594c34ffda042d6cbd78c156dba7483819d2f15bb06b29fe4ac033d2472d25e73638f1a97a4fb7cf81ee2996e3bd51df5224c2nat,
        0x7113218147d097b8936d458a441edb75fe800e6a67803017f0f657c3337dd9e4nat,
    );
    lemma_pow_mod_square(
        0x5aaee28f71d25baa45eac6ded8ccd869853b1a2682aa49a8bc77f97a5fb5a816nat,
        7845,
        modulus(),
        0x7113218147d097b8936d458a441edb75fe800e6a67803017f0f657c3337dd9e4nat,
        0x6e4a97138615b1e109b4d90f8a722f699a3a135ecd5956acb465c5589d279784nat,
        0x6515663dacf419ee0a0cbe62dfd5fd6e24fb01ec10e46d6931201e32bcf4bb8cnat,
    );
    lemma_pow_mod_square_times(
        0x5aaee28f71d25baa45eac6ded8ccd869853b1a2682aa49a8bc77f97a5fb5a816nat,
        15690,
        modulus(),
        0x6515663dacf419ee0a0cbe62dfd5fd6e24fb01ec10e46d6931201e32bcf4bb8cnat,
        0x1f38c9c38f8b1d89d30b808cd58e621563d2980194b480797f3ddc1cfabb6c8093fec8b9f229d8a786bb02459c88564ba7df9905b0a8f80d9634ececf7dbaeefnat,
        0x24c1b1d0fd4e4bd17499b1ebcdb56b3648817417b39cc13a043ca15163731571nat,
    );
    lemma_pow_mod_square_times(
        0x5aaee28f71d25baa45eac6ded8ccd869853b1a2682aa49a8bc77f97a5fb5a816nat,
        31381,
        modulus(),
        0x24c1b1d0fd4e4bd17499b1ebcdb56b3648817417b39cc13a043ca15163731571nat,
        0x420d6542141fa3ddb695bf8f55f7c14dd2731138f9cda62b7f7e42d4ad85ee052ad9416491165e59c19b6339e3b5764802a926d48ba990dcf4652d79f1adb29nat,
        0x3c21218b3da5f87130c20e62bd71b0b859fec6cf9ac0cf9c818d60ac124bf22dnat,
    );
    lemma_pow_mod_square_times(
        0x5aaee28f71d25baa45eac6ded8ccd869853b1a2682aa49a8bc77f97a5fb5a816nat,
        62763,
        modulus(),
        0x3c21218b3da5f87130c20e62bd71b0b859fec6cf9ac0cf9c818d60ac124bf22dnat,
        0xb0c34a1cc29ab600b678cabfa1b12a76152951124c924f8a90b31dc8d0b250723190b50fe139be61c4915c7cea876df12e0311b8c38010af6bbaa80114a4e06nat,
        0x73eda753299d7d483339d80809a1d80553bda402fffe5bfeffffffff00000000nat,
    );
}

/// A power of the generator 7, from a lower one raised to the power 125527.
proof fn power_modulus_33()
    ensures
        pow_mod(
            7,
            0x39f6d3a994cebea4199cec0404d0ec02a9ded2017fff2dff7fffffff80000000nat,
            modulus(),
        ) == 0x73eda753299d7d483339d80809a1d80553bda402fffe5bfeffffffff00000000nat,
{
    power_modulus_29();
    squarings_modulus_34_0();
    lemma_pow_mod_compose(
        7,
        0x1e4328250fc8d1b533bd4dadc6ed5b9bf7921f018c432424af4c80000000nat,
        125527,
        modulus(),
        0x5aaee28f71d25baa45eac6ded8ccd869853b1a2682aa49a8bc77f97a5fb5a816nat,
        0x73eda753299d7d483339d80809a1d80553bda402fffe5bfeffffffff00000000nat,
    );
}

proof fn squarings_modulus_36_0()
    ensures
        pow_mod(
            0x38382fe1a45bf396e642a30c770edaab1f826f1394cf30e63e35a9fcc64570bcnat,
            98084,
            modulus(),
        ) == 0x33e0df330f529ad43e78459440956081d3695232545ca0ae44fd03ff04b4af49nat,
{
    lemma_pow_mod_start(
        0x38382fe1a45bf396e642a30c770edaab1f826f1394cf30e63e35a9fcc64570bcnat,
        modulus(),
    );
    lemma_pow_mod_square(
        0x38382fe1a45bf396e642a30c770edaab1f826f1394cf30e63e35a9fcc64570bcnat,
        1,
        modulus(),
        0x38382fe1a45bf396e642a30c770edaab1f826f1394cf30e63e35a9fcc64570bcnat,
        0x1b437ed45d54dde5b40b79b8b3558b725269da9a29b227dc23403e2443baccdbnat,
        0x11c76f2affe7d2bbed347b099eb7899c7bb550a5f808b3ad7f70360f83423d35nat,
    );
    lemma_pow_mod_square_times(
        0x38382fe1a45bf396e642a30c770edaab1f826f1394cf30e63e35a9fcc64570bcnat,
        2,
        modulus(),
        0x11c76f2affe7d2bbed347b099eb7899c7bb550a5f808b3ad7f70360f83423d35nat,
        0x994a3e0198ea0bde2b94f64563e477bd4ba722574098b595987f23eb6a96f9b1300a03276e005b5cd22de923169a605114854c187f4566ffce174116b96585nat,
        0x71b6c0141b337bfc0cc9765ab19ef9630f081df269c89b7b4fc9bbf488f11157nat,
    );
    lemma_pow_mod_square_times(
        0x38382fe1a45bf396e642a30c770edaab1f826f1394cf30e63e35a9fcc64570bcnat,
        5,
        modulus(),
        0x71b6c0141b337bfc0cc9765ab19ef9630f081df269c89b7b4fc9bbf488f11157nat,
        0x187ed10dcd591889d1e136c8003fdfad76365506aea03df7fb5ead721184763268caa20bac3a0a6d3e01a704bb3a0e8e0ef45efd79a4c16e9b7bb957bc2d5103nat,
        0x3916339ef212431f80d535b908052f991dae544789221a75d6202f30330d1d79nat,
    );
    lemma_pow_mod_square_times(
        0x38382fe1a45bf396e642a30c770edaab1f826f1394cf30e63e35a9fcc64570bcnat,
        11,
        modulus(),
        0x3916339ef212431f80d535b908052f991dae544789221a75d6202f30330d1d79nat,
        0x62c66d6ee15bfc769f566e2627fb7f3b9d3b1f79f396e7121ba984911ec186900f6c7a371b715034dfb5da967a2d989b31601c67d95cd37407cd4a410ec8941nat,
        0x2c2649bbe885883f7db42085babb016b56ff00dedc3325610f6cbf001cedbebbnat,
    );
    lemma_pow_mod_square_times(
        0x38382fe1a45bf396e642a30c770edaab1f826f1394cf30e63e35a9fcc64570bcnat,
        23,
        modulus(),
        0x2c2649bbe885883f7db42085babb016b56ff00dedc3325610f6cbf001cedbebbnat,
        0x3b141dedc944682d245d782b2d623a3838fe3d2c71f9358bc7334406cee46499a6d25431b650559f888665a28595819d6ea42f66c97a3caa0533250d0bb8026nat,
        0x23b7921646c06a68efb6b405c2b07effc70de5a08d12f189ef20145c97b97036nat,
    );
    lemma_pow_mod_square_times(
        0x38382fe1a45bf396e642a30c770edaab1f826f1394cf30e63e35a9fcc64570bcnat,
        47,
        modulus(),
        0x23b7921646c06a68efb6b405c2b07effc70de5a08d12f189ef20145c97b97036nat,
        0x26aa7d5c0170d429c3f4ade59fe1bd76489afc698f2fb5181497d5b6c160c7c9b527339c99a3e5c9797d98b2fe08866527c4f2f842c15444ed3102c2c6d2a75nat,
        0x2017820478fd68d1301eec2bde327551c8b4afc9c514ecd06280dcaf8e0df2fbnat,
    );
    lemma_pow_mod_square_times(
        0x38382fe1a45bf396e642a30c770edaab1f826f1394cf30e63e35a9fcc64570bcnat,
        95,
        modulus(),
        0x2017820478fd68d1301eec2bde327551c8b4afc9c514ecd06280dcaf8e0df2fbnat,
        0x1f37177dffbe2819fd3a7e5db48810194cd0e3c6cd5ba31a3de4b3f6dfa871420c77caf4700b5ffa7287e3fe5502c3fcc39366bf0f9aa24ac40eff661d89697nat,
        0x20abf59483eaddc528c030197b2fb3806997be85ac3a20aca044d4b6e37ae3c5nat,
    );
    lemma_pow_mod_square_times(
        0x38382fe1a45bf396e642a30c770edaab1f826f1394cf30e63e35a9fcc64570bcnat,
        191,
        modulus(),
        0x20abf59483eaddc528c030197b2fb3806997be85ac3a20aca044d4b6e37ae3c5nat,
        0x205a7e5910233099aa7af94e25500488fe5f329a80289e8bf9776a27eefa21417c102d8bc30834c7fda5922050a85904844bf634daf670959ea556eb356968cnat,
        0x542ae4f7ff5e49c6da79022b2496f73d85f19c2e9a7445a80650327beee5b5d0nat,
    );
    lemma_pow_mod_square(
        0x38382fe1a45bf396e642a30c770edaab1f826f1394cf30e63e35a9fcc64570bcnat,
        383,
        modulus(),
        0x542ae4f7ff5e49c6da79022b2496f73d85f19c2e9a7445a80650327beee5b5d0nat,
        0x3d1bb63591890dcef3d495da6008d16c3279e18055a4a9cf98f54a1caa5f4f9bnat,
        0x134d2b5d0a60405a8f8e0d8bfa38f77db74b81b918e7b6509e1be78bdce07965nat,
    );
    lemma_pow_mod_square(
        0x38382fe1a45bf396e642a30c770edaab1f826f1394cf30e63e35a9fcc64570bcnat,
        766,
        modulus(),
        0x134d2b5d0a60405a8f8e0d8bfa38f77db74b81b918e7b6509e1be78bdce07965nat,
        0x336ad9647c4d816a3c961e53c1d5832c99bbda87fa457fbca7c08f400c2c12cnat,
        0x4b5a53dbe6cd3f3314114621e87d84764dca7d2f5b477f7d32ff6760418de0adnat,
    );
    lemma_pow_mod_square_times(
        0x38382fe1a45bf396e642a30c770edaab1f826f1394cf30e63e35a9fcc64570bcnat,
        1532,
        modulus(),
        0x4b5a53dbe6cd3f3314114621e87d84764dca7d2f5b477f7d32ff6760418de0adnat,
        0xac1928bdd4ad6859872d190804174f1353b76df2b12a9860e2eeac60381a166983769ce24e6dabbc4a21be4b926d14ebdbc1be0ec1b8b8e3d146f57e54768fanat,
        0x563aefa43f7712fad2465a94e4d4bf973269f29b4647468900ce1f3f48e6222nat,
    );
    lemma_pow_mod_square(
        0x38382fe1a45bf396e642a30c770edaab1f826f1394cf30e63e35a9fcc64570bcnat,
        3065,
        modulus(),
        0x563aefa43f7712fad2465a94e4d4bf973269f29b4647468900ce1f3f48e6222nat,
        0x4023db2e08567787120cbfb5963a178d379f4708c720c4c4560be5ed3d249cnat,
        0x10c5019e9c851c8ecf2d65dc98bfefe75d778798997863791484e383e618e7e8nat,
    );
    lemma_pow_mod_square(
        0x38382fe1a45bf396e642a30c770edaab1f826f1394cf30e63e35a9fcc64570bcnat,
        6130,
        modulus(),
        0x10c5019e9c851c8ecf2d65dc98bfefe75d778798997863791484e383e618e7e8nat,
        0x26d00b199c7ced132238e47d10da7c0134542bc6d7e5432d3aca77b5c673313nat,
        0x52056da5836633470970fff8dbd89505307f068d98f5b79c678e1628d12d4f2dnat,
    );
    lemma_pow_mod_square_times(
        0x38382fe1a45bf396e642a30c770edaab1f826f1394cf30e63e35a9fcc64570bcnat,
        12260,
        modulus(),
        0x52056da5836633470970fff8dbd89505307f068d98f5b79c678e1628d12d4f2dnat,
        0xcbe7e11b1461f94d31a2880509cb002c56e9baceafeef79bdd2dba066102e742dffd10c14b2d1fba97da286a36991f05295c1b47f24151aaa06a98f71cfde69nat,
        0x4141624c37a96eb4864532fe68dc3d1baecfcdd6dc18193f4e25453457f248b3nat,
    );
    lemma_pow_mod_square(
        0x38382fe1a45bf396e642a30c770edaab1f826f1394cf30e63e35a9fcc64570bcnat,
        24521,
        modulus(),
        0x4141624c37a96eb4864532fe68dc3d1baecfcdd6dc18193f4e25453457f248b3nat,
        0x24bb5dd2eae8fa15fa58eb18884323816c5c7b1d789bebb326f2667edb5443benat,
        0x33d638448d4383addd3c9df65344b8f1765b9bdfa73f87163ff476ae55bce96bnat,
    );
    lemma_pow_mod_square(
        0x38382fe1a45bf396e642a30c770edaab1f826f1394cf30e63e35a9fcc64570bcnat,
        49042,
        modulus(),
        0x33d638448d4383addd3c9df65344b8f1765b9bdfa73f87163ff476ae55bce96bnat,
        0x172db6ff42bd0c3e6f80e8a015fc0825c87b5650df602335dcf52f4db3474370nat,
        0x33e0df330f529ad43e78459440956081d3695232545ca0ae44fd03ff04b4af49nat,
    );
}

proof fn squarings_modulus_36_1()
    ensures
        pow_mod(
            0x38382fe1a45bf396e642a30c770edaab1f826f1394cf30e63e35a9fcc64570bcnat,
            6428097800nat,
            modulus(),
        ) == 0x434aa199a716b4a1bc966d0fd89a37fab4de13a11967d9ba6ac8418d6e4f7510nat,
{
    squarings_modulus_36_0();
    lemma_pow_mod_square_times(
        0x38382fe1a45bf396e642a30c770edaab1f826f1394cf30e63e35a9fcc64570bcnat,
        98084,
        modulus(),
        0x33e0df330f529ad43e78459440956081d3695232545ca0ae44fd03ff04b4af49nat,
        0x5192e2167e82332353b7cd6ffcbb60f047777d572862f8e65d5672940d0580c96a8ac8189e5e49f290381f2d3d4da74c5fd8a495a8f04ee586687498857c722nat,
        0x11db87ab760b5ad2cef9edc2d1ef5c7c093690d1c76d9d6766ee5fb8ea2f3a5anat,
    );
    lemma_pow_mod_square_times(
        0x38382fe1a45bf396e642a30c770edaab1f826f1394cf30e63e35a9fcc64570bcnat,
        196169,
        modulus(),
        0x11db87ab760b5ad2cef9edc2d1ef5c7c093690d1c76d9d6766ee5fb8ea2f3a5anat,
        0x9aa589215e53a2da8ce723c7efc59c6dcb8441f9b45b73fa586f4aa61e70d1f5079ed084d07dec3cd4f85406d9f066d98ab1c1e1c0939537c66cf5039094a7nat,
        0x39c737c9574273eed9b43d65e7ed0e5272a6cbdd3ac7dbf10bd8867de24547c9nat,
    );
    lemma_pow_mod_square_times(
        0x38382fe1a45bf396e642a30c770edaab1f826f1394cf30e63e35a9fcc64570bcnat,
        392339,
        modulus(),
        0x39c737c9574273eed9b43d65e7ed0e5272a6cbdd3ac7dbf10bd8867de24547c9nat,
        0x652eb5089c020a46d243f3565a5c9d7b9afcf0334ec730b54e54fde74c76008d65944cc327f795c7d12bb5548fe5c5da1b66e4a32c7d66c36321ec771b322e9nat,
        0x463e088cf365e4baf294bba748caaf0288c8f348fa7cd6eb58287b82c235ba93nat,
    );
    lemma_pow_mod_square_times(
        0x38382fe1a45bf396e642a30c770edaab1f826f1394cf30e63e35a9fcc64570bcnat,
        784679,
        modulus(),
        0x463e088cf365e4baf294bba748caaf0288c8f348fa7cd6eb58287b82c235ba93nat,
        0x958bc95376e1873aa6754be53694ead0faadec4acec48ad790631554d75da0ffc47b6a21dad11ba912fddc381269a9697a55620985a94f65b636ef578d4004cnat,
        0x45cb7be414356beacfd77d007a1a70613e532c2036bad53ace78fabf513b7cd0nat,
    );
    lemma_pow_mod_square_times(
        0x38382fe1a45bf396e642a30c770edaab1f826f1394cf30e63e35a9fcc64570bcnat,
        1569359,
        modulus(),
        0x45cb7be414356beacfd77d007a1a70613e532c2036bad53ace78fabf513b7cd0nat,
        0x93a59682b2ca62d607840f10d8b720f54159f2379b89739242fdd7bf56aa3041b24ebc2485fe597385d8b3f48ac3deaf968fca6a1983f48fdba866aeeb94667nat,
        0x6ae7ca83dbaeabf8c361d50b35be78a539a6570a72a33b2492dda80288ecd599nat,
    );
    lemma_pow_mod_square_times(
        0x38382fe1a45bf396e642a30c770edaab1f826f1394cf30e63e35a9fcc64570bcnat,
        3138719,
        modulus(),
        0x6ae7ca83dbaeabf8c361d50b35be78a539a6570a72a33b2492dda80288ecd599nat,
        0x15a662e593a439281a7be9bcd6d790a45953953a56dc75facab689c1c84b7c9630a760e772803d13efe7f6552e372cf1626ddcb7f9b9690b0bccd12fa03e75f1nat,
        0xd5955ebc8bbd44ed51927ca7183aea11423899b5717ce17c2e6664dd350390bnat,
    );
    lemma_pow_mod_square(
        0x38382fe1a45bf396e642a30c770edaab1f826f1394cf30e63e35a9fcc64570bcnat,
        6277439,
        modulus(),
        0xd5955ebc8bbd44ed51927ca7183aea11423899b5717ce17c2e6664dd350390bnat,
        0x1898039a573370bcceb6ab63967bcbbce5143070c51f46c68a9b6dda89dcdd8nat,
        0x25230e292c67711c3acd142549565841c3bd445aa9dd4aeb25dc82c42cf818a1nat,
    );
    lemma_pow_mod_square_times(
        0x38382fe1a45bf396e642a30c770edaab1f826f1394cf30e63e35a9fcc64570bcnat,
        12554878,
        modulus(),
        0x25230e292c67711c3acd142549565841c3bd445aa9dd4aeb25dc82c42cf818a1nat,
        0x29cd1f4d4600d9c0145c889c152f39d08c73902e7ef83c0f84a73c4e9bc864be21901c933992938ac5367a0ff96bc543e79a913e1ef9308450dec3fd5a7df38nat,
        0x181a5afec255faa4f4c90b158bf9fe8cb8917ce0e455abcf1a03dc267ddf2c84nat,
    );
    lemma_pow_mod_square(
        0x38382fe1a45bf396e642a30c770edaab1f826f1394cf30e63e35a9fcc64570bcnat,
        25109757,
        modulus(),
        0x181a5afec255faa4f4c90b158bf9fe8cb8917ce0e455abcf1a03dc267ddf2c84nat,
        0x502e4e2fa10711747e2d174a89902c7b962cfbb3b8a698e6f2a757128c14e93nat,
        0x1c3830cbda7e143ffd463c18e773c1e043d7be159d1f5254c556a45954f4557dnat,
    );
    lemma_pow_mod_square(
        0x38382fe1a45bf396e642a30c770edaab1f826f1394cf30e63e35a9fcc64570bcnat,
        50219514,
        modulus(),
        0x1c3830cbda7e143ffd463c18e773c1e043d7be159d1f5254c556a45954f4557dnat,
        0x6de86b1d4a22e9b6a38a466e9bd79ad987c6daaf33496b9e96d9a53adec205bnat,
        0x371d64dcf891cd038d7fb049024f7b6901b4c183a8e451bdd217603e6ce81eaenat,
    );
    lemma_pow_mod_square(
        0x38382fe1a45bf396e642a30c770edaab1f826f1394cf30e63e35a9fcc64570bcnat,
        100439028,
        modulus(),
        0x371d64dcf891cd038d7fb049024f7b6901b4c183a8e451bdd217603e6ce81eaenat,
        0x1a33e8b26e44f8321e0e38acd2dcf759934e111a4da6b50c6204040ef6fe216bnat,
        0x27dc1018a38662ff3dc56e58f1d258cea41da5e88c59aa4b960425fe780f1cd9nat,
    );
    lemma_pow_mod_square(
        0x38382fe1a45bf396e642a30c770edaab1f826f1394cf30e63e35a9fcc64570bcnat,
        200878056,
        modulus(),
        0x27dc1018a38662ff3dc56e58f1d258cea41da5e88c59aa4b960425fe780f1cd9nat,
        0xdb47617c296fc1334432e131746e54a32e8edc42f2ee1c3275e41bd65aab935nat,
        0x32a082c5543c579326661d00fa53a0f57382ed6eb20b2a4345b69c036f0376bcnat,
    );
    lemma_pow_mod_square_times(
        0x38382fe1a45bf396e642a30c770edaab1f826f1394cf30e63e35a9fcc64570bcnat,
        401756112,
        modulus(),
        0x32a082c5543c579326661d00fa53a0f57382ed6eb20b2a4345b69c036f0376bcnat,
        0x4daf8f985453c32088602b8bdda3818638f9f846b7cacb270827ab53d6e98d0d60ff02b7d73969d699653dfa344866bf5d8396c5931e7a3b52b17e307923dfdnat,
        0x6799b49f89a63c13acf82e3ef819ffe48e25031096ae064ee1d5de38eba0e5c3nat,
    );
    lemma_pow_mod_square(
        0x38382fe1a45bf396e642a30c770edaab1f826f1394cf30e63e35a9fcc64570bcnat,
        803512225,
        modulus(),
        0x6799b49f89a63c13acf82e3ef819ffe48e25031096ae064ee1d5de38eba0e5c3nat,
        0x5c955d23b374f34e18bb9ed1f31051059e67c152a63df740c183d44ad037a6d0nat,
        0x38ab9133f938e44f14ec19e99b8b93f58fe672c3ccdf9da028f556c933becbb9nat,
    );
    lemma_pow_mod_square(
        0x38382fe1a45bf396e642a30c770edaab1f826f1394cf30e63e35a9fcc64570bcnat,
        1607024450,
        modulus(),
        0x38ab9133f938e44f14ec19e99b8b93f58fe672c3ccdf9da028f556c933becbb9nat,
        0x1bb3d9ee1ba10a71f9bfdb4c71ba541aa5925371d6ed6b41b057de2c4819bd77nat,
        0x269e16f37203cc9971ba44f4a3ebadc3c1df5e03efbd7563d4cda72b76a12e3anat,
    );
    lemma_pow_mod_square(
        0x38382fe1a45bf396e642a30c770edaab1f826f1394cf30e63e35a9fcc64570bcnat,
        3214048900nat,
        modulus(),
        0x269e16f37203cc9971ba44f4a3ebadc3c1df5e03efbd7563d4cda72b76a12e3anat,
        0xcdd35f541530d29f6fe6781ad45505bbb881c6ef1cd382c40875e1b36fd7014nat,
        0x434aa199a716b4a1bc966d0fd89a37fab4de13a11967d9ba6ac8418d6e4f7510nat,
    );
}

proof fn squarings_modulus_36_2()
    ensures
        pow_mod(
            0x38382fe1a45bf396e642a30c770edaab1f826f1394cf30e63e35a9fcc64570bcnat,
            13164744295546nat,
            modulus(),
        ) == 0x1a3cea85c2d27c5cd8e9e1f02aa608d7b237cda0cf23ab848d46c74f546fcf6enat,
{
    squarings_modulus_36_1();
    lemma_pow_mod_square_times(
        0x38382fe1a45bf396e642a30c770edaab1f826f1394cf30e63e35a9fcc64570bcnat,
        6428097800nat,
        modulus(),
        0x434aa199a716b4a1bc966d0fd89a37fab4de13a11967d9ba6ac8418d6e4f7510nat,
        0x893ed77166c42b95948648fd2ae2d5d11cc40c5cb5bb09e7f20034d973d1e82e3b3a376fb18843050d0985b0fd36c82ab8064bd1279279d9074cbb08c6b6796nat,
        0x11d26b20babf79f4fb082ac60d2307bd4c03f3e6181280257702e192671ed46anat,
    );
    lemma_pow_mod_square(
        0x38382fe1a45bf396e642a30c770edaab1f826f1394cf30e63e35a9fcc64570bcnat,
        12856195601nat,
        modulus(),
        0x11d26b20babf79f4fb082ac60d2307bd4c03f3e6181280257702e192671ed46anat,
        0x2bd644ba932705e07621484432d85add0be2b10ff528fc9139dd8895ccabd6dnat,
        0xb4ada2013ac5cdb37ddf6500a4dd7777a0b0907db0333c520eb546f684cfe77nat,
    );
    lemma_pow_mod_square(
        0x38382fe1a45bf396e642a30c770edaab1f826f1394cf30e63e35a9fcc64570bcnat,
        25712391202nat,
        modulus(),
        0xb4ada2013ac5cdb37ddf6500a4dd7777a0b0907db0333c520eb546f684cfe77nat,
        0x11997dc41f97437d0990f0e45c1f87ff638a733b28c70b139489af5307d2c95nat,
        0xca3dbbced36d5e3bf94360fdc0fd0c38a432865d380e1e609effaba931b2ebcnat,
    );
    lemma_pow_mod_square(
        0x38382fe1a45bf396e642a30c770edaab1f826f1394cf30e63e35a9fcc64570bcnat,
        51424782404nat,
        modulus(),
        0xca3dbbced36d5e3bf94360fdc0fd0c38a432865d380e1e609effaba931b2ebcnat,
        0x160d123b97a0d78152e4132db515695f925a7e0bbe176af4a7cf70b5d067cccnat,
        0x596ca7b09f2a0ed48068c076ca8ab2e640c20d128da6a44dbce0d97f6f299d44nat,
    );
    lemma_pow_mod_square_times(
        0x38382fe1a45bf396e642a30c770edaab1f826f1394cf30e63e35a9fcc64570bcnat,
        102849564808nat,
        modulus(),
        0x596ca7b09f2a0ed48068c076ca8ab2e640c20d128da6a44dbce0d97f6f299d44nat,
        0xf26042c53f72298ca5b31c47abc5925368b33fa71f08d73a29b292080b66f1e6589154059f666305ffeaa9a70763abe07ea840e4d99977f10ae1e45b903cc85nat,
        0x209306e9ec307d0b97a9c635a83d35272de47051ee66701e01039b3fec7cd73bnat,
    );
    lemma_pow_mod_square_times(
        0x38382fe1a45bf396e642a30c770edaab1f826f1394cf30e63e35a9fcc64570bcnat,
        205699129617nat,
        modulus(),
        0x209306e9ec307d0b97a9c635a83d35272de47051ee66701e01039b3fec7cd73bnat,
        0x202930310bedf7e53d66d6664b4edd9dbef70819241241945ececfaf45a11ade45dd8060ff18474a7c039a31c6debf0d365bce43fe1323c2afaa32f64f918b2nat,
        0x126eb78048518e0965365bd2be7b9e76f2c14efbac3a16593aac99808b43ebaanat,
    );
    lemma_pow_mod_square_times(
        0x38382fe1a45bf396e642a30c770edaab1f826f1394cf30e63e35a9fcc64570bcnat,
        411398259235nat,
        modulus(),
        0x126eb78048518e0965365bd2be7b9e76f2c14efbac3a16593aac99808b43ebaanat,
        0xa4c3db2d57dd0ed99ff17d1f8f0dc6bebe511332c243b8b41e57ba65142f00d9571887cd4af51f03df41dad4bcada92ee28b09d71af18d7f5dae28082d5a68nat,
        0x3e56df6c8e45f4d41e06cec41a4267dd4e21841b38924406c6b13dc3e95ddd08nat,
    );
    lemma_pow_mod_square_times(
        0x38382fe1a45bf396e642a30c770edaab1f826f1394cf30e63e35a9fcc64570bcnat,
        822796518471nat,
        modulus(),
        0x3e56df6c8e45f4d41e06cec41a4267dd4e21841b38924406c6b13dc3e95ddd08nat,
        0x75c9c6bae613b300f7a4fcb51bf077d448634d969eaf2346701779cb71075b8897514480927b1fb794ad05c9135c5801203f47d8453920507ecfc8c52559953nat,
        0x1a8e00137d4c7896145db9be43a8e0f8b6fc42355af26f044703e318ac8755adnat,
    );
    lemma_pow_mod_square(
        0x38382fe1a45bf396e642a30c770edaab1f826f1394cf30e63e35a9fcc64570bcnat,
        1645593036943nat,
        modulus(),
        0x1a8e00137d4c7896145db9be43a8e0f8b6fc42355af26f044703e318ac8755adnat,
        0x615288dd8edf8549344b699d849a9ff327effe1061e11837c9a8965e560662dnat,
        0x60a8a884f9951e3ae51acbee733f9d0a15b6cfaaed54682306adde30bc1f0bcnat,
    );
    lemma_pow_mod_square_times(
        0x38382fe1a45bf396e642a30c770edaab1f826f1394cf30e63e35a9fcc64570bcnat,
        3291186073886nat,
        modulus(),
        0x60a8a884f9951e3ae51acbee733f9d0a15b6cfaaed54682306adde30bc1f0bcnat,
        0x11b2db0a0ba20b446f4c58462312f2b95c9e2f976a7380183eed3a55970dda95c940c53a40e55d88993ae6fb6673c68eecae8ddb1d12d5b684f299402659c2nat,
        0x1209b61d2fce18b87047f9024131ecc27ddf3dcefa9c664c7d01ba7015f409fenat,
    );
    lemma_pow_mod_square(
        0x38382fe1a45bf396e642a30c770edaab1f826f1394cf30e63e35a9fcc64570bcnat,
        6582372147773nat,
        modulus(),
        0x1209b61d2fce18b87047f9024131ecc27ddf3dcefa9c664c7d01ba7015f409fenat,
        0x2ce7ed453bd011c47918b5d95f40be87c84a0e0b8636452ccc909cd64240896nat,
        0x1a3cea85c2d27c5cd8e9e1f02aa608d7b237cda0cf23ab848d46c74f546fcf6enat,
    );
}

/// A power of the generator 7, from a lower one raised to the power 13164744295546.
proof fn power_modulus_35()
    ensures
        pow_mod(
            7,
            0x50df78fddbe36a0d2015b9901e870fcfa11167a80acc300000000nat,
            modulus(),
        ) == 0x1a3cea85c2d27c5cd8e9e1f02aa608d7b237cda0cf23ab848d46c74f546fcf6enat,
{
    power_modulus_23();
    squarings_modulus_36_2();
    lemma_pow_mod_compose(
        7,
        0x6c124493526070ba8978d5770f78cffd7f80000000nat,
        13164744295546nat,
        modulus(),
        0x38382fe1a45bf396e642a30c770edaab1f826f1394cf30e63e35a9fcc64570bcnat,
        0x1a3cea85c2d27c5cd8e9e1f02aa608d7b237cda0cf23ab848d46c74f546fcf6enat,
    );
}

proof fn squarings_modulus_38_0()
    ensures
        pow_mod(
            0x1a3cea85c2d27c5cd8e9e1f02aa608d7b237cda0cf23ab848d46c74f546fcf6enat,
            77889,
            modulus(),
        ) == 0x19cc6d6cd7539a4dd8831236d71f884b4c2f71491d00dcd1aa40eb9d68e0f2cenat,
{
    lemma_pow_mod_start(
        0x1a3cea85c2d27c5cd8e9e1f02aa608d7b237cda0cf23ab848d46c74f546fcf6enat,
        modulus(),
    );
    lemma_pow_mod_square(
        0x1a3cea85c2d27c5cd8e9e1f02aa608d7b237cda0cf23ab848d46c74f546fcf6enat,
        1,
        modulus(),
        0x1a3cea85c2d27c5cd8e9e1f02aa608d7b237cda0cf23ab848d46c74f546fcf6enat,
        0x5f03bc3d3737a0fc2741bed3243a4a87596fcfcceea8de308b91d44459b0dc0nat,
        0x72e70152c9c6a2742037a17269000f289864745eee094010e6628b5573dc0584nat,
    );
    lemma_pow_mod_square(
        0x1a3cea85c2d27c5cd8e9e1f02aa608d7b237cda0cf23ab848d46c74f546fcf6enat,
        2,
        modulus(),
        0x72e70152c9c6a2742037a17269000f289864745eee094010e6628b5573dc0584nat,
        0x71e2ae6187ef26220813db377efa0512ee8477ab2e6377778410582f97826b3enat,
        0x318994d050e0bd761f64dbf1b5f08e991510bc66bc1dab2a8f0a7ec47b7c00d2nat,
    );
    lemma_pow_mod_square_times(
        0x1a3cea85c2d27c5cd8e9e1f02aa608d7b237cda0cf23ab848d46c74f546fcf6enat,
        4,
        modulus(),
        0x318994d050e0bd761f64dbf1b5f08e991510bc66bc1dab2a8f0a7ec47b7c00d2nat,
        0x22b66d9ce788242b79075b347c20df6b77165a2e501e65007a25ed88855c13347f5df92a13b744dd0bb4bcd18aba48b052f568b00c5de92a5bbd8c755f02396nat,
        0x18110c8df9a480a5ea34963bb3a6fc0ca185d00a69310468eb13b46cd940dda2nat,
    );
    lemma_pow_mod_square_times(
        0x1a3cea85c2d27c5cd8e9e1f02aa608d7b237cda0cf23ab848d46c74f546fcf6enat,
        9,
        modulus(),
        0x18110c8df9a480a5ea34963bb3a6fc0ca185d00a69310468eb13b46cd940dda2nat,
        0x83170e30a1c9c178dba1c7dd00394d974f4a02f3a7304b5194a7e8622253a5b3f9f275a7fadc56e6f874034cb2a62d389ff79d4525e2bf70aa3db7e1de76a8nat,
        0x6e3eab4f3264b527d49cf86c5b5c26b4904161b6eb0452cee3ba0b5aaa87aa10nat,
    );
    lemma_pow_mod_square(
        0x1a3cea85c2d27c5cd8e9e1f02aa608d7b237cda0cf23ab848d46c74f546fcf6enat,
        19,
        modulus(),
        0x6e3eab4f3264b527d49cf86c5b5c26b4904161b6eb0452cee3ba0b5aaa87aa10nat,
        0x68d7046698ebf287a8b154aa0df979066e62d13f8eacc841f79b5e1df5e295ecnat,
        0x23bcdd800adcfc939861b701f977daf1ae73b27b733d9d077f20a0d017f6ab14nat,
    );
    lemma_pow_mod_square(
        0x1a3cea85c2d27c5cd8e9e1f02aa608d7b237cda0cf23ab848d46c74f546fcf6enat,
        38,
        modulus(),
        0x23bcdd800adcfc939861b701f977daf1ae73b27b733d9d077f20a0d017f6ab14nat,
        0xb045cbf0055270ba535dce4794e7b6690b7e633e3ba99ef3304363438cae3f5nat,
        0x61ee6c474a313e8710bc50aa9f958141d16ea233d3bfd9d5ebb3eeab9bf8d59bnat,
    );
    lemma_pow_mod_square(
        0x1a3cea85c2d27c5cd8e9e1f02aa608d7b237cda0cf23ab848d46c74f546fcf6enat,
        76,
        modulus(),
        0x61ee6c474a313e8710bc50aa9f958141d16ea233d3bfd9d5ebb3eeab9bf8d59bnat,
        0x52ba6e0fea13faa6ff9b6c83c390b7225c236de333a04950ca5bd37611179dednat,
        0x2ccb217576046487667f8aaacb8e17d86448d8f9bf44b531fa1ea0112f73adecnat,
    );
    lemma_pow_mod_square(
        0x1a3cea85c2d27c5cd8e9e1f02aa608d7b237cda0cf23ab848d46c74f546fcf6enat,
        152,
        modulus(),
        0x2ccb217576046487667f8aaacb8e17d86448d8f9bf44b531fa1ea0112f73adecnat,
        0x114ec718c40a7bab2b140d52b185d869cc35f69fc60f0cc8f6e882eeb4f11119nat,
        0xfcf87fbe20c30c1095f38363a16e09f88fcd2b42a3a62dc60e855a4ab3fc077nat,
    );
    lemma_pow_mod_square(
        0x1a3cea85c2d27c5cd8e9e1f02aa608d7b237cda0cf23ab848d46c74f546fcf6enat,
        304,
        modulus(),
        0xfcf87fbe20c30c1095f38363a16e09f88fcd2b42a3a62dc60e855a4ab3fc077nat,
        0x22803d448d2e5082273a64b1ccaed8f9e2658fc7b89d85bad0cd5d3b1faae29nat,
        0x564c63fb65af1ddcc866a97effc44c7d3c8d1753679fcfb34ea9b1cc934a0928nat,
    );
    lemma_pow_mod_square_times(
        0x1a3cea85c2d27c5cd8e9e1f02aa608d7b237cda0cf23ab848d46c74f546fcf6enat,
        608,
        modulus(),
        0x564c63fb65af1ddcc866a97effc44c7d3c8d1753679fcfb34ea9b1cc934a0928nat,
        0x69590fd2e801029ef63116c97813933682deadeb26a4b3ad3488c7335d887fd37fec33202e559ef7b38c3eb8075c568c72e26e4d9f709bb889b289dc878408enat,
        0x734e1739ac389378bcb1ff9d193b35420f4833b6f4d64e2b397566b9534b8ef2nat,
    );
    lemma_pow_mod_square(
        0x1a3cea85c2d27c5cd8e9e1f02aa608d7b237cda0cf23ab848d46c74f546fcf6enat,
        1217,
        modulus(),
        0x734e1739ac389378bcb1ff9d193b35420f4833b6f4d64e2b397566b9534b8ef2nat,
        0x72af62bf334e97cab344c8f6faf258a46c4486fe0745a7ff2ce5ced432c58aa2nat,
        0x487cf5e33c860471fd7fbe6f8068f12f029290bd58a2f405274b428fcad7d222nat,
    );
    lemma_pow_mod_square(
        0x1a3cea85c2d27c5cd8e9e1f02aa608d7b237cda0cf23ab848d46c74f546fcf6enat,
        2434,
        modulus(),
        0x487cf5e33c860471fd7fbe6f8068f12f029290bd58a2f405274b428fcad7d222nat,
        0x2d535e9c60c23967a4c9942faa63eeb18e40b68f10ee0a95781bf5d5143ba406nat,
        0x39118c6e8a65a39cc4fa9bfa38fa6131030c737ddde77e709e3b45bd355c287enat,
    );
    lemma_pow_mod_square(
        0x1a3cea85c2d27c5cd8e9e1f02aa608d7b237cda0cf23ab848d46c74f546fcf6enat,
        4868,
        modulus(),
        0x39118c6e8a65a39cc4fa9bfa38fa6131030c737ddde77e709e3b45bd355c287enat,
        0x1c17e80ebd38f6f19cbf846a920f0423ac5d143149a290c745fa8b38db198f67nat,
        0x5f529409f37c5a5be7a116c7ff87f2741a8c4c3a94ade12a4a3a042b71de0e9dnat,
    );
    lemma_pow_mod_square(
        0x1a3cea85c2d27c5cd8e9e1f02aa608d7b237cda0cf23ab848d46c74f546fcf6enat,
        9736,
        modulus(),
        0x5f529409f37c5a5be7a116c7ff87f2741a8c4c3a94ade12a4a3a042b71de0e9dnat,
        0x4e611ff99f2fb5c59cba643a0656fa66c1f6ba705d736dccbd0fde3ff16297fdnat,
        0x58b5cdd2716115e005a06a818fcb11bcc2266fcd0eae3df3fb2a53ff01bef44cnat,
    );
    lemma_pow_mod_square(
        0x1a3cea85c2d27c5cd8e9e1f02aa608d7b237cda0cf23ab848d46c74f546fcf6enat,
        19472,
        modulus(),
        0x58b5cdd2716115e005a06a818fcb11bcc2266fcd0eae3df3fb2a53ff01bef44cnat,
        0x43e1e58b0518862f60f68d3a9fe3d7670253a955d646442e7834ee879ed4574anat,
        0x59c1a467e8b123b238a366ff9bc23ecf1570cc310e0c8c6a4666c82831c9f46nat,
    );
    lemma_pow_mod_square_times(
        0x1a3cea85c2d27c5cd8e9e1f02aa608d7b237cda0cf23ab848d46c74f546fcf6enat,
        38944,
        modulus(),
        0x59c1a467e8b123b238a366ff9bc23ecf1570cc310e0c8c6a4666c82831c9f46nat,
        0x71f5b0395731ccbbe78cf24907580638e99fbfb82adf541cc0bc276cf1a37959325d70e44b74ac1d76896bf455edd793d30bb6ed1d6988b4687792e343aaanat,
        0x19cc6d6cd7539a4dd8831236d71f884b4c2f71491d00dcd1aa40eb9d68e0f2cenat,
    );
}

proof fn squarings_modulus_38_1()
    ensures
        pow_mod(
            0x1a3cea85c2d27c5cd8e9e1f02aa608d7b237cda0cf23ab848d46c74f546fcf6enat,
            9969839,
            modulus(),
        ) == 0x6d8ceec08003f0a44f6c0b36a44ab7b7576b0589fa20719fc0b3e86b24aeeacfnat,
{
    squarings_modulus_38_0();
    lemma_pow_mod_square(
        0x1a3cea85c2d27c5cd8e9e1f02aa608d7b237cda0cf23ab848d46c74f546fcf6enat,
        77889,
        modulus(),
        0x19cc6d6cd7539a4dd8831236d71f884b4c2f71491d00dcd1aa40eb9d68e0f2cenat,
        0x5bdbdacbda4117e51146ebedfcd701d7713a3806b1f443a7ac530df6a236680nat,
        0x3a3470f44f4d7943d4e8129a08812b1a66a80165d16b69cabb05c53dc4a6b744nat,
    );
    lemma_pow_mod_square_times(
        0x1a3cea85c2d27c5cd8e9e1f02aa608d7b237cda0cf23ab848d46c74f546fcf6enat,
        155778,
        modulus(),
        0x3a3470f44f4d7943d4e8129a08812b1a66a80165d16b69cabb05c53dc4a6b744nat,
        0x2fec2377cf48c761cf2ead5b5021fc55c41948cddd447f8334481da7bce68b2d64c36a1e292e3f4946c39f9e4a44e22e5ce1d9e592de0509facfa802aef0ce9nat,
        0x96f579902569a55c423206107bd8d4d5d5e5b8372d98c102b82fbc2c81fb5f7nat,
    );
    lemma_pow_mod_square(
        0x1a3cea85c2d27c5cd8e9e1f02aa608d7b237cda0cf23ab848d46c74f546fcf6enat,
        311557,
        modulus(),
        0x96f579902569a55c423206107bd8d4d5d5e5b8372d98c102b82fbc2c81fb5f7nat,
        0xc49323eb5c5adba29c1e148552a40873d2c3cc697b188643460bc0e0f5ddaenat,
        0x40b1c6e568be966abab077f5c4c5a91864a6dff45ed29fc081df8688a23356a3nat,
    );
    lemma_pow_mod_square_times(
        0x1a3cea85c2d27c5cd8e9e1f02aa608d7b237cda0cf23ab848d46c74f546fcf6enat,
        623114,
        modulus(),
        0x40b1c6e568be966abab077f5c4c5a91864a6dff45ed29fc081df8688a23356a3nat,
        0x3b34567ab015391ab13d0137230b9a504bc6dc3deafdeef1006a052c341441e6024e77dc4a187bd714c5e2fe2da5b5d18564c0804637924471a25bd1cfef6eenat,
        0x2449485a085c99be9d2b99bc30301663211d7682e5854ecda378b0465ffee070nat,
    );
    lemma_pow_mod_square_times(
        0x1a3cea85c2d27c5cd8e9e1f02aa608d7b237cda0cf23ab848d46c74f546fcf6enat,
        1246229,
        modulus(),
        0x2449485a085c99be9d2b99bc30301663211d7682e5854ecda378b0465ffee070nat,
        0x12a017f26db3b8a2f6343bc6168a17e53ffde02c58222480e05b3ebb316949844c09e980bdbb37353ac4adf73d1f54f8078d647970b7caa8bb27c85e152f386nat,
        0x3bf0df82a71eab28cb1cb1ce520145a256b34388ee0b76830c985c388d191a7anat,
    );
    lemma_pow_mod_square_times(
        0x1a3cea85c2d27c5cd8e9e1f02aa608d7b237cda0cf23ab848d46c74f546fcf6enat,
        2492459,
        modulus(),
        0x3bf0df82a71eab28cb1cb1ce520145a256b34388ee0b76830c985c388d191a7anat,
        0x32d2e3ec63ac8706cc7b4adf9bf69ca10e7ae782f651a2a06853294f28a23a3326e05d07d8dcab4fcf7fa0c94eeb88469d74a6cbee5c22552c21e6f5a9c6e9cnat,
        0x121e6dac2b7c89f93a43965ca8118911546d9487c2d4cde420dd3f9e9e0998dcnat,
    );
    lemma_pow_mod_square_times(
        0x1a3cea85c2d27c5cd8e9e1f02aa608d7b237cda0cf23ab848d46c74f546fcf6enat,
        4984919,
        modulus(),
        0x121e6dac2b7c89f93a43965ca8118911546d9487c2d4cde420dd3f9e9e0998dcnat,
        0x4a4d624cb3273a3328ffab37f82ec888411bbe0d258957c7d868117772e16fa2bae5f3941b74cbe1bcbfbaac112c741972286185f7ba424a5d42f2d283c211nat,
        0x6d8ceec08003f0a44f6c0b36a44ab7b7576b0589fa20719fc0b3e86b24aeeacfnat,
    );
}

/// A power of the generator 7, from a lower one raised to the power 9969839.
proof fn power_modulus_37()
    ensures
        pow_mod(
            7,
            0x300f030e9e000cb5822fe1d39dfd8723956566d3a146756794d00000000nat,
            modulus(),
        ) == 0x6d8ceec08003f0a44f6c0b36a44ab7b7576b0589fa20719fc0b3e86b24aeeacfnat,
{
    power_modulus_35();
    squarings_modulus_38_1();
    lemma_pow_mod_compose(
        7,
        0x50df78fddbe36a0d2015b9901e870fcfa11167a80acc300000000nat,
        9969839,
        modulus(),
        0x1a3cea85c2d27c5cd8e9e1f02aa608d7b237cda0cf23ab848d46c74f546fcf6enat,
        0x6d8ceec08003f0a44f6c0b36a44ab7b7576b0589fa20719fc0b3e86b24aeeacfnat,
    );
}

proof fn squarings_modulus_40_0()
    ensures
        pow_mod(
            0x1a3cea85c2d27c5cd8e9e1f02aa608d7b237cda0cf23ab848d46c74f546fcf6enat,
            79043,
            modulus(),
        ) == 0x134c3f2dc600b5e9df138a739d5b683fec08a9c1ab77f186a53b6e0c8aeada1cnat,
{
    lemma_pow_mod_start(
        0x1a3cea85c2d27c5cd8e9e1f02aa608d7b237cda0cf23ab848d46c74f546fcf6enat,
        modulus(),
    );
    lemma_pow_mod_square(
        0x1a3cea85c2d27c5cd8e9e1f02aa608d7b237cda0cf23ab848d46c74f546fcf6enat,
        1,
        modulus(),
        0x1a3cea85c2d27c5cd8e9e1f02aa608d7b237cda0cf23ab848d46c74f546fcf6enat,
        0x5f03bc3d3737a0fc2741bed3243a4a87596fcfcceea8de308b91d44459b0dc0nat,
        0x72e70152c9c6a2742037a17269000f289864745eee094010e6628b5573dc0584nat,
    );
    lemma_pow_mod_square(
        0x1a3cea85c2d27c5cd8e9e1f02aa608d7b237cda0cf23ab848d46c74f546fcf6enat,
        2,
        modulus(),
        0x72e70152c9c6a2742037a17269000f289864745eee094010e6628b5573dc0584nat,
        0x71e2ae6187ef26220813db377efa0512ee8477ab2e6377778410582f97826b3enat,
        0x318994d050e0bd761f64dbf1b5f08e991510bc66bc1dab2a8f0a7ec47b7c00d2nat,
    );
    lemma_pow_mod_square_times(
        0x1a3cea85c2d27c5cd8e9e1f02aa608d7b237cda0cf23ab848d46c74f546fcf6enat,
        4,
        modulus(),
        0x318994d050e0bd761f64dbf1b5f08e991510bc66bc1dab2a8f0a7ec47b7c00d2nat,
        0x22b66d9ce788242b79075b347c20df6b77165a2e501e65007a25ed88855c13347f5df92a13b744dd0bb4bcd18aba48b052f568b00c5de92a5bbd8c755f02396nat,
        0x18110c8df9a480a5ea34963bb3a6fc0ca185d00a69310468eb13b46cd940dda2nat,
    );
    lemma_pow_mod_square_times(
        0x1a3cea85c2d27c5cd8e9e1f02aa608d7b237cda0cf23ab848d46c74f546fcf6enat,
        9,
        modulus(),
        0x18110c8df9a480a5ea34963bb3a6fc0ca185d00a69310468eb13b46cd940dda2nat,
        0x83170e30a1c9c178dba1c7dd00394d974f4a02f3a7304b5194a7e8622253a5b3f9f275a7fadc56e6f874034cb2a62d389ff79d4525e2bf70aa3db7e1de76a8nat,
        0x6e3eab4f3264b527d49cf86c5b5c26b4904161b6eb0452cee3ba0b5aaa87aa10nat,
    );
    lemma_pow_mod_square(
        0x1a3cea85c2d27c5cd8e9e1f02aa608d7b237cda0cf23ab848d46c74f546fcf6enat,
        19,
        modulus(),
        0x6e3eab4f3264b527d49cf86c5b5c26b4904161b6eb0452cee3ba0b5aaa87aa10nat,
        0x68d7046698ebf287a8b154aa0df979066e62d13f8eacc841f79b5e1df5e295ecnat,
        0x23bcdd800adcfc939861b701f977daf1ae73b27b733d9d077f20a0d017f6ab14nat,
    );
    lemma_pow_mod_square_times(
        0x1a3cea85c2d27c5cd8e9e1f02aa608d7b237cda0cf23ab848d46c74f546fcf6enat,
        38,
        modulus(),
        0x23bcdd800adcfc939861b701f977daf1ae73b27b733d9d077f20a0d017f6ab14nat,
        0x1211088e139dcac463284500096d9865049a0a66d8a5b46d3d66a5aca010d52676b86316868f0fe6b4f4dc827703917f0d18afc9327a0a3e4ac39769205ca3dnat,
        0x283c5d035d413ea32b68534e47a95f7fa0ab9f8ba8ae26f85f7104e8d28f61a3nat,
    );
    lemma_pow_mod_square(
        0x1a3cea85c2d27c5cd8e9e1f02aa608d7b237cda0cf23ab848d46c74f546fcf6enat,
        77,
        modulus(),
        0x283c5d035d413ea32b68534e47a95f7fa0ab9f8ba8ae26f85f7104e8d28f61a3nat,
        0xdf6fee7cfa0f9be6bffc9a4328b44ee706802b3f3976e6ce4147a3a8345de0fnat,
        0x1dcd43bf7e6bbbb80f94567833fe02d4b542505a66597d0a9734ffc222110fbanat,
    );
    lemma_pow_mod_square(
        0x1a3cea85c2d27c5cd8e9e1f02aa608d7b237cda0cf23ab848d46c74f546fcf6enat,
        154,
        modulus(),
        0x1dcd43bf7e6bbbb80f94567833fe02d4b542505a66597d0a9734ffc222110fbanat,
        0x7a94348ed96481d09abdd6de57aaf47f3695eebdd497ac5d9a7fce8b8c01ba0nat,
        0x2cc48694f128868a21cf5540e52c03290e76cd4a470846dc526109efc6eb3784nat,
    );
    lemma_pow_mod_square_times(
        0x1a3cea85c2d27c5cd8e9e1f02aa608d7b237cda0cf23ab848d46c74f546fcf6enat,
        308,
        modulus(),
        0x2cc48694f128868a21cf5540e52c03290e76cd4a470846dc526109efc6eb3784nat,
        0x1c598a7a7749e1313416a5c5f9ef22db686907743265b68d35b7a7183bcb6d531c8fbd70ae5043cf328a321c0ced266747634378a212a5aa0512c7de611054fnat,
        0x524c0f8cf07f7e2053d65caa69afcca38c94dbd7adef2f702ae9e3cd39ca3991nat,
    );
    lemma_pow_mod_square_times(
        0x1a3cea85c2d27c5cd8e9e1f02aa608d7b237cda0cf23ab848d46c74f546fcf6enat,
        617,
        modulus(),
        0x524c0f8cf07f7e2053d65caa69afcca38c94dbd7adef2f702ae9e3cd39ca3991nat,
        0x5fce28af14fbfc4c2aa67168046fe6e10ee91585ea9821070d19c0a774328085d1c81d1b2719fec8a30c399052965cc1261befa208e0428300ad51b7f668ae8nat,
        0x42e87ac8aec65df3b8b54d3f459582b0a1f8001990e88a75ce4fbf4ab9672a46nat,
    );
    lemma_pow_mod_square(
        0x1a3cea85c2d27c5cd8e9e1f02aa608d7b237cda0cf23ab848d46c74f546fcf6enat,
        1235,
        modulus(),
        0x42e87ac8aec65df3b8b54d3f459582b0a1f8001990e88a75ce4fbf4ab9672a46nat,
        0x269db6f1705b8066033f31f2413c4d71e05df3568fce10526ad6561d43695e5bnat,
        0x5efd6ecab854bae1eeaf4ad337030e1771e145bcef70184e3ec63161f3e5acc9nat,
    );
    lemma_pow_mod_square(
        0x1a3cea85c2d27c5cd8e9e1f02aa608d7b237cda0cf23ab848d46c74f546fcf6enat,
        2470,
        modulus(),
        0x5efd6ecab854bae1eeaf4ad337030e1771e145bcef70184e3ec63161f3e5acc9nat,
        0x4dd558c062591bc94d9d7a6f647dc7966ca04e91d15801e2c8980895762de0b1nat,
        0x3b1df01653fa512dfef7468532e9805d57925d4cbf7a71b0f9118e81b40ad520nat,
    );
    lemma_pow_mod_square(
        0x1a3cea85c2d27c5cd8e9e1f02aa608d7b237cda0cf23ab848d46c74f546fcf6enat,
        4940,
        modulus(),
        0x3b1df01653fa512dfef7468532e9805d57925d4cbf7a71b0f9118e81b40ad520nat,
        0x1e2575802089ddb2ec094bfbaaba8c9715e5b8def071e308b1ff940983a39d4enat,
        0x35fc1342cf7e3dbdc2313fa8cbee1a78f979b550419bb3ca55dd8faed44aa6b2nat,
    );
    lemma_pow_mod_square(
        0x1a3cea85c2d27c5cd8e9e1f02aa608d7b237cda0cf23ab848d46c74f546fcf6enat,
        9880,
        modulus(),
        0x35fc1342cf7e3dbdc2313fa8cbee1a78f979b550419bb3ca55dd8faed44aa6b2nat,
        0x1923a1fc0744da40880c1010ca2163a6707f0dc80b7b8d4958bc59127e92ed26nat,
        0x586ea58068e1d73cdcbc9a224c6b4e0844b10d0a00d6f1fdd4ebc3e71ce0669enat,
    );
    lemma_pow_mod_square_times(
        0x1a3cea85c2d27c5cd8e9e1f02aa608d7b237cda0cf23ab848d46c74f546fcf6enat,
        19760,
        modulus(),
        0x586ea58068e1d73cdcbc9a224c6b4e0844b10d0a00d6f1fdd4ebc3e71ce0669enat,
        0x6e9f3908771f39caca4270e8c32fcba5db4ab8ff9735414c8f614d2fcd1ddf4a8a32494dee713aa815a79d6f43aa1398ad18674237118469057abceff198153nat,
        0x6b9321ca01db6d9dac7c78f1e2a027b93874e231761831f1859dbf70c64fd165nat,
    );
    lemma_pow_mod_square_times(
        0x1a3cea85c2d27c5cd8e9e1f02aa608d7b237cda0cf23ab848d46c74f546fcf6enat,
        39521,
        modulus(),
        0x6b9321ca01db6d9dac7c78f1e2a027b93874e231761831f1859dbf70c64fd165nat,
        0xa3b2741def7ac3f0e11f5f80d292936865d77c46ce953d89f590bfa4b48e4766427a6eb4db19e0e422605b07992d39d3dbd9df057bbe967315237e7e5aa4822nat,
        0x134c3f2dc600b5e9df138a739d5b683fec08a9c1ab77f186a53b6e0c8aeada1cnat,
    );
}

proof fn squarings_modulus_40_1()
    ensures
        pow_mod(
            0x1a3cea85c2d27c5cd8e9e1f02aa608d7b237cda0cf23ab848d46c74f546fcf6enat,
            2529403,
            modulus(),
        ) == 0x1bfef03796f51cb829f4bed22c68f374409849d28dc26b6ac7f91177a125b62fnat,
{
    squarings_modulus_40_0();
    lemma_pow_mod_square_times(
        0x1a3cea85c2d27c5cd8e9e1f02aa608d7b237cda0cf23ab848d46c74f546fcf6enat,
        79043,
        modulus(),
        0x134c3f2dc600b5e9df138a739d5b683fec08a9c1ab77f186a53b6e0c8aeada1cnat,
        0x54495443769f9225a173c5e882c6e5649ba70f7da6e1907333a8b70bc2c9a7a0cbbea909bac6e2167868b14849219a75ea3f31f82da361da3579855d444e29nat,
        0x4f92f710118a3daa375a6ce6bce6d45233437db58899511147fa95226c0c92b7nat,
    );
    lemma_pow_mod_square_times(
        0x1a3cea85c2d27c5cd8e9e1f02aa608d7b237cda0cf23ab848d46c74f546fcf6enat,
        158087,
        modulus(),
        0x4f92f710118a3daa375a6ce6bce6d45233437db58899511147fa95226c0c92b7nat,
        0x5991fa2b238f855c3d3b5a09e349ae05f4966e24242f6c5ef650f74743133bfb8be82902d0fa8cedc31dd64ba20e7588c36a3158351bcea4085f8e1c0a16dednat,
        0x5cf0c331ac6e49d7ce618f43b23be698c9b2b7755894887a2df5f1e766198ee1nat,
    );
    lemma_pow_mod_square(
        0x1a3cea85c2d27c5cd8e9e1f02aa608d7b237cda0cf23ab848d46c74f546fcf6enat,
        316175,
        modulus(),
        0x5cf0c331ac6e49d7ce618f43b23be698c9b2b7755894887a2df5f1e766198ee1nat,
        0x4a82cedce2eebec3e11b04d7834eddc75db30007cc77ea3621f4730420b10924nat,
        0x3107cd6c009097a344348a98834e143737e0af3788e3c8f21d42729662ff589dnat,
    );
    lemma_pow_mod_square_times(
        0x1a3cea85c2d27c5cd8e9e1f02aa608d7b237cda0cf23ab848d46c74f546fcf6enat,
        632350,
        modulus(),
        0x3107cd6c009097a344348a98834e143737e0af3788e3c8f21d42729662ff589dnat,
        0x22017a459993c415c7705f2055774966d5c890022fd0cff69de3fed4206b8c8b5d6a6b8d1b34fcf26f226bf1c2308f1bf1caef93ba607411bc4e5b21fe14b0cnat,
        0x4abf2e85926be3fa0d14b9b52b6dde55c99602370f1b4e00a93a15bf5dcf3b52nat,
    );
    lemma_pow_mod_square_times(
        0x1a3cea85c2d27c5cd8e9e1f02aa608d7b237cda0cf23ab848d46c74f546fcf6enat,
        1264701,
        modulus(),
        0x4abf2e85926be3fa0d14b9b52b6dde55c99602370f1b4e00a93a15bf5dcf3b52nat,
        0x4f0850dc09847fc8a1b300f1bfa643eb354664c065e12fe9cf2fde9a8fb228d6dc24e3f4a91c58b101bd8d90dc2c015f6adfc62dd4317e4bf4bbfb10d963709nat,
        0x1bfef03796f51cb829f4bed22c68f374409849d28dc26b6ac7f91177a125b62fnat,
    );
}

/// A power of the generator 7, from a lower one raised to the power 2529403.
proof fn power_modulus_39()
    ensures
        pow_mod(
            7,
            0xc315780e480496b2e8294dc02426b3519c8fa1bda2e758c9b100000000nat,
            modulus(),
        ) == 0x1bfef03796f51cb829f4bed22c68f374409849d28dc26b6ac7f91177a125b62fnat,
{
    power_modulus_35();
    squarings_modulus_40_1();
    lemma_pow_mod_compose(
        7,
        0x50df78fddbe36a0d2015b9901e870fcfa11167a80acc300000000nat,
        2529403,
        modulus(),
        0x1a3cea85c2d27c5cd8e9e1f02aa608d7b237cda0cf23ab848d46c74f546fcf6enat,
        0x1bfef03796f51cb829f4bed22c68f374409849d28dc26b6ac7f91177a125b62fnat,
    );
}

proof fn squarings_modulus_42_0()
    ensures
        pow_mod(
            0x1bfef03796f51cb829f4bed22c68f374409849d28dc26b6ac7f91177a125b62fnat,
            11,
            modulus(),
        ) == 0x67ee5d1f3b069511cd89744d5897256537cb1d8475a21d7924a57ba2b69a4d76nat,
{
    lemma_pow_mod_start(
        0x1bfef03796f51cb829f4bed22c68f374409849d28dc26b6ac7f91177a125b62fnat,
        modulus(),
    );
    lemma_pow_mod_square(
        0x1bfef03796f51cb829f4bed22c68f374409849d28dc26b6ac7f91177a125b62fnat,
        1,
        modulus(),
        0x1bfef03796f51cb829f4bed22c68f374409849d28dc26b6ac7f91177a125b62fnat,
        0x6c2c38135c7ba27ff97e94b1aafb649bb9c4be6d20605adf35b6d77f10cdc1enat,
        0x696a590e05bacfad137c37a422a725b2489409402b6dcbbafd1810d58300083nat,
    );
    lemma_pow_mod_square_times(
        0x1bfef03796f51cb829f4bed22c68f374409849d28dc26b6ac7f91177a125b62fnat,
        2,
        modulus(),
        0x696a590e05bacfad137c37a422a725b2489409402b6dcbbafd1810d58300083nat,
        0xa7b9117b2b94d5c5ddf6f2718c590d1efc50fb2e14f4d5f2fa34cd0d1d846ead1407748134ca4c9b5af45fb1ac71fe0aadd4f62f3ba7a29194fa735da67b4nat,
        0x6885fda1a189d90bea1788fd0b261f3405ccce31f1049fc892056f3f08074cf3nat,
    );
    lemma_pow_mod_square_times(
        0x1bfef03796f51cb829f4bed22c68f374409849d28dc26b6ac7f91177a125b62fnat,
        5,
        modulus(),
        0x6885fda1a189d90bea1788fd0b261f3405ccce31f1049fc892056f3f08074cf3nat,
        0xa4e57aea6170cfa38f8fcbb02aea076b05c75393c211109c826f66e087f10fe2c701e98971e237cafeb712be3d85b3f27477b389783008c830196e05bac6991nat,
        0x67ee5d1f3b069511cd89744d5897256537cb1d8475a21d7924a57ba2b69a4d76nat,
    );
}

/// A power of the generator 7, from a lower one raised to the power 11.
proof fn power_modulus_41()
    ensures
        pow_mod(
            7,
            0x861ec289d183279aff9c657418da9b481ba2bf325fff0d0aa9b00000000nat,
            modulus(),
        ) == 0x67ee5d1f3b069511cd89744d5897256537cb1d8475a21d7924a57ba2b69a4d76nat,
{
    power_modulus_39();
    squarings_modulus_42_0();
    lemma_pow_mod_compose(
        7,
        0xc315780e480496b2e8294dc02426b3519c8fa1bda2e758c9b100000000nat,
        11,
        modulus(),
        0x1bfef03796f51cb829f4bed22c68f374409849d28dc26b6ac7f91177a125b62fnat,
        0x67ee5d1f3b069511cd89744d5897256537cb1d8475a21d7924a57ba2b69a4d76nat,
    );
}

proof fn squarings_modulus_44_0()
    ensures
        pow_mod(
            0x1bfef03796f51cb829f4bed22c68f374409849d28dc26b6ac7f91177a125b62fnat,
            113293,
            modulus(),
        ) == 0x4938b5871fa4c8093573f2d0385883e75af3ac9bac5310eeb1868f561c0bb252nat,
{
    lemma_pow_mod_start(
        0x1bfef03796f51cb829f4bed22c68f374409849d28dc26b6ac7f91177a125b62fnat,
        modulus(),
    );
    lemma_pow_mod_square_times(
        0x1bfef03796f51cb829f4bed22c68f374409849d28dc26b6ac7f91177a125b62fnat,
        1,
        modulus(),
        0x1bfef03796f51cb829f4bed22c68f374409849d28dc26b6ac7f91177a125b62fnat,
        0xbd4634a9fd27afb2b8ea7ff3721abe7722c48a480e60d5465c6aa0e000af9110b8feea611775e5b3c9eece5e195c7037387fe86f09dc6fa2de90d8e86b0bb8nat,
        0x47dafa48ae74e0ab6e18f36b5303a554029ffa8da7506d153a0c664af2e0ebd7nat,
    );
    lemma_pow_mod_square(
        0x1bfef03796f51cb829f4bed22c68f374409849d28dc26b6ac7f91177a125b62fnat,
        3,
        modulus(),
        0x47dafa48ae74e0ab6e18f36b5303a554029ffa8da7506d153a0c664af2e0ebd7nat,
        0x2c89aee3d213714ec18f7f8c983dbc7627d210c0d472a78f33c811943a2c1ee1nat,
        0x2c2d0e6c58ba5c577d50ea7b617cd546f53885efc3af39c1af1bd18d3584fb0nat,
    );
    lemma_pow_mod_square_times(
        0x1bfef03796f51cb829f4bed22c68f374409849d28dc26b6ac7f91177a125b62fnat,
        6,
        modulus(),
        0x2c2d0e6c58ba5c577d50ea7b617cd546f53885efc3af39c1af1bd18d3584fb0nat,
        0x1d74718e0c426112dfa5c78602445423b12612bdce56e4aba755764f87cca4054403e88569afc077fbeb74308df166e52cbe92dc1596acd58606e2a197079nat,
        0x6306d507a5b33fe314673e0790e538b2dbb7124f31876a99d57097934d832687nat,
    );
    lemma_pow_mod_square_times(
        0x1bfef03796f51cb829f4bed22c68f374409849d28dc26b6ac7f91177a125b62fnat,
        13,
        modulus(),
        0x6306d507a5b33fe314673e0790e538b2dbb7124f31876a99d57097934d832687nat,
        0x940259301530961ca5b1047cabe7baa4216531fbc47e02d66136f77b7ed585a6bd51f24bef2afe48c5ca91c2e93d705d57a60c15b2f5fe7a9baefc148b3e91fnat,
        0x6949f449d1afe1186cbaed4d3863bb03e103fd0b3efe7899d2a9eaf70f70aae0nat,
    );
    lemma_pow_mod_square_times(
        0x1bfef03796f51cb829f4bed22c68f374409849d28dc26b6ac7f91177a125b62fnat,
        27,
        modulus(),
        0x6949f449d1afe1186cbaed4d3863bb03e103fd0b3efe7899d2a9eaf70f70aae0nat,
        0xa7520ca3189dd26398f69b6b2bf914bdc20dbff0f39b7d6688c1428af631b418fd903becf56e2da4bb2ec930c0b63b99bf60f3ed4362d29f7686624a9426d30nat,
        0x171406783f281ef6cf71b2c5c8352c717db62f9ef1e492a97b39b1bb3bb40ed0nat,
    );
    lemma_pow_mod_square(
        0x1bfef03796f51cb829f4bed22c68f374409849d28dc26b6ac7f91177a125b62fnat,
        55,
        modulus(),
        0x171406783f281ef6cf71b2c5c8352c717db62f9ef1e492a97b39b1bb3bb40ed0nat,
        0x4982124124aa640d0fdfc018dc4bea5554a6df515927df4070eced1de63fcc1nat,
        0x69982c4c3b8fd366ccb793fdb38798b013a751e09dd1ce28936aef47d6f76c3fnat,
    );
    lemma_pow_mod_square_times(
        0x1bfef03796f51cb829f4bed22c68f374409849d28dc26b6ac7f91177a125b62fnat,
        110,
        modulus(),
        0x69982c4c3b8fd366ccb793fdb38798b013a751e09dd1ce28936aef47d6f76c3fnat,
        0xa84b038bf70746c89e848e1eeeacd1b3b7dc40444c6c70f7b46e2560d6cab91cbbff380cfa19f92e17ac3ddddb57930d0c5d477b16d1a7f56b65d02fc1cd690nat,
        0x2217be83cef6faf58af8335b494b60e7a8f28e002639ddbdea7d3f1c6901101fnat,
    );
    lemma_pow_mod_square(
        0x1bfef03796f51cb829f4bed22c68f374409849d28dc26b6ac7f91177a125b62fnat,
        221,
        modulus(),
        0x2217be83cef6faf58af8335b494b60e7a8f28e002639ddbdea7d3f1c6901101fnat,
        0xa06b235d91e2fe99b0075c623deaac72686497a95f31668f5673d7298fc16f5nat,
        0x23bd97633ef4d2c9b43dd723fd2fc2e64f1abda77293011cb7178184f645ccccnat,
    );
    lemma_pow_mod_square_times(
        0x1bfef03796f51cb829f4bed22c68f374409849d28dc26b6ac7f91177a125b62fnat,
        442,
        modulus(),
        0x23bd97633ef4d2c9b43dd723fd2fc2e64f1abda77293011cb7178184f645ccccnat,
        0x1347afb5892423b1a6d65ba6d141b5d728c729107edd62b5ac3465f3644c12c9edb360579935b1801e0aedabb5b9f87cfd1d9fa9846765e761880dccdd902b0nat,
        0x3458ba31516e5deaec843b5ecf4619b7e189bba950fe69b01d5f4439e61015c0nat,
    );
    lemma_pow_mod_square(
        0x1bfef03796f51cb829f4bed22c68f374409849d28dc26b6ac7f91177a125b62fnat,
        885,
        modulus(),
        0x3458ba31516e5deaec843b5ecf4619b7e189bba950fe69b01d5f4439e61015c0nat,
        0x17a300175283e0783f9afb08c7fb8fb0a116adf2f078741cc055648b8525a10dnat,
        0x188305f8b52f55c4caba8109113c1d2c87fbae41957881aa36c8d41934b36ef3nat,
    );
    lemma_pow_mod_square(
        0x1bfef03796f51cb829f4bed22c68f374409849d28dc26b6ac7f91177a125b62fnat,
        1770,
        modulus(),
        0x188305f8b52f55c4caba8109113c1d2c87fbae41957881aa36c8d41934b36ef3nat,
        0x52ec968cd4ceb217bfb4cb5137af9942fa1b999fc85e9bfb51c805f6eccf381nat,
        0x2b04d51e0c614d45d86dfb9d41b0916efe9c262cd62b3bcd1f07f96ea11ac728nat,
    );
    lemma_pow_mod_square(
        0x1bfef03796f51cb829f4bed22c68f374409849d28dc26b6ac7f91177a125b62fnat,
        3540,
        modulus(),
        0x2b04d51e0c614d45d86dfb9d41b0916efe9c262cd62b3bcd1f07f96ea11ac728nat,
        0xff6a8f4bb5b04cb6ebddbed571fbfb4ede0cfa9abfa318b940031e68499f89anat,
        0x32746667673952630ac9ab549bf0dbce8c4dd5558eb5b7ec749b6e60da753da6nat,
    );
    lemma_pow_mod_square_times(
        0x1bfef03796f51cb829f4bed22c68f374409849d28dc26b6ac7f91177a125b62fnat,
        7080,
        modulus(),
        0x32746667673952630ac9ab549bf0dbce8c4dd5558eb5b7ec749b6e60da753da6nat,
        0x266c31ee8651b9393489b31522a5e2ed1fae55a1744f6a5a6e452fdfb5f32d91d80529a9660e8b3c11d6fd1791034ec9d56127eb5fcffa2237184d3e86e2f66nat,
        0x1712510758d2165326d76c04ea9781d7dcdca4e7a472c6f1e3e8839369f94fb6nat,
    );
    lemma_pow_mod_square_times(
        0x1bfef03796f51cb829f4bed22c68f374409849d28dc26b6ac7f91177a125b62fnat,
        14161,
        modulus(),
        0x1712510758d2165326d76c04ea9781d7dcdca4e7a472c6f1e3e8839369f94fb6nat,
        0x808bb418dde04dbc8d57ac0fa07273fd9366d51c9422c145f4945b5d4ab876b74d64303d115c867a2240fd940a1c2e71969e395cc429966bd49781b3e90214nat,
        0xa7ef799fdedf0d805637f8adccca8855b68f2b3da86367c8fecf0da31fa4348nat,
    );
    lemma_pow_mod_square(
        0x1bfef03796f51cb829f4bed22c68f374409849d28dc26b6ac7f91177a125b62fnat,
        28323,
        modulus(),
        0xa7ef799fdedf0d805637f8adccca8855b68f2b3da86367c8fecf0da31fa4348nat,
        0xf346116af163f75910f876f6d426d5382d9fc2b64aa181943c1c72d5b347aenat,
        0x73004e5ff0b37b42ba3b927ff3f1f6915bd2e9dd9c2d5ca4245a8444349b7c92nat,
    );
    lemma_pow_mod_square_times(
        0x1bfef03796f51cb829f4bed22c68f374409849d28dc26b6ac7f91177a125b62fnat,
        56646,
        modulus(),
        0x73004e5ff0b37b42ba3b927ff3f1f6915bd2e9dd9c2d5ca4245a8444349b7c92nat,
        0xc79cee0ba20a189c7832fa8f6559ffdda8b5cac1b59d9bd9dbc9b5a67f3fd7fba0768d163c1059f881625623522a71dfbf3b8890bdf74a52038d527b0057f2anat,
        0x4938b5871fa4c8093573f2d0385883e75af3ac9bac5310eeb1868f561c0bb252nat,
    );
}

proof fn squarings_modulus_44_1()
    ensures
        pow_mod(
            0x1bfef03796f51cb829f4bed22c68f374409849d28dc26b6ac7f91177a125b62fnat,
            906349,
            modulus(),
        ) == 0x32e3ee16442ae00d0ade6607de0a05957900e657e09c952e618a16c99985bcdanat,
{
    squarings_modulus_44_0();
    lemma_pow_mod_square_times(
        0x1bfef03796f51cb829f4bed22c68f374409849d28dc26b6ac7f91177a125b62fnat,
        113293,
        modulus(),
        0x4938b5871fa4c8093573f2d0385883e75af3ac9bac5310eeb1868f561c0bb252nat,
        0x50ebcb1489054967e7d974fa662c3891a3abec11f2975059f91a099bc5b01cdd30cc920567188d9a0d0be1f5fc003435594ecc004369e3d51fbfcd66471751fnat,
        0x6bef6dd629a1c5d48d909acbf65446df144985e9d008ae00543cddda74e32d5dnat,
    );
    lemma_pow_mod_square(
        0x1bfef03796f51cb829f4bed22c68f374409849d28dc26b6ac7f91177a125b62fnat,
        226587,
        modulus(),
        0x6bef6dd629a1c5d48d909acbf65446df144985e9d008ae00543cddda74e32d5dnat,
        0x647e49ca78180e1f4fcfb04f43f77caeebfb443e005a9addd1532ab886f8cc27nat,
        0x2f344b84b683230023e1c7b8616fe332f0e5827c69ba8c7f85d820883bff07a2nat,
    );
    lemma_pow_mod_square_times(
        0x1bfef03796f51cb829f4bed22c68f374409849d28dc26b6ac7f91177a125b62fnat,
        453174,
        modulus(),
        0x2f344b84b683230023e1c7b8616fe332f0e5827c69ba8c7f85d820883bff07a2nat,
        0x21a1acfe267fdd3ccbdf1ca08eac953421dd8ac94c20364ca803223bc321628e024a4092c4e0760850f7a94cf4bbf94daef4a9c9cdf9a7ec75d2f85680e5162nat,
        0x32e3ee16442ae00d0ade6607de0a05957900e657e09c952e618a16c99985bcdanat,
    );
}

/// A power of the generator 7, from a lower one raised to the power 906349.
proof fn power_modulus_43()
    ensures
        pow_mod(
            7,
            0xa89f7f04999f41dd61c8800bb0eb68c1ee2b1d1ba2e657445d1745d00000000nat,
            modulus(),
        ) == 0x32e3ee16442ae00d0ade6607de0a05957900e657e09c952e618a16c99985bcdanat,
{
    power_modulus_39();
    squarings_modulus_44_1();
    lemma_pow_mod_compose(
        7,
        0xc315780e480496b2e8294dc02426b3519c8fa1bda2e758c9b100000000nat,
        906349,
        modulus(),
        0x1bfef03796f51cb829f4bed22c68f374409849d28dc26b6ac7f91177a125b62fnat,
        0x32e3ee16442ae00d0ade6607de0a05957900e657e09c952e618a16c99985bcdanat,
    );
}

proof fn squarings_modulus_46_0()
    ensures
        pow_mod(
            0x73eda753299d7d483339d80809a1d80553bda402fffe5bfeffffffff00000000nat,
            2,
            modulus(),
        ) == 1,
{
    lemma_pow_mod_start(
        0x73eda753299d7d483339d80809a1d80553bda402fffe5bfeffffffff00000000nat,
        modulus(),
    );
    lemma_pow_mod_square(
        0x73eda753299d7d483339d80809a1d80553bda402fffe5bfeffffffff00000000nat,
        1,
        modulus(),
        0x73eda753299d7d483339d80809a1d80553bda402fffe5bfeffffffff00000000nat,
        0x73eda753299d7d483339d80809a1d80553bda402fffe5bfefffffffeffffffffnat,
        1,
    );
}

/// A power of the generator 7, from a lower one raised to the power 2.
proof fn power_modulus_45()
    ensures
        pow_mod(
            7,
            0x73eda753299d7d483339d80809a1d80553bda402fffe5bfeffffffff00000000nat,
            modulus(),
        ) == 1,
{
    power_modulus_33();
    squarings_modulus_46_0();
    lemma_pow_mod_compose(
        7,
        0x39f6d3a994cebea4199cec0404d0ec02a9ded2017fff2dff7fffffff80000000nat,
        2,
        modulus(),
        0x73eda753299d7d483339d80809a1d80553bda402fffe5bfeffffffff00000000nat,
        1,
    );
}

/// The field's order is prime: 7 has order `modulus() - 1` modulo it.
pub proof fn lemma_modulus_generator()
    ensures
        is_generator(7, modulus()),
        is_prime(modulus()),
{
    let qs: Set<nat> = set![2, 3, 11, 19, 10177, 125527, 859267, 906349, 2508409, 2529403, 52437899, 254760293];
    lemma_two_is_prime();
    lemma_prime_3();
    lemma_prime_11();
    lemma_prime_19();
    lemma_prime_10177();
    lemma_prime_125527();
    lemma_prime_859267();
    lemma_prime_906349();
    lemma_prime_2508409();
    lemma_prime_2529403();
    lemma_prime_52437899();
    lemma_prime_254760293();
    lemma_covered_one(qs);
    lemma_covered_step(1, 2, qs);
    lemma_covered_step(2, 2, qs);
    lemma_covered_step(4, 2, qs);
    lemma_covered_step(8, 2, qs);
    lemma_covered_step(16, 2, qs);
    lemma_covered_step(32, 2, qs);
    lemma_covered_step(64, 2, qs);
    lemma_covered_step(128, 2, qs);
    lemma_covered_step(256, 2, qs);
    lemma_covered_step(512, 2, qs);
    lemma_covered_step(1024, 2, qs);
    lemma_covered_step(2048, 2, qs);
    lemma_covered_step(4096, 2, qs);
    lemma_covered_step(8192, 2, qs);
    lemma_covered_step(16384, 2, qs);
    lemma_covered_step(32768, 2, qs);
    lemma_covered_step(65536, 2, qs);
    lemma_covered_step(131072, 2, qs);
    lemma_covered_step(262144, 2, qs);
    lemma_covered_step(524288, 2, qs);
    lemma_covered_step(1048576, 2, qs);
    lemma_covered_step(2097152, 2, qs);
    lemma_covered_step(4194304, 2, qs);
    lemma_covered_step(8388608, 2, qs);
    lemma_covered_step(16777216, 2, qs);
    lemma_covered_step(33554432, 2, qs);
    lemma_covered_step(67108864, 2, qs);
    lemma_covered_step(134217728, 2, qs);
    lemma_covered_step(268435456, 2, qs);
    lemma_covered_step(536870912, 2, qs);
    lemma_covered_step(1073741824, 2, qs);
    lemma_covered_step(2147483648nat, 2, qs);
    lemma_covered_step(4294967296nat, 3, qs);
    lemma_covered_step(12884901888nat, 11, qs);
    lemma_covered_step(141733920768nat, 19, qs);
    lemma_covered_step(2692944494592nat, 10177, qs);
    lemma_covered_step(27406096121462784nat, 125527, qs);
    lemma_covered_step(0xba7e6f75d500000000nat, 859267, qs);
    lemma_covered_step(0x98d30ebdfbd97ff00000000nat, 906349, qs);
    lemma_covered_step(0x8418799b8657fd8be39300000000nat, 906349, qs);
    lemma_covered_step(0x722dab00664f0f1895b7ca19700000000nat, 2508409, qs);
    lemma_covered_step(0x111235d6671ee6372514d704e81aa5f00000000nat, 2529403, qs);
    lemma_covered_step(0x292df018a79d410b8db9b1b68ad1ff8f43a500000000nat, 52437899, qs);
    lemma_covered_step(0x80b545f0d087b8c661c9f1b1914356b5a9bca9499700000000nat, 254760293, qs);
    lemma_covered_step(
        0x7a26b4feb2bc9fde20c8df96908edbb3ba7be95fffff22b9300000000nat,
        254760293,
        qs,
    );
    power_modulus_33();
    assert(is_witness(7, modulus(), 2));
    power_modulus_21();
    assert(is_witness(7, modulus(), 3));
    power_modulus_43();
    assert(is_witness(7, modulus(), 11));
    power_modulus_11();
    assert(is_witness(7, modulus(), 19));
    power_modulus_9();
    assert(is_witness(7, modulus(), 10177));
    power_modulus_31();
    assert(is_witness(7, modulus(), 125527));
    power_modulus_19();
    assert(is_witness(7, modulus(), 859267));
    power_modulus_41();
    assert(is_witness(7, modulus(), 906349));
    power_modulus_15();
    assert(is_witness(7, modulus(), 2508409));
    power_modulus_37();
    assert(is_witness(7, modulus(), 2529403));
    power_modulus_27();
    assert(is_witness(7, modulus(), 52437899));
    power_modulus_5();
    assert(is_witness(7, modulus(), 254760293));
    power_modulus_45();
    lemma_lucas(modulus(), 7, qs);
    lemma_generator_prime(7, modulus());
}

} // verus!
