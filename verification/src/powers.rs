//! Powers of ten as 128-bit significands, for the decimal exponents at which
//! a 64-bit significand can give a finite, non-zero double.

use vstd::prelude::*;
use vstd::arithmetic::power::pow;
use vstd::arithmetic::power2::pow2;

verus! {

/// Smallest decimal exponent at which a 64-bit significand can round to a
/// non-zero double.
pub const MIN_DENORMAL_EXP10: i32 = -342;

/// Largest decimal exponent at which a non-zero significand can round to a
/// finite double.
pub const MAX_NORMAL_EXP10: i32 = 308;

/// The binary exponent `q` for which entry `e` of the table, read as the
/// 64-bit integer of its high word, approximates `10^e` as `hi * 2^q`.
pub open spec fn power_of_10_exponent(e: int) -> int {
    -63 + (217706 * e) / 65536
}

/// For each decimal exponent `e` from [`MIN_DENORMAL_EXP10`] to
/// [`MAX_NORMAL_EXP10`], at index `e - MIN_DENORMAL_EXP10`, the leading 128
/// bits of `10^e` as `(high, low)` words: the power is shifted so that its
/// highest set bit is bit 127, and the bits below bit 0 are dropped.
pub const POWERS_OF_10: [(u64, u64); 651] = [
    (0xEEF453D6923BD65A, 0x113FAA2906A13B3F),  // 1e-342
    (0x9558B4661B6565F8, 0x4AC7CA59A424C507),  // 1e-341
    (0xBAAEE17FA23EBF76, 0x5D79BCF00D2DF649),  // 1e-340
    (0xE95A99DF8ACE6F53, 0xF4D82C2C107973DC),  // 1e-339
    (0x91D8A02BB6C10594, 0x79071B9B8A4BE869),  // 1e-338
    (0xB64EC836A47146F9, 0x9748E2826CDEE284),  // 1e-337
    (0xE3E27A444D8D98B7, 0xFD1B1B2308169B25),  // 1e-336
    (0x8E6D8C6AB0787F72, 0xFE30F0F5E50E20F7),  // 1e-335
    (0xB208EF855C969F4F, 0xBDBD2D335E51A935),  // 1e-334
    (0xDE8B2B66B3BC4723, 0xAD2C788035E61382),  // 1e-333
    (0x8B16FB203055AC76, 0x4C3BCB5021AFCC31),  // 1e-332
    (0xADDCB9E83C6B1793, 0xDF4ABE242A1BBF3D),  // 1e-331
    (0xD953E8624B85DD78, 0xD71D6DAD34A2AF0D),  // 1e-330
    (0x87D4713D6F33AA6B, 0x8672648C40E5AD68),  // 1e-329
    (0xA9C98D8CCB009506, 0x680EFDAF511F18C2),  // 1e-328
    (0xD43BF0EFFDC0BA48, 0x0212BD1B2566DEF2),  // 1e-327
    (0x84A57695FE98746D, 0x014BB630F7604B57),  // 1e-326
    (0xA5CED43B7E3E9188, 0x419EA3BD35385E2D),  // 1e-325
    (0xCF42894A5DCE35EA, 0x52064CAC828675B9),  // 1e-324
    (0x818995CE7AA0E1B2, 0x7343EFEBD1940993),  // 1e-323
    (0xA1EBFB4219491A1F, 0x1014EBE6C5F90BF8),  // 1e-322
    (0xCA66FA129F9B60A6, 0xD41A26E077774EF6),  // 1e-321
    (0xFD00B897478238D0, 0x8920B098955522B4),  // 1e-320
    (0x9E20735E8CB16382, 0x55B46E5F5D5535B0),  // 1e-319
    (0xC5A890362FDDBC62, 0xEB2189F734AA831D),  // 1e-318
    (0xF712B443BBD52B7B, 0xA5E9EC7501D523E4),  // 1e-317
    (0x9A6BB0AA55653B2D, 0x47B233C92125366E),  // 1e-316
    (0xC1069CD4EABE89F8, 0x999EC0BB696E840A),  // 1e-315
    (0xF148440A256E2C76, 0xC00670EA43CA250D),  // 1e-314
    (0x96CD2A865764DBCA, 0x380406926A5E5728),  // 1e-313
    (0xBC807527ED3E12BC, 0xC605083704F5ECF2),  // 1e-312
    (0xEBA09271E88D976B, 0xF7864A44C633682E),  // 1e-311
    (0x93445B8731587EA3, 0x7AB3EE6AFBE0211D),  // 1e-310
    (0xB8157268FDAE9E4C, 0x5960EA05BAD82964),  // 1e-309
    (0xE61ACF033D1A45DF, 0x6FB92487298E33BD),  // 1e-308
    (0x8FD0C16206306BAB, 0xA5D3B6D479F8E056),  // 1e-307
    (0xB3C4F1BA87BC8696, 0x8F48A4899877186C),  // 1e-306
    (0xE0B62E2929ABA83C, 0x331ACDABFE94DE87),  // 1e-305
    (0x8C71DCD9BA0B4925, 0x9FF0C08B7F1D0B14),  // 1e-304
    (0xAF8E5410288E1B6F, 0x07ECF0AE5EE44DD9),  // 1e-303
    (0xDB71E91432B1A24A, 0xC9E82CD9F69D6150),  // 1e-302
    (0x892731AC9FAF056E, 0xBE311C083A225CD2),  // 1e-301
    (0xAB70FE17C79AC6CA, 0x6DBD630A48AAF406),  // 1e-300
    (0xD64D3D9DB981787D, 0x092CBBCCDAD5B108),  // 1e-299
    (0x85F0468293F0EB4E, 0x25BBF56008C58EA5),  // 1e-298
    (0xA76C582338ED2621, 0xAF2AF2B80AF6F24E),  // 1e-297
    (0xD1476E2C07286FAA, 0x1AF5AF660DB4AEE1),  // 1e-296
    (0x82CCA4DB847945CA, 0x50D98D9FC890ED4D),  // 1e-295
    (0xA37FCE126597973C, 0xE50FF107BAB528A0),  // 1e-294
    (0xCC5FC196FEFD7D0C, 0x1E53ED49A96272C8),  // 1e-293
    (0xFF77B1FCBEBCDC4F, 0x25E8E89C13BB0F7A),  // 1e-292
    (0x9FAACF3DF73609B1, 0x77B191618C54E9AC),  // 1e-291
    (0xC795830D75038C1D, 0xD59DF5B9EF6A2417),  // 1e-290
    (0xF97AE3D0D2446F25, 0x4B0573286B44AD1D),  // 1e-289
    (0x9BECCE62836AC577, 0x4EE367F9430AEC32),  // 1e-288
    (0xC2E801FB244576D5, 0x229C41F793CDA73F),  // 1e-287
    (0xF3A20279ED56D48A, 0x6B43527578C1110F),  // 1e-286
    (0x9845418C345644D6, 0x830A13896B78AAA9),  // 1e-285
    (0xBE5691EF416BD60C, 0x23CC986BC656D553),  // 1e-284
    (0xEDEC366B11C6CB8F, 0x2CBFBE86B7EC8AA8),  // 1e-283
    (0x94B3A202EB1C3F39, 0x7BF7D71432F3D6A9),  // 1e-282
    (0xB9E08A83A5E34F07, 0xDAF5CCD93FB0CC53),  // 1e-281
    (0xE858AD248F5C22C9, 0xD1B3400F8F9CFF68),  // 1e-280
    (0x91376C36D99995BE, 0x23100809B9C21FA1),  // 1e-279
    (0xB58547448FFFFB2D, 0xABD40A0C2832A78A),  // 1e-278
    (0xE2E69915B3FFF9F9, 0x16C90C8F323F516C),  // 1e-277
    (0x8DD01FAD907FFC3B, 0xAE3DA7D97F6792E3),  // 1e-276
    (0xB1442798F49FFB4A, 0x99CD11CFDF41779C),  // 1e-275
    (0xDD95317F31C7FA1D, 0x40405643D711D583),  // 1e-274
    (0x8A7D3EEF7F1CFC52, 0x482835EA666B2572),  // 1e-273
    (0xAD1C8EAB5EE43B66, 0xDA3243650005EECF),  // 1e-272
    (0xD863B256369D4A40, 0x90BED43E40076A82),  // 1e-271
    (0x873E4F75E2224E68, 0x5A7744A6E804A291),  // 1e-270
    (0xA90DE3535AAAE202, 0x711515D0A205CB36),  // 1e-269
    (0xD3515C2831559A83, 0x0D5A5B44CA873E03),  // 1e-268
    (0x8412D9991ED58091, 0xE858790AFE9486C2),  // 1e-267
    (0xA5178FFF668AE0B6, 0x626E974DBE39A872),  // 1e-266
    (0xCE5D73FF402D98E3, 0xFB0A3D212DC8128F),  // 1e-265
    (0x80FA687F881C7F8E, 0x7CE66634BC9D0B99),  // 1e-264
    (0xA139029F6A239F72, 0x1C1FFFC1EBC44E80),  // 1e-263
    (0xC987434744AC874E, 0xA327FFB266B56220),  // 1e-262
    (0xFBE9141915D7A922, 0x4BF1FF9F0062BAA8),  // 1e-261
    (0x9D71AC8FADA6C9B5, 0x6F773FC3603DB4A9),  // 1e-260
    (0xC4CE17B399107C22, 0xCB550FB4384D21D3),  // 1e-259
    (0xF6019DA07F549B2B, 0x7E2A53A146606A48),  // 1e-258
    (0x99C102844F94E0FB, 0x2EDA7444CBFC426D),  // 1e-257
    (0xC0314325637A1939, 0xFA911155FEFB5308),  // 1e-256
    (0xF03D93EEBC589F88, 0x793555AB7EBA27CA),  // 1e-255
    (0x96267C7535B763B5, 0x4BC1558B2F3458DE),  // 1e-254
    (0xBBB01B9283253CA2, 0x9EB1AAEDFB016F16),  // 1e-253
    (0xEA9C227723EE8BCB, 0x465E15A979C1CADC),  // 1e-252
    (0x92A1958A7675175F, 0x0BFACD89EC191EC9),  // 1e-251
    (0xB749FAED14125D36, 0xCEF980EC671F667B),  // 1e-250
    (0xE51C79A85916F484, 0x82B7E12780E7401A),  // 1e-249
    (0x8F31CC0937AE58D2, 0xD1B2ECB8B0908810),  // 1e-248
    (0xB2FE3F0B8599EF07, 0x861FA7E6DCB4AA15),  // 1e-247
    (0xDFBDCECE67006AC9, 0x67A791E093E1D49A),  // 1e-246
    (0x8BD6A141006042BD, 0xE0C8BB2C5C6D24E0),  // 1e-245
    (0xAECC49914078536D, 0x58FAE9F773886E18),  // 1e-244
    (0xDA7F5BF590966848, 0xAF39A475506A899E),  // 1e-243
    (0x888F99797A5E012D, 0x6D8406C952429603),  // 1e-242
    (0xAAB37FD7D8F58178, 0xC8E5087BA6D33B83),  // 1e-241
    (0xD5605FCDCF32E1D6, 0xFB1E4A9A90880A64),  // 1e-240
    (0x855C3BE0A17FCD26, 0x5CF2EEA09A55067F),  // 1e-239
    (0xA6B34AD8C9DFC06F, 0xF42FAA48C0EA481E),  // 1e-238
    (0xD0601D8EFC57B08B, 0xF13B94DAF124DA26),  // 1e-237
    (0x823C12795DB6CE57, 0x76C53D08D6B70858),  // 1e-236
    (0xA2CB1717B52481ED, 0x54768C4B0C64CA6E),  // 1e-235
    (0xCB7DDCDDA26DA268, 0xA9942F5DCF7DFD09),  // 1e-234
    (0xFE5D54150B090B02, 0xD3F93B35435D7C4C),  // 1e-233
    (0x9EFA548D26E5A6E1, 0xC47BC5014A1A6DAF),  // 1e-232
    (0xC6B8E9B0709F109A, 0x359AB6419CA1091B),  // 1e-231
    (0xF867241C8CC6D4C0, 0xC30163D203C94B62),  // 1e-230
    (0x9B407691D7FC44F8, 0x79E0DE63425DCF1D),  // 1e-229
    (0xC21094364DFB5636, 0x985915FC12F542E4),  // 1e-228
    (0xF294B943E17A2BC4, 0x3E6F5B7B17B2939D),  // 1e-227
    (0x979CF3CA6CEC5B5A, 0xA705992CEECF9C42),  // 1e-226
    (0xBD8430BD08277231, 0x50C6FF782A838353),  // 1e-225
    (0xECE53CEC4A314EBD, 0xA4F8BF5635246428),  // 1e-224
    (0x940F4613AE5ED136, 0x871B7795E136BE99),  // 1e-223
    (0xB913179899F68584, 0x28E2557B59846E3F),  // 1e-222
    (0xE757DD7EC07426E5, 0x331AEADA2FE589CF),  // 1e-221
    (0x9096EA6F3848984F, 0x3FF0D2C85DEF7621),  // 1e-220
    (0xB4BCA50B065ABE63, 0x0FED077A756B53A9),  // 1e-219
    (0xE1EBCE4DC7F16DFB, 0xD3E8495912C62894),  // 1e-218
    (0x8D3360F09CF6E4BD, 0x64712DD7ABBBD95C),  // 1e-217
    (0xB080392CC4349DEC, 0xBD8D794D96AACFB3),  // 1e-216
    (0xDCA04777F541C567, 0xECF0D7A0FC5583A0),  // 1e-215
    (0x89E42CAAF9491B60, 0xF41686C49DB57244),  // 1e-214
    (0xAC5D37D5B79B6239, 0x311C2875C522CED5),  // 1e-213
    (0xD77485CB25823AC7, 0x7D633293366B828B),  // 1e-212
    (0x86A8D39EF77164BC, 0xAE5DFF9C02033197),  // 1e-211
    (0xA8530886B54DBDEB, 0xD9F57F830283FDFC),  // 1e-210
    (0xD267CAA862A12D66, 0xD072DF63C324FD7B),  // 1e-209
    (0x8380DEA93DA4BC60, 0x4247CB9E59F71E6D),  // 1e-208
    (0xA46116538D0DEB78, 0x52D9BE85F074E608),  // 1e-207
    (0xCD795BE870516656, 0x67902E276C921F8B),  // 1e-206
    (0x806BD9714632DFF6, 0x00BA1CD8A3DB53B6),  // 1e-205
    (0xA086CFCD97BF97F3, 0x80E8A40ECCD228A4),  // 1e-204
    (0xC8A883C0FDAF7DF0, 0x6122CD128006B2CD),  // 1e-203
    (0xFAD2A4B13D1B5D6C, 0x796B805720085F81),  // 1e-202
    (0x9CC3A6EEC6311A63, 0xCBE3303674053BB0),  // 1e-201
    (0xC3F490AA77BD60FC, 0xBEDBFC4411068A9C),  // 1e-200
    (0xF4F1B4D515ACB93B, 0xEE92FB5515482D44),  // 1e-199
    (0x991711052D8BF3C5, 0x751BDD152D4D1C4A),  // 1e-198
    (0xBF5CD54678EEF0B6, 0xD262D45A78A0635D),  // 1e-197
    (0xEF340A98172AACE4, 0x86FB897116C87C34),  // 1e-196
    (0x9580869F0E7AAC0E, 0xD45D35E6AE3D4DA0),  // 1e-195
    (0xBAE0A846D2195712, 0x8974836059CCA109),  // 1e-194
    (0xE998D258869FACD7, 0x2BD1A438703FC94B),  // 1e-193
    (0x91FF83775423CC06, 0x7B6306A34627DDCF),  // 1e-192
    (0xB67F6455292CBF08, 0x1A3BC84C17B1D542),  // 1e-191
    (0xE41F3D6A7377EECA, 0x20CABA5F1D9E4A93),  // 1e-190
    (0x8E938662882AF53E, 0x547EB47B7282EE9C),  // 1e-189
    (0xB23867FB2A35B28D, 0xE99E619A4F23AA43),  // 1e-188
    (0xDEC681F9F4C31F31, 0x6405FA00E2EC94D4),  // 1e-187
    (0x8B3C113C38F9F37E, 0xDE83BC408DD3DD04),  // 1e-186
    (0xAE0B158B4738705E, 0x9624AB50B148D445),  // 1e-185
    (0xD98DDAEE19068C76, 0x3BADD624DD9B0957),  // 1e-184
    (0x87F8A8D4CFA417C9, 0xE54CA5D70A80E5D6),  // 1e-183
    (0xA9F6D30A038D1DBC, 0x5E9FCF4CCD211F4C),  // 1e-182
    (0xD47487CC8470652B, 0x7647C3200069671F),  // 1e-181
    (0x84C8D4DFD2C63F3B, 0x29ECD9F40041E073),  // 1e-180
    (0xA5FB0A17C777CF09, 0xF468107100525890),  // 1e-179
    (0xCF79CC9DB955C2CC, 0x7182148D4066EEB4),  // 1e-178
    (0x81AC1FE293D599BF, 0xC6F14CD848405530),  // 1e-177
    (0xA21727DB38CB002F, 0xB8ADA00E5A506A7C),  // 1e-176
    (0xCA9CF1D206FDC03B, 0xA6D90811F0E4851C),  // 1e-175
    (0xFD442E4688BD304A, 0x908F4A166D1DA663),  // 1e-174
    (0x9E4A9CEC15763E2E, 0x9A598E4E043287FE),  // 1e-173
    (0xC5DD44271AD3CDBA, 0x40EFF1E1853F29FD),  // 1e-172
    (0xF7549530E188C128, 0xD12BEE59E68EF47C),  // 1e-171
    (0x9A94DD3E8CF578B9, 0x82BB74F8301958CE),  // 1e-170
    (0xC13A148E3032D6E7, 0xE36A52363C1FAF01),  // 1e-169
    (0xF18899B1BC3F8CA1, 0xDC44E6C3CB279AC1),  // 1e-168
    (0x96F5600F15A7B7E5, 0x29AB103A5EF8C0B9),  // 1e-167
    (0xBCB2B812DB11A5DE, 0x7415D448F6B6F0E7),  // 1e-166
    (0xEBDF661791D60F56, 0x111B495B3464AD21),  // 1e-165
    (0x936B9FCEBB25C995, 0xCAB10DD900BEEC34),  // 1e-164
    (0xB84687C269EF3BFB, 0x3D5D514F40EEA742),  // 1e-163
    (0xE65829B3046B0AFA, 0x0CB4A5A3112A5112),  // 1e-162
    (0x8FF71A0FE2C2E6DC, 0x47F0E785EABA72AB),  // 1e-161
    (0xB3F4E093DB73A093, 0x59ED216765690F56),  // 1e-160
    (0xE0F218B8D25088B8, 0x306869C13EC3532C),  // 1e-159
    (0x8C974F7383725573, 0x1E414218C73A13FB),  // 1e-158
    (0xAFBD2350644EEACF, 0xE5D1929EF90898FA),  // 1e-157
    (0xDBAC6C247D62A583, 0xDF45F746B74ABF39),  // 1e-156
    (0x894BC396CE5DA772, 0x6B8BBA8C328EB783),  // 1e-155
    (0xAB9EB47C81F5114F, 0x066EA92F3F326564),  // 1e-154
    (0xD686619BA27255A2, 0xC80A537B0EFEFEBD),  // 1e-153
    (0x8613FD0145877585, 0xBD06742CE95F5F36),  // 1e-152
    (0xA798FC4196E952E7, 0x2C48113823B73704),  // 1e-151
    (0xD17F3B51FCA3A7A0, 0xF75A15862CA504C5),  // 1e-150
    (0x82EF85133DE648C4, 0x9A984D73DBE722FB),  // 1e-149
    (0xA3AB66580D5FDAF5, 0xC13E60D0D2E0EBBA),  // 1e-148
    (0xCC963FEE10B7D1B3, 0x318DF905079926A8),  // 1e-147
    (0xFFBBCFE994E5C61F, 0xFDF17746497F7052),  // 1e-146
    (0x9FD561F1FD0F9BD3, 0xFEB6EA8BEDEFA633),  // 1e-145
    (0xC7CABA6E7C5382C8, 0xFE64A52EE96B8FC0),  // 1e-144
    (0xF9BD690A1B68637B, 0x3DFDCE7AA3C673B0),  // 1e-143
    (0x9C1661A651213E2D, 0x06BEA10CA65C084E),  // 1e-142
    (0xC31BFA0FE5698DB8, 0x486E494FCFF30A62),  // 1e-141
    (0xF3E2F893DEC3F126, 0x5A89DBA3C3EFCCFA),  // 1e-140
    (0x986DDB5C6B3A76B7, 0xF89629465A75E01C),  // 1e-139
    (0xBE89523386091465, 0xF6BBB397F1135823),  // 1e-138
    (0xEE2BA6C0678B597F, 0x746AA07DED582E2C),  // 1e-137
    (0x94DB483840B717EF, 0xA8C2A44EB4571CDC),  // 1e-136
    (0xBA121A4650E4DDEB, 0x92F34D62616CE413),  // 1e-135
    (0xE896A0D7E51E1566, 0x77B020BAF9C81D17),  // 1e-134
    (0x915E2486EF32CD60, 0x0ACE1474DC1D122E),  // 1e-133
    (0xB5B5ADA8AAFF80B8, 0x0D819992132456BA),  // 1e-132
    (0xE3231912D5BF60E6, 0x10E1FFF697ED6C69),  // 1e-131
    (0x8DF5EFABC5979C8F, 0xCA8D3FFA1EF463C1),  // 1e-130
    (0xB1736B96B6FD83B3, 0xBD308FF8A6B17CB2),  // 1e-129
    (0xDDD0467C64BCE4A0, 0xAC7CB3F6D05DDBDE),  // 1e-128
    (0x8AA22C0DBEF60EE4, 0x6BCDF07A423AA96B),  // 1e-127
    (0xAD4AB7112EB3929D, 0x86C16C98D2C953C6),  // 1e-126
    (0xD89D64D57A607744, 0xE871C7BF077BA8B7),  // 1e-125
    (0x87625F056C7C4A8B, 0x11471CD764AD4972),  // 1e-124
    (0xA93AF6C6C79B5D2D, 0xD598E40D3DD89BCF),  // 1e-123
    (0xD389B47879823479, 0x4AFF1D108D4EC2C3),  // 1e-122
    (0x843610CB4BF160CB, 0xCEDF722A585139BA),  // 1e-121
    (0xA54394FE1EEDB8FE, 0xC2974EB4EE658828),  // 1e-120
    (0xCE947A3DA6A9273E, 0x733D226229FEEA32),  // 1e-119
    (0x811CCC668829B887, 0x0806357D5A3F525F),  // 1e-118
    (0xA163FF802A3426A8, 0xCA07C2DCB0CF26F7),  // 1e-117
    (0xC9BCFF6034C13052, 0xFC89B393DD02F0B5),  // 1e-116
    (0xFC2C3F3841F17C67, 0xBBAC2078D443ACE2),  // 1e-115
    (0x9D9BA7832936EDC0, 0xD54B944B84AA4C0D),  // 1e-114
    (0xC5029163F384A931, 0x0A9E795E65D4DF11),  // 1e-113
    (0xF64335BCF065D37D, 0x4D4617B5FF4A16D5),  // 1e-112
    (0x99EA0196163FA42E, 0x504BCED1BF8E4E45),  // 1e-111
    (0xC06481FB9BCF8D39, 0xE45EC2862F71E1D6),  // 1e-110
    (0xF07DA27A82C37088, 0x5D767327BB4E5A4C),  // 1e-109
    (0x964E858C91BA2655, 0x3A6A07F8D510F86F),  // 1e-108
    (0xBBE226EFB628AFEA, 0x890489F70A55368B),  // 1e-107
    (0xEADAB0ABA3B2DBE5, 0x2B45AC74CCEA842E),  // 1e-106
    (0x92C8AE6B464FC96F, 0x3B0B8BC90012929D),  // 1e-105
    (0xB77ADA0617E3BBCB, 0x09CE6EBB40173744),  // 1e-104
    (0xE55990879DDCAABD, 0xCC420A6A101D0515),  // 1e-103
    (0x8F57FA54C2A9EAB6, 0x9FA946824A12232D),  // 1e-102
    (0xB32DF8E9F3546564, 0x47939822DC96ABF9),  // 1e-101
    (0xDFF9772470297EBD, 0x59787E2B93BC56F7),  // 1e-100
    (0x8BFBEA76C619EF36, 0x57EB4EDB3C55B65A),  // 1e-99
    (0xAEFAE51477A06B03, 0xEDE622920B6B23F1),  // 1e-98
    (0xDAB99E59958885C4, 0xE95FAB368E45ECED),  // 1e-97
    (0x88B402F7FD75539B, 0x11DBCB0218EBB414),  // 1e-96
    (0xAAE103B5FCD2A881, 0xD652BDC29F26A119),  // 1e-95
    (0xD59944A37C0752A2, 0x4BE76D3346F0495F),  // 1e-94
    (0x857FCAE62D8493A5, 0x6F70A4400C562DDB),  // 1e-93
    (0xA6DFBD9FB8E5B88E, 0xCB4CCD500F6BB952),  // 1e-92
    (0xD097AD07A71F26B2, 0x7E2000A41346A7A7),  // 1e-91
    (0x825ECC24C873782F, 0x8ED400668C0C28C8),  // 1e-90
    (0xA2F67F2DFA90563B, 0x728900802F0F32FA),  // 1e-89
    (0xCBB41EF979346BCA, 0x4F2B40A03AD2FFB9),  // 1e-88
    (0xFEA126B7D78186BC, 0xE2F610C84987BFA8),  // 1e-87
    (0x9F24B832E6B0F436, 0x0DD9CA7D2DF4D7C9),  // 1e-86
    (0xC6EDE63FA05D3143, 0x91503D1C79720DBB),  // 1e-85
    (0xF8A95FCF88747D94, 0x75A44C6397CE912A),  // 1e-84
    (0x9B69DBE1B548CE7C, 0xC986AFBE3EE11ABA),  // 1e-83
    (0xC24452DA229B021B, 0xFBE85BADCE996168),  // 1e-82
    (0xF2D56790AB41C2A2, 0xFAE27299423FB9C3),  // 1e-81
    (0x97C560BA6B0919A5, 0xDCCD879FC967D41A),  // 1e-80
    (0xBDB6B8E905CB600F, 0x5400E987BBC1C920),  // 1e-79
    (0xED246723473E3813, 0x290123E9AAB23B68),  // 1e-78
    (0x9436C0760C86E30B, 0xF9A0B6720AAF6521),  // 1e-77
    (0xB94470938FA89BCE, 0xF808E40E8D5B3E69),  // 1e-76
    (0xE7958CB87392C2C2, 0xB60B1D1230B20E04),  // 1e-75
    (0x90BD77F3483BB9B9, 0xB1C6F22B5E6F48C2),  // 1e-74
    (0xB4ECD5F01A4AA828, 0x1E38AEB6360B1AF3),  // 1e-73
    (0xE2280B6C20DD5232, 0x25C6DA63C38DE1B0),  // 1e-72
    (0x8D590723948A535F, 0x579C487E5A38AD0E),  // 1e-71
    (0xB0AF48EC79ACE837, 0x2D835A9DF0C6D851),  // 1e-70
    (0xDCDB1B2798182244, 0xF8E431456CF88E65),  // 1e-69
    (0x8A08F0F8BF0F156B, 0x1B8E9ECB641B58FF),  // 1e-68
    (0xAC8B2D36EED2DAC5, 0xE272467E3D222F3F),  // 1e-67
    (0xD7ADF884AA879177, 0x5B0ED81DCC6ABB0F),  // 1e-66
    (0x86CCBB52EA94BAEA, 0x98E947129FC2B4E9),  // 1e-65
    (0xA87FEA27A539E9A5, 0x3F2398D747B36224),  // 1e-64
    (0xD29FE4B18E88640E, 0x8EEC7F0D19A03AAD),  // 1e-63
    (0x83A3EEEEF9153E89, 0x1953CF68300424AC),  // 1e-62
    (0xA48CEAAAB75A8E2B, 0x5FA8C3423C052DD7),  // 1e-61
    (0xCDB02555653131B6, 0x3792F412CB06794D),  // 1e-60
    (0x808E17555F3EBF11, 0xE2BBD88BBEE40BD0),  // 1e-59
    (0xA0B19D2AB70E6ED6, 0x5B6ACEAEAE9D0EC4),  // 1e-58
    (0xC8DE047564D20A8B, 0xF245825A5A445275),  // 1e-57
    (0xFB158592BE068D2E, 0xEED6E2F0F0D56712),  // 1e-56
    (0x9CED737BB6C4183D, 0x55464DD69685606B),  // 1e-55
    (0xC428D05AA4751E4C, 0xAA97E14C3C26B886),  // 1e-54
    (0xF53304714D9265DF, 0xD53DD99F4B3066A8),  // 1e-53
    (0x993FE2C6D07B7FAB, 0xE546A8038EFE4029),  // 1e-52
    (0xBF8FDB78849A5F96, 0xDE98520472BDD033),  // 1e-51
    (0xEF73D256A5C0F77C, 0x963E66858F6D4440),  // 1e-50
    (0x95A8637627989AAD, 0xDDE7001379A44AA8),  // 1e-49
    (0xBB127C53B17EC159, 0x5560C018580D5D52),  // 1e-48
    (0xE9D71B689DDE71AF, 0xAAB8F01E6E10B4A6),  // 1e-47
    (0x9226712162AB070D, 0xCAB3961304CA70E8),  // 1e-46
    (0xB6B00D69BB55C8D1, 0x3D607B97C5FD0D22),  // 1e-45
    (0xE45C10C42A2B3B05, 0x8CB89A7DB77C506A),  // 1e-44
    (0x8EB98A7A9A5B04E3, 0x77F3608E92ADB242),  // 1e-43
    (0xB267ED1940F1C61C, 0x55F038B237591ED3),  // 1e-42
    (0xDF01E85F912E37A3, 0x6B6C46DEC52F6688),  // 1e-41
    (0x8B61313BBABCE2C6, 0x2323AC4B3B3DA015),  // 1e-40
    (0xAE397D8AA96C1B77, 0xABEC975E0A0D081A),  // 1e-39
    (0xD9C7DCED53C72255, 0x96E7BD358C904A21),  // 1e-38
    (0x881CEA14545C7575, 0x7E50D64177DA2E54),  // 1e-37
    (0xAA242499697392D2, 0xDDE50BD1D5D0B9E9),  // 1e-36
    (0xD4AD2DBFC3D07787, 0x955E4EC64B44E864),  // 1e-35
    (0x84EC3C97DA624AB4, 0xBD5AF13BEF0B113E),  // 1e-34
    (0xA6274BBDD0FADD61, 0xECB1AD8AEACDD58E),  // 1e-33
    (0xCFB11EAD453994BA, 0x67DE18EDA5814AF2),  // 1e-32
    (0x81CEB32C4B43FCF4, 0x80EACF948770CED7),  // 1e-31
    (0xA2425FF75E14FC31, 0xA1258379A94D028D),  // 1e-30
    (0xCAD2F7F5359A3B3E, 0x096EE45813A04330),  // 1e-29
    (0xFD87B5F28300CA0D, 0x8BCA9D6E188853FC),  // 1e-28
    (0x9E74D1B791E07E48, 0x775EA264CF55347D),  // 1e-27
    (0xC612062576589DDA, 0x95364AFE032A819D),  // 1e-26
    (0xF79687AED3EEC551, 0x3A83DDBD83F52204),  // 1e-25
    (0x9ABE14CD44753B52, 0xC4926A9672793542),  // 1e-24
    (0xC16D9A0095928A27, 0x75B7053C0F178293),  // 1e-23
    (0xF1C90080BAF72CB1, 0x5324C68B12DD6338),  // 1e-22
    (0x971DA05074DA7BEE, 0xD3F6FC16EBCA5E03),  // 1e-21
    (0xBCE5086492111AEA, 0x88F4BB1CA6BCF584),  // 1e-20
    (0xEC1E4A7DB69561A5, 0x2B31E9E3D06C32E5),  // 1e-19
    (0x9392EE8E921D5D07, 0x3AFF322E62439FCF),  // 1e-18
    (0xB877AA3236A4B449, 0x09BEFEB9FAD487C2),  // 1e-17
    (0xE69594BEC44DE15B, 0x4C2EBE687989A9B3),  // 1e-16
    (0x901D7CF73AB0ACD9, 0x0F9D37014BF60A10),  // 1e-15
    (0xB424DC35095CD80F, 0x538484C19EF38C94),  // 1e-14
    (0xE12E13424BB40E13, 0x2865A5F206B06FB9),  // 1e-13
    (0x8CBCCC096F5088CB, 0xF93F87B7442E45D3),  // 1e-12
    (0xAFEBFF0BCB24AAFE, 0xF78F69A51539D748),  // 1e-11
    (0xDBE6FECEBDEDD5BE, 0xB573440E5A884D1B),  // 1e-10
    (0x89705F4136B4A597, 0x31680A88F8953030),  // 1e-9
    (0xABCC77118461CEFC, 0xFDC20D2B36BA7C3D),  // 1e-8
    (0xD6BF94D5E57A42BC, 0x3D32907604691B4C),  // 1e-7
    (0x8637BD05AF6C69B5, 0xA63F9A49C2C1B10F),  // 1e-6
    (0xA7C5AC471B478423, 0x0FCF80DC33721D53),  // 1e-5
    (0xD1B71758E219652B, 0xD3C36113404EA4A8),  // 1e-4
    (0x83126E978D4FDF3B, 0x645A1CAC083126E9),  // 1e-3
    (0xA3D70A3D70A3D70A, 0x3D70A3D70A3D70A3),  // 1e-2
    (0xCCCCCCCCCCCCCCCC, 0xCCCCCCCCCCCCCCCC),  // 1e-1
    (0x8000000000000000, 0x0000000000000000),  // 1e0
    (0xA000000000000000, 0x0000000000000000),  // 1e1
    (0xC800000000000000, 0x0000000000000000),  // 1e2
    (0xFA00000000000000, 0x0000000000000000),  // 1e3
    (0x9C40000000000000, 0x0000000000000000),  // 1e4
    (0xC350000000000000, 0x0000000000000000),  // 1e5
    (0xF424000000000000, 0x0000000000000000),  // 1e6
    (0x9896800000000000, 0x0000000000000000),  // 1e7
    (0xBEBC200000000000, 0x0000000000000000),  // 1e8
    (0xEE6B280000000000, 0x0000000000000000),  // 1e9
    (0x9502F90000000000, 0x0000000000000000),  // 1e10
    (0xBA43B74000000000, 0x0000000000000000),  // 1e11
    (0xE8D4A51000000000, 0x0000000000000000),  // 1e12
    (0x9184E72A00000000, 0x0000000000000000),  // 1e13
    (0xB5E620F480000000, 0x0000000000000000),  // 1e14
    (0xE35FA931A0000000, 0x0000000000000000),  // 1e15
    (0x8E1BC9BF04000000, 0x0000000000000000),  // 1e16
    (0xB1A2BC2EC5000000, 0x0000000000000000),  // 1e17
    (0xDE0B6B3A76400000, 0x0000000000000000),  // 1e18
    (0x8AC7230489E80000, 0x0000000000000000),  // 1e19
    (0xAD78EBC5AC620000, 0x0000000000000000),  // 1e20
    (0xD8D726B7177A8000, 0x0000000000000000),  // 1e21
    (0x878678326EAC9000, 0x0000000000000000),  // 1e22
    (0xA968163F0A57B400, 0x0000000000000000),  // 1e23
    (0xD3C21BCECCEDA100, 0x0000000000000000),  // 1e24
    (0x84595161401484A0, 0x0000000000000000),  // 1e25
    (0xA56FA5B99019A5C8, 0x0000000000000000),  // 1e26
    (0xCECB8F27F4200F3A, 0x0000000000000000),  // 1e27
    (0x813F3978F8940984, 0x4000000000000000),  // 1e28
    (0xA18F07D736B90BE5, 0x5000000000000000),  // 1e29
    (0xC9F2C9CD04674EDE, 0xA400000000000000),  // 1e30
    (0xFC6F7C4045812296, 0x4D00000000000000),  // 1e31
    (0x9DC5ADA82B70B59D, 0xF020000000000000),  // 1e32
    (0xC5371912364CE305, 0x6C28000000000000),  // 1e33
    (0xF684DF56C3E01BC6, 0xC732000000000000),  // 1e34
    (0x9A130B963A6C115C, 0x3C7F400000000000),  // 1e35
    (0xC097CE7BC90715B3, 0x4B9F100000000000),  // 1e36
    (0xF0BDC21ABB48DB20, 0x1E86D40000000000),  // 1e37
    (0x96769950B50D88F4, 0x1314448000000000),  // 1e38
    (0xBC143FA4E250EB31, 0x17D955A000000000),  // 1e39
    (0xEB194F8E1AE525FD, 0x5DCFAB0800000000),  // 1e40
    (0x92EFD1B8D0CF37BE, 0x5AA1CAE500000000),  // 1e41
    (0xB7ABC627050305AD, 0xF14A3D9E40000000),  // 1e42
    (0xE596B7B0C643C719, 0x6D9CCD05D0000000),  // 1e43
    (0x8F7E32CE7BEA5C6F, 0xE4820023A2000000),  // 1e44
    (0xB35DBF821AE4F38B, 0xDDA2802C8A800000),  // 1e45
    (0xE0352F62A19E306E, 0xD50B2037AD200000),  // 1e46
    (0x8C213D9DA502DE45, 0x4526F422CC340000),  // 1e47
    (0xAF298D050E4395D6, 0x9670B12B7F410000),  // 1e48
    (0xDAF3F04651D47B4C, 0x3C0CDD765F114000),  // 1e49
    (0x88D8762BF324CD0F, 0xA5880A69FB6AC800),  // 1e50
    (0xAB0E93B6EFEE0053, 0x8EEA0D047A457A00),  // 1e51
    (0xD5D238A4ABE98068, 0x72A4904598D6D880),  // 1e52
    (0x85A36366EB71F041, 0x47A6DA2B7F864750),  // 1e53
    (0xA70C3C40A64E6C51, 0x999090B65F67D924),  // 1e54
    (0xD0CF4B50CFE20765, 0xFFF4B4E3F741CF6D),  // 1e55
    (0x82818F1281ED449F, 0xBFF8F10E7A8921A4),  // 1e56
    (0xA321F2D7226895C7, 0xAFF72D52192B6A0D),  // 1e57
    (0xCBEA6F8CEB02BB39, 0x9BF4F8A69F764490),  // 1e58
    (0xFEE50B7025C36A08, 0x02F236D04753D5B4),  // 1e59
    (0x9F4F2726179A2245, 0x01D762422C946590),  // 1e60
    (0xC722F0EF9D80AAD6, 0x424D3AD2B7B97EF5),  // 1e61
    (0xF8EBAD2B84E0D58B, 0xD2E0898765A7DEB2),  // 1e62
    (0x9B934C3B330C8577, 0x63CC55F49F88EB2F),  // 1e63
    (0xC2781F49FFCFA6D5, 0x3CBF6B71C76B25FB),  // 1e64
    (0xF316271C7FC3908A, 0x8BEF464E3945EF7A),  // 1e65
    (0x97EDD871CFDA3A56, 0x97758BF0E3CBB5AC),  // 1e66
    (0xBDE94E8E43D0C8EC, 0x3D52EEED1CBEA317),  // 1e67
    (0xED63A231D4C4FB27, 0x4CA7AAA863EE4BDD),  // 1e68
    (0x945E455F24FB1CF8, 0x8FE8CAA93E74EF6A),  // 1e69
    (0xB975D6B6EE39E436, 0xB3E2FD538E122B44),  // 1e70
    (0xE7D34C64A9C85D44, 0x60DBBCA87196B616),  // 1e71
    (0x90E40FBEEA1D3A4A, 0xBC8955E946FE31CD),  // 1e72
    (0xB51D13AEA4A488DD, 0x6BABAB6398BDBE41),  // 1e73
    (0xE264589A4DCDAB14, 0xC696963C7EED2DD1),  // 1e74
    (0x8D7EB76070A08AEC, 0xFC1E1DE5CF543CA2),  // 1e75
    (0xB0DE65388CC8ADA8, 0x3B25A55F43294BCB),  // 1e76
    (0xDD15FE86AFFAD912, 0x49EF0EB713F39EBE),  // 1e77
    (0x8A2DBF142DFCC7AB, 0x6E3569326C784337),  // 1e78
    (0xACB92ED9397BF996, 0x49C2C37F07965404),  // 1e79
    (0xD7E77A8F87DAF7FB, 0xDC33745EC97BE906),  // 1e80
    (0x86F0AC99B4E8DAFD, 0x69A028BB3DED71A3),  // 1e81
    (0xA8ACD7C0222311BC, 0xC40832EA0D68CE0C),  // 1e82
    (0xD2D80DB02AABD62B, 0xF50A3FA490C30190),  // 1e83
    (0x83C7088E1AAB65DB, 0x792667C6DA79E0FA),  // 1e84
    (0xA4B8CAB1A1563F52, 0x577001B891185938),  // 1e85
    (0xCDE6FD5E09ABCF26, 0xED4C0226B55E6F86),  // 1e86
    (0x80B05E5AC60B6178, 0x544F8158315B05B4),  // 1e87
    (0xA0DC75F1778E39D6, 0x696361AE3DB1C721),  // 1e88
    (0xC913936DD571C84C, 0x03BC3A19CD1E38E9),  // 1e89
    (0xFB5878494ACE3A5F, 0x04AB48A04065C723),  // 1e90
    (0x9D174B2DCEC0E47B, 0x62EB0D64283F9C76),  // 1e91
    (0xC45D1DF942711D9A, 0x3BA5D0BD324F8394),  // 1e92
    (0xF5746577930D6500, 0xCA8F44EC7EE36479),  // 1e93
    (0x9968BF6ABBE85F20, 0x7E998B13CF4E1ECB),  // 1e94
    (0xBFC2EF456AE276E8, 0x9E3FEDD8C321A67E),  // 1e95
    (0xEFB3AB16C59B14A2, 0xC5CFE94EF3EA101E),  // 1e96
    (0x95D04AEE3B80ECE5, 0xBBA1F1D158724A12),  // 1e97
    (0xBB445DA9CA61281F, 0x2A8A6E45AE8EDC97),  // 1e98
    (0xEA1575143CF97226, 0xF52D09D71A3293BD),  // 1e99
    (0x924D692CA61BE758, 0x593C2626705F9C56),  // 1e100
    (0xB6E0C377CFA2E12E, 0x6F8B2FB00C77836C),  // 1e101
    (0xE498F455C38B997A, 0x0B6DFB9C0F956447),  // 1e102
    (0x8EDF98B59A373FEC, 0x4724BD4189BD5EAC),  // 1e103
    (0xB2977EE300C50FE7, 0x58EDEC91EC2CB657),  // 1e104
    (0xDF3D5E9BC0F653E1, 0x2F2967B66737E3ED),  // 1e105
    (0x8B865B215899F46C, 0xBD79E0D20082EE74),  // 1e106
    (0xAE67F1E9AEC07187, 0xECD8590680A3AA11),  // 1e107
    (0xDA01EE641A708DE9, 0xE80E6F4820CC9495),  // 1e108
    (0x884134FE908658B2, 0x3109058D147FDCDD),  // 1e109
    (0xAA51823E34A7EEDE, 0xBD4B46F0599FD415),  // 1e110
    (0xD4E5E2CDC1D1EA96, 0x6C9E18AC7007C91A),  // 1e111
    (0x850FADC09923329E, 0x03E2CF6BC604DDB0),  // 1e112
    (0xA6539930BF6BFF45, 0x84DB8346B786151C),  // 1e113
    (0xCFE87F7CEF46FF16, 0xE612641865679A63),  // 1e114
    (0x81F14FAE158C5F6E, 0x4FCB7E8F3F60C07E),  // 1e115
    (0xA26DA3999AEF7749, 0xE3BE5E330F38F09D),  // 1e116
    (0xCB090C8001AB551C, 0x5CADF5BFD3072CC5),  // 1e117
    (0xFDCB4FA002162A63, 0x73D9732FC7C8F7F6),  // 1e118
    (0x9E9F11C4014DDA7E, 0x2867E7FDDCDD9AFA),  // 1e119
    (0xC646D63501A1511D, 0xB281E1FD541501B8),  // 1e120
    (0xF7D88BC24209A565, 0x1F225A7CA91A4226),  // 1e121
    (0x9AE757596946075F, 0x3375788DE9B06958),  // 1e122
    (0xC1A12D2FC3978937, 0x0052D6B1641C83AE),  // 1e123
    (0xF209787BB47D6B84, 0xC0678C5DBD23A49A),  // 1e124
    (0x9745EB4D50CE6332, 0xF840B7BA963646E0),  // 1e125
    (0xBD176620A501FBFF, 0xB650E5A93BC3D898),  // 1e126
    (0xEC5D3FA8CE427AFF, 0xA3E51F138AB4CEBE),  // 1e127
    (0x93BA47C980E98CDF, 0xC66F336C36B10137),  // 1e128
    (0xB8A8D9BBE123F017, 0xB80B0047445D4184),  // 1e129
    (0xE6D3102AD96CEC1D, 0xA60DC059157491E5),  // 1e130
    (0x9043EA1AC7E41392, 0x87C89837AD68DB2F),  // 1e131
    (0xB454E4A179DD1877, 0x29BABE4598C311FB),  // 1e132
    (0xE16A1DC9D8545E94, 0xF4296DD6FEF3D67A),  // 1e133
    (0x8CE2529E2734BB1D, 0x1899E4A65F58660C),  // 1e134
    (0xB01AE745B101E9E4, 0x5EC05DCFF72E7F8F),  // 1e135
    (0xDC21A1171D42645D, 0x76707543F4FA1F73),  // 1e136
    (0x899504AE72497EBA, 0x6A06494A791C53A8),  // 1e137
    (0xABFA45DA0EDBDE69, 0x0487DB9D17636892),  // 1e138
    (0xD6F8D7509292D603, 0x45A9D2845D3C42B6),  // 1e139
    (0x865B86925B9BC5C2, 0x0B8A2392BA45A9B2),  // 1e140
    (0xA7F26836F282B732, 0x8E6CAC7768D7141E),  // 1e141
    (0xD1EF0244AF2364FF, 0x3207D795430CD926),  // 1e142
    (0x8335616AED761F1F, 0x7F44E6BD49E807B8),  // 1e143
    (0xA402B9C5A8D3A6E7, 0x5F16206C9C6209A6),  // 1e144
    (0xCD036837130890A1, 0x36DBA887C37A8C0F),  // 1e145
    (0x802221226BE55A64, 0xC2494954DA2C9789),  // 1e146
    (0xA02AA96B06DEB0FD, 0xF2DB9BAA10B7BD6C),  // 1e147
    (0xC83553C5C8965D3D, 0x6F92829494E5ACC7),  // 1e148
    (0xFA42A8B73ABBF48C, 0xCB772339BA1F17F9),  // 1e149
    (0x9C69A97284B578D7, 0xFF2A760414536EFB),  // 1e150
    (0xC38413CF25E2D70D, 0xFEF5138519684ABA),  // 1e151
    (0xF46518C2EF5B8CD1, 0x7EB258665FC25D69),  // 1e152
    (0x98BF2F79D5993802, 0xEF2F773FFBD97A61),  // 1e153
    (0xBEEEFB584AFF8603, 0xAAFB550FFACFD8FA),  // 1e154
    (0xEEAABA2E5DBF6784, 0x95BA2A53F983CF38),  // 1e155
    (0x952AB45CFA97A0B2, 0xDD945A747BF26183),  // 1e156
    (0xBA756174393D88DF, 0x94F971119AEEF9E4),  // 1e157
    (0xE912B9D1478CEB17, 0x7A37CD5601AAB85D),  // 1e158
    (0x91ABB422CCB812EE, 0xAC62E055C10AB33A),  // 1e159
    (0xB616A12B7FE617AA, 0x577B986B314D6009),  // 1e160
    (0xE39C49765FDF9D94, 0xED5A7E85FDA0B80B),  // 1e161
    (0x8E41ADE9FBEBC27D, 0x14588F13BE847307),  // 1e162
    (0xB1D219647AE6B31C, 0x596EB2D8AE258FC8),  // 1e163
    (0xDE469FBD99A05FE3, 0x6FCA5F8ED9AEF3BB),  // 1e164
    (0x8AEC23D680043BEE, 0x25DE7BB9480D5854),  // 1e165
    (0xADA72CCC20054AE9, 0xAF561AA79A10AE6A),  // 1e166
    (0xD910F7FF28069DA4, 0x1B2BA1518094DA04),  // 1e167
    (0x87AA9AFF79042286, 0x90FB44D2F05D0842),  // 1e168
    (0xA99541BF57452B28, 0x353A1607AC744A53),  // 1e169
    (0xD3FA922F2D1675F2, 0x42889B8997915CE8),  // 1e170
    (0x847C9B5D7C2E09B7, 0x69956135FEBADA11),  // 1e171
    (0xA59BC234DB398C25, 0x43FAB9837E699095),  // 1e172
    (0xCF02B2C21207EF2E, 0x94F967E45E03F4BB),  // 1e173
    (0x8161AFB94B44F57D, 0x1D1BE0EEBAC278F5),  // 1e174
    (0xA1BA1BA79E1632DC, 0x6462D92A69731732),  // 1e175
    (0xCA28A291859BBF93, 0x7D7B8F7503CFDCFE),  // 1e176
    (0xFCB2CB35E702AF78, 0x5CDA735244C3D43E),  // 1e177
    (0x9DEFBF01B061ADAB, 0x3A0888136AFA64A7),  // 1e178
    (0xC56BAEC21C7A1916, 0x088AAA1845B8FDD0),  // 1e179
    (0xF6C69A72A3989F5B, 0x8AAD549E57273D45),  // 1e180
    (0x9A3C2087A63F6399, 0x36AC54E2F678864B),  // 1e181
    (0xC0CB28A98FCF3C7F, 0x84576A1BB416A7DD),  // 1e182
    (0xF0FDF2D3F3C30B9F, 0x656D44A2A11C51D5),  // 1e183
    (0x969EB7C47859E743, 0x9F644AE5A4B1B325),  // 1e184
    (0xBC4665B596706114, 0x873D5D9F0DDE1FEE),  // 1e185
    (0xEB57FF22FC0C7959, 0xA90CB506D155A7EA),  // 1e186
    (0x9316FF75DD87CBD8, 0x09A7F12442D588F2),  // 1e187
    (0xB7DCBF5354E9BECE, 0x0C11ED6D538AEB2F),  // 1e188
    (0xE5D3EF282A242E81, 0x8F1668C8A86DA5FA),  // 1e189
    (0x8FA475791A569D10, 0xF96E017D694487BC),  // 1e190
    (0xB38D92D760EC4455, 0x37C981DCC395A9AC),  // 1e191
    (0xE070F78D3927556A, 0x85BBE253F47B1417),  // 1e192
    (0x8C469AB843B89562, 0x93956D7478CCEC8E),  // 1e193
    (0xAF58416654A6BABB, 0x387AC8D1970027B2),  // 1e194
    (0xDB2E51BFE9D0696A, 0x06997B05FCC0319E),  // 1e195
    (0x88FCF317F22241E2, 0x441FECE3BDF81F03),  // 1e196
    (0xAB3C2FDDEEAAD25A, 0xD527E81CAD7626C3),  // 1e197
    (0xD60B3BD56A5586F1, 0x8A71E223D8D3B074),  // 1e198
    (0x85C7056562757456, 0xF6872D5667844E49),  // 1e199
    (0xA738C6BEBB12D16C, 0xB428F8AC016561DB),  // 1e200
    (0xD106F86E69D785C7, 0xE13336D701BEBA52),  // 1e201
    (0x82A45B450226B39C, 0xECC0024661173473),  // 1e202
    (0xA34D721642B06084, 0x27F002D7F95D0190),  // 1e203
    (0xCC20CE9BD35C78A5, 0x31EC038DF7B441F4),  // 1e204
    (0xFF290242C83396CE, 0x7E67047175A15271),  // 1e205
    (0x9F79A169BD203E41, 0x0F0062C6E984D386),  // 1e206
    (0xC75809C42C684DD1, 0x52C07B78A3E60868),  // 1e207
    (0xF92E0C3537826145, 0xA7709A56CCDF8A82),  // 1e208
    (0x9BBCC7A142B17CCB, 0x88A66076400BB691),  // 1e209
    (0xC2ABF989935DDBFE, 0x6ACFF893D00EA435),  // 1e210
    (0xF356F7EBF83552FE, 0x0583F6B8C4124D43),  // 1e211
    (0x98165AF37B2153DE, 0xC3727A337A8B704A),  // 1e212
    (0xBE1BF1B059E9A8D6, 0x744F18C0592E4C5C),  // 1e213
    (0xEDA2EE1C7064130C, 0x1162DEF06F79DF73),  // 1e214
    (0x9485D4D1C63E8BE7, 0x8ADDCB5645AC2BA8),  // 1e215
    (0xB9A74A0637CE2EE1, 0x6D953E2BD7173692),  // 1e216
    (0xE8111C87C5C1BA99, 0xC8FA8DB6CCDD0437),  // 1e217
    (0x910AB1D4DB9914A0, 0x1D9C9892400A22A2),  // 1e218
    (0xB54D5E4A127F59C8, 0x2503BEB6D00CAB4B),  // 1e219
    (0xE2A0B5DC971F303A, 0x2E44AE64840FD61D),  // 1e220
    (0x8DA471A9DE737E24, 0x5CEAECFED289E5D2),  // 1e221
    (0xB10D8E1456105DAD, 0x7425A83E872C5F47),  // 1e222
    (0xDD50F1996B947518, 0xD12F124E28F77719),  // 1e223
    (0x8A5296FFE33CC92F, 0x82BD6B70D99AAA6F),  // 1e224
    (0xACE73CBFDC0BFB7B, 0x636CC64D1001550B),  // 1e225
    (0xD8210BEFD30EFA5A, 0x3C47F7E05401AA4E),  // 1e226
    (0x8714A775E3E95C78, 0x65ACFAEC34810A71),  // 1e227
    (0xA8D9D1535CE3B396, 0x7F1839A741A14D0D),  // 1e228
    (0xD31045A8341CA07C, 0x1EDE48111209A050),  // 1e229
    (0x83EA2B892091E44D, 0x934AED0AAB460432),  // 1e230
    (0xA4E4B66B68B65D60, 0xF81DA84D5617853F),  // 1e231
    (0xCE1DE40642E3F4B9, 0x36251260AB9D668E),  // 1e232
    (0x80D2AE83E9CE78F3, 0xC1D72B7C6B426019),  // 1e233
    (0xA1075A24E4421730, 0xB24CF65B8612F81F),  // 1e234
    (0xC94930AE1D529CFC, 0xDEE033F26797B627),  // 1e235
    (0xFB9B7CD9A4A7443C, 0x169840EF017DA3B1),  // 1e236
    (0x9D412E0806E88AA5, 0x8E1F289560EE864E),  // 1e237
    (0xC491798A08A2AD4E, 0xF1A6F2BAB92A27E2),  // 1e238
    (0xF5B5D7EC8ACB58A2, 0xAE10AF696774B1DB),  // 1e239
    (0x9991A6F3D6BF1765, 0xACCA6DA1E0A8EF29),  // 1e240
    (0xBFF610B0CC6EDD3F, 0x17FD090A58D32AF3),  // 1e241
    (0xEFF394DCFF8A948E, 0xDDFC4B4CEF07F5B0),  // 1e242
    (0x95F83D0A1FB69CD9, 0x4ABDAF101564F98E),  // 1e243
    (0xBB764C4CA7A4440F, 0x9D6D1AD41ABE37F1),  // 1e244
    (0xEA53DF5FD18D5513, 0x84C86189216DC5ED),  // 1e245
    (0x92746B9BE2F8552C, 0x32FD3CF5B4E49BB4),  // 1e246
    (0xB7118682DBB66A77, 0x3FBC8C33221DC2A1),  // 1e247
    (0xE4D5E82392A40515, 0x0FABAF3FEAA5334A),  // 1e248
    (0x8F05B1163BA6832D, 0x29CB4D87F2A7400E),  // 1e249
    (0xB2C71D5BCA9023F8, 0x743E20E9EF511012),  // 1e250
    (0xDF78E4B2BD342CF6, 0x914DA9246B255416),  // 1e251
    (0x8BAB8EEFB6409C1A, 0x1AD089B6C2F7548E),  // 1e252
    (0xAE9672ABA3D0C320, 0xA184AC2473B529B1),  // 1e253
    (0xDA3C0F568CC4F3E8, 0xC9E5D72D90A2741E),  // 1e254
    (0x8865899617FB1871, 0x7E2FA67C7A658892),  // 1e255
    (0xAA7EEBFB9DF9DE8D, 0xDDBB901B98FEEAB7),  // 1e256
    (0xD51EA6FA85785631, 0x552A74227F3EA565),  // 1e257
    (0x8533285C936B35DE, 0xD53A88958F87275F),  // 1e258
    (0xA67FF273B8460356, 0x8A892ABAF368F137),  // 1e259
    (0xD01FEF10A657842C, 0x2D2B7569B0432D85),  // 1e260
    (0x8213F56A67F6B29B, 0x9C3B29620E29FC73),  // 1e261
    (0xA298F2C501F45F42, 0x8349F3BA91B47B8F),  // 1e262
    (0xCB3F2F7642717713, 0x241C70A936219A73),  // 1e263
    (0xFE0EFB53D30DD4D7, 0xED238CD383AA0110),  // 1e264
    (0x9EC95D1463E8A506, 0xF4363804324A40AA),  // 1e265
    (0xC67BB4597CE2CE48, 0xB143C6053EDCD0D5),  // 1e266
    (0xF81AA16FDC1B81DA, 0xDD94B7868E94050A),  // 1e267
    (0x9B10A4E5E9913128, 0xCA7CF2B4191C8326),  // 1e268
    (0xC1D4CE1F63F57D72, 0xFD1C2F611F63A3F0),  // 1e269
    (0xF24A01A73CF2DCCF, 0xBC633B39673C8CEC),  // 1e270
    (0x976E41088617CA01, 0xD5BE0503E085D813),  // 1e271
    (0xBD49D14AA79DBC82, 0x4B2D8644D8A74E18),  // 1e272
    (0xEC9C459D51852BA2, 0xDDF8E7D60ED1219E),  // 1e273
    (0x93E1AB8252F33B45, 0xCABB90E5C942B503),  // 1e274
    (0xB8DA1662E7B00A17, 0x3D6A751F3B936243),  // 1e275
    (0xE7109BFBA19C0C9D, 0x0CC512670A783AD4),  // 1e276
    (0x906A617D450187E2, 0x27FB2B80668B24C5),  // 1e277
    (0xB484F9DC9641E9DA, 0xB1F9F660802DEDF6),  // 1e278
    (0xE1A63853BBD26451, 0x5E7873F8A0396973),  // 1e279
    (0x8D07E33455637EB2, 0xDB0B487B6423E1E8),  // 1e280
    (0xB049DC016ABC5E5F, 0x91CE1A9A3D2CDA62),  // 1e281
    (0xDC5C5301C56B75F7, 0x7641A140CC7810FB),  // 1e282
    (0x89B9B3E11B6329BA, 0xA9E904C87FCB0A9D),  // 1e283
    (0xAC2820D9623BF429, 0x546345FA9FBDCD44),  // 1e284
    (0xD732290FBACAF133, 0xA97C177947AD4095),  // 1e285
    (0x867F59A9D4BED6C0, 0x49ED8EABCCCC485D),  // 1e286
    (0xA81F301449EE8C70, 0x5C68F256BFFF5A74),  // 1e287
    (0xD226FC195C6A2F8C, 0x73832EEC6FFF3111),  // 1e288
    (0x83585D8FD9C25DB7, 0xC831FD53C5FF7EAB),  // 1e289
    (0xA42E74F3D032F525, 0xBA3E7CA8B77F5E55),  // 1e290
    (0xCD3A1230C43FB26F, 0x28CE1BD2E55F35EB),  // 1e291
    (0x80444B5E7AA7CF85, 0x7980D163CF5B81B3),  // 1e292
    (0xA0555E361951C366, 0xD7E105BCC332621F),  // 1e293
    (0xC86AB5C39FA63440, 0x8DD9472BF3FEFAA7),  // 1e294
    (0xFA856334878FC150, 0xB14F98F6F0FEB951),  // 1e295
    (0x9C935E00D4B9D8D2, 0x6ED1BF9A569F33D3),  // 1e296
    (0xC3B8358109E84F07, 0x0A862F80EC4700C8),  // 1e297
    (0xF4A642E14C6262C8, 0xCD27BB612758C0FA),  // 1e298
    (0x98E7E9CCCFBD7DBD, 0x8038D51CB897789C),  // 1e299
    (0xBF21E44003ACDD2C, 0xE0470A63E6BD56C3),  // 1e300
    (0xEEEA5D5004981478, 0x1858CCFCE06CAC74),  // 1e301
    (0x95527A5202DF0CCB, 0x0F37801E0C43EBC8),  // 1e302
    (0xBAA718E68396CFFD, 0xD30560258F54E6BA),  // 1e303
    (0xE950DF20247C83FD, 0x47C6B82EF32A2069),  // 1e304
    (0x91D28B7416CDD27E, 0x4CDC331D57FA5441),  // 1e305
    (0xB6472E511C81471D, 0xE0133FE4ADF8E952),  // 1e306
    (0xE3D8F9E563A198E5, 0x58180FDDD97723A6),  // 1e307
    (0x8E679C2F5E44FF8F, 0x570F09EAA7EA7648),  // 1e308
];

/// The entry of [`POWERS_OF_10`] for the decimal exponent `exponent`: the
/// table, written out as a function of the exponent.
#[verifier::opaque]
pub open spec fn power_of_10(exponent: int) -> (u64, u64)
    recommends
        MIN_DENORMAL_EXP10 <= exponent <= MAX_NORMAL_EXP10,
{
    if exponent <= -17 {
        if exponent <= -180 {
            if exponent <= -261 {
                if exponent <= -302 {
                    if exponent <= -322 {
                        if exponent <= -332 {
                            if exponent <= -337 {
                                if exponent <= -340 {
                                    if exponent <= -341 {
                                        if exponent <= -342 {
                                            (0xEEF453D6923BD65A, 0x113FAA2906A13B3F)
                                        } else {
                                            (0x9558B4661B6565F8, 0x4AC7CA59A424C507)
                                        }
                                    } else {
                                        (0xBAAEE17FA23EBF76, 0x5D79BCF00D2DF649)
                                    }
                                } else {
                                    if exponent <= -338 {
                                        if exponent <= -339 {
                                            (0xE95A99DF8ACE6F53, 0xF4D82C2C107973DC)
                                        } else {
                                            (0x91D8A02BB6C10594, 0x79071B9B8A4BE869)
                                        }
                                    } else {
                                        (0xB64EC836A47146F9, 0x9748E2826CDEE284)
                                    }
                                }
                            } else {
                                if exponent <= -334 {
                                    if exponent <= -335 {
                                        if exponent <= -336 {
                                            (0xE3E27A444D8D98B7, 0xFD1B1B2308169B25)
                                        } else {
                                            (0x8E6D8C6AB0787F72, 0xFE30F0F5E50E20F7)
                                        }
                                    } else {
                                        (0xB208EF855C969F4F, 0xBDBD2D335E51A935)
                                    }
                                } else {
                                    if exponent <= -333 {
                                        (0xDE8B2B66B3BC4723, 0xAD2C788035E61382)
                                    } else {
                                        (0x8B16FB203055AC76, 0x4C3BCB5021AFCC31)
                                    }
                                }
                            }
                        } else {
                            if exponent <= -327 {
                                if exponent <= -329 {
                                    if exponent <= -330 {
                                        if exponent <= -331 {
                                            (0xADDCB9E83C6B1793, 0xDF4ABE242A1BBF3D)
                                        } else {
                                            (0xD953E8624B85DD78, 0xD71D6DAD34A2AF0D)
                                        }
                                    } else {
                                        (0x87D4713D6F33AA6B, 0x8672648C40E5AD68)
                                    }
                                } else {
                                    if exponent <= -328 {
                                        (0xA9C98D8CCB009506, 0x680EFDAF511F18C2)
                                    } else {
                                        (0xD43BF0EFFDC0BA48, 0x0212BD1B2566DEF2)
                                    }
                                }
                            } else {
                                if exponent <= -324 {
                                    if exponent <= -325 {
                                        if exponent <= -326 {
                                            (0x84A57695FE98746D, 0x014BB630F7604B57)
                                        } else {
                                            (0xA5CED43B7E3E9188, 0x419EA3BD35385E2D)
                                        }
                                    } else {
                                        (0xCF42894A5DCE35EA, 0x52064CAC828675B9)
                                    }
                                } else {
                                    if exponent <= -323 {
                                        (0x818995CE7AA0E1B2, 0x7343EFEBD1940993)
                                    } else {
                                        (0xA1EBFB4219491A1F, 0x1014EBE6C5F90BF8)
                                    }
                                }
                            }
                        }
                    } else {
                        if exponent <= -312 {
                            if exponent <= -317 {
                                if exponent <= -319 {
                                    if exponent <= -320 {
                                        if exponent <= -321 {
                                            (0xCA66FA129F9B60A6, 0xD41A26E077774EF6)
                                        } else {
                                            (0xFD00B897478238D0, 0x8920B098955522B4)
                                        }
                                    } else {
                                        (0x9E20735E8CB16382, 0x55B46E5F5D5535B0)
                                    }
                                } else {
                                    if exponent <= -318 {
                                        (0xC5A890362FDDBC62, 0xEB2189F734AA831D)
                                    } else {
                                        (0xF712B443BBD52B7B, 0xA5E9EC7501D523E4)
                                    }
                                }
                            } else {
                                if exponent <= -314 {
                                    if exponent <= -315 {
                                        if exponent <= -316 {
                                            (0x9A6BB0AA55653B2D, 0x47B233C92125366E)
                                        } else {
                                            (0xC1069CD4EABE89F8, 0x999EC0BB696E840A)
                                        }
                                    } else {
                                        (0xF148440A256E2C76, 0xC00670EA43CA250D)
                                    }
                                } else {
                                    if exponent <= -313 {
                                        (0x96CD2A865764DBCA, 0x380406926A5E5728)
                                    } else {
                                        (0xBC807527ED3E12BC, 0xC605083704F5ECF2)
                                    }
                                }
                            }
                        } else {
                            if exponent <= -307 {
                                if exponent <= -309 {
                                    if exponent <= -310 {
                                        if exponent <= -311 {
                                            (0xEBA09271E88D976B, 0xF7864A44C633682E)
                                        } else {
                                            (0x93445B8731587EA3, 0x7AB3EE6AFBE0211D)
                                        }
                                    } else {
                                        (0xB8157268FDAE9E4C, 0x5960EA05BAD82964)
                                    }
                                } else {
                                    if exponent <= -308 {
                                        (0xE61ACF033D1A45DF, 0x6FB92487298E33BD)
                                    } else {
                                        (0x8FD0C16206306BAB, 0xA5D3B6D479F8E056)
                                    }
                                }
                            } else {
                                if exponent <= -304 {
                                    if exponent <= -305 {
                                        if exponent <= -306 {
                                            (0xB3C4F1BA87BC8696, 0x8F48A4899877186C)
                                        } else {
                                            (0xE0B62E2929ABA83C, 0x331ACDABFE94DE87)
                                        }
                                    } else {
                                        (0x8C71DCD9BA0B4925, 0x9FF0C08B7F1D0B14)
                                    }
                                } else {
                                    if exponent <= -303 {
                                        (0xAF8E5410288E1B6F, 0x07ECF0AE5EE44DD9)
                                    } else {
                                        (0xDB71E91432B1A24A, 0xC9E82CD9F69D6150)
                                    }
                                }
                            }
                        }
                    }
                } else {
                    if exponent <= -281 {
                        if exponent <= -291 {
                            if exponent <= -296 {
                                if exponent <= -299 {
                                    if exponent <= -300 {
                                        if exponent <= -301 {
                                            (0x892731AC9FAF056E, 0xBE311C083A225CD2)
                                        } else {
                                            (0xAB70FE17C79AC6CA, 0x6DBD630A48AAF406)
                                        }
                                    } else {
                                        (0xD64D3D9DB981787D, 0x092CBBCCDAD5B108)
                                    }
                                } else {
                                    if exponent <= -297 {
                                        if exponent <= -298 {
                                            (0x85F0468293F0EB4E, 0x25BBF56008C58EA5)
                                        } else {
                                            (0xA76C582338ED2621, 0xAF2AF2B80AF6F24E)
                                        }
                                    } else {
                                        (0xD1476E2C07286FAA, 0x1AF5AF660DB4AEE1)
                                    }
                                }
                            } else {
                                if exponent <= -293 {
                                    if exponent <= -294 {
                                        if exponent <= -295 {
                                            (0x82CCA4DB847945CA, 0x50D98D9FC890ED4D)
                                        } else {
                                            (0xA37FCE126597973C, 0xE50FF107BAB528A0)
                                        }
                                    } else {
                                        (0xCC5FC196FEFD7D0C, 0x1E53ED49A96272C8)
                                    }
                                } else {
                                    if exponent <= -292 {
                                        (0xFF77B1FCBEBCDC4F, 0x25E8E89C13BB0F7A)
                                    } else {
                                        (0x9FAACF3DF73609B1, 0x77B191618C54E9AC)
                                    }
                                }
                            }
                        } else {
                            if exponent <= -286 {
                                if exponent <= -288 {
                                    if exponent <= -289 {
                                        if exponent <= -290 {
                                            (0xC795830D75038C1D, 0xD59DF5B9EF6A2417)
                                        } else {
                                            (0xF97AE3D0D2446F25, 0x4B0573286B44AD1D)
                                        }
                                    } else {
                                        (0x9BECCE62836AC577, 0x4EE367F9430AEC32)
                                    }
                                } else {
                                    if exponent <= -287 {
                                        (0xC2E801FB244576D5, 0x229C41F793CDA73F)
                                    } else {
                                        (0xF3A20279ED56D48A, 0x6B43527578C1110F)
                                    }
                                }
                            } else {
                                if exponent <= -283 {
                                    if exponent <= -284 {
                                        if exponent <= -285 {
                                            (0x9845418C345644D6, 0x830A13896B78AAA9)
                                        } else {
                                            (0xBE5691EF416BD60C, 0x23CC986BC656D553)
                                        }
                                    } else {
                                        (0xEDEC366B11C6CB8F, 0x2CBFBE86B7EC8AA8)
                                    }
                                } else {
                                    if exponent <= -282 {
                                        (0x94B3A202EB1C3F39, 0x7BF7D71432F3D6A9)
                                    } else {
                                        (0xB9E08A83A5E34F07, 0xDAF5CCD93FB0CC53)
                                    }
                                }
                            }
                        }
                    } else {
                        if exponent <= -271 {
                            if exponent <= -276 {
                                if exponent <= -278 {
                                    if exponent <= -279 {
                                        if exponent <= -280 {
                                            (0xE858AD248F5C22C9, 0xD1B3400F8F9CFF68)
                                        } else {
                                            (0x91376C36D99995BE, 0x23100809B9C21FA1)
                                        }
                                    } else {
                                        (0xB58547448FFFFB2D, 0xABD40A0C2832A78A)
                                    }
                                } else {
                                    if exponent <= -277 {
                                        (0xE2E69915B3FFF9F9, 0x16C90C8F323F516C)
                                    } else {
                                        (0x8DD01FAD907FFC3B, 0xAE3DA7D97F6792E3)
                                    }
                                }
                            } else {
                                if exponent <= -273 {
                                    if exponent <= -274 {
                                        if exponent <= -275 {
                                            (0xB1442798F49FFB4A, 0x99CD11CFDF41779C)
                                        } else {
                                            (0xDD95317F31C7FA1D, 0x40405643D711D583)
                                        }
                                    } else {
                                        (0x8A7D3EEF7F1CFC52, 0x482835EA666B2572)
                                    }
                                } else {
                                    if exponent <= -272 {
                                        (0xAD1C8EAB5EE43B66, 0xDA3243650005EECF)
                                    } else {
                                        (0xD863B256369D4A40, 0x90BED43E40076A82)
                                    }
                                }
                            }
                        } else {
                            if exponent <= -266 {
                                if exponent <= -268 {
                                    if exponent <= -269 {
                                        if exponent <= -270 {
                                            (0x873E4F75E2224E68, 0x5A7744A6E804A291)
                                        } else {
                                            (0xA90DE3535AAAE202, 0x711515D0A205CB36)
                                        }
                                    } else {
                                        (0xD3515C2831559A83, 0x0D5A5B44CA873E03)
                                    }
                                } else {
                                    if exponent <= -267 {
                                        (0x8412D9991ED58091, 0xE858790AFE9486C2)
                                    } else {
                                        (0xA5178FFF668AE0B6, 0x626E974DBE39A872)
                                    }
                                }
                            } else {
                                if exponent <= -263 {
                                    if exponent <= -264 {
                                        if exponent <= -265 {
                                            (0xCE5D73FF402D98E3, 0xFB0A3D212DC8128F)
                                        } else {
                                            (0x80FA687F881C7F8E, 0x7CE66634BC9D0B99)
                                        }
                                    } else {
                                        (0xA139029F6A239F72, 0x1C1FFFC1EBC44E80)
                                    }
                                } else {
                                    if exponent <= -262 {
                                        (0xC987434744AC874E, 0xA327FFB266B56220)
                                    } else {
                                        (0xFBE9141915D7A922, 0x4BF1FF9F0062BAA8)
                                    }
                                }
                            }
                        }
                    }
                }
            } else {
                if exponent <= -220 {
                    if exponent <= -240 {
                        if exponent <= -250 {
                            if exponent <= -255 {
                                if exponent <= -258 {
                                    if exponent <= -259 {
                                        if exponent <= -260 {
                                            (0x9D71AC8FADA6C9B5, 0x6F773FC3603DB4A9)
                                        } else {
                                            (0xC4CE17B399107C22, 0xCB550FB4384D21D3)
                                        }
                                    } else {
                                        (0xF6019DA07F549B2B, 0x7E2A53A146606A48)
                                    }
                                } else {
                                    if exponent <= -256 {
                                        if exponent <= -257 {
                                            (0x99C102844F94E0FB, 0x2EDA7444CBFC426D)
                                        } else {
                                            (0xC0314325637A1939, 0xFA911155FEFB5308)
                                        }
                                    } else {
                                        (0xF03D93EEBC589F88, 0x793555AB7EBA27CA)
                                    }
                                }
                            } else {
                                if exponent <= -252 {
                                    if exponent <= -253 {
                                        if exponent <= -254 {
                                            (0x96267C7535B763B5, 0x4BC1558B2F3458DE)
                                        } else {
                                            (0xBBB01B9283253CA2, 0x9EB1AAEDFB016F16)
                                        }
                                    } else {
                                        (0xEA9C227723EE8BCB, 0x465E15A979C1CADC)
                                    }
                                } else {
                                    if exponent <= -251 {
                                        (0x92A1958A7675175F, 0x0BFACD89EC191EC9)
                                    } else {
                                        (0xB749FAED14125D36, 0xCEF980EC671F667B)
                                    }
                                }
                            }
                        } else {
                            if exponent <= -245 {
                                if exponent <= -247 {
                                    if exponent <= -248 {
                                        if exponent <= -249 {
                                            (0xE51C79A85916F484, 0x82B7E12780E7401A)
                                        } else {
                                            (0x8F31CC0937AE58D2, 0xD1B2ECB8B0908810)
                                        }
                                    } else {
                                        (0xB2FE3F0B8599EF07, 0x861FA7E6DCB4AA15)
                                    }
                                } else {
                                    if exponent <= -246 {
                                        (0xDFBDCECE67006AC9, 0x67A791E093E1D49A)
                                    } else {
                                        (0x8BD6A141006042BD, 0xE0C8BB2C5C6D24E0)
                                    }
                                }
                            } else {
                                if exponent <= -242 {
                                    if exponent <= -243 {
                                        if exponent <= -244 {
                                            (0xAECC49914078536D, 0x58FAE9F773886E18)
                                        } else {
                                            (0xDA7F5BF590966848, 0xAF39A475506A899E)
                                        }
                                    } else {
                                        (0x888F99797A5E012D, 0x6D8406C952429603)
                                    }
                                } else {
                                    if exponent <= -241 {
                                        (0xAAB37FD7D8F58178, 0xC8E5087BA6D33B83)
                                    } else {
                                        (0xD5605FCDCF32E1D6, 0xFB1E4A9A90880A64)
                                    }
                                }
                            }
                        }
                    } else {
                        if exponent <= -230 {
                            if exponent <= -235 {
                                if exponent <= -237 {
                                    if exponent <= -238 {
                                        if exponent <= -239 {
                                            (0x855C3BE0A17FCD26, 0x5CF2EEA09A55067F)
                                        } else {
                                            (0xA6B34AD8C9DFC06F, 0xF42FAA48C0EA481E)
                                        }
                                    } else {
                                        (0xD0601D8EFC57B08B, 0xF13B94DAF124DA26)
                                    }
                                } else {
                                    if exponent <= -236 {
                                        (0x823C12795DB6CE57, 0x76C53D08D6B70858)
                                    } else {
                                        (0xA2CB1717B52481ED, 0x54768C4B0C64CA6E)
                                    }
                                }
                            } else {
                                if exponent <= -232 {
                                    if exponent <= -233 {
                                        if exponent <= -234 {
                                            (0xCB7DDCDDA26DA268, 0xA9942F5DCF7DFD09)
                                        } else {
                                            (0xFE5D54150B090B02, 0xD3F93B35435D7C4C)
                                        }
                                    } else {
                                        (0x9EFA548D26E5A6E1, 0xC47BC5014A1A6DAF)
                                    }
                                } else {
                                    if exponent <= -231 {
                                        (0xC6B8E9B0709F109A, 0x359AB6419CA1091B)
                                    } else {
                                        (0xF867241C8CC6D4C0, 0xC30163D203C94B62)
                                    }
                                }
                            }
                        } else {
                            if exponent <= -225 {
                                if exponent <= -227 {
                                    if exponent <= -228 {
                                        if exponent <= -229 {
                                            (0x9B407691D7FC44F8, 0x79E0DE63425DCF1D)
                                        } else {
                                            (0xC21094364DFB5636, 0x985915FC12F542E4)
                                        }
                                    } else {
                                        (0xF294B943E17A2BC4, 0x3E6F5B7B17B2939D)
                                    }
                                } else {
                                    if exponent <= -226 {
                                        (0x979CF3CA6CEC5B5A, 0xA705992CEECF9C42)
                                    } else {
                                        (0xBD8430BD08277231, 0x50C6FF782A838353)
                                    }
                                }
                            } else {
                                if exponent <= -222 {
                                    if exponent <= -223 {
                                        if exponent <= -224 {
                                            (0xECE53CEC4A314EBD, 0xA4F8BF5635246428)
                                        } else {
                                            (0x940F4613AE5ED136, 0x871B7795E136BE99)
                                        }
                                    } else {
                                        (0xB913179899F68584, 0x28E2557B59846E3F)
                                    }
                                } else {
                                    if exponent <= -221 {
                                        (0xE757DD7EC07426E5, 0x331AEADA2FE589CF)
                                    } else {
                                        (0x9096EA6F3848984F, 0x3FF0D2C85DEF7621)
                                    }
                                }
                            }
                        }
                    }
                } else {
                    if exponent <= -200 {
                        if exponent <= -210 {
                            if exponent <= -215 {
                                if exponent <= -217 {
                                    if exponent <= -218 {
                                        if exponent <= -219 {
                                            (0xB4BCA50B065ABE63, 0x0FED077A756B53A9)
                                        } else {
                                            (0xE1EBCE4DC7F16DFB, 0xD3E8495912C62894)
                                        }
                                    } else {
                                        (0x8D3360F09CF6E4BD, 0x64712DD7ABBBD95C)
                                    }
                                } else {
                                    if exponent <= -216 {
                                        (0xB080392CC4349DEC, 0xBD8D794D96AACFB3)
                                    } else {
                                        (0xDCA04777F541C567, 0xECF0D7A0FC5583A0)
                                    }
                                }
                            } else {
                                if exponent <= -212 {
                                    if exponent <= -213 {
                                        if exponent <= -214 {
                                            (0x89E42CAAF9491B60, 0xF41686C49DB57244)
                                        } else {
                                            (0xAC5D37D5B79B6239, 0x311C2875C522CED5)
                                        }
                                    } else {
                                        (0xD77485CB25823AC7, 0x7D633293366B828B)
                                    }
                                } else {
                                    if exponent <= -211 {
                                        (0x86A8D39EF77164BC, 0xAE5DFF9C02033197)
                                    } else {
                                        (0xA8530886B54DBDEB, 0xD9F57F830283FDFC)
                                    }
                                }
                            }
                        } else {
                            if exponent <= -205 {
                                if exponent <= -207 {
                                    if exponent <= -208 {
                                        if exponent <= -209 {
                                            (0xD267CAA862A12D66, 0xD072DF63C324FD7B)
                                        } else {
                                            (0x8380DEA93DA4BC60, 0x4247CB9E59F71E6D)
                                        }
                                    } else {
                                        (0xA46116538D0DEB78, 0x52D9BE85F074E608)
                                    }
                                } else {
                                    if exponent <= -206 {
                                        (0xCD795BE870516656, 0x67902E276C921F8B)
                                    } else {
                                        (0x806BD9714632DFF6, 0x00BA1CD8A3DB53B6)
                                    }
                                }
                            } else {
                                if exponent <= -202 {
                                    if exponent <= -203 {
                                        if exponent <= -204 {
                                            (0xA086CFCD97BF97F3, 0x80E8A40ECCD228A4)
                                        } else {
                                            (0xC8A883C0FDAF7DF0, 0x6122CD128006B2CD)
                                        }
                                    } else {
                                        (0xFAD2A4B13D1B5D6C, 0x796B805720085F81)
                                    }
                                } else {
                                    if exponent <= -201 {
                                        (0x9CC3A6EEC6311A63, 0xCBE3303674053BB0)
                                    } else {
                                        (0xC3F490AA77BD60FC, 0xBEDBFC4411068A9C)
                                    }
                                }
                            }
                        }
                    } else {
                        if exponent <= -190 {
                            if exponent <= -195 {
                                if exponent <= -197 {
                                    if exponent <= -198 {
                                        if exponent <= -199 {
                                            (0xF4F1B4D515ACB93B, 0xEE92FB5515482D44)
                                        } else {
                                            (0x991711052D8BF3C5, 0x751BDD152D4D1C4A)
                                        }
                                    } else {
                                        (0xBF5CD54678EEF0B6, 0xD262D45A78A0635D)
                                    }
                                } else {
                                    if exponent <= -196 {
                                        (0xEF340A98172AACE4, 0x86FB897116C87C34)
                                    } else {
                                        (0x9580869F0E7AAC0E, 0xD45D35E6AE3D4DA0)
                                    }
                                }
                            } else {
                                if exponent <= -192 {
                                    if exponent <= -193 {
                                        if exponent <= -194 {
                                            (0xBAE0A846D2195712, 0x8974836059CCA109)
                                        } else {
                                            (0xE998D258869FACD7, 0x2BD1A438703FC94B)
                                        }
                                    } else {
                                        (0x91FF83775423CC06, 0x7B6306A34627DDCF)
                                    }
                                } else {
                                    if exponent <= -191 {
                                        (0xB67F6455292CBF08, 0x1A3BC84C17B1D542)
                                    } else {
                                        (0xE41F3D6A7377EECA, 0x20CABA5F1D9E4A93)
                                    }
                                }
                            }
                        } else {
                            if exponent <= -185 {
                                if exponent <= -187 {
                                    if exponent <= -188 {
                                        if exponent <= -189 {
                                            (0x8E938662882AF53E, 0x547EB47B7282EE9C)
                                        } else {
                                            (0xB23867FB2A35B28D, 0xE99E619A4F23AA43)
                                        }
                                    } else {
                                        (0xDEC681F9F4C31F31, 0x6405FA00E2EC94D4)
                                    }
                                } else {
                                    if exponent <= -186 {
                                        (0x8B3C113C38F9F37E, 0xDE83BC408DD3DD04)
                                    } else {
                                        (0xAE0B158B4738705E, 0x9624AB50B148D445)
                                    }
                                }
                            } else {
                                if exponent <= -182 {
                                    if exponent <= -183 {
                                        if exponent <= -184 {
                                            (0xD98DDAEE19068C76, 0x3BADD624DD9B0957)
                                        } else {
                                            (0x87F8A8D4CFA417C9, 0xE54CA5D70A80E5D6)
                                        }
                                    } else {
                                        (0xA9F6D30A038D1DBC, 0x5E9FCF4CCD211F4C)
                                    }
                                } else {
                                    if exponent <= -181 {
                                        (0xD47487CC8470652B, 0x7647C3200069671F)
                                    } else {
                                        (0x84C8D4DFD2C63F3B, 0x29ECD9F40041E073)
                                    }
                                }
                            }
                        }
                    }
                }
            }
        } else {
            if exponent <= -98 {
                if exponent <= -139 {
                    if exponent <= -159 {
                        if exponent <= -169 {
                            if exponent <= -174 {
                                if exponent <= -177 {
                                    if exponent <= -178 {
                                        if exponent <= -179 {
                                            (0xA5FB0A17C777CF09, 0xF468107100525890)
                                        } else {
                                            (0xCF79CC9DB955C2CC, 0x7182148D4066EEB4)
                                        }
                                    } else {
                                        (0x81AC1FE293D599BF, 0xC6F14CD848405530)
                                    }
                                } else {
                                    if exponent <= -175 {
                                        if exponent <= -176 {
                                            (0xA21727DB38CB002F, 0xB8ADA00E5A506A7C)
                                        } else {
                                            (0xCA9CF1D206FDC03B, 0xA6D90811F0E4851C)
                                        }
                                    } else {
                                        (0xFD442E4688BD304A, 0x908F4A166D1DA663)
                                    }
                                }
                            } else {
                                if exponent <= -171 {
                                    if exponent <= -172 {
                                        if exponent <= -173 {
                                            (0x9E4A9CEC15763E2E, 0x9A598E4E043287FE)
                                        } else {
                                            (0xC5DD44271AD3CDBA, 0x40EFF1E1853F29FD)
                                        }
                                    } else {
                                        (0xF7549530E188C128, 0xD12BEE59E68EF47C)
                                    }
                                } else {
                                    if exponent <= -170 {
                                        (0x9A94DD3E8CF578B9, 0x82BB74F8301958CE)
                                    } else {
                                        (0xC13A148E3032D6E7, 0xE36A52363C1FAF01)
                                    }
                                }
                            }
                        } else {
                            if exponent <= -164 {
                                if exponent <= -166 {
                                    if exponent <= -167 {
                                        if exponent <= -168 {
                                            (0xF18899B1BC3F8CA1, 0xDC44E6C3CB279AC1)
                                        } else {
                                            (0x96F5600F15A7B7E5, 0x29AB103A5EF8C0B9)
                                        }
                                    } else {
                                        (0xBCB2B812DB11A5DE, 0x7415D448F6B6F0E7)
                                    }
                                } else {
                                    if exponent <= -165 {
                                        (0xEBDF661791D60F56, 0x111B495B3464AD21)
                                    } else {
                                        (0x936B9FCEBB25C995, 0xCAB10DD900BEEC34)
                                    }
                                }
                            } else {
                                if exponent <= -161 {
                                    if exponent <= -162 {
                                        if exponent <= -163 {
                                            (0xB84687C269EF3BFB, 0x3D5D514F40EEA742)
                                        } else {
                                            (0xE65829B3046B0AFA, 0x0CB4A5A3112A5112)
                                        }
                                    } else {
                                        (0x8FF71A0FE2C2E6DC, 0x47F0E785EABA72AB)
                                    }
                                } else {
                                    if exponent <= -160 {
                                        (0xB3F4E093DB73A093, 0x59ED216765690F56)
                                    } else {
                                        (0xE0F218B8D25088B8, 0x306869C13EC3532C)
                                    }
                                }
                            }
                        }
                    } else {
                        if exponent <= -149 {
                            if exponent <= -154 {
                                if exponent <= -156 {
                                    if exponent <= -157 {
                                        if exponent <= -158 {
                                            (0x8C974F7383725573, 0x1E414218C73A13FB)
                                        } else {
                                            (0xAFBD2350644EEACF, 0xE5D1929EF90898FA)
                                        }
                                    } else {
                                        (0xDBAC6C247D62A583, 0xDF45F746B74ABF39)
                                    }
                                } else {
                                    if exponent <= -155 {
                                        (0x894BC396CE5DA772, 0x6B8BBA8C328EB783)
                                    } else {
                                        (0xAB9EB47C81F5114F, 0x066EA92F3F326564)
                                    }
                                }
                            } else {
                                if exponent <= -151 {
                                    if exponent <= -152 {
                                        if exponent <= -153 {
                                            (0xD686619BA27255A2, 0xC80A537B0EFEFEBD)
                                        } else {
                                            (0x8613FD0145877585, 0xBD06742CE95F5F36)
                                        }
                                    } else {
                                        (0xA798FC4196E952E7, 0x2C48113823B73704)
                                    }
                                } else {
                                    if exponent <= -150 {
                                        (0xD17F3B51FCA3A7A0, 0xF75A15862CA504C5)
                                    } else {
                                        (0x82EF85133DE648C4, 0x9A984D73DBE722FB)
                                    }
                                }
                            }
                        } else {
                            if exponent <= -144 {
                                if exponent <= -146 {
                                    if exponent <= -147 {
                                        if exponent <= -148 {
                                            (0xA3AB66580D5FDAF5, 0xC13E60D0D2E0EBBA)
                                        } else {
                                            (0xCC963FEE10B7D1B3, 0x318DF905079926A8)
                                        }
                                    } else {
                                        (0xFFBBCFE994E5C61F, 0xFDF17746497F7052)
                                    }
                                } else {
                                    if exponent <= -145 {
                                        (0x9FD561F1FD0F9BD3, 0xFEB6EA8BEDEFA633)
                                    } else {
                                        (0xC7CABA6E7C5382C8, 0xFE64A52EE96B8FC0)
                                    }
                                }
                            } else {
                                if exponent <= -141 {
                                    if exponent <= -142 {
                                        if exponent <= -143 {
                                            (0xF9BD690A1B68637B, 0x3DFDCE7AA3C673B0)
                                        } else {
                                            (0x9C1661A651213E2D, 0x06BEA10CA65C084E)
                                        }
                                    } else {
                                        (0xC31BFA0FE5698DB8, 0x486E494FCFF30A62)
                                    }
                                } else {
                                    if exponent <= -140 {
                                        (0xF3E2F893DEC3F126, 0x5A89DBA3C3EFCCFA)
                                    } else {
                                        (0x986DDB5C6B3A76B7, 0xF89629465A75E01C)
                                    }
                                }
                            }
                        }
                    }
                } else {
                    if exponent <= -118 {
                        if exponent <= -128 {
                            if exponent <= -133 {
                                if exponent <= -136 {
                                    if exponent <= -137 {
                                        if exponent <= -138 {
                                            (0xBE89523386091465, 0xF6BBB397F1135823)
                                        } else {
                                            (0xEE2BA6C0678B597F, 0x746AA07DED582E2C)
                                        }
                                    } else {
                                        (0x94DB483840B717EF, 0xA8C2A44EB4571CDC)
                                    }
                                } else {
                                    if exponent <= -134 {
                                        if exponent <= -135 {
                                            (0xBA121A4650E4DDEB, 0x92F34D62616CE413)
                                        } else {
                                            (0xE896A0D7E51E1566, 0x77B020BAF9C81D17)
                                        }
                                    } else {
                                        (0x915E2486EF32CD60, 0x0ACE1474DC1D122E)
                                    }
                                }
                            } else {
                                if exponent <= -130 {
                                    if exponent <= -131 {
                                        if exponent <= -132 {
                                            (0xB5B5ADA8AAFF80B8, 0x0D819992132456BA)
                                        } else {
                                            (0xE3231912D5BF60E6, 0x10E1FFF697ED6C69)
                                        }
                                    } else {
                                        (0x8DF5EFABC5979C8F, 0xCA8D3FFA1EF463C1)
                                    }
                                } else {
                                    if exponent <= -129 {
                                        (0xB1736B96B6FD83B3, 0xBD308FF8A6B17CB2)
                                    } else {
                                        (0xDDD0467C64BCE4A0, 0xAC7CB3F6D05DDBDE)
                                    }
                                }
                            }
                        } else {
                            if exponent <= -123 {
                                if exponent <= -125 {
                                    if exponent <= -126 {
                                        if exponent <= -127 {
                                            (0x8AA22C0DBEF60EE4, 0x6BCDF07A423AA96B)
                                        } else {
                                            (0xAD4AB7112EB3929D, 0x86C16C98D2C953C6)
                                        }
                                    } else {
                                        (0xD89D64D57A607744, 0xE871C7BF077BA8B7)
                                    }
                                } else {
                                    if exponent <= -124 {
                                        (0x87625F056C7C4A8B, 0x11471CD764AD4972)
                                    } else {
                                        (0xA93AF6C6C79B5D2D, 0xD598E40D3DD89BCF)
                                    }
                                }
                            } else {
                                if exponent <= -120 {
                                    if exponent <= -121 {
                                        if exponent <= -122 {
                                            (0xD389B47879823479, 0x4AFF1D108D4EC2C3)
                                        } else {
                                            (0x843610CB4BF160CB, 0xCEDF722A585139BA)
                                        }
                                    } else {
                                        (0xA54394FE1EEDB8FE, 0xC2974EB4EE658828)
                                    }
                                } else {
                                    if exponent <= -119 {
                                        (0xCE947A3DA6A9273E, 0x733D226229FEEA32)
                                    } else {
                                        (0x811CCC668829B887, 0x0806357D5A3F525F)
                                    }
                                }
                            }
                        }
                    } else {
                        if exponent <= -108 {
                            if exponent <= -113 {
                                if exponent <= -115 {
                                    if exponent <= -116 {
                                        if exponent <= -117 {
                                            (0xA163FF802A3426A8, 0xCA07C2DCB0CF26F7)
                                        } else {
                                            (0xC9BCFF6034C13052, 0xFC89B393DD02F0B5)
                                        }
                                    } else {
                                        (0xFC2C3F3841F17C67, 0xBBAC2078D443ACE2)
                                    }
                                } else {
                                    if exponent <= -114 {
                                        (0x9D9BA7832936EDC0, 0xD54B944B84AA4C0D)
                                    } else {
                                        (0xC5029163F384A931, 0x0A9E795E65D4DF11)
                                    }
                                }
                            } else {
                                if exponent <= -110 {
                                    if exponent <= -111 {
                                        if exponent <= -112 {
                                            (0xF64335BCF065D37D, 0x4D4617B5FF4A16D5)
                                        } else {
                                            (0x99EA0196163FA42E, 0x504BCED1BF8E4E45)
                                        }
                                    } else {
                                        (0xC06481FB9BCF8D39, 0xE45EC2862F71E1D6)
                                    }
                                } else {
                                    if exponent <= -109 {
                                        (0xF07DA27A82C37088, 0x5D767327BB4E5A4C)
                                    } else {
                                        (0x964E858C91BA2655, 0x3A6A07F8D510F86F)
                                    }
                                }
                            }
                        } else {
                            if exponent <= -103 {
                                if exponent <= -105 {
                                    if exponent <= -106 {
                                        if exponent <= -107 {
                                            (0xBBE226EFB628AFEA, 0x890489F70A55368B)
                                        } else {
                                            (0xEADAB0ABA3B2DBE5, 0x2B45AC74CCEA842E)
                                        }
                                    } else {
                                        (0x92C8AE6B464FC96F, 0x3B0B8BC90012929D)
                                    }
                                } else {
                                    if exponent <= -104 {
                                        (0xB77ADA0617E3BBCB, 0x09CE6EBB40173744)
                                    } else {
                                        (0xE55990879DDCAABD, 0xCC420A6A101D0515)
                                    }
                                }
                            } else {
                                if exponent <= -100 {
                                    if exponent <= -101 {
                                        if exponent <= -102 {
                                            (0x8F57FA54C2A9EAB6, 0x9FA946824A12232D)
                                        } else {
                                            (0xB32DF8E9F3546564, 0x47939822DC96ABF9)
                                        }
                                    } else {
                                        (0xDFF9772470297EBD, 0x59787E2B93BC56F7)
                                    }
                                } else {
                                    if exponent <= -99 {
                                        (0x8BFBEA76C619EF36, 0x57EB4EDB3C55B65A)
                                    } else {
                                        (0xAEFAE51477A06B03, 0xEDE622920B6B23F1)
                                    }
                                }
                            }
                        }
                    }
                }
            } else {
                if exponent <= -57 {
                    if exponent <= -77 {
                        if exponent <= -87 {
                            if exponent <= -92 {
                                if exponent <= -95 {
                                    if exponent <= -96 {
                                        if exponent <= -97 {
                                            (0xDAB99E59958885C4, 0xE95FAB368E45ECED)
                                        } else {
                                            (0x88B402F7FD75539B, 0x11DBCB0218EBB414)
                                        }
                                    } else {
                                        (0xAAE103B5FCD2A881, 0xD652BDC29F26A119)
                                    }
                                } else {
                                    if exponent <= -93 {
                                        if exponent <= -94 {
                                            (0xD59944A37C0752A2, 0x4BE76D3346F0495F)
                                        } else {
                                            (0x857FCAE62D8493A5, 0x6F70A4400C562DDB)
                                        }
                                    } else {
                                        (0xA6DFBD9FB8E5B88E, 0xCB4CCD500F6BB952)
                                    }
                                }
                            } else {
                                if exponent <= -89 {
                                    if exponent <= -90 {
                                        if exponent <= -91 {
                                            (0xD097AD07A71F26B2, 0x7E2000A41346A7A7)
                                        } else {
                                            (0x825ECC24C873782F, 0x8ED400668C0C28C8)
                                        }
                                    } else {
                                        (0xA2F67F2DFA90563B, 0x728900802F0F32FA)
                                    }
                                } else {
                                    if exponent <= -88 {
                                        (0xCBB41EF979346BCA, 0x4F2B40A03AD2FFB9)
                                    } else {
                                        (0xFEA126B7D78186BC, 0xE2F610C84987BFA8)
                                    }
                                }
                            }
                        } else {
                            if exponent <= -82 {
                                if exponent <= -84 {
                                    if exponent <= -85 {
                                        if exponent <= -86 {
                                            (0x9F24B832E6B0F436, 0x0DD9CA7D2DF4D7C9)
                                        } else {
                                            (0xC6EDE63FA05D3143, 0x91503D1C79720DBB)
                                        }
                                    } else {
                                        (0xF8A95FCF88747D94, 0x75A44C6397CE912A)
                                    }
                                } else {
                                    if exponent <= -83 {
                                        (0x9B69DBE1B548CE7C, 0xC986AFBE3EE11ABA)
                                    } else {
                                        (0xC24452DA229B021B, 0xFBE85BADCE996168)
                                    }
                                }
                            } else {
                                if exponent <= -79 {
                                    if exponent <= -80 {
                                        if exponent <= -81 {
                                            (0xF2D56790AB41C2A2, 0xFAE27299423FB9C3)
                                        } else {
                                            (0x97C560BA6B0919A5, 0xDCCD879FC967D41A)
                                        }
                                    } else {
                                        (0xBDB6B8E905CB600F, 0x5400E987BBC1C920)
                                    }
                                } else {
                                    if exponent <= -78 {
                                        (0xED246723473E3813, 0x290123E9AAB23B68)
                                    } else {
                                        (0x9436C0760C86E30B, 0xF9A0B6720AAF6521)
                                    }
                                }
                            }
                        }
                    } else {
                        if exponent <= -67 {
                            if exponent <= -72 {
                                if exponent <= -74 {
                                    if exponent <= -75 {
                                        if exponent <= -76 {
                                            (0xB94470938FA89BCE, 0xF808E40E8D5B3E69)
                                        } else {
                                            (0xE7958CB87392C2C2, 0xB60B1D1230B20E04)
                                        }
                                    } else {
                                        (0x90BD77F3483BB9B9, 0xB1C6F22B5E6F48C2)
                                    }
                                } else {
                                    if exponent <= -73 {
                                        (0xB4ECD5F01A4AA828, 0x1E38AEB6360B1AF3)
                                    } else {
                                        (0xE2280B6C20DD5232, 0x25C6DA63C38DE1B0)
                                    }
                                }
                            } else {
                                if exponent <= -69 {
                                    if exponent <= -70 {
                                        if exponent <= -71 {
                                            (0x8D590723948A535F, 0x579C487E5A38AD0E)
                                        } else {
                                            (0xB0AF48EC79ACE837, 0x2D835A9DF0C6D851)
                                        }
                                    } else {
                                        (0xDCDB1B2798182244, 0xF8E431456CF88E65)
                                    }
                                } else {
                                    if exponent <= -68 {
                                        (0x8A08F0F8BF0F156B, 0x1B8E9ECB641B58FF)
                                    } else {
                                        (0xAC8B2D36EED2DAC5, 0xE272467E3D222F3F)
                                    }
                                }
                            }
                        } else {
                            if exponent <= -62 {
                                if exponent <= -64 {
                                    if exponent <= -65 {
                                        if exponent <= -66 {
                                            (0xD7ADF884AA879177, 0x5B0ED81DCC6ABB0F)
                                        } else {
                                            (0x86CCBB52EA94BAEA, 0x98E947129FC2B4E9)
                                        }
                                    } else {
                                        (0xA87FEA27A539E9A5, 0x3F2398D747B36224)
                                    }
                                } else {
                                    if exponent <= -63 {
                                        (0xD29FE4B18E88640E, 0x8EEC7F0D19A03AAD)
                                    } else {
                                        (0x83A3EEEEF9153E89, 0x1953CF68300424AC)
                                    }
                                }
                            } else {
                                if exponent <= -59 {
                                    if exponent <= -60 {
                                        if exponent <= -61 {
                                            (0xA48CEAAAB75A8E2B, 0x5FA8C3423C052DD7)
                                        } else {
                                            (0xCDB02555653131B6, 0x3792F412CB06794D)
                                        }
                                    } else {
                                        (0x808E17555F3EBF11, 0xE2BBD88BBEE40BD0)
                                    }
                                } else {
                                    if exponent <= -58 {
                                        (0xA0B19D2AB70E6ED6, 0x5B6ACEAEAE9D0EC4)
                                    } else {
                                        (0xC8DE047564D20A8B, 0xF245825A5A445275)
                                    }
                                }
                            }
                        }
                    }
                } else {
                    if exponent <= -37 {
                        if exponent <= -47 {
                            if exponent <= -52 {
                                if exponent <= -54 {
                                    if exponent <= -55 {
                                        if exponent <= -56 {
                                            (0xFB158592BE068D2E, 0xEED6E2F0F0D56712)
                                        } else {
                                            (0x9CED737BB6C4183D, 0x55464DD69685606B)
                                        }
                                    } else {
                                        (0xC428D05AA4751E4C, 0xAA97E14C3C26B886)
                                    }
                                } else {
                                    if exponent <= -53 {
                                        (0xF53304714D9265DF, 0xD53DD99F4B3066A8)
                                    } else {
                                        (0x993FE2C6D07B7FAB, 0xE546A8038EFE4029)
                                    }
                                }
                            } else {
                                if exponent <= -49 {
                                    if exponent <= -50 {
                                        if exponent <= -51 {
                                            (0xBF8FDB78849A5F96, 0xDE98520472BDD033)
                                        } else {
                                            (0xEF73D256A5C0F77C, 0x963E66858F6D4440)
                                        }
                                    } else {
                                        (0x95A8637627989AAD, 0xDDE7001379A44AA8)
                                    }
                                } else {
                                    if exponent <= -48 {
                                        (0xBB127C53B17EC159, 0x5560C018580D5D52)
                                    } else {
                                        (0xE9D71B689DDE71AF, 0xAAB8F01E6E10B4A6)
                                    }
                                }
                            }
                        } else {
                            if exponent <= -42 {
                                if exponent <= -44 {
                                    if exponent <= -45 {
                                        if exponent <= -46 {
                                            (0x9226712162AB070D, 0xCAB3961304CA70E8)
                                        } else {
                                            (0xB6B00D69BB55C8D1, 0x3D607B97C5FD0D22)
                                        }
                                    } else {
                                        (0xE45C10C42A2B3B05, 0x8CB89A7DB77C506A)
                                    }
                                } else {
                                    if exponent <= -43 {
                                        (0x8EB98A7A9A5B04E3, 0x77F3608E92ADB242)
                                    } else {
                                        (0xB267ED1940F1C61C, 0x55F038B237591ED3)
                                    }
                                }
                            } else {
                                if exponent <= -39 {
                                    if exponent <= -40 {
                                        if exponent <= -41 {
                                            (0xDF01E85F912E37A3, 0x6B6C46DEC52F6688)
                                        } else {
                                            (0x8B61313BBABCE2C6, 0x2323AC4B3B3DA015)
                                        }
                                    } else {
                                        (0xAE397D8AA96C1B77, 0xABEC975E0A0D081A)
                                    }
                                } else {
                                    if exponent <= -38 {
                                        (0xD9C7DCED53C72255, 0x96E7BD358C904A21)
                                    } else {
                                        (0x881CEA14545C7575, 0x7E50D64177DA2E54)
                                    }
                                }
                            }
                        }
                    } else {
                        if exponent <= -27 {
                            if exponent <= -32 {
                                if exponent <= -34 {
                                    if exponent <= -35 {
                                        if exponent <= -36 {
                                            (0xAA242499697392D2, 0xDDE50BD1D5D0B9E9)
                                        } else {
                                            (0xD4AD2DBFC3D07787, 0x955E4EC64B44E864)
                                        }
                                    } else {
                                        (0x84EC3C97DA624AB4, 0xBD5AF13BEF0B113E)
                                    }
                                } else {
                                    if exponent <= -33 {
                                        (0xA6274BBDD0FADD61, 0xECB1AD8AEACDD58E)
                                    } else {
                                        (0xCFB11EAD453994BA, 0x67DE18EDA5814AF2)
                                    }
                                }
                            } else {
                                if exponent <= -29 {
                                    if exponent <= -30 {
                                        if exponent <= -31 {
                                            (0x81CEB32C4B43FCF4, 0x80EACF948770CED7)
                                        } else {
                                            (0xA2425FF75E14FC31, 0xA1258379A94D028D)
                                        }
                                    } else {
                                        (0xCAD2F7F5359A3B3E, 0x096EE45813A04330)
                                    }
                                } else {
                                    if exponent <= -28 {
                                        (0xFD87B5F28300CA0D, 0x8BCA9D6E188853FC)
                                    } else {
                                        (0x9E74D1B791E07E48, 0x775EA264CF55347D)
                                    }
                                }
                            }
                        } else {
                            if exponent <= -22 {
                                if exponent <= -24 {
                                    if exponent <= -25 {
                                        if exponent <= -26 {
                                            (0xC612062576589DDA, 0x95364AFE032A819D)
                                        } else {
                                            (0xF79687AED3EEC551, 0x3A83DDBD83F52204)
                                        }
                                    } else {
                                        (0x9ABE14CD44753B52, 0xC4926A9672793542)
                                    }
                                } else {
                                    if exponent <= -23 {
                                        (0xC16D9A0095928A27, 0x75B7053C0F178293)
                                    } else {
                                        (0xF1C90080BAF72CB1, 0x5324C68B12DD6338)
                                    }
                                }
                            } else {
                                if exponent <= -19 {
                                    if exponent <= -20 {
                                        if exponent <= -21 {
                                            (0x971DA05074DA7BEE, 0xD3F6FC16EBCA5E03)
                                        } else {
                                            (0xBCE5086492111AEA, 0x88F4BB1CA6BCF584)
                                        }
                                    } else {
                                        (0xEC1E4A7DB69561A5, 0x2B31E9E3D06C32E5)
                                    }
                                } else {
                                    if exponent <= -18 {
                                        (0x9392EE8E921D5D07, 0x3AFF322E62439FCF)
                                    } else {
                                        (0xB877AA3236A4B449, 0x09BEFEB9FAD487C2)
                                    }
                                }
                            }
                        }
                    }
                }
            }
        }
    } else {
        if exponent <= 146 {
            if exponent <= 65 {
                if exponent <= 24 {
                    if exponent <= 4 {
                        if exponent <= -6 {
                            if exponent <= -11 {
                                if exponent <= -14 {
                                    if exponent <= -15 {
                                        if exponent <= -16 {
                                            (0xE69594BEC44DE15B, 0x4C2EBE687989A9B3)
                                        } else {
                                            (0x901D7CF73AB0ACD9, 0x0F9D37014BF60A10)
                                        }
                                    } else {
                                        (0xB424DC35095CD80F, 0x538484C19EF38C94)
                                    }
                                } else {
                                    if exponent <= -12 {
                                        if exponent <= -13 {
                                            (0xE12E13424BB40E13, 0x2865A5F206B06FB9)
                                        } else {
                                            (0x8CBCCC096F5088CB, 0xF93F87B7442E45D3)
                                        }
                                    } else {
                                        (0xAFEBFF0BCB24AAFE, 0xF78F69A51539D748)
                                    }
                                }
                            } else {
                                if exponent <= -8 {
                                    if exponent <= -9 {
                                        if exponent <= -10 {
                                            (0xDBE6FECEBDEDD5BE, 0xB573440E5A884D1B)
                                        } else {
                                            (0x89705F4136B4A597, 0x31680A88F8953030)
                                        }
                                    } else {
                                        (0xABCC77118461CEFC, 0xFDC20D2B36BA7C3D)
                                    }
                                } else {
                                    if exponent <= -7 {
                                        (0xD6BF94D5E57A42BC, 0x3D32907604691B4C)
                                    } else {
                                        (0x8637BD05AF6C69B5, 0xA63F9A49C2C1B10F)
                                    }
                                }
                            }
                        } else {
                            if exponent <= -1 {
                                if exponent <= -3 {
                                    if exponent <= -4 {
                                        if exponent <= -5 {
                                            (0xA7C5AC471B478423, 0x0FCF80DC33721D53)
                                        } else {
                                            (0xD1B71758E219652B, 0xD3C36113404EA4A8)
                                        }
                                    } else {
                                        (0x83126E978D4FDF3B, 0x645A1CAC083126E9)
                                    }
                                } else {
                                    if exponent <= -2 {
                                        (0xA3D70A3D70A3D70A, 0x3D70A3D70A3D70A3)
                                    } else {
                                        (0xCCCCCCCCCCCCCCCC, 0xCCCCCCCCCCCCCCCC)
                                    }
                                }
                            } else {
                                if exponent <= 2 {
                                    if exponent <= 1 {
                                        if exponent <= 0 {
                                            (0x8000000000000000, 0x0000000000000000)
                                        } else {
                                            (0xA000000000000000, 0x0000000000000000)
                                        }
                                    } else {
                                        (0xC800000000000000, 0x0000000000000000)
                                    }
                                } else {
                                    if exponent <= 3 {
                                        (0xFA00000000000000, 0x0000000000000000)
                                    } else {
                                        (0x9C40000000000000, 0x0000000000000000)
                                    }
                                }
                            }
                        }
                    } else {
                        if exponent <= 14 {
                            if exponent <= 9 {
                                if exponent <= 7 {
                                    if exponent <= 6 {
                                        if exponent <= 5 {
                                            (0xC350000000000000, 0x0000000000000000)
                                        } else {
                                            (0xF424000000000000, 0x0000000000000000)
                                        }
                                    } else {
                                        (0x9896800000000000, 0x0000000000000000)
                                    }
                                } else {
                                    if exponent <= 8 {
                                        (0xBEBC200000000000, 0x0000000000000000)
                                    } else {
                                        (0xEE6B280000000000, 0x0000000000000000)
                                    }
                                }
                            } else {
                                if exponent <= 12 {
                                    if exponent <= 11 {
                                        if exponent <= 10 {
                                            (0x9502F90000000000, 0x0000000000000000)
                                        } else {
                                            (0xBA43B74000000000, 0x0000000000000000)
                                        }
                                    } else {
                                        (0xE8D4A51000000000, 0x0000000000000000)
                                    }
                                } else {
                                    if exponent <= 13 {
                                        (0x9184E72A00000000, 0x0000000000000000)
                                    } else {
                                        (0xB5E620F480000000, 0x0000000000000000)
                                    }
                                }
                            }
                        } else {
                            if exponent <= 19 {
                                if exponent <= 17 {
                                    if exponent <= 16 {
                                        if exponent <= 15 {
                                            (0xE35FA931A0000000, 0x0000000000000000)
                                        } else {
                                            (0x8E1BC9BF04000000, 0x0000000000000000)
                                        }
                                    } else {
                                        (0xB1A2BC2EC5000000, 0x0000000000000000)
                                    }
                                } else {
                                    if exponent <= 18 {
                                        (0xDE0B6B3A76400000, 0x0000000000000000)
                                    } else {
                                        (0x8AC7230489E80000, 0x0000000000000000)
                                    }
                                }
                            } else {
                                if exponent <= 22 {
                                    if exponent <= 21 {
                                        if exponent <= 20 {
                                            (0xAD78EBC5AC620000, 0x0000000000000000)
                                        } else {
                                            (0xD8D726B7177A8000, 0x0000000000000000)
                                        }
                                    } else {
                                        (0x878678326EAC9000, 0x0000000000000000)
                                    }
                                } else {
                                    if exponent <= 23 {
                                        (0xA968163F0A57B400, 0x0000000000000000)
                                    } else {
                                        (0xD3C21BCECCEDA100, 0x0000000000000000)
                                    }
                                }
                            }
                        }
                    }
                } else {
                    if exponent <= 45 {
                        if exponent <= 35 {
                            if exponent <= 30 {
                                if exponent <= 27 {
                                    if exponent <= 26 {
                                        if exponent <= 25 {
                                            (0x84595161401484A0, 0x0000000000000000)
                                        } else {
                                            (0xA56FA5B99019A5C8, 0x0000000000000000)
                                        }
                                    } else {
                                        (0xCECB8F27F4200F3A, 0x0000000000000000)
                                    }
                                } else {
                                    if exponent <= 29 {
                                        if exponent <= 28 {
                                            (0x813F3978F8940984, 0x4000000000000000)
                                        } else {
                                            (0xA18F07D736B90BE5, 0x5000000000000000)
                                        }
                                    } else {
                                        (0xC9F2C9CD04674EDE, 0xA400000000000000)
                                    }
                                }
                            } else {
                                if exponent <= 33 {
                                    if exponent <= 32 {
                                        if exponent <= 31 {
                                            (0xFC6F7C4045812296, 0x4D00000000000000)
                                        } else {
                                            (0x9DC5ADA82B70B59D, 0xF020000000000000)
                                        }
                                    } else {
                                        (0xC5371912364CE305, 0x6C28000000000000)
                                    }
                                } else {
                                    if exponent <= 34 {
                                        (0xF684DF56C3E01BC6, 0xC732000000000000)
                                    } else {
                                        (0x9A130B963A6C115C, 0x3C7F400000000000)
                                    }
                                }
                            }
                        } else {
                            if exponent <= 40 {
                                if exponent <= 38 {
                                    if exponent <= 37 {
                                        if exponent <= 36 {
                                            (0xC097CE7BC90715B3, 0x4B9F100000000000)
                                        } else {
                                            (0xF0BDC21ABB48DB20, 0x1E86D40000000000)
                                        }
                                    } else {
                                        (0x96769950B50D88F4, 0x1314448000000000)
                                    }
                                } else {
                                    if exponent <= 39 {
                                        (0xBC143FA4E250EB31, 0x17D955A000000000)
                                    } else {
                                        (0xEB194F8E1AE525FD, 0x5DCFAB0800000000)
                                    }
                                }
                            } else {
                                if exponent <= 43 {
                                    if exponent <= 42 {
                                        if exponent <= 41 {
                                            (0x92EFD1B8D0CF37BE, 0x5AA1CAE500000000)
                                        } else {
                                            (0xB7ABC627050305AD, 0xF14A3D9E40000000)
                                        }
                                    } else {
                                        (0xE596B7B0C643C719, 0x6D9CCD05D0000000)
                                    }
                                } else {
                                    if exponent <= 44 {
                                        (0x8F7E32CE7BEA5C6F, 0xE4820023A2000000)
                                    } else {
                                        (0xB35DBF821AE4F38B, 0xDDA2802C8A800000)
                                    }
                                }
                            }
                        }
                    } else {
                        if exponent <= 55 {
                            if exponent <= 50 {
                                if exponent <= 48 {
                                    if exponent <= 47 {
                                        if exponent <= 46 {
                                            (0xE0352F62A19E306E, 0xD50B2037AD200000)
                                        } else {
                                            (0x8C213D9DA502DE45, 0x4526F422CC340000)
                                        }
                                    } else {
                                        (0xAF298D050E4395D6, 0x9670B12B7F410000)
                                    }
                                } else {
                                    if exponent <= 49 {
                                        (0xDAF3F04651D47B4C, 0x3C0CDD765F114000)
                                    } else {
                                        (0x88D8762BF324CD0F, 0xA5880A69FB6AC800)
                                    }
                                }
                            } else {
                                if exponent <= 53 {
                                    if exponent <= 52 {
                                        if exponent <= 51 {
                                            (0xAB0E93B6EFEE0053, 0x8EEA0D047A457A00)
                                        } else {
                                            (0xD5D238A4ABE98068, 0x72A4904598D6D880)
                                        }
                                    } else {
                                        (0x85A36366EB71F041, 0x47A6DA2B7F864750)
                                    }
                                } else {
                                    if exponent <= 54 {
                                        (0xA70C3C40A64E6C51, 0x999090B65F67D924)
                                    } else {
                                        (0xD0CF4B50CFE20765, 0xFFF4B4E3F741CF6D)
                                    }
                                }
                            }
                        } else {
                            if exponent <= 60 {
                                if exponent <= 58 {
                                    if exponent <= 57 {
                                        if exponent <= 56 {
                                            (0x82818F1281ED449F, 0xBFF8F10E7A8921A4)
                                        } else {
                                            (0xA321F2D7226895C7, 0xAFF72D52192B6A0D)
                                        }
                                    } else {
                                        (0xCBEA6F8CEB02BB39, 0x9BF4F8A69F764490)
                                    }
                                } else {
                                    if exponent <= 59 {
                                        (0xFEE50B7025C36A08, 0x02F236D04753D5B4)
                                    } else {
                                        (0x9F4F2726179A2245, 0x01D762422C946590)
                                    }
                                }
                            } else {
                                if exponent <= 63 {
                                    if exponent <= 62 {
                                        if exponent <= 61 {
                                            (0xC722F0EF9D80AAD6, 0x424D3AD2B7B97EF5)
                                        } else {
                                            (0xF8EBAD2B84E0D58B, 0xD2E0898765A7DEB2)
                                        }
                                    } else {
                                        (0x9B934C3B330C8577, 0x63CC55F49F88EB2F)
                                    }
                                } else {
                                    if exponent <= 64 {
                                        (0xC2781F49FFCFA6D5, 0x3CBF6B71C76B25FB)
                                    } else {
                                        (0xF316271C7FC3908A, 0x8BEF464E3945EF7A)
                                    }
                                }
                            }
                        }
                    }
                }
            } else {
                if exponent <= 106 {
                    if exponent <= 86 {
                        if exponent <= 76 {
                            if exponent <= 71 {
                                if exponent <= 68 {
                                    if exponent <= 67 {
                                        if exponent <= 66 {
                                            (0x97EDD871CFDA3A56, 0x97758BF0E3CBB5AC)
                                        } else {
                                            (0xBDE94E8E43D0C8EC, 0x3D52EEED1CBEA317)
                                        }
                                    } else {
                                        (0xED63A231D4C4FB27, 0x4CA7AAA863EE4BDD)
                                    }
                                } else {
                                    if exponent <= 70 {
                                        if exponent <= 69 {
                                            (0x945E455F24FB1CF8, 0x8FE8CAA93E74EF6A)
                                        } else {
                                            (0xB975D6B6EE39E436, 0xB3E2FD538E122B44)
                                        }
                                    } else {
                                        (0xE7D34C64A9C85D44, 0x60DBBCA87196B616)
                                    }
                                }
                            } else {
                                if exponent <= 74 {
                                    if exponent <= 73 {
                                        if exponent <= 72 {
                                            (0x90E40FBEEA1D3A4A, 0xBC8955E946FE31CD)
                                        } else {
                                            (0xB51D13AEA4A488DD, 0x6BABAB6398BDBE41)
                                        }
                                    } else {
                                        (0xE264589A4DCDAB14, 0xC696963C7EED2DD1)
                                    }
                                } else {
                                    if exponent <= 75 {
                                        (0x8D7EB76070A08AEC, 0xFC1E1DE5CF543CA2)
                                    } else {
                                        (0xB0DE65388CC8ADA8, 0x3B25A55F43294BCB)
                                    }
                                }
                            }
                        } else {
                            if exponent <= 81 {
                                if exponent <= 79 {
                                    if exponent <= 78 {
                                        if exponent <= 77 {
                                            (0xDD15FE86AFFAD912, 0x49EF0EB713F39EBE)
                                        } else {
                                            (0x8A2DBF142DFCC7AB, 0x6E3569326C784337)
                                        }
                                    } else {
                                        (0xACB92ED9397BF996, 0x49C2C37F07965404)
                                    }
                                } else {
                                    if exponent <= 80 {
                                        (0xD7E77A8F87DAF7FB, 0xDC33745EC97BE906)
                                    } else {
                                        (0x86F0AC99B4E8DAFD, 0x69A028BB3DED71A3)
                                    }
                                }
                            } else {
                                if exponent <= 84 {
                                    if exponent <= 83 {
                                        if exponent <= 82 {
                                            (0xA8ACD7C0222311BC, 0xC40832EA0D68CE0C)
                                        } else {
                                            (0xD2D80DB02AABD62B, 0xF50A3FA490C30190)
                                        }
                                    } else {
                                        (0x83C7088E1AAB65DB, 0x792667C6DA79E0FA)
                                    }
                                } else {
                                    if exponent <= 85 {
                                        (0xA4B8CAB1A1563F52, 0x577001B891185938)
                                    } else {
                                        (0xCDE6FD5E09ABCF26, 0xED4C0226B55E6F86)
                                    }
                                }
                            }
                        }
                    } else {
                        if exponent <= 96 {
                            if exponent <= 91 {
                                if exponent <= 89 {
                                    if exponent <= 88 {
                                        if exponent <= 87 {
                                            (0x80B05E5AC60B6178, 0x544F8158315B05B4)
                                        } else {
                                            (0xA0DC75F1778E39D6, 0x696361AE3DB1C721)
                                        }
                                    } else {
                                        (0xC913936DD571C84C, 0x03BC3A19CD1E38E9)
                                    }
                                } else {
                                    if exponent <= 90 {
                                        (0xFB5878494ACE3A5F, 0x04AB48A04065C723)
                                    } else {
                                        (0x9D174B2DCEC0E47B, 0x62EB0D64283F9C76)
                                    }
                                }
                            } else {
                                if exponent <= 94 {
                                    if exponent <= 93 {
                                        if exponent <= 92 {
                                            (0xC45D1DF942711D9A, 0x3BA5D0BD324F8394)
                                        } else {
                                            (0xF5746577930D6500, 0xCA8F44EC7EE36479)
                                        }
                                    } else {
                                        (0x9968BF6ABBE85F20, 0x7E998B13CF4E1ECB)
                                    }
                                } else {
                                    if exponent <= 95 {
                                        (0xBFC2EF456AE276E8, 0x9E3FEDD8C321A67E)
                                    } else {
                                        (0xEFB3AB16C59B14A2, 0xC5CFE94EF3EA101E)
                                    }
                                }
                            }
                        } else {
                            if exponent <= 101 {
                                if exponent <= 99 {
                                    if exponent <= 98 {
                                        if exponent <= 97 {
                                            (0x95D04AEE3B80ECE5, 0xBBA1F1D158724A12)
                                        } else {
                                            (0xBB445DA9CA61281F, 0x2A8A6E45AE8EDC97)
                                        }
                                    } else {
                                        (0xEA1575143CF97226, 0xF52D09D71A3293BD)
                                    }
                                } else {
                                    if exponent <= 100 {
                                        (0x924D692CA61BE758, 0x593C2626705F9C56)
                                    } else {
                                        (0xB6E0C377CFA2E12E, 0x6F8B2FB00C77836C)
                                    }
                                }
                            } else {
                                if exponent <= 104 {
                                    if exponent <= 103 {
                                        if exponent <= 102 {
                                            (0xE498F455C38B997A, 0x0B6DFB9C0F956447)
                                        } else {
                                            (0x8EDF98B59A373FEC, 0x4724BD4189BD5EAC)
                                        }
                                    } else {
                                        (0xB2977EE300C50FE7, 0x58EDEC91EC2CB657)
                                    }
                                } else {
                                    if exponent <= 105 {
                                        (0xDF3D5E9BC0F653E1, 0x2F2967B66737E3ED)
                                    } else {
                                        (0x8B865B215899F46C, 0xBD79E0D20082EE74)
                                    }
                                }
                            }
                        }
                    }
                } else {
                    if exponent <= 126 {
                        if exponent <= 116 {
                            if exponent <= 111 {
                                if exponent <= 109 {
                                    if exponent <= 108 {
                                        if exponent <= 107 {
                                            (0xAE67F1E9AEC07187, 0xECD8590680A3AA11)
                                        } else {
                                            (0xDA01EE641A708DE9, 0xE80E6F4820CC9495)
                                        }
                                    } else {
                                        (0x884134FE908658B2, 0x3109058D147FDCDD)
                                    }
                                } else {
                                    if exponent <= 110 {
                                        (0xAA51823E34A7EEDE, 0xBD4B46F0599FD415)
                                    } else {
                                        (0xD4E5E2CDC1D1EA96, 0x6C9E18AC7007C91A)
                                    }
                                }
                            } else {
                                if exponent <= 114 {
                                    if exponent <= 113 {
                                        if exponent <= 112 {
                                            (0x850FADC09923329E, 0x03E2CF6BC604DDB0)
                                        } else {
                                            (0xA6539930BF6BFF45, 0x84DB8346B786151C)
                                        }
                                    } else {
                                        (0xCFE87F7CEF46FF16, 0xE612641865679A63)
                                    }
                                } else {
                                    if exponent <= 115 {
                                        (0x81F14FAE158C5F6E, 0x4FCB7E8F3F60C07E)
                                    } else {
                                        (0xA26DA3999AEF7749, 0xE3BE5E330F38F09D)
                                    }
                                }
                            }
                        } else {
                            if exponent <= 121 {
                                if exponent <= 119 {
                                    if exponent <= 118 {
                                        if exponent <= 117 {
                                            (0xCB090C8001AB551C, 0x5CADF5BFD3072CC5)
                                        } else {
                                            (0xFDCB4FA002162A63, 0x73D9732FC7C8F7F6)
                                        }
                                    } else {
                                        (0x9E9F11C4014DDA7E, 0x2867E7FDDCDD9AFA)
                                    }
                                } else {
                                    if exponent <= 120 {
                                        (0xC646D63501A1511D, 0xB281E1FD541501B8)
                                    } else {
                                        (0xF7D88BC24209A565, 0x1F225A7CA91A4226)
                                    }
                                }
                            } else {
                                if exponent <= 124 {
                                    if exponent <= 123 {
                                        if exponent <= 122 {
                                            (0x9AE757596946075F, 0x3375788DE9B06958)
                                        } else {
                                            (0xC1A12D2FC3978937, 0x0052D6B1641C83AE)
                                        }
                                    } else {
                                        (0xF209787BB47D6B84, 0xC0678C5DBD23A49A)
                                    }
                                } else {
                                    if exponent <= 125 {
                                        (0x9745EB4D50CE6332, 0xF840B7BA963646E0)
                                    } else {
                                        (0xBD176620A501FBFF, 0xB650E5A93BC3D898)
                                    }
                                }
                            }
                        }
                    } else {
                        if exponent <= 136 {
                            if exponent <= 131 {
                                if exponent <= 129 {
                                    if exponent <= 128 {
                                        if exponent <= 127 {
                                            (0xEC5D3FA8CE427AFF, 0xA3E51F138AB4CEBE)
                                        } else {
                                            (0x93BA47C980E98CDF, 0xC66F336C36B10137)
                                        }
                                    } else {
                                        (0xB8A8D9BBE123F017, 0xB80B0047445D4184)
                                    }
                                } else {
                                    if exponent <= 130 {
                                        (0xE6D3102AD96CEC1D, 0xA60DC059157491E5)
                                    } else {
                                        (0x9043EA1AC7E41392, 0x87C89837AD68DB2F)
                                    }
                                }
                            } else {
                                if exponent <= 134 {
                                    if exponent <= 133 {
                                        if exponent <= 132 {
                                            (0xB454E4A179DD1877, 0x29BABE4598C311FB)
                                        } else {
                                            (0xE16A1DC9D8545E94, 0xF4296DD6FEF3D67A)
                                        }
                                    } else {
                                        (0x8CE2529E2734BB1D, 0x1899E4A65F58660C)
                                    }
                                } else {
                                    if exponent <= 135 {
                                        (0xB01AE745B101E9E4, 0x5EC05DCFF72E7F8F)
                                    } else {
                                        (0xDC21A1171D42645D, 0x76707543F4FA1F73)
                                    }
                                }
                            }
                        } else {
                            if exponent <= 141 {
                                if exponent <= 139 {
                                    if exponent <= 138 {
                                        if exponent <= 137 {
                                            (0x899504AE72497EBA, 0x6A06494A791C53A8)
                                        } else {
                                            (0xABFA45DA0EDBDE69, 0x0487DB9D17636892)
                                        }
                                    } else {
                                        (0xD6F8D7509292D603, 0x45A9D2845D3C42B6)
                                    }
                                } else {
                                    if exponent <= 140 {
                                        (0x865B86925B9BC5C2, 0x0B8A2392BA45A9B2)
                                    } else {
                                        (0xA7F26836F282B732, 0x8E6CAC7768D7141E)
                                    }
                                }
                            } else {
                                if exponent <= 144 {
                                    if exponent <= 143 {
                                        if exponent <= 142 {
                                            (0xD1EF0244AF2364FF, 0x3207D795430CD926)
                                        } else {
                                            (0x8335616AED761F1F, 0x7F44E6BD49E807B8)
                                        }
                                    } else {
                                        (0xA402B9C5A8D3A6E7, 0x5F16206C9C6209A6)
                                    }
                                } else {
                                    if exponent <= 145 {
                                        (0xCD036837130890A1, 0x36DBA887C37A8C0F)
                                    } else {
                                        (0x802221226BE55A64, 0xC2494954DA2C9789)
                                    }
                                }
                            }
                        }
                    }
                }
            }
        } else {
            if exponent <= 227 {
                if exponent <= 187 {
                    if exponent <= 167 {
                        if exponent <= 157 {
                            if exponent <= 152 {
                                if exponent <= 149 {
                                    if exponent <= 148 {
                                        if exponent <= 147 {
                                            (0xA02AA96B06DEB0FD, 0xF2DB9BAA10B7BD6C)
                                        } else {
                                            (0xC83553C5C8965D3D, 0x6F92829494E5ACC7)
                                        }
                                    } else {
                                        (0xFA42A8B73ABBF48C, 0xCB772339BA1F17F9)
                                    }
                                } else {
                                    if exponent <= 151 {
                                        if exponent <= 150 {
                                            (0x9C69A97284B578D7, 0xFF2A760414536EFB)
                                        } else {
                                            (0xC38413CF25E2D70D, 0xFEF5138519684ABA)
                                        }
                                    } else {
                                        (0xF46518C2EF5B8CD1, 0x7EB258665FC25D69)
                                    }
                                }
                            } else {
                                if exponent <= 155 {
                                    if exponent <= 154 {
                                        if exponent <= 153 {
                                            (0x98BF2F79D5993802, 0xEF2F773FFBD97A61)
                                        } else {
                                            (0xBEEEFB584AFF8603, 0xAAFB550FFACFD8FA)
                                        }
                                    } else {
                                        (0xEEAABA2E5DBF6784, 0x95BA2A53F983CF38)
                                    }
                                } else {
                                    if exponent <= 156 {
                                        (0x952AB45CFA97A0B2, 0xDD945A747BF26183)
                                    } else {
                                        (0xBA756174393D88DF, 0x94F971119AEEF9E4)
                                    }
                                }
                            }
                        } else {
                            if exponent <= 162 {
                                if exponent <= 160 {
                                    if exponent <= 159 {
                                        if exponent <= 158 {
                                            (0xE912B9D1478CEB17, 0x7A37CD5601AAB85D)
                                        } else {
                                            (0x91ABB422CCB812EE, 0xAC62E055C10AB33A)
                                        }
                                    } else {
                                        (0xB616A12B7FE617AA, 0x577B986B314D6009)
                                    }
                                } else {
                                    if exponent <= 161 {
                                        (0xE39C49765FDF9D94, 0xED5A7E85FDA0B80B)
                                    } else {
                                        (0x8E41ADE9FBEBC27D, 0x14588F13BE847307)
                                    }
                                }
                            } else {
                                if exponent <= 165 {
                                    if exponent <= 164 {
                                        if exponent <= 163 {
                                            (0xB1D219647AE6B31C, 0x596EB2D8AE258FC8)
                                        } else {
                                            (0xDE469FBD99A05FE3, 0x6FCA5F8ED9AEF3BB)
                                        }
                                    } else {
                                        (0x8AEC23D680043BEE, 0x25DE7BB9480D5854)
                                    }
                                } else {
                                    if exponent <= 166 {
                                        (0xADA72CCC20054AE9, 0xAF561AA79A10AE6A)
                                    } else {
                                        (0xD910F7FF28069DA4, 0x1B2BA1518094DA04)
                                    }
                                }
                            }
                        }
                    } else {
                        if exponent <= 177 {
                            if exponent <= 172 {
                                if exponent <= 170 {
                                    if exponent <= 169 {
                                        if exponent <= 168 {
                                            (0x87AA9AFF79042286, 0x90FB44D2F05D0842)
                                        } else {
                                            (0xA99541BF57452B28, 0x353A1607AC744A53)
                                        }
                                    } else {
                                        (0xD3FA922F2D1675F2, 0x42889B8997915CE8)
                                    }
                                } else {
                                    if exponent <= 171 {
                                        (0x847C9B5D7C2E09B7, 0x69956135FEBADA11)
                                    } else {
                                        (0xA59BC234DB398C25, 0x43FAB9837E699095)
                                    }
                                }
                            } else {
                                if exponent <= 175 {
                                    if exponent <= 174 {
                                        if exponent <= 173 {
                                            (0xCF02B2C21207EF2E, 0x94F967E45E03F4BB)
                                        } else {
                                            (0x8161AFB94B44F57D, 0x1D1BE0EEBAC278F5)
                                        }
                                    } else {
                                        (0xA1BA1BA79E1632DC, 0x6462D92A69731732)
                                    }
                                } else {
                                    if exponent <= 176 {
                                        (0xCA28A291859BBF93, 0x7D7B8F7503CFDCFE)
                                    } else {
                                        (0xFCB2CB35E702AF78, 0x5CDA735244C3D43E)
                                    }
                                }
                            }
                        } else {
                            if exponent <= 182 {
                                if exponent <= 180 {
                                    if exponent <= 179 {
                                        if exponent <= 178 {
                                            (0x9DEFBF01B061ADAB, 0x3A0888136AFA64A7)
                                        } else {
                                            (0xC56BAEC21C7A1916, 0x088AAA1845B8FDD0)
                                        }
                                    } else {
                                        (0xF6C69A72A3989F5B, 0x8AAD549E57273D45)
                                    }
                                } else {
                                    if exponent <= 181 {
                                        (0x9A3C2087A63F6399, 0x36AC54E2F678864B)
                                    } else {
                                        (0xC0CB28A98FCF3C7F, 0x84576A1BB416A7DD)
                                    }
                                }
                            } else {
                                if exponent <= 185 {
                                    if exponent <= 184 {
                                        if exponent <= 183 {
                                            (0xF0FDF2D3F3C30B9F, 0x656D44A2A11C51D5)
                                        } else {
                                            (0x969EB7C47859E743, 0x9F644AE5A4B1B325)
                                        }
                                    } else {
                                        (0xBC4665B596706114, 0x873D5D9F0DDE1FEE)
                                    }
                                } else {
                                    if exponent <= 186 {
                                        (0xEB57FF22FC0C7959, 0xA90CB506D155A7EA)
                                    } else {
                                        (0x9316FF75DD87CBD8, 0x09A7F12442D588F2)
                                    }
                                }
                            }
                        }
                    }
                } else {
                    if exponent <= 207 {
                        if exponent <= 197 {
                            if exponent <= 192 {
                                if exponent <= 190 {
                                    if exponent <= 189 {
                                        if exponent <= 188 {
                                            (0xB7DCBF5354E9BECE, 0x0C11ED6D538AEB2F)
                                        } else {
                                            (0xE5D3EF282A242E81, 0x8F1668C8A86DA5FA)
                                        }
                                    } else {
                                        (0x8FA475791A569D10, 0xF96E017D694487BC)
                                    }
                                } else {
                                    if exponent <= 191 {
                                        (0xB38D92D760EC4455, 0x37C981DCC395A9AC)
                                    } else {
                                        (0xE070F78D3927556A, 0x85BBE253F47B1417)
                                    }
                                }
                            } else {
                                if exponent <= 195 {
                                    if exponent <= 194 {
                                        if exponent <= 193 {
                                            (0x8C469AB843B89562, 0x93956D7478CCEC8E)
                                        } else {
                                            (0xAF58416654A6BABB, 0x387AC8D1970027B2)
                                        }
                                    } else {
                                        (0xDB2E51BFE9D0696A, 0x06997B05FCC0319E)
                                    }
                                } else {
                                    if exponent <= 196 {
                                        (0x88FCF317F22241E2, 0x441FECE3BDF81F03)
                                    } else {
                                        (0xAB3C2FDDEEAAD25A, 0xD527E81CAD7626C3)
                                    }
                                }
                            }
                        } else {
                            if exponent <= 202 {
                                if exponent <= 200 {
                                    if exponent <= 199 {
                                        if exponent <= 198 {
                                            (0xD60B3BD56A5586F1, 0x8A71E223D8D3B074)
                                        } else {
                                            (0x85C7056562757456, 0xF6872D5667844E49)
                                        }
                                    } else {
                                        (0xA738C6BEBB12D16C, 0xB428F8AC016561DB)
                                    }
                                } else {
                                    if exponent <= 201 {
                                        (0xD106F86E69D785C7, 0xE13336D701BEBA52)
                                    } else {
                                        (0x82A45B450226B39C, 0xECC0024661173473)
                                    }
                                }
                            } else {
                                if exponent <= 205 {
                                    if exponent <= 204 {
                                        if exponent <= 203 {
                                            (0xA34D721642B06084, 0x27F002D7F95D0190)
                                        } else {
                                            (0xCC20CE9BD35C78A5, 0x31EC038DF7B441F4)
                                        }
                                    } else {
                                        (0xFF290242C83396CE, 0x7E67047175A15271)
                                    }
                                } else {
                                    if exponent <= 206 {
                                        (0x9F79A169BD203E41, 0x0F0062C6E984D386)
                                    } else {
                                        (0xC75809C42C684DD1, 0x52C07B78A3E60868)
                                    }
                                }
                            }
                        }
                    } else {
                        if exponent <= 217 {
                            if exponent <= 212 {
                                if exponent <= 210 {
                                    if exponent <= 209 {
                                        if exponent <= 208 {
                                            (0xF92E0C3537826145, 0xA7709A56CCDF8A82)
                                        } else {
                                            (0x9BBCC7A142B17CCB, 0x88A66076400BB691)
                                        }
                                    } else {
                                        (0xC2ABF989935DDBFE, 0x6ACFF893D00EA435)
                                    }
                                } else {
                                    if exponent <= 211 {
                                        (0xF356F7EBF83552FE, 0x0583F6B8C4124D43)
                                    } else {
                                        (0x98165AF37B2153DE, 0xC3727A337A8B704A)
                                    }
                                }
                            } else {
                                if exponent <= 215 {
                                    if exponent <= 214 {
                                        if exponent <= 213 {
                                            (0xBE1BF1B059E9A8D6, 0x744F18C0592E4C5C)
                                        } else {
                                            (0xEDA2EE1C7064130C, 0x1162DEF06F79DF73)
                                        }
                                    } else {
                                        (0x9485D4D1C63E8BE7, 0x8ADDCB5645AC2BA8)
                                    }
                                } else {
                                    if exponent <= 216 {
                                        (0xB9A74A0637CE2EE1, 0x6D953E2BD7173692)
                                    } else {
                                        (0xE8111C87C5C1BA99, 0xC8FA8DB6CCDD0437)
                                    }
                                }
                            }
                        } else {
                            if exponent <= 222 {
                                if exponent <= 220 {
                                    if exponent <= 219 {
                                        if exponent <= 218 {
                                            (0x910AB1D4DB9914A0, 0x1D9C9892400A22A2)
                                        } else {
                                            (0xB54D5E4A127F59C8, 0x2503BEB6D00CAB4B)
                                        }
                                    } else {
                                        (0xE2A0B5DC971F303A, 0x2E44AE64840FD61D)
                                    }
                                } else {
                                    if exponent <= 221 {
                                        (0x8DA471A9DE737E24, 0x5CEAECFED289E5D2)
                                    } else {
                                        (0xB10D8E1456105DAD, 0x7425A83E872C5F47)
                                    }
                                }
                            } else {
                                if exponent <= 225 {
                                    if exponent <= 224 {
                                        if exponent <= 223 {
                                            (0xDD50F1996B947518, 0xD12F124E28F77719)
                                        } else {
                                            (0x8A5296FFE33CC92F, 0x82BD6B70D99AAA6F)
                                        }
                                    } else {
                                        (0xACE73CBFDC0BFB7B, 0x636CC64D1001550B)
                                    }
                                } else {
                                    if exponent <= 226 {
                                        (0xD8210BEFD30EFA5A, 0x3C47F7E05401AA4E)
                                    } else {
                                        (0x8714A775E3E95C78, 0x65ACFAEC34810A71)
                                    }
                                }
                            }
                        }
                    }
                }
            } else {
                if exponent <= 268 {
                    if exponent <= 248 {
                        if exponent <= 238 {
                            if exponent <= 233 {
                                if exponent <= 230 {
                                    if exponent <= 229 {
                                        if exponent <= 228 {
                                            (0xA8D9D1535CE3B396, 0x7F1839A741A14D0D)
                                        } else {
                                            (0xD31045A8341CA07C, 0x1EDE48111209A050)
                                        }
                                    } else {
                                        (0x83EA2B892091E44D, 0x934AED0AAB460432)
                                    }
                                } else {
                                    if exponent <= 232 {
                                        if exponent <= 231 {
                                            (0xA4E4B66B68B65D60, 0xF81DA84D5617853F)
                                        } else {
                                            (0xCE1DE40642E3F4B9, 0x36251260AB9D668E)
                                        }
                                    } else {
                                        (0x80D2AE83E9CE78F3, 0xC1D72B7C6B426019)
                                    }
                                }
                            } else {
                                if exponent <= 236 {
                                    if exponent <= 235 {
                                        if exponent <= 234 {
                                            (0xA1075A24E4421730, 0xB24CF65B8612F81F)
                                        } else {
                                            (0xC94930AE1D529CFC, 0xDEE033F26797B627)
                                        }
                                    } else {
                                        (0xFB9B7CD9A4A7443C, 0x169840EF017DA3B1)
                                    }
                                } else {
                                    if exponent <= 237 {
                                        (0x9D412E0806E88AA5, 0x8E1F289560EE864E)
                                    } else {
                                        (0xC491798A08A2AD4E, 0xF1A6F2BAB92A27E2)
                                    }
                                }
                            }
                        } else {
                            if exponent <= 243 {
                                if exponent <= 241 {
                                    if exponent <= 240 {
                                        if exponent <= 239 {
                                            (0xF5B5D7EC8ACB58A2, 0xAE10AF696774B1DB)
                                        } else {
                                            (0x9991A6F3D6BF1765, 0xACCA6DA1E0A8EF29)
                                        }
                                    } else {
                                        (0xBFF610B0CC6EDD3F, 0x17FD090A58D32AF3)
                                    }
                                } else {
                                    if exponent <= 242 {
                                        (0xEFF394DCFF8A948E, 0xDDFC4B4CEF07F5B0)
                                    } else {
                                        (0x95F83D0A1FB69CD9, 0x4ABDAF101564F98E)
                                    }
                                }
                            } else {
                                if exponent <= 246 {
                                    if exponent <= 245 {
                                        if exponent <= 244 {
                                            (0xBB764C4CA7A4440F, 0x9D6D1AD41ABE37F1)
                                        } else {
                                            (0xEA53DF5FD18D5513, 0x84C86189216DC5ED)
                                        }
                                    } else {
                                        (0x92746B9BE2F8552C, 0x32FD3CF5B4E49BB4)
                                    }
                                } else {
                                    if exponent <= 247 {
                                        (0xB7118682DBB66A77, 0x3FBC8C33221DC2A1)
                                    } else {
                                        (0xE4D5E82392A40515, 0x0FABAF3FEAA5334A)
                                    }
                                }
                            }
                        }
                    } else {
                        if exponent <= 258 {
                            if exponent <= 253 {
                                if exponent <= 251 {
                                    if exponent <= 250 {
                                        if exponent <= 249 {
                                            (0x8F05B1163BA6832D, 0x29CB4D87F2A7400E)
                                        } else {
                                            (0xB2C71D5BCA9023F8, 0x743E20E9EF511012)
                                        }
                                    } else {
                                        (0xDF78E4B2BD342CF6, 0x914DA9246B255416)
                                    }
                                } else {
                                    if exponent <= 252 {
                                        (0x8BAB8EEFB6409C1A, 0x1AD089B6C2F7548E)
                                    } else {
                                        (0xAE9672ABA3D0C320, 0xA184AC2473B529B1)
                                    }
                                }
                            } else {
                                if exponent <= 256 {
                                    if exponent <= 255 {
                                        if exponent <= 254 {
                                            (0xDA3C0F568CC4F3E8, 0xC9E5D72D90A2741E)
                                        } else {
                                            (0x8865899617FB1871, 0x7E2FA67C7A658892)
                                        }
                                    } else {
                                        (0xAA7EEBFB9DF9DE8D, 0xDDBB901B98FEEAB7)
                                    }
                                } else {
                                    if exponent <= 257 {
                                        (0xD51EA6FA85785631, 0x552A74227F3EA565)
                                    } else {
                                        (0x8533285C936B35DE, 0xD53A88958F87275F)
                                    }
                                }
                            }
                        } else {
                            if exponent <= 263 {
                                if exponent <= 261 {
                                    if exponent <= 260 {
                                        if exponent <= 259 {
                                            (0xA67FF273B8460356, 0x8A892ABAF368F137)
                                        } else {
                                            (0xD01FEF10A657842C, 0x2D2B7569B0432D85)
                                        }
                                    } else {
                                        (0x8213F56A67F6B29B, 0x9C3B29620E29FC73)
                                    }
                                } else {
                                    if exponent <= 262 {
                                        (0xA298F2C501F45F42, 0x8349F3BA91B47B8F)
                                    } else {
                                        (0xCB3F2F7642717713, 0x241C70A936219A73)
                                    }
                                }
                            } else {
                                if exponent <= 266 {
                                    if exponent <= 265 {
                                        if exponent <= 264 {
                                            (0xFE0EFB53D30DD4D7, 0xED238CD383AA0110)
                                        } else {
                                            (0x9EC95D1463E8A506, 0xF4363804324A40AA)
                                        }
                                    } else {
                                        (0xC67BB4597CE2CE48, 0xB143C6053EDCD0D5)
                                    }
                                } else {
                                    if exponent <= 267 {
                                        (0xF81AA16FDC1B81DA, 0xDD94B7868E94050A)
                                    } else {
                                        (0x9B10A4E5E9913128, 0xCA7CF2B4191C8326)
                                    }
                                }
                            }
                        }
                    }
                } else {
                    if exponent <= 288 {
                        if exponent <= 278 {
                            if exponent <= 273 {
                                if exponent <= 271 {
                                    if exponent <= 270 {
                                        if exponent <= 269 {
                                            (0xC1D4CE1F63F57D72, 0xFD1C2F611F63A3F0)
                                        } else {
                                            (0xF24A01A73CF2DCCF, 0xBC633B39673C8CEC)
                                        }
                                    } else {
                                        (0x976E41088617CA01, 0xD5BE0503E085D813)
                                    }
                                } else {
                                    if exponent <= 272 {
                                        (0xBD49D14AA79DBC82, 0x4B2D8644D8A74E18)
                                    } else {
                                        (0xEC9C459D51852BA2, 0xDDF8E7D60ED1219E)
                                    }
                                }
                            } else {
                                if exponent <= 276 {
                                    if exponent <= 275 {
                                        if exponent <= 274 {
                                            (0x93E1AB8252F33B45, 0xCABB90E5C942B503)
                                        } else {
                                            (0xB8DA1662E7B00A17, 0x3D6A751F3B936243)
                                        }
                                    } else {
                                        (0xE7109BFBA19C0C9D, 0x0CC512670A783AD4)
                                    }
                                } else {
                                    if exponent <= 277 {
                                        (0x906A617D450187E2, 0x27FB2B80668B24C5)
                                    } else {
                                        (0xB484F9DC9641E9DA, 0xB1F9F660802DEDF6)
                                    }
                                }
                            }
                        } else {
                            if exponent <= 283 {
                                if exponent <= 281 {
                                    if exponent <= 280 {
                                        if exponent <= 279 {
                                            (0xE1A63853BBD26451, 0x5E7873F8A0396973)
                                        } else {
                                            (0x8D07E33455637EB2, 0xDB0B487B6423E1E8)
                                        }
                                    } else {
                                        (0xB049DC016ABC5E5F, 0x91CE1A9A3D2CDA62)
                                    }
                                } else {
                                    if exponent <= 282 {
                                        (0xDC5C5301C56B75F7, 0x7641A140CC7810FB)
                                    } else {
                                        (0x89B9B3E11B6329BA, 0xA9E904C87FCB0A9D)
                                    }
                                }
                            } else {
                                if exponent <= 286 {
                                    if exponent <= 285 {
                                        if exponent <= 284 {
                                            (0xAC2820D9623BF429, 0x546345FA9FBDCD44)
                                        } else {
                                            (0xD732290FBACAF133, 0xA97C177947AD4095)
                                        }
                                    } else {
                                        (0x867F59A9D4BED6C0, 0x49ED8EABCCCC485D)
                                    }
                                } else {
                                    if exponent <= 287 {
                                        (0xA81F301449EE8C70, 0x5C68F256BFFF5A74)
                                    } else {
                                        (0xD226FC195C6A2F8C, 0x73832EEC6FFF3111)
                                    }
                                }
                            }
                        }
                    } else {
                        if exponent <= 298 {
                            if exponent <= 293 {
                                if exponent <= 291 {
                                    if exponent <= 290 {
                                        if exponent <= 289 {
                                            (0x83585D8FD9C25DB7, 0xC831FD53C5FF7EAB)
                                        } else {
                                            (0xA42E74F3D032F525, 0xBA3E7CA8B77F5E55)
                                        }
                                    } else {
                                        (0xCD3A1230C43FB26F, 0x28CE1BD2E55F35EB)
                                    }
                                } else {
                                    if exponent <= 292 {
                                        (0x80444B5E7AA7CF85, 0x7980D163CF5B81B3)
                                    } else {
                                        (0xA0555E361951C366, 0xD7E105BCC332621F)
                                    }
                                }
                            } else {
                                if exponent <= 296 {
                                    if exponent <= 295 {
                                        if exponent <= 294 {
                                            (0xC86AB5C39FA63440, 0x8DD9472BF3FEFAA7)
                                        } else {
                                            (0xFA856334878FC150, 0xB14F98F6F0FEB951)
                                        }
                                    } else {
                                        (0x9C935E00D4B9D8D2, 0x6ED1BF9A569F33D3)
                                    }
                                } else {
                                    if exponent <= 297 {
                                        (0xC3B8358109E84F07, 0x0A862F80EC4700C8)
                                    } else {
                                        (0xF4A642E14C6262C8, 0xCD27BB612758C0FA)
                                    }
                                }
                            }
                        } else {
                            if exponent <= 303 {
                                if exponent <= 301 {
                                    if exponent <= 300 {
                                        if exponent <= 299 {
                                            (0x98E7E9CCCFBD7DBD, 0x8038D51CB897789C)
                                        } else {
                                            (0xBF21E44003ACDD2C, 0xE0470A63E6BD56C3)
                                        }
                                    } else {
                                        (0xEEEA5D5004981478, 0x1858CCFCE06CAC74)
                                    }
                                } else {
                                    if exponent <= 302 {
                                        (0x95527A5202DF0CCB, 0x0F37801E0C43EBC8)
                                    } else {
                                        (0xBAA718E68396CFFD, 0xD30560258F54E6BA)
                                    }
                                }
                            } else {
                                if exponent <= 306 {
                                    if exponent <= 305 {
                                        if exponent <= 304 {
                                            (0xE950DF20247C83FD, 0x47C6B82EF32A2069)
                                        } else {
                                            (0x91D28B7416CDD27E, 0x4CDC331D57FA5441)
                                        }
                                    } else {
                                        (0xB6472E511C81471D, 0xE0133FE4ADF8E952)
                                    }
                                } else {
                                    if exponent <= 307 {
                                        (0xE3D8F9E563A198E5, 0x58180FDDD97723A6)
                                    } else {
                                        (0x8E679C2F5E44FF8F, 0x570F09EAA7EA7648)
                                    }
                                }
                            }
                        }
                    }
                }
            }
        }
    }
}

/// Whether the 128 bits of `(high, low)` are the leading 128 bits of
/// `10^exponent`, rounded down: with `t` the number of 128 bits and `q` the
/// binary exponent that goes with the high word,
/// `t * 2^(q - 64) <= 10^exponent < (t + 1) * 2^(q - 64)`, and the highest
/// bit of `t` is set. The inequalities are stated in integers, with the
/// power of five of the power of ten on the side on which it is not a
/// fraction.
#[verifier::opaque]
pub open spec fn power_floor(exponent: int, high: u64, low: u64) -> bool {
    let t = high * 0x1_0000_0000_0000_0000 + low;
    let shift = exponent - power_of_10_exponent(exponent) + 64;
    &&& high >= 0x8000_0000_0000_0000
    &&& if exponent >= 0 {
        if shift >= 0 {
            t == pow(5, exponent as nat) * pow2(shift as nat)
        } else {
            t * pow2((-shift) as nat) <= pow(5, exponent as nat) < (t + 1) * pow2(
                (-shift) as nat,
            )
        }
    } else {
        shift >= 0 && t * pow(5, (-exponent) as nat) <= pow2(shift as nat) < (t + 1) * pow(
            5,
            (-exponent) as nat,
        )
    }
}

/// Whether the entry of the table for `exponent` is the leading 128 bits
/// of `10^exponent`, rounded down.
pub open spec fn power_is_floor(exponent: int) -> bool {
    power_floor(exponent, power_of_10(exponent).0, power_of_10(exponent).1)
}

/// Every entry of the table is normalized: the highest bit of its high
/// word is set.
pub proof fn lemma_powers_normalized(exponent: int)
    requires
        MIN_DENORMAL_EXP10 <= exponent <= MAX_NORMAL_EXP10,
    ensures
        power_of_10(exponent).0 >= 0x8000_0000_0000_0000,
{
    reveal(power_of_10);
}

/// Reads the entry of the table for the decimal exponent `exponent`.
#[verifier::rlimit(100)]
pub fn get_power_of_10(exponent: i32) -> (r: (u64, u64))
    requires
        MIN_DENORMAL_EXP10 <= exponent <= MAX_NORMAL_EXP10,
    ensures
        r == power_of_10(exponent as int),
        r.0 >= 0x8000_0000_0000_0000,
{
    proof {
        reveal(power_of_10);
    }
    POWERS_OF_10[(exponent - MIN_DENORMAL_EXP10) as usize]
}

} // verus!
