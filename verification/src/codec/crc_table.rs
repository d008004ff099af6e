//! The CRC-16 lookup table, and the proof that it holds what it should.

use vstd::prelude::*;

verus! {

/// Shift one bit through the CRC register (polynomial 0xA001, reflected).
pub open spec fn crc_step(crc: u16) -> u16 {
    (crc >> 1) ^ (if crc & 1 != 0 {
        0xA001u16
    } else {
        0
    })
}

/// Shift eight bits through the CRC register.
pub open spec fn crc_of_byte(crc: u16) -> u16 {
    crc_step(crc_step(crc_step(crc_step(crc_step(crc_step(crc_step(crc_step(crc))))))))
}

/// What eight shifts make of each value of the low byte.
pub const CRC_TABLE: [u16; 256] = [
    0x0000, 0xC0C1, 0xC181, 0x0140, 0xC301, 0x03C0, 0x0280, 0xC241,
    0xC601, 0x06C0, 0x0780, 0xC741, 0x0500, 0xC5C1, 0xC481, 0x0440,
    0xCC01, 0x0CC0, 0x0D80, 0xCD41, 0x0F00, 0xCFC1, 0xCE81, 0x0E40,
    0x0A00, 0xCAC1, 0xCB81, 0x0B40, 0xC901, 0x09C0, 0x0880, 0xC841,
    0xD801, 0x18C0, 0x1980, 0xD941, 0x1B00, 0xDBC1, 0xDA81, 0x1A40,
    0x1E00, 0xDEC1, 0xDF81, 0x1F40, 0xDD01, 0x1DC0, 0x1C80, 0xDC41,
    0x1400, 0xD4C1, 0xD581, 0x1540, 0xD701, 0x17C0, 0x1680, 0xD641,
    0xD201, 0x12C0, 0x1380, 0xD341, 0x1100, 0xD1C1, 0xD081, 0x1040,
    0xF001, 0x30C0, 0x3180, 0xF141, 0x3300, 0xF3C1, 0xF281, 0x3240,
    0x3600, 0xF6C1, 0xF781, 0x3740, 0xF501, 0x35C0, 0x3480, 0xF441,
    0x3C00, 0xFCC1, 0xFD81, 0x3D40, 0xFF01, 0x3FC0, 0x3E80, 0xFE41,
    0xFA01, 0x3AC0, 0x3B80, 0xFB41, 0x3900, 0xF9C1, 0xF881, 0x3840,
    0x2800, 0xE8C1, 0xE981, 0x2940, 0xEB01, 0x2BC0, 0x2A80, 0xEA41,
    0xEE01, 0x2EC0, 0x2F80, 0xEF41, 0x2D00, 0xEDC1, 0xEC81, 0x2C40,
    0xE401, 0x24C0, 0x2580, 0xE541, 0x2700, 0xE7C1, 0xE681, 0x2640,
    0x2200, 0xE2C1, 0xE381, 0x2340, 0xE101, 0x21C0, 0x2080, 0xE041,
    0xA001, 0x60C0, 0x6180, 0xA141, 0x6300, 0xA3C1, 0xA281, 0x6240,
    0x6600, 0xA6C1, 0xA781, 0x6740, 0xA501, 0x65C0, 0x6480, 0xA441,
    0x6C00, 0xACC1, 0xAD81, 0x6D40, 0xAF01, 0x6FC0, 0x6E80, 0xAE41,
    0xAA01, 0x6AC0, 0x6B80, 0xAB41, 0x6900, 0xA9C1, 0xA881, 0x6840,
    0x7800, 0xB8C1, 0xB981, 0x7940, 0xBB01, 0x7BC0, 0x7A80, 0xBA41,
    0xBE01, 0x7EC0, 0x7F80, 0xBF41, 0x7D00, 0xBDC1, 0xBC81, 0x7C40,
    0xB401, 0x74C0, 0x7580, 0xB541, 0x7700, 0xB7C1, 0xB681, 0x7640,
    0x7200, 0xB2C1, 0xB381, 0x7340, 0xB101, 0x71C0, 0x7080, 0xB041,
    0x5000, 0x90C1, 0x9181, 0x5140, 0x9301, 0x53C0, 0x5280, 0x9241,
    0x9601, 0x56C0, 0x5780, 0x9741, 0x5500, 0x95C1, 0x9481, 0x5440,
    0x9C01, 0x5CC0, 0x5D80, 0x9D41, 0x5F00, 0x9FC1, 0x9E81, 0x5E40,
    0x5A00, 0x9AC1, 0x9B81, 0x5B40, 0x9901, 0x59C0, 0x5880, 0x9841,
    0x8801, 0x48C0, 0x4980, 0x8941, 0x4B00, 0x8BC1, 0x8A81, 0x4A40,
    0x4E00, 0x8EC1, 0x8F81, 0x4F40, 0x8D01, 0x4DC0, 0x4C80, 0x8C41,
    0x4400, 0x84C1, 0x8581, 0x4540, 0x8701, 0x47C0, 0x4680, 0x8641,
    0x8201, 0x42C0, 0x4380, 0x8341, 0x4100, 0x81C1, 0x8081, 0x4040,
];

proof fn lemma_crc_table_0(i: int)
    requires
        0 <= i < 64,
    ensures
        CRC_TABLE@[i] == crc_of_byte(i as u16),
{
    assert({
        &&& crc_of_byte(0) == 0x0000
        &&& crc_of_byte(1) == 0xC0C1
        &&& crc_of_byte(2) == 0xC181
        &&& crc_of_byte(3) == 0x0140
        &&& crc_of_byte(4) == 0xC301
        &&& crc_of_byte(5) == 0x03C0
        &&& crc_of_byte(6) == 0x0280
        &&& crc_of_byte(7) == 0xC241
        &&& crc_of_byte(8) == 0xC601
        &&& crc_of_byte(9) == 0x06C0
        &&& crc_of_byte(10) == 0x0780
        &&& crc_of_byte(11) == 0xC741
        &&& crc_of_byte(12) == 0x0500
        &&& crc_of_byte(13) == 0xC5C1
        &&& crc_of_byte(14) == 0xC481
        &&& crc_of_byte(15) == 0x0440
        &&& crc_of_byte(16) == 0xCC01
        &&& crc_of_byte(17) == 0x0CC0
        &&& crc_of_byte(18) == 0x0D80
        &&& crc_of_byte(19) == 0xCD41
        &&& crc_of_byte(20) == 0x0F00
        &&& crc_of_byte(21) == 0xCFC1
        &&& crc_of_byte(22) == 0xCE81
        &&& crc_of_byte(23) == 0x0E40
        &&& crc_of_byte(24) == 0x0A00
        &&& crc_of_byte(25) == 0xCAC1
        &&& crc_of_byte(26) == 0xCB81
        &&& crc_of_byte(27) == 0x0B40
        &&& crc_of_byte(28) == 0xC901
        &&& crc_of_byte(29) == 0x09C0
        &&& crc_of_byte(30) == 0x0880
        &&& crc_of_byte(31) == 0xC841
        &&& crc_of_byte(32) == 0xD801
        &&& crc_of_byte(33) == 0x18C0
        &&& crc_of_byte(34) == 0x1980
        &&& crc_of_byte(35) == 0xD941
        &&& crc_of_byte(36) == 0x1B00
        &&& crc_of_byte(37) == 0xDBC1
        &&& crc_of_byte(38) == 0xDA81
        &&& crc_of_byte(39) == 0x1A40
        &&& crc_of_byte(40) == 0x1E00
        &&& crc_of_byte(41) == 0xDEC1
        &&& crc_of_byte(42) == 0xDF81
        &&& crc_of_byte(43) == 0x1F40
        &&& crc_of_byte(44) == 0xDD01
        &&& crc_of_byte(45) == 0x1DC0
        &&& crc_of_byte(46) == 0x1C80
        &&& crc_of_byte(47) == 0xDC41
        &&& crc_of_byte(48) == 0x1400
        &&& crc_of_byte(49) == 0xD4C1
        &&& crc_of_byte(50) == 0xD581
        &&& crc_of_byte(51) == 0x1540
        &&& crc_of_byte(52) == 0xD701
        &&& crc_of_byte(53) == 0x17C0
        &&& crc_of_byte(54) == 0x1680
        &&& crc_of_byte(55) == 0xD641
        &&& crc_of_byte(56) == 0xD201
        &&& crc_of_byte(57) == 0x12C0
        &&& crc_of_byte(58) == 0x1380
        &&& crc_of_byte(59) == 0xD341
        &&& crc_of_byte(60) == 0x1100
        &&& crc_of_byte(61) == 0xD1C1
        &&& crc_of_byte(62) == 0xD081
        &&& crc_of_byte(63) == 0x1040
    }) by (bit_vector);
}

proof fn lemma_crc_table_1(i: int)
    requires
        64 <= i < 128,
    ensures
        CRC_TABLE@[i] == crc_of_byte(i as u16),
{
    assert({
        &&& crc_of_byte(64) == 0xF001
        &&& crc_of_byte(65) == 0x30C0
        &&& crc_of_byte(66) == 0x3180
        &&& crc_of_byte(67) == 0xF141
        &&& crc_of_byte(68) == 0x3300
        &&& crc_of_byte(69) == 0xF3C1
        &&& crc_of_byte(70) == 0xF281
        &&& crc_of_byte(71) == 0x3240
        &&& crc_of_byte(72) == 0x3600
        &&& crc_of_byte(73) == 0xF6C1
        &&& crc_of_byte(74) == 0xF781
        &&& crc_of_byte(75) == 0x3740
        &&& crc_of_byte(76) == 0xF501
        &&& crc_of_byte(77) == 0x35C0
        &&& crc_of_byte(78) == 0x3480
        &&& crc_of_byte(79) == 0xF441
        &&& crc_of_byte(80) == 0x3C00
        &&& crc_of_byte(81) == 0xFCC1
        &&& crc_of_byte(82) == 0xFD81
        &&& crc_of_byte(83) == 0x3D40
        &&& crc_of_byte(84) == 0xFF01
        &&& crc_of_byte(85) == 0x3FC0
        &&& crc_of_byte(86) == 0x3E80
        &&& crc_of_byte(87) == 0xFE41
        &&& crc_of_byte(88) == 0xFA01
        &&& crc_of_byte(89) == 0x3AC0
        &&& crc_of_byte(90) == 0x3B80
        &&& crc_of_byte(91) == 0xFB41
        &&& crc_of_byte(92) == 0x3900
        &&& crc_of_byte(93) == 0xF9C1
        &&& crc_of_byte(94) == 0xF881
        &&& crc_of_byte(95) == 0x3840
        &&& crc_of_byte(96) == 0x2800
        &&& crc_of_byte(97) == 0xE8C1
        &&& crc_of_byte(98) == 0xE981
        &&& crc_of_byte(99) == 0x2940
        &&& crc_of_byte(100) == 0xEB01
        &&& crc_of_byte(101) == 0x2BC0
        &&& crc_of_byte(102) == 0x2A80
        &&& crc_of_byte(103) == 0xEA41
        &&& crc_of_byte(104) == 0xEE01
        &&& crc_of_byte(105) == 0x2EC0
        &&& crc_of_byte(106) == 0x2F80
        &&& crc_of_byte(107) == 0xEF41
        &&& crc_of_byte(108) == 0x2D00
        &&& crc_of_byte(109) == 0xEDC1
        &&& crc_of_byte(110) == 0xEC81
        &&& crc_of_byte(111) == 0x2C40
        &&& crc_of_byte(112) == 0xE401
        &&& crc_of_byte(113) == 0x24C0
        &&& crc_of_byte(114) == 0x2580
        &&& crc_of_byte(115) == 0xE541
        &&& crc_of_byte(116) == 0x2700
        &&& crc_of_byte(117) == 0xE7C1
        &&& crc_of_byte(118) == 0xE681
        &&& crc_of_byte(119) == 0x2640
        &&& crc_of_byte(120) == 0x2200
        &&& crc_of_byte(121) == 0xE2C1
        &&& crc_of_byte(122) == 0xE381
        &&& crc_of_byte(123) == 0x2340
        &&& crc_of_byte(124) == 0xE101
        &&& crc_of_byte(125) == 0x21C0
        &&& crc_of_byte(126) == 0x2080
        &&& crc_of_byte(127) == 0xE041
    }) by (bit_vector);
}

proof fn lemma_crc_table_2(i: int)
    requires
        128 <= i < 192,
    ensures
        CRC_TABLE@[i] == crc_of_byte(i as u16),
{
    assert({
        &&& crc_of_byte(128) == 0xA001
        &&& crc_of_byte(129) == 0x60C0
        &&& crc_of_byte(130) == 0x6180
        &&& crc_of_byte(131) == 0xA141
        &&& crc_of_byte(132) == 0x6300
        &&& crc_of_byte(133) == 0xA3C1
        &&& crc_of_byte(134) == 0xA281
        &&& crc_of_byte(135) == 0x6240
        &&& crc_of_byte(136) == 0x6600
        &&& crc_of_byte(137) == 0xA6C1
        &&& crc_of_byte(138) == 0xA781
        &&& crc_of_byte(139) == 0x6740
        &&& crc_of_byte(140) == 0xA501
        &&& crc_of_byte(141) == 0x65C0
        &&& crc_of_byte(142) == 0x6480
        &&& crc_of_byte(143) == 0xA441
        &&& crc_of_byte(144) == 0x6C00
        &&& crc_of_byte(145) == 0xACC1
        &&& crc_of_byte(146) == 0xAD81
        &&& crc_of_byte(147) == 0x6D40
        &&& crc_of_byte(148) == 0xAF01
        &&& crc_of_byte(149) == 0x6FC0
        &&& crc_of_byte(150) == 0x6E80
        &&& crc_of_byte(151) == 0xAE41
        &&& crc_of_byte(152) == 0xAA01
        &&& crc_of_byte(153) == 0x6AC0
        &&& crc_of_byte(154) == 0x6B80
        &&& crc_of_byte(155) == 0xAB41
        &&& crc_of_byte(156) == 0x6900
        &&& crc_of_byte(157) == 0xA9C1
        &&& crc_of_byte(158) == 0xA881
        &&& crc_of_byte(159) == 0x6840
        &&& crc_of_byte(160) == 0x7800
        &&& crc_of_byte(161) == 0xB8C1
        &&& crc_of_byte(162) == 0xB981
        &&& crc_of_byte(163) == 0x7940
        &&& crc_of_byte(164) == 0xBB01
        &&& crc_of_byte(165) == 0x7BC0
        &&& crc_of_byte(166) == 0x7A80
        &&& crc_of_byte(167) == 0xBA41
        &&& crc_of_byte(168) == 0xBE01
        &&& crc_of_byte(169) == 0x7EC0
        &&& crc_of_byte(170) == 0x7F80
        &&& crc_of_byte(171) == 0xBF41
        &&& crc_of_byte(172) == 0x7D00
        &&& crc_of_byte(173) == 0xBDC1
        &&& crc_of_byte(174) == 0xBC81
        &&& crc_of_byte(175) == 0x7C40
        &&& crc_of_byte(176) == 0xB401
        &&& crc_of_byte(177) == 0x74C0
        &&& crc_of_byte(178) == 0x7580
        &&& crc_of_byte(179) == 0xB541
        &&& crc_of_byte(180) == 0x7700
        &&& crc_of_byte(181) == 0xB7C1
        &&& crc_of_byte(182) == 0xB681
        &&& crc_of_byte(183) == 0x7640
        &&& crc_of_byte(184) == 0x7200
        &&& crc_of_byte(185) == 0xB2C1
        &&& crc_of_byte(186) == 0xB381
        &&& crc_of_byte(187) == 0x7340
        &&& crc_of_byte(188) == 0xB101
        &&& crc_of_byte(189) == 0x71C0
        &&& crc_of_byte(190) == 0x7080
        &&& crc_of_byte(191) == 0xB041
    }) by (bit_vector);
}

proof fn lemma_crc_table_3(i: int)
    requires
        192 <= i < 256,
    ensures
        CRC_TABLE@[i] == crc_of_byte(i as u16),
{
    assert({
        &&& crc_of_byte(192) == 0x5000
        &&& crc_of_byte(193) == 0x90C1
        &&& crc_of_byte(194) == 0x9181
        &&& crc_of_byte(195) == 0x5140
        &&& crc_of_byte(196) == 0x9301
        &&& crc_of_byte(197) == 0x53C0
        &&& crc_of_byte(198) == 0x5280
        &&& crc_of_byte(199) == 0x9241
        &&& crc_of_byte(200) == 0x9601
        &&& crc_of_byte(201) == 0x56C0
        &&& crc_of_byte(202) == 0x5780
        &&& crc_of_byte(203) == 0x9741
        &&& crc_of_byte(204) == 0x5500
        &&& crc_of_byte(205) == 0x95C1
        &&& crc_of_byte(206) == 0x9481
        &&& crc_of_byte(207) == 0x5440
        &&& crc_of_byte(208) == 0x9C01
        &&& crc_of_byte(209) == 0x5CC0
        &&& crc_of_byte(210) == 0x5D80
        &&& crc_of_byte(211) == 0x9D41
        &&& crc_of_byte(212) == 0x5F00
        &&& crc_of_byte(213) == 0x9FC1
        &&& crc_of_byte(214) == 0x9E81
        &&& crc_of_byte(215) == 0x5E40
        &&& crc_of_byte(216) == 0x5A00
        &&& crc_of_byte(217) == 0x9AC1
        &&& crc_of_byte(218) == 0x9B81
        &&& crc_of_byte(219) == 0x5B40
        &&& crc_of_byte(220) == 0x9901
        &&& crc_of_byte(221) == 0x59C0
        &&& crc_of_byte(222) == 0x5880
        &&& crc_of_byte(223) == 0x9841
        &&& crc_of_byte(224) == 0x8801
        &&& crc_of_byte(225) == 0x48C0
        &&& crc_of_byte(226) == 0x4980
        &&& crc_of_byte(227) == 0x8941
        &&& crc_of_byte(228) == 0x4B00
        &&& crc_of_byte(229) == 0x8BC1
        &&& crc_of_byte(230) == 0x8A81
        &&& crc_of_byte(231) == 0x4A40
        &&& crc_of_byte(232) == 0x4E00
        &&& crc_of_byte(233) == 0x8EC1
        &&& crc_of_byte(234) == 0x8F81
        &&& crc_of_byte(235) == 0x4F40
        &&& crc_of_byte(236) == 0x8D01
        &&& crc_of_byte(237) == 0x4DC0
        &&& crc_of_byte(238) == 0x4C80
        &&& crc_of_byte(239) == 0x8C41
        &&& crc_of_byte(240) == 0x4400
        &&& crc_of_byte(241) == 0x84C1
        &&& crc_of_byte(242) == 0x8581
        &&& crc_of_byte(243) == 0x4540
        &&& crc_of_byte(244) == 0x8701
        &&& crc_of_byte(245) == 0x47C0
        &&& crc_of_byte(246) == 0x4680
        &&& crc_of_byte(247) == 0x8641
        &&& crc_of_byte(248) == 0x8201
        &&& crc_of_byte(249) == 0x42C0
        &&& crc_of_byte(250) == 0x4380
        &&& crc_of_byte(251) == 0x8341
        &&& crc_of_byte(252) == 0x4100
        &&& crc_of_byte(253) == 0x81C1
        &&& crc_of_byte(254) == 0x8081
        &&& crc_of_byte(255) == 0x4040
    }) by (bit_vector);
}

/// Each entry of the table is what eight shifts make of its index.
pub proof fn lemma_crc_table(i: int)
    requires
        0 <= i < 256,
    ensures
        CRC_TABLE@[i] == crc_of_byte(i as u16),
{
    if i < 64 {
        lemma_crc_table_0(i);
    } else if i < 128 {
        lemma_crc_table_1(i);
    } else if i < 192 {
        lemma_crc_table_2(i);
    } else {
        lemma_crc_table_3(i);
    }
}

} // verus!
