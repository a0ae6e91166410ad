use vstd::prelude::*;
use crate::range_table::{sorted_from, RangeEntry, RangeKind};

verus! {

/// The Unicode version, as `(major, minor, update)`, that `WIDTH_RANGES` follows.
pub const UNICODE_VERSION: (u64, u64, u64) = (14, 0, 0);

/// Number of explicit ranges in `WIDTH_RANGES`.
pub const WIDTH_RANGES_LEN: usize = 646;

/// The explicitly classified code-point ranges, as inclusive `(low, high, kind)`
/// triples in increasing order. Code points outside every range are narrow.
/// Combining marks, format characters (but U+00AD), U+200B and the Hangul
/// medial vowels and final consonants U+1160..=U+11FF are zero width; East
/// Asian Wide and Fullwidth characters are wide; East Asian Ambiguous
/// characters are ambiguous.
pub const WIDTH_RANGES: [RangeEntry; WIDTH_RANGES_LEN] = [
    (0xA1, 0xA1, RangeKind::Ambiguous),
    (0xA4, 0xA4, RangeKind::Ambiguous),
    (0xA7, 0xA8, RangeKind::Ambiguous),
    (0xAA, 0xAA, RangeKind::Ambiguous),
    (0xAD, 0xAE, RangeKind::Ambiguous),
    (0xB0, 0xB4, RangeKind::Ambiguous),
    (0xB6, 0xBA, RangeKind::Ambiguous),
    (0xBC, 0xBF, RangeKind::Ambiguous),
    (0xC6, 0xC6, RangeKind::Ambiguous),
    (0xD0, 0xD0, RangeKind::Ambiguous),
    (0xD7, 0xD8, RangeKind::Ambiguous),
    (0xDE, 0xE1, RangeKind::Ambiguous),
    (0xE6, 0xE6, RangeKind::Ambiguous),
    (0xE8, 0xEA, RangeKind::Ambiguous),
    (0xEC, 0xED, RangeKind::Ambiguous),
    (0xF0, 0xF0, RangeKind::Ambiguous),
    (0xF2, 0xF3, RangeKind::Ambiguous),
    (0xF7, 0xFA, RangeKind::Ambiguous),
    (0xFC, 0xFC, RangeKind::Ambiguous),
    (0xFE, 0xFE, RangeKind::Ambiguous),
    (0x101, 0x101, RangeKind::Ambiguous),
    (0x111, 0x111, RangeKind::Ambiguous),
    (0x113, 0x113, RangeKind::Ambiguous),
    (0x11B, 0x11B, RangeKind::Ambiguous),
    (0x126, 0x127, RangeKind::Ambiguous),
    (0x12B, 0x12B, RangeKind::Ambiguous),
    (0x131, 0x133, RangeKind::Ambiguous),
    (0x138, 0x138, RangeKind::Ambiguous),
    (0x13F, 0x142, RangeKind::Ambiguous),
    (0x144, 0x144, RangeKind::Ambiguous),
    (0x148, 0x14B, RangeKind::Ambiguous),
    (0x14D, 0x14D, RangeKind::Ambiguous),
    (0x152, 0x153, RangeKind::Ambiguous),
    (0x166, 0x167, RangeKind::Ambiguous),
    (0x16B, 0x16B, RangeKind::Ambiguous),
    (0x1CE, 0x1CE, RangeKind::Ambiguous),
    (0x1D0, 0x1D0, RangeKind::Ambiguous),
    (0x1D2, 0x1D2, RangeKind::Ambiguous),
    (0x1D4, 0x1D4, RangeKind::Ambiguous),
    (0x1D6, 0x1D6, RangeKind::Ambiguous),
    (0x1D8, 0x1D8, RangeKind::Ambiguous),
    (0x1DA, 0x1DA, RangeKind::Ambiguous),
    (0x1DC, 0x1DC, RangeKind::Ambiguous),
    (0x251, 0x251, RangeKind::Ambiguous),
    (0x261, 0x261, RangeKind::Ambiguous),
    (0x2C4, 0x2C4, RangeKind::Ambiguous),
    (0x2C7, 0x2C7, RangeKind::Ambiguous),
    (0x2C9, 0x2CB, RangeKind::Ambiguous),
    (0x2CD, 0x2CD, RangeKind::Ambiguous),
    (0x2D0, 0x2D0, RangeKind::Ambiguous),
    (0x2D8, 0x2DB, RangeKind::Ambiguous),
    (0x2DD, 0x2DD, RangeKind::Ambiguous),
    (0x2DF, 0x2DF, RangeKind::Ambiguous),
    (0x300, 0x36F, RangeKind::Zero),
    (0x391, 0x3A1, RangeKind::Ambiguous),
    (0x3A3, 0x3A9, RangeKind::Ambiguous),
    (0x3B1, 0x3C1, RangeKind::Ambiguous),
    (0x3C3, 0x3C9, RangeKind::Ambiguous),
    (0x401, 0x401, RangeKind::Ambiguous),
    (0x410, 0x44F, RangeKind::Ambiguous),
    (0x451, 0x451, RangeKind::Ambiguous),
    (0x483, 0x489, RangeKind::Zero),
    (0x591, 0x5BD, RangeKind::Zero),
    (0x5BF, 0x5BF, RangeKind::Zero),
    (0x5C1, 0x5C2, RangeKind::Zero),
    (0x5C4, 0x5C5, RangeKind::Zero),
    (0x5C7, 0x5C7, RangeKind::Zero),
    (0x600, 0x605, RangeKind::Zero),
    (0x610, 0x61A, RangeKind::Zero),
    (0x61C, 0x61C, RangeKind::Zero),
    (0x64B, 0x65F, RangeKind::Zero),
    (0x670, 0x670, RangeKind::Zero),
    (0x6D6, 0x6DD, RangeKind::Zero),
    (0x6DF, 0x6E4, RangeKind::Zero),
    (0x6E7, 0x6E8, RangeKind::Zero),
    (0x6EA, 0x6ED, RangeKind::Zero),
    (0x70F, 0x70F, RangeKind::Zero),
    (0x711, 0x711, RangeKind::Zero),
    (0x730, 0x74A, RangeKind::Zero),
    (0x7A6, 0x7B0, RangeKind::Zero),
    (0x7EB, 0x7F3, RangeKind::Zero),
    (0x7FD, 0x7FD, RangeKind::Zero),
    (0x816, 0x819, RangeKind::Zero),
    (0x81B, 0x823, RangeKind::Zero),
    (0x825, 0x827, RangeKind::Zero),
    (0x829, 0x82D, RangeKind::Zero),
    (0x859, 0x85B, RangeKind::Zero),
    (0x890, 0x891, RangeKind::Zero),
    (0x898, 0x89F, RangeKind::Zero),
    (0x8CA, 0x902, RangeKind::Zero),
    (0x93A, 0x93A, RangeKind::Zero),
    (0x93C, 0x93C, RangeKind::Zero),
    (0x941, 0x948, RangeKind::Zero),
    (0x94D, 0x94D, RangeKind::Zero),
    (0x951, 0x957, RangeKind::Zero),
    (0x962, 0x963, RangeKind::Zero),
    (0x981, 0x981, RangeKind::Zero),
    (0x9BC, 0x9BC, RangeKind::Zero),
    (0x9C1, 0x9C4, RangeKind::Zero),
    (0x9CD, 0x9CD, RangeKind::Zero),
    (0x9E2, 0x9E3, RangeKind::Zero),
    (0x9FE, 0x9FE, RangeKind::Zero),
    (0xA01, 0xA02, RangeKind::Zero),
    (0xA3C, 0xA3C, RangeKind::Zero),
    (0xA41, 0xA42, RangeKind::Zero),
    (0xA47, 0xA48, RangeKind::Zero),
    (0xA4B, 0xA4D, RangeKind::Zero),
    (0xA51, 0xA51, RangeKind::Zero),
    (0xA70, 0xA71, RangeKind::Zero),
    (0xA75, 0xA75, RangeKind::Zero),
    (0xA81, 0xA82, RangeKind::Zero),
    (0xABC, 0xABC, RangeKind::Zero),
    (0xAC1, 0xAC5, RangeKind::Zero),
    (0xAC7, 0xAC8, RangeKind::Zero),
    (0xACD, 0xACD, RangeKind::Zero),
    (0xAE2, 0xAE3, RangeKind::Zero),
    (0xAFA, 0xAFF, RangeKind::Zero),
    (0xB01, 0xB01, RangeKind::Zero),
    (0xB3C, 0xB3C, RangeKind::Zero),
    (0xB3F, 0xB3F, RangeKind::Zero),
    (0xB41, 0xB44, RangeKind::Zero),
    (0xB4D, 0xB4D, RangeKind::Zero),
    (0xB55, 0xB56, RangeKind::Zero),
    (0xB62, 0xB63, RangeKind::Zero),
    (0xB82, 0xB82, RangeKind::Zero),
    (0xBC0, 0xBC0, RangeKind::Zero),
    (0xBCD, 0xBCD, RangeKind::Zero),
    (0xC00, 0xC00, RangeKind::Zero),
    (0xC04, 0xC04, RangeKind::Zero),
    (0xC3C, 0xC3C, RangeKind::Zero),
    (0xC3E, 0xC40, RangeKind::Zero),
    (0xC46, 0xC48, RangeKind::Zero),
    (0xC4A, 0xC4D, RangeKind::Zero),
    (0xC55, 0xC56, RangeKind::Zero),
    (0xC62, 0xC63, RangeKind::Zero),
    (0xC81, 0xC81, RangeKind::Zero),
    (0xCBC, 0xCBC, RangeKind::Zero),
    (0xCBF, 0xCBF, RangeKind::Zero),
    (0xCC6, 0xCC6, RangeKind::Zero),
    (0xCCC, 0xCCD, RangeKind::Zero),
    (0xCE2, 0xCE3, RangeKind::Zero),
    (0xD00, 0xD01, RangeKind::Zero),
    (0xD3B, 0xD3C, RangeKind::Zero),
    (0xD41, 0xD44, RangeKind::Zero),
    (0xD4D, 0xD4D, RangeKind::Zero),
    (0xD62, 0xD63, RangeKind::Zero),
    (0xD81, 0xD81, RangeKind::Zero),
    (0xDCA, 0xDCA, RangeKind::Zero),
    (0xDD2, 0xDD4, RangeKind::Zero),
    (0xDD6, 0xDD6, RangeKind::Zero),
    (0xE31, 0xE31, RangeKind::Zero),
    (0xE34, 0xE3A, RangeKind::Zero),
    (0xE47, 0xE4E, RangeKind::Zero),
    (0xEB1, 0xEB1, RangeKind::Zero),
    (0xEB4, 0xEBC, RangeKind::Zero),
    (0xEC8, 0xECD, RangeKind::Zero),
    (0xF18, 0xF19, RangeKind::Zero),
    (0xF35, 0xF35, RangeKind::Zero),
    (0xF37, 0xF37, RangeKind::Zero),
    (0xF39, 0xF39, RangeKind::Zero),
    (0xF71, 0xF7E, RangeKind::Zero),
    (0xF80, 0xF84, RangeKind::Zero),
    (0xF86, 0xF87, RangeKind::Zero),
    (0xF8D, 0xF97, RangeKind::Zero),
    (0xF99, 0xFBC, RangeKind::Zero),
    (0xFC6, 0xFC6, RangeKind::Zero),
    (0x102D, 0x1030, RangeKind::Zero),
    (0x1032, 0x1037, RangeKind::Zero),
    (0x1039, 0x103A, RangeKind::Zero),
    (0x103D, 0x103E, RangeKind::Zero),
    (0x1058, 0x1059, RangeKind::Zero),
    (0x105E, 0x1060, RangeKind::Zero),
    (0x1071, 0x1074, RangeKind::Zero),
    (0x1082, 0x1082, RangeKind::Zero),
    (0x1085, 0x1086, RangeKind::Zero),
    (0x108D, 0x108D, RangeKind::Zero),
    (0x109D, 0x109D, RangeKind::Zero),
    (0x1100, 0x115F, RangeKind::Wide),
    (0x1160, 0x11FF, RangeKind::Zero),
    (0x135D, 0x135F, RangeKind::Zero),
    (0x1712, 0x1714, RangeKind::Zero),
    (0x1732, 0x1733, RangeKind::Zero),
    (0x1752, 0x1753, RangeKind::Zero),
    (0x1772, 0x1773, RangeKind::Zero),
    (0x17B4, 0x17B5, RangeKind::Zero),
    (0x17B7, 0x17BD, RangeKind::Zero),
    (0x17C6, 0x17C6, RangeKind::Zero),
    (0x17C9, 0x17D3, RangeKind::Zero),
    (0x17DD, 0x17DD, RangeKind::Zero),
    (0x180B, 0x180F, RangeKind::Zero),
    (0x1885, 0x1886, RangeKind::Zero),
    (0x18A9, 0x18A9, RangeKind::Zero),
    (0x1920, 0x1922, RangeKind::Zero),
    (0x1927, 0x1928, RangeKind::Zero),
    (0x1932, 0x1932, RangeKind::Zero),
    (0x1939, 0x193B, RangeKind::Zero),
    (0x1A17, 0x1A18, RangeKind::Zero),
    (0x1A1B, 0x1A1B, RangeKind::Zero),
    (0x1A56, 0x1A56, RangeKind::Zero),
    (0x1A58, 0x1A5E, RangeKind::Zero),
    (0x1A60, 0x1A60, RangeKind::Zero),
    (0x1A62, 0x1A62, RangeKind::Zero),
    (0x1A65, 0x1A6C, RangeKind::Zero),
    (0x1A73, 0x1A7C, RangeKind::Zero),
    (0x1A7F, 0x1A7F, RangeKind::Zero),
    (0x1AB0, 0x1ACE, RangeKind::Zero),
    (0x1B00, 0x1B03, RangeKind::Zero),
    (0x1B34, 0x1B34, RangeKind::Zero),
    (0x1B36, 0x1B3A, RangeKind::Zero),
    (0x1B3C, 0x1B3C, RangeKind::Zero),
    (0x1B42, 0x1B42, RangeKind::Zero),
    (0x1B6B, 0x1B73, RangeKind::Zero),
    (0x1B80, 0x1B81, RangeKind::Zero),
    (0x1BA2, 0x1BA5, RangeKind::Zero),
    (0x1BA8, 0x1BA9, RangeKind::Zero),
    (0x1BAB, 0x1BAD, RangeKind::Zero),
    (0x1BE6, 0x1BE6, RangeKind::Zero),
    (0x1BE8, 0x1BE9, RangeKind::Zero),
    (0x1BED, 0x1BED, RangeKind::Zero),
    (0x1BEF, 0x1BF1, RangeKind::Zero),
    (0x1C2C, 0x1C33, RangeKind::Zero),
    (0x1C36, 0x1C37, RangeKind::Zero),
    (0x1CD0, 0x1CD2, RangeKind::Zero),
    (0x1CD4, 0x1CE0, RangeKind::Zero),
    (0x1CE2, 0x1CE8, RangeKind::Zero),
    (0x1CED, 0x1CED, RangeKind::Zero),
    (0x1CF4, 0x1CF4, RangeKind::Zero),
    (0x1CF8, 0x1CF9, RangeKind::Zero),
    (0x1DC0, 0x1DFF, RangeKind::Zero),
    (0x200B, 0x200F, RangeKind::Zero),
    (0x2010, 0x2010, RangeKind::Ambiguous),
    (0x2013, 0x2016, RangeKind::Ambiguous),
    (0x2018, 0x2019, RangeKind::Ambiguous),
    (0x201C, 0x201D, RangeKind::Ambiguous),
    (0x2020, 0x2022, RangeKind::Ambiguous),
    (0x2024, 0x2027, RangeKind::Ambiguous),
    (0x202A, 0x202E, RangeKind::Zero),
    (0x2030, 0x2030, RangeKind::Ambiguous),
    (0x2032, 0x2033, RangeKind::Ambiguous),
    (0x2035, 0x2035, RangeKind::Ambiguous),
    (0x203B, 0x203B, RangeKind::Ambiguous),
    (0x203E, 0x203E, RangeKind::Ambiguous),
    (0x2060, 0x2064, RangeKind::Zero),
    (0x2066, 0x206F, RangeKind::Zero),
    (0x2074, 0x2074, RangeKind::Ambiguous),
    (0x207F, 0x207F, RangeKind::Ambiguous),
    (0x2081, 0x2084, RangeKind::Ambiguous),
    (0x20AC, 0x20AC, RangeKind::Ambiguous),
    (0x20D0, 0x20F0, RangeKind::Zero),
    (0x2103, 0x2103, RangeKind::Ambiguous),
    (0x2105, 0x2105, RangeKind::Ambiguous),
    (0x2109, 0x2109, RangeKind::Ambiguous),
    (0x2113, 0x2113, RangeKind::Ambiguous),
    (0x2116, 0x2116, RangeKind::Ambiguous),
    (0x2121, 0x2122, RangeKind::Ambiguous),
    (0x2126, 0x2126, RangeKind::Ambiguous),
    (0x212B, 0x212B, RangeKind::Ambiguous),
    (0x2153, 0x2154, RangeKind::Ambiguous),
    (0x215B, 0x215E, RangeKind::Ambiguous),
    (0x2160, 0x216B, RangeKind::Ambiguous),
    (0x2170, 0x2179, RangeKind::Ambiguous),
    (0x2189, 0x2189, RangeKind::Ambiguous),
    (0x2190, 0x2199, RangeKind::Ambiguous),
    (0x21B8, 0x21B9, RangeKind::Ambiguous),
    (0x21D2, 0x21D2, RangeKind::Ambiguous),
    (0x21D4, 0x21D4, RangeKind::Ambiguous),
    (0x21E7, 0x21E7, RangeKind::Ambiguous),
    (0x2200, 0x2200, RangeKind::Ambiguous),
    (0x2202, 0x2203, RangeKind::Ambiguous),
    (0x2207, 0x2208, RangeKind::Ambiguous),
    (0x220B, 0x220B, RangeKind::Ambiguous),
    (0x220F, 0x220F, RangeKind::Ambiguous),
    (0x2211, 0x2211, RangeKind::Ambiguous),
    (0x2215, 0x2215, RangeKind::Ambiguous),
    (0x221A, 0x221A, RangeKind::Ambiguous),
    (0x221D, 0x2220, RangeKind::Ambiguous),
    (0x2223, 0x2223, RangeKind::Ambiguous),
    (0x2225, 0x2225, RangeKind::Ambiguous),
    (0x2227, 0x222C, RangeKind::Ambiguous),
    (0x222E, 0x222E, RangeKind::Ambiguous),
    (0x2234, 0x2237, RangeKind::Ambiguous),
    (0x223C, 0x223D, RangeKind::Ambiguous),
    (0x2248, 0x2248, RangeKind::Ambiguous),
    (0x224C, 0x224C, RangeKind::Ambiguous),
    (0x2252, 0x2252, RangeKind::Ambiguous),
    (0x2260, 0x2261, RangeKind::Ambiguous),
    (0x2264, 0x2267, RangeKind::Ambiguous),
    (0x226A, 0x226B, RangeKind::Ambiguous),
    (0x226E, 0x226F, RangeKind::Ambiguous),
    (0x2282, 0x2283, RangeKind::Ambiguous),
    (0x2286, 0x2287, RangeKind::Ambiguous),
    (0x2295, 0x2295, RangeKind::Ambiguous),
    (0x2299, 0x2299, RangeKind::Ambiguous),
    (0x22A5, 0x22A5, RangeKind::Ambiguous),
    (0x22BF, 0x22BF, RangeKind::Ambiguous),
    (0x2312, 0x2312, RangeKind::Ambiguous),
    (0x231A, 0x231B, RangeKind::Wide),
    (0x2329, 0x232A, RangeKind::Wide),
    (0x23E9, 0x23EC, RangeKind::Wide),
    (0x23F0, 0x23F0, RangeKind::Wide),
    (0x23F3, 0x23F3, RangeKind::Wide),
    (0x2460, 0x24E9, RangeKind::Ambiguous),
    (0x24EB, 0x254B, RangeKind::Ambiguous),
    (0x2550, 0x2573, RangeKind::Ambiguous),
    (0x2580, 0x258F, RangeKind::Ambiguous),
    (0x2592, 0x2595, RangeKind::Ambiguous),
    (0x25A0, 0x25A1, RangeKind::Ambiguous),
    (0x25A3, 0x25A9, RangeKind::Ambiguous),
    (0x25B2, 0x25B3, RangeKind::Ambiguous),
    (0x25B6, 0x25B7, RangeKind::Ambiguous),
    (0x25BC, 0x25BD, RangeKind::Ambiguous),
    (0x25C0, 0x25C1, RangeKind::Ambiguous),
    (0x25C6, 0x25C8, RangeKind::Ambiguous),
    (0x25CB, 0x25CB, RangeKind::Ambiguous),
    (0x25CE, 0x25D1, RangeKind::Ambiguous),
    (0x25E2, 0x25E5, RangeKind::Ambiguous),
    (0x25EF, 0x25EF, RangeKind::Ambiguous),
    (0x25FD, 0x25FE, RangeKind::Wide),
    (0x2605, 0x2606, RangeKind::Ambiguous),
    (0x2609, 0x2609, RangeKind::Ambiguous),
    (0x260E, 0x260F, RangeKind::Ambiguous),
    (0x2614, 0x2615, RangeKind::Wide),
    (0x261C, 0x261C, RangeKind::Ambiguous),
    (0x261E, 0x261E, RangeKind::Ambiguous),
    (0x2640, 0x2640, RangeKind::Ambiguous),
    (0x2642, 0x2642, RangeKind::Ambiguous),
    (0x2648, 0x2653, RangeKind::Wide),
    (0x2660, 0x2661, RangeKind::Ambiguous),
    (0x2663, 0x2665, RangeKind::Ambiguous),
    (0x2667, 0x266A, RangeKind::Ambiguous),
    (0x266C, 0x266D, RangeKind::Ambiguous),
    (0x266F, 0x266F, RangeKind::Ambiguous),
    (0x267F, 0x267F, RangeKind::Wide),
    (0x2693, 0x2693, RangeKind::Wide),
    (0x269E, 0x269F, RangeKind::Ambiguous),
    (0x26A1, 0x26A1, RangeKind::Wide),
    (0x26AA, 0x26AB, RangeKind::Wide),
    (0x26BD, 0x26BE, RangeKind::Wide),
    (0x26BF, 0x26BF, RangeKind::Ambiguous),
    (0x26C4, 0x26C5, RangeKind::Wide),
    (0x26C6, 0x26CD, RangeKind::Ambiguous),
    (0x26CE, 0x26CE, RangeKind::Wide),
    (0x26CF, 0x26D3, RangeKind::Ambiguous),
    (0x26D4, 0x26D4, RangeKind::Wide),
    (0x26D5, 0x26E1, RangeKind::Ambiguous),
    (0x26E3, 0x26E3, RangeKind::Ambiguous),
    (0x26E8, 0x26E9, RangeKind::Ambiguous),
    (0x26EA, 0x26EA, RangeKind::Wide),
    (0x26EB, 0x26F1, RangeKind::Ambiguous),
    (0x26F2, 0x26F3, RangeKind::Wide),
    (0x26F4, 0x26F4, RangeKind::Ambiguous),
    (0x26F5, 0x26F5, RangeKind::Wide),
    (0x26F6, 0x26F9, RangeKind::Ambiguous),
    (0x26FA, 0x26FA, RangeKind::Wide),
    (0x26FB, 0x26FC, RangeKind::Ambiguous),
    (0x26FD, 0x26FD, RangeKind::Wide),
    (0x26FE, 0x26FF, RangeKind::Ambiguous),
    (0x2705, 0x2705, RangeKind::Wide),
    (0x270A, 0x270B, RangeKind::Wide),
    (0x2728, 0x2728, RangeKind::Wide),
    (0x273D, 0x273D, RangeKind::Ambiguous),
    (0x274C, 0x274C, RangeKind::Wide),
    (0x274E, 0x274E, RangeKind::Wide),
    (0x2753, 0x2755, RangeKind::Wide),
    (0x2757, 0x2757, RangeKind::Wide),
    (0x2776, 0x277F, RangeKind::Ambiguous),
    (0x2795, 0x2797, RangeKind::Wide),
    (0x27B0, 0x27B0, RangeKind::Wide),
    (0x27BF, 0x27BF, RangeKind::Wide),
    (0x2B1B, 0x2B1C, RangeKind::Wide),
    (0x2B50, 0x2B50, RangeKind::Wide),
    (0x2B55, 0x2B55, RangeKind::Wide),
    (0x2B56, 0x2B59, RangeKind::Ambiguous),
    (0x2CEF, 0x2CF1, RangeKind::Zero),
    (0x2D7F, 0x2D7F, RangeKind::Zero),
    (0x2DE0, 0x2DFF, RangeKind::Zero),
    (0x2E80, 0x2E99, RangeKind::Wide),
    (0x2E9B, 0x2EF3, RangeKind::Wide),
    (0x2F00, 0x2FD5, RangeKind::Wide),
    (0x2FF0, 0x2FFB, RangeKind::Wide),
    (0x3000, 0x3029, RangeKind::Wide),
    (0x302A, 0x302D, RangeKind::Zero),
    (0x302E, 0x303E, RangeKind::Wide),
    (0x3041, 0x3096, RangeKind::Wide),
    (0x3099, 0x309A, RangeKind::Zero),
    (0x309B, 0x30FF, RangeKind::Wide),
    (0x3105, 0x312F, RangeKind::Wide),
    (0x3131, 0x318E, RangeKind::Wide),
    (0x3190, 0x31E3, RangeKind::Wide),
    (0x31F0, 0x321E, RangeKind::Wide),
    (0x3220, 0x3247, RangeKind::Wide),
    (0x3248, 0x324F, RangeKind::Ambiguous),
    (0x3250, 0x4DBF, RangeKind::Wide),
    (0x4E00, 0xA48C, RangeKind::Wide),
    (0xA490, 0xA4C6, RangeKind::Wide),
    (0xA66F, 0xA672, RangeKind::Zero),
    (0xA674, 0xA67D, RangeKind::Zero),
    (0xA69E, 0xA69F, RangeKind::Zero),
    (0xA6F0, 0xA6F1, RangeKind::Zero),
    (0xA802, 0xA802, RangeKind::Zero),
    (0xA806, 0xA806, RangeKind::Zero),
    (0xA80B, 0xA80B, RangeKind::Zero),
    (0xA825, 0xA826, RangeKind::Zero),
    (0xA82C, 0xA82C, RangeKind::Zero),
    (0xA8C4, 0xA8C5, RangeKind::Zero),
    (0xA8E0, 0xA8F1, RangeKind::Zero),
    (0xA8FF, 0xA8FF, RangeKind::Zero),
    (0xA926, 0xA92D, RangeKind::Zero),
    (0xA947, 0xA951, RangeKind::Zero),
    (0xA960, 0xA97C, RangeKind::Wide),
    (0xA980, 0xA982, RangeKind::Zero),
    (0xA9B3, 0xA9B3, RangeKind::Zero),
    (0xA9B6, 0xA9B9, RangeKind::Zero),
    (0xA9BC, 0xA9BD, RangeKind::Zero),
    (0xA9E5, 0xA9E5, RangeKind::Zero),
    (0xAA29, 0xAA2E, RangeKind::Zero),
    (0xAA31, 0xAA32, RangeKind::Zero),
    (0xAA35, 0xAA36, RangeKind::Zero),
    (0xAA43, 0xAA43, RangeKind::Zero),
    (0xAA4C, 0xAA4C, RangeKind::Zero),
    (0xAA7C, 0xAA7C, RangeKind::Zero),
    (0xAAB0, 0xAAB0, RangeKind::Zero),
    (0xAAB2, 0xAAB4, RangeKind::Zero),
    (0xAAB7, 0xAAB8, RangeKind::Zero),
    (0xAABE, 0xAABF, RangeKind::Zero),
    (0xAAC1, 0xAAC1, RangeKind::Zero),
    (0xAAEC, 0xAAED, RangeKind::Zero),
    (0xAAF6, 0xAAF6, RangeKind::Zero),
    (0xABE5, 0xABE5, RangeKind::Zero),
    (0xABE8, 0xABE8, RangeKind::Zero),
    (0xABED, 0xABED, RangeKind::Zero),
    (0xAC00, 0xD7A3, RangeKind::Wide),
    (0xE000, 0xF8FF, RangeKind::Ambiguous),
    (0xF900, 0xFAFF, RangeKind::Wide),
    (0xFB1E, 0xFB1E, RangeKind::Zero),
    (0xFE00, 0xFE0F, RangeKind::Zero),
    (0xFE10, 0xFE19, RangeKind::Wide),
    (0xFE20, 0xFE2F, RangeKind::Zero),
    (0xFE30, 0xFE52, RangeKind::Wide),
    (0xFE54, 0xFE66, RangeKind::Wide),
    (0xFE68, 0xFE6B, RangeKind::Wide),
    (0xFEFF, 0xFEFF, RangeKind::Zero),
    (0xFF01, 0xFF60, RangeKind::Wide),
    (0xFFE0, 0xFFE6, RangeKind::Wide),
    (0xFFF9, 0xFFFB, RangeKind::Zero),
    (0xFFFD, 0xFFFD, RangeKind::Ambiguous),
    (0x101FD, 0x101FD, RangeKind::Zero),
    (0x102E0, 0x102E0, RangeKind::Zero),
    (0x10376, 0x1037A, RangeKind::Zero),
    (0x10A01, 0x10A03, RangeKind::Zero),
    (0x10A05, 0x10A06, RangeKind::Zero),
    (0x10A0C, 0x10A0F, RangeKind::Zero),
    (0x10A38, 0x10A3A, RangeKind::Zero),
    (0x10A3F, 0x10A3F, RangeKind::Zero),
    (0x10AE5, 0x10AE6, RangeKind::Zero),
    (0x10D24, 0x10D27, RangeKind::Zero),
    (0x10EAB, 0x10EAC, RangeKind::Zero),
    (0x10F46, 0x10F50, RangeKind::Zero),
    (0x10F82, 0x10F85, RangeKind::Zero),
    (0x11001, 0x11001, RangeKind::Zero),
    (0x11038, 0x11046, RangeKind::Zero),
    (0x11070, 0x11070, RangeKind::Zero),
    (0x11073, 0x11074, RangeKind::Zero),
    (0x1107F, 0x11081, RangeKind::Zero),
    (0x110B3, 0x110B6, RangeKind::Zero),
    (0x110B9, 0x110BA, RangeKind::Zero),
    (0x110BD, 0x110BD, RangeKind::Zero),
    (0x110C2, 0x110C2, RangeKind::Zero),
    (0x110CD, 0x110CD, RangeKind::Zero),
    (0x11100, 0x11102, RangeKind::Zero),
    (0x11127, 0x1112B, RangeKind::Zero),
    (0x1112D, 0x11134, RangeKind::Zero),
    (0x11173, 0x11173, RangeKind::Zero),
    (0x11180, 0x11181, RangeKind::Zero),
    (0x111B6, 0x111BE, RangeKind::Zero),
    (0x111C9, 0x111CC, RangeKind::Zero),
    (0x111CF, 0x111CF, RangeKind::Zero),
    (0x1122F, 0x11231, RangeKind::Zero),
    (0x11234, 0x11234, RangeKind::Zero),
    (0x11236, 0x11237, RangeKind::Zero),
    (0x1123E, 0x1123E, RangeKind::Zero),
    (0x112DF, 0x112DF, RangeKind::Zero),
    (0x112E3, 0x112EA, RangeKind::Zero),
    (0x11300, 0x11301, RangeKind::Zero),
    (0x1133B, 0x1133C, RangeKind::Zero),
    (0x11340, 0x11340, RangeKind::Zero),
    (0x11366, 0x1136C, RangeKind::Zero),
    (0x11370, 0x11374, RangeKind::Zero),
    (0x11438, 0x1143F, RangeKind::Zero),
    (0x11442, 0x11444, RangeKind::Zero),
    (0x11446, 0x11446, RangeKind::Zero),
    (0x1145E, 0x1145E, RangeKind::Zero),
    (0x114B3, 0x114B8, RangeKind::Zero),
    (0x114BA, 0x114BA, RangeKind::Zero),
    (0x114BF, 0x114C0, RangeKind::Zero),
    (0x114C2, 0x114C3, RangeKind::Zero),
    (0x115B2, 0x115B5, RangeKind::Zero),
    (0x115BC, 0x115BD, RangeKind::Zero),
    (0x115BF, 0x115C0, RangeKind::Zero),
    (0x115DC, 0x115DD, RangeKind::Zero),
    (0x11633, 0x1163A, RangeKind::Zero),
    (0x1163D, 0x1163D, RangeKind::Zero),
    (0x1163F, 0x11640, RangeKind::Zero),
    (0x116AB, 0x116AB, RangeKind::Zero),
    (0x116AD, 0x116AD, RangeKind::Zero),
    (0x116B0, 0x116B5, RangeKind::Zero),
    (0x116B7, 0x116B7, RangeKind::Zero),
    (0x1171D, 0x1171F, RangeKind::Zero),
    (0x11722, 0x11725, RangeKind::Zero),
    (0x11727, 0x1172B, RangeKind::Zero),
    (0x1182F, 0x11837, RangeKind::Zero),
    (0x11839, 0x1183A, RangeKind::Zero),
    (0x1193B, 0x1193C, RangeKind::Zero),
    (0x1193E, 0x1193E, RangeKind::Zero),
    (0x11943, 0x11943, RangeKind::Zero),
    (0x119D4, 0x119D7, RangeKind::Zero),
    (0x119DA, 0x119DB, RangeKind::Zero),
    (0x119E0, 0x119E0, RangeKind::Zero),
    (0x11A01, 0x11A0A, RangeKind::Zero),
    (0x11A33, 0x11A38, RangeKind::Zero),
    (0x11A3B, 0x11A3E, RangeKind::Zero),
    (0x11A47, 0x11A47, RangeKind::Zero),
    (0x11A51, 0x11A56, RangeKind::Zero),
    (0x11A59, 0x11A5B, RangeKind::Zero),
    (0x11A8A, 0x11A96, RangeKind::Zero),
    (0x11A98, 0x11A99, RangeKind::Zero),
    (0x11C30, 0x11C36, RangeKind::Zero),
    (0x11C38, 0x11C3D, RangeKind::Zero),
    (0x11C3F, 0x11C3F, RangeKind::Zero),
    (0x11C92, 0x11CA7, RangeKind::Zero),
    (0x11CAA, 0x11CB0, RangeKind::Zero),
    (0x11CB2, 0x11CB3, RangeKind::Zero),
    (0x11CB5, 0x11CB6, RangeKind::Zero),
    (0x11D31, 0x11D36, RangeKind::Zero),
    (0x11D3A, 0x11D3A, RangeKind::Zero),
    (0x11D3C, 0x11D3D, RangeKind::Zero),
    (0x11D3F, 0x11D45, RangeKind::Zero),
    (0x11D47, 0x11D47, RangeKind::Zero),
    (0x11D90, 0x11D91, RangeKind::Zero),
    (0x11D95, 0x11D95, RangeKind::Zero),
    (0x11D97, 0x11D97, RangeKind::Zero),
    (0x11EF3, 0x11EF4, RangeKind::Zero),
    (0x13430, 0x13438, RangeKind::Zero),
    (0x16AF0, 0x16AF4, RangeKind::Zero),
    (0x16B30, 0x16B36, RangeKind::Zero),
    (0x16F4F, 0x16F4F, RangeKind::Zero),
    (0x16F8F, 0x16F92, RangeKind::Zero),
    (0x16FE0, 0x16FE3, RangeKind::Wide),
    (0x16FE4, 0x16FE4, RangeKind::Zero),
    (0x16FF0, 0x16FF1, RangeKind::Wide),
    (0x17000, 0x187F7, RangeKind::Wide),
    (0x18800, 0x18CD5, RangeKind::Wide),
    (0x18D00, 0x18D08, RangeKind::Wide),
    (0x1AFF0, 0x1AFF3, RangeKind::Wide),
    (0x1AFF5, 0x1AFFB, RangeKind::Wide),
    (0x1AFFD, 0x1AFFE, RangeKind::Wide),
    (0x1B000, 0x1B122, RangeKind::Wide),
    (0x1B150, 0x1B152, RangeKind::Wide),
    (0x1B164, 0x1B167, RangeKind::Wide),
    (0x1B170, 0x1B2FB, RangeKind::Wide),
    (0x1BC9D, 0x1BC9E, RangeKind::Zero),
    (0x1BCA0, 0x1BCA3, RangeKind::Zero),
    (0x1CF00, 0x1CF2D, RangeKind::Zero),
    (0x1CF30, 0x1CF46, RangeKind::Zero),
    (0x1D167, 0x1D169, RangeKind::Zero),
    (0x1D173, 0x1D182, RangeKind::Zero),
    (0x1D185, 0x1D18B, RangeKind::Zero),
    (0x1D1AA, 0x1D1AD, RangeKind::Zero),
    (0x1D242, 0x1D244, RangeKind::Zero),
    (0x1DA00, 0x1DA36, RangeKind::Zero),
    (0x1DA3B, 0x1DA6C, RangeKind::Zero),
    (0x1DA75, 0x1DA75, RangeKind::Zero),
    (0x1DA84, 0x1DA84, RangeKind::Zero),
    (0x1DA9B, 0x1DA9F, RangeKind::Zero),
    (0x1DAA1, 0x1DAAF, RangeKind::Zero),
    (0x1E000, 0x1E006, RangeKind::Zero),
    (0x1E008, 0x1E018, RangeKind::Zero),
    (0x1E01B, 0x1E021, RangeKind::Zero),
    (0x1E023, 0x1E024, RangeKind::Zero),
    (0x1E026, 0x1E02A, RangeKind::Zero),
    (0x1E130, 0x1E136, RangeKind::Zero),
    (0x1E2AE, 0x1E2AE, RangeKind::Zero),
    (0x1E2EC, 0x1E2EF, RangeKind::Zero),
    (0x1E8D0, 0x1E8D6, RangeKind::Zero),
    (0x1E944, 0x1E94A, RangeKind::Zero),
    (0x1F004, 0x1F004, RangeKind::Wide),
    (0x1F0CF, 0x1F0CF, RangeKind::Wide),
    (0x1F100, 0x1F10A, RangeKind::Ambiguous),
    (0x1F110, 0x1F12D, RangeKind::Ambiguous),
    (0x1F130, 0x1F169, RangeKind::Ambiguous),
    (0x1F170, 0x1F18D, RangeKind::Ambiguous),
    (0x1F18E, 0x1F18E, RangeKind::Wide),
    (0x1F18F, 0x1F190, RangeKind::Ambiguous),
    (0x1F191, 0x1F19A, RangeKind::Wide),
    (0x1F19B, 0x1F1AC, RangeKind::Ambiguous),
    (0x1F200, 0x1F202, RangeKind::Wide),
    (0x1F210, 0x1F23B, RangeKind::Wide),
    (0x1F240, 0x1F248, RangeKind::Wide),
    (0x1F250, 0x1F251, RangeKind::Wide),
    (0x1F260, 0x1F265, RangeKind::Wide),
    (0x1F300, 0x1F320, RangeKind::Wide),
    (0x1F32D, 0x1F335, RangeKind::Wide),
    (0x1F337, 0x1F37C, RangeKind::Wide),
    (0x1F37E, 0x1F393, RangeKind::Wide),
    (0x1F3A0, 0x1F3CA, RangeKind::Wide),
    (0x1F3CF, 0x1F3D3, RangeKind::Wide),
    (0x1F3E0, 0x1F3F0, RangeKind::Wide),
    (0x1F3F4, 0x1F3F4, RangeKind::Wide),
    (0x1F3F8, 0x1F43E, RangeKind::Wide),
    (0x1F440, 0x1F440, RangeKind::Wide),
    (0x1F442, 0x1F4FC, RangeKind::Wide),
    (0x1F4FF, 0x1F53D, RangeKind::Wide),
    (0x1F54B, 0x1F54E, RangeKind::Wide),
    (0x1F550, 0x1F567, RangeKind::Wide),
    (0x1F57A, 0x1F57A, RangeKind::Wide),
    (0x1F595, 0x1F596, RangeKind::Wide),
    (0x1F5A4, 0x1F5A4, RangeKind::Wide),
    (0x1F5FB, 0x1F64F, RangeKind::Wide),
    (0x1F680, 0x1F6C5, RangeKind::Wide),
    (0x1F6CC, 0x1F6CC, RangeKind::Wide),
    (0x1F6D0, 0x1F6D2, RangeKind::Wide),
    (0x1F6D5, 0x1F6D7, RangeKind::Wide),
    (0x1F6DD, 0x1F6DF, RangeKind::Wide),
    (0x1F6EB, 0x1F6EC, RangeKind::Wide),
    (0x1F6F4, 0x1F6FC, RangeKind::Wide),
    (0x1F7E0, 0x1F7EB, RangeKind::Wide),
    (0x1F7F0, 0x1F7F0, RangeKind::Wide),
    (0x1F90C, 0x1F93A, RangeKind::Wide),
    (0x1F93C, 0x1F945, RangeKind::Wide),
    (0x1F947, 0x1F9FF, RangeKind::Wide),
    (0x1FA70, 0x1FA74, RangeKind::Wide),
    (0x1FA78, 0x1FA7C, RangeKind::Wide),
    (0x1FA80, 0x1FA86, RangeKind::Wide),
    (0x1FA90, 0x1FAAC, RangeKind::Wide),
    (0x1FAB0, 0x1FABA, RangeKind::Wide),
    (0x1FAC0, 0x1FAC5, RangeKind::Wide),
    (0x1FAD0, 0x1FAD9, RangeKind::Wide),
    (0x1FAE0, 0x1FAE7, RangeKind::Wide),
    (0x1FAF0, 0x1FAF6, RangeKind::Wide),
    (0x20000, 0x2FFFD, RangeKind::Wide),
    (0x30000, 0x3FFFD, RangeKind::Wide),
    (0xE0001, 0xE0001, RangeKind::Zero),
    (0xE0020, 0xE007F, RangeKind::Zero),
    (0xE0100, 0xE01EF, RangeKind::Zero),
    (0xF0000, 0xFFFFD, RangeKind::Ambiguous),
    (0x100000, 0x10FFFD, RangeKind::Ambiguous),
];

proof fn lemma_sorted_from_640()
    ensures
        sorted_from(WIDTH_RANGES@, 640),
{
    reveal_with_fuel(sorted_from, 7);
}

proof fn lemma_sorted_from_600()
    requires
        sorted_from(WIDTH_RANGES@, 640),
    ensures
        sorted_from(WIDTH_RANGES@, 600),
{
    reveal_with_fuel(sorted_from, 41);
}

proof fn lemma_sorted_from_560()
    requires
        sorted_from(WIDTH_RANGES@, 600),
    ensures
        sorted_from(WIDTH_RANGES@, 560),
{
    reveal_with_fuel(sorted_from, 41);
}

proof fn lemma_sorted_from_520()
    requires
        sorted_from(WIDTH_RANGES@, 560),
    ensures
        sorted_from(WIDTH_RANGES@, 520),
{
    reveal_with_fuel(sorted_from, 41);
}

proof fn lemma_sorted_from_480()
    requires
        sorted_from(WIDTH_RANGES@, 520),
    ensures
        sorted_from(WIDTH_RANGES@, 480),
{
    reveal_with_fuel(sorted_from, 41);
}

proof fn lemma_sorted_from_440()
    requires
        sorted_from(WIDTH_RANGES@, 480),
    ensures
        sorted_from(WIDTH_RANGES@, 440),
{
    reveal_with_fuel(sorted_from, 41);
}

proof fn lemma_sorted_from_400()
    requires
        sorted_from(WIDTH_RANGES@, 440),
    ensures
        sorted_from(WIDTH_RANGES@, 400),
{
    reveal_with_fuel(sorted_from, 41);
}

proof fn lemma_sorted_from_360()
    requires
        sorted_from(WIDTH_RANGES@, 400),
    ensures
        sorted_from(WIDTH_RANGES@, 360),
{
    reveal_with_fuel(sorted_from, 41);
}

proof fn lemma_sorted_from_320()
    requires
        sorted_from(WIDTH_RANGES@, 360),
    ensures
        sorted_from(WIDTH_RANGES@, 320),
{
    reveal_with_fuel(sorted_from, 41);
}

proof fn lemma_sorted_from_280()
    requires
        sorted_from(WIDTH_RANGES@, 320),
    ensures
        sorted_from(WIDTH_RANGES@, 280),
{
    reveal_with_fuel(sorted_from, 41);
}

proof fn lemma_sorted_from_240()
    requires
        sorted_from(WIDTH_RANGES@, 280),
    ensures
        sorted_from(WIDTH_RANGES@, 240),
{
    reveal_with_fuel(sorted_from, 41);
}

proof fn lemma_sorted_from_200()
    requires
        sorted_from(WIDTH_RANGES@, 240),
    ensures
        sorted_from(WIDTH_RANGES@, 200),
{
    reveal_with_fuel(sorted_from, 41);
}

proof fn lemma_sorted_from_160()
    requires
        sorted_from(WIDTH_RANGES@, 200),
    ensures
        sorted_from(WIDTH_RANGES@, 160),
{
    reveal_with_fuel(sorted_from, 41);
}

proof fn lemma_sorted_from_120()
    requires
        sorted_from(WIDTH_RANGES@, 160),
    ensures
        sorted_from(WIDTH_RANGES@, 120),
{
    reveal_with_fuel(sorted_from, 41);
}

proof fn lemma_sorted_from_80()
    requires
        sorted_from(WIDTH_RANGES@, 120),
    ensures
        sorted_from(WIDTH_RANGES@, 80),
{
    reveal_with_fuel(sorted_from, 41);
}

proof fn lemma_sorted_from_40()
    requires
        sorted_from(WIDTH_RANGES@, 80),
    ensures
        sorted_from(WIDTH_RANGES@, 40),
{
    reveal_with_fuel(sorted_from, 41);
}

proof fn lemma_sorted_from_0()
    requires
        sorted_from(WIDTH_RANGES@, 40),
    ensures
        sorted_from(WIDTH_RANGES@, 0),
{
    reveal_with_fuel(sorted_from, 41);
}

/// The built-in ranges are ordered, non-overlapping and non-empty.
pub proof fn lemma_width_ranges_sorted()
    ensures
        sorted_from(WIDTH_RANGES@, 0),
{
    lemma_sorted_from_640();
    lemma_sorted_from_600();
    lemma_sorted_from_560();
    lemma_sorted_from_520();
    lemma_sorted_from_480();
    lemma_sorted_from_440();
    lemma_sorted_from_400();
    lemma_sorted_from_360();
    lemma_sorted_from_320();
    lemma_sorted_from_280();
    lemma_sorted_from_240();
    lemma_sorted_from_200();
    lemma_sorted_from_160();
    lemma_sorted_from_120();
    lemma_sorted_from_80();
    lemma_sorted_from_40();
    lemma_sorted_from_0();
}

} // verus!
