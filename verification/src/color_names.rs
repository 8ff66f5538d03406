//! The table of colour names.

use vstd::prelude::*;
use crate::color_conversions::ColorNameStandard;

verus! {

/// The number of names in the table.
pub const COLOR_COUNT: usize = 177;

/// Entry `i` of the table of colour names under `standard`: a name and its
/// red, green and blue. The names `gray`, `maroon` and `purple` and the
/// terminal colours (by name, by palette number and by the number of their
/// foreground code) depend on the standard; `term` is the palette of the
/// terminal, which only `MyTerm` reads. Beyond the table the entry is empty
/// and black.
pub open spec fn color_entry_spec(standard: ColorNameStandard, term: [[u8; 3]; 16], i: int) -> (
    Seq<char>,
    [u8; 3],
) {
    if i == 0 {
        ("alice blue"@, [0xf0u8, 0xf8u8, 0xffu8])
    } else if i == 1 {
        ("antique white"@, [0xfau8, 0xebu8, 0xd7u8])
    } else if i == 2 {
        ("aqua"@, [0x00u8, 0xffu8, 0xffu8])
    } else if i == 3 {
        ("aquamarine"@, [0x7fu8, 0xffu8, 0xd4u8])
    } else if i == 4 {
        ("azure"@, [0xf0u8, 0xffu8, 0xffu8])
    } else if i == 5 {
        ("beige"@, [0xf5u8, 0xf5u8, 0xdcu8])
    } else if i == 6 {
        ("bisque"@, [0xffu8, 0xe4u8, 0xc4u8])
    } else if i == 7 {
        ("blanched almond"@, [0xffu8, 0xebu8, 0xcdu8])
    } else if i == 8 {
        ("blue violet"@, [0x8au8, 0x2bu8, 0xe2u8])
    } else if i == 9 {
        ("brown"@, [0xa5u8, 0x2au8, 0x2au8])
    } else if i == 10 {
        ("burlywood"@, [0xdeu8, 0xb8u8, 0x87u8])
    } else if i == 11 {
        ("cadet blue"@, [0x5fu8, 0x9eu8, 0xa0u8])
    } else if i == 12 {
        ("chartreuse"@, [0x7fu8, 0xffu8, 0x00u8])
    } else if i == 13 {
        ("chocolate"@, [0xd2u8, 0x69u8, 0x1eu8])
    } else if i == 14 {
        ("coral"@, [0xffu8, 0x7fu8, 0x50u8])
    } else if i == 15 {
        ("cornflower blue"@, [0x64u8, 0x95u8, 0xedu8])
    } else if i == 16 {
        ("cornsilk"@, [0xffu8, 0xf8u8, 0xdcu8])
    } else if i == 17 {
        ("crimson"@, [0xdcu8, 0x14u8, 0x3cu8])
    } else if i == 18 {
        ("dark blue"@, [0x00u8, 0x00u8, 0x8bu8])
    } else if i == 19 {
        ("dark cyan"@, [0x00u8, 0x8bu8, 0x8bu8])
    } else if i == 20 {
        ("dark goldenrod"@, [0xb8u8, 0x86u8, 0x0bu8])
    } else if i == 21 {
        ("dark gray"@, [0xa9u8, 0xa9u8, 0xa9u8])
    } else if i == 22 {
        ("dark green"@, [0x00u8, 0x64u8, 0x00u8])
    } else if i == 23 {
        ("dark khaki"@, [0xbdu8, 0xb7u8, 0x6bu8])
    } else if i == 24 {
        ("dark magenta"@, [0x8bu8, 0x00u8, 0x8bu8])
    } else if i == 25 {
        ("dark olive green"@, [0x55u8, 0x6bu8, 0x2fu8])
    } else if i == 26 {
        ("dark orange"@, [0xffu8, 0x8cu8, 0x00u8])
    } else if i == 27 {
        ("dark orchid"@, [0x99u8, 0x32u8, 0xccu8])
    } else if i == 28 {
        ("dark red"@, [0x8bu8, 0x00u8, 0x00u8])
    } else if i == 29 {
        ("dark salmon"@, [0xe9u8, 0x96u8, 0x7au8])
    } else if i == 30 {
        ("dark sea green"@, [0x8fu8, 0xbcu8, 0x8fu8])
    } else if i == 31 {
        ("dark slate blue"@, [0x48u8, 0x3du8, 0x8bu8])
    } else if i == 32 {
        ("dark slate gray"@, [0x2fu8, 0x4fu8, 0x4fu8])
    } else if i == 33 {
        ("dark turquoise"@, [0x00u8, 0xceu8, 0xd1u8])
    } else if i == 34 {
        ("dark violet"@, [0x94u8, 0x00u8, 0xd3u8])
    } else if i == 35 {
        ("deep pink"@, [0xffu8, 0x14u8, 0x93u8])
    } else if i == 36 {
        ("deep sky blue"@, [0x00u8, 0xbfu8, 0xffu8])
    } else if i == 37 {
        ("dim gray"@, [0x69u8, 0x69u8, 0x69u8])
    } else if i == 38 {
        ("dodger blue"@, [0x1eu8, 0x90u8, 0xffu8])
    } else if i == 39 {
        ("firebrick"@, [0xb2u8, 0x22u8, 0x22u8])
    } else if i == 40 {
        ("floral white"@, [0xffu8, 0xfau8, 0xf0u8])
    } else if i == 41 {
        ("forest green"@, [0x22u8, 0x8bu8, 0x22u8])
    } else if i == 42 {
        ("fuchsia"@, [0xffu8, 0x00u8, 0xffu8])
    } else if i == 43 {
        ("gainsboro*"@, [0xdcu8, 0xdcu8, 0xdcu8])
    } else if i == 44 {
        ("ghost white"@, [0xf8u8, 0xf8u8, 0xffu8])
    } else if i == 45 {
        ("gold"@, [0xffu8, 0xd7u8, 0x00u8])
    } else if i == 46 {
        ("goldenrod"@, [0xdau8, 0xa5u8, 0x20u8])
    } else if i == 47 {
        ("gray"@, standard.gray_spec())
    } else if i == 48 {
        ("web gray"@, [0x80u8, 0x80u8, 0x80u8])
    } else if i == 49 {
        ("web green"@, [0x00u8, 0x80u8, 0x00u8])
    } else if i == 50 {
        ("green yellow"@, [0xadu8, 0xffu8, 0x2fu8])
    } else if i == 51 {
        ("honeydew"@, [0xf0u8, 0xffu8, 0xf0u8])
    } else if i == 52 {
        ("hot pink"@, [0xffu8, 0x69u8, 0xb4u8])
    } else if i == 53 {
        ("indian red"@, [0xcdu8, 0x5cu8, 0x5cu8])
    } else if i == 54 {
        ("indigo"@, [0x4bu8, 0x00u8, 0x82u8])
    } else if i == 55 {
        ("ivory"@, [0xffu8, 0xffu8, 0xf0u8])
    } else if i == 56 {
        ("khaki"@, [0xf0u8, 0xe6u8, 0x8cu8])
    } else if i == 57 {
        ("lavender"@, [0xe6u8, 0xe6u8, 0xfau8])
    } else if i == 58 {
        ("lavender blush"@, [0xffu8, 0xf0u8, 0xf5u8])
    } else if i == 59 {
        ("lawn green"@, [0x7cu8, 0xfcu8, 0x00u8])
    } else if i == 60 {
        ("lemon chiffon"@, [0xffu8, 0xfau8, 0xcdu8])
    } else if i == 61 {
        ("light blue"@, [0xadu8, 0xd8u8, 0xe6u8])
    } else if i == 62 {
        ("light coral"@, [0xf0u8, 0x80u8, 0x80u8])
    } else if i == 63 {
        ("light cyan"@, [0xe0u8, 0xffu8, 0xffu8])
    } else if i == 64 {
        ("light goldenrod"@, [0xfau8, 0xfau8, 0xd2u8])
    } else if i == 65 {
        ("light gray"@, [0xd3u8, 0xd3u8, 0xd3u8])
    } else if i == 66 {
        ("light green"@, [0x90u8, 0xeeu8, 0x90u8])
    } else if i == 67 {
        ("light pink"@, [0xffu8, 0xb6u8, 0xc1u8])
    } else if i == 68 {
        ("light salmon"@, [0xffu8, 0xa0u8, 0x7au8])
    } else if i == 69 {
        ("light sea green"@, [0x20u8, 0xb2u8, 0xaau8])
    } else if i == 70 {
        ("light sky blue"@, [0x87u8, 0xceu8, 0xfau8])
    } else if i == 71 {
        ("light slate gray"@, [0x77u8, 0x88u8, 0x99u8])
    } else if i == 72 {
        ("light steel blue"@, [0xb0u8, 0xc4u8, 0xdeu8])
    } else if i == 73 {
        ("light yellow"@, [0xffu8, 0xffu8, 0xe0u8])
    } else if i == 74 {
        ("lime"@, [0x00u8, 0xffu8, 0x00u8])
    } else if i == 75 {
        ("lime green"@, [0x32u8, 0xcdu8, 0x32u8])
    } else if i == 76 {
        ("linen"@, [0xfau8, 0xf0u8, 0xe6u8])
    } else if i == 77 {
        ("maroon"@, standard.maroon_spec())
    } else if i == 78 {
        ("web maroon"@, [0x80u8, 0x00u8, 0x00u8])
    } else if i == 79 {
        ("medium aquamarine"@, [0x66u8, 0xcdu8, 0xaau8])
    } else if i == 80 {
        ("medium blue"@, [0x00u8, 0x00u8, 0xcdu8])
    } else if i == 81 {
        ("medium orchid"@, [0xbau8, 0x55u8, 0xd3u8])
    } else if i == 82 {
        ("medium purple"@, [0x93u8, 0x70u8, 0xdbu8])
    } else if i == 83 {
        ("medium sea green"@, [0x3cu8, 0xb3u8, 0x71u8])
    } else if i == 84 {
        ("medium slate blue"@, [0x7bu8, 0x68u8, 0xeeu8])
    } else if i == 85 {
        ("medium spring green"@, [0x00u8, 0xfau8, 0x9au8])
    } else if i == 86 {
        ("medium turquoise"@, [0x48u8, 0xd1u8, 0xccu8])
    } else if i == 87 {
        ("medium violet red"@, [0xc7u8, 0x15u8, 0x85u8])
    } else if i == 88 {
        ("midnight blue"@, [0x19u8, 0x19u8, 0x70u8])
    } else if i == 89 {
        ("mint cream"@, [0xf5u8, 0xffu8, 0xfau8])
    } else if i == 90 {
        ("misty rose"@, [0xffu8, 0xe4u8, 0xe1u8])
    } else if i == 91 {
        ("moccasin"@, [0xffu8, 0xe4u8, 0xb5u8])
    } else if i == 92 {
        ("navajo white"@, [0xffu8, 0xdeu8, 0xadu8])
    } else if i == 93 {
        ("navy blue"@, [0x00u8, 0x00u8, 0x80u8])
    } else if i == 94 {
        ("old lace"@, [0xfdu8, 0xf5u8, 0xe6u8])
    } else if i == 95 {
        ("olive"@, [0x80u8, 0x80u8, 0x00u8])
    } else if i == 96 {
        ("olive drab"@, [0x6bu8, 0x8eu8, 0x23u8])
    } else if i == 97 {
        ("orange"@, [0xffu8, 0xa5u8, 0x00u8])
    } else if i == 98 {
        ("orange red"@, [0xffu8, 0x45u8, 0x00u8])
    } else if i == 99 {
        ("orchid"@, [0xdau8, 0x70u8, 0xd6u8])
    } else if i == 100 {
        ("pale goldenrod"@, [0xeeu8, 0xe8u8, 0xaau8])
    } else if i == 101 {
        ("pale green"@, [0x98u8, 0xfbu8, 0x98u8])
    } else if i == 102 {
        ("pale turquoise"@, [0xafu8, 0xeeu8, 0xeeu8])
    } else if i == 103 {
        ("pale violet red"@, [0xdbu8, 0x70u8, 0x93u8])
    } else if i == 104 {
        ("papaya whip"@, [0xffu8, 0xefu8, 0xd5u8])
    } else if i == 105 {
        ("peach puff"@, [0xffu8, 0xdau8, 0xb9u8])
    } else if i == 106 {
        ("peru"@, [0xcdu8, 0x85u8, 0x3fu8])
    } else if i == 107 {
        ("pink"@, [0xffu8, 0xc0u8, 0xcbu8])
    } else if i == 108 {
        ("plum"@, [0xddu8, 0xa0u8, 0xddu8])
    } else if i == 109 {
        ("powder blue"@, [0xb0u8, 0xe0u8, 0xe6u8])
    } else if i == 110 {
        ("purple"@, standard.purple_spec())
    } else if i == 111 {
        ("web purple"@, [0x80u8, 0x00u8, 0x80u8])
    } else if i == 112 {
        ("rebecca purple"@, [0x66u8, 0x33u8, 0x99u8])
    } else if i == 113 {
        ("rosy brown"@, [0xbcu8, 0x8fu8, 0x8fu8])
    } else if i == 114 {
        ("royal blue"@, [0x41u8, 0x69u8, 0xe1u8])
    } else if i == 115 {
        ("saddle brown"@, [0x8bu8, 0x45u8, 0x13u8])
    } else if i == 116 {
        ("salmon"@, [0xfau8, 0x80u8, 0x72u8])
    } else if i == 117 {
        ("sandy brown"@, [0xf4u8, 0xa4u8, 0x60u8])
    } else if i == 118 {
        ("sea green"@, [0x2eu8, 0x8bu8, 0x57u8])
    } else if i == 119 {
        ("seashell"@, [0xffu8, 0xf5u8, 0xeeu8])
    } else if i == 120 {
        ("sienna"@, [0xa0u8, 0x52u8, 0x2du8])
    } else if i == 121 {
        ("silver"@, [0xc0u8, 0xc0u8, 0xc0u8])
    } else if i == 122 {
        ("sky blue"@, [0x87u8, 0xceu8, 0xebu8])
    } else if i == 123 {
        ("slate blue"@, [0x6au8, 0x5au8, 0xcdu8])
    } else if i == 124 {
        ("slate gray"@, [0x70u8, 0x80u8, 0x90u8])
    } else if i == 125 {
        ("snow"@, [0xffu8, 0xfau8, 0xfau8])
    } else if i == 126 {
        ("spring green"@, [0x00u8, 0xffu8, 0x7fu8])
    } else if i == 127 {
        ("steel blue"@, [0x46u8, 0x82u8, 0xb4u8])
    } else if i == 128 {
        ("tan"@, [0xd2u8, 0xb4u8, 0x8cu8])
    } else if i == 129 {
        ("teal"@, [0x00u8, 0x80u8, 0x80u8])
    } else if i == 130 {
        ("thistle"@, [0xd8u8, 0xbfu8, 0xd8u8])
    } else if i == 131 {
        ("tomato"@, [0xffu8, 0x63u8, 0x47u8])
    } else if i == 132 {
        ("turquoise"@, [0x40u8, 0xe0u8, 0xd0u8])
    } else if i == 133 {
        ("violet"@, [0xeeu8, 0x82u8, 0xeeu8])
    } else if i == 134 {
        ("wheat"@, [0xf5u8, 0xdeu8, 0xb3u8])
    } else if i == 135 {
        ("white smoke"@, [0xf5u8, 0xf5u8, 0xf5u8])
    } else if i == 136 {
        ("yellow green"@, [0x9au8, 0xcdu8, 0x32u8])
    } else if i == 137 {
        ("black"@, standard.black_spec(term))
    } else if i == 138 {
        ("0"@, standard.black_spec(term))
    } else if i == 139 {
        ("30"@, standard.black_spec(term))
    } else if i == 140 {
        ("red"@, standard.red_spec(term))
    } else if i == 141 {
        ("1"@, standard.red_spec(term))
    } else if i == 142 {
        ("31"@, standard.red_spec(term))
    } else if i == 143 {
        ("yellow"@, standard.yellow_spec(term))
    } else if i == 144 {
        ("3"@, standard.yellow_spec(term))
    } else if i == 145 {
        ("33"@, standard.yellow_spec(term))
    } else if i == 146 {
        ("green"@, standard.green_spec(term))
    } else if i == 147 {
        ("2"@, standard.green_spec(term))
    } else if i == 148 {
        ("32"@, standard.green_spec(term))
    } else if i == 149 {
        ("blue"@, standard.blue_spec(term))
    } else if i == 150 {
        ("4"@, standard.blue_spec(term))
    } else if i == 151 {
        ("34"@, standard.blue_spec(term))
    } else if i == 152 {
        ("magenta"@, standard.magenta_spec(term))
    } else if i == 153 {
        ("5"@, standard.magenta_spec(term))
    } else if i == 154 {
        ("35"@, standard.magenta_spec(term))
    } else if i == 155 {
        ("cyan"@, standard.cyan_spec(term))
    } else if i == 156 {
        ("6"@, standard.cyan_spec(term))
    } else if i == 157 {
        ("36"@, standard.cyan_spec(term))
    } else if i == 158 {
        ("white"@, standard.white_spec(term))
    } else if i == 159 {
        ("7"@, standard.white_spec(term))
    } else if i == 160 {
        ("37"@, standard.white_spec(term))
    } else if i == 161 {
        ("bright black"@, standard.bright_black_spec(term))
    } else if i == 162 {
        ("90"@, standard.bright_black_spec(term))
    } else if i == 163 {
        ("bright red"@, standard.bright_red_spec(term))
    } else if i == 164 {
        ("91"@, standard.bright_red_spec(term))
    } else if i == 165 {
        ("bright green"@, standard.bright_green_spec(term))
    } else if i == 166 {
        ("92"@, standard.bright_green_spec(term))
    } else if i == 167 {
        ("bright blue"@, standard.bright_blue_spec(term))
    } else if i == 168 {
        ("94"@, standard.bright_blue_spec(term))
    } else if i == 169 {
        ("bright cyan"@, standard.bright_cyan_spec(term))
    } else if i == 170 {
        ("96"@, standard.bright_cyan_spec(term))
    } else if i == 171 {
        ("bright magenta"@, standard.bright_magenta_spec(term))
    } else if i == 172 {
        ("95"@, standard.bright_magenta_spec(term))
    } else if i == 173 {
        ("bright white"@, standard.bright_white_spec(term))
    } else if i == 174 {
        ("97"@, standard.bright_white_spec(term))
    } else if i == 175 {
        ("bright yellow"@, standard.bright_yellow_spec(term))
    } else if i == 176 {
        ("93"@, standard.bright_yellow_spec(term))
    } else {
        (Seq::<char>::empty(), [0u8, 0u8, 0u8])
    }
}

/// Entry `i` of the table of colour names under `standard`.
pub fn color_entry(standard: &ColorNameStandard, term: &[[u8; 3]; 16], i: usize) -> (e: (
    &'static str,
    [u8; 3],
))
    requires
        i < COLOR_COUNT,
    ensures
        (e.0@, e.1) == color_entry_spec(*standard, *term, i as int),
{
    if i == 0 {
        ("alice blue", [0xf0, 0xf8, 0xff])
    } else if i == 1 {
        ("antique white", [0xfa, 0xeb, 0xd7])
    } else if i == 2 {
        ("aqua", [0x00, 0xff, 0xff])
    } else if i == 3 {
        ("aquamarine", [0x7f, 0xff, 0xd4])
    } else if i == 4 {
        ("azure", [0xf0, 0xff, 0xff])
    } else if i == 5 {
        ("beige", [0xf5, 0xf5, 0xdc])
    } else if i == 6 {
        ("bisque", [0xff, 0xe4, 0xc4])
    } else if i == 7 {
        ("blanched almond", [0xff, 0xeb, 0xcd])
    } else if i == 8 {
        ("blue violet", [0x8a, 0x2b, 0xe2])
    } else if i == 9 {
        ("brown", [0xa5, 0x2a, 0x2a])
    } else if i == 10 {
        ("burlywood", [0xde, 0xb8, 0x87])
    } else if i == 11 {
        ("cadet blue", [0x5f, 0x9e, 0xa0])
    } else if i == 12 {
        ("chartreuse", [0x7f, 0xff, 0x00])
    } else if i == 13 {
        ("chocolate", [0xd2, 0x69, 0x1e])
    } else if i == 14 {
        ("coral", [0xff, 0x7f, 0x50])
    } else if i == 15 {
        ("cornflower blue", [0x64, 0x95, 0xed])
    } else if i == 16 {
        ("cornsilk", [0xff, 0xf8, 0xdc])
    } else if i == 17 {
        ("crimson", [0xdc, 0x14, 0x3c])
    } else if i == 18 {
        ("dark blue", [0x00, 0x00, 0x8b])
    } else if i == 19 {
        ("dark cyan", [0x00, 0x8b, 0x8b])
    } else if i == 20 {
        ("dark goldenrod", [0xb8, 0x86, 0x0b])
    } else if i == 21 {
        ("dark gray", [0xa9, 0xa9, 0xa9])
    } else if i == 22 {
        ("dark green", [0x00, 0x64, 0x00])
    } else if i == 23 {
        ("dark khaki", [0xbd, 0xb7, 0x6b])
    } else if i == 24 {
        ("dark magenta", [0x8b, 0x00, 0x8b])
    } else if i == 25 {
        ("dark olive green", [0x55, 0x6b, 0x2f])
    } else if i == 26 {
        ("dark orange", [0xff, 0x8c, 0x00])
    } else if i == 27 {
        ("dark orchid", [0x99, 0x32, 0xcc])
    } else if i == 28 {
        ("dark red", [0x8b, 0x00, 0x00])
    } else if i == 29 {
        ("dark salmon", [0xe9, 0x96, 0x7a])
    } else if i == 30 {
        ("dark sea green", [0x8f, 0xbc, 0x8f])
    } else if i == 31 {
        ("dark slate blue", [0x48, 0x3d, 0x8b])
    } else if i == 32 {
        ("dark slate gray", [0x2f, 0x4f, 0x4f])
    } else if i == 33 {
        ("dark turquoise", [0x00, 0xce, 0xd1])
    } else if i == 34 {
        ("dark violet", [0x94, 0x00, 0xd3])
    } else if i == 35 {
        ("deep pink", [0xff, 0x14, 0x93])
    } else if i == 36 {
        ("deep sky blue", [0x00, 0xbf, 0xff])
    } else if i == 37 {
        ("dim gray", [0x69, 0x69, 0x69])
    } else if i == 38 {
        ("dodger blue", [0x1e, 0x90, 0xff])
    } else if i == 39 {
        ("firebrick", [0xb2, 0x22, 0x22])
    } else if i == 40 {
        ("floral white", [0xff, 0xfa, 0xf0])
    } else if i == 41 {
        ("forest green", [0x22, 0x8b, 0x22])
    } else if i == 42 {
        ("fuchsia", [0xff, 0x00, 0xff])
    } else if i == 43 {
        ("gainsboro*", [0xdc, 0xdc, 0xdc])
    } else if i == 44 {
        ("ghost white", [0xf8, 0xf8, 0xff])
    } else if i == 45 {
        ("gold", [0xff, 0xd7, 0x00])
    } else if i == 46 {
        ("goldenrod", [0xda, 0xa5, 0x20])
    } else if i == 47 {
        ("gray", standard.gray())
    } else if i == 48 {
        ("web gray", [0x80, 0x80, 0x80])
    } else if i == 49 {
        ("web green", [0x00, 0x80, 0x00])
    } else if i == 50 {
        ("green yellow", [0xad, 0xff, 0x2f])
    } else if i == 51 {
        ("honeydew", [0xf0, 0xff, 0xf0])
    } else if i == 52 {
        ("hot pink", [0xff, 0x69, 0xb4])
    } else if i == 53 {
        ("indian red", [0xcd, 0x5c, 0x5c])
    } else if i == 54 {
        ("indigo", [0x4b, 0x00, 0x82])
    } else if i == 55 {
        ("ivory", [0xff, 0xff, 0xf0])
    } else if i == 56 {
        ("khaki", [0xf0, 0xe6, 0x8c])
    } else if i == 57 {
        ("lavender", [0xe6, 0xe6, 0xfa])
    } else if i == 58 {
        ("lavender blush", [0xff, 0xf0, 0xf5])
    } else if i == 59 {
        ("lawn green", [0x7c, 0xfc, 0x00])
    } else if i == 60 {
        ("lemon chiffon", [0xff, 0xfa, 0xcd])
    } else if i == 61 {
        ("light blue", [0xad, 0xd8, 0xe6])
    } else if i == 62 {
        ("light coral", [0xf0, 0x80, 0x80])
    } else if i == 63 {
        ("light cyan", [0xe0, 0xff, 0xff])
    } else if i == 64 {
        ("light goldenrod", [0xfa, 0xfa, 0xd2])
    } else if i == 65 {
        ("light gray", [0xd3, 0xd3, 0xd3])
    } else if i == 66 {
        ("light green", [0x90, 0xee, 0x90])
    } else if i == 67 {
        ("light pink", [0xff, 0xb6, 0xc1])
    } else if i == 68 {
        ("light salmon", [0xff, 0xa0, 0x7a])
    } else if i == 69 {
        ("light sea green", [0x20, 0xb2, 0xaa])
    } else if i == 70 {
        ("light sky blue", [0x87, 0xce, 0xfa])
    } else if i == 71 {
        ("light slate gray", [0x77, 0x88, 0x99])
    } else if i == 72 {
        ("light steel blue", [0xb0, 0xc4, 0xde])
    } else if i == 73 {
        ("light yellow", [0xff, 0xff, 0xe0])
    } else if i == 74 {
        ("lime", [0x00, 0xff, 0x00])
    } else if i == 75 {
        ("lime green", [0x32, 0xcd, 0x32])
    } else if i == 76 {
        ("linen", [0xfa, 0xf0, 0xe6])
    } else if i == 77 {
        ("maroon", standard.maroon())
    } else if i == 78 {
        ("web maroon", [0x80, 0x00, 0x00])
    } else if i == 79 {
        ("medium aquamarine", [0x66, 0xcd, 0xaa])
    } else if i == 80 {
        ("medium blue", [0x00, 0x00, 0xcd])
    } else if i == 81 {
        ("medium orchid", [0xba, 0x55, 0xd3])
    } else if i == 82 {
        ("medium purple", [0x93, 0x70, 0xdb])
    } else if i == 83 {
        ("medium sea green", [0x3c, 0xb3, 0x71])
    } else if i == 84 {
        ("medium slate blue", [0x7b, 0x68, 0xee])
    } else if i == 85 {
        ("medium spring green", [0x00, 0xfa, 0x9a])
    } else if i == 86 {
        ("medium turquoise", [0x48, 0xd1, 0xcc])
    } else if i == 87 {
        ("medium violet red", [0xc7, 0x15, 0x85])
    } else if i == 88 {
        ("midnight blue", [0x19, 0x19, 0x70])
    } else if i == 89 {
        ("mint cream", [0xf5, 0xff, 0xfa])
    } else if i == 90 {
        ("misty rose", [0xff, 0xe4, 0xe1])
    } else if i == 91 {
        ("moccasin", [0xff, 0xe4, 0xb5])
    } else if i == 92 {
        ("navajo white", [0xff, 0xde, 0xad])
    } else if i == 93 {
        ("navy blue", [0x00, 0x00, 0x80])
    } else if i == 94 {
        ("old lace", [0xfd, 0xf5, 0xe6])
    } else if i == 95 {
        ("olive", [0x80, 0x80, 0x00])
    } else if i == 96 {
        ("olive drab", [0x6b, 0x8e, 0x23])
    } else if i == 97 {
        ("orange", [0xff, 0xa5, 0x00])
    } else if i == 98 {
        ("orange red", [0xff, 0x45, 0x00])
    } else if i == 99 {
        ("orchid", [0xda, 0x70, 0xd6])
    } else if i == 100 {
        ("pale goldenrod", [0xee, 0xe8, 0xaa])
    } else if i == 101 {
        ("pale green", [0x98, 0xfb, 0x98])
    } else if i == 102 {
        ("pale turquoise", [0xaf, 0xee, 0xee])
    } else if i == 103 {
        ("pale violet red", [0xdb, 0x70, 0x93])
    } else if i == 104 {
        ("papaya whip", [0xff, 0xef, 0xd5])
    } else if i == 105 {
        ("peach puff", [0xff, 0xda, 0xb9])
    } else if i == 106 {
        ("peru", [0xcd, 0x85, 0x3f])
    } else if i == 107 {
        ("pink", [0xff, 0xc0, 0xcb])
    } else if i == 108 {
        ("plum", [0xdd, 0xa0, 0xdd])
    } else if i == 109 {
        ("powder blue", [0xb0, 0xe0, 0xe6])
    } else if i == 110 {
        ("purple", standard.purple())
    } else if i == 111 {
        ("web purple", [0x80, 0x00, 0x80])
    } else if i == 112 {
        ("rebecca purple", [0x66, 0x33, 0x99])
    } else if i == 113 {
        ("rosy brown", [0xbc, 0x8f, 0x8f])
    } else if i == 114 {
        ("royal blue", [0x41, 0x69, 0xe1])
    } else if i == 115 {
        ("saddle brown", [0x8b, 0x45, 0x13])
    } else if i == 116 {
        ("salmon", [0xfa, 0x80, 0x72])
    } else if i == 117 {
        ("sandy brown", [0xf4, 0xa4, 0x60])
    } else if i == 118 {
        ("sea green", [0x2e, 0x8b, 0x57])
    } else if i == 119 {
        ("seashell", [0xff, 0xf5, 0xee])
    } else if i == 120 {
        ("sienna", [0xa0, 0x52, 0x2d])
    } else if i == 121 {
        ("silver", [0xc0, 0xc0, 0xc0])
    } else if i == 122 {
        ("sky blue", [0x87, 0xce, 0xeb])
    } else if i == 123 {
        ("slate blue", [0x6a, 0x5a, 0xcd])
    } else if i == 124 {
        ("slate gray", [0x70, 0x80, 0x90])
    } else if i == 125 {
        ("snow", [0xff, 0xfa, 0xfa])
    } else if i == 126 {
        ("spring green", [0x00, 0xff, 0x7f])
    } else if i == 127 {
        ("steel blue", [0x46, 0x82, 0xb4])
    } else if i == 128 {
        ("tan", [0xd2, 0xb4, 0x8c])
    } else if i == 129 {
        ("teal", [0x00, 0x80, 0x80])
    } else if i == 130 {
        ("thistle", [0xd8, 0xbf, 0xd8])
    } else if i == 131 {
        ("tomato", [0xff, 0x63, 0x47])
    } else if i == 132 {
        ("turquoise", [0x40, 0xe0, 0xd0])
    } else if i == 133 {
        ("violet", [0xee, 0x82, 0xee])
    } else if i == 134 {
        ("wheat", [0xf5, 0xde, 0xb3])
    } else if i == 135 {
        ("white smoke", [0xf5, 0xf5, 0xf5])
    } else if i == 136 {
        ("yellow green", [0x9a, 0xcd, 0x32])
    } else if i == 137 {
        ("black", standard.black(term))
    } else if i == 138 {
        ("0", standard.black(term))
    } else if i == 139 {
        ("30", standard.black(term))
    } else if i == 140 {
        ("red", standard.red(term))
    } else if i == 141 {
        ("1", standard.red(term))
    } else if i == 142 {
        ("31", standard.red(term))
    } else if i == 143 {
        ("yellow", standard.yellow(term))
    } else if i == 144 {
        ("3", standard.yellow(term))
    } else if i == 145 {
        ("33", standard.yellow(term))
    } else if i == 146 {
        ("green", standard.green(term))
    } else if i == 147 {
        ("2", standard.green(term))
    } else if i == 148 {
        ("32", standard.green(term))
    } else if i == 149 {
        ("blue", standard.blue(term))
    } else if i == 150 {
        ("4", standard.blue(term))
    } else if i == 151 {
        ("34", standard.blue(term))
    } else if i == 152 {
        ("magenta", standard.magenta(term))
    } else if i == 153 {
        ("5", standard.magenta(term))
    } else if i == 154 {
        ("35", standard.magenta(term))
    } else if i == 155 {
        ("cyan", standard.cyan(term))
    } else if i == 156 {
        ("6", standard.cyan(term))
    } else if i == 157 {
        ("36", standard.cyan(term))
    } else if i == 158 {
        ("white", standard.white(term))
    } else if i == 159 {
        ("7", standard.white(term))
    } else if i == 160 {
        ("37", standard.white(term))
    } else if i == 161 {
        ("bright black", standard.bright_black(term))
    } else if i == 162 {
        ("90", standard.bright_black(term))
    } else if i == 163 {
        ("bright red", standard.bright_red(term))
    } else if i == 164 {
        ("91", standard.bright_red(term))
    } else if i == 165 {
        ("bright green", standard.bright_green(term))
    } else if i == 166 {
        ("92", standard.bright_green(term))
    } else if i == 167 {
        ("bright blue", standard.bright_blue(term))
    } else if i == 168 {
        ("94", standard.bright_blue(term))
    } else if i == 169 {
        ("bright cyan", standard.bright_cyan(term))
    } else if i == 170 {
        ("96", standard.bright_cyan(term))
    } else if i == 171 {
        ("bright magenta", standard.bright_magenta(term))
    } else if i == 172 {
        ("95", standard.bright_magenta(term))
    } else if i == 173 {
        ("bright white", standard.bright_white(term))
    } else if i == 174 {
        ("97", standard.bright_white(term))
    } else if i == 175 {
        ("bright yellow", standard.bright_yellow(term))
    } else {
        ("93", standard.bright_yellow(term))
    }
}

} // verus!
