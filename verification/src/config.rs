//! Site configuration: the endpoint parameters of the default chat, the
//! guest color table, and the profile-cycling palette.

use vstd::prelude::*;
use vstd::string::StringExecFns;
use vstd::string::StrSliceExecFns;
use crate::strutil::str_eq;

verus! {

/// The parameters of one chat endpoint.
#[derive(Debug, PartialEq)]
pub struct LeChatPHPConfig {
    pub url: String,
    pub datetime_fmt: String,
    pub page_php: String,
    pub keepalive_send_to: String,
    pub members_tag: String,
    pub staffs_tag: String,
}

impl LeChatPHPConfig {
    /// The default endpoint configuration.
    pub fn new_black_hat_chat_config() -> (r: LeChatPHPConfig)
        ensures
            r.url@ == "http://blkhatjxlrvc5aevqzz5t6kxldayog6jlx5h7glnu44euzongl4fh5ad.onion"@,
            r.datetime_fmt@ == "%m-%d %H:%M:%S"@,
            r.page_php@ == "chat.php"@,
            r.keepalive_send_to@ == "0"@,
            r.members_tag@ == "[M] "@,
            r.staffs_tag@ == "[Staff] "@,
    {
        LeChatPHPConfig {
            url: String::from_str(
                "http://blkhatjxlrvc5aevqzz5t6kxldayog6jlx5h7glnu44euzongl4fh5ad.onion",
            ),
            datetime_fmt: String::from_str("%m-%d %H:%M:%S"),
            page_php: String::from_str("chat.php"),
            keepalive_send_to: String::from_str("0"),
            members_tag: String::from_str("[M] "),
            staffs_tag: String::from_str("[Staff] "),
        }
    }
}

/// A hexadecimal digit.
pub open spec fn is_hex_digit(c: char) -> bool {
    ('0' <= c && c <= '9') || ('a' <= c && c <= 'f') || ('A' <= c && c <= 'F')
}

/// A custom color: a `#` followed by six hexadecimal digits.
pub open spec fn is_hex_color(s: Seq<char>) -> bool {
    s.len() == 7 && s[0] == '#' && (forall|i: int| 1 <= i < 7 ==> is_hex_digit(#[trigger] s[i]))
}

/// The color table of guest names, and the handling of a custom hex
/// color: a named color maps to its hex value, `#rrggbb` keeps its six
/// digits, anything else gives the empty string.
pub open spec fn guest_color_spec(w: Option<Seq<char>>) -> Seq<char> {
    match w {
        None => Seq::<char>::empty(),
        Some(s) => if s == "beige"@ {
            "F5F5DC"@
        } else if s == "blue-violet"@ {
            "8A2BE2"@
        } else if s == "brown"@ {
            "A52A2A"@
        } else if s == "cyan"@ {
            "00FFFF"@
        } else if s == "sky-blue"@ {
            "00BFFF"@
        } else if s == "gold"@ {
            "FFD700"@
        } else if s == "gray"@ {
            "808080"@
        } else if s == "green"@ {
            "008000"@
        } else if s == "hot-pink"@ {
            "FF69B4"@
        } else if s == "light-blue"@ {
            "ADD8E6"@
        } else if s == "light-green"@ {
            "90EE90"@
        } else if s == "lime-green"@ {
            "32CD32"@
        } else if s == "magenta"@ {
            "FF00FF"@
        } else if s == "olive"@ {
            "808000"@
        } else if s == "orange"@ {
            "FFA500"@
        } else if s == "orange-red"@ {
            "FF4500"@
        } else if s == "red"@ {
            "FF0000"@
        } else if s == "royal-blue"@ {
            "4169E1"@
        } else if s == "see-green"@ {
            "2E8B57"@
        } else if s == "sienna"@ {
            "A0522D"@
        } else if s == "silver"@ {
            "C0C0C0"@
        } else if s == "tan"@ {
            "D2B48C"@
        } else if s == "teal"@ {
            "008080"@
        } else if s == "violet"@ {
            "EE82EE"@
        } else if s == "white"@ {
            "FFFFFF"@
        } else if s == "yellow"@ {
            "FFFF00"@
        } else if s == "yellow-green"@ {
            "9ACD32"@
        } else if is_hex_color(s) {
            s.skip(1)
        } else {
            Seq::<char>::empty()
        },
    }
}

/// The view of an optional string.
pub open spec fn opt_str_view(w: &Option<String>) -> Option<Seq<char>> {
    match w {
        Some(s) => Some(s@),
        None => None,
    }
}

fn hex_digit(c: char) -> (r: bool)
    ensures
        r == is_hex_digit(c),
{
    ('0' <= c && c <= '9') || ('a' <= c && c <= 'f') || ('A' <= c && c <= 'F')
}

fn hex_color(s: &str) -> (r: bool)
    ensures
        r == is_hex_color(s@),
{
    let v = crate::strutil::chars_vec(s);
    if v.len() != 7 {
        return false;
    }
    if v[0] != '#' {
        return false;
    }
    let mut i: usize = 1;
    while i < 7
        invariant
            1 <= i <= 7,
            v@ == s@,
            v@.len() == 7,
            forall|j: int| 1 <= j < i ==> is_hex_digit(#[trigger] s@[j]),
        decreases 7 - i,
    {
        if !hex_digit(v[i]) {
            return false;
        }
        i = i + 1;
    }
    true
}

/// The wanted guest color resolved to six hex digits: a known color name,
/// a `#rrggbb` value without its hash sign, or empty when absent or
/// unrecognized.
pub fn get_guest_color(wanted: Option<String>) -> (r: String)
    ensures
        r@ == guest_color_spec(opt_str_view(&wanted)),
{
    match wanted {
        None => String::new(),
        Some(s) => {
            let names: [(&str, &str); 27] = [
                ("beige", "F5F5DC"),
                ("blue-violet", "8A2BE2"),
                ("brown", "A52A2A"),
                ("cyan", "00FFFF"),
                ("sky-blue", "00BFFF"),
                ("gold", "FFD700"),
                ("gray", "808080"),
                ("green", "008000"),
                ("hot-pink", "FF69B4"),
                ("light-blue", "ADD8E6"),
                ("light-green", "90EE90"),
                ("lime-green", "32CD32"),
                ("magenta", "FF00FF"),
                ("olive", "808000"),
                ("orange", "FFA500"),
                ("orange-red", "FF4500"),
                ("red", "FF0000"),
                ("royal-blue", "4169E1"),
                ("see-green", "2E8B57"),
                ("sienna", "A0522D"),
                ("silver", "C0C0C0"),
                ("tan", "D2B48C"),
                ("teal", "008080"),
                ("violet", "EE82EE"),
                ("white", "FFFFFF"),
                ("yellow", "FFFF00"),
                ("yellow-green", "9ACD32"),
            ];
            if str_eq(s.as_str(), names[0].0) {
                return String::from_str(names[0].1);
            }
            if str_eq(s.as_str(), names[1].0) {
                return String::from_str(names[1].1);
            }
            if str_eq(s.as_str(), names[2].0) {
                return String::from_str(names[2].1);
            }
            if str_eq(s.as_str(), names[3].0) {
                return String::from_str(names[3].1);
            }
            if str_eq(s.as_str(), names[4].0) {
                return String::from_str(names[4].1);
            }
            if str_eq(s.as_str(), names[5].0) {
                return String::from_str(names[5].1);
            }
            if str_eq(s.as_str(), names[6].0) {
                return String::from_str(names[6].1);
            }
            if str_eq(s.as_str(), names[7].0) {
                return String::from_str(names[7].1);
            }
            if str_eq(s.as_str(), names[8].0) {
                return String::from_str(names[8].1);
            }
            if str_eq(s.as_str(), names[9].0) {
                return String::from_str(names[9].1);
            }
            if str_eq(s.as_str(), names[10].0) {
                return String::from_str(names[10].1);
            }
            if str_eq(s.as_str(), names[11].0) {
                return String::from_str(names[11].1);
            }
            if str_eq(s.as_str(), names[12].0) {
                return String::from_str(names[12].1);
            }
            if str_eq(s.as_str(), names[13].0) {
                return String::from_str(names[13].1);
            }
            if str_eq(s.as_str(), names[14].0) {
                return String::from_str(names[14].1);
            }
            if str_eq(s.as_str(), names[15].0) {
                return String::from_str(names[15].1);
            }
            if str_eq(s.as_str(), names[16].0) {
                return String::from_str(names[16].1);
            }
            if str_eq(s.as_str(), names[17].0) {
                return String::from_str(names[17].1);
            }
            if str_eq(s.as_str(), names[18].0) {
                return String::from_str(names[18].1);
            }
            if str_eq(s.as_str(), names[19].0) {
                return String::from_str(names[19].1);
            }
            if str_eq(s.as_str(), names[20].0) {
                return String::from_str(names[20].1);
            }
            if str_eq(s.as_str(), names[21].0) {
                return String::from_str(names[21].1);
            }
            if str_eq(s.as_str(), names[22].0) {
                return String::from_str(names[22].1);
            }
            if str_eq(s.as_str(), names[23].0) {
                return String::from_str(names[23].1);
            }
            if str_eq(s.as_str(), names[24].0) {
                return String::from_str(names[24].1);
            }
            if str_eq(s.as_str(), names[25].0) {
                return String::from_str(names[25].1);
            }
            if str_eq(s.as_str(), names[26].0) {
                return String::from_str(names[26].1);
            }
            if hex_color(s.as_str()) {
                let digits = s.as_str().substring_char(1, 7);
                proof {
                    assert(digits@ =~= s@.skip(1));
                }
                String::from_str(digits)
            } else {
                String::new()
            }
        },
    }
}

/// The palette the profile cycler rotates through.
pub open spec fn cycle_palette() -> Seq<Seq<char>> {
    seq![
        "#ff3366"@,
        "#ff6633"@,
        "#FFCC33"@,
        "#33FF66"@,
        "#33FFCC"@,
        "#33CCFF"@,
        "#3366FF"@,
        "#6633FF"@,
        "#CC33FF"@,
        "#efefef"@,
    ]
}

/// The next palette index and its color.
pub fn next_cycle_color(idx: usize) -> (r: (usize, String))
    requires
        idx < usize::MAX,
    ensures
        r.0 == (idx + 1) as int % 10,
        r.1@ == cycle_palette()[r.0 as int],
{
    let next: usize = (idx + 1) % 10;
    let c = if next == 0 {
        String::from_str("#ff3366")
    } else if next == 1 {
        String::from_str("#ff6633")
    } else if next == 2 {
        String::from_str("#FFCC33")
    } else if next == 3 {
        String::from_str("#33FF66")
    } else if next == 4 {
        String::from_str("#33FFCC")
    } else if next == 5 {
        String::from_str("#33CCFF")
    } else if next == 6 {
        String::from_str("#3366FF")
    } else if next == 7 {
        String::from_str("#6633FF")
    } else if next == 8 {
        String::from_str("#CC33FF")
    } else {
        String::from_str("#efefef")
    };
    (next, c)
}

} // verus!
