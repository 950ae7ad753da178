//! Menu entries as they are configured, and the colours they name.

use vstd::prelude::*;
use crate::units::ONE;

verus! {

/// One configured menu entry.
#[derive(Debug)]
pub struct Button {
    /// The name of the entry, also used to look up its icon file.
    pub label: String,
    /// The command that selecting the entry runs.
    pub action: String,
    /// The text shown with the entry.
    pub text: String,
    /// An optional key that selects the entry.
    pub keybind: Option<char>,
    /// An optional path to an icon file.
    pub icon_path: Option<String>,
    /// An optional icon character.
    pub icon_char: Option<char>,
    /// An optional base colour in hex, such as `#81A1C1`.
    pub color: Option<String>,
    /// An optional hover colour in hex, such as `#5E81AC`.
    pub hover_color: Option<String>,
    /// Whether the text is shown below the icon.
    pub show_label: bool,
    /// The entries of the submenu that this entry opens, if any.
    pub children: Vec<Button>,
}

/// What a [`Button`] holds, as plain values.
pub ghost struct ButtonView {
    pub label: Seq<char>,
    pub action: Seq<char>,
    pub text: Seq<char>,
    pub keybind: Option<char>,
    pub icon_path: Option<Seq<char>>,
    pub icon_char: Option<char>,
    pub color: Option<Seq<char>>,
    pub hover_color: Option<Seq<char>>,
    pub show_label: bool,
    pub children: Seq<ButtonView>,
}

/// The text of an optional string.
pub open spec fn text_of(s: Option<String>) -> Option<Seq<char>> {
    match s {
        Some(s) => Some(s@),
        None => None,
    }
}

impl View for Button {
    type V = ButtonView;

    open spec fn view(&self) -> ButtonView {
        self.deep()
    }
}

impl Button {
    /// The entry and all the entries below it, as plain values.
    pub open spec fn deep(&self) -> ButtonView
        decreases self,
    {
        ButtonView {
            label: self.label@,
            action: self.action@,
            text: self.text@,
            keybind: self.keybind,
            icon_path: text_of(self.icon_path),
            icon_char: self.icon_char,
            color: text_of(self.color),
            hover_color: text_of(self.hover_color),
            show_label: self.show_label,
            children: Seq::new(
                self.children@.len(),
                |i: int|
                    if 0 <= i < self.children@.len() {
                        self.children@[i].deep()
                    } else {
                        arbitrary()
                    },
            ),
        }
    }

    /// Whether selecting the entry opens a submenu instead of running its
    /// action.
    pub fn has_submenu(&self) -> (r: bool)
        ensures
            r == (self.children@.len() > 0),
    {
        self.children.len() > 0
    }

    /// A copy of the entry with copies of all the entries below it.
    pub fn duplicate(&self) -> (r: Button)
        ensures
            r@ == self@,
        decreases self,
    {
        let mut children: Vec<Button> = Vec::new();
        let mut i: usize = 0;
        while i < self.children.len()
            invariant
                i <= self.children@.len(),
                children@.len() == i,
                forall|j: int| 0 <= j < i ==> (#[trigger] children@[j])@ == self.children@[j]@,
            decreases self.children@.len() - i,
        {
            let child: Button = self.children[i].duplicate();
            children.push(child);
            i += 1;
        }
        let r = Button {
            label: self.label.clone(),
            action: self.action.clone(),
            text: self.text.clone(),
            keybind: self.keybind,
            icon_path: self.icon_path.clone(),
            icon_char: self.icon_char,
            color: self.color.clone(),
            hover_color: self.hover_color.clone(),
            show_label: self.show_label,
            children,
        };
        assert(r@.children =~= self@.children);
        r
    }
}

impl Clone for Button {
    fn clone(&self) -> (r: Self)
        ensures
            r@ == self@,
    {
        self.duplicate()
    }
}

/// The value of a colour channel at full strength. Channels count half
/// steps of an 8-bit level, so that every 8-bit level `b` is the channel
/// `2 * b` and one half is a channel too.
pub const CHANNEL_FULL: u16 = 510;

/// The value of a colour channel at half strength.
pub const CHANNEL_HALF: u16 = 255;

/// A colour: three channels from nothing to `CHANNEL_FULL`, and an alpha in
/// thousandths.
#[derive(Debug, Clone, Copy, PartialEq, Eq, Structural)]
pub struct Color {
    pub red: u16,
    pub green: u16,
    pub blue: u16,
    pub alpha: i64,
}

/// The value of a hexadecimal digit, in either case.
pub open spec fn hex_digit(c: char) -> Option<int> {
    let code = c as u32 as int;
    if 0x30 <= code <= 0x39 {
        Some(code - 0x30)
    } else if 0x61 <= code <= 0x66 {
        Some(code - 0x61 + 10)
    } else if 0x41 <= code <= 0x46 {
        Some(code - 0x41 + 10)
    } else {
        None
    }
}

/// Whether every character is a hexadecimal digit.
pub open spec fn all_hex(s: Seq<char>) -> bool {
    forall|i: int| 0 <= i < s.len() ==> (#[trigger] hex_digit(s[i])) is Some
}

/// The number that a run of hexadecimal digits writes, most significant
/// digit first.
pub open spec fn hex_value(s: Seq<char>) -> int
    decreases s.len(),
{
    if s.len() == 0 {
        0
    } else {
        16 * hex_value(s.drop_last()) + match hex_digit(s.last()) {
            Some(d) => d,
            None => 0,
        }
    }
}

/// The text without the `#` signs that it begins with.
pub open spec fn strip_hashes(s: Seq<char>) -> Seq<char>
    decreases s.len(),
{
    if s.len() > 0 && s[0] == '#' {
        strip_hashes(s.drop_first())
    } else {
        s
    }
}

/// The number that a text writes in hexadecimal: an optional `+`, then one
/// hexadecimal digit or more and nothing else, with a value that fits in 32
/// bits. Any other text writes none.
pub open spec fn parse_hex(s: Seq<char>) -> Option<u32> {
    let digits = if s.len() > 0 && s[0] == '+' {
        s.drop_first()
    } else {
        s
    };
    if digits.len() > 0 && all_hex(digits) && hex_value(digits) <= u32::MAX {
        Some(hex_value(digits) as u32)
    } else {
        None
    }
}

/// The opaque colour whose red, green and blue levels are the third, the
/// second and the lowest byte of `value`.
pub open spec fn color_of_bits(value: u32) -> Color {
    Color {
        red: (2 * ((value / 0x1_0000) % 0x100)) as u16,
        green: (2 * ((value / 0x100) % 0x100)) as u16,
        blue: (2 * (value % 0x100)) as u16,
        alpha: ONE,
    }
}

/// The fallback colour, an opaque mid grey.
pub open spec fn fallback_gray() -> Color {
    Color { red: CHANNEL_HALF, green: CHANNEL_HALF, blue: CHANNEL_HALF, alpha: ONE }
}

/// The colour that a hex string names: its leading `#` signs are dropped
/// and the rest is read as a hexadecimal number of red, green and blue; a
/// string that is no such number names the fallback grey.
pub open spec fn color_of(s: Seq<char>) -> Color {
    match parse_hex(strip_hashes(s)) {
        Some(value) => color_of_bits(value),
        None => fallback_gray(),
    }
}

/// Reads one hexadecimal digit.
pub fn hex_digit_value(c: char) -> (r: Option<u32>)
    ensures
        match r {
            Some(d) => hex_digit(c) == Some(d as int) && d < 16,
            None => hex_digit(c) is None,
        },
{
    let code: u32 = c as u32;
    if 0x30 <= code && code <= 0x39 {
        Some(code - 0x30)
    } else if 0x61 <= code && code <= 0x66 {
        Some(code - 0x61 + 10)
    } else if 0x41 <= code && code <= 0x46 {
        Some(code - 0x41 + 10)
    } else {
        None
    }
}

proof fn lemma_hex_value_prefix(s: Seq<char>, k: int)
    requires
        0 <= k <= s.len(),
    ensures
        0 <= hex_value(s.subrange(0, k)) <= hex_value(s),
    decreases s.len(),
{
    if k == s.len() {
        assert(s.subrange(0, k) =~= s);
        if s.len() > 0 {
            lemma_hex_value_prefix(s.drop_last(), k - 1);
        }
    } else {
        lemma_hex_value_prefix(s.drop_last(), k);
        assert(s.drop_last().subrange(0, k) =~= s.subrange(0, k));
    }
}

/// Reads a text as a hexadecimal number of at most 32 bits.
pub fn parse_hex_u32(text: &str) -> (r: Option<u32>)
    ensures
        r == parse_hex(text@),
{
    let n: usize = text.unicode_len();
    let start: usize = if n > 0 && text.get_char(0) == '+' { 1 } else { 0 };
    if start == n {
        return None;
    }
    let ghost digits = text@.subrange(start as int, n as int);
    let mut value: u32 = 0;
    let mut i: usize = start;
    while i < n
        invariant
            start <= i <= n == text@.len(),
            digits == text@.subrange(start as int, n as int),
            digits == if text@.len() > 0 && text@[0] == '+' {
                text@.drop_first()
            } else {
                text@
            },
            all_hex(digits.subrange(0, i - start)),
            value == hex_value(digits.subrange(0, i - start)),
        decreases n - i,
    {
        let ghost seen = digits.subrange(0, i - start);
        let ghost next = digits.subrange(0, i - start + 1);
        proof {
            assert(next.drop_last() =~= seen);
            lemma_hex_value_prefix(digits, i - start + 1);
        }
        match hex_digit_value(text.get_char(i)) {
            None => {
                return None;
            },
            Some(d) => {
                if value > (u32::MAX - d) / 16 {
                    return None;
                }
                value = value * 16 + d;
            },
        }
        i += 1;
    }
    assert(digits.subrange(0, n - start) =~= digits);
    Some(value)
}

/// The number of `#` signs that a text begins with.
fn leading_hashes(text: &str) -> (k: usize)
    ensures
        k <= text@.len(),
        strip_hashes(text@) == text@.subrange(k as int, text@.len() as int),
{
    let n: usize = text.unicode_len();
    let mut k: usize = 0;
    assert(text@.subrange(0, n as int) =~= text@);
    while k < n && text.get_char(k) == '#'
        invariant
            k <= n == text@.len(),
            strip_hashes(text@) == strip_hashes(text@.subrange(k as int, n as int)),
        decreases n - k,
    {
        proof {
            let rest = text@.subrange(k as int, n as int);
            assert(rest.drop_first() =~= text@.subrange(k + 1, n as int));
        }
        k += 1;
    }
    k
}

/// Reads a colour from a hex string such as `#81A1C1`; the colour is opaque.
/// A string that is no hexadecimal number of at most 32 bits gives an opaque
/// mid grey.
pub fn parse_color(color_str: &str) -> (c: Color)
    ensures
        c == color_of(color_str@),
{
    let skipped: usize = leading_hashes(color_str);
    let rest: &str = color_str.substring_char(skipped, color_str.unicode_len());
    match parse_hex_u32(rest) {
        Some(value) => Color {
            red: (2 * ((value / 0x1_0000) % 0x100)) as u16,
            green: (2 * ((value / 0x100) % 0x100)) as u16,
            blue: (2 * (value % 0x100)) as u16,
            alpha: ONE,
        },
        None => Color { red: CHANNEL_HALF, green: CHANNEL_HALF, blue: CHANNEL_HALF, alpha: ONE },
    }
}

/// Reads a colour as [`parse_color`] does and gives it the alpha `alpha`.
pub fn parse_color_with_alpha(color_str: &str, alpha: i64) -> (c: Color)
    ensures
        c == (Color { alpha, ..color_of(color_str@) }),
{
    let opaque: Color = parse_color(color_str);
    Color { red: opaque.red, green: opaque.green, blue: opaque.blue, alpha }
}

/// The bytes of a number written with six hexadecimal digits are the three
/// pairs of digits.
proof fn lemma_bytes_of_six_digits(a: int, b: int, c: int, d: int, e: int, f: int)
    requires
        0 <= a < 16,
        0 <= b < 16,
        0 <= c < 16,
        0 <= d < 16,
        0 <= e < 16,
        0 <= f < 16,
    ensures
        ({
            let value = 0x10_0000 * a + 0x1_0000 * b + 0x1000 * c + 0x100 * d + 0x10 * e + f;
            &&& 0 <= value <= 0xff_ffff
            &&& (value / 0x1_0000) % 0x100 == 16 * a + b
            &&& (value / 0x100) % 0x100 == 16 * c + d
            &&& value % 0x100 == 16 * e + f
        }),
{
}

/// The number that six hexadecimal digits write.
proof fn lemma_value_of_six_digits(digits: Seq<char>)
    requires
        digits.len() == 6,
    ensures
        hex_value(digits) == 0x10_0000 * hex_value(seq![digits[0]]) + 0x1_0000 * hex_value(
            seq![digits[1]],
        ) + 0x1000 * hex_value(seq![digits[2]]) + 0x100 * hex_value(seq![digits[3]]) + 0x10
            * hex_value(seq![digits[4]]) + hex_value(seq![digits[5]]),
{
    lemma_hex_value_push(digits.subrange(0, 5), digits[5]);
    lemma_hex_value_push(digits.subrange(0, 4), digits[4]);
    lemma_hex_value_push(digits.subrange(0, 3), digits[3]);
    lemma_hex_value_push(digits.subrange(0, 2), digits[2]);
    lemma_hex_value_push(digits.subrange(0, 1), digits[1]);
    assert(digits.subrange(0, 5).push(digits[5]) =~= digits);
    assert(digits.subrange(0, 4).push(digits[4]) =~= digits.subrange(0, 5));
    assert(digits.subrange(0, 3).push(digits[3]) =~= digits.subrange(0, 4));
    assert(digits.subrange(0, 2).push(digits[2]) =~= digits.subrange(0, 3));
    assert(digits.subrange(0, 1).push(digits[1]) =~= digits.subrange(0, 2));
    assert(digits.subrange(0, 1) =~= seq![digits[0]]);
}

/// One more digit multiplies the number by sixteen and adds the digit.
proof fn lemma_hex_value_push(s: Seq<char>, c: char)
    ensures
        hex_value(s.push(c)) == 16 * hex_value(s) + hex_value(seq![c]),
        hex_value(seq![c]) == match hex_digit(c) {
            Some(d) => d,
            None => 0,
        },
        0 <= hex_value(seq![c]) < 16,
{
    assert(s.push(c).drop_last() =~= s);
    assert(seq![c].drop_last() =~= Seq::<char>::empty());
    assert(hex_value(Seq::<char>::empty()) == 0);
}

/// A `#` and six hexadecimal digits name the opaque colour whose red, green
/// and blue levels the three pairs of digits write.
pub proof fn lemma_six_digit_color(s: Seq<char>, digits: Seq<char>)
    requires
        digits.len() == 6,
        s =~= seq!['#'] + digits,
        all_hex(digits),
    ensures
        color_of(s) == (Color {
            red: (2 * (16 * hex_digit(digits[0])->0 + hex_digit(digits[1])->0)) as u16,
            green: (2 * (16 * hex_digit(digits[2])->0 + hex_digit(digits[3])->0)) as u16,
            blue: (2 * (16 * hex_digit(digits[4])->0 + hex_digit(digits[5])->0)) as u16,
            alpha: ONE,
        }),
{
    assert(strip_hashes(s) == digits) by {
        reveal_with_fuel(strip_hashes, 2);
    }
    lemma_value_of_six_digits(digits);
    lemma_hex_value_push(Seq::empty(), digits[0]);
    lemma_hex_value_push(Seq::empty(), digits[1]);
    lemma_hex_value_push(Seq::empty(), digits[2]);
    lemma_hex_value_push(Seq::empty(), digits[3]);
    lemma_hex_value_push(Seq::empty(), digits[4]);
    lemma_hex_value_push(Seq::empty(), digits[5]);
    lemma_bytes_of_six_digits(
        hex_value(seq![digits[0]]),
        hex_value(seq![digits[1]]),
        hex_value(seq![digits[2]]),
        hex_value(seq![digits[3]]),
        hex_value(seq![digits[4]]),
        hex_value(seq![digits[5]]),
    );
}

/// Every channel of a colour read from a string is within range.
pub proof fn lemma_color_of_in_range(s: Seq<char>)
    ensures
        color_of(s).red <= CHANNEL_FULL,
        color_of(s).green <= CHANNEL_FULL,
        color_of(s).blue <= CHANNEL_FULL,
        color_of(s).alpha == ONE,
{
}

} // verus!
