//! Colours of the theme files: `#RRGGBB` or `#RRGGBBAA` hexadecimal strings.
//! Each pair is read as a base-16 number the way the standard library reads
//! one, so a pair may also be a `+` sign and a single digit (`#+F0000`).

use vstd::prelude::*;
use vstd::string::StringSliceAdditionalSpecFns;

verus! {

/// A colour as four 8-bit channels; an opaque colour has alpha 255.
#[derive(Debug, Clone, Copy, PartialEq, Eq, Structural)]
pub struct Rgba8 {
    pub r: u8,
    pub g: u8,
    pub b: u8,
    pub a: u8,
}

pub assume_specification[ String::push ](s: &mut String, ch: char)
    ensures
        final(s)@ == old(s)@.push(ch),
;

/// The value of an ASCII hexadecimal digit, either case.
pub open spec fn hex_digit_value(c: u8) -> Option<u8> {
    if 48 <= c <= 57 {
        Some((c - 48) as u8)
    } else if 97 <= c <= 102 {
        Some((c - 87) as u8)
    } else if 65 <= c <= 70 {
        Some((c - 55) as u8)
    } else {
        None
    }
}

/// Parsing a two-byte string as a base-16 `u8`: two digits, or a `+` sign
/// followed by one digit.
pub open spec fn parse_hex_pair(c0: u8, c1: u8) -> Option<u8> {
    if c0 == 43 {
        hex_digit_value(c1)
    } else {
        match (hex_digit_value(c0), hex_digit_value(c1)) {
            (Some(h), Some(l)) => Some((h * 16 + l) as u8),
            _ => None,
        }
    }
}

/// The byte positions at which the colour parser cuts the string are
/// character boundaries (none of them holds a UTF-8 continuation byte).
pub open spec fn hex_cuts_on_boundaries(bytes: Seq<u8>) -> bool {
    (bytes.len() == 7 || bytes.len() == 9) ==> {
        &&& !vstd::utf8::is_continuation_byte(bytes[1])
        &&& !vstd::utf8::is_continuation_byte(bytes[3])
        &&& !vstd::utf8::is_continuation_byte(bytes[5])
        &&& bytes.len() == 9 ==> !vstd::utf8::is_continuation_byte(bytes[7])
    }
}

/// The colour that a hexadecimal string denotes: `#` and three channel
/// pairs, then an optional alpha pair. An alpha pair that does not parse
/// leaves the colour opaque.
pub open spec fn hex_to_color_spec(bytes: Seq<u8>) -> Option<Rgba8> {
    if bytes.len() == 7 || bytes.len() == 9 {
        let r = parse_hex_pair(bytes[1], bytes[2]);
        let g = parse_hex_pair(bytes[3], bytes[4]);
        let b = parse_hex_pair(bytes[5], bytes[6]);
        let a = if bytes.len() == 9 {
            parse_hex_pair(bytes[7], bytes[8])
        } else {
            None
        };
        if bytes[0] == 35 && r is Some && g is Some && b is Some {
            Some(
                Rgba8 {
                    r: r.unwrap(),
                    g: g.unwrap(),
                    b: b.unwrap(),
                    a: match a {
                        Some(a) => a,
                        None => 255u8,
                    },
                },
            )
        } else {
            None
        }
    } else {
        None
    }
}

fn hex_digit(c: u8) -> (r: Option<u8>)
    ensures
        r == hex_digit_value(c),
{
    if 48 <= c && c <= 57 {
        Some(c - 48)
    } else if 97 <= c && c <= 102 {
        Some(c - 87)
    } else if 65 <= c && c <= 70 {
        Some(c - 55)
    } else {
        None
    }
}

fn parse_pair(c0: u8, c1: u8) -> (r: Option<u8>)
    ensures
        r == parse_hex_pair(c0, c1),
{
    if c0 == 43 {
        return hex_digit(c1);
    }
    match (hex_digit(c0), hex_digit(c1)) {
        (Some(h), Some(l)) => Some(h * 16 + l),
        _ => None,
    }
}

/// Parses a colour written `#RRGGBB` or `#RRGGBBAA`; `None` when the string
/// is no such colour.
pub fn hex_to_color(hex: &str) -> (r: Option<Rgba8>)
    requires
        hex_cuts_on_boundaries(hex.spec_bytes()),
    ensures
        r == hex_to_color_spec(hex.spec_bytes()),
{
    let bytes = hex.as_bytes();
    let len = bytes.len();
    if len == 7 || len == 9 {
        let r = parse_pair(bytes[1], bytes[2]);
        let g = parse_pair(bytes[3], bytes[4]);
        let b = parse_pair(bytes[5], bytes[6]);
        let a = if len == 9 {
            parse_pair(bytes[7], bytes[8])
        } else {
            None
        };
        if bytes[0] == 35 {
            match (r, g, b) {
                (Some(r), Some(g), Some(b)) => {
                    let a = match a {
                        Some(a) => a,
                        None => 255u8,
                    };
                    return Some(Rgba8 { r, g, b, a });
                },
                _ => {},
            }
        }
        return None;
    }
    None
}

/// The upper-case hexadecimal digit of `n < 16`.
pub open spec fn upper_hex_digit(n: u8) -> char {
    if n < 10 {
        (48 + n) as char
    } else {
        (55 + n) as char
    }
}

/// The two upper-case digits of a byte.
pub open spec fn hex_pair_chars(v: u8) -> Seq<char> {
    seq![upper_hex_digit(v / 16), upper_hex_digit(v % 16)]
}

/// The text of a colour: `#`, the three channels, and the alpha channel
/// only when the colour is not opaque.
pub open spec fn color_hex_chars(c: Rgba8) -> Seq<char> {
    seq!['#'] + hex_pair_chars(c.r) + hex_pair_chars(c.g) + hex_pair_chars(c.b) + if c.a
        < 255 {
        hex_pair_chars(c.a)
    } else {
        Seq::<char>::empty()
    }
}

fn upper_digit(n: u8) -> (c: char)
    requires
        n < 16,
    ensures
        c == upper_hex_digit(n),
{
    if n < 10 {
        (48 + n) as char
    } else {
        (55 + n) as char
    }
}

fn push_hex_pair(s: &mut String, v: u8)
    ensures
        final(s)@ == old(s)@ + hex_pair_chars(v),
{
    s.push(upper_digit(v / 16));
    s.push(upper_digit(v % 16));
}

/// Writes a colour as upper-case hexadecimal text.
pub fn color_to_hex(color: Rgba8) -> (hex: String)
    ensures
        hex@ == color_hex_chars(color),
{
    let mut hex = String::new();
    hex.push('#');
    push_hex_pair(&mut hex, color.r);
    push_hex_pair(&mut hex, color.g);
    push_hex_pair(&mut hex, color.b);
    if color.a < 255 {
        push_hex_pair(&mut hex, color.a);
    }
    hex
}

proof fn lemma_upper_hex_digit(n: u8)
    requires
        n < 16,
    ensures
        (upper_hex_digit(n) as u32) < 128,
        (upper_hex_digit(n) as u8) != 43u8,
        hex_digit_value(upper_hex_digit(n) as u8) == Some(n),
{
}

proof fn lemma_hex_pair_chars(v: u8)
    ensures
        hex_pair_chars(v).len() == 2,
        vstd::utf8::is_ascii_chars(hex_pair_chars(v)),
        parse_hex_pair(hex_pair_chars(v)[0] as u8, hex_pair_chars(v)[1] as u8) == Some(v),
{
    lemma_upper_hex_digit(v / 16);
    lemma_upper_hex_digit(v % 16);
}

/// Parsing gives back what writing wrote: the text of any colour is read
/// back as that colour, and it can be handed to the parser as it is.
pub proof fn lemma_color_hex_roundtrip(c: Rgba8)
    ensures
        hex_cuts_on_boundaries(vstd::utf8::encode_utf8(color_hex_chars(c))),
        hex_to_color_spec(vstd::utf8::encode_utf8(color_hex_chars(c))) == Some(c),
{
    let s = color_hex_chars(c);
    lemma_hex_pair_chars(c.r);
    lemma_hex_pair_chars(c.g);
    lemma_hex_pair_chars(c.b);
    lemma_hex_pair_chars(c.a);
    assert(vstd::utf8::is_ascii_chars(s));
    vstd::utf8::is_ascii_chars_encode_utf8(s);
    let bytes = vstd::utf8::encode_utf8(s);
    assert(bytes.len() == s.len());
    assert(forall|i: int| 0 <= i < s.len() ==> bytes[i] == s[i] as u8);
    assert(forall|i: int| 0 <= i < s.len() ==> (s[i] as u32) < 128);
    assert(bytes[0] == 35u8);
    assert(s[1] == hex_pair_chars(c.r)[0] && s[2] == hex_pair_chars(c.r)[1]);
    assert(s[3] == hex_pair_chars(c.g)[0] && s[4] == hex_pair_chars(c.g)[1]);
    assert(s[5] == hex_pair_chars(c.b)[0] && s[6] == hex_pair_chars(c.b)[1]);
    if c.a < 255 {
        assert(s[7] == hex_pair_chars(c.a)[0] && s[8] == hex_pair_chars(c.a)[1]);
    }
}

/// A byte as an upper-case character: lower-case ASCII letters are raised,
/// any other byte stands as it is.
pub open spec fn upper_ascii(c: u8) -> char {
    if 97 <= c <= 122 {
        (c - 32) as char
    } else {
        c as char
    }
}

/// A text's bytes as upper-case characters.
pub open spec fn upper_text(bytes: Seq<u8>) -> Seq<char> {
    Seq::new(bytes.len(), |i: int| upper_ascii(bytes[i]))
}

/// Whether the bytes are a colour written as `#RRGGBB` or `#RRGGBBAA` with
/// hexadecimal digits of either case, and an alpha other than fully opaque
/// (an opaque colour is written without alpha).
pub open spec fn is_hex_color_text(bytes: Seq<u8>) -> bool {
    &&& bytes.len() == 7 || bytes.len() == 9
    &&& bytes[0] == 35u8
    &&& forall|i: int| 1 <= i < bytes.len() ==> hex_digit_value(#[trigger] bytes[i]) is Some
    &&& bytes.len() == 9 ==> parse_hex_pair(bytes[7], bytes[8]) != Some(255u8)
}

proof fn lemma_pair_text(c0: u8, c1: u8)
    requires
        hex_digit_value(c0) is Some,
        hex_digit_value(c1) is Some,
    ensures
        parse_hex_pair(c0, c1) is Some,
        hex_pair_chars(parse_hex_pair(c0, c1).unwrap()) == seq![upper_ascii(c0), upper_ascii(c1)],
{
    let h = hex_digit_value(c0).unwrap();
    let l = hex_digit_value(c1).unwrap();
    assert(h < 16 && l < 16);
    let v = (h * 16 + l) as u8;
    assert(v / 16 == h && v % 16 == l);
    assert(upper_hex_digit(h) == upper_ascii(c0));
    assert(upper_hex_digit(l) == upper_ascii(c1));
}

/// Writing gives back what was parsed: a colour text read and written again
/// is the same text in upper case, and it can be handed to the parser as it
/// is.
pub proof fn lemma_hex_text_roundtrip(bytes: Seq<u8>)
    requires
        is_hex_color_text(bytes),
    ensures
        hex_cuts_on_boundaries(bytes),
        hex_to_color_spec(bytes) is Some,
        color_hex_chars(hex_to_color_spec(bytes).unwrap()) == upper_text(bytes),
{
    assert(hex_digit_value(bytes[1]) is Some && hex_digit_value(bytes[2]) is Some);
    assert(hex_digit_value(bytes[3]) is Some && hex_digit_value(bytes[4]) is Some);
    assert(hex_digit_value(bytes[5]) is Some && hex_digit_value(bytes[6]) is Some);
    lemma_pair_text(bytes[1], bytes[2]);
    lemma_pair_text(bytes[3], bytes[4]);
    lemma_pair_text(bytes[5], bytes[6]);
    let c = hex_to_color_spec(bytes).unwrap();
    let t = upper_text(bytes);
    if bytes.len() == 9 {
        assert(hex_digit_value(bytes[7]) is Some && hex_digit_value(bytes[8]) is Some);
        lemma_pair_text(bytes[7], bytes[8]);
        assert(c.a < 255);
        assert(color_hex_chars(c) =~= t);
    } else {
        assert(c.a == 255);
        assert(color_hex_chars(c) =~= t);
    }
}

/// The fully transparent colour that a style falls back to.
pub open spec fn transparent_spec() -> Rgba8 {
    Rgba8 { r: 0, g: 0, b: 0, a: 0 }
}

impl Rgba8 {
    /// The fully transparent colour.
    pub fn transparent() -> (c: Self)
        ensures
            c == transparent_spec(),
    {
        Rgba8 { r: 0, g: 0, b: 0, a: 0 }
    }
}

/// The state of a button as it is drawn.
#[derive(Debug, Clone, Copy, PartialEq, Eq, Structural)]
pub enum ButtonStatus {
    Active,
    Hovered,
    Pressed,
    Disabled,
}

/// The colours of one kind of button.
#[derive(Debug, Clone, Copy, PartialEq, Eq, Structural)]
pub struct ButtonType {
    pub background: Rgba8,
    pub background_hover: Rgba8,
    pub background_selected: Rgba8,
    pub background_selected_hover: Rgba8,
}

impl ButtonType {
    /// Every colour transparent.
    pub fn default() -> (b: Self)
        ensures
            b == ButtonType::default_spec(),
    {
        ButtonType {
            background: Rgba8::transparent(),
            background_hover: Rgba8::transparent(),
            background_selected: Rgba8::transparent(),
            background_selected_hover: Rgba8::transparent(),
        }
    }

    /// The background of a button of this kind: the selected colours when
    /// the button is selected; the hover colour while hovered; the plain
    /// one when active, pressed or disabled.
    pub fn background(&self, status: ButtonStatus, selected: bool) -> (c: Rgba8)
        ensures
            status == ButtonStatus::Hovered && selected ==> c == self.background_selected_hover,
            status == ButtonStatus::Hovered && !selected ==> c == self.background_hover,
            status != ButtonStatus::Hovered && selected ==> c == self.background_selected,
            status != ButtonStatus::Hovered && !selected ==> c == self.background,
    {
        let background = if selected { self.background_selected } else { self.background };
        let background_hover = if selected {
            self.background_selected_hover
        } else {
            self.background_hover
        };
        match status {
            ButtonStatus::Hovered => background_hover,
            _ => background,
        }
    }
}

/// The border colour of a buffer's pane: the focus colour when it has the
/// focus.
pub fn buffer_border(border: Rgba8, border_focus: Rgba8, focus: bool) -> (c: Rgba8)
    ensures
        focus ==> c == border_focus,
        !focus ==> c == border,
{
    if focus {
        border_focus
    } else {
        border
    }
}

/// The general colours.
#[derive(Debug, Clone, Copy, PartialEq, Eq, Structural)]
pub struct General {
    pub background: Rgba8,
    pub background_success: Rgba8,
    pub background_failure: Rgba8,
    pub border: Rgba8,
    pub scrollbar: Rgba8,
    pub horizontal_rule: Rgba8,
}

/// The colours of buffers' panes.
#[derive(Debug, Clone, Copy, PartialEq, Eq, Structural)]
pub struct Buffer {
    pub background: Rgba8,
    pub background_title_bar: Rgba8,
    pub border: Rgba8,
    pub border_focus: Rgba8,
}

/// The colours of text.
#[derive(Debug, Clone, Copy, PartialEq, Eq, Structural)]
pub struct Text {
    pub primary: Rgba8,
    pub secondary: Rgba8,
    pub tertiary: Rgba8,
}

/// The colours of the three kinds of button.
#[derive(Debug, Clone, Copy, PartialEq, Eq, Structural)]
pub struct Button {
    pub primary: ButtonType,
    pub secondary: ButtonType,
    pub dangerous: ButtonType,
}

/// All colours of a theme.
#[derive(Debug, Clone, Copy, PartialEq, Eq, Structural)]
pub struct Styles {
    pub general: General,
    pub buffer: Buffer,
    pub text: Text,
    pub button: Button,
}

impl General {
    /// Every colour transparent.
    pub fn default() -> (g: Self)
        ensures
            g.background == transparent_spec() && g.background_success == transparent_spec()
                && g.background_failure == transparent_spec() && g.border == transparent_spec()
                && g.scrollbar == transparent_spec() && g.horizontal_rule == transparent_spec(),
    {
        let t = Rgba8::transparent();
        General {
            background: t,
            background_success: t,
            background_failure: t,
            border: t,
            scrollbar: t,
            horizontal_rule: t,
        }
    }
}

impl Buffer {
    /// Every colour transparent.
    pub fn default() -> (b: Self)
        ensures
            b.background == transparent_spec() && b.background_title_bar == transparent_spec()
                && b.border == transparent_spec() && b.border_focus == transparent_spec(),
    {
        let t = Rgba8::transparent();
        Buffer { background: t, background_title_bar: t, border: t, border_focus: t }
    }
}

impl Text {
    /// Every colour transparent.
    pub fn default() -> (x: Self)
        ensures
            x.primary == transparent_spec() && x.secondary == transparent_spec()
                && x.tertiary == transparent_spec(),
    {
        let t = Rgba8::transparent();
        Text { primary: t, secondary: t, tertiary: t }
    }
}

impl Button {
    /// Every colour transparent.
    pub fn default() -> (b: Self)
        ensures
            b.primary == ButtonType::default_spec() && b.secondary == ButtonType::default_spec()
                && b.dangerous == ButtonType::default_spec(),
    {
        Button {
            primary: ButtonType::default(),
            secondary: ButtonType::default(),
            dangerous: ButtonType::default(),
        }
    }
}

impl ButtonType {
    /// The button colours that a theme file that sets none has.
    pub open spec fn default_spec() -> ButtonType {
        ButtonType {
            background: transparent_spec(),
            background_hover: transparent_spec(),
            background_selected: transparent_spec(),
            background_selected_hover: transparent_spec(),
        }
    }
}

/// A named set of styles.
#[derive(Debug, Clone)]
pub struct Theme {
    pub name: String,
    pub styles: Styles,
}

impl Theme {
    /// The colours of a button of the given kind.
    pub fn button_type(&self, kind: ButtonKind) -> (b: ButtonType)
        ensures
            kind == ButtonKind::Primary ==> b == self.styles.button.primary,
            kind == ButtonKind::Secondary ==> b == self.styles.button.secondary,
            kind == ButtonKind::Dangerous ==> b == self.styles.button.dangerous,
    {
        match kind {
            ButtonKind::Primary => self.styles.button.primary,
            ButtonKind::Secondary => self.styles.button.secondary,
            ButtonKind::Dangerous => self.styles.button.dangerous,
        }
    }
}

/// The kinds of button.
#[derive(Debug, Clone, Copy, PartialEq, Eq, Structural)]
pub enum ButtonKind {
    Primary,
    Secondary,
    Dangerous,
}

/// The name of the theme used when none is chosen.
pub open spec fn default_theme_name() -> Seq<char> {
    "GruvBoxMedium"@
}

/// The name of the default theme.
pub fn default_theme_name_text() -> (s: String)
    ensures
        s@ == default_theme_name(),
{
    String::from_str("GruvBoxMedium")
}

} // verus!
