//! The colours of the terminal interface, taken from a blog theme's
//! colours where they read as `#rrggbb`. Turning colours into terminal
//! styles happens outside the library.
use vstd::prelude::*;
use crate::text::chars_of;
use crate::tui::app::AppMode;
use crate::utils::{utf8_len, utf8_len_exceeds};
use crate::generator::search_index::{byte_boundary, is_byte_boundary, lemma_boundary_unique};

verus! {

/// A terminal colour.
#[derive(Clone, Copy, PartialEq, Eq, Structural, Debug)]
pub enum ThemeColor {
    Black,
    Blue,
    Cyan,
    Green,
    Magenta,
    Yellow,
    White,
    Gray,
    DarkGray,
    Rgb(u8, u8, u8),
}

/// The colours of the terminal interface.
#[derive(Clone, Copy, PartialEq, Eq, Structural, Debug)]
pub struct TuiTheme {
    pub primary_color: ThemeColor,
    pub secondary_color: ThemeColor,
    pub background_color: ThemeColor,
    pub text_color: ThemeColor,
    pub border_color: ThemeColor,
    pub focused_border_color: ThemeColor,
    pub cursor_color: ThemeColor,
}

/// The value of a hexadecimal digit.
pub open spec fn hex_value(c: char) -> Option<nat> {
    if '0' <= c && c <= '9' {
        Some((c as nat - '0' as nat) as nat)
    } else if 'a' <= c && c <= 'f' {
        Some((c as nat - 'a' as nat + 10) as nat)
    } else if 'A' <= c && c <= 'F' {
        Some((c as nat - 'A' as nat + 10) as nat)
    } else {
        None
    }
}

/// What `u8::from_str_radix(p, 16)` gives for a piece of two bytes: two
/// hexadecimal digits, or `+` and one.
pub open spec fn byte_of_piece(p: Seq<char>) -> Option<u8> {
    if p.len() == 2 && p[0] == '+' && hex_value(p[1]) is Some {
        Some(hex_value(p[1])->0 as u8)
    } else if p.len() == 2 && hex_value(p[0]) is Some && hex_value(p[1]) is Some {
        Some((hex_value(p[0])->0 * 16 + hex_value(p[1])->0) as u8)
    } else {
        None
    }
}

/// The digits after `#`, when there are six bytes of them.
pub open spec fn hex_part(s: Seq<char>) -> Option<Seq<char>> {
    if s.len() > 0 && s[0] == '#' && utf8_len(s.skip(1)) == 6 { Some(s.skip(1)) } else { None }
}

/// Whether the pieces of a colour can be cut out: its digits, if six
/// bytes long, are cut after bytes 2 and 4, which must end characters.
pub open spec fn color_cuts(s: Seq<char>) -> bool {
    match hex_part(s) {
        Some(h) => (exists|k: int| is_byte_boundary(h, k, 2)) && (exists|k: int| is_byte_boundary(h, k, 4)),
        None => true,
    }
}

/// The colour a text names: `#rrggbb` in hexadecimal.
pub open spec fn color_named(s: Seq<char>) -> Option<ThemeColor> {
    match hex_part(s) {
        None => None,
        Some(h) => {
            let a = choose|k: int| is_byte_boundary(h, k, 2);
            let b = choose|k: int| is_byte_boundary(h, k, 4);
            match (byte_of_piece(h.take(a)), byte_of_piece(h.subrange(a, b)), byte_of_piece(h.skip(b))) {
                (Some(r), Some(g), Some(bl)) => Some(ThemeColor::Rgb(r, g, bl)),
                _ => None,
            }
        },
    }
}

fn hex_digit(c: char) -> (res: Option<u8>)
    ensures
        match hex_value(c) {
            Some(v) => res == Some(v as u8),
            None => res is None,
        },
{
    if '0' <= c && c <= '9' {
        Some((c as u32 - '0' as u32) as u8)
    } else if 'a' <= c && c <= 'f' {
        Some((c as u32 - 'a' as u32 + 10) as u8)
    } else if 'A' <= c && c <= 'F' {
        Some((c as u32 - 'A' as u32 + 10) as u8)
    } else {
        None
    }
}

fn piece_byte(v: &Vec<char>, from: usize, to: usize) -> (res: Option<u8>)
    requires
        from <= to <= v@.len(),
    ensures
        res == byte_of_piece(v@.subrange(from as int, to as int)),
{
    if to - from != 2 {
        return None;
    }
    let c0 = v[from];
    let c1 = v[from + 1];
    let d1 = match hex_digit(c1) {
        Some(d) => d,
        None => return None,
    };
    if c0 == '+' {
        return Some(d1);
    }
    match hex_digit(c0) {
        Some(d0) => Some(d0 * 16 + d1),
        None => None,
    }
}

impl TuiTheme {
    /// Reads a colour written `#rrggbb`.
    pub fn parse_color(color: &str) -> (res: Option<ThemeColor>)
        requires
            color_cuts(color@),
        ensures
            res == color_named(color@),
    {
        let v = chars_of(color);
        if v.len() == 0 || v[0] != '#' {
            return None;
        }
        let mut h: Vec<char> = Vec::new();
        let mut i: usize = 1;
        while i < v.len()
            invariant
                1 <= i <= v@.len(),
                h@ == v@.subrange(1, i as int),
            decreases v.len() - i,
        {
            h.push(v[i]);
            i += 1;
        }
        assert(h@ =~= color@.skip(1));
        if utf8_len_exceeds(&h, 6) || !utf8_len_exceeds(&h, 5) {
            return None;
        }
        let a = match byte_boundary(&h, 2) {
            Some(a) => a,
            None => return None,
        };
        let b = match byte_boundary(&h, 4) {
            Some(b) => b,
            None => return None,
        };
        proof {
            let ca = choose|k: int| is_byte_boundary(h@, k, 2);
            let cb = choose|k: int| is_byte_boundary(h@, k, 4);
            lemma_boundary_unique(h@, a as int, ca, 2);
            lemma_boundary_unique(h@, b as int, cb, 4);
            if a > b {
                crate::utils::lemma_utf8_len_prefix(h@.take(a as int), b as int);
                assert(h@.take(a as int).take(b as int) =~= h@.take(b as int));
            }
            assert(h@.take(a as int) =~= h@.subrange(0, a as int));
            assert(h@.skip(b as int) =~= h@.subrange(b as int, h@.len() as int));
        }
        if a > b {
            return None;
        }
        let r = piece_byte(&h, 0, a);
        let g = piece_byte(&h, a, b);
        let bl = piece_byte(&h, b, h.len());
        match (r, g, bl) {
            (Some(r), Some(g), Some(bl)) => Some(ThemeColor::Rgb(r, g, bl)),
            _ => None,
        }
    }

    /// The colours of a blog theme: each one that does not read falls back
    /// to a default (blue, cyan, black); the text is white, borders gray,
    /// the focused border the primary colour and the cursor white.
    pub fn from_blog_theme(primary_color: &str, secondary_color: &str, background_color: &str) -> (res: TuiTheme)
        requires
            color_cuts(primary_color@),
            color_cuts(secondary_color@),
            color_cuts(background_color@),
        ensures
            res.primary_color == match color_named(primary_color@) { Some(c) => c, None => ThemeColor::Blue },
            res.secondary_color == match color_named(secondary_color@) { Some(c) => c, None => ThemeColor::Cyan },
            res.background_color == match color_named(background_color@) { Some(c) => c, None => ThemeColor::Black },
            res.text_color == ThemeColor::White,
            res.border_color == ThemeColor::Gray,
            res.focused_border_color == res.primary_color,
            res.cursor_color == ThemeColor::White,
    {
        let primary = match TuiTheme::parse_color(primary_color) {
            Some(c) => c,
            None => ThemeColor::Blue,
        };
        let secondary = match TuiTheme::parse_color(secondary_color) {
            Some(c) => c,
            None => ThemeColor::Cyan,
        };
        let background = match TuiTheme::parse_color(background_color) {
            Some(c) => c,
            None => ThemeColor::Black,
        };
        TuiTheme {
            primary_color: primary,
            secondary_color: secondary,
            background_color: background,
            text_color: ThemeColor::White,
            border_color: ThemeColor::Gray,
            focused_border_color: primary,
            cursor_color: ThemeColor::White,
        }
    }

    /// The default colours, those of the Minimal Retro theme.
    pub fn minimal_retro() -> (res: TuiTheme)
        ensures
            res.primary_color == ThemeColor::Rgb(255, 107, 53),
            res.secondary_color == ThemeColor::Rgb(247, 147, 30),
            res.background_color == ThemeColor::Rgb(45, 27, 15),
            res.text_color == ThemeColor::White,
            res.border_color == ThemeColor::DarkGray,
            res.focused_border_color == ThemeColor::Rgb(255, 107, 53),
            res.cursor_color == ThemeColor::Rgb(247, 147, 30),
    {
        TuiTheme {
            primary_color: ThemeColor::Rgb(255, 107, 53),
            secondary_color: ThemeColor::Rgb(247, 147, 30),
            background_color: ThemeColor::Rgb(45, 27, 15),
            text_color: ThemeColor::White,
            border_color: ThemeColor::DarkGray,
            focused_border_color: ThemeColor::Rgb(255, 107, 53),
            cursor_color: ThemeColor::Rgb(247, 147, 30),
        }
    }

    /// The colour that marks an editor mode.
    pub fn mode_color(&self, mode: AppMode) -> (res: ThemeColor)
        ensures
            res == match mode {
                AppMode::Normal => ThemeColor::Blue,
                AppMode::Insert => ThemeColor::Green,
                AppMode::Preview => ThemeColor::Magenta,
                AppMode::Help => ThemeColor::Yellow,
            },
    {
        match mode {
            AppMode::Normal => ThemeColor::Blue,
            AppMode::Insert => ThemeColor::Green,
            AppMode::Preview => ThemeColor::Magenta,
            AppMode::Help => ThemeColor::Yellow,
        }
    }

    /// The cursor colour.
    pub fn cursor_color(&self) -> (res: ThemeColor)
        ensures
            res == self.cursor_color,
    {
        self.cursor_color
    }
}

} // verus!
