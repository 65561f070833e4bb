//! Configuration values the daemon works from: binding defaults, the screen
//! layout, the character order file and the display size report.

use vstd::prelude::*;

use crate::text::{
    chars_of, has_prefix, is_white, is_white_char, parse_unsigned, parse_unsigned_chars,
    slice_chars, split_chars, split_on, starts_with, string_of, trim, trim_chars, trim_start,
    trim_start_chars, views_of,
};

verus! {

/// Mouse buttons are listened to unless configured otherwise.
pub fn default_enable_mouse() -> (r: bool)
    ensures
        r,
{
    true
}

/// `BTN_SIDE`, mouse button 9.
pub fn default_forward_button() -> (r: u16)
    ensures
        r == 276,
{
    276
}

/// `BTN_EXTRA`, mouse button 8.
pub fn default_backward_button() -> (r: u16)
    ensures
        r == 275,
{
    275
}

/// Keyboard keys are off unless configured, to avoid clashing with games.
pub fn default_enable_keyboard() -> (r: bool)
    ensures
        !r,
{
    false
}

/// `KEY_TAB`.
pub fn default_forward_key() -> (r: u16)
    ensures
        r == 15,
{
    15
}

/// `KEY_TAB`; with a modifier configured, modifier+Tab goes backward.
pub fn default_backward_key() -> (r: u16)
    ensures
        r == 15,
{
    15
}

pub fn default_show_overlay() -> (r: bool)
    ensures
        r,
{
    true
}

/// No configured mouse device: the first suitable one is used.
pub fn default_mouse_device_path() -> (r: Option<String>)
    ensures
        r is None,
{
    None
}

pub fn default_minimize_inactive() -> (r: bool)
    ensures
        !r,
{
    false
}

/// No configured keyboard device: the first suitable one is used.
pub fn default_keyboard_device_path() -> (r: Option<String>)
    ensures
        r is None,
{
    None
}

/// No modifier key for the backward binding.
pub fn default_modifier_key() -> (r: Option<u16>)
    ensures
        r is None,
{
    None
}

/// The display and client window sizes, in pixels.
#[derive(Debug, Clone, Copy, PartialEq, Eq, Structural)]
pub struct DisplayLayout {
    pub display_width: u32,
    pub display_height: u32,
    pub panel_height: u32,
    pub eve_width: u32,
    pub eve_height: u32,
}

impl DisplayLayout {
    /// The height left to a client window once the panel is taken off.
    pub fn eve_height_adjusted(&self) -> (r: u32)
        requires
            self.panel_height <= self.display_height,
        ensures
            r == self.display_height - self.panel_height,
    {
        self.display_height - self.panel_height
    }

    /// The rectangle every client window is stacked into: the client width,
    /// centred horizontally, from the top of the screen down to the panel.
    pub fn stack_rect(&self) -> (r: (i32, i32, u32, u32))
        requires
            self.panel_height <= self.display_height,
        ensures
            r.0 == (if self.eve_width <= self.display_width {
                (self.display_width - self.eve_width) / 2
            } else {
                0
            }),
            r.1 == 0,
            r.2 == self.eve_width,
            r.3 == self.display_height - self.panel_height,
    {
        let x: u32 = if self.eve_width <= self.display_width {
            (self.display_width - self.eve_width) / 2
        } else {
            0
        };
        (x as i32, 0, self.eve_width, self.eve_height_adjusted())
    }
}

/// The names a character order file lists: one per line, trimmed, with
/// blank lines and lines starting with `#` left out.
pub open spec fn listed_names(lines: Seq<Seq<char>>) -> Seq<Seq<char>>
    decreases lines.len(),
{
    if lines.len() == 0 {
        Seq::empty()
    } else {
        let rest = listed_names(lines.drop_last());
        let t = trim(lines.last());
        if t.len() == 0 || has_prefix(t, "#"@) {
            rest
        } else {
            rest.push(t)
        }
    }
}

/// The character names of a character order file, in order.
pub open spec fn character_names(contents: Seq<char>) -> Seq<Seq<char>> {
    listed_names(split_on(contents, '\n'))
}

/// Reads the contents of a character order file.
pub fn parse_characters(contents: &str) -> (r: Vec<String>)
    ensures
        r@.map_values(|s: String| s@) == character_names(contents@),
{
    let cs = chars_of(contents);
    let lines = split_chars(cs.as_slice(), '\n');
    let ghost pieces = split_on(contents@, '\n');
    let mut names: Vec<String> = Vec::new();
    let mut i: usize = 0;
    while i < lines.len()
        invariant
            i <= lines@.len(),
            views_of(lines@) == pieces,
            names@.map_values(|s: String| s@) == listed_names(pieces.subrange(0, i as int)),
        decreases lines.len() - i,
    {
        let ghost before = pieces.subrange(0, i as int);
        assert(pieces.subrange(0, i as int + 1).drop_last() =~= before);
        assert(lines@[i as int]@ == pieces[i as int]);
        let t = trim_chars(lines[i].as_slice());
        let hash = chars_of("#");
        let is_comment = starts_with(t.as_slice(), hash.as_slice());
        if t.len() > 0 && !is_comment {
            names.push(string_of(t.as_slice()));
            assert(names@.map_values(|s: String| s@) =~= listed_names(before).push(t@));
        }
        i = i + 1;
    }
    assert(pieces.subrange(0, lines@.len() as int) =~= pieces);
    names
}

/// The leading run of non-whitespace characters of `s`.
pub open spec fn take_word(s: Seq<char>) -> Seq<char>
    decreases s.len(),
{
    if s.len() == 0 || is_white(s[0]) {
        Seq::empty()
    } else {
        seq![s[0]] + take_word(s.drop_first())
    }
}

/// The first whitespace-separated word of a line.
pub open spec fn first_word(line: Seq<char>) -> Seq<char> {
    take_word(trim_start(line))
}

/// The size a display report line gives: a line marked current (holding
/// `*` and `x`) whose first word is `<width>x<height>`.
pub open spec fn size_in_line(line: Seq<char>) -> Option<(u32, u32)> {
    if line.contains('*') && line.contains('x') {
        let w = first_word(line);
        match w.index_of_first('x') {
            None => None,
            Some(k) => match (
                parse_unsigned(w.subrange(0, k), u32::MAX as nat),
                parse_unsigned(w.subrange(k + 1, w.len() as int), u32::MAX as nat),
            ) {
                (Some(width), Some(height)) => Some((width as u32, height as u32)),
                _ => None,
            },
        }
    } else {
        None
    }
}

/// The size given by the first line that gives one.
pub open spec fn size_in_lines(lines: Seq<Seq<char>>) -> Option<(u32, u32)>
    decreases lines.len(),
{
    if lines.len() == 0 {
        None
    } else {
        match size_in_line(lines[0]) {
            Some(p) => Some(p),
            None => size_in_lines(lines.drop_first()),
        }
    }
}

/// The first word of a line.
fn first_word_chars(line: &[char]) -> (r: Vec<char>)
    ensures
        r@ == first_word(line@),
{
    let t = trim_start_chars(line);
    let mut j: usize = 0;
    assert(t@.subrange(0, 0) + t@.subrange(0, t@.len() as int) =~= t@);
    while j < t.len() && !is_white_char(t[j])
        invariant
            j <= t@.len(),
            take_word(t@) == t@.subrange(0, j as int) + take_word(
                t@.subrange(j as int, t@.len() as int),
            ),
        decreases t.len() - j,
    {
        let ghost rest = t@.subrange(j as int, t@.len() as int);
        assert(rest.drop_first() =~= t@.subrange(j as int + 1, t@.len() as int));
        assert(t@.subrange(0, j as int + 1) =~= t@.subrange(0, j as int) + seq![t@[j as int]]);
        j = j + 1;
    }
    assert(take_word(t@.subrange(j as int, t@.len() as int)) =~= Seq::<char>::empty());
    slice_chars(t.as_slice(), 0, j)
}

/// The first position of `c` in `s`.
fn position_of_char(s: &[char], c: char) -> (r: Option<usize>)
    ensures
        match r {
            Some(k) => s@.index_of_first(c) == Some(k as int),
            None => s@.index_of_first(c) is None,
        },
{
    let mut i: usize = 0;
    while i < s.len()
        invariant
            i <= s@.len(),
            forall|j: int| 0 <= j < i ==> s@[j] != c,
        decreases s.len() - i,
    {
        if s[i] == c {
            proof {
                assert(s@.contains(c));
                s@.index_of_first_ensures(c);
                let idx = s@.index_of_first(c)->0;
                assert(idx == i);
            }
            return Some(i);
        }
        i = i + 1;
    }
    proof {
        s@.index_of_first_ensures(c);
    }
    None
}

/// The size one display report line gives, if any.
fn size_in_line_chars(line: &[char]) -> (r: Option<(u32, u32)>)
    ensures
        r == size_in_line(line@),
{
    let has_star = position_of_char(line, '*').is_some();
    let has_x = position_of_char(line, 'x').is_some();
    proof {
        line@.index_of_first_ensures('*');
        line@.index_of_first_ensures('x');
    }
    if !(has_star && has_x) {
        return None;
    }
    let w = first_word_chars(line);
    match position_of_char(w.as_slice(), 'x') {
        None => None,
        Some(k) => {
            proof {
                w@.index_of_first_ensures('x');
            }
            let left = slice_chars(w.as_slice(), 0, k);
            let right = slice_chars(w.as_slice(), k + 1, w.len());
            let width = parse_unsigned_chars(left.as_slice(), u32::MAX as u64);
            let height = parse_unsigned_chars(right.as_slice(), u32::MAX as u64);
            match (width, height) {
                (Some(a), Some(b)) => Some((a as u32, b as u32)),
                _ => None,
            }
        },
    }
}

/// The size a display report gives.
pub open spec fn size_in_report(report: Seq<char>) -> Option<(u32, u32)> {
    size_in_lines(split_on(report, '\n'))
}

/// The display size: the current mode of the display report when it names
/// one, 1920x1080 otherwise (no report, or nothing readable in it).
pub fn detect_display_size(report: Option<&str>) -> (r: (u32, u32))
    ensures
        r == match report {
            Some(text) => match size_in_report(text@) {
                Some(p) => p,
                None => (1920u32, 1080u32),
            },
            None => (1920u32, 1080u32),
        },
{
    let text = match report {
        Some(t) => t,
        None => return (1920, 1080),
    };
    let cs = chars_of(text);
    let lines = split_chars(cs.as_slice(), '\n');
    let ghost pieces = split_on(text@, '\n');
    let mut i: usize = 0;
    assert(pieces.subrange(0, pieces.len() as int) =~= pieces);
    while i < lines.len()
        invariant
            i <= lines@.len(),
            views_of(lines@) == pieces,
            pieces == split_on(text@, '\n'),
            report == Some(text),
            size_in_lines(pieces) == size_in_lines(pieces.subrange(i as int, pieces.len() as int)),
        decreases lines.len() - i,
    {
        let ghost rest = pieces.subrange(i as int, pieces.len() as int);
        assert(rest.drop_first() =~= pieces.subrange(i as int + 1, pieces.len() as int));
        assert(lines@[i as int]@ == rest[0]);
        match size_in_line_chars(lines[i].as_slice()) {
            Some(p) => return p,
            None => {},
        }
        i = i + 1;
    }
    (1920, 1080)
}

} // verus!
