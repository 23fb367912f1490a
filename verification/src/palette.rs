//! Palette text formats: Ultra Fractal `.ugr` gradients (their sections,
//! the tokens of their lines and their packed colour integers) and the
//! colours of a Fractint `.map` palette.

use vstd::prelude::*;

use crate::text::{
    blank, chars_equal, chars_of, is_blank, is_white_space, is_whitespace, parse_u32, spec_parse_u32,
    string_from_chars, trim_chars, trim_end_chars, trim_end_of, trimmed, chars_between, decimal_chars,
    push_str, spec_decimal, is_ascii_digit, lemma_decimal_digits, lemma_trimmed_ends, strippable, trim_start_of,
};

verus! {

/// The pieces of `s` between separators, empty pieces included: one more
/// piece than there are separators.
pub open spec fn pieces(s: Seq<char>, is_separator: spec_fn(char) -> bool) -> Seq<Seq<char>>
    decreases s.len(),
{
    if s.len() == 0 {
        seq![Seq::empty()]
    } else {
        let before = pieces(s.drop_last(), is_separator);
        if is_separator(s.last()) {
            before.push(Seq::empty())
        } else {
            before.update(before.len() - 1, before.last().push(s.last()))
        }
    }
}

proof fn lemma_pieces_nonempty(s: Seq<char>, is_separator: spec_fn(char) -> bool)
    ensures
        pieces(s, is_separator).len() >= 1,
    decreases s.len(),
{
    if s.len() > 0 {
        lemma_pieces_nonempty(s.drop_last(), is_separator);
    }
}

/// Separates the lines of a palette file.
pub open spec fn is_newline(c: char) -> bool {
    c == '\n'
}

/// Separates the numbers of a `.map` line.
pub open spec fn is_field_separator(c: char) -> bool {
    c == ',' || is_white_space(c)
}

/// Splits `chars` at every character the `field` flag selects (a comma or
/// white space) or else at every newline.
fn split_pieces(chars: &Vec<char>, field: bool) -> (out: Vec<Vec<char>>)
    ensures
        out@.len() == pieces(chars@, if field { |c: char| is_field_separator(c) } else { |c: char| is_newline(c) }).len(),
        forall|i: int| 0 <= i < out@.len() ==> (#[trigger] out@[i])@ == pieces(
            chars@,
            if field { |c: char| is_field_separator(c) } else { |c: char| is_newline(c) },
        )[i],
{
    let ghost sep: spec_fn(char) -> bool = if field { |c: char| is_field_separator(c) } else { |c: char| is_newline(c) };
    let mut out: Vec<Vec<char>> = Vec::new();
    let mut current: Vec<char> = Vec::new();
    let mut i: usize = 0;
    assert(chars@.take(0) =~= Seq::<char>::empty());
    while i < chars.len()
        invariant
            i <= chars.len(),
            sep == (if field { |c: char| is_field_separator(c) } else { |c: char| is_newline(c) }),
            out@.len() + 1 == pieces(chars@.take(i as int), sep).len(),
            forall|j: int| 0 <= j < out@.len() ==> (#[trigger] out@[j])@ == pieces(chars@.take(i as int), sep)[j],
            current@ == pieces(chars@.take(i as int), sep).last(),
        decreases chars.len() - i,
    {
        let c = chars[i];
        let separator = if field { c == ',' || is_whitespace(c) } else { c == '\n' };
        assert(chars@.take(i as int + 1).drop_last() =~= chars@.take(i as int));
        assert(chars@.take(i as int + 1).last() == c);
        proof {
            lemma_pieces_nonempty(chars@.take(i as int), sep);
        }
        if separator {
            let mut finished: Vec<char> = Vec::new();
            std::mem::swap(&mut finished, &mut current);
            out.push(finished);
        } else {
            current.push(c);
        }
        i += 1;
    }
    assert(chars@.take(chars.len() as int) =~= chars@);
    out.push(current);
    out
}

/// The colour a `.map` line describes: its first three non-empty fields,
/// when all three are decimal `u32`s, each capped at 255.
pub open spec fn spec_map_line_colour(line: Seq<char>) -> Option<[u8; 3]> {
    let fields = pieces(line, |c: char| is_field_separator(c)).filter(|f: Seq<char>| f.len() > 0);
    if fields.len() >= 3 && spec_parse_u32(fields[0]) is Some && spec_parse_u32(fields[1]) is Some
        && spec_parse_u32(fields[2]) is Some {
        Some([
            capped_byte(spec_parse_u32(fields[0])->0),
            capped_byte(spec_parse_u32(fields[1])->0),
            capped_byte(spec_parse_u32(fields[2])->0),
        ])
    } else {
        None
    }
}

/// A channel value capped at 255.
pub open spec fn capped_byte(value: u32) -> u8 {
    if value > 255 { 255 } else { value as u8 }
}

/// The colours of a `.map` palette: one per line that describes one, in order.
pub open spec fn spec_map_colours(lines: Seq<Seq<char>>) -> Seq<[u8; 3]>
    decreases lines.len(),
{
    if lines.len() == 0 {
        Seq::empty()
    } else {
        let before = spec_map_colours(lines.drop_last());
        match spec_map_line_colour(lines.last()) {
            Some(colour) => before.push(colour),
            None => before,
        }
    }
}

fn capped(value: u32) -> (byte: u8)
    ensures
        byte == capped_byte(value),
{
    if value > 255 { 255 } else { value as u8 }
}

/// The colour of one `.map` line, if it describes one.
fn map_line_colour(line: &Vec<char>) -> (colour: Option<[u8; 3]>)
    ensures
        colour == spec_map_line_colour(line@),
{
    let fields = split_pieces(line, true);
    let ghost all = pieces(line@, |c: char| is_field_separator(c));
    let ghost keep = |f: Seq<char>| f.len() > 0;
    let mut numbers: Vec<u32> = Vec::new();
    let mut seen: usize = 0;
    let mut i: usize = 0;
    assert(all.take(0).filter(keep) =~= Seq::<Seq<char>>::empty());
    while i < fields.len() && seen < 3
        invariant
            keep == (|f: Seq<char>| f.len() > 0),
            all == pieces(line@, |c: char| is_field_separator(c)),
            fields@.len() == all.len(),
            forall|j: int| 0 <= j < fields@.len() ==> (#[trigger] fields@[j])@ == all[j],
            i <= fields.len(),
            seen <= 3,
            seen == all.take(i as int).filter(keep).len(),
            numbers@.len() <= seen,
            numbers@.len() == seen ==> forall|k: int| 0 <= k < seen ==> spec_parse_u32(all.take(i as int).filter(keep)[k]) == Some(#[trigger] numbers@[k]),
            numbers@.len() < seen ==> exists|k: int| 0 <= k < seen && spec_parse_u32(#[trigger] all.take(i as int).filter(keep)[k]) is None,
        decreases fields.len() - i,
    {
        let field = &fields[i];
        proof {
            assert(all.take(i as int + 1).drop_last() =~= all.take(i as int));
            assert(fields@[i as int]@ == all[i as int]);
            assert(all.take(i as int + 1).last() == all[i as int]);
        }
        if field.len() > 0 {
            let parsed = parse_u32(field);
            proof {
                reveal_with_fuel(Seq::filter, 1);
                assert(keep(all[i as int]));
                assert(all.take(i as int + 1).filter(keep) =~= all.take(i as int).filter(keep).push(all[i as int]));
            }
            let ghost before = all.take(i as int).filter(keep);
            let ghost after = all.take(i as int + 1).filter(keep);
            proof {
                assert forall|k: int| 0 <= k < seen implies after[k] == before[k] by {}
                if numbers@.len() < seen {
                    let k = choose|k: int| 0 <= k < seen && spec_parse_u32(#[trigger] before[k]) is None;
                    assert(spec_parse_u32(after[k]) is None);
                }
                if parsed is None && numbers@.len() == seen {
                    assert(after[seen as int] == all[i as int]);
                    assert(spec_parse_u32(after[seen as int]) is None);
                }
            }
            if let Some(value) = parsed {
                if numbers.len() == seen {
                    numbers.push(value);
                }
            }
            seen += 1;
        } else {
            proof {
                reveal_with_fuel(Seq::filter, 1);
                assert(!keep(all[i as int]));
                assert(all.take(i as int + 1).filter(keep) =~= all.take(i as int).filter(keep));
            }
        }
        i += 1;
    }
    proof {
        let taken = all.take(i as int).filter(keep);
        let full = all.filter(keep);
        if i < fields.len() {
            lemma_filter_prefix(all, keep, i as int);
        } else {
            assert(all.take(i as int) =~= all);
        }
        assert(forall|k: int| 0 <= k < taken.len() ==> taken[k] == full[k]);
    }
    if numbers.len() == 3 {
        Some([capped(numbers[0]), capped(numbers[1]), capped(numbers[2])])
    } else {
        None
    }
}

/// Filtering a prefix gives a prefix of the filtered sequence.
proof fn lemma_filter_prefix(s: Seq<Seq<char>>, keep: spec_fn(Seq<char>) -> bool, n: int)
    requires
        0 <= n <= s.len(),
    ensures
        s.take(n).filter(keep).len() <= s.filter(keep).len(),
        forall|k: int| 0 <= k < s.take(n).filter(keep).len() ==> s.take(n).filter(keep)[k] == s.filter(keep)[k],
    decreases s.len() - n,
{
    if n < s.len() {
        lemma_filter_prefix(s, keep, n + 1);
        reveal_with_fuel(Seq::filter, 1);
        assert(s.take(n + 1).drop_last() =~= s.take(n));
    } else {
        assert(s.take(n) =~= s);
    }
}

/// Builds the colours of a `.map` palette from its lines.
fn map_colours_of_lines(lines: &Vec<Vec<char>>) -> (colours: Vec<[u8; 3]>)
    ensures
        colours@ == spec_map_colours(lines@.map_values(|line: Vec<char>| line@)),
{
    let ghost texts = lines@.map_values(|line: Vec<char>| line@);
    let mut colours: Vec<[u8; 3]> = Vec::new();
    let mut i: usize = 0;
    assert(texts.take(0) =~= Seq::<Seq<char>>::empty());
    while i < lines.len()
        invariant
            texts == lines@.map_values(|line: Vec<char>| line@),
            i <= lines.len(),
            colours@ == spec_map_colours(texts.take(i as int)),
        decreases lines.len() - i,
    {
        let colour = map_line_colour(&lines[i]);
        proof {
            assert(texts.take(i as int + 1).drop_last() =~= texts.take(i as int));
            assert(texts.take(i as int + 1).last() == lines@[i as int]@);
        }
        if let Some(rgb) = colour {
            colours.push(rgb);
        }
        i += 1;
    }
    assert(texts.take(lines.len() as int) =~= texts);
    colours
}

/// The colours of a Fractint `.map` palette, one per line whose first three
/// fields (separated by commas or white space) are decimal numbers, each
/// capped at 255. A palette needs at least two colours.
pub open spec fn spec_map_palette(text: Seq<char>) -> Seq<[u8; 3]> {
    spec_map_colours(pieces(text, |c: char| is_newline(c)))
}

/// Reads the colours of a Fractint `.map` palette (lines of `r g b`).
pub fn map_palette_colours(text: &str) -> (result: Result<Vec<[u8; 3]>, String>)
    ensures
        result is Ok <==> spec_map_palette(text@).len() >= 2,
        result matches Ok(colours) ==> colours@ == spec_map_palette(text@),
        result matches Err(message) ==> message@
            == "expected a .ugr gradient or a .map palette with at least two `r g b` lines"@,
{
    let chars = chars_of(text);
    let lines = split_pieces(&chars, false);
    let colours = map_colours_of_lines(&lines);
    proof {
        assert(lines@.map_values(|line: Vec<char>| line@) =~= pieces(text@, |c: char| is_newline(c)));
    }
    if colours.len() < 2 {
        return Err("expected a .ugr gradient or a .map palette with at least two `r g b` lines".to_owned());
    }
    Ok(colours)
}

/// Tokenizer state after part of a `.ugr` line: finished tokens, the token
/// being read, and whether a quote is open.
pub open spec fn ugr_scan(line: Seq<char>) -> (Seq<Seq<char>>, Seq<char>, bool)
    decreases line.len(),
{
    if line.len() == 0 {
        (Seq::empty(), Seq::empty(), false)
    } else {
        let (tokens, current, quoted) = ugr_scan(line.drop_last());
        let ch = line.last();
        if ch == '"' {
            (tokens, current.push(ch), !quoted)
        } else if (ch == ' ' || ch == '\t') && !quoted {
            if current.len() > 0 { (tokens.push(current), Seq::empty(), quoted) } else { (tokens, current, quoted) }
        } else {
            (tokens, current.push(ch), quoted)
        }
    }
}

/// The `key=value` tokens of a `.ugr` line: runs separated by spaces or
/// tabs outside double quotes, quotes kept, empty runs dropped.
pub open spec fn spec_ugr_tokens(line: Seq<char>) -> Seq<Seq<char>> {
    let (tokens, current, _quoted) = ugr_scan(line);
    if current.len() > 0 { tokens.push(current) } else { tokens }
}

/// Splits a `.ugr` line into `key=value` tokens, keeping quoted titles
/// (which may contain spaces) intact.
pub fn split_ugr_tokens(line: &str) -> (tokens: Vec<String>)
    ensures
        tokens@.len() == spec_ugr_tokens(line@).len(),
        forall|i: int| 0 <= i < tokens@.len() ==> (#[trigger] tokens@[i])@ == spec_ugr_tokens(line@)[i],
{
    let chars = chars_of(line);
    let mut tokens: Vec<String> = Vec::new();
    let mut current: Vec<char> = Vec::new();
    let mut quoted = false;
    let mut i: usize = 0;
    assert(line@.take(0) =~= Seq::<char>::empty());
    while i < chars.len()
        invariant
            chars@ == line@,
            i <= chars.len(),
            tokens@.len() == ugr_scan(line@.take(i as int)).0.len(),
            forall|j: int| 0 <= j < tokens@.len() ==> (#[trigger] tokens@[j])@ == ugr_scan(line@.take(i as int)).0[j],
            current@ == ugr_scan(line@.take(i as int)).1,
            quoted == ugr_scan(line@.take(i as int)).2,
        decreases chars.len() - i,
    {
        let ch = chars[i];
        proof {
            assert(line@.take(i as int + 1).drop_last() =~= line@.take(i as int));
            assert(line@.take(i as int + 1).last() == ch);
        }
        if ch == '"' {
            quoted = !quoted;
            current.push(ch);
        } else if (ch == ' ' || ch == '\t') && !quoted {
            if current.len() > 0 {
                let token = string_from_chars(&current);
                tokens.push(token);
                current = Vec::new();
            }
        } else {
            current.push(ch);
        }
        i += 1;
    }
    assert(line@.take(chars.len() as int) =~= line@);
    if current.len() > 0 {
        tokens.push(string_from_chars(&current));
    }
    tokens
}

/// The position of the first `c` in `s`.
pub open spec fn first_position(s: Seq<char>, c: char) -> Option<int>
    decreases s.len(),
{
    if s.len() == 0 {
        None
    } else if s[0] == c {
        Some(0)
    } else {
        match first_position(s.drop_first(), c) {
            Some(p) => Some(p + 1),
            None => None,
        }
    }
}

/// A `key=value` token split at its first `=`.
pub open spec fn key_value(token: Seq<char>) -> Option<(Seq<char>, Seq<char>)> {
    match first_position(token, '=') {
        Some(p) => Some((token.subrange(0, p), token.subrange(p + 1, token.len() as int))),
        None => None,
    }
}

/// What the tokens of a `.ugr` control-point line set: the gradient's title,
/// smoothness and rotation as written, and the line's index as written and
/// colour integer.
pub struct UgrLine {
    pub title: Option<Seq<char>>,
    pub smooth: bool,
    pub rotation: Option<Seq<char>>,
    pub index: Option<Seq<char>>,
    pub colour: Option<u32>,
}

/// One `key=value` token read into the line: `title` (its quotes trimmed),
/// `smooth` (`yes` or not), `rotation` and `index` (as written) and `color`
/// (a decimal `u32`, or none); other tokens change nothing.
pub open spec fn ugr_token(line: UgrLine, token: Seq<char>) -> UgrLine {
    match key_value(token) {
        None => line,
        Some((key, value)) => if key == "title"@ {
            UgrLine { title: Some(trimmed(value, Some('"'))), ..line }
        } else if key == "smooth"@ {
            UgrLine { smooth: value == "yes"@, ..line }
        } else if key == "rotation"@ {
            UgrLine { rotation: Some(value), ..line }
        } else if key == "index"@ {
            UgrLine { index: Some(value), ..line }
        } else if key == "color"@ {
            UgrLine { colour: spec_parse_u32(value), ..line }
        } else {
            line
        },
    }
}

/// The tokens of a line read in order.
pub open spec fn ugr_tokens_read(line: UgrLine, tokens: Seq<Seq<char>>) -> UgrLine
    decreases tokens.len(),
{
    if tokens.len() == 0 {
        line
    } else {
        ugr_token(ugr_tokens_read(line, tokens.drop_last()), tokens.last())
    }
}

/// A `.ugr` gradient as written: its name, whether it is smooth, its
/// rotation as written, and its control points (index as written, colour
/// integer).
pub type UgrGradientView = (Seq<char>, bool, Option<Seq<char>>, Seq<(Seq<char>, u32)>);

/// The state of reading a `.ugr` text after some of its lines: the name of
/// the current entry, whether a `gradient:` section (and in it an
/// `opacity:` part) is open, what the open gradient has read so far, and
/// the gradients finished.
pub struct UgrReading {
    pub name: Seq<char>,
    pub in_gradient: bool,
    pub in_opacity: bool,
    pub title: Option<Seq<char>>,
    pub smooth: bool,
    pub rotation: Option<Seq<char>>,
    pub stops: Seq<(Seq<char>, u32)>,
    pub gradients: Seq<UgrGradientView>,
}

/// The state before the first line.
pub open spec fn ugr_start() -> UgrReading {
    UgrReading {
        name: Seq::empty(),
        in_gradient: false,
        in_opacity: false,
        title: None,
        smooth: false,
        rotation: None,
        stops: Seq::empty(),
        gradients: Seq::empty(),
    }
}

/// One line read, trimmed of white space: blank lines are skipped; an entry
/// header (`name {`) outside a gradient names the entry; `gradient:` opens a
/// gradient afresh and `opacity:` its opacity part; a line starting with `}`
/// closes the gradient, keeping it when it has a control point; any other
/// line inside a gradient (outside its opacity part) is read token by token,
/// and adds a control point when it gives both an index and a colour.
pub open spec fn ugr_read_line(state: UgrReading, raw: Seq<char>) -> UgrReading {
    let line = trimmed(raw, None);
    if line.len() == 0 {
        state
    } else if line.last() == '{' && !state.in_gradient {
        UgrReading { name: trimmed(trim_end_of(line, Some('{')), None), ..state }
    } else if line == "gradient:"@ {
        UgrReading {
            in_gradient: true,
            in_opacity: false,
            stops: Seq::empty(),
            smooth: false,
            rotation: None,
            title: None,
            ..state
        }
    } else if line == "opacity:"@ {
        UgrReading { in_opacity: true, ..state }
    } else if line[0] == '}' {
        UgrReading {
            gradients: if state.in_gradient && state.stops.len() > 0 {
                state.gradients.push(
                    (
                        match state.title {
                            Some(title) => title,
                            None => state.name,
                        },
                        state.smooth,
                        state.rotation,
                        state.stops,
                    ),
                )
            } else {
                state.gradients
            },
            in_gradient: false,
            in_opacity: false,
            ..state
        }
    } else if !state.in_gradient || state.in_opacity {
        state
    } else {
        let read = ugr_tokens_read(
            UgrLine { title: state.title, smooth: state.smooth, rotation: state.rotation, index: None, colour: None },
            spec_ugr_tokens(line),
        );
        UgrReading {
            title: read.title,
            smooth: read.smooth,
            rotation: read.rotation,
            stops: if read.index is Some && read.colour is Some {
                state.stops.push((read.index->0, read.colour->0))
            } else {
                state.stops
            },
            ..state
        }
    }
}

/// The lines read in order.
pub open spec fn ugr_lines_read(lines: Seq<Seq<char>>) -> UgrReading
    decreases lines.len(),
{
    if lines.len() == 0 {
        ugr_start()
    } else {
        ugr_read_line(ugr_lines_read(lines.drop_last()), lines.last())
    }
}

/// The gradients of a `.ugr` text, as written.
pub open spec fn spec_read_ugr(text: Seq<char>) -> Seq<UgrGradientView> {
    ugr_lines_read(pieces(text, |c: char| is_newline(c))).gradients
}

/// One control point as a `.ugr` line writes it: its index as written (a
/// position in 1/400ths of a turn) and its colour integer.
#[derive(Clone, Debug)]
pub struct UgrStop {
    pub index: String,
    pub colour: u32,
}

impl View for UgrStop {
    type V = (Seq<char>, u32);

    open spec fn view(&self) -> (Seq<char>, u32) {
        (self.index@, self.colour)
    }
}

/// The text of an optional string.
pub open spec fn text_option(text: Option<String>) -> Option<Seq<char>> {
    match text {
        Some(t) => Some(t@),
        None => None,
    }
}

/// A `.ugr` gradient as written: its name, whether it is smooth, its
/// rotation as written (in 1/400ths of a turn) and its control points.
#[derive(Clone, Debug)]
pub struct UgrGradient {
    pub name: String,
    pub smooth: bool,
    pub rotation: Option<String>,
    pub stops: Vec<UgrStop>,
}

impl View for UgrGradient {
    type V = UgrGradientView;

    open spec fn view(&self) -> UgrGradientView {
        (self.name@, self.smooth, text_option(self.rotation), self.stops@.map_values(|stop: UgrStop| stop@))
    }
}

/// The characters of an optional run.
pub open spec fn chars_option(chars: Option<Vec<char>>) -> Option<Seq<char>> {
    match chars {
        Some(c) => Some(c@),
        None => None,
    }
}

fn copy_chars(chars: &Vec<char>) -> (copy: Vec<char>)
    ensures
        copy@ == chars@,
{
    let copy = chars_between(chars, 0, chars.len());
    assert(chars@.subrange(0, chars@.len() as int) =~= chars@);
    copy
}

fn copy_option(chars: &Option<Vec<char>>) -> (copy: Option<Vec<char>>)
    ensures
        chars_option(copy) == chars_option(*chars),
{
    match chars {
        Some(c) => Some(copy_chars(c)),
        None => None,
    }
}

fn text_of(chars: &Option<Vec<char>>) -> (text: Option<String>)
    ensures
        text_option(text) == chars_option(*chars),
{
    match chars {
        Some(c) => Some(string_from_chars(c)),
        None => None,
    }
}

fn copy_stops(stops: &Vec<UgrStop>) -> (copy: Vec<UgrStop>)
    ensures
        copy@.map_values(|stop: UgrStop| stop@) == stops@.map_values(|stop: UgrStop| stop@),
{
    let mut copy: Vec<UgrStop> = Vec::new();
    let mut i: usize = 0;
    while i < stops.len()
        invariant
            i <= stops.len(),
            copy@.len() == i,
            forall|j: int| 0 <= j < i ==> (#[trigger] copy@[j])@ == stops@[j]@,
        decreases stops.len() - i,
    {
        copy.push(UgrStop { index: stops[i].index.clone(), colour: stops[i].colour });
        i += 1;
    }
    assert(copy@.map_values(|stop: UgrStop| stop@) =~= stops@.map_values(|stop: UgrStop| stop@));
    copy
}

proof fn lemma_first_position(s: Seq<char>, c: char, i: int)
    requires
        0 <= i <= s.len(),
        forall|j: int| 0 <= j < i ==> s[j] != c,
        i == s.len() || s[i] == c,
    ensures
        first_position(s, c) == (if i < s.len() { Some(i) } else { None::<int> }),
    decreases i,
{
    if i > 0 {
        lemma_first_position(s.drop_first(), c, i - 1);
    }
}

/// Splits a token at its first `=`.
fn split_key_value(token: &Vec<char>) -> (parts: Option<(Vec<char>, Vec<char>)>)
    ensures
        match parts {
            Some((key, value)) => key_value(token@) == Some((key@, value@)),
            None => key_value(token@) is None,
        },
{
    let mut i: usize = 0;
    while i < token.len() && token[i] != '='
        invariant
            i <= token.len(),
            forall|j: int| 0 <= j < i ==> token@[j] != '=',
        decreases token.len() - i,
    {
        i += 1;
    }
    proof {
        lemma_first_position(token@, '=', i as int);
    }
    if i < token.len() {
        Some((chars_between(token, 0, i), chars_between(token, i + 1, token.len())))
    } else {
        None
    }
}

/// What a control-point line has read so far.
struct LineReading {
    title: Option<Vec<char>>,
    smooth: bool,
    rotation: Option<Vec<char>>,
    index: Option<Vec<char>>,
    colour: Option<u32>,
}

impl LineReading {
    spec fn spec_line(self) -> UgrLine {
        UgrLine {
            title: chars_option(self.title),
            smooth: self.smooth,
            rotation: chars_option(self.rotation),
            index: chars_option(self.index),
            colour: self.colour,
        }
    }

    fn read_token(&mut self, token: &Vec<char>)
        ensures
            final(self).spec_line() == ugr_token(old(self).spec_line(), token@),
    {
        if let Some((key, value)) = split_key_value(token) {
            if chars_equal(&key, &chars_of("title")) {
                self.title = Some(trim_chars(&value, Some('"')));
            } else if chars_equal(&key, &chars_of("smooth")) {
                self.smooth = chars_equal(&value, &chars_of("yes"));
            } else if chars_equal(&key, &chars_of("rotation")) {
                self.rotation = Some(value);
            } else if chars_equal(&key, &chars_of("index")) {
                self.index = Some(value);
            } else if chars_equal(&key, &chars_of("color")) {
                self.colour = parse_u32(&value);
            }
        }
    }
}

/// The exec state of reading a `.ugr` text.
struct Reading {
    name: Vec<char>,
    in_gradient: bool,
    in_opacity: bool,
    title: Option<Vec<char>>,
    smooth: bool,
    rotation: Option<Vec<char>>,
    stops: Vec<UgrStop>,
    gradients: Vec<UgrGradient>,
}

impl Reading {
    spec fn spec_reading(self) -> UgrReading {
        UgrReading {
            name: self.name@,
            in_gradient: self.in_gradient,
            in_opacity: self.in_opacity,
            title: chars_option(self.title),
            smooth: self.smooth,
            rotation: chars_option(self.rotation),
            stops: self.stops@.map_values(|stop: UgrStop| stop@),
            gradients: self.gradients@.map_values(|gradient: UgrGradient| gradient@),
        }
    }

    fn read_line(&mut self, raw: &Vec<char>)
        ensures
            final(self).spec_reading() == ugr_read_line(old(self).spec_reading(), raw@),
    {
        let line = trim_chars(raw, None);
        if line.len() == 0 {
            return;
        }
        if line[line.len() - 1] == '{' && !self.in_gradient {
            let head = trim_end_chars(&line, '{');
            self.name = trim_chars(&head, None);
            return;
        }
        if chars_equal(&line, &chars_of("gradient:")) {
            self.in_gradient = true;
            self.in_opacity = false;
            self.stops = Vec::new();
            self.smooth = false;
            self.rotation = None;
            self.title = None;
            proof {
                assert(self.stops@.map_values(|stop: UgrStop| stop@) =~= Seq::<(Seq<char>, u32)>::empty());
            }
            return;
        }
        if chars_equal(&line, &chars_of("opacity:")) {
            self.in_opacity = true;
            return;
        }
        if line[0] == '}' {
            if self.in_gradient && self.stops.len() > 0 {
                let name = match &self.title {
                    Some(title) => string_from_chars(title),
                    None => string_from_chars(&self.name),
                };
                let gradient = UgrGradient {
                    name,
                    smooth: self.smooth,
                    rotation: text_of(&self.rotation),
                    stops: copy_stops(&self.stops),
                };
                let ghost before = self.gradients@;
                self.gradients.push(gradient);
                proof {
                    assert(self.gradients@.map_values(|g: UgrGradient| g@) =~= before.map_values(
                        |g: UgrGradient| g@,
                    ).push(gradient@));
                }
            }
            self.in_gradient = false;
            self.in_opacity = false;
            return;
        }
        if !self.in_gradient || self.in_opacity {
            return;
        }
        let tokens = split_ugr_tokens(string_from_chars(&line).as_str());
        let mut read = LineReading {
            title: copy_option(&self.title),
            smooth: self.smooth,
            rotation: copy_option(&self.rotation),
            index: None,
            colour: None,
        };
        let ghost start = read.spec_line();
        let ghost all = spec_ugr_tokens(line@);
        let mut i: usize = 0;
        proof {
            assert(all.take(0) =~= Seq::<Seq<char>>::empty());
        }
        while i < tokens.len()
            invariant
                i <= tokens.len(),
                tokens@.len() == all.len(),
                forall|j: int| 0 <= j < tokens@.len() ==> (#[trigger] tokens@[j])@ == all[j],
                read.spec_line() == ugr_tokens_read(start, all.take(i as int)),
            decreases tokens.len() - i,
        {
            let token = chars_of(tokens[i].as_str());
            read.read_token(&token);
            proof {
                assert(all.take(i as int + 1).drop_last() =~= all.take(i as int));
                assert(all.take(i as int + 1).last() == all[i as int]);
            }
            i += 1;
        }
        proof {
            assert(all.take(all.len() as int) =~= all);
        }
        self.title = read.title;
        self.smooth = read.smooth;
        self.rotation = read.rotation;
        if let (Some(index), Some(colour)) = (read.index, read.colour) {
            let ghost before = self.stops@;
            let stop = UgrStop { index: string_from_chars(&index), colour };
            self.stops.push(stop);
            proof {
                assert(self.stops@.map_values(|s: UgrStop| s@) =~= before.map_values(|s: UgrStop| s@).push(stop@));
            }
        }
    }
}

/// Reads the gradients of a `.ugr` text as written; which control points
/// have an index that reads as a position is left to the caller.
pub fn read_ugr(text: &str) -> (gradients: Vec<UgrGradient>)
    ensures
        gradients@.map_values(|gradient: UgrGradient| gradient@) == spec_read_ugr(text@),
{
    let chars = chars_of(text);
    let lines = split_pieces(&chars, false);
    let ghost all = pieces(text@, |c: char| is_newline(c));
    let mut reading = Reading {
        name: Vec::new(),
        in_gradient: false,
        in_opacity: false,
        title: None,
        smooth: false,
        rotation: None,
        stops: Vec::new(),
        gradients: Vec::new(),
    };
    proof {
        assert(reading.name@ =~= Seq::<char>::empty());
        assert(reading.stops@.map_values(|stop: UgrStop| stop@) =~= Seq::<(Seq<char>, u32)>::empty());
        assert(reading.gradients@.map_values(|gradient: UgrGradient| gradient@) =~= Seq::<UgrGradientView>::empty());
        assert(all.take(0) =~= Seq::<Seq<char>>::empty());
    }
    let mut i: usize = 0;
    while i < lines.len()
        invariant
            i <= lines.len(),
            lines@.len() == all.len(),
            forall|j: int| 0 <= j < lines@.len() ==> (#[trigger] lines@[j])@ == all[j],
            reading.spec_reading() == ugr_lines_read(all.take(i as int)),
        decreases lines.len() - i,
    {
        reading.read_line(&lines[i]);
        proof {
            assert(all.take(i as int + 1).drop_last() =~= all.take(i as int));
            assert(all.take(i as int + 1).last() == all[i as int]);
        }
        i += 1;
    }
    proof {
        assert(all.take(all.len() as int) =~= all);
    }
    reading.gradients
}

/// The decimal text of an integer, with a leading `-` when it is negative.
pub open spec fn signed_decimal(value: i32) -> Seq<char> {
    if value < 0 {
        "-"@ + spec_decimal((0 - value) as nat)
    } else {
        spec_decimal(value as nat)
    }
}

/// The name a gradient is written under: its name trimmed of white space,
/// or `IteraScope` when nothing is left.
pub open spec fn ugr_name(name: Seq<char>) -> Seq<char> {
    if trimmed(name, None).len() == 0 {
        "IteraScope"@
    } else {
        trimmed(name, None)
    }
}

/// The line that titles a written gradient and gives its smoothness and
/// rotation.
pub open spec fn ugr_title_line(name: Seq<char>, smooth: bool, rotation: i32) -> Seq<char> {
    "  title=\""@ + name + "\" smooth="@ + (if smooth {
        "yes"@
    } else {
        "no"@
    }) + " rotation="@ + signed_decimal(rotation)
}

/// The line of one written control point.
pub open spec fn ugr_stop_line(index: i32, colour: u32) -> Seq<char> {
    "  index="@ + signed_decimal(index) + " color="@ + spec_decimal(colour as nat)
}

/// The lines of a text, each ended by a newline.
pub open spec fn joined_lines(lines: Seq<Seq<char>>) -> Seq<char>
    decreases lines.len(),
{
    if lines.len() == 0 {
        Seq::empty()
    } else {
        joined_lines(lines.drop_last()) + lines.last() + "\n"@
    }
}

/// The lines a gradient is written as: a header with its name, a
/// `gradient:` section with its title, smoothness, rotation and control
/// points (index and colour integer, positions in 1/400ths of a turn), and
/// an opaque `opacity:` part.
pub open spec fn ugr_lines(name: Seq<char>, smooth: bool, rotation: i32, stops: Seq<(i32, u32)>) -> Seq<Seq<char>> {
    let written = ugr_name(name);
    seq![written + " {"@, "gradient:"@, ugr_title_line(written, smooth, rotation)] + stops.map_values(
        |stop: (i32, u32)| ugr_stop_line(stop.0, stop.1),
    ) + seq!["opacity:"@, "  smooth=no"@, "  index=0 opacity=255"@, "}"@]
}

/// A gradient written as an Ultra Fractal `.ugr` entry: its lines, each
/// ended by a newline.
pub open spec fn spec_write_ugr(name: Seq<char>, smooth: bool, rotation: i32, stops: Seq<(i32, u32)>) -> Seq<char> {
    joined_lines(ugr_lines(name, smooth, rotation, stops))
}

/// Appends the decimal text of `value`.
fn push_signed(chars: &mut Vec<char>, value: i32)
    ensures
        final(chars)@ == old(chars)@ + signed_decimal(value),
{
    let magnitude: u64 = if value < 0 {
        (0i64 - value as i64) as u64
    } else {
        value as u64
    };
    if value < 0 {
        chars.push('-');
    }
    let mut digits = decimal_chars(magnitude);
    chars.append(&mut digits);
    proof {
        reveal_strlit("-");
        assert(magnitude as nat == if value < 0 { (0 - value) as nat } else { value as nat });
        assert(chars@ =~= old(chars)@ + signed_decimal(value));
    }
}

/// Appends a line and its newline.
fn push_line(out: &mut Vec<char>, line: &Vec<char>, Ghost(lines): Ghost<Seq<Seq<char>>>)
    requires
        old(out)@ == joined_lines(lines),
    ensures
        final(out)@ == joined_lines(lines.push(line@)),
{
    let mut copy = chars_between(line, 0, line.len());
    out.append(&mut copy);
    push_str(out, "\n");
    proof {
        assert(line@.subrange(0, line@.len() as int) =~= line@);
        assert(lines.push(line@).drop_last() =~= lines);
    }
}

/// Writes a gradient as an Ultra Fractal `.ugr` entry, from its name, its
/// smoothness, its rotation and its control points (index and colour
/// integer), positions in 1/400ths of a turn.
pub fn write_ugr(name: &str, smooth: bool, rotation: i32, stops: &Vec<(i32, u32)>) -> (text: String)
    ensures
        text@ == spec_write_ugr(name@, smooth, rotation, stops@),
{
    let trimmed_name = trim_chars(&chars_of(name), None);
    let written = if trimmed_name.len() == 0 {
        chars_of("IteraScope")
    } else {
        trimmed_name
    };
    let ghost all = ugr_lines(name@, smooth, rotation, stops@);
    let ghost count = stops@.len();
    let mut out: Vec<char> = Vec::new();
    let mut header = chars_between(&written, 0, written.len());
    push_str(&mut header, " {");
    let ghost none: Seq<Seq<char>> = Seq::empty();
    push_line(&mut out, &header, Ghost(none));
    let ghost first: Seq<Seq<char>> = seq![header@];
    assert(none.push(header@) =~= first);
    push_line(&mut out, &chars_of("gradient:"), Ghost(first));
    let mut title: Vec<char> = Vec::new();
    push_str(&mut title, "  title=\"");
    title.append(&mut chars_between(&written, 0, written.len()));
    push_str(&mut title, "\" smooth=");
    push_str(&mut title, if smooth { "yes" } else { "no" });
    push_str(&mut title, " rotation=");
    push_signed(&mut title, rotation);
    let ghost second: Seq<Seq<char>> = seq![header@, "gradient:"@];
    assert(first.push("gradient:"@) =~= second);
    push_line(&mut out, &title, Ghost(second));
    proof {
        assert(written@.subrange(0, written@.len() as int) =~= written@);
        assert(written@ == ugr_name(name@));
        assert(header@ == ugr_name(name@) + " {"@);
        assert(title@ =~= ugr_title_line(ugr_name(name@), smooth, rotation));
        assert(second.push(title@) =~= all.take(3));
    }
    let mut i: usize = 0;
    while i < stops.len()
        invariant
            i <= stops.len(),
            count == stops@.len(),
            all == ugr_lines(name@, smooth, rotation, stops@),
            all.len() == count + 7,
            forall|k: int| 0 <= k < count ==> all[3 + k] == ugr_stop_line(stops@[k].0, stops@[k].1),
            out@ == joined_lines(all.take(3 + i)),
        decreases stops.len() - i,
    {
        let (index, colour) = stops[i];
        let mut line: Vec<char> = Vec::new();
        push_str(&mut line, "  index=");
        push_signed(&mut line, index);
        push_str(&mut line, " color=");
        let mut digits = decimal_chars(colour as u64);
        line.append(&mut digits);
        proof {
            assert(line@ == all[3 + i as int]);
            assert(all.take(3 + i + 1) =~= all.take(3 + i).push(line@));
        }
        let ghost so_far = all.take(3 + i as int);
        push_line(&mut out, &line, Ghost(so_far));
        i += 1;
    }
    let ghost body = all.take(3 + count as int);
    push_line(&mut out, &chars_of("opacity:"), Ghost(body));
    let ghost opened = body.push("opacity:"@);
    push_line(&mut out, &chars_of("  smooth=no"), Ghost(opened));
    let ghost smooth_line = opened.push("  smooth=no"@);
    push_line(&mut out, &chars_of("  index=0 opacity=255"), Ghost(smooth_line));
    let ghost opaque = smooth_line.push("  index=0 opacity=255"@);
    push_line(&mut out, &chars_of("}"), Ghost(opaque));
    proof {
        assert(body.push("opacity:"@).push("  smooth=no"@).push("  index=0 opacity=255"@).push("}"@) =~= all);
    }
    string_from_chars(&out)
}

/// The red, green and blue bytes of an Ultra Fractal colour integer: red in
/// the low byte, blue in the third.
pub open spec fn spec_ugr_rgb(colour: u32) -> [u8; 3] {
    [(colour % 256) as u8, ((colour / 256) % 256) as u8, ((colour / 65536) % 256) as u8]
}

/// Splits an Ultra Fractal (COLORREF-style) colour integer into RGB bytes.
pub fn ugr_colour_rgb(colour: u32) -> (rgb: [u8; 3])
    ensures
        rgb == spec_ugr_rgb(colour),
{
    let r = (colour & 0xFF) as u8;
    let g = ((colour >> 8) & 0xFF) as u8;
    let b = ((colour >> 16) & 0xFF) as u8;
    assert(colour & 0xFF == colour % 256) by (bit_vector);
    assert((colour >> 8) & 0xFF == (colour / 256) % 256) by (bit_vector);
    assert((colour >> 16) & 0xFF == (colour / 65536) % 256) by (bit_vector);
    [r, g, b]
}

/// Packs RGB bytes into an Ultra Fractal colour integer.
pub fn ugr_colour_value(rgb: [u8; 3]) -> (colour: u32)
    ensures
        colour as nat == rgb[0] as nat + 256 * rgb[1] as nat + 65536 * rgb[2] as nat,
{
    let r = rgb[0] as u32;
    let g = rgb[1] as u32;
    let b = rgb[2] as u32;
    r + g * 256 + b * 65536
}

/// Unpacking a packed colour gives back its bytes.
pub proof fn ugr_colour_round_trips(rgb: [u8; 3])
    ensures
        spec_ugr_rgb((rgb[0] as nat + 256 * rgb[1] as nat + 65536 * rgb[2] as nat) as u32) == rgb,
{
    let v = rgb[0] as nat + 256 * rgb[1] as nat + 65536 * rgb[2] as nat;
    let r = rgb[0] as nat;
    let g = rgb[1] as nat;
    let b = rgb[2] as nat;
    assert(v % 256 == r && (v / 256) % 256 == g && (v / 65536) % 256 == b) by (nonlinear_arith)
        requires v == r + 256 * g + 65536 * b, r < 256, g < 256, b < 256;
    assert(spec_ugr_rgb(v as u32) =~= rgb);
}


/// The two palette text formats.
#[derive(Clone, Copy, Debug, PartialEq, Eq, Structural)]
pub enum PaletteFormat {
    /// Ultra Fractal gradients.
    UltraFractal,
    /// A Fractint colour map.
    FractintMap,
}

/// Whether `text` contains `part` starting somewhere.
pub open spec fn contains_text(text: Seq<char>, part: Seq<char>) -> bool {
    exists|start: int| 0 <= start && start + part.len() <= text.len() && #[trigger] text.subrange(start, start + part.len()) == part
}

/// The format of a palette text: refused when it is blank, Ultra Fractal
/// when it holds a `gradient:` section, a Fractint map otherwise.
pub open spec fn spec_palette_format(text: Seq<char>) -> Result<PaletteFormat, Seq<char>> {
    if is_blank(text) {
        Err("the text is empty"@)
    } else if contains_text(text, "gradient:"@) {
        Ok(PaletteFormat::UltraFractal)
    } else {
        Ok(PaletteFormat::FractintMap)
    }
}

/// Tells which palette format `text` is written in.
pub fn palette_format(text: &str) -> (format: Result<PaletteFormat, String>)
    ensures
        format matches Ok(f) ==> spec_palette_format(text@) == Ok::<PaletteFormat, Seq<char>>(f),
        format matches Err(message) ==> spec_palette_format(text@) == Err::<PaletteFormat, Seq<char>>(message@),
{
    if blank(text) {
        return Err("the text is empty".to_owned());
    }
    let chars = chars_of(text);
    let marker = chars_of("gradient:");
    let n = marker.len();
    if chars.len() >= n {
        let mut start: usize = 0;
        while start <= chars.len() - n
            invariant
                chars@ == text@,
                !is_blank(text@),
                marker@ == "gradient:"@,
                n == marker@.len(),
                n <= chars@.len(),
                start <= chars@.len() - n + 1,
                forall|s: int| 0 <= s < start ==> #[trigger] text@.subrange(s, s + n) != marker@,
            decreases chars.len() - n + 1 - start,
        {
            let mut offset: usize = 0;
            let mut matching = true;
            while matching && offset < n
                invariant
                    chars@ == text@,
                    n == marker@.len(),
                    start + n <= chars.len(),
                    offset <= n,
                    forall|j: int| 0 <= j < offset ==> chars@[start + j] == marker@[j],
                    !matching ==> offset < n && chars@[start + offset] != marker@[offset as int],
                decreases n - offset, if matching { 1int } else { 0int },
            {
                if chars[start + offset] == marker[offset] {
                    offset += 1;
                } else {
                    matching = false;
                }
            }
            if matching {
                assert(text@.subrange(start as int, start + n) =~= marker@);
                assert(contains_text(text@, "gradient:"@));
                return Ok(PaletteFormat::UltraFractal);
            }
            assert(text@.subrange(start as int, start + n) != marker@) by {
                assert(text@.subrange(start as int, start + n)[offset as int] == chars@[start + offset]);
            }
            start += 1;
        }
    }
    assert(!contains_text(text@, "gradient:"@)) by {
        if contains_text(text@, "gradient:"@) {
            let s = choose|s: int| 0 <= s && s + marker@.len() <= text@.len() && #[trigger] text@.subrange(s, s + marker@.len()) == marker@;
            assert(text@.subrange(s, s + n) == marker@);
        }
    }
    Ok(PaletteFormat::FractintMap)
}

/// Splitting a text whose last part holds no separator: the last piece
/// grows by that part.
proof fn lemma_pieces_of_part(prefix: Seq<char>, part: Seq<char>, is_separator: spec_fn(char) -> bool)
    requires
        forall|i: int| 0 <= i < part.len() ==> !is_separator(#[trigger] part[i]),
    ensures
        pieces(prefix + part, is_separator) == pieces(prefix, is_separator).update(
            pieces(prefix, is_separator).len() - 1,
            pieces(prefix, is_separator).last() + part,
        ),
    decreases part.len(),
{
    lemma_pieces_nonempty(prefix, is_separator);
    let before = pieces(prefix, is_separator);
    if part.len() == 0 {
        assert(prefix + part =~= prefix);
        assert(before.last() + part =~= before.last());
        assert(before.update(before.len() - 1, before.last()) =~= before);
    } else {
        let init = part.drop_last();
        lemma_pieces_of_part(prefix, init, is_separator);
        assert((prefix + part).drop_last() =~= prefix + init);
        assert((prefix + part).last() == part.last());
        let grown = before.update(before.len() - 1, before.last() + init);
        assert(grown.last() == before.last() + init);
        assert((before.last() + init).push(part.last()) =~= before.last() + part);
        assert(grown.update(grown.len() - 1, grown.last().push(part.last())) =~= before.update(
            before.len() - 1,
            before.last() + part,
        ));
    }
}

/// Lines free of separators, each ended by a newline separator, split back
/// into those lines and an empty last piece.
proof fn lemma_pieces_of_lines(lines: Seq<Seq<char>>, is_separator: spec_fn(char) -> bool)
    requires
        is_separator('\n'),
        forall|k: int, i: int| 0 <= k < lines.len() && 0 <= i < lines[k].len() ==> !is_separator(
            #[trigger] lines[k][i],
        ),
    ensures
        pieces(joined_lines(lines), is_separator) == lines.push(Seq::empty()),
    decreases lines.len(),
{
    reveal_strlit("\n");
    if lines.len() == 0 {
        assert(pieces(joined_lines(lines), is_separator) =~= seq![Seq::<char>::empty()]);
    } else {
        let init = lines.drop_last();
        assert forall|k: int, i: int| 0 <= k < init.len() && 0 <= i < init[k].len() implies !is_separator(
            #[trigger] init[k][i],
        ) by {
            assert(init[k] == lines[k]);
        }
        lemma_pieces_of_lines(init, is_separator);
        let body = joined_lines(init) + lines.last();
        assert forall|i: int| 0 <= i < lines.last().len() implies !is_separator(#[trigger] lines.last()[i]) by {
            assert(lines.last() == lines[lines.len() - 1]);
        }
        lemma_pieces_of_part(joined_lines(init), lines.last(), is_separator);
        assert(init.push(Seq::empty()).update(init.len() as int, Seq::<char>::empty() + lines.last()) =~= lines);
        let text = joined_lines(lines);
        assert(text.drop_last() =~= body);
        assert(text.last() == '\n');
    }
}

/// A run whose first and last characters are not white space is its own
/// trimmed form.
proof fn lemma_trimmed_itself(s: Seq<char>)
    requires
        s.len() > 0,
        !is_white_space(s[0]),
        !is_white_space(s.last()),
    ensures
        trimmed(s, None) == s,
{
    assert(trim_start_of(s, None) == s);
}

/// Two leading spaces are trimmed away.
proof fn lemma_trimmed_indented(s: Seq<char>)
    requires
        s.len() > 0,
        !is_white_space(s[0]),
        !is_white_space(s.last()),
    ensures
        trimmed(seq![' ', ' '] + s, None) == s,
{
    let indented = seq![' ', ' '] + s;
    assert(indented.drop_first() =~= seq![' '] + s);
    assert((seq![' '] + s).drop_first() =~= s);
    assert(trim_start_of(s, None) == s);
    assert(trim_start_of(seq![' '] + s, None) == s);
    assert(trim_start_of(indented, None) == s);
}


/// Characters that join the token being read: no quote, and no space or
/// tab unless a quote is open.
pub open spec fn joins_token(c: char, quoted: bool) -> bool {
    c != '"' && (quoted || (c != ' ' && c != '\t'))
}

/// Reading characters that join the current token extends it.
proof fn lemma_scan_joins(a: Seq<char>, b: Seq<char>)
    requires
        forall|i: int| 0 <= i < b.len() ==> joins_token(#[trigger] b[i], ugr_scan(a).2),
    ensures
        ugr_scan(a + b) == (ugr_scan(a).0, ugr_scan(a).1 + b, ugr_scan(a).2),
    decreases b.len(),
{
    if b.len() == 0 {
        assert(a + b =~= a);
        assert(ugr_scan(a).1 + b =~= ugr_scan(a).1);
    } else {
        let init = b.drop_last();
        lemma_scan_joins(a, init);
        assert((a + b).drop_last() =~= a + init);
        assert((a + b).last() == b.last());
        assert(joins_token(b[b.len() - 1], ugr_scan(a).2));
        assert((ugr_scan(a).1 + init).push(b.last()) =~= ugr_scan(a).1 + b);
    }
}

/// A quote joins the current token and opens or closes quoting.
proof fn lemma_scan_quote(a: Seq<char>)
    ensures
        ugr_scan(a.push('"')) == (ugr_scan(a).0, ugr_scan(a).1.push('"'), !ugr_scan(a).2),
{
    assert(a.push('"').drop_last() =~= a);
}

/// An unquoted space ends a non-empty current token.
proof fn lemma_scan_space(a: Seq<char>)
    requires
        !ugr_scan(a).2,
        ugr_scan(a).1.len() > 0,
    ensures
        ugr_scan(a.push(' ')) == (ugr_scan(a).0.push(ugr_scan(a).1), Seq::<char>::empty(), false),
{
    assert(a.push(' ').drop_last() =~= a);
}

/// The characters of a written number join any unquoted token.
proof fn lemma_signed_decimal_joins(value: i32)
    ensures
        signed_decimal(value).len() > 0,
        forall|i: int| 0 <= i < signed_decimal(value).len() ==> joins_token(#[trigger] signed_decimal(value)[i], false)
            && signed_decimal(value)[i] != '=' && !is_white_space(signed_decimal(value)[i]),
        is_ascii_digit(signed_decimal(value).last()),
{
    reveal_strlit("-");
    let magnitude: nat = if value < 0 { (0 - value) as nat } else { value as nat };
    lemma_decimal_digits(magnitude);
    let digits = spec_decimal(magnitude);
    assert forall|i: int| 0 <= i < signed_decimal(value).len() implies joins_token(#[trigger] signed_decimal(value)[i], false)
        && signed_decimal(value)[i] != '=' && !is_white_space(signed_decimal(value)[i]) by {
        if value < 0 && i > 0 {
            assert(signed_decimal(value)[i] == digits[i - 1]);
        } else if value >= 0 {
            assert(signed_decimal(value)[i] == digits[i]);
        }
    }
    assert(signed_decimal(value).last() == digits.last());
}

/// The characters of a colour integer join any unquoted token.
proof fn lemma_decimal_joins(value: u32)
    ensures
        spec_decimal(value as nat).len() > 0,
        forall|i: int| 0 <= i < spec_decimal(value as nat).len() ==> joins_token(#[trigger] spec_decimal(value as nat)[i], false)
            && !is_white_space(spec_decimal(value as nat)[i]),
        is_ascii_digit(spec_decimal(value as nat).last()),
        spec_parse_u32(spec_decimal(value as nat)) == Some(value),
{
    lemma_decimal_digits(value as nat);
}

/// A `key=value` token whose key holds no `=` splits at the end of its key.
proof fn lemma_key_value(key: Seq<char>, value: Seq<char>)
    requires
        forall|i: int| 0 <= i < key.len() ==> key[i] != '=',
    ensures
        key_value(key.push('=') + value) == Some((key, value)),
{
    let token = key.push('=') + value;
    assert forall|j: int| 0 <= j < key.len() implies token[j] != '=' by {
        assert(token[j] == key[j]);
    }
    lemma_first_position(token, '=', key.len() as int);
    assert(token.subrange(0, key.len() as int) =~= key);
    assert(token.subrange(key.len() as int + 1, token.len() as int) =~= value);
}


/// A name that can be written as a quoted title and read back: not empty,
/// and holding no quote and no newline.
pub open spec fn quotable(name: Seq<char>) -> bool {
    &&& name.len() > 0
    &&& forall|i: int| 0 <= i < name.len() ==> name[i] != '"' && name[i] != '\n'
}

/// Reading the tokens of a line, one at a time from the first.
proof fn lemma_three_tokens(start: UgrLine, a: Seq<char>, b: Seq<char>, c: Seq<char>)
    ensures
        ugr_tokens_read(start, seq![a, b, c]) == ugr_token(ugr_token(ugr_token(start, a), b), c),
{
    lemma_two_tokens(start, a, b);
    assert(seq![a, b, c].drop_last() =~= seq![a, b]);
}

proof fn lemma_two_tokens(start: UgrLine, a: Seq<char>, b: Seq<char>)
    ensures
        ugr_tokens_read(start, seq![a, b]) == ugr_token(ugr_token(start, a), b),
{
    assert(seq![a].drop_last() =~= Seq::<Seq<char>>::empty());
    assert(ugr_tokens_read(start, Seq::<Seq<char>>::empty()) == start);
    assert(ugr_tokens_read(start, seq![a]) == ugr_token(start, a));
    assert(seq![a, b].drop_last() =~= seq![a]);
}

/// The title line of a written gradient, read inside its `gradient:`
/// section, sets the title, smoothness and rotation it writes.
proof fn lemma_read_title_line(state: UgrReading, name: Seq<char>, smooth: bool, rotation: i32)
    requires
        state.in_gradient,
        !state.in_opacity,
        quotable(name),
    ensures
        ugr_read_line(state, ugr_title_line(name, smooth, rotation)) == (UgrReading {
            title: Some(name),
            smooth,
            rotation: Some(signed_decimal(rotation)),
            ..state
        }),
{
    reveal_strlit("  title=\"");
    reveal_strlit("\" smooth=");
    reveal_strlit(" rotation=");
    reveal_strlit("yes");
    reveal_strlit("no");
    reveal_strlit("gradient:");
    reveal_strlit("opacity:");
    reveal_strlit("title");
    reveal_strlit("smooth");
    reveal_strlit("rotation");
    let yn: Seq<char> = if smooth { "yes"@ } else { "no"@ };
    let r = signed_decimal(rotation);
    lemma_signed_decimal_joins(rotation);
    let key1 = seq!['t', 'i', 't', 'l', 'e'];
    let p1 = key1.push('=');
    let p2 = p1.push('"');
    let p3 = p2 + name;
    let p4 = p3.push('"');
    let p5 = p4.push(' ');
    let key2 = seq!['s', 'm', 'o', 'o', 't', 'h'];
    let t2 = key2.push('=') + yn;
    let p6 = p5 + t2;
    let p7 = p6.push(' ');
    let key3 = seq!['r', 'o', 't', 'a', 't', 'i', 'o', 'n'];
    let t3 = key3.push('=') + r;
    let p8 = p7 + t3;
    let line = ugr_title_line(name, smooth, rotation);
    assert(line =~= seq![' ', ' '] + p8);
    assert(p8.last() == r.last());
    lemma_trimmed_indented(p8);
    // Tokens.
    let empty = Seq::<char>::empty();
    assert(ugr_scan(empty) == (Seq::<Seq<char>>::empty(), empty, false));
    lemma_scan_joins(empty, p1);
    assert(empty + p1 =~= p1);
    lemma_scan_quote(p1);
    assert forall|i: int| 0 <= i < name.len() implies joins_token(#[trigger] name[i], true) by {}
    lemma_scan_joins(p2, name);
    lemma_scan_quote(p3);
    assert(ugr_scan(p4).1 =~= p4);
    lemma_scan_space(p4);
    assert forall|i: int| 0 <= i < t2.len() implies joins_token(#[trigger] t2[i], false) by {
        if i >= 7 {
            assert(t2[i] == yn[i - 7]);
        }
    }
    lemma_scan_joins(p5, t2);
    assert(Seq::<char>::empty() + t2 =~= t2);
    lemma_scan_space(p6);
    assert forall|i: int| 0 <= i < t3.len() implies joins_token(#[trigger] t3[i], false) by {
        if i >= 9 {
            assert(t3[i] == r[i - 9]);
        }
    }
    lemma_scan_joins(p7, t3);
    assert(Seq::<char>::empty() + t3 =~= t3);
    assert(spec_ugr_tokens(p8) =~= seq![p4, t2, t3]);
    // The line is read token by token.
    assert(p8[0] != "gradient:"@[0]);
    assert(p8[0] != "opacity:"@[0]);
    let start = UgrLine { title: state.title, smooth: state.smooth, rotation: state.rotation, index: None, colour: None };
    lemma_three_tokens(start, p4, t2, t3);
    let quoted_name = seq!['"'] + name.push('"');
    assert(p4 =~= p1 + quoted_name);
    lemma_key_value(key1, quoted_name);
    assert(key1 =~= "title"@);
    assert(quoted_name.drop_first() =~= name.push('"'));
    assert(trim_start_of(name.push('"'), Some('"')) == name.push('"'));
    assert(trim_start_of(quoted_name, Some('"')) == name.push('"'));
    assert(name.push('"').drop_last() =~= name);
    assert(trim_end_of(name, Some('"')) == name);
    assert(trimmed(quoted_name, Some('"')) == name);
    lemma_key_value(key2, yn);
    assert(key2 =~= "smooth"@);
    assert(key2.len() != "title"@.len());
    lemma_key_value(key3, r);
    assert(key3 =~= "rotation"@);
    assert(key3.len() != "title"@.len() && key3.len() != "smooth"@.len());
    assert((yn == "yes"@) == smooth);
}

/// A control-point line of a written gradient, read inside its `gradient:`
/// section, adds the point it writes.
proof fn lemma_read_stop_line(state: UgrReading, index: i32, colour: u32)
    requires
        state.in_gradient,
        !state.in_opacity,
    ensures
        ugr_read_line(state, ugr_stop_line(index, colour)) == (UgrReading {
            stops: state.stops.push((signed_decimal(index), colour)),
            ..state
        }),
{
    reveal_strlit("  index=");
    reveal_strlit(" color=");
    reveal_strlit("gradient:");
    reveal_strlit("opacity:");
    reveal_strlit("title");
    reveal_strlit("smooth");
    reveal_strlit("rotation");
    reveal_strlit("index");
    reveal_strlit("color");
    let i_text = signed_decimal(index);
    let c_text = spec_decimal(colour as nat);
    lemma_signed_decimal_joins(index);
    lemma_decimal_joins(colour);
    let key1 = seq!['i', 'n', 'd', 'e', 'x'];
    let q1 = key1.push('=') + i_text;
    let q2 = q1.push(' ');
    let key2 = seq!['c', 'o', 'l', 'o', 'r'];
    let u2 = key2.push('=') + c_text;
    let q3 = q2 + u2;
    let line = ugr_stop_line(index, colour);
    assert(line =~= seq![' ', ' '] + q3);
    assert(q3.last() == c_text.last());
    lemma_trimmed_indented(q3);
    let empty = Seq::<char>::empty();
    assert(ugr_scan(empty) == (Seq::<Seq<char>>::empty(), empty, false));
    assert forall|i: int| 0 <= i < q1.len() implies joins_token(#[trigger] q1[i], false) by {
        if i >= 6 {
            assert(q1[i] == i_text[i - 6]);
        }
    }
    lemma_scan_joins(empty, q1);
    assert(empty + q1 =~= q1);
    lemma_scan_space(q1);
    assert forall|i: int| 0 <= i < u2.len() implies joins_token(#[trigger] u2[i], false) by {
        if i >= 6 {
            assert(u2[i] == c_text[i - 6]);
        }
    }
    lemma_scan_joins(q2, u2);
    assert(empty + u2 =~= u2);
    assert(spec_ugr_tokens(q3) =~= seq![q1, u2]);
    assert(q3[0] != "gradient:"@[0]);
    assert(q3[0] != "opacity:"@[0]);
    let start = UgrLine { title: state.title, smooth: state.smooth, rotation: state.rotation, index: None, colour: None };
    lemma_two_tokens(start, q1, u2);
    lemma_key_value(key1, i_text);
    assert(key1 =~= "index"@);
    assert(key1[0] != "title"@[0]);
    assert(key1.len() != "smooth"@.len() && key1.len() != "rotation"@.len());
    lemma_key_value(key2, c_text);
    assert(key2 =~= "color"@);
    assert(key2[0] != "title"@[0] && key2[0] != "index"@[0]);
    assert(key2.len() != "smooth"@.len() && key2.len() != "rotation"@.len());
}


/// Reading one more line.
proof fn lemma_read_next(lines: Seq<Seq<char>>, j: int)
    requires
        0 <= j < lines.len(),
    ensures
        ugr_lines_read(lines.take(j + 1)) == ugr_read_line(ugr_lines_read(lines.take(j)), lines[j]),
{
    assert(lines.take(j + 1).drop_last() =~= lines.take(j));
    assert(lines.take(j + 1).last() == lines[j]);
}

/// A gradient section opened afresh.
pub open spec fn ugr_opened(state: UgrReading) -> UgrReading {
    UgrReading {
        in_gradient: true,
        in_opacity: false,
        stops: Seq::empty(),
        smooth: false,
        rotation: None,
        title: None,
        ..state
    }
}

/// The fixed lines of a written gradient, read where they stand.
proof fn lemma_read_fixed_lines(state: UgrReading)
    ensures
        ugr_read_line(state, "gradient:"@) == ugr_opened(state),
        ugr_read_line(state, "opacity:"@) == (UgrReading { in_opacity: true, ..state }),
        state.in_opacity ==> ugr_read_line(state, "  smooth=no"@) == state,
        state.in_opacity ==> ugr_read_line(state, "  index=0 opacity=255"@) == state,
        ugr_read_line(state, "}"@) == (UgrReading {
            gradients: if state.in_gradient && state.stops.len() > 0 {
                state.gradients.push(
                    (
                        match state.title {
                            Some(title) => title,
                            None => state.name,
                        },
                        state.smooth,
                        state.rotation,
                        state.stops,
                    ),
                )
            } else {
                state.gradients
            },
            in_gradient: false,
            in_opacity: false,
            ..state
        }),
{
    reveal_strlit("gradient:");
    reveal_strlit("opacity:");
    reveal_strlit("  smooth=no");
    reveal_strlit("smooth=no");
    reveal_strlit("  index=0 opacity=255");
    reveal_strlit("index=0 opacity=255");
    reveal_strlit("}");
    lemma_trimmed_itself("gradient:"@);
    lemma_trimmed_itself("opacity:"@);
    lemma_trimmed_itself("}"@);
    assert("  smooth=no"@ =~= seq![' ', ' '] + "smooth=no"@);
    lemma_trimmed_indented("smooth=no"@);
    assert("  index=0 opacity=255"@ =~= seq![' ', ' '] + "index=0 opacity=255"@);
    lemma_trimmed_indented("index=0 opacity=255"@);
    assert("opacity:"@.len() != "gradient:"@.len());
    assert("smooth=no"@[0] != "gradient:"@[0]);
    assert("smooth=no"@.len() != "opacity:"@.len());
    assert("index=0 opacity=255"@.len() != "gradient:"@.len());
    assert("index=0 opacity=255"@.len() != "opacity:"@.len());
    assert("}"@.len() != "gradient:"@.len() && "}"@.len() != "opacity:"@.len());
}

/// The header line of a written entry, read first, names the entry and
/// opens nothing.
proof fn lemma_read_header(name: Seq<char>)
    requires
        name.len() > 0,
        !is_white_space(name[0]),
    ensures
        ({
            let read = ugr_read_line(ugr_start(), name + " {"@);
            &&& !read.in_gradient
            &&& !read.in_opacity
            &&& read.gradients == Seq::<UgrGradientView>::empty()
        }),
{
    reveal_strlit(" {");
    let header = name + " {"@;
    assert(header[0] == name[0]);
    assert(header.last() == '{');
    lemma_trimmed_itself(header);
}

/// Before the opacity part, after the title and the first `k` control
/// points.
pub open spec fn ugr_after_points(state: UgrReading, stops: Seq<(i32, u32)>, k: int) -> UgrReading {
    UgrReading {
        stops: stops.take(k).map_values(|stop: (i32, u32)| (signed_decimal(stop.0), stop.1)),
        ..state
    }
}

/// Reading the control-point lines one after the other.
proof fn lemma_read_points(lines: Seq<Seq<char>>, titled: UgrReading, stops: Seq<(i32, u32)>, k: int)
    requires
        0 <= k <= stops.len(),
        lines.len() >= 3 + stops.len(),
        ugr_lines_read(lines.take(3)) == titled,
        titled.in_gradient,
        !titled.in_opacity,
        titled.stops == Seq::<(Seq<char>, u32)>::empty(),
        forall|m: int| 0 <= m < stops.len() ==> lines[3 + m] == ugr_stop_line(stops[m].0, stops[m].1),
    ensures
        ugr_lines_read(lines.take(3 + k)) == ugr_after_points(titled, stops, k),
    decreases k,
{
    if k == 0 {
        assert(stops.take(0).map_values(|stop: (i32, u32)| (signed_decimal(stop.0), stop.1)) =~= Seq::<
            (Seq<char>, u32),
        >::empty());
        assert(ugr_after_points(titled, stops, 0) == titled);
    } else {
        lemma_read_points(lines, titled, stops, k - 1);
        lemma_read_next(lines, 3 + k - 1);
        let before = ugr_after_points(titled, stops, k - 1);
        lemma_read_stop_line(before, stops[k - 1].0, stops[k - 1].1);
        assert(stops.take(k - 1).map_values(|stop: (i32, u32)| (signed_decimal(stop.0), stop.1)).push(
            (signed_decimal(stops[k - 1].0), stops[k - 1].1),
        ) =~= stops.take(k).map_values(|stop: (i32, u32)| (signed_decimal(stop.0), stop.1)));
    }
}

/// No character of `a + b` is a newline when none of `a` or `b` is.
proof fn lemma_no_newline_joined(a: Seq<char>, b: Seq<char>)
    requires
        forall|i: int| 0 <= i < a.len() ==> a[i] != '\n',
        forall|i: int| 0 <= i < b.len() ==> b[i] != '\n',
    ensures
        forall|i: int| 0 <= i < (a + b).len() ==> (a + b)[i] != '\n',
{
    assert forall|i: int| 0 <= i < (a + b).len() implies (a + b)[i] != '\n' by {
        if i >= a.len() {
            assert((a + b)[i] == b[i - a.len()]);
        }
    }
}

/// The written lines hold no newline.
proof fn lemma_written_lines_have_no_newline(name: Seq<char>, smooth: bool, rotation: i32, stops: Seq<(i32, u32)>)
    requires
        quotable(ugr_name(name)),
    ensures
        forall|k: int, i: int|
            0 <= k < ugr_lines(name, smooth, rotation, stops).len() && 0 <= i < ugr_lines(name, smooth, rotation, stops)[k].len()
                ==> #[trigger] ugr_lines(name, smooth, rotation, stops)[k][i] != '\n',
{
    reveal_strlit(" {");
    reveal_strlit("gradient:");
    reveal_strlit("  title=\"");
    reveal_strlit("\" smooth=");
    reveal_strlit(" rotation=");
    reveal_strlit("yes");
    reveal_strlit("no");
    reveal_strlit("  index=");
    reveal_strlit(" color=");
    reveal_strlit("opacity:");
    reveal_strlit("  smooth=no");
    reveal_strlit("  index=0 opacity=255");
    reveal_strlit("}");
    let n = ugr_name(name);
    let lines = ugr_lines(name, smooth, rotation, stops);
    lemma_signed_decimal_joins(rotation);
    lemma_no_newline_joined(n, " {"@);
    let yn: Seq<char> = if smooth { "yes"@ } else { "no"@ };
    lemma_no_newline_joined("  title=\""@, n);
    lemma_no_newline_joined("  title=\""@ + n, "\" smooth="@);
    lemma_no_newline_joined("  title=\""@ + n + "\" smooth="@, yn);
    lemma_no_newline_joined("  title=\""@ + n + "\" smooth="@ + yn, " rotation="@);
    lemma_no_newline_joined("  title=\""@ + n + "\" smooth="@ + yn + " rotation="@, signed_decimal(rotation));
    assert forall|k: int, i: int| 0 <= k < lines.len() && 0 <= i < lines[k].len() implies #[trigger] lines[k][i]
        != '\n' by {
        if 3 <= k < 3 + stops.len() {
            let stop = stops[k - 3];
            assert(lines[k] == ugr_stop_line(stop.0, stop.1));
            lemma_signed_decimal_joins(stop.0);
            lemma_decimal_joins(stop.1);
            lemma_no_newline_joined("  index="@, signed_decimal(stop.0));
            lemma_no_newline_joined("  index="@ + signed_decimal(stop.0), " color="@);
            lemma_no_newline_joined("  index="@ + signed_decimal(stop.0) + " color="@, spec_decimal(stop.1 as nat));
        }
    }
}

/// Reading back a written gradient gives its name as written, its
/// smoothness, its rotation and every control point in order, index and
/// colour as written: a gradient survives a `.ugr` round trip. A name with
/// a quote or a newline cannot be quoted as a title, and a gradient without
/// control points is not read back.
pub proof fn written_gradients_read_back(name: Seq<char>, smooth: bool, rotation: i32, stops: Seq<(i32, u32)>)
    requires
        stops.len() > 0,
        quotable(ugr_name(name)),
    ensures
        spec_read_ugr(spec_write_ugr(name, smooth, rotation, stops)) == seq![
            (
                ugr_name(name),
                smooth,
                Some(signed_decimal(rotation)),
                stops.map_values(|stop: (i32, u32)| (signed_decimal(stop.0), stop.1)),
            ),
        ],
{
    reveal_strlit("IteraScope");
    reveal_strlit("gradient:");
    reveal_strlit("opacity:");
    reveal_strlit("  smooth=no");
    reveal_strlit("  index=0 opacity=255");
    reveal_strlit("}");
    let n = ugr_name(name);
    let lines = ugr_lines(name, smooth, rotation, stops);
    let count = stops.len() as int;
    // The text splits back into its lines.
    lemma_written_lines_have_no_newline(name, smooth, rotation, stops);
    let is_separator = |c: char| is_newline(c);
    lemma_pieces_of_lines(lines, is_separator);
    assert(lines.push(Seq::empty()).drop_last() =~= lines);
    assert(trimmed(Seq::<char>::empty(), None) =~= Seq::<char>::empty());
    assert(spec_read_ugr(spec_write_ugr(name, smooth, rotation, stops)) == ugr_lines_read(lines).gradients);
    // Header, section and title.
    lemma_trimmed_ends(name, None);
    lemma_read_header(n);
    lemma_read_next(lines, 0);
    assert(lines.take(0) =~= Seq::<Seq<char>>::empty());
    let s1 = ugr_lines_read(lines.take(1));
    lemma_read_next(lines, 1);
    lemma_read_fixed_lines(s1);
    let s2 = ugr_lines_read(lines.take(2));
    assert(s2 == ugr_opened(s1));
    lemma_read_next(lines, 2);
    lemma_read_title_line(s2, n, smooth, rotation);
    let s3 = ugr_lines_read(lines.take(3));
    // The control points.
    assert forall|m: int| 0 <= m < stops.len() implies lines[3 + m] == ugr_stop_line(stops[m].0, stops[m].1) by {}
    lemma_read_points(lines, s3, stops, count);
    let s4 = ugr_after_points(s3, stops, count);
    assert(stops.take(count) =~= stops);
    // The opacity part and the closing line.
    lemma_read_next(lines, 3 + count);
    lemma_read_fixed_lines(s4);
    let s5 = ugr_lines_read(lines.take(4 + count));
    lemma_read_next(lines, 4 + count);
    lemma_read_fixed_lines(s5);
    lemma_read_next(lines, 5 + count);
    lemma_read_next(lines, 6 + count);
    let s7 = ugr_lines_read(lines.take(6 + count));
    lemma_read_fixed_lines(s7);
    assert(lines.take(7 + count) =~= lines);
}

} // verus!
