//! The format of a shader file: a vertex and a fragment shader in one text,
//! each under a header line `#type vertex` or `#type fragment`.
//!
//! A header marker is `#type`, one or more spaces and one or more letters.
//! The markers cut the text into sections; the sections that are empty or a
//! lone line break do not count, and exactly two must remain. The kind of
//! each section is read from the line that its marker starts.

use vstd::prelude::*;
use vstd::slice::{slice_subrange, slice_to_vec};

verus! {

/// Whether `pattern` stands in `text` at `at`.
pub open spec fn matches_at(text: Seq<u8>, at: int, pattern: Seq<u8>) -> bool {
    &&& 0 <= at
    &&& at + pattern.len() <= text.len()
    &&& text.subrange(at, at + pattern.len()) == pattern
}

/// The first place at or after `from` where `pattern` stands in `text`.
pub open spec fn first_match(text: Seq<u8>, pattern: Seq<u8>, from: int) -> Option<int>
    decreases text.len() - from,
{
    if from < 0 || from + pattern.len() > text.len() {
        None
    } else if matches_at(text, from, pattern) {
        Some(from)
    } else if from < text.len() {
        first_match(text, pattern, from + 1)
    } else {
        None
    }
}

/// The bytes of `#type`.
pub open spec fn type_word() -> Seq<u8> {
    seq![0x23u8, 0x74u8, 0x79u8, 0x70u8, 0x65u8]
}

/// The bytes of a carriage return and a line feed.
pub open spec fn line_break() -> Seq<u8> {
    seq![0x0du8, 0x0au8]
}

/// The bytes of `vertex`.
pub open spec fn vertex_word() -> Seq<u8> {
    seq![0x76u8, 0x65u8, 0x72u8, 0x74u8, 0x65u8, 0x78u8]
}

/// The bytes of `fragment`.
pub open spec fn fragment_word() -> Seq<u8> {
    seq![0x66u8, 0x72u8, 0x61u8, 0x67u8, 0x6du8, 0x65u8, 0x6eu8, 0x74u8]
}

/// An ASCII letter.
pub open spec fn is_letter(byte: u8) -> bool {
    (0x41 <= byte <= 0x5a) || (0x61 <= byte <= 0x7a)
}

/// Where the run of spaces that starts at `at` ends.
pub open spec fn spaces_end(text: Seq<u8>, at: int) -> int
    decreases text.len() - at,
{
    if 0 <= at < text.len() && text[at] == 0x20 {
        spaces_end(text, at + 1)
    } else {
        at
    }
}

/// Where the run of letters that starts at `at` ends.
pub open spec fn letters_end(text: Seq<u8>, at: int) -> int
    decreases text.len() - at,
{
    if 0 <= at < text.len() && is_letter(text[at]) {
        letters_end(text, at + 1)
    } else {
        at
    }
}

/// Where the header marker that starts at `at` ends, if one starts there:
/// `#type`, then all the spaces that follow, at least one, then all the
/// letters that follow, at least one.
pub open spec fn marker_end(text: Seq<u8>, at: int) -> Option<int> {
    if matches_at(text, at, type_word()) && spaces_end(text, at + 5) > at + 5 && letters_end(
        text,
        spaces_end(text, at + 5),
    ) > spaces_end(text, at + 5) {
        Some(letters_end(text, spaces_end(text, at + 5)))
    } else {
        None
    }
}

/// The first header marker at or after `from`: where it starts and where it
/// ends.
pub open spec fn next_marker(text: Seq<u8>, from: int) -> Option<(int, int)>
    decreases text.len() - from,
{
    if from < 0 || from >= text.len() {
        None
    } else {
        match marker_end(text, from) {
            Some(end) => Some((from, end)),
            None => next_marker(text, from + 1),
        }
    }
}

/// Whether a section counts: it is neither empty nor a lone line break.
pub open spec fn counts(section: Seq<u8>) -> bool {
    section.len() != 0 && section != line_break()
}

/// The sections of `text` from `from` on that count, in order: what stands
/// between the header markers, before the first and after the last.
pub open spec fn sections(text: Seq<u8>, from: int) -> Seq<Seq<u8>>
    decreases text.len() - from,
{
    if from < 0 || from > text.len() {
        Seq::empty()
    } else {
        match next_marker(text, from) {
            Some((start, end)) => {
                let rest = if from < end <= text.len() {
                    sections(text, end)
                } else {
                    Seq::empty()
                };
                if counts(text.subrange(from, start)) {
                    seq![text.subrange(from, start)] + rest
                } else {
                    rest
                }
            },
            None => if counts(text.subrange(from, text.len() as int)) {
                seq![text.subrange(from, text.len() as int)]
            } else {
                Seq::empty()
            },
        }
    }
}

/// The length of the white space character that starts at `at` in UTF-8
/// text, or 0 where none starts there. White space is U+0009 to U+000D,
/// U+0020, U+0085, U+00A0, U+1680, U+2000 to U+200A, U+2028, U+2029, U+202F,
/// U+205F and U+3000.
pub open spec fn space_at(text: Seq<u8>, at: int, limit: int) -> int {
    if 0 <= at < limit <= text.len() && ((0x09 <= text[at] <= 0x0d) || text[at] == 0x20) {
        1
    } else if 0 <= at && at + 2 <= limit <= text.len() && text[at] == 0xc2 && (text[at + 1] == 0x85
        || text[at + 1] == 0xa0) {
        2
    } else if 0 <= at && at + 3 <= limit <= text.len() && wide_space(
        text[at],
        text[at + 1],
        text[at + 2],
    ) {
        3
    } else {
        0
    }
}

/// Whether three bytes encode one of the white space characters from U+1680
/// on.
pub open spec fn wide_space(first: u8, second: u8, third: u8) -> bool {
    ||| first == 0xe1 && second == 0x9a && third == 0x80
    ||| first == 0xe2 && second == 0x80 && (0x80 <= third <= 0x8a || third == 0xa8 || third
        == 0xa9 || third == 0xaf)
    ||| first == 0xe2 && second == 0x81 && third == 0x9f
    ||| first == 0xe3 && second == 0x80 && third == 0x80
}

/// The length of the white space character that ends before `at`, or 0
/// where none ends there; the character starts at `limit` or later.
pub open spec fn space_before(text: Seq<u8>, at: int, limit: int) -> int {
    if 0 <= limit < at <= text.len() && ((0x09 <= text[at - 1] <= 0x0d) || text[at - 1] == 0x20) {
        1
    } else if 0 <= limit && limit + 2 <= at <= text.len() && text[at - 2] == 0xc2 && (text[at - 1]
        == 0x85 || text[at - 1] == 0xa0) {
        2
    } else if 0 <= limit && limit + 3 <= at <= text.len() && wide_space(
        text[at - 3],
        text[at - 2],
        text[at - 1],
    ) {
        3
    } else {
        0
    }
}

/// Where the text between `from` and `to` starts once its leading white
/// space is taken off.
pub open spec fn trimmed_start(text: Seq<u8>, from: int, to: int) -> int
    decreases to - from,
{
    if space_at(text, from, to) > 0 {
        trimmed_start(text, from + space_at(text, from, to), to)
    } else {
        from
    }
}

/// Where the text between `from` and `to` ends once its trailing white space
/// is taken off.
pub open spec fn trimmed_end(text: Seq<u8>, from: int, to: int) -> int
    decreases to - from,
{
    if space_before(text, to, from) > 0 {
        trimmed_end(text, from, to - space_before(text, to, from))
    } else {
        to
    }
}

/// The text between `from` and `to` without the white space at its start
/// and at its end.
pub open spec fn trimmed(text: Seq<u8>, from: int, to: int) -> Seq<u8> {
    text.subrange(
        trimmed_start(text, from, to),
        trimmed_end(text, trimmed_start(text, from, to), to),
    )
}

/// Whether a character of UTF-8 text can start at `at`: the text ends there,
/// or the byte there continues no character.
pub open spec fn starts_character(text: Seq<u8>, at: int) -> bool {
    at == text.len() || (0 <= at < text.len() && !(0x80 <= text[at] <= 0xbf))
}

/// The header line whose marker is the first at or after `from`: where the
/// kind starts, one character behind `#type`, and where the line ends, behind
/// its line break.
pub open spec fn header(text: Seq<u8>, from: int) -> Option<(int, int)> {
    match first_match(text, type_word(), from) {
        Some(word) => {
            if word + 6 <= text.len() && starts_character(text, word + 6) {
                match first_match(text, line_break(), word + 6) {
                    Some(end) => Some((word + 6, end + 2)),
                    None => None,
                }
            } else {
                None
            }
        },
        None => None,
    }
}

/// The kind of a shader.
#[derive(Clone, Copy, Debug, PartialEq, Eq, Structural)]
pub enum ShaderKind {
    Vertex,
    Fragment,
}

/// The kind that a header line names between `from` and `to`.
pub open spec fn kind_named(text: Seq<u8>, from: int, to: int) -> Option<ShaderKind> {
    if trimmed(text, from, to) == vertex_word() {
        Some(ShaderKind::Vertex)
    } else if trimmed(text, from, to) == fragment_word() {
        Some(ShaderKind::Fragment)
    } else {
        None
    }
}

/// Why a text is no shader file.
#[derive(Clone, Copy, Debug, PartialEq, Eq, Structural)]
pub enum ShaderSourceError {
    /// The text does not have exactly two sections that count.
    Format,
    /// A header line cannot be read: its marker or its line break is
    /// missing, or a character straddles the place where the kind starts.
    Header,
    /// A header line names neither `vertex` nor `fragment`.
    UnexpectedToken,
    /// Both header lines name the fragment shader.
    MissingVertex,
    /// Both header lines name the vertex shader.
    MissingFragment,
}

/// The two shaders of a shader file.
#[derive(Debug, PartialEq, Eq)]
pub struct ShaderSources {
    pub vertex: Vec<u8>,
    pub fragment: Vec<u8>,
}

/// What a shader file holds: the two sections, each trimmed, under the
/// kinds that the two header lines name; or why it is no shader file.
pub open spec fn parsed(text: Seq<u8>) -> Result<(Seq<u8>, Seq<u8>), ShaderSourceError> {
    let found = sections(text, 0);
    if found.len() != 2 {
        Err(ShaderSourceError::Format)
    } else {
        match header(text, 0) {
            None => Err(ShaderSourceError::Header),
            Some((first_start, first_end)) => match header(text, first_end) {
                None => Err(ShaderSourceError::Header),
                Some((second_start, second_end)) => {
                    let first = trimmed(found[0], 0, found[0].len() as int);
                    let second = trimmed(found[1], 0, found[1].len() as int);
                    match (
                        kind_named(text, first_start, first_end),
                        kind_named(text, second_start, second_end),
                    ) {
                        (Some(ShaderKind::Vertex), Some(ShaderKind::Fragment)) => Ok(
                            (first, second),
                        ),
                        (Some(ShaderKind::Fragment), Some(ShaderKind::Vertex)) => Ok(
                            (second, first),
                        ),
                        (Some(ShaderKind::Vertex), Some(ShaderKind::Vertex)) => Err(
                            ShaderSourceError::MissingFragment,
                        ),
                        (Some(ShaderKind::Fragment), Some(ShaderKind::Fragment)) => Err(
                            ShaderSourceError::MissingVertex,
                        ),
                        _ => Err(ShaderSourceError::UnexpectedToken),
                    }
                },
            },
        }
    }
}

/// A place in the text, as the format's model names it.
pub open spec fn place(found: Option<usize>) -> Option<int> {
    match found {
        Some(at) => Some(at as int),
        None => None,
    }
}

/// A stretch of the text, as the format's model names it.
pub open spec fn stretch(found: Option<(usize, usize)>) -> Option<(int, int)> {
    match found {
        Some((start, end)) => Some((start as int, end as int)),
        None => None,
    }
}

/// Whether `pattern` stands in `text` at `at`.
pub fn equal_at(text: &[u8], at: usize, pattern: &[u8]) -> (equal: bool)
    requires
        at + pattern@.len() <= text@.len(),
    ensures
        equal == matches_at(text@, at as int, pattern@),
{
    let size = text.len();
    let mut k: usize = 0;
    while k < pattern.len()
        invariant
            k <= pattern@.len(),
            at + pattern@.len() <= text@.len() == size,
            forall|j: int| 0 <= j < k ==> text@[at + j] == #[trigger] pattern@[j],
        decreases pattern@.len() - k,
    {
        if text[at + k] != pattern[k] {
            assert(text@.subrange(at as int, at + pattern@.len())[k as int] != pattern@[k as int]);
            return false;
        }
        k += 1;
    }
    assert(text@.subrange(at as int, at + pattern@.len()) =~= pattern@);
    true
}

/// The first place at or after `from` where `pattern` stands in `text`.
pub fn find(text: &[u8], pattern: &[u8], from: usize) -> (found: Option<usize>)
    ensures
        place(found) == first_match(text@, pattern@, from as int),
{
    if from > text.len() || pattern.len() > text.len() - from {
        return None;
    }
    let mut at: usize = from;
    while pattern.len() <= text.len() - at
        invariant
            from <= at <= text@.len(),
            first_match(text@, pattern@, from as int) == first_match(text@, pattern@, at as int),
        decreases text@.len() - at,
    {
        if equal_at(text, at, pattern) {
            return Some(at);
        }
        if at == text.len() {
            return None;
        }
        at += 1;
    }
    None
}

/// Where the run of spaces that starts at `at` ends.
fn skip_spaces(text: &[u8], at: usize) -> (end: usize)
    requires
        at <= text@.len(),
    ensures
        end == spaces_end(text@, at as int),
        at <= end <= text@.len(),
{
    let mut end: usize = at;
    while end < text.len() && text[end] == 0x20
        invariant
            at <= end <= text@.len(),
            spaces_end(text@, at as int) == spaces_end(text@, end as int),
        decreases text@.len() - end,
    {
        end += 1;
    }
    end
}

/// Where the run of letters that starts at `at` ends.
fn skip_letters(text: &[u8], at: usize) -> (end: usize)
    requires
        at <= text@.len(),
    ensures
        end == letters_end(text@, at as int),
        at <= end <= text@.len(),
{
    let mut end: usize = at;
    while end < text.len() && ((0x41 <= text[end] && text[end] <= 0x5a) || (0x61 <= text[end]
        && text[end] <= 0x7a))
        invariant
            at <= end <= text@.len(),
            letters_end(text@, at as int) == letters_end(text@, end as int),
        decreases text@.len() - end,
    {
        end += 1;
    }
    end
}

/// Where the header marker that starts at `at` ends, if one starts there.
fn marker_at(text: &[u8], at: usize, word: &[u8]) -> (end: Option<usize>)
    requires
        at <= text@.len(),
        word@ == type_word(),
    ensures
        place(end) == marker_end(text@, at as int),
        end matches Some(e) ==> at + 7 <= e <= text@.len(),
{
    if text.len() - at < 5 || !equal_at(text, at, word) {
        return None;
    }
    let spaces = skip_spaces(text, at + 5);
    if spaces == at + 5 {
        return None;
    }
    let letters = skip_letters(text, spaces);
    if letters == spaces {
        return None;
    }
    Some(letters)
}

/// The first header marker at or after `from`.
fn find_marker(text: &[u8], from: usize, word: &[u8]) -> (found: Option<(usize, usize)>)
    requires
        word@ == type_word(),
    ensures
        stretch(found) == next_marker(text@, from as int),
        found matches Some((start, end)) ==> from <= start && start + 7 <= end <= text@.len(),
{
    let mut at: usize = from;
    while at < text.len()
        invariant
            from <= at,
            word@ == type_word(),
            next_marker(text@, from as int) == next_marker(text@, at as int),
        decreases text@.len() - at,
    {
        match marker_at(text, at, word) {
            Some(end) => {
                return Some((at, end));
            },
            None => {},
        }
        at += 1;
    }
    None
}

/// Whether the section between `from` and `to` counts.
fn section_counts(text: &[u8], from: usize, to: usize) -> (counted: bool)
    requires
        from <= to <= text@.len(),
    ensures
        counted == counts(text@.subrange(from as int, to as int)),
{
    let ghost section = text@.subrange(from as int, to as int);
    if to == from {
        false
    } else if to - from == 2 && text[from] == 0x0d && text[from + 1] == 0x0a {
        assert(section =~= line_break());
        false
    } else {
        assert(section == line_break() ==> section[0] == 0x0d && section[1] == 0x0a);
        true
    }
}

/// The sections that stretches of a text cut out.
pub open spec fn cut(text: Seq<u8>, stretches: Seq<(usize, usize)>) -> Seq<Seq<u8>> {
    Seq::new(
        stretches.len(),
        |k: int| text.subrange(stretches[k].0 as int, stretches[k].1 as int),
    )
}

/// The stretches of the sections of `text` that count.
fn find_sections(text: &[u8], word: &[u8]) -> (found: Vec<(usize, usize)>)
    requires
        word@ == type_word(),
    ensures
        cut(text@, found@) == sections(text@, 0),
        forall|k: int|
            0 <= k < found@.len() ==> (#[trigger] found@[k]).0 <= found@[k].1 <= text@.len(),
{
    let mut found: Vec<(usize, usize)> = Vec::new();
    let mut from: usize = 0;
    loop
        invariant_except_break
            sections(text@, 0) == cut(text@, found@) + sections(text@, from as int),
        invariant
            from <= text@.len(),
            word@ == type_word(),
            forall|k: int|
                0 <= k < found@.len() ==> (#[trigger] found@[k]).0 <= found@[k].1 <= text@.len(),
        ensures
            sections(text@, 0) == cut(text@, found@),
        decreases text@.len() - from,
    {
        match find_marker(text, from, word) {
            Some((start, end)) => {
                let ghost piece = text@.subrange(from as int, start as int);
                if section_counts(text, from, start) {
                    found.push((from, start));
                }
                from = end;
            },
            None => {
                if section_counts(text, from, text.len()) {
                    found.push((from, text.len()));
                }
                break ;
            },
        }
    }
    found
}

/// The length of the white space character that starts at `at`.
fn space_length_at(text: &[u8], at: usize, limit: usize) -> (length: usize)
    requires
        at <= limit <= text@.len(),
    ensures
        length == space_at(text@, at as int, limit as int),
        at + length <= limit,
{
    let left = limit - at;
    if left >= 1 && ((0x09 <= text[at] && text[at] <= 0x0d) || text[at] == 0x20) {
        1
    } else if left >= 2 && text[at] == 0xc2 && (text[at + 1] == 0x85 || text[at + 1] == 0xa0) {
        2
    } else if left >= 3 && is_wide_space(text[at], text[at + 1], text[at + 2]) {
        3
    } else {
        0
    }
}

/// The length of the white space character that ends before `at`.
fn space_length_before(text: &[u8], at: usize, limit: usize) -> (length: usize)
    requires
        limit <= at <= text@.len(),
    ensures
        length == space_before(text@, at as int, limit as int),
        limit + length <= at,
{
    let left = at - limit;
    if left >= 1 && ((0x09 <= text[at - 1] && text[at - 1] <= 0x0d) || text[at - 1] == 0x20) {
        1
    } else if left >= 2 && text[at - 2] == 0xc2 && (text[at - 1] == 0x85 || text[at - 1] == 0xa0) {
        2
    } else if left >= 3 && is_wide_space(text[at - 3], text[at - 2], text[at - 1]) {
        3
    } else {
        0
    }
}

/// Whether three bytes encode a white space character from U+1680 on.
fn is_wide_space(first: u8, second: u8, third: u8) -> (wide: bool)
    ensures
        wide == wide_space(first, second, third),
{
    (first == 0xe1 && second == 0x9a && third == 0x80) || (first == 0xe2 && second == 0x80 && ((
    0x80 <= third && third <= 0x8a) || third == 0xa8 || third == 0xa9 || third == 0xaf)) || (first
        == 0xe2 && second == 0x81 && third == 0x9f) || (first == 0xe3 && second == 0x80 && third
        == 0x80)
}

/// The stretch between `from` and `to` without the white space at its start
/// and at its end.
pub fn trim(text: &[u8], from: usize, to: usize) -> (kept: (usize, usize))
    requires
        from <= to <= text@.len(),
    ensures
        kept.0 == trimmed_start(text@, from as int, to as int),
        kept.1 == trimmed_end(text@, kept.0 as int, to as int),
        from <= kept.0 <= kept.1 <= to,
        text@.subrange(kept.0 as int, kept.1 as int) == trimmed(text@, from as int, to as int),
{
    let mut start: usize = from;
    let mut length = space_length_at(text, start, to);
    while length > 0
        invariant
            from <= start <= to <= text@.len(),
            length == space_at(text@, start as int, to as int),
            trimmed_start(text@, from as int, to as int) == trimmed_start(
                text@,
                start as int,
                to as int,
            ),
        decreases to - start,
    {
        start += length;
        length = space_length_at(text, start, to);
    }
    let mut end: usize = to;
    let mut length = space_length_before(text, end, start);
    while length > 0
        invariant
            start <= end <= to <= text@.len(),
            length == space_before(text@, end as int, start as int),
            trimmed_end(text@, start as int, to as int) == trimmed_end(
                text@,
                start as int,
                end as int,
            ),
        decreases end - start,
    {
        end -= length;
        length = space_length_before(text, end, start);
    }
    (start, end)
}

/// The header line whose marker is the first at or after `from`.
fn read_header(text: &[u8], from: usize, word: &[u8], line_end: &[u8]) -> (found: Option<
    (usize, usize),
>)
    requires
        word@ == type_word(),
        line_end@ == line_break(),
    ensures
        stretch(found) == header(text@, from as int),
        found matches Some((start, end)) ==> from <= start <= end <= text@.len(),
{
    match find(text, word, from) {
        Some(at) => {
            proof {
                lemma_first_match(text@, word@, from as int);
            }
            if text.len() - at < 6 {
                return None;
            }
            let start = at + 6;
            if start < text.len() && 0x80 <= text[start] && text[start] <= 0xbf {
                return None;
            }
            match find(text, line_end, start) {
                Some(end) => {
                    proof {
                        lemma_first_match(text@, line_end@, start as int);
                    }
                    Some((start, end + 2))
                },
                None => None,
            }
        },
        None => None,
    }
}

/// A first match lies at or after the place where the search starts, and
/// the pattern stands there.
pub proof fn lemma_first_match(text: Seq<u8>, pattern: Seq<u8>, from: int)
    ensures
        first_match(text, pattern, from) matches Some(at) ==> from <= at && matches_at(
            text,
            at,
            pattern,
        ),
    decreases text.len() - from,
{
    if from < 0 || from + pattern.len() > text.len() {
    } else if matches_at(text, from, pattern) {
    } else if from < text.len() {
        lemma_first_match(text, pattern, from + 1);
    }
}

/// The kind that the header line between `from` and `to` names.
fn read_kind(text: &[u8], from: usize, to: usize) -> (kind: Option<ShaderKind>)
    requires
        from <= to <= text@.len(),
    ensures
        kind == kind_named(text@, from as int, to as int),
{
    let (start, end) = trim(text, from, to);
    let vertex: Vec<u8> = vec![0x76, 0x65, 0x72, 0x74, 0x65, 0x78];
    let fragment: Vec<u8> = vec![0x66, 0x72, 0x61, 0x67, 0x6d, 0x65, 0x6e, 0x74];
    if end - start == 6 && equal_at(text, start, vertex.as_slice()) {
        Some(ShaderKind::Vertex)
    } else if end - start == 8 && equal_at(text, start, fragment.as_slice()) {
        Some(ShaderKind::Fragment)
    } else {
        None
    }
}

/// The section between `from` and `to`, trimmed.
fn trimmed_section(text: &[u8], from: usize, to: usize) -> (section: Vec<u8>)
    requires
        from <= to <= text@.len(),
    ensures
        section@ == trimmed(
            text@.subrange(from as int, to as int),
            0,
            text@.subrange(from as int, to as int).len() as int,
        ),
{
    let piece = slice_subrange(text, from, to);
    let (start, end) = trim(piece, 0, piece.len());
    slice_to_vec(slice_subrange(piece, start, end))
}

/// What a [`ShaderSources`] holds.
pub open spec fn sources_view(sources: ShaderSources) -> (Seq<u8>, Seq<u8>) {
    (sources.vertex@, sources.fragment@)
}

/// Reads the two shaders out of the text of a shader file, see [`parsed`].
pub fn parse_shader_source(text: &[u8]) -> (result: Result<ShaderSources, ShaderSourceError>)
    ensures
        match result {
            Ok(sources) => parsed(text@) == Ok::<(Seq<u8>, Seq<u8>), ShaderSourceError>(
                sources_view(sources),
            ),
            Err(error) => parsed(text@) == Err::<(Seq<u8>, Seq<u8>), ShaderSourceError>(error),
        },
{
    let word: Vec<u8> = vec![0x23, 0x74, 0x79, 0x70, 0x65];
    let line_end: Vec<u8> = vec![0x0d, 0x0a];
    let found = find_sections(text, word.as_slice());
    if found.len() != 2 {
        return Err(ShaderSourceError::Format);
    }
    let first_header = match read_header(text, 0, word.as_slice(), line_end.as_slice()) {
        Some(header) => header,
        None => {
            return Err(ShaderSourceError::Header);
        },
    };
    let second_header = match read_header(
        text,
        first_header.1,
        word.as_slice(),
        line_end.as_slice(),
    ) {
        Some(header) => header,
        None => {
            return Err(ShaderSourceError::Header);
        },
    };
    let first_kind = match read_kind(text, first_header.0, first_header.1) {
        Some(kind) => kind,
        None => {
            return Err(ShaderSourceError::UnexpectedToken);
        },
    };
    let second_kind = match read_kind(text, second_header.0, second_header.1) {
        Some(kind) => kind,
        None => {
            return Err(ShaderSourceError::UnexpectedToken);
        },
    };
    match (first_kind, second_kind) {
        (ShaderKind::Vertex, ShaderKind::Fragment) => Ok(
            ShaderSources {
                vertex: trimmed_section(text, found[0].0, found[0].1),
                fragment: trimmed_section(text, found[1].0, found[1].1),
            },
        ),
        (ShaderKind::Fragment, ShaderKind::Vertex) => Ok(
            ShaderSources {
                vertex: trimmed_section(text, found[1].0, found[1].1),
                fragment: trimmed_section(text, found[0].0, found[0].1),
            },
        ),
        (ShaderKind::Vertex, ShaderKind::Vertex) => Err(ShaderSourceError::MissingFragment),
        (ShaderKind::Fragment, ShaderKind::Fragment) => Err(ShaderSourceError::MissingVertex),
    }
}

} // verus!
