//! The region catalog: which rectangle of which atlas file holds which named
//! sprite, and the helpers that declare rows of sprites at once.

use crate::text::{chars_of, decimal, push_decimal, string_push, strings, strs};
use vstd::prelude::*;

verus! {

/// A named rectangle of an atlas file. The bottom-right corner lies just
/// outside the rectangle.
#[derive(Debug)]
pub struct SkinFileRegion {
    pub top_left_x: u32,
    pub top_left_y: u32,
    pub bottom_right_x: u32,
    pub bottom_right_y: u32,
    pub enum_name: String,
}

/// An atlas file and the regions declared in it, in declaration order.
#[derive(Debug)]
pub struct SkinFile {
    pub filename: String,
    pub regions: Vec<SkinFileRegion>,
}

/// What a region declaration says.
pub struct RegionDecl {
    pub top_left_x: int,
    pub top_left_y: int,
    pub bottom_right_x: int,
    pub bottom_right_y: int,
    pub name: Seq<char>,
}

/// What the declaration of an atlas file says.
pub struct FileDecl {
    pub filename: Seq<char>,
    pub regions: Seq<RegionDecl>,
}

impl View for SkinFileRegion {
    type V = RegionDecl;

    open spec fn view(&self) -> RegionDecl {
        RegionDecl {
            top_left_x: self.top_left_x as int,
            top_left_y: self.top_left_y as int,
            bottom_right_x: self.bottom_right_x as int,
            bottom_right_y: self.bottom_right_y as int,
            name: self.enum_name@,
        }
    }
}

/// What a run of region declarations says, one by one.
pub open spec fn region_decls(regions: Seq<SkinFileRegion>) -> Seq<RegionDecl> {
    Seq::new(regions.len(), |i: int| regions[i]@)
}

impl View for SkinFile {
    type V = FileDecl;

    open spec fn view(&self) -> FileDecl {
        FileDecl { filename: self.filename@, regions: region_decls(self.regions@) }
    }
}

/// What a catalog says, file by file.
pub open spec fn catalog_of(files: Seq<SkinFile>) -> Seq<FileDecl> {
    Seq::new(files.len(), |i: int| files[i]@)
}

/// Cell `i` of a row of cells: its top-left corner is the origin `(x, y)`
/// moved by `i` strides `(sx, sy)`, and its size is `(w, h)`.
pub open spec fn grid_cell(x: int, y: int, w: int, h: int, sx: int, sy: int, i: int, name: Seq<char>) -> RegionDecl {
    RegionDecl {
        top_left_x: x + i * sx,
        top_left_y: y + i * sy,
        bottom_right_x: x + i * sx + w,
        bottom_right_y: y + i * sy + h,
        name,
    }
}

/// A row of cells, one per name, in the order of the names.
pub open spec fn grid(x: int, y: int, w: int, h: int, sx: int, sy: int, names: Seq<Seq<char>>) -> Seq<RegionDecl> {
    Seq::new(names.len(), |i: int| grid_cell(x, y, w, h, sx, sy, i, names[i]))
}

/// Every cell of a row of `n` cells has coordinates that fit in 32 bits.
pub open spec fn grid_fits(x: int, y: int, w: int, h: int, sx: int, sy: int, n: int) -> bool {
    n <= u32::MAX && (n > 0 ==> x + (n - 1) * sx + w <= u32::MAX && y + (n - 1) * sy + h <= u32::MAX)
}

/// The names `prefix0`, `prefix1`, and so on, `count` of them.
pub open spec fn numbered_names(prefix: Seq<char>, count: nat) -> Seq<Seq<char>> {
    Seq::new(count, |i: int| prefix + decimal(i as nat))
}

/// The readable name of a character: a fixed name for each of the listed
/// signs, and the character itself for every other one.
pub open spec fn char_name(c: char) -> Seq<char> {
    match c {
        '"' => "DoubleQuote"@,
        '@' => "At"@,
        '.' => "PeriodMaybe"@,
        '-' => "Hyphen"@,
        ':' => "Colon"@,
        '(' => "LeftParen"@,
        ')' => "RightParen"@,
        '\'' => "SingleQuote"@,
        '!' => "Exclamation"@,
        '_' => "Underscore"@,
        '+' => "Plus"@,
        '\\' => "Backslash"@,
        '/' => "Slash"@,
        '[' => "LeftBracket"@,
        ']' => "RightBracket"@,
        '^' => "Caret"@,
        '&' => "Ampersand"@,
        '%' => "Percent"@,
        ',' => "Comma"@,
        '=' => "Equals"@,
        '$' => "Dollar"@,
        '#' => "Hash"@,
        '\u{2026}' => "Ellipsis"@,
        _ => seq![c],
    }
}

/// An ASCII letter or digit.
pub open spec fn is_alphanumeric(c: char) -> bool {
    ('A' <= c && c <= 'Z') || ('a' <= c && c <= 'z') || ('0' <= c && c <= '9')
}

/// A character that may stand in an identifier: an ASCII letter, a digit or
/// the underscore.
pub open spec fn is_identifier_char(c: char) -> bool {
    is_alphanumeric(c) || c == '_'
}

/// Every character of the text may stand in an identifier.
pub open spec fn is_identifier_text(text: Seq<char>) -> bool {
    forall|i: int| 0 <= i < text.len() ==> is_identifier_char(#[trigger] text[i])
}

/// The character is one of the signs that have a fixed readable name.
pub open spec fn has_fixed_name(c: char) -> bool {
    c == '"' || c == '@' || c == '.' || c == '-' || c == ':' || c == '(' || c == ')' || c == '\''
        || c == '!' || c == '_' || c == '+' || c == '\\' || c == '/' || c == '[' || c == ']' || c
        == '^' || c == '&' || c == '%' || c == ',' || c == '=' || c == '$' || c == '#' || c
        == '\u{2026}'
}

/// The character has a name that can be part of an identifier: it has a
/// fixed name, or it is an identifier character and names itself.
pub open spec fn nameable(c: char) -> bool {
    has_fixed_name(c) || is_identifier_char(c)
}

/// Letters and digits name themselves.
pub proof fn lemma_alphanumeric_names_itself(c: char)
    requires
        is_alphanumeric(c),
    ensures
        char_name(c) == seq![c],
{
}

/// A character without a fixed name names itself, whatever it is.
pub proof fn lemma_unlisted_names_itself(c: char)
    requires
        !has_fixed_name(c),
    ensures
        char_name(c) == seq![c],
{
}

/// The readable name of a character is made of identifier characters
/// exactly when the character is nameable: every fixed name is, and a
/// character that names itself is only if it is an identifier character.
pub proof fn lemma_char_name_identifier(c: char)
    ensures
        is_identifier_text(char_name(c)) <==> nameable(c),
{
    reveal_strlit("DoubleQuote");
    reveal_strlit("At");
    reveal_strlit("PeriodMaybe");
    reveal_strlit("Hyphen");
    reveal_strlit("Colon");
    reveal_strlit("LeftParen");
    reveal_strlit("RightParen");
    reveal_strlit("SingleQuote");
    reveal_strlit("Exclamation");
    reveal_strlit("Underscore");
    reveal_strlit("Plus");
    reveal_strlit("Backslash");
    reveal_strlit("Slash");
    reveal_strlit("LeftBracket");
    reveal_strlit("RightBracket");
    reveal_strlit("Caret");
    reveal_strlit("Ampersand");
    reveal_strlit("Percent");
    reveal_strlit("Comma");
    reveal_strlit("Equals");
    reveal_strlit("Dollar");
    reveal_strlit("Hash");
    reveal_strlit("Ellipsis");
    if !has_fixed_name(c) {
        assert(char_name(c)[0] == c);
    }
}

/// One name per character: the prefix followed by the character's name.
pub open spec fn char_names(prefix: Seq<char>, chars: Seq<char>) -> Seq<Seq<char>> {
    Seq::new(chars.len(), |i: int| prefix + char_name(chars[i]))
}

/// `k` is the first index at which the character `c` stands in `chars`.
pub open spec fn first_index_of(chars: Seq<char>, c: char, k: int) -> bool {
    &&& 0 <= k < chars.len()
    &&& chars[k] == c
    &&& forall|m: int| 0 <= m < k ==> chars[m] != c
}

/// A character as it stands between single quotes in source text: the quote
/// and the backslash get a backslash in front, every other character stands
/// for itself.
pub open spec fn escaped_char(c: char) -> Seq<char> {
    if c == '\'' || c == '\\' {
        seq!['\\', c]
    } else {
        seq![c]
    }
}

/// Declares one named rectangle with the corners `(x0, y0)` and `(x1, y1)`.
pub fn map_def(x0: u32, y0: u32, x1: u32, y1: u32, name: &str) -> (region: SkinFileRegion)
    ensures
        region@ == (RegionDecl {
            top_left_x: x0 as int,
            top_left_y: y0 as int,
            bottom_right_x: x1 as int,
            bottom_right_y: y1 as int,
            name: name@,
        }),
{
    SkinFileRegion {
        top_left_x: x0,
        top_left_y: y0,
        bottom_right_x: x1,
        bottom_right_y: y1,
        enum_name: name.to_owned(),
    }
}

/// Declares a row of rectangles, as many as there are names: rectangle `i`
/// has its top-left corner at the origin moved by `i` strides and the given
/// width and height, and carries name `i`.
pub fn map_repeated(
    top_left_x: u32,
    top_left_y: u32,
    width: u32,
    height: u32,
    stride_x: u32,
    stride_y: u32,
    names: Vec<&str>,
) -> (output: Vec<SkinFileRegion>)
    requires
        grid_fits(
            top_left_x as int,
            top_left_y as int,
            width as int,
            height as int,
            stride_x as int,
            stride_y as int,
            names.len() as int,
        ),
    ensures
        region_decls(output@) == grid(
            top_left_x as int,
            top_left_y as int,
            width as int,
            height as int,
            stride_x as int,
            stride_y as int,
            strs(names@),
        ),
{
    let mut output: Vec<SkinFileRegion> = Vec::new();
    let n = names.len();
    let mut k: usize = 0;
    while k < n
        invariant
            n == names.len(),
            k <= n,
            grid_fits(
                top_left_x as int,
                top_left_y as int,
                width as int,
                height as int,
                stride_x as int,
                stride_y as int,
                n as int,
            ),
            output.len() == k,
            forall|j: int|
                0 <= j < k ==> (#[trigger] output[j])@ == grid_cell(
                    top_left_x as int,
                    top_left_y as int,
                    width as int,
                    height as int,
                    stride_x as int,
                    stride_y as int,
                    j,
                    names[j]@,
                ),
        decreases n - k,
    {
        let i: u32 = k as u32;
        proof {
            assert(i * stride_x <= (n - 1) * stride_x) by (nonlinear_arith)
                requires
                    0 <= i <= n - 1,
                    0 <= stride_x,
            ;
            assert(i * stride_y <= (n - 1) * stride_y) by (nonlinear_arith)
                requires
                    0 <= i <= n - 1,
                    0 <= stride_y,
            ;
            assert(i * stride_x == stride_x * i) by (nonlinear_arith);
            assert(i * stride_y == stride_y * i) by (nonlinear_arith);
        }
        let this_top_left_x: u32 = top_left_x + (stride_x * i);
        let this_top_left_y: u32 = top_left_y + (stride_y * i);
        output.push(
            map_def(
                this_top_left_x,
                this_top_left_y,
                this_top_left_x + width,
                this_top_left_y + height,
                names[k],
            ),
        );
        k = k + 1;
    }
    assert(region_decls(output@) =~= grid(
        top_left_x as int,
        top_left_y as int,
        width as int,
        height as int,
        stride_x as int,
        stride_y as int,
        strs(names@),
    ));
    output
}

/// The names `prefix0`, `prefix1`, and so on, `count` of them.
pub fn numbered_enum_names(prefix: &str, count: usize) -> (names: Vec<String>)
    ensures
        strings(names@) == numbered_names(prefix@, count as nat),
{
    let mut names: Vec<String> = Vec::new();
    let mut i: usize = 0;
    while i < count
        invariant
            i <= count,
            names.len() == i,
            forall|j: int| 0 <= j < i ==> (#[trigger] names[j])@ == prefix@ + decimal(j as nat),
        decreases count - i,
    {
        let mut name = prefix.to_owned();
        push_decimal(&mut name, i);
        names.push(name);
        i = i + 1;
    }
    assert(strings(names@) =~= numbered_names(prefix@, count as nat));
    names
}

/// The readable name of a character.
pub fn map_special_chars_to_names(c: char) -> (name: String)
    ensures
        name@ == char_name(c),
{
    match c {
        '"' => "DoubleQuote".to_owned(),
        '@' => "At".to_owned(),
        '.' => "PeriodMaybe".to_owned(),
        '-' => "Hyphen".to_owned(),
        ':' => "Colon".to_owned(),
        '(' => "LeftParen".to_owned(),
        ')' => "RightParen".to_owned(),
        '\'' => "SingleQuote".to_owned(),
        '!' => "Exclamation".to_owned(),
        '_' => "Underscore".to_owned(),
        '+' => "Plus".to_owned(),
        '\\' => "Backslash".to_owned(),
        '/' => "Slash".to_owned(),
        '[' => "LeftBracket".to_owned(),
        ']' => "RightBracket".to_owned(),
        '^' => "Caret".to_owned(),
        '&' => "Ampersand".to_owned(),
        '%' => "Percent".to_owned(),
        ',' => "Comma".to_owned(),
        '=' => "Equals".to_owned(),
        '$' => "Dollar".to_owned(),
        '#' => "Hash".to_owned(),
        '\u{2026}' => "Ellipsis".to_owned(),
        _ => {
            let mut name = String::new();
            string_push(&mut name, c);
            name
        },
    }
}

/// One name per character of `char_string`, in order: the prefix followed by
/// the character's readable name.
pub fn char_mapped_enum_names(prefix: &str, char_string: String) -> (names: Vec<String>)
    ensures
        strings(names@) == char_names(prefix@, char_string@),
{
    let chars = chars_of(char_string.as_str());
    let mut names: Vec<String> = Vec::new();
    let mut i: usize = 0;
    while i < chars.len()
        invariant
            i <= chars.len(),
            chars@ == char_string@,
            names.len() == i,
            forall|j: int| 0 <= j < i ==> (#[trigger] names[j])@ == prefix@ + char_name(chars[j]),
        decreases chars.len() - i,
    {
        let mut name = prefix.to_owned();
        let tail = map_special_chars_to_names(chars[i]);
        name.append(tail.as_str());
        names.push(name);
        i = i + 1;
    }
    assert(strings(names@) =~= char_names(prefix@, char_string@));
    names
}

/// Decides whether a character has a name that can be part of an
/// identifier.
pub fn is_nameable(c: char) -> (r: bool)
    ensures
        r == nameable(c),
{
    match c {
        '"' | '@' | '.' | '-' | ':' | '(' | ')' | '\'' | '!' | '_' | '+' | '\\' | '/' | '[' | ']'
        | '^' | '&' | '%' | ',' | '=' | '$' | '#' | '\u{2026}' => true,
        _ => ('A' <= c && c <= 'Z') || ('a' <= c && c <= 'z') || ('0' <= c && c <= '9'),
    }
}

/// One name per character of `char_string`, as `char_mapped_enum_names`
/// gives them, where every character is nameable; `None` where one is not,
/// so that no name is made of a character that cannot stand in an
/// identifier.
pub fn checked_char_mapped_enum_names(prefix: &str, char_string: String) -> (names: Option<
    Vec<String>,
>)
    ensures
        match names {
            Some(names) => strings(names@) == char_names(prefix@, char_string@) && forall|i: int|
                0 <= i < char_string@.len() ==> nameable(#[trigger] char_string@[i]),
            None => exists|i: int| 0 <= i < char_string@.len() && !nameable(char_string@[i]),
        },
{
    let chars = chars_of(char_string.as_str());
    let mut i: usize = 0;
    while i < chars.len()
        invariant
            i <= chars.len(),
            chars@ == char_string@,
            forall|j: int| 0 <= j < i ==> nameable(#[trigger] char_string@[j]),
        decreases chars.len() - i,
    {
        if !is_nameable(chars[i]) {
            return None;
        }
        i = i + 1;
    }
    Some(char_mapped_enum_names(prefix, char_string))
}

/// The first place of a character in a string of glyph characters; `None`
/// for a character that the string does not hold.
pub fn char_position(chars: &str, c: char) -> (position: Option<usize>)
    ensures
        match position {
            Some(k) => first_index_of(chars@, c, k as int),
            None => !chars@.contains(c),
        },
{
    let all = chars_of(chars);
    let mut k: usize = 0;
    while k < all.len()
        invariant
            k <= all.len(),
            all@ == chars@,
            forall|m: int| 0 <= m < k ==> chars@[m] != c,
        decreases all.len() - k,
    {
        if all[k] == c {
            return Some(k);
        }
        k = k + 1;
    }
    None
}

/// A character as it stands between single quotes in source text.
pub fn escape_char_for_string(c: char) -> (text: String)
    ensures
        text@ == escaped_char(c),
{
    let mut text = String::new();
    if c == '\'' || c == '\\' {
        string_push(&mut text, '\\');
    }
    string_push(&mut text, c);
    assert(text@ =~= escaped_char(c));
    text
}

} // verus!
