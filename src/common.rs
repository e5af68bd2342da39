//! Pieces shared by both schema dialects: document events, attribute lookup,
//! the point-position text of a feature, and nullable column appends.
use vstd::prelude::*;
use crate::text::{split_tokens, str_eq, tokens, views};

verus! {

/// The view of an optional string.
pub open spec fn opt_view(o: Option<String>) -> Option<Seq<char>> {
    match o {
        Some(s) => Some(s@),
        None => None,
    }
}

pub fn clone_opt(o: &Option<String>) -> (r: Option<String>)
    ensures
        r == *o,
{
    match o {
        Some(s) => Some(s.clone()),
        None => None,
    }
}

/// The text, or `None` where it is empty.
pub open spec fn nonempty(s: Seq<char>) -> Option<Seq<char>> {
    if s.len() == 0 {
        None
    } else {
        Some(s)
    }
}

pub fn nonempty_or_none(s: &str) -> (r: Option<String>)
    ensures
        opt_view(r) == nonempty(s@),
{
    if s.unicode_len() == 0 {
        None
    } else {
        Some(String::from_str(s))
    }
}

/// Why a document could not be converted. Every one of these aborts the
/// conversion of the whole file.
pub enum ConvertError {
    /// A tag lacks an attribute that it must carry.
    MissingAttribute { element: String, attribute: String },
    /// A point position does not hold exactly two tokens.
    BadPosition { found: usize },
    /// A timestamp that cannot be read.
    BadTimestamp { element: String, text: String },
    /// A calendar date that cannot be read.
    BadDate { element: String, text: String },
    /// An administrative level code other than the four known ones.
    UnknownLevel { text: String },
    /// An address lists more than four administrative units.
    TooManyAdministrativeUnits,
    /// A definition whose kind cannot be told.
    MissingKind { id: String },
    /// A definition without a name.
    MissingName { id: String },
    /// A street from whose type and name parts no name can be made.
    UnnamedStreet { id: String },
    /// The document ends inside a definition or an address.
    UnexpectedEnd,
    /// An administrative-unit code of a length other than 2, 4 or 7.
    UnknownTerytCode { code: String },
    /// A municipality whose voivodeship or county is not defined before it.
    MissingParentUnit { code: String },
}

/// One attribute of an opening tag, name and unescaped value.
pub struct Attribute {
    pub key: String,
    pub value: String,
}

/// One event of the document, as the XML reader reports it: an opening tag
/// with its attributes, the decoded text between tags, or a closing tag.
/// Empty elements are reported as an opening and a closing tag.
pub enum XmlEvent {
    Start { name: String, attributes: Vec<Attribute> },
    Text(String),
    End(String),
}

/// The value of the first attribute named `key` at position `i` or later.
pub open spec fn attr_from(attrs: Seq<Attribute>, key: Seq<char>, i: int) -> Option<Seq<char>>
    decreases attrs.len() - i,
{
    if i < 0 || i >= attrs.len() {
        None
    } else if attrs[i].key@ == key {
        Some(attrs[i].value@)
    } else {
        attr_from(attrs, key, i + 1)
    }
}

/// The value of the first attribute named `key`.
pub open spec fn attr_value(attrs: Seq<Attribute>, key: Seq<char>) -> Option<Seq<char>> {
    attr_from(attrs, key, 0)
}

/// Looks up the value of the attribute named `key`; the first one wins.
pub fn get_attribute(attrs: &Vec<Attribute>, key: &str) -> (r: Option<String>)
    ensures
        opt_view(r) == attr_value(attrs@, key@),
{
    let mut i: usize = 0;
    while i < attrs.len()
        invariant
            i <= attrs@.len(),
            attr_value(attrs@, key@) == attr_from(attrs@, key@, i as int),
        decreases attrs@.len() - i,
    {
        if str_eq(attrs[i].key.as_str(), key) {
            return Some(attrs[i].value.clone());
        }
        i = i + 1;
    }
    None
}

/// Appends `value` to a text column, or a null where it is empty.
pub fn str_append_value_or_null(column: &mut Vec<Option<String>>, value: &str)
    ensures
        final(column)@.len() == old(column)@.len() + 1,
        final(column)@.subrange(0, old(column)@.len() as int) == old(column)@,
        opt_view(final(column)@.last()) == (if value@.len() == 0 {
            None
        } else {
            Some(value@)
        }),
{
    let ghost before = column@;
    if value.unicode_len() == 0 {
        column.push(None);
    } else {
        column.push(Some(String::from_str(value)));
    }
    assert(column@.subrange(0, before.len() as int) =~= before);
}

/// Appends `value` to a text column, a null where it is absent.
pub fn option_append_value_or_null(column: &mut Vec<Option<String>>, value: Option<String>)
    ensures
        final(column)@ == old(column)@.push(value),
{
    column.push(value);
}

pub open spec fn is_digit(c: char) -> bool {
    '0' <= c && c <= '9'
}

pub open spec fn is_sign(c: char) -> bool {
    c == '+' || c == '-'
}

/// The number of consecutive decimal digits in `s` from position `i`.
pub open spec fn digit_run(s: Seq<char>, i: int) -> int
    decreases s.len() - i,
{
    if 0 <= i < s.len() && is_digit(s[i]) {
        1 + digit_run(s, i + 1)
    } else {
        0
    }
}

/// An exponent that starts at `i` and runs to the end of `s`: `e` or `E`,
/// an optional sign, and at least one digit.
pub open spec fn exponent_at(s: Seq<char>, i: int) -> bool {
    &&& 0 <= i < s.len()
    &&& (s[i] == 'e' || s[i] == 'E')
    &&& {
        let j = if i + 1 < s.len() && is_sign(s[i + 1]) {
            i + 2
        } else {
            i + 1
        };
        let c = digit_run(s, j);
        c > 0 && j + c == s.len()
    }
}

/// A decimal literal, as `f64::from_str` reads one: an optional sign,
/// digits with at most one decimal point and at least one digit, and an
/// optional exponent. `inf`, `infinity` and `nan` are not of this form; a literal
/// whose value is too large for `f64` (`1e400`) is, and reads as infinite.
pub open spec fn is_decimal(s: Seq<char>) -> bool {
    let i0: int = if s.len() > 0 && is_sign(s[0]) {
        1
    } else {
        0
    };
    let a = digit_run(s, i0);
    let i1 = i0 + a;
    let dot = i1 < s.len() && s[i1] == '.';
    let b = if dot {
        digit_run(s, i1 + 1)
    } else {
        0
    };
    let i2 = if dot {
        i1 + 1 + b
    } else {
        i1
    };
    a + b > 0 && (i2 == s.len() || exponent_at(s, i2))
}

fn is_digit_char(c: char) -> (r: bool)
    ensures
        r == is_digit(c),
{
    '0' <= c && c <= '9'
}

fn is_sign_char(c: char) -> (r: bool)
    ensures
        r == is_sign(c),
{
    c == '+' || c == '-'
}

fn count_digits(s: &str, n: usize, i: usize) -> (r: usize)
    requires
        n == s@.len(),
        i <= n,
    ensures
        r as int == digit_run(s@, i as int),
        i + r <= n,
{
    let mut j: usize = i;
    while j < n && is_digit_char(s.get_char(j))
        invariant
            i <= j <= n,
            n == s@.len(),
            digit_run(s@, i as int) == (j - i) + digit_run(s@, j as int),
        decreases n - j,
    {
        j = j + 1;
    }
    j - i
}

/// Whether `s` is a decimal literal.
pub fn is_decimal_literal(s: &str) -> (r: bool)
    ensures
        r == is_decimal(s@),
{
    let n = s.unicode_len();
    let i0: usize = if n > 0 && is_sign_char(s.get_char(0)) {
        1
    } else {
        0
    };
    let a = count_digits(s, n, i0);
    let i1 = i0 + a;
    let dot = i1 < n && s.get_char(i1) == '.';
    let b = if dot {
        count_digits(s, n, i1 + 1)
    } else {
        0
    };
    let i2 = if dot {
        i1 + 1 + b
    } else {
        i1
    };
    if a + b == 0 {
        return false;
    }
    if i2 == n {
        return true;
    }
    let e = s.get_char(i2);
    if e != 'e' && e != 'E' {
        return false;
    }
    let j: usize = if i2 + 1 < n && is_sign_char(s.get_char(i2 + 1)) {
        i2 + 2
    } else {
        i2 + 1
    };
    let c = count_digits(s, n, j);
    c > 0 && j + c == n
}

/// The two planar coordinates of a point in the national grid, as the
/// document writes them: northing first, then easting.
pub struct GridPos {
    pub northing: String,
    pub easting: String,
}

/// A position text that does not hold exactly two tokens; `found` is how many
/// it holds.
pub struct PosError {
    pub found: usize,
}

/// Reads the text of a point position. Exactly two whitespace-separated
/// tokens are accepted; any other count is an error. Where either token is
/// not a decimal literal (`NaN` and `inf` among them) the point is absent.
pub fn parse_gml_pos(text: &str) -> (r: Result<Option<GridPos>, PosError>)
    ensures
        match r {
            Err(e) => tokens(text@).len() != 2 && e.found == tokens(text@).len(),
            Ok(None) => tokens(text@).len() == 2 && !(is_decimal(tokens(text@)[0]) && is_decimal(
                tokens(text@)[1],
            )),
            Ok(Some(p)) => tokens(text@).len() == 2 && is_decimal(tokens(text@)[0]) && is_decimal(
                tokens(text@)[1],
            ) && p.northing@ == tokens(text@)[0] && p.easting@ == tokens(text@)[1],
        },
{
    let mut parts = split_tokens(text);
    proof {
        assert(views(parts@).len() == parts@.len());
    }
    if parts.len() != 2 {
        return Err(PosError { found: parts.len() });
    }
    let easting = parts.pop().unwrap();
    let northing = parts.pop().unwrap();
    if is_decimal_literal(northing.as_str()) && is_decimal_literal(easting.as_str()) {
        Ok(Some(GridPos { northing, easting }))
    } else {
        Ok(None)
    }
}

} // verus!
