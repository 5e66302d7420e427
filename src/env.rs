//! Values that refer to an environment variable: `$NAME`, possibly with
//! surrounding whitespace.
use vstd::prelude::*;

verus! {

/// What matching a regular expression `pattern` against `text` gives.
pub uninterp spec fn regex_match(pattern: Seq<char>, text: Seq<char>) -> bool;

/// Whether `pattern` compiles as a regular expression.
pub uninterp spec fn regex_compiles(pattern: Seq<char>) -> bool;

/// Relies on regex::Regex::new, which compiles `pattern` (`None` when it does
/// not compile), and regex::Regex::is_match, which tells whether it matches
/// `text`.
#[verifier::external_body]
fn regex_is_match(pattern: &str, text: &str) -> (r: Option<bool>)
    ensures
        r is Some <==> regex_compiles(pattern@),
        r matches Some(b) ==> b == regex_match(pattern@, text@),
{
    regex::Regex::new(pattern).ok().map(|re| re.is_match(text))
}

/// The characters with the Unicode `White_Space` property.
pub open spec fn is_white_space(c: char) -> bool {
    let u = c as u32;
    (0x9 <= u <= 0xd) || u == 0x20 || u == 0x85 || u == 0xa0 || u == 0x1680 || (0x2000 <= u
        <= 0x200a) || u == 0x2028 || u == 0x2029 || u == 0x202f || u == 0x205f || u == 0x3000
}

fn white_space(c: char) -> (r: bool)
    ensures
        r == is_white_space(c),
{
    let u = c as u32;
    (0x9 <= u && u <= 0xd) || u == 0x20 || u == 0x85 || u == 0xa0 || u == 0x1680 || (0x2000 <= u
        && u <= 0x200a) || u == 0x2028 || u == 0x2029 || u == 0x202f || u == 0x205f || u == 0x3000
}

/// The text without its leading white space.
pub open spec fn trim_start_of(s: Seq<char>) -> Seq<char>
    decreases s.len(),
{
    if s.len() > 0 && is_white_space(s[0]) {
        trim_start_of(s.drop_first())
    } else {
        s
    }
}

/// The text without its trailing white space.
pub open spec fn trim_end_of(s: Seq<char>) -> Seq<char>
    decreases s.len(),
{
    if s.len() > 0 && is_white_space(s.last()) {
        trim_end_of(s.drop_last())
    } else {
        s
    }
}

/// The text without its leading and trailing white space.
pub open spec fn trim_of(s: Seq<char>) -> Seq<char> {
    trim_end_of(trim_start_of(s))
}

/// The text without its leading and trailing white space, as `str::trim`
/// gives it.
pub fn trim(s: &str) -> (r: &str)
    ensures
        r@ == trim_of(s@),
{
    let len = s.unicode_len();
    let mut i: usize = 0;
    assert(s@.subrange(0, len as int) =~= s@);
    while i < len && white_space(s.get_char(i))
        invariant
            len == s@.len(),
            i <= len,
            trim_start_of(s@) == trim_start_of(s@.subrange(i as int, len as int)),
        decreases len - i,
    {
        assert(s@.subrange(i as int, len as int).drop_first() =~= s@.subrange(i + 1, len as int));
        i = i + 1;
    }
    assert(s@.subrange(0, len as int) =~= s@);
    assert(trim_start_of(s@) == s@.subrange(i as int, len as int));
    let mut j: usize = len;
    while j > i && white_space(s.get_char(j - 1))
        invariant
            len == s@.len(),
            i <= j <= len,
            trim_of(s@) == trim_end_of(s@.subrange(i as int, j as int)),
        decreases j,
    {
        assert(s@.subrange(i as int, j as int).drop_last() =~= s@.subrange(i as int, j - 1));
        j = j - 1;
    }
    s.substring_char(i, j)
}

/// A whole value that is `$` followed by one or more word characters.
pub const ENV_VAR_PATTERN: &'static str = r"^\$\w+$";

/// The text without its `$` signs.
pub open spec fn without_dollars(s: Seq<char>) -> Seq<char>
    decreases s.len(),
{
    if s.len() == 0 {
        s
    } else if s.last() == '$' {
        without_dollars(s.drop_last())
    } else {
        without_dollars(s.drop_last()).push(s.last())
    }
}

/// The name of the variable that a trimmed value refers to, given whether it
/// matched the pattern of a reference: the value without its `$` signs.
pub fn env_reference_from(trimmed: &str, matched: bool) -> (r: Option<String>)
    ensures
        r is Some <==> matched,
        r matches Some(n) ==> n@ == without_dollars(trimmed@),
{
    if !matched {
        return None;
    }
    let len = trimmed.unicode_len();
    let mut out = String::new();
    let mut i: usize = 0;
    while i < len
        invariant
            len == trimmed@.len(),
            i <= len,
            out@ == without_dollars(trimmed@.subrange(0, i as int)),
        decreases len - i,
    {
        let c = trimmed.get_char(i);
        if c != '$' {
            out.append(trimmed.substring_char(i, i + 1));
        }
        assert(trimmed@.subrange(0, i + 1).drop_last() =~= trimmed@.subrange(0, i as int));
        i = i + 1;
    }
    assert(trimmed@.subrange(0, len as int) =~= trimmed@);
    Some(out)
}

/// The name of the variable that `value` refers to, when its trimmed text is
/// `$` followed by word characters; `None` when it is a plain value.
pub fn env_reference(value: &str) -> (r: Option<String>)
    ensures
        regex_compiles(ENV_VAR_PATTERN@) ==> (r is Some <==> regex_match(ENV_VAR_PATTERN@, trim_of(value@))),
        r matches Some(n) ==> regex_match(ENV_VAR_PATTERN@, trim_of(value@))
            && n@ == without_dollars(trim_of(value@)),
{
    let trimmed = trim(value);
    match regex_is_match(ENV_VAR_PATTERN, trimmed) {
        Some(matched) => env_reference_from(trimmed, matched),
        None => None,
    }
}

} // verus!
