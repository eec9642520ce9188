//! Byte-level scanners over annotation token text: spaces, identifiers,
//! balanced delimiter groups, and top-level commas. Each executable scanner
//! is proved equal to its specification twin, which the annotation grammar
//! in `config` is defined over.

use vstd::prelude::*;

verus! {

/// Byte values of the delimiters and classes the scanners read.
pub const SPACE: u8 = 32;
/// `(`
pub const LPAREN: u8 = 40;
/// `)`
pub const RPAREN: u8 = 41;
/// `,`
pub const COMMA: u8 = 44;
/// `_`
pub const UNDERSCORE: u8 = 95;
/// `[`
pub const LBRACKET: u8 = 91;
/// `]`
pub const RBRACKET: u8 = 93;
/// `{`
pub const LBRACE: u8 = 123;
/// `}`
pub const RBRACE: u8 = 125;
/// `<`
pub const LANGLE: u8 = 60;
/// `>`
pub const RANGLE: u8 = 62;
/// `-`
pub const MINUS: u8 = 45;
/// `=`
pub const EQUALS: u8 = 61;
/// `a`
pub const LOWER_A: u8 = 97;
/// `z`
pub const LOWER_Z: u8 = 122;
/// `A`
pub const UPPER_A: u8 = 65;
/// `Z`
pub const UPPER_Z: u8 = 90;
/// `0`
pub const DIGIT_0: u8 = 48;
/// `9`
pub const DIGIT_9: u8 = 57;

/// The space byte: token text renders whitespace as single spaces.
pub open spec fn is_space(c: u8) -> bool {
    c == SPACE
}

/// A byte that may open an identifier.
pub open spec fn is_ident_start(c: u8) -> bool {
    (LOWER_A <= c && c <= LOWER_Z) || (UPPER_A <= c && c <= UPPER_Z) || c == UNDERSCORE
}

/// A byte that may continue an identifier.
pub open spec fn is_ident_byte(c: u8) -> bool {
    is_ident_start(c) || (DIGIT_0 <= c && c <= DIGIT_9)
}

/// Offset from `i` to the first non-space byte (or to the end).
pub open spec fn sp_spaces(s: Seq<u8>, i: int) -> nat
    decreases s.len() - i,
{
    if i < s.len() && is_space(s[i]) {
        (1 + sp_spaces(s, i + 1)) as nat
    } else {
        0
    }
}

/// Offset from `i` to the first byte that cannot continue an identifier.
pub open spec fn sp_ident_end(s: Seq<u8>, i: int) -> nat
    decreases s.len() - i,
{
    if i < s.len() && is_ident_byte(s[i]) {
        (1 + sp_ident_end(s, i + 1)) as nat
    } else {
        0
    }
}

/// Offset from `i` to the closing parenthesis that brings `depth` open
/// groups down to none, or `None` when the text ends first.
pub open spec fn sp_close(s: Seq<u8>, i: int, depth: nat) -> Option<nat>
    decreases s.len() - i,
{
    if i >= s.len() {
        None
    } else if s[i] == RPAREN && depth == 1 {
        Some(0)
    } else {
        let d: nat = if s[i] == LPAREN {
            depth + 1
        } else if s[i] == RPAREN {
            (depth - 1) as nat
        } else {
            depth
        };
        match sp_close(s, i + 1, d) {
            Some(off) => Some(off + 1),
            None => None,
        }
    }
}

/// A found closing parenthesis lies inside `s` and is a `)`.
pub proof fn lemma_close_in_range(s: Seq<u8>, i: int, depth: nat)
    requires
        0 <= i <= s.len(),
    ensures
        sp_close(s, i, depth) matches Some(off) ==> i + off < s.len() && s[i + off] == RPAREN,
    decreases s.len() - i,
{
    if i < s.len() && !(s[i] == RPAREN && depth == 1) {
        let d: nat = if s[i] == LPAREN {
            depth + 1
        } else if s[i] == RPAREN {
            (depth - 1) as nat
        } else {
            depth
        };
        lemma_close_in_range(s, i + 1, d);
    }
}

/// First non-space byte position, as executable code.
pub fn spaces_from(s: &[u8], i: usize) -> (r: usize)
    requires
        i <= s.len(),
    ensures
        r == i + sp_spaces(s@, i as int),
        i <= r <= s.len(),
    decreases s.len() - i,
{
    if i < s.len() && s[i] == SPACE {
        spaces_from(s, i + 1)
    } else {
        i
    }
}

/// Whether `c` may continue an identifier, as executable code.
pub fn ident_byte(c: u8) -> (r: bool)
    ensures
        r == is_ident_byte(c),
{
    (LOWER_A <= c && c <= LOWER_Z) || (UPPER_A <= c && c <= UPPER_Z) || c == UNDERSCORE || (DIGIT_0 <= c && c <= DIGIT_9)
}

/// Whether `c` may open an identifier, as executable code.
pub fn ident_start_byte(c: u8) -> (r: bool)
    ensures
        r == is_ident_start(c),
{
    (LOWER_A <= c && c <= LOWER_Z) || (UPPER_A <= c && c <= UPPER_Z) || c == UNDERSCORE
}

/// End of the identifier starting at `i`, as executable code.
pub fn ident_from(s: &[u8], i: usize) -> (r: usize)
    requires
        i <= s.len(),
    ensures
        r == i + sp_ident_end(s@, i as int),
        i <= r <= s.len(),
    decreases s.len() - i,
{
    if i < s.len() && ident_byte(s[i]) {
        ident_from(s, i + 1)
    } else {
        i
    }
}

/// Position of the closing parenthesis matching `depth` open groups, as
/// executable code.
pub fn close_from(s: &[u8], i: usize, depth: usize) -> (r: Option<usize>)
    requires
        i <= s.len(),
        1 <= depth <= i,
    ensures
        match sp_close(s@, i as int, depth as nat) {
            Some(off) => r == Some((i + off) as usize) && i + off < s.len(),
            None => r is None,
        },
    decreases s.len() - i,
{
    proof {
        lemma_close_in_range(s@, i as int, depth as nat);
    }
    if i >= s.len() {
        None
    } else if s[i] == RPAREN && depth == 1 {
        Some(i)
    } else if s[i] == LPAREN {
        close_from(s, i + 1, depth + 1)
    } else if s[i] == RPAREN {
        close_from(s, i + 1, depth - 1)
    } else {
        close_from(s, i + 1, depth)
    }
}

/// A fresh copy of a whole byte buffer.
pub fn copy_bytes(v: &Vec<u8>) -> (r: Vec<u8>)
    ensures
        r@ == v@,
{
    let r = copy_range(v.as_slice(), 0, v.len());
    proof {
        assert(v@.subrange(0, v@.len() as int) =~= v@);
    }
    r
}

/// A byte that opens a delimiter group in a bound list.
pub open spec fn is_opener(c: u8) -> bool {
    c == LPAREN || c == LBRACKET || c == LBRACE || c == LANGLE
}

/// A byte that closes a delimiter group in a bound list. A `>` directly
/// after `-` or `=` is the tail of an arrow token, not a closer.
pub open spec fn is_closer(s: Seq<u8>, i: int) -> bool {
    (s[i] == RPAREN || s[i] == RBRACKET || s[i] == RBRACE)
    || (s[i] == RANGLE && !(i > 0 && (s[i - 1] == MINUS || s[i - 1] == EQUALS)))
}

/// Offset from `i` to the next comma of a bound list that stands outside
/// every delimiter group (or to the end), starting `depth` groups deep.
pub open spec fn sp_bound_comma(s: Seq<u8>, i: int, depth: nat) -> nat
    decreases s.len() - i,
{
    if i >= s.len() {
        0
    } else if s[i] == COMMA && depth == 0 {
        0
    } else {
        let d: nat = if is_opener(s[i]) {
            depth + 1
        } else if is_closer(s, i) && depth > 0 {
            (depth - 1) as nat
        } else {
            depth
        };
        (1 + sp_bound_comma(s, i + 1, d)) as nat
    }
}

/// The index `i + sp_bound_comma(s, i, depth)` never passes the end of `s`,
/// and where it falls short of the end it names a comma.
pub proof fn lemma_bound_comma_le(s: Seq<u8>, i: int, depth: nat)
    requires
        0 <= i <= s.len(),
    ensures
        i + sp_bound_comma(s, i, depth) <= s.len(),
        i + sp_bound_comma(s, i, depth) < s.len() ==> s[i + sp_bound_comma(s, i, depth)]
            == COMMA,
    decreases s.len() - i,
{
    if i < s.len() && !(s[i] == COMMA && depth == 0) {
        let d: nat = if is_opener(s[i]) {
            depth + 1
        } else if is_closer(s, i) && depth > 0 {
            (depth - 1) as nat
        } else {
            depth
        };
        lemma_bound_comma_le(s, i + 1, d);
    }
}

/// Position of the next bound-list comma outside every delimiter group, as
/// executable code.
pub fn bound_comma_from(s: &[u8], i: usize, depth: usize) -> (r: usize)
    requires
        i <= s.len(),
        depth <= i,
    ensures
        r == i + sp_bound_comma(s@, i as int, depth as nat),
        i <= r <= s.len(),
        r < s.len() ==> s@[r as int] == COMMA,
    decreases s.len() - i,
{
    proof {
        lemma_bound_comma_le(s@, i as int, depth as nat);
    }
    if i >= s.len() {
        i
    } else if s[i] == COMMA && depth == 0 {
        i
    } else {
        let c = s[i];
        let closer = (c == RPAREN || c == RBRACKET || c == RBRACE)
            || (c == RANGLE && !(i > 0 && (s[i - 1] == MINUS || s[i - 1] == EQUALS)));
        if c == LPAREN || c == LBRACKET || c == LBRACE || c == LANGLE {
            bound_comma_from(s, i + 1, depth + 1)
        } else if closer && depth > 0 {
            bound_comma_from(s, i + 1, depth - 1)
        } else {
            bound_comma_from(s, i + 1, depth)
        }
    }
}

/// Number of space bytes directly before position `j`, scanning no further
/// down than `low`.
pub open spec fn sp_rspaces(s: Seq<u8>, j: int, low: int) -> nat
    decreases j - low,
{
    if j > low && is_space(s[j - 1]) {
        (1 + sp_rspaces(s, j - 1, low)) as nat
    } else {
        0
    }
}

/// The index `j - sp_rspaces(s, j, low)` never falls below `low`.
pub proof fn lemma_rspaces_ge(s: Seq<u8>, j: int, low: int)
    requires
        low <= j,
    ensures
        low <= j - sp_rspaces(s, j, low),
    decreases j - low,
{
    if j > low && is_space(s[j - 1]) {
        lemma_rspaces_ge(s, j - 1, low);
    }
}

/// `s` with leading and trailing spaces removed.
pub open spec fn sp_trim(s: Seq<u8>) -> Seq<u8> {
    let a = sp_spaces(s, 0);
    if a >= s.len() {
        Seq::empty()
    } else {
        s.subrange(a as int, s.len() - sp_rspaces(s, s.len() as int, a as int))
    }
}

/// A fresh, trimmed copy of `s[a..b]`, as executable code.
pub fn trim_copy(s: &[u8], a: usize, b: usize) -> (r: Vec<u8>)
    requires
        a <= b <= s.len(),
    ensures
        r@ == sp_trim(s@.subrange(a as int, b as int)),
{
    let seg = copy_range(s, a, b);
    let start = spaces_from(seg.as_slice(), 0);
    if start >= seg.len() {
        Vec::new()
    } else {
        proof {
            lemma_rspaces_ge(seg@, seg.len() as int, start as int);
        }
        let end = rspaces_from(seg.as_slice(), seg.len(), start);
        copy_range(seg.as_slice(), start, end)
    }
}

/// First position at or above `low` with no space bytes between it and `j`,
/// as executable code.
pub fn rspaces_from(s: &[u8], j: usize, low: usize) -> (r: usize)
    requires
        low <= j <= s.len(),
    ensures
        r == j - sp_rspaces(s@, j as int, low as int),
        low <= r <= j,
    decreases j - low,
{
    proof {
        lemma_rspaces_ge(s@, j as int, low as int);
    }
    if j > low && s[j - 1] == SPACE {
        rspaces_from(s, j - 1, low)
    } else {
        j
    }
}

/// A fresh copy of the bytes `s[a..b]`.
pub fn copy_range(s: &[u8], a: usize, b: usize) -> (r: Vec<u8>)
    requires
        a <= b <= s.len(),
    ensures
        r@ == s@.subrange(a as int, b as int),
{
    let mut r: Vec<u8> = Vec::new();
    let mut i: usize = a;
    while i < b
        invariant
            a <= i <= b <= s.len(),
            r@ == s@.subrange(a as int, i as int),
        decreases b - i,
    {
        r.push(s[i]);
        i = i + 1;
        proof {
            assert(r@ =~= s@.subrange(a as int, i as int));
        }
    }
    r
}

} // verus!
