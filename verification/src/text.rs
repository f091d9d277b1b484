//! Text helpers: lowercase hex, decimal and debug-quoted renderings.

use vstd::prelude::*;

verus! {

/// The lowercase hex digit for a nibble.
pub open spec fn hex_digit(n: int) -> char {
    if n < 10 {
        (48 + n) as char
    } else {
        (87 + n) as char
    }
}

/// Lowercase hex rendering of a byte sequence: two digits per byte, high
/// nibble first.
pub open spec fn hex_lower_spec(bytes: Seq<u8>) -> Seq<char> {
    Seq::new(
        2 * bytes.len(),
        |i: int|
            if i % 2 == 0 {
                hex_digit((bytes[i / 2] / 16) as int)
            } else {
                hex_digit((bytes[i / 2] % 16) as int)
            },
    )
}

/// Appends one character (`String::push`).
#[verifier::external_body]
pub(crate) fn push_char(s: &mut String, c: char)
    ensures
        final(s)@ == old(s)@.push(c),
{
    s.push(c);
}

fn nibble_char(n: u8) -> (c: char)
    requires
        n < 16,
    ensures
        c == hex_digit(n as int),
{
    if n < 10 {
        (48u8 + n) as char
    } else {
        (87u8 + n) as char
    }
}

/// Lowercase hex of `bytes` (`{b:02x}` per byte, concatenated).
pub fn hex_lower(bytes: &[u8]) -> (r: String)
    ensures
        r@ == hex_lower_spec(bytes@),
{
    let mut s = String::new();
    let n = bytes.len();
    let mut i: usize = 0;
    while i < n
        invariant
            n == bytes@.len(),
            i <= n,
            s@ =~= hex_lower_spec(bytes@.subrange(0, i as int)),
        decreases n - i,
    {
        let b = bytes[i];
        let ghost prev = s@;
        push_char(&mut s, nibble_char(b / 16));
        push_char(&mut s, nibble_char(b % 16));
        proof {
            let next = hex_lower_spec(bytes@.subrange(0, i + 1));
            let cur = bytes@.subrange(0, i as int);
            assert forall|k: int| 0 <= k < next.len() implies #[trigger] next[k] == s@[k] by {
                if k < 2 * i {
                    assert(cur[k / 2] == bytes@.subrange(0, i + 1)[k / 2]);
                } else {
                    assert(k / 2 == i);
                }
            }
            assert(s@ =~= next);
        }
        i = i + 1;
    }
    assert(bytes@.subrange(0, n as int) =~= bytes@);
    s
}


/// The decimal digit character for `n < 10`.
pub open spec fn decimal_digit(n: nat) -> char {
    (48 + n) as char
}

/// Decimal digits of a natural number, most significant first.
pub open spec fn nat_decimal(n: nat) -> Seq<char>
    decreases n,
{
    if n < 10 {
        seq![decimal_digit(n)]
    } else {
        nat_decimal(n / 10).push(decimal_digit(n % 10))
    }
}

/// Decimal rendering of an integer (`-` sign for negatives), as `Display`
/// renders Rust integers.
pub open spec fn int_decimal(i: int) -> Seq<char> {
    if i < 0 {
        seq!['-'] + nat_decimal((-i) as nat)
    } else {
        nat_decimal(i as nat)
    }
}

fn digit_char(d: u64) -> (c: char)
    requires
        d < 10,
    ensures
        c == decimal_digit(d as nat),
{
    let b: u8 = d as u8;
    (48u8 + b) as char
}

/// Decimal rendering of an unsigned integer, as `to_string` gives it.
pub(crate) fn u64_decimal(x: u64) -> (r: String)
    ensures
        r@ == nat_decimal(x as nat),
    decreases x,
{
    if x < 10 {
        let mut s = String::new();
        push_char(&mut s, digit_char(x));
        s
    } else {
        let mut s = u64_decimal(x / 10);
        push_char(&mut s, digit_char(x % 10));
        s
    }
}

/// Decimal rendering of a signed integer, as `to_string` gives it.
pub(crate) fn i64_decimal(x: i64) -> (r: String)
    ensures
        r@ == int_decimal(x as int),
{
    if x < 0 {
        let wide: i128 = 0i128 - (x as i128);
        let magnitude: u64 = wide as u64;
        let mut s = String::new();
        push_char(&mut s, '-');
        let digits = u64_decimal(magnitude);
        let r = concat(s, digits.as_str());
        assert(r@ =~= seq!['-'] + nat_decimal((-x) as nat));
        r
    } else {
        u64_decimal(x as u64)
    }
}

/// What `format!("{:?}", s)` renders for a string: the text quoted, with
/// quotes, backslashes and non-printable characters escaped.
pub uninterp spec fn str_debug(s: Seq<char>) -> Seq<char>;

/// Debug rendering of a string (`format!("{:?}", s)`).
#[verifier::external_body]
pub(crate) fn debug_quoted(s: &str) -> (r: String)
    ensures
        r@ == str_debug(s@),
{
    format!("{:?}", s)
}

/// `a + b` for a string and a string slice.
pub(crate) fn concat(a: String, b: &str) -> (r: String)
    ensures
        r@ == a@ + b@,
{
    let mut a = a;
    a.append(b);
    a
}


/// Comma-separated decimal list of bytes (the inside of `{:?}` of a byte array).
pub open spec fn byte_list_body(bs: Seq<u8>) -> Seq<char>
    decreases bs.len(),
{
    if bs.len() == 0 {
        Seq::empty()
    } else if bs.len() == 1 {
        int_decimal(bs[0] as int)
    } else {
        byte_list_body(bs.drop_last()) + ", "@ + int_decimal(bs.last() as int)
    }
}

/// `{:?}` rendering of a byte array: `[1, 2, 3]`.
pub open spec fn bytes_debug(bs: Seq<u8>) -> Seq<char> {
    "["@ + byte_list_body(bs) + "]"@
}

/// `{:?}` rendering of a byte array.
pub fn debug_bytes(bs: &[u8]) -> (r: String)
    ensures
        r@ == bytes_debug(bs@),
{
    let mut body = String::new();
    let n = bs.len();
    let mut i: usize = 0;
    while i < n
        invariant
            n == bs@.len(),
            i <= n,
            body@ == byte_list_body(bs@.subrange(0, i as int)),
        decreases n - i,
    {
        let d = i64_decimal(bs[i] as i64);
        if i > 0 {
            body = concat(body, ", ");
        }
        body = concat(body, d.as_str());
        proof {
            let next = bs@.subrange(0, i + 1);
            assert(next.drop_last() =~= bs@.subrange(0, i as int));
            assert(next.last() == bs@[i as int]);
            if i == 0 {
                assert(body@ =~= int_decimal(bs@[0] as int));
            } else {
                assert(body@ =~= byte_list_body(bs@.subrange(0, i as int)) + ", "@ + int_decimal(bs@[i as int] as int));
            }
        }
        i = i + 1;
    }
    assert(bs@.subrange(0, n as int) =~= bs@);
    let r = concat("[".to_string(), body.as_str());
    concat(r, "]")
}

} // verus!
