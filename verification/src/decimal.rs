//! Exact fixed-point decimal numbers.
//!
//! A [`Dec`] holds a non-negative decimal value as an integer count of units
//! together with a scale: the value is `units / 10^scale`. Prices and
//! quantities arrive as decimal strings; parsing and formatting are specified
//! against a character-level model, so that the precision rules of the engine
//! (a limit price keeps the decimal-place count of the observed price) can be
//! stated and proved exactly.

use vstd::prelude::*;

verus! {

/// Highest scale (number of decimal places) a parsed decimal may carry.
pub const MAX_SCALE: u32 = 12;

/// Exclusive upper bound on the unit count of a parsed decimal.
pub const MAX_UNITS: u128 = 1_000_000_000_000_000_000_000_000;

/// A non-negative fixed-point decimal number: the value `units / 10^scale`.
#[derive(Clone, Copy, Debug, PartialEq, Eq, Structural)]
pub struct Dec {
    pub units: u128,
    pub scale: u32,
}

/// `10^e` as a mathematical integer.
pub open spec fn pow10(e: nat) -> nat
    decreases e,
{
    if e == 0 {
        1
    } else {
        10 * pow10((e - 1) as nat)
    }
}

/// `10^e` is at least one.
pub proof fn lemma_pow10_pos(e: nat)
    ensures
        pow10(e) >= 1,
    decreases e,
{
    if e > 0 {
        lemma_pow10_pos((e - 1) as nat);
    }
}

/// `10^e` grows monotonically with `e`.
pub proof fn lemma_pow10_increases(e1: nat, e2: nat)
    requires
        e1 <= e2,
    ensures
        pow10(e1) <= pow10(e2),
        pow10(e1) >= 1,
    decreases e2,
{
    lemma_pow10_pos(e1);
    if e1 < e2 {
        lemma_pow10_increases(e1, (e2 - 1) as nat);
        assert(pow10(e2) == 10 * pow10((e2 - 1) as nat));
    }
}

/// Concrete values of the powers of ten the engine computes with.
pub proof fn lemma_pow10_values()
    ensures
        pow10(4) == 10_000,
        pow10(12) == 1_000_000_000_000,
        pow10(16) == 10_000_000_000_000_000,
        pow10(24) == 1_000_000_000_000_000_000_000_000,
        pow10(36) == 1_000_000_000_000_000_000_000_000_000_000_000_000,
{
    reveal_with_fuel(pow10, 37);
}

/// `10^e` computed at run time.
pub fn pow10_u128(e: u32) -> (r: u128)
    requires
        e <= 36,
    ensures
        r == pow10(e as nat),
{
    let mut r: u128 = 1;
    let mut i: u32 = 0;
    while i < e
        invariant
            i <= e <= 36,
            r == pow10(i as nat),
        decreases e - i,
    {
        proof {
            lemma_pow10_increases((i + 1) as nat, 36);
            lemma_pow10_values();
        }
        r = r * 10;
        i = i + 1;
    }
    r
}

/// Division of `n` by `d`, rounded half away from zero.
pub open spec fn round_half_div(n: nat, d: nat) -> nat
    recommends
        d > 0,
{
    if n % d * 2 >= d {
        n / d + 1
    } else {
        n / d
    }
}

/// Whether `c` is a decimal digit.
pub open spec fn is_digit(c: char) -> bool {
    ||| c == '0'
    ||| c == '1'
    ||| c == '2'
    ||| c == '3'
    ||| c == '4'
    ||| c == '5'
    ||| c == '6'
    ||| c == '7'
    ||| c == '8'
    ||| c == '9'
}

/// The numeric value of a digit character.
pub open spec fn digit_val(c: char) -> nat {
    if c == '0' {
        0
    } else if c == '1' {
        1
    } else if c == '2' {
        2
    } else if c == '3' {
        3
    } else if c == '4' {
        4
    } else if c == '5' {
        5
    } else if c == '6' {
        6
    } else if c == '7' {
        7
    } else if c == '8' {
        8
    } else {
        9
    }
}

/// The digit character for a value below ten.
pub open spec fn digit_char(d: nat) -> char {
    if d == 0 {
        '0'
    } else if d == 1 {
        '1'
    } else if d == 2 {
        '2'
    } else if d == 3 {
        '3'
    } else if d == 4 {
        '4'
    } else if d == 5 {
        '5'
    } else if d == 6 {
        '6'
    } else if d == 7 {
        '7'
    } else if d == 8 {
        '8'
    } else {
        '9'
    }
}

/// How many `'.'` characters `s` holds.
pub open spec fn num_dots(s: Seq<char>) -> nat
    decreases s.len(),
{
    if s.len() == 0 {
        0
    } else {
        num_dots(s.drop_last()) + (if s.last() == '.' {
            1nat
        } else {
            0nat
        })
    }
}

/// The integer read off the digits of `s`, the decimal point skipped.
/// `"12.34"` gives `1234`.
pub open spec fn units_of(s: Seq<char>) -> nat
    decreases s.len(),
{
    if s.len() == 0 {
        0
    } else if s.last() == '.' {
        units_of(s.drop_last())
    } else {
        units_of(s.drop_last()) * 10 + digit_val(s.last())
    }
}

/// The number of characters after the decimal point, 0 when there is none.
pub open spec fn places_of(s: Seq<char>) -> nat
    decreases s.len(),
{
    if s.len() == 0 {
        0
    } else if s.last() == '.' {
        0
    } else if num_dots(s) == 0 {
        0
    } else {
        places_of(s.drop_last()) + 1
    }
}

/// Every character of `s` is a digit or the decimal point.
pub open spec fn dec_chars_ok(s: Seq<char>) -> bool {
    forall|i: int| 0 <= i < s.len() ==> is_digit(#[trigger] s[i]) || s[i] == '.'
}

/// Whether `s` is a well-formed unsigned decimal string: one or more digits,
/// with at most one decimal point strictly inside them.
pub open spec fn is_dec_str(s: Seq<char>) -> bool {
    &&& s.len() > 0
    &&& dec_chars_ok(s)
    &&& num_dots(s) <= 1
    &&& s[0] != '.'
    &&& s[s.len() - 1] != '.'
}

/// Whether `s` is a well-formed decimal string with an optional leading minus.
pub open spec fn is_signed_dec_str(s: Seq<char>) -> bool {
    if s.len() > 0 && s[0] == '-' {
        is_dec_str(s.drop_first())
    } else {
        is_dec_str(s)
    }
}

/// The digits of `s` with any leading minus removed.
pub open spec fn magnitude_of(s: Seq<char>) -> Seq<char> {
    if s.len() > 0 && s[0] == '-' {
        s.drop_first()
    } else {
        s
    }
}

/// Extending a prefix of `s` by one character relates the two prefixes.
proof fn lemma_take_succ(s: Seq<char>, i: int)
    requires
        0 <= i < s.len(),
    ensures
        s.take(i + 1).drop_last() =~= s.take(i),
        s.take(i + 1).last() == s[i],
        s.take(i + 1).len() == i + 1,
{
}

/// The unit count read from a prefix never shrinks as the prefix grows.
proof fn lemma_units_take_mono(s: Seq<char>, i: int, j: int)
    requires
        0 <= i <= j <= s.len(),
    ensures
        units_of(s.take(i)) <= units_of(s.take(j)),
    decreases j - i,
{
    if i < j {
        lemma_units_take_mono(s, i, j - 1);
        lemma_take_succ(s, j - 1);
        assert(units_of(s.take(j)) >= units_of(s.take(j - 1)));
    }
}

/// The dot count of a prefix never shrinks as the prefix grows.
proof fn lemma_num_dots_take_mono(s: Seq<char>, i: int, j: int)
    requires
        0 <= i <= j <= s.len(),
    ensures
        num_dots(s.take(i)) <= num_dots(s.take(j)),
    decreases j - i,
{
    if i < j {
        lemma_num_dots_take_mono(s, i, j - 1);
        lemma_take_succ(s, j - 1);
    }
}

/// Once the single dot of a string has been passed, each further character
/// adds one decimal place.
proof fn lemma_places_take_grow(s: Seq<char>, i: int, j: int)
    requires
        0 <= i <= j <= s.len(),
        num_dots(s.take(i)) == 1,
        num_dots(s.take(j)) == 1,
    ensures
        places_of(s.take(j)) == places_of(s.take(i)) + (j - i),
    decreases j - i,
{
    if i < j {
        lemma_num_dots_take_mono(s, i, j - 1);
        lemma_num_dots_take_mono(s, j - 1, j);
        lemma_places_take_grow(s, i, j - 1);
        lemma_take_succ(s, j - 1);
        assert(num_dots(s.take(j - 1)) == 1);
        assert(s[j - 1] != '.');
        assert(places_of(s.take(j)) == places_of(s.take(j - 1)) + 1);
    }
}

/// The numeric value of a digit character, or `None` for any other character.
fn digit_of(c: char) -> (r: Option<u8>)
    ensures
        r is Some <==> is_digit(c),
        r matches Some(d) ==> d < 10 && d as nat == digit_val(c),
{
    match c {
        '0' => Some(0),
        '1' => Some(1),
        '2' => Some(2),
        '3' => Some(3),
        '4' => Some(4),
        '5' => Some(5),
        '6' => Some(6),
        '7' => Some(7),
        '8' => Some(8),
        '9' => Some(9),
        _ => None,
    }
}

impl Dec {
    /// Parses an unsigned decimal string. Returns `None` when the string is
    /// not a well-formed decimal, when its unit count would reach
    /// [`MAX_UNITS`], or when it has more than [`MAX_SCALE`] decimal places.
    pub fn parse(s: &str) -> (r: Option<Dec>)
        ensures
            r is Some <==> is_dec_str(s@) && units_of(s@) < MAX_UNITS && places_of(s@)
                <= MAX_SCALE,
            r matches Some(d) ==> d.units as nat == units_of(s@) && d.scale as nat == places_of(
                s@,
            ),
    {
        let n = s.unicode_len();
        if n == 0 {
            return None;
        }
        let mut i: usize = 0;
        let mut acc: u128 = 0;
        let mut seen_dot = false;
        let mut frac: u32 = 0;
        let mut last_dot = false;
        while i < n
            invariant
                n == s@.len(),
                n > 0,
                i <= n,
                dec_chars_ok(s@.take(i as int)),
                num_dots(s@.take(i as int)) == (if seen_dot {
                    1nat
                } else {
                    0nat
                }),
                acc as nat == units_of(s@.take(i as int)),
                acc < MAX_UNITS,
                frac as nat == places_of(s@.take(i as int)),
                frac <= MAX_SCALE,
                i > 0 ==> s@[0] != '.',
                i > 0 ==> last_dot == (s@[i - 1] == '.'),
            decreases n - i,
        {
            let c = s.get_char(i);
            proof {
                lemma_take_succ(s@, i as int);
            }
            if c == '.' {
                if i == 0 {
                    return None;
                }
                if seen_dot {
                    proof {
                        lemma_num_dots_take_mono(s@, i as int + 1, n as int);
                        assert(s@.take(n as int) =~= s@);
                    }
                    return None;
                }
                seen_dot = true;
                last_dot = true;
            } else {
                match digit_of(c) {
                    None => {
                        proof {
                            assert(!is_digit(s@[i as int]) && s@[i as int] != '.');
                        }
                        return None;
                    },
                    Some(d) => {
                        if seen_dot {
                            if frac >= MAX_SCALE {
                                proof {
                                    if is_dec_str(s@) {
                                        lemma_num_dots_take_mono(s@, i as int + 1, n as int);
                                        assert(s@.take(n as int) =~= s@);
                                        assert(num_dots(s@.take(i as int + 1)) == 1);
                                        lemma_places_take_grow(s@, i as int + 1, n as int);
                                        assert(places_of(s@) > MAX_SCALE);
                                    }
                                }
                                return None;
                            }
                            frac = frac + 1;
                        }
                        if acc > (MAX_UNITS - 1 - d as u128) / 10 {
                            proof {
                                let m = (MAX_UNITS - 1 - d as u128) as int;
                                assert(acc as int * 10 > m - m % 10) by (nonlinear_arith)
                                    requires
                                        acc as int > m / 10,
                                        m >= 0,
                                        m == 10 * (m / 10) + m % 10,
                                        m % 10 < 10,
                                ;
                                assert(units_of(s@.take(i as int + 1)) >= MAX_UNITS);
                                lemma_units_take_mono(s@, i as int + 1, n as int);
                                assert(s@.take(n as int) =~= s@);
                            }
                            return None;
                        }
                        proof {
                            let m = (MAX_UNITS - 1 - d as u128) as int;
                            assert(acc as int * 10 <= m - m % 10) by (nonlinear_arith)
                                requires
                                    acc as int <= m / 10,
                                    m >= 0,
                                    m == 10 * (m / 10) + m % 10,
                            ;
                        }
                        acc = acc * 10 + d as u128;
                        last_dot = false;
                    },
                }
            }
            i = i + 1;
        }
        proof {
            assert(s@.take(n as int) =~= s@);
        }
        if last_dot {
            return None;
        }
        Some(Dec { units: acc, scale: frac })
    }

    /// Parses a decimal string with an optional leading minus, returning the
    /// sign and the magnitude. Returns `None` under the same conditions as
    /// [`Dec::parse`], applied to the digits after the sign.
    pub fn parse_signed(s: &str) -> (r: Option<(bool, Dec)>)
        ensures
            r is Some <==> is_signed_dec_str(s@) && units_of(magnitude_of(s@)) < MAX_UNITS
                && places_of(magnitude_of(s@)) <= MAX_SCALE,
            r matches Some(p) ==> {
                &&& p.0 == (s@.len() > 0 && s@[0] == '-')
                &&& p.1.units as nat == units_of(magnitude_of(s@))
                &&& p.1.scale as nat == places_of(magnitude_of(s@))
            },
    {
        let n = s.unicode_len();
        if n > 0 && s.get_char(0) == '-' {
            let rest = s.substring_char(1, n);
            proof {
                assert(rest@ =~= s@.drop_first());
            }
            match Dec::parse(rest) {
                Some(d) => Some((true, d)),
                None => None,
            }
        } else {
            match Dec::parse(s) {
                Some(d) => Some((false, d)),
                None => None,
            }
        }
    }
}

/// The digit characters of `n`, most significant first, without leading
/// zeros (except for `n == 0`, which is the single character `'0'`).
pub open spec fn digits_of(n: nat) -> Seq<char>
    decreases n,
{
    if n < 10 {
        seq![digit_char(n)]
    } else {
        digits_of(n / 10) + seq![digit_char(n % 10)]
    }
}

/// The lowest `width` digit characters of `n`, most significant first,
/// zero-padded to exactly `width` characters.
pub open spec fn padded_digits_of(n: nat, width: nat) -> Seq<char>
    decreases width,
{
    if width == 0 {
        Seq::empty()
    } else {
        padded_digits_of(n / 10, (width - 1) as nat) + seq![digit_char(n % 10)]
    }
}

/// The decimal string for the value `units / 10^scale`: the integer part
/// without leading zeros, then, for a positive scale, a decimal point and
/// exactly `scale` fraction digits.
pub open spec fn dec_string_of(units: nat, scale: nat) -> Seq<char> {
    if scale == 0 {
        digits_of(units)
    } else {
        digits_of(units / pow10(scale)) + seq!['.'] + padded_digits_of(units, scale)
    }
}

/// Appends the single digit character for `d` to `out`.
fn push_digit_char(out: &mut String, d: u8)
    requires
        d < 10,
    ensures
        final(out)@ == old(out)@ + seq![digit_char(d as nat)],
{
    let lit: &str = match d {
        0 => "0",
        1 => "1",
        2 => "2",
        3 => "3",
        4 => "4",
        5 => "5",
        6 => "6",
        7 => "7",
        8 => "8",
        _ => "9",
    };
    proof {
        reveal_strlit("0");
        reveal_strlit("1");
        reveal_strlit("2");
        reveal_strlit("3");
        reveal_strlit("4");
        reveal_strlit("5");
        reveal_strlit("6");
        reveal_strlit("7");
        reveal_strlit("8");
        reveal_strlit("9");
        assert(lit@ =~= seq![digit_char(d as nat)]);
    }
    out.append(lit);
}

/// Appends the digits of `n`, most significant first.
fn push_digits(out: &mut String, n: u128)
    ensures
        final(out)@ == old(out)@ + digits_of(n as nat),
    decreases n,
{
    if n >= 10 {
        push_digits(out, n / 10);
    }
    push_digit_char(out, (n % 10) as u8);
    proof {
        if n >= 10 {
            assert(old(out)@ + digits_of((n / 10) as nat) + seq![digit_char((n % 10) as nat)]
                =~= old(out)@ + digits_of(n as nat));
        } else {
            assert(old(out)@ + digits_of(n as nat) =~= old(out)@ + seq![digit_char(n as nat)]);
        }
    }
}

/// Appends exactly `width` digits: the lowest `width` digits of `n`,
/// zero-padded, most significant first.
fn push_padded_digits(out: &mut String, n: u128, width: u32)
    ensures
        final(out)@ == old(out)@ + padded_digits_of(n as nat, width as nat),
    decreases width,
{
    if width > 0 {
        push_padded_digits(out, n / 10, width - 1);
        push_digit_char(out, (n % 10) as u8);
        proof {
            assert(old(out)@ + padded_digits_of((n / 10) as nat, (width - 1) as nat) + seq![
                digit_char((n % 10) as nat),
            ] =~= old(out)@ + padded_digits_of(n as nat, width as nat));
        }
    } else {
        proof {
            assert(old(out)@ + padded_digits_of(n as nat, 0) =~= old(out)@);
        }
    }
}

impl Dec {
    /// Renders the value as a decimal string with exactly `scale` decimal
    /// places.
    pub fn to_dec_string(&self) -> (r: String)
        requires
            self.scale <= MAX_SCALE,
        ensures
            r@ == dec_string_of(self.units as nat, self.scale as nat),
    {
        let mut out = String::new();
        if self.scale == 0 {
            push_digits(&mut out, self.units);
            proof {
                assert(Seq::<char>::empty() + digits_of(self.units as nat) =~= dec_string_of(
                    self.units as nat,
                    self.scale as nat,
                ));
            }
        } else {
            let p = pow10_u128(self.scale);
            proof {
                lemma_pow10_pos(self.scale as nat);
            }
            push_digits(&mut out, self.units / p);
            let dot: &str = ".";
            proof {
                reveal_strlit(".");
                assert(dot@ =~= seq!['.']);
            }
            out.append(dot);
            push_padded_digits(&mut out, self.units, self.scale);
            proof {
                assert(Seq::<char>::empty() + digits_of((self.units / p) as nat) + seq!['.']
                    + padded_digits_of(self.units as nat, self.scale as nat) =~= dec_string_of(
                    self.units as nat,
                    self.scale as nat,
                ));
            }
        }
        out
    }
}

/// Every character of `s` is a digit.
pub open spec fn all_digits(s: Seq<char>) -> bool {
    forall|i: int| 0 <= i < s.len() ==> is_digit(#[trigger] s[i])
}

/// A sequence of digit characters holds no dot.
proof fn lemma_all_digits_no_dots(s: Seq<char>)
    requires
        all_digits(s),
    ensures
        num_dots(s) == 0,
    decreases s.len(),
{
    if s.len() > 0 {
        assert(all_digits(s.drop_last()));
        lemma_all_digits_no_dots(s.drop_last());
        assert(is_digit(s.last()));
    }
}

/// The digits of `n` read back as the number `n`.
proof fn lemma_digits_of_props(n: nat)
    ensures
        digits_of(n).len() >= 1,
        all_digits(digits_of(n)),
        units_of(digits_of(n)) == n,
    decreases n,
{
    if n < 10 {
        let s = seq![digit_char(n)];
        assert(s.drop_last() =~= Seq::<char>::empty());
        assert(units_of(s) == units_of(Seq::<char>::empty()) * 10 + digit_val(digit_char(n)));
    } else {
        lemma_digits_of_props(n / 10);
        let a = digits_of(n / 10);
        let s = a + seq![digit_char(n % 10)];
        assert(s.drop_last() =~= a);
        assert(s.last() == digit_char(n % 10));
        assert(units_of(s) == units_of(a) * 10 + digit_val(digit_char(n % 10)));
        assert(n == (n / 10) * 10 + n % 10) by {
            vstd::arithmetic::div_mod::lemma_fundamental_div_mod(n as int, 10);
        }
    }
}

/// The padded digits of `n` read back as `n` modulo `10^width`.
proof fn lemma_padded_digits_of_props(n: nat, width: nat)
    ensures
        padded_digits_of(n, width).len() == width,
        all_digits(padded_digits_of(n, width)),
        units_of(padded_digits_of(n, width)) == n % pow10(width),
    decreases width,
{
    lemma_pow10_pos(width);
    if width == 0 {
        assert(n % pow10(0) == 0) by {
            assert(pow10(0) == 1);
        }
    } else {
        lemma_padded_digits_of_props(n / 10, (width - 1) as nat);
        let a = padded_digits_of(n / 10, (width - 1) as nat);
        let s = a + seq![digit_char(n % 10)];
        assert(s.drop_last() =~= a);
        assert(s.last() == digit_char(n % 10));
        assert(units_of(s) == units_of(a) * 10 + digit_val(digit_char(n % 10)));
        let p = pow10((width - 1) as nat);
        lemma_pow10_pos((width - 1) as nat);
        let q = (n / 10) / p;
        let r = (n / 10) % p;
        assert(n / 10 == p * q + r && r < p) by {
            vstd::arithmetic::div_mod::lemma_fundamental_div_mod(n as int / 10, p as int);
            vstd::arithmetic::div_mod::lemma_mod_bound(n as int / 10, p as int);
        }
        assert(n == (n / 10) * 10 + n % 10) by {
            vstd::arithmetic::div_mod::lemma_fundamental_div_mod(n as int, 10);
        }
        assert((p * q + r) * 10 == q * (10 * p) + 10 * r) by (nonlinear_arith);
        assert(n == q * (10 * p) + (10 * r + n % 10));
        assert(10 * r + n % 10 < 10 * p);
        assert(pow10(width) == 10 * p);
        assert(n % pow10(width) == 10 * r + n % 10) by {
            vstd::arithmetic::div_mod::lemma_fundamental_div_mod_converse_mod(
                n as int,
                10 * p as int,
                q as int,
                10 * (r as int) + (n % 10) as int,
            );
        }
        assert(units_of(s) == r * 10 + n % 10);
    }
}

/// Appending digit characters to a string multiplies its unit count by the
/// corresponding power of ten and adds the units of the appended digits.
proof fn lemma_units_append_digits(a: Seq<char>, b: Seq<char>)
    requires
        all_digits(b),
    ensures
        units_of(a + b) == units_of(a) * pow10(b.len()) + units_of(b),
    decreases b.len(),
{
    if b.len() == 0 {
        assert(a + b =~= a);
        assert(pow10(0) == 1);
    } else {
        let b0 = b.drop_last();
        assert(all_digits(b0));
        lemma_units_append_digits(a, b0);
        assert((a + b).drop_last() =~= a + b0);
        assert((a + b).last() == b.last());
        assert(is_digit(b.last()));
        let u = units_of(a);
        let p0 = pow10(b0.len());
        assert(units_of(a + b) == (u * p0 + units_of(b0)) * 10 + digit_val(b.last()));
        assert((u * p0 + units_of(b0)) * 10 == u * (10 * p0) + units_of(b0) * 10)
            by (nonlinear_arith);
        assert(pow10(b.len()) == 10 * p0);
        assert(units_of(b) == units_of(b0) * 10 + digit_val(b.last()));
    }
}

/// Dot counts add up under concatenation.
proof fn lemma_num_dots_append(a: Seq<char>, b: Seq<char>)
    ensures
        num_dots(a + b) == num_dots(a) + num_dots(b),
    decreases b.len(),
{
    if b.len() == 0 {
        assert(a + b =~= a);
    } else {
        lemma_num_dots_append(a, b.drop_last());
        assert((a + b).drop_last() =~= a + b.drop_last());
        assert((a + b).last() == b.last());
    }
}

/// Appending digit characters after the dot adds one decimal place each.
proof fn lemma_places_append_digits(a: Seq<char>, b: Seq<char>)
    requires
        all_digits(b),
        num_dots(a) >= 1,
    ensures
        places_of(a + b) == places_of(a) + b.len(),
    decreases b.len(),
{
    if b.len() == 0 {
        assert(a + b =~= a);
    } else {
        let b0 = b.drop_last();
        assert(all_digits(b0));
        lemma_places_append_digits(a, b0);
        assert((a + b).drop_last() =~= a + b0);
        assert((a + b).last() == b.last());
        assert(is_digit(b.last()));
        lemma_num_dots_append(a, b);
        assert(num_dots(a + b) >= 1);
    }
}

/// The decimal string of a value parses back to that value: it is
/// well-formed, its unit count is `units`, and it has exactly `scale`
/// decimal places. In particular a formatted price keeps the decimal-place
/// count it was built with.
pub proof fn lemma_dec_string_round_trip(units: nat, scale: nat)
    ensures
        is_dec_str(dec_string_of(units, scale)),
        units_of(dec_string_of(units, scale)) == units,
        places_of(dec_string_of(units, scale)) == scale,
{
    if scale == 0 {
        lemma_digits_of_props(units);
        lemma_all_digits_no_dots(digits_of(units));
        let s = dec_string_of(units, scale);
        assert(is_digit(s[0]));
        assert(is_digit(s[s.len() - 1]));
        assert(places_of(s) == 0) by {
            assert(num_dots(s) == 0);
            if s.len() > 0 && s.last() != '.' {
            }
        }
    } else {
        lemma_pow10_pos(scale);
        let ip = digits_of(units / pow10(scale));
        let fp = padded_digits_of(units, scale);
        lemma_digits_of_props(units / pow10(scale));
        lemma_padded_digits_of_props(units, scale);
        lemma_all_digits_no_dots(ip);
        lemma_all_digits_no_dots(fp);
        let head = ip + seq!['.'];
        let s = dec_string_of(units, scale);
        assert(s =~= head + fp);
        // dots: one in the head, none elsewhere
        assert(num_dots(head) == 1) by {
            assert(head.drop_last() =~= ip);
            assert(head.last() == '.');
        }
        lemma_num_dots_append(head, fp);
        assert(num_dots(s) == 1);
        // units: the integer part shifted up, plus the fraction digits
        lemma_units_append_digits(head, fp);
        assert(units_of(head) == units_of(ip)) by {
            assert(head.drop_last() =~= ip);
            assert(head.last() == '.');
        }
        assert(units_of(s) == (units / pow10(scale)) * pow10(scale) + units % pow10(scale));
        assert(units == (units / pow10(scale)) * pow10(scale) + units % pow10(scale)) by {
            vstd::arithmetic::div_mod::lemma_fundamental_div_mod(
                units as int,
                pow10(scale) as int,
            );
        }
        // places: zero at the dot, one per fraction digit
        assert(places_of(head) == 0) by {
            assert(head.last() == '.');
        }
        lemma_places_append_digits(head, fp);
        // shape: starts and ends with a digit
        assert(s[0] == ip[0]);
        assert(is_digit(ip[0]));
        assert(s[s.len() - 1] == fp[fp.len() - 1]);
        assert(is_digit(fp[fp.len() - 1]));
        assert(dec_chars_ok(s));
    }
}

} // verus!
