use rand::Rng;
use vstd::prelude::*;

verus! {

/// An RGB color carried inside an embed, as the platform encodes it.
#[derive(Debug, Clone, Copy, PartialEq, Eq, Structural)]
pub struct Color {
    pub r: u8,
    pub g: u8,
    pub b: u8,
}

/// The color used by every error-path embed.
pub fn red_color() -> (c: Color)
    ensures
        c == (Color { r: 255, g: 0, b: 0 }),
{
    Color { r: 255, g: 0, b: 0 }
}

/// Relies on rand for 128 random bits and on uuid's hyphenated `Display`
/// form, which renders any value as exactly 36 characters.
#[verifier::external_body]
pub fn gen_random_uuid() -> (r: String)
    ensures
        r@.len() == 36,
{
    uuid::Uuid::from_u128(rand::rng().random::<u128>()).to_string()
}

/// Relies on rand's thread-local generator: three independently drawn bytes.
#[verifier::external_body]
pub fn gen_random_color() -> Color {
    let mut rng = rand::rng();
    Color { r: rng.random(), g: rng.random(), b: rng.random() }
}

/// Relies on rand's `random_range`: a value drawn from `[0, n)`; the range
/// is non-empty, so the call cannot panic.
#[verifier::external_body]
pub(crate) fn random_index_below(n: usize) -> (r: usize)
    requires
        n > 0,
    ensures
        r < n,
{
    rand::rng().random_range(0..n)
}

/// Relies on String::push: appends exactly the one character.
#[verifier::external_body]
pub(crate) fn push_char(s: &mut String, c: char)
    ensures
        final(s)@ == old(s)@.push(c),
{
    s.push(c);
}

/// Relies on String::from_utf8: ASCII bytes decode to the characters with
/// the same code points, so the conversion cannot fail.
#[verifier::external_body]
pub(crate) fn ascii_to_string(bytes: Vec<u8>) -> (r: String)
    requires
        forall|i: int| 0 <= i < bytes@.len() ==> bytes@[i] < 128,
    ensures
        r@ == bytes@.map_values(|b: u8| b as char),
{
    String::from_utf8(bytes).unwrap()
}

/// The character for one decimal digit.
pub open spec fn digit_char(d: nat) -> char {
    ((48 + d) as u8) as char
}

/// The decimal rendering of a natural number, most significant digit first.
pub open spec fn dec_str(n: nat) -> Seq<char>
    decreases n,
{
    if n < 10 {
        seq![digit_char(n)]
    } else {
        dec_str(n / 10).push(digit_char(n % 10))
    }
}

/// The decimal rendering of an integer: a minus sign before the digits of
/// the magnitude when it is negative.
pub open spec fn dec_str_signed(i: int) -> Seq<char> {
    if i < 0 {
        seq!['-'] + dec_str((-i) as nat)
    } else {
        dec_str(i as nat)
    }
}

/// Renders `n` in decimal.
pub fn u64_to_string(n: u64) -> (r: String)
    ensures
        r@ == dec_str(n as nat),
{
    let mut digits: Vec<u8> = Vec::new();
    let mut m: u64 = n;
    loop
        invariant_except_break
            m > 0 ==> dec_str(n as nat) =~= dec_str(m as nat) + digits@.map_values(
                |b: u8| b as char,
            ),
            m == 0 ==> n == 0 && digits@.len() == 0,
        invariant
            forall|i: int| 0 <= i < digits@.len() ==> 48 <= #[trigger] digits@[i] < 58,
        ensures
            digits@.map_values(|b: u8| b as char) =~= dec_str(n as nat),
        decreases m,
    {
        let ghost prev = digits@;
        let d: u8 = (m % 10) as u8 + 48;
        digits.insert(0, d);
        proof {
            assert(digits@.map_values(|b: u8| b as char) =~= seq![d as char] + prev.map_values(
                |b: u8| b as char,
            ));
        }
        if m < 10 {
            proof {
                if m == 0 {
                    assert(dec_str(n as nat) =~= digits@.map_values(|b: u8| b as char));
                } else {
                    assert(dec_str(m as nat) == seq![digit_char(m as nat)]);
                    assert(dec_str(n as nat) =~= digits@.map_values(|b: u8| b as char));
                }
            }
            break;
        }
        proof {
            assert(dec_str(m as nat) == dec_str(m as nat / 10).push(digit_char(m as nat % 10)));
            assert(dec_str(m as nat / 10) + (seq![d as char] + prev.map_values(|b: u8| b as char))
                =~= dec_str(m as nat) + prev.map_values(|b: u8| b as char));
        }
        m = m / 10;
    }
    ascii_to_string(digits)
}

/// Renders `i` in decimal, with a leading minus sign when it is negative.
pub fn i64_to_string(i: i64) -> (r: String)
    ensures
        r@ == dec_str_signed(i as int),
{
    if i >= 0 {
        u64_to_string(i as u64)
    } else {
        let magnitude: u64 = if i == i64::MIN {
            9223372036854775808u64
        } else {
            (-i) as u64
        };
        let mut out = String::new();
        push_char(&mut out, '-');
        let digits = u64_to_string(magnitude);
        let out = out.concat(digits.as_str());
        proof {
            assert(out@ =~= dec_str_signed(i as int));
        }
        out
    }
}

/// Whether `s` is one or more decimal digits and nothing else.
pub open spec fn is_dec_digits(s: Seq<char>) -> bool {
    s.len() > 0 && forall|i: int| 0 <= i < s.len() ==> '0' <= #[trigger] s[i] <= '9'
}

/// The numeric value of a digit string, most significant digit first.
pub open spec fn dec_val(s: Seq<char>) -> nat
    decreases s.len(),
{
    if s.len() == 0 {
        0
    } else {
        dec_val(s.drop_last()) * 10 + ((s.last() as int - 48) as nat)
    }
}

proof fn lemma_dec_val_prefix_le(s: Seq<char>, i: int)
    requires
        0 <= i <= s.len(),
    ensures
        dec_val(s.take(i)) <= dec_val(s),
    decreases s.len() - i,
{
    if i < s.len() {
        assert(s.take(i + 1).drop_last() =~= s.take(i));
        assert(dec_val(s.take(i)) <= dec_val(s.take(i + 1)));
        lemma_dec_val_prefix_le(s, i + 1);
        assert(s.take(s.len() as int) =~= s);
    } else {
        assert(s.take(i) =~= s);
    }
}

/// Reads a decimal integer. Returns its value when `s` consists of one or
/// more decimal digits whose value fits in a `u64`, and nothing otherwise.
pub fn parse_u64(s: &str) -> (r: Option<u64>)
    ensures
        match r {
            Some(v) => is_dec_digits(s@) && dec_val(s@) == v,
            None => !is_dec_digits(s@) || dec_val(s@) > u64::MAX,
        },
{
    let n = s.unicode_len();
    if n == 0 {
        return None;
    }
    let mut acc: u64 = 0;
    let mut i: usize = 0;
    while i < n
        invariant
            0 <= i <= n,
            n == s@.len(),
            forall|j: int| 0 <= j < i ==> '0' <= #[trigger] s@[j] <= '9',
            acc == dec_val(s@.take(i as int)),
        decreases n - i,
    {
        let c = s.get_char(i);
        if c < '0' || c > '9' {
            return None;
        }
        let d: u64 = (c as u32 - 48) as u64;
        proof {
            assert(s@.take(i + 1).drop_last() =~= s@.take(i as int));
        }
        if acc > (u64::MAX - d) / 10 {
            proof {
                lemma_dec_val_prefix_le(s@, i + 1);
            }
            return None;
        }
        acc = acc * 10 + d;
        i = i + 1;
    }
    proof {
        assert(s@.take(n as int) =~= s@);
    }
    Some(acc)
}

/// Whether two string slices hold the same characters.
pub fn str_eq(a: &str, b: &str) -> (r: bool)
    ensures
        r == (a@ == b@),
{
    a.to_owned().eq(&b.to_owned())
}

/// What `char::to_uppercase` yields for one character.
pub uninterp spec fn upper_of(c: char) -> Seq<char>;

/// Relies on char::to_uppercase: the result depends on the character alone.
#[verifier::external_body]
fn uppercase_char(c: char) -> (r: String)
    ensures
        r@ == upper_of(c),
{
    c.to_uppercase().collect()
}

/// A key with each underscore turned into a space and the first character
/// of each part uppercased: `at_start` says whether the next character
/// begins a part.
pub open spec fn capitalized(s: Seq<char>, at_start: bool) -> Seq<char>
    decreases s.len(),
{
    if s.len() == 0 {
        Seq::empty()
    } else if s[0] == '_' {
        seq![' '] + capitalized(s.skip(1), true)
    } else if at_start {
        upper_of(s[0]) + capitalized(s.skip(1), false)
    } else {
        seq![s[0]] + capitalized(s.skip(1), false)
    }
}

/// Turns a snake_case key into capitalized words.
pub fn capitalize_key(key: &str) -> (r: String)
    ensures
        r@ == capitalized(key@, true),
{
    let n = key.unicode_len();
    let mut out = String::new();
    let mut at_start: bool = true;
    let mut i: usize = 0;
    proof {
        assert(key@.skip(0) =~= key@);
        assert(out@ + capitalized(key@.skip(0), true) =~= capitalized(key@, true));
    }
    while i < n
        invariant
            i <= n,
            n == key@.len(),
            out@ + capitalized(key@.skip(i as int), at_start) =~= capitalized(key@, true),
        decreases n - i,
    {
        let ghost rest = key@.skip(i as int);
        let ghost prev = out@;
        proof {
            assert(rest.skip(1) =~= key@.skip(i + 1));
            assert(rest[0] == key@[i as int]);
        }
        let c = key.get_char(i);
        if c == '_' {
            out.append(" ");
            proof {
                reveal_strlit(" ");
                assert(" "@ =~= seq![' ']);
                assert(out@ + capitalized(key@.skip(i + 1), true) =~= prev + capitalized(
                    rest,
                    at_start,
                ));
            }
            at_start = true;
        } else if at_start {
            let u = uppercase_char(c);
            out.append(u.as_str());
            proof {
                assert(out@ + capitalized(key@.skip(i + 1), false) =~= prev + capitalized(
                    rest,
                    true,
                ));
            }
            at_start = false;
        } else {
            push_char(&mut out, c);
            proof {
                assert(out@ =~= prev + seq![c]);
                assert(out@ + capitalized(key@.skip(i + 1), false) =~= prev + capitalized(
                    rest,
                    false,
                ));
            }
        }
        i = i + 1;
    }
    proof {
        assert(key@.skip(n as int) =~= Seq::<char>::empty());
        assert(out@ + capitalized(key@.skip(n as int), at_start) =~= out@);
    }
    out
}

/// One value of the unordered key/value bag that the auth backend returns
/// as a player's extra data. Only strings and integers are reported;
/// anything else is carried as `Other` and skipped by the formatter.
#[derive(Debug)]
pub enum ExtraValue {
    Str(String),
    Int(i64),
    UInt(u64),
    Other,
}

/// One key/value pair of a player's extra data.
#[derive(Debug)]
pub struct ExtraEntry {
    pub key: String,
    pub value: ExtraValue,
}

/// How one extra-data value is rendered, or nothing for the kinds the
/// formatter skips.
pub open spec fn rendered_extra_value(v: ExtraValue) -> Option<Seq<char>> {
    match v {
        ExtraValue::Str(s) => Some(s@),
        ExtraValue::Int(i) => Some(dec_str_signed(i as int)),
        ExtraValue::UInt(u) => Some(dec_str(u as nat)),
        ExtraValue::Other => None,
    }
}

/// The formatted line for one extra-data entry, empty for a skipped one.
pub open spec fn extra_line(e: ExtraEntry) -> Seq<char> {
    match rendered_extra_value(e.value) {
        Some(r) => capitalized(e.key@, true) + ": "@ + r + "\n"@,
        None => Seq::empty(),
    }
}

/// The formatted lines of a whole extra-data bag, in its order.
pub open spec fn extra_lines(s: Seq<ExtraEntry>) -> Seq<char>
    decreases s.len(),
{
    if s.len() == 0 {
        Seq::empty()
    } else {
        extra_line(s[0]) + extra_lines(s.skip(1))
    }
}

/// Formats a player's extra data, one `Key: value` line per reported
/// entry, or a fixed notice when nothing is reported.
pub fn format_extra_data(entries: &Vec<ExtraEntry>) -> (r: String)
    ensures
        extra_lines(entries@).len() > 0 ==> r@ == extra_lines(entries@),
        extra_lines(entries@).len() == 0 ==> r@ == "No extra data found."@,
{
    let mut out = String::new();
    let n = entries.len();
    let mut i: usize = 0;
    proof {
        assert(entries@.skip(0) =~= entries@);
        assert(out@ + extra_lines(entries@.skip(0)) =~= extra_lines(entries@));
    }
    while i < n
        invariant
            i <= n,
            n == entries@.len(),
            out@ + extra_lines(entries@.skip(i as int)) =~= extra_lines(entries@),
        decreases n - i,
    {
        let ghost rest = entries@.skip(i as int);
        let ghost prev = out@;
        proof {
            assert(rest.skip(1) =~= entries@.skip(i + 1));
            assert(rest[0] == entries@[i as int]);
        }
        match &entries[i].value {
            ExtraValue::Str(s) => {
                let line = capitalize_key(entries[i].key.as_str());
                out.append(line.as_str());
                out.append(": ");
                out.append(s.as_str());
                out.append("\n");
            },
            ExtraValue::Int(v) => {
                let line = capitalize_key(entries[i].key.as_str());
                out.append(line.as_str());
                out.append(": ");
                let num = i64_to_string(*v);
                out.append(num.as_str());
                out.append("\n");
            },
            ExtraValue::UInt(v) => {
                let line = capitalize_key(entries[i].key.as_str());
                out.append(line.as_str());
                out.append(": ");
                let num = u64_to_string(*v);
                out.append(num.as_str());
                out.append("\n");
            },
            ExtraValue::Other => {},
        }
        proof {
            assert(out@ + extra_lines(entries@.skip(i + 1)) =~= prev + extra_lines(rest));
        }
        i = i + 1;
    }
    proof {
        assert(entries@.skip(n as int) =~= Seq::<ExtraEntry>::empty());
        assert(out@ + extra_lines(entries@.skip(n as int)) =~= out@);
    }
    if out.as_str().is_empty() {
        "No extra data found.".to_owned()
    } else {
        out
    }
}

} // verus!
