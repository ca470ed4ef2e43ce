use crate::text::{all_digits, chars_of, digit, is_digit};
use vstd::prelude::*;

verus! {

/// `c` in lower case where it is an upper-case ASCII letter, else `c` itself.
pub open spec fn lower(c: char) -> char {
    if 'A' <= c && c <= 'Z' {
        ((c as u8 + 32) as u8) as char
    } else {
        c
    }
}

/// Whether `s` spells the lower-case word `word`, the case of its letters
/// left aside.
pub open spec fn spells(s: Seq<char>, word: Seq<char>) -> bool {
    &&& s.len() == word.len()
    &&& forall|i: int| 0 <= i < s.len() ==> lower(#[trigger] s[i]) == word[i]
}

/// `s` without one leading `+` or `-`, where it has one.
pub open spec fn without_sign(s: Seq<char>) -> Seq<char> {
    if s.len() > 0 && (s[0] == '+' || s[0] == '-') {
        s.skip(1)
    } else {
        s
    }
}

/// Whether `s` is the digits of a number before any exponent: decimal
/// digits, at least one of them, with at most one `.` before, among or behind
/// them.
pub open spec fn is_mantissa(s: Seq<char>) -> bool {
    &&& exists|i: int| 0 <= i < s.len() && is_digit(#[trigger] s[i])
    &&& forall|i: int| 0 <= i < s.len() ==> is_digit(#[trigger] s[i]) || s[i] == '.'
    &&& forall|i: int, j: int|
        0 <= i < j < s.len() ==> !(#[trigger] s[i] == '.' && #[trigger] s[j] == '.')
}

/// Whether `s` is an exponent: `e` or `E`, an optional sign, and one or more
/// decimal digits.
pub open spec fn is_exponent(s: Seq<char>) -> bool {
    &&& s.len() > 0
    &&& (s[0] == 'e' || s[0] == 'E')
    &&& without_sign(s.skip(1)).len() > 0
    &&& all_digits(without_sign(s.skip(1)))
}

/// Whether `s` is a decimal number without a sign: a mantissa, and behind it
/// nothing or an exponent.
pub open spec fn is_decimal(s: Seq<char>) -> bool {
    exists|k: int|
        0 <= k <= s.len() && #[trigger] is_mantissa(s.take(k)) && (k == s.len() || is_exponent(
            s.skip(k),
        ))
}

/// Whether `s` is the text of a number as exchanges quote one and as a
/// 64-bit float is read from text: an optional sign, then `inf`, `infinity`
/// or `nan` in either case, or a decimal number. Blanks, an empty text and
/// anything else are no number.
pub open spec fn is_number(s: Seq<char>) -> bool {
    let body = without_sign(s);
    ||| spells(body, seq!['i', 'n', 'f'])
    ||| spells(body, seq!['i', 'n', 'f', 'i', 'n', 'i', 't', 'y'])
    ||| spells(body, seq!['n', 'a', 'n'])
    ||| is_decimal(body)
}

/// The text of the reading zero.
pub open spec fn zero_text() -> Seq<char> {
    seq!['0', '.', '0']
}

/// The reading that the text `s` gives: `s` itself where it is a number, and
/// zero where it is not.
pub open spec fn reading_of(s: Seq<char>) -> Seq<char> {
    if is_number(s) {
        s
    } else {
        zero_text()
    }
}

/// `c` in lower case where it is an upper-case ASCII letter.
fn to_lower(c: char) -> (r: char)
    ensures
        r == lower(c),
{
    if 'A' <= c && c <= 'Z' {
        ((c as u8 + 32) as u8) as char
    } else {
        c
    }
}

/// Whether the characters of `cs` from `from` on spell `word`.
fn spells_from(cs: &Vec<char>, from: usize, word: &Vec<char>) -> (r: bool)
    requires
        from <= cs.len(),
    ensures
        r == spells(cs@.skip(from as int), word@),
{
    let n = cs.len() - from;
    if n != word.len() {
        return false;
    }
    let ghost s = cs@.skip(from as int);
    let mut i: usize = 0;
    while i < n
        invariant
            i <= n,
            from <= cs.len(),
            n == cs.len() - from,
            n == word.len(),
            s == cs@.skip(from as int),
            forall|j: int| 0 <= j < i ==> lower(#[trigger] s[j]) == word@[j],
        decreases n - i,
    {
        assert(s[i as int] == cs@[from + i]);
        if to_lower(cs[from + i]) != word[i] {
            return false;
        }
        i += 1;
    }
    true
}

/// Whether the characters of `cs` from `from` on are a decimal number
/// without a sign.
fn decimal_from(cs: &Vec<char>, from: usize) -> (r: bool)
    requires
        from <= cs.len(),
    ensures
        r == is_decimal(cs@.skip(from as int)),
{
    let n = cs.len();
    let ghost s = cs@.skip(from as int);
    let mut i: usize = from;
    let mut digits: bool = false;
    let mut dots: usize = 0;
    while i < n && (digit(cs[i]) || cs[i] == '.')
        invariant
            from <= i <= n,
            n == cs.len(),
            s == cs@.skip(from as int),
            dots <= i - from,
            forall|j: int| 0 <= j < i - from ==> is_digit(#[trigger] s[j]) || s[j] == '.',
            digits <==> exists|j: int| 0 <= j < i - from && is_digit(#[trigger] s[j]),
            dots == 0 ==> forall|j: int| 0 <= j < i - from ==> #[trigger] s[j] != '.',
            dots == 1 ==> forall|j: int, k: int|
                0 <= j < k < i - from ==> !(#[trigger] s[j] == '.' && #[trigger] s[k] == '.'),
            dots >= 2 ==> exists|j: int, k: int|
                0 <= j < k < i - from && #[trigger] s[j] == '.' && #[trigger] s[k] == '.',
            dots >= 1 ==> exists|j: int| 0 <= j < i - from && #[trigger] s[j] == '.',
        decreases n - i,
    {
        assert(s[i - from] == cs@[i as int]);
        if cs[i] == '.' {
            proof {
                if dots >= 1 {
                    let j = choose|j: int| 0 <= j < i - from && #[trigger] s[j] == '.';
                    assert(s[j] == '.' && s[i - from] == '.');
                }
            }
            dots += 1;
        } else {
            digits = true;
        }
        i += 1;
    }
    let ghost k = i - from;
    proof {
        // Every split of `s` into a mantissa and what follows is the split at `k`.
        assert forall|m: int|
            0 <= m <= s.len() && #[trigger] is_mantissa(s.take(m)) && (m == s.len() || is_exponent(
                s.skip(m),
            )) implies m == k by {
            if m < k {
                assert(s.skip(m)[0] == s[m]);
                assert(is_digit(s[m]) || s[m] == '.');
            } else if m > k {
                assert(s.take(m)[k] == s[k]);
                assert(is_digit(s.take(m)[k]) || s.take(m)[k] == '.');
            }
        }
        assert(is_mantissa(s.take(k)) <==> (digits && dots <= 1)) by {
            let t = s.take(k);
            assert(forall|j: int| 0 <= j < k ==> t[j] == s[j]);
            if digits && dots <= 1 {
                let j = choose|j: int| 0 <= j < k && is_digit(#[trigger] s[j]);
                assert(is_digit(t[j]));
                assert(is_mantissa(t));
            }
            if is_mantissa(t) {
                let j = choose|j: int| 0 <= j < t.len() && is_digit(#[trigger] t[j]);
                assert(is_digit(s[j]));
                if dots >= 2 {
                    let (a, b) = choose|a: int, b: int|
                        0 <= a < b < k && #[trigger] s[a] == '.' && #[trigger] s[b] == '.';
                    assert(t[a] == '.' && t[b] == '.');
                }
            }
        }
    }
    if !digits || dots > 1 {
        return false;
    }
    if i == n {
        assert(s.take(k) =~= s);
        return true;
    }
    let r = exponent_from(cs, i);
    assert(s.skip(k) =~= cs@.skip(i as int));
    r
}

/// Whether the characters of `cs` from `from` on are an exponent.
fn exponent_from(cs: &Vec<char>, from: usize) -> (r: bool)
    requires
        from < cs.len(),
    ensures
        r == is_exponent(cs@.skip(from as int)),
{
    let n = cs.len();
    let ghost s = cs@.skip(from as int);
    assert(s[0] == cs@[from as int]);
    if cs[from] != 'e' && cs[from] != 'E' {
        return false;
    }
    let signed = from + 1 < n && (cs[from + 1] == '+' || cs[from + 1] == '-');
    let start: usize = if signed { from + 2 } else { from + 1 };
    let ghost d = without_sign(s.skip(1));
    proof {
        if from + 1 < n {
            assert(s.skip(1)[0] == cs@[from + 1]);
        }
        assert(d =~= cs@.skip(start as int));
    }
    if start == n {
        return false;
    }
    let mut i: usize = start;
    while i < n
        invariant
            start <= i <= n,
            start < n,
            n == cs.len(),
            s == cs@.skip(from as int),
            s.len() > 0 && (s[0] == 'e' || s[0] == 'E'),
            d == without_sign(s.skip(1)),
            d == cs@.skip(start as int),
            forall|j: int| 0 <= j < i - start ==> is_digit(#[trigger] d[j]),
        decreases n - i,
    {
        assert(d[i - start] == cs@[i as int]);
        if !digit(cs[i]) {
            return false;
        }
        i += 1;
    }
    true
}

/// Whether `text` is the text of a number.
pub fn number(text: &str) -> (r: bool)
    ensures
        r == is_number(text@),
{
    let cs = chars_of(text);
    let n = cs.len();
    let start: usize = if n > 0 && (cs[0] == '+' || cs[0] == '-') { 1 } else { 0 };
    assert(without_sign(text@) =~= cs@.skip(start as int));
    let inf: Vec<char> = vec!['i', 'n', 'f'];
    let infinity: Vec<char> = vec!['i', 'n', 'f', 'i', 'n', 'i', 't', 'y'];
    let nan: Vec<char> = vec!['n', 'a', 'n'];
    assert(inf@ =~= seq!['i', 'n', 'f']);
    assert(infinity@ =~= seq!['i', 'n', 'f', 'i', 'n', 'i', 't', 'y']);
    assert(nan@ =~= seq!['n', 'a', 'n']);
    spells_from(&cs, start, &inf) || spells_from(&cs, start, &infinity) || spells_from(
        &cs,
        start,
        &nan,
    ) || decimal_from(&cs, start)
}

/// One price or volume, held as the text in which the exchange quoted it, so
/// that nothing of it is lost. The text is always that of a number.
#[derive(Debug)]
pub struct Reading {
    text: String,
}

impl View for Reading {
    type V = Seq<char>;

    closed spec fn view(&self) -> Seq<char> {
        self.text@
    }
}

impl Reading {
    #[verifier::type_invariant]
    spec fn numeric(self) -> bool {
        is_number(self.text@)
    }

    /// The reading zero.
    pub fn zero() -> (r: Reading)
        ensures
            r@ == zero_text(),
    {
        let text = "0.0".to_owned();
        proof {
            reveal_strlit("0.0");
            assert(text@ =~= zero_text());
            lemma_zero_is_number();
        }
        Reading { text }
    }

    /// The reading that `text` gives: `text` as it stands where it is a
    /// number, zero where it is not. A quote that cannot be read never
    /// fails the message that carries it.
    pub fn parse(text: &str) -> (r: Reading)
        ensures
            r@ == reading_of(text@),
    {
        if number(text) {
            Reading { text: text.to_owned() }
        } else {
            Reading::zero()
        }
    }

    /// The text of the reading, which is that of a number.
    pub fn as_str(&self) -> (r: &str)
        ensures
            r@ == self@,
            is_number(r@),
    {
        proof {
            use_type_invariant(self);
        }
        self.text.as_str()
    }
}

impl Clone for Reading {
    /// A second reading of the same text.
    fn clone(&self) -> (r: Reading)
        ensures
            r@ == self@,
    {
        proof {
            use_type_invariant(self);
        }
        Reading { text: self.text.clone() }
    }
}

/// Zero is a number.
pub proof fn lemma_zero_is_number()
    ensures
        is_number(zero_text()),
{
    let z = zero_text();
    assert(without_sign(z) == z);
    assert(z.take(3) =~= z);
    assert(is_digit(z[0]));
    assert(is_mantissa(z.take(3)));
}

/// Whatever the text, what is read from it is a number, and a text that is
/// no number reads as zero.
pub proof fn lemma_reading_is_number(s: Seq<char>)
    ensures
        is_number(reading_of(s)),
        !is_number(s) ==> reading_of(s) == zero_text(),
        is_number(s) ==> reading_of(s) == s,
{
    lemma_zero_is_number();
}

} // verus!
