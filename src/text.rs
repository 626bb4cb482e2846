//! Character-level building blocks: decimal numerals, escaping and path joining.
use vstd::prelude::*;

verus! {

/// The character of a decimal digit.
pub open spec fn digit_char(d: nat) -> char {
    if d == 0 {
        '0'
    } else if d == 1 {
        '1'
    } else if d == 2 {
        '2'
    } else if d == 3 {
        '3'
    } else if d == 4 {
        '4'
    } else if d == 5 {
        '5'
    } else if d == 6 {
        '6'
    } else if d == 7 {
        '7'
    } else if d == 8 {
        '8'
    } else {
        '9'
    }
}

pub open spec fn is_digit(c: char) -> bool {
    '0' <= c && c <= '9'
}

/// The decimal numeral of `n`, without leading zeros.
pub open spec fn decimal(n: nat) -> Seq<char>
    decreases n,
{
    if n < 10 {
        seq![digit_char(n)]
    } else {
        decimal(n / 10).push(digit_char(n % 10))
    }
}

proof fn lemma_digit_char(d: nat)
    requires
        d < 10,
    ensures
        is_digit(digit_char(d)),
        forall|e: nat| e < 10 && digit_char(e) == digit_char(d) ==> e == d,
{
}

/// Every character of a numeral is a digit.
pub proof fn lemma_decimal_digits(n: nat)
    ensures
        forall|i: int| 0 <= i < decimal(n).len() ==> is_digit(#[trigger] decimal(n)[i]),
        decimal(n).len() >= 1,
        decimal(n).len() == 1 <==> n < 10,
    decreases n,
{
    lemma_digit_char(n % 10);
    if n >= 10 {
        lemma_decimal_digits(n / 10);
        assert forall|i: int| 0 <= i < decimal(n).len() implies is_digit(#[trigger] decimal(n)[i]) by {
            if i < decimal(n / 10).len() {
                assert(decimal(n)[i] == decimal(n / 10)[i]);
            }
        }
    } else {
        lemma_digit_char(n);
    }
}

/// Distinct numbers have distinct numerals.
pub proof fn lemma_decimal_injective(a: nat, b: nat)
    requires
        decimal(a) == decimal(b),
    ensures
        a == b,
    decreases a,
{
    lemma_decimal_digits(a);
    lemma_decimal_digits(b);
    let la = decimal(a).len();
    assert(decimal(a)[la - 1] == digit_char(a % 10));
    assert(decimal(b)[la - 1] == digit_char(b % 10));
    lemma_digit_char(a % 10);
    assert(a % 10 == b % 10);
    if a >= 10 {
        assert(decimal(a / 10) =~= decimal(a).drop_last());
        assert(decimal(b / 10) =~= decimal(b).drop_last());
        lemma_decimal_injective(a / 10, b / 10);
    }
}

fn digit_str(d: u64) -> (r: &'static str)
    requires
        d < 10,
    ensures
        r@ == seq![digit_char(d as nat)],
{
    if d == 0 {
        proof { reveal_strlit("0"); }
        "0"
    } else if d == 1 {
        proof { reveal_strlit("1"); }
        "1"
    } else if d == 2 {
        proof { reveal_strlit("2"); }
        "2"
    } else if d == 3 {
        proof { reveal_strlit("3"); }
        "3"
    } else if d == 4 {
        proof { reveal_strlit("4"); }
        "4"
    } else if d == 5 {
        proof { reveal_strlit("5"); }
        "5"
    } else if d == 6 {
        proof { reveal_strlit("6"); }
        "6"
    } else if d == 7 {
        proof { reveal_strlit("7"); }
        "7"
    } else if d == 8 {
        proof { reveal_strlit("8"); }
        "8"
    } else {
        proof { reveal_strlit("9"); }
        "9"
    }
}

/// Writes `n` in decimal.
pub fn decimal_string(n: u64) -> (r: String)
    ensures
        r@ == decimal(n as nat),
    decreases n,
{
    if n < 10 {
        String::from_str(digit_str(n))
    } else {
        let mut s = decimal_string(n / 10);
        s.append(digit_str(n % 10));
        s
    }
}

/// `c` as it stands in an escaped text: preceded by `esc` when it is one of `specials`.
pub open spec fn escape_piece(c: char, specials: Seq<char>, esc: char) -> Seq<char> {
    if specials.contains(c) {
        seq![esc, c]
    } else {
        seq![c]
    }
}

/// `s` with each character of `specials` preceded by `esc`.
pub open spec fn escaped(s: Seq<char>, specials: Seq<char>, esc: char) -> Seq<char>
    decreases s.len(),
{
    if s.len() == 0 {
        seq![]
    } else {
        escape_piece(s[0], specials, esc) + escaped(s.skip(1), specials, esc)
    }
}

/// How a reader takes an escaped text back: `esc` makes the next character literal.
pub open spec fn unescaped(t: Seq<char>, esc: char) -> Seq<char>
    decreases t.len(),
{
    if t.len() == 0 {
        seq![]
    } else if t[0] == esc && t.len() >= 2 {
        seq![t[1]] + unescaped(t.skip(2), esc)
    } else {
        seq![t[0]] + unescaped(t.skip(1), esc)
    }
}

pub proof fn lemma_escaped_concat(a: Seq<char>, b: Seq<char>, specials: Seq<char>, esc: char)
    ensures
        escaped(a + b, specials, esc) == escaped(a, specials, esc) + escaped(b, specials, esc),
    decreases a.len(),
{
    if a.len() == 0 {
        assert(a + b =~= b);
        assert(escaped(a, specials, esc) =~= seq![]);
        assert(escaped(a + b, specials, esc) =~= escaped(a, specials, esc) + escaped(b, specials, esc));
    } else {
        assert((a + b).skip(1) =~= a.skip(1) + b);
        assert((a + b)[0] == a[0]);
        lemma_escaped_concat(a.skip(1), b, specials, esc);
        assert(escaped(a + b, specials, esc) =~= escaped(a, specials, esc) + escaped(b, specials, esc));
    }
}

/// Reading an escaped text back gives the text it was made from, provided that the escape
/// character is itself escaped.
pub proof fn lemma_unescape_escaped(s: Seq<char>, specials: Seq<char>, esc: char)
    requires
        specials.contains(esc),
    ensures
        unescaped(escaped(s, specials, esc), esc) == s,
    decreases s.len(),
{
    if s.len() == 0 {
        assert(escaped(s, specials, esc) =~= seq![]);
        assert(s =~= seq![]);
    } else {
        let rest = escaped(s.skip(1), specials, esc);
        let t = escaped(s, specials, esc);
        lemma_unescape_escaped(s.skip(1), specials, esc);
        if specials.contains(s[0]) {
            assert(t =~= seq![esc, s[0]] + rest);
            assert(t.skip(2) =~= rest);
        } else {
            assert(t =~= seq![s[0]] + rest);
            assert(t.skip(1) =~= rest);
        }
        assert(unescaped(t, esc) =~= seq![s[0]] + s.skip(1));
        assert(s =~= seq![s[0]] + s.skip(1));
    }
}

/// Whether `c` occurs in `s`.
pub fn contains_char(s: &str, c: char) -> (r: bool)
    ensures
        r == s@.contains(c),
{
    let n = s.unicode_len();
    let mut i: usize = 0;
    while i < n
        invariant
            n == s@.len(),
            i <= n,
            forall|j: int| 0 <= j < i ==> s@[j] != c,
        decreases n - i,
    {
        if s.get_char(i) == c {
            return true;
        }
        i = i + 1;
    }
    false
}

/// Whether the two texts hold the same characters.
pub fn same_text(a: &str, b: &str) -> (r: bool)
    ensures
        r == (a@ == b@),
{
    let n = a.unicode_len();
    if n != b.unicode_len() {
        return false;
    }
    let mut i: usize = 0;
    while i < n
        invariant
            n == a@.len(),
            n == b@.len(),
            i <= n,
            forall|j: int| 0 <= j < i ==> a@[j] == b@[j],
        decreases n - i,
    {
        if a.get_char(i) != b.get_char(i) {
            return false;
        }
        i = i + 1;
    }
    assert(a@ =~= b@);
    true
}

/// `s` with each character found in `specials` preceded by `esc`.
pub fn escape(s: &str, specials: &str, esc: &str) -> (r: String)
    requires
        esc@.len() == 1,
    ensures
        r@ == escaped(s@, specials@, esc@[0]),
{
    let n = s.unicode_len();
    let mut r = String::new();
    let mut i: usize = 0;
    while i < n
        invariant
            n == s@.len(),
            i <= n,
            esc@.len() == 1,
            r@ == escaped(s@.take(i as int), specials@, esc@[0]),
        decreases n - i,
    {
        let c = s.get_char(i);
        let piece = s.substring_char(i, i + 1);
        proof {
            let e = esc@[0];
            assert(s@.take(i + 1) =~= s@.take(i as int) + seq![c]);
            lemma_escaped_concat(s@.take(i as int), seq![c], specials@, e);
            assert(seq![c].skip(1) =~= Seq::<char>::empty());
            assert(escaped(Seq::<char>::empty(), specials@, e) =~= seq![]);
            assert(escaped(seq![c], specials@, e) =~= escape_piece(c, specials@, e));
            assert(piece@ =~= seq![c]);
        }
        if contains_char(specials, c) {
            r.append(esc);
        }
        r.append(piece);
        proof {
            assert(r@ =~= escaped(s@.take(i + 1), specials@, esc@[0]));
        }
        i = i + 1;
    }
    assert(s@.take(n as int) =~= s@);
    r
}

pub open spec fn is_separator(c: char) -> bool {
    c == '/' || c == '\\'
}

/// `name` placed under the directory `root`: a `/` goes between them unless
/// `root` is empty or already ends in a separator.
pub open spec fn join_path(root: Seq<char>, name: Seq<char>) -> Seq<char> {
    if root.len() == 0 || is_separator(root.last()) {
        root + name
    } else {
        root + seq!['/'] + name
    }
}

/// The path of `name` under the directory `root`.
pub fn join(root: &str, name: &str) -> (r: String)
    ensures
        r@ == join_path(root@, name@),
{
    let n = root.unicode_len();
    let mut r = String::from_str(root);
    if n > 0 {
        let last = root.get_char(n - 1);
        if last != '/' && last != '\\' {
            proof { reveal_strlit("/"); }
            r.append("/");
        }
    }
    r.append(name);
    r
}

} // verus!
