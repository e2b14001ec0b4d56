use vstd::prelude::*;
use proc_macro2::Span;

verus! {

/// The prefix that marks a generated identifier as framework-owned.
pub const ROCKET_IDENT_PREFIX: &'static str = "__rocket_";

/// An identifier: a name together with its source-location metadata.
#[derive(Debug)]
pub struct Ident {
    pub name: String,
    pub span: Span,
}

impl Clone for Ident {
    fn clone(&self) -> (res: Self)
        ensures
            res == *self,
    {
        Ident { name: self.name.clone(), span: self.span }
    }
}

/// The characters of an identifier with a raw-identifier escape removed:
/// the name without a leading `r#`, or the name itself when it has none.
pub open spec fn unraw(s: Seq<char>) -> Seq<char> {
    if s.len() >= 2 && s[0] == 'r' && s[1] == '#' {
        s.skip(2)
    } else {
        s
    }
}

/// The decimal digit character for `d`.
pub open spec fn dec_digit(d: nat) -> char {
    if d == 0 {
        '0'
    } else if d == 1 {
        '1'
    } else if d == 2 {
        '2'
    } else if d == 3 {
        '3'
    } else if d == 4 {
        '4'
    } else if d == 5 {
        '5'
    } else if d == 6 {
        '6'
    } else if d == 7 {
        '7'
    } else if d == 8 {
        '8'
    } else {
        '9'
    }
}

/// The decimal digits of `n`, most significant first, without leading zeros.
pub open spec fn dec_digits(n: nat) -> Seq<char>
    decreases n,
{
    if n < 10 {
        seq![dec_digit(n)]
    } else {
        dec_digits(n / 10) + seq![dec_digit(n % 10)]
    }
}

fn digit_str(d: u64) -> (r: &'static str)
    requires
        d < 10,
    ensures
        r@ == seq![dec_digit(d as nat)],
{
    let r: &'static str = if d == 0 {
        "0"
    } else if d == 1 {
        "1"
    } else if d == 2 {
        "2"
    } else if d == 3 {
        "3"
    } else if d == 4 {
        "4"
    } else if d == 5 {
        "5"
    } else if d == 6 {
        "6"
    } else if d == 7 {
        "7"
    } else if d == 8 {
        "8"
    } else {
        "9"
    };
    proof {
        reveal_strlit("0");
        reveal_strlit("1");
        reveal_strlit("2");
        reveal_strlit("3");
        reveal_strlit("4");
        reveal_strlit("5");
        reveal_strlit("6");
        reveal_strlit("7");
        reveal_strlit("8");
        reveal_strlit("9");
        assert(r@ =~= seq![dec_digit(d as nat)]);
    }
    r
}

fn push_dec_digits(n: u64, out: &mut String)
    ensures
        final(out)@ == old(out)@ + dec_digits(n as nat),
    decreases n,
{
    if n < 10 {
        out.append(digit_str(n));
    } else {
        push_dec_digits(n / 10, out);
        out.append(digit_str(n % 10));
        proof {
            assert(out@ =~= old(out)@ + dec_digits(n as nat));
        }
    }
}

impl Ident {
    /// Builds an identifier from a name and source-location metadata.
    pub fn new(name: String, span: Span) -> (r: Ident)
        ensures
            r.name == name,
            r.span == span,
    {
        Ident { name, span }
    }

    /// Returns a new identifier formed by `string` followed by this
    /// identifier's name without any raw-identifier escape, keeping this
    /// identifier's source-location metadata.
    pub fn prepend(&self, string: &str) -> (r: Ident)
        ensures
            r.name@ == string@ + unraw(self.name@),
            r.span == self.span,
    {
        let len = self.name.as_str().unicode_len();
        let is_raw = len >= 2 && self.name.as_str().get_char(0) == 'r'
            && self.name.as_str().get_char(1) == '#';
        let tail: &str = if is_raw {
            self.name.as_str().substring_char(2, len)
        } else {
            self.name.as_str()
        };
        proof {
            assert(tail@ =~= unraw(self.name@));
        }
        Ident { name: String::from_str(string).concat(tail), span: self.span }
    }

    /// Returns a new identifier formed by this identifier's name followed by
    /// `string`, keeping this identifier's source-location metadata.
    pub fn append(&self, string: &str) -> (r: Ident)
        ensures
            r.name@ == self.name@ + string@,
            r.span == self.span,
    {
        Ident { name: self.name.clone().concat(string), span: self.span }
    }

    /// Returns this identifier with its source-location metadata replaced.
    pub fn with_span(self, span: Span) -> (r: Ident)
        ensures
            r.name == self.name,
            r.span == span,
    {
        Ident { name: self.name, span }
    }

    /// Returns this identifier prefixed as framework-owned.
    pub fn rocketized(&self) -> (r: Ident)
        ensures
            r.name@ == ROCKET_IDENT_PREFIX@ + unraw(self.name@),
            r.span == self.span,
    {
        self.prepend(ROCKET_IDENT_PREFIX)
    }

    /// Returns a new identifier formed by this identifier's name, `_`, and
    /// the decimal digits of `digest`, keeping this identifier's
    /// source-location metadata. The caller supplies `digest` as the hash
    /// of whatever entropy makes the result unique.
    pub fn uniqueify_with(&self, digest: u64) -> (r: Ident)
        ensures
            r.name@ == self.name@ + seq!['_'] + dec_digits(digest as nat),
            r.span == self.span,
    {
        let mut suffix = String::from_str("_");
        push_dec_digits(digest, &mut suffix);
        let r = self.append(suffix.as_str());
        proof {
            reveal_strlit("_");
            assert(r.name@ =~= self.name@ + seq!['_'] + dec_digits(digest as nat));
        }
        r
    }
}

/// How long the decimal form of `n` is: one digit below ten, more above.
pub proof fn lemma_dec_digits_len(n: nat)
    ensures
        dec_digits(n).len() >= 1,
        n >= 10 ==> dec_digits(n).len() >= 2,
    decreases n,
{
    if n >= 10 {
        lemma_dec_digits_len(n / 10);
    }
}

/// Decimal digit sequences identify their number: equal digits, equal numbers.
pub proof fn lemma_dec_digits_injective(a: nat, b: nat)
    requires
        dec_digits(a) == dec_digits(b),
    ensures
        a == b,
    decreases a,
{
    if a < 10 && b < 10 {
        assert(dec_digits(a)[0] == dec_digit(a));
        assert(dec_digits(b)[0] == dec_digit(b));
    } else if a < 10 {
        lemma_dec_digits_len(b);
        assert(dec_digits(a).len() == 1);
    } else if b < 10 {
        lemma_dec_digits_len(a);
        assert(dec_digits(b).len() == 1);
    } else {
        assert(dec_digits(a).last() == dec_digit(a % 10));
        assert(dec_digits(b).last() == dec_digit(b % 10));
        assert(a % 10 == b % 10);
        assert(dec_digits(a / 10) =~= dec_digits(a).drop_last());
        assert(dec_digits(b / 10) =~= dec_digits(b).drop_last());
        lemma_dec_digits_injective(a / 10, b / 10);
        assert(a == 10 * (a / 10) + a % 10);
        assert(b == 10 * (b / 10) + b % 10);
    }
}

/// Uniqueified names with distinct entropy digests are distinct, whatever
/// the shared base name: the digest can be read back off the suffix.
pub proof fn lemma_uniqueify_injective(name: Seq<char>, d1: nat, d2: nat)
    requires
        d1 != d2,
    ensures
        name + seq!['_'] + dec_digits(d1) != name + seq!['_'] + dec_digits(d2),
{
    let s1 = name + seq!['_'] + dec_digits(d1);
    let s2 = name + seq!['_'] + dec_digits(d2);
    if s1 == s2 {
        assert(dec_digits(d1) =~= s1.skip(name.len() as int + 1));
        assert(dec_digits(d2) =~= s2.skip(name.len() as int + 1));
        lemma_dec_digits_injective(d1, d2);
    }
}

} // verus!
