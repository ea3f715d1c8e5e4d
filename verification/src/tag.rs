//! Command identifiers ("tags") and the generator that issues them.

use vstd::prelude::*;
use vstd::string::*;

verus! {

/// The number of identifiers a generator can tell apart before it repeats.
pub const TAG_SPACE: u64 = 10_000;

/// The identifier that a client attaches to a command, and that the server
/// echoes in the response that completes it.
#[derive(Debug)]
pub struct RequestId(pub String);

impl Clone for RequestId {
    fn clone(&self) -> (copy: Self)
        ensures
            copy@ == self@,
    {
        RequestId(self.0.clone())
    }
}

impl View for RequestId {
    type V = Seq<char>;

    open spec fn view(&self) -> Seq<char> {
        self.0@
    }
}

impl PartialEq for RequestId {
    fn eq(&self, other: &RequestId) -> (same: bool) {
        self.0 == other.0
    }
}

impl vstd::std_specs::cmp::PartialEqSpecImpl for RequestId {
    open spec fn obeys_eq_spec() -> bool {
        true
    }

    open spec fn eq_spec(&self, other: &RequestId) -> bool {
        self.0@ == other.0@
    }
}

impl Eq for RequestId {}

/// The decimal digit character of `d`, for `d` below ten.
pub open spec fn digit_char(d: nat) -> char {
    if d == 0 {
        '0'
    } else if d == 1 {
        '1'
    } else if d == 2 {
        '2'
    } else if d == 3 {
        '3'
    } else if d == 4 {
        '4'
    } else if d == 5 {
        '5'
    } else if d == 6 {
        '6'
    } else if d == 7 {
        '7'
    } else if d == 8 {
        '8'
    } else {
        '9'
    }
}

/// The text of the `n`-th identifier that a fresh generator issues: the
/// letter `A`, then `n` modulo ten thousand as four decimal digits.
pub open spec fn tag_text(n: nat) -> Seq<char> {
    residue_text(n % 10_000)
}

/// The letter `A` followed by the four decimal digits of `v`, for `v` below
/// ten thousand.
pub open spec fn residue_text(v: nat) -> Seq<char> {
    seq![
        'A',
        digit_char(v / 1000),
        digit_char((v / 100) % 10),
        digit_char((v / 10) % 10),
        digit_char(v % 10),
    ]
}

/// Distinct digits have distinct characters.
pub proof fn lemma_digit_char_injective(a: nat, b: nat)
    requires
        a < 10,
        b < 10,
        digit_char(a) == digit_char(b),
    ensures
        a == b,
{
}

/// Two identifiers have the same text exactly when their ordinals agree
/// modulo ten thousand.
pub proof fn lemma_tag_text_injective(i: nat, j: nat)
    ensures
        tag_text(i) == tag_text(j) <==> i % 10_000 == j % 10_000,
{
    let v = i % 10_000;
    let w = j % 10_000;
    if tag_text(i) == tag_text(j) {
        assert(residue_text(v)[1] == residue_text(w)[1]);
        assert(residue_text(v)[2] == residue_text(w)[2]);
        assert(residue_text(v)[3] == residue_text(w)[3]);
        assert(residue_text(v)[4] == residue_text(w)[4]);
        lemma_digit_char_injective(v / 1000, w / 1000);
        lemma_digit_char_injective((v / 100) % 10, (w / 100) % 10);
        lemma_digit_char_injective((v / 10) % 10, (w / 10) % 10);
        lemma_digit_char_injective(v % 10, w % 10);
    }
}

/// Any two of ten thousand consecutive identifiers differ.
pub proof fn lemma_consecutive_tags_distinct(i: nat, j: nat)
    requires
        i < j < i + 10_000,
    ensures
        tag_text(i) != tag_text(j),
{
    lemma_tag_text_injective(i, j);
}

/// After ten thousand further identifiers the same text comes again.
pub proof fn lemma_tag_text_wraps(n: nat)
    ensures
        tag_text(n + 10_000) == tag_text(n),
{
    assert((n + 10_000) % 10_000 == n % 10_000) by {
        vstd::arithmetic::div_mod::lemma_mod_add_multiples_vanish(n as int, 10_000);
    }
}

/// The one-character string of a decimal digit.
fn digit_str(d: u64) -> (s: &'static str)
    requires
        d < 10,
    ensures
        s@ == seq![digit_char(d as nat)],
{
    proof {
        reveal_strlit("0");
        reveal_strlit("1");
        reveal_strlit("2");
        reveal_strlit("3");
        reveal_strlit("4");
        reveal_strlit("5");
        reveal_strlit("6");
        reveal_strlit("7");
        reveal_strlit("8");
        reveal_strlit("9");
    }
    let s = if d == 0 {
        "0"
    } else if d == 1 {
        "1"
    } else if d == 2 {
        "2"
    } else if d == 3 {
        "3"
    } else if d == 4 {
        "4"
    } else if d == 5 {
        "5"
    } else if d == 6 {
        "6"
    } else if d == 7 {
        "7"
    } else if d == 8 {
        "8"
    } else {
        "9"
    };
    assert(s@ =~= seq![digit_char(d as nat)]);
    s
}

/// Issues command identifiers in a fixed cyclic order.
///
/// The generator remembers how many identifiers it has issued; it stores the
/// count modulo [`TAG_SPACE`], which is all the text of an identifier depends
/// on, so that no number of calls can overflow it.
pub struct IdGenerator {
    next: u64,
    issued: Ghost<nat>,
}

impl IdGenerator {
    #[verifier::type_invariant]
    spec fn well_formed(self) -> bool {
        self.next == self.issued@ % 10_000
    }

    /// How many identifiers this generator has issued so far.
    pub closed spec fn issued(&self) -> nat {
        self.issued@
    }

    /// A generator that has issued nothing yet.
    pub fn new() -> (fresh: Self)
        ensures
            fresh.issued() == 0,
    {
        Self { next: 0, issued: Ghost(0) }
    }

    /// Issues the next identifier.  The result is always `Some`.
    pub fn next(&mut self) -> (id: Option<RequestId>)
        ensures
            final(self).issued() == old(self).issued() + 1,
            id matches Some(tag) && tag@ == tag_text(final(self).issued()),
    {
        proof {
            use_type_invariant(&*self);
        }
        let v: u64 = if self.next + 1 == TAG_SPACE {
            0
        } else {
            self.next + 1
        };
        let ghost count = self.issued@ + 1;
        assert(v == count % 10_000);
        *self = IdGenerator { next: v, issued: Ghost(count) };
        proof {
            reveal_strlit("A");
        }
        let mut text = String::from_str("A");
        text.append(digit_str(v / 1000));
        text.append(digit_str((v / 100) % 10));
        text.append(digit_str((v / 10) % 10));
        text.append(digit_str(v % 10));
        assert(text@ =~= tag_text(count));
        Some(RequestId(text))
    }
}

impl Default for IdGenerator {
    fn default() -> (fresh: Self)
        ensures
            fresh.issued() == 0,
    {
        Self::new()
    }
}

} // verus!
