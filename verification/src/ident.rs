//! Identity requests: the user/group a daemon should run as.
//!
//! An identity is requested either by numeric id or by symbolic name and is
//! resolved against the system identity database only when privileges are
//! actually dropped.  A request string consists of a user identity optionally
//! followed by `:` and a group identity; a value that reads as a decimal
//! number denotes an id, anything else a name.

use vstd::prelude::*;

use crate::text::{dec_bytes, dec_chars, lemma_dec_bytes_ascii};

verus! {

/// A single requested identity: a numeric id or a symbolic name.
#[derive(Clone, Debug, PartialEq, Eq)]
pub enum Identity {
    Id(u32),
    Name(String),
}

/// A requested user together with an optional explicit group.
///
/// When no group is given, the resolved user's primary group is used.
#[derive(Clone, Debug, PartialEq, Eq)]
pub struct IdentityRequest {
    pub user: Identity,
    pub group: Option<Identity>,
}

/// True for the ten ASCII decimal digit characters.
pub open spec fn is_digit(c: char) -> bool {
    48 <= c as u32 <= 57
}

/// The numeric value of a decimal digit character.
pub open spec fn digit_val(c: char) -> nat {
    (c as u32 - 48) as nat
}

/// A non-empty sequence consisting of decimal digits only.
pub open spec fn is_digit_seq(s: Seq<char>) -> bool {
    s.len() > 0 && forall|i: int| 0 <= i < s.len() ==> is_digit(#[trigger] s[i])
}

/// The value denoted by a sequence of decimal digits, most significant first.
pub open spec fn dec_val(s: Seq<char>) -> nat
    decreases s.len(),
{
    if s.len() == 0 {
        0
    } else {
        dec_val(s.drop_last()) * 10 + digit_val(s.last())
    }
}

/// The digits of a candidate number: everything after an optional leading `+`.
pub open spec fn numeric_body(s: Seq<char>) -> Seq<char> {
    if s.len() > 0 && s[0] == '+' {
        s.drop_first()
    } else {
        s
    }
}

/// Whether a string reads as a decimal number that fits in 32 bits,
/// mirroring what `u32` accepts: an optional `+`, then digits only.
pub open spec fn reads_as_number(s: Seq<char>) -> bool {
    is_digit_seq(numeric_body(s)) && dec_val(numeric_body(s)) <= u32::MAX
}

/// The number a string reads as, when `reads_as_number` holds of it.
pub open spec fn number_of(s: Seq<char>) -> u32 {
    dec_val(numeric_body(s)) as u32
}

/// How a single identity string is interpreted: a number denotes an id,
/// anything else the literal name.
pub open spec fn parsed_identity(s: Seq<char>, r: Identity) -> bool {
    if reads_as_number(s) {
        r == Identity::Id(number_of(s))
    } else {
        r is Name && r->Name_0@ == s
    }
}

/// The position of the first `:` in `s`, or `s.len()` if there is none.
pub open spec fn first_colon(s: Seq<char>) -> int
    decreases s.len(),
{
    if s.len() == 0 {
        0
    } else if s[0] == ':' {
        0
    } else {
        1 + first_colon(s.drop_first())
    }
}

/// The user half of a request string: everything before the first `:`.
pub open spec fn user_part(s: Seq<char>) -> Seq<char> {
    s.take(first_colon(s))
}

/// The group half of a request string: everything after the first `:`,
/// or nothing when the string holds no `:`.
pub open spec fn group_part(s: Seq<char>) -> Option<Seq<char>> {
    if first_colon(s) < s.len() {
        Some(s.skip(first_colon(s) + 1))
    } else {
        None
    }
}

/// How a whole request string is interpreted: the part before the first `:`
/// names the user, the rest (if any) the group.
pub open spec fn parsed_request(s: Seq<char>, r: IdentityRequest) -> bool {
    &&& parsed_identity(user_part(s), r.user)
    &&& match group_part(s) {
        Some(g) => r.group is Some && parsed_identity(g, r.group->0),
        None => r.group is None,
    }
}

proof fn lemma_first_colon_bounds(s: Seq<char>)
    ensures
        0 <= first_colon(s) <= s.len(),
        forall|i: int| 0 <= i < first_colon(s) ==> #[trigger] s[i] != ':',
        first_colon(s) < s.len() ==> s[first_colon(s)] == ':',
    decreases s.len(),
{
    if s.len() > 0 && s[0] != ':' {
        lemma_first_colon_bounds(s.drop_first());
        assert forall|i: int| 0 <= i < first_colon(s) implies #[trigger] s[i] != ':' by {
            if i > 0 {
                assert(s.drop_first()[i - 1] == s[i]);
            }
        }
        if first_colon(s) < s.len() {
            assert(s.drop_first()[first_colon(s) - 1] == s[first_colon(s)]);
        }
    }
}

/// Extending a digit string on the right can only grow its value.
proof fn lemma_dec_val_grows(s: Seq<char>, t: Seq<char>)
    requires
        s.is_prefix_of(t),
    ensures
        dec_val(s) <= dec_val(t),
    decreases t.len(),
{
    if s.len() < t.len() {
        assert(s.is_prefix_of(t.drop_last()));
        lemma_dec_val_grows(s, t.drop_last());
    } else {
        assert(s =~= t);
    }
}

/// Parses a whole string as a decimal `u32`, as `str::parse::<u32>` would:
/// an optional leading `+`, then at least one digit, and a value that fits.
fn parse_number(s: &str) -> (r: Option<u32>)
    ensures
        r is Some <==> reads_as_number(s@),
        r is Some ==> r->0 == number_of(s@),
{
    let len: usize = s.unicode_len();
    let start: usize = if len > 0 && s.get_char(0) == '+' {
        1
    } else {
        0
    };
    let ghost body = numeric_body(s@);
    proof {
        assert(body =~= s@.subrange(start as int, len as int));
    }
    if start >= len {
        return None;
    }
    let mut acc: u64 = 0;
    let mut i: usize = start;
    while i < len
        invariant
            start <= i <= len,
            start < len,
            len == s@.len(),
            body == numeric_body(s@),
            body =~= s@.subrange(start as int, len as int),
            is_digit_seq(body.take(i - start)) || i == start,
            forall|j: int| start <= j < i ==> is_digit(#[trigger] s@[j]),
            acc == dec_val(body.take(i - start)),
            acc <= u32::MAX,
        decreases len - i,
    {
        let c = s.get_char(i);
        let code: u32 = c as u32;
        if code < 48 || code > 57 {
            proof {
                assert(body.len() == len - start);
                assert(body[i - start] == s@[i as int]);
                assert(!is_digit(body[i - start]));
                assert(!is_digit_seq(body));
                assert(!reads_as_number(s@));
            }
            return None;
        }
        let d: u64 = (code - 48) as u64;
        let next: u64 = acc * 10 + d;
        proof {
            assert(body.take(i + 1 - start).drop_last() =~= body.take(i - start));
            assert(body.take(i + 1 - start).last() == s@[i as int]);
        }
        if next > 0xffff_ffff {
            proof {
                assert(dec_val(body.take(i + 1 - start)) == next);
                assert(body.take(i + 1 - start).is_prefix_of(body));
                lemma_dec_val_grows(body.take(i + 1 - start), body);
                assert(dec_val(body) > u32::MAX);
                assert(!reads_as_number(s@));
            }
            return None;
        }
        acc = next;
        i = i + 1;
    }
    proof {
        assert(body.take(len - start) =~= body);
    }
    Some(acc as u32)
}

/// Parses a single identity string: a decimal number denotes an id,
/// anything else is taken verbatim as a name.
pub fn parse_identity(s: &str) -> (r: Identity)
    ensures
        parsed_identity(s@, r),
{
    match parse_number(s) {
        Some(v) => Identity::Id(v),
        None => Identity::Name(s.to_owned()),
    }
}

/// Parses a request string `user[:group]` into its two identities.
///
/// The part before the first `:` names the user; everything after it, the
/// group.  Without a `:`, no explicit group is requested and the resolved
/// user's primary group applies.
pub fn parse_request(s: &str) -> (r: IdentityRequest)
    ensures
        parsed_request(s@, r),
{
    let len: usize = s.unicode_len();
    let mut colon: usize = len;
    let mut i: usize = 0;
    while i < len
        invariant
            0 <= i <= len,
            len == s@.len(),
            colon <= len,
            colon == len ==> forall|j: int| 0 <= j < i ==> #[trigger] s@[j] != ':',
            colon < len ==> s@[colon as int] == ':' && forall|j: int|
                0 <= j < colon ==> #[trigger] s@[j] != ':',
        decreases len - i,
    {
        if colon == len && s.get_char(i) == ':' {
            colon = i;
        }
        i = i + 1;
    }
    proof {
        lemma_first_colon_bounds(s@);
    }
    if colon < len {
        proof {
            if first_colon(s@) < colon as int {
                assert(s@[first_colon(s@)] == ':');
                assert(s@[first_colon(s@)] != ':');
            }
            if (colon as int) < first_colon(s@) {
                assert(s@[colon as int] != ':');
            }
            assert(first_colon(s@) == colon as int);
        }
        let user_str = s.substring_char(0, colon);
        let group_str = s.substring_char(colon + 1, len);
        proof {
            assert(user_str@ =~= user_part(s@));
            assert(group_str@ =~= group_part(s@)->0);
        }
        let user = parse_identity(user_str);
        let group = parse_identity(group_str);
        IdentityRequest { user, group: Some(group) }
    } else {
        proof {
            if first_colon(s@) < s@.len() {
                assert(s@[first_colon(s@)] == ':');
                assert(s@[first_colon(s@)] != ':');
            }
            assert(user_part(s@) =~= s@);
        }
        let user = parse_identity(s);
        IdentityRequest { user, group: None }
    }
}

/// A string made of digits only is always read as a numeric id, never as a
/// name, even if a user of that exact name exists; the one exception is a
/// digit string whose value does not fit in 32 bits.
pub proof fn lemma_digits_mean_id(s: Seq<char>, r: Identity)
    requires
        is_digit_seq(s),
        dec_val(s) <= u32::MAX,
        parsed_identity(s, r),
    ensures
        r == Identity::Id(dec_val(s) as u32),
{
    assert(s[0] != '+');
    assert(numeric_body(s) == s);
}

/// Whether two parse results carry the same interpretation: the same id, or
/// names that read the same.
pub open spec fn same_identity(a: &Identity, b: &Identity) -> bool {
    match (a, b) {
        (Identity::Id(x), Identity::Id(y)) => x == y,
        (Identity::Name(x), Identity::Name(y)) => x@ == y@,
        _ => false,
    }
}

/// Parsing `"<user>:<group>"` splits exactly at the colon: the user half is
/// interpreted precisely as parsing `<user>` alone would, and the group half
/// precisely as parsing `<group>` alone would.
pub proof fn lemma_pair_splits(u: Seq<char>, g: Seq<char>)
    requires
        !u.contains(':'),
    ensures
        user_part(u + seq![':'] + g) == u,
        group_part(u + seq![':'] + g) == Some(g),
{
    let s = u + seq![':'] + g;
    assert(s[u.len() as int] == ':');
    lemma_first_colon_bounds(s);
    assert(first_colon(s) == u.len()) by {
        if first_colon(s) < u.len() {
            assert(s[first_colon(s)] == u[first_colon(s)]);
            assert(u.contains(u[first_colon(s)]));
        }
    }
    assert(user_part(s) =~= u);
    assert(group_part(s)->0 =~= g);
}

proof fn lemma_decimal_roundtrip_nat(n: nat)
    ensures
        is_digit_seq(dec_chars(n)),
        dec_val(dec_chars(n)) == n,
    decreases n,
{
    lemma_dec_bytes_ascii(n);
    assert forall|i: int| 0 <= i < dec_chars(n).len() implies is_digit(#[trigger] dec_chars(n)[i]) by {
        assert(dec_chars(n)[i] == dec_bytes(n)[i] as char);
        assert(48 <= dec_bytes(n)[i] <= 57);
    }
    if n < 10 {
        assert(dec_chars(n) =~= seq![((48 + n) as u8) as char]);
        assert(dec_val(dec_chars(n).drop_last()) == 0);
    } else {
        lemma_decimal_roundtrip_nat(n / 10);
        let prefix = dec_chars(n / 10);
        let last = ((48 + n % 10) as u8) as char;
        assert(dec_chars(n) =~= prefix.push(last));
        assert(dec_chars(n).drop_last() =~= prefix);
        assert(dec_val(dec_chars(n)) == dec_val(prefix) * 10 + digit_val(last));
    }
}

/// A decimal rendering always reads back as the number it came from: the
/// digit characters of `n` form a digit string whose value is `n`.  In
/// particular, a pidfile's content, stripped of its trailing newline, reads
/// back as the recorded process id.
pub proof fn lemma_decimal_roundtrip(n: u32)
    ensures
        is_digit_seq(dec_chars(n as nat)),
        dec_val(dec_chars(n as nat)) == n,
        reads_as_number(dec_chars(n as nat)),
        number_of(dec_chars(n as nat)) == n,
{
    lemma_decimal_roundtrip_nat(n as nat);
    assert(numeric_body(dec_chars(n as nat)) == dec_chars(n as nat));
}

/// For every identity string of the form `"<user>:<group>"` (the user half
/// free of colons), the request parsed from the whole string carries the
/// same user as parsing `<user>` alone and the same group as parsing
/// `<group>` alone; resolution then looks each of the two up independently.
pub proof fn lemma_request_of_pair(
    u: Seq<char>,
    g: Seq<char>,
    r: IdentityRequest,
    ru: Identity,
    rg: Identity,
)
    requires
        !u.contains(':'),
        parsed_request(u + seq![':'] + g, r),
        parsed_identity(u, ru),
        parsed_identity(g, rg),
    ensures
        same_identity(&r.user, &ru),
        r.group is Some && same_identity(&r.group->0, &rg),
{
    lemma_pair_splits(u, g);
}

} // verus!
