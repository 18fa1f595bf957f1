use vstd::prelude::*;
use vstd::string::StrSliceExecFns;

verus! {

/// The ticket grammar: an upper-case letter, one or more upper-case letters
/// or ASCII digits, a dash, and one or more decimal digits.
pub const TICKET_PATTERN: &'static str = "[A-Z][A-Z0-9]+-\\d+";

/// The characters of Unicode's `Decimal_Number` category, the class that
/// `\d` stands for in the ticket pattern.
pub uninterp spec fn unicode_decimal_digit(c: char) -> bool;

/// Unicode's `White_Space` property.
pub uninterp spec fn unicode_white_space(c: char) -> bool;

pub open spec fn is_key_start(c: char) -> bool {
    'A' <= c && c <= 'Z'
}

pub open spec fn is_key_char(c: char) -> bool {
    is_key_start(c) || ('0' <= c && c <= '9')
}

/// A decimal digit: the ASCII digits, and beyond ASCII whatever Unicode
/// counts as a decimal number (within ASCII it counts only `0` to `9`).
pub open spec fn is_ticket_digit(c: char) -> bool {
    ('0' <= c && c <= '9') || ((c as u32) > 0x7f && unicode_decimal_digit(c))
}

/// `s[i..j]` is a ticket with its dash at `k`, and no digit follows it.
pub open spec fn ticket_split(s: Seq<char>, i: int, k: int, j: int) -> bool {
    &&& 0 <= i
    &&& i + 1 < k
    &&& k + 1 < j
    &&& j <= s.len()
    &&& is_key_start(s[i])
    &&& forall|x: int| i < x < k ==> is_key_char(#[trigger] s[x])
    &&& s[k] == '-'
    &&& forall|x: int| k < x < j ==> is_ticket_digit(#[trigger] s[x])
    &&& (j == s.len() || !is_ticket_digit(s[j]))
}

/// The longest ticket that starts at `i` ends at `j`.
pub open spec fn ticket_at(s: Seq<char>, i: int, j: int) -> bool {
    exists|k: int| ticket_split(s, i, k, j)
}

pub open spec fn has_ticket(s: Seq<char>) -> bool {
    exists|i: int, j: int| ticket_at(s, i, j)
}

/// `s[i..j]` is the ticket that a left-to-right scan finds first.
pub open spec fn first_ticket_at(s: Seq<char>, i: int, j: int) -> bool {
    &&& ticket_at(s, i, j)
    &&& forall|i2: int, j2: int| i2 < i ==> !ticket_at(s, i2, j2)
}

/// White space: within ASCII the space and the controls from tab to
/// carriage return, beyond it whatever Unicode gives the `White_Space`
/// property.
pub open spec fn is_white_space_char(c: char) -> bool {
    c == ' ' || ('\t' <= c && c <= '\r') || ((c as u32) > 0x7f && unicode_white_space(c))
}

/// What may trail a ticket and is removed with it.
pub open spec fn is_separator(c: char) -> bool {
    is_white_space_char(c) || c == ':'
}

/// `t` without its leading separators.
pub open spec fn strip_separators(t: Seq<char>) -> Seq<char>
    decreases t.len(),
{
    if t.len() > 0 && is_separator(t[0]) {
        strip_separators(t.drop_first())
    } else {
        t
    }
}

/// `cleaned` and `ticket` are what ticket inference makes of `s`: without a
/// ticket in `s` the message stays as it is; otherwise the first ticket is
/// taken, and removed from the message together with the separators after it.
pub open spec fn ticket_inferred(s: Seq<char>, cleaned: Seq<char>, ticket: Option<Seq<char>>) -> bool {
    match ticket {
        None => !has_ticket(s) && cleaned == s,
        Some(t) => exists|i: int| #[trigger] ticket_taken_at(s, i, t, cleaned),
    }
}

/// `t` is the first ticket of `s`, found at `i`, and `cleaned` is `s`
/// without it and the separators after it.
pub open spec fn ticket_taken_at(s: Seq<char>, i: int, t: Seq<char>, cleaned: Seq<char>) -> bool {
    &&& first_ticket_at(s, i, i + t.len())
    &&& t == s.subrange(i, i + t.len())
    &&& cleaned == s.subrange(0, i) + strip_separators(s.subrange(i + t.len(), s.len() as int))
}

pub open spec fn opt_view(o: Option<String>) -> Option<Seq<char>> {
    match o {
        Some(s) => Some(s@),
        None => None,
    }
}

/// A ticket that starts at a given place has one end.
pub proof fn lemma_ticket_end_unique(s: Seq<char>, i: int, j1: int, j2: int)
    requires
        ticket_at(s, i, j1),
        ticket_at(s, i, j2),
    ensures
        j1 == j2,
{
    let k1 = choose|k: int| ticket_split(s, i, k, j1);
    let k2 = choose|k: int| ticket_split(s, i, k, j2);
    if k1 < k2 {
        assert(is_key_char(s[k1]));
    } else if k2 < k1 {
        assert(is_key_char(s[k2]));
    }
    if j1 < j2 {
        assert(is_ticket_digit(s[j1]));
    } else if j2 < j1 {
        assert(is_ticket_digit(s[j2]));
    }
}

/// Ticket inference takes the first ticket of the message, and removes it
/// and the separators after it.
pub proof fn lemma_first_ticket_taken(
    s: Seq<char>,
    i: int,
    j: int,
    cleaned: Seq<char>,
    ticket: Option<Seq<char>>,
)
    requires
        first_ticket_at(s, i, j),
        ticket_inferred(s, cleaned, ticket),
    ensures
        ticket == Some(s.subrange(i, j)),
        cleaned == s.subrange(0, i) + strip_separators(s.subrange(j, s.len() as int)),
{
    match ticket {
        None => {
            assert(ticket_at(s, i, j));
        },
        Some(t) => {
            let i2 = choose|i2: int| #[trigger] ticket_taken_at(s, i2, t, cleaned);
            let j2 = i2 + t.len();
            if i2 < i {
                assert(!ticket_at(s, i2, j2));
            } else if i < i2 {
                assert(!ticket_at(s, i, j));
            }
            lemma_ticket_end_unique(s, i, j, j2);
        },
    }
}

/// Ticket inference has one outcome for each message.
pub proof fn lemma_inference_deterministic(
    s: Seq<char>,
    cleaned1: Seq<char>,
    ticket1: Option<Seq<char>>,
    cleaned2: Seq<char>,
    ticket2: Option<Seq<char>>,
)
    requires
        ticket_inferred(s, cleaned1, ticket1),
        ticket_inferred(s, cleaned2, ticket2),
    ensures
        cleaned1 == cleaned2,
        ticket1 == ticket2,
{
    if let Some(t) = ticket1 {
        let i = choose|i: int| #[trigger] ticket_taken_at(s, i, t, cleaned1);
        lemma_first_ticket_taken(s, i, i + t.len(), cleaned1, ticket1);
        lemma_first_ticket_taken(s, i, i + t.len(), cleaned2, ticket2);
    } else if let Some(t) = ticket2 {
        let i = choose|i: int| #[trigger] ticket_taken_at(s, i, t, cleaned2);
        assert(ticket_at(s, i, i + t.len()));
    }
}

/// Relies on regex::Regex::new and regex::Regex::find: the leftmost-first
/// match of the ticket pattern, handed back as the text before it, the match
/// and the text after it. The pattern is valid, so `new` does not fail.
#[verifier::external_body]
fn find_ticket(pattern: &str, hay: &str) -> (r: Option<(String, String, String)>)
    requires
        pattern@ == TICKET_PATTERN@,
    ensures
        r matches None ==> !has_ticket(hay@),
        r matches Some((b, m, a)) ==> {
            &&& b@ + m@ + a@ == hay@
            &&& first_ticket_at(hay@, b@.len() as int, (b@.len() + m@.len()) as int)
        },
        r matches Some((b, m, a)) ==> (a@.len() > 0 && (a@[0] as u32) > 0x7f
            ==> !unicode_decimal_digit(a@[0])),
{
    let re = regex::Regex::new(pattern).unwrap();
    re.find(hay).map(
        |m| (hay[..m.start()].to_string(), m.as_str().to_string(), hay[m.end()..].to_string()),
    )
}

/// Relies on char::is_whitespace: whether `c` has Unicode's `White_Space`
/// property, which within ASCII only the space and tab to carriage return have.
#[verifier::external_body]
fn is_white_space(c: char) -> (r: bool)
    ensures
        r == (c == ' ' || ('\t' <= c && c <= '\r') || ((c as u32) > 0x7f && unicode_white_space(c))),
{
    c.is_whitespace()
}

/// Removes the separators at the start of `t`.
pub fn strip_leading_separators(t: &str) -> (r: &str)
    ensures
        r@ == strip_separators(t@),
{
    let n = t.unicode_len();
    let mut i: usize = 0;
    let mut scanning = true;
    assert(t@.subrange(0, n as int) =~= t@);
    while scanning && i < n
        invariant
            n == t@.len(),
            i <= n,
            strip_separators(t@) == strip_separators(t@.subrange(i as int, n as int)),
            !scanning ==> i < n && !is_separator(t@[i as int]),
        decreases n - i + if scanning { 1int } else { 0int },
    {
        let c = t.get_char(i);
        if c == ':' || is_white_space(c) {
            assert(t@.subrange(i as int, n as int).drop_first() =~= t@.subrange(i + 1, n as int));
            i = i + 1;
        } else {
            scanning = false;
        }
    }
    let r = t.substring_char(i, n);
    assert(i == n ==> r@ =~= Seq::<char>::empty());
    r
}

/// Splits a ticket off the message: without a ticket in it the message comes
/// back unchanged, with none; otherwise the first ticket comes back, and the
/// message without it and the separators that follow it.
pub fn infer_ticket_name(commit_message: String) -> (r: (String, Option<String>))
    ensures
        ticket_inferred(commit_message@, r.0@, opt_view(r.1)),
{
    match find_ticket(TICKET_PATTERN, commit_message.as_str()) {
        None => (commit_message, None),
        Some((before, ticket, after)) => {
            let rest = strip_leading_separators(after.as_str());
            let ghost s = commit_message@;
            let ghost i = before@.len() as int;
            let ghost j = i + ticket@.len();
            assert(ticket@ =~= s.subrange(i, j));
            assert(after@ =~= s.subrange(j, s.len() as int));
            assert(before@ =~= s.subrange(0, i));
            let mut cleaned = before;
            cleaned.append(rest);
            assert(cleaned@ == s.subrange(0, i) + strip_separators(s.subrange(j, s.len() as int)));
            assert(ticket_taken_at(s, i, Some(ticket@)->0, cleaned@));
            (cleaned, Some(ticket))
        },
    }
}

} // verus!
