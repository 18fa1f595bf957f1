use vstd::prelude::*;
use crate::commit_type::ConventionalCommitType;
use crate::ticket::{
    has_ticket, infer_ticket_name, lemma_inference_deterministic, opt_view, ticket_inferred,
    first_ticket_at, strip_separators, lemma_first_ticket_taken,
};

verus! {

/// The commit line `<token>: <message>`, followed by ` (<ticket>)` when
/// there is a ticket.
pub open spec fn commit_line(token: Seq<char>, msg: Seq<char>, ticket: Option<Seq<char>>) -> Seq<char> {
    let head = token + seq![':', ' '] + msg;
    match ticket {
        Some(t) => head + seq![' ', '('] + t + seq![')'],
        None => head,
    }
}

/// The type a commit takes: the one given, else the one inferred.
pub open spec fn resolved_type(commit_type: Option<ConventionalCommitType>) -> ConventionalCommitType {
    match commit_type {
        Some(c) => c,
        None => ConventionalCommitType::Feature,
    }
}

/// `out` is the commit line for `msg` with the given type and ticket. A
/// given ticket is used as it is and the message is left alone; without one,
/// the ticket and the message are those that ticket inference makes of `msg`.
pub open spec fn formats_to(
    msg: Seq<char>,
    commit_type: Option<ConventionalCommitType>,
    ticket: Option<Seq<char>>,
    out: Seq<char>,
) -> bool {
    let token = resolved_type(commit_type).token();
    match ticket {
        Some(t) => out == commit_line(token, msg, Some(t)),
        None => exists|m: Seq<char>, t: Option<Seq<char>>|
            #[trigger] ticket_inferred(msg, m, t) && out == commit_line(token, m, t),
    }
}

/// The type that a message implies when none is given: always a feature.
pub fn infer_commit_type(_commit_message: &str) -> (r: ConventionalCommitType)
    ensures
        r == ConventionalCommitType::Feature,
{
    ConventionalCommitType::Feature
}

/// Builds the commit line for a message, an optional type and an optional
/// ticket.
pub fn format_commit_message(
    message: String,
    commit_type: Option<ConventionalCommitType>,
    ticket: Option<String>,
) -> (r: String)
    ensures
        formats_to(message@, commit_type, opt_view(ticket), r@),
{
    let ghost msg = message@;
    let ghost given = opt_view(ticket);
    let commit_type = match commit_type {
        Some(c_type) => c_type,
        None => infer_commit_type(message.as_str()),
    };
    let (message, ticket) = match ticket {
        Some(ticket) => (message, Some(ticket)),
        None => infer_ticket_name(message),
    };
    let mut line = String::from_str(commit_type.as_str());
    proof { reveal_strlit(": "); }
    line.append(": ");
    line.append(message.as_str());
    match ticket {
        Some(t) => {
            line.append(" (");
            line.append(t.as_str());
            line.append(")");
        },
        None => {},
    }
    proof {
        reveal_strlit(" (");
        reveal_strlit(")");
        assert(": "@ =~= seq![':', ' ']);
        assert(" ("@ =~= seq![' ', '(']);
        assert(")"@ =~= seq![')']);
        let token = commit_type.token();
        assert(line@ =~= commit_line(token, message@, opt_view(ticket)));
        if given is None {
            assert(ticket_inferred(msg, message@, opt_view(ticket)));
        }
    }
    line
}

/// A message without a ticket in it, and given no ticket, comes out as it
/// is after the type token, with no ticket appended.
pub proof fn lemma_no_ticket_unchanged(
    msg: Seq<char>,
    commit_type: Option<ConventionalCommitType>,
    out: Seq<char>,
)
    requires
        !has_ticket(msg),
        formats_to(msg, commit_type, None, out),
    ensures
        out == resolved_type(commit_type).token() + seq![':', ' '] + msg,
{
}

/// Given no ticket, the first ticket in the message is the one appended,
/// and the message loses it and the separators that follow it.
pub proof fn lemma_ticket_extracted(
    msg: Seq<char>,
    commit_type: Option<ConventionalCommitType>,
    i: int,
    j: int,
    out: Seq<char>,
)
    requires
        first_ticket_at(msg, i, j),
        formats_to(msg, commit_type, None, out),
    ensures
        out == commit_line(
            resolved_type(commit_type).token(),
            msg.subrange(0, i) + strip_separators(msg.subrange(j, msg.len() as int)),
            Some(msg.subrange(i, j)),
        ),
{
    let (m, t) = choose|m: Seq<char>, t: Option<Seq<char>>|
        #[trigger] ticket_inferred(msg, m, t) && out == commit_line(
            resolved_type(commit_type).token(),
            m,
            t,
        );
    lemma_first_ticket_taken(msg, i, j, m, t);
}

/// A ticket given alongside the message wins over any ticket in it, and
/// the message is used as it is.
pub proof fn lemma_given_ticket_wins(
    msg: Seq<char>,
    commit_type: Option<ConventionalCommitType>,
    ticket: Seq<char>,
    out: Seq<char>,
)
    requires
        formats_to(msg, commit_type, Some(ticket), out),
    ensures
        out == resolved_type(commit_type).token() + seq![':', ' '] + msg + seq![' ', '('] + ticket
            + seq![')'],
{
}

/// Formatting is a function of the message, the type and the ticket: two
/// results for the same three are the same.
pub proof fn lemma_format_deterministic(
    msg: Seq<char>,
    commit_type: Option<ConventionalCommitType>,
    ticket: Option<Seq<char>>,
    out1: Seq<char>,
    out2: Seq<char>,
)
    requires
        formats_to(msg, commit_type, ticket, out1),
        formats_to(msg, commit_type, ticket, out2),
    ensures
        out1 == out2,
{
    if ticket is None {
        let token = resolved_type(commit_type).token();
        let (m1, t1) = choose|m: Seq<char>, t: Option<Seq<char>>|
            #[trigger] ticket_inferred(msg, m, t) && out1 == commit_line(token, m, t);
        let (m2, t2) = choose|m: Seq<char>, t: Option<Seq<char>>|
            #[trigger] ticket_inferred(msg, m, t) && out2 == commit_line(token, m, t);
        lemma_inference_deterministic(msg, m1, t1, m2, t2);
    }
}

} // verus!
