use vstd::prelude::*;

verus! {

/// The kind of change a commit records.
#[derive(Clone, Copy, Debug, PartialEq, Eq, Structural)]
pub enum ConventionalCommitType {
    Fix,
    Feature,
    Breaking,
    Chore,
    ContinuousIntegration,
    Docs,
    Refactor,
    Test,
}

impl ConventionalCommitType {
    /// The short token that opens a commit line of this type.
    pub open spec fn token(self) -> Seq<char> {
        match self {
            ConventionalCommitType::Fix => seq!['f', 'i', 'x'],
            ConventionalCommitType::Feature => seq!['f', 'e', 'a', 't'],
            ConventionalCommitType::Breaking => seq!['b', 'r', 'e', 'a', 'k', 'i', 'n', 'g'],
            ConventionalCommitType::Chore => seq!['c', 'h', 'o', 'r', 'e'],
            ConventionalCommitType::ContinuousIntegration => seq!['c', 'i'],
            ConventionalCommitType::Docs => seq!['d', 'o', 'c', 's'],
            ConventionalCommitType::Refactor => seq!['r', 'e', 'f', 'a', 'c', 't', 'o', 'r'],
            ConventionalCommitType::Test => seq!['t', 'e', 's', 't'],
        }
    }

    /// The type that a token names. The feature token is not among the
    /// keywords: every string that is not one of them names a feature.
    pub open spec fn from_token(s: Seq<char>) -> ConventionalCommitType {
        if s == seq!['f', 'i', 'x'] {
            ConventionalCommitType::Fix
        } else if s == seq!['b', 'r', 'e', 'a', 'k', 'i', 'n', 'g'] {
            ConventionalCommitType::Breaking
        } else if s == seq!['c', 'h', 'o', 'r', 'e'] {
            ConventionalCommitType::Chore
        } else if s == seq!['c', 'i'] {
            ConventionalCommitType::ContinuousIntegration
        } else if s == seq!['d', 'o', 'c', 's'] {
            ConventionalCommitType::Docs
        } else if s == seq!['r', 'e', 'f', 'a', 'c', 't', 'o', 'r'] {
            ConventionalCommitType::Refactor
        } else if s == seq!['t', 'e', 's', 't'] {
            ConventionalCommitType::Test
        } else {
            ConventionalCommitType::Feature
        }
    }

    /// Reading the token of a type gives the type back, `Feature` included.
    pub proof fn lemma_token_round_trip(self)
        ensures
            ConventionalCommitType::from_token(self.token()) == self,
    {
    }

    pub fn as_str(&self) -> (r: &'static str)
        ensures
            r@ == self.token(),
    {
        match self {
            ConventionalCommitType::Fix => {
                proof { reveal_strlit("fix"); }
                "fix"
            },
            ConventionalCommitType::Feature => {
                proof { reveal_strlit("feat"); }
                "feat"
            },
            ConventionalCommitType::Breaking => {
                proof { reveal_strlit("breaking"); }
                "breaking"
            },
            ConventionalCommitType::Chore => {
                proof { reveal_strlit("chore"); }
                "chore"
            },
            ConventionalCommitType::ContinuousIntegration => {
                proof { reveal_strlit("ci"); }
                "ci"
            },
            ConventionalCommitType::Docs => {
                proof { reveal_strlit("docs"); }
                "docs"
            },
            ConventionalCommitType::Refactor => {
                proof { reveal_strlit("refactor"); }
                "refactor"
            },
            ConventionalCommitType::Test => {
                proof { reveal_strlit("test"); }
                "test"
            },
        }
    }

    /// Reads a type token. This never fails: a string that is not one of
    /// the keywords gives `Feature`.
    pub fn parse(s: &str) -> (r: ConventionalCommitType)
        ensures
            r == ConventionalCommitType::from_token(s@),
    {
        proof {
            reveal_strlit("fix");
            assert("fix"@ =~= seq!['f', 'i', 'x']);
            reveal_strlit("breaking");
            assert("breaking"@ =~= seq!['b', 'r', 'e', 'a', 'k', 'i', 'n', 'g']);
            reveal_strlit("chore");
            assert("chore"@ =~= seq!['c', 'h', 'o', 'r', 'e']);
            reveal_strlit("ci");
            assert("ci"@ =~= seq!['c', 'i']);
            reveal_strlit("docs");
            assert("docs"@ =~= seq!['d', 'o', 'c', 's']);
            reveal_strlit("refactor");
            assert("refactor"@ =~= seq!['r', 'e', 'f', 'a', 'c', 't', 'o', 'r']);
            reveal_strlit("test");
            assert("test"@ =~= seq!['t', 'e', 's', 't']);
        }
        if same_chars(s, "fix") {
            ConventionalCommitType::Fix
        } else if same_chars(s, "breaking") {
            ConventionalCommitType::Breaking
        } else if same_chars(s, "chore") {
            ConventionalCommitType::Chore
        } else if same_chars(s, "ci") {
            ConventionalCommitType::ContinuousIntegration
        } else if same_chars(s, "docs") {
            ConventionalCommitType::Docs
        } else if same_chars(s, "refactor") {
            ConventionalCommitType::Refactor
        } else if same_chars(s, "test") {
            ConventionalCommitType::Test
        } else {
            ConventionalCommitType::Feature
        }
    }
}

impl std::str::FromStr for ConventionalCommitType {
    type Err = String;

    /// Reads a type token; never fails, with `Feature` for a string that
    /// is not one of the keywords.
    fn from_str(s: &str) -> (r: Result<ConventionalCommitType, String>)
        ensures
            r == Ok::<ConventionalCommitType, String>(ConventionalCommitType::from_token(s@)),
    {
        Ok(ConventionalCommitType::parse(s))
    }
}

/// Whether two strings hold the same characters.
fn same_chars(a: &str, b: &str) -> (r: bool)
    ensures
        r == (a@ == b@),
{
    let n = a.unicode_len();
    if n != b.unicode_len() {
        return false;
    }
    let mut i: usize = 0;
    while i < n
        invariant
            n == a@.len(),
            n == b@.len(),
            i <= n,
            forall|k: int| 0 <= k < i ==> a@[k] == b@[k],
        decreases n - i,
    {
        if a.get_char(i) != b.get_char(i) {
            return false;
        }
        i = i + 1;
    }
    assert(a@ =~= b@);
    true
}

} // verus!
