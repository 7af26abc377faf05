//! Content validation for the convention file: the content is valid iff,
//! after trimming leading whitespace (space, tab, newline, carriage
//! return), it starts with the exact header line marker `# AGENTS`.

use vstd::prelude::*;

verus! {

/// Upper bound on the number of characters the validator is willing to
/// process; longer content is refused before validation is attempted.
pub const MAX_CONTENT_LEN: usize = 10_000_000;

/// The whitespace characters that may precede the header.
pub open spec fn is_ws_char(c: char) -> bool {
    c == ' ' || c == '\t' || c == '\n' || c == '\r'
}

/// Number of leading whitespace characters of `s`.
pub open spec fn leading_ws_count(s: Seq<char>) -> nat
    decreases s.len(),
{
    if s.len() == 0 {
        0
    } else if is_ws_char(s[0]) {
        1 + leading_ws_count(s.drop_first())
    } else {
        0
    }
}

/// `s` with its leading whitespace removed.
pub open spec fn trim_start_spec(s: Seq<char>) -> Seq<char> {
    s.skip(leading_ws_count(s) as int)
}

/// The required header line marker.
pub open spec fn header_marker() -> Seq<char> {
    "# AGENTS"@
}

/// Content is valid iff, after trimming leading whitespace, it starts
/// with the header marker.
pub open spec fn is_valid_spec(s: Seq<char>) -> bool {
    header_marker().is_prefix_of(trim_start_spec(s))
}

/// `leading_ws_count` counts a whitespace prefix and stops at the first
/// non-whitespace character.
pub proof fn lemma_leading_ws_count(s: Seq<char>)
    ensures
        leading_ws_count(s) <= s.len(),
        forall|j: int| 0 <= j < leading_ws_count(s) ==> is_ws_char(s[j]),
        leading_ws_count(s) < s.len() ==> !is_ws_char(s[leading_ws_count(s) as int]),
    decreases s.len(),
{
    if s.len() == 0 {
    } else if is_ws_char(s[0]) {
        lemma_leading_ws_count(s.drop_first());
        assert forall|j: int| 0 <= j < leading_ws_count(s) implies is_ws_char(s[j]) by {
            if j > 0 {
                assert(s.drop_first()[j - 1] == s[j]);
            }
        }
    } else {
    }
}

/// Any index with a whitespace prefix before it and a non-whitespace
/// character (or the end) at it is the leading whitespace count.
pub proof fn lemma_leading_ws_count_unique(s: Seq<char>, i: int)
    requires
        0 <= i <= s.len(),
        forall|j: int| 0 <= j < i ==> is_ws_char(s[j]),
        i < s.len() ==> !is_ws_char(s[i]),
    ensures
        i == leading_ws_count(s),
    decreases s.len(),
{
    if s.len() == 0 {
    } else if is_ws_char(s[0]) {
        assert(i != 0);
        assert forall|j: int| 0 <= j < i - 1 implies is_ws_char(s.drop_first()[j]) by {
            assert(s.drop_first()[j] == s[j + 1]);
        }
        lemma_leading_ws_count_unique(s.drop_first(), i - 1);
    } else {
        assert(i == 0);
    }
}

/// Validity is the header marker standing right after the leading run of
/// whitespace: for any index `i` that sits at the end of a whitespace
/// prefix and before a non-whitespace character (or the end), the
/// content is valid iff the header marker starts at `i`.
pub proof fn lemma_valid_iff_header_after_ws(s: Seq<char>, i: int)
    requires
        0 <= i <= s.len(),
        forall|j: int| 0 <= j < i ==> is_ws_char(s[j]),
        i < s.len() ==> !is_ws_char(s[i]),
    ensures
        is_valid_spec(s) <==> header_marker().is_prefix_of(s.skip(i)),
{
    lemma_leading_ws_count_unique(s, i);
}

/// Number of trailing whitespace characters of `s`.
pub open spec fn trailing_ws_count(s: Seq<char>) -> nat
    decreases s.len(),
{
    if s.len() == 0 {
        0
    } else if is_ws_char(s.last()) {
        1 + trailing_ws_count(s.drop_last())
    } else {
        0
    }
}

/// `s` with leading and trailing whitespace removed.
pub open spec fn trim_spec(s: Seq<char>) -> Seq<char> {
    let t = trim_start_spec(s);
    t.take(t.len() - trailing_ws_count(t))
}

/// Any index with only whitespace after it and a non-whitespace
/// character (or the start) just before it determines the trailing
/// whitespace count.
pub proof fn lemma_trailing_ws_count_unique(s: Seq<char>, m: int)
    requires
        0 <= m <= s.len(),
        forall|j: int| m <= j < s.len() ==> is_ws_char(s[j]),
        m > 0 ==> !is_ws_char(s[m - 1]),
    ensures
        s.len() - m == trailing_ws_count(s),
    decreases s.len(),
{
    if s.len() == 0 {
    } else if is_ws_char(s.last()) {
        assert(m < s.len());
        assert forall|j: int| m <= j < s.drop_last().len() implies is_ws_char(
            s.drop_last()[j],
        ) by {
            assert(s.drop_last()[j] == s[j]);
        }
        lemma_trailing_ws_count_unique(s.drop_last(), m);
    } else {
        assert(m == s.len());
    }
}

/// Validation: after trimming leading whitespace the content starts with
/// the header marker. No length guard: this states the rule for every
/// string.
pub fn basic_validation(content: &str) -> (r: bool)
    ensures
        r == is_valid_spec(content@),
{
    let n: usize = content.unicode_len();
    let mut i: usize = 0;
    loop
        invariant
            n == content@.len(),
            i <= n,
            forall|j: int| 0 <= j < i ==> is_ws_char(content@[j]),
        ensures
            n == content@.len(),
            i <= n,
            forall|j: int| 0 <= j < i ==> is_ws_char(content@[j]),
            i < n ==> !is_ws_char(content@[i as int]),
        decreases n - i,
    {
        if i >= n {
            break;
        }
        let c = content.get_char(i);
        if !(c == ' ' || c == '\t' || c == '\n' || c == '\r') {
            break;
        }
        i = i + 1;
    }
    proof {
        lemma_leading_ws_count_unique(content@, i as int);
    }
    if n - i < 8 {
        proof {
            reveal_strlit("# AGENTS");
            assert(trim_start_spec(content@).len() < header_marker().len());
        }
        return false;
    }
    let r = content.get_char(i) == '#' && content.get_char(i + 1) == ' ' && content.get_char(i + 2)
        == 'A' && content.get_char(i + 3) == 'G' && content.get_char(i + 4) == 'E'
        && content.get_char(i + 5) == 'N' && content.get_char(i + 6) == 'T' && content.get_char(
        i + 7,
    ) == 'S';
    proof {
        reveal_strlit("# AGENTS");
        let trimmed = trim_start_spec(content@);
        assert(trimmed.len() >= 8);
        if r {
            assert(header_marker() =~= trimmed.subrange(0, 8));
        } else {
            if is_valid_spec(content@) {
                assert(header_marker() =~= trimmed.subrange(0, 8));
                assert forall|k: int| 0 <= k < 8 implies trimmed[k] == header_marker()[k] by {
                    assert(trimmed.subrange(0, 8)[k] == trimmed[k]);
                }
                assert(trimmed[0] == '#' && trimmed[1] == ' ' && trimmed[2] == 'A' && trimmed[3]
                    == 'G' && trimmed[4] == 'E' && trimmed[5] == 'N' && trimmed[6] == 'T'
                    && trimmed[7] == 'S');
            }
        }
    }
    r
}

/// Validation entry point; refuses content at or above `MAX_CONTENT_LEN`
/// characters, which callers must rule out beforehand.
pub fn is_valid_agents(content: &str) -> (r: bool)
    requires
        content@.len() < MAX_CONTENT_LEN,
    ensures
        r == is_valid_spec(content@),
{
    basic_validation(content)
}

} // verus!
