//! The format sniffer: a cheap look at the text that orders the decode attempts.

use vstd::prelude::*;

verus! {

/// The encoding that a text most probably uses.
#[derive(Clone, Copy, Debug, PartialEq, Eq, Structural)]
pub enum FormatGuess {
    Json,
    Yaml,
}

impl FormatGuess {
    /// The codec that is not this one.
    pub open spec fn other_of(self) -> FormatGuess {
        match self {
            FormatGuess::Json => FormatGuess::Yaml,
            FormatGuess::Yaml => FormatGuess::Json,
        }
    }

    /// The codec to fall back on when this one fails.
    pub fn other(self) -> (o: FormatGuess)
        ensures
            o == self.other_of(),
    {
        match self {
            FormatGuess::Json => FormatGuess::Yaml,
            FormatGuess::Yaml => FormatGuess::Json,
        }
    }
}

/// The two signals that the sniffer reads off a text.
#[derive(Clone, Copy, Debug, PartialEq, Eq, Structural)]
pub struct Sniff {
    /// The text, trimmed, starts with `{` or `[`.
    pub likely_json: bool,
    /// The text does not start as JSON, and holds a `:` or a `-`.
    pub likely_yaml: bool,
}

/// Whether `c` has the Unicode property White_Space.
pub open spec fn is_blank(c: char) -> bool {
    let n = c as u32;
    ||| 0x09 <= n <= 0x0D
    ||| n == 0x20
    ||| n == 0x85
    ||| n == 0xA0
    ||| n == 0x1680
    ||| 0x2000 <= n <= 0x200A
    ||| n == 0x2028
    ||| n == 0x2029
    ||| n == 0x202F
    ||| n == 0x205F
    ||| n == 0x3000
}

/// How many white-space characters `s` starts with.
pub open spec fn leading_blanks(s: Seq<char>) -> nat
    decreases s.len(),
{
    if s.len() > 0 && is_blank(s[0]) {
        1 + leading_blanks(s.drop_first())
    } else {
        0
    }
}

/// How many white-space characters `s` ends with.
pub open spec fn trailing_blanks(s: Seq<char>) -> nat
    decreases s.len(),
{
    if s.len() > 0 && is_blank(s.last()) {
        1 + trailing_blanks(s.drop_last())
    } else {
        0
    }
}

/// `s` without the white space at its start and at its end.
pub open spec fn trimmed(s: Seq<char>) -> Seq<char> {
    let rest = s.skip(leading_blanks(s) as int);
    rest.take(rest.len() - trailing_blanks(rest))
}

/// The trimmed text opens a JSON object or array.
pub open spec fn starts_as_json(s: Seq<char>) -> bool {
    let t = trimmed(s);
    t.len() > 0 && (t[0] == '{' || t[0] == '[')
}

/// The trimmed text holds one of the characters that YAML structure is made of.
pub open spec fn has_yaml_marks(s: Seq<char>) -> bool {
    let t = trimmed(s);
    t.contains(':') || t.contains('-')
}

/// What the sniffer reads off `s`.
pub open spec fn sniff_of(s: Seq<char>) -> Sniff {
    Sniff { likely_json: starts_as_json(s), likely_yaml: !starts_as_json(s) && has_yaml_marks(s) }
}

/// The guess for `s`: JSON where the text opens as JSON, YAML for everything else,
/// with or without YAML marks in it.
pub open spec fn guess_of(s: Seq<char>) -> FormatGuess {
    if starts_as_json(s) {
        FormatGuess::Json
    } else {
        FormatGuess::Yaml
    }
}

/// The leading blanks are a prefix of blanks that ends at the first other character.
pub proof fn lemma_leading_blanks(s: Seq<char>)
    ensures
        leading_blanks(s) <= s.len(),
        forall|j: int| 0 <= j < leading_blanks(s) ==> is_blank(#[trigger] s[j]),
        leading_blanks(s) < s.len() ==> !is_blank(s[leading_blanks(s) as int]),
    decreases s.len(),
{
    if s.len() > 0 && is_blank(s[0]) {
        let r = s.drop_first();
        lemma_leading_blanks(r);
        assert forall|j: int| 0 <= j < leading_blanks(s) implies is_blank(#[trigger] s[j]) by {
            if j > 0 {
                assert(s[j] == r[j - 1]);
            }
        }
        if leading_blanks(s) < s.len() {
            assert(s[leading_blanks(s) as int] == r[leading_blanks(r) as int]);
        }
    }
}

/// The trailing blanks are a suffix of blanks that starts behind the last other character.
pub proof fn lemma_trailing_blanks(s: Seq<char>)
    ensures
        trailing_blanks(s) <= s.len(),
        forall|j: int| s.len() - trailing_blanks(s) <= j < s.len() ==> is_blank(#[trigger] s[j]),
        trailing_blanks(s) < s.len() ==> !is_blank(s[s.len() - trailing_blanks(s) - 1]),
    decreases s.len(),
{
    if s.len() > 0 && is_blank(s.last()) {
        let r = s.drop_last();
        lemma_trailing_blanks(r);
        assert forall|j: int| s.len() - trailing_blanks(s) <= j < s.len() implies is_blank(
            #[trigger] s[j],
        ) by {
            if j < s.len() - 1 {
                assert(s[j] == r[j]);
            }
        }
        if trailing_blanks(s) < s.len() {
            assert(s[s.len() - trailing_blanks(s) - 1] == r[r.len() - trailing_blanks(r) - 1]);
        }
    }
}

/// Trimming cuts a window out of the text: it starts at the first character that is no
/// white space, ends behind the last such character, and is empty where there is none.
pub proof fn lemma_trimmed_window(s: Seq<char>)
    ensures
        leading_blanks(s) <= s.len(),
        trimmed(s).len() <= s.len() - leading_blanks(s),
        forall|j: int| 0 <= j < trimmed(s).len() ==> trimmed(s)[j] == s[leading_blanks(s) + j],
        forall|j: int| 0 <= j < leading_blanks(s) ==> is_blank(#[trigger] s[j]),
        forall|j: int| leading_blanks(s) + trimmed(s).len() <= j < s.len() ==> is_blank(#[trigger] s[j]),
        trimmed(s).len() > 0 ==> !is_blank(trimmed(s)[0]) && !is_blank(trimmed(s).last()),
        leading_blanks(s) < s.len() ==> trimmed(s).len() > 0,
{
    lemma_leading_blanks(s);
    let lead = leading_blanks(s) as int;
    let rest = s.skip(lead);
    lemma_trailing_blanks(rest);
    let kept = rest.len() - trailing_blanks(rest);
    assert forall|j: int| lead + trimmed(s).len() <= j < s.len() implies is_blank(#[trigger] s[j]) by {
        assert(s[j] == rest[j - lead]);
    }
    if lead < s.len() {
        assert(rest[0] == s[lead]);
        if trailing_blanks(rest) == rest.len() {
            assert(is_blank(rest[0]));
        }
    }
}

/// Trimming removes white space only, so a character that is none is in the trimmed
/// text exactly if it is in the text.
pub proof fn lemma_trim_keeps_marks(s: Seq<char>, c: char)
    requires
        !is_blank(c),
    ensures
        trimmed(s).contains(c) <==> s.contains(c),
{
    lemma_trimmed_window(s);
    let lead = leading_blanks(s) as int;
    let t = trimmed(s);
    if t.contains(c) {
        let j = choose|j: int| 0 <= j < t.len() && t[j] == c;
        assert(s[lead + j] == c);
    }
    if s.contains(c) {
        let i = choose|i: int| 0 <= i < s.len() && s[i] == c;
        assert(lead <= i < lead + t.len());
        assert(t[i - lead] == c);
    }
}

/// Whether `c` is white space, as `char::is_whitespace` tells it.
pub fn is_whitespace(c: char) -> (b: bool)
    ensures
        b == is_blank(c),
{
    let n: u32 = c as u32;
    (0x09 <= n && n <= 0x0D) || n == 0x20 || n == 0x85 || n == 0xA0 || n == 0x1680 || (0x2000 <= n
        && n <= 0x200A) || n == 0x2028 || n == 0x2029 || n == 0x202F || n == 0x205F || n == 0x3000
}

/// Reads the two signals off `content` in one pass over its characters.
pub fn sniff(content: &str) -> (r: Sniff)
    ensures
        r == sniff_of(content@),
{
    let ghost s = content@;
    let mut first: Option<char> = None;
    let ghost mut at: int = 0;
    let mut marks = false;
    for c in it: content.chars()
        invariant
            it.seq() == s,
            first is None ==> forall|j: int| 0 <= j < it.index() ==> is_blank(#[trigger] s[j]),
            first is Some ==> {
                &&& 0 <= at < it.index()
                &&& s[at] == first->0
                &&& !is_blank(s[at])
                &&& forall|j: int| 0 <= j < at ==> is_blank(#[trigger] s[j])
            },
            marks <==> exists|j: int| 0 <= j < it.index() && (#[trigger] s[j] == ':' || s[j] == '-'),
    {
        let ghost i = it.index();
        assert(c == s[i]);
        if first.is_none() && !is_whitespace(c) {
            first = Some(c);
            proof {
                at = i;
            }
        }
        if c == ':' || c == '-' {
            marks = true;
        }
    }
    proof {
        lemma_trimmed_window(s);
        lemma_trim_keeps_marks(s, ':');
        lemma_trim_keeps_marks(s, '-');
        if first is Some {
            assert(leading_blanks(s) == at);
        }
        assert(marks <==> s.contains(':') || s.contains('-'));
    }
    let likely_json = match first {
        Some(c) => c == '{' || c == '[',
        None => false,
    };
    Sniff { likely_json, likely_yaml: !likely_json && marks }
}

/// The encoding to try first on `content`. A guess orders the attempts and rejects
/// nothing: it is defined for every text, the empty one included.
pub fn guess(content: &str) -> (g: FormatGuess)
    ensures
        g == guess_of(content@),
{
    if sniff(content).likely_json {
        FormatGuess::Json
    } else {
        FormatGuess::Yaml
    }
}

} // verus!
