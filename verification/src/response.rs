//! Classification of rendered clippy output into a quality tier, and
//! selection of a response message from the configured message bank.

use vstd::prelude::*;
use vstd::string::StrSliceExecFns;

verus! {

/// Verdict about how clean the linted code is.
#[derive(Clone, Copy, Debug, PartialEq, Eq, Structural)]
pub enum CodeQuality {
    Perfect,
    Mediocre,
    Bad,
}

/// Number of non-overlapping occurrences of the blank-line delimiter
/// (two consecutive newline characters), scanning left to right, exactly as
/// `str::split("\n\n")` finds them. A text with `k` such delimiters splits
/// into `k + 1` sections; the final section is always the trailing summary
/// block, never a defect report, so `k` is also the defect count.
pub open spec fn delimiter_count(s: Seq<char>) -> nat
    decreases s.len(),
{
    if s.len() < 2 {
        0
    } else if s[0] == '\n' && s[1] == '\n' {
        1 + delimiter_count(s.skip(2))
    } else {
        delimiter_count(s.skip(1))
    }
}

/// Number of sections a text splits into at blank-line delimiters: always one
/// more than the number of delimiters, so at least one even for the empty
/// text.
pub open spec fn section_count(s: Seq<char>) -> nat {
    delimiter_count(s) + 1
}

/// Heuristic defect count of a diagnostic text: every section but the final
/// one, which is always the trailing summary block and never a defect report.
/// Since a text has at least one section, the subtraction never saturates,
/// and the count equals the number of delimiters.
pub open spec fn defect_count(s: Seq<char>) -> nat {
    (section_count(s) - 1) as nat
}

/// Tier assigned to a diagnostic text: zero defects is `Perfect`, one to five
/// is `Mediocre`, more than five is `Bad`. The boundary at five is a fixed
/// policy constant.
pub open spec fn classify_spec(s: Seq<char>) -> CodeQuality {
    if defect_count(s) == 0 {
        CodeQuality::Perfect
    } else if defect_count(s) <= 5 {
        CodeQuality::Mediocre
    } else {
        CodeQuality::Bad
    }
}

/// Classify a rendered clippy diagnostic text by counting its blank-line
/// separated sections: all but the trailing summary section are taken to be
/// defect reports.
pub fn classify(output: &str) -> (quality: CodeQuality)
    ensures
        quality == classify_spec(output@),
{
    let n = output.unicode_len();
    let mut i: usize = 0;
    let mut count: usize = 0;
    proof {
        assert(output@.skip(0) =~= output@);
    }
    while i < n
        invariant
            i <= n,
            n == output@.len(),
            2 * count <= i,
            count + delimiter_count(output@.skip(i as int)) == delimiter_count(output@),
        decreases n - i,
    {
        if i + 1 < n && output.get_char(i) == '\n' && output.get_char(i + 1) == '\n' {
            proof {
                assert(output@.skip(i as int)[0] == output@[i as int]);
                assert(output@.skip(i as int)[1] == output@[i as int + 1]);
                assert(output@.skip(i as int).skip(2) =~= output@.skip(i as int + 2));
            }
            count = count + 1;
            i = i + 2;
        } else {
            proof {
                let rest = output@.skip(i as int);
                if rest.len() >= 1 {
                    assert(rest[0] == output@[i as int]);
                }
                if rest.len() >= 2 {
                    assert(rest[1] == output@[i as int + 1]);
                }
                assert(rest.len() >= 2 ==> rest.skip(1) =~= output@.skip(i as int + 1));
            }
            i = i + 1;
        }
    }
    proof {
        assert(output@.skip(n as int) =~= Seq::<char>::empty());
    }
    if count == 0 {
        CodeQuality::Perfect
    } else if count <= 5 {
        CodeQuality::Mediocre
    } else {
        CodeQuality::Bad
    }
}

/// Law: a text in which no two consecutive characters are both newlines — in
/// particular the empty text — has no blank-line delimiter at all.
pub proof fn lemma_no_blank_line_no_delimiter(s: Seq<char>)
    requires
        forall|k: int| 0 <= k && k + 1 < s.len() ==> !((#[trigger] s[k]) == '\n' && s[k + 1] == '\n'),
    ensures
        delimiter_count(s) == 0,
    decreases s.len(),
{
    if s.len() >= 2 {
        assert(!(s[0] == '\n' && s[1] == '\n'));
        assert(forall|k: int|
            0 <= k && k + 1 < s.skip(1).len() ==> (#[trigger] s.skip(1)[k]) == s[k + 1]
                && s.skip(1)[k + 1] == s[k + 2]);
        lemma_no_blank_line_no_delimiter(s.skip(1));
    }
}

/// Law: every text with zero defects is classified `Perfect`.
pub proof fn lemma_zero_defects_perfect(s: Seq<char>)
    requires
        defect_count(s) == 0,
    ensures
        classify_spec(s) == CodeQuality::Perfect,
{
}

/// Law: every text with one to five blank-line delimiters — so splitting
/// into two to six sections — is classified `Mediocre`.
pub proof fn lemma_few_defects_mediocre(s: Seq<char>)
    requires
        1 <= defect_count(s) <= 5,
    ensures
        classify_spec(s) == CodeQuality::Mediocre,
{
}

/// Law: every text with more than five blank-line delimiters is classified
/// `Bad`.
pub proof fn lemma_many_defects_bad(s: Seq<char>)
    requires
        defect_count(s) > 5,
    ensures
        classify_spec(s) == CodeQuality::Bad,
{
}

/// Law: classification is a total, deterministic, pure function of the text —
/// equal texts always classify equally, and some tier is always assigned.
pub proof fn lemma_classify_deterministic(s1: Seq<char>, s2: Seq<char>)
    requires
        s1 == s2,
    ensures
        classify_spec(s1) == classify_spec(s2),
        classify_spec(s1) == CodeQuality::Perfect || classify_spec(s1) == CodeQuality::Mediocre
            || classify_spec(s1) == CodeQuality::Bad,
{
}

/// Message bank: for each quality tier, an optional ordered list of candidate
/// response messages. A tier whose key was absent from the configured
/// document has `None`; an empty list is also a valid entry.
pub struct Response {
    pub perfect: Option<Vec<String>>,
    pub mediocre: Option<Vec<String>>,
    pub bad: Option<Vec<String>>,
}

impl Response {
    /// The bank's entry for a tier.
    pub open spec fn entry(self, quality: CodeQuality) -> Option<Vec<String>> {
        match quality {
            CodeQuality::Perfect => self.perfect,
            CodeQuality::Mediocre => self.mediocre,
            CodeQuality::Bad => self.bad,
        }
    }

    /// Whether the bank can produce a message for a tier: it has an entry for
    /// it, and that entry is non-empty.
    pub open spec fn has_message(self, quality: CodeQuality) -> bool {
        match self.entry(quality) {
            Some(list) => list@.len() > 0,
            None => false,
        }
    }

    /// Whether `m` is one of the candidate messages the bank holds for a tier.
    pub open spec fn contains_message(self, quality: CodeQuality, m: Seq<char>) -> bool {
        match self.entry(quality) {
            Some(list) => exists|k: int| 0 <= k < list@.len() && m == list@[k]@,
            None => false,
        }
    }

    /// The candidate messages for a tier, as configured.
    pub fn messages_for(&self, quality: CodeQuality) -> (entry: &Option<Vec<String>>)
        ensures
            *entry == self.entry(quality),
    {
        match quality {
            CodeQuality::Perfect => &self.perfect,
            CodeQuality::Mediocre => &self.mediocre,
            CodeQuality::Bad => &self.bad,
        }
    }
}

/// Relies on `fastrand::usize` over the range `0..len`: it returns a
/// uniformly random index strictly below `len`, and panics only when the
/// range is empty, which the precondition rules out.
#[verifier::external_body]
fn pick_index(len: usize) -> (index: usize)
    requires
        len > 0,
    ensures
        index < len,
{
    fastrand::usize(0..len)
}

/// Pick one response message for a tier: `None` exactly when the bank has no
/// entry, or an empty entry, for the tier; otherwise a randomly chosen member
/// of the tier's list. Selection is memoryless: nothing carries over between
/// calls.
pub fn select(tier: CodeQuality, bank: &Response) -> (message: Option<String>)
    ensures
        message is Some <==> bank.has_message(tier),
        message matches Some(m) ==> bank.contains_message(tier, m@),
{
    match bank.messages_for(tier) {
        Some(list) => {
            if list.len() > 0 {
                let k = pick_index(list.len());
                let picked = list[k].clone();
                assert(picked@ == bank.entry(tier).unwrap()@[k as int]@);
                Some(picked)
            } else {
                None
            }
        },
        None => None,
    }
}

/// The whole configured state of the pet: today only the message bank.
pub struct Configuration {
    pub response: Response,
}

impl Configuration {
    /// Return a response based on rendered clippy output: a [`CodeQuality`]
    /// saying how good the code is, and a random message for the user from
    /// the bank's list for that tier, absent when the bank has none.
    pub fn respond_to_clippy_output(&self, output: &str) -> (r: (CodeQuality, Option<String>))
        ensures
            r.0 == classify_spec(output@),
            r.1 is Some <==> self.response.has_message(classify_spec(output@)),
            r.1 matches Some(m) ==> self.response.contains_message(classify_spec(output@), m@),
    {
        let quality = classify(output);
        let message = select(quality, &self.response);
        (quality, message)
    }
}

} // verus!
