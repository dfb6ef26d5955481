use vstd::prelude::*;

verus! {

/// The characters of a text after `str::to_lowercase`.
pub uninterp spec fn lower_of(s: Seq<char>) -> Seq<char>;

/// Relies on `str::to_lowercase`: its result depends on the characters of
/// the text alone, and an empty text stays empty.
#[verifier::external_body]
fn lowercase(s: &str) -> (r: String)
    ensures
        r@ == lower_of(s@),
        s@.len() == 0 ==> r@.len() == 0,
{
    s.to_lowercase()
}

/// Whether an inbound text message should start a voice session.
#[derive(Clone, Copy, Debug, PartialEq, Eq, Structural)]
pub enum TriggerDecision {
    Fire,
    Ignore,
}

/// The phrase that starts a session, in lower case.
pub open spec fn trigger_phrase() -> Seq<char> {
    seq!['s', 'w', 'e', 'e', 't', ' ', 'c', 'a', 'r', 'o', 'l', 'i', 'n', 'e']
}

/// `pat` stands in `text` starting at position `i`.
pub open spec fn occurs_at(text: Seq<char>, pat: Seq<char>, i: int) -> bool {
    0 <= i && i + pat.len() <= text.len() && text.subrange(i, i + pat.len()) == pat
}

/// `pat` stands somewhere in `text`.
pub open spec fn contains_seq(text: Seq<char>, pat: Seq<char>) -> bool {
    exists|i: int| occurs_at(text, pat, i)
}

/// The decision for a message whose lower-cased text is `lowered`: fire when
/// the phrase occurs in it and the message is not the bot's own.
pub open spec fn decision(lowered: Seq<char>, author_id: u64, bot_id: u64) -> TriggerDecision {
    if author_id != bot_id && contains_seq(lowered, trigger_phrase()) {
        TriggerDecision::Fire
    } else {
        TriggerDecision::Ignore
    }
}

fn phrase_chars() -> (r: Vec<char>)
    ensures
        r@ == trigger_phrase(),
{
    let r = vec!['s', 'w', 'e', 'e', 't', ' ', 'c', 'a', 'r', 'o', 'l', 'i', 'n', 'e'];
    assert(r@ =~= trigger_phrase());
    r
}

/// The characters of `s`, one per element.
pub fn chars_of(s: &str) -> (r: Vec<char>)
    ensures
        r@ == s@,
{
    let n = s.unicode_len();
    let mut r: Vec<char> = Vec::new();
    let mut i: usize = 0;
    while i < n
        invariant
            n == s@.len(),
            i <= n,
            r@ == s@.subrange(0, i as int),
        decreases n - i,
    {
        r.push(s.get_char(i));
        i = i + 1;
        assert(r@ =~= s@.subrange(0, i as int));
    }
    assert(r@ =~= s@);
    r
}

/// Whether `pat` occurs in `text`.
pub fn contains_chars(text: &Vec<char>, pat: &Vec<char>) -> (r: bool)
    ensures
        r == contains_seq(text@, pat@),
{
    if pat.len() > text.len() {
        assert(!contains_seq(text@, pat@));
        return false;
    }
    let len = text.len();
    let last = len - pat.len();
    let mut i: usize = 0;
    loop
        invariant
            last == text@.len() - pat@.len(),
            i <= last,
            len == text@.len(),
            forall|j: int| 0 <= j < i ==> !occurs_at(text@, pat@, j),
        decreases last - i,
    {
        let mut k: usize = 0;
        let mut same = true;
        while k < pat.len() && same
            invariant
                i <= last,
                last == text@.len() - pat@.len(),
                i + pat@.len() <= text@.len(),
                len == text@.len(),
                k <= pat@.len(),
                same ==> forall|m: int| 0 <= m < k ==> text@[i + m] == pat@[m],
                !same ==> k > 0 && text@[i + k - 1] != pat@[k - 1],
            decreases pat@.len() - k + (if same { 1int } else { 0int }),
        {
            if text[i + k] != pat[k] {
                same = false;
            }
            k = k + 1;
        }
        if same {
            assert(text@.subrange(i as int, i + pat@.len()) =~= pat@);
            assert(occurs_at(text@, pat@, i as int));
            return true;
        }
        assert(!occurs_at(text@, pat@, i as int)) by {
            let m = k - 1;
            assert(text@.subrange(i as int, i + pat@.len())[m as int] == text@[i + m]);
        }
        if i == last {
            assert(!contains_seq(text@, pat@)) by {
                assert forall|j: int| !occurs_at(text@, pat@, j) by {
                    if 0 <= j <= i {
                    } else if occurs_at(text@, pat@, j) {
                        assert(j + pat@.len() <= text@.len());
                    }
                }
            }
            return false;
        }
        i = i + 1;
    }
}

/// Classifies a message whose text is already lower-cased.
pub fn classify_lowered(lowered: &str, author_id: u64, bot_id: u64) -> (r: TriggerDecision)
    ensures
        r == decision(lowered@, author_id, bot_id),
{
    if author_id == bot_id {
        return TriggerDecision::Ignore;
    }
    let text = chars_of(lowered);
    let phrase = phrase_chars();
    if contains_chars(&text, &phrase) {
        TriggerDecision::Fire
    } else {
        TriggerDecision::Ignore
    }
}

/// Classifies an inbound message: it fires when its lower-cased text holds
/// the trigger phrase and its author is not the bot itself.
pub fn classify(message_text: &str, author_id: u64, bot_id: u64) -> (r: TriggerDecision)
    ensures
        r == decision(lower_of(message_text@), author_id, bot_id),
        author_id == bot_id ==> r == TriggerDecision::Ignore,
{
    let lowered = lowercase(message_text);
    classify_lowered(lowered.as_str(), author_id, bot_id)
}

} // verus!
