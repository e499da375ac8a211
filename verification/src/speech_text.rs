//! Text on its way to a voice: technical terms spelled out, chunks of speakable
//! length, and how many tokens a model may spend on it.

use vstd::prelude::*;
use vstd::string::*;

use crate::config::DEFAULT_CHUNK_SIZE;
use crate::text;

verus! {

// ---------------------------------------------------------------------------
// Technical terms
// ---------------------------------------------------------------------------

/// The terms that are spelled out before a text is spoken, in the order in which
/// they are replaced.
pub open spec fn spoken_terms() -> Seq<(Seq<char>, Seq<char>)> {
    seq![
        ("O(log n)"@, "big O of log n"@),
        ("O(n)"@, "big O of n"@),
        ("O(1)"@, "big O of constant time"@),
        ("O("@, "big O of "@),
        ("impl Trait"@, "impl trait"@),
        ("K8s"@, "Kubernetes"@),
        ("ElastiCache"@, "Elastic Cache"@),
        ("EKS"@, "E K S"@),
        ("AKS"@, "A K S"@),
        ("S3"@, "S 3"@),
        ("CRDs"@, "C R Ds"@),
        ("CRD"@, "C R D"@),
        ("createdb"@, "create database"@),
        ("GPU"@, "G P U"@),
        ("CPU"@, "C P U"@),
        ("CLI"@, "C L I"@),
    ]
}

/// `s` after the first `n` replacements of `terms`.
pub open spec fn spelled_out(s: Seq<char>, terms: Seq<(Seq<char>, Seq<char>)>, n: nat) -> Seq<char>
    decreases n,
{
    if n == 0 {
        s
    } else {
        text::replaced(
            spelled_out(s, terms, (n - 1) as nat),
            terms[n - 1].0,
            terms[n - 1].1,
        )
    }
}

/// The text as it is spoken: its terms spelled out, its words one space apart.
pub open spec fn spoken(s: Seq<char>) -> Seq<char> {
    text::spaced(text::words(spelled_out(s, spoken_terms(), spoken_terms().len())))
}

/// One replacement of the list.
fn spell_out(s: String, from: &str, to: &str, Ghost(input): Ghost<Seq<char>>, Ghost(n): Ghost<int>) -> (res:
    String)
    requires
        0 <= n < spoken_terms().len(),
        from@.len() > 0,
        spoken_terms()[n] == (from@, to@),
        s@ == spelled_out(input, spoken_terms(), n as nat),
    ensures
        res@ == spelled_out(input, spoken_terms(), (n + 1) as nat),
{
    text::replace_all(s.as_str(), from, to)
}

/// The text as it is spoken: its terms spelled out, its words one space apart.
pub fn normalize_technical_text(input: &str) -> (res: String)
    ensures
        res@ == spoken(input@),
{
    proof {
        reveal_strlit("O(log n)");
        reveal_strlit("O(n)");
        reveal_strlit("O(1)");
        reveal_strlit("O(");
        reveal_strlit("impl Trait");
        reveal_strlit("K8s");
        reveal_strlit("ElastiCache");
        reveal_strlit("EKS");
        reveal_strlit("AKS");
        reveal_strlit("S3");
        reveal_strlit("CRDs");
        reveal_strlit("CRD");
        reveal_strlit("createdb");
        reveal_strlit("GPU");
        reveal_strlit("CPU");
        reveal_strlit("CLI");
    }
    let t = input.to_owned();
    let t = spell_out(t, "O(log n)", "big O of log n", Ghost(input@), Ghost(0));
    let t = spell_out(t, "O(n)", "big O of n", Ghost(input@), Ghost(1));
    let t = spell_out(t, "O(1)", "big O of constant time", Ghost(input@), Ghost(2));
    let t = spell_out(t, "O(", "big O of ", Ghost(input@), Ghost(3));
    let t = spell_out(t, "impl Trait", "impl trait", Ghost(input@), Ghost(4));
    let t = spell_out(t, "K8s", "Kubernetes", Ghost(input@), Ghost(5));
    let t = spell_out(t, "ElastiCache", "Elastic Cache", Ghost(input@), Ghost(6));
    let t = spell_out(t, "EKS", "E K S", Ghost(input@), Ghost(7));
    let t = spell_out(t, "AKS", "A K S", Ghost(input@), Ghost(8));
    let t = spell_out(t, "S3", "S 3", Ghost(input@), Ghost(9));
    let t = spell_out(t, "CRDs", "C R Ds", Ghost(input@), Ghost(10));
    let t = spell_out(t, "CRD", "C R D", Ghost(input@), Ghost(11));
    let t = spell_out(t, "createdb", "create database", Ghost(input@), Ghost(12));
    let t = spell_out(t, "GPU", "G P U", Ghost(input@), Ghost(13));
    let t = spell_out(t, "CPU", "C P U", Ghost(input@), Ghost(14));
    let t = spell_out(t, "CLI", "C L I", Ghost(input@), Ghost(15));
    let parts = text::split_words(t.as_str());
    text::join_spaced(&parts)
}

// ---------------------------------------------------------------------------
// Chunks
// ---------------------------------------------------------------------------

/// The length from which white space ends a chunk: twice the target.
pub open spec fn fallback_length(target: nat) -> nat {
    if 2 * target > usize::MAX {
        usize::MAX as nat
    } else {
        2 * target
    }
}

/// Whether a piece of `n` characters ends with its last character `c`: at the end
/// of a sentence once the target is reached, or at white space once it is reached
/// twice over.
pub open spec fn ends_piece(c: char, n: nat, target: nat) -> bool {
    ||| n >= target && (c == '.' || c == '!' || c == '?')
    ||| n >= fallback_length(target) && text::is_space(c)
}

/// The length of the first piece of `s` that has more than `n` characters, or
/// `None` where the text ends before one does.
pub open spec fn piece_length(s: Seq<char>, target: nat, n: nat) -> Option<nat>
    decreases s.len() - n,
{
    if n >= s.len() {
        None
    } else if ends_piece(s[n as int], n + 1, target) {
        Some(n + 1)
    } else {
        piece_length(s, target, n + 1)
    }
}

/// The complete pieces of `s`, trimmed, without those that are blank.
pub open spec fn pieces(s: Seq<char>, target: nat) -> Seq<Seq<char>>
    decreases s.len(),
{
    match piece_length(s, target, 0) {
        Some(n) if 0 < n <= s.len() => {
            let later = pieces(s.skip(n as int), target);
            let piece = text::trimmed(s.take(n as int));
            if piece.len() == 0 {
                later
            } else {
                seq![piece] + later
            }
        },
        _ => seq![],
    }
}

/// What follows the last complete piece of `s`.
pub open spec fn leftover(s: Seq<char>, target: nat) -> Seq<char>
    decreases s.len(),
{
    match piece_length(s, target, 0) {
        Some(n) if 0 < n <= s.len() => leftover(s.skip(n as int), target),
        _ => s,
    }
}

/// The chunks with the remainder of the text behind them: a remainder of less
/// than half the target joins the last chunk, a longer one is a chunk of its own.
pub open spec fn with_remainder(
    chunks: Seq<Seq<char>>,
    remainder: Seq<char>,
    target: nat,
) -> Seq<Seq<char>> {
    if remainder.len() == 0 {
        chunks
    } else if chunks.len() > 0 && remainder.len() < target / 2 {
        chunks.drop_last().push(chunks.last().push(' ') + remainder)
    } else {
        chunks.push(remainder)
    }
}

/// The chunks in which a text is spoken. A target of zero, or one that the text
/// does not exceed, leaves it whole.
pub open spec fn speech_chunks(s: Seq<char>, target: nat) -> Seq<Seq<char>> {
    let t = text::trimmed(s);
    if target == 0 || t.len() <= target {
        seq![t]
    } else {
        let chunks = with_remainder(
            pieces(t, target),
            text::trimmed(leftover(t, target)),
            target,
        );
        if chunks.len() == 0 {
            seq![t]
        } else {
            chunks
        }
    }
}

/// Split text into chunks at sentence boundaries so the first chunk can be
/// synthesized and played quickly while later chunks are still being generated.
///
/// `chunk_size` is measured in characters. `Some(0)` disables chunking.
pub fn split_into_speech_chunks(text: &str, chunk_size: Option<usize>) -> (res: Vec<String>)
    ensures
        res.deep_view() == speech_chunks(
            text@,
            match chunk_size {
                Some(size) => size as nat,
                None => DEFAULT_CHUNK_SIZE as nat,
            },
        ),
{
    let target: usize = match chunk_size {
        Some(size) => size,
        None => DEFAULT_CHUNK_SIZE,
    };
    let whole = text::trim(text);
    let chars = text::chars_of(whole.as_str());
    let len: usize = chars.len();
    if target == 0 || len <= target {
        let mut only: Vec<String> = Vec::new();
        only.push(whole);
        assert(only.deep_view() =~= seq![text::trimmed(text@)]);
        return only;
    }
    let twice: usize = if target > usize::MAX / 2 {
        usize::MAX
    } else {
        target * 2
    };
    let mut chunks: Vec<String> = Vec::new();
    let mut start: usize = 0;
    let mut i: usize = 0;
    let ghost t = chars@;
    let ghost goal = target as nat;
    assert(t.skip(0) =~= t);
    assert(chunks.deep_view() + pieces(t, goal) =~= pieces(t, goal));
    while i < len
        invariant
            start <= i <= len,
            len == chars@.len(),
            t == chars@,
            goal == target,
            twice == fallback_length(goal),
            pieces(t, goal) == chunks.deep_view() + pieces(t.skip(start as int), goal),
            leftover(t, goal) == leftover(t.skip(start as int), goal),
            piece_length(t.skip(start as int), goal, 0) == piece_length(
                t.skip(start as int),
                goal,
                (i - start) as nat,
            ),
        decreases len - i,
    {
        let c = chars[i];
        let count: usize = i - start + 1;
        let ghost rest = t.skip(start as int);
        assert(rest[i - start] == c);
        if (count >= target && (c == '.' || c == '!' || c == '?')) || (count >= twice
            && text::is_whitespace(c)) {
            let piece = text::trim(text::text_of(&chars, start, i + 1).as_str());
            assert(t.subrange(start as int, i + 1) =~= rest.take(count as int));
            assert(rest.skip(count as int) =~= t.skip(i + 1));
            let ghost before = chunks.deep_view();
            let ghost found = piece@;
            if !piece.as_str().is_empty() {
                chunks.push(piece);
                assert(chunks.deep_view() =~= before.push(found));
                assert(before + (seq![found] + pieces(t.skip(i + 1), goal)) =~= before.push(found)
                    + pieces(t.skip(i + 1), goal));
            }
            start = i + 1;
        }
        i = i + 1;
    }
    assert(piece_length(t.skip(start as int), goal, 0) is None);
    assert(pieces(t, goal) =~= chunks.deep_view());
    let remainder = text::trim(text::text_of(&chars, start, len).as_str());
    assert(t.subrange(start as int, len as int) =~= t.skip(start as int));
    let ghost before = chunks.deep_view();
    let ghost rem = remainder@;
    if !remainder.as_str().is_empty() {
        let short = text::char_count(remainder.as_str()) < target / 2;
        match chunks.pop() {
            Some(last) => {
                assert(chunks.deep_view() =~= before.drop_last());
                if short {
                    let joined = text::concat3(last.as_str(), " ", remainder.as_str());
                    proof {
                        reveal_strlit(" ");
                        assert(last@ == before.last());
                        assert(joined@ =~= last@.push(' ') + rem);
                    }
                    chunks.push(joined);
                } else {
                    chunks.push(last);
                    assert(chunks.deep_view() =~= before);
                    chunks.push(remainder);
                }
            },
            None => {
                chunks.push(remainder);
            },
        }
        assert(chunks.deep_view() =~= with_remainder(before, rem, goal));
    }
    if chunks.len() == 0 {
        chunks.push(whole);
        assert(chunks.deep_view() =~= seq![text::trimmed(text@)]);
    }
    chunks
}

// ---------------------------------------------------------------------------
// Token budget
// ---------------------------------------------------------------------------

/// The token budget that fits a text: four for each word and sixteen more, within
/// 32 and 128.
pub open spec fn recommended_tokens(s: Seq<char>) -> nat {
    let estimated = 4 * text::words(s).len() + 16;
    if estimated < 32 {
        32
    } else if estimated > 128 {
        128
    } else {
        estimated
    }
}

/// Whether a text is short enough for its budget to be capped.
pub open spec fn is_short_prompt(s: Seq<char>) -> bool {
    text::words(s).len() <= 24 && s.len() <= 160
}

/// The token budget of a request: the requested one, capped at the recommended one
/// where the text is short.
pub open spec fn effective_tokens(s: Seq<char>, requested: Option<usize>) -> nat {
    match requested {
        Some(value) => if is_short_prompt(s) && value > recommended_tokens(s) {
            recommended_tokens(s)
        } else {
            value as nat
        },
        None => recommended_tokens(s),
    }
}

/// The number of words of a text.
fn word_count(s: &str) -> (res: usize)
    ensures
        res == text::words(s@).len(),
{
    let list = text::split_words(s);
    assert(list.deep_view().len() == list@.len());
    list.len()
}

/// The token budget that fits a text.
pub fn vibevoice_max_tokens(text: &str) -> (res: usize)
    ensures
        res == recommended_tokens(text@),
{
    let count: usize = word_count(text);
    if count > 28 {
        128
    } else {
        let estimated: usize = count * 4 + 16;
        if estimated < 32 {
            32
        } else {
            estimated
        }
    }
}

/// The token budget of a request.
pub fn vibevoice_effective_max_tokens(text: &str, requested: Option<usize>) -> (res: usize)
    ensures
        res == effective_tokens(text@, requested),
{
    let recommended: usize = vibevoice_max_tokens(text);
    match requested {
        Some(value) => if word_count(text) <= 24 && text::char_count(text) <= 160 && value
            > recommended {
            recommended
        } else {
            value
        },
        None => recommended,
    }
}

} // verus!
