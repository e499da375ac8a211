//! What holds of the text that comes back rewritten, said of the parts of the answer.

use vstd::prelude::*;
use vstd::string::*;

use crate::gemini;
use crate::gemini::{CandidatePart, ErrorEnvelope, GenerateContentResponse};
use crate::text;

verus! {

/// What a part of an answer says: nothing where it has no text.
pub open spec fn words_of(part: CandidatePart) -> Seq<char> {
    match part.text {
        Some(words) => words@,
        None => Seq::empty(),
    }
}

proof fn lemma_said_is_flat(parts: Seq<CandidatePart>, n: int)
    requires
        0 <= n <= parts.len(),
    ensures
        gemini::said(parts, n) == Seq::new(n as nat, |i: int| words_of(parts[i])).flatten(),
    decreases n,
{
    let list = Seq::new(n as nat, |i: int| words_of(parts[i]));
    if n > 0 {
        lemma_said_is_flat(parts, n - 1);
        let front = Seq::new((n - 1) as nat, |i: int| words_of(parts[i]));
        assert(list =~= front.push(words_of(parts[n - 1])));
        front.lemma_flatten_push(words_of(parts[n - 1]));
    }
}

/// An answer that reports no error and has a first candidate with content says what the
/// parts of that content say, whole and one behind another, trimmed; where that is blank
/// it is empty.
pub proof fn law_an_answer_says_all_its_parts(response: GenerateContentResponse)
    requires
        !(response.error is Some && response.error->0.message is Some),
        response.candidates is Some,
        response.candidates->0@.len() > 0,
        response.candidates->0@[0].content is Some,
    ensures
        ({
            let parts = response.candidates->0@[0].content->0.parts@;
            let all = parts.map_values(|part: CandidatePart| words_of(part)).flatten();
            gemini::reading(response) == if text::trimmed(all).len() == 0 {
                Err::<Seq<char>, Seq<char>>("Gemini returned an empty response."@)
            } else {
                Ok::<Seq<char>, Seq<char>>(text::trimmed(all))
            }
        }),
{
    let parts = response.candidates->0@[0].content->0.parts@;
    lemma_said_is_flat(parts, parts.len() as int);
    assert(Seq::new(parts.len(), |i: int| words_of(parts[i])) =~= parts.map_values(
        |part: CandidatePart| words_of(part),
    ));
}

/// An answer of one part with a text that is not blank says that text, trimmed.
pub proof fn law_a_single_part_is_the_answer(
    response: GenerateContentResponse,
    words: Seq<char>,
)
    requires
        !(response.error is Some && response.error->0.message is Some),
        response.candidates is Some,
        response.candidates->0@.len() > 0,
        response.candidates->0@[0].content is Some,
        response.candidates->0@[0].content->0.parts@.len() == 1,
        response.candidates->0@[0].content->0.parts@[0].text is Some,
        response.candidates->0@[0].content->0.parts@[0].text->0@ == words,
        text::trimmed(words).len() > 0,
    ensures
        gemini::reading(response) == Ok::<Seq<char>, Seq<char>>(text::trimmed(words)),
{
    law_an_answer_says_all_its_parts(response);
    let parts = response.candidates->0@[0].content->0.parts@;
    let list = parts.map_values(|part: CandidatePart| words_of(part));
    assert(list.len() == 1 && list[0] == words);
    list.lemma_flatten_singleton();
}

/// The words of part `k` stand in what the parts say together, behind those of the parts
/// before it.
pub proof fn law_every_part_has_its_place(parts: Seq<CandidatePart>, k: int)
    requires
        0 <= k < parts.len(),
    ensures
        ({
            let all = parts.map_values(|part: CandidatePart| words_of(part)).flatten();
            let start = parts.subrange(0, k).fold_left(
                0int,
                |sum: int, part: CandidatePart| sum + words_of(part).len(),
            );
            let words = words_of(parts[k]);
            &&& 0 <= start <= start + words.len() <= all.len()
            &&& all.subrange(start, start + words.len()) == words
        }),
{
    let list = parts.map_values(|part: CandidatePart| words_of(part));
    let before = list.subrange(0, k);
    let rest = list.subrange(k + 1, list.len() as int);
    assert(list =~= before.push(words_of(parts[k])) + rest);
    vstd::seq_lib::lemma_flatten_concat(before.push(words_of(parts[k])), rest);
    before.lemma_flatten_push(words_of(parts[k]));
    let some = parts.subrange(0, k);
    assert(before =~= some.map_values(|part: CandidatePart| words_of(part)));
    lemma_flat_length(some);
    let start = before.flatten().len() as int;
    let words = words_of(parts[k]);
    assert(list.flatten().subrange(start, start + words.len()) =~= words);
}

proof fn lemma_flat_length(parts: Seq<CandidatePart>)
    ensures
        parts.map_values(|part: CandidatePart| words_of(part)).flatten().len() == parts.fold_left(
            0int,
            |sum: int, part: CandidatePart| sum + words_of(part).len(),
        ),
    decreases parts.len(),
{
    if parts.len() > 0 {
        let fewer = parts.drop_last();
        lemma_flat_length(fewer);
        let front = fewer.map_values(|part: CandidatePart| words_of(part));
        assert(parts.map_values(|part: CandidatePart| words_of(part)) =~= front.push(
            words_of(parts.last()),
        ));
        front.lemma_flatten_push(words_of(parts.last()));
    }
}

/// An answer without a text says why there is none: the message of an error that the
/// service reports comes first, then that there is no candidate, then that the first one
/// has no content.
pub proof fn law_why_an_answer_gives_no_text(response: GenerateContentResponse)
    ensures
        ({
            let reported = response.error is Some && response.error->0.message is Some;
            let answered = response.candidates is Some && response.candidates->0@.len() > 0;
            &&& reported ==> gemini::reading(response) == Err::<Seq<char>, Seq<char>>(
                "Gemini request failed: "@ + response.error->0.message->0@,
            )
            &&& !reported && !answered ==> gemini::reading(response) == Err::<
                Seq<char>,
                Seq<char>,
            >("Gemini returned no candidates."@)
            &&& !reported && answered && response.candidates->0@[0].content is None
                ==> gemini::reading(response) == Err::<Seq<char>, Seq<char>>(
                "Gemini returned no content."@,
            )
        }),
{
}

/// A reply with a status of 200 to 299 is read; any other is refused with the message of
/// the service, or with all that it sent where it gives none. What could not be read is
/// reported as it is.
pub proof fn law_what_a_status_means(
    status: u16,
    envelope: Option<ErrorEnvelope>,
    body: Seq<char>,
    parsed: Result<GenerateContentResponse, String>,
)
    ensures
        ({
            let good = 200 <= status <= 299;
            let explained = envelope is Some && envelope->0.error is Some
                && envelope->0.error->0.message is Some;
            let found = gemini::answer(status, envelope, body, parsed);
            &&& good && parsed is Ok ==> found == gemini::reading(parsed->Ok_0)
            &&& good && parsed is Err ==> found == Err::<Seq<char>, Seq<char>>(parsed->Err_0@)
            &&& !good && explained ==> found == Err::<Seq<char>, Seq<char>>(
                "Gemini request failed: "@ + envelope->0.error->0.message->0@,
            )
            &&& !good && !explained ==> found == Err::<Seq<char>, Seq<char>>(
                "Gemini request failed: "@ + body,
            )
        }),
{
}

/// What is sent: the model and the key are named in the address, and the request holds the
/// prompt, the whole text between the two sentences that fence it in, and the largest
/// length of the answer, and nothing else.
pub proof fn law_what_is_sent(
    model: Seq<char>,
    api_key: Seq<char>,
    system_prompt: Seq<char>,
    input: Seq<char>,
)
    ensures
        gemini::request_url(model, api_key)
            == "https://generativelanguage.googleapis.com/v1beta/models/"@ + model
            + ":generateContent?key="@ + api_key,
        ({
            let request = gemini::rewrite_request(system_prompt, input);
            &&& request.system_instruction == Some(
                gemini::ContentView { role: "system"@, parts: seq![system_prompt] },
            )
            &&& request.contents == seq![
                gemini::ContentView {
                    role: "user"@,
                    parts: seq![gemini::USER_CONTENT_PREFIX@, input, gemini::USER_CONTENT_SUFFIX@],
                },
            ]
            &&& request.max_output_tokens == 8_000
        }),
{
}

} // verus!
