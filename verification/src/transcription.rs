//! The multipart form of a transcription request.
use vstd::prelude::*;

verus! {

broadcast use vstd::string::group_string_axioms;

/// What the multipart form of a transcription holds: the audio as a file
/// part, then the text fields in order.
pub struct TranscriptionForm {
    /// The name of the file part.
    pub file_field: String,
    /// The file name the part carries.
    pub file_name: String,
    /// The media type the part carries.
    pub mime: String,
    /// The text fields, as name and value, in the order they are added.
    pub text_fields: Vec<(String, String)>,
}

/// The text of a list of text fields.
pub open spec fn fields_text(v: Seq<(String, String)>) -> Seq<(Seq<char>, Seq<char>)> {
    v.map_values(|p: (String, String)| (p.0@, p.1@))
}

/// The field `name` when `value` is set, else nothing.
pub open spec fn optional_field(name: Seq<char>, value: Option<String>) -> Seq<(Seq<char>, Seq<char>)> {
    match value {
        Some(v) => seq![(name, v@)],
        None => Seq::empty(),
    }
}

/// The text fields of a transcription: `model`, `language`, `prompt`,
/// `response_format` and `temperature`, each only when it is set, in that order.
pub open spec fn transcription_text_fields(
    model: Option<String>,
    language: Option<String>,
    prompt: Option<String>,
    response_format: Option<String>,
    temperature: Option<String>,
) -> Seq<(Seq<char>, Seq<char>)> {
    optional_field("model"@, model) + optional_field("language"@, language) + optional_field(
        "prompt"@,
        prompt,
    ) + optional_field("response_format"@, response_format) + optional_field(
        "temperature"@,
        temperature,
    )
}

/// The place of a field name in the order the form lists its text fields:
/// `model`, `language`, `prompt`, `response_format`, `temperature`; any other
/// name comes after them.
pub open spec fn field_rank(name: Seq<char>) -> int {
    if name == "model"@ {
        0
    } else if name == "language"@ {
        1
    } else if name == "prompt"@ {
        2
    } else if name == "response_format"@ {
        3
    } else if name == "temperature"@ {
        4
    } else {
        5
    }
}

/// 1 when `o` is set, else 0.
pub open spec fn set_count(o: Option<String>) -> int {
    if o is Some {
        1
    } else {
        0
    }
}

/// `fields` holds the pair `(name, v)` when `value` is `Some(v)`.
pub open spec fn carries(fields: Seq<(Seq<char>, Seq<char>)>, name: Seq<char>, value: Option<String>) -> bool {
    value matches Some(v) ==> fields.contains((name, v@))
}

/// The text fields of a transcription form are exactly the options that are
/// set, each once under its own name with its value, in the order `model`,
/// `language`, `prompt`, `response_format`, `temperature`.
pub open spec fn sends_options(
    fields: Seq<(Seq<char>, Seq<char>)>,
    model: Option<String>,
    language: Option<String>,
    prompt: Option<String>,
    response_format: Option<String>,
    temperature: Option<String>,
) -> bool {
    &&& fields.len() == set_count(model) + set_count(language) + set_count(prompt) + set_count(
        response_format,
    ) + set_count(temperature)
    &&& carries(fields, "model"@, model)
    &&& carries(fields, "language"@, language)
    &&& carries(fields, "prompt"@, prompt)
    &&& carries(fields, "response_format"@, response_format)
    &&& carries(fields, "temperature"@, temperature)
    &&& forall|i: int, j: int|
        0 <= i < j < fields.len() ==> field_rank(#[trigger] fields[i].0) < field_rank(
            #[trigger] fields[j].0,
        )
}

/// Names in `s` come in strictly increasing rank, all below `k`.
spec fn ranked_below(s: Seq<(Seq<char>, Seq<char>)>, k: int) -> bool {
    &&& forall|i: int| 0 <= i < s.len() ==> field_rank(#[trigger] s[i].0) < k
    &&& forall|i: int, j: int|
        0 <= i < j < s.len() ==> field_rank(#[trigger] s[i].0) < field_rank(#[trigger] s[j].0)
}

/// Appending the optional field of rank `k` keeps the names in order.
proof fn lemma_append_ranked(
    s: Seq<(Seq<char>, Seq<char>)>,
    name: Seq<char>,
    value: Option<String>,
    k: int,
)
    requires
        ranked_below(s, k),
        field_rank(name) == k,
    ensures
        ranked_below(s + optional_field(name, value), k + 1),
        carries(s + optional_field(name, value), name, value),
        forall|p: (Seq<char>, Seq<char>)| s.contains(p) ==> (s + optional_field(name, value)).contains(p),
        (s + optional_field(name, value)).len() == s.len() + set_count(value),
{
    let t = s + optional_field(name, value);
    assert forall|p: (Seq<char>, Seq<char>)| s.contains(p) implies t.contains(p) by {
        let i = choose|i: int| 0 <= i < s.len() && s[i] == p;
        assert(t[i] == p);
    }
    match value {
        Some(v) => {
            assert(t[s.len() as int] == (name, v@));
            assert forall|i: int| 0 <= i < t.len() implies field_rank(#[trigger] t[i].0) < k + 1 by {
                if i < s.len() {
                    assert(t[i] == s[i]);
                }
            }
            assert forall|i: int, j: int| 0 <= i < j < t.len() implies field_rank(#[trigger] t[i].0)
                < field_rank(#[trigger] t[j].0) by {
                assert(t[i] == s[i]);
                if j < s.len() {
                    assert(t[j] == s[j]);
                }
            }
        },
        None => {
            assert(t =~= s);
        },
    }
}

/// The text fields of a transcription are exactly its set options, each once
/// under its own name with its value, in the order `model`, `language`,
/// `prompt`, `response_format`, `temperature`: no option that is set is left
/// out, and none that is unset is sent.
pub proof fn lemma_transcription_fields_send_options(
    model: Option<String>,
    language: Option<String>,
    prompt: Option<String>,
    response_format: Option<String>,
    temperature: Option<String>,
)
    ensures
        sends_options(
            transcription_text_fields(model, language, prompt, response_format, temperature),
            model,
            language,
            prompt,
            response_format,
            temperature,
        ),
{
    reveal_strlit("model");
    reveal_strlit("language");
    reveal_strlit("prompt");
    reveal_strlit("response_format");
    reveal_strlit("temperature");
    assert(field_rank("model"@) == 0);
    assert("language"@[0] != "model"@[0]);
    assert(field_rank("language"@) == 1);
    assert("prompt"@[0] != "model"@[0] && "prompt"@[0] != "language"@[0]);
    assert(field_rank("prompt"@) == 2);
    assert("response_format"@[0] != "model"@[0] && "response_format"@[0] != "language"@[0]
        && "response_format"@[0] != "prompt"@[0]);
    assert(field_rank("response_format"@) == 3);
    assert("temperature"@[0] != "model"@[0] && "temperature"@[0] != "language"@[0]
        && "temperature"@[0] != "prompt"@[0] && "temperature"@[0] != "response_format"@[0]);
    assert(field_rank("temperature"@) == 4);
    let s0 = Seq::<(Seq<char>, Seq<char>)>::empty();
    let s1 = s0 + optional_field("model"@, model);
    let s2 = s1 + optional_field("language"@, language);
    let s3 = s2 + optional_field("prompt"@, prompt);
    let s4 = s3 + optional_field("response_format"@, response_format);
    let s5 = s4 + optional_field("temperature"@, temperature);
    lemma_append_ranked(s0, "model"@, model, 0);
    lemma_append_ranked(s1, "language"@, language, 1);
    lemma_append_ranked(s2, "prompt"@, prompt, 2);
    lemma_append_ranked(s3, "response_format"@, response_format, 3);
    lemma_append_ranked(s4, "temperature"@, temperature, 4);
    assert(s1 =~= optional_field("model"@, model));
    assert(s5 =~= transcription_text_fields(model, language, prompt, response_format, temperature));
}

/// Appends the field `name` to `fields` when `value` is set.
fn push_optional(fields: &mut Vec<(String, String)>, name: &str, value: Option<String>)
    ensures
        fields_text(final(fields)@) == fields_text(old(fields)@) + optional_field(name@, value),
{
    match value {
        Some(v) => {
            fields.push((name.to_string(), v));
            assert(fields_text(final(fields)@) =~= fields_text(old(fields)@) + optional_field(
                name@,
                value,
            ));
        },
        None => {
            assert(fields_text(old(fields)@) + optional_field(name@, value) =~= fields_text(
                old(fields)@,
            ));
        },
    }
}

/// The form of a transcription of the file `file_name`. The file part is
/// named `file` and typed `audio/mpeg`; `temperature` is the text of the
/// requested temperature.
pub fn transcription_form(
    file_name: String,
    model: Option<String>,
    language: Option<String>,
    prompt: Option<String>,
    response_format: Option<String>,
    temperature: Option<String>,
) -> (r: TranscriptionForm)
    ensures
        r.file_field@ == "file"@,
        r.file_name@ == file_name@,
        r.mime@ == "audio/mpeg"@,
        fields_text(r.text_fields@) == transcription_text_fields(
            model,
            language,
            prompt,
            response_format,
            temperature,
        ),
        sends_options(fields_text(r.text_fields@), model, language, prompt, response_format, temperature),
{
    proof {
        lemma_transcription_fields_send_options(model, language, prompt, response_format, temperature);
    }
    let mut fields: Vec<(String, String)> = Vec::new();
    assert(fields_text(fields@) =~= Seq::empty());
    push_optional(&mut fields, "model", model);
    push_optional(&mut fields, "language", language);
    push_optional(&mut fields, "prompt", prompt);
    push_optional(&mut fields, "response_format", response_format);
    push_optional(&mut fields, "temperature", temperature);
    TranscriptionForm {
        file_field: "file".to_string(),
        file_name,
        mime: "audio/mpeg".to_string(),
        text_fields: fields,
    }
}

} // verus!
