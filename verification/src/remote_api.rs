//! The remote analysis path: building the request content that is sent to
//! the remote model, and interpreting what comes back. The HTTP exchange and
//! the (de)serialization of the wire format are the host application's work;
//! this module owns the content layout, the prompt, the code-fence
//! extraction rule and the validation of the answer.

use vstd::prelude::*;
use vstd::string::StringExecFns;

use crate::json::{json_accepted, json_parses};
use crate::text::{
    chars_of, copy_range, dec_digits, find_from, first_match_from, lemma_first_match_from,
    trim_bounds, trim_spec, u64_to_string,
};

verus! {

/// One image entry in the request content list.
#[derive(Debug, Clone, PartialEq)]
pub struct ImageContent {
    pub content_type: String,
    pub source: ImageSource,
}

/// The payload of an image entry: base64 data and its declared media type.
#[derive(Debug, Clone, PartialEq)]
pub struct ImageSource {
    pub source_type: String,
    pub media_type: String,
    pub data: String,
}

/// One text entry in the request content list.
#[derive(Debug, Clone, PartialEq)]
pub struct TextContent {
    pub content_type: String,
    pub text: String,
}

/// An entry of the request content list: images first, one text prompt last.
#[derive(Debug, Clone, PartialEq)]
pub enum Content {
    Image(ImageContent),
    Text(TextContent),
}

/// Errors from the remote analysis path.
#[derive(Debug, Clone, PartialEq)]
pub enum RemoteError {
    /// The endpoint answered outside the 200 range; carries status and body.
    Http { status: u16, body: String },
    /// The response body could not be decoded as a response document.
    UnparsableResponse,
    /// The response carried no text entry.
    NoTextContent,
    /// The extracted answer is not valid JSON.
    NotJson,
}

impl RemoteError {
    /// A human-readable description of the error.
    pub fn message(&self) -> (r: String)
        ensures
            self matches RemoteError::Http { status, body } ==> r@ == "Remote API error ("@
                + dec_digits(status as nat) + "): "@ + body@,
            self is UnparsableResponse ==> r@ == "Failed to parse remote response"@,
            self is NoTextContent ==> r@ == "No text content in remote response"@,
            self is NotJson ==> r@ == "Remote response is not valid JSON"@,
    {
        match self {
            RemoteError::Http { status, body } => {
                let mut m = String::from_str("Remote API error (");
                let code = u64_to_string(*status as u64);
                m.append(code.as_str());
                m.append("): ");
                m.append(body.as_str());
                m
            },
            RemoteError::UnparsableResponse => String::from_str("Failed to parse remote response"),
            RemoteError::NoTextContent => String::from_str("No text content in remote response"),
            RemoteError::NotJson => String::from_str("Remote response is not valid JSON"),
        }
    }
}

/// The rendered analysis prompt: the fixed instruction template with the
/// style code embedded at its four places.
pub open spec fn skill_prompt(code: Seq<char>) -> Seq<char> {
    r#"You are an expert LoRA (Low-Rank Adaptation) training dataset generator for Midjourney SREF codes.

Analyze the provided style reference images for SREF code: "#@ + code
        + r#"

Based on these images, generate a complete LoRA training dataset specification. Follow these requirements:

1. **Style Analysis**: Identify visual characteristics, color palette, composition patterns, texture, line quality, and subject affinity

2. **Permutation Batches**: Create 8-10 batches where EACH batch generates EXACTLY 40 images using Midjourney's permutation syntax {option1, option2, ...}

3. **Batch Requirements**:
   - Format: {subjects} with {modifiers} --sref "#@ + code
        + r#"
   - Valid calculations: 8×5=40, 5×8=40, 10×4=40, 4×10=40
   - Keep prompts simple (3-8 words before modifiers)
   - Let SREF handle styling - avoid style descriptors

4. **Output Format**: Return ONLY valid JSON matching this schema (no markdown, no code blocks):

{
  "sref_code": ""#@ + code + r#"",
  "style_analysis": {
    "primary_style": "string",
    "era_influence": "string",
    "color_palette": ["color1", "color2"],
    "key_characteristics": ["trait1", "trait2"],
    "best_subjects": ["subject1", "subject2"],
    "avoid_subjects": ["subject1", "subject2"]
  },
  "training_recommendations": {
    "recommended_dataset_size": 100,
    "optimal_subject_distribution": {
      "category": "percentage"
    }
  },
  "permutation_batches": [
    {
      "batch_number": 1,
      "batch_name": "string",
      "category": "string",
      "image_count": 40,
      "prompt": "{subject1, subject2, ...} with {modifier1, modifier2, ...} --sref "#@ + code
        + r#"",
      "priority": "high|medium|low",
      "notes": "optional guidance"
    }
  ],
  "prompt_guidelines": {
    "keep_simple": true,
    "avoid_style_keywords": ["keyword1"],
    "recommended_additions": ["element1"]
  }
}

CRITICAL:
- Each batch MUST generate exactly 40 images
- Include SREF code in every prompt
- Return ONLY JSON, no additional text or markdown
- Ensure all batches have valid permutation syntax"#@
}

/// Build the analysis prompt for a style code.
pub fn build_skill_prompt(sref_code: &str) -> (r: String)
    ensures
        r@ == skill_prompt(sref_code@),
{
    let mut s = String::from_str(
        r#"You are an expert LoRA (Low-Rank Adaptation) training dataset generator for Midjourney SREF codes.

Analyze the provided style reference images for SREF code: "#,
    );
    s.append(sref_code);
    s.append(
        r#"

Based on these images, generate a complete LoRA training dataset specification. Follow these requirements:

1. **Style Analysis**: Identify visual characteristics, color palette, composition patterns, texture, line quality, and subject affinity

2. **Permutation Batches**: Create 8-10 batches where EACH batch generates EXACTLY 40 images using Midjourney's permutation syntax {option1, option2, ...}

3. **Batch Requirements**:
   - Format: {subjects} with {modifiers} --sref "#,
    );
    s.append(sref_code);
    s.append(
        r#"
   - Valid calculations: 8×5=40, 5×8=40, 10×4=40, 4×10=40
   - Keep prompts simple (3-8 words before modifiers)
   - Let SREF handle styling - avoid style descriptors

4. **Output Format**: Return ONLY valid JSON matching this schema (no markdown, no code blocks):

{
  "sref_code": ""#,
    );
    s.append(sref_code);
    s.append(
        r#"",
  "style_analysis": {
    "primary_style": "string",
    "era_influence": "string",
    "color_palette": ["color1", "color2"],
    "key_characteristics": ["trait1", "trait2"],
    "best_subjects": ["subject1", "subject2"],
    "avoid_subjects": ["subject1", "subject2"]
  },
  "training_recommendations": {
    "recommended_dataset_size": 100,
    "optimal_subject_distribution": {
      "category": "percentage"
    }
  },
  "permutation_batches": [
    {
      "batch_number": 1,
      "batch_name": "string",
      "category": "string",
      "image_count": 40,
      "prompt": "{subject1, subject2, ...} with {modifier1, modifier2, ...} --sref "#,
    );
    s.append(sref_code);
    s.append(
        r#"",
      "priority": "high|medium|low",
      "notes": "optional guidance"
    }
  ],
  "prompt_guidelines": {
    "keep_simple": true,
    "avoid_style_keywords": ["keyword1"],
    "recommended_additions": ["element1"]
  }
}

CRITICAL:
- Each batch MUST generate exactly 40 images
- Include SREF code in every prompt
- Return ONLY JSON, no additional text or markdown
- Ensure all batches have valid permutation syntax"#,
    );
    assert(s@ =~= skill_prompt(sref_code@));
    s
}

/// The request content layout: one image entry per input, in order, each
/// declared as base64 with its media type, then exactly one trailing text
/// entry holding the rendered prompt.
pub open spec fn request_content_spec(
    content: Seq<Content>,
    image_data: Seq<(String, String)>,
    code: Seq<char>,
) -> bool {
    &&& content.len() == image_data.len() + 1
    &&& forall|i: int|
        0 <= i < image_data.len() ==> ({
            &&& (#[trigger] content[i]) matches Content::Image(ic)
            &&& ic.content_type@ == "image"@
            &&& ic.source.source_type@ == "base64"@
            &&& ic.source.media_type == image_data[i].1
            &&& ic.source.data == image_data[i].0
        })
    &&& (content[image_data.len() as int] matches Content::Text(tc) && tc.content_type@
        == "text"@ && tc.text@ == skill_prompt(code))
}

/// Assemble the request content, as `request_content_spec` lays it out.
pub fn build_request_content(image_data: Vec<(String, String)>, sref_code: &str) -> (r: Vec<
    Content,
>)
    ensures
        request_content_spec(r@, image_data@, sref_code@),
{
    let n = image_data.len();
    let mut content: Vec<Content> = Vec::new();
    let mut i: usize = 0;
    while i < n
        invariant
            i <= n,
            n == image_data@.len(),
            content@.len() == i,
            forall|k: int|
                0 <= k < i ==> ({
                    &&& (#[trigger] content@[k]) matches Content::Image(ic)
                    &&& ic.content_type@ == "image"@
                    &&& ic.source.source_type@ == "base64"@
                    &&& ic.source.media_type == image_data@[k].1
                    &&& ic.source.data == image_data@[k].0
                }),
        decreases n - i,
    {
        let data = image_data[i].0.clone();
        let media_type = image_data[i].1.clone();
        content.push(
            Content::Image(
                ImageContent {
                    content_type: String::from_str("image"),
                    source: ImageSource {
                        source_type: String::from_str("base64"),
                        media_type,
                        data,
                    },
                },
            ),
        );
        i += 1;
    }
    content.push(
        Content::Text(
            TextContent {
                content_type: String::from_str("text"),
                text: build_skill_prompt(sref_code),
            },
        ),
    );
    content
}

/// The complete request handed to the remote endpoint, one call down from
/// the wire: a model identifier, the fixed output-token budget, and exactly
/// one user message whose content is the image entries followed by the
/// rendered prompt.
#[derive(Debug, Clone, PartialEq)]
pub struct RemoteRequest {
    /// The model identifier the deployment configures for the endpoint.
    pub model: String,
    /// The maximum number of output tokens requested.
    pub max_tokens: u32,
    /// The role of the single message.
    pub role: String,
    /// The ordered content list: images first, one text prompt last.
    pub content: Vec<Content>,
}

/// Assemble the full request envelope: the given model identifier is carried
/// unchanged, the output budget is fixed at 8192 tokens, and the one message
/// is a user message laid out as `request_content_spec` fixes it.
pub fn build_remote_request(
    model: String,
    image_data: Vec<(String, String)>,
    sref_code: &str,
) -> (r: RemoteRequest)
    ensures
        r.model == model,
        r.max_tokens == 8192,
        r.role@ == "user"@,
        request_content_spec(r.content@, image_data@, sref_code@),
{
    let content = build_request_content(image_data, sref_code);
    RemoteRequest { model, max_tokens: 8192, role: String::from_str("user"), content }
}

/// Everything before the next code fence (or all of `s`), trimmed.
pub open spec fn cut_at_fence(s: Seq<char>) -> Seq<char> {
    let k = first_match_from(s, "```"@, 0);
    if k >= 0 {
        trim_spec(s.take(k))
    } else {
        trim_spec(s)
    }
}

/// The extraction rule for a model answer: if it holds a fenced block
/// labeled for JSON, the interior of the first such block; else if it holds
/// any fenced block, that block's interior; else the whole answer; in every
/// case trimmed of surrounding white space.
pub open spec fn strip_fences(t: Seq<char>) -> Seq<char> {
    let j = first_match_from(t, "```json"@, 0);
    if j >= 0 {
        cut_at_fence(t.skip(j + 7))
    } else {
        let b = first_match_from(t, "```"@, 0);
        if b >= 0 {
            cut_at_fence(t.skip(b + 3))
        } else {
            trim_spec(t)
        }
    }
}

/// The window that trimming leaves, with its bounds in order.
fn trimmed_window(v: &Vec<char>) -> (r: (usize, usize))
    ensures
        r.0 <= r.1 <= v@.len(),
        trim_spec(v@) == v@.subrange(r.0 as int, r.1 as int),
{
    let (a, b) = trim_bounds(v);
    if a <= b {
        (a, b)
    } else {
        proof {
            assert(trim_spec(v@) =~= v@.subrange(0, 0));
        }
        (0, 0)
    }
}

/// The window of `sub` that `cut_at_fence` selects.
fn cut_window(sub: &Vec<char>) -> (r: (usize, usize))
    ensures
        r.0 <= r.1 <= sub@.len(),
        cut_at_fence(sub@) == sub@.subrange(r.0 as int, r.1 as int),
{
    proof {
        reveal_strlit("```");
    }
    let pat = chars_of("```");
    let piece_end: usize = match find_from(sub, &pat, 0) {
        Some(k) => k,
        None => sub.len(),
    };
    proof {
        lemma_first_match_from(sub@, "```"@, 0);
        assert(sub@.subrange(0, piece_end as int) =~= sub@.take(piece_end as int));
    }
    let piece = copy_range(sub, 0, piece_end);
    proof {
        assert(piece@ =~= sub@.take(piece_end as int));
        if first_match_from(sub@, "```"@, 0) < 0 {
            assert(sub@.take(piece_end as int) =~= sub@);
        }
    }
    let (a, b) = trimmed_window(&piece);
    proof {
        assert(piece@.subrange(a as int, b as int) =~= sub@.subrange(a as int, b as int));
    }
    (a, b)
}

/// Extract the JSON-bearing part of a model answer, by the fenced-block rule.
pub fn extract_json_text(text: &str) -> (r: String)
    ensures
        r@ == strip_fences(text@),
{
    proof {
        reveal_strlit("```json");
        reveal_strlit("```");
    }
    let v = chars_of(text);
    let vlen = v.len();
    let pj = chars_of("```json");
    let start_opt: Option<usize> = match find_from(&v, &pj, 0) {
        Some(j) => {
            proof {
                lemma_first_match_from(v@, "```json"@, 0);
            }
            Some(j + pj.len())
        },
        None => {
            let pf = chars_of("```");
            match find_from(&v, &pf, 0) {
                Some(b0) => {
                    proof {
                        lemma_first_match_from(v@, "```"@, 0);
                    }
                    Some(b0 + pf.len())
                },
                None => None,
            }
        },
    };
    match start_opt {
        Some(start) => {
            let sub = copy_range(&v, start, vlen);
            let (a, b) = cut_window(&sub);
            proof {
                assert(sub@ =~= text@.skip(start as int));
                assert(sub@.subrange(a as int, b as int) =~= text@.subrange(
                    start + a,
                    start + b,
                ));
            }
            let piece = text.substring_char(start + a, start + b);
            String::from_str(piece)
        },
        None => {
            let (a, b) = trimmed_window(&v);
            let piece = text.substring_char(a, b);
            String::from_str(piece)
        },
    }
}

/// Index of the first `Some` entry at or after `i`, or -1 if there is none.
pub open spec fn first_text_from(s: Seq<Option<String>>, i: int) -> int
    recommends
        0 <= i <= s.len(),
    decreases s.len() - i
        when i <= s.len()
{
    if i >= s.len() {
        -1
    } else if s[i] is Some {
        i
    } else {
        first_text_from(s, i + 1)
    }
}

/// The first text entry of a response content list, if any.
fn first_text(contents: &Vec<Option<String>>) -> (r: Option<String>)
    ensures
        r is None <==> first_text_from(contents@, 0) == -1,
        r matches Some(t) ==> ({
            let k = first_text_from(contents@, 0);
            &&& 0 <= k < contents@.len()
            &&& contents@[k] matches Some(u) && u == t
        }),
{
    let n = contents.len();
    let mut i: usize = 0;
    while i < n
        invariant
            i <= n,
            n == contents@.len(),
            first_text_from(contents@, 0) == first_text_from(contents@, i as int),
        decreases n - i,
    {
        match &contents[i] {
            Some(t) => {
                return Some(t.clone());
            },
            None => {},
        }
        i += 1;
    }
    None
}

/// Interpret what the remote endpoint answered: the HTTP status, the raw
/// body, and the texts of the response content list as the host decoded
/// them (`None` when the body was not decodable as a response document).
///
/// A status outside the 200 range is a hard failure carrying status and
/// body. Otherwise the first text entry is the model's answer; the JSON is
/// extracted from it by the fenced-block rule and must parse, or the call
/// fails.
pub fn interpret_remote_response(
    status: u16,
    body: String,
    texts: Option<Vec<Option<String>>>,
) -> (r: Result<String, RemoteError>)
    ensures
        !(200 <= status < 300) ==> (r matches Err(e) && e matches RemoteError::Http {
            status: s,
            body: b,
        } && s == status && b == body),
        200 <= status < 300 && texts is None ==> (r matches Err(e) && e is UnparsableResponse),
        200 <= status < 300 ==> (texts matches Some(ts) ==> (first_text_from(ts@, 0) == -1 ==> (
        r matches Err(e) && e is NoTextContent))),
        200 <= status < 300 ==> (texts matches Some(ts) ==> (first_text_from(ts@, 0) >= 0 ==> ({
            &&& ts@[first_text_from(ts@, 0)] matches Some(t)
            &&& (json_accepted(strip_fences(t@)) ==> (r matches Ok(o) && o@ == strip_fences(
                t@,
            )))
            &&& (!json_accepted(strip_fences(t@)) ==> (r matches Err(e) && e is NotJson))
        }))),
{
    if !(200 <= status && status < 300) {
        return Err(RemoteError::Http { status, body });
    }
    match texts {
        None => Err(RemoteError::UnparsableResponse),
        Some(ts) => match first_text(&ts) {
            None => Err(RemoteError::NoTextContent),
            Some(t) => {
                let json_text = extract_json_text(t.as_str());
                if json_parses(json_text.as_str()) {
                    Ok(json_text)
                } else {
                    Err(RemoteError::NotJson)
                }
            },
        },
    }
}

} // verus!
