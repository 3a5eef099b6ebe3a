//! The local vision-language engine: prompt construction and the engine
//! handle. The engine itself is an external capability that is not wired in
//! yet; until it is, analysis answers with a fixed development response.

use vstd::prelude::*;
use vstd::string::StringExecFns;

use crate::settings::ModelVariant;
use crate::text::{
    border_free, count_matches, count_matches_from, dec_digits, digit_char, lemma_count_from_zero,
    lemma_count_split, lemma_no_straddle_left, lemma_no_straddle_right, matches_at, u64_to_string,
};

verus! {

broadcast use vstd::string::group_string_axioms;

/// `s` repeated `n` times.
pub open spec fn repeat_seq(s: Seq<char>, n: nat) -> Seq<char>
    decreases n,
{
    if n == 0 {
        Seq::empty()
    } else {
        repeat_seq(s, (n - 1) as nat) + s
    }
}

/// The placeholder token sequence that stands for one image in the prompt.
pub open spec fn vision_placeholder() -> Seq<char> {
    "<|vision_start|><|image_pad|><|vision_end|>"@
}

/// The rendered local-model prompt: a fixed system section, then a user
/// section holding one vision placeholder per image, the image count, and
/// the style code embedded twice.
pub open spec fn qwen_prompt(code: Seq<char>, num_images: nat) -> Seq<char> {
    "<|im_start|>system\nYou are Qwen, a vision-language AI assistant specialized in analyzing artistic styles.<|im_end|>\n<|im_start|>user\n"@
        + repeat_seq(vision_placeholder(), num_images) + "Analyze these "@ + dec_digits(num_images)
        + " style reference images for Midjourney SREF code "@ + code
        + ".\n\nGenerate a LoRA training dataset specification with:\n1. Style analysis (colors, patterns, era, characteristics)\n2. 8-10 permutation batches with EXACTLY 40 images each\n3. Use format: {{subjects}} with {{modifiers}} --sref "@
        + code + "\n\nOutput ONLY valid JSON matching the expected schema.<|im_end|>\n<|im_start|>assistant\n"@
}

/// Build the prompt for the local model.
pub fn build_qwen_prompt(sref_code: &str, num_images: usize) -> (r: String)
    ensures
        r@ == qwen_prompt(sref_code@, num_images as nat),
{
    let mut s = String::from_str(
        "<|im_start|>system\nYou are Qwen, a vision-language AI assistant specialized in analyzing artistic styles.<|im_end|>\n<|im_start|>user\n",
    );
    let ghost head = s@;
    let mut i: usize = 0;
    while i < num_images
        invariant
            i <= num_images,
            s@ == head + repeat_seq(vision_placeholder(), i as nat),
        decreases num_images - i,
    {
        s.append("<|vision_start|><|image_pad|><|vision_end|>");
        assert(s@ =~= head + repeat_seq(vision_placeholder(), (i + 1) as nat));
        i += 1;
    }
    s.append("Analyze these ");
    let count = u64_to_string(num_images as u64);
    s.append(count.as_str());
    s.append(" style reference images for Midjourney SREF code ");
    s.append(sref_code);
    s.append(
        ".\n\nGenerate a LoRA training dataset specification with:\n1. Style analysis (colors, patterns, era, characteristics)\n2. 8-10 permutation batches with EXACTLY 40 images each\n3. Use format: {{subjects}} with {{modifiers}} --sref ",
    );
    s.append(sref_code);
    s.append("\n\nOutput ONLY valid JSON matching the expected schema.<|im_end|>\n<|im_start|>assistant\n");
    assert(s@ =~= qwen_prompt(sref_code@, num_images as nat));
    s
}

/// The vision placeholder has no border: it opens with `<`, which reappears
/// inside it only where the following characters break the overlap.
proof fn lemma_placeholder_border_free()
    ensures
        border_free(vision_placeholder()),
{
    reveal_strlit("<|vision_start|><|image_pad|><|vision_end|>");
    let p = vision_placeholder();
    assert(p.len() == 43);
    assert forall|k: int|
        0 < k < p.len() implies p.subrange(k, p.len() as int) != p.subrange(
        0,
        p.len() - k,
    ) by {
        if p.subrange(k, 43) == p.subrange(0, 43 - k) {
            assert(p.subrange(k, 43)[0] == p[k]);
            assert(p.subrange(0, 43 - k)[0] == p[0]);
            assert(forall|j: int| 0 < j < 43 && j != 16 && j != 29 ==> (#[trigger] p[j]) != '<');
            if k == 16 {
                assert(p.subrange(16, 43)[2] == p[18]);
                assert(p.subrange(0, 27)[2] == p[2]);
            } else {
                assert(k == 29);
                assert(p.subrange(29, 43)[9] == p[38]);
                assert(p.subrange(0, 14)[9] == p[9]);
            }
        }
    }
}

/// Within `n` adjacent copies of a non-empty, border-free pattern, the
/// pattern occurs exactly `n` times: once per copy, never spanning two.
proof fn lemma_repeat_count(pat: Seq<char>, n: nat)
    requires
        pat.len() >= 1,
        border_free(pat),
    ensures
        count_matches(repeat_seq(pat, n), pat) == n,
    decreases n,
{
    if n == 0 {
    } else {
        let r = repeat_seq(pat, (n - 1) as nat);
        let t = r + pat;
        lemma_repeat_count(pat, (n - 1) as nat);
        assert forall|i: int| r.len() - pat.len() < i < r.len() implies !matches_at(
            t,
            pat,
            i,
        ) by {
            if matches_at(t, pat, i) {
                let k = r.len() - i;
                assert forall|j: int|
                    0 <= j < pat.len() - k implies pat.subrange(k, pat.len() as int)[j]
                    == pat.subrange(0, pat.len() - k)[j] by {
                    assert(t.subrange(i, i + pat.len() as int)[k + j] == t[r.len() + j]);
                    assert(t[r.len() + j] == pat[j]);
                }
                assert(pat.subrange(k, pat.len() as int) =~= pat.subrange(0, pat.len() - k));
            }
        }
        lemma_count_split(r, pat, pat, 0);
        assert(count_matches(pat, pat) == 1) by {
            assert(pat.subrange(0, pat.len() as int) =~= pat);
            assert(matches_at(pat, pat, 0));
            assert(count_matches_from(pat, pat, 1) == 0);
        }
    }
}

/// Every character that renders a decimal number is a digit.
proof fn lemma_dec_digits_chars(n: nat)
    ensures
        dec_digits(n).len() >= 1,
        forall|i: int|
            0 <= i < dec_digits(n).len() ==> 48 <= (#[trigger] dec_digits(n)[i]) as u32 <= 57,
    decreases n,
{
    if n < 10 {
        assert(dec_digits(n)[0] == digit_char(n));
    } else {
        lemma_dec_digits_chars(n / 10);
        let head = dec_digits(n / 10);
        assert forall|i: int|
            0 <= i < dec_digits(n).len() implies 48 <= (#[trigger] dec_digits(n)[i]) as u32
            <= 57 by {
            if i < head.len() {
                assert(dec_digits(n)[i] == head[i]);
            } else {
                assert(dec_digits(n)[i] == digit_char(n % 10));
            }
        }
    }
}

/// A segment without `<` holds no occurrence of the placeholder.
proof fn lemma_no_placeholder_without_lt(s: Seq<char>)
    requires
        forall|i: int| 0 <= i < s.len() ==> (#[trigger] s[i]) != '<',
    ensures
        count_matches(s, vision_placeholder()) == 0,
{
    reveal_strlit("<|vision_start|><|image_pad|><|vision_end|>");
    let p = vision_placeholder();
    assert forall|i: int| 0 <= i implies !matches_at(s, p, i) by {
        if matches_at(s, p, i) {
            assert(s.subrange(i, i + p.len() as int)[0] == s[i]);
            assert(s[i] == p[0]);
        }
    }
    lemma_count_from_zero(s, p, 0);
}

/// A segment in which no `<` is followed two places later by `v` holds no
/// occurrence of the placeholder.
proof fn lemma_no_placeholder_without_lt_v(s: Seq<char>)
    requires
        forall|i: int|
            0 <= i && i + 2 < s.len() ==> !((#[trigger] s[i]) == '<' && s[i + 2] == 'v'),
    ensures
        count_matches(s, vision_placeholder()) == 0,
{
    reveal_strlit("<|vision_start|><|image_pad|><|vision_end|>");
    let p = vision_placeholder();
    assert forall|i: int| 0 <= i implies !matches_at(s, p, i) by {
        if matches_at(s, p, i) {
            assert(s.subrange(i, i + p.len() as int)[0] == s[i]);
            assert(s.subrange(i, i + p.len() as int)[2] == s[i + 2]);
            assert(s[i] == p[0] && s[i + 2] == p[2]);
        }
    }
    lemma_count_from_zero(s, p, 0);
}

/// One vision placeholder per image, and no other: for a style code free of
/// `<` (style codes are plain digits), the rendered prompt holds exactly
/// `num_images` occurrences of the placeholder, all of them in the image
/// block of the user section — the fixed text around them contributes none.
pub proof fn lemma_prompt_placeholder_count(code: Seq<char>, num_images: nat)
    requires
        forall|i: int| 0 <= i < code.len() ==> (#[trigger] code[i]) != '<',
    ensures
        count_matches(qwen_prompt(code, num_images), vision_placeholder()) == num_images,
{
    reveal_strlit("<|vision_start|><|image_pad|><|vision_end|>");
    reveal_strlit(
        "<|im_start|>system\nYou are Qwen, a vision-language AI assistant specialized in analyzing artistic styles.<|im_end|>\n<|im_start|>user\n",
    );
    reveal_strlit("Analyze these ");
    reveal_strlit(" style reference images for Midjourney SREF code ");
    reveal_strlit(
        ".\n\nGenerate a LoRA training dataset specification with:\n1. Style analysis (colors, patterns, era, characteristics)\n2. 8-10 permutation batches with EXACTLY 40 images each\n3. Use format: {{subjects}} with {{modifiers}} --sref ",
    );
    reveal_strlit(
        "\n\nOutput ONLY valid JSON matching the expected schema.<|im_end|>\n<|im_start|>assistant\n",
    );
    let p = vision_placeholder();
    let h =
        "<|im_start|>system\nYou are Qwen, a vision-language AI assistant specialized in analyzing artistic styles.<|im_end|>\n<|im_start|>user\n"@;
    let m1 = "Analyze these "@;
    let d = dec_digits(num_images);
    let m2 = " style reference images for Midjourney SREF code "@;
    let m3 =
        ".\n\nGenerate a LoRA training dataset specification with:\n1. Style analysis (colors, patterns, era, characteristics)\n2. 8-10 permutation batches with EXACTLY 40 images each\n3. Use format: {{subjects}} with {{modifiers}} --sref "@;
    let tail =
        "\n\nOutput ONLY valid JSON matching the expected schema.<|im_end|>\n<|im_start|>assistant\n"@;
    let r = repeat_seq(p, num_images);

    assert(p.len() == 43);
    // The placeholder's characters: all lowercase words and `<|_>` symbols,
    // so it contains no capital letter, space, dot, newline or digit.
    assert(forall|j: int|
        0 <= j < p.len() ==> {
            &&& (#[trigger] p[j]) != 'A'
            &&& p[j] != ' '
            &&& p[j] != '.'
            &&& p[j] != '\n'
            &&& !(48 <= p[j] as u32 <= 57)
        });
    lemma_dec_digits_chars(num_images);
    lemma_placeholder_border_free();

    // None of the fixed segments holds an occurrence.
    assert(count_matches(h, p) == 0) by {
        assert(forall|i: int|
            0 <= i && i + 2 < h.len() ==> !((#[trigger] h[i]) == '<' && h[i + 2] == 'v'));
        lemma_no_placeholder_without_lt_v(h);
    }
    assert(count_matches(tail, p) == 0) by {
        assert(forall|i: int|
            0 <= i && i + 2 < tail.len() ==> !((#[trigger] tail[i]) == '<' && tail[i + 2]
                == 'v'));
        lemma_no_placeholder_without_lt_v(tail);
    }
    assert(count_matches(m1, p) == 0) by {
        assert(forall|i: int| 0 <= i < m1.len() ==> (#[trigger] m1[i]) != '<');
        lemma_no_placeholder_without_lt(m1);
    }
    assert(count_matches(m2, p) == 0) by {
        assert(forall|i: int| 0 <= i < m2.len() ==> (#[trigger] m2[i]) != '<');
        lemma_no_placeholder_without_lt(m2);
    }
    assert(count_matches(m3, p) == 0) by {
        assert(forall|i: int| 0 <= i < m3.len() ==> (#[trigger] m3[i]) != '<');
        lemma_no_placeholder_without_lt(m3);
    }
    assert(count_matches(code, p) == 0) by {
        lemma_no_placeholder_without_lt(code);
    }
    assert(count_matches(d, p) == 0) by {
        assert forall|i: int| 0 <= i < d.len() implies (#[trigger] d[i]) != '<' by {
            assert(48 <= d[i] as u32 <= 57);
        }
        lemma_no_placeholder_without_lt(d);
    }
    // The image block holds exactly one occurrence per image.
    lemma_repeat_count(p, num_images);

    // Fold the concatenation left to right; no occurrence straddles any
    // seam: each right side opens with (or each left side closes with) a
    // character the placeholder does not contain.
    let a2 = h + r;
    let a3 = a2 + m1;
    let a4 = a3 + d;
    let a5 = a4 + m2;
    let a6 = a5 + code;
    let a7 = a6 + m3;
    let a8 = a7 + code;
    assert(qwen_prompt(code, num_images) == a8 + tail);

    assert(count_matches(a2, p) == num_images) by {
        if r.len() == 0 {
            assert(a2 =~= h);
            assert(num_images == 0);
        } else {
            assert(h[h.len() - 1] == '\n');
            lemma_no_straddle_left(h, r, p);
            lemma_count_split(h, r, p, 0);
        }
    }
    assert(count_matches(a3, p) == num_images) by {
        assert(m1[0] == 'A');
        lemma_no_straddle_right(a2, m1, p);
        lemma_count_split(a2, m1, p, 0);
    }
    assert(count_matches(a4, p) == num_images) by {
        assert(48 <= d[0] as u32 <= 57);
        assert(forall|j: int| 0 <= j < p.len() ==> (#[trigger] p[j]) != d[0]);
        lemma_no_straddle_right(a3, d, p);
        lemma_count_split(a3, d, p, 0);
    }
    assert(count_matches(a5, p) == num_images) by {
        assert(m2[0] == ' ');
        lemma_no_straddle_right(a4, m2, p);
        lemma_count_split(a4, m2, p, 0);
    }
    assert(count_matches(a6, p) == num_images) by {
        if code.len() == 0 {
            assert(a6 =~= a5);
        } else {
            assert(a5.last() == m2.last());
            assert(m2[m2.len() - 1] == ' ');
            lemma_no_straddle_left(a5, code, p);
            lemma_count_split(a5, code, p, 0);
        }
    }
    assert(count_matches(a7, p) == num_images) by {
        assert(m3[0] == '.');
        lemma_no_straddle_right(a6, m3, p);
        lemma_count_split(a6, m3, p, 0);
    }
    assert(count_matches(a8, p) == num_images) by {
        if code.len() == 0 {
            assert(a8 =~= a7);
        } else {
            assert(a7.last() == m3.last());
            assert(m3[m3.len() - 1] == ' ');
            lemma_no_straddle_left(a7, code, p);
            lemma_count_split(a7, code, p, 0);
        }
    }
    assert(count_matches(a8 + tail, p) == num_images) by {
        assert(tail[0] == '\n');
        lemma_no_straddle_right(a8, tail, p);
        lemma_count_split(a8, tail, p, 0);
    }
}

/// The fixed development response the stub engine answers with.
pub open spec fn stub_response() -> Seq<char> {
    r###"{
    "sref_code": "stub-qwen2vl",
    "style_analysis": {
        "primary_style": "Development Stub Mode",
        "era_influence": "Model downloaded successfully, inference pending implementation",
        "color_palette": ["#1E3A8A", "#3B82F6", "#60A5FA", "#93C5FD"],
        "key_characteristics": [
            "Engine integration ready",
            "Model files validated and loaded",
            "Inference pipeline needs completion"
        ],
        "best_subjects": [
            "Once engine inference is implemented, real style analysis will appear here"
        ],
        "avoid_subjects": [
            "This is stub data for testing the download and initialization flow"
        ]
    },
    "training_recommendations": {
        "recommended_dataset_size": 120,
        "optimal_subject_distribution": {
            "nature": 0.30,
            "objects": 0.25,
            "people": 0.20,
            "abstract": 0.15,
            "architecture": 0.10
        }
    },
    "permutation_batches": [
        {
            "batch_number": 1,
            "category": "Stub Example Batch",
            "description": "Real batches will be generated after engine integration",
            "prompt_template": "{nature scenes} with {lighting} --sref [CODE]",
            "subjects": ["mountains", "forests", "lakes", "valleys", "meadows"],
            "modifiers": ["golden hour", "sunset", "dawn", "overcast", "foggy", "clear", "twilight", "storm"],
            "image_count": 40,
            "priority": "high"
        }
    ],
    "prompt_guidelines": {
        "keep_simple": true,
        "avoid_style_keywords": ["artistic", "stylized", "rendered"],
        "recommended_additions": ["lighting", "weather", "time of day"]
    }
}"###@
}

/// Handle for the local vision-language engine: the variant it runs and the
/// directory its weights live in. Loading real weights is the engine's work,
/// outside this library.
pub struct Qwen2VLInference {
    variant: ModelVariant,
    model_path: String,
}

impl Qwen2VLInference {
    /// Which variant this handle runs.
    pub closed spec fn spec_variant(&self) -> ModelVariant {
        self.variant
    }

    /// The model directory this handle was created for.
    pub closed spec fn spec_model_path(&self) -> Seq<char> {
        self.model_path@
    }

    /// Create an engine handle for a model directory. The host verifies the
    /// directory (via the cache manager's status check) before calling.
    pub fn new(model_path: String, variant: ModelVariant) -> (r: Self)
        ensures
            r.spec_variant() == variant,
            r.spec_model_path() == model_path@,
    {
        Qwen2VLInference { variant, model_path }
    }

    /// Run the engine on `num_images` images with the rendered prompt. The
    /// stub engine always answers with the fixed development response; a
    /// real engine may fail.
    #[allow(unused_variables)]
    pub fn analyze_images(&mut self, num_images: usize, prompt: &str) -> (r: Result<String, String>)
        ensures
            r matches Ok(s) && s@ == stub_response(),
            *final(self) == *old(self),
    {
        Ok(self.generate_stub_response())
    }

    /// The fixed development response, used until a real engine is wired in.
    pub fn generate_stub_response(&self) -> (r: String)
        ensures
            r@ == stub_response(),
    {
        String::from_str(
            r###"{
    "sref_code": "stub-qwen2vl",
    "style_analysis": {
        "primary_style": "Development Stub Mode",
        "era_influence": "Model downloaded successfully, inference pending implementation",
        "color_palette": ["#1E3A8A", "#3B82F6", "#60A5FA", "#93C5FD"],
        "key_characteristics": [
            "Engine integration ready",
            "Model files validated and loaded",
            "Inference pipeline needs completion"
        ],
        "best_subjects": [
            "Once engine inference is implemented, real style analysis will appear here"
        ],
        "avoid_subjects": [
            "This is stub data for testing the download and initialization flow"
        ]
    },
    "training_recommendations": {
        "recommended_dataset_size": 120,
        "optimal_subject_distribution": {
            "nature": 0.30,
            "objects": 0.25,
            "people": 0.20,
            "abstract": 0.15,
            "architecture": 0.10
        }
    },
    "permutation_batches": [
        {
            "batch_number": 1,
            "category": "Stub Example Batch",
            "description": "Real batches will be generated after engine integration",
            "prompt_template": "{nature scenes} with {lighting} --sref [CODE]",
            "subjects": ["mountains", "forests", "lakes", "valleys", "meadows"],
            "modifiers": ["golden hour", "sunset", "dawn", "overcast", "foggy", "clear", "twilight", "storm"],
            "image_count": 40,
            "priority": "high"
        }
    ],
    "prompt_guidelines": {
        "keep_simple": true,
        "avoid_style_keywords": ["artistic", "stylized", "rendered"],
        "recommended_additions": ["lighting", "weather", "time of day"]
    }
}"###,
        )
    }
}

} // verus!
