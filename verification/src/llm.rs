//! The request made to the local inference engine: its URLs, the prompt
//! that asks for a policy summary, the grammar that constrains the answer,
//! and the reading of the engine's reply.

use vstd::prelude::*;
use vstd::utf8::{encode_scalar, encode_utf8};
use crate::text::{chars_of, decimal, push_char, push_decimal, trim_str, trim_ws};

verus! {

/// Start of the address of the local inference engine.
pub const LOCAL_HOST_PREFIX: &'static str = "http://127.0.0.1:";

/// The URL of `path` on the local engine listening on `port`.
pub open spec fn local_url_of(port: u16, path: Seq<char>) -> Seq<char> {
    LOCAL_HOST_PREFIX@ + decimal(port as nat) + path
}

/// The URL of `path` on the local engine listening on `port`.
pub fn local_url(port: u16, path: &str) -> (r: String)
    ensures
        r@ == local_url_of(port, path@),
{
    let mut r = String::from_str(LOCAL_HOST_PREFIX);
    push_decimal(&mut r, port as u64);
    r.append(path);
    assert(r@ =~= local_url_of(port, path@));
    r
}

/// The grammar (GBNF) that constrains the engine to answer with exactly one
/// policy summary object.
pub const GBNF_GRAMMAR: &'static str = "root ::= PolicySummary
PolicySummary ::= \"{\" ws \"\\\"data_collected\\\":\" ws string-list \",\" ws \"\\\"data_used_for\\\":\" ws string-list \",\" ws \"\\\"shared_with_third_parties\\\":\" ws boolean \",\" ws \"\\\"third_party_details\\\":\" ws string \",\" ws \"\\\"retention_period\\\":\" ws string \",\" ws \"\\\"user_rights\\\":\" ws user-rights \",\" ws \"\\\"tracking_and_ads\\\":\" ws string \",\" ws \"\\\"arbitration_or_class_action_waiver\\\":\" ws boolean \",\" ws \"\\\"policy_clarity_notes\\\":\" ws string \"}\" ws
user-rights ::= \"{\" ws \"\\\"can_delete_data\\\":\" ws boolean \",\" ws \"\\\"can_export_data\\\":\" ws boolean \",\" ws \"\\\"can_opt_out_of_tracking\\\":\" ws boolean \"}\" ws
string-list ::= \"[\" ws ( string ( \",\" ws string )* )? \"]\" ws
string ::= \"\\\"\" ( [^\"\\\\\\x7F\\x00-\\x1F] | \"\\\\\" ( [\"\\\\/bfnrt] | \"u\" [0-9a-fA-F] [0-9a-fA-F] [0-9a-fA-F] [0-9a-fA-F] ) )* \"\\\"\" ws
boolean ::= ( \"true\" | \"false\" ) ws
ws ::= [ \\t\\n]*
";

/// The most bytes of policy text that the prompt carries.
pub const MAX_PROMPT_POLICY_BYTES: usize = 12000;

/// The prompt up to the policy text: the system instructions and the
/// start of the user turn.
pub const PROMPT_HEAD: &'static str = "<|begin_of_text|><|start_header_id|>system<|end_header_id|>\n\n\
You are an expert privacy policy analyst. Analyze the policy text provided by the user and extract key terms strictly into the specified JSON format.\n\
Key fields required:\n\
- data_collected (list of strings)\n\
- data_used_for (list of strings)\n\
- shared_with_third_parties (boolean)\n\
- third_party_details (string)\n\
- retention_period (string)\n\
- user_rights: can_delete_data (boolean), can_export_data (boolean), can_opt_out_of_tracking (boolean)\n\
- tracking_and_ads (string)\n\
- arbitration_or_class_action_waiver (boolean)\n\
- policy_clarity_notes (string)\n\n\
Output ONLY valid JSON adhering to the schema.<|eot_id|>\n\
<|start_header_id|>user<|end_header_id|>\n\n\
Policy text:\n";

/// The prompt after the policy text: the end of the user turn and the start
/// of the assistant turn.
pub const PROMPT_TAIL: &'static str = "\n<|eot_id|>\n<|start_header_id|>assistant<|end_header_id|>\n\n";

/// The number of bytes in the UTF-8 encoding of a character.
pub open spec fn utf8_width(c: char) -> nat {
    encode_scalar(c as u32).len()
}

/// The longest prefix of `t` whose UTF-8 encoding takes at most `limit`
/// bytes.
pub open spec fn prefix_within(t: Seq<char>, limit: int) -> Seq<char>
    decreases t.len(),
{
    if t.len() == 0 {
        t
    } else if utf8_width(t[0]) <= limit {
        seq![t[0]] + prefix_within(t.drop_first(), limit - utf8_width(t[0]))
    } else {
        Seq::empty()
    }
}

/// The policy text as the prompt carries it: its longest prefix that ends on
/// a character boundary at or before byte 12000, which is the whole text
/// when its UTF-8 encoding is at most 12000 bytes.
pub open spec fn kept_policy_text(t: Seq<char>) -> Seq<char> {
    prefix_within(t, MAX_PROMPT_POLICY_BYTES as int)
}

/// The prompt that asks for the summary of a policy text.
pub open spec fn analysis_prompt(t: Seq<char>) -> Seq<char> {
    PROMPT_HEAD@ + kept_policy_text(t) + PROMPT_TAIL@
}

/// The UTF-8 width of a character.
fn char_width(c: char) -> (r: usize)
    ensures
        r == utf8_width(c),
        1 <= r <= 4,
{
    let n = c as u32;
    if n <= 0x7F {
        1
    } else if n <= 0x7FF {
        2
    } else if n <= 0xFFFF && !(0xD800 <= n && n <= 0xDFFF) {
        3
    } else {
        4
    }
}

/// The longest prefix of `v` whose UTF-8 encoding takes at most `limit` bytes.
fn prefix_within_vec(v: &Vec<char>, limit: usize) -> (r: String)
    ensures
        r@ == prefix_within(v@, limit as int),
{
    let mut kept = String::new();
    let mut used: usize = 0;
    let mut i: usize = 0;
    assert(v@.skip(0) =~= v@);
    while i < v.len() && char_width(v[i]) <= limit - used
        invariant
            i <= v@.len(),
            used <= limit,
            kept@ == v@.take(i as int),
            prefix_within(v@, limit as int) == v@.take(i as int) + prefix_within(
                v@.skip(i as int),
                limit - used,
            ),
        decreases v@.len() - i,
    {
        let w = char_width(v[i]);
        let c = v[i];
        push_char(&mut kept, c);
        proof {
            let rest = v@.skip(i as int);
            assert(rest[0] == c);
            assert(rest.drop_first() =~= v@.skip(i + 1));
            assert(v@.take(i + 1) =~= v@.take(i as int).push(c));
            assert(v@.take(i as int) + (seq![c] + prefix_within(v@.skip(i + 1), limit - used - w))
                =~= v@.take(i + 1) + prefix_within(v@.skip(i + 1), limit - (used + w)));
        }
        used = used + w;
        i = i + 1;
    }
    proof {
        let rest = v@.skip(i as int);
        assert(prefix_within(rest, limit - used) =~= Seq::<char>::empty());
        assert(v@.take(i as int) + Seq::<char>::empty() =~= v@.take(i as int));
    }
    kept
}

/// Formats the prompt for the instruction-tuned model: the instructions, the
/// policy text cut to about 12000 characters (at the last character
/// boundary at or before byte 12000), and the assistant turn.
pub fn create_analysis_prompt(policy_text: &str) -> (r: String)
    ensures
        r@ == analysis_prompt(policy_text@),
{
    let v = chars_of(policy_text);
    let kept = prefix_within_vec(&v, MAX_PROMPT_POLICY_BYTES);
    let mut r = String::from_str(PROMPT_HEAD);
    r.append(kept.as_str());
    r.append(PROMPT_TAIL);
    r
}

proof fn lemma_encode_utf8_cons(c: char, rest: Seq<char>)
    ensures
        encode_utf8(seq![c] + rest) == encode_scalar(c as u32) + encode_utf8(rest),
{
    let s = seq![c] + rest;
    assert(s[0] == c);
    assert(s.drop_first() =~= rest);
}

/// The text the prompt carries is a prefix of the policy text whose UTF-8
/// encoding fits the limit; no longer prefix fits; and a text that fits is
/// carried whole.
pub proof fn law_prompt_text_is_longest_fitting_prefix(t: Seq<char>, limit: int)
    ensures
        ({
            let k = prefix_within(t, limit);
            &&& k.len() <= t.len()
            &&& k == t.take(k.len() as int)
            &&& limit >= 0 ==> encode_utf8(k).len() <= limit
            &&& k.len() < t.len() ==> encode_utf8(t.take((k.len() + 1) as int)).len() > limit
            &&& encode_utf8(t).len() <= limit ==> k == t
        }),
    decreases t.len(),
{
    let k = prefix_within(t, limit);
    if t.len() == 0 {
        assert(t.take(0) =~= t);
    } else {
        let c = t[0];
        let rest = t.drop_first();
        assert(t =~= seq![c] + rest);
        lemma_encode_utf8_cons(c, rest);
        if utf8_width(c) <= limit {
            let lim2 = limit - utf8_width(c);
            law_prompt_text_is_longest_fitting_prefix(rest, lim2);
            let k2 = prefix_within(rest, lim2);
            assert(k == seq![c] + k2);
            lemma_encode_utf8_cons(c, k2);
            assert(t.take(k.len() as int) =~= seq![c] + rest.take(k2.len() as int));
            if k.len() < t.len() {
                assert(t.take((k.len() + 1) as int) =~= seq![c] + rest.take((k2.len() + 1) as int));
                lemma_encode_utf8_cons(c, rest.take((k2.len() + 1) as int));
            }
        } else {
            assert(k.len() == 0);
            assert(t.take(0) =~= k);
            assert(t.take(1) =~= seq![c] + Seq::<char>::empty());
            lemma_encode_utf8_cons(c, Seq::<char>::empty());
            assert(encode_utf8(t).len() >= utf8_width(c));
        }
    }
}

/// The part of a completion request that the library decides: the prompt,
/// the grammar, the token budget, no streaming, and the stop markers. The
/// sampling temperature is added by the caller.
pub struct CompletionRequest {
    pub prompt: String,
    pub grammar: String,
    pub n_predict: u32,
    pub stream: bool,
    pub stop: Vec<String>,
}

/// The most tokens the engine is asked to produce.
pub const N_PREDICT: u32 = 1024;

/// The completion request for a policy text.
pub fn completion_request(policy_text: &str) -> (r: CompletionRequest)
    ensures
        r.prompt@ == analysis_prompt(policy_text@),
        r.grammar@ == GBNF_GRAMMAR@,
        r.n_predict == N_PREDICT,
        !r.stream,
        r.stop@.len() == 2,
        r.stop@[0]@ == "<|eot_id|>"@,
        r.stop@[1]@ == "<|end_of_text|>"@,
{
    let mut stop: Vec<String> = Vec::new();
    stop.push(String::from_str("<|eot_id|>"));
    stop.push(String::from_str("<|end_of_text|>"));
    CompletionRequest {
        prompt: create_analysis_prompt(policy_text),
        grammar: String::from_str(GBNF_GRAMMAR),
        n_predict: N_PREDICT,
        stream: false,
        stop,
    }
}

/// The fields of the engine's reply that may hold the generated text: the
/// `content` field, and the `text` field of the first of `choices`.
pub struct CompletionBody {
    pub content: Option<String>,
    pub first_choice_text: Option<String>,
}

/// The generated text of a reply, without leading or trailing white space:
/// `content` where present, else the text of the first choice.
pub fn completion_content(body: CompletionBody) -> (r: Option<String>)
    ensures
        match body.content {
            Some(c) => r matches Some(x) && x@ == trim_ws(c@),
            None => match body.first_choice_text {
                Some(t) => r matches Some(x) && x@ == trim_ws(t@),
                None => r is None,
            },
        },
{
    match body.content {
        Some(c) => Some(trim_str(c.as_str())),
        None => match body.first_choice_text {
            Some(t) => Some(trim_str(t.as_str())),
            None => None,
        },
    }
}

/// Start of the message for an engine that is not ready.
pub const MSG_NOT_READY_HEAD: &'static str = "Local inference sidecar (llama-server) is not ready on port ";

/// End of the message for an engine that is not ready.
pub const MSG_NOT_READY_TAIL: &'static str = ". Please verify the model and engine are running.";

/// The message given when the engine on `port` does not answer its health check.
pub fn sidecar_not_ready_message(port: u16) -> (r: String)
    ensures
        r@ == MSG_NOT_READY_HEAD@ + decimal(port as nat) + MSG_NOT_READY_TAIL@,
{
    let mut r = String::from_str(MSG_NOT_READY_HEAD);
    push_decimal(&mut r, port as u64);
    r.append(MSG_NOT_READY_TAIL);
    r
}


/// Inference stays on the machine: every URL the library builds for the
/// inference engine points at the loopback address.
pub proof fn law_inference_stays_local(port: u16, path: Seq<char>)
    ensures
        crate::text::is_prefix_of("http://127.0.0.1:"@, local_url_of(port, path)),
{
    let u = local_url_of(port, path);
    assert(u.subrange(0, LOCAL_HOST_PREFIX@.len() as int) =~= LOCAL_HOST_PREFIX@);
}

} // verus!
