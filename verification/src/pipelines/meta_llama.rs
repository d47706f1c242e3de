//! The strategy for models that mark a call as
//! `<function=NAME>ARGUMENTS</function>`.

use crate::chat::{
    assistant_envelope, ChatMessage, ChatMessageResponse, ChatMessageResponseView, ChatMessageView,
    MessageRole,
};
use crate::error::{description_of, OllamaError, OllamaErrorView};
use crate::json::{
    array_value, decode, encode, json_array, json_decoded, json_entries, json_object, json_quoted,
    json_text, json_texts, object_value, string_value,
};
use crate::matcher::{
    captures, captures_iter, matched_in, regex_captures, regex_first_capture, Groups,
};
use crate::pipelines::{answers_call, find_tool, CallView, PlannedCall, RequestParserBase};
use crate::text::{
    chars_of, lemma_front_occurs, lemma_replaced_adds_nothing,
    lemma_replaced_at_first_occurrence, lemma_replaced_without_occurrence,
    lemma_trimmed_adds_nothing, lemma_without_prefixes_adds_nothing,
    lemma_without_suffixes_adds_nothing, occurs_at, occurs_in, replace, replaced, starts_with,
    string_of, trim, trim_end_matches, trim_start_matches, trimmed, without_prefixes,
    without_suffixes,
};
use crate::tools::{tools_view, ToolDescriptor, ToolDescriptorView, Toolbox};
use vstd::prelude::*;
use vstd::string::StringExecFns;

verus! {

/// The system prompt that teaches a model the tools and the call format;
/// `{tools}` stands where the tool descriptions go.
pub const DEFAULT_SYSTEM_TEMPLATE: &'static str =
    "\nYou have access to the following functions:\n{tools}\nIf you choose to call a function ONLY reply in the following format with no prefix or suffix:\n\n<function=example_function_name>{{\"example_name\": \"example_value\"}}</function>\n\nReminder:\n- Function calls MUST follow the specified format, start with <function= and end with </function>\n- Required parameters MUST be specified\n- Only call one function at a time\n- Put the entire function call reply on one line\n- If there is no function call available, answer the question like normal with your current knowledge and do not tell the user about function calls\n";

/// The pattern of one call in a reply: the function's name in group 1,
/// the text of its arguments, which may span lines, in group 2.
pub const FUNCTION_TAG_PATTERN: &'static str = "(?s)<function=(\\w+)>(.*?)</function>";

/// One call that a model asked for.
#[derive(Debug)]
pub struct LlamaFunctionCallSignature {
    /// The name of the tool.
    pub function: String,
    pub arguments: serde_json::Value,
}

impl View for LlamaFunctionCallSignature {
    type V = CallView;

    open spec fn view(&self) -> CallView {
        CallView { function: self.function@, arguments: json_text(self.arguments) }
    }
}

/// The views of `calls`, in order.
pub open spec fn calls_view(calls: Seq<LlamaFunctionCallSignature>) -> Seq<CallView> {
    calls.map_values(|c: LlamaFunctionCallSignature| c@)
}

/// A reply made ready for the search: trimmed, without a leading
/// "```json" fence and a trailing "```" fence, trimmed again, and with
/// doubled braces made single.
pub open spec fn cleaned(reply: Seq<char>) -> Seq<char> {
    let unfenced = without_suffixes(without_prefixes(trimmed(reply), "```json"@), "```"@);
    replaced(replaced(trimmed(unfenced), "{{"@, "{"@), "}}"@, "}"@)
}

/// The text of the call of `name` with the argument text `payload`, as
/// it stands in a reply.
pub open spec fn tag_text(name: Seq<char>, payload: Seq<char>) -> Seq<char> {
    "<function="@ + name + ">"@ + payload + "</function>"@
}

/// The name and the argument text that the groups of one match hold, if
/// both groups took part in it and the whole match is the tag made of
/// them.
pub open spec fn tag_of(groups: Seq<Option<Seq<char>>>) -> Option<(Seq<char>, Seq<char>)> {
    if groups.len() > 2 && groups[1] is Some && groups[2] is Some && groups[0] == Some(
        tag_text(groups[1]->0, groups[2]->0),
    ) {
        Some((groups[1]->0, groups[2]->0))
    } else {
        None
    }
}

/// Whether `call` stands in `text` as a tag: the tag of the call's name
/// with an argument text that decodes to the call's arguments.
pub open spec fn stands_as_call(text: Seq<char>, call: CallView) -> bool {
    exists|payload: Seq<char>|
        json_decoded(payload) == Some(call.arguments) && occurs_in(
            text,
            #[trigger] tag_text(call.function, payload),
        )
}

/// Whether the opening of a tag, `<function=`, stands in `text`.
pub open spec fn opens_a_tag(text: Seq<char>) -> bool {
    occurs_in(text, "<function="@)
}

/// The call that one match stands for: `Parse` where the match has no name
/// and argument text, `MalformedCallPayload` where the argument text does
/// not decode.
pub open spec fn call_of(groups: Seq<Option<Seq<char>>>) -> Result<CallView, OllamaErrorView> {
    match tag_of(groups) {
        None => Err(OllamaErrorView::Parse),
        Some((name, payload)) => match json_decoded(payload) {
            None => Err(OllamaErrorView::MalformedCallPayload),
            Some(arguments) => Ok(CallView { function: name, arguments }),
        },
    }
}

/// The calls that a list of matches stands for, in the order of the
/// matches; a match that stands for none is passed over.
pub open spec fn calls_of(matches: Seq<Seq<Option<Seq<char>>>>) -> Seq<CallView>
    decreases matches.len(),
{
    if matches.len() == 0 {
        Seq::empty()
    } else {
        let earlier = calls_of(matches.drop_last());
        match call_of(matches.last()) {
            Ok(call) => earlier.push(call),
            Err(_) => earlier,
        }
    }
}

/// All matches of the call pattern in `text`.
pub open spec fn tags_in(text: Seq<char>) -> Seq<Seq<Option<Seq<char>>>> {
    match regex_captures(FUNCTION_TAG_PATTERN@, text) {
        Some(matches) => matches,
        None => Seq::empty(),
    }
}

/// The first match of the call pattern in `text`.
pub open spec fn first_tag_in(text: Seq<char>) -> Option<Seq<Option<Seq<char>>>> {
    match regex_first_capture(FUNCTION_TAG_PATTERN@, text) {
        Some(Some(groups)) => Some(groups),
        _ => None,
    }
}

/// The call that the first match in `text` stands for; `Parse` where
/// nothing matches.
pub open spec fn first_call_in(text: Seq<char>) -> Result<CallView, OllamaErrorView> {
    match first_tag_in(text) {
        None => Err(OllamaErrorView::Parse),
        Some(groups) => call_of(groups),
    }
}

/// The call of `name` whose argument text was decoded with the outcome
/// `decoded`: `MalformedCallPayload` where it did not decode.
pub fn signature_from(name: String, decoded: Option<serde_json::Value>) -> (call: Result<
    LlamaFunctionCallSignature,
    OllamaError,
>)
    ensures
        match decoded {
            Some(arguments) => call matches Ok(signature) && signature@ == (CallView {
                function: name@,
                arguments: json_text(arguments),
            }),
            None => call matches Err(error) && error@ == OllamaErrorView::MalformedCallPayload,
        },
{
    match decoded {
        Some(arguments) => Ok(LlamaFunctionCallSignature { function: name, arguments }),
        None => Err(OllamaError::MalformedCallPayload),
    }
}

/// Reads the call that the groups of one match stand for. The whole
/// match is held against the tag made of the name and the argument text:
/// a match that is no such tag stands for no call.
pub fn signature_of(groups: &Groups) -> (call: Result<LlamaFunctionCallSignature, OllamaError>)
    ensures
        match call {
            Ok(signature) => call_of(groups.deep_view()) == Ok::<CallView, OllamaErrorView>(
                signature@,
            ),
            Err(error) => call_of(groups.deep_view()) == Err::<CallView, OllamaErrorView>(error@),
        },
{
    assert(groups.deep_view().len() == groups@.len());
    if groups.len() <= 2 {
        return Err(OllamaError::Parse);
    }
    assert(groups.deep_view()[0] == groups@[0].deep_view());
    assert(groups.deep_view()[1] == groups@[1].deep_view());
    assert(groups.deep_view()[2] == groups@[2].deep_view());
    match (&groups[0], &groups[1], &groups[2]) {
        (Some(whole), Some(name), Some(payload)) => {
            let mut tag = String::from_str("<function=");
            tag.append(name.as_str());
            tag.append(">");
            tag.append(payload.as_str());
            tag.append("</function>");
            if *whole == tag {
                signature_from(name.clone(), decode(payload.as_str()))
            } else {
                Err(OllamaError::Parse)
            }
        },
        _ => Err(OllamaError::Parse),
    }
}

/// Reads the calls that a list of matches stands for, passing over each
/// match that stands for none.
pub fn collect_signatures(matches: &Vec<Groups>) -> (calls: Vec<LlamaFunctionCallSignature>)
    ensures
        calls_view(calls@) == calls_of(matches.deep_view()),
{
    let mut calls: Vec<LlamaFunctionCallSignature> = Vec::new();
    let mut i: usize = 0;
    assert(matches.deep_view().take(0) =~= Seq::empty());
    assert(calls_view(calls@) =~= Seq::empty());
    while i < matches.len()
        invariant
            i <= matches.len(),
            matches.deep_view().len() == matches.len(),
            calls_view(calls@) == calls_of(matches.deep_view().take(i as int)),
        decreases matches.len() - i,
    {
        let ghost before = calls@;
        let ghost seen = matches.deep_view().take(i + 1);
        assert(seen.drop_last() =~= matches.deep_view().take(i as int));
        assert(seen.last() == matches@[i as int].deep_view());
        match signature_of(&matches[i]) {
            Ok(signature) => {
                calls.push(signature);
                assert(calls_view(calls@) =~= calls_view(before).push(signature@));
            },
            Err(_) => {},
        }
        i += 1;
    }
    assert(matches.deep_view().take(i as int) =~= matches.deep_view());
    calls
}

/// The JSON object that describes `tool`.
pub open spec fn tool_object(tool: ToolDescriptorView) -> Seq<char> {
    json_object(
        seq![
            ("name"@, json_quoted(tool.name)),
            ("description"@, json_quoted(tool.description)),
            ("parameters"@, tool.parameters),
        ],
    )
}

/// The sentence that presents `tool` to the model: name and description
/// as they are, then the describing object.
pub open spec fn tool_line(tool: ToolDescriptorView) -> Seq<char> {
    "Use the function '"@ + tool.name + "' to '"@ + tool.description + "': "@ + tool_object(tool)
}

/// The JSON array of the sentences that present `tools`, in order.
pub open spec fn tool_lines_json(tools: Seq<ToolDescriptorView>) -> Seq<char> {
    json_array(tools.map_values(|t: ToolDescriptorView| json_quoted(tool_line(t))))
}

/// The system prompt with `tools_json` in the place of `{tools}`.
pub open spec fn system_prompt(tools_json: Seq<char>) -> Seq<char> {
    replaced(DEFAULT_SYSTEM_TEMPLATE@, "{tools}"@, tools_json)
}

/// The finished envelope that reports `error`: it names no model and
/// carries the error's description as the assistant's word.
pub open spec fn failure_envelope(error: OllamaErrorView) -> ChatMessageResponseView {
    assistant_envelope(Seq::empty(), description_of(error))
}

/// Presents `tool` to the model: the JSON string that holds the
/// sentence "Use the function 'NAME' to 'DESCRIPTION': OBJECT".
pub fn convert_to_llama_tool(tool: &ToolDescriptor) -> (line: serde_json::Value)
    ensures
        json_text(line) == json_quoted(tool_line(tool@)),
{
    let mut function: Vec<(String, serde_json::Value)> = Vec::new();
    function.push((String::from_str("name"), string_value(tool.name.as_str())));
    function.push((String::from_str("description"), string_value(tool.description.as_str())));
    function.push((String::from_str("parameters"), tool.parameters.clone()));
    assert(json_entries(function@) =~= seq![
        ("name"@, json_quoted(tool@.name)),
        ("description"@, json_quoted(tool@.description)),
        ("parameters"@, tool@.parameters),
    ]);
    let object = object_value(function);
    let mut sentence = String::from_str("Use the function '");
    sentence.append(tool.name.as_str());
    sentence.append("' to '");
    sentence.append(tool.description.as_str());
    sentence.append("': ");
    sentence.append(encode(&object).as_str());
    string_value(sentence.as_str())
}

/// The system message that teaches the model the tools described by
/// `tools_info`.
pub fn system_message(tools_info: &serde_json::Value) -> (message: ChatMessage)
    ensures
        message@ == (ChatMessageView {
            role: MessageRole::System,
            content: system_prompt(json_text(*tools_info)),
        }),
{
    let tools_json = encode(tools_info);
    let content = replace(
        &chars_of(DEFAULT_SYSTEM_TEMPLATE),
        &chars_of("{tools}"),
        &chars_of(tools_json.as_str()),
    );
    ChatMessage::system(string_of(content.as_slice()))
}

/// A match in a text that holds a tag holds a tag of that text: the tag
/// stands in the text, and so does the opening of a tag. Where the match
/// stands for a call, the call stands in the text as that tag.
pub proof fn lemma_tag_stands_in_text(groups: Seq<Option<Seq<char>>>, text: Seq<char>)
    requires
        matched_in(groups, text),
        tag_of(groups) is Some,
    ensures
        tag_of(groups) matches Some(tag) && occurs_in(text, tag_text(tag.0, tag.1)),
        opens_a_tag(text),
        call_of(groups) matches Ok(call) ==> stands_as_call(text, call),
{
    let (name, payload) = tag_of(groups)->0;
    assert(occurs_in(text, tag_text(name, payload)));
    assert(starts_with(tag_text(name, payload), "<function="@)) by {
        assert(tag_text(name, payload).subrange(0, "<function="@.len() as int) =~= "<function="@);
    }
    lemma_front_occurs(text, tag_text(name, payload), "<function="@);
    if let Ok(call) = call_of(groups) {
        assert(json_decoded(payload) == Some(call.arguments));
        assert(occurs_in(text, tag_text(call.function, payload)));
    }
}

/// Every call that is read from the matches in a text stands in that
/// text as a tag; a text without the opening of a tag holds no call.
pub proof fn lemma_calls_stand_in_text(matches: Seq<Seq<Option<Seq<char>>>>, text: Seq<char>)
    requires
        forall|k: int| 0 <= k < matches.len() ==> matched_in(#[trigger] matches[k], text),
    ensures
        forall|i: int|
            0 <= i < calls_of(matches).len() ==> stands_as_call(
                text,
                #[trigger] calls_of(matches)[i],
            ),
        !opens_a_tag(text) ==> calls_of(matches).len() == 0,
    decreases matches.len(),
{
    if matches.len() > 0 {
        let earlier = matches.drop_last();
        assert forall|k: int| 0 <= k < earlier.len() implies matched_in(
            #[trigger] earlier[k],
            text,
        ) by {
            assert(earlier[k] == matches[k]);
        }
        lemma_calls_stand_in_text(earlier, text);
        assert(matched_in(matches[matches.len() - 1], text));
        if tag_of(matches.last()) is Some {
            lemma_tag_stands_in_text(matches.last(), text);
        }
        assert forall|i: int| 0 <= i < calls_of(matches).len() implies stands_as_call(
            text,
            #[trigger] calls_of(matches)[i],
        ) by {
            if i < calls_of(earlier).len() {
                assert(calls_of(matches)[i] == calls_of(earlier)[i]);
            }
        }
    }
}

/// Cleaning a reply opens no tag: where `<function=` stands in the
/// cleaned reply, it stood in the reply.
pub proof fn lemma_cleaning_opens_no_tag(reply: Seq<char>)
    requires
        opens_a_tag(cleaned(reply)),
    ensures
        opens_a_tag(reply),
{
    reveal_strlit("<function=");
    reveal_strlit("{");
    reveal_strlit("}");
    let opening = "<function="@;
    let first = trimmed(reply);
    let unfenced = without_suffixes(without_prefixes(first, "```json"@), "```"@);
    let second = trimmed(unfenced);
    let single = replaced(second, "{{"@, "{"@);
    lemma_replaced_adds_nothing(single, "}}"@, "}"@, opening);
    lemma_replaced_adds_nothing(second, "{{"@, "{"@, opening);
    lemma_trimmed_adds_nothing(unfenced, opening);
    lemma_without_suffixes_adds_nothing(without_prefixes(first, "```json"@), "```"@, opening);
    lemma_without_prefixes_adds_nothing(first, "```json"@, opening);
    lemma_trimmed_adds_nothing(reply, opening);
}

/// The sentence that presents a tool holds the tool's name and its
/// description whole and as they are: the name behind the eighteen
/// characters of "Use the function '", the description six characters
/// behind the name, and the describing object three characters behind
/// the description, up to the end.
pub proof fn lemma_tool_line_keeps_descriptor(tool: ToolDescriptorView)
    ensures
        ({
            let line = tool_line(tool);
            let n = tool.name.len() as int;
            let d = tool.description.len() as int;
            &&& line.len() == 27 + n + d + tool_object(tool).len()
            &&& line.subrange(18, 18 + n) == tool.name
            &&& line.subrange(24 + n, 24 + n + d) == tool.description
            &&& line.skip(27 + n + d) == tool_object(tool)
        }),
{
    reveal_strlit("Use the function '");
    reveal_strlit("' to '");
    reveal_strlit("': ");
    let line = tool_line(tool);
    let n = tool.name.len() as int;
    let d = tool.description.len() as int;
    assert(line.subrange(18, 18 + n) =~= tool.name);
    assert(line.subrange(24 + n, 24 + n + d) =~= tool.description);
    assert(line.skip(27 + n + d) =~= tool_object(tool));
}

/// The calls of two lists of matches, one behind the other, are the
/// calls of the first followed by the calls of the second.
pub proof fn lemma_calls_of_concat(
    first: Seq<Seq<Option<Seq<char>>>>,
    second: Seq<Seq<Option<Seq<char>>>>,
)
    ensures
        calls_of(first + second) == calls_of(first) + calls_of(second),
    decreases second.len(),
{
    if second.len() == 0 {
        assert(first + second =~= first);
        assert(calls_of(first) + calls_of(second) =~= calls_of(first));
    } else {
        assert((first + second).drop_last() =~= first + second.drop_last());
        assert((first + second).last() == second.last());
        lemma_calls_of_concat(first, second.drop_last());
        match call_of(second.last()) {
            Ok(call) => {
                assert((calls_of(first) + calls_of(second.drop_last())).push(call) =~= calls_of(
                    first,
                ) + calls_of(second.drop_last()).push(call));
            },
            Err(_) => {},
        }
    }
}

/// A match that stands for one call is read as that call.
pub proof fn lemma_calls_of_one(groups: Seq<Option<Seq<char>>>)
    ensures
        calls_of(seq![groups]) == match call_of(groups) {
            Ok(call) => seq![call],
            Err(_) => Seq::<CallView>::empty(),
        },
{
    let one = seq![groups];
    assert(one.drop_last() =~= Seq::empty());
    assert(calls_of(one.drop_last()) =~= Seq::empty());
    match call_of(groups) {
        Ok(call) => {
            assert(Seq::<CallView>::empty().push(call) =~= seq![call]);
        },
        Err(_) => {},
    }
}

/// A reply whose one match holds a name and an argument text that decodes
/// is read as exactly one call, of that name with the decoded arguments,
/// by the reading of the first call and by the reading of all calls
/// alike.
pub proof fn lemma_well_formed_tag_is_read(
    text: Seq<char>,
    groups: Seq<Option<Seq<char>>>,
    name: Seq<char>,
    payload: Seq<char>,
    arguments: Seq<char>,
)
    requires
        first_tag_in(text) == Some(groups),
        tags_in(text) == seq![groups],
        tag_of(groups) == Some((name, payload)),
        json_decoded(payload) == Some(arguments),
    ensures
        first_call_in(text) == Ok::<CallView, OllamaErrorView>(
            CallView { function: name, arguments },
        ),
        calls_of(tags_in(text)) == seq![CallView { function: name, arguments }],
{
    lemma_calls_of_one(groups);
}

/// A match that stands for no call is passed over: the calls read are
/// those of the matches before it followed by those of the matches
/// behind it, and no other match is lost with it.
pub proof fn lemma_malformed_match_is_skipped(
    before: Seq<Seq<Option<Seq<char>>>>,
    malformed: Seq<Option<Seq<char>>>,
    behind: Seq<Seq<Option<Seq<char>>>>,
)
    requires
        call_of(malformed) is Err,
    ensures
        calls_of(before + seq![malformed] + behind) == calls_of(before) + calls_of(behind),
        calls_of(before + seq![malformed] + behind) == calls_of(before + behind),
{
    lemma_calls_of_one(malformed);
    lemma_calls_of_concat(before, seq![malformed]);
    lemma_calls_of_concat(before + seq![malformed], behind);
    lemma_calls_of_concat(before, behind);
    assert(calls_of(before) + Seq::<CallView>::empty() =~= calls_of(before));
}

/// Where every match stands for a call, as many calls are read as there
/// are matches, each from its own match, in the order of the matches.
pub proof fn lemma_well_formed_matches_are_kept(matches: Seq<Seq<Option<Seq<char>>>>)
    requires
        forall|i: int| 0 <= i < matches.len() ==> call_of(#[trigger] matches[i]) is Ok,
    ensures
        calls_of(matches).len() == matches.len(),
        forall|i: int|
            0 <= i < matches.len() ==> call_of(#[trigger] matches[i]) == Ok::<
                CallView,
                OllamaErrorView,
            >(calls_of(matches)[i]),
    decreases matches.len(),
{
    if matches.len() > 0 {
        let earlier = matches.drop_last();
        assert forall|i: int| 0 <= i < earlier.len() implies call_of(
            #[trigger] earlier[i],
        ) is Ok by {
            assert(earlier[i] == matches[i]);
        }
        lemma_well_formed_matches_are_kept(earlier);
        assert forall|i: int| 0 <= i < matches.len() implies call_of(#[trigger] matches[i])
            == Ok::<CallView, OllamaErrorView>(calls_of(matches)[i]) by {
            if i < earlier.len() {
                assert(earlier[i] == matches[i]);
            }
        }
    }
}

/// Of three matches of which one stands for no call and the two others
/// each for one, exactly two calls are read: those of the two others, in
/// their order.
pub proof fn lemma_two_of_three_are_read(matches: Seq<Seq<Option<Seq<char>>>>, malformed: int)
    requires
        matches.len() == 3,
        0 <= malformed < 3,
        call_of(matches[malformed]) is Err,
        forall|i: int| 0 <= i < 3 && i != malformed ==> call_of(#[trigger] matches[i]) is Ok,
    ensures
        calls_of(matches).len() == 2,
        calls_of(matches) == calls_of(matches.remove(malformed)),
        forall|i: int|
            0 <= i < 2 ==> call_of(#[trigger] matches.remove(malformed)[i]) == Ok::<
                CallView,
                OllamaErrorView,
            >(calls_of(matches)[i]),
{
    let before = matches.take(malformed);
    let behind = matches.skip(malformed + 1);
    let others = matches.remove(malformed);
    assert(matches =~= before + seq![matches[malformed]] + behind);
    assert(others =~= before + behind);
    lemma_malformed_match_is_skipped(before, matches[malformed], behind);
    assert forall|i: int| 0 <= i < others.len() implies call_of(#[trigger] others[i]) is Ok by {
        if i < malformed {
            assert(others[i] == matches[i]);
        } else {
            assert(others[i] == matches[i + 1]);
        }
    }
    lemma_well_formed_matches_are_kept(others);
}

/// A reply without a match holds no call: the reading of the first call
/// reports `Parse`, and the reading of all calls finds none.
pub proof fn lemma_no_tag_no_call(text: Seq<char>)
    requires
        first_tag_in(text) is None,
        tags_in(text).len() == 0,
    ensures
        first_call_in(text) == Err::<CallView, OllamaErrorView>(OllamaErrorView::Parse),
        calls_of(tags_in(text)).len() == 0,
{
}

/// Every error is reported in a finished envelope: `done` is set, no
/// model is named, and the assistant's message is the error's
/// description.
pub proof fn lemma_failure_is_reported_finished(error: OllamaErrorView)
    ensures
        failure_envelope(error).done,
        failure_envelope(error).model.len() == 0,
        failure_envelope(error).message == Some(
            ChatMessageView { role: MessageRole::Assistant, content: description_of(error) },
        ),
{
}

/// The system prompt is the template with `tools_json` in the place of
/// `{tools}`: what the template has before and behind the placeholder
/// stays as it is, and the description stands whole between them.
pub proof fn lemma_system_prompt_holds_tools(tools_json: Seq<char>)
    ensures
        system_prompt(tools_json) == DEFAULT_SYSTEM_TEMPLATE@.take(45) + tools_json
            + DEFAULT_SYSTEM_TEMPLATE@.skip(52),
{
    reveal_strlit(
        "\nYou have access to the following functions:\n{tools}\nIf you choose to call a function ONLY reply in the following format with no prefix or suffix:\n\n<function=example_function_name>{{\"example_name\": \"example_value\"}}</function>\n\nReminder:\n- Function calls MUST follow the specified format, start with <function= and end with </function>\n- Required parameters MUST be specified\n- Only call one function at a time\n- Put the entire function call reply on one line\n- If there is no function call available, answer the question like normal with your current knowledge and do not tell the user about function calls\n",
    );
    reveal_strlit("{tools}");
    let template = DEFAULT_SYSTEM_TEMPLATE@;
    let from = "{tools}"@;
    assert(occurs_at(template, 45, from)) by {
        assert(template.subrange(45, 52) =~= from);
    }
    assert forall|i: int| 0 <= i < 45 implies !occurs_at(template, i, from) by {
        if occurs_at(template, i, from) {
            assert(template.subrange(i, i + 7)[0] == from[0]);
        }
    }
    lemma_replaced_at_first_occurrence(template, from, tools_json, 45);
    let tail = template.skip(52);
    assert forall|i: int| 0 <= i <= tail.len() implies !occurs_at(tail, i, from) by {
        if occurs_at(tail, i, from) {
            assert(tail.subrange(i, i + 7)[0] == from[0]);
            assert(tail.subrange(i, i + 7)[1] == from[1]);
        }
    }
    lemma_replaced_without_occurrence(tail, from, tools_json);
}

/// The system prompt that presents one tool is the template with the
/// tool's sentence, as a JSON string in square brackets, in the place of
/// `{tools}`.
pub proof fn lemma_system_prompt_of_one_tool(tool: ToolDescriptorView)
    ensures
        system_prompt(tool_lines_json(seq![tool])) == DEFAULT_SYSTEM_TEMPLATE@.take(45) + "["@
            + json_quoted(tool_line(tool)) + "]"@ + DEFAULT_SYSTEM_TEMPLATE@.skip(52),
{
    let lines = seq![tool].map_values(|t: ToolDescriptorView| json_quoted(tool_line(t)));
    assert(lines =~= seq![json_quoted(tool_line(tool))]);
    assert(json_array(lines) =~= "["@ + json_quoted(tool_line(tool)) + "]"@);
    lemma_system_prompt_holds_tools(tool_lines_json(seq![tool]));
    assert(DEFAULT_SYSTEM_TEMPLATE@.take(45) + ("["@ + json_quoted(tool_line(tool)) + "]"@)
        + DEFAULT_SYSTEM_TEMPLATE@.skip(52) =~= DEFAULT_SYSTEM_TEMPLATE@.take(45) + "["@
        + json_quoted(tool_line(tool)) + "]"@ + DEFAULT_SYSTEM_TEMPLATE@.skip(52));
}

/// The strategy itself. It holds nothing: every answer depends on the
/// arguments alone.
pub struct LlamaFunctionCall {}

impl LlamaFunctionCall {
    /// Makes a reply ready for the search: trims it, takes a leading
    /// "```json" and a trailing "```" away, trims again, and makes doubled
    /// braces single.
    pub fn clean_tool_call(&self, json_str: &str) -> (clean: String)
        ensures
            clean@ == cleaned(json_str@),
    {
        let text = trim(&chars_of(json_str));
        let text = trim_start_matches(&text, &chars_of("```json"));
        let text = trim_end_matches(&text, &chars_of("```"));
        let text = trim(&text);
        let text = replace(&text, &chars_of("{{"), &chars_of("{"));
        let text = replace(&text, &chars_of("}}"), &chars_of("}"));
        string_of(text.as_slice())
    }

    /// Reads every call in `response`, which has been cleaned. `None`
    /// where no match stands for a call. Every call that is read stands
    /// in `response` as a tag, so a text without `<function=` gives
    /// `None`.
    pub fn parse_llama_tool_response(&self, response: &str) -> (calls: Option<
        Vec<LlamaFunctionCallSignature>,
    >)
        ensures
            match calls {
                Some(found) => found@.len() > 0 && calls_view(found@) == calls_of(
                    tags_in(response@),
                ),
                None => calls_of(tags_in(response@)).len() == 0,
            },
            calls matches Some(found) ==> forall|i: int|
                0 <= i < found.len() ==> stands_as_call(response@, (#[trigger] found[i])@),
            !opens_a_tag(response@) ==> calls is None,
    {
        let signatures = match captures_iter(FUNCTION_TAG_PATTERN, response) {
            Some(matches) => {
                proof {
                    lemma_calls_stand_in_text(matches.deep_view(), response@);
                }
                collect_signatures(&matches)
            },
            None => Vec::new(),
        };
        assert(calls_view(signatures@).len() == signatures@.len());
        assert forall|i: int| 0 <= i < signatures.len() implies stands_as_call(
            response@,
            (#[trigger] signatures[i])@,
        ) by {
            assert(calls_view(signatures@)[i] == signatures[i]@);
        }
        if signatures.is_empty() {
            None
        } else {
            Some(signatures)
        }
    }

    /// Reads the first call in `response`, which has been cleaned, and
    /// says why where there is none to read: `Parse` where nothing
    /// matches, `MalformedCallPayload` where the first match has arguments
    /// that do not decode. A later match is not tried. A call that is read
    /// stands in `response` as a tag, so a text without `<function=` gives
    /// `Parse`.
    pub fn parse_tool_response(&self, response: &str) -> (call: Result<
        LlamaFunctionCallSignature,
        OllamaError,
    >)
        ensures
            match call {
                Ok(signature) => first_call_in(response@) == Ok::<CallView, OllamaErrorView>(
                    signature@,
                ),
                Err(error) => first_call_in(response@) == Err::<CallView, OllamaErrorView>(
                    error@,
                ),
            },
            call matches Ok(signature) ==> stands_as_call(response@, signature@),
            !opens_a_tag(response@) ==> (call matches Err(error) && error@
                == OllamaErrorView::Parse),
    {
        match captures(FUNCTION_TAG_PATTERN, response) {
            Some(Some(groups)) => {
                proof {
                    if tag_of(groups.deep_view()) is Some {
                        lemma_tag_stands_in_text(groups.deep_view(), response@);
                    }
                }
                signature_of(&groups)
            },
            _ => Err(OllamaError::Parse),
        }
    }

    /// Wraps the outcome of running a tool of a toolbox: the result's
    /// JSON text as the assistant's answer for `model_name`, or the report
    /// of the failure with its cause.
    pub fn toolbox_call_with_history(
        &self,
        model_name: String,
        outcome: Result<serde_json::Value, String>,
    ) -> (answer: Result<ChatMessageResponse, ChatMessageResponse>)
        ensures
            match outcome {
                Ok(result) => answer matches Ok(envelope) && envelope@ == assistant_envelope(
                    model_name@,
                    json_text(result),
                ),
                Err(cause) => answer matches Err(envelope) && envelope@ == failure_envelope(
                    OllamaErrorView::ToolExecution(cause@),
                ),
            },
    {
        match outcome {
            Ok(result) => Ok(ChatMessageResponse::assistant(model_name, encode(&result))),
            Err(cause) => Err(self.error_handler(OllamaError::ToolExecution(cause))),
        }
    }

    /// Wraps the outcome of running a tool of a tool list: the result's
    /// JSON text as the assistant's answer for `model_name`, or the report
    /// of the failure with its cause.
    pub fn function_call_with_history(
        &self,
        model_name: String,
        outcome: Result<serde_json::Value, String>,
    ) -> (answer: Result<ChatMessageResponse, ChatMessageResponse>)
        ensures
            match outcome {
                Ok(result) => answer matches Ok(envelope) && envelope@ == assistant_envelope(
                    model_name@,
                    json_text(result),
                ),
                Err(cause) => answer matches Err(envelope) && envelope@ == failure_envelope(
                    OllamaErrorView::ToolExecution(cause@),
                ),
            },
    {
        match outcome {
            Ok(result) => Ok(ChatMessageResponse::assistant(model_name, encode(&result))),
            Err(cause) => Err(self.error_handler(OllamaError::ToolExecution(cause))),
        }
    }
}

impl RequestParserBase for LlamaFunctionCall {
    open spec fn first_call(&self, input: Seq<char>) -> Result<CallView, OllamaErrorView> {
        first_call_in(cleaned(input))
    }

    open spec fn calls(&self, content: Seq<char>) -> Seq<CallView> {
        calls_of(tags_in(cleaned(content)))
    }

    open spec fn prompt(&self, tools_json: Seq<char>) -> Seq<char> {
        system_prompt(tools_json)
    }

    open spec fn tools_json(&self, tools: Seq<ToolDescriptorView>) -> Seq<char> {
        tool_lines_json(tools)
    }

    open spec fn report(&self, error: OllamaErrorView) -> ChatMessageResponseView {
        failure_envelope(error)
    }

    /// Reads the first call in `input` and finds its tool: `Parse` where
    /// nothing matches, `MalformedCallPayload` where the arguments of the
    /// first match do not decode, `ToolNotFound` where no tool has the
    /// call's name.
    fn plan(&self, input: &str, model_name: String, tools: &Vec<ToolDescriptor>) -> (planned:
        Result<PlannedCall, OllamaError>)
        ensures
            !opens_a_tag(input@) ==> (planned matches Err(error) && error@
                == OllamaErrorView::Parse),
    {
        proof {
            if opens_a_tag(cleaned(input@)) {
                lemma_cleaning_opens_no_tag(input@);
            }
        }
        let response = self.parse_tool_response(self.clean_tool_call(input).as_str())?;
        match find_tool(tools, &response.function) {
            Some(at) => Ok(PlannedCall { model_name, tool: at, arguments: response.arguments }),
            None => Err(OllamaError::ToolNotFound),
        }
    }

    /// Reads the first call in `input` and finds its tool. The error
    /// envelope says "Error parsing function call" where no call can be
    /// read, "Tool not found" where no tool has the call's name.
    fn parse(&self, input: &str, model_name: String, tools: &Vec<ToolDescriptor>) -> (planned:
        Result<PlannedCall, ChatMessageResponse>)
        ensures
            !opens_a_tag(input@) ==> (planned matches Err(envelope) && envelope@
                == failure_envelope(OllamaErrorView::Parse)),
    {
        proof {
            if opens_a_tag(cleaned(input@)) {
                lemma_cleaning_opens_no_tag(input@);
            }
        }
        let response_value = self.parse_tool_response(self.clean_tool_call(input).as_str());
        match response_value {
            Ok(response) => match find_tool(tools, &response.function) {
                Some(at) => Ok(
                    PlannedCall { model_name, tool: at, arguments: response.arguments },
                ),
                None => Err(self.error_handler(OllamaError::ToolNotFound)),
            },
            Err(error) => Err(self.error_handler(error)),
        }
    }

    /// Reads every call in `tool_call_content` and invokes each on
    /// `toolbox`, in the order of the calls. Whatever the toolbox returns
    /// for a call, its JSON text is the assistant's answer in that call's
    /// envelope. Where no call can be read, the error envelope says
    /// "Error parsing function call" and the toolbox is not invoked.
    fn parse_toolbox<T: Toolbox>(
        &self,
        tool_call_content: &str,
        model_name: String,
        toolbox: &T,
    ) -> (answers: Result<Vec<ChatMessageResponse>, ChatMessageResponse>)
        ensures
            !opens_a_tag(tool_call_content@) ==> (answers matches Err(envelope) && envelope@
                == failure_envelope(OllamaErrorView::Parse)),
    {
        proof {
            if opens_a_tag(cleaned(tool_call_content@)) {
                lemma_cleaning_opens_no_tag(tool_call_content@);
            }
        }
        let response_value = self.parse_llama_tool_response(
            self.clean_tool_call(tool_call_content).as_str(),
        );
        match response_value {
            Some(response) => {
                let mut results: Vec<ChatMessageResponse> = Vec::new();
                let mut i: usize = 0;
                assert(calls_view(response@).len() == response.len());
                while i < response.len()
                    invariant
                        i <= response.len(),
                        results.len() == i,
                        response.len() > 0,
                        response.len() == self.calls(tool_call_content@).len(),
                        calls_view(response@) == self.calls(tool_call_content@),
                        forall|k: int|
                            0 <= k < results.len() ==> answers_call(
                                *toolbox,
                                self.calls(tool_call_content@)[k],
                                model_name@,
                                (#[trigger] results[k])@,
                            ),
                    decreases response.len() - i,
                {
                    let result = toolbox.call_value_fn(
                        response[i].function.as_str(),
                        response[i].arguments.clone(),
                    );
                    let envelope = ChatMessageResponse::assistant(
                        model_name.clone(),
                        encode(&result),
                    );
                    assert(toolbox.answers(
                        response@[i as int]@.function,
                        response@[i as int]@.arguments,
                        json_text(result),
                    ));
                    assert(answers_call(
                        *toolbox,
                        calls_view(response@)[i as int],
                        model_name@,
                        envelope@,
                    ));
                    results.push(envelope);
                    i += 1;
                }
                Ok(results)
            },
            None => Err(self.error_handler(OllamaError::Parse)),
        }
    }

    /// The system prompt with the sentences that present `tools`, as one
    /// JSON array of strings, in the place of `{tools}`.
    fn get_system_message(&self, tools: &Vec<ToolDescriptor>) -> (message: ChatMessage) {
        let mut tools_info: Vec<serde_json::Value> = Vec::new();
        let mut i: usize = 0;
        while i < tools.len()
            invariant
                i <= tools.len(),
                json_texts(tools_info@) == tools_view(tools@).take(i as int).map_values(
                    |t: ToolDescriptorView| json_quoted(tool_line(t)),
                ),
            decreases tools.len() - i,
        {
            let ghost before = tools_info@;
            let line = convert_to_llama_tool(&tools[i]);
            tools_info.push(line);
            assert(json_texts(tools_info@) =~= json_texts(before).push(json_text(line)));
            assert(tools_view(tools@).take(i + 1) =~= tools_view(tools@).take(i as int).push(
                tools@[i as int]@,
            ));
            i += 1;
        }
        assert(tools_view(tools@).take(i as int) =~= tools_view(tools@));
        system_message(&array_value(tools_info))
    }

    /// The system prompt with the description that `toolbox` gives of its
    /// tools in the place of `{tools}`.
    fn get_system_message_toolbox<T: Toolbox>(&self, toolbox: &T) -> (message: ChatMessage) {
        let tools_info = toolbox.get_impl_json();
        assert(toolbox.describes(json_text(tools_info)));
        system_message(&tools_info)
    }

    /// The finished envelope that reports `error`: it names no model and
    /// carries the error's description as the assistant's word.
    fn error_handler(&self, error: OllamaError) -> (envelope: ChatMessageResponse) {
        ChatMessageResponse::assistant(String::new(), error.describe())
    }
}

/// The strategy keeps nothing between readings: what is read out of a
/// text depends on the text alone, so any two readings of one text, by
/// one strategy value or by two, give the same calls.
pub proof fn lemma_reading_keeps_no_state(
    one: LlamaFunctionCall,
    other: LlamaFunctionCall,
    text: Seq<char>,
)
    ensures
        one.first_call(text) == other.first_call(text),
        one.calls(text) == other.calls(text),
        one.first_call(text) == first_call_in(cleaned(text)),
        one.calls(text) == calls_of(tags_in(cleaned(text))),
{
}

} // verus!
