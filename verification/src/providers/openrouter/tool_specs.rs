//! The tools that a request offers.
use crate::codec::Members;
use crate::json::{documents, has_string, law_texts_are_found, Json, JsonView};
use crate::providers::openrouter::OpenRouterProvider;
use crate::providers::wire::{
    FunctionSpecView, NativeToolFunctionSpec, NativeToolSpec, NativeToolSpecView,
};
use crate::text::characters;
use crate::tools::{ToolSpec, ToolSpecView};
use vstd::prelude::*;

verus! {

/// A character that can stand in the name of a tool.
pub open spec fn tool_name_char(c: char) -> bool {
    ||| 'a' <= c <= 'z'
    ||| 'A' <= c <= 'Z'
    ||| '0' <= c <= '9'
    ||| c == '_'
    ||| c == '-'
}

/// What OpenAI-compatible APIs take as the name of a tool: `^[a-zA-Z0-9_-]{1,64}$`.
pub open spec fn valid_tool_name(name: Seq<char>) -> bool {
    &&& 1 <= name.len() <= 64
    &&& forall|i: int| 0 <= i < name.len() ==> tool_name_char(#[trigger] name[i])
}

/// Whether OpenAI-compatible APIs take a name as the name of a tool.
pub fn is_valid_openai_tool_name(name: &str) -> (valid: bool)
    ensures
        valid == valid_tool_name(name@),
{
    let list = characters(name);
    if list.len() == 0 || list.len() > 64 {
        return false;
    }
    let mut at: usize = 0;
    while at < list.len()
        invariant
            at <= list.len(),
            list@ == name@,
            forall|i: int| 0 <= i < at ==> tool_name_char(#[trigger] name@[i]),
        decreases list.len() - at,
    {
        let c = list[at];
        if !(('a' <= c && c <= 'z') || ('A' <= c && c <= 'Z') || ('0' <= c && c <= '9') || c == '_'
            || c == '-') {
            assert(!tool_name_char(name@[at as int]));
            return false;
        }
        at = at + 1;
    }
    true
}

/// A tool as a request offers it.
pub open spec fn native_tool(tool: ToolSpecView) -> NativeToolSpecView {
    NativeToolSpecView {
        kind: "function"@,
        function: FunctionSpecView {
            name: tool.name,
            description: tool.description,
            parameters: tool.parameters,
        },
    }
}

/// The tools that a request can offer: those whose names the API takes, in order.
pub open spec fn offered_tools(tools: Seq<ToolSpecView>) -> Seq<NativeToolSpecView> {
    tools.filter(|tool: ToolSpecView| valid_tool_name(tool.name)).map_values(
        |tool: ToolSpecView| native_tool(tool),
    )
}

/// A list, or none where it is empty.
pub open spec fn some_if_any<T>(list: Seq<T>) -> Option<Seq<T>> {
    if list.len() == 0 {
        None
    } else {
        Some(list)
    }
}

proof fn lemma_offered_tools_push(tools: Seq<ToolSpecView>, tool: ToolSpecView)
    ensures
        offered_tools(tools.push(tool)) == if valid_tool_name(tool.name) {
            offered_tools(tools).push(native_tool(tool))
        } else {
            offered_tools(tools)
        },
{
    let valid = |tool: ToolSpecView| valid_tool_name(tool.name);
    tools.lemma_filter_push(tool, valid);
    if valid_tool_name(tool.name) {
        assert(offered_tools(tools.push(tool)) =~= offered_tools(tools).push(native_tool(tool)));
    }
}

/// A tool as a JSON value offers it: an object `function` with a `name`; what it
/// lacks besides is filled in.
pub open spec fn tool_from_value(value: JsonView) -> Option<NativeToolSpecView> {
    match value.member("function"@) {
        Some(function) => match function.member_text("name"@) {
            Some(name) => Some(
                NativeToolSpecView {
                    kind: "function"@,
                    function: FunctionSpecView {
                        name,
                        description: match function.member_text("description"@) {
                            Some(description) => description,
                            None => Seq::empty(),
                        },
                        parameters: match function.member("parameters"@) {
                            Some(parameters) => parameters,
                            None => JsonView::Object(Map::empty()),
                        },
                    },
                },
            ),
            None => None,
        },
        None => None,
    }
}

/// The tools that JSON values offer, in order.
pub open spec fn tools_from_values(values: Seq<JsonView>) -> Seq<NativeToolSpecView>
    decreases values.len(),
{
    if values.len() == 0 {
        Seq::empty()
    } else {
        let front = tools_from_values(values.drop_last());
        match tool_from_value(values.last()) {
            Some(tool) => front.push(tool),
            None => front,
        }
    }
}

impl OpenRouterProvider {
    /// The tools that a request can offer, or none where there is none to offer.
    pub fn convert_tools(tools: Option<&[ToolSpec]>) -> (offered: Option<Vec<NativeToolSpec>>)
        ensures
            offered.deep_view() == match tools.deep_view() {
                Some(list) => some_if_any(offered_tools(list)),
                None => None,
            },
    {
        let items = match tools {
            Some(items) => items,
            None => {
                return None;
            },
        };
        let ghost all = items.deep_view();
        let mut valid: Vec<NativeToolSpec> = Vec::new();
        let mut at: usize = 0;
        proof {
            reveal(Seq::filter);
            assert(all.take(0) =~= Seq::<ToolSpecView>::empty());
            assert(valid.deep_view() =~= offered_tools(all.take(0)));
        }
        while at < items.len()
            invariant
                at <= items.len(),
                all == items.deep_view(),
                valid.deep_view() == offered_tools(all.take(at as int)),
            decreases items.len() - at,
        {
            let tool = &items[at];
            proof {
                lemma_offered_tools_push(all.take(at as int), all[at as int]);
                assert(all.take(at as int).push(all[at as int]) =~= all.take(at + 1));
            }
            if is_valid_openai_tool_name(tool.name.as_str()) {
                let ghost before = valid.deep_view();
                valid.push(
                    NativeToolSpec {
                        kind: "function".to_string(),
                        function: NativeToolFunctionSpec {
                            name: tool.name.clone(),
                            description: tool.description.clone(),
                            parameters: tool.parameters.copy(),
                        },
                    },
                );
                assert(valid.deep_view() =~= before.push(native_tool(all[at as int])));
            }
            at = at + 1;
        }
        assert(all.take(at as int) =~= all);
        if valid.is_empty() {
            None
        } else {
            Some(valid)
        }
    }

    fn tool_from_value(value: &Json) -> (tool: Option<NativeToolSpec>)
        ensures
            tool.deep_view() == tool_from_value(value@),
    {
        let function = match value.get("function") {
            Some(function) => function,
            None => {
                return None;
            },
        };
        let name = match function.get_str("name") {
            Some(name) => name.to_string(),
            None => {
                return None;
            },
        };
        let description = match function.get_str("description") {
            Some(description) => description.to_string(),
            None => String::new(),
        };
        let parameters = match function.get("parameters") {
            Some(parameters) => parameters.copy(),
            None => Members::new().into_object(),
        };
        Some(
            NativeToolSpec {
                kind: "function".to_string(),
                function: NativeToolFunctionSpec { name, description, parameters },
            },
        )
    }

    /// The tools that JSON values offer, or none where there is none among them.
    pub fn convert_tool_values(values: &[Json]) -> (tools: Option<Vec<NativeToolSpec>>)
        ensures
            tools.deep_view() == some_if_any(tools_from_values(documents(values@))),
    {
        let ghost all = documents(values@);
        let mut tools: Vec<NativeToolSpec> = Vec::new();
        let mut at: usize = 0;
        assert(tools.deep_view() =~= tools_from_values(all.take(0)));
        while at < values.len()
            invariant
                at <= values.len(),
                all == documents(values@),
                tools.deep_view() == tools_from_values(all.take(at as int)),
            decreases values.len() - at,
        {
            proof {
                assert(all.take(at + 1).drop_last() =~= all.take(at as int));
                assert(all.take(at + 1).last() == values@[at as int]@);
            }
            if let Some(tool) = Self::tool_from_value(&values[at]) {
                let ghost before = tools.deep_view();
                tools.push(tool);
                assert(tools.deep_view() =~= before.push(tool.deep_view()));
            }
            at = at + 1;
        }
        assert(all.take(at as int) =~= all);
        if tools.is_empty() {
            None
        } else {
            Some(tools)
        }
    }
}

/// A request offers the tools whose names the API takes, those and no others, one
/// for each, in order.
pub proof fn law_offers_valid_tools(tools: Seq<ToolSpecView>)
    ensures
        forall|i: int|
            0 <= i < offered_tools(tools).len() ==> valid_tool_name(
                (#[trigger] offered_tools(tools)[i]).function.name,
            ) && tools.map_values(|tool: ToolSpecView| native_tool(tool)).contains(
                offered_tools(tools)[i],
            ),
        forall|tool: ToolSpecView|
            tools.contains(tool) && valid_tool_name(tool.name) ==> #[trigger] offered_tools(
                tools,
            ).contains(native_tool(tool)),
        (forall|i: int| 0 <= i < tools.len() ==> valid_tool_name((#[trigger] tools[i]).name))
            ==> offered_tools(tools).len() == tools.len(),
    decreases tools.len(),
{
    if tools.len() > 0 {
        let front = tools.drop_last();
        let last = tools.last();
        law_offers_valid_tools(front);
        lemma_offered_tools_push(front, last);
        assert(front.push(last) =~= tools);
        let all = tools.map_values(|tool: ToolSpecView| native_tool(tool));
        let all_front = front.map_values(|tool: ToolSpecView| native_tool(tool));
        assert forall|i: int| 0 <= i < offered_tools(tools).len() implies all.contains(
            #[trigger] offered_tools(tools)[i],
        ) by {
            let offered = offered_tools(tools)[i];
            if i < offered_tools(front).len() {
                assert(offered == offered_tools(front)[i]);
                let at = all_front.index_of(offered);
                assert(all[at] == all_front[at]);
            } else {
                assert(all[tools.len() - 1] == native_tool(last));
            }
        }
        assert forall|tool: ToolSpecView|
            tools.contains(tool) && valid_tool_name(tool.name) implies #[trigger] offered_tools(
            tools,
        ).contains(native_tool(tool)) by {
            if front.contains(tool) {
                assert(offered_tools(front).contains(native_tool(tool)));
                let at = offered_tools(front).index_of(native_tool(tool));
                assert(offered_tools(tools)[at] == native_tool(tool));
            } else {
                assert(tool == last);
                assert(offered_tools(tools).last() == native_tool(tool));
            }
        }
    } else {
        assert(offered_tools(tools).len() == 0) by {
            reveal(Seq::filter);
        }
    }
}

/// The tools of two lists are offered one list after the other.
pub proof fn law_offers_in_order(front: Seq<ToolSpecView>, back: Seq<ToolSpecView>)
    ensures
        offered_tools(front + back) == offered_tools(front) + offered_tools(back),
    decreases back.len(),
{
    if back.len() > 0 {
        law_offers_in_order(front, back.drop_last());
        lemma_offered_tools_push(front + back.drop_last(), back.last());
        lemma_offered_tools_push(back.drop_last(), back.last());
        assert((front + back.drop_last()).push(back.last()) =~= front + back);
        assert(back.drop_last().push(back.last()) =~= back);
        assert(offered_tools(front + back) =~= offered_tools(front) + offered_tools(back));
    } else {
        reveal(Seq::filter);
        assert(front + back =~= front);
        assert(offered_tools(front + back) =~= offered_tools(front) + offered_tools(back));
    }
}

/// Where no tool has a name that the API takes, no tools are offered.
pub proof fn law_offers_none_without_valid_tools(tools: Seq<ToolSpecView>)
    ensures
        some_if_any(offered_tools(tools)) is None <==> forall|i: int|
            0 <= i < tools.len() ==> !valid_tool_name((#[trigger] tools[i]).name),
{
    law_offers_valid_tools(tools);
    if some_if_any(offered_tools(tools)) is None {
        assert forall|i: int| 0 <= i < tools.len() implies !valid_tool_name(
            (#[trigger] tools[i]).name,
        ) by {
            assert(tools.contains(tools[i]));
            if valid_tool_name(tools[i].name) {
                assert(offered_tools(tools).contains(native_tool(tools[i])));
            }
        }
    }
    if forall|i: int| 0 <= i < tools.len() ==> !valid_tool_name((#[trigger] tools[i]).name) {
        lemma_nothing_offered(tools);
    }
}

proof fn lemma_nothing_offered(tools: Seq<ToolSpecView>)
    requires
        forall|i: int| 0 <= i < tools.len() ==> !valid_tool_name((#[trigger] tools[i]).name),
    ensures
        offered_tools(tools).len() == 0,
    decreases tools.len(),
{
    if tools.len() > 0 {
        let front = tools.drop_last();
        assert forall|i: int| 0 <= i < front.len() implies !valid_tool_name(
            (#[trigger] front[i]).name,
        ) by {
            assert(front[i] == tools[i]);
        }
        lemma_nothing_offered(front);
        assert(!valid_tool_name(tools[tools.len() - 1].name));
        lemma_offered_tools_push(front, tools.last());
        assert(front.push(tools.last()) =~= tools);
    } else {
        reveal(Seq::filter);
    }
}

/// The tools of two lists of JSON values come one list after the other, and there
/// are no more of them than values.
pub proof fn law_tool_values_in_order(front: Seq<JsonView>, back: Seq<JsonView>)
    ensures
        tools_from_values(front + back) == tools_from_values(front) + tools_from_values(back),
        tools_from_values(back).len() <= back.len(),
    decreases back.len(),
{
    if back.len() > 0 {
        law_tool_values_in_order(front, back.drop_last());
        assert((front + back).drop_last() =~= front + back.drop_last());
        assert(tools_from_values(front + back) =~= tools_from_values(front) + tools_from_values(
            back,
        ));
    } else {
        assert(front + back =~= front);
        assert(tools_from_values(front + back) =~= tools_from_values(front) + tools_from_values(
            back,
        ));
    }
}

/// A name of one character is valid where it is a letter or a digit of ASCII, the
/// underscore or the hyphen.
pub proof fn law_names_of_one_character(c: char)
    ensures
        valid_tool_name(seq![c]) <==> {
            let n = c as u32;
            ||| 0x61 <= n <= 0x7a
            ||| 0x41 <= n <= 0x5a
            ||| 0x30 <= n <= 0x39
            ||| n == 0x5f
            ||| n == 0x2d
        },
{
    assert(seq![c][0] == c);
}

/// A name is valid if and only if it is not empty, has no more than 64 characters,
/// and each of them is a valid name.
pub proof fn law_names_by_character(name: Seq<char>)
    ensures
        valid_tool_name(name) <==> 1 <= name.len() <= 64 && forall|i: int|
            0 <= i < name.len() ==> valid_tool_name(seq![#[trigger] name[i]]),
{
    assert forall|i: int| 0 <= i < name.len() implies valid_tool_name(seq![#[trigger] name[i]])
        == tool_name_char(name[i]) by {
        assert(seq![name[i]][0] == name[i]);
    }
}

/// A tool is offered as what it is: under its name, with its description and its
/// parameters. One whose name is not valid is not offered.
pub proof fn law_offered_tool_is_whole(tool: ToolSpecView)
    ensures
        ({
            let offered = offered_tools(seq![tool]);
            if valid_tool_name(tool.name) {
                &&& offered.len() == 1
                &&& offered[0].kind == "function"@
                &&& offered[0].function.name == tool.name
                &&& offered[0].function.description == tool.description
                &&& offered[0].function.parameters == tool.parameters
            } else {
                offered.len() == 0
            }
        }),
{
    lemma_offered_tools_push(Seq::empty(), tool);
    reveal(Seq::filter);
    assert(Seq::<ToolSpecView>::empty().push(tool) =~= seq![tool]);
    assert(offered_tools(Seq::empty()).len() == 0);
}

/// A list of tools is offered as it is, unless it is empty.
pub proof fn law_lists_are_offered_whole(tools: Seq<NativeToolSpecView>)
    ensures
        tools.len() > 0 ==> some_if_any(tools) == Some(tools),
        tools.len() == 0 ==> some_if_any(tools) is None,
{
}

/// Whether a JSON value tells of a tool: it is an object whose member `function` is an
/// object with a string `name`.
pub open spec fn tells_of_tool(value: JsonView, function: JsonView, name: Seq<char>) -> bool {
    value matches JsonView::Object(map) && map.dom().contains("function"@) && map["function"@]
        == function && has_string(function, "name"@, name)
}

/// A JSON value that tells of a tool gives that tool and no other: its name, the
/// string that is its description or an empty one where there is none, and the
/// document of its parameters or an empty object where there is none.
pub proof fn law_tool_value_is_whole(value: JsonView, function: JsonView, name: Seq<char>)
    requires
        tells_of_tool(value, function, name),
    ensures
        ({
            let tools = tools_from_values(seq![value]);
            let members = function->Object_0;
            &&& tools.len() == 1
            &&& tools[0].kind == "function"@
            &&& tools[0].function.name == name
            &&& forall|description: Seq<char>| #[trigger]
                has_string(function, "description"@, description)
                    ==> tools[0].function.description == description
            &&& (forall|description: Seq<char>|
                !#[trigger] has_string(function, "description"@, description))
                ==> tools[0].function.description.len() == 0
            &&& members.dom().contains("parameters"@) ==> tools[0].function.parameters
                == members["parameters"@]
            &&& !members.dom().contains("parameters"@) ==> tools[0].function.parameters
                == JsonView::Object(Map::empty())
        }),
{
    let tool = tool_from_value(value);
    law_texts_are_found(function, "name"@, name);
    reveal_with_fuel(tools_from_values, 2);
    assert(seq![value].drop_last() =~= Seq::<JsonView>::empty());
    assert(tools_from_values(seq![value]) == Seq::empty().push(tool->0));
    assert forall|description: Seq<char>| #[trigger]
        has_string(function, "description"@, description) implies tool->0.function.description
        == description by {
        law_texts_are_found(function, "description"@, description);
    }
    if function.member_text("description"@) is Some {
        law_texts_are_found(
            function,
            "description"@,
            function.member_text("description"@)->0,
        );
    }
}

/// A JSON value that tells of no tool gives none.
pub proof fn law_other_values_give_no_tool(value: JsonView)
    requires
        forall|function: JsonView, name: Seq<char>|
            !#[trigger] tells_of_tool(value, function, name),
    ensures
        tools_from_values(seq![value]).len() == 0,
{
    reveal_with_fuel(tools_from_values, 2);
    assert(seq![value].drop_last() =~= Seq::<JsonView>::empty());
    if let Some(function) = value.member("function"@) {
        if let Some(name) = function.member_text("name"@) {
            law_texts_are_found(function, "name"@, name);
            assert(tells_of_tool(value, function, name));
        }
    }
}

} // verus!
