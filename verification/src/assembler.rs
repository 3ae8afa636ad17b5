//! The tool-call assembler: fragments of one logical tool call arrive
//! spread over many messages and are merged back together, a call being
//! flushed when a fragment for a new call index arrives or the stream ends.

use crate::chat_types::ToolCall;
use crate::json::Json;
use crate::json_text::{json_parses, parse_document};
use vstd::prelude::*;
use vstd::string::*;

verus! {

/// The function part of a tool-call fragment; either field may be empty on
/// any given fragment.
#[derive(Debug, Clone, PartialEq)]
pub struct OpenAIToolCallFunction {
    /// Partial function name text.
    pub name: String,
    /// Partial function-arguments text; valid JSON only once assembled.
    pub arguments: String,
}

/// One tool-call fragment, and equally the partially assembled call that
/// the streamer holds across messages.
#[derive(Debug, Clone, PartialEq)]
pub struct OpenAIToolCall {
    /// Which logical call the fragment belongs to.
    pub index: usize,
    /// Partial call identifier text.
    pub id: String,
    /// The partial function name and arguments.
    pub function: OpenAIToolCallFunction,
}

/// The mathematical shape of a fragment or partial call.
pub struct ToolCallView {
    /// The call index.
    pub index: int,
    /// The call identifier text.
    pub id: Seq<char>,
    /// The function name text.
    pub name: Seq<char>,
    /// The function arguments text.
    pub arguments: Seq<char>,
}

impl View for OpenAIToolCall {
    type V = ToolCallView;

    open spec fn view(&self) -> ToolCallView {
        ToolCallView {
            index: self.index as int,
            id: self.id@,
            name: self.function.name@,
            arguments: self.function.arguments@,
        }
    }
}

/// The view of a possibly held partial call.
pub open spec fn opt_view(c: Option<OpenAIToolCall>) -> Option<ToolCallView> {
    match c {
        Some(p) => Some(p@),
        None => None,
    }
}

/// The member named `key` read as optional text: absent means empty text,
/// and a present non-string member means the fragment is rejected.
pub open spec fn spec_opt_text(j: Json, key: Seq<char>) -> Option<Seq<char>> {
    match j.spec_get(key) {
        None => Some(Seq::<char>::empty()),
        Some(v) => match v {
            Json::Str(s) => Some(s@),
            _ => None,
        },
    }
}

/// The name and arguments read from a function document: an object whose
/// `name` and `arguments` members are text when present.
pub open spec fn spec_function_of(j: Json) -> Option<(Seq<char>, Seq<char>)> {
    match j {
        Json::Obj(_) => match (spec_opt_text(j, "name"@), spec_opt_text(j, "arguments"@)) {
            (Some(n), Some(a)) => Some((n, a)),
            _ => None,
        },
        _ => None,
    }
}

/// The fragment read from a tool-call document: an object with an `index`
/// member holding an unsigned integer, an optional `id` text member, and
/// an optional `function` member; anything else is rejected.
pub open spec fn spec_fragment_of(j: Json) -> Option<ToolCallView> {
    match j {
        Json::Obj(_) => match j.spec_get("index"@) {
            Some(Json::UInt(u)) => if u <= usize::MAX as u64 {
                match (spec_opt_text(j, "id"@), spec_fragment_function(j)) {
                    (Some(id), Some(f)) => Some(
                        ToolCallView { index: u as int, id: id, name: f.0, arguments: f.1 },
                    ),
                    _ => None,
                }
            } else {
                None
            },
            _ => None,
        },
        _ => None,
    }
}

/// The function part of a fragment document: a missing `function` member
/// means an empty name and empty arguments.
pub open spec fn spec_fragment_function(j: Json) -> Option<(Seq<char>, Seq<char>)> {
    match j.spec_get("function"@) {
        None => Some((Seq::<char>::empty(), Seq::<char>::empty())),
        Some(f) => spec_function_of(f),
    }
}

/// Reads the member named `key` as optional text, as a fresh string.
fn opt_text(j: &Json, key: &String) -> (r: Option<String>)
    ensures
        (match r {
            Some(s) => spec_opt_text(*j, key@) == Some(s@),
            None => spec_opt_text(*j, key@) is None,
        }),
{
    match j.get(key) {
        None => Some(String::new()),
        Some(v) => match v {
            Json::Str(s) => Some(s.clone()),
            _ => None,
        },
    }
}

impl OpenAIToolCallFunction {
    /// Reads the function part of a fragment from its own document.
    pub fn from_json(j: &Json) -> (r: Option<Self>)
        ensures
            (match r {
                Some(f) => spec_function_of(*j) == Some((f.name@, f.arguments@)),
                None => spec_function_of(*j) is None,
            }),
    {
        match j {
            Json::Obj(_) => {
                let name = opt_text(j, &String::from_str("name"));
                let arguments = opt_text(j, &String::from_str("arguments"));
                match (name, arguments) {
                    (Some(n), Some(a)) => Some(OpenAIToolCallFunction { name: n, arguments: a }),
                    _ => None,
                }
            },
            _ => None,
        }
    }

    /// A fresh copy whose fields equal this one's.
    pub fn duplicate(&self) -> (r: Self)
        ensures
            r == *self,
    {
        OpenAIToolCallFunction { name: self.name.clone(), arguments: self.arguments.clone() }
    }
}

impl OpenAIToolCall {
    /// Reads one tool-call fragment from its document, rejecting documents
    /// whose present fields have the wrong shape.
    pub fn from_json(j: &Json) -> (r: Option<Self>)
        ensures
            (match r {
                Some(f) => spec_fragment_of(*j) == Some(f@),
                None => spec_fragment_of(*j) is None,
            }),
    {
        match j {
            Json::Obj(_) => {
                let index: usize = match j.get(&String::from_str("index")) {
                    Some(v) => match v {
                        Json::UInt(u) => if *u <= usize::MAX as u64 {
                            *u as usize
                        } else {
                            return None;
                        },
                        _ => {
                            return None;
                        },
                    },
                    None => {
                        return None;
                    },
                };
                let id = match opt_text(j, &String::from_str("id")) {
                    Some(s) => s,
                    None => {
                        return None;
                    },
                };
                let function = match j.get(&String::from_str("function")) {
                    None => OpenAIToolCallFunction {
                        name: String::new(),
                        arguments: String::new(),
                    },
                    Some(f) => match OpenAIToolCallFunction::from_json(f) {
                        Some(fun) => fun,
                        None => {
                            return None;
                        },
                    },
                };
                Some(OpenAIToolCall { index, id, function })
            },
            _ => None,
        }
    }

    /// A fresh copy whose fields equal this one's.
    pub fn duplicate(&self) -> (r: Self)
        ensures
            r == *self,
    {
        OpenAIToolCall { index: self.index, id: self.id.clone(), function: self.function.duplicate() }
    }

    /// Builds the finalized call around an already parsed arguments
    /// document: every field of the result is pinned down.
    pub fn finalize_with(self, fn_arguments: Json) -> (t: ToolCall)
        ensures
            t.call_id == self.id,
            t.fn_name == self.function.name,
            t.fn_arguments == fn_arguments,
    {
        ToolCall { call_id: self.id, fn_name: self.function.name, fn_arguments }
    }

    /// Finalizes an assembled call: the arguments text is parsed as JSON,
    /// with a null value standing in when it does not parse — a malformed
    /// arguments text is never an error.
    pub fn finalize(self) -> (t: ToolCall)
        ensures
            t.call_id == self.id,
            t.fn_name == self.function.name,
            !json_parses(self.function.arguments@) ==> t.fn_arguments == Json::Null,
    {
        let fn_arguments = match parse_document(self.function.arguments.as_str()) {
            Ok(j) => j,
            Err(_) => Json::Null,
        };
        self.finalize_with(fn_arguments)
    }
}

impl From<OpenAIToolCall> for crate::inter_stream::InterStreamChunkTool {
    /// Moves a fragment's texts into the intermediary tool chunk shape.
    fn from(tool: OpenAIToolCall) -> (r: Self) {
        crate::inter_stream::InterStreamChunkTool {
            id: tool.id,
            name: tool.function.name,
            arguments: tool.function.arguments,
        }
    }
}

impl vstd::std_specs::convert::FromSpecImpl<OpenAIToolCall> for crate::inter_stream::InterStreamChunkTool {
    open spec fn obeys_from_spec() -> bool {
        true
    }

    open spec fn from_spec(tool: OpenAIToolCall) -> Self {
        crate::inter_stream::InterStreamChunkTool {
            id: tool.id,
            name: tool.function.name,
            arguments: tool.function.arguments,
        }
    }
}

impl From<OpenAIToolCall> for crate::inter_stream::InterStreamChunk {
    /// Lifts a fragment into an intermediary chunk addressed by its index.
    fn from(tool: OpenAIToolCall) -> (r: Self) {
        let index = tool.index;
        crate::inter_stream::InterStreamChunk::Tool(
            index,
            crate::inter_stream::InterStreamChunkTool::from(tool),
        )
    }
}

impl vstd::std_specs::convert::FromSpecImpl<OpenAIToolCall> for crate::inter_stream::InterStreamChunk {
    open spec fn obeys_from_spec() -> bool {
        true
    }

    open spec fn from_spec(tool: OpenAIToolCall) -> Self {
        crate::inter_stream::InterStreamChunk::Tool(
            tool.index,
            crate::inter_stream::InterStreamChunkTool {
                id: tool.id,
                name: tool.function.name,
                arguments: tool.function.arguments,
            },
        )
    }
}

/// One assembler step on views: a fragment for the held index is appended
/// field by field; a fragment for a new index flushes the held call and
/// starts a new one; with nothing held the fragment is simply taken up.
/// The first component is the new held call, the second the flushed one.
pub open spec fn spec_merge(cur: Option<ToolCallView>, frag: ToolCallView) -> (
    Option<ToolCallView>,
    Option<ToolCallView>,
) {
    match cur {
        None => (Some(frag), None),
        Some(p) => if frag.index == p.index {
            (
                Some(
                    ToolCallView {
                        index: p.index,
                        id: p.id + frag.id,
                        name: p.name + frag.name,
                        arguments: p.arguments + frag.arguments,
                    },
                ),
                None,
            )
        } else {
            (Some(frag), Some(p))
        },
    }
}

/// Merges one incoming fragment into the held partial call.
///
/// A fragment with a new index finalizes exactly one previous call (when
/// one was held) before becoming the new held call; a fragment with the
/// held index appends its non-empty fields in arrival order.
pub fn merge(current: Option<OpenAIToolCall>, fragment: OpenAIToolCall) -> (r: (
    Option<OpenAIToolCall>,
    Option<OpenAIToolCall>,
))
    ensures
        opt_view(r.0) == spec_merge(opt_view(current), fragment@).0,
        opt_view(r.1) == spec_merge(opt_view(current), fragment@).1,
{
    match current {
        None => (Some(fragment), None),
        Some(mut p) => if fragment.index == p.index {
            p.id.append(fragment.id.as_str());
            p.function.name.append(fragment.function.name.as_str());
            p.function.arguments.append(fragment.function.arguments.as_str());
            (Some(p), None)
        } else {
            (Some(fragment), Some(p))
        },
    }
}

/// Runs the assembler over a whole arrival-ordered sequence of fragments:
/// the result is the still-held partial call and the flushed calls in
/// flush order.
pub open spec fn run_assembler(frags: Seq<ToolCallView>) -> (
    Option<ToolCallView>,
    Seq<ToolCallView>,
)
    decreases frags.len(),
{
    if frags.len() == 0 {
        (None, Seq::<ToolCallView>::empty())
    } else {
        let prev = run_assembler(frags.drop_last());
        let step = spec_merge(prev.0, frags.last());
        match step.1 {
            Some(f) => (step.0, prev.1.push(f)),
            None => (step.0, prev.1),
        }
    }
}

/// The concatenation of every fragment's arguments text, in arrival order.
pub open spec fn concat_arguments(frags: Seq<ToolCallView>) -> Seq<char>
    decreases frags.len(),
{
    if frags.len() == 0 {
        Seq::<char>::empty()
    } else {
        concat_arguments(frags.drop_last()) + frags.last().arguments
    }
}

/// The concatenation of every fragment's id text, in arrival order.
pub open spec fn concat_ids(frags: Seq<ToolCallView>) -> Seq<char>
    decreases frags.len(),
{
    if frags.len() == 0 {
        Seq::<char>::empty()
    } else {
        concat_ids(frags.drop_last()) + frags.last().id
    }
}

/// The concatenation of every fragment's name text, in arrival order.
pub open spec fn concat_names(frags: Seq<ToolCallView>) -> Seq<char>
    decreases frags.len(),
{
    if frags.len() == 0 {
        Seq::<char>::empty()
    } else {
        concat_names(frags.drop_last()) + frags.last().name
    }
}

/// For any nonempty sequence of fragments sharing one index, the assembler
/// flushes nothing and holds one call whose arguments, id and name each
/// equal the concatenation of the fragments' matching texts in arrival
/// order.
pub proof fn lemma_same_index_concatenates(frags: Seq<ToolCallView>, k: int)
    requires
        frags.len() > 0,
        forall|i: int| 0 <= i < frags.len() ==> #[trigger] frags[i].index == k,
    ensures
        run_assembler(frags).1 =~= Seq::<ToolCallView>::empty(),
        run_assembler(frags).0 is Some,
        run_assembler(frags).0.unwrap().index == k,
        run_assembler(frags).0.unwrap().arguments =~= concat_arguments(frags),
        run_assembler(frags).0.unwrap().id =~= concat_ids(frags),
        run_assembler(frags).0.unwrap().name =~= concat_names(frags),
    decreases frags.len(),
{
    assert(frags.last() == frags[frags.len() - 1]);
    assert(frags.last().index == k);
    if frags.len() == 1 {
        assert(frags.drop_last().len() == 0);
        assert(run_assembler(frags.drop_last()).0 is None);
        assert(concat_arguments(frags.drop_last()) =~= Seq::<char>::empty());
        assert(concat_ids(frags.drop_last()) =~= Seq::<char>::empty());
        assert(concat_names(frags.drop_last()) =~= Seq::<char>::empty());
    } else {
        assert(forall|i: int|
            0 <= i < frags.drop_last().len() ==> #[trigger] frags.drop_last()[i].index == k);
        lemma_same_index_concatenates(frags.drop_last(), k);
    }
}

/// The set of call indices that occur in a sequence of fragments.
pub open spec fn index_set(frags: Seq<ToolCallView>) -> Set<int>
    decreases frags.len(),
{
    if frags.len() == 0 {
        Set::<int>::empty()
    } else {
        index_set(frags.drop_last()).insert(frags.last().index)
    }
}

/// With non-decreasing call indices, the number of finalized calls — the
/// flushed ones plus the final flush of the still-held call at stream end —
/// equals the number of distinct indices seen.
pub proof fn lemma_finalized_count_is_distinct_indices(frags: Seq<ToolCallView>)
    requires
        forall|i: int, j: int|
            0 <= i <= j < frags.len() ==> #[trigger] frags[i].index <= #[trigger] frags[j].index,
    ensures
        index_set(frags).finite(),
        run_assembler(frags).1.len() + (if run_assembler(frags).0 is Some {
            1int
        } else {
            0int
        }) == index_set(frags).len(),
        frags.len() > 0 ==> run_assembler(frags).0 is Some
            && run_assembler(frags).0.unwrap().index == frags.last().index,
        forall|k: int| index_set(frags).contains(k) ==> exists|i: int|
            0 <= i < frags.len() && #[trigger] frags[i].index == k,
    decreases frags.len(),
{
    if frags.len() == 0 {
        assert(index_set(frags).len() == 0);
    } else {
        let prefix = frags.drop_last();
        lemma_finalized_count_is_distinct_indices(prefix);
        let last = frags.last();
        if prefix.len() == 0 {
            assert(index_set(frags) =~= Set::<int>::empty().insert(last.index));
            assert(index_set(frags).len() == 1);
        } else {
            let held = run_assembler(prefix).0.unwrap();
            if last.index == held.index {
                assert(index_set(prefix).contains(last.index));
                assert(index_set(frags) =~= index_set(prefix));
            } else {
                assert(prefix.last().index <= last.index);
                assert(held.index == prefix.last().index);
                if index_set(prefix).contains(last.index) {
                    let i = choose|i: int|
                        0 <= i < prefix.len() && #[trigger] prefix[i].index == last.index;
                    assert(prefix[i].index <= prefix.last().index);
                    assert(false);
                }
                assert(index_set(frags).len() == index_set(prefix).len() + 1);
            }
        }
    }
}

} // verus!
