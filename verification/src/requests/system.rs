//! The system prompt that both request translators gather from the
//! instructions and the system messages of a request.

use vstd::prelude::*;
use crate::common::{ResponsesApiRequest, SpecResponsesApiRequest};
use crate::models::{ContentItem, ResponseItem, SpecContentItem, SpecResponseItem};
use crate::text::{same_text, string_views};

verus! {

/// The texts of the text parts (input or output text) of `content`, in order.
pub open spec fn text_parts(content: Seq<SpecContentItem>) -> Seq<Seq<char>>
    decreases content.len(),
{
    if content.len() == 0 {
        Seq::empty()
    } else {
        let earlier = text_parts(content.drop_last());
        match content.last() {
            SpecContentItem::InputText { text } => earlier.push(text),
            SpecContentItem::OutputText { text } => earlier.push(text),
            SpecContentItem::InputImage { .. } => earlier,
        }
    }
}

/// The texts that an item contributes to the system prompt: those of a
/// message whose role is `system`.
pub open spec fn item_system_texts(item: SpecResponseItem) -> Seq<Seq<char>> {
    match item {
        SpecResponseItem::Message { role, content, .. } => if role == "system"@ {
            text_parts(content)
        } else {
            Seq::empty()
        },
        _ => Seq::empty(),
    }
}

/// The system texts of `items`, in order.
pub open spec fn system_texts(items: Seq<SpecResponseItem>) -> Seq<Seq<char>>
    decreases items.len(),
{
    if items.len() == 0 {
        Seq::empty()
    } else {
        system_texts(items.drop_last()) + item_system_texts(items.last())
    }
}

/// The parts of the system prompt: the instructions when they are not empty,
/// then the system texts of the conversation.
pub open spec fn system_parts(req: SpecResponsesApiRequest) -> Seq<Seq<char>> {
    (if req.instructions.len() == 0 {
        Seq::empty()
    } else {
        seq![req.instructions]
    }) + system_texts(req.input)
}

/// Gathers the parts of the system prompt.
pub fn collect_system_parts(request: &ResponsesApiRequest) -> (parts: Vec<String>)
    ensures
        string_views(parts@) == system_parts(request@),
{
    let ghost items = request@.input;
    let mut parts: Vec<String> = Vec::new();
    if !request.instructions.as_str().is_empty() {
        parts.push(request.instructions.clone());
    }
    let ghost first: Seq<Seq<char>> = if request.instructions@.len() == 0 {
        Seq::empty()
    } else {
        seq![request.instructions@]
    };
    assert(string_views(parts@) =~= first);
    let mut i: usize = 0;
    while i < request.input.len()
        invariant
            i <= request.input.len(),
            items == request@.input,
            items.len() == request.input@.len(),
            forall|k: int| 0 <= k < items.len() ==> items[k] == #[trigger] request.input@[k]@,
            string_views(parts@) == first + system_texts(items.take(i as int)),
        decreases request.input.len() - i,
    {
        assert(items.take(i + 1).drop_last() =~= items.take(i as int));
        let ghost at_item = string_views(parts@);
        match &request.input[i] {
            ResponseItem::Message { role, content, .. } => {
                if same_text(role.as_str(), "system") {
                    let ghost cv = content@.map_values(|c: ContentItem| c@);
                    let mut j: usize = 0;
                    while j < content.len()
                        invariant
                            j <= content.len(),
                            cv == content@.map_values(|c: ContentItem| c@),
                            string_views(parts@) == at_item + text_parts(cv.take(j as int)),
                        decreases content.len() - j,
                    {
                        assert(cv.take(j + 1).drop_last() =~= cv.take(j as int));
                        let ghost before = parts@;
                        match &content[j] {
                            ContentItem::InputText { text } => {
                                parts.push(text.clone());
                                assert(string_views(parts@) =~= string_views(before).push(text@));
                            },
                            ContentItem::OutputText { text } => {
                                parts.push(text.clone());
                                assert(string_views(parts@) =~= string_views(before).push(text@));
                            },
                            ContentItem::InputImage { .. } => {},
                        }
                        j = j + 1;
                    }
                    assert(cv.take(content.len() as int) =~= cv);
                }
            },
            _ => {},
        }
        assert(string_views(parts@) =~= first + system_texts(items.take(i + 1)));
        i = i + 1;
    }
    assert(items.take(request.input.len() as int) =~= items);
    parts
}

} // verus!
