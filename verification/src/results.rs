//! From a query to the list of result entries.
//!
//! An empty query lists what can be done with the store: add a clip of each
//! type and, where there are clips, delete one. Any other query lists the
//! clips it selects, each as an entry that copies the clip; under the
//! keyword `e` or `edit` an entry that opens the edit form comes first for
//! each clip that matches.

use crate::actions::{
    Field, FieldKind, FieldKindView, FieldView, Icon, IconView, OpenFormAction,
    OpenFormActionView, ResultAction, ResultActionView, SearchResult, SearchResultView,
    SelectFieldValue, SelectFieldValueView,
};
use crate::db::{has_id, lemma_without_id, without_id, Clip, ClipType, ClipView, Database};
use crate::fuzzy::{self, sniffer_matches};
use crate::template::{expand, expanded};
use crate::text::{decimal, decimal_string, lemma_decimal_injective};
use vstd::prelude::*;
use vstd::string::StringExecFns;

verus! {

/// The id under which the host knows this extension.
pub const EXTENSION_ID: &'static str = "clipper";

/// A query as the host's parser has split it: the keyword it found, if any,
/// and the text after it.
#[derive(Clone, Debug)]
pub struct SearchQuery {
    pub keyword: Option<String>,
    pub search_text: String,
}

/// `SearchQuery` as contracts see it.
pub struct SearchQueryView {
    pub keyword: Option<Seq<char>>,
    pub search_text: Seq<char>,
}

impl View for SearchQuery {
    type V = SearchQueryView;

    open spec fn view(&self) -> SearchQueryView {
        SearchQueryView { keyword: self.keyword.deep_view(), search_text: self.search_text@ }
    }
}

/// The file extensions that an image clip may have.
pub open spec fn image_extensions() -> Seq<Seq<char>> {
    seq!["png"@, "webp"@, "jpg"@, "jpeg"@]
}

/// The field that takes a clip's keyword when the clip is added.
pub open spec fn new_keyword_field() -> FieldView {
    FieldView {
        id: "keyword"@,
        title: "Keyword"@,
        description: "The keyword of the clip"@,
        kind: FieldKindView::Text { value: Seq::empty(), not_empty: true },
    }
}

/// The field that takes a clip's name when the clip is added. An image
/// clip may go without a name.
pub open spec fn new_name_field(clip_type: ClipType) -> FieldView {
    FieldView {
        id: "name"@,
        title: "Name"@,
        description: "The name of the clip"@,
        kind: FieldKindView::Text { value: Seq::empty(), not_empty: clip_type != ClipType::Image },
    }
}

/// The field that takes the content of a clip of type `clip_type`, with
/// `value` in it: a line of text, a block of text, or the path of an image.
pub open spec fn content_field(clip_type: ClipType, as_block: bool, value: Seq<char>) -> FieldView {
    if clip_type == ClipType::Image {
        FieldView {
            id: "image-path"@,
            title: "Image"@,
            description: "Select the image path"@,
            kind: FieldKindView::FileSystem {
                path: value,
                not_empty: true,
                filters: image_extensions(),
            },
        }
    } else {
        FieldView {
            id: "clip"@,
            title: "Clip"@,
            description: "The text of the clip"@,
            kind: if as_block {
                FieldKindView::TextArea { value, not_empty: true }
            } else {
                FieldKindView::Text { value, not_empty: true }
            },
        }
    }
}

/// The title of the entry and of the form that add a clip of `clip_type`.
pub open spec fn add_title(clip_type: ClipType) -> Seq<char> {
    match clip_type {
        ClipType::Text => "Add Text Clip"@,
        ClipType::TextArea => "Add Text Area Clip"@,
        ClipType::Image => "Add Image Clip"@,
    }
}

/// The description of the entry that adds a clip of `clip_type`.
pub open spec fn add_description(clip_type: ClipType) -> Seq<char> {
    match clip_type {
        ClipType::Text => "Add a text clip"@,
        ClipType::TextArea => "Add a text area clip"@,
        ClipType::Image => "Add a image clip"@,
    }
}

/// The id of the form that adds a clip of `clip_type`.
pub open spec fn add_form_id(clip_type: ClipType) -> Seq<char> {
    match clip_type {
        ClipType::Text => "add-text-clip"@,
        ClipType::TextArea => "add-text-area-clip"@,
        ClipType::Image => "add-image-clip"@,
    }
}

/// The entry that opens the form for a new clip of `clip_type`.
pub open spec fn add_entry_view(clip_type: ClipType) -> SearchResultView {
    SearchResultView {
        title: add_title(clip_type),
        description: add_description(clip_type),
        icon: IconView::Bundled("plus"@),
        icon_color: Some("accent"@),
        action: ResultActionView::OpenForm(
            OpenFormActionView {
                extension_id: EXTENSION_ID@,
                form_id: add_form_id(clip_type),
                title: add_title(clip_type),
                action_text: "Add Clip"@,
                args: Seq::empty(),
                fields: seq![
                    new_keyword_field(),
                    new_name_field(clip_type),
                    content_field(clip_type, clip_type == ClipType::TextArea, Seq::empty()),
                ],
            },
        ),
    }
}

/// The choice that stands for `clip` in the delete form.
pub open spec fn delete_option(clip: ClipView) -> SelectFieldValueView {
    SelectFieldValueView { id: decimal(clip.id), text: clip.name }
}

/// The choices of the delete form: one for each clip, in the store's order.
pub open spec fn delete_options(clips: Seq<ClipView>) -> Seq<SelectFieldValueView> {
    clips.map_values(|c: ClipView| delete_option(c))
}

/// The entry that opens the delete form for a store that holds `clips`. The
/// form offers every clip, the first one being picked at the start.
pub open spec fn delete_entry_view(clips: Seq<ClipView>) -> SearchResultView
    recommends
        clips.len() > 0,
{
    SearchResultView {
        title: "Delete Clip"@,
        description: "Delete a clip"@,
        icon: IconView::Bundled("trash"@),
        icon_color: Some("accent"@),
        action: ResultActionView::OpenForm(
            OpenFormActionView {
                extension_id: EXTENSION_ID@,
                form_id: "delete-clip"@,
                title: "Delete Clip"@,
                action_text: "Delete"@,
                args: Seq::empty(),
                fields: seq![
                    FieldView {
                        id: "clip"@,
                        title: "Clip"@,
                        description: "Select the clip you wish to delete"@,
                        kind: FieldKindView::Select {
                            default_value: decimal(clips[0].id),
                            values: delete_options(clips),
                        },
                    },
                ],
            },
        ),
    }
}

/// The entry that opens the edit form for `clip`. The form shows the clip's
/// texts as they are stored, and carries the clip's id and type as
/// arguments.
pub open spec fn edit_entry_view(clip: ClipView) -> SearchResultView {
    SearchResultView {
        title: "Edit "@ + clip.name,
        description: "Edit the clip content"@,
        icon: IconView::Bundled("pencil"@),
        icon_color: Some("accent"@),
        action: ResultActionView::OpenForm(
            OpenFormActionView {
                extension_id: EXTENSION_ID@,
                form_id: "edit-clip"@,
                title: "Edit Clip"@,
                action_text: "Save"@,
                args: seq![decimal(clip.id), clip.clip_type.tag()],
                fields: seq![
                    FieldView {
                        id: "keyword"@,
                        title: "Keyword"@,
                        description: "The clip keyword"@,
                        kind: FieldKindView::Text { value: clip.keyword, not_empty: false },
                    },
                    FieldView {
                        id: "name"@,
                        title: "Name"@,
                        description: "The clip name"@,
                        kind: FieldKindView::Text { value: clip.name, not_empty: false },
                    },
                    content_field(clip.clip_type, true, clip.content),
                ],
            },
        ),
    }
}

/// The label of a clip in the list: its keyword in brackets, then its name.
pub open spec fn copy_title(clip: ClipView) -> Seq<char> {
    "("@ + clip.keyword + ") "@ + clip.name
}

/// The entry that copies `clip` for the query `search_text`. A text is
/// copied with its placeholders expanded; an image by its path as stored.
pub open spec fn copy_entry_view(clip: ClipView, search_text: Seq<char>) -> SearchResultView {
    if clip.clip_type == ClipType::Image {
        SearchResultView {
            title: copy_title(clip),
            description: "Copy image"@,
            icon: IconView::File(clip.content),
            icon_color: None,
            action: ResultActionView::CopyImage(clip.content),
        }
    } else {
        SearchResultView {
            title: copy_title(clip),
            description: expanded(clip.content, search_text),
            icon: IconView::Bundled("copy"@),
            icon_color: Some("accent"@),
            action: ResultActionView::CopyText(expanded(clip.content, search_text)),
        }
    }
}

/// The extensions of image files, as a field's filters.
fn image_filters() -> (filters: Vec<String>)
    ensures
        filters.deep_view() == image_extensions(),
{
    let mut filters: Vec<String> = Vec::new();
    filters.push("png".to_owned());
    filters.push("webp".to_owned());
    filters.push("jpg".to_owned());
    filters.push("jpeg".to_owned());
    filters
}

/// The field for the content of a clip of type `clip_type`.
fn new_content_field(clip_type: ClipType, as_block: bool, value: &str) -> (field: Field)
    ensures
        field@ == content_field(clip_type, as_block, value@),
{
    match clip_type {
        ClipType::Image => Field {
            id: "image-path".to_owned(),
            title: "Image".to_owned(),
            description: "Select the image path".to_owned(),
            kind: FieldKind::FileSystem {
                path: value.to_owned(),
                not_empty: true,
                filters: image_filters(),
            },
        },
        _ => Field {
            id: "clip".to_owned(),
            title: "Clip".to_owned(),
            description: "The text of the clip".to_owned(),
            kind: if as_block {
                FieldKind::TextArea { value: value.to_owned(), not_empty: true }
            } else {
                FieldKind::Text { value: value.to_owned(), not_empty: true }
            },
        },
    }
}

/// A field for one line of text.
fn new_text_field(id: &str, title: &str, description: &str, value: &str, not_empty: bool) -> (field:
    Field)
    ensures
        field@ == (FieldView {
            id: id@,
            title: title@,
            description: description@,
            kind: FieldKindView::Text { value: value@, not_empty },
        }),
{
    Field {
        id: id.to_owned(),
        title: title.to_owned(),
        description: description.to_owned(),
        kind: FieldKind::Text { value: value.to_owned(), not_empty },
    }
}

/// An entry with the accent colour that opens `form`.
fn form_entry(title: String, description: &str, icon: &str, form: OpenFormAction) -> (entry:
    SearchResult)
    ensures
        entry@ == (SearchResultView {
            title: title@,
            description: description@,
            icon: IconView::Bundled(icon@),
            icon_color: Some("accent"@),
            action: ResultActionView::OpenForm(form@),
        }),
{
    SearchResult {
        title,
        description: description.to_owned(),
        icon: Icon::Bundled(icon.to_owned()),
        icon_color: Some("accent".to_owned()),
        action: ResultAction::OpenForm(form),
    }
}

/// The entry that opens the form for a new clip of `clip_type`.
pub fn add_entry(clip_type: ClipType) -> (entry: SearchResult)
    ensures
        entry@ == add_entry_view(clip_type),
{
    let (title, description, form_id): (&str, &str, &str) = match clip_type {
        ClipType::Text => ("Add Text Clip", "Add a text clip", "add-text-clip"),
        ClipType::TextArea => ("Add Text Area Clip", "Add a text area clip", "add-text-area-clip"),
        ClipType::Image => ("Add Image Clip", "Add a image clip", "add-image-clip"),
    };
    let name_required = match clip_type {
        ClipType::Image => false,
        _ => true,
    };
    let as_block = match clip_type {
        ClipType::TextArea => true,
        _ => false,
    };
    let mut fields: Vec<Field> = Vec::new();
    fields.push(new_text_field("keyword", "Keyword", "The keyword of the clip", "", true));
    fields.push(new_text_field("name", "Name", "The name of the clip", "", name_required));
    fields.push(new_content_field(clip_type, as_block, ""));
    let form = OpenFormAction {
        extension_id: EXTENSION_ID.to_owned(),
        form_id: form_id.to_owned(),
        title: title.to_owned(),
        action_text: "Add Clip".to_owned(),
        args: Vec::new(),
        fields,
    };
    proof {
        reveal_strlit("");
        assert(""@ =~= Seq::<char>::empty());
        assert(form.args.deep_view() =~= Seq::<Seq<char>>::empty());
        assert(form.fields.deep_view() =~= seq![
            new_keyword_field(),
            new_name_field(clip_type),
            content_field(clip_type, clip_type == ClipType::TextArea, Seq::empty()),
        ]);
    }
    form_entry(title.to_owned(), description, "plus", form)
}

/// The entry that opens the delete form, or `None` for a store without
/// clips, where there is nothing to delete.
pub fn delete_entry(db: &Database) -> (entry: Option<SearchResult>)
    ensures
        entry.deep_view() == if db@.len() == 0 {
            None
        } else {
            Some(delete_entry_view(db@))
        },
{
    let n: usize = db.clips.len();
    if n == 0 {
        return None;
    }
    let mut values: Vec<SelectFieldValue> = Vec::new();
    let mut i: usize = 0;
    while i < n
        invariant
            n == db.clips.len(),
            i <= n,
            values.deep_view() == delete_options(db@.take(i as int)),
        decreases n - i,
    {
        let clip = &db.clips[i];
        let ghost before = values.deep_view();
        values.push(SelectFieldValue { id: decimal_string(clip.id), text: clip.name.clone() });
        assert(delete_options(db@.take(i + 1)) =~= before.push(delete_option(db@[i as int])));
        i = i + 1;
    }
    assert(db@.take(n as int) =~= db@);
    let mut fields: Vec<Field> = Vec::new();
    fields.push(
        Field {
            id: "clip".to_owned(),
            title: "Clip".to_owned(),
            description: "Select the clip you wish to delete".to_owned(),
            kind: FieldKind::Select { default_value: decimal_string(db.clips[0].id), values },
        },
    );
    let form = OpenFormAction {
        extension_id: EXTENSION_ID.to_owned(),
        form_id: "delete-clip".to_owned(),
        title: "Delete Clip".to_owned(),
        action_text: "Delete".to_owned(),
        args: Vec::new(),
        fields,
    };
    proof {
        assert(form.args.deep_view() =~= Seq::<Seq<char>>::empty());
        assert(form.fields.deep_view() =~= seq![form.fields@[0]@]);
    }
    Some(form_entry("Delete Clip".to_owned(), "Delete a clip", "trash", form))
}

/// The entry that opens the edit form for `clip`.
pub fn edit_entry(clip: &Clip) -> (entry: SearchResult)
    ensures
        entry@ == edit_entry_view(clip@),
{
    let mut title = "Edit ".to_owned();
    title.append(clip.name.as_str());
    let mut args: Vec<String> = Vec::new();
    args.push(decimal_string(clip.id));
    args.push(clip.clip_type.to_string());
    let mut fields: Vec<Field> = Vec::new();
    fields.push(
        new_text_field("keyword", "Keyword", "The clip keyword", clip.keyword.as_str(), false),
    );
    fields.push(new_text_field("name", "Name", "The clip name", clip.name.as_str(), false));
    fields.push(new_content_field(clip.clip_type, true, clip.content.as_str()));
    let form = OpenFormAction {
        extension_id: EXTENSION_ID.to_owned(),
        form_id: "edit-clip".to_owned(),
        title: "Edit Clip".to_owned(),
        action_text: "Save".to_owned(),
        args,
        fields,
    };
    proof {
        assert(form.args.deep_view() =~= seq![decimal(clip@.id), clip@.clip_type.tag()]);
        assert(form.fields.deep_view() =~= seq![
            form.fields@[0]@,
            form.fields@[1]@,
            form.fields@[2]@,
        ]);
    }
    form_entry(title, "Edit the clip content", "pencil", form)
}

/// The entry that copies `clip` for the query `search_text`.
pub fn copy_entry(clip: &Clip, search_text: &str) -> (entry: SearchResult)
    ensures
        entry@ == copy_entry_view(clip@, search_text@),
{
    let mut title = "(".to_owned();
    title.append(clip.keyword.as_str());
    title.append(") ");
    title.append(clip.name.as_str());
    match clip.clip_type {
        ClipType::Image => SearchResult {
            title,
            description: "Copy image".to_owned(),
            icon: Icon::File(clip.content.clone()),
            icon_color: None,
            action: ResultAction::CopyImage(clip.content.clone()),
        },
        _ => {
            let text = expand(clip.content.as_str(), search_text);
            SearchResult {
                title,
                description: text.clone(),
                icon: Icon::Bundled("copy".to_owned()),
                icon_color: Some("accent".to_owned()),
                action: ResultAction::CopyText(text),
            }
        },
    }
}

/// The text that a query searches for: what follows the keyword where the
/// parser found one, otherwise the query as it was typed.
pub open spec fn query_text(raw: Seq<char>, query: SearchQueryView) -> Seq<char> {
    if query.keyword is Some {
        query.search_text
    } else {
        raw
    }
}

/// Whether the keyword asks for the edit forms.
pub open spec fn wants_edit(keyword: Option<Seq<char>>) -> bool {
    keyword == Some("e"@) || keyword == Some("edit"@)
}

/// Whether `clip` is offered for editing: its name or its keyword matches
/// the text fuzzily.
pub open spec fn edit_matches(clip: ClipView, text: Seq<char>) -> bool {
    sniffer_matches(clip.name, text) || sniffer_matches(clip.keyword, text)
}

/// Whether `clip` is selected, given whether its name matches the text
/// fuzzily: a clip is selected by its name, or by its keyword where that is
/// exactly the query's keyword or, without one, exactly the text.
pub open spec fn selected_given(
    clip: ClipView,
    keyword: Option<Seq<char>>,
    text: Seq<char>,
    name_matches: bool,
) -> bool {
    name_matches || clip.keyword == match keyword {
        Some(k) => k,
        None => text,
    }
}

/// Whether the query selects `clip`.
pub open spec fn is_selected(clip: ClipView, keyword: Option<Seq<char>>, text: Seq<char>) -> bool {
    selected_given(clip, keyword, text, sniffer_matches(clip.name, text))
}

/// The clips offered for editing, in the store's order.
pub open spec fn edit_matched(clips: Seq<ClipView>, text: Seq<char>) -> Seq<ClipView> {
    clips.filter(|c: ClipView| edit_matches(c, text))
}

/// The clips that the query selects, in the store's order.
pub open spec fn selected(clips: Seq<ClipView>, keyword: Option<Seq<char>>, text: Seq<char>) -> Seq<
    ClipView,
> {
    clips.filter(|c: ClipView| is_selected(c, keyword, text))
}

/// One edit entry for each clip offered for editing.
pub open spec fn edit_entries(clips: Seq<ClipView>, text: Seq<char>) -> Seq<SearchResultView> {
    edit_matched(clips, text).map_values(|c: ClipView| edit_entry_view(c))
}

/// One copy entry for each selected clip.
pub open spec fn copy_entries(
    clips: Seq<ClipView>,
    keyword: Option<Seq<char>>,
    text: Seq<char>,
) -> Seq<SearchResultView> {
    selected(clips, keyword, text).map_values(|c: ClipView| copy_entry_view(c, text))
}

/// What an empty query lists: an entry to add a clip of each type and,
/// where the store holds clips, an entry to delete one.
pub open spec fn listing(clips: Seq<ClipView>) -> Seq<SearchResultView> {
    let adds = seq![
        add_entry_view(ClipType::Text),
        add_entry_view(ClipType::TextArea),
        add_entry_view(ClipType::Image),
    ];
    if clips.len() == 0 {
        adds
    } else {
        adds.push(delete_entry_view(clips))
    }
}

/// The entries that answer a query on a store that holds `clips`. `raw` is
/// the query as typed, `query` what the parser made of it.
pub open spec fn search_results(clips: Seq<ClipView>, raw: Seq<char>, query: SearchQueryView) -> Seq<
    SearchResultView,
> {
    let text = query_text(raw, query);
    if text.len() == 0 {
        listing(clips)
    } else if wants_edit(query.keyword) {
        edit_entries(clips, text) + copy_entries(clips, query.keyword, text)
    } else {
        copy_entries(clips, query.keyword, text)
    }
}

/// One more clip at the end of the store adds its edit entry at the end, if
/// it matches, and changes nothing else.
proof fn lemma_edit_entries_push(clips: Seq<ClipView>, clip: ClipView, text: Seq<char>)
    ensures
        edit_entries(clips.push(clip), text) == if edit_matches(clip, text) {
            edit_entries(clips, text).push(edit_entry_view(clip))
        } else {
            edit_entries(clips, text)
        },
{
    clips.lemma_filter_push(clip, |c: ClipView| edit_matches(c, text));
}

/// One more clip at the end of the store adds its copy entry at the end, if
/// it is selected, and changes nothing else.
proof fn lemma_copy_entries_push(
    clips: Seq<ClipView>,
    clip: ClipView,
    keyword: Option<Seq<char>>,
    text: Seq<char>,
)
    ensures
        copy_entries(clips.push(clip), keyword, text) == if is_selected(clip, keyword, text) {
            copy_entries(clips, keyword, text).push(copy_entry_view(clip, text))
        } else {
            copy_entries(clips, keyword, text)
        },
{
    clips.lemma_filter_push(clip, |c: ClipView| is_selected(c, keyword, text));
}

/// Whether the keyword asks for the edit forms.
pub fn is_edit_keyword(keyword: &Option<String>) -> (edit: bool)
    ensures
        edit == wants_edit(keyword.deep_view()),
{
    match keyword {
        Some(k) => k.as_str().eq("e") || k.as_str().eq("edit"),
        None => false,
    }
}

/// Whether the query selects `clip`, given the answer `name_matches` of the
/// fuzzy match of the clip's name with `text`.
pub fn selects(clip: &Clip, keyword: &Option<String>, text: &str, name_matches: bool) -> (hit: bool)
    ensures
        hit == selected_given(clip@, keyword.deep_view(), text@, name_matches),
{
    name_matches || match keyword {
        Some(k) => clip.keyword.as_str().eq(k.as_str()),
        None => clip.keyword.as_str().eq(text),
    }
}

/// The entries for an empty query.
pub fn list_actions(db: &Database) -> (results: Vec<SearchResult>)
    ensures
        results.deep_view() == listing(db@),
{
    let mut results: Vec<SearchResult> = Vec::new();
    results.push(add_entry(ClipType::Text));
    results.push(add_entry(ClipType::TextArea));
    results.push(add_entry(ClipType::Image));
    match delete_entry(db) {
        Some(entry) => {
            results.push(entry);
        },
        None => {},
    }
    results
}

/// Answers a query. `search_text` is the query as typed and `query` what
/// the host's parser made of it.
///
/// An empty text lists the actions on the store. Otherwise the clips are
/// gone through in the store's order, first for the edit entries where the
/// keyword asks for them, then for the copy entries of the selected clips.
pub fn handle_results(db: &Database, search_text: &str, query: &SearchQuery) -> (results: Vec<
    SearchResult,
>)
    ensures
        results.deep_view() == search_results(db@, search_text@, query@),
{
    let text: &str = match &query.keyword {
        Some(_) => query.search_text.as_str(),
        None => search_text,
    };
    if text.is_empty() {
        return list_actions(db);
    }
    let mut results: Vec<SearchResult> = Vec::new();
    let n: usize = db.clips.len();
    let ghost keyword = query.keyword.deep_view();
    assert(edit_entries(db@.take(0), text@) =~= Seq::<SearchResultView>::empty()) by {
        reveal(Seq::filter);
    }
    assert(copy_entries(db@.take(0), keyword, text@) =~= Seq::<SearchResultView>::empty()) by {
        reveal(Seq::filter);
    }
    if is_edit_keyword(&query.keyword) {
        let mut i: usize = 0;
        while i < n
            invariant
                n == db.clips.len(),
                i <= n,
                results.deep_view() == edit_entries(db@.take(i as int), text@),
            decreases n - i,
        {
            let clip = &db.clips[i];
            proof {
                assert(db@.take(i + 1) =~= db@.take(i as int).push(clip@));
                lemma_edit_entries_push(db@.take(i as int), clip@, text@);
            }
            if fuzzy::matches(clip.name.as_str(), text) || fuzzy::matches(
                clip.keyword.as_str(),
                text,
            ) {
                results.push(edit_entry(clip));
            }
            i = i + 1;
        }
    }
    let ghost edits = results.deep_view();
    let mut i: usize = 0;
    while i < n
        invariant
            n == db.clips.len(),
            i <= n,
            keyword == query.keyword.deep_view(),
            results.deep_view() == edits + copy_entries(db@.take(i as int), keyword, text@),
        decreases n - i,
    {
        let clip = &db.clips[i];
        proof {
            assert(db@.take(i + 1) =~= db@.take(i as int).push(clip@));
            lemma_copy_entries_push(db@.take(i as int), clip@, keyword, text@);
        }
        let name_matches = fuzzy::matches(clip.name.as_str(), text);
        if selects(clip, &query.keyword, text, name_matches) {
            let ghost before = results.deep_view();
            results.push(copy_entry(clip, text));
            assert(before.push(copy_entry_view(clip@, text@)) =~= edits + copy_entries(
                db@.take(i as int),
                keyword,
                text@,
            ).push(copy_entry_view(clip@, text@)));
        }
        i = i + 1;
    }
    assert(db@.take(n as int) =~= db@);
    results
}

/// An empty query lists the three entries that add a clip, in the order
/// text, text area, image, and after them the delete entry where the store
/// holds a clip; nothing else.
pub proof fn lemma_empty_query_listing(clips: Seq<ClipView>, raw: Seq<char>, query: SearchQueryView)
    requires
        query_text(raw, query).len() == 0,
    ensures
        search_results(clips, raw, query).len() == if clips.len() == 0 {
            3nat
        } else {
            4nat
        },
        search_results(clips, raw, query)[0] == add_entry_view(ClipType::Text),
        search_results(clips, raw, query)[1] == add_entry_view(ClipType::TextArea),
        search_results(clips, raw, query)[2] == add_entry_view(ClipType::Image),
        clips.len() > 0 ==> search_results(clips, raw, query)[3] == delete_entry_view(clips),
{
}

/// A clip whose keyword is exactly the keyword of the query, or, where the
/// query has none, exactly its text, is among the results with its copy
/// entry, whether or not its name matches.
pub proof fn lemma_exact_keyword_selects(
    clips: Seq<ClipView>,
    i: int,
    raw: Seq<char>,
    query: SearchQueryView,
)
    requires
        0 <= i < clips.len(),
        query_text(raw, query).len() > 0,
        clips[i].keyword == match query.keyword {
            Some(k) => k,
            None => raw,
        },
    ensures
        is_selected(clips[i], query.keyword, query_text(raw, query)),
        search_results(clips, raw, query).contains(
            copy_entry_view(clips[i], query_text(raw, query)),
        ),
{
    let text = query_text(raw, query);
    let hits = selected(clips, query.keyword, text);
    let copies = copy_entries(clips, query.keyword, text);
    clips.lemma_filter_contains(|c: ClipView| is_selected(c, query.keyword, text), i);
    let k = choose|k: int| 0 <= k < hits.len() && hits[k] == clips[i];
    assert(copies[k] == copy_entry_view(clips[i], text));
    if wants_edit(query.keyword) {
        let edits = edit_entries(clips, text);
        assert((edits + copies)[edits.len() + k] == copies[k]);
    }
}

/// Filtering twice gives the same in either order.
proof fn lemma_filter_swap<A>(s: Seq<A>, p: spec_fn(A) -> bool, q: spec_fn(A) -> bool)
    ensures
        s.filter(p).filter(q) == s.filter(q).filter(p),
    decreases s.len(),
{
    reveal(Seq::filter);
    if s.len() > 0 {
        let rest = s.drop_last();
        let x = s.last();
        lemma_filter_swap(rest, p, q);
        rest.lemma_filter_push(x, p);
        rest.lemma_filter_push(x, q);
        rest.filter(p).lemma_filter_push(x, q);
        rest.filter(q).lemma_filter_push(x, p);
    }
}

/// Once a clip is deleted, no query finds it and the delete form does not
/// offer it: the clips selected, and those offered for editing, are the
/// ones from before without the deleted clip, and no choice of the delete
/// form carries its id.
pub proof fn lemma_delete_then_match(
    clips: Seq<ClipView>,
    id: nat,
    keyword: Option<Seq<char>>,
    text: Seq<char>,
)
    ensures
        selected(without_id(clips, id), keyword, text) == without_id(
            selected(clips, keyword, text),
            id,
        ),
        edit_matched(without_id(clips, id), text) == without_id(edit_matched(clips, text), id),
        !has_id(selected(without_id(clips, id), keyword, text), id),
        !has_id(edit_matched(without_id(clips, id), text), id),
        forall|j: int|
            0 <= j < delete_options(without_id(clips, id)).len() ==> (#[trigger] delete_options(
                without_id(clips, id),
            )[j]).id != decimal(id),
{
    let keep = |c: ClipView| c.id != id;
    lemma_filter_swap(clips, keep, |c: ClipView| is_selected(c, keyword, text));
    lemma_filter_swap(clips, keep, |c: ClipView| edit_matches(c, text));
    lemma_without_id(selected(clips, keyword, text), id);
    lemma_without_id(edit_matched(clips, text), id);
    lemma_without_id(clips, id);
    let left = without_id(clips, id);
    assert forall|j: int| 0 <= j < delete_options(left).len() implies (#[trigger] delete_options(
        left,
    )[j]).id != decimal(id) by {
        if decimal(left[j].id) == decimal(id) {
            lemma_decimal_injective(left[j].id, id);
        }
    }
}

} // verus!
