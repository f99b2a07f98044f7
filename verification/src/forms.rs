//! Form submissions: what the user filled into an add, delete or edit form
//! becomes a change of the store, or an error that leaves the store as it
//! was.
//!
//! Saving the changed store and telling the user how it went are left to
//! the caller.

use crate::actions::{OpenFormActionView, SearchResultView};
use crate::db::{next_id, with_update, without_id, ClipType, ClipView, Database};
use crate::results::{
    add_entry_view, add_form_id, delete_entry_view, delete_options, edit_entry_view,
};
use crate::text::{lemma_decimal_round_trip, number, parse_number};
use vstd::prelude::*;

verus! {

/// The value that a submission carries for one field of the form.
#[derive(Clone, Debug)]
pub struct FormResult {
    pub field_id: String,
    pub field_value: String,
}

/// `FormResult` as contracts see it.
pub struct FormResultView {
    pub field_id: Seq<char>,
    pub field_value: Seq<char>,
}

impl View for FormResult {
    type V = FormResultView;

    open spec fn view(&self) -> FormResultView {
        FormResultView { field_id: self.field_id@, field_value: self.field_value@ }
    }
}

impl DeepView for FormResult {
    type V = FormResultView;

    open spec fn deep_view(&self) -> FormResultView {
        self@
    }
}

/// A submitted form: which form it was, the values of its fields, and the
/// arguments that the form was opened with.
#[derive(Clone, Debug)]
pub struct FormResultsRequest {
    pub form_id: String,
    pub results: Vec<FormResult>,
    pub args: Vec<String>,
}

/// `FormResultsRequest` as contracts see it.
pub struct FormResultsRequestView {
    pub form_id: Seq<char>,
    pub results: Seq<FormResultView>,
    pub args: Seq<Seq<char>>,
}

impl View for FormResultsRequest {
    type V = FormResultsRequestView;

    open spec fn view(&self) -> FormResultsRequestView {
        FormResultsRequestView {
            form_id: self.form_id@,
            results: self.results.deep_view(),
            args: self.args.deep_view(),
        }
    }
}

/// The value submitted for the field `field_id`: that of the first result
/// with this id, if there is one.
pub open spec fn field_value(results: Seq<FormResultView>, field_id: Seq<char>) -> Option<Seq<char>>
    decreases results.len(),
{
    if results.len() == 0 {
        None
    } else if results[0].field_id == field_id {
        Some(results[0].field_value)
    } else {
        field_value(results.drop_first(), field_id)
    }
}

impl FormResultsRequest {
    /// The value submitted for the field `field_id`.
    pub fn get_string_value(&self, field_id: &str) -> (value: Option<String>)
        ensures
            value.deep_view() == field_value(self@.results, field_id@),
    {
        let n: usize = self.results.len();
        let mut i: usize = 0;
        assert(self@.results.skip(0) =~= self@.results);
        while i < n
            invariant
                n == self.results.len(),
                i <= n,
                field_value(self@.results.skip(i as int), field_id@) == field_value(
                    self@.results,
                    field_id@,
                ),
            decreases n - i,
        {
            let ghost rest = self@.results.skip(i as int);
            if self.results[i].field_id.as_str().eq(field_id) {
                return Some(self.results[i].field_value.clone());
            }
            assert(rest.drop_first() =~= self@.results.skip(i + 1));
            i = i + 1;
        }
        None
    }
}

/// The fields of the forms whose values a submission is read from.
#[derive(Clone, Copy, Debug, PartialEq, Eq, Structural)]
pub enum FormField {
    Keyword,
    Name,
    Clip,
    ImagePath,
}

impl FormField {
    /// The id under which the field's value is submitted.
    pub open spec fn id(self) -> Seq<char> {
        match self {
            FormField::Keyword => "keyword"@,
            FormField::Name => "name"@,
            FormField::Clip => "clip"@,
            FormField::ImagePath => "image-path"@,
        }
    }

    /// The id under which the field's value is submitted.
    pub fn field_id(&self) -> (id: &'static str)
        ensures
            id@ == self.id(),
    {
        match self {
            FormField::Keyword => "keyword",
            FormField::Name => "name",
            FormField::Clip => "clip",
            FormField::ImagePath => "image-path",
        }
    }
}

/// Why a submission was turned down.
#[derive(Clone, Copy, Debug, PartialEq, Eq, Structural)]
pub enum ValidationError {
    /// No value was submitted for a field that the form has.
    MissingField(FormField),
    /// The value of a field that must be filled in is empty.
    EmptyField(FormField),
    /// The form was opened without an argument that its handling needs.
    MissingArgument,
    /// What should name a clip is not a number.
    InvalidId,
}

impl ValidationError {
    /// Whether the error ends the request as a failure. A field that is
    /// missing or empty is the user's to mend: the user is told, and the
    /// request ends well. An argument that is missing or an id that is no
    /// number cannot come from a form of this library as the user sees it.
    pub open spec fn fatal(self) -> bool {
        self is MissingArgument || self is InvalidId
    }

    /// Whether the error ends the request as a failure.
    pub fn is_fatal(&self) -> (fatal: bool)
        ensures
            fatal == self.fatal(),
    {
        match self {
            ValidationError::MissingArgument => true,
            ValidationError::InvalidId => true,
            _ => false,
        }
    }
}

/// What a submission did to the store.
#[derive(Clone, Copy, Debug, PartialEq, Eq, Structural)]
pub enum FormOutcome {
    Added,
    Deleted,
    Edited,
    /// The form is none of this library's: nothing was done.
    Ignored,
}

impl FormOutcome {
    /// What to tell the user, where something was done.
    pub open spec fn notice(self) -> Option<Seq<char>> {
        match self {
            FormOutcome::Added => Some("Clip added successfully"@),
            FormOutcome::Deleted => Some("Clip deleted successfully"@),
            FormOutcome::Edited => Some("Clip edited successfully"@),
            FormOutcome::Ignored => None,
        }
    }

    /// What to tell the user, where something was done.
    pub fn message(&self) -> (text: Option<String>)
        ensures
            text.deep_view() == self.notice(),
    {
        match self {
            FormOutcome::Added => Some("Clip added successfully".to_owned()),
            FormOutcome::Deleted => Some("Clip deleted successfully".to_owned()),
            FormOutcome::Edited => Some("Clip edited successfully".to_owned()),
            FormOutcome::Ignored => None,
        }
    }
}

/// The forms that this library handles.
#[derive(Clone, Copy, Debug, PartialEq, Eq, Structural)]
pub enum FormKind {
    Add(ClipType),
    Delete,
    Edit,
}

/// The form that a form id names, if it is one of this library's.
pub open spec fn form_kind(form_id: Seq<char>) -> Option<FormKind> {
    if form_id == add_form_id(ClipType::Text) {
        Some(FormKind::Add(ClipType::Text))
    } else if form_id == add_form_id(ClipType::TextArea) {
        Some(FormKind::Add(ClipType::TextArea))
    } else if form_id == add_form_id(ClipType::Image) {
        Some(FormKind::Add(ClipType::Image))
    } else if form_id == "delete-clip"@ {
        Some(FormKind::Delete)
    } else if form_id == "edit-clip"@ {
        Some(FormKind::Edit)
    } else {
        None
    }
}

/// The form that `form_id` names, if it is one of this library's.
pub fn classify(form_id: &str) -> (kind: Option<FormKind>)
    ensures
        kind == form_kind(form_id@),
{
    if form_id.eq("add-text-clip") {
        Some(FormKind::Add(ClipType::Text))
    } else if form_id.eq("add-text-area-clip") {
        Some(FormKind::Add(ClipType::TextArea))
    } else if form_id.eq("add-image-clip") {
        Some(FormKind::Add(ClipType::Image))
    } else if form_id.eq("delete-clip") {
        Some(FormKind::Delete)
    } else if form_id.eq("edit-clip") {
        Some(FormKind::Edit)
    } else {
        None
    }
}

/// The value submitted for `field`, which may be empty.
pub open spec fn present(results: Seq<FormResultView>, field: FormField) -> Result<
    Seq<char>,
    ValidationError,
> {
    match field_value(results, field.id()) {
        Some(value) => Ok(value),
        None => Err(ValidationError::MissingField(field)),
    }
}

/// The value submitted for `field`, which must not be empty.
pub open spec fn required(results: Seq<FormResultView>, field: FormField) -> Result<
    Seq<char>,
    ValidationError,
> {
    match field_value(results, field.id()) {
        Some(value) => if value.len() == 0 {
            Err(ValidationError::EmptyField(field))
        } else {
            Ok(value)
        },
        None => Err(ValidationError::MissingField(field)),
    }
}

/// The field that holds the content of a clip of type `clip_type`.
pub open spec fn content_field_of(clip_type: ClipType) -> FormField {
    if clip_type == ClipType::Image {
        FormField::ImagePath
    } else {
        FormField::Clip
    }
}

/// The store after an add form for a clip of `clip_type` was submitted. The
/// keyword, the name and the content are read in this order; each must be
/// filled in, but for the name of an image clip, which may be empty.
pub open spec fn added(clips: Seq<ClipView>, request: FormResultsRequestView, clip_type: ClipType) -> Result<
    Seq<ClipView>,
    ValidationError,
> {
    let name = if clip_type == ClipType::Image {
        present(request.results, FormField::Name)
    } else {
        required(request.results, FormField::Name)
    };
    match (
        required(request.results, FormField::Keyword),
        name,
        required(request.results, content_field_of(clip_type)),
    ) {
        (Err(e), _, _) => Err(e),
        (Ok(_), Err(e), _) => Err(e),
        (Ok(_), Ok(_), Err(e)) => Err(e),
        (Ok(keyword), Ok(name), Ok(content)) => Ok(
            clips.push(ClipView { id: next_id(clips), keyword, name, content, clip_type }),
        ),
    }
}

/// The store after the delete form was submitted: the clip that the field
/// `clip` names by its id is gone.
pub open spec fn deleted(clips: Seq<ClipView>, request: FormResultsRequestView) -> Result<
    Seq<ClipView>,
    ValidationError,
> {
    match field_value(request.results, FormField::Clip.id()) {
        None => Err(ValidationError::MissingField(FormField::Clip)),
        Some(value) => match number(value) {
            None => Err(ValidationError::InvalidId),
            Some(id) => Ok(without_id(clips, id)),
        },
    }
}

/// The store after the edit form was submitted. The form's first argument
/// is the clip's id and its second the clip's type, which tells the field
/// that holds the content. Keyword and name may be empty, the content may
/// not.
pub open spec fn changed(clips: Seq<ClipView>, request: FormResultsRequestView) -> Result<
    Seq<ClipView>,
    ValidationError,
> {
    if request.args.len() == 0 {
        Err(ValidationError::MissingArgument)
    } else {
        match number(request.args[0]) {
            None => Err(ValidationError::InvalidId),
            Some(id) => if request.args.len() < 2 {
                Err(ValidationError::MissingArgument)
            } else {
                let content_field = if request.args[1] == ClipType::Image.tag() {
                    FormField::ImagePath
                } else {
                    FormField::Clip
                };
                match (
                    present(request.results, FormField::Keyword),
                    present(request.results, FormField::Name),
                    required(request.results, content_field),
                ) {
                    (Err(e), _, _) => Err(e),
                    (Ok(_), Err(e), _) => Err(e),
                    (Ok(_), Ok(_), Err(e)) => Err(e),
                    (Ok(keyword), Ok(name), Ok(content)) => Ok(
                        with_update(clips, id, keyword, name, content),
                    ),
                }
            },
        }
    }
}

/// What a submission does: the store after it and what was done, or the
/// error, with which the store stays as it was. A form that is none of this
/// library's is passed over.
pub open spec fn form_effect(clips: Seq<ClipView>, request: FormResultsRequestView) -> Result<
    (Seq<ClipView>, FormOutcome),
    ValidationError,
> {
    match form_kind(request.form_id) {
        None => Ok((clips, FormOutcome::Ignored)),
        Some(FormKind::Add(clip_type)) => match added(clips, request, clip_type) {
            Ok(after) => Ok((after, FormOutcome::Added)),
            Err(e) => Err(e),
        },
        Some(FormKind::Delete) => match deleted(clips, request) {
            Ok(after) => Ok((after, FormOutcome::Deleted)),
            Err(e) => Err(e),
        },
        Some(FormKind::Edit) => match changed(clips, request) {
            Ok(after) => Ok((after, FormOutcome::Edited)),
            Err(e) => Err(e),
        },
    }
}

/// Reads the value of `field`, which may be empty.
fn read_present(request: &FormResultsRequest, field: FormField) -> (value: Result<
    String,
    ValidationError,
>)
    ensures
        match present(request@.results, field) {
            Ok(v) => value is Ok && value->Ok_0@ == v,
            Err(e) => value == Err::<String, ValidationError>(e),
        },
{
    match request.get_string_value(field.field_id()) {
        Some(value) => Ok(value),
        None => Err(ValidationError::MissingField(field)),
    }
}

/// Reads the value of `field`, which must not be empty.
fn read_required(request: &FormResultsRequest, field: FormField) -> (value: Result<
    String,
    ValidationError,
>)
    ensures
        match required(request@.results, field) {
            Ok(v) => value is Ok && value->Ok_0@ == v,
            Err(e) => value == Err::<String, ValidationError>(e),
        },
{
    match request.get_string_value(field.field_id()) {
        Some(value) => if value.as_str().is_empty() {
            Err(ValidationError::EmptyField(field))
        } else {
            Ok(value)
        },
        None => Err(ValidationError::MissingField(field)),
    }
}

/// Handles an add form.
fn handle_add(db: &mut Database, request: &FormResultsRequest, clip_type: ClipType) -> (done: Result<
    FormOutcome,
    ValidationError,
>)
    requires
        added(old(db)@, request@, clip_type) is Ok ==> next_id(old(db)@) <= usize::MAX,
    ensures
        match added(old(db)@, request@, clip_type) {
            Ok(clips) => done == Ok::<FormOutcome, ValidationError>(FormOutcome::Added)
                && final(db)@ == clips,
            Err(e) => done == Err::<FormOutcome, ValidationError>(e) && final(db)@ == old(db)@,
        },
        old(db).wf() ==> final(db).wf(),
{
    let keyword = match read_required(request, FormField::Keyword) {
        Ok(value) => value,
        Err(e) => {
            return Err(e);
        },
    };
    let name_read = match clip_type {
        ClipType::Image => read_present(request, FormField::Name),
        _ => read_required(request, FormField::Name),
    };
    let name = match name_read {
        Ok(value) => value,
        Err(e) => {
            return Err(e);
        },
    };
    let content_field = match clip_type {
        ClipType::Image => FormField::ImagePath,
        _ => FormField::Clip,
    };
    let content = match read_required(request, content_field) {
        Ok(value) => value,
        Err(e) => {
            return Err(e);
        },
    };
    db.add(keyword.as_str(), name.as_str(), content.as_str(), clip_type);
    Ok(FormOutcome::Added)
}

/// Handles the delete form.
fn handle_delete(db: &mut Database, request: &FormResultsRequest) -> (done: Result<
    FormOutcome,
    ValidationError,
>)
    ensures
        match deleted(old(db)@, request@) {
            Ok(clips) => done == Ok::<FormOutcome, ValidationError>(FormOutcome::Deleted)
                && final(db)@ == clips,
            Err(e) => done == Err::<FormOutcome, ValidationError>(e) && final(db)@ == old(db)@,
        },
        old(db).wf() ==> final(db).wf(),
{
    let value = match request.get_string_value(FormField::Clip.field_id()) {
        Some(value) => value,
        None => {
            return Err(ValidationError::MissingField(FormField::Clip));
        },
    };
    match parse_number(value.as_str()) {
        Some(id) => {
            db.remove(id);
            Ok(FormOutcome::Deleted)
        },
        None => Err(ValidationError::InvalidId),
    }
}

/// Handles the edit form.
fn handle_edit(db: &mut Database, request: &FormResultsRequest) -> (done: Result<
    FormOutcome,
    ValidationError,
>)
    ensures
        match changed(old(db)@, request@) {
            Ok(clips) => done == Ok::<FormOutcome, ValidationError>(FormOutcome::Edited)
                && final(db)@ == clips,
            Err(e) => done == Err::<FormOutcome, ValidationError>(e) && final(db)@ == old(db)@,
        },
        old(db).wf() ==> final(db).wf(),
{
    if request.args.len() == 0 {
        return Err(ValidationError::MissingArgument);
    }
    let id: usize = match parse_number(request.args[0].as_str()) {
        Some(id) => id,
        None => {
            return Err(ValidationError::InvalidId);
        },
    };
    if request.args.len() < 2 {
        return Err(ValidationError::MissingArgument);
    }
    let content_field = if request.args[1].as_str().eq("Image") {
        FormField::ImagePath
    } else {
        FormField::Clip
    };
    let keyword = match read_present(request, FormField::Keyword) {
        Ok(value) => value,
        Err(e) => {
            return Err(e);
        },
    };
    let name = match read_present(request, FormField::Name) {
        Ok(value) => value,
        Err(e) => {
            return Err(e);
        },
    };
    let content = match read_required(request, content_field) {
        Ok(value) => value,
        Err(e) => {
            return Err(e);
        },
    };
    db.update(id, keyword.as_str(), name.as_str(), content.as_str());
    Ok(FormOutcome::Edited)
}

/// Applies a submitted form to the store.
///
/// On an error the store is unchanged. On `Ignored` it is unchanged too;
/// on every other outcome the caller saves it. A clip can only be added
/// while the next id fits the machine's word.
pub fn handle_forms(db: &mut Database, request: &FormResultsRequest) -> (done: Result<
    FormOutcome,
    ValidationError,
>)
    requires
        form_effect(old(db)@, request@) matches Ok((_, FormOutcome::Added)) ==> next_id(old(db)@)
            <= usize::MAX,
    ensures
        match form_effect(old(db)@, request@) {
            Ok((clips, outcome)) => done == Ok::<FormOutcome, ValidationError>(outcome)
                && final(db)@ == clips,
            Err(e) => done == Err::<FormOutcome, ValidationError>(e) && final(db)@ == old(db)@,
        },
        old(db).wf() ==> final(db).wf(),
{
    match classify(request.form_id.as_str()) {
        Some(FormKind::Add(clip_type)) => handle_add(db, request, clip_type),
        Some(FormKind::Delete) => handle_delete(db, request),
        Some(FormKind::Edit) => handle_edit(db, request),
        None => Ok(FormOutcome::Ignored),
    }
}

/// What comes back for `form` when the user has filled in `values`, one for
/// each field in the form's order: the form's id and arguments, and each
/// value under its field's id.
pub open spec fn submission(form: OpenFormActionView, values: Seq<Seq<char>>) -> FormResultsRequestView {
    FormResultsRequestView {
        form_id: form.form_id,
        results: Seq::new(
            form.fields.len(),
            |i: int| FormResultView { field_id: form.fields[i].id, field_value: values[i] },
        ),
        args: form.args,
    }
}

/// The form that `entry` opens.
pub open spec fn form_of(entry: SearchResultView) -> OpenFormActionView
    recommends
        entry.action is OpenForm,
{
    entry.action->OpenForm_0
}

/// The ids of forms and fields are all different from each other.
proof fn lemma_ids_differ()
    ensures
        form_kind(add_form_id(ClipType::Text)) == Some(FormKind::Add(ClipType::Text)),
        form_kind(add_form_id(ClipType::TextArea)) == Some(FormKind::Add(ClipType::TextArea)),
        form_kind(add_form_id(ClipType::Image)) == Some(FormKind::Add(ClipType::Image)),
        form_kind("delete-clip"@) == Some(FormKind::Delete),
        form_kind("edit-clip"@) == Some(FormKind::Edit),
        FormField::Keyword.id() != FormField::Name.id(),
        FormField::Keyword.id() != FormField::Clip.id(),
        FormField::Keyword.id() != FormField::ImagePath.id(),
        FormField::Name.id() != FormField::Clip.id(),
        FormField::Name.id() != FormField::ImagePath.id(),
        FormField::Clip.id() != FormField::ImagePath.id(),
        ClipType::Text.tag() != ClipType::Image.tag(),
        ClipType::TextArea.tag() != ClipType::Image.tag(),
{
    reveal_strlit("add-text-clip");
    reveal_strlit("add-text-area-clip");
    reveal_strlit("add-image-clip");
    reveal_strlit("delete-clip");
    reveal_strlit("edit-clip");
    reveal_strlit("keyword");
    reveal_strlit("name");
    reveal_strlit("clip");
    reveal_strlit("image-path");
    reveal_strlit("Text");
    reveal_strlit("TextArea");
    reveal_strlit("Image");
    assert("add-text-clip"@.len() == 13 && "add-text-area-clip"@.len() == 18);
    assert("add-image-clip"@.len() == 14 && "delete-clip"@.len() == 11);
    assert("keyword"@.len() == 7 && "name"@.len() == 4 && "image-path"@.len() == 10);
    assert("clip"@[0] == 'c' && "name"@[0] == 'n');
    assert("Text"@.len() == 4 && "TextArea"@.len() == 8 && "Image"@.len() == 5);
}

/// The add forms and their handling fit together: when the form that an
/// add entry opens comes back with a keyword, a name and a content, none of
/// them empty but perhaps the name of an image clip, the store gets a new
/// clip of the entry's type with these texts and the next id.
pub proof fn lemma_add_form_round_trip(
    clips: Seq<ClipView>,
    clip_type: ClipType,
    keyword: Seq<char>,
    name: Seq<char>,
    content: Seq<char>,
)
    requires
        keyword.len() > 0,
        content.len() > 0,
        name.len() > 0 || clip_type == ClipType::Image,
    ensures
        form_effect(
            clips,
            submission(form_of(add_entry_view(clip_type)), seq![keyword, name, content]),
        ) == Ok::<(Seq<ClipView>, FormOutcome), ValidationError>(
            (
                clips.push(ClipView { id: next_id(clips), keyword, name, content, clip_type }),
                FormOutcome::Added,
            ),
        ),
{
    lemma_ids_differ();
    let request = submission(form_of(add_entry_view(clip_type)), seq![keyword, name, content]);
    lemma_three_values(request.results);
}

/// The delete form and its handling fit together: when the form that the
/// delete entry opens comes back with the choice that stands for a clip,
/// the clips with that clip's id leave the store.
pub proof fn lemma_delete_form_round_trip(clips: Seq<ClipView>, i: int)
    requires
        0 <= i < clips.len(),
        clips[i].id <= usize::MAX,
    ensures
        form_effect(
            clips,
            submission(form_of(delete_entry_view(clips)), seq![delete_options(clips)[i].id]),
        ) == Ok::<(Seq<ClipView>, FormOutcome), ValidationError>(
            (without_id(clips, clips[i].id), FormOutcome::Deleted),
        ),
{
    lemma_ids_differ();
    lemma_decimal_round_trip(clips[i].id);
}

/// The edit form and its handling fit together: when the form that the edit
/// entry of a clip opens comes back with a keyword, a name and a content
/// that is not empty, the clips with that clip's id get these texts.
pub proof fn lemma_edit_form_round_trip(
    clips: Seq<ClipView>,
    i: int,
    keyword: Seq<char>,
    name: Seq<char>,
    content: Seq<char>,
)
    requires
        0 <= i < clips.len(),
        clips[i].id <= usize::MAX,
        content.len() > 0,
    ensures
        form_effect(
            clips,
            submission(form_of(edit_entry_view(clips[i])), seq![keyword, name, content]),
        ) == Ok::<(Seq<ClipView>, FormOutcome), ValidationError>(
            (with_update(clips, clips[i].id, keyword, name, content), FormOutcome::Edited),
        ),
{
    lemma_ids_differ();
    lemma_decimal_round_trip(clips[i].id);
    let request = submission(form_of(edit_entry_view(clips[i])), seq![keyword, name, content]);
    lemma_three_values(request.results);
}

/// Among three results with different field ids, each value is found under
/// its own id.
proof fn lemma_three_values(results: Seq<FormResultView>)
    requires
        results.len() == 3,
        results[0].field_id != results[1].field_id,
        results[0].field_id != results[2].field_id,
        results[1].field_id != results[2].field_id,
    ensures
        field_value(results, results[0].field_id) == Some(results[0].field_value),
        field_value(results, results[1].field_id) == Some(results[1].field_value),
        field_value(results, results[2].field_id) == Some(results[2].field_value),
{
    reveal_with_fuel(field_value, 4);
}

} // verus!
