//! What a result entry can do when the user picks it: copy a text, copy an
//! image, or open a form. A form is described by its fields; the host draws
//! it and sends back what the user filled in.
//!
//! Every type here comes with a view, which holds the same data with texts
//! as sequences of characters. Contracts are written over the views.

use vstd::prelude::*;

verus! {

/// One choice of a select field: the value that is submitted and the text
/// that is shown.
#[derive(Clone, Debug)]
pub struct SelectFieldValue {
    pub id: String,
    pub text: String,
}

/// `SelectFieldValue` as contracts see it.
pub struct SelectFieldValueView {
    pub id: Seq<char>,
    pub text: Seq<char>,
}

impl View for SelectFieldValue {
    type V = SelectFieldValueView;

    open spec fn view(&self) -> SelectFieldValueView {
        SelectFieldValueView { id: self.id@, text: self.text@ }
    }
}

impl DeepView for SelectFieldValue {
    type V = SelectFieldValueView;

    open spec fn deep_view(&self) -> SelectFieldValueView {
        self@
    }
}

/// The input that a field offers, with its initial value and the rule the
/// host checks before it submits the form.
#[derive(Clone, Debug)]
pub enum FieldKind {
    /// One line of text.
    Text { value: String, not_empty: bool },
    /// Several lines of text.
    TextArea { value: String, not_empty: bool },
    /// A path, picked among the files whose extension is one of `filters`.
    FileSystem { path: String, not_empty: bool, filters: Vec<String> },
    /// One of `values`, `default_value` being picked at first.
    Select { default_value: String, values: Vec<SelectFieldValue> },
}

/// `FieldKind` as contracts see it.
pub enum FieldKindView {
    Text { value: Seq<char>, not_empty: bool },
    TextArea { value: Seq<char>, not_empty: bool },
    FileSystem { path: Seq<char>, not_empty: bool, filters: Seq<Seq<char>> },
    Select { default_value: Seq<char>, values: Seq<SelectFieldValueView> },
}

impl View for FieldKind {
    type V = FieldKindView;

    open spec fn view(&self) -> FieldKindView {
        match self {
            FieldKind::Text { value, not_empty } => FieldKindView::Text {
                value: value@,
                not_empty: *not_empty,
            },
            FieldKind::TextArea { value, not_empty } => FieldKindView::TextArea {
                value: value@,
                not_empty: *not_empty,
            },
            FieldKind::FileSystem { path, not_empty, filters } => FieldKindView::FileSystem {
                path: path@,
                not_empty: *not_empty,
                filters: filters.deep_view(),
            },
            FieldKind::Select { default_value, values } => FieldKindView::Select {
                default_value: default_value@,
                values: values.deep_view(),
            },
        }
    }
}

/// One field of a form.
#[derive(Clone, Debug)]
pub struct Field {
    pub id: String,
    pub title: String,
    pub description: String,
    pub kind: FieldKind,
}

/// `Field` as contracts see it.
pub struct FieldView {
    pub id: Seq<char>,
    pub title: Seq<char>,
    pub description: Seq<char>,
    pub kind: FieldKindView,
}

impl View for Field {
    type V = FieldView;

    open spec fn view(&self) -> FieldView {
        FieldView {
            id: self.id@,
            title: self.title@,
            description: self.description@,
            kind: self.kind@,
        }
    }
}

impl DeepView for Field {
    type V = FieldView;

    open spec fn deep_view(&self) -> FieldView {
        self@
    }
}

/// A form to open: who handles its submission, what it is called, and what
/// it asks for. `args` travel with the submission unseen by the user.
#[derive(Clone, Debug)]
pub struct OpenFormAction {
    pub extension_id: String,
    pub form_id: String,
    pub title: String,
    pub action_text: String,
    pub args: Vec<String>,
    pub fields: Vec<Field>,
}

/// `OpenFormAction` as contracts see it.
pub struct OpenFormActionView {
    pub extension_id: Seq<char>,
    pub form_id: Seq<char>,
    pub title: Seq<char>,
    pub action_text: Seq<char>,
    pub args: Seq<Seq<char>>,
    pub fields: Seq<FieldView>,
}

impl View for OpenFormAction {
    type V = OpenFormActionView;

    open spec fn view(&self) -> OpenFormActionView {
        OpenFormActionView {
            extension_id: self.extension_id@,
            form_id: self.form_id@,
            title: self.title@,
            action_text: self.action_text@,
            args: self.args.deep_view(),
            fields: self.fields.deep_view(),
        }
    }
}

/// The one thing a result entry does.
#[derive(Clone, Debug)]
pub enum ResultAction {
    OpenForm(OpenFormAction),
    /// Copy this text.
    CopyText(String),
    /// Copy the image at this path.
    CopyImage(String),
}

/// `ResultAction` as contracts see it.
pub enum ResultActionView {
    OpenForm(OpenFormActionView),
    CopyText(Seq<char>),
    CopyImage(Seq<char>),
}

impl View for ResultAction {
    type V = ResultActionView;

    open spec fn view(&self) -> ResultActionView {
        match self {
            ResultAction::OpenForm(form) => ResultActionView::OpenForm(form@),
            ResultAction::CopyText(text) => ResultActionView::CopyText(text@),
            ResultAction::CopyImage(path) => ResultActionView::CopyImage(path@),
        }
    }
}

/// Where an entry's icon comes from.
#[derive(Clone, Debug)]
pub enum Icon {
    /// One of the icons that the extension ships, by its name.
    Bundled(String),
    /// An image file, by its path.
    File(String),
}

/// `Icon` as contracts see it.
pub enum IconView {
    Bundled(Seq<char>),
    File(Seq<char>),
}

impl View for Icon {
    type V = IconView;

    open spec fn view(&self) -> IconView {
        match self {
            Icon::Bundled(name) => IconView::Bundled(name@),
            Icon::File(path) => IconView::File(path@),
        }
    }
}

/// One line of the list that answers a query.
#[derive(Clone, Debug)]
pub struct SearchResult {
    pub title: String,
    pub description: String,
    pub icon: Icon,
    pub icon_color: Option<String>,
    pub action: ResultAction,
}

/// `SearchResult` as contracts see it.
pub struct SearchResultView {
    pub title: Seq<char>,
    pub description: Seq<char>,
    pub icon: IconView,
    pub icon_color: Option<Seq<char>>,
    pub action: ResultActionView,
}

impl View for SearchResult {
    type V = SearchResultView;

    open spec fn view(&self) -> SearchResultView {
        SearchResultView {
            title: self.title@,
            description: self.description@,
            icon: self.icon@,
            icon_color: self.icon_color.deep_view(),
            action: self.action@,
        }
    }
}

impl DeepView for SearchResult {
    type V = SearchResultView;

    open spec fn deep_view(&self) -> SearchResultView {
        self@
    }
}

} // verus!
