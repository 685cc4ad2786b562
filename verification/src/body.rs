use vstd::prelude::*;
use crate::key_value::KeyValue;
use crate::key_value::KeyValueView;
use crate::key_value::copy_rows;
use crate::key_value::views;

verus! {

/// The body of a request, by its encoding.
#[derive(Debug)]
pub enum ContentType {
    Raw(String),
    Json(String),
    Xml(String),
    Html(String),
    Form(Vec<KeyValue>),
    Multipart(Vec<KeyValue>),
}

/// What a [`ContentType`] holds.
#[verifier::ext_equal]
pub enum ContentTypeView {
    Raw(Seq<char>),
    Json(Seq<char>),
    Xml(Seq<char>),
    Html(Seq<char>),
    Form(Seq<KeyValueView>),
    Multipart(Seq<KeyValueView>),
}

/// How a body is edited: as a table of rows or as one text.
#[derive(Clone, Copy, Debug, PartialEq, Eq, Structural)]
pub enum EditFamily {
    TabularEditable,
    StringEditable,
}

impl View for ContentType {
    type V = ContentTypeView;

    open spec fn view(&self) -> ContentTypeView {
        match self {
            ContentType::Raw(text) => ContentTypeView::Raw(text@),
            ContentType::Json(text) => ContentTypeView::Json(text@),
            ContentType::Xml(text) => ContentTypeView::Xml(text@),
            ContentType::Html(text) => ContentTypeView::Html(text@),
            ContentType::Form(rows) => ContentTypeView::Form(views(rows@)),
            ContentType::Multipart(rows) => ContentTypeView::Multipart(views(rows@)),
        }
    }
}

impl ContentTypeView {
    /// `Form` and `Multipart` bodies are tables; every other body is a text.
    pub open spec fn family(self) -> EditFamily {
        match self {
            ContentTypeView::Form(_) | ContentTypeView::Multipart(_) => EditFamily::TabularEditable,
            _ => EditFamily::StringEditable,
        }
    }

    /// The rows of a tabular body; no rows for a text body.
    pub open spec fn form(self) -> Seq<KeyValueView> {
        match self {
            ContentTypeView::Form(rows) | ContentTypeView::Multipart(rows) => rows,
            _ => Seq::empty(),
        }
    }

    /// The text of a text body; no text for a tabular body.
    pub open spec fn text(self) -> Seq<char> {
        match self {
            ContentTypeView::Raw(text)
            | ContentTypeView::Json(text)
            | ContentTypeView::Xml(text)
            | ContentTypeView::Html(text) => text,
            _ => Seq::empty(),
        }
    }
}

impl ContentType {
    /// The family by which this body is edited.
    pub fn classify(&self) -> (family: EditFamily)
        ensures
            family == self@.family(),
    {
        match self {
            ContentType::Form(_) | ContentType::Multipart(_) => EditFamily::TabularEditable,
            _ => EditFamily::StringEditable,
        }
    }

    /// A copy of the rows of a tabular body; no rows for a text body.
    pub fn form(&self) -> (rows: Vec<KeyValue>)
        ensures
            views(rows@) == self@.form(),
    {
        match self {
            ContentType::Form(rows) | ContentType::Multipart(rows) => copy_rows(rows),
            _ => {
                let rows: Vec<KeyValue> = Vec::new();
                assert(views(rows@) =~= Seq::<KeyValueView>::empty());
                rows
            },
        }
    }

    /// A copy of the text of a text body; no text for a tabular body.
    pub fn text(&self) -> (text: String)
        ensures
            text@ == self@.text(),
    {
        match self {
            ContentType::Raw(text)
            | ContentType::Json(text)
            | ContentType::Xml(text)
            | ContentType::Html(text) => text.clone(),
            _ => String::new(),
        }
    }
}

impl Clone for ContentType {
    fn clone(&self) -> (copy: ContentType)
        ensures
            copy@ == self@,
    {
        match self {
            ContentType::Raw(text) => ContentType::Raw(text.clone()),
            ContentType::Json(text) => ContentType::Json(text.clone()),
            ContentType::Xml(text) => ContentType::Xml(text.clone()),
            ContentType::Html(text) => ContentType::Html(text.clone()),
            ContentType::Form(rows) => ContentType::Form(copy_rows(rows)),
            ContentType::Multipart(rows) => ContentType::Multipart(copy_rows(rows)),
        }
    }
}

} // verus!
