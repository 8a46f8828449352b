//! The fields of a posted form, and the uploads that a conversion reads
//! from them.

use vstd::prelude::*;

verus! {

/// What a form field holds, as far as a conversion tells values apart.
#[derive(Clone, Debug, PartialEq, Eq)]
pub enum FormValue {
    /// An uploaded file, kept at `path` until someone moves it.
    File { path: String },
    /// Anything else: text, a number, a nested value.
    Other,
}

/// A `FormValue` as plain values.
pub enum FormValueView {
    File { path: Seq<char> },
    Other,
}

impl View for FormValue {
    type V = FormValueView;

    open spec fn view(&self) -> FormValueView {
        match self {
            FormValue::File { path } => FormValueView::File { path: path@ },
            FormValue::Other => FormValueView::Other,
        }
    }
}

/// One field of a posted form.
#[derive(Clone, Debug, PartialEq, Eq)]
pub struct FormField {
    pub name: String,
    pub value: FormValue,
}

/// A `FormField` as plain values.
pub struct FormFieldView {
    pub name: Seq<char>,
    pub value: FormValueView,
}

impl View for FormField {
    type V = FormFieldView;

    open spec fn view(&self) -> FormFieldView {
        FormFieldView { name: self.name@, value: self.value@ }
    }
}

impl DeepView for FormField {
    type V = FormFieldView;

    open spec fn deep_view(&self) -> FormFieldView {
        self@
    }
}

/// The path of the file uploaded in the field `name`: that of the first
/// field with this name, if that field holds a file. A field of this name
/// with any other value counts as no upload.
pub open spec fn uploaded_path(form: Seq<FormFieldView>, name: Seq<char>) -> Option<Seq<char>>
    decreases form.len(),
{
    if form.len() == 0 {
        None
    } else if form[0].name == name {
        match form[0].value {
            FormValueView::File { path } => Some(path),
            FormValueView::Other => None,
        }
    } else {
        uploaded_path(form.drop_first(), name)
    }
}

/// The uploads of one conversion request.
#[derive(Clone, Debug, PartialEq, Eq)]
pub struct Uploads {
    /// Where the primary document was put, if one was uploaded.
    pub file: Option<String>,
    /// Where the footer was put, if one was uploaded.
    pub footer: Option<String>,
}

/// `Uploads` as plain values.
pub struct UploadsView {
    pub file: Option<Seq<char>>,
    pub footer: Option<Seq<char>>,
}

impl View for Uploads {
    type V = UploadsView;

    open spec fn view(&self) -> UploadsView {
        UploadsView { file: self.file.deep_view(), footer: self.footer.deep_view() }
    }
}

/// The uploads that a form carries: the primary document in the field
/// `file`, the footer in the field `footer`.
pub open spec fn uploads_of(form: Seq<FormFieldView>) -> UploadsView {
    UploadsView { file: uploaded_path(form, "file"@), footer: uploaded_path(form, "footer"@) }
}

/// The path of the file uploaded in the field `param_name`, if there is
/// one.
pub fn tmp_uploaded_filename(form: &Vec<FormField>, param_name: &str) -> (path: Option<String>)
    ensures
        path.deep_view() == uploaded_path(form.deep_view(), param_name@),
{
    let name = String::from_str(param_name);
    let mut i: usize = 0;
    assert(form.deep_view().skip(0) =~= form.deep_view());
    while i < form.len()
        invariant
            i <= form.len(),
            name@ == param_name@,
            uploaded_path(form.deep_view(), param_name@) == uploaded_path(
                form.deep_view().skip(i as int),
                param_name@,
            ),
        decreases form.len() - i,
    {
        let ghost rest = form.deep_view().skip(i as int);
        assert(rest.len() > 0 && rest[0] == form[i as int]@);
        if form[i].name == name {
            return match &form[i].value {
                FormValue::File { path } => Some(path.clone()),
                FormValue::Other => None,
            };
        }
        assert(rest.drop_first() =~= form.deep_view().skip(i + 1));
        i = i + 1;
    }
    None
}

/// The uploads that `form` carries.
pub fn read_uploads(form: &Vec<FormField>) -> (uploads: Uploads)
    ensures
        uploads@ == uploads_of(form.deep_view()),
{
    Uploads {
        file: tmp_uploaded_filename(form, "file"),
        footer: tmp_uploaded_filename(form, "footer"),
    }
}

} // verus!
