pub mod form_field;
pub mod helpers;
pub mod schema;

use vstd::prelude::*;

verus! {

/// The view of one attribute: its name and, if it has one, its value.
pub type AttrView = (Seq<char>, Option<Seq<char>>);

/// The view of one resolved input field, as the renderer sees it.
pub struct FieldView {
    pub input_type: Seq<char>,
    pub name: Seq<char>,
    pub id: Option<Seq<char>>,
    pub label: Option<Seq<char>>,
    pub required: bool,
    pub attributes: Seq<AttrView>,
    pub value: Option<Seq<char>>,
}

/// The view of a whole form under construction.
pub struct FormBuilderView {
    pub method: Seq<char>,
    pub action: Option<Seq<char>>,
    pub submit: Option<Seq<char>>,
    pub form_attrs: Option<Seq<AttrView>>,
    pub button_attrs: Option<Seq<AttrView>>,
    pub fields: Seq<FieldView>,
}

/// One resolved input field of a form: everything the renderer needs to
/// emit its `<input>` tag, and the `<label>` around it if there is one.
pub struct Field {
    pub input_type: String,
    pub name: String,
    pub id: Option<String>,
    pub label: Option<String>,
    pub required: bool,
    pub attributes: Vec<(String, Option<String>)>,
    pub value: Option<String>,
}

impl View for Field {
    type V = FieldView;

    open spec fn view(&self) -> FieldView {
        FieldView {
            input_type: self.input_type@,
            name: self.name@,
            id: self.id.deep_view(),
            label: self.label.deep_view(),
            required: self.required,
            attributes: self.attributes.deep_view(),
            value: self.value.deep_view(),
        }
    }
}

impl DeepView for Field {
    type V = FieldView;

    open spec fn deep_view(&self) -> FieldView {
        self.view()
    }
}

/// An ordered form under construction: method, action, submit label,
/// extra attributes for the `<form>` and `<button>` tags, and the fields
/// in the order they will be rendered.
pub struct FormBuilder {
    method: String,
    action: Option<String>,
    submit: Option<String>,
    form_attrs: Option<Vec<(String, Option<String>)>>,
    button_attrs: Option<Vec<(String, Option<String>)>>,
    pub fields: Vec<Field>,
}

impl View for FormBuilder {
    type V = FormBuilderView;

    closed spec fn view(&self) -> FormBuilderView {
        FormBuilderView {
            method: self.method@,
            action: self.action.deep_view(),
            submit: self.submit.deep_view(),
            form_attrs: self.form_attrs.deep_view(),
            button_attrs: self.button_attrs.deep_view(),
            fields: self.fields.deep_view(),
        }
    }
}

/// An error raised while populating a form from a record: the first field
/// whose serializer failed, by its declared name.
#[derive(Debug)]
pub enum FormSerializeError {
    FieldSerializationError(String),
}

/// The declared name of the field that a serialization error reports.
pub open spec fn error_field_name(e: FormSerializeError) -> Seq<char> {
    match e {
        FormSerializeError::FieldSerializationError(s) => s@,
    }
}

impl FormSerializeError {
    /// The name of the field that failed to serialize.
    pub fn field_name(&self) -> (r: &String)
        ensures
            r@ == error_field_name(*self),
    {
        match self {
            FormSerializeError::FieldSerializationError(s) => s,
        }
    }
}

/// A record type that knows how to describe itself as a form: an empty
/// template, and a populated form carrying its serialized field values.
pub trait ToForm {
    fn to_form() -> FormBuilder;

    fn serialize(&self) -> Result<FormBuilder, FormSerializeError>;
}

/// One attribute as it appears inside a tag: a leading space, the name,
/// and `="value"` if the attribute carries a value.
pub open spec fn render_attr(a: AttrView) -> Seq<char> {
    match a.1 {
        Some(v) => " "@ + a.0 + "=\""@ + v + "\""@,
        None => " "@ + a.0,
    }
}

/// All attributes of a tag, in sequence order.
pub open spec fn render_attrs(attrs: Seq<AttrView>) -> Seq<char>
    decreases attrs.len(),
{
    if attrs.len() == 0 {
        Seq::<char>::empty()
    } else {
        render_attrs(attrs.drop_last()) + render_attr(attrs.last())
    }
}

/// The opening of a field's label: nothing when the field has no label,
/// else `<label`, a `for` target when the field has an id, `>`, and the
/// label text. The matching `</label>` closes after the input tag.
pub open spec fn render_label_open(f: FieldView) -> Seq<char> {
    match f.label {
        Some(l) => "<label"@ + (match f.id {
            Some(i) => " for=\""@ + i + "\""@,
            None => Seq::<char>::empty(),
        }) + ">"@ + l,
        None => Seq::<char>::empty(),
    }
}

/// A field's `<input>` tag: name, type, then id, `required`, value and
/// the extra attributes, in exactly that order.
pub open spec fn render_input(f: FieldView) -> Seq<char> {
    "<input name=\""@ + f.name + "\" type=\""@ + f.input_type + "\""@ + (match f.id {
        Some(i) => " id=\""@ + i + "\""@,
        None => Seq::<char>::empty(),
    }) + (if f.required {
        " required"@
    } else {
        Seq::<char>::empty()
    }) + (match f.value {
        Some(v) => " value=\""@ + v + "\""@,
        None => Seq::<char>::empty(),
    }) + render_attrs(f.attributes) + ">"@
}

/// One field: the label opening, the input tag, and the label closing
/// when a label was opened.
pub open spec fn render_field(f: FieldView) -> Seq<char> {
    render_label_open(f) + render_input(f) + (if f.label is Some {
        "</label>"@
    } else {
        Seq::<char>::empty()
    })
}

/// All fields of the form, in schema order.
pub open spec fn render_fields(fs: Seq<FieldView>) -> Seq<char>
    decreases fs.len(),
{
    if fs.len() == 0 {
        Seq::<char>::empty()
    } else {
        render_fields(fs.drop_last()) + render_field(fs.last())
    }
}

/// The opening `<form>` tag: action (empty when unset), method, the
/// form-level extra attributes, and the closing `>`.
pub open spec fn render_form_open(b: FormBuilderView) -> Seq<char> {
    "<form action=\""@ + (match b.action {
        Some(a) => a,
        None => Seq::<char>::empty(),
    }) + "\" method=\""@ + b.method + "\""@ + (match b.form_attrs {
        Some(a) => render_attrs(a),
        None => Seq::<char>::empty(),
    }) + ">"@
}

/// The submit button: nothing when no submit label was set, else the
/// `<button>` tag with its extra attributes and the label.
pub open spec fn render_button(submit: Option<Seq<char>>, battrs: Option<Seq<AttrView>>) -> Seq<
    char,
> {
    match submit {
        Some(s) => "<button type=\"submit\""@ + (match battrs {
            Some(a) => render_attrs(a),
            None => Seq::<char>::empty(),
        }) + ">"@ + s + "</button>"@,
        None => Seq::<char>::empty(),
    }
}

/// The whole rendered form, byte for byte. Labels, ids and attribute
/// values are embedded unescaped: the layout is a wire-format contract,
/// and callers who render untrusted text must escape it themselves.
pub open spec fn render_form(b: FormBuilderView) -> Seq<char> {
    render_form_open(b) + render_fields(b.fields) + render_button(b.submit, b.button_attrs)
        + "</form>"@
}

/// A labelled field with an id renders as `<label for="{id}">{label}`,
/// then its input tag, then the closing `</label>`: the label wraps the
/// input.
pub proof fn lemma_label_wraps_input(f: FieldView, l: Seq<char>, i: Seq<char>)
    requires
        f.label == Some(l),
        f.id == Some(i),
    ensures
        render_field(f) == "<label for=\""@ + i + "\">"@ + l + render_input(f) + "</label>"@,
{
    reveal_strlit("<label for=\"");
    reveal_strlit("<label");
    reveal_strlit(" for=\"");
    reveal_strlit("\">");
    reveal_strlit(">");
    reveal_strlit("\"");
    assert(render_field(f) =~= "<label for=\""@ + i + "\">"@ + l + render_input(f)
        + "</label>"@);
}

/// The renderer is a function of the form model alone: equal models
/// render to equal markup, on every call.
pub proof fn lemma_render_deterministic(b1: FormBuilderView, b2: FormBuilderView)
    requires
        b1 == b2,
    ensures
        render_form(b1) == render_form(b2),
{
}

fn append_attrs(o: &mut String, attrs: &Vec<(String, Option<String>)>)
    ensures
        final(o)@ == old(o)@ + render_attrs(attrs.deep_view()),
{
    let ghost base = o@;
    let mut i: usize = 0;
    while i < attrs.len()
        invariant
            i <= attrs.len(),
            o@ == base + render_attrs(attrs.deep_view().take(i as int)),
        decreases attrs.len() - i,
    {
        let a = &attrs[i];
        o.append(" ");
        o.append(a.0.as_str());
        match &a.1 {
            Some(v) => {
                o.append("=\"");
                o.append(v.as_str());
                o.append("\"");
            },
            None => {},
        }
        proof {
            let av = attrs.deep_view();
            assert(av.take(i + 1).drop_last() =~= av.take(i as int));
            assert(av.take(i + 1).last() == av[i as int]);
            assert(o@ =~= base + render_attrs(av.take(i + 1)));
        }
        i = i + 1;
    }
    proof {
        assert(attrs.deep_view().take(attrs.len() as int) =~= attrs.deep_view());
    }
}

fn append_label_open(o: &mut String, f: &Field)
    ensures
        final(o)@ == old(o)@ + render_label_open(f@),
{
    match &f.label {
        Some(l) => {
            o.append("<label");
            match &f.id {
                Some(i) => {
                    o.append(" for=\"");
                    o.append(i.as_str());
                    o.append("\"");
                },
                None => {},
            }
            o.append(">");
            o.append(l.as_str());
            proof {
                assert(o@ =~= old(o)@ + render_label_open(f@));
            }
        },
        None => {},
    }
}

#[verifier::rlimit(50)]
fn append_input(o: &mut String, f: &Field)
    ensures
        final(o)@ == old(o)@ + render_input(f@),
{
    o.append("<input name=\"");
    o.append(f.name.as_str());
    o.append("\" type=\"");
    o.append(f.input_type.as_str());
    o.append("\"");
    proof {
        assert(o@ =~= old(o)@ + ("<input name=\""@ + f@.name + "\" type=\""@ + f@.input_type
            + "\""@));
    }
    let ghost head = o@;
    match &f.id {
        Some(i) => {
            o.append(" id=\"");
            o.append(i.as_str());
            o.append("\"");
            proof {
                assert(o@ =~= head + (match f@.id {
                    Some(i) => " id=\""@ + i + "\""@,
                    None => Seq::<char>::empty(),
                }));
            }
        },
        None => {
            proof {
                assert(o@ =~= head + (match f@.id {
                    Some(i) => " id=\""@ + i + "\""@,
                    None => Seq::<char>::empty(),
                }));
            }
        },
    }
    let ghost head2 = o@;
    if f.required {
        o.append(" required");
    }
    proof {
        assert(o@ =~= head2 + (if f@.required {
            " required"@
        } else {
            Seq::<char>::empty()
        }));
    }
    let ghost head3 = o@;
    match &f.value {
        Some(v) => {
            o.append(" value=\"");
            o.append(v.as_str());
            o.append("\"");
            proof {
                assert(o@ =~= head3 + (match f@.value {
                    Some(v) => " value=\""@ + v + "\""@,
                    None => Seq::<char>::empty(),
                }));
            }
        },
        None => {
            proof {
                assert(o@ =~= head3 + (match f@.value {
                    Some(v) => " value=\""@ + v + "\""@,
                    None => Seq::<char>::empty(),
                }));
            }
        },
    }
    append_attrs(o, &f.attributes);
    o.append(">");
    proof {
        assert(o@ =~= old(o)@ + render_input(f@));
    }
}

fn append_field(o: &mut String, f: &Field)
    ensures
        final(o)@ == old(o)@ + render_field(f@),
{
    append_label_open(o, f);
    append_input(o, f);
    if f.label.is_some() {
        o.append("</label>");
    }
    proof {
        assert(o@ =~= old(o)@ + render_field(f@));
    }
}

impl FormBuilder {
    /// A fresh form with the given method and nothing else set.
    pub fn new(method: String) -> (r: Self)
        ensures
            r@ == (FormBuilderView {
                method: method@,
                action: None,
                submit: None,
                form_attrs: None,
                button_attrs: None,
                fields: Seq::<FieldView>::empty(),
            }),
    {
        let r = Self {
            method,
            action: None,
            submit: None,
            form_attrs: None,
            button_attrs: None,
            fields: Vec::new(),
        };
        proof {
            assert(r.fields.deep_view() =~= Seq::<FieldView>::empty());
        }
        r
    }

    /// Replaces the form's method.
    pub fn with_method(self, method: String) -> (r: Self)
        ensures
            r@ == (FormBuilderView { method: method@, ..self@ }),
    {
        Self { method, ..self }
    }

    /// Sets the form's action target.
    pub fn with_action(self, action: String) -> (r: Self)
        ensures
            r@ == (FormBuilderView { action: Some(action@), ..self@ }),
    {
        Self { action: Some(action), ..self }
    }

    /// Sets the submit button's label; without one no button is rendered.
    pub fn with_submit(self, submit: String) -> (r: Self)
        ensures
            r@ == (FormBuilderView { submit: Some(submit@), ..self@ }),
    {
        Self { submit: Some(submit), ..self }
    }

    /// Sets the extra attributes of the `<form>` tag.
    pub fn with_form_attrs(self, form_attrs: Vec<(String, Option<String>)>) -> (r: Self)
        ensures
            r@ == (FormBuilderView { form_attrs: Some(form_attrs.deep_view()), ..self@ }),
    {
        Self { form_attrs: Some(form_attrs), ..self }
    }

    /// Sets the extra attributes of the `<button>` tag.
    pub fn with_button_attrs(self, button_attrs: Vec<(String, Option<String>)>) -> (r: Self)
        ensures
            r@ == (FormBuilderView { button_attrs: Some(button_attrs.deep_view()), ..self@ }),
    {
        Self { button_attrs: Some(button_attrs), ..self }
    }

    /// Appends one input field, keeping the fields in insertion order.
    pub fn with_input(
        self,
        input_type: String,
        name: String,
        id: Option<String>,
        label: Option<String>,
        required: bool,
        attributes: Vec<(String, Option<String>)>,
        value: Option<String>,
    ) -> (r: Self)
        ensures
            r@ == (FormBuilderView {
                fields: self@.fields.push(
                    FieldView {
                        input_type: input_type@,
                        name: name@,
                        id: id.deep_view(),
                        label: label.deep_view(),
                        required: required,
                        attributes: attributes.deep_view(),
                        value: value.deep_view(),
                    },
                ),
                ..self@
            }),
    {
        let mut fields = self.fields;
        let field = Field { input_type, id, name, label, required, attributes, value };
        fields.push(field);
        let r = Self { fields, ..self };
        proof {
            assert(r.fields.deep_view() =~= self.fields.deep_view().push(field@));
        }
        r
    }

    /// Renders the form: exactly the markup that `render_form` gives of
    /// the builder's model, with nothing escaped.
    pub fn build(self) -> (r: String)
        ensures
            r@ == render_form(self@),
    {
        let mut o = String::new();
        o.append("<form action=\"");
        match &self.action {
            Some(a) => o.append(a.as_str()),
            None => {},
        }
        o.append("\" method=\"");
        o.append(self.method.as_str());
        o.append("\"");
        match &self.form_attrs {
            Some(attrs) => append_attrs(&mut o, attrs),
            None => {},
        }
        o.append(">");
        proof {
            assert(o@ =~= render_form_open(self@));
        }
        let ghost head = o@;
        let n = self.fields.len();
        let mut i: usize = 0;
        while i < n
            invariant
                i <= n,
                n == self.fields.len(),
                o@ == head + render_fields(self.fields.deep_view().take(i as int)),
            decreases n - i,
        {
            append_field(&mut o, &self.fields[i]);
            proof {
                let fv = self.fields.deep_view();
                assert(fv.take(i + 1).drop_last() =~= fv.take(i as int));
                assert(fv.take(i + 1).last() == fv[i as int]);
                assert(o@ =~= head + render_fields(fv.take(i + 1)));
            }
            i = i + 1;
        }
        proof {
            assert(self.fields.deep_view().take(n as int) =~= self.fields.deep_view());
        }
        match &self.submit {
            Some(s) => {
                o.append("<button type=\"submit\"");
                match &self.button_attrs {
                    Some(attrs) => append_attrs(&mut o, attrs),
                    None => {},
                }
                o.append(">");
                o.append(s.as_str());
                o.append("</button>");
            },
            None => {},
        }
        o.append("</form>");
        proof {
            assert(o@ =~= render_form(self@));
        }
        o
    }
}

} // verus!
