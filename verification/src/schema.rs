use vstd::prelude::*;

use crate::form_field::{
    FieldValue, SerializerTag, TypeCapabilityView, ValueKind, lookup, serialize_value,
    spec_lookup, spec_serialize,
};
use crate::{AttrView, FieldView, FormBuilder, FormBuilderView, FormSerializeError};

verus! {

/// The view of one raw per-field declaration.
pub struct DeclView {
    pub name: Seq<char>,
    pub ty: Option<ValueKind>,
    pub input_type: Option<Seq<char>>,
    pub id: Option<Seq<char>>,
    pub label: Option<Seq<char>>,
    pub required: Option<bool>,
    pub extra_attrs: Option<Seq<AttrView>>,
    pub serializer: Option<SerializerTag>,
    pub skip: bool,
    pub no_label: bool,
    pub flatten: Option<Seq<DescView>>,
}

/// The view of one resolved field descriptor.
pub struct DescView {
    pub input_type: Seq<char>,
    pub name: Seq<char>,
    pub id: Option<Seq<char>>,
    pub label: Option<Seq<char>>,
    pub required: bool,
    pub attributes: Seq<AttrView>,
    pub serializer: SerializerTag,
}

/// One field as the user declared it: the field's name and value kind,
/// the optional overrides, and the boolean switches. A `flatten`
/// declaration carries the nested schema's already-resolved descriptors,
/// to be spliced in its place; a declaration of an unregistered custom
/// type (`ty` is `None`) must override input kind, required flag and
/// serializer itself.
pub struct FieldDeclaration {
    pub name: String,
    pub ty: Option<ValueKind>,
    pub input_type: Option<String>,
    pub id: Option<String>,
    pub label: Option<String>,
    pub required: Option<bool>,
    pub extra_attrs: Option<Vec<(String, Option<String>)>>,
    pub serializer: Option<SerializerTag>,
    pub skip: bool,
    pub no_label: bool,
    pub flatten: Option<Vec<FieldDescriptor>>,
}

impl View for FieldDeclaration {
    type V = DeclView;

    open spec fn view(&self) -> DeclView {
        DeclView {
            name: self.name@,
            ty: self.ty,
            input_type: self.input_type.deep_view(),
            id: self.id.deep_view(),
            label: self.label.deep_view(),
            required: self.required,
            extra_attrs: self.extra_attrs.deep_view(),
            serializer: self.serializer,
            skip: self.skip,
            no_label: self.no_label,
            flatten: self.flatten.deep_view(),
        }
    }
}

impl DeepView for FieldDeclaration {
    type V = DeclView;

    open spec fn deep_view(&self) -> DeclView {
        self.view()
    }
}

/// One resolved, renderable field: every declared override merged with
/// the registry defaults of the field's value kind.
pub struct FieldDescriptor {
    pub input_type: String,
    pub name: String,
    pub id: Option<String>,
    pub label: Option<String>,
    pub required: bool,
    pub attributes: Vec<(String, Option<String>)>,
    pub serializer: SerializerTag,
}

impl View for FieldDescriptor {
    type V = DescView;

    open spec fn view(&self) -> DescView {
        DescView {
            input_type: self.input_type@,
            name: self.name@,
            id: self.id.deep_view(),
            label: self.label.deep_view(),
            required: self.required,
            attributes: self.attributes.deep_view(),
            serializer: self.serializer,
        }
    }
}

impl DeepView for FieldDescriptor {
    type V = DescView;

    open spec fn deep_view(&self) -> DescView {
        self.view()
    }
}

/// The view of a resolved schema.
pub struct SchemaView {
    pub fields: Seq<DescView>,
    pub form_attrs: Option<Seq<AttrView>>,
    pub button_attrs: Option<Seq<AttrView>>,
}

/// A resolved schema: the ordered field descriptors, and the extra
/// attributes of the `<form>` and `<button>` tags.
pub struct FormSchema {
    pub fields: Vec<FieldDescriptor>,
    pub form_attrs: Option<Vec<(String, Option<String>)>>,
    pub button_attrs: Option<Vec<(String, Option<String>)>>,
}

impl View for FormSchema {
    type V = SchemaView;

    open spec fn view(&self) -> SchemaView {
        SchemaView {
            fields: self.fields.deep_view(),
            form_attrs: self.form_attrs.deep_view(),
            button_attrs: self.button_attrs.deep_view(),
        }
    }
}

/// What kind of fault a declaration carries.
#[derive(Clone, Copy, PartialEq, Eq, Structural, Debug)]
pub enum ResolveErrorKind {
    /// The field's value type is unregistered and the overrides do not
    /// supply input kind, required flag and serializer themselves.
    Unregistered,
    /// The declaration is structurally invalid: `skip` together with
    /// `flatten`, or a serializer override that does not fit the
    /// declared value kind.
    Annotation,
}

/// An error raised while resolving a schema, naming the first faulty
/// declaration.
#[derive(Debug)]
pub enum ResolveError {
    UnregisteredTypeError(String),
    AnnotationError(String),
}

/// The fault kind an error reports.
pub open spec fn resolve_error_kind(e: ResolveError) -> ResolveErrorKind {
    match e {
        ResolveError::UnregisteredTypeError(_) => ResolveErrorKind::Unregistered,
        ResolveError::AnnotationError(_) => ResolveErrorKind::Annotation,
    }
}

/// The declared field name an error reports.
pub open spec fn resolve_error_name(e: ResolveError) -> Seq<char> {
    match e {
        ResolveError::UnregisteredTypeError(s) => s@,
        ResolveError::AnnotationError(s) => s@,
    }
}

impl ResolveError {
    /// The kind of fault this error reports.
    pub fn kind(&self) -> (r: ResolveErrorKind)
        ensures
            r == resolve_error_kind(*self),
    {
        match self {
            ResolveError::UnregisteredTypeError(_) => ResolveErrorKind::Unregistered,
            ResolveError::AnnotationError(_) => ResolveErrorKind::Annotation,
        }
    }

    /// The name of the declaration this error reports.
    pub fn field_name(&self) -> (r: &String)
        ensures
            r@ == resolve_error_name(*self),
    {
        match self {
            ResolveError::UnregisteredTypeError(s) => s,
            ResolveError::AnnotationError(s) => s,
        }
    }
}

/// Whether a serializer tag fits a value kind: each scalar kind has
/// exactly one fitting tag, and an optional kind accepts what its
/// wrapped kind accepts.
pub open spec fn serializer_fits(tag: SerializerTag, k: ValueKind) -> bool
    decreases k,
{
    match k {
        ValueKind::Text => tag == SerializerTag::Identity,
        ValueKind::Number => tag == SerializerTag::Decimal,
        ValueKind::Flag => tag == SerializerTag::FlagText,
        ValueKind::Day => tag == SerializerTag::DateYmd,
        ValueKind::Clock => tag == SerializerTag::TimeHm,
        ValueKind::Moment => tag == SerializerTag::DateTimeLocal,
        ValueKind::Optional(inner) => serializer_fits(tag, *inner),
    }
}

fn serializer_fits_exec(tag: &SerializerTag, k: &ValueKind) -> (r: bool)
    ensures
        r == serializer_fits(*tag, *k),
    decreases *k,
{
    match k {
        ValueKind::Text => *tag == SerializerTag::Identity,
        ValueKind::Number => *tag == SerializerTag::Decimal,
        ValueKind::Flag => *tag == SerializerTag::FlagText,
        ValueKind::Day => *tag == SerializerTag::DateYmd,
        ValueKind::Clock => *tag == SerializerTag::TimeHm,
        ValueKind::Moment => *tag == SerializerTag::DateTimeLocal,
        ValueKind::Optional(inner) => serializer_fits_exec(tag, &*inner),
    }
}

/// The fault of one declaration, if it has one: `skip` conflicting with
/// `flatten`; a serializer override that does not fit the declared
/// kind; or an unregistered type with incomplete overrides.
pub open spec fn decl_issue(d: DeclView) -> Option<ResolveErrorKind> {
    if d.skip {
        if d.flatten is Some {
            Some(ResolveErrorKind::Annotation)
        } else {
            None
        }
    } else if d.flatten is Some {
        None
    } else {
        match d.ty {
            Some(k) => if d.serializer is Some && !serializer_fits(d.serializer->0, k) {
                Some(ResolveErrorKind::Annotation)
            } else {
                None
            },
            None => if d.input_type is Some && d.required is Some && d.serializer is Some {
                None
            } else {
                Some(ResolveErrorKind::Unregistered)
            },
        }
    }
}

/// The registry defaults a declaration falls back to; unused (and
/// arbitrary) where the declaration overrides everything itself.
pub open spec fn decl_defaults(d: DeclView) -> TypeCapabilityView {
    match d.ty {
        Some(k) => spec_lookup(k),
        None => TypeCapabilityView {
            input_type: Seq::<char>::empty(),
            required: true,
            serializer: SerializerTag::Identity,
        },
    }
}

/// One declaration merged against its registry defaults: an override
/// always wins over a default, a missing label falls back to the
/// field's own name unless labels are suppressed.
pub open spec fn resolve_field_decl(d: DeclView) -> DescView {
    let cap = decl_defaults(d);
    DescView {
        input_type: match d.input_type {
            Some(t) => t,
            None => cap.input_type,
        },
        name: d.name,
        id: d.id,
        label: if d.no_label {
            None
        } else {
            match d.label {
                Some(l) => Some(l),
                None => Some(d.name),
            }
        },
        required: match d.required {
            Some(r) => r,
            None => cap.required,
        },
        attributes: match d.extra_attrs {
            Some(a) => a,
            None => Seq::<AttrView>::empty(),
        },
        serializer: match d.serializer {
            Some(s) => s,
            None => cap.serializer,
        },
    }
}

/// What one declaration contributes to the resolved schema: nothing if
/// skipped, the nested schema's descriptors if flattened, else its own
/// single descriptor.
pub open spec fn decl_fields(d: DeclView) -> Seq<DescView> {
    if d.skip {
        Seq::<DescView>::empty()
    } else {
        match d.flatten {
            Some(fs) => fs,
            None => seq![resolve_field_decl(d)],
        }
    }
}

/// The resolved descriptor sequence of a declaration list: declaration
/// order, with flattened subsequences substituted in place and skipped
/// declarations contributing nothing.
pub open spec fn spec_resolve(decls: Seq<DeclView>) -> Seq<DescView>
    decreases decls.len(),
{
    if decls.len() == 0 {
        Seq::<DescView>::empty()
    } else {
        decl_fields(decls[0]) + spec_resolve(decls.drop_first())
    }
}

/// The position of the first faulty declaration, if any.
pub open spec fn spec_first_bad(decls: Seq<DeclView>) -> Option<int>
    decreases decls.len(),
{
    if decls.len() == 0 {
        None
    } else if decl_issue(decls[0]) is Some {
        Some(0)
    } else {
        match spec_first_bad(decls.drop_first()) {
            Some(i) => Some(i + 1),
            None => None,
        }
    }
}

proof fn lemma_resolve_snoc(decls: Seq<DeclView>, d: DeclView)
    ensures
        spec_resolve(decls.push(d)) == spec_resolve(decls) + decl_fields(d),
    decreases decls.len(),
{
    if decls.len() == 0 {
        assert(decls.push(d)[0] == d);
        assert(decls.push(d).drop_first() =~= Seq::<DeclView>::empty());
        assert(spec_resolve(decls.push(d)) == decl_fields(d) + spec_resolve(
            Seq::<DeclView>::empty(),
        ));
        assert(spec_resolve(decls.push(d)) =~= spec_resolve(decls) + decl_fields(d));
    } else {
        assert(decls.push(d)[0] == decls[0]);
        assert(decls.push(d).drop_first() =~= decls.drop_first().push(d));
        lemma_resolve_snoc(decls.drop_first(), d);
        assert(spec_resolve(decls.push(d)) == decl_fields(decls[0]) + spec_resolve(
            decls.drop_first().push(d),
        ));
        assert(spec_resolve(decls.push(d)) == decl_fields(decls[0]) + (spec_resolve(
            decls.drop_first(),
        ) + decl_fields(d)));
        assert(spec_resolve(decls) == decl_fields(decls[0]) + spec_resolve(decls.drop_first()));
        assert(decl_fields(decls[0]) + (spec_resolve(decls.drop_first()) + decl_fields(d)) =~= (
        decl_fields(decls[0]) + spec_resolve(decls.drop_first())) + decl_fields(d));
    }
}

proof fn lemma_first_bad_snoc(decls: Seq<DeclView>, d: DeclView)
    ensures
        spec_first_bad(decls.push(d)) == (match spec_first_bad(decls) {
            Some(i) => Some(i),
            None => if decl_issue(d) is Some {
                Some(decls.len() as int)
            } else {
                None
            },
        }),
    decreases decls.len(),
{
    if decls.len() == 0 {
        assert(decls.push(d)[0] == d);
        assert(decls.push(d).drop_first() =~= Seq::<DeclView>::empty());
        assert(spec_first_bad(decls) == None::<int>);
        assert(spec_first_bad(decls.push(d).drop_first()) == None::<int>);
        if decl_issue(d) is Some {
            assert(spec_first_bad(decls.push(d)) == Some(0int));
        } else {
            assert(spec_first_bad(decls.push(d)) == None::<int>);
        }
    } else {
        assert(decls.push(d)[0] == decls[0]);
        assert(decls.push(d).drop_first() =~= decls.drop_first().push(d));
        lemma_first_bad_snoc(decls.drop_first(), d);
        if decl_issue(decls[0]) is Some {
            assert(spec_first_bad(decls.push(d)) == Some(0int));
            assert(spec_first_bad(decls) == Some(0int));
        } else {
            assert(spec_first_bad(decls.push(d)) == (match spec_first_bad(
                decls.drop_first().push(d),
            ) {
                Some(i) => Some(i + 1),
                None => None,
            }));
            assert(spec_first_bad(decls) == (match spec_first_bad(decls.drop_first()) {
                Some(i) => Some(i + 1),
                None => None,
            }));
            assert(decls.len() as int == decls.drop_first().len() + 1);
            let fb = spec_first_bad(decls.drop_first());
            if fb is Some {
                assert(spec_first_bad(decls.drop_first().push(d)) == Some(fb->0));
                assert(spec_first_bad(decls.push(d)) == Some(fb->0 + 1));
                assert(spec_first_bad(decls) == Some(fb->0 + 1));
            } else if decl_issue(d) is Some {
                assert(spec_first_bad(decls.drop_first().push(d)) == Some(
                    decls.drop_first().len() as int,
                ));
                assert(spec_first_bad(decls.push(d)) == Some(decls.len() as int));
                assert(spec_first_bad(decls) == None::<int>);
            } else {
                assert(spec_first_bad(decls.drop_first().push(d)) == None::<int>);
                assert(spec_first_bad(decls.push(d)) == None::<int>);
                assert(spec_first_bad(decls) == None::<int>);
            }
        }
    }
}

/// The first faulty declaration bounds every good prefix: spelled out
/// so callers can read an `Err` of `resolve` positionally.
pub proof fn lemma_first_bad_spec(decls: Seq<DeclView>)
    ensures
        spec_first_bad(decls) matches Some(i) ==> 0 <= i < decls.len() && decl_issue(decls[i])
            is Some && (forall|j: int| 0 <= j < i ==> decl_issue(#[trigger] decls[j]) is None),
        spec_first_bad(decls) is None ==> (forall|j: int|
            0 <= j < decls.len() ==> decl_issue(#[trigger] decls[j]) is None),
    decreases decls.len(),
{
    if decls.len() != 0 {
        lemma_first_bad_spec(decls.drop_first());
        assert forall|j: int|
            1 <= j < decls.len() implies decls.drop_first()[j - 1] == decls[j] by {}
    }
}

fn check_decl(d: &FieldDeclaration) -> (r: Option<ResolveErrorKind>)
    ensures
        r == decl_issue(d@),
{
    if d.skip {
        if d.flatten.is_some() {
            Some(ResolveErrorKind::Annotation)
        } else {
            None
        }
    } else if d.flatten.is_some() {
        None
    } else {
        match &d.ty {
            Some(k) => {
                match &d.serializer {
                    Some(tag) => {
                        if !serializer_fits_exec(tag, k) {
                            Some(ResolveErrorKind::Annotation)
                        } else {
                            None
                        }
                    },
                    None => None,
                }
            },
            None => {
                if d.input_type.is_some() && d.required.is_some() && d.serializer.is_some() {
                    None
                } else {
                    Some(ResolveErrorKind::Unregistered)
                }
            },
        }
    }
}

fn clone_opt_string(s: &Option<String>) -> (r: Option<String>)
    ensures
        r.deep_view() == s.deep_view(),
{
    match s {
        Some(v) => Some(v.clone()),
        None => None,
    }
}

fn clone_attrs(attrs: &Vec<(String, Option<String>)>) -> (r: Vec<(String, Option<String>)>)
    ensures
        r.deep_view() == attrs.deep_view(),
{
    let mut out: Vec<(String, Option<String>)> = Vec::new();
    let mut i: usize = 0;
    while i < attrs.len()
        invariant
            i <= attrs.len(),
            out.deep_view() == attrs.deep_view().take(i as int),
        decreases attrs.len() - i,
    {
        let name = attrs[i].0.clone();
        let value = clone_opt_string(&attrs[i].1);
        let pair = (name, value);
        proof {
            assert(pair.deep_view() == attrs.deep_view()[i as int]);
        }
        let ghost prev = out.deep_view();
        out.push(pair);
        proof {
            assert(out.deep_view() =~= prev.push(attrs.deep_view()[i as int]));
            assert(out.deep_view() =~= attrs.deep_view().take(i + 1));
        }
        i = i + 1;
    }
    proof {
        assert(attrs.deep_view().take(attrs.len() as int) =~= attrs.deep_view());
    }
    out
}

fn clone_descriptor(d: &FieldDescriptor) -> (r: FieldDescriptor)
    ensures
        r@ == d@,
{
    FieldDescriptor {
        input_type: d.input_type.clone(),
        name: d.name.clone(),
        id: clone_opt_string(&d.id),
        label: clone_opt_string(&d.label),
        required: d.required,
        attributes: clone_attrs(&d.attributes),
        serializer: d.serializer,
    }
}

fn resolve_one(d: &FieldDeclaration) -> (r: FieldDescriptor)
    requires
        !d@.skip,
        d@.flatten is None,
    ensures
        r@ == resolve_field_decl(d@),
{
    let cap = match &d.ty {
        Some(k) => lookup(k),
        None => crate::form_field::TypeCapability {
            input_type: String::new(),
            required: true,
            serializer: SerializerTag::Identity,
        },
    };
    let input_type = match &d.input_type {
        Some(t) => t.clone(),
        None => cap.input_type,
    };
    let label = if d.no_label {
        None
    } else {
        match &d.label {
            Some(l) => Some(l.clone()),
            None => Some(d.name.clone()),
        }
    };
    let required = match d.required {
        Some(r) => r,
        None => cap.required,
    };
    let attributes = match &d.extra_attrs {
        Some(a) => clone_attrs(a),
        None => Vec::new(),
    };
    let serializer = match d.serializer {
        Some(s) => s,
        None => cap.serializer,
    };
    let r = FieldDescriptor {
        input_type,
        name: d.name.clone(),
        id: clone_opt_string(&d.id),
        label,
        required,
        attributes,
        serializer,
    };
    proof {
        assert(r@.attributes =~= resolve_field_decl(d@).attributes);
    }
    r
}

/// Resolves a declaration list into the ordered descriptor sequence:
/// exactly `spec_resolve` of the declarations when every declaration is
/// sound, else the error of the first faulty declaration, naming it.
pub fn resolve(decls: &Vec<FieldDeclaration>) -> (r: Result<Vec<FieldDescriptor>, ResolveError>)
    ensures
        r is Ok <==> spec_first_bad(decls.deep_view()) is None,
        r matches Ok(fs) ==> fs.deep_view() == spec_resolve(decls.deep_view()),
        r matches Err(e) ==> spec_first_bad(decls.deep_view()) matches Some(i) && resolve_error_kind(
            e,
        ) == decl_issue(decls.deep_view()[i])->0 && resolve_error_name(e)
            == decls.deep_view()[i].name,
{
    let mut out: Vec<FieldDescriptor> = Vec::new();
    let mut i: usize = 0;
    while i < decls.len()
        invariant
            i <= decls.len(),
            spec_first_bad(decls.deep_view().take(i as int)) is None,
            out.deep_view() == spec_resolve(decls.deep_view().take(i as int)),
        decreases decls.len() - i,
    {
        let d = &decls[i];
        let ghost dv = decls.deep_view();
        match check_decl(d) {
            Some(kind) => {
                proof {
                    lemma_first_bad_snoc(dv.take(i as int), dv[i as int]);
                    assert(dv.take(i as int).push(dv[i as int]) =~= dv.take(i + 1));
                    lemma_first_bad_prefix(dv, i as int);
                }
                let name = d.name.clone();
                match kind {
                    ResolveErrorKind::Unregistered => {
                        return Err(ResolveError::UnregisteredTypeError(name));
                    },
                    ResolveErrorKind::Annotation => {
                        return Err(ResolveError::AnnotationError(name));
                    },
                }
            },
            None => {},
        }
        if d.skip {
        } else {
            match &d.flatten {
                Some(nested) => {
                    let mut j: usize = 0;
                    while j < nested.len()
                        invariant
                            j <= nested.len(),
                            out.deep_view() == spec_resolve(decls.deep_view().take(i as int))
                                + nested.deep_view().take(j as int),
                            i < decls.len(),
                            nested.deep_view() == decls.deep_view()[i as int].flatten->0,
                        decreases nested.len() - j,
                    {
                        let c = clone_descriptor(&nested[j]);
                        proof {
                            assert(c.deep_view() == nested.deep_view()[j as int]);
                        }
                        let ghost prev = out.deep_view();
                        out.push(c);
                        proof {
                            let nv = nested.deep_view();
                            assert(out.deep_view() =~= prev.push(nv[j as int]));
                            assert(nv.take(j + 1).drop_last() =~= nv.take(j as int));
                            assert(nv.take(j + 1).last() == nv[j as int]);
                            assert(out.deep_view() =~= spec_resolve(
                                decls.deep_view().take(i as int),
                            ) + nv.take(j + 1));
                        }
                        j = j + 1;
                    }
                    proof {
                        assert(nested.deep_view().take(nested.len() as int)
                            =~= nested.deep_view());
                    }
                },
                None => {
                    out.push(resolve_one(d));
                },
            }
        }
        proof {
            lemma_resolve_snoc(dv.take(i as int), dv[i as int]);
            lemma_first_bad_snoc(dv.take(i as int), dv[i as int]);
            assert(dv.take(i as int).push(dv[i as int]) =~= dv.take(i + 1));
            assert(out.deep_view() =~~= spec_resolve(dv.take(i + 1)));
        }
        i = i + 1;
    }
    proof {
        assert(decls.deep_view().take(decls.len() as int) =~= decls.deep_view());
    }
    Ok(out)
}

/// Resolution distributes over concatenation of declaration lists.
pub proof fn lemma_resolve_concat(a: Seq<DeclView>, b: Seq<DeclView>)
    ensures
        spec_resolve(a + b) == spec_resolve(a) + spec_resolve(b),
    decreases a.len(),
{
    if a.len() == 0 {
        assert(a + b =~= b);
        assert(spec_resolve(a) + spec_resolve(b) =~= spec_resolve(b));
    } else {
        assert((a + b)[0] == a[0]);
        assert((a + b).drop_first() =~= a.drop_first() + b);
        lemma_resolve_concat(a.drop_first(), b);
        assert(spec_resolve(a + b) == decl_fields(a[0]) + (spec_resolve(a.drop_first())
            + spec_resolve(b)));
        assert(decl_fields(a[0]) + (spec_resolve(a.drop_first()) + spec_resolve(b)) =~= (
        decl_fields(a[0]) + spec_resolve(a.drop_first())) + spec_resolve(b));
    }
}

/// What one declaration alone resolves to.
proof fn lemma_resolve_singleton(d: DeclView)
    ensures
        spec_resolve(seq![d]) == decl_fields(d),
{
    assert(seq![d].drop_first() =~= Seq::<DeclView>::empty());
    assert(decl_fields(d) + spec_resolve(Seq::<DeclView>::empty()) =~= decl_fields(d));
}

/// Field ordering: a schema of plain declarations (none skipped, none
/// flattened) resolves to exactly one descriptor per declaration, in
/// declaration order.
pub proof fn lemma_field_ordering(decls: Seq<DeclView>)
    requires
        forall|i: int|
            0 <= i < decls.len() ==> !(#[trigger] decls[i]).skip && decls[i].flatten is None,
    ensures
        spec_resolve(decls).len() == decls.len(),
        forall|i: int|
            0 <= i < decls.len() ==> spec_resolve(decls)[i] == resolve_field_decl(decls[i]),
    decreases decls.len(),
{
    if decls.len() != 0 {
        lemma_field_ordering(decls.drop_first());
        assert(spec_resolve(decls) == seq![resolve_field_decl(decls[0])] + spec_resolve(
            decls.drop_first(),
        ));
        assert forall|i: int|
            0 <= i < decls.len() implies spec_resolve(decls)[i] == resolve_field_decl(
            decls[i],
        ) by {
            if i > 0 {
                assert(decls.drop_first()[i - 1] == decls[i]);
                assert(spec_resolve(decls)[i] == spec_resolve(decls.drop_first())[i - 1]);
            }
        }
    }
}

/// Field ordering under flatten: a flattened declaration is replaced,
/// in place, by the nested schema's resolved descriptor sequence.
pub proof fn lemma_flatten_splice(decls: Seq<DeclView>, k: int)
    requires
        0 <= k < decls.len(),
        !decls[k].skip,
        decls[k].flatten is Some,
    ensures
        spec_resolve(decls) == spec_resolve(decls.take(k)) + decls[k].flatten->0 + spec_resolve(
            decls.skip(k + 1),
        ),
{
    assert(decls =~= decls.take(k) + seq![decls[k]] + decls.skip(k + 1));
    lemma_resolve_concat(decls.take(k) + seq![decls[k]], decls.skip(k + 1));
    lemma_resolve_concat(decls.take(k), seq![decls[k]]);
    lemma_resolve_singleton(decls[k]);
    assert(decl_fields(decls[k]) == decls[k].flatten->0);
}

/// Skip exclusion: a skipped declaration contributes nothing, wherever
/// it stands and whatever else it declares.
pub proof fn lemma_skip_excluded(decls: Seq<DeclView>, k: int)
    requires
        0 <= k < decls.len(),
        decls[k].skip,
    ensures
        spec_resolve(decls) == spec_resolve(decls.remove(k)),
{
    assert(decls =~= decls.take(k) + seq![decls[k]] + decls.skip(k + 1));
    assert(decls.remove(k) =~= decls.take(k) + decls.skip(k + 1));
    lemma_resolve_concat(decls.take(k) + seq![decls[k]], decls.skip(k + 1));
    lemma_resolve_concat(decls.take(k), seq![decls[k]]);
    lemma_resolve_concat(decls.take(k), decls.skip(k + 1));
    lemma_resolve_singleton(decls[k]);
    assert(decl_fields(decls[k]) =~= Seq::<DescView>::empty());
    assert(spec_resolve(decls.take(k)) + Seq::<DescView>::empty() =~= spec_resolve(
        decls.take(k),
    ));
}

/// Required default: with no explicit `required` override, a field of an
/// optional kind resolves as not required, and a field of any other
/// registered kind resolves as required. The renderer emits the
/// ` required` attribute exactly for required descriptors.
pub proof fn lemma_required_default(d: DeclView)
    requires
        d.required is None,
        d.ty is Some,
    ensures
        resolve_field_decl(d).required == !(d.ty->0 matches ValueKind::Optional(_)),
{
    match d.ty->0 {
        ValueKind::Text => {},
        ValueKind::Number => {},
        ValueKind::Flag => {},
        ValueKind::Day => {},
        ValueKind::Clock => {},
        ValueKind::Moment => {},
        ValueKind::Optional(_) => {},
    }
}

/// Label default: a declaration with no label override and labels not
/// suppressed resolves to a label equal to the field's own name.
pub proof fn lemma_label_default(d: DeclView)
    requires
        !d.no_label,
        d.label is None,
    ensures
        resolve_field_decl(d).label == Some(d.name),
{
}

/// One descriptor as it stands in an empty template: no value.
pub open spec fn template_field(d: DescView) -> FieldView {
    FieldView {
        input_type: d.input_type,
        name: d.name,
        id: d.id,
        label: d.label,
        required: d.required,
        attributes: d.attributes,
        value: None,
    }
}

/// The form model of an empty template: the schema's fields in order,
/// each without a value, under the default method and submit label.
pub open spec fn template_model(s: SchemaView) -> FormBuilderView {
    FormBuilderView {
        method: "POST"@,
        action: None,
        submit: Some("Send"@),
        form_attrs: s.form_attrs,
        button_attrs: s.button_attrs,
        fields: s.fields.map_values(|d: DescView| template_field(d)),
    }
}

/// One descriptor as it stands in a populated form: its serialized text
/// as the value.
pub open spec fn populated_field(d: DescView, v: FieldValue) -> FieldView {
    FieldView {
        input_type: d.input_type,
        name: d.name,
        id: d.id,
        label: d.label,
        required: d.required,
        attributes: d.attributes,
        value: Some(spec_serialize(d.serializer, v)->0),
    }
}

/// The form model of a populated form, defined where every field
/// serializes.
pub open spec fn populated_model(s: SchemaView, vals: Seq<FieldValue>) -> FormBuilderView {
    FormBuilderView {
        method: "POST"@,
        action: None,
        submit: Some("Send"@),
        form_attrs: s.form_attrs,
        button_attrs: s.button_attrs,
        fields: Seq::new(s.fields.len(), |i: int| populated_field(s.fields[i], vals[i])),
    }
}

/// The position of the first field whose value fails to serialize, if
/// any.
pub open spec fn spec_first_fail(fields: Seq<DescView>, vals: Seq<FieldValue>) -> Option<int>
    decreases fields.len(),
{
    if fields.len() == 0 {
        None
    } else if spec_serialize(fields[0].serializer, vals[0]) is None {
        Some(0)
    } else {
        match spec_first_fail(fields.drop_first(), vals.drop_first()) {
            Some(i) => Some(i + 1),
            None => None,
        }
    }
}

proof fn lemma_first_fail_snoc(fields: Seq<DescView>, vals: Seq<FieldValue>, f: DescView, v: FieldValue)
    requires
        fields.len() == vals.len(),
    ensures
        spec_first_fail(fields.push(f), vals.push(v)) == (match spec_first_fail(fields, vals) {
            Some(i) => Some(i),
            None => if spec_serialize(f.serializer, v) is None {
                Some(fields.len() as int)
            } else {
                None
            },
        }),
    decreases fields.len(),
{
    if fields.len() == 0 {
        assert(fields.push(f)[0] == f);
        assert(vals.push(v)[0] == v);
        assert(fields.push(f).drop_first() =~= Seq::<DescView>::empty());
        assert(vals.push(v).drop_first() =~= Seq::<FieldValue>::empty());
        assert(spec_first_fail(fields.push(f).drop_first(), vals.push(v).drop_first())
            == None::<int>);
    } else {
        assert(fields.push(f)[0] == fields[0]);
        assert(vals.push(v)[0] == vals[0]);
        assert(fields.push(f).drop_first() =~= fields.drop_first().push(f));
        assert(vals.push(v).drop_first() =~= vals.drop_first().push(v));
        lemma_first_fail_snoc(fields.drop_first(), vals.drop_first(), f, v);
        if spec_serialize(fields[0].serializer, vals[0]) is None {
        } else {
            assert(spec_first_fail(fields.push(f), vals.push(v)) == (match spec_first_fail(
                fields.drop_first().push(f),
                vals.drop_first().push(v),
            ) {
                Some(i) => Some(i + 1),
                None => None,
            }));
            assert(spec_first_fail(fields, vals) == (match spec_first_fail(
                fields.drop_first(),
                vals.drop_first(),
            ) {
                Some(i) => Some(i + 1),
                None => None,
            }));
            assert(fields.len() as int == fields.drop_first().len() + 1);
        }
    }
}

proof fn lemma_first_fail_at(fields: Seq<DescView>, vals: Seq<FieldValue>, i: int)
    requires
        0 <= i < fields.len(),
        fields.len() == vals.len(),
        spec_first_fail(fields.take(i), vals.take(i)) is None,
        spec_serialize(fields[i].serializer, vals[i]) is None,
    ensures
        spec_first_fail(fields, vals) == Some(i),
    decreases i,
{
    if i == 0 {
    } else {
        assert(fields.take(i)[0] == fields[0]);
        assert(vals.take(i)[0] == vals[0]);
        assert(spec_serialize(fields[0].serializer, vals[0]) is Some);
        assert(fields.take(i).drop_first() =~= fields.drop_first().take(i - 1));
        assert(vals.take(i).drop_first() =~= vals.drop_first().take(i - 1));
        assert(fields.drop_first()[i - 1] == fields[i]);
        assert(vals.drop_first()[i - 1] == vals[i]);
        lemma_first_fail_at(fields.drop_first(), vals.drop_first(), i - 1);
    }
}

/// The first failing position, spelled out: everything before it
/// serializes, it does not; and where there is none, everything
/// serializes. This is how an `Err` of `build_populated` reads.
pub proof fn lemma_first_fail_spec(fields: Seq<DescView>, vals: Seq<FieldValue>)
    requires
        fields.len() == vals.len(),
    ensures
        spec_first_fail(fields, vals) matches Some(k) ==> 0 <= k < fields.len()
            && spec_serialize(fields[k].serializer, vals[k]) is None && (forall|j: int|
            0 <= j < k ==> spec_serialize((#[trigger] fields[j]).serializer, vals[j]) is Some),
        spec_first_fail(fields, vals) is None ==> (forall|j: int|
            0 <= j < fields.len() ==> spec_serialize(
                (#[trigger] fields[j]).serializer,
                vals[j],
            ) is Some),
    decreases fields.len(),
{
    if fields.len() != 0 {
        lemma_first_fail_spec(fields.drop_first(), vals.drop_first());
        assert forall|j: int| 1 <= j < fields.len() implies fields.drop_first()[j - 1]
            == fields[j] && vals.drop_first()[j - 1] == vals[j] by {}
    }
}

/// Builds the empty template of a schema: every field present, in
/// schema order, with no value.
pub fn build_template(schema: &FormSchema) -> (r: FormBuilder)
    ensures
        r@ == template_model(schema@),
{
    let mut b = FormBuilder::new(String::from_str("POST")).with_submit(String::from_str("Send"));
    match &schema.form_attrs {
        Some(a) => {
            b = b.with_form_attrs(clone_attrs(a));
        },
        None => {},
    }
    match &schema.button_attrs {
        Some(a) => {
            b = b.with_button_attrs(clone_attrs(a));
        },
        None => {},
    }
    let n = schema.fields.len();
    proof {
        assert(b@.fields =~= schema@.fields.take(0).map_values(|d: DescView| template_field(d)));
    }
    let mut i: usize = 0;
    while i < n
        invariant
            i <= n,
            n == schema.fields.len(),
            b@ == (FormBuilderView {
                fields: schema@.fields.take(i as int).map_values(
                    |d: DescView| template_field(d),
                ),
                ..template_model(schema@)
            }),
        decreases n - i,
    {
        let f = &schema.fields[i];
        b =
        b.with_input(
            f.input_type.clone(),
            f.name.clone(),
            clone_opt_string(&f.id),
            clone_opt_string(&f.label),
            f.required,
            clone_attrs(&f.attributes),
            None,
        );
        proof {
            let sf = schema@.fields;
            let tf = |d: DescView| template_field(d);
            assert(b@.fields =~= sf.take(i as int).map_values(tf).push(template_field(
                sf[i as int],
            )));
            assert(sf.take(i + 1).map_values(tf) =~= sf.take(i as int).map_values(tf).push(
                template_field(sf[i as int]),
            ));
        }
        i = i + 1;
    }
    proof {
        assert(schema@.fields.take(n as int) =~= schema@.fields);
    }
    b
}

/// Populates a form from an instance's field values, in schema order:
/// the populated model when every field serializes, else the error
/// naming the first field that did not, with no partial model.
pub fn build_populated(schema: &FormSchema, instance: &Vec<FieldValue>) -> (r: Result<
    FormBuilder,
    FormSerializeError,
>)
    requires
        instance@.len() == schema@.fields.len(),
    ensures
        r is Ok <==> spec_first_fail(schema@.fields, instance@) is None,
        r matches Ok(b) ==> b@ == populated_model(schema@, instance@),
        r matches Err(e) ==> spec_first_fail(schema@.fields, instance@) matches Some(k)
            && crate::error_field_name(e) == schema@.fields[k].name,
{
    let mut b = FormBuilder::new(String::from_str("POST")).with_submit(String::from_str("Send"));
    match &schema.form_attrs {
        Some(a) => {
            b = b.with_form_attrs(clone_attrs(a));
        },
        None => {},
    }
    match &schema.button_attrs {
        Some(a) => {
            b = b.with_button_attrs(clone_attrs(a));
        },
        None => {},
    }
    let n = schema.fields.len();
    proof {
        assert(b@.fields =~= Seq::new(
            0,
            |k: int| populated_field(schema@.fields[k], instance@[k]),
        ));
    }
    let mut i: usize = 0;
    while i < n
        invariant
            i <= n,
            n == schema.fields.len(),
            instance@.len() == schema@.fields.len(),
            spec_first_fail(schema@.fields.take(i as int), instance@.take(i as int)) is None,
            b@ == (FormBuilderView {
                fields: Seq::new(
                    i as nat,
                    |k: int| populated_field(schema@.fields[k], instance@[k]),
                ),
                ..populated_model(schema@, instance@)
            }),
        decreases n - i,
    {
        let f = &schema.fields[i];
        let ghost sf = schema@.fields;
        let ghost vals = instance@;
        match serialize_value(&f.serializer, &instance[i]) {
            Ok(text) => {
                proof {
                    lemma_first_fail_snoc(
                        sf.take(i as int),
                        vals.take(i as int),
                        sf[i as int],
                        vals[i as int],
                    );
                    assert(sf.take(i as int).push(sf[i as int]) =~= sf.take(i + 1));
                    assert(vals.take(i as int).push(vals[i as int]) =~= vals.take(i + 1));
                }
                b =
                b.with_input(
                    f.input_type.clone(),
                    f.name.clone(),
                    clone_opt_string(&f.id),
                    clone_opt_string(&f.label),
                    f.required,
                    clone_attrs(&f.attributes),
                    Some(text),
                );
                proof {
                    assert(b@.fields =~= Seq::new(
                        (i + 1) as nat,
                        |k: int| populated_field(sf[k], vals[k]),
                    ));
                }
            },
            Err(_) => {
                proof {
                    lemma_first_fail_at(sf, vals, i as int);
                }
                return Err(FormSerializeError::FieldSerializationError(f.name.clone()));
            },
        }
        i = i + 1;
    }
    proof {
        assert(schema@.fields.take(n as int) =~= schema@.fields);
        assert(instance@.take(n as int) =~= instance@);
        assert(b@.fields =~= populated_model(schema@, instance@).fields);
    }
    Ok(b)
}

proof fn lemma_first_bad_prefix(decls: Seq<DeclView>, i: int)
    requires
        0 <= i < decls.len(),
        spec_first_bad(decls.take(i)) is None,
        decl_issue(decls[i]) is Some,
    ensures
        spec_first_bad(decls) == Some(i),
    decreases i,
{
    if i == 0 {
        assert(decl_issue(decls[0]) is Some);
    } else {
        assert(decls.take(i)[0] == decls[0]);
        assert(decl_issue(decls[0]) is None);
        assert(decls.take(i).drop_first() =~= decls.drop_first().take(i - 1));
        assert(decls.drop_first()[i - 1] == decls[i]);
        lemma_first_bad_prefix(decls.drop_first(), i - 1);
    }
}

} // verus!
